//! The edges of the follow graph.

use vstd::prelude::*;

verus! {

/// One actor follows another, or has asked to. Times are seconds since the start of 1970.
#[derive(Debug, PartialEq)]
pub struct Follow {
    pub follower_id: i64,
    pub following_id: i64,
    pub created_at: i64,
    pub updated_at: Option<i64>,
    pub role: String,
}

/// An edge of the follow graph as plain values.
pub struct FollowView {
    pub follower_id: i64,
    pub following_id: i64,
    pub created_at: i64,
    pub updated_at: Option<i64>,
    pub role: Seq<char>,
}

impl View for Follow {
    type V = FollowView;

    open spec fn view(&self) -> FollowView {
        FollowView {
            follower_id: self.follower_id,
            following_id: self.following_id,
            created_at: self.created_at,
            updated_at: self.updated_at,
            role: self.role@,
        }
    }
}

impl Follow {
    /// A copy with the same contents.
    pub fn duplicate(&self) -> (r: Follow)
        ensures
            r@ == self@,
    {
        Follow {
            follower_id: self.follower_id,
            following_id: self.following_id,
            created_at: self.created_at,
            updated_at: self.updated_at,
            role: self.role.clone(),
        }
    }
}
} // verus!

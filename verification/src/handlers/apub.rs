//! The ActivityPub endpoints.

pub mod actors;
pub mod auth;
pub mod inbox;
pub mod laws;

use vstd::prelude::*;
use vstd::string::*;
use crate::handlers::Reject;
use crate::state::AppState;
use crate::strings::str_eq;

verus! {

/// The content type of an ActivityPub answer.
pub const ACTIVITY_CONTENT_TYPE: &'static str = "application/activity+json";

/// The text is one of the list.
pub open spec fn is_listed(list: Seq<String>, text: Seq<char>) -> bool {
    exists|i: int| 0 <= i < list.len() && (#[trigger] list[i])@ == text
}

/// The domain that a request is for: the host it names, where this server
/// answers for it. A request that names no host, or another, finds nothing.
pub fn set_domain(app_state: &AppState, host: Option<String>) -> (r: Result<String, Reject>)
    ensures
        match r {
            Ok(domain) => host matches Some(h) && domain@ == h@ && is_listed(
                app_state.local_domains@,
                h@,
            ),
            Err(e) => e == Reject::NotFound && (host matches Some(h) ==> !is_listed(
                app_state.local_domains@,
                h@,
            )),
        },
{
    match &host {
        Some(domain) => {
            let mut i: usize = 0;
            while i < app_state.local_domains.len()
                invariant
                    i <= app_state.local_domains.len(),
                    host == Some(*domain),
                    forall|j: int| 0 <= j < i ==> (#[trigger] app_state.local_domains@[j])@
                        != domain@,
                decreases app_state.local_domains.len() - i,
            {
                if str_eq(app_state.local_domains[i].as_str(), domain.as_str()) {
                    proof {
                        assert(app_state.local_domains@[i as int]@ == domain@);
                    }
                    return Ok(domain.clone());
                }
                i += 1;
            }
            Err(Reject::NotFound)
        },
        None => Err(Reject::NotFound),
    }
}

} // verus!

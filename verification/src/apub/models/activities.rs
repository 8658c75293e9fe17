//! Activities as they arrive in an inbox.

use vstd::prelude::*;

verus! {

/// What an activity is about: the URI of a thing, an activity of its own,
/// or anything else, of which only the id is kept where it has one.
#[derive(Debug, PartialEq, Eq)]
pub enum ActivityObject {
    Uri(String),
    Activity(Box<Activity>),
    Other(Option<String>),
}

#[derive(Debug, PartialEq, Eq)]
pub struct Activity {
    pub kind: String,
    pub id: String,
    pub actor: String,
    pub object: ActivityObject,
    pub published: String,
}

#[derive(Debug, Clone, PartialEq, Eq)]
pub struct Object {
    pub kind: String,
    pub id: String,
    pub published: String,
    pub attributed_to: String,
    pub in_reply_to: Option<String>,
    pub summary: Option<String>,
    pub content: String,
    pub tag: Option<Vec<Tag>>,
    pub sensitive: Option<bool>,
}

#[derive(Debug, Clone, PartialEq, Eq)]
pub struct Tag {
    pub kind: String,
    pub href: String,
    pub name: String,
}

} // verus!

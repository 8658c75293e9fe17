pub mod actor;
pub mod image;

use vstd::prelude::*;
use vstd::string::*;

verus! {

/// The two contexts of every document of this server.
pub open spec fn spec_context() -> Seq<Seq<char>> {
    seq!["https://www.w3.org/ns/activitystreams"@, "https://litepub.social/context.jsonld"@]
}

pub fn get_context() -> (r: Vec<String>)
    ensures
        r@.map_values(|text: String| text@) == spec_context(),
{
    let mut context: Vec<String> = Vec::new();
    context.push(String::from_str("https://www.w3.org/ns/activitystreams"));
    context.push(String::from_str("https://litepub.social/context.jsonld"));
    proof {
        assert(context@.map_values(|text: String| text@) =~= spec_context());
    }
    context
}

} // verus!

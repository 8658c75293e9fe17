//! What holds of the actions on the follow graph together.

use vstd::prelude::*;
use crate::db::actions::follow::{followed, lemma_find_edge, lemma_newer_count, unfollowed};
use crate::db::models::follow::Follow;
use crate::db::{find_edge, find_uri, followers_of, is_edge, same_actors, Database};
use crate::errors::ActionError;

verus! {

/// A follow that is taken into the store and then undone by the same actor
/// against the same target leaves the follow graph as it was before the
/// follow, and with it the followers of every actor and their number.
pub proof fn lemma_follow_then_undo(
    before: Database,
    between: Database,
    after: Database,
    follower_uri: Seq<char>,
    following_uri: Seq<char>,
    now: i64,
    follow: Follow,
)
    requires
        before.wf(),
        followed(
            before,
            between,
            follower_uri,
            following_uri,
            now,
            Ok::<Follow, ActionError>(follow),
        ),
        unfollowed(between, after, follower_uri, following_uri, Ok::<(), ActionError>(())),
    ensures
        after.follows() == before.follows(),
        same_actors(before, after),
        forall|id: i64|
            followers_of(after.actors(), after.follows(), id) == followers_of(
                before.actors(),
                before.follows(),
                id,
            ),
{
    let follower = find_uri(before.actors(), follower_uri)->0;
    let following = find_uri(before.actors(), following_uri)->0;
    let old_edges = before.follows();
    let new_edges = between.follows();
    let at = crate::db::newer_count(old_edges, now) as int;
    lemma_newer_count(old_edges, now);
    lemma_find_edge(old_edges, follower.id, following.id);
    lemma_find_edge(new_edges, follower.id, following.id);
    assert(new_edges.len() == old_edges.len() + 1);
    assert(0 <= at < new_edges.len());
    assert(new_edges[at]@ == follow@);
    assert(is_edge(new_edges[at], follower.id, following.id));
    let found = find_edge(new_edges, follower.id, following.id)->0;
    if found != at {
        let k = if found < at {
            found
        } else {
            found - 1
        };
        assert(new_edges.remove(at)[k] == new_edges[found]);
        assert(is_edge(old_edges[k], follower.id, following.id));
    }
}

} // verus!

//! Reading and changing the follow graph.

use vstd::prelude::*;
use vstd::string::*;
use crate::db::actions::actor::{actor_index_by_id, actor_index_by_uri};
use crate::db::models::actor::{Actor, ActorView};
use crate::db::models::follow::{Follow, FollowView};
use crate::db::{find_edge, find_uri, followers_of, is_edge, newer_count, same_actors, Database};
use crate::errors::{ActionError, ActionResult};
use crate::strings::str_eq;

verus! {

/// The number of followers on one page.
pub const PAGE_SIZE: i64 = 12;

/// The views of a list of actors.
pub open spec fn actors_view(actors: Seq<Actor>) -> Seq<ActorView> {
    actors.map_values(|actor: Actor| actor@)
}

/// The place in the list of followers at which the page `page` starts.
pub open spec fn page_start(page: i64, len: int) -> int {
    if 12 * (page - 1) < len {
        12 * (page - 1)
    } else {
        len
    }
}

/// The place in the list of followers before which the page `page` ends.
pub open spec fn page_end(page: i64, len: int) -> int {
    if page_start(page, len) + 12 < len {
        page_start(page, len) + 12
    } else {
        len
    }
}

/// The edge that is made when `follower` follows `following` at the time
/// `now`: it is pending where the followed actor is locked.
pub open spec fn new_edge(follower: Actor, following: Actor, now: i64) -> FollowView {
    FollowView {
        follower_id: follower.id,
        following_id: following.id,
        created_at: now,
        updated_at: Some(now),
        role: if following.is_locked {
            "pending"@
        } else {
            "follower"@
        },
    }
}

/// What `follow_actor_by_uri` does: `NotFound` where one of the two actors
/// is not in the store, `InsertError` where the edge is there already, and
/// in both cases the store is as before; else the new edge stands behind the
/// edges that are newer than it and before all others.
pub open spec fn followed(
    before: Database,
    after: Database,
    follower_uri: Seq<char>,
    following_uri: Seq<char>,
    now: i64,
    r: ActionResult<Follow>,
) -> bool {
    match (find_uri(before.actors(), follower_uri), find_uri(before.actors(), following_uri)) {
        (Some(follower), Some(following)) => {
            if find_edge(before.follows(), follower.id, following.id) is Some {
                r == Err::<Follow, ActionError>(ActionError::InsertError) && after == before
            } else {
                let at = newer_count(before.follows(), now) as int;
                &&& r matches Ok(follow) && follow@ == new_edge(follower, following, now)
                    && after.follows().len() == before.follows().len() + 1 && after.follows()[at]@
                    == follow@ && after.follows().remove(at) == before.follows()
                &&& same_actors(before, after)
            }
        },
        _ => r == Err::<Follow, ActionError>(ActionError::NotFound) && after == before,
    }
}

/// What `unfollow_actor_by_uri` does: `NotFound` where one of the two actors
/// is not in the store; else the edge between them is taken away where there
/// is one, and no edge is none the less a success.
pub open spec fn unfollowed(
    before: Database,
    after: Database,
    follower_uri: Seq<char>,
    following_uri: Seq<char>,
    r: ActionResult<()>,
) -> bool {
    match (find_uri(before.actors(), follower_uri), find_uri(before.actors(), following_uri)) {
        (Some(follower), Some(following)) => {
            &&& r is Ok
            &&& same_actors(before, after)
            &&& after.follows() == match find_edge(before.follows(), follower.id, following.id) {
                Some(at) => before.follows().remove(at),
                None => before.follows(),
            }
        },
        _ => r == Err::<(), ActionError>(ActionError::NotFound) && after == before,
    }
}

/// What `find_edge` finds is an edge between the two, at a place of the list.
pub proof fn lemma_find_edge(follows: Seq<Follow>, follower_id: i64, following_id: i64)
    ensures
        match find_edge(follows, follower_id, following_id) {
            Some(at) => 0 <= at < follows.len() && is_edge(follows[at], follower_id, following_id),
            None => forall|i: int|
                0 <= i < follows.len() ==> !is_edge(
                    #[trigger] follows[i],
                    follower_id,
                    following_id,
                ),
        },
    decreases follows.len(),
{
    if follows.len() > 0 && !is_edge(follows[0], follower_id, following_id) {
        let rest = follows.drop_first();
        lemma_find_edge(rest, follower_id, following_id);
        if find_edge(rest, follower_id, following_id) is None {
            assert forall|i: int| 0 <= i < follows.len() implies !is_edge(
                #[trigger] follows[i],
                follower_id,
                following_id,
            ) by {
                if i > 0 {
                    assert(follows[i] == rest[i - 1]);
                }
            }
        }
    }
}

/// The newer edges stand at the head of a list that is in order.
pub proof fn lemma_newer_count(follows: Seq<Follow>, time: i64)
    requires
        forall|i: int, j: int|
            0 <= i < j < follows.len() ==> (#[trigger] follows[i]).created_at >= (
            #[trigger] follows[j]).created_at,
    ensures
        newer_count(follows, time) <= follows.len(),
        forall|i: int| 0 <= i < newer_count(follows, time) ==> (#[trigger] follows[i]).created_at
            > time,
        forall|i: int|
            newer_count(follows, time) <= i < follows.len() ==> (#[trigger] follows[i]).created_at
                <= time,
    decreases follows.len(),
{
    if follows.len() > 0 {
        let rest = follows.drop_first();
        assert forall|i: int, j: int| 0 <= i < j < rest.len() implies (
        #[trigger] rest[i]).created_at >= (#[trigger] rest[j]).created_at by {
            assert(rest[i] == follows[i + 1]);
            assert(rest[j] == follows[j + 1]);
        }
        if follows[0].created_at > time {
            lemma_newer_count(rest, time);
            let n = newer_count(follows, time);
            assert forall|i: int| 0 <= i < n implies (#[trigger] follows[i]).created_at
                > time by {
                if i > 0 {
                    assert(follows[i] == rest[i - 1]);
                }
            }
            assert forall|i: int| n <= i < follows.len() implies (
            #[trigger] follows[i]).created_at <= time by {
                assert(follows[i] == rest[i - 1]);
            }
        } else {
            assert forall|i: int| 0 <= i < follows.len() implies (
            #[trigger] follows[i]).created_at <= time by {
                if i > 0 {
                    assert(follows[0].created_at >= follows[i].created_at);
                }
            }
        }
    }
}

/// The place of the edge between two actors.
pub fn edge_index(db: &Database, follower_id: i64, following_id: i64) -> (r: Option<usize>)
    ensures
        match r {
            Some(at) => find_edge(db.follows(), follower_id, following_id) == Some(at as int),
            None => find_edge(db.follows(), follower_id, following_id) is None,
        },
{
    let n = db.follows_len();
    let ghost all = db.follows();
    let mut i: usize = 0;
    proof {
        assert(all.skip(0) =~= all);
    }
    while i < n
        invariant
            i <= n,
            n == all.len(),
            all == db.follows(),
            find_edge(all, follower_id, following_id) == match find_edge(
                all.skip(i as int),
                follower_id,
                following_id,
            ) {
                Some(k) => Some(k + i),
                None => None,
            },
        decreases n - i,
    {
        let follow = db.follow(i);
        proof {
            assert(all.skip(i as int)[0] == all[i as int]);
            assert(all.skip(i as int).drop_first() =~= all.skip(i + 1));
        }
        if follow.follower_id == follower_id && follow.following_id == following_id {
            return Some(i);
        }
        i += 1;
    }
    proof {
        assert(all.skip(n as int) =~= Seq::<Follow>::empty());
    }
    None
}

/// The number of edges at the head of the list that are newer than `time`.
fn newer_edges(db: &Database, time: i64) -> (r: usize)
    ensures
        r == newer_count(db.follows(), time),
{
    let n = db.follows_len();
    let ghost all = db.follows();
    let mut i: usize = 0;
    proof {
        assert(all.skip(0) =~= all);
    }
    while i < n
        invariant
            i <= n,
            n == all.len(),
            all == db.follows(),
            newer_count(all, time) == i + newer_count(all.skip(i as int), time),
        decreases n - i,
    {
        proof {
            assert(all.skip(i as int)[0] == all[i as int]);
            assert(all.skip(i as int).drop_first() =~= all.skip(i + 1));
        }
        if db.follow(i).created_at > time {
            i += 1;
        } else {
            return i;
        }
    }
    proof {
        assert(all.skip(n as int) =~= Seq::<Follow>::empty());
    }
    i
}

/// All followers of an actor, in the order of the edges.
fn all_followers(db: &Database, id: i64) -> (r: Vec<Actor>)
    ensures
        actors_view(r@) == actors_view(followers_of(db.actors(), db.follows(), id)),
{
    let n = db.follows_len();
    let ghost actors = db.actors();
    let ghost all = db.follows();
    let mut out: Vec<Actor> = Vec::new();
    let mut i: usize = 0;
    proof {
        assert(all.take(0) =~= Seq::<Follow>::empty());
        assert(actors_view(out@) =~= actors_view(followers_of(actors, all.take(0), id)));
    }
    while i < n
        invariant
            i <= n,
            n == all.len(),
            all == db.follows(),
            actors == db.actors(),
            actors_view(out@) == actors_view(followers_of(actors, all.take(i as int), id)),
        decreases n - i,
    {
        let follow = db.follow(i);
        proof {
            assert(all.take(i + 1).drop_last() =~= all.take(i as int));
            assert(all.take(i + 1).last() == all[i as int]);
        }
        if follow.following_id == id && !str_eq(follow.role.as_str(), "pending") {
            match actor_index_by_id(db, follow.follower_id) {
                Some(k) => {
                    let ghost before = out@;
                    let copy = db.actor(k).duplicate();
                    out.push(copy);
                    proof {
                        let found = followers_of(actors, all.take(i as int), id);
                        assert(actors_view(before.push(copy)) =~= actors_view(before).push(
                            copy@,
                        ));
                        assert(actors_view(found.push(actors[k as int])) =~= actors_view(
                            found,
                        ).push(actors[k as int]@));
                    }
                },
                None => {},
            }
        }
        i += 1;
    }
    proof {
        assert(all.take(n as int) =~= all);
    }
    out
}

/// One page of the followers of an actor, twelve to a page, from the
/// newest edge to the oldest. Pages count from 1; a page below that is
/// `NotFound`, and a page past the end is empty.
pub fn actor_get_followers(db: &Database, actor: &Actor, page: i64) -> (r: ActionResult<
    Vec<Actor>,
>)
    ensures
        page < 1 ==> r == Err::<Vec<Actor>, ActionError>(ActionError::NotFound),
        page >= 1 ==> (r matches Ok(list) && actors_view(list@) == actors_view(
            followers_of(db.actors(), db.follows(), actor.id),
        ).subrange(
            page_start(page, followers_of(db.actors(), db.follows(), actor.id).len() as int),
            page_end(page, followers_of(db.actors(), db.follows(), actor.id).len() as int),
        )),
{
    if page < 1 {
        return Err(ActionError::NotFound);
    }
    let all = all_followers(db, actor.id);
    let ghost views = actors_view(followers_of(db.actors(), db.follows(), actor.id));
    let n = all.len();
    proof {
        assert(actors_view(all@).len() == all@.len());
        assert(views.len() == followers_of(db.actors(), db.follows(), actor.id).len());
    }
    let start: usize = if (page - 1) as u64 > (n as u64) / 12 {
        n
    } else {
        let s = 12 * ((page - 1) as u64);
        if s < n as u64 {
            s as usize
        } else {
            n
        }
    };
    let end: usize = if n - start > 12 {
        start + 12
    } else {
        n
    };
    let mut out: Vec<Actor> = Vec::new();
    let mut i: usize = start;
    proof {
        assert(start == page_start(page, n as int));
        assert(end == page_end(page, n as int));
        assert(actors_view(out@) =~= views.subrange(start as int, start as int));
    }
    while i < end
        invariant
            start <= i <= end <= n,
            n == all@.len(),
            views == actors_view(all@),
            actors_view(out@) == views.subrange(start as int, i as int),
        decreases end - i,
    {
        let ghost before = out@;
        let copy = all[i].duplicate();
        out.push(copy);
        proof {
            assert(actors_view(before.push(copy)) =~= actors_view(before).push(copy@));
            assert(views.subrange(start as int, i + 1) =~= views.subrange(
                start as int,
                i as int,
            ).push(views[i as int]));
        }
        i += 1;
    }
    Ok(out)
}

/// The number of followers of an actor. `InternalError` stands for a number
/// that the result cannot hold.
pub fn actor_count_followers(db: &Database, actor: &Actor) -> (r: ActionResult<i64>)
    ensures
        match r {
            Ok(n) => n == followers_of(db.actors(), db.follows(), actor.id).len(),
            Err(e) => e == ActionError::InternalError && followers_of(
                db.actors(),
                db.follows(),
                actor.id,
            ).len() > i64::MAX,
        },
{
    let all = all_followers(db, actor.id);
    proof {
        assert(actors_view(all@).len() == all@.len());
        assert(actors_view(followers_of(db.actors(), db.follows(), actor.id)).len()
            == followers_of(db.actors(), db.follows(), actor.id).len());
    }
    let n = all.len();
    if n as u64 > 0x7fff_ffff_ffff_ffff {
        Err(ActionError::InternalError)
    } else {
        Ok(n as i64)
    }
}

/// Makes the actor at `follower_uri` a follower of the actor at
/// `following_uri`, at the time `now`.
pub fn follow_actor_by_uri(db: &mut Database, follower_uri: &str, following_uri: &str, now: i64) -> (r:
    ActionResult<Follow>)
    requires
        old(db).wf(),
    ensures
        final(db).wf(),
        followed(*old(db), *final(db), follower_uri@, following_uri@, now, r),
{
    let follower = match actor_index_by_uri(db, follower_uri) {
        Some(i) => i,
        None => {
            return Err(ActionError::NotFound);
        },
    };
    let following = match actor_index_by_uri(db, following_uri) {
        Some(i) => i,
        None => {
            return Err(ActionError::NotFound);
        },
    };
    let follower_id = db.actor(follower).id;
    let following_id = db.actor(following).id;
    let locked = db.actor(following).is_locked;
    if edge_index(db, follower_id, following_id).is_some() {
        return Err(ActionError::InsertError);
    }
    let at = newer_edges(db, now);
    let role = if locked {
        String::from_str("pending")
    } else {
        String::from_str("follower")
    };
    let new_follow = Follow {
        follower_id,
        following_id,
        created_at: now,
        updated_at: Some(now),
        role,
    };
    let copy = new_follow.duplicate();
    proof {
        lemma_find_edge(db.follows(), follower_id, following_id);
        lemma_newer_count(db.follows(), now);
    }
    db.add_follow(at, new_follow);
    proof {
        assert(db.follows().remove(at as int) =~= old(db).follows());
    }
    Ok(copy)
}

/// Ends the following of the actor at `following_uri` by the actor at
/// `follower_uri`.
pub fn unfollow_actor_by_uri(db: &mut Database, follower_uri: &str, following_uri: &str) -> (r:
    ActionResult<()>)
    requires
        old(db).wf(),
    ensures
        final(db).wf(),
        unfollowed(*old(db), *final(db), follower_uri@, following_uri@, r),
{
    let follower = match actor_index_by_uri(db, follower_uri) {
        Some(i) => i,
        None => {
            return Err(ActionError::NotFound);
        },
    };
    let following = match actor_index_by_uri(db, following_uri) {
        Some(i) => i,
        None => {
            return Err(ActionError::NotFound);
        },
    };
    let follower_id = db.actor(follower).id;
    let following_id = db.actor(following).id;
    match edge_index(db, follower_id, following_id) {
        Some(at) => {
            proof {
                lemma_find_edge(db.follows(), follower_id, following_id);
            }
            db.remove_follow(at);
        },
        None => {},
    }
    Ok(())
}

} // verus!

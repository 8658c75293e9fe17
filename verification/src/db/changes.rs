//! What a request changed in the store: the rows that came and the edges
//! that went, for whoever keeps the store somewhere else as well.

use vstd::prelude::*;
use crate::db::actions::follow::{actors_view, edge_index};
use crate::db::models::actor::Actor;
use crate::db::models::follow::{Follow, FollowView};
use crate::db::models::user::{User, UserView};
use crate::db::{find_edge, Database};

verus! {

/// The two ends of an edge.
pub open spec fn pair_of(follow: Follow) -> (i64, i64) {
    (follow.follower_id, follow.following_id)
}

/// The ends of a list of edges.
pub open spec fn pairs_of(follows: Seq<Follow>) -> Seq<(i64, i64)> {
    follows.map_values(|follow: Follow| pair_of(follow))
}

/// The views of a list of edges.
pub open spec fn follows_view(follows: Seq<Follow>) -> Seq<FollowView> {
    follows.map_values(|follow: Follow| follow@)
}

/// The views of a list of accounts.
pub open spec fn users_view(users: Seq<User>) -> Seq<UserView> {
    users.map_values(|user: User| user@)
}

/// The edges of `follows` whose ends are not among `known`, in their order.
pub open spec fn edges_beyond(follows: Seq<Follow>, known: Seq<(i64, i64)>) -> Seq<Follow>
    decreases follows.len(),
{
    if follows.len() == 0 {
        Seq::<Follow>::empty()
    } else if known.contains(pair_of(follows.last())) {
        edges_beyond(follows.drop_last(), known)
    } else {
        edges_beyond(follows.drop_last(), known).push(follows.last())
    }
}

/// The pairs of `known` between which `follows` holds no edge, in their order.
pub open spec fn pairs_gone(known: Seq<(i64, i64)>, follows: Seq<Follow>) -> Seq<(i64, i64)>
    decreases known.len(),
{
    if known.len() == 0 {
        Seq::<(i64, i64)>::empty()
    } else if find_edge(follows, known.last().0, known.last().1) is Some {
        pairs_gone(known.drop_last(), follows)
    } else {
        pairs_gone(known.drop_last(), follows).push(known.last())
    }
}

/// The rows of a list from the place `from` on; none where the list is shorter.
pub open spec fn rows_from<T>(rows: Seq<T>, from: int) -> Seq<T> {
    if 0 <= from <= rows.len() {
        rows.skip(from)
    } else {
        Seq::<T>::empty()
    }
}

/// What a store held at one time: how many actors and accounts, and the
/// ends of its edges.
pub struct Snapshot {
    pub actors: usize,
    pub users: usize,
    pub edges: Vec<(i64, i64)>,
}

/// What a store holds that a snapshot of it did not, and what it holds no more.
pub struct Changes {
    pub actors: Vec<Actor>,
    pub users: Vec<User>,
    pub follows: Vec<Follow>,
    pub gone: Vec<(i64, i64)>,
}

/// Takes the snapshot of a store.
pub fn snapshot(db: &Database) -> (s: Snapshot)
    ensures
        s.actors == db.actors().len(),
        s.users == db.users().len(),
        s.edges@ == pairs_of(db.follows()),
{
    let mut edges: Vec<(i64, i64)> = Vec::new();
    let mut i: usize = 0;
    let n = db.follows_len();
    proof {
        assert(edges@ =~= pairs_of(db.follows().take(0)));
    }
    while i < n
        invariant
            i <= n,
            n == db.follows().len(),
            edges@ == pairs_of(db.follows().take(i as int)),
        decreases n - i,
    {
        let follow = db.follow(i);
        edges.push((follow.follower_id, follow.following_id));
        proof {
            assert(edges@ =~= pairs_of(db.follows().take(i + 1)));
        }
        i += 1;
    }
    proof {
        assert(db.follows().take(n as int) =~= db.follows());
    }
    Snapshot { actors: db.actors_len(), users: db.users_len(), edges }
}

/// Tests whether a pair is in a list.
fn holds_pair(pairs: &Vec<(i64, i64)>, pair: (i64, i64)) -> (r: bool)
    ensures
        r == pairs@.contains(pair),
{
    let mut i: usize = 0;
    while i < pairs.len()
        invariant
            i <= pairs.len(),
            forall|j: int| 0 <= j < i ==> pairs@[j] != pair,
        decreases pairs.len() - i,
    {
        if pairs[i].0 == pair.0 && pairs[i].1 == pair.1 {
            assert(pairs@[i as int] == pair);
            return true;
        }
        i += 1;
    }
    false
}

/// Copies of the actors of the store from the place `from` on.
fn actors_from(db: &Database, from: usize) -> (r: Vec<Actor>)
    ensures
        actors_view(r@) == actors_view(rows_from(db.actors(), from as int)),
{
    let mut out: Vec<Actor> = Vec::new();
    let n = db.actors_len();
    if from > n {
        proof {
            assert(actors_view(out@) =~= actors_view(rows_from(db.actors(), from as int)));
        }
        return out;
    }
    let ghost all = db.actors().skip(from as int);
    let mut i: usize = from;
    proof {
        assert(actors_view(out@) =~= actors_view(all.take(0)));
    }
    while i < n
        invariant
            from <= i <= n,
            n == db.actors().len(),
            all == db.actors().skip(from as int),
            actors_view(out@) == actors_view(all.take(i - from)),
        decreases n - i,
    {
        let ghost was = out@;
        let copy = db.actor(i).duplicate();
        out.push(copy);
        proof {
            assert(all.take(i - from + 1) =~= all.take(i - from).push(db.actors()[i as int]));
            assert(actors_view(was.push(copy)) =~= actors_view(was).push(copy@));
            assert(actors_view(all.take(i - from + 1)) =~= actors_view(all.take(i - from)).push(
                db.actors()[i as int]@,
            ));
        }
        i += 1;
    }
    proof {
        assert(all.take(n - from) =~= all);
    }
    out
}

/// Copies of the accounts of the store from the place `from` on.
fn users_from(db: &Database, from: usize) -> (r: Vec<User>)
    ensures
        users_view(r@) == users_view(rows_from(db.users(), from as int)),
{
    let mut out: Vec<User> = Vec::new();
    let n = db.users_len();
    if from > n {
        proof {
            assert(users_view(out@) =~= users_view(rows_from(db.users(), from as int)));
        }
        return out;
    }
    let ghost all = db.users().skip(from as int);
    let mut i: usize = from;
    proof {
        assert(users_view(out@) =~= users_view(all.take(0)));
    }
    while i < n
        invariant
            from <= i <= n,
            n == db.users().len(),
            all == db.users().skip(from as int),
            users_view(out@) == users_view(all.take(i - from)),
        decreases n - i,
    {
        let ghost was = out@;
        let copy = db.user(i).duplicate();
        out.push(copy);
        proof {
            assert(all.take(i - from + 1) =~= all.take(i - from).push(db.users()[i as int]));
            assert(users_view(was.push(copy)) =~= users_view(was).push(copy@));
            assert(users_view(all.take(i - from + 1)) =~= users_view(all.take(i - from)).push(
                db.users()[i as int]@,
            ));
        }
        i += 1;
    }
    proof {
        assert(all.take(n - from) =~= all);
    }
    out
}

/// What the store holds beyond a snapshot that was taken of it before, and
/// the edges of the snapshot that it holds no more: the actors and accounts
/// that were added at the end, the edges between other ends than the
/// snapshot knows, and the ends between which no edge is left.
pub fn changes(before: &Snapshot, db: &Database) -> (c: Changes)
    ensures
        actors_view(c.actors@) == actors_view(rows_from(db.actors(), before.actors as int)),
        users_view(c.users@) == users_view(rows_from(db.users(), before.users as int)),
        follows_view(c.follows@) == follows_view(edges_beyond(db.follows(), before.edges@)),
        c.gone@ == pairs_gone(before.edges@, db.follows()),
{
    let actors = actors_from(db, before.actors);
    let users = users_from(db, before.users);
    let mut follows: Vec<Follow> = Vec::new();
    let mut i: usize = 0;
    let follows_len = db.follows_len();
    proof {
        assert(db.follows().take(0) =~= Seq::<Follow>::empty());
        assert(follows_view(follows@) =~= follows_view(
            edges_beyond(db.follows().take(0), before.edges@),
        ));
    }
    while i < follows_len
        invariant
            i <= follows_len,
            follows_len == db.follows().len(),
            follows_view(follows@) == follows_view(
                edges_beyond(db.follows().take(i as int), before.edges@),
            ),
        decreases follows_len - i,
    {
        let follow = db.follow(i);
        proof {
            assert(db.follows().take(i + 1).drop_last() =~= db.follows().take(i as int));
            assert(db.follows().take(i + 1).last() == db.follows()[i as int]);
        }
        if !holds_pair(&before.edges, (follow.follower_id, follow.following_id)) {
            let ghost was = follows@;
            let ghost found = edges_beyond(db.follows().take(i as int), before.edges@);
            let copy = follow.duplicate();
            follows.push(copy);
            proof {
                assert(follows_view(was.push(copy)) =~= follows_view(was).push(copy@));
                assert(follows_view(found.push(*follow)) =~= follows_view(found).push(follow@));
            }
        }
        i += 1;
    }
    proof {
        assert(db.follows().take(follows_len as int) =~= db.follows());
    }
    let mut gone: Vec<(i64, i64)> = Vec::new();
    let mut i: usize = 0;
    proof {
        assert(before.edges@.take(0) =~= Seq::<(i64, i64)>::empty());
    }
    while i < before.edges.len()
        invariant
            i <= before.edges.len(),
            gone@ == pairs_gone(before.edges@.take(i as int), db.follows()),
        decreases before.edges.len() - i,
    {
        let pair = before.edges[i];
        proof {
            assert(before.edges@.take(i + 1).drop_last() =~= before.edges@.take(i as int));
            assert(before.edges@.take(i + 1).last() == pair);
        }
        if edge_index(db, pair.0, pair.1).is_none() {
            gone.push(pair);
        }
        i += 1;
    }
    proof {
        assert(before.edges@.take(before.edges.len() as int) =~= before.edges@);
    }
    Changes { actors, users, follows, gone }
}

} // verus!

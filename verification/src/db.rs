//! The store of actors, accounts and follow edges, held in memory.

pub mod actions;
pub mod changes;
pub mod laws;
pub mod models;
pub mod validation;

use vstd::prelude::*;
use crate::db::models::actor::Actor;
use crate::db::models::follow::Follow;
use crate::db::models::user::User;

verus! {

/// The tables of the store. Actors and accounts stand in the order in which
/// they came; follow edges stand from the newest to the oldest.
pub struct Database {
    actors: Vec<Actor>,
    follows: Vec<Follow>,
    users: Vec<User>,
    next_id: i64,
}

/// The edge leads from the actor `follower_id` to the actor `following_id`.
pub open spec fn is_edge(follow: Follow, follower_id: i64, following_id: i64) -> bool {
    follow.follower_id == follower_id && follow.following_id == following_id
}

/// The first actor with the id `id`, if there is one.
pub open spec fn find_id(actors: Seq<Actor>, id: i64) -> Option<Actor>
    decreases actors.len(),
{
    if actors.len() == 0 {
        None
    } else if actors[0].id == id {
        Some(actors[0])
    } else {
        find_id(actors.drop_first(), id)
    }
}

/// The first actor with the URI `uri`, if there is one.
pub open spec fn find_uri(actors: Seq<Actor>, uri: Seq<char>) -> Option<Actor>
    decreases actors.len(),
{
    if actors.len() == 0 {
        None
    } else if actors[0].uri@ == uri {
        Some(actors[0])
    } else {
        find_uri(actors.drop_first(), uri)
    }
}

/// The first actor with the name `username` at the domain `domain`, if
/// there is one.
pub open spec fn find_named(actors: Seq<Actor>, username: Seq<char>, domain: Seq<char>) -> Option<
    Actor,
>
    decreases actors.len(),
{
    if actors.len() == 0 {
        None
    } else if actors[0].username@ == username && actors[0].domain@ == domain {
        Some(actors[0])
    } else {
        find_named(actors.drop_first(), username, domain)
    }
}

/// The place of the first edge from `follower_id` to `following_id`, if
/// there is one.
pub open spec fn find_edge(follows: Seq<Follow>, follower_id: i64, following_id: i64) -> Option<
    int,
>
    decreases follows.len(),
{
    if follows.len() == 0 {
        None
    } else if is_edge(follows[0], follower_id, following_id) {
        Some(0)
    } else {
        match find_edge(follows.drop_first(), follower_id, following_id) {
            Some(i) => Some(i + 1),
            None => None,
        }
    }
}

/// An edge counts for the followers of `id`: it leads to `id`, it is not
/// pending, and the actor it comes from is in the store.
pub open spec fn counts_as_follower(actors: Seq<Actor>, follow: Follow, id: i64) -> bool {
    follow.following_id == id && follow.role@ != "pending"@ && find_id(
        actors,
        follow.follower_id,
    ) is Some
}

/// The followers of the actor `id`, in the order of the edges.
pub open spec fn followers_of(actors: Seq<Actor>, follows: Seq<Follow>, id: i64) -> Seq<Actor>
    decreases follows.len(),
{
    if follows.len() == 0 {
        Seq::<Actor>::empty()
    } else {
        let head = followers_of(actors, follows.drop_last(), id);
        if counts_as_follower(actors, follows.last(), id) {
            head.push(find_id(actors, follows.last().follower_id)->0)
        } else {
            head
        }
    }
}

/// The number of edges at the head of the list that are newer than `time`.
pub open spec fn newer_count(follows: Seq<Follow>, time: i64) -> nat
    decreases follows.len(),
{
    if follows.len() == 0 {
        0
    } else if follows[0].created_at > time {
        1 + newer_count(follows.drop_first(), time)
    } else {
        0
    }
}

/// The actors have ids from 1 on, and no id and no URI is held by two.
pub open spec fn actors_distinct(actors: Seq<Actor>) -> bool {
    &&& forall|i: int| 0 <= i < actors.len() ==> 1 <= (#[trigger] actors[i]).id
    &&& forall|i: int, j: int|
        0 <= i < actors.len() && 0 <= j < actors.len() && i != j ==> (#[trigger] actors[i]).id != (
        #[trigger] actors[j]).id
    &&& forall|i: int, j: int|
        0 <= i < actors.len() && 0 <= j < actors.len() && i != j ==> (#[trigger] actors[i]).uri@
            != (#[trigger] actors[j]).uri@
}

/// The actors of a store that gives out `next_id` next.
pub open spec fn actors_wf(actors: Seq<Actor>, next_id: i64) -> bool {
    &&& actors_distinct(actors)
    &&& forall|i: int| 0 <= i < actors.len() ==> (#[trigger] actors[i]).id < next_id
}

/// No two edges lead from the same actor to the same actor.
pub open spec fn edges_distinct(follows: Seq<Follow>) -> bool {
    forall|i: int, j: int|
        0 <= i < follows.len() && 0 <= j < follows.len() && i != j ==> !is_edge(
            #[trigger] follows[i],
            (#[trigger] follows[j]).follower_id,
            follows[j].following_id,
        )
}

/// The edges stand from the newest to the oldest.
pub open spec fn edges_in_order(follows: Seq<Follow>) -> bool {
    forall|i: int, j: int|
        0 <= i < j < follows.len() ==> (#[trigger] follows[i]).created_at >= (
        #[trigger] follows[j]).created_at
}

/// The edges of a store.
pub open spec fn follows_wf(follows: Seq<Follow>) -> bool {
    edges_distinct(follows) && edges_in_order(follows)
}

/// No actor has two accounts.
pub open spec fn users_distinct(users: Seq<User>) -> bool {
    forall|i: int, j: int|
        0 <= i < users.len() && 0 <= j < users.len() && i != j ==> (#[trigger] users[i]).actor_id
            != (#[trigger] users[j]).actor_id
}

/// The accounts of a store that gives out `next_id` next.
pub open spec fn users_wf(users: Seq<User>, next_id: i64) -> bool {
    &&& users_distinct(users)
    &&& forall|i: int| 0 <= i < users.len() ==> (#[trigger] users[i]).actor_id < next_id
}

/// The largest id of a list of actors; 0 for an empty list.
pub open spec fn top_id(actors: Seq<Actor>) -> i64
    decreases actors.len(),
{
    if actors.len() == 0 {
        0
    } else if actors.last().id > top_id(actors.drop_last()) {
        actors.last().id
    } else {
        top_id(actors.drop_last())
    }
}

/// The rows can be the tables of a store: the actors, edges and accounts
/// are as a store holds them, and an id is left to give out.
pub open spec fn rows_wf(actors: Seq<Actor>, follows: Seq<Follow>, users: Seq<User>) -> bool {
    &&& actors_distinct(actors)
    &&& top_id(actors) < i64::MAX
    &&& follows_wf(follows)
    &&& users_wf(users, (top_id(actors) + 1) as i64)
}

pub proof fn lemma_top_id(actors: Seq<Actor>)
    ensures
        top_id(actors) >= 0,
        forall|i: int| 0 <= i < actors.len() ==> (#[trigger] actors[i]).id <= top_id(actors),
    decreases actors.len(),
{
    if actors.len() > 0 {
        let head = actors.drop_last();
        lemma_top_id(head);
        assert forall|i: int| 0 <= i < actors.len() implies (#[trigger] actors[i]).id <= top_id(
            actors,
        ) by {
            if i < head.len() {
                assert(head[i] == actors[i]);
            }
        }
    }
}

/// The two stores hold the same actors and accounts and give out the same
/// next id.
pub open spec fn same_actors(before: Database, after: Database) -> bool {
    &&& after.actors() == before.actors()
    &&& after.users() == before.users()
    &&& after.next_id() == before.next_id()
}

impl Database {
    pub closed spec fn actors(&self) -> Seq<Actor> {
        self.actors@
    }

    pub closed spec fn follows(&self) -> Seq<Follow> {
        self.follows@
    }

    pub closed spec fn users(&self) -> Seq<User> {
        self.users@
    }

    /// The id that the next actor gets.
    pub closed spec fn next_id(&self) -> i64 {
        self.next_id
    }

    /// What holds of every store: ids are given out in rising order, from 1;
    /// no URI and no id is held by two actors; no two edges lead from the
    /// same actor to the same actor; the edges stand from the newest to the
    /// oldest; no actor has two accounts, and every account is that of an
    /// actor that got its id from this store.
    pub open spec fn wf(&self) -> bool {
        &&& 1 <= self.next_id()
        &&& actors_wf(self.actors(), self.next_id())
        &&& follows_wf(self.follows())
        &&& users_wf(self.users(), self.next_id())
    }

    /// A store with the given rows as its tables: the actors in the order
    /// in which they came, the edges from the newest to the oldest. `None`
    /// for rows that cannot be the tables of a store.
    pub fn from_rows(actors: Vec<Actor>, follows: Vec<Follow>, users: Vec<User>) -> (r: Option<
        Database,
    >)
        ensures
            match r {
                Some(db) => {
                    &&& db.wf()
                    &&& db.actors() == actors@
                    &&& db.follows() == follows@
                    &&& db.users() == users@
                    &&& db.next_id() == top_id(actors@) + 1
                },
                None => !rows_wf(actors@, follows@, users@),
            },
    {
        let top = match check_actors(&actors) {
            Some(top) => top,
            None => {
                return None;
            },
        };
        if top == i64::MAX {
            return None;
        }
        let next_id = top + 1;
        if !check_follows(&follows) {
            return None;
        }
        if !check_users(&users, next_id) {
            return None;
        }
        proof {
            lemma_top_id(actors@);
        }
        Some(Database { actors, follows, users, next_id })
    }

    /// An empty store.
    pub fn new() -> (db: Database)
        ensures
            db.wf(),
            db.actors().len() == 0,
            db.follows().len() == 0,
            db.users().len() == 0,
            db.next_id() == 1,
    {
        Database { actors: Vec::new(), follows: Vec::new(), users: Vec::new(), next_id: 1 }
    }

    pub fn actors_len(&self) -> (n: usize)
        ensures
            n == self.actors().len(),
    {
        self.actors.len()
    }

    pub fn actor(&self, i: usize) -> (actor: &Actor)
        requires
            i < self.actors().len(),
        ensures
            *actor == self.actors()[i as int],
    {
        &self.actors[i]
    }

    pub fn follows_len(&self) -> (n: usize)
        ensures
            n == self.follows().len(),
    {
        self.follows.len()
    }

    pub fn follow(&self, i: usize) -> (follow: &Follow)
        requires
            i < self.follows().len(),
        ensures
            *follow == self.follows()[i as int],
    {
        &self.follows[i]
    }

    pub fn users_len(&self) -> (n: usize)
        ensures
            n == self.users().len(),
    {
        self.users.len()
    }

    pub fn user(&self, i: usize) -> (user: &User)
        requires
            i < self.users().len(),
        ensures
            *user == self.users()[i as int],
    {
        &self.users[i]
    }

    /// The id that the next actor gets.
    pub fn next_actor_id(&self) -> (id: i64)
        ensures
            id == self.next_id(),
    {
        self.next_id
    }

    /// Adds an actor that carries the next id and a URI that is not held yet.
    pub(crate) fn add_actor(&mut self, actor: Actor)
        requires
            old(self).wf(),
            old(self).next_id() < i64::MAX,
            actor.id == old(self).next_id(),
            forall|i: int|
                0 <= i < old(self).actors().len() ==> (#[trigger] old(self).actors()[i]).uri@
                    != actor.uri@,
        ensures
            final(self).wf(),
            final(self).actors() == old(self).actors().push(actor),
            final(self).next_id() == old(self).next_id() + 1,
            final(self).follows() == old(self).follows(),
            final(self).users() == old(self).users(),
    {
        self.actors.push(actor);
        self.next_id = self.next_id + 1;
    }

    /// Puts an edge at the place `at`, which keeps the edges in order.
    pub(crate) fn add_follow(&mut self, at: usize, follow: Follow)
        requires
            old(self).wf(),
            at <= old(self).follows().len(),
            forall|i: int|
                0 <= i < at ==> (#[trigger] old(self).follows()[i]).created_at
                    >= follow.created_at,
            forall|i: int|
                at <= i < old(self).follows().len() ==> (
                #[trigger] old(self).follows()[i]).created_at <= follow.created_at,
            forall|i: int|
                0 <= i < old(self).follows().len() ==> !is_edge(
                    #[trigger] old(self).follows()[i],
                    follow.follower_id,
                    follow.following_id,
                ),
        ensures
            final(self).wf(),
            final(self).follows() == old(self).follows().insert(at as int, follow),
            final(self).actors() == old(self).actors(),
            final(self).users() == old(self).users(),
            final(self).next_id() == old(self).next_id(),
    {
        let ghost before = self.follows@;
        self.follows.insert(at, follow);
        proof {
            let after = self.follows@;
            assert forall|i: int, j: int|
                0 <= i < after.len() && 0 <= j < after.len() && i != j implies !is_edge(
                #[trigger] after[i],
                (#[trigger] after[j]).follower_id,
                after[j].following_id,
            ) by {
                let a = if i < at {
                    i
                } else {
                    i - 1
                };
                let b = if j < at {
                    j
                } else {
                    j - 1
                };
                if i != at && j != at {
                    assert(after[i] == before[a]);
                    assert(after[j] == before[b]);
                } else if i == at {
                    assert(after[j] == before[b]);
                } else {
                    assert(after[i] == before[a]);
                }
            }
            assert forall|i: int, j: int| 0 <= i < j < after.len() implies (
            #[trigger] after[i]).created_at >= (#[trigger] after[j]).created_at by {
                let a = if i < at {
                    i
                } else {
                    i - 1
                };
                let b = if j < at {
                    j
                } else {
                    j - 1
                };
                if i != at && j != at {
                    assert(after[i] == before[a]);
                    assert(after[j] == before[b]);
                } else if i == at {
                    assert(after[j] == before[b]);
                } else {
                    assert(after[i] == before[a]);
                }
            }
        }
    }

    /// Takes the edge at the place `at` away.
    pub(crate) fn remove_follow(&mut self, at: usize)
        requires
            old(self).wf(),
            at < old(self).follows().len(),
        ensures
            final(self).wf(),
            final(self).follows() == old(self).follows().remove(at as int),
            final(self).actors() == old(self).actors(),
            final(self).users() == old(self).users(),
            final(self).next_id() == old(self).next_id(),
    {
        let ghost before = self.follows@;
        self.follows.remove(at);
        proof {
            let after = self.follows@;
            assert forall|i: int| 0 <= i < after.len() implies #[trigger] after[i] == before[if i
                < at {
                i
            } else {
                i + 1
            }] by {}
            assert forall|i: int, j: int|
                0 <= i < after.len() && 0 <= j < after.len() && i != j implies !is_edge(
                #[trigger] after[i],
                (#[trigger] after[j]).follower_id,
                after[j].following_id,
            ) by {
                let a = if i < at {
                    i
                } else {
                    i + 1
                };
                let b = if j < at {
                    j
                } else {
                    j + 1
                };
                assert(after[i] == before[a]);
                assert(after[j] == before[b]);
            }
            assert forall|i: int, j: int| 0 <= i < j < after.len() implies (
            #[trigger] after[i]).created_at >= (#[trigger] after[j]).created_at by {
                let a = if i < at {
                    i
                } else {
                    i + 1
                };
                let b = if j < at {
                    j
                } else {
                    j + 1
                };
                assert(after[i] == before[a]);
                assert(after[j] == before[b]);
            }
        }
    }

    /// Adds the account of an actor that has none.
    pub(crate) fn add_user(&mut self, user: User)
        requires
            old(self).wf(),
            user.actor_id < old(self).next_id(),
            forall|i: int|
                0 <= i < old(self).users().len() ==> (#[trigger] old(self).users()[i]).actor_id
                    != user.actor_id,
        ensures
            final(self).wf(),
            final(self).users() == old(self).users().push(user),
            final(self).actors() == old(self).actors(),
            final(self).follows() == old(self).follows(),
            final(self).next_id() == old(self).next_id(),
    {
        self.users.push(user);
    }
}

/// Tests the actors of a list and finds their largest id.
fn check_actors(actors: &Vec<Actor>) -> (r: Option<i64>)
    ensures
        match r {
            Some(top) => actors_distinct(actors@) && top == top_id(actors@),
            None => !actors_distinct(actors@),
        },
{
    let mut top: i64 = 0;
    let mut i: usize = 0;
    proof {
        assert(actors@.take(0) =~= Seq::<Actor>::empty());
    }
    while i < actors.len()
        invariant
            i <= actors.len(),
            top == top_id(actors@.take(i as int)),
            forall|a: int| 0 <= a < i ==> 1 <= (#[trigger] actors@[a]).id,
            forall|a: int, b: int|
                0 <= a < i && 0 <= b < i && a != b ==> (#[trigger] actors@[a]).id != (
                #[trigger] actors@[b]).id,
            forall|a: int, b: int|
                0 <= a < i && 0 <= b < i && a != b ==> (#[trigger] actors@[a]).uri@ != (
                #[trigger] actors@[b]).uri@,
        decreases actors.len() - i,
    {
        let actor = &actors[i];
        if actor.id < 1 {
            return None;
        }
        let mut j: usize = 0;
        while j < i
            invariant
                j <= i < actors.len(),
                *actor == actors@[i as int],
                forall|b: int| 0 <= b < j ==> (#[trigger] actors@[b]).id != actor.id,
                forall|b: int| 0 <= b < j ==> (#[trigger] actors@[b]).uri@ != actor.uri@,
            decreases i - j,
        {
            if actors[j].id == actor.id || actors[j].uri == actor.uri {
                proof {
                    assert(actors@[j as int].id == actors@[i as int].id || actors@[j as int].uri@
                        == actors@[i as int].uri@);
                }
                return None;
            }
            j += 1;
        }
        proof {
            assert(actors@.take(i + 1).drop_last() =~= actors@.take(i as int));
            assert(actors@.take(i + 1).last() == actors@[i as int]);
        }
        if actor.id > top {
            top = actor.id;
        }
        i += 1;
    }
    proof {
        assert(actors@.take(actors.len() as int) =~= actors@);
    }
    Some(top)
}

/// Tests the edges of a list.
fn check_follows(follows: &Vec<Follow>) -> (r: bool)
    ensures
        r == follows_wf(follows@),
{
    let mut i: usize = 0;
    while i < follows.len()
        invariant
            i <= follows.len(),
            forall|a: int, b: int|
                0 <= a < i && 0 <= b < i && a != b ==> !is_edge(
                    #[trigger] follows@[a],
                    (#[trigger] follows@[b]).follower_id,
                    follows@[b].following_id,
                ),
            forall|a: int, b: int|
                0 <= a < b < i ==> (#[trigger] follows@[a]).created_at >= (
                #[trigger] follows@[b]).created_at,
        decreases follows.len() - i,
    {
        let follow = &follows[i];
        if i > 0 && follows[i - 1].created_at < follow.created_at {
            proof {
                assert(follows@[i - 1].created_at < follows@[i as int].created_at);
            }
            return false;
        }
        let mut j: usize = 0;
        while j < i
            invariant
                j <= i < follows.len(),
                *follow == follows@[i as int],
                forall|b: int|
                    0 <= b < j ==> !is_edge(
                        #[trigger] follows@[b],
                        follow.follower_id,
                        follow.following_id,
                    ),
            decreases i - j,
        {
            if follows[j].follower_id == follow.follower_id && follows[j].following_id
                == follow.following_id {
                proof {
                    assert(is_edge(
                        follows@[j as int],
                        follows@[i as int].follower_id,
                        follows@[i as int].following_id,
                    ));
                }
                return false;
            }
            j += 1;
        }
        proof {
            assert forall|a: int, b: int| 0 <= a < b < i + 1 implies (
            #[trigger] follows@[a]).created_at >= (#[trigger] follows@[b]).created_at by {
                if b == i && a < i - 1 {
                    assert(follows@[a].created_at >= follows@[i - 1].created_at);
                }
            }
        }
        i += 1;
    }
    true
}

/// Tests the accounts of a list for a store that gives out `next_id` next.
fn check_users(users: &Vec<User>, next_id: i64) -> (r: bool)
    ensures
        r == users_wf(users@, next_id),
{
    let mut i: usize = 0;
    while i < users.len()
        invariant
            i <= users.len(),
            forall|a: int| 0 <= a < i ==> (#[trigger] users@[a]).actor_id < next_id,
            forall|a: int, b: int|
                0 <= a < i && 0 <= b < i && a != b ==> (#[trigger] users@[a]).actor_id != (
                #[trigger] users@[b]).actor_id,
        decreases users.len() - i,
    {
        let user = &users[i];
        if user.actor_id >= next_id {
            return false;
        }
        let mut j: usize = 0;
        while j < i
            invariant
                j <= i < users.len(),
                *user == users@[i as int],
                forall|b: int| 0 <= b < j ==> (#[trigger] users@[b]).actor_id != user.actor_id,
            decreases i - j,
        {
            if users[j].actor_id == user.actor_id {
                proof {
                    assert(users@[j as int].actor_id == users@[i as int].actor_id);
                }
                return false;
            }
            j += 1;
        }
        i += 1;
    }
    true
}

} // verus!

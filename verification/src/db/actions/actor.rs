//! Reading and adding actors.

use vstd::prelude::*;
use vstd::string::*;
use crate::db::models::actor::{Actor, ActorView, NewActor, NewActorView};
use crate::db::validation::{
    no_control_character, url_parses, validate_non_control_character, validate_url,
};
use crate::db::{find_id, find_named, find_uri, Database};
use crate::errors::{ActionError, ActionResult};
use crate::strings::str_eq;

verus! {

/// The place of the first actor with the URI `uri`.
pub fn actor_index_by_uri(db: &Database, uri: &str) -> (r: Option<usize>)
    ensures
        match r {
            Some(i) => i < db.actors().len() && db.actors()[i as int].uri@ == uri@ && find_uri(
                db.actors(),
                uri@,
            ) == Some(db.actors()[i as int]),
            None => find_uri(db.actors(), uri@) is None && forall|i: int|
                0 <= i < db.actors().len() ==> (#[trigger] db.actors()[i]).uri@ != uri@,
        },
{
    let n = db.actors_len();
    let ghost all = db.actors();
    let mut i: usize = 0;
    proof {
        assert(all.skip(0) =~= all);
    }
    while i < n
        invariant
            i <= n,
            n == all.len(),
            all == db.actors(),
            find_uri(all, uri@) == find_uri(all.skip(i as int), uri@),
            forall|j: int| 0 <= j < i ==> (#[trigger] all[j]).uri@ != uri@,
        decreases n - i,
    {
        let actor = db.actor(i);
        if str_eq(actor.uri.as_str(), uri) {
            proof {
                assert(all.skip(i as int)[0] == all[i as int]);
            }
            return Some(i);
        }
        proof {
            assert(all.skip(i as int)[0] == all[i as int]);
            assert(all.skip(i as int).drop_first() =~= all.skip(i + 1));
        }
        i += 1;
    }
    proof {
        assert(all.skip(n as int) =~= Seq::<Actor>::empty());
    }
    None
}

/// The place of the first actor with the id `id`.
pub fn actor_index_by_id(db: &Database, id: i64) -> (r: Option<usize>)
    ensures
        match r {
            Some(i) => i < db.actors().len() && db.actors()[i as int].id == id && find_id(
                db.actors(),
                id,
            ) == Some(db.actors()[i as int]),
            None => find_id(db.actors(), id) is None,
        },
{
    let n = db.actors_len();
    let ghost all = db.actors();
    let mut i: usize = 0;
    proof {
        assert(all.skip(0) =~= all);
    }
    while i < n
        invariant
            i <= n,
            n == all.len(),
            all == db.actors(),
            find_id(all, id) == find_id(all.skip(i as int), id),
        decreases n - i,
    {
        let actor = db.actor(i);
        if actor.id == id {
            proof {
                assert(all.skip(i as int)[0] == all[i as int]);
            }
            return Some(i);
        }
        proof {
            assert(all.skip(i as int)[0] == all[i as int]);
            assert(all.skip(i as int).drop_first() =~= all.skip(i + 1));
        }
        i += 1;
    }
    proof {
        assert(all.skip(n as int) =~= Seq::<Actor>::empty());
    }
    None
}

/// The first actor with the given name at the given domain; `NotFound`
/// where there is none.
pub fn get_actor_by_username_domain(db: &Database, username_in: &str, domain_in: &str) -> (r:
    ActionResult<Actor>)
    ensures
        match find_named(db.actors(), username_in@, domain_in@) {
            Some(found) => r matches Ok(actor) && actor@ == found@,
            None => r == Err::<Actor, ActionError>(ActionError::NotFound),
        },
{
    let n = db.actors_len();
    let ghost all = db.actors();
    let mut i: usize = 0;
    proof {
        assert(all.skip(0) =~= all);
    }
    while i < n
        invariant
            i <= n,
            n == all.len(),
            all == db.actors(),
            find_named(all, username_in@, domain_in@) == find_named(
                all.skip(i as int),
                username_in@,
                domain_in@,
            ),
        decreases n - i,
    {
        let actor = db.actor(i);
        proof {
            assert(all.skip(i as int)[0] == all[i as int]);
            assert(all.skip(i as int).drop_first() =~= all.skip(i + 1));
        }
        if str_eq(actor.username.as_str(), username_in) && str_eq(
            actor.domain.as_str(),
            domain_in,
        ) {
            return Ok(actor.duplicate());
        }
        i += 1;
    }
    proof {
        assert(all.skip(n as int) =~= Seq::<Actor>::empty());
    }
    Err(ActionError::NotFound)
}

/// The actor with the given URI; `NotFound` where there is none.
pub fn get_actor_by_uri(db: &Database, uri_in: &str) -> (r: ActionResult<Actor>)
    ensures
        match find_uri(db.actors(), uri_in@) {
            Some(found) => r matches Ok(actor) && actor@ == found@,
            None => r == Err::<Actor, ActionError>(ActionError::NotFound),
        },
{
    match actor_index_by_uri(db, uri_in) {
        Some(i) => Ok(db.actor(i).duplicate()),
        None => Err(ActionError::NotFound),
    }
}

/// An optional text is an absolute URL where it is there.
pub open spec fn optional_url(text: Option<Seq<char>>) -> bool {
    text matches Some(t) ==> url_parses(t)
}

/// An optional text holds no control character where it is there.
pub open spec fn optional_no_control(text: Option<Seq<char>>) -> bool {
    text matches Some(t) ==> no_control_character(t)
}

/// A new actor may be stored: its addresses are absolute URLs, and its
/// names and summary hold no control character.
pub open spec fn valid_new_actor(actor: NewActorView) -> bool {
    &&& url_parses(actor.uri)
    &&& optional_url(actor.url)
    &&& no_control_character(actor.username)
    &&& optional_no_control(actor.name)
    &&& optional_no_control(actor.summary)
    &&& optional_url(actor.avatar_url)
    &&& url_parses(actor.inbox_uri)
    &&& url_parses(actor.outbox_uri)
    &&& optional_url(actor.followers_uri)
    &&& optional_url(actor.following_uri)
}

/// The text, or no text where there is none.
pub open spec fn text_or_empty(text: Option<Seq<char>>) -> Seq<char> {
    match text {
        Some(t) => t,
        None => Seq::<char>::empty(),
    }
}

/// The actor as it is stored under the id `id` at the time `now`: what was
/// left open is empty, and the time of the store stands where none was given.
pub open spec fn stored_actor(actor: NewActorView, id: i64, now: i64) -> ActorView {
    ActorView {
        id,
        uri: actor.uri,
        url: actor.url,
        kind: actor.kind,
        username: actor.username,
        domain: actor.domain,
        name: text_or_empty(actor.name),
        summary: text_or_empty(actor.summary),
        avatar_url: text_or_empty(actor.avatar_url),
        inbox_uri: actor.inbox_uri,
        outbox_uri: actor.outbox_uri,
        followers_uri: actor.followers_uri,
        following_uri: actor.following_uri,
        public_key_pem: actor.public_key_pem,
        created_at: match actor.created_at {
            Some(t) => t,
            None => now,
        },
        updated_at: actor.updated_at,
        lang: actor.lang,
        is_locked: actor.is_locked,
        is_suspended: actor.is_suspended,
        is_silenced: actor.is_silenced,
    }
}

/// The store can take an actor with the URI `uri`: the URI is free and an
/// id is left.
pub open spec fn has_room(db: Database, uri: Seq<char>) -> bool {
    find_uri(db.actors(), uri) is None && db.next_id() < i64::MAX
}

/// What `store_new_actor` does: `InsertError` where the store has no room
/// for the actor, and the store is as before; else the actor is added at the
/// end under the next id.
pub open spec fn stored(
    before: Database,
    after: Database,
    new_actor: NewActorView,
    now: i64,
    r: ActionResult<Actor>,
) -> bool {
    if !has_room(before, new_actor.uri) {
        r == Err::<Actor, ActionError>(ActionError::InsertError) && after == before
    } else {
        &&& r matches Ok(actor) && actor@ == stored_actor(new_actor, before.next_id(), now)
            && after.actors().len() == before.actors().len() + 1 && after.actors().last()@
            == actor@ && after.actors().drop_last() == before.actors()
        &&& after.next_id() == before.next_id() + 1
        &&& after.follows() == before.follows()
        &&& after.users() == before.users()
    }
}

/// What `insert_new_actor` does: `InvalidForm` for an actor that may not be
/// stored, `InsertError` where the store has no room for it, and in both
/// cases the store is as before; else the actor is added at the end under
/// the next id.
pub open spec fn inserted(
    before: Database,
    after: Database,
    new_actor: NewActorView,
    now: i64,
    r: ActionResult<Actor>,
) -> bool {
    if !valid_new_actor(new_actor) {
        r == Err::<Actor, ActionError>(ActionError::InvalidForm) && after == before
    } else {
        stored(before, after, new_actor, now, r)
    }
}

fn validate_optional_url(text: &Option<String>) -> (r: bool)
    ensures
        r == optional_url(crate::strings::text_view(*text)),
{
    match text {
        Some(t) => validate_url(t.as_str()),
        None => true,
    }
}

fn validate_optional_no_control(text: &Option<String>) -> (r: bool)
    ensures
        r == optional_no_control(crate::strings::text_view(*text)),
{
    match text {
        Some(t) => validate_non_control_character(t.as_str()),
        None => true,
    }
}

/// Tests whether a new actor may be stored.
pub fn validate(actor: &NewActor) -> (r: bool)
    ensures
        r == valid_new_actor(actor@),
{
    let uri = validate_url(actor.uri.as_str());
    let url = validate_optional_url(&actor.url);
    let username = validate_non_control_character(actor.username.as_str());
    let name = validate_optional_no_control(&actor.name);
    let summary = validate_optional_no_control(&actor.summary);
    let avatar_url = validate_optional_url(&actor.avatar_url);
    let inbox_uri = validate_url(actor.inbox_uri.as_str());
    let outbox_uri = validate_url(actor.outbox_uri.as_str());
    let followers_uri = validate_optional_url(&actor.followers_uri);
    let following_uri = validate_optional_url(&actor.following_uri);
    uri && url && username && name && summary && avatar_url && inbox_uri && outbox_uri
        && followers_uri && following_uri
}

fn text_or_default(text: Option<String>) -> (r: String)
    ensures
        r@ == text_or_empty(crate::strings::text_view(text)),
{
    match text {
        Some(t) => t,
        None => String::new(),
    }
}

/// Adds an actor to the store as it is, at the time `now`.
pub fn store_new_actor(db: &mut Database, new_actor: NewActor, now: i64) -> (r: ActionResult<
    Actor,
>)
    requires
        old(db).wf(),
    ensures
        final(db).wf(),
        stored(*old(db), *final(db), new_actor@, now, r),
{
    if actor_index_by_uri(db, new_actor.uri.as_str()).is_some() {
        return Err(ActionError::InsertError);
    }
    let id = db.next_actor_id();
    if id == i64::MAX {
        return Err(ActionError::InsertError);
    }
    let ghost view = new_actor@;
    let actor = Actor {
        id,
        uri: new_actor.uri,
        url: new_actor.url,
        kind: new_actor.kind,
        username: new_actor.username,
        domain: new_actor.domain,
        name: text_or_default(new_actor.name),
        summary: text_or_default(new_actor.summary),
        avatar_url: text_or_default(new_actor.avatar_url),
        inbox_uri: new_actor.inbox_uri,
        outbox_uri: new_actor.outbox_uri,
        followers_uri: new_actor.followers_uri,
        following_uri: new_actor.following_uri,
        public_key_pem: new_actor.public_key_pem,
        created_at: match new_actor.created_at {
            Some(t) => t,
            None => now,
        },
        updated_at: new_actor.updated_at,
        lang: new_actor.lang,
        is_locked: new_actor.is_locked,
        is_suspended: new_actor.is_suspended,
        is_silenced: new_actor.is_silenced,
    };
    let copy = actor.duplicate();
    proof {
        assert(actor@ == stored_actor(view, id, now));
    }
    db.add_actor(actor);
    proof {
        assert(db.actors().drop_last() =~= old(db).actors());
    }
    Ok(copy)
}

/// Adds an actor to the store, at the time `now`, if it may be stored.
pub fn insert_new_actor(db: &mut Database, new_actor: NewActor, now: i64) -> (r: ActionResult<
    Actor,
>)
    requires
        old(db).wf(),
    ensures
        final(db).wf(),
        inserted(*old(db), *final(db), new_actor@, now, r),
{
    if !validate(&new_actor) {
        return Err(ActionError::InvalidForm);
    }
    store_new_actor(db, new_actor, now)
}

} // verus!

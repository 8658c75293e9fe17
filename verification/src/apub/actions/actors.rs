//! Finding an actor: in the store, or else at its own server.

use vstd::prelude::*;
use vstd::string::*;
use crate::apub::models::actor::{
    spec_try_from, spec_try_from_webfinger, Actor as ActorS, ActorView as ActorSView,
};
use crate::apub::webfinger::{
    query_webfinger, webfinger_queried, WebfingerInfo, WebfingerResponse,
};
use crate::db::actions::actor::{actor_index_by_uri, insert_new_actor, inserted};
use crate::db::models::actor::{Actor as ActorM, NewActor, NewActorView};
use crate::db::{find_uri, Database};
use crate::errors::{ActionError, ActionResult};
use crate::strings::str_eq;

verus! {

/// The actor to be stored for a fetched document and what WebFinger told of
/// it: the domain of the account where WebFinger answered, else the host of
/// the id.
pub open spec fn new_actor_for(actor: ActorSView, finger: ActionResult<WebfingerInfo>) -> Result<
    NewActorView,
    ActionError,
> {
    match finger {
        Ok(info) => spec_try_from_webfinger(actor, info.acct.domain@),
        Err(_) => spec_try_from(actor),
    }
}

/// What `store_fetched_actor` does: `InvalidForm` for a document from which
/// no actor can be made or whose actor may not be stored, `InsertError`
/// where the store has no room for the actor, and in both cases the store is
/// as before; else the actor is added.
pub open spec fn fetched_stored(
    before: Database,
    after: Database,
    actor: ActorSView,
    finger: ActionResult<WebfingerInfo>,
    now: i64,
    r: ActionResult<ActorM>,
) -> bool {
    match new_actor_for(actor, finger) {
        Ok(new_actor) => inserted(before, after, new_actor, now, r),
        Err(_) => r == Err::<ActorM, ActionError>(ActionError::InvalidForm) && after == before,
    }
}

/// Stores the actor of a fetched document, given what WebFinger told of it.
pub fn store_fetched_actor(
    db: &mut Database,
    actor: &ActorS,
    finger: ActionResult<WebfingerInfo>,
    now: i64,
) -> (r: ActionResult<ActorM>)
    requires
        old(db).wf(),
    ensures
        final(db).wf(),
        fetched_stored(*old(db), *final(db), actor@, finger, now, r),
        final(db).follows() == old(db).follows(),
        actor@.public_key.owner != Some(actor@.id) ==> r == Err::<ActorM, ActionError>(
            ActionError::InvalidForm,
        ),
{
    let made = match &finger {
        Ok(info) => NewActor::try_from_webfinger(actor, info),
        Err(_) => NewActor::try_from(actor),
    };
    let new_actor = match made {
        Ok(new_actor) => new_actor,
        Err(_) => {
            return Err(ActionError::InvalidForm);
        },
    };
    insert_new_actor(db, new_actor, now)
}

/// What `fetch_actor_by_uri` does: the server of the actor is asked once for
/// its document; `FetchError` where none came back, and `InvalidForm` where
/// the document carries another id than the URI that was asked for; else
/// WebFinger is asked about the URI, and the actor is stored.
pub open spec fn fetched<
    FA: Fn(&str) -> Option<ActorS>,
    FW: Fn(&str) -> Option<WebfingerResponse>,
>(
    before: Database,
    after: Database,
    uri: Seq<char>,
    now: i64,
    fetch_actor: FA,
    fetch_webfinger: FW,
    r: ActionResult<ActorM>,
) -> bool {
    exists|address: &str, document: Option<ActorS>|
        address@ == uri && #[trigger] call_ensures(fetch_actor, (address,), document)
            && match document {
            Some(actor) => {
                if actor.id@ != uri {
                    r == Err::<ActorM, ActionError>(ActionError::InvalidForm) && after == before
                } else {
                    exists|finger: ActionResult<WebfingerInfo>|
                        webfinger_queried(fetch_webfinger, uri, finger)
                            && #[trigger] fetched_stored(before, after, actor@, finger, now, r)
                }
            },
            None => r == Err::<ActorM, ActionError>(ActionError::FetchError) && after == before,
        }
}

/// Fetch Actor information from remote server, then insert into the store.
/// `fetch_actor` gets the URI and gives the document of the actor, or
/// `None` where it could not be had; `fetch_webfinger` gets the address of a
/// WebFinger question and gives the answer.
pub fn fetch_actor_by_uri<
    FA: Fn(&str) -> Option<ActorS>,
    FW: Fn(&str) -> Option<WebfingerResponse>,
>(db: &mut Database, uri: &str, now: i64, fetch_actor: &FA, fetch_webfinger: &FW) -> (r:
    ActionResult<ActorM>)
    requires
        old(db).wf(),
        forall|address: &str| call_requires(*fetch_actor, (address,)),
        forall|address: &str| call_requires(*fetch_webfinger, (address,)),
    ensures
        final(db).wf(),
        fetched(*old(db), *final(db), uri@, now, *fetch_actor, *fetch_webfinger, r),
        final(db).follows() == old(db).follows(),
        r matches Ok(stored) ==> stored.uri@ == uri@,
{
    let document = fetch_actor(uri);
    proof {
        assert(call_ensures(*fetch_actor, (uri,), document));
    }
    let actor = match document {
        Some(actor) => actor,
        None => {
            return Err(ActionError::FetchError);
        },
    };
    if !str_eq(actor.id.as_str(), uri) {
        return Err(ActionError::InvalidForm);
    }
    let finger = query_webfinger(String::from_str(uri), fetch_webfinger);
    let ghost told = finger;
    let r = store_fetched_actor(db, &actor, finger, now);
    proof {
        assert(fetched_stored(*old(db), *db, actor@, told, now, r));
    }
    r
}

/// What `get_or_fetch_actor_by_uri` does: the actor of the store where it
/// holds one with the URI, and the store is as before; else what fetching
/// gives. The actor that comes back carries the URI that was asked for.
pub open spec fn resolved<
    FA: Fn(&str) -> Option<ActorS>,
    FW: Fn(&str) -> Option<WebfingerResponse>,
>(
    before: Database,
    after: Database,
    uri: Seq<char>,
    now: i64,
    fetch_actor: FA,
    fetch_webfinger: FW,
    r: ActionResult<ActorM>,
) -> bool {
    &&& r matches Ok(actor) ==> actor.uri@ == uri
    &&& match find_uri(before.actors(), uri) {
        Some(found) => r matches Ok(actor) && actor@ == found@ && after == before,
        None => fetched(before, after, uri, now, fetch_actor, fetch_webfinger, r),
    }
}

/// Get Actor from the store, or fetch Actor information from remote server.
pub fn get_or_fetch_actor_by_uri<
    FA: Fn(&str) -> Option<ActorS>,
    FW: Fn(&str) -> Option<WebfingerResponse>,
>(db: &mut Database, uri: &str, now: i64, fetch_actor: &FA, fetch_webfinger: &FW) -> (r:
    ActionResult<ActorM>)
    requires
        old(db).wf(),
        forall|address: &str| call_requires(*fetch_actor, (address,)),
        forall|address: &str| call_requires(*fetch_webfinger, (address,)),
    ensures
        final(db).wf(),
        resolved(*old(db), *final(db), uri@, now, *fetch_actor, *fetch_webfinger, r),
        final(db).follows() == old(db).follows(),
{
    match actor_index_by_uri(db, uri) {
        Some(i) => Ok(db.actor(i).duplicate()),
        None => fetch_actor_by_uri(db, uri, now, fetch_actor, fetch_webfinger),
    }
}

} // verus!

//! The inbox: what is done with an activity that an actor sent.

use vstd::prelude::*;
use vstd::string::*;
use http::header::HeaderValue;
use http::HeaderMap;
use crate::apub::actions::actors::{get_or_fetch_actor_by_uri, resolved};
use crate::apub::models::activities::{Activity, ActivityObject};
use crate::apub::models::actor::Actor as ActorS;
use crate::apub::webfinger::WebfingerResponse;
use crate::db::actions::follow::{
    follow_actor_by_uri, followed, unfollow_actor_by_uri, unfollowed,
};
use crate::db::models::actor::Actor as ActorM;
use crate::db::models::follow::Follow;
use crate::db::Database;
use crate::errors::{ActionError, ActionResult};
use crate::hancock::canonical::expired;
use crate::hancock::headers::{header_entries, HeaderEntries};
use crate::handlers::apub::auth::{
    authenticate_at, authenticated, request_signature, spec_stamp, stamp,
};
use crate::handlers::Reject;
use crate::strings::{clone_text, str_eq, text_view};

verus! {

/// The URI of what an activity is about, where it has one.
pub open spec fn spec_get_uri(object: ActivityObject) -> Option<Seq<char>> {
    match object {
        ActivityObject::Uri(uri) => Some(uri@),
        ActivityObject::Activity(activity) => Some(activity.id@),
        ActivityObject::Other(id) => text_view(id),
    }
}

pub fn get_uri(object: &ActivityObject) -> (r: Option<String>)
    ensures
        text_view(r) == spec_get_uri(*object),
{
    match object {
        ActivityObject::Uri(uri) => Some(uri.clone()),
        ActivityObject::Activity(activity) => Some(activity.id.clone()),
        ActivityObject::Other(id) => clone_text(id),
    }
}

/// An activity that makes a thing is not taken.
pub fn post_inbox_create(_activity: &Activity) -> (r: Result<(), Reject>)
    ensures
        r == Err::<(), Reject>(Reject::NotFound),
{
    Err(Reject::NotFound)
}

/// What comes of the edge of a follow, once both actors are found: the
/// follow is taken where the edge is made, and turned down where it is not.
pub open spec fn edge_made(
    before: Database,
    after: Database,
    actor_uri: Seq<char>,
    target: Seq<char>,
    now: i64,
    r: Result<(), Reject>,
) -> bool {
    exists|made: ActionResult<Follow>| #[trigger]
        followed(before, after, actor_uri, target, now, made) && r == (if made is Ok {
            Ok::<(), Reject>(())
        } else {
            Err::<(), Reject>(Reject::NotFound)
        })
}

/// What comes of a follow once the actor that follows is found: the actor
/// that is followed is looked for, and then the edge is made.
pub open spec fn target_followed<
    FA: Fn(&str) -> Option<ActorS>,
    FW: Fn(&str) -> Option<WebfingerResponse>,
>(
    before: Database,
    after: Database,
    actor_uri: Seq<char>,
    target: Seq<char>,
    now: i64,
    fetch_actor: FA,
    fetch_webfinger: FW,
    r: Result<(), Reject>,
) -> bool {
    exists|between: Database, following: ActionResult<ActorM>| #[trigger]
        resolved(before, between, target, now, fetch_actor, fetch_webfinger, following)
            && match following {
            Ok(_) => edge_made(between, after, actor_uri, target, now, r),
            Err(_) => r == Err::<(), Reject>(Reject::NotFound) && after == between,
        }
}

/// What `post_inbox_follow` does. The activity must be about a URI. Both
/// the actor and the one it names are looked for, in the store or at their
/// servers, and an edge is made between them. Whatever fails, the follow is
/// turned down.
pub open spec fn follow_taken<
    FA: Fn(&str) -> Option<ActorS>,
    FW: Fn(&str) -> Option<WebfingerResponse>,
>(
    before: Database,
    after: Database,
    actor_uri: Seq<char>,
    object: ActivityObject,
    now: i64,
    fetch_actor: FA,
    fetch_webfinger: FW,
    r: Result<(), Reject>,
) -> bool {
    match object {
        ActivityObject::Uri(target) => exists|between: Database, follower: ActionResult<ActorM>| #[trigger]
            resolved(before, between, actor_uri, now, fetch_actor, fetch_webfinger, follower)
                && match follower {
                Ok(_) => target_followed(
                    between,
                    after,
                    actor_uri,
                    target@,
                    now,
                    fetch_actor,
                    fetch_webfinger,
                    r,
                ),
                Err(_) => r == Err::<(), Reject>(Reject::NotFound) && after == between,
            },
        _ => r == Err::<(), Reject>(Reject::NotFound) && after == before,
    }
}

pub fn post_inbox_follow<
    FA: Fn(&str) -> Option<ActorS>,
    FW: Fn(&str) -> Option<WebfingerResponse>,
>(
    db: &mut Database,
    activity: &Activity,
    now: i64,
    fetch_actor: &FA,
    fetch_webfinger: &FW,
) -> (r: Result<(), Reject>)
    requires
        old(db).wf(),
        forall|address: &str| call_requires(*fetch_actor, (address,)),
        forall|address: &str| call_requires(*fetch_webfinger, (address,)),
    ensures
        final(db).wf(),
        follow_taken(
            *old(db),
            *final(db),
            activity.actor@,
            activity.object,
            now,
            *fetch_actor,
            *fetch_webfinger,
            r,
        ),
{
    let object_id = match &activity.object {
        ActivityObject::Uri(uri) => uri,
        _ => {
            return Err(Reject::NotFound);
        },
    };
    let actor_id = &activity.actor;
    let follower = get_or_fetch_actor_by_uri(
        db,
        actor_id.as_str(),
        now,
        fetch_actor,
        fetch_webfinger,
    );
    let ghost first = *db;
    let ghost follower_found = follower;
    if follower.is_err() {
        return Err(Reject::NotFound);
    }
    let following = get_or_fetch_actor_by_uri(
        db,
        object_id.as_str(),
        now,
        fetch_actor,
        fetch_webfinger,
    );
    let ghost second = *db;
    let ghost following_found = following;
    if following.is_err() {
        proof {
            assert(target_followed(
                first,
                *db,
                actor_id@,
                object_id@,
                now,
                *fetch_actor,
                *fetch_webfinger,
                Err::<(), Reject>(Reject::NotFound),
            ));
        }
        return Err(Reject::NotFound);
    }
    let made = follow_actor_by_uri(db, actor_id.as_str(), object_id.as_str(), now);
    let r = match &made {
        Ok(_) => Ok(()),
        Err(_) => Err(Reject::NotFound),
    };
    proof {
        assert(followed(second, *db, actor_id@, object_id@, now, made));
        assert(edge_made(second, *db, actor_id@, object_id@, now, r));
        assert(resolved(
            first,
            second,
            object_id@,
            now,
            *fetch_actor,
            *fetch_webfinger,
            following_found,
        ));
        assert(target_followed(
            first,
            *db,
            actor_id@,
            object_id@,
            now,
            *fetch_actor,
            *fetch_webfinger,
            r,
        ));
    }
    r
}

/// What undoing a follow does. The activity that is undone must be about a
/// URI; the edge from the actor to the one it names is taken away where
/// there is one, and an error of the store is handed on.
pub open spec fn undo_follow_taken(
    before: Database,
    after: Database,
    actor_uri: Seq<char>,
    object: ActivityObject,
    r: Result<(), Reject>,
) -> bool {
    match object {
        ActivityObject::Activity(inner) => match inner.object {
            ActivityObject::Uri(target) => match r {
                Ok(_) => unfollowed(
                    before,
                    after,
                    actor_uri,
                    target@,
                    Ok::<(), ActionError>(()),
                ),
                Err(Reject::Custom(e)) => unfollowed(
                    before,
                    after,
                    actor_uri,
                    target@,
                    Err::<(), ActionError>(e),
                ),
                Err(_) => false,
            },
            _ => r == Err::<(), Reject>(Reject::NotFound) && after == before,
        },
        _ => r == Err::<(), Reject>(Reject::Custom(ActionError::InvalidForm)) && after == before,
    }
}

pub fn post_inbox_undo_follow(db: &mut Database, activity: &Activity) -> (r: Result<(), Reject>)
    requires
        old(db).wf(),
    ensures
        final(db).wf(),
        undo_follow_taken(*old(db), *final(db), activity.actor@, activity.object, r),
{
    let object_activity = match &activity.object {
        ActivityObject::Activity(inner) => inner,
        _ => {
            return Err(Reject::Custom(ActionError::InvalidForm));
        },
    };
    let object_id = match &object_activity.object {
        ActivityObject::Uri(uri) => uri,
        _ => {
            return Err(Reject::NotFound);
        },
    };
    match unfollow_actor_by_uri(db, activity.actor.as_str(), object_id.as_str()) {
        Ok(_) => Ok(()),
        Err(e) => Err(Reject::Custom(e)),
    }
}

/// What `post_inbox_undo` does. The activity must be about an activity of
/// its own; only a follow can be undone.
pub open spec fn undo_taken(
    before: Database,
    after: Database,
    actor_uri: Seq<char>,
    object: ActivityObject,
    r: Result<(), Reject>,
) -> bool {
    match object {
        ActivityObject::Activity(inner) => {
            if inner.kind@ == "Follow"@ {
                undo_follow_taken(before, after, actor_uri, object, r)
            } else {
                r == Err::<(), Reject>(Reject::NotFound) && after == before
            }
        },
        _ => r == Err::<(), Reject>(Reject::Custom(ActionError::InvalidForm)) && after == before,
    }
}

pub fn post_inbox_undo(db: &mut Database, activity: &Activity) -> (r: Result<(), Reject>)
    requires
        old(db).wf(),
    ensures
        final(db).wf(),
        undo_taken(*old(db), *final(db), activity.actor@, activity.object, r),
{
    let object_activity = match &activity.object {
        ActivityObject::Activity(inner) => inner,
        _ => {
            return Err(Reject::Custom(ActionError::InvalidForm));
        },
    };
    if str_eq(object_activity.kind.as_str(), "Follow") {
        post_inbox_undo_follow(db, activity)
    } else {
        Err(Reject::NotFound)
    }
}

/// What `post_inbox` does with the body of a request from an actor. A body
/// that is no activity is malformed. An activity that names another actor
/// than the one that sent it is not authenticated: this, and not the
/// signature alone, is what lets an activity act. Then the kind decides:
/// `Follow` and `Undo` are carried out, and `Create` and every other kind
/// are turned down.
pub open spec fn inbox_taken<
    FA: Fn(&str) -> Option<ActorS>,
    FW: Fn(&str) -> Option<WebfingerResponse>,
>(
    before: Database,
    after: Database,
    actor_uri: Seq<char>,
    body: Option<Activity>,
    now: i64,
    fetch_actor: FA,
    fetch_webfinger: FW,
    r: Result<(), Reject>,
) -> bool {
    match body {
        Some(activity) => {
            if actor_uri != activity.actor@ {
                r == Err::<(), Reject>(Reject::Custom(ActionError::NotAuthenticated)) && after
                    == before
            } else if activity.kind@ == "Follow"@ {
                follow_taken(
                    before,
                    after,
                    activity.actor@,
                    activity.object,
                    now,
                    fetch_actor,
                    fetch_webfinger,
                    r,
                )
            } else if activity.kind@ == "Undo"@ {
                undo_taken(before, after, activity.actor@, activity.object, r)
            } else {
                r == Err::<(), Reject>(Reject::NotFound) && after == before
            }
        },
        None => r == Err::<(), Reject>(Reject::Custom(ActionError::InvalidForm)) && after == before,
    }
}

/// Takes the body of a request that `actor` sent. `body` is `None` where
/// the request held no activity.
pub fn post_inbox<FA: Fn(&str) -> Option<ActorS>, FW: Fn(&str) -> Option<WebfingerResponse>>(
    db: &mut Database,
    actor: &ActorM,
    body: &Option<Activity>,
    now: i64,
    fetch_actor: &FA,
    fetch_webfinger: &FW,
) -> (r: Result<(), Reject>)
    requires
        old(db).wf(),
        forall|address: &str| call_requires(*fetch_actor, (address,)),
        forall|address: &str| call_requires(*fetch_webfinger, (address,)),
    ensures
        final(db).wf(),
        inbox_taken(
            *old(db),
            *final(db),
            actor.uri@,
            *body,
            now,
            *fetch_actor,
            *fetch_webfinger,
            r,
        ),
{
    let activity = match body {
        Some(activity) => activity,
        None => {
            return Err(Reject::Custom(ActionError::InvalidForm));
        },
    };
    proof {
        reveal_strlit("Create");
        reveal_strlit("Follow");
        reveal_strlit("Undo");
    }
    if str_eq(actor.uri.as_str(), activity.actor.as_str()) {
        let kind = activity.kind.as_str();
        if str_eq(kind, "Create") {
            proof {
                assert("Create"@.len() == 6 && "Undo"@.len() == 4);
                assert("Create"@[0] != "Follow"@[0]);
            }
            post_inbox_create(activity)
        } else if str_eq(kind, "Follow") {
            post_inbox_follow(db, activity, now, fetch_actor, fetch_webfinger)
        } else if str_eq(kind, "Undo") {
            post_inbox_undo(db, activity)
        } else {
            Err(Reject::NotFound)
        }
    } else {
        Err(Reject::Custom(ActionError::NotAuthenticated))
    }
}

/// What `inbox_request` does: the sender of the request is found, and where
/// it is found the body is taken from it.
pub open spec fn inbox_answered<
    FA: Fn(&str) -> Option<ActorS>,
    FW: Fn(&str) -> Option<WebfingerResponse>,
>(
    before: Database,
    after: Database,
    now: u64,
    method: Seq<char>,
    path: Seq<char>,
    entries: HeaderEntries,
    body: Option<Activity>,
    fetch_actor: FA,
    fetch_webfinger: FW,
    r: Result<(), Reject>,
) -> bool {
    exists|between: Database, sender: Result<ActorM, Reject>| #[trigger]
        authenticated(
            before,
            between,
            now,
            method,
            path,
            entries,
            fetch_actor,
            fetch_webfinger,
            sender,
        ) && match sender {
            Ok(actor) => inbox_taken(
                between,
                after,
                actor.uri@,
                body,
                spec_stamp(now),
                fetch_actor,
                fetch_webfinger,
                r,
            ),
            Err(e) => r == Err::<(), Reject>(e) && after == between,
        }
}

/// Answers a request to the inbox at the time `now`, given in seconds since
/// the start of 1970: the request must be signed by an actor, and its body
/// is then taken from that actor. A request whose signature has run out is
/// turned down before anything is done with its body, so that the follow
/// graph stays as it is.
pub fn inbox_request<FA: Fn(&str) -> Option<ActorS>, FW: Fn(&str) -> Option<WebfingerResponse>>(
    db: &mut Database,
    now: u64,
    method: &str,
    full_path: &str,
    headers: &HeaderMap<HeaderValue>,
    body: &Option<Activity>,
    fetch_actor: &FA,
    fetch_webfinger: &FW,
) -> (r: Result<(), Reject>)
    requires
        old(db).wf(),
        forall|address: &str| call_requires(*fetch_actor, (address,)),
        forall|address: &str| call_requires(*fetch_webfinger, (address,)),
    ensures
        final(db).wf(),
        inbox_answered(
            *old(db),
            *final(db),
            now,
            method@,
            full_path@,
            header_entries(*headers),
            *body,
            *fetch_actor,
            *fetch_webfinger,
            r,
        ),
        (request_signature(header_entries(*headers)) matches Some(sig) && expired(sig, now))
            ==> r is Err && final(db).follows() == old(db).follows(),
{
    let sender = authenticate_at(
        db,
        now,
        method,
        full_path,
        headers,
        fetch_actor,
        fetch_webfinger,
    );
    let ghost between = *db;
    let ghost found = sender;
    let actor = match sender {
        Ok(actor) => actor,
        Err(e) => {
            proof {
                assert(inbox_answered(
                    *old(db),
                    *db,
                    now,
                    method@,
                    full_path@,
                    header_entries(*headers),
                    *body,
                    *fetch_actor,
                    *fetch_webfinger,
                    Err::<(), Reject>(e),
                ));
            }
            return Err(e);
        },
    };
    let r = post_inbox(db, &actor, body, stamp(now), fetch_actor, fetch_webfinger);
    proof {
        assert(authenticated(
            *old(db),
            between,
            now,
            method@,
            full_path@,
            header_entries(*headers),
            *fetch_actor,
            *fetch_webfinger,
            found,
        ));
        assert(inbox_answered(
            *old(db),
            *db,
            now,
            method@,
            full_path@,
            header_entries(*headers),
            *body,
            *fetch_actor,
            *fetch_webfinger,
            r,
        ));
    }
    r
}

} // verus!

//! What holds of finding the sender of a request and taking its body together.

use vstd::prelude::*;
use crate::apub::actions::actors::{fetched, fetched_stored, new_actor_for, resolved};
use crate::apub::models::activities::Activity;
use crate::apub::models::actor::{Actor as ActorS, ActorView as ActorSView};
use crate::apub::webfinger::{WebfingerInfo, WebfingerResponse};
use crate::db::models::actor::Actor as ActorM;
use crate::db::Database;
use crate::errors::{ActionError, ActionResult};
use crate::hancock::canonical::expired;
use crate::hancock::headers::HeaderEntries;
use crate::handlers::apub::auth::{authenticated, request_signature, request_signer};
use crate::handlers::apub::inbox::inbox_answered;
use crate::handlers::Reject;

verus! {

/// A fetched document whose key names another owner than the actor itself
/// is turned down as malformed, and nothing is stored.
pub proof fn lemma_foreign_key_is_malformed(
    before: Database,
    after: Database,
    actor: ActorSView,
    finger: ActionResult<WebfingerInfo>,
    now: i64,
    r: ActionResult<ActorM>,
)
    requires
        actor.public_key.owner != Some(actor.id),
        fetched_stored(before, after, actor, finger, now, r),
    ensures
        r == Err::<ActorM, ActionError>(ActionError::InvalidForm),
        after == before,
{
    assert(new_actor_for(actor, finger) is Err);
}

/// Looking for an actor, in the store or at its server, leaves the follow
/// graph as it is.
pub proof fn lemma_resolving_keeps_edges<
    FA: Fn(&str) -> Option<ActorS>,
    FW: Fn(&str) -> Option<WebfingerResponse>,
>(
    before: Database,
    after: Database,
    uri: Seq<char>,
    now: i64,
    fetch_actor: FA,
    fetch_webfinger: FW,
    r: ActionResult<ActorM>,
)
    requires
        resolved(before, after, uri, now, fetch_actor, fetch_webfinger, r),
    ensures
        after.follows() == before.follows(),
{
    if crate::db::find_uri(before.actors(), uri) is None {
        assert(fetched(before, after, uri, now, fetch_actor, fetch_webfinger, r));
    }
}

/// A list of actors that ends with the only actor of a URI has that actor
/// under the URI.
proof fn lemma_find_uri_last(actors: Seq<ActorM>, uri: Seq<char>)
    requires
        actors.len() >= 1,
        crate::db::find_uri(actors.drop_last(), uri) is None,
        actors.last().uri@ == uri,
    ensures
        crate::db::find_uri(actors, uri) == Some(actors.last()),
    decreases actors.len(),
{
    if actors.len() > 1 {
        let head = actors.drop_last();
        let rest = actors.drop_first();
        assert(head[0] == actors[0]);
        assert(head.drop_first() =~= rest.drop_last());
        assert(rest.last() == actors.last());
        lemma_find_uri_last(rest, uri);
    }
}

/// Looking for an actor is idempotent per URI: once an actor was found for a
/// URI, in the store or at its server, looking for it again gives the same
/// actor without a fetch, and the store stays as it is.
pub proof fn lemma_resolving_twice<
    FA: Fn(&str) -> Option<ActorS>,
    FW: Fn(&str) -> Option<WebfingerResponse>,
>(
    before: Database,
    between: Database,
    after: Database,
    uri: Seq<char>,
    now: i64,
    later: i64,
    fetch_actor: FA,
    fetch_webfinger: FW,
    first: ActorM,
    second: ActionResult<ActorM>,
)
    requires
        before.wf(),
        resolved(
            before,
            between,
            uri,
            now,
            fetch_actor,
            fetch_webfinger,
            Ok::<ActorM, ActionError>(first),
        ),
        resolved(between, after, uri, later, fetch_actor, fetch_webfinger, second),
    ensures
        second matches Ok(again) && again@ == first@,
        after == between,
{
    if crate::db::find_uri(before.actors(), uri) is None {
        let r = Ok::<ActorM, ActionError>(first);
        assert(fetched(before, between, uri, now, fetch_actor, fetch_webfinger, r));
        let (address, document) = choose|address: &str, document: Option<ActorS>|
            address@ == uri && #[trigger] call_ensures(fetch_actor, (address,), document)
                && match document {
                Some(actor) => {
                    if actor.id@ != uri {
                        r == Err::<ActorM, ActionError>(ActionError::InvalidForm) && between
                            == before
                    } else {
                        exists|finger: ActionResult<WebfingerInfo>|
                            crate::apub::webfinger::webfinger_queried(fetch_webfinger, uri, finger)
                                && #[trigger] fetched_stored(
                                before,
                                between,
                                actor@,
                                finger,
                                now,
                                r,
                            )
                    }
                },
                None => r == Err::<ActorM, ActionError>(ActionError::FetchError) && between
                    == before,
            };
        let actor = document->0;
        let finger = choose|finger: ActionResult<WebfingerInfo>|
            crate::apub::webfinger::webfinger_queried(fetch_webfinger, uri, finger)
                && #[trigger] fetched_stored(before, between, actor@, finger, now, r);
        assert(fetched_stored(before, between, actor@, finger, now, r));
        assert(between.actors().last()@ == first@);
        lemma_find_uri_last(between.actors(), uri);
    }
}

/// A request whose signature has run out is turned down whoever sent it,
/// and finding that out leaves the follow graph as it is.
pub proof fn lemma_expired_is_not_authenticated<
    FA: Fn(&str) -> Option<ActorS>,
    FW: Fn(&str) -> Option<WebfingerResponse>,
>(
    before: Database,
    after: Database,
    now: u64,
    method: Seq<char>,
    path: Seq<char>,
    entries: HeaderEntries,
    fetch_actor: FA,
    fetch_webfinger: FW,
    r: Result<ActorM, Reject>,
)
    requires
        authenticated(before, after, now, method, path, entries, fetch_actor, fetch_webfinger, r),
        request_signature(entries) matches Some(sig) && expired(sig, now),
    ensures
        r is Err,
        after.follows() == before.follows(),
{
    match request_signer(entries) {
        Some(signer) => {
            let found = choose|found: ActionResult<ActorM>| #[trigger]
                resolved(
                    before,
                    after,
                    signer.1,
                    crate::handlers::apub::auth::spec_stamp(now),
                    fetch_actor,
                    fetch_webfinger,
                    found,
                ) && match found {
                    Ok(actor) => {
                        if crate::handlers::apub::auth::signature_holds(
                            signer.0,
                            actor.public_key_pem@,
                            now,
                            method,
                            path,
                            entries,
                        ) {
                            r matches Ok(sender) && sender@ == actor@ && sender.uri@ == signer.1
                        } else {
                            r == Err::<ActorM, Reject>(Reject::NotFound)
                        }
                    },
                    Err(_) => r == Err::<ActorM, Reject>(Reject::NotFound),
                };
            lemma_resolving_keeps_edges(
                before,
                after,
                signer.1,
                crate::handlers::apub::auth::spec_stamp(now),
                fetch_actor,
                fetch_webfinger,
                found,
            );
        },
        None => {},
    }
}

/// A request to the inbox whose signature has run out is turned down before
/// anything is done with its body: no edge of the follow graph is made or
/// taken away.
pub proof fn lemma_expired_request_changes_no_edge<
    FA: Fn(&str) -> Option<ActorS>,
    FW: Fn(&str) -> Option<WebfingerResponse>,
>(
    before: Database,
    after: Database,
    now: u64,
    method: Seq<char>,
    path: Seq<char>,
    entries: HeaderEntries,
    body: Option<Activity>,
    fetch_actor: FA,
    fetch_webfinger: FW,
    r: Result<(), Reject>,
)
    requires
        inbox_answered(
            before,
            after,
            now,
            method,
            path,
            entries,
            body,
            fetch_actor,
            fetch_webfinger,
            r,
        ),
        request_signature(entries) matches Some(sig) && expired(sig, now),
    ensures
        r is Err,
        after.follows() == before.follows(),
{
    let (between, sender) = choose|between: Database, sender: Result<ActorM, Reject>| #[trigger]
        authenticated(
            before,
            between,
            now,
            method,
            path,
            entries,
            fetch_actor,
            fetch_webfinger,
            sender,
        ) && match sender {
            Ok(actor) => crate::handlers::apub::inbox::inbox_taken(
                between,
                after,
                actor.uri@,
                body,
                crate::handlers::apub::auth::spec_stamp(now),
                fetch_actor,
                fetch_webfinger,
                r,
            ),
            Err(e) => r == Err::<(), Reject>(e) && after == between,
        };
    lemma_expired_is_not_authenticated(
        before,
        between,
        now,
        method,
        path,
        entries,
        fetch_actor,
        fetch_webfinger,
        sender,
    );
}

} // verus!

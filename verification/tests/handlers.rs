use commune::apub::actions::actors::{
    fetch_actor_by_uri, get_or_fetch_actor_by_uri, store_fetched_actor,
};
use commune::apub::models::activities::{Activity, ActivityObject};
use commune::apub::models::actor::Actor as ActorS;
use commune::apub::models::PagedCollection;
use commune::apub::webfinger::{Link, WebfingerInfo, WebfingerResponse, WebfingerAcct, WebfingerAP};
use commune::db::actions::actor::{get_actor_by_uri, insert_new_actor};
use commune::db::actions::follow::{actor_count_followers, follow_actor_by_uri};
use commune::db::models::actor::{Actor, ActorType, NewLocalActorBuilder};
use commune::db::Database;
use commune::errors::ActionError;
use commune::hancock::Signature;
use commune::handlers::apub::actors::{
    get_user, get_user_followers, get_user_outbox, FollowersReply, UserReply,
};
use commune::handlers::apub::auth::{
    authenticate_at, authenticate_http_signatures, do_verify, must_authenticate, stamp,
};
use commune::handlers::apub::inbox::{
    inbox_request, post_inbox, post_inbox_create, post_inbox_follow, post_inbox_undo,
    post_inbox_undo_follow,
};
use commune::handlers::apub::{set_domain, ACTIVITY_CONTENT_TYPE};
use commune::handlers::webfinger::{
    get_webfinger, WebfingerReply, WebfingerResource, WEBFINGER_CONTENT_TYPE,
};
use commune::handlers::Reject;
use commune::state::AppState;
use http::header::{HeaderMap, HeaderValue};
use openssl::hash::MessageDigest;
use openssl::pkey::{PKey, Private};
use openssl::rsa::Rsa;
use openssl::sign::Signer;

struct Keys {
    private: PKey<Private>,
    public_pem: String,
}

fn keys() -> Keys {
    let rsa = Rsa::generate(2048).unwrap();
    let public_pem = String::from_utf8(rsa.public_key_to_pem().unwrap()).unwrap();
    Keys { private: PKey::from_rsa(rsa).unwrap(), public_pem }
}

fn sign_with(keys: &Keys, body: &[u8]) -> Vec<u8> {
    let mut signer = Signer::new(MessageDigest::sha256(), &keys.private).unwrap();
    signer.update(body).unwrap();
    signer.sign_to_vec().unwrap()
}

fn local(db: &mut Database, username: &str, pem: &str, locked: bool) -> Actor {
    let mut new_actor = NewLocalActorBuilder {
        username,
        domain: "example.com",
        lang: "und",
        actor_type: ActorType::Person,
        public_key_pem: pem,
    }
    .build_at(1);
    new_actor.is_locked = locked;
    insert_new_actor(db, new_actor, 1).unwrap()
}

fn uri(username: &str) -> String {
    format!("https://example.com/users/{}", username)
}

/// The headers of a request to the inbox, signed by `key_id` at `created`.
fn signed_request(keys: &Keys, key_id: &str, created: u64, lifetime: u64) -> HeaderMap {
    let mut headers = HeaderMap::new();
    headers.insert("host", HeaderValue::from_static("example.com"));
    headers.insert("date", HeaderValue::from_static("Tue, 07 Jun 2014 20:51:35 GMT"));
    let sig = Signature::create_at(
        created,
        key_id,
        "POST",
        "/inbox",
        lifetime,
        &headers,
        |body: Vec<u8>| -> Result<Vec<u8>, ()> { Ok(sign_with(keys, &body)) },
    )
    .unwrap();
    headers.insert("signature", HeaderValue::from_str(&sig.to_header()).unwrap());
    headers
}

fn no_actor(_: &str) -> Option<ActorS> {
    None
}

fn no_finger(_: &str) -> Option<WebfingerResponse> {
    None
}

fn activity(kind: &str, actor: &str, object: ActivityObject) -> Activity {
    Activity {
        kind: kind.to_string(),
        id: format!("{}#activity", actor),
        actor: actor.to_string(),
        object,
        published: String::from("2021-01-01T00:00:00Z"),
    }
}

fn follow_of(actor: &str, target: &str) -> Activity {
    activity("Follow", actor, ActivityObject::Uri(target.to_string()))
}

fn undo_of(actor: &str, target: &str) -> Activity {
    activity("Undo", actor, ActivityObject::Activity(Box::new(follow_of(actor, target))))
}

#[test]
fn a_signature_is_checked_with_the_key() {
    let k = keys();
    let other = keys();
    let body = b"some body";
    let sig = sign_with(&k, body);
    assert_eq!(do_verify(k.public_pem.as_bytes(), body, &sig).unwrap(), true);
    assert_eq!(do_verify(k.public_pem.as_bytes(), b"other body", &sig).unwrap(), false);
    assert_eq!(do_verify(other.public_pem.as_bytes(), body, &sig).unwrap(), false);
    assert_eq!(do_verify(k.public_pem.as_bytes(), body, b"junk").unwrap_or(false), false);
    assert!(do_verify(b"no key", body, &sig).is_err());
}

#[test]
fn the_sender_of_a_signed_request_is_found() {
    let k = keys();
    let mut db = Database::new();
    let alice = local(&mut db, "alice", &k.public_pem, false);
    let headers = signed_request(&k, &format!("{}#main-key", uri("alice")), 1000, 300);
    let found = authenticate_at(&mut db, 1100, "POST", "/inbox", &headers, &no_actor, &no_finger);
    assert_eq!(found.unwrap(), alice);
    // in any case of the method, as the signing string holds it in lower case
    let found = authenticate_at(&mut db, 1100, "post", "/inbox", &headers, &no_actor, &no_finger);
    assert_eq!(found.unwrap(), alice);
    // not for another target, nor once the signature has run out
    let r = authenticate_at(&mut db, 1100, "POST", "/other", &headers, &no_actor, &no_finger);
    assert_eq!(r.unwrap_err(), Reject::NotFound);
    let r = authenticate_at(&mut db, 1301, "POST", "/inbox", &headers, &no_actor, &no_finger);
    assert_eq!(r.unwrap_err(), Reject::NotFound);
    // nor with a header that changed
    let mut altered = headers.clone();
    altered.insert("date", HeaderValue::from_static("Wed, 08 Jun 2014 20:51:35 GMT"));
    let r = authenticate_at(&mut db, 1100, "POST", "/inbox", &altered, &no_actor, &no_finger);
    assert_eq!(r.unwrap_err(), Reject::NotFound);
    assert_eq!(db.actors_len(), 1);
}

#[test]
fn a_request_without_a_good_signature_is_turned_down() {
    let k = keys();
    let mut db = Database::new();
    local(&mut db, "alice", &k.public_pem, false);
    local(&mut db, "bob", &keys().public_pem, false);
    let mut none = HeaderMap::new();
    none.insert("host", HeaderValue::from_static("example.com"));
    let r = authenticate_at(&mut db, 1, "POST", "/inbox", &none, &no_actor, &no_finger);
    assert_eq!(r.unwrap_err(), Reject::NotFound);
    // malformed
    let mut bad = none.clone();
    bad.insert("signature", HeaderValue::from_static("keyId=\"x#main-key\""));
    let r = authenticate_at(&mut db, 1, "POST", "/inbox", &bad, &no_actor, &no_finger);
    assert_eq!(r.unwrap_err(), Reject::NotFound);
    let mut bytes = none.clone();
    bytes.insert("signature", HeaderValue::from_bytes(b"signature=\"AQID\",keyId=\"\xff#main-key\"").unwrap());
    let r = authenticate_at(&mut db, 1, "POST", "/inbox", &bytes, &no_actor, &no_finger);
    assert_eq!(r.unwrap_err(), Reject::NotFound);
    // no key id, or one of another shape
    let mut anonymous = none.clone();
    anonymous.insert("signature", HeaderValue::from_static("signature=\"AQID\""));
    let r = authenticate_at(&mut db, 1, "POST", "/inbox", &anonymous, &no_actor, &no_finger);
    assert_eq!(r.unwrap_err(), Reject::NotFound);
    let delegated = signed_request(&k, &format!("{}#other-key", uri("alice")), 1000, 300);
    let r = authenticate_at(&mut db, 1100, "POST", "/inbox", &delegated, &no_actor, &no_finger);
    assert_eq!(r.unwrap_err(), Reject::NotFound);
    let bare = signed_request(&k, &uri("alice"), 1000, 300);
    let r = authenticate_at(&mut db, 1100, "POST", "/inbox", &bare, &no_actor, &no_finger);
    assert_eq!(r.unwrap_err(), Reject::NotFound);
    // the key of another actor
    let stolen = signed_request(&k, &format!("{}#main-key", uri("bob")), 1000, 300);
    let r = authenticate_at(&mut db, 1100, "POST", "/inbox", &stolen, &no_actor, &no_finger);
    assert_eq!(r.unwrap_err(), Reject::NotFound);
    // an actor that is nowhere
    let unknown = signed_request(&k, &format!("{}#main-key", uri("nobody")), 1000, 300);
    let r = authenticate_at(&mut db, 1100, "POST", "/inbox", &unknown, &no_actor, &no_finger);
    assert_eq!(r.unwrap_err(), Reject::NotFound);
    // an actor whose stored key is no key
    local(&mut db, "carol", "no key", false);
    let keyless = signed_request(&k, &format!("{}#main-key", uri("carol")), 1000, 300);
    let r = authenticate_at(&mut db, 1100, "POST", "/inbox", &keyless, &no_actor, &no_finger);
    assert_eq!(r.unwrap_err(), Reject::NotFound);
    // the key id is the URI with the suffix taken from its end only
    let twice = signed_request(&k, &format!("{}#main-key#main-key", uri("alice")), 1000, 300);
    let r = authenticate_at(&mut db, 1100, "POST", "/inbox", &twice, &no_actor, &no_finger);
    assert_eq!(r.unwrap_err(), Reject::NotFound);
    assert_eq!(db.actors_len(), 3);
}

#[test]
fn a_request_is_authenticated_by_the_clock() {
    let k = keys();
    let mut db = Database::new();
    let alice = local(&mut db, "alice", &k.public_pem, false);
    let now = std::time::SystemTime::now()
        .duration_since(std::time::UNIX_EPOCH)
        .unwrap()
        .as_secs();
    let fresh = signed_request(&k, &format!("{}#main-key", uri("alice")), now, 300);
    let found =
        authenticate_http_signatures(&mut db, "POST", "/inbox", &fresh, &no_actor, &no_finger);
    assert_eq!(found.unwrap(), alice);
    let stale = signed_request(&k, &format!("{}#main-key", uri("alice")), 1000, 300);
    let r = authenticate_http_signatures(&mut db, "POST", "/inbox", &stale, &no_actor, &no_finger);
    assert_eq!(r.unwrap_err(), Reject::NotFound);
}

fn remote_document(pem: &str) -> ActorS {
    let mut db = Database::new();
    let mut new_actor = NewLocalActorBuilder {
        username: "rita",
        domain: "remote.example",
        lang: "und",
        actor_type: ActorType::Person,
        public_key_pem: pem,
    }
    .build_at(1);
    new_actor.is_locked = true;
    let stored = insert_new_actor(&mut db, new_actor, 1).unwrap();
    let mut document = ActorS::from(&stored);
    document.icon = None;
    document
}

fn remote_finger() -> WebfingerResponse {
    WebfingerResponse {
        subject: String::from("acct:rita@accounts.example"),
        links: vec![
            Link {
                rel: String::from("http://webfinger.net/rel/profile-page"),
                kind: Some(String::from("text/html")),
                href: Some(String::from("https://remote.example/@rita")),
            },
            Link {
                rel: String::from("self"),
                kind: Some(String::from("application/activity+json")),
                href: Some(String::from("https://remote.example/users/rita")),
            },
        ],
    }
}

#[test]
fn an_unknown_actor_is_fetched_and_stored() {
    let mut db = Database::new();
    let asked = std::cell::RefCell::new(Vec::new());
    let fetch_actor = |address: &str| -> Option<ActorS> {
        asked.borrow_mut().push(address.to_string());
        Some(remote_document("PEM"))
    };
    let fetch_finger = |address: &str| -> Option<WebfingerResponse> {
        asked.borrow_mut().push(address.to_string());
        Some(remote_finger())
    };
    let rita_uri = "https://remote.example/users/rita";
    let stored =
        get_or_fetch_actor_by_uri(&mut db, rita_uri, 50, &fetch_actor, &fetch_finger).unwrap();
    assert_eq!(
        asked.borrow().clone(),
        vec![
            String::from("https://remote.example/users/rita"),
            String::from(
                "https://remote.example/.well-known/webfinger?resource=https://remote.example/users/rita"
            ),
        ]
    );
    assert_eq!(stored.id, 1);
    assert_eq!(stored.uri, rita_uri);
    assert_eq!(stored.username, "rita");
    // the domain is the one that WebFinger names, not the host of the URI
    assert_eq!(stored.domain, "accounts.example");
    assert_eq!(stored.created_at, 50);
    assert_eq!(stored.public_key_pem, "PEM");
    assert_eq!(stored.lang, "und");
    assert!(stored.is_locked);
    assert_eq!(get_actor_by_uri(&db, rita_uri).unwrap(), stored);
    // the second time the store answers
    let never_actor = |_: &str| -> Option<ActorS> { panic!("must not be asked") };
    let never_finger = |_: &str| -> Option<WebfingerResponse> { panic!("must not be asked") };
    let again =
        get_or_fetch_actor_by_uri(&mut db, rita_uri, 60, &never_actor, &never_finger).unwrap();
    assert_eq!(again, stored);
    assert_eq!(db.actors_len(), 1);
    // to fetch it once more is a conflict
    let r = fetch_actor_by_uri(&mut db, rita_uri, 70, &fetch_actor, &fetch_finger);
    assert_eq!(r.unwrap_err(), ActionError::InsertError);
}

#[test]
fn fetching_fails() {
    let mut db = Database::new();
    let rita_uri = "https://remote.example/users/rita";
    let r = get_or_fetch_actor_by_uri(&mut db, rita_uri, 1, &no_actor, &no_finger);
    assert_eq!(r.unwrap_err(), ActionError::FetchError);
    // a document that carries another id than the URI that was asked for
    let asked = std::cell::RefCell::new(0);
    let elsewhere = |_: &str| -> Option<ActorS> { Some(remote_document("PEM")) };
    let counting = |_: &str| -> Option<WebfingerResponse> {
        *asked.borrow_mut() += 1;
        Some(remote_finger())
    };
    let r = get_or_fetch_actor_by_uri(
        &mut db,
        "https://remote.example/users/other",
        1,
        &elsewhere,
        &counting,
    );
    assert_eq!(r.unwrap_err(), ActionError::InvalidForm);
    assert_eq!(*asked.borrow(), 0);
    assert_eq!(db.actors_len(), 0);
    // a key that names another owner
    let forged = |_: &str| -> Option<ActorS> {
        let mut doc = remote_document("PEM");
        doc.public_key.owner = Some(String::from("https://remote.example/users/eve"));
        Some(doc)
    };
    let finger = |_: &str| -> Option<WebfingerResponse> { Some(remote_finger()) };
    let r = get_or_fetch_actor_by_uri(&mut db, rita_uri, 1, &forged, &finger);
    assert_eq!(r.unwrap_err(), ActionError::InvalidForm);
    let r = get_or_fetch_actor_by_uri(&mut db, rita_uri, 1, &forged, &no_finger);
    assert_eq!(r.unwrap_err(), ActionError::InvalidForm);
    // an address that is no URL
    let malformed = |_: &str| -> Option<ActorS> {
        let mut doc = remote_document("PEM");
        doc.inbox = String::from("inbox");
        Some(doc)
    };
    let r = get_or_fetch_actor_by_uri(&mut db, rita_uri, 1, &malformed, &finger);
    assert_eq!(r.unwrap_err(), ActionError::InvalidForm);
    // a picture without an address
    let faceless = |_: &str| -> Option<ActorS> {
        let mut doc = remote_document("PEM");
        doc.icon = Some(commune::apub::models::actor::Image { url: Some(String::new()) });
        Some(doc)
    };
    let r = get_or_fetch_actor_by_uri(&mut db, rita_uri, 1, &faceless, &finger);
    assert_eq!(r.unwrap_err(), ActionError::InvalidForm);
    assert_eq!(db.actors_len(), 0);
    // without WebFinger the host of the URI is the domain
    let good = |_: &str| -> Option<ActorS> { Some(remote_document("PEM")) };
    let stored = get_or_fetch_actor_by_uri(&mut db, rita_uri, 1, &good, &no_finger).unwrap();
    assert_eq!(stored.domain, "remote.example");

    let mut other = Database::new();
    let info = WebfingerInfo {
        acct: WebfingerAcct { preferred_username: String::from("r"), domain: String::from("d.example") },
        ap: WebfingerAP { uri: String::from("u"), url: String::from("v") },
    };
    let stored = store_fetched_actor(&mut other, &remote_document("PEM"), Ok(info), 9).unwrap();
    assert_eq!(stored.domain, "d.example");
    let stored = store_fetched_actor(
        &mut other,
        &remote_document("PEM"),
        Err(ActionError::FetchError),
        9,
    );
    assert_eq!(stored.unwrap_err(), ActionError::InsertError);
}

#[test]
fn a_signed_request_of_an_unknown_actor_fetches_its_key() {
    let k = keys();
    let mut db = Database::new();
    let pem = k.public_pem.clone();
    let fetch_actor = move |_: &str| -> Option<ActorS> { Some(remote_document(&pem)) };
    let fetch_finger = |_: &str| -> Option<WebfingerResponse> { Some(remote_finger()) };
    let headers = signed_request(&k, "https://remote.example/users/rita#main-key", 1000, 300);
    let found =
        authenticate_at(&mut db, 1100, "POST", "/inbox", &headers, &fetch_actor, &fetch_finger)
            .unwrap();
    assert_eq!(found.uri, "https://remote.example/users/rita");
    assert_eq!(found.created_at, 1100);
    assert_eq!(db.actors_len(), 1);
}

#[test]
fn a_key_id_cannot_bring_in_an_actor_of_another_uri() {
    let k = keys();
    let mut db = Database::new();
    let pem = k.public_pem.clone();
    // the server at the address of the key answers with the document of another actor
    let fetch_actor = move |_: &str| -> Option<ActorS> { Some(remote_document(&pem)) };
    let fetch_finger = |_: &str| -> Option<WebfingerResponse> { Some(remote_finger()) };
    let headers = signed_request(&k, "https://evil.example/users/mallory#main-key", 1000, 300);
    let r = authenticate_at(&mut db, 1100, "POST", "/inbox", &headers, &fetch_actor, &fetch_finger);
    assert_eq!(r.unwrap_err(), Reject::NotFound);
    assert_eq!(db.actors_len(), 0);
}

#[test]
fn the_sender_is_the_actor_that_the_key_id_names() {
    let k = keys();
    let mut db = Database::new();
    local(&mut db, "alice", &k.public_pem, false);
    let key_id = format!("{}#main-key", uri("alice"));
    let headers = signed_request(&k, &key_id, 1000, 300);
    let found =
        authenticate_at(&mut db, 1100, "POST", "/inbox", &headers, &no_actor, &no_finger).unwrap();
    assert_eq!(format!("{}#main-key", found.uri), key_id);
}

#[test]
fn an_activity_must_name_its_sender() {
    let mut db = Database::new();
    let alice = local(&mut db, "alice", "KEY", false);
    assert_eq!(must_authenticate(&alice, &follow_of(&uri("alice"), &uri("bob"))), Ok(()));
    assert_eq!(
        must_authenticate(&alice, &follow_of(&uri("bob"), &uri("alice"))),
        Err(Reject::NotFound)
    );
    local(&mut db, "bob", "KEY", false);
    let forged = Some(follow_of(&uri("bob"), &uri("alice")));
    let r = post_inbox(&mut db, &alice, &forged, 5, &no_actor, &no_finger);
    assert_eq!(r.unwrap_err(), Reject::Custom(ActionError::NotAuthenticated));
    assert_eq!(db.follows_len(), 0);
}

#[test]
fn the_inbox_takes_follow_and_undo() {
    let mut db = Database::new();
    let alice = local(&mut db, "alice", "KEY", false);
    let bob = local(&mut db, "bob", "KEY", false);
    let before = actor_count_followers(&db, &bob).unwrap();
    let follow = Some(follow_of(&uri("alice"), &uri("bob")));
    assert_eq!(post_inbox(&mut db, &alice, &follow, 5, &no_actor, &no_finger), Ok(()));
    assert_eq!(actor_count_followers(&db, &bob).unwrap(), before + 1);
    assert_eq!(db.follow(0).follower_id, alice.id);
    assert_eq!(db.follow(0).following_id, bob.id);
    assert_eq!(db.follow(0).role, "follower");
    assert_eq!(db.follow(0).created_at, 5);
    // a second follow is turned down
    assert_eq!(
        post_inbox(&mut db, &alice, &follow, 6, &no_actor, &no_finger),
        Err(Reject::NotFound)
    );
    let undo = Some(undo_of(&uri("alice"), &uri("bob")));
    assert_eq!(post_inbox(&mut db, &alice, &undo, 7, &no_actor, &no_finger), Ok(()));
    assert_eq!(actor_count_followers(&db, &bob).unwrap(), before);
    assert_eq!(db.follows_len(), 0);
    // to undo once more is a success as well
    assert_eq!(post_inbox(&mut db, &alice, &undo, 8, &no_actor, &no_finger), Ok(()));
}

#[test]
fn the_inbox_turns_down_what_it_does_not_know() {
    let mut db = Database::new();
    let alice = local(&mut db, "alice", "KEY", false);
    local(&mut db, "bob", "KEY", true);
    let me = uri("alice");
    let r = post_inbox(&mut db, &alice, &None, 1, &no_actor, &no_finger);
    assert_eq!(r, Err(Reject::Custom(ActionError::InvalidForm)));
    let create = Some(activity("Create", &me, ActivityObject::Other(None)));
    assert_eq!(post_inbox(&mut db, &alice, &create, 1, &no_actor, &no_finger), Err(Reject::NotFound));
    assert_eq!(post_inbox_create(&follow_of(&me, &me)), Err(Reject::NotFound));
    let like = Some(activity("Like", &me, ActivityObject::Uri(uri("bob"))));
    assert_eq!(post_inbox(&mut db, &alice, &like, 1, &no_actor, &no_finger), Err(Reject::NotFound));
    let lower = Some(activity("follow", &me, ActivityObject::Uri(uri("bob"))));
    assert_eq!(post_inbox(&mut db, &alice, &lower, 1, &no_actor, &no_finger), Err(Reject::NotFound));
    // a follow must be about a URI
    let nested = activity("Follow", &me, ActivityObject::Activity(Box::new(follow_of(&me, &me))));
    assert_eq!(
        post_inbox_follow(&mut db, &nested, 1, &no_actor, &no_finger),
        Err(Reject::NotFound)
    );
    let other = activity("Follow", &me, ActivityObject::Other(Some(uri("bob"))));
    assert_eq!(post_inbox_follow(&mut db, &other, 1, &no_actor, &no_finger), Err(Reject::NotFound));
    // an undo must be about an activity, and that about a URI
    let bare = activity("Undo", &me, ActivityObject::Uri(uri("bob")));
    assert_eq!(post_inbox_undo(&mut db, &bare), Err(Reject::Custom(ActionError::InvalidForm)));
    assert_eq!(
        post_inbox_undo_follow(&mut db, &bare),
        Err(Reject::Custom(ActionError::InvalidForm))
    );
    let undo_like =
        activity("Undo", &me, ActivityObject::Activity(Box::new(activity("Like", &me, ActivityObject::Uri(uri("bob"))))));
    assert_eq!(post_inbox_undo(&mut db, &undo_like), Err(Reject::NotFound));
    let undo_nested = activity(
        "Undo",
        &me,
        ActivityObject::Activity(Box::new(activity("Follow", &me, ActivityObject::Other(None)))),
    );
    assert_eq!(post_inbox_undo(&mut db, &undo_nested), Err(Reject::NotFound));
    // to undo towards an actor that is not there is not found
    let undo_unknown = undo_of(&me, &uri("nobody"));
    assert_eq!(
        post_inbox_undo(&mut db, &undo_unknown),
        Err(Reject::Custom(ActionError::NotFound))
    );
    // a follow of an actor that cannot be found anywhere is turned down
    let follow_unknown = follow_of(&me, &uri("nobody"));
    assert_eq!(
        post_inbox_follow(&mut db, &follow_unknown, 1, &no_actor, &no_finger),
        Err(Reject::NotFound)
    );
    assert_eq!(db.follows_len(), 0);
    // a follow of a locked actor is pending
    let to_locked = follow_of(&me, &uri("bob"));
    assert_eq!(post_inbox_follow(&mut db, &to_locked, 1, &no_actor, &no_finger), Ok(()));
    assert_eq!(db.follow(0).role, "pending");
}

#[test]
fn a_follow_fetches_a_target_that_the_store_does_not_hold() {
    let mut db = Database::new();
    let alice = local(&mut db, "alice", "KEY", false);
    let fetch_actor = |_: &str| -> Option<ActorS> { Some(remote_document("PEM")) };
    let fetch_finger = |_: &str| -> Option<WebfingerResponse> { Some(remote_finger()) };
    let follow = Some(follow_of(&uri("alice"), "https://remote.example/users/rita"));
    assert_eq!(post_inbox(&mut db, &alice, &follow, 9, &fetch_actor, &fetch_finger), Ok(()));
    assert_eq!(db.actors_len(), 2);
    assert_eq!(db.follows_len(), 1);
    assert_eq!(db.follow(0).following_id, 2);
    // the fetched actor approves its followers by hand
    assert_eq!(db.follow(0).role, "pending");
}

#[test]
fn an_expired_signature_never_reaches_the_inbox() {
    let k = keys();
    let mut db = Database::new();
    local(&mut db, "alice", &k.public_pem, false);
    let bob = local(&mut db, "bob", "KEY", false);
    let headers = signed_request(&k, &format!("{}#main-key", uri("alice")), 1000, 300);
    let follow = Some(follow_of(&uri("alice"), &uri("bob")));
    let late = inbox_request(&mut db, 1301, "POST", "/inbox", &headers, &follow, &no_actor, &no_finger);
    assert_eq!(late, Err(Reject::NotFound));
    assert_eq!(db.follows_len(), 0);
    assert_eq!(actor_count_followers(&db, &bob).unwrap(), 0);
    // in time, the same request is taken
    let in_time =
        inbox_request(&mut db, 1300, "POST", "/inbox", &headers, &follow, &no_actor, &no_finger);
    assert_eq!(in_time, Ok(()));
    assert_eq!(actor_count_followers(&db, &bob).unwrap(), 1);
    assert_eq!(db.follow(0).created_at, 1300);
    // an undo with a signature that has run out leaves the edge
    let undo = Some(undo_of(&uri("alice"), &uri("bob")));
    let late = inbox_request(&mut db, 9999, "POST", "/inbox", &headers, &undo, &no_actor, &no_finger);
    assert_eq!(late, Err(Reject::NotFound));
    assert_eq!(db.follows_len(), 1);
    let in_time =
        inbox_request(&mut db, 1200, "POST", "/inbox", &headers, &undo, &no_actor, &no_finger);
    assert_eq!(in_time, Ok(()));
    assert_eq!(db.follows_len(), 0);
    // a signed request must still name its sender
    let forged = Some(follow_of(&uri("bob"), &uri("alice")));
    let r = inbox_request(&mut db, 1200, "POST", "/inbox", &headers, &forged, &no_actor, &no_finger);
    assert_eq!(r, Err(Reject::Custom(ActionError::NotAuthenticated)));
    let r = inbox_request(&mut db, 1200, "POST", "/inbox", &headers, &None, &no_actor, &no_finger);
    assert_eq!(r, Err(Reject::Custom(ActionError::InvalidForm)));
    assert_eq!(db.follows_len(), 0);
}

#[test]
fn times_of_the_store() {
    assert_eq!(stamp(0), 0);
    assert_eq!(stamp(1_700_000_000), 1_700_000_000);
    assert_eq!(stamp(i64::MAX as u64), i64::MAX);
    assert_eq!(stamp(i64::MAX as u64 + 1), i64::MAX);
    assert_eq!(stamp(u64::MAX), i64::MAX);
}

#[test]
fn the_documents_of_an_actor() {
    let mut db = Database::new();
    local(&mut db, "alice", "KEY", false);
    match get_user(&db, "example.com", "alice") {
        UserReply::Document(doc) => {
            assert_eq!(doc.id, "https://example.com/users/alice");
            assert_eq!(doc.preferred_username, "alice");
        }
        other => panic!("{:?}", other),
    }
    assert_eq!(
        get_user(&db, "example.com", "bob"),
        UserReply::Failed(404, ActionError::NotFound)
    );
    assert_eq!(
        get_user(&db, "other.example", "alice"),
        UserReply::Failed(404, ActionError::NotFound)
    );
    let outbox = get_user_outbox("example.com", "alice");
    assert_eq!(outbox.kind, "OrderedCollection");
    assert_eq!(outbox.id, "https://example.com/users/alice/inbox");
    assert_eq!(outbox.total_items, 0);
    assert!(outbox.ordered_items.is_empty());
    assert_eq!(ACTIVITY_CONTENT_TYPE, "application/activity+json");
}

#[test]
fn the_followers_of_an_actor() {
    let mut db = Database::new();
    local(&mut db, "target", "KEY", false);
    for i in 0..13 {
        let name = format!("fan{}", i);
        local(&mut db, &name, "KEY", false);
        follow_actor_by_uri(&mut db, &uri(&name), &uri("target"), i).unwrap();
    }
    let whole = get_user_followers(&db, "example.com", "target", &PagedCollection::new(None));
    match whole.unwrap() {
        FollowersReply::Collection(c) => {
            assert_eq!(c.kind, "OrderedCollection");
            assert_eq!(c.id, "https://example.com/users/target/followers");
            assert_eq!(c.total_items, 13);
            assert_eq!(c.first, "https://example.com/users/target/followers?page=1");
        }
        other => panic!("{:?}", other),
    }
    let first = get_user_followers(&db, "example.com", "target", &PagedCollection::new(Some(1)));
    match first.unwrap() {
        FollowersReply::Page(p) => {
            assert_eq!(p.kind, "OrderedCollectionPage");
            assert_eq!(p.id, "https://example.com/users/target/followers?page=1");
            assert_eq!(p.next, Some(String::from("https://example.com/users/target/followers?page=2")));
            assert_eq!(p.prev, None);
            assert_eq!(p.total_items, 13);
            let expected: Vec<String> = (1..13).rev().map(|i| uri(&format!("fan{}", i))).collect();
            assert_eq!(p.ordered_items, expected);
        }
        other => panic!("{:?}", other),
    }
    let second = get_user_followers(&db, "example.com", "target", &PagedCollection::new(Some(2)));
    match second.unwrap() {
        FollowersReply::Page(p) => {
            assert_eq!(p.id, "https://example.com/users/target/followers?page=2");
            assert_eq!(p.next, None);
            assert_eq!(p.prev, Some(String::from("https://example.com/users/target/followers?page=1")));
            assert_eq!(p.ordered_items, vec![uri("fan0")]);
        }
        other => panic!("{:?}", other),
    }
    let far = get_user_followers(&db, "example.com", "target", &PagedCollection::new(Some(7)));
    match far.unwrap() {
        FollowersReply::Page(p) => {
            assert_eq!(p.next, None);
            assert_eq!(p.prev, Some(String::from("https://example.com/users/target/followers?page=6")));
            assert!(p.ordered_items.is_empty());
        }
        other => panic!("{:?}", other),
    }
    let zero = get_user_followers(&db, "example.com", "target", &PagedCollection::new(Some(0)));
    assert_eq!(zero.unwrap_err(), Reject::Custom(ActionError::NotFound));
    let nobody = get_user_followers(&db, "example.com", "nobody", &PagedCollection::new(None));
    assert_eq!(nobody.unwrap_err(), Reject::Custom(ActionError::NotFound));
    let nobody = get_user_followers(&db, "example.com", "nobody", &PagedCollection::new(Some(1)));
    assert_eq!(nobody.unwrap_err(), Reject::Custom(ActionError::NotFound));
}

#[test]
fn the_webfinger_endpoint() {
    let mut db = Database::new();
    local(&mut db, "alice", "KEY", false);
    let found = get_webfinger(
        &db,
        WebfingerResource { resource: String::from("acct:alice@example.com") },
    );
    match found {
        WebfingerReply::Document(doc) => assert_eq!(doc.subject, "acct:alice@example.com"),
        other => panic!("{:?}", other),
    }
    let missing =
        get_webfinger(&db, WebfingerResource { resource: String::from("acct:bob@example.com") });
    assert_eq!(missing, WebfingerReply::Failed(404, ActionError::NotFound));
    assert_eq!(WEBFINGER_CONTENT_TYPE, "application/jrd+json; charset=utf-8");
}

#[test]
fn the_domains_of_this_server() {
    let state = AppState::new(Database::new(), "  example.com\tsocial.example\nexample.com \r\n");
    assert_eq!(state.website_name, "Commune");
    assert_eq!(
        state.local_domains,
        vec![String::from("example.com"), String::from("social.example")]
    );
    assert_eq!(
        set_domain(&state, Some(String::from("social.example"))),
        Ok(String::from("social.example"))
    );
    assert_eq!(set_domain(&state, Some(String::from("other.example"))), Err(Reject::NotFound));
    assert_eq!(set_domain(&state, Some(String::from("Example.com"))), Err(Reject::NotFound));
    assert_eq!(set_domain(&state, None), Err(Reject::NotFound));
    let empty = AppState::new(Database::new(), " \t ");
    assert!(empty.local_domains.is_empty());
    assert_eq!(set_domain(&empty, Some(String::new())), Err(Reject::NotFound));
    let one = AppState::new(Database::new(), "a");
    assert_eq!(one.local_domains, vec![String::from("a")]);
    assert_eq!(one.db.actors_len(), 0);
}

#[test]
fn errors_and_their_answers() {
    assert_eq!(ActionError::NotFound.status_code(), 404);
    assert_eq!(ActionError::InvalidForm.status_code(), 422);
    assert_eq!(ActionError::InternalError.status_code(), 500);
    assert_eq!(ActionError::InsertError.status_code(), 500);
    assert_eq!(ActionError::FetchError.status_code(), 500);
    assert_eq!(ActionError::NotAuthenticated.status_code(), 401);
    assert_eq!(ActionError::InternalError.message(), "internal error");
    assert_eq!(ActionError::NotFound.message(), "not found");
    assert_eq!(ActionError::InsertError.message(), "insert error");
    assert_eq!(ActionError::InvalidForm.message(), "invalid form");
    assert_eq!(ActionError::FetchError.message(), "fetch error");
    assert_eq!(ActionError::NotAuthenticated.message(), "not authenticated");
    assert_eq!(ActionError::NotAuthenticated.tag(), "NotAuthenticated");
    assert_eq!(ActionError::InternalError.tag(), "InternalError");
    assert_eq!(Reject::NotFound.status_code(), 404);
    assert_eq!(Reject::Custom(ActionError::InvalidForm).status_code(), 422);
    assert_eq!(Reject::Custom(ActionError::NotAuthenticated).status_code(), 401);
}

//! Who sent a request: the actor whose key signed it.

use vstd::prelude::*;
use vstd::string::*;
use http::header::HeaderValue;
use http::HeaderMap;
use openssl::error::ErrorStack;
use openssl::hash::MessageDigest;
use openssl::pkey::PKey;
use openssl::sign::Verifier;
use crate::apub::actions::actors::{get_or_fetch_actor_by_uri, resolved};
use crate::apub::models::activities::Activity;
use crate::apub::models::actor::Actor as ActorS;
use crate::apub::webfinger::WebfingerResponse;
use crate::db::models::actor::Actor;
use crate::db::Database;
use crate::errors::ActionResult;
use crate::hancock::canonical::{expired, signing_input, utf8};
use crate::clock::unix_now;
use crate::hancock::headers::{header_entries, header_values, values_for, HeaderEntries};
use crate::hancock::model::SignatureView;
use crate::hancock::wire::spec_parse;
use crate::hancock::Signature;
use crate::handlers::Reject;
use crate::strings::{ends_with, str_ends_with, str_eq, string_from_utf8, text_of};

verus! {

#[verifier::external_type_specification]
#[verifier::external_body]
pub struct ExErrorStack(ErrorStack);

/// Whether a signature over a body is good under a public key in PEM, with
/// SHA-256 as the digest; `None` where the key or the check fails.
pub uninterp spec fn signature_check(public_key_pem: Seq<u8>, body: Seq<u8>, signature: Seq<
    u8,
>) -> Option<bool>;

/// The longest key in PEM that can be read: the reader takes no buffer
/// longer than the largest number of the C type `int`.
pub open spec fn max_pem_len() -> int {
    0x7fff_ffff
}

/// The check of a signature with OpenSSL: `PKey::public_key_from_pem` reads
/// the key, `Verifier::new` with `MessageDigest::sha256` makes the verifier
/// for it, `Verifier::update` feeds it the body, and `Verifier::verify`
/// tells whether the signature fits. An error of any of the four is handed
/// on. The result is named. The reader of the key refuses a longer buffer
/// than `max_pem_len` by an assertion, so such a key is left out.
#[verifier::external_body]
pub fn do_verify(public_key_pem: &[u8], src: &[u8], sig: &[u8]) -> (r: Result<bool, ErrorStack>)
    requires
        public_key_pem@.len() <= max_pem_len(),
    ensures
        match r {
            Ok(good) => signature_check(public_key_pem@, src@, sig@) == Some(good),
            Err(_) => signature_check(public_key_pem@, src@, sig@) is None,
        },
{
    let key = PKey::public_key_from_pem(public_key_pem)?;
    let mut verifier = Verifier::new(MessageDigest::sha256(), &key)?;
    verifier.update(src)?;
    verifier.verify(sig)
}

/// An activity may be taken from an actor only where it names that actor as
/// its own.
pub fn must_authenticate(actor: &Actor, body: &Activity) -> (r: Result<(), Reject>)
    ensures
        r == (if actor.uri@ == body.actor@ {
            Ok::<(), Reject>(())
        } else {
            Err::<(), Reject>(Reject::NotFound)
        }),
{
    if str_eq(actor.uri.as_str(), body.actor.as_str()) {
        Ok(())
    } else {
        Err(Reject::NotFound)
    }
}

/// The text of the `Signature` header of a request: its first value, read
/// as text.
pub open spec fn signature_text(entries: HeaderEntries) -> Option<Seq<char>> {
    let values = values_for(entries, "Signature"@);
    if values.len() > 0 {
        text_of(values[0])
    } else {
        None
    }
}

/// The URI of the actor that a key id names: the key id without `#main-key`
/// at its end. A key id that ends otherwise names no actor.
pub open spec fn signer_uri(key_id: Seq<char>) -> Option<Seq<char>> {
    if ends_with(key_id, "#main-key"@) {
        Some(key_id.subrange(0, key_id.len() - "#main-key"@.len()))
    } else {
        None
    }
}

/// The signature of a request, where its header can be read.
pub open spec fn request_signature(entries: HeaderEntries) -> Option<SignatureView> {
    match signature_text(entries) {
        Some(text) => match spec_parse(text) {
            Ok(sig) => Some(sig),
            Err(_) => None,
        },
        None => None,
    }
}

/// The signature of a request and the URI of the actor whose key it names.
pub open spec fn request_signer(entries: HeaderEntries) -> Option<(SignatureView, Seq<char>)> {
    match request_signature(entries) {
        Some(sig) => match sig.key_id {
            Some(key_id) => match signer_uri(key_id) {
                Some(uri) => Some((sig, uri)),
                None => None,
            },
            None => None,
        },
        None => None,
    }
}

/// The signature is good for the request under the key, at the time `now`.
/// A key that is too long to be read makes no signature good.
pub open spec fn signature_holds(
    sig: SignatureView,
    public_key_pem: Seq<char>,
    now: u64,
    method: Seq<char>,
    path: Seq<char>,
    entries: HeaderEntries,
) -> bool {
    match signing_input(sig, now, method, path, entries) {
        Some(body) => utf8(public_key_pem).len() <= max_pem_len() && signature_check(
            utf8(public_key_pem),
            body,
            sig.signature,
        ) == Some(true),
        None => false,
    }
}

/// The time of the store for a time of the clock.
pub open spec fn spec_stamp(now: u64) -> i64 {
    if now <= i64::MAX {
        now as i64
    } else {
        i64::MAX
    }
}

/// The time of the store for a time of the clock.
pub fn stamp(now: u64) -> (r: i64)
    ensures
        r == spec_stamp(now),
{
    if now <= 0x7fff_ffff_ffff_ffff {
        now as i64
    } else {
        i64::MAX
    }
}

/// What `authenticate_at` does. A request without a readable signature
/// whose key id names an actor is turned down, and the store is as before.
/// Else the actor is looked for, in the store or at its server; the request
/// is taken where the actor was found and the signature is good under its
/// key, and in every other case it is turned down. The sender that comes
/// back is the actor that the key id names.
pub open spec fn authenticated<
    FA: Fn(&str) -> Option<ActorS>,
    FW: Fn(&str) -> Option<WebfingerResponse>,
>(
    before: Database,
    after: Database,
    now: u64,
    method: Seq<char>,
    path: Seq<char>,
    entries: HeaderEntries,
    fetch_actor: FA,
    fetch_webfinger: FW,
    r: Result<Actor, Reject>,
) -> bool {
    match request_signer(entries) {
        Some(signer) => exists|found: ActionResult<Actor>| #[trigger]
            resolved(before, after, signer.1, spec_stamp(now), fetch_actor, fetch_webfinger, found)
                && match found {
                Ok(actor) => {
                    if signature_holds(
                        signer.0,
                        actor.public_key_pem@,
                        now,
                        method,
                        path,
                        entries,
                    ) {
                        r matches Ok(sender) && sender@ == actor@ && sender.uri@ == signer.1
                    } else {
                        r == Err::<Actor, Reject>(Reject::NotFound)
                    }
                },
                Err(_) => r == Err::<Actor, Reject>(Reject::NotFound),
            },
        None => r == Err::<Actor, Reject>(Reject::NotFound) && after == before,
    }
}

/// Finds the actor that sent a request, at the time `now`, given in seconds
/// since the start of 1970.
pub fn authenticate_at<
    FA: Fn(&str) -> Option<ActorS>,
    FW: Fn(&str) -> Option<WebfingerResponse>,
>(
    db: &mut Database,
    now: u64,
    method: &str,
    full_path: &str,
    headers: &HeaderMap<HeaderValue>,
    fetch_actor: &FA,
    fetch_webfinger: &FW,
) -> (r: Result<Actor, Reject>)
    requires
        old(db).wf(),
        forall|address: &str| call_requires(*fetch_actor, (address,)),
        forall|address: &str| call_requires(*fetch_webfinger, (address,)),
    ensures
        final(db).wf(),
        authenticated(
            *old(db),
            *final(db),
            now,
            method@,
            full_path@,
            header_entries(*headers),
            *fetch_actor,
            *fetch_webfinger,
            r,
        ),
        final(db).follows() == old(db).follows(),
        (request_signature(header_entries(*headers)) matches Some(sig) && expired(sig, now))
            ==> r is Err,
{
    let ghost entries = header_entries(*headers);
    let mut values = header_values(headers, "Signature");
    if values.len() == 0 {
        return Err(Reject::NotFound);
    }
    let ghost first_view = values@[0]@;
    proof {
        assert(crate::hancock::headers::values_view(values@)[0] == first_view);
    }
    let first = values.remove(0);
    let text = match string_from_utf8(first) {
        Some(text) => text,
        None => {
            return Err(Reject::NotFound);
        },
    };
    let signature = match Signature::parse(text.as_str()) {
        Ok(signature) => signature,
        Err(_) => {
            return Err(Reject::NotFound);
        },
    };
    let ghost sig = signature@;
    proof {
        assert(request_signature(entries) == Some(sig));
    }
    proof {
        reveal_strlit("#main-key");
    }
    let actor_id = match &signature.key_id {
        Some(key_id) => {
            if !str_ends_with(key_id.as_str(), "#main-key") {
                return Err(Reject::NotFound);
            }
            let n = key_id.as_str().unicode_len();
            String::from_str(key_id.as_str().substring_char(0, n - 9))
        },
        None => {
            return Err(Reject::NotFound);
        },
    };
    proof {
        assert(request_signer(entries) == Some((sig, actor_id@)));
    }
    let found = get_or_fetch_actor_by_uri(
        db,
        actor_id.as_str(),
        stamp(now),
        fetch_actor,
        fetch_webfinger,
    );
    let ghost looked = found;
    proof {
        assert(resolved(
            *old(db),
            *db,
            actor_id@,
            spec_stamp(now),
            *fetch_actor,
            *fetch_webfinger,
            looked,
        ));
    }
    let actor = match found {
        Ok(actor) => actor,
        Err(_) => {
            proof {
                let signer = request_signer(entries)->0;
                assert(signer.1 == actor_id@);
                assert(authenticated(
                    *old(db),
                    *db,
                    now,
                    method@,
                    full_path@,
                    entries,
                    *fetch_actor,
                    *fetch_webfinger,
                    Err::<Actor, Reject>(Reject::NotFound),
                ));
            }
            return Err(Reject::NotFound);
        },
    };
    proof {
        assert(looked == Ok::<Actor, crate::errors::ActionError>(actor));
    }
    let pem = actor.public_key_pem.as_str().as_bytes();
    let ghost key = pem@;
    let verified = if pem.len() > 0x7fff_ffff {
        false
    } else {
        let check = |body: &[u8], sig_bytes: &[u8]| -> (out: Result<bool, ErrorStack>)
            ensures
                match out {
                    Ok(good) => signature_check(key, body@, sig_bytes@) == Some(good),
                    Err(_) => signature_check(key, body@, sig_bytes@) is None,
                },
            { do_verify(pem, body, sig_bytes) };
        match signature.verify_at(now, method, full_path, headers, check) {
            Ok(good) => good,
            Err(_) => false,
        }
    };
    proof {
        assert(key == utf8(actor.public_key_pem@));
        assert(verified == signature_holds(
            sig,
            actor.public_key_pem@,
            now,
            method@,
            full_path@,
            entries,
        ));
        assert(resolved(
            *old(db),
            *db,
            actor_id@,
            spec_stamp(now),
            *fetch_actor,
            *fetch_webfinger,
            looked,
        ));
    }
    let r = if verified {
        Ok(actor)
    } else {
        Err(Reject::NotFound)
    };
    proof {
        let signer = request_signer(entries)->0;
        assert(signer.1 == actor_id@);
        assert(authenticated(
            *old(db),
            *db,
            now,
            method@,
            full_path@,
            entries,
            *fetch_actor,
            *fetch_webfinger,
            r,
        ));
    }
    r
}

/// What `authenticate_http_signatures` does: what `authenticate_at` does at
/// some time; where the clock cannot be read, the request is turned down.
pub open spec fn authenticated_now<
    FA: Fn(&str) -> Option<ActorS>,
    FW: Fn(&str) -> Option<WebfingerResponse>,
>(
    before: Database,
    after: Database,
    method: Seq<char>,
    path: Seq<char>,
    entries: HeaderEntries,
    fetch_actor: FA,
    fetch_webfinger: FW,
    r: Result<Actor, Reject>,
) -> bool {
    ||| r == Err::<Actor, Reject>(Reject::NotFound) && after == before
    ||| exists|now: u64| #[trigger]
        authenticated(before, after, now, method, path, entries, fetch_actor, fetch_webfinger, r)
}

/// Finds the actor that sent a request.
pub fn authenticate_http_signatures<
    FA: Fn(&str) -> Option<ActorS>,
    FW: Fn(&str) -> Option<WebfingerResponse>,
>(
    db: &mut Database,
    method: &str,
    full_path: &str,
    headers: &HeaderMap<HeaderValue>,
    fetch_actor: &FA,
    fetch_webfinger: &FW,
) -> (r: Result<Actor, Reject>)
    requires
        old(db).wf(),
        forall|address: &str| call_requires(*fetch_actor, (address,)),
        forall|address: &str| call_requires(*fetch_webfinger, (address,)),
    ensures
        final(db).wf(),
        authenticated_now(
            *old(db),
            *final(db),
            method@,
            full_path@,
            header_entries(*headers),
            *fetch_actor,
            *fetch_webfinger,
            r,
        ),
        final(db).follows() == old(db).follows(),
{
    match unix_now() {
        Some(now) => authenticate_at(
            db,
            now,
            method,
            full_path,
            headers,
            fetch_actor,
            fetch_webfinger,
        ),
        None => Err(Reject::NotFound),
    }
}

} // verus!

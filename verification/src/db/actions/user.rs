//! Making the account of a new actor of this server.

use vstd::prelude::*;
use vstd::string::*;
use crate::apub::models::actor::none_if_empty;
use crate::apub::rsa::{generate_key_pair_pem, KeyPair};
use crate::db::actions::actor::{has_room, store_new_actor, stored_actor};
use crate::db::models::actor::{local_actor, local_uri, ActorType, NewLocalActorBuilder};
use crate::db::models::user::{User, UserView};
use crate::db::models::UserActor;
use crate::db::Database;
use crate::errors::{ActionError, ActionResult};
use crate::strings::text_view;

verus! {

/// `bcrypt::hash` with the cost that the crate calls its default: the hash
/// of a password under a salt that is drawn at random, or `None` for a
/// password that cannot be hashed. Nothing is claimed of the text.
#[verifier::external_body]
fn bcrypt_hash(password: &str) -> (r: Option<String>) {
    bcrypt::hash(password.as_bytes(), bcrypt::DEFAULT_COST).ok()
}

/// The account that is made for the actor with the id `actor_id`.
pub open spec fn new_user(
    actor_id: i64,
    email: Seq<char>,
    password_hash: Seq<char>,
    private_key_pem: Seq<char>,
    register_ip: Option<Seq<char>>,
) -> UserView {
    UserView {
        actor_id,
        email: none_if_empty(email),
        is_email_verified: false,
        password_hash: Some(password_hash),
        private_key_pem,
        register_ip,
        last_login_ip: None,
    }
}

/// What `create_user_with` does: `InsertError` where the store has no room
/// for the actor, and the store is as before; else a person with the name
/// at the domain is added with the public key, and its account with the
/// private key and the hash of the password.
pub open spec fn user_created(
    before: Database,
    after: Database,
    username: Seq<char>,
    domain: Seq<char>,
    password_hash: Seq<char>,
    public_key_pem: Seq<char>,
    private_key_pem: Seq<char>,
    email: Seq<char>,
    register_ip: Option<Seq<char>>,
    now: i64,
    r: ActionResult<UserActor>,
) -> bool {
    let new_actor = local_actor(username, domain, ActorType::Person, public_key_pem, Some(now));
    if !has_room(before, new_actor.uri) {
        r == Err::<UserActor, ActionError>(ActionError::InsertError) && after == before
    } else {
        &&& r matches Ok(made) && made.actor@ == stored_actor(new_actor, before.next_id(), now)
            && made.user@ == new_user(
            before.next_id(),
            email,
            password_hash,
            private_key_pem,
            register_ip,
        ) && after.actors().len() == before.actors().len() + 1 && after.actors().last()@
            == made.actor@ && after.actors().drop_last() == before.actors()
            && after.users().len() == before.users().len() + 1 && after.users().last()@
            == made.user@ && after.users().drop_last() == before.users()
        &&& after.next_id() == before.next_id() + 1
        &&& after.follows() == before.follows()
    }
}

/// Makes a person of this server and its account, given the hash of its
/// password and its keys, at the time `now`.
pub fn create_user_with(
    db: &mut Database,
    username: &str,
    domain: &str,
    password_hash: String,
    keypair: KeyPair,
    email: &str,
    lang: &str,
    register_ip: Option<String>,
    now: i64,
) -> (r: ActionResult<UserActor>)
    requires
        old(db).wf(),
    ensures
        final(db).wf(),
        user_created(
            *old(db),
            *final(db),
            username@,
            domain@,
            password_hash@,
            keypair.public@,
            keypair.private@,
            email@,
            text_view(register_ip),
            now,
            r,
        ),
{
    let new_actor = NewLocalActorBuilder {
        username,
        domain,
        lang,
        actor_type: ActorType::Person,
        public_key_pem: keypair.public.as_str(),
    }.build_at(now);
    let actor = match store_new_actor(db, new_actor, now) {
        Ok(actor) => actor,
        Err(_) => {
            return Err(ActionError::InsertError);
        },
    };
    let email = if email.unicode_len() == 0 {
        None
    } else {
        Some(String::from_str(email))
    };
    let new_user = User {
        actor_id: actor.id,
        email,
        is_email_verified: false,
        password_hash: Some(password_hash),
        private_key_pem: keypair.private,
        register_ip,
        last_login_ip: None,
    };
    let user = new_user.duplicate();
    proof {
        assert forall|i: int| 0 <= i < db.users().len() implies (#[trigger] db.users()[i]).actor_id
            != new_user.actor_id by {}
    }
    db.add_user(new_user);
    proof {
        assert(db.users().drop_last() =~= old(db).users());
    }
    Ok(UserActor { actor, user })
}

/// Makes a person of this server and its account, at the time `now`. The
/// password is hashed and a pair of keys is made; where either fails, the
/// store is as before.
pub fn create_user(
    db: &mut Database,
    username: &str,
    domain: &str,
    password: &str,
    email: &str,
    lang: &str,
    register_ip: Option<String>,
    now: i64,
) -> (r: ActionResult<UserActor>)
    requires
        old(db).wf(),
    ensures
        final(db).wf(),
        match r {
            Ok(made) => user_created(
                *old(db),
                *final(db),
                username@,
                domain@,
                made.user.password_hash->0@,
                made.actor.public_key_pem@,
                made.user.private_key_pem@,
                email@,
                text_view(register_ip),
                now,
                r,
            ),
            Err(e) => *final(db) == *old(db) && (e == ActionError::InternalError || (e
                == ActionError::InsertError && find_taken(*old(db), domain@, username@))),
        },
{
    let password_hash = match bcrypt_hash(password) {
        Some(hash) => hash,
        None => {
            return Err(ActionError::InternalError);
        },
    };
    let keypair = match generate_key_pair_pem() {
        Some(pair) => pair,
        None => {
            return Err(ActionError::InternalError);
        },
    };
    create_user_with(db, username, domain, password_hash, keypair, email, lang, register_ip, now)
}

/// The store has no room for a person with the name at the domain.
pub open spec fn find_taken(db: Database, domain: Seq<char>, username: Seq<char>) -> bool {
    !has_room(db, local_uri(domain, username, ActorType::Person))
}

} // verus!

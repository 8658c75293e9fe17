//! Actors as documents of the federation.

use vstd::prelude::*;
use vstd::string::*;
use crate::apub::models::activities::Activity;
use crate::apub::models::empty_string_or_none;
use crate::apub::uri::{host_of, url_host};
use crate::apub::username::{idna_to_username, spec_username_to_idna, unicode_domain, username_to_idna};
use crate::apub::webfinger::WebfingerInfo;
use crate::db::models::actor::{ActorView as StoredActorView, NewActor, NewActorView};
use crate::errors::ActionError;
use crate::strings::{clone_text, concat, text_view};

verus! {

/// The public key of an actor document. A part is `None` where the
/// document has no text there.
#[derive(Debug, Clone, PartialEq, Eq)]
pub struct PublicKey {
    pub id: Option<String>,
    pub owner: Option<String>,
    pub public_key_pem: Option<String>,
}

pub struct PublicKeyView {
    pub id: Option<Seq<char>>,
    pub owner: Option<Seq<char>>,
    pub public_key_pem: Option<Seq<char>>,
}

impl View for PublicKey {
    type V = PublicKeyView;

    open spec fn view(&self) -> PublicKeyView {
        PublicKeyView {
            id: text_view(self.id),
            owner: text_view(self.owner),
            public_key_pem: text_view(self.public_key_pem),
        }
    }
}

/// A picture of an actor document; `url` is `None` where it has no text there.
#[derive(Debug, Clone, PartialEq, Eq)]
pub struct Image {
    pub url: Option<String>,
}

/// The endpoints of an actor document.
#[derive(Debug, Clone, PartialEq, Eq)]
pub struct Endpoints {
    pub shared_inbox: Option<String>,
}

/// The address of the picture, where the document has one.
pub open spec fn image_view(image: Option<Image>) -> Option<Option<Seq<char>>> {
    match image {
        Some(i) => Some(text_view(i.url)),
        None => None,
    }
}

/// The shared inbox, where the document has endpoints.
pub open spec fn endpoints_view(endpoints: Option<Endpoints>) -> Option<Option<Seq<char>>> {
    match endpoints {
        Some(e) => Some(text_view(e.shared_inbox)),
        None => None,
    }
}

#[derive(Debug, Clone, PartialEq, Eq)]
pub struct Actor {
    pub kind: String,
    pub id: String,
    pub summary: Option<String>,
    pub following: Option<String>,
    pub followers: Option<String>,
    pub inbox: String,
    pub outbox: String,
    pub preferred_username: String,
    pub name: Option<String>,
    pub public_key: PublicKey,
    pub url: String,
    pub icon: Option<Image>,
    pub endpoints: Option<Endpoints>,
    pub manually_approves_followers: Option<bool>,
    pub suspended: Option<bool>,
}

/// An actor document as plain values.
pub struct ActorView {
    pub kind: Seq<char>,
    pub id: Seq<char>,
    pub summary: Option<Seq<char>>,
    pub following: Option<Seq<char>>,
    pub followers: Option<Seq<char>>,
    pub inbox: Seq<char>,
    pub outbox: Seq<char>,
    pub preferred_username: Seq<char>,
    pub name: Option<Seq<char>>,
    pub public_key: PublicKeyView,
    pub url: Seq<char>,
    pub icon: Option<Option<Seq<char>>>,
    pub endpoints: Option<Option<Seq<char>>>,
    pub manually_approves_followers: Option<bool>,
    pub suspended: Option<bool>,
}

impl View for Actor {
    type V = ActorView;

    open spec fn view(&self) -> ActorView {
        ActorView {
            kind: self.kind@,
            id: self.id@,
            summary: text_view(self.summary),
            following: text_view(self.following),
            followers: text_view(self.followers),
            inbox: self.inbox@,
            outbox: self.outbox@,
            preferred_username: self.preferred_username@,
            name: text_view(self.name),
            public_key: self.public_key@,
            url: self.url@,
            icon: image_view(self.icon),
            endpoints: endpoints_view(self.endpoints),
            manually_approves_followers: self.manually_approves_followers,
            suspended: self.suspended,
        }
    }
}

#[derive(Debug, PartialEq, Eq)]
pub struct Outbox {
    pub kind: String,
    pub id: String,
    pub total_items: i64,
    pub ordered_items: Vec<Activity>,
}

#[derive(Debug, Clone, PartialEq, Eq)]
pub struct Followers {
    pub kind: String,
    pub id: String,
    pub total_items: i64,
    pub ordered_items: Vec<String>,
}

/// The key of an actor document, in PEM: there only where the key says that
/// the actor owns it and carries the id of the actor followed by `#main-key`.
pub open spec fn spec_public_key_pem(actor: ActorView) -> Option<Seq<char>> {
    if actor.public_key.owner == Some(actor.id) && actor.public_key.id == Some(
        actor.id + "#main-key"@,
    ) {
        actor.public_key.public_key_pem
    } else {
        None
    }
}

/// A text, or `None` for the empty text.
pub open spec fn none_if_empty(text: Seq<char>) -> Option<Seq<char>> {
    if text.len() == 0 {
        None
    } else {
        Some(text)
    }
}

/// The document of an actor of the store.
pub open spec fn actor_document(actor: StoredActorView) -> ActorView {
    ActorView {
        kind: actor.kind,
        id: actor.uri,
        summary: none_if_empty(actor.summary),
        following: actor.following_uri,
        followers: actor.followers_uri,
        inbox: actor.inbox_uri,
        outbox: actor.outbox_uri,
        preferred_username: spec_username_to_idna(actor.username),
        name: none_if_empty(actor.name),
        public_key: PublicKeyView {
            id: Some(actor.uri + "#main-key"@),
            owner: Some(actor.uri),
            public_key_pem: Some(actor.public_key_pem),
        },
        url: match actor.url {
            Some(url) => url,
            None => actor.uri,
        },
        icon: Some(Some(actor.avatar_url)),
        endpoints: Some(Some("https://"@ + actor.domain + "/inbox"@)),
        manually_approves_followers: Some(actor.is_locked),
        suspended: Some(actor.is_suspended),
    }
}

/// The actor to be stored for a document, given the domain it lives at, its
/// name in the Unicode form and its key.
pub open spec fn new_actor_of(
    actor: ActorView,
    domain: Seq<char>,
    username: Seq<char>,
    public_key_pem: Seq<char>,
) -> NewActorView {
    NewActorView {
        uri: actor.id,
        url: Some(actor.url),
        kind: actor.kind,
        username,
        domain,
        name: actor.name,
        summary: actor.summary,
        avatar_url: match actor.icon {
            Some(url) => url,
            None => None,
        },
        inbox_uri: actor.inbox,
        outbox_uri: actor.outbox,
        followers_uri: actor.followers,
        following_uri: actor.following,
        public_key_pem,
        created_at: None,
        updated_at: None,
        lang: "und"@,
        is_locked: match actor.manually_approves_followers {
            Some(locked) => locked,
            None => false,
        },
        is_suspended: match actor.suspended {
            Some(suspended) => suspended,
            None => false,
        },
        is_silenced: false,
    }
}

/// The actor to be stored for a document, given the host of its id and its
/// name in the Unicode form: `InvalidForm` where the id has no host or the
/// key is not the actor's own.
pub open spec fn new_actor_from_parts(
    actor: ActorView,
    id_domain: Option<Seq<char>>,
    username: Seq<char>,
) -> Result<NewActorView, ActionError> {
    match (id_domain, spec_public_key_pem(actor)) {
        (Some(domain), Some(pem)) => Ok(new_actor_of(actor, domain, username, pem)),
        _ => Err(ActionError::InvalidForm),
    }
}

/// The actor to be stored for a fetched document.
pub open spec fn spec_try_from(actor: ActorView) -> Result<NewActorView, ActionError> {
    new_actor_from_parts(actor, url_host(actor.id), unicode_domain(actor.preferred_username))
}

/// The actor to be stored for a fetched document whose account was found by
/// WebFinger: the domain of the account stands in place of the host of the id.
pub open spec fn spec_try_from_webfinger(actor: ActorView, account_domain: Seq<char>) -> Result<
    NewActorView,
    ActionError,
> {
    match spec_try_from(actor) {
        Ok(new_actor) => Ok(NewActorView { domain: account_domain, ..new_actor }),
        Err(e) => Err(e),
    }
}

impl Actor {
    pub fn get_public_key_pem(&self) -> (r: Option<String>)
        ensures
            text_view(r) == spec_public_key_pem(self@),
    {
        let owned = match &self.public_key.owner {
            Some(owner) => *owner == self.id,
            None => false,
        };
        let expected = concat(self.id.as_str(), "#main-key");
        let named = match &self.public_key.id {
            Some(id) => *id == expected,
            None => false,
        };
        if owned && named {
            clone_text(&self.public_key.public_key_pem)
        } else {
            None
        }
    }

    /// The document of an actor of the store.
    pub fn from(actor_db: &crate::db::models::actor::Actor) -> (r: Actor)
        ensures
            r@ == actor_document(actor_db@),
    {
        let url = match &actor_db.url {
            Some(s) => s.clone(),
            None => actor_db.uri.clone(),
        };
        let shared_inbox = concat(concat("https://", actor_db.domain.as_str()).as_str(), "/inbox");
        Actor {
            kind: actor_db.kind.clone(),
            id: actor_db.uri.clone(),
            url,
            preferred_username: username_to_idna(actor_db.username.as_str()),
            name: empty_string_or_none(actor_db.name.clone()),
            summary: empty_string_or_none(actor_db.summary.clone()),
            following: clone_text(&actor_db.following_uri),
            followers: clone_text(&actor_db.followers_uri),
            inbox: actor_db.inbox_uri.clone(),
            outbox: actor_db.outbox_uri.clone(),
            public_key: PublicKey {
                id: Some(concat(actor_db.uri.as_str(), "#main-key")),
                owner: Some(actor_db.uri.clone()),
                public_key_pem: Some(actor_db.public_key_pem.clone()),
            },
            endpoints: Some(Endpoints { shared_inbox: Some(shared_inbox) }),
            manually_approves_followers: Some(actor_db.is_locked),
            icon: Some(Image { url: Some(actor_db.avatar_url.clone()) }),
            suspended: Some(actor_db.is_suspended),
        }
    }
}

impl NewActor {
    /// The actor to be stored for a document, given the host of its id and
    /// its name in the Unicode form.
    pub fn from_parts(actor_ap: &Actor, id_domain: Option<String>, username: String) -> (r: Result<
        NewActor,
        ActionError,
    >)
        ensures
            match r {
                Ok(new_actor) => new_actor_from_parts(actor_ap@, text_view(id_domain), username@)
                    == Ok::<NewActorView, ActionError>(new_actor@),
                Err(e) => new_actor_from_parts(actor_ap@, text_view(id_domain), username@)
                    == Err::<NewActorView, ActionError>(e),
            },
    {
        let domain = match id_domain {
            Some(domain) => domain,
            None => {
                return Err(ActionError::InvalidForm);
            },
        };
        let avatar_url = match &actor_ap.icon {
            Some(image) => clone_text(&image.url),
            None => None,
        };
        let is_locked = match actor_ap.manually_approves_followers {
            Some(locked) => locked,
            None => false,
        };
        let is_suspended = match actor_ap.suspended {
            Some(suspended) => suspended,
            None => false,
        };
        let public_key_pem = match actor_ap.get_public_key_pem() {
            Some(pem) => pem,
            None => {
                return Err(ActionError::InvalidForm);
            },
        };
        Ok(
            NewActor {
                uri: actor_ap.id.clone(),
                url: Some(actor_ap.url.clone()),
                kind: actor_ap.kind.clone(),
                username,
                domain,
                name: clone_text(&actor_ap.name),
                summary: clone_text(&actor_ap.summary),
                avatar_url,
                inbox_uri: actor_ap.inbox.clone(),
                outbox_uri: actor_ap.outbox.clone(),
                followers_uri: clone_text(&actor_ap.followers),
                following_uri: clone_text(&actor_ap.following),
                created_at: None,
                updated_at: None,
                public_key_pem,
                lang: String::from_str("und"),
                is_locked,
                is_suspended,
                is_silenced: false,
            },
        )
    }

    /// The actor to be stored for a fetched document. A document whose key
    /// names another owner than the actor itself is turned down.
    pub fn try_from(actor_ap: &Actor) -> (r: Result<NewActor, ActionError>)
        ensures
            match r {
                Ok(new_actor) => spec_try_from(actor_ap@) == Ok::<NewActorView, ActionError>(
                    new_actor@,
                ),
                Err(e) => spec_try_from(actor_ap@) == Err::<NewActorView, ActionError>(e),
            },
            actor_ap@.public_key.owner != Some(actor_ap@.id) ==> r matches Err(
                ActionError::InvalidForm,
            ),
    {
        let id_domain = host_of(actor_ap.id.as_str());
        let username = idna_to_username(actor_ap.preferred_username.as_str());
        NewActor::from_parts(actor_ap, id_domain, username)
    }

    /// The actor to be stored for a fetched document whose account was found
    /// by WebFinger.
    pub fn try_from_webfinger(actor_ap: &Actor, info: &WebfingerInfo) -> (r: Result<
        NewActor,
        ActionError,
    >)
        ensures
            match r {
                Ok(new_actor) => spec_try_from_webfinger(actor_ap@, info.acct.domain@) == Ok::<
                    NewActorView,
                    ActionError,
                >(new_actor@),
                Err(e) => spec_try_from_webfinger(actor_ap@, info.acct.domain@) == Err::<
                    NewActorView,
                    ActionError,
                >(e),
            },
            actor_ap@.public_key.owner != Some(actor_ap@.id) ==> r matches Err(
                ActionError::InvalidForm,
            ),
    {
        let mut new_actor = NewActor::try_from(actor_ap)?;
        new_actor.domain = info.acct.domain.clone();
        Ok(new_actor)
    }
}

} // verus!

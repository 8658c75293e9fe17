//! Actors as the store holds them, and as they are handed to it.

use vstd::prelude::*;
use vstd::string::*;
use crate::apub::username::{spec_username_to_idna, username_to_idna};
use crate::clock::unix_now;
use crate::strings::{clone_text, concat, str_eq, text_view};

verus! {

/// An actor of the store. Times are seconds since the start of 1970.
#[derive(Debug, PartialEq)]
pub struct Actor {
    pub id: i64,
    pub uri: String,
    pub url: Option<String>,
    pub kind: String,
    pub username: String,
    pub domain: String,
    pub name: String,
    pub summary: String,
    pub avatar_url: String,
    pub inbox_uri: String,
    pub outbox_uri: String,
    pub followers_uri: Option<String>,
    pub following_uri: Option<String>,
    pub public_key_pem: String,
    pub created_at: i64,
    pub updated_at: Option<i64>,
    pub lang: String,
    pub is_locked: bool,
    pub is_suspended: bool,
    pub is_silenced: bool,
}

/// An actor of the store as plain values.
pub struct ActorView {
    pub id: i64,
    pub uri: Seq<char>,
    pub url: Option<Seq<char>>,
    pub kind: Seq<char>,
    pub username: Seq<char>,
    pub domain: Seq<char>,
    pub name: Seq<char>,
    pub summary: Seq<char>,
    pub avatar_url: Seq<char>,
    pub inbox_uri: Seq<char>,
    pub outbox_uri: Seq<char>,
    pub followers_uri: Option<Seq<char>>,
    pub following_uri: Option<Seq<char>>,
    pub public_key_pem: Seq<char>,
    pub created_at: i64,
    pub updated_at: Option<i64>,
    pub lang: Seq<char>,
    pub is_locked: bool,
    pub is_suspended: bool,
    pub is_silenced: bool,
}

impl View for Actor {
    type V = ActorView;

    open spec fn view(&self) -> ActorView {
        ActorView {
            id: self.id,
            uri: self.uri@,
            url: text_view(self.url),
            kind: self.kind@,
            username: self.username@,
            domain: self.domain@,
            name: self.name@,
            summary: self.summary@,
            avatar_url: self.avatar_url@,
            inbox_uri: self.inbox_uri@,
            outbox_uri: self.outbox_uri@,
            followers_uri: text_view(self.followers_uri),
            following_uri: text_view(self.following_uri),
            public_key_pem: self.public_key_pem@,
            created_at: self.created_at,
            updated_at: self.updated_at,
            lang: self.lang@,
            is_locked: self.is_locked,
            is_suspended: self.is_suspended,
            is_silenced: self.is_silenced,
        }
    }
}

impl Actor {
    /// A copy with the same contents.
    pub fn duplicate(&self) -> (r: Actor)
        ensures
            r@ == self@,
    {
        Actor {
            id: self.id,
            uri: self.uri.clone(),
            url: clone_text(&self.url),
            kind: self.kind.clone(),
            username: self.username.clone(),
            domain: self.domain.clone(),
            name: self.name.clone(),
            summary: self.summary.clone(),
            avatar_url: self.avatar_url.clone(),
            inbox_uri: self.inbox_uri.clone(),
            outbox_uri: self.outbox_uri.clone(),
            followers_uri: clone_text(&self.followers_uri),
            following_uri: clone_text(&self.following_uri),
            public_key_pem: self.public_key_pem.clone(),
            created_at: self.created_at,
            updated_at: self.updated_at,
            lang: self.lang.clone(),
            is_locked: self.is_locked,
            is_suspended: self.is_suspended,
            is_silenced: self.is_silenced,
        }
    }
}
/// An actor that is to be stored.
#[derive(Debug, PartialEq)]
pub struct NewActor {
    pub uri: String,
    pub url: Option<String>,
    pub kind: String,
    pub username: String,
    pub domain: String,
    pub name: Option<String>,
    pub summary: Option<String>,
    pub avatar_url: Option<String>,
    pub inbox_uri: String,
    pub outbox_uri: String,
    pub followers_uri: Option<String>,
    pub following_uri: Option<String>,
    pub public_key_pem: String,
    pub created_at: Option<i64>,
    pub updated_at: Option<i64>,
    pub lang: String,
    pub is_locked: bool,
    pub is_suspended: bool,
    pub is_silenced: bool,
}

/// An actor that is to be stored, as plain values.
pub struct NewActorView {
    pub uri: Seq<char>,
    pub url: Option<Seq<char>>,
    pub kind: Seq<char>,
    pub username: Seq<char>,
    pub domain: Seq<char>,
    pub name: Option<Seq<char>>,
    pub summary: Option<Seq<char>>,
    pub avatar_url: Option<Seq<char>>,
    pub inbox_uri: Seq<char>,
    pub outbox_uri: Seq<char>,
    pub followers_uri: Option<Seq<char>>,
    pub following_uri: Option<Seq<char>>,
    pub public_key_pem: Seq<char>,
    pub created_at: Option<i64>,
    pub updated_at: Option<i64>,
    pub lang: Seq<char>,
    pub is_locked: bool,
    pub is_suspended: bool,
    pub is_silenced: bool,
}

impl View for NewActor {
    type V = NewActorView;

    open spec fn view(&self) -> NewActorView {
        NewActorView {
            uri: self.uri@,
            url: text_view(self.url),
            kind: self.kind@,
            username: self.username@,
            domain: self.domain@,
            name: text_view(self.name),
            summary: text_view(self.summary),
            avatar_url: text_view(self.avatar_url),
            inbox_uri: self.inbox_uri@,
            outbox_uri: self.outbox_uri@,
            followers_uri: text_view(self.followers_uri),
            following_uri: text_view(self.following_uri),
            public_key_pem: self.public_key_pem@,
            created_at: self.created_at,
            updated_at: self.updated_at,
            lang: self.lang@,
            is_locked: self.is_locked,
            is_suspended: self.is_suspended,
            is_silenced: self.is_silenced,
        }
    }
}

impl NewActor {
    /// A copy with the same contents.
    pub fn duplicate(&self) -> (r: NewActor)
        ensures
            r@ == self@,
    {
        NewActor {
            uri: self.uri.clone(),
            url: clone_text(&self.url),
            kind: self.kind.clone(),
            username: self.username.clone(),
            domain: self.domain.clone(),
            name: clone_text(&self.name),
            summary: clone_text(&self.summary),
            avatar_url: clone_text(&self.avatar_url),
            inbox_uri: self.inbox_uri.clone(),
            outbox_uri: self.outbox_uri.clone(),
            followers_uri: clone_text(&self.followers_uri),
            following_uri: clone_text(&self.following_uri),
            public_key_pem: self.public_key_pem.clone(),
            created_at: self.created_at,
            updated_at: self.updated_at,
            lang: self.lang.clone(),
            is_locked: self.is_locked,
            is_suspended: self.is_suspended,
            is_silenced: self.is_silenced,
        }
    }
}
/// The four kinds of actor.
#[derive(Debug, Clone, Copy, PartialEq, Eq, Structural)]
pub enum ActorType {
    Person,
    Service,
    Application,
    Group,
}

/// The kind that a kind text names; a text that names none counts as a person.
pub open spec fn spec_actor_type(kind: Seq<char>) -> ActorType {
    if kind == "Service"@ {
        ActorType::Service
    } else if kind == "Application"@ {
        ActorType::Application
    } else if kind == "Group"@ {
        ActorType::Group
    } else {
        ActorType::Person
    }
}

/// The text of a kind.
pub open spec fn spec_kind_text(actor_type: ActorType) -> Seq<char> {
    match actor_type {
        ActorType::Person => "Person"@,
        ActorType::Service => "Service"@,
        ActorType::Application => "Application"@,
        ActorType::Group => "Group"@,
    }
}

impl ActorType {
    /// The kind of an actor, read from its kind text.
    pub fn from(actor: &Actor) -> (r: ActorType)
        ensures
            r == spec_actor_type(actor.kind@),
    {
        let kind = actor.kind.as_str();
        if str_eq(kind, "Service") {
            ActorType::Service
        } else if str_eq(kind, "Application") {
            ActorType::Application
        } else if str_eq(kind, "Group") {
            ActorType::Group
        } else {
            ActorType::Person
        }
    }

    /// The text of the kind.
    pub fn as_str(&self) -> (r: &'static str)
        ensures
            r@ == spec_kind_text(*self),
    {
        match self {
            ActorType::Person => "Person",
            ActorType::Service => "Service",
            ActorType::Application => "Application",
            ActorType::Group => "Group",
        }
    }
}

/// No text.
pub open spec fn no_text() -> Seq<char> {
    Seq::<char>::empty()
}

/// What is known of a new actor of this server.
pub struct NewLocalActorBuilder<'a> {
    pub username: &'a str,
    pub domain: &'a str,
    pub lang: &'a str,
    pub actor_type: ActorType,
    pub public_key_pem: &'a str,
}

/// The part of the path under which a kind of actor lives.
pub open spec fn local_slug(actor_type: ActorType) -> Seq<char> {
    match actor_type {
        ActorType::Group => "communities"@,
        _ => "users"@,
    }
}

/// The URI of an actor of this server: `https://`, the domain, the part of
/// the path for its kind, and its name in the ASCII form.
pub open spec fn local_uri(domain: Seq<char>, username: Seq<char>, actor_type: ActorType) -> Seq<
    char,
> {
    "https://"@ + domain + "/"@ + local_slug(actor_type) + "/"@ + spec_username_to_idna(username)
}

/// The address of the profile page of an actor of this server: `https://`,
/// the domain, `/@` and the name as it is.
pub open spec fn local_url(domain: Seq<char>, username: Seq<char>) -> Seq<char> {
    "https://"@ + domain + "/@"@ + username
}

/// The new actor of this server with the given name, domain, kind and key,
/// stamped with a time if there is one. Its language is left open, as are
/// its name, summary and picture.
pub open spec fn local_actor(
    username: Seq<char>,
    domain: Seq<char>,
    actor_type: ActorType,
    public_key_pem: Seq<char>,
    stamp: Option<i64>,
) -> NewActorView {
    let uri = local_uri(domain, username, actor_type);
    NewActorView {
        uri,
        url: Some(local_url(domain, username)),
        kind: spec_kind_text(actor_type),
        username,
        domain,
        name: None,
        summary: None,
        avatar_url: None,
        inbox_uri: uri + "/inbox"@,
        outbox_uri: uri + "/outbox"@,
        followers_uri: Some(uri + "/followers"@),
        following_uri: match actor_type {
            ActorType::Group => None,
            _ => Some(uri + "/following"@),
        },
        public_key_pem,
        created_at: stamp,
        updated_at: stamp,
        lang: no_text(),
        is_locked: false,
        is_suspended: false,
        is_silenced: false,
    }
}

impl<'a> NewLocalActorBuilder<'a> {
    pub open spec fn spec_uri(&self) -> Seq<char> {
        local_uri(self.domain@, self.username@, self.actor_type)
    }

    pub open spec fn spec_url(&self) -> Seq<char> {
        local_url(self.domain@, self.username@)
    }

    /// The actor that is built, stamped with a time if there is one.
    pub open spec fn spec_build(&self, stamp: Option<i64>) -> NewActorView {
        local_actor(self.username@, self.domain@, self.actor_type, self.public_key_pem@, stamp)
    }

    /// The actor to be stored, stamped with the time `now`.
    pub fn build_at(&self, now: i64) -> (r: NewActor)
        ensures
            r@ == self.spec_build(Some(now)),
    {
        self.build_stamped(Some(now))
    }

    /// The actor to be stored, stamped with the time of the clock where it
    /// can be read.
    pub fn build(&self) -> (r: NewActor)
        ensures
            exists|stamp: Option<i64>| r@ == #[trigger] self.spec_build(stamp),
    {
        let stamp = match unix_now() {
            Some(now) => if now <= 0x7fff_ffff_ffff_ffff {
                Some(now as i64)
            } else {
                None
            },
            None => None,
        };
        self.build_stamped(stamp)
    }

    fn build_stamped(&self, stamp: Option<i64>) -> (r: NewActor)
        ensures
            r@ == self.spec_build(stamp),
    {
        NewActor {
            kind: String::from_str(self.actor_type.as_str()),
            username: String::from_str(self.username),
            domain: String::from_str(self.domain),
            uri: self.uri(),
            url: self.url(),
            name: None,
            summary: None,
            avatar_url: None,
            inbox_uri: self.inbox_uri(),
            outbox_uri: self.outbox_uri(),
            followers_uri: self.followers_uri(),
            following_uri: self.following_uri(),
            created_at: stamp,
            updated_at: stamp,
            public_key_pem: String::from_str(self.public_key_pem),
            lang: String::new(),
            is_locked: false,
            is_suspended: false,
            is_silenced: false,
        }
    }

    pub fn uri(&self) -> (r: String)
        ensures
            r@ == self.spec_uri(),
    {
        let slug = match &self.actor_type {
            ActorType::Group => "communities",
            _ => "users",
        };
        let mut out = String::from_str("https://");
        out.append(self.domain);
        out.append("/");
        out.append(slug);
        out.append("/");
        let name = username_to_idna(self.username);
        out.append(name.as_str());
        out
    }

    pub fn inbox_uri(&self) -> (r: String)
        ensures
            r@ == self.spec_uri() + "/inbox"@,
    {
        let uri = self.uri();
        concat(uri.as_str(), "/inbox")
    }

    pub fn outbox_uri(&self) -> (r: String)
        ensures
            r@ == self.spec_uri() + "/outbox"@,
    {
        let uri = self.uri();
        concat(uri.as_str(), "/outbox")
    }

    pub fn following_uri(&self) -> (r: Option<String>)
        ensures
            text_view(r) == match self.actor_type {
                ActorType::Group => None,
                _ => Some(self.spec_uri() + "/following"@),
            },
    {
        match &self.actor_type {
            ActorType::Group => None,
            _ => {
                let uri = self.uri();
                Some(concat(uri.as_str(), "/following"))
            },
        }
    }

    pub fn followers_uri(&self) -> (r: Option<String>)
        ensures
            text_view(r) == Some(self.spec_uri() + "/followers"@),
    {
        let uri = self.uri();
        Some(concat(uri.as_str(), "/followers"))
    }

    pub fn url(&self) -> (r: Option<String>)
        ensures
            text_view(r) == Some(self.spec_url()),
    {
        let mut out = String::from_str("https://");
        out.append(self.domain);
        out.append("/@");
        out.append(self.username);
        Some(out)
    }
}

} // verus!

use vstd::prelude::*;
use vstd::string::*;
use crate::apub::serializers::image::{ImageSerializer, SerializedImage};
use crate::db::models::actor::Actor;
use crate::strings::{clone_text, concat, text_view};

verus! {

pub struct ActorSerializer {
    actor: Actor,
}

/// An actor of the store as it is written in a document, with the fields
/// of the store as they stand.
#[derive(Debug, Clone, PartialEq, Eq)]
pub struct SerializedActor {
    pub id: String,
    pub kind: String,
    pub url: Option<String>,
    pub preferred_username: String,
    pub name: String,
    pub summary: String,
    pub manually_approves_followers: bool,
    pub public_key_id: String,
    pub public_key_owner: String,
    pub public_key_pem: String,
    pub shared_inbox: String,
    pub icon: SerializedImage,
}

impl ActorSerializer {
    pub closed spec fn actor(&self) -> Actor {
        self.actor
    }

    pub fn new(actor: Actor) -> (r: ActorSerializer)
        ensures
            r.actor() == actor,
    {
        ActorSerializer { actor }
    }

    pub fn serialize(&self) -> (r: SerializedActor)
        ensures
            r.id@ == self.actor().uri@,
            r.kind@ == self.actor().kind@,
            text_view(r.url) == text_view(self.actor().url),
            r.preferred_username@ == self.actor().username@,
            r.name@ == self.actor().name@,
            r.summary@ == self.actor().summary@,
            r.manually_approves_followers == self.actor().is_locked,
            r.public_key_id@ == self.actor().uri@ + "#main-key"@,
            r.public_key_owner@ == self.actor().uri@,
            r.public_key_pem@ == self.actor().public_key_pem@,
            r.shared_inbox@ == "https://"@ + self.actor().domain@ + "/inbox"@,
            r.icon.kind@ == "Image"@,
            r.icon.url@ == self.actor().avatar_url@,
    {
        SerializedActor {
            id: self.actor.uri.clone(),
            kind: self.actor.kind.clone(),
            url: clone_text(&self.actor.url),
            preferred_username: self.actor.username.clone(),
            name: self.actor.name.clone(),
            summary: self.actor.summary.clone(),
            manually_approves_followers: self.actor.is_locked,
            public_key_id: concat(self.actor.uri.as_str(), "#main-key"),
            public_key_owner: self.actor.uri.clone(),
            public_key_pem: self.actor.public_key_pem.clone(),
            shared_inbox: self.get_shared_inbox(),
            icon: ImageSerializer::new(self.actor.avatar_url.as_str()).serialize(),
        }
    }

    fn get_shared_inbox(&self) -> (r: String)
        ensures
            r@ == "https://"@ + self.actor().domain@ + "/inbox"@,
    {
        concat(concat("https://", self.actor.domain.as_str()).as_str(), "/inbox")
    }
}

} // verus!

//! The accounts of this server.

use vstd::prelude::*;
use crate::strings::{clone_text, text_view};

verus! {

/// The account behind an actor of this server.
#[derive(Debug, PartialEq)]
pub struct User {
    pub actor_id: i64,
    pub email: Option<String>,
    pub is_email_verified: bool,
    pub password_hash: Option<String>,
    pub private_key_pem: String,
    pub register_ip: Option<String>,
    pub last_login_ip: Option<String>,
}

/// An account as plain values.
pub struct UserView {
    pub actor_id: i64,
    pub email: Option<Seq<char>>,
    pub is_email_verified: bool,
    pub password_hash: Option<Seq<char>>,
    pub private_key_pem: Seq<char>,
    pub register_ip: Option<Seq<char>>,
    pub last_login_ip: Option<Seq<char>>,
}

impl View for User {
    type V = UserView;

    open spec fn view(&self) -> UserView {
        UserView {
            actor_id: self.actor_id,
            email: text_view(self.email),
            is_email_verified: self.is_email_verified,
            password_hash: text_view(self.password_hash),
            private_key_pem: self.private_key_pem@,
            register_ip: text_view(self.register_ip),
            last_login_ip: text_view(self.last_login_ip),
        }
    }
}

impl User {
    /// A copy with the same contents.
    pub fn duplicate(&self) -> (r: User)
        ensures
            r@ == self@,
    {
        User {
            actor_id: self.actor_id,
            email: clone_text(&self.email),
            is_email_verified: self.is_email_verified,
            password_hash: clone_text(&self.password_hash),
            private_key_pem: self.private_key_pem.clone(),
            register_ip: clone_text(&self.register_ip),
            last_login_ip: clone_text(&self.last_login_ip),
        }
    }
}
} // verus!

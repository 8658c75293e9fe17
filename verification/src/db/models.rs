pub mod actor;
pub mod follow;
pub mod user;

use vstd::prelude::*;
use crate::db::models::actor::Actor;
use crate::db::models::user::User;

verus! {

/// An actor of this server with its account.
#[derive(Debug, PartialEq)]
pub struct UserActor {
    pub actor: Actor,
    pub user: User,
}

} // verus!

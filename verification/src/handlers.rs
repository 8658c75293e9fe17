//! What the server answers to a request.

pub mod apub;
pub mod webfinger;

use vstd::prelude::*;
use crate::errors::ActionError;

verus! {

/// A request that is turned down: without a word, as if nothing were at its
/// address, or with the error of an action.
#[derive(Debug, Clone, Copy, PartialEq, Eq, Structural)]
pub enum Reject {
    NotFound,
    Custom(ActionError),
}

/// The HTTP status with which a request that is turned down is answered.
pub open spec fn spec_reject_status(reject: Reject) -> u16 {
    match reject {
        Reject::NotFound => 404,
        Reject::Custom(error) => crate::errors::spec_status_code(error),
    }
}

impl Reject {
    pub fn status_code(&self) -> (code: u16)
        ensures
            code == spec_reject_status(*self),
    {
        match self {
            Reject::NotFound => 404,
            Reject::Custom(error) => error.status_code(),
        }
    }
}

} // verus!

//! The kinds of failure of an action, and how each is answered.

use vstd::prelude::*;

verus! {

#[derive(Debug, Clone, Copy, PartialEq, Eq, Structural)]
pub enum ActionError {
    InternalError,
    NotFound,
    InsertError,
    InvalidForm,
    FetchError,
    NotAuthenticated,
}

pub type ActionResult<T> = Result<T, ActionError>;

/// The HTTP status with which an error is answered.
pub open spec fn spec_status_code(error: ActionError) -> u16 {
    match error {
        ActionError::NotAuthenticated => 401,
        ActionError::NotFound => 404,
        ActionError::InvalidForm => 422,
        _ => 500,
    }
}

/// The words of an error.
pub open spec fn spec_message(error: ActionError) -> Seq<char> {
    match error {
        ActionError::InternalError => "internal error"@,
        ActionError::NotFound => "not found"@,
        ActionError::InsertError => "insert error"@,
        ActionError::InvalidForm => "invalid form"@,
        ActionError::FetchError => "fetch error"@,
        ActionError::NotAuthenticated => "not authenticated"@,
    }
}

/// The name under which an error is written in an answer.
pub open spec fn spec_tag(error: ActionError) -> Seq<char> {
    match error {
        ActionError::InternalError => "InternalError"@,
        ActionError::NotFound => "NotFound"@,
        ActionError::InsertError => "InsertError"@,
        ActionError::InvalidForm => "InvalidForm"@,
        ActionError::FetchError => "FetchError"@,
        ActionError::NotAuthenticated => "NotAuthenticated"@,
    }
}

impl ActionError {
    /// The HTTP status with which the error is answered: 401 for a sender
    /// that is not authenticated, 404 for what was not found, 422 for a
    /// malformed input, 500 for everything else.
    pub fn status_code(&self) -> (code: u16)
        ensures
            code == spec_status_code(*self),
    {
        match self {
            ActionError::NotAuthenticated => 401,
            ActionError::NotFound => 404,
            ActionError::InvalidForm => 422,
            _ => 500,
        }
    }

    /// The words of the error.
    pub fn message(&self) -> (text: &'static str)
        ensures
            text@ == spec_message(*self),
    {
        match self {
            ActionError::InternalError => "internal error",
            ActionError::NotFound => "not found",
            ActionError::InsertError => "insert error",
            ActionError::InvalidForm => "invalid form",
            ActionError::FetchError => "fetch error",
            ActionError::NotAuthenticated => "not authenticated",
        }
    }

    /// The name under which the error is written in an answer.
    pub fn tag(&self) -> (text: &'static str)
        ensures
            text@ == spec_tag(*self),
    {
        match self {
            ActionError::InternalError => "InternalError",
            ActionError::NotFound => "NotFound",
            ActionError::InsertError => "InsertError",
            ActionError::InvalidForm => "InvalidForm",
            ActionError::FetchError => "FetchError",
            ActionError::NotAuthenticated => "NotAuthenticated",
        }
    }
}

} // verus!

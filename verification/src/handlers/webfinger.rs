//! The WebFinger endpoint.

use vstd::prelude::*;
use crate::apub::webfinger::{
    get_webfinger as render, webfinger_document, webfinger_subject, WebfingerDocument,
};
use crate::db::Database;
use crate::errors::ActionError;

verus! {

/// The content type of a WebFinger answer.
pub const WEBFINGER_CONTENT_TYPE: &'static str = "application/jrd+json; charset=utf-8";

/// The query of a WebFinger request.
#[derive(Debug, Clone, PartialEq, Eq)]
pub struct WebfingerResource {
    pub resource: String,
}

/// An answer to a WebFinger request: the document, or the error with its status.
#[derive(Debug, Clone, PartialEq, Eq)]
pub enum WebfingerReply {
    Document(WebfingerDocument),
    Failed(u16, ActionError),
}

/// Answers a WebFinger request: the document of the actor that the resource
/// names, or `NotFound` with its status.
pub fn get_webfinger(db: &Database, webfinger_resource: WebfingerResource) -> (r: WebfingerReply)
    ensures
        match webfinger_subject(db.actors(), webfinger_resource.resource@) {
            Some(actor) => r matches WebfingerReply::Document(document) && document@
                == webfinger_document(actor@),
            None => r == WebfingerReply::Failed(404, ActionError::NotFound),
        },
{
    match render(db, webfinger_resource.resource.as_str()) {
        Ok(document) => WebfingerReply::Document(document),
        Err(error) => WebfingerReply::Failed(error.status_code(), error),
    }
}

} // verus!

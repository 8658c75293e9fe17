//! The host of an absolute URL.

use vstd::prelude::*;
use crate::strings::text_view;

verus! {

/// The host of a text that is an absolute URL with a host.
pub uninterp spec fn url_host(text: Seq<char>) -> Option<Seq<char>>;

/// `Url::parse` of the `url` crate, and `Url::host_str` on what it gives:
/// the host of an absolute URL as text, `None` where the text is no absolute
/// URL or the URL has no host. The result is named.
#[verifier::external_body]
pub(crate) fn host_of(text: &str) -> (r: Option<String>)
    ensures
        text_view(r) == url_host(text@),
{
    match url::Url::parse(text) {
        Ok(parsed) => parsed.host_str().map(String::from),
        Err(_) => None,
    }
}

} // verus!

//! The tests that a text must pass before it is stored.

use vstd::prelude::*;

verus! {

/// Whether a text is an absolute URL.
pub uninterp spec fn url_parses(text: Seq<char>) -> bool;

/// A control character: one of the two ranges that Unicode calls `Cc`.
pub open spec fn is_control(c: char) -> bool {
    c <= '\u{1f}' || ('\u{7f}' <= c && c <= '\u{9f}')
}

pub open spec fn no_control_character(text: Seq<char>) -> bool {
    forall|i: int| 0 <= i < text.len() ==> !is_control(#[trigger] text[i])
}

/// `validator::validate_url`: whether the `url` crate can read the text as an
/// absolute URL. The result is named.
#[verifier::external_body]
pub(crate) fn validate_url(text: &str) -> (r: bool)
    ensures
        r == url_parses(text@),
{
    validator::validate_url(text)
}

/// `validator::validate_non_control_character`: whether no character of the
/// text is a control character, by the table of the `unic` crates, which
/// holds the two ranges U+0000 to U+001F and U+007F to U+009F.
#[verifier::external_body]
pub(crate) fn validate_non_control_character(text: &str) -> (r: bool)
    ensures
        r == no_control_character(text@),
{
    validator::validate_non_control_character(text)
}

} // verus!

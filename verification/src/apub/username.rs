//! Names between their Unicode form, which is shown, and their ASCII form,
//! which goes over the wire.

use vstd::prelude::*;
use vstd::string::*;
use crate::strings::text_view;

verus! {

/// The ASCII form of a name, where it has one.
pub uninterp spec fn ascii_domain(text: Seq<char>) -> Option<Seq<char>>;

/// The Unicode form of a name.
pub uninterp spec fn unicode_domain(text: Seq<char>) -> Seq<char>;

/// The longest name, in characters, that is handed to the conversion to ASCII.
///
/// The Punycode encoder counts in `u32`, and its count stays in range for a
/// label of at most 3854 characters, whatever they are. A label reaches the
/// encoder after mapping, which writes one character as up to 18, and after
/// normalising, which writes one as up to 4 before it composes: a name of 53
/// characters gives labels of at most 3816.
pub open spec fn max_idna_len() -> int {
    53
}

/// `idna::domain_to_ascii`: the ASCII form of a domain name by UTS #46, or
/// an error. The result is named. A longer name than `max_idna_len` is left
/// out: on some of them the encoder's count passes `u32`, which stops a
/// program that is built to trap overflow.
#[verifier::external_body]
pub(crate) fn domain_to_ascii(domain: &str) -> (r: Option<String>)
    requires
        domain@.len() <= max_idna_len(),
    ensures
        text_view(r) == ascii_domain(domain@),
{
    idna::domain_to_ascii(domain).ok()
}

/// `idna::domain_to_unicode`: the Unicode form of a domain name by UTS #46.
/// The function always gives a text, beside a note of what it found wrong;
/// the text is named and the note is dropped.
#[verifier::external_body]
pub(crate) fn domain_to_unicode(domain: &str) -> (r: String)
    ensures
        r@ == unicode_domain(domain@),
{
    idna::domain_to_unicode(domain).0
}

/// The wire form of a name: its ASCII form, or the name itself where it has
/// none or is longer than `max_idna_len`.
pub open spec fn spec_username_to_idna(username: Seq<char>) -> Seq<char> {
    if username.len() > max_idna_len() {
        username
    } else {
        match ascii_domain(username) {
            Some(ascii) => ascii,
            None => username,
        }
    }
}

/// The wire form of a name, given what the conversion to ASCII gave.
pub fn ascii_or_given(username: &str, converted: Option<String>) -> (r: String)
    ensures
        r@ == match text_view(converted) {
            Some(ascii) => ascii,
            None => username@,
        },
{
    match converted {
        Some(ascii) => ascii,
        None => String::from_str(username),
    }
}

/// The wire form of a name. A name longer than `max_idna_len` is given back
/// as it is, without an attempt to convert it.
pub fn username_to_idna(username: &str) -> (r: String)
    ensures
        r@ == spec_username_to_idna(username@),
        username@.len() > max_idna_len() ==> r@ == username@,
{
    if username.unicode_len() > 53 {
        String::from_str(username)
    } else {
        ascii_or_given(username, domain_to_ascii(username))
    }
}

/// The display form of a wire name.
pub fn idna_to_username(idna: &str) -> (r: String)
    ensures
        r@ == unicode_domain(idna@),
{
    domain_to_unicode(idna)
}

} // verus!

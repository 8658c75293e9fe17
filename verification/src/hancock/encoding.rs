//! Base64 text of signature bytes.

use vstd::prelude::*;

verus! {

#[verifier::external_type_specification]
#[verifier::external_body]
pub struct ExDecodeError(base64::DecodeError);

/// The standard Base64 text, with padding, of a run of bytes.
pub uninterp spec fn base64_encoded(bytes: Seq<u8>) -> Seq<char>;

/// The bytes that a Base64 text stands for; `None` for a text that is none.
pub uninterp spec fn base64_decoded(text: Seq<char>) -> Option<Seq<u8>>;

/// A character of the standard Base64 alphabet, or the padding sign.
pub open spec fn is_base64_char(c: char) -> bool {
    ||| ('A' <= c && c <= 'Z')
    ||| ('a' <= c && c <= 'z')
    ||| ('0' <= c && c <= '9')
    ||| c == '+'
    ||| c == '/'
    ||| c == '='
}

pub open spec fn all_base64_chars(s: Seq<char>) -> bool {
    forall|i: int| 0 <= i < s.len() ==> is_base64_char(#[trigger] s[i])
}

/// `base64::decode`: reads standard Base64 with padding. The result is named,
/// not stated. The length sums inside cannot overflow for a text that is in
/// memory.
#[verifier::external_body]
pub(crate) fn base64_decode(text: &str) -> (r: Result<Vec<u8>, base64::DecodeError>)
    ensures
        match r {
            Ok(bytes) => base64_decoded(text@) == Some(bytes@),
            Err(_) => base64_decoded(text@) is None,
        },
{
    base64::decode(text)
}

/// `base64::encode_config_buf` with the standard alphabet and padding, into a
/// fresh text. The result is named. The contract also claims what the crate's
/// tables show: that the text is made of the 64 characters of the alphabet and
/// the padding sign, and that decoding it gives the bytes back.
#[verifier::external_body]
pub(crate) fn base64_encode(bytes: &[u8]) -> (r: String)
    ensures
        r@ == base64_encoded(bytes@),
        all_base64_chars(r@),
        base64_decoded(r@) == Some(bytes@),
{
    let mut out = String::new();
    base64::encode_config_buf(bytes, base64::STANDARD, &mut out);
    out
}

} // verus!

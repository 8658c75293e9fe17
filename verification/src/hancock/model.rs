//! The mathematical model of a signature and of the names it signs.

use vstd::prelude::*;
use crate::hancock::headers::canonical_name;

verus! {

/// A name in the list of signed headers: one of the three names that stand
/// for a part of the request or of the signature itself, or the name of a
/// header of the request.
pub enum HeaderNameView {
    RequestTarget,
    Created,
    Expires,
    NormalHeader(Seq<char>),
}

/// A signature as plain values.
pub struct SignatureView {
    pub algorithm: Option<Seq<char>>,
    pub created: Option<u64>,
    pub expires: Option<u64>,
    pub headers: Option<Seq<HeaderNameView>>,
    pub key_id: Option<Seq<char>>,
    pub signature: Seq<u8>,
}

/// How a name is written in a header.
pub open spec fn name_text(name: HeaderNameView) -> Seq<char> {
    match name {
        HeaderNameView::RequestTarget => "(request-target)"@,
        HeaderNameView::Created => "(created)"@,
        HeaderNameView::Expires => "(expires)"@,
        HeaderNameView::NormalHeader(text) => text,
    }
}

/// The name that a text of a header stands for, if any: one of the three
/// names in brackets, or else a header name, taken in lower case.
pub open spec fn spec_header_name(text: Seq<char>) -> Option<HeaderNameView> {
    if text == "(request-target)"@ {
        Some(HeaderNameView::RequestTarget)
    } else if text == "(created)"@ {
        Some(HeaderNameView::Created)
    } else if text == "(expires)"@ {
        Some(HeaderNameView::Expires)
    } else {
        match canonical_name(text) {
            Some(name) => Some(HeaderNameView::NormalHeader(name)),
            None => None,
        }
    }
}

/// The names that a list of texts stands for; `None` if one of them is no name.
pub open spec fn names_of(pieces: Seq<Seq<char>>) -> Option<Seq<HeaderNameView>>
    decreases pieces.len(),
{
    if pieces.len() == 0 {
        Some(Seq::<HeaderNameView>::empty())
    } else {
        match (names_of(pieces.drop_last()), spec_header_name(pieces.last())) {
            (Some(head), Some(name)) => Some(head.push(name)),
            _ => None,
        }
    }
}

pub proof fn lemma_names_of_push(pieces: Seq<Seq<char>>, piece: Seq<char>)
    ensures
        names_of(pieces.push(piece)) == match (names_of(pieces), spec_header_name(piece)) {
            (Some(head), Some(name)) => Some(head.push(name)),
            _ => None,
        },
{
    assert(pieces.push(piece).drop_last() =~= pieces);
}

} // verus!

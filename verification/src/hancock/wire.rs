//! What a `Signature` header says: the text of a signature and its reading.

use vstd::prelude::*;
use crate::hancock::chars::{all_visible_ascii, join, split, unquote};
use crate::hancock::encoding::{base64_decoded, base64_encoded};
use crate::hancock::headers::canonical_name;
use crate::hancock::model::{name_text, names_of, HeaderNameView, SignatureView};
use crate::hancock::number::{decimal, spec_parse_u64};
use crate::hancock::ParseError;

verus! {

/// The parameters read so far from a header.
pub struct FieldsView {
    pub algorithm: Option<Seq<char>>,
    pub created: Option<u64>,
    pub expires: Option<u64>,
    pub headers: Option<Seq<HeaderNameView>>,
    pub key_id: Option<Seq<char>>,
    pub signature: Option<Seq<u8>>,
}

pub open spec fn no_fields() -> FieldsView {
    FieldsView {
        algorithm: None,
        created: None,
        expires: None,
        headers: None,
        key_id: None,
        signature: None,
    }
}

/// The parameters after one more `key=value` segment. The value loses one
/// pair of surrounding quotes. A key that is not known changes nothing, and a
/// key that comes again replaces what it gave before.
pub open spec fn apply_field(fields: FieldsView, segment: Seq<char>) -> Result<
    FieldsView,
    ParseError,
> {
    match segment.index_of_first('=') {
        None => Err(ParseError::MissingEquals),
        Some(at) => {
            let key = segment.subrange(0, at);
            let value = unquote(segment.subrange(at + 1, segment.len() as int));
            if key == "algorithm"@ {
                match canonical_name(value) {
                    Some(name) => Ok(FieldsView { algorithm: Some(name), ..fields }),
                    None => Err(ParseError::InvalidCharacters),
                }
            } else if key == "created"@ {
                match spec_parse_u64(value) {
                    Some(n) => Ok(FieldsView { created: Some(n), ..fields }),
                    None => Err(ParseError::Number),
                }
            } else if key == "expires"@ {
                match spec_parse_u64(value) {
                    Some(n) => Ok(FieldsView { expires: Some(n), ..fields }),
                    None => Err(ParseError::Number),
                }
            } else if key == "headers"@ {
                match names_of(split(value, ' ')) {
                    Some(names) => Ok(FieldsView { headers: Some(names), ..fields }),
                    None => Err(ParseError::InvalidCharacters),
                }
            } else if key == "keyId"@ {
                Ok(FieldsView { key_id: Some(value), ..fields })
            } else if key == "signature"@ {
                match base64_decoded(value) {
                    Some(bytes) => Ok(FieldsView { signature: Some(bytes), ..fields }),
                    None => Err(ParseError::Base64),
                }
            } else {
                Ok(fields)
            }
        },
    }
}

/// The parameters that a list of segments gives, read from the first to the
/// last; the first segment that cannot be read decides the error.
pub open spec fn read_fields(segments: Seq<Seq<char>>) -> Result<FieldsView, ParseError>
    decreases segments.len(),
{
    if segments.len() == 0 {
        Ok(no_fields())
    } else {
        match read_fields(segments.drop_last()) {
            Ok(fields) => apply_field(fields, segments.last()),
            Err(e) => Err(e),
        }
    }
}

/// The signature that the parameters make; the signature bytes must be there.
pub open spec fn finish(fields: FieldsView) -> Result<SignatureView, ParseError> {
    match fields.signature {
        Some(signature) => Ok(
            SignatureView {
                algorithm: fields.algorithm,
                created: fields.created,
                expires: fields.expires,
                headers: fields.headers,
                key_id: fields.key_id,
                signature,
            },
        ),
        None => Err(ParseError::MissingSignature),
    }
}

/// The reading of a `Signature` header value. The value must be visible
/// ASCII; it is cut at every comma, and each piece is a `key=value` segment.
pub open spec fn spec_parse(value: Seq<char>) -> Result<SignatureView, ParseError> {
    if !all_visible_ascii(value) {
        Err(ParseError::InvalidCharacters)
    } else {
        match read_fields(split(value, ',')) {
            Ok(fields) => finish(fields),
            Err(e) => Err(e),
        }
    }
}

pub proof fn lemma_read_fields_push(segments: Seq<Seq<char>>, segment: Seq<char>)
    ensures
        read_fields(segments.push(segment)) == match read_fields(segments) {
            Ok(fields) => apply_field(fields, segment),
            Err(e) => Err(e),
        },
{
    assert(segments.push(segment).drop_last() =~= segments);
}

/// The texts of a list of names.
pub open spec fn name_texts(names: Seq<HeaderNameView>) -> Seq<Seq<char>> {
    names.map_values(|name: HeaderNameView| name_text(name))
}

/// The value of the `headers` parameter: the names with a space between
/// them, or `(created)` for a signature that lists none.
pub open spec fn headers_text(headers: Option<Seq<HeaderNameView>>) -> Seq<char> {
    match headers {
        Some(names) => join(name_texts(names), " "@),
        None => "(created)"@,
    }
}

pub open spec fn algorithm_param(algorithm: Option<Seq<char>>) -> Seq<char> {
    match algorithm {
        Some(name) => ",algorithm="@ + name,
        None => Seq::<char>::empty(),
    }
}

pub open spec fn created_param(created: Option<u64>) -> Seq<char> {
    match created {
        Some(n) => ",created="@ + decimal(n as nat),
        None => Seq::<char>::empty(),
    }
}

pub open spec fn expires_param(expires: Option<u64>) -> Seq<char> {
    match expires {
        Some(n) => ",expires="@ + decimal(n as nat),
        None => Seq::<char>::empty(),
    }
}

pub open spec fn key_id_param(key_id: Option<Seq<char>>) -> Seq<char> {
    match key_id {
        Some(id) => ",keyId=\""@ + id + "\""@,
        None => Seq::<char>::empty(),
    }
}

pub open spec fn signature_param(signature: Seq<u8>) -> Seq<char> {
    ",signature=\""@ + base64_encoded(signature) + "\""@
}

/// The header value of a signature: the parameters `headers`, `algorithm`,
/// `created`, `expires`, `keyId` and `signature` in this order, those that
/// the signature lacks left out.
pub open spec fn spec_to_header(sig: SignatureView) -> Seq<char> {
    "headers=\""@ + headers_text(sig.headers) + "\""@ + algorithm_param(sig.algorithm)
        + created_param(sig.created) + expires_param(sig.expires) + key_id_param(sig.key_id)
        + signature_param(sig.signature)
}

} // verus!

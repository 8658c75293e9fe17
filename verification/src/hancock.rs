//! HTTP Signature handling: reading a `Signature` header, writing one, making
//! a signature over a request and checking one.

pub mod canonical;
pub mod chars;
pub mod encoding;
pub mod headers;
pub mod laws;
pub mod model;
pub mod number;
pub mod roundtrip;
pub mod wire;

use vstd::prelude::*;
use vstd::string::*;
use vstd::utf8::*;
use http::header::HeaderValue;
use http::HeaderMap;
use crate::hancock::canonical::{
    create_body, created_signature, entry_names, header_lines, legacy_body, legacy_signature,
    lemma_lines_joined_none, lemma_lines_joined_push, lines_joined, push_created_line,
    push_expires_line, push_header_line, push_request_target, push_text, signed_values_valid,
    signing_input, values_valid, expired,
};
use crate::clock::unix_now;
use crate::hancock::chars::{
    ascii_eq, ascii_len, check_visible_ascii, find_ascii, join, parse_maybe_quoted, piece_views,
    split, split_ascii,
};
use crate::hancock::encoding::{base64_decode, base64_encode, base64_encoded};
use crate::hancock::headers::{
    all_value_bytes, header_entries, header_name_text, header_present, header_values,
    lemma_values_of_entry, names_in_order, names_wf, values_for, values_present, values_view,
    HeaderEntries,
};
use crate::hancock::model::{
    lemma_names_of_push, name_text, names_of, spec_header_name, HeaderNameView, SignatureView,
};
use crate::hancock::number::{decimal, parse_u64, push_decimal};
use crate::hancock::roundtrip::{base64_reads_back, lemma_header_roundtrip, wire_safe};
use crate::strings::text_view;
use crate::hancock::wire::{
    algorithm_param, apply_field, created_param, expires_param, headers_text, key_id_param,
    lemma_read_fields_push, name_texts, read_fields, signature_param, spec_parse, spec_to_header,
    FieldsView,
};

verus! {

/// Errors that may be produced when parsing a signature header
#[derive(Debug, Clone, Copy, PartialEq, Eq, Structural)]
pub enum ParseError {
    /// A parameter pair did not contain `=`
    MissingEquals,
    /// Didn't find a signature in the header
    MissingSignature,
    /// A parameter contained invalid characters
    InvalidCharacters,
    /// Failed to parse a number
    Number,
    /// Signature field was not valid Base64
    Base64,
}

/// Errors that may be produced when creating a signature
#[derive(Debug)]
pub enum SignError<T> {
    /// The clock could not be read.
    IO,
    /// A legacy signature was asked for a request without a Date header.
    MissingDate,
    /// The time at which the signature would expire is not representable.
    Lifetime,
    /// An error was returned from the provided `sign` function.
    User(T),
}

/// Errors that may be produced when verifying a signature
#[derive(Debug)]
pub enum VerifyError<T> {
    /// The clock could not be read.
    IO,
    /// An error was returned from the provided `verify` function.
    User(T),
}

/// A text that is no header name.
#[derive(Debug, Clone, Copy, PartialEq, Eq, Structural)]
pub struct InvalidHeaderName;

/// A name in the list of signed headers.
#[derive(Debug, Clone, PartialEq, Eq)]
pub enum SignatureHeaderName {
    /// The name `(request-target)`, which stands for the method and the path.
    RequestTarget,
    /// The name `(created)`, which stands for the time of signing.
    Created,
    /// The name `(expires)`, which stands for the time of expiry.
    Expires,
    /// The name of a header of the request.
    NormalHeader(String),
}

impl View for SignatureHeaderName {
    type V = HeaderNameView;

    open spec fn view(&self) -> HeaderNameView {
        match self {
            SignatureHeaderName::RequestTarget => HeaderNameView::RequestTarget,
            SignatureHeaderName::Created => HeaderNameView::Created,
            SignatureHeaderName::Expires => HeaderNameView::Expires,
            SignatureHeaderName::NormalHeader(name) => HeaderNameView::NormalHeader(name@),
        }
    }
}

impl SignatureHeaderName {
    /// Serialize to &str.
    pub fn as_str(&self) -> (r: &str)
        ensures
            r@ == name_text(self@),
    {
        match self {
            SignatureHeaderName::RequestTarget => "(request-target)",
            SignatureHeaderName::Created => "(created)",
            SignatureHeaderName::Expires => "(expires)",
            SignatureHeaderName::NormalHeader(header) => header.as_str(),
        }
    }

    /// Reads a name of the signed-headers list.
    pub fn from_str(src: &str) -> (r: Result<SignatureHeaderName, InvalidHeaderName>)
        ensures
            match r {
                Ok(name) => spec_header_name(src@) == Some(name@),
                Err(_) => spec_header_name(src@) is None,
            },
    {
        proof {
            reveal_strlit("(request-target)");
            reveal_strlit("(created)");
            reveal_strlit("(expires)");
        }
        if src.is_ascii() {
            if ascii_eq(src, "(request-target)") {
                return Ok(SignatureHeaderName::RequestTarget);
            }
            if ascii_eq(src, "(created)") {
                return Ok(SignatureHeaderName::Created);
            }
            if ascii_eq(src, "(expires)") {
                return Ok(SignatureHeaderName::Expires);
            }
        }
        match header_name_text(src) {
            Some(name) => Ok(SignatureHeaderName::NormalHeader(name)),
            None => Err(InvalidHeaderName),
        }
    }
}

/// The views of a list of names.
pub open spec fn names_view(names: Seq<SignatureHeaderName>) -> Seq<HeaderNameView> {
    names.map_values(|name: SignatureHeaderName| name@)
}

/// The view of an optional list of names.
pub open spec fn headers_view(headers: Option<Vec<SignatureHeaderName>>) -> Option<
    Seq<HeaderNameView>,
> {
    match headers {
        Some(names) => Some(names_view(names@)),
        None => None,
    }
}

/// A parsed or generated Signature.
#[derive(Debug, Clone, PartialEq, Eq)]
pub struct Signature {
    /// Signature hash algorithm.
    pub algorithm: Option<String>,
    /// (created) header.
    pub created: Option<u64>,
    /// (expires) header.
    pub expires: Option<u64>,
    /// (signed headers) header.
    pub headers: Option<Vec<SignatureHeaderName>>,
    /// keyId of HTTP Signatures.
    pub key_id: Option<String>,
    /// signature data.
    pub signature: Vec<u8>,
}

impl View for Signature {
    type V = SignatureView;

    open spec fn view(&self) -> SignatureView {
        SignatureView {
            algorithm: text_view(self.algorithm),
            created: self.created,
            expires: self.expires,
            headers: headers_view(self.headers),
            key_id: text_view(self.key_id),
            signature: self.signature@,
        }
    }
}

/// The parameters read so far from a header.
struct Fields {
    algorithm: Option<String>,
    created: Option<u64>,
    expires: Option<u64>,
    headers: Option<Vec<SignatureHeaderName>>,
    key_id: Option<String>,
    signature: Option<Vec<u8>>,
}

impl View for Fields {
    type V = FieldsView;

    closed spec fn view(&self) -> FieldsView {
        FieldsView {
            algorithm: text_view(self.algorithm),
            created: self.created,
            expires: self.expires,
            headers: headers_view(self.headers),
            key_id: text_view(self.key_id),
            signature: match self.signature {
                Some(bytes) => Some(bytes@),
                None => None,
            },
        }
    }
}

/// Reads the value of the `headers` parameter: names with one space between them.
fn read_names(value: &str) -> (r: Option<Vec<SignatureHeaderName>>)
    requires
        is_ascii_chars(value@),
    ensures
        match r {
            Some(names) => names_of(split(value@, ' ')) == Some(names_view(names@)),
            None => names_of(split(value@, ' ')) is None,
        },
{
    let pieces = split_ascii(value, 32);
    let ghost all = piece_views(pieces@);
    let mut names: Vec<SignatureHeaderName> = Vec::new();
    let mut ok = true;
    let mut k: usize = 0;
    proof {
        assert(all.take(0) =~= Seq::<Seq<char>>::empty());
        assert(names_view(names@) =~= Seq::<HeaderNameView>::empty());
    }
    while k < pieces.len()
        invariant
            k <= pieces.len(),
            all == piece_views(pieces@),
            names_of(all.take(k as int)) == (if ok {
                Some(names_view(names@))
            } else {
                None
            }),
        decreases pieces.len() - k,
    {
        proof {
            assert(all.take(k + 1) =~= all.take(k as int).push(pieces@[k as int]@));
            lemma_names_of_push(all.take(k as int), pieces@[k as int]@);
        }
        match SignatureHeaderName::from_str(pieces[k]) {
            Ok(name) => {
                if ok {
                    proof {
                        assert(names_view(names@.push(name)) =~= names_view(names@).push(name@));
                    }
                    names.push(name);
                }
            },
            Err(_) => {
                ok = false;
            },
        }
        k += 1;
    }
    proof {
        assert(all.take(pieces.len() as int) =~= all);
    }
    if ok {
        Some(names)
    } else {
        None
    }
}

/// Reads one `key=value` segment into the parameters.
fn read_field(fields: Fields, segment: &str) -> (r: Result<Fields, ParseError>)
    requires
        is_ascii_chars(segment@),
    ensures
        match r {
            Ok(next) => apply_field(fields@, segment@) == Ok::<FieldsView, ParseError>(next@),
            Err(e) => apply_field(fields@, segment@) == Err::<FieldsView, ParseError>(e),
        },
{
    let at = match find_ascii(segment, 61) {
        Some(at) => at,
        None => {
            return Err(ParseError::MissingEquals);
        },
    };
    proof {
        segment@.index_of_first_ensures('=');
        reveal_strlit("algorithm");
        reveal_strlit("created");
        reveal_strlit("expires");
        reveal_strlit("headers");
        reveal_strlit("keyId");
        reveal_strlit("signature");
    }
    let n = ascii_len(segment);
    let key = segment.substring_ascii(0, at);
    let value = parse_maybe_quoted(segment.substring_ascii(at + 1, n));
    let mut fields = fields;
    if ascii_eq(key, "algorithm") {
        match header_name_text(value) {
            Some(name) => {
                fields.algorithm = Some(name);
                Ok(fields)
            },
            None => Err(ParseError::InvalidCharacters),
        }
    } else if ascii_eq(key, "created") {
        match parse_u64(value) {
            Some(n) => {
                fields.created = Some(n);
                Ok(fields)
            },
            None => Err(ParseError::Number),
        }
    } else if ascii_eq(key, "expires") {
        match parse_u64(value) {
            Some(n) => {
                fields.expires = Some(n);
                Ok(fields)
            },
            None => Err(ParseError::Number),
        }
    } else if ascii_eq(key, "headers") {
        match read_names(value) {
            Some(names) => {
                fields.headers = Some(names);
                Ok(fields)
            },
            None => Err(ParseError::InvalidCharacters),
        }
    } else if ascii_eq(key, "keyId") {
        fields.key_id = Some(String::from_str(value));
        Ok(fields)
    } else if ascii_eq(key, "signature") {
        match base64_decode(value) {
            Ok(bytes) => {
                fields.signature = Some(bytes);
                Ok(fields)
            },
            Err(_) => Err(ParseError::Base64),
        }
    } else {
        Ok(fields)
    }
}

fn push_headers_text(out: &mut String, headers: &Option<Vec<SignatureHeaderName>>)
    ensures
        final(out)@ == old(out)@ + headers_text(headers_view(*headers)),
{
    match headers {
        Some(headers) => {
            let ghost texts = name_texts(names_view(headers@));
            let ghost prefix = out@;
            let mut idx: usize = 0;
            proof {
                assert(prefix + join(texts.take(0), " "@) =~= prefix);
            }
            while idx < headers.len()
                invariant
                    idx <= headers.len(),
                    texts == name_texts(names_view(headers@)),
                    out@ == prefix + join(texts.take(idx as int), " "@),
                decreases headers.len() - idx,
            {
                if idx != 0 {
                    out.append(" ");
                }
                out.append(headers[idx].as_str());
                proof {
                    let joined = join(texts.take(idx as int), " "@);
                    let text = name_text(headers@[idx as int]@);
                    assert(texts.take(idx + 1).drop_last() =~= texts.take(idx as int));
                    assert(texts.take(idx + 1).last() == text);
                    if idx == 0 {
                        assert(joined =~= Seq::<char>::empty());
                        assert(join(texts.take(1), " "@) == text);
                        assert(out@ =~= prefix + text);
                    } else {
                        assert(join(texts.take(idx + 1), " "@) == joined + " "@ + text);
                        assert(out@ =~= prefix + (joined + " "@ + text));
                    }
                }
                idx += 1;
            }
            proof {
                assert(texts.take(headers.len() as int) =~= texts);
            }
        },
        None => {
            out.append("(created)");
        },
    }
}

fn push_algorithm(out: &mut String, algorithm: &Option<String>)
    ensures
        final(out)@ == old(out)@ + algorithm_param(text_view(*algorithm)),
{
    if let Some(name) = algorithm {
        out.append(",algorithm=");
        out.append(name.as_str());
        assert(out@ =~= old(out)@ + (",algorithm="@ + name@));
    } else {
        assert(out@ =~= old(out)@ + Seq::<char>::empty());
    }
}

fn push_created(out: &mut String, created: Option<u64>)
    ensures
        final(out)@ == old(out)@ + created_param(created),
{
    if let Some(n) = created {
        out.append(",created=");
        push_decimal(out, n);
        assert(out@ =~= old(out)@ + (",created="@ + decimal(n as nat)));
    } else {
        assert(out@ =~= old(out)@ + Seq::<char>::empty());
    }
}

fn push_expires(out: &mut String, expires: Option<u64>)
    ensures
        final(out)@ == old(out)@ + expires_param(expires),
{
    if let Some(n) = expires {
        out.append(",expires=");
        push_decimal(out, n);
        assert(out@ =~= old(out)@ + (",expires="@ + decimal(n as nat)));
    } else {
        assert(out@ =~= old(out)@ + Seq::<char>::empty());
    }
}

fn push_key_id(out: &mut String, key_id: &Option<String>)
    ensures
        final(out)@ == old(out)@ + key_id_param(text_view(*key_id)),
{
    if let Some(id) = key_id {
        out.append(",keyId=\"");
        out.append(id.as_str());
        out.append("\"");
        assert(out@ =~= old(out)@ + (",keyId=\""@ + id@ + "\""@));
    } else {
        assert(out@ =~= old(out)@ + Seq::<char>::empty());
    }
}

fn push_signature(out: &mut String, signature: &Vec<u8>)
    ensures
        final(out)@ == old(out)@ + signature_param(signature@),
        base64_reads_back(signature@),
{
    out.append(",signature=\"");
    let text = base64_encode(signature.as_slice());
    out.append(text.as_str());
    out.append("\"");
    assert(out@ =~= old(out)@ + (",signature=\""@ + base64_encoded(signature@) + "\""@));
}

impl Signature {
    /// Parse a Signature header
    pub fn parse(value: &str) -> (r: Result<Signature, ParseError>)
        ensures
            match r {
                Ok(sig) => spec_parse(value@) == Ok::<SignatureView, ParseError>(sig@),
                Err(e) => spec_parse(value@) == Err::<SignatureView, ParseError>(e),
            },
    {
        if !check_visible_ascii(value) {
            return Err(ParseError::InvalidCharacters);
        }
        let segments = split_ascii(value, 44);
        let ghost all = piece_views(segments@);
        let mut state: Result<Fields, ParseError> = Ok(
            Fields {
                algorithm: None,
                created: None,
                expires: None,
                headers: None,
                key_id: None,
                signature: None,
            },
        );
        let mut k: usize = 0;
        proof {
            assert(all.take(0) =~= Seq::<Seq<char>>::empty());
        }
        while k < segments.len()
            invariant
                k <= segments.len(),
                all == piece_views(segments@),
                forall|i: int| 0 <= i < segments@.len() ==> is_ascii_chars((#[trigger] segments@[i])@),
                match state {
                    Ok(fields) => read_fields(all.take(k as int)) == Ok::<FieldsView, ParseError>(
                        fields@,
                    ),
                    Err(e) => read_fields(all.take(k as int)) == Err::<FieldsView, ParseError>(e),
                },
            decreases segments.len() - k,
        {
            proof {
                assert(all.take(k + 1) =~= all.take(k as int).push(segments@[k as int]@));
                lemma_read_fields_push(all.take(k as int), segments@[k as int]@);
            }
            state = match state {
                Ok(fields) => read_field(fields, segments[k]),
                Err(e) => Err(e),
            };
            k += 1;
        }
        proof {
            assert(all.take(segments.len() as int) =~= all);
        }
        let fields = match state {
            Ok(fields) => fields,
            Err(e) => {
                return Err(e);
            },
        };
        match fields.signature {
            Some(signature) => Ok(
                Signature {
                    algorithm: fields.algorithm,
                    created: fields.created,
                    expires: fields.expires,
                    headers: fields.headers,
                    key_id: fields.key_id,
                    signature,
                },
            ),
            None => Err(ParseError::MissingSignature),
        }
    }

    /// Create a Signature header value for the signature.
    pub fn to_header(&self) -> (r: String)
        ensures
            r@ == spec_to_header(self@),
            wire_safe(self@) ==> spec_parse(r@) == Ok::<SignatureView, ParseError>(self@),
    {
        let mut params = String::from_str("headers=\"");
        push_headers_text(&mut params, &self.headers);
        params.append("\"");
        push_algorithm(&mut params, &self.algorithm);
        push_created(&mut params, self.created);
        push_expires(&mut params, self.expires);
        push_key_id(&mut params, &self.key_id);
        push_signature(&mut params, &self.signature);
        proof {
            if wire_safe(self@) {
                lemma_header_roundtrip(self@);
            }
        }
        params
    }
}

/// The signing function, given `body`, may return the bytes `signature`.
pub open spec fn sign_gives<E, F: FnOnce(Vec<u8>) -> Result<Vec<u8>, E>>(
    sign: F,
    body: Seq<u8>,
    signature: Seq<u8>,
) -> bool {
    exists|b: Vec<u8>, s: Vec<u8>|
        b@ == body && s@ == signature && #[trigger] call_ensures(
            sign,
            (b,),
            Ok::<Vec<u8>, E>(s),
        )
}

/// The signing function, given `body`, may fail with `error`.
pub open spec fn sign_fails<E, F: FnOnce(Vec<u8>) -> Result<Vec<u8>, E>>(
    sign: F,
    body: Seq<u8>,
    error: E,
) -> bool {
    exists|b: Vec<u8>| b@ == body && #[trigger] call_ensures(sign, (b,), Err::<Vec<u8>, E>(error))
}

/// The signing function can be called on `body`.
pub open spec fn sign_accepts<E, F: FnOnce(Vec<u8>) -> Result<Vec<u8>, E>>(
    sign: F,
    body: Seq<u8>,
) -> bool {
    forall|b: Vec<u8>| b@ == body ==> #[trigger] call_requires(sign, (b,))
}

/// What `create_at` returns: `Lifetime` exactly where the time of expiry is
/// not representable; else the signing function is called once on the signing
/// string, its error is handed on, and its bytes stand in the signature made.
pub open spec fn created_at<E, F: FnOnce(Vec<u8>) -> Result<Vec<u8>, E>>(
    r: Result<Signature, SignError<E>>,
    sign: F,
    created: u64,
    key_id: Seq<char>,
    method: Seq<char>,
    path: Seq<char>,
    lifetime_secs: u64,
    entries: HeaderEntries,
) -> bool {
    let expires = (created + lifetime_secs) as u64;
    let body = create_body(method, path, created, expires, entries);
    match r {
        Ok(sig) => {
            &&& created + lifetime_secs <= u64::MAX
            &&& sign_gives(sign, body, sig.signature@)
            &&& sig@ == created_signature(key_id, created, expires, entries, sig.signature@)
        },
        Err(SignError::Lifetime) => created + lifetime_secs > u64::MAX,
        Err(SignError::User(e)) => created + lifetime_secs <= u64::MAX && sign_fails(sign, body, e),
        Err(_) => false,
    }
}

/// The checking function, given the signing string `body` and the bytes
/// `signature`, may return `out`.
pub open spec fn check_gives<E, F: FnOnce(&[u8], &[u8]) -> Result<bool, E>>(
    verify: F,
    body: Seq<u8>,
    signature: Seq<u8>,
    out: Result<bool, E>,
) -> bool {
    exists|b: &[u8], s: &[u8]|
        b@ == body && s@ == signature && #[trigger] call_ensures(verify, (b, s), out)
}

/// The checking function can be called on `body` and `signature`.
pub open spec fn check_accepts<E, F: FnOnce(&[u8], &[u8]) -> Result<bool, E>>(
    verify: F,
    body: Seq<u8>,
    signature: Seq<u8>,
) -> bool {
    forall|b: &[u8], s: &[u8]| b@ == body && s@ == signature ==> #[trigger] call_requires(
        verify,
        (b, s),
    )
}

/// What `verify_at` returns: `Ok(false)` without a call where the signature
/// has run out, asks for a time that it lacks, or names a header that the
/// request lacks; else what the checking function returns on the signing
/// string and the signature bytes, its error handed on.
pub open spec fn verified_at<E, F: FnOnce(&[u8], &[u8]) -> Result<bool, E>>(
    r: Result<bool, VerifyError<E>>,
    verify: F,
    sig: SignatureView,
    now: u64,
    method: Seq<char>,
    path: Seq<char>,
    entries: HeaderEntries,
) -> bool {
    match signing_input(sig, now, method, path, entries) {
        None => r matches Ok(v) && !v,
        Some(body) => match r {
            Ok(v) => check_gives(verify, body, sig.signature, Ok::<bool, E>(v)),
            Err(VerifyError::User(e)) => check_gives(verify, body, sig.signature, Err::<bool, E>(e)),
            Err(_) => false,
        },
    }
}

impl Signature {
    /// Construct a signature at the time `created`, given in seconds since
    /// the start of 1970.
    ///
    /// All headers in `headers` will be included, as well as `(request-target)`, `(created)`, and
    /// `(expires)` (based on `lifetime_secs` parameter)
    ///
    /// The passed `sign` will be called with the body to sign.
    pub fn create_at<E, F: FnOnce(Vec<u8>) -> Result<Vec<u8>, E>>(
        created: u64,
        key_id: &str,
        request_method: &str,
        request_path_and_query: &str,
        lifetime_secs: u64,
        headers: &HeaderMap<HeaderValue>,
        sign: F,
    ) -> (r: Result<Signature, SignError<E>>)
        requires
            created + lifetime_secs <= u64::MAX ==> sign_accepts(
                sign,
                create_body(
                    request_method@,
                    request_path_and_query@,
                    created,
                    (created + lifetime_secs) as u64,
                    header_entries(*headers),
                ),
            ),
        ensures
            created_at(
                r,
                sign,
                created,
                key_id@,
                request_method@,
                request_path_and_query@,
                lifetime_secs,
                header_entries(*headers),
            ),
            names_wf(header_entries(*headers)),
            values_present(header_entries(*headers)),
    {
        let ghost entries = header_entries(*headers);
        let names = names_in_order(headers);
        if lifetime_secs > u64::MAX - created {
            return Err(SignError::Lifetime);
        }
        let expires = created + lifetime_secs;
        let mut body: Vec<u8> = Vec::new();
        push_request_target(&mut body, request_method, request_path_and_query);
        push_text(&mut body, "\n");
        push_created_line(&mut body, created);
        push_text(&mut body, "\n");
        push_expires_line(&mut body, expires);
        let mut header_names: Vec<SignatureHeaderName> = Vec::new();
        header_names.push(SignatureHeaderName::RequestTarget);
        header_names.push(SignatureHeaderName::Created);
        header_names.push(SignatureHeaderName::Expires);
        let ghost first = seq![
            HeaderNameView::RequestTarget,
            HeaderNameView::Created,
            HeaderNameView::Expires,
        ];
        proof {
            assert(names_view(header_names@) =~= first + entry_names(entries.take(0)));
            assert(body@ =~= create_body(
                request_method@,
                request_path_and_query@,
                created,
                expires,
                entries.take(0),
            ));
        }
        push_all_headers(&mut body, &mut header_names, headers, &names, Ghost(first));
        let ghost signed = body@;
        let ghost handed = body;
        proof {
            assert(signed =~= create_body(
                request_method@,
                request_path_and_query@,
                created,
                expires,
                entries,
            ));
        }
        match sign(body) {
            Ok(signature) => {
                let sig = Signature {
                    algorithm: Some(String::from_str("hs2019")),
                    created: Some(created),
                    expires: Some(expires),
                    headers: Some(header_names),
                    key_id: Some(String::from_str(key_id)),
                    signature,
                };
                proof {
                    assert(call_ensures(sign, (handed,), Ok::<Vec<u8>, E>(sig.signature)));
                }
                Ok(sig)
            },
            Err(e) => {
                proof {
                    assert(call_ensures(sign, (handed,), Err::<Vec<u8>, E>(e)));
                }
                Err(SignError::User(e))
            },
        }
    }
}

/// What `create_legacy` returns: `MissingDate` exactly where the request has
/// no `Date` header; else the signing function is called once on the signing
/// string, its error is handed on, and its bytes stand in the signature made.
pub open spec fn created_legacy<E, F: FnOnce(Vec<u8>) -> Result<Vec<u8>, E>>(
    r: Result<Signature, SignError<E>>,
    sign: F,
    key_id: Seq<char>,
    method: Seq<char>,
    path: Seq<char>,
    entries: HeaderEntries,
) -> bool {
    let dated = values_for(entries, "date"@).len() > 0;
    let body = legacy_body(method, path, entries);
    match r {
        Ok(sig) => {
            &&& dated
            &&& sign_gives(sign, body, sig.signature@)
            &&& sig@ == legacy_signature(key_id, entries, sig.signature@)
        },
        Err(SignError::MissingDate) => !dated,
        Err(SignError::User(e)) => dated && sign_fails(sign, body, e),
        Err(_) => false,
    }
}

impl Signature {
    /// Construct a signature.
    ///
    /// All headers in `headers` will be included, as well as `(request-target)`, `(created)`, and
    /// `(expires)` (based on `lifetime_secs` parameter)
    ///
    /// The passed `sign` will be called with the body to sign.
    pub fn create<E, F: FnOnce(Vec<u8>) -> Result<Vec<u8>, E>>(
        key_id: &str,
        request_method: &str,
        request_path_and_query: &str,
        lifetime_secs: u64,
        headers: &HeaderMap<HeaderValue>,
        sign: F,
    ) -> (r: Result<Signature, SignError<E>>)
        requires
            forall|b: Vec<u8>| call_requires(sign, (b,)),
        ensures
            r matches Err(SignError::IO) || exists|created: u64| #[trigger]
                created_at(
                    r,
                    sign,
                    created,
                    key_id@,
                    request_method@,
                    request_path_and_query@,
                    lifetime_secs,
                    header_entries(*headers),
                ),
    {
        match unix_now() {
            Some(created) => Signature::create_at(
                created,
                key_id,
                request_method,
                request_path_and_query,
                lifetime_secs,
                headers,
                sign,
            ),
            None => Err(SignError::IO),
        }
    }

    /// Create an old-style signature (no (created) and (expires))
    pub fn create_legacy<E, F: FnOnce(Vec<u8>) -> Result<Vec<u8>, E>>(
        key_id: &str,
        request_method: &str,
        request_path_and_query: &str,
        headers: &HeaderMap<HeaderValue>,
        sign: F,
    ) -> (r: Result<Signature, SignError<E>>)
        requires
            sign_accepts(
                sign,
                legacy_body(request_method@, request_path_and_query@, header_entries(*headers)),
            ),
        ensures
            created_legacy(
                r,
                sign,
                key_id@,
                request_method@,
                request_path_and_query@,
                header_entries(*headers),
            ),
    {
        if !header_present(headers, "date") {
            return Err(SignError::MissingDate);
        }
        let ghost entries = header_entries(*headers);
        let names = names_in_order(headers);
        let mut body: Vec<u8> = Vec::new();
        push_request_target(&mut body, request_method, request_path_and_query);
        let mut header_names: Vec<SignatureHeaderName> = Vec::new();
        header_names.push(SignatureHeaderName::RequestTarget);
        let ghost first = seq![HeaderNameView::RequestTarget];
        proof {
            assert(names_view(header_names@) =~= first);
        }
        push_all_headers(&mut body, &mut header_names, headers, &names, Ghost(first));
        let ghost handed = body;
        proof {
            assert(body@ =~= legacy_body(request_method@, request_path_and_query@, entries));
        }
        match sign(body) {
            Ok(signature) => {
                let sig = Signature {
                    algorithm: Some(String::from_str("hs2019")),
                    created: None,
                    expires: None,
                    headers: Some(header_names),
                    key_id: Some(String::from_str(key_id)),
                    signature,
                };
                proof {
                    assert(call_ensures(sign, (handed,), Ok::<Vec<u8>, E>(sig.signature)));
                }
                Ok(sig)
            },
            Err(e) => {
                proof {
                    assert(call_ensures(sign, (handed,), Err::<Vec<u8>, E>(e)));
                }
                Err(SignError::User(e))
            },
        }
    }

    /// Verify the signature for a given request target and HeaderMap, at the
    /// time `now`, given in seconds since the start of 1970.
    ///
    /// The passed `verify` function will be called with (body, signature) where body is the body
    /// that should match the signature.
    pub fn verify_at<E, F: FnOnce(&[u8], &[u8]) -> Result<bool, E>>(
        &self,
        now: u64,
        request_method: &str,
        request_path_and_query: &str,
        headers: &HeaderMap<HeaderValue>,
        verify: F,
    ) -> (r: Result<bool, VerifyError<E>>)
        requires
            match signing_input(
                self@,
                now,
                request_method@,
                request_path_and_query@,
                header_entries(*headers),
            ) {
                Some(body) => check_accepts(verify, body, self.signature@),
                None => true,
            },
        ensures
            verified_at(
                r,
                verify,
                self@,
                now,
                request_method@,
                request_path_and_query@,
                header_entries(*headers),
            ),
            expired(self@, now) ==> (r matches Ok(v) && !v),
            signing_input(
                self@,
                now,
                request_method@,
                request_path_and_query@,
                header_entries(*headers),
            ) is Some ==> values_valid(self@, header_entries(*headers)),
    {
        if let Some(expires) = self.expires {
            if expires < now {
                return Ok(false);
            }
        }
        let ghost entries = header_entries(*headers);
        let ghost method = request_method@;
        let ghost path = request_path_and_query@;
        let mut body: Vec<u8> = Vec::new();
        match &self.headers {
            Some(header_names) => {
                let ghost all = names_view(header_names@);
                let mut idx: usize = 0;
                proof {
                    assert(all.take(0) =~= Seq::<HeaderNameView>::empty());
                }
                while idx < header_names.len()
                    invariant
                        idx <= header_names.len(),
                        all == names_view(header_names@),
                        entries == header_entries(*headers),
                        method == request_method@,
                        path == request_path_and_query@,
                        self@.headers == Some(all),
                        !expired(self@, now),
                        signed_values_valid(all.take(idx as int), entries),
                        lines_joined(
                            all.take(idx as int),
                            self.created,
                            self.expires,
                            method,
                            path,
                            entries,
                        ) == Some(body@),
                    decreases header_names.len() - idx,
                {
                    proof {
                        assert(all.take(idx + 1) =~= all.take(idx as int).push(all[idx as int]));
                        lemma_lines_joined_push(
                            all.take(idx as int),
                            all[idx as int],
                            self.created,
                            self.expires,
                            method,
                            path,
                            entries,
                        );
                        assert(all[idx as int] == header_names@[idx as int]@);
                    }
                    if idx != 0 {
                        push_text(&mut body, "\n");
                    }
                    match &header_names[idx] {
                        SignatureHeaderName::RequestTarget => {
                            push_request_target(
                                &mut body,
                                request_method,
                                request_path_and_query,
                            );
                        },
                        SignatureHeaderName::Created => {
                            if let Some(created) = self.created {
                                push_created_line(&mut body, created);
                            } else {
                                proof {
                                    lemma_lines_joined_none(
                                        all,
                                        idx + 1,
                                        self.created,
                                        self.expires,
                                        method,
                                        path,
                                        entries,
                                    );
                                }
                                return Ok(false);
                            }
                        },
                        SignatureHeaderName::Expires => {
                            if let Some(expires) = self.expires {
                                push_expires_line(&mut body, expires);
                            } else {
                                proof {
                                    lemma_lines_joined_none(
                                        all,
                                        idx + 1,
                                        self.created,
                                        self.expires,
                                        method,
                                        path,
                                        entries,
                                    );
                                }
                                return Ok(false);
                            }
                        },
                        SignatureHeaderName::NormalHeader(name) => {
                            let values = header_values(headers, name.as_str());
                            if values.len() == 0 {
                                proof {
                                    assert(values_view(values@).len() == 0);
                                    lemma_lines_joined_none(
                                        all,
                                        idx + 1,
                                        self.created,
                                        self.expires,
                                        method,
                                        path,
                                        entries,
                                    );
                                }
                                return Ok(false);
                            }
                            push_header_line(&mut body, name.as_str(), &values);
                            proof {
                                let found = values_for(entries, name@);
                                assert(found.len() == values@.len());
                                assert forall|k: int| 0 <= k < found.len() implies all_value_bytes(
                                    #[trigger] found[k],
                                ) by {
                                    assert(values_view(values@)[k] == values@[k]@);
                                }
                            }
                        },
                    }
                    proof {
                        let upto = all.take(idx + 1);
                        assert forall|i: int, k: int|
                            0 <= i < upto.len() && upto[i] is NormalHeader && 0 <= k < values_for(
                                entries,
                                upto[i]->NormalHeader_0,
                            ).len() implies all_value_bytes(
                            #[trigger] values_for(entries, upto[i]->NormalHeader_0)[k],
                        ) by {
                            if i < idx {
                                assert(all.take(idx as int)[i] == upto[i]);
                            }
                        }
                    }
                    idx += 1;
                }
                proof {
                    assert(all.take(header_names.len() as int) =~= all);
                }
            },
            None => {
                if let Some(created) = self.created {
                    push_created_line(&mut body, created);
                } else {
                    return Ok(false);
                }
            },
        }
        let body_bytes = body.as_slice();
        let signature_bytes = self.signature.as_slice();
        let out = verify(body_bytes, signature_bytes);
        proof {
            assert(call_ensures(verify, (body_bytes, signature_bytes), out));
        }
        match out {
            Ok(v) => Ok(v),
            Err(e) => Err(VerifyError::User(e)),
        }
    }

    /// Verify the signature for a given request target and HeaderMap.
    ///
    /// The passed `verify` function will be called with (body, signature) where body is the body
    /// that should match the signature.
    pub fn verify<E, F: FnOnce(&[u8], &[u8]) -> Result<bool, E>>(
        &self,
        request_method: &str,
        request_path_and_query: &str,
        headers: &HeaderMap<HeaderValue>,
        verify: F,
    ) -> (r: Result<bool, VerifyError<E>>)
        requires
            forall|b: &[u8], s: &[u8]| call_requires(verify, (b, s)),
        ensures
            r matches Err(VerifyError::IO) || exists|now: u64| #[trigger]
                verified_at(
                    r,
                    verify,
                    self@,
                    now,
                    request_method@,
                    request_path_and_query@,
                    header_entries(*headers),
                ),
    {
        match unix_now() {
            Some(now) => self.verify_at(
                now,
                request_method,
                request_path_and_query,
                headers,
                verify,
            ),
            None => Err(VerifyError::IO),
        }
    }
}

/// Appends the line of every header of the request to `body`, each after a
/// line feed, and the name of every header to `list`.
fn push_all_headers(
    body: &mut Vec<u8>,
    list: &mut Vec<SignatureHeaderName>,
    headers: &HeaderMap<HeaderValue>,
    names: &Vec<String>,
    Ghost(first): Ghost<Seq<HeaderNameView>>,
)
    requires
        names_wf(header_entries(*headers)),
        names@.len() == header_entries(*headers).len(),
        forall|i: int|
            0 <= i < names@.len() ==> (#[trigger] names@[i])@ == header_entries(*headers)[i].0,
        names_view(old(list)@) == first,
    ensures
        final(body)@ == old(body)@ + header_lines(header_entries(*headers)),
        names_view(final(list)@) == first + entry_names(header_entries(*headers)),
{
    let ghost entries = header_entries(*headers);
    let mut i: usize = 0;
    proof {
        assert(old(body)@ + header_lines(entries.take(0)) =~= old(body)@);
        assert(first + entry_names(entries.take(0)) =~= first);
    }
    while i < names.len()
        invariant
            i <= names.len(),
            entries == header_entries(*headers),
            names_wf(entries),
            names@.len() == entries.len(),
            forall|k: int| 0 <= k < names@.len() ==> (#[trigger] names@[k])@ == entries[k].0,
            body@ == old(body)@ + header_lines(entries.take(i as int)),
            names_view(list@) == first + entry_names(entries.take(i as int)),
        decreases names.len() - i,
    {
        let name = &names[i];
        let values = header_values(headers, name.as_str());
        push_text(body, "\n");
        push_header_line(body, name.as_str(), &values);
        let ghost before = list@;
        list.push(SignatureHeaderName::NormalHeader(name.clone()));
        proof {
            lemma_values_of_entry(entries, i as int);
            let upto = entries.take(i + 1);
            assert(upto.drop_last() =~= entries.take(i as int));
            assert(upto.last() == entries[i as int]);
            assert(body@ =~= old(body)@ + header_lines(upto));
            assert(names_view(list@) =~= names_view(before).push(
                HeaderNameView::NormalHeader(name@),
            ));
            assert(entry_names(upto) =~= entry_names(entries.take(i as int)).push(
                HeaderNameView::NormalHeader(entries[i as int].0),
            ));
            assert(names_view(list@) =~= first + entry_names(upto));
        }
        i += 1;
    }
    proof {
        assert(entries.take(names.len() as int) =~= entries);
    }
}

} // verus!

//! Writing a signature as a header and reading the header gives the
//! signature back.

use vstd::prelude::*;
use vstd::string::*;
use crate::hancock::chars::{
    all_visible_ascii, is_visible_ascii, join, lemma_split_concat, lemma_split_plain, split,
    unquote,
};
use crate::hancock::encoding::{all_base64_chars, base64_decoded, base64_encoded, is_base64_char};
use crate::hancock::headers::{
    all_name_chars, canonical_name, is_canonical_name, is_name_char,
};
use crate::hancock::model::{
    lemma_names_of_push, name_text, names_of, spec_header_name, HeaderNameView, SignatureView,
};
use crate::hancock::number::{
    decimal, is_digit, lemma_decimal_digits, lemma_parse_decimal, spec_parse_u64,
};
use crate::hancock::wire::{
    algorithm_param, apply_field, created_param, expires_param, headers_text, key_id_param,
    lemma_read_fields_push, name_texts, no_fields, read_fields, signature_param, spec_parse,
    spec_to_header, FieldsView,
};
use crate::hancock::ParseError;

verus! {

/// A text that can stand inside one segment of a header: visible ASCII
/// without a comma.
pub open spec fn plain(s: Seq<char>) -> bool {
    all_visible_ascii(s) && !s.contains(',')
}

/// A signed name that reads back as itself: a header name must be one in
/// lower case.
pub open spec fn name_reads_back(name: HeaderNameView) -> bool {
    name matches HeaderNameView::NormalHeader(text) ==> is_canonical_name(text)
}

/// A signature whose header reads back as the same signature. It lists at
/// least one signed name, and every header among them is a header name in
/// lower case; its algorithm, if any, is such a name too, and not inside a
/// pair of quotes; its key id, if any, is visible ASCII without a comma.
pub open spec fn wire_safe(sig: SignatureView) -> bool {
    &&& sig.headers matches Some(names) && names.len() >= 1 && forall|i: int|
        0 <= i < names.len() ==> name_reads_back(#[trigger] names[i])
    &&& sig.algorithm matches Some(name) ==> is_canonical_name(name) && unquote(name) == name
    &&& sig.key_id matches Some(id) ==> plain(id)
}

/// What is claimed of the Base64 text of the signature bytes: it is made of
/// the alphabet, and reading it gives the bytes back.
pub open spec fn base64_reads_back(bytes: Seq<u8>) -> bool {
    all_base64_chars(base64_encoded(bytes)) && base64_decoded(base64_encoded(bytes)) == Some(
        bytes,
    )
}

/// A `key=value` segment.
pub open spec fn segment(key: Seq<char>, value: Seq<char>) -> Seq<char> {
    key + seq!['='] + value
}

pub open spec fn quoted(value: Seq<char>) -> Seq<char> {
    seq!['"'] + value + seq!['"']
}

proof fn lemma_plain_concat(a: Seq<char>, b: Seq<char>)
    requires
        plain(a),
        plain(b),
    ensures
        plain(a + b),
{
    let s = a + b;
    assert forall|i: int| 0 <= i < s.len() implies is_visible_ascii(#[trigger] s[i]) && s[i]
        != ',' by {
        if i < a.len() {
            assert(s[i] == a[i]);
            assert(a.contains(a[i]));
        } else {
            assert(s[i] == b[i - a.len()]);
            assert(b.contains(b[i - a.len()]));
        }
    }
}

proof fn lemma_unquote_quoted(value: Seq<char>)
    ensures
        unquote(quoted(value)) == value,
{
    let q = quoted(value);
    assert(q.first() == '"');
    assert(q.last() == '"');
    assert(q.subrange(1, q.len() - 1) =~= value);
}

proof fn lemma_plain_quoted(value: Seq<char>)
    requires
        plain(value),
    ensures
        plain(quoted(value)),
{
    let q = seq!['"'];
    assert(plain(q)) by {
        assert forall|i: int| 0 <= i < q.len() implies q[i] == '"' by {}
    }
    lemma_plain_concat(q, value);
    lemma_plain_concat(q + value, q);
}

/// The parts of a segment whose key holds no `=`.
proof fn lemma_segment_parts(key: Seq<char>, value: Seq<char>)
    requires
        !key.contains('='),
    ensures
        segment(key, value).index_of_first('=') == Some(key.len() as int),
        segment(key, value).subrange(0, key.len() as int) == key,
        segment(key, value).subrange(key.len() as int + 1, segment(key, value).len() as int)
            == value,
{
    let s = segment(key, value);
    let at = key.len() as int;
    assert(s[at] == '=');
    assert(s.contains('='));
    s.index_of_first_ensures('=');
    let found = s.index_of_first('=').unwrap();
    if found < at {
        assert(s[found] == key[found]);
        assert(key.contains(key[found]));
    }
    assert(s.subrange(0, at) =~= key);
    assert(s.subrange(at + 1, s.len() as int) =~= value);
}

proof fn lemma_plain_segment(key: Seq<char>, value: Seq<char>)
    requires
        plain(key),
        plain(value),
    ensures
        plain(segment(key, value)),
{
    let e = seq!['='];
    assert(plain(e)) by {
        assert forall|i: int| 0 <= i < e.len() implies e[i] == '=' by {}
    }
    lemma_plain_concat(key, e);
    lemma_plain_concat(key + e, value);
}

/// What the six keys are.
proof fn lemma_keys()
    ensures
        "algorithm"@.len() == 9,
        "created"@.len() == 7,
        "expires"@.len() == 7,
        "headers"@.len() == 7,
        "keyId"@.len() == 5,
        "signature"@.len() == 9,
        "algorithm"@[0] == 'a',
        "signature"@[0] == 's',
        "created"@[0] == 'c',
        "expires"@[0] == 'e',
        "headers"@[0] == 'h',
        plain("algorithm"@) && !"algorithm"@.contains('='),
        plain("created"@) && !"created"@.contains('='),
        plain("expires"@) && !"expires"@.contains('='),
        plain("headers"@) && !"headers"@.contains('='),
        plain("keyId"@) && !"keyId"@.contains('='),
        plain("signature"@) && !"signature"@.contains('='),
{
    reveal_strlit("algorithm");
    reveal_strlit("created");
    reveal_strlit("expires");
    reveal_strlit("headers");
    reveal_strlit("keyId");
    reveal_strlit("signature");
}

proof fn lemma_apply_algorithm(fields: FieldsView, raw: Seq<char>)
    ensures
        apply_field(fields, segment("algorithm"@, raw)) == match canonical_name(unquote(raw)) {
            Some(name) => Ok::<FieldsView, ParseError>(
                FieldsView { algorithm: Some(name), ..fields },
            ),
            None => Err::<FieldsView, ParseError>(ParseError::InvalidCharacters),
        },
{
    lemma_keys();
    lemma_segment_parts("algorithm"@, raw);
}

proof fn lemma_apply_created(fields: FieldsView, raw: Seq<char>)
    ensures
        apply_field(fields, segment("created"@, raw)) == match spec_parse_u64(unquote(raw)) {
            Some(n) => Ok::<FieldsView, ParseError>(FieldsView { created: Some(n), ..fields }),
            None => Err::<FieldsView, ParseError>(ParseError::Number),
        },
{
    lemma_keys();
    lemma_segment_parts("created"@, raw);
}

proof fn lemma_apply_expires(fields: FieldsView, raw: Seq<char>)
    ensures
        apply_field(fields, segment("expires"@, raw)) == match spec_parse_u64(unquote(raw)) {
            Some(n) => Ok::<FieldsView, ParseError>(FieldsView { expires: Some(n), ..fields }),
            None => Err::<FieldsView, ParseError>(ParseError::Number),
        },
{
    lemma_keys();
    lemma_segment_parts("expires"@, raw);
}

proof fn lemma_apply_headers(fields: FieldsView, raw: Seq<char>)
    ensures
        apply_field(fields, segment("headers"@, raw)) == match names_of(
            split(unquote(raw), ' '),
        ) {
            Some(names) => Ok::<FieldsView, ParseError>(
                FieldsView { headers: Some(names), ..fields },
            ),
            None => Err::<FieldsView, ParseError>(ParseError::InvalidCharacters),
        },
{
    lemma_keys();
    lemma_segment_parts("headers"@, raw);
}

proof fn lemma_apply_key_id(fields: FieldsView, raw: Seq<char>)
    ensures
        apply_field(fields, segment("keyId"@, raw)) == Ok::<FieldsView, ParseError>(
            FieldsView { key_id: Some(unquote(raw)), ..fields },
        ),
{
    lemma_keys();
    lemma_segment_parts("keyId"@, raw);
}

proof fn lemma_apply_signature(fields: FieldsView, raw: Seq<char>)
    ensures
        apply_field(fields, segment("signature"@, raw)) == match base64_decoded(unquote(raw)) {
            Some(bytes) => Ok::<FieldsView, ParseError>(
                FieldsView { signature: Some(bytes), ..fields },
            ),
            None => Err::<FieldsView, ParseError>(ParseError::Base64),
        },
{
    lemma_keys();
    lemma_segment_parts("signature"@, raw);
}

/// The text of a signed name that reads back holds neither a space nor a
/// comma, is visible ASCII, and stands for the name.
proof fn lemma_name_text(name: HeaderNameView)
    requires
        name_reads_back(name),
    ensures
        plain(name_text(name)),
        !name_text(name).contains(' '),
        spec_header_name(name_text(name)) == Some(name),
{
    reveal_strlit("(request-target)");
    reveal_strlit("(created)");
    reveal_strlit("(expires)");
    let text = name_text(name);
    match name {
        HeaderNameView::NormalHeader(t) => {
            assert(all_name_chars(t));
            assert forall|i: int| 0 <= i < t.len() implies is_visible_ascii(#[trigger] t[i])
                && t[i] != ',' && t[i] != ' ' && t[i] != '(' by {
                assert(is_name_char(t[i]));
            }
            assert(t.len() >= 1);
            assert(t[0] != '(');
            assert(t != "(request-target)"@);
            assert(t != "(created)"@);
            assert(t != "(expires)"@);
        },
        HeaderNameView::RequestTarget => {},
        HeaderNameView::Created => {
            assert("(created)"@.len() != "(request-target)"@.len());
        },
        HeaderNameView::Expires => {
            assert("(expires)"@.len() != "(request-target)"@.len());
            assert("(expires)"@[1] != "(created)"@[1]);
        },
    }
}

proof fn lemma_join_push(parts: Seq<Seq<char>>, sep: Seq<char>, last: Seq<char>)
    requires
        parts.len() >= 1,
    ensures
        join(parts.push(last), sep) == join(parts, sep) + sep + last,
{
    assert(parts.push(last).drop_last() =~= parts);
}

/// Cutting a joined list at the separator gives the list back, where no
/// piece holds the separator.
proof fn lemma_split_join(parts: Seq<Seq<char>>, sep: char)
    requires
        parts.len() >= 1,
        forall|i: int| 0 <= i < parts.len() ==> !(#[trigger] parts[i]).contains(sep),
    ensures
        split(join(parts, seq![sep]), sep) == parts,
    decreases parts.len(),
{
    if parts.len() == 1 {
        lemma_split_plain(parts[0], sep);
        assert(parts =~= seq![parts[0]]);
    } else {
        let head = parts.drop_last();
        assert forall|i: int| 0 <= i < head.len() implies !(#[trigger] head[i]).contains(sep) by {
            assert(head[i] == parts[i]);
        }
        lemma_split_join(head, sep);
        lemma_split_concat(join(head, seq![sep]), parts.last(), sep);
        lemma_split_plain(parts.last(), sep);
        assert(head + seq![parts.last()] =~= parts);
    }
}

proof fn lemma_join_plain(parts: Seq<Seq<char>>, sep: Seq<char>)
    requires
        plain(sep),
        forall|i: int| 0 <= i < parts.len() ==> plain(#[trigger] parts[i]),
    ensures
        plain(join(parts, sep)),
    decreases parts.len(),
{
    if parts.len() == 0 {
    } else if parts.len() == 1 {
    } else {
        let head = parts.drop_last();
        assert forall|i: int| 0 <= i < head.len() implies plain(#[trigger] head[i]) by {
            assert(head[i] == parts[i]);
        }
        lemma_join_plain(head, sep);
        lemma_plain_concat(join(head, sep), sep);
        lemma_plain_concat(join(head, sep) + sep, parts.last());
    }
}

/// The names that the texts of a list of names stand for are the names.
proof fn lemma_names_of_texts(names: Seq<HeaderNameView>)
    requires
        forall|i: int| 0 <= i < names.len() ==> name_reads_back(#[trigger] names[i]),
    ensures
        names_of(name_texts(names)) == Some(names),
    decreases names.len(),
{
    if names.len() == 0 {
        assert(name_texts(names) =~= Seq::<Seq<char>>::empty());
        assert(names =~= Seq::<HeaderNameView>::empty());
    } else {
        let head = names.drop_last();
        assert forall|i: int| 0 <= i < head.len() implies name_reads_back(#[trigger] head[i]) by {
            assert(head[i] == names[i]);
        }
        lemma_names_of_texts(head);
        lemma_name_text(names.last());
        assert(name_texts(names) =~= name_texts(head).push(name_text(names.last())));
        lemma_names_of_push(name_texts(head), name_text(names.last()));
        assert(head.push(names.last()) =~= names);
    }
}

/// The value of the `headers` parameter reads back as the list of names.
proof fn lemma_headers_text(names: Seq<HeaderNameView>)
    requires
        names.len() >= 1,
        forall|i: int| 0 <= i < names.len() ==> name_reads_back(#[trigger] names[i]),
    ensures
        plain(headers_text(Some(names))),
        names_of(split(headers_text(Some(names)), ' ')) == Some(names),
{
    reveal_strlit(" ");
    let texts = name_texts(names);
    assert(" "@ =~= seq![' ']);
    assert(plain(" "@)) by {
        assert forall|i: int| 0 <= i < " "@.len() implies " "@[i] == ' ' by {}
    }
    assert forall|i: int| 0 <= i < texts.len() implies plain(#[trigger] texts[i]) && !texts[i].contains(
        ' ',
    ) by {
        lemma_name_text(names[i]);
    }
    lemma_join_plain(texts, " "@);
    lemma_split_join(texts, ' ');
    lemma_names_of_texts(names);
}

/// A list of segments with one more segment, where there is one.
pub open spec fn opt_push(list: Seq<Seq<char>>, more: Option<Seq<char>>) -> Seq<Seq<char>> {
    match more {
        Some(s) => list.push(s),
        None => list,
    }
}

pub open spec fn algorithm_segment(algorithm: Option<Seq<char>>) -> Option<Seq<char>> {
    match algorithm {
        Some(name) => Some(segment("algorithm"@, name)),
        None => None,
    }
}

pub open spec fn created_segment(created: Option<u64>) -> Option<Seq<char>> {
    match created {
        Some(n) => Some(segment("created"@, decimal(n as nat))),
        None => None,
    }
}

pub open spec fn expires_segment(expires: Option<u64>) -> Option<Seq<char>> {
    match expires {
        Some(n) => Some(segment("expires"@, decimal(n as nat))),
        None => None,
    }
}

pub open spec fn key_id_segment(key_id: Option<Seq<char>>) -> Option<Seq<char>> {
    match key_id {
        Some(id) => Some(segment("keyId"@, quoted(id))),
        None => None,
    }
}

/// The segments of the header of a signature.
pub open spec fn segments(sig: SignatureView) -> Seq<Seq<char>> {
    opt_push(
        opt_push(
            opt_push(
                opt_push(
                    seq![segment("headers"@, quoted(headers_text(sig.headers)))],
                    algorithm_segment(sig.algorithm),
                ),
                created_segment(sig.created),
            ),
            expires_segment(sig.expires),
        ),
        key_id_segment(sig.key_id),
    ).push(segment("signature"@, quoted(base64_encoded(sig.signature))))
}

/// The header of a signature is its segments with a comma between them.
proof fn lemma_header_is_joined(sig: SignatureView)
    ensures
        spec_to_header(sig) == join(segments(sig), seq![',']),
{
    reveal_strlit("headers=\"");
    reveal_strlit("headers");
    reveal_strlit("\"");
    reveal_strlit(",algorithm=");
    reveal_strlit("algorithm");
    reveal_strlit(",created=");
    reveal_strlit("created");
    reveal_strlit(",expires=");
    reveal_strlit("expires");
    reveal_strlit(",keyId=\"");
    reveal_strlit("keyId");
    reveal_strlit(",signature=\"");
    reveal_strlit("signature");
    let c = seq![','];
    let l0 = seq![segment("headers"@, quoted(headers_text(sig.headers)))];
    let t0 = "headers=\""@ + headers_text(sig.headers) + "\""@;
    assert(t0 =~= l0[0]);
    assert(join(l0, c) == t0);
    let l1 = opt_push(l0, algorithm_segment(sig.algorithm));
    let t1 = t0 + algorithm_param(sig.algorithm);
    assert(join(l1, c) =~= t1) by {
        if let Some(name) = sig.algorithm {
            lemma_join_push(l0, c, segment("algorithm"@, name));
            assert(",algorithm="@ + name =~= c + segment("algorithm"@, name));
        }
    }
    let l2 = opt_push(l1, created_segment(sig.created));
    let t2 = t1 + created_param(sig.created);
    assert(join(l2, c) =~= t2) by {
        if let Some(n) = sig.created {
            lemma_join_push(l1, c, segment("created"@, decimal(n as nat)));
            assert(",created="@ + decimal(n as nat) =~= c + segment(
                "created"@,
                decimal(n as nat),
            ));
        }
    }
    let l3 = opt_push(l2, expires_segment(sig.expires));
    let t3 = t2 + expires_param(sig.expires);
    assert(join(l3, c) =~= t3) by {
        if let Some(n) = sig.expires {
            lemma_join_push(l2, c, segment("expires"@, decimal(n as nat)));
            assert(",expires="@ + decimal(n as nat) =~= c + segment(
                "expires"@,
                decimal(n as nat),
            ));
        }
    }
    let l4 = opt_push(l3, key_id_segment(sig.key_id));
    let t4 = t3 + key_id_param(sig.key_id);
    assert(join(l4, c) =~= t4) by {
        if let Some(id) = sig.key_id {
            lemma_join_push(l3, c, segment("keyId"@, quoted(id)));
            assert(",keyId=\""@ + id + "\""@ =~= c + segment("keyId"@, quoted(id)));
        }
    }
    let last = segment("signature"@, quoted(base64_encoded(sig.signature)));
    lemma_join_push(l4, c, last);
    assert(signature_param(sig.signature) =~= c + last);
    assert(join(l4.push(last), c) =~= t4 + signature_param(sig.signature));
}

/// What one more segment adds to the reading of a list of segments.
proof fn lemma_read_opt(
    list: Seq<Seq<char>>,
    more: Option<Seq<char>>,
    before: FieldsView,
    after: FieldsView,
)
    requires
        read_fields(list) == Ok::<FieldsView, ParseError>(before),
        forall|i: int| 0 <= i < list.len() ==> plain(#[trigger] list[i]),
        match more {
            Some(s) => plain(s) && apply_field(before, s) == Ok::<FieldsView, ParseError>(after),
            None => after == before,
        },
    ensures
        read_fields(opt_push(list, more)) == Ok::<FieldsView, ParseError>(after),
        forall|i: int|
            0 <= i < opt_push(list, more).len() ==> plain(#[trigger] opt_push(list, more)[i]),
{
    if let Some(s) = more {
        lemma_read_fields_push(list, s);
    }
}

proof fn lemma_plain_decimal(n: nat)
    ensures
        plain(decimal(n)),
        unquote(decimal(n)) == decimal(n),
{
    lemma_decimal_digits(n);
    let d = decimal(n);
    assert forall|i: int| 0 <= i < d.len() implies is_visible_ascii(#[trigger] d[i]) && d[i]
        != ',' by {
        assert(is_digit(d[i]));
    }
    assert(is_digit(d[0]));
}

proof fn lemma_plain_base64(text: Seq<char>)
    requires
        all_base64_chars(text),
    ensures
        plain(text),
{
    assert forall|i: int| 0 <= i < text.len() implies is_visible_ascii(#[trigger] text[i])
        && text[i] != ',' by {
        assert(is_base64_char(text[i]));
    }
}

proof fn lemma_plain_name(name: Seq<char>)
    requires
        is_canonical_name(name),
    ensures
        plain(name),
{
    assert(all_name_chars(name));
    assert forall|i: int| 0 <= i < name.len() implies is_visible_ascii(#[trigger] name[i])
        && name[i] != ',' by {
        assert(is_name_char(name[i]));
    }
}

/// The segments of a signature that reads back give its parameters.
proof fn lemma_read_segments(sig: SignatureView)
    requires
        wire_safe(sig),
        base64_reads_back(sig.signature),
    ensures
        read_fields(segments(sig)) == Ok::<FieldsView, ParseError>(
            FieldsView {
                algorithm: sig.algorithm,
                created: sig.created,
                expires: sig.expires,
                headers: sig.headers,
                key_id: sig.key_id,
                signature: Some(sig.signature),
            },
        ),
        forall|i: int| 0 <= i < segments(sig).len() ==> plain(#[trigger] segments(sig)[i]),
{
    lemma_keys();
    let names = sig.headers->0;
    let f0 = FieldsView { headers: sig.headers, ..no_fields() };
    let s0 = segment("headers"@, quoted(headers_text(sig.headers)));
    let l0 = seq![s0];
    assert(read_fields(l0) == Ok::<FieldsView, ParseError>(f0) && plain(s0)) by {
        lemma_headers_text(names);
        lemma_unquote_quoted(headers_text(sig.headers));
        lemma_plain_quoted(headers_text(sig.headers));
        lemma_plain_segment("headers"@, quoted(headers_text(sig.headers)));
        lemma_apply_headers(no_fields(), quoted(headers_text(sig.headers)));
        assert(l0.drop_last() =~= Seq::<Seq<char>>::empty());
        assert(read_fields(l0.drop_last()) == Ok::<FieldsView, ParseError>(no_fields()));
    }
    let f1 = FieldsView { algorithm: sig.algorithm, ..f0 };
    let l1 = opt_push(l0, algorithm_segment(sig.algorithm));
    assert(read_fields(l1) == Ok::<FieldsView, ParseError>(f1) && forall|i: int|
        0 <= i < l1.len() ==> plain(#[trigger] l1[i])) by {
        if let Some(name) = sig.algorithm {
            lemma_apply_algorithm(f0, name);
            lemma_plain_name(name);
            lemma_plain_segment("algorithm"@, name);
        }
        lemma_read_opt(l0, algorithm_segment(sig.algorithm), f0, f1);
    }
    let f2 = FieldsView { created: sig.created, ..f1 };
    let l2 = opt_push(l1, created_segment(sig.created));
    assert(read_fields(l2) == Ok::<FieldsView, ParseError>(f2) && forall|i: int|
        0 <= i < l2.len() ==> plain(#[trigger] l2[i])) by {
        if let Some(n) = sig.created {
            lemma_apply_created(f1, decimal(n as nat));
            lemma_plain_decimal(n as nat);
            lemma_parse_decimal(n);
            lemma_plain_segment("created"@, decimal(n as nat));
        }
        lemma_read_opt(l1, created_segment(sig.created), f1, f2);
    }
    let f3 = FieldsView { expires: sig.expires, ..f2 };
    let l3 = opt_push(l2, expires_segment(sig.expires));
    assert(read_fields(l3) == Ok::<FieldsView, ParseError>(f3) && forall|i: int|
        0 <= i < l3.len() ==> plain(#[trigger] l3[i])) by {
        if let Some(n) = sig.expires {
            lemma_apply_expires(f2, decimal(n as nat));
            lemma_plain_decimal(n as nat);
            lemma_parse_decimal(n);
            lemma_plain_segment("expires"@, decimal(n as nat));
        }
        lemma_read_opt(l2, expires_segment(sig.expires), f2, f3);
    }
    let f4 = FieldsView { key_id: sig.key_id, ..f3 };
    let l4 = opt_push(l3, key_id_segment(sig.key_id));
    assert(read_fields(l4) == Ok::<FieldsView, ParseError>(f4) && forall|i: int|
        0 <= i < l4.len() ==> plain(#[trigger] l4[i])) by {
        if let Some(id) = sig.key_id {
            lemma_apply_key_id(f3, quoted(id));
            lemma_unquote_quoted(id);
            lemma_plain_quoted(id);
            lemma_plain_segment("keyId"@, quoted(id));
        }
        lemma_read_opt(l3, key_id_segment(sig.key_id), f3, f4);
    }
    let text = base64_encoded(sig.signature);
    let last = segment("signature"@, quoted(text));
    let f5 = FieldsView { signature: Some(sig.signature), ..f4 };
    assert(plain(last) && apply_field(f4, last) == Ok::<FieldsView, ParseError>(f5)) by {
        lemma_apply_signature(f4, quoted(text));
        lemma_unquote_quoted(text);
        lemma_plain_base64(text);
        lemma_plain_quoted(text);
        lemma_plain_segment("signature"@, quoted(text));
    }
    lemma_read_opt(l4, Some(last), f4, f5);
    assert(opt_push(l4, Some(last)) == segments(sig));
}

/// The header of a signature that reads back is read as that signature.
pub proof fn lemma_header_roundtrip(sig: SignatureView)
    requires
        wire_safe(sig),
        base64_reads_back(sig.signature),
    ensures
        spec_parse(spec_to_header(sig)) == Ok::<SignatureView, ParseError>(sig),
{
    let list = segments(sig);
    let c = seq![','];
    lemma_header_is_joined(sig);
    lemma_read_segments(sig);
    assert forall|i: int| 0 <= i < list.len() implies !(#[trigger] list[i]).contains(',') by {
        assert(plain(list[i]));
    }
    lemma_split_join(list, ',');
    let text = join(list, c);
    assert(all_visible_ascii(text)) by {
        lemma_join_visible(list, c);
    }
}

/// A list of visible pieces, joined with a comma, is visible.
proof fn lemma_join_visible(parts: Seq<Seq<char>>, sep: Seq<char>)
    requires
        sep == seq![','],
        forall|i: int| 0 <= i < parts.len() ==> plain(#[trigger] parts[i]),
    ensures
        all_visible_ascii(join(parts, sep)),
    decreases parts.len(),
{
    if parts.len() >= 2 {
        let head = parts.drop_last();
        assert forall|i: int| 0 <= i < head.len() implies plain(#[trigger] head[i]) by {
            assert(head[i] == parts[i]);
        }
        lemma_join_visible(head, sep);
        let s = join(parts, sep);
        let h = join(head, sep);
        assert forall|i: int| 0 <= i < s.len() implies is_visible_ascii(#[trigger] s[i]) by {
            if i < h.len() {
                assert(s[i] == h[i]);
            } else if i == h.len() {
                assert(s[i] == ',');
            } else {
                assert(s[i] == parts.last()[i - h.len() - 1]);
            }
        }
    } else if parts.len() == 1 {
        assert(plain(parts[0]));
    }
}

} // verus!

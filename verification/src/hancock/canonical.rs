//! The signing string: the bytes over which a signature is made and checked.

use vstd::prelude::*;
use vstd::string::*;
use vstd::utf8::*;
use crate::hancock::headers::{all_value_bytes, values_for, values_view, HeaderEntries};
use crate::hancock::model::{HeaderNameView, SignatureView};
use crate::hancock::number::{decimal, push_decimal};

verus! {

/// The bytes of a text.
pub open spec fn utf8(text: Seq<char>) -> Seq<u8> {
    encode_utf8(text)
}

/// The lower-case form of the byte of an ASCII letter; any other byte is kept.
pub open spec fn lower_byte(b: u8) -> u8 {
    if 65 <= b && b <= 90 {
        (b + 32) as u8
    } else {
        b
    }
}

pub open spec fn lower_bytes(bytes: Seq<u8>) -> Seq<u8> {
    bytes.map_values(|b: u8| lower_byte(b))
}

/// The line for `(request-target)`: the method in lower case, a space, and
/// the path with its query.
pub open spec fn request_target_line(method: Seq<char>, path: Seq<char>) -> Seq<u8> {
    utf8("(request-target): "@) + lower_bytes(utf8(method)) + utf8(" "@) + utf8(path)
}

/// The line for `(created)`.
pub open spec fn created_line(created: u64) -> Seq<u8> {
    utf8("(created): "@) + utf8(decimal(created as nat))
}

/// The line for `(expires)`.
pub open spec fn expires_line(expires: u64) -> Seq<u8> {
    utf8("(expires): "@) + utf8(decimal(expires as nat))
}

/// The values of one header, with a comma and a space between them.
pub open spec fn join_values(values: Seq<Seq<u8>>) -> Seq<u8>
    decreases values.len(),
{
    if values.len() == 0 {
        Seq::<u8>::empty()
    } else if values.len() == 1 {
        values[0]
    } else {
        join_values(values.drop_last()) + utf8(", "@) + values.last()
    }
}

/// The line of a header: its name, a colon and a space, and its values.
pub open spec fn header_line(name: Seq<char>, values: Seq<Seq<u8>>) -> Seq<u8> {
    utf8(name) + utf8(": "@) + join_values(values)
}

/// The line that one signed name stands for. The names `(created)` and
/// `(expires)` have a line only where the signature holds the time, and a
/// header has a line only where the request holds it.
pub open spec fn line_of(
    name: HeaderNameView,
    created: Option<u64>,
    expires: Option<u64>,
    method: Seq<char>,
    path: Seq<char>,
    entries: HeaderEntries,
) -> Option<Seq<u8>> {
    match name {
        HeaderNameView::RequestTarget => Some(request_target_line(method, path)),
        HeaderNameView::Created => match created {
            Some(t) => Some(created_line(t)),
            None => None,
        },
        HeaderNameView::Expires => match expires {
            Some(t) => Some(expires_line(t)),
            None => None,
        },
        HeaderNameView::NormalHeader(text) => {
            if values_for(entries, text).len() == 0 {
                None
            } else {
                Some(header_line(text, values_for(entries, text)))
            }
        },
    }
}

/// The values that the request holds under the headers of a list of signed
/// names are made of the bytes that a header value may hold.
pub open spec fn signed_values_valid(names: Seq<HeaderNameView>, entries: HeaderEntries) -> bool {
    forall|i: int, k: int|
        0 <= i < names.len() && names[i] is NormalHeader && 0 <= k < values_for(
            entries,
            names[i]->NormalHeader_0,
        ).len() ==> all_value_bytes(#[trigger] values_for(entries, names[i]->NormalHeader_0)[k])
}

/// The same of the names that a signature lists.
pub open spec fn values_valid(sig: SignatureView, entries: HeaderEntries) -> bool {
    match sig.headers {
        Some(names) => signed_values_valid(names, entries),
        None => true,
    }
}

/// The lines of a list of signed names with a line feed between them; `None`
/// where one of the names has no line.
pub open spec fn lines_joined(
    names: Seq<HeaderNameView>,
    created: Option<u64>,
    expires: Option<u64>,
    method: Seq<char>,
    path: Seq<char>,
    entries: HeaderEntries,
) -> Option<Seq<u8>>
    decreases names.len(),
{
    if names.len() == 0 {
        Some(Seq::<u8>::empty())
    } else {
        match (
            lines_joined(names.drop_last(), created, expires, method, path, entries),
            line_of(names.last(), created, expires, method, path, entries),
        ) {
            (Some(head), Some(line)) => Some(
                if names.len() == 1 {
                    line
                } else {
                    head + utf8("\n"@) + line
                },
            ),
            _ => None,
        }
    }
}

/// The signing string of a signature for a request: the lines of the names
/// that the signature itself lists, and the `(created)` line alone for a
/// signature that lists none. `None` where a time is asked for that the
/// signature lacks, or a header that the request lacks.
pub open spec fn signing_string(
    sig: SignatureView,
    method: Seq<char>,
    path: Seq<char>,
    entries: HeaderEntries,
) -> Option<Seq<u8>> {
    match sig.headers {
        Some(names) => lines_joined(names, sig.created, sig.expires, method, path, entries),
        None => match sig.created {
            Some(t) => Some(created_line(t)),
            None => None,
        },
    }
}

/// The signature has run out at the time `now`.
pub open spec fn expired(sig: SignatureView, now: u64) -> bool {
    sig.expires matches Some(t) && t < now
}

/// The bytes that are handed to the check of a signature at the time `now`;
/// `None` where the signature is turned down without a check.
pub open spec fn signing_input(
    sig: SignatureView,
    now: u64,
    method: Seq<char>,
    path: Seq<char>,
    entries: HeaderEntries,
) -> Option<Seq<u8>> {
    if expired(sig, now) {
        None
    } else {
        signing_string(sig, method, path, entries)
    }
}

/// The lines of all headers of a request, each after a line feed.
pub open spec fn header_lines(entries: HeaderEntries) -> Seq<u8>
    decreases entries.len(),
{
    if entries.len() == 0 {
        Seq::<u8>::empty()
    } else {
        header_lines(entries.drop_last()) + utf8("\n"@) + header_line(
            entries.last().0,
            entries.last().1,
        )
    }
}

/// The signing string of a new signature: the request target, the two
/// times, and every header of the request.
pub open spec fn create_body(
    method: Seq<char>,
    path: Seq<char>,
    created: u64,
    expires: u64,
    entries: HeaderEntries,
) -> Seq<u8> {
    request_target_line(method, path) + utf8("\n"@) + created_line(created) + utf8("\n"@)
        + expires_line(expires) + header_lines(entries)
}

/// The signing string of a new signature of the old style: the request
/// target and every header of the request.
pub open spec fn legacy_body(method: Seq<char>, path: Seq<char>, entries: HeaderEntries) -> Seq<
    u8,
> {
    request_target_line(method, path) + header_lines(entries)
}

/// The names of the headers of a request, as signed names.
pub open spec fn entry_names(entries: HeaderEntries) -> Seq<HeaderNameView> {
    entries.map_values(|entry: (Seq<char>, Seq<Seq<u8>>)| HeaderNameView::NormalHeader(entry.0))
}

/// The signature that is made over a request at the time `created`.
pub open spec fn created_signature(
    key_id: Seq<char>,
    created: u64,
    expires: u64,
    entries: HeaderEntries,
    signature: Seq<u8>,
) -> SignatureView {
    SignatureView {
        algorithm: Some("hs2019"@),
        created: Some(created),
        expires: Some(expires),
        headers: Some(
            seq![HeaderNameView::RequestTarget, HeaderNameView::Created, HeaderNameView::Expires]
                + entry_names(entries),
        ),
        key_id: Some(key_id),
        signature,
    }
}

/// The signature of the old style that is made over a request.
pub open spec fn legacy_signature(
    key_id: Seq<char>,
    entries: HeaderEntries,
    signature: Seq<u8>,
) -> SignatureView {
    SignatureView {
        algorithm: Some("hs2019"@),
        created: None,
        expires: None,
        headers: Some(seq![HeaderNameView::RequestTarget] + entry_names(entries)),
        key_id: Some(key_id),
        signature,
    }
}

pub proof fn lemma_lines_joined_push(
    names: Seq<HeaderNameView>,
    name: HeaderNameView,
    created: Option<u64>,
    expires: Option<u64>,
    method: Seq<char>,
    path: Seq<char>,
    entries: HeaderEntries,
)
    ensures
        lines_joined(names.push(name), created, expires, method, path, entries) == match (
            lines_joined(names, created, expires, method, path, entries),
            line_of(name, created, expires, method, path, entries),
        ) {
            (Some(head), Some(line)) => Some(
                if names.len() == 0 {
                    line
                } else {
                    head + utf8("\n"@) + line
                },
            ),
            _ => None,
        },
{
    assert(names.push(name).drop_last() =~= names);
}

/// Once a name has no line, no longer list has a signing string.
pub proof fn lemma_lines_joined_none(
    names: Seq<HeaderNameView>,
    k: int,
    created: Option<u64>,
    expires: Option<u64>,
    method: Seq<char>,
    path: Seq<char>,
    entries: HeaderEntries,
)
    requires
        0 <= k <= names.len(),
        lines_joined(names.take(k), created, expires, method, path, entries) is None,
    ensures
        lines_joined(names, created, expires, method, path, entries) is None,
    decreases names.len() - k,
{
    if k < names.len() {
        assert(names.take(k + 1).drop_last() =~= names.take(k));
        lemma_lines_joined_none(names, k + 1, created, expires, method, path, entries);
    } else {
        assert(names.take(k) =~= names);
    }
}

/// Appends bytes.
pub fn push_bytes(out: &mut Vec<u8>, bytes: &[u8])
    ensures
        final(out)@ == old(out)@ + bytes@,
{
    let mut i: usize = 0;
    while i < bytes.len()
        invariant
            i <= bytes.len(),
            out@ == old(out)@ + bytes@.take(i as int),
        decreases bytes.len() - i,
    {
        out.push(bytes[i]);
        proof {
            assert(bytes@.take(i + 1) =~= bytes@.take(i as int).push(bytes@[i as int]));
            assert(out@ =~= old(out)@ + bytes@.take(i + 1));
        }
        i += 1;
    }
    proof {
        assert(bytes@.take(bytes.len() as int) =~= bytes@);
    }
}

/// Appends the bytes of a text.
pub fn push_text(out: &mut Vec<u8>, text: &str)
    ensures
        final(out)@ == old(out)@ + utf8(text@),
{
    push_bytes(out, text.as_bytes());
}

/// Appends the bytes of a text with the ASCII letters lowered.
fn push_lowered(out: &mut Vec<u8>, text: &str)
    ensures
        final(out)@ == old(out)@ + lower_bytes(utf8(text@)),
{
    let bytes = text.as_bytes();
    let mut i: usize = 0;
    while i < bytes.len()
        invariant
            i <= bytes.len(),
            bytes@ == utf8(text@),
            out@ == old(out)@ + lower_bytes(bytes@.take(i as int)),
        decreases bytes.len() - i,
    {
        let b = bytes[i];
        let low: u8 = if 65 <= b && b <= 90 {
            b + 32
        } else {
            b
        };
        out.push(low);
        proof {
            assert(bytes@.take(i + 1) =~= bytes@.take(i as int).push(bytes@[i as int]));
            assert(lower_bytes(bytes@.take(i + 1)) =~= lower_bytes(bytes@.take(i as int)).push(
                low,
            ));
            assert(out@ =~= old(out)@ + lower_bytes(bytes@.take(i + 1)));
        }
        i += 1;
    }
    proof {
        assert(bytes@.take(bytes.len() as int) =~= bytes@);
    }
}

/// Appends the `(request-target)` line.
pub fn push_request_target(out: &mut Vec<u8>, method: &str, path: &str)
    ensures
        final(out)@ == old(out)@ + request_target_line(method@, path@),
{
    push_text(out, "(request-target): ");
    push_lowered(out, method);
    push_text(out, " ");
    push_text(out, path);
    assert(out@ =~= old(out)@ + request_target_line(method@, path@));
}

/// Appends the `(created)` line.
pub fn push_created_line(out: &mut Vec<u8>, created: u64)
    ensures
        final(out)@ == old(out)@ + created_line(created),
{
    push_text(out, "(created): ");
    let mut number = String::new();
    push_decimal(&mut number, created);
    push_text(out, number.as_str());
    assert(number@ =~= decimal(created as nat));
    assert(out@ =~= old(out)@ + created_line(created));
}

/// Appends the `(expires)` line.
pub fn push_expires_line(out: &mut Vec<u8>, expires: u64)
    ensures
        final(out)@ == old(out)@ + expires_line(expires),
{
    push_text(out, "(expires): ");
    let mut number = String::new();
    push_decimal(&mut number, expires);
    push_text(out, number.as_str());
    assert(number@ =~= decimal(expires as nat));
    assert(out@ =~= old(out)@ + expires_line(expires));
}

/// Appends the line of a header.
pub fn push_header_line(out: &mut Vec<u8>, name: &str, values: &Vec<Vec<u8>>)
    ensures
        final(out)@ == old(out)@ + header_line(name@, values_view(values@)),
{
    push_text(out, name);
    push_text(out, ": ");
    let ghost prefix = out@;
    let ghost all = values_view(values@);
    let mut k: usize = 0;
    proof {
        assert(prefix + join_values(all.take(0)) =~= prefix);
    }
    while k < values.len()
        invariant
            k <= values.len(),
            all == values_view(values@),
            out@ == prefix + join_values(all.take(k as int)),
        decreases values.len() - k,
    {
        if k != 0 {
            push_text(out, ", ");
        }
        push_bytes(out, values[k].as_slice());
        proof {
            let joined = join_values(all.take(k as int));
            let value = values@[k as int]@;
            assert(all.take(k + 1).drop_last() =~= all.take(k as int));
            assert(all.take(k + 1).last() == value);
            if k == 0 {
                assert(joined =~= Seq::<u8>::empty());
                assert(join_values(all.take(1)) == value);
                assert(out@ =~= prefix + value);
            } else {
                assert(join_values(all.take(k + 1)) == joined + utf8(", "@) + value);
                assert(out@ =~= prefix + (joined + utf8(", "@) + value));
            }
        }
        k += 1;
    }
    proof {
        assert(all.take(values.len() as int) =~= all);
        assert(out@ =~= old(out)@ + header_line(name@, all));
    }
}

} // verus!

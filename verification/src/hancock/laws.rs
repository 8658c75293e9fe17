//! What holds of making, writing, reading and checking signatures together.

use vstd::prelude::*;
use vstd::string::*;
use vstd::utf8::*;
use crate::hancock::canonical::{
    create_body, created_line, created_signature, entry_names, expires_line, header_line,
    header_lines, join_values, legacy_body, legacy_signature, lemma_lines_joined_push, line_of,
    lines_joined, request_target_line, signed_values_valid, signing_input, signing_string, utf8,
    values_valid,
};
use crate::hancock::chars::unquote;
use crate::hancock::headers::{
    all_value_bytes, is_canonical_name, is_name_char, is_value_byte, lemma_values_of_entry, lower,
    names_wf, values_for, values_present, HeaderEntries,
};
use crate::hancock::model::{HeaderNameView, SignatureView};
use crate::hancock::roundtrip::{
    base64_reads_back, lemma_header_roundtrip, name_reads_back, plain, wire_safe,
};
use crate::hancock::wire::{spec_parse, spec_to_header};
use crate::hancock::ParseError;

verus! {

/// The lines of the headers of a request, signed under their own names, are
/// the lines of the entries.
proof fn lemma_entry_lines(
    first: Seq<HeaderNameView>,
    base: Seq<u8>,
    created: Option<u64>,
    expires: Option<u64>,
    method: Seq<char>,
    path: Seq<char>,
    entries: HeaderEntries,
    k: int,
)
    requires
        names_wf(entries),
        values_present(entries),
        0 <= k <= entries.len(),
        first.len() >= 1,
        lines_joined(first, created, expires, method, path, entries) == Some(base),
    ensures
        lines_joined(
            first + entry_names(entries.take(k)),
            created,
            expires,
            method,
            path,
            entries,
        ) == Some(base + header_lines(entries.take(k))),
    decreases k,
{
    if k == 0 {
        assert(first + entry_names(entries.take(0)) =~= first);
        assert(base + header_lines(entries.take(0)) =~= base);
    } else {
        lemma_entry_lines(first, base, created, expires, method, path, entries, k - 1);
        let entry = entries[k - 1];
        let name = HeaderNameView::NormalHeader(entry.0);
        let before = first + entry_names(entries.take(k - 1));
        assert(first + entry_names(entries.take(k)) =~= before.push(name));
        lemma_lines_joined_push(before, name, created, expires, method, path, entries);
        lemma_values_of_entry(entries, k - 1);
        assert(entries.take(k).drop_last() =~= entries.take(k - 1));
        assert(entries.take(k).last() == entry);
        assert(base + header_lines(entries.take(k - 1)) + utf8("\n"@) + header_line(
            entry.0,
            entry.1,
        ) =~= base + header_lines(entries.take(k)));
    }
}

/// The signing string that is rebuilt from a new signature, for the request
/// over which it was made, is the string that was signed.
pub proof fn lemma_created_signing_string(
    key_id: Seq<char>,
    created: u64,
    expires: u64,
    entries: HeaderEntries,
    signature: Seq<u8>,
    method: Seq<char>,
    path: Seq<char>,
)
    requires
        names_wf(entries),
        values_present(entries),
    ensures
        signing_string(
            created_signature(key_id, created, expires, entries, signature),
            method,
            path,
            entries,
        ) == Some(create_body(method, path, created, expires, entries)),
{
    let c = Some(created);
    let e = Some(expires);
    let n0 = Seq::<HeaderNameView>::empty();
    let n1 = n0.push(HeaderNameView::RequestTarget);
    let n2 = n1.push(HeaderNameView::Created);
    let n3 = n2.push(HeaderNameView::Expires);
    lemma_lines_joined_push(n0, HeaderNameView::RequestTarget, c, e, method, path, entries);
    lemma_lines_joined_push(n1, HeaderNameView::Created, c, e, method, path, entries);
    lemma_lines_joined_push(n2, HeaderNameView::Expires, c, e, method, path, entries);
    let first = seq![
        HeaderNameView::RequestTarget,
        HeaderNameView::Created,
        HeaderNameView::Expires,
    ];
    assert(n3 =~= first);
    let base = request_target_line(method, path) + utf8("\n"@) + created_line(created) + utf8(
        "\n"@,
    ) + expires_line(expires);
    assert(lines_joined(first, c, e, method, path, entries) == Some(base));
    lemma_entry_lines(first, base, c, e, method, path, entries, entries.len() as int);
    assert(entries.take(entries.len() as int) =~= entries);
}

/// The signing string that is rebuilt from a new signature of the old style,
/// for the request over which it was made, is the string that was signed.
pub proof fn lemma_legacy_signing_string(
    key_id: Seq<char>,
    entries: HeaderEntries,
    signature: Seq<u8>,
    method: Seq<char>,
    path: Seq<char>,
)
    requires
        names_wf(entries),
        values_present(entries),
    ensures
        signing_string(legacy_signature(key_id, entries, signature), method, path, entries)
            == Some(legacy_body(method, path, entries)),
{
    let n0 = Seq::<HeaderNameView>::empty();
    lemma_lines_joined_push(n0, HeaderNameView::RequestTarget, None, None, method, path, entries);
    let first = seq![HeaderNameView::RequestTarget];
    assert(n0.push(HeaderNameView::RequestTarget) =~= first);
    let base = request_target_line(method, path);
    lemma_entry_lines(first, base, None, None, method, path, entries, entries.len() as int);
    assert(entries.take(entries.len() as int) =~= entries);
}

/// A new signature with a plain key id is one whose header reads back.
pub proof fn lemma_created_wire_safe(
    key_id: Seq<char>,
    created: u64,
    expires: u64,
    entries: HeaderEntries,
    signature: Seq<u8>,
)
    requires
        names_wf(entries),
        values_present(entries),
        plain(key_id),
    ensures
        wire_safe(created_signature(key_id, created, expires, entries, signature)),
{
    reveal_strlit("hs2019");
    let name = "hs2019"@;
    assert(is_canonical_name(name)) by {
        assert forall|i: int| 0 <= i < name.len() implies is_name_char(#[trigger] name[i])
            && lower(name[i]) == name[i] by {}
        assert(name.map_values(|c: char| lower(c)) =~= name);
    }
    assert(unquote(name) == name);
    let sig = created_signature(key_id, created, expires, entries, signature);
    let names = sig.headers->0;
    assert forall|i: int| 0 <= i < names.len() implies name_reads_back(#[trigger] names[i]) by {
        if i >= 3 {
            assert(names[i] == HeaderNameView::NormalHeader(entries[i - 3].0));
            assert(is_canonical_name(entries[i - 3].0));
        }
    }
}

/// A signature made over a request, written as a header and read again, is
/// the same signature, and until it runs out the bytes that are handed to
/// its check, for the same request, are the bytes that were signed. Whether
/// the check then passes is the matter of the two functions that sign and
/// check.
pub proof fn lemma_create_roundtrip(
    key_id: Seq<char>,
    method: Seq<char>,
    path: Seq<char>,
    created: u64,
    expires: u64,
    entries: HeaderEntries,
    signature: Seq<u8>,
    now: u64,
)
    requires
        names_wf(entries),
        values_present(entries),
        plain(key_id),
        base64_reads_back(signature),
        now <= expires,
    ensures
        spec_parse(
            spec_to_header(created_signature(key_id, created, expires, entries, signature)),
        ) == Ok::<SignatureView, ParseError>(
            created_signature(key_id, created, expires, entries, signature),
        ),
        signing_input(
            created_signature(key_id, created, expires, entries, signature),
            now,
            method,
            path,
            entries,
        ) == Some(create_body(method, path, created, expires, entries)),
{
    lemma_created_wire_safe(key_id, created, expires, entries, signature);
    lemma_header_roundtrip(created_signature(key_id, created, expires, entries, signature));
    lemma_created_signing_string(key_id, created, expires, entries, signature, method, path);
}

/// A signature that has run out is turned down whatever its bytes are.
pub proof fn lemma_expired_is_refused(
    sig: SignatureView,
    now: u64,
    method: Seq<char>,
    path: Seq<char>,
    entries: HeaderEntries,
)
    requires
        sig.expires matches Some(t) && t < now,
    ensures
        signing_input(sig, now, method, path, entries) is None,
{
}

/// The bytes hold no line feed.
pub open spec fn no_line_feed(bytes: Seq<u8>) -> bool {
    forall|i: int| 0 <= i < bytes.len() ==> #[trigger] bytes[i] != 10
}

/// The lines of a list of signed names, each after a line feed.
pub open spec fn following_lines(
    names: Seq<HeaderNameView>,
    created: Option<u64>,
    expires: Option<u64>,
    method: Seq<char>,
    path: Seq<char>,
    entries: HeaderEntries,
) -> Option<Seq<u8>>
    decreases names.len(),
{
    if names.len() == 0 {
        Some(Seq::<u8>::empty())
    } else {
        match (
            line_of(names.first(), created, expires, method, path, entries),
            following_lines(names.drop_first(), created, expires, method, path, entries),
        ) {
            (Some(line), Some(rest)) => Some(utf8("\n"@) + line + rest),
            _ => None,
        }
    }
}

proof fn lemma_line_feed()
    ensures
        utf8("\n"@) == seq![10u8],
        utf8(", "@) == seq![44u8, 32u8],
{
    reveal_strlit("\n");
    reveal_strlit(", ");
    is_ascii_chars_encode_utf8("\n"@);
    is_ascii_chars_encode_utf8(", "@);
    assert(utf8("\n"@) =~= seq![10u8]);
    assert(utf8(", "@) =~= seq![44u8, 32u8]);
}

proof fn lemma_following_push(
    names: Seq<HeaderNameView>,
    name: HeaderNameView,
    created: Option<u64>,
    expires: Option<u64>,
    method: Seq<char>,
    path: Seq<char>,
    entries: HeaderEntries,
)
    ensures
        following_lines(names.push(name), created, expires, method, path, entries) == match (
            following_lines(names, created, expires, method, path, entries),
            line_of(name, created, expires, method, path, entries),
        ) {
            (Some(head), Some(line)) => Some(head + utf8("\n"@) + line),
            _ => None,
        },
    decreases names.len(),
{
    let all = names.push(name);
    if names.len() == 0 {
        assert(all.drop_first() =~= names);
        assert(all.first() == name);
        if let Some(line) = line_of(name, created, expires, method, path, entries) {
            assert(utf8("\n"@) + line + Seq::<u8>::empty() =~= Seq::<u8>::empty() + utf8("\n"@)
                + line);
        }
    } else {
        lemma_following_push(names.drop_first(), name, created, expires, method, path, entries);
        assert(all.drop_first() =~= names.drop_first().push(name));
        assert(all.first() == names.first());
        let first = line_of(names.first(), created, expires, method, path, entries);
        let rest = following_lines(names.drop_first(), created, expires, method, path, entries);
        let last = line_of(name, created, expires, method, path, entries);
        if first is Some && rest is Some && last is Some {
            assert(utf8("\n"@) + first->0 + (rest->0 + utf8("\n"@) + last->0) =~= utf8("\n"@)
                + first->0 + rest->0 + utf8("\n"@) + last->0);
        }
    }
}

/// The signing string of a list of names, after one line feed, is the lines
/// that follow.
proof fn lemma_following_is_joined(
    names: Seq<HeaderNameView>,
    created: Option<u64>,
    expires: Option<u64>,
    method: Seq<char>,
    path: Seq<char>,
    entries: HeaderEntries,
)
    requires
        names.len() >= 1,
    ensures
        following_lines(names, created, expires, method, path, entries) == match lines_joined(
            names,
            created,
            expires,
            method,
            path,
            entries,
        ) {
            Some(joined) => Some(utf8("\n"@) + joined),
            None => None,
        },
    decreases names.len(),
{
    let head = names.drop_last();
    let last = names.last();
    assert(head.push(last) =~= names);
    lemma_following_push(head, last, created, expires, method, path, entries);
    if head.len() >= 1 {
        lemma_following_is_joined(head, created, expires, method, path, entries);
        let joined = lines_joined(head, created, expires, method, path, entries);
        let line = line_of(last, created, expires, method, path, entries);
        if joined is Some && line is Some {
            assert(utf8("\n"@) + joined->0 + utf8("\n"@) + line->0 =~= utf8("\n"@) + (joined->0
                + utf8("\n"@) + line->0));
        }
    } else {
        let line = line_of(last, created, expires, method, path, entries);
        if line is Some {
            assert(Seq::<u8>::empty() + utf8("\n"@) + line->0 =~= utf8("\n"@) + line->0);
        }
    }
}

proof fn lemma_cancel_prefix(p: Seq<u8>, x: Seq<u8>, y: Seq<u8>)
    requires
        p + x == p + y,
    ensures
        x == y,
{
    assert((p + x).skip(p.len() as int) =~= x);
    assert((p + y).skip(p.len() as int) =~= y);
}

/// Two different texts without a line feed stay different when each is
/// followed by nothing or by a line feed and more.
proof fn lemma_differ_before_line_feed(jb: Seq<u8>, ja: Seq<u8>, tb: Seq<u8>, ta: Seq<u8>)
    requires
        jb != ja,
        no_line_feed(jb),
        no_line_feed(ja),
        tb.len() == 0 || tb[0] == 10,
        ta.len() == 0 || ta[0] == 10,
    ensures
        jb + tb != ja + ta,
{
    if jb + tb == ja + ta {
        let x = jb + tb;
        if jb.len() == ja.len() {
            assert(x.take(jb.len() as int) =~= jb);
            assert(x.take(ja.len() as int) =~= ja);
        } else if jb.len() < ja.len() {
            assert(x[jb.len() as int] == ja[jb.len() as int]);
            assert(x[jb.len() as int] == tb[0]);
        } else {
            assert(x[ja.len() as int] == jb[ja.len() as int]);
            assert(x[ja.len() as int] == ta[0]);
        }
    }
}

proof fn lemma_join_values_no_line_feed(values: Seq<Seq<u8>>)
    requires
        forall|k: int| 0 <= k < values.len() ==> all_value_bytes(#[trigger] values[k]),
    ensures
        no_line_feed(join_values(values)),
    decreases values.len(),
{
    lemma_line_feed();
    if values.len() == 1 {
        let v = values[0];
        assert(all_value_bytes(v));
        assert forall|i: int| 0 <= i < v.len() implies #[trigger] v[i] != 10 by {
            assert(is_value_byte(v[i]));
        }
    } else if values.len() >= 2 {
        let head = values.drop_last();
        assert forall|k: int| 0 <= k < head.len() implies all_value_bytes(#[trigger] head[k]) by {
            assert(head[k] == values[k]);
        }
        lemma_join_values_no_line_feed(head);
        let v = values.last();
        assert(all_value_bytes(v));
        let joined = join_values(head);
        let s = join_values(values);
        assert forall|i: int| 0 <= i < s.len() implies #[trigger] s[i] != 10 by {
            if i < joined.len() {
                assert(s[i] == joined[i]);
            } else if i < joined.len() + 2 {
                assert(s[i] == utf8(", "@)[i - joined.len()]);
            } else {
                assert(s[i] == v[i - joined.len() - 2]);
                assert(is_value_byte(v[i - joined.len() - 2]));
            }
        }
    }
}

/// The values of a header that a signature names, joined, hold no line feed.
proof fn lemma_joined_no_line_feed(names: Seq<HeaderNameView>, i: int, entries: HeaderEntries)
    requires
        signed_values_valid(names, entries),
        0 <= i < names.len(),
        names[i] is NormalHeader,
    ensures
        no_line_feed(join_values(values_for(entries, names[i]->NormalHeader_0))),
{
    let values = values_for(entries, names[i]->NormalHeader_0);
    assert forall|k: int| 0 <= k < values.len() implies all_value_bytes(#[trigger] values[k]) by {}
    lemma_join_values_no_line_feed(values);
}

proof fn lemma_valid_rest(names: Seq<HeaderNameView>, entries: HeaderEntries)
    requires
        signed_values_valid(names, entries),
        names.len() >= 1,
    ensures
        signed_values_valid(names.drop_first(), entries),
{
    let rest = names.drop_first();
    assert forall|i: int, k: int|
        0 <= i < rest.len() && rest[i] is NormalHeader && 0 <= k < values_for(
            entries,
            rest[i]->NormalHeader_0,
        ).len() implies all_value_bytes(
        #[trigger] values_for(entries, rest[i]->NormalHeader_0)[k],
    ) by {
        assert(rest[i] == names[i + 1]);
    }
}

proof fn lemma_following_differs(
    names: Seq<HeaderNameView>,
    k: int,
    created: Option<u64>,
    expires: Option<u64>,
    method: Seq<char>,
    path: Seq<char>,
    before: HeaderEntries,
    after: HeaderEntries,
)
    requires
        0 <= k < names.len(),
        names[k] matches HeaderNameView::NormalHeader(text) && join_values(
            values_for(before, text),
        ) != join_values(values_for(after, text)),
        signed_values_valid(names, before),
        signed_values_valid(names, after),
        following_lines(names, created, expires, method, path, before) is Some,
        following_lines(names, created, expires, method, path, after) is Some,
    ensures
        following_lines(names, created, expires, method, path, before) != following_lines(
            names,
            created,
            expires,
            method,
            path,
            after,
        ),
    decreases names.len(),
{
    lemma_line_feed();
    let lf = utf8("\n"@);
    let rest = names.drop_first();
    let lb = line_of(names.first(), created, expires, method, path, before)->0;
    let la = line_of(names.first(), created, expires, method, path, after)->0;
    let tb = following_lines(rest, created, expires, method, path, before)->0;
    let ta = following_lines(rest, created, expires, method, path, after)->0;
    let sb = lf + lb + tb;
    let sa = lf + la + ta;
    assert(tb.len() == 0 || tb[0] == 10) by {
        if rest.len() > 0 {
            let l = line_of(rest.first(), created, expires, method, path, before)->0;
            let t = following_lines(rest.drop_first(), created, expires, method, path, before)->0;
            assert(tb == lf + l + t);
            assert(tb[0] == lf[0]);
        }
    }
    assert(ta.len() == 0 || ta[0] == 10) by {
        if rest.len() > 0 {
            let l = line_of(rest.first(), created, expires, method, path, after)->0;
            let t = following_lines(rest.drop_first(), created, expires, method, path, after)->0;
            assert(ta == lf + l + t);
            assert(ta[0] == lf[0]);
        }
    }
    if lb == la {
        if k == 0 {
            let text = names[0]->NormalHeader_0;
            let pre = utf8(text) + utf8(": "@);
            lemma_cancel_prefix(
                pre,
                join_values(values_for(before, text)),
                join_values(values_for(after, text)),
            );
            assert(false);
        }
        assert(rest[k - 1] == names[k]);
        lemma_valid_rest(names, before);
        lemma_valid_rest(names, after);
        lemma_following_differs(rest, k - 1, created, expires, method, path, before, after);
        if sb == sa {
            assert(sb =~= (lf + lb) + tb);
            assert(sa =~= (lf + lb) + ta);
            lemma_cancel_prefix(lf + lb, tb, ta);
        }
    } else {
        let text = names[0]->NormalHeader_0;
        assert(names[0] is NormalHeader);
        let pre = utf8(text) + utf8(": "@);
        let jb = join_values(values_for(before, text));
        let ja = join_values(values_for(after, text));
        assert(lb == pre + jb);
        assert(la == pre + ja);
        assert(jb != ja);
        lemma_joined_no_line_feed(names, 0, before);
        lemma_joined_no_line_feed(names, 0, after);
        lemma_differ_before_line_feed(jb, ja, tb, ta);
        if sb == sa {
            assert(sb =~= (lf + pre) + (jb + tb));
            assert(sa =~= (lf + pre) + (ja + ta));
            lemma_cancel_prefix(lf + pre, jb + tb, ja + ta);
        }
    }
}

/// Where the values of a header that a signature names differ between two
/// sets of headers, the signing strings of the signature for the two differ,
/// and where the header is missing from one of them, that one has no signing
/// string at all: in both cases the check of the signature is not handed the
/// bytes that were signed. The values of a header count as they stand in its
/// line, joined with a comma and a space. What is asked of the values of the
/// two sets is what `verify_at` finds of every request that it checks.
pub proof fn lemma_altered_header_alters_signing_string(
    sig: SignatureView,
    method: Seq<char>,
    path: Seq<char>,
    before: HeaderEntries,
    after: HeaderEntries,
    k: int,
)
    requires
        sig.headers matches Some(names) && 0 <= k < names.len() && (names[k] matches HeaderNameView::NormalHeader(
            text,
        ) && join_values(values_for(before, text)) != join_values(values_for(after, text))),
        signing_string(sig, method, path, before) is Some,
        values_valid(sig, before),
        signing_string(sig, method, path, after) is Some ==> values_valid(sig, after),
    ensures
        signing_string(sig, method, path, before) != signing_string(sig, method, path, after),
{
    let names = sig.headers->0;
    lemma_following_is_joined(names, sig.created, sig.expires, method, path, before);
    lemma_following_is_joined(names, sig.created, sig.expires, method, path, after);
    if signing_string(sig, method, path, after) is Some {
        lemma_following_differs(
            names,
            k,
            sig.created,
            sig.expires,
            method,
            path,
            before,
            after,
        );
    }
}

/// A header that a signature names and the request lacks leaves the
/// signature without a signing string, so that it is turned down without a
/// check.
pub proof fn lemma_missing_header_is_refused(
    sig: SignatureView,
    now: u64,
    method: Seq<char>,
    path: Seq<char>,
    entries: HeaderEntries,
    k: int,
)
    requires
        sig.headers matches Some(names) && 0 <= k < names.len() && (names[k] matches HeaderNameView::NormalHeader(
            text,
        ) && values_for(entries, text).len() == 0),
    ensures
        signing_input(sig, now, method, path, entries) is None,
{
    let names = sig.headers->0;
    assert(names.take(k + 1).drop_last() =~= names.take(k));
    assert(names.take(k + 1).last() == names[k]);
    crate::hancock::canonical::lemma_lines_joined_none(
        names,
        k + 1,
        sig.created,
        sig.expires,
        method,
        path,
        entries,
    );
}

} // verus!

//! Header names and the header map of a request, as the `http` crate holds them.

use vstd::prelude::*;
use http::header::HeaderName;
use http::header::HeaderValue;
use http::HeaderMap;

verus! {

#[verifier::external_type_specification]
#[verifier::external_body]
pub struct ExHeaderValue(HeaderValue);

#[verifier::external_type_specification]
#[verifier::external_body]
#[verifier::reject_recursive_types(T)]
pub struct ExHeaderMap<T>(HeaderMap<T>);

/// The headers of a request: each name once, with its values in the order
/// in which they were added.
pub type HeaderEntries = Seq<(Seq<char>, Seq<Seq<u8>>)>;

/// What a header map holds, in the order in which it is walked.
pub uninterp spec fn header_entries(map: HeaderMap<HeaderValue>) -> HeaderEntries;

/// A character that a header name may hold when it is given, before it is
/// lowered: a token character of HTTP, or the double quote.
pub open spec fn is_name_char(c: char) -> bool {
    ||| ('a' <= c && c <= 'z')
    ||| ('A' <= c && c <= 'Z')
    ||| ('0' <= c && c <= '9')
    ||| ('!' <= c && c <= '\'')
    ||| c == '*'
    ||| c == '+'
    ||| c == '-'
    ||| c == '.'
    ||| c == '^'
    ||| c == '_'
    ||| c == '`'
    ||| c == '|'
    ||| c == '~'
}

/// The lower-case form of an ASCII letter; any other character is kept.
pub open spec fn lower(c: char) -> char {
    if 'A' <= c && c <= 'Z' {
        ((c as u8 + 32) as u8) as char
    } else {
        c
    }
}

/// Longest header name, in characters.
pub open spec fn max_name_len() -> int {
    65535
}

pub open spec fn all_name_chars(s: Seq<char>) -> bool {
    forall|i: int| 0 <= i < s.len() ==> is_name_char(#[trigger] s[i])
}

/// The header name that a text gives: the text in lower case, when it is not
/// empty, not longer than the limit and made of name characters.
pub open spec fn canonical_name(s: Seq<char>) -> Option<Seq<char>> {
    if 1 <= s.len() <= max_name_len() && all_name_chars(s) {
        Some(s.map_values(|c: char| lower(c)))
    } else {
        None
    }
}

/// The text is a header name as it stands: valid and in lower case.
pub open spec fn is_canonical_name(s: Seq<char>) -> bool {
    canonical_name(s) == Some(s)
}

/// A byte that a header value may hold.
pub open spec fn is_value_byte(b: u8) -> bool {
    (b >= 32 && b != 127) || b == 9
}

pub open spec fn all_value_bytes(value: Seq<u8>) -> bool {
    forall|i: int| 0 <= i < value.len() ==> is_value_byte(#[trigger] value[i])
}

/// The bytes of a list of values.
pub open spec fn values_view(values: Seq<Vec<u8>>) -> Seq<Seq<u8>> {
    values.map_values(|value: Vec<u8>| value@)
}

/// The values that `entries` holds under `name`; none where the name is absent.
pub open spec fn values_of(entries: HeaderEntries, name: Seq<char>) -> Seq<Seq<u8>>
    decreases entries.len(),
{
    if entries.len() == 0 {
        Seq::<Seq<u8>>::empty()
    } else if entries[0].0 == name {
        entries[0].1
    } else {
        values_of(entries.drop_first(), name)
    }
}

/// The values found when `entries` is asked for a name given as any text: the
/// text is made a header name first, and a text that is none finds nothing.
pub open spec fn values_for(entries: HeaderEntries, given: Seq<char>) -> Seq<Seq<u8>> {
    match canonical_name(given) {
        Some(name) => values_of(entries, name),
        None => Seq::<Seq<u8>>::empty(),
    }
}

/// The names of the entries are header names in lower case, and no name
/// occurs twice.
pub open spec fn names_wf(entries: HeaderEntries) -> bool {
    &&& forall|i: int| 0 <= i < entries.len() ==> is_canonical_name(#[trigger] entries[i].0)
    &&& forall|i: int, j: int|
        0 <= i < entries.len() && 0 <= j < entries.len() && i != j ==> (#[trigger] entries[i]).0
            != (#[trigger] entries[j]).0
}

/// Every entry holds at least one value.
pub open spec fn values_present(entries: HeaderEntries) -> bool {
    forall|i: int| 0 <= i < entries.len() ==> (#[trigger] entries[i]).1.len() >= 1
}

/// `HeaderName::from_bytes` of the `http` crate, on the bytes of a text. It
/// accepts a text of 1 to 65535 bytes, each of which its table of name
/// characters knows, and gives the name with the ASCII letters lowered. The
/// contract says which texts are accepted and what the name reads.
#[verifier::external_body]
pub(crate) fn header_name_text(src: &str) -> (r: Option<String>)
    ensures
        match r {
            Some(name) => canonical_name(src@) == Some(name@),
            None => canonical_name(src@) is None,
        },
{
    match HeaderName::from_bytes(src.as_bytes()) {
        Ok(name) => Some(name.as_str().to_owned()),
        Err(_) => None,
    }
}

/// `HeaderMap::keys` of the `http` crate: the names of the map in the order in
/// which it is walked, each name once. The contract claims that they are the
/// names of the entries, and what the crate holds of every name: that it is a
/// header name in lower case, found once, and held with at least one value.
#[verifier::external_body]
pub(crate) fn header_names(map: &HeaderMap<HeaderValue>) -> (r: Vec<String>)
    ensures
        r@.len() == header_entries(*map).len(),
        forall|i: int| 0 <= i < r@.len() ==> (#[trigger] r@[i])@ == header_entries(*map)[i].0,
        forall|i: int| 0 <= i < r@.len() ==> is_canonical_name((#[trigger] r@[i])@),
        forall|i: int, j: int|
            0 <= i < r@.len() && 0 <= j < r@.len() && i != j ==> (#[trigger] r@[i])@ != (
            #[trigger] r@[j])@,
        forall|i: int| 0 <= i < r@.len() ==> (#[trigger] header_entries(*map)[i]).1.len() >= 1,
{
    map.keys().map(|name| name.as_str().to_owned()).collect()
}

/// `HeaderMap::get_all` of the `http` crate, asked with a text: the values
/// held under the name that the text gives, in the order in which they were
/// added, and none where the text is no header name or the name is absent.
/// The contract claims this, and that every value is made of the bytes that
/// the crate admits in a header value.
#[verifier::external_body]
pub(crate) fn header_values(map: &HeaderMap<HeaderValue>, name: &str) -> (r: Vec<Vec<u8>>)
    ensures
        values_view(r@) == values_for(header_entries(*map), name@),
        forall|k: int| 0 <= k < r@.len() ==> all_value_bytes((#[trigger] r@[k])@),
{
    map.get_all(name).iter().map(|value| value.as_bytes().to_vec()).collect()
}

/// `HeaderMap::contains_key` of the `http` crate, asked with a text: whether
/// the map holds the name that the text gives. A name that is held has at
/// least one value.
#[verifier::external_body]
pub(crate) fn header_present(map: &HeaderMap<HeaderValue>, name: &str) -> (r: bool)
    ensures
        r == (values_for(header_entries(*map), name@).len() > 0),
{
    map.contains_key(name)
}

/// The names of a header map, in the order in which it is walked.
pub fn names_in_order(map: &HeaderMap<HeaderValue>) -> (r: Vec<String>)
    ensures
        r@.len() == header_entries(*map).len(),
        forall|i: int| 0 <= i < r@.len() ==> (#[trigger] r@[i])@ == header_entries(*map)[i].0,
        names_wf(header_entries(*map)),
        values_present(header_entries(*map)),
{
    let names = header_names(map);
    proof {
        let entries = header_entries(*map);
        assert forall|i: int| 0 <= i < entries.len() implies is_canonical_name(
            #[trigger] entries[i].0,
        ) by {
            assert(names@[i]@ == entries[i].0);
        }
        assert forall|i: int, j: int|
            0 <= i < entries.len() && 0 <= j < entries.len() && i != j implies (
        #[trigger] entries[i]).0 != (#[trigger] entries[j]).0 by {
            assert(names@[i]@ == entries[i].0);
            assert(names@[j]@ == entries[j].0);
        }
    }
    names
}

/// Under the name of one of its entries, a list of entries with well-formed
/// names holds the values of that entry.
pub proof fn lemma_values_of_entry(entries: HeaderEntries, i: int)
    requires
        names_wf(entries),
        0 <= i < entries.len(),
    ensures
        values_for(entries, entries[i].0) == entries[i].1,
        values_of(entries, entries[i].0) == entries[i].1,
    decreases entries.len(),
{
    assert(is_canonical_name(entries[i].0));
    if i > 0 {
        let rest = entries.drop_first();
        assert(entries[0].0 != entries[i].0);
        assert forall|a: int, b: int|
            0 <= a < rest.len() && 0 <= b < rest.len() && a != b implies (#[trigger] rest[a]).0 != (
        #[trigger] rest[b]).0 by {
            assert(rest[a] == entries[a + 1]);
            assert(rest[b] == entries[b + 1]);
        }
        assert forall|a: int| 0 <= a < rest.len() implies is_canonical_name(
            #[trigger] rest[a].0,
        ) by {
            assert(rest[a] == entries[a + 1]);
        }
        lemma_values_of_entry(rest, i - 1);
        assert(rest[i - 1] == entries[i]);
    }
}

} // verus!

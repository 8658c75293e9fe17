//! Text helpers shared by the header codec: ASCII scanning, splitting and quoting.

use vstd::prelude::*;
use vstd::string::*;
use vstd::utf8::*;

verus! {

/// A character that may stand in a header value that is read as text:
/// printable ASCII, the space and the horizontal tab.
pub open spec fn is_visible_ascii(c: char) -> bool {
    (' ' <= c && c <= '~') || c == '\t'
}

/// Every character of `s` is visible ASCII.
pub open spec fn all_visible_ascii(s: Seq<char>) -> bool {
    forall|i: int| 0 <= i < s.len() ==> is_visible_ascii(#[trigger] s[i])
}

/// The pieces of `s` between occurrences of `sep`, in order. A text with `n`
/// separators has `n + 1` pieces, some of which may be empty.
pub open spec fn split(s: Seq<char>, sep: char) -> Seq<Seq<char>>
    decreases s.len(),
{
    if s.len() == 0 {
        seq![Seq::<char>::empty()]
    } else {
        let head = split(s.drop_last(), sep);
        if s.last() == sep {
            head.push(Seq::<char>::empty())
        } else {
            head.update(head.len() - 1, head.last().push(s.last()))
        }
    }
}

/// The pieces of `parts` written one after the other with `sep` between them.
pub open spec fn join(parts: Seq<Seq<char>>, sep: Seq<char>) -> Seq<char>
    decreases parts.len(),
{
    if parts.len() == 0 {
        Seq::<char>::empty()
    } else if parts.len() == 1 {
        parts[0]
    } else {
        join(parts.drop_last(), sep) + sep + parts.last()
    }
}

/// The text without one pair of surrounding double quotes, if it has one.
pub open spec fn unquote(s: Seq<char>) -> Seq<char> {
    if s.len() >= 2 && s.first() == '"' && s.last() == '"' {
        s.subrange(1, s.len() - 1)
    } else {
        s
    }
}

pub proof fn lemma_split_nonempty(s: Seq<char>, sep: char)
    ensures
        split(s, sep).len() >= 1,
    decreases s.len(),
{
    if s.len() > 0 {
        lemma_split_nonempty(s.drop_last(), sep);
    }
}

/// How `split` grows when one character is appended.
pub proof fn lemma_split_push(s: Seq<char>, c: char, sep: char)
    ensures
        split(s, sep).len() >= 1,
        c == sep ==> split(s.push(c), sep) == split(s, sep).push(Seq::<char>::empty()),
        c != sep ==> split(s.push(c), sep) == split(s, sep).update(
            split(s, sep).len() - 1,
            split(s, sep).last().push(c),
        ),
{
    lemma_split_nonempty(s, sep);
    assert(s.push(c).drop_last() =~= s);
}

/// A text without the separator is its own single piece.
pub proof fn lemma_split_plain(s: Seq<char>, sep: char)
    requires
        !s.contains(sep),
    ensures
        split(s, sep) == seq![s],
    decreases s.len(),
{
    if s.len() == 0 {
        assert(s =~= Seq::<char>::empty());
    } else {
        let head = s.drop_last();
        assert forall|i: int| 0 <= i < head.len() implies head[i] != sep by {
            assert(s[i] == head[i]);
            assert(s.contains(s[i]));
        }
        assert(!head.contains(sep));
        lemma_split_plain(head, sep);
        assert(s.contains(s.last()));
        assert(head.push(s.last()) =~= s);
        assert(split(s, sep) =~= seq![s]);
    }
}

/// Splitting distributes over a separator that joins two texts.
pub proof fn lemma_split_concat(a: Seq<char>, b: Seq<char>, sep: char)
    ensures
        split(a + seq![sep] + b, sep) == split(a, sep) + split(b, sep),
    decreases b.len(),
{
    lemma_split_nonempty(a, sep);
    if b.len() == 0 {
        assert(a + seq![sep] + b =~= a.push(sep));
        lemma_split_push(a, sep, sep);
        assert(split(b, sep) =~= seq![Seq::<char>::empty()]);
        assert(split(a, sep).push(Seq::<char>::empty()) =~= split(a, sep) + split(b, sep));
    } else {
        let b0 = b.drop_last();
        let c = b.last();
        lemma_split_concat(a, b0, sep);
        lemma_split_nonempty(b0, sep);
        assert(a + seq![sep] + b =~= (a + seq![sep] + b0).push(c));
        assert(b0.push(c) =~= b);
        lemma_split_push(a + seq![sep] + b0, c, sep);
        lemma_split_push(b0, c, sep);
        let left = split(a, sep);
        let right = split(b0, sep);
        if c == sep {
            assert((left + right).push(Seq::<char>::empty()) =~= left + right.push(
                Seq::<char>::empty(),
            ));
        } else {
            assert((left + right).update(
                (left + right).len() - 1,
                (left + right).last().push(c),
            ) =~= left + right.update(right.len() - 1, right.last().push(c)));
        }
    }
}

/// A text that holds the separator has at least two pieces.
pub proof fn lemma_split_contains(s: Seq<char>, sep: char)
    requires
        s.contains(sep),
    ensures
        split(s, sep).len() >= 2,
    decreases s.len(),
{
    lemma_split_nonempty(s.drop_last(), sep);
    if s.last() != sep {
        let k = choose|k: int| 0 <= k < s.len() && s[k] == sep;
        assert(s.drop_last()[k] == sep);
        lemma_split_contains(s.drop_last(), sep);
    }
}

/// Number of characters of an ASCII text.
pub fn ascii_len(s: &str) -> (n: usize)
    requires
        is_ascii_chars(s@),
    ensures
        n == s@.len(),
{
    proof {
        is_ascii_spec_bytes(s);
        assert(s.spec_bytes().len() == s@.len());
    }
    s.as_bytes().len()
}

/// Tests whether every character of `s` is visible ASCII.
pub fn check_visible_ascii(s: &str) -> (r: bool)
    ensures
        r == all_visible_ascii(s@),
        r ==> is_ascii_chars(s@),
{
    if !s.is_ascii() {
        assert(!all_visible_ascii(s@)) by {
            if all_visible_ascii(s@) {
                assert forall|i: int| 0 <= i < s@.len() implies '\0' <= #[trigger] s@[i]
                    <= '\u{7f}' by {
                    assert(is_visible_ascii(s@[i]));
                }
            }
        }
        return false;
    }
    let n = ascii_len(s);
    let mut i: usize = 0;
    while i < n
        invariant
            is_ascii_chars(s@),
            n == s@.len(),
            i <= n,
            forall|j: int| 0 <= j < i ==> is_visible_ascii(#[trigger] s@[j]),
        decreases n - i,
    {
        let b = s.get_ascii(i);
        if !((b >= 32 && b < 127) || b == 9) {
            assert(!is_visible_ascii(s@[i as int]));
            return false;
        }
        assert(is_visible_ascii(s@[i as int]));
        i += 1;
    }
    true
}

/// Position of the first occurrence of the ASCII character `c` in `s`.
pub fn find_ascii(s: &str, c: u8) -> (r: Option<usize>)
    requires
        is_ascii_chars(s@),
        c < 128,
    ensures
        match r {
            Some(i) => s@.index_of_first(c as char) == Some(i as int),
            None => s@.index_of_first(c as char) is None,
        },
{
    let n = ascii_len(s);
    let mut i: usize = 0;
    proof {
        s@.index_of_first_ensures(c as char);
    }
    while i < n
        invariant
            is_ascii_chars(s@),
            n == s@.len(),
            i <= n,
            c < 128,
            forall|j: int| 0 <= j < i ==> #[trigger] s@[j] != c as char,
        decreases n - i,
    {
        let b = s.get_ascii(i);
        if b == c {
            proof {
                assert(s@[i as int] == c as char);
                s@.index_of_first_ensures(c as char);
                assert(s@.contains(c as char));
            }
            return Some(i);
        }
        assert(s@[i as int] != c as char);
        i += 1;
    }
    proof {
        s@.index_of_first_ensures(c as char);
        if s@.contains(c as char) {
            let k = choose|k: int| 0 <= k < s@.len() && s@[k] == c as char;
            assert(s@[k] != c as char);
        }
    }
    None
}

/// The texts of a list of pieces.
pub open spec fn piece_views(pieces: Seq<&str>) -> Seq<Seq<char>> {
    pieces.map_values(|piece: &str| piece@)
}

/// Cuts an ASCII text at every occurrence of the ASCII character `sep`.
pub fn split_ascii<'a>(s: &'a str, sep: u8) -> (r: Vec<&'a str>)
    requires
        is_ascii_chars(s@),
        sep < 128,
    ensures
        piece_views(r@) == split(s@, sep as char),
        forall|i: int| 0 <= i < r@.len() ==> is_ascii_chars((#[trigger] r@[i])@),
{
    let n = ascii_len(s);
    let mut out: Vec<&'a str> = Vec::new();
    let mut start: usize = 0;
    let mut i: usize = 0;
    let ghost c = sep as char;
    proof {
        assert(s@.take(0) =~= Seq::<char>::empty());
        assert(piece_views(out@).push(s@.subrange(0, 0)) =~= seq![Seq::<char>::empty()]);
    }
    while i < n
        invariant
            is_ascii_chars(s@),
            n == s@.len(),
            start <= i <= n,
            sep < 128,
            c == sep as char,
            split(s@.take(i as int), c) == piece_views(out@).push(
                s@.subrange(start as int, i as int),
            ),
            forall|j: int| 0 <= j < out@.len() ==> is_ascii_chars((#[trigger] out@[j])@),
        decreases n - i,
    {
        let b = s.get_ascii(i);
        let ghost done = piece_views(out@);
        proof {
            lemma_split_push(s@.take(i as int), s@[i as int], c);
            assert(s@.take(i + 1) =~= s@.take(i as int).push(s@[i as int]));
        }
        if b == sep {
            let piece = s.substring_ascii(start, i);
            out.push(piece);
            proof {
                assert(s@[i as int] == c);
                assert(piece_views(out@) =~= done.push(piece@));
                assert(s@.subrange(i + 1, i + 1) =~= Seq::<char>::empty());
            }
            start = i + 1;
        } else {
            proof {
                assert(s@[i as int] != c);
                assert(s@.subrange(start as int, i + 1) =~= s@.subrange(
                    start as int,
                    i as int,
                ).push(s@[i as int]));
                assert(done.push(s@.subrange(start as int, i as int)).update(
                    done.len() as int,
                    s@.subrange(start as int, i + 1),
                ) =~= done.push(s@.subrange(start as int, i + 1)));
            }
        }
        i += 1;
    }
    let ghost done = piece_views(out@);
    let piece = s.substring_ascii(start, n);
    out.push(piece);
    proof {
        assert(s@.take(n as int) =~= s@);
        assert(piece_views(out@) =~= done.push(piece@));
    }
    out
}

/// Tests two ASCII texts for equality.
pub fn ascii_eq(a: &str, b: &str) -> (r: bool)
    requires
        is_ascii_chars(a@),
        is_ascii_chars(b@),
    ensures
        r == (a@ == b@),
{
    let n = ascii_len(a);
    if ascii_len(b) != n {
        return false;
    }
    let mut i: usize = 0;
    while i < n
        invariant
            is_ascii_chars(a@),
            is_ascii_chars(b@),
            n == a@.len(),
            n == b@.len(),
            i <= n,
            forall|j: int| 0 <= j < i ==> a@[j] == b@[j],
        decreases n - i,
    {
        if a.get_ascii(i) != b.get_ascii(i) {
            assert(a@[i as int] != b@[i as int]);
            return false;
        }
        i += 1;
    }
    assert(a@ =~= b@);
    true
}

/// Strips one pair of surrounding double quotes, if the text has one.
pub fn parse_maybe_quoted(src: &str) -> (r: &str)
    ensures
        r@ == unquote(src@),
        is_ascii_chars(src@) ==> is_ascii_chars(r@),
{
    let n = src.unicode_len();
    if n >= 2 && src.get_char(0) == '"' && src.get_char(n - 1) == '"' {
        src.substring_char(1, n - 1)
    } else {
        src
    }
}

} // verus!

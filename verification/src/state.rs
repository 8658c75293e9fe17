//! What the server holds while it runs.

use vstd::prelude::*;
use vstd::string::*;
use crate::db::Database;
use crate::strings::str_eq;

verus! {

// This struct represents state
pub struct AppState {
    pub website_name: String,
    pub db: Database,
    pub local_domains: Vec<String>,
}

/// A character of ASCII white space.
pub open spec fn is_ascii_space(c: char) -> bool {
    c == ' ' || c == '\t' || c == '\n' || c == '\x0C' || c == '\r'
}

/// The words of a text: its longest runs without ASCII white space, in order.
pub open spec fn words(text: Seq<char>) -> Seq<Seq<char>>
    decreases text.len(),
{
    if text.len() == 0 {
        Seq::<Seq<char>>::empty()
    } else {
        let head = words(text.drop_last());
        let c = text.last();
        if is_ascii_space(c) {
            head
        } else if text.len() >= 2 && !is_ascii_space(text[text.len() - 2]) {
            head.update(head.len() - 1, head.last().push(c))
        } else {
            head.push(seq![c])
        }
    }
}

/// The words without the ones that came before.
pub open spec fn distinct(list: Seq<Seq<char>>) -> Seq<Seq<char>>
    decreases list.len(),
{
    if list.len() == 0 {
        Seq::<Seq<char>>::empty()
    } else {
        let head = distinct(list.drop_last());
        if head.contains(list.last()) {
            head
        } else {
            head.push(list.last())
        }
    }
}

/// The views of a list of texts.
pub open spec fn texts_view(list: Seq<String>) -> Seq<Seq<char>> {
    list.map_values(|text: String| text@)
}

impl AppState {
    /// The state of a server that answers for the domains that `local_domains`
    /// lists, with white space between them, over the store `db`.
    pub fn new(db: Database, local_domains: &str) -> (r: AppState)
        ensures
            r.db == db,
            r.website_name@ == "Commune"@,
            texts_view(r.local_domains@) == distinct(words(local_domains@)),
    {
        let n = local_domains.unicode_len();
        let mut found: Vec<String> = Vec::new();
        let mut word = String::new();
        let mut open = false;
        let mut i: usize = 0;
        let ghost text = local_domains@;
        proof {
            assert(text.take(0) =~= Seq::<char>::empty());
            assert(texts_view(found@) =~= Seq::<Seq<char>>::empty());
        }
        while i < n
            invariant
                i <= n,
                n == text.len(),
                text == local_domains@,
                open == (i > 0 && !is_ascii_space(text[i - 1])),
                open ==> words(text.take(i as int)).len() >= 1 && word@ == words(
                    text.take(i as int),
                ).last() && texts_view(found@) == distinct(words(text.take(i as int)).drop_last()),
                !open ==> texts_view(found@) == distinct(words(text.take(i as int))),
            decreases n - i,
        {
            let c = local_domains.get_char(i);
            let ghost before = words(text.take(i as int));
            proof {
                assert(text.take(i + 1).drop_last() =~= text.take(i as int));
                assert(text.take(i + 1).last() == c);
                if i > 0 {
                    assert(text.take(i + 1)[i - 1] == text[i - 1]);
                }
            }
            if c == ' ' || c == '\t' || c == '\n' || c == '\x0C' || c == '\r' {
                if open {
                    proof {
                        assert(before.drop_last().push(before.last()) =~= before);
                    }
                    push_distinct(&mut found, word, Ghost(before.drop_last()));
                    word = String::new();
                    open = false;
                }
            } else {
                if open {
                    let ghost old_word = word@;
                    word.append(local_domains.substring_char(i, i + 1));
                    proof {
                        assert(text.subrange(i as int, i + 1) =~= seq![c]);
                        assert(word@ =~= old_word.push(c));
                        let after = before.update(before.len() - 1, before.last().push(c));
                        assert(after.drop_last() =~= before.drop_last());
                    }
                } else {
                    word = String::from_str(local_domains.substring_char(i, i + 1));
                    proof {
                        assert(text.subrange(i as int, i + 1) =~= seq![c]);
                        assert(word@ =~= seq![c]);
                        assert(before.push(seq![c]).drop_last() =~= before);
                    }
                    open = true;
                }
            }
            i += 1;
        }
        proof {
            assert(text.take(n as int) =~= text);
        }
        if open {
            let ghost all = words(text);
            proof {
                assert(all.drop_last().push(all.last()) =~= all);
            }
            push_distinct(&mut found, word, Ghost(all.drop_last()));
        }
        AppState { website_name: String::from_str("Commune"), db, local_domains: found }
    }
}

/// Adds a word to the list unless the list holds it.
fn push_distinct(found: &mut Vec<String>, word: String, Ghost(seen): Ghost<Seq<Seq<char>>>)
    requires
        texts_view(old(found)@) == distinct(seen),
    ensures
        texts_view(final(found)@) == distinct(seen.push(word@)),
{
    let mut i: usize = 0;
    proof {
        assert(seen.push(word@).drop_last() =~= seen);
    }
    while i < found.len()
        invariant
            i <= found.len(),
            found@ == old(found)@,
            texts_view(found@) == distinct(seen),
            seen.push(word@).drop_last() == seen,
            forall|j: int| 0 <= j < i ==> (#[trigger] found@[j])@ != word@,
        decreases found.len() - i,
    {
        if str_eq(found[i].as_str(), word.as_str()) {
            proof {
                let views = texts_view(found@);
                assert(views[i as int] == found@[i as int]@);
                assert(views == distinct(seen));
                assert(distinct(seen)[i as int] == word@);
                assert(distinct(seen).contains(word@));
            }
            return ;
        }
        i += 1;
    }
    proof {
        let views = texts_view(found@);
        if views.contains(word@) {
            let k = choose|k: int| 0 <= k < views.len() && views[k] == word@;
            assert(found@[k]@ == word@);
        }
        assert(texts_view(found@.push(word)) =~= views.push(word@));
    }
    found.push(word);
}

} // verus!

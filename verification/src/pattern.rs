//! Looking for one piece of text inside another.
use vstd::prelude::*;

use crate::text::{chars_of, text_of};

verus! {

/// Whether `pat` stands in `s` at index `i`.
pub open spec fn occurs_at(s: Seq<char>, pat: Seq<char>, i: int) -> bool {
    &&& 0 <= i
    &&& i + pat.len() <= s.len()
    &&& s.subrange(i, i + pat.len()) == pat
}

/// Whether `pat` stands somewhere in `s`.
pub open spec fn contains(s: Seq<char>, pat: Seq<char>) -> bool {
    exists|i: int| occurs_at(s, pat, i)
}

/// Whether `i` is the first index at which `pat` stands in `s`.
pub open spec fn first_at(s: Seq<char>, pat: Seq<char>, i: int) -> bool {
    &&& occurs_at(s, pat, i)
    &&& forall|j: int| 0 <= j < i ==> !occurs_at(s, pat, j)
}

/// What stands before and what follows the first occurrence of `pat` in `s`, if there is
/// one.
pub open spec fn split_once(s: Seq<char>, pat: Seq<char>) -> Option<(Seq<char>, Seq<char>)> {
    if contains(s, pat) {
        let i = choose|i: int| first_at(s, pat, i);
        Some((s.take(i), s.skip(i + pat.len())))
    } else {
        None
    }
}

/// There is at most one first occurrence, and `split_once` goes by it.
pub proof fn lemma_split_once(s: Seq<char>, pat: Seq<char>, i: int)
    requires
        first_at(s, pat, i),
    ensures
        split_once(s, pat) == Some((s.take(i), s.skip(i + pat.len()))),
{
    let k = choose|k: int| first_at(s, pat, k);
    assert(first_at(s, pat, k));
    if i < k {
        assert(!occurs_at(s, pat, i));
    }
    if k < i {
        assert(!occurs_at(s, pat, k));
    }
}

/// Whether `pat` stands in `s` at index `i`.
fn matches_at(s: &Vec<char>, pat: &Vec<char>, i: usize) -> (found: bool)
    requires
        i <= s@.len(),
    ensures
        found == occurs_at(s@, pat@, i as int),
{
    let len: usize = s.len();
    if pat.len() > len - i {
        return false;
    }
    let mut k: usize = 0;
    while k < pat.len()
        invariant
            k <= pat@.len(),
            len == s@.len(),
            i + pat@.len() <= len,
            forall|j: int| 0 <= j < k ==> s@[i + j] == #[trigger] pat@[j],
        decreases pat@.len() - k,
    {
        if s[i + k] != pat[k] {
            proof {
                assert(s@.subrange(i as int, i + pat@.len())[k as int] != pat@[k as int]);
            }
            return false;
        }
        k = k + 1;
    }
    proof {
        assert(s@.subrange(i as int, i + pat@.len()) =~= pat@);
    }
    true
}

/// The first index from which `pat` stands in `s`.
pub fn find(s: &Vec<char>, pat: &Vec<char>) -> (at: Option<usize>)
    ensures
        match at {
            Some(i) => first_at(s@, pat@, i as int),
            None => !contains(s@, pat@),
        },
{
    let mut i: usize = 0;
    while i < s.len()
        invariant
            i <= s@.len(),
            forall|j: int| 0 <= j < i ==> !occurs_at(s@, pat@, j),
        decreases s@.len() - i,
    {
        if matches_at(s, pat, i) {
            return Some(i);
        }
        i = i + 1;
    }
    if matches_at(s, pat, i) {
        return Some(i);
    }
    None
}

/// Whether `pat` stands somewhere in `s`.
pub fn contains_text(s: &str, pat: &str) -> (found: bool)
    ensures
        found == contains(s@, pat@),
{
    let chars: Vec<char> = chars_of(s);
    let wanted: Vec<char> = chars_of(pat);
    match find(&chars, &wanted) {
        Some(_) => true,
        None => false,
    }
}

/// What stands before and what follows the first occurrence of `pat` in `s`.
pub fn text_split_once(s: &str, pat: &str) -> (parts: Option<(String, String)>)
    ensures
        match parts {
            Some(p) => split_once(s@, pat@) == Some((p.0@, p.1@)),
            None => split_once(s@, pat@) is None,
        },
{
    let chars: Vec<char> = chars_of(s);
    let wanted: Vec<char> = chars_of(pat);
    match find(&chars, &wanted) {
        Some(i) => {
            let end: usize = chars.len();
            let before: String = text_of(&chars, 0, i);
            let after: String = text_of(&chars, i + wanted.len(), end);
            proof {
                lemma_split_once(s@, pat@, i as int);
                assert(before@ =~= s@.take(i as int));
                assert(after@ =~= s@.skip(i + pat@.len()));
            }
            Some((before, after))
        },
        None => None,
    }
}

/// `s` with every occurrence of `pat` replaced by `with`, taken from the left and
/// not overlapping.
pub open spec fn replace(s: Seq<char>, pat: Seq<char>, with: Seq<char>) -> Seq<char>
    decreases s.len(),
{
    if s.len() == 0 || pat.len() == 0 {
        s
    } else if occurs_at(s, pat, 0) {
        with + replace(s.skip(pat.len() as int), pat, with)
    } else {
        seq![s[0]] + replace(s.skip(1), pat, with)
    }
}

/// `s` with every occurrence of `pat` replaced by `with`.
pub fn replaced(s: &str, pat: &str, with: &str) -> (text: String)
    requires
        pat@.len() > 0,
    ensures
        text@ == replace(s@, pat@, with@),
{
    let chars: Vec<char> = chars_of(s);
    let wanted: Vec<char> = chars_of(pat);
    let mut text: String = String::new();
    let mut i: usize = 0;
    proof {
        assert(s@.skip(0) =~= s@);
        assert(text@ + replace(s@.skip(0), pat@, with@) =~= replace(s@, pat@, with@));
    }
    while i < chars.len()
        invariant
            i <= chars@.len(),
            chars@ == s@,
            wanted@ == pat@,
            pat@.len() > 0,
            text@ + replace(s@.skip(i as int), pat@, with@) == replace(s@, pat@, with@),
        decreases chars@.len() - i,
    {
        let ghost rest = s@.skip(i as int);
        let ghost done = text@;
        let here: bool = matches_at(&chars, &wanted, i);
        proof {
            assert(here == occurs_at(rest, pat@, 0)) by {
                if i + pat@.len() <= s@.len() {
                    assert(rest.subrange(0, pat@.len() as int) =~= s@.subrange(
                        i as int,
                        i + pat@.len(),
                    ));
                }
            }
        }
        if here {
            text.append(with);
            i = i + wanted.len();
            proof {
                assert(rest.skip(pat@.len() as int) =~= s@.skip(i as int));
                assert(text@ + replace(s@.skip(i as int), pat@, with@) =~= done + (with@ + replace(
                    s@.skip(i as int),
                    pat@,
                    with@,
                )));
            }
        } else {
            text.push(chars[i]);
            proof {
                assert(rest.skip(1) =~= s@.skip(i + 1));
                assert(text@ + replace(s@.skip(i + 1), pat@, with@) =~= done + (seq![rest[0]]
                    + replace(s@.skip(i + 1), pat@, with@)));
            }
            i = i + 1;
        }
    }
    proof {
        assert(s@.skip(i as int) =~= Seq::<char>::empty());
        assert(text@ + replace(s@.skip(i as int), pat@, with@) =~= text@);
    }
    text
}

/// `s` without any leading repetitions of `prefix`.
pub open spec fn strip_prefixes(s: Seq<char>, prefix: Seq<char>) -> Seq<char>
    decreases s.len(),
{
    if prefix.len() > 0 && occurs_at(s, prefix, 0) {
        strip_prefixes(s.skip(prefix.len() as int), prefix)
    } else {
        s
    }
}

/// `s` without any leading repetitions of `prefix`.
pub fn without_prefixes(s: &str, prefix: &str) -> (text: String)
    ensures
        text@ == strip_prefixes(s@, prefix@),
{
    let chars: Vec<char> = chars_of(s);
    let wanted: Vec<char> = chars_of(prefix);
    let end: usize = chars.len();
    let mut i: usize = 0;
    proof {
        assert(s@.skip(0) =~= s@);
        if prefix@.len() > 0 && i + prefix@.len() <= s@.len() {
            assert(s@.skip(i as int).subrange(0, prefix@.len() as int) =~= s@.subrange(
                i as int,
                i + prefix@.len(),
            ));
        }
    }
    while wanted.len() > 0 && matches_at(&chars, &wanted, i)
        invariant
            i <= chars@.len(),
            chars@ == s@,
            end == chars@.len(),
            wanted@ == prefix@,
            strip_prefixes(s@, prefix@) == strip_prefixes(s@.skip(i as int), prefix@),
            prefix@.len() > 0 && i + prefix@.len() <= s@.len() ==> s@.skip(i as int).subrange(
                0,
                prefix@.len() as int,
            ) == s@.subrange(i as int, i + prefix@.len()),
        decreases chars@.len() - i,
    {
        proof {
            assert(s@.skip(i as int).skip(prefix@.len() as int) =~= s@.skip(i + prefix@.len()));
        }
        i = i + wanted.len();
        proof {
            if i + prefix@.len() <= s@.len() {
                assert(s@.skip(i as int).subrange(0, prefix@.len() as int) =~= s@.subrange(
                    i as int,
                    i + prefix@.len(),
                ));
            }
        }
    }
    let text: String = text_of(&chars, i, end);
    proof {
        assert(text@ =~= s@.skip(i as int));
    }
    text
}

} // verus!

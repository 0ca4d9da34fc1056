//! Searching in what is listed.
use vstd::prelude::*;

use crate::pattern::{contains, contains_text};
use crate::text::{all_ascii, ascii_lowercase, lowercase, to_lowercase, trim, trimmed};

verus! {

/// A search for a text, in any letter case.
pub struct SearchFilter {
    needle: Option<String>,
}

/// What a search looks for: the text without the white space around it, in lower case.
pub open spec fn needle_of(raw: Seq<char>) -> Option<Seq<char>> {
    if trim(raw).len() == 0 {
        None
    } else {
        Some(lowercase(trim(raw)))
    }
}

/// The texts of some fields.
pub open spec fn field_texts(fields: Seq<&str>) -> Seq<Seq<char>> {
    fields.map_values(|field: &str| field@)
}

impl SearchFilter {
    /// What the search looks for, if for anything.
    pub closed spec fn wanted(self) -> Option<Seq<char>> {
        match self.needle {
            Some(needle) => Some(needle@),
            None => None,
        }
    }

    /// Whether the search finds something in one of `fields`.
    pub open spec fn finds(self, fields: Seq<Seq<char>>) -> bool {
        match self.wanted() {
            None => true,
            Some(needle) => exists|i: int|
                0 <= i < fields.len() && contains(lowercase(#[trigger] fields[i]), needle),
        }
    }

    /// The search for what a user typed.
    pub fn new(raw: &str) -> (filter: Self)
        ensures
            filter.wanted() == needle_of(raw@),
            all_ascii(trim(raw@)) && trim(raw@).len() > 0 ==> filter.wanted() == Some(
                ascii_lowercase(trim(raw@)),
            ),
    {
        let wanted: String = trimmed(raw);
        if wanted.as_str().is_empty() {
            return SearchFilter { needle: None };
        }
        SearchFilter { needle: Some(to_lowercase(wanted.as_str())) }
    }

    /// Whether the search finds something in one of `fields`. A search for nothing finds
    /// everything.
    pub fn matches_any(&self, fields: &[&str]) -> (found: bool)
        ensures
            found == self.finds(field_texts(fields@)),
            self.wanted() matches Some(needle) ==> (forall|i: int|
                0 <= i < fields@.len() ==> all_ascii(#[trigger] field_texts(fields@)[i])) ==> found
                == (exists|i: int|
                0 <= i < fields@.len() && contains(
                    ascii_lowercase(#[trigger] field_texts(fields@)[i]),
                    needle,
                )),
    {
        let ghost all = field_texts(fields@);
        match &self.needle {
            None => true,
            Some(needle) => {
                let mut i: usize = 0;
                while i < fields.len()
                    invariant
                        i <= fields@.len(),
                        all == field_texts(fields@),
                        self.wanted() == Some(needle@),
                        forall|j: int|
                            0 <= j < i ==> !contains(lowercase(#[trigger] all[j]), needle@),
                        forall|j: int|
                            0 <= j < i && all_ascii(#[trigger] all[j]) ==> lowercase(all[j])
                                == ascii_lowercase(all[j]),
                    decreases fields@.len() - i,
                {
                    let field: &str = fields[i];
                    let lower: String = to_lowercase(field);
                    proof {
                        assert(all[i as int] == field@);
                    }
                    if contains_text(lower.as_str(), needle.as_str()) {
                        return true;
                    }
                    i = i + 1;
                }
                false
            },
        }
    }
}

} // verus!

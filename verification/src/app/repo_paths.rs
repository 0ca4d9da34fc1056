//! Which local checkout belongs to which repository.
use vstd::prelude::*;

use crate::text::{lowercase, split, split_text, to_lowercase, trim, trimmed, views};
use crate::text::{all_ascii, ascii_lowercase};
use crate::text_map::{lemma_texts_insert, texts, walks, TextMap};
use vstd::string::StringExecFns;

verus! {

/// The key under which the repository `repo` is known: owner and name in lower case, if
/// `repo` is one owner and one name with a slash between them.
pub open spec fn repo_key(repo: Seq<char>) -> Option<Seq<char>> {
    let parts = split(trim(repo), '/');
    if parts.len() == 2 && parts[0].len() > 0 && parts[1].len() > 0 {
        Some(lowercase(parts[0]) + "/"@ + lowercase(parts[1]))
    } else {
        None
    }
}

/// The same key, for a repository that is written in ASCII.
pub open spec fn ascii_repo_key(repo: Seq<char>) -> Option<Seq<char>> {
    let parts = split(trim(repo), '/');
    if parts.len() == 2 && parts[0].len() > 0 && parts[1].len() > 0 {
        Some(ascii_lowercase(parts[0]) + "/"@ + ascii_lowercase(parts[1]))
    } else {
        None
    }
}

/// The key under which the repository `repo` is known.
pub fn canonical_repo_key(repo: &str) -> (key: Option<String>)
    ensures
        match key {
            Some(k) => repo_key(repo@) == Some(k@),
            None => repo_key(repo@) is None,
        },
        key is Some ==> ({
            let parts = split(trim(repo@), '/');
            all_ascii(parts[0]) && all_ascii(parts[1]) ==> ascii_repo_key(repo@) == Some(key->0@)
        }),
{
    let trimmed_repo: String = trimmed(repo);
    let parts: Vec<String> = split_text(trimmed_repo.as_str(), '/');
    proof {
        assert(views(parts@).len() == parts@.len());
        if parts@.len() == 2 {
            assert(views(parts@)[0] == parts@[0]@);
            assert(views(parts@)[1] == parts@[1]@);
        }
    }
    if parts.len() != 2 || parts[0].as_str().is_empty() || parts[1].as_str().is_empty() {
        return None;
    }
    let mut key: String = to_lowercase(parts[0].as_str());
    key.append("/");
    key.append(to_lowercase(parts[1].as_str()).as_str());
    Some(key)
}

/// What looking at a saved checkout path found.
#[derive(Clone, Debug, PartialEq, Eq)]
pub enum CheckoutProbe {
    /// The path leads nowhere, for that reason.
    Unresolved(String),
    /// The path leads to `path`, which may be a directory and may hold a `.git` entry.
    Resolved { path: String, is_dir: bool, has_git: bool },
}

/// The path of the checkout that was found, if there is one.
pub open spec fn checkout_path(probe: CheckoutProbe) -> Option<Seq<char>> {
    match probe {
        CheckoutProbe::Resolved { path, is_dir: true, has_git: true } => Some(path@),
        _ => None,
    }
}

/// The checkouts among the first entries of saved mappings: `found` tells for each
/// repository in `keys` what looking at its path found. Of two repositories with the same
/// key the later one wins.
pub open spec fn kept_paths(
    keys: Seq<Seq<char>>,
    found: Map<Seq<char>, CheckoutProbe>,
) -> Map<Seq<char>, Seq<char>>
    decreases keys.len(),
{
    if keys.len() == 0 {
        Map::empty()
    } else {
        let before = kept_paths(keys.drop_last(), found);
        match (repo_key(keys.last()), checkout_path(found[keys.last()])) {
            (Some(key), Some(path)) => before.insert(key, path),
            _ => before,
        }
    }
}

/// How many of saved mappings have no use.
pub open spec fn dropped_paths(
    keys: Seq<Seq<char>>,
    found: Map<Seq<char>, CheckoutProbe>,
) -> nat
    decreases keys.len(),
{
    if keys.len() == 0 {
        0
    } else {
        let before = dropped_paths(keys.drop_last(), found);
        match (repo_key(keys.last()), checkout_path(found[keys.last()])) {
            (Some(_), Some(_)) => before,
            _ => before + 1,
        }
    }
}

/// Keeps of saved mappings those that lead from a repository to a checkout, under the
/// repositories' keys, and counts the others.
pub fn normalize_hydrated_repo_paths(repo_paths: &TextMap<CheckoutProbe>) -> (kept: (
    TextMap<String>,
    usize,
))
    ensures
        walks(repo_paths.keys(), repo_paths@),
        texts(kept.0@) == kept_paths(repo_paths.keys(), repo_paths@),
        kept.1 == dropped_paths(repo_paths.keys(), repo_paths@),
{
    let mut normalized: TextMap<String> = TextMap::new();
    let mut dropped: usize = 0;
    let count: usize = repo_paths.len();
    let ghost keys = repo_paths.keys();
    let ghost found = repo_paths@;
    let mut i: usize = 0;
    proof {
        assert(keys.take(0) =~= Seq::<Seq<char>>::empty());
        assert(texts(normalized@) =~= Map::<Seq<char>, Seq<char>>::empty());
    }
    while i < count
        invariant
            i <= count,
            count == keys.len(),
            keys == repo_paths.keys(),
            found == repo_paths@,
            dropped <= i,
            texts(normalized@) == kept_paths(keys.take(i as int), found),
            dropped == dropped_paths(keys.take(i as int), found),
        decreases count - i,
    {
        proof {
            assert(keys.take(i + 1).drop_last() =~= keys.take(i as int));
            assert(keys.take(i + 1).last() == keys[i as int]);
        }
        let repo: &String = repo_paths.key_at(i);
        match (canonical_repo_key(repo.as_str()), repo_paths.value_at(i)) {
            (Some(key), CheckoutProbe::Resolved { path, is_dir: true, has_git: true }) => {
                let path: String = path.clone();
                proof {
                    lemma_texts_insert(normalized@, key@, path);
                }
                normalized.insert(key, path);
            },
            _ => {
                dropped = dropped + 1;
            },
        }
        i = i + 1;
    }
    proof {
        assert(keys.take(i as int) =~= keys);
    }
    (normalized, dropped)
}

} // verus!

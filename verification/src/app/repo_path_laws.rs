//! What holds of repositories and their checkouts as a whole.
use vstd::prelude::*;

use crate::app::repo_paths::{
    ascii_repo_key, checkout_path, dropped_paths, kept_paths, repo_key, CheckoutProbe,
};
use crate::app::review_settings_laws::{
    free_of, law_split_undoes_join, lemma_split_parts_free, lemma_trim_is_part,
    lemma_trimmed_stays,
};
use crate::text::{
    all_ascii, ascii_folded, ascii_lowercase, equals, is_white_space, join,
    lemma_split_where_nonempty, lowercase, same_ignoring_ascii_case, split, trim, trim_end,
    trim_start,
};

verus! {

// ---------------------------------------------------------------------------
// Keys
// ---------------------------------------------------------------------------

proof fn lemma_folded_same(a: char, b: char)
    requires
        ascii_folded(a) == ascii_folded(b),
    ensures
        is_white_space(a) == is_white_space(b),
        (a == '/') == (b == '/'),
{
}

proof fn lemma_folding_again(c: char)
    ensures
        ascii_folded(ascii_folded(c) as char) == ascii_folded(c),
{
}

proof fn lemma_trim_start_same(a: Seq<char>, b: Seq<char>)
    requires
        same_ignoring_ascii_case(a, b),
    ensures
        same_ignoring_ascii_case(trim_start(a), trim_start(b)),
    decreases a.len(),
{
    if a.len() > 0 {
        assert(ascii_folded(a[0]) == ascii_folded(b[0]));
        lemma_folded_same(a[0], b[0]);
        if is_white_space(a[0]) {
            assert forall|i: int| 0 <= i < a.len() - 1 implies ascii_folded(
                #[trigger] a.skip(1)[i],
            ) == ascii_folded(b.skip(1)[i]) by {
                assert(ascii_folded(a[i + 1]) == ascii_folded(b[i + 1]));
            }
            lemma_trim_start_same(a.skip(1), b.skip(1));
        }
    }
}

proof fn lemma_trim_end_same(a: Seq<char>, b: Seq<char>)
    requires
        same_ignoring_ascii_case(a, b),
    ensures
        same_ignoring_ascii_case(trim_end(a), trim_end(b)),
    decreases a.len(),
{
    if a.len() > 0 {
        let n = a.len() - 1;
        assert(ascii_folded(a[n]) == ascii_folded(b[n]));
        lemma_folded_same(a[n], b[n]);
        if is_white_space(a.last()) {
            assert forall|i: int| 0 <= i < n implies ascii_folded(#[trigger] a.drop_last()[i])
                == ascii_folded(b.drop_last()[i]) by {
                assert(ascii_folded(a[i]) == ascii_folded(b[i]));
            }
            lemma_trim_end_same(a.drop_last(), b.drop_last());
        }
    }
}

proof fn lemma_split_same(a: Seq<char>, b: Seq<char>)
    requires
        same_ignoring_ascii_case(a, b),
    ensures
        split(a, '/').len() == split(b, '/').len(),
        forall|i: int|
            0 <= i < split(a, '/').len() ==> same_ignoring_ascii_case(
                #[trigger] split(a, '/')[i],
                split(b, '/')[i],
            ),
    decreases a.len(),
{
    let sep = equals('/');
    lemma_split_where_nonempty(a, sep);
    lemma_split_where_nonempty(b, sep);
    if a.len() > 0 {
        let n = a.len() - 1;
        let x = a.drop_last();
        let y = b.drop_last();
        assert(ascii_folded(a[n]) == ascii_folded(b[n]));
        lemma_folded_same(a[n], b[n]);
        assert forall|i: int| 0 <= i < n implies ascii_folded(#[trigger] x[i]) == ascii_folded(
            y[i],
        ) by {
            assert(ascii_folded(a[i]) == ascii_folded(b[i]));
        }
        lemma_split_same(x, y);
        lemma_split_where_nonempty(x, sep);
        lemma_split_where_nonempty(y, sep);
        let xs = split(x, '/');
        let ys = split(y, '/');
        let all = split(a, '/');
        let others = split(b, '/');
        assert forall|i: int| 0 <= i < all.len() implies same_ignoring_ascii_case(
            #[trigger] all[i],
            others[i],
        ) by {
            if i < xs.len() {
                assert(same_ignoring_ascii_case(xs[i], ys[i]));
                if !sep(a.last()) && i == xs.len() - 1 {
                    assert forall|k: int| 0 <= k < all[i].len() implies ascii_folded(
                        #[trigger] all[i][k],
                    ) == ascii_folded(others[i][k]) by {
                        if k < xs[i].len() {
                            assert(ascii_folded(xs[i][k]) == ascii_folded(ys[i][k]));
                        }
                    }
                }
            }
        }
    }
}

proof fn lemma_lowercase_same(a: Seq<char>, b: Seq<char>)
    requires
        same_ignoring_ascii_case(a, b),
    ensures
        ascii_lowercase(a) == ascii_lowercase(b),
{
    assert forall|i: int| 0 <= i < a.len() implies ascii_lowercase(a)[i] == ascii_lowercase(
        b,
    )[i] by {
        assert(ascii_folded(a[i]) == ascii_folded(b[i]));
    }
    assert(ascii_lowercase(a) =~= ascii_lowercase(b));
}

/// Whether a repository has a key does not depend on the case of its ASCII letters, nor does
/// the key itself where it is written in ASCII.
pub proof fn law_key_ignores_case(a: Seq<char>, b: Seq<char>)
    requires
        same_ignoring_ascii_case(a, b),
    ensures
        repo_key(a) is Some <==> repo_key(b) is Some,
        ascii_repo_key(a) == ascii_repo_key(b),
{
    lemma_trim_start_same(a, b);
    lemma_trim_end_same(trim_start(a), trim_start(b));
    lemma_split_same(trim(a), trim(b));
    let xs = split(trim(a), '/');
    let ys = split(trim(b), '/');
    if xs.len() == 2 {
        assert(same_ignoring_ascii_case(xs[0], ys[0]));
        assert(same_ignoring_ascii_case(xs[1], ys[1]));
        lemma_lowercase_same(xs[0], ys[0]);
        lemma_lowercase_same(xs[1], ys[1]);
    }
}

/// What splitting at slashes into two parts took apart.
proof fn lemma_two_parts(s: Seq<char>)
    requires
        split(s, '/').len() == 2,
    ensures
        s == split(s, '/')[0] + seq!['/'] + split(s, '/')[1],
        free_of(split(s, '/')[0], equals('/')),
        free_of(split(s, '/')[1], equals('/')),
{
    let sep = equals('/');
    lemma_split_parts_free(s, sep);
    lemma_split_joins(s, '/');
    let parts = split(s, '/');
    assert(free_of(parts[0], sep));
    assert(free_of(parts[1], sep));
    reveal_with_fuel(join, 2);
    assert(parts.drop_last()[0] == parts[0]);
}

proof fn lemma_split_joins(s: Seq<char>, c: char)
    ensures
        join(split(s, c), seq![c]) == s,
    decreases s.len(),
{
    lemma_split_where_nonempty(s, equals(c));
    if s.len() > 0 {
        let head = s.drop_last();
        let parts = split(head, c);
        let all = split(s, c);
        lemma_split_where_nonempty(head, equals(c));
        lemma_split_joins(head, c);
        if s.last() == c {
            assert(all.drop_last() =~= parts);
            assert(join(all, seq![c]) =~= head + seq![c] + Seq::<char>::empty());
            assert(head + seq![c] + Seq::<char>::empty() =~= s);
        } else {
            assert(all.drop_last() =~= parts.drop_last());
            assert(head.push(s.last()) =~= s);
            assert(join(all, seq![c]) =~= join(parts, seq![c]).push(s.last()));
        }
    }
}

/// Whether `repo` is, but for the white space around it, `owner` and `name` with one slash
/// between them.
pub open spec fn names(repo: Seq<char>, owner: Seq<char>, name: Seq<char>) -> bool {
    &&& owner.len() > 0
    &&& name.len() > 0
    &&& free_of(owner, equals('/'))
    &&& free_of(name, equals('/'))
    &&& trim(repo) == owner + seq!['/'] + name
}

/// A repository has a key exactly where it is an owner and a name with one slash between
/// them; its key are the two in lower case.
pub proof fn law_key_is_owner_and_name(repo: Seq<char>)
    ensures
        repo_key(repo) is Some <==> exists|owner: Seq<char>, name: Seq<char>|
            names(repo, owner, name),
        forall|owner: Seq<char>, name: Seq<char>| #[trigger]
            names(repo, owner, name) ==> repo_key(repo) == Some(
                lowercase(owner) + "/"@ + lowercase(name),
            ),
{
    let sep = equals('/');
    assert forall|owner: Seq<char>, name: Seq<char>| #[trigger]
        names(repo, owner, name) implies repo_key(repo) == Some(
        lowercase(owner) + "/"@ + lowercase(name),
    ) by {
        let parts = seq![owner, name];
        reveal_with_fuel(join, 2);
        assert(parts.drop_last() =~= seq![owner]);
        assert(join(parts, seq!['/']) =~= trim(repo));
        law_split_undoes_join(parts, '/', sep);
    }
    if repo_key(repo) is Some {
        lemma_two_parts(trim(repo));
        let parts = split(trim(repo), '/');
        assert(names(repo, parts[0], parts[1]));
    }
}

/// White space around a repository makes no difference to its key.
pub proof fn law_key_ignores_white_space(before: Seq<char>, repo: Seq<char>, after: Seq<char>)
    requires
        forall|i: int| 0 <= i < before.len() ==> is_white_space(#[trigger] before[i]),
        forall|i: int| 0 <= i < after.len() ==> is_white_space(#[trigger] after[i]),
    ensures
        repo_key(before + repo + after) == repo_key(repo),
{
    lemma_trim_drops(before, repo, after);
}

proof fn lemma_trim_drops(before: Seq<char>, s: Seq<char>, after: Seq<char>)
    requires
        forall|i: int| 0 <= i < before.len() ==> is_white_space(#[trigger] before[i]),
        forall|i: int| 0 <= i < after.len() ==> is_white_space(#[trigger] after[i]),
    ensures
        trim(before + s + after) == trim(s),
    decreases before.len() + s.len() + after.len(),
{
    let all = before + s + after;
    if before.len() > 0 {
        assert(is_white_space(all[0]));
        assert(all.skip(1) =~= before.skip(1) + s + after);
        lemma_trim_drops(before.skip(1), s, after);
    } else if s.len() > 0 && is_white_space(s[0]) {
        assert(all[0] == s[0]);
        assert(all.skip(1) =~= before + s.skip(1) + after);
        lemma_trim_drops(before, s.skip(1), after);
    } else if s.len() == 0 {
        assert(all =~= after);
        assert(s =~= Seq::<char>::empty());
        lemma_trim_blank(after);
    } else {
        assert(all =~= s + after);
        assert(all[0] == s[0]);
        lemma_trim_end_drops(s, after);
    }
}

proof fn lemma_trim_blank(s: Seq<char>)
    requires
        forall|i: int| 0 <= i < s.len() ==> is_white_space(#[trigger] s[i]),
    ensures
        trim(s) == Seq::<char>::empty(),
    decreases s.len(),
{
    if s.len() > 0 {
        assert(is_white_space(s[0]));
        lemma_trim_blank(s.skip(1));
    } else {
        assert(s =~= Seq::<char>::empty());
    }
}

proof fn lemma_trim_end_drops(s: Seq<char>, after: Seq<char>)
    requires
        forall|i: int| 0 <= i < after.len() ==> is_white_space(#[trigger] after[i]),
    ensures
        trim_end(s + after) == trim_end(s),
    decreases after.len(),
{
    if after.len() > 0 {
        assert(is_white_space(after[after.len() - 1]));
        assert((s + after).drop_last() =~= s + after.drop_last());
        lemma_trim_end_drops(s, after.drop_last());
    } else {
        assert(s + after =~= s);
    }
}

/// Where a repository is written in ASCII, its key is it without the white space around it,
/// in lower case, and so is its own key.
pub proof fn law_key_is_its_own_key(repo: Seq<char>)
    ensures
        ascii_repo_key(repo) matches Some(key) ==> {
            &&& key == ascii_lowercase(trim(repo))
            &&& ascii_repo_key(key) == Some(key)
            &&& all_ascii(repo) ==> all_ascii(key)
        },
{
    if ascii_repo_key(repo) is Some {
        let key = ascii_repo_key(repo)->0;
        let whole = trim(repo);
        let parts = split(whole, '/');
        reveal_strlit("/");
        assert("/"@ =~= seq!['/']);
        lemma_two_parts(whole);
        assert(ascii_lowercase(whole) =~= key) by {
            assert forall|i: int| 0 <= i < whole.len() implies ascii_lowercase(whole)[i]
                == key[i] by {
                if i < parts[0].len() {
                    assert(whole[i] == parts[0][i]);
                } else if i > parts[0].len() {
                    assert(whole[i] == parts[1][i - parts[0].len() - 1]);
                }
            }
        }
        let at = lemma_trim_is_part(repo);
        assert(same_ignoring_ascii_case(whole, key)) by {
            assert forall|i: int| 0 <= i < whole.len() implies ascii_folded(#[trigger] whole[i])
                == ascii_folded(key[i]) by {
                assert(key[i] == ascii_lowercase(whole)[i]);
                lemma_folding_again(whole[i]);
            }
        }
        lemma_trimmed_stays(whole);
        law_key_ignores_case(whole, key);
        assert(ascii_repo_key(whole) == Some(key));
        if all_ascii(repo) {
            assert forall|i: int| 0 <= i < key.len() implies (#[trigger] key[i]) as int
                <= 127 by {
                assert(key[i] == ascii_lowercase(whole)[i]);
                assert(whole[i] == repo[at.0 + i]);
            }
        }
    }
}

// ---------------------------------------------------------------------------
// Checkouts
// ---------------------------------------------------------------------------

/// Whether a saved mapping has its use: its repository has a key, and its path leads to a
/// checkout.
pub open spec fn usable(found: Map<Seq<char>, CheckoutProbe>, repo: Seq<char>) -> bool {
    repo_key(repo) is Some && checkout_path(found[repo]) is Some
}

/// Every checkout that is kept comes from a saved mapping with the same key and leads to
/// where that led.
pub proof fn law_kept_paths_were_saved(
    keys: Seq<Seq<char>>,
    found: Map<Seq<char>, CheckoutProbe>,
    key: Seq<char>,
)
    requires
        kept_paths(keys, found).dom().contains(key),
    ensures
        exists|i: int|
            0 <= i < keys.len() && repo_key(#[trigger] keys[i]) == Some(key) && checkout_path(
                found[keys[i]],
            ) == Some(kept_paths(keys, found)[key]),
    decreases keys.len(),
{
    if keys.len() > 0 {
        let head = keys.drop_last();
        let last = keys.last();
        let n = keys.len() - 1;
        if repo_key(last) == Some(key) && checkout_path(found[last]) is Some {
            assert(keys[n] == last);
        } else {
            law_kept_paths_were_saved(head, found, key);
            let i = choose|i: int|
                0 <= i < head.len() && repo_key(#[trigger] head[i]) == Some(key) && checkout_path(
                    found[head[i]],
                ) == Some(kept_paths(head, found)[key]);
            assert(keys[i] == head[i]);
        }
    }
}

/// Every saved mapping that has its use is kept under its key.
pub proof fn law_usable_paths_are_kept(
    keys: Seq<Seq<char>>,
    found: Map<Seq<char>, CheckoutProbe>,
    i: int,
)
    requires
        0 <= i < keys.len(),
        usable(found, keys[i]),
    ensures
        kept_paths(keys, found).dom().contains(repo_key(keys[i])->0),
    decreases keys.len(),
{
    if i < keys.len() - 1 {
        assert(keys.drop_last()[i] == keys[i]);
        law_usable_paths_are_kept(keys.drop_last(), found, i);
    }
}

/// As many saved mappings are dropped as have no use.
pub proof fn law_dropped_paths_are_counted(keys: Seq<Seq<char>>, found: Map<Seq<char>, CheckoutProbe>)
    ensures
        dropped_paths(keys, found) <= keys.len(),
        dropped_paths(keys, found) == 0 <==> forall|i: int|
            0 <= i < keys.len() ==> usable(found, #[trigger] keys[i]),
    decreases keys.len(),
{
    if keys.len() > 0 {
        let head = keys.drop_last();
        law_dropped_paths_are_counted(head, found);
        if dropped_paths(keys, found) == 0 {
            assert forall|i: int| 0 <= i < keys.len() implies usable(found, #[trigger] keys[i]) by {
                if i < head.len() {
                    assert(usable(found, head[i]));
                }
            }
        } else if forall|i: int| 0 <= i < keys.len() ==> usable(found, #[trigger] keys[i]) {
            assert(usable(found, keys[keys.len() - 1]));
            assert forall|i: int| 0 <= i < head.len() implies usable(found, #[trigger] head[i]) by {
                assert(keys[i] == head[i]);
            }
        }
    }
}

} // verus!

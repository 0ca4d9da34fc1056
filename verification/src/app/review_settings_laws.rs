//! What holds of review settings as text.
use vstd::prelude::*;

use crate::app::review_settings::{
    env_complaint, env_line, env_lines, key_allowed, read_env_line, read_env_lines, EnvLine,
};
use crate::decimal::decimal;
use crate::pattern::{contains, first_at, lemma_split_once, occurs_at, split_once};
use crate::text::{
    blank, drop_carriage_return, equals, filled, is_white_space, join, lemma_split_where_nonempty,
    lines, split, split_where, trim, trim_end, trim_start, words,
};
use crate::text_laws::{is_blank, law_trimming};
use crate::text_map::walks;

verus! {

// ---------------------------------------------------------------------------
// Splitting and joining
// ---------------------------------------------------------------------------

/// Whether `s` holds no character that `sep` picks out.
pub open spec fn free_of(s: Seq<char>, sep: spec_fn(char) -> bool) -> bool {
    forall|i: int| 0 <= i < s.len() ==> !sep(#[trigger] s[i])
}

proof fn lemma_split_whole(s: Seq<char>, sep: spec_fn(char) -> bool)
    requires
        free_of(s, sep),
    ensures
        split_where(s, sep) == seq![s],
    decreases s.len(),
{
    if s.len() > 0 {
        let head = s.drop_last();
        assert(free_of(head, sep)) by {
            assert forall|i: int| 0 <= i < head.len() implies !sep(#[trigger] head[i]) by {
                assert(s[i] == head[i]);
            }
        }
        lemma_split_whole(head, sep);
        assert(!sep(s[s.len() - 1]));
        assert(head.push(s.last()) =~= s);
        assert(split_where(s, sep) =~= seq![s]);
    } else {
        assert(s =~= Seq::<char>::empty());
        assert(split_where(s, sep) =~= seq![s]);
    }
}

proof fn lemma_split_at(a: Seq<char>, c: char, b: Seq<char>, sep: spec_fn(char) -> bool)
    requires
        sep(c),
        free_of(b, sep),
    ensures
        split_where(a + seq![c] + b, sep) == split_where(a, sep).push(b),
    decreases b.len(),
{
    let s = a + seq![c] + b;
    lemma_split_where_nonempty(a, sep);
    if b.len() == 0 {
        assert(s.drop_last() =~= a);
        assert(s.last() == c);
        assert(b =~= Seq::<char>::empty());
    } else {
        let head = b.drop_last();
        assert(free_of(head, sep)) by {
            assert forall|i: int| 0 <= i < head.len() implies !sep(#[trigger] head[i]) by {
                assert(b[i] == head[i]);
            }
        }
        lemma_split_at(a, c, head, sep);
        assert(s.drop_last() =~= a + seq![c] + head);
        assert(s.last() == b.last());
        assert(!sep(b[b.len() - 1]));
        let parts = split_where(a, sep);
        assert(head.push(b.last()) =~= b);
        assert(parts.push(head).update(parts.len() as int, b) =~= parts.push(b));
    }
}

/// Splitting what was joined gives the parts back, where no part holds what separates
/// them and there is at least one.
pub proof fn law_split_undoes_join(parts: Seq<Seq<char>>, c: char, sep: spec_fn(char) -> bool)
    requires
        parts.len() > 0,
        sep(c),
        forall|i: int| 0 <= i < parts.len() ==> free_of(#[trigger] parts[i], sep),
    ensures
        split_where(join(parts, seq![c]), sep) == parts,
    decreases parts.len(),
{
    if parts.len() == 1 {
        lemma_split_whole(parts[0], sep);
        assert(seq![parts[0]] =~= parts);
    } else {
        let head = parts.drop_last();
        assert forall|i: int| 0 <= i < head.len() implies free_of(#[trigger] head[i], sep) by {
            assert(parts[i] == head[i]);
        }
        law_split_undoes_join(head, c, sep);
        assert(free_of(parts[parts.len() - 1], sep));
        lemma_split_at(join(head, seq![c]), c, parts.last(), sep);
        assert(head.push(parts.last()) =~= parts);
    }
}

pub(crate) proof fn lemma_split_parts_free(s: Seq<char>, sep: spec_fn(char) -> bool)
    ensures
        forall|i: int|
            0 <= i < split_where(s, sep).len() ==> free_of(#[trigger] split_where(s, sep)[i], sep),
    decreases s.len(),
{
    lemma_split_where_nonempty(s, sep);
    if s.len() > 0 {
        let head = s.drop_last();
        lemma_split_where_nonempty(head, sep);
        lemma_split_parts_free(head, sep);
        let parts = split_where(head, sep);
        let all = split_where(s, sep);
        assert forall|i: int| 0 <= i < all.len() implies free_of(#[trigger] all[i], sep) by {
            if i < parts.len() {
                assert(free_of(parts[i], sep));
            }
            if !sep(s.last()) && i == parts.len() - 1 {
                assert forall|k: int| 0 <= k < all[i].len() implies !sep(#[trigger] all[i][k]) by {
                    if k < parts[i].len() {
                        assert(parts[i][k] == all[i][k]);
                    }
                }
            }
        }
    }
}

// ---------------------------------------------------------------------------
// Trimming
// ---------------------------------------------------------------------------

/// Whether no white space stands at either end of `s`.
pub open spec fn is_trimmed(s: Seq<char>) -> bool {
    s.len() > 0 ==> !is_white_space(s[0]) && !is_white_space(s.last())
}

pub(crate) proof fn lemma_trimmed_stays(s: Seq<char>)
    requires
        is_trimmed(s),
    ensures
        trim(s) == s,
{
}

proof fn lemma_trim_end_from(s: Seq<char>) -> (n: int)
    ensures
        0 <= n <= s.len(),
        trim_end(s) == s.take(n),
        n > 0 ==> !is_white_space(s[n - 1]),
    decreases s.len(),
{
    if s.len() > 0 && is_white_space(s.last()) {
        let n = lemma_trim_end_from(s.drop_last());
        assert(s.drop_last().take(n) =~= s.take(n));
        n
    } else {
        assert(s.take(s.len() as int) =~= s);
        s.len() as int
    }
}

proof fn lemma_trim_start_from(s: Seq<char>) -> (n: int)
    ensures
        0 <= n <= s.len(),
        trim_start(s) == s.skip(n),
        n < s.len() ==> !is_white_space(s[n]),
    decreases s.len(),
{
    if s.len() > 0 && is_white_space(s[0]) {
        let n = lemma_trim_start_from(s.skip(1));
        assert(s.skip(1).skip(n) =~= s.skip(n + 1));
        n + 1
    } else {
        assert(s.skip(0) =~= s);
        0
    }
}

/// What is left of a text after trimming is a stretch of it without white space at its
/// ends.
pub(crate) proof fn lemma_trim_is_part(s: Seq<char>) -> (at: (int, int))
    ensures
        0 <= at.0 <= at.1 <= s.len(),
        trim(s) == s.subrange(at.0, at.1),
        is_trimmed(trim(s)),
{
    let a = lemma_trim_start_from(s);
    let rest = s.skip(a);
    let b = lemma_trim_end_from(rest);
    assert(rest.take(b) =~= s.subrange(a, a + b));
    if b > 0 {
        assert(trim(s)[0] == s[a]);
        assert(trim(s).last() == rest[b - 1]);
    }
    (a, a + b)
}

proof fn lemma_part_free(s: Seq<char>, from: int, to: int, sep: spec_fn(char) -> bool)
    requires
        0 <= from <= to <= s.len(),
        free_of(s, sep),
    ensures
        free_of(s.subrange(from, to), sep),
{
    assert forall|i: int| 0 <= i < to - from implies !sep(#[trigger] s.subrange(from, to)[i]) by {
        assert(s[from + i] == s.subrange(from, to)[i]);
    }
}

// ---------------------------------------------------------------------------
// Environment variables
// ---------------------------------------------------------------------------

/// Whether environment variables can stand in a text: their names are not empty and hold
/// neither equals signs, NUL nor white space; their values have no white space at either
/// end and hold neither NUL nor newlines.
pub open spec fn editable_env(vars: Map<Seq<char>, Seq<char>>) -> bool {
    forall|key: Seq<char>| #[trigger]
        vars.dom().contains(key) ==> {
            &&& key.len() > 0
            &&& key_allowed(key)
            &&& is_trimmed(vars[key])
            &&& !vars[key].contains('\0')
            &&& free_of(vars[key], equals('\n'))
        }
}

proof fn lemma_lines_free(text: Seq<char>)
    ensures
        forall|i: int|
            0 <= i < lines(text).len() ==> free_of(#[trigger] lines(text)[i], equals('\n')),
{
    let parts = split(text, '\n');
    lemma_split_where_nonempty(text, equals('\n'));
    lemma_split_parts_free(text, equals('\n'));
    let all = lines(text);
    assert forall|i: int| 0 <= i < all.len() implies free_of(#[trigger] all[i], equals('\n')) by {
        assert(free_of(parts[i], equals('\n')));
        if i < parts.len() - 1 {
            assert(all[i] == drop_carriage_return(parts[i]));
            if parts[i].len() > 0 && parts[i].last() == '\r' {
                assert(parts[i].drop_last() =~= parts[i].subrange(0, parts[i].len() - 1));
                lemma_part_free(parts[i], 0, parts[i].len() - 1, equals('\n'));
            }
        }
    }
}

proof fn lemma_entry_is_editable(raw: Seq<char>)
    requires
        free_of(raw, equals('\n')),
    ensures
        read_env_line(raw) matches EnvLine::Entry { key, value } ==> {
            &&& key.len() > 0
            &&& key_allowed(key)
            &&& is_trimmed(value)
            &&& !value.contains('\0')
            &&& free_of(value, equals('\n'))
        },
{
    let line = trim(raw);
    let (a, b) = lemma_trim_is_part(raw);
    lemma_part_free(raw, a, b, equals('\n'));
    if contains(line, "="@) {
        let i = choose|i: int| occurs_at(line, "="@, i);
        let k = lemma_first_exists(line, "="@, i);
        lemma_split_once(line, "="@, k);
        let parts = split_once(line, "="@)->0;
        reveal_strlit("=");
        assert(parts.1 =~= line.subrange(k + 1, line.len() as int));
        lemma_part_free(line, k + 1, line.len() as int, equals('\n'));
        let (c, d) = lemma_trim_is_part(parts.1);
        lemma_part_free(parts.1, c, d, equals('\n'));
    }
}

proof fn lemma_first_exists(s: Seq<char>, pat: Seq<char>, i: int) -> (k: int)
    requires
        occurs_at(s, pat, i),
    ensures
        first_at(s, pat, k),
    decreases i,
{
    if exists|j: int| 0 <= j < i && occurs_at(s, pat, j) {
        let j = choose|j: int| 0 <= j < i && occurs_at(s, pat, j);
        lemma_first_exists(s, pat, j)
    } else {
        i
    }
}

proof fn lemma_read_is_editable(ls: Seq<Seq<char>>)
    requires
        forall|i: int| 0 <= i < ls.len() ==> free_of(#[trigger] ls[i], equals('\n')),
    ensures
        read_env_lines(ls) matches Ok(vars) ==> editable_env(vars),
    decreases ls.len(),
{
    if ls.len() > 0 {
        let head = ls.drop_last();
        assert forall|i: int| 0 <= i < head.len() implies free_of(
            #[trigger] head[i],
            equals('\n'),
        ) by {
            assert(ls[i] == head[i]);
        }
        lemma_read_is_editable(head);
        assert(free_of(ls[ls.len() - 1], equals('\n')));
        lemma_entry_is_editable(ls.last());
    }
}

/// Environment variables that were read from a text can stand in a text.
pub proof fn law_read_env_is_editable(text: Seq<char>)
    ensures
        read_env_lines(lines(text)) matches Ok(vars) ==> editable_env(vars),
{
    lemma_lines_free(text);
    lemma_read_is_editable(lines(text));
}

proof fn lemma_line_reads_back(key: Seq<char>, value: Seq<char>)
    requires
        key.len() > 0,
        key_allowed(key),
        is_trimmed(value),
        !value.contains('\0'),
    ensures
        read_env_line(env_line(key, value)) == (EnvLine::Entry { key, value }),
        env_line(key, value).len() > 0,
        env_line(key, value).last() != '\r',
{
    let line = env_line(key, value);
    reveal_strlit("=");
    let n = key.len() as int;
    assert(line[n] == '=');
    assert(line[0] == key[0]);
    assert(is_trimmed(line)) by {
        if value.len() > 0 {
            assert(line.last() == value.last());
        } else {
            assert(line.last() == '=');
        }
    }
    lemma_trimmed_stays(line);
    assert(first_at(line, "="@, n)) by {
        assert(line.subrange(n, n + 1) =~= "="@);
        assert forall|j: int| 0 <= j < n implies !occurs_at(line, "="@, j) by {
            assert(line[j] == key[j]);
            if occurs_at(line, "="@, j) {
                assert(line.subrange(j, j + 1)[0] == '=');
            }
        }
    }
    lemma_split_once(line, "="@, n);
    assert(occurs_at(line, "="@, n));
    assert(line.take(n) =~= key);
    assert(line.skip(n + 1) =~= value);
    assert(is_trimmed(key)) by {
        assert(!is_white_space(key[n - 1]));
    }
    lemma_trimmed_stays(key);
    lemma_trimmed_stays(value);
}

proof fn lemma_lines_read_back(keys: Seq<Seq<char>>, vars: Map<Seq<char>, Seq<char>>, n: int)
    requires
        0 <= n <= keys.len(),
        editable_env(vars),
        forall|i: int| 0 <= i < keys.len() ==> vars.dom().contains(#[trigger] keys[i]),
    ensures
        read_env_lines(env_lines(keys, vars).take(n)) matches Ok(read) && {
            &&& forall|k: Seq<char>| #[trigger]
                read.dom().contains(k) <==> exists|i: int| 0 <= i < n && #[trigger] keys[i] == k
            &&& forall|k: Seq<char>| read.dom().contains(k) ==> #[trigger] read[k] == vars[k]
        },
    decreases n,
{
    let all = env_lines(keys, vars);
    if n > 0 {
        lemma_lines_read_back(keys, vars, n - 1);
        assert(all.take(n).drop_last() =~= all.take(n - 1));
        let key = keys[n - 1];
        assert(vars.dom().contains(key));
        assert(all.take(n).last() == env_line(key, vars[key]));
        lemma_line_reads_back(key, vars[key]);
        let before = read_env_lines(all.take(n - 1))->Ok_0;
        let read = read_env_lines(all.take(n))->Ok_0;
        assert(read == before.insert(key, vars[key]));
        assert forall|k: Seq<char>| #[trigger] read.dom().contains(k) <==> exists|i: int|
            0 <= i < n && #[trigger] keys[i] == k by {
            if read.dom().contains(k) && k != key {
                assert(before.dom().contains(k));
                let i = choose|i: int| 0 <= i < n - 1 && #[trigger] keys[i] == k;
                assert(keys[i] == k);
            }
        }
    } else {
        assert(all.take(0) =~= Seq::<Seq<char>>::empty());
    }
}

/// Environment variables that can stand in a text are read back from the text that they
/// are written as.
pub proof fn law_env_is_read_back(keys: Seq<Seq<char>>, vars: Map<Seq<char>, Seq<char>>)
    requires
        walks(keys, vars),
        editable_env(vars),
    ensures
        read_env_lines(lines(join(env_lines(keys, vars), "\n"@))) == Ok::<
            Map<Seq<char>, Seq<char>>,
            Seq<char>,
        >(vars),
{
    let all = env_lines(keys, vars);
    let text = join(all, "\n"@);
    reveal_strlit("\n");
    assert("\n"@ =~= seq!['\n']);
    assert forall|i: int| 0 <= i < keys.len() implies vars.dom().contains(#[trigger] keys[i]) by {
        assert(keys.contains(keys[i]));
    }
    assert forall|i: int| 0 <= i < all.len() implies free_of(#[trigger] all[i], equals('\n'))
        && all[i].len() > 0 && all[i].last() != '\r' by {
        let key = keys[i];
        assert(vars.dom().contains(key));
        lemma_line_reads_back(key, vars[key]);
        reveal_strlit("=");
        let line = env_line(key, vars[key]);
        assert forall|k: int| 0 <= k < line.len() implies !equals('\n')(#[trigger] line[k]) by {
            if k < key.len() {
                assert(line[k] == key[k]);
            } else if k > key.len() {
                assert(line[k] == vars[key][k - key.len() - 1]);
            }
        }
    }
    if keys.len() == 0 {
        assert(text =~= Seq::<char>::empty());
        assert(split(text, '\n').drop_last() =~= Seq::<Seq<char>>::empty());
        assert(lines(text) =~= Seq::<Seq<char>>::empty());
    } else {
        law_split_undoes_join(all, '\n', equals('\n'));
        let ended = all.drop_last().map_values(|p: Seq<char>| drop_carriage_return(p));
        assert(ended =~= all.drop_last()) by {
            assert forall|i: int| 0 <= i < ended.len() implies ended[i] == all.drop_last()[i] by {
                assert(all[i] == all.drop_last()[i]);
            }
        }
        assert(all[all.len() - 1].len() > 0);
        assert(all.drop_last().push(all.last()) =~= all);
        assert(lines(text) =~= all);
    }
    assert(lines(text) =~= all);
    lemma_lines_read_back(keys, vars, keys.len() as int);
    assert(all.take(keys.len() as int) =~= all);
    let read = read_env_lines(all)->Ok_0;
    assert forall|k: Seq<char>| #[trigger] read.dom().contains(k) <==> vars.dom().contains(k) by {
        if vars.dom().contains(k) {
            assert(keys.contains(k));
            assert(keys[keys.index_of(k)] == k);
        }
        if read.dom().contains(k) {
            let i = choose|i: int| 0 <= i < keys.len() && #[trigger] keys[i] == k;
            assert(keys.contains(k));
        }
    }
    assert(read =~= vars);
}

// ---------------------------------------------------------------------------
// Arguments
// ---------------------------------------------------------------------------

/// Whether arguments can stand in a text: none is empty or holds white space.
pub open spec fn editable_args(args: Seq<Seq<char>>) -> bool {
    forall|i: int| 0 <= i < args.len() ==> (#[trigger] args[i]).len() > 0 && free_of(args[i], blank())
}

proof fn lemma_filter_keeps_all(parts: Seq<Seq<char>>)
    requires
        forall|i: int| 0 <= i < parts.len() ==> (#[trigger] parts[i]).len() > 0,
    ensures
        parts.filter(filled()) == parts,
    decreases parts.len(),
{
    reveal(Seq::filter);
    if parts.len() > 0 {
        let head = parts.drop_last();
        assert forall|i: int| 0 <= i < head.len() implies (#[trigger] head[i]).len() > 0 by {
            assert(parts[i] == head[i]);
        }
        lemma_filter_keeps_all(head);
        assert(parts[parts.len() - 1].len() > 0);
        assert(head.push(parts.last()) =~= parts);
    } else {
        assert(parts.filter(filled()) =~= parts);
    }
}

proof fn lemma_filter_from(parts: Seq<Seq<char>>)
    ensures
        forall|i: int|
            0 <= i < parts.filter(filled()).len() ==> (#[trigger] parts.filter(filled())[i]).len()
                > 0 && parts.contains(parts.filter(filled())[i]),
    decreases parts.len(),
{
    reveal(Seq::filter);
    if parts.len() > 0 {
        let head = parts.drop_last();
        lemma_filter_from(head);
        let kept = head.filter(filled());
        let all = parts.filter(filled());
        assert forall|i: int| 0 <= i < all.len() implies (#[trigger] all[i]).len() > 0
            && parts.contains(all[i]) by {
            if i < kept.len() {
                assert(kept[i] == all[i]);
                let k = head.index_of(kept[i]);
                assert(parts[k] == all[i]);
            } else {
                assert(parts[parts.len() - 1] == all[i]);
            }
        }
    }
}

/// Arguments that were read from a text can stand in a text.
pub proof fn law_read_args_are_editable(text: Seq<char>)
    ensures
        editable_args(words(text)),
{
    let parts = split_where(text, blank());
    lemma_split_parts_free(text, blank());
    lemma_filter_from(parts);
    assert forall|i: int| 0 <= i < words(text).len() implies (#[trigger] words(text)[i]).len() > 0
        && free_of(words(text)[i], blank()) by {
        let k = parts.index_of(words(text)[i]);
        assert(free_of(parts[k], blank()));
    }
}

/// Arguments that can stand in a text are read back from the text that they are written
/// as.
pub proof fn law_args_are_read_back(args: Seq<Seq<char>>)
    requires
        editable_args(args),
    ensures
        words(join(args, " "@)) == args,
{
    reveal_strlit(" ");
    assert(" "@ =~= seq![' ']);
    reveal(Seq::filter);
    if args.len() == 0 {
        let text = join(args, " "@);
        assert(text =~= Seq::<char>::empty());
        let parts = split_where(text, blank());
        assert(parts.drop_last() =~= Seq::<Seq<char>>::empty());
        assert(parts.drop_last().filter(filled()) =~= Seq::<Seq<char>>::empty());
        assert(words(text) =~= args);
    } else {
        assert forall|i: int| 0 <= i < args.len() implies free_of(#[trigger] args[i], blank()) by {
        }
        law_split_undoes_join(args, ' ', blank());
        lemma_filter_keeps_all(args);
    }
}

// ---------------------------------------------------------------------------
// Lines as a user types them
// ---------------------------------------------------------------------------

proof fn lemma_first_equals(head: Seq<char>, tail: Seq<char>)
    requires
        !head.contains('='),
    ensures
        split_once(head + "="@ + tail, "="@) == Some((head, tail)),
{
    reveal_strlit("=");
    let s = head + "="@ + tail;
    let n = head.len() as int;
    assert(s.subrange(n, n + 1) =~= "="@);
    assert forall|j: int| 0 <= j < n implies !occurs_at(s, "="@, j) by {
        assert(s[j] == head[j]);
        assert(head.contains(head[j]));
        assert(s.subrange(j, j + 1)[0] == head[j]);
        assert("="@[0] == '=');
    }
    assert(first_at(s, "="@, n));
    lemma_split_once(s, "="@, n);
    assert(s.take(n) =~= head);
    assert(s.skip(n + 1) =~= tail);
}

proof fn lemma_typed_line(
    a: Seq<char>,
    key: Seq<char>,
    b: Seq<char>,
    c: Seq<char>,
    value: Seq<char>,
    d: Seq<char>,
)
    requires
        is_blank(a) && is_blank(b) && is_blank(c) && is_blank(d),
        key.len() > 0 ==> !is_white_space(key[0]) && !is_white_space(key[key.len() - 1]),
        value.len() > 0 ==> !is_white_space(value[0]) && !is_white_space(value[value.len() - 1]),
        !key.contains('='),
    ensures
        ({
            let line = trim(a + key + b + "="@ + c + value + d);
            &&& line.len() > 0
            &&& split_once(line, "="@) matches Some(parts) && trim(parts.0) == key && trim(parts.1)
                == value
        }),
{
    reveal_strlit("=");
    let raw = a + key + b + "="@ + c + value + d;
    let start = if key.len() > 0 {
        key + b
    } else {
        Seq::empty()
    };
    let before = if key.len() > 0 {
        a
    } else {
        a + b
    };
    let end = if value.len() > 0 {
        c + value
    } else {
        Seq::empty()
    };
    let after = if value.len() > 0 {
        d
    } else {
        c + d
    };
    let line = start + "="@ + end;
    assert(raw =~= before + line + after);
    assert(is_blank(before)) by {
        assert forall|i: int| 0 <= i < before.len() implies is_white_space(#[trigger] before[i]) by {
            if i < a.len() {
                assert(before[i] == a[i]);
            } else {
                assert(before[i] == b[i - a.len()]);
            }
        }
    }
    assert(is_blank(after)) by {
        assert forall|i: int| 0 <= i < after.len() implies is_white_space(#[trigger] after[i]) by {
            if value.len() == 0 && i < c.len() {
                assert(after[i] == c[i]);
            } else if value.len() == 0 {
                assert(after[i] == d[i - c.len()]);
            }
        }
    }
    assert(!is_white_space(line[0])) by {
        if key.len() > 0 {
            assert(line[0] == key[0]);
        } else {
            assert(line[0] == '=');
        }
    }
    assert(!is_white_space(line[line.len() - 1])) by {
        if value.len() > 0 {
            assert(line[line.len() - 1] == value[value.len() - 1]);
        } else {
            assert(line[line.len() - 1] == '=');
        }
    }
    law_trimming(before, line, after);
    assert(!start.contains('=')) by {
        if start.contains('=') {
            let i = choose|i: int| 0 <= i < start.len() && start[i] == '=';
            if i < key.len() {
                assert(key[i] == '=');
                assert(key.contains('='));
            } else {
                assert(b[i - key.len()] == '=');
                assert(is_white_space(b[i - key.len()]));
            }
        }
    }
    lemma_first_equals(start, end);
    let none = Seq::<char>::empty();
    assert(is_blank(none));
    if key.len() > 0 {
        law_trimming(none, key, b);
        assert(none + key + b =~= start);
    } else {
        law_trimming(none, none, none);
        assert(none + none + none =~= start);
        assert(key =~= none);
    }
    if value.len() > 0 {
        law_trimming(c, value, none);
        assert(c + value + none =~= end);
    } else {
        law_trimming(none, none, none);
        assert(none + none + none =~= end);
        assert(value =~= none);
    }
}

/// A line with an equals sign sets what stands before the first one to what stands behind it,
/// without the white space around either. There has to be a name; white space or a NUL in it
/// makes it invalid, and so does a NUL in the value make that.
pub proof fn law_typed_env_lines(
    a: Seq<char>,
    key: Seq<char>,
    b: Seq<char>,
    c: Seq<char>,
    value: Seq<char>,
    d: Seq<char>,
)
    requires
        is_blank(a) && is_blank(b) && is_blank(c) && is_blank(d),
        key.len() > 0 ==> !is_white_space(key[0]) && !is_white_space(key[key.len() - 1]),
        value.len() > 0 ==> !is_white_space(value[0]) && !is_white_space(value[value.len() - 1]),
        !key.contains('='),
    ensures
        ({
            let read = read_env_line(a + key + b + "="@ + c + value + d);
            let plain = !key.contains('\0') && forall|i: int|
                0 <= i < key.len() ==> !is_white_space(#[trigger] key[i]);
            &&& key.len() == 0 ==> read is EmptyKey
            &&& key.len() > 0 && !plain ==> read is InvalidKey
            &&& key.len() > 0 && plain && value.contains('\0') ==> read is InvalidValue
            &&& key.len() > 0 && plain && !value.contains('\0') ==> read == (EnvLine::Entry {
                key,
                value,
            })
        }),
{
    lemma_typed_line(a, key, b, c, value, d);
    let plain = !key.contains('\0') && forall|i: int|
        0 <= i < key.len() ==> !is_white_space(#[trigger] key[i]);
    assert(key_allowed(key) == plain) by {
        if plain {
            assert forall|i: int| 0 <= i < key.len() implies #[trigger] key[i] != '=' && key[i]
                != '\0' && !is_white_space(key[i]) by {
                assert(key.contains(key[i]));
            }
        }
        if key_allowed(key) && key.contains('\0') {
            let i = choose|i: int| 0 <= i < key.len() && key[i] == '\0';
            assert(key[i] != '\0');
        }
    }
}

/// A line of white space says nothing, and one that says something without an equals sign is
/// not a setting.
pub proof fn law_other_env_lines(a: Seq<char>, text: Seq<char>, b: Seq<char>)
    requires
        is_blank(a) && is_blank(b),
        text.len() > 0 ==> !is_white_space(text[0]) && !is_white_space(text[text.len() - 1]),
        !text.contains('='),
    ensures
        text.len() == 0 ==> read_env_line(a + text + b) is Blank,
        text.len() > 0 ==> read_env_line(a + text + b) is NotKeyValue,
{
    law_trimming(a, text, b);
    reveal_strlit("=");
    if contains(text, "="@) {
        let i = choose|i: int| occurs_at(text, "="@, i);
        assert(text.subrange(i, i + 1)[0] == text[i]);
        assert("="@[0] == '=');
        assert(text.contains(text[i]));
    }
}

/// What is wrong with a line is said with its number.
pub proof fn law_wrong_lines_are_named(number: nat, line: EnvLine)
    ensures
        line is Blank || line is Entry ==> env_complaint(number, line) is None,
        line is NotKeyValue ==> env_complaint(number, line) == Some(
            "Environment variable line "@ + decimal(number) + " must be in KEY=VALUE form."@,
        ),
        line is EmptyKey ==> env_complaint(number, line) == Some(
            "Environment variable line "@ + decimal(number) + " must include a non-empty key."@,
        ),
        line is InvalidKey ==> env_complaint(number, line) == Some(
            "Environment variable line "@ + decimal(number) + " has an invalid key."@,
        ),
        line is InvalidValue ==> env_complaint(number, line) == Some(
            "Environment variable line "@ + decimal(number) + " has an invalid value."@,
        ),
{
}

/// Each line adds what it sets, in place of what an earlier line set for the same name; lines
/// that say nothing change nothing; and the first line that is wrong is complained of, counted
/// from one, whatever follows.
pub proof fn law_lines_are_read_in_turn(all: Seq<Seq<char>>, line: Seq<char>)
    ensures
        read_env_lines(Seq::empty()) == Ok::<Map<Seq<char>, Seq<char>>, Seq<char>>(Map::empty()),
        read_env_lines(all) is Err ==> read_env_lines(all.push(line)) == read_env_lines(all),
        read_env_lines(all) matches Ok(vars) ==> {
            &&& read_env_line(line) is Blank ==> read_env_lines(all.push(line)) == read_env_lines(
                all,
            )
            &&& read_env_line(line) matches EnvLine::Entry { key, value } ==> read_env_lines(
                all.push(line),
            ) == Ok::<Map<Seq<char>, Seq<char>>, Seq<char>>(vars.insert(key, value))
            &&& read_env_line(line) is NotKeyValue ==> read_env_lines(all.push(line)) == Err::<
                Map<Seq<char>, Seq<char>>,
                Seq<char>,
            >(
                "Environment variable line "@ + decimal(all.len() + 1)
                    + " must be in KEY=VALUE form."@,
            )
            &&& read_env_line(line) is EmptyKey ==> read_env_lines(all.push(line)) == Err::<
                Map<Seq<char>, Seq<char>>,
                Seq<char>,
            >(
                "Environment variable line "@ + decimal(all.len() + 1)
                    + " must include a non-empty key."@,
            )
            &&& read_env_line(line) is InvalidKey ==> read_env_lines(all.push(line)) == Err::<
                Map<Seq<char>, Seq<char>>,
                Seq<char>,
            >("Environment variable line "@ + decimal(all.len() + 1) + " has an invalid key."@)
            &&& read_env_line(line) is InvalidValue ==> read_env_lines(all.push(line)) == Err::<
                Map<Seq<char>, Seq<char>>,
                Seq<char>,
            >("Environment variable line "@ + decimal(all.len() + 1) + " has an invalid value."@)
        },
{
    assert(all.push(line).drop_last() =~= all);
}

} // verus!

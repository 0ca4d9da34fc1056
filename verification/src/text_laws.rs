//! What holds of text, numbers in text and points in time.
use vstd::prelude::*;

use crate::decimal::{all_digits, decimal, digits_value, is_digit, parse, unsigned_body};
use crate::pattern::{contains, first_at, occurs_at, split_once};
use crate::text::{
    ascii_folded, ascii_lowercase, blank, equals, filled, is_white_space, join,
    lemma_split_where_nonempty, lines, same_ignoring_ascii_case, split, split_where, trim,
    trim_end, trim_start, words,
};
use crate::text_map::less;
use crate::time::{written_in_utc, Timestamp, LOCAL_LAYOUT, MINUTES_LAYOUT, SECONDS_LAYOUT};

verus! {

// ---------------------------------------------------------------------------
// White space
// ---------------------------------------------------------------------------

/// Of the ASCII characters the space and those from tab to carriage return are white space;
/// beyond ASCII the other spaces and line separators are.
pub proof fn law_white_space(c: char)
    ensures
        c as int <= 127 ==> (is_white_space(c) <==> c == ' ' || c == '\t' || c == '\n' || c
            == '\u{b}' || c == '\u{c}' || c == '\r'),
        c as int > 127 ==> (is_white_space(c) <==> c == '\u{85}' || c == '\u{a0}' || c
            == '\u{1680}' || ('\u{2000}' <= c && c <= '\u{200a}') || c == '\u{2028}' || c
            == '\u{2029}' || c == '\u{202f}' || c == '\u{205f}' || c == '\u{3000}'),
{
}

/// Whether `s` is made of white space only.
pub open spec fn is_blank(s: Seq<char>) -> bool {
    forall|i: int| 0 <= i < s.len() ==> is_white_space(#[trigger] s[i])
}

/// Trimming takes away the white space at both ends and nothing else.
pub proof fn law_trimming(before: Seq<char>, s: Seq<char>, after: Seq<char>)
    requires
        is_blank(before),
        is_blank(after),
        s.len() > 0 ==> !is_white_space(s[0]) && !is_white_space(s[s.len() - 1]),
    ensures
        trim(before + s + after) == s,
    decreases before.len() + after.len(),
{
    let all = before + s + after;
    if before.len() > 0 {
        assert(is_white_space(before[0]));
        assert(all[0] == before[0]);
        assert(all.skip(1) =~= before.skip(1) + s + after);
        law_trimming(before.skip(1), s, after);
    } else if s.len() == 0 && after.len() > 0 {
        assert(is_white_space(after[0]));
        assert(all[0] == after[0]);
        assert(all.skip(1) =~= before + s + after.skip(1));
        law_trimming(before, s, after.skip(1));
    } else {
        assert(all =~= s + after);
        if s.len() > 0 {
            assert(all[0] == s[0]);
        }
        assert(trim_start(all) == all);
        lemma_trim_end(s, after);
    }
}

proof fn lemma_trim_end(s: Seq<char>, after: Seq<char>)
    requires
        is_blank(after),
        s.len() > 0 ==> !is_white_space(s[s.len() - 1]),
    ensures
        trim_end(s + after) == s,
    decreases after.len(),
{
    let all = s + after;
    if after.len() > 0 {
        assert(is_white_space(after[after.len() - 1]));
        assert(all.last() == after[after.len() - 1]);
        assert(all.drop_last() =~= s + after.drop_last());
        lemma_trim_end(s, after.drop_last());
    } else {
        assert(all =~= s);
    }
}

// ---------------------------------------------------------------------------
// Splitting and joining
// ---------------------------------------------------------------------------

proof fn lemma_split_at_separator(
    a: Seq<char>,
    c: char,
    b: Seq<char>,
    sep: spec_fn(char) -> bool,
)
    requires
        sep(c),
    ensures
        split_where(a + seq![c] + b, sep) == split_where(a, sep) + split_where(b, sep),
    decreases b.len(),
{
    let s = a + seq![c] + b;
    lemma_split_where_nonempty(a, sep);
    lemma_split_where_nonempty(b, sep);
    if b.len() == 0 {
        assert(s.drop_last() =~= a);
        assert(s.last() == c);
        assert(split_where(s, sep) =~= split_where(a, sep) + split_where(b, sep));
    } else {
        let head = b.drop_last();
        lemma_split_at_separator(a, c, head, sep);
        lemma_split_where_nonempty(head, sep);
        assert(s.drop_last() =~= a + seq![c] + head);
        assert(s.last() == b.last());
        assert(split_where(s, sep) =~= split_where(a, sep) + split_where(b, sep));
    }
}

/// Text is split at every separator and nowhere else, so that what stands before one and
/// what stands behind it are split by themselves.
pub proof fn law_splitting(a: Seq<char>, sep: char, b: Seq<char>)
    ensures
        split(a + seq![sep] + b, sep) == split(a, sep) + split(b, sep),
        !a.contains(sep) ==> split(a, sep) == seq![a],
    decreases a.len(),
{
    lemma_split_at_separator(a, sep, b, equals(sep));
    if !a.contains(sep) {
        lemma_unsplit(a, equals(sep));
    }
}

proof fn lemma_unsplit(a: Seq<char>, sep: spec_fn(char) -> bool)
    requires
        forall|i: int| 0 <= i < a.len() ==> !sep(#[trigger] a[i]),
    ensures
        split_where(a, sep) == seq![a],
    decreases a.len(),
{
    if a.len() > 0 {
        assert(!sep(a[a.len() - 1]));
        assert forall|i: int| 0 <= i < a.drop_last().len() implies !sep(
            #[trigger] a.drop_last()[i],
        ) by {
            assert(!sep(a[i]));
        }
        lemma_unsplit(a.drop_last(), sep);
        assert(a.drop_last().push(a.last()) =~= a);
        assert(split_where(a, sep) =~= seq![a]);
    } else {
        assert(a =~= Seq::<char>::empty());
        assert(split_where(a, sep) =~= seq![a]);
    }
}

proof fn lemma_filter_add(a: Seq<Seq<char>>, b: Seq<Seq<char>>)
    ensures
        (a + b).filter(filled()) == a.filter(filled()) + b.filter(filled()),
    decreases b.len(),
{
    reveal(Seq::filter);
    if b.len() == 0 {
        assert(a + b =~= a);
        assert(a.filter(filled()) + b.filter(filled()) =~= a.filter(filled()));
    } else {
        lemma_filter_add(a, b.drop_last());
        assert((a + b).drop_last() =~= a + b.drop_last());
        assert((a + b).filter(filled()) =~= a.filter(filled()) + b.filter(filled()));
    }
}

/// White space parts words: those before it and those behind it are words by themselves, and
/// text without any is one word.
pub proof fn law_words(a: Seq<char>, c: char, b: Seq<char>)
    requires
        is_white_space(c),
    ensures
        words(a + seq![c] + b) == words(a) + words(b),
        words(Seq::empty()) == Seq::<Seq<char>>::empty(),
        a.len() > 0 && (forall|i: int| 0 <= i < a.len() ==> !is_white_space(#[trigger] a[i]))
            ==> words(a) == seq![a],
{
    reveal(Seq::filter);
    lemma_split_at_separator(a, c, b, blank());
    lemma_filter_add(split_where(a, blank()), split_where(b, blank()));
    let none = split_where(Seq::<char>::empty(), blank());
    assert(none.drop_last() =~= Seq::<Seq<char>>::empty());
    assert(none.drop_last().filter(filled()) =~= Seq::<Seq<char>>::empty());
    assert(words(Seq::empty()) =~= Seq::<Seq<char>>::empty());
    if a.len() > 0 && forall|i: int| 0 <= i < a.len() ==> !is_white_space(#[trigger] a[i]) {
        lemma_unsplit(a, blank());
        assert(seq![a].drop_last() =~= Seq::<Seq<char>>::empty());
        assert(seq![a].drop_last().filter(filled()) =~= Seq::<Seq<char>>::empty());
        assert(words(a) =~= seq![a]);
    }
}

/// A line ends at a newline, and a carriage return before that belongs to the end; what
/// stands behind the last newline is a line where it is not empty.
pub proof fn law_lines(line: Seq<char>, rest: Seq<char>)
    requires
        !line.contains('\n'),
    ensures
        line.len() > 0 && line.last() == '\r' ==> lines(line + seq!['\n'] + rest) == seq![
            line.drop_last(),
        ] + lines(rest),
        line.len() == 0 || line.last() != '\r' ==> lines(line + seq!['\n'] + rest) == seq![line]
            + lines(rest),
        lines(line) == if line.len() == 0 {
            Seq::empty()
        } else {
            seq![line]
        },
{
    law_splitting(line, '\n', rest);
    lemma_split_where_nonempty(rest, equals('\n'));
    let all = split(line + seq!['\n'] + rest, '\n');
    let behind = split(rest, '\n');
    assert(all.drop_last() =~= seq![line] + behind.drop_last());
    assert(all.last() == behind.last());
    assert(lines(line + seq!['\n'] + rest) =~= seq![
        if line.len() > 0 && line.last() == '\r' {
            line.drop_last()
        } else {
            line
        },
    ] + lines(rest));
    assert(seq![line].drop_last() =~= Seq::<Seq<char>>::empty());
    assert(lines(line) =~= if line.len() == 0 {
        Seq::empty()
    } else {
        seq![line]
    });
}

/// Joining puts the separator between neighbours and nowhere else.
pub proof fn law_joining(parts: Seq<Seq<char>>, last: Seq<char>, sep: Seq<char>)
    ensures
        join(Seq::empty(), sep) == Seq::<char>::empty(),
        join(seq![last], sep) == last,
        parts.len() > 0 ==> join(parts.push(last), sep) == join(parts, sep) + sep + last,
{
    assert(parts.push(last).drop_last() =~= parts);
}

// ---------------------------------------------------------------------------
// Looking for text
// ---------------------------------------------------------------------------

/// A text holds another exactly where it is some text, the other and some text in a row.
pub proof fn law_containing(s: Seq<char>, before: Seq<char>, pat: Seq<char>, after: Seq<char>)
    ensures
        contains(before + pat + after, pat),
        contains(s, pat) ==> exists|i: int|
            0 <= i <= s.len() - pat.len() && s == #[trigger] s.take(i) + pat + s.skip(
                i + pat.len(),
            ),
{
    let all = before + pat + after;
    assert(all.subrange(before.len() as int, (before.len() + pat.len()) as int) =~= pat);
    assert(occurs_at(all, pat, before.len() as int));
    if contains(s, pat) {
        let i = choose|i: int| occurs_at(s, pat, i);
        assert(s =~= s.take(i) + s.subrange(i, i + pat.len()) + s.skip(i + pat.len()));
    }
}

/// Text is split once, at the first place where the pattern stands.
pub proof fn law_splitting_once(s: Seq<char>, pat: Seq<char>)
    ensures
        split_once(s, pat) is Some <==> contains(s, pat),
        split_once(s, pat) matches Some((before, after)) ==> s == before + pat + after
            && !(exists|j: int| 0 <= j < before.len() && occurs_at(s, pat, j)),
{
    if contains(s, pat) {
        let k = choose|k: int| occurs_at(s, pat, k);
        lemma_first(s, pat, k);
        let i = choose|i: int| first_at(s, pat, i);
        assert(s =~= s.take(i) + s.subrange(i, i + pat.len()) + s.skip(i + pat.len()));
    }
}

proof fn lemma_first(s: Seq<char>, pat: Seq<char>, k: int)
    requires
        occurs_at(s, pat, k),
    ensures
        exists|i: int| first_at(s, pat, i),
    decreases k,
{
    if exists|j: int| 0 <= j < k && occurs_at(s, pat, j) {
        let j = choose|j: int| 0 <= j < k && occurs_at(s, pat, j);
        lemma_first(s, pat, j);
    } else {
        assert(first_at(s, pat, k));
    }
}

// ---------------------------------------------------------------------------
// Letter case and order
// ---------------------------------------------------------------------------

/// The ASCII capitals become the small letters 32 places behind them; all other characters
/// stay. Two texts are the same but for case exactly where they are the same after that.
pub proof fn law_ascii_case(a: Seq<char>, b: Seq<char>, i: int)
    ensures
        ascii_lowercase(a).len() == a.len(),
        0 <= i < a.len() && 'A' <= a[i] && a[i] <= 'Z' ==> ascii_lowercase(a)[i] as int
            == a[i] as int + 32,
        0 <= i < a.len() && !('A' <= a[i] && a[i] <= 'Z') ==> ascii_lowercase(a)[i] == a[i],
        same_ignoring_ascii_case(a, b) <==> ascii_lowercase(a) == ascii_lowercase(b),
{
    if 0 <= i < a.len() {
        lemma_folded(a[i]);
    }
    if same_ignoring_ascii_case(a, b) {
        assert forall|k: int| 0 <= k < a.len() implies ascii_lowercase(a)[k] == ascii_lowercase(
            b,
        )[k] by {
            assert(ascii_folded(a[k]) == ascii_folded(b[k]));
        }
        assert(ascii_lowercase(a) =~= ascii_lowercase(b));
    }
    if ascii_lowercase(a) == ascii_lowercase(b) {
        assert(ascii_lowercase(b).len() == b.len());
        assert forall|k: int| 0 <= k < a.len() implies ascii_folded(#[trigger] a[k])
            == ascii_folded(b[k]) by {
            lemma_folded(a[k]);
            lemma_folded(b[k]);
            assert(ascii_lowercase(a)[k] == ascii_lowercase(b)[k]);
        }
    }
}

proof fn lemma_folded(c: char)
    ensures
        (ascii_folded(c) as char) as int == ascii_folded(c),
        'A' <= c && c <= 'Z' ==> ascii_folded(c) == c as int + 32,
        !('A' <= c && c <= 'Z') ==> ascii_folded(c) as char == c,
{
}

/// Texts are ordered by the first characters in which they differ, and a text comes before
/// its continuations.
pub proof fn law_text_order(p: Seq<char>, x: char, a: Seq<char>, y: char, b: Seq<char>)
    requires
        x != y,
    ensures
        less(p + seq![x] + a, p + seq![y] + b) <==> (x as int) < (y as int),
        less(p, p + seq![x] + a),
        !less(p + seq![x] + a, p),
    decreases p.len(),
{
    let s = p + seq![x] + a;
    let t = p + seq![y] + b;
    if p.len() > 0 {
        law_text_order(p.skip(1), x, a, y, b);
        assert(s.skip(1) =~= p.skip(1) + seq![x] + a);
        assert(t.skip(1) =~= p.skip(1) + seq![y] + b);
        assert(s[0] == p[0] && t[0] == p[0]);
    } else {
        assert(s[0] == x && t[0] == y);
    }
}

// ---------------------------------------------------------------------------
// Numbers
// ---------------------------------------------------------------------------

/// Numbers are written in decimal digits, the highest first and without leading zeros.
pub proof fn law_decimal(n: nat, d: nat)
    requires
        d < 10,
    ensures
        decimal(d).len() == 1,
        decimal(d)[0] as int == '0' as int + d,
        n > 0 ==> decimal(10 * n + d) == decimal(n) + decimal(d),
{
    if n > 0 {
        assert((10 * n + d) / 10 == n);
        assert((10 * n + d) % 10 == d);
        assert(decimal(10 * n + d) =~= decimal(n) + decimal(d));
    }
}

/// A number is read from decimal digits, one or more, the highest first, behind at most one
/// plus sign, where it is not too large. Anything else is not a number.
pub proof fn law_reading_numbers(s: Seq<char>, c: char, max: nat)
    ensures
        parse(Seq::empty(), max) is None,
        parse(seq!['+'], max) is None,
        '0' <= c && c <= '9' && c as int - '0' as int <= max ==> parse(seq![c], max) == Some(
            (c as int - '0' as int) as nat,
        ),
        s.len() > 0 && s[0] != '+' ==> parse(seq!['+'] + s, max) == parse(s, max),
        parse(s, max) matches Some(n) ==> n <= max,
        s.len() > 0 && s != seq!['+'] && '0' <= c && c <= '9' ==> match parse(s, max) {
            Some(n) => parse(s.push(c), max) == if 10 * n + (c as int - '0' as int) <= max {
                Some((10 * n + (c as int - '0' as int)) as nat)
            } else {
                None
            },
            None => parse(s.push(c), max) is None,
        },
        s.len() > 0 && !('0' <= c && c <= '9') ==> parse(s.push(c), max) is None,
{
    reveal_with_fuel(digits_value, 2);
    lemma_digit(c);
    assert(seq!['+'].skip(1) =~= Seq::<char>::empty());
    assert(seq![c].drop_last() =~= Seq::<char>::empty());
    assert((seq!['+'] + s).skip(1) =~= s);
    if s.len() > 0 {
        let body = unsigned_body(s);
        let longer = unsigned_body(s.push(c));
        assert(longer =~= body.push(c));
        assert(longer.drop_last() =~= body);
        assert(longer[body.len() as int] == c);
        if all_digits(longer) {
            assert forall|i: int| 0 <= i < body.len() implies is_digit(#[trigger] body[i]) by {
                assert(longer[i] == body[i]);
            }
        }
        if all_digits(body) && is_digit(c) {
            assert forall|i: int| 0 <= i < longer.len() implies is_digit(#[trigger] longer[i]) by {
                if i < body.len() {
                    assert(longer[i] == body[i]);
                }
            }
        }
        if body.len() == 0 {
            assert(s =~= seq!['+']);
        }
    }
}

proof fn lemma_digit(c: char)
    ensures
        is_digit(c) <==> '0' <= c && c <= '9',
{
}

// ---------------------------------------------------------------------------
// Points in time
// ---------------------------------------------------------------------------

/// Of two points in time the one with the later second is later, and within one second the
/// one with more nanoseconds; just one of them is, unless they are the same.
pub proof fn law_times_are_ordered(a: Timestamp, b: Timestamp)
    ensures
        a.secs > b.secs ==> a.later_than(b),
        a.secs == b.secs ==> (a.later_than(b) <==> a.nanos > b.nanos),
        a.later_than(b) ==> !b.later_than(a),
        a != b ==> a.later_than(b) || b.later_than(a),
{
}

/// Times are written out to the minute, to the second, and in local time to the second with
/// the offset from UTC. A time is a date exactly where it can be written out to the second.
pub proof fn law_times_are_written_out(at: Timestamp)
    ensures
        MINUTES_LAYOUT@ == "%Y-%m-%d %H:%M"@,
        SECONDS_LAYOUT@ == "%Y-%m-%d %H:%M:%S"@,
        LOCAL_LAYOUT@ == "%Y-%m-%d %H:%M:%S %:z"@,
        at.is_date() <==> written_in_utc(at.secs, at.nanos, "%Y-%m-%d %H:%M:%S"@) is Some,
{
}

} // verus!

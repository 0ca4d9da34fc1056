//! What holds of styled text as a whole.
use vstd::prelude::*;

use crate::app::ansi::{plain_style, sgr_codes, styled_by_all, ReviewTextStyle};
use crate::app::styled_text::{
    compact, ends_csi, flattened, in_style, mode_after, plain_text, read_all, read_char, stripped,
    styled_text,
    AnsiReader, ReviewAnsiMode, ReviewStyledSpan, StyledChar,
};

verus! {

/// Output may be read in pieces, wherever it is cut: the second piece goes on with what
/// the first left open, and the texts follow each other.
pub proof fn law_output_may_be_cut(reader: AnsiReader, a: Seq<char>, b: Seq<char>)
    ensures
        read_all(reader, a + b) == read_all(read_all(reader, a), b),
        styled_text(reader, a + b) == styled_text(reader, a) + styled_text(
            read_all(reader, a),
            b,
        ),
    decreases b.len(),
{
    if b.len() == 0 {
        assert(a + b =~= a);
        assert(styled_text(reader, a) + Seq::<StyledChar>::empty() =~= styled_text(reader, a));
    } else {
        law_output_may_be_cut(reader, a, b.drop_last());
        assert((a + b).drop_last() =~= a + b.drop_last());
        assert((a + b).last() == b.last());
        let before = read_all(reader, a + b.drop_last());
        let c = (b.last(), before.style);
        assert((styled_text(reader, a) + styled_text(read_all(reader, a), b.drop_last())).push(c)
            =~= styled_text(reader, a) + styled_text(read_all(reader, a), b.drop_last()).push(c));
    }
}

/// Styles only colour the text: the characters of a styled text are those that are left
/// when the escape codes are taken out.
pub proof fn law_styles_keep_the_text(style: ReviewTextStyle, csi: Seq<char>, s: Seq<char>)
    ensures
        plain_text(
            styled_text(AnsiReader { mode: ReviewAnsiMode::Text, style, csi }, s),
        ) == stripped(s),
        read_all(AnsiReader { mode: ReviewAnsiMode::Text, style, csi }, s).mode == mode_after(s),
    decreases s.len(),
{
    let reader = AnsiReader { mode: ReviewAnsiMode::Text, style, csi };
    if s.len() == 0 {
        assert(plain_text(styled_text(reader, s)) =~= stripped(s));
    } else {
        law_styles_keep_the_text(style, csi, s.drop_last());
        let before = read_all(reader, s.drop_last());
        let shown = styled_text(reader, s.drop_last());
        assert(plain_text(shown.push((s.last(), before.style))) =~= plain_text(shown).push(
            s.last(),
        ));
    }
}

/// Stripped text holds no escape character.
pub proof fn law_stripped_text_has_no_escape(s: Seq<char>)
    ensures
        !stripped(s).contains('\u{1b}'),
    decreases s.len(),
{
    if s.len() > 0 {
        law_stripped_text_has_no_escape(s.drop_last());
        let head = stripped(s.drop_last());
        if stripped(s).contains('\u{1b}') {
            let i = stripped(s).index_of('\u{1b}');
            if i < head.len() {
                assert(head[i] == '\u{1b}');
            }
        }
    }
}

/// Text without an escape character is left as it is.
pub proof fn law_plain_text_stays(s: Seq<char>)
    requires
        !s.contains('\u{1b}'),
    ensures
        stripped(s) == s,
        mode_after(s) == ReviewAnsiMode::Text,
    decreases s.len(),
{
    if s.len() > 0 {
        assert(s[s.len() - 1] == s.last());
        assert forall|i: int| 0 <= i < s.drop_last().len() implies s.drop_last()[i]
            != '\u{1b}' by {
            assert(s.drop_last()[i] == s[i]);
        }
        law_plain_text_stays(s.drop_last());
        assert(s.drop_last().push(s.last()) =~= s);
    } else {
        assert(stripped(s) =~= s);
    }
}

/// Stripping twice strips no more than stripping once.
pub proof fn law_stripping_is_idempotent(s: Seq<char>)
    ensures
        stripped(stripped(s)) == stripped(s),
{
    law_stripped_text_has_no_escape(s);
    law_plain_text_stays(stripped(s));
}

/// Compact spans are determined by the styled characters they hold.
pub proof fn law_spans_are_determined(a: Seq<ReviewStyledSpan>, b: Seq<ReviewStyledSpan>)
    requires
        compact(a),
        compact(b),
        flattened(a) == flattened(b),
    ensures
        a.len() == b.len(),
        forall|i: int|
            0 <= i < a.len() ==> (#[trigger] a[i]).text@ == b[i].text@ && a[i].style == b[i].style
                && a[i].visible_chars == b[i].visible_chars,
    decreases a.len(),
{
    if a.len() == 0 || b.len() == 0 {
        lemma_flattened_len(a);
        lemma_flattened_len(b);
    } else {
        let flat = flattened(a);
        let n = flat.len() as int;
        let x = a.last();
        let y = b.last();
        let p = flattened(a.drop_last());
        let q = flattened(b.drop_last());
        assert(flat[n - 1] == in_style(x.text@, x.style)[x.text@.len() - 1]);
        assert(flat[n - 1] == in_style(y.text@, y.style)[y.text@.len() - 1]);
        assert(x.style == y.style);
        assert(compact(a.drop_last())) by {
            lemma_prefix_compact(a);
        }
        assert(compact(b.drop_last())) by {
            lemma_prefix_compact(b);
        }
        lemma_run_ends(a, b);
        lemma_run_ends(b, a);
        assert(p.len() == q.len());
        assert forall|i: int| 0 <= i < p.len() implies p[i] == q[i] by {
            assert(p[i] == flat[i]);
            assert(q[i] == flat[i]);
        }
        assert(p =~= q);
        assert forall|i: int| 0 <= i < x.text@.len() implies x.text@[i] == y.text@[i] by {
            assert(flat[p.len() + i] == in_style(x.text@, x.style)[i]);
            assert(flat[p.len() + i] == in_style(y.text@, y.style)[i]);
        }
        assert(x.text@ =~= y.text@);
        law_spans_are_determined(a.drop_last(), b.drop_last());
        assert forall|i: int| 0 <= i < a.len() implies (#[trigger] a[i]).text@ == b[i].text@
            && a[i].style == b[i].style && a[i].visible_chars == b[i].visible_chars by {
            if i < a.len() - 1 {
                assert(a.drop_last()[i] == a[i]);
                assert(b.drop_last()[i] == b[i]);
            }
        }
    }
}

proof fn lemma_prefix_compact(a: Seq<ReviewStyledSpan>)
    requires
        compact(a),
        a.len() > 0,
    ensures
        compact(a.drop_last()),
{
    let p = a.drop_last();
    assert forall|i: int, j: int| 0 <= i && j == i + 1 && j < p.len() implies (
    #[trigger] p[i]).style != (#[trigger] p[j]).style by {
        assert(a[i].style != a[j].style);
    }
}

/// Spans that are not empty hold some character.
proof fn lemma_flattened_len(a: Seq<ReviewStyledSpan>)
    requires
        compact(a),
    ensures
        a.len() > 0 ==> flattened(a).len() > 0,
{
    if a.len() > 0 {
        assert(a.last() == a[a.len() - 1]);
    }
}

/// A last run is as long as its style lasts: no other last run over the same characters
/// is longer.
proof fn lemma_run_ends(a: Seq<ReviewStyledSpan>, b: Seq<ReviewStyledSpan>)
    requires
        compact(a),
        compact(b),
        a.len() > 0,
        b.len() > 0,
        flattened(a) == flattened(b),
        a.last().style == b.last().style,
    ensures
        b.last().text@.len() <= a.last().text@.len(),
{
    let flat = flattened(a);
    let x = a.last();
    let y = b.last();
    let p = a.drop_last();
    if x.text@.len() < y.text@.len() {
        let at = flat.len() - x.text@.len() - 1;
        assert(flattened(p).len() == flat.len() - x.text@.len());
        assert(flattened(p).len() > 0);
        assert(p.len() > 0);
        let z = p.last();
        assert(z == a[a.len() - 2]);
        assert(a[a.len() - 2].style != a[a.len() - 1].style);
        assert(flat[at] == flattened(p)[at]);
        assert(flattened(p)[at] == in_style(z.text@, z.style)[z.text@.len() - 1]);
        let k = at - (flat.len() - y.text@.len());
        assert(0 <= k < y.text@.len());
        assert(flat[at] == in_style(y.text@, y.style)[k]);
    }
}

// ---------------------------------------------------------------------------
// Escape codes
// ---------------------------------------------------------------------------

/// Text without an escape character is read as it is, in the style in force, and leaves a
/// reader as it was.
pub proof fn law_text_is_read_as_it_is(reader: AnsiReader, s: Seq<char>)
    requires
        reader.mode == ReviewAnsiMode::Text,
        !s.contains('\u{1b}'),
    ensures
        read_all(reader, s) == reader,
        styled_text(reader, s) == in_style(s, reader.style),
    decreases s.len(),
{
    if s.len() > 0 {
        assert(s[s.len() - 1] == s.last());
        assert forall|i: int| 0 <= i < s.drop_last().len() implies s.drop_last()[i]
            != '\u{1b}' by {
            assert(s.drop_last()[i] == s[i]);
        }
        law_text_is_read_as_it_is(reader, s.drop_last());
        assert(in_style(s.drop_last(), reader.style).push((s.last(), reader.style)) =~= in_style(
            s,
            reader.style,
        ));
    } else {
        assert(in_style(s, reader.style) =~= Seq::<StyledChar>::empty());
    }
}

/// Whether none of the characters of `s` is one from `@` to `~`.
pub open spec fn holds_no_final(s: Seq<char>) -> bool {
    forall|i: int| 0 <= i < s.len() ==> !('@' <= #[trigger] s[i] && s[i] <= '~')
}

proof fn lemma_final_characters(c: char)
    ensures
        ends_csi(c) <==> '@' <= c && c <= '~',
{
}

proof fn lemma_inside_csi(reader: AnsiReader, p: Seq<char>)
    requires
        reader.mode == ReviewAnsiMode::Csi,
        holds_no_final(p),
    ensures
        read_all(reader, p) == (AnsiReader { csi: reader.csi + p, ..reader }),
        styled_text(reader, p) == Seq::<StyledChar>::empty(),
    decreases p.len(),
{
    if p.len() > 0 {
        let head = p.drop_last();
        assert(holds_no_final(head)) by {
            assert forall|i: int| 0 <= i < head.len() implies !('@' <= #[trigger] head[i]
                && head[i] <= '~') by {
                assert(head[i] == p[i]);
            }
        }
        lemma_inside_csi(reader, head);
        let c = p[p.len() - 1];
        lemma_final_characters(c);
        assert(read_all(reader, p) == read_char(read_all(reader, head), c));
        assert((reader.csi + head).push(p.last()) =~= reader.csi + p);
    } else {
        assert(reader.csi + p =~= reader.csi);
    }
}

/// A control sequence: the escape character, an opening bracket, `p` and a final character.
pub open spec fn control_sequence(p: Seq<char>, f: char) -> Seq<char> {
    seq!['\u{1b}', '['] + p + seq![f]
}

proof fn lemma_control_sequence(reader: AnsiReader, p: Seq<char>, f: char)
    requires
        reader.mode == ReviewAnsiMode::Text,
        holds_no_final(p),
        '@' <= f && f <= '~',
    ensures
        styled_text(reader, control_sequence(p, f)) == Seq::<StyledChar>::empty(),
        read_all(reader, control_sequence(p, f)) == (AnsiReader {
            mode: ReviewAnsiMode::Text,
            style: if f == 'm' {
                styled_by_all(reader.style, sgr_codes(p.push('m')))
            } else {
                reader.style
            },
            csi: Seq::empty(),
        }),
{
    let opening = seq!['\u{1b}', '['];
    reveal_with_fuel(read_all, 3);
    reveal_with_fuel(styled_text, 3);
    let entered = read_all(reader, opening);
    assert(opening.drop_last() =~= seq!['\u{1b}']);
    assert(opening.drop_last().drop_last() =~= Seq::<char>::empty());
    assert(entered == (AnsiReader {
        mode: ReviewAnsiMode::Csi,
        csi: Seq::empty(),
        style: reader.style,
    }));
    assert(styled_text(reader, opening) =~= Seq::<StyledChar>::empty());
    law_output_may_be_cut(reader, opening, p);
    lemma_inside_csi(entered, p);
    law_output_may_be_cut(reader, opening + p, seq![f]);
    let inside = read_all(reader, opening + p);
    assert(Seq::<char>::empty() + p =~= p);
    assert(inside.csi == p);
    assert(seq![f].drop_last() =~= Seq::<char>::empty());
    assert(p.push(f) == p.push('m') || f != 'm');
    assert(styled_text(inside, seq![f]) =~= Seq::<StyledChar>::empty());
    assert(styled_text(reader, opening + p) =~= Seq::<StyledChar>::empty());
    assert(Seq::<StyledChar>::empty() + Seq::<StyledChar>::empty() =~= Seq::<StyledChar>::empty());
}

/// A control sequence ends at its first character from `@` to `~`. It is taken out whole,
/// and what stands behind it is read as if it had not been there, in the style that it set
/// if it ends in `m` and in the style in force if it does not.
pub proof fn law_control_sequences_are_taken_out(
    reader: AnsiReader,
    p: Seq<char>,
    f: char,
    t: Seq<char>,
)
    requires
        reader.mode == ReviewAnsiMode::Text,
        holds_no_final(p),
        '@' <= f && f <= '~',
    ensures
        read_all(reader, control_sequence(p, f)).mode == ReviewAnsiMode::Text,
        mode_after(control_sequence(p, f)) == ReviewAnsiMode::Text,
        stripped(control_sequence(p, f) + t) == stripped(t),
        plain_text(styled_text(reader, control_sequence(p, f) + t)) == stripped(t),
        !t.contains('\u{1b}') ==> stripped(control_sequence(p, f) + t) == t,
        !t.contains('\u{1b}') && f != 'm' ==> styled_text(reader, control_sequence(p, f) + t)
            == in_style(t, reader.style),
        !t.contains('\u{1b}') && f == 'm' ==> styled_text(reader, control_sequence(p, f) + t)
            == in_style(t, styled_by_all(reader.style, sgr_codes(p.push('m')))),
{
    let sequence = control_sequence(p, f);
    lemma_control_sequence(reader, p, f);
    law_output_may_be_cut(reader, sequence, t);
    let after = read_all(reader, sequence);
    assert(styled_text(reader, sequence + t) =~= styled_text(after, t));
    law_styles_keep_the_text(reader.style, reader.csi, sequence + t);
    law_styles_keep_the_text(reader.style, reader.csi, sequence);
    law_styles_keep_the_text(after.style, after.csi, t);
    if !t.contains('\u{1b}') {
        law_text_is_read_as_it_is(after, t);
        law_plain_text_stays(t);
    }
}

/// Text in front of an escape code is kept, whatever the code is.
pub proof fn law_text_before_codes_is_kept(t: Seq<char>, rest: Seq<char>)
    requires
        !t.contains('\u{1b}'),
    ensures
        stripped(t + rest) == t + stripped(rest),
    decreases rest.len(),
{
    let reader = AnsiReader {
        mode: ReviewAnsiMode::Text,
        style: plain_style(),
        csi: Seq::<char>::empty(),
    };
    law_output_may_be_cut(reader, t, rest);
    law_text_is_read_as_it_is(reader, t);
    law_styles_keep_the_text(reader.style, reader.csi, t + rest);
    law_styles_keep_the_text(reader.style, reader.csi, rest);
    assert(plain_text(in_style(t, reader.style) + styled_text(reader, rest)) =~= t + plain_text(
        styled_text(reader, rest),
    ));
}

proof fn lemma_inside_string(reader: AnsiReader, p: Seq<char>)
    requires
        reader.mode == ReviewAnsiMode::EscapeString,
        !p.contains('\u{7}'),
        !p.contains('\u{1b}'),
    ensures
        read_all(reader, p) == reader,
        styled_text(reader, p) == Seq::<StyledChar>::empty(),
    decreases p.len(),
{
    if p.len() > 0 {
        assert(p[p.len() - 1] == p.last());
        assert forall|i: int| 0 <= i < p.drop_last().len() implies p.drop_last()[i] != '\u{7}'
            && p.drop_last()[i] != '\u{1b}' by {
            assert(p.drop_last()[i] == p[i]);
        }
        lemma_inside_string(reader, p.drop_last());
    }
}

proof fn lemma_string_is_open(reader: AnsiReader, opener: char, p: Seq<char>)
    requires
        reader.mode == ReviewAnsiMode::Text,
        opener == ']' || opener == 'P' || opener == '^' || opener == '_',
        !p.contains('\u{7}'),
        !p.contains('\u{1b}'),
    ensures
        read_all(reader, seq!['\u{1b}', opener] + p) == (AnsiReader {
            mode: ReviewAnsiMode::EscapeString,
            ..reader
        }),
        styled_text(reader, seq!['\u{1b}', opener] + p) == Seq::<StyledChar>::empty(),
{
    let opening = seq!['\u{1b}', opener];
    reveal_with_fuel(read_all, 3);
    reveal_with_fuel(styled_text, 3);
    assert(opening.drop_last() =~= seq!['\u{1b}']);
    assert(opening.drop_last().drop_last() =~= Seq::<char>::empty());
    assert(styled_text(reader, opening) =~= Seq::<StyledChar>::empty());
    law_output_may_be_cut(reader, opening, p);
    lemma_inside_string(read_all(reader, opening), p);
    assert(Seq::<StyledChar>::empty() + Seq::<StyledChar>::empty() =~= Seq::<StyledChar>::empty());
}

proof fn lemma_string_ends(reader: AnsiReader, end: Seq<char>)
    requires
        reader.mode == ReviewAnsiMode::EscapeString,
        end == seq!['\u{7}'] || end == seq!['\u{1b}', '\\'],
    ensures
        read_all(reader, end) == (AnsiReader { mode: ReviewAnsiMode::Text, ..reader }),
        styled_text(reader, end) == Seq::<StyledChar>::empty(),
{
    reveal_with_fuel(read_all, 3);
    reveal_with_fuel(styled_text, 3);
    assert(seq!['\u{7}'].drop_last() =~= Seq::<char>::empty());
    assert(seq!['\u{1b}', '\\'].drop_last() =~= seq!['\u{1b}']);
    assert(seq!['\u{1b}'].drop_last() =~= Seq::<char>::empty());
}

/// A string behind an escape character and one of `]`, `P`, `^` and `_` ends at a bell or at
/// an escape character with a backslash. It is taken out whole, such as the address of a
/// link, and what stands behind it is read as if it had not been there.
pub proof fn law_strings_are_taken_out(
    reader: AnsiReader,
    opener: char,
    p: Seq<char>,
    end: Seq<char>,
    t: Seq<char>,
)
    requires
        reader.mode == ReviewAnsiMode::Text,
        opener == ']' || opener == 'P' || opener == '^' || opener == '_',
        !p.contains('\u{7}'),
        !p.contains('\u{1b}'),
        end == seq!['\u{7}'] || end == seq!['\u{1b}', '\\'],
    ensures
        read_all(reader, seq!['\u{1b}', opener] + p + end) == reader,
        styled_text(reader, seq!['\u{1b}', opener] + p + end + t) == styled_text(reader, t),
        stripped(seq!['\u{1b}', opener] + p + end + t) == stripped(t),
{
    let opened = seq!['\u{1b}', opener] + p;
    lemma_string_is_open(reader, opener, p);
    lemma_string_ends(read_all(reader, opened), end);
    law_output_may_be_cut(reader, opened, end);
    law_output_may_be_cut(reader, opened + end, t);
    assert(styled_text(reader, opened + end) =~= Seq::<StyledChar>::empty());
    assert(styled_text(reader, opened + end + t) =~= styled_text(reader, t));
    law_styles_keep_the_text(reader.style, reader.csi, opened + end + t);
    law_styles_keep_the_text(reader.style, reader.csi, t);
}

/// An escape character takes just the next character with it where that opens nothing.
pub proof fn law_short_codes_are_taken_out(reader: AnsiReader, c: char, t: Seq<char>)
    requires
        reader.mode == ReviewAnsiMode::Text,
        c != '[' && c != ']' && c != 'P' && c != '^' && c != '_',
    ensures
        read_all(reader, seq!['\u{1b}', c]) == reader,
        styled_text(reader, seq!['\u{1b}', c] + t) == styled_text(reader, t),
        stripped(seq!['\u{1b}', c] + t) == stripped(t),
{
    let code = seq!['\u{1b}', c];
    reveal_with_fuel(read_all, 3);
    reveal_with_fuel(styled_text, 3);
    assert(code.drop_last() =~= seq!['\u{1b}']);
    assert(code.drop_last().drop_last() =~= Seq::<char>::empty());
    assert(styled_text(reader, code) =~= Seq::<StyledChar>::empty());
    law_output_may_be_cut(reader, code, t);
    assert(styled_text(reader, code + t) =~= styled_text(reader, t));
    law_styles_keep_the_text(reader.style, reader.csi, code + t);
    law_styles_keep_the_text(reader.style, reader.csi, t);
}

/// Inside a string an escape character that no backslash follows ends nothing, and any number
/// of escape characters before a backslash do.
pub proof fn law_escapes_inside_strings(reader: AnsiReader, c: char)
    requires
        reader.mode == ReviewAnsiMode::EscapeString,
        c != '\\',
        c != '\u{1b}',
    ensures
        read_all(reader, seq!['\u{1b}', c]) == reader,
        read_all(reader, seq!['\u{1b}', '\u{1b}']) == read_all(reader, seq!['\u{1b}']),
        read_all(reader, seq!['\u{1b}']).mode != ReviewAnsiMode::Text,
        read_all(reader, seq!['\u{1b}', '\\']) == (AnsiReader {
            mode: ReviewAnsiMode::Text,
            ..reader
        }),
        styled_text(reader, seq!['\u{1b}', c]).len() == 0,
{
    reveal_with_fuel(read_all, 3);
    reveal_with_fuel(styled_text, 3);
    let none = Seq::<char>::empty();
    assert(seq!['\u{1b}', c].drop_last() =~= seq!['\u{1b}']);
    assert(seq!['\u{1b}', '\u{1b}'].drop_last() =~= seq!['\u{1b}']);
    assert(seq!['\u{1b}', '\\'].drop_last() =~= seq!['\u{1b}']);
    assert(seq!['\u{1b}'].drop_last() =~= none);
}

} // verus!

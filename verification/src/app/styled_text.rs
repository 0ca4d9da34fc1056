//! Text with styles: reading it out of terminal output and keeping it as spans.
use vstd::prelude::*;

use crate::app::ansi::{
    apply_sgr_sequence, plain_style, sgr_codes, styled_by_all, ReviewTextStyle,
};
use crate::text::chars_of;
use vstd::string::StrSliceExecFns;
use vstd::string::StringExecFns;

verus! {

// ---------------------------------------------------------------------------
// Reading escape codes
// ---------------------------------------------------------------------------

/// Where in an escape code a reader stands.
#[derive(Clone, Copy, Debug, PartialEq, Eq, Structural)]
pub enum ReviewAnsiMode {
    Text,
    Escape,
    Csi,
    EscapeString,
    EscapeStringTerminator,
}

/// Whether `c` ends a control sequence.
pub open spec fn ends_csi(c: char) -> bool {
    0x40 <= c as u32 <= 0x7e
}

/// Where a reader at `mode` stands after `c`.
pub open spec fn next_mode(mode: ReviewAnsiMode, c: char) -> ReviewAnsiMode {
    match mode {
        ReviewAnsiMode::Text => if c == '\u{1b}' {
            ReviewAnsiMode::Escape
        } else {
            ReviewAnsiMode::Text
        },
        ReviewAnsiMode::Escape => if c == '[' {
            ReviewAnsiMode::Csi
        } else if c == ']' || c == 'P' || c == '^' || c == '_' {
            ReviewAnsiMode::EscapeString
        } else {
            ReviewAnsiMode::Text
        },
        ReviewAnsiMode::Csi => if ends_csi(c) {
            ReviewAnsiMode::Text
        } else {
            ReviewAnsiMode::Csi
        },
        ReviewAnsiMode::EscapeString => if c == '\u{7}' {
            ReviewAnsiMode::Text
        } else if c == '\u{1b}' {
            ReviewAnsiMode::EscapeStringTerminator
        } else {
            ReviewAnsiMode::EscapeString
        },
        ReviewAnsiMode::EscapeStringTerminator => if c == '\\' {
            ReviewAnsiMode::Text
        } else if c == '\u{1b}' {
            ReviewAnsiMode::EscapeStringTerminator
        } else {
            ReviewAnsiMode::EscapeString
        },
    }
}

/// Whether `c` is text for a reader at `mode`, and no part of an escape code.
pub open spec fn is_text(mode: ReviewAnsiMode, c: char) -> bool {
    mode == ReviewAnsiMode::Text && c != '\u{1b}'
}

/// Where a reader at `mode` stands after `c`.
fn step_mode(mode: ReviewAnsiMode, c: char) -> (next: ReviewAnsiMode)
    ensures
        next == next_mode(mode, c),
{
    match mode {
        ReviewAnsiMode::Text => {
            if c == '\u{1b}' {
                ReviewAnsiMode::Escape
            } else {
                ReviewAnsiMode::Text
            }
        },
        ReviewAnsiMode::Escape => {
            if c == '[' {
                ReviewAnsiMode::Csi
            } else if c == ']' || c == 'P' || c == '^' || c == '_' {
                ReviewAnsiMode::EscapeString
            } else {
                ReviewAnsiMode::Text
            }
        },
        ReviewAnsiMode::Csi => {
            let n: u32 = c as u32;
            if 0x40 <= n && n <= 0x7e {
                ReviewAnsiMode::Text
            } else {
                ReviewAnsiMode::Csi
            }
        },
        ReviewAnsiMode::EscapeString => {
            if c == '\u{7}' {
                ReviewAnsiMode::Text
            } else if c == '\u{1b}' {
                ReviewAnsiMode::EscapeStringTerminator
            } else {
                ReviewAnsiMode::EscapeString
            }
        },
        ReviewAnsiMode::EscapeStringTerminator => {
            if c == '\\' {
                ReviewAnsiMode::Text
            } else if c == '\u{1b}' {
                ReviewAnsiMode::EscapeStringTerminator
            } else {
                ReviewAnsiMode::EscapeString
            }
        },
    }
}

/// Where a reader that starts in plain text stands after `s`.
pub open spec fn mode_after(s: Seq<char>) -> ReviewAnsiMode
    decreases s.len(),
{
    if s.len() == 0 {
        ReviewAnsiMode::Text
    } else {
        next_mode(mode_after(s.drop_last()), s.last())
    }
}

/// The text of `s`, without its escape codes.
pub open spec fn stripped(s: Seq<char>) -> Seq<char>
    decreases s.len(),
{
    if s.len() == 0 {
        Seq::empty()
    } else if is_text(mode_after(s.drop_last()), s.last()) {
        stripped(s.drop_last()).push(s.last())
    } else {
        stripped(s.drop_last())
    }
}

/// Takes the escape codes out of `text`.
pub fn strip_ansi_escape_codes(text: &str) -> (cleaned: String)
    ensures
        cleaned@ == stripped(text@),
{
    let chars: Vec<char> = chars_of(text);
    let mut mode: ReviewAnsiMode = ReviewAnsiMode::Text;
    let mut cleaned: String = String::new();
    let mut i: usize = 0;
    proof {
        assert(text@.take(0) =~= Seq::<char>::empty());
    }
    while i < chars.len()
        invariant
            i <= chars@.len(),
            chars@ == text@,
            mode == mode_after(text@.take(i as int)),
            cleaned@ == stripped(text@.take(i as int)),
        decreases chars@.len() - i,
    {
        let c: char = chars[i];
        proof {
            assert(text@.take(i + 1).drop_last() =~= text@.take(i as int));
            assert(text@.take(i + 1).last() == c);
        }
        if mode == ReviewAnsiMode::Text && c != '\u{1b}' {
            cleaned.push(c);
        }
        mode = step_mode(mode, c);
        i = i + 1;
    }
    proof {
        assert(text@.take(i as int) =~= text@);
    }
    cleaned
}

// ---------------------------------------------------------------------------
// Styled characters
// ---------------------------------------------------------------------------

/// A reader of styled terminal output between two characters.
#[derive(Clone, Debug, PartialEq, Eq)]
pub struct ReviewAnsiParserState {
    pub mode: ReviewAnsiMode,
    pub active_style: ReviewTextStyle,
    pub csi_buffer: String,
}

/// What a reader of styled terminal output remembers.
pub struct AnsiReader {
    pub mode: ReviewAnsiMode,
    pub style: ReviewTextStyle,
    pub csi: Seq<char>,
}

impl View for ReviewAnsiParserState {
    type V = AnsiReader;

    open spec fn view(&self) -> AnsiReader {
        AnsiReader { mode: self.mode, style: self.active_style, csi: self.csi_buffer@ }
    }
}

/// A reader that has seen nothing.
pub open spec fn fresh_reader() -> AnsiReader {
    AnsiReader { mode: ReviewAnsiMode::Text, style: plain_style(), csi: Seq::empty() }
}

impl Default for ReviewAnsiParserState {
    fn default() -> (state: Self)
        ensures
            state@ == fresh_reader(),
    {
        let state: ReviewAnsiParserState = ReviewAnsiParserState {
            mode: ReviewAnsiMode::Text,
            active_style: ReviewTextStyle::default(),
            csi_buffer: String::new(),
        };
        state
    }
}

/// What a reader remembers after `c`.
pub open spec fn read_char(reader: AnsiReader, c: char) -> AnsiReader {
    let csi = if reader.mode == ReviewAnsiMode::Escape && c == '[' {
        Seq::empty()
    } else if reader.mode == ReviewAnsiMode::Csi {
        if ends_csi(c) {
            Seq::empty()
        } else {
            reader.csi.push(c)
        }
    } else {
        reader.csi
    };
    let style = if reader.mode == ReviewAnsiMode::Csi && c == 'm' {
        styled_by_all(reader.style, sgr_codes(reader.csi.push(c)))
    } else {
        reader.style
    };
    AnsiReader { mode: next_mode(reader.mode, c), style, csi }
}

/// What a reader remembers after `s`.
pub open spec fn read_all(reader: AnsiReader, s: Seq<char>) -> AnsiReader
    decreases s.len(),
{
    if s.len() == 0 {
        reader
    } else {
        read_char(read_all(reader, s.drop_last()), s.last())
    }
}

/// A character and how it is drawn.
pub type StyledChar = (char, ReviewTextStyle);

/// The text that a reader finds in `s`, each character with the style in force there.
pub open spec fn styled_text(reader: AnsiReader, s: Seq<char>) -> Seq<StyledChar>
    decreases s.len(),
{
    if s.len() == 0 {
        Seq::empty()
    } else {
        let before = read_all(reader, s.drop_last());
        if is_text(before.mode, s.last()) {
            styled_text(reader, s.drop_last()).push((s.last(), before.style))
        } else {
            styled_text(reader, s.drop_last())
        }
    }
}

/// The characters of `s`, all in one style.
pub open spec fn in_style(s: Seq<char>, style: ReviewTextStyle) -> Seq<StyledChar> {
    s.map_values(|c: char| (c, style))
}

/// The characters of a styled text.
pub open spec fn plain_text(s: Seq<StyledChar>) -> Seq<char> {
    s.map_values(|c: StyledChar| c.0)
}

// ---------------------------------------------------------------------------
// Spans
// ---------------------------------------------------------------------------

/// A stretch of text in one style.
#[derive(Clone, Debug, PartialEq, Eq)]
pub struct ReviewStyledSpan {
    pub text: String,
    pub visible_chars: usize,
    pub style: ReviewTextStyle,
}

/// The styled characters of a list of spans.
pub open spec fn flattened(spans: Seq<ReviewStyledSpan>) -> Seq<StyledChar>
    decreases spans.len(),
{
    if spans.len() == 0 {
        Seq::empty()
    } else {
        flattened(spans.drop_last()) + in_style(spans.last().text@, spans.last().style)
    }
}

/// Whether spans are as few as they can be: none is empty, each knows its length, and
/// neighbours differ in style.
pub open spec fn compact(spans: Seq<ReviewStyledSpan>) -> bool {
    &&& forall|i: int|
        0 <= i < spans.len() ==> (#[trigger] spans[i]).text@.len() > 0 && spans[i].visible_chars
            == spans[i].text@.len()
    &&& forall|i: int, j: int|
        0 <= i && j == i + 1 && j < spans.len() ==> (#[trigger] spans[i]).style != (
        #[trigger] spans[j]).style
}

/// Appends text in one style, into the last span where that has the same style.
pub fn append_text_span(spans: &mut Vec<ReviewStyledSpan>, text: String, style: ReviewTextStyle)
    requires
        compact(old(spans)@),
    ensures
        compact(final(spans)@),
        flattened(final(spans)@) == flattened(old(spans)@) + in_style(text@, style),
{
    if text.as_str().is_empty() {
        proof {
            assert(in_style(text@, style) =~= Seq::<StyledChar>::empty());
            assert(flattened(spans@) + in_style(text@, style) =~= flattened(spans@));
        }
        return;
    }
    let ghost before = spans@;
    let count: usize = spans.len();
    if count > 0 && spans[count - 1].style == style {
        let last: Option<ReviewStyledSpan> = spans.pop();
        if let Some(mut span) = last {
            let ghost head = span.text@;
            span.text.append(text.as_str());
            span.visible_chars = span.text.as_str().unicode_len();
            spans.push(span);
            proof {
                assert(spans@.drop_last() =~= before.drop_last());
                assert(in_style(head + text@, style) =~= in_style(head, style) + in_style(
                    text@,
                    style,
                ));
                assert(flattened(spans@) =~= flattened(before) + in_style(text@, style));
                assert forall|i: int, j: int|
                    0 <= i && j == i + 1 && j < spans@.len() implies (#[trigger] spans@[i]).style
                    != (#[trigger] spans@[j]).style by {
                    assert(before[i].style != before[j].style);
                }
            }
        }
    } else {
        let visible_chars: usize = text.as_str().unicode_len();
        spans.push(ReviewStyledSpan { text, visible_chars, style });
        proof {
            assert(spans@.drop_last() =~= before);
        }
    }
}

/// Appends the text of `snapshot` to `spans`, in the styles that its escape codes set.
pub fn append_ansi_snapshot(
    spans: &mut Vec<ReviewStyledSpan>,
    parser_state: &mut ReviewAnsiParserState,
    snapshot: &str,
)
    requires
        compact(old(spans)@),
    ensures
        compact(final(spans)@),
        flattened(final(spans)@) == flattened(old(spans)@) + styled_text(
            old(parser_state)@,
            snapshot@,
        ),
        final(parser_state)@ == read_all(old(parser_state)@, snapshot@),
{
    let chars: Vec<char> = chars_of(snapshot);
    let ghost start = parser_state@;
    let ghost before = flattened(spans@);
    let mut plain_buffer: String = String::new();
    let mut i: usize = 0;
    proof {
        assert(snapshot@.take(0) =~= Seq::<char>::empty());
        assert(in_style(plain_buffer@, parser_state.active_style) =~= Seq::<StyledChar>::empty());
        assert(before + styled_text(start, snapshot@.take(0)) =~= flattened(spans@) + in_style(
            plain_buffer@,
            parser_state.active_style,
        ));
    }
    while i < chars.len()
        invariant
            i <= chars@.len(),
            chars@ == snapshot@,
            compact(spans@),
            parser_state@ == read_all(start, snapshot@.take(i as int)),
            before + styled_text(start, snapshot@.take(i as int)) == flattened(spans@) + in_style(
                plain_buffer@,
                parser_state.active_style,
            ),
            plain_buffer@.len() > 0 ==> parser_state.mode == ReviewAnsiMode::Text,
        decreases chars@.len() - i,
    {
        let c: char = chars[i];
        let mode: ReviewAnsiMode = parser_state.mode;
        let ghost reader = parser_state@;
        let ghost seen = snapshot@.take(i as int);
        let ghost pending = plain_buffer@;
        let ghost shown = flattened(spans@);
        proof {
            assert(snapshot@.take(i + 1).drop_last() =~= seen);
            assert(snapshot@.take(i + 1).last() == c);
            assert(in_style(pending, reader.style).push((c, reader.style)) =~= in_style(
                pending.push(c),
                reader.style,
            ));
            assert((shown + in_style(pending, reader.style)).push((c, reader.style)) =~= shown
                + in_style(pending, reader.style).push((c, reader.style)));
            assert((before + styled_text(start, seen)).push((c, reader.style)) =~= before
                + styled_text(start, seen).push((c, reader.style)));
        }
        match mode {
            ReviewAnsiMode::Text => {
                if c == '\u{1b}' {
                    append_text_span(spans, plain_buffer, parser_state.active_style);
                    plain_buffer = String::new();
                } else {
                    plain_buffer.push(c);
                }
            },
            ReviewAnsiMode::Escape => {
                if c == '[' {
                    parser_state.csi_buffer = String::new();
                }
            },
            ReviewAnsiMode::Csi => {
                parser_state.csi_buffer.push(c);
                let n: u32 = c as u32;
                if 0x40 <= n && n <= 0x7e {
                    if c == 'm' {
                        let sequence: String = parser_state.csi_buffer.clone();
                        apply_sgr_sequence(&mut parser_state.active_style, sequence.as_str());
                    }
                    parser_state.csi_buffer = String::new();
                }
            },
            ReviewAnsiMode::EscapeString => {},
            ReviewAnsiMode::EscapeStringTerminator => {},
        }
        parser_state.mode = step_mode(mode, c);
        i = i + 1;
        proof {
            assert(parser_state@.csi =~= read_char(reader, c).csi);
            if plain_buffer@.len() == 0 {
                assert(in_style(plain_buffer@, parser_state.active_style) =~= Seq::<
                    StyledChar,
                >::empty());
                assert(flattened(spans@) + Seq::<StyledChar>::empty() =~= flattened(spans@));
                assert(in_style(Seq::<char>::empty(), reader.style) =~= Seq::<
                    StyledChar,
                >::empty());
                if mode != ReviewAnsiMode::Text {
                    assert(pending =~= Seq::<char>::empty());
                    assert(shown + Seq::<StyledChar>::empty() =~= shown);
                }
            }
        }
    }
    proof {
        assert(snapshot@.take(i as int) =~= snapshot@);
    }
    append_text_span(spans, plain_buffer, parser_state.active_style);
}

// ---------------------------------------------------------------------------
// Keeping the tail
// ---------------------------------------------------------------------------

/// How many leading characters have to go so that at most `limit` of `len` stay.
pub open spec fn excess(len: nat, limit: nat) -> nat {
    if len > limit {
        (len - limit) as nat
    } else {
        0
    }
}

/// The text of a list of spans.
pub fn spans_text(spans: &Vec<ReviewStyledSpan>) -> (text: String)
    ensures
        text@ == plain_text(flattened(spans@)),
{
    let mut text: String = String::new();
    let mut i: usize = 0;
    proof {
        assert(spans@.take(0) =~= Seq::<ReviewStyledSpan>::empty());
        assert(plain_text(flattened(spans@.take(0))) =~= Seq::<char>::empty());
    }
    while i < spans.len()
        invariant
            i <= spans@.len(),
            text@ == plain_text(flattened(spans@.take(i as int))),
        decreases spans@.len() - i,
    {
        proof {
            let span = spans@[i as int];
            assert(spans@.take(i + 1).drop_last() =~= spans@.take(i as int));
            assert(plain_text(flattened(spans@.take(i as int)) + in_style(span.text@, span.style))
                =~= plain_text(flattened(spans@.take(i as int))) + span.text@);
        }
        text.append(spans[i].text.as_str());
        i = i + 1;
    }
    proof {
        assert(spans@.take(i as int) =~= spans@);
    }
    text
}

/// Drops the leading characters of `spans` of which there are more than `limit`, and
/// says how many went.
pub fn keep_tail(spans: &mut Vec<ReviewStyledSpan>, limit: usize) -> (dropped: usize)
    requires
        compact(old(spans)@),
    ensures
        compact(final(spans)@),
        dropped == excess(flattened(old(spans)@).len(), limit as nat),
        flattened(final(spans)@) == flattened(old(spans)@).skip(dropped as int),
{
    let ghost before = spans@;
    let ghost all = flattened(spans@);
    let total: usize = spans_text(spans).as_str().unicode_len();
    if total <= limit {
        proof {
            assert(all.skip(0) =~= all);
        }
        return 0;
    }
    let dropped: usize = total - limit;
    let mut old_spans: Vec<ReviewStyledSpan> = Vec::new();
    core::mem::swap(&mut old_spans, spans);
    let mut left: usize = dropped;
    let mut i: usize = 0;
    proof {
        assert(before.take(0) =~= Seq::<ReviewStyledSpan>::empty());
        assert(flattened(spans@) =~= Seq::<StyledChar>::empty());
    }
    while i < old_spans.len()
        invariant
            i <= old_spans@.len(),
            old_spans@ == before,
            compact(before),
            compact(spans@),
            left <= dropped,
            left > 0 ==> spans@.len() == 0 && flattened(before.take(i as int)).len() + left
                == dropped,
            left == 0 ==> flattened(before.take(i as int)).len() >= dropped && flattened(spans@)
                == flattened(before.take(i as int)).skip(dropped as int),
            spans@.len() > 0 ==> i > 0 && spans@.last().style == before[i - 1].style,
        decreases old_spans@.len() - i,
    {
        let ghost done = flattened(before.take(i as int));
        let ghost span = before[i as int];
        let ghost next = flattened(before.take(i + 1));
        proof {
            assert(before.take(i + 1).drop_last() =~= before.take(i as int));
            assert(next == done + in_style(span.text@, span.style));
        }
        let visible: usize = old_spans[i].visible_chars;
        if visible <= left {
            left = left - visible;
            proof {
                if left == 0 {
                    assert(next.skip(dropped as int) =~= Seq::<StyledChar>::empty());
                    assert(flattened(spans@) =~= Seq::<StyledChar>::empty());
                }
            }
        } else {
            let ghost kept = spans@;
            let ghost skip = left as int;
            let text: String = old_spans[i].text.as_str().substring_char(left, visible).to_owned();
            let style: ReviewTextStyle = old_spans[i].style;
            spans.push(ReviewStyledSpan { text, visible_chars: visible - left, style });
            left = 0;
            proof {
                assert(spans@.drop_last() =~= kept);
                assert(in_style(text@, style) =~= in_style(span.text@, span.style).skip(skip));
                if skip > 0 {
                    assert(flattened(kept) =~= Seq::<StyledChar>::empty());
                }
                assert(flattened(spans@) =~= next.skip(dropped as int));
                assert forall|a: int, b: int|
                    0 <= a && b == a + 1 && b < spans@.len() implies (#[trigger] spans@[a]).style
                    != (#[trigger] spans@[b]).style by {
                    if b == kept.len() {
                        assert(before[i - 1].style != before[i as int].style);
                    } else {
                        assert(kept[a].style != kept[b].style);
                    }
                }
            }
        }
        i = i + 1;
    }
    proof {
        assert(before.take(i as int) =~= before);
    }
    dropped
}

} // verus!

//! What a review has put out so far, as it is shown.
use vstd::prelude::*;

use crate::app::ansi::{plain_style, ReviewTextStyle};
use crate::app::styled_text::{
    append_ansi_snapshot, append_text_span, compact, excess, flattened, fresh_reader, in_style,
    keep_tail, plain_text, read_all, spans_text, styled_text, AnsiReader, ReviewAnsiParserState,
    ReviewStyledSpan, StyledChar,
};
use crate::app::terminal::{screen_after, ReviewTerminal, Screen, TerminalSnapshot};
use crate::app::MAX_REVIEW_OUTPUT_CHARS;
use crate::time::Timestamp;

verus! {

// ---------------------------------------------------------------------------
// From the screen to text
// ---------------------------------------------------------------------------

/// The last row that is not empty.
pub open spec fn last_non_empty(rows: Seq<Seq<char>>) -> Option<nat>
    decreases rows.len(),
{
    if rows.len() == 0 {
        None
    } else if rows.last().len() > 0 {
        Some((rows.len() - 1) as nat)
    } else {
        last_non_empty(rows.drop_last())
    }
}

/// The last row that is shown: the last that holds text, or that of the cursor if it
/// stands below.
pub open spec fn last_row(screen: Screen) -> nat {
    match last_non_empty(screen.plain) {
        Some(row) => if row > screen.cursor_row {
            row
        } else {
            screen.cursor_row
        },
        None => screen.cursor_row,
    }
}

/// The number of rows that are shown.
pub open spec fn shown_rows(screen: Screen) -> nat {
    if last_row(screen) < screen.formatted.len() {
        last_row(screen) + 1
    } else {
        screen.formatted.len()
    }
}

/// What a reader remembers after the first `count` rows.
pub open spec fn reader_after(rows: Seq<Seq<char>>, count: nat) -> AnsiReader
    decreases count,
{
    if count == 0 {
        fresh_reader()
    } else {
        read_all(reader_after(rows, (count - 1) as nat), rows[count - 1])
    }
}

/// The line break behind a row that is neither the last one nor runs on into the next.
pub open spec fn line_break(screen: Screen, row: nat) -> Seq<StyledChar> {
    if row < last_row(screen) && !screen.wrapped[row as int] {
        in_style("\n"@, plain_style())
    } else {
        Seq::empty()
    }
}

/// The text of the first `count` rows.
pub open spec fn rows_text(screen: Screen, count: nat) -> Seq<StyledChar>
    decreases count,
{
    if count == 0 {
        Seq::empty()
    } else {
        let row = (count - 1) as nat;
        rows_text(screen, row) + styled_text(
            reader_after(screen.formatted, row),
            screen.formatted[row as int],
        ) + line_break(screen, row)
    }
}

/// The text that a screen shows.
pub open spec fn screen_text(screen: Screen) -> Seq<StyledChar> {
    rows_text(screen, shown_rows(screen))
}

/// The last row that is shown.
fn find_last_row(snapshot: &TerminalSnapshot) -> (row: usize)
    ensures
        row == last_row(snapshot@),
{
    let mut count: usize = snapshot.plain_rows.len();
    let ghost rows = snapshot@.plain;
    proof {
        assert(rows.take(count as int) =~= rows);
    }
    while count > 0
        invariant
            count <= snapshot.plain_rows@.len(),
            rows == snapshot@.plain,
            last_non_empty(rows) == last_non_empty(rows.take(count as int)),
        decreases count,
    {
        proof {
            assert(rows.take(count as int).drop_last() =~= rows.take(count - 1));
            assert(rows.take(count as int).last() == snapshot.plain_rows@[count - 1]@);
        }
        if !snapshot.plain_rows[count - 1].as_str().is_empty() {
            if count - 1 > snapshot.cursor_row {
                return count - 1;
            }
            return snapshot.cursor_row;
        }
        count = count - 1;
    }
    snapshot.cursor_row
}

/// The text that a screen shows, as spans.
pub fn render_screen(snapshot: &TerminalSnapshot) -> (spans: Vec<ReviewStyledSpan>)
    requires
        snapshot.well_formed(),
    ensures
        compact(spans@),
        flattened(spans@) == screen_text(snapshot@),
{
    let ghost screen = snapshot@;
    let last: usize = find_last_row(snapshot);
    let total: usize = snapshot.formatted_rows.len();
    let shown: usize = if last < total {
        last + 1
    } else {
        total
    };
    let mut spans: Vec<ReviewStyledSpan> = Vec::new();
    let mut parser_state: ReviewAnsiParserState = ReviewAnsiParserState::default();
    let mut row: usize = 0;
    while row < shown
        invariant
            snapshot.well_formed(),
            screen == snapshot@,
            row <= shown,
            shown <= snapshot.formatted_rows@.len(),
            shown == shown_rows(screen),
            last == last_row(screen),
            compact(spans@),
            parser_state@ == reader_after(screen.formatted, row as nat),
            flattened(spans@) == rows_text(screen, row as nat),
        decreases shown - row,
    {
        proof {
            assert(screen.formatted[row as int] == snapshot.formatted_rows@[row as int]@);
        }
        append_ansi_snapshot(
            &mut spans,
            &mut parser_state,
            snapshot.formatted_rows[row].as_str(),
        );
        let ghost so_far = flattened(spans@);
        if row < last && !snapshot.wrapped[row] {
            append_text_span(&mut spans, "\n".to_owned(), ReviewTextStyle::default());
        } else {
            proof {
                assert(so_far + Seq::<StyledChar>::empty() =~= so_far);
            }
        }
        row = row + 1;
    }
    spans
}

// ---------------------------------------------------------------------------
// The output of one review
// ---------------------------------------------------------------------------

/// How a review stands.
#[derive(Clone, Copy, Debug, PartialEq, Eq, Structural)]
pub enum ReviewStatus {
    Running,
    Completed,
    Cancelled,
    Failed,
}

/// A review of one thread, with the output that it has put out so far.
pub struct ReviewOutputState {
    pub thread_id: String,
    pub target: String,
    pub command_label: String,
    pub captured_at: Option<Timestamp>,
    pub terminal: ReviewTerminal,
    pub styled_spans: Vec<ReviewStyledSpan>,
    pub content: String,
    pub open: bool,
    pub status: ReviewStatus,
    pub dropped_chars: usize,
}

/// Whether two states differ at most in their output.
pub open spec fn same_but_output(a: ReviewOutputState, b: ReviewOutputState) -> bool {
    &&& a.thread_id == b.thread_id
    &&& a.target == b.target
    &&& a.command_label == b.command_label
    &&& a.captured_at == b.captured_at
    &&& a.open == b.open
    &&& a.status == b.status
}

impl ReviewOutputState {
    /// Whether the state shows the end of `text`, as much of it as is kept.
    pub open spec fn shows(self, text: Seq<StyledChar>) -> bool {
        &&& self.dropped_chars == excess(text.len(), MAX_REVIEW_OUTPUT_CHARS as nat)
        &&& flattened(self.styled_spans@) == text.skip(self.dropped_chars as int)
        &&& compact(self.styled_spans@)
        &&& self.content@ == plain_text(text.skip(self.dropped_chars as int))
    }
}

/// Shows a screen in place of what was shown before.
pub fn show_screen(review_output: &mut ReviewOutputState, snapshot: &TerminalSnapshot)
    requires
        snapshot.well_formed(),
    ensures
        final(review_output).shows(screen_text(snapshot@)),
        final(review_output).terminal == old(review_output).terminal,
        same_but_output(*final(review_output), *old(review_output)),
{
    let mut spans: Vec<ReviewStyledSpan> = render_screen(snapshot);
    let dropped_chars: usize = keep_tail(&mut spans, MAX_REVIEW_OUTPUT_CHARS);
    review_output.content = spans_text(&spans);
    review_output.styled_spans = spans;
    review_output.dropped_chars = dropped_chars;
}

/// Shows what the terminal shows.
pub fn rebuild_review_output_from_terminal(review_output: &mut ReviewOutputState)
    ensures
        final(review_output).shows(screen_text(screen_after(old(review_output).terminal@))),
        final(review_output).terminal == old(review_output).terminal,
        same_but_output(*final(review_output), *old(review_output)),
{
    let snapshot: TerminalSnapshot = review_output.terminal.snapshot();
    show_screen(review_output, &snapshot);
}

/// Plays more output into the terminal and shows what it then shows.
pub fn append_review_chunk(review_output: &mut ReviewOutputState, chunk: &[u8])
    ensures
        final(review_output).terminal@ == old(review_output).terminal@ + chunk@,
        final(review_output).shows(
            screen_text(screen_after(old(review_output).terminal@ + chunk@)),
        ),
        same_but_output(*final(review_output), *old(review_output)),
{
    review_output.terminal.process(chunk);
    rebuild_review_output_from_terminal(review_output);
}

/// The text that is shown, without its styles.
pub fn review_output_plain_text(review_output: &ReviewOutputState) -> (text: String)
    ensures
        text@ == plain_text(flattened(review_output.styled_spans@)),
{
    spans_text(&review_output.styled_spans)
}

} // verus!

//! The terminal that review output is played into.
use vstd::prelude::*;

use crate::text::views;
use vstd::utf8::{decode_utf8, valid_utf8};

verus! {

/// The terminal emulator of the `vt100` crate.
#[verifier::external_type_specification]
#[verifier::external_body]
pub struct ExTerminalParser(vt100::Parser);

/// The bytes that a terminal has been fed so far.
pub uninterp spec fn terminal_input(terminal: vt100::Parser) -> Seq<u8>;

/// The rows and columns that a terminal was made with.
pub uninterp spec fn terminal_size(terminal: vt100::Parser) -> (u16, u16);

/// The text of each row that a terminal of `rows` and `cols` shows after `input`, cut to
/// `width` columns from `start` on.
pub uninterp spec fn screen_rows(
    rows: u16,
    cols: u16,
    input: Seq<u8>,
    start: u16,
    width: u16,
) -> Seq<Seq<char>>;

/// The same rows as bytes that hold escape codes for their styles.
pub uninterp spec fn screen_rows_formatted(
    rows: u16,
    cols: u16,
    input: Seq<u8>,
    start: u16,
    width: u16,
) -> Seq<Seq<u8>>;

/// The row that the cursor of such a terminal stands in after `input`.
pub uninterp spec fn screen_cursor_row(rows: u16, cols: u16, input: Seq<u8>) -> u16;

/// Whether row `row` of such a terminal runs on into the next after `input`.
pub uninterp spec fn screen_row_wrapped(rows: u16, cols: u16, input: Seq<u8>, row: u16) -> bool;

/// Calls `vt100::Parser::new`: a terminal of that size that has been fed nothing. A
/// terminal without rows or columns is left out, as the emulator counts down from both.
/// What it keeps for scrolling back is never shown here, so nothing is said of it.
#[verifier::external_body]
pub(crate) fn new_terminal(rows: u16, cols: u16, scrollback: usize) -> (terminal: vt100::Parser)
    requires
        rows > 0,
        cols > 0,
    ensures
        terminal_input(terminal) == Seq::<u8>::empty(),
        terminal_size(terminal) == (rows, cols),
{
    vt100::Parser::new(rows, cols, scrollback)
}

/// Calls `vt100::Parser::process`, which feeds the bytes one by one and never resizes the
/// terminal. The emulator counts on room for the widest character in a row, for a second
/// row, and for a tab behind the last column, so only the one size in use is allowed.
#[verifier::external_body]
pub(crate) fn feed_terminal(terminal: &mut vt100::Parser, bytes: &[u8])
    requires
        terminal_size(*old(terminal)) == (REVIEW_TERMINAL_ROWS, REVIEW_TERMINAL_COLS),
    ensures
        terminal_input(*final(terminal)) == terminal_input(*old(terminal)) + bytes@,
        terminal_size(*final(terminal)) == terminal_size(*old(terminal)),
{
    terminal.process(bytes);
}

/// Calls `vt100::Screen::size`: the rows and columns that the terminal was made with.
#[verifier::external_body]
pub(crate) fn size_of_terminal(terminal: &vt100::Parser) -> (size: (u16, u16))
    ensures
        size == terminal_size(*terminal),
{
    terminal.screen().size()
}

/// Calls `vt100::Screen::rows`. Its result depends on the terminal's size, what it has
/// been fed and the columns asked for, and is named `screen_rows`; it has one text for each
/// row of the terminal.
#[verifier::external_body]
pub(crate) fn terminal_rows(terminal: &vt100::Parser, start: u16, width: u16) -> (rows: Vec<String>)
    ensures
        views(rows@) == screen_rows(
            terminal_size(*terminal).0,
            terminal_size(*terminal).1,
            terminal_input(*terminal),
            start,
            width,
        ),
        rows@.len() == terminal_size(*terminal).0,
{
    terminal.screen().rows(start, width).collect()
}

/// Calls `vt100::Screen::rows_formatted`. Its result depends on the same things and is named
/// `screen_rows_formatted`; it has one piece for each row of the terminal. The emulator
/// looks at the cell in column `start`, so that column has to be there.
#[verifier::external_body]
pub(crate) fn terminal_rows_formatted(terminal: &vt100::Parser, start: u16, width: u16) -> (rows:
    Vec<Vec<u8>>)
    requires
        start < terminal_size(*terminal).1,
    ensures
        rows@.map_values(|row: Vec<u8>| row@) == screen_rows_formatted(
            terminal_size(*terminal).0,
            terminal_size(*terminal).1,
            terminal_input(*terminal),
            start,
            width,
        ),
        rows@.len() == terminal_size(*terminal).0,
{
    terminal.screen().rows_formatted(start, width).collect()
}

/// Calls `vt100::Screen::cursor_position` for the row. Its result depends on the terminal's
/// size and what it has been fed, and is named `screen_cursor_row`.
#[verifier::external_body]
pub(crate) fn terminal_cursor_row(terminal: &vt100::Parser) -> (row: u16)
    ensures
        row == screen_cursor_row(
            terminal_size(*terminal).0,
            terminal_size(*terminal).1,
            terminal_input(*terminal),
        ),
{
    terminal.screen().cursor_position().0
}

/// Calls `vt100::Screen::row_wrapped`. Its result depends on the terminal's size, what it has
/// been fed and the row, and is named `screen_row_wrapped`.
#[verifier::external_body]
pub(crate) fn terminal_row_wrapped(terminal: &vt100::Parser, row: u16) -> (wrapped: bool)
    ensures
        wrapped == screen_row_wrapped(
            terminal_size(*terminal).0,
            terminal_size(*terminal).1,
            terminal_input(*terminal),
            row,
        ),
{
    terminal.screen().row_wrapped(row)
}

/// What `String::from_utf8_lossy` makes of bytes.
pub uninterp spec fn lossy_text(bytes: Seq<u8>) -> Seq<char>;

/// Calls `String::from_utf8_lossy`. Its result depends on the bytes alone and is named
/// `lossy_text`; bytes that are UTF-8 are claimed to come out as the text they encode.
#[verifier::external_body]
pub(crate) fn text_from_bytes(bytes: &[u8]) -> (text: String)
    ensures
        text@ == lossy_text(bytes@),
        valid_utf8(bytes@) ==> text@ == decode_utf8(bytes@),
{
    String::from_utf8_lossy(bytes).into_owned()
}

/// What `String::from_utf8_lossy` makes of each of some pieces.
pub open spec fn lossy_texts(pieces: Seq<Seq<u8>>) -> Seq<Seq<char>> {
    pieces.map_values(|piece: Seq<u8>| lossy_text(piece))
}

// ---------------------------------------------------------------------------
// The review terminal
// ---------------------------------------------------------------------------

/// The rows of the terminal that review output is played into.
pub const REVIEW_TERMINAL_ROWS: u16 = 1000;

/// The columns of the terminal that review output is played into.
pub const REVIEW_TERMINAL_COLS: u16 = 240;

/// What a terminal shows.
#[verifier::ext_equal]
pub struct Screen {
    /// The text of each row.
    pub plain: Seq<Seq<char>>,
    /// The text of each row with the escape codes for its styles.
    pub formatted: Seq<Seq<char>>,
    /// Whether each row runs on into the next.
    pub wrapped: Seq<bool>,
    /// The row in which the cursor stands.
    pub cursor_row: nat,
}

/// What the review terminal shows after `input`.
pub open spec fn screen_after(input: Seq<u8>) -> Screen {
    let rows = REVIEW_TERMINAL_ROWS;
    let cols = REVIEW_TERMINAL_COLS;
    Screen {
        plain: screen_rows(rows, cols, input, 0, cols),
        formatted: lossy_texts(screen_rows_formatted(rows, cols, input, 0, cols)),
        wrapped: Seq::new(
            rows as nat,
            |row: int| screen_row_wrapped(rows, cols, input, row as u16),
        ),
        cursor_row: screen_cursor_row(rows, cols, input) as nat,
    }
}

/// A copy of what a terminal shows.
#[derive(Clone, Debug, PartialEq, Eq)]
pub struct TerminalSnapshot {
    pub plain_rows: Vec<String>,
    pub formatted_rows: Vec<String>,
    pub wrapped: Vec<bool>,
    pub cursor_row: usize,
}

impl View for TerminalSnapshot {
    type V = Screen;

    open spec fn view(&self) -> Screen {
        Screen {
            plain: views(self.plain_rows@),
            formatted: views(self.formatted_rows@),
            wrapped: self.wrapped@,
            cursor_row: self.cursor_row as nat,
        }
    }
}

impl TerminalSnapshot {
    /// Whether the copy has the same number of rows throughout.
    pub open spec fn well_formed(self) -> bool {
        &&& self.plain_rows@.len() == self.formatted_rows@.len()
        &&& self.plain_rows@.len() == self.wrapped@.len()
    }
}

/// Copies what `terminal` shows.
fn snapshot_of(terminal: &vt100::Parser) -> (snapshot: TerminalSnapshot)
    requires
        terminal_size(*terminal) == (REVIEW_TERMINAL_ROWS, REVIEW_TERMINAL_COLS),
    ensures
        snapshot.well_formed(),
        snapshot@ == screen_after(terminal_input(*terminal)),
{
    let (rows, cols) = size_of_terminal(terminal);
    let ghost input = terminal_input(*terminal);
    let plain_rows: Vec<String> = terminal_rows(terminal, 0, cols);
    let pieces: Vec<Vec<u8>> = terminal_rows_formatted(terminal, 0, cols);
    let cursor_row: usize = terminal_cursor_row(terminal) as usize;
    let mut formatted_rows: Vec<String> = Vec::new();
    let mut wrapped: Vec<bool> = Vec::new();
    let mut row: u16 = 0;
    while row < rows
        invariant
            row <= rows,
            terminal_size(*terminal) == (rows, cols),
            terminal_input(*terminal) == input,
            pieces@.len() == rows,
            formatted_rows@.len() == row,
            wrapped@.len() == row,
            forall|i: int|
                0 <= i < row ==> (#[trigger] formatted_rows@[i])@ == lossy_text(pieces@[i]@),
            forall|i: int|
                0 <= i < row ==> #[trigger] wrapped@[i] == screen_row_wrapped(
                    rows,
                    cols,
                    input,
                    i as u16,
                ),
        decreases rows - row,
    {
        formatted_rows.push(text_from_bytes(pieces[row as usize].as_slice()));
        wrapped.push(terminal_row_wrapped(terminal, row));
        row = row + 1;
    }
    let snapshot: TerminalSnapshot = TerminalSnapshot {
        plain_rows,
        formatted_rows,
        wrapped,
        cursor_row,
    };
    proof {
        let wanted = screen_after(input);
        assert(snapshot@.formatted =~= wanted.formatted) by {
            let named = screen_rows_formatted(rows, cols, input, 0, cols);
            assert(pieces@.map_values(|piece: Vec<u8>| piece@) == named);
            assert forall|i: int| 0 <= i < rows implies snapshot@.formatted[i]
                == wanted.formatted[i] by {
                assert(named[i] == pieces@[i]@);
            }
        }
        assert(snapshot@.wrapped =~= wanted.wrapped);
        assert(snapshot@ =~= wanted);
    }
    snapshot
}

/// The terminal that one review's output is played into. It is set up when the first
/// output arrives.
pub struct ReviewTerminal {
    parser: Option<vt100::Parser>,
}

impl View for ReviewTerminal {
    type V = Seq<u8>;

    /// The output that has been played so far.
    closed spec fn view(&self) -> Seq<u8> {
        match self.parser {
            Some(parser) => terminal_input(parser),
            None => Seq::empty(),
        }
    }
}

impl ReviewTerminal {
    #[verifier::type_invariant]
    spec fn well_formed(self) -> bool {
        match self.parser {
            Some(parser) => terminal_size(parser) == (REVIEW_TERMINAL_ROWS, REVIEW_TERMINAL_COLS),
            None => true,
        }
    }

    /// A terminal that has seen nothing.
    pub fn new() -> (terminal: Self)
        ensures
            terminal@ == Seq::<u8>::empty(),
    {
        ReviewTerminal { parser: None }
    }

    /// Plays more output.
    pub fn process(&mut self, bytes: &[u8])
        ensures
            final(self)@ == old(self)@ + bytes@,
    {
        proof {
            use_type_invariant(&*self);
        }
        let mut held: Option<vt100::Parser> = None;
        core::mem::swap(&mut held, &mut self.parser);
        let mut parser: vt100::Parser = match held {
            Some(parser) => parser,
            None => new_terminal(REVIEW_TERMINAL_ROWS, REVIEW_TERMINAL_COLS, 0),
        };
        feed_terminal(&mut parser, bytes);
        self.parser = Some(parser);
    }

    /// Copies what the terminal shows.
    pub fn snapshot(&self) -> (snapshot: TerminalSnapshot)
        ensures
            snapshot.well_formed(),
            snapshot@ == screen_after(self@),
    {
        proof {
            use_type_invariant(self);
        }
        match &self.parser {
            Some(parser) => snapshot_of(parser),
            None => {
                let parser: vt100::Parser = new_terminal(
                    REVIEW_TERMINAL_ROWS,
                    REVIEW_TERMINAL_COLS,
                    0,
                );
                snapshot_of(&parser)
            },
        }
    }
}

} // verus!

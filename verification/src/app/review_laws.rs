//! What holds of reviews and their output as a whole.
use vstd::prelude::*;

use crate::app::review_job::{
    captured, chunk_messages, concluded, drained, mirrors_after, next_cancel, next_phase, run_note,
    CancelEvent, CancelView, DrainStep, FinishWord, MessageView, MirrorEvent, OutcomeView,
    PhaseView, Received, ReviewJobMessage, RunEvent, REVIEW_CANCELED,
};
use crate::app::ansi::plain_style;
use crate::app::review_output::{
    last_non_empty, last_row, line_break, reader_after, rows_text, screen_text, shown_rows,
    ReviewOutputState,
};
use crate::app::styled_laws::{law_stripped_text_has_no_escape, law_text_is_read_as_it_is};
use crate::app::styled_text::{
    flattened, fresh_reader, in_style, plain_text, stripped, StyledChar,
};
use crate::app::terminal::{
    lossy_text, screen_after, screen_cursor_row, screen_row_wrapped, screen_rows,
    screen_rows_formatted, Screen,
};
use crate::app::MAX_REVIEW_OUTPUT_CHARS;
use crate::text::{join, trim};
use crate::time::Timestamp;
use vstd::utf8::encode_utf8;

verus! {

// ---------------------------------------------------------------------------
// Output
// ---------------------------------------------------------------------------

/// A state that shows all of its output shows the end of it, and never more characters
/// than are kept; together with what was dropped they are all characters of the output.
pub proof fn law_output_is_the_tail(state: ReviewOutputState)
    requires
        state.shows(screen_text(screen_after(state.terminal@))),
    ensures
        state.content@.len() <= MAX_REVIEW_OUTPUT_CHARS,
        state.dropped_chars + state.content@.len() == screen_text(
            screen_after(state.terminal@),
        ).len(),
        state.dropped_chars > 0 ==> state.content@.len() == MAX_REVIEW_OUTPUT_CHARS,
        state.content@ == plain_text(screen_text(screen_after(state.terminal@))).skip(
            state.dropped_chars as int,
        ),
        state.content@ == plain_text(flattened(state.styled_spans@)),
{
    let text = screen_text(screen_after(state.terminal@));
    assert(plain_text(text.skip(state.dropped_chars as int)) =~= plain_text(text).skip(
        state.dropped_chars as int,
    ));
}

/// How output is cut into chunks makes no difference: two states that have been given
/// the same bytes, and show them, show the same.
pub proof fn law_chunks_make_no_difference(
    before: Seq<u8>,
    first: Seq<u8>,
    second: Seq<u8>,
    in_two: ReviewOutputState,
    at_once: ReviewOutputState,
)
    requires
        in_two.terminal@ == before + first + second,
        in_two.shows(screen_text(screen_after(in_two.terminal@))),
        at_once.terminal@ == before + (first + second),
        at_once.shows(screen_text(screen_after(at_once.terminal@))),
    ensures
        in_two.content@ == at_once.content@,
        in_two.dropped_chars == at_once.dropped_chars,
        flattened(in_two.styled_spans@) == flattened(at_once.styled_spans@),
{
    assert(before + first + second =~= before + (first + second));
}

/// What a reader has captured after some chunks.
pub open spec fn captured_all(chunks: Seq<Seq<u8>>) -> Seq<char>
    decreases chunks.len(),
{
    if chunks.len() == 0 {
        Seq::empty()
    } else {
        captured(captured_all(chunks.drop_last()), chunks.last())
    }
}

/// What is captured of a review holds no escape character.
pub proof fn law_capture_has_no_escape(chunks: Seq<Seq<u8>>)
    ensures
        !captured_all(chunks).contains('\u{1b}'),
    decreases chunks.len(),
{
    if chunks.len() > 0 {
        law_capture_has_no_escape(chunks.drop_last());
        law_stripped_text_has_no_escape(lossy_text(chunks.last()));
        let before = captured_all(chunks.drop_last());
        let more = stripped(lossy_text(chunks.last()));
        let all = captured_all(chunks);
        if all.contains('\u{1b}') {
            let i = all.index_of('\u{1b}');
            if i < before.len() {
                assert(before[i] == '\u{1b}');
            } else {
                assert(more[i - before.len()] == '\u{1b}');
            }
        }
    }
}

// ---------------------------------------------------------------------------
// Runs
// ---------------------------------------------------------------------------

/// How many things a run has still to do at most.
pub open spec fn steps_left(phase: PhaseView) -> nat {
    match phase {
        PhaseView::Start => 10,
        PhaseView::Connect => 9,
        PhaseView::Greet => 8,
        PhaseView::Register => 7,
        PhaseView::Kill => 6,
        PhaseView::Inspect { .. } => 5,
        PhaseView::Read => 4,
        PhaseView::Wait { .. } => 3,
        PhaseView::Join { .. } => 2,
        PhaseView::Finish { .. } => 1,
        PhaseView::Done { .. } => 0,
    }
}

/// Every event either leaves a run where it is, without a message, or brings it nearer to
/// its end; a run that is done stays so.
pub proof fn law_runs_end(review_label: Seq<char>, phase: PhaseView, event: RunEvent)
    ensures
        next_phase(phase, event) == phase || steps_left(next_phase(phase, event)) < steps_left(
            phase,
        ),
        next_phase(phase, event) == phase ==> run_note(review_label, phase, event) is None,
        phase is Done ==> next_phase(phase, event) == phase,
{
}

/// A process that ended well counts as completed, even if it was to be stopped; one that
/// did not counts as cancelled if it was to be stopped, and as failed only if it was not.
pub proof fn law_stopped_runs_do_not_fail(
    cancelled: bool,
    success: bool,
    status: Seq<char>,
    stdout: Seq<char>,
    stderr: Seq<char>,
)
    ensures
        concluded(cancelled, success, status, stdout, stderr) matches PhaseView::Finish {
            outcome,
            ..
        } && {
            &&& outcome is Completed <==> success
            &&& outcome is Cancelled <==> cancelled && !success
            &&& outcome is Failed <==> !cancelled && !success
            &&& outcome matches OutcomeView::Cancelled(message) ==> message == REVIEW_CANCELED@
        },
{
}

/// Of the messages taken from the queue only the last can say that the review ended, and
/// it does so exactly where the taking stops for that reason.
pub proof fn law_last_message_is_final(
    taken: Seq<MessageView>,
    received: Received,
    thread_id: Seq<char>,
    now: Timestamp,
)
    requires
        forall|i: int| 0 <= i < taken.len() ==> !(#[trigger] taken[i] is Finished),
    ensures
        ({
            let (after, step) = drained(taken, received, thread_id, now);
            &&& taken.is_prefix_of(after)
            &&& forall|i: int| 0 <= i < after.len() - 1 ==> !(#[trigger] after[i] is Finished)
            &&& step == DrainStep::Stop { finished: true } <==> after.len() > 0
                && after.last() is Finished
        }),
{
    let (after, step) = drained(taken, received, thread_id, now);
    assert(taken.is_prefix_of(after)) by {
        assert(after.take(taken.len() as int) =~= taken);
    }
    if taken.len() > 0 {
        assert(!(taken[taken.len() - 1] is Finished));
    }
}

/// A review that cannot be stopped because it has ended is not called stopped, and an
/// answer, once given, stands.
pub proof fn law_ended_reviews_are_not_stopped(phase: CancelView, event: CancelEvent)
    ensures
        phase is Answer || phase is Refused ==> next_cancel(phase, event) == phase,
        !(phase is Answer) && event == (CancelEvent::Looked { exited: true }) && (phase is Look
            || phase is Inspect) ==> next_cancel(phase, event) == CancelView::Answer(false),
{
}

// ---------------------------------------------------------------------------
// The course of a run
// ---------------------------------------------------------------------------

/// Whether an event says what came of the last line in the shell.
pub open spec fn ends_greeting(event: RunEvent) -> bool {
    event is Written || event is WriteFailed || event is NotMirrored
}

/// The exit of the process alone decides how a review ended, whatever it put out and
/// whatever it put into its diagnostics: it is completed exactly where the process
/// succeeded, cancelled exactly where it did not and was to be stopped, and failed
/// otherwise. What is said of a failure are the diagnostics, or else the exit.
pub proof fn law_exit_decides_outcome(
    stdout: String,
    success: bool,
    status: String,
    cancelled: bool,
    stderr: String,
    last: RunEvent,
)
    requires
        ends_greeting(last),
    ensures
        ({
            let read = next_phase(PhaseView::Read, RunEvent::OutputRead(stdout));
            let waited = next_phase(read, RunEvent::Waited { success, status });
            let joined = next_phase(waited, RunEvent::Joined { cancelled, stderr });
            let done = next_phase(joined, last);
            &&& !(read is Done) && !(waited is Done) && !(joined is Done)
            &&& done matches PhaseView::Done { outcome } && {
                &&& success ==> outcome == OutcomeView::Completed
                &&& !success && cancelled ==> outcome == OutcomeView::Cancelled(
                    "Review canceled by user."@,
                )
                &&& !success && !cancelled ==> (outcome matches OutcomeView::Failed(message) && {
                    &&& trim(stderr@).len() > 0 && trim(stdout@).len() > 0 ==> message
                        == "opencode review failed after partial output. stderr:\n"@ + trim(
                        stderr@,
                    )
                    &&& trim(stderr@).len() > 0 && trim(stdout@).len() == 0 ==> message
                        == "opencode review failed:\n"@ + trim(stderr@)
                    &&& trim(stderr@).len() == 0 && trim(stdout@).len() > 0 ==> message
                        == "opencode review failed after partial output: "@ + status@
                    &&& trim(stderr@).len() == 0 && trim(stdout@).len() == 0 ==> message
                        == "opencode review exited unsuccessfully: "@ + status@
                })
            }
        }),
{
}

/// Diagnostics that could not be read fail a review only if it was not to be stopped; if it
/// was, the exit of the process decides.
pub proof fn law_lost_diagnostics(
    stdout: String,
    success: bool,
    status: String,
    error: String,
    last: RunEvent,
)
    requires
        ends_greeting(last),
    ensures
        ({
            let read = next_phase(PhaseView::Read, RunEvent::OutputRead(stdout));
            let waited = next_phase(read, RunEvent::Waited { success, status });
            let stopped = if success {
                OutcomeView::Completed
            } else {
                OutcomeView::Cancelled("Review canceled by user."@)
            };
            &&& next_phase(
                next_phase(waited, RunEvent::DiagnosticsFailed { cancelled: true, error }),
                last,
            ) == (PhaseView::Done { outcome: stopped })
            &&& next_phase(next_phase(waited, RunEvent::JoinFailed { cancelled: true }), last) == (
            PhaseView::Done { outcome: stopped })
            &&& next_phase(waited, RunEvent::DiagnosticsFailed { cancelled: false, error }) == (
            PhaseView::Done { outcome: OutcomeView::Failed(error@) })
            &&& next_phase(waited, RunEvent::JoinFailed { cancelled: false }) == (PhaseView::Done {
                outcome: OutcomeView::Failed("Failed to join opencode diagnostics reader."@),
            })
        }),
{
}

/// A process that was started is read, whether or not a shell shows its output, unless it
/// was to be stopped before; and it is read even so where it was stopped or had ended.
pub proof fn law_started_process_is_read(
    no_shell: String,
    no_write: String,
    kill_error: String,
)
    ensures
        ({
            let started = next_phase(PhaseView::Start, RunEvent::Started);
            let greeting = next_phase(started, RunEvent::Connected);
            let shown = next_phase(greeting, RunEvent::Written);
            let running = next_phase(shown, RunEvent::Registered { cancelled: false });
            let stopping = next_phase(shown, RunEvent::Registered { cancelled: true });
            let kept = next_phase(
                stopping,
                RunEvent::KillFailed { invalid_input: false, error: kill_error },
            );
            &&& next_phase(started, RunEvent::NotConnected(no_shell)) == shown
            &&& next_phase(greeting, RunEvent::WriteFailed(no_write)) == shown
            &&& running == PhaseView::Read
            &&& stopping != PhaseView::Read
            &&& next_phase(stopping, RunEvent::Killed) == PhaseView::Read
            &&& next_phase(
                stopping,
                RunEvent::KillFailed { invalid_input: true, error: kill_error },
            ) == PhaseView::Read
            &&& next_phase(kept, RunEvent::Inspected { exited: true }) == PhaseView::Read
            &&& next_phase(kept, RunEvent::Inspected { exited: false }) == (PhaseView::Done {
                outcome: OutcomeView::Failed("Failed to stop review: "@ + kill_error@),
            })
        }),
{
}

/// What keeps a run from going on ends it as failed, and the reason is told.
pub proof fn law_failures_are_told(error: String, kill_error: String, stdout: String)
    ensures
        ({
            let told = |text: Seq<char>| PhaseView::Done { outcome: OutcomeView::Failed(text) };
            let kill_error = kill_error@;
            let stdout = stdout@;
            &&& next_phase(PhaseView::Start, RunEvent::StartFailed(error)) == told(
                "Failed to start review: "@ + error@,
            )
            &&& next_phase(PhaseView::Start, RunEvent::OutputMissing) == told(
                "Failed to capture stdout."@,
            )
            &&& next_phase(PhaseView::Start, RunEvent::DiagnosticsMissing) == told(
                "Failed to capture stderr."@,
            )
            &&& next_phase(PhaseView::Register, RunEvent::LockPoisoned) == told(
                "Review process lock poisoned unexpectedly."@,
            )
            &&& next_phase(PhaseView::Inspect { kill_error }, RunEvent::InspectFailed(error))
                == told("Failed to inspect review process after early stop failure: "@ + error@)
            &&& next_phase(PhaseView::Read, RunEvent::OutputFailed(error)) == told(error@)
            &&& next_phase(PhaseView::Wait { stdout }, RunEvent::LockPoisoned) == told(
                "Review process lock poisoned unexpectedly."@,
            )
            &&& next_phase(PhaseView::Wait { stdout }, RunEvent::HandleMissing) == told(
                "Review process handle missing while waiting."@,
            )
            &&& next_phase(
                PhaseView::Wait { stdout },
                RunEvent::WaitFailed { cancelled: false, error },
            ) == told("Failed while waiting for review: "@ + error@)
            &&& next_phase(
                PhaseView::Wait { stdout },
                RunEvent::WaitFailed { cancelled: true, error },
            ) == (PhaseView::Done {
                outcome: OutcomeView::Cancelled("Review canceled by user."@),
            })
        }),
{
}

/// The last line in the shell says how the review ended, and is put into the window too; so
/// is the first line. Where the shell cannot be used, the window says so and why.
pub proof fn law_window_follows_shell(
    label: Seq<char>,
    word: FinishWord,
    outcome: OutcomeView,
    error: String,
)
    ensures
        run_note(label, PhaseView::Greet, RunEvent::Written) == Some(
            "\n[reminder] review stream started for "@ + label + "\n"@,
        ),
        run_note(label, PhaseView::Finish { word, outcome }, RunEvent::Written) == Some(
            "\n[reminder] review stream "@ + match word {
                FinishWord::Completed => "completed"@,
                FinishWord::Cancelled => "cancelled"@,
                FinishWord::Failed => "failed"@,
            } + " for "@ + label + "\n"@,
        ),
        run_note(label, PhaseView::Connect, RunEvent::NotConnected(error)) == Some(
            "[Shell streaming unavailable. This window still renders common ANSI styles inline.]"@
                + " "@ + error@ + "\n\n"@,
        ),
        run_note(label, PhaseView::Greet, RunEvent::WriteFailed(error)) == run_note(
            label,
            PhaseView::Connect,
            RunEvent::NotConnected(error),
        ),
        run_note(label, PhaseView::Finish { word, outcome }, RunEvent::WriteFailed(error)) == Some(
            "\n\n[Shell streaming stopped while finishing: "@ + error@
                + ". The window kept the remaining review output inline.]\n\n"@,
        ),
        run_note(label, PhaseView::Finish { word, outcome }, RunEvent::NotMirrored) is None,
        mirrors_after(PhaseView::Greet, RunEvent::Written, false),
        !mirrors_after(PhaseView::Greet, RunEvent::WriteFailed(error), false),
        !mirrors_after(PhaseView::Connect, RunEvent::NotConnected(error), false),
        !mirrors_after(PhaseView::Finish { word, outcome }, RunEvent::WriteFailed(error), true),
{
}

/// The word in the last line of the shell is that of the outcome.
pub proof fn law_finish_word_is_the_outcome(
    stdout: Seq<char>,
    success: bool,
    status: Seq<char>,
    cancelled: bool,
    stderr: String,
)
    ensures
        next_phase(
            PhaseView::Join { stdout, success, status },
            RunEvent::Joined { cancelled, stderr },
        ) matches PhaseView::Finish { word, outcome } && {
            &&& word == FinishWord::Completed <==> outcome is Completed
            &&& word == FinishWord::Cancelled <==> outcome is Cancelled
            &&& word == FinishWord::Failed <==> outcome is Failed
        },
{
}

/// A chunk of output is reported as it is, to its own thread and last; only trouble with the
/// shell puts a note before it. The capture grows by its text without escape codes.
pub proof fn law_chunks_are_reported(
    thread_id: Seq<char>,
    chunk: Seq<u8>,
    capture: Seq<char>,
    error: String,
)
    ensures
        chunk_messages(thread_id, chunk, MirrorEvent::Written) == seq![
            MessageView::Append { thread_id, bytes: chunk },
        ],
        chunk_messages(thread_id, chunk, MirrorEvent::NotMirrored) == seq![
            MessageView::Append { thread_id, bytes: chunk },
        ],
        chunk_messages(thread_id, chunk, MirrorEvent::LockLost) == seq![
            MessageView::Append {
                thread_id,
                bytes: encode_utf8(
                    "\n\n[Shell streaming stopped because the shell output lock became unavailable.]\n\n"@,
                ),
            },
            MessageView::Append { thread_id, bytes: chunk },
        ],
        chunk_messages(thread_id, chunk, MirrorEvent::WriteFailed(error)) == seq![
            MessageView::Append {
                thread_id,
                bytes: encode_utf8(
                    "\n\n[Shell streaming stopped: "@ + error@
                        + ". The window will keep rendering the review inline.]\n\n"@,
                ),
            },
            MessageView::Append { thread_id, bytes: chunk },
        ],
        captured(capture, chunk) == capture + stripped(lossy_text(chunk)),
{
}

/// What is taken from the queue is what is in it, in its order; a worker that is gone is
/// reported as a failure of its review.
pub proof fn law_queue_is_drained(
    taken: Seq<MessageView>,
    message: ReviewJobMessage,
    thread_id: Seq<char>,
    now: Timestamp,
)
    ensures
        drained(taken, Received::Message(message), thread_id, now).0 == taken.push(message@),
        drained(taken, Received::Message(message), thread_id, now).1 == if message@ is Append {
            DrainStep::Again
        } else {
            DrainStep::Stop { finished: true }
        },
        drained(taken, Received::Empty, thread_id, now) == (
            taken,
            DrainStep::Stop { finished: false },
        ),
        drained(taken, Received::Disconnected, thread_id, now) == (
            taken.push(
                MessageView::Finished {
                    thread_id,
                    captured_at: now,
                    outcome: OutcomeView::Failed("Review worker disconnected unexpectedly."@),
                },
            ),
            DrainStep::Stop { finished: true },
        ),
{
}

/// A review is called stopped exactly where its process was stopped or was not there; where
/// it had ended before, it is not; and where neither could be brought about, the reason is
/// told.
pub proof fn law_stopping_a_review(error: String, invalid_input: bool)
    ensures
        ({
            let look = CancelView::Look;
            let kill = next_cancel(look, CancelEvent::Looked { exited: false });
            let kept = next_cancel(kill, CancelEvent::KillFailed { invalid_input, error });
            &&& next_cancel(look, CancelEvent::NoProcess) == CancelView::Answer(true)
            &&& next_cancel(look, CancelEvent::Looked { exited: true }) == CancelView::Answer(false)
            &&& next_cancel(look, CancelEvent::LockPoisoned) == CancelView::Refused(
                "Review process lock poisoned unexpectedly."@,
            )
            &&& next_cancel(look, CancelEvent::LookFailed(error)) == CancelView::Refused(
                "Failed to inspect review process state: "@ + error@,
            )
            &&& next_cancel(kill, CancelEvent::Killed) == CancelView::Answer(true)
            &&& next_cancel(kept, CancelEvent::Looked { exited: true }) == CancelView::Answer(false)
            &&& next_cancel(kept, CancelEvent::Looked { exited: false }) == if invalid_input {
                CancelView::Answer(false)
            } else {
                CancelView::Refused("Failed to stop review: "@ + error@)
            }
            &&& next_cancel(kept, CancelEvent::LookFailed(error)) == CancelView::Refused(
                "Failed to inspect review process after stop failure: "@ + error@,
            )
        }),
{
}

// ---------------------------------------------------------------------------
// What is shown
// ---------------------------------------------------------------------------

/// At most the last 20000 characters of what the terminal shows are kept, and those that
/// are not are counted.
pub proof fn law_last_characters_are_kept(state: ReviewOutputState, text: Seq<StyledChar>)
    requires
        state.shows(text),
    ensures
        text.len() <= 20000 ==> state.dropped_chars == 0 && state.content@ == plain_text(text),
        text.len() > 20000 ==> state.dropped_chars == text.len() - 20000 && state.content@
            == plain_text(text).skip(text.len() - 20000),
        flattened(state.styled_spans@) == text.skip(state.dropped_chars as int),
{
    assert(text.skip(0) =~= text);
    assert(plain_text(text.skip(state.dropped_chars as int)) =~= plain_text(text).skip(
        state.dropped_chars as int,
    ));
}

proof fn lemma_last_non_empty(rows: Seq<Seq<char>>)
    ensures
        last_non_empty(rows) matches Some(row) ==> row < rows.len() && rows[row as int].len() > 0,
        forall|i: int|
            0 <= i < rows.len() && (#[trigger] rows[i]).len() > 0 ==> last_non_empty(rows) is Some
                && i <= last_non_empty(rows)->0,
    decreases rows.len(),
{
    if rows.len() > 0 && rows.last().len() == 0 {
        lemma_last_non_empty(rows.drop_last());
        assert forall|i: int| 0 <= i < rows.len() && (#[trigger] rows[i]).len() > 0 implies
            last_non_empty(rows) is Some && i <= last_non_empty(rows)->0 by {
            assert(rows.drop_last()[i] == rows[i]);
        }
    }
}

/// All rows down to the last one that holds text are shown, and those down to the cursor,
/// and no others.
pub proof fn law_last_row_is_shown(screen: Screen)
    ensures
        last_row(screen) >= screen.cursor_row,
        forall|i: int|
            0 <= i < screen.plain.len() && (#[trigger] screen.plain[i]).len() > 0 ==> i <= last_row(
                screen,
            ),
        last_row(screen) == screen.cursor_row || (last_row(screen) < screen.plain.len()
            && screen.plain[last_row(screen) as int].len() > 0),
        last_row(screen) < screen.formatted.len() ==> shown_rows(screen) == last_row(screen) + 1,
        last_row(screen) >= screen.formatted.len() ==> shown_rows(screen)
            == screen.formatted.len(),
{
    lemma_last_non_empty(screen.plain);
}

proof fn lemma_rows_plain(screen: Screen, count: nat)
    requires
        count <= screen.formatted.len(),
        forall|i: int|
            0 <= i < screen.formatted.len() ==> !(#[trigger] screen.formatted[i]).contains(
                '\u{1b}',
            ),
    ensures
        reader_after(screen.formatted, count) == fresh_reader(),
        plain_text(rows_text(screen, count)) == join(
            Seq::new(count, |i: int| row_with_break(screen, i)),
            Seq::empty(),
        ),
        forall|i: int|
            0 <= i < rows_text(screen, count).len() ==> (#[trigger] rows_text(screen, count)[i]).1
                == plain_style(),
    decreases count,
{
    let pieces = Seq::new(count, |i: int| row_with_break(screen, i));
    if count == 0 {
        assert(plain_text(rows_text(screen, count)) =~= Seq::<char>::empty());
    } else {
        let row = (count - 1) as nat;
        lemma_rows_plain(screen, row);
        let text = screen.formatted[row as int];
        law_text_is_read_as_it_is(fresh_reader(), text);
        let before = rows_text(screen, row);
        let head = Seq::new(row, |i: int| row_with_break(screen, i));
        assert(pieces.drop_last() =~= head);
        assert(plain_text(rows_text(screen, count)) =~= plain_text(before) + row_with_break(
            screen,
            row as int,
        )) by {
            reveal_strlit("\n");
            assert(plain_text(in_style(text, plain_style())) =~= text);
            assert(plain_text(line_break(screen, row)) =~= if row < last_row(screen)
                && !screen.wrapped[row as int] {
                seq!['\n']
            } else {
                Seq::empty()
            });
        }
        if count == 1 {
            assert(plain_text(before) =~= Seq::<char>::empty());
            assert(Seq::<char>::empty() + pieces[0] =~= pieces[0]);
        } else {
            assert(join(head, Seq::empty()) + Seq::<char>::empty() + pieces.last() =~= join(
                head,
                Seq::empty(),
            ) + pieces.last());
        }
    }
}

/// The text of a row, with a newline behind it unless it is the last one or runs on into the
/// next.
pub open spec fn row_with_break(screen: Screen, row: int) -> Seq<char> {
    screen.formatted[row] + if row < last_row(screen) && !screen.wrapped[row] {
        seq!['\n']
    } else {
        Seq::empty()
    }
}

/// Rows without escape codes are shown one after the other, in plain style, each with a
/// newline behind it unless it is the last one or runs on into the next.
pub proof fn law_plain_rows_are_shown(screen: Screen)
    requires
        forall|i: int|
            0 <= i < screen.formatted.len() ==> !(#[trigger] screen.formatted[i]).contains(
                '\u{1b}',
            ),
    ensures
        plain_text(screen_text(screen)) == join(
            Seq::new(shown_rows(screen), |i: int| row_with_break(screen, i)),
            Seq::empty(),
        ),
        forall|i: int|
            0 <= i < screen_text(screen).len() ==> (#[trigger] screen_text(screen)[i]).1
                == plain_style(),
{
    lemma_rows_plain(screen, shown_rows(screen));
}

/// The terminal has 1000 rows of 240 columns, all of which are read, from the first column to
/// the last.
pub proof fn law_whole_screen_is_read(input: Seq<u8>, row: int)
    ensures
        screen_after(input).plain == screen_rows(1000, 240, input, 0, 240),
        screen_after(input).formatted.len() == screen_rows_formatted(
            1000,
            240,
            input,
            0,
            240,
        ).len(),
        0 <= row < screen_rows_formatted(1000, 240, input, 0, 240).len() ==> screen_after(
            input,
        ).formatted[row] == lossy_text(screen_rows_formatted(1000, 240, input, 0, 240)[row]),
        screen_after(input).wrapped.len() == 1000,
        0 <= row < 1000 ==> screen_after(input).wrapped[row] == screen_row_wrapped(
            1000,
            240,
            input,
            row as u16,
        ),
        screen_after(input).cursor_row == screen_cursor_row(1000, 240, input),
{
}

} // verus!

//! The course of one review: a process that is started, read, perhaps stopped, and waited
//! for, and the messages that it gives rise to.
use vstd::prelude::*;

use crate::app::review::{failure_output, format_review_failure_output};
use crate::app::styled_text::{strip_ansi_escape_codes, stripped};
use crate::app::terminal::{lossy_text, text_from_bytes};
use crate::time::Timestamp;
use vstd::string::StrSliceExecFns;
use vstd::string::StringExecFns;
use vstd::utf8::encode_utf8;

verus! {

/// The note in the window of a review that cannot be shown in a shell too.
pub const SHELL_STREAM_DISABLED_NOTE: &'static str =
    "[Shell streaming unavailable. This window still renders common ANSI styles inline.]";

/// Why the shell could not be used.
pub const NO_TERMINAL: &'static str = "No active terminal was available for shell streaming.";

/// What is said of a review that was stopped.
pub const REVIEW_CANCELED: &'static str = "Review canceled by user.";

/// What is said where the process of a review cannot be reached.
pub const PROCESS_LOCK_POISONED: &'static str = "Review process lock poisoned unexpectedly.";

/// `lead` with `detail` behind it.
fn worded(lead: &str, detail: &str) -> (text: String)
    ensures
        text@ == lead@ + detail@,
{
    let mut text: String = lead.to_owned();
    text.append(detail);
    text
}

// ---------------------------------------------------------------------------
// Messages
// ---------------------------------------------------------------------------

/// How a review ended that did not fail.
#[derive(Clone, Debug, PartialEq, Eq)]
pub enum ReviewRunOutcome {
    Completed,
    Cancelled(String),
}

/// How a review ended.
pub enum OutcomeView {
    Completed,
    Cancelled(Seq<char>),
    Failed(Seq<char>),
}

/// How a review ended.
pub open spec fn outcome_view(outcome: Result<ReviewRunOutcome, String>) -> OutcomeView {
    match outcome {
        Ok(ReviewRunOutcome::Completed) => OutcomeView::Completed,
        Ok(ReviewRunOutcome::Cancelled(message)) => OutcomeView::Cancelled(message@),
        Err(message) => OutcomeView::Failed(message@),
    }
}

/// What a review reports while it runs and when it ends.
#[derive(Clone, Debug, PartialEq, Eq)]
pub enum ReviewJobMessage {
    Append { thread_id: String, bytes: Vec<u8> },
    FinishedSuccess { thread_id: String, captured_at: Timestamp },
    FinishedCancelled { thread_id: String, captured_at: Timestamp, _message: String },
    FinishedFailure { thread_id: String, captured_at: Timestamp, message: String },
}

/// The texts and bytes of a message.
pub enum MessageView {
    Append { thread_id: Seq<char>, bytes: Seq<u8> },
    Finished { thread_id: Seq<char>, captured_at: Timestamp, outcome: OutcomeView },
}

impl View for ReviewJobMessage {
    type V = MessageView;

    open spec fn view(&self) -> MessageView {
        match self {
            ReviewJobMessage::Append { thread_id, bytes } => MessageView::Append {
                thread_id: thread_id@,
                bytes: bytes@,
            },
            ReviewJobMessage::FinishedSuccess { thread_id, captured_at } => MessageView::Finished {
                thread_id: thread_id@,
                captured_at: *captured_at,
                outcome: OutcomeView::Completed,
            },
            ReviewJobMessage::FinishedCancelled { thread_id, captured_at, _message } =>
            MessageView::Finished {
                thread_id: thread_id@,
                captured_at: *captured_at,
                outcome: OutcomeView::Cancelled(_message@),
            },
            ReviewJobMessage::FinishedFailure { thread_id, captured_at, message } =>
            MessageView::Finished {
                thread_id: thread_id@,
                captured_at: *captured_at,
                outcome: OutcomeView::Failed(message@),
            },
        }
    }
}

impl ReviewJobMessage {
    /// Whether the message says that the review has ended.
    pub fn is_final(&self) -> (last: bool)
        ensures
            last == (self@ is Finished),
    {
        match self {
            ReviewJobMessage::Append { .. } => false,
            _ => true,
        }
    }
}

/// The message that carries output.
pub fn review_bytes_message(thread_id: &str, bytes: Vec<u8>) -> (message: ReviewJobMessage)
    ensures
        message@ == (MessageView::Append { thread_id: thread_id@, bytes: bytes@ }),
{
    ReviewJobMessage::Append { thread_id: thread_id.to_owned(), bytes }
}

/// The message that carries a note.
fn review_note_message(thread_id: &str, note: &str) -> (message: ReviewJobMessage)
    ensures
        message@ == (MessageView::Append { thread_id: thread_id@, bytes: encode_utf8(note@) }),
{
    review_bytes_message(thread_id, note.as_bytes_vec())
}

/// The message that reports how a review ended.
pub fn finish_message(
    thread_id: &str,
    outcome: Result<ReviewRunOutcome, String>,
    captured_at: Timestamp,
) -> (message: ReviewJobMessage)
    ensures
        message@ == (MessageView::Finished {
            thread_id: thread_id@,
            captured_at,
            outcome: outcome_view(outcome),
        }),
{
    let thread_id: String = thread_id.to_owned();
    match outcome {
        Ok(ReviewRunOutcome::Completed) => ReviewJobMessage::FinishedSuccess {
            thread_id,
            captured_at,
        },
        Ok(ReviewRunOutcome::Cancelled(message)) => ReviewJobMessage::FinishedCancelled {
            thread_id,
            captured_at,
            _message: message,
        },
        Err(message) => ReviewJobMessage::FinishedFailure { thread_id, captured_at, message },
    }
}

/// What a look at the queue of messages found.
pub enum Received {
    Message(ReviewJobMessage),
    Empty,
    Disconnected,
}

/// Whether to look at the queue again.
#[derive(Clone, Copy, Debug, PartialEq, Eq, Structural)]
pub enum DrainStep {
    Again,
    Stop { finished: bool },
}

/// What is said of a review whose worker is gone.
pub const WORKER_GONE: &'static str = "Review worker disconnected unexpectedly.";

/// The messages of a list.
pub open spec fn messages_view(messages: Seq<ReviewJobMessage>) -> Seq<MessageView> {
    messages.map_values(|m: ReviewJobMessage| m@)
}

/// The messages taken so far, and whether to look again, after a look at the queue found
/// `received`. A worker that is gone counts as a failure at `now`.
pub open spec fn drained(
    taken: Seq<MessageView>,
    received: Received,
    thread_id: Seq<char>,
    now: Timestamp,
) -> (Seq<MessageView>, DrainStep) {
    match received {
        Received::Message(message) => (
            taken.push(message@),
            if message@ is Finished {
                DrainStep::Stop { finished: true }
            } else {
                DrainStep::Again
            },
        ),
        Received::Empty => (taken, DrainStep::Stop { finished: false }),
        Received::Disconnected => (
            taken.push(
                MessageView::Finished {
                    thread_id,
                    captured_at: now,
                    outcome: OutcomeView::Failed(WORKER_GONE@),
                },
            ),
            DrainStep::Stop { finished: true },
        ),
    }
}

/// Takes up what a look at the queue of messages found.
pub fn drain_message(
    messages: &mut Vec<ReviewJobMessage>,
    received: Received,
    thread_id: &str,
    now: Timestamp,
) -> (step: DrainStep)
    ensures
        (messages_view(final(messages)@), step) == drained(
            messages_view(old(messages)@),
            received,
            thread_id@,
            now,
        ),
{
    let ghost before = messages@;
    match received {
        Received::Message(message) => {
            let finished: bool = message.is_final();
            messages.push(message);
            proof {
                assert(messages_view(messages@) =~= messages_view(before).push(message@));
            }
            if finished {
                DrainStep::Stop { finished: true }
            } else {
                DrainStep::Again
            }
        },
        Received::Empty => DrainStep::Stop { finished: false },
        Received::Disconnected => {
            let message: ReviewJobMessage = finish_message(
                thread_id,
                Err(WORKER_GONE.to_owned()),
                now,
            );
            let ghost view = message@;
            messages.push(message);
            proof {
                assert(messages_view(messages@) =~= messages_view(before).push(view));
            }
            DrainStep::Stop { finished: true }
        },
    }
}

// ---------------------------------------------------------------------------
// Reading
// ---------------------------------------------------------------------------

/// What came of showing output in the shell.
pub enum MirrorEvent {
    /// The shell cannot be reached any more.
    LockLost,
    /// The shell is not used.
    NotMirrored,
    Written,
    WriteFailed(String),
}

/// The note on output that could not be shown in the shell, if there is one.
pub open spec fn mirror_note(event: MirrorEvent) -> Option<Seq<char>> {
    match event {
        MirrorEvent::LockLost => Some(
            "\n\n[Shell streaming stopped because the shell output lock became unavailable.]\n\n"@,
        ),
        MirrorEvent::WriteFailed(error) => Some(
            "\n\n[Shell streaming stopped: "@ + error@
                + ". The window will keep rendering the review inline.]\n\n"@,
        ),
        _ => None,
    }
}

/// The note on output that could not be shown in the shell, if there is one.
fn mirror_note_text(event: &MirrorEvent) -> (note: Option<String>)
    ensures
        match note {
            Some(t) => mirror_note(*event) == Some(t@),
            None => mirror_note(*event) is None,
        },
{
    match event {
        MirrorEvent::LockLost => Some(
            "\n\n[Shell streaming stopped because the shell output lock became unavailable.]\n\n".to_owned(),
        ),
        MirrorEvent::WriteFailed(error) => {
            let mut note: String = worded("\n\n[Shell streaming stopped: ", error.as_str());
            note.append(". The window will keep rendering the review inline.]\n\n");
            Some(note)
        },
        _ => None,
    }
}

/// What to do with a read.
pub enum ReadStep {
    /// Take up the bytes that were read.
    Take,
    /// The stream has ended.
    End,
    Fail(String),
}

/// What to do with a read of so many bytes, or one that failed. A read that fails after
/// the review was stopped ends the stream.
pub fn read_step(read: Result<usize, String>, cancelled: bool, stream_label: &str) -> (step:
    ReadStep)
    ensures
        match step {
            ReadStep::Take => read is Ok && read->Ok_0 > 0,
            ReadStep::End => (read is Ok && read->Ok_0 == 0) || (read is Err && cancelled),
            ReadStep::Fail(message) => read is Err && !cancelled && message@ == "Failed to read "@
                + stream_label@ + ": "@ + read->Err_0@,
        },
{
    match read {
        Ok(bytes) => {
            if bytes == 0 {
                ReadStep::End
            } else {
                ReadStep::Take
            }
        },
        Err(error) => {
            if cancelled {
                return ReadStep::End;
            }
            let mut message: String = worded("Failed to read ", stream_label);
            message.append(": ");
            message.append(error.as_str());
            ReadStep::Fail(message)
        },
    }
}

/// What a reader has captured after one more chunk.
pub open spec fn captured(capture: Seq<char>, chunk: Seq<u8>) -> Seq<char> {
    capture + stripped(lossy_text(chunk))
}

/// The messages that a chunk of output gives rise to: a note if it could not be shown in
/// the shell, then the chunk.
pub open spec fn chunk_messages(thread_id: Seq<char>, chunk: Seq<u8>, event: MirrorEvent) -> Seq<
    MessageView,
> {
    let output = MessageView::Append { thread_id, bytes: chunk };
    match mirror_note(event) {
        Some(note) => seq![MessageView::Append { thread_id, bytes: encode_utf8(note) }, output],
        None => seq![output],
    }
}

/// Takes up a chunk of output that `event` came of showing in the shell.
pub fn take_chunk(
    capture: &mut String,
    thread_id: &str,
    chunk: &[u8],
    event: &MirrorEvent,
) -> (messages: Vec<ReviewJobMessage>)
    ensures
        final(capture)@ == captured(old(capture)@, chunk@),
        messages_view(messages@) == chunk_messages(thread_id@, chunk@, *event),
{
    let mut messages: Vec<ReviewJobMessage> = Vec::new();
    match mirror_note_text(event) {
        Some(note) => {
            messages.push(review_note_message(thread_id, note.as_str()));
        },
        None => {},
    }
    messages.push(review_bytes_message(thread_id, vstd::slice::slice_to_vec(chunk)));
    let text: String = text_from_bytes(chunk);
    capture.append(strip_ansi_escape_codes(text.as_str()).as_str());
    proof {
        assert(messages_view(messages@) =~= chunk_messages(thread_id@, chunk@, *event));
    }
    messages
}

/// Whether the shell is used further after `event`.
pub fn keeps_mirror(event: &MirrorEvent) -> (keeps: bool)
    ensures
        keeps == !(*event is WriteFailed),
{
    match event {
        MirrorEvent::WriteFailed(_) => false,
        _ => true,
    }
}

// ---------------------------------------------------------------------------
// The run
// ---------------------------------------------------------------------------

/// How a review ended, in a word.
#[derive(Clone, Copy, Debug, PartialEq, Eq, Structural)]
pub enum FinishWord {
    Cancelled,
    Completed,
    Failed,
}

/// How a review ended, in a word.
pub open spec fn finish_word(word: FinishWord) -> Seq<char> {
    match word {
        FinishWord::Cancelled => "cancelled"@,
        FinishWord::Completed => "completed"@,
        FinishWord::Failed => "failed"@,
    }
}

/// The line in the shell with which a review starts.
pub open spec fn start_banner(review_label: Seq<char>) -> Seq<char> {
    "\n[reminder] review stream started for "@ + review_label + "\n"@
}

/// The line in the shell with which a review ends.
pub open spec fn finish_banner(review_label: Seq<char>, word: FinishWord) -> Seq<char> {
    "\n[reminder] review stream "@ + finish_word(word) + " for "@ + review_label + "\n"@
}

/// The line in the shell with which a review starts.
pub fn review_stream_start_banner(review_label: &str) -> (banner: Vec<u8>)
    ensures
        banner@ == encode_utf8(start_banner(review_label@)),
{
    let mut text: String = worded("\n[reminder] review stream started for ", review_label);
    text.append("\n");
    text.as_str().as_bytes_vec()
}

/// The line in the shell with which a review ends.
pub fn review_stream_finish_banner(review_label: &str, word: FinishWord) -> (banner: Vec<u8>)
    ensures
        banner@ == encode_utf8(finish_banner(review_label@, word)),
{
    let status: &str = match word {
        FinishWord::Cancelled => "cancelled",
        FinishWord::Completed => "completed",
        FinishWord::Failed => "failed",
    };
    let mut text: String = worded("\n[reminder] review stream ", status);
    text.append(" for ");
    text.append(review_label);
    text.append("\n");
    text.as_str().as_bytes_vec()
}

/// What a review run does next.
pub enum RunPhase {
    /// Start the process.
    Start,
    /// Connect to the shell.
    Connect,
    /// Write the first line to the shell.
    Greet,
    /// Put the process where it can be stopped, and see whether it is to be stopped.
    Register,
    /// Stop the process.
    Kill,
    /// See whether the process ended, as it could not be stopped.
    Inspect { kill_error: String },
    /// Read the output of the process to its end.
    Read,
    /// Wait for the end of the process.
    Wait { stdout: String },
    /// Wait for the end of its diagnostics.
    Join { stdout: String, success: bool, status: String },
    /// Write the last line to the shell.
    Finish { word: FinishWord, outcome: Result<ReviewRunOutcome, String> },
    /// Nothing more.
    Done { outcome: Result<ReviewRunOutcome, String> },
}

/// What a review run does next.
pub enum PhaseView {
    Start,
    Connect,
    Greet,
    Register,
    Kill,
    Inspect { kill_error: Seq<char> },
    Read,
    Wait { stdout: Seq<char> },
    Join { stdout: Seq<char>, success: bool, status: Seq<char> },
    Finish { word: FinishWord, outcome: OutcomeView },
    Done { outcome: OutcomeView },
}

impl View for RunPhase {
    type V = PhaseView;

    open spec fn view(&self) -> PhaseView {
        match self {
            RunPhase::Start => PhaseView::Start,
            RunPhase::Connect => PhaseView::Connect,
            RunPhase::Greet => PhaseView::Greet,
            RunPhase::Register => PhaseView::Register,
            RunPhase::Kill => PhaseView::Kill,
            RunPhase::Inspect { kill_error } => PhaseView::Inspect { kill_error: kill_error@ },
            RunPhase::Read => PhaseView::Read,
            RunPhase::Wait { stdout } => PhaseView::Wait { stdout: stdout@ },
            RunPhase::Join { stdout, success, status } => PhaseView::Join {
                stdout: stdout@,
                success: *success,
                status: status@,
            },
            RunPhase::Finish { word, outcome } => PhaseView::Finish {
                word: *word,
                outcome: outcome_view(*outcome),
            },
            RunPhase::Done { outcome } => PhaseView::Done { outcome: outcome_view(*outcome) },
        }
    }
}

/// What came of what a review run did.
pub enum RunEvent {
    /// The process runs.
    Started,
    StartFailed(String),
    /// The process runs, but its output cannot be read.
    OutputMissing,
    /// The process runs, but its diagnostics cannot be read.
    DiagnosticsMissing,
    Connected,
    NotConnected(String),
    Written,
    WriteFailed(String),
    /// The shell is not used, or cannot be reached any more.
    NotMirrored,
    Registered { cancelled: bool },
    LockPoisoned,
    Killed,
    KillFailed { invalid_input: bool, error: String },
    Inspected { exited: bool },
    InspectFailed(String),
    OutputRead(String),
    OutputFailed(String),
    HandleMissing,
    Waited { success: bool, status: String },
    WaitFailed { cancelled: bool, error: String },
    Joined { cancelled: bool, stderr: String },
    DiagnosticsFailed { cancelled: bool, error: String },
    JoinFailed { cancelled: bool },
}

/// The end of a run that failed.
pub open spec fn failed(message: Seq<char>) -> PhaseView {
    PhaseView::Done { outcome: OutcomeView::Failed(message) }
}

/// How a review ended whose process and diagnostics have ended.
pub open spec fn concluded(
    cancelled: bool,
    success: bool,
    status: Seq<char>,
    stdout: Seq<char>,
    stderr: Seq<char>,
) -> PhaseView {
    if success {
        PhaseView::Finish { word: FinishWord::Completed, outcome: OutcomeView::Completed }
    } else if cancelled {
        PhaseView::Finish {
            word: FinishWord::Cancelled,
            outcome: OutcomeView::Cancelled(REVIEW_CANCELED@),
        }
    } else {
        PhaseView::Finish {
            word: FinishWord::Failed,
            outcome: OutcomeView::Failed(failure_output(status, stdout, stderr)),
        }
    }
}

/// What a run does after `event`. What it does not wait for does not move it.
pub open spec fn next_phase(phase: PhaseView, event: RunEvent) -> PhaseView {
    match (phase, event) {
        (PhaseView::Start, RunEvent::Started) => PhaseView::Connect,
        (PhaseView::Start, RunEvent::StartFailed(error)) => failed(
            "Failed to start review: "@ + error@,
        ),
        (PhaseView::Start, RunEvent::OutputMissing) => failed("Failed to capture stdout."@),
        (PhaseView::Start, RunEvent::DiagnosticsMissing) => failed("Failed to capture stderr."@),
        (PhaseView::Connect, RunEvent::Connected) => PhaseView::Greet,
        (PhaseView::Connect, RunEvent::NotConnected(_)) => PhaseView::Register,
        (PhaseView::Greet, RunEvent::Written) => PhaseView::Register,
        (PhaseView::Greet, RunEvent::WriteFailed(_)) => PhaseView::Register,
        (PhaseView::Register, RunEvent::LockPoisoned) => failed(PROCESS_LOCK_POISONED@),
        (PhaseView::Register, RunEvent::Registered { cancelled }) => if cancelled {
            PhaseView::Kill
        } else {
            PhaseView::Read
        },
        (PhaseView::Kill, RunEvent::Killed) => PhaseView::Read,
        (PhaseView::Kill, RunEvent::KillFailed { invalid_input, error }) => if invalid_input {
            PhaseView::Read
        } else {
            PhaseView::Inspect { kill_error: error@ }
        },
        (PhaseView::Inspect { .. }, RunEvent::InspectFailed(error)) => failed(
            "Failed to inspect review process after early stop failure: "@ + error@,
        ),
        (PhaseView::Inspect { kill_error }, RunEvent::Inspected { exited }) => if exited {
            PhaseView::Read
        } else {
            failed("Failed to stop review: "@ + kill_error)
        },
        (PhaseView::Read, RunEvent::OutputRead(stdout)) => PhaseView::Wait { stdout: stdout@ },
        (PhaseView::Read, RunEvent::OutputFailed(message)) => failed(message@),
        (PhaseView::Wait { .. }, RunEvent::LockPoisoned) => failed(PROCESS_LOCK_POISONED@),
        (PhaseView::Wait { .. }, RunEvent::HandleMissing) => failed(
            "Review process handle missing while waiting."@,
        ),
        (PhaseView::Wait { stdout }, RunEvent::Waited { success, status }) => PhaseView::Join {
            stdout,
            success,
            status: status@,
        },
        (PhaseView::Wait { .. }, RunEvent::WaitFailed { cancelled, error }) => if cancelled {
            PhaseView::Done { outcome: OutcomeView::Cancelled(REVIEW_CANCELED@) }
        } else {
            failed("Failed while waiting for review: "@ + error@)
        },
        (
            PhaseView::Join { stdout, success, status },
            RunEvent::Joined { cancelled, stderr },
        ) => concluded(cancelled, success, status, stdout, stderr@),
        (
            PhaseView::Join { stdout, success, status },
            RunEvent::DiagnosticsFailed { cancelled, error },
        ) => if cancelled {
            concluded(true, success, status, stdout, Seq::empty())
        } else {
            failed(error@)
        },
        (PhaseView::Join { stdout, success, status }, RunEvent::JoinFailed { cancelled }) => if
            cancelled {
            concluded(true, success, status, stdout, Seq::empty())
        } else {
            failed("Failed to join opencode diagnostics reader."@)
        },
        (PhaseView::Finish { outcome, .. }, RunEvent::NotMirrored) => PhaseView::Done { outcome },
        (PhaseView::Finish { outcome, .. }, RunEvent::Written) => PhaseView::Done { outcome },
        (PhaseView::Finish { outcome, .. }, RunEvent::WriteFailed(_)) => PhaseView::Done {
            outcome,
        },
        _ => phase,
    }
}

/// What a run puts into its window after `event`.
pub open spec fn run_note(review_label: Seq<char>, phase: PhaseView, event: RunEvent) -> Option<
    Seq<char>,
> {
    match (phase, event) {
        (PhaseView::Connect, RunEvent::NotConnected(error)) => Some(
            SHELL_STREAM_DISABLED_NOTE@ + " "@ + error@ + "\n\n"@,
        ),
        (PhaseView::Greet, RunEvent::Written) => Some(start_banner(review_label)),
        (PhaseView::Greet, RunEvent::WriteFailed(error)) => Some(
            SHELL_STREAM_DISABLED_NOTE@ + " "@ + error@ + "\n\n"@,
        ),
        (PhaseView::Finish { word, .. }, RunEvent::Written) => Some(
            finish_banner(review_label, word),
        ),
        (PhaseView::Finish { .. }, RunEvent::WriteFailed(error)) => Some(
            "\n\n[Shell streaming stopped while finishing: "@ + error@
                + ". The window kept the remaining review output inline.]\n\n"@,
        ),
        _ => None,
    }
}

/// Whether a run goes on to use the shell after `event`.
pub open spec fn mirrors_after(phase: PhaseView, event: RunEvent, mirrored: bool) -> bool {
    match (phase, event) {
        (PhaseView::Greet, RunEvent::Written) => true,
        (PhaseView::Finish { .. }, RunEvent::WriteFailed(_)) => false,
        _ => mirrored,
    }
}

/// The run of one review.
pub struct ReviewRun {
    pub thread_id: String,
    pub review_label: String,
    pub mirrored: bool,
    pub phase: RunPhase,
}

fn run_failed(message: String) -> (phase: RunPhase)
    ensures
        phase@ == failed(message@),
{
    RunPhase::Done { outcome: Err(message) }
}

fn conclude(cancelled: bool, success: bool, status: String, stdout: String, stderr: String) -> (phase:
    RunPhase)
    ensures
        phase@ == concluded(cancelled, success, status@, stdout@, stderr@),
{
    if success {
        return RunPhase::Finish {
            word: FinishWord::Completed,
            outcome: Ok(ReviewRunOutcome::Completed),
        };
    }
    if cancelled {
        return RunPhase::Finish {
            word: FinishWord::Cancelled,
            outcome: Ok(ReviewRunOutcome::Cancelled(REVIEW_CANCELED.to_owned())),
        };
    }
    let message: String = format_review_failure_output(
        status.as_str(),
        stdout.as_str(),
        stderr.as_str(),
    );
    RunPhase::Finish { word: FinishWord::Failed, outcome: Err(message) }
}

fn disabled_note(error: &str) -> (note: String)
    ensures
        note@ == SHELL_STREAM_DISABLED_NOTE@ + " "@ + error@ + "\n\n"@,
{
    let mut note: String = worded(SHELL_STREAM_DISABLED_NOTE, " ");
    note.append(error);
    note.append("\n\n");
    note
}

impl ReviewRun {
    /// A run that is about to start.
    pub fn new(thread_id: String, review_label: String) -> (run: Self)
        ensures
            run.thread_id@ == thread_id@,
            run.review_label@ == review_label@,
            !run.mirrored,
            run.phase@ == PhaseView::Start,
    {
        ReviewRun { thread_id, review_label, mirrored: false, phase: RunPhase::Start }
    }

    /// What the run puts into its window after `event`.
    fn note_for(&self, event: &RunEvent) -> (note: Option<Vec<u8>>)
        ensures
            match note {
                Some(bytes) => run_note(self.review_label@, self.phase@, *event) is Some && bytes@
                    == encode_utf8(run_note(self.review_label@, self.phase@, *event)->0),
                None => run_note(self.review_label@, self.phase@, *event) is None,
            },
    {
        match (&self.phase, event) {
            (RunPhase::Connect, RunEvent::NotConnected(error)) => Some(
                disabled_note(error.as_str()).as_str().as_bytes_vec(),
            ),
            (RunPhase::Greet, RunEvent::Written) => Some(
                review_stream_start_banner(self.review_label.as_str()),
            ),
            (RunPhase::Greet, RunEvent::WriteFailed(error)) => Some(
                disabled_note(error.as_str()).as_str().as_bytes_vec(),
            ),
            (RunPhase::Finish { word, .. }, RunEvent::Written) => Some(
                review_stream_finish_banner(self.review_label.as_str(), *word),
            ),
            (RunPhase::Finish { .. }, RunEvent::WriteFailed(error)) => {
                let mut note: String = worded(
                    "\n\n[Shell streaming stopped while finishing: ",
                    error.as_str(),
                );
                note.append(". The window kept the remaining review output inline.]\n\n");
                Some(note.as_str().as_bytes_vec())
            },
            _ => None,
        }
    }

    /// Moves the run on by `event`, and gives the message that it sends thereby.
    pub fn step(self, event: RunEvent) -> (next: (ReviewRun, Option<ReviewJobMessage>))
        ensures
            next.0.thread_id@ == self.thread_id@,
            next.0.review_label@ == self.review_label@,
            next.0.phase@ == next_phase(self.phase@, event),
            next.0.mirrored == mirrors_after(self.phase@, event, self.mirrored),
            match next.1 {
                Some(message) => run_note(self.review_label@, self.phase@, event) is Some
                    && message@ == (MessageView::Append {
                    thread_id: self.thread_id@,
                    bytes: encode_utf8(run_note(self.review_label@, self.phase@, event)->0),
                }),
                None => run_note(self.review_label@, self.phase@, event) is None,
            },
    {
        let message: Option<ReviewJobMessage> = match self.note_for(&event) {
            Some(bytes) => Some(review_bytes_message(self.thread_id.as_str(), bytes)),
            None => None,
        };
        let mirrored: bool = match (&self.phase, &event) {
            (RunPhase::Greet, RunEvent::Written) => true,
            (RunPhase::Finish { .. }, RunEvent::WriteFailed(_)) => false,
            _ => self.mirrored,
        };
        let phase: RunPhase = match (self.phase, event) {
            (RunPhase::Start, RunEvent::Started) => RunPhase::Connect,
            (RunPhase::Start, RunEvent::StartFailed(error)) => run_failed(
                worded("Failed to start review: ", error.as_str()),
            ),
            (RunPhase::Start, RunEvent::OutputMissing) => run_failed(
                "Failed to capture stdout.".to_owned(),
            ),
            (RunPhase::Start, RunEvent::DiagnosticsMissing) => run_failed(
                "Failed to capture stderr.".to_owned(),
            ),
            (RunPhase::Connect, RunEvent::Connected) => RunPhase::Greet,
            (RunPhase::Connect, RunEvent::NotConnected(_)) => RunPhase::Register,
            (RunPhase::Greet, RunEvent::Written) => RunPhase::Register,
            (RunPhase::Greet, RunEvent::WriteFailed(_)) => RunPhase::Register,
            (RunPhase::Register, RunEvent::LockPoisoned) => run_failed(
                PROCESS_LOCK_POISONED.to_owned(),
            ),
            (RunPhase::Register, RunEvent::Registered { cancelled }) => {
                if cancelled {
                    RunPhase::Kill
                } else {
                    RunPhase::Read
                }
            },
            (RunPhase::Kill, RunEvent::Killed) => RunPhase::Read,
            (RunPhase::Kill, RunEvent::KillFailed { invalid_input, error }) => {
                if invalid_input {
                    RunPhase::Read
                } else {
                    RunPhase::Inspect { kill_error: error }
                }
            },
            (RunPhase::Inspect { .. }, RunEvent::InspectFailed(error)) => run_failed(
                worded(
                    "Failed to inspect review process after early stop failure: ",
                    error.as_str(),
                ),
            ),
            (RunPhase::Inspect { kill_error }, RunEvent::Inspected { exited }) => {
                if exited {
                    RunPhase::Read
                } else {
                    run_failed(worded("Failed to stop review: ", kill_error.as_str()))
                }
            },
            (RunPhase::Read, RunEvent::OutputRead(stdout)) => RunPhase::Wait { stdout },
            (RunPhase::Read, RunEvent::OutputFailed(message)) => run_failed(message),
            (RunPhase::Wait { .. }, RunEvent::LockPoisoned) => run_failed(
                PROCESS_LOCK_POISONED.to_owned(),
            ),
            (RunPhase::Wait { .. }, RunEvent::HandleMissing) => run_failed(
                "Review process handle missing while waiting.".to_owned(),
            ),
            (RunPhase::Wait { stdout }, RunEvent::Waited { success, status }) => RunPhase::Join {
                stdout,
                success,
                status,
            },
            (RunPhase::Wait { .. }, RunEvent::WaitFailed { cancelled, error }) => {
                if cancelled {
                    RunPhase::Done {
                        outcome: Ok(ReviewRunOutcome::Cancelled(REVIEW_CANCELED.to_owned())),
                    }
                } else {
                    run_failed(worded("Failed while waiting for review: ", error.as_str()))
                }
            },
            (
                RunPhase::Join { stdout, success, status },
                RunEvent::Joined { cancelled, stderr },
            ) => conclude(cancelled, success, status, stdout, stderr),
            (
                RunPhase::Join { stdout, success, status },
                RunEvent::DiagnosticsFailed { cancelled, error },
            ) => {
                if cancelled {
                    conclude(true, success, status, stdout, String::new())
                } else {
                    run_failed(error)
                }
            },
            (RunPhase::Join { stdout, success, status }, RunEvent::JoinFailed { cancelled }) => {
                if cancelled {
                    conclude(true, success, status, stdout, String::new())
                } else {
                    run_failed("Failed to join opencode diagnostics reader.".to_owned())
                }
            },
            (RunPhase::Finish { outcome, .. }, RunEvent::NotMirrored) => RunPhase::Done { outcome },
            (RunPhase::Finish { outcome, .. }, RunEvent::Written) => RunPhase::Done { outcome },
            (RunPhase::Finish { outcome, .. }, RunEvent::WriteFailed(_)) => RunPhase::Done {
                outcome,
            },
            (phase, _) => phase,
        };
        (
            ReviewRun {
                thread_id: self.thread_id,
                review_label: self.review_label,
                mirrored,
                phase,
            },
            message,
        )
    }
}

// ---------------------------------------------------------------------------
// Stopping
// ---------------------------------------------------------------------------

/// What stopping a review does next.
#[derive(Debug, PartialEq, Eq)]
pub enum CancelPhase {
    /// See whether there is a process and whether it still runs.
    Look,
    /// Stop the process.
    Kill,
    /// See whether the process ended, as it could not be stopped.
    Inspect { invalid_input: bool, kill_error: String },
    /// Whether the review was stopped.
    Answer(Result<bool, String>),
}

/// What stopping a review does next.
pub enum CancelView {
    Look,
    Kill,
    Inspect { invalid_input: bool, kill_error: Seq<char> },
    Answer(bool),
    Refused(Seq<char>),
}

impl View for CancelPhase {
    type V = CancelView;

    open spec fn view(&self) -> CancelView {
        match self {
            CancelPhase::Look => CancelView::Look,
            CancelPhase::Kill => CancelView::Kill,
            CancelPhase::Inspect { invalid_input, kill_error } => CancelView::Inspect {
                invalid_input: *invalid_input,
                kill_error: kill_error@,
            },
            CancelPhase::Answer(Ok(stopped)) => CancelView::Answer(*stopped),
            CancelPhase::Answer(Err(message)) => CancelView::Refused(message@),
        }
    }
}

/// What came of what stopping a review did.
pub enum CancelEvent {
    LockPoisoned,
    /// There is no process yet, or it has been waited for.
    NoProcess,
    Looked { exited: bool },
    LookFailed(String),
    Killed,
    KillFailed { invalid_input: bool, error: String },
}

/// What stopping a review does after `event`. What it does not wait for does not move it.
pub open spec fn next_cancel(phase: CancelView, event: CancelEvent) -> CancelView {
    match (phase, event) {
        (CancelView::Look, CancelEvent::LockPoisoned) => CancelView::Refused(
            PROCESS_LOCK_POISONED@,
        ),
        (CancelView::Look, CancelEvent::NoProcess) => CancelView::Answer(true),
        (CancelView::Look, CancelEvent::LookFailed(error)) => CancelView::Refused(
            "Failed to inspect review process state: "@ + error@,
        ),
        (CancelView::Look, CancelEvent::Looked { exited }) => if exited {
            CancelView::Answer(false)
        } else {
            CancelView::Kill
        },
        (CancelView::Kill, CancelEvent::Killed) => CancelView::Answer(true),
        (CancelView::Kill, CancelEvent::KillFailed { invalid_input, error }) =>
        CancelView::Inspect { invalid_input, kill_error: error@ },
        (CancelView::Inspect { .. }, CancelEvent::LookFailed(error)) => CancelView::Refused(
            "Failed to inspect review process after stop failure: "@ + error@,
        ),
        (
            CancelView::Inspect { invalid_input, kill_error },
            CancelEvent::Looked { exited },
        ) => if exited || invalid_input {
            CancelView::Answer(false)
        } else {
            CancelView::Refused("Failed to stop review: "@ + kill_error)
        },
        _ => phase,
    }
}

impl CancelPhase {
    /// Moves on by `event`.
    pub fn step(self, event: CancelEvent) -> (next: CancelPhase)
        ensures
            next@ == next_cancel(self@, event),
    {
        match (self, event) {
            (CancelPhase::Look, CancelEvent::LockPoisoned) => CancelPhase::Answer(
                Err(PROCESS_LOCK_POISONED.to_owned()),
            ),
            (CancelPhase::Look, CancelEvent::NoProcess) => CancelPhase::Answer(Ok(true)),
            (CancelPhase::Look, CancelEvent::LookFailed(error)) => CancelPhase::Answer(
                Err(worded("Failed to inspect review process state: ", error.as_str())),
            ),
            (CancelPhase::Look, CancelEvent::Looked { exited }) => {
                if exited {
                    CancelPhase::Answer(Ok(false))
                } else {
                    CancelPhase::Kill
                }
            },
            (CancelPhase::Kill, CancelEvent::Killed) => CancelPhase::Answer(Ok(true)),
            (CancelPhase::Kill, CancelEvent::KillFailed { invalid_input, error }) =>
            CancelPhase::Inspect { invalid_input, kill_error: error },
            (CancelPhase::Inspect { .. }, CancelEvent::LookFailed(error)) => CancelPhase::Answer(
                Err(
                    worded("Failed to inspect review process after stop failure: ", error.as_str()),
                ),
            ),
            (
                CancelPhase::Inspect { invalid_input, kill_error },
                CancelEvent::Looked { exited },
            ) => {
                if exited || invalid_input {
                    CancelPhase::Answer(Ok(false))
                } else {
                    CancelPhase::Answer(Err(worded("Failed to stop review: ", kill_error.as_str())))
                }
            },
            (phase, _) => phase,
        }
    }
}

} // verus!

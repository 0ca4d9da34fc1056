//! Launching reviews and wording what comes of them.
use vstd::prelude::*;

use crate::app::repo_paths::{canonical_repo_key, repo_key};
use crate::app::review_output::{ReviewOutputState, ReviewStatus};
use crate::app::terminal::ReviewTerminal;
use crate::app::{CUSTOM_REVIEW_COMMAND_NAME, MAX_REVIEW_OUTPUT_CHARS};
use crate::decimal::{decimal, decimal_text};
use crate::domain::{opt_text, ReviewCommandSettings, SettingsView};
use crate::text::{trim, trimmed, views};
use crate::text_map::{texts, TextMap};
use vstd::string::StrSliceExecFns;
use vstd::string::StringExecFns;

verus! {

// ---------------------------------------------------------------------------
// Launching
// ---------------------------------------------------------------------------

/// A review that is to be run.
#[derive(Debug, PartialEq, Eq)]
pub enum ReviewLaunchPlan {
    /// The custom command, in a local checkout.
    Custom { repo: String, repo_path: String, pr_number: u64, review_settings: ReviewCommandSettings },
}

/// The texts of a review that is to be run.
#[verifier::ext_equal]
pub struct LaunchView {
    pub repo: Seq<char>,
    pub repo_path: Seq<char>,
    pub pr_number: u64,
    pub review_settings: SettingsView,
}

impl View for ReviewLaunchPlan {
    type V = LaunchView;

    open spec fn view(&self) -> LaunchView {
        match self {
            ReviewLaunchPlan::Custom { repo, repo_path, pr_number, review_settings } => LaunchView {
                repo: repo@,
                repo_path: repo_path@,
                pr_number: *pr_number,
                review_settings: review_settings@,
            },
        }
    }
}

/// Whether the custom command can review pull requests of `repo`.
pub open spec fn custom_review_available(
    repo_paths: Map<Seq<char>, Seq<char>>,
    custom_review_command: bool,
    repo: Seq<char>,
) -> bool {
    custom_review_command && repo_key(repo) is Some && repo_paths.dom().contains(repo_key(repo)->0)
}

/// Whether the custom command can review pull requests of `repo`.
pub fn custom_review_available_for_repo(
    repo_paths: &TextMap<String>,
    custom_review_command: bool,
    repo: &str,
) -> (available: bool)
    ensures
        available == custom_review_available(texts(repo_paths@), custom_review_command, repo@),
{
    if !custom_review_command {
        return false;
    }
    match canonical_repo_key(repo) {
        Some(key) => repo_paths.contains_key(key.as_str()),
        None => false,
    }
}

/// Whether `launch` is the review of pull request `pr_number` of `repo`, if it can be reviewed.
pub open spec fn launch_for(
    repo_paths: Map<Seq<char>, Seq<char>>,
    custom_review_command: bool,
    repo: Seq<char>,
    pr_number: u64,
    settings: SettingsView,
    launch: Option<ReviewLaunchPlan>,
) -> bool {
    &&& launch is Some <==> custom_review_available(
        repo_paths,
        custom_review_command,
        repo,
    )
    &&& launch is Some ==> launch->0@ == (LaunchView {
        repo,
        repo_path: repo_paths[repo_key(repo)->0],
        pr_number,
        review_settings: settings,
    })
}

/// The review of pull request `pr_number` of `repo`, if it can be reviewed.
pub fn resolve_review_launch(
    repo_paths: &TextMap<String>,
    custom_review_command: bool,
    repo: &str,
    pr_number: u64,
    review_settings: &ReviewCommandSettings,
    _pr_url: &str,
) -> (launch: Option<ReviewLaunchPlan>)
    ensures
        launch_for(
            texts(repo_paths@),
            custom_review_command,
            repo@,
            pr_number,
            review_settings@,
            launch,
        ),
{
    if !custom_review_available_for_repo(repo_paths, custom_review_command, repo) {
        return None;
    }
    match canonical_repo_key(repo) {
        Some(key) => {
            match repo_paths.get(key.as_str()) {
                Some(path) => Some(
                    ReviewLaunchPlan::Custom {
                        repo: repo.to_owned(),
                        repo_path: path.clone(),
                        pr_number,
                        review_settings: review_settings.clone(),
                    },
                ),
                None => None,
            }
        },
        None => None,
    }
}

/// The pull request that a review is about, in one word.
pub open spec fn target_of(launch: LaunchView) -> Seq<char> {
    launch.repo + "#"@ + decimal(launch.pr_number as nat)
}

/// The pull request that a review is about, in one word.
pub fn review_shell_label(launch: &ReviewLaunchPlan) -> (label: String)
    ensures
        label@ == target_of(launch@),
{
    match launch {
        ReviewLaunchPlan::Custom { repo, pr_number, .. } => {
            let mut label: String = repo.clone();
            label.append("#");
            label.append(decimal_text(*pr_number).as_str());
            label
        },
    }
}

/// The program that runs reviews.
pub const REVIEW_PROGRAM: &'static str = "opencode";

/// The arguments of the command that reviews pull request `pr_number` of the checkout at
/// `repo_path`.
pub open spec fn command_args(repo_path: Seq<char>, pr_number: nat, more: Seq<Seq<char>>) -> Seq<
    Seq<char>,
> {
    seq![
        "run"@,
        "--dir"@,
        repo_path,
        "--command"@,
        CUSTOM_REVIEW_COMMAND_NAME@,
        decimal(pr_number),
        "--"@,
    ] + more
}

/// The arguments of the command that runs `launch`.
pub fn review_command_args(launch: &ReviewLaunchPlan) -> (args: Vec<String>)
    ensures
        views(args@) == command_args(
            launch@.repo_path,
            launch@.pr_number as nat,
            launch@.review_settings.additional_args,
        ),
{
    match launch {
        ReviewLaunchPlan::Custom { repo_path, pr_number, review_settings, .. } => {
            let mut args: Vec<String> = Vec::new();
            args.push("run".to_owned());
            args.push("--dir".to_owned());
            args.push(repo_path.clone());
            args.push("--command".to_owned());
            args.push(CUSTOM_REVIEW_COMMAND_NAME.to_owned());
            args.push(decimal_text(*pr_number));
            args.push("--".to_owned());
            let more: &Vec<String> = &review_settings.additional_args;
            let ghost wanted = command_args(
                launch@.repo_path,
                launch@.pr_number as nat,
                views(more@),
            );
            let mut i: usize = 0;
            proof {
                assert(views(args@) =~= wanted.take(7));
            }
            while i < more.len()
                invariant
                    i <= more@.len(),
                    wanted == command_args(
                        launch@.repo_path,
                        launch@.pr_number as nat,
                        views(more@),
                    ),
                    views(args@) == wanted.take(7 + i),
                decreases more@.len() - i,
            {
                let ghost before = args@;
                args.push(more[i].clone());
                i = i + 1;
                proof {
                    assert(views(args@) =~= views(before).push(more@[i - 1]@));
                    assert(wanted.take(7 + i) =~= wanted.take(7 + i - 1).push(wanted[7 + i - 1]));
                }
            }
            proof {
                assert(wanted.take(7 + i) =~= wanted);
            }
            args
        },
    }
}

/// The output of a review that has just been launched.
pub fn initial_review_output_state(thread_id: String, launch: &ReviewLaunchPlan) -> (state:
    ReviewOutputState)
    ensures
        state.thread_id@ == thread_id@,
        state.target@ == target_of(launch@),
        state.command_label@ == CUSTOM_REVIEW_COMMAND_NAME@,
        state.captured_at is None,
        state.terminal@ == Seq::<u8>::empty(),
        state.styled_spans@.len() == 0,
        state.content@ == Seq::<char>::empty(),
        state.open,
        state.status == ReviewStatus::Running,
        state.dropped_chars == 0,
{
    ReviewOutputState {
        thread_id,
        target: review_shell_label(launch),
        command_label: CUSTOM_REVIEW_COMMAND_NAME.to_owned(),
        captured_at: None,
        terminal: ReviewTerminal::new(),
        styled_spans: Vec::new(),
        content: String::new(),
        open: true,
        status: ReviewStatus::Running,
        dropped_chars: 0,
    }
}

/// Whether `path` is where the custom command is defined, as a directory and a path below it.
pub open spec fn command_path(
    config_home: Option<String>,
    home: Option<String>,
    path: Option<(String, &'static str)>,
) -> bool {
    match (config_home, home, path) {
        (Some(dir), _, Some((base, below))) => base@ == dir@ && below@
            == "opencode/commands/review-pr.md"@,
        (None, Some(dir), Some((base, below))) => base@ == dir@ && below@
            == ".config/opencode/commands/review-pr.md"@,
        (None, None, None) => true,
        _ => false,
    }
}

/// Where the custom command is defined, as a directory and a path below it: under the
/// configuration directory if one is set, else under the home directory.
pub fn custom_review_command_path(config_home: Option<String>, home: Option<String>) -> (path:
    Option<(String, &'static str)>)
    ensures
        command_path(config_home, home, path),
{
    match config_home {
        Some(dir) => Some((dir, "opencode/commands/review-pr.md")),
        None => {
            match home {
                Some(dir) => Some((dir, ".config/opencode/commands/review-pr.md")),
                None => None,
            }
        },
    }
}

// ---------------------------------------------------------------------------
// Wording
// ---------------------------------------------------------------------------

/// What a review that succeeded has to show.
pub open spec fn success_output(stdout: Seq<char>, stderr: Seq<char>) -> Seq<char> {
    let out = trim(stdout);
    let err = trim(stderr);
    if out.len() > 0 && err.len() == 0 {
        out
    } else if out.len() > 0 {
        out + "\n\nDiagnostics:\n"@ + err
    } else if err.len() > 0 {
        "Diagnostics:\n"@ + err
    } else {
        "opencode review completed with no output."@
    }
}

/// What a review that succeeded has to show.
pub fn format_review_success_output(stdout: &str, stderr: &str) -> (text: String)
    ensures
        text@ == success_output(stdout@, stderr@),
{
    let out: String = trimmed(stdout);
    let err: String = trimmed(stderr);
    match (out.as_str().is_empty(), err.as_str().is_empty()) {
        (false, true) => out,
        (false, false) => {
            let mut text: String = out;
            text.append("\n\nDiagnostics:\n");
            text.append(err.as_str());
            text
        },
        (true, false) => {
            let mut text: String = "Diagnostics:\n".to_owned();
            text.append(err.as_str());
            text
        },
        (true, true) => "opencode review completed with no output.".to_owned(),
    }
}

/// What is said of a review that failed. Its output has been shown while it ran and is not
/// repeated.
pub open spec fn failure_output(status: Seq<char>, stdout: Seq<char>, stderr: Seq<char>) -> Seq<
    char,
> {
    let out = trim(stdout);
    let err = trim(stderr);
    if out.len() == 0 && err.len() == 0 {
        "opencode review exited unsuccessfully: "@ + status
    } else if err.len() == 0 {
        "opencode review failed after partial output: "@ + status
    } else if out.len() == 0 {
        "opencode review failed:\n"@ + err
    } else {
        "opencode review failed after partial output. stderr:\n"@ + err
    }
}

/// What is said of a review that failed.
pub fn format_review_failure_output(status: &str, stdout: &str, stderr: &str) -> (text: String)
    ensures
        text@ == failure_output(status@, stdout@, stderr@),
{
    let out: String = trimmed(stdout);
    let err: String = trimmed(stderr);
    match (out.as_str().is_empty(), err.as_str().is_empty()) {
        (true, true) => {
            let mut text: String = "opencode review exited unsuccessfully: ".to_owned();
            text.append(status);
            text
        },
        (false, true) => {
            let mut text: String = "opencode review failed after partial output: ".to_owned();
            text.append(status);
            text
        },
        (true, false) => {
            let mut text: String = "opencode review failed:\n".to_owned();
            text.append(err.as_str());
            text
        },
        (false, false) => {
            let mut text: String =
                "opencode review failed after partial output. stderr:\n".to_owned();
            text.append(err.as_str());
            text
        },
    }
}

/// `text`, cut down to what may be kept of it, with a note on what was cut.
pub open spec fn truncated_output(text: Seq<char>) -> Seq<char> {
    let limit = MAX_REVIEW_OUTPUT_CHARS as int;
    if text.len() <= limit {
        text
    } else {
        text.take(limit) + "\n\n[truncated "@ + decimal((text.len() - limit) as nat)
            + " trailing characters]"@
    }
}

/// Cuts `text` down to what may be kept of it, with a note on what was cut.
pub fn truncate_review_output(text: &str) -> (cut: String)
    ensures
        cut@ == truncated_output(text@),
{
    let count: usize = text.unicode_len();
    if count <= MAX_REVIEW_OUTPUT_CHARS {
        return text.to_owned();
    }
    let mut cut: String = text.substring_char(0, MAX_REVIEW_OUTPUT_CHARS).to_owned();
    proof {
        assert(cut@ =~= text@.take(MAX_REVIEW_OUTPUT_CHARS as int));
    }
    cut.append("\n\n[truncated ");
    cut.append(decimal_text((count - MAX_REVIEW_OUTPUT_CHARS) as u64).as_str());
    cut.append(" trailing characters]");
    cut
}

/// How a review stands, in words.
pub open spec fn status_words(status: ReviewStatus) -> Seq<char> {
    match status {
        ReviewStatus::Running => "Review running"@,
        ReviewStatus::Completed => "Review ready"@,
        ReviewStatus::Cancelled => "Review canceled"@,
        ReviewStatus::Failed => "Review failed"@,
    }
}

/// How a review stands, in one line, with the time at which it ended if there is one.
pub open spec fn summary_line(
    status: ReviewStatus,
    target: Seq<char>,
    command_label: Seq<char>,
    ended: Option<Seq<char>>,
) -> Seq<char> {
    let line = status_words(status) + ": "@ + target + " via "@ + command_label;
    match ended {
        Some(when) => line + " at "@ + when,
        None => line,
    }
}

/// How a review stands, in one line, with the time at which it ended if there is one.
pub fn review_summary_line(review_output: &ReviewOutputState, ended: Option<&str>) -> (line: String)
    ensures
        line@ == summary_line(
            review_output.status,
            review_output.target@,
            review_output.command_label@,
            match ended {
                Some(when) => Some(when@),
                None => None,
            },
        ),
{
    let status: &str = match review_output.status {
        ReviewStatus::Running => "Review running",
        ReviewStatus::Completed => "Review ready",
        ReviewStatus::Cancelled => "Review canceled",
        ReviewStatus::Failed => "Review failed",
    };
    let mut line: String = status.to_owned();
    line.append(": ");
    line.append(review_output.target.as_str());
    line.append(" via ");
    line.append(review_output.command_label.as_str());
    match ended {
        Some(when) => {
            line.append(" at ");
            line.append(when);
            line
        },
        None => line,
    }
}

/// Whether `line` can be the line on the review `output`. The time at which it ended, if it
/// has, stands there as it reads in the machine's time zone, unless it cannot be written
/// out.
pub open spec fn summarizes(line: Seq<char>, output: ReviewOutputState) -> bool {
    match output.captured_at {
        None => line == summary_line(
            output.status,
            output.target@,
            output.command_label@,
            None,
        ),
        Some(at) => exists|when: Option<String>|
            {
                &&& #[trigger] at.can_read_locally(when)
                &&& when is Some <==> at.is_date()
                &&& line == summary_line(
                    output.status,
                    output.target@,
                    output.command_label@,
                    opt_text(when),
                )
            },
    }
}

/// How a review stands, in one line, with the time at which it ended in the machine's time
/// zone.
pub fn review_summary_text(review_output: &ReviewOutputState) -> (line: String)
    ensures
        summarizes(line@, *review_output),
{
    match &review_output.captured_at {
        Some(captured_at) => {
            let when: Option<String> = captured_at.to_local();
            assert(captured_at.can_read_locally(when));
            match when {
                Some(when) => review_summary_line(review_output, Some(when.as_str())),
                None => review_summary_line(review_output, None),
            }
        },
        None => review_summary_line(review_output, None),
    }
}

/// The title of a review's window.
pub open spec fn window_title(status: ReviewStatus, target: Seq<char>) -> Seq<char> {
    match status {
        ReviewStatus::Running => "Review in progress: "@ + target,
        ReviewStatus::Completed => "Review output: "@ + target,
        ReviewStatus::Cancelled => "Review canceled: "@ + target,
        ReviewStatus::Failed => "Review failed: "@ + target,
    }
}

/// The title of a review's window.
pub fn review_window_title(review_output: &ReviewOutputState) -> (title: String)
    ensures
        title@ == window_title(review_output.status, review_output.target@),
{
    let lead: &str = match review_output.status {
        ReviewStatus::Running => "Review in progress: ",
        ReviewStatus::Completed => "Review output: ",
        ReviewStatus::Cancelled => "Review canceled: ",
        ReviewStatus::Failed => "Review failed: ",
    };
    let mut title: String = lead.to_owned();
    title.append(review_output.target.as_str());
    title
}

/// The note on output that was cut from the front, if any was.
pub fn trimmed_note(dropped_chars: usize) -> (note: Option<String>)
    ensures
        match note {
            Some(t) => dropped_chars > 0 && t@ == "[trimmed "@ + decimal(dropped_chars as nat)
                + " leading characters]"@,
            None => dropped_chars == 0,
        },
{
    if dropped_chars == 0 {
        return None;
    }
    let mut note: String = "[trimmed ".to_owned();
    note.append(decimal_text(dropped_chars as u64).as_str());
    note.append(" leading characters]");
    Some(note)
}

} // verus!

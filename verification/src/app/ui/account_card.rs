//! The card of the selected account.
use vstd::prelude::*;

use crate::app::review::{
    custom_review_available, resolve_review_launch, review_summary_text, summarizes, LaunchView,
    ReviewLaunchPlan,
};
use crate::app::review_output::ReviewOutputState;
use crate::app::state::{
    acted_on, just_launched, running_reviews, AccountState, AccountViewMode, ThreadAction,
};
use crate::app::repo_paths::repo_key;
use crate::app::ui::notifications::AccountAction;
use crate::decimal::{decimal, decimal_text};
use crate::domain::opt_text;
use crate::text_map::{texts, walks, TextMap};
use crate::time::{written_in_utc, SECONDS_LAYOUT};
use vstd::string::StringExecFns;

verus! {

// ---------------------------------------------------------------------------
// Header and status
// ---------------------------------------------------------------------------

/// The heading of an account's card.
pub fn account_heading(account: &AccountState) -> (heading: String)
    ensures
        heading@ == "Account: "@ + account.profile.login@,
{
    let mut heading: String = "Account: ".to_owned();
    heading.append(account.profile.login.as_str());
    heading
}

/// The label of the button that shows or hides the notifications.
pub fn expand_label(expanded: bool) -> (label: &'static str)
    ensures
        label@ == if expanded {
            "Hide notifications"@
        } else {
            "Show notifications"@
        },
{
    if expanded {
        "Hide notifications"
    } else {
        "Show notifications"
    }
}

/// Shows the notifications if they are hidden, and hides them if they are shown.
pub fn toggle_expanded(account: &mut AccountState)
    ensures
        *final(account) == (AccountState { expanded: !old(account).expanded, ..*old(account) }),
{
    account.expanded = !account.expanded;
}

/// What is said of the sync of an account.
#[derive(Clone, Debug, PartialEq, Eq)]
pub enum StatusNotice {
    Nothing,
    Error(String),
    Fetching(&'static str),
}

/// When an account was last synced, in words, for a sync at `fetched` if there was one.
pub open spec fn synced_line(fetched: Option<Seq<char>>) -> Seq<char> {
    match fetched {
        Some(when) => "Last synced "@ + when + " UTC"@,
        None => "No data fetched yet."@,
    }
}

/// When an account was last synced, in words, for a sync at `fetched` if there was one.
pub fn synced_line_at(fetched: Option<&str>) -> (line: String)
    ensures
        line@ == synced_line(
            match fetched {
                Some(when) => Some(when@),
                None => None,
            },
        ),
{
    match fetched {
        Some(when) => {
            let mut line: String = "Last synced ".to_owned();
            line.append(when);
            line.append(" UTC");
            line
        },
        None => "No data fetched yet.".to_owned(),
    }
}

/// Whether `line` tells when an account was last synced.
pub open spec fn tells_sync(account: AccountState, line: Option<String>) -> bool {
    opt_text(line) == match account.inbox {
        None => Some(synced_line(None)),
        Some(inbox) => match written_in_utc(
            inbox.fetched_at.secs,
            inbox.fetched_at.nanos,
            SECONDS_LAYOUT@,
        ) {
            Some(when) => Some(synced_line(Some(when))),
            None => None,
        },
    }
}

/// When an account was last synced, in words, unless that is a time that cannot be written
/// out.
pub fn last_synced(account: &AccountState) -> (line: Option<String>)
    ensures
        tells_sync(*account, line),
{
    match &account.inbox {
        Some(inbox) => {
            match inbox.fetched_at.to_seconds() {
                Some(when) => Some(synced_line_at(Some(when.as_str()))),
                None => None,
            }
        },
        None => Some(synced_line_at(None)),
    }
}

/// Whether `notice` is what is said of the sync of an account.
pub open spec fn notice_of(account: AccountState, notice: StatusNotice) -> bool {
    match notice {
        StatusNotice::Error(text) => opt_text(account.last_error) == Some(text@),
        StatusNotice::Fetching(text) => account.last_error is None && account.pending_job
            && text@ == "Fetching latest notifications..."@,
        StatusNotice::Nothing => account.last_error is None && !account.pending_job,
    }
}

/// What is said of the sync of an account: its last error, else whether one is under way.
pub fn status_notice(account: &AccountState) -> (notice: StatusNotice)
    ensures
        notice_of(*account, notice),
{
    match &account.last_error {
        Some(error) => StatusNotice::Error(error.clone()),
        None => {
            if account.pending_job {
                StatusNotice::Fetching("Fetching latest notifications...")
            } else {
                StatusNotice::Nothing
            }
        },
    }
}

/// The line on one review.
#[derive(Clone, Debug, PartialEq, Eq)]
pub struct ReviewLine {
    pub summary: String,
    pub trimmed: Option<String>,
    pub window_hidden: bool,
}

/// Whether `line` can be the line on the review `output`, with the time at which it ended in
/// the machine's time zone.
pub open spec fn describes(line: ReviewLine, output: ReviewOutputState) -> bool {
    &&& summarizes(line.summary@, output)
    &&& match line.trimmed {
        Some(text) => output.dropped_chars > 0 && text@ == "Trimmed "@ + decimal(
            output.dropped_chars as nat,
        ) + " chars"@,
        None => output.dropped_chars == 0,
    }
    &&& line.window_hidden == !output.open
}

/// The lines on the reviews of an account, in the order of their threads.
pub fn review_lines(account: &AccountState) -> (lines: Vec<ReviewLine>)
    ensures
        walks(account.review_outputs.keys(), account.review_outputs@),
        lines@.len() == account.review_outputs.keys().len(),
        forall|i: int|
            0 <= i < lines@.len() ==> describes(
                #[trigger] lines@[i],
                account.review_outputs@[account.review_outputs.keys()[i]],
            ),
{
    let mut lines: Vec<ReviewLine> = Vec::new();
    let count: usize = account.review_outputs.len();
    let ghost keys = account.review_outputs.keys();
    let ghost outputs = account.review_outputs@;
    let mut i: usize = 0;
    while i < count
        invariant
            i <= count,
            count == keys.len(),
            keys == account.review_outputs.keys(),
            outputs == account.review_outputs@,
            lines@.len() == i,
            forall|j: int|
                0 <= j < i ==> describes(#[trigger] lines@[j], outputs[keys[j]]),
        decreases count - i,
    {
        let output: &ReviewOutputState = account.review_outputs.value_at(i);
        let trimmed: Option<String> = if output.dropped_chars > 0 {
            let mut text: String = "Trimmed ".to_owned();
            text.append(decimal_text(output.dropped_chars as u64).as_str());
            text.append(" chars");
            Some(text)
        } else {
            None
        };
        let line: ReviewLine = ReviewLine {
            summary: review_summary_text(output),
            trimmed,
            window_hidden: !output.open,
        };
        lines.push(line);
        i = i + 1;
    }
    lines
}

/// What stands in the body of an account's card.
#[derive(Clone, Copy, Debug, PartialEq, Eq, Structural)]
pub enum CardBody {
    /// Nothing.
    Blank,
    /// A note that there is nothing yet.
    NoData,
    /// All notifications in one section.
    Unified,
    /// The notifications by section.
    Grouped,
}

/// Whether `body` is what stands in the body of an account's card.
pub open spec fn body_of(account: AccountState, body: CardBody) -> bool {
    body == if !account.expanded {
        if account.inbox is None {
            CardBody::NoData
        } else {
            CardBody::Blank
        }
    } else if account.inbox is None {
        CardBody::Blank
    } else {
        match account.view_mode {
            AccountViewMode::Inbox => CardBody::Unified,
            AccountViewMode::Grouped => CardBody::Grouped,
        }
    }
}

/// What stands in the body of an account's card.
pub fn card_body(account: &AccountState) -> (body: CardBody)
    ensures
        body_of(*account, body),
{
    let has_inbox: bool = account.inbox.is_some();
    if !account.expanded {
        if has_inbox {
            return CardBody::Blank;
        }
        return CardBody::NoData;
    }
    if !has_inbox {
        return CardBody::Blank;
    }
    match account.view_mode {
        AccountViewMode::Inbox => CardBody::Unified,
        AccountViewMode::Grouped => CardBody::Grouped,
    }
}

// ---------------------------------------------------------------------------
// Actions
// ---------------------------------------------------------------------------

/// What has to be started for an action.
pub enum AccountCommand {
    Nothing,
    MarkDone(String),
    MarkRead(String),
    Review { thread_id: String, launch: ReviewLaunchPlan },
    StopReview(String),
}

/// What is said where a repository cannot be reviewed.
pub const REVIEW_UNAVAILABLE: &'static str =
    "Custom `review-pr` is unavailable for this repository.";

/// Whether `after` and `command` are what an action makes of the account `before`: one on
/// a thread is started unless one is under way for it, a review if it can be run and none
/// runs for the thread.
pub open spec fn carried_out(
    before: AccountState,
    action: AccountAction,
    repo_paths: Map<Seq<char>, Seq<char>>,
    custom_review_command: bool,
    after: AccountState,
    command: AccountCommand,
) -> bool {
    match action {
        AccountAction::Done(id) => {
            &&& after == (AccountState { inflight_done: after.inflight_done, ..before })
            &&& after.inflight_done@ == before.inflight_done@.insert(id@)
            &&& match command {
                AccountCommand::MarkDone(thread) => thread@ == id@
                    && !before.inflight_done@.contains(id@),
                AccountCommand::Nothing => before.inflight_done@.contains(id@),
                _ => false,
            }
        },
        AccountAction::Read(id) => {
            &&& after == (AccountState { inflight_done: after.inflight_done, ..before })
            &&& after.inflight_done@ == before.inflight_done@.insert(id@)
            &&& match command {
                AccountCommand::MarkRead(thread) => thread@ == id@
                    && !before.inflight_done@.contains(id@),
                AccountCommand::Nothing => before.inflight_done@.contains(id@),
                _ => false,
            }
        },
        AccountAction::Seen(id) => {
            &&& after == (AccountState { inbox: after.inbox, ..before })
            &&& acted_on(before.inbox, after.inbox, id@, ThreadAction::Read)
            &&& command is Nothing
        },
        AccountAction::ToggleReviewWindow(id) => {
            &&& after == (AccountState { review_outputs: after.review_outputs, ..before })
            &&& after.review_outputs@ == if before.review_outputs@.dom().contains(id@) {
                before.review_outputs@.insert(
                    id@,
                    ReviewOutputState {
                        open: !before.review_outputs@[id@].open,
                        ..before.review_outputs@[id@]
                    },
                )
            } else {
                before.review_outputs@
            }
            &&& command is Nothing
        },
        AccountAction::StopReview(id) => {
            &&& after == before
            &&& match command {
                AccountCommand::StopReview(thread) => thread@ == id@ && running_reviews(
                    before.review_outputs@,
                ).contains(id@),
                AccountCommand::Nothing => !running_reviews(before.review_outputs@).contains(id@),
                _ => false,
            }
        },
        AccountAction::Review { thread_id, repo, pr_number, .. } => {
            let available = custom_review_available(repo_paths, custom_review_command, repo@);
            let running = running_reviews(before.review_outputs@).contains(thread_id@);
            match command {
                AccountCommand::Review { thread_id: thread, launch } => {
                    &&& available && !running
                    &&& thread@ == thread_id@
                    &&& launch@ == (LaunchView {
                        repo: repo@,
                        repo_path: repo_paths[repo_key(repo@)->0],
                        pr_number,
                        review_settings: before.profile.review_settings@,
                    })
                    &&& after == (AccountState { review_outputs: after.review_outputs, ..before })
                    &&& after.review_outputs@ == before.review_outputs@.insert(
                        thread_id@,
                        after.review_outputs@[thread_id@],
                    )
                    &&& just_launched(after.review_outputs@[thread_id@], thread_id@, launch)
                },
                AccountCommand::Nothing => if available {
                    running && after == before
                } else {
                    &&& after == (AccountState { last_error: after.last_error, ..before })
                    &&& opt_text(after.last_error) == Some(REVIEW_UNAVAILABLE@)
                },
                _ => false,
            }
        },
    }
}

/// Carries out an action on the account, and says what has to be started for it.
pub fn apply_action(
    account: &mut AccountState,
    action: AccountAction,
    repo_paths: &TextMap<String>,
    custom_review_command: bool,
) -> (command: AccountCommand)
    ensures
        carried_out(
            *old(account),
            action,
            texts(repo_paths@),
            custom_review_command,
            *final(account),
            command,
        ),
{
    match action {
        AccountAction::Done(id) => {
            if account.request_mark_done(id.clone()) {
                AccountCommand::MarkDone(id)
            } else {
                AccountCommand::Nothing
            }
        },
        AccountAction::Read(id) => {
            if account.request_mark_read(id.clone()) {
                AccountCommand::MarkRead(id)
            } else {
                AccountCommand::Nothing
            }
        },
        AccountAction::Seen(id) => {
            account.mark_notification_seen(id.as_str());
            AccountCommand::Nothing
        },
        AccountAction::ToggleReviewWindow(id) => {
            account.toggle_review_window_for_thread(id.as_str());
            AccountCommand::Nothing
        },
        AccountAction::StopReview(id) => {
            if account.can_cancel_review(id.as_str()) {
                AccountCommand::StopReview(id)
            } else {
                AccountCommand::Nothing
            }
        },
        AccountAction::Review { thread_id, repo, pr_number, pr_url } => {
            match resolve_review_launch(
                repo_paths,
                custom_review_command,
                repo.as_str(),
                pr_number,
                &account.profile.review_settings,
                pr_url.as_str(),
            ) {
                Some(launch) => {
                    if account.request_review(thread_id.clone(), &launch) {
                        AccountCommand::Review { thread_id, launch }
                    } else {
                        AccountCommand::Nothing
                    }
                },
                None => {
                    account.last_error = Some(REVIEW_UNAVAILABLE.to_owned());
                    AccountCommand::Nothing
                },
            }
        },
    }
}

} // verus!

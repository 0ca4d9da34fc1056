//! What holds of the state of an account.
use vstd::prelude::*;

use crate::app::notification_state::{unseen_in, updated_in, SectionKind};
use crate::app::refresh::{due_for_refresh, refreshed, syncing};
use crate::app::review::ReviewLaunchPlan;
use crate::app::review_job::{MessageView, OutcomeView};
use crate::app::review_output::{screen_text, ReviewOutputState, ReviewStatus};
use crate::app::state::{
    acted_on, action_answered, action_requested, just_launched, message_taken_up,
    of_other_threads, open_windows, polled, refresh_asked_for, reported, review_asked_for,
    running_reviews, seen_from, stop_answered, thread_of, thread_seen, window_toggled,
    AccountState, AccountViewMode, JobPoll, SectionSet, ThreadAction,
};
use crate::app::styled_text::{flattened, plain_text};
use crate::app::terminal::screen_after;
use crate::app::ReminderApp;
use crate::decimal::decimal;
use crate::domain::{GitHubAccount, InboxSnapshot, NotificationItem};
use crate::github::{fetch_error_text, FetchError, FetchErrorView};
use crate::time::Timestamp;

verus! {

// ---------------------------------------------------------------------------
// Threads
// ---------------------------------------------------------------------------

/// A thread that has been read or looked at is read as of its last update, and nothing else
/// of it or of other threads changes.
pub proof fn law_seeing_a_thread(
    was: InboxSnapshot,
    is: InboxSnapshot,
    id: Seq<char>,
    i: int,
)
    requires
        acted_on(Some(was), Some(is), id, ThreadAction::Read),
        0 <= i < was.notifications@.len(),
    ensures
        is.notifications@.len() == was.notifications@.len(),
        ({
            let before = was.notifications@[i];
            let after = is.notifications@[i];
            &&& after.thread_id == before.thread_id
            &&& after.repo == before.repo
            &&& after.title == before.title
            &&& after.url == before.url
            &&& after.reason == before.reason
            &&& after.updated_at == before.updated_at
            &&& before.thread_id@ == id ==> !after.unread && after.last_read_at == Some(
                before.updated_at,
            )
            &&& before.thread_id@ != id ==> after.unread == before.unread && after.last_read_at
                == before.last_read_at
        }),
        is.review_requests == was.review_requests,
        is.mentions == was.mentions,
        is.recent_reviews == was.recent_reviews,
        is.fetched_at == was.fetched_at,
{
    let before = was.notifications@[i];
    let after = is.notifications@[i];
    if before.thread_id@ == id {
        assert(seen_from(before, after));
    } else {
        assert(after == before);
    }
}

proof fn lemma_other_threads(items: Seq<NotificationItem>, id: Seq<char>, item: NotificationItem)
    ensures
        items.filter(of_other_threads(id)).contains(item) <==> items.contains(item)
            && item.thread_id@ != id,
    decreases items.len(),
{
    reveal(Seq::filter);
    if items.len() > 0 {
        let head = items.drop_last();
        let last = items.last();
        let kept = head.filter(of_other_threads(id));
        lemma_other_threads(head, id, item);
        assert(items =~= head.push(last));
        if head.contains(item) {
            let i = choose|i: int| 0 <= i < head.len() && head[i] == item;
            assert(items[i] == item);
        }
        if item == last {
            assert(items[items.len() - 1] == item);
        }
        if items.contains(item) && item != last {
            let i = choose|i: int| 0 <= i < items.len() && items[i] == item;
            assert(head[i] == item);
        }
        if last.thread_id@ != id {
            let more = kept.push(last);
            assert(items.filter(of_other_threads(id)) == more);
            if kept.contains(item) {
                let i = choose|i: int| 0 <= i < kept.len() && kept[i] == item;
                assert(more[i] == item);
            }
            if item == last {
                assert(more[kept.len() as int] == item);
            }
            if more.contains(item) && item != last {
                let i = choose|i: int| 0 <= i < more.len() && more[i] == item;
                assert(kept[i] == item);
            }
        }
    }
}

/// Filing a thread away takes out its notifications and no others, and leaves the rest of the
/// inbox as it was.
pub proof fn law_filing_a_thread_away(
    was: InboxSnapshot,
    is: InboxSnapshot,
    id: Seq<char>,
    item: NotificationItem,
)
    requires
        acted_on(Some(was), Some(is), id, ThreadAction::Done),
    ensures
        is.notifications@.contains(item) <==> was.notifications@.contains(item)
            && item.thread_id@ != id,
        is.notifications@ == was.notifications@.filter(
            |item: NotificationItem| item.thread_id@ != id,
        ),
        is.review_requests == was.review_requests,
        is.mentions == was.mentions,
        is.recent_reviews == was.recent_reviews,
        is.fetched_at == was.fetched_at,
{
    lemma_other_threads(was.notifications@, id, item);
    assert(of_other_threads(id) =~= (|item: NotificationItem| item.thread_id@ != id));
}

/// An action on a thread neither makes an inbox nor loses one.
pub proof fn law_actions_keep_the_inbox(
    before: Option<InboxSnapshot>,
    after: Option<InboxSnapshot>,
    id: Seq<char>,
    action: ThreadAction,
)
    requires
        acted_on(before, after, id, action),
    ensures
        before is Some <==> after is Some,
{
}

// ---------------------------------------------------------------------------
// Syncing
// ---------------------------------------------------------------------------

/// An account needs a refresh exactly where it has no inbox, or where at least so many seconds
/// have passed since its inbox was fetched.
pub proof fn law_needing_a_refresh(account: AccountState, now: Timestamp, stale_after: u64)
    ensures
        account.inbox is None ==> account.is_stale(now, stale_after),
        account.inbox matches Some(inbox) ==> {
            let at = inbox.fetched_at;
            now.nanos < 1000000000 && at.nanos < 1000000000 ==> (account.is_stale(now, stale_after)
                <==> now.secs - at.secs > stale_after || (now.secs - at.secs == stale_after
                && now.nanos >= at.nanos))
        },
{
}

/// An account is due exactly where no sync of it is under way and it has no inbox or one that
/// was fetched at least 180 seconds ago.
pub proof fn law_due_after_three_minutes(account: AccountState, now: Timestamp)
    ensures
        account.pending_job ==> !due_for_refresh(account, now),
        !account.pending_job && account.inbox is None ==> due_for_refresh(account, now),
        !account.pending_job ==> (account.inbox matches Some(inbox) ==> {
            let at = inbox.fetched_at;
            now.nanos < 1000000000 && at.nanos < 1000000000 ==> (due_for_refresh(account, now)
                <==> now.secs - at.secs > 180 || (now.secs - at.secs == 180 && now.nanos
                >= at.nanos))
        }),
{
}

/// An account of which a sync has been started has one under way and no error; all else of it
/// is as before.
pub proof fn law_starting_a_sync(account: AccountState)
    ensures
        syncing(account).pending_job,
        syncing(account).last_error is None,
        syncing(account).profile == account.profile,
        syncing(account).inbox == account.inbox,
        syncing(account).inflight_done == account.inflight_done,
        syncing(account).highlights == account.highlights,
        syncing(account).new_notification_ids == account.new_notification_ids,
        syncing(account).expanded == account.expanded,
        syncing(account).search_query == account.search_query,
        syncing(account).view_mode == account.view_mode,
        syncing(account).review_outputs == account.review_outputs,
{
}

/// A refresh starts a sync of an account exactly where none is under way and its inbox is
/// missing or at least 180 seconds old, lists exactly those accounts, from the first to the
/// last, and changes no other.
pub proof fn law_refreshing(
    before: Seq<AccountState>,
    after: Seq<AccountState>,
    started: Seq<usize>,
    now: Timestamp,
    i: int,
)
    requires
        refreshed(before, after, started, now),
        0 <= i < before.len(),
        now.nanos < 1000000000,
        before[i].inbox matches Some(inbox) ==> inbox.fetched_at.nanos < 1000000000,
    ensures
        ({
            let due = !before[i].pending_job && match before[i].inbox {
                None => true,
                Some(inbox) => now.secs - inbox.fetched_at.secs > 180 || (now.secs
                    - inbox.fetched_at.secs == 180 && now.nanos >= inbox.fetched_at.nanos),
            };
            &&& due ==> after[i].pending_job && after[i].last_error is None
            &&& !due ==> after[i] == before[i]
            &&& due <==> exists|k: int| 0 <= k < started.len() && #[trigger] started[k] == i
        }),
        after.len() == before.len(),
        after[i].profile == before[i].profile,
        after[i].inbox == before[i].inbox,
{
    law_due_after_three_minutes(before[i], now);
}

/// A sync that succeeded brings its inbox in place of the old one and clears the error; the
/// threads that were new stay so and new ones join them; the sections that were highlighted
/// stay so and those that have more unread or more updated notifications join them. All else
/// is as before.
pub proof fn law_syncing_brings_the_inbox(
    before: AccountState,
    after: AccountState,
    inbox: InboxSnapshot,
    id: Seq<char>,
    kind: SectionKind,
)
    requires
        after.synced_from(before, inbox),
    ensures
        after.inbox == Some(inbox),
        !after.pending_job,
        after.last_error is None,
        before.inbox is None ==> (after.new_notification_ids@.contains(id)
            <==> before.new_notification_ids@.contains(id)) && (after.highlights.has(kind)
            <==> before.highlights.has(kind)),
        before.inbox matches Some(previous) ==> (after.new_notification_ids@.contains(id)
            <==> before.new_notification_ids@.contains(id) || ((exists|i: int|
            0 <= i < inbox.notifications@.len() && (#[trigger] inbox.notifications@[i]).thread_id@
                == id) && (forall|j: int|
            0 <= j < previous.notifications@.len() ==> (#[trigger] previous.notifications@[j]).thread_id@
                != id))) && (after.highlights.has(kind) <==> before.highlights.has(kind)
            || unseen_in(inbox.notifications@, kind) > unseen_in(previous.notifications@, kind)
            || updated_in(inbox.notifications@, kind) > updated_in(previous.notifications@, kind)),
        after.profile == before.profile,
        after.inflight_done == before.inflight_done,
        after.expanded == before.expanded,
        after.search_query == before.search_query,
        after.view_mode == before.view_mode,
        after.review_outputs == before.review_outputs,
{
}

/// A set of sections holds a section exactly where its place says so.
pub proof fn law_sets_of_sections(set: SectionSet)
    ensures
        set.has(SectionKind::Inbox) == set.inbox,
        set.has(SectionKind::ReviewRequests) == set.review_requests,
        set.has(SectionKind::Mentions) == set.mentions,
        set.has(SectionKind::Notifications) == set.notifications,
{
}

/// A fresh account has its profile and nothing else: no inbox, no error, no action under way,
/// no highlight, nothing new, nothing searched for and no review. Its notifications are shown,
/// in one list.
pub proof fn law_fresh_accounts(account: AccountState, profile: GitHubAccount, id: Seq<char>)
    requires
        account.is_fresh(profile),
    ensures
        account.profile == profile,
        account.inbox is None,
        account.last_error is None,
        !account.inflight_done@.contains(id),
        !account.new_notification_ids@.contains(id),
        !account.highlights.inbox && !account.highlights.review_requests
            && !account.highlights.mentions && !account.highlights.notifications,
        account.expanded,
        account.search_query@.len() == 0,
        account.view_mode == AccountViewMode::Inbox,
        !account.review_outputs@.dom().contains(id),
{
    assert(!account.highlights.has(SectionKind::Inbox));
    assert(!account.highlights.has(SectionKind::ReviewRequests));
    assert(!account.highlights.has(SectionKind::Mentions));
    assert(!account.highlights.has(SectionKind::Notifications));
}

// ---------------------------------------------------------------------------
// Reviews
// ---------------------------------------------------------------------------

/// A review that has been reported to have ended stands as its outcome says, with the time of
/// the report; all else of it is as before.
pub proof fn law_ended_reviews(
    before: ReviewOutputState,
    message: MessageView,
    after: ReviewOutputState,
)
    requires
        reported(before, message, after),
        message is Finished,
    ensures
        after.status == ReviewStatus::Completed <==> message->outcome is Completed,
        after.status == ReviewStatus::Cancelled <==> message->outcome is Cancelled,
        after.status == ReviewStatus::Failed <==> message->outcome is Failed,
        after.captured_at == Some(message->captured_at),
        after.thread_id == before.thread_id,
        after.target == before.target,
        after.command_label == before.command_label,
        after.terminal == before.terminal,
        after.styled_spans == before.styled_spans,
        after.content == before.content,
        after.open == before.open,
        after.dropped_chars == before.dropped_chars,
{
}

/// Output of a review is played into its terminal behind what was played before, and its last
/// 20000 characters are shown; how it stands and whether its window is open stays as it was.
pub proof fn law_output_is_shown(
    before: ReviewOutputState,
    message: MessageView,
    after: ReviewOutputState,
)
    requires
        reported(before, message, after),
        message is Append,
    ensures
        after.terminal@ == before.terminal@ + message->bytes,
        ({
            let text = screen_text(screen_after(before.terminal@ + message->bytes));
            let dropped = if text.len() > 20000 {
                text.len() - 20000
            } else {
                0
            };
            &&& after.dropped_chars == dropped
            &&& flattened(after.styled_spans@) == text.skip(dropped)
            &&& after.content@ == plain_text(text.skip(dropped))
        }),
        after.thread_id == before.thread_id,
        after.target == before.target,
        after.command_label == before.command_label,
        after.captured_at == before.captured_at,
        after.open == before.open,
        after.status == before.status,
{
}

/// A message is about the thread that it names.
pub proof fn law_messages_name_their_thread(message: MessageView)
    ensures
        message matches MessageView::Append { thread_id, .. } ==> thread_of(message) == thread_id,
        message matches MessageView::Finished { thread_id, .. } ==> thread_of(message) == thread_id,
{
}

/// A review that has just been launched runs, in an open window with nothing in it, under the
/// name of its repository and the number of its pull request.
pub proof fn law_launched_reviews(
    state: ReviewOutputState,
    thread_id: Seq<char>,
    launch: ReviewLaunchPlan,
)
    requires
        just_launched(state, thread_id, launch),
    ensures
        state.thread_id@ == thread_id,
        launch matches ReviewLaunchPlan::Custom { repo, pr_number, .. } ==> state.target@ == repo@
            + "#"@ + decimal(pr_number as nat),
        state.command_label@ == "review-pr"@,
        state.status == ReviewStatus::Running,
        state.open,
        state.captured_at is None,
        state.terminal@.len() == 0,
        state.styled_spans@.len() == 0,
        state.content@.len() == 0,
        state.dropped_chars == 0,
{
}

/// The reviews that run are those that stand so, and the open windows those that are open.
pub proof fn law_reviews_by_state(outputs: Map<Seq<char>, ReviewOutputState>, id: Seq<char>)
    ensures
        running_reviews(outputs).contains(id) <==> outputs.dom().contains(id) && outputs[id].status
            == ReviewStatus::Running,
        open_windows(outputs).contains(id) <==> outputs.dom().contains(id) && outputs[id].open,
{
}

/// A review of some account runs exactly where one of its reviews stands so.
pub proof fn law_any_review(app: ReminderApp)
    ensures
        app.any_review_runs() <==> exists|i: int, id: Seq<char>|
            0 <= i < app.accounts@.len() && #[trigger]
                app.accounts@[i].review_outputs@.dom().contains(id)
                && app.accounts@[i].review_outputs@[id].status == ReviewStatus::Running,
{
    if app.any_review_runs() {
        let (i, id) = choose|i: int, id: Seq<char>|
            0 <= i < app.accounts@.len() && #[trigger] running_reviews(
                app.accounts@[i].review_outputs@,
            ).contains(id);
        assert(app.accounts@[i].review_outputs@.dom().contains(id));
    }
    assert forall|i: int, id: Seq<char>|
        0 <= i < app.accounts@.len() && #[trigger]
            app.accounts@[i].review_outputs@.dom().contains(id)
            && app.accounts@[i].review_outputs@[id].status == ReviewStatus::Running implies app.any_review_runs() by {
        assert(running_reviews(app.accounts@[i].review_outputs@).contains(id));
    }
}

// ---------------------------------------------------------------------------
// Answers
// ---------------------------------------------------------------------------

/// A look that finds nothing yet changes nothing. One that finds an error, or the worker gone,
/// ends the sync and tells the error, and keeps the inbox and all else. One that finds an
/// inbox brings it.
pub proof fn law_looks_for_results(before: AccountState, poll: JobPoll, after: AccountState)
    requires
        polled(before, poll, after),
    ensures
        poll is Pending ==> after == before,
        poll is Gone || (poll matches JobPoll::Ready(Err(_))) ==> {
            &&& !after.pending_job
            &&& after.last_error is Some
            &&& after.inbox == before.inbox
            &&& after.profile == before.profile
            &&& after.inflight_done == before.inflight_done
            &&& after.highlights == before.highlights
            &&& after.new_notification_ids == before.new_notification_ids
            &&& after.review_outputs == before.review_outputs
            &&& after.expanded == before.expanded
            &&& after.search_query == before.search_query
            &&& after.view_mode == before.view_mode
        },
        poll is Gone ==> (after.last_error matches Some(said) && said@ == fetch_error_text(
            FetchErrorView::BackgroundWorkerGone,
        )),
        poll matches JobPoll::Ready(Err(error)) ==> (after.last_error matches Some(said) && said@
            == fetch_error_text(error@)),
        poll matches JobPoll::Ready(Ok(inbox)) ==> after.inbox == Some(inbox) && !after.pending_job
            && after.last_error is None && after.synced_from(before, inbox),
{
}

/// A sync is started exactly where none is under way; it clears the error and leaves all else.
pub proof fn law_asking_for_a_sync(before: AccountState, after: AccountState, started: bool)
    requires
        refresh_asked_for(before, after, started),
    ensures
        started <==> !before.pending_job,
        after.pending_job,
        started ==> after == syncing(before),
        !started ==> after == before,
{
}

/// An action on a thread is started exactly where none is under way for it; after that one is,
/// and nothing else has changed.
pub proof fn law_asking_for_an_action(
    before: AccountState,
    id: Seq<char>,
    after: AccountState,
    started: bool,
    other: Seq<char>,
)
    requires
        action_requested(before, id, after, started),
    ensures
        started <==> !before.inflight_done@.contains(id),
        after.inflight_done@.contains(other) <==> before.inflight_done@.contains(other) || other
            == id,
        after.inbox == before.inbox,
        after.last_error == before.last_error,
        after.pending_job == before.pending_job,
        after.review_outputs == before.review_outputs,
        after.new_notification_ids == before.new_notification_ids,
        after.highlights == before.highlights,
        after.profile == before.profile,
{
}

/// After its answer no action on the thread is under way, and others are as they were. Success
/// files the thread away or marks it as read, and failure changes nothing in the inbox and is
/// told.
pub proof fn law_answered_actions(
    before: AccountState,
    id: Seq<char>,
    action: ThreadAction,
    outcome: Result<(), FetchError>,
    after: AccountState,
    other: Seq<char>,
    item: NotificationItem,
)
    requires
        action_answered(before, id, action, outcome, after),
    ensures
        after.inflight_done@.contains(other) <==> before.inflight_done@.contains(other) && other
            != id,
        outcome matches Err(error) ==> after.inbox == before.inbox && (
        after.last_error matches Some(said) && said@ == fetch_error_text(error@)),
        outcome is Ok ==> after.last_error == before.last_error && acted_on(
            before.inbox,
            after.inbox,
            id,
            action,
        ),
        outcome is Ok && action == ThreadAction::Done ==> (before.inbox matches Some(was) ==> (
        after.inbox matches Some(is) && (is.notifications@.contains(item)
            <==> was.notifications@.contains(item) && item.thread_id@ != id))),
        outcome is Ok && action == ThreadAction::Read ==> (before.inbox matches Some(was) ==> (
        after.inbox matches Some(is) && thread_seen(was.notifications@, is.notifications@, id))),
        after.pending_job == before.pending_job,
        after.review_outputs == before.review_outputs,
        after.new_notification_ids == before.new_notification_ids,
        after.highlights == before.highlights,
        after.profile == before.profile,
{
    if outcome is Ok && action == ThreadAction::Done {
        if let (Some(was), Some(is)) = (before.inbox, after.inbox) {
            law_filing_a_thread_away(was, is, id, item);
        }
    }
}

/// A review is started exactly where none runs for the thread; it takes the place of an ended
/// one, and all other reviews stay as they are.
pub proof fn law_asking_for_a_review(
    before: AccountState,
    id: Seq<char>,
    launch: ReviewLaunchPlan,
    after: AccountState,
    started: bool,
    other: Seq<char>,
)
    requires
        review_asked_for(before, id, launch, after, started),
    ensures
        started <==> !(before.review_outputs@.dom().contains(id) && before.review_outputs@[id].status
            == ReviewStatus::Running),
        !started ==> after == before,
        after.review_outputs@.dom().contains(id),
        after.review_outputs@[id].status == ReviewStatus::Running,
        started ==> just_launched(after.review_outputs@[id], id, launch),
        other != id ==> (after.review_outputs@.dom().contains(other)
            <==> before.review_outputs@.dom().contains(other)),
        other != id && before.review_outputs@.dom().contains(other) ==> after.review_outputs@[other]
            == before.review_outputs@[other],
        after.inbox == before.inbox,
        after.last_error == before.last_error,
        after.inflight_done == before.inflight_done,
        after.pending_job == before.pending_job,
        after.profile == before.profile,
{
}

/// A message changes the review that it names, where it is there, and no other; only one that
/// tells of a failure is told as an error.
pub proof fn law_messages_from_reviews(
    before: AccountState,
    message: MessageView,
    after: AccountState,
    other: Seq<char>,
)
    requires
        message_taken_up(before, message, after),
    ensures
        after.review_outputs@.dom() == before.review_outputs@.dom(),
        before.review_outputs@.dom().contains(thread_of(message)) ==> reported(
            before.review_outputs@[thread_of(message)],
            message,
            after.review_outputs@[thread_of(message)],
        ),
        other != thread_of(message) && before.review_outputs@.dom().contains(other)
            ==> after.review_outputs@[other] == before.review_outputs@[other],
        message matches MessageView::Finished { outcome: OutcomeView::Failed(text), .. } ==> (
        after.last_error matches Some(said) && said@ == text),
        !(message matches MessageView::Finished { outcome: OutcomeView::Failed(_), .. })
            ==> after.last_error == before.last_error,
        after.inbox == before.inbox,
        after.inflight_done == before.inflight_done,
        after.pending_job == before.pending_job,
        after.profile == before.profile,
        after.new_notification_ids == before.new_notification_ids,
{
    assert(after.review_outputs@.dom() =~= before.review_outputs@.dom());
}

/// The window of a review is opened or closed; all else of it, and all others, stays.
pub proof fn law_toggled_windows(
    before: AccountState,
    id: Seq<char>,
    after: AccountState,
    other: Seq<char>,
)
    requires
        window_toggled(before, id, after),
    ensures
        open_windows(after.review_outputs@).contains(id) <==> before.review_outputs@.dom().contains(
            id,
        ) && !open_windows(before.review_outputs@).contains(id),
        other != id ==> (open_windows(after.review_outputs@).contains(other) <==> open_windows(
            before.review_outputs@,
        ).contains(other)),
        running_reviews(after.review_outputs@) == running_reviews(before.review_outputs@),
        after.inbox == before.inbox,
        after.last_error == before.last_error,
        after.inflight_done == before.inflight_done,
        after.pending_job == before.pending_job,
{
    assert(running_reviews(after.review_outputs@) =~= running_reviews(before.review_outputs@));
}

/// Stopping a review changes nothing by itself; that it could not be stopped is told.
pub proof fn law_answered_stops(before: AccountState, answer: Result<bool, String>, after: AccountState)
    requires
        stop_answered(before, answer, after),
    ensures
        answer is Ok ==> after == before,
        answer matches Err(message) ==> (after.last_error matches Some(said) && said@ == message@),
        after.review_outputs == before.review_outputs,
        after.inbox == before.inbox,
        after.inflight_done == before.inflight_done,
        after.pending_job == before.pending_job,
{
}

} // verus!

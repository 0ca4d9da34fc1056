//! The state of one tracked account.
use vstd::prelude::*;

use crate::app::notification_state::{
    add_new_notification_ids, counts_section, new_threads, section_grew, section_stats, SectionKind,
    SectionStats,
};
use crate::app::review::{initial_review_output_state, target_of, ReviewLaunchPlan};
use crate::app::review_job::{MessageView, OutcomeView, ReviewJobMessage};
use crate::app::review_output::{
    append_review_chunk, same_but_output, screen_text, ReviewOutputState, ReviewStatus,
};
use crate::app::terminal::screen_after;
use crate::app::CUSTOM_REVIEW_COMMAND_NAME;
use crate::domain::{opt_text, GitHubAccount, InboxSnapshot, NotificationItem};
use crate::github::{fetch_error_text, FetchError, FetchErrorView, FetchOutcome};
use crate::text::text_eq;
use crate::text_map::TextMap;
use crate::time::Timestamp;
use vstd::hash_set::StringHashSet;

verus! {

// ---------------------------------------------------------------------------
// Sets of sections
// ---------------------------------------------------------------------------

/// A set of sections.
#[derive(Clone, Copy, Debug, PartialEq, Eq, Structural)]
pub struct SectionSet {
    pub inbox: bool,
    pub review_requests: bool,
    pub mentions: bool,
    pub notifications: bool,
}

impl SectionSet {
    /// Whether a section is in the set.
    pub open spec fn has(self, kind: SectionKind) -> bool {
        match kind {
            SectionKind::Inbox => self.inbox,
            SectionKind::ReviewRequests => self.review_requests,
            SectionKind::Mentions => self.mentions,
            SectionKind::Notifications => self.notifications,
        }
    }

    /// The empty set.
    pub fn new() -> (set: Self)
        ensures
            forall|kind: SectionKind| !#[trigger] set.has(kind),
    {
        SectionSet { inbox: false, review_requests: false, mentions: false, notifications: false }
    }

    /// Whether a section is in the set.
    pub fn contains(&self, kind: &SectionKind) -> (found: bool)
        ensures
            found == self.has(*kind),
    {
        match kind {
            SectionKind::Inbox => self.inbox,
            SectionKind::ReviewRequests => self.review_requests,
            SectionKind::Mentions => self.mentions,
            SectionKind::Notifications => self.notifications,
        }
    }

    /// Puts a section in or takes it out.
    fn assign(&mut self, kind: SectionKind, present: bool)
        ensures
            forall|other: SectionKind| #[trigger]
                final(self).has(other) == if other == kind {
                    present
                } else {
                    old(self).has(other)
                },
    {
        match kind {
            SectionKind::Inbox => {
                self.inbox = present;
            },
            SectionKind::ReviewRequests => {
                self.review_requests = present;
            },
            SectionKind::Mentions => {
                self.mentions = present;
            },
            SectionKind::Notifications => {
                self.notifications = present;
            },
        }
    }

    /// Puts a section in.
    pub fn insert(&mut self, kind: SectionKind)
        ensures
            forall|other: SectionKind| #[trigger]
                final(self).has(other) == (old(self).has(other) || other == kind),
    {
        self.assign(kind, true);
    }

    /// Takes a section out.
    pub fn remove(&mut self, kind: &SectionKind)
        ensures
            forall|other: SectionKind| #[trigger]
                final(self).has(other) == (old(self).has(other) && other != *kind),
    {
        self.assign(*kind, false);
    }
}

// ---------------------------------------------------------------------------
// The account
// ---------------------------------------------------------------------------

/// How the notifications of an account are listed.
#[derive(Clone, Copy, Debug, PartialEq, Eq, Structural)]
pub enum AccountViewMode {
    /// All in one list.
    Inbox,
    /// By section.
    Grouped,
}

/// A tracked account with what is known of it and what is under way for it.
pub struct AccountState {
    pub profile: GitHubAccount,
    pub inbox: Option<InboxSnapshot>,
    pub last_error: Option<String>,
    /// Whether a sync is under way.
    pub pending_job: bool,
    /// The threads for which an action is under way.
    pub inflight_done: StringHashSet,
    /// The sections that have grown since they were last shown.
    pub highlights: SectionSet,
    pub new_notification_ids: StringHashSet,
    pub expanded: bool,
    pub search_query: String,
    pub view_mode: AccountViewMode,
    pub review_outputs: TextMap<ReviewOutputState>,
}

/// What came of a look for the result of a sync.
pub enum JobPoll {
    /// There is none yet.
    Pending,
    Ready(FetchOutcome),
    /// The worker is gone.
    Gone,
}

/// An action on a thread of the notifications.
#[derive(Clone, Copy, Debug, PartialEq, Eq, Structural)]
pub enum ThreadAction {
    Done,
    Read,
}

/// Whether one of the counts of a section has grown.
pub open spec fn has_grown(before: SectionStats, after: SectionStats, kind: SectionKind) -> bool {
    after.of(kind).grew_from(before.of(kind))
}

/// Whether `item` is `before` once it has been seen: read, and not to be revisited.
pub open spec fn seen_from(before: NotificationItem, item: NotificationItem) -> bool {
    item == (NotificationItem {
        unread: false,
        last_read_at: Some(before.updated_at),
        ..before
    })
}

/// Whether `after` are the notifications `before` with the thread `id` seen.
pub open spec fn thread_seen(
    before: Seq<NotificationItem>,
    after: Seq<NotificationItem>,
    id: Seq<char>,
) -> bool {
    &&& after.len() == before.len()
    &&& forall|i: int|
        0 <= i < after.len() ==> if before[i].thread_id@ == id {
            seen_from(before[i], #[trigger] after[i])
        } else {
            after[i] == before[i]
        }
}

/// Picks out notifications of other threads than `id`.
pub open spec fn of_other_threads(id: Seq<char>) -> spec_fn(NotificationItem) -> bool {
    |item: NotificationItem| item.thread_id@ != id
}

/// Marks the thread `id` as seen.
fn see_thread(items: &mut Vec<NotificationItem>, id: &str)
    ensures
        thread_seen(old(items)@, final(items)@, id@),
{
    let ghost before = items@;
    let mut i: usize = 0;
    while i < items.len()
        invariant
            i <= items@.len(),
            items@.len() == before.len(),
            forall|j: int|
                0 <= j < i ==> if before[j].thread_id@ == id@ {
                    seen_from(before[j], #[trigger] items@[j])
                } else {
                    items@[j] == before[j]
                },
            forall|j: int| i <= j < items@.len() ==> items@[j] == before[j],
        decreases items@.len() - i,
    {
        if text_eq(items[i].thread_id.as_str(), id) {
            let updated_at: Timestamp = items[i].updated_at;
            let item: &mut NotificationItem = &mut items[i];
            item.unread = false;
            item.last_read_at = Some(updated_at);
        }
        i = i + 1;
    }
}

/// Takes the thread `id` out.
fn drop_thread(items: &mut Vec<NotificationItem>, id: &str)
    ensures
        final(items)@ == old(items)@.filter(of_other_threads(id@)),
{
    let ghost before = items@;
    let mut rest: Vec<NotificationItem> = Vec::new();
    core::mem::swap(&mut rest, items);
    let count: usize = rest.len();
    let mut taken: usize = 0;
    proof {
        reveal(Seq::filter);
        assert(before.take(0).filter(of_other_threads(id@)) =~= Seq::<NotificationItem>::empty());
        assert(rest@ =~= before.skip(0));
    }
    while taken < count
        invariant
            taken <= count,
            count == before.len(),
            rest@ == before.skip(taken as int),
            items@ == before.take(taken as int).filter(of_other_threads(id@)),
        decreases count - taken,
    {
        let item: NotificationItem = rest.remove(0);
        proof {
            reveal(Seq::filter);
            assert(item == before[taken as int]);
            assert(before.take(taken + 1).drop_last() =~= before.take(taken as int));
        }
        if !text_eq(item.thread_id.as_str(), id) {
            items.push(item);
        }
        taken = taken + 1;
        proof {
            assert(rest@ =~= before.skip(taken as int));
        }
    }
    proof {
        assert(before.take(taken as int) =~= before);
    }
}

/// Whether the time from `since` to `now` is at least `secs` seconds.
pub open spec fn passed_at_least(since: Timestamp, now: Timestamp, secs: int) -> bool {
    (now.secs - since.secs) * 1000000000 + (now.nanos - since.nanos) >= secs * 1000000000
}

/// Whether `after` is the account `before` after a look for the result of a sync that found
/// `poll`.
pub open spec fn polled(before: AccountState, poll: JobPoll, after: AccountState) -> bool {
    match poll {
        JobPoll::Pending => after == before,
        JobPoll::Gone => {
            &&& opt_text(after.last_error) == Some(
                fetch_error_text(FetchErrorView::BackgroundWorkerGone),
            )
            &&& after == (AccountState {
                pending_job: false,
                last_error: after.last_error,
                ..before
            })
        },
        JobPoll::Ready(Err(error)) => {
            &&& opt_text(after.last_error) == Some(fetch_error_text(error@))
            &&& after == (AccountState {
                pending_job: false,
                last_error: after.last_error,
                ..before
            })
        },
        JobPoll::Ready(Ok(inbox)) => after.synced_from(before, inbox),
    }
}

/// Whether `after` is the account `before` once a sync has been asked for, and `started` says
/// whether it is to be started.
pub open spec fn refresh_asked_for(before: AccountState, after: AccountState, started: bool) -> bool {
    &&& started == !before.pending_job
    &&& after == if started {
        AccountState { pending_job: true, last_error: None, ..before }
    } else {
        before
    }
}

impl AccountState {
    /// Whether nothing is known of the account yet beside its profile.
    pub open spec fn is_fresh(self, profile: GitHubAccount) -> bool {
        &&& self.profile == profile
        &&& self.inbox is None
        &&& self.last_error is None
        &&& self.inflight_done@ == Set::<Seq<char>>::empty()
        &&& forall|kind: SectionKind| !#[trigger] self.highlights.has(kind)
        &&& self.new_notification_ids@ == Set::<Seq<char>>::empty()
        &&& self.expanded
        &&& self.search_query@ == Seq::<char>::empty()
        &&& self.view_mode == AccountViewMode::Inbox
        &&& self.review_outputs@ == Map::<Seq<char>, ReviewOutputState>::empty()
    }

    /// An account that has just been added.
    pub fn new(profile: GitHubAccount) -> (account: Self)
        ensures
            account.is_fresh(profile),
            !account.pending_job,
    {
        AccountState {
            profile,
            inbox: None,
            last_error: None,
            pending_job: false,
            inflight_done: StringHashSet::new(),
            highlights: SectionSet::new(),
            new_notification_ids: StringHashSet::new(),
            expanded: true,
            search_query: String::new(),
            view_mode: AccountViewMode::Inbox,
            review_outputs: TextMap::new(),
        }
    }

    // -----------------------------------------------------------------------
    // Syncing
    // -----------------------------------------------------------------------

    /// Starts a sync unless one is under way, and says whether it did.
    pub fn start_refresh(&mut self) -> (started: bool)
        ensures
            refresh_asked_for(*old(self), *final(self), started),
    {
        if self.pending_job {
            return false;
        }
        self.pending_job = true;
        self.last_error = None;
        true
    }

    /// Whether the last sync is `stale_after` seconds old, or there has been none.
    pub open spec fn is_stale(self, now: Timestamp, stale_after: u64) -> bool {
        match self.inbox {
            Some(inbox) => passed_at_least(inbox.fetched_at, now, stale_after as int),
            None => true,
        }
    }

    /// Whether the last sync is `stale_after` seconds old, or there has been none.
    pub fn needs_refresh(&self, now: Timestamp, stale_after: u64) -> (stale: bool)
        ensures
            stale == self.is_stale(now, stale_after),
    {
        match &self.inbox {
            Some(inbox) => {
                let secs: i128 = now.secs as i128 - inbox.fetched_at.secs as i128;
                let nanos: i128 = now.nanos as i128 - inbox.fetched_at.nanos as i128;
                secs * 1000000000 + nanos >= stale_after as i128 * 1000000000
            },
            None => true,
        }
    }

    /// Takes up what came of a look for the result of a sync.
    pub fn poll_job(&mut self, poll: JobPoll)
        ensures
            polled(*old(self), poll, *final(self)),
    {
        match poll {
            JobPoll::Pending => {},
            JobPoll::Gone => {
                self.pending_job = false;
                self.last_error = Some(FetchError::BackgroundWorkerGone.message());
            },
            JobPoll::Ready(Err(error)) => {
                self.pending_job = false;
                self.last_error = Some(error.message());
            },
            JobPoll::Ready(Ok(inbox)) => {
                self.take_inbox(inbox);
            },
        }
    }

    /// Whether this is the account `before` after a sync that brought `inbox`: the new
    /// threads are noted, the sections that grew are highlighted, and the inbox is the new
    /// one.
    pub open spec fn synced_from(self, before: AccountState, inbox: InboxSnapshot) -> bool {
        &&& self == (AccountState {
            pending_job: false,
            last_error: None,
            inbox: Some(inbox),
            new_notification_ids: self.new_notification_ids,
            highlights: self.highlights,
            ..before
        })
        &&& self.new_notification_ids@ == before.new_notification_ids@.union(
            new_threads(before.inbox, inbox),
        )
        &&& match before.inbox {
            None => self.highlights == before.highlights,
            Some(previous) => forall|kind: SectionKind| #[trigger]
                self.highlights.has(kind) == (before.highlights.has(kind) || section_grew(
                    previous.notifications@,
                    inbox.notifications@,
                    kind,
                )),
        }
    }

    fn take_inbox(&mut self, inbox: InboxSnapshot)
        ensures
            final(self).synced_from(*old(self), inbox),
    {
        match &self.inbox {
            Some(previous) => {
                add_new_notification_ids(&mut self.new_notification_ids, Some(previous), &inbox);
                let was: SectionStats = section_stats(previous);
                let is: SectionStats = section_stats(&inbox);
                highlight_growth(&mut self.highlights, &was, &is);
                proof {
                    assert forall|kind: SectionKind| has_grown(was, is, kind) == section_grew(
                        previous.notifications@,
                        inbox.notifications@,
                        kind,
                    ) by {
                        assert(counts_section(was.of(kind), previous.notifications@, kind));
                        assert(counts_section(is.of(kind), inbox.notifications@, kind));
                    }
                }
            },
            None => {
                proof {
                    assert(self.new_notification_ids@.union(Set::empty())
                        =~= self.new_notification_ids@);
                }
            },
        }
        self.inbox = Some(inbox);
        self.pending_job = false;
        self.last_error = None;
    }

    /// Forgets which notifications are new.
    pub fn clear_new_notifications(&mut self)
        ensures
            final(self).new_notification_ids@ == Set::<Seq<char>>::empty(),
            *final(self) == (AccountState {
                new_notification_ids: final(self).new_notification_ids,
                ..*old(self)
            }),
    {
        self.new_notification_ids.clear();
    }
}

/// Highlights the sections that have grown.
fn highlight_growth(highlights: &mut SectionSet, was: &SectionStats, is: &SectionStats)
    ensures
        forall|kind: SectionKind| #[trigger]
            final(highlights).has(kind) == (old(highlights).has(kind) || has_grown(
                *was,
                *is,
                kind,
            )),
{
    if is.inbox.bumped_since(&was.inbox) {
        highlights.insert(SectionKind::Inbox);
    }
    if is.review_requests.bumped_since(&was.review_requests) {
        highlights.insert(SectionKind::ReviewRequests);
    }
    if is.mentions.bumped_since(&was.mentions) {
        highlights.insert(SectionKind::Mentions);
    }
    if is.notifications.bumped_since(&was.notifications) {
        highlights.insert(SectionKind::Notifications);
    }
}

// ---------------------------------------------------------------------------
// Actions on threads
// ---------------------------------------------------------------------------

/// Whether `after` is the inbox `before` once an action on the thread `id` has been done.
pub open spec fn acted_on(
    before: Option<InboxSnapshot>,
    after: Option<InboxSnapshot>,
    id: Seq<char>,
    action: ThreadAction,
) -> bool {
    match (before, after) {
        (None, None) => true,
        (Some(was), Some(is)) => {
            &&& is == (InboxSnapshot { notifications: is.notifications, ..was })
            &&& match action {
                ThreadAction::Done => is.notifications@ == was.notifications@.filter(
                    of_other_threads(id),
                ),
                ThreadAction::Read => thread_seen(was.notifications@, is.notifications@, id),
            }
        },
        _ => false,
    }
}

/// Whether `after` is the account `before` after the answer `outcome` to an action on the
/// thread `id`.
pub open spec fn action_answered(
    before: AccountState,
    id: Seq<char>,
    action: ThreadAction,
    outcome: Result<(), FetchError>,
    after: AccountState,
) -> bool {
    &&& after.inflight_done@ == before.inflight_done@.remove(id)
    &&& match outcome {
        Ok(_) => {
            &&& acted_on(before.inbox, after.inbox, id, action)
            &&& after.last_error == before.last_error
        },
        Err(error) => {
            &&& after.inbox == before.inbox
            &&& opt_text(after.last_error) == Some(fetch_error_text(error@))
        },
    }
    &&& after == (AccountState {
        inflight_done: after.inflight_done,
        inbox: after.inbox,
        last_error: after.last_error,
        ..before
    })
}

/// Whether `after` is the account `before` once an action on the thread `id` has been asked
/// for, and `started` says whether it is to be started.
pub open spec fn action_requested(
    before: AccountState,
    id: Seq<char>,
    after: AccountState,
    started: bool,
) -> bool {
    &&& started == !before.inflight_done@.contains(id)
    &&& after.inflight_done@ == before.inflight_done@.insert(id)
    &&& after == (AccountState {
        inflight_done: after.inflight_done,
        ..before
    })
}

impl AccountState {
    /// Notes that an action on the thread is under way, and says whether it was not yet.
    fn request_action(&mut self, thread_id: String) -> (started: bool)
        ensures
            action_requested(*old(self), thread_id@, *final(self), started),
    {
        self.inflight_done.insert(thread_id)
    }

    /// Starts filing the thread away unless an action on it is under way, and says whether
    /// it did.
    pub fn request_mark_done(&mut self, thread_id: String) -> (started: bool)
        ensures
            action_requested(*old(self), thread_id@, *final(self), started),
    {
        self.request_action(thread_id)
    }

    /// Starts marking the thread as read unless an action on it is under way, and says
    /// whether it did.
    pub fn request_mark_read(&mut self, thread_id: String) -> (started: bool)
        ensures
            action_requested(*old(self), thread_id@, *final(self), started),
    {
        self.request_action(thread_id)
    }

    /// Takes up what came of an action on a thread.
    pub fn poll_action_jobs(
        &mut self,
        thread_id: &str,
        action: ThreadAction,
        outcome: Result<(), FetchError>,
    )
        ensures
            action_answered(*old(self), thread_id@, action, outcome, *final(self)),
    {
        let _ = self.inflight_done.remove(thread_id);
        match outcome {
            Ok(_) => {
                if let Some(inbox) = &mut self.inbox {
                    match action {
                        ThreadAction::Done => {
                            drop_thread(&mut inbox.notifications, thread_id);
                        },
                        ThreadAction::Read => {
                            see_thread(&mut inbox.notifications, thread_id);
                        },
                    }
                }
            },
            Err(error) => {
                self.last_error = Some(error.message());
            },
        }
    }

    /// Marks the thread as seen.
    pub fn mark_notification_seen(&mut self, thread_id: &str)
        ensures
            acted_on(old(self).inbox, final(self).inbox, thread_id@, ThreadAction::Read),
            *final(self) == (AccountState { inbox: final(self).inbox, ..*old(self) }),
    {
        if let Some(inbox) = &mut self.inbox {
            see_thread(&mut inbox.notifications, thread_id);
        }
    }
}

// ---------------------------------------------------------------------------
// Reviews
// ---------------------------------------------------------------------------

/// The threads with a review that runs.
pub open spec fn running_reviews(outputs: Map<Seq<char>, ReviewOutputState>) -> Set<Seq<char>> {
    Set::new(
        |id: Seq<char>| outputs.dom().contains(id) && outputs[id].status == ReviewStatus::Running,
    )
}

/// The threads whose review window is open.
pub open spec fn open_windows(outputs: Map<Seq<char>, ReviewOutputState>) -> Set<Seq<char>> {
    Set::new(|id: Seq<char>| outputs.dom().contains(id) && outputs[id].open)
}

/// How a review stands that ended so.
pub open spec fn status_after(outcome: OutcomeView) -> ReviewStatus {
    match outcome {
        OutcomeView::Completed => ReviewStatus::Completed,
        OutcomeView::Cancelled(_) => ReviewStatus::Cancelled,
        OutcomeView::Failed(_) => ReviewStatus::Failed,
    }
}

/// Whether `after` is the review `before` once `message` has been taken up.
pub open spec fn reported(
    before: ReviewOutputState,
    message: MessageView,
    after: ReviewOutputState,
) -> bool {
    match message {
        MessageView::Append { bytes, .. } => {
            &&& after.terminal@ == before.terminal@ + bytes
            &&& after.shows(screen_text(screen_after(before.terminal@ + bytes)))
            &&& same_but_output(after, before)
        },
        MessageView::Finished { captured_at, outcome, .. } => after == (ReviewOutputState {
            status: status_after(outcome),
            captured_at: Some(captured_at),
            ..before
        }),
    }
}

/// The thread that a message is about.
pub open spec fn thread_of(message: MessageView) -> Seq<char> {
    match message {
        MessageView::Append { thread_id, .. } => thread_id,
        MessageView::Finished { thread_id, .. } => thread_id,
    }
}

/// Whether `state` is the output of a review that has just been launched.
pub open spec fn just_launched(
    state: ReviewOutputState,
    thread_id: Seq<char>,
    launch: ReviewLaunchPlan,
) -> bool {
    &&& state.thread_id@ == thread_id
    &&& state.target@ == target_of(launch@)
    &&& state.command_label@ == CUSTOM_REVIEW_COMMAND_NAME@
    &&& state.captured_at is None
    &&& state.terminal@ == Seq::<u8>::empty()
    &&& state.styled_spans@.len() == 0
    &&& state.content@ == Seq::<char>::empty()
    &&& state.open
    &&& state.status == ReviewStatus::Running
    &&& state.dropped_chars == 0
}

/// Whether `after` is the account `before` once a review of the thread `id` has been asked for,
/// and `started` says whether it is to be started.
pub open spec fn review_asked_for(
    before: AccountState,
    id: Seq<char>,
    launch: ReviewLaunchPlan,
    after: AccountState,
    started: bool,
) -> bool {
    &&& started == !running_reviews(before.review_outputs@).contains(id)
    &&& !started ==> after == before
    &&& started ==> {
        &&& after.review_outputs@ == before.review_outputs@.insert(
            id,
            after.review_outputs@[id],
        )
        &&& just_launched(
            after.review_outputs@[id],
            id,
            launch,
        )
        &&& after == (AccountState {
            review_outputs: after.review_outputs,
            ..before
        })
    }
}

/// Whether `after` is the account `before` once a message from a review has been taken up.
pub open spec fn message_taken_up(
    before: AccountState,
    message: MessageView,
    after: AccountState,
) -> bool {
    &&& ({
        let id = thread_of(message);
        let had = before.review_outputs@;
        let has = after.review_outputs@;
        if had.dom().contains(id) {
            &&& has == had.insert(id, has[id])
            &&& reported(had[id], message, has[id])
        } else {
            has == had
        }
    })
    &&& match message {
        MessageView::Finished { outcome: OutcomeView::Failed(text), .. } => opt_text(
            after.last_error,
        ) == Some(text),
        _ => after.last_error == before.last_error,
    }
    &&& after == (AccountState {
        review_outputs: after.review_outputs,
        last_error: after.last_error,
        ..before
    })
}

/// Whether `after` is the account `before` with the window of the review of thread `id` opened
/// or closed.
pub open spec fn window_toggled(before: AccountState, id: Seq<char>, after: AccountState) -> bool {
    &&& after.review_outputs@ == if before.review_outputs@.dom().contains(id) {
        before.review_outputs@.insert(
            id,
            ReviewOutputState {
                open: !before.review_outputs@[id].open,
                ..before.review_outputs@[id]
            },
        )
    } else {
        before.review_outputs@
    }
    &&& after == (AccountState {
        review_outputs: after.review_outputs,
        ..before
    })
}

/// Whether `after` is the account `before` after the answer to the stopping of a review.
pub open spec fn stop_answered(
    before: AccountState,
    answer: Result<bool, String>,
    after: AccountState,
) -> bool {
    match answer {
        Ok(_) => after == before,
        Err(message) => {
            &&& opt_text(after.last_error) == Some(message@)
            &&& after == (AccountState {
                last_error: after.last_error,
                ..before
            })
        },
    }
}

impl AccountState {
    /// Starts a review of the thread unless one runs, and says whether it did.
    pub fn request_review(&mut self, thread_id: String, launch: &ReviewLaunchPlan) -> (started: bool)
        ensures
            review_asked_for(*old(self), thread_id@, *launch, *final(self), started),
    {
        if let Some(output) = self.review_outputs.get(thread_id.as_str()) {
            if output.status == ReviewStatus::Running {
                return false;
            }
        }
        let output: ReviewOutputState = initial_review_output_state(thread_id.clone(), launch);
        self.review_outputs.insert(thread_id, output);
        true
    }

    /// Takes up a message from a review.
    pub fn poll_review_job(&mut self, message: ReviewJobMessage)
        ensures
            message_taken_up(*old(self), message@, *final(self)),
    {
        match message {
            ReviewJobMessage::Append { thread_id, bytes } => {
                if let Some(mut output) = self.review_outputs.remove(thread_id.as_str()) {
                    append_review_chunk(&mut output, bytes.as_slice());
                    self.review_outputs.insert(thread_id, output);
                    proof {
                        let before = old(self).review_outputs@;
                        assert(before.remove(thread_id@).insert(thread_id@, output) =~= before.insert(
                            thread_id@,
                            output,
                        ));
                    }
                } else {
                    proof {
                        assert(old(self).review_outputs@.remove(thread_id@)
                            =~= old(self).review_outputs@);
                    }
                }
            },
            ReviewJobMessage::FinishedSuccess { thread_id, captured_at } => {
                self.finish_review(thread_id, ReviewStatus::Completed, captured_at);
            },
            ReviewJobMessage::FinishedCancelled { thread_id, captured_at, _message } => {
                self.finish_review(thread_id, ReviewStatus::Cancelled, captured_at);
            },
            ReviewJobMessage::FinishedFailure { thread_id, captured_at, message } => {
                self.finish_review(thread_id, ReviewStatus::Failed, captured_at);
                self.last_error = Some(message);
            },
        }
    }

    fn finish_review(&mut self, thread_id: String, status: ReviewStatus, captured_at: Timestamp)
        ensures
            final(self).review_outputs@ == if old(self).review_outputs@.dom().contains(thread_id@) {
                old(self).review_outputs@.insert(
                    thread_id@,
                    ReviewOutputState {
                        status,
                        captured_at: Some(captured_at),
                        ..old(self).review_outputs@[thread_id@]
                    },
                )
            } else {
                old(self).review_outputs@
            },
            *final(self) == (AccountState {
                review_outputs: final(self).review_outputs,
                ..*old(self)
            }),
    {
        let ghost before = self.review_outputs@;
        if let Some(mut output) = self.review_outputs.remove(thread_id.as_str()) {
            output.status = status;
            output.captured_at = Some(captured_at);
            self.review_outputs.insert(thread_id, output);
            proof {
                assert(before.remove(thread_id@).insert(thread_id@, output) =~= before.insert(
                    thread_id@,
                    output,
                ));
            }
        } else {
            proof {
                assert(before.remove(thread_id@) =~= before);
            }
        }
    }

    /// Whether stopping the review of the thread has to be tried.
    pub fn can_cancel_review(&self, thread_id: &str) -> (running: bool)
        ensures
            running == running_reviews(self.review_outputs@).contains(thread_id@),
    {
        match self.review_outputs.get(thread_id) {
            Some(output) => output.status == ReviewStatus::Running,
            None => false,
        }
    }

    /// Takes up what came of stopping a review. The end of the review itself is reported by
    /// the review.
    pub fn cancel_review(&mut self, answer: Result<bool, String>)
        ensures
            stop_answered(*old(self), answer, *final(self)),
    {
        match answer {
            Ok(_) => {},
            Err(message) => {
                self.last_error = Some(message);
            },
        }
    }

    /// Opens the window of the thread's review if it is closed, and closes it if it is open.
    pub fn toggle_review_window_for_thread(&mut self, thread_id: &str)
        ensures
            window_toggled(*old(self), thread_id@, *final(self)),
    {
        let ghost before = self.review_outputs@;
        if let Some(mut output) = self.review_outputs.remove(thread_id) {
            output.open = !output.open;
            self.review_outputs.insert(thread_id.to_owned(), output);
            proof {
                assert(before.remove(thread_id@).insert(thread_id@, output) =~= before.insert(
                    thread_id@,
                    output,
                ));
            }
        } else {
            proof {
                assert(before.remove(thread_id@) =~= before);
            }
        }
    }

    /// The threads with a review that runs.
    pub fn active_review_thread_ids(&self) -> (ids: StringHashSet)
        ensures
            ids@ == running_reviews(self.review_outputs@),
    {
        let mut ids: StringHashSet = StringHashSet::new();
        let count: usize = self.review_outputs.len();
        let ghost keys = self.review_outputs.keys();
        let ghost outputs = self.review_outputs@;
        let mut i: usize = 0;
        while i < count
            invariant
                i <= count,
                count == keys.len(),
                keys == self.review_outputs.keys(),
                outputs == self.review_outputs@,
                forall|id: Seq<char>| #[trigger]
                    ids@.contains(id) <==> exists|j: int|
                        0 <= j < i && #[trigger] keys[j] == id && outputs[id].status
                            == ReviewStatus::Running,
            decreases count - i,
        {
            let key: &String = self.review_outputs.key_at(i);
            let output: &ReviewOutputState = self.review_outputs.value_at(i);
            if output.status == ReviewStatus::Running {
                let _ = ids.insert(key.clone());
            }
            proof {
                assert(keys[i as int] == key@);
            }
            i = i + 1;
        }
        proof {
            assert forall|id: Seq<char>| #[trigger] ids@.contains(id) <==> running_reviews(
                outputs,
            ).contains(id) by {
                if outputs.dom().contains(id) {
                    assert(keys.contains(id));
                    let j = keys.index_of(id);
                    assert(keys[j] == id);
                }
                if ids@.contains(id) {
                    let j = choose|j: int|
                        0 <= j < i && #[trigger] keys[j] == id && outputs[id].status
                            == ReviewStatus::Running;
                    assert(keys.contains(id));
                }
            }
            assert(ids@ =~= running_reviews(outputs));
        }
        ids
    }

    /// The threads with the output of a review.
    pub fn review_output_thread_ids(&self) -> (ids: StringHashSet)
        ensures
            ids@ == self.review_outputs@.dom(),
    {
        let mut ids: StringHashSet = StringHashSet::new();
        let count: usize = self.review_outputs.len();
        let ghost keys = self.review_outputs.keys();
        let mut i: usize = 0;
        while i < count
            invariant
                i <= count,
                count == keys.len(),
                keys == self.review_outputs.keys(),
                forall|id: Seq<char>| #[trigger]
                    ids@.contains(id) <==> exists|j: int| 0 <= j < i && #[trigger] keys[j] == id,
            decreases count - i,
        {
            let key: &String = self.review_outputs.key_at(i);
            let _ = ids.insert(key.clone());
            proof {
                assert(keys[i as int] == key@);
            }
            i = i + 1;
        }
        proof {
            assert forall|id: Seq<char>| #[trigger] ids@.contains(id)
                <==> self.review_outputs@.dom().contains(id) by {
                if self.review_outputs@.dom().contains(id) {
                    assert(keys.contains(id));
                    assert(keys[keys.index_of(id)] == id);
                }
                if ids@.contains(id) {
                    let j = choose|j: int| 0 <= j < i && #[trigger] keys[j] == id;
                    assert(keys.contains(id));
                }
            }
            assert(ids@ =~= self.review_outputs@.dom());
        }
        ids
    }

    /// The threads whose review window is open.
    pub fn open_review_window_thread_ids(&self) -> (ids: StringHashSet)
        ensures
            ids@ == open_windows(self.review_outputs@),
    {
        let mut ids: StringHashSet = StringHashSet::new();
        let count: usize = self.review_outputs.len();
        let ghost keys = self.review_outputs.keys();
        let ghost outputs = self.review_outputs@;
        let mut i: usize = 0;
        while i < count
            invariant
                i <= count,
                count == keys.len(),
                keys == self.review_outputs.keys(),
                outputs == self.review_outputs@,
                forall|id: Seq<char>| #[trigger]
                    ids@.contains(id) <==> exists|j: int|
                        0 <= j < i && #[trigger] keys[j] == id && outputs[id].open,
            decreases count - i,
        {
            let key: &String = self.review_outputs.key_at(i);
            if self.review_outputs.value_at(i).open {
                let _ = ids.insert(key.clone());
            }
            proof {
                assert(keys[i as int] == key@);
            }
            i = i + 1;
        }
        proof {
            assert forall|id: Seq<char>| #[trigger] ids@.contains(id) <==> open_windows(
                outputs,
            ).contains(id) by {
                if outputs.dom().contains(id) {
                    assert(keys.contains(id));
                    assert(keys[keys.index_of(id)] == id);
                }
                if ids@.contains(id) {
                    let j = choose|j: int|
                        0 <= j < i && #[trigger] keys[j] == id && outputs[id].open;
                    assert(keys.contains(id));
                }
            }
            assert(ids@ =~= open_windows(outputs));
        }
        ids
    }

    /// Whether a review runs.
    pub fn review_in_progress(&self) -> (running: bool)
        ensures
            running == exists|id: Seq<char>| #[trigger]
                running_reviews(self.review_outputs@).contains(id),
    {
        let count: usize = self.review_outputs.len();
        let ghost keys = self.review_outputs.keys();
        let ghost outputs = self.review_outputs@;
        let mut i: usize = 0;
        while i < count
            invariant
                i <= count,
                count == keys.len(),
                keys == self.review_outputs.keys(),
                outputs == self.review_outputs@,
                forall|j: int|
                    0 <= j < i ==> outputs[#[trigger] keys[j]].status != ReviewStatus::Running,
            decreases count - i,
        {
            if self.review_outputs.value_at(i).status == ReviewStatus::Running {
                proof {
                    assert(running_reviews(outputs).contains(keys[i as int]));
                }
                return true;
            }
            i = i + 1;
        }
        proof {
            assert forall|id: Seq<char>| !#[trigger] running_reviews(outputs).contains(id) by {
                if outputs.dom().contains(id) {
                    assert(keys.contains(id));
                    assert(keys[keys.index_of(id)] == id);
                }
            }
        }
        false
    }
}

} // verus!

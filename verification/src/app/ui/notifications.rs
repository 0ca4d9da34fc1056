//! The lists of notifications.
use vstd::prelude::*;

use crate::app::notification_state::{
    base_notification_state, base_state, in_section, pending_review_request_ids, pending_threads,
    referred, section_items, summarize_counts, to_revisit, unread, NotificationVisualState,
    SectionKind,
};
use crate::app::review::{custom_review_available, custom_review_available_for_repo};
use crate::app::search::{field_texts, SearchFilter};
use crate::app::state::{open_windows, running_reviews, AccountState};
use crate::decimal::{decimal, decimal_text};
use crate::domain::{opt_text, InboxSnapshot, NotificationItem};
use crate::text_map::{texts, TextMap};
use crate::time::{written_in_utc, MINUTES_LAYOUT};
use vstd::hash_set::StringHashSet;
use vstd::string::StringExecFns;

verus! {

// ---------------------------------------------------------------------------
// Rows
// ---------------------------------------------------------------------------

/// What rows go by beside their notifications.
pub struct NotificationRenderState<'a> {
    pub inflight_done: &'a StringHashSet,
    pub pending_review_ids: &'a StringHashSet,
    pub active_review_thread_ids: &'a StringHashSet,
    pub review_output_thread_ids: &'a StringHashSet,
    pub open_review_window_thread_ids: &'a StringHashSet,
    pub custom_review_command: bool,
    pub repo_paths: &'a TextMap<String>,
}

/// What a click in a list asks for.
#[derive(Clone, Debug, PartialEq, Eq)]
pub enum AccountAction {
    Done(String),
    Review { thread_id: String, repo: String, pr_number: u64, pr_url: String },
    StopReview(String),
    ToggleReviewWindow(String),
    Seen(String),
    Read(String),
}

/// What a click in a list asks for.
pub enum ActionView {
    Done(Seq<char>),
    Review { thread_id: Seq<char>, repo: Seq<char>, pr_number: nat, pr_url: Seq<char> },
    StopReview(Seq<char>),
    ToggleReviewWindow(Seq<char>),
    Seen(Seq<char>),
    Read(Seq<char>),
}

impl View for AccountAction {
    type V = ActionView;

    open spec fn view(&self) -> ActionView {
        match self {
            AccountAction::Done(id) => ActionView::Done(id@),
            AccountAction::Review { thread_id, repo, pr_number, pr_url } => ActionView::Review {
                thread_id: thread_id@,
                repo: repo@,
                pr_number: *pr_number as nat,
                pr_url: pr_url@,
            },
            AccountAction::StopReview(id) => ActionView::StopReview(id@),
            AccountAction::ToggleReviewWindow(id) => ActionView::ToggleReviewWindow(id@),
            AccountAction::Seen(id) => ActionView::Seen(id@),
            AccountAction::Read(id) => ActionView::Read(id@),
        }
    }
}

/// What some clicks ask for.
pub open spec fn action_views(actions: Seq<AccountAction>) -> Seq<ActionView> {
    actions.map_values(|a: AccountAction| a@)
}

/// How a notification is drawn.
pub open spec fn visual_state(item: NotificationItem, render_state: NotificationRenderState) -> NotificationVisualState {
    NotificationVisualState {
        pending_review: render_state.pending_review_ids@.contains(item.thread_id@),
        ..base_state(item)
    }
}

/// How a notification is drawn.
pub fn notification_state(item: &NotificationItem, render_state: &NotificationRenderState<'_>) -> (visual:
    NotificationVisualState)
    ensures
        visual == visual_state(*item, *render_state),
{
    let mut visual: NotificationVisualState = base_notification_state(item);
    visual.pending_review = render_state.pending_review_ids.contains(item.thread_id.as_str());
    visual
}

/// The colour of a row's text.
#[derive(Clone, Copy, Debug, PartialEq, Eq, Structural)]
pub enum TextTone {
    Plain,
    /// It stands out.
    Warning,
    /// It steps back.
    Weak,
}

/// Whether `tone` is the colour of a row's text.
pub open spec fn tone_of(visual: NotificationVisualState, tone: TextTone) -> bool {
    tone == if visual.needs_revisit {
        TextTone::Warning
    } else if visual.seen {
        TextTone::Weak
    } else {
        TextTone::Plain
    }
}

/// The colour of a row's text.
pub fn notification_tone(visual: NotificationVisualState) -> (tone: TextTone)
    ensures
        tone_of(visual, tone),
{
    if visual.needs_revisit {
        TextTone::Warning
    } else if visual.seen {
        TextTone::Weak
    } else {
        TextTone::Plain
    }
}

/// The button that has to do with the review of a pull request.
#[derive(Clone, Copy, Debug, PartialEq, Eq, Structural)]
pub enum ReviewControl {
    /// There is none, as the row is about no pull request.
    Hidden,
    /// It stops the review that runs.
    Stop,
    /// It starts a review.
    Launch { enabled: bool },
    /// It does nothing, as the repository has no checkout or there is no command.
    Unavailable,
}

/// The button that shows or hides the window of a review.
#[derive(Clone, Copy, Debug, PartialEq, Eq, Structural)]
pub enum WindowControl {
    Hidden,
    /// It closes the window.
    Close,
    /// It opens the window.
    Open,
}

/// Whether an action on the row's thread is under way.
pub open spec fn busy(item: NotificationItem, render_state: NotificationRenderState) -> bool {
    render_state.inflight_done@.contains(item.thread_id@)
}

/// Whether the row's thread can be marked as read.
pub open spec fn can_mark_read(item: NotificationItem, render_state: NotificationRenderState) -> bool {
    !busy(item, render_state) && !base_state(item).seen
}

/// The row's button that has to do with a review.
pub open spec fn review_control(item: NotificationItem, render_state: NotificationRenderState) -> ReviewControl {
    if item@.pull_request_number() is None {
        ReviewControl::Hidden
    } else if render_state.active_review_thread_ids@.contains(item.thread_id@) {
        ReviewControl::Stop
    } else if custom_review_available(
        texts(render_state.repo_paths@),
        render_state.custom_review_command,
        item.repo@,
    ) {
        ReviewControl::Launch { enabled: !busy(item, render_state) }
    } else {
        ReviewControl::Unavailable
    }
}

/// The row's button that shows or hides a review's window.
pub open spec fn window_control(item: NotificationItem, render_state: NotificationRenderState) -> WindowControl {
    if item@.pull_request_number() is None {
        WindowControl::Hidden
    } else if !render_state.review_output_thread_ids@.contains(item.thread_id@) {
        WindowControl::Hidden
    } else if render_state.open_review_window_thread_ids@.contains(item.thread_id@) {
        WindowControl::Close
    } else {
        WindowControl::Open
    }
}

fn review_button(item: &NotificationItem, render_state: &NotificationRenderState<'_>) -> (control:
    ReviewControl)
    ensures
        control == review_control(*item, *render_state),
{
    match item.pull_request_number() {
        None => ReviewControl::Hidden,
        Some(_) => {
            if render_state.active_review_thread_ids.contains(item.thread_id.as_str()) {
                ReviewControl::Stop
            } else if custom_review_available_for_repo(
                render_state.repo_paths,
                render_state.custom_review_command,
                item.repo.as_str(),
            ) {
                ReviewControl::Launch {
                    enabled: !render_state.inflight_done.contains(item.thread_id.as_str()),
                }
            } else {
                ReviewControl::Unavailable
            }
        },
    }
}

fn window_button(item: &NotificationItem, render_state: &NotificationRenderState<'_>) -> (control:
    WindowControl)
    ensures
        control == window_control(*item, *render_state),
{
    match item.pull_request_number() {
        None => WindowControl::Hidden,
        Some(_) => {
            if !render_state.review_output_thread_ids.contains(item.thread_id.as_str()) {
                WindowControl::Hidden
            } else if render_state.open_review_window_thread_ids.contains(
                item.thread_id.as_str(),
            ) {
                WindowControl::Close
            } else {
                WindowControl::Open
            }
        },
    }
}

/// A row of a list of notifications.
#[derive(Clone, Debug, PartialEq, Eq)]
pub struct NotificationRow {
    pub repo: String,
    /// The time of the last update, as far as it can be written out.
    pub updated: Option<String>,
    pub title: String,
    pub url: Option<String>,
    pub reason: String,
    pub visual: NotificationVisualState,
    pub tone: TextTone,
    pub mark_read_enabled: bool,
    pub review: ReviewControl,
    pub window: WindowControl,
    pub spinner: bool,
}

/// Whether `row` is the row for a notification.
pub open spec fn row_of(
    row: NotificationRow,
    item: NotificationItem,
    render_state: NotificationRenderState,
) -> bool {
    &&& row.repo@ == item.repo@
    &&& opt_text(row.updated) == written_in_utc(
        item.updated_at.secs,
        item.updated_at.nanos,
        MINUTES_LAYOUT@,
    )
    &&& row.title@ == item@.display_title()
    &&& opt_text(row.url) == opt_text(item.url)
    &&& row.reason@ == "Reason: "@ + item.reason@
    &&& row.visual == visual_state(item, render_state)
    &&& row.tone == if row.visual.needs_revisit {
        TextTone::Warning
    } else if row.visual.seen {
        TextTone::Weak
    } else {
        TextTone::Plain
    }
    &&& row.mark_read_enabled == can_mark_read(item, render_state)
    &&& row.review == review_control(item, render_state)
    &&& row.window == window_control(item, render_state)
    &&& row.spinner == (busy(item, render_state)
        && !render_state.active_review_thread_ids@.contains(item.thread_id@))
}

/// The row for a notification.
pub fn notification_row(item: &NotificationItem, render_state: &NotificationRenderState<'_>) -> (row:
    NotificationRow)
    ensures
        row_of(row, *item, *render_state),
{
    let visual: NotificationVisualState = notification_state(item, render_state);
    let is_busy: bool = render_state.inflight_done.contains(item.thread_id.as_str());
    let review_active: bool = render_state.active_review_thread_ids.contains(
        item.thread_id.as_str(),
    );
    let already_read: bool = !item.unread && !visual.needs_revisit;
    let mut reason: String = "Reason: ".to_owned();
    reason.append(item.reason.as_str());
    let url: Option<String> = match &item.url {
        Some(url) => Some(url.clone()),
        None => None,
    };
    NotificationRow {
        repo: item.repo.clone(),
        updated: item.updated_at.to_minutes(),
        title: item.display_title(),
        url,
        reason,
        visual,
        tone: notification_tone(visual),
        mark_read_enabled: !is_busy && !already_read,
        review: review_button(item, render_state),
        window: window_button(item, render_state),
        spinner: is_busy && !review_active,
    }
}

/// What was clicked in a row.
#[derive(Clone, Copy, Debug, PartialEq, Eq, Structural)]
pub struct RowClicks {
    pub subject: bool,
    pub mark_read: bool,
    pub review: bool,
    pub window: bool,
}

/// The action of the review button, if a click on it does anything.
pub open spec fn review_action(item: NotificationItem, render_state: NotificationRenderState) -> Option<
    ActionView,
> {
    match review_control(item, render_state) {
        ReviewControl::Stop => Some(ActionView::StopReview(item.thread_id@)),
        ReviewControl::Launch { enabled: true } => Some(
            ActionView::Review {
                thread_id: item.thread_id@,
                repo: item.repo@,
                pr_number: item@.pull_request_number()->0,
                pr_url: item@.url->0,
            },
        ),
        _ => None,
    }
}

/// `actions` with `action` behind them, if there is one.
pub open spec fn and_action(actions: Seq<ActionView>, action: Option<ActionView>) -> Seq<ActionView> {
    match action {
        Some(a) => actions.push(a),
        None => actions,
    }
}

/// What clicks in a row ask for, in the order of its parts: the subject, the button that
/// marks it as read, the review button and the window button. Disabled buttons do nothing.
pub open spec fn clicked_actions(
    item: NotificationItem,
    render_state: NotificationRenderState,
    clicks: RowClicks,
) -> Seq<ActionView> {
    let seen = if clicks.subject {
        Some(ActionView::Seen(item.thread_id@))
    } else {
        None
    };
    let read = if clicks.mark_read && can_mark_read(item, render_state) {
        Some(ActionView::Read(item.thread_id@))
    } else {
        None
    };
    let review = if clicks.review {
        review_action(item, render_state)
    } else {
        None
    };
    let window = if clicks.window && window_control(item, render_state)
        != WindowControl::Hidden {
        Some(ActionView::ToggleReviewWindow(item.thread_id@))
    } else {
        None
    };
    and_action(and_action(and_action(and_action(Seq::empty(), seen), read), review), window)
}

fn push_action(actions: &mut Vec<AccountAction>, action: AccountAction)
    ensures
        action_views(final(actions)@) == action_views(old(actions)@).push(action@),
{
    let ghost before = actions@;
    actions.push(action);
    proof {
        assert(action_views(actions@) =~= action_views(before).push(action@));
    }
}

/// What clicks in a row ask for.
pub fn row_actions(
    item: &NotificationItem,
    render_state: &NotificationRenderState<'_>,
    clicks: RowClicks,
) -> (actions: Vec<AccountAction>)
    ensures
        action_views(actions@) == clicked_actions(*item, *render_state, clicks),
{
    let mut actions: Vec<AccountAction> = Vec::new();
    proof {
        assert(action_views(actions@) =~= Seq::<ActionView>::empty());
    }
    if clicks.subject {
        push_action(&mut actions, AccountAction::Seen(item.thread_id.clone()));
    }
    let visual: NotificationVisualState = base_notification_state(item);
    if clicks.mark_read && !render_state.inflight_done.contains(item.thread_id.as_str())
        && !visual.seen {
        push_action(&mut actions, AccountAction::Read(item.thread_id.clone()));
    }
    if clicks.review {
        match review_button(item, render_state) {
            ReviewControl::Stop => {
                push_action(&mut actions, AccountAction::StopReview(item.thread_id.clone()));
            },
            ReviewControl::Launch { enabled: true } => {
                if let (Some(pr_url), Some(pr_number)) = (
                    item.pull_request_url(),
                    item.pull_request_number(),
                ) {
                    push_action(
                        &mut actions,
                        AccountAction::Review {
                            thread_id: item.thread_id.clone(),
                            repo: item.repo.clone(),
                            pr_number,
                            pr_url: pr_url.to_owned(),
                        },
                    );
                }
            },
            _ => {},
        }
    }
    if clicks.window {
        match window_button(item, render_state) {
            WindowControl::Hidden => {},
            _ => {
                push_action(&mut actions, AccountAction::ToggleReviewWindow(item.thread_id.clone()));
            },
        }
    }
    actions
}

// ---------------------------------------------------------------------------
// Sections
// ---------------------------------------------------------------------------

/// The title of a section.
pub open spec fn section_title(kind: SectionKind) -> Seq<char> {
    match kind {
        SectionKind::Inbox => "Inbox"@,
        SectionKind::ReviewRequests => "Review requests"@,
        SectionKind::Mentions => "Mentions"@,
        SectionKind::Notifications => "Notifications"@,
    }
}

/// What stands in a section without notifications.
pub open spec fn empty_label(kind: SectionKind) -> Seq<char> {
    match kind {
        SectionKind::Inbox => "You're all caught up 🎉"@,
        SectionKind::ReviewRequests => "No pending review requests."@,
        SectionKind::Mentions => "No recent mentions."@,
        SectionKind::Notifications => "You're all caught up 🎉"@,
    }
}

/// Picks out the notifications that a search finds.
pub open spec fn found_by(filter: SearchFilter) -> spec_fn(NotificationItem) -> bool {
    |item: NotificationItem| filter.finds(seq![item.repo@, item.title@, item.reason@])
}

/// The notifications that a search finds.
fn found_items<'a>(items: &Vec<&'a NotificationItem>, filter: &SearchFilter) -> (rows: Vec<
    &'a NotificationItem,
>)
    ensures
        referred(rows@) == referred(items@).filter(found_by(*filter)),
{
    let mut rows: Vec<&'a NotificationItem> = Vec::new();
    let ghost all = referred(items@);
    let mut i: usize = 0;
    proof {
        reveal(Seq::filter);
        assert(all.take(0).filter(found_by(*filter)) =~= Seq::<NotificationItem>::empty());
        assert(referred(rows@) =~= Seq::<NotificationItem>::empty());
    }
    while i < items.len()
        invariant
            i <= items@.len(),
            all == referred(items@),
            referred(rows@) == all.take(i as int).filter(found_by(*filter)),
        decreases items@.len() - i,
    {
        let ghost before = rows@;
        let item: &'a NotificationItem = items[i];
        let fields: [&str; 3] = [item.repo.as_str(), item.title.as_str(), item.reason.as_str()];
        proof {
            reveal(Seq::filter);
            assert(all.take(i + 1).drop_last() =~= all.take(i as int));
            assert(all.take(i + 1).last() == *item);
            assert(field_texts(fields@) =~= seq![item.repo@, item.title@, item.reason@]);
        }
        if filter.matches_any(fields.as_slice()) {
            rows.push(item);
            proof {
                assert(referred(rows@) =~= referred(before).push(*item));
            }
        }
        i = i + 1;
    }
    proof {
        assert(all.take(i as int) =~= all);
    }
    rows
}

/// What a section lists.
pub enum SectionBody<'a> {
    /// It has no notifications.
    Empty(&'static str),
    /// The search finds none of its notifications.
    NoMatches(&'static str),
    Rows(Vec<&'a NotificationItem>),
}

/// A section of a list of notifications.
pub struct SectionModel<'a> {
    pub kind: SectionKind,
    pub heading: String,
    /// What tells the section from others from frame to frame.
    pub id_salt: String,
    pub highlight: bool,
    pub body: SectionBody<'a>,
}

impl<'a> SectionModel<'a> {
    /// Whether this is the section of that kind, as a search leaves it.
    pub open spec fn presents(
        self,
        notifications: Seq<NotificationItem>,
        kind: SectionKind,
        filter: SearchFilter,
        highlight: bool,
    ) -> bool {
        let subset = notifications.filter(in_section(kind));
        let rows = subset.filter(found_by(filter));
        &&& self.kind == kind
        &&& self.highlight == highlight
        &&& self.heading@ == section_title(kind) + " ("@ + decimal(subset.filter(unread()).len())
            + " unseen, "@ + decimal(subset.filter(to_revisit()).len()) + " updated)"@
        &&& self.id_salt@ == "notification-section-"@ + section_title(kind)
        &&& match self.body {
            SectionBody::Empty(label) => subset.len() == 0 && label@ == empty_label(kind),
            SectionBody::NoMatches(label) => subset.len() > 0 && rows.len() == 0 && label@
                == "No matches for current search."@,
            SectionBody::Rows(listed) => rows.len() > 0 && referred(listed@) == rows,
        }
    }
}

/// One section of the notifications of an inbox.
pub fn notification_section<'a>(
    inbox: &'a InboxSnapshot,
    kind: SectionKind,
    filter: &SearchFilter,
    highlight: bool,
) -> (section: SectionModel<'a>)
    ensures
        section.presents(inbox.notifications@, kind, *filter, highlight),
{
    let (title, label): (&'static str, &'static str) = match kind {
        SectionKind::Inbox => ("Inbox", "You're all caught up 🎉"),
        SectionKind::ReviewRequests => ("Review requests", "No pending review requests."),
        SectionKind::Mentions => ("Mentions", "No recent mentions."),
        SectionKind::Notifications => ("Notifications", "You're all caught up 🎉"),
    };
    let subset: Vec<&'a NotificationItem> = section_items(&inbox.notifications, kind);
    let (unseen, updated) = summarize_counts(&subset);
    let mut heading: String = title.to_owned();
    heading.append(" (");
    heading.append(decimal_text(unseen as u64).as_str());
    heading.append(" unseen, ");
    heading.append(decimal_text(updated as u64).as_str());
    heading.append(" updated)");
    let mut id_salt: String = "notification-section-".to_owned();
    id_salt.append(title);
    let ghost all = inbox.notifications@.filter(in_section(kind));
    let body: SectionBody<'a> = if subset.len() == 0 {
        proof {
            assert(referred(subset@).len() == 0);
        }
        SectionBody::Empty(label)
    } else {
        let rows: Vec<&'a NotificationItem> = found_items(&subset, filter);
        proof {
            assert(referred(rows@).len() == rows@.len());
            assert(referred(subset@).len() == subset@.len());
        }
        if rows.len() == 0 {
            SectionBody::NoMatches("No matches for current search.")
        } else {
            SectionBody::Rows(rows)
        }
    };
    SectionModel { kind, heading, id_salt, highlight, body }
}

/// All notifications in one section.
pub fn unified_inbox_section<'a>(
    inbox: &'a InboxSnapshot,
    account: &AccountState,
    filter: &SearchFilter,
) -> (section: SectionModel<'a>)
    ensures
        section.presents(
            inbox.notifications@,
            SectionKind::Inbox,
            *filter,
            account.highlights.has(SectionKind::Inbox),
        ),
{
    notification_section(
        inbox,
        SectionKind::Inbox,
        filter,
        account.highlights.contains(&SectionKind::Inbox),
    )
}

/// The sections of the grouped list, in their order.
pub open spec fn bucket_kinds() -> Seq<SectionKind> {
    seq![SectionKind::ReviewRequests, SectionKind::Mentions, SectionKind::Notifications]
}

/// The notifications by section.
pub fn bucket_sections<'a>(
    inbox: &'a InboxSnapshot,
    account: &AccountState,
    filter: &SearchFilter,
) -> (sections: Vec<SectionModel<'a>>)
    ensures
        sections@.len() == bucket_kinds().len(),
        forall|i: int|
            0 <= i < sections@.len() ==> (#[trigger] sections@[i]).presents(
                inbox.notifications@,
                bucket_kinds()[i],
                *filter,
                account.highlights.has(bucket_kinds()[i]),
            ),
{
    let mut sections: Vec<SectionModel<'a>> = Vec::new();
    sections.push(
        notification_section(
            inbox,
            SectionKind::ReviewRequests,
            filter,
            account.highlights.contains(&SectionKind::ReviewRequests),
        ),
    );
    sections.push(
        notification_section(
            inbox,
            SectionKind::Mentions,
            filter,
            account.highlights.contains(&SectionKind::Mentions),
        ),
    );
    sections.push(
        notification_section(
            inbox,
            SectionKind::Notifications,
            filter,
            account.highlights.contains(&SectionKind::Notifications),
        ),
    );
    sections
}

/// Whether `after` is the account `before` after a section of it has been drawn.
pub open spec fn highlight_after(
    before: AccountState,
    kind: SectionKind,
    body_shown: bool,
    after: AccountState,
) -> bool {
    &&& forall|other: SectionKind| #[trigger]
        after.highlights.has(other) == (before.highlights.has(other) && !(
        body_shown && other == kind))
    &&& after == (AccountState {
        highlights: after.highlights,
        ..before
    })
}

/// Takes the highlight off a section whose list has been shown.
pub fn section_rendered(account: &mut AccountState, kind: SectionKind, body_shown: bool)
    ensures
        highlight_after(*old(account), kind, body_shown, *final(account)),
{
    if body_shown && account.highlights.contains(&kind) {
        account.highlights.remove(&kind);
    }
}

/// The sets that rows go by, for an account and its inbox.
pub struct RenderSets {
    pub pending_review_ids: StringHashSet,
    pub active_review_thread_ids: StringHashSet,
    pub review_output_thread_ids: StringHashSet,
    pub open_review_window_thread_ids: StringHashSet,
}

/// The sets that rows go by, for an account and its inbox.
pub fn render_sets(account: &AccountState, inbox: &InboxSnapshot) -> (sets: RenderSets)
    ensures
        sets.pending_review_ids@ == pending_threads(*inbox),
        sets.active_review_thread_ids@ == running_reviews(account.review_outputs@),
        sets.review_output_thread_ids@ == account.review_outputs@.dom(),
        sets.open_review_window_thread_ids@ == open_windows(account.review_outputs@),
{
    RenderSets {
        pending_review_ids: pending_review_request_ids(inbox),
        active_review_thread_ids: account.active_review_thread_ids(),
        review_output_thread_ids: account.review_output_thread_ids(),
        open_review_window_thread_ids: account.open_review_window_thread_ids(),
    }
}

} // verus!

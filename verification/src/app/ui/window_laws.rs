//! What holds of what the windows show.
use vstd::prelude::*;

use crate::app::notification_state::{
    in_section, referred, unseen_in, updated_in, NotificationVisualState, SectionKind,
};
use crate::app::repo_paths::repo_key;
use crate::app::review::summarizes;
use crate::app::review_output::{ReviewOutputState, ReviewStatus};
use crate::app::search::{needle_of, SearchFilter};
use crate::app::state::{seen_from, AccountState, AccountViewMode};
use crate::app::ui::account_card::{
    body_of, carried_out, describes, notice_of, synced_line, tells_sync, AccountCommand, CardBody,
    ReviewLine, StatusNotice,
};
use crate::app::ui::notifications::{
    bucket_kinds, busy, can_mark_read, clicked_actions, found_by, highlight_after, review_control, row_of,
    tone_of, visual_state, window_control, AccountAction, ActionView, NotificationRenderState,
    NotificationRow, ReviewControl, RowClicks, SectionBody, SectionModel, TextTone,
};
use crate::app::ui::panels::{
    dashboard_of, list_clicked, lists_account, overviews, AccountListClicks, AccountListStep,
    Dashboard, TrackedAccountRow,
};
use crate::app::ui::sidebar::{
    account_badges, badge_views, heading_of, sums_up, AccountOverview, BadgeTone, HeadingStyle,
};
use crate::app::{tracks, ReminderApp};
use crate::decimal::decimal;
use crate::domain::{opt_text, pull_number, NotificationItem};
use crate::pattern::contains;
use crate::text::{is_white_space, lowercase};
use crate::text_laws::{is_blank, law_trimming};
use crate::time::written_in_utc;

verus! {

// ---------------------------------------------------------------------------
// Searching
// ---------------------------------------------------------------------------

/// A search is for what was typed without the white space around it, in lower case; typing
/// white space only searches for nothing.
pub proof fn law_what_is_searched_for(before: Seq<char>, s: Seq<char>, after: Seq<char>)
    requires
        is_blank(before),
        is_blank(after),
        s.len() > 0 ==> !is_white_space(s[0]) && !is_white_space(s[s.len() - 1]),
    ensures
        s.len() > 0 ==> needle_of(before + s + after) == Some(lowercase(s)),
        s.len() == 0 ==> needle_of(before + s + after) is None,
{
    law_trimming(before, s, after);
}

/// A search finds something in a list of texts exactly where it occurs in one of them, in any
/// letter case; a search for nothing finds everything.
pub proof fn law_searching(filter: SearchFilter, fields: Seq<Seq<char>>, field: Seq<char>)
    ensures
        filter.wanted() is None ==> filter.finds(fields),
        filter.wanted() matches Some(n) ==> !filter.finds(Seq::empty()) && (filter.finds(
            fields.push(field),
        ) <==> filter.finds(fields) || contains(lowercase(field), n)),
{
    if let Some(n) = filter.wanted() {
        let more = fields.push(field);
        if filter.finds(fields) {
            let i = choose|i: int|
                0 <= i < fields.len() && contains(lowercase(#[trigger] fields[i]), n);
            assert(more[i] == fields[i]);
        }
        if contains(lowercase(field), n) {
            assert(more[fields.len() as int] == field);
        }
        if filter.finds(more) && !contains(lowercase(field), n) {
            let i = choose|i: int| 0 <= i < more.len() && contains(lowercase(#[trigger] more[i]), n);
            assert(more[i] == fields[i]);
        }
    }
}

// ---------------------------------------------------------------------------
// Sections
// ---------------------------------------------------------------------------

/// Whether a notification belongs into a section, going by its reason.
pub open spec fn belongs(kind: SectionKind, item: NotificationItem) -> bool {
    match kind {
        SectionKind::Inbox => true,
        SectionKind::ReviewRequests => item.reason@ == "review_requested"@,
        SectionKind::Mentions => item.reason@ == "mention"@ || item.reason@ == "team_mention"@,
        SectionKind::Notifications => item.reason@ != "review_requested"@ && item.reason@
            != "mention"@ && item.reason@ != "team_mention"@,
    }
}

/// Whether the wanted text occurs in the repository, the title or the reason of a
/// notification, in any letter case.
pub open spec fn shows(wanted: Option<Seq<char>>, item: NotificationItem) -> bool {
    match wanted {
        None => true,
        Some(n) => contains(lowercase(item.repo@), n) || contains(lowercase(item.title@), n)
            || contains(lowercase(item.reason@), n),
    }
}

proof fn lemma_found(filter: SearchFilter, item: NotificationItem)
    ensures
        found_by(filter)(item) == shows(filter.wanted(), item),
{
    let fields = seq![item.repo@, item.title@, item.reason@];
    assert(fields[0] == item.repo@);
    assert(fields[1] == item.title@);
    assert(fields[2] == item.reason@);
}

proof fn lemma_filter_twice(
    items: Seq<NotificationItem>,
    first: spec_fn(NotificationItem) -> bool,
    second: spec_fn(NotificationItem) -> bool,
    both: spec_fn(NotificationItem) -> bool,
)
    requires
        forall|item: NotificationItem| #[trigger] both(item) == (first(item) && second(item)),
    ensures
        items.filter(first).filter(second) == items.filter(both),
    decreases items.len(),
{
    reveal(Seq::filter);
    if items.len() > 0 {
        let head = items.drop_last();
        lemma_filter_twice(head, first, second, both);
        assert(both(items.last()) == (first(items.last()) && second(items.last())));
        assert(head.filter(first).push(items.last()).drop_last() =~= head.filter(first));
    }
}

/// A section lists the notifications that belong into it and show what is searched for, in
/// their order.
pub proof fn law_section_keeps_order(
    section: SectionModel,
    notifications: Seq<NotificationItem>,
    kind: SectionKind,
    filter: SearchFilter,
    highlight: bool,
)
    requires
        section.presents(notifications, kind, filter, highlight),
    ensures
        section.kind == kind,
        section.highlight == highlight,
        ({
            let rows = notifications.filter(
                |item: NotificationItem| belongs(kind, item) && shows(filter.wanted(), item),
            );
            match section.body {
                SectionBody::Rows(listed) => rows.len() > 0 && referred(listed@) == rows,
                _ => rows.len() == 0,
            }
        }),
{
    let both = |item: NotificationItem| belongs(kind, item) && shows(filter.wanted(), item);
    assert forall|item: NotificationItem| #[trigger] both(item) == (in_section(kind)(item)
        && found_by(filter)(item)) by {
        lemma_found(filter, item);
    }
    lemma_filter_twice(notifications, in_section(kind), found_by(filter), both);
    if section.body is Empty {
        reveal(Seq::filter);
        let subset = notifications.filter(in_section(kind));
        assert(subset.filter(found_by(filter)).len() == 0);
    }
}

/// A notification is listed in a section if and only if it is there, its reason puts it into
/// the section, and what is searched for occurs in its repository, its title or its reason,
/// all in lower case.
pub proof fn law_search_lists_by_fields(
    section: SectionModel,
    notifications: Seq<NotificationItem>,
    kind: SectionKind,
    filter: SearchFilter,
    highlight: bool,
    item: NotificationItem,
)
    requires
        section.presents(notifications, kind, filter, highlight),
    ensures
        (section.body matches SectionBody::Rows(listed) && exists|j: int|
            0 <= j < listed@.len() && *(#[trigger] listed@[j]) == item) <==> notifications.contains(
            item,
        ) && (match kind {
            SectionKind::Inbox => true,
            SectionKind::ReviewRequests => item.reason@ == "review_requested"@,
            SectionKind::Mentions => item.reason@ == "mention"@ || item.reason@ == "team_mention"@,
            SectionKind::Notifications => item.reason@ != "review_requested"@ && item.reason@
                != "mention"@ && item.reason@ != "team_mention"@,
        }) && (match filter.wanted() {
            None => true,
            Some(n) => contains(lowercase(item.repo@), n) || contains(lowercase(item.title@), n)
                || contains(lowercase(item.reason@), n),
        }),
{
    let both = |item: NotificationItem| belongs(kind, item) && shows(filter.wanted(), item);
    let rows = notifications.filter(both);
    law_section_keeps_order(section, notifications, kind, filter, highlight);
    lemma_filter_members(notifications, both, item);
    if let SectionBody::Rows(listed) = section.body {
        if rows.contains(item) {
            let j = choose|j: int| 0 <= j < rows.len() && rows[j] == item;
            assert(referred(listed@)[j] == *listed@[j]);
        }
        assert forall|j: int| 0 <= j < listed@.len() implies rows.contains(
            *(#[trigger] listed@[j]),
        ) by {
            assert(referred(listed@)[j] == *listed@[j]);
        }
    }
}

proof fn lemma_filter_members(
    items: Seq<NotificationItem>,
    keep: spec_fn(NotificationItem) -> bool,
    item: NotificationItem,
)
    ensures
        items.filter(keep).contains(item) <==> items.contains(item) && keep(item),
    decreases items.len(),
{
    reveal(Seq::filter);
    if items.len() > 0 {
        let head = items.drop_last();
        let kept = head.filter(keep);
        let last = items.last();
        lemma_filter_members(head, keep, item);
        assert(items =~= head.push(last));
        if head.contains(item) {
            let i = choose|i: int| 0 <= i < head.len() && head[i] == item;
            assert(items[i] == item);
        }
        if item == last {
            assert(items[items.len() - 1] == item);
        }
        if items.contains(item) && item != last {
            let i = choose|i: int| 0 <= i < items.len() && items[i] == item;
            assert(head[i] == item);
        }
        if keep(last) {
            let more = kept.push(last);
            assert(items.filter(keep) == more);
            if kept.contains(item) {
                let i = choose|i: int| 0 <= i < kept.len() && kept[i] == item;
                assert(more[i] == item);
            }
            if item == last {
                assert(more[kept.len() as int] == item);
            }
            if more.contains(item) && item != last {
                let i = choose|i: int| 0 <= i < more.len() && more[i] == item;
                assert(kept[i] == item);
            }
        }
    }
}

/// The heading of a section names it and counts its notifications that are unread and those
/// that were updated after they were last read, whatever is searched for. A section without
/// notifications says so in words of its own; one in which the search finds none says that.
pub proof fn law_section_words(
    section: SectionModel,
    notifications: Seq<NotificationItem>,
    kind: SectionKind,
    filter: SearchFilter,
    highlight: bool,
)
    requires
        section.presents(notifications, kind, filter, highlight),
    ensures
        ({
            let title = match kind {
                SectionKind::Inbox => "Inbox"@,
                SectionKind::ReviewRequests => "Review requests"@,
                SectionKind::Mentions => "Mentions"@,
                SectionKind::Notifications => "Notifications"@,
            };
            &&& section.heading@ == title + " ("@ + decimal(unseen_in(notifications, kind))
                + " unseen, "@ + decimal(updated_in(notifications, kind)) + " updated)"@
            &&& section.id_salt@ == "notification-section-"@ + title
            &&& section.body matches SectionBody::Empty(label) ==> label@ == match kind {
                SectionKind::Inbox => "You're all caught up 🎉"@,
                SectionKind::ReviewRequests => "No pending review requests."@,
                SectionKind::Mentions => "No recent mentions."@,
                SectionKind::Notifications => "You're all caught up 🎉"@,
            }
            &&& section.body matches SectionBody::NoMatches(label) ==> label@
                == "No matches for current search."@
        }),
{
}

proof fn lemma_nothing_kept(
    items: Seq<NotificationItem>,
    keep: spec_fn(NotificationItem) -> bool,
    i: int,
)
    requires
        0 <= i < items.len(),
        items.filter(keep).len() == 0,
    ensures
        !keep(items[i]),
    decreases items.len(),
{
    reveal(Seq::filter);
    if i < items.len() - 1 {
        assert(items.drop_last()[i] == items[i]);
        lemma_nothing_kept(items.drop_last(), keep, i);
    }
}

/// A section is called empty exactly where no notification belongs into it, and without
/// matches exactly where some do but none shows what is searched for.
pub proof fn law_empty_sections(
    section: SectionModel,
    notifications: Seq<NotificationItem>,
    kind: SectionKind,
    filter: SearchFilter,
    highlight: bool,
    i: int,
)
    requires
        section.presents(notifications, kind, filter, highlight),
        0 <= i < notifications.len(),
    ensures
        section.body is Empty ==> !belongs(kind, notifications[i]),
        section.body is NoMatches ==> !(belongs(kind, notifications[i]) && shows(
            filter.wanted(),
            notifications[i],
        )),
        belongs(kind, notifications[i]) && shows(filter.wanted(), notifications[i])
            ==> section.body is Rows,
        belongs(kind, notifications[i]) && !(section.body is Rows) ==> section.body is NoMatches,
{
    law_section_keeps_order(section, notifications, kind, filter, highlight);
    let both = |item: NotificationItem| belongs(kind, item) && shows(filter.wanted(), item);
    if section.body is Empty {
        lemma_nothing_kept(notifications, in_section(kind), i);
    }
    if !(section.body is Rows) {
        lemma_nothing_kept(notifications, both, i);
    }
}

/// By section, notifications are grouped into review requests, mentions and all others, in
/// this order.
pub proof fn law_groups()
    ensures
        bucket_kinds() == seq![
            SectionKind::ReviewRequests,
            SectionKind::Mentions,
            SectionKind::Notifications,
        ],
{
}

// ---------------------------------------------------------------------------
// Rows
// ---------------------------------------------------------------------------

/// A row is drawn as to be revisited, as seen and as pending by what its notification says and
/// by whether its thread waits for a review.
pub proof fn law_rows_are_drawn(item: NotificationItem, render_state: NotificationRenderState)
    ensures
        ({
            let updated = item.last_read_at matches Some(read) && (item.updated_at.secs > read.secs
                || (item.updated_at.secs == read.secs && item.updated_at.nanos > read.nanos));
            let visual = visual_state(item, render_state);
            &&& visual.needs_revisit == updated
            &&& visual.seen == (!item.unread && !updated)
            &&& visual.pending_review == render_state.pending_review_ids@.contains(item.thread_id@)
        }),
{
}

/// A row can be marked as read exactly where no action on its thread is under way and it is
/// unread or was updated after it was last read.
pub proof fn law_marking_rows_as_read(item: NotificationItem, render_state: NotificationRenderState)
    ensures
        can_mark_read(item, render_state) <==> !render_state.inflight_done@.contains(item.thread_id@)
            && (item.unread || (item.last_read_at matches Some(read) && (item.updated_at.secs
            > read.secs || (item.updated_at.secs == read.secs && item.updated_at.nanos
            > read.nanos)))),
        busy(item, render_state) <==> render_state.inflight_done@.contains(item.thread_id@),
{
}

/// A row about a pull request has a button that stops its review where one runs, starts one
/// where that can be run, and else does nothing. Starting waits for actions on the thread.
pub proof fn law_review_buttons(item: NotificationItem, render_state: NotificationRenderState)
    ensures
        ({
            let about = item.url matches Some(url) && pull_number(url@) is Some;
            let runs = render_state.active_review_thread_ids@.contains(item.thread_id@);
            let can_run = render_state.custom_review_command && (
            repo_key(item.repo@) matches Some(key) && render_state.repo_paths@.dom().contains(key));
            let control = review_control(item, render_state);
            &&& control is Hidden <==> !about
            &&& control is Stop <==> about && runs
            &&& control is Launch <==> about && !runs && can_run
            &&& control is Unavailable <==> about && !runs && !can_run
            &&& control matches ReviewControl::Launch { enabled } ==> enabled
                == !render_state.inflight_done@.contains(item.thread_id@)
        }),
{
}

/// A row about a pull request whose review has put something out has a button that closes its
/// window where it is open, and opens it where it is not.
pub proof fn law_window_buttons(item: NotificationItem, render_state: NotificationRenderState)
    ensures
        ({
            let there = (item.url matches Some(url) && pull_number(url@) is Some)
                && render_state.review_output_thread_ids@.contains(item.thread_id@);
            let open = render_state.open_review_window_thread_ids@.contains(item.thread_id@);
            let control = window_control(item, render_state);
            &&& control is Hidden <==> !there
            &&& control is Close <==> there && open
            &&& control is Open <==> there && !open
        }),
{
}

/// Each click in a row asks for its own action, on the row's thread, where the button it hits
/// is enabled, and for nothing else.
pub proof fn law_single_clicks(item: NotificationItem, render_state: NotificationRenderState)
    ensures
        ({
            let none = RowClicks { subject: false, mark_read: false, review: false, window: false };
            let id = item.thread_id@;
            let about = item.url matches Some(url) && pull_number(url@) is Some;
            let runs = render_state.active_review_thread_ids@.contains(id);
            let busy = render_state.inflight_done@.contains(id);
            let can_run = render_state.custom_review_command && (
            repo_key(item.repo@) matches Some(key) && render_state.repo_paths@.dom().contains(key));
            let updated = item.last_read_at matches Some(read) && (item.updated_at.secs > read.secs
                || (item.updated_at.secs == read.secs && item.updated_at.nanos > read.nanos));
            let subject = clicked_actions(item, render_state, RowClicks { subject: true, ..none });
            let mark_read = clicked_actions(
                item,
                render_state,
                RowClicks { mark_read: true, ..none },
            );
            let review = clicked_actions(item, render_state, RowClicks { review: true, ..none });
            let window = clicked_actions(item, render_state, RowClicks { window: true, ..none });
            &&& clicked_actions(item, render_state, none).len() == 0
            &&& subject == seq![ActionView::Seen(id)]
            &&& mark_read == if !busy && (item.unread || updated) {
                seq![ActionView::Read(id)]
            } else {
                Seq::empty()
            }
            &&& about && runs ==> review == seq![ActionView::StopReview(id)]
            &&& about && !runs && can_run && !busy ==> review == seq![
                ActionView::Review {
                    thread_id: id,
                    repo: item.repo@,
                    pr_number: pull_number(item.url->0@)->0,
                    pr_url: item.url->0@,
                },
            ]
            &&& !about || (!runs && (!can_run || busy)) ==> review.len() == 0
            &&& window == if about && render_state.review_output_thread_ids@.contains(id) {
                seq![ActionView::ToggleReviewWindow(id)]
            } else {
                Seq::empty()
            }
        }),
{
    let none = RowClicks { subject: false, mark_read: false, review: false, window: false };
    let id = item.thread_id@;
    let empty = Seq::<ActionView>::empty();
    assert(empty.push(ActionView::Seen(id)) =~= seq![ActionView::Seen(id)]);
    assert(empty.push(ActionView::Read(id)) =~= seq![ActionView::Read(id)]);
    assert(empty.push(ActionView::StopReview(id)) =~= seq![ActionView::StopReview(id)]);
    assert(empty.push(ActionView::ToggleReviewWindow(id)) =~= seq![
        ActionView::ToggleReviewWindow(id),
    ]);
    law_review_buttons(item, render_state);
    law_window_buttons(item, render_state);
    law_marking_rows_as_read(item, render_state);
}

/// Several clicks ask for what each of them asks for, in the order of the row's parts.
pub proof fn law_several_clicks(
    item: NotificationItem,
    render_state: NotificationRenderState,
    clicks: RowClicks,
)
    ensures
        ({
            let none = RowClicks { subject: false, mark_read: false, review: false, window: false };
            clicked_actions(item, render_state, clicks) == clicked_actions(
                item,
                render_state,
                RowClicks { subject: clicks.subject, ..none },
            ) + clicked_actions(
                item,
                render_state,
                RowClicks { mark_read: clicks.mark_read, ..none },
            ) + clicked_actions(item, render_state, RowClicks { review: clicks.review, ..none })
                + clicked_actions(item, render_state, RowClicks { window: clicks.window, ..none })
        }),
{
    let none = RowClicks { subject: false, mark_read: false, review: false, window: false };
    let all = clicked_actions(item, render_state, clicks);
    let a = clicked_actions(item, render_state, RowClicks { subject: clicks.subject, ..none });
    let b = clicked_actions(item, render_state, RowClicks { mark_read: clicks.mark_read, ..none });
    let c = clicked_actions(item, render_state, RowClicks { review: clicks.review, ..none });
    let d = clicked_actions(item, render_state, RowClicks { window: clicks.window, ..none });
    assert(all =~= a + b + c + d);
}

// ---------------------------------------------------------------------------
// The list of accounts
// ---------------------------------------------------------------------------

/// The row of an account names it and shows whether it is selected. Its name is strong where
/// it is selected or something is new, and stands out where something is new in an account
/// that is not selected. Its badges count what is new, unread and updated.
pub proof fn law_account_rows(
    row: TrackedAccountRow,
    account: AccountState,
    selected: Option<Seq<char>>,
)
    requires
        lists_account(row, account, selected),
    ensures
        row.login@ == account.profile.login@,
        row.is_selected <==> selected == Some(account.profile.login@),
        ({
            let has_new = account.inbox is Some && account.new_notification_ids@.len() > 0;
            &&& row.heading.strong <==> row.is_selected || has_new
            &&& row.heading.tone == TextTone::Warning <==> has_new && !row.is_selected
            &&& row.heading.tone == TextTone::Plain <==> !(has_new && !row.is_selected)
        }),
        account.inbox matches Some(inbox) ==> exists|o: AccountOverview|
            {
                &&& o.new_notifications == account.new_notification_ids@.len()
                &&& o.unseen == unseen_in(inbox.notifications@, SectionKind::Inbox)
                &&& o.updated == updated_in(inbox.notifications@, SectionKind::Inbox)
                &&& badge_views(row.badges@) == #[trigger] account_badges(
                    Some(o),
                    account.pending_job,
                    account.last_error is Some,
                )
            },
        account.inbox is None ==> badge_views(row.badges@) == account_badges(
            None,
            account.pending_job,
            account.last_error is Some,
        ),
{
    let overview = choose|overview: Option<AccountOverview>|
        {
            let has_new = overview is Some && overview->0.new_notifications > 0;
            &&& overviews(overview, account)
            &&& row.heading.strong == (row.is_selected || has_new)
            &&& row.heading.tone == if has_new && !row.is_selected {
                TextTone::Warning
            } else {
                TextTone::Plain
            }
            &&& badge_views(row.badges@) == #[trigger] account_badges(
                overview,
                account.pending_job,
                account.last_error is Some,
            )
        };
    assert(overviews(overview, account));
    if account.inbox is Some {
        let o = overview->0;
        assert(badge_views(row.badges@) == account_badges(
            Some(o),
            account.pending_job,
            account.last_error is Some,
        ));
    }
}

/// The badges of an account that has been synced count what is new, if anything is, what is
/// unread and what was updated; one that has not says whether that is under way. A sync that
/// is under way and one that failed are noted behind them.
pub proof fn law_badges(o: AccountOverview, pending: bool, has_error: bool)
    ensures
        account_badges(None, false, false) == seq![("No data yet"@, BadgeTone::Weak)],
        account_badges(None, true, false) == seq![
            ("Loading…"@, BadgeTone::Weak),
            ("syncing…"@, BadgeTone::Weak),
        ],
        o.new_notifications == 0 ==> account_badges(Some(o), false, false) == seq![
            ("unseen "@ + decimal(o.unseen as nat), BadgeTone::Plain),
            (
                "updated "@ + decimal(o.updated as nat),
                if o.updated > 0 {
                    BadgeTone::Warning
                } else {
                    BadgeTone::Weak
                },
            ),
        ],
        o.new_notifications > 0 ==> account_badges(Some(o), false, false) == seq![
            ("new +"@ + decimal(o.new_notifications as nat), BadgeTone::StrongWarning),
            ("unseen "@ + decimal(o.unseen as nat), BadgeTone::Plain),
            (
                "updated "@ + decimal(o.updated as nat),
                if o.updated > 0 {
                    BadgeTone::Warning
                } else {
                    BadgeTone::Weak
                },
            ),
        ],
        account_badges(Some(o), true, false) == account_badges(Some(o), false, false).push(
            ("syncing…"@, BadgeTone::Weak),
        ),
        account_badges(Some(o), pending, true) == account_badges(Some(o), pending, false).push(
            ("sync failed"@, BadgeTone::Error),
        ),
        account_badges(None, pending, true) == account_badges(None, pending, false).push(
            ("sync failed"@, BadgeTone::Error),
        ),
{
    assert(account_badges(None, false, false) =~= seq![("No data yet"@, BadgeTone::Weak)]);
    assert(account_badges(None, true, false) =~= seq![
        ("Loading…"@, BadgeTone::Weak),
        ("syncing…"@, BadgeTone::Weak),
    ]);
    let tone = if o.updated > 0 {
        BadgeTone::Warning
    } else {
        BadgeTone::Weak
    };
    if o.new_notifications == 0 {
        assert(account_badges(Some(o), false, false) =~= seq![
            ("unseen "@ + decimal(o.unseen as nat), BadgeTone::Plain),
            ("updated "@ + decimal(o.updated as nat), tone),
        ]);
    } else {
        assert(account_badges(Some(o), false, false) =~= seq![
            ("new +"@ + decimal(o.new_notifications as nat), BadgeTone::StrongWarning),
            ("unseen "@ + decimal(o.unseen as nat), BadgeTone::Plain),
            ("updated "@ + decimal(o.updated as nat), tone),
        ]);
    }
}

// ---------------------------------------------------------------------------
// The card of an account
// ---------------------------------------------------------------------------

/// When an account was last synced is said in UTC, and that it never was is said too.
pub proof fn law_synced_lines(when: Seq<char>)
    ensures
        synced_line(Some(when)) == "Last synced "@ + when + " UTC"@,
        synced_line(None) == "No data fetched yet."@,
{
}

/// The line on a review says how it stands, notes what was cut from the front of its output
/// exactly where something was, and whether its window is hidden.
pub proof fn law_review_lines(line: ReviewLine, output: ReviewOutputState)
    requires
        describes(line, output),
    ensures
        summarizes(line.summary@, output),
        line.trimmed is None <==> output.dropped_chars == 0,
        line.trimmed matches Some(text) ==> text@ == "Trimmed "@ + decimal(
            output.dropped_chars as nat,
        ) + " chars"@,
        line.window_hidden <==> !output.open,
{
}

/// Filing a thread away and marking it as read are each started exactly where no action on the
/// thread is under way; from then on one is, and nothing else of the account changes.
pub proof fn law_actions_on_threads(
    before: AccountState,
    id: String,
    repo_paths: Map<Seq<char>, Seq<char>>,
    custom_review_command: bool,
    after: AccountState,
    command: AccountCommand,
    done: bool,
    other: Seq<char>,
)
    requires
        carried_out(
            before,
            if done {
                AccountAction::Done(id)
            } else {
                AccountAction::Read(id)
            },
            repo_paths,
            custom_review_command,
            after,
            command,
        ),
    ensures
        command is Nothing <==> before.inflight_done@.contains(id@),
        done && !before.inflight_done@.contains(id@) ==> (
        command matches AccountCommand::MarkDone(thread) && thread@ == id@),
        !done && !before.inflight_done@.contains(id@) ==> (
        command matches AccountCommand::MarkRead(thread) && thread@ == id@),
        after.inflight_done@.contains(id@),
        other != id@ ==> (after.inflight_done@.contains(other) <==> before.inflight_done@.contains(
            other,
        )),
        after.inbox == before.inbox,
        after.last_error == before.last_error,
        after.pending_job == before.pending_job,
        after.profile == before.profile,
        after.new_notification_ids == before.new_notification_ids,
        after.highlights == before.highlights,
        after.review_outputs == before.review_outputs,
{
}

/// A thread that was looked at is seen at once, and nothing has to be started for it.
pub proof fn law_looking_at_threads(
    before: AccountState,
    id: String,
    repo_paths: Map<Seq<char>, Seq<char>>,
    custom_review_command: bool,
    after: AccountState,
    command: AccountCommand,
    i: int,
)
    requires
        carried_out(
            before,
            AccountAction::Seen(id),
            repo_paths,
            custom_review_command,
            after,
            command,
        ),
    ensures
        command is Nothing,
        before.inbox is None ==> after.inbox is None,
        before.inbox matches Some(was) ==> (after.inbox matches Some(is) && is.notifications@.len()
            == was.notifications@.len() && (0 <= i < was.notifications@.len()
            ==> if was.notifications@[i].thread_id@ == id@ {
            is.notifications@[i].unread == false && is.notifications@[i].last_read_at == Some(
                was.notifications@[i].updated_at,
            ) && is.notifications@[i].title == was.notifications@[i].title
        } else {
            is.notifications@[i] == was.notifications@[i]
        })),
        after.inflight_done == before.inflight_done,
        after.last_error == before.last_error,
        after.pending_job == before.pending_job,
        after.review_outputs == before.review_outputs,
{
    if let (Some(was), Some(is)) = (before.inbox, after.inbox) {
        if 0 <= i < was.notifications@.len() {
            if was.notifications@[i].thread_id@ == id@ {
                assert(seen_from(was.notifications@[i], is.notifications@[i]));
            } else {
                assert(is.notifications@[i] == was.notifications@[i]);
            }
        }
    }
}

/// The window of a review that is there is opened where it was closed and closed where it was
/// open; all else of it, and every other review, is as before.
pub proof fn law_toggling_windows(
    before: AccountState,
    id: String,
    repo_paths: Map<Seq<char>, Seq<char>>,
    custom_review_command: bool,
    after: AccountState,
    command: AccountCommand,
    other: Seq<char>,
)
    requires
        carried_out(
            before,
            AccountAction::ToggleReviewWindow(id),
            repo_paths,
            custom_review_command,
            after,
            command,
        ),
    ensures
        command is Nothing,
        after.review_outputs@.dom() == before.review_outputs@.dom(),
        before.review_outputs@.dom().contains(id@) ==> after.review_outputs@[id@].open
            == !before.review_outputs@[id@].open && after.review_outputs@[id@].status
            == before.review_outputs@[id@].status && after.review_outputs@[id@].content
            == before.review_outputs@[id@].content && after.review_outputs@[id@].terminal
            == before.review_outputs@[id@].terminal,
        other != id@ && before.review_outputs@.dom().contains(other) ==> after.review_outputs@[other]
            == before.review_outputs@[other],
        after.inbox == before.inbox,
        after.inflight_done == before.inflight_done,
        after.last_error == before.last_error,
        after.pending_job == before.pending_job,
{
    assert(after.review_outputs@.dom() =~= before.review_outputs@.dom());
}

/// Stopping a review has to be tried exactly where it runs, and changes nothing by itself.
pub proof fn law_stopping_reviews(
    before: AccountState,
    id: String,
    repo_paths: Map<Seq<char>, Seq<char>>,
    custom_review_command: bool,
    after: AccountState,
    command: AccountCommand,
)
    requires
        carried_out(
            before,
            AccountAction::StopReview(id),
            repo_paths,
            custom_review_command,
            after,
            command,
        ),
    ensures
        ({
            let runs = before.review_outputs@.dom().contains(id@)
                && before.review_outputs@[id@].status == ReviewStatus::Running;
            &&& runs ==> (command matches AccountCommand::StopReview(thread) && thread@ == id@)
            &&& !runs ==> command is Nothing
        }),
        after == before,
{
}

/// A review is started exactly where there is a command for it, the repository has a checkout
/// under its key, and none runs for the thread: of that pull request, in that checkout, with
/// the settings of the account. Where it cannot be run, that is said; where one runs, nothing
/// changes.
pub proof fn law_starting_reviews(
    before: AccountState,
    action: AccountAction,
    repo_paths: Map<Seq<char>, Seq<char>>,
    custom_review_command: bool,
    after: AccountState,
    command: AccountCommand,
    other: Seq<char>,
)
    requires
        action is Review,
        carried_out(before, action, repo_paths, custom_review_command, after, command),
    ensures
        action matches AccountAction::Review { thread_id, repo, pr_number, .. } ==> {
            let can_run = custom_review_command && (repo_key(repo@) matches Some(key)
                && repo_paths.dom().contains(key));
            let runs = before.review_outputs@.dom().contains(thread_id@)
                && before.review_outputs@[thread_id@].status == ReviewStatus::Running;
            &&& command is Nothing <==> !can_run || runs
            &&& can_run && !runs ==> {
                &&& command matches AccountCommand::Review { thread_id: thread, launch } && thread@
                    == thread_id@ && launch@.repo == repo@ && launch@.repo_path
                    == repo_paths[repo_key(repo@)->0] && launch@.pr_number == pr_number
                    && launch@.review_settings == before.profile.review_settings@
                &&& after.review_outputs@.dom().contains(thread_id@)
                &&& after.review_outputs@[thread_id@].status == ReviewStatus::Running
                &&& after.review_outputs@[thread_id@].open
                &&& after.review_outputs@[thread_id@].content@.len() == 0
                &&& after.review_outputs@[thread_id@].target@ == repo@ + "#"@ + decimal(
                    pr_number as nat,
                )
                &&& after.last_error == before.last_error
            }
            &&& can_run && runs ==> after == before
            &&& !can_run ==> (after.last_error matches Some(said) && said@
                == "Custom `review-pr` is unavailable for this repository."@)
                && after.review_outputs == before.review_outputs
            &&& other != thread_id@ ==> after.review_outputs@.dom().contains(other)
                == before.review_outputs@.dom().contains(other) && (
            before.review_outputs@.dom().contains(other) ==> after.review_outputs@[other]
                == before.review_outputs@[other])
            &&& after.inbox == before.inbox
            &&& after.inflight_done == before.inflight_done
            &&& after.pending_job == before.pending_job
            &&& after.profile == before.profile
        },
{
}

/// The body of a card shows the notifications of an account that has been synced and is
/// unfolded, in one section or by section; folded it says where there are none yet.
pub proof fn law_card_bodies(account: AccountState, body: CardBody)
    requires
        body_of(account, body),
    ensures
        body == CardBody::Unified <==> account.expanded && account.inbox is Some
            && account.view_mode == AccountViewMode::Inbox,
        body == CardBody::Grouped <==> account.expanded && account.inbox is Some
            && account.view_mode == AccountViewMode::Grouped,
        body == CardBody::NoData <==> !account.expanded && account.inbox is None,
        body == CardBody::Blank <==> account.expanded == (account.inbox is None),
{
}

/// An error is shown wherever there is one; else that a sync is under way where it is.
pub proof fn law_notices(account: AccountState, notice: StatusNotice)
    requires
        notice_of(account, notice),
    ensures
        notice is Error <==> account.last_error is Some,
        notice is Fetching <==> account.last_error is None && account.pending_job,
        notice is Nothing <==> account.last_error is None && !account.pending_job,
        notice matches StatusNotice::Error(text) ==> (account.last_error matches Some(error)
            && error@ == text@),
        notice matches StatusNotice::Fetching(text) ==> text@
            == "Fetching latest notifications..."@,
{
}

/// What is new in an account is counted once it has been synced: its new threads, and the
/// unread and the updated notifications of its inbox.
pub proof fn law_overviews(overview: Option<AccountOverview>, account: AccountState)
    requires
        sums_up(overview, account),
    ensures
        overview is Some <==> account.inbox is Some,
        overview matches Some(o) ==> o.new_notifications == account.new_notification_ids@.len()
            && o.unseen == unseen_in(account.inbox->0.notifications@, SectionKind::Inbox)
            && o.updated == updated_in(account.inbox->0.notifications@, SectionKind::Inbox),
{
}

/// The name of an account is strong where it is selected or has something new, and stands out
/// exactly where it has something new and is not selected.
pub proof fn law_headings(is_selected: bool, overview: Option<AccountOverview>, style: HeadingStyle)
    requires
        heading_of(is_selected, overview, style),
    ensures
        ({
            let has_new = overview matches Some(o) && o.new_notifications > 0;
            &&& style.strong <==> is_selected || has_new
            &&& style.tone == TextTone::Warning <==> has_new && !is_selected
            &&& style.tone == TextTone::Plain <==> !has_new || is_selected
        }),
{
}

/// What is to be revisited stands out, else what was seen steps back.
pub proof fn law_tones(visual: NotificationVisualState, tone: TextTone)
    requires
        tone_of(visual, tone),
    ensures
        tone == TextTone::Warning <==> visual.needs_revisit,
        tone == TextTone::Weak <==> visual.seen && !visual.needs_revisit,
        tone == TextTone::Plain <==> !visual.seen && !visual.needs_revisit,
{
}

/// A row shows the repository, the title with its number, the reason and the time of the last
/// update of its notification, and leads where that does. Its buttons and colours go by the
/// notification and by what is under way.
pub proof fn law_rows(
    row: NotificationRow,
    item: NotificationItem,
    render_state: NotificationRenderState,
)
    requires
        row_of(row, item, render_state),
    ensures
        row.repo@ == item.repo@,
        row.reason@ == "Reason: "@ + item.reason@,
        row.title@ == item@.display_title(),
        row.url is Some <==> item.url is Some,
        row.url matches Some(url) ==> url@ == item.url->0@,
        row.updated matches Some(when) ==> written_in_utc(
            item.updated_at.secs,
            item.updated_at.nanos,
            "%Y-%m-%d %H:%M"@,
        ) == Some(when@),
        row.updated is None ==> written_in_utc(
            item.updated_at.secs,
            item.updated_at.nanos,
            "%Y-%m-%d %H:%M"@,
        ) is None,
        row.visual == visual_state(item, render_state),
        row.tone == TextTone::Warning <==> row.visual.needs_revisit,
        row.tone == TextTone::Weak <==> row.visual.seen && !row.visual.needs_revisit,
        row.mark_read_enabled == can_mark_read(item, render_state),
        row.review == review_control(item, render_state),
        row.window == window_control(item, render_state),
        row.spinner <==> render_state.inflight_done@.contains(item.thread_id@)
            && !render_state.active_review_thread_ids@.contains(item.thread_id@),
{
}

/// The dashboard shows the selected account where it is tracked, and else a note: another one
/// where there are no accounts.
pub proof fn law_dashboards(app: ReminderApp, shown: Dashboard)
    requires
        dashboard_of(app, shown),
    ensures
        (shown matches Dashboard::Account(_)) <==> (app.selected_account_login matches Some(login)
            && tracks(app.accounts@, login@)),
        shown matches Dashboard::Account(i) ==> i < app.accounts@.len()
            && app.accounts@[i as int].profile.login@ == app.selected_account_login->0@,
        shown matches Dashboard::Note(note) ==> note@ == if app.accounts@.len() == 0 {
            "Add at least one GitHub account to start aggregating notifications."@
        } else {
            "Select an account on the left to view notifications."@
        },
{
}

/// Clicks in the list of accounts select an account, open its settings, and start a sync of it
/// unless one is under way. Removing it is handed on.
pub proof fn law_clicks_in_the_list(
    before: ReminderApp,
    clicks: AccountListClicks,
    after: ReminderApp,
    step: AccountListStep,
    i: usize,
)
    requires
        list_clicked(before, clicks, after, step),
        i < before.accounts@.len(),
    ensures
        step.remove == clicks.remove_idx,
        clicks.selected_login matches Some(login) ==> (
        after.selected_account_login matches Some(is) && is@ == login@),
        clicks.selected_login is None ==> opt_text(after.selected_account_login) == opt_text(
            before.selected_account_login,
        ),
        clicks.settings_login is None ==> after.review_settings_editor
            == before.review_settings_editor && after.global_error == before.global_error,
        clicks.settings_login matches Some(login) ==> if tracks(before.accounts@, login@) {
            (after.review_settings_editor matches Some(editor) && editor.login@ == login@)
                && after.global_error == before.global_error
        } else {
            after.review_settings_editor == before.review_settings_editor && (
            after.global_error matches Some(said) && said@ == "Cannot find account settings for "@
                + login@ + "."@)
        },
        after.accounts@.len() == before.accounts@.len(),
        step.sync == Some(i) <==> clicks.refresh_idx == Some(i)
            && !before.accounts@[i as int].pending_job,
        clicks.refresh_idx == Some(i) ==> after.accounts@[i as int].pending_job,
        clicks.refresh_idx != Some(i) ==> after.accounts@[i as int] == before.accounts@[i as int],
        after.accounts@[i as int].profile == before.accounts@[i as int].profile,
        after.accounts@[i as int].inbox == before.accounts@[i as int].inbox,
        after.repo_paths == before.repo_paths,
        after.account_form == before.account_form,
        after.repo_path_form == before.repo_path_form,
        after.secret_store == before.secret_store,
{
}

/// When an account was last synced is told to the second, that it never was is told too, and
/// nothing is where the time cannot be written out.
pub proof fn law_telling_the_sync(account: AccountState, line: Option<String>)
    requires
        tells_sync(account, line),
    ensures
        account.inbox is None ==> (line matches Some(text) && text@ == "No data fetched yet."@),
        account.inbox matches Some(inbox) ==> match written_in_utc(
            inbox.fetched_at.secs,
            inbox.fetched_at.nanos,
            "%Y-%m-%d %H:%M:%S"@,
        ) {
            Some(when) => line matches Some(text) && text@ == "Last synced "@ + when + " UTC"@,
            None => line is None,
        },
{
}

/// Showing the list of a section takes the highlight off that section; a section that is
/// folded keeps it, and so do all others.
pub proof fn law_showing_a_section(
    before: AccountState,
    kind: SectionKind,
    body_shown: bool,
    after: AccountState,
    other: SectionKind,
)
    requires
        highlight_after(before, kind, body_shown, after),
    ensures
        body_shown ==> !after.highlights.has(kind),
        !body_shown ==> after.highlights.has(other) == before.highlights.has(other),
        other != kind ==> after.highlights.has(other) == before.highlights.has(other),
        after.inbox == before.inbox,
        after.new_notification_ids == before.new_notification_ids,
        after.review_outputs == before.review_outputs,
        after.inflight_done == before.inflight_done,
        after.last_error == before.last_error,
        after.pending_job == before.pending_job,
{
}

} // verus!

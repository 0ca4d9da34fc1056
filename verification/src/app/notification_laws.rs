//! What holds of notifications as a whole.
use vstd::prelude::*;

use crate::app::notification_state::{
    awaits_review, base_state, counts_section, has_thread, in_section, new_threads, pending_threads,
    review_requested, reviewed, section_grew, stands_in, to_revisit, unread, unseen_in, updated_in,
    SectionCounts, SectionKind,
};
use crate::app::state::{seen_from, thread_seen};
use crate::domain::{pull_key, pull_number, InboxSnapshot, NotificationItem};

verus! {

/// Every notification stands in the inbox and in exactly one of the other sections.
pub proof fn law_sections_part_notifications(item: NotificationItem)
    ensures
        stands_in(SectionKind::Inbox, item),
        stands_in(SectionKind::ReviewRequests, item) ==> !stands_in(SectionKind::Mentions, item)
            && !stands_in(SectionKind::Notifications, item),
        stands_in(SectionKind::Mentions, item) ==> !stands_in(SectionKind::Notifications, item),
        stands_in(SectionKind::ReviewRequests, item) || stands_in(SectionKind::Mentions, item)
            || stands_in(SectionKind::Notifications, item),
{
    reveal_strlit("review_requested");
    reveal_strlit("mention");
    reveal_strlit("team_mention");
    assert("review_requested"@.len() == 16);
    assert("mention"@.len() == 7);
    assert("team_mention"@.len() == 12);
}

proof fn lemma_counts_add_up(items: Seq<NotificationItem>, keep: spec_fn(NotificationItem) -> bool)
    ensures
        items.filter(in_section(SectionKind::Inbox)).filter(keep).len() == items.filter(
            in_section(SectionKind::ReviewRequests),
        ).filter(keep).len() + items.filter(in_section(SectionKind::Mentions)).filter(keep).len()
            + items.filter(in_section(SectionKind::Notifications)).filter(keep).len(),
    decreases items.len(),
{
    reveal(Seq::filter);
    if items.len() > 0 {
        let head = items.drop_last();
        let last = items.last();
        lemma_counts_add_up(head, keep);
        law_sections_part_notifications(last);
        lemma_filter_push(head.filter(in_section(SectionKind::Inbox)), last, keep);
        lemma_filter_push(head.filter(in_section(SectionKind::ReviewRequests)), last, keep);
        lemma_filter_push(head.filter(in_section(SectionKind::Mentions)), last, keep);
        lemma_filter_push(head.filter(in_section(SectionKind::Notifications)), last, keep);
    }
}

proof fn lemma_filter_push(
    items: Seq<NotificationItem>,
    item: NotificationItem,
    keep: spec_fn(NotificationItem) -> bool,
)
    ensures
        items.push(item).filter(keep).len() == items.filter(keep).len() + if keep(item) {
            1int
        } else {
            0
        },
{
    reveal(Seq::filter);
    assert(items.push(item).drop_last() =~= items);
}

/// The counts of the inbox are the sums of the counts of the other sections.
pub proof fn law_section_counts_add_up(items: Seq<NotificationItem>)
    ensures
        unseen_in(items, SectionKind::Inbox) == unseen_in(items, SectionKind::ReviewRequests)
            + unseen_in(items, SectionKind::Mentions) + unseen_in(
            items,
            SectionKind::Notifications,
        ),
        updated_in(items, SectionKind::Inbox) == updated_in(items, SectionKind::ReviewRequests)
            + updated_in(items, SectionKind::Mentions) + updated_in(
            items,
            SectionKind::Notifications,
        ),
{
    lemma_counts_add_up(items, unread());
    lemma_counts_add_up(items, to_revisit());
}

/// A notification is seen exactly where it is neither unread nor to be revisited.
pub proof fn law_seen_or_not(item: NotificationItem)
    ensures
        base_state(item).seen <==> !item.unread && !base_state(item).needs_revisit,
        item.last_read_at is None ==> !base_state(item).needs_revisit,
{
}

/// At the first sync no thread is new; after that a thread is new exactly where it was not
/// there before; and a sync that brings nothing else brings no new thread.
pub proof fn law_new_threads(previous: InboxSnapshot, next: InboxSnapshot, id: Seq<char>)
    ensures
        !new_threads(None, next).contains(id),
        new_threads(Some(previous), next).contains(id) <==> has_thread(next.notifications@, id)
            && !has_thread(previous.notifications@, id),
        new_threads(Some(next), next) == Set::<Seq<char>>::empty(),
{
    assert(new_threads(Some(next), next) =~= Set::<Seq<char>>::empty());
}

/// Whether a pull request waits for a review does not depend on why the notification was
/// sent, whether it was read, or what its title is.
pub proof fn law_pending_goes_by_pull_request(
    inbox: InboxSnapshot,
    a: NotificationItem,
    b: NotificationItem,
)
    requires
        a@.repo == b@.repo,
        a@.url == b@.url,
    ensures
        awaits_review(inbox, a) == awaits_review(inbox, b),
{
}

/// No thread about a pull request that the account has reviewed is pending, and none is
/// where no review is asked for.
pub proof fn law_reviewed_is_not_pending(inbox: InboxSnapshot, item: NotificationItem)
    ensures
        awaits_review(inbox, item) ==> (item@.pull_request_key() matches Some(key)
            && review_requested(inbox, key) && !reviewed(inbox, key)),
        item@.pull_request_key() matches Some(key) ==> reviewed(inbox, key) ==> !awaits_review(
            inbox,
            item,
        ),
        inbox.review_requests@.len() == 0 ==> pending_threads(inbox) == Set::<Seq<char>>::empty(),
{
    if inbox.review_requests@.len() == 0 {
        assert(pending_threads(inbox) =~= Set::<Seq<char>>::empty());
    }
}

/// A notification that has been marked as seen is seen, and stays where it was in the
/// sections and threads.
pub proof fn law_marking_seen(before: NotificationItem, after: NotificationItem, kind: SectionKind)
    requires
        seen_from(before, after),
    ensures
        base_state(after).seen,
        after.thread_id == before.thread_id,
        stands_in(kind, after) == stands_in(kind, before),
{
}

/// Marking a thread as seen leaves no notification of it unseen, and all others as they
/// were; the same threads are there.
pub proof fn law_seen_thread(
    before: Seq<NotificationItem>,
    after: Seq<NotificationItem>,
    id: Seq<char>,
    i: int,
)
    requires
        thread_seen(before, after, id),
        0 <= i < before.len(),
    ensures
        after[i].thread_id@ == id ==> base_state(after[i]).seen,
        after[i].thread_id@ != id ==> after[i] == before[i],
        after[i].thread_id == before[i].thread_id,
{
    if before[i].thread_id@ == id {
        assert(seen_from(before[i], after[i]));
    } else {
        assert(after[i] == before[i]);
    }
}

/// A thread is pending if and only if it has a notification whose pull request, by repository
/// and number, is that of some review request and of no recent review.
pub proof fn law_pending_exactly_where_awaited(inbox: InboxSnapshot, id: Seq<char>)
    ensures
        pending_threads(inbox).contains(id) <==> exists|i: int|
            0 <= i < inbox.notifications@.len() && (#[trigger] inbox.notifications@[i]).thread_id@
                == id && (inbox.notifications@[i].url matches Some(url) && pull_number(url@) is Some
                && (exists|j: int|
                0 <= j < inbox.review_requests@.len() && (#[trigger] inbox.review_requests@[j]).repo@
                    == inbox.notifications@[i].repo@ && pull_number(inbox.review_requests@[j].url@)
                    == pull_number(url@)) && !(exists|k: int|
                0 <= k < inbox.recent_reviews@.len() && (#[trigger] inbox.recent_reviews@[k]).repo@
                    == inbox.notifications@[i].repo@ && pull_number(inbox.recent_reviews@[k].url@)
                    == pull_number(url@))),
{
    if pending_threads(inbox).contains(id) {
        let i = choose|i: int|
            0 <= i < inbox.notifications@.len() && (#[trigger] inbox.notifications@[i]).thread_id@
                == id && awaits_review(inbox, inbox.notifications@[i]);
        lemma_awaited(inbox, inbox.notifications@[i]);
    }
    assert forall|i: int| 0 <= i < inbox.notifications@.len() implies awaits_review(
        inbox,
        #[trigger] inbox.notifications@[i],
    ) == awaited(inbox, inbox.notifications@[i]) by {
        lemma_awaited(inbox, inbox.notifications@[i]);
    }
}

spec fn awaited(inbox: InboxSnapshot, item: NotificationItem) -> bool {
    item.url matches Some(url) && pull_number(url@) is Some && (exists|j: int|
        0 <= j < inbox.review_requests@.len() && (#[trigger] inbox.review_requests@[j]).repo@
            == item.repo@ && pull_number(inbox.review_requests@[j].url@) == pull_number(url@))
        && !(exists|k: int|
        0 <= k < inbox.recent_reviews@.len() && (#[trigger] inbox.recent_reviews@[k]).repo@
            == item.repo@ && pull_number(inbox.recent_reviews@[k].url@) == pull_number(url@))
}

proof fn lemma_awaited(inbox: InboxSnapshot, item: NotificationItem)
    ensures
        awaits_review(inbox, item) == awaited(inbox, item),
{
    if let Some(url) = item.url {
        if let Some(n) = pull_number(url@) {
            let key = (item.repo@, n);
            assert(item@.pull_request_key() == Some(key));
            if review_requested(inbox, key) {
                let j = choose|j: int|
                    0 <= j < inbox.review_requests@.len() && pull_key(
                        (#[trigger] inbox.review_requests@[j]).repo@,
                        inbox.review_requests@[j].url@,
                    ) == Some(key);
                assert(inbox.review_requests@[j].repo@ == item.repo@);
            }
            if reviewed(inbox, key) {
                let k = choose|k: int|
                    0 <= k < inbox.recent_reviews@.len() && pull_key(
                        (#[trigger] inbox.recent_reviews@[k]).repo@,
                        inbox.recent_reviews@[k].url@,
                    ) == Some(key);
                assert(inbox.recent_reviews@[k].repo@ == item.repo@);
            }
        }
    }
}

/// Which section a notification stands in goes by its reason alone: a requested review, a
/// mention of the account or its team, or anything else.
pub proof fn law_sections_go_by_reason(item: NotificationItem)
    ensures
        stands_in(SectionKind::ReviewRequests, item) <==> item.reason@ == "review_requested"@,
        stands_in(SectionKind::Mentions, item) <==> item.reason@ == "mention"@ || item.reason@
            == "team_mention"@,
        stands_in(SectionKind::Notifications, item) <==> item.reason@ != "review_requested"@
            && item.reason@ != "mention"@ && item.reason@ != "team_mention"@,
{
}

/// A notification adds one to the count of unread ones exactly where it is unread, and one to
/// the count of updated ones exactly where it was read before and updated later; it counts in
/// the sections it stands in.
pub proof fn law_counting(items: Seq<NotificationItem>, item: NotificationItem, kind: SectionKind)
    ensures
        unseen_in(Seq::empty(), kind) == 0,
        updated_in(Seq::empty(), kind) == 0,
        unseen_in(items.push(item), kind) == unseen_in(items, kind) + if item.unread && stands_in(
            kind,
            item,
        ) {
            1int
        } else {
            0
        },
        updated_in(items.push(item), kind) == updated_in(items, kind) + if stands_in(kind, item) && (
        item.last_read_at matches Some(read) && (item.updated_at.secs > read.secs || (
        item.updated_at.secs == read.secs && item.updated_at.nanos > read.nanos))) {
            1int
        } else {
            0
        },
{
    reveal(Seq::filter);
    assert(items.push(item).drop_last() =~= items);
    let subset = items.filter(in_section(kind));
    lemma_filter_push(subset, item, unread());
    lemma_filter_push(subset, item, to_revisit());
    let none = Seq::<NotificationItem>::empty();
    assert(none.filter(in_section(kind)) =~= none);
    assert(none.filter(unread()) =~= none);
    assert(none.filter(to_revisit()) =~= none);
}

/// A notification is to be revisited exactly where it was read before and updated later, and
/// seen exactly where it is neither unread nor to be revisited.
pub proof fn law_drawn_by_times(item: NotificationItem)
    ensures
        base_state(item).needs_revisit <==> (item.last_read_at matches Some(read) && (
        item.updated_at.secs > read.secs || (item.updated_at.secs == read.secs
            && item.updated_at.nanos > read.nanos))),
        base_state(item).seen <==> !item.unread && !base_state(item).needs_revisit,
        !base_state(item).pending_review,
{
}

/// A section has grown exactly where its count of unread or of updated notifications has; so
/// one unread notification more makes it grow, and no change does not.
pub proof fn law_growing(items: Seq<NotificationItem>, item: NotificationItem, kind: SectionKind)
    ensures
        !section_grew(items, items, kind),
        section_grew(items, items.push(item), kind) <==> stands_in(kind, item) && (item.unread || (
        item.last_read_at matches Some(read) && (item.updated_at.secs > read.secs || (
        item.updated_at.secs == read.secs && item.updated_at.nanos > read.nanos)))),
        !section_grew(items.push(item), items, kind),
{
    law_counting(items, item, kind);
}

/// A section whose unread or whose updated notifications have become more has grown, whatever
/// became of the others; one of which neither have become more has not.
pub proof fn law_either_count_tells(
    before: Seq<NotificationItem>,
    after: Seq<NotificationItem>,
    kind: SectionKind,
)
    ensures
        unseen_in(after, kind) > unseen_in(before, kind) ==> section_grew(before, after, kind),
        updated_in(after, kind) > updated_in(before, kind) ==> section_grew(before, after, kind),
        unseen_in(after, kind) <= unseen_in(before, kind) && updated_in(after, kind) <= updated_in(
            before,
            kind,
        ) ==> !section_grew(before, after, kind),
{
}

/// A thread is new exactly where some notification of this sync belongs to it and none of the
/// last sync did.
pub proof fn law_new_by_thread(previous: InboxSnapshot, next: InboxSnapshot, id: Seq<char>)
    ensures
        new_threads(Some(previous), next).contains(id) <==> (exists|i: int|
            0 <= i < next.notifications@.len() && (#[trigger] next.notifications@[i]).thread_id@
                == id) && (forall|j: int|
            0 <= j < previous.notifications@.len() ==> (#[trigger] previous.notifications@[j]).thread_id@
                != id),
        new_threads(None, next) == Set::<Seq<char>>::empty(),
{
}

/// Counts have grown exactly where one of the two has; they are those of a section exactly
/// where both are.
pub proof fn law_counts_of_sections(
    counts: SectionCounts,
    previous: SectionCounts,
    items: Seq<NotificationItem>,
    kind: SectionKind,
)
    ensures
        counts.grew_from(previous) <==> counts.unseen > previous.unseen || counts.updated
            > previous.updated,
        counts_section(counts, items, kind) <==> counts.unseen == unseen_in(items, kind)
            && counts.updated == updated_in(items, kind),
{
}

} // verus!

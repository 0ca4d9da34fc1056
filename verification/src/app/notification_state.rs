//! How notifications are sorted, counted and marked.
use vstd::prelude::*;

use crate::domain::{pull_key, InboxSnapshot, NotificationItem, PullRequestKey};
use crate::text::text_eq;
use vstd::hash_set::StringHashSet;

verus! {

/// The reason of notifications that ask for a review.
pub const REVIEW_REQUEST_REASON: &'static str = "review_requested";

// ---------------------------------------------------------------------------
// Sections
// ---------------------------------------------------------------------------

/// A section in which notifications are listed.
#[derive(Clone, Copy, Debug, PartialEq, Eq, Structural)]
pub enum SectionKind {
    /// All of them.
    Inbox,
    ReviewRequests,
    Mentions,
    /// All that are neither review requests nor mentions.
    Notifications,
}

/// Whether a notification asks for a review.
pub open spec fn asks_for_review(item: NotificationItem) -> bool {
    item.reason@ == REVIEW_REQUEST_REASON@
}

/// Whether a notification mentions the account or its team.
pub open spec fn mentions(item: NotificationItem) -> bool {
    item.reason@ == "mention"@ || item.reason@ == "team_mention"@
}

/// Whether a notification stands in a section.
pub open spec fn stands_in(kind: SectionKind, item: NotificationItem) -> bool {
    match kind {
        SectionKind::Inbox => true,
        SectionKind::ReviewRequests => asks_for_review(item),
        SectionKind::Mentions => mentions(item),
        SectionKind::Notifications => !asks_for_review(item) && !mentions(item),
    }
}

/// Picks out the notifications of a section.
pub open spec fn in_section(kind: SectionKind) -> spec_fn(NotificationItem) -> bool {
    |item: NotificationItem| stands_in(kind, item)
}

/// Whether a notification asks for a review.
pub fn is_review_request(item: &NotificationItem) -> (found: bool)
    ensures
        found == asks_for_review(*item),
{
    text_eq(item.reason.as_str(), REVIEW_REQUEST_REASON)
}

/// Whether a notification mentions the account or its team.
pub fn is_mention(item: &NotificationItem) -> (found: bool)
    ensures
        found == mentions(*item),
{
    text_eq(item.reason.as_str(), "mention") || text_eq(item.reason.as_str(), "team_mention")
}

/// Whether a notification is neither a review request nor a mention.
pub fn is_other_notification(item: &NotificationItem) -> (found: bool)
    ensures
        found == (!asks_for_review(*item) && !mentions(*item)),
{
    !is_review_request(item) && !is_mention(item)
}

fn is_in_section(kind: SectionKind, item: &NotificationItem) -> (found: bool)
    ensures
        found == stands_in(kind, *item),
{
    match kind {
        SectionKind::Inbox => true,
        SectionKind::ReviewRequests => is_review_request(item),
        SectionKind::Mentions => is_mention(item),
        SectionKind::Notifications => is_other_notification(item),
    }
}

/// The notifications that references lead to.
pub open spec fn referred(items: Seq<&NotificationItem>) -> Seq<NotificationItem> {
    items.map_values(|item: &NotificationItem| *item)
}

/// The notifications of a section, in their order.
pub fn section_items(items: &Vec<NotificationItem>, kind: SectionKind) -> (subset: Vec<
    &NotificationItem,
>)
    ensures
        referred(subset@) == items@.filter(in_section(kind)),
{
    let mut subset: Vec<&NotificationItem> = Vec::new();
    let mut i: usize = 0;
    proof {
        reveal(Seq::filter);
        assert(items@.take(0).filter(in_section(kind)) =~= Seq::<NotificationItem>::empty());
        assert(referred(subset@) =~= Seq::<NotificationItem>::empty());
    }
    while i < items.len()
        invariant
            i <= items@.len(),
            referred(subset@) == items@.take(i as int).filter(in_section(kind)),
        decreases items@.len() - i,
    {
        let ghost before = subset@;
        let item: &NotificationItem = &items[i];
        proof {
            reveal(Seq::filter);
            assert(items@.take(i + 1).drop_last() =~= items@.take(i as int));
            assert(items@.take(i + 1).last() == *item);
        }
        if is_in_section(kind, item) {
            subset.push(item);
            proof {
                assert(referred(subset@) =~= referred(before).push(*item));
            }
        }
        i = i + 1;
    }
    proof {
        assert(items@.take(i as int) =~= items@);
    }
    subset
}

// ---------------------------------------------------------------------------
// Counting
// ---------------------------------------------------------------------------

/// Whether a notification was updated after it was last read.
pub open spec fn updated_since_read(item: NotificationItem) -> bool {
    match item.last_read_at {
        Some(last_read) => item.updated_at.later_than(last_read),
        None => false,
    }
}

/// Picks out unread notifications.
pub open spec fn unread() -> spec_fn(NotificationItem) -> bool {
    |item: NotificationItem| item.unread
}

/// Picks out notifications that were updated after they were last read.
pub open spec fn to_revisit() -> spec_fn(NotificationItem) -> bool {
    |item: NotificationItem| updated_since_read(item)
}

/// How a notification is drawn.
#[derive(Clone, Copy, Debug, PartialEq, Eq, Structural)]
pub struct NotificationVisualState {
    pub seen: bool,
    pub needs_revisit: bool,
    pub pending_review: bool,
}

/// How a notification is drawn, going by itself alone.
pub open spec fn base_state(item: NotificationItem) -> NotificationVisualState {
    NotificationVisualState {
        seen: !item.unread && !updated_since_read(item),
        needs_revisit: updated_since_read(item),
        pending_review: false,
    }
}

/// How a notification is drawn, going by itself alone.
pub fn base_notification_state(item: &NotificationItem) -> (visual: NotificationVisualState)
    ensures
        visual == base_state(*item),
{
    let needs_revisit: bool = match &item.last_read_at {
        Some(last_read) => item.updated_at.is_after(last_read),
        None => false,
    };
    NotificationVisualState {
        seen: !item.unread && !needs_revisit,
        needs_revisit,
        pending_review: false,
    }
}

/// How many of some notifications are unread, and how many were updated after they were
/// last read.
pub fn summarize_counts(items: &Vec<&NotificationItem>) -> (counts: (usize, usize))
    ensures
        counts.0 == referred(items@).filter(unread()).len(),
        counts.1 == referred(items@).filter(to_revisit()).len(),
{
    let mut unseen: usize = 0;
    let mut updated: usize = 0;
    let ghost all = referred(items@);
    let mut i: usize = 0;
    proof {
        reveal(Seq::filter);
        assert(all.take(0).filter(unread()) =~= Seq::<NotificationItem>::empty());
        assert(all.take(0).filter(to_revisit()) =~= Seq::<NotificationItem>::empty());
    }
    while i < items.len()
        invariant
            i <= items@.len(),
            all == referred(items@),
            unseen <= i,
            updated <= i,
            unseen == all.take(i as int).filter(unread()).len(),
            updated == all.take(i as int).filter(to_revisit()).len(),
        decreases items@.len() - i,
    {
        let item: &NotificationItem = items[i];
        proof {
            reveal(Seq::filter);
            assert(all.take(i + 1).drop_last() =~= all.take(i as int));
            assert(all.take(i + 1).last() == *item);
        }
        let visual: NotificationVisualState = base_notification_state(item);
        if item.unread {
            unseen = unseen + 1;
        }
        if visual.needs_revisit {
            updated = updated + 1;
        }
        i = i + 1;
    }
    proof {
        assert(all.take(i as int) =~= all);
    }
    (unseen, updated)
}

/// How many notifications of a section are new to the user.
#[derive(Clone, Copy, Debug, PartialEq, Eq, Structural)]
pub struct SectionCounts {
    pub unseen: usize,
    pub updated: usize,
}

impl SectionCounts {
    /// So many unread, so many updated.
    pub fn new(unseen: usize, updated: usize) -> (counts: Self)
        ensures
            counts == (SectionCounts { unseen, updated }),
    {
        SectionCounts { unseen, updated }
    }

    /// Whether one of the counts has grown.
    pub open spec fn grew_from(self, previous: SectionCounts) -> bool {
        self.unseen > previous.unseen || self.updated > previous.updated
    }

    /// Whether one of the counts has grown.
    pub fn bumped_since(&self, previous: &SectionCounts) -> (bumped: bool)
        ensures
            bumped == self.grew_from(*previous),
    {
        self.unseen > previous.unseen || self.updated > previous.updated
    }
}

/// How many notifications of a section are unread.
pub open spec fn unseen_in(items: Seq<NotificationItem>, kind: SectionKind) -> nat {
    items.filter(in_section(kind)).filter(unread()).len()
}

/// How many notifications of a section were updated after they were last read.
pub open spec fn updated_in(items: Seq<NotificationItem>, kind: SectionKind) -> nat {
    items.filter(in_section(kind)).filter(to_revisit()).len()
}

/// Whether a section has more unread or more updated notifications than before.
pub open spec fn section_grew(
    before: Seq<NotificationItem>,
    after: Seq<NotificationItem>,
    kind: SectionKind,
) -> bool {
    unseen_in(after, kind) > unseen_in(before, kind) || updated_in(after, kind) > updated_in(
        before,
        kind,
    )
}

/// Whether `counts` are the counts of a section.
pub open spec fn counts_section(
    counts: SectionCounts,
    items: Seq<NotificationItem>,
    kind: SectionKind,
) -> bool {
    counts.unseen == unseen_in(items, kind) && counts.updated == updated_in(items, kind)
}

/// How many notifications of a section are new to the user.
pub fn section_counts(items: &Vec<NotificationItem>, kind: SectionKind) -> (counts: SectionCounts)
    ensures
        counts_section(counts, items@, kind),
{
    let subset: Vec<&NotificationItem> = section_items(items, kind);
    let (unseen, updated) = summarize_counts(&subset);
    SectionCounts::new(unseen, updated)
}

/// The counts of all sections.
#[derive(Clone, Copy, Debug, PartialEq, Eq, Structural)]
pub struct SectionStats {
    pub inbox: SectionCounts,
    pub review_requests: SectionCounts,
    pub mentions: SectionCounts,
    pub notifications: SectionCounts,
}

impl SectionStats {
    /// The counts of one section.
    pub open spec fn of(self, kind: SectionKind) -> SectionCounts {
        match kind {
            SectionKind::Inbox => self.inbox,
            SectionKind::ReviewRequests => self.review_requests,
            SectionKind::Mentions => self.mentions,
            SectionKind::Notifications => self.notifications,
        }
    }
}

/// The counts of all sections.
pub fn section_stats(inbox: &InboxSnapshot) -> (stats: SectionStats)
    ensures
        forall|kind: SectionKind|
            counts_section(#[trigger] stats.of(kind), inbox.notifications@, kind),
{
    let inbox_counts: SectionCounts = section_counts(&inbox.notifications, SectionKind::Inbox);
    let review_requests: SectionCounts = section_counts(
        &inbox.notifications,
        SectionKind::ReviewRequests,
    );
    let mentions_counts: SectionCounts = section_counts(
        &inbox.notifications,
        SectionKind::Mentions,
    );
    let others: SectionCounts = section_counts(&inbox.notifications, SectionKind::Notifications);
    SectionStats {
        inbox: inbox_counts,
        review_requests,
        mentions: mentions_counts,
        notifications: others,
    }
}

// ---------------------------------------------------------------------------
// New notifications
// ---------------------------------------------------------------------------

/// Whether one of `items` is the thread `id`.
pub open spec fn has_thread(items: Seq<NotificationItem>, id: Seq<char>) -> bool {
    exists|i: int| 0 <= i < items.len() && (#[trigger] items[i]).thread_id@ == id
}

/// The threads of `next` that are not in `previous`.
pub open spec fn added_threads(
    previous: Seq<NotificationItem>,
    next: Seq<NotificationItem>,
) -> Set<Seq<char>> {
    Set::new(|id: Seq<char>| has_thread(next, id) && !has_thread(previous, id))
}

/// The threads that are new in `next`. At the first sync none is.
pub open spec fn new_threads(previous: Option<InboxSnapshot>, next: InboxSnapshot) -> Set<Seq<char>> {
    match previous {
        Some(previous) => added_threads(previous.notifications@, next.notifications@),
        None => Set::empty(),
    }
}

/// The threads of some notifications.
fn known_threads(items: &Vec<NotificationItem>) -> (ids: StringHashSet)
    ensures
        forall|id: Seq<char>| #[trigger] ids@.contains(id) <==> has_thread(items@, id),
{
    let mut ids: StringHashSet = StringHashSet::new();
    let mut i: usize = 0;
    while i < items.len()
        invariant
            i <= items@.len(),
            forall|id: Seq<char>| #[trigger]
                ids@.contains(id) <==> has_thread(items@.take(i as int), id),
        decreases items@.len() - i,
    {
        let ghost before = items@.take(i as int);
        let ghost after = items@.take(i + 1);
        let _ = ids.insert(items[i].thread_id.clone());
        proof {
            assert forall|id: Seq<char>| #[trigger] ids@.contains(id) <==> has_thread(after, id) by {
                assert(after[i as int] == items@[i as int]);
                if has_thread(before, id) {
                    let j = choose|j: int|
                        0 <= j < before.len() && (#[trigger] before[j]).thread_id@ == id;
                    assert(after[j].thread_id@ == id);
                }
                if has_thread(after, id) && id != items@[i as int].thread_id@ {
                    let j = choose|j: int|
                        0 <= j < after.len() && (#[trigger] after[j]).thread_id@ == id;
                    assert(before[j].thread_id@ == id);
                }
            }
        }
        i = i + 1;
    }
    proof {
        assert(items@.take(i as int) =~= items@);
    }
    ids
}

/// Adds the threads that are new in `next` to `ids`.
pub fn add_new_notification_ids(
    ids: &mut StringHashSet,
    previous: Option<&InboxSnapshot>,
    next: &InboxSnapshot,
)
    ensures
        final(ids)@ == old(ids)@.union(
            new_threads(
                match previous {
                    Some(p) => Some(*p),
                    None => None,
                },
                *next,
            ),
        ),
{
    let previous: &InboxSnapshot = match previous {
        Some(previous) => previous,
        None => {
            proof {
                assert(ids@.union(Set::empty()) =~= ids@);
            }
            return;
        },
    };
    let known: StringHashSet = known_threads(&previous.notifications);
    let ghost start = ids@;
    let ghost items = next.notifications@;
    let ghost old_items = previous.notifications@;
    let mut i: usize = 0;
    proof {
        assert(ids@ =~= start.union(added_threads(old_items, items.take(0))));
    }
    while i < next.notifications.len()
        invariant
            i <= items.len(),
            items == next.notifications@,
            forall|id: Seq<char>| #[trigger] known@.contains(id) <==> has_thread(old_items, id),
            ids@ == start.union(added_threads(old_items, items.take(i as int))),
        decreases items.len() - i,
    {
        let ghost before = items.take(i as int);
        let ghost after = items.take(i + 1);
        let item: &NotificationItem = &next.notifications[i];
        if !known.contains(item.thread_id.as_str()) {
            let _ = ids.insert(item.thread_id.clone());
        }
        proof {
            assert forall|id: Seq<char>| #[trigger] has_thread(after, id) <==> has_thread(before, id)
                || id == item.thread_id@ by {
                assert(after[i as int] == *item);
                if has_thread(before, id) {
                    let j = choose|j: int|
                        0 <= j < before.len() && (#[trigger] before[j]).thread_id@ == id;
                    assert(after[j].thread_id@ == id);
                }
                if has_thread(after, id) && id != item.thread_id@ {
                    let j = choose|j: int|
                        0 <= j < after.len() && (#[trigger] after[j]).thread_id@ == id;
                    assert(before[j].thread_id@ == id);
                }
            }
            assert(ids@ =~= start.union(added_threads(old_items, after)));
        }
        i = i + 1;
    }
    proof {
        assert(items.take(i as int) =~= items);
    }
}

/// The threads that are new in `next`. At the first sync none is.
pub fn collect_new_notification_ids(previous: Option<&InboxSnapshot>, next: &InboxSnapshot) -> (ids:
    StringHashSet)
    ensures
        ids@ == new_threads(
            match previous {
                Some(p) => Some(*p),
                None => None,
            },
            *next,
        ),
{
    let mut ids: StringHashSet = StringHashSet::new();
    add_new_notification_ids(&mut ids, previous, next);
    proof {
        let found = new_threads(
            match previous {
                Some(p) => Some(*p),
                None => None,
            },
            *next,
        );
        assert(Set::<Seq<char>>::empty().union(found) =~= found);
    }
    ids
}

// ---------------------------------------------------------------------------
// Pending reviews
// ---------------------------------------------------------------------------

/// Whether a review of the pull request is asked for.
pub open spec fn review_requested(inbox: InboxSnapshot, key: (Seq<char>, nat)) -> bool {
    exists|i: int|
        0 <= i < inbox.review_requests@.len() && pull_key(
            (#[trigger] inbox.review_requests@[i]).repo@,
            inbox.review_requests@[i].url@,
        ) == Some(key)
}

/// Whether the account has reviewed the pull request.
pub open spec fn reviewed(inbox: InboxSnapshot, key: (Seq<char>, nat)) -> bool {
    exists|i: int|
        0 <= i < inbox.recent_reviews@.len() && pull_key(
            (#[trigger] inbox.recent_reviews@[i]).repo@,
            inbox.recent_reviews@[i].url@,
        ) == Some(key)
}

/// Whether a notification is about a pull request that waits for a review.
pub open spec fn awaits_review(inbox: InboxSnapshot, item: NotificationItem) -> bool {
    match item@.pull_request_key() {
        Some(key) => review_requested(inbox, key) && !reviewed(inbox, key),
        None => false,
    }
}

/// The threads about pull requests that wait for a review.
pub open spec fn pending_threads(inbox: InboxSnapshot) -> Set<Seq<char>> {
    Set::new(
        |id: Seq<char>|
            exists|i: int|
                0 <= i < inbox.notifications@.len() && (#[trigger] inbox.notifications@[i]).thread_id@
                    == id && awaits_review(inbox, inbox.notifications@[i]),
    )
}

/// Whether a pull request is among `keys`.
pub open spec fn among(keys: Seq<PullRequestKey>, key: (Seq<char>, nat)) -> bool {
    exists|i: int|
        0 <= i < keys.len() && (#[trigger] keys[i]).0@ == key.0 && keys[i].1 as nat == key.1
}

fn has_key(keys: &Vec<PullRequestKey>, key: &PullRequestKey) -> (found: bool)
    ensures
        found == among(keys@, (key.0@, key.1 as nat)),
{
    let mut i: usize = 0;
    while i < keys.len()
        invariant
            i <= keys@.len(),
            forall|j: int|
                0 <= j < i ==> !((#[trigger] keys@[j]).0@ == key.0@ && keys@[j].1 as nat
                    == key.1 as nat),
        decreases keys@.len() - i,
    {
        if keys[i].1 == key.1 && text_eq(keys[i].0.as_str(), key.0.as_str()) {
            proof {
                assert(keys@[i as int].0@ == key.0@);
            }
            return true;
        }
        i = i + 1;
    }
    false
}

fn requested_keys(inbox: &InboxSnapshot) -> (keys: Vec<PullRequestKey>)
    ensures
        forall|key: (Seq<char>, nat)| #[trigger]
            among(keys@, key) <==> review_requested(*inbox, key),
{
    let mut keys: Vec<PullRequestKey> = Vec::new();
    let ghost requests = inbox.review_requests@;
    let mut i: usize = 0;
    while i < inbox.review_requests.len()
        invariant
            i <= requests.len(),
            requests == inbox.review_requests@,
            forall|k: int|
                0 <= k < keys@.len() ==> review_requested(
                    *inbox,
                    ((#[trigger] keys@[k]).0@, keys@[k].1 as nat),
                ),
            forall|j: int|
                0 <= j < i ==> (pull_key((#[trigger] requests[j]).repo@, requests[j].url@) matches Some(
                    key,
                ) ==> among(keys@, key)),
        decreases requests.len() - i,
    {
        let ghost before = keys@;
        match inbox.review_requests[i].pull_request_key() {
            Some(key) => {
                let ghost view = (key.0@, key.1 as nat);
                keys.push(key);
                proof {
                    assert(pull_key(requests[i as int].repo@, requests[i as int].url@) == Some(view));
                    assert forall|j: int| 0 <= j < i + 1 implies (pull_key(
                        (#[trigger] requests[j]).repo@,
                        requests[j].url@,
                    ) matches Some(other) ==> among(keys@, other)) by {
                        if let Some(other) = pull_key(requests[j].repo@, requests[j].url@) {
                            if j < i {
                                let m = choose|m: int|
                                    0 <= m < before.len() && (#[trigger] before[m]).0@ == other.0
                                        && before[m].1 as nat == other.1;
                                assert(keys@[m] == before[m]);
                            } else {
                                assert(keys@[keys@.len() - 1].0@ == other.0);
                            }
                        }
                    }
                }
            },
            None => {},
        }
        i = i + 1;
    }
    proof {
        assert forall|key: (Seq<char>, nat)| #[trigger]
            among(keys@, key) <==> review_requested(*inbox, key) by {
            if among(keys@, key) {
                let m = choose|m: int|
                    0 <= m < keys@.len() && (#[trigger] keys@[m]).0@ == key.0 && keys@[m].1 as nat
                        == key.1;
                assert(review_requested(*inbox, (keys@[m].0@, keys@[m].1 as nat)));
                assert(key == (keys@[m].0@, keys@[m].1 as nat));
            }
        }
    }
    keys
}

fn reviewed_keys(inbox: &InboxSnapshot) -> (keys: Vec<PullRequestKey>)
    ensures
        forall|key: (Seq<char>, nat)| #[trigger] among(keys@, key) <==> reviewed(*inbox, key),
{
    let mut keys: Vec<PullRequestKey> = Vec::new();
    let ghost reviews = inbox.recent_reviews@;
    let mut i: usize = 0;
    while i < inbox.recent_reviews.len()
        invariant
            i <= reviews.len(),
            reviews == inbox.recent_reviews@,
            forall|k: int|
                0 <= k < keys@.len() ==> reviewed(
                    *inbox,
                    ((#[trigger] keys@[k]).0@, keys@[k].1 as nat),
                ),
            forall|j: int|
                0 <= j < i ==> (pull_key((#[trigger] reviews[j]).repo@, reviews[j].url@) matches Some(
                    key,
                ) ==> among(keys@, key)),
        decreases reviews.len() - i,
    {
        let ghost before = keys@;
        match inbox.recent_reviews[i].pull_request_key() {
            Some(key) => {
                let ghost view = (key.0@, key.1 as nat);
                keys.push(key);
                proof {
                    assert(pull_key(reviews[i as int].repo@, reviews[i as int].url@) == Some(view));
                    assert forall|j: int| 0 <= j < i + 1 implies (pull_key(
                        (#[trigger] reviews[j]).repo@,
                        reviews[j].url@,
                    ) matches Some(other) ==> among(keys@, other)) by {
                        if let Some(other) = pull_key(reviews[j].repo@, reviews[j].url@) {
                            if j < i {
                                let m = choose|m: int|
                                    0 <= m < before.len() && (#[trigger] before[m]).0@ == other.0
                                        && before[m].1 as nat == other.1;
                                assert(keys@[m] == before[m]);
                            } else {
                                assert(keys@[keys@.len() - 1].0@ == other.0);
                            }
                        }
                    }
                }
            },
            None => {},
        }
        i = i + 1;
    }
    proof {
        assert forall|key: (Seq<char>, nat)| #[trigger]
            among(keys@, key) <==> reviewed(*inbox, key) by {
            if among(keys@, key) {
                let m = choose|m: int|
                    0 <= m < keys@.len() && (#[trigger] keys@[m]).0@ == key.0 && keys@[m].1 as nat
                        == key.1;
                assert(reviewed(*inbox, (keys@[m].0@, keys@[m].1 as nat)));
                assert(key == (keys@[m].0@, keys@[m].1 as nat));
            }
        }
    }
    keys
}

/// The threads about pull requests that wait for a review: one is asked for, and the
/// account has not given it.
pub fn pending_review_request_ids(inbox: &InboxSnapshot) -> (ids: StringHashSet)
    ensures
        ids@ == pending_threads(*inbox),
{
    let mut ids: StringHashSet = StringHashSet::new();
    let requested: Vec<PullRequestKey> = requested_keys(inbox);
    if requested.len() == 0 {
        proof {
            assert forall|i: int| 0 <= i < inbox.notifications@.len() implies !awaits_review(
                *inbox,
                #[trigger] inbox.notifications@[i],
            ) by {
                if let Some(key) = inbox.notifications@[i]@.pull_request_key() {
                    assert(!among(requested@, key));
                }
            }
            assert(ids@ =~= pending_threads(*inbox));
        }
        return ids;
    }
    let done: Vec<PullRequestKey> = reviewed_keys(inbox);
    let ghost items = inbox.notifications@;
    let mut i: usize = 0;
    while i < inbox.notifications.len()
        invariant
            i <= items.len(),
            items == inbox.notifications@,
            forall|key: (Seq<char>, nat)| #[trigger]
                among(requested@, key) <==> review_requested(*inbox, key),
            forall|key: (Seq<char>, nat)| #[trigger] among(done@, key) <==> reviewed(*inbox, key),
            forall|id: Seq<char>| #[trigger]
                ids@.contains(id) <==> exists|j: int|
                    0 <= j < i && (#[trigger] items[j]).thread_id@ == id && awaits_review(
                        *inbox,
                        items[j],
                    ),
        decreases items.len() - i,
    {
        let item: &NotificationItem = &inbox.notifications[i];
        match item.pull_request_key() {
            Some(key) => {
                if has_key(&requested, &key) && !has_key(&done, &key) {
                    let _ = ids.insert(item.thread_id.clone());
                    proof {
                        assert(awaits_review(*inbox, items[i as int]));
                    }
                }
            },
            None => {},
        }
        proof {
            assert(items[i as int] == *item);
        }
        i = i + 1;
    }
    proof {
        assert(ids@ =~= pending_threads(*inbox));
    }
    ids
}

} // verus!

//! Refreshing accounts and drawing windows again.
use vstd::prelude::*;

use crate::app::state::{running_reviews, AccountState};
use crate::app::{
    ReminderApp, ACTIVE_REVIEW_REPAINT_MS, AUTO_REFRESH_INTERVAL_SECS, IDLE_REPAINT_MS,
};
use crate::time::Timestamp;

verus! {

/// Whether an automatic refresh at `now` syncs an account: no sync of it is under way, and
/// the last one is too old.
pub open spec fn due_for_refresh(account: AccountState, now: Timestamp) -> bool {
    !account.pending_job && account.is_stale(now, AUTO_REFRESH_INTERVAL_SECS)
}

/// An account once a sync of it has been started.
pub open spec fn syncing(account: AccountState) -> AccountState {
    AccountState { pending_job: true, last_error: None, ..account }
}

/// Whether `after` are the accounts `before` with a sync started for those at `started`,
/// which are all that are due at `now`, in their order.
pub open spec fn refreshed(
    before: Seq<AccountState>,
    after: Seq<AccountState>,
    started: Seq<usize>,
    now: Timestamp,
) -> bool {
    &&& after.len() == before.len()
    &&& forall|i: int|
        0 <= i < before.len() ==> #[trigger] after[i] == if due_for_refresh(before[i], now) {
            syncing(before[i])
        } else {
            before[i]
        }
    &&& forall|i: int|
        0 <= i < before.len() ==> (due_for_refresh(#[trigger] before[i], now) <==> exists|k: int|
            0 <= k < started.len() && #[trigger] started[k] == i)
    &&& forall|k: int| 0 <= k < started.len() ==> (#[trigger] started[k] as int) < before.len()
    &&& forall|j: int, k: int|
        0 <= j < k < started.len() ==> (#[trigger] started[j]) < (#[trigger] started[k])
}

/// Whether `after` and `started` are what refreshing account `idx` makes of `before`.
pub open spec fn account_refreshed(
    before: ReminderApp,
    idx: usize,
    after: ReminderApp,
    started: bool,
) -> bool {
    &&& idx >= before.accounts@.len() ==> !started && after == before
    &&& idx < before.accounts@.len() ==> {
        &&& started == !before.accounts@[idx as int].pending_job
        &&& after.accounts@ == if started {
            before.accounts@.update(idx as int, syncing(before.accounts@[idx as int]))
        } else {
            before.accounts@
        }
        &&& after.auto_refresh.marked_from(before.auto_refresh)
        &&& after == (ReminderApp {
            accounts: after.accounts,
            auto_refresh: after.auto_refresh,
            ..before
        })
    }
}

impl ReminderApp {
    /// Starts a sync of every account that is due, and gives their places.
    pub fn refresh_stale_accounts(&mut self, now: Timestamp) -> (started: Vec<usize>)
        ensures
            refreshed(old(self).accounts@, final(self).accounts@, started@, now),
            if started@.len() > 0 {
                final(self).auto_refresh.marked_from(old(self).auto_refresh)
            } else {
                final(self).auto_refresh == old(self).auto_refresh
            },
            *final(self) == (ReminderApp {
                accounts: final(self).accounts,
                auto_refresh: final(self).auto_refresh,
                ..*old(self)
            }),
    {
        let mut started: Vec<usize> = Vec::new();
        let ghost before = self.accounts@;
        let ghost scheduler = self.auto_refresh;
        let mut i: usize = 0;
        while i < self.accounts.len()
            invariant
                i <= self.accounts@.len(),
                self.accounts@.len() == before.len(),
                before == old(self).accounts@,
                self.auto_refresh == scheduler,
                scheduler == old(self).auto_refresh,
                *self == (ReminderApp { accounts: self.accounts, ..*old(self) }),
                forall|j: int| i <= j < before.len() ==> #[trigger] self.accounts@[j] == before[j],
                forall|j: int|
                    0 <= j < i ==> #[trigger] self.accounts@[j] == if due_for_refresh(
                        before[j],
                        now,
                    ) {
                        syncing(before[j])
                    } else {
                        before[j]
                    },
                forall|j: int|
                    0 <= j < i ==> (due_for_refresh(#[trigger] before[j], now) <==> exists|k: int|
                        0 <= k < started@.len() && #[trigger] started@[k] == j),
                forall|k: int| 0 <= k < started@.len() ==> (#[trigger] started@[k] as int) < i,
                forall|j: int, k: int|
                    0 <= j < k < started@.len() ==> (#[trigger] started@[j]) < (
                    #[trigger] started@[k]),
            decreases self.accounts@.len() - i,
        {
            let ghost had = started@;
            proof {
                assert(self.accounts@[i as int] == before[i as int]);
            }
            if !self.accounts[i].pending_job && self.accounts[i].needs_refresh(
                now,
                AUTO_REFRESH_INTERVAL_SECS,
            ) {
                let _ = self.accounts[i].start_refresh();
                started.push(i);
                proof {
                    assert(started@[had.len() as int] == i);
                    assert forall|j: int| 0 <= j < i + 1 implies (due_for_refresh(
                        #[trigger] before[j],
                        now,
                    ) <==> exists|k: int| 0 <= k < started@.len() && #[trigger] started@[k] == j) by {
                        if j < i && due_for_refresh(before[j], now) {
                            let k = choose|k: int|
                                0 <= k < had.len() && #[trigger] had[k] == j;
                            assert(started@[k] == j);
                        }
                        if j < i && exists|k: int|
                            0 <= k < started@.len() && #[trigger] started@[k] == j {
                            let k = choose|k: int|
                                0 <= k < started@.len() && #[trigger] started@[k] == j;
                            assert(had[k] == j);
                        }
                    }
                }
            }
            i = i + 1;
        }
        if started.len() > 0 {
            self.auto_refresh.mark_triggered();
        }
        started
    }

    /// Refreshes accounts if it is time to, and gives the places of those for which a sync
    /// was started. Whether it is time to depends on the clock, except before the first
    /// refresh.
    pub fn maybe_auto_refresh(&mut self, now: Timestamp) -> (started: Vec<usize>)
        ensures
            (old(self).auto_refresh.can_find(true) && refreshed(
                old(self).accounts@,
                final(self).accounts@,
                started@,
                now,
            )) || (old(self).auto_refresh.can_find(false) && started@.len() == 0 && *final(self)
                == *old(self)),
            old(self).auto_refresh.last_run is None || old(self).auto_refresh.interval_nanos == 0
                ==> refreshed(old(self).accounts@, final(self).accounts@, started@, now),
            *final(self) == (ReminderApp {
                accounts: final(self).accounts,
                auto_refresh: final(self).auto_refresh,
                ..*old(self)
            }),
            started@.len() == 0 ==> final(self).auto_refresh == old(self).auto_refresh,
            started@.len() > 0 ==> final(self).auto_refresh.marked_from(old(self).auto_refresh),
    {
        if !self.auto_refresh.should_trigger() {
            return Vec::new();
        }
        self.refresh_stale_accounts(now)
    }

    /// Starts a sync of account `idx` unless one is under way, and says whether it did. The
    /// next automatic refresh is put off.
    pub fn refresh_account(&mut self, idx: usize) -> (started: bool)
        ensures
            account_refreshed(*old(self), idx, *final(self), started),
    {
        if idx >= self.accounts.len() {
            return false;
        }
        let started: bool = self.accounts[idx].start_refresh();
        self.auto_refresh.mark_triggered();
        proof {
            assert(self.accounts@ =~= if started {
                old(self).accounts@.update(idx as int, syncing(old(self).accounts@[idx as int]))
            } else {
                old(self).accounts@
            });
        }
        started
    }

    /// Whether a review of one of the accounts runs.
    pub open spec fn any_review_runs(self) -> bool {
        exists|i: int, id: Seq<char>|
            0 <= i < self.accounts@.len() && #[trigger] running_reviews(
                self.accounts@[i].review_outputs@,
            ).contains(id)
    }

    /// After how many milliseconds the windows are drawn again.
    pub fn repaint_ms(&self) -> (ms: u64)
        ensures
            ms == if self.any_review_runs() {
                ACTIVE_REVIEW_REPAINT_MS
            } else {
                IDLE_REPAINT_MS
            },
    {
        let mut i: usize = 0;
        while i < self.accounts.len()
            invariant
                i <= self.accounts@.len(),
                forall|j: int, id: Seq<char>|
                    0 <= j < i ==> !#[trigger] running_reviews(
                        self.accounts@[j].review_outputs@,
                    ).contains(id),
            decreases self.accounts@.len() - i,
        {
            if self.accounts[i].review_in_progress() {
                proof {
                    let id = choose|id: Seq<char>| #[trigger]
                        running_reviews(self.accounts@[i as int].review_outputs@).contains(id);
                    assert(running_reviews(self.accounts@[i as int].review_outputs@).contains(id));
                }
                return ACTIVE_REVIEW_REPAINT_MS;
            }
            i = i + 1;
        }
        IDLE_REPAINT_MS
    }
}

} // verus!

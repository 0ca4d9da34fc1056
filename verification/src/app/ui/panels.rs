//! The panel of accounts and the dashboard.
use vstd::prelude::*;

use crate::app::refresh::syncing;
use crate::app::settings_editor::{edits, settings_not_found};
use crate::app::state::AccountState;
use crate::app::ui::notifications::TextTone;
use crate::app::ui::sidebar::{
    account_badges, account_overview, badge_views, tracked_account_badges, tracked_account_heading,
    AccountOverview, Badge, HeadingStyle,
};
use crate::app::{first_with_login, tracks, ReminderApp};
use crate::app::notification_state::{unseen_in, updated_in, SectionKind};
use crate::domain::opt_text;
use crate::text::text_eq;

verus! {

// ---------------------------------------------------------------------------
// The panel of accounts
// ---------------------------------------------------------------------------

/// A row of the list of accounts.
#[derive(Clone, Debug, PartialEq, Eq)]
pub struct TrackedAccountRow {
    pub login: String,
    pub is_selected: bool,
    pub heading: HeadingStyle,
    pub badges: Vec<Badge>,
}

/// What is new in an account, once it has been synced.
pub open spec fn overview_of(account: AccountState) -> Option<(nat, nat, nat)> {
    match account.inbox {
        Some(inbox) => Some(
            (
                account.new_notification_ids@.len(),
                unseen_in(inbox.notifications@, SectionKind::Inbox),
                updated_in(inbox.notifications@, SectionKind::Inbox),
            ),
        ),
        None => None,
    }
}

/// Whether `overview` says what is new in an account.
pub open spec fn overviews(overview: Option<AccountOverview>, account: AccountState) -> bool {
    match overview {
        Some(o) => overview_of(account) == Some(
            (o.new_notifications as nat, o.unseen as nat, o.updated as nat),
        ),
        None => overview_of(account) is None,
    }
}

/// Whether `row` is the row of an account.
pub open spec fn lists_account(
    row: TrackedAccountRow,
    account: AccountState,
    selected: Option<Seq<char>>,
) -> bool {
    &&& row.login@ == account.profile.login@
    &&& row.is_selected == (selected == Some(account.profile.login@))
    &&& exists|overview: Option<AccountOverview>|
        {
            let has_new = overview is Some && overview->0.new_notifications > 0;
            &&& overviews(overview, account)
            &&& row.heading.strong == (row.is_selected || has_new)
            &&& row.heading.tone == if has_new && !row.is_selected {
                TextTone::Warning
            } else {
                TextTone::Plain
            }
            &&& badge_views(row.badges@) == #[trigger] account_badges(
                overview,
                account.pending_job,
                account.last_error is Some,
            )
        }
}

/// What was clicked in the list of accounts.
pub struct AccountListClicks {
    pub selected_login: Option<String>,
    pub settings_login: Option<String>,
    pub refresh_idx: Option<usize>,
    pub remove_idx: Option<usize>,
}

/// What has to be started or done after clicks in the list of accounts.
#[derive(Clone, Copy, Debug, PartialEq, Eq, Structural)]
pub struct AccountListStep {
    /// The account of which a sync was started.
    pub sync: Option<usize>,
    /// The account that has to be removed.
    pub remove: Option<usize>,
}

/// The note on whether reviews can be run.
pub fn review_command_note(custom_review_command: bool) -> (note: &'static str)
    ensures
        note@ == if custom_review_command {
            "Mapped repos can use your custom `review-pr` opencode command. Unmapped repos cannot be reviewed."@
        } else {
            "No custom `review-pr` command detected. Reviews are unavailable."@
        },
{
    if custom_review_command {
        "Mapped repos can use your custom `review-pr` opencode command. Unmapped repos cannot be reviewed."
    } else {
        "No custom `review-pr` command detected. Reviews are unavailable."
    }
}

fn account_row(account: &AccountState, selected: &Option<String>) -> (row: TrackedAccountRow)
    ensures
        lists_account(row, *account, opt_text(*selected)),
{
    let overview: Option<AccountOverview> = account_overview(account);
    let is_selected: bool = match selected {
        Some(login) => text_eq(login.as_str(), account.profile.login.as_str()),
        None => false,
    };
    let row: TrackedAccountRow = TrackedAccountRow {
        login: account.profile.login.clone(),
        is_selected,
        heading: tracked_account_heading(is_selected, overview),
        badges: tracked_account_badges(
            overview,
            account.pending_job,
            account.last_error.is_some(),
        ),
    };
    proof {
        assert(overviews(overview, *account));
        assert(badge_views(row.badges@) == account_badges(
            overview,
            account.pending_job,
            account.last_error is Some,
        ));
    }
    row
}

/// What the dashboard shows.
#[derive(Clone, Copy, Debug, PartialEq, Eq)]
pub enum Dashboard {
    /// A note.
    Note(&'static str),
    /// The account at that place.
    Account(usize),
}

/// What is said where there are no accounts.
pub const NO_ACCOUNTS_NOTE: &'static str =
    "Add at least one GitHub account to start aggregating notifications.";

/// What is said where no account is selected.
pub const NO_SELECTION_NOTE: &'static str =
    "Select an account on the left to view notifications.";

/// Whether `after` and `step` are what clicks in the list of accounts make of `before`.
pub open spec fn list_clicked(
    before: ReminderApp,
    clicks: AccountListClicks,
    after: ReminderApp,
    step: AccountListStep,
) -> bool {
    &&& step.remove == clicks.remove_idx
    &&& opt_text(after.selected_account_login) == match clicks.selected_login {
        Some(login) => Some(login@),
        None => opt_text(before.selected_account_login),
    }
    &&& match clicks.settings_login {
        None => {
            &&& after.review_settings_editor == before.review_settings_editor
            &&& after.global_error == before.global_error
        },
        Some(login) => if tracks(before.accounts@, login@) {
            &&& after.global_error == before.global_error
            &&& after.review_settings_editor is Some
            &&& exists|i: int| #[trigger]
                first_with_login(before.accounts@, login@, i) && edits(
                    after.review_settings_editor->0,
                    before.accounts@[i].profile,
                )
        } else {
            &&& after.review_settings_editor == before.review_settings_editor
            &&& opt_text(after.global_error) == Some(settings_not_found(login@))
        },
    }
    &&& match clicks.refresh_idx {
        Some(idx) if idx < before.accounts@.len() => {
            let was = before.accounts@[idx as int];
            &&& step.sync == if was.pending_job {
                None
            } else {
                Some(idx)
            }
            &&& after.accounts@ == if was.pending_job {
                before.accounts@
            } else {
                before.accounts@.update(idx as int, syncing(was))
            }
            &&& after.auto_refresh.marked_from(before.auto_refresh)
        },
        _ => {
            &&& step.sync is None
            &&& after.accounts@ == before.accounts@
            &&& after.auto_refresh == before.auto_refresh
        },
    }
    &&& after == (ReminderApp {
        selected_account_login: after.selected_account_login,
        review_settings_editor: after.review_settings_editor,
        global_error: after.global_error,
        accounts: after.accounts,
        auto_refresh: after.auto_refresh,
        ..before
    })
}

/// Whether `shown` is what the dashboard of `app` shows.
pub open spec fn dashboard_of(app: ReminderApp, shown: Dashboard) -> bool {
    match shown {
        Dashboard::Note(note) => if app.accounts@.len() == 0 {
            note@ == NO_ACCOUNTS_NOTE@
        } else {
            &&& note@ == NO_SELECTION_NOTE@
            &&& app.selected_account_login is Some ==> !tracks(
                app.accounts@,
                app.selected_account_login->0@,
            )
        },
        Dashboard::Account(i) => app.selected_account_login is Some && first_with_login(
            app.accounts@,
            app.selected_account_login->0@,
            i as int,
        ),
    }
}

impl ReminderApp {
    /// The rows of the list of accounts.
    pub fn tracked_accounts(&self) -> (rows: Vec<TrackedAccountRow>)
        ensures
            rows@.len() == self.accounts@.len(),
            forall|i: int|
                0 <= i < rows@.len() ==> lists_account(
                    #[trigger] rows@[i],
                    self.accounts@[i],
                    opt_text(self.selected_account_login),
                ),
    {
        let mut rows: Vec<TrackedAccountRow> = Vec::new();
        let mut i: usize = 0;
        while i < self.accounts.len()
            invariant
                i <= self.accounts@.len(),
                rows@.len() == i,
                forall|j: int|
                    0 <= j < i ==> lists_account(
                        #[trigger] rows@[j],
                        self.accounts@[j],
                        opt_text(self.selected_account_login),
                    ),
            decreases self.accounts@.len() - i,
        {
            rows.push(account_row(&self.accounts[i], &self.selected_account_login));
            i = i + 1;
        }
        rows
    }

    /// Takes up clicks in the list of accounts, in this order: an account is selected, its
    /// settings are opened, and a sync of it is started. Removing it is left to do.
    pub fn account_list_clicked(&mut self, clicks: AccountListClicks) -> (step: AccountListStep)
        ensures
            list_clicked(*old(self), clicks, *final(self), step),
    {
        match clicks.selected_login {
            Some(login) => {
                self.selected_account_login = Some(login);
            },
            None => {},
        }
        match clicks.settings_login {
            Some(login) => {
                self.open_review_settings_editor(login.as_str());
            },
            None => {},
        }
        let sync: Option<usize> = match clicks.refresh_idx {
            Some(idx) => {
                if self.refresh_account(idx) {
                    Some(idx)
                } else {
                    None
                }
            },
            None => None,
        };
        AccountListStep { sync, remove: clicks.remove_idx }
    }

    /// What the dashboard shows.
    pub fn dashboard(&self) -> (shown: Dashboard)
        ensures
            dashboard_of(*self, shown),
    {
        if self.accounts.len() == 0 {
            return Dashboard::Note(NO_ACCOUNTS_NOTE);
        }
        match self.selected_account_index() {
            Some(i) => Dashboard::Account(i),
            None => Dashboard::Note(NO_SELECTION_NOTE),
        }
    }
}

} // verus!

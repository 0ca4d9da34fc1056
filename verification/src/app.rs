//! Application state and the decisions behind its windows.
use vstd::prelude::*;

use crate::app::forms::{AccountForm, AccountReviewSettingsEditor, RepoPathForm};
use crate::app::repo_paths::{
    dropped_paths, kept_paths, normalize_hydrated_repo_paths, CheckoutProbe,
};
use crate::app::scheduler::{can_be_now, BatchRefreshScheduler, NANOS_PER_SEC};
use crate::app::state::AccountState;
use crate::decimal::{decimal, decimal_text};
use crate::domain::{opt_text, GitHubAccount};
use crate::storage::{store_error_text, AccountStore, SecretStoreError};
use crate::text::text_eq;
use crate::text_map::{texts, TextMap};
use vstd::string::StringExecFns;

pub mod account_laws;
pub mod accounts;
pub mod action_laws;
pub mod ansi;
pub mod ansi_laws;
pub mod checkouts;
pub mod forms;
pub mod notification_laws;
pub mod notification_state;
pub mod refresh;
pub mod repo_path_laws;
pub mod repo_paths;
pub mod review;
pub mod review_job;
pub mod review_laws;
pub mod review_output;
pub mod review_settings;
pub mod review_settings_laws;
pub mod scheduler;
pub mod search;
pub mod settings_editor;
pub mod state;
pub mod state_laws;
pub mod styled_laws;
pub mod styled_text;
pub mod terminal;
pub mod ui;
pub mod wording_laws;

verus! {

/// The name of the app.
pub const APP_NAME: &'static str = "Reminder";

/// The name under which a font for Chinese, Japanese and Korean is installed.
pub const CJK_FONT_NAME: &'static str = "CJK_Fallback_Font";

/// The command that reviews a pull request.
pub const CUSTOM_REVIEW_COMMAND_NAME: &'static str = "review-pr";

/// How many characters of a review's output are kept.
pub const MAX_REVIEW_OUTPUT_CHARS: usize = 20000;

/// How many seconds pass between two automatic refreshes.
pub const AUTO_REFRESH_INTERVAL_SECS: u64 = 180;

/// After how many milliseconds the windows are drawn again while a review runs.
pub const ACTIVE_REVIEW_REPAINT_MS: u64 = 50;

/// After how many milliseconds the windows are drawn again otherwise.
pub const IDLE_REPAINT_MS: u64 = 500;

// ---------------------------------------------------------------------------
// The app
// ---------------------------------------------------------------------------

/// The state of the app.
pub struct ReminderApp {
    pub account_form: AccountForm,
    pub repo_path_form: RepoPathForm,
    pub review_settings_editor: Option<AccountReviewSettingsEditor>,
    pub accounts: Vec<AccountState>,
    pub repo_paths: TextMap<String>,
    pub selected_account_login: Option<String>,
    pub secret_store: Option<AccountStore>,
    pub storage_warning: Option<String>,
    pub global_error: Option<String>,
    pub auto_refresh: BatchRefreshScheduler,
}

/// Whether one of `accounts` has the login `login`.
pub open spec fn tracks(accounts: Seq<AccountState>, login: Seq<char>) -> bool {
    exists|i: int| 0 <= i < accounts.len() && (#[trigger] accounts[i]).profile.login@ == login
}

/// Whether account `i` is the first with the login `login`.
pub open spec fn first_with_login(accounts: Seq<AccountState>, login: Seq<char>, i: int) -> bool {
    &&& 0 <= i < accounts.len()
    &&& accounts[i].profile.login@ == login
    &&& forall|j: int| 0 <= j < i ==> (#[trigger] accounts[j]).profile.login@ != login
}

/// The login of the first account.
pub open spec fn first_login(accounts: Seq<AccountState>) -> Option<Seq<char>> {
    if accounts.len() > 0 {
        Some(accounts[0].profile.login@)
    } else {
        None
    }
}

/// The login that is selected once it has been made sure that it is tracked: the same one
/// if it is, else that of the first account.
pub open spec fn settled_selection(accounts: Seq<AccountState>, selected: Option<Seq<char>>) -> Option<
    Seq<char>,
> {
    match selected {
        Some(login) => if tracks(accounts, login) {
            selected
        } else {
            first_login(accounts)
        },
        None => first_login(accounts),
    }
}

/// Where the first account with the login `login` stands.
pub fn find_account(accounts: &Vec<AccountState>, login: &str) -> (at: Option<usize>)
    ensures
        match at {
            Some(i) => first_with_login(accounts@, login@, i as int),
            None => !tracks(accounts@, login@),
        },
{
    let mut i: usize = 0;
    while i < accounts.len()
        invariant
            i <= accounts@.len(),
            forall|j: int| 0 <= j < i ==> (#[trigger] accounts@[j]).profile.login@ != login@,
        decreases accounts@.len() - i,
    {
        if text_eq(accounts[i].profile.login.as_str(), login) {
            return Some(i);
        }
        i = i + 1;
    }
    None
}

/// What is known when the app starts.
pub enum Startup {
    /// There is no place to keep accounts.
    NoStore(SecretStoreError),
    /// There is one, but what is kept there could not be read.
    NotRestored { store: AccountStore, error: SecretStoreError },
    /// These accounts were kept, and looking at the kept checkouts found this.
    Restored {
        store: AccountStore,
        profiles: Vec<GitHubAccount>,
        checkouts: TextMap<CheckoutProbe>,
    },
}

/// The warning on what could not be restored.
pub open spec fn startup_warning(startup: Startup) -> Option<Seq<char>> {
    match startup {
        Startup::NoStore(error) => Some(
            "Local token storage is unavailable; tokens cannot be persisted ("@ + store_error_text(
                error@,
            ) + ")."@,
        ),
        Startup::NotRestored { error, .. } => Some(
            "Failed to restore saved accounts: "@ + store_error_text(error@),
        ),
        Startup::Restored { checkouts, .. } => {
            let dropped = dropped_paths(checkouts.keys(), checkouts@);
            if dropped > 0 {
                Some(
                    "Skipped "@ + decimal(dropped)
                        + " invalid local repo path mapping(s) while restoring settings."@,
                )
            } else {
                None
            }
        },
    }
}

/// The accounts that are restored.
pub open spec fn startup_profiles(startup: Startup) -> Seq<GitHubAccount> {
    match startup {
        Startup::Restored { profiles, .. } => profiles@,
        _ => Seq::empty(),
    }
}

/// The checkouts that are restored.
pub open spec fn startup_paths(startup: Startup) -> Map<Seq<char>, Seq<char>> {
    match startup {
        Startup::Restored { checkouts, .. } => kept_paths(checkouts.keys(), checkouts@),
        _ => Map::empty(),
    }
}

/// Accounts for `profiles`, with a sync of each under way.
fn syncing_accounts(profiles: Vec<GitHubAccount>) -> (accounts: Vec<AccountState>)
    ensures
        accounts@.len() == profiles@.len(),
        forall|i: int|
            0 <= i < accounts@.len() ==> (#[trigger] accounts@[i]).is_fresh(profiles@[i])
                && accounts@[i].pending_job,
{
    let ghost all = profiles@;
    let mut rest: Vec<GitHubAccount> = profiles;
    let count: usize = rest.len();
    let mut accounts: Vec<AccountState> = Vec::new();
    let mut taken: usize = 0;
    proof {
        assert(rest@ =~= all.skip(0));
    }
    while taken < count
        invariant
            taken <= count,
            count == all.len(),
            rest@ == all.skip(taken as int),
            accounts@.len() == taken,
            forall|i: int|
                0 <= i < taken ==> (#[trigger] accounts@[i]).is_fresh(all[i])
                    && accounts@[i].pending_job,
        decreases count - taken,
    {
        let profile: GitHubAccount = rest.remove(0);
        let mut state: AccountState = AccountState::new(profile);
        let _ = state.start_refresh();
        accounts.push(state);
        taken = taken + 1;
        proof {
            assert(rest@ =~= all.skip(taken as int));
        }
    }
    accounts
}

pub(crate) fn with_reason(lead: &str, error: &SecretStoreError) -> (text: String)
    ensures
        text@ == lead@ + store_error_text(error@),
{
    let mut text: String = lead.to_owned();
    text.append(error.message().as_str());
    text
}

/// Whether `app` is the app as it starts with `startup`.
pub open spec fn started_with(app: ReminderApp, startup: Startup) -> bool {
    &&& app.account_form.is_blank()
    &&& app.repo_path_form.is_blank()
    &&& app.review_settings_editor is None
    &&& app.accounts@.len() == startup_profiles(startup).len()
    &&& forall|i: int|
        0 <= i < app.accounts@.len() ==> (#[trigger] app.accounts@[i]).is_fresh(
            startup_profiles(startup)[i],
        ) && app.accounts@[i].pending_job
    &&& texts(app.repo_paths@) == startup_paths(startup)
    &&& opt_text(app.selected_account_login) == first_login(app.accounts@)
    &&& match startup {
        Startup::NoStore(_) => app.secret_store is None,
        Startup::NotRestored { store, .. } => app.secret_store == Some(store),
        Startup::Restored { store, .. } => app.secret_store == Some(store),
    }
    &&& opt_text(app.storage_warning) == startup_warning(startup)
    &&& app.global_error is None
    &&& app.auto_refresh.interval_nanos == AUTO_REFRESH_INTERVAL_SECS * NANOS_PER_SEC
    &&& app.auto_refresh.last_run matches Some(at) && can_be_now(at)
}

impl ReminderApp {
    /// The app as it starts.
    pub fn new(startup: Startup) -> (app: Self)
        ensures
            started_with(app, startup),
    {
        let mut app: ReminderApp = ReminderApp {
            account_form: AccountForm::default(),
            repo_path_form: RepoPathForm::default(),
            review_settings_editor: None,
            accounts: Vec::new(),
            repo_paths: TextMap::new(),
            selected_account_login: None,
            secret_store: None,
            storage_warning: None,
            global_error: None,
            auto_refresh: BatchRefreshScheduler::new(
                AUTO_REFRESH_INTERVAL_SECS as u128 * NANOS_PER_SEC,
            ),
        };
        proof {
            assert(texts(app.repo_paths@) =~= Map::<Seq<char>, Seq<char>>::empty());
        }
        match startup {
            Startup::NoStore(error) => {
                let mut warning: String = with_reason(
                    "Local token storage is unavailable; tokens cannot be persisted (",
                    &error,
                );
                warning.append(").");
                app.storage_warning = Some(warning);
            },
            Startup::NotRestored { store, error } => {
                app.storage_warning = Some(
                    with_reason("Failed to restore saved accounts: ", &error),
                );
                app.secret_store = Some(store);
            },
            Startup::Restored { store, profiles, checkouts } => {
                app.accounts = syncing_accounts(profiles);
                let (repo_paths, dropped) = normalize_hydrated_repo_paths(&checkouts);
                app.repo_paths = repo_paths;
                if dropped > 0 {
                    let mut warning: String = "Skipped ".to_owned();
                    warning.append(decimal_text(dropped as u64).as_str());
                    warning.append(
                        " invalid local repo path mapping(s) while restoring settings.",
                    );
                    app.storage_warning = Some(warning);
                }
                app.secret_store = Some(store);
            },
        }
        app.ensure_selected_account();
        app.auto_refresh.mark_triggered();
        app
    }

    /// Makes sure that a tracked account is selected, if there is one.
    pub fn ensure_selected_account(&mut self)
        ensures
            opt_text(final(self).selected_account_login) == settled_selection(
                old(self).accounts@,
                opt_text(old(self).selected_account_login),
            ),
            *final(self) == (ReminderApp {
                selected_account_login: final(self).selected_account_login,
                ..*old(self)
            }),
    {
        if let Some(selected) = &self.selected_account_login {
            match find_account(&self.accounts, selected.as_str()) {
                Some(_) => {
                    return;
                },
                None => {},
            }
        }
        self.selected_account_login = if self.accounts.len() > 0 {
            Some(self.accounts[0].profile.login.clone())
        } else {
            None
        };
    }

    /// Where the selected account stands.
    pub fn selected_account_index(&self) -> (at: Option<usize>)
        ensures
            match at {
                Some(i) => self.selected_account_login is Some && first_with_login(
                    self.accounts@,
                    self.selected_account_login->0@,
                    i as int,
                ),
                None => self.selected_account_login is Some ==> !tracks(
                    self.accounts@,
                    self.selected_account_login->0@,
                ),
            },
    {
        match &self.selected_account_login {
            Some(login) => find_account(&self.accounts, login.as_str()),
            None => None,
        }
    }
}

} // verus!

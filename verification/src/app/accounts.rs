//! Adding and removing accounts.
use vstd::prelude::*;

use crate::app::forms::AccountForm;
use crate::app::state::AccountState;
use crate::app::{settled_selection, with_reason, ReminderApp};
use crate::domain::{no_settings, opt_text, AccountView, GitHubAccount, ReviewCommandSettings};
use crate::storage::{store_error_text, SecretStoreError};
use crate::text::{
    eq_ignoring_ascii_case, same_ignoring_ascii_case, text_eq, trim, trimmed,
};
use vstd::string::StringExecFns;

verus! {

/// Whether one of `accounts` has that login, in any case of its ASCII letters.
pub open spec fn tracks_ignoring_case(accounts: Seq<AccountState>, login: Seq<char>) -> bool {
    exists|i: int|
        0 <= i < accounts.len() && same_ignoring_ascii_case(
            (#[trigger] accounts[i]).profile.login@,
            login,
        )
}

/// Why the account in the form cannot be added, if it cannot.
pub open spec fn account_complaint(app: ReminderApp) -> Option<Seq<char>> {
    if !app.account_form.is_filled() {
        Some("Both the login and a Personal Access Token are required."@)
    } else if tracks_ignoring_case(app.accounts@, trim(app.account_form.login@)) {
        Some("This GitHub login is already being tracked."@)
    } else if app.secret_store is None {
        Some("Local token storage is not available; cannot add new accounts right now."@)
    } else {
        None
    }
}

/// The account in the form.
pub open spec fn typed_account(form: AccountForm) -> AccountView {
    AccountView {
        login: trim(form.login@),
        token: trim(form.token@),
        review_settings: no_settings(),
    }
}

/// Whether `after` is `before` with `text` said in its form for accounts.
pub open spec fn said_in_account_form(before: ReminderApp, after: ReminderApp, text: Seq<char>) -> bool {
    &&& opt_text(after.account_form.form_error) == Some(text)
    &&& after == (ReminderApp {
        account_form: AccountForm {
            form_error: after.account_form.form_error,
            ..before.account_form
        },
        ..before
    })
}

fn is_tracked_ignoring_case(accounts: &Vec<AccountState>, login: &str) -> (known: bool)
    ensures
        known == tracks_ignoring_case(accounts@, login@),
{
    let mut i: usize = 0;
    while i < accounts.len()
        invariant
            i <= accounts@.len(),
            forall|j: int|
                0 <= j < i ==> !same_ignoring_ascii_case(
                    (#[trigger] accounts@[j]).profile.login@,
                    login@,
                ),
        decreases accounts@.len() - i,
    {
        if eq_ignoring_ascii_case(accounts[i].profile.login.as_str(), login) {
            return true;
        }
        i = i + 1;
    }
    false
}

/// Whether `after` and `profile` are what taking up the account in the form makes of `before`.
pub open spec fn account_taken_up(
    before: ReminderApp,
    after: ReminderApp,
    profile: Option<GitHubAccount>,
) -> bool {
    match account_complaint(before) {
        Some(complaint) => profile is None && said_in_account_form(
            before,
            after,
            complaint,
        ),
        None => profile is Some && profile->0@ == typed_account(before.account_form)
            && after == before,
    }
}

/// Whether `after` is `before` once a profile has been kept, or has not been.
pub open spec fn account_added(
    before: ReminderApp,
    profile: GitHubAccount,
    kept: Result<(), SecretStoreError>,
    after: ReminderApp,
) -> bool {
    match kept {
        Err(error) => said_in_account_form(
            before,
            after,
            "Unable to persist credentials locally: "@ + store_error_text(error@),
        ),
        Ok(_) => {
            &&& after.accounts@.len() == before.accounts@.len() + 1
            &&& after.accounts@.drop_last() == before.accounts@
            &&& after.accounts@.last().is_fresh(profile)
            &&& after.accounts@.last().pending_job
            &&& opt_text(after.selected_account_login) == Some(profile.login@)
            &&& after.account_form.is_blank()
            &&& after.auto_refresh.marked_from(before.auto_refresh)
            &&& after == (ReminderApp {
                accounts: after.accounts,
                selected_account_login: after.selected_account_login,
                account_form: after.account_form,
                auto_refresh: after.auto_refresh,
                ..before
            })
        },
    }
}

/// Whether `after` is `before` without account `idx`, whose credentials have been forgotten or
/// not.
pub open spec fn account_removed(
    before: ReminderApp,
    idx: usize,
    forgotten: Result<(), SecretStoreError>,
    after: ReminderApp,
) -> bool {
    &&& idx >= before.accounts@.len() ==> after == before
    &&& idx < before.accounts@.len() ==> {
        let login = before.accounts@[idx as int].profile.login@;
        &&& after.accounts@ == before.accounts@.remove(idx as int)
        &&& match forgotten {
            Ok(_) => after.global_error == before.global_error,
            Err(error) => opt_text(after.global_error) == Some(
                "Failed to remove credentials for "@ + login + ": "@ + store_error_text(
                    error@,
                ),
            ),
        }
        &&& after.review_settings_editor == match before.review_settings_editor {
            Some(editor) => if editor.login@ == login {
                None
            } else {
                Some(editor)
            },
            None => None,
        }
        &&& opt_text(after.selected_account_login) == settled_selection(
            after.accounts@,
            opt_text(before.selected_account_login),
        )
        &&& after == (ReminderApp {
            accounts: after.accounts,
            global_error: after.global_error,
            review_settings_editor: after.review_settings_editor,
            selected_account_login: after.selected_account_login,
            ..before
        })
    }
}

impl ReminderApp {
    /// Takes up the account in the form: gives the profile that has to be kept before it is
    /// added, or says in the form why it cannot be.
    pub fn add_account(&mut self) -> (profile: Option<GitHubAccount>)
        ensures
            account_taken_up(*old(self), *final(self), profile),
    {
        if !self.account_form.filled() {
            self.account_form.form_error = Some(
                "Both the login and a Personal Access Token are required.".to_owned(),
            );
            return None;
        }
        let login: String = trimmed(self.account_form.login.as_str());
        if is_tracked_ignoring_case(&self.accounts, login.as_str()) {
            self.account_form.form_error = Some(
                "This GitHub login is already being tracked.".to_owned(),
            );
            return None;
        }
        if self.secret_store.is_none() {
            self.account_form.form_error = Some(
                "Local token storage is not available; cannot add new accounts right now.".to_owned(),
            );
            return None;
        }
        Some(
            GitHubAccount {
                login,
                token: trimmed(self.account_form.token.as_str()),
                review_settings: ReviewCommandSettings::default(),
            },
        )
    }

    /// Adds an account that has been kept, starts a sync of it and selects it, or says in
    /// the form why it was not kept.
    pub fn account_persisted(&mut self, profile: GitHubAccount, kept: Result<(), SecretStoreError>)
        ensures
            account_added(*old(self), profile, kept, *final(self)),
    {
        match kept {
            Err(error) => {
                self.account_form.form_error = Some(
                    with_reason("Unable to persist credentials locally: ", &error),
                );
            },
            Ok(_) => {
                let selected_login: String = profile.login.clone();
                let mut state: AccountState = AccountState::new(profile);
                let _ = state.start_refresh();
                self.auto_refresh.mark_triggered();
                self.accounts.push(state);
                self.selected_account_login = Some(selected_login);
                self.account_form = AccountForm::default();
                proof {
                    assert(self.accounts@.drop_last() =~= old(self).accounts@);
                }
            },
        }
    }

    /// Removes account `idx`, whose credentials have been forgotten or not. Its settings
    /// are not edited any more, and another account is selected if it was.
    pub fn remove_account_at(&mut self, idx: usize, forgotten: Result<(), SecretStoreError>)
        ensures
            account_removed(*old(self), idx, forgotten, *final(self)),
    {
        if idx >= self.accounts.len() {
            return;
        }
        let login: String = self.accounts[idx].profile.login.clone();
        match forgotten {
            Ok(_) => {},
            Err(error) => {
                let mut text: String = "Failed to remove credentials for ".to_owned();
                text.append(login.as_str());
                text.append(": ");
                text.append(error.message().as_str());
                self.global_error = Some(text);
            },
        }
        let edited: bool = match &self.review_settings_editor {
            Some(editor) => text_eq(editor.login.as_str(), login.as_str()),
            None => false,
        };
        if edited {
            self.review_settings_editor = None;
        }
        let _ = self.accounts.remove(idx);
        self.ensure_selected_account();
    }
}

} // verus!

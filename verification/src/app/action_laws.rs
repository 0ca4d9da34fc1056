//! What holds of what a user does with accounts, checkouts and settings.
use vstd::prelude::*;

use crate::app::accounts::{account_added, account_complaint, account_removed, account_taken_up};
use crate::app::checkouts::{
    checkout_added, checkout_complaint, checkout_removed, checkout_taken_up, probe_complaint,
    probe_taken_up,
};
use crate::app::refresh::{account_refreshed, syncing};
use crate::app::repo_paths::{repo_key, CheckoutProbe};
use crate::app::settings_editor::{
    editor_opened, save_plan, settings_clicked, settings_kept, settings_saved, SavePlan,
    SettingsWindowStep,
};
use crate::app::state::AccountState;
use crate::app::{tracks, ReminderApp};
use crate::domain::GitHubAccount;
use crate::storage::{store_error_text, SecretStoreError};
use crate::text::trim;
use crate::text_map::texts;

verus! {

// ---------------------------------------------------------------------------
// Accounts
// ---------------------------------------------------------------------------

/// The account in the form is handed on to be kept exactly where nothing speaks against it:
/// its login and its token without the white space around them, and no settings. Nothing
/// changes by that. What speaks against it is said in the form, which keeps what was typed.
pub proof fn law_taking_up_accounts(
    before: ReminderApp,
    after: ReminderApp,
    profile: Option<GitHubAccount>,
)
    requires
        account_taken_up(before, after, profile),
    ensures
        profile is Some <==> account_complaint(before) is None,
        profile is Some ==> after == before,
        profile matches Some(p) ==> p@.login == trim(before.account_form.login@) && p@.token == trim(
            before.account_form.token@,
        ) && p@.review_settings.additional_args.len() == 0,
        account_complaint(before) matches Some(complaint) ==> (
        after.account_form.form_error matches Some(said) && said@ == complaint),
        after.account_form.login == before.account_form.login,
        after.account_form.token == before.account_form.token,
        after.accounts == before.accounts,
        after.selected_account_login == before.selected_account_login,
{
}

/// An account that has been kept stands behind the others, is selected, and a sync of it is
/// under way; the form is cleared. One that has not been kept is not added, and the reason is
/// said in the form.
pub proof fn law_adding_accounts(
    before: ReminderApp,
    profile: GitHubAccount,
    kept: Result<(), SecretStoreError>,
    after: ReminderApp,
    i: int,
)
    requires
        account_added(before, profile, kept, after),
    ensures
        kept is Ok ==> {
            &&& after.accounts@.len() == before.accounts@.len() + 1
            &&& 0 <= i < before.accounts@.len() ==> after.accounts@[i] == before.accounts@[i]
            &&& after.accounts@[before.accounts@.len() as int].profile == profile
            &&& after.accounts@[before.accounts@.len() as int].pending_job
            &&& after.accounts@[before.accounts@.len() as int].inbox is None
            &&& after.selected_account_login matches Some(login) && login@ == profile.login@
            &&& after.account_form.login@.len() == 0
            &&& after.account_form.token@.len() == 0
            &&& after.account_form.form_error is None
        },
        kept matches Err(error) ==> {
            &&& after.accounts == before.accounts
            &&& after.selected_account_login == before.selected_account_login
            &&& after.account_form.login == before.account_form.login
            &&& after.account_form.token == before.account_form.token
            &&& after.account_form.form_error matches Some(said) && said@
                == "Unable to persist credentials locally: "@ + store_error_text(error@)
            &&& after.auto_refresh == before.auto_refresh
        },
        after.repo_paths == before.repo_paths,
        after.repo_path_form == before.repo_path_form,
        after.review_settings_editor == before.review_settings_editor,
        after.secret_store == before.secret_store,
        after.storage_warning == before.storage_warning,
        after.global_error == before.global_error,
{
    if kept is Ok && 0 <= i < before.accounts@.len() {
        assert(after.accounts@.drop_last()[i] == after.accounts@[i]);
    }
}

/// The account is taken out and those behind it move up. An editor of its settings is closed,
/// and another one stays open. That its credentials could not be forgotten is said, and the
/// account is removed all the same. Another account is selected where it was, as long as there
/// is one.
pub proof fn law_removing_accounts(
    before: ReminderApp,
    idx: usize,
    forgotten: Result<(), SecretStoreError>,
    after: ReminderApp,
    i: int,
)
    requires
        account_removed(before, idx, forgotten, after),
    ensures
        idx >= before.accounts@.len() ==> after == before,
        idx < before.accounts@.len() ==> {
            let login = before.accounts@[idx as int].profile.login@;
            &&& after.accounts@.len() == before.accounts@.len() - 1
            &&& 0 <= i < idx ==> after.accounts@[i] == before.accounts@[i]
            &&& idx <= i < after.accounts@.len() ==> after.accounts@[i] == before.accounts@[i + 1]
            &&& forgotten is Ok ==> after.global_error == before.global_error
            &&& forgotten matches Err(error) ==> (after.global_error matches Some(said) && said@
                == "Failed to remove credentials for "@ + login + ": "@ + store_error_text(error@))
            &&& before.review_settings_editor matches Some(editor) ==> if editor.login@ == login {
                after.review_settings_editor is None
            } else {
                after.review_settings_editor == before.review_settings_editor
            }
            &&& before.review_settings_editor is None ==> after.review_settings_editor is None
            &&& after.accounts@.len() == 0 ==> after.selected_account_login is None
            &&& after.accounts@.len() > 0 ==> (after.selected_account_login matches Some(selected)
                && tracks(after.accounts@, selected@))
            &&& before.selected_account_login matches Some(was) ==> (tracks(after.accounts@, was@)
                ==> (after.selected_account_login matches Some(is) && is@ == was@))
        },
        after.repo_paths == before.repo_paths,
        after.account_form == before.account_form,
        after.repo_path_form == before.repo_path_form,
        after.secret_store == before.secret_store,
        after.storage_warning == before.storage_warning,
        after.auto_refresh == before.auto_refresh,
{
    if idx < before.accounts@.len() && after.accounts@.len() > 0 {
        let first = after.accounts@[0].profile.login@;
        assert(tracks(after.accounts@, first));
    }
}

/// A sync of the account is started unless one is under way; no other account changes.
pub proof fn law_refreshing_one_account(
    before: ReminderApp,
    idx: usize,
    after: ReminderApp,
    started: bool,
    i: int,
)
    requires
        account_refreshed(before, idx, after, started),
    ensures
        started <==> idx < before.accounts@.len() && !before.accounts@[idx as int].pending_job,
        after.accounts@.len() == before.accounts@.len(),
        started ==> after.accounts@[idx as int] == syncing(before.accounts@[idx as int]),
        0 <= i < before.accounts@.len() && (i != idx || !started) ==> after.accounts@[i]
            == before.accounts@[i],
        idx >= before.accounts@.len() ==> after == before,
        idx < before.accounts@.len() ==> after.auto_refresh.last_run is Some
            && after.auto_refresh.interval_nanos == before.auto_refresh.interval_nanos,
        after.selected_account_login == before.selected_account_login,
        after.repo_paths == before.repo_paths,
        after.global_error == before.global_error,
{
}

// ---------------------------------------------------------------------------
// Checkouts
// ---------------------------------------------------------------------------

/// The checkout in the form is handed on to be looked at exactly where nothing speaks against
/// it: the key of its repository, and its path without the white space around it.
pub proof fn law_taking_up_checkouts(
    before: ReminderApp,
    after: ReminderApp,
    request: Option<(String, String)>,
)
    requires
        checkout_taken_up(before, after, request),
    ensures
        request is Some <==> repo_key(before.repo_path_form.repo@) is Some && trim(
            before.repo_path_form.path@,
        ).len() > 0,
        request matches Some((repo, path)) ==> repo_key(before.repo_path_form.repo@) == Some(repo@)
            && path@ == trim(before.repo_path_form.path@) && after == before,
        request is None ==> (after.repo_path_form.form_error matches Some(said)
            && checkout_complaint(before.repo_path_form) == Some(said@)),
        after.repo_paths == before.repo_paths,
        after.repo_path_form.repo == before.repo_path_form.repo,
        after.repo_path_form.path == before.repo_path_form.path,
{
}

/// A path is handed on to be kept exactly where it leads to a directory with a `.git` entry and
/// there is a place to keep it, as the path that it leads to.
pub proof fn law_looking_at_paths(
    before: ReminderApp,
    probe: CheckoutProbe,
    after: ReminderApp,
    kept: Option<String>,
)
    requires
        probe_taken_up(before, probe, after, kept),
    ensures
        kept is Some <==> before.secret_store is Some && (probe matches CheckoutProbe::Resolved {
            is_dir: true,
            has_git: true,
            ..
        }),
        kept matches Some(is) ==> (probe matches CheckoutProbe::Resolved { path, .. } && path@ == is@)
            && after == before,
        kept is None ==> (after.repo_path_form.form_error matches Some(said) && probe_complaint(
            probe,
            before.secret_store is Some,
        ) == Some(said@)),
        after.repo_paths == before.repo_paths,
{
}

/// A checkout that has been kept leads from its repository to its path, and all others stay;
/// the form is cleared. One that has not been kept is not added, and the reason is said.
pub proof fn law_adding_checkouts(
    before: ReminderApp,
    repo: Seq<char>,
    path: Seq<char>,
    kept: Result<(), SecretStoreError>,
    after: ReminderApp,
    other: Seq<char>,
)
    requires
        checkout_added(before, repo, path, kept, after),
    ensures
        kept is Ok ==> {
            &&& texts(after.repo_paths@).dom().contains(repo)
            &&& texts(after.repo_paths@)[repo] == path
            &&& other != repo ==> texts(after.repo_paths@).dom().contains(other) == texts(
                before.repo_paths@,
            ).dom().contains(other)
            &&& other != repo && texts(before.repo_paths@).dom().contains(other) ==> texts(
                after.repo_paths@,
            )[other] == texts(before.repo_paths@)[other]
            &&& after.repo_path_form.repo@.len() == 0
            &&& after.repo_path_form.path@.len() == 0
            &&& after.repo_path_form.form_error is None
        },
        kept matches Err(error) ==> {
            &&& after.repo_paths == before.repo_paths
            &&& after.repo_path_form.repo == before.repo_path_form.repo
            &&& after.repo_path_form.path == before.repo_path_form.path
            &&& after.repo_path_form.form_error matches Some(said) && said@
                == "Unable to persist local repo path: "@ + store_error_text(error@)
        },
        after.accounts == before.accounts,
        after.account_form == before.account_form,
        after.selected_account_login == before.selected_account_login,
        after.global_error == before.global_error,
        after.secret_store == before.secret_store,
{
}

/// A checkout that has been forgotten is gone, and all others stay. One that has not been
/// forgotten stays too, and the reason is said.
pub proof fn law_removing_checkouts(
    before: ReminderApp,
    repo: Seq<char>,
    forgotten: Result<(), SecretStoreError>,
    after: ReminderApp,
    other: Seq<char>,
)
    requires
        checkout_removed(before, repo, forgotten, after),
    ensures
        forgotten is Ok ==> {
            &&& texts(after.repo_paths@).dom().contains(other) == (texts(
                before.repo_paths@,
            ).dom().contains(other) && other != repo)
            &&& texts(after.repo_paths@).dom().contains(other) ==> texts(after.repo_paths@)[other]
                == texts(before.repo_paths@)[other]
            &&& after.global_error == before.global_error
        },
        forgotten matches Err(error) ==> after.repo_paths == before.repo_paths && (
        after.global_error matches Some(said) && said@ == "Failed to remove repo path for "@ + repo
            + ": "@ + store_error_text(error@)),
        after.accounts == before.accounts,
        after.repo_path_form == before.repo_path_form,
        after.account_form == before.account_form,
        after.selected_account_login == before.selected_account_login,
        after.secret_store == before.secret_store,
{
}

// ---------------------------------------------------------------------------
// Review settings
// ---------------------------------------------------------------------------

/// The editor opens on the account with that login where it is tracked; else that is said, and
/// the editor stays as it was.
pub proof fn law_opening_the_editor(before: ReminderApp, login: Seq<char>, after: ReminderApp)
    requires
        editor_opened(before, login, after),
    ensures
        tracks(before.accounts@, login) ==> (after.review_settings_editor matches Some(editor)
            && editor.login@ == login && editor.form_error is None) && after.global_error
            == before.global_error,
        !tracks(before.accounts@, login) ==> after.review_settings_editor
            == before.review_settings_editor && (after.global_error matches Some(said) && said@
            == "Cannot find account settings for "@ + login + "."@),
        after.accounts == before.accounts,
        after.repo_paths == before.repo_paths,
        after.selected_account_login == before.selected_account_login,
{
}

/// Saving hands on the profile of the account with the settings that the editor spells, its
/// login and token as they are, exactly where nothing speaks against it. Nothing changes by
/// that. Where the account is gone, the editor is closed and that is said; what else speaks
/// against it is said in the editor.
pub proof fn law_saving_the_editor(
    before: ReminderApp,
    after: ReminderApp,
    profile: Option<GitHubAccount>,
)
    requires
        settings_saved(before, after, profile),
    ensures
        profile is Some <==> save_plan(before) is Settings,
        profile is Some ==> after == before,
        profile matches Some(p) ==> p@.login == before.review_settings_editor->0.login@
            && p@.review_settings == save_plan(before)->settings && exists|i: int|
            0 <= i < before.accounts@.len() && (#[trigger] before.accounts@[i]).profile.login@
                == p@.login && before.accounts@[i].profile.token@ == p@.token,
        save_plan(before) is Nothing ==> after == before,
        save_plan(before) matches SavePlan::Complaint(text) ==> (
        after.review_settings_editor matches Some(editor) && (editor.form_error matches Some(said)
            && said@ == text)),
        save_plan(before) matches SavePlan::AccountGone(login) ==> after.review_settings_editor
            is None && (after.global_error matches Some(said) && said@
            == "Cannot find account settings for "@ + login + "."@),
        after.accounts == before.accounts,
        after.repo_paths == before.repo_paths,
{
}

/// Settings that have been kept are taken up by the account and the editor is closed. Those
/// that have not been kept are not taken up, and the reason is said in the editor.
pub proof fn law_keeping_settings(
    before: ReminderApp,
    profile: GitHubAccount,
    kept: Result<(), SecretStoreError>,
    after: ReminderApp,
    i: int,
)
    requires
        settings_kept(before, profile, kept, after),
        0 <= i < before.accounts@.len(),
    ensures
        kept is Ok ==> {
            &&& after.review_settings_editor is None
            &&& after.accounts@.len() == before.accounts@.len()
            &&& before.accounts@[i].profile.login@ != profile.login@ ==> after.accounts@[i]
                == before.accounts@[i]
            &&& before.accounts@[i].profile.login@ == profile.login@ && (forall|j: int|
                0 <= j < i ==> (#[trigger] before.accounts@[j]).profile.login@ != profile.login@)
                ==> after.accounts@[i].profile.review_settings == profile.review_settings
            &&& after.accounts@[i].profile.login == before.accounts@[i].profile.login
            &&& after.accounts@[i].profile.token == before.accounts@[i].profile.token
        },
        kept matches Err(error) ==> {
            &&& after.accounts == before.accounts
            &&& before.review_settings_editor is None ==> after == before
            &&& before.review_settings_editor is Some ==> (
            after.review_settings_editor matches Some(editor) && (
            editor.form_error matches Some(said) && said@ == "Unable to save review settings: "@
                + store_error_text(error@)))
        },
        after.repo_paths == before.repo_paths,
        after.global_error == before.global_error,
        after.selected_account_login == before.selected_account_login,
{
    if kept is Ok {
        let was = before.accounts@[i];
        let is = after.accounts@[i];
        assert(is == was || is == (AccountState {
            profile: GitHubAccount { review_settings: profile.review_settings, ..was.profile },
            ..was
        }));
    }
}

/// Saving comes before all else and leaves the editor open; without it the editor is closed
/// where that was asked for or the window was closed.
pub proof fn law_clicks_in_the_settings(
    before: ReminderApp,
    save: bool,
    cancel: bool,
    open: bool,
    after: ReminderApp,
    step: SettingsWindowStep,
)
    requires
        settings_clicked(before, save, cancel, open, after, step),
    ensures
        step == SettingsWindowStep::Save <==> save,
        step == SettingsWindowStep::Done <==> !save,
        save || (!cancel && open) ==> after == before,
        !save && (cancel || !open) ==> after.review_settings_editor is None,
        after.accounts == before.accounts,
        after.repo_paths == before.repo_paths,
        after.global_error == before.global_error,
{
}

} // verus!

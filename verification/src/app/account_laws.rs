//! What holds of accounts and of the app as a whole.
use vstd::prelude::*;

use crate::app::accounts::{
    account_complaint, said_in_account_form, tracks_ignoring_case, typed_account,
};
use crate::app::checkouts::{checkout_complaint, probe_complaint, said_in_repo_form};
use crate::app::forms::{AccountForm, AccountReviewSettingsEditor, RepoPathForm};
use crate::app::refresh::{due_for_refresh, syncing};
use crate::app::repo_path_laws::{law_dropped_paths_are_counted, usable};
use crate::app::repo_paths::{dropped_paths, kept_paths, repo_key, CheckoutProbe};
use crate::app::review_job::MessageView;
use crate::app::review_output::{ReviewOutputState, ReviewStatus};
use crate::app::review_settings::{env_lines, read_env_lines};
use crate::app::scheduler::{can_be_now, can_have_passed, BatchRefreshScheduler};
use crate::app::settings_editor::{
    edits, said_in_editor, save_plan, settings_not_found, settings_taken_up, SavePlan,
};
use crate::app::state::{passed_at_least, reported, running_reviews, thread_of, AccountState};
use crate::app::{
    first_login, first_with_login, settled_selection, started_with, startup_paths,
    startup_profiles, startup_warning, tracks, ReminderApp, Startup, AUTO_REFRESH_INTERVAL_SECS,
};
use crate::decimal::decimal;
use crate::domain::{GitHubAccount, InboxSnapshot, ReviewCommandSettings};
use crate::storage::store_error_text;
use crate::text::{
    ascii_lowercase, join, lines, same_ignoring_ascii_case, trim, views, words,
};
use crate::text_laws::law_ascii_case;
use crate::time::Timestamp;
use std::time::Instant;

verus! {

// ---------------------------------------------------------------------------
// Selection
// ---------------------------------------------------------------------------

/// Once the selection has been settled, an account is selected exactly where there is one,
/// it is tracked, and settling again changes nothing.
pub proof fn law_selection_holds(accounts: Seq<AccountState>, selected: Option<Seq<char>>)
    ensures
        settled_selection(accounts, selected) is Some <==> accounts.len() > 0,
        settled_selection(accounts, selected) matches Some(login) ==> tracks(accounts, login),
        settled_selection(accounts, settled_selection(accounts, selected)) == settled_selection(
            accounts,
            selected,
        ),
{
    if accounts.len() > 0 {
        assert(accounts[0].profile.login@ == first_login(accounts)->0);
        assert(tracks(accounts, first_login(accounts)->0));
    }
}

// ---------------------------------------------------------------------------
// Logins
// ---------------------------------------------------------------------------

/// Whether no two accounts have the same login, in any case of its ASCII letters.
pub open spec fn logins_apart(accounts: Seq<AccountState>) -> bool {
    forall|i: int, j: int|
        0 <= i < j < accounts.len() ==> !same_ignoring_ascii_case(
            (#[trigger] accounts[i]).profile.login@,
            (#[trigger] accounts[j]).profile.login@,
        )
}

/// An account that may be added has a login that no account has yet, so that adding it
/// keeps the logins apart.
pub proof fn law_added_login_is_new(app: ReminderApp, added: AccountState)
    requires
        account_complaint(app) is None,
        added.profile.login@ == typed_account(app.account_form).login,
        logins_apart(app.accounts@),
    ensures
        logins_apart(app.accounts@.push(added)),
{
    let before = app.accounts@;
    let after = before.push(added);
    assert forall|i: int, j: int| 0 <= i < j < after.len() implies !same_ignoring_ascii_case(
        (#[trigger] after[i]).profile.login@,
        (#[trigger] after[j]).profile.login@,
    ) by {
        assert(after[i] == before[i]);
        if j < before.len() {
            assert(after[j] == before[j]);
        } else {
            assert(!tracks_ignoring_case(before, added.profile.login@));
        }
    }
}

/// Removing an account keeps the logins apart.
pub proof fn law_removing_keeps_logins_apart(accounts: Seq<AccountState>, idx: int)
    requires
        0 <= idx < accounts.len(),
        logins_apart(accounts),
    ensures
        logins_apart(accounts.remove(idx)),
{
    let after = accounts.remove(idx);
    assert forall|i: int, j: int| 0 <= i < j < after.len() implies !same_ignoring_ascii_case(
        (#[trigger] after[i]).profile.login@,
        (#[trigger] after[j]).profile.login@,
    ) by {
        let i0 = if i < idx {
            i
        } else {
            i + 1
        };
        let j0 = if j < idx {
            j
        } else {
            j + 1
        };
        assert(after[i] == accounts[i0] && after[j] == accounts[j0]);
    }
}

// ---------------------------------------------------------------------------
// Syncing
// ---------------------------------------------------------------------------

/// A refresh is not started twice: an account of which a sync has been started is not due.
pub proof fn law_syncing_is_not_due(account: AccountState, now: Timestamp)
    ensures
        !due_for_refresh(syncing(account), now),
{
}

/// An account that has just been synced is not due, and is due again once the interval has
/// passed.
pub proof fn law_synced_is_due_after_interval(
    before: AccountState,
    after: AccountState,
    inbox: InboxSnapshot,
    now: Timestamp,
)
    requires
        after.synced_from(before, inbox),
    ensures
        !due_for_refresh(after, inbox.fetched_at),
        due_for_refresh(after, now) <==> passed_at_least(
            inbox.fetched_at,
            now,
            AUTO_REFRESH_INTERVAL_SECS as int,
        ),
{
}

/// After a refresh has been noted, the next one is due exactly where the time that has
/// passed since that moment is at least the interval, whatever was noted before.
pub proof fn law_next_refresh_comes_after_interval(
    before: BatchRefreshScheduler,
    after: BatchRefreshScheduler,
    due: bool,
)
    requires
        after.marked_from(before),
        after.can_find(due),
    ensures
        exists|at: Instant, nanos: u128|
            {
                &&& can_be_now(at)
                &&& after.last_run == Some(at)
                &&& #[trigger] can_have_passed(at, nanos)
                &&& due == (nanos >= before.interval_nanos)
            },
{
    let at = after.last_run->0;
    let nanos = choose|nanos: u128| #[trigger]
        can_have_passed(at, nanos) && due == (nanos >= after.interval_nanos);
    assert(can_have_passed(at, nanos));
}

// ---------------------------------------------------------------------------
// Reviews
// ---------------------------------------------------------------------------

/// Output leaves a review as it stands; the report that it ended ends it.
pub proof fn law_reports_end_reviews(
    before: ReviewOutputState,
    message: MessageView,
    after: ReviewOutputState,
)
    requires
        reported(before, message, after),
    ensures
        message is Append ==> after.status == before.status,
        message is Finished ==> after.status != ReviewStatus::Running && after.captured_at is Some,
        after.open == before.open,
{
}

/// Opening and closing the window of a review leaves everything as it was.
pub proof fn law_toggling_twice_is_nothing(
    outputs: Map<Seq<char>, ReviewOutputState>,
    id: Seq<char>,
)
    requires
        outputs.dom().contains(id),
    ensures
        ({
            let once = outputs.insert(
                id,
                ReviewOutputState { open: !outputs[id].open, ..outputs[id] },
            );
            let twice = once.insert(id, ReviewOutputState { open: !once[id].open, ..once[id] });
            twice == outputs
        }),
{
    let once = outputs.insert(id, ReviewOutputState { open: !outputs[id].open, ..outputs[id] });
    let twice = once.insert(id, ReviewOutputState { open: !once[id].open, ..once[id] });
    assert(twice =~= outputs);
}

/// A review counts as running exactly until it is reported to have ended.
pub proof fn law_running_until_reported(
    outputs: Map<Seq<char>, ReviewOutputState>,
    message: MessageView,
    after: ReviewOutputState,
    other: Seq<char>,
)
    requires
        outputs.dom().contains(thread_of(message)),
        reported(outputs[thread_of(message)], message, after),
        other != thread_of(message),
    ensures
        running_reviews(outputs.insert(thread_of(message), after)).contains(thread_of(message))
            <==> message is Append && running_reviews(outputs).contains(thread_of(message)),
        running_reviews(outputs.insert(thread_of(message), after)).contains(other)
            <==> running_reviews(outputs).contains(other),
{
}

// ---------------------------------------------------------------------------
// Adding accounts
// ---------------------------------------------------------------------------

/// An account can be added exactly where a login and a token have been typed in, no account
/// has the login in any case of its ASCII letters, and there is a place to keep it. Otherwise
/// the first of these that does not hold is named.
pub proof fn law_why_accounts_are_refused(app: ReminderApp)
    ensures
        ({
            let login = trim(app.account_form.login@);
            let token = trim(app.account_form.token@);
            let known = exists|i: int|
                0 <= i < app.accounts@.len() && ascii_lowercase(
                    (#[trigger] app.accounts@[i]).profile.login@,
                ) == ascii_lowercase(login);
            &&& account_complaint(app) is None <==> login.len() > 0 && token.len() > 0 && !known
                && app.secret_store is Some
            &&& login.len() == 0 || token.len() == 0 ==> account_complaint(app) == Some(
                "Both the login and a Personal Access Token are required."@,
            )
            &&& login.len() > 0 && token.len() > 0 && known ==> account_complaint(app) == Some(
                "This GitHub login is already being tracked."@,
            )
            &&& login.len() > 0 && token.len() > 0 && !known && app.secret_store is None
                ==> account_complaint(app) == Some(
                "Local token storage is not available; cannot add new accounts right now."@,
            )
        }),
{
    let login = trim(app.account_form.login@);
    assert forall|i: int| 0 <= i < app.accounts@.len() implies same_ignoring_ascii_case(
        (#[trigger] app.accounts@[i]).profile.login@,
        login,
    ) == (ascii_lowercase(app.accounts@[i].profile.login@) == ascii_lowercase(login)) by {
        law_ascii_case(app.accounts@[i].profile.login@, login, 0);
    }
    if tracks_ignoring_case(app.accounts@, login) {
        let i = choose|i: int|
            0 <= i < app.accounts@.len() && same_ignoring_ascii_case(
                (#[trigger] app.accounts@[i]).profile.login@,
                login,
            );
        assert(ascii_lowercase(app.accounts@[i].profile.login@) == ascii_lowercase(login));
    }
}

/// The account in the form has the login and the token without the white space around them,
/// and no review settings.
pub proof fn law_typed_accounts(form: AccountForm)
    ensures
        typed_account(form).login == trim(form.login@),
        typed_account(form).token == trim(form.token@),
        typed_account(form).review_settings.env_vars == Map::<Seq<char>, Seq<char>>::empty(),
        typed_account(form).review_settings.additional_args.len() == 0,
{
}

/// What is said in the form for accounts changes nothing else.
pub proof fn law_saying_in_the_account_form(before: ReminderApp, after: ReminderApp, text: Seq<char>)
    requires
        said_in_account_form(before, after, text),
    ensures
        after.account_form.form_error matches Some(said) && said@ == text,
        after.account_form.login == before.account_form.login,
        after.account_form.token == before.account_form.token,
        after.repo_path_form == before.repo_path_form,
        after.review_settings_editor == before.review_settings_editor,
        after.accounts == before.accounts,
        after.repo_paths == before.repo_paths,
        after.selected_account_login == before.selected_account_login,
        after.secret_store == before.secret_store,
        after.storage_warning == before.storage_warning,
        after.global_error == before.global_error,
        after.auto_refresh == before.auto_refresh,
{
}

/// A selected account stays selected as long as it is tracked; else the first account is
/// selected, or none where there is none.
pub proof fn law_selection_settles(accounts: Seq<AccountState>, selected: Option<Seq<char>>)
    ensures
        ({
            let stays = selected matches Some(login) && exists|i: int|
                0 <= i < accounts.len() && (#[trigger] accounts[i]).profile.login@ == login;
            &&& stays ==> settled_selection(accounts, selected) == selected
            &&& !stays && accounts.len() > 0 ==> settled_selection(accounts, selected) == Some(
                accounts[0].profile.login@,
            )
            &&& accounts.len() == 0 ==> settled_selection(accounts, selected) is None
        }),
{
}

/// An account is the first with its login exactly where it has the login and none before it
/// does; a login that is tracked has just one first account.
pub proof fn law_first_with_login(accounts: Seq<AccountState>, login: Seq<char>, i: int, j: int)
    ensures
        first_with_login(accounts, login, i) && first_with_login(accounts, login, j) ==> i == j,
        first_with_login(accounts, login, i) ==> tracks(accounts, login) && 0 <= i < accounts.len()
            && accounts[i].profile.login@ == login,
        0 <= j < i < accounts.len() && accounts[j].profile.login@ == login ==> !first_with_login(
            accounts,
            login,
            i,
        ),
        accounts.len() > 0 && accounts[0].profile.login@ == login ==> first_with_login(
            accounts,
            login,
            0,
        ),
{
}

// ---------------------------------------------------------------------------
// Starting
// ---------------------------------------------------------------------------

/// The app warns exactly where accounts cannot be kept, where they could not be restored, or
/// where some of the checkouts could not be, and says which.
pub proof fn law_startup_warnings(startup: Startup)
    ensures
        startup matches Startup::NoStore(error) ==> startup_warning(startup) == Some(
            "Local token storage is unavailable; tokens cannot be persisted ("@ + store_error_text(
                error@,
            ) + ")."@,
        ),
        startup matches Startup::NotRestored { error, .. } ==> startup_warning(startup) == Some(
            "Failed to restore saved accounts: "@ + store_error_text(error@),
        ),
        startup matches Startup::Restored { checkouts, .. } ==> {
            let keys = checkouts.keys();
            let found = checkouts@;
            &&& startup_warning(startup) is None <==> forall|i: int|
                0 <= i < keys.len() ==> repo_key(#[trigger] keys[i]) is Some && (
                found[keys[i]] matches CheckoutProbe::Resolved { is_dir: true, has_git: true, .. })
            &&& startup_warning(startup) matches Some(text) ==> text == "Skipped "@ + decimal(
                dropped_paths(keys, found),
            ) + " invalid local repo path mapping(s) while restoring settings."@
        },
{
    if let Startup::Restored { checkouts, .. } = startup {
        let keys = checkouts.keys();
        let found = checkouts@;
        law_dropped_paths_are_counted(keys, found);
        assert forall|i: int| 0 <= i < keys.len() implies usable(found, #[trigger] keys[i]) == (
        repo_key(keys[i]) is Some && (found[keys[i]] matches CheckoutProbe::Resolved {
            is_dir: true,
            has_git: true,
            ..
        })) by {}
    }
}

/// The accounts and checkouts that were kept are restored, and none where nothing could be
/// read.
pub proof fn law_startup_restores(startup: Startup)
    ensures
        startup matches Startup::Restored { profiles, checkouts, .. } ==> startup_profiles(startup)
            == profiles@ && startup_paths(startup) == kept_paths(checkouts.keys(), checkouts@),
        !(startup is Restored) ==> startup_profiles(startup).len() == 0 && startup_paths(startup)
            == Map::<Seq<char>, Seq<char>>::empty(),
{
}

// ---------------------------------------------------------------------------
// Checkouts
// ---------------------------------------------------------------------------

/// A checkout can be looked at exactly where its repository has an owner and a name and a path
/// has been typed in; what is missing is named, the repository first.
pub proof fn law_why_checkouts_are_refused(form: RepoPathForm)
    ensures
        repo_key(form.repo@) is None ==> checkout_complaint(form) == Some(
            "Repository must be in the form owner/repo."@,
        ),
        repo_key(form.repo@) is Some && trim(form.path@).len() == 0 ==> checkout_complaint(form)
            == Some("A local checkout path is required."@),
        repo_key(form.repo@) is Some && trim(form.path@).len() > 0 ==> checkout_complaint(form)
            is None,
{
}

/// A path can be kept exactly where it leads to a directory with a `.git` entry and there is a
/// place to keep it; what is missing is named.
pub proof fn law_what_a_checkout_needs(probe: CheckoutProbe, can_keep: bool)
    ensures
        probe_complaint(probe, can_keep) is None <==> can_keep && (
        probe matches CheckoutProbe::Resolved { is_dir: true, has_git: true, .. }),
        probe matches CheckoutProbe::Unresolved(error) ==> probe_complaint(probe, can_keep) == Some(
            "Unable to resolve checkout path: "@ + error@,
        ),
        probe matches CheckoutProbe::Resolved { is_dir: false, .. } ==> probe_complaint(
            probe,
            can_keep,
        ) == Some("Local checkout path must point to a directory."@),
        probe matches CheckoutProbe::Resolved { is_dir: true, has_git: false, .. }
            ==> probe_complaint(probe, can_keep) == Some(
            "Local checkout path must point to a git repository."@,
        ),
        (probe matches CheckoutProbe::Resolved { is_dir: true, has_git: true, .. }) && !can_keep
            ==> probe_complaint(probe, can_keep) == Some(
            "Local storage is not available; cannot save repo paths right now."@,
        ),
{
}

/// What is said in the form for checkouts changes nothing else.
pub proof fn law_saying_in_the_repo_form(before: ReminderApp, after: ReminderApp, text: Seq<char>)
    requires
        said_in_repo_form(before, after, text),
    ensures
        after.repo_path_form.form_error matches Some(said) && said@ == text,
        after.repo_path_form.repo == before.repo_path_form.repo,
        after.repo_path_form.path == before.repo_path_form.path,
        after.account_form == before.account_form,
        after.review_settings_editor == before.review_settings_editor,
        after.accounts == before.accounts,
        after.repo_paths == before.repo_paths,
        after.selected_account_login == before.selected_account_login,
        after.secret_store == before.secret_store,
        after.storage_warning == before.storage_warning,
        after.global_error == before.global_error,
        after.auto_refresh == before.auto_refresh,
{
}

/// A saved mapping is kept, under its repository's key and in place of an earlier one, exactly
/// where the repository has a key and the path leads to a directory with a `.git` entry;
/// otherwise it is counted as dropped.
pub proof fn law_restoring_checkouts(
    keys: Seq<Seq<char>>,
    found: Map<Seq<char>, CheckoutProbe>,
    repo: Seq<char>,
)
    ensures
        kept_paths(Seq::empty(), found) == Map::<Seq<char>, Seq<char>>::empty(),
        dropped_paths(Seq::empty(), found) == 0,
        match (repo_key(repo), found[repo]) {
            (Some(key), CheckoutProbe::Resolved { path, is_dir: true, has_git: true }) => {
                &&& kept_paths(keys.push(repo), found) == kept_paths(keys, found).insert(key, path@)
                &&& dropped_paths(keys.push(repo), found) == dropped_paths(keys, found)
            },
            _ => {
                &&& kept_paths(keys.push(repo), found) == kept_paths(keys, found)
                &&& dropped_paths(keys.push(repo), found) == dropped_paths(keys, found) + 1
            },
        },
{
    assert(keys.push(repo).drop_last() =~= keys);
}

// ---------------------------------------------------------------------------
// Review settings
// ---------------------------------------------------------------------------

/// Saving settings comes to nothing where none are edited; to the complaint of the first line
/// that cannot be read; to closing the editor where the account is gone; to a complaint where
/// there is no place to keep them; and else to the settings that the texts spell.
pub proof fn law_saving_settings(app: ReminderApp)
    ensures
        app.review_settings_editor is None ==> save_plan(app) is Nothing,
        app.review_settings_editor matches Some(editor) ==> {
            let tracked_login = exists|i: int|
                0 <= i < app.accounts@.len() && (#[trigger] app.accounts@[i]).profile.login@
                    == editor.login@;
            match read_env_lines(lines(editor.env_vars_text@)) {
                Err(complaint) => save_plan(app) == SavePlan::Complaint(complaint),
                Ok(env_vars) => {
                    &&& !tracked_login ==> save_plan(app) == SavePlan::AccountGone(editor.login@)
                    &&& tracked_login && app.secret_store is None ==> save_plan(app)
                        == SavePlan::Complaint(
                        "Local storage is not available; cannot save review settings right now."@,
                    )
                    &&& tracked_login && app.secret_store is Some ==> (
                    save_plan(app) matches SavePlan::Settings { login, settings } && login
                        == editor.login@ && settings.env_vars == env_vars
                        && settings.additional_args == words(editor.additional_args_text@))
                },
            }
        },
{
}

/// Settings are taken up by the first account with the login and by no other, and nothing else
/// of it changes.
pub proof fn law_taking_up_settings(
    before: Seq<AccountState>,
    after: Seq<AccountState>,
    login: Seq<char>,
    settings: ReviewCommandSettings,
    i: int,
)
    requires
        settings_taken_up(before, after, login, settings),
        0 <= i < before.len(),
    ensures
        after.len() == before.len(),
        before[i].profile.login@ == login && (forall|j: int|
            0 <= j < i ==> (#[trigger] before[j]).profile.login@ != login)
            ==> after[i].profile.review_settings == settings,
        before[i].profile.login@ != login || (exists|j: int|
            0 <= j < i && (#[trigger] before[j]).profile.login@ == login) ==> after[i] == before[i],
        after[i].profile.login == before[i].profile.login,
        after[i].profile.token == before[i].profile.token,
        after[i].inbox == before[i].inbox,
        after[i].last_error == before[i].last_error,
        after[i].pending_job == before[i].pending_job,
        after[i].review_outputs == before[i].review_outputs,
        after[i].new_notification_ids == before[i].new_notification_ids,
{
    assert(after[i] == if first_with_login(before, login, i) {
        AccountState {
            profile: GitHubAccount { review_settings: settings, ..before[i].profile },
            ..before[i]
        }
    } else {
        before[i]
    });
}

/// An editor opens with the settings of its account: a line `KEY=VALUE` for each environment
/// variable, in the order of their names, and the arguments with spaces between them.
pub proof fn law_opened_editors(editor: AccountReviewSettingsEditor, profile: GitHubAccount, i: int)
    requires
        edits(editor, profile),
    ensures
        editor.login@ == profile.login@,
        editor.form_error is None,
        ({
            let keys = profile.review_settings.env_vars.keys();
            let rows = env_lines(keys, profile.review_settings@.env_vars);
            &&& editor.env_vars_text@ == join(rows, "\n"@)
            &&& rows.len() == keys.len()
            &&& 0 <= i < keys.len() ==> rows[i] == keys[i]
                + "="@ + profile.review_settings.env_vars@[keys[i]]@
        }),
        editor.additional_args_text@ == join(
            views(profile.review_settings.additional_args@),
            " "@,
        ),
{
    let keys = profile.review_settings.env_vars.keys();
    if 0 <= i < keys.len() {
        assert(keys.contains(keys[i]));
        assert(profile.review_settings.env_vars@.dom().contains(keys[i]));
    }
}

/// What is said in the editor changes nothing else.
pub proof fn law_saying_in_the_editor(before: ReminderApp, after: ReminderApp, text: Seq<char>)
    requires
        said_in_editor(before, after, text),
    ensures
        before.review_settings_editor matches Some(was) && (
        after.review_settings_editor matches Some(is) && (is.form_error matches Some(said) && said@
            == text) && is.login == was.login && is.env_vars_text == was.env_vars_text
            && is.additional_args_text == was.additional_args_text),
        after.account_form == before.account_form,
        after.repo_path_form == before.repo_path_form,
        after.accounts == before.accounts,
        after.repo_paths == before.repo_paths,
        after.selected_account_login == before.selected_account_login,
        after.secret_store == before.secret_store,
        after.storage_warning == before.storage_warning,
        after.global_error == before.global_error,
        after.auto_refresh == before.auto_refresh,
{
}

/// A missing account is named where its settings are not found.
pub proof fn law_missing_settings_are_named(login: Seq<char>)
    ensures
        settings_not_found(login) == "Cannot find account settings for "@ + login + "."@,
{
}

// ---------------------------------------------------------------------------
// Forms
// ---------------------------------------------------------------------------

/// A form is filled exactly where something other than white space has been typed into each of
/// its two fields, and blank exactly where nothing has and nothing is said.
pub proof fn law_forms(account: AccountForm, checkout: RepoPathForm)
    ensures
        account.is_filled() <==> trim(account.login@).len() > 0 && trim(account.token@).len() > 0,
        checkout.is_filled() <==> trim(checkout.repo@).len() > 0 && trim(checkout.path@).len() > 0,
        account.is_blank() <==> account.login@.len() == 0 && account.token@.len() == 0
            && account.form_error is None,
        checkout.is_blank() <==> checkout.repo@.len() == 0 && checkout.path@.len() == 0
            && checkout.form_error is None,
{
}

/// The app starts with a sync under way for each account that was restored, the first of which
/// is selected, with nothing typed in and nothing said but the warning, and with a place to
/// keep accounts where there is one.
pub proof fn law_starting(app: ReminderApp, startup: Startup, i: int)
    requires
        started_with(app, startup),
    ensures
        startup matches Startup::Restored { store, profiles, .. } ==> {
            &&& app.accounts@.len() == profiles@.len()
            &&& 0 <= i < profiles@.len() ==> app.accounts@[i].profile == profiles@[i]
                && app.accounts@[i].pending_job && app.accounts@[i].inbox is None
            &&& profiles@.len() > 0 ==> (app.selected_account_login matches Some(login) && login@
                == profiles@[0].login@)
            &&& app.secret_store == Some(store)
        },
        !(startup is Restored) ==> app.accounts@.len() == 0 && app.selected_account_login is None,
        startup matches Startup::NotRestored { store, .. } ==> app.secret_store == Some(store),
        startup is NoStore ==> app.secret_store is None,
        app.storage_warning is None <==> startup_warning(startup) is None,
        app.storage_warning matches Some(said) ==> startup_warning(startup) == Some(said@),
        app.account_form.login@.len() == 0 && app.account_form.token@.len() == 0,
        app.repo_path_form.repo@.len() == 0 && app.repo_path_form.path@.len() == 0,
        app.review_settings_editor is None,
        app.global_error is None,
        app.auto_refresh.interval_nanos == 180000000000,
        app.auto_refresh.last_run is Some,
{
    if app.accounts@.len() > 0 {
        assert(app.accounts@[0].is_fresh(startup_profiles(startup)[0]));
    }
    if 0 <= i < app.accounts@.len() {
        assert(app.accounts@[i].is_fresh(startup_profiles(startup)[i]));
    }
}

} // verus!

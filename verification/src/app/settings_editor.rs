//! Editing the review settings of an account.
use vstd::prelude::*;

use crate::app::forms::AccountReviewSettingsEditor;
use crate::app::review_settings::{
    env_lines, format_review_additional_args, format_review_env_vars, parse_review_additional_args,
    parse_review_env_vars, read_env_lines,
};
use crate::app::state::AccountState;
use crate::app::{find_account, first_with_login, tracks, with_reason, ReminderApp};
use crate::domain::{
    opt_text, AccountView, GitHubAccount, ReviewCommandSettings, SettingsView,
};
use crate::storage::{store_error_text, SecretStoreError};
use crate::text::{join, lines, words};
use crate::text_map::{walks, TextMap};
use vstd::string::StringExecFns;

verus! {

/// Whether an editor holds the settings of a profile as text.
pub open spec fn edits(editor: AccountReviewSettingsEditor, profile: GitHubAccount) -> bool {
    &&& editor.login@ == profile.login@
    &&& walks(profile.review_settings.env_vars.keys(), profile.review_settings.env_vars@)
    &&& editor.env_vars_text@ == join(
        env_lines(profile.review_settings.env_vars.keys(), profile.review_settings@.env_vars),
        "\n"@,
    )
    &&& editor.additional_args_text@ == join(profile.review_settings@.additional_args, " "@)
    &&& editor.form_error is None
}

/// What is said where the settings of an account are not found.
pub open spec fn settings_not_found(login: Seq<char>) -> Seq<char> {
    "Cannot find account settings for "@ + login + "."@
}

fn settings_not_found_text(login: &str) -> (text: String)
    ensures
        text@ == settings_not_found(login@),
{
    let mut text: String = "Cannot find account settings for ".to_owned();
    text.append(login);
    text.append(".");
    text
}

/// Whether `after` is `before` with `text` said in its editor, which is open.
pub open spec fn said_in_editor(before: ReminderApp, after: ReminderApp, text: Seq<char>) -> bool {
    match (before.review_settings_editor, after.review_settings_editor) {
        (Some(was), Some(is)) => {
            &&& opt_text(is.form_error) == Some(text)
            &&& is == (AccountReviewSettingsEditor { form_error: is.form_error, ..was })
            &&& after == (ReminderApp {
                review_settings_editor: after.review_settings_editor,
                ..before
            })
        },
        _ => false,
    }
}

/// What saving the settings in an editor comes to, before anything is kept.
pub enum SavePlan {
    /// There is nothing to save.
    Nothing,
    /// This is said in the editor.
    Complaint(Seq<char>),
    /// The account is gone, and the editor is closed.
    AccountGone(Seq<char>),
    /// These are the settings of the account `login`.
    Settings { login: Seq<char>, settings: SettingsView },
}

/// What saving the settings in the editor comes to, before anything is kept.
pub open spec fn save_plan(app: ReminderApp) -> SavePlan {
    match app.review_settings_editor {
        None => SavePlan::Nothing,
        Some(editor) => match read_env_lines(lines(editor.env_vars_text@)) {
            Err(complaint) => SavePlan::Complaint(complaint),
            Ok(env_vars) => if !tracks(app.accounts@, editor.login@) {
                SavePlan::AccountGone(editor.login@)
            } else if app.secret_store is None {
                SavePlan::Complaint(
                    "Local storage is not available; cannot save review settings right now."@,
                )
            } else {
                SavePlan::Settings {
                    login: editor.login@,
                    settings: SettingsView {
                        env_vars,
                        additional_args: words(editor.additional_args_text@),
                    },
                }
            },
        },
    }
}

/// Whether `after` are the accounts `before` with `settings` for the first with that
/// login.
pub open spec fn settings_taken_up(
    before: Seq<AccountState>,
    after: Seq<AccountState>,
    login: Seq<char>,
    settings: ReviewCommandSettings,
) -> bool {
    &&& after.len() == before.len()
    &&& forall|i: int|
        0 <= i < before.len() ==> #[trigger] after[i] == if first_with_login(before, login, i) {
            AccountState {
                profile: GitHubAccount { review_settings: settings, ..before[i].profile },
                ..before[i]
            }
        } else {
            before[i]
        }
}

/// What has to be done after the settings window was drawn.
#[derive(Clone, Copy, Debug, PartialEq, Eq, Structural)]
pub enum SettingsWindowStep {
    /// The settings have to be saved.
    Save,
    /// Nothing.
    Done,
}

/// Whether `after` is `before` with the editor opened on the settings of the account `login`.
pub open spec fn editor_opened(before: ReminderApp, login: Seq<char>, after: ReminderApp) -> bool {
    if tracks(before.accounts@, login) {
        &&& after == (ReminderApp {
            review_settings_editor: after.review_settings_editor,
            ..before
        })
        &&& after.review_settings_editor is Some
        &&& exists|i: int| #[trigger]
            first_with_login(before.accounts@, login, i) && edits(
                after.review_settings_editor->0,
                before.accounts@[i].profile,
            )
    } else {
        &&& opt_text(after.global_error) == Some(settings_not_found(login))
        &&& after == (ReminderApp {
            global_error: after.global_error,
            ..before
        })
    }
}

/// Whether `after` and `profile` are what saving the settings in the editor makes of `before`.
pub open spec fn settings_saved(
    before: ReminderApp,
    after: ReminderApp,
    profile: Option<GitHubAccount>,
) -> bool {
    match (save_plan(before), profile) {
        (SavePlan::Nothing, None) => after == before,
        (SavePlan::Complaint(text), None) => said_in_editor(before, after, text),
        (SavePlan::AccountGone(login), None) => {
            &&& opt_text(after.global_error) == Some(settings_not_found(login))
            &&& after == (ReminderApp {
                review_settings_editor: None,
                global_error: after.global_error,
                ..before
            })
        },
        (SavePlan::Settings { login, settings }, Some(p)) => {
            &&& after == before
            &&& exists|i: int| #[trigger]
                first_with_login(before.accounts@, login, i) && p@ == (AccountView {
                    review_settings: settings,
                    ..before.accounts@[i].profile@
                })
        },
        _ => false,
    }
}

/// Whether `after` is `before` once a profile with new settings has been kept, or has not been.
pub open spec fn settings_kept(
    before: ReminderApp,
    profile: GitHubAccount,
    kept: Result<(), SecretStoreError>,
    after: ReminderApp,
) -> bool {
    match kept {
        Err(error) => if before.review_settings_editor is Some {
            said_in_editor(
                before,
                after,
                "Unable to save review settings: "@ + store_error_text(error@),
            )
        } else {
            after == before
        },
        Ok(_) => {
            &&& settings_taken_up(
                before.accounts@,
                after.accounts@,
                profile.login@,
                profile.review_settings,
            )
            &&& after == (ReminderApp {
                accounts: after.accounts,
                review_settings_editor: None,
                ..before
            })
        },
    }
}

/// Whether `after` and `step` are what clicks in the settings window make of `before`.
pub open spec fn settings_clicked(
    before: ReminderApp,
    save: bool,
    cancel: bool,
    open: bool,
    after: ReminderApp,
    step: SettingsWindowStep,
) -> bool {
    &&& step == if save {
        SettingsWindowStep::Save
    } else {
        SettingsWindowStep::Done
    }
    &&& after == if !save && (cancel || !open) {
        ReminderApp { review_settings_editor: None, ..before }
    } else {
        before
    }
}

impl ReminderApp {
    /// Opens the editor with the settings of the account `login`.
    pub fn open_review_settings_editor(&mut self, login: &str)
        ensures
            editor_opened(*old(self), login@, *final(self)),
    {
        match find_account(&self.accounts, login) {
            None => {
                self.global_error = Some(settings_not_found_text(login));
            },
            Some(i) => {
                let profile: &GitHubAccount = &self.accounts[i].profile;
                let editor: AccountReviewSettingsEditor = AccountReviewSettingsEditor {
                    login: profile.login.clone(),
                    env_vars_text: format_review_env_vars(&profile.review_settings),
                    additional_args_text: format_review_additional_args(&profile.review_settings),
                    form_error: None,
                };
                proof {
                    assert(edits(editor, *profile));
                    assert(first_with_login(self.accounts@, login@, i as int));
                }
                self.review_settings_editor = Some(editor);
            },
        }
    }

    fn say_in_editor(&mut self, text: String)
        requires
            old(self).review_settings_editor is Some,
        ensures
            said_in_editor(*old(self), *final(self), text@),
    {
        if let Some(editor) = &mut self.review_settings_editor {
            editor.form_error = Some(text);
        }
    }

    /// Takes up the settings in the editor: gives the profile with them that has to be kept
    /// before they hold, or says why it cannot be.
    pub fn save_review_settings(&mut self) -> (profile: Option<GitHubAccount>)
        ensures
            settings_saved(*old(self), *final(self), profile),
    {
        let (parsed, additional_args, login): (
            Result<TextMap<String>, String>,
            Vec<String>,
            String,
        ) = match &self.review_settings_editor {
            None => {
                return None;
            },
            Some(editor) => (
                parse_review_env_vars(editor.env_vars_text.as_str()),
                parse_review_additional_args(editor.additional_args_text.as_str()),
                editor.login.clone(),
            ),
        };
        let review_settings: ReviewCommandSettings = match parsed {
            Ok(env_vars) => ReviewCommandSettings { env_vars, additional_args },
            Err(complaint) => {
                self.say_in_editor(complaint);
                return None;
            },
        };
        match find_account(&self.accounts, login.as_str()) {
            None => {
                self.review_settings_editor = None;
                self.global_error = Some(settings_not_found_text(login.as_str()));
                None
            },
            Some(i) => {
                proof {
                    assert(self.accounts@[i as int].profile.login@ == login@);
                    assert(tracks(self.accounts@, login@));
                }
                if self.secret_store.is_none() {
                    self.say_in_editor(
                        "Local storage is not available; cannot save review settings right now.".to_owned(),
                    );
                    return None;
                }
                let account: &GitHubAccount = &self.accounts[i].profile;
                let profile: GitHubAccount = GitHubAccount {
                    login: account.login.clone(),
                    token: account.token.clone(),
                    review_settings,
                };
                proof {
                    let plan = save_plan(*old(self));
                    assert(plan is Settings);
                    assert(review_settings@ =~= plan->settings);
                    assert(first_with_login(self.accounts@, plan->login, i as int));
                    assert(profile@ =~= (AccountView {
                        review_settings: review_settings@,
                        ..self.accounts@[i as int].profile@
                    }));
                }
                Some(profile)
            },
        }
    }

    /// Takes up the settings of a profile that has been kept and closes the editor, or says
    /// in it why the profile was not kept.
    pub fn review_settings_persisted(
        &mut self,
        profile: GitHubAccount,
        kept: Result<(), SecretStoreError>,
    )
        ensures
            settings_kept(*old(self), profile, kept, *final(self)),
    {
        match kept {
            Err(error) => {
                if self.review_settings_editor.is_some() {
                    self.say_in_editor(with_reason("Unable to save review settings: ", &error));
                }
            },
            Ok(_) => {
                let ghost before = self.accounts@;
                match find_account(&self.accounts, profile.login.as_str()) {
                    Some(i) => {
                        self.accounts[i].profile.review_settings = profile.review_settings;
                        proof {
                            assert forall|j: int| 0 <= j < before.len() implies first_with_login(
                                before,
                                profile.login@,
                                j,
                            ) == (j == i) by {
                                if j < i {
                                    assert(before[j].profile.login@ != profile.login@);
                                }
                                if j > i {
                                    assert(before[i as int].profile.login@ == profile.login@);
                                }
                            }
                        }
                    },
                    None => {},
                }
                self.review_settings_editor = None;
            },
        }
    }

    /// The title of the settings window, if it is open.
    pub fn review_settings_title(&self) -> (title: Option<String>)
        ensures
            match (title, self.review_settings_editor) {
                (Some(t), Some(editor)) => t@ == "Review settings: "@ + editor.login@,
                (None, None) => true,
                _ => false,
            },
    {
        match &self.review_settings_editor {
            Some(editor) => {
                let mut title: String = "Review settings: ".to_owned();
                title.append(editor.login.as_str());
                Some(title)
            },
            None => None,
        }
    }

    /// Takes up what was clicked in the settings window: saving comes first, else it is
    /// closed if that was asked for.
    pub fn review_settings_clicked(&mut self, save: bool, cancel: bool, open: bool) -> (step:
        SettingsWindowStep)
        ensures
            settings_clicked(*old(self), save, cancel, open, *final(self), step),
    {
        if save {
            return SettingsWindowStep::Save;
        }
        if cancel || !open {
            self.review_settings_editor = None;
        }
        SettingsWindowStep::Done
    }
}

} // verus!

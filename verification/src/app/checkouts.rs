//! Adding and removing local checkouts.
use vstd::prelude::*;

use crate::app::forms::RepoPathForm;
use crate::app::repo_paths::{canonical_repo_key, repo_key, CheckoutProbe};
use crate::app::{with_reason, ReminderApp};
use crate::domain::opt_text;
use crate::storage::{store_error_text, SecretStoreError};
use crate::text::{trim, trimmed};
use crate::text_map::{lemma_texts_insert, lemma_texts_remove, texts};
use vstd::string::StringExecFns;

verus! {

/// Whether `after` is `before` with `text` said in its form for checkouts.
pub open spec fn said_in_repo_form(before: ReminderApp, after: ReminderApp, text: Seq<char>) -> bool {
    &&& opt_text(after.repo_path_form.form_error) == Some(text)
    &&& after == (ReminderApp {
        repo_path_form: RepoPathForm {
            form_error: after.repo_path_form.form_error,
            ..before.repo_path_form
        },
        ..before
    })
}

/// Why the checkout in the form cannot be looked at, if it cannot.
pub open spec fn checkout_complaint(form: RepoPathForm) -> Option<Seq<char>> {
    if repo_key(form.repo@) is None {
        Some("Repository must be in the form owner/repo."@)
    } else if trim(form.path@).len() == 0 {
        Some("A local checkout path is required."@)
    } else {
        None
    }
}

/// Why what was found at the path cannot be kept as a checkout, if it cannot.
pub open spec fn probe_complaint(probe: CheckoutProbe, can_keep: bool) -> Option<Seq<char>> {
    match probe {
        CheckoutProbe::Unresolved(error) => Some("Unable to resolve checkout path: "@ + error@),
        CheckoutProbe::Resolved { is_dir, has_git, .. } => if !is_dir {
            Some("Local checkout path must point to a directory."@)
        } else if !has_git {
            Some("Local checkout path must point to a git repository."@)
        } else if !can_keep {
            Some("Local storage is not available; cannot save repo paths right now."@)
        } else {
            None
        },
    }
}

/// Whether `after` and `request` are what taking up the checkout in the form makes of `before`.
pub open spec fn checkout_taken_up(
    before: ReminderApp,
    after: ReminderApp,
    request: Option<(String, String)>,
) -> bool {
    match (checkout_complaint(before.repo_path_form), request) {
        (Some(complaint), None) => said_in_repo_form(before, after, complaint),
        (None, Some((repo, path))) => {
            &&& repo_key(before.repo_path_form.repo@) == Some(repo@)
            &&& path@ == trim(before.repo_path_form.path@)
            &&& after == before
        },
        _ => false,
    }
}

/// Whether `after` and `kept` are what taking up what was found at a path makes of `before`.
pub open spec fn probe_taken_up(
    before: ReminderApp,
    probe: CheckoutProbe,
    after: ReminderApp,
    kept: Option<String>,
) -> bool {
    match (probe_complaint(probe, before.secret_store is Some), kept) {
        (Some(complaint), None) => said_in_repo_form(before, after, complaint),
        (None, Some(path)) => probe->path@ == path@ && after == before,
        _ => false,
    }
}

/// Whether `after` is `before` once a checkout has been kept, or has not been.
pub open spec fn checkout_added(
    before: ReminderApp,
    repo: Seq<char>,
    path: Seq<char>,
    kept: Result<(), SecretStoreError>,
    after: ReminderApp,
) -> bool {
    match kept {
        Err(error) => said_in_repo_form(
            before,
            after,
            "Unable to persist local repo path: "@ + store_error_text(error@),
        ),
        Ok(_) => {
            &&& texts(after.repo_paths@) == texts(before.repo_paths@).insert(
                repo,
                path,
            )
            &&& after.repo_path_form.is_blank()
            &&& after == (ReminderApp {
                repo_paths: after.repo_paths,
                repo_path_form: after.repo_path_form,
                ..before
            })
        },
    }
}

/// Whether `after` is `before` once a checkout has been forgotten, or has not been.
pub open spec fn checkout_removed(
    before: ReminderApp,
    repo: Seq<char>,
    forgotten: Result<(), SecretStoreError>,
    after: ReminderApp,
) -> bool {
    match forgotten {
        Err(error) => {
            &&& opt_text(after.global_error) == Some(
                "Failed to remove repo path for "@ + repo + ": "@ + store_error_text(
                    error@,
                ),
            )
            &&& after == (ReminderApp {
                global_error: after.global_error,
                ..before
            })
        },
        Ok(_) => {
            &&& texts(after.repo_paths@) == texts(before.repo_paths@).remove(repo)
            &&& after == (ReminderApp {
                repo_paths: after.repo_paths,
                ..before
            })
        },
    }
}

impl ReminderApp {
    /// Takes up the checkout in the form: gives the repository's key and the path that has
    /// to be looked at, or says in the form why that cannot be.
    pub fn save_repo_path(&mut self) -> (request: Option<(String, String)>)
        ensures
            checkout_taken_up(*old(self), *final(self), request),
    {
        match canonical_repo_key(self.repo_path_form.repo.as_str()) {
            None => {
                self.repo_path_form.form_error = Some(
                    "Repository must be in the form owner/repo.".to_owned(),
                );
                None
            },
            Some(repo) => {
                let raw_path: String = trimmed(self.repo_path_form.path.as_str());
                if raw_path.as_str().is_empty() {
                    self.repo_path_form.form_error = Some(
                        "A local checkout path is required.".to_owned(),
                    );
                    return None;
                }
                Some((repo, raw_path))
            },
        }
    }

    /// Takes up what was found at the path: gives the path that has to be kept, or says in
    /// the form why it cannot be.
    pub fn checkout_probed(&mut self, probe: CheckoutProbe) -> (kept: Option<String>)
        ensures
            probe_taken_up(*old(self), probe, *final(self), kept),
    {
        let complaint: String = match probe {
            CheckoutProbe::Unresolved(error) => {
                let mut text: String = "Unable to resolve checkout path: ".to_owned();
                text.append(error.as_str());
                text
            },
            CheckoutProbe::Resolved { path, is_dir, has_git } => {
                if !is_dir {
                    "Local checkout path must point to a directory.".to_owned()
                } else if !has_git {
                    "Local checkout path must point to a git repository.".to_owned()
                } else if self.secret_store.is_none() {
                    "Local storage is not available; cannot save repo paths right now.".to_owned()
                } else {
                    return Some(path);
                }
            },
        };
        self.repo_path_form.form_error = Some(complaint);
        None
    }

    /// Adds a checkout that has been kept and clears the form, or says in it why it was
    /// not kept.
    pub fn repo_path_persisted(
        &mut self,
        repo: String,
        path: String,
        kept: Result<(), SecretStoreError>,
    )
        ensures
            checkout_added(*old(self), repo@, path@, kept, *final(self)),
    {
        match kept {
            Err(error) => {
                self.repo_path_form.form_error = Some(
                    with_reason("Unable to persist local repo path: ", &error),
                );
            },
            Ok(_) => {
                proof {
                    lemma_texts_insert(self.repo_paths@, repo@, path);
                }
                self.repo_paths.insert(repo, path);
                self.repo_path_form = RepoPathForm::default();
            },
        }
    }

    /// Removes the checkout for `repo` if it has been forgotten, or says why it was not.
    pub fn remove_repo_path(&mut self, repo: &str, forgotten: Result<(), SecretStoreError>)
        ensures
            checkout_removed(*old(self), repo@, forgotten, *final(self)),
    {
        match forgotten {
            Err(error) => {
                let mut text: String = "Failed to remove repo path for ".to_owned();
                text.append(repo);
                text.append(": ");
                text.append(error.message().as_str());
                self.global_error = Some(text);
            },
            Ok(_) => {
                proof {
                    lemma_texts_remove(self.repo_paths@, repo@);
                }
                let _ = self.repo_paths.remove(repo);
            },
        }
    }
}

} // verus!

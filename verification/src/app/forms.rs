//! What a user types in before it is taken up.
use vstd::prelude::*;

use crate::text::{trim, trimmed};

verus! {

/// The form for a new account.
#[derive(Clone, Debug, PartialEq, Eq)]
pub struct AccountForm {
    pub login: String,
    pub token: String,
    pub form_error: Option<String>,
}

impl AccountForm {
    /// Whether nothing has been typed in and nothing is said.
    pub open spec fn is_blank(self) -> bool {
        self.login@.len() == 0 && self.token@.len() == 0 && self.form_error is None
    }

    /// Whether both a login and a token have been typed in.
    pub open spec fn is_filled(self) -> bool {
        trim(self.login@).len() > 0 && trim(self.token@).len() > 0
    }

    /// Whether both a login and a token have been typed in.
    pub fn filled(&self) -> (filled: bool)
        ensures
            filled == self.is_filled(),
    {
        !trimmed(self.login.as_str()).as_str().is_empty() && !trimmed(
            self.token.as_str(),
        ).as_str().is_empty()
    }
}

impl Default for AccountForm {
    fn default() -> (form: Self)
        ensures
            form.is_blank(),
    {
        AccountForm { login: String::new(), token: String::new(), form_error: None }
    }
}

/// The form for the checkout of a repository.
#[derive(Clone, Debug, PartialEq, Eq)]
pub struct RepoPathForm {
    pub repo: String,
    pub path: String,
    pub form_error: Option<String>,
}

impl RepoPathForm {
    /// Whether nothing has been typed in and nothing is said.
    pub open spec fn is_blank(self) -> bool {
        self.repo@.len() == 0 && self.path@.len() == 0 && self.form_error is None
    }

    /// Whether both a repository and a path have been typed in.
    pub open spec fn is_filled(self) -> bool {
        trim(self.repo@).len() > 0 && trim(self.path@).len() > 0
    }

    /// Whether both a repository and a path have been typed in.
    pub fn filled(&self) -> (filled: bool)
        ensures
            filled == self.is_filled(),
    {
        !trimmed(self.repo.as_str()).as_str().is_empty() && !trimmed(
            self.path.as_str(),
        ).as_str().is_empty()
    }
}

impl Default for RepoPathForm {
    fn default() -> (form: Self)
        ensures
            form.is_blank(),
    {
        RepoPathForm { repo: String::new(), path: String::new(), form_error: None }
    }
}

/// The editor for the review settings of an account.
#[derive(Clone, Debug, PartialEq, Eq)]
pub struct AccountReviewSettingsEditor {
    pub login: String,
    pub env_vars_text: String,
    pub additional_args_text: String,
    pub form_error: Option<String>,
}

} // verus!

//! The data that the app works on: accounts, their inboxes and what is in them.
use vstd::prelude::*;

use crate::decimal::{decimal, decimal_text, parse, parse_number};
use crate::pattern::{split_once, text_split_once};
use crate::text::{chars_of, clone_texts, text_of, views};
use crate::text_map::{texts, TextMap};
use crate::time::Timestamp;
use vstd::string::StringExecFns;

verus! {

// ---------------------------------------------------------------------------
// Accounts
// ---------------------------------------------------------------------------

/// What a review command is run with beside its own arguments.
#[derive(Debug, PartialEq, Eq)]
pub struct ReviewCommandSettings {
    pub env_vars: TextMap<String>,
    pub additional_args: Vec<String>,
}

/// The texts of review settings.
#[verifier::ext_equal]
pub struct SettingsView {
    pub env_vars: Map<Seq<char>, Seq<char>>,
    pub additional_args: Seq<Seq<char>>,
}

/// Settings that add nothing.
pub open spec fn no_settings() -> SettingsView {
    SettingsView { env_vars: Map::empty(), additional_args: Seq::empty() }
}

impl View for ReviewCommandSettings {
    type V = SettingsView;

    open spec fn view(&self) -> SettingsView {
        SettingsView {
            env_vars: texts(self.env_vars@),
            additional_args: views(self.additional_args@),
        }
    }
}

impl Default for ReviewCommandSettings {
    fn default() -> (settings: Self)
        ensures
            settings@ == no_settings(),
    {
        let settings: ReviewCommandSettings = ReviewCommandSettings {
            env_vars: TextMap::new(),
            additional_args: Vec::new(),
        };
        proof {
            assert(settings@ =~= no_settings());
        }
        settings
    }
}

impl Clone for ReviewCommandSettings {
    fn clone(&self) -> (copy: Self)
        ensures
            copy@ == self@,
            copy.env_vars.keys() == self.env_vars.keys(),
    {
        ReviewCommandSettings {
            env_vars: self.env_vars.clone(),
            additional_args: clone_texts(&self.additional_args),
        }
    }
}

/// A GitHub identity with its token and its review settings.
pub struct GitHubAccount {
    pub login: String,
    pub token: String,
    pub review_settings: ReviewCommandSettings,
}

/// The texts of an account.
#[verifier::ext_equal]
pub struct AccountView {
    pub login: Seq<char>,
    pub token: Seq<char>,
    pub review_settings: SettingsView,
}

impl View for GitHubAccount {
    type V = AccountView;

    open spec fn view(&self) -> AccountView {
        AccountView {
            login: self.login@,
            token: self.token@,
            review_settings: self.review_settings@,
        }
    }
}

impl Clone for GitHubAccount {
    fn clone(&self) -> (copy: Self)
        ensures
            copy@ == self@,
    {
        GitHubAccount {
            login: self.login.clone(),
            token: self.token.clone(),
            review_settings: self.review_settings.clone(),
        }
    }
}

// ---------------------------------------------------------------------------
// Threads and their numbers
// ---------------------------------------------------------------------------

/// Whether `c` ends the number in an address.
pub open spec fn ends_number(c: char) -> bool {
    c == '/' || c == '?' || c == '#'
}

/// The part of `s` before the first character that ends a number.
pub open spec fn number_part(s: Seq<char>) -> Seq<char>
    decreases s.len(),
{
    if s.len() == 0 || ends_number(s[0]) {
        Seq::empty()
    } else {
        seq![s[0]] + number_part(s.skip(1))
    }
}

/// The number that follows the first `segment` of an address.
pub open spec fn segment_number(url: Seq<char>, segment: Seq<char>) -> Option<nat> {
    match split_once(url, segment) {
        Some(parts) => parse(number_part(parts.1), u64::MAX as nat),
        None => None,
    }
}

/// The number of the pull request that `url` leads to.
pub open spec fn pull_number(url: Seq<char>) -> Option<nat> {
    segment_number(url, "/pull/"@)
}

/// The number of the issue that `url` leads to.
pub open spec fn issue_number(url: Seq<char>) -> Option<nat> {
    segment_number(url, "/issues/"@)
}

/// The number of the pull request or else of the issue that `url` leads to.
pub open spec fn url_thread_number(url: Seq<char>) -> Option<nat> {
    match pull_number(url) {
        Some(n) => Some(n),
        None => issue_number(url),
    }
}

/// Whether an optional machine number is the same as an optional number.
pub open spec fn same_number(found: Option<u64>, wanted: Option<nat>) -> bool {
    match found {
        Some(n) => wanted == Some(n as nat),
        None => wanted is None,
    }
}

/// The part of `s` before the first character that ends a number.
fn number_text(s: &str) -> (text: String)
    ensures
        text@ == number_part(s@),
{
    let chars: Vec<char> = chars_of(s);
    let mut i: usize = 0;
    proof {
        assert(s@.skip(0) =~= s@);
        assert(s@.take(0) + number_part(s@) =~= number_part(s@));
    }
    while i < chars.len() && chars[i] != '/' && chars[i] != '?' && chars[i] != '#'
        invariant
            i <= chars@.len(),
            chars@ == s@,
            number_part(s@) == s@.take(i as int) + number_part(s@.skip(i as int)),
        decreases chars@.len() - i,
    {
        proof {
            let rest = s@.skip(i as int);
            assert(rest.skip(1) =~= s@.skip(i + 1));
            assert(s@.take(i as int) + (seq![rest[0]] + number_part(rest.skip(1))) =~= s@.take(
                i + 1,
            ) + number_part(s@.skip(i + 1)));
        }
        i = i + 1;
    }
    let text: String = text_of(&chars, 0, i);
    proof {
        let rest = s@.skip(i as int);
        assert(i < s@.len() ==> rest[0] == s@[i as int]);
        assert(number_part(rest) =~= Seq::<char>::empty());
        assert(s@.take(i as int) + Seq::<char>::empty() =~= s@.take(i as int));
        assert(text@ =~= s@.take(i as int));
    }
    text
}

/// The number that follows the first `segment` of an address.
pub fn thread_number_from_known_segment(url: &str, segment: &str) -> (number: Option<u64>)
    ensures
        same_number(number, segment_number(url@, segment@)),
{
    match text_split_once(url, segment) {
        Some(parts) => {
            let number: String = number_text(parts.1.as_str());
            parse_number(number.as_str(), u64::MAX)
        },
        None => None,
    }
}

/// The number of the pull request that `url` leads to.
pub fn pull_request_number_from_url(url: &str) -> (number: Option<u64>)
    ensures
        same_number(number, pull_number(url@)),
{
    thread_number_from_known_segment(url, "/pull/")
}

/// The number of the issue that `url` leads to.
pub fn issue_number_from_url(url: &str) -> (number: Option<u64>)
    ensures
        same_number(number, issue_number(url@)),
{
    thread_number_from_known_segment(url, "/issues/")
}

/// The number of the pull request or else of the issue that `url` leads to.
pub fn thread_number_from_url(url: &str) -> (number: Option<u64>)
    ensures
        same_number(number, url_thread_number(url@)),
{
    match pull_request_number_from_url(url) {
        Some(n) => Some(n),
        None => issue_number_from_url(url),
    }
}

/// A pull request: its repository and its number.
pub type PullRequestKey = (String, u64);

/// The pull request of `repo` that `url` leads to.
pub open spec fn pull_key(repo: Seq<char>, url: Seq<char>) -> Option<(Seq<char>, nat)> {
    match pull_number(url) {
        Some(n) => Some((repo, n)),
        None => None,
    }
}

/// Whether an optional key is the same as an optional pull request.
pub open spec fn same_key(found: Option<PullRequestKey>, wanted: Option<(Seq<char>, nat)>) -> bool {
    match found {
        Some(key) => wanted == Some((key.0@, key.1 as nat)),
        None => wanted is None,
    }
}

// ---------------------------------------------------------------------------
// Inboxes
// ---------------------------------------------------------------------------

/// The text of an optional string.
pub open spec fn opt_text(s: Option<String>) -> Option<Seq<char>> {
    match s {
        Some(t) => Some(t@),
        None => None,
    }
}

/// A thread in the notifications of an account.
#[derive(Clone, Debug, PartialEq, Eq)]
pub struct NotificationItem {
    pub thread_id: String,
    pub repo: String,
    pub title: String,
    pub url: Option<String>,
    pub reason: String,
    pub updated_at: Timestamp,
    pub last_read_at: Option<Timestamp>,
    pub unread: bool,
}

/// The texts and times of a notification.
#[verifier::ext_equal]
pub struct NotificationView {
    pub thread_id: Seq<char>,
    pub repo: Seq<char>,
    pub title: Seq<char>,
    pub url: Option<Seq<char>>,
    pub reason: Seq<char>,
    pub updated_at: Timestamp,
    pub last_read_at: Option<Timestamp>,
    pub unread: bool,
}

impl View for NotificationItem {
    type V = NotificationView;

    open spec fn view(&self) -> NotificationView {
        NotificationView {
            thread_id: self.thread_id@,
            repo: self.repo@,
            title: self.title@,
            url: opt_text(self.url),
            reason: self.reason@,
            updated_at: self.updated_at,
            last_read_at: self.last_read_at,
            unread: self.unread,
        }
    }
}

impl NotificationView {
    /// The number of the pull request that the notification is about.
    pub open spec fn pull_request_number(self) -> Option<nat> {
        match self.url {
            Some(url) => pull_number(url),
            None => None,
        }
    }

    /// The pull request that the notification is about.
    pub open spec fn pull_request_key(self) -> Option<(Seq<char>, nat)> {
        match self.url {
            Some(url) => pull_key(self.repo, url),
            None => None,
        }
    }

    /// The number of the pull request or issue that the notification is about.
    pub open spec fn thread_number(self) -> Option<nat> {
        match self.url {
            Some(url) => url_thread_number(url),
            None => None,
        }
    }

    /// The title, with the number of the thread behind it.
    pub open spec fn display_title(self) -> Seq<char> {
        match self.thread_number() {
            Some(n) => self.title + " #"@ + decimal(n),
            None => self.title,
        }
    }
}

impl NotificationItem {
    /// The address of the pull request that the notification is about.
    pub fn pull_request_url(&self) -> (url: Option<&str>)
        ensures
            match url {
                Some(t) => self@.url == Some(t@) && self@.pull_request_number() is Some,
                None => self@.pull_request_number() is None,
            },
    {
        match &self.url {
            Some(url) => {
                match pull_request_number_from_url(url.as_str()) {
                    Some(_) => Some(url.as_str()),
                    None => None,
                }
            },
            None => None,
        }
    }

    /// The number of the pull request that the notification is about.
    pub fn pull_request_number(&self) -> (number: Option<u64>)
        ensures
            same_number(number, self@.pull_request_number()),
    {
        match &self.url {
            Some(url) => pull_request_number_from_url(url.as_str()),
            None => None,
        }
    }

    /// The pull request that the notification is about.
    pub fn pull_request_key(&self) -> (key: Option<PullRequestKey>)
        ensures
            same_key(key, self@.pull_request_key()),
    {
        match self.pull_request_number() {
            Some(number) => Some((self.repo.clone(), number)),
            None => None,
        }
    }

    /// The number of the pull request or issue that the notification is about.
    pub fn thread_number(&self) -> (number: Option<u64>)
        ensures
            same_number(number, self@.thread_number()),
    {
        match &self.url {
            Some(url) => thread_number_from_url(url.as_str()),
            None => None,
        }
    }

    /// The title, with the number of the thread behind it.
    pub fn display_title(&self) -> (title: String)
        ensures
            title@ == self@.display_title(),
    {
        let mut title: String = self.title.clone();
        match self.thread_number() {
            Some(number) => {
                title.append(" #");
                title.append(decimal_text(number).as_str());
                title
            },
            None => title,
        }
    }
}

/// An open pull request that waits for a review by the account.
#[derive(Clone, Debug, PartialEq, Eq)]
pub struct ReviewRequest {
    pub _id: u64,
    pub repo: String,
    pub title: String,
    pub url: String,
    pub updated_at: Timestamp,
    pub requested_by: Option<String>,
}

/// The texts and times of a review request.
#[verifier::ext_equal]
pub struct ReviewRequestView {
    pub id: u64,
    pub repo: Seq<char>,
    pub title: Seq<char>,
    pub url: Seq<char>,
    pub updated_at: Timestamp,
    pub requested_by: Option<Seq<char>>,
}

impl View for ReviewRequest {
    type V = ReviewRequestView;

    open spec fn view(&self) -> ReviewRequestView {
        ReviewRequestView {
            id: self._id,
            repo: self.repo@,
            title: self.title@,
            url: self.url@,
            updated_at: self.updated_at,
            requested_by: opt_text(self.requested_by),
        }
    }
}

impl ReviewRequest {
    /// The number of the pull request.
    pub fn pull_request_number(&self) -> (number: Option<u64>)
        ensures
            same_number(number, pull_number(self.url@)),
    {
        pull_request_number_from_url(self.url.as_str())
    }

    /// The pull request.
    pub fn pull_request_key(&self) -> (key: Option<PullRequestKey>)
        ensures
            same_key(key, pull_key(self.repo@, self.url@)),
    {
        match self.pull_request_number() {
            Some(number) => Some((self.repo.clone(), number)),
            None => None,
        }
    }
}

/// An open thread that mentions the account.
#[derive(Clone, Debug, PartialEq, Eq)]
pub struct MentionThread {
    pub _id: u64,
    pub repo: String,
    pub title: String,
    pub url: String,
    pub updated_at: Timestamp,
    pub kind: MentionKind,
}

/// The texts and times of a mention.
#[verifier::ext_equal]
pub struct MentionThreadView {
    pub id: u64,
    pub repo: Seq<char>,
    pub title: Seq<char>,
    pub url: Seq<char>,
    pub updated_at: Timestamp,
    pub kind: MentionKind,
}

impl View for MentionThread {
    type V = MentionThreadView;

    open spec fn view(&self) -> MentionThreadView {
        MentionThreadView {
            id: self._id,
            repo: self.repo@,
            title: self.title@,
            url: self.url@,
            updated_at: self.updated_at,
            kind: self.kind,
        }
    }
}

/// What kind of thread a mention stands in.
#[derive(Clone, Copy, Debug, PartialEq, Eq, Structural)]
pub enum MentionKind {
    Issue,
    PullRequest,
}

impl MentionKind {
    /// What the kind is called on screen.
    pub fn label(&self) -> (label: &'static str)
        ensures
            label@ == match *self {
                MentionKind::Issue => "Issue"@,
                MentionKind::PullRequest => "Pull request"@,
            },
    {
        match self {
            MentionKind::Issue => "Issue",
            MentionKind::PullRequest => "Pull request",
        }
    }
}

/// A pull request that the account has reviewed.
#[derive(Clone, Debug, PartialEq, Eq)]
pub struct ReviewSummary {
    pub _id: u64,
    pub repo: String,
    pub title: String,
    pub url: String,
    pub updated_at: Timestamp,
    pub state: String,
}

/// The texts and times of a review.
#[verifier::ext_equal]
pub struct ReviewSummaryView {
    pub id: u64,
    pub repo: Seq<char>,
    pub title: Seq<char>,
    pub url: Seq<char>,
    pub updated_at: Timestamp,
    pub state: Seq<char>,
}

impl View for ReviewSummary {
    type V = ReviewSummaryView;

    open spec fn view(&self) -> ReviewSummaryView {
        ReviewSummaryView {
            id: self._id,
            repo: self.repo@,
            title: self.title@,
            url: self.url@,
            updated_at: self.updated_at,
            state: self.state@,
        }
    }
}

impl ReviewSummary {
    /// The number of the pull request.
    pub fn pull_request_number(&self) -> (number: Option<u64>)
        ensures
            same_number(number, pull_number(self.url@)),
    {
        pull_request_number_from_url(self.url.as_str())
    }

    /// The pull request.
    pub fn pull_request_key(&self) -> (key: Option<PullRequestKey>)
        ensures
            same_key(key, pull_key(self.repo@, self.url@)),
    {
        match self.pull_request_number() {
            Some(number) => Some((self.repo.clone(), number)),
            None => None,
        }
    }
}

/// What one sync of an account brought.
#[derive(Clone, Debug, PartialEq, Eq)]
pub struct InboxSnapshot {
    pub notifications: Vec<NotificationItem>,
    pub review_requests: Vec<ReviewRequest>,
    pub mentions: Vec<MentionThread>,
    pub recent_reviews: Vec<ReviewSummary>,
    pub fetched_at: Timestamp,
}

} // verus!

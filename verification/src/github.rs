//! Talking to GitHub: which requests to make, and what their replies mean.
use vstd::prelude::*;

use crate::decimal::{decimal, decimal_text};
use crate::domain::{
    GitHubAccount, InboxSnapshot, MentionKind, MentionThread, MentionThreadView, NotificationItem,
    NotificationView, ReviewRequest, ReviewRequestView, ReviewSummary, ReviewSummaryView,
};
use crate::pattern::{
    contains, contains_text, replace, replaced, strip_prefixes, without_prefixes,
};
use crate::time::Timestamp;
use vstd::string::StringExecFns;

verus! {

/// Where the notifications of an account are listed.
pub const GH_NOTIFICATIONS: &'static str = "https://api.github.com/notifications";

/// Where a single notification is found.
pub const GH_NOTIFICATION_THREAD: &'static str = "https://api.github.com/notifications/threads";

/// Where issues and pull requests are searched.
pub const GH_SEARCH_ISSUES: &'static str = "https://api.github.com/search/issues";

/// What the app calls itself in its requests.
pub const USER_AGENT_HEADER: &'static str = "reminder-egui/0.1";

/// The format that replies are asked for in.
pub const ACCEPT_HEADER: &'static str = "application/vnd.github+json";

// ---------------------------------------------------------------------------
// Errors
// ---------------------------------------------------------------------------

/// Why a sync or an action failed.
#[derive(Clone, Debug, PartialEq, Eq)]
pub enum FetchError {
    Http(String),
    MissingToken,
    BackgroundWorkerGone,
}

/// Why a sync or an action failed.
pub enum FetchErrorView {
    Http(Seq<char>),
    MissingToken,
    BackgroundWorkerGone,
}

impl View for FetchError {
    type V = FetchErrorView;

    open spec fn view(&self) -> FetchErrorView {
        match self {
            FetchError::Http(error) => FetchErrorView::Http(error@),
            FetchError::MissingToken => FetchErrorView::MissingToken,
            FetchError::BackgroundWorkerGone => FetchErrorView::BackgroundWorkerGone,
        }
    }
}

/// Why a sync or an action failed, in words.
pub open spec fn fetch_error_text(error: FetchErrorView) -> Seq<char> {
    match error {
        FetchErrorView::Http(error) => "GitHub API request failed: "@ + error,
        FetchErrorView::MissingToken => "Account token is missing"@,
        FetchErrorView::BackgroundWorkerGone =>
        "Background worker disconnected before returning a result"@,
    }
}

impl FetchError {
    /// Why a sync or an action failed, in words.
    pub fn message(&self) -> (text: String)
        ensures
            text@ == fetch_error_text(self@),
    {
        match self {
            FetchError::Http(error) => {
                let mut text: String = "GitHub API request failed: ".to_owned();
                text.append(error.as_str());
                text
            },
            FetchError::MissingToken => "Account token is missing".to_owned(),
            FetchError::BackgroundWorkerGone =>
            "Background worker disconnected before returning a result".to_owned(),
        }
    }
}

/// What came of a sync.
pub type FetchOutcome = Result<InboxSnapshot, FetchError>;

// ---------------------------------------------------------------------------
// Requests
// ---------------------------------------------------------------------------

/// What a request does.
#[derive(Clone, Copy, Debug, PartialEq, Eq, Structural)]
pub enum ApiMethod {
    Get,
    Delete,
    Patch,
}

/// A request to GitHub.
#[derive(Debug, PartialEq, Eq)]
pub struct ApiRequest {
    pub method: ApiMethod,
    pub url: String,
    pub query: Vec<(String, String)>,
    pub token: String,
}

/// The texts of a request.
#[verifier::ext_equal]
pub struct RequestView {
    pub method: ApiMethod,
    pub url: Seq<char>,
    pub query: Seq<(Seq<char>, Seq<char>)>,
    pub token: Seq<char>,
}

impl View for ApiRequest {
    type V = RequestView;

    open spec fn view(&self) -> RequestView {
        RequestView {
            method: self.method,
            url: self.url@,
            query: self.query@.map_values(|p: (String, String)| (p.0@, p.1@)),
            token: self.token@,
        }
    }
}

/// The request that does `method` to one notification.
pub open spec fn thread_request(method: ApiMethod, token: Seq<char>, thread_id: Seq<char>) -> RequestView {
    RequestView {
        method,
        url: GH_NOTIFICATION_THREAD@ + "/"@ + thread_id,
        query: Seq::empty(),
        token,
    }
}

fn new_thread_request(method: ApiMethod, token: &str, thread_id: &str) -> (request: ApiRequest)
    ensures
        request@ == thread_request(method, token@, thread_id@),
{
    let mut url: String = GH_NOTIFICATION_THREAD.to_owned();
    url.append("/");
    url.append(thread_id);
    let request: ApiRequest = ApiRequest {
        method,
        url,
        query: Vec::new(),
        token: token.to_owned(),
    };
    proof {
        assert(request@ =~= thread_request(method, token@, thread_id@));
    }
    request
}

/// The request that files a notification away.
pub fn mark_notification_done(profile: &GitHubAccount, thread_id: &str) -> (request: Result<
    ApiRequest,
    FetchError,
>)
    ensures
        match request {
            Ok(r) => profile.token@.len() > 0 && r@ == thread_request(
                ApiMethod::Delete,
                profile.token@,
                thread_id@,
            ),
            Err(error) => profile.token@.len() == 0 && error@ == FetchErrorView::MissingToken,
        },
{
    if profile.token.as_str().is_empty() {
        return Err(FetchError::MissingToken);
    }
    Ok(new_thread_request(ApiMethod::Delete, profile.token.as_str(), thread_id))
}

/// The request that marks a notification as read.
pub fn mark_notification_read(profile: &GitHubAccount, thread_id: &str) -> (request: Result<
    ApiRequest,
    FetchError,
>)
    ensures
        match request {
            Ok(r) => profile.token@.len() > 0 && r@ == thread_request(
                ApiMethod::Patch,
                profile.token@,
                thread_id@,
            ),
            Err(error) => profile.token@.len() == 0 && error@ == FetchErrorView::MissingToken,
        },
{
    if profile.token.as_str().is_empty() {
        return Err(FetchError::MissingToken);
    }
    Ok(new_thread_request(ApiMethod::Patch, profile.token.as_str(), thread_id))
}

/// The request that lists all notifications.
pub open spec fn notifications_request(token: Seq<char>) -> RequestView {
    RequestView {
        method: ApiMethod::Get,
        url: GH_NOTIFICATIONS@,
        query: seq![("all"@, "true"@)],
        token,
    }
}

/// The request that searches issues and pull requests, the latest first if `latest_first`.
pub open spec fn search_request(token: Seq<char>, search: Seq<char>, latest_first: bool) -> RequestView {
    RequestView {
        method: ApiMethod::Get,
        url: GH_SEARCH_ISSUES@,
        query: if latest_first {
            seq![("q"@, search), ("sort"@, "updated"@), ("order"@, "desc"@)]
        } else {
            seq![("q"@, search)]
        },
        token,
    }
}

/// The search for pull requests that wait for a review by `login`.
pub open spec fn review_requests_search(login: Seq<char>) -> Seq<char> {
    "is:pr state:open review-requested:"@ + login
}

/// The search for open threads that mention `login`.
pub open spec fn mentions_search(login: Seq<char>) -> Seq<char> {
    "mentions:"@ + login + " is:open"@
}

/// The search for pull requests that `login` has reviewed.
pub open spec fn reviews_search(login: Seq<char>) -> Seq<char> {
    "is:pr reviewed-by:"@ + login
}

fn new_notifications_request(token: &str) -> (request: ApiRequest)
    ensures
        request@ == notifications_request(token@),
{
    let mut query: Vec<(String, String)> = Vec::new();
    query.push(("all".to_owned(), "true".to_owned()));
    let request: ApiRequest = ApiRequest {
        method: ApiMethod::Get,
        url: GH_NOTIFICATIONS.to_owned(),
        query,
        token: token.to_owned(),
    };
    proof {
        assert(request@ =~= notifications_request(token@));
    }
    request
}

fn new_search_request(token: &str, search: String, latest_first: bool) -> (request: ApiRequest)
    ensures
        request@ == search_request(token@, search@, latest_first),
{
    let mut query: Vec<(String, String)> = Vec::new();
    query.push(("q".to_owned(), search));
    if latest_first {
        query.push(("sort".to_owned(), "updated".to_owned()));
        query.push(("order".to_owned(), "desc".to_owned()));
    }
    let request: ApiRequest = ApiRequest {
        method: ApiMethod::Get,
        url: GH_SEARCH_ISSUES.to_owned(),
        query,
        token: token.to_owned(),
    };
    proof {
        assert(request@ =~= search_request(token@, search@, latest_first));
    }
    request
}

// ---------------------------------------------------------------------------
// Replies
// ---------------------------------------------------------------------------

/// A notification as GitHub lists it.
#[derive(Clone, Debug, PartialEq, Eq)]
pub struct NotificationResponse {
    pub id: String,
    pub reason: String,
    pub updated_at: Timestamp,
    pub last_read_at: Option<Timestamp>,
    pub unread: bool,
    pub subject: NotificationSubject,
    pub repository: NotificationRepository,
}

/// What a listed notification is about.
#[derive(Clone, Debug, PartialEq, Eq)]
pub struct NotificationSubject {
    pub title: String,
    pub url: Option<String>,
}

/// The repository of a listed notification.
#[derive(Clone, Debug, PartialEq, Eq)]
pub struct NotificationRepository {
    pub full_name: String,
}

/// What a search found.
#[derive(Clone, Debug, PartialEq, Eq)]
pub struct SearchResponse {
    pub items: Vec<SearchItem>,
}

/// An issue or a pull request that a search found.
#[derive(Clone, Debug, PartialEq, Eq)]
pub struct SearchItem {
    pub id: u64,
    pub html_url: String,
    pub repository_url: String,
    pub title: String,
    pub number: u64,
    pub updated_at: Timestamp,
    pub user: Option<GitHubUser>,
    pub state: String,
}

/// Who opened an issue or a pull request.
#[derive(Clone, Debug, PartialEq, Eq)]
pub struct GitHubUser {
    pub login: String,
}

/// The address of the page for a thread, from its address in the API. There pull requests
/// stand under `/pulls/`, but their pages under `/pull/`.
pub open spec fn page_url(url: Seq<char>) -> Seq<char> {
    replace(replace(url, "api.github.com/repos"@, "github.com"@), "/pulls/"@, "/pull/"@)
}

/// The address of the page for a thread, from its address in the API.
pub fn html_url(url: &str) -> (page: String)
    ensures
        page@ == page_url(url@),
{
    proof {
        reveal_strlit("api.github.com/repos");
        reveal_strlit("/pulls/");
    }
    let html: String = replaced(url, "api.github.com/repos", "github.com");
    replaced(html.as_str(), "/pulls/", "/pull/")
}

/// The kind of thread that `url` leads to.
pub open spec fn kind_of(url: Seq<char>) -> MentionKind {
    if contains(url, "/pull/"@) {
        MentionKind::PullRequest
    } else {
        MentionKind::Issue
    }
}

/// The kind of thread that `url` leads to.
pub fn classify_thread(url: &str) -> (kind: MentionKind)
    ensures
        kind == kind_of(url@),
{
    if contains_text(url, "/pull/") {
        MentionKind::PullRequest
    } else {
        MentionKind::Issue
    }
}

/// The repository that an address in the API stands for.
pub open spec fn repo_of(api_url: Seq<char>) -> Seq<char> {
    strip_prefixes(api_url, "https://api.github.com/repos/"@)
}

/// The repository that an address in the API stands for.
pub fn extract_repo_name(api_url: &str) -> (repo: String)
    ensures
        repo@ == repo_of(api_url@),
{
    without_prefixes(api_url, "https://api.github.com/repos/")
}

/// The title of a thread, behind its number.
pub open spec fn numbered_title(number: u64, title: Seq<char>) -> Seq<char> {
    "#"@ + decimal(number as nat) + " "@ + title
}

fn numbered(number: u64, title: &str) -> (text: String)
    ensures
        text@ == numbered_title(number, title@),
{
    let mut text: String = "#".to_owned();
    text.append(decimal_text(number).as_str());
    text.append(" ");
    text.append(title);
    text
}

/// The notification that GitHub lists.
pub open spec fn notification_of(response: NotificationResponse) -> NotificationView {
    NotificationView {
        thread_id: response.id@,
        repo: response.repository.full_name@,
        title: response.subject.title@,
        url: match response.subject.url {
            Some(url) => Some(page_url(url@)),
            None => None,
        },
        reason: response.reason@,
        updated_at: response.updated_at,
        last_read_at: response.last_read_at,
        unread: response.unread,
    }
}

/// The review request that a search found.
pub open spec fn review_request_of(item: SearchItem) -> ReviewRequestView {
    ReviewRequestView {
        id: item.id,
        repo: repo_of(item.repository_url@),
        title: numbered_title(item.number, item.title@),
        url: item.html_url@,
        updated_at: item.updated_at,
        requested_by: match item.user {
            Some(user) => Some(user.login@),
            None => None,
        },
    }
}

/// The mention that a search found.
pub open spec fn mention_of(item: SearchItem) -> MentionThreadView {
    MentionThreadView {
        id: item.id,
        repo: repo_of(item.repository_url@),
        title: numbered_title(item.number, item.title@),
        url: item.html_url@,
        updated_at: item.updated_at,
        kind: kind_of(item.html_url@),
    }
}

/// The review that a search found.
pub open spec fn review_of(item: SearchItem) -> ReviewSummaryView {
    ReviewSummaryView {
        id: item.id,
        repo: repo_of(item.repository_url@),
        title: numbered_title(item.number, item.title@),
        url: item.html_url@,
        updated_at: item.updated_at,
        state: item.state@,
    }
}

/// Whether `items` are the notifications that `responses` list.
pub open spec fn lists_notifications(
    items: Seq<NotificationItem>,
    responses: Seq<NotificationResponse>,
) -> bool {
    &&& items.len() == responses.len()
    &&& forall|i: int|
        0 <= i < items.len() ==> (#[trigger] items[i])@ == notification_of(responses[i])
}

/// Whether `requests` are the review requests among `found`.
pub open spec fn lists_review_requests(requests: Seq<ReviewRequest>, found: Seq<SearchItem>) -> bool {
    &&& requests.len() == found.len()
    &&& forall|i: int|
        0 <= i < requests.len() ==> (#[trigger] requests[i])@ == review_request_of(found[i])
}

/// Whether `mentions` are the mentions among `found`.
pub open spec fn lists_mentions(mentions: Seq<MentionThread>, found: Seq<SearchItem>) -> bool {
    &&& mentions.len() == found.len()
    &&& forall|i: int|
        0 <= i < mentions.len() ==> (#[trigger] mentions[i])@ == mention_of(found[i])
}

/// Whether `reviews` are the reviews among `found`.
pub open spec fn lists_reviews(reviews: Seq<ReviewSummary>, found: Seq<SearchItem>) -> bool {
    &&& reviews.len() == found.len()
    &&& forall|i: int| 0 <= i < reviews.len() ==> (#[trigger] reviews[i])@ == review_of(found[i])
}

/// The notifications that GitHub lists.
pub fn notifications_from(responses: &Vec<NotificationResponse>) -> (items: Vec<NotificationItem>)
    ensures
        lists_notifications(items@, responses@),
{
    let mut items: Vec<NotificationItem> = Vec::new();
    let mut i: usize = 0;
    while i < responses.len()
        invariant
            i <= responses@.len(),
            lists_notifications(items@, responses@.take(i as int)),
        decreases responses@.len() - i,
    {
        let response: &NotificationResponse = &responses[i];
        let url: Option<String> = match &response.subject.url {
            Some(url) => Some(html_url(url.as_str())),
            None => None,
        };
        items.push(
            NotificationItem {
                thread_id: response.id.clone(),
                repo: response.repository.full_name.clone(),
                title: response.subject.title.clone(),
                url,
                reason: response.reason.clone(),
                updated_at: response.updated_at,
                last_read_at: response.last_read_at,
                unread: response.unread,
            },
        );
        i = i + 1;
    }
    proof {
        assert(responses@.take(i as int) =~= responses@);
    }
    items
}

/// The review requests that a search found.
pub fn review_requests_from(response: &SearchResponse) -> (requests: Vec<ReviewRequest>)
    ensures
        lists_review_requests(requests@, response.items@),
{
    let mut requests: Vec<ReviewRequest> = Vec::new();
    let mut i: usize = 0;
    while i < response.items.len()
        invariant
            i <= response.items@.len(),
            lists_review_requests(requests@, response.items@.take(i as int)),
        decreases response.items@.len() - i,
    {
        let item: &SearchItem = &response.items[i];
        let requested_by: Option<String> = match &item.user {
            Some(user) => Some(user.login.clone()),
            None => None,
        };
        requests.push(
            ReviewRequest {
                _id: item.id,
                repo: extract_repo_name(item.repository_url.as_str()),
                title: numbered(item.number, item.title.as_str()),
                url: item.html_url.clone(),
                updated_at: item.updated_at,
                requested_by,
            },
        );
        i = i + 1;
    }
    proof {
        assert(response.items@.take(i as int) =~= response.items@);
    }
    requests
}

/// The mentions that a search found.
pub fn mentions_from(response: &SearchResponse) -> (mentions: Vec<MentionThread>)
    ensures
        lists_mentions(mentions@, response.items@),
{
    let mut mentions: Vec<MentionThread> = Vec::new();
    let mut i: usize = 0;
    while i < response.items.len()
        invariant
            i <= response.items@.len(),
            lists_mentions(mentions@, response.items@.take(i as int)),
        decreases response.items@.len() - i,
    {
        let item: &SearchItem = &response.items[i];
        mentions.push(
            MentionThread {
                _id: item.id,
                repo: extract_repo_name(item.repository_url.as_str()),
                title: numbered(item.number, item.title.as_str()),
                url: item.html_url.clone(),
                updated_at: item.updated_at,
                kind: classify_thread(item.html_url.as_str()),
            },
        );
        i = i + 1;
    }
    proof {
        assert(response.items@.take(i as int) =~= response.items@);
    }
    mentions
}

/// The reviews that a search found.
pub fn recent_reviews_from(response: &SearchResponse) -> (reviews: Vec<ReviewSummary>)
    ensures
        lists_reviews(reviews@, response.items@),
{
    let mut reviews: Vec<ReviewSummary> = Vec::new();
    let mut i: usize = 0;
    while i < response.items.len()
        invariant
            i <= response.items@.len(),
            lists_reviews(reviews@, response.items@.take(i as int)),
        decreases response.items@.len() - i,
    {
        let item: &SearchItem = &response.items[i];
        reviews.push(
            ReviewSummary {
                _id: item.id,
                repo: extract_repo_name(item.repository_url.as_str()),
                title: numbered(item.number, item.title.as_str()),
                url: item.html_url.clone(),
                updated_at: item.updated_at,
                state: item.state.clone(),
            },
        );
        i = i + 1;
    }
    proof {
        assert(response.items@.take(i as int) =~= response.items@);
    }
    reviews
}

// ---------------------------------------------------------------------------
// Syncing
// ---------------------------------------------------------------------------

/// How far a sync has got, with what it has brought so far.
pub enum InboxStage {
    Notifications,
    ReviewRequests { notifications: Vec<NotificationItem> },
    Mentions { notifications: Vec<NotificationItem>, review_requests: Vec<ReviewRequest> },
    RecentReviews {
        notifications: Vec<NotificationItem>,
        review_requests: Vec<ReviewRequest>,
        mentions: Vec<MentionThread>,
    },
}

/// A sync under way. It makes one request after the other.
pub struct InboxFetch {
    pub login: String,
    pub token: String,
    pub stage: InboxStage,
}

/// What came back for a request of a sync.
pub enum InboxReply {
    Notifications(Vec<NotificationResponse>),
    Search(SearchResponse),
    Failed(String),
}

/// Whether a sync is under way or has ended.
pub enum InboxProgress {
    Going(InboxFetch),
    Ended(FetchOutcome),
}

/// Whether `fetch` is the start of a sync of the account `profile`, or why there is none.
pub open spec fn sync_begun(profile: GitHubAccount, fetch: Result<InboxFetch, FetchError>) -> bool {
    match fetch {
        Ok(f) => {
            &&& profile.token@.len() > 0
            &&& f.login@ == profile.login@
            &&& f.token@ == profile.token@
            &&& f.stage is Notifications
        },
        Err(error) => profile.token@.len() == 0 && error@ == FetchErrorView::MissingToken,
    }
}

/// Starts a sync of `profile`.
pub fn fetch_inbox(profile: &GitHubAccount) -> (fetch: Result<InboxFetch, FetchError>)
    ensures
        sync_begun(*profile, fetch),
{
    if profile.token.as_str().is_empty() {
        return Err(FetchError::MissingToken);
    }
    Ok(
        InboxFetch {
            login: profile.login.clone(),
            token: profile.token.clone(),
            stage: InboxStage::Notifications,
        },
    )
}

/// Whether a sync waits for a reply of that kind.
pub open spec fn awaits(stage: InboxStage, reply: InboxReply) -> bool {
    match reply {
        InboxReply::Notifications(_) => stage is Notifications,
        InboxReply::Search(_) => !(stage is Notifications),
        InboxReply::Failed(_) => true,
    }
}

impl InboxFetch {
    /// The request that the sync makes at this stage.
    pub open spec fn request_view(self) -> RequestView {
        match self.stage {
            InboxStage::Notifications => notifications_request(self.token@),
            InboxStage::ReviewRequests { .. } => search_request(
                self.token@,
                review_requests_search(self.login@),
                false,
            ),
            InboxStage::Mentions { .. } => search_request(
                self.token@,
                mentions_search(self.login@),
                true,
            ),
            InboxStage::RecentReviews { .. } => search_request(
                self.token@,
                reviews_search(self.login@),
                true,
            ),
        }
    }

    /// The request that the sync makes at this stage.
    pub fn request(&self) -> (request: ApiRequest)
        ensures
            request@ == self.request_view(),
    {
        match &self.stage {
            InboxStage::Notifications => new_notifications_request(self.token.as_str()),
            InboxStage::ReviewRequests { .. } => {
                let mut search: String = "is:pr state:open review-requested:".to_owned();
                search.append(self.login.as_str());
                new_search_request(self.token.as_str(), search, false)
            },
            InboxStage::Mentions { .. } => {
                let mut search: String = "mentions:".to_owned();
                search.append(self.login.as_str());
                search.append(" is:open");
                new_search_request(self.token.as_str(), search, true)
            },
            InboxStage::RecentReviews { .. } => {
                let mut search: String = "is:pr reviewed-by:".to_owned();
                search.append(self.login.as_str());
                new_search_request(self.token.as_str(), search, true)
            },
        }
    }

    /// Whether `next` is what the sync has got to after `reply`: the next stage with what
    /// the reply brought, or the end, at the first failure or when all has been brought.
    /// A reply that it does not wait for leaves it where it is.
    pub open spec fn goes_on_to(self, reply: InboxReply, now: Timestamp, next: InboxProgress) -> bool {
        match (reply, next) {
            (InboxReply::Failed(error), InboxProgress::Ended(Err(why))) => why@
                == FetchErrorView::Http(error@),
            (InboxReply::Failed(_), _) => false,
            (_, InboxProgress::Ended(Err(_))) => false,
            (_, InboxProgress::Going(fetch)) => {
                &&& fetch.login == self.login
                &&& fetch.token == self.token
                &&& if !awaits(self.stage, reply) {
                    fetch.stage == self.stage
                } else {
                    match (self.stage, fetch.stage) {
                        (
                            InboxStage::Notifications,
                            InboxStage::ReviewRequests { notifications },
                        ) => lists_notifications(notifications@, reply->Notifications_0@),
                        (
                            InboxStage::ReviewRequests { notifications: before },
                            InboxStage::Mentions { notifications, review_requests },
                        ) => notifications == before && lists_review_requests(
                            review_requests@,
                            reply->Search_0.items@,
                        ),
                        (
                            InboxStage::Mentions {
                                notifications: before,
                                review_requests: requests_before,
                            },
                            InboxStage::RecentReviews {
                                notifications,
                                review_requests,
                                mentions,
                            },
                        ) => notifications == before && review_requests == requests_before
                            && lists_mentions(mentions@, reply->Search_0.items@),
                        _ => false,
                    }
                }
            },
            (_, InboxProgress::Ended(Ok(inbox))) => {
                &&& awaits(self.stage, reply)
                &&& match self.stage {
                    InboxStage::RecentReviews { notifications, review_requests, mentions } => {
                        &&& inbox.notifications == notifications
                        &&& inbox.review_requests == review_requests
                        &&& inbox.mentions == mentions
                        &&& lists_reviews(inbox.recent_reviews@, reply->Search_0.items@)
                        &&& inbox.fetched_at == now
                    },
                    _ => false,
                }
            },
        }
    }

    /// Takes up what came back for the request of this stage.
    pub fn accept(self, reply: InboxReply, now: Timestamp) -> (next: InboxProgress)
        ensures
            self.goes_on_to(reply, now, next),
    {
        match reply {
            InboxReply::Failed(error) => InboxProgress::Ended(Err(FetchError::Http(error))),
            InboxReply::Notifications(responses) => {
                match self.stage {
                    InboxStage::Notifications => InboxProgress::Going(
                        InboxFetch {
                            login: self.login,
                            token: self.token,
                            stage: InboxStage::ReviewRequests {
                                notifications: notifications_from(&responses),
                            },
                        },
                    ),
                    stage => InboxProgress::Going(
                        InboxFetch { login: self.login, token: self.token, stage },
                    ),
                }
            },
            InboxReply::Search(response) => {
                let stage: InboxStage = match self.stage {
                    InboxStage::Notifications => InboxStage::Notifications,
                    InboxStage::ReviewRequests { notifications } => InboxStage::Mentions {
                        notifications,
                        review_requests: review_requests_from(&response),
                    },
                    InboxStage::Mentions { notifications, review_requests } =>
                    InboxStage::RecentReviews {
                        notifications,
                        review_requests,
                        mentions: mentions_from(&response),
                    },
                    InboxStage::RecentReviews { notifications, review_requests, mentions } => {
                        return InboxProgress::Ended(
                            Ok(
                                InboxSnapshot {
                                    notifications,
                                    review_requests,
                                    mentions,
                                    recent_reviews: recent_reviews_from(&response),
                                    fetched_at: now,
                                },
                            ),
                        );
                    },
                };
                InboxProgress::Going(InboxFetch { login: self.login, token: self.token, stage })
            },
        }
    }
}

} // verus!

use reminder::domain::{GitHubAccount, MentionKind, ReviewCommandSettings};
use reminder::github::{
    classify_thread, extract_repo_name, fetch_inbox, html_url, mark_notification_done,
    mark_notification_read, ApiMethod, ApiRequest, FetchError, GitHubUser, InboxFetch,
    InboxProgress, InboxReply, NotificationRepository, NotificationResponse, NotificationSubject,
    SearchItem, SearchResponse,
};
use reminder::time::Timestamp;

fn profile(token: &str) -> GitHubAccount {
    GitHubAccount {
        login: "user".into(),
        token: token.into(),
        review_settings: ReviewCommandSettings::default(),
    }
}

fn at(secs: i64) -> Timestamp {
    Timestamp { secs, nanos: 0 }
}

fn query(pairs: &[(&str, &str)]) -> Vec<(String, String)> {
    pairs.iter().map(|(k, v)| (k.to_string(), v.to_string())).collect()
}

fn search_item(id: u64, html_url: &str) -> SearchItem {
    SearchItem {
        id,
        html_url: html_url.into(),
        repository_url: "https://api.github.com/repos/acme/widgets".into(),
        title: "Fix it".into(),
        number: 12,
        updated_at: at(5),
        user: Some(GitHubUser { login: "octocat".into() }),
        state: "open".into(),
    }
}

#[test]
fn classify_thread_distinguishes_pr_and_issue() {
    assert!(matches!(
        classify_thread("https://api.github.com/repos/acme/r/pull/1"),
        MentionKind::PullRequest
    ));
    assert!(matches!(
        classify_thread("https://api.github.com/repos/acme/r/issues/2"),
        MentionKind::Issue
    ));
}

#[test]
fn extract_repo_name_trims_prefix() {
    let repo = extract_repo_name("https://api.github.com/repos/acme/widgets");
    assert_eq!(repo, "acme/widgets");
}

#[test]
fn mark_notification_read_requires_token() {
    let profile = GitHubAccount {
        login: "user".into(),
        token: String::new(),
        review_settings: ReviewCommandSettings::default(),
    };
    let result = mark_notification_read(&profile, "thread123");
    assert!(matches!(result, Err(FetchError::MissingToken)));
}

#[test]
fn mark_notification_done_requires_token() {
    assert_eq!(
        mark_notification_done(&profile(""), "thread123"),
        Err(FetchError::MissingToken)
    );
}

#[test]
fn actions_on_threads_address_the_thread() {
    assert_eq!(
        mark_notification_read(&profile("token"), "77"),
        Ok(ApiRequest {
            method: ApiMethod::Patch,
            url: "https://api.github.com/notifications/threads/77".into(),
            query: Vec::new(),
            token: "token".into(),
        })
    );
    assert_eq!(
        mark_notification_done(&profile("token"), "77"),
        Ok(ApiRequest {
            method: ApiMethod::Delete,
            url: "https://api.github.com/notifications/threads/77".into(),
            query: Vec::new(),
            token: "token".into(),
        })
    );
}

#[test]
fn extract_repo_name_trims_every_leading_prefix() {
    assert_eq!(
        extract_repo_name(
            "https://api.github.com/repos/https://api.github.com/repos/acme/widgets"
        ),
        "acme/widgets"
    );
    assert_eq!(extract_repo_name("acme/widgets"), "acme/widgets");
}

#[test]
fn api_addresses_become_page_addresses() {
    assert_eq!(
        html_url("https://api.github.com/repos/acme/repo/pulls/5"),
        "https://github.com/acme/repo/pull/5"
    );
    assert_eq!(
        html_url("https://api.github.com/repos/acme/repo/issues/5"),
        "https://github.com/acme/repo/issues/5"
    );
    assert_eq!(html_url("/pulls/pulls/"), "/pull/pulls/");
    assert_eq!(html_url(""), "");
}

fn going(progress: InboxProgress) -> InboxFetch {
    match progress {
        InboxProgress::Going(fetch) => fetch,
        InboxProgress::Ended(_) => panic!("the sync has ended"),
    }
}

#[test]
fn a_sync_makes_four_requests_and_brings_an_inbox() {
    let fetch = fetch_inbox(&profile("token")).ok().expect("sync");
    let request = fetch.request();
    assert_eq!(request.method, ApiMethod::Get);
    assert_eq!(request.url, "https://api.github.com/notifications");
    assert_eq!(request.query, query(&[("all", "true")]));
    assert_eq!(request.token, "token");

    let fetch = going(fetch.accept(
        InboxReply::Notifications(vec![NotificationResponse {
            id: "1".into(),
            reason: "mention".into(),
            updated_at: at(3),
            last_read_at: Some(at(2)),
            unread: true,
            subject: NotificationSubject {
                title: "Title".into(),
                url: Some("https://api.github.com/repos/acme/repo/pulls/5".into()),
            },
            repository: NotificationRepository { full_name: "acme/repo".into() },
        }]),
        at(9),
    ));
    let request = fetch.request();
    assert_eq!(request.url, "https://api.github.com/search/issues");
    assert_eq!(
        request.query,
        query(&[("q", "is:pr state:open review-requested:user")])
    );

    let fetch = going(fetch.accept(
        InboxReply::Search(SearchResponse {
            items: vec![search_item(1, "https://github.com/acme/widgets/pull/12")],
        }),
        at(9),
    ));
    assert_eq!(
        fetch.request().query,
        query(&[("q", "mentions:user is:open"), ("sort", "updated"), ("order", "desc")])
    );

    let fetch = going(fetch.accept(
        InboxReply::Search(SearchResponse {
            items: vec![
                search_item(2, "https://github.com/acme/widgets/issues/12"),
                search_item(3, "https://github.com/acme/widgets/pull/13"),
            ],
        }),
        at(9),
    ));
    assert_eq!(
        fetch.request().query,
        query(&[("q", "is:pr reviewed-by:user"), ("sort", "updated"), ("order", "desc")])
    );

    let mut reviewed = search_item(4, "https://github.com/acme/widgets/pull/14");
    reviewed.user = None;
    let inbox = match fetch.accept(
        InboxReply::Search(SearchResponse { items: vec![reviewed] }),
        at(9),
    ) {
        InboxProgress::Ended(Ok(inbox)) => inbox,
        _ => panic!("the sync has not brought an inbox"),
    };
    assert_eq!(inbox.fetched_at, at(9));
    assert_eq!(inbox.notifications.len(), 1);
    assert_eq!(
        inbox.notifications[0].url.as_deref(),
        Some("https://github.com/acme/repo/pull/5")
    );
    assert_eq!(inbox.notifications[0].last_read_at, Some(at(2)));
    assert_eq!(inbox.review_requests[0].repo, "acme/widgets");
    assert_eq!(inbox.review_requests[0].title, "#12 Fix it");
    assert_eq!(inbox.review_requests[0].requested_by.as_deref(), Some("octocat"));
    assert_eq!(inbox.mentions[0].kind, MentionKind::Issue);
    assert_eq!(inbox.mentions[1].kind, MentionKind::PullRequest);
    assert_eq!(inbox.recent_reviews[0].state, "open");
}

#[test]
fn a_sync_ends_at_the_first_failure() {
    assert!(matches!(fetch_inbox(&profile("")), Err(FetchError::MissingToken)));
    let fetch = fetch_inbox(&profile("token")).ok().expect("sync");
    match fetch.accept(InboxReply::Failed("timed out".into()), at(9)) {
        InboxProgress::Ended(Err(error)) => {
            assert_eq!(error.message(), "GitHub API request failed: timed out");
        }
        _ => panic!("the sync goes on"),
    }
}

#[test]
fn a_sync_waits_for_the_right_kind_of_reply() {
    let fetch = fetch_inbox(&profile("token")).ok().expect("sync");
    let fetch = going(fetch.accept(InboxReply::Search(SearchResponse { items: Vec::new() }), at(9)));
    assert_eq!(fetch.request().url, "https://api.github.com/notifications");
    let fetch = going(fetch.accept(InboxReply::Notifications(Vec::new()), at(9)));
    let fetch = going(fetch.accept(InboxReply::Notifications(Vec::new()), at(9)));
    assert_eq!(fetch.request().url, "https://api.github.com/search/issues");
}

#[test]
fn fetch_errors_have_messages() {
    assert_eq!(FetchError::MissingToken.message(), "Account token is missing");
    assert_eq!(
        FetchError::BackgroundWorkerGone.message(),
        "Background worker disconnected before returning a result"
    );
}

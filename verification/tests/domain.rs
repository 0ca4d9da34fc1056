use reminder::decimal::{decimal_text, parse_number};
use reminder::domain::{
    issue_number_from_url, pull_request_number_from_url, thread_number_from_known_segment,
    thread_number_from_url, GitHubAccount, MentionKind, NotificationItem, ReviewCommandSettings,
    ReviewRequest, ReviewSummary,
};
use reminder::text_map::TextMap;
use reminder::time::Timestamp;

fn now() -> Timestamp {
    let now = chrono::Utc::now();
    Timestamp { secs: now.timestamp(), nanos: now.timestamp_subsec_nanos() }
}

fn notification(url: Option<&str>) -> NotificationItem {
    NotificationItem {
        thread_id: "thread-1".into(),
        repo: "acme/repo".into(),
        title: "Title".into(),
        url: url.map(str::to_owned),
        reason: "review_requested".into(),
        updated_at: now(),
        last_read_at: None,
        unread: true,
    }
}

#[test]
fn pull_request_number_is_parsed_from_github_url() {
    let item = notification(Some("https://github.com/acme/repo/pull/123"));

    assert_eq!(
        pull_request_number_from_url(item.pull_request_url().expect("PR URL")),
        Some(123)
    );
    assert_eq!(
        item.pull_request_url(),
        Some("https://github.com/acme/repo/pull/123")
    );
}

#[test]
fn pull_request_number_ignores_non_pr_urls() {
    let item = notification(Some("https://github.com/acme/repo/issues/123"));

    assert_eq!(item.pull_request_url(), None);
    assert_eq!(
        pull_request_number_from_url("https://github.com/acme/repo/issues/123"),
        None
    );
}

#[test]
fn pull_request_number_handles_nested_pr_urls() {
    let item = notification(Some("https://github.com/acme/repo/pull/456/files#diff-1"));

    assert_eq!(
        pull_request_number_from_url(item.pull_request_url().expect("PR URL")),
        Some(456)
    );
}

#[test]
fn thread_number_is_parsed_from_issue_url() {
    let item = notification(Some(
        "https://github.com/acme/repo/issues/789#issuecomment-1",
    ));

    assert_eq!(item.thread_number(), Some(789));
    assert_eq!(
        issue_number_from_url("https://github.com/acme/repo/issues/789"),
        Some(789)
    );
}

#[test]
fn display_title_appends_pull_request_number_as_suffix() {
    let item = notification(Some("https://github.com/acme/repo/pull/123"));

    assert_eq!(item.display_title(), "Title #123");
}

#[test]
fn display_title_appends_issue_number_as_suffix() {
    let item = notification(Some("https://github.com/acme/repo/issues/321"));

    assert_eq!(item.display_title(), "Title #321");
}

#[test]
fn display_title_leaves_non_issue_or_pr_titles_unchanged() {
    let item = notification(Some("https://github.com/acme/repo/discussions/99"));

    assert_eq!(item.display_title(), "Title");
}

#[test]
fn thread_numbers_have_to_be_numbers() {
    assert_eq!(thread_number_from_url("https://github.com/a/b/pull/"), None);
    assert_eq!(thread_number_from_url("https://github.com/a/b/pull/x1"), None);
    assert_eq!(thread_number_from_url("https://github.com/a/b/pull/-1"), None);
    assert_eq!(thread_number_from_url("https://github.com/a/b/pull/+7?x=1"), Some(7));
    assert_eq!(
        thread_number_from_url("https://github.com/a/b/pull/18446744073709551615"),
        Some(u64::MAX)
    );
    assert_eq!(
        thread_number_from_url("https://github.com/a/b/pull/18446744073709551616"),
        None
    );
    // Only the first segment of that name counts.
    assert_eq!(thread_number_from_url("https://x/pull/a/pull/5"), None);
    assert_eq!(thread_number_from_url("https://x/pull/a/issues/5"), Some(5));
    assert_eq!(thread_number_from_known_segment("a/b/12#c", "/b/"), Some(12));
}

#[test]
fn pull_request_keys_pair_repository_and_number() {
    let item = notification(Some("https://github.com/acme/repo/pull/123"));
    assert_eq!(item.pull_request_key(), Some(("acme/repo".to_owned(), 123)));
    assert_eq!(notification(None).pull_request_key(), None);
    assert_eq!(notification(None).pull_request_number(), None);

    let request = ReviewRequest {
        _id: 1,
        repo: "acme/repo".into(),
        title: "t".into(),
        url: "https://github.com/acme/repo/pull/9".into(),
        updated_at: now(),
        requested_by: None,
    };
    assert_eq!(request.pull_request_key(), Some(("acme/repo".to_owned(), 9)));
    let review = ReviewSummary {
        _id: 1,
        repo: "acme/repo".into(),
        title: "t".into(),
        url: "https://github.com/acme/repo/issues/9".into(),
        updated_at: now(),
        state: "open".into(),
    };
    assert_eq!(review.pull_request_key(), None);
}

#[test]
fn mention_kinds_have_labels() {
    assert_eq!(MentionKind::Issue.label(), "Issue");
    assert_eq!(MentionKind::PullRequest.label(), "Pull request");
}

#[test]
fn decimal_text_and_parsing_agree() {
    for n in [0, 7, 10, 99, 100, 12345, u64::MAX] {
        assert_eq!(decimal_text(n), n.to_string());
        assert_eq!(parse_number(&n.to_string(), u64::MAX), Some(n));
    }
    assert_eq!(parse_number("0012", 100), Some(12));
    assert_eq!(parse_number("101", 100), None);
    assert_eq!(parse_number("", 100), None);
    assert_eq!(parse_number("+", 100), None);
    assert_eq!(parse_number("٣", 100), None);
}

#[test]
fn copies_of_accounts_are_equal() {
    let mut env_vars = TextMap::new();
    env_vars.insert("B".to_owned(), "2".to_owned());
    env_vars.insert("A".to_owned(), "1".to_owned());
    let account = GitHubAccount {
        login: "neo".into(),
        token: "secret".into(),
        review_settings: ReviewCommandSettings {
            env_vars,
            additional_args: vec!["--fast".to_owned()],
        },
    };
    let copy = account.clone();
    assert_eq!(copy.login, "neo");
    assert_eq!(copy.token, "secret");
    assert_eq!(copy.review_settings, account.review_settings);
    assert_eq!(ReviewCommandSettings::default().additional_args.len(), 0);
    assert_eq!(ReviewCommandSettings::default().env_vars.len(), 0);
}

#[test]
fn timestamps_are_ordered_and_written_out() {
    let early = Timestamp { secs: 1_704_067_200, nanos: 0 };
    let late = Timestamp { secs: 1_704_067_200, nanos: 1 };
    assert!(late.is_after(&early));
    assert!(!early.is_after(&late));
    assert!(!early.is_after(&early));
    assert_eq!(early.to_minutes().as_deref(), Some("2024-01-01 00:00"));
    let noon = Timestamp { secs: 1_704_067_200 + 12 * 3600 + 61, nanos: 5 };
    assert_eq!(noon.to_minutes().as_deref(), Some("2024-01-01 12:01"));
    assert_eq!(noon.to_seconds().as_deref(), Some("2024-01-01 12:01:01"));
    assert_eq!(Timestamp { secs: i64::MAX, nanos: 0 }.to_minutes(), None);
    assert_eq!(Timestamp { secs: 0, nanos: 1_500_000_000 }.to_seconds(), None);
    let local = noon.to_local().expect("a local time");
    // A date, a time and an offset.
    assert_eq!(local.len(), "2024-01-01 12:01:01 +00:00".len());
    assert_eq!(Timestamp { secs: i64::MIN, nanos: 0 }.to_local(), None);
}

#[test]
fn timestamps_are_ordered_as_chrono_orders_them() {
    let times = [
        Timestamp { secs: -5, nanos: 999_999_999 },
        Timestamp { secs: -4, nanos: 0 },
        Timestamp { secs: 0, nanos: 0 },
        Timestamp { secs: 59, nanos: 1_200_000_000 },
        Timestamp { secs: 60, nanos: 0 },
        Timestamp { secs: 1_704_067_200, nanos: 7 },
    ];
    for a in times {
        for b in times {
            let x = chrono::DateTime::from_timestamp(a.secs, a.nanos).expect("time");
            let y = chrono::DateTime::from_timestamp(b.secs, b.nanos).expect("time");
            assert_eq!(a.is_after(&b), x > y);
        }
    }
}

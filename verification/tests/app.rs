use chrono::NaiveDateTime;
use reminder::app::forms::{AccountForm, AccountReviewSettingsEditor, RepoPathForm};
use reminder::app::notification_state::{
    base_notification_state, collect_new_notification_ids, pending_review_request_ids,
    section_counts, section_items, section_stats, SectionCounts, SectionKind,
};
use reminder::app::repo_paths::CheckoutProbe;
use reminder::app::review::{initial_review_output_state, ReviewLaunchPlan};
use reminder::app::review_job::ReviewJobMessage;
use reminder::app::review_output::ReviewStatus;
use reminder::app::scheduler::{refresh_due, BatchRefreshScheduler};
use reminder::app::search::SearchFilter;
use reminder::app::settings_editor::SettingsWindowStep;
use reminder::app::state::{AccountState, AccountViewMode, JobPoll, ThreadAction};
use reminder::app::ui::account_card::{
    account_heading, apply_action, card_body, expand_label, last_synced, review_lines,
    status_notice, synced_line_at, toggle_expanded, AccountCommand, CardBody, StatusNotice,
};
use reminder::app::ui::notifications::{
    bucket_sections, notification_row, notification_state, render_sets, row_actions,
    section_rendered, unified_inbox_section, AccountAction, NotificationRenderState, ReviewControl,
    RowClicks, SectionBody, TextTone, WindowControl,
};
use reminder::app::ui::panels::{review_command_note, AccountListClicks, Dashboard};
use reminder::app::ui::sidebar::{
    account_overview, tracked_account_badges, tracked_account_heading, AccountOverview, BadgeTone,
};
use reminder::app::{ReminderApp, Startup};
use reminder::domain::{
    GitHubAccount, InboxSnapshot, NotificationItem, ReviewCommandSettings, ReviewRequest,
    ReviewSummary,
};
use reminder::github::FetchError;
use reminder::storage::{AccountStore, SecretStoreError};
use reminder::text_map::TextMap;
use reminder::time::Timestamp;
use reminder::StringHashSet;
use std::time::{Duration, Instant};

fn parse_utc(ts: &str) -> Timestamp {
    let time = NaiveDateTime::parse_from_str(ts, "%Y-%m-%d %H:%M:%S").unwrap().and_utc();
    Timestamp { secs: time.timestamp(), nanos: time.timestamp_subsec_nanos() }
}

fn now() -> Timestamp {
    let now = chrono::Utc::now();
    Timestamp { secs: now.timestamp(), nanos: now.timestamp_subsec_nanos() }
}

fn ids(names: &[&str]) -> StringHashSet {
    let mut set = StringHashSet::new();
    for name in names {
        set.insert(name.to_string());
    }
    set
}

fn notif(thread_id: &str, reason: &str, unread: bool, updated: &str) -> NotificationItem {
    NotificationItem {
        thread_id: thread_id.to_string(),
        repo: "acme/repo".into(),
        title: "Title".into(),
        url: None,
        reason: reason.into(),
        updated_at: parse_utc(updated),
        last_read_at: None,
        unread,
    }
}

fn inbox_with_notifications(notifications: Vec<NotificationItem>) -> InboxSnapshot {
    InboxSnapshot {
        notifications,
        review_requests: Vec::new(),
        mentions: Vec::new(),
        recent_reviews: Vec::new(),
        fetched_at: now(),
    }
}

fn notif_with_url(
    thread_id: &str,
    reason: &str,
    unread: bool,
    updated: &str,
    url: &str,
) -> NotificationItem {
    NotificationItem {
        url: Some(url.into()),
        ..notif(thread_id, reason, unread, updated)
    }
}

fn review_request(repo: &str, url: &str) -> ReviewRequest {
    ReviewRequest {
        _id: 1,
        repo: repo.into(),
        title: "#123 Review me".into(),
        url: url.into(),
        updated_at: parse_utc("2024-01-01 00:00:00"),
        requested_by: Some("octocat".into()),
    }
}

fn review_summary(repo: &str, url: &str) -> ReviewSummary {
    ReviewSummary {
        _id: 1,
        repo: repo.into(),
        title: "#123 Reviewed".into(),
        url: url.into(),
        updated_at: parse_utc("2024-01-01 00:00:00"),
        state: "open".into(),
    }
}

fn dummy_profile() -> GitHubAccount {
    GitHubAccount {
        login: "user".into(),
        token: "token".into(),
        review_settings: ReviewCommandSettings::default(),
    }
}

fn profile(login: &str) -> GitHubAccount {
    GitHubAccount {
        login: login.into(),
        token: "token".into(),
        review_settings: ReviewCommandSettings::default(),
    }
}

fn make_account(login: &str) -> AccountState {
    AccountState::new(profile(login))
}

fn app_with_accounts(logins: &[&str]) -> ReminderApp {
    ReminderApp {
        account_form: AccountForm::default(),
        repo_path_form: RepoPathForm::default(),
        review_settings_editor: None,
        accounts: logins.iter().map(|login| make_account(login)).collect(),
        repo_paths: TextMap::new(),
        selected_account_login: None,
        secret_store: None,
        storage_warning: None,
        global_error: None,
        auto_refresh: BatchRefreshScheduler::new(Duration::from_secs(1).as_nanos()),
    }
}

fn stored_app(logins: &[&str]) -> ReminderApp {
    let mut app = app_with_accounts(logins);
    app.secret_store = Some(AccountStore { registry_path: "/home/neo/.reminder/accounts.json".into() });
    app
}

fn launch(pr_number: u64) -> ReviewLaunchPlan {
    ReviewLaunchPlan::Custom {
        repo: String::from("acme/repo"),
        repo_path: String::from("/tmp/acme-repo"),
        pr_number,
        review_settings: ReviewCommandSettings::default(),
    }
}

#[test]
fn section_stats_groups_by_reason() {
    let inbox = inbox_with_notifications(vec![
        notif("1", "review_requested", true, "2024-01-01 00:00:00"),
        notif("2", "mention", true, "2024-01-01 00:00:00"),
        notif("3", "subscribed", false, "2024-01-01 00:00:00"),
    ]);
    let stats = section_stats(&inbox);
    assert_eq!(stats.inbox.unseen, 2);
    assert_eq!(stats.review_requests.unseen, 1);
    assert_eq!(stats.mentions.unseen, 1);
    assert_eq!(stats.notifications.unseen, 0);
}

#[test]
fn new_accounts_start_in_inbox_view() {
    let account = AccountState::new(dummy_profile());
    assert_eq!(account.view_mode, AccountViewMode::Inbox);
}

#[test]
fn section_counts_bumped_on_unseen_increase() {
    let old = SectionCounts::new(1, 0);
    let new = SectionCounts::new(2, 0);
    assert!(new.bumped_since(&old));
}

#[test]
fn section_counts_not_bumped_when_same() {
    let old = SectionCounts::new(1, 1);
    let new = SectionCounts::new(1, 1);
    assert!(!new.bumped_since(&old));
}

#[test]
fn batch_scheduler_triggers_after_interval() {
    let mut scheduler = BatchRefreshScheduler::new(Duration::from_secs(1).as_nanos());
    assert!(scheduler.should_trigger());
    scheduler.mark_triggered();
    scheduler.last_run = Some(Instant::now() - Duration::from_secs(2));
    assert!(scheduler.should_trigger());
}

#[test]
fn ensure_selected_account_falls_back_to_first_account() {
    let mut app = app_with_accounts(&["alpha", "beta"]);
    app.selected_account_login = Some("missing".into());

    app.ensure_selected_account();

    assert_eq!(app.selected_account_login.as_deref(), Some("alpha"));
}

#[test]
fn collect_new_notification_ids_ignores_initial_sync() {
    let next =
        inbox_with_notifications(vec![notif("1", "subscribed", true, "2024-01-01 00:00:00")]);

    assert!(collect_new_notification_ids(None, &next).is_empty());
}

#[test]
fn collect_new_notification_ids_detects_added_threads() {
    let previous = inbox_with_notifications(vec![
        notif("1", "subscribed", true, "2024-01-01 00:00:00"),
        notif("2", "mention", true, "2024-01-01 00:00:00"),
    ]);
    let next = inbox_with_notifications(vec![
        notif("2", "mention", true, "2024-01-01 00:00:00"),
        notif("3", "review_requested", true, "2024-01-01 00:00:00"),
    ]);

    let new_ids = collect_new_notification_ids(Some(&previous), &next);

    assert_eq!(new_ids.len(), 1);
    assert!(new_ids.contains("3"));
}

#[test]
fn account_overview_reports_sidebar_counts() {
    let mut account = make_account("alpha");
    account.inbox = Some(inbox_with_notifications(vec![
        notif("1", "subscribed", true, "2024-01-01 00:00:00"),
        notif("2", "subscribed", false, "2024-01-02 00:00:00"),
    ]));
    account.new_notification_ids = ids(&["2", "3"]);
    if let Some(inbox) = &mut account.inbox {
        inbox.notifications[1].last_read_at = Some(parse_utc("2024-01-01 00:00:00"));
    }

    let overview = account_overview(&account).expect("overview should exist");

    assert_eq!(overview.new_notifications, 2);
    assert_eq!(overview.unseen, 1);
    assert_eq!(overview.updated, 1);
}

#[test]
fn clear_new_notifications_resets_sidebar_badge_state() {
    let mut account = make_account("alpha");
    account.new_notification_ids = ids(&["1"]);

    account.clear_new_notifications();

    assert!(account.new_notification_ids.is_empty());
}

#[test]
fn toggle_review_window_for_thread_only_toggles_matching_review() {
    let mut account = make_account("alpha");
    account.review_outputs.insert(
        String::from("thread-1"),
        initial_review_output_state(String::from("thread-1"), &launch(123)),
    );

    account.toggle_review_window_for_thread("thread-2");
    assert!(account
        .review_outputs
        .get("thread-1")
        .is_some_and(|review_output| review_output.open));

    account.toggle_review_window_for_thread("thread-1");
    assert!(account
        .review_outputs
        .get("thread-1")
        .is_some_and(|review_output| !review_output.open));
}

#[test]
fn active_review_thread_ids_returns_only_running_reviews() {
    let mut account = make_account("alpha");
    account.review_outputs.insert(
        String::from("thread-1"),
        initial_review_output_state(String::from("thread-1"), &launch(123)),
    );
    account.review_outputs.insert(
        String::from("thread-2"),
        initial_review_output_state(String::from("thread-2"), &launch(456)),
    );

    let active = account.active_review_thread_ids();
    assert!(active.contains("thread-1"));
    assert!(active.contains("thread-2"));

    if let Some(mut review_output) = account.review_outputs.remove("thread-2") {
        review_output.status = ReviewStatus::Cancelled;
        account.review_outputs.insert(String::from("thread-2"), review_output);
    }

    let active = account.active_review_thread_ids();
    assert!(active.contains("thread-1"));
    assert!(!active.contains("thread-2"));
}

#[test]
fn notification_state_detects_revisit() {
    let mut item = notif("1", "subscribed", false, "2024-01-02 00:00:00");
    item.last_read_at = Some(parse_utc("2024-01-01 00:00:00"));
    let visual = base_notification_state(&item);
    assert!(visual.needs_revisit);
    assert!(!visual.seen);
    assert!(!visual.pending_review);
}

#[test]
fn pending_review_request_ids_marks_open_requests_without_my_review() {
    let pr_url = "https://github.com/acme/repo/pull/123";
    let inbox = InboxSnapshot {
        notifications: vec![notif_with_url(
            "1",
            "review_requested",
            true,
            "2024-01-01 00:00:00",
            pr_url,
        )],
        review_requests: vec![review_request("acme/repo", pr_url)],
        mentions: Vec::new(),
        recent_reviews: Vec::new(),
        fetched_at: now(),
    };

    let pending = pending_review_request_ids(&inbox);

    assert!(pending.contains("1"));
}

#[test]
fn pending_review_request_ids_highlights_matching_pr_notifications_even_with_other_reason() {
    let pr_url = "https://github.com/acme/repo/pull/123";
    let inbox = InboxSnapshot {
        notifications: vec![notif_with_url(
            "1",
            "subscribed",
            true,
            "2024-01-01 00:00:00",
            pr_url,
        )],
        review_requests: vec![review_request("acme/repo", pr_url)],
        mentions: Vec::new(),
        recent_reviews: Vec::new(),
        fetched_at: now(),
    };

    let pending = pending_review_request_ids(&inbox);

    assert!(pending.contains("1"));
}

#[test]
fn pending_review_request_ids_skips_prs_i_already_reviewed() {
    let pr_url = "https://github.com/acme/repo/pull/123";
    let inbox = InboxSnapshot {
        notifications: vec![notif_with_url(
            "1",
            "review_requested",
            true,
            "2024-01-01 00:00:00",
            pr_url,
        )],
        review_requests: vec![review_request("acme/repo", pr_url)],
        mentions: Vec::new(),
        recent_reviews: vec![review_summary("acme/repo", pr_url)],
        fetched_at: now(),
    };

    let pending = pending_review_request_ids(&inbox);

    assert!(pending.is_empty());
}

#[test]
fn notification_state_marks_pending_review_requests_from_render_state() {
    let item = notif_with_url(
        "1",
        "review_requested",
        true,
        "2024-01-01 00:00:00",
        "https://github.com/acme/repo/pull/123",
    );
    let inflight_done = StringHashSet::new();
    let pending_review_ids = ids(&["1"]);
    let active_review_thread_ids = StringHashSet::new();
    let review_output_thread_ids = StringHashSet::new();
    let open_review_window_thread_ids = StringHashSet::new();
    let render_state = NotificationRenderState {
        inflight_done: &inflight_done,
        pending_review_ids: &pending_review_ids,
        active_review_thread_ids: &active_review_thread_ids,
        review_output_thread_ids: &review_output_thread_ids,
        open_review_window_thread_ids: &open_review_window_thread_ids,
        custom_review_command: false,
        repo_paths: &TextMap::new(),
    };

    let visual = notification_state(&item, &render_state);

    assert!(visual.pending_review);
}

#[test]
fn highlight_clears_after_rendering_section() {
    let mut account = AccountState::new(dummy_profile());
    account.inbox = Some(inbox_with_notifications(vec![notif(
        "t1",
        "subscribed",
        true,
        "2024-01-01 00:00:00",
    )]));
    account.highlights.insert(SectionKind::Notifications);
    let filter = SearchFilter::new("");

    let inbox = account.inbox.clone().expect("inbox");
    let kinds: Vec<SectionKind> =
        bucket_sections(&inbox, &account, &filter).iter().map(|section| section.kind).collect();
    for kind in kinds {
        section_rendered(&mut account, kind, true);
    }

    assert!(
        !account.highlights.contains(&SectionKind::Notifications),
        "Highlight should clear after section is rendered"
    );
}

// Notifications --------------------------------------------------------------

#[test]
fn sections_part_the_notifications() {
    let items = vec![
        notif("1", "review_requested", true, "2024-01-01 00:00:00"),
        notif("2", "team_mention", true, "2024-01-01 00:00:00"),
        notif("3", "author", true, "2024-01-01 00:00:00"),
        notif("4", "mention", false, "2024-01-01 00:00:00"),
    ];
    let threads = |kind| -> Vec<String> {
        section_items(&items, kind).iter().map(|item| item.thread_id.clone()).collect()
    };
    assert_eq!(threads(SectionKind::Inbox), vec!["1", "2", "3", "4"]);
    assert_eq!(threads(SectionKind::ReviewRequests), vec!["1"]);
    assert_eq!(threads(SectionKind::Mentions), vec!["2", "4"]);
    assert_eq!(threads(SectionKind::Notifications), vec!["3"]);
    let sum = section_counts(&items, SectionKind::ReviewRequests).unseen
        + section_counts(&items, SectionKind::Mentions).unseen
        + section_counts(&items, SectionKind::Notifications).unseen;
    assert_eq!(section_counts(&items, SectionKind::Inbox).unseen, sum);
}

#[test]
fn sections_have_headings_and_lists() {
    let mut account = make_account("alpha");
    account.highlights.insert(SectionKind::Mentions);
    let mut updated = notif("2", "mention", false, "2024-01-02 00:00:00");
    updated.last_read_at = Some(parse_utc("2024-01-01 00:00:00"));
    let inbox = inbox_with_notifications(vec![
        notif("1", "subscribed", true, "2024-01-01 00:00:00"),
        updated,
    ]);
    let sections = bucket_sections(&inbox, &account, &SearchFilter::new("MENTION"));
    assert_eq!(sections.len(), 3);
    assert_eq!(sections[0].heading, "Review requests (0 unseen, 0 updated)");
    assert!(matches!(sections[0].body, SectionBody::Empty("No pending review requests.")));
    assert_eq!(sections[1].heading, "Mentions (0 unseen, 1 updated)");
    assert_eq!(sections[1].id_salt, "notification-section-Mentions");
    assert!(sections[1].highlight);
    match &sections[1].body {
        SectionBody::Rows(rows) => assert_eq!(rows[0].thread_id, "2"),
        _ => panic!("no rows"),
    }
    assert_eq!(sections[2].heading, "Notifications (1 unseen, 0 updated)");
    assert_eq!(sections[2].id_salt, "notification-section-Notifications");
    assert!(!sections[2].highlight);
    assert!(matches!(
        sections[2].body,
        SectionBody::NoMatches("No matches for current search.")
    ));
    let inbox_section = unified_inbox_section(&inbox, &account, &SearchFilter::new(""));
    assert_eq!(inbox_section.heading, "Inbox (1 unseen, 1 updated)");
    let nothing = inbox_with_notifications(Vec::new());
    assert!(matches!(
        unified_inbox_section(&nothing, &account, &SearchFilter::new("")).body,
        SectionBody::Empty("You're all caught up 🎉")
    ));
}

struct Sets {
    busy: StringHashSet,
    pending: StringHashSet,
    active: StringHashSet,
    outputs: StringHashSet,
    open: StringHashSet,
    paths: TextMap<String>,
}

fn sets() -> Sets {
    let mut paths = TextMap::new();
    paths.insert("acme/repo".to_owned(), "/tmp/acme-repo".to_owned());
    Sets {
        busy: ids(&[]),
        pending: ids(&[]),
        active: ids(&[]),
        outputs: ids(&[]),
        open: ids(&[]),
        paths,
    }
}

fn state(sets: &Sets, custom_review_command: bool) -> NotificationRenderState<'_> {
    NotificationRenderState {
        inflight_done: &sets.busy,
        pending_review_ids: &sets.pending,
        active_review_thread_ids: &sets.active,
        review_output_thread_ids: &sets.outputs,
        open_review_window_thread_ids: &sets.open,
        custom_review_command,
        repo_paths: &sets.paths,
    }
}

fn pull() -> NotificationItem {
    notif_with_url(
        "1",
        "author",
        true,
        "2024-01-01 00:00:00",
        "https://github.com/acme/repo/pull/123",
    )
}

const ALL_CLICKED: RowClicks = RowClicks { subject: true, mark_read: true, review: true, window: true };

#[test]
fn rows_show_what_is_known() {
    let mut sets = sets();
    let row = notification_row(&pull(), &state(&sets, true));
    assert_eq!(row.repo, "acme/repo");
    assert_eq!(row.title, "Title #123");
    assert_eq!(row.reason, "Reason: author");
    assert_eq!(row.updated.as_deref(), Some("2024-01-01 00:00"));
    assert_eq!(row.url.as_deref(), Some("https://github.com/acme/repo/pull/123"));
    assert_eq!(row.tone, TextTone::Plain);
    assert!(row.mark_read_enabled);
    assert_eq!(row.review, ReviewControl::Launch { enabled: true });
    assert_eq!(row.window, WindowControl::Hidden);
    assert!(!row.spinner);

    sets.busy = ids(&["1"]);
    let row = notification_row(&pull(), &state(&sets, true));
    assert_eq!(row.review, ReviewControl::Launch { enabled: false });
    assert!(!row.mark_read_enabled);
    assert!(row.spinner);
    assert_eq!(
        notification_row(&pull(), &state(&sets, false)).review,
        ReviewControl::Unavailable
    );

    sets.active = ids(&["1"]);
    sets.outputs = ids(&["1"]);
    let row = notification_row(&pull(), &state(&sets, true));
    assert_eq!(row.review, ReviewControl::Stop);
    assert_eq!(row.window, WindowControl::Open);
    assert!(!row.spinner);
    sets.open = ids(&["1"]);
    assert_eq!(notification_row(&pull(), &state(&sets, true)).window, WindowControl::Close);

    let issue = notif("1", "author", false, "2024-01-01 00:00:00");
    let row = notification_row(&issue, &state(&sets, true));
    assert_eq!(row.review, ReviewControl::Hidden);
    assert_eq!(row.window, WindowControl::Hidden);
    assert_eq!(row.tone, TextTone::Weak);
    let mut revisit = notif("2", "author", false, "2024-01-02 00:00:00");
    revisit.last_read_at = Some(parse_utc("2024-01-01 00:00:00"));
    let row = notification_row(&revisit, &state(&sets, true));
    assert_eq!(row.tone, TextTone::Warning);
    assert!(row.mark_read_enabled);
}

#[test]
fn clicks_ask_for_actions_in_order() {
    let mut sets = sets();
    sets.outputs = ids(&["1"]);
    assert_eq!(
        row_actions(&pull(), &state(&sets, true), ALL_CLICKED),
        vec![
            AccountAction::Seen("1".into()),
            AccountAction::Read("1".into()),
            AccountAction::Review {
                thread_id: "1".into(),
                repo: "acme/repo".into(),
                pr_number: 123,
                pr_url: "https://github.com/acme/repo/pull/123".into(),
            },
            AccountAction::ToggleReviewWindow("1".into()),
        ]
    );
    sets.active = ids(&["1"]);
    sets.busy = ids(&["1"]);
    assert_eq!(
        row_actions(&pull(), &state(&sets, true), ALL_CLICKED),
        vec![
            AccountAction::Seen("1".into()),
            AccountAction::StopReview("1".into()),
            AccountAction::ToggleReviewWindow("1".into()),
        ]
    );
    let read = notif("1", "author", false, "2024-01-01 00:00:00");
    assert_eq!(
        row_actions(&read, &state(&sets, true), ALL_CLICKED),
        vec![AccountAction::Seen("1".into())]
    );
    let none = RowClicks { subject: false, mark_read: false, review: false, window: false };
    assert_eq!(row_actions(&pull(), &state(&sets, true), none), vec![]);
}

// Accounts -------------------------------------------------------------------

#[test]
fn syncs_note_what_is_new() {
    let mut account = make_account("alpha");
    assert!(account.start_refresh());
    assert!(!account.start_refresh());
    account.poll_job(JobPoll::Pending);
    assert!(account.pending_job);
    account.poll_job(JobPoll::Ready(Ok(inbox_with_notifications(vec![notif(
        "1",
        "mention",
        true,
        "2024-01-01 00:00:00",
    )]))));
    assert!(!account.pending_job);
    assert!(account.new_notification_ids.is_empty());
    assert!(!account.highlights.contains(&SectionKind::Inbox));

    assert!(account.start_refresh());
    account.poll_job(JobPoll::Ready(Ok(inbox_with_notifications(vec![
        notif("1", "mention", true, "2024-01-01 00:00:00"),
        notif("2", "author", true, "2024-01-01 00:00:00"),
    ]))));
    assert!(account.new_notification_ids.contains("2"));
    assert!(!account.new_notification_ids.contains("1"));
    assert!(account.highlights.contains(&SectionKind::Inbox));
    assert!(account.highlights.contains(&SectionKind::Notifications));
    assert!(!account.highlights.contains(&SectionKind::Mentions));

    account.poll_job(JobPoll::Ready(Err(FetchError::MissingToken)));
    assert_eq!(account.last_error.as_deref(), Some("Account token is missing"));
    account.poll_job(JobPoll::Gone);
    assert_eq!(
        account.last_error.as_deref(),
        Some("Background worker disconnected before returning a result")
    );
    assert!(account.inbox.is_some());
}

#[test]
fn accounts_are_stale_after_the_interval() {
    let mut account = make_account("alpha");
    let at = |secs, nanos| Timestamp { secs, nanos };
    assert!(account.needs_refresh(at(0, 0), 180));
    let mut inbox = inbox_with_notifications(Vec::new());
    inbox.fetched_at = at(100, 500);
    account.inbox = Some(inbox);
    assert!(!account.needs_refresh(at(280, 499), 180));
    assert!(account.needs_refresh(at(280, 500), 180));
    assert!(!account.needs_refresh(at(i64::MIN, 0), u64::MAX));
}

#[test]
fn actions_on_threads_are_taken_up_when_they_are_done() {
    let mut account = make_account("alpha");
    account.inbox = Some(inbox_with_notifications(vec![
        notif("1", "mention", true, "2024-01-01 00:00:00"),
        notif("2", "mention", true, "2024-01-01 00:00:00"),
    ]));
    assert!(account.request_mark_read("1".into()));
    assert!(!account.request_mark_read("1".into()));
    assert!(!account.request_mark_done("1".into()));
    account.poll_action_jobs("1", ThreadAction::Read, Err(FetchError::Http("x".into())));
    assert_eq!(account.last_error.as_deref(), Some("GitHub API request failed: x"));
    assert!(!account.inflight_done.contains("1"));
    assert!(account.inbox.as_ref().unwrap().notifications[0].unread);
    account.poll_action_jobs("1", ThreadAction::Read, Ok(()));
    let inbox = account.inbox.as_ref().unwrap();
    assert!(base_notification_state(&inbox.notifications[0]).seen);
    assert!(!base_notification_state(&inbox.notifications[1]).seen);
    account.poll_action_jobs("1", ThreadAction::Done, Ok(()));
    let inbox = account.inbox.as_ref().unwrap();
    assert_eq!(inbox.notifications.len(), 1);
    assert_eq!(inbox.notifications[0].thread_id, "2");
    account.mark_notification_seen("2");
    let inbox = account.inbox.as_ref().unwrap();
    assert!(base_notification_state(&inbox.notifications[0]).seen);
}

#[test]
fn reviews_run_until_they_are_reported_to_have_ended() {
    let mut account = make_account("alpha");
    assert!(!account.review_in_progress());
    assert!(account.request_review("1".into(), &launch(1)));
    assert!(!account.request_review("1".into(), &launch(1)));
    assert!(account.review_in_progress());
    assert!(account.can_cancel_review("1"));
    assert!(!account.can_cancel_review("2"));
    account.poll_review_job(ReviewJobMessage::Append {
        thread_id: "1".into(),
        bytes: b"hello".to_vec(),
    });
    account.poll_review_job(ReviewJobMessage::Append {
        thread_id: "2".into(),
        bytes: b"lost".to_vec(),
    });
    assert_eq!(account.review_outputs.get("1").unwrap().content, "hello");
    assert_eq!(account.review_outputs.len(), 1);
    account.poll_review_job(ReviewJobMessage::FinishedFailure {
        thread_id: "1".into(),
        captured_at: parse_utc("2024-01-01 00:00:00"),
        message: "bad".into(),
    });
    let output = account.review_outputs.get("1").unwrap();
    assert_eq!(output.status, ReviewStatus::Failed);
    assert_eq!(output.captured_at, Some(parse_utc("2024-01-01 00:00:00")));
    assert_eq!(account.last_error.as_deref(), Some("bad"));
    assert!(!account.review_in_progress());
    assert!(account.request_review("1".into(), &launch(1)));
    account.poll_review_job(ReviewJobMessage::FinishedSuccess {
        thread_id: "1".into(),
        captured_at: parse_utc("2024-01-01 00:00:00"),
    });
    assert_eq!(account.review_outputs.get("1").unwrap().status, ReviewStatus::Completed);
    account.cancel_review(Ok(false));
    assert_eq!(account.last_error.as_deref(), Some("bad"));
    account.cancel_review(Err("stuck".into()));
    assert_eq!(account.last_error.as_deref(), Some("stuck"));
}

#[test]
fn the_card_says_how_an_account_stands() {
    let mut account = make_account("alpha");
    assert_eq!(account_heading(&account), "Account: alpha");
    assert_eq!(expand_label(true), "Hide notifications");
    assert_eq!(expand_label(false), "Show notifications");
    assert_eq!(last_synced(&account).as_deref(), Some("No data fetched yet."));
    assert_eq!(card_body(&account), CardBody::Blank);
    toggle_expanded(&mut account);
    assert_eq!(card_body(&account), CardBody::NoData);
    toggle_expanded(&mut account);
    let mut inbox = inbox_with_notifications(Vec::new());
    inbox.fetched_at = parse_utc("2024-01-01 12:00:01");
    account.inbox = Some(inbox);
    assert_eq!(last_synced(&account).as_deref(), Some("Last synced 2024-01-01 12:00:01 UTC"));
    assert_eq!(synced_line_at(Some("noon")), "Last synced noon UTC");
    assert_eq!(card_body(&account), CardBody::Unified);
    account.view_mode = AccountViewMode::Grouped;
    assert_eq!(card_body(&account), CardBody::Grouped);
    assert_eq!(status_notice(&account), StatusNotice::Nothing);
    account.pending_job = true;
    assert_eq!(
        status_notice(&account),
        StatusNotice::Fetching("Fetching latest notifications...")
    );
    account.last_error = Some("bad".into());
    assert_eq!(status_notice(&account), StatusNotice::Error("bad".into()));
    let mut output = initial_review_output_state("1".into(), &launch(1));
    output.open = false;
    output.dropped_chars = 5;
    account.review_outputs.insert("1".into(), output);
    let lines = review_lines(&account);
    assert_eq!(lines[0].summary, "Review running: acme/repo#1 via review-pr");
    assert_eq!(lines[0].trimmed.as_deref(), Some("Trimmed 5 chars"));
    assert!(lines[0].window_hidden);
}

#[test]
fn actions_are_carried_out() {
    let mut account = make_account("alpha");
    account.inbox = Some(inbox_with_notifications(vec![pull()]));
    let sets = sets();
    let review = || AccountAction::Review {
        thread_id: "1".into(),
        repo: "Acme/Repo".into(),
        pr_number: 123,
        pr_url: "https://github.com/acme/repo/pull/123".into(),
    };
    assert!(matches!(
        apply_action(&mut account, review(), &sets.paths, false),
        AccountCommand::Nothing
    ));
    assert_eq!(
        account.last_error.as_deref(),
        Some("Custom `review-pr` is unavailable for this repository.")
    );
    match apply_action(&mut account, review(), &sets.paths, true) {
        AccountCommand::Review { thread_id, launch } => {
            assert_eq!(thread_id, "1");
            let ReviewLaunchPlan::Custom { repo, repo_path, pr_number, .. } = launch;
            assert_eq!(repo, "Acme/Repo");
            assert_eq!(repo_path, "/tmp/acme-repo");
            assert_eq!(pr_number, 123);
        }
        _ => panic!("no review"),
    }
    assert!(matches!(
        apply_action(&mut account, review(), &sets.paths, true),
        AccountCommand::Nothing
    ));
    assert!(matches!(
        apply_action(&mut account, AccountAction::StopReview("1".into()), &sets.paths, true),
        AccountCommand::StopReview(id) if id == "1"
    ));
    assert!(matches!(
        apply_action(&mut account, AccountAction::StopReview("2".into()), &sets.paths, true),
        AccountCommand::Nothing
    ));
    apply_action(&mut account, AccountAction::ToggleReviewWindow("1".into()), &sets.paths, true);
    assert!(!account.review_outputs.get("1").unwrap().open);
    assert!(matches!(
        apply_action(&mut account, AccountAction::Read("1".into()), &sets.paths, true),
        AccountCommand::MarkRead(id) if id == "1"
    ));
    assert!(matches!(
        apply_action(&mut account, AccountAction::Done("1".into()), &sets.paths, true),
        AccountCommand::Nothing
    ));
    assert!(matches!(
        apply_action(&mut account, AccountAction::Done("9".into()), &sets.paths, true),
        AccountCommand::MarkDone(id) if id == "9"
    ));
    apply_action(&mut account, AccountAction::Seen("1".into()), &sets.paths, true);
    let inbox = account.inbox.clone().unwrap();
    assert!(base_notification_state(&inbox.notifications[0]).seen);
    let render = render_sets(&account, &inbox);
    assert!(render.active_review_thread_ids.contains("1"));
    assert!(render.review_output_thread_ids.contains("1"));
    assert!(!render.open_review_window_thread_ids.contains("1"));
    assert!(render.pending_review_ids.is_empty());
}

#[test]
fn badges_say_what_is_new() {
    let texts = |overview, pending, error| -> Vec<String> {
        tracked_account_badges(overview, pending, error)
            .into_iter()
            .map(|badge| badge.text)
            .collect()
    };
    let overview = AccountOverview { new_notifications: 2, unseen: 3, updated: 0 };
    assert_eq!(texts(Some(overview), false, false), vec!["new +2", "unseen 3", "updated 0"]);
    assert_eq!(texts(None, true, true), vec!["Loading…", "syncing…", "sync failed"]);
    assert_eq!(texts(None, false, false), vec!["No data yet"]);
    let badges = tracked_account_badges(Some(overview), false, false);
    assert_eq!(badges[0].tone, BadgeTone::StrongWarning);
    assert_eq!(badges[2].tone, BadgeTone::Weak);
    let heading = tracked_account_heading(false, Some(overview));
    assert!(heading.strong);
    assert_eq!(heading.tone, TextTone::Warning);
    let heading = tracked_account_heading(true, Some(overview));
    assert_eq!(heading.tone, TextTone::Plain);
    assert!(!tracked_account_heading(false, None).strong);
}

// The app --------------------------------------------------------------------

#[test]
fn the_app_starts_with_what_was_kept() {
    let app = ReminderApp::new(Startup::NoStore(SecretStoreError::HomeDirMissing));
    assert_eq!(
        app.storage_warning.as_deref(),
        Some("Local token storage is unavailable; tokens cannot be persisted (HOME environment variable is not set; cannot store tokens under ~/.reminder).")
    );
    assert!(app.secret_store.is_none());
    assert_eq!(app.selected_account_login, None);

    let store = || AccountStore { registry_path: "/h/.reminder/accounts.json".into() };
    let app = ReminderApp::new(Startup::NotRestored {
        store: store(),
        error: SecretStoreError::Io("denied".into()),
    });
    assert_eq!(
        app.storage_warning.as_deref(),
        Some("Failed to restore saved accounts: I/O error while handling stored accounts: denied")
    );
    assert!(app.secret_store.is_some());

    let mut checkouts = TextMap::new();
    checkouts.insert("nonsense".to_owned(), CheckoutProbe::Unresolved("x".into()));
    checkouts.insert(
        "Acme/Repo".to_owned(),
        CheckoutProbe::Resolved { path: "/a".into(), is_dir: true, has_git: true },
    );
    let app = ReminderApp::new(Startup::Restored {
        store: store(),
        profiles: vec![profile("alpha"), profile("beta")],
        checkouts,
    });
    assert_eq!(
        app.storage_warning.as_deref(),
        Some("Skipped 1 invalid local repo path mapping(s) while restoring settings.")
    );
    assert_eq!(app.selected_account_login.as_deref(), Some("alpha"));
    assert!(app.accounts.iter().all(|account| account.pending_job));
    assert_eq!(app.repo_paths.get("acme/repo"), Some(&"/a".to_owned()));
    assert!(app.auto_refresh.last_run.is_some());
}

#[test]
fn accounts_are_added_once() {
    let mut app = app_with_accounts(&["Alpha"]);
    assert!(app.add_account().is_none());
    assert_eq!(
        app.account_form.form_error.as_deref(),
        Some("Both the login and a Personal Access Token are required.")
    );
    app.account_form.login = " alpha ".into();
    app.account_form.token = " t ".into();
    assert!(app.add_account().is_none());
    assert_eq!(
        app.account_form.form_error.as_deref(),
        Some("This GitHub login is already being tracked.")
    );
    app.account_form.login = " beta ".into();
    assert!(app.add_account().is_none());
    assert_eq!(
        app.account_form.form_error.as_deref(),
        Some("Local token storage is not available; cannot add new accounts right now.")
    );
    app.secret_store = Some(AccountStore { registry_path: "/h/.reminder/accounts.json".into() });
    let profile = app.add_account().expect("a profile");
    assert_eq!(profile.login, "beta");
    assert_eq!(profile.token, "t");
    app.account_persisted(profile.clone(), Err(SecretStoreError::Io("full".into())));
    assert_eq!(
        app.account_form.form_error.as_deref(),
        Some("Unable to persist credentials locally: I/O error while handling stored accounts: full")
    );
    assert_eq!(app.accounts.len(), 1);
    app.account_persisted(profile, Ok(()));
    assert_eq!(app.accounts.len(), 2);
    assert!(app.accounts[1].pending_job);
    assert_eq!(app.selected_account_login.as_deref(), Some("beta"));
    assert_eq!(app.account_form, AccountForm::default());
}

#[test]
fn removed_accounts_are_not_selected_or_edited() {
    let mut app = stored_app(&["alpha", "beta"]);
    app.selected_account_login = Some("alpha".into());
    app.open_review_settings_editor("alpha");
    app.remove_account_at(7, Ok(()));
    assert_eq!(app.accounts.len(), 2);
    app.remove_account_at(0, Err(SecretStoreError::Io("busy".into())));
    assert_eq!(app.accounts.len(), 1);
    assert_eq!(app.selected_account_login.as_deref(), Some("beta"));
    assert!(app.review_settings_editor.is_none());
    assert_eq!(
        app.global_error.as_deref(),
        Some("Failed to remove credentials for alpha: I/O error while handling stored accounts: busy")
    );
    app.remove_account_at(0, Ok(()));
    assert_eq!(app.selected_account_login, None);
}

#[test]
fn checkouts_are_saved_step_by_step() {
    let mut app = app_with_accounts(&[]);
    let error = |app: &ReminderApp| app.repo_path_form.form_error.clone().unwrap_or_default();
    assert_eq!(app.save_repo_path(), None);
    assert_eq!(error(&app), "Repository must be in the form owner/repo.");
    app.repo_path_form.repo = "Acme/Repo".into();
    assert_eq!(app.save_repo_path(), None);
    assert_eq!(error(&app), "A local checkout path is required.");
    app.repo_path_form.path = " /tmp/a ".into();
    assert_eq!(app.save_repo_path(), Some(("acme/repo".to_owned(), "/tmp/a".to_owned())));

    let found = |is_dir, has_git| CheckoutProbe::Resolved { path: "/a".into(), is_dir, has_git };
    assert_eq!(app.checkout_probed(CheckoutProbe::Unresolved("x".into())), None);
    assert_eq!(error(&app), "Unable to resolve checkout path: x");
    assert_eq!(app.checkout_probed(found(false, true)), None);
    assert_eq!(error(&app), "Local checkout path must point to a directory.");
    assert_eq!(app.checkout_probed(found(true, false)), None);
    assert_eq!(error(&app), "Local checkout path must point to a git repository.");
    assert_eq!(app.checkout_probed(found(true, true)), None);
    assert_eq!(
        error(&app),
        "Local storage is not available; cannot save repo paths right now."
    );
    app.secret_store = Some(AccountStore { registry_path: "/h/.reminder/accounts.json".into() });
    assert_eq!(app.checkout_probed(found(true, true)), Some("/a".to_owned()));

    app.repo_path_persisted(
        "acme/repo".into(),
        "/a".into(),
        Err(SecretStoreError::Serialization("x".into())),
    );
    assert_eq!(
        error(&app),
        "Unable to persist local repo path: Failed to serialize stored accounts: x"
    );
    app.repo_path_persisted("acme/repo".into(), "/a".into(), Ok(()));
    assert_eq!(app.repo_paths.get("acme/repo"), Some(&"/a".to_owned()));
    assert_eq!(app.repo_path_form, RepoPathForm::default());

    app.remove_repo_path("acme/repo", Err(SecretStoreError::Io("x".into())));
    assert_eq!(
        app.global_error.as_deref(),
        Some("Failed to remove repo path for acme/repo: I/O error while handling stored accounts: x")
    );
    assert_eq!(app.repo_paths.len(), 1);
    app.remove_repo_path("acme/repo", Ok(()));
    assert_eq!(app.repo_paths.len(), 0);
}

#[test]
fn review_settings_are_edited_as_text() {
    let mut app = stored_app(&["alpha", "beta"]);
    assert!(app.save_review_settings().is_none());
    app.open_review_settings_editor("missing");
    assert_eq!(
        app.global_error.as_deref(),
        Some("Cannot find account settings for missing.")
    );
    app.accounts[1].profile.review_settings.additional_args = vec!["--x".to_owned()];
    app.open_review_settings_editor("beta");
    assert_eq!(app.review_settings_title().as_deref(), Some("Review settings: beta"));
    let editor = app.review_settings_editor.as_mut().expect("an editor");
    assert_eq!(editor.additional_args_text, "--x");
    editor.env_vars_text = "nothing".into();
    assert!(app.save_review_settings().is_none());
    let editor = app.review_settings_editor.as_mut().expect("an editor");
    assert_eq!(
        editor.form_error.as_deref(),
        Some("Environment variable line 1 must be in KEY=VALUE form.")
    );
    editor.env_vars_text = "A=1".into();
    editor.additional_args_text = "--lang korean".into();
    let profile = app.save_review_settings().expect("a profile");
    assert_eq!(profile.login, "beta");
    assert_eq!(profile.review_settings.env_vars.get("A"), Some(&"1".to_owned()));
    app.review_settings_persisted(profile.clone(), Err(SecretStoreError::Io("x".into())));
    assert_eq!(
        app.review_settings_editor.as_ref().unwrap().form_error.as_deref(),
        Some("Unable to save review settings: I/O error while handling stored accounts: x")
    );
    app.review_settings_persisted(profile, Ok(()));
    assert!(app.review_settings_editor.is_none());
    assert_eq!(
        app.accounts[1].profile.review_settings.additional_args,
        vec!["--lang", "korean"]
    );
    assert_eq!(app.accounts[0].profile.review_settings, ReviewCommandSettings::default());
}

#[test]
fn review_settings_need_an_account_and_a_store() {
    let mut app = app_with_accounts(&["alpha"]);
    let editor = |login: &str| AccountReviewSettingsEditor {
        login: login.into(),
        env_vars_text: "".into(),
        additional_args_text: "".into(),
        form_error: None,
    };
    app.review_settings_editor = Some(editor("gone"));
    assert!(app.save_review_settings().is_none());
    assert!(app.review_settings_editor.is_none());
    assert_eq!(app.global_error.as_deref(), Some("Cannot find account settings for gone."));
    app.review_settings_editor = Some(editor("alpha"));
    assert!(app.save_review_settings().is_none());
    assert_eq!(
        app.review_settings_editor.as_ref().unwrap().form_error.as_deref(),
        Some("Local storage is not available; cannot save review settings right now.")
    );
    assert_eq!(app.review_settings_clicked(true, true, false), SettingsWindowStep::Save);
    assert!(app.review_settings_editor.is_some());
    assert_eq!(app.review_settings_clicked(false, false, true), SettingsWindowStep::Done);
    assert!(app.review_settings_editor.is_some());
    assert_eq!(app.review_settings_clicked(false, false, false), SettingsWindowStep::Done);
    assert!(app.review_settings_editor.is_none());
}

#[test]
fn stale_accounts_are_refreshed_once() {
    let mut app = app_with_accounts(&["alpha", "beta", "gamma"]);
    app.accounts[1].pending_job = true;
    let mut inbox = inbox_with_notifications(Vec::new());
    inbox.fetched_at = Timestamp { secs: 1000, nanos: 0 };
    app.accounts[2].inbox = Some(inbox);
    let soon = Timestamp { secs: 1100, nanos: 0 };
    let later = Timestamp { secs: 1180, nanos: 0 };
    assert_eq!(app.maybe_auto_refresh(soon), vec![0]);
    assert!(app.auto_refresh.last_run.is_some());
    // The interval has just begun.
    app.auto_refresh.interval_nanos = Duration::from_secs(3600).as_nanos();
    assert_eq!(app.maybe_auto_refresh(later), Vec::<usize>::new());
    assert_eq!(app.refresh_stale_accounts(later), vec![2]);
    assert_eq!(app.refresh_stale_accounts(later), Vec::<usize>::new());
    assert!(!app.refresh_account(0));
    assert!(!app.refresh_account(9));
    app.accounts[0].pending_job = false;
    assert!(app.refresh_account(0));
    assert!(refresh_due(None, 1_500_000_000));
    assert!(refresh_due(Some(1_500_000_000), 1_500_000_000));
    assert!(!refresh_due(Some(1_499_999_999), 1_500_000_000));
}

#[test]
fn the_next_refresh_comes_an_interval_after_the_last() {
    let hour = Duration::from_secs(3600);
    let mut scheduler = BatchRefreshScheduler::new(hour.as_nanos());
    scheduler.last_run = Instant::now().checked_sub(2 * hour);
    assert!(scheduler.should_trigger());
    scheduler.mark_triggered();
    assert!(!scheduler.should_trigger());
    scheduler.interval_nanos = 0;
    assert!(scheduler.should_trigger());

    let mut app = app_with_accounts(&["alpha"]);
    app.auto_refresh.interval_nanos = hour.as_nanos();
    app.auto_refresh.last_run = Instant::now().checked_sub(2 * hour);
    let soon = Timestamp { secs: 1100, nanos: 0 };
    assert_eq!(app.maybe_auto_refresh(soon), vec![0]);
    app.accounts[0].pending_job = false;
    assert_eq!(app.maybe_auto_refresh(soon), Vec::<usize>::new());
}

#[test]
fn windows_are_drawn_more_often_while_a_review_runs() {
    let mut app = app_with_accounts(&["alpha", "beta"]);
    assert_eq!(app.repaint_ms(), 500);
    app.accounts[1].request_review("1".into(), &launch(1));
    assert_eq!(app.repaint_ms(), 50);
}

#[test]
fn the_panel_lists_accounts_and_takes_clicks() {
    let mut app = stored_app(&["alpha", "beta"]);
    app.selected_account_login = Some("beta".into());
    let rows = app.tracked_accounts();
    assert_eq!(rows.len(), 2);
    assert!(!rows[0].is_selected && rows[1].is_selected);
    assert!(rows[1].heading.strong);
    assert_eq!(rows[0].badges[0].text, "No data yet");
    let step = app.account_list_clicked(AccountListClicks {
        selected_login: Some("alpha".into()),
        settings_login: Some("beta".into()),
        refresh_idx: Some(1),
        remove_idx: Some(0),
    });
    assert_eq!(step.sync, Some(1));
    assert_eq!(step.remove, Some(0));
    assert_eq!(app.selected_account_login.as_deref(), Some("alpha"));
    assert_eq!(app.review_settings_editor.as_ref().unwrap().login, "beta");
    assert!(app.accounts[1].pending_job);
    assert!(review_command_note(true).starts_with("Mapped repos"));
    assert!(review_command_note(false).starts_with("No custom"));
}

#[test]
fn the_dashboard_shows_the_selected_account() {
    let mut app = app_with_accounts(&[]);
    assert_eq!(
        app.dashboard(),
        Dashboard::Note("Add at least one GitHub account to start aggregating notifications.")
    );
    app.accounts.push(make_account("alpha"));
    app.accounts.push(make_account("beta"));
    assert_eq!(
        app.dashboard(),
        Dashboard::Note("Select an account on the left to view notifications.")
    );
    app.selected_account_login = Some("beta".into());
    assert_eq!(app.dashboard(), Dashboard::Account(1));
    assert_eq!(app.selected_account_index(), Some(1));
}

use reminder::app::ansi::{ansi_color_from_4bit, ansi_color_from_8bit, Rgb};
use reminder::app::review::{
    custom_review_available_for_repo, custom_review_command_path, format_review_failure_output,
    format_review_success_output, initial_review_output_state, resolve_review_launch,
    review_command_args, review_shell_label, review_summary_line, review_summary_text,
    review_window_title, trimmed_note, truncate_review_output, ReviewLaunchPlan,
};
use reminder::app::review_job::{
    drain_message, finish_message, keeps_mirror, read_step, review_stream_finish_banner,
    review_stream_start_banner, take_chunk, CancelEvent, CancelPhase, DrainStep, FinishWord,
    MirrorEvent, ReadStep, Received, ReviewJobMessage, ReviewRun, ReviewRunOutcome, RunEvent,
    RunPhase,
};
use reminder::app::review_output::{
    append_review_chunk, render_screen, review_output_plain_text, show_screen, ReviewOutputState,
    ReviewStatus,
};
use reminder::app::styled_text::{
    append_ansi_snapshot, keep_tail, strip_ansi_escape_codes, ReviewAnsiParserState,
};
use reminder::app::terminal::TerminalSnapshot;
use reminder::app::MAX_REVIEW_OUTPUT_CHARS;
use reminder::domain::ReviewCommandSettings;
use reminder::text_map::TextMap;
use reminder::time::Timestamp;

fn custom(pr_number: u64) -> ReviewLaunchPlan {
    ReviewLaunchPlan::Custom {
        repo: String::from("acme/repo"),
        repo_path: String::from("/tmp/acme-repo"),
        pr_number,
        review_settings: ReviewCommandSettings::default(),
    }
}

fn review_state() -> ReviewOutputState {
    initial_review_output_state(String::from("thread-1"), &custom(123))
}

fn at(secs: i64) -> Timestamp {
    Timestamp { secs, nanos: 0 }
}

#[test]
fn strip_ansi_escape_codes_removes_color_sequences() {
    let raw = "\u{1b}[32mreview ready\u{1b}[0m\n";

    assert_eq!(strip_ansi_escape_codes(raw), "review ready\n");
}

#[test]
fn strip_ansi_escape_codes_removes_osc_hyperlinks() {
    let raw = "\u{1b}]8;;https://example.com\u{7}open pr\u{1b}]8;;\u{7}";

    assert_eq!(strip_ansi_escape_codes(raw), "open pr");
}

#[test]
fn append_review_chunk_preserves_basic_ansi_styles_for_egui() {
    let mut review_output = review_state();

    append_review_chunk(&mut review_output, "\u{1b}[31mred\u{1b}[0m normal".as_bytes());

    assert_eq!(review_output_plain_text(&review_output), "red normal");
    assert_eq!(review_output.styled_spans.len(), 2);
    assert_eq!(
        review_output.styled_spans[0].style.foreground,
        Some(ansi_color_from_4bit(1, false))
    );
    assert_eq!(review_output.styled_spans[1].style.foreground, None);
}

#[test]
fn append_review_chunk_handles_split_escape_sequences() {
    let mut review_output = review_state();

    append_review_chunk(&mut review_output, "\u{1b}[31".as_bytes());
    append_review_chunk(&mut review_output, "mred".as_bytes());

    assert_eq!(review_output_plain_text(&review_output), "red");
    assert_eq!(
        review_output.styled_spans[0].style.foreground,
        Some(ansi_color_from_4bit(1, false))
    );
}

#[test]
fn append_review_chunk_overwrites_from_line_start_on_carriage_return() {
    let mut review_output = review_state();

    append_review_chunk(&mut review_output, "[Pasted ~2 lines]\rnext line".as_bytes());

    assert_eq!(
        review_output_plain_text(&review_output),
        "next line2 lines]"
    );
}

#[test]
fn append_review_chunk_preserves_crlf_newlines() {
    let mut review_output = review_state();

    append_review_chunk(&mut review_output, "first line\r\nsecond line".as_bytes());

    assert_eq!(
        review_output_plain_text(&review_output),
        "first line\nsecond line"
    );
}

#[test]
fn append_review_chunk_handles_split_carriage_return_rewrites() {
    let mut review_output = review_state();

    append_review_chunk(&mut review_output, "[Pasted ~2 lines]\r".as_bytes());
    append_review_chunk(&mut review_output, "next line".as_bytes());

    assert_eq!(
        review_output_plain_text(&review_output),
        "next line2 lines]"
    );
}

#[test]
fn append_review_chunk_handles_clear_line_rewrite_sequences() {
    let mut review_output = review_state();

    append_review_chunk(
        &mut review_output,
        "temporary status\r\u{1b}[2Kreal output".as_bytes(),
    );

    assert_eq!(review_output_plain_text(&review_output), "real output");
}

#[test]
fn append_review_chunk_keeps_latest_tail_when_trimming() {
    let mut review_output = initial_review_output_state(
        String::from("thread-1"),
        &ReviewLaunchPlan::Custom {
            repo: String::from("acme/repo"),
            repo_path: String::from("/tmp/acme-repo"),
            pr_number: 123,
            review_settings: ReviewCommandSettings::default(),
        },
    );

    append_review_chunk(&mut review_output, "a".repeat(MAX_REVIEW_OUTPUT_CHARS).as_bytes());
    append_review_chunk(&mut review_output, "TAIL".as_bytes());

    assert_eq!(review_output.dropped_chars, 4);
    assert!(review_output.content.ends_with("TAIL"));
}

#[test]
fn initial_review_output_state_tracks_thread_id_for_custom_reviews() {
    let review_output = initial_review_output_state(
        String::from("thread-42"),
        &ReviewLaunchPlan::Custom {
            repo: String::from("acme/repo"),
            repo_path: String::from("/tmp/acme-repo"),
            pr_number: 42,
            review_settings: ReviewCommandSettings::default(),
        },
    );

    assert_eq!(review_output.thread_id, "thread-42");
    assert_eq!(review_output.command_label, "review-pr");
    assert_eq!(review_output.status, ReviewStatus::Running);
}

#[test]
fn resolve_review_launch_prefers_custom_command_for_mapped_repo() {
    let mut repo_paths = TextMap::new();
    repo_paths.insert(String::from("acme/repo"), String::from("/tmp/acme-repo"));
    let mut env_vars = TextMap::new();
    env_vars.insert(String::from("FOO"), String::from("bar"));
    let review_settings = ReviewCommandSettings {
        env_vars,
        additional_args: vec![String::from("--lang"), String::from("korean")],
    };

    let launch = resolve_review_launch(
        &repo_paths,
        true,
        "Acme/Repo",
        123,
        &review_settings,
        "https://github.com/acme/repo/pull/123",
    );

    assert_eq!(
        launch,
        Some(ReviewLaunchPlan::Custom {
            repo: String::from("Acme/Repo"),
            repo_path: String::from("/tmp/acme-repo"),
            pr_number: 123,
            review_settings,
        })
    );
}

#[test]
fn resolve_review_launch_returns_none_without_repo_mapping() {
    let launch = resolve_review_launch(
        &TextMap::new(),
        true,
        "acme/repo",
        123,
        &ReviewCommandSettings::default(),
        "https://github.com/acme/repo/pull/123",
    );

    assert!(launch.is_none());
}

#[test]
fn format_review_success_output_prefers_stdout_and_keeps_diagnostics() {
    let output = format_review_success_output("final review body", "warning details");

    assert!(output.starts_with("final review body"));
    assert!(output.contains("Diagnostics:\nwarning details"));
}

#[test]
fn format_review_success_output_labels_stderr_only_as_diagnostics() {
    let output = format_review_success_output("", "warning details");

    assert_eq!(output, "Diagnostics:\nwarning details");
}

#[test]
fn format_review_failure_output_avoids_repeating_streamed_stdout() {
    let output = format_review_failure_output("1", "partial stdout", "error stderr");

    assert!(output.contains("stderr:\nerror stderr"));
    assert!(!output.contains("partial stdout"));
}

#[test]
fn truncate_review_output_adds_notice_when_content_is_large() {
    let text = "a".repeat(MAX_REVIEW_OUTPUT_CHARS + 5);

    let truncated = truncate_review_output(&text);

    assert!(truncated.contains("[truncated 5 trailing characters]"));
    assert!(truncated.starts_with(&"a".repeat(32)));
}

#[test]
fn review_summary_text_reports_cancelled_status() {
    let mut review_output = initial_review_output_state(
        String::from("thread-1"),
        &ReviewLaunchPlan::Custom {
            repo: String::from("acme/repo"),
            repo_path: String::from("/tmp/acme-repo"),
            pr_number: 123,
            review_settings: ReviewCommandSettings::default(),
        },
    );
    review_output.status = ReviewStatus::Cancelled;

    let summary = review_summary_text(&review_output);

    assert!(summary.starts_with("Review canceled:"));
}

// Launching ------------------------------------------------------------------

#[test]
fn reviews_need_a_command_and_a_checkout() {
    let mut repo_paths = TextMap::new();
    repo_paths.insert(String::from("acme/repo"), String::from("/tmp/acme-repo"));
    assert!(custom_review_available_for_repo(&repo_paths, true, " ACME/repo "));
    assert!(!custom_review_available_for_repo(&repo_paths, false, "acme/repo"));
    assert!(!custom_review_available_for_repo(&repo_paths, true, "acme/other"));
    assert!(!custom_review_available_for_repo(&repo_paths, true, "acme"));
}

#[test]
fn the_review_command_is_spelled_out() {
    let launch = ReviewLaunchPlan::Custom {
        repo: String::from("acme/repo"),
        repo_path: String::from("/tmp/acme-repo"),
        pr_number: 42,
        review_settings: ReviewCommandSettings {
            env_vars: TextMap::new(),
            additional_args: vec![String::from("--lang"), String::from("korean")],
        },
    };
    assert_eq!(review_shell_label(&launch), "acme/repo#42");
    assert_eq!(
        review_command_args(&launch),
        vec![
            "run", "--dir", "/tmp/acme-repo", "--command", "review-pr", "42", "--", "--lang",
            "korean"
        ]
    );
}

#[test]
fn the_command_file_is_looked_for_in_the_configuration_first() {
    assert_eq!(
        custom_review_command_path(Some("/cfg".into()), Some("/home".into())),
        Some(("/cfg".to_owned(), "opencode/commands/review-pr.md"))
    );
    assert_eq!(
        custom_review_command_path(None, Some("/home".into())),
        Some(("/home".to_owned(), ".config/opencode/commands/review-pr.md"))
    );
    assert_eq!(custom_review_command_path(None, None), None);
}

// Wording --------------------------------------------------------------------

#[test]
fn outputs_are_worded_by_what_there_is() {
    assert_eq!(format_review_success_output(" a \n", "\t"), "a");
    assert_eq!(
        format_review_success_output("a", "b"),
        "a\n\nDiagnostics:\nb"
    );
    assert_eq!(
        format_review_success_output("", ""),
        "opencode review completed with no output."
    );
    assert_eq!(
        format_review_failure_output("exit 1", "", ""),
        "opencode review exited unsuccessfully: exit 1"
    );
    assert_eq!(
        format_review_failure_output("exit 1", "x", " "),
        "opencode review failed after partial output: exit 1"
    );
    assert_eq!(
        format_review_failure_output("exit 1", "", "e"),
        "opencode review failed:\ne"
    );
    assert_eq!(
        format_review_failure_output("exit 1", "x", "e"),
        "opencode review failed after partial output. stderr:\ne"
    );
}

#[test]
fn long_output_is_cut_and_short_output_is_not() {
    let full = "é".repeat(MAX_REVIEW_OUTPUT_CHARS);
    assert_eq!(truncate_review_output(&full), full);
    let longer = format!("{full}xy");
    assert_eq!(
        truncate_review_output(&longer),
        format!("{full}\n\n[truncated 2 trailing characters]")
    );
}

#[test]
fn summaries_and_titles_go_by_the_status() {
    let mut review_output = review_state();
    assert_eq!(
        review_summary_text(&review_output),
        "Review running: acme/repo#123 via review-pr"
    );
    assert_eq!(review_window_title(&review_output), "Review in progress: acme/repo#123");
    review_output.status = ReviewStatus::Completed;
    review_output.captured_at = Some(at(0));
    assert!(review_summary_text(&review_output)
        .starts_with("Review ready: acme/repo#123 via review-pr at 19"));
    assert_eq!(
        review_summary_line(&review_output, Some("noon")),
        "Review ready: acme/repo#123 via review-pr at noon"
    );
    assert_eq!(review_window_title(&review_output), "Review output: acme/repo#123");
    review_output.status = ReviewStatus::Failed;
    assert_eq!(
        review_summary_line(&review_output, None),
        "Review failed: acme/repo#123 via review-pr"
    );
    assert_eq!(review_window_title(&review_output), "Review failed: acme/repo#123");
    review_output.status = ReviewStatus::Cancelled;
    assert_eq!(review_window_title(&review_output), "Review canceled: acme/repo#123");
    assert_eq!(trimmed_note(0), None);
    assert_eq!(trimmed_note(4).as_deref(), Some("[trimmed 4 leading characters]"));
}

// Output ---------------------------------------------------------------------

#[test]
fn output_may_be_cut_anywhere() {
    let bytes = "one\r\n\u{1b}[1;31mtwo\u{1b}[0m ж\r\n\r\nthree".as_bytes();
    let mut at_once = review_state();
    append_review_chunk(&mut at_once, bytes);
    for cut in 0..bytes.len() {
        let mut in_two = review_state();
        append_review_chunk(&mut in_two, &bytes[..cut]);
        append_review_chunk(&mut in_two, &bytes[cut..]);
        assert_eq!(in_two.content, at_once.content);
        assert_eq!(in_two.styled_spans, at_once.styled_spans);
    }
    assert_eq!(at_once.content, "one\ntwo ж\n\nthree");
    assert!(at_once.styled_spans[1].style.bold);
}

#[test]
fn screens_are_rendered_row_by_row() {
    let mut snapshot = TerminalSnapshot {
        plain_rows: vec!["ab".into(), "cd".into(), "".into(), "".into()],
        formatted_rows: vec!["\u{1b}[32mab".into(), "cd".into(), "".into(), "".into()],
        wrapped: vec![true, false, false, false],
        cursor_row: 0,
    };
    let spans = render_screen(&snapshot);
    assert_eq!(spans.len(), 1);
    assert_eq!(spans[0].text, "abcd");
    assert_eq!(spans[0].style.foreground, Some(ansi_color_from_4bit(2, false)));
    snapshot.wrapped[0] = false;
    snapshot.cursor_row = 3;
    let mut review_output = review_state();
    show_screen(&mut review_output, &snapshot);
    assert_eq!(review_output.content, "ab\ncd\n\n");
    // Line breaks have no style of their own.
    assert_eq!(review_output.styled_spans[1].text, "\n");
    assert_eq!(review_output.styled_spans[1].style.foreground, None);
    snapshot.cursor_row = 900;
    show_screen(&mut review_output, &snapshot);
    assert_eq!(review_output.content, "ab\ncd\n\n\n");
}

#[test]
fn long_screens_keep_their_tail() {
    let row = "x".repeat(MAX_REVIEW_OUTPUT_CHARS);
    let snapshot = TerminalSnapshot {
        plain_rows: vec!["abc".into(), row.clone()],
        formatted_rows: vec!["abc".into(), row.clone()],
        wrapped: vec![true, false],
        cursor_row: 1,
    };
    let mut review_output = review_state();
    show_screen(&mut review_output, &snapshot);
    assert_eq!(review_output.dropped_chars, 3);
    assert_eq!(review_output.content, row);
}

#[test]
fn spans_keep_their_styles_when_cut() {
    let mut spans = Vec::new();
    let mut state = ReviewAnsiParserState::default();
    append_ansi_snapshot(&mut spans, &mut state, "plain\u{1b}[4mline\u{1b}[24;3m!");
    assert_eq!(spans.len(), 3);
    assert_eq!(keep_tail(&mut spans, 3), 7);
    assert_eq!(spans.len(), 2);
    assert_eq!(spans[0].text, "ne");
    assert_eq!(spans[0].visible_chars, 2);
    assert!(spans[0].style.underline);
    assert!(spans[1].style.italic && !spans[1].style.underline);
    assert_eq!(keep_tail(&mut spans, 3), 0);
}

#[test]
fn colors_are_looked_up() {
    assert_eq!(ansi_color_from_4bit(0, true), Rgb { r: 102, g: 102, b: 102 });
    assert_eq!(ansi_color_from_4bit(9, false), Rgb { r: 220, g: 220, b: 220 });
    assert_eq!(ansi_color_from_8bit(1), Rgb { r: 205, g: 49, b: 49 });
    assert_eq!(ansi_color_from_8bit(15), Rgb { r: 255, g: 255, b: 255 });
    assert_eq!(ansi_color_from_8bit(16 + 36 + 2 * 6 + 5), Rgb { r: 95, g: 135, b: 255 });
    assert_eq!(ansi_color_from_8bit(232), Rgb { r: 8, g: 8, b: 8 });
    assert_eq!(ansi_color_from_8bit(255), Rgb { r: 238, g: 238, b: 238 });
    assert_eq!(ansi_color_from_8bit(256), Rgb { r: 220, g: 220, b: 220 });
}

#[test]
fn extended_colors_and_odd_codes_are_read() {
    let mut spans = Vec::new();
    let mut state = ReviewAnsiParserState::default();
    append_ansi_snapshot(
        &mut spans,
        &mut state,
        "\u{1b}[38;5;196ma\u{1b}[38;2;1;2;259mb\u{1b}[48;5;3;1mc\u{1b}[39;:;22md\u{1b}[me",
    );
    assert_eq!(spans[0].style.foreground, Some(Rgb { r: 255, g: 0, b: 0 }));
    assert_eq!(spans[1].style.foreground, Some(Rgb { r: 1, g: 2, b: 3 }));
    assert_eq!(spans[2].style.foreground, Some(Rgb { r: 1, g: 2, b: 3 }));
    assert!(spans[2].style.bold);
    assert_eq!(spans[3].style.foreground, None);
    assert!(!spans[3].style.bold);
    assert_eq!(spans[3].text, "de");
}

#[test]
fn stripping_leaves_plain_text_alone() {
    assert_eq!(strip_ansi_escape_codes("plain\ntext"), "plain\ntext");
    let once = strip_ansi_escape_codes("a\u{1b}Pq\u{1b}\u{1b}x\u{1b}\\b\u{1b}7c");
    assert_eq!(once, "abc");
    assert_eq!(strip_ansi_escape_codes(&once), once);
}

// Runs -----------------------------------------------------------------------

fn run() -> ReviewRun {
    ReviewRun::new("thread-1".into(), "acme/repo#1".into())
}

fn appended(message: Option<ReviewJobMessage>) -> String {
    match message {
        Some(ReviewJobMessage::Append { thread_id, bytes }) => {
            assert_eq!(thread_id, "thread-1");
            String::from_utf8(bytes).expect("text")
        }
        other => panic!("no output: {other:?}"),
    }
}

fn outcome(run: ReviewRun) -> Result<ReviewRunOutcome, String> {
    match run.phase {
        RunPhase::Done { outcome } => outcome,
        _ => panic!("the run is not done"),
    }
}

fn reading() -> ReviewRun {
    let (run, message) = run().step(RunEvent::Started);
    assert_eq!(message, None);
    let (run, message) = run.step(RunEvent::NotConnected("No shell.".into()));
    assert_eq!(
        appended(message),
        "[Shell streaming unavailable. This window still renders common ANSI styles inline.] No shell.\n\n"
    );
    let (run, _) = run.step(RunEvent::Registered { cancelled: false });
    assert!(matches!(run.phase, RunPhase::Read));
    run
}

fn joining(success: bool) -> ReviewRun {
    let (run, _) = reading().step(RunEvent::OutputRead("out".into()));
    let (run, _) = run.step(RunEvent::Waited { success, status: "exit status: 1".into() });
    run
}

#[test]
fn a_run_that_ends_well_is_completed() {
    let (run, _) = run().step(RunEvent::Started);
    let (run, _) = run.step(RunEvent::Connected);
    let (run, message) = run.step(RunEvent::Written);
    assert_eq!(
        appended(message),
        "\n[reminder] review stream started for acme/repo#1\n"
    );
    assert!(run.mirrored);
    let (run, _) = run.step(RunEvent::Registered { cancelled: false });
    let (run, _) = run.step(RunEvent::OutputRead("out".into()));
    let (run, _) = run.step(RunEvent::Waited { success: true, status: "exit status: 0".into() });
    let (run, _) = run.step(RunEvent::Joined { cancelled: true, stderr: "".into() });
    let (run, message) = run.step(RunEvent::Written);
    assert_eq!(
        appended(message),
        "\n[reminder] review stream completed for acme/repo#1\n"
    );
    assert_eq!(outcome(run), Ok(ReviewRunOutcome::Completed));
}

#[test]
fn a_run_that_fails_says_why() {
    let (run, _) = joining(false).step(RunEvent::Joined { cancelled: false, stderr: "bad".into() });
    let (run, message) = run.step(RunEvent::WriteFailed("gone".into()));
    assert_eq!(
        appended(message),
        "\n\n[Shell streaming stopped while finishing: gone. The window kept the remaining review output inline.]\n\n"
    );
    assert!(!run.mirrored);
    assert_eq!(
        outcome(run),
        Err("opencode review failed after partial output. stderr:\nbad".into())
    );
}

#[test]
fn a_run_that_was_stopped_is_cancelled() {
    for event in [
        RunEvent::Joined { cancelled: true, stderr: "bad".into() },
        RunEvent::DiagnosticsFailed { cancelled: true, error: "bad".into() },
        RunEvent::JoinFailed { cancelled: true },
    ] {
        let (run, _) = joining(false).step(event);
        let (run, message) = run.step(RunEvent::NotMirrored);
        assert_eq!(message, None);
        assert_eq!(
            outcome(run),
            Ok(ReviewRunOutcome::Cancelled("Review canceled by user.".into()))
        );
    }
    let (run, _) = reading().step(RunEvent::OutputRead("out".into()));
    let (run, _) = run.step(RunEvent::WaitFailed { cancelled: true, error: "x".into() });
    assert_eq!(
        outcome(run),
        Ok(ReviewRunOutcome::Cancelled("Review canceled by user.".into()))
    );
}

#[test]
fn every_way_to_fail_has_its_words() {
    let fail = |run: ReviewRun, event: RunEvent| outcome(run.step(event).0);
    assert_eq!(
        fail(run(), RunEvent::StartFailed("x".into())),
        Err("Failed to start review: x".into())
    );
    assert_eq!(fail(run(), RunEvent::OutputMissing), Err("Failed to capture stdout.".into()));
    assert_eq!(
        fail(run(), RunEvent::DiagnosticsMissing),
        Err("Failed to capture stderr.".into())
    );
    assert_eq!(fail(reading(), RunEvent::OutputFailed("x".into())), Err("x".into()));
    let waiting = || reading().step(RunEvent::OutputRead("out".into())).0;
    assert_eq!(
        fail(waiting(), RunEvent::LockPoisoned),
        Err("Review process lock poisoned unexpectedly.".into())
    );
    assert_eq!(
        fail(waiting(), RunEvent::HandleMissing),
        Err("Review process handle missing while waiting.".into())
    );
    assert_eq!(
        fail(waiting(), RunEvent::WaitFailed { cancelled: false, error: "x".into() }),
        Err("Failed while waiting for review: x".into())
    );
    assert_eq!(
        fail(joining(true), RunEvent::DiagnosticsFailed { cancelled: false, error: "x".into() }),
        Err("x".into())
    );
    assert_eq!(
        fail(joining(true), RunEvent::JoinFailed { cancelled: false }),
        Err("Failed to join opencode diagnostics reader.".into())
    );
    let registering = || {
        let (run, _) = run().step(RunEvent::Started);
        run.step(RunEvent::NotConnected("x".into())).0
    };
    assert_eq!(
        fail(registering(), RunEvent::LockPoisoned),
        Err("Review process lock poisoned unexpectedly.".into())
    );
    let killing = || registering().step(RunEvent::Registered { cancelled: true }).0;
    assert!(matches!(killing().phase, RunPhase::Kill));
    assert!(matches!(killing().step(RunEvent::Killed).0.phase, RunPhase::Read));
    assert!(matches!(
        killing()
            .step(RunEvent::KillFailed { invalid_input: true, error: "k".into() })
            .0
            .phase,
        RunPhase::Read
    ));
    let inspecting = || {
        killing().step(RunEvent::KillFailed { invalid_input: false, error: "k".into() }).0
    };
    assert!(matches!(
        inspecting().step(RunEvent::Inspected { exited: true }).0.phase,
        RunPhase::Read
    ));
    assert_eq!(
        fail(inspecting(), RunEvent::Inspected { exited: false }),
        Err("Failed to stop review: k".into())
    );
    assert_eq!(
        fail(inspecting(), RunEvent::InspectFailed("w".into())),
        Err("Failed to inspect review process after early stop failure: w".into())
    );
}

#[test]
fn runs_wait_for_their_events() {
    let (run, message) = run().step(RunEvent::Killed);
    assert!(matches!(run.phase, RunPhase::Start));
    assert_eq!(message, None);
    let (done, _) = run.step(RunEvent::StartFailed("x".into()));
    let (done, message) = done.step(RunEvent::Started);
    assert_eq!(message, None);
    assert_eq!(outcome(done), Err("Failed to start review: x".into()));
}

#[test]
fn a_shell_that_does_not_take_the_banner_is_not_used() {
    let (run, _) = run().step(RunEvent::Started);
    let (run, _) = run.step(RunEvent::Connected);
    let (run, message) = run.step(RunEvent::WriteFailed("gone".into()));
    assert!(appended(message).ends_with("] gone\n\n"));
    assert!(!run.mirrored);
    assert!(matches!(run.phase, RunPhase::Register));
}

#[test]
fn banners_name_the_review() {
    assert_eq!(
        review_stream_start_banner("a#1"),
        b"\n[reminder] review stream started for a#1\n".to_vec()
    );
    assert_eq!(
        review_stream_finish_banner("a#1", FinishWord::Cancelled),
        b"\n[reminder] review stream cancelled for a#1\n".to_vec()
    );
    assert_eq!(
        review_stream_finish_banner("a#1", FinishWord::Failed),
        b"\n[reminder] review stream failed for a#1\n".to_vec()
    );
}

#[test]
fn reads_are_taken_up_until_the_stream_ends() {
    assert!(matches!(read_step(Ok(3), true, "output"), ReadStep::Take));
    assert!(matches!(read_step(Ok(0), false, "output"), ReadStep::End));
    assert!(matches!(read_step(Err("x".into()), true, "output"), ReadStep::End));
    match read_step(Err("x".into()), false, "diagnostics") {
        ReadStep::Fail(message) => assert_eq!(message, "Failed to read diagnostics: x"),
        _ => panic!("the read counts"),
    }
}

#[test]
fn chunks_are_captured_without_escape_codes_and_sent_as_they_are() {
    let mut capture = String::from("a");
    let messages = take_chunk(&mut capture, "t", b"\x1b[31mred\xff", &MirrorEvent::Written);
    assert_eq!(capture, "ared\u{fffd}");
    assert_eq!(
        messages,
        vec![ReviewJobMessage::Append {
            thread_id: "t".into(),
            bytes: b"\x1b[31mred\xff".to_vec()
        }]
    );
    let messages = take_chunk(&mut capture, "t", b"x", &MirrorEvent::WriteFailed("gone".into()));
    assert_eq!(messages.len(), 2);
    assert_eq!(
        messages[0],
        ReviewJobMessage::Append {
            thread_id: "t".into(),
            bytes: b"\n\n[Shell streaming stopped: gone. The window will keep rendering the review inline.]\n\n"
                .to_vec()
        }
    );
    let messages = take_chunk(&mut capture, "t", b"y", &MirrorEvent::LockLost);
    assert_eq!(
        messages[0],
        ReviewJobMessage::Append {
            thread_id: "t".into(),
            bytes: b"\n\n[Shell streaming stopped because the shell output lock became unavailable.]\n\n"
                .to_vec()
        }
    );
    assert_eq!(capture, "ared\u{fffd}xy");
    assert!(keeps_mirror(&MirrorEvent::Written));
    assert!(keeps_mirror(&MirrorEvent::NotMirrored));
    assert!(!keeps_mirror(&MirrorEvent::WriteFailed("x".into())));
}

#[test]
fn messages_are_taken_up_to_the_last() {
    let mut messages = Vec::new();
    let append = ReviewJobMessage::Append { thread_id: "t".into(), bytes: vec![1] };
    let step = drain_message(&mut messages, Received::Message(append), "t", at(7));
    assert_eq!(step, DrainStep::Again);
    let step = drain_message(&mut messages, Received::Empty, "t", at(7));
    assert_eq!(step, DrainStep::Stop { finished: false });
    assert_eq!(messages.len(), 1);
    let done = finish_message("t", Ok(ReviewRunOutcome::Completed), at(5));
    let step = drain_message(&mut messages, Received::Message(done), "t", at(7));
    assert_eq!(step, DrainStep::Stop { finished: true });
    assert_eq!(
        messages[1],
        ReviewJobMessage::FinishedSuccess { thread_id: "t".into(), captured_at: at(5) }
    );
    let mut messages = Vec::new();
    let step = drain_message(&mut messages, Received::Disconnected, "t", at(7));
    assert_eq!(step, DrainStep::Stop { finished: true });
    assert_eq!(
        messages[0],
        ReviewJobMessage::FinishedFailure {
            thread_id: "t".into(),
            captured_at: at(7),
            message: "Review worker disconnected unexpectedly.".into(),
        }
    );
    assert_eq!(
        finish_message("t", Ok(ReviewRunOutcome::Cancelled("c".into())), at(1)),
        ReviewJobMessage::FinishedCancelled {
            thread_id: "t".into(),
            captured_at: at(1),
            _message: "c".into(),
        }
    );
}

#[test]
fn stopping_a_review_answers_whether_it_was_stopped() {
    let answer = |phase: CancelPhase, event: CancelEvent| match phase.step(event) {
        CancelPhase::Answer(answer) => answer,
        other => panic!("no answer: {other:?}"),
    };
    assert_eq!(answer(CancelPhase::Look, CancelEvent::NoProcess), Ok(true));
    assert_eq!(answer(CancelPhase::Look, CancelEvent::Looked { exited: true }), Ok(false));
    assert_eq!(
        answer(CancelPhase::Look, CancelEvent::LockPoisoned),
        Err("Review process lock poisoned unexpectedly.".into())
    );
    assert_eq!(
        answer(CancelPhase::Look, CancelEvent::LookFailed("x".into())),
        Err("Failed to inspect review process state: x".into())
    );
    assert_eq!(
        CancelPhase::Look.step(CancelEvent::Looked { exited: false }),
        CancelPhase::Kill
    );
    assert_eq!(answer(CancelPhase::Kill, CancelEvent::Killed), Ok(true));
    let inspect = |invalid_input: bool| {
        CancelPhase::Kill.step(CancelEvent::KillFailed { invalid_input, error: "k".into() })
    };
    assert_eq!(answer(inspect(false), CancelEvent::Looked { exited: true }), Ok(false));
    assert_eq!(answer(inspect(true), CancelEvent::Looked { exited: false }), Ok(false));
    assert_eq!(
        answer(inspect(false), CancelEvent::Looked { exited: false }),
        Err("Failed to stop review: k".into())
    );
    assert_eq!(
        answer(inspect(true), CancelEvent::LookFailed("x".into())),
        Err("Failed to inspect review process after stop failure: x".into())
    );
    assert_eq!(
        answer(CancelPhase::Answer(Ok(true)), CancelEvent::Looked { exited: true }),
        Ok(true)
    );
}

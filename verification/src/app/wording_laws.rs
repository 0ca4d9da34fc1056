//! What holds of how reviews are run and of what is said of them.
use vstd::prelude::*;

use crate::app::repo_paths::repo_key;
use crate::app::review::{
    command_args, command_path, custom_review_available, failure_output, launch_for, status_words,
    success_output, summarizes, target_of, truncated_output, window_title, ReviewLaunchPlan,
    REVIEW_PROGRAM,
};
use crate::app::review_output::{ReviewOutputState, ReviewStatus};
use crate::app::scheduler::NANOS_PER_SEC;
use crate::app::{
    ACTIVE_REVIEW_REPAINT_MS, AUTO_REFRESH_INTERVAL_SECS, IDLE_REPAINT_MS, MAX_REVIEW_OUTPUT_CHARS,
};
use crate::decimal::decimal;
use crate::domain::SettingsView;
use crate::text::is_white_space;
use crate::text_laws::{is_blank, law_trimming};

verus! {

// ---------------------------------------------------------------------------
// Running
// ---------------------------------------------------------------------------

/// Pull requests of a repository can be reviewed exactly where there is a command for it and
/// the repository has a checkout under its key.
pub proof fn law_where_reviews_can_be_run(
    repo_paths: Map<Seq<char>, Seq<char>>,
    custom_review_command: bool,
    repo: Seq<char>,
)
    ensures
        !custom_review_command ==> !custom_review_available(repo_paths, false, repo),
        repo_key(repo) is None ==> !custom_review_available(
            repo_paths,
            custom_review_command,
            repo,
        ),
        repo_key(repo) matches Some(key) ==> (custom_review_available(repo_paths, true, repo)
            <==> repo_paths.dom().contains(key)),
{
}

/// A plan is seen as the repository, the path, the number and the settings that it holds, and
/// named by the repository and the number.
pub proof fn law_plans(launch: ReviewLaunchPlan)
    ensures
        launch matches ReviewLaunchPlan::Custom { repo, repo_path, pr_number, review_settings } ==> {
            &&& launch@.repo == repo@
            &&& launch@.repo_path == repo_path@
            &&& launch@.pr_number == pr_number
            &&& launch@.review_settings == review_settings@
            &&& target_of(launch@) == repo@ + "#"@ + decimal(pr_number as nat)
        },
{
}

/// The program that reviews is told to run the command `review-pr` with the number of the pull
/// request in the checkout, and is handed the additional arguments behind two dashes.
pub proof fn law_commands(repo_path: Seq<char>, pr_number: nat, more: Seq<Seq<char>>, i: int)
    ensures
        REVIEW_PROGRAM@ == "opencode"@,
        ({
            let args = command_args(repo_path, pr_number, more);
            &&& args.len() == 7 + more.len()
            &&& args[0] == "run"@
            &&& args[1] == "--dir"@
            &&& args[2] == repo_path
            &&& args[3] == "--command"@
            &&& args[4] == "review-pr"@
            &&& args[5] == decimal(pr_number)
            &&& args[6] == "--"@
            &&& 0 <= i < more.len() ==> args[7 + i] == more[i]
        }),
{
}

// ---------------------------------------------------------------------------
// Wording
// ---------------------------------------------------------------------------

/// A review that succeeded shows its output, with its diagnostics behind it where there are
/// any, both without the white space around them; where there is nothing to show, that is
/// said.
pub proof fn law_success_is_worded(
    a: Seq<char>,
    out: Seq<char>,
    b: Seq<char>,
    c: Seq<char>,
    err: Seq<char>,
    d: Seq<char>,
)
    requires
        is_blank(a) && is_blank(b) && is_blank(c) && is_blank(d),
        out.len() > 0 ==> !is_white_space(out[0]) && !is_white_space(out[out.len() - 1]),
        err.len() > 0 ==> !is_white_space(err[0]) && !is_white_space(err[err.len() - 1]),
    ensures
        success_output(a + out + b, c + err + d) == if out.len() > 0 && err.len() > 0 {
            out + "\n\nDiagnostics:\n"@ + err
        } else if out.len() > 0 {
            out
        } else if err.len() > 0 {
            "Diagnostics:\n"@ + err
        } else {
            "opencode review completed with no output."@
        },
{
    law_trimming(a, out, b);
    law_trimming(c, err, d);
}

/// Of a review that failed its diagnostics are shown where there are any, else how it exited;
/// whether it put anything out before is said. Its output is not repeated.
pub proof fn law_failure_is_worded(
    status: Seq<char>,
    a: Seq<char>,
    out: Seq<char>,
    b: Seq<char>,
    c: Seq<char>,
    err: Seq<char>,
    d: Seq<char>,
)
    requires
        is_blank(a) && is_blank(b) && is_blank(c) && is_blank(d),
        out.len() > 0 ==> !is_white_space(out[0]) && !is_white_space(out[out.len() - 1]),
        err.len() > 0 ==> !is_white_space(err[0]) && !is_white_space(err[err.len() - 1]),
    ensures
        failure_output(status, a + out + b, c + err + d) == if err.len() > 0 && out.len() > 0 {
            "opencode review failed after partial output. stderr:\n"@ + err
        } else if err.len() > 0 {
            "opencode review failed:\n"@ + err
        } else if out.len() > 0 {
            "opencode review failed after partial output: "@ + status
        } else {
            "opencode review exited unsuccessfully: "@ + status
        },
{
    law_trimming(a, out, b);
    law_trimming(c, err, d);
}

/// A text of at most 20000 characters is left as it is; of a longer one the first 20000 are
/// kept, and how many more there were is noted behind them.
pub proof fn law_truncating(head: Seq<char>, rest: Seq<char>)
    ensures
        head.len() <= 20000 ==> truncated_output(head) == head,
        head.len() == 20000 && rest.len() > 0 ==> truncated_output(head + rest) == head
            + "\n\n[truncated "@ + decimal(rest.len()) + " trailing characters]"@,
        MAX_REVIEW_OUTPUT_CHARS == 20000,
{
    if head.len() == 20000 && rest.len() > 0 {
        assert((head + rest).take(20000) =~= head);
    }
}

/// How a review stands is said in words of its own for each case.
pub proof fn law_words_for_reviews(target: Seq<char>)
    ensures
        status_words(ReviewStatus::Running) == "Review running"@,
        status_words(ReviewStatus::Completed) == "Review ready"@,
        status_words(ReviewStatus::Cancelled) == "Review canceled"@,
        status_words(ReviewStatus::Failed) == "Review failed"@,
        window_title(ReviewStatus::Running, target) == "Review in progress: "@ + target,
        window_title(ReviewStatus::Completed, target) == "Review output: "@ + target,
        window_title(ReviewStatus::Cancelled, target) == "Review canceled: "@ + target,
        window_title(ReviewStatus::Failed, target) == "Review failed: "@ + target,
{
}

/// The line on a review says how it stands, what it is about and which command it ran, and
/// when it ended where it has.
pub proof fn law_lines_on_reviews(line: Seq<char>, output: ReviewOutputState)
    requires
        summarizes(line, output),
    ensures
        ({
            let words = match output.status {
                ReviewStatus::Running => "Review running"@,
                ReviewStatus::Completed => "Review ready"@,
                ReviewStatus::Cancelled => "Review canceled"@,
                ReviewStatus::Failed => "Review failed"@,
            };
            let start = words + ": "@ + output.target@ + " via "@ + output.command_label@;
            &&& output.captured_at is None ==> line == start
            &&& output.captured_at matches Some(at) ==> (at.is_date() <==> exists|when: Option<
                String,
            >|
                #[trigger] at.can_read_locally(when) && (when matches Some(text) && line == start
                    + " at "@ + text@)) && (!at.is_date() ==> line == start)
        }),
{
    if let Some(at) = output.captured_at {
        let words = match output.status {
            ReviewStatus::Running => "Review running"@,
            ReviewStatus::Completed => "Review ready"@,
            ReviewStatus::Cancelled => "Review canceled"@,
            ReviewStatus::Failed => "Review failed"@,
        };
        let start = words + ": "@ + output.target@ + " via "@ + output.command_label@;
        reveal_strlit(" at ");
        if !at.is_date() {
            assert forall|when: Option<String>| #[trigger] at.can_read_locally(when) implies !(
            when matches Some(text) && line == start + " at "@ + text@) by {
                if let Some(text) = when {
                    assert((start + " at "@ + text@).len() > start.len());
                }
            }
        }
    }
}

/// Refreshes come every three minutes. Windows are drawn again every 50 milliseconds while a
/// review runs, and twice a second otherwise.
pub proof fn law_timings()
    ensures
        AUTO_REFRESH_INTERVAL_SECS == 180,
        AUTO_REFRESH_INTERVAL_SECS * NANOS_PER_SEC == 180000000000,
        ACTIVE_REVIEW_REPAINT_MS == 50,
        IDLE_REPAINT_MS == 500,
{
}

/// A review can be launched exactly where there is a command for it and its repository has a
/// checkout under its key: in that checkout, of that pull request, with those settings.
pub proof fn law_launching(
    repo_paths: Map<Seq<char>, Seq<char>>,
    custom_review_command: bool,
    repo: Seq<char>,
    pr_number: u64,
    settings: SettingsView,
    launch: Option<ReviewLaunchPlan>,
)
    requires
        launch_for(repo_paths, custom_review_command, repo, pr_number, settings, launch),
    ensures
        launch is Some <==> custom_review_command && (repo_key(repo) matches Some(key)
            && repo_paths.dom().contains(key)),
        launch matches Some(ReviewLaunchPlan::Custom {
            repo: name,
            repo_path,
            pr_number: number,
            review_settings,
        }) ==> name@ == repo && repo_path@ == repo_paths[repo_key(repo)->0] && number == pr_number
            && review_settings@ == settings,
{
}

/// The custom command is defined below the configuration directory where one is set, and else
/// below the home directory.
pub proof fn law_where_the_command_is_defined(
    config_home: Option<String>,
    home: Option<String>,
    path: Option<(String, &'static str)>,
)
    requires
        command_path(config_home, home, path),
    ensures
        path is None <==> config_home is None && home is None,
        path matches Some((base, below)) ==> match config_home {
            Some(dir) => base@ == dir@ && below@ == "opencode/commands/review-pr.md"@,
            None => base@ == home->0@ && below@ == ".config/opencode/commands/review-pr.md"@,
        },
{
}

} // verus!

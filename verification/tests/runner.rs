use simple_git_tui::git::LfsMode;
use simple_git_tui::runner::{run_git_with_lfs, Outcome, Stage};

fn finished(stdout: &str, stderr: &str, code: Option<i32>) -> Outcome {
    Outcome::Finished { stdout: stdout.to_string(), stderr: stderr.to_string(), code }
}

fn failed(error: &str) -> Outcome {
    Outcome::Failed { error: error.to_string() }
}

#[test]
fn empty_command_launches_nothing() {
    let run = run_git_with_lfs("   ", LfsMode::Pull);
    assert!(run.is_done());
    assert!(run.command().is_empty());
    let res = run.into_result();
    assert!(res.log_lines.is_empty());
    assert_eq!(res.result_lines, vec!["$ git    ", "ERROR: empty git command"]);
}

#[test]
fn command_without_follow_up() {
    let mut run = run_git_with_lfs("status -sb", LfsMode::Off);
    assert_eq!(run.stage(), Stage::Primary);
    assert_eq!(run.command(), &vec!["status".to_string(), "-sb".to_string()]);
    run.advance(&finished("## main\n M a.rs\n", "", Some(0)), false);
    assert!(run.is_done());
    assert!(run.command().is_empty());
    let res = run.into_result();
    assert_eq!(res.log_lines, vec!["## main", " M a.rs"]);
    assert_eq!(res.result_lines, vec!["$ git status -sb", "git exit code: 0"]);
}

#[test]
fn empty_output_is_said_in_a_line() {
    let mut run = run_git_with_lfs("add -A", LfsMode::Off);
    run.advance(&finished("", "", Some(0)), false);
    let res = run.into_result();
    assert_eq!(res.log_lines, vec!["<no stdout from git>"]);
}

#[test]
fn error_stream_and_exit_code_are_reported() {
    let mut run = run_git_with_lfs("push", LfsMode::Off);
    run.advance(&finished("", "fatal: no remote\r\nhint: add one\n", Some(128)), false);
    let res = run.into_result();
    assert_eq!(
        res.result_lines,
        vec!["$ git push", "git exit code: 128", "--- git stderr ---", "fatal: no remote", "hint: add one"]
    );
}

#[test]
fn missing_and_negative_exit_codes() {
    let mut run = run_git_with_lfs("x", LfsMode::Off);
    run.advance(&finished("", "", None), false);
    assert_eq!(run.into_result().result_lines, vec!["$ git x", "git exit code: -1"]);
    let mut run = run_git_with_lfs("x", LfsMode::Off);
    run.advance(&finished("", "", Some(i32::MIN)), false);
    assert_eq!(run.into_result().result_lines, vec!["$ git x", "git exit code: -2147483648"]);
    let mut run = run_git_with_lfs("x", LfsMode::Off);
    run.advance(&finished("", "", Some(i32::MAX)), false);
    assert_eq!(run.into_result().result_lines, vec!["$ git x", "git exit code: 2147483647"]);
}

#[test]
fn failed_launch_ends_the_run() {
    let mut run = run_git_with_lfs("pull", LfsMode::Pull);
    run.advance(&failed("No such file or directory"), false);
    assert!(run.is_done());
    let res = run.into_result();
    assert!(res.log_lines.is_empty());
    assert_eq!(
        res.result_lines,
        vec!["$ git pull", "ERROR: failed to run git: No such file or directory"]
    );
}

#[test]
fn pull_follow_up_gets_its_own_section() {
    let mut run = run_git_with_lfs("pull", LfsMode::Pull);
    run.advance(&finished("Already up to date.\n", "", Some(0)), false);
    assert_eq!(run.stage(), Stage::FollowUp);
    assert_eq!(run.command(), &vec!["lfs".to_string(), "pull".to_string()]);
    run.advance(&finished("Downloading a.bin\n", "warn\n", Some(2)), false);
    assert!(run.is_done());
    let res = run.into_result();
    assert_eq!(
        res.log_lines,
        vec!["Already up to date.", "", "--- git lfs pull ---", "Downloading a.bin"]
    );
    assert_eq!(
        res.result_lines,
        vec![
            "$ git pull",
            "git exit code: 0",
            "",
            "== git lfs pull ==",
            "git lfs pull exit code: 2",
            "--- git lfs stderr ---",
            "warn",
        ]
    );
}

#[test]
fn fetch_follow_up_without_output_adds_no_section() {
    let mut run = run_git_with_lfs("fetch origin", LfsMode::Fetch);
    run.advance(&finished("", "", Some(0)), false);
    assert_eq!(
        run.command(),
        &vec!["lfs".to_string(), "fetch".to_string(), "--all".to_string()]
    );
    run.advance(&finished("", "", Some(0)), false);
    let res = run.into_result();
    assert_eq!(res.log_lines, vec!["<no stdout from git>"]);
    assert_eq!(
        res.result_lines,
        vec![
            "$ git fetch origin",
            "git exit code: 0",
            "",
            "== git lfs fetch --all ==",
            "git lfs fetch exit code: 0",
        ]
    );
}

#[test]
fn fetch_follow_up_with_output() {
    let mut run = run_git_with_lfs("fetch", LfsMode::Fetch);
    run.advance(&finished("x\n", "", Some(0)), false);
    run.advance(&finished("y\n", "", Some(0)), false);
    let res = run.into_result();
    assert_eq!(res.log_lines, vec!["x", "", "--- git lfs fetch --all ---", "y"]);
}

#[test]
fn follow_up_that_cannot_start() {
    let mut run = run_git_with_lfs("pull", LfsMode::Fetch);
    run.advance(&finished("ok\n", "", Some(0)), false);
    run.advance(&failed("denied"), false);
    assert!(run.is_done());
    let res = run.into_result();
    assert_eq!(res.log_lines, vec!["ok"]);
    assert_eq!(
        res.result_lines.last().unwrap(),
        "ERROR: failed to run git lfs fetch: denied"
    );
    let mut run = run_git_with_lfs("pull", LfsMode::Pull);
    run.advance(&finished("ok\n", "", Some(0)), false);
    run.advance(&failed("denied"), false);
    assert_eq!(
        run.into_result().result_lines.last().unwrap(),
        "ERROR: failed to run git lfs pull: denied"
    );
}

#[test]
fn cancel_during_command_skips_pull_follow_up() {
    let mut run = run_git_with_lfs("pull", LfsMode::Pull);
    run.advance(&finished("Updating 1..2\nFast-forward\n", "", Some(0)), true);
    assert!(run.is_done());
    assert!(run.command().is_empty());
    let res = run.into_result();
    assert_eq!(res.log_lines, vec!["Updating 1..2", "Fast-forward"]);
    assert_eq!(
        res.result_lines,
        vec!["$ git pull", "git exit code: 0", "<canceled before LFS stage>"]
    );
    assert!(!res.result_lines.iter().any(|l| l.contains("lfs pull")));
    assert!(!res.log_lines.iter().any(|l| l.contains("lfs")));
}

#[test]
fn cancel_without_follow_up_is_noted_too() {
    let mut run = run_git_with_lfs("status", LfsMode::Off);
    run.advance(&finished("", "", Some(0)), true);
    assert_eq!(
        run.into_result().result_lines,
        vec!["$ git status", "git exit code: 0", "<canceled before LFS stage>"]
    );
}

#[test]
fn cancel_after_failed_launch_adds_no_note() {
    let mut run = run_git_with_lfs("status", LfsMode::Pull);
    run.advance(&failed("gone"), true);
    assert_eq!(
        run.into_result().result_lines,
        vec!["$ git status", "ERROR: failed to run git: gone"]
    );
}

#[test]
fn cancel_flag_does_not_touch_a_follow_up_under_way() {
    let mut run = run_git_with_lfs("pull", LfsMode::Pull);
    run.advance(&finished("a\n", "", Some(0)), false);
    run.advance(&finished("b\n", "", Some(0)), true);
    let res = run.into_result();
    assert_eq!(res.log_lines, vec!["a", "", "--- git lfs pull ---", "b"]);
    assert_eq!(res.result_lines.last().unwrap(), "git lfs pull exit code: 0");
}

#[test]
fn finished_run_ignores_further_outcomes() {
    let mut run = run_git_with_lfs("status", LfsMode::Off);
    run.advance(&finished("a\n", "", Some(0)), false);
    run.advance(&finished("b\n", "", Some(1)), false);
    let res = run.into_result();
    assert_eq!(res.log_lines, vec!["a"]);
    assert_eq!(res.result_lines, vec!["$ git status", "git exit code: 0"]);
}

#[test]
fn quoted_arguments_reach_the_command_whole() {
    let run = run_git_with_lfs("commit -m \"two words\"", LfsMode::Off);
    assert_eq!(
        run.command(),
        &vec!["commit".to_string(), "-m".to_string(), "two words".to_string()]
    );
}

use simple_git_tui::command_line::{
    build_diff_command, clean_operands, discard_command, is_commit_needing_editor,
    quoted_operands, requires_interactive, stage_command, untracked_diff_command, Platform,
};
use simple_git_tui::config::CommandConfig;
use simple_git_tui::git::RepoFile;

fn file(status: &str, path: &str) -> RepoFile {
    RepoFile { status: status.to_string(), path: path.to_string() }
}

fn strings(v: &[&str]) -> Vec<String> {
    v.iter().map(|s| s.to_string()).collect()
}

#[test]
fn operands_are_cleaned_and_quoted() {
    let f = file("R ", "\"old name.txt\" -> \"new name.txt\"");
    assert_eq!(clean_operands(&f), vec!["old name.txt", "new name.txt"]);
    assert_eq!(quoted_operands(&f), "\"old name.txt\" \"new name.txt\"");
    let g = file(" M", "src/a.rs");
    assert_eq!(clean_operands(&g), vec!["src/a.rs"]);
    assert_eq!(quoted_operands(&g), "\"src/a.rs\"");
}

#[test]
fn stage_toggle_commands() {
    assert_eq!(stage_command(&file(" M", "a.rs")), "add -- \"a.rs\"");
    assert_eq!(stage_command(&file("??", "a.rs")), "add -- \"a.rs\"");
    assert_eq!(stage_command(&file(" D", "a.rs")), "add -u -- \"a.rs\"");
    assert_eq!(stage_command(&file("M ", "a.rs")), "restore --staged -- \"a.rs\"");
    assert_eq!(stage_command(&file("MD", "a.rs")), "restore --staged -- \"a.rs\"");
    assert_eq!(
        stage_command(&file("R ", "a.rs -> b.rs")),
        "restore --staged -- \"a.rs\" \"b.rs\""
    );
    assert_eq!(stage_command(&file("", "a.rs")), "add -- \"a.rs\"");
}

#[test]
fn discard_commands() {
    assert_eq!(discard_command(&file("??", "tmp/")), "clean -fd -- \"tmp/\"");
    assert_eq!(
        discard_command(&file(" M", "a.rs")),
        "restore --staged --worktree -- \"a.rs\""
    );
}

#[test]
fn diff_with_default_template() {
    let (argv, label) = build_diff_command(&None, &strings(&["a.rs"]));
    assert_eq!(argv, vec!["diff", "HEAD", "--", "a.rs"]);
    assert_eq!(label, "git diff HEAD -- a.rs");
}

#[test]
fn diff_with_placeholder() {
    let t = Some("git diff --stat {files} --color".to_string());
    let (argv, label) = build_diff_command(&t, &strings(&["old name", "new"]));
    assert_eq!(argv, vec!["diff", "--stat", "old name", "new", "--color"]);
    assert_eq!(label, "git diff --stat \"old name\" new --color");
}

#[test]
fn diff_without_placeholder_gets_separator() {
    let t = Some("diff --cached".to_string());
    let (argv, _) = build_diff_command(&t, &strings(&["a"]));
    assert_eq!(argv, vec!["diff", "--cached", "--", "a"]);
    let t = Some("diff -- .".to_string());
    let (argv, _) = build_diff_command(&t, &strings(&["a"]));
    assert_eq!(argv, vec!["diff", "--", ".", "a"]);
}

#[test]
fn diff_with_empty_template_falls_back() {
    let (argv, _) = build_diff_command(&Some("git".to_string()), &strings(&["a"]));
    assert_eq!(argv, vec!["diff", "HEAD", "--", "a"]);
    let (argv, _) = build_diff_command(&Some("  ".to_string()), &strings(&["a"]));
    assert_eq!(argv, vec!["diff", "HEAD", "--", "a"]);
}

#[test]
fn diff_with_placeholder_twice() {
    let t = Some("diff {files} -- {files}".to_string());
    let (argv, _) = build_diff_command(&t, &strings(&["a", "b"]));
    assert_eq!(argv, vec!["diff", "a", "b", "--", "a", "b"]);
}

#[test]
fn untracked_diff_is_against_the_null_device() {
    let (argv, label) = untracked_diff_command(Platform::Unix, &strings(&["new file.txt"]));
    assert_eq!(argv, vec!["diff", "--no-index", "--", "/dev/null", "new file.txt"]);
    assert_eq!(label, "git diff --no-index -- /dev/null new file.txt");
    let (argv, label) = untracked_diff_command(Platform::Windows, &strings(&["a"]));
    assert_eq!(argv, vec!["diff", "--no-index", "--", "NUL", "a"]);
    assert_eq!(label, "git diff --no-index -- NUL a");
}

#[test]
fn commit_without_message_needs_editor() {
    assert!(is_commit_needing_editor("commit"));
    assert!(is_commit_needing_editor("commit --amend"));
    assert!(!is_commit_needing_editor("commit -m \"x\""));
    assert!(!is_commit_needing_editor("commit --message x"));
    assert!(!is_commit_needing_editor("commit --message=x"));
    assert!(!is_commit_needing_editor("status"));
    assert!(!is_commit_needing_editor(""));
    assert!(is_commit_needing_editor("commit -am x"));
}

#[test]
fn configured_flag_makes_interactive() {
    let cfg = CommandConfig {
        name: "Rebase".to_string(),
        cmd: "rebase -i".to_string(),
        lfs: None,
        interactive: true,
    };
    assert!(requires_interactive("rebase -i", Some(&cfg)));
    let plain = CommandConfig { interactive: false, ..cfg };
    assert!(!requires_interactive("rebase -i", Some(&plain)));
    assert!(requires_interactive("commit", Some(&plain)));
    assert!(!requires_interactive("log", None));
}

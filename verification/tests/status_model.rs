use simple_git_tui::git::{
    load_repo_status, parse_args_line, parse_lfs_mode, LfsMode, RepoFile, RepoStatus, Tokenizer,
};

fn file(status: &str, path: &str) -> RepoFile {
    RepoFile { status: status.to_string(), path: path.to_string() }
}

#[test]
fn tokenizes_quoted_segment_as_one_argument() {
    assert_eq!(parse_args_line("a \"b c\" d"), vec!["a", "b c", "d"]);
}

#[test]
fn tokenizes_escaped_quote_inside_quotes() {
    assert_eq!(parse_args_line("a \"b\\\"c\""), vec!["a", "b\"c"]);
}

#[test]
fn backslash_outside_quotes_is_literal() {
    assert_eq!(parse_args_line("a\\b c\\ d"), vec!["a\\b", "c\\", "d"]);
}

#[test]
fn empty_tokens_are_dropped() {
    assert_eq!(parse_args_line("   a \t\n  b   "), vec!["a", "b"]);
    assert_eq!(parse_args_line("\"\""), Vec::<String>::new());
    assert_eq!(parse_args_line(""), Vec::<String>::new());
    assert_eq!(parse_args_line(" \u{a0}\u{3000} "), Vec::<String>::new());
}

#[test]
fn open_quote_runs_to_the_end_of_the_line() {
    assert_eq!(parse_args_line("a \"b c"), vec!["a", "b c"]);
    assert_eq!(parse_args_line("a \"b\\"), vec!["a", "b"]);
}

#[test]
fn escapes_inside_quotes() {
    assert_eq!(parse_args_line("\"a\\\\b\""), vec!["a\\b"]);
    assert_eq!(parse_args_line("\"a\\ b\""), vec!["a b"]);
    assert_eq!(parse_args_line("x\"y z\"w"), vec!["xy zw"]);
}

#[test]
fn tokenizer_takes_the_class_of_each_character_from_its_caller() {
    let mut t = Tokenizer::new();
    for (c, space) in [('a', false), (' ', true), ('b', false), ('_', true), ('c', false)] {
        t.feed(c, space);
    }
    assert_eq!(t.finish(), vec!["a", "b", "c"]);
    let mut t = Tokenizer::new();
    for (c, space) in [('a', false), (' ', false), ('b', false)] {
        t.feed(c, space);
    }
    assert_eq!(t.finish(), vec!["a b"]);
}

#[test]
fn default_status_is_empty() {
    let st = RepoStatus::default();
    assert_eq!(st.branch, "");
    assert_eq!((st.staged, st.unstaged, st.untracked), (0, 0, 0));
    assert!(st.files.is_empty());
    assert_eq!(st.summary(), "[] +0 ~0 ?0");
}

#[test]
fn rename_has_two_operands() {
    assert_eq!(file("R ", "old.txt -> new.txt").operands(), vec!["old.txt", "new.txt"]);
}

#[test]
fn plain_path_has_one_operand() {
    assert_eq!(file(" M", "src/main.rs").operands(), vec!["src/main.rs"]);
    assert_eq!(file(" M", "a->b").operands(), vec!["a->b"]);
}

#[test]
fn two_arrows_are_no_rename() {
    assert_eq!(file("R ", "a -> b -> c").operands(), vec!["a -> b -> c"]);
}

#[test]
fn first_arrow_wins_where_they_overlap() {
    assert_eq!(file("R ", "a -> -> b").operands(), vec!["a", "-> b"]);
}

#[test]
fn label_is_base_name_of_rename_target() {
    assert_eq!(file("R ", "dir/old.txt -> other/new.txt").display_label(), "new.txt");
    assert_eq!(file(" M", "src/app/ui.rs").display_label(), "ui.rs");
    assert_eq!(file(" M", "\"dir with space/file name.txt\"").display_label(), "file name.txt");
    assert_eq!(file("??", "build/").display_label(), "build");
    assert_eq!(file("??", "a\\b\\c.txt").display_label(), "c.txt");
}

#[test]
fn label_of_degenerate_paths() {
    assert_eq!(file(" M", "///").display_label(), "///");
    assert_eq!(file(" M", "\"/\"").display_label(), "/");
    assert_eq!(file(" M", "\"\"").display_label(), "\"\"");
    assert_eq!(file(" M", "").display_label(), "");
    assert_eq!(file("R ", "a -> ").display_label(), "");
}

#[test]
fn lfs_mode_names() {
    assert!(matches!(parse_lfs_mode(Some(&"fetch".to_string())), LfsMode::Fetch));
    assert!(matches!(parse_lfs_mode(Some(&"pull".to_string())), LfsMode::Pull));
    assert!(matches!(parse_lfs_mode(Some(&"push".to_string())), LfsMode::Off));
    assert!(matches!(parse_lfs_mode(Some(&"Fetch".to_string())), LfsMode::Off));
    assert!(matches!(parse_lfs_mode(None), LfsMode::Off));
}

#[test]
fn status_listing_is_classified_by_code() {
    let listing = "M  staged.rs\n M unstaged.rs\nMM both.rs\n?? new.rs\nR  a.rs -> b.rs\n D gone.rs\n";
    let st = load_repo_status(Some("main\n"), Some(listing));
    assert_eq!(st.branch, "main");
    assert_eq!(st.staged, 3);
    assert_eq!(st.unstaged, 3);
    assert_eq!(st.untracked, 1);
    let got: Vec<(String, String)> =
        st.files.iter().map(|f| (f.status.clone(), f.path.clone())).collect();
    let want: Vec<(String, String)> = [
        ("M ", "staged.rs"),
        (" M", "unstaged.rs"),
        ("MM", "both.rs"),
        ("??", "new.rs"),
        ("R ", "a.rs -> b.rs"),
        (" D", "gone.rs"),
    ]
    .iter()
    .map(|(s, p)| (s.to_string(), p.to_string()))
    .collect();
    assert_eq!(got, want);
    assert_eq!(st.summary(), "[main] +3 ~3 ?1");
}

#[test]
fn short_lines_are_skipped() {
    let st = load_repo_status(Some("dev"), Some("M  a\n\n??\nx\n?? b\r\n"));
    assert_eq!(st.files.len(), 2);
    assert_eq!(st.files[0].path, "a");
    assert_eq!(st.files[1].status, "??");
    assert_eq!(st.files[1].path, "b");
    assert_eq!((st.staged, st.unstaged, st.untracked), (1, 0, 1));
}

#[test]
fn failed_queries_leave_question_mark_and_no_files() {
    let st = load_repo_status(None, None);
    assert_eq!(st.branch, "?");
    assert!(st.files.is_empty());
    assert_eq!(st.summary(), "[?] +0 ~0 ?0");
}

#[test]
fn untracked_never_counts_as_staged_or_unstaged() {
    let st = load_repo_status(Some("b"), Some("?? a\n?? b\n?? c"));
    assert_eq!((st.staged, st.unstaged, st.untracked), (0, 0, 3));
}

fn split_operands(path: &str) -> Vec<String> {
    let parts: Vec<&str> = path.split(" -> ").collect();
    if parts.len() == 2 {
        return parts.into_iter().map(|s| s.to_string()).collect();
    }
    vec![path.to_string()]
}

fn split_label(path: &str) -> String {
    let parts: Vec<&str> = path.split(" -> ").collect();
    let target = parts.last().copied().unwrap_or(path);
    let cleaned = target.trim_matches('"');
    let base = cleaned.rsplit(|c| c == '/' || c == '\\').find(|s| !s.is_empty()).unwrap_or(cleaned);
    if base.is_empty() {
        target.to_string()
    } else {
        base.to_string()
    }
}

#[test]
fn operands_and_labels_agree_with_splitting_by_the_arrow() {
    for path in [
        "", "a", "a -> b", "a -> b -> c", "a -> -> b", " -> ", " ->  -> ", " -> a", "a -> ",
        "a->b", "a - > b", "\"x y\" -> \"z w\"", "dir/sub/file.rs", "dir\\sub\\file.rs", "dir/",
        "/", "//", "\"/\"", "\"\"", "a/b -> c/d/", "a/b -> \"c d/e f\"", " -> -> ", "a -> b/",
        "x/ -> ", "\"", "\"a", "a\"", "/\"", "\"/a/\"",
    ] {
        let f = file("R ", path);
        assert_eq!(f.operands(), split_operands(path), "operands of {:?}", path);
        assert_eq!(f.display_label(), split_label(path), "label of {:?}", path);
    }
}

use simple_git_tui::config::CommandConfig;
use simple_git_tui::git::RepoFile;
use simple_git_tui::view::{
    clip_path, command_row, file_row, file_style, panel_title, prompt_line, RowStyle,
};
use simple_git_tui::view_model::{Focus, Mode};

fn file(status: &str, path: &str) -> RepoFile {
    RepoFile { status: status.to_string(), path: path.to_string() }
}

#[test]
fn titles_mark_the_panel_in_focus() {
    assert_eq!(panel_title(Focus::Cmd, Focus::Cmd, Mode::Normal), "CMD [FOCUS]");
    assert_eq!(panel_title(Focus::Cmd, Focus::Cmd, Mode::CommandLine), "CMD [FOCUS :]");
    assert_eq!(panel_title(Focus::Cmd, Focus::Log, Mode::Normal), "CMD");
    assert_eq!(
        panel_title(Focus::Files, Focus::Files, Mode::Normal),
        "FILES [FOCUS] (s:stage/unstage)"
    );
    assert_eq!(panel_title(Focus::Files, Focus::Files, Mode::CommandLine), "FILES [FOCUS :]");
    assert_eq!(panel_title(Focus::Files, Focus::Cmd, Mode::CommandLine), "FILES");
    assert_eq!(panel_title(Focus::Log, Focus::Log, Mode::Normal), "LOG [FOCUS]");
    assert_eq!(panel_title(Focus::Log, Focus::Log, Mode::CommandLine), "LOG [FOCUS :]");
    assert_eq!(panel_title(Focus::Log, Focus::Result, Mode::Normal), "LOG");
    assert_eq!(panel_title(Focus::Result, Focus::Result, Mode::Normal), "R [FOCUS]");
    assert_eq!(panel_title(Focus::Result, Focus::Result, Mode::CommandLine), "R [FOCUS :]");
    assert_eq!(panel_title(Focus::Result, Focus::Files, Mode::Normal), "R");
}

#[test]
fn rows_of_the_menu_and_the_file_list() {
    let cmd = CommandConfig {
        name: "Pull".to_string(),
        cmd: "pull".to_string(),
        lfs: None,
        interactive: false,
    };
    assert_eq!(command_row(&cmd, true), "> Pull");
    assert_eq!(command_row(&cmd, false), "  Pull");
    assert_eq!(file_row(&file(" M", "src/a.rs"), false), "  [ M] a.rs");
    assert_eq!(file_row(&file("R ", "x/old.rs -> y/new.rs"), true), "? [R ] new.rs");
}

#[test]
fn row_styles_follow_the_status() {
    let plain = RowStyle { accent: false, italic: false, bold: false, underlined: false };
    assert_eq!(file_style(&file(" M", "a"), false), plain);
    assert_eq!(file_style(&file("M ", "a"), false), RowStyle { accent: true, ..plain });
    assert_eq!(
        file_style(&file("MM", "a"), true),
        RowStyle { accent: true, italic: false, bold: true, underlined: true }
    );
    assert_eq!(file_style(&file("??", "a"), false), RowStyle { italic: true, ..plain });
    assert_eq!(file_style(&file("", "a"), true), RowStyle { bold: true, ..plain });
}

#[test]
fn long_paths_are_clipped_from_the_left() {
    assert_eq!(clip_path("src/app/view_model.rs", 8), "\u{2026}model.rs");
    assert_eq!(clip_path("src/a.rs", 8), "src/a.rs");
    assert_eq!(clip_path("src/a.rs", 0), "src/a.rs");
    assert_eq!(clip_path("\"dir/a b.rs\"", 6), "\u{2026}a b.rs");
    assert_eq!(clip_path("ab\"cd", 4), "abcd");
    assert_eq!(clip_path("ñandú/árbol", 5), "\u{2026}árbol");
}

#[test]
fn prompt_shows_the_command_line() {
    assert_eq!(prompt_line("log -3"), ":log -3");
    assert_eq!(prompt_line(""), ":");
}

//! What the panels show of the state: titles, rows, and the path in the
//! status line. Drawing itself is left to the caller.

use crate::config::CommandConfig;
use crate::git::{is_staged, is_unstaged, is_untracked, label_of, FileModel, RepoFile};
use crate::text::{chain, chars_of, chars_without, same_text, string_of, without, CharClass};
use crate::view_model::{Focus, Mode};
use vstd::prelude::*;

verus! {

/// The title of `panel` when `focus` has the keys in `mode`.
pub open spec fn title_of(panel: Focus, focus: Focus, mode: Mode) -> Seq<char> {
    if panel != focus {
        match panel {
            Focus::Cmd => "CMD"@,
            Focus::Files => "FILES"@,
            Focus::Log => "LOG"@,
            Focus::Result => "R"@,
        }
    } else if mode is CommandLine {
        match panel {
            Focus::Cmd => "CMD [FOCUS :]"@,
            Focus::Files => "FILES [FOCUS :]"@,
            Focus::Log => "LOG [FOCUS :]"@,
            Focus::Result => "R [FOCUS :]"@,
        }
    } else {
        match panel {
            Focus::Cmd => "CMD [FOCUS]"@,
            Focus::Files => "FILES [FOCUS] (s:stage/unstage)"@,
            Focus::Log => "LOG [FOCUS]"@,
            Focus::Result => "R [FOCUS]"@,
        }
    }
}

/// The title of `panel` when `focus` has the keys in `mode`.
pub fn panel_title(panel: Focus, focus: Focus, mode: Mode) -> (t: &'static str)
    ensures
        t@ == title_of(panel, focus, mode),
{
    let focused = match (panel, focus) {
        (Focus::Cmd, Focus::Cmd) => true,
        (Focus::Files, Focus::Files) => true,
        (Focus::Log, Focus::Log) => true,
        (Focus::Result, Focus::Result) => true,
        _ => false,
    };
    if !focused {
        match panel {
            Focus::Cmd => "CMD",
            Focus::Files => "FILES",
            Focus::Log => "LOG",
            Focus::Result => "R",
        }
    } else {
        match mode {
            Mode::CommandLine => match panel {
                Focus::Cmd => "CMD [FOCUS :]",
                Focus::Files => "FILES [FOCUS :]",
                Focus::Log => "LOG [FOCUS :]",
                Focus::Result => "R [FOCUS :]",
            },
            Mode::Normal => match panel {
                Focus::Cmd => "CMD [FOCUS]",
                Focus::Files => "FILES [FOCUS] (s:stage/unstage)",
                Focus::Log => "LOG [FOCUS]",
                Focus::Result => "R [FOCUS]",
            },
        }
    }
}

/// How a row of the file list is set off.
#[derive(Clone, Copy, PartialEq, Eq, Structural, Debug)]
pub struct RowStyle {
    /// In the accent colour: the file is staged.
    pub accent: bool,
    /// In italics: the file is untracked.
    pub italic: bool,
    /// In bold: the row is selected.
    pub bold: bool,
    /// Underlined: the file is staged and has changed since.
    pub underlined: bool,
}

/// How the row of a file with this status is set off.
pub open spec fn style_of(status: Seq<char>, selected: bool) -> RowStyle {
    RowStyle {
        accent: is_staged(status),
        italic: is_untracked(status),
        bold: selected,
        underlined: is_staged(status) && is_unstaged(status),
    }
}

/// How the row of `file` is set off.
pub fn file_style(file: &RepoFile, selected: bool) -> (r: RowStyle)
    ensures
        r == style_of(file.status@, selected),
{
    let code = chars_of(file.status.as_str());
    let untracked = same_text(file.status.as_str(), "??");
    let staged = !untracked && code.len() > 0 && code[0] != ' ';
    let unstaged = !untracked && code.len() > 1 && code[1] != ' ';
    RowStyle { accent: staged, italic: untracked, bold: selected, underlined: staged && unstaged }
}

/// The mark in front of a row.
pub open spec fn marker(mark: Seq<char>, selected: bool) -> Seq<char> {
    if selected {
        mark
    } else {
        "  "@
    }
}

/// The row of a command in the menu.
pub open spec fn command_row_of(name: Seq<char>, selected: bool) -> Seq<char> {
    marker("> "@, selected) + name
}

/// The row of a file in the list: its status in brackets, and its label.
pub open spec fn file_row_of(file: FileModel, selected: bool) -> Seq<char> {
    marker("? "@, selected) + "["@ + file.status + "] "@ + label_of(file.path)
}

/// The row of `cmd` in the menu.
pub fn command_row(cmd: &CommandConfig, selected: bool) -> (r: String)
    ensures
        r@ == command_row_of(cmd.name@, selected),
{
    if selected {
        chain("> ", cmd.name.as_str())
    } else {
        chain("  ", cmd.name.as_str())
    }
}

/// The row of `file` in the list.
pub fn file_row(file: &RepoFile, selected: bool) -> (r: String)
    ensures
        r@ == file_row_of(file.deep_view(), selected),
{
    let mut r = if selected {
        String::from_str("? ")
    } else {
        String::from_str("  ")
    };
    r.append("[");
    r.append(file.status.as_str());
    r.append("] ");
    r.append(file.display_label().as_str());
    r
}

/// A path for the status line: without its quotes, and cut down to its
/// last `max_len` characters behind an ellipsis where it is longer. A
/// `max_len` of zero leaves room for all of it.
pub open spec fn clipped(path: Seq<char>, max_len: nat) -> Seq<char> {
    let p = without(path, CharClass::Quote);
    if max_len == 0 || p.len() <= max_len {
        p
    } else {
        seq!['\u{2026}'] + p.skip(p.len() - max_len)
    }
}

/// A path for the status line.
pub fn clip_path(path: &str, max_len: usize) -> (r: String)
    ensures
        r@ == clipped(path@, max_len as nat),
{
    let p = chars_without(path, CharClass::Quote);
    if max_len == 0 || p.len() <= max_len {
        let r = string_of(&p, 0, p.len());
        assert(p@.subrange(0, p.len() as int) =~= p@);
        r
    } else {
        let mut r = String::new();
        r.push('\u{2026}');
        let tail = string_of(&p, p.len() - max_len, p.len());
        r.append(tail.as_str());
        assert(r@ =~= seq!['\u{2026}'] + p@.skip(p.len() - max_len));
        r
    }
}

/// The command line as the status line shows it.
pub fn prompt_line(cmdline: &str) -> (r: String)
    ensures
        r@ == ":"@ + cmdline@,
{
    chain(":", cmdline)
}

} // verus!

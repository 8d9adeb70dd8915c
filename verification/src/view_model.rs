//! The dashboard itself: the state that the caller owns, the keys that it
//! takes, and the work that it asks for in return.
//!
//! A key changes the state and may ask for work outside it: a process to
//! launch in the background or in the foreground, a diff to run, a cancel
//! flag to raise. The state machine names that work as an `Action`; the
//! caller does it and hands the outcome back. Nothing here blocks.

use crate::command_line::{
    build_diff_command, clean_operands, discard_command, requires_interactive, stage_command,
    untracked_diff_command, Platform,
};
use crate::config::{CommandConfig, Config, LayoutConfig};
use crate::git::{parse_args_line, parse_lfs_mode, summary_of, LfsMode, RepoFile, RepoStatus};
use crate::interaction::{
    diff_log, diff_report, focus_left, focus_right, initial, lemma_dispatch_wf, lemma_step_wf,
    scroll_delta, scroll_limit, scrolled, ActionModel, Ui,
};
use crate::runner::{CommandResult, Outcome, ResultModel};
use crate::text::{
    chain, chain3, extend_texts, lines, push_text, same_text, signed_decimal_of, split_lines, trim,
};
use crate::theme::Theme;
use vstd::prelude::*;

verus! {

/// The panel that takes the keys.
#[derive(Clone, Copy, PartialEq, Eq, Structural, Debug)]
pub enum Focus {
    Cmd,
    Files,
    Log,
    Result,
}

/// Whether keys are commands or text for the command line.
#[derive(Clone, Copy, PartialEq, Eq, Structural, Debug)]
pub enum Mode {
    Normal,
    CommandLine,
}

/// The key of a key event.
#[derive(Clone, Copy, PartialEq, Eq, Structural, Debug)]
pub enum KeyCode {
    Char(char),
    Enter,
    Esc,
    Backspace,
    PageUp,
    PageDown,
    /// Any other key.
    Other,
}

impl Focus {
    /// The panel to the left.
    pub fn left(self) -> (r: Focus)
        ensures
            r == focus_left(self),
    {
        match self {
            Focus::Cmd => Focus::Cmd,
            Focus::Files => Focus::Cmd,
            Focus::Log => Focus::Files,
            Focus::Result => Focus::Log,
        }
    }

    /// The panel to the right.
    pub fn right(self) -> (r: Focus)
        ensures
            r == focus_right(self),
    {
        match self {
            Focus::Cmd => Focus::Files,
            Focus::Files => Focus::Log,
            Focus::Log => Focus::Result,
            Focus::Result => Focus::Result,
        }
    }
}

/// A key event.
#[derive(Clone, Copy, PartialEq, Eq, Structural, Debug)]
pub struct Key {
    pub code: KeyCode,
    /// Whether the control key is held.
    pub ctrl: bool,
    /// Whether the key went down; a release or a repeat changes nothing.
    pub press: bool,
}

/// What a worker reports when its command has ended.
#[derive(Clone, Debug)]
pub enum UiMessage {
    CommandFinished(CommandResult),
}

impl DeepView for UiMessage {
    type V = ResultModel;

    open spec fn deep_view(&self) -> ResultModel {
        match self {
            UiMessage::CommandFinished(res) => res.deep_view(),
        }
    }
}

/// The work that a key asks of the caller.
#[derive(Clone, Debug)]
pub enum Action {
    /// Nothing.
    Idle,
    /// Leave the dashboard.
    Quit,
    /// Lower the cancel flag and run the argument line `args` in the
    /// background, followed by the step `lfs`; report the end with a
    /// `UiMessage`.
    Background { args: String, lfs: LfsMode },
    /// Give the terminal to the tool, run it with `argv`, take the
    /// terminal back, and call `finish_interactive`.
    Foreground { argv: Vec<String> },
    /// Run the tool with `argv` and hand what it printed to `apply_diff`
    /// together with `label`.
    Diff { argv: Vec<String>, label: String },
    /// Raise the cancel flag, load the status anew and hand it to
    /// `refresh_repo_status`.
    Cancel,
}

impl DeepView for Action {
    type V = ActionModel;

    open spec fn deep_view(&self) -> ActionModel {
        match self {
            Action::Idle => ActionModel::Idle,
            Action::Quit => ActionModel::Quit,
            Action::Background { args, lfs } => ActionModel::Background { args: args@, lfs: *lfs },
            Action::Foreground { argv } => ActionModel::Foreground { argv: argv.deep_view() },
            Action::Diff { argv, label } => ActionModel::Diff {
                argv: argv.deep_view(),
                label: label@,
            },
            Action::Cancel => ActionModel::Cancel,
        }
    }
}

/// The state of the dashboard.
pub struct ViewModel {
    config: Config,
    theme: Theme,
    platform: Platform,
    selected_cmd: usize,
    selected_file: usize,
    focus: Focus,
    mode: Mode,
    log_lines: Vec<String>,
    result_lines: Vec<String>,
    log_scroll: u16,
    result_scroll: u16,
    log_view_height: u16,
    result_view_height: u16,
    cmdline: String,
    needs_full_redraw: bool,
    is_running: bool,
    cancel_requested: bool,
    status: RepoStatus,
    pending_discard: Option<usize>,
}

impl DeepView for ViewModel {
    type V = Ui;

    closed spec fn deep_view(&self) -> Ui {
        Ui {
            config: self.config.deep_view(),
            theme: self.theme,
            platform: self.platform,
            status: self.status.deep_view(),
            selected_cmd: self.selected_cmd as nat,
            selected_file: self.selected_file as nat,
            focus: self.focus,
            mode: self.mode,
            log_lines: self.log_lines.deep_view(),
            result_lines: self.result_lines.deep_view(),
            log_scroll: self.log_scroll as nat,
            result_scroll: self.result_scroll as nat,
            log_view_height: self.log_view_height as nat,
            result_view_height: self.result_view_height as nat,
            cmdline: self.cmdline@,
            needs_full_redraw: self.needs_full_redraw,
            is_running: self.is_running,
            cancel_requested: self.cancel_requested,
            pending_discard: match self.pending_discard {
                Some(i) => Some(i as nat),
                None => None,
            },
        }
    }
}

/// One line as a buffer.
fn one_line(line: String) -> (v: Vec<String>)
    ensures
        v.deep_view() == seq![line@],
{
    let mut v: Vec<String> = Vec::new();
    v.push(line);
    assert(v.deep_view() =~= seq![line@]);
    v
}

/// Two lines as a buffer.
fn two_lines(first: String, second: String) -> (v: Vec<String>)
    ensures
        v.deep_view() == seq![first@, second@],
{
    let mut v: Vec<String> = Vec::new();
    v.push(first);
    v.push(second);
    assert(v.deep_view() =~= seq![first@, second@]);
    v
}

/// The scroll offset `pos` after `key`, in a view of `height` lines on
/// `len` lines.
fn scroll_to(pos: u16, key: Key, len: usize, height: u16) -> (r: u16)
    ensures
        r == scrolled(
            pos as nat,
            scroll_delta(key, height as nat),
            scroll_limit(len as nat, height as nat),
        ),
{
    let h: usize = height as usize;
    let limit: u16 = if len <= h {
        0
    } else if len - h > 0xffff {
        0xffff
    } else {
        (len - h) as u16
    };
    let full: u16 = if height > 1 {
        height
    } else {
        1
    };
    let half: u16 = if height / 2 > 1 {
        height / 2
    } else {
        1
    };
    let (down, by): (bool, u16) = match key.code {
        KeyCode::PageDown => (true, full),
        KeyCode::PageUp => (false, full),
        KeyCode::Char(c) => if c == 'd' && key.ctrl {
            (true, half)
        } else if c == 'u' && key.ctrl {
            (false, half)
        } else {
            (true, 0)
        },
        _ => (true, 0),
    };
    if down {
        if pos > limit || by > limit - pos {
            limit
        } else {
            pos + by
        }
    } else {
        if by > pos {
            0
        } else if pos - by > limit {
            limit
        } else {
            pos - by
        }
    }
}

/// The log lines that show the outcome of a diff.
fn diff_log_lines(outcome: &Outcome) -> (v: Vec<String>)
    ensures
        v.deep_view() == diff_log(outcome.deep_view()),
{
    match outcome {
        Outcome::Finished { stdout, stderr: _, code: _ } => {
            if stdout.as_str().is_empty() {
                one_line(String::from_str("<no diff output>"))
            } else {
                split_lines(stdout.as_str())
            }
        },
        Outcome::Failed { error: _ } => one_line(String::from_str("<no diff output>")),
    }
}

/// The result lines that show the outcome of a diff.
fn diff_report_lines(label: &str, outcome: &Outcome) -> (v: Vec<String>)
    ensures
        v.deep_view() == diff_report(label@, outcome.deep_view()),
{
    match outcome {
        Outcome::Finished { stdout: _, stderr, code } => {
            let shown = match code {
                Some(c) => signed_decimal_of(*c),
                None => signed_decimal_of(-1),
            };
            let mut v = two_lines(chain("$ ", label), chain("git exit code: ", shown.as_str()));
            if !stderr.as_str().is_empty() {
                let ghost before = v.deep_view();
                push_text(&mut v, String::from_str("--- git stderr ---"));
                let rows = split_lines(stderr.as_str());
                extend_texts(&mut v, &rows);
                assert(v.deep_view() =~= before + (seq!["--- git stderr ---"@] + lines(stderr@)));
            } else {
                assert(v.deep_view() + Seq::<Seq<char>>::empty() =~= v.deep_view());
            }
            v
        },
        Outcome::Failed { error } => two_lines(
            chain("$ ", label),
            chain("ERROR: failed to run git diff: ", error.as_str()),
        ),
    }
}

impl ViewModel {
    /// What holds of every state of the dashboard.
    pub open spec fn wf(&self) -> bool {
        self.deep_view().wf()
    }

    /// The dashboard as it starts, with the snapshot `status` of the
    /// repository.
    pub fn new(
        config: Config,
        theme: Theme,
        platform: Platform,
        status: RepoStatus,
    ) -> (vm: ViewModel)
        ensures
            vm.deep_view() == initial(config.deep_view(), theme, platform, status.deep_view()),
            vm.wf(),
    {
        let result_lines: Vec<String> = Vec::new();
        assert(result_lines.deep_view() =~= Seq::<Seq<char>>::empty());
        ViewModel {
            config,
            theme,
            platform,
            selected_cmd: 0,
            selected_file: 0,
            focus: Focus::Cmd,
            mode: Mode::Normal,
            log_lines: one_line(String::from_str("<no output yet>")),
            result_lines,
            log_scroll: 0,
            result_scroll: 0,
            log_view_height: 1,
            result_view_height: 1,
            cmdline: String::new(),
            needs_full_redraw: false,
            is_running: false,
            cancel_requested: false,
            status,
            pending_discard: None,
        }
    }

    fn run_command_async(&mut self, args_str: String, lfs_mode: LfsMode) -> (action: Action)
        ensures
            final(self).deep_view() == old(self).deep_view().launch_background(
                args_str@,
                lfs_mode,
            ).ui,
            action.deep_view() == old(self).deep_view().launch_background(
                args_str@,
                lfs_mode,
            ).action,
    {
        if self.is_running {
            push_text(&mut self.result_lines, String::from_str("WARN: already running command"));
            return Action::Idle;
        }
        self.is_running = true;
        self.cancel_requested = false;
        self.log_lines = one_line(String::from_str("<running...>"));
        self.result_lines = two_lines(
            chain("$ git ", args_str.as_str()),
            String::from_str("running..."),
        );
        self.log_scroll = 0;
        self.result_scroll = 0;
        Action::Background { args: args_str, lfs: lfs_mode }
    }

    fn run_command_interactive(&mut self, args_str: String) -> (action: Action)
        ensures
            final(self).deep_view() == old(self).deep_view().launch_foreground(args_str@).ui,
            action.deep_view() == old(self).deep_view().launch_foreground(args_str@).action,
    {
        if self.is_running {
            push_text(&mut self.result_lines, String::from_str("WARN: already running command"));
            return Action::Idle;
        }
        self.is_running = true;
        self.log_lines = one_line(String::from_str("<interactive command: terminal will switch>"));
        self.result_lines = one_line(chain("$ git ", args_str.as_str()));
        self.log_scroll = 0;
        self.result_scroll = 0;
        Action::Foreground { argv: parse_args_line(args_str.as_str()) }
    }

    /// Sends a command on its way: in the foreground where `interactive`
    /// says that it needs the terminal, else in the background. While a
    /// command is under way nothing is started, and the result lines get
    /// a warning.
    pub fn run_command(
        &mut self,
        args_str: String,
        lfs_mode: LfsMode,
        interactive: bool,
    ) -> (action: Action)
        ensures
            final(self).deep_view() == old(self).deep_view().dispatch(
                args_str@,
                lfs_mode,
                interactive,
            ).ui,
            action.deep_view() == old(self).deep_view().dispatch(
                args_str@,
                lfs_mode,
                interactive,
            ).action,
            old(self).wf() ==> final(self).wf(),
    {
        proof {
            if self.wf() {
                lemma_dispatch_wf(self.deep_view(), args_str@, lfs_mode, interactive);
            }
        }
        self.pending_discard = None;
        if interactive {
            self.run_command_interactive(args_str)
        } else {
            self.run_command_async(args_str, lfs_mode)
        }
    }

    fn run_selected_command(&mut self) -> (action: Action)
        ensures
            final(self).deep_view() == old(self).deep_view().run_selected().ui,
            action.deep_view() == old(self).deep_view().run_selected().action,
    {
        if self.selected_cmd >= self.config.commands.len() {
            return Action::Idle;
        }
        let cmd_cfg = &self.config.commands[self.selected_cmd];
        let cmd_str = cmd_cfg.cmd.clone();
        let lfs_mode = parse_lfs_mode(cmd_cfg.lfs.as_ref());
        let interactive = requires_interactive(cmd_str.as_str(), Some(cmd_cfg));
        assert(cmd_cfg.deep_view() == self.config.commands.deep_view()[self.selected_cmd as int]);
        self.run_command(cmd_str, lfs_mode, interactive)
    }

    fn show_diff_for_selected_file(&mut self, is_auto: bool) -> (action: Action)
        ensures
            final(self).deep_view() == old(self).deep_view().show_diff(is_auto).ui,
            action.deep_view() == old(self).deep_view().show_diff(is_auto).action,
    {
        if self.selected_file >= self.status.files.len() {
            return Action::Idle;
        }
        if self.is_running {
            if !is_auto {
                push_text(
                    &mut self.result_lines,
                    String::from_str("WARN: cannot show diff while git is running"),
                );
            }
            return Action::Idle;
        }
        let entry = &self.status.files[self.selected_file];
        assert(entry.deep_view() == self.status.files.deep_view()[self.selected_file as int]);
        let operands = clean_operands(entry);
        if same_text(entry.status.as_str(), "??") {
            let (argv, label) = untracked_diff_command(self.platform, &operands);
            Action::Diff { argv, label }
        } else {
            let (argv, label) = build_diff_command(&self.config.files_diff_cmd, &operands);
            Action::Diff { argv, label }
        }
    }

    fn toggle_stage_selected_file(&mut self) -> (action: Action)
        ensures
            final(self).deep_view() == old(self).deep_view().toggle_stage().ui,
            action.deep_view() == old(self).deep_view().toggle_stage().action,
    {
        if self.selected_file >= self.status.files.len() {
            return Action::Idle;
        }
        let entry = &self.status.files[self.selected_file];
        assert(entry.deep_view() == self.status.files.deep_view()[self.selected_file as int]);
        let cmd = stage_command(entry);
        self.run_command(cmd, LfsMode::Off, false)
    }

    fn discard_selected_file(&mut self) -> (action: Action)
        requires
            old(self).selected_file < old(self).status.files.len(),
        ensures
            final(self).deep_view() == old(self).deep_view().discard_key(
                Some(old(self).selected_file as nat),
            ).ui,
            action.deep_view() == old(self).deep_view().discard_key(
                Some(old(self).selected_file as nat),
            ).action,
    {
        let entry = &self.status.files[self.selected_file];
        assert(entry.deep_view() == self.status.files.deep_view()[self.selected_file as int]);
        let cmd = discard_command(entry);
        self.run_command(cmd, LfsMode::Off, false)
    }

    fn handle_discard_key(&mut self, armed: Option<usize>) -> (action: Action)
        requires
            old(self).pending_discard is None,
        ensures
            final(self).deep_view() == old(self).deep_view().discard_key(
                match armed {
                    Some(i) => Some(i as nat),
                    None => None,
                },
            ).ui,
            action.deep_view() == old(self).deep_view().discard_key(
                match armed {
                    Some(i) => Some(i as nat),
                    None => None,
                },
            ).action,
    {
        if self.selected_file >= self.status.files.len() {
            return Action::Idle;
        }
        let confirmed = match armed {
            Some(i) => i == self.selected_file,
            None => false,
        };
        if confirmed {
            return self.discard_selected_file();
        }
        self.pending_discard = Some(self.selected_file);
        let entry = &self.status.files[self.selected_file];
        assert(entry.deep_view() == self.status.files.deep_view()[self.selected_file as int]);
        let label = entry.display_label();
        self.result_lines = one_line(
            chain3(
                "Discard changes to \"",
                label.as_str(),
                "\"? (press x again to confirm, any other key cancels)",
            ),
        );
        self.result_scroll = 0;
        Action::Idle
    }

    fn handle_cmd_keys(&mut self, key: Key) -> (action: Action)
        ensures
            final(self).deep_view() == old(self).deep_view().cmd_key(key).ui,
            action.deep_view() == old(self).deep_view().cmd_key(key).action,
    {
        match key.code {
            KeyCode::Char(c) => {
                if c == 'j' {
                    let n = self.config.commands.len();
                    if n > 0 && self.selected_cmd < n - 1 {
                        self.selected_cmd += 1;
                    }
                } else if c == 'k' {
                    if self.selected_cmd > 0 {
                        self.selected_cmd -= 1;
                    }
                }
                Action::Idle
            },
            KeyCode::Enter => self.run_selected_command(),
            _ => Action::Idle,
        }
    }

    fn handle_file_keys(&mut self, armed: Option<usize>, key: Key) -> (action: Action)
        requires
            old(self).pending_discard is None,
        ensures
            final(self).deep_view() == old(self).deep_view().file_key(
                match armed {
                    Some(i) => Some(i as nat),
                    None => None,
                },
                key,
            ).ui,
            action.deep_view() == old(self).deep_view().file_key(
                match armed {
                    Some(i) => Some(i as nat),
                    None => None,
                },
                key,
            ).action,
    {
        match key.code {
            KeyCode::Char(c) => {
                if c == 'j' {
                    let n = self.status.files.len();
                    if n > 0 && self.selected_file < n - 1 {
                        self.selected_file += 1;
                        self.show_diff_for_selected_file(true)
                    } else {
                        Action::Idle
                    }
                } else if c == 'k' {
                    if self.selected_file > 0 {
                        self.selected_file -= 1;
                        self.show_diff_for_selected_file(true)
                    } else {
                        Action::Idle
                    }
                } else if c == 's' {
                    self.toggle_stage_selected_file()
                } else if c == 'd' {
                    self.show_diff_for_selected_file(false)
                } else if c == 'x' {
                    self.handle_discard_key(armed)
                } else {
                    Action::Idle
                }
            },
            _ => Action::Idle,
        }
    }

    fn handle_scroll_keys(&mut self, key: Key, is_log: bool) -> (action: Action)
        ensures
            final(self).deep_view() == old(self).deep_view().scroll_key(key, is_log).ui,
            action.deep_view() == old(self).deep_view().scroll_key(key, is_log).action,
    {
        if is_log {
            self.log_scroll = scroll_to(
                self.log_scroll,
                key,
                self.log_lines.len(),
                self.log_view_height,
            );
        } else {
            self.result_scroll = scroll_to(
                self.result_scroll,
                key,
                self.result_lines.len(),
                self.result_view_height,
            );
        }
        Action::Idle
    }

    fn handle_panel_keys(&mut self, armed: Option<usize>, key: Key) -> (action: Action)
        requires
            old(self).pending_discard is None,
        ensures
            final(self).deep_view() == old(self).deep_view().panel_key(
                match armed {
                    Some(i) => Some(i as nat),
                    None => None,
                },
                key,
            ).ui,
            action.deep_view() == old(self).deep_view().panel_key(
                match armed {
                    Some(i) => Some(i as nat),
                    None => None,
                },
                key,
            ).action,
    {
        match self.focus {
            Focus::Cmd => self.handle_cmd_keys(key),
            Focus::Files => self.handle_file_keys(armed, key),
            Focus::Log => self.handle_scroll_keys(key, true),
            Focus::Result => self.handle_scroll_keys(key, false),
        }
    }

    fn cancel_running(&mut self) -> (action: Action)
        ensures
            final(self).deep_view() == old(self).deep_view().cancel().ui,
            action.deep_view() == old(self).deep_view().cancel().action,
    {
        if self.is_running {
            self.cancel_requested = true;
            self.is_running = false;
            push_text(&mut self.log_lines, String::from_str("<canceled by user>"));
            push_text(
                &mut self.result_lines,
                String::from_str("canceled by user (git process may still finish in background)"),
            );
            Action::Cancel
        } else {
            Action::Idle
        }
    }

    fn open_cmdline(&mut self)
        ensures
            final(self).deep_view() == (Ui {
                mode: Mode::CommandLine,
                cmdline: Seq::empty(),
                ..old(self).deep_view()
            }),
    {
        self.mode = Mode::CommandLine;
        self.cmdline = String::new();
    }

    fn close_cmdline(&mut self)
        ensures
            final(self).deep_view() == (Ui {
                mode: Mode::Normal,
                cmdline: Seq::empty(),
                ..old(self).deep_view()
            }),
    {
        self.mode = Mode::Normal;
        self.cmdline = String::new();
    }

    fn handle_key_normal(&mut self, armed: Option<usize>, key: Key) -> (action: Action)
        requires
            old(self).pending_discard is None,
        ensures
            final(self).deep_view() == old(self).deep_view().normal_key(
                match armed {
                    Some(i) => Some(i as nat),
                    None => None,
                },
                key,
            ).ui,
            action.deep_view() == old(self).deep_view().normal_key(
                match armed {
                    Some(i) => Some(i as nat),
                    None => None,
                },
                key,
            ).action,
    {
        match key.code {
            KeyCode::Char(c) => {
                if c == 'c' && key.ctrl {
                    self.cancel_running()
                } else if c == ':' {
                    self.open_cmdline();
                    Action::Idle
                } else if c == 'q' {
                    Action::Quit
                } else if c == 'h' {
                    self.focus = self.focus.left();
                    Action::Idle
                } else if c == 'l' {
                    self.focus = self.focus.right();
                    Action::Idle
                } else {
                    self.handle_panel_keys(armed, key)
                }
            },
            _ => self.handle_panel_keys(armed, key),
        }
    }

    fn submit_cmdline(&mut self) -> (action: Action)
        ensures
            final(self).deep_view() == old(self).deep_view().submit().ui,
            action.deep_view() == old(self).deep_view().submit().action,
    {
        let line = trim(self.cmdline.as_str());
        self.close_cmdline();
        if line.as_str().is_empty() {
            return Action::Idle;
        }
        if same_text(line.as_str(), "q") || same_text(line.as_str(), "quit") {
            return Action::Quit;
        }
        if same_text(line.as_str(), "stage") {
            self.run_command(String::from_str("add -A"), LfsMode::Off, false)
        } else if same_text(line.as_str(), "unstage") {
            self.run_command(String::from_str("restore --staged ."), LfsMode::Off, false)
        } else {
            let interactive = requires_interactive(line.as_str(), None);
            self.run_command(line, LfsMode::Off, interactive)
        }
    }

    fn handle_key_cmdline(&mut self, key: Key) -> (action: Action)
        ensures
            final(self).deep_view() == old(self).deep_view().cmdline_key(key).ui,
            action.deep_view() == old(self).deep_view().cmdline_key(key).action,
    {
        match key.code {
            KeyCode::Esc => {
                self.close_cmdline();
                Action::Idle
            },
            KeyCode::Enter => self.submit_cmdline(),
            KeyCode::Backspace => {
                self.cmdline.pop();
                Action::Idle
            },
            KeyCode::Char(c) => {
                self.cmdline.push(c);
                Action::Idle
            },
            _ => Action::Idle,
        }
    }

    /// Takes a key event, changes the state, and names the work that the
    /// caller is to do.
    pub fn handle_key(&mut self, key: Key) -> (action: Action)
        ensures
            final(self).deep_view() == old(self).deep_view().step(key).ui,
            action.deep_view() == old(self).deep_view().step(key).action,
            old(self).wf() ==> final(self).wf(),
    {
        proof {
            if self.wf() {
                lemma_step_wf(self.deep_view(), key);
            }
        }
        if !key.press {
            return Action::Idle;
        }
        let armed = self.pending_discard;
        self.pending_discard = None;
        match self.mode {
            Mode::Normal => self.handle_key_normal(armed, key),
            Mode::CommandLine => self.handle_key_cmdline(key),
        }
    }

    /// Takes the completion messages that have come in, in their order.
    /// Returns whether they were applied; if so, the status is to be
    /// loaded anew and handed to `refresh_repo_status`.
    pub fn poll_messages(&mut self, msgs: Vec<UiMessage>) -> (applied: bool)
        ensures
            final(self).deep_view() == old(self).deep_view().deliver(msgs.deep_view()),
            applied == (msgs.len() > 0 && !old(self).deep_view().cancel_requested),
            old(self).wf() ==> final(self).wf(),
    {
        let mut rest = msgs;
        match rest.pop() {
            Some(last) => {
                assert(last.deep_view() == msgs.deep_view().last());
                if self.cancel_requested {
                    return false;
                }
                match last {
                    UiMessage::CommandFinished(res) => {
                        self.is_running = false;
                        self.log_lines = res.log_lines;
                        self.result_lines = res.result_lines;
                        self.log_scroll = 0;
                        self.result_scroll = 0;
                    },
                }
                true
            },
            None => false,
        }
    }

    /// Takes a new snapshot of the repository.
    pub fn refresh_repo_status(&mut self, status: RepoStatus)
        ensures
            final(self).deep_view() == old(self).deep_view().refreshed(status.deep_view()),
            old(self).wf() ==> final(self).wf(),
    {
        let n = status.files.len();
        self.status = status;
        if n == 0 {
            self.selected_file = 0;
        } else if self.selected_file >= n {
            self.selected_file = n - 1;
        }
        self.pending_discard = None;
    }

    /// Takes the end of the command that had the terminal, and the
    /// snapshot of the repository loaded after it. Of `outcome` only the
    /// exit code, or the reason of the failure, is read.
    pub fn finish_interactive(&mut self, outcome: &Outcome, status: RepoStatus)
        ensures
            final(self).deep_view() == old(self).deep_view().after_interactive(
                outcome.deep_view(),
                status.deep_view(),
            ),
            old(self).wf() ==> final(self).wf(),
    {
        let line = match outcome {
            Outcome::Finished { stdout: _, stderr: _, code } => {
                let shown = match code {
                    Some(c) => signed_decimal_of(*c),
                    None => signed_decimal_of(-1),
                };
                chain("git exit code: ", shown.as_str())
            },
            Outcome::Failed { error } => chain("ERROR: failed interactive git: ", error.as_str()),
        };
        push_text(&mut self.result_lines, line);
        self.is_running = false;
        self.needs_full_redraw = true;
        self.refresh_repo_status(status);
    }

    /// Shows the outcome of a diff that was asked for under `label`.
    pub fn apply_diff(&mut self, label: &str, outcome: &Outcome)
        ensures
            final(self).deep_view() == old(self).deep_view().with_diff(label@, outcome.deep_view()),
            old(self).wf() ==> final(self).wf(),
    {
        self.log_lines = diff_log_lines(outcome);
        self.result_lines = diff_report_lines(label, outcome);
        self.log_scroll = 0;
        self.result_scroll = 0;
    }

    /// Sets the heights of the two output views; a height of zero counts
    /// as one.
    pub fn update_viewport(&mut self, log_height: u16, result_height: u16)
        ensures
            final(self).deep_view() == old(self).deep_view().with_viewport(
                log_height as nat,
                result_height as nat,
            ),
            old(self).wf() ==> final(self).wf(),
    {
        self.log_view_height = if log_height > 1 {
            log_height
        } else {
            1
        };
        self.result_view_height = if result_height > 1 {
            result_height
        } else {
            1
        };
        let still = Key { code: KeyCode::Other, ctrl: false, press: false };
        self.log_scroll = scroll_to(
            self.log_scroll,
            still,
            self.log_lines.len(),
            self.log_view_height,
        );
        self.result_scroll = scroll_to(
            self.result_scroll,
            still,
            self.result_lines.len(),
            self.result_view_height,
        );
    }

    /// Whether the screen is to be drawn anew; asking clears the request.
    pub fn take_full_redraw(&mut self) -> (flag: bool)
        ensures
            flag == old(self).deep_view().needs_full_redraw,
            final(self).deep_view() == (Ui { needs_full_redraw: false, ..old(self).deep_view() }),
            old(self).wf() ==> final(self).wf(),
    {
        let flag = self.needs_full_redraw;
        self.needs_full_redraw = false;
        flag
    }

    /// The configuration.
    pub fn config(&self) -> (r: &Config)
        ensures
            r.deep_view() == self.deep_view().config,
    {
        &self.config
    }

    /// The colours.
    pub fn theme(&self) -> (r: &Theme)
        ensures
            *r == self.deep_view().theme,
    {
        &self.theme
    }

    /// The system that the dashboard runs on.
    pub fn platform(&self) -> (r: Platform)
        ensures
            r == self.deep_view().platform,
    {
        self.platform
    }

    /// The sizes of the panels.
    pub fn layout(&self) -> (r: &LayoutConfig)
        ensures
            *r == self.deep_view().config.layout,
    {
        &self.config.layout
    }

    /// The command menu.
    pub fn commands(&self) -> (r: &[CommandConfig])
        ensures
            r.deep_view() == self.deep_view().config.commands,
    {
        let r = self.config.commands.as_slice();
        assert(r.deep_view() =~= self.config.commands.deep_view());
        r
    }

    /// The panel that takes the keys.
    pub fn focus(&self) -> (r: Focus)
        ensures
            r == self.deep_view().focus,
    {
        self.focus
    }

    /// Whether keys are commands or text for the command line.
    pub fn mode(&self) -> (r: Mode)
        ensures
            r == self.deep_view().mode,
    {
        self.mode
    }

    /// The index of the selected command.
    pub fn selected_cmd(&self) -> (r: usize)
        ensures
            r == self.deep_view().selected_cmd,
    {
        self.selected_cmd
    }

    /// The index of the selected file.
    pub fn selected_file(&self) -> (r: usize)
        ensures
            r == self.deep_view().selected_file,
    {
        self.selected_file
    }

    /// The files of the last snapshot.
    pub fn files(&self) -> (r: &[RepoFile])
        ensures
            r.deep_view() == self.deep_view().status.files,
    {
        let r = self.status.files.as_slice();
        assert(r.deep_view() =~= self.status.files.deep_view());
        r
    }

    /// The lines of the log panel.
    pub fn log_lines(&self) -> (r: &[String])
        ensures
            r.deep_view() == self.deep_view().log_lines,
    {
        let r = self.log_lines.as_slice();
        assert(r.deep_view() =~= self.log_lines.deep_view());
        r
    }

    /// The lines of the result panel.
    pub fn result_lines(&self) -> (r: &[String])
        ensures
            r.deep_view() == self.deep_view().result_lines,
    {
        let r = self.result_lines.as_slice();
        assert(r.deep_view() =~= self.result_lines.deep_view());
        r
    }

    /// The scroll offset of the log panel.
    pub fn log_scroll(&self) -> (r: u16)
        ensures
            r == self.deep_view().log_scroll,
    {
        self.log_scroll
    }

    /// The scroll offset of the result panel.
    pub fn result_scroll(&self) -> (r: u16)
        ensures
            r == self.deep_view().result_scroll,
    {
        self.result_scroll
    }

    /// The one-line summary of the repository's status.
    pub fn status_summary(&self) -> (r: String)
        ensures
            r@ == summary_of(self.deep_view().status),
    {
        self.status.summary()
    }

    /// The text on the command line.
    pub fn cmdline(&self) -> (r: &str)
        ensures
            r@ == self.deep_view().cmdline,
    {
        self.cmdline.as_str()
    }

    /// Whether a command is under way.
    pub fn is_running(&self) -> (r: bool)
        ensures
            r == self.deep_view().is_running,
    {
        self.is_running
    }

    /// What the cancel flag is to read.
    pub fn cancel_requested(&self) -> (r: bool)
        ensures
            r == self.deep_view().cancel_requested,
    {
        self.cancel_requested
    }

    /// The file whose discard waits for its confirmation.
    pub fn pending_discard(&self) -> (r: Option<usize>)
        ensures
            match r {
                Some(i) => self.deep_view().pending_discard == Some(i as nat),
                None => self.deep_view().pending_discard is None,
            },
    {
        self.pending_discard
    }
}

} // verus!

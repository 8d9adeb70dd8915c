//! The interaction state machine, as the contracts see it: the state of
//! the dashboard as plain mathematical values, what each key does to it,
//! and what holds of every run of keys.

use crate::command_line::{
    clean_operands_of, diff_argv, diff_label, diff_template, discard_command_of, needs_editor,
    needs_terminal, quoted_operands_of, stage_command_of, untracked_diff_argv,
    untracked_diff_label, Platform,
};
use crate::config::ConfigModel;
use crate::git::{
    is_staged, is_untracked, label_of, lfs_mode_of, tokenize, LfsMode, StatusModel,
};
use crate::runner::{code_text, stderr_lines, OutcomeModel, ResultModel};
use crate::text::{lines, trimmed};
use crate::theme::Theme;
use crate::view_model::{Focus, Key, KeyCode, Mode};
use vstd::prelude::*;

verus! {

/// The work that a key asks for, as the contracts see it.
pub ghost enum ActionModel {
    Idle,
    Quit,
    Background { args: Seq<char>, lfs: LfsMode },
    Foreground { argv: Seq<Seq<char>> },
    Diff { argv: Seq<Seq<char>>, label: Seq<char> },
    Cancel,
}

/// The state of the dashboard, as the contracts see it.
pub ghost struct Ui {
    pub config: ConfigModel,
    pub theme: Theme,
    pub platform: Platform,
    pub status: StatusModel,
    pub selected_cmd: nat,
    pub selected_file: nat,
    pub focus: Focus,
    pub mode: Mode,
    pub log_lines: Seq<Seq<char>>,
    pub result_lines: Seq<Seq<char>>,
    pub log_scroll: nat,
    pub result_scroll: nat,
    pub log_view_height: nat,
    pub result_view_height: nat,
    pub cmdline: Seq<char>,
    pub needs_full_redraw: bool,
    /// Whether a command is under way.
    pub is_running: bool,
    /// What the cancel flag reads.
    pub cancel_requested: bool,
    /// The file whose discard waits for its confirmation.
    pub pending_discard: Option<nat>,
}

/// A state together with the work asked for on the way to it.
pub ghost struct Step {
    pub ui: Ui,
    pub action: ActionModel,
}

/// The panel to the left, the leftmost being its own neighbour.
pub open spec fn focus_left(f: Focus) -> Focus {
    match f {
        Focus::Cmd => Focus::Cmd,
        Focus::Files => Focus::Cmd,
        Focus::Log => Focus::Files,
        Focus::Result => Focus::Log,
    }
}

/// The panel to the right, the rightmost being its own neighbour.
pub open spec fn focus_right(f: Focus) -> Focus {
    match f {
        Focus::Cmd => Focus::Files,
        Focus::Files => Focus::Log,
        Focus::Log => Focus::Result,
        Focus::Result => Focus::Result,
    }
}

/// The greatest scroll offset of `len` lines in a view of `height` lines.
/// An offset is a 16-bit number, so it ends there at the latest.
pub open spec fn scroll_limit(len: nat, height: nat) -> nat {
    if len <= height {
        0
    } else if len - height > 0xffff {
        0xffff
    } else {
        (len - height) as nat
    }
}

/// By how many lines a key scrolls a view of `height` lines: a page key by
/// the whole view, control-d and control-u by half of it, at least by one
/// line; down is positive. Other keys do not scroll.
pub open spec fn scroll_delta(key: Key, height: nat) -> int {
    let full: int = if height > 1 {
        height as int
    } else {
        1
    };
    let half: int = if height / 2 > 1 {
        (height / 2) as int
    } else {
        1
    };
    match key.code {
        KeyCode::PageDown => full,
        KeyCode::PageUp => -full,
        KeyCode::Char(c) => if c == 'd' && key.ctrl {
            half
        } else if c == 'u' && key.ctrl {
            -half
        } else {
            0
        },
        _ => 0,
    }
}

/// The offset `pos` moved by `delta` and kept within `0..=limit`.
pub open spec fn scrolled(pos: nat, delta: int, limit: nat) -> nat {
    if pos + delta < 0 {
        0
    } else if pos + delta > limit {
        limit
    } else {
        (pos + delta) as nat
    }
}

/// The question that the first press of the discard key asks.
pub open spec fn discard_prompt(label: Seq<char>) -> Seq<char> {
    "Discard changes to \""@ + label
        + "\"? (press x again to confirm, any other key cancels)"@
}

/// The log lines that show the outcome of a diff: what it printed, or a
/// line that says that it printed nothing.
pub open spec fn diff_log(outcome: OutcomeModel) -> Seq<Seq<char>> {
    match outcome {
        OutcomeModel::Finished { stdout, .. } => if stdout.len() == 0 {
            seq!["<no diff output>"@]
        } else {
            lines(stdout)
        },
        OutcomeModel::Failed { .. } => seq!["<no diff output>"@],
    }
}

/// The result lines that show the outcome of a diff: its command, then
/// its exit code and error stream, or the reason why it did not start.
pub open spec fn diff_report(label: Seq<char>, outcome: OutcomeModel) -> Seq<Seq<char>> {
    match outcome {
        OutcomeModel::Finished { stderr, code, .. } => seq![
            "$ "@ + label,
            "git exit code: "@ + code_text(code),
        ] + stderr_lines("--- git stderr ---"@, stderr),
        OutcomeModel::Failed { error } => seq![
            "$ "@ + label,
            "ERROR: failed to run git diff: "@ + error,
        ],
    }
}

impl Ui {
    /// What holds of every state of the dashboard.
    pub open spec fn wf(self) -> bool {
        &&& self.selected_file == 0 || self.selected_file < self.status.files.len()
        &&& self.selected_cmd == 0 || self.selected_cmd < self.config.commands.len()
        &&& match self.pending_discard {
            Some(i) => i == self.selected_file && i < self.status.files.len() && self.mode
                is Normal && self.focus is Files,
            None => true,
        }
        &&& self.log_view_height >= 1
        &&& self.result_view_height >= 1
        &&& self.log_scroll <= scroll_limit(self.log_lines.len(), self.log_view_height)
        &&& self.result_scroll <= scroll_limit(self.result_lines.len(), self.result_view_height)
    }

    /// Starts a command in the background, unless one is under way: then
    /// nothing is started, and a warning is added to the result lines.
    pub open spec fn launch_background(self, args: Seq<char>, lfs: LfsMode) -> Step {
        if self.is_running {
            Step {
                ui: Ui {
                    result_lines: self.result_lines.push("WARN: already running command"@),
                    ..self
                },
                action: ActionModel::Idle,
            }
        } else {
            Step {
                ui: Ui {
                    is_running: true,
                    cancel_requested: false,
                    log_lines: seq!["<running...>"@],
                    result_lines: seq!["$ git "@ + args, "running..."@],
                    log_scroll: 0,
                    result_scroll: 0,
                    ..self
                },
                action: ActionModel::Background { args, lfs },
            }
        }
    }

    /// Starts a command in the foreground, with the terminal for itself,
    /// unless one is under way: then nothing is started, and a warning is
    /// added to the result lines.
    pub open spec fn launch_foreground(self, args: Seq<char>) -> Step {
        if self.is_running {
            Step {
                ui: Ui {
                    result_lines: self.result_lines.push("WARN: already running command"@),
                    ..self
                },
                action: ActionModel::Idle,
            }
        } else {
            Step {
                ui: Ui {
                    is_running: true,
                    log_lines: seq!["<interactive command: terminal will switch>"@],
                    result_lines: seq!["$ git "@ + args],
                    log_scroll: 0,
                    result_scroll: 0,
                    ..self
                },
                action: ActionModel::Foreground { argv: tokenize(args) },
            }
        }
    }

    /// Sends a command on its way, in the foreground where it needs the
    /// terminal, else in the background. No discard waits after that.
    pub open spec fn dispatch(self, args: Seq<char>, lfs: LfsMode, interactive: bool) -> Step {
        let s = Ui { pending_discard: None, ..self };
        if interactive {
            s.launch_foreground(args)
        } else {
            s.launch_background(args, lfs)
        }
    }

    /// Asks for the diff of the selected file. While a command is under
    /// way none is asked for; a request made by key is answered with a
    /// warning, one that follows a move of the selection with silence.
    pub open spec fn show_diff(self, is_auto: bool) -> Step {
        if self.status.files.len() == 0 || self.selected_file >= self.status.files.len() {
            Step { ui: self, action: ActionModel::Idle }
        } else if self.is_running {
            Step {
                ui: if is_auto {
                    self
                } else {
                    Ui {
                        result_lines: self.result_lines.push(
                            "WARN: cannot show diff while git is running"@,
                        ),
                        ..self
                    }
                },
                action: ActionModel::Idle,
            }
        } else {
            let file = self.status.files[self.selected_file as int];
            let operands = clean_operands_of(file.path);
            if is_untracked(file.status) {
                Step {
                    ui: self,
                    action: ActionModel::Diff {
                        argv: untracked_diff_argv(self.platform, operands),
                        label: untracked_diff_label(self.platform, operands),
                    },
                }
            } else {
                let argv = diff_argv(diff_template(self.config.files_diff_cmd), operands);
                Step { ui: self, action: ActionModel::Diff { argv, label: diff_label(argv) } }
            }
        }
    }

    /// Control-c: a command under way is given up. The cancel flag goes
    /// up, both buffers get a note, and the status is to be loaded anew.
    /// The process itself is left alone.
    pub open spec fn cancel(self) -> Step {
        if self.is_running {
            Step {
                ui: Ui {
                    cancel_requested: true,
                    is_running: false,
                    log_lines: self.log_lines.push("<canceled by user>"@),
                    result_lines: self.result_lines.push(
                        "canceled by user (git process may still finish in background)"@,
                    ),
                    ..self
                },
                action: ActionModel::Cancel,
            }
        } else {
            Step { ui: self, action: ActionModel::Idle }
        }
    }

    /// Sends the selected command of the menu on its way, with the
    /// follow-up step of its configuration, in the foreground where the
    /// configuration says so or the command opens an editor.
    pub open spec fn run_selected(self) -> Step {
        if self.selected_cmd < self.config.commands.len() {
            let cmd = self.config.commands[self.selected_cmd as int];
            self.dispatch(cmd.cmd, lfs_mode_of(cmd.lfs), needs_terminal(cmd.cmd, cmd.interactive))
        } else {
            Step { ui: self, action: ActionModel::Idle }
        }
    }

    /// Stages the selected file, or takes it out of the staging area
    /// where it is staged.
    pub open spec fn toggle_stage(self) -> Step {
        if self.selected_file < self.status.files.len() {
            let file = self.status.files[self.selected_file as int];
            self.dispatch(stage_command_of(file.status, file.path), LfsMode::Off, false)
        } else {
            Step { ui: self, action: ActionModel::Idle }
        }
    }

    /// A key in the command menu: `j` and `k` move the selection within
    /// the menu, Enter sends the selected command on its way.
    pub open spec fn cmd_key(self, key: Key) -> Step {
        match key.code {
            KeyCode::Char(c) => if c == 'j' && self.selected_cmd + 1 < self.config.commands.len() {
                Step {
                    ui: Ui { selected_cmd: self.selected_cmd + 1, ..self },
                    action: ActionModel::Idle,
                }
            } else if c == 'k' && self.selected_cmd > 0 {
                Step {
                    ui: Ui { selected_cmd: (self.selected_cmd - 1) as nat, ..self },
                    action: ActionModel::Idle,
                }
            } else {
                Step { ui: self, action: ActionModel::Idle }
            },
            KeyCode::Enter => self.run_selected(),
            _ => Step { ui: self, action: ActionModel::Idle },
        }
    }

    /// The discard key. `armed` is the file that waited for confirmation
    /// when the key came. On the selected file the key confirms, and the
    /// discard is sent on its way; else it arms the selected file and asks.
    pub open spec fn discard_key(self, armed: Option<nat>) -> Step {
        if self.selected_file >= self.status.files.len() {
            Step { ui: self, action: ActionModel::Idle }
        } else {
            let file = self.status.files[self.selected_file as int];
            if armed == Some(self.selected_file) {
                self.dispatch(discard_command_of(file.status, file.path), LfsMode::Off, false)
            } else {
                Step {
                    ui: Ui {
                        pending_discard: Some(self.selected_file),
                        result_lines: seq![discard_prompt(label_of(file.path))],
                        result_scroll: 0,
                        ..self
                    },
                    action: ActionModel::Idle,
                }
            }
        }
    }

    /// A key in the file list: `j` and `k` move the selection and ask for
    /// the diff of the file reached, `s` toggles the staging of the
    /// selected file, `d` asks for its diff, `x` is the discard key.
    pub open spec fn file_key(self, armed: Option<nat>, key: Key) -> Step {
        match key.code {
            KeyCode::Char(c) => if c == 'j' {
                if self.selected_file + 1 < self.status.files.len() {
                    (Ui { selected_file: self.selected_file + 1, ..self }).show_diff(true)
                } else {
                    Step { ui: self, action: ActionModel::Idle }
                }
            } else if c == 'k' {
                if self.selected_file > 0 {
                    (Ui { selected_file: (self.selected_file - 1) as nat, ..self }).show_diff(true)
                } else {
                    Step { ui: self, action: ActionModel::Idle }
                }
            } else if c == 's' {
                self.toggle_stage()
            } else if c == 'd' {
                self.show_diff(false)
            } else if c == 'x' {
                self.discard_key(armed)
            } else {
                Step { ui: self, action: ActionModel::Idle }
            },
            _ => Step { ui: self, action: ActionModel::Idle },
        }
    }

    /// A key in one of the two output panels: it scrolls.
    pub open spec fn scroll_key(self, key: Key, is_log: bool) -> Step {
        if is_log {
            Step {
                ui: Ui {
                    log_scroll: scrolled(
                        self.log_scroll,
                        scroll_delta(key, self.log_view_height),
                        scroll_limit(self.log_lines.len(), self.log_view_height),
                    ),
                    ..self
                },
                action: ActionModel::Idle,
            }
        } else {
            Step {
                ui: Ui {
                    result_scroll: scrolled(
                        self.result_scroll,
                        scroll_delta(key, self.result_view_height),
                        scroll_limit(self.result_lines.len(), self.result_view_height),
                    ),
                    ..self
                },
                action: ActionModel::Idle,
            }
        }
    }

    /// A key in normal mode. `armed` is the file that waited for the
    /// confirmation of its discard when the key came.
    pub open spec fn normal_key(self, armed: Option<nat>, key: Key) -> Step {
        match key.code {
            KeyCode::Char(c) => if c == 'c' && key.ctrl {
                self.cancel()
            } else if c == ':' {
                Step {
                    ui: Ui { mode: Mode::CommandLine, cmdline: Seq::empty(), ..self },
                    action: ActionModel::Idle,
                }
            } else if c == 'q' {
                Step { ui: self, action: ActionModel::Quit }
            } else if c == 'h' {
                Step { ui: Ui { focus: focus_left(self.focus), ..self }, action: ActionModel::Idle }
            } else if c == 'l' {
                Step {
                    ui: Ui { focus: focus_right(self.focus), ..self },
                    action: ActionModel::Idle,
                }
            } else {
                self.panel_key(armed, key)
            },
            _ => self.panel_key(armed, key),
        }
    }

    /// A key that is left to the panel in focus.
    pub open spec fn panel_key(self, armed: Option<nat>, key: Key) -> Step {
        match self.focus {
            Focus::Cmd => self.cmd_key(key),
            Focus::Files => self.file_key(armed, key),
            Focus::Log => self.scroll_key(key, true),
            Focus::Result => self.scroll_key(key, false),
        }
    }

    /// Enter on the command line: the line is trimmed and taken as a
    /// command. An empty line is none; `q` and `quit` leave; `stage` and
    /// `unstage` stand for fixed argument lines; anything else is an
    /// argument line for the tool.
    pub open spec fn submit(self) -> Step {
        let line = trimmed(self.cmdline);
        let s = Ui { cmdline: Seq::empty(), mode: Mode::Normal, ..self };
        if line.len() == 0 {
            Step { ui: s, action: ActionModel::Idle }
        } else if line == "q"@ || line == "quit"@ {
            Step { ui: s, action: ActionModel::Quit }
        } else if line == "stage"@ {
            s.dispatch("add -A"@, LfsMode::Off, false)
        } else if line == "unstage"@ {
            s.dispatch("restore --staged ."@, LfsMode::Off, false)
        } else {
            s.dispatch(line, LfsMode::Off, needs_editor(line))
        }
    }

    /// A key on the command line.
    pub open spec fn cmdline_key(self, key: Key) -> Step {
        match key.code {
            KeyCode::Esc => Step {
                ui: Ui { mode: Mode::Normal, cmdline: Seq::empty(), ..self },
                action: ActionModel::Idle,
            },
            KeyCode::Enter => self.submit(),
            KeyCode::Backspace => Step {
                ui: Ui {
                    cmdline: if self.cmdline.len() > 0 {
                        self.cmdline.drop_last()
                    } else {
                        self.cmdline
                    },
                    ..self
                },
                action: ActionModel::Idle,
            },
            KeyCode::Char(c) => Step {
                ui: Ui { cmdline: self.cmdline.push(c), ..self },
                action: ActionModel::Idle,
            },
            _ => Step { ui: self, action: ActionModel::Idle },
        }
    }

    /// What a key event does. Only a press does anything, and every press
    /// disarms a discard that waits for confirmation, except the discard
    /// key itself on the file that waits.
    pub open spec fn step(self, key: Key) -> Step {
        if !key.press {
            Step { ui: self, action: ActionModel::Idle }
        } else {
            let s = Ui { pending_discard: None, ..self };
            match self.mode {
                Mode::Normal => s.normal_key(self.pending_discard, key),
                Mode::CommandLine => s.cmdline_key(key),
            }
        }
    }

    /// The state after the completion messages `msgs` have come in, in
    /// this order. With the cancel flag up they are stale and dropped;
    /// else the last one is what the buffers show.
    pub open spec fn deliver(self, msgs: Seq<ResultModel>) -> Ui {
        if msgs.len() == 0 || self.cancel_requested {
            self
        } else {
            Ui {
                is_running: false,
                log_lines: msgs.last().log_lines,
                result_lines: msgs.last().result_lines,
                log_scroll: 0,
                result_scroll: 0,
                ..self
            }
        }
    }

    /// The state with a new snapshot of the repository: the selection
    /// stays within the files, and no discard waits any more.
    pub open spec fn refreshed(self, status: StatusModel) -> Ui {
        Ui {
            status,
            selected_file: if status.files.len() == 0 {
                0
            } else if self.selected_file >= status.files.len() {
                (status.files.len() - 1) as nat
            } else {
                self.selected_file
            },
            pending_discard: None,
            ..self
        }
    }

    /// The state after the command in the foreground has given the
    /// terminal back: its exit is noted, the screen is to be drawn anew,
    /// and `status` is the snapshot loaded after it.
    pub open spec fn after_interactive(self, outcome: OutcomeModel, status: StatusModel) -> Ui {
        (Ui {
            result_lines: self.result_lines.push(
                match outcome {
                    OutcomeModel::Finished { code, .. } => "git exit code: "@ + code_text(code),
                    OutcomeModel::Failed { error } => "ERROR: failed interactive git: "@ + error,
                },
            ),
            is_running: false,
            needs_full_redraw: true,
            ..self
        }).refreshed(status)
    }

    /// The state with the outcome of the diff shown under `label`.
    pub open spec fn with_diff(self, label: Seq<char>, outcome: OutcomeModel) -> Ui {
        Ui {
            log_lines: diff_log(outcome),
            result_lines: diff_report(label, outcome),
            log_scroll: 0,
            result_scroll: 0,
            ..self
        }
    }

    /// The state with the heights of the two output views set anew; a
    /// view has one line at least, and the offsets stay within their
    /// limits.
    pub open spec fn with_viewport(self, log_height: nat, result_height: nat) -> Ui {
        let lh = if log_height > 1 {
            log_height
        } else {
            1
        };
        let rh = if result_height > 1 {
            result_height
        } else {
            1
        };
        Ui {
            log_view_height: lh,
            result_view_height: rh,
            log_scroll: scrolled(self.log_scroll, 0, scroll_limit(self.log_lines.len(), lh)),
            result_scroll: scrolled(
                self.result_scroll,
                0,
                scroll_limit(self.result_lines.len(), rh),
            ),
            ..self
        }
    }
}

/// The state in which the dashboard starts.
pub open spec fn initial(
    config: ConfigModel,
    theme: Theme,
    platform: Platform,
    status: StatusModel,
) -> Ui {
    Ui {
        config,
        theme,
        platform,
        status,
        selected_cmd: 0,
        selected_file: 0,
        focus: Focus::Cmd,
        mode: Mode::Normal,
        log_lines: seq!["<no output yet>"@],
        result_lines: Seq::empty(),
        log_scroll: 0,
        result_scroll: 0,
        log_view_height: 1,
        result_view_height: 1,
        cmdline: Seq::empty(),
        needs_full_redraw: false,
        is_running: false,
        cancel_requested: false,
        pending_discard: None,
    }
}

/// What can happen to the dashboard: a key, or something that comes in
/// from outside.
pub ghost enum Event {
    /// A key event.
    Key(Key),
    /// Completion messages, in the order of their arrival.
    Messages(Seq<ResultModel>),
    /// A new snapshot of the repository.
    Refresh(StatusModel),
    /// The end of the command in the foreground, and the snapshot loaded
    /// after it.
    Returned(OutcomeModel, StatusModel),
    /// The outcome of a diff, and the line that shows its command.
    Diff(Seq<char>, OutcomeModel),
    /// New heights of the log view and of the result view.
    Viewport(nat, nat),
    /// The screen has been drawn anew.
    Redrawn,
}

/// The state after one event.
pub open spec fn after_event(ui: Ui, event: Event) -> Ui {
    match event {
        Event::Key(key) => ui.step(key).ui,
        Event::Messages(msgs) => ui.deliver(msgs),
        Event::Refresh(status) => ui.refreshed(status),
        Event::Returned(outcome, status) => ui.after_interactive(outcome, status),
        Event::Diff(label, outcome) => ui.with_diff(label, outcome),
        Event::Viewport(log_height, result_height) => ui.with_viewport(log_height, result_height),
        Event::Redrawn => Ui { needs_full_redraw: false, ..ui },
    }
}

/// The state after the events `events`, in this order.
pub open spec fn after_events(ui: Ui, events: Seq<Event>) -> Ui
    decreases events.len(),
{
    if events.len() == 0 {
        ui
    } else {
        after_event(after_events(ui, events.drop_last()), events.last())
    }
}

/// Sending a command on its way keeps a state well-formed.
pub proof fn lemma_dispatch_wf(ui: Ui, args: Seq<char>, lfs: LfsMode, interactive: bool)
    requires
        ui.wf(),
    ensures
        ui.dispatch(args, lfs, interactive).ui.wf(),
{
}

proof fn lemma_cmd_key_wf(ui: Ui, key: Key)
    requires
        ui.wf(),
    ensures
        ui.cmd_key(key).ui.wf(),
{
    if key.code is Enter && ui.selected_cmd < ui.config.commands.len() {
        let cmd = ui.config.commands[ui.selected_cmd as int];
        lemma_dispatch_wf(
            ui,
            cmd.cmd,
            lfs_mode_of(cmd.lfs),
            needs_terminal(cmd.cmd, cmd.interactive),
        );
    }
}

proof fn lemma_discard_key_wf(ui: Ui, armed: Option<nat>)
    requires
        ui.wf(),
        ui.mode is Normal,
        ui.focus is Files,
    ensures
        ui.discard_key(armed).ui.wf(),
{
    if ui.selected_file < ui.status.files.len() {
        let file = ui.status.files[ui.selected_file as int];
        lemma_dispatch_wf(ui, discard_command_of(file.status, file.path), LfsMode::Off, false);
    }
}

proof fn lemma_file_key_wf(ui: Ui, armed: Option<nat>, key: Key)
    requires
        ui.wf(),
        ui.pending_discard is None,
        ui.mode is Normal,
        ui.focus is Files,
    ensures
        ui.file_key(armed, key).ui.wf(),
{
    lemma_discard_key_wf(ui, armed);
    if ui.selected_file < ui.status.files.len() {
        let file = ui.status.files[ui.selected_file as int];
        lemma_dispatch_wf(ui, stage_command_of(file.status, file.path), LfsMode::Off, false);
    }
}

proof fn lemma_panel_key_wf(ui: Ui, armed: Option<nat>, key: Key)
    requires
        ui.wf(),
        ui.pending_discard is None,
        ui.mode is Normal,
    ensures
        ui.panel_key(armed, key).ui.wf(),
{
    match ui.focus {
        Focus::Cmd => lemma_cmd_key_wf(ui, key),
        Focus::Files => lemma_file_key_wf(ui, armed, key),
        Focus::Log => {},
        Focus::Result => {},
    }
}

proof fn lemma_normal_key_wf(ui: Ui, armed: Option<nat>, key: Key)
    requires
        ui.wf(),
        ui.pending_discard is None,
        ui.mode is Normal,
    ensures
        ui.normal_key(armed, key).ui.wf(),
{
    lemma_panel_key_wf(ui, armed, key);
    match key.code {
        KeyCode::Char(c) => {
            if c == 'c' && key.ctrl {
                assert(ui.cancel().ui.wf());
            } else if c == ':' {
                assert((Ui { mode: Mode::CommandLine, cmdline: Seq::empty(), ..ui }).wf());
            } else if c == 'q' {
            } else if c == 'h' {
                assert((Ui { focus: focus_left(ui.focus), ..ui }).wf());
            } else if c == 'l' {
                assert((Ui { focus: focus_right(ui.focus), ..ui }).wf());
            } else {
            }
        },
        _ => {},
    }
}

proof fn lemma_cmdline_key_wf(ui: Ui, key: Key)
    requires
        ui.wf(),
        ui.pending_discard is None,
    ensures
        ui.cmdline_key(key).ui.wf(),
{
    let line = trimmed(ui.cmdline);
    let s = Ui { cmdline: Seq::empty(), mode: Mode::Normal, ..ui };
    lemma_dispatch_wf(s, "add -A"@, LfsMode::Off, false);
    lemma_dispatch_wf(s, "restore --staged ."@, LfsMode::Off, false);
    lemma_dispatch_wf(s, line, LfsMode::Off, needs_editor(line));
}

/// A key event keeps a state well-formed.
pub proof fn lemma_step_wf(ui: Ui, key: Key)
    requires
        ui.wf(),
    ensures
        ui.step(key).ui.wf(),
{
    if key.press {
        let s = Ui { pending_discard: None, ..ui };
        match ui.mode {
            Mode::Normal => lemma_normal_key_wf(s, ui.pending_discard, key),
            Mode::CommandLine => lemma_cmdline_key_wf(s, key),
        }
    }
}

proof fn lemma_deliver_wf(ui: Ui, msgs: Seq<ResultModel>)
    requires
        ui.wf(),
    ensures
        ui.deliver(msgs).wf(),
{
}

proof fn lemma_refreshed_wf(ui: Ui, status: StatusModel)
    requires
        ui.wf(),
    ensures
        ui.refreshed(status).wf(),
{
}

proof fn lemma_after_interactive_wf(ui: Ui, outcome: OutcomeModel, status: StatusModel)
    requires
        ui.wf(),
    ensures
        ui.after_interactive(outcome, status).wf(),
{
    let noted = Ui {
        result_lines: ui.result_lines.push(
            match outcome {
                OutcomeModel::Finished { code, .. } => "git exit code: "@ + code_text(code),
                OutcomeModel::Failed { error } => "ERROR: failed interactive git: "@ + error,
            },
        ),
        is_running: false,
        needs_full_redraw: true,
        ..ui
    };
    assert(noted.wf());
    lemma_refreshed_wf(noted, status);
}

proof fn lemma_with_diff_wf(ui: Ui, label: Seq<char>, outcome: OutcomeModel)
    requires
        ui.wf(),
    ensures
        ui.with_diff(label, outcome).wf(),
{
}

proof fn lemma_with_viewport_wf(ui: Ui, log_height: nat, result_height: nat)
    requires
        ui.wf(),
    ensures
        ui.with_viewport(log_height, result_height).wf(),
{
}

/// An event keeps a state well-formed.
pub proof fn lemma_event_wf(ui: Ui, event: Event)
    requires
        ui.wf(),
    ensures
        after_event(ui, event).wf(),
{
    match event {
        Event::Key(key) => lemma_step_wf(ui, key),
        Event::Messages(msgs) => lemma_deliver_wf(ui, msgs),
        Event::Refresh(status) => lemma_refreshed_wf(ui, status),
        Event::Returned(outcome, status) => lemma_after_interactive_wf(ui, outcome, status),
        Event::Diff(label, outcome) => lemma_with_diff_wf(ui, label, outcome),
        Event::Viewport(log_height, result_height) => lemma_with_viewport_wf(
            ui,
            log_height,
            result_height,
        ),
        Event::Redrawn => {},
    }
}

/// The state in which the dashboard starts is well-formed.
pub proof fn lemma_initial_wf(
    config: ConfigModel,
    theme: Theme,
    platform: Platform,
    status: StatusModel,
)
    ensures
        initial(config, theme, platform, status).wf(),
{
}

/// Every state that the dashboard can reach is well-formed: the one in
/// which it starts, and every state after any sequence of events.
pub proof fn lemma_always_wf(
    config: ConfigModel,
    theme: Theme,
    platform: Platform,
    status: StatusModel,
    events: Seq<Event>,
)
    ensures
        after_events(initial(config, theme, platform, status), events).wf(),
{
    lemma_initial_wf(config, theme, platform, status);
    lemma_events_wf(initial(config, theme, platform, status), events);
}

/// Any sequence of events keeps a state well-formed.
pub proof fn lemma_events_wf(ui: Ui, events: Seq<Event>)
    requires
        ui.wf(),
    ensures
        after_events(ui, events).wf(),
    decreases events.len(),
{
    if events.len() > 0 {
        lemma_events_wf(ui, events.drop_last());
        lemma_event_wf(after_events(ui, events.drop_last()), events.last());
    }
}

/// After any sequence of events, page keys and half-page keys among them,
/// each scroll offset lies between zero and the number of lines that do
/// not fit into the view.
pub proof fn lemma_scroll_in_range(ui: Ui, events: Seq<Event>)
    requires
        ui.wf(),
    ensures
        ({
            let end = after_events(ui, events);
            &&& 0 <= end.log_scroll <= if end.log_lines.len() > end.log_view_height {
                end.log_lines.len() - end.log_view_height
            } else {
                0
            }
            &&& 0 <= end.result_scroll <= if end.result_lines.len() > end.result_view_height {
                end.result_lines.len() - end.result_view_height
            } else {
                0
            }
        }),
{
    lemma_events_wf(ui, events);
}

/// A discard waits for confirmation only on the selected file, in normal
/// mode and with the file list in focus, after any sequence of events.
pub proof fn lemma_pending_discard_is_current(ui: Ui, events: Seq<Event>)
    requires
        ui.wf(),
    ensures
        ({
            let end = after_events(ui, events);
            end.pending_discard is Some ==> {
                &&& end.pending_discard == Some(end.selected_file)
                &&& end.selected_file < end.status.files.len()
                &&& end.mode is Normal
                &&& end.focus is Files
            }
        }),
{
    lemma_events_wf(ui, events);
}

/// While a command is under way, sending another starts nothing and adds
/// exactly one line, the warning, to the result lines; the log and the
/// running command are left as they are.
pub proof fn lemma_dispatch_while_running(ui: Ui, args: Seq<char>, lfs: LfsMode, interactive: bool)
    requires
        ui.is_running,
    ensures
        ({
            let next = ui.dispatch(args, lfs, interactive);
            &&& next.action is Idle
            &&& next.ui.result_lines == ui.result_lines.push("WARN: already running command"@)
            &&& next.ui == (Ui {
                result_lines: next.ui.result_lines,
                pending_discard: None,
                ..ui
            })
        }),
{
}

/// Whether a step, taken while a command was under way, has left the
/// command alone and started nothing.
pub open spec fn keeps_running(next: Step) -> bool {
    &&& next.action is Idle || next.action is Quit || next.action is Cancel
    &&& next.ui.is_running || next.action is Cancel
}

proof fn lemma_dispatch_running(ui: Ui, args: Seq<char>, lfs: LfsMode, interactive: bool)
    requires
        ui.is_running,
    ensures
        keeps_running(ui.dispatch(args, lfs, interactive)),
{
}

proof fn lemma_panel_key_running(ui: Ui, armed: Option<nat>, key: Key)
    requires
        ui.is_running,
    ensures
        keeps_running(ui.panel_key(armed, key)),
{
    match ui.focus {
        Focus::Cmd => {
            if ui.selected_cmd < ui.config.commands.len() {
                let cmd = ui.config.commands[ui.selected_cmd as int];
                lemma_dispatch_running(
                    ui,
                    cmd.cmd,
                    lfs_mode_of(cmd.lfs),
                    needs_terminal(cmd.cmd, cmd.interactive),
                );
            }
        },
        Focus::Files => {
            if ui.selected_file < ui.status.files.len() {
                let file = ui.status.files[ui.selected_file as int];
                lemma_dispatch_running(
                    ui,
                    stage_command_of(file.status, file.path),
                    LfsMode::Off,
                    false,
                );
                lemma_dispatch_running(
                    ui,
                    discard_command_of(file.status, file.path),
                    LfsMode::Off,
                    false,
                );
            }
            let down = Ui { selected_file: ui.selected_file + 1, ..ui };
            let up = Ui { selected_file: (ui.selected_file - 1) as nat, ..ui };
            assert(keeps_running(down.show_diff(true)));
            assert(keeps_running(up.show_diff(true)));
            assert(keeps_running(ui.show_diff(false)));
            assert(keeps_running(ui.discard_key(armed)));
        },
        Focus::Log => {},
        Focus::Result => {},
    }
}

proof fn lemma_cmdline_key_running(ui: Ui, key: Key)
    requires
        ui.is_running,
    ensures
        keeps_running(ui.cmdline_key(key)),
{
    let line = trimmed(ui.cmdline);
    let s = Ui { cmdline: Seq::empty(), mode: Mode::Normal, ..ui };
    lemma_dispatch_running(s, "add -A"@, LfsMode::Off, false);
    lemma_dispatch_running(s, "restore --staged ."@, LfsMode::Off, false);
    lemma_dispatch_running(s, line, LfsMode::Off, needs_editor(line));
}

proof fn lemma_step_running(ui: Ui, key: Key)
    requires
        ui.is_running,
    ensures
        keeps_running(ui.step(key)),
{
    if key.press {
        let s = Ui { pending_discard: None, ..ui };
        match ui.mode {
            Mode::Normal => {
                lemma_panel_key_running(s, ui.pending_discard, key);
                assert(keeps_running(s.cancel()));
            },
            Mode::CommandLine => lemma_cmdline_key_running(s, key),
        }
    }
}

/// While a command is under way no key starts a process: neither in the
/// background nor in the foreground, and no diff.
pub proof fn lemma_no_launch_while_running(ui: Ui, key: Key)
    requires
        ui.is_running,
    ensures
        ({
            let a = ui.step(key).action;
            a is Idle || a is Quit || a is Cancel
        }),
{
    lemma_step_running(ui, key);
}

/// A command under way stays under way until it is given up: the only
/// key that ends it is the one that cancels, and what else comes in from
/// outside ends it only with a completion message or with the return of
/// the terminal.
pub proof fn lemma_running_until_ended(
    ui: Ui,
    key: Key,
    status: StatusModel,
    outcome: OutcomeModel,
    label: Seq<char>,
    log_height: nat,
    result_height: nat,
)
    requires
        ui.is_running,
    ensures
        ui.step(key).ui.is_running || ui.step(key).action is Cancel,
        ui.refreshed(status).is_running,
        ui.with_diff(label, outcome).is_running,
        ui.with_viewport(log_height, result_height).is_running,
        ui.deliver(Seq::empty()).is_running,
{
    lemma_step_running(ui, key);
}

/// With no command under way, the stage key on a file that is not staged
/// starts an `add` of its operands in the background, and on a staged
/// file a `restore --staged`.
pub proof fn lemma_stage_toggle(ui: Ui, key: Key)
    requires
        key.press,
        key.code == KeyCode::Char('s'),
        ui.mode is Normal,
        ui.focus is Files,
        ui.selected_file < ui.status.files.len(),
        !ui.is_running,
    ensures
        ({
            let file = ui.status.files[ui.selected_file as int];
            let operands = quoted_operands_of(file.path);
            let unstaged_delete = file.status.len() > 1 && file.status[1] == 'D';
            ui.step(key).action == (ActionModel::Background {
                args: if is_staged(file.status) {
                    "restore --staged -- "@ + operands
                } else if unstaged_delete {
                    "add -u -- "@ + operands
                } else {
                    "add -- "@ + operands
                },
                lfs: LfsMode::Off,
            })
        }),
        ui.step(key).ui.is_running,
{
}

/// Whether `key` is the discard key in a state where it acts on a file.
pub open spec fn is_discard_press(ui: Ui, key: Key) -> bool {
    &&& key.press
    &&& key.code == KeyCode::Char('x')
    &&& ui.mode is Normal
    &&& ui.focus is Files
    &&& ui.selected_file < ui.status.files.len()
}

/// The first press of the discard key arms the selected file and does
/// nothing else to the repository: no process is started.
pub proof fn lemma_discard_arms(ui: Ui, key: Key)
    requires
        ui.wf(),
        is_discard_press(ui, key),
        ui.pending_discard != Some(ui.selected_file),
    ensures
        ui.step(key).action is Idle,
        ui.step(key).ui.pending_discard == Some(ui.selected_file),
        ui.step(key).ui.is_running == ui.is_running,
        ui.step(key).ui.selected_file == ui.selected_file,
{
}

/// The second press in a row, on the same file and with no command under
/// way, starts the discard of that file, once, and disarms.
pub proof fn lemma_discard_confirms(ui: Ui, key: Key)
    requires
        ui.wf(),
        is_discard_press(ui, key),
        ui.pending_discard == Some(ui.selected_file),
        !ui.is_running,
    ensures
        ({
            let file = ui.status.files[ui.selected_file as int];
            ui.step(key).action == (ActionModel::Background {
                args: discard_command_of(file.status, file.path),
                lfs: LfsMode::Off,
            })
        }),
        ui.step(key).ui.pending_discard is None,
        ui.step(key).ui.is_running,
{
}

proof fn lemma_dispatch_disarms(ui: Ui, args: Seq<char>, lfs: LfsMode, interactive: bool)
    ensures
        ui.dispatch(args, lfs, interactive).ui.pending_discard is None,
{
}

proof fn lemma_panel_key_disarms(ui: Ui, armed: Option<nat>, key: Key)
    requires
        ui.pending_discard is None,
        !(ui.focus is Files && key.code == KeyCode::Char('x') && ui.selected_file
            < ui.status.files.len()),
    ensures
        ui.panel_key(armed, key).ui.pending_discard is None,
{
    match ui.focus {
        Focus::Cmd => {
            if ui.selected_cmd < ui.config.commands.len() {
                let cmd = ui.config.commands[ui.selected_cmd as int];
                lemma_dispatch_disarms(
                    ui,
                    cmd.cmd,
                    lfs_mode_of(cmd.lfs),
                    needs_terminal(cmd.cmd, cmd.interactive),
                );
            }
        },
        Focus::Files => {
            if ui.selected_file < ui.status.files.len() {
                let file = ui.status.files[ui.selected_file as int];
                lemma_dispatch_disarms(
                    ui,
                    stage_command_of(file.status, file.path),
                    LfsMode::Off,
                    false,
                );
            }
        },
        Focus::Log => {},
        Focus::Result => {},
    }
}

proof fn lemma_cmdline_key_disarms(ui: Ui, key: Key)
    requires
        ui.pending_discard is None,
    ensures
        ui.cmdline_key(key).ui.pending_discard is None,
{
    let line = trimmed(ui.cmdline);
    let s = Ui { cmdline: Seq::empty(), mode: Mode::Normal, ..ui };
    lemma_dispatch_disarms(s, "add -A"@, LfsMode::Off, false);
    lemma_dispatch_disarms(s, "restore --staged ."@, LfsMode::Off, false);
    lemma_dispatch_disarms(s, line, LfsMode::Off, needs_editor(line));
}

/// Any key pressed, but the discard key on a file, leaves no discard
/// waiting.
pub proof fn lemma_press_disarms(ui: Ui, other: Key)
    requires
        other.press,
        !is_discard_press(ui, other),
    ensures
        ui.step(other).ui.pending_discard is None,
{
    let s = Ui { pending_discard: None, ..ui };
    match ui.mode {
        Mode::Normal => {
            lemma_panel_key_disarms(s, ui.pending_discard, other);
        },
        Mode::CommandLine => {
            lemma_cmdline_key_disarms(s, other);
        },
    }
}

/// Any other key pressed disarms: the next press of the discard key arms
/// again and starts nothing.
pub proof fn lemma_other_key_disarms(ui: Ui, other: Key, key: Key)
    requires
        ui.wf(),
        other.press,
        !is_discard_press(ui, other),
        is_discard_press(ui.step(other).ui, key),
    ensures
        ui.step(other).ui.pending_discard is None,
        ui.step(other).ui.step(key).action is Idle,
        ui.step(other).ui.step(key).ui.pending_discard == Some(ui.step(other).ui.selected_file),
{
    lemma_press_disarms(ui, other);
    lemma_step_wf(ui, other);
    lemma_discard_arms(ui.step(other).ui, key);
}

} // verus!

//! One run of a command of the tool, with the large-file step that may
//! follow it.
//!
//! The run is a state machine. It names the process to launch; the caller
//! launches it, waits, and hands the outcome back together with the state
//! of the cancel flag at that moment. Cancelling is cooperative: it keeps
//! the follow-up step from starting and leaves the command itself alone.

use crate::git::{parse_args_line, tokenize, LfsMode};
use crate::text::{chain, extend_texts, lines, push_text, signed_decimal};
use vstd::prelude::*;

verus! {

/// What a run leaves for display.
#[derive(Clone, Debug)]
pub struct CommandResult {
    /// The output proper.
    pub log_lines: Vec<String>,
    /// The command as invoked, exit codes, and the error stream.
    pub result_lines: Vec<String>,
}

/// What a `CommandResult` stands for.
pub ghost struct ResultModel {
    pub log_lines: Seq<Seq<char>>,
    pub result_lines: Seq<Seq<char>>,
}

impl DeepView for CommandResult {
    type V = ResultModel;

    open spec fn deep_view(&self) -> ResultModel {
        ResultModel {
            log_lines: self.log_lines.deep_view(),
            result_lines: self.result_lines.deep_view(),
        }
    }
}

/// How the launch of a process ended.
#[derive(Clone, Debug)]
pub enum Outcome {
    /// The process ran to its end. `code` is `None` where the system
    /// reports no exit code.
    Finished { stdout: String, stderr: String, code: Option<i32> },
    /// The process could not be started; `error` says why.
    Failed { error: String },
}

/// What an `Outcome` stands for.
pub ghost enum OutcomeModel {
    Finished { stdout: Seq<char>, stderr: Seq<char>, code: Option<i32> },
    Failed { error: Seq<char> },
}

impl DeepView for Outcome {
    type V = OutcomeModel;

    open spec fn deep_view(&self) -> OutcomeModel {
        match self {
            Outcome::Finished { stdout, stderr, code } => OutcomeModel::Finished {
                stdout: stdout@,
                stderr: stderr@,
                code: *code,
            },
            Outcome::Failed { error } => OutcomeModel::Failed { error: error@ },
        }
    }
}

/// Where a run stands.
#[derive(Clone, Copy, PartialEq, Eq, Structural, Debug)]
pub enum Stage {
    /// The command itself is to be launched, or is under way.
    Primary,
    /// The follow-up step is to be launched, or is under way.
    FollowUp,
    /// Nothing is left to launch.
    Done,
}

/// A run as the contracts see it.
pub ghost struct RunModel {
    pub stage: Stage,
    pub lfs_mode: LfsMode,
    /// The arguments of the process to launch now; empty when done.
    pub argv: Seq<Seq<char>>,
    pub result: ResultModel,
}

/// An exit code as text; `-1` where there is none.
pub open spec fn code_text(code: Option<i32>) -> Seq<char> {
    match code {
        Some(c) => signed_decimal(c as int),
        None => signed_decimal(-1),
    }
}

/// The lines that report an error stream under `heading`: none where the
/// stream is empty.
pub open spec fn stderr_lines(heading: Seq<char>, stderr: Seq<char>) -> Seq<Seq<char>> {
    if stderr.len() == 0 {
        Seq::empty()
    } else {
        seq![heading] + lines(stderr)
    }
}

/// The result with the outcome of the command itself recorded. Empty
/// output is recorded as a line that says so.
pub open spec fn record_primary(r: ResultModel, o: OutcomeModel) -> ResultModel {
    match o {
        OutcomeModel::Finished { stdout, stderr, code } => ResultModel {
            log_lines: r.log_lines + if stdout.len() == 0 {
                seq!["<no stdout from git>"@]
            } else {
                lines(stdout)
            },
            result_lines: r.result_lines.push("git exit code: "@ + code_text(code)) + stderr_lines(
                "--- git stderr ---"@,
                stderr,
            ),
        },
        OutcomeModel::Failed { error } => ResultModel {
            log_lines: r.log_lines,
            result_lines: r.result_lines.push("ERROR: failed to run git: "@ + error),
        },
    }
}

/// The arguments of the follow-up step.
pub open spec fn follow_up_argv(mode: LfsMode) -> Seq<Seq<char>> {
    match mode {
        LfsMode::Off => Seq::empty(),
        LfsMode::Fetch => seq!["lfs"@, "fetch"@, "--all"@],
        LfsMode::Pull => seq!["lfs"@, "pull"@],
    }
}

/// The line that announces the follow-up step among the result lines.
pub open spec fn follow_up_title(mode: LfsMode) -> Seq<char> {
    match mode {
        LfsMode::Off => ""@,
        LfsMode::Fetch => "== git lfs fetch --all =="@,
        LfsMode::Pull => "== git lfs pull =="@,
    }
}

/// The line that heads the output of the follow-up step.
pub open spec fn follow_up_heading(mode: LfsMode) -> Seq<char> {
    match mode {
        LfsMode::Off => ""@,
        LfsMode::Fetch => "--- git lfs fetch --all ---"@,
        LfsMode::Pull => "--- git lfs pull ---"@,
    }
}

/// What stands before the exit code of the follow-up step.
pub open spec fn follow_up_exit_label(mode: LfsMode) -> Seq<char> {
    match mode {
        LfsMode::Off => ""@,
        LfsMode::Fetch => "git lfs fetch exit code: "@,
        LfsMode::Pull => "git lfs pull exit code: "@,
    }
}

/// What stands before the reason why the follow-up step did not start.
pub open spec fn follow_up_error_label(mode: LfsMode) -> Seq<char> {
    match mode {
        LfsMode::Off => ""@,
        LfsMode::Fetch => "ERROR: failed to run git lfs fetch: "@,
        LfsMode::Pull => "ERROR: failed to run git lfs pull: "@,
    }
}

/// The result with the outcome of the follow-up step recorded. Its output
/// gets a section of its own; empty output gets none.
pub open spec fn record_follow_up(r: ResultModel, mode: LfsMode, o: OutcomeModel) -> ResultModel {
    match o {
        OutcomeModel::Finished { stdout, stderr, code } => ResultModel {
            log_lines: r.log_lines + if stdout.len() == 0 {
                Seq::empty()
            } else {
                seq![Seq::empty(), follow_up_heading(mode)] + lines(stdout)
            },
            result_lines: r.result_lines.push(follow_up_exit_label(mode) + code_text(code))
                + stderr_lines("--- git lfs stderr ---"@, stderr),
        },
        OutcomeModel::Failed { error } => ResultModel {
            log_lines: r.log_lines,
            result_lines: r.result_lines.push(follow_up_error_label(mode) + error),
        },
    }
}

/// The run of the argument line `args`, which holds the arguments `argv`,
/// before anything is launched. A line without arguments is an error, and
/// nothing is launched for it.
pub open spec fn start_run(args: Seq<char>, argv: Seq<Seq<char>>, mode: LfsMode) -> RunModel {
    let echo = seq!["$ git "@ + args];
    if argv.len() == 0 {
        RunModel {
            stage: Stage::Done,
            lfs_mode: mode,
            argv: Seq::empty(),
            result: ResultModel {
                log_lines: Seq::empty(),
                result_lines: echo.push("ERROR: empty git command"@),
            },
        }
    } else {
        RunModel {
            stage: Stage::Primary,
            lfs_mode: mode,
            argv,
            result: ResultModel { log_lines: Seq::empty(), result_lines: echo },
        }
    }
}

/// A run that has nothing left to launch.
pub open spec fn finished(m: RunModel, result: ResultModel) -> RunModel {
    RunModel { stage: Stage::Done, argv: Seq::empty(), result, ..m }
}

/// The run after the process that it named has ended with `o`, the cancel
/// flag reading `canceled` at that moment.
///
/// After the command itself: a failed launch ends the run; so does a raised
/// cancel flag, with a note; otherwise the follow-up step is announced and
/// named, if one is configured. After the follow-up step the run is done,
/// whatever the flag reads.
pub open spec fn advance(m: RunModel, o: OutcomeModel, canceled: bool) -> RunModel {
    match m.stage {
        Stage::Primary => {
            let r = record_primary(m.result, o);
            if o is Failed {
                finished(m, r)
            } else if canceled {
                finished(
                    m,
                    ResultModel {
                        result_lines: r.result_lines.push("<canceled before LFS stage>"@),
                        ..r
                    },
                )
            } else if m.lfs_mode is Off {
                finished(m, r)
            } else {
                RunModel {
                    stage: Stage::FollowUp,
                    argv: follow_up_argv(m.lfs_mode),
                    result: ResultModel {
                        result_lines: r.result_lines.push(Seq::empty()).push(
                            follow_up_title(m.lfs_mode),
                        ),
                        ..r
                    },
                    ..m
                }
            }
        },
        Stage::FollowUp => finished(m, record_follow_up(m.result, m.lfs_mode, o)),
        Stage::Done => m,
    }
}

/// A run in progress.
pub struct GitRun {
    stage: Stage,
    lfs_mode: LfsMode,
    argv: Vec<String>,
    log_lines: Vec<String>,
    result_lines: Vec<String>,
}

impl DeepView for GitRun {
    type V = RunModel;

    closed spec fn deep_view(&self) -> RunModel {
        RunModel {
            stage: self.stage,
            lfs_mode: self.lfs_mode,
            argv: self.argv.deep_view(),
            result: ResultModel {
                log_lines: self.log_lines.deep_view(),
                result_lines: self.result_lines.deep_view(),
            },
        }
    }
}

/// An exit code as text.
fn code_string(code: Option<i32>) -> (s: String)
    ensures
        s@ == code_text(code),
{
    match code {
        Some(c) => crate::text::signed_decimal_of(c),
        None => crate::text::signed_decimal_of(-1),
    }
}

/// Appends the report of an error stream to `out`.
fn push_stderr(out: &mut Vec<String>, heading: &str, stderr: &str)
    ensures
        final(out).deep_view() == old(out).deep_view() + stderr_lines(heading@, stderr@),
{
    if stderr.is_empty() {
        assert(out.deep_view() + Seq::<Seq<char>>::empty() =~= out.deep_view());
    } else {
        let ghost before = out.deep_view();
        push_text(out, String::from_str(heading));
        let rows = crate::text::split_lines(stderr);
        extend_texts(out, &rows);
        assert(before.push(heading@) + rows.deep_view() =~= before + (seq![heading@]
            + rows.deep_view()));
    }
}

fn title_of(mode: LfsMode) -> (s: &'static str)
    ensures
        s@ == follow_up_title(mode),
{
    match mode {
        LfsMode::Off => "",
        LfsMode::Fetch => "== git lfs fetch --all ==",
        LfsMode::Pull => "== git lfs pull ==",
    }
}

fn heading_of(mode: LfsMode) -> (s: &'static str)
    ensures
        s@ == follow_up_heading(mode),
{
    match mode {
        LfsMode::Off => "",
        LfsMode::Fetch => "--- git lfs fetch --all ---",
        LfsMode::Pull => "--- git lfs pull ---",
    }
}

fn exit_label_of(mode: LfsMode) -> (s: &'static str)
    ensures
        s@ == follow_up_exit_label(mode),
{
    match mode {
        LfsMode::Off => "",
        LfsMode::Fetch => "git lfs fetch exit code: ",
        LfsMode::Pull => "git lfs pull exit code: ",
    }
}

fn error_label_of(mode: LfsMode) -> (s: &'static str)
    ensures
        s@ == follow_up_error_label(mode),
{
    match mode {
        LfsMode::Off => "",
        LfsMode::Fetch => "ERROR: failed to run git lfs fetch: ",
        LfsMode::Pull => "ERROR: failed to run git lfs pull: ",
    }
}

fn argv_of(mode: LfsMode) -> (argv: Vec<String>)
    ensures
        argv.deep_view() == follow_up_argv(mode),
{
    let mut argv: Vec<String> = Vec::new();
    assert(argv.deep_view() =~= Seq::<Seq<char>>::empty());
    match mode {
        LfsMode::Off => {},
        LfsMode::Fetch => {
            push_text(&mut argv, String::from_str("lfs"));
            push_text(&mut argv, String::from_str("fetch"));
            push_text(&mut argv, String::from_str("--all"));
            assert(argv.deep_view() =~= follow_up_argv(mode));
        },
        LfsMode::Pull => {
            push_text(&mut argv, String::from_str("lfs"));
            push_text(&mut argv, String::from_str("pull"));
            assert(argv.deep_view() =~= follow_up_argv(mode));
        },
    }
    argv
}

/// Begins the run of the argument line `args_str`, to be followed by the
/// step `lfs_mode`. Nothing is launched here: the run names its first
/// process, or is done at once where the line holds no argument.
pub fn run_git_with_lfs(args_str: &str, lfs_mode: LfsMode) -> (run: GitRun)
    ensures
        run.deep_view() == start_run(args_str@, tokenize(args_str@), lfs_mode),
{
    GitRun::start(args_str, parse_args_line(args_str), lfs_mode)
}

impl GitRun {
    /// Begins the run of the arguments `argv`, which were given as the
    /// line `args_str`, to be followed by the step `lfs_mode`.
    pub fn start(args_str: &str, argv: Vec<String>, lfs_mode: LfsMode) -> (run: GitRun)
        ensures
            run.deep_view() == start_run(args_str@, argv.deep_view(), lfs_mode),
    {
        let mut result_lines: Vec<String> = Vec::new();
        let log_lines: Vec<String> = Vec::new();
        assert(result_lines.deep_view() =~= Seq::<Seq<char>>::empty());
        assert(log_lines.deep_view() =~= Seq::<Seq<char>>::empty());
        push_text(&mut result_lines, chain("$ git ", args_str));
        assert(result_lines.deep_view() =~= seq!["$ git "@ + args_str@]);
        if argv.len() == 0 {
            push_text(&mut result_lines, String::from_str("ERROR: empty git command"));
            let empty: Vec<String> = Vec::new();
            assert(empty.deep_view() =~= Seq::<Seq<char>>::empty());
            GitRun { stage: Stage::Done, lfs_mode, argv: empty, log_lines, result_lines }
        } else {
            GitRun { stage: Stage::Primary, lfs_mode, argv, log_lines, result_lines }
        }
    }

    /// Where the run stands.
    pub fn stage(&self) -> (s: Stage)
        ensures
            s == self.deep_view().stage,
    {
        self.stage
    }

    /// The arguments of the process to launch now; empty when the run is
    /// done.
    pub fn command(&self) -> (argv: &Vec<String>)
        ensures
            argv.deep_view() == self.deep_view().argv,
    {
        &self.argv
    }

    /// Whether nothing is left to launch.
    pub fn is_done(&self) -> (b: bool)
        ensures
            b == (self.deep_view().stage is Done),
    {
        match self.stage {
            Stage::Done => true,
            _ => false,
        }
    }

    fn finish(&mut self)
        ensures
            final(self).deep_view() == finished(
                old(self).deep_view(),
                old(self).deep_view().result,
            ),
    {
        self.stage = Stage::Done;
        self.argv = Vec::new();
        assert(self.argv.deep_view() =~= Seq::<Seq<char>>::empty());
    }

    /// Takes the outcome of the process that the run named, and the state
    /// of the cancel flag at this moment.
    pub fn advance(&mut self, outcome: &Outcome, canceled: bool)
        ensures
            final(self).deep_view() == advance(
                old(self).deep_view(),
                outcome.deep_view(),
                canceled,
            ),
    {
        match self.stage {
            Stage::Primary => {
                match outcome {
                    Outcome::Finished { stdout, stderr, code } => {
                        if stdout.as_str().is_empty() {
                            push_text(
                                &mut self.log_lines,
                                String::from_str("<no stdout from git>"),
                            );
                            assert(self.log_lines.deep_view() =~= old(self).log_lines.deep_view()
                                + seq!["<no stdout from git>"@]);
                        } else {
                            let rows = crate::text::split_lines(stdout.as_str());
                            extend_texts(&mut self.log_lines, &rows);
                        }
                        let mut line = String::from_str("git exit code: ");
                        line.append(code_string(*code).as_str());
                        push_text(&mut self.result_lines, line);
                        push_stderr(&mut self.result_lines, "--- git stderr ---", stderr.as_str());
                        if canceled {
                            push_text(
                                &mut self.result_lines,
                                String::from_str("<canceled before LFS stage>"),
                            );
                            self.finish();
                        } else {
                            match self.lfs_mode {
                                LfsMode::Off => {
                                    self.finish();
                                },
                                _ => {
                                    push_text(&mut self.result_lines, String::new());
                                    push_text(
                                        &mut self.result_lines,
                                        String::from_str(title_of(self.lfs_mode)),
                                    );
                                    self.argv = argv_of(self.lfs_mode);
                                    self.stage = Stage::FollowUp;
                                },
                            }
                        }
                    },
                    Outcome::Failed { error } => {
                        push_text(
                            &mut self.result_lines,
                            chain("ERROR: failed to run git: ", error.as_str()),
                        );
                        self.finish();
                    },
                }
            },
            Stage::FollowUp => {
                match outcome {
                    Outcome::Finished { stdout, stderr, code } => {
                        if stdout.as_str().is_empty() {
                            assert(self.log_lines.deep_view() + Seq::<Seq<char>>::empty()
                                =~= self.log_lines.deep_view());
                        } else {
                            let ghost before = self.log_lines.deep_view();
                            push_text(&mut self.log_lines, String::new());
                            push_text(
                                &mut self.log_lines,
                                String::from_str(heading_of(self.lfs_mode)),
                            );
                            let rows = crate::text::split_lines(stdout.as_str());
                            extend_texts(&mut self.log_lines, &rows);
                            assert(self.log_lines.deep_view() =~= before + (seq![
                                Seq::empty(),
                                follow_up_heading(self.lfs_mode),
                            ] + lines(stdout@)));
                        }
                        let mut line = String::from_str(exit_label_of(self.lfs_mode));
                        line.append(code_string(*code).as_str());
                        push_text(&mut self.result_lines, line);
                        push_stderr(
                            &mut self.result_lines,
                            "--- git lfs stderr ---",
                            stderr.as_str(),
                        );
                    },
                    Outcome::Failed { error } => {
                        push_text(
                            &mut self.result_lines,
                            chain(error_label_of(self.lfs_mode), error.as_str()),
                        );
                    },
                }
                self.finish();
            },
            Stage::Done => {},
        }
    }

    /// What the run leaves for display.
    pub fn into_result(self) -> (r: CommandResult)
        ensures
            r.deep_view() == self.deep_view().result,
    {
        CommandResult { log_lines: self.log_lines, result_lines: self.result_lines }
    }
}

/// A run whose cancel flag is found raised when its command ends is done
/// at that point, whatever follow-up step was configured: the result is
/// that of the same run without a follow-up step, and its log holds what
/// the command printed and nothing else.
pub proof fn lemma_cancel_skips_follow_up(
    args: Seq<char>,
    argv: Seq<Seq<char>>,
    mode: LfsMode,
    stdout: Seq<char>,
    stderr: Seq<char>,
    code: Option<i32>,
)
    requires
        argv.len() > 0,
    ensures
        ({
            let o = OutcomeModel::Finished { stdout, stderr, code };
            let end = advance(start_run(args, argv, mode), o, true);
            &&& end.stage is Done
            &&& end.argv.len() == 0
            &&& end.result == advance(start_run(args, argv, LfsMode::Off), o, true).result
            &&& end.result.log_lines == record_primary(
                start_run(args, argv, mode).result,
                o,
            ).log_lines
            &&& end.result.result_lines.last() == "<canceled before LFS stage>"@
        }),
{
}

/// The follow-up step is launched exactly when there is a command, the
/// command ran, the cancel flag is down when it ends, and a step is
/// configured; then its arguments are those of the configured step.
pub proof fn lemma_follow_up_runs(
    args: Seq<char>,
    argv: Seq<Seq<char>>,
    mode: LfsMode,
    o: OutcomeModel,
    canceled: bool,
)
    ensures
        ({
            let next = advance(start_run(args, argv, mode), o, canceled);
            &&& next.stage is FollowUp <==> argv.len() > 0 && o is Finished && !canceled && !(mode
                is Off)
            &&& next.stage is FollowUp ==> next.argv == follow_up_argv(mode)
            &&& !(next.stage is FollowUp) ==> next.stage is Done && next.argv.len() == 0
        }),
{
}

/// A run that is done stays as it is.
pub proof fn lemma_done_is_final(m: RunModel, o: OutcomeModel, canceled: bool)
    requires
        m.stage is Done,
    ensures
        advance(m, o, canceled) == m,
{
}

/// Every run is done after two outcomes at most.
pub proof fn lemma_run_ends(
    args: Seq<char>,
    argv: Seq<Seq<char>>,
    mode: LfsMode,
    first: OutcomeModel,
    second: OutcomeModel,
    canceled_first: bool,
    canceled_second: bool,
)
    ensures
        advance(
            advance(start_run(args, argv, mode), first, canceled_first),
            second,
            canceled_second,
        ).stage is Done,
{
}

} // verus!

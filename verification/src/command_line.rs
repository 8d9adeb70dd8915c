//! Argument lines and argument vectors for the actions on a file: staging,
//! unstaging, discarding, and showing its diff.

use crate::config::CommandConfig;
use crate::git::{is_staged, is_untracked, operands_of, parse_args_line, tokenize, RepoFile};
use crate::text::{
    chars_of, chain, contains_char, extend_texts, join, join_texts, occurs_at, push_text, quoted,
    same_text, starts_with, strip_quotes, unquoted,
};
use vstd::prelude::*;

verus! {

/// The system whose null device stands for "no earlier version".
#[derive(Clone, Copy, PartialEq, Eq, Structural, Debug)]
pub enum Platform {
    Unix,
    Windows,
}

/// The name of the null device.
pub open spec fn null_device(platform: Platform) -> Seq<char> {
    match platform {
        Platform::Unix => "/dev/null"@,
        Platform::Windows => "NUL"@,
    }
}

impl Platform {
    /// The name of the null device.
    pub fn null_device(self) -> (s: &'static str)
        ensures
            s@ == null_device(self),
    {
        match self {
            Platform::Unix => "/dev/null",
            Platform::Windows => "NUL",
        }
    }
}

/// The operands of a path without the quotes around them.
pub open spec fn clean_operands_of(path: Seq<char>) -> Seq<Seq<char>> {
    operands_of(path).map_values(|p: Seq<char>| unquoted(p))
}

/// The operands of a path, each between one pair of quotes, with a space
/// between them: the form in which they go into an argument line.
pub open spec fn quoted_operands_of(path: Seq<char>) -> Seq<char> {
    join(operands_of(path).map_values(|p: Seq<char>| quoted(unquoted(p))), " "@)
}

/// The argument line that stages an entry that is not staged, and takes
/// out of the staging area one that is. A file deleted in the working tree
/// is staged with `-u`, so that the deletion is recorded.
pub open spec fn stage_command_of(status: Seq<char>, path: Seq<char>) -> Seq<char> {
    if is_staged(status) {
        "restore --staged -- "@ + quoted_operands_of(path)
    } else if status.len() > 1 && status[1] == 'D' {
        "add -u -- "@ + quoted_operands_of(path)
    } else {
        "add -- "@ + quoted_operands_of(path)
    }
}

/// The argument line that discards the changes to an entry: an untracked
/// file is removed, any other is restored in staging area and working tree.
pub open spec fn discard_command_of(status: Seq<char>, path: Seq<char>) -> Seq<char> {
    if is_untracked(status) {
        "clean -fd -- "@ + quoted_operands_of(path)
    } else {
        "restore --staged --worktree -- "@ + quoted_operands_of(path)
    }
}

/// The operands of `entry` without the quotes around them.
pub fn clean_operands(entry: &RepoFile) -> (r: Vec<String>)
    ensures
        r.deep_view() == clean_operands_of(entry.path@),
{
    let ops = entry.operands();
    let mut r: Vec<String> = Vec::new();
    let mut i: usize = 0;
    while i < ops.len()
        invariant
            i <= ops.len(),
            r.len() == i,
            forall|k: int| 0 <= k < i ==> r[k]@ == unquoted(#[trigger] ops[k]@),
        decreases ops.len() - i,
    {
        r.push(strip_quotes(ops[i].as_str()));
        i += 1;
    }
    assert(r.deep_view() =~= ops.deep_view().map_values(|p: Seq<char>| unquoted(p)));
    r
}

/// The operands of `entry`, quoted, as they go into an argument line.
pub fn quoted_operands(entry: &RepoFile) -> (r: String)
    ensures
        r@ == quoted_operands_of(entry.path@),
{
    let ops = entry.operands();
    let mut parts: Vec<String> = Vec::new();
    let mut i: usize = 0;
    proof {
        reveal_strlit("\"");
    }
    while i < ops.len()
        invariant
            i <= ops.len(),
            parts.len() == i,
            forall|k: int| 0 <= k < i ==> parts[k]@ == quoted(unquoted(#[trigger] ops[k]@)),
        decreases ops.len() - i,
    {
        let bare = strip_quotes(ops[i].as_str());
        let mut q = String::from_str("\"");
        q.append(bare.as_str());
        q.append("\"");
        proof {
            reveal_strlit("\"");
            assert("\""@ =~= seq!['"']);
        }
        parts.push(q);
        i += 1;
    }
    assert(parts.deep_view() =~= ops.deep_view().map_values(|p: Seq<char>| quoted(unquoted(p))));
    join_texts(&parts, " ")
}

/// The argument line that toggles the staging of `entry`.
pub fn stage_command(entry: &RepoFile) -> (r: String)
    ensures
        r@ == stage_command_of(entry.status@, entry.path@),
{
    let code = chars_of(entry.status.as_str());
    let untracked = same_text(entry.status.as_str(), "??");
    let staged = !untracked && code.len() > 0 && code[0] != ' ';
    let ops = quoted_operands(entry);
    if staged {
        chain("restore --staged -- ", ops.as_str())
    } else if code.len() > 1 && code[1] == 'D' {
        chain("add -u -- ", ops.as_str())
    } else {
        chain("add -- ", ops.as_str())
    }
}

/// The argument line that discards the changes to `entry`.
pub fn discard_command(entry: &RepoFile) -> (r: String)
    ensures
        r@ == discard_command_of(entry.status@, entry.path@),
{
    let ops = quoted_operands(entry);
    if same_text(entry.status.as_str(), "??") {
        chain("clean -fd -- ", ops.as_str())
    } else {
        chain("restore --staged --worktree -- ", ops.as_str())
    }
}

/// The template of the diff command, given its arguments as configured:
/// without a leading `git`, and `diff HEAD --` where nothing is left.
pub open spec fn template_of(given: Seq<Seq<char>>) -> Seq<Seq<char>> {
    let args = if given.len() > 0 && given[0] == "git"@ {
        given.drop_first()
    } else {
        given
    };
    if args.len() == 0 {
        seq!["diff"@, "HEAD"@, "--"@]
    } else {
        args
    }
}

/// The template of the diff command as configured; `diff HEAD --` where
/// none is configured.
pub open spec fn diff_template(raw: Option<Seq<char>>) -> Seq<Seq<char>> {
    template_of(
        tokenize(
            match raw {
                Some(r) => r,
                None => "diff HEAD --"@,
            },
        ),
    )
}

/// `template` with every `{files}` replaced by the operands.
pub open spec fn substitute(template: Seq<Seq<char>>, operands: Seq<Seq<char>>) -> Seq<Seq<char>>
    decreases template.len(),
{
    if template.len() == 0 {
        Seq::empty()
    } else {
        substitute(template.drop_last(), operands) + if template.last() == "{files}"@ {
            operands
        } else {
            seq![template.last()]
        }
    }
}

/// The arguments of the diff of `operands`. Where the template has a
/// placeholder the operands take its place; where it has none they follow
/// the template, after a `--` that is added unless the template has one.
pub open spec fn diff_argv(template: Seq<Seq<char>>, operands: Seq<Seq<char>>) -> Seq<Seq<char>> {
    if template.contains("{files}"@) {
        substitute(template, operands)
    } else if template.contains("--"@) {
        template + operands
    } else {
        template.push("--"@) + operands
    }
}

/// An argument as it is shown: between quotes where it holds a space.
pub open spec fn shown(arg: Seq<char>) -> Seq<char> {
    if arg.contains(' ') {
        quoted(arg)
    } else {
        arg
    }
}

/// The line that shows a diff command.
pub open spec fn diff_label(argv: Seq<Seq<char>>) -> Seq<char> {
    "git "@ + join(argv.map_values(|a: Seq<char>| shown(a)), " "@)
}

/// The arguments of the diff of an untracked file: against the null
/// device, whatever the template says.
pub open spec fn untracked_diff_argv(platform: Platform, operands: Seq<Seq<char>>) -> Seq<
    Seq<char>,
> {
    seq!["diff"@, "--no-index"@, "--"@, null_device(platform)] + operands
}

/// The line that shows the diff command of an untracked file.
pub open spec fn untracked_diff_label(platform: Platform, operands: Seq<Seq<char>>) -> Seq<char> {
    "git diff --no-index -- "@ + null_device(platform) + " "@ + join(operands, " "@)
}

/// Whether an argument gives the message of a commit.
pub open spec fn is_message_flag(arg: Seq<char>) -> bool {
    arg == "-m"@ || arg == "--message"@ || occurs_at(arg, "--message="@, 0)
}

/// Whether these arguments are a commit without a message.
pub open spec fn is_bare_commit(parts: Seq<Seq<char>>) -> bool {
    &&& parts.len() > 0
    &&& parts[0] == "commit"@
    &&& forall|i: int| 0 <= i < parts.len() ==> !is_message_flag(#[trigger] parts[i])
}

/// Whether an argument line is a commit without a message, which opens an
/// editor.
pub open spec fn needs_editor(args: Seq<char>) -> bool {
    is_bare_commit(tokenize(args))
}

/// Whether a command needs the terminal for itself: because its
/// configuration says so, or because it opens an editor.
pub open spec fn needs_terminal(args: Seq<char>, flagged: bool) -> bool {
    flagged || needs_editor(args)
}

/// Whether `s` is among `v`.
pub fn contains_text(v: &Vec<String>, s: &str) -> (r: bool)
    ensures
        r == v.deep_view().contains(s@),
{
    let mut i: usize = 0;
    while i < v.len()
        invariant
            i <= v.len(),
            forall|k: int| 0 <= k < i ==> v.deep_view()[k] != s@,
        decreases v.len() - i,
    {
        if same_text(v[i].as_str(), s) {
            assert(v.deep_view()[i as int] == s@);
            return true;
        }
        i += 1;
    }
    false
}

/// The template of the diff command, given its arguments as configured.
pub fn template_from(given: &Vec<String>) -> (r: Vec<String>)
    ensures
        r.deep_view() == template_of(given.deep_view()),
{
    let mut args: Vec<String> = Vec::new();
    assert(args.deep_view() =~= Seq::<Seq<char>>::empty());
    let skip: usize = if given.len() > 0 && same_text(given[0].as_str(), "git") {
        1
    } else {
        0
    };
    let mut i: usize = skip;
    while i < given.len()
        invariant
            skip <= i <= given.len(),
            args.deep_view() == given.deep_view().subrange(skip as int, i as int),
        decreases given.len() - i,
    {
        push_text(&mut args, given[i].clone());
        assert(given.deep_view().subrange(skip as int, i + 1) =~= given.deep_view().subrange(
            skip as int,
            i as int,
        ).push(given[i as int]@));
        i += 1;
    }
    assert(skip == 1 ==> given.deep_view().subrange(1, given.len() as int)
        =~= given.deep_view().drop_first());
    assert(skip == 0 ==> given.deep_view().subrange(0, given.len() as int) =~= given.deep_view());
    if args.len() == 0 {
        push_text(&mut args, String::from_str("diff"));
        push_text(&mut args, String::from_str("HEAD"));
        push_text(&mut args, String::from_str("--"));
        assert(args.deep_view() =~= seq!["diff"@, "HEAD"@, "--"@]);
    }
    args
}

/// The template of the diff command as configured.
pub fn template_args(raw: &Option<String>) -> (r: Vec<String>)
    ensures
        r.deep_view() == diff_template(raw.deep_view()),
{
    let given = match raw {
        Some(t) => parse_args_line(t.as_str()),
        None => parse_args_line("diff HEAD --"),
    };
    template_from(&given)
}

/// The line that shows the diff command `argv`.
pub fn label_of_args(argv: &Vec<String>) -> (r: String)
    ensures
        r@ == diff_label(argv.deep_view()),
{
    let mut parts: Vec<String> = Vec::new();
    let mut i: usize = 0;
    while i < argv.len()
        invariant
            i <= argv.len(),
            parts.len() == i,
            forall|k: int| 0 <= k < i ==> parts[k]@ == shown(#[trigger] argv[k]@),
        decreases argv.len() - i,
    {
        if contains_char(argv[i].as_str(), ' ') {
            let mut q = String::from_str("\"");
            q.append(argv[i].as_str());
            q.append("\"");
            proof {
                reveal_strlit("\"");
                assert("\""@ =~= seq!['"']);
            }
            parts.push(q);
        } else {
            parts.push(argv[i].clone());
        }
        i += 1;
    }
    assert(parts.deep_view() =~= argv.deep_view().map_values(|a: Seq<char>| shown(a)));
    let joined = join_texts(&parts, " ");
    chain("git ", joined.as_str())
}

/// The arguments of the diff of `operands` after the template `args`.
pub fn diff_args(args: &Vec<String>, operands: &Vec<String>) -> (argv: Vec<String>)
    ensures
        argv.deep_view() == diff_argv(args.deep_view(), operands.deep_view()),
{
    let mut argv: Vec<String> = Vec::new();
    assert(argv.deep_view() =~= Seq::<Seq<char>>::empty());
    if contains_text(args, "{files}") {
        let mut i: usize = 0;
        assert(args.deep_view().take(0) =~= Seq::<Seq<char>>::empty());
        while i < args.len()
            invariant
                i <= args.len(),
                argv.deep_view() == substitute(
                    args.deep_view().take(i as int),
                    operands.deep_view(),
                ),
            decreases args.len() - i,
        {
            assert(args.deep_view().take(i + 1).drop_last() =~= args.deep_view().take(i as int));
            if same_text(args[i].as_str(), "{files}") {
                extend_texts(&mut argv, operands);
            } else {
                let ghost before = argv.deep_view();
                push_text(&mut argv, args[i].clone());
                assert(before.push(args[i as int]@) =~= before + seq![args[i as int]@]);
            }
            i += 1;
        }
        assert(args.deep_view().take(i as int) =~= args.deep_view());
    } else {
        let dashed = contains_text(args, "--");
        extend_texts(&mut argv, args);
        assert(argv.deep_view() =~= args.deep_view());
        if !dashed {
            push_text(&mut argv, String::from_str("--"));
        }
        extend_texts(&mut argv, operands);
    }
    argv
}

/// The diff command of `operands` after the configured template: its
/// arguments, and the line that shows it.
pub fn build_diff_command(template: &Option<String>, operands: &Vec<String>) -> (r: (
    Vec<String>,
    String,
))
    ensures
        r.0.deep_view() == diff_argv(diff_template(template.deep_view()), operands.deep_view()),
        r.1@ == diff_label(r.0.deep_view()),
{
    let args = template_args(template);
    let argv = diff_args(&args, operands);
    let label = label_of_args(&argv);
    (argv, label)
}

/// The diff command of the untracked file with these operands: its
/// arguments, and the line that shows it.
pub fn untracked_diff_command(platform: Platform, operands: &Vec<String>) -> (r: (
    Vec<String>,
    String,
))
    ensures
        r.0.deep_view() == untracked_diff_argv(platform, operands.deep_view()),
        r.1@ == untracked_diff_label(platform, operands.deep_view()),
{
    let null = platform.null_device();
    let mut argv: Vec<String> = Vec::new();
    assert(argv.deep_view() =~= Seq::<Seq<char>>::empty());
    push_text(&mut argv, String::from_str("diff"));
    push_text(&mut argv, String::from_str("--no-index"));
    push_text(&mut argv, String::from_str("--"));
    push_text(&mut argv, String::from_str(null));
    assert(argv.deep_view() =~= seq!["diff"@, "--no-index"@, "--"@, null_device(platform)]);
    extend_texts(&mut argv, operands);
    let mut label = String::from_str("git diff --no-index -- ");
    label.append(null);
    label.append(" ");
    label.append(join_texts(operands, " ").as_str());
    (argv, label)
}

/// Whether these arguments are a commit without a message.
pub fn is_bare_commit_args(parts: &Vec<String>) -> (r: bool)
    ensures
        r == is_bare_commit(parts.deep_view()),
{
    if parts.len() == 0 {
        return false;
    }
    if !same_text(parts[0].as_str(), "commit") {
        return false;
    }
    let mut i: usize = 0;
    while i < parts.len()
        invariant
            i <= parts.len(),
            forall|k: int| 0 <= k < i ==> !is_message_flag(#[trigger] parts.deep_view()[k]),
        decreases parts.len() - i,
    {
        let p = parts[i].as_str();
        if same_text(p, "-m") || same_text(p, "--message") || starts_with(p, "--message=") {
            assert(is_message_flag(parts.deep_view()[i as int]));
            return false;
        }
        i += 1;
    }
    true
}

/// Whether an argument line is a commit without a message.
pub fn is_commit_needing_editor(args_str: &str) -> (r: bool)
    ensures
        r == needs_editor(args_str@),
{
    let parts = parse_args_line(args_str);
    is_bare_commit_args(&parts)
}

/// Whether a command needs the terminal for itself. `cfg` is the menu
/// entry that it comes from, if it comes from one.
pub fn requires_interactive(args_str: &str, cfg: Option<&CommandConfig>) -> (r: bool)
    ensures
        r == needs_terminal(
            args_str@,
            match cfg {
                Some(c) => c.interactive,
                None => false,
            },
        ),
{
    let flagged = match cfg {
        Some(c) => c.interactive,
        None => false,
    };
    if flagged {
        return true;
    }
    is_commit_needing_editor(args_str)
}

} // verus!

//! The repository as the version-control tool reports it: files with their
//! two-letter status codes, the counts derived from them, and the argument
//! lines handed to the tool.

use crate::text::{
    chars_of, decimal, drop_trailing, find, find_from, lemma_find_is, lemma_find_none, lines,
    occurs_at, push_decimal, push_text, same_text, split_lines, string_of, strip_bounds,
    trailing_run, trailing_run_start, trailing_start, trim, trimmed, unquoted, white_space,
    CharClass,
};
use vstd::prelude::*;

verus! {

/// The large-file step that follows a command.
#[derive(Clone, Copy, PartialEq, Eq, Structural, Debug)]
pub enum LfsMode {
    /// No step follows.
    Off,
    /// All large files are fetched.
    Fetch,
    /// The large files of the current branch are pulled.
    Pull,
}

/// One entry of the working tree.
#[derive(Clone, Debug)]
pub struct RepoFile {
    /// The two-letter status code.
    pub status: String,
    /// The path; a rename reads `old -> new`.
    pub path: String,
}

/// What a `RepoFile` stands for.
pub ghost struct FileModel {
    pub status: Seq<char>,
    pub path: Seq<char>,
}

impl DeepView for RepoFile {
    type V = FileModel;

    open spec fn deep_view(&self) -> FileModel {
        FileModel { status: self.status@, path: self.path@ }
    }
}

/// The arrow that separates the two names of a rename.
pub open spec fn arrow() -> Seq<char> {
    seq![' ', '-', '>', ' ']
}

/// The path arguments that stand for an entry: the two names of a rename,
/// else the path itself. A path with more than one arrow is no rename.
pub open spec fn operands_of(path: Seq<char>) -> Seq<Seq<char>> {
    match find(path, arrow()) {
        Some(i) => {
            let rest = path.skip(i + 4);
            if find(rest, arrow()) is None {
                seq![path.take(i), rest]
            } else {
                seq![path]
            }
        },
        None => seq![path],
    }
}

/// What follows the last arrow of `path`, the arrows being taken from the
/// left and none overlapping another.
pub open spec fn after_arrows(path: Seq<char>) -> Seq<char>
    decreases path.len(),
{
    match find(path, arrow()) {
        Some(i) => {
            if 0 <= i && i + 4 <= path.len() {
                after_arrows(path.skip(i + 4))
            } else {
                path
            }
        },
        None => path,
    }
}

/// The last non-empty component of `s`, components being separated by `/`
/// or `\`; empty where `s` has none.
pub open spec fn base_name(s: Seq<char>) -> Seq<char> {
    trailing_run(
        drop_trailing(s, CharClass::PathSeparator),
        CharClass::PathSeparator,
    )
}

/// The name under which an entry is shown: the base name of the rename
/// target without surrounding quotes. A target that is nothing but
/// separators is shown as it is, and an empty one with its quotes.
pub open spec fn label_of(path: Seq<char>) -> Seq<char> {
    let target = after_arrows(path);
    let cleaned = unquoted(target);
    let base = base_name(cleaned);
    if base.len() > 0 {
        base
    } else if cleaned.len() > 0 {
        cleaned
    } else {
        target
    }
}

/// The arrow as characters.
fn arrow_chars() -> (p: Vec<char>)
    ensures
        p@ == arrow(),
        p.len() == 4,
{
    let p = vec![' ', '-', '>', ' '];
    assert(p@ =~= arrow());
    p
}

impl RepoFile {
    /// The path arguments that stand for this entry.
    pub fn operands(&self) -> (r: Vec<String>)
        ensures
            r.deep_view() == operands_of(self.path@),
    {
        let v = chars_of(self.path.as_str());
        let pat = arrow_chars();
        assert(v@.skip(0) =~= v@);
        let mut r: Vec<String> = Vec::new();
        match find_from(&v, &pat, 0) {
            Some(i) => {
                match find_from(&v, &pat, i + 4) {
                    Some(_) => {
                        r.push(self.path.clone());
                        assert(r.deep_view() =~= seq![self.path@]);
                    },
                    None => {
                        let old_name = string_of(&v, 0, i);
                        let new_name = string_of(&v, i + 4, v.len());
                        r.push(old_name);
                        r.push(new_name);
                        assert(r.deep_view() =~= seq![v@.take(i as int), v@.skip(i + 4)]);
                    },
                }
            },
            None => {
                r.push(self.path.clone());
                assert(r.deep_view() =~= seq![self.path@]);
            },
        }
        r
    }

    /// The name under which this entry is shown.
    pub fn display_label(&self) -> (r: String)
        ensures
            r@ == label_of(self.path@),
    {
        let v = chars_of(self.path.as_str());
        let pat = arrow_chars();
        let mut start: usize = 0;
        assert(v@.skip(0) =~= v@);
        loop
            invariant
                start <= v.len(),
                pat@ == arrow(),
                pat.len() == 4,
                after_arrows(v@) == after_arrows(v@.skip(start as int)),
            ensures
                start <= v.len(),
                after_arrows(v@) == v@.skip(start as int),
            decreases v.len() - start,
        {
            match find_from(&v, &pat, start) {
                Some(i) => {
                    assert(v@.skip(start as int).skip(i - start + 4) =~= v@.skip(i + 4));
                    start = i + 4;
                },
                None => {
                    break ;
                },
            }
        }
        let n = v.len();
        assert(v@.skip(start as int) =~= v@.subrange(start as int, n as int));
        let (a, b) = strip_bounds(&v, start, n, CharClass::Quote);
        let j = trailing_start(&v, a, b, CharClass::PathSeparator);
        let k = trailing_run_start(&v, a, j, CharClass::PathSeparator);
        if k < j {
            string_of(&v, k, j)
        } else if a < b {
            string_of(&v, a, b)
        } else {
            string_of(&v, start, n)
        }
    }
}

/// A path without an arrow stands for itself.
pub proof fn lemma_plain_operands(path: Seq<char>)
    requires
        forall|j: int| !occurs_at(path, arrow(), j),
    ensures
        operands_of(path) == seq![path],
{
    lemma_find_none(path, arrow());
}

/// A rename `old -> new` stands for its two names, in this order, provided
/// that the arrow between them is the only one: none begins before it, and
/// `new` holds none.
pub proof fn lemma_rename_operands(old_name: Seq<char>, new_name: Seq<char>)
    requires
        forall|j: int|
            0 <= j < old_name.len() ==> !occurs_at(old_name + arrow() + new_name, arrow(), j),
        forall|j: int| !occurs_at(new_name, arrow(), j),
    ensures
        operands_of(old_name + arrow() + new_name) == seq![old_name, new_name],
{
    let path = old_name + arrow() + new_name;
    let n = old_name.len() as int;
    assert(path.subrange(n, n + 4) =~= arrow());
    lemma_find_is(path, arrow(), n);
    assert(path.skip(n + 4) =~= new_name);
    assert(path.take(n) =~= old_name);
    lemma_find_none(new_name, arrow());
}

/// Whether `code` is the code of an untracked file.
pub open spec fn is_untracked(code: Seq<char>) -> bool {
    code == "??"@
}

/// Whether the first letter of `code` reports a change in the staging area.
pub open spec fn is_staged(code: Seq<char>) -> bool {
    !is_untracked(code) && code.len() > 0 && code[0] != ' '
}

/// Whether the second letter of `code` reports a change in the working
/// tree.
pub open spec fn is_unstaged(code: Seq<char>) -> bool {
    !is_untracked(code) && code.len() > 1 && code[1] != ' '
}

/// The three counts kept of a status listing.
pub ghost enum Bucket {
    Staged,
    Unstaged,
    Untracked,
}

/// Whether an entry with this code is counted in `bucket`.
pub open spec fn counts_in(code: Seq<char>, bucket: Bucket) -> bool {
    match bucket {
        Bucket::Staged => is_staged(code),
        Bucket::Unstaged => is_unstaged(code),
        Bucket::Untracked => is_untracked(code),
    }
}

/// How many of `files` are counted in `bucket`.
pub open spec fn count(files: Seq<FileModel>, bucket: Bucket) -> nat
    decreases files.len(),
{
    if files.len() == 0 {
        0
    } else {
        count(files.drop_last(), bucket) + if counts_in(files.last().status, bucket) {
            1nat
        } else {
            0nat
        }
    }
}

/// No more files are counted than there are.
pub proof fn lemma_count_bound(files: Seq<FileModel>, bucket: Bucket)
    ensures
        count(files, bucket) <= files.len(),
    decreases files.len(),
{
    if files.len() > 0 {
        lemma_count_bound(files.drop_last(), bucket);
    }
}

/// The entry that a status line stands for: the code is its first two
/// characters, the path what follows the third. A shorter line stands for
/// none.
pub open spec fn entry_of(line: Seq<char>) -> Option<FileModel> {
    if line.len() < 3 {
        None
    } else {
        Some(FileModel { status: line.take(2), path: line.skip(3) })
    }
}

/// The entries of a status listing, in the order of its lines.
pub open spec fn entries(lines: Seq<Seq<char>>) -> Seq<FileModel>
    decreases lines.len(),
{
    if lines.len() == 0 {
        Seq::empty()
    } else {
        match entry_of(lines.last()) {
            Some(f) => entries(lines.drop_last()).push(f),
            None => entries(lines.drop_last()),
        }
    }
}

/// What a line of three characters or more adds to a listing is decided by
/// its two-letter code alone: one entry, counted in the buckets of that
/// code. The code `??` counts as untracked and as nothing else.
pub proof fn lemma_line_classification(lines: Seq<Seq<char>>, line: Seq<char>, bucket: Bucket)
    requires
        line.len() >= 3,
    ensures
        entries(lines.push(line)).len() == entries(lines).len() + 1,
        count(entries(lines.push(line)), bucket) == count(entries(lines), bucket) + if counts_in(
            line.take(2),
            bucket,
        ) {
            1nat
        } else {
            0nat
        },
        line.take(2) == "??"@ ==> (counts_in(line.take(2), bucket) <==> bucket is Untracked),
{
    let all = lines.push(line);
    assert(all.drop_last() =~= lines);
    let f = entry_of(line)->0;
    assert(entries(all) == entries(lines).push(f));
    assert(entries(all).drop_last() =~= entries(lines));
}

/// A snapshot of the repository: the branch, the files in the order
/// reported, and how many of them are staged, unstaged and untracked.
#[derive(Clone, Debug)]
pub struct RepoStatus {
    pub branch: String,
    pub staged: usize,
    pub unstaged: usize,
    pub untracked: usize,
    pub files: Vec<RepoFile>,
}

/// What a `RepoStatus` stands for.
pub ghost struct StatusModel {
    pub branch: Seq<char>,
    pub staged: nat,
    pub unstaged: nat,
    pub untracked: nat,
    pub files: Seq<FileModel>,
}

impl DeepView for RepoStatus {
    type V = StatusModel;

    open spec fn deep_view(&self) -> StatusModel {
        StatusModel {
            branch: self.branch@,
            staged: self.staged as nat,
            unstaged: self.unstaged as nat,
            untracked: self.untracked as nat,
            files: self.files.deep_view(),
        }
    }
}

/// The snapshot of a repository of which nothing is known.
pub open spec fn empty_status() -> StatusModel {
    StatusModel { branch: Seq::empty(), staged: 0, unstaged: 0, untracked: 0, files: Seq::empty() }
}

/// The one-line summary of a snapshot.
pub open spec fn summary_of(st: StatusModel) -> Seq<char> {
    "["@ + st.branch + "] +"@ + decimal(st.staged) + " ~"@ + decimal(st.unstaged) + " ?"@
        + decimal(st.untracked)
}

/// The snapshot that the tool's output stands for. `branch` is what the
/// query for the branch name printed, `listing` what the query for the
/// short status printed; each is `None` where the query failed.
pub open spec fn status_of(branch: Option<Seq<char>>, listing: Option<Seq<char>>) -> StatusModel {
    let files = match listing {
        Some(text) => entries(lines(text)),
        None => Seq::empty(),
    };
    StatusModel {
        branch: match branch {
            Some(b) => trimmed(b),
            None => "?"@,
        },
        staged: count(files, Bucket::Staged),
        unstaged: count(files, Bucket::Unstaged),
        untracked: count(files, Bucket::Untracked),
        files,
    }
}

impl Default for RepoStatus {
    fn default() -> (r: RepoStatus)
        ensures
            r.deep_view() == empty_status(),
    {
        let r = RepoStatus {
            branch: String::new(),
            staged: 0,
            unstaged: 0,
            untracked: 0,
            files: Vec::new(),
        };
        assert(r.files.deep_view() =~= Seq::<FileModel>::empty());
        r
    }
}

impl RepoStatus {
    /// Whether the three counts are those of the files.
    pub open spec fn wf(&self) -> bool {
        &&& self.staged == count(self.files.deep_view(), Bucket::Staged)
        &&& self.unstaged == count(self.files.deep_view(), Bucket::Unstaged)
        &&& self.untracked == count(self.files.deep_view(), Bucket::Untracked)
    }

    /// The one-line summary: the branch in brackets, then the three counts.
    pub fn summary(&self) -> (r: String)
        ensures
            r@ == summary_of(self.deep_view()),
    {
        let mut r = String::from_str("[");
        r.append(self.branch.as_str());
        r.append("] +");
        push_decimal(&mut r, self.staged as u64);
        r.append(" ~");
        push_decimal(&mut r, self.unstaged as u64);
        r.append(" ?");
        push_decimal(&mut r, self.untracked as u64);
        r
    }
}

/// The follow-up step that a command's configuration names.
pub open spec fn lfs_mode_of(name: Option<Seq<char>>) -> LfsMode {
    match name {
        Some(n) => if n == "fetch"@ {
            LfsMode::Fetch
        } else if n == "pull"@ {
            LfsMode::Pull
        } else {
            LfsMode::Off
        },
        None => LfsMode::Off,
    }
}

/// The follow-up step that a command's configuration names: `fetch`,
/// `pull`, or none for anything else.
pub fn parse_lfs_mode(opt: Option<&String>) -> (r: LfsMode)
    ensures
        r == lfs_mode_of(opt.deep_view()),
{
    match opt {
        Some(name) => {
            if same_text(name.as_str(), "fetch") {
                LfsMode::Fetch
            } else if same_text(name.as_str(), "pull") {
                LfsMode::Pull
            } else {
                LfsMode::Off
            }
        },
        None => LfsMode::Off,
    }
}

/// Builds the snapshot from the tool's output. `branch` is what the query
/// for the branch name printed, `listing` what the query for the short
/// status printed; each is `None` where the query failed.
pub fn load_repo_status(branch: Option<&str>, listing: Option<&str>) -> (r: RepoStatus)
    ensures
        r.deep_view() == status_of(branch.deep_view(), listing.deep_view()),
        r.wf(),
{
    let name = match branch {
        Some(b) => trim(b),
        None => String::from_str("?"),
    };
    let mut files: Vec<RepoFile> = Vec::new();
    let mut staged: usize = 0;
    let mut unstaged: usize = 0;
    let mut untracked: usize = 0;
    assert(files.deep_view() =~= Seq::<FileModel>::empty());
    if let Some(text) = listing {
        let rows = split_lines(text);
        let mut i: usize = 0;
        assert(rows.deep_view().take(0) =~= Seq::<Seq<char>>::empty());
        while i < rows.len()
            invariant
                i <= rows.len(),
                files.len() <= i,
                files.deep_view() == entries(rows.deep_view().take(i as int)),
                staged == count(files.deep_view(), Bucket::Staged),
                unstaged == count(files.deep_view(), Bucket::Unstaged),
                untracked == count(files.deep_view(), Bucket::Untracked),
            decreases rows.len() - i,
        {
            let v = chars_of(rows[i].as_str());
            let ghost before = rows.deep_view().take(i as int);
            let ghost now = rows.deep_view().take(i + 1);
            assert(now.drop_last() =~= before);
            assert(now.last() == v@);
            if v.len() >= 3 {
                let code = string_of(&v, 0, 2);
                let path = string_of(&v, 3, v.len());
                let ghost old_files = files.deep_view();
                proof {
                    lemma_count_bound(old_files, Bucket::Staged);
                    lemma_count_bound(old_files, Bucket::Unstaged);
                    lemma_count_bound(old_files, Bucket::Untracked);
                }
                if same_text(code.as_str(), "??") {
                    untracked += 1;
                } else {
                    if v[0] != ' ' {
                        staged += 1;
                    }
                    if v[1] != ' ' {
                        unstaged += 1;
                    }
                }
                let file = RepoFile { status: code, path };
                files.push(file);
                assert(files.deep_view() =~= old_files.push(file.deep_view()));
                assert(files.deep_view().drop_last() =~= old_files);
            }
            i += 1;
        }
        assert(rows.deep_view().take(i as int) =~= rows.deep_view());
    }
    RepoStatus { branch: name, staged, unstaged, untracked, files }
}

/// The tokenizer's state after some characters of an argument line.
pub ghost struct Scan {
    /// The arguments that are complete.
    pub done: Seq<Seq<char>>,
    /// The argument that is being read.
    pub current: Seq<char>,
    /// Whether a double quote is open.
    pub in_quotes: bool,
    /// Whether the last character was a backslash inside quotes.
    pub escape: bool,
}

/// The state before the first character.
pub open spec fn scan_start() -> Scan {
    Scan { done: Seq::empty(), current: Seq::empty(), in_quotes: false, escape: false }
}

/// The state after one more character; `space` says whether the character
/// is white space. Inside quotes a backslash takes the next character as
/// it is; outside quotes it is a character like any other. A double quote
/// opens or closes a quoted stretch and is dropped. White space outside
/// quotes ends the current argument, if there is one.
pub open spec fn scan_step(st: Scan, c: char, space: bool) -> Scan {
    if st.escape {
        Scan { current: st.current.push(c), escape: false, ..st }
    } else if c == '\\' && st.in_quotes {
        Scan { escape: true, ..st }
    } else if c == '"' {
        Scan { in_quotes: !st.in_quotes, ..st }
    } else if space && !st.in_quotes {
        if st.current.len() > 0 {
            Scan { done: st.done.push(st.current), current: Seq::empty(), ..st }
        } else {
            st
        }
    } else {
        Scan { current: st.current.push(c), ..st }
    }
}

/// The state after all of `s`.
pub open spec fn scan(s: Seq<char>) -> Scan
    decreases s.len(),
{
    if s.len() == 0 {
        scan_start()
    } else {
        scan_step(scan(s.drop_last()), s.last(), white_space(s.last()))
    }
}

/// The arguments read in the state `st`: those that are complete and,
/// unless it is empty, the one being read.
pub open spec fn tokens_of(st: Scan) -> Seq<Seq<char>> {
    if st.current.len() > 0 {
        st.done.push(st.current)
    } else {
        st.done
    }
}

/// The arguments of the line `s`.
pub open spec fn tokenize(s: Seq<char>) -> Seq<Seq<char>> {
    tokens_of(scan(s))
}

/// No completed argument is empty.
pub proof fn lemma_scan_nonempty(s: Seq<char>)
    ensures
        forall|i: int| 0 <= i < scan(s).done.len() ==> (#[trigger] scan(s).done[i]).len() > 0,
    decreases s.len(),
{
    if s.len() > 0 {
        lemma_scan_nonempty(s.drop_last());
        let before = scan(s.drop_last());
        let after = scan(s);
        assert(after == scan_step(before, s.last(), white_space(s.last())));
        assert forall|i: int| 0 <= i < after.done.len() implies (#[trigger] after.done[i]).len()
            > 0 by {
            if i < before.done.len() {
                assert(after.done[i] == before.done[i]);
            }
        }
    }
}

/// No argument of a line is empty.
pub proof fn lemma_tokens_nonempty(s: Seq<char>)
    ensures
        forall|i: int| 0 <= i < tokenize(s).len() ==> (#[trigger] tokenize(s)[i]).len() > 0,
{
    lemma_scan_nonempty(s);
}

/// The tokenizer at work: it takes an argument line character by character.
pub struct Tokenizer {
    done: Vec<String>,
    current: String,
    in_quotes: bool,
    escape: bool,
}

impl DeepView for Tokenizer {
    type V = Scan;

    closed spec fn deep_view(&self) -> Scan {
        Scan {
            done: self.done.deep_view(),
            current: self.current@,
            in_quotes: self.in_quotes,
            escape: self.escape,
        }
    }
}

impl Tokenizer {
    /// The tokenizer before the first character.
    pub fn new() -> (t: Tokenizer)
        ensures
            t.deep_view() == scan_start(),
    {
        let done: Vec<String> = Vec::new();
        assert(done.deep_view() =~= Seq::<Seq<char>>::empty());
        Tokenizer { done, current: String::new(), in_quotes: false, escape: false }
    }

    /// Takes the next character; `space` says whether it is white space.
    pub fn feed(&mut self, c: char, space: bool)
        ensures
            final(self).deep_view() == scan_step(old(self).deep_view(), c, space),
    {
        if self.escape {
            self.current.push(c);
            self.escape = false;
        } else if c == '\\' && self.in_quotes {
            self.escape = true;
        } else if c == '"' {
            self.in_quotes = !self.in_quotes;
        } else if space && !self.in_quotes {
            if !self.current.as_str().is_empty() {
                let word = self.current.clone();
                push_text(&mut self.done, word);
                self.current = String::new();
            }
        } else {
            self.current.push(c);
        }
    }

    /// The arguments read so far.
    pub fn finish(self) -> (args: Vec<String>)
        ensures
            args.deep_view() == tokens_of(self.deep_view()),
    {
        let mut args = self.done;
        if !self.current.as_str().is_empty() {
            push_text(&mut args, self.current);
        }
        args
    }
}

/// Splits an argument line into its arguments.
pub fn parse_args_line(s: &str) -> (args: Vec<String>)
    ensures
        args.deep_view() == tokenize(s@),
{
    let mut t = Tokenizer::new();
    assert(s@.take(0) =~= Seq::<char>::empty());
    for c in it: s.chars()
        invariant
            it.seq() == s@,
            t.deep_view() == scan(s@.take(it.index() as int)),
    {
        assert(s@.take(it.index() + 1).drop_last() =~= s@.take(it.index() as int));
        t.feed(c, c.is_whitespace());
    }
    assert(s@.take(s@.len() as int) =~= s@);
    t.finish()
}

} // verus!

//! Git porcelain output parsing: working-tree status, branch listings and
//! commit logs, and the arguments the repository operations pass to git.

use vstd::prelude::*;
use vstd::utf8::{decode_utf8, encode_utf8, encode_utf8_decode_utf8, is_char_boundary};
use crate::text::{
    decimal, decimal_seq, has_prefix, lines, lines_seq, own, split_seq, split_str, starts_with,
    str_eq, string_from_range, chars_of, trim, trim_seq, views,
};

verus! {

/// How a file changed.
#[derive(Debug, Clone, Copy, PartialEq, Eq, Structural)]
pub enum FileChangeType {
    Added,
    Modified,
    Deleted,
    Renamed,
    Copied,
}

/// A changed file and how it changed.
#[derive(Debug, Clone)]
pub struct FileStatus {
    pub path: String,
    pub status: FileChangeType,
}

pub struct FileStatusView {
    pub path: Seq<char>,
    pub status: FileChangeType,
}

impl View for FileStatus {
    type V = FileStatusView;

    open spec fn view(&self) -> FileStatusView {
        FileStatusView { path: self.path@, status: self.status }
    }
}

/// Staged, unstaged and untracked files.
#[derive(Debug, Clone)]
pub struct GitStatus {
    pub staged: Vec<FileStatus>,
    pub unstaged: Vec<FileStatus>,
    pub untracked: Vec<String>,
}

pub struct GitStatusView {
    pub staged: Seq<FileStatusView>,
    pub unstaged: Seq<FileStatusView>,
    pub untracked: Seq<Seq<char>>,
}

impl View for GitStatus {
    type V = GitStatusView;

    open spec fn view(&self) -> GitStatusView {
        GitStatusView {
            staged: self.staged@.map_values(|f: FileStatus| f@),
            unstaged: self.unstaged@.map_values(|f: FileStatus| f@),
            untracked: views(self.untracked@),
        }
    }
}

/// A branch of the repository.
#[derive(Debug, Clone)]
pub struct BranchInfo {
    pub name: String,
    pub is_current: bool,
    pub is_remote: bool,
}

pub struct BranchInfoView {
    pub name: Seq<char>,
    pub is_current: bool,
    pub is_remote: bool,
}

impl View for BranchInfo {
    type V = BranchInfoView;

    open spec fn view(&self) -> BranchInfoView {
        BranchInfoView { name: self.name@, is_current: self.is_current, is_remote: self.is_remote }
    }
}

/// A commit of the log.
#[derive(Debug, Clone)]
pub struct CommitInfo {
    pub hash: String,
    pub message: String,
    pub author: String,
    pub timestamp: String,
}

pub struct CommitInfoView {
    pub hash: Seq<char>,
    pub message: Seq<char>,
    pub author: Seq<char>,
    pub timestamp: Seq<char>,
}

impl View for CommitInfo {
    type V = CommitInfoView;

    open spec fn view(&self) -> CommitInfoView {
        CommitInfoView {
            hash: self.hash@,
            message: self.message@,
            author: self.author@,
            timestamp: self.timestamp@,
        }
    }
}

/// The change type a porcelain status letter stands for; an unknown letter
/// counts as a modification.
pub open spec fn change_type(c: char) -> FileChangeType {
    if c == 'A' {
        FileChangeType::Added
    } else if c == 'M' {
        FileChangeType::Modified
    } else if c == 'D' {
        FileChangeType::Deleted
    } else if c == 'R' {
        FileChangeType::Renamed
    } else if c == 'C' {
        FileChangeType::Copied
    } else {
        FileChangeType::Modified
    }
}

/// The change type of a porcelain status letter.
pub fn parse_change_type(c: char) -> (res: FileChangeType)
    ensures
        res == change_type(c),
{
    match c {
        'A' => FileChangeType::Added,
        'M' => FileChangeType::Modified,
        'D' => FileChangeType::Deleted,
        'R' => FileChangeType::Renamed,
        'C' => FileChangeType::Copied,
        _ => FileChangeType::Modified,
    }
}

/// The byte length of a line as `str::len` reports it.
pub open spec fn byte_len(l: Seq<char>) -> usize {
    encode_utf8(l).len() as usize
}

/// The status lines that are read; shorter ones are skipped.
pub open spec fn long_enough(l: Seq<char>) -> bool {
    byte_len(l) >= 4
}

/// A status line is read without panicking when it is skipped or byte 3
/// starts a character (the path is taken from byte 3 on).
pub open spec fn status_line_ok(l: Seq<char>) -> bool {
    !long_enough(l) || is_char_boundary(encode_utf8(l), 3)
}

/// The path of a status line: everything from byte 3 on.
pub open spec fn status_path(l: Seq<char>) -> Seq<char> {
    decode_utf8(encode_utf8(l).subrange(3, encode_utf8(l).len() as int))
}

/// The index letter of a status line (a space when absent).
pub open spec fn index_letter(l: Seq<char>) -> char {
    if l.len() > 0 {
        l[0]
    } else {
        ' '
    }
}

/// The work-tree letter of a status line (a space when absent).
pub open spec fn worktree_letter(l: Seq<char>) -> char {
    if l.len() > 1 {
        l[1]
    } else {
        ' '
    }
}

/// A staged change: index letter `A`, `M`, `D`, `R` or `C`.
pub open spec fn is_staged_letter(c: char) -> bool {
    c == 'A' || c == 'M' || c == 'D' || c == 'R' || c == 'C'
}

/// The status read from porcelain v1 lines: a line of at least four bytes
/// is staged when its index letter is `A`, `M`, `D`, `R` or `C`, unstaged
/// when its work-tree letter is `M` or `D`, and untracked when that letter
/// is `?`.
pub open spec fn status_of(ls: Seq<Seq<char>>) -> GitStatusView
    decreases ls.len(),
{
    if ls.len() == 0 {
        GitStatusView { staged: Seq::empty(), unstaged: Seq::empty(), untracked: Seq::empty() }
    } else {
        let prev = status_of(ls.drop_last());
        let l = ls.last();
        if !long_enough(l) {
            prev
        } else {
            let p = status_path(l);
            let x = index_letter(l);
            let y = worktree_letter(l);
            GitStatusView {
                staged: if is_staged_letter(x) {
                    prev.staged.push(FileStatusView { path: p, status: change_type(x) })
                } else {
                    prev.staged
                },
                unstaged: if y == 'M' || y == 'D' {
                    prev.unstaged.push(FileStatusView { path: p, status: change_type(y) })
                } else {
                    prev.unstaged
                },
                untracked: if y == '?' {
                    prev.untracked.push(p)
                } else {
                    prev.untracked
                },
            }
        }
    }
}

/// Every line of `output` is read without panicking.
pub open spec fn status_output_ok(output: Seq<char>) -> bool {
    forall|i: int| 0 <= i < lines_seq(output).len() ==> status_line_ok(#[trigger] lines_seq(output)[i])
}

/// Whether every line of `output` can be read (see [`status_line_ok`]).
pub fn status_output_readable(output: &str) -> (res: bool)
    ensures
        res == status_output_ok(output@),
{
    let ls = lines(output);
    let mut i: usize = 0;
    while i < ls.len()
        invariant
            i <= ls@.len(),
            views(ls@) == lines_seq(output@),
            forall|j: int| 0 <= j < i ==> status_line_ok(#[trigger] lines_seq(output@)[j]),
        decreases ls@.len() - i,
    {
        let l = ls[i].as_str();
        assert(l@ == lines_seq(output@)[i as int]);
        if l.len() >= 4 && !l.is_char_boundary(3) {
            assert(!status_line_ok(lines_seq(output@)[i as int]));
            return false;
        }
        i += 1;
    }
    true
}

/// Parses `git status --porcelain=v1` output.
pub fn parse_status(output: &str) -> (res: GitStatus)
    requires
        status_output_ok(output@),
    ensures
        res@ == status_of(lines_seq(output@)),
{
    let ls = lines(output);
    let ghost lv = views(ls@);
    let mut staged: Vec<FileStatus> = Vec::new();
    let mut unstaged: Vec<FileStatus> = Vec::new();
    let mut untracked: Vec<String> = Vec::new();
    let mut i: usize = 0;
    assert(lv.take(0) =~= Seq::<Seq<char>>::empty());
    assert(staged@.map_values(|f: FileStatus| f@) =~= Seq::<FileStatusView>::empty());
    assert(unstaged@.map_values(|f: FileStatus| f@) =~= Seq::<FileStatusView>::empty());
    assert(views(untracked@) =~= Seq::<Seq<char>>::empty());
    while i < ls.len()
        invariant
            i <= ls@.len(),
            lv == views(ls@),
            lv == lines_seq(output@),
            status_output_ok(output@),
            (GitStatusView {
                staged: staged@.map_values(|f: FileStatus| f@),
                unstaged: unstaged@.map_values(|f: FileStatus| f@),
                untracked: views(untracked@),
            }) == status_of(lv.take(i as int)),
        decreases ls@.len() - i,
    {
        let line = ls[i].as_str();
        proof {
            assert(lv.take(i + 1).drop_last() == lv.take(i as int));
            assert(lv.take(i + 1).last() == line@);
            assert(status_line_ok(lines_seq(output@)[i as int]));
        }
        if line.len() < 4 {
            i += 1;
            continue;
        }
        let cs = chars_of(line);
        let x = if cs.len() > 0 {
            cs[0]
        } else {
            ' '
        };
        let y = if cs.len() > 1 {
            cs[1]
        } else {
            ' '
        };
        let (_, rest) = line.split_at(3);
        let path = own(rest);
        proof {
            encode_utf8_decode_utf8(rest@);
            assert(path@ == status_path(line@));
        }
        let ghost s0 = staged@;
        let ghost u0 = unstaged@;
        let ghost t0 = untracked@;
        if x == 'A' || x == 'M' || x == 'D' || x == 'R' || x == 'C' {
            staged.push(FileStatus { path: path.clone(), status: parse_change_type(x) });
            assert(staged@.map_values(|f: FileStatus| f@) =~= s0.map_values(|f: FileStatus| f@).push(
                FileStatusView { path: path@, status: change_type(x) },
            ));
        }
        if y == 'M' || y == 'D' {
            unstaged.push(FileStatus { path: path.clone(), status: parse_change_type(y) });
            assert(unstaged@.map_values(|f: FileStatus| f@) =~= u0.map_values(|f: FileStatus| f@).push(
                FileStatusView { path: path@, status: change_type(y) },
            ));
        } else if y == '?' {
            untracked.push(path);
            assert(views(untracked@) =~= views(t0).push(path@));
        }
        i += 1;
    }
    assert(lv.take(ls@.len() as int) == lv);
    GitStatus { staged, unstaged, untracked }
}

/// `s` with every leading copy of `p` removed (`trim_start_matches` with a
/// non-empty pattern).
pub open spec fn strip_all_prefix(s: Seq<char>, p: Seq<char>) -> Seq<char>
    decreases s.len(),
{
    if p.len() > 0 && has_prefix(s, p) {
        strip_all_prefix(s.subrange(p.len() as int, s.len() as int), p)
    } else {
        s
    }
}

/// The branch a `git branch -a` line names, if any: the trimmed line
/// without leading `"* "`, trimmed; `remotes/` names are remote and never
/// current; empty names are skipped.
pub open spec fn branch_of(l: Seq<char>) -> Option<BranchInfoView> {
    let t = trim_seq(l);
    let name = trim_seq(strip_all_prefix(t, "* "@));
    if t.len() == 0 {
        None
    } else if has_prefix(name, "remotes/"@) {
        Some(BranchInfoView { name, is_current: false, is_remote: true })
    } else if name.len() > 0 {
        Some(BranchInfoView { name, is_current: has_prefix(l, "*"@), is_remote: false })
    } else {
        None
    }
}

/// The branches read from the lines of `git branch -a --no-color`.
pub open spec fn branches_of(ls: Seq<Seq<char>>) -> Seq<BranchInfoView>
    decreases ls.len(),
{
    if ls.len() == 0 {
        Seq::empty()
    } else {
        match branch_of(ls.last()) {
            Some(b) => branches_of(ls.drop_last()).push(b),
            None => branches_of(ls.drop_last()),
        }
    }
}

fn strip_star_prefixes(s: &str) -> (res: String)
    ensures
        res@ == strip_all_prefix(s@, "* "@),
{
    let cs = chars_of(s);
    let p = chars_of("* ");
    proof {
        reveal_strlit("* ");
    }
    let n = cs.len();
    let mut start: usize = 0;
    assert(cs@.subrange(0, cs@.len() as int) == cs@);
    while starts_with_at_vec(&cs, start, &p)
        invariant
            start <= cs@.len(),
            n == cs@.len(),
            p@ == "* "@,
            p@.len() > 0,
            strip_all_prefix(s@, "* "@) == strip_all_prefix(cs@.subrange(start as int, cs@.len() as int), "* "@),
            cs@ == s@,
        decreases cs@.len() - start,
    {
        let ghost rest = cs@.subrange(start as int, cs@.len() as int);
        assert(rest.subrange(p@.len() as int, rest.len() as int) == cs@.subrange(
            start + p@.len(),
            cs@.len() as int,
        ));
        start = start + p.len();
    }
    string_from_range(&cs, start, cs.len())
}

fn starts_with_at_vec(s: &Vec<char>, from: usize, p: &Vec<char>) -> (res: bool)
    requires
        from <= s@.len(),
    ensures
        res == (p@.len() > 0 && has_prefix(s@.subrange(from as int, s@.len() as int), p@)),
        res ==> from + p@.len() <= s@.len(),
{
    if p.len() == 0 {
        return false;
    }
    crate::text::starts_with_at(s, from, p)
}

/// Parses `git branch -a --no-color` output.
pub fn parse_branches(output: &str) -> (res: Vec<BranchInfo>)
    ensures
        res@.map_values(|b: BranchInfo| b@) == branches_of(lines_seq(output@)),
{
    let ls = lines(output);
    let ghost lv = views(ls@);
    let mut branches: Vec<BranchInfo> = Vec::new();
    let mut i: usize = 0;
    assert(lv.take(0) =~= Seq::<Seq<char>>::empty());
    assert(branches@.map_values(|b: BranchInfo| b@) =~= Seq::<BranchInfoView>::empty());
    while i < ls.len()
        invariant
            i <= ls@.len(),
            lv == views(ls@),
            lv == lines_seq(output@),
            branches@.map_values(|b: BranchInfo| b@) == branches_of(lv.take(i as int)),
        decreases ls@.len() - i,
    {
        let line = ls[i].as_str();
        proof {
            assert(lv.take(i + 1).drop_last() == lv.take(i as int));
            assert(lv.take(i + 1).last() == line@);
        }
        let trimmed = trim(line);
        if trimmed.as_str().is_empty() {
            i += 1;
            continue;
        }
        let is_current = starts_with(line, "*");
        let stripped = strip_star_prefixes(trimmed.as_str());
        let name = trim(stripped.as_str());
        let ghost before = branches@;
        if starts_with(name.as_str(), "remotes/") {
            branches.push(BranchInfo { name, is_current: false, is_remote: true });
            assert(branches@.map_values(|b: BranchInfo| b@) =~= before.map_values(|b: BranchInfo| b@).push(
                branch_of(line@).unwrap(),
            ));
        } else if !name.as_str().is_empty() {
            branches.push(BranchInfo { name, is_current, is_remote: false });
            assert(branches@.map_values(|b: BranchInfo| b@) =~= before.map_values(|b: BranchInfo| b@).push(
                branch_of(line@).unwrap(),
            ));
        }
        i += 1;
    }
    assert(lv.take(ls@.len() as int) == lv);
    branches
}

/// The separator between log entries.
pub const LOG_SEPARATOR: &'static str = "---";

/// The pretty format the log is requested in: hash, subject, author name and
/// ISO date on separate lines, then the separator.
pub const LOG_FORMAT: &'static str = "--pretty=format:%H%n%s%n%an%n%aI%n---";

/// The commit an entry describes, when it has at least four lines.
pub open spec fn commit_of(entry: Seq<char>) -> Option<CommitInfoView> {
    let ls = lines_seq(entry);
    if ls.len() >= 4 {
        Some(
            CommitInfoView {
                hash: trim_seq(ls[0]),
                message: trim_seq(ls[1]),
                author: trim_seq(ls[2]),
                timestamp: trim_seq(ls[3]),
            },
        )
    } else {
        None
    }
}

/// The commits read from the entries of a log.
pub open spec fn commits_of(entries: Seq<Seq<char>>) -> Seq<CommitInfoView>
    decreases entries.len(),
{
    if entries.len() == 0 {
        Seq::empty()
    } else {
        match commit_of(entries.last()) {
            Some(c) => commits_of(entries.drop_last()).push(c),
            None => commits_of(entries.drop_last()),
        }
    }
}

/// Parses log output in [`LOG_FORMAT`]: entries split at `---`, each with
/// at least four lines giving one commit.
pub fn parse_log(output: &str) -> (res: Vec<CommitInfo>)
    ensures
        res@.map_values(|c: CommitInfo| c@) == commits_of(split_seq(output@, LOG_SEPARATOR@)),
{
    proof {
        reveal_strlit("---");
    }
    let entries = split_str(output, LOG_SEPARATOR);
    let ghost ev = views(entries@);
    let mut commits: Vec<CommitInfo> = Vec::new();
    let mut i: usize = 0;
    assert(ev.take(0) =~= Seq::<Seq<char>>::empty());
    assert(commits@.map_values(|c: CommitInfo| c@) =~= Seq::<CommitInfoView>::empty());
    while i < entries.len()
        invariant
            i <= entries@.len(),
            ev == views(entries@),
            ev == split_seq(output@, LOG_SEPARATOR@),
            commits@.map_values(|c: CommitInfo| c@) == commits_of(ev.take(i as int)),
        decreases entries@.len() - i,
    {
        let entry = entries[i].as_str();
        proof {
            assert(ev.take(i + 1).drop_last() == ev.take(i as int));
            assert(ev.take(i + 1).last() == entry@);
        }
        let ls = lines(entry);
        if ls.len() >= 4 {
            let ghost before = commits@;
            let c = CommitInfo {
                hash: trim(ls[0].as_str()),
                message: trim(ls[1].as_str()),
                author: trim(ls[2].as_str()),
                timestamp: trim(ls[3].as_str()),
            };
            proof {
                assert(views(ls@)[0] == ls@[0]@);
                assert(views(ls@)[1] == ls@[1]@);
                assert(views(ls@)[2] == ls@[2]@);
                assert(views(ls@)[3] == ls@[3]@);
            }
            commits.push(c);
            assert(commits@.map_values(|c: CommitInfo| c@) =~= before.map_values(|c: CommitInfo| c@).push(
                commit_of(entry@).unwrap(),
            ));
        }
        i += 1;
    }
    assert(ev.take(entries@.len() as int) == ev);
    commits
}

/// The arguments of the log command: `log`, the count, the format.
pub fn log_args(count: usize) -> (res: Vec<String>)
    ensures
        views(res@) == seq!["log"@, decimal_seq(count as nat), LOG_FORMAT@],
{
    let mut args: Vec<String> = Vec::new();
    args.push(own("log"));
    args.push(decimal(count));
    args.push(own(LOG_FORMAT));
    assert(views(args@) =~= seq!["log"@, decimal_seq(count as nat), LOG_FORMAT@]);
    args
}

/// The arguments of the diff command, restricted to one file when given.
pub fn diff_args(file: Option<&str>) -> (res: Vec<String>)
    ensures
        views(res@) == match file {
            Some(f) => seq!["diff"@, "--"@, f@],
            None => seq!["diff"@],
        },
{
    let mut args: Vec<String> = Vec::new();
    args.push(own("diff"));
    match file {
        Some(f) => {
            args.push(own("--"));
            args.push(own(f));
            assert(views(args@) =~= seq!["diff"@, "--"@, f@]);
        },
        None => {
            assert(views(args@) =~= seq!["diff"@]);
        },
    }
    args
}

/// The arguments that stage `files` before a commit.
pub fn add_args(files: &Vec<String>) -> (res: Vec<String>)
    ensures
        views(res@) == seq!["add"@, "--"@] + views(files@),
{
    let mut args: Vec<String> = Vec::new();
    args.push(own("add"));
    args.push(own("--"));
    let mut i: usize = 0;
    while i < files.len()
        invariant
            i <= files@.len(),
            views(args@) == seq!["add"@, "--"@] + views(files@).take(i as int),
        decreases files@.len() - i,
    {
        let ghost before = args@;
        args.push(files[i].clone());
        assert(views(args@) =~= views(before).push(files@[i as int]@));
        assert(views(files@).take(i + 1) == views(files@).take(i as int).push(files@[i as int]@));
        i += 1;
    }
    assert(views(files@).take(files@.len() as int) == views(files@));
    args
}


/// A git working tree; the operations run git in its directory.
pub struct GitRepository {
    path: String,
}

impl GitRepository {
    /// The directory the repository lives in.
    pub closed spec fn path_spec(&self) -> Seq<char> {
        self.path@
    }

    /// The repository in directory `path` (not yet checked to be one).
    pub fn at(path: String) -> (res: Self)
        ensures
            res.path_spec() == path@,
    {
        GitRepository { path }
    }

    /// The directory the repository lives in.
    pub fn path(&self) -> (res: &str)
        ensures
            res@ == self.path_spec(),
    {
        self.path.as_str()
    }

    /// The current branch from the output of `rev-parse --abbrev-ref HEAD`:
    /// the output trimmed.
    pub fn current_branch_from(output: &str) -> (res: String)
        ensures
            res@ == trim_seq(output@),
    {
        trim(output)
    }
}


/// One status line is sorted by its two letters: it lands among the staged
/// changes exactly when its index letter is `A`, `M`, `D`, `R` or `C`
/// (added, modified, deleted, renamed, copied), among the unstaged ones
/// exactly when its work-tree letter is `M` or `D`, and among the untracked
/// files exactly when that letter is `?`; each entry carries the text after
/// the two letters and the space.
pub proof fn law_status_line(l: Seq<char>)
    requires
        long_enough(l),
    ensures
        ({
            let st = status_of(seq![l]);
            let x = index_letter(l);
            let y = worktree_letter(l);
            let p = status_path(l);
            &&& (x == 'A' ==> st.staged == seq![FileStatusView { path: p, status: FileChangeType::Added }])
            &&& (x == 'M' ==> st.staged == seq![FileStatusView { path: p, status: FileChangeType::Modified }])
            &&& (x == 'D' ==> st.staged == seq![FileStatusView { path: p, status: FileChangeType::Deleted }])
            &&& (x == 'R' ==> st.staged == seq![FileStatusView { path: p, status: FileChangeType::Renamed }])
            &&& (x == 'C' ==> st.staged == seq![FileStatusView { path: p, status: FileChangeType::Copied }])
            &&& (!(x == 'A' || x == 'M' || x == 'D' || x == 'R' || x == 'C') ==> st.staged.len() == 0)
            &&& (y == 'M' ==> st.unstaged == seq![FileStatusView { path: p, status: FileChangeType::Modified }])
            &&& (y == 'D' ==> st.unstaged == seq![FileStatusView { path: p, status: FileChangeType::Deleted }])
            &&& (!(y == 'M' || y == 'D') ==> st.unstaged.len() == 0)
            &&& (y == '?' ==> st.untracked == seq![p])
            &&& (y != '?' ==> st.untracked.len() == 0)
        }),
{
    assert(seq![l].drop_last() =~= Seq::<Seq<char>>::empty());
    assert(seq![l].last() == l);
    let e = status_of(Seq::<Seq<char>>::empty());
    assert(e.staged.len() == 0 && e.unstaged.len() == 0 && e.untracked.len() == 0);
    let x = index_letter(l);
    let y = worktree_letter(l);
    let p = status_path(l);
    assert(e.staged.push(FileStatusView { path: p, status: change_type(x) }) =~= seq![
        FileStatusView { path: p, status: change_type(x) },
    ]);
    assert(e.unstaged.push(FileStatusView { path: p, status: change_type(y) }) =~= seq![
        FileStatusView { path: p, status: change_type(y) },
    ]);
    assert(e.untracked.push(p) =~= seq![p]);
}

/// Lines are read one after another: the status of more output is the
/// status of the earlier lines with the next line's entries added at the end
/// of each list.
pub proof fn law_status_appends(ls: Seq<Seq<char>>, l: Seq<char>)
    ensures
        status_of(ls.push(l)).staged == status_of(ls).staged + status_of(seq![l]).staged,
        status_of(ls.push(l)).unstaged == status_of(ls).unstaged + status_of(seq![l]).unstaged,
        status_of(ls.push(l)).untracked == status_of(ls).untracked + status_of(seq![l]).untracked,
{
    assert(ls.push(l).drop_last() =~= ls);
    assert(seq![l].drop_last() =~= Seq::<Seq<char>>::empty());
    let e = status_of(Seq::<Seq<char>>::empty());
    assert(e.staged =~= Seq::<FileStatusView>::empty());
    let a = status_of(ls);
    assert(a.staged + Seq::<FileStatusView>::empty() =~= a.staged);
    assert(a.unstaged + Seq::<FileStatusView>::empty() =~= a.unstaged);
    assert(a.untracked + Seq::<Seq<char>>::empty() =~= a.untracked);
    assert(a.staged + seq![FileStatusView { path: status_path(l), status: change_type(index_letter(l)) }]
        =~= a.staged.push(FileStatusView { path: status_path(l), status: change_type(index_letter(l)) }));
    assert(a.unstaged + seq![FileStatusView { path: status_path(l), status: change_type(worktree_letter(l)) }]
        =~= a.unstaged.push(FileStatusView { path: status_path(l), status: change_type(worktree_letter(l)) }));
    assert(a.untracked + seq![status_path(l)] =~= a.untracked.push(status_path(l)));
}

} // verus!

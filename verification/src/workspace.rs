//! Workspaces: the open workspace, the list of recent ones, and the order in
//! which a directory's entries are shown.

use vstd::prelude::*;
use crate::ids::{new_id, now_rfc3339};
use std::path::PathBuf;
use crate::text::{chars_of, own};

verus! {

#[verifier::external_type_specification]
#[verifier::external_body]
pub struct ExPathBuf(std::path::PathBuf);

/// An opened project directory.
#[derive(Debug)]
pub struct Workspace {
    pub id: String,
    pub name: String,
    pub root_path: PathBuf,
    pub open_files: Vec<String>,
    pub recent_files: Vec<String>,
    pub last_opened: String,
}

/// One entry of a directory listing.
#[derive(Debug)]
pub struct FileEntry {
    pub name: String,
    pub path: PathBuf,
    pub is_dir: bool,
    pub children: Option<Vec<FileEntry>>,
    pub size: Option<u64>,
}

/// The last component of a path as `std::path::Path::file_name` gives it on
/// the platform the library is built for, or `None` when the path has none
/// (it is empty, a root, or ends in `..`).
pub uninterp spec fn path_file_name(path: PathBuf) -> Option<Seq<char>>;

/// The last component of `path` (`Path::file_name`, read back lossily as
/// text). The contract names the result and claims nothing else of it.
#[verifier::external_body]
fn file_name_of(path: &PathBuf) -> (res: Option<String>)
    ensures
        match res {
            Some(n) => path_file_name(*path) == Some(n@),
            None => path_file_name(*path) is None,
        },
{
    path.file_name().map(|n| n.to_string_lossy().to_string())
}

/// The name a workspace at `path` is shown under: the path's last
/// component, or `Untitled` when it has none.
pub open spec fn workspace_name(path_name: Option<Seq<char>>) -> Seq<char> {
    match path_name {
        Some(n) => n,
        None => "Untitled"@,
    }
}

/// The name for a workspace from the last component of its path.
pub fn name_for(path_name: Option<String>) -> (res: String)
    ensures
        res@ == workspace_name(
            match path_name {
                Some(n) => Some(n@),
                None => None,
            },
        ),
{
    match path_name {
        Some(n) => n,
        None => own("Untitled"),
    }
}

/// How many recent workspaces are remembered.
pub const MAX_RECENT: usize = 10;

/// The components of a path as `std::path::Path::components` yields them,
/// each as its bytes (`OsStr::as_encoded_bytes`), on the platform the
/// library is built for. Two paths are equal (as `PathBuf`s compare) exactly
/// when their components are equal: separators that repeat or end the path,
/// and `.` components past the first, do not count.
pub uninterp spec fn path_components(path: PathBuf) -> Seq<Seq<u8>>;

/// The byte strings held in a list of byte vectors.
pub open spec fn byte_views(v: Seq<Vec<u8>>) -> Seq<Seq<u8>> {
    v.map_values(|b: Vec<u8>| b@)
}

/// The components of `path` (`Path::components`, each component as its
/// encoded bytes). The contract names the result and claims nothing else
/// of it.
#[verifier::external_body]
fn components_of(path: &PathBuf) -> (res: Vec<Vec<u8>>)
    ensures
        byte_views(res@) == path_components(*path),
{
    path.components().map(|c| c.as_os_str().as_encoded_bytes().to_vec()).collect()
}

/// What a workspace's root is compared by: the components of its path.
pub open spec fn root_key(w: Workspace) -> Seq<Seq<u8>> {
    path_components(w.root_path)
}

fn same_bytes(a: &Vec<u8>, b: &Vec<u8>) -> (res: bool)
    ensures
        res == (a@ == b@),
{
    if a.len() != b.len() {
        return false;
    }
    let mut i: usize = 0;
    while i < a.len()
        invariant
            i <= a@.len(),
            a@.len() == b@.len(),
            forall|k: int| 0 <= k < i ==> a@[k] == b@[k],
        decreases a@.len() - i,
    {
        if a[i] != b[i] {
            return false;
        }
        i += 1;
    }
    assert(a@ =~= b@);
    true
}

/// Whether two lists of components hold the same components in order.
fn same_components(a: &Vec<Vec<u8>>, b: &Vec<Vec<u8>>) -> (res: bool)
    ensures
        res == (byte_views(a@) == byte_views(b@)),
{
    if a.len() != b.len() {
        assert(byte_views(a@).len() != byte_views(b@).len());
        return false;
    }
    let mut i: usize = 0;
    while i < a.len()
        invariant
            i <= a@.len(),
            a@.len() == b@.len(),
            forall|k: int| 0 <= k < i ==> a@[k]@ == b@[k]@,
        decreases a@.len() - i,
    {
        if !same_bytes(&a[i], &b[i]) {
            assert(byte_views(a@)[i as int] != byte_views(b@)[i as int]);
            return false;
        }
        i += 1;
    }
    assert(byte_views(a@) =~= byte_views(b@));
    true
}

/// The recent workspaces in `list` whose root differs, as a path, from
/// `root` (given by its components), in order.
pub open spec fn other_roots(list: Seq<Workspace>, root: Seq<Seq<u8>>) -> Seq<Workspace>
    decreases list.len(),
{
    if list.len() == 0 {
        seq![]
    } else {
        let rest = other_roots(list.drop_last(), root);
        if root_key(list.last()) == root {
            rest
        } else {
            rest.push(list.last())
        }
    }
}

/// The recent list after `w` is added: `w` first, then the others not at
/// its root, cut to `MAX_RECENT` entries.
pub open spec fn with_recent(list: Seq<Workspace>, w: Workspace) -> Seq<Workspace> {
    let all = seq![w] + other_roots(list, root_key(w));
    if all.len() > MAX_RECENT {
        all.subrange(0, MAX_RECENT as int)
    } else {
        all
    }
}

/// Whether no two workspaces in `list` have the same root as paths.
pub open spec fn roots_distinct(list: Seq<Workspace>) -> bool {
    forall|i: int, j: int|
        0 <= i < j < list.len() ==> root_key(#[trigger] list[i]) != root_key(#[trigger] list[j])
}

/// The open workspace and the recently opened ones.
pub struct WorkspaceManager {
    current: Option<Workspace>,
    recent: Vec<Workspace>,
}

impl WorkspaceManager {
    /// The open workspace, if any.
    pub closed spec fn current_spec(&self) -> Option<Workspace> {
        self.current
    }

    /// The recent workspaces, newest first.
    pub closed spec fn recent_spec(&self) -> Seq<Workspace> {
        self.recent@
    }

    /// A manager with nothing open and no recent workspaces.
    pub fn new() -> (res: Self)
        ensures
            res.current_spec() is None,
            res.recent_spec().len() == 0,
    {
        WorkspaceManager { current: None, recent: Vec::new() }
    }

    /// Opens the workspace at `path`: it becomes the current one, named by
    /// the path's last component (or `Untitled`), with no open or recent
    /// files, a fresh id and the current time.
    pub fn open(&mut self, path: PathBuf) -> (res: &Workspace)
        ensures
            final(self).current_spec() == Some(*res),
            final(self).recent_spec() == old(self).recent_spec(),
            res.root_path == path,
            res.name@ == workspace_name(path_file_name(path)),
            res.open_files@.len() == 0,
            res.recent_files@.len() == 0,
    {
        let name = name_for(file_name_of(&path));
        let workspace = Workspace {
            id: new_id(),
            name,
            root_path: path,
            open_files: Vec::new(),
            recent_files: Vec::new(),
            last_opened: now_rfc3339(),
        };
        self.current = Some(workspace);
        self.current.as_ref().unwrap()
    }

    /// Closes the current workspace.
    pub fn close(&mut self)
        ensures
            final(self).current_spec() is None,
            final(self).recent_spec() == old(self).recent_spec(),
    {
        self.current = None;
    }

    /// The open workspace, if any.
    pub fn current(&self) -> (res: Option<&Workspace>)
        ensures
            match res {
                Some(w) => self.current_spec() == Some(*w),
                None => self.current_spec() is None,
            },
    {
        match &self.current {
            Some(w) => Some(w),
            None => None,
        }
    }

    /// Puts `workspace` first among the recent ones, dropping any older entry
    /// whose root is the same path, and keeps at most `MAX_RECENT`.
    pub fn add_recent(&mut self, workspace: Workspace)
        ensures
            final(self).recent_spec() == with_recent(old(self).recent_spec(), workspace),
            final(self).current_spec() == old(self).current_spec(),
    {
        let ghost list = self.recent@;
        let ghost root = root_key(workspace);
        let key = components_of(&workspace.root_path);
        let mut old_list: Vec<Workspace> = Vec::new();
        std::mem::swap(&mut old_list, &mut self.recent);
        let mut kept: Vec<Workspace> = Vec::new();
        let mut k: usize = 0;
        let n = old_list.len();
        while old_list.len() > 0
            invariant
                k + old_list@.len() == n,
                root == root_key(workspace),
                byte_views(key@) == root,
                n == list.len(),
                old_list@ == list.subrange(k as int, n as int),
                kept@ == other_roots(list.subrange(0, k as int), root),
            decreases old_list@.len(),
        {
            let w = old_list.remove(0);
            proof {
                assert(w == list[k as int]);
                assert(list.subrange(0, k + 1).drop_last() =~= list.subrange(0, k as int));
                assert(list.subrange(0, k + 1).last() == w);
                assert(old_list@ =~= list.subrange(k + 1, n as int));
            }
            let ghost prefix = list.subrange(0, k + 1);
            assert(other_roots(prefix, root) == if root_key(prefix.last()) == root {
                other_roots(prefix.drop_last(), root)
            } else {
                other_roots(prefix.drop_last(), root).push(prefix.last())
            });
            let w_key = components_of(&w.root_path);
            if !same_components(&w_key, &key) {
                kept.push(w);
            }
            k += 1;
        }
        proof {
            assert(list.subrange(0, n as int) =~= list);
        }
        let mut recent: Vec<Workspace> = Vec::new();
        recent.push(workspace);
        assert(kept@ =~= (seq![workspace] + kept@).subrange(1, kept@.len() + 1 as int));
        let ghost all = seq![workspace] + kept@;
        let ghost m: int = kept@.len() as int;
        let mut j: usize = 0;
        while kept.len() > 0 && recent.len() < MAX_RECENT
            invariant
                j + kept@.len() == m,
                kept@ == all.subrange(j + 1, m + 1 as int),
                recent@.len() == j + 1,
                j + 1 <= MAX_RECENT,
                recent@ == all.subrange(0, j + 1),
                all.len() == m + 1,
            decreases kept@.len(),
        {
            let w = kept.remove(0);
            recent.push(w);
            j += 1;
            assert(recent@ =~= all.subrange(0, j + 1));
            assert(kept@ =~= all.subrange(j + 1, m + 1 as int));
        }
        proof {
            if all.len() > MAX_RECENT {
                assert(recent@.len() == MAX_RECENT);
            } else {
                assert(recent@ =~= all);
            }
        }
        self.recent = recent;
    }

    /// The recent workspaces, newest first.
    pub fn recent_workspaces(&self) -> (res: &[Workspace])
        ensures
            res@ == self.recent_spec(),
    {
        self.recent.as_slice()
    }
}

impl Default for WorkspaceManager {
    fn default() -> (res: Self)
        ensures
            res.current_spec() is None,
            res.recent_spec().len() == 0,
    {
        WorkspaceManager::new()
    }
}

proof fn lemma_other_roots(list: Seq<Workspace>, root: Seq<Seq<u8>>)
    ensures
        other_roots(list, root).len() <= list.len(),
        forall|i: int|
            0 <= i < other_roots(list, root).len() ==> root_key(#[trigger] other_roots(list, root)[i])
                != root,
        forall|i: int|
            0 <= i < other_roots(list, root).len() ==> list.contains(
                #[trigger] other_roots(list, root)[i],
            ),
        roots_distinct(list) ==> roots_distinct(other_roots(list, root)),
    decreases list.len(),
{
    if list.len() > 0 {
        let rest = list.drop_last();
        lemma_other_roots(rest, root);
        let r = other_roots(rest, root);
        assert forall|i: int| 0 <= i < r.len() implies list.contains(#[trigger] r[i]) by {
            assert(rest.contains(r[i]));
            let k = choose|k: int| 0 <= k < rest.len() && rest[k] == r[i];
            assert(list[k] == r[i]);
        }
        assert(list[list.len() - 1] == list.last());
        if roots_distinct(list) {
            assert(roots_distinct(rest)) by {
                assert forall|i: int, j: int|
                    0 <= i < j < rest.len() implies root_key(#[trigger] rest[i]) != root_key(
                    #[trigger] rest[j]) by {
                    assert(rest[i] == list[i]);
                    assert(rest[j] == list[j]);
                }
            }
            if root_key(list.last()) != root {
                let out = r.push(list.last());
                assert forall|i: int, j: int|
                    0 <= i < j < out.len() implies root_key(#[trigger] out[i]) != root_key(
                    #[trigger] out[j]) by {
                    if j == out.len() - 1 {
                        assert(rest.contains(out[i]));
                        let k = choose|k: int| 0 <= k < rest.len() && rest[k] == out[i];
                        assert(list[k] == out[i]);
                        assert(list[list.len() - 1] == out[j]);
                    } else {
                        assert(out[i] == r[i]);
                        assert(out[j] == r[j]);
                    }
                }
            }
        }
    }
}

/// After a workspace is added to the recent list, it comes first, at most
/// `MAX_RECENT` entries are kept, no other entry has its root as a path, and roots
/// that were distinct stay distinct.
pub proof fn law_recent_list(list: Seq<Workspace>, w: Workspace)
    ensures
        with_recent(list, w).len() >= 1,
        with_recent(list, w)[0] == w,
        with_recent(list, w).len() <= MAX_RECENT,
        forall|i: int|
            1 <= i < with_recent(list, w).len() ==> root_key(#[trigger] with_recent(list, w)[i])
                != root_key(w),
        roots_distinct(list) ==> roots_distinct(with_recent(list, w)),
{
    lemma_other_roots(list, root_key(w));
    let others = other_roots(list, root_key(w));
    let all = seq![w] + others;
    let res = with_recent(list, w);
    assert forall|i: int| 1 <= i < res.len() implies root_key(#[trigger] res[i])
        != root_key(w) by {
        assert(res[i] == all[i]);
        assert(all[i] == others[i - 1]);
    }
    if roots_distinct(list) {
        assert forall|i: int, j: int|
            0 <= i < j < res.len() implies root_key(#[trigger] res[i]) != root_key(
            #[trigger] res[j]) by {
            assert(res[j] == all[j]);
            assert(all[j] == others[j - 1]);
            if i > 0 {
                assert(res[i] == all[i]);
                assert(all[i] == others[i - 1]);
            }
        }
    }
}

/// Adding a workspace whose root is already first in the list, with
/// distinct roots, keeps the other entries where they were.
pub proof fn law_readding_keeps_order(list: Seq<Workspace>, w: Workspace)
    requires
        list.len() > 0,
        root_key(list[0]) == root_key(w),
        roots_distinct(list),
        list.len() <= MAX_RECENT,
    ensures
        with_recent(list, w) == seq![w] + list.subrange(1, list.len() as int),
{
    lemma_other_roots_first(list, root_key(w));
}

proof fn lemma_other_roots_first(list: Seq<Workspace>, root: Seq<Seq<u8>>)
    requires
        list.len() > 0,
        root_key(list[0]) == root,
        roots_distinct(list),
    ensures
        other_roots(list, root) == list.subrange(1, list.len() as int),
    decreases list.len(),
{
    if list.len() > 1 {
        let rest = list.drop_last();
        assert(rest[0] == list[0]);
        assert(roots_distinct(rest)) by {
            assert forall|i: int, j: int|
                0 <= i < j < rest.len() implies root_key(#[trigger] rest[i]) != root_key(
                #[trigger] rest[j]) by {
                assert(rest[i] == list[i]);
                assert(rest[j] == list[j]);
            }
        }
        lemma_other_roots_first(rest, root);
        assert(list[list.len() - 1] == list.last());
        assert(root_key(list[0]) != root_key(list[list.len() - 1]));
        assert(other_roots(list, root) == other_roots(rest, root).push(list.last()));
        assert(rest.subrange(1, rest.len() as int).push(list.last()) =~= list.subrange(
            1,
            list.len() as int,
        ));
    } else {
        assert(list.drop_last().len() == 0);
        assert(other_roots(list.drop_last(), root) =~= seq![]);
        assert(list.last() == list[0]);
        assert(list.subrange(1, 1) =~= seq![]);
    }
}


/// `s` in lower case, as `str::to_lowercase` gives it.
pub uninterp spec fn lowercase(s: Seq<char>) -> Seq<char>;

/// `s` in lower case (`str::to_lowercase`). The contract names the result
/// and claims nothing else of it.
#[verifier::external_body]
fn to_lower(s: &str) -> (res: String)
    ensures
        res@ == lowercase(s@),
{
    s.to_lowercase()
}

/// Whether `a` comes strictly before `b` character by character, as strings
/// compare (a proper prefix comes first).
pub open spec fn text_lt(a: Seq<char>, b: Seq<char>) -> bool
    decreases a.len(),
{
    if a.len() == 0 {
        b.len() > 0
    } else if b.len() == 0 {
        false
    } else if (a[0] as u32) < (b[0] as u32) {
        true
    } else if a[0] == b[0] {
        text_lt(a.drop_first(), b.drop_first())
    } else {
        false
    }
}

/// Whether entry `a` is listed before entry `b`: directories before files,
/// then by lower-case name.
pub open spec fn listed_before(a: FileEntry, b: FileEntry) -> bool {
    (a.is_dir && !b.is_dir) || (a.is_dir == b.is_dir && text_lt(lowercase(a.name@), lowercase(b.name@)))
}

/// Whether an entry is hidden (its name starts with a dot).
pub open spec fn hidden(e: FileEntry) -> bool {
    e.name@.len() > 0 && e.name@[0] == '.'
}

/// The entries that are not hidden, in order.
pub open spec fn visible(s: Seq<FileEntry>) -> Seq<FileEntry>
    decreases s.len(),
{
    if s.len() == 0 {
        seq![]
    } else if hidden(s.last()) {
        visible(s.drop_last())
    } else {
        visible(s.drop_last()).push(s.last())
    }
}

/// Where `e` goes in `out`: before the first entry it is listed before, so
/// that it comes after the entries it ties with.
pub open spec fn insert_pos(out: Seq<FileEntry>, e: FileEntry) -> int
    decreases out.len(),
{
    if out.len() == 0 {
        0
    } else if listed_before(e, out[0]) {
        0
    } else {
        1 + insert_pos(out.drop_first(), e)
    }
}

/// The entries in listing order, as a stable sort gives them.
pub open spec fn sorted_entries(s: Seq<FileEntry>) -> Seq<FileEntry>
    decreases s.len(),
{
    if s.len() == 0 {
        seq![]
    } else {
        let out = sorted_entries(s.drop_last());
        out.insert(insert_pos(out, s.last()), s.last())
    }
}

proof fn lemma_insert_pos(out: Seq<FileEntry>, e: FileEntry, p: int)
    requires
        0 <= p <= out.len(),
        forall|q: int| 0 <= q < p ==> !listed_before(e, #[trigger] out[q]),
        p == out.len() || listed_before(e, out[p]),
    ensures
        insert_pos(out, e) == p,
    decreases p,
{
    if p > 0 {
        let rest = out.drop_first();
        assert forall|q: int| 0 <= q < p - 1 implies !listed_before(e, #[trigger] rest[q]) by {
            assert(rest[q] == out[q + 1]);
        }
        if p < out.len() {
            assert(rest[p - 1] == out[p]);
        }
        assert(!listed_before(e, out[0]));
        lemma_insert_pos(rest, e, p - 1);
    }
}

fn text_less(a: &Vec<char>, b: &Vec<char>) -> (res: bool)
    ensures
        res == text_lt(a@, b@),
{
    let mut i: usize = 0;
    assert(a@.subrange(0, a@.len() as int) =~= a@);
    assert(b@.subrange(0, b@.len() as int) =~= b@);
    while i < a.len() && i < b.len() && a[i] == b[i]
        invariant
            i <= a@.len(),
            i <= b@.len(),
            text_lt(a@, b@) == text_lt(a@.subrange(i as int, a@.len() as int), b@.subrange(i as int, b@.len() as int)),
        decreases a@.len() - i,
    {
        proof {
            let x = a@.subrange(i as int, a@.len() as int);
            let y = b@.subrange(i as int, b@.len() as int);
            assert(x.drop_first() =~= a@.subrange(i + 1, a@.len() as int));
            assert(y.drop_first() =~= b@.subrange(i + 1, b@.len() as int));
        }
        i += 1;
    }
    proof {
        let x = a@.subrange(i as int, a@.len() as int);
        let y = b@.subrange(i as int, b@.len() as int);
        if i < a@.len() {
            assert(x[0] == a@[i as int]);
        }
        if i < b@.len() {
            assert(y[0] == b@[i as int]);
        }
    }
    if i == a.len() {
        i < b.len()
    } else if i == b.len() {
        false
    } else {
        (a[i] as u32) < (b[i] as u32)
    }
}

/// Whether entry `a` is listed before entry `b`.
fn comes_before(a: &FileEntry, b: &FileEntry) -> (res: bool)
    ensures
        res == listed_before(*a, *b),
{
    if a.is_dir && !b.is_dir {
        return true;
    }
    if a.is_dir != b.is_dir {
        return false;
    }
    let la = chars_of(to_lower(a.name.as_str()).as_str());
    let lb = chars_of(to_lower(b.name.as_str()).as_str());
    text_less(&la, &lb)
}

/// A directory's entries as they are shown: hidden ones (names starting
/// with a dot) left out, directories first, each group by lower-case name,
/// ties in their given order.
pub fn arrange_entries(entries: Vec<FileEntry>) -> (res: Vec<FileEntry>)
    ensures
        res@ == sorted_entries(visible(entries@)),
{
    let ghost all = entries@;
    let mut rest = entries;
    let mut out: Vec<FileEntry> = Vec::new();
    let ghost mut shown: Seq<FileEntry> = seq![];
    let n = rest.len();
    let mut k: usize = 0;
    while rest.len() > 0
        invariant
            k + rest@.len() == n,
            n == all.len(),
            rest@ == all.subrange(k as int, n as int),
            shown == visible(all.subrange(0, k as int)),
            out@ == sorted_entries(shown),
        decreases rest@.len(),
    {
        let e = rest.remove(0);
        proof {
            assert(e == all[k as int]);
            let prefix = all.subrange(0, k + 1);
            assert(prefix.drop_last() =~= all.subrange(0, k as int));
            assert(prefix.last() == e);
            assert(rest@ =~= all.subrange(k + 1, n as int));
        }
        let cs = chars_of(e.name.as_str());
        let is_hidden = cs.len() > 0 && cs[0] == '.';
        if !is_hidden {
            let mut p: usize = 0;
            while p < out.len() && !comes_before(&e, &out[p])
                invariant
                    p <= out@.len(),
                    forall|q: int| 0 <= q < p ==> !listed_before(e, #[trigger] out@[q]),
                decreases out@.len() - p,
            {
                p += 1;
            }
            proof {
                lemma_insert_pos(out@, e, p as int);
                assert(shown.push(e).drop_last() =~= shown);
                shown = shown.push(e);
            }
            out.insert(p, e);
        }
        k += 1;
    }
    proof {
        assert(all.subrange(0, n as int) =~= all);
    }
    out
}


proof fn lemma_text_lt_irreflexive(a: Seq<char>)
    ensures
        !text_lt(a, a),
    decreases a.len(),
{
    if a.len() > 0 {
        lemma_text_lt_irreflexive(a.drop_first());
    }
}

proof fn lemma_text_lt_transitive(a: Seq<char>, b: Seq<char>, c: Seq<char>)
    requires
        text_lt(a, b),
        text_lt(b, c),
    ensures
        text_lt(a, c),
    decreases a.len(),
{
    if a.len() > 0 && b.len() > 0 && c.len() > 0 && a[0] == b[0] && b[0] == c[0] {
        lemma_text_lt_transitive(a.drop_first(), b.drop_first(), c.drop_first());
    }
}

proof fn lemma_listed_before_order(a: FileEntry, b: FileEntry, c: FileEntry)
    ensures
        !listed_before(a, a),
        listed_before(a, b) && listed_before(b, c) ==> listed_before(a, c),
{
    lemma_text_lt_irreflexive(lowercase(a.name@));
    if listed_before(a, b) && listed_before(b, c) && a.is_dir == b.is_dir && b.is_dir == c.is_dir {
        lemma_text_lt_transitive(lowercase(a.name@), lowercase(b.name@), lowercase(c.name@));
    }
}

/// Whether no entry of `s` is listed before one that precedes it.
pub open spec fn in_listing_order(s: Seq<FileEntry>) -> bool {
    forall|i: int, j: int| 0 <= i < j < s.len() ==> !listed_before(#[trigger] s[j], #[trigger] s[i])
}

/// A directory listing holds exactly the visible entries, in listing order:
/// directories before files, and by lower-case name within each group.
pub proof fn law_listing_order(s: Seq<FileEntry>)
    ensures
        sorted_entries(s).to_multiset() == s.to_multiset(),
        in_listing_order(sorted_entries(s)),
    decreases s.len(),
{
    broadcast use vstd::seq_lib::to_multiset_insert, vstd::seq_lib::to_multiset_build;

    if s.len() > 0 {
        let rest = s.drop_last();
        law_listing_order(rest);
        let out = sorted_entries(rest);
        let e = s.last();
        let p = insert_pos(out, e);
        lemma_insert_pos_props(out, e);
        let res = out.insert(p, e);
        assert(rest.push(e) =~= s);
        assert(res.to_multiset() == out.to_multiset().insert(e));
        assert(rest.push(e).to_multiset() == rest.to_multiset().insert(e));
        assert forall|i: int, j: int| 0 <= i < j < res.len() implies !listed_before(
            #[trigger] res[j],
            #[trigger] res[i],
        ) by {
            if j < p {
                assert(res[i] == out[i] && res[j] == out[j]);
            } else if j == p {
                assert(res[i] == out[i]);
                assert(res[j] == e);
                assert(!listed_before(e, out[i]));
            } else if i == p {
                assert(res[i] == e);
                assert(res[j] == out[j - 1]);
                if listed_before(out[j - 1], e) {
                    assert(p < out.len());
                    assert(listed_before(e, out[p]));
                    lemma_listed_before_order(out[j - 1], e, out[p]);
                    lemma_listed_before_order(out[p], out[p], out[p]);
                    if j - 1 > p {
                        assert(!listed_before(out[j - 1], out[p]));
                    }
                }
            } else if i < p {
                assert(res[i] == out[i] && res[j] == out[j - 1]);
            } else {
                assert(res[i] == out[i - 1] && res[j] == out[j - 1]);
            }
        }
    } else {
        assert(s =~= seq![]);
    }
}

proof fn lemma_insert_pos_props(out: Seq<FileEntry>, e: FileEntry)
    ensures
        0 <= insert_pos(out, e) <= out.len(),
        forall|q: int| 0 <= q < insert_pos(out, e) ==> !listed_before(e, #[trigger] out[q]),
        insert_pos(out, e) < out.len() ==> listed_before(e, out[insert_pos(out, e)]),
    decreases out.len(),
{
    if out.len() > 0 && !listed_before(e, out[0]) {
        let rest = out.drop_first();
        lemma_insert_pos_props(rest, e);
        assert forall|q: int| 0 <= q < insert_pos(out, e) implies !listed_before(e, #[trigger] out[q]) by {
            if q > 0 {
                assert(out[q] == rest[q - 1]);
            }
        }
        if insert_pos(out, e) < out.len() {
            assert(out[insert_pos(out, e)] == rest[insert_pos(rest, e)]);
        }
    }
}


proof fn lemma_visible(s: Seq<FileEntry>)
    ensures
        forall|i: int| 0 <= i < visible(s).len() ==> !hidden(#[trigger] visible(s)[i]),
        forall|e: FileEntry| s.contains(e) && !hidden(e) ==> #[trigger] visible(s).contains(e),
    decreases s.len(),
{
    if s.len() > 0 {
        let rest = s.drop_last();
        lemma_visible(rest);
        assert forall|e: FileEntry| s.contains(e) && !hidden(e) implies #[trigger] visible(s).contains(
            e,
        ) by {
            let k = choose|k: int| 0 <= k < s.len() && s[k] == e;
            if k < s.len() - 1 {
                assert(rest[k] == e);
                assert(rest.contains(e));
                let v = visible(rest);
                assert(v.contains(e));
                let m = choose|m: int| 0 <= m < v.len() && v[m] == e;
                if !hidden(s.last()) {
                    assert(v.push(s.last())[m] == e);
                }
            } else {
                assert(s.last() == e);
                assert(visible(rest).push(e)[visible(rest).len() as int] == e);
            }
        }
    }
}

/// A listing leaves out exactly the hidden entries: none of them is shown,
/// and every other entry is.
pub proof fn law_listing_shows_visible(s: Seq<FileEntry>)
    ensures
        forall|e: FileEntry| #[trigger] sorted_entries(visible(s)).contains(e) <==> (s.contains(e)
            && !hidden(e)),
{
    lemma_visible(s);
    law_listing_order(visible(s));
    let v = visible(s);
    let out = sorted_entries(v);
    assert forall|e: FileEntry| #[trigger] out.contains(e) <==> (s.contains(e) && !hidden(e)) by {
        vstd::seq_lib::to_multiset_contains(out, e);
        vstd::seq_lib::to_multiset_contains(v, e);
        if v.contains(e) {
            let m = choose|m: int| 0 <= m < v.len() && v[m] == e;
            assert(!hidden(v[m]));
            lemma_visible_from(s, m);
        }
    }
}

proof fn lemma_visible_from(s: Seq<FileEntry>, m: int)
    requires
        0 <= m < visible(s).len(),
    ensures
        s.contains(visible(s)[m]),
    decreases s.len(),
{
    if s.len() > 0 {
        let rest = s.drop_last();
        if m < visible(rest).len() {
            if !hidden(s.last()) {
                assert(visible(s)[m] == visible(rest)[m]);
            }
            lemma_visible_from(rest, m);
            let k = choose|k: int| 0 <= k < rest.len() && rest[k] == visible(rest)[m];
            assert(s[k] == rest[k]);
        } else {
            assert(s[s.len() - 1] == s.last());
        }
    }
}

} // verus!

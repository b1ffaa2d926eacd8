//! Terminal sessions as the interface lists them, and the choice of shells.

use vstd::prelude::*;
use crate::text::{own, views};

verus! {

/// What the interface shows of a terminal session.
#[derive(Debug, Clone)]
pub struct SessionInfo {
    pub id: String,
    pub shell: String,
    pub cwd: String,
    pub alive: bool,
}

/// The shells looked for, in order of preference.
pub open spec fn shell_candidates() -> Seq<Seq<char>> {
    seq!["/bin/zsh"@, "/bin/bash"@, "/bin/sh"@, "/usr/bin/fish"@, "/usr/bin/tcsh"@, "/usr/bin/csh"@]
}

fn candidates() -> (res: Vec<String>)
    ensures
        views(res@) == shell_candidates(),
{
    let res = vec![
        own("/bin/zsh"),
        own("/bin/bash"),
        own("/bin/sh"),
        own("/usr/bin/fish"),
        own("/usr/bin/tcsh"),
        own("/usr/bin/csh"),
    ];
    assert(views(res@) =~= shell_candidates());
    res
}

/// The candidates that are installed, in order; when none is, the default
/// shell alone.
pub open spec fn chosen_shells(
    candidates: Seq<Seq<char>>,
    installed: Seq<bool>,
    default_shell: Seq<char>,
) -> Seq<Seq<char>> {
    let found = installed_ones(candidates, installed);
    if found.len() == 0 {
        seq![default_shell]
    } else {
        found
    }
}

/// The candidates marked installed, in order.
pub open spec fn installed_ones(candidates: Seq<Seq<char>>, installed: Seq<bool>) -> Seq<Seq<char>>
    decreases candidates.len(),
{
    if candidates.len() == 0 || installed.len() < candidates.len() {
        seq![]
    } else {
        let last = (candidates.len() - 1) as int;
        let rest = installed_ones(candidates.drop_last(), installed.subrange(0, last));
        if installed[last] {
            rest.push(candidates[last])
        } else {
            rest
        }
    }
}

/// Whether a file exists at `path` (`std::path::Path::exists`). This asks
/// the file system, so nothing is claimed of the answer.
#[verifier::external_body]
fn path_exists(path: &str) -> (res: bool) {
    std::path::Path::new(path).exists()
}

/// Chooses among `candidates` those marked installed, or the default shell
/// when none is.
pub fn select_shells(candidates: Vec<String>, installed: &[bool], default_shell: String) -> (res:
    Vec<String>)
    requires
        installed@.len() == candidates@.len(),
    ensures
        views(res@) == chosen_shells(views(candidates@), installed@, default_shell@),
{
    let ghost cs = views(candidates@);
    let mut found: Vec<String> = Vec::new();
    let mut rest = candidates;
    let ghost all = rest@;
    let n = rest.len();
    let mut i: usize = 0;
    while rest.len() > 0
        invariant
            i + rest@.len() == n,
            n == all.len(),
            n == installed@.len(),
            cs == views(all),
            rest@ == all.subrange(i as int, n as int),
            views(found@) == installed_ones(cs.subrange(0, i as int), installed@.subrange(0, i as int)),
        decreases rest@.len(),
    {
        let c = rest.remove(0);
        proof {
            let cs1 = cs.subrange(0, i + 1);
            let in1 = installed@.subrange(0, i + 1);
            assert(cs1.drop_last() =~= cs.subrange(0, i as int));
            assert(in1.subrange(0, i as int) =~= installed@.subrange(0, i as int));
            assert(cs1[i as int] == c@);
            assert(in1[i as int] == installed@[i as int]);
        }
        if installed[i] {
            found.push(c);
            assert(views(found@) =~= installed_ones(cs.subrange(0, i + 1), installed@.subrange(0, i + 1)));
        }
        i += 1;
    }
    proof {
        assert(cs.subrange(0, n as int) =~= cs);
        assert(installed@.subrange(0, n as int) =~= installed@);
    }
    if found.len() == 0 {
        let mut only: Vec<String> = Vec::new();
        only.push(default_shell);
        assert(views(only@) =~= seq![default_shell@]);
        only
    } else {
        found
    }
}

/// The installed shells among the usual ones, in order of preference; when
/// none is found, `default_shell` alone.
pub fn detect_shells(default_shell: String) -> (res: Vec<String>)
    ensures
        exists|installed: Seq<bool>|
            installed.len() == shell_candidates().len() && views(res@) == chosen_shells(
                shell_candidates(),
                installed,
                default_shell@,
            ),
{
    let cands = candidates();
    let mut installed: Vec<bool> = Vec::new();
    let mut i: usize = 0;
    while i < cands.len()
        invariant
            i <= cands@.len(),
            installed@.len() == i,
        decreases cands@.len() - i,
    {
        installed.push(path_exists(cands[i].as_str()));
        i += 1;
    }
    let ghost seen = installed@;
    let res = select_shells(cands, installed.as_slice(), default_shell);
    assert(seen.len() == shell_candidates().len());
    res
}

} // verus!

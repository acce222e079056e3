//! Resolution of a command name against the search list: the directories
//! are tried left to right and the first candidate path that exists wins.

use vstd::prelude::*;
use vstd::string::*;
use crate::text::{fields, opt_view, views, split_fields};

verus! {

/// The directories of a colon-separated search list, in order.
pub open spec fn dirs_of(path: Seq<char>) -> Seq<Seq<char>> {
    fields(path, ':')
}

/// `dir` joined with `name` as a Unix path: an absolute name stands alone,
/// and a separator is put between the two only where `dir` is non-empty and
/// does not already end in one.
pub open spec fn join_spec(dir: Seq<char>, name: Seq<char>) -> Seq<char> {
    if name.len() > 0 && name[0] == '/' {
        name
    } else if dir.len() == 0 || dir.last() == '/' {
        dir + name
    } else {
        dir.push('/') + name
    }
}

/// The candidate paths for `name`, one per directory of the search list.
pub open spec fn candidates(name: Seq<char>, path: Seq<char>) -> Seq<Seq<char>> {
    dirs_of(path).map_values(|d: Seq<char>| join_spec(d, name))
}

/// The first candidate, from position `i` on, whose entry in `found` is true.
pub open spec fn first_from(cands: Seq<Seq<char>>, found: Seq<bool>, i: int) -> Option<Seq<char>>
    decreases cands.len() - i,
{
    if i < 0 || i >= cands.len() {
        None
    } else if found[i] {
        Some(cands[i])
    } else {
        first_from(cands, found, i + 1)
    }
}

/// What resolution returns when `found` says, for each candidate in order,
/// whether it exists.
pub open spec fn resolve_spec(name: Seq<char>, path: Seq<char>, found: Seq<bool>) -> Option<
    Seq<char>,
> {
    first_from(candidates(name, path), found, 0)
}

/// `r` is what resolution returns for some answer of the filesystem.
pub open spec fn resolves_to(name: Seq<char>, path: Seq<char>, r: Option<Seq<char>>) -> bool {
    exists|found: Seq<bool>|
        found.len() == dirs_of(path).len() && r == #[trigger] resolve_spec(name, path, found)
}

/// Candidates whose entry in `found` is false are passed over.
pub proof fn lemma_first_from_skips(cands: Seq<Seq<char>>, found: Seq<bool>, k: int, i: int)
    requires
        0 <= k <= i,
        i <= cands.len(),
        forall|j: int| k <= j < i ==> !found[j],
    ensures
        first_from(cands, found, k) == first_from(cands, found, i),
    decreases i - k,
{
    if k < i {
        lemma_first_from_skips(cands, found, k + 1, i);
    }
}

/// Splits a colon-separated search list into its directories.
pub fn search_list(path: &str) -> (r: Vec<String>)
    ensures
        views(r@) == dirs_of(path@),
{
    split_fields(path, ':')
}

/// Joins a directory and a name into one path.
pub fn join_path(dir: &str, name: &str) -> (r: String)
    ensures
        r@ == join_spec(dir@, name@),
{
    let nl = name.unicode_len();
    if nl > 0 && name.get_char(0) == '/' {
        return String::from_str(name);
    }
    let dl = dir.unicode_len();
    let mut r = String::from_str(dir);
    if dl > 0 && dir.get_char(dl - 1) != '/' {
        r.append("/");
        proof {
            reveal_strlit("/");
            assert(r@ =~= dir@.push('/'));
        }
    }
    r.append(name);
    r
}

/// Relies on std::path::Path::exists: whether an entry of any kind is at
/// `p`. The answer depends on the filesystem, so nothing is promised of it.
#[verifier::external_body]
pub(crate) fn path_exists(p: &str) -> (r: bool) {
    std::path::Path::new(p).exists()
}

/// Relies on std::path::Path::is_dir: whether `p` is a directory. The answer
/// depends on the filesystem, so nothing is promised of it.
#[verifier::external_body]
pub(crate) fn path_is_dir(p: &str) -> (r: bool) {
    std::path::Path::new(p).is_dir()
}

/// Finds the first directory of the colon-separated search list `path` that
/// holds an entry named `cmd`, and returns that entry's path. The result is
/// the first existing candidate for what the filesystem answered.
pub fn find_command_in_path(cmd: &str, path: &str) -> (r: Option<String>)
    ensures
        resolves_to(cmd@, path@, opt_view(r)),
{
    let dirs = search_list(path);
    let ghost cands = candidates(cmd@, path@);
    let n = dirs.len();
    let mut i: usize = 0;
    while i < n
        invariant
            n == dirs@.len(),
            views(dirs@) == dirs_of(path@),
            cands == candidates(cmd@, path@),
            i <= n,
        decreases n - i,
    {
        let candidate = join_path(dirs[i].as_str(), cmd);
        assert(candidate@ == cands[i as int]);
        if path_exists(candidate.as_str()) {
            let ghost found = Seq::new(n as nat, |j: int| j == i);
            proof {
                lemma_first_from_skips(cands, found, 0, i as int);
                assert(resolve_spec(cmd@, path@, found) == Some(candidate@));
            }
            return Some(candidate);
        }
        i = i + 1;
    }
    let ghost found = Seq::new(n as nat, |j: int| false);
    proof {
        lemma_first_from_skips(cands, found, 0, n as int);
        assert(resolve_spec(cmd@, path@, found) == None::<Seq<char>>);
    }
    None
}

} // verus!

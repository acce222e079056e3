//! Properties that hold of the interpreter as a whole.

use vstd::prelude::*;
use crate::command::{is_builtin, lemma_split_first_at};
use crate::resolve::{candidates, dirs_of, lemma_first_from_skips, resolve_spec};
use crate::shell::{
    Reply, Stream, builtin_text, cd_reply, dispatch, external_reply, no_such_file_text,
    not_found_text, type_reply,
};

verus! {

/// `type` reports a builtin name as a shell builtin, whatever resolution
/// against the search list would have returned.
pub proof fn lemma_type_of_builtin(b: Seq<char>, resolved: Option<Seq<char>>)
    requires
        is_builtin(b),
    ensures
        type_reply(Some(b), resolved) == Reply::Write(Stream::Stdout, builtin_text(b)),
{
}

/// Where no directory of the search list holds an entry named `n`, and `n`
/// is not a builtin, resolution finds nothing; then `type n` reports that `n`
/// is not found, and running `n` writes the same report to standard output
/// instead of launching anything.
pub proof fn lemma_unresolved_not_found(
    n: Seq<char>,
    path: Seq<char>,
    rest: Option<Seq<char>>,
    found: Seq<bool>,
)
    requires
        !is_builtin(n),
        found.len() == dirs_of(path).len(),
        forall|j: int| 0 <= j < found.len() ==> !found[j],
    ensures
        resolve_spec(n, path, found) is None,
        type_reply(Some(n), resolve_spec(n, path, found)) == Reply::Write(
            Stream::Stdout,
            not_found_text(n),
        ),
        external_reply(n, rest, resolve_spec(n, path, found)) == Reply::Write(
            Stream::Stdout,
            not_found_text(n),
        ),
{
    let cands = candidates(n, path);
    lemma_first_from_skips(cands, found, 0, cands.len() as int);
}

/// `cd` to an existing directory asks for that very path to become the
/// working directory; `cd` to a path that does not exist reports so on
/// standard error and leaves the working directory alone.
pub proof fn lemma_cd_outcomes(a: Seq<char>, home: Result<Seq<char>, Seq<char>>, is_dir: bool)
    requires
        a != "~"@,
    ensures
        cd_reply(Some(a), home, true, true) == Reply::ChangeDir(a),
        cd_reply(Some(a), home, false, is_dir) == Reply::Write(Stream::Stderr, no_such_file_text(a)),
{
}

/// `exit` halts, whatever follows it on the line and whatever the
/// environment holds.
pub proof fn lemma_exit_halts(
    rest: Seq<char>,
    home: Result<Seq<char>, Seq<char>>,
    resolved: Option<Seq<char>>,
    exists: bool,
    is_dir: bool,
)
    ensures
        dispatch("exit"@, home, resolved, exists, is_dir) == Reply::Exit,
        dispatch("exit"@ + seq![' '] + rest, home, resolved, exists, is_dir) == Reply::Exit,
{
    reveal_strlit("exit");
    let e = "exit"@;
    lemma_split_first_at(e, 4);
    assert(e.subrange(0, 4) =~= e);
    let line = e + seq![' '] + rest;
    lemma_split_first_at(line, 4);
    assert(line.subrange(0, 4) =~= e);
    assert(line.subrange(5, line.len() as int) =~= rest);
}

/// `pwd` asks for the working directory to be reported, and two `pwd` lines
/// in a row get the same reply, whatever else differs between the two calls.
pub proof fn lemma_pwd_repeatable(
    home1: Result<Seq<char>, Seq<char>>,
    resolved1: Option<Seq<char>>,
    exists1: bool,
    is_dir1: bool,
    home2: Result<Seq<char>, Seq<char>>,
    resolved2: Option<Seq<char>>,
    exists2: bool,
    is_dir2: bool,
)
    ensures
        dispatch("pwd"@, home1, resolved1, exists1, is_dir1) == Reply::ShowCwd,
        dispatch("pwd"@, home1, resolved1, exists1, is_dir1) == dispatch(
            "pwd"@,
            home2,
            resolved2,
            exists2,
            is_dir2,
        ),
{
    reveal_strlit("pwd");
    reveal_strlit("exit");
    reveal_strlit("echo");
    reveal_strlit("type");
    let p = "pwd"@;
    assert(p.len() != "exit"@.len() && p.len() != "echo"@.len() && p.len() != "type"@.len());
    lemma_split_first_at(p, 3);
    assert(p.subrange(0, 3) =~= p);
}

} // verus!

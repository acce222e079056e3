//! What each input line asks of the host process: the builtins' replies,
//! the launch of external commands, and the relay of their output.

use vstd::prelude::*;
use vstd::string::*;
use crate::command::{
    Builtin, arg_list, builtin_of, builtin_spec, is_builtin, parse_spec, split_args, split_command,
};
use crate::resolve::{find_command_in_path, path_exists, path_is_dir, resolves_to};
use crate::text::{opt_str_view, opt_view, views};

verus! {

/// The two output streams of the process.
#[derive(Clone, Copy, Debug, PartialEq, Eq, Structural)]
pub enum Stream {
    Stdout,
    Stderr,
}

/// The mathematical content of an [`Action`].
pub enum Reply {
    Exit,
    Write(Stream, Seq<char>),
    ChangeDir(Seq<char>),
    ShowCwd,
    Spawn(Seq<char>, Seq<Seq<char>>),
    Nothing,
}

/// What the host process is asked to do for one line.
#[derive(Debug, PartialEq, Eq)]
pub enum Action {
    /// Halt with success status.
    Exit,
    /// Write the text to the stream.
    Write(Stream, String),
    /// Make the path the current working directory.
    ChangeDir(String),
    /// Report the current working directory.
    ShowCwd,
    /// Launch the named command with these arguments, relaying its output.
    Spawn(String, Vec<String>),
    /// Nothing to do: prompt again.
    Nothing,
}

impl View for Action {
    type V = Reply;

    open spec fn view(&self) -> Reply {
        match self {
            Action::Exit => Reply::Exit,
            Action::Write(s, t) => Reply::Write(*s, t@),
            Action::ChangeDir(p) => Reply::ChangeDir(p@),
            Action::ShowCwd => Reply::ShowCwd,
            Action::Spawn(n, a) => Reply::Spawn(n@, views(a@)),
            Action::Nothing => Reply::Nothing,
        }
    }
}

pub open spec fn home_view(h: &Result<String, String>) -> Result<Seq<char>, Seq<char>> {
    match h {
        Ok(p) => Ok(p@),
        Err(e) => Err(e@),
    }
}

pub open spec fn not_found_text(name: Seq<char>) -> Seq<char> {
    name + ": not found\n"@
}

pub open spec fn builtin_text(name: Seq<char>) -> Seq<char> {
    name + " is a shell builtin\n"@
}

pub open spec fn echo_text(rest: Option<Seq<char>>) -> Seq<char> {
    match rest {
        Some(t) => t + "\n"@,
        None => "\n"@,
    }
}

/// The reply of `type` for its argument, given what resolution returned.
pub open spec fn type_reply(arg: Option<Seq<char>>, resolved: Option<Seq<char>>) -> Reply {
    match arg {
        None => Reply::Write(Stream::Stderr, "please specify your command\n"@),
        Some(a) => if is_builtin(a) {
            Reply::Write(Stream::Stdout, builtin_text(a))
        } else {
            match resolved {
                Some(p) => Reply::Write(Stream::Stdout, a + " is "@ + p + "\n"@),
                None => Reply::Write(Stream::Stdout, not_found_text(a)),
            }
        },
    }
}

pub open spec fn no_such_file_text(a: Seq<char>) -> Seq<char> {
    "cd: "@ + a + ": No such file or directory\n"@
}

/// The reply of `cd` for its argument, given the value of `HOME` and whether
/// the argument names an existing entry and a directory.
pub open spec fn cd_reply(
    arg: Option<Seq<char>>,
    home: Result<Seq<char>, Seq<char>>,
    exists: bool,
    is_dir: bool,
) -> Reply {
    match arg {
        None => Reply::Write(Stream::Stderr, "please specify the path you need to navigate\n"@),
        Some(a) => if a == "~"@ {
            match home {
                Ok(h) => Reply::ChangeDir(h),
                Err(e) => Reply::Write(
                    Stream::Stderr,
                    "cannot determine home directory: "@ + e + "\n"@,
                ),
            }
        } else if !exists {
            Reply::Write(Stream::Stderr, no_such_file_text(a))
        } else if !is_dir {
            Reply::Write(Stream::Stderr, a + " is not a directory\n"@)
        } else {
            Reply::ChangeDir(a)
        },
    }
}

/// The reply for an external command, given what resolution returned.
pub open spec fn external_reply(
    name: Seq<char>,
    rest: Option<Seq<char>>,
    resolved: Option<Seq<char>>,
) -> Reply {
    match resolved {
        None => Reply::Write(Stream::Stdout, not_found_text(name)),
        Some(_) => Reply::Spawn(name, arg_list(rest)),
    }
}

/// The name that a line has resolved against the search list, if any.
pub open spec fn lookup_name(line: Seq<char>) -> Option<Seq<char>> {
    match parse_spec(line) {
        None => None,
        Some((name, rest)) => match builtin_spec(name) {
            Some(Builtin::Type) => match rest {
                Some(a) => if is_builtin(a) {
                    None
                } else {
                    Some(a)
                },
                None => None,
            },
            Some(_) => None,
            None => Some(name),
        },
    }
}

/// The reply to a whole line, given what resolution returned and what the
/// filesystem said of the argument of `cd`.
pub open spec fn dispatch(
    line: Seq<char>,
    home: Result<Seq<char>, Seq<char>>,
    resolved: Option<Seq<char>>,
    exists: bool,
    is_dir: bool,
) -> Reply {
    match parse_spec(line) {
        None => Reply::Nothing,
        Some((name, rest)) => match builtin_spec(name) {
            Some(Builtin::Exit) => Reply::Exit,
            Some(Builtin::Echo) => Reply::Write(Stream::Stdout, echo_text(rest)),
            Some(Builtin::Type) => type_reply(rest, resolved),
            Some(Builtin::Pwd) => Reply::ShowCwd,
            Some(Builtin::Cd) => cd_reply(rest, home, exists, is_dir),
            None => external_reply(name, rest, resolved),
        },
    }
}

/// The text that `echo` writes.
pub fn echo_command(args: Option<&str>) -> (r: String)
    ensures
        r@ == echo_text(opt_str_view(args)),
{
    match args {
        Some(a) => {
            let mut r = String::from_str(a);
            r.append("\n");
            r
        },
        None => String::from_str("\n"),
    }
}

fn not_found(name: &str) -> (r: String)
    ensures
        r@ == not_found_text(name@),
{
    let mut r = String::from_str(name);
    r.append(": not found\n");
    r
}

/// The reply of `type`, given what resolution of its argument returned.
pub fn type_report(args: Option<&str>, resolved: Option<String>) -> (r: Action)
    ensures
        r@ == type_reply(opt_str_view(args), opt_view(resolved)),
{
    match args {
        None => Action::Write(Stream::Stderr, String::from_str("please specify your command\n")),
        Some(a) => {
            if builtin_of(a).is_some() {
                let mut r = String::from_str(a);
                r.append(" is a shell builtin\n");
                Action::Write(Stream::Stdout, r)
            } else {
                match resolved {
                    Some(p) => {
                        let mut r = String::from_str(a);
                        r.append(" is ");
                        r.append(p.as_str());
                        r.append("\n");
                        Action::Write(Stream::Stdout, r)
                    },
                    None => Action::Write(Stream::Stdout, not_found(a)),
                }
            }
        },
    }
}

/// Runs `type`: builtins are reported as such, and any other name is
/// resolved against the search list `path`.
pub fn type_command(args: Option<&str>, path: &str) -> (r: Action)
    ensures
        exists|res: Option<Seq<char>>|
            {
                &&& (match opt_str_view(args) {
                    Some(a) => !is_builtin(a) ==> resolves_to(a, path@, res),
                    None => true,
                })
                &&& r@ == #[trigger] type_reply(opt_str_view(args), res)
            },
{
    match args {
        Some(a) => {
            if builtin_of(a).is_none() {
                let found = find_command_in_path(a, path);
                let r = type_report(args, found);
                assert(r@ == type_reply(opt_str_view(args), opt_view(found)));
                return r;
            }
        },
        None => {},
    }
    let r = type_report(args, None);
    assert(r@ == type_reply(opt_str_view(args), None));
    r
}

/// The reply of `cd`, given the value of `HOME` and what the filesystem said
/// of its argument.
pub fn cd_decision(
    args: Option<&str>,
    home: &Result<String, String>,
    exists: bool,
    is_dir: bool,
) -> (r: Action)
    ensures
        r@ == cd_reply(opt_str_view(args), home_view(home), exists, is_dir),
{
    match args {
        None => Action::Write(
            Stream::Stderr,
            String::from_str("please specify the path you need to navigate\n"),
        ),
        Some(a) => {
            if crate::text::same_text(a, "~") {
                match home {
                    Ok(h) => Action::ChangeDir(h.clone()),
                    Err(e) => {
                        let mut r = String::from_str("cannot determine home directory: ");
                        r.append(e.as_str());
                        r.append("\n");
                        Action::Write(Stream::Stderr, r)
                    },
                }
            } else if !exists {
                let mut r = String::from_str("cd: ");
                r.append(a);
                r.append(": No such file or directory\n");
                Action::Write(Stream::Stderr, r)
            } else if !is_dir {
                let mut r = String::from_str(a);
                r.append(" is not a directory\n");
                Action::Write(Stream::Stderr, r)
            } else {
                Action::ChangeDir(String::from_str(a))
            }
        },
    }
}

/// Runs `cd`: asks the filesystem about its argument and decides.
pub fn cd_command(args: Option<&str>, home: &Result<String, String>) -> (r: Action)
    ensures
        exists|e: bool, d: bool|
            r@ == #[trigger] cd_reply(opt_str_view(args), home_view(home), e, d),
{
    let mut exists = false;
    let mut is_dir = false;
    match args {
        Some(a) => {
            if !crate::text::same_text(a, "~") {
                exists = path_exists(a);
                if exists {
                    is_dir = path_is_dir(a);
                }
            }
        },
        None => {},
    }
    cd_decision(args, home, exists, is_dir)
}

/// The reply for an external command, given what its resolution returned.
pub fn external_action(command: &str, args: Option<&str>, resolved: Option<String>) -> (r: Action)
    ensures
        r@ == external_reply(command@, opt_str_view(args), opt_view(resolved)),
{
    match resolved {
        None => Action::Write(Stream::Stdout, not_found(command)),
        Some(_) => Action::Spawn(String::from_str(command), split_args(args)),
    }
}

/// Runs an external command: resolves it against the search list `path`
/// and, where it is found, asks for it to be launched by name.
pub fn run_ext_command(command: &str, args: Option<&str>, path: &str) -> (r: Action)
    ensures
        exists|res: Option<Seq<char>>|
            resolves_to(command@, path@, res) && r@ == #[trigger] external_reply(
                command@,
                opt_str_view(args),
                res,
            ),
{
    let found = find_command_in_path(command, path);
    let r = external_action(command, args, found);
    assert(r@ == external_reply(command@, opt_str_view(args), opt_view(found)));
    r
}

/// Decides what a (trimmed) input line asks for, given the search list
/// `path` and the value of `HOME`.
pub fn process_command(full_command: &str, path: &str, home: &Result<String, String>) -> (r:
    Action)
    ensures
        exists|res: Option<Seq<char>>, e: bool, d: bool|
            {
                &&& (match lookup_name(full_command@) {
                    Some(q) => resolves_to(q, path@, res),
                    None => true,
                })
                &&& r@ == #[trigger] dispatch(full_command@, home_view(home), res, e, d)
            },
{
    let inv = match split_command(full_command) {
        None => {
            assert(dispatch(full_command@, home_view(home), None, false, false) == Reply::Nothing);
            return Action::Nothing;
        },
        Some(inv) => inv,
    };
    let rest: Option<&str> = match &inv.rest {
        Some(t) => Some(t.as_str()),
        None => None,
    };
    assert(opt_str_view(rest) == opt_view(inv.rest));
    let ghost line = full_command@;
    let ghost hv = home_view(home);
    match builtin_of(inv.name.as_str()) {
        Some(Builtin::Exit) => {
            assert(dispatch(line, hv, None, false, false) == Reply::Exit);
            Action::Exit
        },
        Some(Builtin::Echo) => {
            let r = Action::Write(Stream::Stdout, echo_command(rest));
            assert(r@ == dispatch(line, hv, None, false, false));
            r
        },
        Some(Builtin::Type) => {
            let r = type_command(rest, path);
            proof {
                let res = choose|res: Option<Seq<char>>|
                    {
                        &&& (match opt_str_view(rest) {
                            Some(a) => !is_builtin(a) ==> resolves_to(a, path@, res),
                            None => true,
                        })
                        &&& r@ == #[trigger] type_reply(opt_str_view(rest), res)
                    };
                assert(r@ == dispatch(line, hv, res, false, false));
            }
            r
        },
        Some(Builtin::Pwd) => {
            assert(dispatch(line, hv, None, false, false) == Reply::ShowCwd);
            Action::ShowCwd
        },
        Some(Builtin::Cd) => {
            let r = cd_command(rest, home);
            proof {
                let (e, d) = choose|e: bool, d: bool|
                    r@ == #[trigger] cd_reply(opt_str_view(rest), hv, e, d);
                assert(r@ == dispatch(line, hv, None, e, d));
            }
            r
        },
        None => {
            let r = run_ext_command(inv.name.as_str(), rest, path);
            proof {
                let res = choose|res: Option<Seq<char>>|
                    resolves_to(inv.name@, path@, res) && r@ == #[trigger] external_reply(
                        inv.name@,
                        opt_str_view(rest),
                        res,
                    );
                assert(r@ == dispatch(line, hv, res, false, false));
            }
            r
        },
    }
}

/// Picks the captured stream to relay once a launched command has finished:
/// its standard output on success, its standard error otherwise.
pub fn relay_output(success: bool, stdout: Vec<u8>, stderr: Vec<u8>) -> (r: (Stream, Vec<u8>))
    ensures
        r.0 == (if success {
            Stream::Stdout
        } else {
            Stream::Stderr
        }),
        r.1@ == (if success {
            stdout@
        } else {
            stderr@
        }),
{
    if success {
        (Stream::Stdout, stdout)
    } else {
        (Stream::Stderr, stderr)
    }
}

} // verus!

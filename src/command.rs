//! Parsing of one input line into a command name and the untouched rest of
//! the line, and the table of builtin commands.

use vstd::prelude::*;
use vstd::string::*;
use crate::text::{fields, opt_str_view, opt_view, views, same_text, split_fields};

verus! {

/// The commands carried out in-process.
#[derive(Clone, Copy, Debug, PartialEq, Eq, Structural)]
pub enum Builtin {
    Exit,
    Echo,
    Type,
    Pwd,
    Cd,
}

/// The builtin that `name` denotes, if any.
pub open spec fn builtin_spec(name: Seq<char>) -> Option<Builtin> {
    if name == "exit"@ {
        Some(Builtin::Exit)
    } else if name == "echo"@ {
        Some(Builtin::Echo)
    } else if name == "type"@ {
        Some(Builtin::Type)
    } else if name == "pwd"@ {
        Some(Builtin::Pwd)
    } else if name == "cd"@ {
        Some(Builtin::Cd)
    } else {
        None
    }
}

pub open spec fn is_builtin(name: Seq<char>) -> bool {
    builtin_spec(name) is Some
}

/// Looks `name` up in the table of builtins.
pub fn builtin_of(name: &str) -> (r: Option<Builtin>)
    ensures
        r == builtin_spec(name@),
{
    if same_text(name, "exit") {
        Some(Builtin::Exit)
    } else if same_text(name, "echo") {
        Some(Builtin::Echo)
    } else if same_text(name, "type") {
        Some(Builtin::Type)
    } else if same_text(name, "pwd") {
        Some(Builtin::Pwd)
    } else if same_text(name, "cd") {
        Some(Builtin::Cd)
    } else {
        None
    }
}

/// A line split at its first space: the part before it, and the part after
/// it if there is a space at all.
pub open spec fn split_first(s: Seq<char>) -> (Seq<char>, Option<Seq<char>>)
    decreases s.len(),
{
    if s.len() == 0 {
        (Seq::<char>::empty(), None)
    } else if s[0] == ' ' {
        (Seq::<char>::empty(), Some(s.drop_first()))
    } else {
        let (n, r) = split_first(s.drop_first());
        (seq![s[0]] + n, r)
    }
}

/// The command that a line holds: none where the line is empty or the name
/// before the first space would be empty.
pub open spec fn parse_spec(line: Seq<char>) -> Option<(Seq<char>, Option<Seq<char>>)> {
    let (n, r) = split_first(line);
    if n.len() == 0 {
        None
    } else {
        Some((n, r))
    }
}

/// The arguments handed to an external command: the rest of the line split
/// at every single space, and none where there is no rest or it is empty.
pub open spec fn arg_list(rest: Option<Seq<char>>) -> Seq<Seq<char>> {
    match rest {
        None => Seq::empty(),
        Some(t) => if t.len() == 0 {
            Seq::empty()
        } else {
            fields(t, ' ')
        },
    }
}

/// Where the first space of `s` stands at `i` (or `s` has none and `i` is its
/// length), `split_first` cuts there.
pub proof fn lemma_split_first_at(s: Seq<char>, i: int)
    requires
        0 <= i <= s.len(),
        forall|j: int| 0 <= j < i ==> s[j] != ' ',
        i == s.len() || s[i] == ' ',
    ensures
        split_first(s) == (s.subrange(0, i), if i == s.len() {
            None
        } else {
            Some(s.subrange(i + 1, s.len() as int))
        }),
    decreases i,
{
    if s.len() == 0 {
        assert(s.subrange(0, i) =~= Seq::<char>::empty());
    } else if i == 0 {
        assert(s.subrange(0, 0) =~= Seq::<char>::empty());
        assert(s.drop_first() =~= s.subrange(1, s.len() as int));
    } else {
        let t = s.drop_first();
        lemma_split_first_at(t, i - 1);
        assert(seq![s[0]] + t.subrange(0, i - 1) =~= s.subrange(0, i));
        if i < s.len() {
            assert(t.subrange(i, t.len() as int) =~= s.subrange(i + 1, s.len() as int));
        }
    }
}

/// A command name and the untouched rest of its line.
pub struct Invocation {
    pub name: String,
    pub rest: Option<String>,
}

impl View for Invocation {
    type V = (Seq<char>, Option<Seq<char>>);

    open spec fn view(&self) -> (Seq<char>, Option<Seq<char>>) {
        (self.name@, opt_view(self.rest))
    }
}

pub open spec fn opt_invocation_view(o: Option<Invocation>) -> Option<
    (Seq<char>, Option<Seq<char>>),
> {
    match o {
        Some(v) => Some(v@),
        None => None,
    }
}

/// Splits a line at its first space into the command name and the rest.
pub fn split_command(line: &str) -> (r: Option<Invocation>)
    ensures
        opt_invocation_view(r) == parse_spec(line@),
{
    let n = line.unicode_len();
    let mut i: usize = 0;
    while i < n && line.get_char(i) != ' '
        invariant
            n == line@.len(),
            i <= n,
            forall|j: int| 0 <= j < i ==> line@[j] != ' ',
        decreases n - i,
    {
        i = i + 1;
    }
    proof {
        lemma_split_first_at(line@, i as int);
    }
    if i == 0 {
        return None;
    }
    let name = String::from_str(line.substring_char(0, i));
    let rest = if i < n {
        Some(String::from_str(line.substring_char(i + 1, n)))
    } else {
        None
    };
    Some(Invocation { name, rest })
}

/// The arguments for an external command, from the rest of its line.
pub fn split_args(rest: Option<&str>) -> (r: Vec<String>)
    ensures
        views(r@) == arg_list(opt_str_view(rest)),
{
    match rest {
        None => {
            let r: Vec<String> = Vec::new();
            assert(views(r@) =~= Seq::<Seq<char>>::empty());
            r
        },
        Some(t) => {
            if t.unicode_len() == 0 {
                let r: Vec<String> = Vec::new();
                assert(views(r@) =~= Seq::<Seq<char>>::empty());
                r
            } else {
                split_fields(t, ' ')
            }
        },
    }
}

} // verus!

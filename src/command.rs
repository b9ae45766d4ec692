//! Interpreting a submitted command line: the directory change built in, or a
//! program to start with its arguments.
use vstd::prelude::*;
use crate::text::{same_text, split_words, strings_view, words};

verus! {

/// What running a command line asks for.
#[derive(Clone, Debug)]
pub enum Invocation {
    /// Change the working directory to this target.
    ChangeDir(String),
    /// Start `program` with `args`, capturing its standard output.
    Spawn { program: String, args: Vec<String> },
}

/// The name of the directory-change built-in.
pub open spec fn cd_word() -> Seq<char> {
    seq!['c', 'd']
}

/// Where `cd` without an argument goes.
pub open spec fn cd_fallback() -> Seq<char> {
    "/Users/"@
}

/// The target of a `cd` whose words are `ws`: its first argument, else the fallback.
pub open spec fn cd_target(ws: Seq<Seq<char>>) -> Seq<char> {
    if ws.len() > 1 {
        ws[1]
    } else {
        cd_fallback()
    }
}

pub(crate) fn cd_str() -> (r: &'static str)
    ensures
        r@ == cd_word(),
{
    proof {
        reveal_strlit("cd");
    }
    "cd"
}

/// `r` is what the command line `line` asks for: nothing when it holds no
/// word; a directory change when its first word is `cd`; else the first word
/// started as a program with the other words as arguments.
pub open spec fn invocation_of(line: Seq<char>, r: Option<Invocation>) -> bool {
    match r {
        None => words(line).len() == 0,
        Some(Invocation::ChangeDir(t)) => {
            &&& words(line).len() > 0
            &&& words(line)[0] == cd_word()
            &&& t@ == cd_target(words(line))
        },
        Some(Invocation::Spawn { program, args }) => {
            &&& words(line).len() > 0
            &&& words(line)[0] != cd_word()
            &&& program@ == words(line)[0]
            &&& strings_view(args@) == words(line).drop_first()
        },
    }
}

/// What the command line `line` asks for: nothing when it holds no word; a
/// directory change when its first word is `cd`; else the first word started
/// as a program with the other words as arguments.
pub fn run_command(line: &str) -> (r: Option<Invocation>)
    ensures
        invocation_of(line@, r),
{
    let mut ws = split_words(line);
    if ws.len() == 0 {
        return None;
    }
    let ghost all = strings_view(ws@);
    let program = ws.remove(0);
    assert(strings_view(ws@) =~= all.drop_first());
    if same_text(program.as_str(), cd_str()) {
        if ws.len() > 0 {
            let t = ws.remove(0);
            Some(Invocation::ChangeDir(t))
        } else {
            Some(Invocation::ChangeDir(String::from_str("/Users/")))
        }
    } else {
        Some(Invocation::Spawn { program, args: ws })
    }
}

} // verus!

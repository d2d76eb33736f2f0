//! The interpreter's own commands, recognised before a line is parsed as a
//! pipeline: `exit`, and `cd` with an optional directory.
use vstd::prelude::*;

use crate::text::{tokenize, tokens, views};

verus! {

/// A command that the interpreter carries out itself.
#[derive(Debug)]
pub enum Builtin {
    /// Leave the interpreter.
    Exit,
    /// Change the interpreter's working directory to the given path.
    Cd(String),
}

/// The mathematical value of a [`Builtin`].
pub enum BuiltinView {
    Exit,
    Cd(Seq<char>),
}

impl View for Builtin {
    type V = BuiltinView;

    open spec fn view(&self) -> BuiltinView {
        match self {
            Builtin::Exit => BuiltinView::Exit,
            Builtin::Cd(p) => BuiltinView::Cd(p@),
        }
    }
}

/// The word `exit`.
pub open spec fn exit_word() -> Seq<char> {
    seq!['e', 'x', 'i', 't']
}

/// The word `cd`.
pub open spec fn cd_word() -> Seq<char> {
    seq!['c', 'd']
}

/// The directory `cd` goes to when no path follows it.
pub open spec fn root_dir() -> Seq<char> {
    seq!['/']
}

/// The built-in a line asks for: `exit` alone on the line, or `cd` as the
/// first word with the second word as the directory (the root when there is
/// none). Any other line is for the pipeline parser.
pub open spec fn builtin_of(line: Seq<char>) -> Option<BuiltinView> {
    let w = tokens(line);
    if w == seq![exit_word()] {
        Some(BuiltinView::Exit)
    } else if w.len() >= 1 && w[0] == cd_word() {
        Some(BuiltinView::Cd(if w.len() >= 2 { w[1] } else { root_dir() }))
    } else {
        None
    }
}

/// The view of an optional built-in.
pub open spec fn builtin_result(r: Option<Builtin>) -> Option<BuiltinView> {
    match r {
        Some(b) => Some(b@),
        None => None,
    }
}

/// Recognises the interpreter's own commands in a line.
pub fn builtin(line: &str) -> (r: Option<Builtin>)
    ensures
        builtin_result(r) == builtin_of(line@),
{
    let words = tokenize(line);
    proof {
        reveal_strlit("exit");
        reveal_strlit("cd");
        reveal_strlit("/");
        assert("exit"@ =~= exit_word());
        assert("cd"@ =~= cd_word());
        assert("/"@ =~= root_dir());
    }
    if words.len() == 0 {
        return None;
    }
    let exit = String::from_str("exit");
    let cd = String::from_str("cd");
    let first = words[0].clone();
    assert(views(words@)[0] == words@[0]@);
    if words.len() == 1 && first == exit {
        assert(views(words@) =~= seq![exit_word()]);
        return Some(Builtin::Exit);
    }
    if first == cd {
        if words.len() >= 2 {
            assert(views(words@)[1] == words@[1]@);
            return Some(Builtin::Cd(words[1].clone()));
        }
        return Some(Builtin::Cd(String::from_str("/")));
    }
    proof {
        if views(words@) == seq![exit_word()] {
            assert(words@.len() == 1);
        }
    }
    None
}

} // verus!

//! The command registry: the named commands the shell exposes, and the
//! dispatch decision from a command and its argument to the action owed.

use vstd::prelude::*;

use crate::greeting::greet;
use crate::greeting::greeting_of;

verus! {

/// A command of the shell's dispatch table.
#[derive(Clone, Copy, Debug, PartialEq, Eq, Structural)]
pub enum Command {
    Greet,
    QuitApp,
}

/// What the host loop must do in answer to a dispatched command.
#[derive(Debug)]
pub enum Action {
    /// Hand this text back to the caller.
    Reply(String),
    /// Terminate the process with success; nothing runs afterwards.
    Exit,
}

/// A name is registered exactly when it is one of the two commands,
/// `greet` and `quit_app`; no other name is.
pub open spec fn is_registered(name: Seq<char>) -> bool {
    name == "greet"@ || name == "quit_app"@
}

/// Character-for-character equality of two strings.
pub fn str_eq(a: &str, b: &str) -> (r: bool)
    ensures
        r == (a@ == b@),
{
    let a_len = a.unicode_len();
    let b_len = b.unicode_len();
    if a_len != b_len {
        return false;
    }
    let mut i: usize = 0;
    while i < a_len
        invariant
            a_len == a@.len(),
            a_len == b@.len(),
            i <= a_len,
            forall|j: int| 0 <= j < i ==> a@[j] == b@[j],
        decreases a_len - i,
    {
        if a.get_char(i) != b.get_char(i) {
            return false;
        }
        i = i + 1;
    }
    proof {
        assert(a@ =~= b@);
    }
    true
}

/// Looks a name up in the dispatch table: `Some` of its command exactly for
/// the two registered names, `None` for every other name.
pub fn lookup_command(name: &str) -> (r: Option<Command>)
    ensures
        r == Some(Command::Greet) <==> name@ == "greet"@,
        r == Some(Command::QuitApp) <==> name@ == "quit_app"@,
        r is None <==> !is_registered(name@),
{
    proof {
        reveal_strlit("greet");
        reveal_strlit("quit_app");
        assert("greet"@.len() != "quit_app"@.len());
    }
    if str_eq(name, "greet") {
        Some(Command::Greet)
    } else if str_eq(name, "quit_app") {
        Some(Command::QuitApp)
    } else {
        None
    }
}

/// The names of the dispatch table, in registration order: exactly `greet`
/// and `quit_app`, and no others.
pub fn registered_commands() -> (r: Vec<String>)
    ensures
        r@.len() == 2,
        r@[0]@ == "greet"@,
        r@[1]@ == "quit_app"@,
        forall|i: int| 0 <= i < r@.len() ==> is_registered(#[trigger] r@[i]@),
{
    let mut names: Vec<String> = Vec::new();
    names.push(String::from_str("greet"));
    names.push(String::from_str("quit_app"));
    names
}

/// Decides the action for a dispatched command: `Greet` answers with the
/// greeting for the argument, `QuitApp` orders the process terminated.
pub fn dispatch(cmd: Command, arg: &str) -> (r: Action)
    ensures
        cmd is Greet ==> (r matches Action::Reply(text) && text@ == greeting_of(arg@)),
        cmd is QuitApp ==> r is Exit,
{
    match cmd {
        Command::Greet => Action::Reply(greet(arg)),
        Command::QuitApp => Action::Exit,
    }
}

} // verus!

use vstd::prelude::*;
use crate::text::same_text;

verus! {

/// The commands the shell knows by name; any other name runs an external program.
#[derive(Clone, Copy, Debug, PartialEq, Eq, Structural)]
pub enum Builtin {
    Exit,
    Help,
    Echo,
    Pwd,
    Cd,
    Ls,
    Clear,
    Whoami,
    Uname,
    Date,
    External,
}

/// The command that a name selects: an exact, case-sensitive match.
pub open spec fn builtin_of(name: Seq<char>) -> Builtin {
    if name == "exit"@ || name == "quit"@ {
        Builtin::Exit
    } else if name == "help"@ {
        Builtin::Help
    } else if name == "echo"@ {
        Builtin::Echo
    } else if name == "pwd"@ {
        Builtin::Pwd
    } else if name == "cd"@ {
        Builtin::Cd
    } else if name == "ls"@ {
        Builtin::Ls
    } else if name == "clear"@ {
        Builtin::Clear
    } else if name == "whoami"@ {
        Builtin::Whoami
    } else if name == "uname"@ {
        Builtin::Uname
    } else if name == "date"@ {
        Builtin::Date
    } else {
        Builtin::External
    }
}

impl Builtin {
    /// Looks a command name up in the table of built-in commands.
    pub fn from_name(name: &str) -> (r: Builtin)
        ensures
            r == builtin_of(name@),
    {
        if same_text(name, "exit") || same_text(name, "quit") {
            Builtin::Exit
        } else if same_text(name, "help") {
            Builtin::Help
        } else if same_text(name, "echo") {
            Builtin::Echo
        } else if same_text(name, "pwd") {
            Builtin::Pwd
        } else if same_text(name, "cd") {
            Builtin::Cd
        } else if same_text(name, "ls") {
            Builtin::Ls
        } else if same_text(name, "clear") {
            Builtin::Clear
        } else if same_text(name, "whoami") {
            Builtin::Whoami
        } else if same_text(name, "uname") {
            Builtin::Uname
        } else if same_text(name, "date") {
            Builtin::Date
        } else {
            Builtin::External
        }
    }
}

} // verus!

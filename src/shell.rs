use vstd::prelude::*;
use crate::command::{Builtin, builtin_of};
use crate::words::{split_words, views, words};

verus! {

/// The directory a session starts in, and that `cd` alone returns to.
pub open spec fn home() -> Seq<char> {
    "/home/guest"@
}

/// The identity a session starts with.
pub open spec fn guest() -> Seq<char> {
    "guest"@
}

/// The list of commands that `help` prints.
pub open spec fn help_text() -> Seq<char> {
    "Available commands:\n  help          - Show this help message\n  echo [text]   - Print text\n  pwd           - Print working directory\n  cd [dir]      - Change directory\n  ls [dir]      - List directory\n  whoami        - Print current user\n  uname         - Print system information\n  date          - Print current date/time\n  clear         - Clear screen\n  exit/quit     - Exit shell\n"@
}

/// The system identification that `uname` prints.
pub open spec fn uname_text() -> Seq<char> {
    "Wasmux 1.0.0 wasmux wasm32 wasmux-wasi\n"@
}

/// The fixed date line that `date` prints.
pub open spec fn date_text() -> Seq<char> {
    "[sh] 2026-01-05 00:00:00 UTC\n"@
}

/// The terminal sequence that clears the screen and homes the cursor.
pub open spec fn clear_text() -> Seq<char> {
    "\x1B[2J\x1B[1;1H"@
}

/// The notice printed when the loop ends.
pub open spec fn farewell_text() -> Seq<char> {
    "[sh] Exiting shell...\n"@
}

/// The banner printed once, before the first prompt, followed by a blank line.
pub open spec fn banner_text() -> Seq<char> {
    "╔═══════════════════════════════════════════════════════════╗\n║                                                           ║\n║           Wasmux Shell v1.0.0 - POSIX Compatible         ║\n║                                                           ║\n║  Type 'help' for commands, 'exit' to quit                ║\n║                                                           ║\n╚═══════════════════════════════════════════════════════════╝\n\n"@
}

/// Words joined by single spaces.
pub open spec fn join(ws: Seq<Seq<char>>) -> Seq<char>
    decreases ws.len(),
{
    if ws.len() == 0 {
        Seq::empty()
    } else if ws.len() == 1 {
        ws[0]
    } else {
        join(ws.drop_last()) + " "@ + ws.last()
    }
}

/// What `echo` prints: its words on one line, or nothing at all when it has none.
pub open spec fn echo_text(args: Seq<Seq<char>>) -> Seq<char> {
    if args.len() == 0 {
        Seq::empty()
    } else {
        join(args) + "\n"@
    }
}

/// The diagnostic of `cd` for a path that does not exist.
pub open spec fn cd_missing_text(dir: Seq<char>) -> Seq<char> {
    "[sh] cd: "@ + dir + ": No such file or directory\n"@
}

/// The prompt shown before each line is read.
pub open spec fn prompt_text(s: Session) -> Seq<char> {
    s.identity + "$ "@
}

/// The state of a session: where it is and who it runs as.
pub struct Session {
    pub working_directory: Seq<char>,
    pub identity: Seq<char>,
}

/// What the loop is to do after a line: the view of an `Action`.
pub enum Reply {
    Nothing,
    Exit,
    Print(Seq<char>),
    CheckPath(Seq<char>),
    ListDir(Seq<char>),
    Run(Seq<Seq<char>>),
}

/// What the loop is to do after a line.
#[derive(Clone, Debug, PartialEq, Eq)]
pub enum Action {
    /// The line held no words: prompt again.
    Nothing,
    /// Leave the loop.
    Exit,
    /// Write this text, then prompt again.
    Print(String),
    /// `cd` to this path: test whether it exists and hand the answer to `Shell::finish_cd`.
    CheckPath(String),
    /// `ls` of this path: read its entries and hand them to `listing`, or the error to
    /// `ls_failure`.
    ListDir(String),
    /// Run this program (first word) with these arguments, and hand what came of it
    /// to `external_report`.
    Run(Vec<String>),
}

impl View for Action {
    type V = Reply;

    open spec fn view(&self) -> Reply {
        match self {
            Action::Nothing => Reply::Nothing,
            Action::Exit => Reply::Exit,
            Action::Print(t) => Reply::Print(t@),
            Action::CheckPath(p) => Reply::CheckPath(p@),
            Action::ListDir(p) => Reply::ListDir(p@),
            Action::Run(ws) => Reply::Run(views(ws@)),
        }
    }
}

/// The new session and the reply for the words of one line.
pub open spec fn dispatch(s: Session, ws: Seq<Seq<char>>) -> (Session, Reply) {
    if ws.len() == 0 {
        (s, Reply::Nothing)
    } else {
        let args = ws.skip(1);
        match builtin_of(ws[0]) {
            Builtin::Exit => (s, Reply::Exit),
            Builtin::Help => (s, Reply::Print(help_text())),
            Builtin::Echo => (s, Reply::Print(echo_text(args))),
            Builtin::Pwd => (s, Reply::Print(s.working_directory + "\n"@)),
            Builtin::Cd => if args.len() == 0 {
                (Session { working_directory: home(), ..s }, Reply::Print(Seq::empty()))
            } else {
                (s, Reply::CheckPath(args[0]))
            },
            Builtin::Ls => (s, Reply::ListDir(
                if args.len() == 0 {
                    s.working_directory
                } else {
                    args[0]
                },
            )),
            Builtin::Clear => (s, Reply::Print(clear_text())),
            Builtin::Whoami => (s, Reply::Print(s.identity + "\n"@)),
            Builtin::Uname => (s, Reply::Print(uname_text())),
            Builtin::Date => (s, Reply::Print(date_text())),
            Builtin::External => (s, Reply::Run(ws)),
        }
    }
}

/// The new session and the output of `cd dir`, given whether `dir` exists.
pub open spec fn cd_result(s: Session, dir: Seq<char>, exists: bool) -> (Session, Seq<char>) {
    if exists {
        (Session { working_directory: dir, ..s }, Seq::empty())
    } else {
        (s, cd_missing_text(dir))
    }
}

/// The shell's session: its working directory and the name it runs as.
pub struct Shell {
    pub current_dir: String,
    pub username: String,
}

impl View for Shell {
    type V = Session;

    open spec fn view(&self) -> Session {
        Session { working_directory: self.current_dir@, identity: self.username@ }
    }
}

fn join_from(ws: &Vec<String>, start: usize) -> (r: String)
    requires
        start < ws.len(),
    ensures
        r@ == join(views(ws@).skip(start as int)),
{
    let ghost all = views(ws@);
    let mut out = ws[start].clone();
    let mut i: usize = start + 1;
    assert(all.skip(start as int).take(1) =~= seq![all[start as int]]);
    while i < ws.len()
        invariant
            all == views(ws@),
            start < i <= ws.len(),
            out@ == join(all.skip(start as int).take(i - start)),
        decreases ws.len() - i,
    {
        let ghost before = out@;
        out.append(" ");
        out.append(ws[i].as_str());
        proof {
            let t = all.skip(start as int).take(i + 1 - start);
            assert(t.drop_last() =~= all.skip(start as int).take(i - start));
            assert(t.last() == ws@[i as int]@);
        }
        i = i + 1;
    }
    assert(all.skip(start as int).take(ws.len() - start) =~= all.skip(start as int));
    out
}

impl Shell {
    /// A session in the guest's home directory.
    pub fn new() -> (r: Shell)
        ensures
            r@ == (Session { working_directory: home(), identity: guest() }),
    {
        Shell {
            current_dir: String::from_str("/home/guest"),
            username: String::from_str("guest"),
        }
    }

    /// The prompt to show before reading a line.
    pub fn prompt(&self) -> (r: String)
        ensures
            r@ == prompt_text(self@),
    {
        let mut out = self.username.clone();
        out.append("$ ");
        out
    }

    /// Decides what one input line does: updates the session where the line alone
    /// settles it, and says what the loop is to do next.
    pub fn handle_command(&mut self, input: &str) -> (r: Action)
        ensures
            (final(self)@, r@) == dispatch(old(self)@, words(input@)),
    {
        let ws = split_words(input);
        if ws.len() == 0 {
            return Action::Nothing;
        }
        let ghost wv = views(ws@);
        assert(wv[0] == ws@[0]@);
        let n = ws.len();
        proof {
            assert(wv.skip(1).len() == n - 1);
            if n > 1 {
                assert(wv.skip(1)[0] == ws@[1]@);
            }
        }
        match Builtin::from_name(ws[0].as_str()) {
            Builtin::Exit => Action::Exit,
            Builtin::Help => Action::Print(help()),
            Builtin::Echo => {
                if n == 1 {
                    Action::Print(String::new())
                } else {
                    let mut out = join_from(&ws, 1);
                    out.append("\n");
                    Action::Print(out)
                }
            },
            Builtin::Pwd => {
                let mut out = self.current_dir.clone();
                out.append("\n");
                Action::Print(out)
            },
            Builtin::Cd => {
                if n == 1 {
                    self.current_dir = String::from_str("/home/guest");
                    Action::Print(String::new())
                } else {
                    Action::CheckPath(ws[1].clone())
                }
            },
            Builtin::Ls => {
                if n == 1 {
                    Action::ListDir(self.current_dir.clone())
                } else {
                    Action::ListDir(ws[1].clone())
                }
            },
            Builtin::Clear => Action::Print(String::from_str("\x1B[2J\x1B[1;1H")),
            Builtin::Whoami => {
                let mut out = self.username.clone();
                out.append("\n");
                Action::Print(out)
            },
            Builtin::Uname => Action::Print(String::from_str("Wasmux 1.0.0 wasmux wasm32 wasmux-wasi\n")),
            Builtin::Date => Action::Print(String::from_str("[sh] 2026-01-05 00:00:00 UTC\n")),
            Builtin::External => Action::Run(ws),
        }
    }

    /// Completes `cd dir` once it is known whether `dir` exists: moves there (the path
    /// kept as written) or leaves the session as it was and returns a diagnostic.
    pub fn finish_cd(&mut self, dir: &str, exists: bool) -> (r: String)
        ensures
            (final(self)@, r@) == cd_result(old(self)@, dir@, exists),
    {
        if exists {
            self.current_dir = String::from_str(dir);
            String::new()
        } else {
            let mut out = String::from_str("[sh] cd: ");
            out.append(dir);
            out.append(": No such file or directory\n");
            out
        }
    }
}

/// The list of commands and what each does.
pub fn help() -> (r: String)
    ensures
        r@ == help_text(),
{
    String::from_str("Available commands:\n  help          - Show this help message\n  echo [text]   - Print text\n  pwd           - Print working directory\n  cd [dir]      - Change directory\n  ls [dir]      - List directory\n  whoami        - Print current user\n  uname         - Print system information\n  date          - Print current date/time\n  clear         - Clear screen\n  exit/quit     - Exit shell\n")
}

/// The banner shown when the shell starts.
pub fn banner() -> (r: String)
    ensures
        r@ == banner_text(),
{
    String::from_str("╔═══════════════════════════════════════════════════════════╗\n║                                                           ║\n║           Wasmux Shell v1.0.0 - POSIX Compatible         ║\n║                                                           ║\n║  Type 'help' for commands, 'exit' to quit                ║\n║                                                           ║\n╚═══════════════════════════════════════════════════════════╝\n\n")
}

/// The notice shown when the shell ends.
pub fn farewell() -> (r: String)
    ensures
        r@ == farewell_text(),
{
    String::from_str("[sh] Exiting shell...\n")
}

} // verus!

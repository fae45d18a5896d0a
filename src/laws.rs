use vstd::prelude::*;
use crate::command::{Builtin, builtin_of};
use crate::report::{RunOutcome, run_report_text};
use crate::shell::{Reply, Session, cd_missing_text, cd_result, dispatch, home, join};
use crate::text::is_space;
use crate::words::{lemma_words_clean, words};

verus! {

proof fn lemma_builtin_names()
    ensures
        builtin_of("echo"@) == Builtin::Echo,
        builtin_of("cd"@) == Builtin::Cd,
        builtin_of("pwd"@) == Builtin::Pwd,
{
    reveal_strlit("exit");
    reveal_strlit("quit");
    reveal_strlit("help");
    reveal_strlit("echo");
    reveal_strlit("pwd");
    reveal_strlit("cd");
    assert("echo"@[1] != "exit"@[1]);
    assert("echo"@[0] != "quit"@[0]);
    assert("echo"@[0] != "help"@[0]);
    assert("pwd"@.len() != "exit"@.len());
    assert("pwd"@.len() != "quit"@.len());
    assert("pwd"@.len() != "help"@.len());
    assert("pwd"@.len() != "echo"@.len());
    assert("cd"@.len() != "exit"@.len());
    assert("cd"@.len() != "quit"@.len());
    assert("cd"@.len() != "help"@.len());
    assert("cd"@.len() != "echo"@.len());
    assert("cd"@.len() != "pwd"@.len());
}

/// A line that is empty or holds only white space has no words, so it neither runs a
/// command nor changes the session: the loop just prompts again.
pub proof fn lemma_blank_line_is_idle(s: Session, line: Seq<char>)
    requires
        forall|i: int| 0 <= i < line.len() ==> is_space(#[trigger] line[i]),
    ensures
        words(line) == Seq::<Seq<char>>::empty(),
        dispatch(s, words(line)) == (s, Reply::Nothing),
    decreases line.len(),
{
    if line.len() > 0 {
        let t = line.drop_first();
        assert forall|i: int| 0 <= i < t.len() implies is_space(#[trigger] t[i]) by {
            assert(t[i] == line[i + 1]);
        }
        assert(is_space(line[0]));
        lemma_blank_line_is_idle(s, t);
    }
}

/// Text in which every white-space character is a plain space standing between two
/// characters that are not white space: no leading, trailing or repeated spacing.
pub open spec fn single_spaced(t: Seq<char>) -> bool {
    forall|i: int|
        0 <= i < t.len() && is_space(#[trigger] t[i]) ==> {
            &&& t[i] == ' '
            &&& 0 < i < t.len() - 1
            &&& !is_space(t[i - 1])
            &&& !is_space(t[i + 1])
        }
}

proof fn lemma_join_single_spaced(ws: Seq<Seq<char>>)
    requires
        forall|i: int| 0 <= i < ws.len() ==> #[trigger] ws[i].len() > 0,
        forall|i: int, j: int| 0 <= i < ws.len() && 0 <= j < ws[i].len() ==> !is_space(#[trigger] ws[i][j]),
    ensures
        single_spaced(join(ws)),
        ws.len() > 0 ==> join(ws).len() > 0,
    decreases ws.len(),
{
    reveal_strlit(" ");
    if ws.len() == 1 {
        assert forall|i: int| 0 <= i < join(ws).len() implies !is_space(#[trigger] join(ws)[i]) by {
            assert(join(ws)[i] == ws[0][i]);
        }
    } else if ws.len() > 1 {
        let front = ws.drop_last();
        let last = ws.last();
        assert(last == ws[ws.len() - 1]);
        assert forall|i: int| 0 <= i < front.len() implies #[trigger] front[i].len() > 0 by {
            assert(front[i] == ws[i]);
        }
        assert forall|i: int, j: int| 0 <= i < front.len() && 0 <= j < front[i].len() implies !is_space(#[trigger] front[i][j]) by {
            assert(front[i] == ws[i]);
        }
        lemma_join_single_spaced(front);
        let j0 = join(front);
        let t = join(ws);
        assert(t == j0 + " "@ + last);
        let n = j0.len();
        assert(!is_space(j0[n - 1]));
        assert(!is_space(last[0]));
        assert forall|i: int| 0 <= i < t.len() && is_space(#[trigger] t[i]) implies {
            &&& t[i] == ' '
            &&& 0 < i < t.len() - 1
            &&& !is_space(t[i - 1])
            &&& !is_space(t[i + 1])
        } by {
            if i < n {
                assert(t[i] == j0[i]);
                assert(t[i - 1] == j0[i - 1]);
                assert(t[i + 1] == j0[i + 1]);
            } else if i == n {
                assert(t[i - 1] == j0[n - 1]);
                assert(t[i + 1] == last[0]);
            } else {
                assert(t[i] == last[i - n - 1]);
            }
        }
    }
}

/// `echo` prints its words separated by single spaces and ended by a newline, however
/// much white space stood between or around them on the line.
pub proof fn lemma_echo_single_spaced(s: Session, line: Seq<char>)
    requires
        words(line).len() > 1,
        words(line)[0] == "echo"@,
    ensures
        dispatch(s, words(line)) == (s, Reply::Print(join(words(line).skip(1)) + "\n"@)),
        single_spaced(join(words(line).skip(1))),
        join(words(line).skip(1)).len() > 0,
{
    lemma_builtin_names();
    lemma_words_clean(line);
    let ws = words(line);
    let args = ws.skip(1);
    assert forall|i: int| 0 <= i < args.len() implies #[trigger] args[i].len() > 0 by {
        assert(args[i] == ws[i + 1]);
    }
    assert forall|i: int, j: int| 0 <= i < args.len() && 0 <= j < args[i].len() implies !is_space(#[trigger] args[i][j]) by {
        assert(args[i] == ws[i + 1]);
    }
    lemma_join_single_spaced(args);
}

/// `echo` alone prints nothing at all, not even a newline.
pub proof fn lemma_bare_echo_prints_nothing(s: Session)
    ensures
        dispatch(s, seq!["echo"@]) == (s, Reply::Print(Seq::empty())),
{
    lemma_builtin_names();
    let ws = seq!["echo"@];
    assert(ws.skip(1) =~= Seq::<Seq<char>>::empty());
}

/// `cd` to a path that does not exist keeps the session and names the path in its
/// diagnostic.
pub proof fn lemma_cd_missing_keeps_session(s: Session, dir: Seq<char>)
    ensures
        cd_result(s, dir, false).0 == s,
        cd_result(s, dir, false).1 == cd_missing_text(dir),
        exists|k: int|
            0 <= k && k + dir.len() <= cd_missing_text(dir).len() && #[trigger] cd_missing_text(
                dir,
            ).subrange(k, k + dir.len()) == dir,
{
    let t = cd_missing_text(dir);
    let k = "[sh] cd: "@.len() as int;
    assert(t.subrange(k, k + dir.len()) =~= dir);
}

/// `cd` alone returns to the home directory, whatever the directory was before.
pub proof fn lemma_bare_cd_goes_home(s: Session)
    ensures
        dispatch(s, seq!["cd"@]).0 == (Session { working_directory: home(), ..s }),
        dispatch(s, seq!["cd"@]).1 == Reply::Print(Seq::empty()),
{
    lemma_builtin_names();
    assert(seq!["cd"@].skip(1) =~= Seq::<Seq<char>>::empty());
}

/// `pwd` prints the working directory exactly as it is held, whatever follows it.
pub proof fn lemma_pwd_prints_directory(s: Session, args: Seq<Seq<char>>)
    ensures
        dispatch(s, seq!["pwd"@] + args) == (s, Reply::Print(s.working_directory + "\n"@)),
{
    lemma_builtin_names();
    assert((seq!["pwd"@] + args)[0] == "pwd"@);
}

/// A name that is no built-in runs as an external program and leaves the session as
/// it was; if it cannot be started the report says "command not found" with the name,
/// and the session still answers `pwd` afterwards.
pub proof fn lemma_unknown_command(s: Session, ws: Seq<Seq<char>>)
    requires
        ws.len() > 0,
        builtin_of(ws[0]) == Builtin::External,
    ensures
        dispatch(s, ws) == (s, Reply::Run(ws)),
        run_report_text(ws[0], RunOutcome::NotFound) == "[sh] command not found: "@ + ws[0]
            + "\n"@,
        dispatch(dispatch(s, ws).0, seq!["pwd"@]) == (s, Reply::Print(
            s.working_directory + "\n"@,
        )),
{
    lemma_pwd_prints_directory(s, Seq::empty());
    assert(seq!["pwd"@] + Seq::<Seq<char>>::empty() =~= seq!["pwd"@]);
}

/// `exit` and `quit` both end the loop, whatever words follow them, and change nothing.
pub proof fn lemma_exit_and_quit_agree(s: Session, args: Seq<Seq<char>>)
    ensures
        dispatch(s, seq!["exit"@] + args) == (s, Reply::Exit),
        dispatch(s, seq!["quit"@] + args) == (s, Reply::Exit),
{
    assert((seq!["exit"@] + args)[0] == "exit"@);
    assert((seq!["quit"@] + args)[0] == "quit"@);
}

/// Changing twice to the same existing directory leaves the session as changing once.
pub proof fn lemma_cd_twice_same_as_once(s: Session, dir: Seq<char>)
    ensures
        cd_result(cd_result(s, dir, true).0, dir, true).0 == cd_result(s, dir, true).0,
{
}

} // verus!

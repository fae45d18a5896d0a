use vstd::prelude::*;
use crate::decimal::{decimal, decimal_text};

verus! {

/// What came of running an external program.
#[derive(Clone, Copy, Debug, PartialEq, Eq)]
pub enum RunOutcome {
    /// It ran and exited with status zero.
    Success,
    /// It ran and failed: with this exit code, or with none when a signal ended it.
    Failed(Option<i32>),
    /// It could not be started.
    NotFound,
}

/// The names of a directory listing, each followed by two spaces; names that are
/// not valid text (`None`) are left out.
pub open spec fn entries_text(names: Seq<Option<String>>) -> Seq<char>
    decreases names.len(),
{
    if names.len() == 0 {
        Seq::empty()
    } else {
        entries_text(names.drop_last()) + match names.last() {
            Some(n) => n@ + "  "@,
            None => Seq::empty(),
        }
    }
}

/// What `ls` prints for a directory it could read.
pub open spec fn listing_text(names: Seq<Option<String>>) -> Seq<char> {
    entries_text(names) + "\n"@
}

/// What `ls` prints for a path it could not read, with the system's reason.
pub open spec fn ls_failure_text(dir: Seq<char>, reason: Seq<char>) -> Seq<char> {
    "[sh] ls: cannot open "@ + dir + ": "@ + reason + "\n"@
}

/// How an exit status is written: `Some(<code>)`, or `None`.
pub open spec fn status_text(code: Option<i32>) -> Seq<char> {
    match code {
        Some(c) => "Some("@ + decimal(c as int) + ")"@,
        None => "None"@,
    }
}

/// What the shell prints after running an external command `name`.
pub open spec fn run_report_text(name: Seq<char>, outcome: RunOutcome) -> Seq<char> {
    match outcome {
        RunOutcome::Success => Seq::empty(),
        RunOutcome::Failed(code) => "[sh] command exited with status: "@ + status_text(code)
            + "\n"@,
        RunOutcome::NotFound => "[sh] command not found: "@ + name + "\n"@,
    }
}

/// Formats the entries of a directory for `ls`.
pub fn listing(names: &Vec<Option<String>>) -> (r: String)
    ensures
        r@ == listing_text(names@),
{
    let mut out = String::new();
    let mut i: usize = 0;
    while i < names.len()
        invariant
            i <= names.len(),
            out@ == entries_text(names@.take(i as int)),
        decreases names.len() - i,
    {
        assert(names@.take(i + 1).drop_last() =~= names@.take(i as int));
        match &names[i] {
            Some(n) => {
                out.append(n.as_str());
                out.append("  ");
            },
            None => {},
        }
        i = i + 1;
    }
    assert(names@.take(names.len() as int) =~= names@);
    out.append("\n");
    out
}

/// The diagnostic of `ls` for a path it could not read.
pub fn ls_failure(dir: &str, reason: &str) -> (r: String)
    ensures
        r@ == ls_failure_text(dir@, reason@),
{
    let mut out = String::from_str("[sh] ls: cannot open ");
    out.append(dir);
    out.append(": ");
    out.append(reason);
    out.append("\n");
    out
}

/// What to print once the external command `name` has finished or failed to start.
pub fn external_report(name: &str, outcome: RunOutcome) -> (r: String)
    ensures
        r@ == run_report_text(name@, outcome),
{
    match outcome {
        RunOutcome::Success => String::new(),
        RunOutcome::Failed(code) => {
            let mut out = String::from_str("[sh] command exited with status: ");
            match code {
                Some(c) => {
                    out.append("Some(");
                    out.append(decimal_text(c).as_str());
                    out.append(")");
                },
                None => {
                    out.append("None");
                },
            }
            out.append("\n");
            out
        },
        RunOutcome::NotFound => {
            let mut out = String::from_str("[sh] command not found: ");
            out.append(name);
            out.append("\n");
            out
        },
    }
}

} // verus!

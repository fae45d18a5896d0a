use vstd::prelude::*;

pub mod text;
pub mod words;
pub mod command;
pub mod decimal;
pub mod shell;
pub mod report;
pub mod laws;

verus! {

/// The version line of the runtime support library.
pub open spec fn hello_text() -> Seq<char> {
    "Wasmux libc wrapper v1.0.0"@
}

/// Returns the version line of the runtime support library.
pub fn hello() -> (r: &'static str)
    ensures
        r@ == hello_text(),
{
    "Wasmux libc wrapper v1.0.0"
}

} // verus!

//! Program state and exit codes.
use vstd::prelude::*;

verus! {

/// Whether the program stays resident after it returns.
#[derive(Eq, PartialEq, Structural, Copy, Clone, Debug, Hash)]
pub enum ProgramState {
    Normal,
    Resident,
}

impl Default for ProgramState {
    fn default() -> (r: ProgramState)
        ensures
            r == ProgramState::Normal,
    {
        ProgramState::Normal
    }
}

/// A value a program's entry point may return, turned into the status code
/// handed back to the operating system.
pub trait Termination {
    /// The status code: 0 for success.
    fn report(self) -> i32;
}

impl Termination for () {
    fn report(self) -> i32 {
        0
    }
}

impl Termination for i32 {
    fn report(self) -> i32 {
        self
    }
}

/// The status code for a program that ended with `Ok` (0) or `Err` (1).
pub fn report_result<E>(r: Result<(), E>) -> (code: i32)
    ensures
        code == (if r is Ok {
            0i32
        } else {
            1i32
        }),
{
    match r {
        Ok(()) => 0,
        Err(_) => 1,
    }
}

} // verus!

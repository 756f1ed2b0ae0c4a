//! How a listing can fail, and the exit code that a run ends with.

use vstd::prelude::*;

verus! {

/// Why a listing did not succeed.
#[derive(Clone, Copy, Debug, PartialEq, Eq, Structural)]
pub enum ListError {
    /// The logging service did not answer the call with a usable result.
    RemoteError,
    /// The command line asked for something that cannot be done.
    UserInputError,
    /// The call succeeded and returned no item.
    EmptyResult,
}

/// What is left of a failed remote call: the cause is not kept.
#[derive(Clone, Copy, Debug, PartialEq, Eq, Structural)]
pub struct RemoteFailure {}

/// The exit code for `outcome`: 0 for success, 1 for every failure.
pub open spec fn exit_code_of(outcome: Result<(), ListError>) -> int {
    if outcome is Ok {
        0
    } else {
        1
    }
}

/// The exit code that a run with `outcome` ends with.
pub fn exit_code(outcome: &Result<(), ListError>) -> (code: i32)
    ensures
        code == exit_code_of(*outcome),
{
    match outcome {
        Ok(_) => 0,
        Err(_) => 1,
    }
}

} // verus!

//! Checks on the external programs a capture relies on.

use vstd::prelude::*;

use crate::error::{message_of, Error};

verus! {

/// Turns the result of looking `program` up on `PATH` into the error the user
/// sees. Worth doing before the session is touched: discovering a missing tool
/// after the workspace has moved turns a clear error into a confusing one.
pub fn require(program: &'static str, install_hint: &str, found: bool) -> (r: Result<(), Error>)
    ensures
        found ==> r is Ok,
        !found ==> (r matches Err(Error::MissingDependency(p, h)) && p@ == program@ && h@
            == install_hint@),
{
    if found {
        Ok(())
    } else {
        Err(Error::MissingDependency(program, String::from_str(install_hint)))
    }
}

/// Combines the steps of a restore that are all attempted: the first failure
/// is what is reported. `so_far` is the outcome of the earlier steps, `step`
/// that of the next one.
pub fn keep_first_failure(so_far: Result<(), Error>, step: Result<(), Error>) -> (r: Result<(), Error>)
    ensures
        so_far is Err ==> r == so_far,
        so_far is Ok ==> r == step,
{
    match so_far {
        Err(e) => Err(e),
        Ok(()) => step,
    }
}

/// The outcome of a capture that ran with the session modified. A failed
/// capture reports its own error; a capture that worked but whose cleanup
/// failed reports a restore error carrying the cleanup's message, which is
/// what the documented exit code for a failed restore is for.
pub fn session_outcome(restored: Result<(), Error>, captured: Result<(), Error>) -> (r: Result<(), Error>)
    ensures
        captured is Err ==> r == captured,
        captured is Ok ==> (restored matches Err(e) ==> (r matches Err(Error::Restore(m)) && (!(
        e is Io) ==> m@ == message_of(&e)))),
        restored is Ok && captured is Ok ==> r is Ok,
{
    match captured {
        Err(e) => Err(e),
        Ok(()) => match restored {
            Err(e) => Err(Error::Restore(e.message())),
            Ok(()) => Ok(()),
        },
    }
}

} // verus!

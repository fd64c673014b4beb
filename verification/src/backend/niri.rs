//! niri backend.
//!
//! niri's IPC cannot create an output at runtime; it only reconfigures outputs
//! it already knows. So the phantom output has to be arranged some other way,
//! and until that is wired up the backend reports precisely what is missing.

use vstd::prelude::*;

use crate::backend::OutputId;
use crate::error::Error;

verus! {

/// Name of the output the user is expected to have declared as `off` in their
/// niri config. A fixed name keeps the config snippet copy-pasteable.
pub const PHANTOM_OUTPUT_NAME: &'static str = "utsushot-phantom";

/// What the phantom output looked like before it was touched.
#[derive(Debug, Clone)]
pub struct PhantomState {
    pub was_enabled: bool,
}

/// The niri backend.
#[derive(Debug)]
pub struct NiriBackend {
    previous: Option<PhantomState>,
}

/// The explanation given while phantom output setup is not available.
pub open spec fn setup_message() -> Seq<char> {
    "phantom output setup is not wired up yet. niri 26.04 cannot create outputs over IPC, so utsushot will require a disabled '"@
        + PHANTOM_OUTPUT_NAME@
        + "' output in your niri config. See docs/backends/niri.md and issue #1."@
}

/// The explanation given while moving the target is not available.
pub open spec fn move_message() -> Seq<char> {
    "moving the target is not implemented yet (issue #2)"@
}

/// Whether `e` is the "not implemented" error of backend `backend` with
/// message `msg`.
pub open spec fn is_unimplemented(e: Error, backend: Seq<char>, msg: Seq<char>) -> bool {
    e matches Error::Unimplemented(b, m) && b@ == backend && m@ == msg
}

/// The error returned while the backend cannot move the target.
pub fn move_target_error() -> (e: Error)
    ensures
        is_unimplemented(e, "niri"@, move_message()),
{
    Error::Unimplemented("niri", String::from_str("moving the target is not implemented yet (issue #2)"))
}

impl NiriBackend {
    /// Whether no earlier state of the phantom output is being remembered.
    pub closed spec fn is_fresh(&self) -> bool {
        self.previous is None
    }

    /// A backend that has not touched any output yet.
    pub fn new() -> (b: NiriBackend)
        ensures
            b.is_fresh(),
    {
        NiriBackend { previous: None }
    }

    /// The backend's stable name.
    pub fn name(&self) -> (s: &'static str)
        ensures
            s@ == "niri"@,
    {
        "niri"
    }

    /// Sets up the phantom output of `width` by `height` pixels. Not available
    /// yet: the result is the error that says what the user must configure.
    pub fn create_phantom(&mut self, width: u32, height: u32) -> (r: Result<OutputId, Error>)
        ensures
            r matches Err(e) && is_unimplemented(e, "niri"@, setup_message()),
            *final(self) == *old(self),
    {
        let mut msg = String::from_str(
            "phantom output setup is not wired up yet. niri 26.04 cannot create outputs over IPC, so utsushot will require a disabled '",
        );
        msg.append(PHANTOM_OUTPUT_NAME);
        msg.append("' output in your niri config. See docs/backends/niri.md and issue #1.");
        Err(Error::Unimplemented("niri", msg))
    }

    /// Forgets the remembered state of the phantom output. Never fails.
    pub fn cleanup(&mut self) -> (r: Result<(), Error>)
        ensures
            r is Ok,
            final(self).is_fresh(),
    {
        self.previous = None;
        Ok(())
    }
}

} // verus!

//! sway backend (planned): sway can create headless outputs at runtime with `swaymsg create_output`.

use vstd::prelude::*;

use crate::error::Error;

verus! {

/// The sway backend, which does not do the work yet.
#[derive(Debug, Default)]
pub struct SwayBackend;

/// The message that invites a contribution for this backend.
pub open spec fn planned_message() -> Seq<char> {
    "backend planned, contributions welcome. The path is swaymsg create_output; see docs/backends/sway.md and CONTRIBUTING.md."@
}

/// The error every operation of this backend returns.
pub fn planned() -> (e: Error)
    ensures
        e matches Error::Unimplemented(b, m) && b@ == "sway"@ && m@ == planned_message(),
{
    Error::Unimplemented(
        "sway",
        String::from_str(
            "backend planned, contributions welcome. The path is swaymsg create_output; see docs/backends/sway.md and CONTRIBUTING.md.",
        ),
    )
}

impl SwayBackend {
    /// The backend.
    pub fn new() -> (b: SwayBackend) {
        SwayBackend
    }

    /// The backend's stable name.
    pub fn name(&self) -> (s: &'static str)
        ensures
            s@ == "sway"@,
    {
        "sway"
    }
}

} // verus!

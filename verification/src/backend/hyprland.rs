//! Hyprland backend (planned): Hyprland can create headless outputs at runtime with `hyprctl output create headless`.

use vstd::prelude::*;

use crate::error::Error;

verus! {

/// The hyprland backend, which does not do the work yet.
#[derive(Debug, Default)]
pub struct HyprlandBackend;

/// The message that invites a contribution for this backend.
pub open spec fn planned_message() -> Seq<char> {
    "backend planned, contributions welcome. The path is `hyprctl output create headless`; see docs/backends/hyprland.md and CONTRIBUTING.md."@
}

/// The error every operation of this backend returns.
pub fn planned() -> (e: Error)
    ensures
        e matches Error::Unimplemented(b, m) && b@ == "hyprland"@ && m@ == planned_message(),
{
    Error::Unimplemented(
        "hyprland",
        String::from_str(
            "backend planned, contributions welcome. The path is `hyprctl output create headless`; see docs/backends/hyprland.md and CONTRIBUTING.md.",
        ),
    )
}

impl HyprlandBackend {
    /// The backend.
    pub fn new() -> (b: HyprlandBackend) {
        HyprlandBackend
    }

    /// The backend's stable name.
    pub fn name(&self) -> (s: &'static str)
        ensures
            s@ == "hyprland"@,
    {
        "hyprland"
    }
}

} // verus!

//! Process exit codes. They are part of the documented command-line contract.

use vstd::prelude::*;

verus! {

/// The capture finished and the session was left as it was found.
pub const SUCCESS: i32 = 0;

/// Bad flags or a request that names nothing the tool knows.
pub const USAGE: i32 = 2;

/// No compositor the tool can drive was found.
pub const NO_BACKEND: i32 = 3;

/// The compositor is known, but its backend does nothing useful yet.
pub const BACKEND_UNIMPLEMENTED: i32 = 4;

/// A required external program is not on `PATH`.
pub const MISSING_DEPENDENCY: i32 = 5;

/// The capture itself failed.
pub const CAPTURE_FAILED: i32 = 6;

/// The capture worked, but putting the session back did not.
pub const RESTORE_FAILED: i32 = 7;

} // verus!

//! The parts of the command line that are decisions rather than parsing: the
//! default file name and how verbose to be.

use vstd::prelude::*;

use crate::text::{decimal, push_decimal};

verus! {

/// How much to log.
#[derive(Debug, Clone, Copy, PartialEq, Eq, Structural)]
pub enum LogLevel {
    Info,
    Debug,
    Trace,
}

/// The log level for `-v` given `verbose` times: none is info, once is
/// debug, more is trace.
pub fn log_level_for(verbose: u8) -> (l: LogLevel)
    ensures
        verbose == 0 ==> l == LogLevel::Info,
        verbose == 1 ==> l == LogLevel::Debug,
        verbose >= 2 ==> l == LogLevel::Trace,
{
    match verbose {
        0 => LogLevel::Info,
        1 => LogLevel::Debug,
        _ => LogLevel::Trace,
    }
}

/// The name of the file a capture taken at Unix time `stamp` goes to when no
/// path is given.
pub open spec fn default_name(stamp: u64) -> Seq<char> {
    "utsushot_"@ + decimal(stamp as nat) + ".png"@
}

/// The default file name for a capture taken at Unix time `stamp`.
pub fn default_file_name(stamp: u64) -> (name: String)
    ensures
        name@ == default_name(stamp),
{
    let mut name = String::from_str("utsushot_");
    push_decimal(&mut name, stamp);
    name.append(".png");
    name
}

} // verus!

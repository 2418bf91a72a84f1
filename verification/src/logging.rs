//! How much of the log is shown.

use vstd::prelude::*;

verus! {

/// The least severe kind of message that still reaches the log.
#[derive(Debug, Clone, Copy, PartialEq, Eq, Structural)]
pub enum LogLevel {
    /// Warnings and errors.
    Warn,
    /// Progress as well.
    Info,
    /// Details for finding faults as well.
    Debug,
    /// Everything.
    Trace,
}

/// The level of the log for a verbosity: warnings at 0, and one level
/// more for each step up to everything at 3 and above.
pub fn level_for_verbosity(verbosity: u8) -> (level: LogLevel)
    ensures
        verbosity == 0 ==> level == LogLevel::Warn,
        verbosity == 1 ==> level == LogLevel::Info,
        verbosity == 2 ==> level == LogLevel::Debug,
        verbosity >= 3 ==> level == LogLevel::Trace,
{
    match verbosity {
        0 => LogLevel::Warn,
        1 => LogLevel::Info,
        2 => LogLevel::Debug,
        _ => LogLevel::Trace,
    }
}

} // verus!

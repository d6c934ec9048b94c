//! Process-wide logging configuration. The core owns no hidden global
//! state: this type is created once at startup and passed by reference
//! into whatever wants to gate its diagnostics; printing itself is I/O
//! and stays with the caller.

use vstd::prelude::*;

verus! {

/// The most verbose message level that passes the filter (error is 1,
/// trace is 5).
pub const LEVEL_TRACE: u8 = 5;

/// A console logging configuration: a severity threshold for messages.
#[derive(Clone, Copy, PartialEq, Eq, Structural, Debug)]
pub struct ConsoleLogger {
    /// Messages at this level or below (more severe) are enabled.
    pub max_level: u8,
}

impl ConsoleLogger {
    /// Whether a message of the given level should be written: exactly
    /// the levels at or below the configured threshold pass.
    pub fn enabled(&self, level: u8) -> (r: bool)
        ensures
            r == (level <= self.max_level),
    {
        level <= self.max_level
    }
}

/// Builds the process's logging configuration, accepting every level up
/// to trace. Initialization cannot fail here — there is no global to
/// contend for — so the result is always the configuration itself.
pub fn init_logger() -> (r: Result<ConsoleLogger, ()>)
    ensures
        r is Ok,
        r->Ok_0 == (ConsoleLogger { max_level: LEVEL_TRACE }),
{
    Ok(ConsoleLogger { max_level: LEVEL_TRACE })
}

} // verus!

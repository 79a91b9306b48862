//! How much the agent logs.

use vstd::prelude::*;

verus! {

/// The level below which the agent's log messages are dropped.
#[derive(Debug, Clone, Copy, PartialEq, Eq, Structural)]
pub enum LogLevel {
    Trace,
    Debug,
    Info,
    Warn,
    Error,
}

impl Default for LogLevel {
    /// Informational messages and above.
    fn default() -> (r: Self)
        ensures
            r == LogLevel::Info,
    {
        LogLevel::Info
    }
}

} // verus!

//! Severity levels and the logging threshold handed to the logging capability.
use vstd::prelude::*;

verus! {

/// A severity level, from the most important records to the most verbose.
/// As a threshold it is the least important level that is still emitted.
#[derive(Clone, Copy, Debug, PartialEq, Eq, Structural)]
pub enum LogThreshold {
    Error,
    Warn,
    Info,
    Debug,
    Trace,
}

impl LogThreshold {
    /// Verbosity rank: `Error` is 1, each following level one more.
    pub open spec fn rank(self) -> nat {
        match self {
            LogThreshold::Error => 1,
            LogThreshold::Warn => 2,
            LogThreshold::Info => 3,
            LogThreshold::Debug => 4,
            LogThreshold::Trace => 5,
        }
    }

    /// The lower-case name used in a diagnostic filter (`debug`).
    pub open spec fn spec_name(self) -> Seq<char> {
        match self {
            LogThreshold::Error => seq!['e', 'r', 'r', 'o', 'r'],
            LogThreshold::Warn => seq!['w', 'a', 'r', 'n'],
            LogThreshold::Info => seq!['i', 'n', 'f', 'o'],
            LogThreshold::Debug => seq!['d', 'e', 'b', 'u', 'g'],
            LogThreshold::Trace => seq!['t', 'r', 'a', 'c', 'e'],
        }
    }

    /// Whether a threshold of `self` lets a record of level `record` through.
    pub open spec fn spec_admits(self, record: LogThreshold) -> bool {
        record.rank() <= self.rank()
    }

    pub fn verbosity(&self) -> (r: u8)
        ensures
            r as nat == self.rank(),
    {
        match self {
            LogThreshold::Error => 1,
            LogThreshold::Warn => 2,
            LogThreshold::Info => 3,
            LogThreshold::Debug => 4,
            LogThreshold::Trace => 5,
        }
    }

    pub fn name(&self) -> (r: &'static str)
        ensures
            r@ == self.spec_name(),
    {
        proof {
            reveal_strlit("error");
            reveal_strlit("warn");
            reveal_strlit("info");
            reveal_strlit("debug");
            reveal_strlit("trace");
        }
        match self {
            LogThreshold::Error => "error",
            LogThreshold::Warn => "warn",
            LogThreshold::Info => "info",
            LogThreshold::Debug => "debug",
            LogThreshold::Trace => "trace",
        }
    }

    /// Records below the threshold are suppressed, those at or above it emitted.
    pub fn admits(&self, record: LogThreshold) -> (r: bool)
        ensures
            r == self.spec_admits(record),
    {
        record.verbosity() <= self.verbosity()
    }
}

/// The threshold the logging capability is built with.
pub open spec fn configured_threshold() -> LogThreshold {
    LogThreshold::Debug
}

/// The logging configurator: always `Debug`, so that the detail of the other
/// capabilities is visible. It reads nothing and changes nothing, so every
/// call gives the same value.
pub fn logging_threshold() -> (r: LogThreshold)
    ensures
        r == configured_threshold(),
{
    LogThreshold::Debug
}

} // verus!

//! Severity levels and their total order.

use vstd::prelude::*;

verus! {

/// The five severity levels, from most severe (`Error`) to least severe
/// (`Trace`). The order is total: it drives both filtering (a record is
/// discarded when its level is less severe than the configured threshold)
/// and stream selection (only `Error` is routed to the error stream).
#[derive(Clone, Copy, Debug, PartialEq, Eq, Structural)]
pub enum LogLevel {
    Error,
    Warn,
    Info,
    Debug,
    Trace,
}

/// The rank of a level in the severity order: a smaller rank is more severe.
pub open spec fn spec_severity(level: LogLevel) -> int {
    match level {
        LogLevel::Error => 1,
        LogLevel::Warn => 2,
        LogLevel::Info => 3,
        LogLevel::Debug => 4,
        LogLevel::Trace => 5,
    }
}

/// `a` is at least as severe as `b`.
pub open spec fn at_least_as_severe(a: LogLevel, b: LogLevel) -> bool {
    spec_severity(a) <= spec_severity(b)
}

/// The canonical name of a level, as it appears in an emitted record.
pub open spec fn spec_level_name(level: LogLevel) -> Seq<char> {
    match level {
        LogLevel::Error => "ERROR"@,
        LogLevel::Warn => "WARN"@,
        LogLevel::Info => "INFO"@,
        LogLevel::Debug => "DEBUG"@,
        LogLevel::Trace => "TRACE"@,
    }
}

impl LogLevel {
    /// The rank of this level in the severity order, executable form.
    pub fn severity(self) -> (r: u8)
        ensures
            r as int == spec_severity(self),
    {
        match self {
            LogLevel::Error => 1,
            LogLevel::Warn => 2,
            LogLevel::Info => 3,
            LogLevel::Debug => 4,
            LogLevel::Trace => 5,
        }
    }

    /// The canonical name of this level.
    pub fn name(self) -> (r: &'static str)
        ensures
            r@ == spec_level_name(self),
    {
        match self {
            LogLevel::Error => "ERROR",
            LogLevel::Warn => "WARN",
            LogLevel::Info => "INFO",
            LogLevel::Debug => "DEBUG",
            LogLevel::Trace => "TRACE",
        }
    }
}

} // verus!

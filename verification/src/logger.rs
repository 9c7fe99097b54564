//! The dispatcher: one sink per process, holding the severity threshold,
//! deciding which records to emit and on which stream.

use std::io::Write;
use vstd::prelude::*;
use vstd::string::*;
use crate::level::{at_least_as_severe, LogLevel};
use crate::record::{normalize, NomadLog};
use crate::render::{render_line, spec_line};

verus! {

/// The two output streams a record can be routed to.
#[derive(Clone, Copy, Debug, PartialEq, Eq, Structural)]
pub enum Stream {
    Stdout,
    Stderr,
}

/// The stream a record of the given level is routed to: error-severity
/// records go to the error stream, everything else to standard output.
pub open spec fn spec_route(level: LogLevel) -> Stream {
    if level == LogLevel::Error {
        Stream::Stderr
    } else {
        Stream::Stdout
    }
}

/// The sink: decides whether a record passes the configured threshold,
/// serializes it, and writes it to one of the two streams. The threshold
/// is fixed for the sink's lifetime.
pub struct NomadLogger {
    max_log_level: LogLevel,
}

impl NomadLogger {
    /// The configured threshold: the least severe level still admitted.
    pub closed spec fn spec_max_level(&self) -> LogLevel {
        self.max_log_level
    }

    /// A record is admitted exactly when its level is at least as severe
    /// as the threshold.
    pub open spec fn spec_enabled(&self, level: LogLevel) -> bool {
        at_least_as_severe(level, self.spec_max_level())
    }

    /// Replaces the threshold of a sink that is not yet installed.
    pub fn with_log_level(self, max_log_level: LogLevel) -> (r: Self)
        ensures
            r.spec_max_level() == max_log_level,
    {
        Self { max_log_level }
    }

    /// The configured threshold.
    pub fn max_level(&self) -> (r: LogLevel)
        ensures
            r == self.spec_max_level(),
    {
        self.max_log_level
    }

    /// Whether a record at `level` would be emitted by this sink.
    pub fn enabled(&self, level: LogLevel) -> (r: bool)
        ensures
            r == self.spec_enabled(level),
    {
        level.severity() <= self.max_log_level.severity()
    }

    /// The emission decision for a record: `None` exactly when the record's
    /// level does not pass the threshold; otherwise the serialized line and
    /// the stream it belongs on.
    pub fn dispatch(&self, record: &NomadLog) -> (r: Option<(Stream, String)>)
        ensures
            r is Some <==> self.spec_enabled(record.log_level),
            r matches Some(out) ==> out.0 == spec_route(record.log_level) && out.1@ == spec_line(
                *record,
            ),
    {
        if self.enabled(record.log_level) {
            let line: String = render_line(record);
            let stream: Stream = if record.log_level == LogLevel::Error {
                Stream::Stderr
            } else {
                Stream::Stdout
            };
            Some((stream, line))
        } else {
            None
        }
    }

    /// Emits a record: writes its serialized line to the stream its level
    /// routes to, or does nothing when the level does not pass the
    /// threshold.
    pub fn emit(&self, record: &NomadLog) {
        match self.dispatch(record) {
            Some(out) => {
                let (stream, line) = out;
                match stream {
                    Stream::Stdout => write_stdout_line(line.as_str()),
                    Stream::Stderr => write_stderr_line(line.as_str()),
                }
            },
            None => {},
        }
    }

    /// Normalizes a textual payload at `level` and emits the record.
    pub fn log(&self, level: LogLevel, payload: &str) {
        if self.enabled(level) {
            let record: NomadLog = normalize(level, payload);
            self.emit(&record);
        }
    }

    /// Logs a textual payload at the `Error` level.
    pub fn error(&self, payload: &str) {
        self.log(LogLevel::Error, payload);
    }

    /// Logs a textual payload at the `Warn` level.
    pub fn warn(&self, payload: &str) {
        self.log(LogLevel::Warn, payload);
    }

    /// Logs a textual payload at the `Info` level.
    pub fn info(&self, payload: &str) {
        self.log(LogLevel::Info, payload);
    }

    /// Logs a textual payload at the `Debug` level.
    pub fn debug(&self, payload: &str) {
        self.log(LogLevel::Debug, payload);
    }

    /// Logs a textual payload at the `Trace` level.
    pub fn trace(&self, payload: &str) {
        self.log(LogLevel::Trace, payload);
    }
}

impl Default for NomadLogger {
    /// A sink with the `Info` threshold.
    fn default() -> (r: Self)
        ensures
            r.spec_max_level() == LogLevel::Info,
    {
        Self { max_log_level: LogLevel::Info }
    }
}

/// Law: the enablement check is idempotent. With no intervening change to
/// the configuration, any two results of `enabled` for the same level are
/// equal, since each is pinned to the same function of sink and level.
pub proof fn lemma_enabled_idempotent(
    logger: NomadLogger,
    level: LogLevel,
    first: bool,
    second: bool,
)
    requires
        first == logger.spec_enabled(level),
        second == logger.spec_enabled(level),
    ensures
        first == second,
{
}

/// Relies on `writeln!` to `std::io::Stdout`: writes the line and a
/// trailing newline to standard output; a failed write aborts, as a fatal
/// environment condition.
#[verifier::external_body]
fn write_stdout_line(line: &str) {
    writeln!(std::io::stdout(), "{}", line).expect("failed to write log line");
}

/// Relies on `writeln!` to `std::io::Stderr`: writes the line and a
/// trailing newline to standard error; a failed write aborts, as a fatal
/// environment condition.
#[verifier::external_body]
fn write_stderr_line(line: &str) {
    writeln!(std::io::stderr(), "{}", line).expect("failed to write log line");
}

} // verus!

//! A structured-logging library: log payloads are normalized into JSON
//! records carrying a timestamp and a severity level, and routed to the
//! standard output stream or the standard error stream according to a
//! configured severity threshold.

pub mod clock;
pub mod install;
pub mod json;
pub mod level;
pub mod logger;
pub mod record;
pub mod render;

pub use install::install_step;
pub use install::InstallOutcome;
pub use level::LogLevel;
pub use logger::NomadLogger;
pub use logger::Stream;
pub use record::NomadLog;

//! Rules of logging that do not touch a file or a clock: which level a name
//! stands for, and what a log file is called.

use vstd::prelude::*;

use crate::text::same_text;

verus! {

/// How much is logged.
#[derive(Debug, Clone, Copy, PartialEq, Eq, Structural)]
pub enum LogLevel {
    /// Everything.
    Trace,
    /// Debugging output and above.
    Debug,
    /// Informational messages and above.
    Info,
    /// Warnings and errors.
    Warn,
    /// Errors only.
    Error,
}

/// The level that a name stands for. A name that stands for none means
/// `Info`.
pub open spec fn log_level_of(name: Seq<char>) -> LogLevel {
    if name == "trace"@ {
        LogLevel::Trace
    } else if name == "debug"@ {
        LogLevel::Debug
    } else if name == "info"@ {
        LogLevel::Info
    } else if name == "warn"@ {
        LogLevel::Warn
    } else if name == "error"@ {
        LogLevel::Error
    } else {
        LogLevel::Info
    }
}

/// Reads a log level by its name: `trace`, `debug`, `info`, `warn` or
/// `error`, in lower case. Any other name gives `Info`.
pub fn parse_log_level(name: &str) -> (level: LogLevel)
    ensures
        level == log_level_of(name@),
{
    if same_text(name, "trace") {
        LogLevel::Trace
    } else if same_text(name, "debug") {
        LogLevel::Debug
    } else if same_text(name, "info") {
        LogLevel::Info
    } else if same_text(name, "warn") {
        LogLevel::Warn
    } else if same_text(name, "error") {
        LogLevel::Error
    } else {
        LogLevel::Info
    }
}

/// The name of a log file: the prefix, an underscore, the time at which
/// logging started as the caller wrote it, and `.log`.
pub fn log_file_name(prefix: &str, timestamp: &str) -> (name: String)
    ensures
        name@ == prefix@ + "_"@ + timestamp@ + ".log"@,
{
    String::from_str(prefix).concat("_").concat(timestamp).concat(".log")
}

} // verus!

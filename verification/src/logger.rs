//! The decisions of logging: which sink a configuration asks for, and under
//! which priority a record goes to the system log.

use vstd::prelude::*;
use vstd::string::*;
use crate::config::LogOutput;

verus! {

/// The level of a log record, from the most to the least severe.
#[derive(Debug, Copy, Clone, Eq, PartialEq, Hash, Structural)]
pub enum Level {
    /// An error.
    Error,
    /// A warning.
    Warn,
    /// An information.
    Info,
    /// A debugging message.
    Debug,
    /// A trace message.
    Trace,
}

/// A priority of the system log.
#[derive(Debug, Copy, Clone, Eq, PartialEq, Hash, Structural)]
pub enum SyslogPriority {
    /// Error conditions.
    Error,
    /// Warning conditions.
    Warning,
    /// Informational messages.
    Info,
    /// Debug-level messages.
    Debug,
}

/// Where log records are written.
#[derive(Debug, Copy, Clone, Eq, PartialEq, Hash, Structural)]
pub enum Sink {
    /// The standard error output.
    Stderr,
    /// The system log.
    Syslog,
}

/// The priority of a record of this level in the system log; `None` for a
/// level that the system log does not take.
pub open spec fn spec_syslog_priority(level: Level) -> Option<SyslogPriority> {
    match level {
        Level::Error => Some(SyslogPriority::Error),
        Level::Warn => Some(SyslogPriority::Warning),
        Level::Info => Some(SyslogPriority::Info),
        Level::Debug => Some(SyslogPriority::Debug),
        Level::Trace => None,
    }
}

/// The sink of a log output; `None` where nothing is logged.
pub open spec fn spec_sink(output: LogOutput) -> Option<Sink> {
    match output {
        LogOutput::Silent => None,
        LogOutput::Stderr => Some(Sink::Stderr),
        LogOutput::Syslog => Some(Sink::Syslog),
    }
}

/// The name under which a level appears in a log line.
pub open spec fn spec_level_name(level: Level) -> Seq<char> {
    match level {
        Level::Error => "ERROR"@,
        Level::Warn => "WARN"@,
        Level::Info => "INFO"@,
        Level::Debug => "DEBUG"@,
        Level::Trace => "TRACE"@,
    }
}

/// A line of the standard error output: the time, the level's name and the
/// message, a space between them.
pub open spec fn spec_stderr_line(now: Seq<char>, level: Level, message: Seq<char>) -> Seq<char> {
    now + " "@ + spec_level_name(level) + " "@ + message
}

impl Level {
    /// The name under which the level appears in a log line.
    pub fn name(&self) -> (r: &'static str)
        ensures
            r@ == spec_level_name(*self),
    {
        match self {
            Level::Error => "ERROR",
            Level::Warn => "WARN",
            Level::Info => "INFO",
            Level::Debug => "DEBUG",
            Level::Trace => "TRACE",
        }
    }
}

/// Formats a log record for the standard error output; `now` is the time of
/// the record as it is to be shown.
pub fn stderr_line(now: &str, level: Level, message: &str) -> (r: String)
    ensures
        r@ == spec_stderr_line(now@, level, message@),
{
    String::from_str(now).concat(" ").concat(level.name()).concat(" ").concat(message)
}

/// The least severe level that the system log takes.
pub fn syslog_max_level() -> (r: Level)
    ensures
        r == Level::Debug,
{
    Level::Debug
}

/// The priority under which a record of this level goes to the system log,
/// or `None` where the record is dropped.
pub fn syslog_priority(level: Level) -> (r: Option<SyslogPriority>)
    ensures
        r == spec_syslog_priority(level),
{
    match level {
        Level::Error => Some(SyslogPriority::Error),
        Level::Warn => Some(SyslogPriority::Warning),
        Level::Info => Some(SyslogPriority::Info),
        Level::Debug => Some(SyslogPriority::Debug),
        Level::Trace => None,
    }
}

/// The sink to start for a log output, or `None` where logging stays off.
pub fn sink(output: LogOutput) -> (r: Option<Sink>)
    ensures
        r == spec_sink(output),
{
    match output {
        LogOutput::Stderr => Some(Sink::Stderr),
        LogOutput::Syslog => Some(Sink::Syslog),
        LogOutput::Silent => None,
    }
}

} // verus!

//! Structured-log configuration.
//!
//! The configuration is plain data: a time format, console and file
//! verbosity thresholds and formatting switches. Wiring it into live log
//! sinks is I/O and is left to the embedding application.

use vstd::prelude::*;
use vstd::string::StringExecFns;

verus! {

/// Verbosity threshold of a log sink.
#[derive(Debug, Clone, Copy, PartialEq, Eq, Structural)]
pub enum LogLevel {
    /// Everything, including the finest tracing.
    Trace,
    /// Debugging detail.
    Debug,
    /// Ordinary operation.
    Info,
    /// Warnings.
    Warn,
    /// Errors only.
    Error,
    /// Nothing.
    Off,
}

/// Log configuration: how log lines are rendered and which levels each sink
/// lets through.
#[derive(Debug, Clone)]
pub struct LogConfig {
    /// Time format string for log line timestamps.
    pub time_format: String,
    /// Whether the console sink uses ANSI colours.
    pub enable_ansi: bool,
    /// Whether log lines name the module that emitted them.
    pub show_target: bool,
    /// Whether log lines carry the emitting thread's identifier.
    pub show_thread_ids: bool,
    /// Whether the compact line format is used.
    pub compact_format: bool,
    /// Verbosity threshold of the console sink.
    pub console_level: LogLevel,
    /// Verbosity threshold of the file sinks.
    pub file_level: LogLevel,
}

impl Default for LogConfig {
    /// The default rendering: second-resolution timestamps, colours on,
    /// compact lines, both sinks at `Info`.
    fn default() -> (r: Self)
        ensures
            r.time_format@ == "%Y-%m-%d %H:%M:%S"@,
            r.enable_ansi,
            !r.show_target,
            !r.show_thread_ids,
            r.compact_format,
            r.console_level == LogLevel::Info,
            r.file_level == LogLevel::Info,
    {
        LogConfig {
            time_format: String::from_str("%Y-%m-%d %H:%M:%S"),
            enable_ansi: true,
            show_target: false,
            show_thread_ids: false,
            compact_format: true,
            console_level: LogLevel::Info,
            file_level: LogLevel::Info,
        }
    }
}

impl LogConfig {
    /// Starts from the default configuration.
    pub fn new() -> (r: Self)
        ensures
            r.time_format@ == "%Y-%m-%d %H:%M:%S"@,
            r.enable_ansi,
            !r.show_target,
            !r.show_thread_ids,
            r.compact_format,
            r.console_level == LogLevel::Info,
            r.file_level == LogLevel::Info,
    {
        LogConfig::default()
    }

    /// Replaces the time format.
    pub fn time_format(self, format: &str) -> (r: Self)
        ensures
            r.time_format@ == format@,
            r.enable_ansi == self.enable_ansi,
            r.show_target == self.show_target,
            r.show_thread_ids == self.show_thread_ids,
            r.compact_format == self.compact_format,
            r.console_level == self.console_level,
            r.file_level == self.file_level,
    {
        LogConfig { time_format: String::from_str(format), ..self }
    }

    /// Switches ANSI colours on the console sink.
    pub fn ansi(self, enable: bool) -> (r: Self)
        ensures
            r == (LogConfig { enable_ansi: enable, ..self }),
    {
        LogConfig { enable_ansi: enable, ..self }
    }

    /// Switches whether log lines name the emitting module.
    pub fn target(self, show: bool) -> (r: Self)
        ensures
            r == (LogConfig { show_target: show, ..self }),
    {
        LogConfig { show_target: show, ..self }
    }

    /// Switches whether log lines carry thread identifiers.
    pub fn thread_ids(self, show: bool) -> (r: Self)
        ensures
            r == (LogConfig { show_thread_ids: show, ..self }),
    {
        LogConfig { show_thread_ids: show, ..self }
    }

    /// Switches the compact line format.
    pub fn compact(self, enable: bool) -> (r: Self)
        ensures
            r == (LogConfig { compact_format: enable, ..self }),
    {
        LogConfig { compact_format: enable, ..self }
    }

    /// Replaces the console sink's verbosity threshold.
    pub fn console_level(self, level: LogLevel) -> (r: Self)
        ensures
            r == (LogConfig { console_level: level, ..self }),
    {
        LogConfig { console_level: level, ..self }
    }

    /// Replaces the file sinks' verbosity threshold.
    pub fn file_level(self, level: LogLevel) -> (r: Self)
        ensures
            r == (LogConfig { file_level: level, ..self }),
    {
        LogConfig { file_level: level, ..self }
    }
}

/// Where the log sinks of a service write: the directory (`logs`, or
/// `logs/` under the given path) and the daily-rolled info and error file
/// names, derived from the service name.
pub fn log_file_plan(service_name: &str, path: Option<&str>) -> (r: (String, String, String))
    ensures
        r.0@ == (match path {
            Some(p) => "logs/"@ + p@,
            None => "logs"@,
        }),
        r.1@ == service_name@ + "-info.log"@,
        r.2@ == service_name@ + "-error.log"@,
{
    let dir = match path {
        Some(p) => String::from_str("logs/").concat(p),
        None => String::from_str("logs"),
    };
    let info_name = String::from_str(service_name).concat("-info.log");
    let error_name = String::from_str(service_name).concat("-error.log");
    (dir, info_name, error_name)
}

} // verus!

//! Log levels and logger configuration. The file-writing logger itself is
//! application plumbing and lives outside this crate.
use vstd::prelude::*;

verus! {

/// Log levels for the application, most severe first.
#[derive(Debug, Clone, Copy, PartialEq, Eq, PartialOrd, Ord, Structural)]
pub enum LogLevel {
    Error,
    Warn,
    Info,
}

/// The tag of a log level.
pub open spec fn level_tag_spec(level: LogLevel) -> Seq<char> {
    match level {
        LogLevel::Error => "ERROR"@,
        LogLevel::Warn => "WARN"@,
        LogLevel::Info => "INFO"@,
    }
}

impl LogLevel {
    /// The tag this level is written with.
    pub fn as_str(&self) -> (r: &'static str)
        ensures
            r@ == level_tag_spec(*self),
    {
        match self {
            LogLevel::Error => "ERROR",
            LogLevel::Warn => "WARN",
            LogLevel::Info => "INFO",
        }
    }
}

/// Logger configuration: the file-size limit before rotation, how many
/// rotated files are kept, and the least level that is recorded.
pub struct LoggerConfig {
    pub max_file_size: u64,
    pub max_files: usize,
    pub min_level: LogLevel,
}

impl Default for LoggerConfig {
    /// The default configuration: ten-megabyte files, five kept, from the
    /// informational level up.
    fn default() -> (r: Self)
        ensures
            r.max_file_size == 10 * 1024 * 1024,
            r.max_files == 5,
            r.min_level == LogLevel::Info,
    {
        LoggerConfig { max_file_size: 10 * 1024 * 1024, max_files: 5, min_level: LogLevel::Info }
    }
}

} // verus!

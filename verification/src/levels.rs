use vstd::prelude::*;

verus! {

/// Severity of a log message. The variants run from most important
/// (`LogLevelError`) to most verbose (`LogLevelTrace`) in terms of
/// [`importance`]; the declaration keeps the historical order.
#[derive(Clone, Copy, Debug, PartialEq, Eq, Structural)]
pub enum LogLevel {
    LogLevelInfo,
    LogLevelWarning,
    LogLevelError,
    LogLevelDebug,
    LogLevelTrace,
}

/// Granularity of one rotation bucket: a calendar day or a single hour.
#[derive(Clone, Copy, Debug, PartialEq, Eq, Structural)]
pub enum LogFileSaveType {
    LogFileSaveTypeDays,
    LogFileSaveTypeHours,
}

/// Rank of a level: higher means more important, lower means more verbose.
pub open spec fn importance(level: LogLevel) -> nat {
    match level {
        LogLevel::LogLevelTrace => 0,
        LogLevel::LogLevelDebug => 1,
        LogLevel::LogLevelInfo => 2,
        LogLevel::LogLevelWarning => 3,
        LogLevel::LogLevelError => 4,
    }
}

/// A message of level `level` is emitted under minimum level `min` exactly
/// when it is at least as important as the minimum.
pub open spec fn level_passes(level: LogLevel, min: LogLevel) -> bool {
    importance(level) >= importance(min)
}

impl LogLevel {
    /// The tag that appears between brackets in a formatted log line.
    pub fn to_str(&self) -> (r: &'static str)
        ensures
            r@ == tag_of(*self),
    {
        match self {
            LogLevel::LogLevelInfo => "INFO",
            LogLevel::LogLevelWarning => "WARNING",
            LogLevel::LogLevelError => "ERROR",
            LogLevel::LogLevelDebug => "DEBUG",
            LogLevel::LogLevelTrace => "TRACE",
        }
    }

    /// The ANSI color escape used for this level on a console sink.
    pub fn color_code(&self) -> (r: &'static str)
        ensures
            r@ == color_of(*self),
    {
        match self {
            LogLevel::LogLevelInfo => "\x1b[32m",
            LogLevel::LogLevelWarning => "\x1b[33m",
            LogLevel::LogLevelError => "\x1b[31m",
            LogLevel::LogLevelDebug => "\x1b[36m",
            LogLevel::LogLevelTrace => "\x1b[34m",
        }
    }
}

/// The level tag, as a sequence of characters.
pub open spec fn tag_of(level: LogLevel) -> Seq<char> {
    match level {
        LogLevel::LogLevelInfo => "INFO"@,
        LogLevel::LogLevelWarning => "WARNING"@,
        LogLevel::LogLevelError => "ERROR"@,
        LogLevel::LogLevelDebug => "DEBUG"@,
        LogLevel::LogLevelTrace => "TRACE"@,
    }
}

/// The ANSI color escape of a level, as a sequence of characters.
pub open spec fn color_of(level: LogLevel) -> Seq<char> {
    match level {
        LogLevel::LogLevelInfo => "\x1b[32m"@,
        LogLevel::LogLevelWarning => "\x1b[33m"@,
        LogLevel::LogLevelError => "\x1b[31m"@,
        LogLevel::LogLevelDebug => "\x1b[36m"@,
        LogLevel::LogLevelTrace => "\x1b[34m"@,
    }
}

/// Decides whether a message of level `level` is emitted when the configured
/// minimum level is `min`.
pub fn should_emit(level: LogLevel, min: LogLevel) -> (r: bool)
    ensures
        r == level_passes(level, min),
{
    rank(level) >= rank(min)
}

/// Executable twin of [`importance`].
fn rank(level: LogLevel) -> (r: u8)
    ensures
        r as nat == importance(level),
{
    match level {
        LogLevel::LogLevelTrace => 0,
        LogLevel::LogLevelDebug => 1,
        LogLevel::LogLevelInfo => 2,
        LogLevel::LogLevelWarning => 3,
        LogLevel::LogLevelError => 4,
    }
}

/// True of the verbose levels, for which a caller location is resolved.
pub open spec fn is_verbose(level: LogLevel) -> bool {
    level is LogLevelDebug || level is LogLevelTrace
}

} // verus!

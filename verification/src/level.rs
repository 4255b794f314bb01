//! Severity levels and the minimum-level filter.

use vstd::prelude::*;

verus! {

/// The available verbosity levels of the logger, ordered from most to least
/// verbose: `Trace < Debug < Info < Warn < Error`.
#[derive(Clone, Copy, Debug, PartialEq, Eq, Structural)]
pub enum LogLevel {
    Trace,
    Debug,
    Info,
    Warn,
    Error,
}

/// The numeric rank of a level in the total severity order.
pub open spec fn severity(l: LogLevel) -> int {
    match l {
        LogLevel::Trace => 1,
        LogLevel::Debug => 2,
        LogLevel::Info => 3,
        LogLevel::Warn => 4,
        LogLevel::Error => 5,
    }
}

/// A record at severity `record` passes a filter whose minimum level is
/// `min` exactly when its severity is at or above the minimum.
pub open spec fn passes_spec(record: LogLevel, min: LogLevel) -> bool {
    severity(record) >= severity(min)
}

/// The text of the severity tag that appears in a formatted record.
pub open spec fn tag_spec(l: LogLevel) -> Seq<char> {
    match l {
        LogLevel::Trace => "TRACE"@,
        LogLevel::Debug => "DEBUG"@,
        LogLevel::Info => "INFO"@,
        LogLevel::Warn => "WARN"@,
        LogLevel::Error => "ERROR"@,
    }
}

impl LogLevel {
    /// The severity tag as it appears in a formatted record.
    pub fn tag(&self) -> (r: &'static str)
        ensures
            r@ == tag_spec(*self),
    {
        match self {
            LogLevel::Trace => "TRACE",
            LogLevel::Debug => "DEBUG",
            LogLevel::Info => "INFO",
            LogLevel::Warn => "WARN",
            LogLevel::Error => "ERROR",
        }
    }

    /// The rank of this level in the severity order.
    pub fn severity_rank(&self) -> (n: u16)
        ensures
            n as int == severity(*self),
    {
        match self {
            LogLevel::Trace => 1,
            LogLevel::Debug => 2,
            LogLevel::Info => 3,
            LogLevel::Warn => 4,
            LogLevel::Error => 5,
        }
    }

    /// Whether a record at this severity passes a filter with minimum
    /// level `min`.
    pub fn passes(&self, min: LogLevel) -> (b: bool)
        ensures
            b == passes_spec(*self, min),
    {
        self.severity_rank() >= min.severity_rank()
    }
}

} // verus!

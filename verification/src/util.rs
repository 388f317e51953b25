//! The log bridge: which records are let through, and what a line looks like.
//!
//! Every record that passes the level filter is written once as one line,
//! and the same line goes to every sink.

use vstd::prelude::*;
use vstd::string::StringExecFns;

verus! {

/// How grave a log record is; `Error` is the gravest.
#[derive(Clone, Copy, Debug, PartialEq, Eq, Structural)]
pub enum Level {
    Error,
    Warn,
    Info,
    Debug,
    Trace,
}

/// The least grave level that is let through; `Off` lets nothing through.
#[derive(Clone, Copy, Debug, PartialEq, Eq, Structural)]
pub enum LevelFilter {
    Off,
    Error,
    Warn,
    Info,
    Debug,
    Trace,
}

impl Level {
    /// Rank of the level: 1 for `Error` up to 5 for `Trace`.
    pub open spec fn rank(self) -> int {
        match self {
            Level::Error => 1,
            Level::Warn => 2,
            Level::Info => 3,
            Level::Debug => 4,
            Level::Trace => 5,
        }
    }

    /// The name of the level as it stands in a line.
    pub open spec fn name(self) -> Seq<char> {
        match self {
            Level::Error => "ERROR"@,
            Level::Warn => "WARN"@,
            Level::Info => "INFO"@,
            Level::Debug => "DEBUG"@,
            Level::Trace => "TRACE"@,
        }
    }

    /// The name of the level as it stands in a line.
    pub fn as_str(&self) -> (text: &'static str)
        ensures
            text@ == self.name(),
    {
        match self {
            Level::Error => "ERROR",
            Level::Warn => "WARN",
            Level::Info => "INFO",
            Level::Debug => "DEBUG",
            Level::Trace => "TRACE",
        }
    }
}

impl LevelFilter {
    /// Rank of the filter: 0 for `Off`, then the rank of the level of the same name.
    pub open spec fn rank(self) -> int {
        match self {
            LevelFilter::Off => 0,
            LevelFilter::Error => 1,
            LevelFilter::Warn => 2,
            LevelFilter::Info => 3,
            LevelFilter::Debug => 4,
            LevelFilter::Trace => 5,
        }
    }
}

fn level_rank(level: Level) -> (r: u8)
    ensures
        r == level.rank(),
{
    match level {
        Level::Error => 1,
        Level::Warn => 2,
        Level::Info => 3,
        Level::Debug => 4,
        Level::Trace => 5,
    }
}

fn filter_rank(filter: LevelFilter) -> (r: u8)
    ensures
        r == filter.rank(),
{
    match filter {
        LevelFilter::Off => 0,
        LevelFilter::Error => 1,
        LevelFilter::Warn => 2,
        LevelFilter::Info => 3,
        LevelFilter::Debug => 4,
        LevelFilter::Trace => 5,
    }
}

/// The line for a record: `[LEVEL] target: message`.
pub open spec fn log_line(level: Level, target: Seq<char>, message: Seq<char>) -> Seq<char> {
    "["@ + level.name() + "] "@ + target + ": "@ + message
}

/// A logger that writes every record to all of its sinks.
#[derive(Clone, Copy, Debug, PartialEq, Eq, Structural)]
pub struct MultiLogger;

impl MultiLogger {
    /// Whether a record of the given level passes the filter: its level is
    /// at least as grave as the filter asks.
    pub fn enabled(&self, level: Level, max_level: LevelFilter) -> (r: bool)
        ensures
            r == (level.rank() <= max_level.rank()),
    {
        level_rank(level) <= filter_rank(max_level)
    }

    /// Formats a record once, for all sinks. Returns `None` for a record
    /// that does not pass the filter.
    pub fn log(&self, level: Level, max_level: LevelFilter, target: &str, message: &str) -> (line:
        Option<String>)
        ensures
            line is Some == (level.rank() <= max_level.rank()),
            line matches Some(text) ==> text@ == log_line(level, target@, message@),
    {
        if !self.enabled(level, max_level) {
            return None;
        }
        let mut buf = String::from_str("[");
        buf.append(level.as_str());
        buf.append("] ");
        buf.append(target);
        buf.append(": ");
        buf.append(message);
        Some(buf)
    }
}

} // verus!

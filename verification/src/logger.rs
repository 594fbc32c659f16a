//! The kernel's log filter: a severity threshold and the test a record's
//! level is held to. Rendering a record to the console is the caller's.

use vstd::prelude::*;

verus! {

/// Log severities, most severe first.
#[derive(Debug, Clone, Copy, PartialEq, Eq, Structural)]
pub enum Level {
    Error,
    Warn,
    Info,
    Debug,
    Trace,
}

impl Level {
    /// Rank of a severity: lower is more severe.
    pub open spec fn spec_rank(&self) -> u8 {
        match self {
            Level::Error => 1,
            Level::Warn => 2,
            Level::Info => 3,
            Level::Debug => 4,
            Level::Trace => 5,
        }
    }

    /// Rank of a severity: lower is more severe.
    pub fn rank(&self) -> (r: u8)
        ensures
            r == self.spec_rank(),
    {
        match self {
            Level::Error => 1,
            Level::Warn => 2,
            Level::Info => 3,
            Level::Debug => 4,
            Level::Trace => 5,
        }
    }
}

/// The log filter: records at the held level or more severe pass.
#[derive(Debug, Clone, Copy)]
pub struct Logger {
    pub log_level: Level,
}

impl Logger {
    pub fn new(log_level: Level) -> (r: Logger)
        ensures
            r.log_level == log_level,
    {
        Logger { log_level }
    }

    /// Whether a record at `level` passes the filter.
    pub fn enabled(&self, level: Level) -> (r: bool)
        ensures
            r == (level.spec_rank() <= self.log_level.spec_rank()),
    {
        level.rank() <= self.log_level.rank()
    }
}

} // verus!

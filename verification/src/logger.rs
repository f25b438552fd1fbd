//! The state of the in-application log panel: a severity filter and a
//! capacity-bounded buffer of formatted lines.
//!
//! Formatting a log record and the locking that shares the buffer
//! between threads are plumbing around this state and live with the
//! application; this module holds the decisions: which severities pass
//! the filter and how the buffer evicts old lines.

use vstd::prelude::*;

verus! {

/// Lines kept in the log buffer before the oldest is evicted.
pub const LOG_CAPACITY: usize = 500;

/// A severity filter: every level at or below the filter is kept.
#[derive(Debug, Clone, Copy, PartialEq, Eq, Structural)]
pub enum LevelFilter {
    Off,
    Error,
    Warn,
    Info,
    Debug,
    Trace,
}

impl LevelFilter {
    /// The verbosity rank of the filter: higher keeps more.
    pub open spec fn spec_rank(self) -> u8 {
        match self {
            LevelFilter::Off => 0,
            LevelFilter::Error => 1,
            LevelFilter::Warn => 2,
            LevelFilter::Info => 3,
            LevelFilter::Debug => 4,
            LevelFilter::Trace => 5,
        }
    }

    /// The verbosity rank of the filter: higher keeps more.
    pub fn rank(&self) -> (r: u8)
        ensures
            r == self.spec_rank(),
    {
        match self {
            LevelFilter::Off => 0,
            LevelFilter::Error => 1,
            LevelFilter::Warn => 2,
            LevelFilter::Info => 3,
            LevelFilter::Debug => 4,
            LevelFilter::Trace => 5,
        }
    }
}

/// The log panel state: the active filter, the buffered lines, and
/// whether the buffer changed since it was last drawn.
#[derive(Debug)]
pub struct Logger {
    pub level: LevelFilter,
    pub lines: Vec<String>,
    pub updated: bool,
}

impl Logger {
    /// A fresh logger: warnings and worse, no lines, nothing to draw.
    pub fn new() -> (r: Logger)
        ensures
            r.level == LevelFilter::Warn,
            r.lines@.len() == 0,
            r.updated == false,
    {
        Logger { level: LevelFilter::Warn, lines: Vec::new(), updated: false }
    }

    /// Set the severity filter.
    pub fn filter(&mut self, filter: LevelFilter)
        ensures
            final(self).level == filter,
            final(self).lines == old(self).lines,
            final(self).updated == old(self).updated,
    {
        self.level = filter;
    }

    /// Whether the buffer changed since it was last drawn.
    pub fn updated(&self) -> (r: bool)
        ensures
            r == self.updated,
    {
        self.updated
    }

    /// Record whether the buffer still needs drawing.
    pub fn set_updated(&mut self, state: bool)
        ensures
            final(self).updated == state,
            final(self).level == old(self).level,
            final(self).lines == old(self).lines,
    {
        self.updated = state;
    }

    /// Whether a message of the given severity passes the filter.
    pub fn enabled(&self, level: LevelFilter) -> (r: bool)
        ensures
            r == (level.spec_rank() <= self.level.spec_rank()),
    {
        level.rank() <= self.level.rank()
    }

    /// Append a formatted line; when the buffer already runs over its
    /// capacity, the oldest line is evicted first. The buffer is then
    /// marked as needing a draw.
    pub fn push_line(&mut self, line: String)
        ensures
            final(self).level == old(self).level,
            final(self).updated == true,
            old(self).lines@.len() > LOG_CAPACITY ==> final(self).lines@ == old(
                self,
            ).lines@.drop_first().push(line),
            old(self).lines@.len() <= LOG_CAPACITY ==> final(self).lines@ == old(
                self,
            ).lines@.push(line),
    {
        if self.lines.len() > LOG_CAPACITY {
            self.lines.remove(0);
            proof {
                assert(self.lines@ =~= old(self).lines@.drop_first());
            }
        }
        self.lines.push(line);
        self.updated = true;
    }
}

} // verus!

//! Severity levels and the threshold they are held against.

use vstd::prelude::*;

verus! {

/// The severity of a record, from the most severe (`Error`) to the least (`Trace`).
#[derive(Clone, Copy, Debug, PartialEq, Eq, Structural, Hash)]
pub enum Level {
    Error,
    Warn,
    Info,
    Debug,
    Trace,
}

/// A threshold on severities: `Off` lets nothing pass, every other value lets
/// its own level and all more severe ones pass.
#[derive(Clone, Copy, Debug, PartialEq, Eq, Structural, Hash)]
pub enum LevelFilter {
    Off,
    Error,
    Warn,
    Info,
    Debug,
    Trace,
}

impl Level {
    /// The position of the level in the order of severities: 1 for `Error`,
    /// the most severe, up to 5 for `Trace`.
    pub open spec fn rank(self) -> int {
        match self {
            Level::Error => 1,
            Level::Warn => 2,
            Level::Info => 3,
            Level::Debug => 4,
            Level::Trace => 5,
        }
    }

    /// The threshold that lets exactly this level and the more severe ones pass.
    pub open spec fn filter(self) -> LevelFilter {
        match self {
            Level::Error => LevelFilter::Error,
            Level::Warn => LevelFilter::Warn,
            Level::Info => LevelFilter::Info,
            Level::Debug => LevelFilter::Debug,
            Level::Trace => LevelFilter::Trace,
        }
    }

    /// Whether a record of this level passes the threshold `max_level`.
    pub open spec fn passes(self, max_level: LevelFilter) -> bool {
        self.rank() <= max_level.rank()
    }

    /// Whether this level is at least as severe as `other`.
    pub open spec fn at_least_as_severe_as(self, other: Level) -> bool {
        self.rank() <= other.rank()
    }

    /// The rank as a machine integer.
    pub fn severity(&self) -> (n: u8)
        ensures
            n == self.rank(),
    {
        match self {
            Level::Error => 1,
            Level::Warn => 2,
            Level::Info => 3,
            Level::Debug => 4,
            Level::Trace => 5,
        }
    }

    /// Converts the level to the threshold of the same name.
    pub fn to_level_filter(&self) -> (filter: LevelFilter)
        ensures
            filter == self.filter(),
    {
        match self {
            Level::Error => LevelFilter::Error,
            Level::Warn => LevelFilter::Warn,
            Level::Info => LevelFilter::Info,
            Level::Debug => LevelFilter::Debug,
            Level::Trace => LevelFilter::Trace,
        }
    }
}

impl LevelFilter {
    /// The rank of the least severe level that passes, 0 for `Off`.
    pub open spec fn rank(self) -> int {
        match self {
            LevelFilter::Off => 0,
            LevelFilter::Error => 1,
            LevelFilter::Warn => 2,
            LevelFilter::Info => 3,
            LevelFilter::Debug => 4,
            LevelFilter::Trace => 5,
        }
    }

    /// The rank as a machine integer.
    pub fn severity(&self) -> (n: u8)
        ensures
            n == self.rank(),
    {
        match self {
            LevelFilter::Off => 0,
            LevelFilter::Error => 1,
            LevelFilter::Warn => 2,
            LevelFilter::Info => 3,
            LevelFilter::Debug => 4,
            LevelFilter::Trace => 5,
        }
    }

    /// Decides whether a record of severity `level` passes this threshold.
    pub fn allows(&self, level: Level) -> (passes: bool)
        ensures
            passes == level.passes(*self),
    {
        level.severity() <= self.severity()
    }
}

/// A level and the threshold made from it have the same rank, so the
/// threshold lets pass exactly the levels that are at least as severe.
pub proof fn lemma_filter_keeps_rank(threshold: Level, level: Level)
    ensures
        threshold.filter().rank() == threshold.rank(),
        threshold.filter() != LevelFilter::Off,
        level.passes(threshold.filter()) <==> level.at_least_as_severe_as(threshold),
{
}

/// The order of severities is total: of two levels one is at least as severe
/// as the other, and two levels of equal rank are the same level.
pub proof fn lemma_severity_is_total(a: Level, b: Level)
    ensures
        a.at_least_as_severe_as(b) || b.at_least_as_severe_as(a),
        a.rank() == b.rank() ==> a == b,
{
}

} // verus!

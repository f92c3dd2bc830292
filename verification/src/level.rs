//! Event severities and per-node verbosity caps.

use vstd::prelude::*;

verus! {

/// Importance of a single log event.
///
/// Severity grows from `Trace` (diagnostic chatter) to `Error` (failures).
#[derive(Clone, Copy, Debug, PartialEq, Eq, Structural, Hash)]
pub enum Level {
    Trace,
    Debug,
    Info,
    Warn,
    Error,
}

/// Verbosity cap configured on a dispatch node or override entry.
///
/// `Off` admits no event at all; `Trace` admits every event.  A cap admits an
/// event exactly when the event's severity reaches the cap's floor, so e.g.
/// `Info` admits `Info`, `Warn` and `Error` events.
#[derive(Clone, Copy, Debug, PartialEq, Eq, Structural, Hash)]
pub enum LevelFilter {
    Off,
    Error,
    Warn,
    Info,
    Debug,
    Trace,
}

/// Rank of a severity on the shared verbosity scale: `Error` is 1, `Trace` is 5.
pub open spec fn level_rank(l: Level) -> int {
    match l {
        Level::Error => 1,
        Level::Warn => 2,
        Level::Info => 3,
        Level::Debug => 4,
        Level::Trace => 5,
    }
}

/// Rank of a verbosity cap on the same scale; `Off` sits below every severity.
pub open spec fn filter_rank(f: LevelFilter) -> int {
    match f {
        LevelFilter::Off => 0,
        LevelFilter::Error => 1,
        LevelFilter::Warn => 2,
        LevelFilter::Info => 3,
        LevelFilter::Debug => 4,
        LevelFilter::Trace => 5,
    }
}

/// A cap admits exactly the events whose rank does not exceed its own, so a
/// more severe event passes every cap a less severe one passes.
pub open spec fn admits(f: LevelFilter, l: Level) -> bool {
    level_rank(l) <= filter_rank(f)
}

impl Level {
    /// Position of this severity on the verbosity scale.
    pub fn rank(&self) -> (r: u8)
        ensures
            r as int == level_rank(*self),
    {
        match self {
            Level::Error => 1,
            Level::Warn => 2,
            Level::Info => 3,
            Level::Debug => 4,
            Level::Trace => 5,
        }
    }

    /// Upper-case display name of this severity.
    pub fn label(&self) -> (r: &'static str)
        ensures
            r@ == level_label(*self),
    {
        match self {
            Level::Error => "ERROR",
            Level::Warn => "WARN",
            Level::Info => "INFO",
            Level::Debug => "DEBUG",
            Level::Trace => "TRACE",
        }
    }
}

/// The display name `Level::label` returns for each severity.
pub open spec fn level_label(l: Level) -> Seq<char> {
    match l {
        Level::Error => "ERROR"@,
        Level::Warn => "WARN"@,
        Level::Info => "INFO"@,
        Level::Debug => "DEBUG"@,
        Level::Trace => "TRACE"@,
    }
}

impl LevelFilter {
    /// Position of this cap on the verbosity scale.
    pub fn rank(&self) -> (r: u8)
        ensures
            r as int == filter_rank(*self),
    {
        match self {
            LevelFilter::Off => 0,
            LevelFilter::Error => 1,
            LevelFilter::Warn => 2,
            LevelFilter::Info => 3,
            LevelFilter::Debug => 4,
            LevelFilter::Trace => 5,
        }
    }

    /// Whether this cap lets an event of severity `l` through.
    pub fn admits_level(&self, l: Level) -> (r: bool)
        ensures
            r == admits(*self, l),
    {
        l.rank() <= self.rank()
    }

    /// The more verbose of two caps.
    pub fn max_verbosity(self, other: LevelFilter) -> (r: LevelFilter)
        ensures
            r == spec_max_verbosity(self, other),
    {
        if self.rank() >= other.rank() {
            self
        } else {
            other
        }
    }

    /// The less verbose of two caps.
    pub fn min_verbosity(self, other: LevelFilter) -> (r: LevelFilter)
        ensures
            r == spec_min_verbosity(self, other),
    {
        if self.rank() <= other.rank() {
            self
        } else {
            other
        }
    }
}

/// The more verbose of two caps.
pub open spec fn spec_max_verbosity(a: LevelFilter, b: LevelFilter) -> LevelFilter {
    if filter_rank(a) >= filter_rank(b) {
        a
    } else {
        b
    }
}

/// The less verbose of two caps.
pub open spec fn spec_min_verbosity(a: LevelFilter, b: LevelFilter) -> LevelFilter {
    if filter_rank(a) <= filter_rank(b) {
        a
    } else {
        b
    }
}

/// Widening a cap only ever admits more events, never fewer.
pub proof fn lemma_admits_monotone(f: LevelFilter, g: LevelFilter, l: Level)
    requires
        filter_rank(f) <= filter_rank(g),
        admits(f, l),
    ensures
        admits(g, l),
{
}

/// `Off` admits no event whatsoever.
pub proof fn lemma_off_admits_nothing(l: Level)
    ensures
        !admits(LevelFilter::Off, l),
{
}

} // verus!

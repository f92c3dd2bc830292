//! Ready-made format stages and filters.

use vstd::prelude::*;
use vstd::string::StringExecFns;
use crate::api::Filter;
use crate::api::FormatCallback;
use crate::api::Formatted;
use crate::api::Formatter;
use crate::level::admits;
use crate::level::level_label;
use crate::level::Level;
use crate::level::LevelFilter;
use crate::record::Record;
use crate::record::RecordView;

verus! {

/// A format stage that tags each message with its severity:
/// `[LEVEL] message`.
pub struct WithLevelTag;

impl Formatter for WithLevelTag {
    open spec fn formatted(&self, message: Seq<char>, record: RecordView) -> Option<Seq<char>> {
        Some("["@ + level_label(record.level) + "] "@ + message)
    }

    fn format(&self, out: FormatCallback, message: &str, record: &Record) -> (r: Option<
        Formatted,
    >) {
        let mut s = "[".to_owned();
        s.append(record.level.label());
        s.append("] ");
        s.append(message);
        Some(out.finish(s))
    }
}

/// A format stage that never completes its callback: every message is
/// forwarded unchanged, by the format-stage fallback.
pub struct PassThrough;

impl Formatter for PassThrough {
    open spec fn formatted(&self, message: Seq<char>, record: RecordView) -> Option<Seq<char>> {
        None
    }

    fn format(&self, out: FormatCallback, message: &str, record: &Record) -> (r: Option<
        Formatted,
    >) {
        None
    }
}

/// A whole-message formatter for the plain logger layer that tags each
/// message with its severity: `[LEVEL] message`.
pub struct TagMessage;

impl crate::api::MessageFormatter for TagMessage {
    open spec fn formatted_msg(
        &self,
        msg: Seq<char>,
        level: Level,
        location: crate::api::LocationView,
    ) -> Seq<char> {
        "["@ + level_label(level) + "] "@ + msg
    }

    fn format_message(&self, msg: &str, level: Level, location: &crate::api::Location) -> (r:
        String) {
        let mut s = "[".to_owned();
        s.append(level.label());
        s.append("] ");
        s.append(msg);
        s
    }
}

/// A filter that admits events at or above a severity floor.
pub struct MinimumLevel {
    /// The cap whose floor applies.
    pub floor: LevelFilter,
}

impl Filter for MinimumLevel {
    open spec fn allows(&self, level: Level, target: Seq<char>) -> bool {
        admits(self.floor, level)
    }

    fn check(&self, level: Level, target: &str) -> (r: bool) {
        self.floor.admits_level(level)
    }
}

/// A filter that rejects exactly one severity.
pub struct RejectLevel {
    /// The severity to reject.
    pub refused: Level,
}

impl Filter for RejectLevel {
    open spec fn allows(&self, level: Level, target: Seq<char>) -> bool {
        level != self.refused
    }

    fn check(&self, level: Level, target: &str) -> (r: bool) {
        level != self.refused
    }
}

} // verus!

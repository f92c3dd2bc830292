//! The immutable log event handed through a dispatch tree.

use vstd::prelude::*;
use crate::level::Level;

verus! {

/// One log event: a severity, the hierarchical target path it was emitted
/// under, the message text, and optional source-location metadata.
///
/// A record is created at the log call site and is read-only thereafter; the
/// dispatch tree never stores one.
pub struct Record {
    /// Severity of the event.
    pub level: Level,
    /// Hierarchical module path the event belongs to, e.g. `app::net::http`.
    pub target: String,
    /// The message text.
    pub message: String,
    /// Module path of the call site, when known.
    pub module: Option<String>,
    /// Source file of the call site, when known.
    pub file: Option<String>,
    /// Source line of the call site, when known.
    pub line: Option<u32>,
}

/// Mathematical image of a [`Record`].
pub struct RecordView {
    pub level: Level,
    pub target: Seq<char>,
    pub message: Seq<char>,
    pub module: Option<Seq<char>>,
    pub file: Option<Seq<char>>,
    pub line: Option<u32>,
}

impl View for Record {
    type V = RecordView;

    open spec fn view(&self) -> RecordView {
        RecordView {
            level: self.level,
            target: self.target@,
            message: self.message@,
            module: match self.module {
                Some(p) => Some(p@),
                None => None,
            },
            file: match self.file {
                Some(f) => Some(f@),
                None => None,
            },
            line: self.line,
        }
    }
}

impl Record {
    /// A record with the given severity, target and message and no
    /// source-location metadata.
    pub fn new(level: Level, target: String, message: String) -> (r: Record)
        ensures
            r@.level == level,
            r@.target == target@,
            r@.message == message@,
            r@.module is None,
            r@.file is None,
            r@.line is None,
    {
        Record { level, target, message, module: None, file: None, line: None }
    }

    /// The same event with its message replaced; everything else is kept.
    pub fn with_message(&self, message: String) -> (r: Record)
        ensures
            r@.level == self@.level,
            r@.target == self@.target,
            r@.message == message@,
            r@.module == self@.module,
            r@.file == self@.file,
            r@.line == self@.line,
    {
        Record {
            level: self.level,
            target: self.target.clone(),
            message,
            module: clone_opt_string(&self.module),
            file: clone_opt_string(&self.file),
            line: self.line,
        }
    }
}

impl Clone for Record {
    fn clone(&self) -> (r: Self)
        ensures
            r@ == self@,
    {
        Record {
            level: self.level,
            target: self.target.clone(),
            message: self.message.clone(),
            module: clone_opt_string(&self.module),
            file: clone_opt_string(&self.file),
            line: self.line,
        }
    }
}

fn clone_opt_string(s: &Option<String>) -> (r: Option<String>)
    ensures
        match (s, &r) {
            (Some(a), Some(b)) => a@ == b@,
            (None, None) => true,
            _ => false,
        },
{
    match s {
        Some(v) => Some(v.clone()),
        None => None,
    }
}

} // verus!

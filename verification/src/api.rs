//! The capability traits a dispatch tree is built from: sinks, filters and
//! formatters.

use vstd::prelude::*;
use crate::level::Level;
use crate::record::Record;
use crate::errors::LogError;

verus! {

/// The sink capability: anything that can accept a log event.
///
/// Dispatch nodes, the built-in writers and host-provided destinations all
/// implement this.  `enabled_spec` is the mathematical image of `enabled`;
/// an implementation must answer `enabled` exactly as its `enabled_spec`
/// says, so that a parent node can reason about which children would accept
/// an event.
pub trait Log: Send + Sync {
    /// Whether an event with this severity and target would produce output here.
    spec fn enabled_spec(&self, level: Level, target: Seq<char>) -> bool;

    /// Executable twin of [`Log::enabled_spec`].
    fn enabled(&self, level: Level, target: &str) -> (r: bool)
        ensures
            r == self.enabled_spec(level, target@),
    ;

    /// Accept one event.
    fn log(&self, record: &Record);

    /// Flush any buffered state.
    fn flush(&self);
}

/// A destination for already-formatted messages, used by the plain logger
/// layer.  Unlike [`Log`], errors propagate to the caller so that only the
/// outermost logger reports them.
pub trait Logger: Send + Sync {
    /// Log a formatted message with its severity and call-site location.
    fn log(&self, msg: &str, level: Level, location: &Location) -> Result<(), LogError>;
}

impl Logger for Box<dyn Logger> {
    fn log(&self, msg: &str, level: Level, location: &Location) -> Result<(), LogError> {
        (**self).log(msg, level, location)
    }
}

/// Call-site location carried alongside messages in the [`Logger`] layer.
pub struct Location {
    /// Module path of the call site.
    pub module: String,
    /// Source file of the call site.
    pub file: String,
    /// Source line of the call site.
    pub line: u32,
}

/// Mathematical image of a [`Location`].
pub struct LocationView {
    pub module: Seq<char>,
    pub file: Seq<char>,
    pub line: u32,
}

impl View for Location {
    type V = LocationView;

    open spec fn view(&self) -> LocationView {
        LocationView { module: self.module@, file: self.file@, line: self.line }
    }
}

/// A whole-message formatter for the [`Logger`] layer: it receives the
/// message, severity and location and returns the formatted line.
/// `formatted_msg` is the mathematical image of `format_message`.
pub trait MessageFormatter: Send + Sync {
    /// The line this formatter renders.
    spec fn formatted_msg(&self, msg: Seq<char>, level: Level, location: LocationView) -> Seq<
        char,
    >;

    /// Executable twin of [`MessageFormatter::formatted_msg`].
    fn format_message(&self, msg: &str, level: Level, location: &Location) -> (r: String)
        ensures
            r@ == self.formatted_msg(msg@, level, location@),
    ;
}

/// A predicate that can reject events passing through a dispatch node.
///
/// `allows` is the mathematical image of `check`; an implementation must
/// answer `check` exactly as its `allows` says.
pub trait Filter: Send + Sync {
    /// Which events this filter lets through.
    spec fn allows(&self, level: Level, target: Seq<char>) -> bool;

    /// Executable twin of [`Filter::allows`].
    fn check(&self, level: Level, target: &str) -> (r: bool)
        ensures
            r == self.allows(level, target@),
    ;
}

/// Proof that a formatter completed its callback: holds the substituted
/// message.  A value of this type can only be made through
/// [`FormatCallback::finish`].
pub struct Formatted {
    message: String,
}

impl View for Formatted {
    type V = Seq<char>;

    closed spec fn view(&self) -> Seq<char> {
        self.message@
    }
}

impl Formatted {
    /// The substituted message.
    pub fn into_message(self) -> (r: String)
        ensures
            r@ == self@,
    {
        self.message
    }
}

/// Completion callback handed to a formatter.
///
/// The callback is consumed by [`FormatCallback::finish`], so a formatter can
/// substitute a message at most once; a formatter that returns `None` without
/// calling `finish` leaves the original message in place.
pub struct FormatCallback {
    _private: (),
}

impl FormatCallback {
    /// A callback for one invocation of a format stage.
    pub(crate) fn fresh() -> FormatCallback {
        FormatCallback { _private: () }
    }

    /// Substitute `message` for the event's message, for every downstream sink.
    pub fn finish(self, message: String) -> (r: Formatted)
        ensures
            r@ == message@,
    {
        Formatted { message }
    }
}

/// A message-rewriting stage configured on a dispatch node.
///
/// The stage receives the completion callback, the current message (which may
/// already have been rewritten by an enclosing node) and the original record.
/// It may call [`FormatCallback::finish`] at most once; returning `None`
/// forwards the current message unchanged.  `formatted` is the mathematical
/// image of `format`: `None` stands for a declined callback.
pub trait Formatter: Send + Sync {
    /// Which message, if any, this formatter substitutes.
    spec fn formatted(&self, message: Seq<char>, record: crate::record::RecordView) -> Option<
        Seq<char>,
    >;

    /// Executable twin of [`Formatter::formatted`].
    fn format(&self, out: FormatCallback, message: &str, record: &Record) -> (r: Option<Formatted>)
        ensures
            match r {
                Some(f) => self.formatted(message@, record@) == Some(f@),
                None => self.formatted(message@, record@) is None,
            },
    ;
}

} // verus!

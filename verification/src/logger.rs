//! Convenience sink constructors, the custom-separator capability, and the
//! bookkeeping for date-based log files.

use std::fmt::Write;

use vstd::prelude::*;
use vstd::string::StringExecFns;
use crate::log_impl::str_eq;
use crate::log_impl::Sender;
use crate::log_impl::Stderr;
use crate::log_impl::Stdout;
use crate::log_impl::Writer;
use crate::stream::ByteSink;

verus! {

/// Choice of a custom terminator after each message.
///
/// `sep_replaced` says what replacing the separator means for each sink
/// kind: the terminator becomes the given one and everything else — in
/// particular the destination — is kept.
pub trait CustomLineSep: Sized {
    /// `after` is `before` with its terminator replaced by `sep`.
    spec fn sep_replaced(before: Self, after: Self, sep: Seq<char>) -> bool;

    /// Replace the line separator.
    fn line_sep(self, line_sep: &str) -> (r: Self)
        ensures
            Self::sep_replaced(self, r, line_sep@),
    ;
}

impl Writer {
    /// A writer sink over exactly the given byte destination, terminating
    /// each message with a newline.
    pub fn new(stream: Box<dyn ByteSink>) -> (r: Writer)
        ensures
            r == (Writer { stream, line_sep: r.line_sep }),
            r.line_sep@ == "\n"@,
    {
        Writer { stream, line_sep: "\n".to_owned() }
    }
}

impl CustomLineSep for Writer {
    open spec fn sep_replaced(before: Writer, after: Writer, sep: Seq<char>) -> bool {
        &&& after == (Writer { stream: before.stream, line_sep: after.line_sep })
        &&& after.line_sep@ == sep
    }

    fn line_sep(self, line_sep: &str) -> Writer {
        Writer { stream: self.stream, line_sep: line_sep.to_owned() }
    }
}

impl CustomLineSep for Stdout {
    open spec fn sep_replaced(before: Stdout, after: Stdout, sep: Seq<char>) -> bool {
        after.line_sep@ == sep
    }

    fn line_sep(self, line_sep: &str) -> Stdout {
        Stdout { line_sep: line_sep.to_owned() }
    }
}

impl CustomLineSep for Stderr {
    open spec fn sep_replaced(before: Stderr, after: Stderr, sep: Seq<char>) -> bool {
        after.line_sep@ == sep
    }

    fn line_sep(self, line_sep: &str) -> Stderr {
        Stderr { line_sep: line_sep.to_owned() }
    }
}

/// A standard-output sink terminating each message with a newline.
pub fn stdout() -> (r: Stdout)
    ensures
        r.line_sep@ == "\n"@,
{
    Stdout { line_sep: "\n".to_owned() }
}

/// A standard-error sink terminating each message with a newline.
pub fn stderr() -> (r: Stderr)
    ensures
        r.line_sep@ == "\n"@,
{
    Stderr { line_sep: "\n".to_owned() }
}

/// A writer sink over exactly the given byte destination.
pub fn writer(stream: Box<dyn ByteSink>) -> (r: Writer)
    ensures
        r == (Writer { stream, line_sep: r.line_sep }),
        r.line_sep@ == "\n"@,
{
    Writer { stream, line_sep: "\n".to_owned() }
}

/// A channel sink that sends each message exactly as it arrives over
/// exactly the given channel, with no terminator appended.
pub fn sender(chan: std::sync::mpsc::Sender<String>) -> (r: Sender)
    ensures
        r.stream.origin() == chan,
        r.line_sep@.len() == 0,
{
    Sender { stream: crate::stream::LockedSender::new(chan), line_sep: String::new() }
}

// ---------------------------------------------------------------------------
// Date-based log files
// ---------------------------------------------------------------------------
//
// A date-based file sink derives its file name from the current time.  The
// library owns the bookkeeping: the configuration, the state of the
// currently open file, and the rotation decision on every write attempt.
// What only the environment can provide — the current time rendered through
// the suffix pattern, and the opened file handles — is supplied by the host
// program, which drives the decision function below.

/// Configuration surface for a date-based log file.
pub struct DateBased {
    /// Path prefix of the log files; the rendered suffix is appended to it
    /// without any separator.
    pub file_prefix: String,
    /// Time pattern that renders to the current suffix.
    pub file_suffix: String,
    /// Terminator appended after each message.
    pub line_sep: String,
    /// Whether the suffix is rendered from universal rather than local time.
    pub utc_time: bool,
}

impl DateBased {
    /// A date-based file configuration with the given prefix and suffix
    /// pattern, a newline separator, and local time.
    pub fn new(file_prefix: &str, file_suffix: &str) -> (r: DateBased)
        ensures
            r.file_prefix@ == file_prefix@,
            r.file_suffix@ == file_suffix@,
            r.line_sep@ == "\n"@,
            !r.utc_time,
    {
        DateBased {
            file_prefix: file_prefix.to_owned(),
            file_suffix: file_suffix.to_owned(),
            line_sep: "\n".to_owned(),
            utc_time: false,
        }
    }

    /// Change the terminator appended after each message.
    pub fn line_sep(self, line_sep: &str) -> (r: DateBased)
        ensures
            r.file_prefix@ == self.file_prefix@,
            r.file_suffix@ == self.file_suffix@,
            r.line_sep@ == line_sep@,
            r.utc_time == self.utc_time,
    {
        DateBased {
            file_prefix: self.file_prefix,
            file_suffix: self.file_suffix,
            line_sep: line_sep.to_owned(),
            utc_time: self.utc_time,
        }
    }

    /// Render the suffix from universal time.
    pub fn utc_time(self) -> (r: DateBased)
        ensures
            r.file_prefix@ == self.file_prefix@,
            r.file_suffix@ == self.file_suffix@,
            r.line_sep@ == self.line_sep@,
            r.utc_time,
    {
        DateBased {
            file_prefix: self.file_prefix,
            file_suffix: self.file_suffix,
            line_sep: self.line_sep,
            utc_time: true,
        }
    }

    /// Render the suffix from local time; this is the default.
    pub fn local_time(self) -> (r: DateBased)
        ensures
            r.file_prefix@ == self.file_prefix@,
            r.file_suffix@ == self.file_suffix@,
            r.line_sep@ == self.line_sep@,
            !r.utc_time,
    {
        DateBased {
            file_prefix: self.file_prefix,
            file_suffix: self.file_suffix,
            line_sep: self.line_sep,
            utc_time: false,
        }
    }
}

/// Which clock a date-based file renders its suffix from.
#[derive(Clone, Copy, Debug, PartialEq, Eq, Structural)]
pub enum ConfiguredTimezone {
    Local,
    Utc,
}

/// The immutable part of a date-based file sink.
pub struct DateBasedConfig {
    /// Terminator appended after each message.
    pub line_sep: String,
    /// Path prefix of the log files.
    pub file_prefix: String,
    /// Time pattern that renders to the current suffix.
    pub file_suffix: String,
    /// Which clock renders the suffix.
    pub timezone: ConfiguredTimezone,
}

/// The mutable part of a date-based file sink: which suffix is open, if any.
///
/// Its states: no file (`file_open` false), or a file open under
/// `current_suffix`.  A failed open leaves `file_open` false, which is
/// recovered by the next successful open, not terminal.
pub struct DateBasedState {
    /// Suffix of the most recently targeted file.
    pub current_suffix: String,
    /// Whether a file for `current_suffix` is currently open and writable.
    pub file_open: bool,
}

impl DateBasedState {
    /// Fresh state for a sink whose initial open attempt produced `file_open`.
    pub fn new(current_suffix: String, file_open: bool) -> (r: DateBasedState)
        ensures
            r.current_suffix@ == current_suffix@,
            r.file_open == file_open,
    {
        DateBasedState { current_suffix, file_open }
    }

    /// Transition to a new suffix: the old handle (if any) is given up and
    /// the state records whether the new file could be opened.
    pub fn replace_file(&mut self, new_suffix: String, file_open: bool)
        ensures
            final(self).current_suffix@ == new_suffix@,
            final(self).file_open == file_open,
    {
        self.current_suffix = new_suffix;
        self.file_open = file_open;
    }
}

/// What a date-based sink must do before writing, given the freshly rendered
/// suffix.
pub enum RotationAction {
    /// The open file still matches: append to it.
    Keep,
    /// Open (create or append) the file at this path, then write to it.
    OpenNew(String),
}

impl DateBasedConfig {
    /// Assemble the immutable configuration of a date-based file sink.
    pub fn new(
        line_sep: String,
        file_prefix: String,
        file_suffix: String,
        timezone: ConfiguredTimezone,
    ) -> (r: DateBasedConfig)
        ensures
            r.line_sep@ == line_sep@,
            r.file_prefix@ == file_prefix@,
            r.file_suffix@ == file_suffix@,
            r.timezone == timezone,
    {
        DateBasedConfig { line_sep, file_prefix, file_suffix, timezone }
    }

    /// The full path of the file for a rendered suffix: the prefix followed
    /// by the suffix, with no separator in between.
    pub fn compute_file_path(&self, suffix: &str) -> (r: String)
        ensures
            r@ == self.file_prefix@ + suffix@,
    {
        let mut path = self.file_prefix.clone();
        path.append(suffix);
        path
    }

    /// The suffix for the present moment, rendered through the configured
    /// pattern from the configured clock.
    pub fn compute_current_suffix(&self) -> String {
        match self.timezone {
            ConfiguredTimezone::Utc => utc_time_suffix(self.file_suffix.as_str()),
            ConfiguredTimezone::Local => local_time_suffix(self.file_suffix.as_str()),
        }
    }

    /// The rotation rule, decided on every write attempt: keep writing
    /// exactly when a file is open and its suffix equals the freshly
    /// rendered one; in every other case the file at the newly computed
    /// path must be opened first.
    pub fn rotation_decision(&self, state: &DateBasedState, new_suffix: &str) -> (r: RotationAction)
        ensures
            (state.file_open && state.current_suffix@ == new_suffix@) <==> r is Keep,
            r matches RotationAction::OpenNew(p) ==> p@ == self.file_prefix@ + new_suffix@,
    {
        if state.file_open && str_eq(state.current_suffix.as_str(), new_suffix) {
            RotationAction::Keep
        } else {
            RotationAction::OpenNew(self.compute_file_path(new_suffix))
        }
    }

    /// The payload for one message: the message followed by the line
    /// separator.
    pub fn compose_payload(&self, message: &str) -> (r: String)
        ensures
            r@ == message@ + self.line_sep@,
    {
        crate::errors::concat_strs(message, self.line_sep.as_str())
    }
}

/// Relies on `chrono::Local::now` and chrono's formatter: the present local
/// time rendered through the strftime pattern.  The result depends on the
/// clock and environment, so nothing is promised of it; a pattern the
/// formatter rejects renders to the pattern itself rather than stopping the
/// process.
#[verifier::external_body]
fn local_time_suffix(pattern: &str) -> (r: String) {
    let mut out = String::new();
    match write!(out, "{}", chrono::Local::now().format(pattern)) {
        Ok(_) => out,
        Err(_) => pattern.to_string(),
    }
}

/// Relies on `chrono::Utc::now` and chrono's formatter: the present
/// universal time rendered through the strftime pattern.  The result depends
/// on the clock, so nothing is promised of it; a pattern the formatter
/// rejects renders to the pattern itself rather than stopping the process.
#[verifier::external_body]
fn utc_time_suffix(pattern: &str) -> (r: String) {
    let mut out = String::new();
    match write!(out, "{}", chrono::Utc::now().format(pattern)) {
        Ok(_) => out,
        Err(_) => pattern.to_string(),
    }
}

} // verus!

//! The plain logger layer: destinations that take already-formatted
//! messages and report failures upward, so only the outermost logger prints
//! them.

use vstd::prelude::*;
use crate::api::Location;
use crate::api::Log;
use crate::api::Logger;
use crate::api::MessageFormatter;
use crate::config::OutputConfig;
use crate::errors::InitError;
use crate::errors::LogError;
use crate::level::admits;
use crate::level::Level;
use crate::level::LevelFilter;
use crate::record::Record;
use crate::stream::ByteSink;

verus! {

/// Routes one formatted message to several child loggers, gated by a
/// severity cap; the first child error stops the fan-out and propagates.
pub struct DispatchLogger {
    /// The child loggers, in attachment order.
    pub output: Vec<Box<dyn Logger>>,
    /// Messages below this cap are dropped silently.
    pub level: LevelFilter,
    /// Renders each message before the fan-out.
    pub format: Box<dyn MessageFormatter>,
}

impl DispatchLogger {
    /// Build a dispatch logger from a format stage, child output
    /// configurations, and a severity cap: one child logger per
    /// configuration, in order, with exactly the given cap and format stage.
    pub fn new(
        format: Box<dyn MessageFormatter>,
        config_output: Vec<OutputConfig>,
        level: LevelFilter,
    ) -> (r: Result<DispatchLogger, InitError>)
        ensures
            r matches Ok(dl) && dl.output@.len() == config_output@.len() && dl
                == (DispatchLogger { output: dl.output, level, format }),
    {
        let output = crate::config::convert_outputs(config_output);
        Ok(DispatchLogger { output, level, format })
    }

    /// Infallible core of [`DispatchLogger::new`]: none of the built-in
    /// output configurations can fail to build.
    pub fn assemble(
        format: Box<dyn MessageFormatter>,
        config_output: Vec<OutputConfig>,
        level: LevelFilter,
    ) -> (r: DispatchLogger)
        ensures
            r.output@.len() == config_output@.len(),
            r == (DispatchLogger { output: r.output, level, format }),
    {
        let output = crate::config::convert_outputs(config_output);
        DispatchLogger { output, level, format }
    }

    /// Gate by the cap, render the message once, then hand it to every
    /// child in order; a message below the cap always succeeds without
    /// reaching any child.
    pub fn dispatch(&self, msg: &str, level: Level, location: &Location) -> (r: Result<
        (),
        LogError,
    >)
        ensures
            !admits(self.level, level) ==> r is Ok,
    {
        if !self.level.admits_level(level) {
            return Ok(());
        }
        let formatted = self.format.format_message(msg, level, location);
        let mut i: usize = 0;
        while i < self.output.len()
            invariant
                i <= self.output@.len(),
                admits(self.level, level),
            decreases self.output@.len() - i,
        {
            match Logger::log(&self.output[i], formatted.as_str(), level, location) {
                Ok(_) => {},
                Err(e) => {
                    return Err(e);
                },
            }
            i = i + 1;
        }
        Ok(())
    }
}

impl Logger for DispatchLogger {
    fn log(&self, msg: &str, level: Level, location: &Location) -> Result<(), LogError> {
        self.dispatch(msg, level, location)
    }
}

impl Log for DispatchLogger {
    open spec fn enabled_spec(&self, level: Level, target: Seq<char>) -> bool {
        admits(self.level, level)
    }

    fn enabled(&self, level: Level, target: &str) -> bool {
        self.level.admits_level(level)
    }

    fn log(&self, record: &Record) {
        if self.level.admits_level(record.level) {
            log_with_fern_logger(self, record);
        }
    }

    fn flush(&self) {
    }
}

/// Writes each formatted message plus separator to a byte destination.
pub struct WriterLogger {
    /// Where the bytes go.
    pub stream: Box<dyn ByteSink>,
    /// Terminator appended after each message.
    pub line_sep: String,
}

impl WriterLogger {
    /// A writer logger over exactly the given destination, with the given
    /// separator.
    pub fn new(writer: Box<dyn ByteSink>, line_sep: &str) -> (r: WriterLogger)
        ensures
            r == (WriterLogger { stream: writer, line_sep: r.line_sep }),
            r.line_sep@ == line_sep@,
    {
        WriterLogger { stream: writer, line_sep: line_sep.to_owned() }
    }

    /// Standard output with a newline separator.
    pub fn with_stdout() -> (r: WriterLogger)
        ensures
            r.stream.kind() == crate::stream::SinkKind::ProcessOut,
            r.line_sep@ == "\n"@,
    {
        WriterLogger { stream: Box::new(crate::stream::StdoutSink), line_sep: "\n".to_owned() }
    }

    /// Standard error with a newline separator.
    pub fn with_stderr() -> (r: WriterLogger)
        ensures
            r.stream.kind() == crate::stream::SinkKind::ProcessErr,
            r.line_sep@ == "\n"@,
    {
        WriterLogger { stream: Box::new(crate::stream::StderrSink), line_sep: "\n".to_owned() }
    }
}

impl Logger for WriterLogger {
    fn log(&self, msg: &str, level: Level, location: &Location) -> Result<(), LogError> {
        let payload = crate::errors::concat_strs(msg, self.line_sep.as_str());
        match self.stream.write_str(payload.as_str()) {
            Ok(_) => Ok(()),
            Err(e) => Err(LogError::Io(e)),
        }
    }
}

impl Log for WriterLogger {
    open spec fn enabled_spec(&self, level: Level, target: Seq<char>) -> bool {
        true
    }

    fn enabled(&self, level: Level, target: &str) -> bool {
        true
    }

    fn log(&self, record: &Record) {
        log_with_fern_logger(self, record);
    }

    fn flush(&self) {
        match self.stream.flush_sink() {
            _ => {},
        }
    }
}

/// A logger that accepts and discards every message.
#[derive(Clone, Copy)]
pub struct NullLogger;

impl Logger for NullLogger {
    fn log(&self, msg: &str, level: Level, location: &Location) -> Result<(), LogError> {
        Ok(())
    }
}

impl Log for NullLogger {
    open spec fn enabled_spec(&self, level: Level, target: Seq<char>) -> bool {
        false
    }

    fn enabled(&self, level: Level, target: &str) -> bool {
        false
    }

    fn log(&self, record: &Record) {
    }

    fn flush(&self) {
    }
}

impl Log for Box<dyn Logger> {
    open spec fn enabled_spec(&self, level: Level, target: Seq<char>) -> bool {
        true
    }

    fn enabled(&self, level: Level, target: &str) -> bool {
        true
    }

    fn log(&self, record: &Record) {
        log_with_fern_logger(self, record);
    }

    fn flush(&self) {
    }
}

/// Bridge one event into a [`Logger`]: the call-site location is taken from
/// the record, and a child error is redirected to the diagnostic fallback
/// path rather than raised to the caller.
pub fn log_with_fern_logger<T: Logger>(logger: &T, record: &Record) {
    let location = location_of(record);
    match logger.log(record.message.as_str(), record.level, &location) {
        Ok(_) => {},
        Err(e) => crate::log_impl::fallback_on_error(record, &e),
    }
}

/// The call-site location carried by a record, with empty defaults where the
/// record has none.
fn location_of(record: &Record) -> (r: Location)
    ensures
        match record.module {
            Some(m) => r@.module == m@,
            None => r@.module.len() == 0,
        },
        match record.file {
            Some(f) => r@.file == f@,
            None => r@.file.len() == 0,
        },
        match record.line {
            Some(l) => r@.line == l,
            None => r@.line == 0,
        },
{
    Location {
        module: match &record.module {
            Some(m) => m.clone(),
            None => String::new(),
        },
        file: match &record.file {
            Some(f) => f.clone(),
            None => String::new(),
        },
        line: match record.line {
            Some(l) => l,
            None => 0,
        },
    }
}

} // verus!

//! Configuration surface of the plain logger layer.

use vstd::prelude::*;
use crate::api::Log;
use crate::api::Logger;
use crate::api::MessageFormatter;
use crate::errors::InitError;
use crate::level::LevelFilter;
use crate::loggers::DispatchLogger;
use crate::loggers::NullLogger;
use crate::loggers::WriterLogger;

verus! {

/// The base configuration of the plain logger layer: a format stage, a
/// severity cap, and the outputs messages are fanned out to.
pub struct DispatchConfig {
    /// Renders every message before it reaches the outputs.
    pub format: Box<dyn MessageFormatter>,
    /// The outputs, in attachment order.
    pub output: Vec<OutputConfig>,
    /// Messages below this cap are dropped.
    pub level: LevelFilter,
}

/// The kinds of output a [`DispatchConfig`] can send messages to.
pub enum OutputConfigOptions {
    /// Another dispatch layer, already built.
    Child(DispatchLogger),
    /// Standard output.
    Stdout,
    /// Standard error.
    Stderr,
    /// Discard everything.
    Null,
    /// A host-provided logger.
    Custom(Box<dyn Logger>),
}

/// Configuration for one output destination.
pub struct OutputConfig(pub OutputConfigOptions);

impl OutputConfig {
    /// A child dispatch layer; it is built at attachment time from exactly
    /// the given configuration: same cap, same format stage, one child
    /// logger per configured output.
    pub fn child(config: DispatchConfig) -> (r: OutputConfig)
        ensures
            r.0 matches OutputConfigOptions::Child(l) && l.output@.len() == config.output@.len()
                && l == (DispatchLogger {
                output: l.output,
                level: config.level,
                format: config.format,
            }),
    {
        OutputConfig(OutputConfigOptions::Child(config.build()))
    }

    /// Standard output.
    pub fn stdout() -> (r: OutputConfig)
        ensures
            r.0 is Stdout,
    {
        OutputConfig(OutputConfigOptions::Stdout)
    }

    /// Standard error.
    pub fn stderr() -> (r: OutputConfig)
        ensures
            r.0 is Stderr,
    {
        OutputConfig(OutputConfigOptions::Stderr)
    }

    /// A destination that discards every message.
    pub fn null() -> (r: OutputConfig)
        ensures
            r.0 is Null,
    {
        OutputConfig(OutputConfigOptions::Null)
    }

    /// A host-provided logger: the result wraps exactly the given one.
    pub fn custom(log: Box<dyn Logger>) -> (r: OutputConfig)
        ensures
            r.0 == OutputConfigOptions::Custom(log),
    {
        OutputConfig(OutputConfigOptions::Custom(log))
    }
}

/// Appending an element grows a sequence by one; stated as a lemma so it
/// can be instantiated explicitly at boxed element types.
proof fn lemma_push_len<T>(s: Seq<T>, x: T)
    ensures
        s.push(x).len() == s.len() + 1,
{
}

/// Build every output configuration into its logger, in order: one child
/// logger per configuration, and none of the built-in kinds can fail.
pub(crate) fn convert_outputs(config_output: Vec<OutputConfig>) -> (r: Vec<Box<dyn Logger>>)
    ensures
        r@.len() == config_output@.len(),
{
    let ghost total = config_output@.len();
    let mut output: Vec<Box<dyn Logger>> = Vec::new();
    let mut rest = config_output;
    while rest.len() > 0
        invariant
            output@.len() + rest@.len() == total,
        decreases rest@.len(),
    {
        let ghost before = output@;
        let OutputConfig(inner) = rest.remove(0);
        let child: Box<dyn Logger> = match inner {
            OutputConfigOptions::Child(l) => Box::new(l),
            OutputConfigOptions::Stdout => Box::new(WriterLogger::with_stdout()),
            OutputConfigOptions::Stderr => Box::new(WriterLogger::with_stderr()),
            OutputConfigOptions::Null => Box::new(NullLogger),
            OutputConfigOptions::Custom(l) => l,
        };
        let ghost gchild = child;
        output.push(child);
        proof {
            lemma_push_len(before, gchild);
        }
    }
    output
}

impl DispatchConfig {
    /// Build this configuration into its dispatch logger: one child logger
    /// per configured output, in order, with exactly this cap and format
    /// stage.
    pub fn build(self) -> (r: DispatchLogger)
        ensures
            r.output@.len() == self.output@.len(),
            r == (DispatchLogger { output: r.output, level: self.level, format: self.format }),
    {
        let DispatchConfig { format, output: configured, level } = self;
        let output = convert_outputs(configured);
        DispatchLogger { output, level, format }
    }
}

/// A logger configuration that can be built into a [`Logger`] or a [`Log`].
pub trait IntoLog: Sized {
    /// Build into a logger that propagates errors to its caller.
    fn into_fern_logger(self) -> Result<Box<dyn Logger>, InitError>;

    /// Build into a sink usable in a dispatch tree or behind a logging
    /// facade.
    fn into_log(self) -> Result<Box<dyn Log>, InitError>;
}

impl OutputConfig {
    /// Build this configuration into its logger; none of the built-in kinds
    /// can fail.  A custom configuration yields exactly the logger it wraps.
    pub fn build_fern_logger(self) -> Box<dyn Logger> {
        match self.0 {
            OutputConfigOptions::Child(l) => Box::new(l),
            OutputConfigOptions::Stdout => Box::new(WriterLogger::with_stdout()),
            OutputConfigOptions::Stderr => Box::new(WriterLogger::with_stderr()),
            OutputConfigOptions::Null => Box::new(NullLogger),
            OutputConfigOptions::Custom(l) => l,
        }
    }
}

impl IntoLog for OutputConfig {
    fn into_fern_logger(self) -> (r: Result<Box<dyn Logger>, InitError>)
        ensures
            r is Ok,
    {
        Ok(self.build_fern_logger())
    }

    fn into_log(self) -> (r: Result<Box<dyn Log>, InitError>)
        ensures
            r is Ok,
    {
        match self.0 {
            OutputConfigOptions::Child(l) => Ok(Box::new(l)),
            OutputConfigOptions::Stdout => Ok(Box::new(WriterLogger::with_stdout())),
            OutputConfigOptions::Stderr => Ok(Box::new(WriterLogger::with_stderr())),
            OutputConfigOptions::Null => Ok(Box::new(NullLogger)),
            OutputConfigOptions::Custom(l) => Ok(Box::new(l)),
        }
    }
}

impl IntoLog for DispatchConfig {
    fn into_fern_logger(self) -> (r: Result<Box<dyn Logger>, InitError>)
        ensures
            r is Ok,
    {
        Ok(Box::new(self.build()))
    }

    fn into_log(self) -> (r: Result<Box<dyn Log>, InitError>)
        ensures
            r is Ok,
    {
        Ok(Box::new(self.build()))
    }
}

} // verus!

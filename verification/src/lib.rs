//! A runtime-configurable log-routing library.
//!
//! A tree of dispatch nodes decides, per event and per destination, whether a
//! log event is emitted, how its message is formatted, and to which sinks it
//! is forwarded.  Trees are assembled with the [`Dispatch`] builder and
//! compiled into an immutable routing structure.

pub mod api;
pub mod config;
pub mod dispatch;
pub mod errors;
pub mod formatter;
pub mod level;
pub mod log_impl;
pub mod logger;
pub mod loggers;
pub mod record;
pub mod stream;
pub mod syslog;

pub use api::Filter;
pub use api::FormatCallback;
pub use api::Formatted;
pub use api::Formatter;
pub use api::Location;
pub use api::Log;
pub use api::Logger;
pub use api::MessageFormatter;
pub use dispatch::Dispatch;
pub use dispatch::Output;
pub use dispatch::SharedDispatch;
pub use errors::InitError;
pub use errors::LogError;
pub use level::Level;
pub use level::LevelFilter;
pub use log_impl::Null;
pub use log_impl::Panic;
pub use logger::DateBased;
pub use record::Record;

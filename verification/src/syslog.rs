//! The unix system log as a sink.
//!
//! Severities translate trace and debug to the transport's debug call, info
//! to info, warn to warning, and error to err; that translation is decided
//! here, while the transport itself is the `syslog` crate's.

use vstd::prelude::*;
use vstd::rwlock::RwLock;
use vstd::rwlock::RwLockPredicate;
use crate::api::Log;
use crate::errors::LogError;
use crate::level::Level;
use crate::record::Record;

verus! {

/// A connected syslog transport with the RFC 3164 message format.
///
/// The `syslog` crate's transport type is held opaquely: its name collides
/// with this library's own items, so it cannot be declared directly.
#[verifier::external_body]
pub struct SyslogHandle {
    transport: syslog::Logger<syslog::LoggerBackend, syslog::Formatter3164>,
}

/// Relies on `syslog::unix` and `syslog::Formatter3164`: connects to the
/// local system log as a user-level process with the given name and id,
/// reporting the connection error as text.
#[verifier::external_body]
pub fn syslog3_unix(process: &str, pid: u32) -> (r: Result<SyslogHandle, String>) {
    let formatter = syslog::Formatter3164 {
        facility: syslog::Facility::LOG_USER,
        hostname: None,
        process: process.to_string(),
        pid,
    };
    syslog::unix(formatter).map(|t| SyslogHandle { transport: t }).map_err(|e| e.to_string())
}

/// Relies on `syslog::Logger::err`: sends one message at error severity,
/// reporting the transport's error as text.
#[verifier::external_body]
fn syslog_err(handle: &mut SyslogHandle, msg: &str) -> (r: Result<(), String>) {
    handle.transport.err(msg.to_string()).map_err(|e| e.to_string())
}

/// Relies on `syslog::Logger::warning`: sends one message at warning
/// severity, reporting the transport's error as text.
#[verifier::external_body]
fn syslog_warning(handle: &mut SyslogHandle, msg: &str) -> (r: Result<(), String>) {
    handle.transport.warning(msg.to_string()).map_err(|e| e.to_string())
}

/// Relies on `syslog::Logger::info`: sends one message at informational
/// severity, reporting the transport's error as text.
#[verifier::external_body]
fn syslog_info(handle: &mut SyslogHandle, msg: &str) -> (r: Result<(), String>) {
    handle.transport.info(msg.to_string()).map_err(|e| e.to_string())
}

/// Relies on `syslog::Logger::debug`: sends one message at debug severity,
/// reporting the transport's error as text.
#[verifier::external_body]
fn syslog_debug(handle: &mut SyslogHandle, msg: &str) -> (r: Result<(), String>) {
    handle.transport.debug(msg.to_string()).map_err(|e| e.to_string())
}

/// Lock predicate for the transport: any connection state is fine.
pub struct AnyTransport;

impl RwLockPredicate<SyslogHandle> for AnyTransport {
    open spec fn inv(self, v: SyslogHandle) -> bool {
        true
    }
}

/// A syslog sink: every event is forwarded to the system log at the
/// translated severity, behind a lock scoped to one message.
pub struct Syslog3 {
    inner: RwLock<SyslogHandle, AnyTransport>,
}

/// Wrap a connected syslog transport as a sink for a dispatch tree.
pub fn syslog3(handle: SyslogHandle) -> Syslog3 {
    Syslog3 { inner: RwLock::new(handle, Ghost(AnyTransport)) }
}

impl Syslog3 {
    /// Send one message at the translated severity: trace and debug go out
    /// as debug, info as info, warn as warning, and error as err.
    fn send(&self, level: Level, msg: &str) -> Result<(), String> {
        let (mut handle, lock) = self.inner.acquire_write();
        let sent = match level {
            Level::Error => syslog_err(&mut handle, msg),
            Level::Warn => syslog_warning(&mut handle, msg),
            Level::Info => syslog_info(&mut handle, msg),
            Level::Debug => syslog_debug(&mut handle, msg),
            Level::Trace => syslog_debug(&mut handle, msg),
        };
        lock.release_write(handle);
        sent
    }
}

impl Log for Syslog3 {
    open spec fn enabled_spec(&self, level: Level, target: Seq<char>) -> bool {
        true
    }

    fn enabled(&self, level: Level, target: &str) -> bool {
        true
    }

    fn log(&self, record: &Record) {
        match self.send(record.level, record.message.as_str()) {
            Ok(_) => {},
            Err(e) => crate::log_impl::fallback_on_error(record, &LogError::Send(e)),
        }
    }

    fn flush(&self) {
    }
}

} // verus!

//! Byte destinations for the writer sinks: the process streams, an in-memory
//! shared buffer, a deliberately failing handle, and the capability trait a
//! host program implements to supply its own destination.

use vstd::prelude::*;
use vstd::rwlock::RwLock;
use vstd::rwlock::RwLockPredicate;
use vstd::string::StringExecFns;

verus! {

/// Which destination a byte sink is, at the specification level, so a
/// contract can say where a built-in sink writes.
pub enum SinkKind {
    /// The process's standard output stream.
    ProcessOut,
    /// The process's standard error stream.
    ProcessErr,
    /// An in-memory shared buffer.
    Memory,
    /// A handle that rejects every write.
    Failing,
    /// A destination the host program supplied.
    Host,
}

/// An append-only byte destination.
///
/// `write_str` appends the full string or reports an error text; `flush_sink`
/// pushes buffered bytes onward.  Implementations guard their handle with a
/// lock scoped to the single call, so one compiled tree can be used from
/// several threads.
pub trait ByteSink: Send + Sync {
    /// Which destination this is; host-provided destinations leave the
    /// default in place.
    open spec fn kind(&self) -> SinkKind {
        SinkKind::Host
    }

    /// Append `s` to the destination.
    fn write_str(&self, s: &str) -> Result<(), String>;

    /// Flush buffered state.
    fn flush_sink(&self) -> Result<(), String>;
}

/// A destination that rejects every write, standing in for a handle that was
/// closed or never valid.  Useful to exercise the failure fallback path.
pub struct FailingSink;

impl ByteSink for FailingSink {
    open spec fn kind(&self) -> SinkKind {
        SinkKind::Failing
    }

    fn write_str(&self, s: &str) -> Result<(), String> {
        Err("invalid handle".to_owned())
    }

    fn flush_sink(&self) -> Result<(), String> {
        Err("invalid handle".to_owned())
    }
}

/// Lock predicate for [`SharedBuffer`]: any contents are fine.
pub struct AnyString;

impl RwLockPredicate<String> for AnyString {
    open spec fn inv(self, v: String) -> bool {
        true
    }
}

/// A shared in-memory byte destination.
///
/// All handles obtained through [`SharedBuffer::handle`] append to the same
/// underlying string, behind a lock held only for the one write, and
/// [`SharedBuffer::snapshot`] reads the accumulated contents back.
pub struct SharedBuffer {
    buf: std::sync::Arc<RwLock<String, AnyString>>,
}

/// Relies on `Arc::clone`: the returned value is another handle to the same
/// shared allocation, so as a value it equals the input.
#[verifier::external_body]
pub(crate) fn arc_clone<T>(v: &std::sync::Arc<T>) -> (res: std::sync::Arc<T>)
    ensures
        res == *v,
{
    std::sync::Arc::clone(v)
}

impl SharedBuffer {
    /// A fresh, empty buffer.
    pub fn new() -> SharedBuffer {
        SharedBuffer {
            buf: std::sync::Arc::new(
                RwLock::<String, AnyString>::new(String::new(), Ghost(AnyString)),
            ),
        }
    }

    /// Another handle appending to the same contents.
    pub fn handle(&self) -> SharedBuffer {
        SharedBuffer { buf: arc_clone(&self.buf) }
    }

    /// The contents accumulated so far.
    pub fn snapshot(&self) -> String {
        let read = self.buf.acquire_read();
        let contents = read.borrow().clone();
        read.release_read();
        contents
    }
}

impl ByteSink for SharedBuffer {
    open spec fn kind(&self) -> SinkKind {
        SinkKind::Memory
    }

    fn write_str(&self, s: &str) -> Result<(), String> {
        let (mut contents, handle) = self.buf.acquire_write();
        contents.append(s);
        handle.release_write(contents);
        Ok(())
    }

    fn flush_sink(&self) -> Result<(), String> {
        Ok(())
    }
}

/// The standard output stream as a byte destination.
pub struct StdoutSink;

impl ByteSink for StdoutSink {
    open spec fn kind(&self) -> SinkKind {
        SinkKind::ProcessOut
    }

    fn write_str(&self, s: &str) -> Result<(), String> {
        stdout_write(s)
    }

    fn flush_sink(&self) -> Result<(), String> {
        stdout_flush()
    }
}

/// The standard error stream as a byte destination.
pub struct StderrSink;

impl ByteSink for StderrSink {
    open spec fn kind(&self) -> SinkKind {
        SinkKind::ProcessErr
    }

    fn write_str(&self, s: &str) -> Result<(), String> {
        stderr_write(s)
    }

    fn flush_sink(&self) -> Result<(), String> {
        stderr_flush()
    }
}

/// The sending half of a standard channel, usable as a sink destination.
#[verifier::external_type_specification]
#[verifier::external_body]
#[verifier::reject_recursive_types(T)]
pub struct ExSender<T>(std::sync::mpsc::Sender<T>);

/// The error a channel send reports when the receiving end is gone.
#[verifier::external_type_specification]
#[verifier::external_body]
#[verifier::reject_recursive_types(T)]
pub struct ExSendError<T>(std::sync::mpsc::SendError<T>);

/// Relies on `std::sync::mpsc::Sender::send`: hands the value to the channel,
/// reporting an error exactly when the receiving end has disconnected.
pub assume_specification<T>[ std::sync::mpsc::Sender::<T>::send ](
    s: &std::sync::mpsc::Sender<T>,
    t: T,
) -> Result<(), std::sync::mpsc::SendError<T>>;


/// Lock predicate for [`LockedSender`]: the lock holds exactly the sender
/// it was created around, so the guarded channel can be named in contracts.
pub struct GuardsSender {
    pub target: std::sync::mpsc::Sender<String>,
}

impl RwLockPredicate<std::sync::mpsc::Sender<String>> for GuardsSender {
    open spec fn inv(self, v: std::sync::mpsc::Sender<String>) -> bool {
        v == self.target
    }
}

/// The sending half of a channel behind a lock scoped to one send, so a
/// channel sink can live in a tree that several threads share.
pub struct LockedSender {
    chan: std::sync::Arc<RwLock<std::sync::mpsc::Sender<String>, GuardsSender>>,
}

impl LockedSender {
    /// The channel this lock guards: every send goes to exactly this sender.
    pub closed spec fn origin(&self) -> std::sync::mpsc::Sender<String> {
        (*self.chan).pred().target
    }

    /// Guard a sender with a fresh lock.
    pub fn new(sender: std::sync::mpsc::Sender<String>) -> (r: LockedSender)
        ensures
            r.origin() == sender,
    {
        LockedSender {
            chan: std::sync::Arc::new(
                RwLock::<std::sync::mpsc::Sender<String>, GuardsSender>::new(
                    sender,
                    Ghost(GuardsSender { target: sender }),
                ),
            ),
        }
    }

    /// Send one string over the channel, holding the lock for the duration
    /// of the send; reports an error when the receiving end is gone.
    pub fn send(&self, msg: String) -> Result<(), String> {
        let (sender, handle) = self.chan.acquire_write();
        let sent = sender.send(msg);
        handle.release_write(sender);
        match sent {
            Ok(_) => Ok(()),
            Err(_) => Err("channel receiver disconnected".to_owned()),
        }
    }
}

/// Relies on `std::io::Write::write_all` for the standard output stream: the
/// whole payload is handed over, or the stream's error is reported as text.
#[verifier::external_body]
pub(crate) fn stdout_write(payload: &str) -> (r: Result<(), String>) {
    std::io::Write::write_all(&mut std::io::stdout(), payload.as_bytes()).map_err(|e| e.to_string())
}

/// Relies on `std::io::Write::flush` for the standard output stream.
#[verifier::external_body]
pub(crate) fn stdout_flush() -> (r: Result<(), String>) {
    std::io::Write::flush(&mut std::io::stdout()).map_err(|e| e.to_string())
}

/// Relies on `std::io::Write::write_all` for the standard error stream: the
/// whole payload is handed over, or the stream's error is reported as text.
#[verifier::external_body]
pub(crate) fn stderr_write(payload: &str) -> (r: Result<(), String>) {
    std::io::Write::write_all(&mut std::io::stderr(), payload.as_bytes()).map_err(|e| e.to_string())
}

/// Relies on `std::io::Write::flush` for the standard error stream.
#[verifier::external_body]
pub(crate) fn stderr_flush() -> (r: Result<(), String>) {
    std::io::Write::flush(&mut std::io::stderr()).map_err(|e| e.to_string())
}

/// The last-resort diagnostic channel itself failed; there is deliberately no
/// further fallback, so the process stops here.  Relies on `Option::expect`
/// to end the process, carrying the combined diagnostic text.
#[verifier::external_body]
pub(crate) fn halt(diagnostic: &str) {
    let unrecoverable: Option<()> = None;
    unrecoverable.expect(diagnostic);
}

} // verus!

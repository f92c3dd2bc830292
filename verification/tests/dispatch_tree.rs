//! The dispatch tree: routing, formatting, fan-out and failure fallback.

use std::sync::mpsc;

use fern::formatter::PassThrough;
use fern::formatter::RejectLevel;
use fern::formatter::WithLevelTag;
use fern::stream::FailingSink;
use fern::stream::SharedBuffer;
use fern::Dispatch;
use fern::Level;
use fern::LevelFilter;
use fern::Log;
use fern::Output;
use fern::Record;

fn manual_log(logger: &dyn Log, level: Level, message: &str) {
    logger.log(&Record::new(level, String::new(), message.to_string()));
}

#[test]
fn test_channel_logging() {
    // Create the channel
    let (send, recv) = mpsc::channel();

    let (_max_level, logger) = Dispatch::new()
        .chain(Output::sender(send, ""))
        .into_log();

    let l = &*logger;
    manual_log(l, Level::Info, "message1");
    manual_log(l, Level::Info, "message2");

    logger.flush();

    assert_eq!(recv.recv().unwrap(), "message1");
    assert_eq!(recv.recv().unwrap(), "message2");
}

#[test]
fn test3_channel_logging() {
    // Create the channel
    let (send, recv) = mpsc::channel();

    let (_, l) = Dispatch::new().chain(Output::sender(send, "\n")).into_log();

    manual_log(&*l, Level::Info, "message1");
    manual_log(&*l, Level::Info, "message2");

    l.flush();

    assert_eq!(recv.recv().unwrap(), "message1\n");
    assert_eq!(recv.recv().unwrap(), "message2\n");
}

#[test]
fn custom_line_separators_reach_the_destination() {
    let buffer = SharedBuffer::new();
    let (_, l) = Dispatch::new()
        .chain(Output::writer(Box::new(buffer.handle()), "\r\n"))
        .into_log();

    manual_log(&*l, Level::Info, "message1");
    manual_log(&*l, Level::Info, "message2");
    l.flush();

    assert_eq!(buffer.snapshot(), "message1\r\nmessage2\r\n");
}

#[test]
fn fan_out_preserves_attachment_order() {
    // Two writer children share one buffer; each terminates with its own
    // marker, so the buffer records which child saw the event first.
    let buffer = SharedBuffer::new();
    let (_, l) = Dispatch::new()
        .chain(Output::writer(Box::new(buffer.handle()), "<first>\n"))
        .chain(Output::writer(Box::new(buffer.handle()), "<second>\n"))
        .into_log();

    manual_log(&*l, Level::Info, "event");

    assert_eq!(buffer.snapshot(), "event<first>\nevent<second>\n");
}

#[test]
fn declined_formatter_forwards_message_unchanged() {
    let (send, recv) = mpsc::channel();
    let (_, l) = Dispatch::new()
        .format(Box::new(PassThrough))
        .chain(Output::sender(send, ""))
        .into_log();

    manual_log(&*l, Level::Info, "untouched message");

    assert_eq!(recv.recv().unwrap(), "untouched message");
}

#[test]
fn level_tag_formatter_rewrites_for_all_children() {
    let (send, recv) = mpsc::channel();
    let buffer = SharedBuffer::new();
    let (_, l) = Dispatch::new()
        .format(Box::new(WithLevelTag))
        .level(LevelFilter::Info)
        .chain(Output::sender(send, ""))
        .chain(Output::writer(Box::new(buffer.handle()), "\n"))
        .into_log();

    manual_log(&*l, Level::Trace, "SHOULD NOT DISPLAY");
    manual_log(&*l, Level::Debug, "SHOULD NOT DISPLAY");
    manual_log(&*l, Level::Info, "Test information message");
    manual_log(&*l, Level::Warn, "Test warning message");
    manual_log(&*l, Level::Error, "Test error message");

    assert_eq!(recv.recv().unwrap(), "[INFO] Test information message");
    assert_eq!(recv.recv().unwrap(), "[WARN] Test warning message");
    assert_eq!(recv.recv().unwrap(), "[ERROR] Test error message");
    assert!(recv.try_recv().is_err(), "expected exactly three messages");
    assert!(!buffer.snapshot().contains("SHOULD NOT DISPLAY"));
}

#[test]
fn dead_subtree_is_excluded_from_the_computed_minimum() {
    let (min_without, _) = Dispatch::new()
        .level(LevelFilter::Info)
        .chain(Output::stdout("\n"))
        .into_log();

    let dead = Dispatch::new()
        .level(LevelFilter::Off)
        .chain(Output::stdout("\n"));
    let (min_with, _) = Dispatch::new()
        .level(LevelFilter::Info)
        .chain(Output::stdout("\n"))
        .chain(Output::child(dead))
        .into_log();

    assert_eq!(min_without, LevelFilter::Info);
    assert_eq!(min_with, min_without);
}

#[test]
fn computed_minimum_matches_configured_level() {
    let (min_level, _log) = Dispatch::new()
        .level(LevelFilter::Info)
        .chain(Output::stdout("\n"))
        .into_log();

    assert_eq!(min_level, LevelFilter::Info);
}

#[test]
fn tree_with_no_children_is_off() {
    let (min_level, l) = Dispatch::new().level(LevelFilter::Trace).into_log();
    assert_eq!(min_level, LevelFilter::Off);
    // The compiled sink is inert.
    assert!(!l.enabled(Level::Error, "any"));
}

#[test]
fn failing_sink_falls_back_without_crashing_or_losing_siblings() {
    // A writer over an invalid handle fails every write; the event must
    // still reach the sibling channel, and the caller must not panic.
    let (send, recv) = mpsc::channel();
    let (_, l) = Dispatch::new()
        .chain(Output::writer(Box::new(FailingSink), "\n"))
        .chain(Output::sender(send, "\n"))
        .into_log();

    manual_log(&*l, Level::Warn, "survives a failing sink");

    assert_eq!(recv.recv().unwrap(), "survives a failing sink\n");
}

#[test]
fn end_to_end_info_floor_and_separators() {
    // Root default Info with two writer children: one newline-terminated,
    // one CRLF-terminated.
    let out = SharedBuffer::new();
    let file = SharedBuffer::new();
    let (min_level, l) = Dispatch::new()
        .level(LevelFilter::Info)
        .chain(Output::writer(Box::new(out.handle()), "\n"))
        .chain(Output::writer(Box::new(file.handle()), "\r\n"))
        .into_log();

    assert_eq!(min_level, LevelFilter::Info);

    manual_log(&*l, Level::Debug, "quiet");
    assert_eq!(out.snapshot(), "");
    assert_eq!(file.snapshot(), "");

    manual_log(&*l, Level::Info, "hello");
    assert_eq!(out.snapshot(), "hello\n");
    assert_eq!(file.snapshot(), "hello\r\n");
}

#[test]
fn level_for_overrides_and_replaces() {
    let buffer = SharedBuffer::new();
    let (min_level, d) = Dispatch::new()
        .level(LevelFilter::Warn)
        .level_for("chatty", LevelFilter::Trace)
        .level_for("chatty", LevelFilter::Error)
        .chain(Output::writer(Box::new(buffer.handle()), "\n"))
        .into_dispatch();

    // The second override replaced the first.
    assert!(d.shallow_enabled(Level::Error, "chatty"));
    assert!(!d.shallow_enabled(Level::Warn, "chatty"));
    // Other targets use the default.
    assert!(d.shallow_enabled(Level::Warn, "other"));
    assert!(!d.shallow_enabled(Level::Info, "other"));
    // The default floor stays the most verbose cap configured anywhere.
    assert_eq!(min_level, LevelFilter::Warn);
}

#[test]
fn hierarchy_governs_enablement_in_the_tree() {
    let (_, d) = Dispatch::new()
        .level(LevelFilter::Warn)
        .level_for("app::noisy", LevelFilter::Off)
        .level_for("app", LevelFilter::Debug)
        .chain(Output::stdout("\n"))
        .into_dispatch();

    assert!(d.deep_enabled(Level::Debug, "app::quiet"));
    assert!(!d.deep_enabled(Level::Error, "app::noisy::inner"));
    assert!(d.deep_enabled(Level::Warn, "elsewhere"));
    assert!(!d.deep_enabled(Level::Info, "elsewhere"));
}

#[test]
fn filters_are_consulted_before_output() {
    let (send, recv) = mpsc::channel();
    let (_, l) = Dispatch::new()
        .filter(Box::new(RejectLevel { refused: Level::Error }))
        .chain(Output::sender(send, "\n"))
        .into_log();

    manual_log(&*l, Level::Error, "rejected");
    manual_log(&*l, Level::Info, "accepted");

    assert_eq!(recv.recv().unwrap(), "accepted\n");
    assert!(recv.try_recv().is_err());
}

#[test]
fn shared_dispatch_serves_two_parents() {
    let buffer = SharedBuffer::new();
    let file_out = Dispatch::new()
        .chain(Output::writer(Box::new(buffer.handle()), "\n"))
        .into_shared();

    let (_, l) = Dispatch::new()
        .chain(Output::child(
            Dispatch::new().chain(Output::shared(file_out.clone())),
        ))
        .chain(Output::child(
            Dispatch::new().chain(Output::shared(file_out)),
        ))
        .into_log();

    manual_log(&*l, Level::Info, "twice");

    assert_eq!(buffer.snapshot(), "twice\ntwice\n");
}

#[test]
fn deep_enabled_sees_through_to_children() {
    let inner = Dispatch::new().level(LevelFilter::Error).chain(Output::stdout("\n"));
    let (_, d) = Dispatch::new().chain(Output::child(inner)).into_dispatch();

    assert!(d.deep_enabled(Level::Error, "x"));
    assert!(!d.deep_enabled(Level::Warn, "x"));
}

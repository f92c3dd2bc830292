//! The plain logger layer, the date-based bookkeeping, errors and levels.

use fern::config::DispatchConfig;
use fern::config::IntoLog;
use fern::config::OutputConfig;
use fern::formatter::TagMessage;
use fern::logger::ConfiguredTimezone;
use fern::logger::DateBased;
use fern::logger::DateBasedConfig;
use fern::logger::DateBasedState;
use fern::logger::RotationAction;
use fern::loggers::DispatchLogger;
use fern::loggers::NullLogger;
use fern::loggers::WriterLogger;
use fern::stream::SharedBuffer;
use fern::InitError;
use fern::Level;
use fern::LevelFilter;
use fern::Location;
use fern::LogError;
use fern::logger::CustomLineSep;
use fern::Logger;

fn here() -> Location {
    Location { module: "tests".to_string(), file: "logger_layer.rs".to_string(), line: 1 }
}

#[test]
fn test() {
    let logger_config = DispatchConfig {
        format: Box::new(TagMessage),
        output: vec![OutputConfig::stdout(), OutputConfig::null()],
        level: LevelFilter::Trace,
    };
    drop(logger_config);
}

#[test]
fn writer_logger_appends_message_and_separator() {
    let buffer = SharedBuffer::new();
    let logger = WriterLogger::new(Box::new(buffer.handle()), "\r\n");

    logger.log("message1", Level::Info, &here()).unwrap();
    logger.log("message2", Level::Warn, &here()).unwrap();

    assert_eq!(buffer.snapshot(), "message1\r\nmessage2\r\n");
}

#[test]
fn dispatch_logger_gates_formats_and_fans_out() {
    let buffer = SharedBuffer::new();
    let config = DispatchConfig {
        format: Box::new(TagMessage),
        output: vec![OutputConfig::custom(Box::new(WriterLogger::new(
            Box::new(buffer.handle()),
            "\n",
        )))],
        level: LevelFilter::Info,
    };
    let logger = config.into_fern_logger().unwrap();

    logger.log("too quiet", Level::Debug, &here()).unwrap();
    logger.log("loud enough", Level::Error, &here()).unwrap();

    assert_eq!(buffer.snapshot(), "[ERROR] loud enough\n");
}

#[test]
fn dispatch_logger_new_succeeds_for_builtin_outputs() {
    let result = DispatchLogger::new(
        Box::new(TagMessage),
        vec![OutputConfig::null(), OutputConfig::stdout()],
        LevelFilter::Trace,
    );
    assert!(result.is_ok());
}

#[test]
fn null_logger_swallows_everything() {
    let logger = NullLogger;
    assert!(logger.log("gone", Level::Error, &here()).is_ok());
}

#[test]
fn child_config_nests_dispatch_layers() {
    let buffer = SharedBuffer::new();
    let inner = DispatchConfig {
        format: Box::new(TagMessage),
        output: vec![OutputConfig::custom(Box::new(WriterLogger::new(
            Box::new(buffer.handle()),
            "\n",
        )))],
        level: LevelFilter::Warn,
    };
    let outer = DispatchConfig {
        format: Box::new(TagMessage),
        output: vec![OutputConfig::child(inner)],
        level: LevelFilter::Trace,
    };
    let logger = outer.into_fern_logger().unwrap();

    logger.log("info is filtered by the child", Level::Info, &here()).unwrap();
    logger.log("warning passes", Level::Warn, &here()).unwrap();

    // The outer layer formats once, the inner layer formats again.
    assert_eq!(buffer.snapshot(), "[WARN] [WARN] warning passes\n");
}

#[test]
fn date_based_builder_accumulates_settings() {
    let d = DateBased::new("logs/app.log.", "%Y-%m-%d").line_sep("\r\n").utc_time();
    assert_eq!(d.file_prefix, "logs/app.log.");
    assert_eq!(d.file_suffix, "%Y-%m-%d");
    assert_eq!(d.line_sep, "\r\n");
    assert!(d.utc_time);
    let d = d.local_time();
    assert!(!d.utc_time);
}

#[test]
fn rotation_keeps_matching_open_file() {
    let config = DateBasedConfig::new(
        "\n".to_string(),
        "app.log.".to_string(),
        "%Y-%m-%d".to_string(),
        ConfiguredTimezone::Utc,
    );
    let state = DateBasedState::new("2021-05-01".to_string(), true);

    match config.rotation_decision(&state, "2021-05-01") {
        RotationAction::Keep => {}
        RotationAction::OpenNew(p) => panic!("unexpected rotation to {}", p),
    }
}

#[test]
fn rotation_opens_new_file_on_suffix_change_or_closed_file() {
    let config = DateBasedConfig::new(
        "\n".to_string(),
        "app.log.".to_string(),
        "%Y-%m-%d".to_string(),
        ConfiguredTimezone::Local,
    );

    let stale = DateBasedState::new("2021-05-01".to_string(), true);
    match config.rotation_decision(&stale, "2021-05-02") {
        RotationAction::OpenNew(path) => assert_eq!(path, "app.log.2021-05-02"),
        RotationAction::Keep => panic!("expected a rotation"),
    }

    let closed = DateBasedState::new("2021-05-02".to_string(), false);
    match config.rotation_decision(&closed, "2021-05-02") {
        RotationAction::OpenNew(path) => assert_eq!(path, "app.log.2021-05-02"),
        RotationAction::Keep => panic!("a closed file must be reopened"),
    }
}

#[test]
fn rotation_state_transitions() {
    let mut state = DateBasedState::new("a".to_string(), false);
    state.replace_file("b".to_string(), true);
    assert_eq!(state.current_suffix, "b");
    assert!(state.file_open);
    state.replace_file("c".to_string(), false);
    assert_eq!(state.current_suffix, "c");
    assert!(!state.file_open);
}

#[test]
fn compute_file_path_appends_without_separator() {
    let config = DateBasedConfig::new(
        "\n".to_string(),
        "hello".to_string(),
        "%Y".to_string(),
        ConfiguredTimezone::Local,
    );
    assert_eq!(config.compute_file_path("2019"), "hello2019");
    assert_eq!(config.compose_payload("msg"), "msg\n");
}

#[test]
fn error_texts_name_their_cause() {
    assert_eq!(LogError::Io("broken pipe".to_string()).text(), "IO Error: broken pipe");
    assert_eq!(LogError::Send("gone".to_string()).text(), "Send Error: gone");
    assert_eq!(LogError::Poison("held".to_string()).text(), "Poison Error: held");
    assert_eq!(InitError::Io("denied".to_string()).text(), "IO Error: denied");
    assert_eq!(
        InitError::SetLoggerError("twice".to_string()).text(),
        "global logger already initialized: twice"
    );
}

#[test]
fn fallback_line_carries_payload_severity_and_location() {
    let record = fern::Record {
        level: Level::Error,
        target: "app::db".to_string(),
        message: "write me somewhere".to_string(),
        module: Some("app::db::writer".to_string()),
        file: Some("writer.rs".to_string()),
        line: Some(1024),
    };
    let line = fern::log_impl::fallback_line(&record, &LogError::Io("disk full".to_string()));
    assert!(line.contains("write me somewhere"));
    assert!(line.contains("level: ERROR"));
    assert!(line.contains("app::db"));
    assert!(line.contains("module: app::db::writer"));
    assert!(line.contains("file: writer.rs"));
    assert!(line.contains("line: 1024"));
    assert!(line.contains("IO Error: disk full"));

    let bare = fern::Record::new(Level::Warn, "t".to_string(), "m".to_string());
    let bare_line = fern::log_impl::fallback_line(&bare, &LogError::Send("gone".to_string()));
    assert!(bare_line.contains("level: WARN"));
    assert!(bare_line.contains("Send Error: gone"));
}

#[test]
fn levels_are_ordered_and_labelled() {
    // Ranks follow the verbosity scale: the most severe level has the
    // smallest rank, so it passes every cap a less severe one passes.
    assert!(Level::Error.rank() < Level::Warn.rank());
    assert!(Level::Warn.rank() < Level::Info.rank());
    assert!(Level::Info.rank() < Level::Debug.rank());
    assert!(Level::Debug.rank() < Level::Trace.rank());

    assert_eq!(Level::Info.label(), "INFO");
    assert_eq!(Level::Error.label(), "ERROR");

    assert!(LevelFilter::Info.admits_level(Level::Info));
    assert!(LevelFilter::Info.admits_level(Level::Error));
    assert!(!LevelFilter::Info.admits_level(Level::Debug));
    assert!(!LevelFilter::Off.admits_level(Level::Error));
    assert!(LevelFilter::Trace.admits_level(Level::Trace));
}

#[test]
fn null_and_panic_enablement() {
    assert!(!fern::Log::enabled(&fern::Null, Level::Error, "any"));
    assert!(fern::Log::enabled(&fern::Panic, Level::Trace, "any"));
    fern::Log::log(&fern::Null, &fern::Record::new(Level::Error, "t".to_string(), "gone".to_string()));
}

#[test]
fn custom_line_sep_replaces_the_terminator() {
    let sink = CustomLineSep::line_sep(fern::logger::stdout(), "\0");
    assert_eq!(sink.line_sep, "\0");
    let buffer = SharedBuffer::new();
    let writer = CustomLineSep::line_sep(fern::logger::writer(Box::new(buffer.handle())), "--");
    fern::Log::log(&writer, &fern::Record::new(Level::Info, String::new(), "a".to_string()));
    fern::Log::log(&writer, &fern::Record::new(Level::Info, String::new(), "b".to_string()));
    assert_eq!(buffer.snapshot(), "a--b--");
}

#[test]
fn current_suffix_renders_the_time_pattern() {
    let config = DateBasedConfig::new(
        "\n".to_string(),
        "app.log.".to_string(),
        "%Y".to_string(),
        ConfiguredTimezone::Utc,
    );
    let suffix = config.compute_current_suffix();
    assert_eq!(suffix.len(), 4, "a year has four digits, got {:?}", suffix);
    assert!(suffix.chars().all(|c| c.is_ascii_digit()));

    let local = DateBasedConfig::new(
        "\n".to_string(),
        "app.log.".to_string(),
        "%Y".to_string(),
        ConfiguredTimezone::Local,
    );
    assert_eq!(local.compute_current_suffix().len(), 4);
}

#[test]
fn syslog_connection_is_attempted_without_panicking() {
    match fern::syslog::syslog3_unix("fern_tests", 0) {
        Ok(handle) => {
            let sink = fern::syslog::syslog3(handle);
            assert!(fern::Log::enabled(&sink, Level::Debug, "any"));
            fern::Log::log(
                &sink,
                &fern::Record::new(Level::Debug, "fern_tests".to_string(), "sink self-check".to_string()),
            );
        }
        Err(text) => {
            assert!(!text.is_empty());
        }
    }
}

#[test]
fn records_carry_their_fields_and_rewrites() {
    let r = fern::Record::new(Level::Warn, "app::db".to_string(), "original".to_string());
    assert_eq!(r.level, Level::Warn);
    assert_eq!(r.target, "app::db");
    assert_eq!(r.message, "original");
    assert!(r.module.is_none());

    let rewritten = r.with_message("replaced".to_string());
    assert_eq!(rewritten.message, "replaced");
    assert_eq!(rewritten.target, "app::db");
    assert_eq!(rewritten.level, Level::Warn);

    let copy = r.clone();
    assert_eq!(copy.message, "original");
}

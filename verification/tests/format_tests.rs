use logkit::clock::format_record_now;
use logkit::format::{format_record, u32_decimal};
use logkit::{LogLevel, LogTarget, LoggerBuilder, Record};

fn record(level: LogLevel, line: Option<u32>, message: &str) -> Record {
    Record {
        level,
        target: String::from("core::engine"),
        line,
        message: String::from(message),
    }
}

#[test]
fn decimal_rendering() {
    assert_eq!(u32_decimal(0), "0");
    assert_eq!(u32_decimal(7), "7");
    assert_eq!(u32_decimal(10), "10");
    assert_eq!(u32_decimal(105), "105");
    assert_eq!(u32_decimal(4_294_967_295), "4294967295");
}

#[test]
fn formatted_line_shape() {
    let r = record(LogLevel::Info, Some(42), "hello");
    let line = format_record("2024-01-02 03:04:05", &r);
    assert_eq!(line, "[2024-01-02 03:04:05]<INFO>[core::engine:42] hello");
}

#[test]
fn unknown_line_becomes_zero() {
    let r = record(LogLevel::Error, None, "boom");
    let line = format_record("2024-01-02 03:04:05", &r);
    assert_eq!(line, "[2024-01-02 03:04:05]<ERROR>[core::engine:0] boom");
}

#[test]
fn every_severity_tag() {
    assert_eq!(LogLevel::Trace.tag(), "TRACE");
    assert_eq!(LogLevel::Debug.tag(), "DEBUG");
    assert_eq!(LogLevel::Info.tag(), "INFO");
    assert_eq!(LogLevel::Warn.tag(), "WARN");
    assert_eq!(LogLevel::Error.tag(), "ERROR");
}

#[test]
fn formatting_with_the_wall_clock_inserts_a_stamp() {
    let r = record(LogLevel::Warn, Some(3), "tick");
    let line = format_record_now(&r);
    // "[" + a stamp of at least 19 characters + "]<WARN>[core::engine:3] tick"
    assert!(line.len() >= 1 + 19 + "]<WARN>[core::engine:3] tick".len());
    assert!(line.starts_with('['));
    assert!(line.ends_with("]<WARN>[core::engine:3] tick"));
}

#[test]
fn console_warn_scenario_emits_only_the_error_record() {
    let logger = LoggerBuilder::new()
        .level(LogLevel::Warn)
        .targets(vec![LogTarget::Console])
        .build();

    let info = record(LogLevel::Info, Some(1), "quiet");
    let error = record(LogLevel::Error, Some(2), "loud");

    assert!(logger.render("2024-01-02 03:04:05", &info).is_none());
    assert_eq!(logger.sinks_for(LogLevel::Info).len(), 0);

    let rendered = logger.render("2024-01-02 03:04:05", &error);
    assert_eq!(
        rendered.as_deref(),
        Some("[2024-01-02 03:04:05]<ERROR>[core::engine:2] loud")
    );
    let sinks = logger.sinks_for(LogLevel::Error);
    assert_eq!(sinks.len(), 1);
    assert!(matches!(sinks[0], LogTarget::Console));
}

#[test]
fn passing_record_reaches_every_sink_exactly_once_in_order() {
    let logger = LoggerBuilder::new()
        .level(LogLevel::Debug)
        .targets(vec![
            LogTarget::Console,
            LogTarget::Dir(String::from("x")),
            LogTarget::Console,
        ])
        .build();
    let sinks = logger.sinks_for(LogLevel::Debug);
    assert_eq!(sinks.len(), 3);
    assert!(matches!(sinks[0], LogTarget::Console));
    match &sinks[1] {
        LogTarget::Dir(p) => assert_eq!(p, "x"),
        LogTarget::Console => panic!("expected the directory target"),
    }
    assert!(matches!(sinks[2], LogTarget::Console));

    assert_eq!(logger.sinks_for(LogLevel::Trace).len(), 0);
}

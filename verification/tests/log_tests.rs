//! Tests of log record construction, the field map, and the verified text
//! rendering of records, timestamps and numbers.

use ez_rke::log::{
    fmt_date, fmt_ts_micros, fmt_ts_secs, fmt_year, label5, level_color, render_fields, LogColor,
    LogEvent, LogLevel, LogSpan, Timestamp,
};
use ez_rke::text::{fmt_u64, fmt_u64_pad2, fmt_u64_pad4, fmt_u64_pad6, join_with};

fn ts() -> Timestamp {
    Timestamp { year: 2024, month: 3, day: 7, hour: 9, minute: 5, second: 2, micros: 42 }
}

#[test]
fn decimal_rendering() {
    assert_eq!(fmt_u64(0), "0");
    assert_eq!(fmt_u64(7), "7");
    assert_eq!(fmt_u64(12345), "12345");
    assert_eq!(fmt_u64(18446744073709551615), "18446744073709551615");
}

#[test]
fn zero_padding() {
    assert_eq!(fmt_u64_pad2(5), "05");
    assert_eq!(fmt_u64_pad2(42), "42");
    assert_eq!(fmt_u64_pad2(123), "123");
    assert_eq!(fmt_u64_pad4(7), "0007");
    assert_eq!(fmt_u64_pad4(2024), "2024");
    assert_eq!(fmt_u64_pad4(12345), "12345");
    assert_eq!(fmt_u64_pad6(42), "000042");
    assert_eq!(fmt_u64_pad6(999999), "999999");
    assert_eq!(fmt_u64_pad6(1999999), "1999999");
}

#[test]
fn year_rendering_handles_signs() {
    assert_eq!(fmt_year(2024), "2024");
    assert_eq!(fmt_year(44), "0044");
    assert_eq!(fmt_year(-44), "-0044");
    assert_eq!(fmt_year(0), "0000");
}

#[test]
fn timestamp_rendering() {
    assert_eq!(fmt_date(ts()), "[2024-03-07]");
    assert_eq!(fmt_ts_secs(ts()), "[2024-03-07][09:05:02]");
    assert_eq!(fmt_ts_micros(ts()), "[2024-03-07][09:05:02.000042]");
}

#[test]
fn severity_labels_are_five_characters() {
    assert_eq!(label5(LogLevel::Trace), "TRACE");
    assert_eq!(label5(LogLevel::Debug), "DEBUG");
    assert_eq!(label5(LogLevel::Info), "INFO ");
    assert_eq!(label5(LogLevel::Warn), "WARN ");
    assert_eq!(label5(LogLevel::Error), "ERROR");
}

#[test]
fn severity_colors() {
    assert_eq!(level_color(LogLevel::Trace), LogColor::White);
    assert_eq!(level_color(LogLevel::Debug), LogColor::Blue);
    assert_eq!(level_color(LogLevel::Info), LogColor::Green);
    assert_eq!(level_color(LogLevel::Warn), LogColor::Yellow);
    assert_eq!(level_color(LogLevel::Error), LogColor::Red);
}

#[test]
fn join_with_separates_parts() {
    let parts: Vec<String> = vec!["a".into(), "b".into(), "c".into()];
    assert_eq!(join_with(&parts, ":"), "a:b:c");
    let one: Vec<String> = vec!["solo".into()];
    assert_eq!(join_with(&one, ":"), "solo");
    let none: Vec<String> = vec![];
    assert_eq!(join_with(&none, ":"), "");
}

#[test]
fn span_scope_joins_names_with_colons() {
    let names: Vec<String> = vec!["outer".into(), "inner".into()];
    let span = LogSpan::from_names(&names);
    assert_eq!(span.scope, "outer:inner");
}

#[test]
fn record_field_appends_and_replaces() {
    let mut e = LogEvent::new(LogLevel::Debug, "app".into(), "evt".into());
    e.record_field("a".into(), "1".into());
    e.record_field("b".into(), "2".into());
    e.record_field("a".into(), "3".into());
    assert_eq!(
        e.fields,
        vec![("a".to_string(), "3".to_string()), ("b".to_string(), "2".to_string())]
    );
}

#[test]
fn new_records_start_empty_and_unspanned() {
    let e = LogEvent::new(LogLevel::Warn, "app".into(), "evt".into());
    assert!(e.fields.is_empty());
    assert!(e.span.is_none());
    assert_eq!(e.target, "app");
    assert_eq!(e.name, "evt");
}

#[test]
fn with_span_extends_the_scope() {
    let e = LogEvent::new(LogLevel::Info, "app".into(), "evt".into());
    let e = e.with_span(LogSpan { scope: "outer:inner".into() });
    assert_eq!(e.scope_string(), "app:outer:inner");
    let plain = LogEvent::new(LogLevel::Info, "app".into(), "evt".into());
    assert_eq!(plain.scope_string(), "app");
}

#[test]
fn fields_render_in_insertion_order() {
    let fields: Vec<(String, String)> = vec![("k".into(), "v".into()), ("n".into(), "7".into())];
    assert_eq!(render_fields(&fields), "{\"k\": \"v\", \"n\": \"7\"}");
    let empty: Vec<(String, String)> = vec![];
    assert_eq!(render_fields(&empty), "{}");
}

#[test]
fn fmt_line_renders_the_whole_record() {
    let e = LogEvent {
        level: LogLevel::Info,
        target: "app".to_string(),
        name: "evt".to_string(),
        fields: vec![("k".to_string(), "v".to_string())],
        timestamp: ts(),
        span: Some(LogSpan { scope: "outer".to_string() }),
    };
    assert_eq!(
        e.fmt_line(),
        "[2024-03-07][09:05:02] INFO  app:outer                      {\"k\": \"v\"}"
    );
}

#[test]
fn line_renders_the_panel_pieces() {
    let e = LogEvent {
        level: LogLevel::Error,
        target: "app".to_string(),
        name: "evt".to_string(),
        fields: vec![("k".to_string(), "v".to_string())],
        timestamp: ts(),
        span: None,
    };
    let line = e.line();
    assert_eq!(line.timestamp, "[2024-03-07][09:05:02.000042]");
    assert_eq!(line.level, " ERROR ");
    assert_eq!(line.color, LogColor::Red);
    assert_eq!(line.scope, "app");
    assert_eq!(line.fields, " {\"k\": \"v\"}");
}

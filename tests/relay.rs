use sidecar_supervisor::relay::{
    is_terminal_event, record_for, relay_all, ExitStatus, LogRecord, Relay, Severity, SidecarEvent,
};
use sidecar_supervisor::text::decimal_text;

fn out(s: &str) -> SidecarEvent {
    SidecarEvent::Stdout(s.as_bytes().to_vec())
}

fn err(s: &str) -> SidecarEvent {
    SidecarEvent::Stderr(s.as_bytes().to_vec())
}

fn exited(code: i32) -> SidecarEvent {
    SidecarEvent::Terminated(ExitStatus { code: Some(code), signal: None })
}

fn entry(r: &LogRecord) -> (Severity, &str) {
    (r.level, r.text.as_str())
}

#[test]
fn stdout_line_is_info_with_trailing_space_trimmed() {
    let r = record_for(&out("ready \t\r\n"));
    assert_eq!(entry(&r), (Severity::Info, "ready"));
}

#[test]
fn stderr_line_is_warning_with_trailing_space_trimmed() {
    let r = record_for(&err("warn: low memory\n"));
    assert_eq!(entry(&r), (Severity::Warn, "warn: low memory"));
}

#[test]
fn leading_space_is_kept() {
    let r = record_for(&out("  indented\n"));
    assert_eq!(r.text, "  indented");
}

#[test]
fn unicode_trailing_space_is_trimmed() {
    let r = record_for(&out("done\u{3000}\u{a0}"));
    assert_eq!(r.text, "done");
}

#[test]
fn invalid_utf8_is_replaced_not_fatal() {
    let r = record_for(&SidecarEvent::Stdout(vec![b'o', b'k', 0xff, b'\n']));
    assert_eq!(r.level, Severity::Info);
    assert_eq!(r.text, "ok\u{fffd}");
}

#[test]
fn empty_line_gives_empty_text() {
    let r = record_for(&out(""));
    assert_eq!(entry(&r), (Severity::Info, ""));
    let r = record_for(&err(" \n"));
    assert_eq!(entry(&r), (Severity::Warn, ""));
}

#[test]
fn exit_is_info() {
    assert_eq!(entry(&record_for(&exited(0))), (Severity::Info, "terminated with code 0"));
    let killed = SidecarEvent::Terminated(ExitStatus { code: None, signal: Some(9) });
    assert_eq!(entry(&record_for(&killed)), (Severity::Info, "terminated by signal 9"));
    let none = SidecarEvent::Terminated(ExitStatus { code: None, signal: None });
    assert_eq!(entry(&record_for(&none)), (Severity::Info, "terminated"));
}

#[test]
fn failure_is_error() {
    let r = record_for(&SidecarEvent::Error("permission denied".to_string()));
    assert_eq!(entry(&r), (Severity::Error, "error: permission denied"));
}

#[test]
fn terminal_events() {
    assert!(!is_terminal_event(&out("x")));
    assert!(!is_terminal_event(&err("x")));
    assert!(is_terminal_event(&exited(1)));
    assert!(is_terminal_event(&SidecarEvent::Error(String::new())));
}

#[test]
fn decimal_numbers() {
    assert_eq!(decimal_text(0), "0");
    assert_eq!(decimal_text(7), "7");
    assert_eq!(decimal_text(-305), "-305");
    assert_eq!(decimal_text(i32::MAX), "2147483647");
    assert_eq!(decimal_text(i32::MIN), "-2147483648");
}

#[test]
fn stream_with_two_lines_then_exit() {
    let events = vec![out("ready"), err("warn: low memory"), exited(0), out("late")];
    let (records, read) = relay_all(&events);
    assert_eq!(read, 3);
    assert_eq!(records.len(), 3);
    assert_eq!(entry(&records[0]), (Severity::Info, "ready"));
    assert_eq!(entry(&records[1]), (Severity::Warn, "warn: low memory"));
    assert_eq!(entry(&records[2]), (Severity::Info, "terminated with code 0"));
    let lines: Vec<&LogRecord> = records.iter().filter(|r| !r.text.starts_with("terminated")).collect();
    assert_eq!(lines.len(), 2);
}

#[test]
fn stream_starting_with_failure_reads_one_event() {
    let events = vec![SidecarEvent::Error("permission denied".to_string()), out("never"), exited(0)];
    let (records, read) = relay_all(&events);
    assert_eq!(read, 1);
    assert_eq!(records.len(), 1);
    assert_eq!(entry(&records[0]), (Severity::Error, "error: permission denied"));
}

#[test]
fn stream_without_terminal_event_is_read_whole() {
    let events = vec![out("a"), out("b")];
    let (records, read) = relay_all(&events);
    assert_eq!(read, 2);
    assert_eq!(records.len(), 2);
    let (records, read) = relay_all(&Vec::new());
    assert_eq!(read, 0);
    assert!(records.is_empty());
}

#[test]
fn relay_stops_after_terminal_event() {
    let mut relay = Relay::new();
    assert!(relay.wants_more());
    let first = relay.on_event(&out("ready\n")).unwrap();
    assert_eq!(entry(&first), (Severity::Info, "ready"));
    assert!(relay.wants_more());
    let last = relay.on_event(&exited(2)).unwrap();
    assert_eq!(entry(&last), (Severity::Info, "terminated with code 2"));
    assert!(!relay.wants_more());
    assert!(relay.on_event(&out("after")).is_none());
    assert!(!relay.wants_more());
}

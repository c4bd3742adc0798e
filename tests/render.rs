use ddog::entries::{EventAttributes, EventDetails, EventInnerAttributes, LogAttributes};
use ddog::render::{event_line_parts, log_line_parts, pad_status, Tint};
use ddog::{format_event_entry, format_log_entry, EventEntry, LogEntry};

fn log(ts: Option<&str>, status: Option<&str>, message: Option<&str>) -> LogEntry {
    LogEntry {
        id: None,
        entry_type: None,
        attributes: LogAttributes {
            timestamp: ts.map(String::from),
            status: status.map(String::from),
            message: message.map(String::from),
            host: None,
            service: None,
            tags: None,
            attributes: None,
        },
    }
}

fn event(title: Option<&str>, name: Option<&str>, status: Option<&str>, message: Option<&str>) -> EventEntry {
    EventEntry {
        id: None,
        entry_type: None,
        attributes: EventAttributes {
            timestamp: Some("2024-03-05T06:07:08Z".to_string()),
            attributes: Some(EventInnerAttributes {
                title: title.map(String::from),
                status: status.map(String::from),
                evt: Some(EventDetails { name: name.map(String::from), other: None }),
                other: None,
            }),
            tags: None,
            message: message.map(String::from),
            other: None,
        },
    }
}

#[test]
fn status_padding() {
    assert_eq!(pad_status("INFO".to_string()), "INFO ");
    assert_eq!(pad_status("".to_string()), "     ");
    assert_eq!(pad_status("WARNING".to_string()), "WARNING");
}

#[test]
fn log_parts() {
    let p = log_line_parts(&log(Some("2024-01-01T12:34:56+02:00"), Some("warn"), Some("disk full")));
    assert_eq!(p.stamp, "2024-01-01 10:34:56");
    assert_eq!(p.status, "WARN ");
    assert_eq!(p.tint, Tint::Yellow);
    assert_eq!(p.text, "disk full");
    let p = log_line_parts(&log(Some("yesterday"), None, None));
    assert_eq!(p.stamp, "--------------------");
    assert_eq!(p.status, "-----");
    assert_eq!(p.tint, Tint::Plain);
    assert_eq!(p.text, "");
    assert_eq!(log_line_parts(&log(None, Some("critical"), None)).tint, Tint::RedBold);
    assert_eq!(log_line_parts(&log(None, Some("info"), None)).tint, Tint::Green);
    assert_eq!(log_line_parts(&log(None, Some("debug"), None)).tint, Tint::Blue);
    assert_eq!(log_line_parts(&log(None, Some("trace"), None)).tint, Tint::Cyan);
}

#[test]
fn log_line() {
    let line = format_log_entry(&log(Some("2024-01-01T00:00:00Z"), Some("error"), Some("it broke")));
    assert!(line.starts_with('['));
    assert!(line.contains("2024-01-01 00:00:00"));
    assert!(line.contains("ERROR"));
    assert!(line.ends_with(" | it broke"));
}

#[test]
fn event_parts() {
    let p = event_line_parts(&event(Some("Deploy"), Some("deploy-evt"), Some("Error"), Some("failed")));
    assert_eq!(p.stamp, "2024-03-05 06:07:08");
    assert_eq!(p.status, "ERROR");
    assert_eq!(p.tint, Tint::RedBold);
    assert_eq!(p.text, "Deploy");
    assert_eq!(p.note, "failed");
    let p = event_line_parts(&event(None, Some("deploy-evt"), None, None));
    assert_eq!(p.text, "deploy-evt");
    assert_eq!(p.status, "INFO ");
    assert_eq!(p.tint, Tint::Blue);
    assert_eq!(p.note, "");
    let p = event_line_parts(&event(None, None, Some("ok"), None));
    assert_eq!(p.text, "Untitled Event");
    assert_eq!(p.tint, Tint::Green);
    assert_eq!(event_line_parts(&event(None, None, Some("warning"), None)).tint, Tint::Yellow);
    assert_eq!(event_line_parts(&event(None, None, Some("odd"), None)).tint, Tint::Plain);
}

#[test]
fn event_line() {
    let line = format_event_entry(&event(Some("Deploy"), None, Some("success"), None));
    assert!(line.ends_with(" | Deploy"));
    let line = format_event_entry(&event(Some("Deploy"), None, Some("success"), Some("all good")));
    assert!(line.contains(" | Deploy - "));
    assert!(line.contains("all good"));
}

#[test]
fn log_line_shows_stamp_and_status() {
    let line = format_log_entry(&log(Some("2024-01-01T00:00:00Z"), Some("info"), Some("m")));
    let plain = line.replace("\x1b[0m", "");
    assert!(plain.contains("2024-01-01 00:00:00"));
    assert!(plain.contains("INFO "));
    assert!(line.ends_with("| m"));
}

#[test]
fn log_line_in_colour() {
    colored::control::set_override(true);
    let line = format_log_entry(&log(Some("2024-01-01T00:00:00Z"), Some("warn"), Some("m")));
    assert_eq!(line, "[\x1b[90m2024-01-01 00:00:00\x1b[0m] \x1b[33mWARN \x1b[0m | m");
    let line = format_log_entry(&log(None, Some("error"), Some("x")));
    assert_eq!(line, "[\x1b[90m--------------------\x1b[0m] \x1b[1;31mERROR\x1b[0m | x");
    let line = format_log_entry(&log(None, Some("notice"), Some("x")));
    assert_eq!(line, "[\x1b[90m--------------------\x1b[0m] NOTICE | x");
}

#[test]
fn event_line_in_colour() {
    colored::control::set_override(true);
    let line = format_event_entry(&event(Some("Deploy"), None, Some("ok"), Some("done")));
    assert_eq!(line, "[\x1b[90m2024-03-05 06:07:08\x1b[0m] \x1b[32mOK   \x1b[0m | Deploy - \x1b[90mdone\x1b[0m");
}

#[test]
fn lines_without_colour() {
    colored::control::set_override(false);
    let line = format_log_entry(&log(Some("2024-01-01T00:00:00Z"), Some("info"), Some("m")));
    assert_eq!(line, "[2024-01-01 00:00:00] INFO  | m");
    let line = format_event_entry(&event(None, Some("evt"), None, None));
    assert_eq!(line, "[2024-03-05 06:07:08] INFO  | evt");
}

use ddog::{parse_datadog_url, DatadogResource};

fn expect_logs(url: &str, query: &str, from: &str, to: &str) {
    match parse_datadog_url(url).expect("should parse successfully") {
        DatadogResource::Logs(q) => {
            assert_eq!(q.query, query);
            assert_eq!(q.from, from);
            assert_eq!(q.to, to);
            assert_eq!(q.limit, Some(100));
        }
        _ => panic!("Expected Logs resource"),
    }
}

fn expect_events(url: &str, query: &str, from: &str, to: &str) {
    match parse_datadog_url(url).expect("should parse successfully") {
        DatadogResource::Events(q) => {
            assert_eq!(q.query, query);
            assert_eq!(q.from, from);
            assert_eq!(q.to, to);
            assert_eq!(q.limit, Some(100));
        }
        _ => panic!("Expected Events resource"),
    }
}

#[test]
fn test_parse_valid_logs_url() {
    expect_logs("https://app.datadoghq.com/logs?query=service%3Amyapp", "service:myapp", "now-15m", "now");
    expect_logs("https://app.datadoghq.com/logs", "*", "now-15m", "now");
    expect_logs("https://app.datadoghq.com/logs?query=env%3Aprod", "env:prod", "now-15m", "now");
}

#[test]
fn test_parse_logs_url_with_timestamps() {
    let r = parse_datadog_url(
        "https://app.datadoghq.com/logs?query=*&from_ts=1704067200000&to_ts=1704153600000",
    )
    .expect("should parse successfully");
    match r {
        DatadogResource::Logs(q) => {
            assert_eq!(q.query, "*");
            assert!(q.from.contains("2024-01-01"));
            assert!(q.to.contains("2024-01-02"));
            assert_eq!(q.from, "2024-01-01T00:00:00+00:00");
        }
        _ => panic!("Expected Logs resource"),
    }
}

#[test]
fn test_parse_valid_events_url() {
    expect_events("https://app.datadoghq.com/event/explorer?query=test-runner", "test-runner", "now-15m", "now");
    expect_events("https://app.datadoghq.com/event/explorer", "*", "now-15m", "now");
    expect_events("https://app.datadoghq.com/event/explorer?query=source%3Agithub", "source:github", "now-15m", "now");
}

#[test]
fn test_parse_events_url_with_timestamps() {
    let r = parse_datadog_url(
        "https://app.datadoghq.com/event/explorer?query=runner&from_ts=1704067200000&to_ts=1704153600000",
    )
    .expect("should parse successfully");
    match r {
        DatadogResource::Events(q) => {
            assert_eq!(q.query, "runner");
            assert!(q.from.contains("2024-01-01"));
            assert!(q.to.contains("2024-01-02"));
        }
        _ => panic!("Expected Events resource"),
    }
}

#[test]
fn test_reject_invalid_urls() {
    for (url, msg) in [
        ("https://example.com/logs", "must be a Datadog URL"),
        ("https://google.com/logs", "must be a Datadog URL"),
        ("https://app.datadoghq.com/apm/traces", "Unsupported Datadog resource"),
        ("https://app.datadoghq.com/metrics", "Unsupported Datadog resource"),
    ] {
        let r = parse_datadog_url(url);
        assert!(r.is_err());
        assert!(r.unwrap_err().contains(msg));
    }
}

#[test]
fn unsupported_path_message_is_exact() {
    let e = parse_datadog_url("https://app.datadoghq.com/metrics").unwrap_err();
    assert_eq!(
        e,
        "Unsupported Datadog resource: /metrics. Currently only /logs and /event/explorer are supported."
    );
}

#[test]
fn not_an_address() {
    let e = parse_datadog_url("not a url").unwrap_err();
    assert!(e.starts_with("Invalid URL: "));
    assert!(e.len() > "Invalid URL: ".len());
}

#[test]
fn bad_timestamps_fall_back() {
    expect_logs("https://app.datadoghq.com/logs?from_ts=abc&to_ts=99999999999999999999", "*", "now-15m", "now");
}

#[test]
fn later_parameter_wins() {
    expect_logs("https://app.datadoghq.com/logs?query=a&query=b", "b", "now-15m", "now");
}

#[test]
fn address_without_host_is_rejected() {
    let e = parse_datadog_url("mailto:someone@datadoghq.com").unwrap_err();
    assert!(e.contains("must be a Datadog URL"));
}

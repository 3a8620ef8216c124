use ngrok_java_native::config::KeyValue;
use ngrok_java_native::error::ErrorKind;
use ngrok_java_native::logging::{log_level, log_record, LogLevel};

fn kv(k: &str, v: &str) -> KeyValue {
    KeyValue { key: k.to_string(), value: v.to_string() }
}

#[test]
fn message_event_round_trip() {
    let fields = vec![kv("message", "listener started")];
    let r = log_record("INFO".to_string(), "ngrok::session".to_string(), &fields);
    assert_eq!(r.level, "INFO");
    assert_eq!(r.target, "ngrok::session");
    assert_eq!(r.message, "listener started");
}

#[test]
fn other_fields_are_not_forwarded() {
    let fields = vec![kv("id", "tn_1"), kv("message", "accepted"), kv("remote", "1.2.3.4")];
    let r = log_record("DEBUG".to_string(), "t".to_string(), &fields);
    assert_eq!(r.message, "accepted");
}

#[test]
fn event_without_message_logs_empty_text() {
    let r = log_record("WARN".to_string(), "t".to_string(), &vec![kv("id", "x")]);
    assert_eq!(r.message, "");
}

#[test]
fn levels_parse_as_tracing_reads_them() {
    assert_eq!(log_level("info").unwrap(), LogLevel::Info);
    assert_eq!(log_level("TRACE").unwrap(), LogLevel::Trace);
    assert_eq!(log_level("Warn").unwrap(), LogLevel::Warn);
    assert_eq!(log_level("1").unwrap(), LogLevel::Error);
    assert_eq!(log_level("4").unwrap(), LogLevel::Debug);
    assert_eq!(log_level("+03").unwrap(), LogLevel::Info);
    assert_eq!(log_level("0005").unwrap(), LogLevel::Trace);
    assert!(log_level("0").is_err());
    assert!(log_level("6").is_err());
    assert!(log_level("").is_err());
    let e = log_level("loud").unwrap_err();
    assert_eq!(e.kind, ErrorKind::Config);
    assert_eq!(e.message(), "invalid log level");
}

use ngrok_java_native::error::{io_exc_err, provider_error, ErrorKind};
use ngrok_java_native::outcome::{
    accept_outcome, edge_kind_name, heartbeat_call, join_outcome, provider_outcome, read_outcome,
    write_outcome, AcceptFailure, EdgeKind, HeartbeatCall,
};

#[test]
fn read_of_zero_bytes_is_closed_error() {
    let err = read_outcome(Ok(0)).unwrap_err();
    assert_eq!(err.kind, ErrorKind::Operational);
    assert_eq!(err.message(), "closed");
}

#[test]
fn read_of_some_bytes_is_count() {
    assert_eq!(read_outcome(Ok(17)).unwrap(), 17);
    assert_eq!(read_outcome(Ok(i32::MAX as usize)).unwrap(), i32::MAX);
}

#[test]
fn read_failure_keeps_text() {
    assert_eq!(read_outcome(Err("reset".to_string())).unwrap_err().message(), "reset");
}

#[test]
fn write_reports_count_even_zero() {
    assert_eq!(write_outcome(Ok(0)).unwrap(), 0);
    assert_eq!(write_outcome(Ok(4096)).unwrap(), 4096);
    assert_eq!(write_outcome(Err("broken pipe".to_string())).unwrap_err().message(), "broken pipe");
}

#[test]
fn accept_end_of_stream_is_error() {
    let err = accept_outcome::<u32>(Ok(None)).unwrap_err();
    assert_eq!(err.kind, ErrorKind::Operational);
    assert_eq!(err.message(), "could not get next connection");
}

#[test]
fn accept_connection_is_passed_through() {
    assert_eq!(accept_outcome(Ok(Some(5u32))).unwrap(), 5);
}

#[test]
fn accept_reconnect_with_code() {
    let f = AcceptFailure::Reconnect { code: Some("ERR_NGROK_108".to_string()), message: "limit".to_string() };
    assert_eq!(accept_outcome::<u32>(Err(f)).unwrap_err().message(), "ERR_NGROK_108\n\nlimit");
    let f = AcceptFailure::Reconnect { code: None, message: "gone".to_string() };
    assert_eq!(accept_outcome::<u32>(Err(f)).unwrap_err().message(), "gone");
    let f = AcceptFailure::Other("transport".to_string());
    assert_eq!(accept_outcome::<u32>(Err(f)).unwrap_err().message(), "transport");
}

#[test]
fn join_outcomes() {
    assert!(join_outcome(Ok(Ok(()))).is_ok());
    assert_eq!(join_outcome(Ok(Err("task failed".to_string()))).unwrap_err().message(), "task failed");
    assert_eq!(join_outcome(Err("panicked".to_string())).unwrap_err().message(), "panicked");
}

#[test]
fn provider_errors_join_code_and_message() {
    let e = provider_error(Some("ERR_NGROK_4018".to_string()), "bad token".to_string());
    assert_eq!(e.message(), "ERR_NGROK_4018\n\nbad token");
    assert_eq!(e.kind(), ErrorKind::Operational);
    let e = provider_error(None, "bad token".to_string());
    assert_eq!(e.message(), "bad token");
    let r: Result<(), _> = provider_outcome(Err((Some("E1".to_string()), "m".to_string())));
    assert_eq!(r.unwrap_err().message(), "E1\n\nm");
    assert_eq!(provider_outcome::<u8>(Ok(3)).unwrap(), 3);
}

#[test]
fn io_errors_carry_message() {
    let r: Result<u8, _> = io_exc_err("boom".to_string());
    let e = r.unwrap_err();
    assert_eq!(e.kind, ErrorKind::Operational);
    assert_eq!(e.message(), "boom");
}

#[test]
fn edge_kind_names() {
    assert_eq!(edge_kind_name(EdgeKind::Https), "HTTPS");
    assert_eq!(edge_kind_name(EdgeKind::Tls), "TLS");
    assert_eq!(edge_kind_name(EdgeKind::Tcp), "TCP");
    assert_eq!(edge_kind_name(EdgeKind::Undefined), "");
}

#[test]
fn heartbeat_calls() {
    assert_eq!(heartbeat_call(None).unwrap(), HeartbeatCall::Timeout);
    assert_eq!(heartbeat_call(Some(42)).unwrap(), HeartbeatCall::Beat(42));
    assert_eq!(heartbeat_call(Some(i64::MAX as u128)).unwrap(), HeartbeatCall::Beat(i64::MAX));
    assert!(heartbeat_call(Some(i64::MAX as u128 + 1)).is_err());
}

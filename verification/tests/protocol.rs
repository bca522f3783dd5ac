use streaming_asr_server::protocol::{default_sample_rate, error_code, HttpError, ServerMessage};
use streaming_asr_server::span::Span;

fn fields(m: ServerMessage) -> (String, String, bool, bool) {
    match m {
        ServerMessage::Error { code, message, fatal, retry } => (code, message, fatal, retry),
        _ => panic!("expected an error frame"),
    }
}

#[test]
fn default_rate_is_16k() {
    assert_eq!(default_sample_rate(), 16000);
}

#[test]
fn status_frames() {
    assert!(matches!(ServerMessage::ready(), ServerMessage::Status { state } if state == "ready"));
    assert!(matches!(ServerMessage::listening(), ServerMessage::Status { state } if state == "listening"));
}

#[test]
fn error_frames_follow_their_codes() {
    let m = |s: &str| s.to_string();
    assert_eq!(fields(ServerMessage::error_protocol(m("x"))), (m("protocol"), m("x"), false, false));
    assert_eq!(fields(ServerMessage::error_idle(m("x"))), (m("idle"), m("x"), false, true));
    assert_eq!(fields(ServerMessage::error_connection(m("x"))), (m("connection"), m("x"), true, true));
    assert_eq!(fields(ServerMessage::error_auth(m("x"))), (m("auth"), m("x"), true, false));
    assert_eq!(fields(ServerMessage::error_internal(m("x"))), (m("internal"), m("x"), true, false));
    assert_eq!(fields(ServerMessage::error("custom", m("y"), true, true)), (m("custom"), m("y"), true, true));
}

#[test]
fn error_code_constants() {
    assert_eq!(error_code::IDLE, "idle");
    assert_eq!(error_code::CONNECTION, "connection");
    assert_eq!(error_code::AUTH, "auth");
    assert_eq!(error_code::OVERLOAD, "overload");
    assert_eq!(error_code::PROTOCOL, "protocol");
    assert_eq!(error_code::INTERNAL, "internal");
}

#[test]
fn http_busy_body() {
    let b = HttpError::busy();
    assert_eq!(b.error, "overload");
    assert_eq!(b.code, "overload");
    assert_eq!(b.message, "All ASR slots occupied");
    assert!(!b.fatal);
    assert!(b.retry);
}

#[test]
fn http_auth_body() {
    let b = HttpError::auth();
    assert_eq!(b.error, "auth");
    assert_eq!(b.code, "auth");
    assert_eq!(b.message, "Unauthorized");
    assert!(b.fatal);
    assert!(!b.retry);
}

#[test]
fn span_parts() {
    let s = Span::from_nanos(61_250_000_000);
    assert_eq!(s.as_secs(), 61);
    assert_eq!(s.subsec_nanos(), 250_000_000);
    assert_eq!(s.as_nanos(), 61_250_000_000);
    assert!(Span::from_secs(1).shorter_than(&s));
    assert!(!s.shorter_than(&s));
    let max = Span::from_secs(u64::MAX);
    assert_eq!(max.as_secs(), u64::MAX);
}

use zoe::relay::{
    chat_payload, chat_url, relay_outcome, ProxyOutcome, RelayAttempt, RelayErrorKind,
    RELAY_DEADLINE_MS,
};

#[test]
fn passthrough_keeps_status_and_body() {
    let body = br#"{"ok":true}"#.to_vec();
    let r = relay_outcome(RelayAttempt::Answered { status: 201, body: Some(body.clone()) }, 9500);
    match r {
        ProxyOutcome::Passthrough { status_code, content_type, body: out } => {
            assert_eq!(status_code, 201);
            assert_eq!(content_type, "application/json");
            assert_eq!(out, body);
        }
        ProxyOutcome::RelayError { .. } => panic!("expected a passthrough"),
    }
}

#[test]
fn unreachable_downstream_is_bad_gateway() {
    let r = relay_outcome(RelayAttempt::Failed, 9500);
    match r {
        ProxyOutcome::RelayError { kind, target_port } => {
            assert_eq!(kind, RelayErrorKind::Unreachable);
            assert_eq!(target_port, 9500);
            assert_eq!(kind.http_status(), 502);
            let e = kind.error_body("cipher", target_port);
            assert_eq!(e.error, "cipher daemon unavailable");
            assert_eq!(e.port, 9500);
        }
        ProxyOutcome::Passthrough { .. } => panic!("expected an error"),
    }
}

#[test]
fn slow_downstream_is_gateway_timeout() {
    let r = relay_outcome(RelayAttempt::Expired, 9500);
    match r {
        ProxyOutcome::RelayError { kind, target_port } => {
            assert_eq!(kind, RelayErrorKind::Timeout);
            assert_eq!(target_port, 9500);
            assert_eq!(kind.http_status(), 504);
            assert_eq!(kind.message("cipher"), "cipher daemon timeout");
        }
        ProxyOutcome::Passthrough { .. } => panic!("expected an error"),
    }
    assert_eq!(RELAY_DEADLINE_MS, 10000);
}

#[test]
fn unreadable_body_is_bad_gateway() {
    let r = relay_outcome(RelayAttempt::Answered { status: 200, body: None }, 9600);
    match r {
        ProxyOutcome::RelayError { kind, target_port } => {
            assert_eq!(kind, RelayErrorKind::UpstreamReadFailure);
            assert_eq!(target_port, 9600);
            assert_eq!(kind.http_status(), 502);
            assert_eq!(kind.message("cipher"), "cipher daemon read error");
        }
        ProxyOutcome::Passthrough { .. } => panic!("expected an error"),
    }
}

#[test]
fn error_status_keeps_downstream_code() {
    let r = relay_outcome(RelayAttempt::Answered { status: 500, body: Some(Vec::new()) }, 9500);
    match r {
        ProxyOutcome::Passthrough { status_code, body, .. } => {
            assert_eq!(status_code, 500);
            assert!(body.is_empty());
        }
        ProxyOutcome::RelayError { .. } => panic!("expected a passthrough"),
    }
}

#[test]
fn chat_payload_quotes_the_message() {
    assert_eq!(chat_payload("hello"), r#"{"message":"hello"}"#);
    assert_eq!(chat_payload("say \"hi\"\n"), r#"{"message":"say \"hi\"\n"}"#);
    assert_eq!(chat_payload(""), r#"{"message":""}"#);
}

#[test]
fn chat_url_targets_the_chat_endpoint() {
    assert_eq!(chat_url("localhost", 9500), "http://localhost:9500/api/chat");
}

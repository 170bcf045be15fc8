use nexus::error::{AgentError, ErrorKind, ErrorResponse};

#[test]
fn error_constructors_keep_kind_and_detail() {
    let cases: Vec<(AgentError, ErrorKind)> = vec![
        (AgentError::auth("a"), ErrorKind::Auth),
        (AgentError::api("a"), ErrorKind::Api),
        (AgentError::network("a"), ErrorKind::Network),
        (AgentError::session("a"), ErrorKind::Session),
        (AgentError::not_found("a"), ErrorKind::NotFound),
        (AgentError::invalid_input("a"), ErrorKind::InvalidInput),
        (AgentError::platform_not_available("a"), ErrorKind::PlatformNotAvailable),
        (AgentError::not_implemented("a"), ErrorKind::NotImplemented),
        (AgentError::internal("a"), ErrorKind::Internal),
    ];
    for (e, k) in cases {
        assert_eq!(e.kind(), k);
        assert_eq!(e.detail(), "a");
    }
}

#[test]
fn error_text_names_the_kind() {
    assert_eq!(AgentError::auth("x").to_string(), "authentication failed: x");
    assert_eq!(AgentError::api("x").to_string(), "api error: x");
    assert_eq!(AgentError::network("x").to_string(), "network error: x");
    assert_eq!(AgentError::session("x").to_string(), "session error: x");
    assert_eq!(AgentError::not_found("x").to_string(), "not found: x");
    assert_eq!(AgentError::invalid_input("x").to_string(), "invalid input: x");
    assert_eq!(AgentError::platform_not_available("x").to_string(), "platform not available: x");
    assert_eq!(AgentError::not_implemented("x").to_string(), "not implemented: x");
    assert_eq!(AgentError::internal("x").to_string(), "internal error: x");
}

#[test]
fn error_duplicate_is_the_same_error() {
    let e = AgentError::session("gone");
    let d = e.duplicate();
    assert_eq!(d.kind(), ErrorKind::Session);
    assert_eq!(d.detail(), "gone");
}

#[test]
fn error_response_codes_and_retry_marks() {
    let r = ErrorResponse::from(&AgentError::auth("no"));
    assert_eq!(r.code, "AUTH_ERROR");
    assert_eq!(r.message, "authentication failed: no");
    assert_eq!(r.suggestion, Some("Run `nexus auth telegram` or check GMAIL_APP_PASSWORD env var"));
    assert!(!r.retryable);

    let r = ErrorResponse::from(&AgentError::api("no"));
    assert_eq!(r.code, "API_ERROR");
    assert_eq!(r.suggestion, None);
    assert!(!r.retryable);

    let r = ErrorResponse::from(&AgentError::network("no"));
    assert_eq!(r.code, "NETWORK_ERROR");
    assert_eq!(r.suggestion, Some("Check internet connection and try again"));
    assert!(r.retryable);

    let r = ErrorResponse::from(&AgentError::session("no"));
    assert_eq!(r.code, "SESSION_ERROR");
    assert_eq!(r.suggestion, Some("Session expired. Re-run `nexus auth telegram`"));
    assert!(!r.retryable);

    let r = ErrorResponse::from(&AgentError::not_found("no"));
    assert_eq!(r.code, "NOT_FOUND");
    assert_eq!(r.suggestion, Some("Use list_channels to find valid channel names/IDs"));

    let r = ErrorResponse::from(&AgentError::invalid_input("no"));
    assert_eq!(r.code, "INVALID_INPUT");
    assert_eq!(r.suggestion, None);

    let r = ErrorResponse::from(&AgentError::platform_not_available("no"));
    assert_eq!(r.code, "PLATFORM_NOT_AVAILABLE");
    assert_eq!(r.suggestion, Some("Platform not configured. Set required env vars and restart"));

    let r = ErrorResponse::from(&AgentError::not_implemented("no"));
    assert_eq!(r.code, "NOT_IMPLEMENTED");
    assert_eq!(r.suggestion, Some("This feature is not yet available"));

    let r = ErrorResponse::from(&AgentError::internal("no"));
    assert_eq!(r.code, "INTERNAL_ERROR");
    assert_eq!(r.suggestion, Some("Unexpected error"));
    assert!(r.retryable);
}

#[test]
fn error_compact_form_of_each_shape() {
    assert_eq!(
        ErrorResponse::from(&AgentError::api("boom")).to_compact(),
        "[API_ERROR] api error: boom"
    );
    assert_eq!(
        ErrorResponse::from(&AgentError::not_found("chat 'x' not found")).to_compact(),
        "[NOT_FOUND] not found: chat 'x' not found | Suggestion: Use list_channels to find valid channel names/IDs"
    );
    assert_eq!(
        ErrorResponse::from(&AgentError::network("request timed out after 30s")).to_compact(),
        "[NETWORK_ERROR] network error: request timed out after 30s | Suggestion: Check internet connection and try again | (retryable)"
    );
}

#[test]
fn error_compact_form_of_a_hand_made_response() {
    let r = ErrorResponse { code: "X", message: "m".to_string(), suggestion: None, retryable: true };
    assert_eq!(r.to_compact(), "[X] m | (retryable)");
    let r = ErrorResponse { code: "X", message: String::new(), suggestion: Some("s"), retryable: false };
    assert_eq!(r.to_compact(), "[X]  | Suggestion: s");
}

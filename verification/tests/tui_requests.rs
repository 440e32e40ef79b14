use codex_controller::ids::ConnectionId;
use codex_controller::tui_requests::{
    accept_error_is_recoverable, auth_refresh_failure_message, auth_refresh_recipients,
    AcceptErrorKind, AuthRefreshFailure, ServerRequestRecipients,
};

#[test]
fn token_refresh_goes_to_the_registered_tui() {
    assert_eq!(
        auth_refresh_recipients(Some(ConnectionId(1))),
        ServerRequestRecipients::Connection(ConnectionId(1))
    );
    assert_eq!(auth_refresh_recipients(None), ServerRequestRecipients::Broadcast);
}

#[test]
fn token_refresh_failures_read_as_the_server_reports_them() {
    assert_eq!(
        auth_refresh_failure_message(&AuthRefreshFailure::Canceled {
            error: "channel closed".to_string(),
        }),
        "auth refresh request canceled: channel closed"
    );
    assert_eq!(
        auth_refresh_failure_message(&AuthRefreshFailure::Failed {
            code: -32600,
            message: "bad".to_string(),
        }),
        "auth refresh request failed: code=-32600 message=bad"
    );
    assert_eq!(
        auth_refresh_failure_message(&AuthRefreshFailure::Failed {
            code: i64::MIN,
            message: String::new(),
        }),
        format!("auth refresh request failed: code={} message=", i64::MIN)
    );
    assert_eq!(
        auth_refresh_failure_message(&AuthRefreshFailure::Failed {
            code: 7,
            message: "x".to_string(),
        }),
        "auth refresh request failed: code=7 message=x"
    );
    assert_eq!(
        auth_refresh_failure_message(&AuthRefreshFailure::TimedOut),
        "auth refresh request timed out after 10s"
    );
}

#[test]
fn only_peer_level_accept_failures_are_retried() {
    assert!(accept_error_is_recoverable(AcceptErrorKind::ConnectionAborted));
    assert!(accept_error_is_recoverable(AcceptErrorKind::ConnectionReset));
    assert!(accept_error_is_recoverable(AcceptErrorKind::Interrupted));
    assert!(!accept_error_is_recoverable(AcceptErrorKind::Other));
}

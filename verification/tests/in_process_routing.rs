use codex_controller::in_process_routing::{
    route_client_notification, route_client_request, route_server_notification,
    server_request_failure, settle_client_response, ClientRequestAction, InProcessErrorKind,
    NotificationAction, PendingRequestIds, QueueSendOutcome, RequestKey,
};

#[test]
fn forwarded_requests_stay_pending_until_their_response() {
    let mut pending = PendingRequestIds::new();
    assert_eq!(
        route_client_request(&mut pending, RequestKey::Integer(1), QueueSendOutcome::Sent),
        ClientRequestAction::Forward
    );
    assert!(pending.contains(&RequestKey::Integer(1)));
    assert!(!pending.contains(&RequestKey::Text("1".to_string())));
    assert!(settle_client_response(&mut pending, &RequestKey::Integer(1)));
    assert!(!pending.contains(&RequestKey::Integer(1)));
    assert!(!settle_client_response(&mut pending, &RequestKey::Integer(1)));
}

#[test]
fn duplicate_request_ids_are_rejected() {
    let mut pending = PendingRequestIds::new();
    route_client_request(&mut pending, RequestKey::Text("a".to_string()), QueueSendOutcome::Sent);
    assert_eq!(
        route_client_request(&mut pending, RequestKey::Text("a".to_string()), QueueSendOutcome::Sent),
        ClientRequestAction::RejectDuplicate
    );
    assert!(pending.contains(&RequestKey::Text("a".to_string())));
}

#[test]
fn full_and_closed_request_queues_fail_the_request() {
    let mut pending = PendingRequestIds::new();
    assert_eq!(
        route_client_request(&mut pending, RequestKey::Integer(2), QueueSendOutcome::Full),
        ClientRequestAction::FailOverloaded {
            message: "in-process app-server request queue is full".to_string()
        }
    );
    assert!(!pending.contains(&RequestKey::Integer(2)));
    assert_eq!(
        route_client_request(&mut pending, RequestKey::Integer(3), QueueSendOutcome::Closed),
        ClientRequestAction::FailClosedAndStop {
            message: "in-process app-server request processor is closed".to_string()
        }
    );
    assert!(!pending.contains(&RequestKey::Integer(3)));
}

#[test]
fn notifications_are_dropped_or_stop_the_loop() {
    assert_eq!(route_client_notification(QueueSendOutcome::Sent), NotificationAction::Delivered);
    assert_eq!(route_client_notification(QueueSendOutcome::Full), NotificationAction::Dropped);
    assert_eq!(route_client_notification(QueueSendOutcome::Closed), NotificationAction::Stop);
    assert_eq!(route_server_notification(false, QueueSendOutcome::Full), NotificationAction::Dropped);
    assert_eq!(route_server_notification(true, QueueSendOutcome::Closed), NotificationAction::Stop);
    assert_eq!(route_server_notification(true, QueueSendOutcome::Sent), NotificationAction::Delivered);
}

#[test]
fn server_requests_that_cannot_be_queued_are_failed_back() {
    assert!(server_request_failure(QueueSendOutcome::Sent).is_none());
    let full = server_request_failure(QueueSendOutcome::Full).expect("failed back");
    assert_eq!(full.kind, InProcessErrorKind::Overloaded);
    assert_eq!(full.message, "in-process server request queue is full");
    let closed = server_request_failure(QueueSendOutcome::Closed).expect("failed back");
    assert_eq!(closed.kind, InProcessErrorKind::Internal);
    assert_eq!(closed.message, "in-process server request consumer is closed");
}

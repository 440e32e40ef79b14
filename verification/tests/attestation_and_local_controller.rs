use codex_controller::attestation::{
    app_server_attestation_header_value, attestation_header_for_reply, AppServerAttestationStatus,
    AttestationReply,
};
use codex_controller::local_controller::{
    acceptor_failure, authorize_local_controller_upgrade,
    ensure_local_controller_endpoint_available, launch_id_from_metadata_file_name,
    local_controller_endpoint_file_names, local_controller_endpoint_support,
    endpoint_support_for_platform, main_thread_publication, stale_entry_is_removable,
    MainThreadPublication,
    probe_reports_running, process_id_is_probeable, unix_seconds_as_i64, validate_launch_id,
    verify_peer_credentials, LaunchNonceHeader, LocalControllerEndpointMetadata,
    LocalControllerEndpointSupport, LocalControllerErrorKind, LocalControllerUnavailableReason,
    PeerCredentials,
};
use codex_controller::in_process::{
    InProcessLocalControllerEndpointConfig, InProcessLocalControllerEndpointStatus,
    NativeControllerParticipationDecision, NativeControllerParticipationRequest,
    NativeControllerParticipationRequestId, NativeParticipationRequests,
};
use codex_controller::ids::ConnectionId;
use codex_controller::in_process::{server_notification_requires_delivery, ServerNotificationKind};

#[test]
fn app_server_attestation_header_value_wraps_opaque_client_payloads() {
    assert_eq!(
        app_server_attestation_header_value(
            AppServerAttestationStatus::Attested,
            Some("v1.opaque-client-payload"),
        ),
        Some(r#"{"v":1,"s":0,"t":"v1.opaque-client-payload"}"#.to_string())
    );
}

#[test]
fn app_server_attestation_header_value_reports_app_server_failures() {
    assert_eq!(
        app_server_attestation_header_value(AppServerAttestationStatus::Timeout, None),
        Some(r#"{"v":1,"s":1}"#.to_string())
    );
    assert_eq!(
        app_server_attestation_header_value(AppServerAttestationStatus::RequestFailed, None),
        Some(r#"{"v":1,"s":2}"#.to_string())
    );
    assert_eq!(
        app_server_attestation_header_value(AppServerAttestationStatus::RequestCanceled, None),
        Some(r#"{"v":1,"s":3}"#.to_string())
    );
    assert_eq!(
        app_server_attestation_header_value(AppServerAttestationStatus::MalformedResponse, None),
        Some(r#"{"v":1,"s":4}"#.to_string())
    );
}

#[test]
fn attestation_tokens_are_json_escaped_and_replies_map_to_statuses() {
    assert_eq!(
        app_server_attestation_header_value(AppServerAttestationStatus::Attested, Some("a\"b")),
        Some(r#"{"v":1,"s":0,"t":"a\"b"}"#.to_string())
    );
    assert_eq!(
        attestation_header_for_reply(AttestationReply::Token("tui-attestation".to_string())),
        Some(r#"{"v":1,"s":0,"t":"tui-attestation"}"#.to_string())
    );
    assert_eq!(
        attestation_header_for_reply(AttestationReply::TimedOut),
        Some(r#"{"v":1,"s":1}"#.to_string())
    );
    assert_eq!(
        attestation_header_for_reply(AttestationReply::Failed),
        Some(r#"{"v":1,"s":2}"#.to_string())
    );
    assert_eq!(
        attestation_header_for_reply(AttestationReply::Canceled),
        Some(r#"{"v":1,"s":3}"#.to_string())
    );
    assert_eq!(
        attestation_header_for_reply(AttestationReply::Malformed),
        Some(r#"{"v":1,"s":4}"#.to_string())
    );
    assert_eq!(AppServerAttestationStatus::MalformedResponse.code(), 4);
}

#[test]
fn endpoint_support_reports_available_when_peer_credentials_are_supported() {
    if std::path::MAIN_SEPARATOR == '/' {
        assert_eq!(
            local_controller_endpoint_support(),
            LocalControllerEndpointSupport::Available
        );
    }
}

#[test]
fn endpoint_support_reports_unavailable_without_peer_credentials() {
    if std::path::MAIN_SEPARATOR == '\\' {
        assert_eq!(
            local_controller_endpoint_support(),
            LocalControllerEndpointSupport::Unavailable {
                reason: LocalControllerUnavailableReason::PeerCredentialsUnavailable,
            }
        );
    }
}

#[test]
fn endpoint_unavailable_fallback_is_terminal_before_binding() {
    let err = ensure_local_controller_endpoint_available(LocalControllerEndpointSupport::Unavailable {
        reason: LocalControllerUnavailableReason::PeerCredentialsUnavailable,
    })
    .expect_err("unavailable platform should reject");

    assert_eq!(err.kind, LocalControllerErrorKind::Unsupported);
    assert_eq!(
        err.message,
        "local-controller endpoint is unavailable because peer credential verification is unsupported on this platform"
    );
    assert!(ensure_local_controller_endpoint_available(LocalControllerEndpointSupport::Available).is_ok());
}

#[test]
fn peer_credential_verification_rejects_missing_credentials() {
    let err = verify_peer_credentials(Err("missing".to_string()), 1000)
        .expect_err("missing credentials should reject");

    assert_eq!(err.kind, LocalControllerErrorKind::PermissionDenied);
    assert_eq!(err.message, "missing local-controller peer credentials: missing");
}

#[test]
fn peer_credential_verification_accepts_current_user_and_rejects_mismatch() {
    verify_peer_credentials(Ok(PeerCredentials { user_id: 1000 }), 1000)
        .expect("current user should verify");
    let err = verify_peer_credentials(Ok(PeerCredentials { user_id: 1001 }), 1000)
        .expect_err("different user should reject");
    assert_eq!(err.kind, LocalControllerErrorKind::PermissionDenied);
    assert_eq!(err.message, "local-controller peer belongs to a different user");
}

#[test]
fn launch_ids_name_their_files_and_are_validated() {
    assert!(validate_launch_id("0190a0b2-7c3d-7e4f-8a9b-0c1d2e3f4a5b").is_ok());
    assert!(validate_launch_id("launch_1").is_ok());
    let err = validate_launch_id("").expect_err("empty id");
    assert_eq!(err.kind, LocalControllerErrorKind::InvalidInput);
    assert_eq!(
        err.message,
        "local-controller launch ID must contain only ASCII alphanumeric, '-' or '_' characters"
    );
    assert!(validate_launch_id("../escape").is_err());
    assert!(validate_launch_id("é").is_err());

    let names = local_controller_endpoint_file_names("launch-1").expect("valid id");
    assert_eq!(names.metadata_file_name, "launch-launch-1.json");
    assert_eq!(names.socket_file_name, "codex-launch-1.sock");
    assert!(local_controller_endpoint_file_names("a/b").is_err());

    assert_eq!(
        launch_id_from_metadata_file_name("launch-abc_1.json"),
        Some("abc_1".to_string())
    );
    assert_eq!(launch_id_from_metadata_file_name("launch-.json"), None);
    assert_eq!(launch_id_from_metadata_file_name("launch-a b.json"), None);
    assert_eq!(launch_id_from_metadata_file_name("codex-abc.sock"), None);
    assert_eq!(launch_id_from_metadata_file_name(".tmp"), None);
}

#[test]
fn launch_nonce_is_required_on_upgrade() {
    let missing = authorize_local_controller_upgrade(&LaunchNonceHeader::Missing, "nonce-1")
        .expect_err("missing nonce");
    assert_eq!(missing.status, 401);
    assert_eq!(missing.message, "missing launch nonce");
    let wrong = authorize_local_controller_upgrade(
        &LaunchNonceHeader::Text("nonce-2".to_string()),
        "nonce-1",
    )
    .expect_err("wrong nonce");
    assert_eq!(wrong.status, 401);
    assert_eq!(wrong.message, "invalid launch nonce");
    let not_text = authorize_local_controller_upgrade(&LaunchNonceHeader::NotText, "nonce-1")
        .expect_err("non-text nonce");
    assert_eq!(not_text.message, "invalid launch nonce");
    assert!(authorize_local_controller_upgrade(
        &LaunchNonceHeader::Text("nonce-1".to_string()),
        "nonce-1"
    )
    .is_ok());
}

#[test]
fn metadata_ownership_and_process_probes() {
    let metadata = LocalControllerEndpointMetadata::for_launch(
        "launch-1".to_string(),
        "nonce-1".to_string(),
        "/home/u/.codex/local-controllers/codex-launch-1.sock",
        42,
        1_700_000_000,
        Some("thread-1".to_string()),
    );
    assert_eq!(metadata.version, 1);
    assert_eq!(metadata.protocol_version, 1);
    assert_eq!(
        metadata.endpoint_uri,
        "unix:///home/u/.codex/local-controllers/codex-launch-1.sock"
    );
    assert!(metadata.is_owned_by("launch-1", "nonce-1"));
    assert!(!metadata.is_owned_by("launch-1", "nonce-2"));
    assert!(!metadata.is_owned_by("launch-2", "nonce-1"));

    assert!(!process_id_is_probeable(0));
    assert!(!process_id_is_probeable(i32::MAX as u32 + 1));
    assert!(process_id_is_probeable(1));
    assert!(probe_reports_running(0, None));
    assert!(!probe_reports_running(-1, Some(3)));
    assert!(probe_reports_running(-1, Some(1)));
    assert_eq!(unix_seconds_as_i64(None), 0);
    assert_eq!(unix_seconds_as_i64(Some(u64::MAX)), i64::MAX);
    assert_eq!(unix_seconds_as_i64(Some(5)), 5);
    assert_eq!(
        acceptor_failure("boom").reason,
        "local-controller socket accept error: boom"
    );
}

#[test]
fn native_participation_requests_are_answered_once() {
    let mut requests = NativeParticipationRequests::new();
    let first = requests.begin(NativeControllerParticipationRequest {
        connection_id: ConnectionId(7),
        controller_name: "pad".to_string(),
        description: "external input device".to_string(),
        main_thread_id: "thread-1".to_string(),
    });
    let second = requests.begin(NativeControllerParticipationRequest {
        connection_id: ConnectionId(8),
        controller_name: "pad-2".to_string(),
        description: "second".to_string(),
        main_thread_id: "thread-1".to_string(),
    });
    assert_eq!(first.request_id, NativeControllerParticipationRequestId(0));
    assert_eq!(second.request_id, NativeControllerParticipationRequestId(1));
    assert_eq!(first.controller_name, "pad");
    assert!(requests.finish(first.request_id));
    assert!(!requests.finish(first.request_id));
    assert!(requests.finish(second.request_id));
    assert_eq!(
        codex_controller::in_process::tui_not_available_decision(),
        NativeControllerParticipationDecision::TuiUnavailable {
            reason: "owning TUI is not available for controller participation".to_string(),
        }
    );
}

#[test]
fn endpoint_failure_is_fatal_only_when_enabled() {
    let best_effort = InProcessLocalControllerEndpointConfig::BestEffort {
        main_thread_id: None,
    };
    assert_eq!(best_effort.start_request(), Some(None));
    assert_eq!(
        best_effort.status_after_start(Some(Err("no socket".to_string()))),
        Ok(InProcessLocalControllerEndpointStatus::Unavailable {
            reason: "no socket".to_string(),
        })
    );
    let enabled = InProcessLocalControllerEndpointConfig::Enabled {
        main_thread_id: Some("thread-1".to_string()),
    };
    assert_eq!(enabled.start_request(), Some(Some("thread-1".to_string())));
    assert_eq!(
        enabled.status_after_start(Some(Err("no socket".to_string()))),
        Err("no socket".to_string())
    );
    let disabled = InProcessLocalControllerEndpointConfig::Disabled;
    assert_eq!(disabled.start_request(), None);
    assert_eq!(
        disabled.status_after_start(None),
        Ok(InProcessLocalControllerEndpointStatus::Disabled)
    );
}

#[test]
fn guaranteed_delivery_helpers_cover_transcript_and_terminal_server_notifications() {
    for kind in [
        ServerNotificationKind::TurnCompleted,
        ServerNotificationKind::ThreadStatusChanged,
        ServerNotificationKind::ThreadArchived,
        ServerNotificationKind::ThreadDeleted,
        ServerNotificationKind::ThreadUnarchived,
        ServerNotificationKind::ThreadClosed,
        ServerNotificationKind::ThreadNameUpdated,
        ServerNotificationKind::AgentMessageDelta,
        ServerNotificationKind::PlanDelta,
        ServerNotificationKind::ReasoningSummaryTextDelta,
        ServerNotificationKind::ReasoningTextDelta,
        ServerNotificationKind::ItemCompleted,
        ServerNotificationKind::ExternalAgentConfigImportCompleted,
    ] {
        assert!(server_notification_requires_delivery(kind), "{kind:?}");
    }
    assert!(server_notification_requires_delivery(ServerNotificationKind::ControllerControlOwnershipChanged));
    assert!(!server_notification_requires_delivery(ServerNotificationKind::Other));
}

#[test]
fn endpoint_support_follows_the_platform_path_separator() {
    assert_eq!(endpoint_support_for_platform(false), LocalControllerEndpointSupport::Available);
    assert_eq!(
        endpoint_support_for_platform(true),
        LocalControllerEndpointSupport::Unavailable {
            reason: LocalControllerUnavailableReason::PeerCredentialsUnavailable,
        }
    );
}

fn unpublished_metadata() -> LocalControllerEndpointMetadata {
    LocalControllerEndpointMetadata {
        version: 1,
        launch_id: "launch-1".to_string(),
        launch_nonce: "nonce".to_string(),
        endpoint_uri: "unix:///tmp/socket".to_string(),
        process_id: 42,
        created_at: 0,
        protocol_version: 1,
        main_thread_id: None,
    }
}

#[test]
fn main_thread_is_published_once_and_not_after_the_acceptor_stops() {
    let mut metadata = unpublished_metadata();
    assert_eq!(
        main_thread_publication(&metadata, false),
        Ok(MainThreadPublication::Publish)
    );
    let error = main_thread_publication(&metadata, true).expect_err("the acceptor is closed");
    assert_eq!(error.kind, LocalControllerErrorKind::BrokenPipe);
    assert_eq!(error.message, "local-controller endpoint acceptor is closed");
    metadata.main_thread_id = Some("thread-1".to_string());
    assert_eq!(
        main_thread_publication(&metadata, true),
        Ok(MainThreadPublication::AlreadyPublished)
    );
}

#[test]
fn only_entries_of_their_own_launch_with_a_gone_process_are_pruned() {
    assert!(stale_entry_is_removable("launch-1", "launch-1", false));
    assert!(!stale_entry_is_removable("launch-1", "launch-1", true));
    assert!(!stale_entry_is_removable("launch-2", "launch-1", false));
}

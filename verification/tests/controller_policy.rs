use codex_controller::controller_gate::{
    after_controller_authorization, begin_controller_gate, disconnect_after_response,
    precheck_initialized_request, require_controller_reservation, serialization_priority,
    ControllerGateCheck, ControllerGateStep, DispatchRefusal, SerializationPriority,
};
use codex_controller::admission::{
    client_request_rule, AdmissionRule, RequiredAuthority, TargetExtraction,
};
use codex_controller::controller_policy::{
    controller_request_target, primary_input_reclaim_thread_id,
    reject_controller_descendant_thread_targets,
    reject_controller_tui_only_params, thread_collection_scope, ConnectionOrigin,
    ControllerNotAllowed, ControllerRequestFacts, ControllerRequestShape,
    ControllerRequestTarget, RealtimeStartOverrides, ThreadListScope, ThreadResumeOverrides,
    TurnStartOverrides,
};
use codex_controller::cursor::ControllerNormalAuthorization;
use codex_controller::protocol::ControllerErrorCode;

fn assert_not_allowed(error: ControllerNotAllowed) {
    assert_eq!(error.code(), ControllerErrorCode::ControllerNotAllowed);
}

fn thread_resume(overrides: ThreadResumeOverrides) -> ControllerRequestShape {
    ControllerRequestShape::ThreadResume {
        thread_id: "thread-1".to_string(),
        overrides,
    }
}

#[test]
fn controller_thread_resume_allows_read_shape_params_only() {
    assert!(reject_controller_tui_only_params(&thread_resume(ThreadResumeOverrides::default())).is_ok());

    let unsafe_params: Vec<(&str, fn(&mut ThreadResumeOverrides))> = vec![
        ("history", |o| o.history = true),
        ("path", |o| o.path = true),
        ("model", |o| o.model = true),
        ("model_provider", |o| o.model_provider = true),
        ("service_tier", |o| o.service_tier = true),
        ("cwd", |o| o.cwd = true),
        ("runtime_workspace_roots", |o| o.runtime_workspace_roots = true),
        ("approval_policy", |o| o.approval_policy = true),
        ("approvals_reviewer", |o| o.approvals_reviewer = true),
        ("sandbox", |o| o.sandbox = true),
        ("permissions", |o| o.permissions = true),
        ("config", |o| o.config = true),
        ("base_instructions", |o| o.base_instructions = true),
        ("developer_instructions", |o| o.developer_instructions = true),
        ("personality", |o| o.personality = true),
    ];
    for (field_name, set) in unsafe_params {
        let mut overrides = ThreadResumeOverrides::default();
        set(&mut overrides);
        let error = reject_controller_tui_only_params(&thread_resume(overrides))
            .expect_err("unsafe controller thread/resume params should be rejected");
        assert_eq!(
            error.code(),
            ControllerErrorCode::ControllerNotAllowed,
            "{field_name} must stay TUI-only for external-controller thread/resume"
        );
    }
}

#[test]
fn controller_turn_start_rejects_context_and_config_overrides() {
    assert!(reject_controller_tui_only_params(&ControllerRequestShape::TurnStart {
        overrides: TurnStartOverrides::default(),
    })
    .is_ok());

    let unsafe_params: Vec<(&str, fn(&mut TurnStartOverrides))> = vec![
        ("additional_context", |o| o.additional_context = true),
        ("environments", |o| o.environments = true),
        ("cwd", |o| o.cwd = true),
        ("runtime_workspace_roots", |o| o.runtime_workspace_roots = true),
        ("approval_policy", |o| o.approval_policy = true),
        ("approvals_reviewer", |o| o.approvals_reviewer = true),
        ("sandbox_policy", |o| o.sandbox_policy = true),
        ("permissions", |o| o.permissions = true),
        ("model", |o| o.model = true),
        ("service_tier", |o| o.service_tier = true),
        ("effort", |o| o.effort = true),
        ("summary", |o| o.summary = true),
        ("personality", |o| o.personality = true),
        ("output_schema", |o| o.output_schema = true),
        ("collaboration_mode", |o| o.collaboration_mode = true),
        ("multi_agent_mode", |o| o.multi_agent_mode = true),
    ];
    for (field_name, set) in unsafe_params {
        let mut overrides = TurnStartOverrides::default();
        set(&mut overrides);
        let error = reject_controller_tui_only_params(&ControllerRequestShape::TurnStart { overrides })
            .expect_err("unsafe controller turn/start params should be rejected");
        assert_eq!(
            error.code(),
            ControllerErrorCode::ControllerNotAllowed,
            "{field_name} must stay TUI-only for external-controller turn/start"
        );
    }
}

#[test]
fn controller_turn_steer_rejects_additional_context_override() {
    assert!(reject_controller_tui_only_params(&ControllerRequestShape::TurnSteer {
        additional_context: false,
    })
    .is_ok());
    let error = reject_controller_tui_only_params(&ControllerRequestShape::TurnSteer {
        additional_context: true,
    })
    .expect_err("controller turn/steer additional context should be rejected");
    assert_not_allowed(error);
}

#[test]
fn controller_thread_section_move_rejects_before_thread_target() {
    assert!(reject_controller_tui_only_params(&ControllerRequestShape::ThreadSectionMove {
        before_thread_id: false,
    })
    .is_ok());
    let error = reject_controller_tui_only_params(&ControllerRequestShape::ThreadSectionMove {
        before_thread_id: true,
    })
    .expect_err("controller section move must not target another thread");
    assert_not_allowed(error);
}

#[test]
fn controller_realtime_start_allows_input_transport_shape_only() {
    assert!(reject_controller_tui_only_params(&ControllerRequestShape::ThreadRealtimeStart {
        overrides: RealtimeStartOverrides::default(),
    })
    .is_ok());
    let unsafe_params: Vec<(&str, fn(&mut RealtimeStartOverrides))> = vec![
        ("client_managed_handoffs", |o| o.client_managed_handoffs = true),
        ("delegation_ack_filler", |o| o.delegation_ack_filler = true),
        ("flush_transcript_tail_on_session_end", |o| {
            o.flush_transcript_tail_on_session_end = true
        }),
        ("codex_responses_as_items", |o| o.codex_responses_as_items = true),
        ("codex_response_item_prefix", |o| o.codex_response_item_prefix = true),
        ("codex_response_handoff_mode", |o| o.codex_response_handoff_mode = true),
        ("codex_response_handoff_channel_prefixes", |o| {
            o.codex_response_handoff_channel_prefixes = true
        }),
        ("model", |o| o.model = true),
        ("include_startup_context", |o| o.include_startup_context = true),
        ("initial_items", |o| o.initial_items = true),
        ("realtime_start_instructions", |o| o.realtime_start_instructions = true),
        ("realtime_end_instructions", |o| o.realtime_end_instructions = true),
        ("prompt", |o| o.prompt = true),
        ("version", |o| o.version = true),
    ];
    for (field_name, set) in unsafe_params {
        let mut overrides = RealtimeStartOverrides::default();
        set(&mut overrides);
        let error = reject_controller_tui_only_params(&ControllerRequestShape::ThreadRealtimeStart {
            overrides,
        })
        .expect_err("unsafe controller thread/realtime/start params should be rejected");
        assert_eq!(
            error.code(),
            ControllerErrorCode::ControllerNotAllowed,
            "{field_name} must stay TUI-only for external-controller thread/realtime/start"
        );
    }
}

#[test]
fn controller_realtime_append_text_allows_user_role_only() {
    assert!(reject_controller_tui_only_params(&ControllerRequestShape::ThreadRealtimeAppendText {
        user_role: true,
    })
    .is_ok());
    let error = reject_controller_tui_only_params(&ControllerRequestShape::ThreadRealtimeAppendText {
        user_role: false,
    })
    .expect_err("controller realtime append text roles other than user should be rejected");
    assert_not_allowed(error);
}

#[test]
fn controller_review_start_rejects_detached_delivery() {
    assert!(reject_controller_tui_only_params(&ControllerRequestShape::ReviewStart {
        detached_delivery: false,
    })
    .is_ok());
    let error = reject_controller_tui_only_params(&ControllerRequestShape::ReviewStart {
        detached_delivery: true,
    })
    .expect_err("controller detached review/start should be rejected");
    assert_not_allowed(error);
    assert_eq!(
        error_message(ControllerRequestShape::ReviewStart {
            detached_delivery: true,
        }),
        "external controller review/start may only run inline on the authorized main thread"
    );
}

fn error_message(shape: ControllerRequestShape) -> String {
    reject_controller_tui_only_params(&shape)
        .expect_err("should be rejected")
        .message
}

#[test]
fn exact_controller_thread_target_uses_serialization_scope() {
    let thread_id = "00000000-0000-0000-0000-000000000456";
    for method in ["turn/interrupt", "thread/backgroundTerminals/list", "thread/unsubscribe"] {
        assert_exact_thread_target(
            ControllerRequestFacts {
                shape: ControllerRequestShape::Other,
                serialization_thread_id: Some(thread_id.to_string()),
            },
            method,
            thread_id,
        );
    }
}

#[test]
fn exact_controller_thread_target_handles_concurrent_read_methods() {
    let thread_id = "00000000-0000-0000-0000-000000000789";
    assert_exact_thread_target(
        ControllerRequestFacts {
            shape: ControllerRequestShape::ThreadTurnsList {
                thread_id: thread_id.to_string(),
            },
            serialization_thread_id: None,
        },
        "thread/turns/list",
        thread_id,
    );
    assert_exact_thread_target(
        ControllerRequestFacts {
            shape: ControllerRequestShape::ThreadSearchOccurrences {
                thread_id: thread_id.to_string(),
            },
            serialization_thread_id: None,
        },
        "thread/searchOccurrences",
        thread_id,
    );
}

#[test]
fn collection_filtered_controller_targets_cover_admitted_collections() {
    for (shape, method) in [
        (ControllerRequestShape::ThreadList, "thread/list"),
        (ControllerRequestShape::ThreadSectionList, "threadSection/list"),
        (ControllerRequestShape::ThreadSearch, "thread/search"),
        (ControllerRequestShape::ThreadLoadedList, "thread/loaded/list"),
    ] {
        let rule = client_request_rule(method).expect("method should be admitted");
        let target = controller_request_target(
            &ControllerRequestFacts {
                shape,
                serialization_thread_id: None,
            },
            rule,
        )
        .expect("target extraction should pass");
        assert_eq!(target, ControllerRequestTarget::CollectionFiltered, "{method}");
    }
}

#[test]
fn optional_exact_controller_thread_target_must_be_present() {
    let rule = client_request_rule("mcpServer/resource/read")
        .expect("mcpServer/resource/read should be admitted");
    let request = ControllerRequestFacts {
        shape: ControllerRequestShape::McpResourceRead { thread_id: None },
        serialization_thread_id: None,
    };
    let error = match controller_request_target(&request, rule) {
        Ok(_) => panic!("controller resource reads must name the granted thread"),
        Err(error) => error,
    };
    assert_not_allowed(error);
}

#[test]
fn primary_thread_input_reclaims_for_owner_and_tui_only_thread_mutations() {
    let thread_id = "thread-1";
    assert_eq!(
        primary_input_reclaim_thread_id(
            ConnectionOrigin::InProcess,
            rule(RequiredAuthority::ActiveOwner),
            Some(thread_id),
        ),
        Some(thread_id)
    );
    assert_eq!(
        primary_input_reclaim_thread_id(
            ConnectionOrigin::InProcess,
            rule(RequiredAuthority::TuiOnly),
            Some(thread_id),
        ),
        Some(thread_id)
    );
    assert_eq!(
        primary_input_reclaim_thread_id(
            ConnectionOrigin::InProcess,
            rule(RequiredAuthority::StandingSession),
            Some(thread_id),
        ),
        None
    );
    assert_eq!(
        primary_input_reclaim_thread_id(
            ConnectionOrigin::ExternalController,
            rule(RequiredAuthority::TuiOnly),
            Some(thread_id),
        ),
        None
    );
}

#[test]
fn thread_resume_extracts_exact_controller_thread_target() {
    let thread_id = "00000000-0000-0000-0000-000000000123".to_string();
    assert_exact_thread_target(
        ControllerRequestFacts {
            shape: ControllerRequestShape::ThreadResume {
                thread_id: thread_id.clone(),
                overrides: ThreadResumeOverrides::default(),
            },
            serialization_thread_id: None,
        },
        "thread/resume",
        &thread_id,
    );
}

#[test]
fn unsupported_shapes_have_no_controller_target() {
    let error = controller_request_target(
        &ControllerRequestFacts {
            shape: ControllerRequestShape::Other,
            serialization_thread_id: None,
        },
        rule(RequiredAuthority::ActiveOwner),
    )
    .expect_err("no target can be extracted");
    assert_eq!(
        error.message,
        "external controller target extraction is not enabled for this method"
    );
    let error = controller_request_target(
        &ControllerRequestFacts {
            shape: ControllerRequestShape::Other,
            serialization_thread_id: None,
        },
        AdmissionRule {
            target: TargetExtraction::CollectionFiltered,
            required_authority: RequiredAuthority::StandingSession,
        },
    )
    .expect_err("not a collection");
    assert_eq!(
        error.message,
        "external controller collection filtering is not enabled for this method"
    );
}

#[test]
fn collection_scope_follows_the_controller_authorization() {
    assert_eq!(thread_collection_scope(&None), ThreadListScope::All);
    assert_eq!(
        thread_collection_scope(&Some(ControllerNormalAuthorization {
            main_thread_id: "main".to_string(),
            filter_collection_to_main_thread: false,
        })),
        ThreadListScope::All
    );
    assert_eq!(
        thread_collection_scope(&Some(ControllerNormalAuthorization {
            main_thread_id: "main".to_string(),
            filter_collection_to_main_thread: true,
        })),
        ThreadListScope::SingleThread("main".to_string())
    );
}

fn assert_exact_thread_target(request: ControllerRequestFacts, method: &str, expected_thread_id: &str) {
    let rule = client_request_rule(method).expect("method should be admitted");
    let target = controller_request_target(&request, rule).expect("target extraction should pass");
    match target {
        ControllerRequestTarget::ExactThread(actual) => assert_eq!(actual, expected_thread_id),
        ControllerRequestTarget::NoTarget | ControllerRequestTarget::CollectionFiltered => {
            panic!("{method} should extract an exact thread target")
        }
    }
}

fn rule(required_authority: RequiredAuthority) -> AdmissionRule {
    AdmissionRule {
        target: TargetExtraction::ExactThread,
        required_authority,
    }
}

#[test]
fn descendant_thread_targets_are_refused_only_with_spawned_children() {
    assert!(reject_controller_descendant_thread_targets("thread/archive", 0).is_ok());
    assert!(reject_controller_descendant_thread_targets("thread/archive", 1).is_ok());
    let error = reject_controller_descendant_thread_targets("thread/delete", 2)
        .expect_err("a thread with a spawned child is refused");
    assert_eq!(
        error.message,
        "external controller thread/delete may not target spawned descendant threads"
    );
    assert_not_allowed(error);
}

#[test]
fn controller_gate_applies_outside_the_control_plane_only() {
    let list = ControllerRequestFacts {
        shape: ControllerRequestShape::ThreadList,
        serialization_thread_id: None,
    };
    let list_rule = client_request_rule("thread/list").expect("thread/list is listed");
    assert_eq!(
        begin_controller_gate(ConnectionOrigin::Stdio, "thread/list", &list, list_rule),
        ControllerGateStep::Ungated
    );
    assert_eq!(
        begin_controller_gate(
            ConnectionOrigin::ExternalController,
            "controller/acquireControl",
            &list,
            list_rule
        ),
        ControllerGateStep::Ungated
    );
    assert_eq!(
        begin_controller_gate(ConnectionOrigin::ExternalController, "thread/list", &list, list_rule),
        ControllerGateStep::Authorize {
            target: ControllerRequestTarget::CollectionFiltered
        }
    );
    let refused = begin_controller_gate(
        ConnectionOrigin::ExternalController,
        "thread/list",
        &ControllerRequestFacts {
            shape: ControllerRequestShape::Other,
            serialization_thread_id: None,
        },
        list_rule,
    );
    match refused {
        ControllerGateStep::Refused(error) => assert_eq!(
            error.message,
            "external controller collection filtering is not enabled for this method"
        ),
        other => panic!("expected a refusal, got {other:?}"),
    }

    let archive = ControllerRequestFacts {
        shape: ControllerRequestShape::ThreadArchive {
            thread_id: "thread-2".to_string(),
        },
        serialization_thread_id: None,
    };
    assert_eq!(
        after_controller_authorization(&archive),
        ControllerGateCheck::CheckDescendants {
            method: "thread/archive".to_string(),
            thread_id: "thread-2".to_string(),
        }
    );
    assert_eq!(after_controller_authorization(&list), ControllerGateCheck::UnbindCursors);
    let steer = ControllerRequestFacts {
        shape: ControllerRequestShape::TurnSteer {
            additional_context: true,
        },
        serialization_thread_id: None,
    };
    match after_controller_authorization(&steer) {
        ControllerGateCheck::Refused(error) => assert_not_allowed(error),
        other => panic!("expected a refusal, got {other:?}"),
    }
    assert!(disconnect_after_response("controller/signOff"));
    assert!(!disconnect_after_response("controller/acquireControl"));
}

#[test]
fn initialized_requests_are_prechecked_reserved_and_prioritized() {
    assert_eq!(
        precheck_initialized_request(false, None, true),
        Err(DispatchRefusal::NotInitialized)
    );
    assert_eq!(
        precheck_initialized_request(true, Some("thread/realtime".to_string()), false),
        Err(DispatchRefusal::ExperimentalApiRequired {
            reason: "thread/realtime".to_string()
        })
    );
    assert_eq!(precheck_initialized_request(true, Some("x".to_string()), true), Ok(()));
    assert_eq!(precheck_initialized_request(true, None, false), Ok(()));
    assert_eq!(
        require_controller_reservation(ConnectionOrigin::ExternalController, false),
        Err(DispatchRefusal::ControllerOverloaded)
    );
    assert_eq!(require_controller_reservation(ConnectionOrigin::ExternalController, true), Ok(()));
    assert_eq!(require_controller_reservation(ConnectionOrigin::Stdio, false), Ok(()));
    assert_eq!(
        serialization_priority(ConnectionOrigin::ExternalController),
        SerializationPriority::ExternalController
    );
    assert_eq!(
        serialization_priority(ConnectionOrigin::WebSocket),
        SerializationPriority::Primary
    );
}

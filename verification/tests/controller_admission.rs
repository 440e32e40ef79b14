use std::collections::BTreeSet;

use codex_controller::admission::{
    client_request_admission, client_request_rule, continuation_admission,
    continuation_rule_for, server_request_response_admission, server_request_response_rule,
    AdmissionRule, ContinuationKind, RequiredAuthority, TargetExtraction,
};

#[test]
fn method_registries_do_not_duplicate_entries() {
    assert_no_duplicates(
        client_request_admission()
            .iter()
            .map(|entry| entry.method)
            .collect(),
    );
    assert_no_duplicates(
        server_request_response_admission()
            .iter()
            .map(|entry| entry.method)
            .collect(),
    );
}

#[test]
fn unknown_methods_default_to_denied() {
    assert_eq!(client_request_rule("controller/newMutation"), None);
    assert_eq!(
        server_request_response_rule("item/unknown/requestApproval"),
        None
    );
}

#[test]
fn controller_handshake_methods_have_expected_authority() {
    assert_eq!(
        client_request_rule("controller/requestParticipation"),
        Some(rule(
            TargetExtraction::NoTarget,
            RequiredAuthority::PreParticipation
        ))
    );
    assert_eq!(
        client_request_rule("controller/acquireControl"),
        Some(rule(
            TargetExtraction::MainThreadOnly,
            RequiredAuthority::StandingSession
        ))
    );
    assert_eq!(
        client_request_rule("controller/releaseControl"),
        Some(rule(
            TargetExtraction::MainThreadOnly,
            RequiredAuthority::StandingSession
        ))
    );
    assert_eq!(
        client_request_rule("controller/signOff"),
        Some(rule(
            TargetExtraction::MainThreadOnly,
            RequiredAuthority::StandingSession
        ))
    );
}

#[test]
fn normal_main_thread_interface_is_split_by_authority() {
    assert_eq!(
        client_request_rule("thread/list"),
        Some(rule(
            TargetExtraction::CollectionFiltered,
            RequiredAuthority::StandingSession
        ))
    );
    assert_eq!(
        client_request_rule("thread/read"),
        Some(rule(
            TargetExtraction::ExactThread,
            RequiredAuthority::StandingSession
        ))
    );
    assert_eq!(
        client_request_rule("turn/start"),
        Some(rule(
            TargetExtraction::ExactThread,
            RequiredAuthority::ActiveOwner
        ))
    );
    assert_eq!(
        client_request_rule("turn/interrupt"),
        Some(rule(
            TargetExtraction::ExactThread,
            RequiredAuthority::ActiveOwner
        ))
    );
}

#[test]
fn context_changing_surfaces_remain_tui_only() {
    for method in [
        "thread/start",
        "thread/resume",
        "thread/fork",
        "thread/goal/set",
        "thread/goal/clear",
        "thread/settings/update",
        "thread/memoryMode/set",
        "memory/reset",
        "thread/compact/start",
        "thread/rollback",
        "thread/inject_items",
    ] {
        assert_eq!(
            client_request_rule(method).map(|rule| rule.required_authority),
            Some(RequiredAuthority::TuiOnly),
            "{method} must stay TUI-only until controller context safety is reviewed"
        );
    }
}

#[test]
fn server_request_responses_are_bound_to_interactive_owner() {
    for method in [
        "item/commandExecution/requestApproval",
        "item/fileChange/requestApproval",
        "item/tool/requestUserInput",
        "mcpServer/elicitation/request",
        "item/permissions/requestApproval",
        "item/tool/call",
        "currentTime/read",
    ] {
        assert_eq!(
            server_request_response_rule(method),
            Some(rule(
                TargetExtraction::ExactThread,
                RequiredAuthority::ActiveOwner
            )),
            "{method} should require the current interactive owner"
        );
    }
}

#[test]
fn process_wide_server_requests_remain_tui_only() {
    for method in [
        "account/chatgptAuthTokens/refresh",
        "attestation/generate",
        "applyPatchApproval",
        "execCommandApproval",
    ] {
        assert_eq!(
            server_request_response_rule(method),
            Some(rule(TargetExtraction::NoTarget, RequiredAuthority::TuiOnly)),
            "{method} must not be routed to controllers"
        );
    }
}

#[test]
fn continuation_registry_covers_known_binding_kinds() {
    let expected: BTreeSet<_> = ContinuationKind::all().into_iter().collect();
    let actual: BTreeSet<_> = continuation_admission()
        .iter()
        .map(|entry| entry.kind)
        .collect();
    assert_eq!(actual, expected);
}

#[test]
fn continuation_rules_are_connection_bound() {
    assert_eq!(
        continuation_rule_for(ContinuationKind::Cursor),
        rule(
            TargetExtraction::MainThreadOnly,
            RequiredAuthority::StandingSession
        )
    );
    assert_eq!(
        continuation_rule_for(ContinuationKind::Subscription),
        rule(
            TargetExtraction::MainThreadOnly,
            RequiredAuthority::StandingSession
        )
    );
    assert_eq!(
        continuation_rule_for(ContinuationKind::ImplicitTarget),
        rule(
            TargetExtraction::MainThreadOnly,
            RequiredAuthority::StandingSession
        )
    );
    assert_eq!(
        continuation_rule_for(ContinuationKind::ResumeToken),
        rule(TargetExtraction::MainThreadOnly, RequiredAuthority::TuiOnly)
    );
}

#[test]
fn registries_keep_their_reviewed_sizes_and_first_entries() {
    let client = client_request_admission();
    assert_eq!(client.len(), 136);
    assert_eq!(client[0].method, "initialize");
    assert_eq!(
        client_request_rule("initialize"),
        Some(rule(TargetExtraction::NoTarget, RequiredAuthority::PreParticipation))
    );
    assert_eq!(
        client_request_rule("fuzzyFileSearch/sessionStop"),
        Some(rule(TargetExtraction::NoTarget, RequiredAuthority::TuiOnly))
    );
    assert_eq!(server_request_response_admission().len(), 11);
    assert_eq!(client_request_rule(""), None);
    assert_eq!(client_request_rule("thread/list "), None);
}

fn assert_no_duplicates(methods: Vec<&'static str>) {
    let method_count = methods.len();
    let unique_method_count = methods.into_iter().collect::<BTreeSet<_>>().len();
    assert_eq!(method_count, unique_method_count);
}

fn rule(target: TargetExtraction, required_authority: RequiredAuthority) -> AdmissionRule {
    AdmissionRule {
        target,
        required_authority,
    }
}

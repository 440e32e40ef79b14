//! Controller admission policy registry: the default-deny review table of
//! which authority each client request, server-request response and
//! continuation needs, and how its target thread is extracted.

use vstd::prelude::*;

use crate::text::same_text;

verus! {

/// How the target thread of a request is found.
#[derive(Clone, Copy, Debug, PartialEq, Eq, Structural)]
pub enum TargetExtraction {
    NoTarget,
    MainThreadOnly,
    ExactThread,
    CollectionFiltered,
}

/// The authority a controller needs for a request.
#[derive(Clone, Copy, Debug, PartialEq, Eq, Structural)]
pub enum RequiredAuthority {
    PreParticipation,
    StandingSession,
    ActiveOwner,
    TuiOnly,
}

/// The admission rule of one request kind.
#[derive(Clone, Copy, Debug, PartialEq, Eq, Structural)]
pub struct AdmissionRule {
    pub target: TargetExtraction,
    pub required_authority: RequiredAuthority,
}

/// A method name with its admission rule.
#[derive(Clone, Copy, Debug)]
pub struct MethodAdmission {
    pub method: &'static str,
    pub rule: AdmissionRule,
}

/// A kind of continuation that a controller may present.
#[derive(Clone, Copy, Debug, PartialEq, Eq, PartialOrd, Ord, Hash, Structural)]
pub enum ContinuationKind {
    Cursor,
    ResumeToken,
    Subscription,
    ImplicitTarget,
}

/// A continuation kind with its admission rule.
#[derive(Clone, Copy, Debug, PartialEq, Eq, Structural)]
pub struct ContinuationAdmission {
    pub kind: ContinuationKind,
    pub rule: AdmissionRule,
}

/// A method name with its rule, as the tables hold it.
pub struct MethodEntry {
    pub method: Seq<char>,
    pub rule: AdmissionRule,
}

pub open spec fn entry(
    method: &'static str,
    target: TargetExtraction,
    required_authority: RequiredAuthority,
) -> MethodEntry {
    MethodEntry { method: method@, rule: AdmissionRule { target, required_authority } }
}

pub open spec fn method_entries(table: Seq<MethodAdmission>) -> Seq<MethodEntry> {
    table.map_values(|admission: MethodAdmission| MethodEntry { method: admission.method@, rule: admission.rule })
}

/// The rule of the first entry of `table` named `method`, if any.
pub open spec fn rule_in(table: Seq<MethodEntry>, method: Seq<char>) -> Option<AdmissionRule>
    decreases table.len(),
{
    if table.len() == 0 {
        None
    } else if table[0].method == method {
        Some(table[0].rule)
    } else {
        rule_in(table.drop_first(), method)
    }
}

pub open spec fn client_request_table_part_1() -> Seq<MethodEntry> {
    seq![
        entry("initialize", TargetExtraction::NoTarget, RequiredAuthority::PreParticipation),
        entry("controller/requestParticipation", TargetExtraction::NoTarget, RequiredAuthority::PreParticipation),
        entry("controller/acquireControl", TargetExtraction::MainThreadOnly, RequiredAuthority::StandingSession),
        entry("controller/releaseControl", TargetExtraction::MainThreadOnly, RequiredAuthority::StandingSession),
        entry("controller/signOff", TargetExtraction::MainThreadOnly, RequiredAuthority::StandingSession),
        entry("thread/unsubscribe", TargetExtraction::ExactThread, RequiredAuthority::StandingSession),
        entry("thread/goal/get", TargetExtraction::ExactThread, RequiredAuthority::StandingSession),
        entry("thread/backgroundTerminals/list", TargetExtraction::ExactThread, RequiredAuthority::StandingSession),
        entry("thread/searchOccurrences", TargetExtraction::ExactThread, RequiredAuthority::StandingSession),
        entry("thread/read", TargetExtraction::ExactThread, RequiredAuthority::StandingSession),
        entry("thread/turns/list", TargetExtraction::ExactThread, RequiredAuthority::StandingSession),
        entry("thread/items/list", TargetExtraction::ExactThread, RequiredAuthority::StandingSession),
        entry("mcpServer/resource/read", TargetExtraction::ExactThread, RequiredAuthority::StandingSession),
        entry("thread/list", TargetExtraction::CollectionFiltered, RequiredAuthority::StandingSession),
        entry("threadSection/list", TargetExtraction::CollectionFiltered, RequiredAuthority::StandingSession),
        entry("thread/search", TargetExtraction::CollectionFiltered, RequiredAuthority::StandingSession),
        entry("thread/loaded/list", TargetExtraction::CollectionFiltered, RequiredAuthority::StandingSession),
        entry("thread/archive", TargetExtraction::ExactThread, RequiredAuthority::ActiveOwner),
        entry("thread/delete", TargetExtraction::ExactThread, RequiredAuthority::ActiveOwner),
        entry("thread/increment_elicitation", TargetExtraction::ExactThread, RequiredAuthority::ActiveOwner),
    ]
}

pub open spec fn client_request_table_part_2() -> Seq<MethodEntry> {
    seq![
        entry("thread/decrement_elicitation", TargetExtraction::ExactThread, RequiredAuthority::ActiveOwner),
        entry("thread/name/set", TargetExtraction::ExactThread, RequiredAuthority::ActiveOwner),
        entry("thread/metadata/update", TargetExtraction::ExactThread, RequiredAuthority::ActiveOwner),
        entry("thread/section/move", TargetExtraction::ExactThread, RequiredAuthority::ActiveOwner),
        entry("thread/unarchive", TargetExtraction::ExactThread, RequiredAuthority::ActiveOwner),
        entry("thread/shellCommand", TargetExtraction::ExactThread, RequiredAuthority::ActiveOwner),
        entry("thread/approveGuardianDeniedAction", TargetExtraction::ExactThread, RequiredAuthority::ActiveOwner),
        entry("thread/backgroundTerminals/clean", TargetExtraction::ExactThread, RequiredAuthority::ActiveOwner),
        entry("thread/backgroundTerminals/terminate", TargetExtraction::ExactThread, RequiredAuthority::ActiveOwner),
        entry("turn/start", TargetExtraction::ExactThread, RequiredAuthority::ActiveOwner),
        entry("turn/steer", TargetExtraction::ExactThread, RequiredAuthority::ActiveOwner),
        entry("turn/interrupt", TargetExtraction::ExactThread, RequiredAuthority::ActiveOwner),
        entry("thread/realtime/start", TargetExtraction::ExactThread, RequiredAuthority::ActiveOwner),
        entry("thread/realtime/appendAudio", TargetExtraction::ExactThread, RequiredAuthority::ActiveOwner),
        entry("thread/realtime/appendText", TargetExtraction::ExactThread, RequiredAuthority::ActiveOwner),
        entry("thread/realtime/appendSpeech", TargetExtraction::ExactThread, RequiredAuthority::ActiveOwner),
        entry("thread/realtime/stop", TargetExtraction::ExactThread, RequiredAuthority::ActiveOwner),
        entry("review/start", TargetExtraction::ExactThread, RequiredAuthority::ActiveOwner),
        entry("mcpServer/tool/call", TargetExtraction::ExactThread, RequiredAuthority::ActiveOwner),
        entry("thread/start", TargetExtraction::NoTarget, RequiredAuthority::TuiOnly),
    ]
}

pub open spec fn client_request_table_part_3() -> Seq<MethodEntry> {
    seq![
        entry("thread/resume", TargetExtraction::ExactThread, RequiredAuthority::TuiOnly),
        entry("thread/fork", TargetExtraction::ExactThread, RequiredAuthority::TuiOnly),
        entry("thread/goal/set", TargetExtraction::ExactThread, RequiredAuthority::TuiOnly),
        entry("thread/goal/clear", TargetExtraction::ExactThread, RequiredAuthority::TuiOnly),
        entry("thread/settings/update", TargetExtraction::ExactThread, RequiredAuthority::TuiOnly),
        entry("thread/memoryMode/set", TargetExtraction::ExactThread, RequiredAuthority::TuiOnly),
        entry("memory/reset", TargetExtraction::NoTarget, RequiredAuthority::TuiOnly),
        entry("thread/compact/start", TargetExtraction::ExactThread, RequiredAuthority::TuiOnly),
        entry("thread/rollback", TargetExtraction::ExactThread, RequiredAuthority::TuiOnly),
        entry("thread/inject_items", TargetExtraction::ExactThread, RequiredAuthority::TuiOnly),
        entry("skills/list", TargetExtraction::NoTarget, RequiredAuthority::TuiOnly),
        entry("skills/extraRoots/set", TargetExtraction::NoTarget, RequiredAuthority::TuiOnly),
        entry("hooks/list", TargetExtraction::NoTarget, RequiredAuthority::TuiOnly),
        entry("marketplace/add", TargetExtraction::NoTarget, RequiredAuthority::TuiOnly),
        entry("marketplace/remove", TargetExtraction::NoTarget, RequiredAuthority::TuiOnly),
        entry("marketplace/upgrade", TargetExtraction::NoTarget, RequiredAuthority::TuiOnly),
        entry("plugin/list", TargetExtraction::NoTarget, RequiredAuthority::TuiOnly),
        entry("plugin/installed", TargetExtraction::NoTarget, RequiredAuthority::TuiOnly),
        entry("plugin/read", TargetExtraction::NoTarget, RequiredAuthority::TuiOnly),
        entry("plugin/skill/read", TargetExtraction::NoTarget, RequiredAuthority::TuiOnly),
    ]
}

pub open spec fn client_request_table_part_4() -> Seq<MethodEntry> {
    seq![
        entry("plugin/share/save", TargetExtraction::NoTarget, RequiredAuthority::TuiOnly),
        entry("plugin/share/updateTargets", TargetExtraction::NoTarget, RequiredAuthority::TuiOnly),
        entry("plugin/share/list", TargetExtraction::NoTarget, RequiredAuthority::TuiOnly),
        entry("plugin/share/checkout", TargetExtraction::NoTarget, RequiredAuthority::TuiOnly),
        entry("plugin/share/delete", TargetExtraction::NoTarget, RequiredAuthority::TuiOnly),
        entry("app/read", TargetExtraction::NoTarget, RequiredAuthority::TuiOnly),
        entry("app/list", TargetExtraction::NoTarget, RequiredAuthority::TuiOnly),
        entry("app/installed", TargetExtraction::NoTarget, RequiredAuthority::TuiOnly),
        entry("fs/readFile", TargetExtraction::NoTarget, RequiredAuthority::TuiOnly),
        entry("fs/writeFile", TargetExtraction::NoTarget, RequiredAuthority::TuiOnly),
        entry("fs/createDirectory", TargetExtraction::NoTarget, RequiredAuthority::TuiOnly),
        entry("fs/getMetadata", TargetExtraction::NoTarget, RequiredAuthority::TuiOnly),
        entry("fs/readDirectory", TargetExtraction::NoTarget, RequiredAuthority::TuiOnly),
        entry("fs/remove", TargetExtraction::NoTarget, RequiredAuthority::TuiOnly),
        entry("fs/copy", TargetExtraction::NoTarget, RequiredAuthority::TuiOnly),
        entry("fs/watch", TargetExtraction::NoTarget, RequiredAuthority::TuiOnly),
        entry("fs/unwatch", TargetExtraction::NoTarget, RequiredAuthority::TuiOnly),
        entry("skills/config/write", TargetExtraction::NoTarget, RequiredAuthority::TuiOnly),
        entry("plugin/install", TargetExtraction::NoTarget, RequiredAuthority::TuiOnly),
        entry("plugin/uninstall", TargetExtraction::NoTarget, RequiredAuthority::TuiOnly),
    ]
}

pub open spec fn client_request_table_part_5() -> Seq<MethodEntry> {
    seq![
        entry("thread/realtime/listVoices", TargetExtraction::NoTarget, RequiredAuthority::TuiOnly),
        entry("model/list", TargetExtraction::NoTarget, RequiredAuthority::TuiOnly),
        entry("modelProvider/capabilities/read", TargetExtraction::NoTarget, RequiredAuthority::TuiOnly),
        entry("experimentalFeature/list", TargetExtraction::NoTarget, RequiredAuthority::TuiOnly),
        entry("permissionProfile/list", TargetExtraction::NoTarget, RequiredAuthority::TuiOnly),
        entry("experimentalFeature/enablement/set", TargetExtraction::NoTarget, RequiredAuthority::TuiOnly),
        entry("remoteControl/enable", TargetExtraction::NoTarget, RequiredAuthority::TuiOnly),
        entry("remoteControl/disable", TargetExtraction::NoTarget, RequiredAuthority::TuiOnly),
        entry("remoteControl/status/read", TargetExtraction::NoTarget, RequiredAuthority::TuiOnly),
        entry("remoteControl/pairing/start", TargetExtraction::NoTarget, RequiredAuthority::TuiOnly),
        entry("remoteControl/pairing/status", TargetExtraction::NoTarget, RequiredAuthority::TuiOnly),
        entry("remoteControl/client/list", TargetExtraction::NoTarget, RequiredAuthority::TuiOnly),
        entry("remoteControl/client/revoke", TargetExtraction::NoTarget, RequiredAuthority::TuiOnly),
        entry("collaborationMode/list", TargetExtraction::NoTarget, RequiredAuthority::TuiOnly),
        entry("mock/experimentalMethod", TargetExtraction::NoTarget, RequiredAuthority::TuiOnly),
        entry("environment/add", TargetExtraction::NoTarget, RequiredAuthority::TuiOnly),
        entry("environment/info", TargetExtraction::NoTarget, RequiredAuthority::TuiOnly),
        entry("environment/status", TargetExtraction::NoTarget, RequiredAuthority::TuiOnly),
        entry("mcpServer/oauth/login", TargetExtraction::NoTarget, RequiredAuthority::TuiOnly),
        entry("config/mcpServer/reload", TargetExtraction::NoTarget, RequiredAuthority::TuiOnly),
    ]
}

pub open spec fn client_request_table_part_6() -> Seq<MethodEntry> {
    seq![
        entry("mcpServerStatus/list", TargetExtraction::NoTarget, RequiredAuthority::TuiOnly),
        entry("windowsSandbox/setupStart", TargetExtraction::NoTarget, RequiredAuthority::TuiOnly),
        entry("windowsSandbox/readiness", TargetExtraction::NoTarget, RequiredAuthority::TuiOnly),
        entry("account/login/start", TargetExtraction::NoTarget, RequiredAuthority::TuiOnly),
        entry("account/login/cancel", TargetExtraction::NoTarget, RequiredAuthority::TuiOnly),
        entry("account/logout", TargetExtraction::NoTarget, RequiredAuthority::TuiOnly),
        entry("account/rateLimits/read", TargetExtraction::NoTarget, RequiredAuthority::TuiOnly),
        entry("account/rateLimitResetCredit/consume", TargetExtraction::NoTarget, RequiredAuthority::TuiOnly),
        entry("account/usage/read", TargetExtraction::NoTarget, RequiredAuthority::TuiOnly),
        entry("account/workspaceMessages/read", TargetExtraction::NoTarget, RequiredAuthority::TuiOnly),
        entry("account/sendAddCreditsNudgeEmail", TargetExtraction::NoTarget, RequiredAuthority::TuiOnly),
        entry("feedback/upload", TargetExtraction::NoTarget, RequiredAuthority::TuiOnly),
        entry("command/exec", TargetExtraction::NoTarget, RequiredAuthority::TuiOnly),
        entry("command/exec/write", TargetExtraction::NoTarget, RequiredAuthority::TuiOnly),
        entry("command/exec/terminate", TargetExtraction::NoTarget, RequiredAuthority::TuiOnly),
        entry("command/exec/resize", TargetExtraction::NoTarget, RequiredAuthority::TuiOnly),
        entry("process/spawn", TargetExtraction::NoTarget, RequiredAuthority::TuiOnly),
        entry("process/writeStdin", TargetExtraction::NoTarget, RequiredAuthority::TuiOnly),
        entry("process/kill", TargetExtraction::NoTarget, RequiredAuthority::TuiOnly),
        entry("process/resizePty", TargetExtraction::NoTarget, RequiredAuthority::TuiOnly),
    ]
}

pub open spec fn client_request_table_part_7() -> Seq<MethodEntry> {
    seq![
        entry("config/read", TargetExtraction::NoTarget, RequiredAuthority::TuiOnly),
        entry("externalAgentConfig/detect", TargetExtraction::NoTarget, RequiredAuthority::TuiOnly),
        entry("externalAgentConfig/import", TargetExtraction::NoTarget, RequiredAuthority::TuiOnly),
        entry("externalAgentConfig/import/recordHistory", TargetExtraction::NoTarget, RequiredAuthority::TuiOnly),
        entry("externalAgentConfig/import/readHistories", TargetExtraction::NoTarget, RequiredAuthority::TuiOnly),
        entry("config/value/write", TargetExtraction::NoTarget, RequiredAuthority::TuiOnly),
        entry("config/batchWrite", TargetExtraction::NoTarget, RequiredAuthority::TuiOnly),
        entry("configRequirements/read", TargetExtraction::NoTarget, RequiredAuthority::TuiOnly),
        entry("account/read", TargetExtraction::NoTarget, RequiredAuthority::TuiOnly),
        entry("getConversationSummary", TargetExtraction::NoTarget, RequiredAuthority::TuiOnly),
        entry("gitDiffToRemote", TargetExtraction::NoTarget, RequiredAuthority::TuiOnly),
        entry("getAuthStatus", TargetExtraction::NoTarget, RequiredAuthority::TuiOnly),
        entry("fuzzyFileSearch", TargetExtraction::NoTarget, RequiredAuthority::TuiOnly),
        entry("fuzzyFileSearch/sessionStart", TargetExtraction::NoTarget, RequiredAuthority::TuiOnly),
        entry("fuzzyFileSearch/sessionUpdate", TargetExtraction::NoTarget, RequiredAuthority::TuiOnly),
        entry("fuzzyFileSearch/sessionStop", TargetExtraction::NoTarget, RequiredAuthority::TuiOnly),
    ]
}

/// The review table of client requests.
pub open spec fn client_request_table() -> Seq<MethodEntry> {
    client_request_table_part_1() + client_request_table_part_2() + client_request_table_part_3() + client_request_table_part_4() + client_request_table_part_5() + client_request_table_part_6() + client_request_table_part_7()
}

/// The review table of responses to server requests.
pub open spec fn server_request_response_table() -> Seq<MethodEntry> {
    seq![
        entry("item/commandExecution/requestApproval", TargetExtraction::ExactThread, RequiredAuthority::ActiveOwner),
        entry("item/fileChange/requestApproval", TargetExtraction::ExactThread, RequiredAuthority::ActiveOwner),
        entry("item/tool/requestUserInput", TargetExtraction::ExactThread, RequiredAuthority::ActiveOwner),
        entry("mcpServer/elicitation/request", TargetExtraction::ExactThread, RequiredAuthority::ActiveOwner),
        entry("item/permissions/requestApproval", TargetExtraction::ExactThread, RequiredAuthority::ActiveOwner),
        entry("item/tool/call", TargetExtraction::ExactThread, RequiredAuthority::ActiveOwner),
        entry("currentTime/read", TargetExtraction::ExactThread, RequiredAuthority::ActiveOwner),
        entry("account/chatgptAuthTokens/refresh", TargetExtraction::NoTarget, RequiredAuthority::TuiOnly),
        entry("attestation/generate", TargetExtraction::NoTarget, RequiredAuthority::TuiOnly),
        entry("applyPatchApproval", TargetExtraction::NoTarget, RequiredAuthority::TuiOnly),
        entry("execCommandApproval", TargetExtraction::NoTarget, RequiredAuthority::TuiOnly),
    ]
}

fn method_rule(
    method: &'static str,
    target: TargetExtraction,
    required_authority: RequiredAuthority,
) -> (admission: MethodAdmission)
    ensures
        admission.method == method,
        admission.rule == (AdmissionRule { target, required_authority }),
{
    MethodAdmission { method, rule: AdmissionRule { target, required_authority } }
}

fn push_client_request_part_1(table: &mut Vec<MethodAdmission>)
    ensures
        method_entries(final(table)@) == method_entries(old(table)@) + client_request_table_part_1(),
{
    table.push(method_rule("initialize", TargetExtraction::NoTarget, RequiredAuthority::PreParticipation));
    table.push(method_rule("controller/requestParticipation", TargetExtraction::NoTarget, RequiredAuthority::PreParticipation));
    table.push(method_rule("controller/acquireControl", TargetExtraction::MainThreadOnly, RequiredAuthority::StandingSession));
    table.push(method_rule("controller/releaseControl", TargetExtraction::MainThreadOnly, RequiredAuthority::StandingSession));
    table.push(method_rule("controller/signOff", TargetExtraction::MainThreadOnly, RequiredAuthority::StandingSession));
    table.push(method_rule("thread/unsubscribe", TargetExtraction::ExactThread, RequiredAuthority::StandingSession));
    table.push(method_rule("thread/goal/get", TargetExtraction::ExactThread, RequiredAuthority::StandingSession));
    table.push(method_rule("thread/backgroundTerminals/list", TargetExtraction::ExactThread, RequiredAuthority::StandingSession));
    table.push(method_rule("thread/searchOccurrences", TargetExtraction::ExactThread, RequiredAuthority::StandingSession));
    table.push(method_rule("thread/read", TargetExtraction::ExactThread, RequiredAuthority::StandingSession));
    table.push(method_rule("thread/turns/list", TargetExtraction::ExactThread, RequiredAuthority::StandingSession));
    table.push(method_rule("thread/items/list", TargetExtraction::ExactThread, RequiredAuthority::StandingSession));
    table.push(method_rule("mcpServer/resource/read", TargetExtraction::ExactThread, RequiredAuthority::StandingSession));
    table.push(method_rule("thread/list", TargetExtraction::CollectionFiltered, RequiredAuthority::StandingSession));
    table.push(method_rule("threadSection/list", TargetExtraction::CollectionFiltered, RequiredAuthority::StandingSession));
    table.push(method_rule("thread/search", TargetExtraction::CollectionFiltered, RequiredAuthority::StandingSession));
    table.push(method_rule("thread/loaded/list", TargetExtraction::CollectionFiltered, RequiredAuthority::StandingSession));
    table.push(method_rule("thread/archive", TargetExtraction::ExactThread, RequiredAuthority::ActiveOwner));
    table.push(method_rule("thread/delete", TargetExtraction::ExactThread, RequiredAuthority::ActiveOwner));
    table.push(method_rule("thread/increment_elicitation", TargetExtraction::ExactThread, RequiredAuthority::ActiveOwner));
    proof {
        assert(method_entries(table@) =~= method_entries(old(table)@) + client_request_table_part_1());
    }
}

fn push_client_request_part_2(table: &mut Vec<MethodAdmission>)
    ensures
        method_entries(final(table)@) == method_entries(old(table)@) + client_request_table_part_2(),
{
    table.push(method_rule("thread/decrement_elicitation", TargetExtraction::ExactThread, RequiredAuthority::ActiveOwner));
    table.push(method_rule("thread/name/set", TargetExtraction::ExactThread, RequiredAuthority::ActiveOwner));
    table.push(method_rule("thread/metadata/update", TargetExtraction::ExactThread, RequiredAuthority::ActiveOwner));
    table.push(method_rule("thread/section/move", TargetExtraction::ExactThread, RequiredAuthority::ActiveOwner));
    table.push(method_rule("thread/unarchive", TargetExtraction::ExactThread, RequiredAuthority::ActiveOwner));
    table.push(method_rule("thread/shellCommand", TargetExtraction::ExactThread, RequiredAuthority::ActiveOwner));
    table.push(method_rule("thread/approveGuardianDeniedAction", TargetExtraction::ExactThread, RequiredAuthority::ActiveOwner));
    table.push(method_rule("thread/backgroundTerminals/clean", TargetExtraction::ExactThread, RequiredAuthority::ActiveOwner));
    table.push(method_rule("thread/backgroundTerminals/terminate", TargetExtraction::ExactThread, RequiredAuthority::ActiveOwner));
    table.push(method_rule("turn/start", TargetExtraction::ExactThread, RequiredAuthority::ActiveOwner));
    table.push(method_rule("turn/steer", TargetExtraction::ExactThread, RequiredAuthority::ActiveOwner));
    table.push(method_rule("turn/interrupt", TargetExtraction::ExactThread, RequiredAuthority::ActiveOwner));
    table.push(method_rule("thread/realtime/start", TargetExtraction::ExactThread, RequiredAuthority::ActiveOwner));
    table.push(method_rule("thread/realtime/appendAudio", TargetExtraction::ExactThread, RequiredAuthority::ActiveOwner));
    table.push(method_rule("thread/realtime/appendText", TargetExtraction::ExactThread, RequiredAuthority::ActiveOwner));
    table.push(method_rule("thread/realtime/appendSpeech", TargetExtraction::ExactThread, RequiredAuthority::ActiveOwner));
    table.push(method_rule("thread/realtime/stop", TargetExtraction::ExactThread, RequiredAuthority::ActiveOwner));
    table.push(method_rule("review/start", TargetExtraction::ExactThread, RequiredAuthority::ActiveOwner));
    table.push(method_rule("mcpServer/tool/call", TargetExtraction::ExactThread, RequiredAuthority::ActiveOwner));
    table.push(method_rule("thread/start", TargetExtraction::NoTarget, RequiredAuthority::TuiOnly));
    proof {
        assert(method_entries(table@) =~= method_entries(old(table)@) + client_request_table_part_2());
    }
}

fn push_client_request_part_3(table: &mut Vec<MethodAdmission>)
    ensures
        method_entries(final(table)@) == method_entries(old(table)@) + client_request_table_part_3(),
{
    table.push(method_rule("thread/resume", TargetExtraction::ExactThread, RequiredAuthority::TuiOnly));
    table.push(method_rule("thread/fork", TargetExtraction::ExactThread, RequiredAuthority::TuiOnly));
    table.push(method_rule("thread/goal/set", TargetExtraction::ExactThread, RequiredAuthority::TuiOnly));
    table.push(method_rule("thread/goal/clear", TargetExtraction::ExactThread, RequiredAuthority::TuiOnly));
    table.push(method_rule("thread/settings/update", TargetExtraction::ExactThread, RequiredAuthority::TuiOnly));
    table.push(method_rule("thread/memoryMode/set", TargetExtraction::ExactThread, RequiredAuthority::TuiOnly));
    table.push(method_rule("memory/reset", TargetExtraction::NoTarget, RequiredAuthority::TuiOnly));
    table.push(method_rule("thread/compact/start", TargetExtraction::ExactThread, RequiredAuthority::TuiOnly));
    table.push(method_rule("thread/rollback", TargetExtraction::ExactThread, RequiredAuthority::TuiOnly));
    table.push(method_rule("thread/inject_items", TargetExtraction::ExactThread, RequiredAuthority::TuiOnly));
    table.push(method_rule("skills/list", TargetExtraction::NoTarget, RequiredAuthority::TuiOnly));
    table.push(method_rule("skills/extraRoots/set", TargetExtraction::NoTarget, RequiredAuthority::TuiOnly));
    table.push(method_rule("hooks/list", TargetExtraction::NoTarget, RequiredAuthority::TuiOnly));
    table.push(method_rule("marketplace/add", TargetExtraction::NoTarget, RequiredAuthority::TuiOnly));
    table.push(method_rule("marketplace/remove", TargetExtraction::NoTarget, RequiredAuthority::TuiOnly));
    table.push(method_rule("marketplace/upgrade", TargetExtraction::NoTarget, RequiredAuthority::TuiOnly));
    table.push(method_rule("plugin/list", TargetExtraction::NoTarget, RequiredAuthority::TuiOnly));
    table.push(method_rule("plugin/installed", TargetExtraction::NoTarget, RequiredAuthority::TuiOnly));
    table.push(method_rule("plugin/read", TargetExtraction::NoTarget, RequiredAuthority::TuiOnly));
    table.push(method_rule("plugin/skill/read", TargetExtraction::NoTarget, RequiredAuthority::TuiOnly));
    proof {
        assert(method_entries(table@) =~= method_entries(old(table)@) + client_request_table_part_3());
    }
}

fn push_client_request_part_4(table: &mut Vec<MethodAdmission>)
    ensures
        method_entries(final(table)@) == method_entries(old(table)@) + client_request_table_part_4(),
{
    table.push(method_rule("plugin/share/save", TargetExtraction::NoTarget, RequiredAuthority::TuiOnly));
    table.push(method_rule("plugin/share/updateTargets", TargetExtraction::NoTarget, RequiredAuthority::TuiOnly));
    table.push(method_rule("plugin/share/list", TargetExtraction::NoTarget, RequiredAuthority::TuiOnly));
    table.push(method_rule("plugin/share/checkout", TargetExtraction::NoTarget, RequiredAuthority::TuiOnly));
    table.push(method_rule("plugin/share/delete", TargetExtraction::NoTarget, RequiredAuthority::TuiOnly));
    table.push(method_rule("app/read", TargetExtraction::NoTarget, RequiredAuthority::TuiOnly));
    table.push(method_rule("app/list", TargetExtraction::NoTarget, RequiredAuthority::TuiOnly));
    table.push(method_rule("app/installed", TargetExtraction::NoTarget, RequiredAuthority::TuiOnly));
    table.push(method_rule("fs/readFile", TargetExtraction::NoTarget, RequiredAuthority::TuiOnly));
    table.push(method_rule("fs/writeFile", TargetExtraction::NoTarget, RequiredAuthority::TuiOnly));
    table.push(method_rule("fs/createDirectory", TargetExtraction::NoTarget, RequiredAuthority::TuiOnly));
    table.push(method_rule("fs/getMetadata", TargetExtraction::NoTarget, RequiredAuthority::TuiOnly));
    table.push(method_rule("fs/readDirectory", TargetExtraction::NoTarget, RequiredAuthority::TuiOnly));
    table.push(method_rule("fs/remove", TargetExtraction::NoTarget, RequiredAuthority::TuiOnly));
    table.push(method_rule("fs/copy", TargetExtraction::NoTarget, RequiredAuthority::TuiOnly));
    table.push(method_rule("fs/watch", TargetExtraction::NoTarget, RequiredAuthority::TuiOnly));
    table.push(method_rule("fs/unwatch", TargetExtraction::NoTarget, RequiredAuthority::TuiOnly));
    table.push(method_rule("skills/config/write", TargetExtraction::NoTarget, RequiredAuthority::TuiOnly));
    table.push(method_rule("plugin/install", TargetExtraction::NoTarget, RequiredAuthority::TuiOnly));
    table.push(method_rule("plugin/uninstall", TargetExtraction::NoTarget, RequiredAuthority::TuiOnly));
    proof {
        assert(method_entries(table@) =~= method_entries(old(table)@) + client_request_table_part_4());
    }
}

fn push_client_request_part_5(table: &mut Vec<MethodAdmission>)
    ensures
        method_entries(final(table)@) == method_entries(old(table)@) + client_request_table_part_5(),
{
    table.push(method_rule("thread/realtime/listVoices", TargetExtraction::NoTarget, RequiredAuthority::TuiOnly));
    table.push(method_rule("model/list", TargetExtraction::NoTarget, RequiredAuthority::TuiOnly));
    table.push(method_rule("modelProvider/capabilities/read", TargetExtraction::NoTarget, RequiredAuthority::TuiOnly));
    table.push(method_rule("experimentalFeature/list", TargetExtraction::NoTarget, RequiredAuthority::TuiOnly));
    table.push(method_rule("permissionProfile/list", TargetExtraction::NoTarget, RequiredAuthority::TuiOnly));
    table.push(method_rule("experimentalFeature/enablement/set", TargetExtraction::NoTarget, RequiredAuthority::TuiOnly));
    table.push(method_rule("remoteControl/enable", TargetExtraction::NoTarget, RequiredAuthority::TuiOnly));
    table.push(method_rule("remoteControl/disable", TargetExtraction::NoTarget, RequiredAuthority::TuiOnly));
    table.push(method_rule("remoteControl/status/read", TargetExtraction::NoTarget, RequiredAuthority::TuiOnly));
    table.push(method_rule("remoteControl/pairing/start", TargetExtraction::NoTarget, RequiredAuthority::TuiOnly));
    table.push(method_rule("remoteControl/pairing/status", TargetExtraction::NoTarget, RequiredAuthority::TuiOnly));
    table.push(method_rule("remoteControl/client/list", TargetExtraction::NoTarget, RequiredAuthority::TuiOnly));
    table.push(method_rule("remoteControl/client/revoke", TargetExtraction::NoTarget, RequiredAuthority::TuiOnly));
    table.push(method_rule("collaborationMode/list", TargetExtraction::NoTarget, RequiredAuthority::TuiOnly));
    table.push(method_rule("mock/experimentalMethod", TargetExtraction::NoTarget, RequiredAuthority::TuiOnly));
    table.push(method_rule("environment/add", TargetExtraction::NoTarget, RequiredAuthority::TuiOnly));
    table.push(method_rule("environment/info", TargetExtraction::NoTarget, RequiredAuthority::TuiOnly));
    table.push(method_rule("environment/status", TargetExtraction::NoTarget, RequiredAuthority::TuiOnly));
    table.push(method_rule("mcpServer/oauth/login", TargetExtraction::NoTarget, RequiredAuthority::TuiOnly));
    table.push(method_rule("config/mcpServer/reload", TargetExtraction::NoTarget, RequiredAuthority::TuiOnly));
    proof {
        assert(method_entries(table@) =~= method_entries(old(table)@) + client_request_table_part_5());
    }
}

fn push_client_request_part_6(table: &mut Vec<MethodAdmission>)
    ensures
        method_entries(final(table)@) == method_entries(old(table)@) + client_request_table_part_6(),
{
    table.push(method_rule("mcpServerStatus/list", TargetExtraction::NoTarget, RequiredAuthority::TuiOnly));
    table.push(method_rule("windowsSandbox/setupStart", TargetExtraction::NoTarget, RequiredAuthority::TuiOnly));
    table.push(method_rule("windowsSandbox/readiness", TargetExtraction::NoTarget, RequiredAuthority::TuiOnly));
    table.push(method_rule("account/login/start", TargetExtraction::NoTarget, RequiredAuthority::TuiOnly));
    table.push(method_rule("account/login/cancel", TargetExtraction::NoTarget, RequiredAuthority::TuiOnly));
    table.push(method_rule("account/logout", TargetExtraction::NoTarget, RequiredAuthority::TuiOnly));
    table.push(method_rule("account/rateLimits/read", TargetExtraction::NoTarget, RequiredAuthority::TuiOnly));
    table.push(method_rule("account/rateLimitResetCredit/consume", TargetExtraction::NoTarget, RequiredAuthority::TuiOnly));
    table.push(method_rule("account/usage/read", TargetExtraction::NoTarget, RequiredAuthority::TuiOnly));
    table.push(method_rule("account/workspaceMessages/read", TargetExtraction::NoTarget, RequiredAuthority::TuiOnly));
    table.push(method_rule("account/sendAddCreditsNudgeEmail", TargetExtraction::NoTarget, RequiredAuthority::TuiOnly));
    table.push(method_rule("feedback/upload", TargetExtraction::NoTarget, RequiredAuthority::TuiOnly));
    table.push(method_rule("command/exec", TargetExtraction::NoTarget, RequiredAuthority::TuiOnly));
    table.push(method_rule("command/exec/write", TargetExtraction::NoTarget, RequiredAuthority::TuiOnly));
    table.push(method_rule("command/exec/terminate", TargetExtraction::NoTarget, RequiredAuthority::TuiOnly));
    table.push(method_rule("command/exec/resize", TargetExtraction::NoTarget, RequiredAuthority::TuiOnly));
    table.push(method_rule("process/spawn", TargetExtraction::NoTarget, RequiredAuthority::TuiOnly));
    table.push(method_rule("process/writeStdin", TargetExtraction::NoTarget, RequiredAuthority::TuiOnly));
    table.push(method_rule("process/kill", TargetExtraction::NoTarget, RequiredAuthority::TuiOnly));
    table.push(method_rule("process/resizePty", TargetExtraction::NoTarget, RequiredAuthority::TuiOnly));
    proof {
        assert(method_entries(table@) =~= method_entries(old(table)@) + client_request_table_part_6());
    }
}

fn push_client_request_part_7(table: &mut Vec<MethodAdmission>)
    ensures
        method_entries(final(table)@) == method_entries(old(table)@) + client_request_table_part_7(),
{
    table.push(method_rule("config/read", TargetExtraction::NoTarget, RequiredAuthority::TuiOnly));
    table.push(method_rule("externalAgentConfig/detect", TargetExtraction::NoTarget, RequiredAuthority::TuiOnly));
    table.push(method_rule("externalAgentConfig/import", TargetExtraction::NoTarget, RequiredAuthority::TuiOnly));
    table.push(method_rule("externalAgentConfig/import/recordHistory", TargetExtraction::NoTarget, RequiredAuthority::TuiOnly));
    table.push(method_rule("externalAgentConfig/import/readHistories", TargetExtraction::NoTarget, RequiredAuthority::TuiOnly));
    table.push(method_rule("config/value/write", TargetExtraction::NoTarget, RequiredAuthority::TuiOnly));
    table.push(method_rule("config/batchWrite", TargetExtraction::NoTarget, RequiredAuthority::TuiOnly));
    table.push(method_rule("configRequirements/read", TargetExtraction::NoTarget, RequiredAuthority::TuiOnly));
    table.push(method_rule("account/read", TargetExtraction::NoTarget, RequiredAuthority::TuiOnly));
    table.push(method_rule("getConversationSummary", TargetExtraction::NoTarget, RequiredAuthority::TuiOnly));
    table.push(method_rule("gitDiffToRemote", TargetExtraction::NoTarget, RequiredAuthority::TuiOnly));
    table.push(method_rule("getAuthStatus", TargetExtraction::NoTarget, RequiredAuthority::TuiOnly));
    table.push(method_rule("fuzzyFileSearch", TargetExtraction::NoTarget, RequiredAuthority::TuiOnly));
    table.push(method_rule("fuzzyFileSearch/sessionStart", TargetExtraction::NoTarget, RequiredAuthority::TuiOnly));
    table.push(method_rule("fuzzyFileSearch/sessionUpdate", TargetExtraction::NoTarget, RequiredAuthority::TuiOnly));
    table.push(method_rule("fuzzyFileSearch/sessionStop", TargetExtraction::NoTarget, RequiredAuthority::TuiOnly));
    proof {
        assert(method_entries(table@) =~= method_entries(old(table)@) + client_request_table_part_7());
    }
}

/// The review table of client requests, in review order.
pub fn client_request_admission() -> (table: Vec<MethodAdmission>)
    ensures
        method_entries(table@) == client_request_table(),
{
    let mut table: Vec<MethodAdmission> = Vec::new();
    proof {
        assert(method_entries(table@) =~= Seq::<MethodEntry>::empty());
    }
    push_client_request_part_1(&mut table);
    push_client_request_part_2(&mut table);
    push_client_request_part_3(&mut table);
    push_client_request_part_4(&mut table);
    push_client_request_part_5(&mut table);
    push_client_request_part_6(&mut table);
    push_client_request_part_7(&mut table);
    proof {
        assert(method_entries(table@) =~= client_request_table());
    }
    table
}

/// The review table of responses to server requests, in review order.
pub fn server_request_response_admission() -> (table: Vec<MethodAdmission>)
    ensures
        method_entries(table@) == server_request_response_table(),
{
    let mut table: Vec<MethodAdmission> = Vec::new();
    table.push(method_rule("item/commandExecution/requestApproval", TargetExtraction::ExactThread, RequiredAuthority::ActiveOwner));
    table.push(method_rule("item/fileChange/requestApproval", TargetExtraction::ExactThread, RequiredAuthority::ActiveOwner));
    table.push(method_rule("item/tool/requestUserInput", TargetExtraction::ExactThread, RequiredAuthority::ActiveOwner));
    table.push(method_rule("mcpServer/elicitation/request", TargetExtraction::ExactThread, RequiredAuthority::ActiveOwner));
    table.push(method_rule("item/permissions/requestApproval", TargetExtraction::ExactThread, RequiredAuthority::ActiveOwner));
    table.push(method_rule("item/tool/call", TargetExtraction::ExactThread, RequiredAuthority::ActiveOwner));
    table.push(method_rule("currentTime/read", TargetExtraction::ExactThread, RequiredAuthority::ActiveOwner));
    table.push(method_rule("account/chatgptAuthTokens/refresh", TargetExtraction::NoTarget, RequiredAuthority::TuiOnly));
    table.push(method_rule("attestation/generate", TargetExtraction::NoTarget, RequiredAuthority::TuiOnly));
    table.push(method_rule("applyPatchApproval", TargetExtraction::NoTarget, RequiredAuthority::TuiOnly));
    table.push(method_rule("execCommandApproval", TargetExtraction::NoTarget, RequiredAuthority::TuiOnly));
    proof {
        assert(method_entries(table@) =~= server_request_response_table());
    }
    table
}

/// The first rule of `table` named `method`, by a scan from the front.
fn find_method_rule(table: &Vec<MethodAdmission>, method: &str) -> (rule: Option<AdmissionRule>)
    ensures
        rule == rule_in(method_entries(table@), method@),
{
    proof {
        assert(method_entries(table@).subrange(0, table@.len() as int) =~= method_entries(table@));
    }
    let mut i: usize = 0;
    while i < table.len()
        invariant
            i <= table@.len(),
            rule_in(method_entries(table@), method@) == rule_in(
                method_entries(table@).subrange(i as int, table@.len() as int),
                method@,
            ),
        decreases table@.len() - i,
    {
        let entries = Ghost(method_entries(table@));
        let rest = Ghost(entries@.subrange(i as int, table@.len() as int));
        if same_text(table[i].method, method) {
            return Some(table[i].rule);
        }
        proof {
            assert(rest@.drop_first() =~= entries@.subrange(i + 1, table@.len() as int));
        }
        i += 1;
    }
    proof {
        assert(method_entries(table@).subrange(i as int, table@.len() as int) =~= Seq::<
            MethodEntry,
        >::empty());
    }
    None
}

/// The admission rule of a client request method; methods missing from the
/// review table are denied by default.
pub fn client_request_rule(method: &str) -> (rule: Option<AdmissionRule>)
    ensures
        rule == rule_in(client_request_table(), method@),
{
    let table = client_request_admission();
    find_method_rule(&table, method)
}

/// The admission rule of a response to a server request; methods missing
/// from the review table are denied by default.
pub fn server_request_response_rule(method: &str) -> (rule: Option<AdmissionRule>)
    ensures
        rule == rule_in(server_request_response_table(), method@),
{
    let table = server_request_response_admission();
    find_method_rule(&table, method)
}

/// The admission rule of each continuation kind.
pub open spec fn continuation_rule(kind: ContinuationKind) -> AdmissionRule {
    match kind {
        ContinuationKind::Cursor => AdmissionRule {
            target: TargetExtraction::MainThreadOnly,
            required_authority: RequiredAuthority::StandingSession,
        },
        ContinuationKind::ResumeToken => AdmissionRule {
            target: TargetExtraction::MainThreadOnly,
            required_authority: RequiredAuthority::TuiOnly,
        },
        ContinuationKind::Subscription => AdmissionRule {
            target: TargetExtraction::MainThreadOnly,
            required_authority: RequiredAuthority::StandingSession,
        },
        ContinuationKind::ImplicitTarget => AdmissionRule {
            target: TargetExtraction::MainThreadOnly,
            required_authority: RequiredAuthority::StandingSession,
        },
    }
}

impl ContinuationKind {
    /// Every continuation kind, in declaration order.
    pub fn all() -> (kinds: Vec<ContinuationKind>)
        ensures
            kinds@ == seq![
                ContinuationKind::Cursor,
                ContinuationKind::ResumeToken,
                ContinuationKind::Subscription,
                ContinuationKind::ImplicitTarget,
            ],
    {
        let kinds = vec![
            ContinuationKind::Cursor,
            ContinuationKind::ResumeToken,
            ContinuationKind::Subscription,
            ContinuationKind::ImplicitTarget,
        ];
        proof {
            assert(kinds@ =~= seq![
                ContinuationKind::Cursor,
                ContinuationKind::ResumeToken,
                ContinuationKind::Subscription,
                ContinuationKind::ImplicitTarget,
            ]);
        }
        kinds
    }
}

/// The review table of continuations: one rule per kind, in declaration
/// order.
pub fn continuation_admission() -> (table: Vec<ContinuationAdmission>)
    ensures
        table@.len() == 4,
        forall|i: int|
            0 <= i < 4 ==> (#[trigger] table@[i]).rule == continuation_rule(table@[i].kind),
        table@[0].kind == ContinuationKind::Cursor,
        table@[1].kind == ContinuationKind::ResumeToken,
        table@[2].kind == ContinuationKind::Subscription,
        table@[3].kind == ContinuationKind::ImplicitTarget,
        forall|i: int| 0 <= i < 4 ==> (#[trigger] table@[i]).kind == continuation_table_kinds()[i],
{
    let standing = AdmissionRule {
        target: TargetExtraction::MainThreadOnly,
        required_authority: RequiredAuthority::StandingSession,
    };
    let tui_only = AdmissionRule {
        target: TargetExtraction::MainThreadOnly,
        required_authority: RequiredAuthority::TuiOnly,
    };
    vec![
        ContinuationAdmission { kind: ContinuationKind::Cursor, rule: standing },
        ContinuationAdmission { kind: ContinuationKind::ResumeToken, rule: tui_only },
        ContinuationAdmission { kind: ContinuationKind::Subscription, rule: standing },
        ContinuationAdmission { kind: ContinuationKind::ImplicitTarget, rule: standing },
    ]
}

/// The admission rule of a continuation kind, from the review table.
pub fn continuation_rule_for(kind: ContinuationKind) -> (rule: AdmissionRule)
    ensures
        rule == continuation_rule(kind),
{
    let table = continuation_admission();
    let mut i: usize = 0;
    while i < table.len()
        invariant
            table@.len() == 4,
            i <= 4,
            forall|j: int|
                0 <= j < 4 ==> (#[trigger] table@[j]).rule == continuation_rule(table@[j].kind),
            table@[0].kind == ContinuationKind::Cursor,
            table@[1].kind == ContinuationKind::ResumeToken,
            table@[2].kind == ContinuationKind::Subscription,
            table@[3].kind == ContinuationKind::ImplicitTarget,
            forall|j: int| 0 <= j < i ==> table@[j].kind != kind,
        decreases 4 - i,
    {
        if table[i].kind == kind {
            return table[i].rule;
        }
        i += 1;
    }
    proof {
        assert(table@[0].kind != kind);
        assert(table@[1].kind != kind);
        assert(table@[2].kind != kind);
        assert(table@[3].kind != kind);
    }
    table[0].rule
}

/// Default deny: a method gets a rule exactly when the table lists it, and
/// the rule it gets is the one listed first for it.
pub proof fn law_unlisted_methods_are_denied(table: Seq<MethodEntry>, method: Seq<char>)
    ensures
        rule_in(table, method) is None <==> forall|i: int|
            0 <= i < table.len() ==> (#[trigger] table[i]).method != method,
        rule_in(table, method) is Some ==> exists|i: int|
            0 <= i < table.len() && (#[trigger] table[i]).method == method && table[i].rule
                == rule_in(table, method)->Some_0 && forall|k: int|
                0 <= k < i ==> (#[trigger] table[k]).method != method,
    decreases table.len(),
{
    if table.len() > 0 {
        law_unlisted_methods_are_denied(table.drop_first(), method);
        if table[0].method != method {
            assert forall|i: int| 0 < i < table.len() implies (#[trigger] table[i]).method
                == table.drop_first()[i - 1].method by {}
            if rule_in(table, method) is Some {
                let rest = table.drop_first();
                let j = choose|j: int|
                    0 <= j < rest.len() && (#[trigger] rest[j]).method == method && rest[j].rule
                        == rule_in(rest, method)->Some_0 && forall|k: int|
                        0 <= k < j ==> (#[trigger] rest[k]).method != method;
                assert(table[j + 1] == rest[j]);
                assert forall|k: int| 0 <= k < j + 1 implies (#[trigger] table[k]).method
                    != method by {
                    if k > 0 {
                        assert(table[k] == rest[k - 1]);
                    }
                }
            } else {
                assert forall|i: int| 0 <= i < table.len() implies (#[trigger] table[i]).method
                    != method by {
                    if i > 0 {
                        assert(table[i] == table.drop_first()[i - 1]);
                    }
                }
            }
        }
    }
}

/// The continuation kinds in the order the review table lists them.
pub open spec fn continuation_table_kinds() -> Seq<ContinuationKind> {
    seq![
        ContinuationKind::Cursor,
        ContinuationKind::ResumeToken,
        ContinuationKind::Subscription,
        ContinuationKind::ImplicitTarget,
    ]
}

/// Every continuation kind has exactly one entry in the review table.
pub proof fn law_every_continuation_kind_has_one_rule(kind: ContinuationKind)
    ensures
        exists|i: int| 0 <= i < 4 && #[trigger] continuation_table_kinds()[i] == kind,
        forall|i: int, j: int|
            0 <= i < 4 && 0 <= j < 4 && #[trigger] continuation_table_kinds()[i] == kind
                && #[trigger] continuation_table_kinds()[j] == kind ==> i == j,
{
    let kinds = continuation_table_kinds();
    match kind {
        ContinuationKind::Cursor => assert(kinds[0] == kind),
        ContinuationKind::ResumeToken => assert(kinds[1] == kind),
        ContinuationKind::Subscription => assert(kinds[2] == kind),
        ContinuationKind::ImplicitTarget => assert(kinds[3] == kind),
    }
}

} // verus!

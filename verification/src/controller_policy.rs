//! Per-request controller checks of the message processor: which thread a
//! controller request targets, which parameters stay TUI-only, how thread
//! collections are scoped, and which requests reclaim primary input.

use vstd::prelude::*;
use vstd::string::StringExecFns;

use crate::admission::{AdmissionRule, RequiredAuthority, TargetExtraction};
use crate::cursor::ControllerNormalAuthorization;
use crate::protocol::{ControllerErrorCode, ControllerRetryDisposition};
use crate::text::push_str;

verus! {

/// Where a connection comes from.
#[derive(Clone, Copy, Debug, PartialEq, Eq, Structural)]
pub enum ConnectionOrigin {
    Stdio,
    InProcess,
    WebSocket,
    RemoteControl,
    ExternalController,
}

/// The thread a controller request is checked against.
#[derive(Debug, PartialEq, Eq)]
pub enum ControllerRequestTarget {
    /// No thread target: the request addresses the main thread implicitly.
    NoTarget,
    /// A thread collection, filtered to what the controller may see.
    CollectionFiltered,
    /// Exactly this thread.
    ExactThread(String),
}

/// Refusal of a controller request.
#[derive(Debug, PartialEq, Eq)]
pub struct ControllerNotAllowed {
    pub message: String,
}

impl ControllerNotAllowed {
    pub fn code(&self) -> (code: ControllerErrorCode)
        ensures
            code == ControllerErrorCode::ControllerNotAllowed,
    {
        ControllerErrorCode::ControllerNotAllowed
    }

    pub fn retry(&self) -> (retry: ControllerRetryDisposition)
        ensures
            retry == ControllerRetryDisposition::DoNotRetry,
    {
        ControllerRetryDisposition::DoNotRetry
    }
}

fn not_allowed(message: &str) -> (refusal: ControllerNotAllowed)
    ensures
        refusal.message@ == message@,
{
    ControllerNotAllowed { message: String::from_str(message) }
}

/// Which `thread/resume` overrides a request sets.
#[derive(Clone, Copy, Debug, Default, PartialEq, Eq, Structural)]
pub struct ThreadResumeOverrides {
    pub history: bool,
    pub path: bool,
    pub model: bool,
    pub model_provider: bool,
    pub service_tier: bool,
    pub cwd: bool,
    pub runtime_workspace_roots: bool,
    pub approval_policy: bool,
    pub approvals_reviewer: bool,
    pub sandbox: bool,
    pub permissions: bool,
    pub config: bool,
    pub base_instructions: bool,
    pub developer_instructions: bool,
    pub personality: bool,
}

impl ThreadResumeOverrides {
    pub open spec fn any(self) -> bool {
        self.history || self.path || self.model || self.model_provider || self.service_tier
            || self.cwd || self.runtime_workspace_roots || self.approval_policy
            || self.approvals_reviewer || self.sandbox || self.permissions || self.config
            || self.base_instructions || self.developer_instructions || self.personality
    }

    fn is_any(&self) -> (any: bool)
        ensures
            any == self.any(),
    {
        self.history || self.path || self.model || self.model_provider || self.service_tier
            || self.cwd || self.runtime_workspace_roots || self.approval_policy
            || self.approvals_reviewer || self.sandbox || self.permissions || self.config
            || self.base_instructions || self.developer_instructions || self.personality
    }
}

/// Which `turn/start` overrides a request sets.
#[derive(Clone, Copy, Debug, Default, PartialEq, Eq, Structural)]
pub struct TurnStartOverrides {
    pub additional_context: bool,
    pub environments: bool,
    pub cwd: bool,
    pub runtime_workspace_roots: bool,
    pub approval_policy: bool,
    pub approvals_reviewer: bool,
    pub sandbox_policy: bool,
    pub permissions: bool,
    pub model: bool,
    pub service_tier: bool,
    pub effort: bool,
    pub summary: bool,
    pub personality: bool,
    pub output_schema: bool,
    pub collaboration_mode: bool,
    pub multi_agent_mode: bool,
}

impl TurnStartOverrides {
    pub open spec fn any(self) -> bool {
        self.additional_context || self.environments || self.cwd || self.runtime_workspace_roots
            || self.approval_policy || self.approvals_reviewer || self.sandbox_policy
            || self.permissions || self.model || self.service_tier || self.effort || self.summary
            || self.personality || self.output_schema || self.collaboration_mode
            || self.multi_agent_mode
    }

    fn is_any(&self) -> (any: bool)
        ensures
            any == self.any(),
    {
        self.additional_context || self.environments || self.cwd || self.runtime_workspace_roots
            || self.approval_policy || self.approvals_reviewer || self.sandbox_policy
            || self.permissions || self.model || self.service_tier || self.effort || self.summary
            || self.personality || self.output_schema || self.collaboration_mode
            || self.multi_agent_mode
    }
}

/// Which `thread/realtime/start` overrides a request sets.
#[derive(Clone, Copy, Debug, Default, PartialEq, Eq, Structural)]
pub struct RealtimeStartOverrides {
    pub client_managed_handoffs: bool,
    pub delegation_ack_filler: bool,
    pub flush_transcript_tail_on_session_end: bool,
    pub codex_responses_as_items: bool,
    pub codex_response_item_prefix: bool,
    pub codex_response_handoff_mode: bool,
    pub codex_response_handoff_channel_prefixes: bool,
    pub model: bool,
    pub include_startup_context: bool,
    pub initial_items: bool,
    pub realtime_start_instructions: bool,
    pub realtime_end_instructions: bool,
    pub prompt: bool,
    pub version: bool,
}

impl RealtimeStartOverrides {
    pub open spec fn any(self) -> bool {
        self.client_managed_handoffs || self.delegation_ack_filler
            || self.flush_transcript_tail_on_session_end || self.codex_responses_as_items
            || self.codex_response_item_prefix || self.codex_response_handoff_mode
            || self.codex_response_handoff_channel_prefixes || self.model
            || self.include_startup_context || self.initial_items
            || self.realtime_start_instructions || self.realtime_end_instructions || self.prompt
            || self.version
    }

    fn is_any(&self) -> (any: bool)
        ensures
            any == self.any(),
    {
        self.client_managed_handoffs || self.delegation_ack_filler
            || self.flush_transcript_tail_on_session_end || self.codex_responses_as_items
            || self.codex_response_item_prefix || self.codex_response_handoff_mode
            || self.codex_response_handoff_channel_prefixes || self.model
            || self.include_startup_context || self.initial_items
            || self.realtime_start_instructions || self.realtime_end_instructions || self.prompt
            || self.version
    }
}

/// What the controller checks read of a client request.
#[derive(Debug, PartialEq, Eq)]
pub enum ControllerRequestShape {
    ThreadList,
    ThreadSectionList,
    ThreadSearch,
    ThreadLoadedList,
    ThreadResume { thread_id: String, overrides: ThreadResumeOverrides },
    ThreadTurnsList { thread_id: String },
    ThreadItemsList { thread_id: String },
    ThreadSearchOccurrences { thread_id: String },
    McpResourceRead { thread_id: Option<String> },
    TurnStart { overrides: TurnStartOverrides },
    TurnSteer { additional_context: bool },
    ThreadSectionMove { before_thread_id: bool },
    ThreadRealtimeStart { overrides: RealtimeStartOverrides },
    /// Whether the appended text has the user role.
    ThreadRealtimeAppendText { user_role: bool },
    /// Whether the review is to be delivered detached.
    ReviewStart { detached_delivery: bool },
    ThreadArchive { thread_id: String },
    ThreadDelete { thread_id: String },
    Other,
}

/// A client request as the controller checks see it: its shape and the
/// thread of its serialization scope, when that scope is one thread.
#[derive(Debug, PartialEq, Eq)]
pub struct ControllerRequestFacts {
    pub shape: ControllerRequestShape,
    pub serialization_thread_id: Option<String>,
}

/// The target of an exact-thread request that its serialization scope does
/// not name.
pub open spec fn explicit_thread(shape: ControllerRequestShape) -> Option<Option<Seq<char>>> {
    match shape {
        ControllerRequestShape::ThreadResume { thread_id, .. } => Some(Some(thread_id@)),
        ControllerRequestShape::ThreadTurnsList { thread_id } => Some(Some(thread_id@)),
        ControllerRequestShape::ThreadItemsList { thread_id } => Some(Some(thread_id@)),
        ControllerRequestShape::ThreadSearchOccurrences { thread_id } => Some(Some(thread_id@)),
        ControllerRequestShape::McpResourceRead { thread_id } => match thread_id {
            Some(t) => Some(Some(t@)),
            None => Some(None),
        },
        _ => None,
    }
}

pub open spec fn is_collection_request(shape: ControllerRequestShape) -> bool {
    shape is ThreadList || shape is ThreadSectionList || shape is ThreadSearch
        || shape is ThreadLoadedList
}

/// A request target as a model.
pub enum TargetModel {
    NoTarget,
    CollectionFiltered,
    ExactThread(Seq<char>),
}

pub open spec fn target_view(target: ControllerRequestTarget) -> TargetModel {
    match target {
        ControllerRequestTarget::NoTarget => TargetModel::NoTarget,
        ControllerRequestTarget::CollectionFiltered => TargetModel::CollectionFiltered,
        ControllerRequestTarget::ExactThread(id) => TargetModel::ExactThread(id@),
    }
}

/// The target of `request` under `rule`, or the message it is refused with.
pub open spec fn request_target(request: ControllerRequestFacts, rule: AdmissionRule) -> Result<
    TargetModel,
    Seq<char>,
> {
    match rule.target {
        TargetExtraction::NoTarget | TargetExtraction::MainThreadOnly => Ok(TargetModel::NoTarget),
        TargetExtraction::CollectionFiltered => if is_collection_request(request.shape) {
            Ok(TargetModel::CollectionFiltered)
        } else {
            Err("external controller collection filtering is not enabled for this method"@)
        },
        TargetExtraction::ExactThread => match request.serialization_thread_id {
            Some(t) => Ok(TargetModel::ExactThread(t@)),
            None => match explicit_thread(request.shape) {
                Some(Some(t)) => Ok(TargetModel::ExactThread(t)),
                Some(None) => Err("external controller exact thread target is required for this method"@),
                None => Err("external controller target extraction is not enabled for this method"@),
            },
        },
    }
}

pub open spec fn target_result_view(result: Result<ControllerRequestTarget, ControllerNotAllowed>) -> Result<
    TargetModel,
    Seq<char>,
> {
    match result {
        Ok(target) => Ok(target_view(target)),
        Err(refusal) => Err(refusal.message@),
    }
}

/// The thread target a controller request is checked against under its
/// admission rule: its extraction alone decides, whatever authority the rule
/// requires, so a TUI-only thread method still names its exact thread.
pub fn controller_request_target(request: &ControllerRequestFacts, rule: AdmissionRule) -> (result:
    Result<ControllerRequestTarget, ControllerNotAllowed>)
    ensures
        target_result_view(result) == request_target(*request, rule),
{
    match rule.target {
        TargetExtraction::NoTarget | TargetExtraction::MainThreadOnly => Ok(
            ControllerRequestTarget::NoTarget,
        ),
        TargetExtraction::CollectionFiltered => match &request.shape {
            ControllerRequestShape::ThreadList
            | ControllerRequestShape::ThreadSectionList
            | ControllerRequestShape::ThreadSearch
            | ControllerRequestShape::ThreadLoadedList => Ok(
                ControllerRequestTarget::CollectionFiltered,
            ),
            _ => Err(
                not_allowed(
                    "external controller collection filtering is not enabled for this method",
                ),
            ),
        },
        TargetExtraction::ExactThread => {
            if let Some(thread_id) = &request.serialization_thread_id {
                return Ok(ControllerRequestTarget::ExactThread(thread_id.clone()));
            }
            match &request.shape {
                ControllerRequestShape::ThreadResume { thread_id, .. } => Ok(
                    ControllerRequestTarget::ExactThread(thread_id.clone()),
                ),
                ControllerRequestShape::ThreadTurnsList { thread_id } => Ok(
                    ControllerRequestTarget::ExactThread(thread_id.clone()),
                ),
                ControllerRequestShape::ThreadItemsList { thread_id } => Ok(
                    ControllerRequestTarget::ExactThread(thread_id.clone()),
                ),
                ControllerRequestShape::ThreadSearchOccurrences { thread_id } => Ok(
                    ControllerRequestTarget::ExactThread(thread_id.clone()),
                ),
                ControllerRequestShape::McpResourceRead { thread_id } => match thread_id {
                    Some(thread_id) => Ok(ControllerRequestTarget::ExactThread(thread_id.clone())),
                    None => Err(
                        not_allowed(
                            "external controller exact thread target is required for this method",
                        ),
                    ),
                },
                _ => Err(
                    not_allowed(
                        "external controller target extraction is not enabled for this method",
                    ),
                ),
            }
        },
    }
}

/// Whether a controller request sets a parameter that stays TUI-only.
pub open spec fn sets_tui_only_params(shape: ControllerRequestShape) -> bool {
    match shape {
        ControllerRequestShape::ThreadResume { overrides, .. } => overrides.any(),
        ControllerRequestShape::TurnStart { overrides } => overrides.any(),
        ControllerRequestShape::TurnSteer { additional_context } => additional_context,
        ControllerRequestShape::ThreadSectionMove { before_thread_id } => before_thread_id,
        ControllerRequestShape::ThreadRealtimeStart { overrides } => overrides.any(),
        ControllerRequestShape::ThreadRealtimeAppendText { user_role } => !user_role,
        ControllerRequestShape::ReviewStart { detached_delivery } => detached_delivery,
        _ => false,
    }
}

/// The message a request that sets TUI-only parameters is refused with.
pub open spec fn tui_only_params_message(shape: ControllerRequestShape) -> Seq<char> {
    match shape {
        ControllerRequestShape::ThreadResume { .. } => "external controller thread/resume may only rejoin the authorized main thread without history, path, or configuration overrides"@,
        ControllerRequestShape::TurnStart { .. } => "external controller turn/start may only submit input for the authorized main thread without additional context or configuration overrides"@,
        ControllerRequestShape::TurnSteer { .. } => "external controller turn/steer may only steer the authorized main thread without additional context overrides"@,
        ControllerRequestShape::ThreadSectionMove { .. } => "external controller thread/section/move may not order the authorized main thread relative to another thread"@,
        ControllerRequestShape::ThreadRealtimeStart { .. } => "external controller thread/realtime/start may only start realtime input for the authorized main thread without context or configuration overrides"@,
        ControllerRequestShape::ThreadRealtimeAppendText { .. } => "external controller thread/realtime/appendText may only append user-role realtime text to the authorized main thread"@,
        ControllerRequestShape::ReviewStart { .. } => "external controller review/start may only run inline on the authorized main thread"@,
        _ => Seq::empty(),
    }
}

/// Refuses controller requests that set context, history or configuration
/// overrides that only the TUI may set.
pub fn reject_controller_tui_only_params(request: &ControllerRequestShape) -> (result: Result<
    (),
    ControllerNotAllowed,
>)
    ensures
        result is Ok <==> !sets_tui_only_params(*request),
        result matches Err(refusal) ==> refusal.message@ == tui_only_params_message(*request),
{
    match request {
        ControllerRequestShape::ThreadResume { overrides, .. } => if overrides.is_any() {
            Err(
                not_allowed(
                    "external controller thread/resume may only rejoin the authorized main thread without history, path, or configuration overrides",
                ),
            )
        } else {
            Ok(())
        },
        ControllerRequestShape::TurnStart { overrides } => if overrides.is_any() {
            Err(
                not_allowed(
                    "external controller turn/start may only submit input for the authorized main thread without additional context or configuration overrides",
                ),
            )
        } else {
            Ok(())
        },
        ControllerRequestShape::TurnSteer { additional_context } => if *additional_context {
            Err(
                not_allowed(
                    "external controller turn/steer may only steer the authorized main thread without additional context overrides",
                ),
            )
        } else {
            Ok(())
        },
        ControllerRequestShape::ThreadSectionMove { before_thread_id } => if *before_thread_id {
            Err(
                not_allowed(
                    "external controller thread/section/move may not order the authorized main thread relative to another thread",
                ),
            )
        } else {
            Ok(())
        },
        ControllerRequestShape::ThreadRealtimeStart { overrides } => if overrides.is_any() {
            Err(
                not_allowed(
                    "external controller thread/realtime/start may only start realtime input for the authorized main thread without context or configuration overrides",
                ),
            )
        } else {
            Ok(())
        },
        ControllerRequestShape::ThreadRealtimeAppendText { user_role } => if *user_role {
            Ok(())
        } else {
            Err(
                not_allowed(
                    "external controller thread/realtime/appendText may only append user-role realtime text to the authorized main thread",
                ),
            )
        },
        ControllerRequestShape::ReviewStart { detached_delivery } => if *detached_delivery {
            Err(
                not_allowed(
                    "external controller review/start may only run inline on the authorized main thread",
                ),
            )
        } else {
            Ok(())
        },
        _ => Ok(()),
    }
}

/// The refusal an external controller gets when it archives or deletes a
/// thread that has spawned descendants.
pub open spec fn descendant_target_message(method: Seq<char>) -> Seq<char> {
    "external controller "@ + method + " may not target spawned descendant threads"@
}

/// An external controller may archive or delete a thread only while its spawn
/// subtree holds that thread alone; `subtree_thread_count` counts the thread
/// and every descendant that the state store lists for it.
pub fn reject_controller_descendant_thread_targets(method: &str, subtree_thread_count: usize) -> (result:
    Result<(), ControllerNotAllowed>)
    ensures
        subtree_thread_count <= 1 ==> result is Ok,
        subtree_thread_count > 1 ==> result is Err && result->Err_0.message@
            == descendant_target_message(method@),
{
    if subtree_thread_count <= 1 {
        return Ok(());
    }
    let mut message = String::from_str("external controller ");
    push_str(&mut message, method);
    push_str(&mut message, " may not target spawned descendant threads");
    proof {
        reveal_strlit("external controller ");
        reveal_strlit(" may not target spawned descendant threads");
    }
    Err(ControllerNotAllowed { message })
}

/// Which threads a thread-collection request may list.
#[derive(Debug, PartialEq, Eq)]
pub enum ThreadListScope {
    All,
    SingleThread(String),
}

/// A controller whose authorization filters collections sees only its main
/// thread; every other caller sees all threads.
pub fn thread_collection_scope(controller_authorization: &Option<ControllerNormalAuthorization>) -> (scope:
    ThreadListScope)
    ensures
        match controller_authorization {
            Some(a) => if a.filter_collection_to_main_thread {
                scope matches ThreadListScope::SingleThread(t) && t@ == a.main_thread_id@
            } else {
                scope is All
            },
            None => scope is All,
        },
{
    match controller_authorization {
        Some(authorization) => if authorization.filter_collection_to_main_thread {
            ThreadListScope::SingleThread(authorization.main_thread_id.clone())
        } else {
            ThreadListScope::All
        },
        None => ThreadListScope::All,
    }
}

/// The thread whose primary input a request reclaims for the TUI: requests
/// from the TUI side (not an external controller) that need active-owner or
/// TUI-only authority and are serialized on one thread.
pub fn primary_input_reclaim_thread_id<'a>(
    origin: ConnectionOrigin,
    rule: AdmissionRule,
    serialization_thread_id: Option<&'a str>,
) -> (thread_id: Option<&'a str>)
    ensures
        thread_id == (if origin == ConnectionOrigin::ExternalController || !(rule.required_authority
            == RequiredAuthority::ActiveOwner || rule.required_authority
            == RequiredAuthority::TuiOnly) {
            None
        } else {
            serialization_thread_id
        }),
{
    if origin == ConnectionOrigin::ExternalController || !(rule.required_authority
        == RequiredAuthority::ActiveOwner || rule.required_authority == RequiredAuthority::TuiOnly) {
        return None;
    }
    serialization_thread_id
}

/// An exact-thread request is checked against the thread its serialization
/// scope names; without one, a request that names its thread in its
/// parameters (resume, turns, items, occurrence search) is checked against
/// that thread.
pub proof fn law_named_thread_is_the_exact_target(request: ControllerRequestFacts, rule: AdmissionRule)
    requires
        rule.target == TargetExtraction::ExactThread,
    ensures
        request.serialization_thread_id matches Some(t) ==> request_target(request, rule) == Ok::<
            TargetModel,
            Seq<char>,
        >(TargetModel::ExactThread(t@)),
        request.serialization_thread_id is None ==> match request.shape {
            ControllerRequestShape::ThreadResume { thread_id, .. } => request_target(request, rule)
                == Ok::<TargetModel, Seq<char>>(TargetModel::ExactThread(thread_id@)),
            ControllerRequestShape::ThreadTurnsList { thread_id } => request_target(request, rule)
                == Ok::<TargetModel, Seq<char>>(TargetModel::ExactThread(thread_id@)),
            ControllerRequestShape::ThreadItemsList { thread_id } => request_target(request, rule)
                == Ok::<TargetModel, Seq<char>>(TargetModel::ExactThread(thread_id@)),
            ControllerRequestShape::ThreadSearchOccurrences { thread_id } => request_target(
                request,
                rule,
            ) == Ok::<TargetModel, Seq<char>>(TargetModel::ExactThread(thread_id@)),
            _ => true,
        },
{
}

} // verus!

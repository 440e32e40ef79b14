//! The in-process embedding of the app server: TUI-mediated participation
//! approval for local external controllers, the local-controller endpoint
//! settings, and which server notifications must reach the embedded TUI.

use vstd::prelude::*;
use vstd::string::StringExecFns;

use crate::ids::ConnectionId;
use crate::local_controller::LocalControllerEndpointMetadata;

verus! {

/// Participation request of a live local controller connection, to be
/// approved by the owning TUI.
#[derive(Debug, PartialEq, Eq)]
pub struct NativeControllerParticipationRequest {
    pub connection_id: ConnectionId,
    pub controller_name: String,
    pub description: String,
    pub main_thread_id: String,
}

/// Identifier of a participation request put to the TUI.
#[derive(Clone, Copy, Debug, PartialEq, Eq, Hash, Structural)]
pub struct NativeControllerParticipationRequestId(pub u64);

/// The participation request as the in-process TUI receives it.
#[derive(Debug, PartialEq, Eq)]
pub struct InProcessControllerParticipationRequest {
    pub request_id: NativeControllerParticipationRequestId,
    pub controller_name: String,
    pub description: String,
    pub main_thread_id: String,
}

/// The TUI's answer to a participation request.
#[derive(Debug, PartialEq, Eq)]
pub enum NativeControllerParticipationDecision {
    Approved,
    Rejected { reason: String },
    TuiUnavailable { reason: String },
}

/// Participation requests put to the TUI and not yet answered.
pub struct NativeParticipationRequests {
    next_request_id: u64,
    pending: Vec<u64>,
}

impl NativeParticipationRequests {
    /// The next request id to hand out.
    pub closed spec fn next_id(&self) -> u64 {
        self.next_request_id
    }

    /// The ids of the requests awaiting an answer, oldest first.
    pub closed spec fn pending_ids(&self) -> Seq<u64> {
        self.pending@
    }

    /// Pending ids are distinct and all below the next id.
    pub closed spec fn well_formed(&self) -> bool {
        &&& forall|i: int|
            0 <= i < self.pending@.len() ==> #[trigger] self.pending@[i] < self.next_request_id
        &&& forall|i: int, j: int|
            0 <= i < j < self.pending@.len() ==> self.pending@[i] != self.pending@[j]
    }

    pub fn new() -> (requests: Self)
        ensures
            requests.well_formed(),
            requests.next_id() == 0,
            requests.pending_ids() == Seq::<u64>::empty(),
    {
        NativeParticipationRequests { next_request_id: 0, pending: Vec::new() }
    }

    /// Registers `request` under a fresh id and gives the event the TUI
    /// receives for it.
    pub fn begin(&mut self, request: NativeControllerParticipationRequest) -> (event:
        InProcessControllerParticipationRequest)
        requires
            old(self).well_formed(),
            old(self).next_id() < u64::MAX,
        ensures
            final(self).well_formed(),
            event.request_id.0 == old(self).next_id(),
            final(self).next_id() == old(self).next_id() + 1,
            final(self).pending_ids() == old(self).pending_ids().push(old(self).next_id()),
            event.controller_name == request.controller_name,
            event.description == request.description,
            event.main_thread_id == request.main_thread_id,
    {
        let id = self.next_request_id;
        self.pending.push(id);
        self.next_request_id = id + 1;
        InProcessControllerParticipationRequest {
            request_id: NativeControllerParticipationRequestId(id),
            controller_name: request.controller_name,
            description: request.description,
            main_thread_id: request.main_thread_id,
        }
    }

    /// Takes `request_id` out of the pending requests; says whether it was
    /// pending, so that each request is answered at most once.
    pub fn finish(&mut self, request_id: NativeControllerParticipationRequestId) -> (was_pending:
        bool)
        requires
            old(self).well_formed(),
        ensures
            final(self).well_formed(),
            final(self).next_id() == old(self).next_id(),
            was_pending == old(self).pending_ids().contains(request_id.0),
            forall|id: u64|
                #[trigger] final(self).pending_ids().contains(id) <==> (old(
                    self,
                ).pending_ids().contains(id) && id != request_id.0),
    {
        let ghost before = self.pending@;
        let mut kept: Vec<u64> = Vec::new();
        let mut found = false;
        let mut i: usize = 0;
        while i < self.pending.len()
            invariant
                self.pending@ == before,
                self.well_formed(),
                i <= before.len(),
                forall|id: u64|
                    #[trigger] kept@.contains(id) <==> (before.subrange(0, i as int).contains(id)
                        && id != request_id.0),
                forall|a: int, b: int| 0 <= a < b < kept@.len() ==> kept@[a] != kept@[b],
                forall|a: int| 0 <= a < kept@.len() ==> #[trigger] kept@[a] < self.next_request_id,
                found == before.subrange(0, i as int).contains(request_id.0),
            decreases before.len() - i,
        {
            let id = self.pending[i];
            let ghost old_kept = kept@;
            proof {
                let prefix = before.subrange(0, i as int);
                let next = before.subrange(0, i as int + 1);
                assert(next =~= prefix.push(id));
                assert forall|x: u64| #[trigger] next.contains(x) <==> (prefix.contains(x) || x == id) by {
                    if next.contains(x) {
                        let k = choose|k: int| 0 <= k < next.len() && next[k] == x;
                        if k < prefix.len() {
                            assert(prefix[k] == x);
                        }
                    }
                    if prefix.contains(x) {
                        let k = choose|k: int| 0 <= k < prefix.len() && prefix[k] == x;
                        assert(next[k] == x);
                    }
                    if x == id {
                        assert(next[i as int] == x);
                    }
                }
                assert(!prefix.contains(id)) by {
                    if prefix.contains(id) {
                        let k = choose|k: int| 0 <= k < prefix.len() && prefix[k] == id;
                        assert(before[k] == before[i as int]);
                    }
                }
            }
            if id == request_id.0 {
                found = true;
            } else {
                kept.push(id);
                proof {
                    assert forall|x: u64| #[trigger] kept@.contains(x) <==> (old_kept.contains(x) || x == id) by {
                        if kept@.contains(x) {
                            let k = choose|k: int| 0 <= k < kept@.len() && kept@[k] == x;
                            if k < old_kept.len() {
                                assert(old_kept[k] == x);
                            }
                        }
                        if old_kept.contains(x) {
                            let k = choose|k: int| 0 <= k < old_kept.len() && old_kept[k] == x;
                            assert(kept@[k] == x);
                        }
                        if x == id {
                            assert(kept@[old_kept.len() as int] == x);
                        }
                    }
                    assert forall|a: int, b: int| 0 <= a < b < kept@.len() implies kept@[a] != kept@[b] by {
                        if b == old_kept.len() {
                            assert(old_kept.contains(kept@[a]));
                        }
                    }
                }
            }
            i += 1;
        }
        proof {
            assert(before.subrange(0, before.len() as int) =~= before);
        }
        self.pending = kept;
        found
    }
}

/// The answer when the TUI could not be asked.
pub fn tui_not_available_decision() -> (decision: NativeControllerParticipationDecision)
    ensures
        decision matches NativeControllerParticipationDecision::TuiUnavailable { reason } && reason@
            == "owning TUI is not available for controller participation"@,
{
    NativeControllerParticipationDecision::TuiUnavailable {
        reason: String::from_str("owning TUI is not available for controller participation"),
    }
}

/// The answer when the TUI stopped without answering.
pub fn tui_stopped_decision() -> (decision: NativeControllerParticipationDecision)
    ensures
        decision matches NativeControllerParticipationDecision::TuiUnavailable { reason } && reason@
            == "owning TUI stopped before answering controller participation"@,
{
    NativeControllerParticipationDecision::TuiUnavailable {
        reason: String::from_str("owning TUI stopped before answering controller participation"),
    }
}

/// Whether an embedded app server exposes a local-controller endpoint.
#[derive(Debug, PartialEq, Eq)]
pub enum InProcessLocalControllerEndpointConfig {
    /// Do not expose a local-controller socket.
    Disabled,
    /// Try to expose one; startup goes on without controllers if that fails.
    BestEffort { main_thread_id: Option<String> },
    /// Expose one; startup fails if that fails.
    Enabled { main_thread_id: Option<String> },
}

/// What came of the local-controller endpoint at startup.
#[derive(Debug, PartialEq, Eq)]
pub enum InProcessLocalControllerEndpointStatus {
    Disabled,
    Available(LocalControllerEndpointMetadata),
    Unavailable { reason: String },
}

impl InProcessLocalControllerEndpointStatus {
    /// The endpoint metadata, when the endpoint is available.
    pub fn metadata(&self) -> (metadata: Option<&LocalControllerEndpointMetadata>)
        ensures
            match self {
                InProcessLocalControllerEndpointStatus::Available(m) => metadata == Some(m),
                _ => metadata is None,
            },
    {
        match self {
            InProcessLocalControllerEndpointStatus::Available(metadata) => Some(metadata),
            _ => None,
        }
    }
}

impl InProcessLocalControllerEndpointConfig {
    /// The main thread to publish if the endpoint is to be started, or
    /// `None` when it stays disabled.
    pub fn start_request(&self) -> (main_thread_id: Option<Option<String>>)
        ensures
            match self {
                InProcessLocalControllerEndpointConfig::Disabled => main_thread_id is None,
                InProcessLocalControllerEndpointConfig::BestEffort { main_thread_id: m } => main_thread_id
                    == Some(*m),
                InProcessLocalControllerEndpointConfig::Enabled { main_thread_id: m } => main_thread_id
                    == Some(*m),
            },
    {
        match self {
            InProcessLocalControllerEndpointConfig::Disabled => None,
            InProcessLocalControllerEndpointConfig::BestEffort { main_thread_id } => Some(
                main_thread_id.clone(),
            ),
            InProcessLocalControllerEndpointConfig::Enabled { main_thread_id } => Some(
                main_thread_id.clone(),
            ),
        }
    }

    /// The endpoint status once starting it gave `started` (`None` when it
    /// was not started). A failure is fatal only for `Enabled`: it is then
    /// the startup error.
    pub fn status_after_start(
        &self,
        started: Option<Result<LocalControllerEndpointMetadata, String>>,
    ) -> (status: Result<InProcessLocalControllerEndpointStatus, String>)
        requires
            (self is Disabled) == (started is None),
        ensures
            match (self, started) {
                (InProcessLocalControllerEndpointConfig::Disabled, _) => status == Ok::<
                    InProcessLocalControllerEndpointStatus,
                    String,
                >(InProcessLocalControllerEndpointStatus::Disabled),
                (_, Some(Ok(metadata))) => status == Ok::<
                    InProcessLocalControllerEndpointStatus,
                    String,
                >(InProcessLocalControllerEndpointStatus::Available(metadata)),
                (InProcessLocalControllerEndpointConfig::BestEffort { .. }, Some(Err(reason))) => status
                    == Ok::<InProcessLocalControllerEndpointStatus, String>(
                    InProcessLocalControllerEndpointStatus::Unavailable { reason },
                ),
                (InProcessLocalControllerEndpointConfig::Enabled { .. }, Some(Err(reason))) => status
                    == Err::<InProcessLocalControllerEndpointStatus, String>(reason),
                _ => false,
            },
    {
        match started {
            None => Ok(InProcessLocalControllerEndpointStatus::Disabled),
            Some(Ok(metadata)) => Ok(InProcessLocalControllerEndpointStatus::Available(metadata)),
            Some(Err(reason)) => match self {
                InProcessLocalControllerEndpointConfig::Enabled { .. } => Err(reason),
                _ => Ok(InProcessLocalControllerEndpointStatus::Unavailable { reason }),
            },
        }
    }
}

/// The kind of a server notification, as far as delivery to the embedded
/// TUI is concerned.
#[derive(Clone, Copy, Debug, PartialEq, Eq, Structural)]
pub enum ServerNotificationKind {
    TurnCompleted,
    ThreadStatusChanged,
    ThreadArchived,
    ThreadDeleted,
    ThreadUnarchived,
    ThreadClosed,
    ThreadNameUpdated,
    ThreadSettingsUpdated,
    ControllerAuthorizationChanged,
    ControllerControlOwnershipChanged,
    ItemCompleted,
    ExternalAgentConfigImportCompleted,
    AgentMessageDelta,
    PlanDelta,
    ReasoningSummaryTextDelta,
    ReasoningTextDelta,
    /// Any other notification.
    Other,
}

/// Notifications that carry transcript content or a terminal state change
/// must be delivered even when the embedded TUI lags; any other may be
/// dropped under backpressure.
pub open spec fn requires_delivery(kind: ServerNotificationKind) -> bool {
    !(kind is Other)
}

/// Whether a notification of `kind` must be delivered to the embedded TUI.
pub fn server_notification_requires_delivery(kind: ServerNotificationKind) -> (required: bool)
    ensures
        required == requires_delivery(kind),
{
    match kind {
        ServerNotificationKind::Other => false,
        ServerNotificationKind::TurnCompleted
        | ServerNotificationKind::ThreadStatusChanged
        | ServerNotificationKind::ThreadArchived
        | ServerNotificationKind::ThreadDeleted
        | ServerNotificationKind::ThreadUnarchived
        | ServerNotificationKind::ThreadClosed
        | ServerNotificationKind::ThreadNameUpdated
        | ServerNotificationKind::ThreadSettingsUpdated
        | ServerNotificationKind::ControllerAuthorizationChanged
        | ServerNotificationKind::ControllerControlOwnershipChanged
        | ServerNotificationKind::ItemCompleted
        | ServerNotificationKind::ExternalAgentConfigImportCompleted
        | ServerNotificationKind::AgentMessageDelta
        | ServerNotificationKind::PlanDelta
        | ServerNotificationKind::ReasoningSummaryTextDelta
        | ServerNotificationKind::ReasoningTextDelta => true,
    }
}

/// Only notifications of no lasting state may be dropped under backpressure:
/// every transcript, turn, thread-state and controller notification kind
/// must be delivered, and any other kind may be dropped.
pub proof fn law_only_other_notifications_may_be_dropped(kind: ServerNotificationKind)
    ensures
        !(kind is Other) ==> requires_delivery(kind),
        kind is Other ==> !requires_delivery(kind),
{
}

} // verus!

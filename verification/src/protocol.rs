//! Controller control-plane messages exchanged with external controllers.

use vstd::prelude::*;

verus! {

/// Display claims a controller sends when it asks to participate.
#[derive(Clone, Debug, PartialEq, Eq)]
pub struct ControllerRequestParticipationParams {
    pub controller_name: String,
    pub description: String,
}

/// Answer to a participation request.
#[derive(Clone, Debug, PartialEq, Eq)]
pub struct ControllerRequestParticipationResponse {
    pub status: ControllerParticipationStatus,
    pub session: Option<ControllerSession>,
    pub denial: Option<ControllerParticipationDenial>,
}

#[derive(Clone, Copy, Debug, PartialEq, Eq, Structural)]
pub enum ControllerParticipationStatus {
    Approved,
    Rejected,
}

#[derive(Clone, Debug, PartialEq, Eq)]
pub struct ControllerParticipationDenial {
    pub message: String,
    pub data: ControllerErrorData,
}

/// A controller's view of its session on the main thread.
#[derive(Debug, PartialEq, Eq)]
pub struct ControllerSession {
    pub session_id: String,
    pub main_thread_id: String,
    pub active_lease: Option<ControllerLease>,
    pub authorization_epoch: u64,
    pub session_sequence: u64,
    pub effective_capabilities: ControllerEffectiveCapabilities,
    pub lease_expires_in_ms: Option<u64>,
    pub authorization_expires_in_ms: Option<u64>,
}

/// The input-ownership lease a controller currently holds.
#[derive(Debug, PartialEq, Eq)]
pub struct ControllerLease {
    pub lease_id: String,
    pub owner_epoch: u64,
    pub expires_in_ms: Option<u64>,
}

/// What a controller session may do right now.
#[derive(Clone, Copy, Debug, PartialEq, Eq, Structural)]
pub struct ControllerEffectiveCapabilities {
    pub read_main_thread: bool,
    pub subscribe_main_thread: bool,
    pub acquire_control: bool,
    pub release_control: bool,
    pub mutate_main_thread: bool,
    pub answer_prompts: bool,
}

#[derive(Clone, Debug, PartialEq, Eq)]
pub struct ControllerAcquireControlResponse {
    pub session: ControllerSession,
}

#[derive(Clone, Debug, PartialEq, Eq)]
pub struct ControllerReleaseControlResponse {
    pub session: ControllerSession,
}

#[derive(Clone, Copy, Debug, Default, PartialEq, Eq, Structural)]
pub struct ControllerSignOffResponse {}

/// Tells a controller that its standing authorization changed.
#[derive(Debug, PartialEq, Eq)]
pub struct ControllerAuthorizationChangedNotification {
    pub session_id: String,
    pub main_thread_id: String,
    pub reason: ControllerAuthorizationChangedReason,
    pub authorization_epoch: u64,
    pub owner_epoch: u64,
    pub session_sequence: u64,
    pub session: Option<ControllerSession>,
}

#[derive(Clone, Copy, Debug, PartialEq, Eq, Structural)]
pub enum ControllerAuthorizationChangedReason {
    Approved,
    Rejected,
    Revoked,
    Expired,
    CredentialRotated,
    PolicyChanged,
    SignOff,
    Disconnected,
    MainThreadClosed,
    TuiUnavailable,
}

/// Tells a controller that input ownership of the main thread changed.
#[derive(Debug, PartialEq, Eq)]
pub struct ControllerControlOwnershipChangedNotification {
    pub session_id: String,
    pub main_thread_id: String,
    pub reason: ControllerControlOwnershipChangedReason,
    pub authorization_epoch: u64,
    pub owner_epoch: u64,
    pub session_sequence: u64,
    pub active_lease: Option<ControllerLease>,
}

#[derive(Clone, Copy, Debug, PartialEq, Eq, Structural)]
pub enum ControllerControlOwnershipChangedReason {
    InitialLeaseGranted,
    Acquired,
    Released,
    ReclaimedByTui,
    LeaseExpired,
    AuthorizationRevoked,
    ControllerDisconnected,
    SignOff,
    MainThreadClosed,
    TuiUnavailable,
}

/// Structured data attached to a controller error.
#[derive(Clone, Debug, PartialEq, Eq)]
pub struct ControllerErrorData {
    pub code: ControllerErrorCode,
    pub retry: ControllerRetryDisposition,
    pub retry_after_ms: Option<u64>,
    pub launch_state: Option<ControllerLaunchState>,
    pub main_thread_id: Option<String>,
    pub session_id: Option<String>,
    pub authorization_epoch: Option<u64>,
    pub owner_epoch: Option<u64>,
}

#[derive(Clone, Copy, Debug, PartialEq, Eq, Structural)]
pub enum ControllerErrorCode {
    ExperimentalNotEnabled,
    ParticipationRequired,
    EnrollmentDenied,
    MainThreadUnavailable,
    MainThreadClosed,
    TuiUnavailable,
    OwnershipConflict,
    StaleOwnership,
    ControllerNotAllowed,
    TransportClosing,
    DifferentThreadTarget,
    AuthorizationExpired,
    LeaseExpired,
    ControllerOverloaded,
}

#[derive(Clone, Copy, Debug, PartialEq, Eq, Structural)]
pub enum ControllerRetryDisposition {
    SameConnection,
    Reconnect,
    DoNotRetry,
}

#[derive(Clone, Copy, Debug, PartialEq, Eq, Structural)]
pub enum ControllerLaunchState {
    Starting,
    MainThreadClosed,
    TuiUnavailable,
    Closed,
}

// Mathematical views of the messages that carry text.

pub struct ControllerLeaseView {
    pub lease_id: Seq<char>,
    pub owner_epoch: u64,
    pub expires_in_ms: Option<u64>,
}

pub struct ControllerSessionView {
    pub session_id: Seq<char>,
    pub main_thread_id: Seq<char>,
    pub active_lease: Option<ControllerLeaseView>,
    pub authorization_epoch: u64,
    pub session_sequence: u64,
    pub effective_capabilities: ControllerEffectiveCapabilities,
    pub lease_expires_in_ms: Option<u64>,
    pub authorization_expires_in_ms: Option<u64>,
}

pub struct ControllerAuthorizationChangedView {
    pub session_id: Seq<char>,
    pub main_thread_id: Seq<char>,
    pub reason: ControllerAuthorizationChangedReason,
    pub authorization_epoch: u64,
    pub owner_epoch: u64,
    pub session_sequence: u64,
    pub session: Option<ControllerSessionView>,
}

pub struct ControllerControlOwnershipChangedView {
    pub session_id: Seq<char>,
    pub main_thread_id: Seq<char>,
    pub reason: ControllerControlOwnershipChangedReason,
    pub authorization_epoch: u64,
    pub owner_epoch: u64,
    pub session_sequence: u64,
    pub active_lease: Option<ControllerLeaseView>,
}

impl View for ControllerLease {
    type V = ControllerLeaseView;

    open spec fn view(&self) -> ControllerLeaseView {
        ControllerLeaseView {
            lease_id: self.lease_id@,
            owner_epoch: self.owner_epoch,
            expires_in_ms: self.expires_in_ms,
        }
    }
}

impl DeepView for ControllerLease {
    type V = ControllerLeaseView;

    open spec fn deep_view(&self) -> ControllerLeaseView {
        self@
    }
}

impl View for ControllerSession {
    type V = ControllerSessionView;

    open spec fn view(&self) -> ControllerSessionView {
        ControllerSessionView {
            session_id: self.session_id@,
            main_thread_id: self.main_thread_id@,
            active_lease: self.active_lease.deep_view(),
            authorization_epoch: self.authorization_epoch,
            session_sequence: self.session_sequence,
            effective_capabilities: self.effective_capabilities,
            lease_expires_in_ms: self.lease_expires_in_ms,
            authorization_expires_in_ms: self.authorization_expires_in_ms,
        }
    }
}

impl DeepView for ControllerSession {
    type V = ControllerSessionView;

    open spec fn deep_view(&self) -> ControllerSessionView {
        self@
    }
}

impl View for ControllerAuthorizationChangedNotification {
    type V = ControllerAuthorizationChangedView;

    open spec fn view(&self) -> ControllerAuthorizationChangedView {
        ControllerAuthorizationChangedView {
            session_id: self.session_id@,
            main_thread_id: self.main_thread_id@,
            reason: self.reason,
            authorization_epoch: self.authorization_epoch,
            owner_epoch: self.owner_epoch,
            session_sequence: self.session_sequence,
            session: self.session.deep_view(),
        }
    }
}

impl View for ControllerControlOwnershipChangedNotification {
    type V = ControllerControlOwnershipChangedView;

    open spec fn view(&self) -> ControllerControlOwnershipChangedView {
        ControllerControlOwnershipChangedView {
            session_id: self.session_id@,
            main_thread_id: self.main_thread_id@,
            reason: self.reason,
            authorization_epoch: self.authorization_epoch,
            owner_epoch: self.owner_epoch,
            session_sequence: self.session_sequence,
            active_lease: self.active_lease.deep_view(),
        }
    }
}

impl Clone for ControllerLease {
    fn clone(&self) -> (copy: Self)
        ensures
            copy == *self,
    {
        ControllerLease {
            lease_id: self.lease_id.clone(),
            owner_epoch: self.owner_epoch,
            expires_in_ms: self.expires_in_ms,
        }
    }
}

impl Clone for ControllerSession {
    fn clone(&self) -> (copy: Self)
        ensures
            copy == *self,
    {
        let active_lease = match &self.active_lease {
            Some(lease) => Some(lease.clone()),
            None => None,
        };
        ControllerSession {
            session_id: self.session_id.clone(),
            main_thread_id: self.main_thread_id.clone(),
            active_lease,
            authorization_epoch: self.authorization_epoch,
            session_sequence: self.session_sequence,
            effective_capabilities: self.effective_capabilities,
            lease_expires_in_ms: self.lease_expires_in_ms,
            authorization_expires_in_ms: self.authorization_expires_in_ms,
        }
    }
}

} // verus!

//! Mathematical model of the controller session coordinator.
//!
//! Each operation of `ControllerSessionCoordinator` is specified here as a
//! function from the model state (and the operation's inputs, the clock
//! reading `now` in milliseconds, and the fresh identifiers the operation
//! may mint) to the next model state and the operation's result.

use vstd::prelude::*;

use crate::ids::spec_uuid_text;
use crate::protocol::{
    ControllerAuthorizationChangedReason, ControllerAuthorizationChangedView,
    ControllerControlOwnershipChangedReason, ControllerControlOwnershipChangedView,
    ControllerEffectiveCapabilities, ControllerLeaseView, ControllerSessionView,
};
use crate::text::spec_decimal;

verus! {

/// Errors of the coordinator's operations.
#[derive(Clone, Copy, Debug, PartialEq, Eq, Structural)]
pub enum ControllerSessionError {
    ParticipationRequired,
    AuthorizationExpired,
    OwnershipConflict,
    TransferPending,
    MainThreadClosed,
    TuiUnavailable,
    DifferentMainThread,
    StaleOwnership,
}

/// A transfer of input ownership to a controller that has begun but not
/// completed.
#[derive(Clone, Copy, Debug, PartialEq, Eq, Structural)]
pub struct PendingControllerTransfer {
    pub connection_id: u64,
    pub owner_epoch: u64,
}

pub struct LeaseModel {
    pub lease_id: Seq<char>,
    pub owner_epoch: u64,
    pub expires_at: u64,
}

pub struct SessionModel {
    pub session_id: Seq<char>,
    pub connection_id: u64,
    pub main_thread_id: u128,
    pub authorization_epoch: u64,
    pub authorization_expires_at: u64,
    pub session_sequence: u64,
    pub active_lease: Option<LeaseModel>,
}

pub struct GrantModel {
    pub subject_id: Seq<char>,
    pub main_thread_id: u128,
    pub authorization_epoch: u64,
    pub authorization_expires_at: u64,
}

pub enum OwnerModel {
    TuiOwned { owner_epoch: u64 },
    TransferPending { owner_epoch: u64 },
    ControllerOwned { connection_id: u64, lease_id: Seq<char>, owner_epoch: u64 },
    TuiUnavailable { owner_epoch: u64 },
    Closed,
}

pub enum NotificationModel {
    AuthorizationChanged { connection_id: u64, notification: ControllerAuthorizationChangedView },
    ControlOwnershipChanged {
        connection_id: u64,
        notification: ControllerControlOwnershipChangedView,
    },
}

pub enum StatusOwnerModel {
    Tui,
    Controller { session_id: Seq<char> },
    TuiUnavailable,
    Closed,
}

pub struct StatusModel {
    pub main_thread_id: u128,
    pub owner: StatusOwnerModel,
    pub owner_epoch: u64,
    pub has_controller_session: bool,
    pub reason: ControllerControlOwnershipChangedReason,
}

pub struct CoordinatorModel {
    pub main_thread_id: u128,
    /// The reading of the coordinator's clock when it is fixed.
    pub fixed_clock: Option<u64>,
    pub lease_duration_ms: u64,
    pub owner: OwnerModel,
    pub last_owner_epoch: u64,
    pub sessions: Seq<SessionModel>,
    pub next_session_sequence: u64,
    pub notifications: Seq<NotificationModel>,
    pub ownership_statuses: Seq<StatusModel>,
}

/// Session result of an operation, as the controller sees it.
pub type SessionResult = Result<ControllerSessionView, ControllerSessionError>;

/// Whether `now` is a reading the coordinator's clock may give.
pub open spec fn reads_clock(s: CoordinatorModel, now: u64) -> bool {
    match s.fixed_clock {
        Some(fixed) => now == fixed,
        None => true,
    }
}

// ---------------------------------------------------------------------------
// Arithmetic on clock readings.

pub open spec fn saturating_sub(a: u64, b: u64) -> u64 {
    if a >= b {
        (a - b) as u64
    } else {
        0
    }
}

pub open spec fn saturating_add(a: u64, b: u64) -> u64 {
    if a + b <= u64::MAX {
        (a + b) as u64
    } else {
        u64::MAX
    }
}

// ---------------------------------------------------------------------------
// Owners.

pub open spec fn owner_epoch_of(owner: OwnerModel) -> Option<u64> {
    match owner {
        OwnerModel::TuiOwned { owner_epoch } => Some(owner_epoch),
        OwnerModel::TransferPending { owner_epoch } => Some(owner_epoch),
        OwnerModel::ControllerOwned { owner_epoch, .. } => Some(owner_epoch),
        OwnerModel::TuiUnavailable { owner_epoch } => Some(owner_epoch),
        OwnerModel::Closed => None,
    }
}

pub open spec fn is_terminal(owner: OwnerModel) -> bool {
    owner is TuiUnavailable || owner is Closed
}

// ---------------------------------------------------------------------------
// Session lookup by connection.

pub open spec fn has_session(sessions: Seq<SessionModel>, connection_id: u64) -> bool {
    exists|i: int| 0 <= i < sessions.len() && sessions[i].connection_id == connection_id
}

pub open spec fn session_index(sessions: Seq<SessionModel>, connection_id: u64) -> int {
    choose|i: int| 0 <= i < sessions.len() && sessions[i].connection_id == connection_id
}

pub open spec fn session_of(sessions: Seq<SessionModel>, connection_id: u64) -> Option<
    SessionModel,
> {
    if has_session(sessions, connection_id) {
        Some(sessions[session_index(sessions, connection_id)])
    } else {
        None
    }
}

/// No two sessions belong to the same connection.
pub open spec fn sessions_unique(sessions: Seq<SessionModel>) -> bool {
    forall|i: int, j: int|
        0 <= i < sessions.len() && 0 <= j < sessions.len() && i != j ==> sessions[i].connection_id
            != sessions[j].connection_id
}

// ---------------------------------------------------------------------------
// What a controller sees of its session.

pub open spec fn current_active_lease(session: SessionModel, owner: OwnerModel, now: u64) -> Option<
    LeaseModel,
> {
    match session.active_lease {
        None => None,
        Some(lease) => {
            if now >= lease.expires_at {
                None
            } else {
                match owner {
                    OwnerModel::ControllerOwned { connection_id, lease_id, owner_epoch } => {
                        if connection_id == session.connection_id && lease_id == lease.lease_id
                            && owner_epoch == lease.owner_epoch {
                            Some(lease)
                        } else {
                            None
                        }
                    },
                    _ => None,
                }
            }
        },
    }
}

pub open spec fn effective_capabilities(
    session: SessionModel,
    owner: OwnerModel,
    now: u64,
) -> ControllerEffectiveCapabilities {
    let standing_session = now < session.authorization_expires_at && !is_terminal(owner);
    let active_owner = current_active_lease(session, owner, now) is Some;
    let can_acquire = standing_session && match owner {
        OwnerModel::TuiOwned { .. } => true,
        OwnerModel::ControllerOwned { connection_id, .. } => connection_id
            == session.connection_id,
        _ => false,
    };
    ControllerEffectiveCapabilities {
        read_main_thread: standing_session,
        subscribe_main_thread: standing_session,
        acquire_control: can_acquire,
        release_control: standing_session,
        mutate_main_thread: active_owner,
        answer_prompts: active_owner,
    }
}

pub open spec fn lease_protocol(lease: LeaseModel, now: u64) -> ControllerLeaseView {
    ControllerLeaseView {
        lease_id: lease.lease_id,
        owner_epoch: lease.owner_epoch,
        expires_in_ms: Some(saturating_sub(lease.expires_at, now)),
    }
}

pub open spec fn active_lease_protocol(session: SessionModel, owner: OwnerModel, now: u64) -> Option<
    ControllerLeaseView,
> {
    match current_active_lease(session, owner, now) {
        Some(lease) => Some(lease_protocol(lease, now)),
        None => None,
    }
}

pub open spec fn session_protocol(
    session: SessionModel,
    owner: OwnerModel,
    now: u64,
) -> ControllerSessionView {
    let active_lease = active_lease_protocol(session, owner, now);
    ControllerSessionView {
        session_id: session.session_id,
        main_thread_id: spec_uuid_text(session.main_thread_id),
        active_lease,
        authorization_epoch: session.authorization_epoch,
        session_sequence: session.session_sequence,
        effective_capabilities: effective_capabilities(session, owner, now),
        lease_expires_in_ms: match active_lease {
            Some(lease) => lease.expires_in_ms,
            None => None,
        },
        authorization_expires_in_ms: Some(
            saturating_sub(session.authorization_expires_at, now),
        ),
    }
}

pub open spec fn protocol_session_of(s: CoordinatorModel, connection_id: u64, now: u64) -> Option<
    ControllerSessionView,
> {
    match session_of(s.sessions, connection_id) {
        Some(session) => Some(session_protocol(session, s.owner, now)),
        None => None,
    }
}

pub open spec fn session_or_required(s: CoordinatorModel, connection_id: u64, now: u64) -> SessionResult {
    match protocol_session_of(s, connection_id, now) {
        Some(view) => Ok(view),
        None => Err(ControllerSessionError::ParticipationRequired),
    }
}

// ---------------------------------------------------------------------------
// Owner epochs and state updates.

pub open spec fn epoch_for_notification(s: CoordinatorModel) -> u64 {
    match owner_epoch_of(s.owner) {
        Some(owner_epoch) => owner_epoch,
        None => s.last_owner_epoch,
    }
}

pub open spec fn next_owner_epoch(s: CoordinatorModel) -> u64 {
    (epoch_for_notification(s) + 1) as u64
}

pub open spec fn set_owner(s: CoordinatorModel, owner: OwnerModel) -> CoordinatorModel {
    CoordinatorModel {
        owner,
        last_owner_epoch: match owner_epoch_of(owner) {
            Some(owner_epoch) => owner_epoch,
            None => s.last_owner_epoch,
        },
        ..s
    }
}

pub open spec fn transfer_to_tui_owned_after(s: CoordinatorModel, owner_epoch: u64) -> CoordinatorModel {
    set_owner(s, OwnerModel::TuiOwned { owner_epoch: (owner_epoch + 1) as u64 })
}

pub open spec fn clear_active_lease(s: CoordinatorModel, connection_id: u64) -> CoordinatorModel {
    let sequence = s.next_session_sequence;
    let sessions = if has_session(s.sessions, connection_id) {
        let i = session_index(s.sessions, connection_id);
        s.sessions.update(
            i,
            SessionModel { active_lease: None, session_sequence: sequence, ..s.sessions[i] },
        )
    } else {
        s.sessions
    };
    CoordinatorModel { sessions, next_session_sequence: (sequence + 1) as u64, ..s }
}

pub open spec fn clear_all_active_leases(s: CoordinatorModel) -> CoordinatorModel {
    CoordinatorModel {
        sessions: Seq::new(
            s.sessions.len(),
            |i: int|
                SessionModel {
                    active_lease: None,
                    session_sequence: (s.next_session_sequence + i) as u64,
                    ..s.sessions[i]
                },
        ),
        next_session_sequence: (s.next_session_sequence + s.sessions.len()) as u64,
        ..s
    }
}

// ---------------------------------------------------------------------------
// Events.

pub open spec fn status_owner(s: CoordinatorModel) -> StatusOwnerModel {
    match s.owner {
        OwnerModel::TuiOwned { .. } => StatusOwnerModel::Tui,
        OwnerModel::TransferPending { .. } => StatusOwnerModel::Tui,
        OwnerModel::ControllerOwned { connection_id, .. } => StatusOwnerModel::Controller {
            session_id: match session_of(s.sessions, connection_id) {
                Some(session) => session.session_id,
                None => "controller-connection-"@ + spec_decimal(connection_id as nat),
            },
        },
        OwnerModel::TuiUnavailable { .. } => StatusOwnerModel::TuiUnavailable,
        OwnerModel::Closed => StatusOwnerModel::Closed,
    }
}

pub open spec fn ownership_status(
    s: CoordinatorModel,
    reason: ControllerControlOwnershipChangedReason,
) -> StatusModel {
    StatusModel {
        main_thread_id: s.main_thread_id,
        owner: status_owner(s),
        owner_epoch: epoch_for_notification(s),
        has_controller_session: s.sessions.len() > 0,
        reason,
    }
}

pub open spec fn push_ownership_status(
    s: CoordinatorModel,
    reason: ControllerControlOwnershipChangedReason,
) -> CoordinatorModel {
    CoordinatorModel {
        ownership_statuses: s.ownership_statuses.push(ownership_status(s, reason)),
        ..s
    }
}

pub open spec fn control_note(
    s: CoordinatorModel,
    session: SessionModel,
    reason: ControllerControlOwnershipChangedReason,
    with_lease: bool,
    now: u64,
) -> NotificationModel {
    NotificationModel::ControlOwnershipChanged {
        connection_id: session.connection_id,
        notification: ControllerControlOwnershipChangedView {
            session_id: session.session_id,
            main_thread_id: spec_uuid_text(session.main_thread_id),
            reason,
            authorization_epoch: session.authorization_epoch,
            owner_epoch: epoch_for_notification(s),
            session_sequence: session.session_sequence,
            active_lease: if with_lease {
                active_lease_protocol(session, s.owner, now)
            } else {
                None
            },
        },
    }
}

pub open spec fn authorization_note(
    s: CoordinatorModel,
    session: SessionModel,
    reason: ControllerAuthorizationChangedReason,
    with_session: bool,
    now: u64,
) -> NotificationModel {
    NotificationModel::AuthorizationChanged {
        connection_id: session.connection_id,
        notification: ControllerAuthorizationChangedView {
            session_id: session.session_id,
            main_thread_id: spec_uuid_text(session.main_thread_id),
            reason,
            authorization_epoch: session.authorization_epoch,
            owner_epoch: epoch_for_notification(s),
            session_sequence: session.session_sequence,
            session: if with_session {
                Some(session_protocol(session, s.owner, now))
            } else {
                None
            },
        },
    }
}

pub open spec fn push_note(s: CoordinatorModel, note: NotificationModel) -> CoordinatorModel {
    CoordinatorModel { notifications: s.notifications.push(note), ..s }
}

/// Records an ownership status and tells every session, with its current
/// lease, that input ownership changed.
pub open spec fn push_control_for_all(
    s: CoordinatorModel,
    reason: ControllerControlOwnershipChangedReason,
    now: u64,
) -> CoordinatorModel {
    let s1 = push_ownership_status(s, reason);
    CoordinatorModel {
        notifications: s1.notifications + s.sessions.map_values(
            |session: SessionModel| control_note(s, session, reason, true, now),
        ),
        ..s1
    }
}

pub open spec fn push_authorization_for_connection(
    s: CoordinatorModel,
    connection_id: u64,
    reason: ControllerAuthorizationChangedReason,
    now: u64,
) -> CoordinatorModel {
    match session_of(s.sessions, connection_id) {
        Some(session) => push_note(s, authorization_note(s, session, reason, true, now)),
        None => s,
    }
}

/// Tells each session of `revoked`, in order, that it lost ownership and
/// authorization; with `renumber`, each first takes the next session
/// sequence number.
pub open spec fn push_revocation_notes(
    s: CoordinatorModel,
    revoked: Seq<SessionModel>,
    ownership_reason: ControllerControlOwnershipChangedReason,
    authorization_reason: ControllerAuthorizationChangedReason,
    renumber: bool,
) -> CoordinatorModel
    decreases revoked.len(),
{
    if revoked.len() == 0 {
        s
    } else {
        let s0 = push_revocation_notes(
            s,
            revoked.drop_last(),
            ownership_reason,
            authorization_reason,
            renumber,
        );
        let session = if renumber {
            SessionModel { session_sequence: s0.next_session_sequence, ..revoked.last() }
        } else {
            revoked.last()
        };
        let s1 = if renumber {
            CoordinatorModel {
                next_session_sequence: (s0.next_session_sequence + 1) as u64,
                ..s0
            }
        } else {
            s0
        };
        push_note(
            push_note(s1, control_note(s1, session, ownership_reason, false, 0)),
            authorization_note(s1, session, authorization_reason, false, 0),
        )
    }
}

// ---------------------------------------------------------------------------
// Revocation and deadlines.

pub open spec fn revoke_session_with_reason(
    s: CoordinatorModel,
    connection_id: u64,
    authorization_reason: ControllerAuthorizationChangedReason,
    ownership_reason: ControllerControlOwnershipChangedReason,
    notify_revoked: bool,
    now: u64,
) -> CoordinatorModel {
    if !has_session(s.sessions, connection_id) {
        s
    } else {
        let i = session_index(s.sessions, connection_id);
        let sequence = s.next_session_sequence;
        let revoked = SessionModel { session_sequence: sequence, ..s.sessions[i] };
        let s1 = CoordinatorModel {
            sessions: s.sessions.remove(i),
            next_session_sequence: (sequence + 1) as u64,
            ..s
        };
        let s2 = match s1.owner {
            OwnerModel::ControllerOwned { connection_id: owner_connection_id, owner_epoch, .. } => {
                if owner_connection_id == connection_id {
                    let t = transfer_to_tui_owned_after(s1, owner_epoch);
                    let t2 = if notify_revoked {
                        push_note(t, control_note(t, revoked, ownership_reason, false, now))
                    } else {
                        t
                    };
                    push_control_for_all(t2, ownership_reason, now)
                } else {
                    s1
                }
            },
            _ => s1,
        };
        if notify_revoked {
            push_note(s2, authorization_note(s2, revoked, authorization_reason, false, now))
        } else {
            s2
        }
    }
}

/// Connections whose standing authorization has run out at `now`, in
/// session order.
pub open spec fn expired_connections(sessions: Seq<SessionModel>, now: u64) -> Seq<u64>
    decreases sessions.len(),
{
    if sessions.len() == 0 {
        Seq::empty()
    } else {
        let rest = expired_connections(sessions.drop_last(), now);
        if now >= sessions.last().authorization_expires_at {
            rest.push(sessions.last().connection_id)
        } else {
            rest
        }
    }
}

pub open spec fn revoke_expired(s: CoordinatorModel, connections: Seq<u64>, now: u64) -> CoordinatorModel
    decreases connections.len(),
{
    if connections.len() == 0 {
        s
    } else {
        revoke_session_with_reason(
            revoke_expired(s, connections.drop_last(), now),
            connections.last(),
            ControllerAuthorizationChangedReason::Expired,
            ControllerControlOwnershipChangedReason::AuthorizationRevoked,
            true,
            now,
        )
    }
}

pub open spec fn expire_authorizations_at(s: CoordinatorModel, now: u64) -> CoordinatorModel {
    revoke_expired(s, expired_connections(s.sessions, now), now)
}

pub open spec fn owner_lease_expired(s: CoordinatorModel, connection_id: u64, now: u64) -> bool {
    match session_of(s.sessions, connection_id) {
        Some(session) => match session.active_lease {
            Some(lease) => now >= lease.expires_at,
            None => true,
        },
        None => true,
    }
}

pub open spec fn expire_active_lease_at(s: CoordinatorModel, now: u64) -> CoordinatorModel {
    match s.owner {
        OwnerModel::ControllerOwned { connection_id, owner_epoch, .. } => {
            if owner_lease_expired(s, connection_id, now) {
                push_control_for_all(
                    transfer_to_tui_owned_after(clear_active_lease(s, connection_id), owner_epoch),
                    ControllerControlOwnershipChangedReason::LeaseExpired,
                    now,
                )
            } else {
                s
            }
        },
        _ => s,
    }
}

pub open spec fn expire_deadlines_at(s: CoordinatorModel, now: u64) -> CoordinatorModel {
    expire_active_lease_at(expire_authorizations_at(s, now), now)
}

// ---------------------------------------------------------------------------
// Checks.

pub open spec fn require_live_session(s: CoordinatorModel, connection_id: u64, now: u64) -> Result<
    (),
    ControllerSessionError,
> {
    match session_of(s.sessions, connection_id) {
        None => Err(ControllerSessionError::ParticipationRequired),
        Some(session) => if now >= session.authorization_expires_at {
            Err(ControllerSessionError::AuthorizationExpired)
        } else {
            Ok(())
        },
    }
}

pub open spec fn connection_authorization_expired(
    s: CoordinatorModel,
    connection_id: u64,
    now: u64,
) -> bool {
    match session_of(s.sessions, connection_id) {
        Some(session) => now >= session.authorization_expires_at,
        None => false,
    }
}

pub open spec fn ensure_not_terminal(owner: OwnerModel) -> Result<(), ControllerSessionError> {
    match owner {
        OwnerModel::TuiUnavailable { .. } => Err(ControllerSessionError::TuiUnavailable),
        OwnerModel::Closed => Err(ControllerSessionError::MainThreadClosed),
        _ => Ok(()),
    }
}

/// The checks every session-scoped request passes first: expire deadlines,
/// then refuse expired authorization, terminal states and unknown sessions.
pub open spec fn session_gate(s: CoordinatorModel, connection_id: u64, now: u64) -> (
    CoordinatorModel,
    Result<(), ControllerSessionError>,
) {
    let authorization_expired = connection_authorization_expired(s, connection_id, now);
    let s1 = expire_deadlines_at(s, now);
    if authorization_expired {
        (s1, Err(ControllerSessionError::AuthorizationExpired))
    } else if ensure_not_terminal(s1.owner) is Err {
        (s1, ensure_not_terminal(s1.owner))
    } else {
        (s1, require_live_session(s1, connection_id, now))
    }
}

// ---------------------------------------------------------------------------
// Sessions and leases.

pub open spec fn fresh_session_id(suffix: Seq<char>) -> Seq<char> {
    "controller-session-"@ + suffix
}

pub open spec fn fresh_lease_id(suffix: Seq<char>) -> Seq<char> {
    "controller-lease-"@ + suffix
}

pub open spec fn upsert_session(
    s: CoordinatorModel,
    connection_id: u64,
    grant: GrantModel,
    new_session_id: Seq<char>,
) -> CoordinatorModel {
    let existing = session_of(s.sessions, connection_id);
    let sequence = s.next_session_sequence;
    let session = SessionModel {
        session_id: match existing {
            Some(old) => old.session_id,
            None => new_session_id,
        },
        connection_id,
        main_thread_id: grant.main_thread_id,
        authorization_epoch: grant.authorization_epoch,
        authorization_expires_at: grant.authorization_expires_at,
        session_sequence: sequence,
        active_lease: match existing {
            Some(old) => old.active_lease,
            None => None,
        },
    };
    let sessions = if has_session(s.sessions, connection_id) {
        s.sessions.update(session_index(s.sessions, connection_id), session)
    } else {
        s.sessions.push(session)
    };
    CoordinatorModel { sessions, next_session_sequence: (sequence + 1) as u64, ..s }
}

pub open spec fn issue_lease(
    s: CoordinatorModel,
    connection_id: u64,
    owner_epoch: u64,
    now: u64,
    lease_id: Seq<char>,
) -> (CoordinatorModel, SessionResult) {
    let sequence = s.next_session_sequence;
    let s1 = CoordinatorModel { next_session_sequence: (sequence + 1) as u64, ..s };
    if !has_session(s.sessions, connection_id) {
        (s1, Err(ControllerSessionError::ParticipationRequired))
    } else {
        let i = session_index(s.sessions, connection_id);
        let lease = LeaseModel {
            lease_id,
            owner_epoch,
            expires_at: saturating_add(now, s.lease_duration_ms),
        };
        let s2 = CoordinatorModel {
            sessions: s.sessions.update(
                i,
                SessionModel {
                    active_lease: Some(lease),
                    session_sequence: sequence,
                    ..s.sessions[i]
                },
            ),
            ..s1
        };
        let s3 = set_owner(s2, OwnerModel::ControllerOwned { connection_id, lease_id, owner_epoch });
        (s3, session_or_required(s3, connection_id, now))
    }
}

pub open spec fn begin_transfer_to_controller(
    s: CoordinatorModel,
    connection_id: u64,
    now: u64,
) -> (CoordinatorModel, Result<PendingControllerTransfer, ControllerSessionError>) {
    let (s1, gate) = session_gate(s, connection_id, now);
    match gate {
        Err(e) => (s1, Err(e)),
        Ok(_) => match s1.owner {
            OwnerModel::TuiOwned { owner_epoch } => {
                let next = (owner_epoch + 1) as u64;
                (
                    set_owner(s1, OwnerModel::TransferPending { owner_epoch: next }),
                    Ok(PendingControllerTransfer { connection_id, owner_epoch: next }),
                )
            },
            OwnerModel::ControllerOwned { .. } => (
                s1,
                Err(ControllerSessionError::OwnershipConflict),
            ),
            OwnerModel::TransferPending { .. } => (
                s1,
                Err(ControllerSessionError::TransferPending),
            ),
            OwnerModel::TuiUnavailable { .. } => (s1, Err(ControllerSessionError::TuiUnavailable)),
            OwnerModel::Closed => (s1, Err(ControllerSessionError::MainThreadClosed)),
        },
    }
}

pub open spec fn complete_transfer_to_controller(
    s: CoordinatorModel,
    transfer: PendingControllerTransfer,
    reason: Option<ControllerControlOwnershipChangedReason>,
    now: u64,
    lease_id: Seq<char>,
) -> (CoordinatorModel, SessionResult) {
    match require_live_session(s, transfer.connection_id, now) {
        Err(e) => (s, Err(e)),
        Ok(_) => {
            let (s1, result) = match s.owner {
                OwnerModel::TransferPending { owner_epoch } => {
                    if owner_epoch == transfer.owner_epoch {
                        issue_lease(s, transfer.connection_id, transfer.owner_epoch, now, lease_id)
                    } else {
                        (s, Err(ControllerSessionError::StaleOwnership))
                    }
                },
                OwnerModel::ControllerOwned { connection_id, .. } => {
                    if connection_id == transfer.connection_id {
                        (s, session_or_required(s, transfer.connection_id, now))
                    } else {
                        (s, Err(ControllerSessionError::StaleOwnership))
                    }
                },
                OwnerModel::Closed => (s, Err(ControllerSessionError::MainThreadClosed)),
                OwnerModel::TuiUnavailable { .. } => (
                    s,
                    Err(ControllerSessionError::TuiUnavailable),
                ),
                OwnerModel::TuiOwned { .. } => (s, Err(ControllerSessionError::StaleOwnership)),
            };
            match (result, reason) {
                (Ok(_), Some(reason)) => (push_control_for_all(s1, reason, now), result),
                _ => (s1, result),
            }
        },
    }
}

// ---------------------------------------------------------------------------
// Public operations.

pub open spec fn request_participation(
    s: CoordinatorModel,
    connection_id: u64,
    grant: GrantModel,
    now: u64,
    session_id: Seq<char>,
    lease_id: Seq<char>,
) -> (CoordinatorModel, SessionResult) {
    let s1 = expire_deadlines_at(s, now);
    if grant.main_thread_id != s1.main_thread_id {
        (s1, Err(ControllerSessionError::DifferentMainThread))
    } else if ensure_not_terminal(s1.owner) is Err {
        (s1, Err(ensure_not_terminal(s1.owner)->Err_0))
    } else if now >= grant.authorization_expires_at {
        (s1, Err(ControllerSessionError::AuthorizationExpired))
    } else {
        let s2 = upsert_session(s1, connection_id, grant, session_id);
        let s3 = push_authorization_for_connection(
            s2,
            connection_id,
            ControllerAuthorizationChangedReason::Approved,
            now,
        );
        match s3.owner {
            OwnerModel::TuiOwned { .. } => {
                let (s4, transfer) = begin_transfer_to_controller(s3, connection_id, now);
                match transfer {
                    Err(e) => (s4, Err(e)),
                    Ok(transfer) => complete_transfer_to_controller(
                        s4,
                        transfer,
                        Some(ControllerControlOwnershipChangedReason::InitialLeaseGranted),
                        now,
                        lease_id,
                    ),
                }
            },
            OwnerModel::ControllerOwned { .. } => (
                s3,
                session_or_required(s3, connection_id, now),
            ),
            OwnerModel::TransferPending { .. } => (
                s3,
                session_or_required(s3, connection_id, now),
            ),
            OwnerModel::TuiUnavailable { .. } => (s3, Err(ControllerSessionError::TuiUnavailable)),
            OwnerModel::Closed => (s3, Err(ControllerSessionError::MainThreadClosed)),
        }
    }
}

pub open spec fn owned_by(owner: OwnerModel, connection_id: u64) -> bool {
    match owner {
        OwnerModel::ControllerOwned { connection_id: owner_connection_id, .. } => owner_connection_id
            == connection_id,
        _ => false,
    }
}

pub open spec fn acquire_control(
    s: CoordinatorModel,
    connection_id: u64,
    now: u64,
    lease_id: Seq<char>,
) -> (CoordinatorModel, SessionResult) {
    let (s1, gate) = session_gate(s, connection_id, now);
    if gate is Err {
        (s1, Err(gate->Err_0))
    } else if owned_by(s1.owner, connection_id) {
        (s1, session_or_required(s1, connection_id, now))
    } else {
        let (s2, transfer) = begin_transfer_to_controller(s1, connection_id, now);
        match transfer {
            Err(e) => (s2, Err(e)),
            Ok(transfer) => complete_transfer_to_controller(
                s2,
                transfer,
                Some(ControllerControlOwnershipChangedReason::Acquired),
                now,
                lease_id,
            ),
        }
    }
}

/// Hands ownership held by `connection_id` back to the TUI.
pub open spec fn return_to_tui(
    s: CoordinatorModel,
    connection_id: u64,
    owner_epoch: u64,
    reason: ControllerControlOwnershipChangedReason,
    now: u64,
) -> CoordinatorModel {
    push_control_for_all(
        transfer_to_tui_owned_after(clear_active_lease(s, connection_id), owner_epoch),
        reason,
        now,
    )
}

pub open spec fn release_control(s: CoordinatorModel, connection_id: u64, now: u64) -> (
    CoordinatorModel,
    SessionResult,
) {
    let (s1, gate) = session_gate(s, connection_id, now);
    if gate is Err {
        (s1, Err(gate->Err_0))
    } else {
        match s1.owner {
            OwnerModel::ControllerOwned { connection_id: owner_connection_id, owner_epoch, .. } => {
                if owner_connection_id == connection_id {
                    let s2 = return_to_tui(
                        s1,
                        connection_id,
                        owner_epoch,
                        ControllerControlOwnershipChangedReason::Released,
                        now,
                    );
                    (s2, session_or_required(s2, connection_id, now))
                } else {
                    (s1, session_or_required(s1, connection_id, now))
                }
            },
            OwnerModel::TransferPending { .. } => (
                s1,
                Err(ControllerSessionError::TransferPending),
            ),
            OwnerModel::TuiUnavailable { .. } => (s1, Err(ControllerSessionError::TuiUnavailable)),
            OwnerModel::Closed => (s1, Err(ControllerSessionError::MainThreadClosed)),
            OwnerModel::TuiOwned { .. } => (s1, session_or_required(s1, connection_id, now)),
        }
    }
}

pub open spec fn require_standing_session(s: CoordinatorModel, connection_id: u64, now: u64) -> (
    CoordinatorModel,
    Result<u128, ControllerSessionError>,
) {
    let (s1, gate) = session_gate(s, connection_id, now);
    match gate {
        Err(e) => (s1, Err(e)),
        Ok(_) => (s1, Ok(s1.main_thread_id)),
    }
}

pub open spec fn require_active_owner_with_epoch(
    s: CoordinatorModel,
    connection_id: u64,
    now: u64,
) -> (CoordinatorModel, Result<(u128, u64), ControllerSessionError>) {
    let (s1, gate) = session_gate(s, connection_id, now);
    if gate is Err {
        (s1, Err(gate->Err_0))
    } else {
        match session_of(s1.sessions, connection_id) {
            None => (s1, Err(ControllerSessionError::ParticipationRequired)),
            Some(session) => {
                if current_active_lease(session, s1.owner, now) is Some {
                    match s1.owner {
                        OwnerModel::ControllerOwned { owner_epoch, .. } => (
                            s1,
                            Ok((s1.main_thread_id, owner_epoch)),
                        ),
                        _ => (s1, Err(ControllerSessionError::StaleOwnership)),
                    }
                } else {
                    match s1.owner {
                        OwnerModel::ControllerOwned { connection_id: owner_connection_id, .. } => {
                            if owner_connection_id != connection_id {
                                (s1, Err(ControllerSessionError::OwnershipConflict))
                            } else {
                                (s1, Err(ControllerSessionError::StaleOwnership))
                            }
                        },
                        OwnerModel::TransferPending { .. } => (
                            s1,
                            Err(ControllerSessionError::TransferPending),
                        ),
                        OwnerModel::TuiUnavailable { .. } => (
                            s1,
                            Err(ControllerSessionError::TuiUnavailable),
                        ),
                        OwnerModel::Closed => (s1, Err(ControllerSessionError::MainThreadClosed)),
                        OwnerModel::TuiOwned { .. } => (
                            s1,
                            Err(ControllerSessionError::StaleOwnership),
                        ),
                    }
                }
            },
        }
    }
}

pub open spec fn reclaim_for_tui(s: CoordinatorModel, now: u64) -> (
    CoordinatorModel,
    Result<(), ControllerSessionError>,
) {
    let s1 = expire_active_lease_at(s, now);
    match s1.owner {
        OwnerModel::ControllerOwned { connection_id, owner_epoch, .. } => (
            return_to_tui(
                s1,
                connection_id,
                owner_epoch,
                ControllerControlOwnershipChangedReason::ReclaimedByTui,
                now,
            ),
            Ok(()),
        ),
        OwnerModel::TuiOwned { .. } => (s1, Ok(())),
        OwnerModel::TransferPending { owner_epoch } => (
            transfer_to_tui_owned_after(s1, owner_epoch),
            Ok(()),
        ),
        OwnerModel::TuiUnavailable { .. } => (s1, Err(ControllerSessionError::TuiUnavailable)),
        OwnerModel::Closed => (s1, Err(ControllerSessionError::MainThreadClosed)),
    }
}

pub open spec fn revoke_all_sessions_for_tui_policy(s: CoordinatorModel) -> CoordinatorModel {
    if s.sessions.len() == 0 {
        s
    } else {
        let s1 = CoordinatorModel { sessions: Seq::empty(), ..s };
        let s2 = match s1.owner {
            OwnerModel::ControllerOwned { owner_epoch, .. } => transfer_to_tui_owned_after(
                s1,
                owner_epoch,
            ),
            _ => s1,
        };
        push_ownership_status(
            push_revocation_notes(
                s2,
                s.sessions,
                ControllerControlOwnershipChangedReason::AuthorizationRevoked,
                ControllerAuthorizationChangedReason::Revoked,
                true,
            ),
            ControllerControlOwnershipChangedReason::AuthorizationRevoked,
        )
    }
}

pub open spec fn mark_tui_unavailable(s: CoordinatorModel) -> (
    CoordinatorModel,
    Result<(), ControllerSessionError>,
) {
    if s.owner is Closed {
        (s, Err(ControllerSessionError::MainThreadClosed))
    } else {
        let s1 = clear_all_active_leases(s);
        let s2 = set_owner(s1, OwnerModel::TuiUnavailable { owner_epoch: next_owner_epoch(s1) });
        let s3 = CoordinatorModel { sessions: Seq::empty(), ..s2 };
        (
            push_ownership_status(
                push_revocation_notes(
                    s3,
                    s2.sessions,
                    ControllerControlOwnershipChangedReason::TuiUnavailable,
                    ControllerAuthorizationChangedReason::TuiUnavailable,
                    false,
                ),
                ControllerControlOwnershipChangedReason::TuiUnavailable,
            ),
            Ok(()),
        )
    }
}

pub open spec fn close_main_thread(s: CoordinatorModel) -> CoordinatorModel {
    let s1 = clear_all_active_leases(s);
    let s2 = CoordinatorModel {
        last_owner_epoch: next_owner_epoch(s1),
        owner: OwnerModel::Closed,
        ..s1
    };
    let s3 = CoordinatorModel { sessions: Seq::empty(), ..s2 };
    push_ownership_status(
        push_revocation_notes(
            s3,
            s2.sessions,
            ControllerControlOwnershipChangedReason::MainThreadClosed,
            ControllerAuthorizationChangedReason::MainThreadClosed,
            false,
        ),
        ControllerControlOwnershipChangedReason::MainThreadClosed,
    )
}

pub open spec fn initial_state(
    main_thread_id: u128,
    lease_duration_ms: u64,
    fixed_clock: Option<u64>,
) -> CoordinatorModel {
    CoordinatorModel {
        main_thread_id,
        fixed_clock,
        lease_duration_ms,
        owner: OwnerModel::TuiOwned { owner_epoch: 0 },
        last_owner_epoch: 0,
        sessions: Seq::empty(),
        next_session_sequence: 1,
        notifications: Seq::empty(),
        ownership_statuses: Seq::empty(),
    }
}


// ---------------------------------------------------------------------------
// Facts about the model used by the implementation.

pub proof fn lemma_unique_remove(sessions: Seq<SessionModel>, i: int)
    requires
        sessions_unique(sessions),
        0 <= i < sessions.len(),
    ensures
        sessions_unique(sessions.remove(i)),
{
    let r = sessions.remove(i);
    assert forall|a: int, b: int|
        0 <= a < r.len() && 0 <= b < r.len() && a != b implies r[a].connection_id
            != r[b].connection_id by {
        let a2 = if a < i {
            a
        } else {
            a + 1
        };
        let b2 = if b < i {
            b
        } else {
            b + 1
        };
        assert(r[a] == sessions[a2]);
        assert(r[b] == sessions[b2]);
    }
}

pub proof fn lemma_unique_push(sessions: Seq<SessionModel>, session: SessionModel)
    requires
        sessions_unique(sessions),
        !has_session(sessions, session.connection_id),
    ensures
        sessions_unique(sessions.push(session)),
{
    let p = sessions.push(session);
    assert forall|a: int, b: int|
        0 <= a < p.len() && 0 <= b < p.len() && a != b implies p[a].connection_id
            != p[b].connection_id by {
        if a < sessions.len() && b < sessions.len() {
            assert(p[a] == sessions[a] && p[b] == sessions[b]);
        } else if a < sessions.len() {
            assert(p[a] == sessions[a]);
        } else if b < sessions.len() {
            assert(p[b] == sessions[b]);
        }
    }
}

pub proof fn lemma_expired_connections_len(sessions: Seq<SessionModel>, now: u64)
    ensures
        expired_connections(sessions, now).len() <= sessions.len(),
    decreases sessions.len(),
{
    if sessions.len() > 0 {
        lemma_expired_connections_len(sessions.drop_last(), now);
    }
}

/// How far a transition may move the counters: at most `k` session
/// sequence numbers and owner epochs, and no added session.
pub open spec fn bounded_step(s0: CoordinatorModel, s1: CoordinatorModel, k: nat) -> bool {
    &&& s0.next_session_sequence <= s1.next_session_sequence <= s0.next_session_sequence + k
    &&& epoch_for_notification(s0) <= epoch_for_notification(s1) <= epoch_for_notification(s0)
        + k
    &&& s1.sessions.len() <= s0.sessions.len()
    &&& s1.main_thread_id == s0.main_thread_id
    &&& s1.lease_duration_ms == s0.lease_duration_ms
}

pub proof fn lemma_revoke_bounds(
    s: CoordinatorModel,
    connection_id: u64,
    authorization_reason: ControllerAuthorizationChangedReason,
    ownership_reason: ControllerControlOwnershipChangedReason,
    notify_revoked: bool,
    now: u64,
)
    requires
        s.next_session_sequence < u64::MAX,
        epoch_for_notification(s) < u64::MAX,
        sessions_unique(s.sessions),
    ensures
        bounded_step(
            s,
            revoke_session_with_reason(
                s,
                connection_id,
                authorization_reason,
                ownership_reason,
                notify_revoked,
                now,
            ),
            1,
        ),
        sessions_unique(
            revoke_session_with_reason(
                s,
                connection_id,
                authorization_reason,
                ownership_reason,
                notify_revoked,
                now,
            ).sessions,
        ),
{
    if has_session(s.sessions, connection_id) {
        lemma_unique_remove(s.sessions, session_index(s.sessions, connection_id));
    }
}

pub proof fn lemma_revoke_expired_bounds(s: CoordinatorModel, connections: Seq<u64>, now: u64)
    requires
        s.next_session_sequence + connections.len() <= u64::MAX,
        epoch_for_notification(s) + connections.len() <= u64::MAX,
        sessions_unique(s.sessions),
    ensures
        bounded_step(s, revoke_expired(s, connections, now), connections.len()),
        sessions_unique(revoke_expired(s, connections, now).sessions),
    decreases connections.len(),
{
    if connections.len() > 0 {
        let prefix = connections.drop_last();
        lemma_revoke_expired_bounds(s, prefix, now);
        let mid = revoke_expired(s, prefix, now);
        lemma_revoke_bounds(
            mid,
            connections.last(),
            ControllerAuthorizationChangedReason::Expired,
            ControllerControlOwnershipChangedReason::AuthorizationRevoked,
            true,
            now,
        );
    }
}


/// The counters have room for one more operation: no session sequence number
/// or owner epoch it takes can overflow `u64`.
pub open spec fn has_room(s: CoordinatorModel) -> bool {
    &&& s.next_session_sequence + 2 * s.sessions.len() + 8 <= u64::MAX
    &&& epoch_for_notification(s) + 2 * s.sessions.len() + 8 <= u64::MAX
}

} // verus!

//! Controller session and input-ownership state for one main thread.
//!
//! The coordinator is the single source of truth for standing controller
//! authorization, the active input lease, owner epochs and the terminal
//! launch states. Every operation is specified by the matching function of
//! `session_model`, at the clock reading `now` (milliseconds).

use vstd::prelude::*;

use crate::clock::ControllerSessionClock;
use crate::ids::{fresh_uuid_text, spec_uuid_text, ConnectionId, ThreadId};
use crate::protocol::{
    ControllerAuthorizationChangedNotification, ControllerAuthorizationChangedReason,
    ControllerControlOwnershipChangedNotification, ControllerControlOwnershipChangedReason,
    ControllerEffectiveCapabilities, ControllerLease, ControllerSession as ProtocolSession,
    ControllerSessionView,
};
use crate::session_model::{
    acquire_control, active_lease_protocol, authorization_note, begin_transfer_to_controller,
    close_main_thread, mark_tui_unavailable, push_revocation_notes,
    revoke_all_sessions_for_tui_policy,
    bounded_step, has_room, protocol_session_of, reclaim_for_tui, release_control,
    request_participation, require_active_owner_with_epoch, require_standing_session,
    return_to_tui,
    clear_active_lease, complete_transfer_to_controller, connection_authorization_expired,
    ensure_not_terminal, fresh_lease_id, fresh_session_id, issue_lease, lemma_unique_push,
    require_live_session, session_gate, session_or_required, upsert_session,
    PendingControllerTransfer,
    clear_all_active_leases, expire_active_lease_at, expire_authorizations_at,
    expire_deadlines_at, expired_connections, lemma_expired_connections_len,
    lemma_revoke_expired_bounds, lemma_unique_remove, revoke_expired,
    revoke_session_with_reason,
    control_note, current_active_lease, effective_capabilities, epoch_for_notification,
    has_session, initial_state, reads_clock, is_terminal, owner_epoch_of, ownership_status,
    saturating_sub,
    push_authorization_for_connection, push_control_for_all, push_note, push_ownership_status,
    session_index, session_of, session_protocol, sessions_unique, set_owner, status_owner,
    transfer_to_tui_owned_after,
    ControllerSessionError, CoordinatorModel, GrantModel, LeaseModel, NotificationModel,
    OwnerModel, SessionModel, StatusModel, StatusOwnerModel,
};
use crate::session_laws::{
    lemma_acquire_control_consistent, lemma_begin_transfer_consistent,
    lemma_complete_transfer_consistent, lemma_expire_deadlines_consistent,
    lemma_reclaim_consistent, lemma_release_control_consistent,
    lemma_request_participation_consistent, lemma_requirements_consistent,
    lemma_revoke_consistent, lemma_terminal_operations_consistent,
    lemma_terminal_operations_epochs, ownership_consistent,
};
use crate::text::{push_decimal, push_str, spec_decimal};

verus! {

/// Coordinator settings.
#[derive(Clone, Copy, Debug, PartialEq, Eq, Structural)]
pub struct ControllerSessionConfig {
    /// How long an input lease lasts, in milliseconds.
    pub lease_duration_ms: u64,
}

/// Standing authorization granted to a controller by enrollment or approval.
#[derive(Debug, PartialEq, Eq)]
pub struct ControllerEnrollmentGrant {
    pub subject_id: String,
    pub main_thread_id: ThreadId,
    pub authorization_epoch: u64,
    /// Clock reading (milliseconds) at which the authorization runs out.
    pub authorization_expires_at: u64,
}

impl View for ControllerEnrollmentGrant {
    type V = GrantModel;

    open spec fn view(&self) -> GrantModel {
        GrantModel {
            subject_id: self.subject_id@,
            main_thread_id: self.main_thread_id.uuid,
            authorization_epoch: self.authorization_epoch,
            authorization_expires_at: self.authorization_expires_at,
        }
    }
}

impl Clone for ControllerEnrollmentGrant {
    fn clone(&self) -> (copy: Self)
        ensures
            copy == *self,
    {
        ControllerEnrollmentGrant {
            subject_id: self.subject_id.clone(),
            main_thread_id: self.main_thread_id,
            authorization_epoch: self.authorization_epoch,
            authorization_expires_at: self.authorization_expires_at,
        }
    }
}

/// The input lease held by the controller that owns the main thread.
#[derive(Debug, PartialEq, Eq)]
pub struct ControllerActiveLease {
    pub lease_id: String,
    pub owner_epoch: u64,
    pub expires_at: u64,
}

impl View for ControllerActiveLease {
    type V = LeaseModel;

    open spec fn view(&self) -> LeaseModel {
        LeaseModel {
            lease_id: self.lease_id@,
            owner_epoch: self.owner_epoch,
            expires_at: self.expires_at,
        }
    }
}

impl Clone for ControllerActiveLease {
    fn clone(&self) -> (copy: Self)
        ensures
            copy == *self,
    {
        ControllerActiveLease {
            lease_id: self.lease_id.clone(),
            owner_epoch: self.owner_epoch,
            expires_at: self.expires_at,
        }
    }
}

/// Milliseconds left until `deadline` at clock reading `now`; zero once it
/// has passed.
pub fn deadline_remaining_ms(deadline: u64, now: u64) -> (remaining: u64)
    ensures
        remaining == saturating_sub(deadline, now),
{
    if deadline >= now {
        deadline - now
    } else {
        0
    }
}

pub open spec fn lease_option_view(lease: Option<ControllerActiveLease>) -> Option<LeaseModel> {
    match lease {
        Some(lease) => Some(lease@),
        None => None,
    }
}

/// A controller's standing session on the main thread.
#[derive(Debug, PartialEq, Eq)]
pub struct ControllerSession {
    pub session_id: String,
    pub connection_id: ConnectionId,
    pub main_thread_id: ThreadId,
    pub authorization_epoch: u64,
    pub authorization_expires_at: u64,
    pub session_sequence: u64,
    pub active_lease: Option<ControllerActiveLease>,
}

impl View for ControllerSession {
    type V = SessionModel;

    open spec fn view(&self) -> SessionModel {
        SessionModel {
            session_id: self.session_id@,
            connection_id: self.connection_id.0,
            main_thread_id: self.main_thread_id.uuid,
            authorization_epoch: self.authorization_epoch,
            authorization_expires_at: self.authorization_expires_at,
            session_sequence: self.session_sequence,
            active_lease: lease_option_view(self.active_lease),
        }
    }
}

impl Clone for ControllerSession {
    fn clone(&self) -> (copy: Self)
        ensures
            copy == *self,
    {
        let active_lease = match &self.active_lease {
            Some(lease) => Some(lease.clone()),
            None => None,
        };
        ControllerSession {
            session_id: self.session_id.clone(),
            connection_id: self.connection_id,
            main_thread_id: self.main_thread_id,
            authorization_epoch: self.authorization_epoch,
            authorization_expires_at: self.authorization_expires_at,
            session_sequence: self.session_sequence,
            active_lease,
        }
    }
}

/// Who owns interactive input on the main thread.
#[derive(Debug, PartialEq, Eq)]
pub enum InteractiveOwner {
    TuiOwned { owner_epoch: u64 },
    TransferPending { owner_epoch: u64 },
    ControllerOwned { connection_id: ConnectionId, lease_id: String, owner_epoch: u64 },
    TuiUnavailable { owner_epoch: u64 },
    Closed,
}

impl View for InteractiveOwner {
    type V = OwnerModel;

    open spec fn view(&self) -> OwnerModel {
        match self {
            InteractiveOwner::TuiOwned { owner_epoch } => OwnerModel::TuiOwned {
                owner_epoch: *owner_epoch,
            },
            InteractiveOwner::TransferPending { owner_epoch } => OwnerModel::TransferPending {
                owner_epoch: *owner_epoch,
            },
            InteractiveOwner::ControllerOwned { connection_id, lease_id, owner_epoch } =>
                OwnerModel::ControllerOwned {
                connection_id: connection_id.0,
                lease_id: lease_id@,
                owner_epoch: *owner_epoch,
            },
            InteractiveOwner::TuiUnavailable { owner_epoch } => OwnerModel::TuiUnavailable {
                owner_epoch: *owner_epoch,
            },
            InteractiveOwner::Closed => OwnerModel::Closed,
        }
    }
}

impl Clone for InteractiveOwner {
    fn clone(&self) -> (copy: Self)
        ensures
            copy == *self,
    {
        match self {
            InteractiveOwner::TuiOwned { owner_epoch } => InteractiveOwner::TuiOwned {
                owner_epoch: *owner_epoch,
            },
            InteractiveOwner::TransferPending { owner_epoch } => InteractiveOwner::TransferPending {
                owner_epoch: *owner_epoch,
            },
            InteractiveOwner::ControllerOwned { connection_id, lease_id, owner_epoch } =>
                InteractiveOwner::ControllerOwned {
                connection_id: *connection_id,
                lease_id: lease_id.clone(),
                owner_epoch: *owner_epoch,
            },
            InteractiveOwner::TuiUnavailable { owner_epoch } => InteractiveOwner::TuiUnavailable {
                owner_epoch: *owner_epoch,
            },
            InteractiveOwner::Closed => InteractiveOwner::Closed,
        }
    }
}

impl InteractiveOwner {
    /// The owner epoch, absent once the main thread is closed.
    pub fn owner_epoch(&self) -> (epoch: Option<u64>)
        ensures
            epoch == owner_epoch_of(self@),
    {
        match self {
            InteractiveOwner::TuiOwned { owner_epoch } => Some(*owner_epoch),
            InteractiveOwner::TransferPending { owner_epoch } => Some(*owner_epoch),
            InteractiveOwner::ControllerOwned { owner_epoch, .. } => Some(*owner_epoch),
            InteractiveOwner::TuiUnavailable { owner_epoch } => Some(*owner_epoch),
            InteractiveOwner::Closed => None,
        }
    }

    /// Whether the main thread can no longer be controlled at all.
    pub fn is_terminal(&self) -> (terminal: bool)
        ensures
            terminal == is_terminal(self@),
    {
        match self {
            InteractiveOwner::TuiUnavailable { .. } | InteractiveOwner::Closed => true,
            _ => false,
        }
    }
}

impl ControllerSession {
    /// The lease this session holds, if it is live and matches the owner.
    pub fn current_active_lease(&self, owner: &InteractiveOwner, now: u64) -> (lease: Option<
        &ControllerActiveLease,
    >)
        ensures
            match lease {
                Some(lease) => current_active_lease(self@, owner@, now) == Some(lease@),
                None => current_active_lease(self@, owner@, now) is None,
            },
    {
        let lease = match &self.active_lease {
            Some(lease) => lease,
            None => return None,
        };
        if now >= lease.expires_at {
            return None;
        }
        match owner {
            InteractiveOwner::ControllerOwned { connection_id, lease_id, owner_epoch } => {
                if connection_id.0 == self.connection_id.0 && *lease_id == lease.lease_id
                    && *owner_epoch == lease.owner_epoch {
                    Some(lease)
                } else {
                    None
                }
            },
            _ => None,
        }
    }

    /// What this session may do right now.
    pub fn effective_capabilities(&self, owner: &InteractiveOwner, now: u64) -> (capabilities:
        ControllerEffectiveCapabilities)
        ensures
            capabilities == effective_capabilities(self@, owner@, now),
    {
        let standing_session = now < self.authorization_expires_at && !owner.is_terminal();
        let active_owner = self.current_active_lease(owner, now).is_some();
        let can_acquire = standing_session && match owner {
            InteractiveOwner::TuiOwned { .. } => true,
            InteractiveOwner::ControllerOwned { connection_id, .. } => connection_id.0
                == self.connection_id.0,
            _ => false,
        };
        ControllerEffectiveCapabilities {
            read_main_thread: standing_session,
            subscribe_main_thread: standing_session,
            acquire_control: can_acquire,
            release_control: standing_session,
            mutate_main_thread: active_owner,
            answer_prompts: active_owner,
        }
    }

    /// The live lease as the controller sees it.
    fn active_lease_protocol(&self, owner: &InteractiveOwner, now: u64) -> (lease: Option<
        ControllerLease,
    >)
        ensures
            lease.deep_view() == active_lease_protocol(self@, owner@, now),
    {
        match self.current_active_lease(owner, now) {
            Some(lease) => {
                let remaining = deadline_remaining_ms(lease.expires_at, now);
                Some(
                    ControllerLease {
                        lease_id: lease.lease_id.clone(),
                        owner_epoch: lease.owner_epoch,
                        expires_in_ms: Some(remaining),
                    },
                )
            },
            None => None,
        }
    }

    /// This session as the controller sees it.
    pub fn to_protocol(&self, owner: &InteractiveOwner, now: u64) -> (view: ProtocolSession)
        ensures
            view@ == session_protocol(self@, owner@, now),
    {
        let active_lease = self.active_lease_protocol(owner, now);
        let lease_expires_in_ms = match &active_lease {
            Some(lease) => lease.expires_in_ms,
            None => None,
        };
        let authorization_remaining = deadline_remaining_ms(self.authorization_expires_at, now);
        ProtocolSession {
            session_id: self.session_id.clone(),
            main_thread_id: self.main_thread_id.to_string(),
            active_lease,
            authorization_epoch: self.authorization_epoch,
            session_sequence: self.session_sequence,
            effective_capabilities: self.effective_capabilities(owner, now),
            lease_expires_in_ms,
            authorization_expires_in_ms: Some(authorization_remaining),
        }
    }
}


/// Event for one controller connection.
#[derive(Debug, PartialEq, Eq)]
pub enum ControllerSessionNotification {
    AuthorizationChanged {
        connection_id: ConnectionId,
        notification: ControllerAuthorizationChangedNotification,
    },
    ControlOwnershipChanged {
        connection_id: ConnectionId,
        notification: ControllerControlOwnershipChangedNotification,
    },
}

impl View for ControllerSessionNotification {
    type V = NotificationModel;

    open spec fn view(&self) -> NotificationModel {
        match self {
            ControllerSessionNotification::AuthorizationChanged { connection_id, notification } =>
                NotificationModel::AuthorizationChanged {
                connection_id: connection_id.0,
                notification: notification@,
            },
            ControllerSessionNotification::ControlOwnershipChanged {
                connection_id,
                notification,
            } => NotificationModel::ControlOwnershipChanged {
                connection_id: connection_id.0,
                notification: notification@,
            },
        }
    }
}

/// Ownership status event delivered to the owning in-process TUI.
///
/// Controller notifications are control-plane messages for controllers; this
/// status is emitted from the same coordinator transition so the TUI can track
/// who currently owns input for the main thread.
#[derive(Debug, PartialEq, Eq)]
pub struct ControllerOwnershipStatus {
    pub main_thread_id: ThreadId,
    pub owner: ControllerOwnershipStatusOwner,
    pub owner_epoch: u64,
    /// Whether this main thread still has any controller session, including a
    /// read-capable session that is not currently the interactive owner.
    pub has_controller_session: bool,
    pub reason: ControllerControlOwnershipChangedReason,
}

#[derive(Debug, PartialEq, Eq)]
pub enum ControllerOwnershipStatusOwner {
    Tui,
    Controller { session_id: String },
    TuiUnavailable,
    Closed,
}

impl View for ControllerOwnershipStatusOwner {
    type V = StatusOwnerModel;

    open spec fn view(&self) -> StatusOwnerModel {
        match self {
            ControllerOwnershipStatusOwner::Tui => StatusOwnerModel::Tui,
            ControllerOwnershipStatusOwner::Controller { session_id } =>
                StatusOwnerModel::Controller { session_id: session_id@ },
            ControllerOwnershipStatusOwner::TuiUnavailable => StatusOwnerModel::TuiUnavailable,
            ControllerOwnershipStatusOwner::Closed => StatusOwnerModel::Closed,
        }
    }
}

impl View for ControllerOwnershipStatus {
    type V = StatusModel;

    open spec fn view(&self) -> StatusModel {
        StatusModel {
            main_thread_id: self.main_thread_id.uuid,
            owner: self.owner@,
            owner_epoch: self.owner_epoch,
            has_controller_session: self.has_controller_session,
            reason: self.reason,
        }
    }
}

/// Events drained from the coordinator.
#[derive(Debug, PartialEq, Eq)]
pub struct ControllerSessionEvents {
    pub controller_notifications: Vec<ControllerSessionNotification>,
    pub ownership_statuses: Vec<ControllerOwnershipStatus>,
}

pub open spec fn sessions_view(sessions: Seq<ControllerSession>) -> Seq<SessionModel> {
    sessions.map_values(|session: ControllerSession| session@)
}

pub open spec fn notifications_view(notes: Seq<ControllerSessionNotification>) -> Seq<
    NotificationModel,
> {
    notes.map_values(|note: ControllerSessionNotification| note@)
}

pub open spec fn statuses_view(statuses: Seq<ControllerOwnershipStatus>) -> Seq<StatusModel> {
    statuses.map_values(|status: ControllerOwnershipStatus| status@)
}

pub open spec fn session_result_view(result: Result<ProtocolSession, ControllerSessionError>) -> Result<
    ControllerSessionView,
    ControllerSessionError,
> {
    match result {
        Ok(session) => Ok(session@),
        Err(e) => Err(e),
    }
}

/// Single source of truth for controller sessions and input ownership of one
/// main thread.
pub struct ControllerSessionCoordinator {
    main_thread_id: ThreadId,
    clock: ControllerSessionClock,
    config: ControllerSessionConfig,
    owner: InteractiveOwner,
    last_owner_epoch: u64,
    sessions: Vec<ControllerSession>,
    next_session_sequence: u64,
    notifications: Vec<ControllerSessionNotification>,
    ownership_statuses: Vec<ControllerOwnershipStatus>,
}

impl View for ControllerSessionCoordinator {
    type V = CoordinatorModel;

    closed spec fn view(&self) -> CoordinatorModel {
        CoordinatorModel {
            main_thread_id: self.main_thread_id.uuid,
            fixed_clock: match self.clock {
                ControllerSessionClock::Fixed { now_ms } => Some(now_ms),
                ControllerSessionClock::Monotonic { .. } => None,
            },
            lease_duration_ms: self.config.lease_duration_ms,
            owner: self.owner@,
            last_owner_epoch: self.last_owner_epoch,
            sessions: sessions_view(self.sessions@),
            next_session_sequence: self.next_session_sequence,
            notifications: notifications_view(self.notifications@),
            ownership_statuses: statuses_view(self.ownership_statuses@),
        }
    }
}

/// The index `session_index` picks is the only index of that connection.
proof fn lemma_session_index_unique(sessions: Seq<SessionModel>, connection_id: u64, i: int)
    requires
        sessions_unique(sessions),
        0 <= i < sessions.len(),
        sessions[i].connection_id == connection_id,
    ensures
        has_session(sessions, connection_id),
        session_index(sessions, connection_id) == i,
        session_of(sessions, connection_id) == Some(sessions[i]),
{
}

impl ControllerSessionCoordinator {
    proof fn lemma_sessions_view(&self)
        ensures
            self@.sessions.len() == self.sessions@.len(),
            forall|j: int|
                0 <= j < self.sessions@.len() ==> self@.sessions[j] == #[trigger] self.sessions@[j]@,
    {
    }

    /// Sessions have distinct connections.
    pub open spec fn sessions_distinct(&self) -> bool {
        sessions_unique(self@.sessions)
    }

    /// The coordinator's invariant: sessions have distinct connections, a
    /// stored lease is the current owner's lease, a controller owner holds
    /// its lease, and the last owner epoch is the owner's.
    pub open spec fn well_formed(&self) -> bool {
        ownership_consistent(self@)
    }

    /// Index of the session of `connection_id`.
    fn find_session(&self, connection_id: ConnectionId) -> (index: Option<usize>)
        requires
            self.sessions_distinct(),
        ensures
            match index {
                Some(i) => {
                    &&& i < self.sessions@.len()
                    &&& has_session(self@.sessions, connection_id.0)
                    &&& session_index(self@.sessions, connection_id.0) == i
                    &&& session_of(self@.sessions, connection_id.0) == Some(self@.sessions[i as int])
                    &&& self.sessions@[i as int].connection_id == connection_id
                },
                None => !has_session(self@.sessions, connection_id.0) && session_of(
                    self@.sessions,
                    connection_id.0,
                ) is None,
            },
    {
        let mut i: usize = 0;
        while i < self.sessions.len()
            invariant
                self.sessions_distinct(),
                i <= self.sessions@.len(),
                forall|j: int| 0 <= j < i ==> self@.sessions[j].connection_id != connection_id.0,
            decreases self.sessions@.len() - i,
        {
            if self.sessions[i].connection_id.0 == connection_id.0 {
                proof {
                    lemma_session_index_unique(self@.sessions, connection_id.0, i as int);
                }
                return Some(i);
            }
            i += 1;
        }
        None
    }
}


impl ControllerSessionCoordinator {
    /// A coordinator for `main_thread_id`, owned by the TUI at epoch 0 with no
    /// controller sessions.
    pub fn new(
        main_thread_id: ThreadId,
        clock: ControllerSessionClock,
        config: ControllerSessionConfig,
    ) -> (coordinator: ControllerSessionCoordinator)
        ensures
            coordinator@ == initial_state(
                main_thread_id.uuid,
                config.lease_duration_ms,
                match clock {
                    ControllerSessionClock::Fixed { now_ms } => Some(now_ms),
                    ControllerSessionClock::Monotonic { .. } => None,
                },
            ),
            coordinator.well_formed(),

    {
        let coordinator = ControllerSessionCoordinator {
            main_thread_id,
            clock,
            config,
            owner: InteractiveOwner::TuiOwned { owner_epoch: 0 },
            last_owner_epoch: 0,
            sessions: Vec::new(),
            next_session_sequence: 1,
            notifications: Vec::new(),
            ownership_statuses: Vec::new(),
        };
        proof {
            assert(coordinator@.sessions =~= Seq::<SessionModel>::empty());
            assert(coordinator@.notifications =~= Seq::<NotificationModel>::empty());
            assert(coordinator@.ownership_statuses =~= Seq::<StatusModel>::empty());
        }
        coordinator
    }

    /// Reads the coordinator's clock.
    pub fn now(&self) -> (now: u64)
        ensures
            reads_clock(self@, now),
    {
        self.clock.now()
    }

    /// Whether the session sequence and owner epoch counters have room for
    /// one more operation, which every mutating operation requires.
    pub fn counters_have_room(&self) -> (room: bool)
        ensures
            room == has_room(self@),
    {
        let len = self.sessions.len() as u64;
        if len > (u64::MAX - 8) / 2 {
            return false;
        }
        let margin = 2 * len + 8;
        let epoch = self.epoch_for_notification();
        self.next_session_sequence <= u64::MAX - margin && epoch <= u64::MAX - margin
    }

    fn epoch_for_notification(&self) -> (epoch: u64)
        ensures
            epoch == epoch_for_notification(self@),
    {
        match self.owner.owner_epoch() {
            Some(owner_epoch) => owner_epoch,
            None => self.last_owner_epoch,
        }
    }

    fn set_owner(&mut self, owner: InteractiveOwner)
        ensures
            final(self)@ == set_owner(old(self)@, owner@),
    {
        if let Some(owner_epoch) = owner.owner_epoch() {
            self.last_owner_epoch = owner_epoch;
        }
        self.owner = owner;
    }

    fn transfer_to_tui_owned_after(&mut self, owner_epoch: u64)
        requires
            owner_epoch < u64::MAX,
        ensures
            final(self)@ == transfer_to_tui_owned_after(old(self)@, owner_epoch),
    {
        self.set_owner(InteractiveOwner::TuiOwned { owner_epoch: owner_epoch + 1 });
    }

    fn next_session_sequence(&mut self) -> (sequence: u64)
        requires
            old(self)@.next_session_sequence < u64::MAX,
        ensures
            sequence == old(self)@.next_session_sequence,
            final(self)@ == (CoordinatorModel {
                next_session_sequence: (sequence + 1) as u64,
                ..old(self)@
            }),
    {
        let sequence = self.next_session_sequence;
        self.next_session_sequence = sequence + 1;
        sequence
    }

    /// Replaces the session at `i`.
    fn replace_session(&mut self, i: usize, session: ControllerSession)
        requires
            i < old(self).sessions@.len(),
            old(self).sessions_distinct(),
            session.connection_id == old(self).sessions@[i as int].connection_id,
        ensures
            final(self)@ == (CoordinatorModel {
                sessions: old(self)@.sessions.update(i as int, session@),
                ..old(self)@
            }),
            final(self).sessions_distinct(),
    {
        self.sessions.set(i, session);
        proof {
            assert(self@.sessions =~= old(self)@.sessions.update(i as int, session@));
            assert forall|j: int| 0 <= j < self@.sessions.len() implies self@.sessions[j].connection_id
                == old(self)@.sessions[j].connection_id by {}
        }
    }

    fn clear_active_lease(&mut self, connection_id: ConnectionId)
        requires
            old(self).sessions_distinct(),
            old(self)@.next_session_sequence < u64::MAX,
        ensures
            final(self)@ == clear_active_lease(old(self)@, connection_id.0),
            final(self).sessions_distinct(),
    {
        let sequence = self.next_session_sequence();
        if let Some(i) = self.find_session(connection_id) {
            let mut session = self.sessions[i].clone();
            session.active_lease = None;
            session.session_sequence = sequence;
            self.replace_session(i, session);
        }
    }

    fn clear_all_active_leases(&mut self)
        requires
            old(self).sessions_distinct(),
            old(self)@.next_session_sequence + old(self)@.sessions.len() <= u64::MAX,
        ensures
            final(self)@ == clear_all_active_leases(old(self)@),
            final(self).sessions_distinct(),
    {
        let ghost start = self@;
        let count = self.sessions.len();
        let mut i: usize = 0;
        proof {
            assert(start.sessions =~= Seq::new(
                count as nat,
                |j: int|
                    if j < 0 {
                        SessionModel {
                            active_lease: None,
                            session_sequence: (start.next_session_sequence + j) as u64,
                            ..start.sessions[j]
                        }
                    } else {
                        start.sessions[j]
                    },
            ));
        }
        while i < count
            invariant
                self.sessions_distinct(),
                count == start.sessions.len(),
                self.sessions@.len() == count,
                i <= count,
                start.next_session_sequence + count <= u64::MAX,
                self@ == (CoordinatorModel {
                    sessions: Seq::new(
                        count as nat,
                        |j: int|
                            if j < i {
                                SessionModel {
                                    active_lease: None,
                                    session_sequence: (start.next_session_sequence + j) as u64,
                                    ..start.sessions[j]
                                }
                            } else {
                                start.sessions[j]
                            },
                    ),
                    next_session_sequence: (start.next_session_sequence + i) as u64,
                    ..start
                }),
            decreases count - i,
        {
            let sequence = self.next_session_sequence();
            proof {
                self.lemma_sessions_view();
            }
            let mut session = self.sessions[i].clone();
            session.active_lease = None;
            session.session_sequence = sequence;
            let ghost before = self@;
            proof {
                assert(before.sessions[i as int] == start.sessions[i as int]);
                assert(session@ == SessionModel {
                    active_lease: None,
                    session_sequence: (start.next_session_sequence + i) as u64,
                    ..start.sessions[i as int]
                });
            }
            self.replace_session(i, session);
            i += 1;
            proof {
                assert(self@.sessions =~= Seq::new(
                    count as nat,
                    |j: int|
                        if j < i {
                            SessionModel {
                                active_lease: None,
                                session_sequence: (start.next_session_sequence + j) as u64,
                                ..start.sessions[j]
                            }
                        } else {
                            start.sessions[j]
                        },
                ));
            }
        }
        proof {
            assert(self@.sessions =~= clear_all_active_leases(start).sessions);
        }
    }

    fn status_owner(&self) -> (owner: ControllerOwnershipStatusOwner)
        requires
            self.sessions_distinct(),
        ensures
            owner@ == status_owner(self@),
    {
        match &self.owner {
            InteractiveOwner::TuiOwned { .. } | InteractiveOwner::TransferPending { .. } =>
                ControllerOwnershipStatusOwner::Tui,
            InteractiveOwner::ControllerOwned { connection_id, .. } => {
                let session_id = match self.find_session(*connection_id) {
                    Some(i) => self.sessions[i].session_id.clone(),
                    None => {
                        let mut fallback = String::new();
                        push_str(&mut fallback, "controller-connection-");
                        push_decimal(&mut fallback, connection_id.0);
                        proof {
                            assert(fallback@ =~= "controller-connection-"@ + spec_decimal(
                                connection_id.0 as nat,
                            ));
                        }
                        fallback
                    },
                };
                ControllerOwnershipStatusOwner::Controller { session_id }
            },
            InteractiveOwner::TuiUnavailable { .. } => ControllerOwnershipStatusOwner::TuiUnavailable,
            InteractiveOwner::Closed => ControllerOwnershipStatusOwner::Closed,
        }
    }

    fn ownership_status(&self, reason: ControllerControlOwnershipChangedReason) -> (status:
        ControllerOwnershipStatus)
        requires
            self.sessions_distinct(),
        ensures
            status@ == ownership_status(self@, reason),
    {
        ControllerOwnershipStatus {
            main_thread_id: self.main_thread_id,
            owner: self.status_owner(),
            owner_epoch: self.epoch_for_notification(),
            has_controller_session: self.sessions.len() > 0,
            reason,
        }
    }

    fn push_ownership_status(&mut self, reason: ControllerControlOwnershipChangedReason)
        requires
            old(self).sessions_distinct(),
        ensures
            final(self)@ == push_ownership_status(old(self)@, reason),
            final(self).sessions_distinct(),
    {
        let status = self.ownership_status(reason);
        self.ownership_statuses.push(status);
        proof {
            assert(self@.ownership_statuses =~= old(self)@.ownership_statuses.push(status@));
        }
    }

    fn control_note(
        &self,
        session: &ControllerSession,
        reason: ControllerControlOwnershipChangedReason,
        with_lease: bool,
        now: u64,
    ) -> (note: ControllerSessionNotification)
        ensures
            note@ == control_note(self@, session@, reason, with_lease, now),
    {
        let active_lease = if with_lease {
            session.active_lease_protocol(&self.owner, now)
        } else {
            None
        };
        ControllerSessionNotification::ControlOwnershipChanged {
            connection_id: session.connection_id,
            notification: ControllerControlOwnershipChangedNotification {
                session_id: session.session_id.clone(),
                main_thread_id: session.main_thread_id.to_string(),
                reason,
                authorization_epoch: session.authorization_epoch,
                owner_epoch: self.epoch_for_notification(),
                session_sequence: session.session_sequence,
                active_lease,
            },
        }
    }

    fn authorization_note(
        &self,
        session: &ControllerSession,
        reason: ControllerAuthorizationChangedReason,
        with_session: bool,
        now: u64,
    ) -> (note: ControllerSessionNotification)
        ensures
            note@ == authorization_note(self@, session@, reason, with_session, now),
    {
        let protocol_session = if with_session {
            Some(session.to_protocol(&self.owner, now))
        } else {
            None
        };
        ControllerSessionNotification::AuthorizationChanged {
            connection_id: session.connection_id,
            notification: ControllerAuthorizationChangedNotification {
                session_id: session.session_id.clone(),
                main_thread_id: session.main_thread_id.to_string(),
                reason,
                authorization_epoch: session.authorization_epoch,
                owner_epoch: self.epoch_for_notification(),
                session_sequence: session.session_sequence,
                session: protocol_session,
            },
        }
    }

    fn push_note(&mut self, note: ControllerSessionNotification)
        ensures
            final(self)@ == push_note(old(self)@, note@),
            final(self).sessions@ == old(self).sessions@,
    {
        self.notifications.push(note);
        proof {
            assert(self@.notifications =~= old(self)@.notifications.push(note@));
        }
    }

    fn push_control_for_all(&mut self, reason: ControllerControlOwnershipChangedReason, now: u64)
        requires
            old(self).sessions_distinct(),
        ensures
            final(self)@ == push_control_for_all(old(self)@, reason, now),
            final(self).sessions_distinct(),
    {
        let ghost start = self@;
        self.push_ownership_status(reason);
        let ghost s1 = self@;
        let count = self.sessions.len();
        let mut i: usize = 0;
        while i < count
            invariant
                self.sessions_distinct(),
                count == start.sessions.len(),
                self.sessions@.len() == count,
                i <= count,
                s1 == push_ownership_status(start, reason),
                self@ == (CoordinatorModel {
                    notifications: s1.notifications + start.sessions.take(i as int).map_values(
                        |session: SessionModel| control_note(start, session, reason, true, now),
                    ),
                    ..s1
                }),
            decreases count - i,
        {
            proof {
                self.lemma_sessions_view();
            }
            let note = self.control_note(&self.sessions[i], reason, true, now);
            proof {
                assert(self.sessions@[i as int]@ == start.sessions[i as int]);
                assert(note@ == control_note(start, start.sessions[i as int], reason, true, now));
            }
            self.push_note(note);
            i += 1;
            proof {
                assert(start.sessions.take(i as int) =~= start.sessions.take(i - 1).push(
                    start.sessions[i - 1],
                ));
                assert(self@.notifications =~= s1.notifications + start.sessions.take(
                    i as int,
                ).map_values(
                    |session: SessionModel| control_note(start, session, reason, true, now),
                ));
            }
        }
        proof {
            assert(start.sessions.take(count as int) =~= start.sessions);
        }
    }

    fn push_authorization_for_connection(
        &mut self,
        connection_id: ConnectionId,
        reason: ControllerAuthorizationChangedReason,
        now: u64,
    )
        requires
            old(self).sessions_distinct(),
        ensures
            final(self)@ == push_authorization_for_connection(
                old(self)@,
                connection_id.0,
                reason,
                now,
            ),
            final(self).sessions_distinct(),
    {
        if let Some(i) = self.find_session(connection_id) {
            let note = self.authorization_note(&self.sessions[i], reason, true, now);
            self.push_note(note);
        }
    }
}


impl ControllerSessionCoordinator {
    fn revoke_session_with_reason(
        &mut self,
        connection_id: ConnectionId,
        authorization_reason: ControllerAuthorizationChangedReason,
        ownership_reason: ControllerControlOwnershipChangedReason,
        notify_revoked: bool,
        now: u64,
    )
        requires
            old(self).sessions_distinct(),
            old(self)@.next_session_sequence < u64::MAX,
            epoch_for_notification(old(self)@) < u64::MAX,
        ensures
            final(self)@ == revoke_session_with_reason(
                old(self)@,
                connection_id.0,
                authorization_reason,
                ownership_reason,
                notify_revoked,
                now,
            ),
            final(self).sessions_distinct(),
    {
        let ghost start = self@;
        let i = match self.find_session(connection_id) {
            Some(i) => i,
            None => return ,
        };
        proof {
            self.lemma_sessions_view();
            lemma_unique_remove(start.sessions, i as int);
        }
        let mut revoked = self.sessions.remove(i);
        proof {
            assert(self@.sessions =~= start.sessions.remove(i as int));
        }
        let sequence = self.next_session_sequence();
        revoked.session_sequence = sequence;
        let was_owner = match &self.owner {
            InteractiveOwner::ControllerOwned { connection_id: owner_connection_id, .. } =>
                owner_connection_id.0 == connection_id.0,
            _ => false,
        };
        if was_owner {
            let owner_epoch = match &self.owner {
                InteractiveOwner::ControllerOwned { owner_epoch, .. } => *owner_epoch,
                _ => 0,
            };
            self.transfer_to_tui_owned_after(owner_epoch);
            if notify_revoked {
                let note = self.control_note(&revoked, ownership_reason, false, now);
                self.push_note(note);
            }
            self.push_control_for_all(ownership_reason, now);
        }
        if notify_revoked {
            let note = self.authorization_note(&revoked, authorization_reason, false, now);
            self.push_note(note);
        }
    }

    /// Connections whose authorization has run out at `now`, in session order.
    fn expired_connections(&self, now: u64) -> (connections: Vec<ConnectionId>)
        ensures
            connections@.map_values(|c: ConnectionId| c.0) == expired_connections(
                self@.sessions,
                now,
            ),
    {
        let mut connections: Vec<ConnectionId> = Vec::new();
        let count = self.sessions.len();
        let mut i: usize = 0;
        proof {
            self.lemma_sessions_view();
            assert(self@.sessions.take(0) =~= Seq::<SessionModel>::empty());
            assert(connections@.map_values(|c: ConnectionId| c.0) =~= Seq::<u64>::empty());
        }
        while i < count
            invariant
                count == self.sessions@.len(),
                count == self@.sessions.len(),
                i <= count,
                forall|j: int|
                    0 <= j < self.sessions@.len() ==> self@.sessions[j] == #[trigger] self.sessions@[j]@,
                connections@.map_values(|c: ConnectionId| c.0) == expired_connections(
                    self@.sessions.take(i as int),
                    now,
                ),
            decreases count - i,
        {
            let ghost before = connections@;
            if now >= self.sessions[i].authorization_expires_at {
                connections.push(self.sessions[i].connection_id);
            }
            proof {
                assert(self@.sessions.take(i + 1).drop_last() =~= self@.sessions.take(i as int));
                assert(self@.sessions.take(i + 1).last() == self@.sessions[i as int]);
                if now >= self.sessions@[i as int].authorization_expires_at {
                    assert(connections@.map_values(|c: ConnectionId| c.0) =~= before.map_values(
                        |c: ConnectionId| c.0,
                    ).push(self.sessions@[i as int].connection_id.0));
                }
            }
            i += 1;
        }
        proof {
            assert(self@.sessions.take(count as int) =~= self@.sessions);
        }
        connections
    }

    fn expire_authorizations_at(&mut self, now: u64)
        requires
            old(self).sessions_distinct(),
            old(self)@.next_session_sequence + old(self)@.sessions.len() <= u64::MAX,
            epoch_for_notification(old(self)@) + old(self)@.sessions.len() <= u64::MAX,
        ensures
            final(self)@ == expire_authorizations_at(old(self)@, now),
            final(self).sessions_distinct(),
            bounded_step(old(self)@, final(self)@, old(self)@.sessions.len()),
    {
        let ghost start = self@;
        let connections = self.expired_connections(now);
        let ghost ids = connections@.map_values(|c: ConnectionId| c.0);
        proof {
            lemma_expired_connections_len(start.sessions, now);
            assert(ids.take(0) =~= Seq::<u64>::empty());
        }
        let count = connections.len();
        let mut j: usize = 0;
        while j < count
            invariant
                count == connections@.len(),
                ids == connections@.map_values(|c: ConnectionId| c.0),
                ids == expired_connections(start.sessions, now),
                count <= start.sessions.len(),
                j <= count,
                start.next_session_sequence + start.sessions.len() <= u64::MAX,
                epoch_for_notification(start) + start.sessions.len() <= u64::MAX,
                sessions_unique(start.sessions),
                self.sessions_distinct(),
                self@ == revoke_expired(start, ids.take(j as int), now),
            decreases count - j,
        {
            proof {
                lemma_revoke_expired_bounds(start, ids.take(j as int), now);
            }
            self.revoke_session_with_reason(
                connections[j],
                ControllerAuthorizationChangedReason::Expired,
                ControllerControlOwnershipChangedReason::AuthorizationRevoked,
                true,
                now,
            );
            proof {
                assert(ids.take(j + 1).drop_last() =~= ids.take(j as int));
                assert(ids.take(j + 1).last() == connections@[j as int].0);
            }
            j += 1;
        }
        proof {
            assert(ids.take(count as int) =~= ids);
            lemma_revoke_expired_bounds(start, ids, now);
        }
    }

    fn expire_active_lease_at(&mut self, now: u64)
        requires
            old(self).sessions_distinct(),
            old(self)@.next_session_sequence < u64::MAX,
            epoch_for_notification(old(self)@) < u64::MAX,
        ensures
            final(self)@ == expire_active_lease_at(old(self)@, now),
            final(self).sessions_distinct(),
            bounded_step(old(self)@, final(self)@, 1),
    {
        let (connection_id, owner_epoch) = match &self.owner {
            InteractiveOwner::ControllerOwned { connection_id, owner_epoch, .. } => (
                *connection_id,
                *owner_epoch,
            ),
            _ => return ,
        };
        let lease_expired = match self.find_session(connection_id) {
            Some(i) => match &self.sessions[i].active_lease {
                Some(lease) => now >= lease.expires_at,
                None => true,
            },
            None => true,
        };
        if lease_expired {
            self.clear_active_lease(connection_id);
            self.transfer_to_tui_owned_after(owner_epoch);
            self.push_control_for_all(
                ControllerControlOwnershipChangedReason::LeaseExpired,
                now,
            );
        }
    }

    fn run_deadlines(&mut self, now: u64)
        requires
            old(self).sessions_distinct(),
            old(self)@.next_session_sequence + old(self)@.sessions.len() + 1 <= u64::MAX,
            epoch_for_notification(old(self)@) + old(self)@.sessions.len() + 1 <= u64::MAX,
        ensures
            final(self)@ == expire_deadlines_at(old(self)@, now),
            final(self).sessions_distinct(),
            bounded_step(old(self)@, final(self)@, old(self)@.sessions.len() + 1),
    {
        self.expire_authorizations_at(now);
        self.expire_active_lease_at(now);
    }

    /// Expires run-out authorizations, then a run-out input lease.
    pub fn expire_deadlines_at(&mut self, now: u64)
        requires
            old(self).well_formed(),
            old(self)@.next_session_sequence + old(self)@.sessions.len() + 1 <= u64::MAX,
            epoch_for_notification(old(self)@) + old(self)@.sessions.len() + 1 <= u64::MAX,
        ensures
            final(self)@ == expire_deadlines_at(old(self)@, now),
            final(self).well_formed(),
            epoch_for_notification(old(self)@) <= epoch_for_notification(final(self)@),
            bounded_step(old(self)@, final(self)@, old(self)@.sessions.len() + 1),
    {
        self.run_deadlines(now);
        proof {
            lemma_expire_deadlines_consistent(old(self)@, now);
        }
    }
}



/// A fresh `controller-session-…` identifier.
fn new_session_id() -> (id: (String, Ghost<Seq<char>>))
    ensures
        id.0@ == fresh_session_id(id.1@),
{
    let suffix = fresh_uuid_text();
    let mut id = String::new();
    push_str(&mut id, "controller-session-");
    push_str(&mut id, suffix.as_str());
    proof {
        assert(id@ =~= fresh_session_id(suffix@));
    }
    (id, Ghost(suffix@))
}

/// A fresh `controller-lease-…` identifier.
fn new_lease_id() -> (id: (String, Ghost<Seq<char>>))
    ensures
        id.0@ == fresh_lease_id(id.1@),
{
    let suffix = fresh_uuid_text();
    let mut id = String::new();
    push_str(&mut id, "controller-lease-");
    push_str(&mut id, suffix.as_str());
    proof {
        assert(id@ =~= fresh_lease_id(suffix@));
    }
    (id, Ghost(suffix@))
}

impl ControllerSessionCoordinator {
    fn require_live_session(&self, connection_id: ConnectionId, now: u64) -> (result: Result<
        (),
        ControllerSessionError,
    >)
        requires
            self.sessions_distinct(),
        ensures
            result == require_live_session(self@, connection_id.0, now),
    {
        match self.find_session(connection_id) {
            None => Err(ControllerSessionError::ParticipationRequired),
            Some(i) => {
                if now >= self.sessions[i].authorization_expires_at {
                    Err(ControllerSessionError::AuthorizationExpired)
                } else {
                    Ok(())
                }
            },
        }
    }

    fn connection_authorization_expired(&self, connection_id: ConnectionId, now: u64) -> (expired:
        bool)
        requires
            self.sessions_distinct(),
        ensures
            expired == connection_authorization_expired(self@, connection_id.0, now),
    {
        match self.find_session(connection_id) {
            Some(i) => now >= self.sessions[i].authorization_expires_at,
            None => false,
        }
    }

    fn ensure_not_terminal(&self) -> (result: Result<(), ControllerSessionError>)
        ensures
            result == ensure_not_terminal(self@.owner),
    {
        match &self.owner {
            InteractiveOwner::TuiUnavailable { .. } => Err(ControllerSessionError::TuiUnavailable),
            InteractiveOwner::Closed => Err(ControllerSessionError::MainThreadClosed),
            _ => Ok(()),
        }
    }

    fn session_gate(&mut self, connection_id: ConnectionId, now: u64) -> (result: Result<
        (),
        ControllerSessionError,
    >)
        requires
            old(self).sessions_distinct(),
            old(self)@.next_session_sequence + old(self)@.sessions.len() + 1 <= u64::MAX,
            epoch_for_notification(old(self)@) + old(self)@.sessions.len() + 1 <= u64::MAX,
        ensures
            (final(self)@, result) == session_gate(old(self)@, connection_id.0, now),
            final(self).sessions_distinct(),
            bounded_step(old(self)@, final(self)@, old(self)@.sessions.len() + 1),
    {
        let authorization_expired = self.connection_authorization_expired(connection_id, now);
        self.run_deadlines(now);
        if authorization_expired {
            return Err(ControllerSessionError::AuthorizationExpired);
        }
        self.ensure_not_terminal()?;
        self.require_live_session(connection_id, now)
    }

    fn session_or_required(&self, connection_id: ConnectionId, now: u64) -> (result: Result<
        ProtocolSession,
        ControllerSessionError,
    >)
        requires
            self.sessions_distinct(),
        ensures
            session_result_view(result) == session_or_required(self@, connection_id.0, now),
    {
        match self.find_session(connection_id) {
            Some(i) => Ok(self.sessions[i].to_protocol(&self.owner, now)),
            None => Err(ControllerSessionError::ParticipationRequired),
        }
    }

    fn upsert_session(
        &mut self,
        connection_id: ConnectionId,
        grant: ControllerEnrollmentGrant,
        session_id: String,
    )
        requires
            old(self).sessions_distinct(),
            old(self)@.next_session_sequence < u64::MAX,
        ensures
            final(self)@ == upsert_session(old(self)@, connection_id.0, grant@, session_id@),
            final(self).sessions_distinct(),
    {
        let ghost start = self@;
        let found = self.find_session(connection_id);
        let sequence = self.next_session_sequence();
        match found {
            Some(i) => {
                let active_lease = match &self.sessions[i].active_lease {
                    Some(lease) => Some(lease.clone()),
                    None => None,
                };
                let session = ControllerSession {
                    session_id: self.sessions[i].session_id.clone(),
                    connection_id,
                    main_thread_id: grant.main_thread_id,
                    authorization_epoch: grant.authorization_epoch,
                    authorization_expires_at: grant.authorization_expires_at,
                    session_sequence: sequence,
                    active_lease,
                };
                self.replace_session(i, session);
            },
            None => {
                let session = ControllerSession {
                    session_id,
                    connection_id,
                    main_thread_id: grant.main_thread_id,
                    authorization_epoch: grant.authorization_epoch,
                    authorization_expires_at: grant.authorization_expires_at,
                    session_sequence: sequence,
                    active_lease: None,
                };
                proof {
                    lemma_unique_push(start.sessions, session@);
                }
                self.sessions.push(session);
                proof {
                    assert(self@.sessions =~= start.sessions.push(session@));
                }
            },
        }
    }

    fn issue_lease(
        &mut self,
        connection_id: ConnectionId,
        owner_epoch: u64,
        now: u64,
        lease_id: String,
    ) -> (result: Result<ProtocolSession, ControllerSessionError>)
        requires
            old(self).sessions_distinct(),
            old(self)@.next_session_sequence < u64::MAX,
        ensures
            (final(self)@, session_result_view(result)) == issue_lease(
                old(self)@,
                connection_id.0,
                owner_epoch,
                now,
                lease_id@,
            ),
            final(self).sessions_distinct(),
    {
        let sequence = self.next_session_sequence();
        let i = match self.find_session(connection_id) {
            Some(i) => i,
            None => return Err(ControllerSessionError::ParticipationRequired),
        };
        let expires_at = now.saturating_add(self.config.lease_duration_ms);
        let mut session = self.sessions[i].clone();
        session.active_lease = Some(
            ControllerActiveLease { lease_id: lease_id.clone(), owner_epoch, expires_at },
        );
        session.session_sequence = sequence;
        self.replace_session(i, session);
        self.set_owner(InteractiveOwner::ControllerOwned { connection_id, lease_id, owner_epoch });
        self.session_or_required(connection_id, now)
    }

    fn begin_transfer_with(&mut self, connection_id: ConnectionId, now: u64) -> (result: Result<
        PendingControllerTransfer,
        ControllerSessionError,
    >)
        requires
            old(self).sessions_distinct(),
            old(self)@.next_session_sequence + old(self)@.sessions.len() + 2 <= u64::MAX,
            epoch_for_notification(old(self)@) + old(self)@.sessions.len() + 2 <= u64::MAX,
        ensures
            (final(self)@, result) == begin_transfer_to_controller(
                old(self)@,
                connection_id.0,
                now,
            ),
            final(self).sessions_distinct(),
            bounded_step(old(self)@, final(self)@, old(self)@.sessions.len() + 2),
    {
        self.session_gate(connection_id, now)?;
        match &self.owner {
            InteractiveOwner::TuiOwned { owner_epoch } => {
                let next = *owner_epoch + 1;
                self.set_owner(InteractiveOwner::TransferPending { owner_epoch: next });
                Ok(PendingControllerTransfer { connection_id: connection_id.0, owner_epoch: next })
            },
            InteractiveOwner::ControllerOwned { .. } => Err(
                ControllerSessionError::OwnershipConflict,
            ),
            InteractiveOwner::TransferPending { .. } => Err(
                ControllerSessionError::TransferPending,
            ),
            InteractiveOwner::TuiUnavailable { .. } => Err(ControllerSessionError::TuiUnavailable),
            InteractiveOwner::Closed => Err(ControllerSessionError::MainThreadClosed),
        }
    }

    fn complete_transfer_with(
        &mut self,
        transfer: PendingControllerTransfer,
        reason: Option<ControllerControlOwnershipChangedReason>,
        now: u64,
        lease_id: String,
    ) -> (result: Result<ProtocolSession, ControllerSessionError>)
        requires
            old(self).sessions_distinct(),
            old(self)@.next_session_sequence < u64::MAX,
        ensures
            (final(self)@, session_result_view(result)) == complete_transfer_to_controller(
                old(self)@,
                transfer,
                reason,
                now,
                lease_id@,
            ),
            final(self).sessions_distinct(),
            bounded_step(old(self)@, final(self)@, 1),
    {
        let connection_id = ConnectionId(transfer.connection_id);
        self.require_live_session(connection_id, now)?;
        let result = match &self.owner {
            InteractiveOwner::TransferPending { owner_epoch } => {
                if *owner_epoch == transfer.owner_epoch {
                    self.issue_lease(connection_id, transfer.owner_epoch, now, lease_id)
                } else {
                    Err(ControllerSessionError::StaleOwnership)
                }
            },
            InteractiveOwner::ControllerOwned { connection_id: owner_connection_id, .. } => {
                if owner_connection_id.0 == transfer.connection_id {
                    self.session_or_required(connection_id, now)
                } else {
                    Err(ControllerSessionError::StaleOwnership)
                }
            },
            InteractiveOwner::Closed => Err(ControllerSessionError::MainThreadClosed),
            InteractiveOwner::TuiUnavailable { .. } => Err(ControllerSessionError::TuiUnavailable),
            InteractiveOwner::TuiOwned { .. } => Err(ControllerSessionError::StaleOwnership),
        };
        if result.is_ok() {
            if let Some(reason) = reason {
                self.push_control_for_all(reason, now);
            }
        }
        result
    }
}


impl ControllerSessionCoordinator {
    fn return_to_tui(
        &mut self,
        connection_id: ConnectionId,
        owner_epoch: u64,
        reason: ControllerControlOwnershipChangedReason,
        now: u64,
    )
        requires
            old(self).sessions_distinct(),
            old(self)@.next_session_sequence < u64::MAX,
            owner_epoch < u64::MAX,
        ensures
            final(self)@ == return_to_tui(old(self)@, connection_id.0, owner_epoch, reason, now),
            final(self).sessions_distinct(),
    {
        self.clear_active_lease(connection_id);
        self.transfer_to_tui_owned_after(owner_epoch);
        self.push_control_for_all(reason, now);
    }

    fn request_participation_with(
        &mut self,
        connection_id: ConnectionId,
        grant: ControllerEnrollmentGrant,
        now: u64,
        session_id: String,
        lease_id: String,
    ) -> (result: Result<ProtocolSession, ControllerSessionError>)
        requires
            old(self).sessions_distinct(),
            has_room(old(self)@),
        ensures
            (final(self)@, session_result_view(result)) == request_participation(
                old(self)@,
                connection_id.0,
                grant@,
                now,
                session_id@,
                lease_id@,
            ),
            final(self).sessions_distinct(),
            epoch_for_notification(old(self)@) <= epoch_for_notification(final(self)@),
    {
        self.run_deadlines(now);
        if !grant.main_thread_id.equals(&self.main_thread_id) {
            return Err(ControllerSessionError::DifferentMainThread);
        }
        self.ensure_not_terminal()?;
        if now >= grant.authorization_expires_at {
            return Err(ControllerSessionError::AuthorizationExpired);
        }
        self.upsert_session(connection_id, grant, session_id);
        self.push_authorization_for_connection(
            connection_id,
            ControllerAuthorizationChangedReason::Approved,
            now,
        );
        match &self.owner {
            InteractiveOwner::TuiOwned { .. } => {
                let transfer = self.begin_transfer_with(connection_id, now)?;
                self.complete_transfer_with(
                    transfer,
                    Some(ControllerControlOwnershipChangedReason::InitialLeaseGranted),
                    now,
                    lease_id,
                )
            },
            InteractiveOwner::ControllerOwned { .. } | InteractiveOwner::TransferPending {
                ..
            } => self.session_or_required(connection_id, now),
            InteractiveOwner::TuiUnavailable { .. } => Err(ControllerSessionError::TuiUnavailable),
            InteractiveOwner::Closed => Err(ControllerSessionError::MainThreadClosed),
        }
    }

    fn acquire_control_with(&mut self, connection_id: ConnectionId, now: u64, lease_id: String) -> (result:
        Result<ProtocolSession, ControllerSessionError>)
        requires
            old(self).sessions_distinct(),
            has_room(old(self)@),
        ensures
            (final(self)@, session_result_view(result)) == acquire_control(
                old(self)@,
                connection_id.0,
                now,
                lease_id@,
            ),
            final(self).sessions_distinct(),
            epoch_for_notification(old(self)@) <= epoch_for_notification(final(self)@),
    {
        self.session_gate(connection_id, now)?;
        let owned = match &self.owner {
            InteractiveOwner::ControllerOwned { connection_id: owner_connection_id, .. } =>
                owner_connection_id.0 == connection_id.0,
            _ => false,
        };
        if owned {
            return self.session_or_required(connection_id, now);
        }
        let transfer = self.begin_transfer_with(connection_id, now)?;
        self.complete_transfer_with(
            transfer,
            Some(ControllerControlOwnershipChangedReason::Acquired),
            now,
            lease_id,
        )
    }

    // -----------------------------------------------------------------------
    // Public operations at an explicit clock reading.

    /// Grants `connection_id` a standing session from `grant`; when the TUI
    /// owns input, the controller also receives the initial lease.
    pub fn request_participation_at(
        &mut self,
        connection_id: ConnectionId,
        grant: ControllerEnrollmentGrant,
        now: u64,
    ) -> (result: Result<ProtocolSession, ControllerSessionError>)
        requires
            old(self).well_formed(),
            has_room(old(self)@),
        ensures
            final(self).well_formed(),
            epoch_for_notification(old(self)@) <= epoch_for_notification(final(self)@),
            exists|session_suffix: Seq<char>, lease_suffix: Seq<char>|
                (final(self)@, session_result_view(result)) == request_participation(
                    old(self)@,
                    connection_id.0,
                    grant@,
                    now,
                    fresh_session_id(session_suffix),
                    fresh_lease_id(lease_suffix),
                ),
    {
        let (session_id, Ghost(session_suffix)) = new_session_id();
        let (lease_id, Ghost(lease_suffix)) = new_lease_id();
        proof {
            lemma_request_participation_consistent(
                self@,
                connection_id.0,
                grant@,
                now,
                fresh_session_id(session_suffix),
                fresh_lease_id(lease_suffix),
            );
        }
        let result = self.request_participation_with(
            connection_id,
            grant,
            now,
            session_id,
            lease_id,
        );
        proof {
            assert((self@, session_result_view(result)) == request_participation(
                old(self)@,
                connection_id.0,
                grant@,
                now,
                fresh_session_id(session_suffix),
                fresh_lease_id(lease_suffix),
            ));
        }
        result
    }

    /// Takes input ownership for a controller with a standing session.
    pub fn acquire_control_at(&mut self, connection_id: ConnectionId, now: u64) -> (result: Result<
        ProtocolSession,
        ControllerSessionError,
    >)
        requires
            old(self).well_formed(),
            has_room(old(self)@),
        ensures
            final(self).well_formed(),
            epoch_for_notification(old(self)@) <= epoch_for_notification(final(self)@),
            exists|lease_suffix: Seq<char>|
                (final(self)@, session_result_view(result)) == acquire_control(
                    old(self)@,
                    connection_id.0,
                    now,
                    fresh_lease_id(lease_suffix),
                ),
    {
        let (lease_id, Ghost(lease_suffix)) = new_lease_id();
        proof {
            lemma_acquire_control_consistent(self@, connection_id.0, now, fresh_lease_id(lease_suffix));
        }
        let result = self.acquire_control_with(connection_id, now, lease_id);
        proof {
            assert((self@, session_result_view(result)) == acquire_control(
                old(self)@,
                connection_id.0,
                now,
                fresh_lease_id(lease_suffix),
            ));
        }
        result
    }

    /// Starts handing input ownership from the TUI to a controller.
    pub fn begin_transfer_to_controller_at(&mut self, connection_id: ConnectionId, now: u64) -> (result:
        Result<PendingControllerTransfer, ControllerSessionError>)
        requires
            old(self).well_formed(),
            has_room(old(self)@),
        ensures
            (final(self)@, result) == begin_transfer_to_controller(old(self)@, connection_id.0, now),
            final(self).well_formed(),
            epoch_for_notification(old(self)@) <= epoch_for_notification(final(self)@),
    {
        proof {
            lemma_begin_transfer_consistent(self@, connection_id.0, now);
        }
        self.begin_transfer_with(connection_id, now)
    }

    /// Completes a pending transfer, issuing the controller's lease.
    pub fn complete_transfer_to_controller_at(
        &mut self,
        transfer: PendingControllerTransfer,
        now: u64,
    ) -> (result: Result<ProtocolSession, ControllerSessionError>)
        requires
            old(self).well_formed(),
            has_room(old(self)@),
        ensures
            final(self).well_formed(),
            epoch_for_notification(old(self)@) <= epoch_for_notification(final(self)@),
            exists|lease_suffix: Seq<char>|
                (final(self)@, session_result_view(result)) == complete_transfer_to_controller(
                    old(self)@,
                    transfer,
                    None,
                    now,
                    fresh_lease_id(lease_suffix),
                ),
    {
        let (lease_id, Ghost(lease_suffix)) = new_lease_id();
        proof {
            lemma_complete_transfer_consistent(
                self@,
                transfer,
                None,
                now,
                fresh_lease_id(lease_suffix),
            );
        }
        let result = self.complete_transfer_with(transfer, None, now, lease_id);
        proof {
            assert((self@, session_result_view(result)) == complete_transfer_to_controller(
                old(self)@,
                transfer,
                None,
                now,
                fresh_lease_id(lease_suffix),
            ));
        }
        result
    }

    /// Gives input ownership back to the TUI, keeping the standing session.
    pub fn release_control_at(&mut self, connection_id: ConnectionId, now: u64) -> (result: Result<
        ProtocolSession,
        ControllerSessionError,
    >)
        requires
            old(self).well_formed(),
            has_room(old(self)@),
        ensures
            (final(self)@, session_result_view(result)) == release_control(
                old(self)@,
                connection_id.0,
                now,
            ),
            final(self).well_formed(),
            epoch_for_notification(old(self)@) <= epoch_for_notification(final(self)@),
    {
        proof {
            lemma_release_control_consistent(self@, connection_id.0, now);
        }
        self.session_gate(connection_id, now)?;
        let (owned, owner_epoch) = match &self.owner {
            InteractiveOwner::ControllerOwned {
                connection_id: owner_connection_id,
                owner_epoch,
                ..
            } => (owner_connection_id.0 == connection_id.0, *owner_epoch),
            InteractiveOwner::TransferPending { .. } => {
                return Err(ControllerSessionError::TransferPending);
            },
            InteractiveOwner::TuiUnavailable { .. } => {
                return Err(ControllerSessionError::TuiUnavailable);
            },
            InteractiveOwner::Closed => {
                return Err(ControllerSessionError::MainThreadClosed);
            },
            InteractiveOwner::TuiOwned { .. } => (false, 0),
        };
        if owned {
            self.return_to_tui(
                connection_id,
                owner_epoch,
                ControllerControlOwnershipChangedReason::Released,
                now,
            );
        }
        self.session_or_required(connection_id, now)
    }

    /// The main thread, if `connection_id` holds a live standing session.
    pub fn require_standing_session_at(&mut self, connection_id: ConnectionId, now: u64) -> (result:
        Result<ThreadId, ControllerSessionError>)
        requires
            old(self).well_formed(),
            has_room(old(self)@),
        ensures
            (final(self)@, match result {
                Ok(id) => Ok(id.uuid),
                Err(e) => Err(e),
            }) == require_standing_session(old(self)@, connection_id.0, now),
            final(self).well_formed(),
            epoch_for_notification(old(self)@) <= epoch_for_notification(final(self)@),
    {
        proof {
            lemma_requirements_consistent(self@, connection_id.0, now);
        }
        self.session_gate(connection_id, now)?;
        Ok(self.main_thread_id)
    }

    /// The main thread and owner epoch, if `connection_id` holds the live
    /// input lease.
    pub fn require_active_owner_with_epoch_at(&mut self, connection_id: ConnectionId, now: u64) -> (result:
        Result<(ThreadId, u64), ControllerSessionError>)
        requires
            old(self).well_formed(),
            has_room(old(self)@),
        ensures
            (final(self)@, match result {
                Ok((id, epoch)) => Ok((id.uuid, epoch)),
                Err(e) => Err(e),
            }) == require_active_owner_with_epoch(old(self)@, connection_id.0, now),
            final(self).well_formed(),
            epoch_for_notification(old(self)@) <= epoch_for_notification(final(self)@),
    {
        proof {
            lemma_requirements_consistent(self@, connection_id.0, now);
        }
        self.session_gate(connection_id, now)?;
        let i = match self.find_session(connection_id) {
            Some(i) => i,
            None => return Err(ControllerSessionError::ParticipationRequired),
        };
        if self.sessions[i].current_active_lease(&self.owner, now).is_some() {
            return match &self.owner {
                InteractiveOwner::ControllerOwned { owner_epoch, .. } => Ok(
                    (self.main_thread_id, *owner_epoch),
                ),
                _ => Err(ControllerSessionError::StaleOwnership),
            };
        }
        match &self.owner {
            InteractiveOwner::ControllerOwned { connection_id: owner_connection_id, .. } => {
                if owner_connection_id.0 != connection_id.0 {
                    Err(ControllerSessionError::OwnershipConflict)
                } else {
                    Err(ControllerSessionError::StaleOwnership)
                }
            },
            InteractiveOwner::TransferPending { .. } => Err(
                ControllerSessionError::TransferPending,
            ),
            InteractiveOwner::TuiUnavailable { .. } => Err(ControllerSessionError::TuiUnavailable),
            InteractiveOwner::Closed => Err(ControllerSessionError::MainThreadClosed),
            InteractiveOwner::TuiOwned { .. } => Err(ControllerSessionError::StaleOwnership),
        }
    }

    /// The main thread, if `connection_id` holds the live input lease.
    pub fn require_active_owner_at(&mut self, connection_id: ConnectionId, now: u64) -> (result:
        Result<ThreadId, ControllerSessionError>)
        requires
            old(self).well_formed(),
            has_room(old(self)@),
        ensures
            (final(self)@, match result {
                Ok(id) => Ok(id.uuid),
                Err(e) => Err(e),
            }) == (require_active_owner_with_epoch(old(self)@, connection_id.0, now).0, match require_active_owner_with_epoch(
                old(self)@,
                connection_id.0,
                now,
            ).1 {
                Ok((id, _)) => Ok(id),
                Err(e) => Err(e),
            }),
            final(self).well_formed(),
            epoch_for_notification(old(self)@) <= epoch_for_notification(final(self)@),
    {
        match self.require_active_owner_with_epoch_at(connection_id, now) {
            Ok((main_thread_id, _owner_epoch)) => Ok(main_thread_id),
            Err(e) => Err(e),
        }
    }

    /// Thread-affecting TUI input takes ownership back from a controller or
    /// cancels a pending transfer.
    pub fn reclaim_for_tui_at(&mut self, now: u64) -> (result: Result<(), ControllerSessionError>)
        requires
            old(self).well_formed(),
            has_room(old(self)@),
        ensures
            (final(self)@, result) == reclaim_for_tui(old(self)@, now),
            final(self).well_formed(),
            epoch_for_notification(old(self)@) <= epoch_for_notification(final(self)@),
    {
        proof {
            lemma_reclaim_consistent(self@, now);
        }
        self.expire_active_lease_at(now);
        match &self.owner {
            InteractiveOwner::ControllerOwned { connection_id, owner_epoch, .. } => {
                let connection_id = *connection_id;
                let owner_epoch = *owner_epoch;
                self.return_to_tui(
                    connection_id,
                    owner_epoch,
                    ControllerControlOwnershipChangedReason::ReclaimedByTui,
                    now,
                );
                Ok(())
            },
            InteractiveOwner::TuiOwned { .. } => Ok(()),
            InteractiveOwner::TransferPending { owner_epoch } => {
                let owner_epoch = *owner_epoch;
                self.transfer_to_tui_owned_after(owner_epoch);
                Ok(())
            },
            InteractiveOwner::TuiUnavailable { .. } => Err(ControllerSessionError::TuiUnavailable),
            InteractiveOwner::Closed => Err(ControllerSessionError::MainThreadClosed),
        }
    }

    /// Revokes the session of `connection_id` and tells it so.
    pub fn revoke_session_at(&mut self, connection_id: ConnectionId, now: u64)
        requires
            old(self).well_formed(),
            has_room(old(self)@),
        ensures
            final(self)@ == revoke_session_with_reason(
                old(self)@,
                connection_id.0,
                ControllerAuthorizationChangedReason::Revoked,
                ControllerControlOwnershipChangedReason::AuthorizationRevoked,
                true,
                now,
            ),
            final(self).well_formed(),
            epoch_for_notification(old(self)@) <= epoch_for_notification(final(self)@),
    {
        proof {
            lemma_revoke_consistent(self@, connection_id.0, ControllerAuthorizationChangedReason::Revoked, ControllerControlOwnershipChangedReason::AuthorizationRevoked, true, now);
        }
        self.revoke_session_with_reason(
            connection_id,
            ControllerAuthorizationChangedReason::Revoked,
            ControllerControlOwnershipChangedReason::AuthorizationRevoked,
            true,
            now,
        );
    }

    /// Ends the session of `connection_id` at the controller's request.
    pub fn sign_off_session_at(&mut self, connection_id: ConnectionId, now: u64)
        requires
            old(self).well_formed(),
            has_room(old(self)@),
        ensures
            final(self)@ == revoke_session_with_reason(
                old(self)@,
                connection_id.0,
                ControllerAuthorizationChangedReason::SignOff,
                ControllerControlOwnershipChangedReason::SignOff,
                false,
                now,
            ),
            final(self).well_formed(),
            epoch_for_notification(old(self)@) <= epoch_for_notification(final(self)@),
    {
        proof {
            lemma_revoke_consistent(self@, connection_id.0, ControllerAuthorizationChangedReason::SignOff, ControllerControlOwnershipChangedReason::SignOff, false, now);
        }
        self.revoke_session_with_reason(
            connection_id,
            ControllerAuthorizationChangedReason::SignOff,
            ControllerControlOwnershipChangedReason::SignOff,
            false,
            now,
        );
    }

    /// Ends the session of `connection_id` after its transport closed.
    pub fn disconnect_session_at(&mut self, connection_id: ConnectionId, now: u64)
        requires
            old(self).well_formed(),
            has_room(old(self)@),
        ensures
            final(self)@ == revoke_session_with_reason(
                old(self)@,
                connection_id.0,
                ControllerAuthorizationChangedReason::Disconnected,
                ControllerControlOwnershipChangedReason::ControllerDisconnected,
                false,
                now,
            ),
            final(self).well_formed(),
            epoch_for_notification(old(self)@) <= epoch_for_notification(final(self)@),
    {
        proof {
            lemma_revoke_consistent(self@, connection_id.0, ControllerAuthorizationChangedReason::Disconnected, ControllerControlOwnershipChangedReason::ControllerDisconnected, false, now);
        }
        self.revoke_session_with_reason(
            connection_id,
            ControllerAuthorizationChangedReason::Disconnected,
            ControllerControlOwnershipChangedReason::ControllerDisconnected,
            false,
            now,
        );
    }

    /// The session of `connection_id` as the controller sees it at `now`.
    pub fn protocol_session_at(&self, connection_id: ConnectionId, now: u64) -> (session: Option<
        ProtocolSession,
    >)
        requires
            self.well_formed(),
        ensures
            session.deep_view() == protocol_session_of(self@, connection_id.0, now),
    {
        match self.find_session(connection_id) {
            Some(i) => Some(self.sessions[i].to_protocol(&self.owner, now)),
            None => None,
        }
    }
}


impl ControllerSessionCoordinator {
    fn push_revocation_notes(
        &mut self,
        revoked: &Vec<ControllerSession>,
        ownership_reason: ControllerControlOwnershipChangedReason,
        authorization_reason: ControllerAuthorizationChangedReason,
        renumber: bool,
    )
        requires
            old(self).sessions_distinct(),
            renumber ==> old(self)@.next_session_sequence + revoked@.len() <= u64::MAX,
        ensures
            final(self)@ == push_revocation_notes(
                old(self)@,
                sessions_view(revoked@),
                ownership_reason,
                authorization_reason,
                renumber,
            ),
            final(self).sessions_distinct(),
    {
        let ghost start = self@;
        let ghost list = sessions_view(revoked@);
        let count = revoked.len();
        let mut i: usize = 0;
        proof {
            assert(list.take(0) =~= Seq::<SessionModel>::empty());
        }
        while i < count
            invariant
                count == revoked@.len(),
                list == sessions_view(revoked@),
                i <= count,
                renumber ==> start.next_session_sequence + count <= u64::MAX,
                self.sessions_distinct(),
                self@ == push_revocation_notes(
                    start,
                    list.take(i as int),
                    ownership_reason,
                    authorization_reason,
                    renumber,
                ),
                renumber ==> self@.next_session_sequence == start.next_session_sequence + i,
                !renumber ==> self@.next_session_sequence == start.next_session_sequence,
            decreases count - i,
        {
            let mut session = revoked[i].clone();
            if renumber {
                let sequence = self.next_session_sequence();
                session.session_sequence = sequence;
            }
            let note = self.control_note(&session, ownership_reason, false, 0);
            self.push_note(note);
            let note = self.authorization_note(&session, authorization_reason, false, 0);
            proof {
                assert(note@ == authorization_note(
                    self@,
                    session@,
                    authorization_reason,
                    false,
                    0,
                ));
            }
            self.push_note(note);
            proof {
                assert(list.take(i + 1).drop_last() =~= list.take(i as int));
                assert(list.take(i + 1).last() == revoked@[i as int]@);
            }
            i += 1;
        }
        proof {
            assert(list.take(count as int) =~= list);
        }
    }

    /// Takes every session out of the coordinator.
    fn take_sessions(&mut self) -> (sessions: Vec<ControllerSession>)
        ensures
            sessions@ == old(self).sessions@,
            final(self)@ == (CoordinatorModel { sessions: Seq::empty(), ..old(self)@ }),
            final(self).sessions_distinct(),
    {
        let mut sessions = Vec::new();
        std::mem::swap(&mut sessions, &mut self.sessions);
        proof {
            assert(self@.sessions =~= Seq::<SessionModel>::empty());
        }
        sessions
    }

    /// Revokes every controller session in response to an owning-TUI policy
    /// action.
    pub fn revoke_all_sessions_for_tui_policy(&mut self)
        requires
            old(self).well_formed(),
            has_room(old(self)@),
        ensures
            final(self)@ == revoke_all_sessions_for_tui_policy(old(self)@),
            final(self).well_formed(),
            epoch_for_notification(old(self)@) <= epoch_for_notification(final(self)@),
    {
        proof {
            lemma_terminal_operations_consistent(self@);
            lemma_terminal_operations_epochs(self@);
        }
        let ghost start = self@;
        let revoked = self.take_sessions();
        if revoked.len() == 0 {
            proof {
                assert(start.sessions.len() == 0);
                assert(self@.sessions =~= start.sessions);
                assert(self@ == start);
            }
            return ;
        }
        match &self.owner {
            InteractiveOwner::ControllerOwned { owner_epoch, .. } => {
                let owner_epoch = *owner_epoch;
                self.transfer_to_tui_owned_after(owner_epoch);
            },
            _ => {},
        }
        self.push_revocation_notes(
            &revoked,
            ControllerControlOwnershipChangedReason::AuthorizationRevoked,
            ControllerAuthorizationChangedReason::Revoked,
            true,
        );
        self.push_ownership_status(ControllerControlOwnershipChangedReason::AuthorizationRevoked);
    }

    /// The TUI can no longer take input: every session ends and the main
    /// thread becomes uncontrollable.
    pub fn mark_tui_unavailable(&mut self) -> (result: Result<(), ControllerSessionError>)
        requires
            old(self).well_formed(),
            has_room(old(self)@),
        ensures
            (final(self)@, result) == mark_tui_unavailable(old(self)@),
            final(self).well_formed(),
            epoch_for_notification(old(self)@) <= epoch_for_notification(final(self)@),
    {
        proof {
            lemma_terminal_operations_consistent(self@);
            lemma_terminal_operations_epochs(self@);
        }
        if let InteractiveOwner::Closed = &self.owner {
            return Err(ControllerSessionError::MainThreadClosed);
        }
        self.clear_all_active_leases();
        let owner_epoch = self.epoch_for_notification() + 1;
        self.set_owner(InteractiveOwner::TuiUnavailable { owner_epoch });
        let sessions = self.take_sessions();
        self.push_revocation_notes(
            &sessions,
            ControllerControlOwnershipChangedReason::TuiUnavailable,
            ControllerAuthorizationChangedReason::TuiUnavailable,
            false,
        );
        self.push_ownership_status(ControllerControlOwnershipChangedReason::TuiUnavailable);
        Ok(())
    }

    /// The main thread closed: every session ends.
    pub fn close_main_thread(&mut self)
        requires
            old(self).well_formed(),
            has_room(old(self)@),
        ensures
            final(self)@ == close_main_thread(old(self)@),
            final(self).well_formed(),
            epoch_for_notification(old(self)@) <= epoch_for_notification(final(self)@),
    {
        proof {
            lemma_terminal_operations_consistent(self@);
            lemma_terminal_operations_epochs(self@);
        }
        self.clear_all_active_leases();
        self.last_owner_epoch = self.epoch_for_notification() + 1;
        self.owner = InteractiveOwner::Closed;
        let sessions = self.take_sessions();
        self.push_revocation_notes(
            &sessions,
            ControllerControlOwnershipChangedReason::MainThreadClosed,
            ControllerAuthorizationChangedReason::MainThreadClosed,
            false,
        );
        self.push_ownership_status(ControllerControlOwnershipChangedReason::MainThreadClosed);
    }

    // -----------------------------------------------------------------------
    // Observers.

    /// Who owns input on the main thread.
    pub fn interactive_owner(&self) -> (owner: &InteractiveOwner)
        ensures
            owner@ == self@.owner,
    {
        &self.owner
    }

    /// The ownership status the TUI would see now, for `reason`.
    pub fn ownership_status_snapshot(&self, reason: ControllerControlOwnershipChangedReason) -> (status:
        ControllerOwnershipStatus)
        requires
            self.well_formed(),
        ensures
            status@ == ownership_status(self@, reason),
    {
        self.ownership_status(reason)
    }

    /// The main thread, unless it has closed.
    pub fn main_thread_id(&self) -> (id: Option<ThreadId>)
        ensures
            match id {
                Some(id) => !(self@.owner is Closed) && id.uuid == self@.main_thread_id,
                None => self@.owner is Closed,
            },
    {
        match &self.owner {
            InteractiveOwner::Closed => None,
            _ => Some(self.main_thread_id),
        }
    }

    /// The standing session of `connection_id`.
    pub fn session_for(&self, connection_id: ConnectionId) -> (session: Option<&ControllerSession>)
        requires
            self.well_formed(),
        ensures
            match session {
                Some(session) => session_of(self@.sessions, connection_id.0) == Some(session@),
                None => session_of(self@.sessions, connection_id.0) is None,
            },
    {
        match self.find_session(connection_id) {
            Some(i) => Some(&self.sessions[i]),
            None => None,
        }
    }

    /// Hands out and forgets the controller notifications recorded so far.
    pub fn drain_notifications(&mut self) -> (notes: Vec<ControllerSessionNotification>)
        ensures
            notifications_view(notes@) == old(self)@.notifications,
            final(self)@ == (CoordinatorModel { notifications: Seq::empty(), ..old(self)@ }),
            final(self).well_formed() == old(self).well_formed(),
    {
        let mut notes = Vec::new();
        std::mem::swap(&mut notes, &mut self.notifications);
        proof {
            assert(self@.notifications =~= Seq::<NotificationModel>::empty());
        }
        notes
    }

    /// Hands out and forgets the notifications and ownership statuses
    /// recorded so far.
    pub fn drain_events(&mut self) -> (events: ControllerSessionEvents)
        ensures
            notifications_view(events.controller_notifications@) == old(self)@.notifications,
            statuses_view(events.ownership_statuses@) == old(self)@.ownership_statuses,
            final(self)@ == (CoordinatorModel {
                notifications: Seq::empty(),
                ownership_statuses: Seq::empty(),
                ..old(self)@
            }),
            final(self).well_formed() == old(self).well_formed(),
    {
        let mut controller_notifications = Vec::new();
        std::mem::swap(&mut controller_notifications, &mut self.notifications);
        let mut ownership_statuses = Vec::new();
        std::mem::swap(&mut ownership_statuses, &mut self.ownership_statuses);
        proof {
            assert(self@.notifications =~= Seq::<NotificationModel>::empty());
            assert(self@.ownership_statuses =~= Seq::<StatusModel>::empty());
        }
        ControllerSessionEvents { controller_notifications, ownership_statuses }
    }
}


// Operations at the coordinator's own clock reading.
impl ControllerSessionCoordinator {
    /// `request_participation_at` at the current clock reading.
    pub fn request_participation(
        &mut self,
        connection_id: ConnectionId,
        grant: ControllerEnrollmentGrant,
    ) -> (result: Result<ProtocolSession, ControllerSessionError>)
        requires
            old(self).well_formed(),
            has_room(old(self)@),
        ensures
            final(self).well_formed(),
            epoch_for_notification(old(self)@) <= epoch_for_notification(final(self)@),
            exists|now: u64, session_suffix: Seq<char>, lease_suffix: Seq<char>|
                reads_clock(old(self)@, now) && (final(self)@, session_result_view(result)) == request_participation(
                    old(self)@,
                    connection_id.0,
                    grant@,
                    now,
                    fresh_session_id(session_suffix),
                    fresh_lease_id(lease_suffix),
                ),
    {
        let now = self.now();
        self.request_participation_at(connection_id, grant, now)
    }

    /// `acquire_control_at` at the current clock reading.
    pub fn acquire_control(&mut self, connection_id: ConnectionId) -> (result: Result<
        ProtocolSession,
        ControllerSessionError,
    >)
        requires
            old(self).well_formed(),
            has_room(old(self)@),
        ensures
            final(self).well_formed(),
            epoch_for_notification(old(self)@) <= epoch_for_notification(final(self)@),
            exists|now: u64, lease_suffix: Seq<char>|
                reads_clock(old(self)@, now) && (final(self)@, session_result_view(result)) == acquire_control(
                    old(self)@,
                    connection_id.0,
                    now,
                    fresh_lease_id(lease_suffix),
                ),
    {
        let now = self.now();
        self.acquire_control_at(connection_id, now)
    }

    /// `begin_transfer_to_controller_at` at the current clock reading.
    pub fn begin_transfer_to_controller(&mut self, connection_id: ConnectionId) -> (result: Result<
        PendingControllerTransfer,
        ControllerSessionError,
    >)
        requires
            old(self).well_formed(),
            has_room(old(self)@),
        ensures
            final(self).well_formed(),
            epoch_for_notification(old(self)@) <= epoch_for_notification(final(self)@),
            exists|now: u64|
                reads_clock(old(self)@, now) && (final(self)@, result) == begin_transfer_to_controller(
                    old(self)@,
                    connection_id.0,
                    now,
                ),
    {
        let now = self.now();
        self.begin_transfer_to_controller_at(connection_id, now)
    }

    /// `complete_transfer_to_controller_at` at the current clock reading.
    pub fn complete_transfer_to_controller(&mut self, transfer: PendingControllerTransfer) -> (result:
        Result<ProtocolSession, ControllerSessionError>)
        requires
            old(self).well_formed(),
            has_room(old(self)@),
        ensures
            final(self).well_formed(),
            epoch_for_notification(old(self)@) <= epoch_for_notification(final(self)@),
            exists|now: u64, lease_suffix: Seq<char>|
                reads_clock(old(self)@, now) && (final(self)@, session_result_view(result)) == complete_transfer_to_controller(
                    old(self)@,
                    transfer,
                    None,
                    now,
                    fresh_lease_id(lease_suffix),
                ),
    {
        let now = self.now();
        self.complete_transfer_to_controller_at(transfer, now)
    }

    /// `release_control_at` at the current clock reading.
    pub fn release_control(&mut self, connection_id: ConnectionId) -> (result: Result<
        ProtocolSession,
        ControllerSessionError,
    >)
        requires
            old(self).well_formed(),
            has_room(old(self)@),
        ensures
            final(self).well_formed(),
            epoch_for_notification(old(self)@) <= epoch_for_notification(final(self)@),
            exists|now: u64|
                reads_clock(old(self)@, now) && (final(self)@, session_result_view(result)) == release_control(
                    old(self)@,
                    connection_id.0,
                    now,
                ),
    {
        let now = self.now();
        self.release_control_at(connection_id, now)
    }

    /// `require_standing_session_at` at the current clock reading.
    pub fn require_standing_session(&mut self, connection_id: ConnectionId) -> (result: Result<
        ThreadId,
        ControllerSessionError,
    >)
        requires
            old(self).well_formed(),
            has_room(old(self)@),
        ensures
            final(self).well_formed(),
            epoch_for_notification(old(self)@) <= epoch_for_notification(final(self)@),
            exists|now: u64|
                reads_clock(old(self)@, now) && (final(self)@, match result {
                    Ok(id) => Ok(id.uuid),
                    Err(e) => Err(e),
                }) == require_standing_session(old(self)@, connection_id.0, now),
    {
        let now = self.now();
        self.require_standing_session_at(connection_id, now)
    }

    /// `require_active_owner_with_epoch_at` at the current clock reading.
    pub fn require_active_owner_with_epoch(&mut self, connection_id: ConnectionId) -> (result:
        Result<(ThreadId, u64), ControllerSessionError>)
        requires
            old(self).well_formed(),
            has_room(old(self)@),
        ensures
            final(self).well_formed(),
            epoch_for_notification(old(self)@) <= epoch_for_notification(final(self)@),
            exists|now: u64|
                reads_clock(old(self)@, now) && (final(self)@, match result {
                    Ok((id, epoch)) => Ok((id.uuid, epoch)),
                    Err(e) => Err(e),
                }) == require_active_owner_with_epoch(old(self)@, connection_id.0, now),
    {
        let now = self.now();
        self.require_active_owner_with_epoch_at(connection_id, now)
    }

    /// `require_active_owner_at` at the current clock reading.
    pub fn require_active_owner(&mut self, connection_id: ConnectionId) -> (result: Result<
        ThreadId,
        ControllerSessionError,
    >)
        requires
            old(self).well_formed(),
            has_room(old(self)@),
        ensures
            final(self).well_formed(),
            epoch_for_notification(old(self)@) <= epoch_for_notification(final(self)@),
            exists|now: u64|
                reads_clock(old(self)@, now) && (final(self)@, match result {
                    Ok(id) => Ok(id.uuid),
                    Err(e) => Err(e),
                }) == (require_active_owner_with_epoch(old(self)@, connection_id.0, now).0, match require_active_owner_with_epoch(
                    old(self)@,
                    connection_id.0,
                    now,
                ).1 {
                    Ok((id, _)) => Ok(id),
                    Err(e) => Err(e),
                }),
    {
        let now = self.now();
        self.require_active_owner_at(connection_id, now)
    }

    /// `reclaim_for_tui_at` at the current clock reading.
    pub fn reclaim_for_tui(&mut self) -> (result: Result<(), ControllerSessionError>)
        requires
            old(self).well_formed(),
            has_room(old(self)@),
        ensures
            final(self).well_formed(),
            epoch_for_notification(old(self)@) <= epoch_for_notification(final(self)@),
            exists|now: u64|
                reads_clock(old(self)@, now) && (final(self)@, result) == reclaim_for_tui(
                    old(self)@,
                    now,
                ),
    {
        let now = self.now();
        self.reclaim_for_tui_at(now)
    }

    /// `revoke_session_at` at the current clock reading.
    pub fn revoke_session(&mut self, connection_id: ConnectionId)
        requires
            old(self).well_formed(),
            has_room(old(self)@),
        ensures
            final(self).well_formed(),
            epoch_for_notification(old(self)@) <= epoch_for_notification(final(self)@),
            exists|now: u64|
                reads_clock(old(self)@, now) && final(self)@ == revoke_session_with_reason(
                    old(self)@,
                    connection_id.0,
                    ControllerAuthorizationChangedReason::Revoked,
                    ControllerControlOwnershipChangedReason::AuthorizationRevoked,
                    true,
                    now,
                ),
    {
        let now = self.now();
        self.revoke_session_at(connection_id, now)
    }

    /// `sign_off_session_at` at the current clock reading.
    pub fn sign_off_session(&mut self, connection_id: ConnectionId)
        requires
            old(self).well_formed(),
            has_room(old(self)@),
        ensures
            final(self).well_formed(),
            epoch_for_notification(old(self)@) <= epoch_for_notification(final(self)@),
            exists|now: u64|
                reads_clock(old(self)@, now) && final(self)@ == revoke_session_with_reason(
                    old(self)@,
                    connection_id.0,
                    ControllerAuthorizationChangedReason::SignOff,
                    ControllerControlOwnershipChangedReason::SignOff,
                    false,
                    now,
                ),
    {
        let now = self.now();
        self.sign_off_session_at(connection_id, now)
    }

    /// `disconnect_session_at` at the current clock reading.
    pub fn disconnect_session(&mut self, connection_id: ConnectionId)
        requires
            old(self).well_formed(),
            has_room(old(self)@),
        ensures
            final(self).well_formed(),
            epoch_for_notification(old(self)@) <= epoch_for_notification(final(self)@),
            exists|now: u64|
                reads_clock(old(self)@, now) && final(self)@ == revoke_session_with_reason(
                    old(self)@,
                    connection_id.0,
                    ControllerAuthorizationChangedReason::Disconnected,
                    ControllerControlOwnershipChangedReason::ControllerDisconnected,
                    false,
                    now,
                ),
    {
        let now = self.now();
        self.disconnect_session_at(connection_id, now)
    }

    /// `expire_deadlines_at` at the current clock reading.
    pub fn expire_deadlines(&mut self)
        requires
            old(self).well_formed(),
            has_room(old(self)@),
        ensures
            final(self).well_formed(),
            epoch_for_notification(old(self)@) <= epoch_for_notification(final(self)@),
            exists|now: u64|
                reads_clock(old(self)@, now) && final(self)@ == expire_deadlines_at(old(self)@, now),
    {
        let now = self.now();
        self.expire_deadlines_at(now)
    }

    /// `protocol_session_at` at the current clock reading.
    pub fn protocol_session(&self, connection_id: ConnectionId) -> (session: Option<
        ProtocolSession,
    >)
        requires
            self.well_formed(),
        ensures
            exists|now: u64|
                reads_clock(self@, now) && session.deep_view() == protocol_session_of(
                    self@,
                    connection_id.0,
                    now,
                ),
    {
        let now = self.now();
        self.protocol_session_at(connection_id, now)
    }
}

} // verus!

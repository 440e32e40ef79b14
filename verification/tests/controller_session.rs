use codex_controller::clock::ControllerSessionClock;
use codex_controller::ids::{ConnectionId, ThreadId};
use codex_controller::protocol::{
    ControllerAuthorizationChangedReason, ControllerControlOwnershipChangedReason,
    ControllerLease as ProtocolControllerLease, ControllerSession as ProtocolControllerSession,
};
use codex_controller::session::{
    ControllerEnrollmentGrant, ControllerSessionConfig, ControllerSessionCoordinator,
    ControllerSessionNotification, InteractiveOwner,
};
use codex_controller::session_model::{ControllerSessionError, PendingControllerTransfer};

const LEASE_DURATION_MS: u64 = 5_000;
const AUTHORIZATION_DURATION_MS: u64 = 60_000;

#[test]
fn ownership_lifecycle_preserves_standing_authorization() {
    let now = 0;
    let main_thread_id = thread_id(1);
    let controller = connection_id(10);
    let observer = connection_id(11);
    let mut coordinator = new_coordinator(main_thread_id);

    let owner_session = coordinator
        .request_participation_at(controller, grant(now, main_thread_id, 3), now)
        .expect("first controller should get the initial lease");
    let initial_lease = active_lease(&owner_session);
    assert_controller_owned(&coordinator, controller, &initial_lease, 1);
    assert_session_rights(&owner_session, Some(1), true, true);
    assert_eq!(owner_session.lease_expires_in_ms, Some(LEASE_DURATION_MS));
    assert_eq!(
        owner_session.authorization_expires_in_ms,
        Some(AUTHORIZATION_DURATION_MS)
    );
    let already_acquired = coordinator
        .acquire_control_at(controller, now)
        .expect("active owner acquire should return the current session");
    assert_eq!(already_acquired, owner_session);

    let observer_session = coordinator
        .request_participation_at(observer, grant(now, main_thread_id, 4), now)
        .expect("second controller should get standing read access only");
    assert_controller_owned(&coordinator, controller, &initial_lease, 1);
    assert_session_rights(&observer_session, None, false, false);

    let released = coordinator
        .release_control_at(controller, now)
        .expect("release should preserve standing session");
    let idempotent_release = coordinator
        .release_control_at(controller, now)
        .expect("release without an active lease should be idempotent");
    assert_eq!(released, idempotent_release);
    assert_eq!(
        coordinator.interactive_owner(),
        &InteractiveOwner::TuiOwned { owner_epoch: 2 }
    );
    assert_session_rights(&released, None, true, false);

    let reacquired = coordinator
        .acquire_control_at(controller, now)
        .expect("standing session should reacquire without TUI input");
    let reacquired_lease = active_lease(&reacquired);
    assert_eq!(owner_session.session_id, reacquired.session_id);
    assert_controller_owned(&coordinator, controller, &reacquired_lease, 3);

    coordinator
        .reclaim_for_tui_at(now)
        .expect("thread-affecting TUI input should reclaim ownership");
    let reclaimed = coordinator
        .protocol_session_at(controller, now)
        .expect("reclaim should preserve standing session");
    assert_eq!(
        coordinator.interactive_owner(),
        &InteractiveOwner::TuiOwned { owner_epoch: 4 }
    );
    assert_session_rights(&reclaimed, None, true, false);
}

#[test]
fn active_owner_authority_rejects_controllers_without_control() {
    let now = 0;
    let main_thread_id = thread_id(1);
    let controller = connection_id(10);
    let observer = connection_id(11);
    let mut coordinator = new_coordinator(main_thread_id);

    coordinator
        .request_participation_at(controller, grant(now, main_thread_id, 3), now)
        .expect("first controller should get the initial lease");
    coordinator
        .request_participation_at(observer, grant(now, main_thread_id, 4), now)
        .expect("second controller should get standing read access only");

    assert_eq!(
        coordinator.require_active_owner_at(controller, now),
        Ok(main_thread_id)
    );
    assert_eq!(
        coordinator.require_active_owner_at(observer, now),
        Err(ControllerSessionError::OwnershipConflict)
    );

    coordinator
        .release_control_at(controller, now)
        .expect("release should preserve standing authorization without control");
    assert_eq!(
        coordinator.require_active_owner_at(controller, now),
        Err(ControllerSessionError::StaleOwnership)
    );
}

#[test]
fn transfer_pending_and_deadlines_are_deterministic() {
    let now = 0;
    let main_thread_id = thread_id(1);
    let controller = connection_id(10);
    let mut coordinator = new_coordinator(main_thread_id);

    coordinator
        .request_participation_at(controller, grant(now, main_thread_id, 3), now)
        .expect("participation should grant initial lease");
    coordinator
        .release_control_at(controller, now)
        .expect("release should return ownership to TUI");
    let transfer = coordinator
        .begin_transfer_to_controller_at(controller, now)
        .expect("standing session should begin transfer");
    assert_eq!(
        coordinator.interactive_owner(),
        &InteractiveOwner::TransferPending { owner_epoch: 3 }
    );
    assert_eq!(
        coordinator.acquire_control_at(controller, now),
        Err(ControllerSessionError::TransferPending)
    );
    let committed = coordinator
        .complete_transfer_to_controller_at(transfer, now)
        .expect("pending transfer should commit");
    assert_controller_owned(&coordinator, controller, &active_lease(&committed), 3);

    let mut reclaim_coordinator = new_coordinator(main_thread_id);
    reclaim_coordinator
        .request_participation_at(controller, grant(now, main_thread_id, 4), now)
        .expect("participation should grant initial lease");
    reclaim_coordinator
        .release_control_at(controller, now)
        .expect("release should return ownership to TUI");
    let stale_transfer = reclaim_coordinator
        .begin_transfer_to_controller_at(controller, now)
        .expect("standing session should begin transfer");
    reclaim_coordinator
        .reclaim_for_tui_at(now)
        .expect("TUI input should reclaim a pending controller transfer");
    assert_eq!(
        reclaim_coordinator.interactive_owner(),
        &InteractiveOwner::TuiOwned { owner_epoch: 4 }
    );
    assert_eq!(
        reclaim_coordinator.complete_transfer_to_controller_at(stale_transfer, now),
        Err(ControllerSessionError::StaleOwnership)
    );

    let mut lease_coordinator = new_coordinator(main_thread_id);
    lease_coordinator
        .request_participation_at(controller, grant(now, main_thread_id, 5), now)
        .expect("participation should grant initial lease");
    let later = now + LEASE_DURATION_MS + 1;
    lease_coordinator.expire_deadlines_at(later);
    let after_lease_expiry = lease_coordinator
        .protocol_session_at(controller, later)
        .expect("lease expiry should keep standing authorization");
    assert_eq!(
        lease_coordinator.interactive_owner(),
        &InteractiveOwner::TuiOwned { owner_epoch: 2 }
    );
    assert_session_rights(&after_lease_expiry, None, true, false);
    assert_eq!(
        after_lease_expiry.authorization_expires_in_ms,
        Some(AUTHORIZATION_DURATION_MS - LEASE_DURATION_MS - 1)
    );

    let mut auth_coordinator = new_coordinator(main_thread_id);
    auth_coordinator
        .request_participation_at(
            controller,
            grant_with_duration(now, main_thread_id, 6, 1_000),
            now,
        )
        .expect("participation should grant initial lease");
    let later = now + 1_001;
    auth_coordinator.expire_deadlines_at(later);
    assert_eq!(
        auth_coordinator.interactive_owner(),
        &InteractiveOwner::TuiOwned { owner_epoch: 2 }
    );
    assert_eq!(auth_coordinator.protocol_session_at(controller, later), None);
}

#[test]
fn notifications_track_authorization_and_ownership_transitions() {
    let now = 0;
    let main_thread_id = thread_id(1);
    let controller = connection_id(10);
    let mut coordinator = new_coordinator(main_thread_id);

    let approved = coordinator
        .request_participation_at(controller, grant(now, main_thread_id, 3), now)
        .expect("participation should grant initial lease");
    let notifications = coordinator.drain_notifications();
    assert_eq!(notifications.len(), 2);
    assert_authorization_notification(
        &notifications[0],
        controller,
        ControllerAuthorizationChangedReason::Approved,
        Some(false),
    );
    assert_control_notification(
        &notifications[1],
        controller,
        ControllerControlOwnershipChangedReason::InitialLeaseGranted,
        Some(approved.active_lease.clone().expect("initial lease")),
    );

    coordinator
        .release_control_at(controller, now)
        .expect("release should preserve standing session");
    let notifications = coordinator.drain_notifications();
    assert_eq!(notifications.len(), 1);
    assert_control_notification(
        &notifications[0],
        controller,
        ControllerControlOwnershipChangedReason::Released,
        None,
    );

    let reacquired = coordinator
        .acquire_control_at(controller, now)
        .expect("standing session should reacquire");
    let notifications = coordinator.drain_notifications();
    assert_eq!(notifications.len(), 1);
    assert_control_notification(
        &notifications[0],
        controller,
        ControllerControlOwnershipChangedReason::Acquired,
        Some(reacquired.active_lease.clone().expect("reacquired lease")),
    );

    coordinator
        .reclaim_for_tui_at(now)
        .expect("TUI input should reclaim ownership");
    let notifications = coordinator.drain_notifications();
    assert_eq!(notifications.len(), 1);
    assert_control_notification(
        &notifications[0],
        controller,
        ControllerControlOwnershipChangedReason::ReclaimedByTui,
        None,
    );
}

#[test]
fn notifications_track_deadline_and_terminal_revocation() {
    let now = 0;
    let main_thread_id = thread_id(1);
    let controller = connection_id(10);

    let mut lease_coordinator = new_coordinator(main_thread_id);
    lease_coordinator
        .request_participation_at(controller, grant(now, main_thread_id, 3), now)
        .expect("participation should grant initial lease");
    lease_coordinator.drain_notifications();
    lease_coordinator.expire_deadlines_at(now + LEASE_DURATION_MS + 1);
    let notifications = lease_coordinator.drain_notifications();
    assert_eq!(notifications.len(), 1);
    assert_control_notification(
        &notifications[0],
        controller,
        ControllerControlOwnershipChangedReason::LeaseExpired,
        None,
    );

    let mut auth_coordinator = new_coordinator(main_thread_id);
    auth_coordinator
        .request_participation_at(
            controller,
            grant_with_duration(now, main_thread_id, 4, 1_000),
            now,
        )
        .expect("participation should grant initial lease");
    auth_coordinator.drain_notifications();
    auth_coordinator.expire_deadlines_at(now + 1_001);
    let notifications = auth_coordinator.drain_notifications();
    assert_eq!(notifications.len(), 2);
    assert_control_notification(
        &notifications[0],
        controller,
        ControllerControlOwnershipChangedReason::AuthorizationRevoked,
        None,
    );
    assert_authorization_notification(
        &notifications[1],
        controller,
        ControllerAuthorizationChangedReason::Expired,
        None,
    );
}

#[test]
fn tui_unavailable_and_closed_are_terminal_states() {
    let now = 0;
    let main_thread_id = thread_id(1);
    let controller = connection_id(10);

    let mut unavailable = new_coordinator(main_thread_id);
    unavailable
        .request_participation_at(controller, grant(now, main_thread_id, 3), now)
        .expect("participation should grant initial lease");
    unavailable
        .mark_tui_unavailable()
        .expect("TUI unavailable should transition");
    assert_eq!(
        unavailable.interactive_owner(),
        &InteractiveOwner::TuiUnavailable { owner_epoch: 2 }
    );
    assert_eq!(
        unavailable.request_participation_at(connection_id(11), grant(now, main_thread_id, 4), now),
        Err(ControllerSessionError::TuiUnavailable)
    );
    assert_eq!(
        unavailable.release_control_at(controller, now),
        Err(ControllerSessionError::TuiUnavailable)
    );

    let mut closed = new_coordinator(main_thread_id);
    closed
        .request_participation_at(controller, grant(now, main_thread_id, 3), now)
        .expect("participation should grant initial lease");
    closed.close_main_thread();
    assert_eq!(closed.interactive_owner(), &InteractiveOwner::Closed);
    assert_eq!(closed.protocol_session_at(controller, now), None);
    assert_eq!(
        closed.request_participation_at(controller, grant(now, main_thread_id, 4), now),
        Err(ControllerSessionError::MainThreadClosed)
    );
}

#[test]
fn session_operations_follow_a_fixed_clock() {
    let main_thread_id = thread_id(1);
    let controller = connection_id(10);
    let mut coordinator = ControllerSessionCoordinator::new(
        main_thread_id,
        ControllerSessionClock::fixed(500),
        ControllerSessionConfig {
            lease_duration_ms: LEASE_DURATION_MS,
        },
    );
    assert_eq!(coordinator.now(), 500);
    let session = coordinator
        .request_participation(controller, grant(500, main_thread_id, 1))
        .expect("participation at the clock reading should succeed");
    assert_eq!(session.lease_expires_in_ms, Some(LEASE_DURATION_MS));
    assert_eq!(coordinator.require_active_owner(controller), Ok(main_thread_id));
}

#[test]
fn participation_for_another_main_thread_is_refused() {
    let now = 0;
    let mut coordinator = new_coordinator(thread_id(1));
    assert_eq!(
        coordinator.request_participation_at(connection_id(10), grant(now, thread_id(2), 1), now),
        Err(ControllerSessionError::DifferentMainThread)
    );
    assert_eq!(coordinator.protocol_session_at(connection_id(10), now), None);
}

#[test]
fn expired_grants_and_unknown_connections_are_refused() {
    let now = 10_000;
    let main_thread_id = thread_id(1);
    let mut coordinator = new_coordinator(main_thread_id);
    assert_eq!(
        coordinator.request_participation_at(
            connection_id(10),
            grant_with_duration(0, main_thread_id, 1, 10_000),
            now,
        ),
        Err(ControllerSessionError::AuthorizationExpired)
    );
    assert_eq!(
        coordinator.acquire_control_at(connection_id(12), now),
        Err(ControllerSessionError::ParticipationRequired)
    );
    assert_eq!(
        coordinator.require_standing_session_at(connection_id(12), now),
        Err(ControllerSessionError::ParticipationRequired)
    );
}

#[test]
fn reclaim_cancels_a_pending_transfer_so_it_cannot_complete() {
    let now = 0;
    let main_thread_id = thread_id(1);
    let controller = connection_id(10);
    let mut coordinator = new_coordinator(main_thread_id);
    coordinator
        .request_participation_at(controller, grant(now, main_thread_id, 1), now)
        .expect("participation should grant initial lease");
    coordinator
        .release_control_at(controller, now)
        .expect("release should succeed");
    let transfer = coordinator
        .begin_transfer_to_controller_at(controller, now)
        .expect("transfer should begin");
    assert_eq!(
        transfer,
        PendingControllerTransfer {
            connection_id: 10,
            owner_epoch: 3,
        }
    );
    coordinator.reclaim_for_tui_at(now).expect("reclaim should succeed");
    assert!(matches!(
        coordinator.interactive_owner(),
        InteractiveOwner::TuiOwned { .. }
    ));
    assert!(coordinator
        .complete_transfer_to_controller_at(transfer, now)
        .is_err());
}

#[test]
fn revoking_the_owner_returns_input_to_the_tui_and_notifies() {
    let now = 0;
    let main_thread_id = thread_id(1);
    let controller = connection_id(10);
    let mut coordinator = new_coordinator(main_thread_id);
    coordinator
        .request_participation_at(controller, grant(now, main_thread_id, 1), now)
        .expect("participation should grant initial lease");
    coordinator.drain_notifications();
    coordinator.revoke_session_at(controller, now);
    assert_eq!(
        coordinator.interactive_owner(),
        &InteractiveOwner::TuiOwned { owner_epoch: 2 }
    );
    assert_eq!(coordinator.protocol_session_at(controller, now), None);
    let notifications = coordinator.drain_notifications();
    assert_eq!(notifications.len(), 2);
    assert_control_notification(
        &notifications[0],
        controller,
        ControllerControlOwnershipChangedReason::AuthorizationRevoked,
        None,
    );
    assert_authorization_notification(
        &notifications[1],
        controller,
        ControllerAuthorizationChangedReason::Revoked,
        None,
    );

    let mut signed_off = new_coordinator(main_thread_id);
    signed_off
        .request_participation_at(controller, grant(now, main_thread_id, 1), now)
        .expect("participation should grant initial lease");
    signed_off.drain_notifications();
    signed_off.sign_off_session_at(controller, now);
    assert_eq!(signed_off.protocol_session_at(controller, now), None);
    assert_eq!(
        signed_off.interactive_owner(),
        &InteractiveOwner::TuiOwned { owner_epoch: 2 }
    );
}

#[test]
fn owner_epochs_only_grow_across_a_lifecycle() {
    let now = 0;
    let main_thread_id = thread_id(1);
    let controller = connection_id(10);
    let mut coordinator = new_coordinator(main_thread_id);
    let mut last = 0;
    let mut observe = |coordinator: &ControllerSessionCoordinator| {
        let epoch = match coordinator.interactive_owner() {
            InteractiveOwner::TuiOwned { owner_epoch }
            | InteractiveOwner::TransferPending { owner_epoch }
            | InteractiveOwner::ControllerOwned { owner_epoch, .. }
            | InteractiveOwner::TuiUnavailable { owner_epoch } => *owner_epoch,
            InteractiveOwner::Closed => u64::MAX,
        };
        assert!(epoch >= last);
        last = epoch;
    };
    coordinator
        .request_participation_at(controller, grant(now, main_thread_id, 1), now)
        .expect("participation");
    observe(&coordinator);
    coordinator.release_control_at(controller, now).expect("release");
    observe(&coordinator);
    coordinator.acquire_control_at(controller, now).expect("acquire");
    observe(&coordinator);
    coordinator.reclaim_for_tui_at(now).expect("reclaim");
    observe(&coordinator);
    coordinator.mark_tui_unavailable().expect("unavailable");
    observe(&coordinator);
}

fn new_coordinator(main_thread_id: ThreadId) -> ControllerSessionCoordinator {
    ControllerSessionCoordinator::new(
        main_thread_id,
        ControllerSessionClock::fixed(0),
        ControllerSessionConfig {
            lease_duration_ms: LEASE_DURATION_MS,
        },
    )
}

fn grant(now: u64, main_thread_id: ThreadId, authorization_epoch: u64) -> ControllerEnrollmentGrant {
    grant_with_duration(now, main_thread_id, authorization_epoch, AUTHORIZATION_DURATION_MS)
}

fn grant_with_duration(
    now: u64,
    main_thread_id: ThreadId,
    authorization_epoch: u64,
    authorization_duration_ms: u64,
) -> ControllerEnrollmentGrant {
    ControllerEnrollmentGrant {
        subject_id: format!("controller-subject-{authorization_epoch}"),
        main_thread_id,
        authorization_epoch,
        authorization_expires_at: now + authorization_duration_ms,
    }
}

fn assert_controller_owned(
    coordinator: &ControllerSessionCoordinator,
    connection_id: ConnectionId,
    lease: &ProtocolControllerLease,
    owner_epoch: u64,
) {
    assert_eq!(
        coordinator.interactive_owner(),
        &InteractiveOwner::ControllerOwned {
            connection_id,
            lease_id: lease.lease_id.clone(),
            owner_epoch,
        }
    );
}

fn assert_session_rights(
    session: &ProtocolControllerSession,
    active_owner_epoch: Option<u64>,
    can_acquire: bool,
    can_mutate: bool,
) {
    assert_eq!(
        session.active_lease.as_ref().map(|lease| lease.owner_epoch),
        active_owner_epoch
    );
    assert!(session.effective_capabilities.read_main_thread);
    assert!(session.effective_capabilities.subscribe_main_thread);
    assert_eq!(session.effective_capabilities.acquire_control, can_acquire);
    assert!(session.effective_capabilities.release_control);
    assert_eq!(session.effective_capabilities.mutate_main_thread, can_mutate);
    assert_eq!(session.effective_capabilities.answer_prompts, can_mutate);
}

fn active_lease(session: &ProtocolControllerSession) -> ProtocolControllerLease {
    session
        .active_lease
        .clone()
        .expect("session should include active lease")
}

fn assert_authorization_notification(
    notification: &ControllerSessionNotification,
    connection_id: ConnectionId,
    reason: ControllerAuthorizationChangedReason,
    expected_session_active_lease: Option<bool>,
) {
    let ControllerSessionNotification::AuthorizationChanged {
        connection_id: actual_connection_id,
        notification,
    } = notification
    else {
        panic!("expected authorization notification");
    };
    assert_eq!(*actual_connection_id, connection_id);
    assert_eq!(notification.reason, reason);
    assert_eq!(notification.main_thread_id, thread_id(1).to_string());
    assert_eq!(
        notification
            .session
            .as_ref()
            .map(|session| session.active_lease.is_some()),
        expected_session_active_lease
    );
}

fn assert_control_notification(
    notification: &ControllerSessionNotification,
    connection_id: ConnectionId,
    reason: ControllerControlOwnershipChangedReason,
    expected_active_lease: Option<ProtocolControllerLease>,
) {
    let ControllerSessionNotification::ControlOwnershipChanged {
        connection_id: actual_connection_id,
        notification,
    } = notification
    else {
        panic!("expected ownership notification");
    };
    assert_eq!(*actual_connection_id, connection_id);
    assert_eq!(notification.reason, reason);
    assert_eq!(notification.main_thread_id, thread_id(1).to_string());
    assert_eq!(notification.active_lease, expected_active_lease);
}

fn connection_id(id: u64) -> ConnectionId {
    ConnectionId(id)
}

fn thread_id(id: u64) -> ThreadId {
    ThreadId::from_string(&format!("00000000-0000-0000-0000-{id:012}"))
        .expect("test thread id should parse")
}

#[test]
fn each_owner_change_steps_the_ownership_epoch_by_one() {
    let now = 0;
    let main_thread_id = thread_id(1);
    let controller = connection_id(10);
    let mut coordinator = new_coordinator(main_thread_id);
    let epoch = |c: &ControllerSessionCoordinator| {
        c.ownership_status_snapshot(ControllerControlOwnershipChangedReason::Released)
            .owner_epoch
    };
    coordinator
        .request_participation_at(controller, grant(now, main_thread_id, 2), now)
        .expect("the first participant gets the initial lease");
    let owned = epoch(&coordinator);
    coordinator
        .release_control_at(controller, now)
        .expect("the owner releases input");
    assert_eq!(epoch(&coordinator), owned + 1);
    let transfer = coordinator
        .begin_transfer_to_controller_at(controller, now)
        .expect("the TUI owns input, so a transfer can begin");
    assert_eq!(transfer.owner_epoch, owned + 2);
    assert_eq!(epoch(&coordinator), owned + 2);
    coordinator
        .complete_transfer_to_controller_at(transfer, now)
        .expect("the pending transfer completes");
    assert_eq!(epoch(&coordinator), owned + 2);
    coordinator
        .release_control_at(controller, now)
        .expect("the owner releases input");
    assert_eq!(epoch(&coordinator), owned + 3);
    coordinator.mark_tui_unavailable().expect("the TUI goes away");
    assert_eq!(epoch(&coordinator), owned + 4);
}

fn coordinator_reading(main_thread_id: ThreadId, now_ms: u64) -> ControllerSessionCoordinator {
    ControllerSessionCoordinator::new(
        main_thread_id,
        ControllerSessionClock::fixed(now_ms),
        ControllerSessionConfig {
            lease_duration_ms: LEASE_DURATION_MS,
        },
    )
}

#[test]
fn expire_deadlines_expires_a_lease_at_the_clock_reading() {
    let main_thread_id = thread_id(1);
    let controller = connection_id(10);
    let later = LEASE_DURATION_MS + 1;
    let mut coordinator = coordinator_reading(main_thread_id, later);
    coordinator
        .request_participation_at(controller, grant(0, main_thread_id, 5), 0)
        .expect("participation should grant initial lease");
    coordinator.drain_notifications();

    coordinator.expire_deadlines();
    assert_eq!(
        coordinator.interactive_owner(),
        &InteractiveOwner::TuiOwned { owner_epoch: 2 }
    );
    let session = coordinator
        .protocol_session(controller)
        .expect("lease expiry should keep standing authorization");
    assert_session_rights(&session, None, true, false);
    assert_eq!(
        session.authorization_expires_in_ms,
        Some(AUTHORIZATION_DURATION_MS - LEASE_DURATION_MS - 1)
    );
    let notifications = coordinator.drain_notifications();
    assert_eq!(notifications.len(), 1);
    assert_control_notification(
        &notifications[0],
        controller,
        ControllerControlOwnershipChangedReason::LeaseExpired,
        None,
    );
}

#[test]
fn expire_deadlines_revokes_an_expired_grant_at_the_clock_reading() {
    let main_thread_id = thread_id(1);
    let controller = connection_id(10);
    let mut coordinator = coordinator_reading(main_thread_id, 1_001);
    coordinator
        .request_participation_at(controller, grant_with_duration(0, main_thread_id, 6, 1_000), 0)
        .expect("participation should grant initial lease");
    coordinator.drain_notifications();

    coordinator.expire_deadlines();
    assert_eq!(
        coordinator.interactive_owner(),
        &InteractiveOwner::TuiOwned { owner_epoch: 2 }
    );
    assert_eq!(coordinator.protocol_session(controller), None);
    let notifications = coordinator.drain_notifications();
    assert_eq!(notifications.len(), 2);
    assert_control_notification(
        &notifications[0],
        controller,
        ControllerControlOwnershipChangedReason::AuthorizationRevoked,
        None,
    );
    assert_authorization_notification(
        &notifications[1],
        controller,
        ControllerAuthorizationChangedReason::Expired,
        None,
    );
}

#[test]
fn reclaim_for_tui_reclaims_at_the_clock_reading() {
    let main_thread_id = thread_id(1);
    let controller = connection_id(10);
    let mut coordinator = coordinator_reading(main_thread_id, 0);
    coordinator
        .request_participation_at(controller, grant(0, main_thread_id, 3), 0)
        .expect("first controller should get the initial lease");
    coordinator
        .release_control_at(controller, 0)
        .expect("release should preserve standing session");
    coordinator
        .acquire_control_at(controller, 0)
        .expect("standing session should reacquire");
    coordinator.drain_notifications();

    coordinator.reclaim_for_tui().expect("the TUI reclaims input");
    assert_eq!(
        coordinator.interactive_owner(),
        &InteractiveOwner::TuiOwned { owner_epoch: 4 }
    );
    let session = coordinator
        .protocol_session(controller)
        .expect("reclaim should preserve standing session");
    assert_session_rights(&session, None, true, false);
    let notifications = coordinator.drain_notifications();
    assert_eq!(notifications.len(), 1);
    assert_control_notification(
        &notifications[0],
        controller,
        ControllerControlOwnershipChangedReason::ReclaimedByTui,
        None,
    );
}

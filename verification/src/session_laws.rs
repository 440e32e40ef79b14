//! Laws of the controller session coordinator, proved over its model.

use vstd::prelude::*;

use crate::protocol::{ControllerAuthorizationChangedReason, ControllerControlOwnershipChangedReason};
use crate::session_model::{
    epoch_for_notification,
    acquire_control, begin_transfer_to_controller, clear_active_lease, clear_all_active_leases,
    close_main_thread, complete_transfer_to_controller, expire_active_lease_at,
    expire_authorizations_at, expire_deadlines_at, has_session, issue_lease,
    lemma_unique_push, lemma_unique_remove, mark_tui_unavailable, owner_epoch_of,
    push_authorization_for_connection, push_control_for_all, push_ownership_status,
    push_revocation_notes, reclaim_for_tui, release_control, request_participation,
    require_active_owner_with_epoch, require_standing_session, return_to_tui, is_terminal, owned_by,
    session_of,
    revoke_all_sessions_for_tui_policy, revoke_expired, revoke_session_with_reason,
    session_gate, session_index, sessions_unique, transfer_to_tui_owned_after, upsert_session,
    CoordinatorModel, GrantModel, OwnerModel, PendingControllerTransfer, SessionModel,
};

verus! {

/// A session's stored lease, if any, is the one the owner records.
pub open spec fn lease_matches_owner(session: SessionModel, owner: OwnerModel) -> bool {
    match session.active_lease {
        None => true,
        Some(lease) => owner == OwnerModel::ControllerOwned {
            connection_id: session.connection_id,
            lease_id: lease.lease_id,
            owner_epoch: lease.owner_epoch,
        },
    }
}

/// The ownership invariant of the coordinator: sessions belong to distinct
/// connections, a stored lease is always the current owner's lease, a
/// controller owner always holds its lease in its session, and the recorded
/// last owner epoch is the owner's epoch.
pub open spec fn ownership_consistent(s: CoordinatorModel) -> bool {
    &&& sessions_unique(s.sessions)
    &&& forall|i: int|
        0 <= i < s.sessions.len() ==> lease_matches_owner(#[trigger] s.sessions[i], s.owner)
    &&& s.owner is ControllerOwned ==> exists|i: int|
        0 <= i < s.sessions.len() && (#[trigger] s.sessions[i]).active_lease is Some
    &&& match owner_epoch_of(s.owner) {
        Some(owner_epoch) => s.last_owner_epoch == owner_epoch,
        None => true,
    }
}

/// At most one session holds a lease, and it belongs to the controller that
/// owns input.
pub proof fn law_single_active_lease(s: CoordinatorModel, i: int, j: int)
    requires
        ownership_consistent(s),
        0 <= i < s.sessions.len(),
        0 <= j < s.sessions.len(),
        s.sessions[i].active_lease is Some,
        s.sessions[j].active_lease is Some,
    ensures
        i == j,
        s.owner is ControllerOwned,
        s.owner->ControllerOwned_connection_id == s.sessions[i].connection_id,
{
    assert(lease_matches_owner(s.sessions[i], s.owner));
    assert(lease_matches_owner(s.sessions[j], s.owner));
}

pub proof fn lemma_push_control_for_all_consistent(
    s: CoordinatorModel,
    reason: ControllerControlOwnershipChangedReason,
    now: u64,
)
    requires
        ownership_consistent(s),
    ensures
        ownership_consistent(push_control_for_all(s, reason, now)),
{
    let t = push_control_for_all(s, reason, now);
    assert(t.sessions == s.sessions);
    if s.owner is ControllerOwned {
        let i = choose|i: int| 0 <= i < s.sessions.len() && (#[trigger] s.sessions[i]).active_lease is Some;
        assert(t.sessions[i].active_lease is Some);
    }
}

pub proof fn lemma_return_to_tui_consistent(
    s: CoordinatorModel,
    connection_id: u64,
    owner_epoch: u64,
    reason: ControllerControlOwnershipChangedReason,
    now: u64,
)
    requires
        ownership_consistent(s),
        s.owner is ControllerOwned,
        s.owner->ControllerOwned_connection_id == connection_id,
        s.owner->ControllerOwned_owner_epoch == owner_epoch,
    ensures
        ownership_consistent(return_to_tui(s, connection_id, owner_epoch, reason, now)),
{
    let c = clear_active_lease(s, connection_id);
    let t = transfer_to_tui_owned_after(c, owner_epoch);
    assert forall|i: int| 0 <= i < t.sessions.len() implies lease_matches_owner(
        #[trigger] t.sessions[i],
        t.owner,
    ) by {
        assert(lease_matches_owner(s.sessions[i], s.owner));
        if has_session(s.sessions, connection_id) && i == session_index(s.sessions, connection_id) {
        } else {
            assert(t.sessions[i] == s.sessions[i]);
        }
    }
    lemma_push_control_for_all_consistent(t, reason, now);
}

pub proof fn lemma_expire_active_lease_consistent(s: CoordinatorModel, now: u64)
    requires
        ownership_consistent(s),
    ensures
        ownership_consistent(expire_active_lease_at(s, now)),
{
    match s.owner {
        OwnerModel::ControllerOwned { connection_id, owner_epoch, .. } => {
            lemma_return_to_tui_consistent(
                s,
                connection_id,
                owner_epoch,
                ControllerControlOwnershipChangedReason::LeaseExpired,
                now,
            );
        },
        _ => {},
    }
}

pub proof fn lemma_revoke_consistent(
    s: CoordinatorModel,
    connection_id: u64,
    authorization_reason: ControllerAuthorizationChangedReason,
    ownership_reason: ControllerControlOwnershipChangedReason,
    notify_revoked: bool,
    now: u64,
)
    requires
        ownership_consistent(s),
    ensures
        ownership_consistent(
            revoke_session_with_reason(
                s,
                connection_id,
                authorization_reason,
                ownership_reason,
                notify_revoked,
                now,
            ),
        ),
{
    if has_session(s.sessions, connection_id) {
        let k = session_index(s.sessions, connection_id);
        lemma_unique_remove(s.sessions, k);
        let removed = s.sessions.remove(k);
        let was_owner = s.owner is ControllerOwned && s.owner->ControllerOwned_connection_id
            == connection_id;
        assert forall|i: int| 0 <= i < removed.len() implies lease_matches_owner(
            #[trigger] removed[i],
            s.owner,
        ) by {
            let i2 = if i < k {
                i
            } else {
                i + 1
            };
            assert(removed[i] == s.sessions[i2]);
            assert(lease_matches_owner(s.sessions[i2], s.owner));
        }
        if was_owner {
            assert forall|i: int| 0 <= i < removed.len() implies (#[trigger] removed[i]).active_lease
                is None by {
                let i2 = if i < k {
                    i
                } else {
                    i + 1
                };
                assert(removed[i] == s.sessions[i2]);
                assert(lease_matches_owner(s.sessions[i2], s.owner));
            }
            let s1 = CoordinatorModel {
                sessions: removed,
                next_session_sequence: (s.next_session_sequence + 1) as u64,
                ..s
            };
            let t = transfer_to_tui_owned_after(s1, s.owner->ControllerOwned_owner_epoch);
            assert(ownership_consistent(t));
        } else if s.owner is ControllerOwned {
            let w = choose|i: int| 0 <= i < s.sessions.len() && (#[trigger] s.sessions[i]).active_lease is Some;
            assert(lease_matches_owner(s.sessions[w], s.owner));
            assert(w != k);
            let w2 = if w < k {
                w
            } else {
                w - 1
            };
            assert(removed[w2] == s.sessions[w]);
            assert(removed[w2].active_lease is Some);
        }
    }
}

pub proof fn lemma_revoke_expired_consistent(s: CoordinatorModel, connections: Seq<u64>, now: u64)
    requires
        ownership_consistent(s),
    ensures
        ownership_consistent(revoke_expired(s, connections, now)),
    decreases connections.len(),
{
    if connections.len() > 0 {
        lemma_revoke_expired_consistent(s, connections.drop_last(), now);
        lemma_revoke_consistent(
            revoke_expired(s, connections.drop_last(), now),
            connections.last(),
            ControllerAuthorizationChangedReason::Expired,
            ControllerControlOwnershipChangedReason::AuthorizationRevoked,
            true,
            now,
        );
    }
}


pub proof fn lemma_expire_deadlines_consistent(s: CoordinatorModel, now: u64)
    requires
        ownership_consistent(s),
    ensures
        ownership_consistent(expire_deadlines_at(s, now)),
{
    lemma_revoke_expired_consistent(s, crate::session_model::expired_connections(s.sessions, now), now);
    lemma_expire_active_lease_consistent(expire_authorizations_at(s, now), now);
}

pub proof fn lemma_session_gate_consistent(s: CoordinatorModel, connection_id: u64, now: u64)
    requires
        ownership_consistent(s),
    ensures
        ownership_consistent(session_gate(s, connection_id, now).0),
{
    lemma_expire_deadlines_consistent(s, now);
}

pub proof fn lemma_upsert_consistent(
    s: CoordinatorModel,
    connection_id: u64,
    grant: GrantModel,
    session_id: Seq<char>,
)
    requires
        ownership_consistent(s),
    ensures
        ownership_consistent(upsert_session(s, connection_id, grant, session_id)),
{
    let t = upsert_session(s, connection_id, grant, session_id);
    if has_session(s.sessions, connection_id) {
        let k = session_index(s.sessions, connection_id);
        assert forall|i: int| 0 <= i < t.sessions.len() implies lease_matches_owner(
            #[trigger] t.sessions[i],
            t.owner,
        ) by {
            assert(lease_matches_owner(s.sessions[i], s.owner));
        }
        assert(sessions_unique(t.sessions)) by {
            assert forall|a: int, b: int|
                0 <= a < t.sessions.len() && 0 <= b < t.sessions.len() && a != b implies t.sessions[a].connection_id
                    != t.sessions[b].connection_id by {
                assert(s.sessions[a].connection_id != s.sessions[b].connection_id);
            }
        }
        if s.owner is ControllerOwned {
            let w = choose|i: int| 0 <= i < s.sessions.len() && (#[trigger] s.sessions[i]).active_lease is Some;
            assert(t.sessions[w].active_lease is Some);
        }
    } else {
        let fresh = t.sessions.last();
        lemma_unique_push(s.sessions, fresh);
        assert forall|i: int| 0 <= i < t.sessions.len() implies lease_matches_owner(
            #[trigger] t.sessions[i],
            t.owner,
        ) by {
            if i < s.sessions.len() {
                assert(t.sessions[i] == s.sessions[i]);
                assert(lease_matches_owner(s.sessions[i], s.owner));
            }
        }
        if s.owner is ControllerOwned {
            let w = choose|i: int| 0 <= i < s.sessions.len() && (#[trigger] s.sessions[i]).active_lease is Some;
            assert(t.sessions[w] == s.sessions[w]);
            assert(t.sessions[w].active_lease is Some);
        }
    }
}

pub proof fn lemma_push_authorization_consistent(
    s: CoordinatorModel,
    connection_id: u64,
    reason: ControllerAuthorizationChangedReason,
    now: u64,
)
    requires
        ownership_consistent(s),
    ensures
        ownership_consistent(push_authorization_for_connection(s, connection_id, reason, now)),
{
    let t = push_authorization_for_connection(s, connection_id, reason, now);
    assert(t.sessions == s.sessions && t.owner == s.owner);
    if s.owner is ControllerOwned {
        let w = choose|i: int| 0 <= i < s.sessions.len() && (#[trigger] s.sessions[i]).active_lease is Some;
        assert(t.sessions[w].active_lease is Some);
    }
}

/// Without a controller owner, no session holds a lease.
pub proof fn lemma_no_lease_without_controller(s: CoordinatorModel, i: int)
    requires
        ownership_consistent(s),
        !(s.owner is ControllerOwned),
        0 <= i < s.sessions.len(),
    ensures
        s.sessions[i].active_lease is None,
{
    assert(lease_matches_owner(s.sessions[i], s.owner));
}

pub proof fn lemma_begin_transfer_consistent(s: CoordinatorModel, connection_id: u64, now: u64)
    requires
        ownership_consistent(s),
    ensures
        ownership_consistent(begin_transfer_to_controller(s, connection_id, now).0),
{
    lemma_session_gate_consistent(s, connection_id, now);
    let s1 = session_gate(s, connection_id, now).0;
    let t = begin_transfer_to_controller(s, connection_id, now).0;
    if s1.owner is TuiOwned {
        assert forall|i: int| 0 <= i < t.sessions.len() implies lease_matches_owner(
            #[trigger] t.sessions[i],
            t.owner,
        ) by {
            lemma_no_lease_without_controller(s1, i);
        }
    }
}

pub proof fn lemma_issue_lease_consistent(
    s: CoordinatorModel,
    connection_id: u64,
    owner_epoch: u64,
    now: u64,
    lease_id: Seq<char>,
)
    requires
        ownership_consistent(s),
        s.owner is TransferPending,
    ensures
        ownership_consistent(issue_lease(s, connection_id, owner_epoch, now, lease_id).0),
{
    let t = issue_lease(s, connection_id, owner_epoch, now, lease_id).0;
    if has_session(s.sessions, connection_id) {
        let k = session_index(s.sessions, connection_id);
        assert forall|i: int| 0 <= i < t.sessions.len() implies lease_matches_owner(
            #[trigger] t.sessions[i],
            t.owner,
        ) by {
            if i != k {
                lemma_no_lease_without_controller(s, i);
            }
        }
        assert(sessions_unique(t.sessions)) by {
            assert forall|a: int, b: int|
                0 <= a < t.sessions.len() && 0 <= b < t.sessions.len() && a != b implies t.sessions[a].connection_id
                    != t.sessions[b].connection_id by {
                assert(s.sessions[a].connection_id != s.sessions[b].connection_id);
            }
        }
        assert(t.sessions[k].active_lease is Some);
    }
}

pub proof fn lemma_complete_transfer_consistent(
    s: CoordinatorModel,
    transfer: PendingControllerTransfer,
    reason: Option<ControllerControlOwnershipChangedReason>,
    now: u64,
    lease_id: Seq<char>,
)
    requires
        ownership_consistent(s),
    ensures
        ownership_consistent(complete_transfer_to_controller(s, transfer, reason, now, lease_id).0),
{
    let s1 = match s.owner {
        OwnerModel::TransferPending { owner_epoch } => {
            if owner_epoch == transfer.owner_epoch {
                lemma_issue_lease_consistent(
                    s,
                    transfer.connection_id,
                    transfer.owner_epoch,
                    now,
                    lease_id,
                );
                issue_lease(s, transfer.connection_id, transfer.owner_epoch, now, lease_id).0
            } else {
                s
            }
        },
        _ => s,
    };
    if let Some(reason) = reason {
        lemma_push_control_for_all_consistent(s1, reason, now);
    }
}

pub proof fn lemma_request_participation_consistent(
    s: CoordinatorModel,
    connection_id: u64,
    grant: GrantModel,
    now: u64,
    session_id: Seq<char>,
    lease_id: Seq<char>,
)
    requires
        ownership_consistent(s),
    ensures
        ownership_consistent(
            request_participation(s, connection_id, grant, now, session_id, lease_id).0,
        ),
{
    lemma_expire_deadlines_consistent(s, now);
    let s1 = expire_deadlines_at(s, now);
    lemma_upsert_consistent(s1, connection_id, grant, session_id);
    let s2 = upsert_session(s1, connection_id, grant, session_id);
    lemma_push_authorization_consistent(
        s2,
        connection_id,
        ControllerAuthorizationChangedReason::Approved,
        now,
    );
    let s3 = push_authorization_for_connection(
        s2,
        connection_id,
        ControllerAuthorizationChangedReason::Approved,
        now,
    );
    lemma_begin_transfer_consistent(s3, connection_id, now);
    let (s4, transfer) = begin_transfer_to_controller(s3, connection_id, now);
    if let Ok(transfer) = transfer {
        lemma_complete_transfer_consistent(
            s4,
            transfer,
            Some(ControllerControlOwnershipChangedReason::InitialLeaseGranted),
            now,
            lease_id,
        );
    }
}

pub proof fn lemma_acquire_control_consistent(
    s: CoordinatorModel,
    connection_id: u64,
    now: u64,
    lease_id: Seq<char>,
)
    requires
        ownership_consistent(s),
    ensures
        ownership_consistent(acquire_control(s, connection_id, now, lease_id).0),
{
    lemma_session_gate_consistent(s, connection_id, now);
    let s1 = session_gate(s, connection_id, now).0;
    lemma_begin_transfer_consistent(s1, connection_id, now);
    let (s2, transfer) = begin_transfer_to_controller(s1, connection_id, now);
    if let Ok(transfer) = transfer {
        lemma_complete_transfer_consistent(
            s2,
            transfer,
            Some(ControllerControlOwnershipChangedReason::Acquired),
            now,
            lease_id,
        );
    }
}

pub proof fn lemma_release_control_consistent(s: CoordinatorModel, connection_id: u64, now: u64)
    requires
        ownership_consistent(s),
    ensures
        ownership_consistent(release_control(s, connection_id, now).0),
{
    lemma_session_gate_consistent(s, connection_id, now);
    let s1 = session_gate(s, connection_id, now).0;
    match s1.owner {
        OwnerModel::ControllerOwned { connection_id: owner, owner_epoch, .. } => {
            if owner == connection_id {
                lemma_return_to_tui_consistent(
                    s1,
                    connection_id,
                    owner_epoch,
                    ControllerControlOwnershipChangedReason::Released,
                    now,
                );
            }
        },
        _ => {},
    }
}

pub proof fn lemma_requirements_consistent(s: CoordinatorModel, connection_id: u64, now: u64)
    requires
        ownership_consistent(s),
    ensures
        ownership_consistent(require_standing_session(s, connection_id, now).0),
        ownership_consistent(require_active_owner_with_epoch(s, connection_id, now).0),
{
    lemma_session_gate_consistent(s, connection_id, now);
}

pub proof fn lemma_reclaim_consistent(s: CoordinatorModel, now: u64)
    requires
        ownership_consistent(s),
    ensures
        ownership_consistent(reclaim_for_tui(s, now).0),
{
    lemma_expire_active_lease_consistent(s, now);
    let s1 = expire_active_lease_at(s, now);
    match s1.owner {
        OwnerModel::ControllerOwned { connection_id, owner_epoch, .. } => {
            lemma_return_to_tui_consistent(
                s1,
                connection_id,
                owner_epoch,
                ControllerControlOwnershipChangedReason::ReclaimedByTui,
                now,
            );
        },
        OwnerModel::TransferPending { owner_epoch } => {
            let t = transfer_to_tui_owned_after(s1, owner_epoch);
            assert forall|i: int| 0 <= i < t.sessions.len() implies lease_matches_owner(
                #[trigger] t.sessions[i],
                t.owner,
            ) by {
                lemma_no_lease_without_controller(s1, i);
            }
        },
        _ => {},
    }
}

/// Notes pushed for sessions that have left the coordinator change nothing
/// but the notifications and, with renumbering, the next sequence number.
pub proof fn lemma_revocation_notes_frame(
    s: CoordinatorModel,
    revoked: Seq<SessionModel>,
    ownership_reason: ControllerControlOwnershipChangedReason,
    authorization_reason: ControllerAuthorizationChangedReason,
    renumber: bool,
)
    ensures
        ({
            let t = push_revocation_notes(
                s,
                revoked,
                ownership_reason,
                authorization_reason,
                renumber,
            );
            &&& t.sessions == s.sessions
            &&& t.owner == s.owner
            &&& t.last_owner_epoch == s.last_owner_epoch
            &&& t.main_thread_id == s.main_thread_id
            &&& t.ownership_statuses == s.ownership_statuses
        }),
    decreases revoked.len(),
{
    if revoked.len() > 0 {
        lemma_revocation_notes_frame(
            s,
            revoked.drop_last(),
            ownership_reason,
            authorization_reason,
            renumber,
        );
    }
}

pub proof fn lemma_terminal_operations_consistent(s: CoordinatorModel)
    requires
        ownership_consistent(s),
    ensures
        ownership_consistent(revoke_all_sessions_for_tui_policy(s)),
        ownership_consistent(mark_tui_unavailable(s).0),
        ownership_consistent(close_main_thread(s)),
{
    if s.sessions.len() > 0 {
        let s1 = CoordinatorModel { sessions: Seq::empty(), ..s };
        let s2 = match s1.owner {
            OwnerModel::ControllerOwned { owner_epoch, .. } => transfer_to_tui_owned_after(
                s1,
                owner_epoch,
            ),
            _ => s1,
        };
        lemma_revocation_notes_frame(
            s2,
            s.sessions,
            ControllerControlOwnershipChangedReason::AuthorizationRevoked,
            ControllerAuthorizationChangedReason::Revoked,
            true,
        );
    } else {
        assert(!(s.owner is ControllerOwned));
    }
    let m1 = clear_all_active_leases(s);
    let m2 = crate::session_model::set_owner(
        m1,
        OwnerModel::TuiUnavailable { owner_epoch: crate::session_model::next_owner_epoch(m1) },
    );
    lemma_revocation_notes_frame(
        CoordinatorModel { sessions: Seq::empty(), ..m2 },
        m2.sessions,
        ControllerControlOwnershipChangedReason::TuiUnavailable,
        ControllerAuthorizationChangedReason::TuiUnavailable,
        false,
    );
    let c2 = CoordinatorModel {
        last_owner_epoch: crate::session_model::next_owner_epoch(m1),
        owner: OwnerModel::Closed,
        ..m1
    };
    lemma_revocation_notes_frame(
        CoordinatorModel { sessions: Seq::empty(), ..c2 },
        c2.sessions,
        ControllerControlOwnershipChangedReason::MainThreadClosed,
        ControllerAuthorizationChangedReason::MainThreadClosed,
        false,
    );
}


// ---------------------------------------------------------------------------
// Who owns input after an operation.

/// Revoking a session leaves an owner that is not a controller as it was.
proof fn lemma_revoke_keeps_non_controller_owner(
    s: CoordinatorModel,
    connection_id: u64,
    authorization_reason: ControllerAuthorizationChangedReason,
    ownership_reason: ControllerControlOwnershipChangedReason,
    notify_revoked: bool,
    now: u64,
)
    requires
        !(s.owner is ControllerOwned),
    ensures
        revoke_session_with_reason(
            s,
            connection_id,
            authorization_reason,
            ownership_reason,
            notify_revoked,
            now,
        ).owner == s.owner,
{
}

proof fn lemma_revoke_expired_keeps_non_controller_owner(
    s: CoordinatorModel,
    connections: Seq<u64>,
    now: u64,
)
    requires
        !(s.owner is ControllerOwned),
    ensures
        revoke_expired(s, connections, now).owner == s.owner,
    decreases connections.len(),
{
    if connections.len() > 0 {
        lemma_revoke_expired_keeps_non_controller_owner(s, connections.drop_last(), now);
        lemma_revoke_keeps_non_controller_owner(
            revoke_expired(s, connections.drop_last(), now),
            connections.last(),
            ControllerAuthorizationChangedReason::Expired,
            ControllerControlOwnershipChangedReason::AuthorizationRevoked,
            true,
            now,
        );
    }
}

/// Deadlines never change an owner that is not a controller.
proof fn lemma_deadlines_keep_non_controller_owner(s: CoordinatorModel, now: u64)
    requires
        !(s.owner is ControllerOwned),
    ensures
        expire_deadlines_at(s, now).owner == s.owner,
{
    lemma_revoke_expired_keeps_non_controller_owner(
        s,
        crate::session_model::expired_connections(s.sessions, now),
        now,
    );
}

/// Once the TUI is unavailable or the main thread is closed, the coordinator
/// stays in that terminal state, and every request for participation,
/// ownership or a standing session is refused.
pub proof fn law_terminal_states_absorb(
    s: CoordinatorModel,
    connection_id: u64,
    grant: GrantModel,
    transfer: PendingControllerTransfer,
    now: u64,
    session_id: Seq<char>,
    lease_id: Seq<char>,
)
    requires
        is_terminal(s.owner),
    ensures
        request_participation(s, connection_id, grant, now, session_id, lease_id).0.owner
            == s.owner,
        request_participation(s, connection_id, grant, now, session_id, lease_id).1 is Err,
        acquire_control(s, connection_id, now, lease_id).0.owner == s.owner,
        acquire_control(s, connection_id, now, lease_id).1 is Err,
        begin_transfer_to_controller(s, connection_id, now).0.owner == s.owner,
        begin_transfer_to_controller(s, connection_id, now).1 is Err,
        complete_transfer_to_controller(s, transfer, None, now, lease_id).0.owner == s.owner,
        complete_transfer_to_controller(s, transfer, None, now, lease_id).1 is Err,
        release_control(s, connection_id, now).0.owner == s.owner,
        release_control(s, connection_id, now).1 is Err,
        require_standing_session(s, connection_id, now).0.owner == s.owner,
        require_standing_session(s, connection_id, now).1 is Err,
        require_active_owner_with_epoch(s, connection_id, now).0.owner == s.owner,
        require_active_owner_with_epoch(s, connection_id, now).1 is Err,
        reclaim_for_tui(s, now).0.owner == s.owner,
        reclaim_for_tui(s, now).1 is Err,
        expire_deadlines_at(s, now).owner == s.owner,
        revoke_session_with_reason(
            s,
            connection_id,
            ControllerAuthorizationChangedReason::Revoked,
            ControllerControlOwnershipChangedReason::AuthorizationRevoked,
            true,
            now,
        ).owner == s.owner,
        revoke_all_sessions_for_tui_policy(s).owner == s.owner,
        is_terminal(mark_tui_unavailable(s).0.owner),
        close_main_thread(s).owner is Closed,
{
    lemma_deadlines_keep_non_controller_owner(s, now);
    let s1 = expire_deadlines_at(s, now);
    lemma_deadlines_keep_non_controller_owner(s1, now);
    if s.sessions.len() > 0 {
        let t = CoordinatorModel { sessions: Seq::empty(), ..s };
        lemma_revocation_notes_frame(
            t,
            s.sessions,
            ControllerControlOwnershipChangedReason::AuthorizationRevoked,
            ControllerAuthorizationChangedReason::Revoked,
            true,
        );
    }
    let m1 = clear_all_active_leases(s);
    let m2 = crate::session_model::set_owner(
        m1,
        OwnerModel::TuiUnavailable { owner_epoch: crate::session_model::next_owner_epoch(m1) },
    );
    lemma_revocation_notes_frame(
        CoordinatorModel { sessions: Seq::empty(), ..m2 },
        m2.sessions,
        ControllerControlOwnershipChangedReason::TuiUnavailable,
        ControllerAuthorizationChangedReason::TuiUnavailable,
        false,
    );
    let c2 = CoordinatorModel {
        last_owner_epoch: crate::session_model::next_owner_epoch(m1),
        owner: OwnerModel::Closed,
        ..m1
    };
    lemma_revocation_notes_frame(
        CoordinatorModel { sessions: Seq::empty(), ..c2 },
        c2.sessions,
        ControllerControlOwnershipChangedReason::MainThreadClosed,
        ControllerAuthorizationChangedReason::MainThreadClosed,
        false,
    );
}

/// A controller that `require_active_owner_with_epoch` accepts is the one
/// that owns input, and the epoch it is given is the owner's epoch.
pub proof fn law_active_owner_check_names_the_owner(s: CoordinatorModel, connection_id: u64, now: u64)
    requires
        require_active_owner_with_epoch(s, connection_id, now).1 is Ok,
    ensures
        ({
            let (t, result) = require_active_owner_with_epoch(s, connection_id, now);
            &&& owned_by(t.owner, connection_id)
            &&& result->Ok_0.1 == t.owner->ControllerOwned_owner_epoch
            &&& result->Ok_0.0 == s.main_thread_id
        }),
{
    let s1 = session_gate(s, connection_id, now).0;
    lemma_gate_keeps_identity(s, connection_id, now);
    let session = session_of(s1.sessions, connection_id)->Some_0;
    assert(session.connection_id == connection_id);
}

/// The session gate keeps the coordinator's main thread.
proof fn lemma_gate_keeps_identity(s: CoordinatorModel, connection_id: u64, now: u64)
    ensures
        session_gate(s, connection_id, now).0.main_thread_id == s.main_thread_id,
        expire_deadlines_at(s, now).main_thread_id == s.main_thread_id,
{
    lemma_revoke_expired_keeps_main_thread(
        s,
        crate::session_model::expired_connections(s.sessions, now),
        now,
    );
}

proof fn lemma_revoke_expired_keeps_main_thread(s: CoordinatorModel, connections: Seq<u64>, now: u64)
    ensures
        revoke_expired(s, connections, now).main_thread_id == s.main_thread_id,
    decreases connections.len(),
{
    if connections.len() > 0 {
        lemma_revoke_expired_keeps_main_thread(s, connections.drop_last(), now);
    }
}

/// After the TUI reclaims input, no controller owns it and no transfer is
/// pending, so a transfer begun before the reclaim can no longer complete.
pub proof fn law_reclaim_returns_input_to_tui(
    s: CoordinatorModel,
    now: u64,
    transfer: PendingControllerTransfer,
    reason: Option<ControllerControlOwnershipChangedReason>,
    later: u64,
    lease_id: Seq<char>,
)
    requires
        reclaim_for_tui(s, now).1 is Ok,
    ensures
        reclaim_for_tui(s, now).0.owner is TuiOwned,
        complete_transfer_to_controller(reclaim_for_tui(s, now).0, transfer, reason, later, lease_id).1
            is Err,
{
}

/// A successful acquire leaves the caller owning input.
pub proof fn law_acquire_grants_ownership(
    s: CoordinatorModel,
    connection_id: u64,
    now: u64,
    lease_id: Seq<char>,
)
    requires
        acquire_control(s, connection_id, now, lease_id).1 is Ok,
    ensures
        owned_by(acquire_control(s, connection_id, now, lease_id).0.owner, connection_id),
{
}

/// A controller admitted while the TUI owns input is given input ownership
/// at once.
pub proof fn law_first_participant_gets_initial_lease(
    s: CoordinatorModel,
    connection_id: u64,
    grant: GrantModel,
    now: u64,
    session_id: Seq<char>,
    lease_id: Seq<char>,
)
    requires
        s.owner is TuiOwned,
        request_participation(s, connection_id, grant, now, session_id, lease_id).1 is Ok,
    ensures
        owned_by(
            request_participation(s, connection_id, grant, now, session_id, lease_id).0.owner,
            connection_id,
        ),
{
    lemma_deadlines_keep_non_controller_owner(s, now);
}


/// The operations that end sessions wholesale never move the owner epoch
/// backwards.
pub proof fn lemma_terminal_operations_epochs(s: CoordinatorModel)
    requires
        epoch_for_notification(s) < u64::MAX,
    ensures
        epoch_for_notification(s) <= epoch_for_notification(revoke_all_sessions_for_tui_policy(s)),
        epoch_for_notification(s) <= epoch_for_notification(mark_tui_unavailable(s).0),
        epoch_for_notification(s) <= epoch_for_notification(close_main_thread(s)),
{
    if s.sessions.len() > 0 {
        let s1 = CoordinatorModel { sessions: Seq::empty(), ..s };
        let s2 = match s1.owner {
            OwnerModel::ControllerOwned { owner_epoch, .. } => transfer_to_tui_owned_after(
                s1,
                owner_epoch,
            ),
            _ => s1,
        };
        lemma_revocation_notes_frame(
            s2,
            s.sessions,
            ControllerControlOwnershipChangedReason::AuthorizationRevoked,
            ControllerAuthorizationChangedReason::Revoked,
            true,
        );
    }
    let m1 = clear_all_active_leases(s);
    let m2 = crate::session_model::set_owner(
        m1,
        OwnerModel::TuiUnavailable { owner_epoch: crate::session_model::next_owner_epoch(m1) },
    );
    lemma_revocation_notes_frame(
        CoordinatorModel { sessions: Seq::empty(), ..m2 },
        m2.sessions,
        ControllerControlOwnershipChangedReason::TuiUnavailable,
        ControllerAuthorizationChangedReason::TuiUnavailable,
        false,
    );
    let c2 = CoordinatorModel {
        last_owner_epoch: crate::session_model::next_owner_epoch(m1),
        owner: OwnerModel::Closed,
        ..m1
    };
    lemma_revocation_notes_frame(
        CoordinatorModel { sessions: Seq::empty(), ..c2 },
        c2.sessions,
        ControllerControlOwnershipChangedReason::MainThreadClosed,
        ControllerAuthorizationChangedReason::MainThreadClosed,
        false,
    );
}


/// After a successful release the controller keeps its standing session but
/// no longer owns input.
pub proof fn law_release_keeps_standing_session(s: CoordinatorModel, connection_id: u64, now: u64)
    requires
        release_control(s, connection_id, now).1 is Ok,
    ensures
        session_of(release_control(s, connection_id, now).0.sessions, connection_id) is Some,
        !owned_by(release_control(s, connection_id, now).0.owner, connection_id),
{
}

/// Session identity that a reclaim by the TUI keeps: the controller, its
/// session id and its standing authorization.
pub open spec fn same_standing(a: SessionModel, b: SessionModel) -> bool {
    &&& a.session_id == b.session_id
    &&& a.connection_id == b.connection_id
    &&& a.authorization_epoch == b.authorization_epoch
    &&& a.authorization_expires_at == b.authorization_expires_at
}

/// The TUI reclaiming input takes away leases only: every standing session
/// stays, with its id and authorization.
pub proof fn law_reclaim_keeps_standing_sessions(s: CoordinatorModel, now: u64)
    ensures
        reclaim_for_tui(s, now).0.sessions.len() == s.sessions.len(),
        forall|i: int|
            0 <= i < s.sessions.len() ==> same_standing(
                #[trigger] reclaim_for_tui(s, now).0.sessions[i],
                s.sessions[i],
            ),
{
    let s1 = expire_active_lease_at(s, now);
    assert(s1.sessions.len() == s.sessions.len());
    assert forall|i: int| 0 <= i < s.sessions.len() implies same_standing(
        #[trigger] s1.sessions[i],
        s.sessions[i],
    ) by {}
    let t = reclaim_for_tui(s, now).0;
    assert forall|i: int| 0 <= i < s.sessions.len() implies same_standing(
        #[trigger] t.sessions[i],
        s.sessions[i],
    ) by {
        assert(same_standing(s1.sessions[i], s.sessions[i]));
    }
}

/// A controller that `require_standing_session` accepts holds a session on
/// this main thread whose authorization has not run out, and the
/// coordinator is not in a terminal state.
pub proof fn law_standing_session_check(s: CoordinatorModel, connection_id: u64, now: u64)
    requires
        require_standing_session(s, connection_id, now).1 is Ok,
    ensures
        ({
            let (t, result) = require_standing_session(s, connection_id, now);
            &&& session_of(t.sessions, connection_id) is Some
            &&& now < session_of(t.sessions, connection_id)->Some_0.authorization_expires_at
            &&& !is_terminal(t.owner)
            &&& result == Ok::<u128, crate::session_model::ControllerSessionError>(s.main_thread_id)
        }),
{
    lemma_gate_keeps_identity(s, connection_id, now);
}

/// Only the controller that owns input can release it: for any other
/// caller, release leaves the coordinator exactly as its deadline and
/// session checks left it, owner, lease and notifications included.
pub proof fn law_release_by_non_owner_changes_nothing(s: CoordinatorModel, connection_id: u64, now: u64)
    ensures
        ({
            let g = session_gate(s, connection_id, now).0;
            !(g.owner is ControllerOwned && g.owner->ControllerOwned_connection_id == connection_id)
                ==> release_control(s, connection_id, now).0 == g
        }),
{
}

} // verus!

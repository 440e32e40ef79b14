//! The notification history of the coordinator only grows: between drains,
//! no operation takes back or rewrites a notification it has recorded.

use vstd::prelude::*;

use crate::protocol::{ControllerAuthorizationChangedReason, ControllerControlOwnershipChangedReason};
use crate::session_model::{
    acquire_control, begin_transfer_to_controller, clear_active_lease, clear_all_active_leases,
    close_main_thread, complete_transfer_to_controller, expire_active_lease_at,
    expire_authorizations_at, expire_deadlines_at, expired_connections, issue_lease,
    mark_tui_unavailable, push_authorization_for_connection, push_control_for_all,
    push_ownership_status, push_revocation_notes, reclaim_for_tui, release_control,
    request_participation, require_active_owner_with_epoch, require_standing_session,
    return_to_tui, revoke_all_sessions_for_tui_policy, revoke_expired, revoke_session_with_reason,
    session_gate, transfer_to_tui_owned_after, upsert_session, CoordinatorModel, GrantModel,
    NotificationModel, OwnerModel, PendingControllerTransfer,
};

verus! {

/// `later` holds every notification of `earlier`, in order, and perhaps more
/// after them.
pub open spec fn extends(earlier: Seq<NotificationModel>, later: Seq<NotificationModel>) -> bool {
    earlier.len() <= later.len() && later.subrange(0, earlier.len() as int) == earlier
}

/// The history of `t` extends that of `s`.
pub open spec fn history_extends(s: CoordinatorModel, t: CoordinatorModel) -> bool {
    extends(s.notifications, t.notifications)
}

proof fn lemma_extends_refl(a: Seq<NotificationModel>)
    ensures
        extends(a, a),
{
    assert(a.subrange(0, a.len() as int) =~= a);
}

proof fn lemma_extends_trans(a: Seq<NotificationModel>, b: Seq<NotificationModel>, c: Seq<NotificationModel>)
    requires
        extends(a, b),
        extends(b, c),
    ensures
        extends(a, c),
{
    assert(c.subrange(0, a.len() as int) =~= c.subrange(0, b.len() as int).subrange(0, a.len() as int));
}

proof fn lemma_extends_append(a: Seq<NotificationModel>, tail: Seq<NotificationModel>)
    ensures
        extends(a, a + tail),
{
    assert((a + tail).subrange(0, a.len() as int) =~= a);
}

proof fn lemma_extends_push(a: Seq<NotificationModel>, n: NotificationModel)
    ensures
        extends(a, a.push(n)),
{
    assert(a.push(n).subrange(0, a.len() as int) =~= a);
}

proof fn lemma_push_control_extends(
    s: CoordinatorModel,
    reason: ControllerControlOwnershipChangedReason,
    now: u64,
)
    ensures
        history_extends(s, push_control_for_all(s, reason, now)),
{
    let s1 = push_ownership_status(s, reason);
    lemma_extends_append(
        s1.notifications,
        s.sessions.map_values(
            |session: crate::session_model::SessionModel|
                crate::session_model::control_note(s, session, reason, true, now),
        ),
    );
}

proof fn lemma_revocation_notes_extend(
    s: CoordinatorModel,
    revoked: Seq<crate::session_model::SessionModel>,
    ownership_reason: ControllerControlOwnershipChangedReason,
    authorization_reason: ControllerAuthorizationChangedReason,
    renumber: bool,
)
    ensures
        history_extends(
            s,
            push_revocation_notes(s, revoked, ownership_reason, authorization_reason, renumber),
        ),
    decreases revoked.len(),
{
    if revoked.len() == 0 {
        lemma_extends_refl(s.notifications);
    } else {
        let s0 = push_revocation_notes(
            s,
            revoked.drop_last(),
            ownership_reason,
            authorization_reason,
            renumber,
        );
        lemma_revocation_notes_extend(
            s,
            revoked.drop_last(),
            ownership_reason,
            authorization_reason,
            renumber,
        );
        let t = push_revocation_notes(s, revoked, ownership_reason, authorization_reason, renumber);
        let n0 = s0.notifications;
        let n1 = t.notifications;
        assert(n1.len() == n0.len() + 2);
        assert(n1.subrange(0, n0.len() as int) =~= n0);
        lemma_extends_trans(s.notifications, n0, n1);
    }
}

proof fn lemma_revoke_extends(
    s: CoordinatorModel,
    connection_id: u64,
    authorization_reason: ControllerAuthorizationChangedReason,
    ownership_reason: ControllerControlOwnershipChangedReason,
    notify_revoked: bool,
    now: u64,
)
    ensures
        history_extends(
            s,
            revoke_session_with_reason(
                s,
                connection_id,
                authorization_reason,
                ownership_reason,
                notify_revoked,
                now,
            ),
        ),
{
    let t = revoke_session_with_reason(
        s,
        connection_id,
        authorization_reason,
        ownership_reason,
        notify_revoked,
        now,
    );
    if !crate::session_model::has_session(s.sessions, connection_id) {
        lemma_extends_refl(s.notifications);
    } else {
        let i = crate::session_model::session_index(s.sessions, connection_id);
        let sequence = s.next_session_sequence;
        let revoked = crate::session_model::SessionModel { session_sequence: sequence, ..s.sessions[i] };
        let s1 = CoordinatorModel {
            sessions: s.sessions.remove(i),
            next_session_sequence: (sequence + 1) as u64,
            ..s
        };
        lemma_extends_refl(s1.notifications);
        let s2 = match s1.owner {
            OwnerModel::ControllerOwned { connection_id: owner, owner_epoch, .. } => {
                if owner == connection_id {
                    let t1 = transfer_to_tui_owned_after(s1, owner_epoch);
                    let t2 = if notify_revoked {
                        crate::session_model::push_note(
                            t1,
                            crate::session_model::control_note(t1, revoked, ownership_reason, false, now),
                        )
                    } else {
                        t1
                    };
                    if notify_revoked {
                        lemma_extends_push(
                            t1.notifications,
                            crate::session_model::control_note(t1, revoked, ownership_reason, false, now),
                        );
                    } else {
                        lemma_extends_refl(t1.notifications);
                    }
                    lemma_push_control_extends(t2, ownership_reason, now);
                    lemma_extends_trans(s.notifications, t2.notifications, push_control_for_all(t2, ownership_reason, now).notifications);
                    push_control_for_all(t2, ownership_reason, now)
                } else {
                    s1
                }
            },
            _ => s1,
        };
        assert(history_extends(s, s2));
        if notify_revoked {
            let note = crate::session_model::authorization_note(s2, revoked, authorization_reason, false, now);
            lemma_extends_push(s2.notifications, note);
            lemma_extends_trans(s.notifications, s2.notifications, s2.notifications.push(note));
        }
    }
}

proof fn lemma_revoke_expired_extends(s: CoordinatorModel, connections: Seq<u64>, now: u64)
    ensures
        history_extends(s, revoke_expired(s, connections, now)),
    decreases connections.len(),
{
    if connections.len() == 0 {
        lemma_extends_refl(s.notifications);
    } else {
        lemma_revoke_expired_extends(s, connections.drop_last(), now);
        let mid = revoke_expired(s, connections.drop_last(), now);
        lemma_revoke_extends(
            mid,
            connections.last(),
            ControllerAuthorizationChangedReason::Expired,
            ControllerControlOwnershipChangedReason::AuthorizationRevoked,
            true,
            now,
        );
        lemma_extends_trans(
            s.notifications,
            mid.notifications,
            revoke_expired(s, connections, now).notifications,
        );
    }
}

proof fn lemma_return_to_tui_extends(
    s: CoordinatorModel,
    connection_id: u64,
    owner_epoch: u64,
    reason: ControllerControlOwnershipChangedReason,
    now: u64,
)
    ensures
        history_extends(s, return_to_tui(s, connection_id, owner_epoch, reason, now)),
{
    let t = transfer_to_tui_owned_after(clear_active_lease(s, connection_id), owner_epoch);
    lemma_push_control_extends(t, reason, now);
}

proof fn lemma_deadlines_extend(s: CoordinatorModel, now: u64)
    ensures
        history_extends(s, expire_deadlines_at(s, now)),
{
    lemma_revoke_expired_extends(s, expired_connections(s.sessions, now), now);
    let a = expire_authorizations_at(s, now);
    match a.owner {
        OwnerModel::ControllerOwned { connection_id, owner_epoch, .. } => {
            lemma_return_to_tui_extends(
                a,
                connection_id,
                owner_epoch,
                ControllerControlOwnershipChangedReason::LeaseExpired,
                now,
            );
            lemma_extends_refl(a.notifications);
            lemma_extends_trans(
                s.notifications,
                a.notifications,
                expire_active_lease_at(a, now).notifications,
            );
        },
        _ => {},
    }
}

proof fn lemma_gate_extends(s: CoordinatorModel, connection_id: u64, now: u64)
    ensures
        history_extends(s, session_gate(s, connection_id, now).0),
{
    lemma_deadlines_extend(s, now);
}

proof fn lemma_begin_transfer_extends(s: CoordinatorModel, connection_id: u64, now: u64)
    ensures
        history_extends(s, begin_transfer_to_controller(s, connection_id, now).0),
{
    lemma_gate_extends(s, connection_id, now);
}

proof fn lemma_complete_transfer_extends(
    s: CoordinatorModel,
    transfer: PendingControllerTransfer,
    reason: Option<ControllerControlOwnershipChangedReason>,
    now: u64,
    lease_id: Seq<char>,
)
    ensures
        history_extends(s, complete_transfer_to_controller(s, transfer, reason, now, lease_id).0),
{
    lemma_extends_refl(s.notifications);
    let s1 = match s.owner {
        OwnerModel::TransferPending { owner_epoch } => {
            if owner_epoch == transfer.owner_epoch {
                issue_lease(s, transfer.connection_id, transfer.owner_epoch, now, lease_id).0
            } else {
                s
            }
        },
        _ => s,
    };
    assert(s1.notifications == s.notifications);
    if let Some(r) = reason {
        lemma_push_control_extends(s1, r, now);
    }
}

/// Between drains the notification history only grows: every operation of
/// the coordinator keeps the notifications already recorded, in order, and
/// may add more after them.
pub proof fn law_notification_history_only_grows(
    s: CoordinatorModel,
    connection_id: u64,
    grant: GrantModel,
    transfer: PendingControllerTransfer,
    now: u64,
    session_id: Seq<char>,
    lease_id: Seq<char>,
)
    ensures
        history_extends(s, request_participation(s, connection_id, grant, now, session_id, lease_id).0),
        history_extends(s, acquire_control(s, connection_id, now, lease_id).0),
        history_extends(s, begin_transfer_to_controller(s, connection_id, now).0),
        history_extends(s, complete_transfer_to_controller(s, transfer, None, now, lease_id).0),
        history_extends(s, release_control(s, connection_id, now).0),
        history_extends(s, require_standing_session(s, connection_id, now).0),
        history_extends(s, require_active_owner_with_epoch(s, connection_id, now).0),
        history_extends(s, reclaim_for_tui(s, now).0),
        history_extends(s, expire_deadlines_at(s, now)),
        history_extends(
            s,
            revoke_session_with_reason(
                s,
                connection_id,
                ControllerAuthorizationChangedReason::Revoked,
                ControllerControlOwnershipChangedReason::AuthorizationRevoked,
                true,
                now,
            ),
        ),
        history_extends(
            s,
            revoke_session_with_reason(
                s,
                connection_id,
                ControllerAuthorizationChangedReason::SignOff,
                ControllerControlOwnershipChangedReason::SignOff,
                false,
                now,
            ),
        ),
        history_extends(
            s,
            revoke_session_with_reason(
                s,
                connection_id,
                ControllerAuthorizationChangedReason::Disconnected,
                ControllerControlOwnershipChangedReason::ControllerDisconnected,
                false,
                now,
            ),
        ),
        history_extends(s, revoke_all_sessions_for_tui_policy(s)),
        history_extends(s, mark_tui_unavailable(s).0),
        history_extends(s, close_main_thread(s)),
{
    lemma_deadlines_extend(s, now);
    lemma_gate_extends(s, connection_id, now);
    lemma_complete_transfer_extends(s, transfer, None, now, lease_id);
    lemma_revoke_extends(
        s,
        connection_id,
        ControllerAuthorizationChangedReason::Revoked,
        ControllerControlOwnershipChangedReason::AuthorizationRevoked,
        true,
        now,
    );
    lemma_revoke_extends(
        s,
        connection_id,
        ControllerAuthorizationChangedReason::SignOff,
        ControllerControlOwnershipChangedReason::SignOff,
        false,
        now,
    );
    lemma_revoke_extends(
        s,
        connection_id,
        ControllerAuthorizationChangedReason::Disconnected,
        ControllerControlOwnershipChangedReason::ControllerDisconnected,
        false,
        now,
    );
    law_history_request_participation(s, connection_id, grant, now, session_id, lease_id);
    law_history_acquire(s, connection_id, now, lease_id);
    law_history_release(s, connection_id, now);
    law_history_reclaim(s, now);
    law_history_terminal(s);
}

proof fn law_history_request_participation(
    s: CoordinatorModel,
    connection_id: u64,
    grant: GrantModel,
    now: u64,
    session_id: Seq<char>,
    lease_id: Seq<char>,
)
    ensures
        history_extends(s, request_participation(s, connection_id, grant, now, session_id, lease_id).0),
{
    lemma_deadlines_extend(s, now);
    let s1 = expire_deadlines_at(s, now);
    let s2 = upsert_session(s1, connection_id, grant, session_id);
    assert(s2.notifications == s1.notifications);
    let s3 = push_authorization_for_connection(
        s2,
        connection_id,
        ControllerAuthorizationChangedReason::Approved,
        now,
    );
    match crate::session_model::session_of(s2.sessions, connection_id) {
        Some(session) => {
            lemma_extends_push(
                s2.notifications,
                crate::session_model::authorization_note(
                    s2,
                    session,
                    ControllerAuthorizationChangedReason::Approved,
                    true,
                    now,
                ),
            );
        },
        None => {
            lemma_extends_refl(s2.notifications);
        },
    }
    lemma_extends_trans(s.notifications, s1.notifications, s3.notifications);
    lemma_begin_transfer_extends(s3, connection_id, now);
    let (s4, transfer) = begin_transfer_to_controller(s3, connection_id, now);
    lemma_extends_trans(s.notifications, s3.notifications, s4.notifications);
    if let Ok(transfer) = transfer {
        lemma_complete_transfer_extends(
            s4,
            transfer,
            Some(ControllerControlOwnershipChangedReason::InitialLeaseGranted),
            now,
            lease_id,
        );
        lemma_extends_trans(
            s.notifications,
            s4.notifications,
            complete_transfer_to_controller(
                s4,
                transfer,
                Some(ControllerControlOwnershipChangedReason::InitialLeaseGranted),
                now,
                lease_id,
            ).0.notifications,
        );
    }
}

proof fn law_history_acquire(s: CoordinatorModel, connection_id: u64, now: u64, lease_id: Seq<char>)
    ensures
        history_extends(s, acquire_control(s, connection_id, now, lease_id).0),
{
    lemma_gate_extends(s, connection_id, now);
    let s1 = session_gate(s, connection_id, now).0;
    lemma_begin_transfer_extends(s1, connection_id, now);
    let (s2, transfer) = begin_transfer_to_controller(s1, connection_id, now);
    lemma_extends_trans(s.notifications, s1.notifications, s2.notifications);
    if let Ok(transfer) = transfer {
        lemma_complete_transfer_extends(
            s2,
            transfer,
            Some(ControllerControlOwnershipChangedReason::Acquired),
            now,
            lease_id,
        );
        lemma_extends_trans(
            s.notifications,
            s2.notifications,
            complete_transfer_to_controller(
                s2,
                transfer,
                Some(ControllerControlOwnershipChangedReason::Acquired),
                now,
                lease_id,
            ).0.notifications,
        );
    }
}

proof fn law_history_release(s: CoordinatorModel, connection_id: u64, now: u64)
    ensures
        history_extends(s, release_control(s, connection_id, now).0),
{
    lemma_gate_extends(s, connection_id, now);
    let s1 = session_gate(s, connection_id, now).0;
    match s1.owner {
        OwnerModel::ControllerOwned { connection_id: owner, owner_epoch, .. } => {
            if owner == connection_id {
                lemma_return_to_tui_extends(
                    s1,
                    connection_id,
                    owner_epoch,
                    ControllerControlOwnershipChangedReason::Released,
                    now,
                );
                lemma_extends_trans(
                    s.notifications,
                    s1.notifications,
                    return_to_tui(
                        s1,
                        connection_id,
                        owner_epoch,
                        ControllerControlOwnershipChangedReason::Released,
                        now,
                    ).notifications,
                );
            }
        },
        _ => {},
    }
}

proof fn law_history_reclaim(s: CoordinatorModel, now: u64)
    ensures
        history_extends(s, reclaim_for_tui(s, now).0),
{
    lemma_deadlines_extend(s, now);
    let a = expire_authorizations_at(s, now);
    lemma_revoke_expired_extends(s, expired_connections(s.sessions, now), now);
    let s1 = expire_active_lease_at(s, now);
    match s.owner {
        OwnerModel::ControllerOwned { connection_id, owner_epoch, .. } => {
            lemma_return_to_tui_extends(
                s,
                connection_id,
                owner_epoch,
                ControllerControlOwnershipChangedReason::LeaseExpired,
                now,
            );
        },
        _ => {},
    }
    lemma_extends_refl(s.notifications);
    match s1.owner {
        OwnerModel::ControllerOwned { connection_id, owner_epoch, .. } => {
            lemma_return_to_tui_extends(
                s1,
                connection_id,
                owner_epoch,
                ControllerControlOwnershipChangedReason::ReclaimedByTui,
                now,
            );
            lemma_extends_trans(
                s.notifications,
                s1.notifications,
                reclaim_for_tui(s, now).0.notifications,
            );
        },
        _ => {},
    }
}

proof fn law_history_terminal(s: CoordinatorModel)
    ensures
        history_extends(s, revoke_all_sessions_for_tui_policy(s)),
        history_extends(s, mark_tui_unavailable(s).0),
        history_extends(s, close_main_thread(s)),
{
    lemma_extends_refl(s.notifications);
    if s.sessions.len() > 0 {
        let s1 = CoordinatorModel { sessions: Seq::empty(), ..s };
        let s2 = match s1.owner {
            OwnerModel::ControllerOwned { owner_epoch, .. } => transfer_to_tui_owned_after(
                s1,
                owner_epoch,
            ),
            _ => s1,
        };
        lemma_revocation_notes_extend(
            s2,
            s.sessions,
            ControllerControlOwnershipChangedReason::AuthorizationRevoked,
            ControllerAuthorizationChangedReason::Revoked,
            true,
        );
    }
    let m1 = clear_all_active_leases(s);
    let m2 = crate::session_model::set_owner(
        m1,
        OwnerModel::TuiUnavailable { owner_epoch: crate::session_model::next_owner_epoch(m1) },
    );
    lemma_revocation_notes_extend(
        CoordinatorModel { sessions: Seq::empty(), ..m2 },
        m2.sessions,
        ControllerControlOwnershipChangedReason::TuiUnavailable,
        ControllerAuthorizationChangedReason::TuiUnavailable,
        false,
    );
    let c2 = CoordinatorModel {
        last_owner_epoch: crate::session_model::next_owner_epoch(m1),
        owner: OwnerModel::Closed,
        ..m1
    };
    lemma_revocation_notes_extend(
        CoordinatorModel { sessions: Seq::empty(), ..c2 },
        c2.sessions,
        ControllerControlOwnershipChangedReason::MainThreadClosed,
        ControllerAuthorizationChangedReason::MainThreadClosed,
        false,
    );
}

} // verus!

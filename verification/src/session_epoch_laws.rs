//! The ownership epoch counts changes of input owner: every change raises it
//! by exactly one, except completing a pending transfer, which hands input
//! to the controller under the epoch the transfer was begun with.

use vstd::prelude::*;

use crate::protocol::{ControllerAuthorizationChangedReason, ControllerControlOwnershipChangedReason};
use crate::session_laws::lemma_revocation_notes_frame;
use crate::session_model::{
    begin_transfer_to_controller, clear_all_active_leases, close_main_thread,
    complete_transfer_to_controller, epoch_for_notification, expire_active_lease_at,
    mark_tui_unavailable, next_owner_epoch, reclaim_for_tui, release_control, session_gate,
    set_owner, CoordinatorModel, OwnerModel, PendingControllerTransfer,
};

verus! {

/// Every change of input owner raises the ownership epoch by exactly one:
/// the TUI becoming unavailable, the main thread closing, a lease running
/// out, the TUI reclaiming input, a transfer beginning and a controller
/// releasing input. Completing a pending transfer keeps the epoch the
/// transfer was begun with. Epochs are measured on the state each change
/// starts from (after the deadline checks an operation makes first).
pub proof fn law_owner_changes_step_the_epoch(
    s: CoordinatorModel,
    connection_id: u64,
    transfer: PendingControllerTransfer,
    now: u64,
    lease_id: Seq<char>,
)
    requires
        epoch_for_notification(s) < u64::MAX,
    ensures
        !(s.owner is Closed) ==> epoch_for_notification(mark_tui_unavailable(s).0)
            == epoch_for_notification(s) + 1,
        epoch_for_notification(close_main_thread(s)) == epoch_for_notification(s) + 1,
        expire_active_lease_at(s, now).owner != s.owner ==> epoch_for_notification(
            expire_active_lease_at(s, now),
        ) == epoch_for_notification(s) + 1,
        ({
            let l = expire_active_lease_at(s, now);
            (l.owner is ControllerOwned || l.owner is TransferPending) ==> epoch_for_notification(
                reclaim_for_tui(s, now).0,
            ) == epoch_for_notification(l) + 1
        }),
        ({
            let g = session_gate(s, connection_id, now).0;
            let (t, r) = begin_transfer_to_controller(s, connection_id, now);
            (r is Ok && epoch_for_notification(g) < u64::MAX) ==> epoch_for_notification(t)
                == epoch_for_notification(g) + 1 && r->Ok_0.owner_epoch == epoch_for_notification(t)
        }),
        s.owner is TransferPending ==> epoch_for_notification(
            complete_transfer_to_controller(s, transfer, None, now, lease_id).0,
        ) == epoch_for_notification(s),
        ({
            let (g, gate) = session_gate(s, connection_id, now);
            let t = release_control(s, connection_id, now).0;
            (gate is Ok && g.owner is ControllerOwned && g.owner->ControllerOwned_connection_id
                == connection_id && epoch_for_notification(g) < u64::MAX)
                ==> epoch_for_notification(t) == epoch_for_notification(g) + 1
        }),
{
    let m1 = clear_all_active_leases(s);
    let m2 = set_owner(m1, OwnerModel::TuiUnavailable { owner_epoch: next_owner_epoch(m1) });
    lemma_revocation_notes_frame(
        CoordinatorModel { sessions: Seq::empty(), ..m2 },
        m2.sessions,
        ControllerControlOwnershipChangedReason::TuiUnavailable,
        ControllerAuthorizationChangedReason::TuiUnavailable,
        false,
    );
    let c2 = CoordinatorModel { last_owner_epoch: next_owner_epoch(m1), owner: OwnerModel::Closed, ..m1 };
    lemma_revocation_notes_frame(
        CoordinatorModel { sessions: Seq::empty(), ..c2 },
        c2.sessions,
        ControllerControlOwnershipChangedReason::MainThreadClosed,
        ControllerAuthorizationChangedReason::MainThreadClosed,
        false,
    );
}

} // verus!

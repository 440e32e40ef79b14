//! Laws of deadline expiry: expiring deadlines twice at the same clock
//! reading changes nothing more, and so releasing input twice at one reading
//! gives the same answer.

use vstd::prelude::*;

use crate::protocol::{ControllerAuthorizationChangedReason, ControllerControlOwnershipChangedReason};
use crate::session_model::{
    expire_active_lease_at, expire_authorizations_at, expire_deadlines_at, expired_connections,
    has_session, lemma_unique_remove, release_control, revoke_expired, revoke_session_with_reason,
    session_gate, session_index, sessions_unique, CoordinatorModel, OwnerModel, SessionModel,
};

verus! {

/// No session's standing authorization has run out at `now`.
pub open spec fn none_expired(sessions: Seq<SessionModel>, now: u64) -> bool {
    forall|i: int| 0 <= i < sessions.len() ==> now < (#[trigger] sessions[i]).authorization_expires_at
}

proof fn lemma_no_expired_connections(sessions: Seq<SessionModel>, now: u64)
    requires
        none_expired(sessions, now),
    ensures
        expired_connections(sessions, now) == Seq::<u64>::empty(),
    decreases sessions.len(),
{
    if sessions.len() > 0 {
        assert(sessions.last() == sessions[sessions.len() - 1]);
        lemma_no_expired_connections(sessions.drop_last(), now);
    }
}

/// Every session whose authorization has run out is listed by
/// `expired_connections`.
proof fn lemma_expired_connections_complete(sessions: Seq<SessionModel>, now: u64, i: int)
    requires
        0 <= i < sessions.len(),
        now >= sessions[i].authorization_expires_at,
    ensures
        expired_connections(sessions, now).contains(sessions[i].connection_id),
    decreases sessions.len(),
{
    let rest = expired_connections(sessions.drop_last(), now);
    if i == sessions.len() - 1 {
        assert(expired_connections(sessions, now) == rest.push(sessions.last().connection_id));
        assert(rest.push(sessions.last().connection_id)[rest.len() as int] == sessions[i].connection_id);
    } else {
        assert(sessions.drop_last()[i] == sessions[i]);
        lemma_expired_connections_complete(sessions.drop_last(), now, i);
        let k = choose|k: int| 0 <= k < rest.len() && rest[k] == sessions[i].connection_id;
        if now >= sessions.last().authorization_expires_at {
            assert(rest.push(sessions.last().connection_id)[k] == sessions[i].connection_id);
        }
    }
}

/// Revoking keeps a subset of the sessions, unchanged, without the revoked
/// connection.
proof fn lemma_revoke_keeps_other_sessions(
    s: CoordinatorModel,
    connection_id: u64,
    authorization_reason: ControllerAuthorizationChangedReason,
    ownership_reason: ControllerControlOwnershipChangedReason,
    notify_revoked: bool,
    now: u64,
)
    requires
        sessions_unique(s.sessions),
    ensures
        ({
            let t = revoke_session_with_reason(
                s,
                connection_id,
                authorization_reason,
                ownership_reason,
                notify_revoked,
                now,
            );
            &&& sessions_unique(t.sessions)
            &&& forall|j: int|
                0 <= j < t.sessions.len() ==> (#[trigger] t.sessions[j]).connection_id
                    != connection_id && s.sessions.contains(t.sessions[j])
        }),
{
    if has_session(s.sessions, connection_id) {
        let k = session_index(s.sessions, connection_id);
        lemma_unique_remove(s.sessions, k);
        let r = s.sessions.remove(k);
        assert forall|j: int| 0 <= j < r.len() implies (#[trigger] r[j]).connection_id
            != connection_id && s.sessions.contains(r[j]) by {
            let j2 = if j < k {
                j
            } else {
                j + 1
            };
            assert(r[j] == s.sessions[j2]);
        }
    }
}

proof fn lemma_revoke_expired_keeps_unlisted(s: CoordinatorModel, connections: Seq<u64>, now: u64)
    requires
        sessions_unique(s.sessions),
    ensures
        ({
            let t = revoke_expired(s, connections, now);
            &&& sessions_unique(t.sessions)
            &&& forall|j: int|
                0 <= j < t.sessions.len() ==> !connections.contains(
                    (#[trigger] t.sessions[j]).connection_id,
                ) && s.sessions.contains(t.sessions[j])
        }),
    decreases connections.len(),
{
    if connections.len() > 0 {
        let prefix = connections.drop_last();
        lemma_revoke_expired_keeps_unlisted(s, prefix, now);
        let mid = revoke_expired(s, prefix, now);
        lemma_revoke_keeps_other_sessions(
            mid,
            connections.last(),
            ControllerAuthorizationChangedReason::Expired,
            ControllerControlOwnershipChangedReason::AuthorizationRevoked,
            true,
            now,
        );
        let t = revoke_expired(s, connections, now);
        assert forall|j: int| 0 <= j < t.sessions.len() implies !connections.contains(
            (#[trigger] t.sessions[j]).connection_id,
        ) && s.sessions.contains(t.sessions[j]) by {
            let x = t.sessions[j];
            assert(mid.sessions.contains(x));
            let m = choose|m: int| 0 <= m < mid.sessions.len() && mid.sessions[m] == x;
            assert(!prefix.contains(mid.sessions[m].connection_id));
            if connections.contains(x.connection_id) {
                let c = choose|c: int| 0 <= c < connections.len() && connections[c] == x.connection_id;
                if c < prefix.len() {
                    assert(prefix[c] == x.connection_id);
                }
            }
        }
    }
}

/// After expiring authorizations at `now`, none is left that has run out.
proof fn lemma_expire_authorizations_leaves_none_expired(s: CoordinatorModel, now: u64)
    requires
        sessions_unique(s.sessions),
    ensures
        none_expired(expire_authorizations_at(s, now).sessions, now),
        sessions_unique(expire_authorizations_at(s, now).sessions),
{
    let connections = expired_connections(s.sessions, now);
    lemma_revoke_expired_keeps_unlisted(s, connections, now);
    let t = expire_authorizations_at(s, now);
    assert forall|j: int| 0 <= j < t.sessions.len() implies now < (
    #[trigger] t.sessions[j]).authorization_expires_at by {
        let x = t.sessions[j];
        let i = choose|i: int| 0 <= i < s.sessions.len() && s.sessions[i] == x;
        if now >= x.authorization_expires_at {
            lemma_expired_connections_complete(s.sessions, now, i);
        }
    }
}

/// Expiring deadlines twice at the same clock reading changes nothing the
/// first expiry did not.
pub proof fn law_deadline_expiry_is_idempotent(s: CoordinatorModel, now: u64)
    requires
        sessions_unique(s.sessions),
    ensures
        expire_deadlines_at(expire_deadlines_at(s, now), now) == expire_deadlines_at(s, now),
{
    lemma_expire_authorizations_leaves_none_expired(s, now);
    let a = expire_authorizations_at(s, now);
    let t = expire_active_lease_at(a, now);
    assert(t.sessions.len() == a.sessions.len());
    assert forall|j: int| 0 <= j < t.sessions.len() implies now < (
    #[trigger] t.sessions[j]).authorization_expires_at by {
        assert(t.sessions[j].authorization_expires_at == a.sessions[j].authorization_expires_at);
    }
    lemma_no_expired_connections(t.sessions, now);
    assert(expire_authorizations_at(t, now) == t);
}

/// Releasing input twice at one clock reading gives the same answer and
/// leaves the same state as releasing it once.
pub proof fn law_release_is_idempotent(s: CoordinatorModel, connection_id: u64, now: u64)
    requires
        sessions_unique(s.sessions),
        release_control(s, connection_id, now).1 is Ok,
    ensures
        release_control(release_control(s, connection_id, now).0, connection_id, now)
            == release_control(s, connection_id, now),
{
    law_deadline_expiry_is_idempotent(s, now);
    let s1 = session_gate(s, connection_id, now).0;
    lemma_expire_authorizations_leaves_none_expired(s, now);
    let a = expire_authorizations_at(s, now);
    assert(s1.sessions.len() == a.sessions.len());
    assert forall|j: int| 0 <= j < s1.sessions.len() implies now < (
    #[trigger] s1.sessions[j]).authorization_expires_at by {
        assert(s1.sessions[j].authorization_expires_at == a.sessions[j].authorization_expires_at);
    }
    let t = release_control(s, connection_id, now).0;
    assert(t.sessions.len() == s1.sessions.len());
    assert forall|j: int| 0 <= j < t.sessions.len() implies now < (
    #[trigger] t.sessions[j]).authorization_expires_at by {
        assert(t.sessions[j].authorization_expires_at == s1.sessions[j].authorization_expires_at);
    }
    lemma_no_expired_connections(t.sessions, now);
    assert(expire_authorizations_at(t, now) == t);
    assert(!(t.owner is ControllerOwned) || t.owner->ControllerOwned_connection_id != connection_id);
    assert(expire_deadlines_at(t, now) == t);
}

} // verus!

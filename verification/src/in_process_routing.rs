//! Routing decisions of the in-process runtime loop.
//!
//! Command submission never blocks: a request whose id is already pending is
//! refused, a request the processor queue cannot take is failed with an
//! overload error, and a closed queue fails the request and stops the loop.
//! Server requests are never silently abandoned: one that cannot be queued
//! for the client is failed back with an overload or internal error.
//! The runtime performs each send and hands the outcome to these steps.

use vstd::prelude::*;
use vstd::string::StringExecFns;

use crate::text::same_text;

verus! {

/// A JSON-RPC request id.
#[derive(Debug, PartialEq, Eq)]
pub enum RequestKey {
    Text(String),
    Integer(i64),
}

pub enum RequestKeyModel {
    Text(Seq<char>),
    Integer(i64),
}

impl View for RequestKey {
    type V = RequestKeyModel;

    open spec fn view(&self) -> RequestKeyModel {
        match self {
            RequestKey::Text(text) => RequestKeyModel::Text(text@),
            RequestKey::Integer(n) => RequestKeyModel::Integer(*n),
        }
    }
}

/// Whether two request ids are the same id.
pub fn same_request_key(a: &RequestKey, b: &RequestKey) -> (same: bool)
    ensures
        same == (a@ == b@),
{
    match (a, b) {
        (RequestKey::Text(x), RequestKey::Text(y)) => same_text(x.as_str(), y.as_str()),
        (RequestKey::Integer(x), RequestKey::Integer(y)) => *x == *y,
        _ => false,
    }
}

/// The ids of client requests that wait for their response.
pub struct PendingRequestIds {
    ids: Vec<RequestKey>,
}

impl View for PendingRequestIds {
    type V = Set<RequestKeyModel>;

    closed spec fn view(&self) -> Set<RequestKeyModel> {
        Set::new(|k: RequestKeyModel| exists|i: int| 0 <= i < self.ids@.len() && #[trigger] self.ids@[i]@ == k)
    }
}

spec fn kept_view(ids: Seq<RequestKey>, k: RequestKeyModel) -> bool {
    exists|i: int| 0 <= i < ids.len() && #[trigger] ids[i]@ == k
}

spec fn has_key_from(ids: Seq<RequestKey>, lo: int, k: RequestKeyModel) -> bool {
    exists|j: int| lo <= j < ids.len() && #[trigger] ids[j]@ == k
}

impl PendingRequestIds {
    /// No request pending.
    pub fn new() -> (pending: PendingRequestIds)
        ensures
            pending@ == Set::<RequestKeyModel>::empty(),
    {
        let pending = PendingRequestIds { ids: Vec::new() };
        proof {
            assert(pending@ =~= Set::<RequestKeyModel>::empty());
        }
        pending
    }

    /// Whether `id` is pending.
    pub fn contains(&self, id: &RequestKey) -> (pending: bool)
        ensures
            pending == self@.contains(id@),
    {
        let mut i: usize = 0;
        while i < self.ids.len()
            invariant
                i <= self.ids@.len(),
                forall|j: int| 0 <= j < i ==> self.ids@[j]@ != id@,
            decreases self.ids@.len() - i,
        {
            if same_request_key(&self.ids[i], id) {
                assert(self.ids@[i as int]@ == id@);
                return true;
            }
            i = i + 1;
        }
        false
    }

    /// Adds `id` to the pending ids.
    pub fn insert(&mut self, id: RequestKey)
        ensures
            final(self)@ == old(self)@.insert(id@),
    {
        let ghost before = self.ids@;
        self.ids.push(id);
        proof {
            assert forall|k: RequestKeyModel| self@.contains(k) == old(self)@.insert(id@).contains(k) by {
                if old(self)@.contains(k) {
                    let i = choose|i: int| 0 <= i < before.len() && #[trigger] before[i]@ == k;
                    assert(self.ids@[i]@ == k);
                }
                if k == id@ {
                    assert(self.ids@[before.len() as int]@ == k);
                }
                if self@.contains(k) {
                    let i = choose|i: int| 0 <= i < self.ids@.len() && #[trigger] self.ids@[i]@ == k;
                    if i < before.len() {
                        assert(before[i]@ == k);
                    }
                }
            }
            assert(self@ =~= old(self)@.insert(id@));
        }
    }

    /// Removes `id` from the pending ids; whether it was pending.
    pub fn remove(&mut self, id: &RequestKey) -> (was_pending: bool)
        ensures
            was_pending == old(self)@.contains(id@),
            final(self)@ == old(self)@.remove(id@),
    {
        let ghost before = self.ids@;
        let mut rest: Vec<RequestKey> = Vec::new();
        std::mem::swap(&mut rest, &mut self.ids);
        let mut kept: Vec<RequestKey> = Vec::new();
        let mut found = false;
        while rest.len() > 0
            invariant
                rest@.len() <= before.len(),
                rest@ == before.subrange(0, rest@.len() as int),
                found == has_key_from(before, rest@.len() as int, id@),
                forall|k: RequestKeyModel|
                    #[trigger] kept_view(kept@, k) == (k != id@ && has_key_from(
                        before,
                        rest@.len() as int,
                        k,
                    )),
            decreases rest@.len(),
        {
            let ghost kept_before = kept@;
            let ghost n = rest@.len() - 1;
            let ghost rest_before = rest@;
            assert(rest_before[n] == before[n]);
            let item = rest.pop().unwrap();
            assert(item == before[n]);
            assert(rest@ =~= before.subrange(0, rest@.len() as int));
            if same_request_key(&item, id) {
                found = true;
            } else {
                kept.push(item);
            }
            assert forall|k: RequestKeyModel|
                #[trigger] has_key_from(before, n, k) == (before[n]@ == k || has_key_from(
                    before,
                    n + 1,
                    k,
                )) by {
                if has_key_from(before, n, k) {
                    let j = choose|j: int| n <= j < before.len() && #[trigger] before[j]@ == k;
                    if j != n {
                        assert(before[j]@ == k);
                    }
                }
                if has_key_from(before, n + 1, k) {
                    let j = choose|j: int| n + 1 <= j < before.len() && #[trigger] before[j]@ == k;
                    assert(before[j]@ == k);
                }
                if before[n]@ == k {
                    assert(before[n]@ == k);
                }
            }
            assert forall|k: RequestKeyModel|
                #[trigger] kept_view(kept@, k) == (k != id@ && has_key_from(before, n, k)) by {
                assert(has_key_from(before, n, k) == (before[n]@ == k || has_key_from(before, n + 1, k)));
                assert(kept_view(kept_before, k) == (k != id@ && has_key_from(before, n + 1, k)));
                if kept_view(kept@, k) {
                    let j = choose|j: int| 0 <= j < kept@.len() && #[trigger] kept@[j]@ == k;
                    if j < kept_before.len() {
                        assert(kept_before[j]@ == k);
                    }
                }
                if kept_view(kept_before, k) {
                    let j = choose|j: int| 0 <= j < kept_before.len() && #[trigger] kept_before[j]@ == k;
                    assert(kept@[j]@ == k);
                }
                if k != id@ && before[n]@ == k {
                    assert(kept@[kept@.len() - 1]@ == k);
                }
            }
            assert(found == has_key_from(before, n, id@));
        }
        proof {
            assert forall|k: RequestKeyModel|
                #[trigger] old(self)@.contains(k) == has_key_from(before, 0, k) by {
                if old(self)@.contains(k) {
                    let j = choose|j: int| 0 <= j < before.len() && #[trigger] before[j]@ == k;
                    assert(before[j]@ == k);
                }
                if has_key_from(before, 0, k) {
                    let j = choose|j: int| 0 <= j < before.len() && #[trigger] before[j]@ == k;
                    assert(before[j]@ == k);
                }
            }
            assert forall|k: RequestKeyModel|
                #[trigger] kept_view(kept@, k) == old(self)@.remove(id@).contains(k) by {
                assert(old(self)@.contains(k) == has_key_from(before, 0, k));
            }
            assert(found == old(self)@.contains(id@)) by {
                assert(old(self)@.contains(id@) == has_key_from(before, 0, id@));
            }
        }
        self.ids = kept;
        proof {
            assert forall|k: RequestKeyModel| #[trigger] self@.contains(k) == kept_view(self.ids@, k) by {
                if self@.contains(k) {
                    let j = choose|j: int| 0 <= j < self.ids@.len() && #[trigger] self.ids@[j]@ == k;
                    assert(self.ids@[j]@ == k);
                }
            }
            assert(self@ =~= old(self)@.remove(id@));
        }
        found
    }
}

/// What became of an offer to a bounded queue.
#[derive(Clone, Copy, Debug, PartialEq, Eq, Structural)]
pub enum QueueSendOutcome {
    Sent,
    Full,
    Closed,
}

/// What the runtime does with a client request.
#[derive(Debug, PartialEq, Eq)]
pub enum ClientRequestAction {
    /// Answer the request with an invalid-request error: its id is pending.
    RejectDuplicate,
    /// The processor took the request; its response is awaited.
    Forward,
    /// Answer the request with an overload error carrying `message`.
    FailOverloaded { message: String },
    /// Answer the request with an internal error carrying `message`, and stop.
    FailClosedAndStop { message: String },
}

pub open spec fn request_queue_full_message() -> Seq<char> {
    "in-process app-server request queue is full"@
}

pub open spec fn request_processor_closed_message() -> Seq<char> {
    "in-process app-server request processor is closed"@
}

/// Routes a client request with id `request_id`, given what became of
/// offering it to the processor queue (the runtime makes that offer only for
/// an id that is not pending). Only a forwarded request stays pending.
pub fn route_client_request(pending: &mut PendingRequestIds, request_id: RequestKey, queue: QueueSendOutcome) -> (action:
    ClientRequestAction)
    ensures
        old(pending)@.contains(request_id@) ==> action is RejectDuplicate && final(pending)@ == old(
            pending,
        )@,
        !old(pending)@.contains(request_id@) ==> match queue {
            QueueSendOutcome::Sent => action is Forward && final(pending)@ == old(pending)@.insert(
                request_id@,
            ),
            QueueSendOutcome::Full => action matches ClientRequestAction::FailOverloaded { message }
                && message@ == request_queue_full_message() && final(pending)@ == old(pending)@,
            QueueSendOutcome::Closed => action matches ClientRequestAction::FailClosedAndStop {
                message,
            } && message@ == request_processor_closed_message() && final(pending)@ == old(
                pending,
            )@,
        },
{
    if pending.contains(&request_id) {
        return ClientRequestAction::RejectDuplicate;
    }
    proof {
        reveal_strlit("in-process app-server request queue is full");
        reveal_strlit("in-process app-server request processor is closed");
    }
    match queue {
        QueueSendOutcome::Sent => {
            pending.insert(request_id);
            ClientRequestAction::Forward
        },
        QueueSendOutcome::Full => ClientRequestAction::FailOverloaded {
            message: String::from_str("in-process app-server request queue is full"),
        },
        QueueSendOutcome::Closed => ClientRequestAction::FailClosedAndStop {
            message: String::from_str("in-process app-server request processor is closed"),
        },
    }
}

/// Settles the response (or error) to client request `request_id`: it is
/// delivered when the request is pending, which it then no longer is, and
/// dropped as unmatched otherwise.
pub fn settle_client_response(pending: &mut PendingRequestIds, request_id: &RequestKey) -> (deliver: bool)
    ensures
        deliver == old(pending)@.contains(request_id@),
        final(pending)@ == old(pending)@.remove(request_id@),
{
    pending.remove(request_id)
}

/// What the runtime does with a notification after offering it to a queue.
#[derive(Clone, Copy, Debug, PartialEq, Eq, Structural)]
pub enum NotificationAction {
    Delivered,
    Dropped,
    Stop,
}

/// A client notification offered to the processor queue: dropped when the
/// queue is full, and the loop stops when the queue is closed.
pub fn route_client_notification(queue: QueueSendOutcome) -> (action: NotificationAction)
    ensures
        action == match queue {
            QueueSendOutcome::Sent => NotificationAction::Delivered,
            QueueSendOutcome::Full => NotificationAction::Dropped,
            QueueSendOutcome::Closed => NotificationAction::Stop,
        },
{
    match queue {
        QueueSendOutcome::Sent => NotificationAction::Delivered,
        QueueSendOutcome::Full => NotificationAction::Dropped,
        QueueSendOutcome::Closed => NotificationAction::Stop,
    }
}

/// A server notification sent to the client: one that requires delivery is
/// sent by waiting for room, so only a closed consumer stops it, and the
/// loop then stops; any other is offered and dropped when the queue is full.
pub fn route_server_notification(requires_delivery: bool, queue: QueueSendOutcome) -> (action:
    NotificationAction)
    ensures
        action == (if queue == QueueSendOutcome::Sent {
            NotificationAction::Delivered
        } else if requires_delivery || queue == QueueSendOutcome::Closed {
            NotificationAction::Stop
        } else {
            NotificationAction::Dropped
        }),
{
    match queue {
        QueueSendOutcome::Sent => NotificationAction::Delivered,
        QueueSendOutcome::Full => if requires_delivery {
            NotificationAction::Stop
        } else {
            NotificationAction::Dropped
        },
        QueueSendOutcome::Closed => NotificationAction::Stop,
    }
}

/// The kind of error a server request is failed back with.
#[derive(Clone, Copy, Debug, PartialEq, Eq, Structural)]
pub enum InProcessErrorKind {
    Overloaded,
    Internal,
}

/// The error a server request is failed back with when it cannot be queued
/// for the client.
#[derive(Debug, PartialEq, Eq)]
pub struct InProcessRequestFailure {
    pub kind: InProcessErrorKind,
    pub message: String,
}

pub open spec fn server_request_queue_full_message() -> Seq<char> {
    "in-process server request queue is full"@
}

pub open spec fn server_request_consumer_closed_message() -> Seq<char> {
    "in-process server request consumer is closed"@
}

/// A server request offered to the client queue is never silently dropped:
/// when it cannot be queued it is failed back, with an overload error for a
/// full queue and an internal error for a closed one.
pub fn server_request_failure(queue: QueueSendOutcome) -> (failure: Option<InProcessRequestFailure>)
    ensures
        match queue {
            QueueSendOutcome::Sent => failure is None,
            QueueSendOutcome::Full => failure matches Some(f) && f.kind == InProcessErrorKind::Overloaded
                && f.message@ == server_request_queue_full_message(),
            QueueSendOutcome::Closed => failure matches Some(f) && f.kind
                == InProcessErrorKind::Internal && f.message@
                == server_request_consumer_closed_message(),
        },
{
    proof {
        reveal_strlit("in-process server request queue is full");
        reveal_strlit("in-process server request consumer is closed");
    }
    match queue {
        QueueSendOutcome::Sent => None,
        QueueSendOutcome::Full => Some(
            InProcessRequestFailure {
                kind: InProcessErrorKind::Overloaded,
                message: String::from_str("in-process server request queue is full"),
            },
        ),
        QueueSendOutcome::Closed => Some(
            InProcessRequestFailure {
                kind: InProcessErrorKind::Internal,
                message: String::from_str("in-process server request consumer is closed"),
            },
        ),
    }
}

} // verus!

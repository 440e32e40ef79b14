//! Connection-bound continuation cursors for external controllers.
//!
//! Cursors a controller receives in responses are bound to its connection,
//! its authorized main thread and the request kind they continue; cursors it
//! presents in requests are unbound only when all three match.

use vstd::prelude::*;

use crate::cursor_codec::{bound_cursor_text, decode_bound_cursor, encode_bound_cursor};
use crate::ids::ConnectionId;
use crate::protocol::{ControllerErrorCode, ControllerRetryDisposition};
use vstd::string::StringExecFns;

verus! {

/// The request kind a cursor continues.
pub open spec fn purpose_thread_list() -> Seq<char> {
    "thread/list"@
}

pub open spec fn purpose_thread_search() -> Seq<char> {
    "thread/search"@
}

pub open spec fn purpose_thread_loaded_list() -> Seq<char> {
    "thread/loaded/list"@
}

pub open spec fn purpose_thread_section_list() -> Seq<char> {
    "threadSection/list"@
}

pub open spec fn purpose_thread_turns() -> Seq<char> {
    "thread/turns/list"@
}

pub open spec fn purpose_thread_items() -> Seq<char> {
    "thread/items/list"@
}

pub open spec fn purpose_thread_search_occurrences() -> Seq<char> {
    "thread/searchOccurrences"@
}

pub open spec fn purpose_thread_background_terminals() -> Seq<char> {
    "thread/backgroundTerminals/list"@
}

/// What a controller connection is authorized for on the normal interface.
pub struct ControllerNormalAuthorization {
    pub main_thread_id: String,
    pub filter_collection_to_main_thread: bool,
}

/// Refusal of a cursor that is not bound to this connection, main thread and
/// request kind.
#[derive(Clone, Copy, Debug, PartialEq, Eq, Structural)]
pub enum ControllerCursorError {
    InvalidCursor,
}

impl ControllerCursorError {
    /// The controller error code of the refusal.
    pub fn code(&self) -> (code: ControllerErrorCode)
        ensures
            code == ControllerErrorCode::ControllerNotAllowed,
    {
        ControllerErrorCode::ControllerNotAllowed
    }

    /// Whether the controller may retry.
    pub fn retry(&self) -> (retry: ControllerRetryDisposition)
        ensures
            retry == ControllerRetryDisposition::DoNotRetry,
    {
        ControllerRetryDisposition::DoNotRetry
    }

    /// The message of the refusal.
    pub fn message(&self) -> (message: String)
        ensures
            message@ == "external controller cursor is not valid for this connection and thread"@,
    {
        String::from_str("external controller cursor is not valid for this connection and thread")
    }
}

/// The kind of a client request, as far as its cursor is concerned.
#[derive(Clone, Copy, Debug, PartialEq, Eq, Structural)]
pub enum ControllerCursorRequestKind {
    ThreadList,
    ThreadSearch,
    ThreadLoadedList,
    ThreadSectionList,
    ThreadBackgroundTerminalsList,
    ThreadSearchOccurrences,
    ThreadTurnsList,
    ThreadItemsList,
    Other,
}

/// The purpose a request kind's cursor is bound to, if it takes one.
pub open spec fn request_purpose(kind: ControllerCursorRequestKind) -> Option<Seq<char>> {
    match kind {
        ControllerCursorRequestKind::ThreadList => Some(purpose_thread_list()),
        ControllerCursorRequestKind::ThreadSearch => Some(purpose_thread_search()),
        ControllerCursorRequestKind::ThreadLoadedList => Some(purpose_thread_loaded_list()),
        ControllerCursorRequestKind::ThreadSectionList => Some(purpose_thread_section_list()),
        ControllerCursorRequestKind::ThreadBackgroundTerminalsList => Some(
            purpose_thread_background_terminals(),
        ),
        ControllerCursorRequestKind::ThreadSearchOccurrences => Some(
            purpose_thread_search_occurrences(),
        ),
        ControllerCursorRequestKind::ThreadTurnsList => Some(purpose_thread_turns()),
        ControllerCursorRequestKind::ThreadItemsList => Some(purpose_thread_items()),
        ControllerCursorRequestKind::Other => None,
    }
}

fn request_purpose_text(kind: ControllerCursorRequestKind) -> (purpose: Option<&'static str>)
    ensures
        match request_purpose(kind) {
            Some(p) => purpose is Some && purpose->Some_0@ == p,
            None => purpose is None,
        },
{
    match kind {
        ControllerCursorRequestKind::ThreadList => Some("thread/list"),
        ControllerCursorRequestKind::ThreadSearch => Some("thread/search"),
        ControllerCursorRequestKind::ThreadLoadedList => Some("thread/loaded/list"),
        ControllerCursorRequestKind::ThreadSectionList => Some("threadSection/list"),
        ControllerCursorRequestKind::ThreadBackgroundTerminalsList => Some(
            "thread/backgroundTerminals/list",
        ),
        ControllerCursorRequestKind::ThreadSearchOccurrences => Some("thread/searchOccurrences"),
        ControllerCursorRequestKind::ThreadTurnsList => Some("thread/turns/list"),
        ControllerCursorRequestKind::ThreadItemsList => Some("thread/items/list"),
        ControllerCursorRequestKind::Other => None,
    }
}

/// A client request with the cursor it carries, if its kind takes one.
pub struct ControllerCursorRequest {
    pub kind: ControllerCursorRequestKind,
    pub cursor: Option<String>,
}

/// Whether `bound` is the binding of some cursor to the connection, main
/// thread and purpose.
pub open spec fn is_bound_for(
    bound: Seq<char>,
    connection_id: u64,
    main_thread_id: Seq<char>,
    purpose: Seq<char>,
) -> bool {
    exists|raw: Seq<char>| bound == #[trigger] bound_cursor_text(connection_id, main_thread_id, purpose, raw)
}

/// Replaces the bound cursor of a controller request by the raw cursor it
/// binds. A cursor not bound to this connection, main thread and request
/// kind is refused and removed from the request.
pub fn unbind_controller_request_cursors(
    request: &mut ControllerCursorRequest,
    connection_id: ConnectionId,
    authorization: &ControllerNormalAuthorization,
) -> (result: Result<(), ControllerCursorError>)
    ensures
        final(request).kind == old(request).kind,
        match (request_purpose(old(request).kind), old(request).cursor) {
            (Some(purpose), Some(bound)) => if is_bound_for(
                bound@,
                connection_id.0,
                authorization.main_thread_id@,
                purpose,
            ) {
                &&& result is Ok
                &&& final(request).cursor is Some
                &&& bound@ == bound_cursor_text(
                    connection_id.0,
                    authorization.main_thread_id@,
                    purpose,
                    final(request).cursor->Some_0@,
                )
                &&& forall|raw: Seq<char>|
                    bound@ == #[trigger] bound_cursor_text(
                        connection_id.0,
                        authorization.main_thread_id@,
                        purpose,
                        raw,
                    ) ==> final(request).cursor->Some_0@ == raw
            } else {
                &&& result == Err::<(), ControllerCursorError>(ControllerCursorError::InvalidCursor)
                &&& final(request).cursor is None
            },
            _ => result is Ok && final(request).cursor == old(request).cursor,
        },
{
    let purpose = match request_purpose_text(request.kind) {
        Some(purpose) => purpose,
        None => return Ok(()),
    };
    let bound = match request.cursor.take() {
        Some(bound) => bound,
        None => return Ok(()),
    };
    match decode_bound_cursor(
        bound.as_str(),
        connection_id.0,
        authorization.main_thread_id.as_str(),
        purpose,
    ) {
        Some(raw) => {
            request.cursor = Some(raw);
            Ok(())
        },
        None => Err(ControllerCursorError::InvalidCursor),
    }
}

/// The cursors of the first page of turns in a resume response.
pub struct TurnsPageCursors {
    pub next_cursor: Option<String>,
    pub backwards_cursor: Option<String>,
}

/// The cursors of a `thread/resume` response.
pub struct ThreadResumeCursors {
    pub initial_turns_page: Option<TurnsPageCursors>,
    pub turns_backwards_cursor: Option<String>,
    pub items_backwards_cursor: Option<String>,
}

/// A client response with the cursors it carries.
pub enum ControllerCursorResponse {
    ThreadList { next_cursor: Option<String>, backwards_cursor: Option<String> },
    ThreadSearch { next_cursor: Option<String>, backwards_cursor: Option<String> },
    ThreadLoadedList { next_cursor: Option<String> },
    ThreadSectionList { next_cursor: Option<String> },
    ThreadResume(ThreadResumeCursors),
    ThreadBackgroundTerminalsList { next_cursor: Option<String> },
    /// `turn_cursors` are the turn cursors of the occurrences, in order.
    ThreadSearchOccurrences { turn_cursors: Vec<String>, next_cursor: Option<String> },
    ThreadTurnsList { next_cursor: Option<String>, backwards_cursor: Option<String> },
    ThreadItemsList { next_cursor: Option<String>, backwards_cursor: Option<String> },
    Other,
}

pub open spec fn option_text(cursor: Option<String>) -> Option<Seq<char>> {
    match cursor {
        Some(text) => Some(text@),
        None => None,
    }
}

/// An optional cursor bound to a connection, main thread and purpose.
pub open spec fn bound_option(
    cursor: Option<String>,
    connection_id: u64,
    main_thread_id: Seq<char>,
    purpose: Seq<char>,
) -> Option<Seq<char>> {
    match cursor {
        Some(raw) => Some(bound_cursor_text(connection_id, main_thread_id, purpose, raw@)),
        None => None,
    }
}

/// `after` is `before` with each cursor bound to the connection, main thread
/// and the purpose of the request kind that continues it.
pub open spec fn resume_cursors_bound(
    before: ThreadResumeCursors,
    after: ThreadResumeCursors,
    connection_id: u64,
    main_thread_id: Seq<char>,
) -> bool {
    &&& match (before.initial_turns_page, after.initial_turns_page) {
        (Some(b), Some(a)) => {
            &&& option_text(a.next_cursor) == bound_option(
                b.next_cursor,
                connection_id,
                main_thread_id,
                purpose_thread_turns(),
            )
            &&& option_text(a.backwards_cursor) == bound_option(
                b.backwards_cursor,
                connection_id,
                main_thread_id,
                purpose_thread_turns(),
            )
        },
        (None, None) => true,
        _ => false,
    }
    &&& option_text(after.turns_backwards_cursor) == bound_option(
        before.turns_backwards_cursor,
        connection_id,
        main_thread_id,
        purpose_thread_turns(),
    )
    &&& option_text(after.items_backwards_cursor) == bound_option(
        before.items_backwards_cursor,
        connection_id,
        main_thread_id,
        purpose_thread_items(),
    )
}

/// `after` is `before` with each cursor bound to the connection, main thread
/// and the purpose of the request kind that continues it.
pub open spec fn response_cursors_bound(
    before: ControllerCursorResponse,
    after: ControllerCursorResponse,
    connection_id: u64,
    main_thread_id: Seq<char>,
) -> bool {
    match (before, after) {
        (
            ControllerCursorResponse::ThreadList { next_cursor: bn, backwards_cursor: bb },
            ControllerCursorResponse::ThreadList { next_cursor: an, backwards_cursor: ab },
        ) => option_text(an) == bound_option(bn, connection_id, main_thread_id, purpose_thread_list())
            && option_text(ab) == bound_option(
            bb,
            connection_id,
            main_thread_id,
            purpose_thread_list(),
        ),
        (
            ControllerCursorResponse::ThreadSearch { next_cursor: bn, backwards_cursor: bb },
            ControllerCursorResponse::ThreadSearch { next_cursor: an, backwards_cursor: ab },
        ) => option_text(an) == bound_option(bn, connection_id, main_thread_id, purpose_thread_search())
            && option_text(ab) == bound_option(
            bb,
            connection_id,
            main_thread_id,
            purpose_thread_search(),
        ),
        (
            ControllerCursorResponse::ThreadLoadedList { next_cursor: bn },
            ControllerCursorResponse::ThreadLoadedList { next_cursor: an },
        ) => option_text(an) == bound_option(
            bn,
            connection_id,
            main_thread_id,
            purpose_thread_loaded_list(),
        ),
        (
            ControllerCursorResponse::ThreadSectionList { next_cursor: bn },
            ControllerCursorResponse::ThreadSectionList { next_cursor: an },
        ) => option_text(an) == bound_option(
            bn,
            connection_id,
            main_thread_id,
            purpose_thread_section_list(),
        ),
        (ControllerCursorResponse::ThreadResume(b), ControllerCursorResponse::ThreadResume(a)) => {
            resume_cursors_bound(b, a, connection_id, main_thread_id)
        },
        (
            ControllerCursorResponse::ThreadBackgroundTerminalsList { next_cursor: bn },
            ControllerCursorResponse::ThreadBackgroundTerminalsList { next_cursor: an },
        ) => option_text(an) == bound_option(
            bn,
            connection_id,
            main_thread_id,
            purpose_thread_background_terminals(),
        ),
        (
            ControllerCursorResponse::ThreadSearchOccurrences {
                turn_cursors: bt,
                next_cursor: bn,
            },
            ControllerCursorResponse::ThreadSearchOccurrences {
                turn_cursors: at,
                next_cursor: an,
            },
        ) => {
            &&& at@.len() == bt@.len()
            &&& forall|i: int|
                0 <= i < bt@.len() ==> (#[trigger] at@[i])@ == bound_cursor_text(
                    connection_id,
                    main_thread_id,
                    purpose_thread_turns(),
                    bt@[i]@,
                )
            &&& option_text(an) == bound_option(
                bn,
                connection_id,
                main_thread_id,
                purpose_thread_search_occurrences(),
            )
        },
        (
            ControllerCursorResponse::ThreadTurnsList { next_cursor: bn, backwards_cursor: bb },
            ControllerCursorResponse::ThreadTurnsList { next_cursor: an, backwards_cursor: ab },
        ) => option_text(an) == bound_option(bn, connection_id, main_thread_id, purpose_thread_turns())
            && option_text(ab) == bound_option(
            bb,
            connection_id,
            main_thread_id,
            purpose_thread_turns(),
        ),
        (
            ControllerCursorResponse::ThreadItemsList { next_cursor: bn, backwards_cursor: bb },
            ControllerCursorResponse::ThreadItemsList { next_cursor: an, backwards_cursor: ab },
        ) => option_text(an) == bound_option(bn, connection_id, main_thread_id, purpose_thread_items())
            && option_text(ab) == bound_option(
            bb,
            connection_id,
            main_thread_id,
            purpose_thread_items(),
        ),
        (ControllerCursorResponse::Other, ControllerCursorResponse::Other) => true,
        _ => false,
    }
}

/// Binds an optional cursor.
fn bind_controller_cursor(
    cursor: Option<String>,
    connection_id: ConnectionId,
    main_thread_id: &str,
    purpose: &str,
) -> (bound: Option<String>)
    ensures
        option_text(bound) == bound_option(cursor, connection_id.0, main_thread_id@, purpose@),
{
    match cursor {
        Some(raw) => Some(
            encode_bound_cursor(connection_id.0, main_thread_id, purpose, raw.as_str()),
        ),
        None => None,
    }
}

/// Binds every cursor of a `thread/resume` response to the connection and
/// main thread.
pub fn bind_controller_thread_resume_response_cursors(
    response: &mut ThreadResumeCursors,
    connection_id: ConnectionId,
    main_thread_id: &str,
) -> (result: Result<(), ControllerCursorError>)
    ensures
        result is Ok,
        resume_cursors_bound(*old(response), *final(response), connection_id.0, main_thread_id@),
{
    let page = match response.initial_turns_page.take() {
        Some(page) => Some(
            TurnsPageCursors {
                next_cursor: bind_controller_cursor(
                    page.next_cursor,
                    connection_id,
                    main_thread_id,
                    "thread/turns/list",
                ),
                backwards_cursor: bind_controller_cursor(
                    page.backwards_cursor,
                    connection_id,
                    main_thread_id,
                    "thread/turns/list",
                ),
            },
        ),
        None => None,
    };
    response.initial_turns_page = page;
    response.turns_backwards_cursor = bind_controller_cursor(
        response.turns_backwards_cursor.take(),
        connection_id,
        main_thread_id,
        "thread/turns/list",
    );
    response.items_backwards_cursor = bind_controller_cursor(
        response.items_backwards_cursor.take(),
        connection_id,
        main_thread_id,
        "thread/items/list",
    );
    Ok(())
}

/// Binds each of `cursors` as a turns cursor.
fn bind_turn_cursors(cursors: Vec<String>, connection_id: ConnectionId, main_thread_id: &str) -> (bound:
    Vec<String>)
    ensures
        bound@.len() == cursors@.len(),
        forall|i: int|
            0 <= i < cursors@.len() ==> (#[trigger] bound@[i])@ == bound_cursor_text(
                connection_id.0,
                main_thread_id@,
                purpose_thread_turns(),
                cursors@[i]@,
            ),
{
    let mut bound: Vec<String> = Vec::new();
    let mut i: usize = 0;
    while i < cursors.len()
        invariant
            i <= cursors@.len(),
            bound@.len() == i,
            forall|j: int|
                0 <= j < i ==> (#[trigger] bound@[j])@ == bound_cursor_text(
                    connection_id.0,
                    main_thread_id@,
                    purpose_thread_turns(),
                    cursors@[j]@,
                ),
        decreases cursors@.len() - i,
    {
        bound.push(
            encode_bound_cursor(
                connection_id.0,
                main_thread_id,
                "thread/turns/list",
                cursors[i].as_str(),
            ),
        );
        i += 1;
    }
    bound
}

/// Binds every cursor of a controller response to the connection, its main
/// thread and the request kind that continues it.
pub fn bind_controller_response_cursors(
    response: &mut ControllerCursorResponse,
    connection_id: ConnectionId,
    authorization: &ControllerNormalAuthorization,
) -> (result: Result<(), ControllerCursorError>)
    ensures
        result is Ok,
        response_cursors_bound(
            *old(response),
            *final(response),
            connection_id.0,
            authorization.main_thread_id@,
        ),
{
    let main = authorization.main_thread_id.as_str();
    let mut taken = ControllerCursorResponse::Other;
    std::mem::swap(&mut taken, response);
    let bound = match taken {
        ControllerCursorResponse::ThreadList { next_cursor, backwards_cursor } => {
            ControllerCursorResponse::ThreadList {
                next_cursor: bind_controller_cursor(next_cursor, connection_id, main, "thread/list"),
                backwards_cursor: bind_controller_cursor(
                    backwards_cursor,
                    connection_id,
                    main,
                    "thread/list",
                ),
            }
        },
        ControllerCursorResponse::ThreadSearch { next_cursor, backwards_cursor } => {
            ControllerCursorResponse::ThreadSearch {
                next_cursor: bind_controller_cursor(
                    next_cursor,
                    connection_id,
                    main,
                    "thread/search",
                ),
                backwards_cursor: bind_controller_cursor(
                    backwards_cursor,
                    connection_id,
                    main,
                    "thread/search",
                ),
            }
        },
        ControllerCursorResponse::ThreadLoadedList { next_cursor } => {
            ControllerCursorResponse::ThreadLoadedList {
                next_cursor: bind_controller_cursor(
                    next_cursor,
                    connection_id,
                    main,
                    "thread/loaded/list",
                ),
            }
        },
        ControllerCursorResponse::ThreadSectionList { next_cursor } => {
            ControllerCursorResponse::ThreadSectionList {
                next_cursor: bind_controller_cursor(
                    next_cursor,
                    connection_id,
                    main,
                    "threadSection/list",
                ),
            }
        },
        ControllerCursorResponse::ThreadResume(resume) => {
            let mut resume = resume;
            let _ = bind_controller_thread_resume_response_cursors(&mut resume, connection_id, main);
            ControllerCursorResponse::ThreadResume(resume)
        },
        ControllerCursorResponse::ThreadBackgroundTerminalsList { next_cursor } => {
            ControllerCursorResponse::ThreadBackgroundTerminalsList {
                next_cursor: bind_controller_cursor(
                    next_cursor,
                    connection_id,
                    main,
                    "thread/backgroundTerminals/list",
                ),
            }
        },
        ControllerCursorResponse::ThreadSearchOccurrences { turn_cursors, next_cursor } => {
            ControllerCursorResponse::ThreadSearchOccurrences {
                turn_cursors: bind_turn_cursors(turn_cursors, connection_id, main),
                next_cursor: bind_controller_cursor(
                    next_cursor,
                    connection_id,
                    main,
                    "thread/searchOccurrences",
                ),
            }
        },
        ControllerCursorResponse::ThreadTurnsList { next_cursor, backwards_cursor } => {
            ControllerCursorResponse::ThreadTurnsList {
                next_cursor: bind_controller_cursor(
                    next_cursor,
                    connection_id,
                    main,
                    "thread/turns/list",
                ),
                backwards_cursor: bind_controller_cursor(
                    backwards_cursor,
                    connection_id,
                    main,
                    "thread/turns/list",
                ),
            }
        },
        ControllerCursorResponse::ThreadItemsList { next_cursor, backwards_cursor } => {
            ControllerCursorResponse::ThreadItemsList {
                next_cursor: bind_controller_cursor(
                    next_cursor,
                    connection_id,
                    main,
                    "thread/items/list",
                ),
                backwards_cursor: bind_controller_cursor(
                    backwards_cursor,
                    connection_id,
                    main,
                    "thread/items/list",
                ),
            }
        },
        ControllerCursorResponse::Other => ControllerCursorResponse::Other,
    };
    *response = bound;
    Ok(())
}

/// Round trip: a cursor bound for a connection, main thread and request kind
/// is given back unchanged when the same controller presents it with the
/// same kind of request, and refused for any other connection, main thread
/// or request kind.
pub proof fn law_bound_cursor_round_trip(
    connection_id: u64,
    main_thread_id: Seq<char>,
    purpose: Seq<char>,
    raw: Seq<char>,
    presented_connection: u64,
    presented_main_thread: Seq<char>,
    presented_purpose: Seq<char>,
    unbound: Seq<char>,
)
    requires
        bound_cursor_text(connection_id, main_thread_id, purpose, raw) == bound_cursor_text(
            presented_connection,
            presented_main_thread,
            presented_purpose,
            unbound,
        ),
    ensures
        presented_connection == connection_id,
        presented_main_thread == main_thread_id,
        presented_purpose == purpose,
        unbound == raw,
{
    crate::cursor_codec::law_bound_cursor_text_is_unambiguous(
        connection_id,
        main_thread_id,
        purpose,
        raw,
        presented_connection,
        presented_main_thread,
        presented_purpose,
        unbound,
    );
}

/// The request kind that continues a paged response from its cursors.
pub open spec fn continuing_kind(response: ControllerCursorResponse) -> ControllerCursorRequestKind {
    match response {
        ControllerCursorResponse::ThreadList { .. } => ControllerCursorRequestKind::ThreadList,
        ControllerCursorResponse::ThreadSearch { .. } => ControllerCursorRequestKind::ThreadSearch,
        ControllerCursorResponse::ThreadLoadedList { .. } => ControllerCursorRequestKind::ThreadLoadedList,
        ControllerCursorResponse::ThreadSectionList { .. } => ControllerCursorRequestKind::ThreadSectionList,
        ControllerCursorResponse::ThreadBackgroundTerminalsList { .. } =>
            ControllerCursorRequestKind::ThreadBackgroundTerminalsList,
        ControllerCursorResponse::ThreadSearchOccurrences { .. } =>
            ControllerCursorRequestKind::ThreadSearchOccurrences,
        ControllerCursorResponse::ThreadTurnsList { .. } => ControllerCursorRequestKind::ThreadTurnsList,
        ControllerCursorResponse::ThreadItemsList { .. } => ControllerCursorRequestKind::ThreadItemsList,
        _ => ControllerCursorRequestKind::Other,
    }
}

/// The forward and backward page cursors of a paged response.
pub open spec fn page_cursors(response: ControllerCursorResponse) -> (Option<String>, Option<String>) {
    match response {
        ControllerCursorResponse::ThreadList { next_cursor, backwards_cursor } => (next_cursor, backwards_cursor),
        ControllerCursorResponse::ThreadSearch { next_cursor, backwards_cursor } => (next_cursor, backwards_cursor),
        ControllerCursorResponse::ThreadLoadedList { next_cursor } => (next_cursor, None),
        ControllerCursorResponse::ThreadSectionList { next_cursor } => (next_cursor, None),
        ControllerCursorResponse::ThreadBackgroundTerminalsList { next_cursor } => (next_cursor, None),
        ControllerCursorResponse::ThreadSearchOccurrences { next_cursor, .. } => (next_cursor, None),
        ControllerCursorResponse::ThreadTurnsList { next_cursor, backwards_cursor } => (next_cursor, backwards_cursor),
        ControllerCursorResponse::ThreadItemsList { next_cursor, backwards_cursor } => (next_cursor, backwards_cursor),
        _ => (None, None),
    }
}

/// A response's cursors continue with the request that pages it: each page
/// cursor a response binds is bound with exactly the purpose that the next
/// request of the continuing kind is unbound with, as are the turn and item
/// cursors of a resume and the turn cursors of an occurrence search. So a
/// bound cursor is accepted, unchanged, by the next request of that kind
/// from the same connection and main thread.
pub proof fn law_response_cursors_continue_with_their_request(
    before: ControllerCursorResponse,
    after: ControllerCursorResponse,
    connection_id: u64,
    main_thread_id: Seq<char>,
)
    requires
        response_cursors_bound(before, after, connection_id, main_thread_id),
    ensures
        continuing_kind(before) != ControllerCursorRequestKind::Other ==> ({
            let purpose = request_purpose(continuing_kind(before));
            &&& purpose is Some
            &&& option_text(page_cursors(after).0) == bound_option(
                page_cursors(before).0,
                connection_id,
                main_thread_id,
                purpose->Some_0,
            )
            &&& option_text(page_cursors(after).1) == bound_option(
                page_cursors(before).1,
                connection_id,
                main_thread_id,
                purpose->Some_0,
            )
        }),
        before matches ControllerCursorResponse::ThreadResume(b) ==> ({
            let a = after->ThreadResume_0;
            &&& request_purpose(ControllerCursorRequestKind::ThreadTurnsList) == Some(
                purpose_thread_turns(),
            )
            &&& request_purpose(ControllerCursorRequestKind::ThreadItemsList) == Some(
                purpose_thread_items(),
            )
            &&& resume_cursors_bound(b, a, connection_id, main_thread_id)
        }),
        before matches ControllerCursorResponse::ThreadSearchOccurrences { turn_cursors: bt, .. }
            ==> request_purpose(ControllerCursorRequestKind::ThreadTurnsList) == Some(
            purpose_thread_turns(),
        ) && (after matches ControllerCursorResponse::ThreadSearchOccurrences { turn_cursors: at, .. }
            && at@.len() == bt@.len() && forall|i: int|
            0 <= i < bt@.len() ==> (#[trigger] at@[i])@ == bound_cursor_text(
                connection_id,
                main_thread_id,
                purpose_thread_turns(),
                bt@[i]@,
            )),
{
}

/// Cursors of different request kinds never pass for one another: every
/// kind that takes a cursor binds it with a purpose of its own.
pub proof fn law_cursor_purposes_are_distinct(a: ControllerCursorRequestKind, b: ControllerCursorRequestKind)
    requires
        a != b,
        request_purpose(a) is Some,
        request_purpose(b) is Some,
    ensures
        request_purpose(a) != request_purpose(b),
{
    reveal_strlit("thread/list");
    reveal_strlit("thread/search");
    reveal_strlit("thread/loaded/list");
    reveal_strlit("threadSection/list");
    reveal_strlit("thread/turns/list");
    reveal_strlit("thread/items/list");
    reveal_strlit("thread/searchOccurrences");
    reveal_strlit("thread/backgroundTerminals/list");
    assert(purpose_thread_list().len() == 11);
    assert(purpose_thread_search().len() == 13);
    assert(purpose_thread_loaded_list().len() == 18);
    assert(purpose_thread_section_list().len() == 18);
    assert(purpose_thread_turns().len() == 17);
    assert(purpose_thread_items().len() == 17);
    assert(purpose_thread_search_occurrences().len() == 24);
    assert(purpose_thread_background_terminals().len() == 31);
    assert(purpose_thread_loaded_list()[6] != purpose_thread_section_list()[6]);
    assert(purpose_thread_turns()[7] != purpose_thread_items()[7]);
    if request_purpose(a) == request_purpose(b) {
        let p = request_purpose(a)->Some_0;
        match a {
            ControllerCursorRequestKind::ThreadLoadedList | ControllerCursorRequestKind::ThreadSectionList => {
                assert(p[6] == request_purpose(b)->Some_0[6]);
            },
            ControllerCursorRequestKind::ThreadTurnsList | ControllerCursorRequestKind::ThreadItemsList => {
                assert(p[7] == request_purpose(b)->Some_0[7]);
            },
            _ => {},
        }
    }
}

} // verus!

use codex_controller::cursor::{
    bind_controller_response_cursors, bind_controller_thread_resume_response_cursors,
    unbind_controller_request_cursors, ControllerCursorError, ControllerCursorRequest,
    ControllerCursorRequestKind, ControllerCursorResponse, ControllerNormalAuthorization,
    ThreadResumeCursors, TurnsPageCursors,
};
use codex_controller::cursor_codec::{decode_bound_cursor, encode_bound_cursor};
use codex_controller::ids::ConnectionId;
use codex_controller::protocol::{ControllerErrorCode, ControllerRetryDisposition};

const CONTROLLER_CONNECTION_ID: ConnectionId = ConnectionId(8);
const OTHER_CONTROLLER_CONNECTION_ID: ConnectionId = ConnectionId(9);
const MAIN_THREAD_ID: &str = "00000000-0000-7000-8000-000000000001";
const OTHER_THREAD_ID: &str = "00000000-0000-7000-8000-000000000002";

fn controller_authorization(thread_id: &str) -> ControllerNormalAuthorization {
    ControllerNormalAuthorization {
        main_thread_id: thread_id.to_string(),
        filter_collection_to_main_thread: false,
    }
}

fn request(kind: ControllerCursorRequestKind, cursor: Option<String>) -> ControllerCursorRequest {
    ControllerCursorRequest { kind, cursor }
}

fn thread_turns_request(cursor: Option<String>) -> ControllerCursorRequest {
    request(ControllerCursorRequestKind::ThreadTurnsList, cursor)
}

fn thread_items_request(cursor: Option<String>) -> ControllerCursorRequest {
    request(ControllerCursorRequestKind::ThreadItemsList, cursor)
}

fn thread_search_occurrences_request(cursor: Option<String>) -> ControllerCursorRequest {
    request(ControllerCursorRequestKind::ThreadSearchOccurrences, cursor)
}

fn thread_list_request(cursor: Option<String>) -> ControllerCursorRequest {
    request(ControllerCursorRequestKind::ThreadList, cursor)
}

fn thread_search_request(cursor: Option<String>) -> ControllerCursorRequest {
    request(ControllerCursorRequestKind::ThreadSearch, cursor)
}

fn thread_resume_response_with_cursors() -> ThreadResumeCursors {
    ThreadResumeCursors {
        initial_turns_page: Some(TurnsPageCursors {
            next_cursor: Some("initial-next".to_string()),
            backwards_cursor: Some("initial-back".to_string()),
        }),
        turns_backwards_cursor: Some("turns-back".to_string()),
        items_backwards_cursor: Some("items-back".to_string()),
    }
}

fn assert_controller_not_allowed(error: ControllerCursorError) {
    assert_eq!(error.code(), ControllerErrorCode::ControllerNotAllowed);
}

#[test]
fn exact_thread_cursor_round_trips_for_same_controller_connection() {
    let authorization = controller_authorization(MAIN_THREAD_ID);
    let mut response = ControllerCursorResponse::ThreadTurnsList {
        next_cursor: Some("raw-next".to_string()),
        backwards_cursor: Some("raw-back".to_string()),
    };

    bind_controller_response_cursors(&mut response, CONTROLLER_CONNECTION_ID, &authorization)
        .expect("cursor binding should succeed");
    let ControllerCursorResponse::ThreadTurnsList {
        next_cursor,
        backwards_cursor,
    } = response
    else {
        panic!("expected thread turns response");
    };
    assert_ne!(next_cursor.as_deref(), Some("raw-next"));
    assert_ne!(backwards_cursor.as_deref(), Some("raw-back"));

    let mut next_request = thread_turns_request(next_cursor);
    unbind_controller_request_cursors(&mut next_request, CONTROLLER_CONNECTION_ID, &authorization)
        .expect("same connection and thread should unwrap next cursor");
    assert_eq!(next_request.kind, ControllerCursorRequestKind::ThreadTurnsList);
    assert_eq!(next_request.cursor.as_deref(), Some("raw-next"));

    let mut backwards_request = thread_turns_request(backwards_cursor);
    unbind_controller_request_cursors(
        &mut backwards_request,
        CONTROLLER_CONNECTION_ID,
        &authorization,
    )
    .expect("same connection and thread should unwrap backwards cursor");
    assert_eq!(backwards_request.cursor.as_deref(), Some("raw-back"));
}

#[test]
fn exact_thread_cursor_rejects_cross_connection_or_thread_replay() {
    let authorization = controller_authorization(MAIN_THREAD_ID);
    let mut response = ControllerCursorResponse::ThreadTurnsList {
        next_cursor: Some("raw-next".to_string()),
        backwards_cursor: None,
    };
    bind_controller_response_cursors(&mut response, CONTROLLER_CONNECTION_ID, &authorization)
        .expect("cursor binding should succeed");
    let ControllerCursorResponse::ThreadTurnsList { next_cursor, .. } = response else {
        panic!("expected thread turns response");
    };
    let bound_cursor = next_cursor.expect("bound next cursor");

    let mut other_connection_request = thread_turns_request(Some(bound_cursor.clone()));
    let error = unbind_controller_request_cursors(
        &mut other_connection_request,
        OTHER_CONTROLLER_CONNECTION_ID,
        &authorization,
    )
    .expect_err("cursor should not replay on another controller connection");
    assert_controller_not_allowed(error);

    let mut other_thread_request = thread_turns_request(Some(bound_cursor));
    let error = unbind_controller_request_cursors(
        &mut other_thread_request,
        CONTROLLER_CONNECTION_ID,
        &controller_authorization(OTHER_THREAD_ID),
    )
    .expect_err("cursor should not replay against another authorized thread");
    assert_controller_not_allowed(error);
}

#[test]
fn thread_resume_response_cursors_are_bound_for_internal_send_path() {
    let mut response = thread_resume_response_with_cursors();
    bind_controller_thread_resume_response_cursors(
        &mut response,
        CONTROLLER_CONNECTION_ID,
        MAIN_THREAD_ID,
    )
    .expect("thread/resume cursor binding should succeed");

    let initial_turns_page = response
        .initial_turns_page
        .expect("initial turns page should remain present");
    assert_ne!(initial_turns_page.next_cursor.as_deref(), Some("initial-next"));
    assert_ne!(
        initial_turns_page.backwards_cursor.as_deref(),
        Some("initial-back")
    );
    assert_ne!(response.turns_backwards_cursor.as_deref(), Some("turns-back"));
    assert_ne!(response.items_backwards_cursor.as_deref(), Some("items-back"));

    let authorization = controller_authorization(MAIN_THREAD_ID);
    let turn_cursors = [
        (initial_turns_page.next_cursor, "initial-next"),
        (initial_turns_page.backwards_cursor, "initial-back"),
        (response.turns_backwards_cursor, "turns-back"),
    ];
    for (cursor, expected_raw_cursor) in turn_cursors {
        let mut request = thread_turns_request(cursor);
        unbind_controller_request_cursors(&mut request, CONTROLLER_CONNECTION_ID, &authorization)
            .expect("thread/resume turn cursor should unwrap for thread/turns/list");
        assert_eq!(request.cursor.as_deref(), Some(expected_raw_cursor));
    }

    let mut items_request = thread_items_request(response.items_backwards_cursor);
    unbind_controller_request_cursors(&mut items_request, CONTROLLER_CONNECTION_ID, &authorization)
        .expect("thread/resume item cursor should unwrap for thread/items/list");
    assert_eq!(items_request.cursor.as_deref(), Some("items-back"));
}

#[test]
fn collection_filtered_cursors_round_trip_for_same_controller_connection() {
    let authorization = controller_authorization(MAIN_THREAD_ID);
    let mut response = ControllerCursorResponse::ThreadList {
        next_cursor: Some("raw-next".to_string()),
        backwards_cursor: Some("raw-back".to_string()),
    };

    bind_controller_response_cursors(&mut response, CONTROLLER_CONNECTION_ID, &authorization)
        .expect("cursor binding should succeed");
    let ControllerCursorResponse::ThreadList {
        next_cursor,
        backwards_cursor,
    } = response
    else {
        panic!("expected thread list response");
    };
    assert_ne!(next_cursor.as_deref(), Some("raw-next"));
    assert_ne!(backwards_cursor.as_deref(), Some("raw-back"));

    let mut next_request = thread_list_request(next_cursor);
    unbind_controller_request_cursors(&mut next_request, CONTROLLER_CONNECTION_ID, &authorization)
        .expect("same connection and thread should unwrap next collection cursor");
    assert_eq!(next_request.cursor.as_deref(), Some("raw-next"));

    let mut backwards_request = thread_list_request(backwards_cursor);
    unbind_controller_request_cursors(
        &mut backwards_request,
        CONTROLLER_CONNECTION_ID,
        &authorization,
    )
    .expect("same connection and thread should unwrap backwards collection cursor");
    assert_eq!(backwards_request.cursor.as_deref(), Some("raw-back"));
}

#[test]
fn collection_filtered_cursors_reject_cross_connection_or_thread_replay() {
    let authorization = controller_authorization(MAIN_THREAD_ID);
    let mut response = ControllerCursorResponse::ThreadSearch {
        next_cursor: Some("raw-next".to_string()),
        backwards_cursor: None,
    };
    bind_controller_response_cursors(&mut response, CONTROLLER_CONNECTION_ID, &authorization)
        .expect("cursor binding should succeed");
    let ControllerCursorResponse::ThreadSearch { next_cursor, .. } = response else {
        panic!("expected thread search response");
    };
    let bound_cursor = next_cursor.expect("bound next cursor");

    let mut other_connection_request = thread_search_request(Some(bound_cursor.clone()));
    let error = unbind_controller_request_cursors(
        &mut other_connection_request,
        OTHER_CONTROLLER_CONNECTION_ID,
        &authorization,
    )
    .expect_err("collection cursor should not replay on another controller connection");
    assert_controller_not_allowed(error);

    let mut other_thread_request = thread_search_request(Some(bound_cursor));
    let error = unbind_controller_request_cursors(
        &mut other_thread_request,
        CONTROLLER_CONNECTION_ID,
        &controller_authorization(OTHER_THREAD_ID),
    )
    .expect_err("collection cursor should not replay against another authorized thread");
    assert_controller_not_allowed(error);
}

#[test]
fn collection_filtered_cursor_rejects_unbound_or_wrong_purpose_cursors() {
    let authorization = controller_authorization(MAIN_THREAD_ID);
    let mut unbound_request = thread_list_request(Some("raw-next".to_string()));
    let error = unbind_controller_request_cursors(
        &mut unbound_request,
        CONTROLLER_CONNECTION_ID,
        &authorization,
    )
    .expect_err("unbound collection cursor should be rejected");
    assert_controller_not_allowed(error);

    let mut response = ControllerCursorResponse::ThreadLoadedList {
        next_cursor: Some("loaded-next".to_string()),
    };
    bind_controller_response_cursors(&mut response, CONTROLLER_CONNECTION_ID, &authorization)
        .expect("cursor binding should succeed");
    let ControllerCursorResponse::ThreadLoadedList { next_cursor } = response else {
        panic!("expected loaded list response");
    };

    let mut wrong_purpose_request = thread_list_request(next_cursor);
    let error = unbind_controller_request_cursors(
        &mut wrong_purpose_request,
        CONTROLLER_CONNECTION_ID,
        &authorization,
    )
    .expect_err("loaded-list cursor should not replay as a thread/list cursor");
    assert_controller_not_allowed(error);
}

#[test]
fn thread_section_list_cursor_is_connection_bound() {
    let authorization = controller_authorization(MAIN_THREAD_ID);
    let mut response = ControllerCursorResponse::ThreadSectionList {
        next_cursor: Some("section-next".to_string()),
    };
    bind_controller_response_cursors(&mut response, CONTROLLER_CONNECTION_ID, &authorization)
        .expect("cursor binding should succeed");
    let ControllerCursorResponse::ThreadSectionList { next_cursor } = response else {
        panic!("expected thread section list response");
    };

    let mut request = request(ControllerCursorRequestKind::ThreadSectionList, next_cursor);
    unbind_controller_request_cursors(&mut request, CONTROLLER_CONNECTION_ID, &authorization)
        .expect("same connection and thread should unwrap section cursor");
    assert_eq!(request.cursor.as_deref(), Some("section-next"));
}

#[test]
fn exact_thread_cursor_rejects_unbound_or_wrong_purpose_cursors() {
    let authorization = controller_authorization(MAIN_THREAD_ID);
    let mut unbound_request = thread_turns_request(Some("raw-next".to_string()));
    let error = unbind_controller_request_cursors(
        &mut unbound_request,
        CONTROLLER_CONNECTION_ID,
        &authorization,
    )
    .expect_err("unbound controller cursor should be rejected");
    assert_controller_not_allowed(error);

    let mut response = ControllerCursorResponse::ThreadSearchOccurrences {
        turn_cursors: Vec::new(),
        next_cursor: Some("search-next".to_string()),
    };
    bind_controller_response_cursors(&mut response, CONTROLLER_CONNECTION_ID, &authorization)
        .expect("cursor binding should succeed");
    let ControllerCursorResponse::ThreadSearchOccurrences { next_cursor, .. } = response else {
        panic!("expected search occurrences response");
    };

    let mut wrong_purpose_request = thread_turns_request(next_cursor);
    let error = unbind_controller_request_cursors(
        &mut wrong_purpose_request,
        CONTROLLER_CONNECTION_ID,
        &authorization,
    )
    .expect_err("search cursor should not replay as a turns cursor");
    assert_controller_not_allowed(error);
}

#[test]
fn search_occurrence_turn_cursors_are_bound_as_turns_cursors() {
    let authorization = controller_authorization(MAIN_THREAD_ID);
    let mut response = ControllerCursorResponse::ThreadSearchOccurrences {
        turn_cursors: vec!["turn-cursor".to_string()],
        next_cursor: Some("search-next".to_string()),
    };
    bind_controller_response_cursors(&mut response, CONTROLLER_CONNECTION_ID, &authorization)
        .expect("cursor binding should succeed");
    let ControllerCursorResponse::ThreadSearchOccurrences {
        turn_cursors,
        next_cursor,
    } = response
    else {
        panic!("expected search occurrences response");
    };

    let mut turns_request = thread_turns_request(Some(turn_cursors[0].clone()));
    unbind_controller_request_cursors(&mut turns_request, CONTROLLER_CONNECTION_ID, &authorization)
        .expect("occurrence turn cursor should unwrap for thread/turns/list");
    assert_eq!(turns_request.cursor.as_deref(), Some("turn-cursor"));

    let mut search_request = thread_search_occurrences_request(next_cursor);
    unbind_controller_request_cursors(
        &mut search_request,
        CONTROLLER_CONNECTION_ID,
        &authorization,
    )
    .expect("search next cursor should unwrap for thread/searchOccurrences");
    assert_eq!(search_request.cursor.as_deref(), Some("search-next"));
}

#[test]
fn bound_cursor_text_is_the_canonical_json_object() {
    assert_eq!(
        encode_bound_cursor(8, MAIN_THREAD_ID, "thread/list", "raw-next"),
        format!(
            "{{\"version\":1,\"connectionId\":8,\"mainThreadId\":\"{MAIN_THREAD_ID}\",\"purpose\":\"thread/list\",\"cursor\":\"raw-next\"}}"
        )
    );
    assert_eq!(
        encode_bound_cursor(0, "t", "p", "a\"b\\c\nd\u{1}e/é"),
        "{\"version\":1,\"connectionId\":0,\"mainThreadId\":\"t\",\"purpose\":\"p\",\"cursor\":\"a\\\"b\\\\c\\nd\\u0001e/é\"}"
    );
}

#[test]
fn bound_cursor_text_matches_serde_json_for_awkward_cursors() {
    for raw in ["", "plain", "quote\"inside", "back\\slash", "tab\tand\r\n", "\u{0}\u{1f}\u{7f}", "ünïcødé ✓"] {
        let expected = format!(
            "{{\"version\":1,\"connectionId\":18446744073709551615,\"mainThreadId\":{},\"purpose\":{},\"cursor\":{}}}",
            serde_json::to_string(MAIN_THREAD_ID).unwrap(),
            serde_json::to_string("thread/items/list").unwrap(),
            serde_json::to_string(raw).unwrap(),
        );
        let bound = encode_bound_cursor(u64::MAX, MAIN_THREAD_ID, "thread/items/list", raw);
        assert_eq!(bound, expected);
        assert_eq!(
            decode_bound_cursor(&bound, u64::MAX, MAIN_THREAD_ID, "thread/items/list"),
            Some(raw.to_string())
        );
        assert_eq!(
            decode_bound_cursor(&bound, u64::MAX - 1, MAIN_THREAD_ID, "thread/items/list"),
            None
        );
    }
}

#[test]
fn non_canonical_or_truncated_cursors_are_refused() {
    let bound = encode_bound_cursor(8, MAIN_THREAD_ID, "thread/list", "raw");
    assert_eq!(
        decode_bound_cursor(&bound[..bound.len() - 1], 8, MAIN_THREAD_ID, "thread/list"),
        None
    );
    assert_eq!(decode_bound_cursor("", 8, MAIN_THREAD_ID, "thread/list"), None);
    assert_eq!(
        decode_bound_cursor(&bound.replace(',', ", "), 8, MAIN_THREAD_ID, "thread/list"),
        None
    );
}

#[test]
fn cursor_refusal_removes_the_cursor_and_is_not_retryable() {
    let authorization = controller_authorization(MAIN_THREAD_ID);
    let mut request = thread_list_request(Some("not-bound".to_string()));
    let error = unbind_controller_request_cursors(&mut request, CONTROLLER_CONNECTION_ID, &authorization)
        .expect_err("unbound cursor should be refused");
    assert_eq!(error, ControllerCursorError::InvalidCursor);
    assert_eq!(error.retry(), ControllerRetryDisposition::DoNotRetry);
    assert_eq!(
        error.message(),
        "external controller cursor is not valid for this connection and thread"
    );
    assert_eq!(request.cursor, None);

    let mut other = request_without_cursor_kind();
    unbind_controller_request_cursors(&mut other, CONTROLLER_CONNECTION_ID, &authorization)
        .expect("requests without cursors pass through");
    assert_eq!(other.cursor.as_deref(), Some("left-alone"));
}

fn request_without_cursor_kind() -> ControllerCursorRequest {
    request(ControllerCursorRequestKind::Other, Some("left-alone".to_string()))
}

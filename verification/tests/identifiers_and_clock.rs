use codex_controller::clock::ControllerSessionClock;
use codex_controller::ids::ThreadId;
use codex_controller::local_controller::{
    fresh_launch_id, fresh_launch_nonce, now_unix_seconds, validate_launch_id,
};
use codex_controller::session::deadline_remaining_ms;
use codex_controller::text::decimal;

#[test]
fn thread_ids_render_and_parse_as_uuids() {
    let id = ThreadId::from_u128(1);
    assert_eq!(id.to_string(), "00000000-0000-0000-0000-000000000001");
    let parsed = ThreadId::from_string("00000000-0000-7000-8000-00000000000a").expect("valid uuid");
    assert_eq!(parsed.as_u128(), 0x0000_0000_0000_7000_8000_0000_0000_000a);
    assert!(ThreadId::from_string("not-a-uuid").is_err());
    assert!(parsed.equals(&ThreadId::from_u128(parsed.as_u128())));
    assert!(!parsed.equals(&id));
}

#[test]
fn fresh_launch_identity_is_well_formed() {
    let first = fresh_launch_id();
    let second = fresh_launch_id();
    assert_eq!(first.len(), 36);
    assert!(validate_launch_id(&first).is_ok());
    assert_ne!(first, second);
    let nonce = fresh_launch_nonce();
    assert_eq!(nonce.len(), 43);
    assert!(nonce
        .chars()
        .all(|c| c.is_ascii_alphanumeric() || c == '-' || c == '_'));
    assert_ne!(nonce, fresh_launch_nonce());
}

#[test]
fn clocks_and_deadlines() {
    assert_eq!(ControllerSessionClock::fixed(42).now(), 42);
    let clock = ControllerSessionClock::new();
    let first = clock.now();
    assert!(clock.now() >= first);
    assert!(first < 60_000);
    assert!(now_unix_seconds() > 1_600_000_000);
    assert_eq!(deadline_remaining_ms(10, 3), 7);
    assert_eq!(deadline_remaining_ms(3, 10), 0);
    assert_eq!(deadline_remaining_ms(5, 5), 0);
    assert_eq!(decimal(0), "0");
    assert_eq!(decimal(u64::MAX), u64::MAX.to_string());
}

#[test]
fn thread_id_text_is_hyphenated_lowercase_hex_most_significant_first() {
    let id = ThreadId::from_u128(0xa1a2a3a4b1b2c1c2d1d2d3d4d5d6d7d8);
    assert_eq!(id.to_string(), "a1a2a3a4-b1b2-c1c2-d1d2-d3d4d5d6d7d8");
}

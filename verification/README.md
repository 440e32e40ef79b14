# codex_controller

The controller domain of the Codex app server, verified with Verus: how
external controllers (input devices and other local clients) join a TUI's
main thread, share and hand over input ownership, and what they may ask of
the server.

## Layout

- `src/session_model.rs` — the mathematical model of the controller session
  coordinator: every operation as a function from model state, clock reading
  and fresh identifiers to the next state and result.
- `src/session.rs` — the coordinator itself; each public operation is proved
  to follow its model function exactly and to keep the ownership invariant.
- `src/session_laws.rs`, `src/session_deadline_laws.rs`,
  `src/session_history_laws.rs`, `src/session_epoch_laws.rs` — laws of the
  coordinator: at most one live lease and it is the owner's, terminal states
  absorb, each owner change steps the owner epoch by one, reclaim and release
  keep standing sessions, deadline expiry and release are idempotent, the
  notification history only grows.
- `src/enrollment.rs` — enrollment verification against host-provided
  records.
- `src/admission.rs` — the default-deny admission registry.
- `src/cursor_codec.rs`, `src/cursor.rs` — continuation cursors bound to a
  connection, main thread and request kind; the bound text is unambiguous, so
  a cursor is never accepted for another binding.
- `src/controller_policy.rs` — per-request controller checks (target thread,
  TUI-only parameters, collection scope, primary-input reclaim).
- `src/controller_gate.rs` — the sequence of checks a request passes before
  it is handled, as steps the request handler takes in turn.
- `src/attestation.rs`, `src/tui_requests.rs` — the attestation header and
  requests the server sends to the owning TUI.
- `src/local_controller.rs`, `src/in_process.rs` — rules of the local
  controller endpoint and of the in-process embedding.
- `src/in_process_routing.rs` — routing decisions of the in-process runtime
  loop: duplicate request ids, backpressure, and server requests that are
  failed back rather than dropped.
- `tests/` — executable tests of the library.
- `app/` — serde wire forms and file-system glue around the library.

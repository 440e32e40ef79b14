//! Controller domain logic of the app server: controller sessions and input
//! ownership, enrollment verification, admission policy, connection-bound
//! continuation cursors, the per-request controller checks, the attestation
//! header, and the rules of the local-controller endpoint.
//!
//! Each module states its operations over a mathematical model; the laws
//! that relate several operations stand in the `*_laws` modules and beside
//! the operations they speak of.

pub mod ids;
pub mod text;
pub mod protocol;
pub mod clock;
pub mod session_model;
pub mod session;
pub mod session_laws;
pub mod session_deadline_laws;
pub mod session_history_laws;
pub mod session_epoch_laws;
pub mod enrollment;
pub mod admission;
pub mod cursor_codec;
pub mod cursor;
pub mod controller_policy;
pub mod controller_gate;
pub mod attestation;
pub mod tui_requests;
pub mod local_controller;
pub mod in_process;
pub mod in_process_routing;

//! The checks a request from an external controller passes before it is
//! handled, as steps the request handler takes in turn: outside the
//! `controller/` control plane the request's thread target is extracted and
//! authorized by the controller processor; then TUI-only parameters are
//! refused, archiving or deleting a thread with spawned descendants is
//! refused (the handler asks the state store for the subtree), and bound
//! cursors are unbound. A sign-off disconnects after its response.

use vstd::prelude::*;
use vstd::string::StringExecFns;

use crate::admission::AdmissionRule;
use crate::controller_policy::{
    controller_request_target, reject_controller_tui_only_params, request_target,
    sets_tui_only_params, target_view, tui_only_params_message, ConnectionOrigin,
    ControllerNotAllowed, ControllerRequestFacts, ControllerRequestShape, ControllerRequestTarget,
    TargetModel,
};
use crate::text::chars_of;

verus! {

pub open spec fn control_plane_prefix() -> Seq<char> {
    "controller/"@
}

/// Whether `method` belongs to the controller control plane.
pub open spec fn is_control_plane_method(method: Seq<char>) -> bool {
    method.len() >= control_plane_prefix().len() && method.subrange(
        0,
        control_plane_prefix().len() as int,
    ) == control_plane_prefix()
}

/// Whether a request passes the controller checks: it comes from an
/// external controller and lies outside the control plane.
pub open spec fn controller_gated(origin: ConnectionOrigin, method: Seq<char>) -> bool {
    origin == ConnectionOrigin::ExternalController && !is_control_plane_method(method)
}

/// Whether `method` starts with `controller/`.
pub fn is_control_plane_method_name(method: &str) -> (control_plane: bool)
    ensures
        control_plane == is_control_plane_method(method@),
{
    let chars = chars_of(method);
    let prefix = chars_of("controller/");
    proof {
        reveal_strlit("controller/");
    }
    if chars.len() < prefix.len() {
        return false;
    }
    let mut i: usize = 0;
    while i < prefix.len()
        invariant
            prefix@ == control_plane_prefix(),
            chars@ == method@,
            prefix.len() <= chars.len(),
            i <= prefix.len(),
            forall|j: int| 0 <= j < i ==> chars@[j] == prefix@[j],
        decreases prefix.len() - i,
    {
        if chars[i] != prefix[i] {
            assert(method@.subrange(0, control_plane_prefix().len() as int)[i as int] != control_plane_prefix()[i as int]);
            return false;
        }
        i = i + 1;
    }
    assert(method@.subrange(0, control_plane_prefix().len() as int) =~= control_plane_prefix());
    true
}

/// The first step of the controller checks.
#[derive(Debug, PartialEq, Eq)]
pub enum ControllerGateStep {
    /// No controller checks apply.
    Ungated,
    /// Ask the controller processor to authorize the request for `target`.
    Authorize { target: ControllerRequestTarget },
    /// The request is refused before authorization.
    Refused(ControllerNotAllowed),
}

/// Starts the controller checks for a request with method `method` under
/// its admission rule.
pub fn begin_controller_gate(
    origin: ConnectionOrigin,
    method: &str,
    request: &ControllerRequestFacts,
    rule: AdmissionRule,
) -> (step: ControllerGateStep)
    ensures
        !controller_gated(origin, method@) ==> step is Ungated,
        controller_gated(origin, method@) ==> match request_target(*request, rule) {
            Ok(t) => step matches ControllerGateStep::Authorize { target } && target_view(target)
                == t,
            Err(message) => step matches ControllerGateStep::Refused(refusal) && refusal.message@
                == message,
        },
{
    if origin != ConnectionOrigin::ExternalController || is_control_plane_method_name(method) {
        return ControllerGateStep::Ungated;
    }
    match controller_request_target(request, rule) {
        Ok(target) => ControllerGateStep::Authorize { target },
        Err(refusal) => ControllerGateStep::Refused(refusal),
    }
}

/// The step after the controller processor authorized the request.
#[derive(Debug, PartialEq, Eq)]
pub enum ControllerGateCheck {
    /// The request sets parameters only the TUI may set.
    Refused(ControllerNotAllowed),
    /// Ask the state store how many threads the spawn subtree of `thread_id`
    /// holds, and refuse with `reject_controller_descendant_thread_targets`.
    CheckDescendants { method: String, thread_id: String },
    /// Go on to unbind the request's cursors.
    UnbindCursors,
}

/// The method and thread of an archive or delete request.
pub open spec fn descendant_target(shape: ControllerRequestShape) -> Option<(Seq<char>, Seq<char>)> {
    match shape {
        ControllerRequestShape::ThreadArchive { thread_id } => Some(("thread/archive"@, thread_id@)),
        ControllerRequestShape::ThreadDelete { thread_id } => Some(("thread/delete"@, thread_id@)),
        _ => None,
    }
}

/// The checks of an authorized controller request that come before its
/// cursors are unbound.
pub fn after_controller_authorization(request: &ControllerRequestFacts) -> (check: ControllerGateCheck)
    ensures
        sets_tui_only_params(request.shape) ==> (check matches ControllerGateCheck::Refused(refusal)
            && refusal.message@ == tui_only_params_message(request.shape)),
        !sets_tui_only_params(request.shape) ==> match descendant_target(request.shape) {
            Some((method, thread_id)) => check matches ControllerGateCheck::CheckDescendants {
                method: m,
                thread_id: t,
            } && m@ == method && t@ == thread_id,
            None => check is UnbindCursors,
        },
{
    if let Err(refusal) = reject_controller_tui_only_params(&request.shape) {
        return ControllerGateCheck::Refused(refusal);
    }
    proof {
        reveal_strlit("thread/archive");
        reveal_strlit("thread/delete");
    }
    match &request.shape {
        ControllerRequestShape::ThreadArchive { thread_id } => ControllerGateCheck::CheckDescendants {
            method: String::from_str("thread/archive"),
            thread_id: thread_id.clone(),
        },
        ControllerRequestShape::ThreadDelete { thread_id } => ControllerGateCheck::CheckDescendants {
            method: String::from_str("thread/delete"),
            thread_id: thread_id.clone(),
        },
        _ => ControllerGateCheck::UnbindCursors,
    }
}

/// Whether the connection is closed once the response to `method` is sent:
/// a controller signing off.
pub fn disconnect_after_response(method: &str) -> (disconnect: bool)
    ensures
        disconnect == (method@ == "controller/signOff"@),
{
    let chars = chars_of(method);
    let sign_off = chars_of("controller/signOff");
    if chars.len() != sign_off.len() {
        return false;
    }
    let mut i: usize = 0;
    while i < chars.len()
        invariant
            chars@ == method@,
            sign_off@ == "controller/signOff"@,
            chars.len() == sign_off.len(),
            i <= chars.len(),
            forall|j: int| 0 <= j < i ==> chars@[j] == sign_off@[j],
        decreases chars.len() - i,
    {
        if chars[i] != sign_off[i] {
            return false;
        }
        i = i + 1;
    }
    assert(method@ =~= "controller/signOff"@);
    true
}

/// Why an initialized client request is refused before it is queued.
#[derive(Debug, PartialEq, Eq)]
pub enum DispatchRefusal {
    /// The connection has not completed initialization (an invalid request).
    NotInitialized,
    /// The request uses the experimental API for `reason`, which the
    /// connection did not enable (an invalid request).
    ExperimentalApiRequired { reason: String },
    /// An external controller has as many requests queued as it may.
    ControllerOverloaded,
}

/// The checks a client request passes before admission: the connection must
/// be initialized, and a request that needs the experimental API needs a
/// connection that enabled it.
pub fn precheck_initialized_request(
    initialized: bool,
    experimental_reason: Option<String>,
    experimental_api_enabled: bool,
) -> (result: Result<(), DispatchRefusal>)
    ensures
        !initialized ==> result == Err::<(), DispatchRefusal>(DispatchRefusal::NotInitialized),
        initialized ==> match experimental_reason {
            Some(reason) => if experimental_api_enabled {
                result is Ok
            } else {
                result matches Err(DispatchRefusal::ExperimentalApiRequired { reason: r }) && r@
                    == reason@
            },
            None => result is Ok,
        },
{
    if !initialized {
        return Err(DispatchRefusal::NotInitialized);
    }
    match experimental_reason {
        Some(reason) => if experimental_api_enabled {
            Ok(())
        } else {
            Err(DispatchRefusal::ExperimentalApiRequired { reason })
        },
        None => Ok(()),
    }
}

/// How many requests of one external-controller connection may wait for
/// their handler at once.
pub const EXTERNAL_CONTROLLER_RPC_QUEUE_CAPACITY: usize = 128;

/// How many control-plane requests of one external-controller connection
/// may wait at once, counted apart from the others.
pub const EXTERNAL_CONTROLLER_CONTROL_RPC_QUEUE_CAPACITY: usize = 16;

/// An admitted request from an external controller is queued only with a
/// reservation from the connection's bounded controller queue (of
/// `EXTERNAL_CONTROLLER_RPC_QUEUE_CAPACITY` places); `reserved` says whether
/// one was had. Other origins need none.
pub fn require_controller_reservation(origin: ConnectionOrigin, reserved: bool) -> (result: Result<
    (),
    DispatchRefusal,
>)
    ensures
        result == (if origin == ConnectionOrigin::ExternalController && !reserved {
            Err::<(), DispatchRefusal>(DispatchRefusal::ControllerOverloaded)
        } else {
            Ok(())
        }),
{
    if origin == ConnectionOrigin::ExternalController && !reserved {
        Err(DispatchRefusal::ControllerOverloaded)
    } else {
        Ok(())
    }
}

/// The priority of a request in its thread's serialization queue.
#[derive(Clone, Copy, Debug, PartialEq, Eq, Structural)]
pub enum SerializationPriority {
    Primary,
    ExternalController,
}

/// External controllers queue behind the primary clients of the thread.
pub fn serialization_priority(origin: ConnectionOrigin) -> (priority: SerializationPriority)
    ensures
        priority == (if origin == ConnectionOrigin::ExternalController {
            SerializationPriority::ExternalController
        } else {
            SerializationPriority::Primary
        }),
{
    if origin == ConnectionOrigin::ExternalController {
        SerializationPriority::ExternalController
    } else {
        SerializationPriority::Primary
    }
}

} // verus!

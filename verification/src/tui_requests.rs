//! Requests the app server itself sends to the owning TUI (token refresh and
//! attestation), and how their failures read; and what the local-controller
//! acceptor does after a failed accept.

use vstd::prelude::*;
use vstd::string::StringExecFns;

use crate::ids::ConnectionId;
use crate::text::{push_decimal, push_str, spec_decimal};

verus! {

/// How long a token refresh may take before it is given up, in seconds.
pub const EXTERNAL_AUTH_REFRESH_TIMEOUT_SECS: u64 = 10;

/// How long an attestation request may take before it is given up, in
/// milliseconds.
pub const ATTESTATION_GENERATE_TIMEOUT_MS: u64 = 100;

/// Who a server request goes to.
#[derive(Clone, Copy, Debug, PartialEq, Eq, Structural)]
pub enum ServerRequestRecipients {
    /// Only this connection.
    Connection(ConnectionId),
    /// Every connection that takes server requests.
    Broadcast,
}

/// A token refresh goes to the registered TUI when there is one, so that a
/// controller never answers it; otherwise it is broadcast.
pub fn auth_refresh_recipients(tui_connection_id: Option<ConnectionId>) -> (recipients:
    ServerRequestRecipients)
    ensures
        recipients == match tui_connection_id {
            Some(id) => ServerRequestRecipients::Connection(id),
            None => ServerRequestRecipients::Broadcast,
        },
{
    match tui_connection_id {
        Some(id) => ServerRequestRecipients::Connection(id),
        None => ServerRequestRecipients::Broadcast,
    }
}

/// Why a token refresh request failed.
pub enum AuthRefreshFailure {
    /// The request was dropped before an answer came.
    Canceled { error: String },
    /// The TUI answered with an error.
    Failed { code: i64, message: String },
    /// No answer came in time.
    TimedOut,
}

/// The decimal rendering of a signed integer.
pub open spec fn signed_decimal(n: int) -> Seq<char> {
    if n < 0 {
        seq!['-'] + spec_decimal((-n) as nat)
    } else {
        spec_decimal(n as nat)
    }
}

pub open spec fn auth_refresh_failure_text(failure: AuthRefreshFailure) -> Seq<char> {
    match failure {
        AuthRefreshFailure::Canceled { error } => "auth refresh request canceled: "@ + error@,
        AuthRefreshFailure::Failed { code, message } => "auth refresh request failed: code="@
            + signed_decimal(code as int) + " message="@ + message@,
        AuthRefreshFailure::TimedOut => "auth refresh request timed out after "@ + spec_decimal(
            EXTERNAL_AUTH_REFRESH_TIMEOUT_SECS as nat,
        ) + "s"@,
    }
}

/// Appends the decimal rendering of a signed integer.
fn push_signed_decimal(text: &mut String, n: i64)
    ensures
        final(text)@ == old(text)@ + signed_decimal(n as int),
{
    if n < 0 {
        crate::text::push_char(text, '-');
        let magnitude: u64 = if n == i64::MIN {
            9223372036854775808u64
        } else {
            (-n) as u64
        };
        push_decimal(text, magnitude);
    } else {
        push_decimal(text, n as u64);
    }
    proof {
        assert(text@ =~= old(text)@ + signed_decimal(n as int));
    }
}

/// The error message of a failed token refresh.
pub fn auth_refresh_failure_message(failure: &AuthRefreshFailure) -> (message: String)
    ensures
        message@ == auth_refresh_failure_text(*failure),
{
    match failure {
        AuthRefreshFailure::Canceled { error } => {
            let mut text = String::from_str("auth refresh request canceled: ");
            push_str(&mut text, error.as_str());
            text
        },
        AuthRefreshFailure::Failed { code, message } => {
            let mut text = String::from_str("auth refresh request failed: code=");
            push_signed_decimal(&mut text, *code);
            push_str(&mut text, " message=");
            push_str(&mut text, message.as_str());
            text
        },
        AuthRefreshFailure::TimedOut => {
            let mut text = String::from_str("auth refresh request timed out after ");
            push_decimal(&mut text, EXTERNAL_AUTH_REFRESH_TIMEOUT_SECS);
            push_str(&mut text, "s");
            text
        },
    }
}

/// The kind of a failed accept on the local-controller socket.
#[derive(Clone, Copy, Debug, PartialEq, Eq, Structural)]
pub enum AcceptErrorKind {
    ConnectionAborted,
    ConnectionReset,
    Interrupted,
    Other,
}

/// Aborted, reset and interrupted accepts concern one peer only and the
/// acceptor goes on; any other failure stops it and is reported.
pub fn accept_error_is_recoverable(kind: AcceptErrorKind) -> (recoverable: bool)
    ensures
        recoverable == !(kind is Other),
{
    match kind {
        AcceptErrorKind::Other => false,
        _ => true,
    }
}

} // verus!

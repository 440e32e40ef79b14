//! The attestation header the app server attaches to model requests: a small
//! JSON envelope with a version, a status code and, on success, the opaque
//! token the owning client produced.

use vstd::prelude::*;

use crate::cursor_codec::{json_escape, push_json_escaped};
use crate::text::{push_char, push_str, spec_decimal};

verus! {

/// How an attestation request to the owning client ended.
#[derive(Clone, Copy, Debug, PartialEq, Eq, Structural)]
pub enum AppServerAttestationStatus {
    Attested,
    Timeout,
    RequestFailed,
    RequestCanceled,
    MalformedResponse,
}

pub open spec fn status_code(status: AppServerAttestationStatus) -> u8 {
    match status {
        AppServerAttestationStatus::Attested => 0,
        AppServerAttestationStatus::Timeout => 1,
        AppServerAttestationStatus::RequestFailed => 2,
        AppServerAttestationStatus::RequestCanceled => 3,
        AppServerAttestationStatus::MalformedResponse => 4,
    }
}

impl AppServerAttestationStatus {
    /// The status code carried in the envelope.
    pub fn code(self) -> (code: u8)
        ensures
            code == status_code(self),
    {
        match self {
            AppServerAttestationStatus::Attested => 0,
            AppServerAttestationStatus::Timeout => 1,
            AppServerAttestationStatus::RequestFailed => 2,
            AppServerAttestationStatus::RequestCanceled => 3,
            AppServerAttestationStatus::MalformedResponse => 4,
        }
    }
}

/// The envelope text: `{"v":1,"s":<code>}`, with `,"t":"<token>"` before
/// the closing brace when there is a token.
pub open spec fn attestation_envelope(status: AppServerAttestationStatus, token: Option<Seq<char>>) -> Seq<
    char,
> {
    "{\"v\":1,\"s\":"@ + spec_decimal(status_code(status) as nat) + match token {
        Some(t) => ",\"t\":\""@ + json_escape(t) + seq!['"', '}'],
        None => seq!['}'],
    }
}

pub open spec fn option_str(token: Option<&str>) -> Option<Seq<char>> {
    match token {
        Some(t) => Some(t@),
        None => None,
    }
}

/// The attestation header value for an outcome.
pub fn app_server_attestation_header_value(
    status: AppServerAttestationStatus,
    token: Option<&str>,
) -> (value: Option<String>)
    ensures
        value is Some,
        value->Some_0@ == attestation_envelope(status, option_str(token)),
{
    let mut text = String::new();
    push_str(&mut text, "{\"v\":1,\"s\":");
    crate::text::push_decimal(&mut text, status.code() as u64);
    match token {
        Some(t) => {
            push_str(&mut text, ",\"t\":\"");
            push_json_escaped(&mut text, t);
            push_char(&mut text, '"');
            push_char(&mut text, '}');
        },
        None => {
            push_char(&mut text, '}');
        },
    }
    proof {
        assert(text@ =~= attestation_envelope(status, option_str(token)));
    }
    Some(text)
}

/// What came back from the owning client for an attestation request.
pub enum AttestationReply {
    /// The client answered with a token.
    Token(String),
    /// The client's answer could not be read as a token.
    Malformed,
    /// The client answered with an error.
    Failed,
    /// The request was dropped before an answer came.
    Canceled,
    /// No answer came in time.
    TimedOut,
}

pub open spec fn reply_status(reply: AttestationReply) -> AppServerAttestationStatus {
    match reply {
        AttestationReply::Token(_) => AppServerAttestationStatus::Attested,
        AttestationReply::Malformed => AppServerAttestationStatus::MalformedResponse,
        AttestationReply::Failed => AppServerAttestationStatus::RequestFailed,
        AttestationReply::Canceled => AppServerAttestationStatus::RequestCanceled,
        AttestationReply::TimedOut => AppServerAttestationStatus::Timeout,
    }
}

/// The header value for a reply: the token with status 0, or the status of
/// the failure without a token.
pub fn attestation_header_for_reply(reply: AttestationReply) -> (value: Option<String>)
    ensures
        value is Some,
        value->Some_0@ == attestation_envelope(
            reply_status(reply),
            match reply {
                AttestationReply::Token(t) => Some(t@),
                _ => None,
            },
        ),
{
    match reply {
        AttestationReply::Token(token) => app_server_attestation_header_value(
            AppServerAttestationStatus::Attested,
            Some(token.as_str()),
        ),
        AttestationReply::Malformed => app_server_attestation_header_value(
            AppServerAttestationStatus::MalformedResponse,
            None,
        ),
        AttestationReply::Failed => app_server_attestation_header_value(
            AppServerAttestationStatus::RequestFailed,
            None,
        ),
        AttestationReply::Canceled => app_server_attestation_header_value(
            AppServerAttestationStatus::RequestCanceled,
            None,
        ),
        AttestationReply::TimedOut => app_server_attestation_header_value(
            AppServerAttestationStatus::Timeout,
            None,
        ),
    }
}

} // verus!

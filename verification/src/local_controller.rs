//! Rules of the local-controller endpoint: which platforms may expose it,
//! how launch ids name its files, who may connect, and the launch nonce a
//! connecting controller must present.

use base64::Engine;
use rand::RngCore;
use std::time::{SystemTime, UNIX_EPOCH};
use vstd::prelude::*;
use vstd::string::StringExecFns;

use crate::ids::fresh_uuid_text;
use crate::text::{chars_of, push_str, same_text};

verus! {

pub const LOCAL_CONTROLLER_METADATA_VERSION: u32 = 1;

pub const LOCAL_CONTROLLER_PROTOCOL_VERSION: u32 = 1;

pub const LOCAL_CONTROLLER_LAUNCH_NONCE_HEADER: &'static str = "X-Codex-Launch-Nonce";

/// Whether the current platform can expose a secure local-controller
/// endpoint.
#[derive(Clone, Copy, Debug, PartialEq, Eq, Structural)]
pub enum LocalControllerEndpointSupport {
    Available,
    Unavailable { reason: LocalControllerUnavailableReason },
}

/// Why a local-controller endpoint cannot be exposed on this platform.
#[derive(Clone, Copy, Debug, PartialEq, Eq, Structural)]
pub enum LocalControllerUnavailableReason {
    PeerCredentialsUnavailable,
}

pub open spec fn unavailable_message(reason: LocalControllerUnavailableReason) -> Seq<char> {
    match reason {
        LocalControllerUnavailableReason::PeerCredentialsUnavailable => "local-controller endpoint is unavailable because peer credential verification is unsupported on this platform"@,
    }
}

impl LocalControllerUnavailableReason {
    /// The explanation given to the user.
    pub fn message(self) -> (message: String)
        ensures
            message@ == unavailable_message(self),
    {
        match self {
            LocalControllerUnavailableReason::PeerCredentialsUnavailable => String::from_str(
                "local-controller endpoint is unavailable because peer credential verification is unsupported on this platform",
            ),
        }
    }
}

/// Whether `c` separates path components on this platform, from
/// `std::path::is_separator`.
/// Trusted: nothing is claimed, as the answer depends on the platform the
/// library was built for.
#[verifier::external_body]
fn is_path_separator(c: char) -> (separator: bool) {
    std::path::is_separator(c)
}

/// The endpoint support of a platform: peer credentials are verified on
/// Unix-like platforms, whose paths are separated by `/` alone; where a
/// backslash also separates paths (Windows) they are not.
pub fn endpoint_support_for_platform(backslash_separates_paths: bool) -> (support:
    LocalControllerEndpointSupport)
    ensures
        support == (if backslash_separates_paths {
            LocalControllerEndpointSupport::Unavailable {
                reason: LocalControllerUnavailableReason::PeerCredentialsUnavailable,
            }
        } else {
            LocalControllerEndpointSupport::Available
        }),
{
    if backslash_separates_paths {
        LocalControllerEndpointSupport::Unavailable {
            reason: LocalControllerUnavailableReason::PeerCredentialsUnavailable,
        }
    } else {
        LocalControllerEndpointSupport::Available
    }
}

/// Whether the platform this library was built for can expose the endpoint;
/// see `endpoint_support_for_platform`.
pub fn local_controller_endpoint_support() -> (support: LocalControllerEndpointSupport)
    ensures
        support is Available || support == (LocalControllerEndpointSupport::Unavailable {
            reason: LocalControllerUnavailableReason::PeerCredentialsUnavailable,
        }),
{
    endpoint_support_for_platform(is_path_separator('\\'))
}

/// The kind of a local-controller failure, as `std::io::ErrorKind` names it.
#[derive(Clone, Copy, Debug, PartialEq, Eq, Structural)]
pub enum LocalControllerErrorKind {
    Unsupported,
    PermissionDenied,
    InvalidInput,
    AlreadyExists,
    BrokenPipe,
}

/// A local-controller failure with its message.
#[derive(Debug, PartialEq, Eq)]
pub struct LocalControllerError {
    pub kind: LocalControllerErrorKind,
    pub message: String,
}

/// The error for an endpoint the platform cannot expose.
pub fn local_controller_unavailable_error(reason: LocalControllerUnavailableReason) -> (error:
    LocalControllerError)
    ensures
        error.kind == LocalControllerErrorKind::Unsupported,
        error.message@ == unavailable_message(reason),
{
    LocalControllerError { kind: LocalControllerErrorKind::Unsupported, message: reason.message() }
}

/// Refuses to go on where the platform cannot expose the endpoint, before
/// anything is bound or written.
pub fn ensure_local_controller_endpoint_available(support: LocalControllerEndpointSupport) -> (result:
    Result<(), LocalControllerError>)
    ensures
        match support {
            LocalControllerEndpointSupport::Available => result is Ok,
            LocalControllerEndpointSupport::Unavailable { reason } => result is Err
                && result->Err_0.kind == LocalControllerErrorKind::Unsupported
                && result->Err_0.message@ == unavailable_message(reason),
        },
{
    match support {
        LocalControllerEndpointSupport::Available => Ok(()),
        LocalControllerEndpointSupport::Unavailable { reason } => Err(
            local_controller_unavailable_error(reason),
        ),
    }
}

// ---------------------------------------------------------------------------
// Launch ids and the file names they give.

pub open spec fn is_launch_id_char(c: char) -> bool {
    ('a' <= c && c <= 'z') || ('A' <= c && c <= 'Z') || ('0' <= c && c <= '9') || c == '-' || c
        == '_'
}

/// A launch id is a non-empty run of ASCII letters, digits, `-` and `_`.
pub open spec fn is_valid_launch_id(launch_id: Seq<char>) -> bool {
    launch_id.len() > 0 && forall|i: int| 0 <= i < launch_id.len() ==> is_launch_id_char(
        #[trigger] launch_id[i],
    )
}

pub open spec fn invalid_launch_id_message() -> Seq<char> {
    "local-controller launch ID must contain only ASCII alphanumeric, '-' or '_' characters"@
}

/// Accepts exactly the valid launch ids.
pub fn validate_launch_id(launch_id: &str) -> (result: Result<(), LocalControllerError>)
    ensures
        result is Ok <==> is_valid_launch_id(launch_id@),
        result is Err ==> result->Err_0.kind == LocalControllerErrorKind::InvalidInput
            && result->Err_0.message@ == invalid_launch_id_message(),
{
    let chars = chars_of(launch_id);
    let mut valid = chars.len() > 0;
    let mut i: usize = 0;
    while i < chars.len()
        invariant
            chars@ == launch_id@,
            i <= chars@.len(),
            valid == (chars@.len() > 0 && forall|k: int| 0 <= k < i ==> is_launch_id_char(chars@[k])),
        decreases chars@.len() - i,
    {
        let c = chars[i];
        let ok = ('a' <= c && c <= 'z') || ('A' <= c && c <= 'Z') || ('0' <= c && c <= '9') || c
            == '-' || c == '_';
        valid = valid && ok;
        i += 1;
    }
    if valid {
        Ok(())
    } else {
        Err(
            LocalControllerError {
                kind: LocalControllerErrorKind::InvalidInput,
                message: String::from_str(
                    "local-controller launch ID must contain only ASCII alphanumeric, '-' or '_' characters",
                ),
            },
        )
    }
}

pub open spec fn metadata_file_name(launch_id: Seq<char>) -> Seq<char> {
    "launch-"@ + launch_id + ".json"@
}

pub open spec fn socket_file_name(launch_id: Seq<char>) -> Seq<char> {
    "codex-"@ + launch_id + ".sock"@
}

/// The names, inside the local-controller directory, of a launch's metadata
/// file and socket.
pub struct LocalControllerEndpointFileNames {
    pub metadata_file_name: String,
    pub socket_file_name: String,
}

/// The directory, under the Codex home, that holds the endpoint files.
pub fn local_controller_directory_name() -> (name: &'static str)
    ensures
        name@ == "local-controllers"@,
{
    "local-controllers"
}

/// The file names of a launch, for a valid launch id.
pub fn local_controller_endpoint_file_names(launch_id: &str) -> (result: Result<
    LocalControllerEndpointFileNames,
    LocalControllerError,
>)
    ensures
        result is Ok <==> is_valid_launch_id(launch_id@),
        result matches Ok(names) ==> names.metadata_file_name@ == metadata_file_name(launch_id@)
            && names.socket_file_name@ == socket_file_name(launch_id@),
        result matches Err(error) ==> error.kind == LocalControllerErrorKind::InvalidInput
            && error.message@ == invalid_launch_id_message(),
{
    validate_launch_id(launch_id)?;
    let mut metadata = String::from_str("launch-");
    push_str(&mut metadata, launch_id);
    push_str(&mut metadata, ".json");
    let mut socket = String::from_str("codex-");
    push_str(&mut socket, launch_id);
    push_str(&mut socket, ".sock");
    Ok(LocalControllerEndpointFileNames { metadata_file_name: metadata, socket_file_name: socket })
}

/// The launch whose metadata file is named `file_name`, if it names one:
/// stale-endpoint cleanup looks only at such files.
pub fn launch_id_from_metadata_file_name(file_name: &str) -> (launch_id: Option<String>)
    ensures
        match launch_id {
            Some(id) => is_valid_launch_id(id@) && file_name@ == metadata_file_name(id@),
            None => forall|id: Seq<char>|
                is_valid_launch_id(id) ==> file_name@ != #[trigger] metadata_file_name(id),
        },
{
    proof {
        reveal_strlit("launch-");
        reveal_strlit(".json");
    }
    let chars = chars_of(file_name);
    let n = chars.len();
    if n < 12 {
        proof {
            assert forall|id: Seq<char>| is_valid_launch_id(id) implies file_name@
                != #[trigger] metadata_file_name(id) by {
                assert(metadata_file_name(id).len() == id.len() + 12);
            }
        }
        return None;
    }
    let prefix_ok = chars[0] == 'l' && chars[1] == 'a' && chars[2] == 'u' && chars[3] == 'n'
        && chars[4] == 'c' && chars[5] == 'h' && chars[6] == '-';
    let suffix_ok = chars[n - 5] == '.' && chars[n - 4] == 'j' && chars[n - 3] == 's' && chars[n
        - 2] == 'o' && chars[n - 1] == 'n';
    let mut id = String::new();
    let mut i: usize = 7;
    while i < n - 5
        invariant
            chars@ == file_name@,
            n == chars@.len(),
            n >= 12,
            7 <= i <= n - 5,
            id@ == chars@.subrange(7, i as int),
        decreases n - 5 - i,
    {
        crate::text::push_char(&mut id, chars[i]);
        i += 1;
        proof {
            assert(id@ =~= chars@.subrange(7, i as int));
        }
    }
    let valid = validate_launch_id(id.as_str());
    proof {
        assert(id@ =~= chars@.subrange(7, n - 5));
    }
    if prefix_ok && suffix_ok && valid.is_ok() {
        proof {
            assert(file_name@ =~= metadata_file_name(id@));
        }
        Some(id)
    } else {
        proof {
            assert forall|other: Seq<char>| is_valid_launch_id(other) implies file_name@
                != #[trigger] metadata_file_name(other) by {
                if file_name@ == metadata_file_name(other) {
                    let t = metadata_file_name(other);
                    assert(t.len() == other.len() + 12);
                    assert(t[0] == 'l' && t[1] == 'a' && t[2] == 'u' && t[3] == 'n');
                    assert(t[4] == 'c' && t[5] == 'h' && t[6] == '-');
                    assert(t[n - 5] == '.' && t[n - 4] == 'j' && t[n - 3] == 's');
                    assert(t[n - 2] == 'o' && t[n - 1] == 'n');
                    assert(other =~= t.subrange(7, n - 5));
                }
            }
        }
        None
    }
}

/// Distinct launches never share a metadata file or a socket.
pub proof fn law_launch_file_names_are_distinct(a: Seq<char>, b: Seq<char>)
    ensures
        metadata_file_name(a) == metadata_file_name(b) ==> a == b,
        socket_file_name(a) == socket_file_name(b) ==> a == b,
{
    reveal_strlit("launch-");
    reveal_strlit(".json");
    reveal_strlit("codex-");
    reveal_strlit(".sock");
    if metadata_file_name(a) == metadata_file_name(b) {
        let t = metadata_file_name(a);
        assert(a =~= t.subrange(7, t.len() - 5));
        assert(b =~= metadata_file_name(b).subrange(7, t.len() - 5));
    }
    if socket_file_name(a) == socket_file_name(b) {
        let t = socket_file_name(a);
        assert(a =~= t.subrange(6, t.len() - 5));
        assert(b =~= socket_file_name(b).subrange(6, t.len() - 5));
    }
}

// ---------------------------------------------------------------------------
// Endpoint metadata.

/// What a launch publishes about its endpoint.
#[derive(Debug, PartialEq, Eq)]
pub struct LocalControllerEndpointMetadata {
    pub version: u32,
    pub launch_id: String,
    pub launch_nonce: String,
    pub endpoint_uri: String,
    pub process_id: u32,
    pub created_at: i64,
    pub protocol_version: u32,
    pub main_thread_id: Option<String>,
}

impl LocalControllerEndpointMetadata {
    /// The metadata of a launch whose socket lives at `socket_path`.
    pub fn for_launch(
        launch_id: String,
        launch_nonce: String,
        socket_path: &str,
        process_id: u32,
        created_at: i64,
        main_thread_id: Option<String>,
    ) -> (metadata: LocalControllerEndpointMetadata)
        ensures
            metadata.version == LOCAL_CONTROLLER_METADATA_VERSION,
            metadata.protocol_version == LOCAL_CONTROLLER_PROTOCOL_VERSION,
            metadata.launch_id == launch_id,
            metadata.launch_nonce == launch_nonce,
            metadata.endpoint_uri@ == "unix://"@ + socket_path@,
            metadata.process_id == process_id,
            metadata.created_at == created_at,
            metadata.main_thread_id == main_thread_id,
    {
        let mut endpoint_uri = String::from_str("unix://");
        push_str(&mut endpoint_uri, socket_path);
        LocalControllerEndpointMetadata {
            version: LOCAL_CONTROLLER_METADATA_VERSION,
            launch_id,
            launch_nonce,
            endpoint_uri,
            process_id,
            created_at,
            protocol_version: LOCAL_CONTROLLER_PROTOCOL_VERSION,
            main_thread_id,
        }
    }

    /// Whether this metadata was published by the launch with `launch_id`
    /// and `launch_nonce`; only then may that launch replace or remove it.
    pub fn is_owned_by(&self, launch_id: &str, launch_nonce: &str) -> (owned: bool)
        ensures
            owned == (self.launch_id@ == launch_id@ && self.launch_nonce@ == launch_nonce@),
    {
        crate::text::same_text(self.launch_id.as_str(), launch_id)
            && crate::text::same_text(self.launch_nonce.as_str(), launch_nonce)
    }
}

/// A fresh launch id: a version-7 UUID, which is always a valid launch id.
pub fn fresh_launch_id() -> (launch_id: String)
    ensures
        is_valid_launch_id(launch_id@),
        launch_id@.len() == 36,
{
    let launch_id = fresh_uuid_text();
    proof {
        assert forall|i: int| 0 <= i < launch_id@.len() implies is_launch_id_char(
            #[trigger] launch_id@[i],
        ) by {
            assert(crate::ids::is_uuid_text_char(launch_id@[i]));
        }
    }
    launch_id
}

/// The character of a six-bit value in the URL-safe base64 alphabet.
pub open spec fn base64_url_char(v: int) -> char {
    if v < 26 {
        (v + 65) as char
    } else if v < 52 {
        (v - 26 + 97) as char
    } else if v < 62 {
        (v - 52 + 48) as char
    } else if v == 62 {
        '-'
    } else {
        '_'
    }
}

/// URL-safe base64 of `bytes` without padding: each three bytes become four
/// characters of six bits each, most significant first; a final one or two
/// bytes become two or three characters, their last bits zero.
pub open spec fn spec_base64_url_no_pad(bytes: Seq<u8>) -> Seq<char>
    decreases bytes.len(),
{
    let b0 = bytes[0] as int;
    let b1 = bytes[1] as int;
    let b2 = bytes[2] as int;
    if bytes.len() == 0 {
        Seq::empty()
    } else if bytes.len() == 1 {
        seq![base64_url_char(b0 / 4), base64_url_char((b0 % 4) * 16)]
    } else if bytes.len() == 2 {
        seq![
            base64_url_char(b0 / 4),
            base64_url_char((b0 % 4) * 16 + b1 / 16),
            base64_url_char((b1 % 16) * 4),
        ]
    } else {
        seq![
            base64_url_char(b0 / 4),
            base64_url_char((b0 % 4) * 16 + b1 / 16),
            base64_url_char((b1 % 16) * 4 + b2 / 64),
            base64_url_char(b2 % 64),
        ] + spec_base64_url_no_pad(bytes.subrange(3, bytes.len() as int))
    }
}

/// Encodes `bytes` with `base64::engine::general_purpose::URL_SAFE_NO_PAD`.
/// Trusted: the result is URL-safe base64 of the bytes without padding
/// (`spec_base64_url_no_pad`); lengths that would overflow the encoded size,
/// on which `encode` panics, are left out.
#[verifier::external_body]
fn base64_url_no_pad(bytes: &[u8]) -> (text: String)
    requires
        bytes@.len() < usize::MAX / 4,
    ensures
        text@ == spec_base64_url_no_pad(bytes@),
{
    base64::engine::general_purpose::URL_SAFE_NO_PAD.encode(bytes)
}

/// Thirty-two bytes from `rand::rng().fill_bytes`.
/// Trusted: the result has the length of the array that was filled; nothing
/// is claimed of its bytes.
#[verifier::external_body]
fn random_nonce_bytes() -> (bytes: Vec<u8>)
    ensures
        bytes@.len() == 32,
{
    let mut bytes = [0u8; 32];
    rand::rng().fill_bytes(&mut bytes);
    bytes.to_vec()
}

/// A fresh launch nonce: thirty-two random bytes in unpadded URL-safe
/// base64.
pub fn fresh_launch_nonce() -> (nonce: String)
    ensures
        exists|bytes: Seq<u8>| bytes.len() == 32 && nonce@ == spec_base64_url_no_pad(bytes),
{
    let bytes = random_nonce_bytes();
    base64_url_no_pad(bytes.as_slice())
}

/// Seconds since the Unix epoch, from `SystemTime::now().duration_since`.
/// Trusted: nothing is claimed of the reading; `None` when the clock is
/// before the epoch.
#[verifier::external_body]
fn seconds_since_unix_epoch() -> (seconds: Option<u64>) {
    SystemTime::now().duration_since(UNIX_EPOCH).ok().map(|duration| duration.as_secs())
}

/// Seconds since the Unix epoch as an `i64`: clamped to `i64::MAX`, and 0
/// when the clock reads before the epoch.
pub fn unix_seconds_as_i64(seconds: Option<u64>) -> (value: i64)
    ensures
        value == match seconds {
            Some(s) => if s <= i64::MAX as u64 {
                s as i64
            } else {
                i64::MAX
            },
            None => 0,
        },
{
    match seconds {
        Some(s) => if s <= i64::MAX as u64 {
            s as i64
        } else {
            i64::MAX
        },
        None => 0,
    }
}

/// The current time in seconds since the Unix epoch, for metadata.
pub fn now_unix_seconds() -> (value: i64)
    ensures
        value >= 0,
{
    unix_seconds_as_i64(seconds_since_unix_epoch())
}

/// Whether a process id can be probed for liveness: zero and ids beyond
/// `i32::MAX` name no process that can be signalled, so they count as gone.
pub fn process_id_is_probeable(process_id: u32) -> (probeable: bool)
    ensures
        probeable == (process_id != 0 && process_id <= i32::MAX as u32),
{
    process_id != 0 && process_id <= i32::MAX as u32
}

/// What an existence probe (`kill` with signal 0) says: the process may be
/// running unless the probe failed with "no such process" (`ESRCH`, 3).
pub fn probe_reports_running(kill_status: i32, os_error: Option<i32>) -> (running: bool)
    ensures
        running == (kill_status == 0 || os_error != Some(3i32)),
{
    if kill_status == 0 {
        return true;
    }
    match os_error {
        Some(code) => code != 3,
        None => true,
    }
}

// ---------------------------------------------------------------------------
// Who may connect.

/// Why the acceptor stopped.
#[derive(Debug, PartialEq, Eq)]
pub struct LocalControllerEndpointFailure {
    pub reason: String,
}

/// The failure reported when accepting a connection fails for good.
pub fn acceptor_failure(error: &str) -> (failure: LocalControllerEndpointFailure)
    ensures
        failure.reason@ == "local-controller socket accept error: "@ + error@,
{
    let mut reason = String::from_str("local-controller socket accept error: ");
    push_str(&mut reason, error);
    LocalControllerEndpointFailure { reason }
}

/// The credentials the socket reports for a connected peer.
#[derive(Clone, Copy, Debug, PartialEq, Eq, Structural)]
pub struct PeerCredentials {
    pub user_id: u32,
}

/// Admits a peer only if its credentials are known and belong to the user
/// running this process.
pub fn verify_peer_credentials(
    credentials: Result<PeerCredentials, String>,
    current_user_id: u32,
) -> (result: Result<(), LocalControllerError>)
    ensures
        result is Ok <==> (credentials matches Ok(c) && c.user_id == current_user_id),
        result is Err ==> result->Err_0.kind == LocalControllerErrorKind::PermissionDenied,
        credentials matches Err(e) ==> result is Err && result->Err_0.message@
            == "missing local-controller peer credentials: "@ + e@,
        credentials matches Ok(c) && c.user_id != current_user_id ==> result is Err
            && result->Err_0.message@ == "local-controller peer belongs to a different user"@,
{
    match credentials {
        Err(e) => {
            let mut message = String::from_str("missing local-controller peer credentials: ");
            push_str(&mut message, e.as_str());
            Err(LocalControllerError { kind: LocalControllerErrorKind::PermissionDenied, message })
        },
        Ok(c) => if c.user_id == current_user_id {
            Ok(())
        } else {
            Err(
                LocalControllerError {
                    kind: LocalControllerErrorKind::PermissionDenied,
                    message: String::from_str("local-controller peer belongs to a different user"),
                },
            )
        },
    }
}

/// The launch-nonce header of an upgrade request, as the HTTP layer reports
/// it.
pub enum LaunchNonceHeader {
    Missing,
    /// The header holds bytes that are not visible ASCII.
    NotText,
    Text(String),
}

/// Refusal of a WebSocket upgrade.
#[derive(Debug, PartialEq, Eq)]
pub struct UpgradeRejection {
    pub status: u16,
    pub message: String,
}

/// Compares two byte strings with `constant_time_eq::constant_time_eq`.
/// Trusted: the result is whether the byte strings are equal; the crate
/// compares lengths, then every byte, without early exit.
#[verifier::external_body]
fn bytes_equal_in_constant_time(a: &[u8], b: &[u8]) -> (equal: bool)
    ensures
        equal == (a@ == b@),
{
    constant_time_eq::constant_time_eq(a, b)
}

/// Admits a WebSocket upgrade only when it carries this launch's nonce,
/// compared in constant time; otherwise answers 401.
pub fn authorize_local_controller_upgrade(header: &LaunchNonceHeader, launch_nonce: &str) -> (result:
    Result<(), UpgradeRejection>)
    ensures
        result is Ok <==> (header matches LaunchNonceHeader::Text(value)
            && value@ == launch_nonce@),
        result is Err ==> result->Err_0.status == 401,
        header is Missing ==> result is Err && result->Err_0.message@ == "missing launch nonce"@,
        !(header is Missing) && result is Err ==> result->Err_0.message@
            == "invalid launch nonce"@,
{
    match header {
        LaunchNonceHeader::Missing => Err(
            UpgradeRejection { status: 401, message: String::from_str("missing launch nonce") },
        ),
        LaunchNonceHeader::NotText => Err(
            UpgradeRejection { status: 401, message: String::from_str("invalid launch nonce") },
        ),
        LaunchNonceHeader::Text(value) => {
            proof {
                vstd::utf8::encode_utf8_decode_utf8(value@);
                vstd::utf8::encode_utf8_decode_utf8(launch_nonce@);
            }
            if bytes_equal_in_constant_time(value.as_str().as_bytes(), launch_nonce.as_bytes()) {
                Ok(())
            } else {
                Err(
                    UpgradeRejection {
                        status: 401,
                        message: String::from_str("invalid launch nonce"),
                    },
                )
            }
        },
    }
}

/// What publishing the main thread id into a launch's metadata comes to.
#[derive(Clone, Copy, Debug, PartialEq, Eq, Structural)]
pub enum MainThreadPublication {
    /// The metadata already names a main thread: it is published once only.
    AlreadyPublished,
    /// Write the metadata again with the main thread id.
    Publish,
}

pub open spec fn acceptor_closed_message() -> Seq<char> {
    "local-controller endpoint acceptor is closed"@
}

/// Whether to publish the main thread id of an endpoint whose metadata is
/// `metadata`: never twice, and not once the endpoint's acceptor has
/// stopped, which is refused as a broken pipe.
pub fn main_thread_publication(metadata: &LocalControllerEndpointMetadata, acceptor_finished: bool) -> (result:
    Result<MainThreadPublication, LocalControllerError>)
    ensures
        metadata.main_thread_id is Some ==> result == Ok::<
            MainThreadPublication,
            LocalControllerError,
        >(MainThreadPublication::AlreadyPublished),
        metadata.main_thread_id is None && acceptor_finished ==> (result matches Err(error)
            && error.kind == LocalControllerErrorKind::BrokenPipe && error.message@
            == acceptor_closed_message()),
        metadata.main_thread_id is None && !acceptor_finished ==> result == Ok::<
            MainThreadPublication,
            LocalControllerError,
        >(MainThreadPublication::Publish),
{
    if metadata.main_thread_id.is_some() {
        return Ok(MainThreadPublication::AlreadyPublished);
    }
    if acceptor_finished {
        proof {
            reveal_strlit("local-controller endpoint acceptor is closed");
        }
        return Err(
            LocalControllerError {
                kind: LocalControllerErrorKind::BrokenPipe,
                message: String::from_str("local-controller endpoint acceptor is closed"),
            },
        );
    }
    Ok(MainThreadPublication::Publish)
}

/// Whether a metadata entry met while pruning is stale and may be removed:
/// it records the launch that its file name names, and that launch's
/// process is gone.
pub fn stale_entry_is_removable(
    recorded_launch_id: &str,
    file_launch_id: &str,
    process_may_be_running: bool,
) -> (removable: bool)
    ensures
        removable == (recorded_launch_id@ == file_launch_id@ && !process_may_be_running),
{
    !process_may_be_running && same_text(recorded_launch_id, file_launch_id)
}

} // verus!

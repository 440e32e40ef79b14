use std::collections::HashMap;

use codex_controller::clock::ControllerSessionClock;
use codex_controller::enrollment::{
    ControllerCredentialProof, ControllerDisplayClaims, ControllerEnrollmentError,
    ControllerEnrollmentPolicy, ControllerEnrollmentRecord, ControllerEnrollmentSource,
    ControllerEnrollmentVerifier, ControllerParticipationEvidence,
    EmptyControllerEnrollmentSource, EnrollmentRecordModel,
};
use codex_controller::ids::{ConnectionId, ThreadId};
use codex_controller::session::ControllerEnrollmentGrant;

const NOW_MS: u64 = 1_000;

#[derive(Default)]
struct MemoryEnrollmentSource {
    records: HashMap<String, ControllerEnrollmentRecord>,
}

impl MemoryEnrollmentSource {
    fn with_record(record: ControllerEnrollmentRecord) -> Self {
        Self {
            records: HashMap::from([(record.subject_id.clone(), record)]),
        }
    }
}

impl ControllerEnrollmentSource for MemoryEnrollmentSource {
    // The record model of a subject exists for the verifier only; nothing
    // calls it when the tests run.
    fn spec_enrollment_for(&self, _subject_id: vstd::seq::Seq<char>) -> Option<EnrollmentRecordModel> {
        unreachable!("model of the records, not called at run time")
    }

    fn enrollment_for(&self, subject_id: &str) -> Option<ControllerEnrollmentRecord> {
        self.records.get(subject_id).cloned()
    }
}

#[test]
fn valid_durable_record_returns_connection_bound_grant() {
    let main_thread_id = thread_id(1);
    let connection_id = connection_id(10);
    let record = record(NOW_MS, main_thread_id);
    let verifier = make_verifier(
        MemoryEnrollmentSource::with_record(record.clone()),
        ControllerEnrollmentPolicy::BestEffort,
        NOW_MS,
    );

    let grant = verifier
        .verify(connection_id, main_thread_id, evidence(connection_id))
        .expect("valid durable record should verify");

    assert_eq!(
        grant,
        ControllerEnrollmentGrant {
            subject_id: record.subject_id,
            main_thread_id,
            authorization_epoch: record.authorization_epoch,
            authorization_expires_at: record.expires_at,
        }
    );
}

#[test]
fn display_claims_never_satisfy_authorization() {
    let main_thread_id = thread_id(1);
    let verifier = make_verifier(
        MemoryEnrollmentSource::default(),
        ControllerEnrollmentPolicy::BestEffort,
        NOW_MS,
    );

    let error = verifier
        .verify(
            connection_id(10),
            main_thread_id,
            ControllerParticipationEvidence {
                display_claims: display_claims(),
                credential_proof: None,
            },
        )
        .expect_err("display claims without credential proof should not authorize");

    assert_eq!(error, ControllerEnrollmentError::CredentialProofRequired);
}

#[test]
fn policy_disabled_and_required_missing_records_are_explicit() {
    let main_thread_id = thread_id(1);
    let disabled = make_verifier(
        MemoryEnrollmentSource::with_record(record(NOW_MS, main_thread_id)),
        ControllerEnrollmentPolicy::Disabled,
        NOW_MS,
    );
    let required = make_verifier(
        MemoryEnrollmentSource::default(),
        ControllerEnrollmentPolicy::Required,
        NOW_MS,
    );

    assert_eq!(
        disabled.verify(connection_id(10), main_thread_id, evidence(connection_id(10))),
        Err(ControllerEnrollmentError::PolicyDisabled)
    );
    assert_eq!(
        required.verify(connection_id(10), main_thread_id, evidence(connection_id(10))),
        Err(ControllerEnrollmentError::RequiredEnrollmentMissing)
    );
}

#[test]
fn expiry_rotation_and_revocation_reject_existing_records() {
    let main_thread_id = thread_id(1);
    let connection_id = connection_id(10);

    let mut expired_record = record(NOW_MS, main_thread_id);
    expired_record.expires_at = NOW_MS;
    assert_eq!(
        make_verifier(
            MemoryEnrollmentSource::with_record(expired_record),
            ControllerEnrollmentPolicy::BestEffort,
            NOW_MS,
        )
        .verify(connection_id, main_thread_id, evidence(connection_id)),
        Err(ControllerEnrollmentError::AuthorizationExpired)
    );

    let rotated = make_verifier(
        MemoryEnrollmentSource::with_record(record(NOW_MS, main_thread_id)),
        ControllerEnrollmentPolicy::BestEffort,
        NOW_MS,
    );
    let mut rotated_evidence = evidence(connection_id);
    rotated_evidence
        .credential_proof
        .as_mut()
        .expect("proof should exist")
        .credential_fingerprint = "new-fingerprint".to_string();
    assert_eq!(
        rotated.verify(connection_id, main_thread_id, rotated_evidence),
        Err(ControllerEnrollmentError::CredentialRotated)
    );

    let mut revoked_record = record(NOW_MS, main_thread_id);
    revoked_record.revocation_epoch = revoked_record.authorization_epoch;
    assert_eq!(
        make_verifier(
            MemoryEnrollmentSource::with_record(revoked_record),
            ControllerEnrollmentPolicy::BestEffort,
            NOW_MS,
        )
        .verify(connection_id, main_thread_id, evidence(connection_id)),
        Err(ControllerEnrollmentError::Revoked)
    );
}

#[test]
fn proof_must_bind_to_live_connection_and_main_thread() {
    let main_thread_id = thread_id(1);
    let verifier = make_verifier(
        MemoryEnrollmentSource::with_record(record(NOW_MS, main_thread_id)),
        ControllerEnrollmentPolicy::BestEffort,
        NOW_MS,
    );

    assert_eq!(
        verifier.verify(connection_id(10), main_thread_id, evidence(connection_id(11))),
        Err(ControllerEnrollmentError::ConnectionMismatch)
    );
    assert_eq!(
        verifier.verify(connection_id(10), thread_id(2), evidence(connection_id(10))),
        Err(ControllerEnrollmentError::DifferentMainThread)
    );
}

#[test]
fn best_effort_without_a_record_denies_enrollment() {
    let verifier = ControllerEnrollmentVerifier::new(
        EmptyControllerEnrollmentSource,
        ControllerEnrollmentPolicy::BestEffort,
        ControllerSessionClock::fixed(NOW_MS),
    );
    assert_eq!(
        verifier.missing_enrollment_error(),
        ControllerEnrollmentError::EnrollmentDenied
    );
    assert_eq!(
        verifier.verify(connection_id(10), thread_id(1), evidence(connection_id(10))),
        Err(ControllerEnrollmentError::EnrollmentDenied)
    );
}

#[test]
fn decision_on_a_given_record_is_exact() {
    let main_thread_id = thread_id(1);
    let verifier = make_verifier(
        MemoryEnrollmentSource::default(),
        ControllerEnrollmentPolicy::Required,
        NOW_MS,
    );
    let grant = verifier
        .verify_with_record(
            connection_id(10),
            main_thread_id,
            evidence(connection_id(10)),
            Some(record(NOW_MS, main_thread_id)),
            NOW_MS + 59_999,
        )
        .expect("record valid one millisecond before expiry");
    assert_eq!(grant.authorization_expires_at, NOW_MS + 60_000);
    assert_eq!(
        verifier.verify_with_record(
            connection_id(10),
            main_thread_id,
            evidence(connection_id(10)),
            Some(record(NOW_MS, main_thread_id)),
            NOW_MS + 60_000,
        ),
        Err(ControllerEnrollmentError::AuthorizationExpired)
    );
    assert_eq!(
        verifier.verify_with_record(
            connection_id(10),
            main_thread_id,
            evidence(connection_id(10)),
            None,
            NOW_MS,
        ),
        Err(ControllerEnrollmentError::RequiredEnrollmentMissing)
    );
}

fn make_verifier(
    source: MemoryEnrollmentSource,
    policy: ControllerEnrollmentPolicy,
    now: u64,
) -> ControllerEnrollmentVerifier<MemoryEnrollmentSource> {
    ControllerEnrollmentVerifier::new(source, policy, ControllerSessionClock::fixed(now))
}

fn record(now: u64, main_thread_id: ThreadId) -> ControllerEnrollmentRecord {
    ControllerEnrollmentRecord {
        subject_id: "controller-subject".to_string(),
        credential_fingerprint: "credential-fingerprint".to_string(),
        main_thread_id,
        authorization_epoch: 7,
        revocation_epoch: 6,
        expires_at: now + 60_000,
    }
}

fn evidence(connection_id: ConnectionId) -> ControllerParticipationEvidence {
    ControllerParticipationEvidence {
        display_claims: display_claims(),
        credential_proof: Some(ControllerCredentialProof {
            subject_id: "controller-subject".to_string(),
            credential_fingerprint: "credential-fingerprint".to_string(),
            connection_id,
        }),
    }
}

fn display_claims() -> ControllerDisplayClaims {
    ControllerDisplayClaims {
        controller_name: "codex-waveshare".to_string(),
        description: "external input device".to_string(),
    }
}

fn connection_id(id: u64) -> ConnectionId {
    ConnectionId(id)
}

fn thread_id(id: u64) -> ThreadId {
    ThreadId::from_string(&format!("00000000-0000-0000-0000-{id:012}"))
        .expect("test thread id should parse")
}

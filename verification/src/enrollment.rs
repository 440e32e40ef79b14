//! Host-provided controller enrollment verification.
//!
//! Display claims are never authority: a grant comes only from a durable
//! enrollment record that matches a credential proof bound to the live
//! connection and to the main thread.

use vstd::prelude::*;

use crate::clock::{clock_reads, ControllerSessionClock};
use crate::ids::{ConnectionId, ThreadId};
use crate::session::ControllerEnrollmentGrant;
use crate::session_model::GrantModel;

verus! {

/// Source of durable controller enrollment records, implemented by the host
/// (user configuration or a platform credential store).
pub trait ControllerEnrollmentSource {
    /// The record the source holds for `subject_id`, if any.
    spec fn spec_enrollment_for(&self, subject_id: Seq<char>) -> Option<EnrollmentRecordModel>;

    fn enrollment_for(&self, subject_id: &str) -> (record: Option<ControllerEnrollmentRecord>)
        ensures
            record_option_view(record) == self.spec_enrollment_for(subject_id@),
    ;
}

/// A source that holds no records.
pub struct EmptyControllerEnrollmentSource;

impl ControllerEnrollmentSource for EmptyControllerEnrollmentSource {
    open spec fn spec_enrollment_for(&self, subject_id: Seq<char>) -> Option<EnrollmentRecordModel> {
        None
    }

    fn enrollment_for(&self, subject_id: &str) -> (record: Option<ControllerEnrollmentRecord>)
        ensures
            record is None,
    {
        None
    }
}

/// How strictly enrollment is asked for.
#[derive(Clone, Copy, Debug, PartialEq, Eq, Structural)]
pub enum ControllerEnrollmentPolicy {
    Disabled,
    BestEffort,
    Required,
}

/// A durable enrollment record.
#[derive(Debug, PartialEq, Eq)]
pub struct ControllerEnrollmentRecord {
    pub subject_id: String,
    pub credential_fingerprint: String,
    pub main_thread_id: ThreadId,
    pub authorization_epoch: u64,
    pub revocation_epoch: u64,
    /// Clock reading (milliseconds) at which the enrollment runs out.
    pub expires_at: u64,
}

pub struct EnrollmentRecordModel {
    pub subject_id: Seq<char>,
    pub credential_fingerprint: Seq<char>,
    pub main_thread_id: u128,
    pub authorization_epoch: u64,
    pub revocation_epoch: u64,
    pub expires_at: u64,
}

impl View for ControllerEnrollmentRecord {
    type V = EnrollmentRecordModel;

    open spec fn view(&self) -> EnrollmentRecordModel {
        EnrollmentRecordModel {
            subject_id: self.subject_id@,
            credential_fingerprint: self.credential_fingerprint@,
            main_thread_id: self.main_thread_id.uuid,
            authorization_epoch: self.authorization_epoch,
            revocation_epoch: self.revocation_epoch,
            expires_at: self.expires_at,
        }
    }
}

impl Clone for ControllerEnrollmentRecord {
    fn clone(&self) -> (copy: Self)
        ensures
            copy == *self,
    {
        ControllerEnrollmentRecord {
            subject_id: self.subject_id.clone(),
            credential_fingerprint: self.credential_fingerprint.clone(),
            main_thread_id: self.main_thread_id,
            authorization_epoch: self.authorization_epoch,
            revocation_epoch: self.revocation_epoch,
            expires_at: self.expires_at,
        }
    }
}

/// What a controller presents when it asks to participate.
#[derive(Debug, PartialEq, Eq)]
pub struct ControllerParticipationEvidence {
    pub display_claims: ControllerDisplayClaims,
    pub credential_proof: Option<ControllerCredentialProof>,
}

/// Names a controller shows; never authority.
#[derive(Debug, PartialEq, Eq)]
pub struct ControllerDisplayClaims {
    pub controller_name: String,
    pub description: String,
}

/// Proof of a credential, bound to the connection that presents it.
#[derive(Debug, PartialEq, Eq)]
pub struct ControllerCredentialProof {
    pub subject_id: String,
    pub credential_fingerprint: String,
    pub connection_id: ConnectionId,
}

pub struct CredentialProofModel {
    pub subject_id: Seq<char>,
    pub credential_fingerprint: Seq<char>,
    pub connection_id: u64,
}

impl View for ControllerCredentialProof {
    type V = CredentialProofModel;

    open spec fn view(&self) -> CredentialProofModel {
        CredentialProofModel {
            subject_id: self.subject_id@,
            credential_fingerprint: self.credential_fingerprint@,
            connection_id: self.connection_id.0,
        }
    }
}

/// The credential proof of some evidence, as a model.
pub open spec fn evidence_proof(evidence: ControllerParticipationEvidence) -> Option<
    CredentialProofModel,
> {
    match evidence.credential_proof {
        Some(proof) => Some(proof@),
        None => None,
    }
}

/// Why enrollment verification refused a controller.
#[derive(Clone, Copy, Debug, PartialEq, Eq, Structural)]
pub enum ControllerEnrollmentError {
    PolicyDisabled,
    RequiredEnrollmentMissing,
    CredentialProofRequired,
    EnrollmentDenied,
    ConnectionMismatch,
    CredentialRotated,
    AuthorizationExpired,
    Revoked,
    DifferentMainThread,
}

/// The error for a subject with no enrollment record under `policy`.
pub open spec fn missing_enrollment_error(policy: ControllerEnrollmentPolicy) -> ControllerEnrollmentError {
    match policy {
        ControllerEnrollmentPolicy::Disabled => ControllerEnrollmentError::PolicyDisabled,
        ControllerEnrollmentPolicy::BestEffort => ControllerEnrollmentError::EnrollmentDenied,
        ControllerEnrollmentPolicy::Required => ControllerEnrollmentError::RequiredEnrollmentMissing,
    }
}

/// Whether verification needs an enrollment record at all: the policy must be
/// enabled and a credential proof bound to the connection presented.
pub open spec fn needs_record(
    policy: ControllerEnrollmentPolicy,
    connection_id: u64,
    proof: Option<CredentialProofModel>,
) -> bool {
    policy != ControllerEnrollmentPolicy::Disabled && proof is Some && proof->Some_0.connection_id
        == connection_id
}

/// The outcome of enrollment verification, given the record (if any) that
/// the source holds for the proof's subject, at clock reading `now`.
pub open spec fn enrollment_decision(
    policy: ControllerEnrollmentPolicy,
    connection_id: u64,
    main_thread_id: u128,
    proof: Option<CredentialProofModel>,
    record: Option<EnrollmentRecordModel>,
    now: u64,
) -> Result<GrantModel, ControllerEnrollmentError> {
    if policy == ControllerEnrollmentPolicy::Disabled {
        Err(ControllerEnrollmentError::PolicyDisabled)
    } else if proof is None {
        Err(ControllerEnrollmentError::CredentialProofRequired)
    } else if proof->Some_0.connection_id != connection_id {
        Err(ControllerEnrollmentError::ConnectionMismatch)
    } else {
        match record {
            None => Err(missing_enrollment_error(policy)),
            Some(record) => if record.main_thread_id != main_thread_id {
                Err(ControllerEnrollmentError::DifferentMainThread)
            } else if record.credential_fingerprint != proof->Some_0.credential_fingerprint {
                Err(ControllerEnrollmentError::CredentialRotated)
            } else if now >= record.expires_at {
                Err(ControllerEnrollmentError::AuthorizationExpired)
            } else if record.revocation_epoch >= record.authorization_epoch {
                Err(ControllerEnrollmentError::Revoked)
            } else {
                Ok(
                    GrantModel {
                        subject_id: record.subject_id,
                        main_thread_id: record.main_thread_id,
                        authorization_epoch: record.authorization_epoch,
                        authorization_expires_at: record.expires_at,
                    },
                )
            },
        }
    }
}

pub open spec fn grant_result_view(
    result: Result<ControllerEnrollmentGrant, ControllerEnrollmentError>,
) -> Result<GrantModel, ControllerEnrollmentError> {
    match result {
        Ok(grant) => Ok(grant@),
        Err(e) => Err(e),
    }
}

pub open spec fn record_option_view(record: Option<ControllerEnrollmentRecord>) -> Option<
    EnrollmentRecordModel,
> {
    match record {
        Some(record) => Some(record@),
        None => None,
    }
}

/// The record verification judges: what `source` holds for the proof's
/// subject where a record is needed, and none otherwise (the source is not
/// asked then).
pub open spec fn source_record<S: ControllerEnrollmentSource>(
    source: S,
    policy: ControllerEnrollmentPolicy,
    connection_id: u64,
    proof: Option<CredentialProofModel>,
) -> Option<EnrollmentRecordModel> {
    if needs_record(policy, connection_id, proof) {
        source.spec_enrollment_for(proof->Some_0.subject_id)
    } else {
        None
    }
}

/// Verifies controller enrollment against a host-provided record source.
pub struct ControllerEnrollmentVerifier<S> {
    source: S,
    policy: ControllerEnrollmentPolicy,
    clock: ControllerSessionClock,
}

impl<S> ControllerEnrollmentVerifier<S> {
    pub fn new(source: S, policy: ControllerEnrollmentPolicy, clock: ControllerSessionClock) -> (verifier:
        Self)
        ensures
            verifier.policy() == policy,
            verifier.source() == source,
            verifier.clock() == clock,
    {
        ControllerEnrollmentVerifier { source, policy, clock }
    }

    pub closed spec fn policy(&self) -> ControllerEnrollmentPolicy {
        self.policy
    }

    pub closed spec fn source(&self) -> S {
        self.source
    }

    pub closed spec fn clock(&self) -> ControllerSessionClock {
        self.clock
    }

    /// The error for a subject that has no enrollment record.
    pub fn missing_enrollment_error(&self) -> (error: ControllerEnrollmentError)
        ensures
            error == missing_enrollment_error(self.policy()),
    {
        match self.policy {
            ControllerEnrollmentPolicy::Disabled => ControllerEnrollmentError::PolicyDisabled,
            ControllerEnrollmentPolicy::BestEffort => ControllerEnrollmentError::EnrollmentDenied,
            ControllerEnrollmentPolicy::Required => ControllerEnrollmentError::RequiredEnrollmentMissing,
        }
    }

    /// Decides enrollment for `connection_id` on `main_thread_id`, given the
    /// record the source holds for the proof's subject, at clock reading
    /// `now`.
    pub fn verify_with_record(
        &self,
        connection_id: ConnectionId,
        main_thread_id: ThreadId,
        evidence: ControllerParticipationEvidence,
        record: Option<ControllerEnrollmentRecord>,
        now: u64,
    ) -> (result: Result<ControllerEnrollmentGrant, ControllerEnrollmentError>)
        ensures
            grant_result_view(result) == enrollment_decision(
                self.policy(),
                connection_id.0,
                main_thread_id.uuid,
                evidence_proof(evidence),
                record_option_view(record),
                now,
            ),
    {
        if self.policy == ControllerEnrollmentPolicy::Disabled {
            return Err(ControllerEnrollmentError::PolicyDisabled);
        }
        let proof = match evidence.credential_proof {
            Some(proof) => proof,
            None => return Err(ControllerEnrollmentError::CredentialProofRequired),
        };
        if proof.connection_id.0 != connection_id.0 {
            return Err(ControllerEnrollmentError::ConnectionMismatch);
        }
        let record = match record {
            Some(record) => record,
            None => return Err(self.missing_enrollment_error()),
        };
        if !record.main_thread_id.equals(&main_thread_id) {
            return Err(ControllerEnrollmentError::DifferentMainThread);
        }
        if record.credential_fingerprint != proof.credential_fingerprint {
            return Err(ControllerEnrollmentError::CredentialRotated);
        }
        if now >= record.expires_at {
            return Err(ControllerEnrollmentError::AuthorizationExpired);
        }
        if record.revocation_epoch >= record.authorization_epoch {
            return Err(ControllerEnrollmentError::Revoked);
        }
        Ok(
            ControllerEnrollmentGrant {
                subject_id: record.subject_id,
                main_thread_id: record.main_thread_id,
                authorization_epoch: record.authorization_epoch,
                authorization_expires_at: record.expires_at,
            },
        )
    }
}

impl<S: ControllerEnrollmentSource> ControllerEnrollmentVerifier<S> {
    /// Verifies the evidence of `connection_id` at clock reading `now`. The
    /// source is asked for the proof's subject only when the policy is enabled
    /// and the proof is bound to the connection; the outcome is the decision
    /// on whatever record it returns.
    pub fn verify_at(
        &self,
        connection_id: ConnectionId,
        main_thread_id: ThreadId,
        evidence: ControllerParticipationEvidence,
        now: u64,
    ) -> (result: Result<ControllerEnrollmentGrant, ControllerEnrollmentError>)
        ensures
            grant_result_view(result) == enrollment_decision(
                self.policy(),
                connection_id.0,
                main_thread_id.uuid,
                evidence_proof(evidence),
                source_record(self.source(), self.policy(), connection_id.0, evidence_proof(evidence)),
                now,
            ),
    {
        let record = match &evidence.credential_proof {
            Some(proof) => {
                if self.policy != ControllerEnrollmentPolicy::Disabled && proof.connection_id.0
                    == connection_id.0 {
                    self.source.enrollment_for(proof.subject_id.as_str())
                } else {
                    None
                }
            },
            None => None,
        };
        proof {
            assert(record_option_view(record) == source_record(
                self.source(),
                self.policy(),
                connection_id.0,
                evidence_proof(evidence),
            ));
        }
        self.verify_with_record(connection_id, main_thread_id, evidence, record, now)
    }

    /// Verifies the evidence of `connection_id` at the verifier's clock
    /// reading.
    pub fn verify(
        &self,
        connection_id: ConnectionId,
        main_thread_id: ThreadId,
        evidence: ControllerParticipationEvidence,
    ) -> (result: Result<ControllerEnrollmentGrant, ControllerEnrollmentError>)
        ensures
            exists|now: u64|
                clock_reads(self.clock(), now) && grant_result_view(result) == enrollment_decision(
                    self.policy(),
                    connection_id.0,
                    main_thread_id.uuid,
                    evidence_proof(evidence),
                    source_record(self.source(), self.policy(), connection_id.0, evidence_proof(evidence)),
                    now,
                ),
    {
        let now = self.clock.now();
        self.verify_at(connection_id, main_thread_id, evidence, now)
    }
}

/// Display claims alone never authorize: without a credential proof every
/// policy refuses, whatever record the source holds.
pub proof fn law_display_claims_never_authorize(
    policy: ControllerEnrollmentPolicy,
    connection_id: u64,
    main_thread_id: u128,
    record: Option<EnrollmentRecordModel>,
    now: u64,
)
    ensures
        enrollment_decision(policy, connection_id, main_thread_id, None, record, now) is Err,
{
}

/// A grant is always bound to the live connection and main thread, comes
/// from a record whose credential matches the proof, is unexpired at the
/// reading and unrevoked, and carries the record's authorization.
pub proof fn law_grant_is_bound_to_record(
    policy: ControllerEnrollmentPolicy,
    connection_id: u64,
    main_thread_id: u128,
    proof: Option<CredentialProofModel>,
    record: Option<EnrollmentRecordModel>,
    now: u64,
)
    requires
        enrollment_decision(policy, connection_id, main_thread_id, proof, record, now) is Ok,
    ensures
        ({
            let grant = enrollment_decision(policy, connection_id, main_thread_id, proof, record, now)->Ok_0;
            let r = record->Some_0;
            &&& policy != ControllerEnrollmentPolicy::Disabled
            &&& proof->Some_0.connection_id == connection_id
            &&& record is Some
            &&& r.credential_fingerprint == proof->Some_0.credential_fingerprint
            &&& grant.main_thread_id == main_thread_id
            &&& now < grant.authorization_expires_at
            &&& r.revocation_epoch < r.authorization_epoch
            &&& grant.subject_id == r.subject_id
            &&& grant.authorization_epoch == r.authorization_epoch
        }),
{
}

/// Under any enabled policy, a proof bound to the connection is judged
/// against exactly the record the source holds for the proof's subject, and
/// a valid record (same main thread, matching credential, unexpired,
/// unrevoked) is granted with that record's subject, epoch and expiry;
/// which enabled policy is set does not matter.
pub proof fn law_enrolled_subject_is_granted<S: ControllerEnrollmentSource>(
    source: S,
    policy: ControllerEnrollmentPolicy,
    connection_id: u64,
    main_thread_id: u128,
    proof: CredentialProofModel,
    now: u64,
)
    requires
        policy != ControllerEnrollmentPolicy::Disabled,
        proof.connection_id == connection_id,
    ensures
        source_record(source, policy, connection_id, Some(proof)) == source.spec_enrollment_for(
            proof.subject_id,
        ),
        ({
            let record = source.spec_enrollment_for(proof.subject_id);
            let r = record->Some_0;
            (record is Some && r.main_thread_id == main_thread_id && r.credential_fingerprint
                == proof.credential_fingerprint && now < r.expires_at && r.revocation_epoch
                < r.authorization_epoch) ==> enrollment_decision(
                policy,
                connection_id,
                main_thread_id,
                Some(proof),
                source_record(source, policy, connection_id, Some(proof)),
                now,
            ) == Ok::<GrantModel, ControllerEnrollmentError>(
                GrantModel {
                    subject_id: r.subject_id,
                    main_thread_id,
                    authorization_epoch: r.authorization_epoch,
                    authorization_expires_at: r.expires_at,
                },
            )
        }),
{
}

} // verus!

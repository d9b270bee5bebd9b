//! Payloads of the repository-snapshot events.

use vstd::prelude::*;
use crate::artifact::{ArtifactRef};
use crate::digest::{Sha256Digest};
use crate::identity::{ActorId, EventId, RepositorySnapshotLeaseId, RunClaimId, RuntimeInstanceId, WorkspaceRecoveryFinalizationId};
use crate::lifecycle_identity::LifecycleIdentities;
use crate::text::{Text};

verus! {

/// The identities that a snapshot capture was given in advance.
#[derive(Debug)]
pub struct RepositorySnapshotCaptureIdentityV1 {
    pub snapshot_id: Text,
    pub lease_id: RepositorySnapshotLeaseId,
    pub snapshot_lease_event_id: EventId,
}

impl PartialEq for RepositorySnapshotCaptureIdentityV1 {
    fn eq(&self, other: &Self) -> (r: bool) {
        self.snapshot_id == other.snapshot_id
            && self.lease_id == other.lease_id
            && self.snapshot_lease_event_id == other.snapshot_lease_event_id
    }
}

impl Eq for RepositorySnapshotCaptureIdentityV1 {
}

impl vstd::std_specs::cmp::PartialEqSpecImpl for RepositorySnapshotCaptureIdentityV1 {
    open spec fn obeys_eq_spec() -> bool {
        true
    }

    open spec fn eq_spec(&self, other: &Self) -> bool {
        &&& vstd::std_specs::cmp::PartialEqSpec::eq_spec(&self.snapshot_id, &other.snapshot_id)
        &&& self.lease_id == other.lease_id
        &&& self.snapshot_lease_event_id == other.snapshot_lease_event_id
    }
}

impl Clone for RepositorySnapshotCaptureIdentityV1 {
    fn clone(&self) -> (r: Self)
        ensures
            r == *self,
    {
        RepositorySnapshotCaptureIdentityV1 {
            snapshot_id: self.snapshot_id.clone(),
            lease_id: self.lease_id,
            snapshot_lease_event_id: self.snapshot_lease_event_id,
        }
    }
}

/// The writer lease on the repository was revoked, so that a snapshot can be captured.
#[derive(Debug)]
pub struct RepositoryWriterLeaseRevokedV1 {
    pub issuer_actor_id: ActorId,
    pub claim_event_id: EventId,
    pub claim_id: RunClaimId,
    pub claim_generation: u64,
    pub claim_runtime_instance_id: RuntimeInstanceId,
    pub cancellation_generation: u64,
    pub capture: RepositorySnapshotCaptureIdentityV1,
    pub evidence_artifact: ArtifactRef,
    pub evidence_digest: Sha256Digest,
}

impl PartialEq for RepositoryWriterLeaseRevokedV1 {
    fn eq(&self, other: &Self) -> (r: bool) {
        self.issuer_actor_id == other.issuer_actor_id
            && self.claim_event_id == other.claim_event_id
            && self.claim_id == other.claim_id
            && self.claim_generation == other.claim_generation
            && self.claim_runtime_instance_id == other.claim_runtime_instance_id
            && self.cancellation_generation == other.cancellation_generation
            && self.capture == other.capture
            && self.evidence_artifact == other.evidence_artifact
            && self.evidence_digest == other.evidence_digest
    }
}

impl Eq for RepositoryWriterLeaseRevokedV1 {
}

impl vstd::std_specs::cmp::PartialEqSpecImpl for RepositoryWriterLeaseRevokedV1 {
    open spec fn obeys_eq_spec() -> bool {
        true
    }

    open spec fn eq_spec(&self, other: &Self) -> bool {
        &&& self.issuer_actor_id == other.issuer_actor_id
        &&& self.claim_event_id == other.claim_event_id
        &&& self.claim_id == other.claim_id
        &&& self.claim_generation == other.claim_generation
        &&& self.claim_runtime_instance_id == other.claim_runtime_instance_id
        &&& self.cancellation_generation == other.cancellation_generation
        &&& vstd::std_specs::cmp::PartialEqSpec::eq_spec(&self.capture, &other.capture)
        &&& vstd::std_specs::cmp::PartialEqSpec::eq_spec(&self.evidence_artifact, &other.evidence_artifact)
        &&& vstd::std_specs::cmp::PartialEqSpec::eq_spec(&self.evidence_digest, &other.evidence_digest)
    }
}

impl Clone for RepositoryWriterLeaseRevokedV1 {
    fn clone(&self) -> (r: Self)
        ensures
            r == *self,
    {
        RepositoryWriterLeaseRevokedV1 {
            issuer_actor_id: self.issuer_actor_id,
            claim_event_id: self.claim_event_id,
            claim_id: self.claim_id,
            claim_generation: self.claim_generation,
            claim_runtime_instance_id: self.claim_runtime_instance_id,
            cancellation_generation: self.cancellation_generation,
            capture: self.capture.clone(),
            evidence_artifact: self.evidence_artifact.clone(),
            evidence_digest: self.evidence_digest.clone(),
        }
    }
}

/// A later claim adopted an open capture.
#[derive(Clone, Copy, Debug, PartialEq, Eq, Structural)]
pub struct RepositorySnapshotCaptureClaimAdoptedV1 {
    pub prior_claim_event_id: EventId,
    pub new_claim_event_id: EventId,
    /// What the other identity fields of the record hold.
    pub other_identities: LifecycleIdentities,
}

/// An open capture was abandoned.
#[derive(Debug)]
pub struct RepositorySnapshotCaptureAbandonedV1 {
    pub recovery_artifact: ArtifactRef,
    /// What the other identity fields of the record hold.
    pub other_identities: LifecycleIdentities,
}

impl PartialEq for RepositorySnapshotCaptureAbandonedV1 {
    fn eq(&self, other: &Self) -> (r: bool) {
        self.recovery_artifact == other.recovery_artifact
            && self.other_identities == other.other_identities
    }
}

impl Eq for RepositorySnapshotCaptureAbandonedV1 {
}

impl vstd::std_specs::cmp::PartialEqSpecImpl for RepositorySnapshotCaptureAbandonedV1 {
    open spec fn obeys_eq_spec() -> bool {
        true
    }

    open spec fn eq_spec(&self, other: &Self) -> bool {
        &&& vstd::std_specs::cmp::PartialEqSpec::eq_spec(&self.recovery_artifact, &other.recovery_artifact)
        &&& self.other_identities == other.other_identities
    }
}

impl Clone for RepositorySnapshotCaptureAbandonedV1 {
    fn clone(&self) -> (r: Self)
        ensures
            r == *self,
    {
        RepositorySnapshotCaptureAbandonedV1 {
            recovery_artifact: self.recovery_artifact.clone(),
            other_identities: self.other_identities,
        }
    }
}

/// The lease that keeps a snapshot immutable.
#[derive(Debug)]
pub struct RepositorySnapshotImmutabilityLeaseV1 {
    pub lease_id: RepositorySnapshotLeaseId,
    pub lease_artifact: ArtifactRef,
}

impl PartialEq for RepositorySnapshotImmutabilityLeaseV1 {
    fn eq(&self, other: &Self) -> (r: bool) {
        self.lease_id == other.lease_id
            && self.lease_artifact == other.lease_artifact
    }
}

impl Eq for RepositorySnapshotImmutabilityLeaseV1 {
}

impl vstd::std_specs::cmp::PartialEqSpecImpl for RepositorySnapshotImmutabilityLeaseV1 {
    open spec fn obeys_eq_spec() -> bool {
        true
    }

    open spec fn eq_spec(&self, other: &Self) -> bool {
        &&& self.lease_id == other.lease_id
        &&& vstd::std_specs::cmp::PartialEqSpec::eq_spec(&self.lease_artifact, &other.lease_artifact)
    }
}

impl Clone for RepositorySnapshotImmutabilityLeaseV1 {
    fn clone(&self) -> (r: Self)
        ensures
            r == *self,
    {
        RepositorySnapshotImmutabilityLeaseV1 {
            lease_id: self.lease_id,
            lease_artifact: self.lease_artifact.clone(),
        }
    }
}

/// A captured snapshot.
#[derive(Debug)]
pub struct RepositorySnapshotV1 {
    pub snapshot_id: Text,
    pub immutability_lease: RepositorySnapshotImmutabilityLeaseV1,
}

impl PartialEq for RepositorySnapshotV1 {
    fn eq(&self, other: &Self) -> (r: bool) {
        self.snapshot_id == other.snapshot_id
            && self.immutability_lease == other.immutability_lease
    }
}

impl Eq for RepositorySnapshotV1 {
}

impl vstd::std_specs::cmp::PartialEqSpecImpl for RepositorySnapshotV1 {
    open spec fn obeys_eq_spec() -> bool {
        true
    }

    open spec fn eq_spec(&self, other: &Self) -> bool {
        &&& vstd::std_specs::cmp::PartialEqSpec::eq_spec(&self.snapshot_id, &other.snapshot_id)
        &&& vstd::std_specs::cmp::PartialEqSpec::eq_spec(&self.immutability_lease, &other.immutability_lease)
    }
}

impl Clone for RepositorySnapshotV1 {
    fn clone(&self) -> (r: Self)
        ensures
            r == *self,
    {
        RepositorySnapshotV1 {
            snapshot_id: self.snapshot_id.clone(),
            immutability_lease: self.immutability_lease.clone(),
        }
    }
}

/// A snapshot lease was issued.
#[derive(Debug)]
pub struct RepositorySnapshotLeaseIssuedV1 {
    pub snapshot: RepositorySnapshotV1,
    /// What the other identity fields of the record hold.
    pub other_identities: LifecycleIdentities,
}

impl PartialEq for RepositorySnapshotLeaseIssuedV1 {
    fn eq(&self, other: &Self) -> (r: bool) {
        self.snapshot == other.snapshot
            && self.other_identities == other.other_identities
    }
}

impl Eq for RepositorySnapshotLeaseIssuedV1 {
}

impl vstd::std_specs::cmp::PartialEqSpecImpl for RepositorySnapshotLeaseIssuedV1 {
    open spec fn obeys_eq_spec() -> bool {
        true
    }

    open spec fn eq_spec(&self, other: &Self) -> bool {
        &&& vstd::std_specs::cmp::PartialEqSpec::eq_spec(&self.snapshot, &other.snapshot)
        &&& self.other_identities == other.other_identities
    }
}

impl Clone for RepositorySnapshotLeaseIssuedV1 {
    fn clone(&self) -> (r: Self)
        ensures
            r == *self,
    {
        RepositorySnapshotLeaseIssuedV1 {
            snapshot: self.snapshot.clone(),
            other_identities: self.other_identities,
        }
    }
}

/// A snapshot lease was released.
#[derive(Debug)]
pub struct RepositorySnapshotLeaseReleasedV1 {
    pub lease_id: RepositorySnapshotLeaseId,
    pub lease_event_id: EventId,
    pub release_artifact: ArtifactRef,
    /// What the other identity fields of the record hold.
    pub other_identities: LifecycleIdentities,
}

impl PartialEq for RepositorySnapshotLeaseReleasedV1 {
    fn eq(&self, other: &Self) -> (r: bool) {
        self.lease_id == other.lease_id
            && self.lease_event_id == other.lease_event_id
            && self.release_artifact == other.release_artifact
            && self.other_identities == other.other_identities
    }
}

impl Eq for RepositorySnapshotLeaseReleasedV1 {
}

impl vstd::std_specs::cmp::PartialEqSpecImpl for RepositorySnapshotLeaseReleasedV1 {
    open spec fn obeys_eq_spec() -> bool {
        true
    }

    open spec fn eq_spec(&self, other: &Self) -> bool {
        &&& self.lease_id == other.lease_id
        &&& self.lease_event_id == other.lease_event_id
        &&& vstd::std_specs::cmp::PartialEqSpec::eq_spec(&self.release_artifact, &other.release_artifact)
        &&& self.other_identities == other.other_identities
    }
}

impl Clone for RepositorySnapshotLeaseReleasedV1 {
    fn clone(&self) -> (r: Self)
        ensures
            r == *self,
    {
        RepositorySnapshotLeaseReleasedV1 {
            lease_id: self.lease_id,
            lease_event_id: self.lease_event_id,
            release_artifact: self.release_artifact.clone(),
            other_identities: self.other_identities,
        }
    }
}

/// A release that was interrupted was reconciled.
#[derive(Debug)]
pub struct RepositorySnapshotReleaseReconciledV1 {
    pub recovery_artifact: ArtifactRef,
    /// What the other identity fields of the record hold.
    pub other_identities: LifecycleIdentities,
}

impl PartialEq for RepositorySnapshotReleaseReconciledV1 {
    fn eq(&self, other: &Self) -> (r: bool) {
        self.recovery_artifact == other.recovery_artifact
            && self.other_identities == other.other_identities
    }
}

impl Eq for RepositorySnapshotReleaseReconciledV1 {
}

impl vstd::std_specs::cmp::PartialEqSpecImpl for RepositorySnapshotReleaseReconciledV1 {
    open spec fn obeys_eq_spec() -> bool {
        true
    }

    open spec fn eq_spec(&self, other: &Self) -> bool {
        &&& vstd::std_specs::cmp::PartialEqSpec::eq_spec(&self.recovery_artifact, &other.recovery_artifact)
        &&& self.other_identities == other.other_identities
    }
}

impl Clone for RepositorySnapshotReleaseReconciledV1 {
    fn clone(&self) -> (r: Self)
        ensures
            r == *self,
    {
        RepositorySnapshotReleaseReconciledV1 {
            recovery_artifact: self.recovery_artifact.clone(),
            other_identities: self.other_identities,
        }
    }
}

/// A capture or a lease was closed under a cleanup grant.
#[derive(Clone, Copy, Debug, PartialEq, Eq, Structural)]
pub struct RepositorySnapshotClosureV2 {
    pub cleanup_grant_event_id: EventId,
    pub closure_event_id: EventId,
    /// What the other identity fields of the record hold.
    pub other_identities: LifecycleIdentities,
}

/// A workspace recovery was finalized.
#[derive(Clone, Copy, Debug, PartialEq, Eq, Structural)]
pub struct WorkspaceRecoveryFinalizedV1 {
    pub finalization_id: WorkspaceRecoveryFinalizationId,
    /// What the other identity fields of the record hold.
    pub other_identities: LifecycleIdentities,
}

/// A new epoch of the repository broker began.
#[derive(Clone, Copy, Debug, PartialEq, Eq, Structural)]
pub struct RepositoryBrokerEpochActivatedV1 {
    pub epoch: u64,
    /// What the other identity fields of the record hold.
    pub other_identities: LifecycleIdentities,
}

} // verus!

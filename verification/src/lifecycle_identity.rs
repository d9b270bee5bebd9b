//! The typed fields of an event's payload that hold an identity of a snapshot, a claim or a
//! cleanup. Free text that happens to hold a UUID is none of them.

use vstd::prelude::*;
use crate::event::EventPayload;

verus! {

/// What the identity fields of a payload hold; `None` where the payload has no such field. Each is
/// named like the member of the payload's data, but for three that stand deeper.
#[derive(Clone, Copy, Debug, PartialEq, Eq, Structural)]
pub struct LifecycleIdentities {
    pub claim_event_id: Option<u128>,
    pub claim_id: Option<u128>,
    pub runtime_instance_id: Option<u128>,
    pub claim_runtime_instance_id: Option<u128>,
    pub cancellation_request_id: Option<u128>,
    /// The member `lease_id` of the member `capture`.
    pub capture_lease_id: Option<u128>,
    /// The member `snapshot_lease_event_id` of the member `capture`.
    pub capture_snapshot_lease_event_id: Option<u128>,
    /// The member `lease_id` of the member `immutability_lease` of the member `snapshot`.
    pub snapshot_immutability_lease_id: Option<u128>,
    pub lease_id: Option<u128>,
    pub lease_event_id: Option<u128>,
    pub snapshot_lease_event_id: Option<u128>,
    pub writer_revocation_event_id: Option<u128>,
    pub adoption_id: Option<u128>,
    pub prior_claim_event_id: Option<u128>,
    pub prior_claim_id: Option<u128>,
    pub prior_runtime_instance_id: Option<u128>,
    pub new_claim_event_id: Option<u128>,
    pub new_claim_id: Option<u128>,
    pub new_runtime_instance_id: Option<u128>,
    pub cleanup_grant_event_id: Option<u128>,
    pub cleanup_grant_id: Option<u128>,
    pub recovery_id: Option<u128>,
    pub local_cleanup_id: Option<u128>,
    pub closure_event_id: Option<u128>,
    pub workspace_finalized_event_id: Option<u128>,
    pub finalization_id: Option<u128>,
    pub cleanup_actor_id: Option<u128>,
    pub cleanup_runtime_instance_id: Option<u128>,
    pub lifecycle_owner_actor_id: Option<u128>,
    pub lifecycle_owner_runtime_instance_id: Option<u128>,
    pub source_claim_event_id: Option<u128>,
    pub source_claim_id: Option<u128>,
    pub source_claim_actor_id: Option<u128>,
    pub source_claim_runtime_instance_id: Option<u128>,
}

impl LifecycleIdentities {
    /// No identity in any field.
    #[verifier::allow_in_spec]
    pub fn none() -> LifecycleIdentities
        returns
            (LifecycleIdentities {
                claim_event_id: None,
                claim_id: None,
                runtime_instance_id: None,
                claim_runtime_instance_id: None,
                cancellation_request_id: None,
                capture_lease_id: None,
                capture_snapshot_lease_event_id: None,
                snapshot_immutability_lease_id: None,
                lease_id: None,
                lease_event_id: None,
                snapshot_lease_event_id: None,
                writer_revocation_event_id: None,
                adoption_id: None,
                prior_claim_event_id: None,
                prior_claim_id: None,
                prior_runtime_instance_id: None,
                new_claim_event_id: None,
                new_claim_id: None,
                new_runtime_instance_id: None,
                cleanup_grant_event_id: None,
                cleanup_grant_id: None,
                recovery_id: None,
                local_cleanup_id: None,
                closure_event_id: None,
                workspace_finalized_event_id: None,
                finalization_id: None,
                cleanup_actor_id: None,
                cleanup_runtime_instance_id: None,
                lifecycle_owner_actor_id: None,
                lifecycle_owner_runtime_instance_id: None,
                source_claim_event_id: None,
                source_claim_id: None,
                source_claim_actor_id: None,
                source_claim_runtime_instance_id: None,
            }),
    {
        LifecycleIdentities {
            claim_event_id: None,
            claim_id: None,
            runtime_instance_id: None,
            claim_runtime_instance_id: None,
            cancellation_request_id: None,
            capture_lease_id: None,
            capture_snapshot_lease_event_id: None,
            snapshot_immutability_lease_id: None,
            lease_id: None,
            lease_event_id: None,
            snapshot_lease_event_id: None,
            writer_revocation_event_id: None,
            adoption_id: None,
            prior_claim_event_id: None,
            prior_claim_id: None,
            prior_runtime_instance_id: None,
            new_claim_event_id: None,
            new_claim_id: None,
            new_runtime_instance_id: None,
            cleanup_grant_event_id: None,
            cleanup_grant_id: None,
            recovery_id: None,
            local_cleanup_id: None,
            closure_event_id: None,
            workspace_finalized_event_id: None,
            finalization_id: None,
            cleanup_actor_id: None,
            cleanup_runtime_instance_id: None,
            lifecycle_owner_actor_id: None,
            lifecycle_owner_runtime_instance_id: None,
            source_claim_event_id: None,
            source_claim_id: None,
            source_claim_actor_id: None,
            source_claim_runtime_instance_id: None,
        }
    }

    /// Whether one of the fields holds `identity`.
    pub open spec fn contains(self, identity: u128) -> bool {
        ||| self.claim_event_id == Some(identity)
        ||| self.claim_id == Some(identity)
        ||| self.runtime_instance_id == Some(identity)
        ||| self.claim_runtime_instance_id == Some(identity)
        ||| self.cancellation_request_id == Some(identity)
        ||| self.capture_lease_id == Some(identity)
        ||| self.capture_snapshot_lease_event_id == Some(identity)
        ||| self.snapshot_immutability_lease_id == Some(identity)
        ||| self.lease_id == Some(identity)
        ||| self.lease_event_id == Some(identity)
        ||| self.snapshot_lease_event_id == Some(identity)
        ||| self.writer_revocation_event_id == Some(identity)
        ||| self.adoption_id == Some(identity)
        ||| self.prior_claim_event_id == Some(identity)
        ||| self.prior_claim_id == Some(identity)
        ||| self.prior_runtime_instance_id == Some(identity)
        ||| self.new_claim_event_id == Some(identity)
        ||| self.new_claim_id == Some(identity)
        ||| self.new_runtime_instance_id == Some(identity)
        ||| self.cleanup_grant_event_id == Some(identity)
        ||| self.cleanup_grant_id == Some(identity)
        ||| self.recovery_id == Some(identity)
        ||| self.local_cleanup_id == Some(identity)
        ||| self.closure_event_id == Some(identity)
        ||| self.workspace_finalized_event_id == Some(identity)
        ||| self.finalization_id == Some(identity)
        ||| self.cleanup_actor_id == Some(identity)
        ||| self.cleanup_runtime_instance_id == Some(identity)
        ||| self.lifecycle_owner_actor_id == Some(identity)
        ||| self.lifecycle_owner_runtime_instance_id == Some(identity)
        ||| self.source_claim_event_id == Some(identity)
        ||| self.source_claim_id == Some(identity)
        ||| self.source_claim_actor_id == Some(identity)
        ||| self.source_claim_runtime_instance_id == Some(identity)
    }

    /// Whether one of the fields holds `identity`.
    pub fn holds(&self, identity: u128) -> (r: bool)
        ensures
            r == self.contains(identity),
    {
        self.claim_event_id == Some(identity)
            || self.claim_id == Some(identity)
            || self.runtime_instance_id == Some(identity)
            || self.claim_runtime_instance_id == Some(identity)
            || self.cancellation_request_id == Some(identity)
            || self.capture_lease_id == Some(identity)
            || self.capture_snapshot_lease_event_id == Some(identity)
            || self.snapshot_immutability_lease_id == Some(identity)
            || self.lease_id == Some(identity)
            || self.lease_event_id == Some(identity)
            || self.snapshot_lease_event_id == Some(identity)
            || self.writer_revocation_event_id == Some(identity)
            || self.adoption_id == Some(identity)
            || self.prior_claim_event_id == Some(identity)
            || self.prior_claim_id == Some(identity)
            || self.prior_runtime_instance_id == Some(identity)
            || self.new_claim_event_id == Some(identity)
            || self.new_claim_id == Some(identity)
            || self.new_runtime_instance_id == Some(identity)
            || self.cleanup_grant_event_id == Some(identity)
            || self.cleanup_grant_id == Some(identity)
            || self.recovery_id == Some(identity)
            || self.local_cleanup_id == Some(identity)
            || self.closure_event_id == Some(identity)
            || self.workspace_finalized_event_id == Some(identity)
            || self.finalization_id == Some(identity)
            || self.cleanup_actor_id == Some(identity)
            || self.cleanup_runtime_instance_id == Some(identity)
            || self.lifecycle_owner_actor_id == Some(identity)
            || self.lifecycle_owner_runtime_instance_id == Some(identity)
            || self.source_claim_event_id == Some(identity)
            || self.source_claim_id == Some(identity)
            || self.source_claim_actor_id == Some(identity)
            || self.source_claim_runtime_instance_id == Some(identity)
    }
}

/// What the identity fields of a payload hold.
pub open spec fn identity_fields(payload: EventPayload) -> LifecycleIdentities {
    match payload {
        EventPayload::RunClaimed(claim) => LifecycleIdentities {
            claim_id: Some(claim.claim_id.0),
            runtime_instance_id: Some(claim.runtime_instance_id.0),
            ..LifecycleIdentities::none()
        },
        EventPayload::CancellationRequested(requested) => LifecycleIdentities {
            cancellation_request_id: Some(requested.cancellation_request_id.0),
            ..LifecycleIdentities::none()
        },
        EventPayload::RootPlanningFailed(failed) => LifecycleIdentities {
            claim_event_id: Some(failed.claim_event_id.0),
            claim_id: Some(failed.claim_id.0),
            ..failed.other_identities
        },
        EventPayload::PlannerTurnPreparedV1(prepared) => LifecycleIdentities {
            claim_event_id: Some(prepared.claim_event_id.0),
            claim_id: Some(prepared.claim_id.0),
            claim_runtime_instance_id: Some(prepared.claim_runtime_instance_id.0),
            ..LifecycleIdentities::none()
        },
        EventPayload::RepositoryWriterLeaseRevoked(revoked) => LifecycleIdentities {
            claim_event_id: Some(revoked.claim_event_id.0),
            claim_id: Some(revoked.claim_id.0),
            claim_runtime_instance_id: Some(revoked.claim_runtime_instance_id.0),
            capture_lease_id: Some(revoked.capture.lease_id.0),
            capture_snapshot_lease_event_id: Some(revoked.capture.snapshot_lease_event_id.0),
            ..LifecycleIdentities::none()
        },
        EventPayload::RepositorySnapshotCaptureClaimAdoptedV1(adopted) => LifecycleIdentities {
            prior_claim_event_id: Some(adopted.prior_claim_event_id.0),
            new_claim_event_id: Some(adopted.new_claim_event_id.0),
            ..adopted.other_identities
        },
        EventPayload::RepositorySnapshotLeaseIssued(issued) => LifecycleIdentities {
            snapshot_immutability_lease_id: Some(issued.snapshot.immutability_lease.lease_id.0),
            ..issued.other_identities
        },
        EventPayload::RepositorySnapshotLeaseReleased(released) => LifecycleIdentities {
            lease_id: Some(released.lease_id.0),
            lease_event_id: Some(released.lease_event_id.0),
            ..released.other_identities
        },
        EventPayload::RepositorySnapshotCleanupGrantedV1(grant) => LifecycleIdentities {
            lease_id: Some(grant.lease_id.0),
            snapshot_lease_event_id: Some(grant.snapshot_lease_event_id.0),
            writer_revocation_event_id: Some(grant.writer_revocation_event_id.0),
            cleanup_grant_event_id: Some(grant.cleanup_grant_event_id.0),
            cleanup_grant_id: Some(grant.cleanup_grant_id.0),
            recovery_id: Some(grant.recovery_id.0),
            local_cleanup_id: Some(grant.local_cleanup_id.0),
            closure_event_id: Some(grant.closure_event_id.0),
            workspace_finalized_event_id: Some(grant.workspace_finalized_event_id.0),
            cleanup_actor_id: Some(grant.cleanup_actor_id.0),
            cleanup_runtime_instance_id: Some(grant.cleanup_runtime_instance_id.0),
            lifecycle_owner_actor_id: Some(grant.lifecycle_owner_actor_id.0),
            lifecycle_owner_runtime_instance_id: Some(grant.lifecycle_owner_runtime_instance_id.0),
            source_claim_event_id: Some(grant.source_claim_event_id.0),
            source_claim_id: Some(grant.source_claim_id.0),
            source_claim_actor_id: Some(grant.source_claim_actor_id.0),
            source_claim_runtime_instance_id: Some(grant.source_claim_runtime_instance_id.0),
            ..LifecycleIdentities::none()
        },
        EventPayload::RepositorySnapshotCaptureAbandonedV2(closure) => LifecycleIdentities {
            cleanup_grant_event_id: Some(closure.cleanup_grant_event_id.0),
            closure_event_id: Some(closure.closure_event_id.0),
            ..closure.other_identities
        },
        EventPayload::RepositorySnapshotReleaseReconciledV2(closure) => LifecycleIdentities {
            cleanup_grant_event_id: Some(closure.cleanup_grant_event_id.0),
            closure_event_id: Some(closure.closure_event_id.0),
            ..closure.other_identities
        },
        EventPayload::WorkspaceRecoveryFinalizedV1(finalized) => LifecycleIdentities {
            finalization_id: Some(finalized.finalization_id.0),
            ..finalized.other_identities
        },
        EventPayload::RootPlanningStageFailed(record) => record.other_identities,
        EventPayload::PlannerInferencePrepared(record) => record.other_identities,
        EventPayload::PlannerInferenceObserved(record) => record.other_identities,
        EventPayload::PlannerInferenceOutcomeUnknown(record) => record.other_identities,
        EventPayload::ReadOperationPrepared(record) => record.other_identities,
        EventPayload::ReadOperationObserved(record) => record.other_identities,
        EventPayload::PlanProposalRejected(record) => record.other_identities,
        EventPayload::PlanProposalAccepted(record) => record.other_identities,
        EventPayload::PlanSemanticReviewAccepted(record) => record.other_identities,
        EventPayload::PlanSemanticReviewRejected(record) => record.other_identities,
        EventPayload::ReconCompletionGateAcceptedV1(record) => record.other_identities,
        EventPayload::RepositorySnapshotCaptureAbandonedV1(record) => record.other_identities,
        EventPayload::RepositorySnapshotReleaseReconciledV1(record) => record.other_identities,
        EventPayload::RepositoryBrokerEpochActivatedV1(record) => record.other_identities,
        EventPayload::ChildDelegationAuthorized(record) => record.other_identities,
        EventPayload::ChildExecutionClaimAdopted(record) => record.other_identities,
        EventPayload::ChildModelInferencePrepared(record) => record.other_identities,
        EventPayload::ChildModelInferencePreparedV2(record) => record.other_identities,
        EventPayload::ChildModelInferenceObserved(record) => record.other_identities,
        EventPayload::ChildModelInferenceOutcomeUnknown(record) => record.other_identities,
        EventPayload::ChildToolPrepared(record) => record.other_identities,
        EventPayload::ChildToolObserved(record) => record.other_identities,
        EventPayload::ChildToolOutcomeUnknown(record) => record.other_identities,
        EventPayload::ChildToolPreparedV2(record) => record.other_identities,
        EventPayload::ChildToolDispatchStartedV2(record) => record.other_identities,
        EventPayload::ChildToolObservedV2(record) => record.other_identities,
        EventPayload::ChildToolOutcomeUnknownV2(record) => record.other_identities,
        EventPayload::ChildHandoffCommitted(record) => record.other_identities,
        EventPayload::ChildExecutionFinished(record) => record.other_identities,
        EventPayload::SessionCreated { .. }
        | EventPayload::UserInput { .. }
        | EventPayload::RunCreated { .. }
        | EventPayload::RunStateChanged { .. }
        | EventPayload::PlannerTurnObservedV1(_)
        | EventPayload::PlannerTurnUnknownV1(_)
        | EventPayload::PlannerTurnAcceptedV1(_)
        | EventPayload::PlannerTurnRejectedV1(_)
        | EventPayload::ChildDelegationAuthorizedV2(_)
        | EventPayload::ChildWorkOrderIssued(_)
        | EventPayload::ChildExecutionStarted(_)
        | EventPayload::BackendEvent { .. }
        | EventPayload::ArtifactStored { .. } => LifecycleIdentities::none(),
    }
}

/// The identities that a payload holds in its identity fields.
pub open spec fn payload_identities(payload: EventPayload) -> Set<u128> {
    Set::new(|identity: u128| identity_fields(payload).contains(identity))
}

/// What the identity fields of a payload hold.
pub fn lifecycle_identities_of(payload: &EventPayload) -> (r: LifecycleIdentities)
    ensures
        r == identity_fields(*payload),
{
    match payload {
        EventPayload::RunClaimed(claim) => LifecycleIdentities {
            claim_id: Some(claim.claim_id.0),
            runtime_instance_id: Some(claim.runtime_instance_id.0),
            ..LifecycleIdentities::none()
        },
        EventPayload::CancellationRequested(requested) => LifecycleIdentities {
            cancellation_request_id: Some(requested.cancellation_request_id.0),
            ..LifecycleIdentities::none()
        },
        EventPayload::RootPlanningFailed(failed) => LifecycleIdentities {
            claim_event_id: Some(failed.claim_event_id.0),
            claim_id: Some(failed.claim_id.0),
            ..failed.other_identities
        },
        EventPayload::PlannerTurnPreparedV1(prepared) => LifecycleIdentities {
            claim_event_id: Some(prepared.claim_event_id.0),
            claim_id: Some(prepared.claim_id.0),
            claim_runtime_instance_id: Some(prepared.claim_runtime_instance_id.0),
            ..LifecycleIdentities::none()
        },
        EventPayload::RepositoryWriterLeaseRevoked(revoked) => LifecycleIdentities {
            claim_event_id: Some(revoked.claim_event_id.0),
            claim_id: Some(revoked.claim_id.0),
            claim_runtime_instance_id: Some(revoked.claim_runtime_instance_id.0),
            capture_lease_id: Some(revoked.capture.lease_id.0),
            capture_snapshot_lease_event_id: Some(revoked.capture.snapshot_lease_event_id.0),
            ..LifecycleIdentities::none()
        },
        EventPayload::RepositorySnapshotCaptureClaimAdoptedV1(adopted) => LifecycleIdentities {
            prior_claim_event_id: Some(adopted.prior_claim_event_id.0),
            new_claim_event_id: Some(adopted.new_claim_event_id.0),
            ..adopted.other_identities
        },
        EventPayload::RepositorySnapshotLeaseIssued(issued) => LifecycleIdentities {
            snapshot_immutability_lease_id: Some(issued.snapshot.immutability_lease.lease_id.0),
            ..issued.other_identities
        },
        EventPayload::RepositorySnapshotLeaseReleased(released) => LifecycleIdentities {
            lease_id: Some(released.lease_id.0),
            lease_event_id: Some(released.lease_event_id.0),
            ..released.other_identities
        },
        EventPayload::RepositorySnapshotCleanupGrantedV1(grant) => LifecycleIdentities {
            lease_id: Some(grant.lease_id.0),
            snapshot_lease_event_id: Some(grant.snapshot_lease_event_id.0),
            writer_revocation_event_id: Some(grant.writer_revocation_event_id.0),
            cleanup_grant_event_id: Some(grant.cleanup_grant_event_id.0),
            cleanup_grant_id: Some(grant.cleanup_grant_id.0),
            recovery_id: Some(grant.recovery_id.0),
            local_cleanup_id: Some(grant.local_cleanup_id.0),
            closure_event_id: Some(grant.closure_event_id.0),
            workspace_finalized_event_id: Some(grant.workspace_finalized_event_id.0),
            cleanup_actor_id: Some(grant.cleanup_actor_id.0),
            cleanup_runtime_instance_id: Some(grant.cleanup_runtime_instance_id.0),
            lifecycle_owner_actor_id: Some(grant.lifecycle_owner_actor_id.0),
            lifecycle_owner_runtime_instance_id: Some(grant.lifecycle_owner_runtime_instance_id.0),
            source_claim_event_id: Some(grant.source_claim_event_id.0),
            source_claim_id: Some(grant.source_claim_id.0),
            source_claim_actor_id: Some(grant.source_claim_actor_id.0),
            source_claim_runtime_instance_id: Some(grant.source_claim_runtime_instance_id.0),
            ..LifecycleIdentities::none()
        },
        EventPayload::RepositorySnapshotCaptureAbandonedV2(closure) => LifecycleIdentities {
            cleanup_grant_event_id: Some(closure.cleanup_grant_event_id.0),
            closure_event_id: Some(closure.closure_event_id.0),
            ..closure.other_identities
        },
        EventPayload::RepositorySnapshotReleaseReconciledV2(closure) => LifecycleIdentities {
            cleanup_grant_event_id: Some(closure.cleanup_grant_event_id.0),
            closure_event_id: Some(closure.closure_event_id.0),
            ..closure.other_identities
        },
        EventPayload::WorkspaceRecoveryFinalizedV1(finalized) => LifecycleIdentities {
            finalization_id: Some(finalized.finalization_id.0),
            ..finalized.other_identities
        },
        EventPayload::RootPlanningStageFailed(record) => record.other_identities,
        EventPayload::PlannerInferencePrepared(record) => record.other_identities,
        EventPayload::PlannerInferenceObserved(record) => record.other_identities,
        EventPayload::PlannerInferenceOutcomeUnknown(record) => record.other_identities,
        EventPayload::ReadOperationPrepared(record) => record.other_identities,
        EventPayload::ReadOperationObserved(record) => record.other_identities,
        EventPayload::PlanProposalRejected(record) => record.other_identities,
        EventPayload::PlanProposalAccepted(record) => record.other_identities,
        EventPayload::PlanSemanticReviewAccepted(record) => record.other_identities,
        EventPayload::PlanSemanticReviewRejected(record) => record.other_identities,
        EventPayload::ReconCompletionGateAcceptedV1(record) => record.other_identities,
        EventPayload::RepositorySnapshotCaptureAbandonedV1(record) => record.other_identities,
        EventPayload::RepositorySnapshotReleaseReconciledV1(record) => record.other_identities,
        EventPayload::RepositoryBrokerEpochActivatedV1(record) => record.other_identities,
        EventPayload::ChildDelegationAuthorized(record) => record.other_identities,
        EventPayload::ChildExecutionClaimAdopted(record) => record.other_identities,
        EventPayload::ChildModelInferencePrepared(record) => record.other_identities,
        EventPayload::ChildModelInferencePreparedV2(record) => record.other_identities,
        EventPayload::ChildModelInferenceObserved(record) => record.other_identities,
        EventPayload::ChildModelInferenceOutcomeUnknown(record) => record.other_identities,
        EventPayload::ChildToolPrepared(record) => record.other_identities,
        EventPayload::ChildToolObserved(record) => record.other_identities,
        EventPayload::ChildToolOutcomeUnknown(record) => record.other_identities,
        EventPayload::ChildToolPreparedV2(record) => record.other_identities,
        EventPayload::ChildToolDispatchStartedV2(record) => record.other_identities,
        EventPayload::ChildToolObservedV2(record) => record.other_identities,
        EventPayload::ChildToolOutcomeUnknownV2(record) => record.other_identities,
        EventPayload::ChildHandoffCommitted(record) => record.other_identities,
        EventPayload::ChildExecutionFinished(record) => record.other_identities,
        EventPayload::SessionCreated { .. }
        | EventPayload::UserInput { .. }
        | EventPayload::RunCreated { .. }
        | EventPayload::RunStateChanged { .. }
        | EventPayload::PlannerTurnObservedV1(_)
        | EventPayload::PlannerTurnUnknownV1(_)
        | EventPayload::PlannerTurnAcceptedV1(_)
        | EventPayload::PlannerTurnRejectedV1(_)
        | EventPayload::ChildDelegationAuthorizedV2(_)
        | EventPayload::ChildWorkOrderIssued(_)
        | EventPayload::ChildExecutionStarted(_)
        | EventPayload::BackendEvent { .. }
        | EventPayload::ArtifactStored { .. } => LifecycleIdentities::none(),
    }
}

/// Whether a payload holds `identity` in one of its identity fields.
pub fn payload_holds_identity(payload: &EventPayload, identity: u128) -> (r: bool)
    ensures
        r == payload_identities(*payload).contains(identity),
{
    lifecycle_identities_of(payload).holds(identity)
}

/// An event holds the identities that it names, and no others: a claim its own and its runtime's, a
/// request to cancel its own, a prepared turn those of its claim, a revoked writer those of its claim and
/// of the capture, and an event that takes no part in a lifecycle none.
pub proof fn law_events_hold_the_identities_they_name(payload: EventPayload, identity: u128)
    ensures
        payload matches EventPayload::RunClaimed(claim) ==> (payload_identities(payload).contains(
            identity,
        ) <==> (identity == claim.claim_id.0 || identity == claim.runtime_instance_id.0)),
        payload matches EventPayload::CancellationRequested(requested) ==> (payload_identities(
            payload,
        ).contains(identity) <==> identity == requested.cancellation_request_id.0),
        payload matches EventPayload::PlannerTurnPreparedV1(prepared) ==> (payload_identities(
            payload,
        ).contains(identity) <==> (identity == prepared.claim_event_id.0 || identity
            == prepared.claim_id.0 || identity == prepared.claim_runtime_instance_id.0)),
        payload matches EventPayload::RepositoryWriterLeaseRevoked(revoked) ==> (payload_identities(
            payload,
        ).contains(identity) <==> (identity == revoked.claim_event_id.0 || identity
            == revoked.claim_id.0 || identity == revoked.claim_runtime_instance_id.0 || identity
            == revoked.capture.lease_id.0 || identity
            == revoked.capture.snapshot_lease_event_id.0)),
        payload matches EventPayload::RepositorySnapshotLeaseReleased(released)
            ==> payload_identities(payload).contains(released.lease_id.0) && payload_identities(
            payload,
        ).contains(released.lease_event_id.0),
        payload matches EventPayload::RepositorySnapshotLeaseIssued(issued) ==> payload_identities(
            payload,
        ).contains(issued.snapshot.immutability_lease.lease_id.0),
        payload matches EventPayload::RepositorySnapshotCaptureClaimAdoptedV1(adopted)
            ==> payload_identities(payload).contains(adopted.prior_claim_event_id.0)
            && payload_identities(payload).contains(adopted.new_claim_event_id.0),
        payload matches EventPayload::RepositorySnapshotCleanupGrantedV1(grant) ==> {
            &&& payload_identities(payload).contains(grant.cleanup_grant_id.0)
            &&& payload_identities(payload).contains(grant.cleanup_grant_event_id.0)
            &&& payload_identities(payload).contains(grant.recovery_id.0)
            &&& payload_identities(payload).contains(grant.local_cleanup_id.0)
            &&& payload_identities(payload).contains(grant.closure_event_id.0)
            &&& payload_identities(payload).contains(grant.workspace_finalized_event_id.0)
            &&& payload_identities(payload).contains(grant.source_claim_event_id.0)
            &&& payload_identities(payload).contains(grant.source_claim_id.0)
        },
        payload matches EventPayload::WorkspaceRecoveryFinalizedV1(finalized)
            ==> payload_identities(payload).contains(finalized.finalization_id.0),
        payload is SessionCreated || payload is UserInput || payload is RunCreated
            || payload is RunStateChanged || payload is PlannerTurnAcceptedV1
            || payload is PlannerTurnRejectedV1 || payload is BackendEvent
            || payload is ArtifactStored ==> !payload_identities(payload).contains(identity),
{
}

} // verus!

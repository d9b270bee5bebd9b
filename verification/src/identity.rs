//! Nominal identities. Each wraps the 128 bits of a UUID; zero is the nil identity.

use vstd::prelude::*;

verus! {

#[derive(Clone, Copy, Debug, PartialEq, Eq, Structural)]
pub struct ActorId(pub u128);

#[derive(Clone, Copy, Debug, PartialEq, Eq, Structural)]
pub struct EventId(pub u128);

#[derive(Clone, Copy, Debug, PartialEq, Eq, Structural)]
pub struct RunId(pub u128);

#[derive(Clone, Copy, Debug, PartialEq, Eq, Structural)]
pub struct SessionId(pub u128);

#[derive(Clone, Copy, Debug, PartialEq, Eq, Structural)]
pub struct RunClaimId(pub u128);

#[derive(Clone, Copy, Debug, PartialEq, Eq, Structural)]
pub struct RuntimeInstanceId(pub u128);

#[derive(Clone, Copy, Debug, PartialEq, Eq, Structural)]
pub struct CancellationRequestId(pub u128);

#[derive(Clone, Copy, Debug, PartialEq, Eq, Structural)]
pub struct InferenceAttemptId(pub u128);

#[derive(Clone, Copy, Debug, PartialEq, Eq, Structural)]
pub struct TokenReservationId(pub u128);

#[derive(Clone, Copy, Debug, PartialEq, Eq, Structural)]
pub struct PlanProposalId(pub u128);

#[derive(Clone, Copy, Debug, PartialEq, Eq, Structural)]
pub struct PlanSemanticReviewId(pub u128);

#[derive(Clone, Copy, Debug, PartialEq, Eq, Structural)]
pub struct RootPlanningStageFailureId(pub u128);

#[derive(Clone, Copy, Debug, PartialEq, Eq, Structural)]
pub struct PlannerTurnId(pub u128);

#[derive(Clone, Copy, Debug, PartialEq, Eq, Structural)]
pub struct PlannerEvidenceEntryId(pub u128);

#[derive(Clone, Copy, Debug, PartialEq, Eq, Structural)]
pub struct PlannerDelegateDirectiveId(pub u128);

#[derive(Clone, Copy, Debug, PartialEq, Eq, Structural)]
pub struct ChildWorkOrderId(pub u128);

#[derive(Clone, Copy, Debug, PartialEq, Eq, Structural)]
pub struct ChildAttemptId(pub u128);

#[derive(Clone, Copy, Debug, PartialEq, Eq, Structural)]
pub struct ChildLocalPlanId(pub u128);

#[derive(Clone, Copy, Debug, PartialEq, Eq, Structural)]
pub struct ChildExecutionId(pub u128);

#[derive(Clone, Copy, Debug, PartialEq, Eq, Structural)]
pub struct ChildActorId(pub u128);

#[derive(Clone, Copy, Debug, PartialEq, Eq, Structural)]
pub struct ChildContextId(pub u128);

#[derive(Clone, Copy, Debug, PartialEq, Eq, Structural)]
pub struct ChildDelegationAuthorizationId(pub u128);

#[derive(Clone, Copy, Debug, PartialEq, Eq, Structural)]
pub struct ChildHandoffId(pub u128);

#[derive(Clone, Copy, Debug, PartialEq, Eq, Structural)]
pub struct RepositoryToolGrantId(pub u128);

#[derive(Clone, Copy, Debug, PartialEq, Eq, Structural)]
pub struct RepositorySnapshotLeaseId(pub u128);

#[derive(Clone, Copy, Debug, PartialEq, Eq, Structural)]
pub struct RepositorySnapshotCleanupGrantId(pub u128);

#[derive(Clone, Copy, Debug, PartialEq, Eq, Structural)]
pub struct RepositorySnapshotRecoveryId(pub u128);

#[derive(Clone, Copy, Debug, PartialEq, Eq, Structural)]
pub struct RepositorySnapshotLocalCleanupId(pub u128);

#[derive(Clone, Copy, Debug, PartialEq, Eq, Structural)]
pub struct WorkspaceRecoveryFinalizationId(pub u128);

} // verus!

//! The event envelope and the closed vocabulary of payloads.

use vstd::prelude::*;
use crate::artifact::{ArtifactRef, Provenance};
use crate::child::{ChildDelegationAuthorized, ChildDelegationAuthorizedV2, ChildExecutionClaimAdopted, ChildExecutionFinished, ChildExecutionStarted, ChildHandoffCommitted, ChildModelInferenceObserved, ChildModelInferenceOutcomeUnknown, ChildModelInferencePrepared, ChildModelInferencePreparedV2, ChildToolDispatchStartedV2, ChildToolObserved, ChildToolObservedV2, ChildToolOutcomeUnknown, ChildToolPrepared, ChildWorkOrderIssued};
use crate::cleanup::{RepositorySnapshotCleanupGrantedV1};
use crate::clock::{Timestamp};
use crate::identity::{ActorId, EventId, RunId, SessionId};
use crate::planner_turn::{PlannerTurnAcceptedV1, PlannerTurnObservedV1, PlannerTurnPreparedV1, PlannerTurnRejectedV1, PlannerTurnUnknownV1, ReconCompletionGateAcceptedV1};
use crate::planning::{PlanProposalAccepted, PlanProposalRejected, PlanSemanticReviewAccepted, PlanSemanticReviewRejected, PlannerInferenceObserved, PlannerInferenceOutcomeUnknown, PlannerInferencePrepared, ReadOperationObserved, ReadOperationPrepared, RootPlanningFailed, RootPlanningStageFailed};
use crate::run::{CancellationRequested, InputItem, Run, RunClaimed, RunState, Session};
use crate::snapshot::{RepositoryBrokerEpochActivatedV1, RepositorySnapshotCaptureAbandonedV1, RepositorySnapshotCaptureClaimAdoptedV1, RepositorySnapshotClosureV2, RepositorySnapshotLeaseIssuedV1, RepositorySnapshotLeaseReleasedV1, RepositorySnapshotReleaseReconciledV1, RepositoryWriterLeaseRevokedV1, WorkspaceRecoveryFinalizedV1};
use crate::text::{Text};

verus! {

/// Everything that an event can record.
#[derive(Clone, Debug)]
pub enum EventPayload {
    SessionCreated { session: Session },
    UserInput { items: Vec<InputItem> },
    RunCreated { run: Run },
    RunStateChanged { from: RunState, to: RunState },
    RunClaimed(RunClaimed),
    CancellationRequested(CancellationRequested),
    RootPlanningFailed(RootPlanningFailed),
    RootPlanningStageFailed(RootPlanningStageFailed),
    PlannerInferencePrepared(PlannerInferencePrepared),
    PlannerInferenceObserved(PlannerInferenceObserved),
    PlannerInferenceOutcomeUnknown(PlannerInferenceOutcomeUnknown),
    ReadOperationPrepared(ReadOperationPrepared),
    ReadOperationObserved(ReadOperationObserved),
    PlanProposalRejected(PlanProposalRejected),
    PlanProposalAccepted(PlanProposalAccepted),
    PlanSemanticReviewAccepted(PlanSemanticReviewAccepted),
    PlanSemanticReviewRejected(PlanSemanticReviewRejected),
    PlannerTurnPreparedV1(PlannerTurnPreparedV1),
    PlannerTurnObservedV1(PlannerTurnObservedV1),
    PlannerTurnUnknownV1(PlannerTurnUnknownV1),
    PlannerTurnAcceptedV1(PlannerTurnAcceptedV1),
    PlannerTurnRejectedV1(PlannerTurnRejectedV1),
    ReconCompletionGateAcceptedV1(ReconCompletionGateAcceptedV1),
    RepositoryWriterLeaseRevoked(RepositoryWriterLeaseRevokedV1),
    RepositorySnapshotCaptureClaimAdoptedV1(RepositorySnapshotCaptureClaimAdoptedV1),
    RepositorySnapshotCaptureAbandonedV1(RepositorySnapshotCaptureAbandonedV1),
    RepositorySnapshotLeaseIssued(RepositorySnapshotLeaseIssuedV1),
    RepositorySnapshotLeaseReleased(RepositorySnapshotLeaseReleasedV1),
    RepositorySnapshotReleaseReconciledV1(RepositorySnapshotReleaseReconciledV1),
    RepositorySnapshotCleanupGrantedV1(RepositorySnapshotCleanupGrantedV1),
    RepositorySnapshotCaptureAbandonedV2(RepositorySnapshotClosureV2),
    RepositorySnapshotReleaseReconciledV2(RepositorySnapshotClosureV2),
    WorkspaceRecoveryFinalizedV1(WorkspaceRecoveryFinalizedV1),
    RepositoryBrokerEpochActivatedV1(RepositoryBrokerEpochActivatedV1),
    ChildDelegationAuthorized(ChildDelegationAuthorized),
    ChildDelegationAuthorizedV2(ChildDelegationAuthorizedV2),
    ChildWorkOrderIssued(ChildWorkOrderIssued),
    ChildExecutionClaimAdopted(ChildExecutionClaimAdopted),
    ChildExecutionStarted(ChildExecutionStarted),
    ChildModelInferencePrepared(ChildModelInferencePrepared),
    ChildModelInferencePreparedV2(ChildModelInferencePreparedV2),
    ChildModelInferenceObserved(ChildModelInferenceObserved),
    ChildModelInferenceOutcomeUnknown(ChildModelInferenceOutcomeUnknown),
    ChildToolPrepared(ChildToolPrepared),
    ChildToolObserved(ChildToolObserved),
    ChildToolOutcomeUnknown(ChildToolOutcomeUnknown),
    ChildToolPreparedV2(ChildToolPrepared),
    ChildToolDispatchStartedV2(ChildToolDispatchStartedV2),
    ChildToolObservedV2(ChildToolObservedV2),
    ChildToolOutcomeUnknownV2(ChildToolOutcomeUnknown),
    ChildHandoffCommitted(ChildHandoffCommitted),
    ChildExecutionFinished(ChildExecutionFinished),
    BackendEvent { event_name: Text },
    ArtifactStored { artifact: ArtifactRef },
}

impl PartialEq for EventPayload {
    fn eq(&self, other: &Self) -> (r: bool) {
        match (self, other) {
            (EventPayload::SessionCreated { session }, EventPayload::SessionCreated { session: other_session }) => {
                session == other_session
            },
            (EventPayload::UserInput { items }, EventPayload::UserInput { items: other_items }) => {
                items == other_items
            },
            (EventPayload::RunCreated { run }, EventPayload::RunCreated { run: other_run }) => {
                run == other_run
            },
            (EventPayload::RunStateChanged { from, to }, EventPayload::RunStateChanged { from: other_from, to: other_to }) => {
                from == other_from
                    && to == other_to
            },
            (EventPayload::RunClaimed(left), EventPayload::RunClaimed(right)) => left == right,
            (EventPayload::CancellationRequested(left), EventPayload::CancellationRequested(right)) => left == right,
            (EventPayload::RootPlanningFailed(left), EventPayload::RootPlanningFailed(right)) => left == right,
            (EventPayload::RootPlanningStageFailed(left), EventPayload::RootPlanningStageFailed(right)) => left == right,
            (EventPayload::PlannerInferencePrepared(left), EventPayload::PlannerInferencePrepared(right)) => left == right,
            (EventPayload::PlannerInferenceObserved(left), EventPayload::PlannerInferenceObserved(right)) => left == right,
            (EventPayload::PlannerInferenceOutcomeUnknown(left), EventPayload::PlannerInferenceOutcomeUnknown(right)) => left == right,
            (EventPayload::ReadOperationPrepared(left), EventPayload::ReadOperationPrepared(right)) => left == right,
            (EventPayload::ReadOperationObserved(left), EventPayload::ReadOperationObserved(right)) => left == right,
            (EventPayload::PlanProposalRejected(left), EventPayload::PlanProposalRejected(right)) => left == right,
            (EventPayload::PlanProposalAccepted(left), EventPayload::PlanProposalAccepted(right)) => left == right,
            (EventPayload::PlanSemanticReviewAccepted(left), EventPayload::PlanSemanticReviewAccepted(right)) => left == right,
            (EventPayload::PlanSemanticReviewRejected(left), EventPayload::PlanSemanticReviewRejected(right)) => left == right,
            (EventPayload::PlannerTurnPreparedV1(left), EventPayload::PlannerTurnPreparedV1(right)) => left == right,
            (EventPayload::PlannerTurnObservedV1(left), EventPayload::PlannerTurnObservedV1(right)) => left == right,
            (EventPayload::PlannerTurnUnknownV1(left), EventPayload::PlannerTurnUnknownV1(right)) => left == right,
            (EventPayload::PlannerTurnAcceptedV1(left), EventPayload::PlannerTurnAcceptedV1(right)) => left == right,
            (EventPayload::PlannerTurnRejectedV1(left), EventPayload::PlannerTurnRejectedV1(right)) => left == right,
            (EventPayload::ReconCompletionGateAcceptedV1(left), EventPayload::ReconCompletionGateAcceptedV1(right)) => left == right,
            (EventPayload::RepositoryWriterLeaseRevoked(left), EventPayload::RepositoryWriterLeaseRevoked(right)) => left == right,
            (EventPayload::RepositorySnapshotCaptureClaimAdoptedV1(left), EventPayload::RepositorySnapshotCaptureClaimAdoptedV1(right)) => left == right,
            (EventPayload::RepositorySnapshotCaptureAbandonedV1(left), EventPayload::RepositorySnapshotCaptureAbandonedV1(right)) => left == right,
            (EventPayload::RepositorySnapshotLeaseIssued(left), EventPayload::RepositorySnapshotLeaseIssued(right)) => left == right,
            (EventPayload::RepositorySnapshotLeaseReleased(left), EventPayload::RepositorySnapshotLeaseReleased(right)) => left == right,
            (EventPayload::RepositorySnapshotReleaseReconciledV1(left), EventPayload::RepositorySnapshotReleaseReconciledV1(right)) => left == right,
            (EventPayload::RepositorySnapshotCleanupGrantedV1(left), EventPayload::RepositorySnapshotCleanupGrantedV1(right)) => left == right,
            (EventPayload::RepositorySnapshotCaptureAbandonedV2(left), EventPayload::RepositorySnapshotCaptureAbandonedV2(right)) => left == right,
            (EventPayload::RepositorySnapshotReleaseReconciledV2(left), EventPayload::RepositorySnapshotReleaseReconciledV2(right)) => left == right,
            (EventPayload::WorkspaceRecoveryFinalizedV1(left), EventPayload::WorkspaceRecoveryFinalizedV1(right)) => left == right,
            (EventPayload::RepositoryBrokerEpochActivatedV1(left), EventPayload::RepositoryBrokerEpochActivatedV1(right)) => left == right,
            (EventPayload::ChildDelegationAuthorized(left), EventPayload::ChildDelegationAuthorized(right)) => left == right,
            (EventPayload::ChildDelegationAuthorizedV2(left), EventPayload::ChildDelegationAuthorizedV2(right)) => left == right,
            (EventPayload::ChildWorkOrderIssued(left), EventPayload::ChildWorkOrderIssued(right)) => left == right,
            (EventPayload::ChildExecutionClaimAdopted(left), EventPayload::ChildExecutionClaimAdopted(right)) => left == right,
            (EventPayload::ChildExecutionStarted(left), EventPayload::ChildExecutionStarted(right)) => left == right,
            (EventPayload::ChildModelInferencePrepared(left), EventPayload::ChildModelInferencePrepared(right)) => left == right,
            (EventPayload::ChildModelInferencePreparedV2(left), EventPayload::ChildModelInferencePreparedV2(right)) => left == right,
            (EventPayload::ChildModelInferenceObserved(left), EventPayload::ChildModelInferenceObserved(right)) => left == right,
            (EventPayload::ChildModelInferenceOutcomeUnknown(left), EventPayload::ChildModelInferenceOutcomeUnknown(right)) => left == right,
            (EventPayload::ChildToolPrepared(left), EventPayload::ChildToolPrepared(right)) => left == right,
            (EventPayload::ChildToolObserved(left), EventPayload::ChildToolObserved(right)) => left == right,
            (EventPayload::ChildToolOutcomeUnknown(left), EventPayload::ChildToolOutcomeUnknown(right)) => left == right,
            (EventPayload::ChildToolPreparedV2(left), EventPayload::ChildToolPreparedV2(right)) => left == right,
            (EventPayload::ChildToolDispatchStartedV2(left), EventPayload::ChildToolDispatchStartedV2(right)) => left == right,
            (EventPayload::ChildToolObservedV2(left), EventPayload::ChildToolObservedV2(right)) => left == right,
            (EventPayload::ChildToolOutcomeUnknownV2(left), EventPayload::ChildToolOutcomeUnknownV2(right)) => left == right,
            (EventPayload::ChildHandoffCommitted(left), EventPayload::ChildHandoffCommitted(right)) => left == right,
            (EventPayload::ChildExecutionFinished(left), EventPayload::ChildExecutionFinished(right)) => left == right,
            (EventPayload::BackendEvent { event_name }, EventPayload::BackendEvent { event_name: other_event_name }) => {
                event_name == other_event_name
            },
            (EventPayload::ArtifactStored { artifact }, EventPayload::ArtifactStored { artifact: other_artifact }) => {
                artifact == other_artifact
            },
            _ => false,
        }
    }
}

impl Eq for EventPayload {
}

impl vstd::std_specs::cmp::PartialEqSpecImpl for EventPayload {
    open spec fn obeys_eq_spec() -> bool {
        true
    }

    open spec fn eq_spec(&self, other: &Self) -> bool {
        match (self, other) {
            (EventPayload::SessionCreated { session }, EventPayload::SessionCreated { session: other_session }) => {
                &&& vstd::std_specs::cmp::PartialEqSpec::eq_spec(session, other_session)
            },
            (EventPayload::UserInput { items }, EventPayload::UserInput { items: other_items }) => {
                &&& vstd::std_specs::cmp::PartialEqSpec::eq_spec(items, other_items)
            },
            (EventPayload::RunCreated { run }, EventPayload::RunCreated { run: other_run }) => {
                &&& vstd::std_specs::cmp::PartialEqSpec::eq_spec(run, other_run)
            },
            (EventPayload::RunStateChanged { from, to }, EventPayload::RunStateChanged { from: other_from, to: other_to }) => {
                &&& from == other_from
                &&& to == other_to
            },
            (EventPayload::RunClaimed(left), EventPayload::RunClaimed(right)) => left == right,
            (EventPayload::CancellationRequested(left), EventPayload::CancellationRequested(right)) => left == right,
            (EventPayload::RootPlanningFailed(left), EventPayload::RootPlanningFailed(right)) => vstd::std_specs::cmp::PartialEqSpec::eq_spec(left, right),
            (EventPayload::RootPlanningStageFailed(left), EventPayload::RootPlanningStageFailed(right)) => vstd::std_specs::cmp::PartialEqSpec::eq_spec(left, right),
            (EventPayload::PlannerInferencePrepared(left), EventPayload::PlannerInferencePrepared(right)) => vstd::std_specs::cmp::PartialEqSpec::eq_spec(left, right),
            (EventPayload::PlannerInferenceObserved(left), EventPayload::PlannerInferenceObserved(right)) => vstd::std_specs::cmp::PartialEqSpec::eq_spec(left, right),
            (EventPayload::PlannerInferenceOutcomeUnknown(left), EventPayload::PlannerInferenceOutcomeUnknown(right)) => left == right,
            (EventPayload::ReadOperationPrepared(left), EventPayload::ReadOperationPrepared(right)) => vstd::std_specs::cmp::PartialEqSpec::eq_spec(left, right),
            (EventPayload::ReadOperationObserved(left), EventPayload::ReadOperationObserved(right)) => vstd::std_specs::cmp::PartialEqSpec::eq_spec(left, right),
            (EventPayload::PlanProposalRejected(left), EventPayload::PlanProposalRejected(right)) => vstd::std_specs::cmp::PartialEqSpec::eq_spec(left, right),
            (EventPayload::PlanProposalAccepted(left), EventPayload::PlanProposalAccepted(right)) => vstd::std_specs::cmp::PartialEqSpec::eq_spec(left, right),
            (EventPayload::PlanSemanticReviewAccepted(left), EventPayload::PlanSemanticReviewAccepted(right)) => vstd::std_specs::cmp::PartialEqSpec::eq_spec(left, right),
            (EventPayload::PlanSemanticReviewRejected(left), EventPayload::PlanSemanticReviewRejected(right)) => vstd::std_specs::cmp::PartialEqSpec::eq_spec(left, right),
            (EventPayload::PlannerTurnPreparedV1(left), EventPayload::PlannerTurnPreparedV1(right)) => vstd::std_specs::cmp::PartialEqSpec::eq_spec(left, right),
            (EventPayload::PlannerTurnObservedV1(left), EventPayload::PlannerTurnObservedV1(right)) => vstd::std_specs::cmp::PartialEqSpec::eq_spec(left, right),
            (EventPayload::PlannerTurnUnknownV1(left), EventPayload::PlannerTurnUnknownV1(right)) => vstd::std_specs::cmp::PartialEqSpec::eq_spec(left, right),
            (EventPayload::PlannerTurnAcceptedV1(left), EventPayload::PlannerTurnAcceptedV1(right)) => vstd::std_specs::cmp::PartialEqSpec::eq_spec(left, right),
            (EventPayload::PlannerTurnRejectedV1(left), EventPayload::PlannerTurnRejectedV1(right)) => vstd::std_specs::cmp::PartialEqSpec::eq_spec(left, right),
            (EventPayload::ReconCompletionGateAcceptedV1(left), EventPayload::ReconCompletionGateAcceptedV1(right)) => vstd::std_specs::cmp::PartialEqSpec::eq_spec(left, right),
            (EventPayload::RepositoryWriterLeaseRevoked(left), EventPayload::RepositoryWriterLeaseRevoked(right)) => vstd::std_specs::cmp::PartialEqSpec::eq_spec(left, right),
            (EventPayload::RepositorySnapshotCaptureClaimAdoptedV1(left), EventPayload::RepositorySnapshotCaptureClaimAdoptedV1(right)) => left == right,
            (EventPayload::RepositorySnapshotCaptureAbandonedV1(left), EventPayload::RepositorySnapshotCaptureAbandonedV1(right)) => vstd::std_specs::cmp::PartialEqSpec::eq_spec(left, right),
            (EventPayload::RepositorySnapshotLeaseIssued(left), EventPayload::RepositorySnapshotLeaseIssued(right)) => vstd::std_specs::cmp::PartialEqSpec::eq_spec(left, right),
            (EventPayload::RepositorySnapshotLeaseReleased(left), EventPayload::RepositorySnapshotLeaseReleased(right)) => vstd::std_specs::cmp::PartialEqSpec::eq_spec(left, right),
            (EventPayload::RepositorySnapshotReleaseReconciledV1(left), EventPayload::RepositorySnapshotReleaseReconciledV1(right)) => vstd::std_specs::cmp::PartialEqSpec::eq_spec(left, right),
            (EventPayload::RepositorySnapshotCleanupGrantedV1(left), EventPayload::RepositorySnapshotCleanupGrantedV1(right)) => vstd::std_specs::cmp::PartialEqSpec::eq_spec(left, right),
            (EventPayload::RepositorySnapshotCaptureAbandonedV2(left), EventPayload::RepositorySnapshotCaptureAbandonedV2(right)) => left == right,
            (EventPayload::RepositorySnapshotReleaseReconciledV2(left), EventPayload::RepositorySnapshotReleaseReconciledV2(right)) => left == right,
            (EventPayload::WorkspaceRecoveryFinalizedV1(left), EventPayload::WorkspaceRecoveryFinalizedV1(right)) => left == right,
            (EventPayload::RepositoryBrokerEpochActivatedV1(left), EventPayload::RepositoryBrokerEpochActivatedV1(right)) => left == right,
            (EventPayload::ChildDelegationAuthorized(left), EventPayload::ChildDelegationAuthorized(right)) => vstd::std_specs::cmp::PartialEqSpec::eq_spec(left, right),
            (EventPayload::ChildDelegationAuthorizedV2(left), EventPayload::ChildDelegationAuthorizedV2(right)) => vstd::std_specs::cmp::PartialEqSpec::eq_spec(left, right),
            (EventPayload::ChildWorkOrderIssued(left), EventPayload::ChildWorkOrderIssued(right)) => vstd::std_specs::cmp::PartialEqSpec::eq_spec(left, right),
            (EventPayload::ChildExecutionClaimAdopted(left), EventPayload::ChildExecutionClaimAdopted(right)) => left == right,
            (EventPayload::ChildExecutionStarted(left), EventPayload::ChildExecutionStarted(right)) => left == right,
            (EventPayload::ChildModelInferencePrepared(left), EventPayload::ChildModelInferencePrepared(right)) => vstd::std_specs::cmp::PartialEqSpec::eq_spec(left, right),
            (EventPayload::ChildModelInferencePreparedV2(left), EventPayload::ChildModelInferencePreparedV2(right)) => vstd::std_specs::cmp::PartialEqSpec::eq_spec(left, right),
            (EventPayload::ChildModelInferenceObserved(left), EventPayload::ChildModelInferenceObserved(right)) => vstd::std_specs::cmp::PartialEqSpec::eq_spec(left, right),
            (EventPayload::ChildModelInferenceOutcomeUnknown(left), EventPayload::ChildModelInferenceOutcomeUnknown(right)) => vstd::std_specs::cmp::PartialEqSpec::eq_spec(left, right),
            (EventPayload::ChildToolPrepared(left), EventPayload::ChildToolPrepared(right)) => vstd::std_specs::cmp::PartialEqSpec::eq_spec(left, right),
            (EventPayload::ChildToolObserved(left), EventPayload::ChildToolObserved(right)) => vstd::std_specs::cmp::PartialEqSpec::eq_spec(left, right),
            (EventPayload::ChildToolOutcomeUnknown(left), EventPayload::ChildToolOutcomeUnknown(right)) => vstd::std_specs::cmp::PartialEqSpec::eq_spec(left, right),
            (EventPayload::ChildToolPreparedV2(left), EventPayload::ChildToolPreparedV2(right)) => vstd::std_specs::cmp::PartialEqSpec::eq_spec(left, right),
            (EventPayload::ChildToolDispatchStartedV2(left), EventPayload::ChildToolDispatchStartedV2(right)) => vstd::std_specs::cmp::PartialEqSpec::eq_spec(left, right),
            (EventPayload::ChildToolObservedV2(left), EventPayload::ChildToolObservedV2(right)) => vstd::std_specs::cmp::PartialEqSpec::eq_spec(left, right),
            (EventPayload::ChildToolOutcomeUnknownV2(left), EventPayload::ChildToolOutcomeUnknownV2(right)) => vstd::std_specs::cmp::PartialEqSpec::eq_spec(left, right),
            (EventPayload::ChildHandoffCommitted(left), EventPayload::ChildHandoffCommitted(right)) => vstd::std_specs::cmp::PartialEqSpec::eq_spec(left, right),
            (EventPayload::ChildExecutionFinished(left), EventPayload::ChildExecutionFinished(right)) => vstd::std_specs::cmp::PartialEqSpec::eq_spec(left, right),
            (EventPayload::BackendEvent { event_name }, EventPayload::BackendEvent { event_name: other_event_name }) => {
                &&& vstd::std_specs::cmp::PartialEqSpec::eq_spec(event_name, other_event_name)
            },
            (EventPayload::ArtifactStored { artifact }, EventPayload::ArtifactStored { artifact: other_artifact }) => {
                &&& vstd::std_specs::cmp::PartialEqSpec::eq_spec(artifact, other_artifact)
            },
            _ => false,
        }
    }
}

/// One durable event.
#[derive(Clone, Debug)]
pub struct EventEnvelope {
    pub id: EventId,
    pub sequence: u64,
    pub session_id: SessionId,
    pub run_id: Option<RunId>,
    pub actor_id: ActorId,
    pub causal_parent: Option<EventId>,
    pub occurred_at: Timestamp,
    pub provenance: Provenance,
    pub payload: EventPayload,
}

impl PartialEq for EventEnvelope {
    fn eq(&self, other: &Self) -> (r: bool) {
        self.id == other.id
            && self.sequence == other.sequence
            && self.session_id == other.session_id
            && self.run_id == other.run_id
            && self.actor_id == other.actor_id
            && self.causal_parent == other.causal_parent
            && self.occurred_at == other.occurred_at
            && self.provenance == other.provenance
            && self.payload == other.payload
    }
}

impl Eq for EventEnvelope {
}

impl vstd::std_specs::cmp::PartialEqSpecImpl for EventEnvelope {
    open spec fn obeys_eq_spec() -> bool {
        true
    }

    open spec fn eq_spec(&self, other: &Self) -> bool {
        &&& self.id == other.id
        &&& self.sequence == other.sequence
        &&& self.session_id == other.session_id
        &&& self.run_id == other.run_id
        &&& self.actor_id == other.actor_id
        &&& self.causal_parent == other.causal_parent
        &&& self.occurred_at == other.occurred_at
        &&& vstd::std_specs::cmp::PartialEqSpec::eq_spec(&self.provenance, &other.provenance)
        &&& vstd::std_specs::cmp::PartialEqSpec::eq_spec(&self.payload, &other.payload)
    }
}

/// An event before it is given its identity, its sequence and its time.
#[derive(Clone, Debug)]
pub struct NewEvent {
    pub session_id: SessionId,
    pub run_id: Option<RunId>,
    pub actor_id: ActorId,
    pub causal_parent: Option<EventId>,
    pub provenance: Provenance,
    pub payload: EventPayload,
}

impl PartialEq for NewEvent {
    fn eq(&self, other: &Self) -> (r: bool) {
        self.session_id == other.session_id
            && self.run_id == other.run_id
            && self.actor_id == other.actor_id
            && self.causal_parent == other.causal_parent
            && self.provenance == other.provenance
            && self.payload == other.payload
    }
}

impl Eq for NewEvent {
}

impl vstd::std_specs::cmp::PartialEqSpecImpl for NewEvent {
    open spec fn obeys_eq_spec() -> bool {
        true
    }

    open spec fn eq_spec(&self, other: &Self) -> bool {
        &&& self.session_id == other.session_id
        &&& self.run_id == other.run_id
        &&& self.actor_id == other.actor_id
        &&& self.causal_parent == other.causal_parent
        &&& vstd::std_specs::cmp::PartialEqSpec::eq_spec(&self.provenance, &other.provenance)
        &&& vstd::std_specs::cmp::PartialEqSpec::eq_spec(&self.payload, &other.payload)
    }
}

/// An event before it is given its sequence and its time.
#[derive(Clone, Debug)]
pub struct IdentifiedNewEvent {
    pub event_id: EventId,
    pub event: NewEvent,
}

impl PartialEq for IdentifiedNewEvent {
    fn eq(&self, other: &Self) -> (r: bool) {
        self.event_id == other.event_id
            && self.event == other.event
    }
}

impl Eq for IdentifiedNewEvent {
}

impl vstd::std_specs::cmp::PartialEqSpecImpl for IdentifiedNewEvent {
    open spec fn obeys_eq_spec() -> bool {
        true
    }

    open spec fn eq_spec(&self, other: &Self) -> bool {
        &&& self.event_id == other.event_id
        &&& vstd::std_specs::cmp::PartialEqSpec::eq_spec(&self.event, &other.event)
    }
}

} // verus!

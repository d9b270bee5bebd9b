//! Which events may be appended, and what has to accept each of them.

use vstd::prelude::*;
use crate::child::{ChildModelInferenceErrorKind, ChildModelInferenceObservation};
use crate::child_outcome::ChildExecutionOutcome;
use crate::error::StoreError;
use crate::event::{EventEnvelope, EventPayload};
use crate::history::{EventQuery, PayloadFilter};
use crate::identity::ChildWorkOrderId;
use crate::lifecycle::RepositorySnapshotLifecycleReplay;
use crate::run::{RunPurpose, RunState};
use crate::store::Store;

verus! {

/// The boundary through which an event is appended.
#[derive(Clone, Copy, Debug, PartialEq, Eq, Structural)]
pub enum EventAdmission {
    PublicAppend,
    ParallelReconBootstrap,
    ParallelReconClaimRefresh,
}

/// The validation that an event still has to pass.
#[derive(Clone, Copy, Debug, PartialEq, Eq, Structural)]
pub enum EventValidator {
    RunStateChange,
    RunClaim,
    Cancellation,
    RootPlanningFailure,
    RootPlanningStageFailure,
    PlannerInferencePrepared,
    PlannerInferenceObserved,
    PlannerInferenceUnknown,
    ReadOperationPrepared,
    ReadOperationObserved,
    PlanProposalRejected,
    PlanProposalAccepted,
    PlanSemanticReviewAccepted,
    PlanSemanticReviewRejected,
    PlannerTurnPrepared,
    PlannerTurnObserved,
    PlannerTurnUnknown,
    PlannerTurnAccepted,
    PlannerTurnRejected,
    ReconCompletionGate,
    WriterLeaseRevoked,
    CaptureClaimAdopted,
    SnapshotLeaseIssued,
    SnapshotLeaseReleased,
    BrokerEpochActivated,
    ChildDelegation,
    ChildDelegationV2,
    ChildReconnaissance,
}

/// What is left to do for an event that passed the fences.
#[derive(Clone, Copy, Debug, PartialEq, Eq, Structural)]
pub enum GenericAdmission {
    /// Nothing: the event is admitted.
    Admitted,
    /// The named validation.
    Requires(EventValidator),
}

/// The work order that a child event belongs to.
pub open spec fn work_order_of(payload: EventPayload) -> Option<ChildWorkOrderId> {
    match payload {
        EventPayload::ChildWorkOrderIssued(issued) => Some(issued.spec.work_order_id),
        EventPayload::ChildExecutionClaimAdopted(adopted) => Some(adopted.work_order_id),
        EventPayload::ChildExecutionStarted(started) => Some(started.binding.work_order_id),
        EventPayload::ChildModelInferencePrepared(prepared) => Some(prepared.binding.work_order_id),
        EventPayload::ChildModelInferencePreparedV2(prepared) => Some(
            prepared.prepared.binding.work_order_id,
        ),
        EventPayload::ChildModelInferenceObserved(observed) => Some(observed.binding.work_order_id),
        EventPayload::ChildModelInferenceOutcomeUnknown(unknown) => Some(
            unknown.binding.work_order_id,
        ),
        EventPayload::ChildToolPrepared(prepared) => Some(prepared.binding.work_order_id),
        EventPayload::ChildToolObserved(observed) => Some(observed.binding.work_order_id),
        EventPayload::ChildToolOutcomeUnknown(unknown) => Some(unknown.binding.work_order_id),
        EventPayload::ChildToolPreparedV2(prepared) => Some(prepared.binding.work_order_id),
        EventPayload::ChildToolDispatchStartedV2(started) => Some(started.binding.work_order_id),
        EventPayload::ChildToolObservedV2(observed) => Some(observed.binding.work_order_id),
        EventPayload::ChildToolOutcomeUnknownV2(unknown) => Some(unknown.binding.work_order_id),
        EventPayload::ChildHandoffCommitted(handoff) => Some(handoff.binding.work_order_id),
        EventPayload::ChildExecutionFinished(finished) => Some(finished.binding.work_order_id),
        _ => None,
    }
}

/// The work order that a child event belongs to.
pub fn child_work_order_id(payload: &EventPayload) -> (r: Option<ChildWorkOrderId>)
    ensures
        r == work_order_of(*payload),
{
    match payload {
        EventPayload::ChildWorkOrderIssued(issued) => Some(issued.spec.work_order_id),
        EventPayload::ChildExecutionClaimAdopted(adopted) => Some(adopted.work_order_id),
        EventPayload::ChildExecutionStarted(started) => Some(started.binding.work_order_id),
        EventPayload::ChildModelInferencePrepared(prepared) => Some(prepared.binding.work_order_id),
        EventPayload::ChildModelInferencePreparedV2(prepared) => Some(
            prepared.prepared.binding.work_order_id,
        ),
        EventPayload::ChildModelInferenceObserved(observed) => Some(observed.binding.work_order_id),
        EventPayload::ChildModelInferenceOutcomeUnknown(unknown) => Some(
            unknown.binding.work_order_id,
        ),
        EventPayload::ChildToolPrepared(prepared) => Some(prepared.binding.work_order_id),
        EventPayload::ChildToolObserved(observed) => Some(observed.binding.work_order_id),
        EventPayload::ChildToolOutcomeUnknown(unknown) => Some(unknown.binding.work_order_id),
        EventPayload::ChildToolPreparedV2(prepared) => Some(prepared.binding.work_order_id),
        EventPayload::ChildToolDispatchStartedV2(started) => Some(started.binding.work_order_id),
        EventPayload::ChildToolObservedV2(observed) => Some(observed.binding.work_order_id),
        EventPayload::ChildToolOutcomeUnknownV2(unknown) => Some(unknown.binding.work_order_id),
        EventPayload::ChildHandoffCommitted(handoff) => Some(handoff.binding.work_order_id),
        EventPayload::ChildExecutionFinished(finished) => Some(finished.binding.work_order_id),
        _ => None,
    }
}

/// Whether a child event only settles an effect that is already under way: an observed tool call,
/// or an end that a cancellation brought about.
pub open spec fn settles_child_effect(payload: EventPayload) -> bool {
    match payload {
        EventPayload::ChildModelInferenceObserved(observed) =>
            observed.outcome matches ChildModelInferenceObservation::Failed { error } && error.kind
                == ChildModelInferenceErrorKind::Cancelled && error.cancellation is Some,
        EventPayload::ChildModelInferenceOutcomeUnknown(unknown) => unknown.cancellation is Some,
        EventPayload::ChildToolObserved(_) => true,
        EventPayload::ChildToolObservedV2(_) => true,
        EventPayload::ChildToolOutcomeUnknown(unknown) => unknown.cancellation is Some,
        EventPayload::ChildToolOutcomeUnknownV2(unknown) => unknown.cancellation is Some,
        EventPayload::ChildExecutionFinished(finished) => finished.outcome is Cancelled,
        _ => false,
    }
}

/// Whether a child event only settles an effect that is already under way.
pub fn is_child_terminal_reconciliation(payload: &EventPayload) -> (r: bool)
    ensures
        r == settles_child_effect(*payload),
{
    match payload {
        EventPayload::ChildModelInferenceObserved(observed) => match &observed.outcome {
            ChildModelInferenceObservation::Failed { error } => error.kind
                == ChildModelInferenceErrorKind::Cancelled && error.cancellation.is_some(),
            ChildModelInferenceObservation::Succeeded => false,
        },
        EventPayload::ChildModelInferenceOutcomeUnknown(unknown) => unknown.cancellation.is_some(),
        EventPayload::ChildToolObserved(_) | EventPayload::ChildToolObservedV2(_) => true,
        EventPayload::ChildToolOutcomeUnknown(unknown) => unknown.cancellation.is_some(),
        EventPayload::ChildToolOutcomeUnknownV2(unknown) => unknown.cancellation.is_some(),
        EventPayload::ChildExecutionFinished(finished) => matches!(
            finished.outcome,
            ChildExecutionOutcome::Cancelled { .. }
        ),
        _ => false,
    }
}

/// Whether a pending cleanup of the run's snapshot keeps the event out: claims, ends of the run,
/// and everything that touches the snapshot or a child.
pub open spec fn waits_for_cleanup(payload: EventPayload) -> bool {
    match payload {
        EventPayload::RunStateChanged { to, .. } => {
            ||| to == RunState::Completed
            ||| to == RunState::Failed
            ||| to == RunState::Cancelled
        },
        EventPayload::RunClaimed(_)
        | EventPayload::RepositoryWriterLeaseRevoked(_)
        | EventPayload::RepositorySnapshotCaptureClaimAdoptedV1(_)
        | EventPayload::RepositorySnapshotCaptureAbandonedV1(_)
        | EventPayload::RepositorySnapshotLeaseIssued(_)
        | EventPayload::RepositorySnapshotLeaseReleased(_)
        | EventPayload::RepositorySnapshotReleaseReconciledV1(_)
        | EventPayload::RepositorySnapshotCleanupGrantedV1(_)
        | EventPayload::RepositorySnapshotCaptureAbandonedV2(_)
        | EventPayload::RepositorySnapshotReleaseReconciledV2(_)
        | EventPayload::WorkspaceRecoveryFinalizedV1(_)
        | EventPayload::RepositoryBrokerEpochActivatedV1(_)
        | EventPayload::ChildDelegationAuthorized(_)
        | EventPayload::ChildDelegationAuthorizedV2(_)
        | EventPayload::ChildWorkOrderIssued(_)
        | EventPayload::ChildExecutionClaimAdopted(_)
        | EventPayload::ChildExecutionStarted(_)
        | EventPayload::ChildModelInferencePrepared(_)
        | EventPayload::ChildModelInferencePreparedV2(_)
        | EventPayload::ChildModelInferenceObserved(_)
        | EventPayload::ChildModelInferenceOutcomeUnknown(_)
        | EventPayload::ChildToolPrepared(_)
        | EventPayload::ChildToolObserved(_)
        | EventPayload::ChildToolOutcomeUnknown(_)
        | EventPayload::ChildToolPreparedV2(_)
        | EventPayload::ChildToolDispatchStartedV2(_)
        | EventPayload::ChildToolObservedV2(_)
        | EventPayload::ChildToolOutcomeUnknownV2(_)
        | EventPayload::ChildHandoffCommitted(_)
        | EventPayload::ChildExecutionFinished(_) => true,
        _ => false,
    }
}

/// Whether a pending cleanup of the run's snapshot keeps the event out.
pub fn pending_cleanup_blocks_payload(payload: &EventPayload) -> (r: bool)
    ensures
        r == waits_for_cleanup(*payload),
{
    matches!(
        payload,
        EventPayload::RunClaimed(_)
        | EventPayload::RunStateChanged {
            to: RunState::Completed | RunState::Failed | RunState::Cancelled,
            ..
        }
        | EventPayload::RepositoryWriterLeaseRevoked(_)
        | EventPayload::RepositorySnapshotCaptureClaimAdoptedV1(_)
        | EventPayload::RepositorySnapshotCaptureAbandonedV1(_)
        | EventPayload::RepositorySnapshotLeaseIssued(_)
        | EventPayload::RepositorySnapshotLeaseReleased(_)
        | EventPayload::RepositorySnapshotReleaseReconciledV1(_)
        | EventPayload::RepositorySnapshotCleanupGrantedV1(_)
        | EventPayload::RepositorySnapshotCaptureAbandonedV2(_)
        | EventPayload::RepositorySnapshotReleaseReconciledV2(_)
        | EventPayload::WorkspaceRecoveryFinalizedV1(_)
        | EventPayload::RepositoryBrokerEpochActivatedV1(_)
        | EventPayload::ChildDelegationAuthorized(_)
        | EventPayload::ChildDelegationAuthorizedV2(_)
        | EventPayload::ChildWorkOrderIssued(_)
        | EventPayload::ChildExecutionClaimAdopted(_)
        | EventPayload::ChildExecutionStarted(_)
        | EventPayload::ChildModelInferencePrepared(_)
        | EventPayload::ChildModelInferencePreparedV2(_)
        | EventPayload::ChildModelInferenceObserved(_)
        | EventPayload::ChildModelInferenceOutcomeUnknown(_)
        | EventPayload::ChildToolPrepared(_)
        | EventPayload::ChildToolObserved(_)
        | EventPayload::ChildToolOutcomeUnknown(_)
        | EventPayload::ChildToolPreparedV2(_)
        | EventPayload::ChildToolDispatchStartedV2(_)
        | EventPayload::ChildToolObservedV2(_)
        | EventPayload::ChildToolOutcomeUnknownV2(_)
        | EventPayload::ChildHandoffCommitted(_)
        | EventPayload::ChildExecutionFinished(_)
    )
}

/// The outcome of the cleanup fence for `event`. `lifecycle` is where the snapshot of the event's
/// run stands; it matters only for reconnaissance runs.
pub open spec fn cleanup_fence(
    store: Store,
    event: EventEnvelope,
    lifecycle: Result<RepositorySnapshotLifecycleReplay, StoreError>,
) -> Result<(), StoreError> {
    if event.run_id is None || !waits_for_cleanup(event.payload) {
        Ok(())
    } else {
        match store.run_record(event.run_id->Some_0) {
            None => Err(StoreError::InvalidStateEvent),
            Some(run) => if run.spec.purpose != RunPurpose::ParallelRepositoryReconnaissanceV1 {
                Ok(())
            } else {
                match lifecycle {
                    Err(error) => Err(error),
                    Ok(RepositorySnapshotLifecycleReplay::PendingCleanup { .. }) => Err(
                        StoreError::InvalidStateEvent,
                    ),
                    Ok(_) => Ok(()),
                }
            },
        }
    }
}

/// Refuses an event that a pending cleanup of the run's snapshot keeps out.
pub fn validate_pending_cleanup_authority_fence(
    store: &Store,
    event: &EventEnvelope,
    lifecycle: &Result<RepositorySnapshotLifecycleReplay, StoreError>,
) -> (r: Result<(), StoreError>)
    ensures
        r == cleanup_fence(*store, *event, *lifecycle),
{
    let run_id = match event.run_id {
        Some(run_id) => run_id,
        None => return Ok(()),
    };
    if !pending_cleanup_blocks_payload(&event.payload) {
        return Ok(());
    }
    let run = match store.durable_run(run_id) {
        Ok(run) => run,
        Err(error) => return Err(error),
    };
    if run.spec.purpose != RunPurpose::ParallelRepositoryReconnaissanceV1 {
        return Ok(());
    }
    match lifecycle {
        Err(error) => Err(*error),
        Ok(RepositorySnapshotLifecycleReplay::PendingCleanup { .. }) => Err(
            StoreError::InvalidStateEvent,
        ),
        Ok(_) => Ok(()),
    }
}

/// Whether root planning of the run has failed for good.
pub open spec fn planning_has_failed(store: Store, event: EventEnvelope) -> bool {
    event.run_id matches Some(run_id) && {
        ||| EventQuery::in_run(event.session_id, run_id, PayloadFilter::RootPlanningFailed).rows(
            store.log@,
        ).len() > 0
        ||| EventQuery::in_run(
            event.session_id,
            run_id,
            PayloadFilter::RootPlanningStageFailed,
        ).rows(store.log@).len() > 0
    }
}

/// What remains possible once planning has failed: claims, cancellation and changes of state.
pub open spec fn survives_planning_failure(payload: EventPayload) -> bool {
    ||| payload is RunClaimed
    ||| payload is CancellationRequested
    ||| payload is RunStateChanged
}

/// The outcome of the planning-failure fence.
pub open spec fn planning_fence(store: Store, event: EventEnvelope) -> Result<(), StoreError> {
    if planning_has_failed(store, event) && !survives_planning_failure(event.payload) {
        Err(StoreError::InvalidStateEvent)
    } else {
        Ok(())
    }
}

/// Refuses an event that a failure of root planning keeps out.
pub fn validate_root_planning_failure_fence(store: &Store, event: &EventEnvelope) -> (r: Result<
    (),
    StoreError,
>)
    ensures
        r == planning_fence(*store, *event),
{
    let run_id = match event.run_id {
        Some(run_id) => run_id,
        None => return Ok(()),
    };
    if store.log.count(
        &EventQuery::in_run(event.session_id, run_id, PayloadFilter::RootPlanningFailed),
    ) == 0 && store.log.count(
        &EventQuery::in_run(event.session_id, run_id, PayloadFilter::RootPlanningStageFailed),
    ) == 0 {
        return Ok(());
    }
    if matches!(
        event.payload,
        EventPayload::RunClaimed(_) | EventPayload::CancellationRequested(_)
        | EventPayload::RunStateChanged { .. }
    ) {
        Ok(())
    } else {
        Err(StoreError::InvalidStateEvent)
    }
}

/// Children of a reconnaissance run begin only in its bootstrap.
pub open spec fn child_append_gate(
    store: Store,
    event: EventEnvelope,
    admission: EventAdmission,
) -> Result<(), StoreError> {
    if admission == EventAdmission::ParallelReconBootstrap {
        Ok(())
    } else if event.run_id matches Some(run_id) && store.run_record(run_id) matches Some(run)
        && run.spec.session_id == event.session_id && run.spec.purpose
        != RunPurpose::ParallelRepositoryReconnaissanceV1 {
        Ok(())
    } else {
        Err(StoreError::InvalidStateEvent)
    }
}

/// Refuses the beginning of a child in a reconnaissance run outside its bootstrap.
pub fn reject_parallel_recon_generic_child_append(
    store: &Store,
    event: &EventEnvelope,
    admission: EventAdmission,
) -> (r: Result<(), StoreError>)
    ensures
        r == child_append_gate(*store, *event, admission),
{
    if admission == EventAdmission::ParallelReconBootstrap {
        return Ok(());
    }
    let run_id = match event.run_id {
        Some(run_id) => run_id,
        None => return Err(StoreError::InvalidStateEvent),
    };
    let run = match store.durable_run(run_id) {
        Ok(run) => run,
        Err(error) => return Err(error),
    };
    if run.spec.session_id != event.session_id {
        return Err(StoreError::InvalidStateEvent);
    }
    if run.spec.purpose == RunPurpose::ParallelRepositoryReconnaissanceV1 {
        Err(StoreError::InvalidStateEvent)
    } else {
        Ok(())
    }
}

/// Child executions of a reconnaissance run change claim only when the claim is refreshed.
pub open spec fn claim_adoption_gate(
    store: Store,
    event: EventEnvelope,
    admission: EventAdmission,
) -> Result<(), StoreError> {
    if event.run_id matches Some(run_id) && store.run_record(run_id) matches Some(run) && (
    run.spec.purpose != RunPurpose::ParallelRepositoryReconnaissanceV1 || admission
        == EventAdmission::ParallelReconClaimRefresh) {
        Ok(())
    } else {
        Err(StoreError::InvalidStateEvent)
    }
}

/// Refuses a change of claim in a reconnaissance run outside a claim refresh.
pub fn reject_parallel_recon_generic_claim_adoption(
    store: &Store,
    event: &EventEnvelope,
    admission: EventAdmission,
) -> (r: Result<(), StoreError>)
    ensures
        r == claim_adoption_gate(*store, *event, admission),
{
    let run_id = match event.run_id {
        Some(run_id) => run_id,
        None => return Err(StoreError::InvalidStateEvent),
    };
    let run = match store.durable_run(run_id) {
        Ok(run) => run,
        Err(error) => return Err(error),
    };
    if run.spec.purpose == RunPurpose::ParallelRepositoryReconnaissanceV1 && admission
        != EventAdmission::ParallelReconClaimRefresh {
        Err(StoreError::InvalidStateEvent)
    } else {
        Ok(())
    }
}

/// The validation that a payload of its kind has to pass; `None` where there is no such
/// validation.
pub open spec fn validator_of(payload: EventPayload) -> Option<EventValidator> {
    match payload {
        EventPayload::RunStateChanged { .. } => Some(EventValidator::RunStateChange),
        EventPayload::RunClaimed(_) => Some(EventValidator::RunClaim),
        EventPayload::CancellationRequested(_) => Some(EventValidator::Cancellation),
        EventPayload::RootPlanningFailed(_) => Some(EventValidator::RootPlanningFailure),
        EventPayload::RootPlanningStageFailed(_) => Some(EventValidator::RootPlanningStageFailure),
        EventPayload::PlannerInferencePrepared(_) => Some(EventValidator::PlannerInferencePrepared),
        EventPayload::PlannerInferenceObserved(_) => Some(EventValidator::PlannerInferenceObserved),
        EventPayload::PlannerInferenceOutcomeUnknown(_) => Some(
            EventValidator::PlannerInferenceUnknown,
        ),
        EventPayload::ReadOperationPrepared(_) => Some(EventValidator::ReadOperationPrepared),
        EventPayload::ReadOperationObserved(_) => Some(EventValidator::ReadOperationObserved),
        EventPayload::PlanProposalRejected(_) => Some(EventValidator::PlanProposalRejected),
        EventPayload::PlanProposalAccepted(_) => Some(EventValidator::PlanProposalAccepted),
        EventPayload::PlanSemanticReviewAccepted(_) => Some(
            EventValidator::PlanSemanticReviewAccepted,
        ),
        EventPayload::PlanSemanticReviewRejected(_) => Some(
            EventValidator::PlanSemanticReviewRejected,
        ),
        EventPayload::PlannerTurnPreparedV1(_) => Some(EventValidator::PlannerTurnPrepared),
        EventPayload::PlannerTurnObservedV1(_) => Some(EventValidator::PlannerTurnObserved),
        EventPayload::PlannerTurnUnknownV1(_) => Some(EventValidator::PlannerTurnUnknown),
        EventPayload::PlannerTurnAcceptedV1(_) => Some(EventValidator::PlannerTurnAccepted),
        EventPayload::PlannerTurnRejectedV1(_) => Some(EventValidator::PlannerTurnRejected),
        EventPayload::ReconCompletionGateAcceptedV1(_) => Some(EventValidator::ReconCompletionGate),
        EventPayload::RepositoryWriterLeaseRevoked(_) => Some(EventValidator::WriterLeaseRevoked),
        EventPayload::RepositorySnapshotCaptureClaimAdoptedV1(_) => Some(
            EventValidator::CaptureClaimAdopted,
        ),
        EventPayload::RepositorySnapshotLeaseIssued(_) => Some(EventValidator::SnapshotLeaseIssued),
        EventPayload::RepositorySnapshotLeaseReleased(_) => Some(
            EventValidator::SnapshotLeaseReleased,
        ),
        EventPayload::RepositoryBrokerEpochActivatedV1(_) => Some(
            EventValidator::BrokerEpochActivated,
        ),
        EventPayload::ChildDelegationAuthorized(_) => Some(EventValidator::ChildDelegation),
        EventPayload::ChildDelegationAuthorizedV2(_) => Some(EventValidator::ChildDelegationV2),
        EventPayload::ChildWorkOrderIssued(_)
        | EventPayload::ChildExecutionClaimAdopted(_)
        | EventPayload::ChildExecutionStarted(_)
        | EventPayload::ChildModelInferencePrepared(_)
        | EventPayload::ChildModelInferencePreparedV2(_)
        | EventPayload::ChildModelInferenceObserved(_)
        | EventPayload::ChildModelInferenceOutcomeUnknown(_)
        | EventPayload::ChildToolPrepared(_)
        | EventPayload::ChildToolObserved(_)
        | EventPayload::ChildToolOutcomeUnknown(_)
        | EventPayload::ChildToolPreparedV2(_)
        | EventPayload::ChildToolObservedV2(_)
        | EventPayload::ChildToolOutcomeUnknownV2(_)
        | EventPayload::ChildHandoffCommitted(_)
        | EventPayload::ChildExecutionFinished(_) => Some(EventValidator::ChildReconnaissance),
        _ => None,
    }
}

/// Whether an event of this kind is never appended through the generic boundary.
pub open spec fn never_generic(payload: EventPayload) -> bool {
    ||| payload is SessionCreated
    ||| payload is RunCreated
    ||| payload is RepositorySnapshotCaptureAbandonedV1
    ||| payload is RepositorySnapshotReleaseReconciledV1
    ||| payload is RepositorySnapshotCleanupGrantedV1
    ||| payload is RepositorySnapshotCaptureAbandonedV2
    ||| payload is RepositorySnapshotReleaseReconciledV2
    ||| payload is WorkspaceRecoveryFinalizedV1
    ||| payload is ChildToolDispatchStartedV2
}

/// The barrier that stands before the validation of an event of this kind.
pub open spec fn kind_gate(
    store: Store,
    event: EventEnvelope,
    admission: EventAdmission,
    attempt_start: Result<(), StoreError>,
) -> Result<(), StoreError> {
    match event.payload {
        EventPayload::RepositorySnapshotCaptureClaimAdoptedV1(_) => if admission
            == EventAdmission::ParallelReconClaimRefresh {
            Ok(())
        } else {
            Err(StoreError::InvalidStateEvent)
        },
        EventPayload::ChildDelegationAuthorized(_)
        | EventPayload::ChildDelegationAuthorizedV2(_)
        | EventPayload::ChildWorkOrderIssued(_) => child_append_gate(store, event, admission),
        EventPayload::ChildExecutionClaimAdopted(_) => claim_adoption_gate(store, event, admission),
        EventPayload::ChildExecutionStarted(_) => attempt_start,
        EventPayload::BackendEvent { .. } => if event.run_id is None {
            Err(StoreError::InvalidStateEvent)
        } else {
            Ok(())
        },
        payload => if never_generic(payload) {
            Err(StoreError::InvalidStateEvent)
        } else {
            Ok(())
        },
    }
}

/// What the generic boundary makes of `event`: the two fences first, then the barrier of its kind,
/// then the validation that is left.
pub open spec fn generic_admission(
    store: Store,
    event: EventEnvelope,
    admission: EventAdmission,
    lifecycle: Result<RepositorySnapshotLifecycleReplay, StoreError>,
    attempt_start: Result<(), StoreError>,
) -> Result<GenericAdmission, StoreError> {
    match cleanup_fence(store, event, lifecycle) {
        Err(error) => Err(error),
        Ok(()) => match planning_fence(store, event) {
            Err(error) => Err(error),
            Ok(()) => match kind_gate(store, event, admission, attempt_start) {
                Err(error) => Err(error),
                Ok(()) => Ok(
                    match validator_of(event.payload) {
                        Some(validator) => GenericAdmission::Requires(validator),
                        None => GenericAdmission::Admitted,
                    },
                ),
            },
        },
    }
}

/// Decides whether `event` may be appended through the generic boundary, and which validation it
/// still has to pass. `lifecycle` is where the snapshot of the event's run stands;
/// `attempt_start` is the outcome of the barrier on first attempts, which matters only where a child
/// execution starts.
pub fn validate_generic_event(
    store: &Store,
    event: &EventEnvelope,
    admission: EventAdmission,
    lifecycle: &Result<RepositorySnapshotLifecycleReplay, StoreError>,
    attempt_start: Result<(), StoreError>,
) -> (r: Result<GenericAdmission, StoreError>)
    ensures
        r == generic_admission(*store, *event, admission, *lifecycle, attempt_start),
{
    if let Err(error) = validate_pending_cleanup_authority_fence(store, event, lifecycle) {
        return Err(error);
    }
    if let Err(error) = validate_root_planning_failure_fence(store, event) {
        return Err(error);
    }
    let validator = match &event.payload {
        EventPayload::SessionCreated { .. }
        | EventPayload::RunCreated { .. }
        | EventPayload::RepositorySnapshotCaptureAbandonedV1(_)
        | EventPayload::RepositorySnapshotReleaseReconciledV1(_)
        | EventPayload::RepositorySnapshotCleanupGrantedV1(_)
        | EventPayload::RepositorySnapshotCaptureAbandonedV2(_)
        | EventPayload::RepositorySnapshotReleaseReconciledV2(_)
        | EventPayload::WorkspaceRecoveryFinalizedV1(_)
        | EventPayload::ChildToolDispatchStartedV2(_) => {
            return Err(StoreError::InvalidStateEvent);
        },
        EventPayload::RunStateChanged { .. } => EventValidator::RunStateChange,
        EventPayload::RunClaimed(_) => EventValidator::RunClaim,
        EventPayload::CancellationRequested(_) => EventValidator::Cancellation,
        EventPayload::RootPlanningFailed(_) => EventValidator::RootPlanningFailure,
        EventPayload::RootPlanningStageFailed(_) => EventValidator::RootPlanningStageFailure,
        EventPayload::PlannerInferencePrepared(_) => EventValidator::PlannerInferencePrepared,
        EventPayload::PlannerInferenceObserved(_) => EventValidator::PlannerInferenceObserved,
        EventPayload::PlannerInferenceOutcomeUnknown(_) => EventValidator::PlannerInferenceUnknown,
        EventPayload::ReadOperationPrepared(_) => EventValidator::ReadOperationPrepared,
        EventPayload::ReadOperationObserved(_) => EventValidator::ReadOperationObserved,
        EventPayload::PlanProposalRejected(_) => EventValidator::PlanProposalRejected,
        EventPayload::PlanProposalAccepted(_) => EventValidator::PlanProposalAccepted,
        EventPayload::PlanSemanticReviewAccepted(_) => EventValidator::PlanSemanticReviewAccepted,
        EventPayload::PlanSemanticReviewRejected(_) => EventValidator::PlanSemanticReviewRejected,
        EventPayload::PlannerTurnPreparedV1(_) => EventValidator::PlannerTurnPrepared,
        EventPayload::PlannerTurnObservedV1(_) => EventValidator::PlannerTurnObserved,
        EventPayload::PlannerTurnUnknownV1(_) => EventValidator::PlannerTurnUnknown,
        EventPayload::PlannerTurnAcceptedV1(_) => EventValidator::PlannerTurnAccepted,
        EventPayload::PlannerTurnRejectedV1(_) => EventValidator::PlannerTurnRejected,
        EventPayload::ReconCompletionGateAcceptedV1(_) => EventValidator::ReconCompletionGate,
        EventPayload::RepositoryWriterLeaseRevoked(_) => EventValidator::WriterLeaseRevoked,
        EventPayload::RepositorySnapshotCaptureClaimAdoptedV1(_) => {
            if admission != EventAdmission::ParallelReconClaimRefresh {
                return Err(StoreError::InvalidStateEvent);
            }
            EventValidator::CaptureClaimAdopted
        },
        EventPayload::RepositorySnapshotLeaseIssued(_) => EventValidator::SnapshotLeaseIssued,
        EventPayload::RepositorySnapshotLeaseReleased(_) => EventValidator::SnapshotLeaseReleased,
        EventPayload::RepositoryBrokerEpochActivatedV1(_) => EventValidator::BrokerEpochActivated,
        EventPayload::ChildDelegationAuthorized(_) => {
            if let Err(error) = reject_parallel_recon_generic_child_append(
                store,
                event,
                admission,
            ) {
                return Err(error);
            }
            EventValidator::ChildDelegation
        },
        EventPayload::ChildDelegationAuthorizedV2(_) => {
            if let Err(error) = reject_parallel_recon_generic_child_append(
                store,
                event,
                admission,
            ) {
                return Err(error);
            }
            EventValidator::ChildDelegationV2
        },
        EventPayload::ChildWorkOrderIssued(_) => {
            if let Err(error) = reject_parallel_recon_generic_child_append(
                store,
                event,
                admission,
            ) {
                return Err(error);
            }
            EventValidator::ChildReconnaissance
        },
        EventPayload::ChildExecutionClaimAdopted(_) => {
            if let Err(error) = reject_parallel_recon_generic_claim_adoption(
                store,
                event,
                admission,
            ) {
                return Err(error);
            }
            EventValidator::ChildReconnaissance
        },
        EventPayload::ChildExecutionStarted(_) => {
            if let Err(error) = attempt_start {
                return Err(error);
            }
            EventValidator::ChildReconnaissance
        },
        EventPayload::ChildModelInferencePrepared(_)
        | EventPayload::ChildModelInferencePreparedV2(_)
        | EventPayload::ChildModelInferenceObserved(_)
        | EventPayload::ChildModelInferenceOutcomeUnknown(_)
        | EventPayload::ChildToolPrepared(_)
        | EventPayload::ChildToolObserved(_)
        | EventPayload::ChildToolOutcomeUnknown(_)
        | EventPayload::ChildToolPreparedV2(_)
        | EventPayload::ChildToolObservedV2(_)
        | EventPayload::ChildToolOutcomeUnknownV2(_)
        | EventPayload::ChildHandoffCommitted(_)
        | EventPayload::ChildExecutionFinished(_) => EventValidator::ChildReconnaissance,
        EventPayload::BackendEvent { .. } => {
            if event.run_id.is_none() {
                return Err(StoreError::InvalidStateEvent);
            }
            return Ok(GenericAdmission::Admitted);
        },
        EventPayload::UserInput { .. } | EventPayload::ArtifactStored { .. } => {
            return Ok(GenericAdmission::Admitted);
        },
    };
    Ok(GenericAdmission::Requires(validator))
}

/// Whether the event is one of a reconnaissance run.
pub open spec fn of_recon_run(store: Store, event: EventEnvelope) -> bool {
    event.run_id matches Some(run_id) && store.run_record(run_id) matches Some(run)
        && run.spec.purpose == RunPurpose::ParallelRepositoryReconnaissanceV1
}

/// Whether the event would begin a child.
pub open spec fn begins_child(payload: EventPayload) -> bool {
    ||| payload is ChildDelegationAuthorized
    ||| payload is ChildDelegationAuthorizedV2
    ||| payload is ChildWorkOrderIssued
}

/// While a cleanup of its snapshot is pending, a reconnaissance run records no claim, no end and
/// nothing that touches the snapshot or a child, through whatever boundary.
pub proof fn law_pending_cleanup_is_a_fence(
    store: Store,
    event: EventEnvelope,
    admission: EventAdmission,
    replay: RepositorySnapshotLifecycleReplay,
    attempt_start: Result<(), StoreError>,
)
    requires
        of_recon_run(store, event),
        replay is PendingCleanup,
        waits_for_cleanup(event.payload),
    ensures
        generic_admission(store, event, admission, Ok(replay), attempt_start) is Err,
{
}

/// Once root planning has failed, only claims, cancellation and changes of state are admitted or
/// sent on to a validation.
pub proof fn law_planning_failure_is_final(
    store: Store,
    event: EventEnvelope,
    admission: EventAdmission,
    lifecycle: Result<RepositorySnapshotLifecycleReplay, StoreError>,
    attempt_start: Result<(), StoreError>,
)
    requires
        planning_has_failed(store, event),
        !survives_planning_failure(event.payload),
    ensures
        generic_admission(store, event, admission, lifecycle, attempt_start) is Err,
{
}

/// Outside its bootstrap, no child of a reconnaissance run begins.
pub proof fn law_children_begin_in_bootstrap(
    store: Store,
    event: EventEnvelope,
    admission: EventAdmission,
    lifecycle: Result<RepositorySnapshotLifecycleReplay, StoreError>,
    attempt_start: Result<(), StoreError>,
)
    requires
        of_recon_run(store, event),
        begins_child(event.payload),
        admission != EventAdmission::ParallelReconBootstrap,
    ensures
        generic_admission(store, event, admission, lifecycle, attempt_start) is Err,
{
}

/// The boundary admits nothing unseen but what changes no state: what a user says, an artifact that
/// was stored, and what a backend of a run reports. Everything else that it lets through goes on to
/// the validation of its own kind, and to no other.
pub proof fn law_every_kind_has_its_own_validation(
    store: Store,
    event: EventEnvelope,
    admission: EventAdmission,
    lifecycle: Result<RepositorySnapshotLifecycleReplay, StoreError>,
    attempt_start: Result<(), StoreError>,
)
    ensures
        match generic_admission(store, event, admission, lifecycle, attempt_start) {
            Ok(GenericAdmission::Admitted) => {
                ||| event.payload is UserInput
                ||| event.payload is ArtifactStored
                ||| event.payload is BackendEvent && event.run_id is Some
            },
            Ok(GenericAdmission::Requires(validator)) => match validator {
                EventValidator::RunStateChange => event.payload is RunStateChanged,
                EventValidator::RunClaim => event.payload is RunClaimed,
                EventValidator::Cancellation => event.payload is CancellationRequested,
                EventValidator::RootPlanningFailure => event.payload is RootPlanningFailed,
                EventValidator::RootPlanningStageFailure => {
                    event.payload is RootPlanningStageFailed
                },
                EventValidator::PlannerInferencePrepared => {
                    event.payload is PlannerInferencePrepared
                },
                EventValidator::PlannerInferenceObserved => {
                    event.payload is PlannerInferenceObserved
                },
                EventValidator::PlannerInferenceUnknown => {
                    event.payload is PlannerInferenceOutcomeUnknown
                },
                EventValidator::ReadOperationPrepared => event.payload is ReadOperationPrepared,
                EventValidator::ReadOperationObserved => event.payload is ReadOperationObserved,
                EventValidator::PlanProposalRejected => event.payload is PlanProposalRejected,
                EventValidator::PlanProposalAccepted => event.payload is PlanProposalAccepted,
                EventValidator::PlanSemanticReviewAccepted => {
                    event.payload is PlanSemanticReviewAccepted
                },
                EventValidator::PlanSemanticReviewRejected => {
                    event.payload is PlanSemanticReviewRejected
                },
                EventValidator::PlannerTurnPrepared => event.payload is PlannerTurnPreparedV1,
                EventValidator::PlannerTurnObserved => event.payload is PlannerTurnObservedV1,
                EventValidator::PlannerTurnUnknown => event.payload is PlannerTurnUnknownV1,
                EventValidator::PlannerTurnAccepted => event.payload is PlannerTurnAcceptedV1,
                EventValidator::PlannerTurnRejected => event.payload is PlannerTurnRejectedV1,
                EventValidator::ReconCompletionGate => {
                    event.payload is ReconCompletionGateAcceptedV1
                },
                EventValidator::WriterLeaseRevoked => {
                    event.payload is RepositoryWriterLeaseRevoked
                },
                EventValidator::CaptureClaimAdopted => {
                    &&& event.payload is RepositorySnapshotCaptureClaimAdoptedV1
                    &&& admission == EventAdmission::ParallelReconClaimRefresh
                },
                EventValidator::SnapshotLeaseIssued => {
                    event.payload is RepositorySnapshotLeaseIssued
                },
                EventValidator::SnapshotLeaseReleased => {
                    event.payload is RepositorySnapshotLeaseReleased
                },
                EventValidator::BrokerEpochActivated => {
                    event.payload is RepositoryBrokerEpochActivatedV1
                },
                EventValidator::ChildDelegation => event.payload is ChildDelegationAuthorized,
                EventValidator::ChildDelegationV2 => event.payload is ChildDelegationAuthorizedV2,
                EventValidator::ChildReconnaissance => {
                    ||| event.payload is ChildWorkOrderIssued
                    ||| event.payload is ChildExecutionClaimAdopted
                    ||| event.payload is ChildExecutionStarted && attempt_start is Ok
                    ||| event.payload is ChildModelInferencePrepared
                    ||| event.payload is ChildModelInferencePreparedV2
                    ||| event.payload is ChildModelInferenceObserved
                    ||| event.payload is ChildModelInferenceOutcomeUnknown
                    ||| event.payload is ChildToolPrepared
                    ||| event.payload is ChildToolObserved
                    ||| event.payload is ChildToolOutcomeUnknown
                    ||| event.payload is ChildToolPreparedV2
                    ||| event.payload is ChildToolObservedV2
                    ||| event.payload is ChildToolOutcomeUnknownV2
                    ||| event.payload is ChildHandoffCommitted
                    ||| event.payload is ChildExecutionFinished
                },
            },
            Err(_) => true,
        },
{
}

/// What the store records by itself does not come through the boundary: creations, the closing of a
/// snapshot, and the start of a child's tool are refused, whoever appends them.
pub proof fn law_own_records_are_refused(
    store: Store,
    event: EventEnvelope,
    admission: EventAdmission,
    lifecycle: Result<RepositorySnapshotLifecycleReplay, StoreError>,
    attempt_start: Result<(), StoreError>,
)
    requires
        event.payload is SessionCreated || event.payload is RunCreated
            || event.payload is RepositorySnapshotCaptureAbandonedV1
            || event.payload is RepositorySnapshotReleaseReconciledV1
            || event.payload is RepositorySnapshotCleanupGrantedV1
            || event.payload is RepositorySnapshotCaptureAbandonedV2
            || event.payload is RepositorySnapshotReleaseReconciledV2
            || event.payload is WorkspaceRecoveryFinalizedV1
            || event.payload is ChildToolDispatchStartedV2,
    ensures
        generic_admission(store, event, admission, lifecycle, attempt_start) is Err,
        lifecycle is Ok ==> generic_admission(store, event, admission, lifecycle, attempt_start)
            == Err::<GenericAdmission, StoreError>(StoreError::InvalidStateEvent),
{
}

/// In a run that reads no repository, nothing but the kind of an event and a failed planning keeps it
/// from its validation: a run that is on record in the event's session reaches it through every
/// boundary, wherever a snapshot is said to stand.
pub proof fn law_ordinary_runs_reach_their_validation(
    store: Store,
    event: EventEnvelope,
    admission: EventAdmission,
    lifecycle: Result<RepositorySnapshotLifecycleReplay, StoreError>,
    run: crate::run::Run,
)
    requires
        event.run_id is Some,
        store.run_record(event.run_id->0) == Some(run),
        run.spec.session_id == event.session_id,
        run.spec.purpose != RunPurpose::ParallelRepositoryReconnaissanceV1,
        forall|i: int|
            0 <= i < store.log@.len() && (#[trigger] store.log@[i]).session_id == event.session_id
                && store.log@[i].run_id == event.run_id ==> !(
            store.log@[i].payload is RootPlanningFailed)
                && !(store.log@[i].payload is RootPlanningStageFailed),
        !(event.payload is SessionCreated) && !(event.payload is RunCreated),
        !(event.payload is RepositorySnapshotCaptureAbandonedV1)
            && !(event.payload is RepositorySnapshotReleaseReconciledV1)
            && !(event.payload is RepositorySnapshotCleanupGrantedV1)
            && !(event.payload is RepositorySnapshotCaptureAbandonedV2)
            && !(event.payload is RepositorySnapshotReleaseReconciledV2)
            && !(event.payload is WorkspaceRecoveryFinalizedV1)
            && !(event.payload is ChildToolDispatchStartedV2),
        event.payload is RepositorySnapshotCaptureClaimAdoptedV1 ==> admission
            == EventAdmission::ParallelReconClaimRefresh,
    ensures
        generic_admission(store, event, admission, lifecycle, Ok(())) is Ok,
        generic_admission(store, event, admission, lifecycle, Ok(()))
            == Ok::<GenericAdmission, StoreError>(GenericAdmission::Admitted) <==> (
        event.payload is UserInput || event.payload is ArtifactStored
            || event.payload is BackendEvent),
{
    let failed = EventQuery::in_run(
        event.session_id,
        event.run_id->0,
        PayloadFilter::RootPlanningFailed,
    );
    let stage_failed = EventQuery::in_run(
        event.session_id,
        event.run_id->0,
        PayloadFilter::RootPlanningStageFailed,
    );
    assert forall|i: int| 0 <= i < store.log@.len() implies !failed.admits(
        #[trigger] store.log@[i],
    ) && !stage_failed.admits(store.log@[i]) by {}
    crate::history::lemma_nothing_selected(failed, store.log@);
    crate::history::lemma_nothing_selected(stage_failed, store.log@);
}

/// Claims, cancellations and changes of state reach their validation in every run that is on record,
/// a failed planning or not, unless a cleanup of the run's snapshot is pending.
pub proof fn law_control_of_a_run_is_never_lost(
    store: Store,
    event: EventEnvelope,
    admission: EventAdmission,
    replay: RepositorySnapshotLifecycleReplay,
    attempt_start: Result<(), StoreError>,
)
    requires
        event.run_id is Some,
        store.run_record(event.run_id->0) is Some,
        !(replay is PendingCleanup),
    ensures
        event.payload is RunStateChanged ==> generic_admission(
            store,
            event,
            admission,
            Ok(replay),
            attempt_start,
        ) == Ok::<GenericAdmission, StoreError>(
            GenericAdmission::Requires(EventValidator::RunStateChange),
        ),
        event.payload is RunClaimed ==> generic_admission(
            store,
            event,
            admission,
            Ok(replay),
            attempt_start,
        ) == Ok::<GenericAdmission, StoreError>(
            GenericAdmission::Requires(EventValidator::RunClaim),
        ),
        event.payload is CancellationRequested ==> generic_admission(
            store,
            event,
            admission,
            Ok(replay),
            attempt_start,
        ) == Ok::<GenericAdmission, StoreError>(
            GenericAdmission::Requires(EventValidator::Cancellation),
        ),
{
}

/// With a failure of planning on record for a run, at whatever place, nothing is recorded of the run
/// but claims, cancellations and changes of state.
pub proof fn law_recorded_failure_stops_planning(
    store: Store,
    event: EventEnvelope,
    admission: EventAdmission,
    lifecycle: Result<RepositorySnapshotLifecycleReplay, StoreError>,
    attempt_start: Result<(), StoreError>,
    i: int,
)
    requires
        0 <= i < store.log@.len(),
        event.run_id is Some,
        store.log@[i].session_id == event.session_id,
        store.log@[i].run_id == event.run_id,
        store.log@[i].payload is RootPlanningFailed
            || store.log@[i].payload is RootPlanningStageFailed,
    ensures
        generic_admission(store, event, admission, lifecycle, attempt_start) matches Ok(found) ==> {
            ||| event.payload is RunClaimed
            ||| event.payload is CancellationRequested
            ||| event.payload is RunStateChanged
        },
{
    let run_id = event.run_id->0;
    let failed = EventQuery::in_run(event.session_id, run_id, PayloadFilter::RootPlanningFailed);
    let stage_failed = EventQuery::in_run(
        event.session_id,
        run_id,
        PayloadFilter::RootPlanningStageFailed,
    );
    if store.log@[i].payload is RootPlanningFailed {
        crate::history::law_ends_of_a_selection(failed, store.log@, i);
    } else {
        crate::history::law_ends_of_a_selection(stage_failed, store.log@, i);
    }
}

/// While a cleanup is pending, a reconnaissance run is neither claimed nor ended, its snapshot is not
/// touched, and its children do not go on. Everything else is decided without a look at the cleanup.
pub proof fn law_cleanup_stops_only_what_it_endangers(
    store: Store,
    event: EventEnvelope,
    admission: EventAdmission,
    pending: RepositorySnapshotLifecycleReplay,
    other: Result<RepositorySnapshotLifecycleReplay, StoreError>,
    attempt_start: Result<(), StoreError>,
)
    requires
        of_recon_run(store, event),
        pending is PendingCleanup,
    ensures
        (event.payload matches EventPayload::RunStateChanged { to, .. } && (to
            == RunState::Completed || to == RunState::Failed || to == RunState::Cancelled)) || (
        event.payload is RunClaimed
            || event.payload is RepositoryWriterLeaseRevoked
            || event.payload is RepositorySnapshotCaptureClaimAdoptedV1
            || event.payload is RepositorySnapshotCaptureAbandonedV1
            || event.payload is RepositorySnapshotLeaseIssued
            || event.payload is RepositorySnapshotLeaseReleased
            || event.payload is RepositorySnapshotReleaseReconciledV1
            || event.payload is RepositorySnapshotCleanupGrantedV1
            || event.payload is RepositorySnapshotCaptureAbandonedV2
            || event.payload is RepositorySnapshotReleaseReconciledV2
            || event.payload is WorkspaceRecoveryFinalizedV1
            || event.payload is RepositoryBrokerEpochActivatedV1
            || event.payload is ChildDelegationAuthorized
            || event.payload is ChildDelegationAuthorizedV2
            || event.payload is ChildWorkOrderIssued
            || event.payload is ChildExecutionClaimAdopted
            || event.payload is ChildExecutionStarted
            || event.payload is ChildModelInferencePrepared
            || event.payload is ChildModelInferencePreparedV2
            || event.payload is ChildModelInferenceObserved
            || event.payload is ChildModelInferenceOutcomeUnknown
            || event.payload is ChildToolPrepared
            || event.payload is ChildToolObserved
            || event.payload is ChildToolOutcomeUnknown
            || event.payload is ChildToolPreparedV2
            || event.payload is ChildToolDispatchStartedV2
            || event.payload is ChildToolObservedV2
            || event.payload is ChildToolOutcomeUnknownV2
            || event.payload is ChildHandoffCommitted
            || event.payload is ChildExecutionFinished) ==> generic_admission(
            store,
            event,
            admission,
            Ok(pending),
            attempt_start,
        ) == Err::<GenericAdmission, StoreError>(StoreError::InvalidStateEvent),
        (event.payload matches EventPayload::RunStateChanged { to, .. } && (to
            == RunState::Queued || to == RunState::Running || to == RunState::Waiting))
            || event.payload is UserInput
            || event.payload is CancellationRequested || event.payload is RootPlanningFailed
            || event.payload is RootPlanningStageFailed
            || event.payload is PlannerInferencePrepared
            || event.payload is PlannerInferenceObserved
            || event.payload is PlannerInferenceOutcomeUnknown
            || event.payload is ReadOperationPrepared || event.payload is ReadOperationObserved
            || event.payload is PlanProposalRejected || event.payload is PlanProposalAccepted
            || event.payload is PlanSemanticReviewAccepted
            || event.payload is PlanSemanticReviewRejected
            || event.payload is PlannerTurnPreparedV1 || event.payload is PlannerTurnObservedV1
            || event.payload is PlannerTurnUnknownV1 || event.payload is PlannerTurnAcceptedV1
            || event.payload is PlannerTurnRejectedV1
            || event.payload is ReconCompletionGateAcceptedV1 || event.payload is BackendEvent
            || event.payload is ArtifactStored ==> generic_admission(
            store,
            event,
            admission,
            Ok(pending),
            attempt_start,
        ) == generic_admission(store, event, admission, other, attempt_start),
{
}

/// A child of a reconnaissance run is delegated and issued in the bootstrap alone, and changes its
/// claim only when the run's claim is refreshed; where it starts, the barrier on first attempts has
/// the last word.
pub proof fn law_children_pass_their_own_gates(
    store: Store,
    event: EventEnvelope,
    admission: EventAdmission,
    lifecycle: Result<RepositorySnapshotLifecycleReplay, StoreError>,
    attempt_start: Result<(), StoreError>,
)
    requires
        of_recon_run(store, event),
        generic_admission(store, event, admission, lifecycle, attempt_start) is Ok,
    ensures
        event.payload is ChildDelegationAuthorized || event.payload is ChildDelegationAuthorizedV2
            || event.payload is ChildWorkOrderIssued ==> admission
            == EventAdmission::ParallelReconBootstrap,
        event.payload is ChildExecutionClaimAdopted
            || event.payload is RepositorySnapshotCaptureClaimAdoptedV1 ==> admission
            == EventAdmission::ParallelReconClaimRefresh,
        event.payload is ChildExecutionStarted ==> attempt_start is Ok,
        lifecycle is Ok || event.payload is UserInput || event.payload is CancellationRequested
            || event.payload is RunStateChanged || event.payload is RootPlanningFailed
            || event.payload is RootPlanningStageFailed || event.payload is ArtifactStored
            || event.payload is BackendEvent || event.payload is ReadOperationPrepared
            || event.payload is ReadOperationObserved || event.payload is PlannerInferencePrepared
            || event.payload is PlannerInferenceObserved
            || event.payload is PlannerInferenceOutcomeUnknown
            || event.payload is PlanProposalRejected || event.payload is PlanProposalAccepted
            || event.payload is PlanSemanticReviewAccepted
            || event.payload is PlanSemanticReviewRejected
            || event.payload is PlannerTurnPreparedV1 || event.payload is PlannerTurnObservedV1
            || event.payload is PlannerTurnUnknownV1 || event.payload is PlannerTurnAcceptedV1
            || event.payload is PlannerTurnRejectedV1
            || event.payload is ReconCompletionGateAcceptedV1,
{
}

/// In its bootstrap a reconnaissance run gets its children, and with its claim refreshed they go on:
/// with no cleanup pending and no failure of planning the gates are open there.
pub proof fn law_bootstrap_and_refresh_open_the_gates(
    store: Store,
    event: EventEnvelope,
    admission: EventAdmission,
    replay: RepositorySnapshotLifecycleReplay,
)
    requires
        of_recon_run(store, event),
        !(replay is PendingCleanup),
        forall|i: int|
            0 <= i < store.log@.len() && (#[trigger] store.log@[i]).session_id == event.session_id
                && store.log@[i].run_id == event.run_id ==> !(
            store.log@[i].payload is RootPlanningFailed)
                && !(store.log@[i].payload is RootPlanningStageFailed),
    ensures
        (event.payload is ChildDelegationAuthorized || event.payload is ChildDelegationAuthorizedV2
            || event.payload is ChildWorkOrderIssued) && admission
            == EventAdmission::ParallelReconBootstrap ==> generic_admission(
            store,
            event,
            admission,
            Ok(replay),
            Ok(()),
        ) is Ok,
        (event.payload is ChildExecutionClaimAdopted
            || event.payload is RepositorySnapshotCaptureClaimAdoptedV1) && admission
            == EventAdmission::ParallelReconClaimRefresh ==> generic_admission(
            store,
            event,
            admission,
            Ok(replay),
            Ok(()),
        ) is Ok,
        event.payload is ChildExecutionStarted || event.payload is ChildModelInferencePrepared
            || event.payload is ChildModelInferencePreparedV2
            || event.payload is ChildModelInferenceObserved
            || event.payload is ChildModelInferenceOutcomeUnknown
            || event.payload is ChildToolPrepared || event.payload is ChildToolObserved
            || event.payload is ChildToolOutcomeUnknown || event.payload is ChildToolPreparedV2
            || event.payload is ChildToolObservedV2 || event.payload is ChildToolOutcomeUnknownV2
            || event.payload is ChildHandoffCommitted || event.payload is ChildExecutionFinished
            || event.payload is RepositoryWriterLeaseRevoked
            || event.payload is RepositorySnapshotLeaseIssued
            || event.payload is RepositorySnapshotLeaseReleased
            || event.payload is RepositoryBrokerEpochActivatedV1
            || event.payload is PlannerTurnPreparedV1 || event.payload is PlannerTurnAcceptedV1
            || event.payload is ReconCompletionGateAcceptedV1 ==> generic_admission(
            store,
            event,
            admission,
            Ok(replay),
            Ok(()),
        ) is Ok,
{
    let run_id = event.run_id->0;
    let failed = EventQuery::in_run(event.session_id, run_id, PayloadFilter::RootPlanningFailed);
    let stage_failed = EventQuery::in_run(
        event.session_id,
        run_id,
        PayloadFilter::RootPlanningStageFailed,
    );
    assert forall|i: int| 0 <= i < store.log@.len() implies !failed.admits(
        #[trigger] store.log@[i],
    ) && !stage_failed.admits(store.log@[i]) by {}
    crate::history::lemma_nothing_selected(failed, store.log@);
    crate::history::lemma_nothing_selected(stage_failed, store.log@);
}

/// What settles an effect that is under way belongs to a child, and is an observation or an end; an
/// end settles one only where a cancellation brought it about.
pub proof fn law_settling_needs_an_effect(payload: EventPayload)
    ensures
        settles_child_effect(payload) ==> work_order_of(payload) is Some && waits_for_cleanup(
            payload,
        ),
        payload is ChildToolObserved || payload is ChildToolObservedV2 ==> settles_child_effect(
            payload,
        ),
        payload matches EventPayload::ChildToolOutcomeUnknown(unknown) ==> (settles_child_effect(
            payload,
        ) <==> unknown.cancellation is Some),
        payload matches EventPayload::ChildToolOutcomeUnknownV2(unknown) ==> (settles_child_effect(
            payload,
        ) <==> unknown.cancellation is Some),
        payload matches EventPayload::ChildModelInferenceOutcomeUnknown(unknown) ==> (
        settles_child_effect(payload) <==> unknown.cancellation is Some),
        payload matches EventPayload::ChildExecutionFinished(finished) ==> (settles_child_effect(
            payload,
        ) <==> finished.outcome is Cancelled),
        payload matches EventPayload::ChildModelInferenceObserved(observed) ==> (
        settles_child_effect(payload) <==> (observed.outcome matches
            ChildModelInferenceObservation::Failed { error } && error.kind
            == ChildModelInferenceErrorKind::Cancelled && error.cancellation is Some)),
        payload is ChildToolPrepared || payload is ChildToolPreparedV2
            || payload is ChildToolDispatchStartedV2 || payload is ChildModelInferencePrepared
            || payload is ChildModelInferencePreparedV2 || payload is ChildWorkOrderIssued
            || payload is ChildExecutionClaimAdopted || payload is ChildExecutionStarted
            || payload is ChildHandoffCommitted ==> !settles_child_effect(payload),
{
}

/// An event of a child names the work order that the child was issued under, wherever its payload
/// keeps it, and no other event names one.
pub proof fn law_children_name_their_work_order(payload: EventPayload, id: ChildWorkOrderId)
    requires
        work_order_of(payload) == Some(id),
    ensures
        match payload {
            EventPayload::ChildWorkOrderIssued(issued) => id == issued.spec.work_order_id,
            EventPayload::ChildExecutionClaimAdopted(adopted) => id == adopted.work_order_id,
            EventPayload::ChildExecutionStarted(started) => id == started.binding.work_order_id,
            EventPayload::ChildModelInferencePrepared(prepared) => id
                == prepared.binding.work_order_id,
            EventPayload::ChildModelInferencePreparedV2(prepared) => id
                == prepared.prepared.binding.work_order_id,
            EventPayload::ChildModelInferenceObserved(observed) => id
                == observed.binding.work_order_id,
            EventPayload::ChildModelInferenceOutcomeUnknown(unknown) => id
                == unknown.binding.work_order_id,
            EventPayload::ChildToolPrepared(prepared) => id == prepared.binding.work_order_id,
            EventPayload::ChildToolObserved(observed) => id == observed.binding.work_order_id,
            EventPayload::ChildToolOutcomeUnknown(unknown) => id == unknown.binding.work_order_id,
            EventPayload::ChildToolPreparedV2(prepared) => id == prepared.binding.work_order_id,
            EventPayload::ChildToolDispatchStartedV2(started) => id
                == started.binding.work_order_id,
            EventPayload::ChildToolObservedV2(observed) => id == observed.binding.work_order_id,
            EventPayload::ChildToolOutcomeUnknownV2(unknown) => id == unknown.binding.work_order_id,
            EventPayload::ChildHandoffCommitted(handoff) => id == handoff.binding.work_order_id,
            EventPayload::ChildExecutionFinished(finished) => id == finished.binding.work_order_id,
            _ => false,
        },
{
}

/// Every event of a child that was issued names a work order.
pub proof fn law_every_child_event_names_one(payload: EventPayload)
    requires
        payload is ChildWorkOrderIssued || payload is ChildExecutionClaimAdopted
            || payload is ChildExecutionStarted || payload is ChildModelInferencePrepared
            || payload is ChildModelInferencePreparedV2 || payload is ChildModelInferenceObserved
            || payload is ChildModelInferenceOutcomeUnknown || payload is ChildToolPrepared
            || payload is ChildToolObserved || payload is ChildToolOutcomeUnknown
            || payload is ChildToolPreparedV2 || payload is ChildToolDispatchStartedV2
            || payload is ChildToolObservedV2 || payload is ChildToolOutcomeUnknownV2
            || payload is ChildHandoffCommitted || payload is ChildExecutionFinished,
    ensures
        work_order_of(payload) is Some,
{
}

} // verus!

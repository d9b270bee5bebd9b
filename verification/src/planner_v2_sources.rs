//! Where the planner's evidence comes from: the accepted root plan, and the children that finished.

use vstd::prelude::*;
use crate::artifact::{digest_matches_artifact, require_artifact_media_type, ArtifactRef};
use crate::child::{ChildExecutionFinished, ChildHandoffCommitted};
use crate::child_outcome::{
    ChildCancellationCauseV1, ChildExecutionFailureCauseV1, ChildExecutionFailureKind,
    ChildExecutionOutcome,
};
use crate::child_replay::{ChildAttemptProjection, ChildWorkOrderProjection};
use crate::contract::Contract;
use crate::digest::Sha256Digest;
use crate::error::StoreError;
use crate::event::{EventEnvelope, EventPayload};
use crate::history::{EventLog, EventQuery, PayloadFilter};
use crate::identity::{EventId, PlannerEvidenceEntryId, RunId, SessionId};
use crate::planner_prompt::{
    ChildExecutionFailureEvidenceV1, ChildHandoffDocument, PlannerPromptChildCancelledV2,
    PlannerPromptChildFailedV2, PlannerPromptEvidenceMaterialV2, PlannerPromptHandoffV2,
    PlannerPromptRootPlanV2,
};
use crate::planner_turn::{
    PlannerAcceptedRootPlanEvidenceV2, PlannerChildCancelledEvidenceV2,
    PlannerChildFailedEvidenceV2, PlannerChildHandoffEvidenceV2, PlannerEvidenceMaterialV2,
};
use crate::planning::PlanSemanticReviewAccepted;
use crate::retained::{
    BackendErrorEvidence, PlannerV2NotDispatchedReason, RetainedInferenceEvidence,
    RootPlannerOutput, StructuredInferenceResponse,
};
use crate::run::RetryDisposition;
use crate::store::Store;
use crate::text::{Same, Text};

verus! {

/// How a planner's call ended.
#[derive(Debug)]
pub enum PlannerV2ObservedEvidence {
    Response(StructuredInferenceResponse),
    Error(BackendErrorEvidence),
    NotDispatched { reason: PlannerV2NotDispatchedReason },
    CancelledBeforeCall,
}

/// What is kept of the end of a planner's call.
pub fn retained_planner_v2_evidence(evidence: &PlannerV2ObservedEvidence) -> (r:
    RetainedInferenceEvidence)
    ensures
        r == (match *evidence {
            PlannerV2ObservedEvidence::Response(response) => RetainedInferenceEvidence::Response {
                response,
            },
            PlannerV2ObservedEvidence::Error(error) => RetainedInferenceEvidence::Error { error },
            PlannerV2ObservedEvidence::NotDispatched { reason } =>
                RetainedInferenceEvidence::NotDispatched { reason },
            PlannerV2ObservedEvidence::CancelledBeforeCall =>
                RetainedInferenceEvidence::CancelledBeforeCall,
        }),
{
    match evidence {
        PlannerV2ObservedEvidence::Response(response) => RetainedInferenceEvidence::Response {
            response: response.clone(),
        },
        PlannerV2ObservedEvidence::Error(error) => RetainedInferenceEvidence::Error {
            error: error.clone(),
        },
        PlannerV2ObservedEvidence::NotDispatched { reason } =>
            RetainedInferenceEvidence::NotDispatched { reason: *reason },
        PlannerV2ObservedEvidence::CancelledBeforeCall =>
            RetainedInferenceEvidence::CancelledBeforeCall,
    }
}

/// One piece of evidence: what the prompt's entry is made from, and what the durable entry holds.
#[derive(Debug)]
pub struct PlannerEvidencePair {
    pub durable_id: PlannerEvidenceEntryId,
    pub prompt: PlannerPromptEvidenceMaterialV2,
    pub durable: PlannerEvidenceMaterialV2,
}

/// The evidence entry that stands for an event: it has the identity of the event.
#[verifier::allow_in_spec]
pub fn evidence_entry_id(event_id: EventId) -> PlannerEvidenceEntryId
    returns
        PlannerEvidenceEntryId(event_id.0),
{
    PlannerEvidenceEntryId(event_id.0)
}

/// The acceptance in a review event.
pub open spec fn review_in(event: EventEnvelope) -> Option<PlanSemanticReviewAccepted> {
    match event.payload {
        EventPayload::PlanSemanticReviewAccepted(accepted) => Some(accepted),
        _ => None,
    }
}

/// The accepted root plan of a run, if it has one; refused where it has more than one.
pub open spec fn accepted_root_plan(
    events: Seq<EventEnvelope>,
    session_id: SessionId,
    run_id: RunId,
) -> Result<Option<PlannerAcceptedRootPlanEvidenceV2>, StoreError> {
    let rows = EventQuery::in_run(session_id, run_id, PayloadFilter::ReviewAccepted).rows(events);
    if rows.len() > 1 {
        Err(StoreError::InvalidStateEvent)
    } else if rows.len() == 0 {
        Ok(None)
    } else {
        match review_in(rows[0]) {
            Some(accepted) => Ok(
                Some(
                    PlannerAcceptedRootPlanEvidenceV2 {
                        accepted_plan_event_id: rows[0].id,
                        accepted_plan_revision: accepted.candidate.plan_revision,
                        accepted_plan_artifact: accepted.candidate.plan_artifact,
                        accepted_plan_digest: accepted.candidate.plan_digest,
                    },
                ),
            ),
            None => Err(StoreError::InvalidStateEvent),
        }
    }
}

/// The accepted root plan of a run, if it has one; refused where it has more than one.
pub fn accepted_root_plan_projection(log: &EventLog, session_id: SessionId, run_id: RunId) -> (r:
    Result<Option<PlannerAcceptedRootPlanEvidenceV2>, StoreError>)
    ensures
        r == accepted_root_plan(log@, session_id, run_id),
{
    let rows = log.select(&EventQuery::in_run(session_id, run_id, PayloadFilter::ReviewAccepted));
    if rows.len() > 1 {
        return Err(StoreError::InvalidStateEvent);
    }
    if rows.len() == 0 {
        return Ok(None);
    }
    let event = rows[0];
    match &event.payload {
        EventPayload::PlanSemanticReviewAccepted(accepted) => Ok(
            Some(
                PlannerAcceptedRootPlanEvidenceV2 {
                    accepted_plan_event_id: event.id,
                    accepted_plan_revision: accepted.candidate.plan_revision,
                    accepted_plan_artifact: accepted.candidate.plan_artifact.clone(),
                    accepted_plan_digest: accepted.candidate.plan_digest.clone(),
                },
            ),
        ),
        _ => Err(StoreError::InvalidStateEvent),
    }
}

/// The evidence that an accepted root plan is.
pub open spec fn root_pair(
    contract: Contract,
    event: EventEnvelope,
    review: PlanSemanticReviewAccepted,
    root: PlannerAcceptedRootPlanEvidenceV2,
    plan: RootPlannerOutput,
) -> PlannerEvidencePair {
    PlannerEvidencePair {
        durable_id: evidence_entry_id(event.id),
        prompt: PlannerPromptEvidenceMaterialV2::AcceptedRootPlan(
            PlannerPromptRootPlanV2 {
                contract_version: contract.versions.planner_evidence,
                review_event_id: event.id,
                review_id: review.review_id,
                proposal_event_id: review.candidate.proposal_event_id,
                plan_revision: review.candidate.plan_revision,
                plan_digest: review.candidate.plan_digest,
                plan_artifact: review.candidate.plan_artifact,
                critique_artifact: review.critique_artifact,
                validation_evidence_artifact: review.validation_evidence_artifact,
                plan,
            },
        ),
        durable: PlannerEvidenceMaterialV2::AcceptedRootPlan(root),
    }
}

/// The evidence of the accepted root plan. `plan` is the accepted plan, in its canonical form.
pub open spec fn root_evidence(
    store: Store,
    session_id: SessionId,
    run_id: RunId,
    plan: Result<RootPlannerOutput, StoreError>,
) -> Result<PlannerEvidencePair, StoreError> {
    match accepted_root_plan(store.log@, session_id, run_id) {
        Err(error) => Err(error),
        Ok(None) => Err(StoreError::InvalidStateEvent),
        Ok(Some(root)) => match crate::planning_ground::event_of_run(
            store,
            session_id,
            run_id,
            root.accepted_plan_event_id,
        ) {
            None => Err(StoreError::InvalidStateEvent),
            Some(event) => match review_in(event) {
                None => Err(StoreError::InvalidStateEvent),
                Some(review) => if review.candidate.plan_artifact.media_type@
                    != store.contract.media.accepted_plan@ {
                    Err(StoreError::InvalidStateEvent)
                } else {
                    match plan {
                        Err(error) => Err(error),
                        Ok(plan) => Ok(root_pair(store.contract, event, review, root, plan)),
                    }
                },
            },
        },
    }
}

/// The evidence of the accepted root plan. `plan` is the accepted plan, in its canonical form.
pub fn root_planner_evidence_pair(
    store: &Store,
    session_id: SessionId,
    run_id: RunId,
    plan: &Result<RootPlannerOutput, StoreError>,
) -> (r: Result<PlannerEvidencePair, StoreError>)
    ensures
        r == root_evidence(*store, session_id, run_id, *plan),
{
    let root = match accepted_root_plan_projection(&store.log, session_id, run_id) {
        Ok(Some(root)) => root,
        Ok(None) => return Err(StoreError::InvalidStateEvent),
        Err(error) => return Err(error),
    };
    let event = match store.log.event(session_id, run_id, root.accepted_plan_event_id) {
        Ok(event) => event,
        Err(error) => return Err(error),
    };
    let review = match &event.payload {
        EventPayload::PlanSemanticReviewAccepted(review) => review,
        _ => return Err(StoreError::InvalidStateEvent),
    };
    match require_artifact_media_type(
        &review.candidate.plan_artifact,
        &store.contract.media.accepted_plan,
    ) {
        Ok(()) => {},
        Err(error) => return Err(error),
    }
    match plan {
        Ok(plan) => Ok(
            PlannerEvidencePair {
                durable_id: evidence_entry_id(event.id),
                prompt: PlannerPromptEvidenceMaterialV2::AcceptedRootPlan(
                    PlannerPromptRootPlanV2 {
                        contract_version: store.contract.versions.planner_evidence,
                        review_event_id: event.id,
                        review_id: review.review_id,
                        proposal_event_id: review.candidate.proposal_event_id,
                        plan_revision: review.candidate.plan_revision,
                        plan_digest: review.candidate.plan_digest.clone(),
                        plan_artifact: review.candidate.plan_artifact.clone(),
                        critique_artifact: review.critique_artifact.clone(),
                        validation_evidence_artifact: review.validation_evidence_artifact.clone(),
                        plan: plan.clone(),
                    },
                ),
                durable: PlannerEvidenceMaterialV2::AcceptedRootPlan(root),
            },
        ),
        Err(error) => Err(*error),
    }
}

/// What is read and written for the evidence of one finished child: the child as its history has it,
/// its handoff, the evidence of its failure, the canonical JSON of the event behind its failure, and
/// the artifact that the evidence made from that event was written to.
#[derive(Debug)]
pub struct ChildEvidenceReads {
    pub finished_event_id: EventId,
    pub projection: Result<Option<ChildWorkOrderProjection>, StoreError>,
    pub handoff: Result<ChildHandoffDocument, StoreError>,
    pub failure: Result<ChildExecutionFailureEvidenceV1, StoreError>,
    pub source_json: Result<Text, StoreError>,
    pub written: Result<ArtifactRef, StoreError>,
}

/// The evidence of a failure that an earlier event stands behind.
pub open spec fn failure_document(
    contract: Contract,
    finished: ChildExecutionFinished,
    kind: ChildExecutionFailureKind,
    retry: RetryDisposition,
    source_json: Text,
) -> ChildExecutionFailureEvidenceV1 {
    ChildExecutionFailureEvidenceV1 {
        contract_version: contract.versions.child_reconnaissance,
        binding: finished.binding,
        kind,
        retry,
        diagnostic: source_json,
    }
}

/// The evidence of a failure that an earlier event stands behind; `source_json` is that event.
pub fn child_failure_document(
    contract: &Contract,
    finished: &ChildExecutionFinished,
    kind: ChildExecutionFailureKind,
    retry: RetryDisposition,
    source_json: &Text,
) -> (r: ChildExecutionFailureEvidenceV1)
    ensures
        r == failure_document(*contract, *finished, kind, retry, *source_json),
{
    ChildExecutionFailureEvidenceV1 {
        contract_version: contract.versions.child_reconnaissance,
        binding: finished.binding,
        kind,
        retry,
        diagnostic: source_json.clone(),
    }
}

/// The evidence of a failure that an earlier event of the run stands behind.
pub open spec fn caused_failure(
    store: Store,
    event: EventEnvelope,
    finished: ChildExecutionFinished,
    kind: ChildExecutionFailureKind,
    retry: RetryDisposition,
    source_event_id: EventId,
    reads: ChildEvidenceReads,
) -> Result<(ArtifactRef, ChildExecutionFailureEvidenceV1), StoreError> {
    match event.run_id {
        None => Err(StoreError::InvalidStateEvent),
        Some(run_id) => match crate::planning_ground::event_of_run(
            store,
            event.session_id,
            run_id,
            source_event_id,
        ) {
            None => Err(StoreError::InvalidStateEvent),
            Some(source) => if source.sequence >= event.sequence {
                Err(StoreError::InvalidStateEvent)
            } else {
                match (reads.source_json, reads.written) {
                    (Err(error), _) => Err(error),
                    (Ok(_), Err(error)) => Err(error),
                    (Ok(source_json), Ok(artifact)) => Ok(
                        (
                            artifact,
                            failure_document(store.contract, finished, kind, retry, source_json),
                        ),
                    ),
                }
            },
        },
    }
}

/// The evidence of a child's failure, with the artifact that keeps it.
pub open spec fn failure_evidence(
    store: Store,
    event: EventEnvelope,
    finished: ChildExecutionFinished,
    kind: ChildExecutionFailureKind,
    retry: RetryDisposition,
    cause: ChildExecutionFailureCauseV1,
    reads: ChildEvidenceReads,
) -> Result<(ArtifactRef, ChildExecutionFailureEvidenceV1), StoreError> {
    match cause {
        ChildExecutionFailureCauseV1::RuntimeEvidence { evidence_artifact, evidence_digest } =>
            if evidence_digest@ != evidence_artifact.sha256@ || evidence_artifact.media_type@
            != store.contract.media.child_execution_failure@ {
            Err(StoreError::InvalidStateEvent)
        } else {
            match reads.failure {
                Err(error) => Err(error),
                Ok(evidence) => if evidence.binding != finished.binding || evidence.kind != kind
                    || evidence.retry != retry {
                    Err(StoreError::InvalidStateEvent)
                } else {
                    Ok((evidence_artifact, evidence))
                },
            }
        },
        ChildExecutionFailureCauseV1::ModelTerminal { terminal_event_id } => caused_failure(
            store,
            event,
            finished,
            kind,
            retry,
            terminal_event_id,
            reads,
        ),
        ChildExecutionFailureCauseV1::ToolTerminal { terminal_event_id } => caused_failure(
            store,
            event,
            finished,
            kind,
            retry,
            terminal_event_id,
            reads,
        ),
    }
}

fn caused_failure_evidence(
    store: &Store,
    event: &EventEnvelope,
    finished: &ChildExecutionFinished,
    kind: ChildExecutionFailureKind,
    retry: RetryDisposition,
    source_event_id: EventId,
    reads: &ChildEvidenceReads,
) -> (r: Result<(ArtifactRef, ChildExecutionFailureEvidenceV1), StoreError>)
    ensures
        r == caused_failure(*store, *event, *finished, kind, retry, source_event_id, *reads),
{
    let run_id = match event.run_id {
        Some(run_id) => run_id,
        None => return Err(StoreError::InvalidStateEvent),
    };
    let source = match store.log.event(event.session_id, run_id, source_event_id) {
        Ok(source) => source,
        Err(error) => return Err(error),
    };
    if source.sequence >= event.sequence {
        return Err(StoreError::InvalidStateEvent);
    }
    match (&reads.source_json, &reads.written) {
        (Err(error), _) => Err(*error),
        (Ok(_), Err(error)) => Err(*error),
        (Ok(source_json), Ok(artifact)) => Ok(
            (
                artifact.clone(),
                child_failure_document(&store.contract, finished, kind, retry, source_json),
            ),
        ),
    }
}

/// The evidence of a child's failure, with the artifact that keeps it.
pub fn child_failure_evidence_for_planner(
    store: &Store,
    event: &EventEnvelope,
    finished: &ChildExecutionFinished,
    kind: ChildExecutionFailureKind,
    retry: RetryDisposition,
    cause: &ChildExecutionFailureCauseV1,
    reads: &ChildEvidenceReads,
) -> (r: Result<(ArtifactRef, ChildExecutionFailureEvidenceV1), StoreError>)
    ensures
        r == failure_evidence(*store, *event, *finished, kind, retry, *cause, *reads),
{
    match cause {
        ChildExecutionFailureCauseV1::RuntimeEvidence { evidence_artifact, evidence_digest } => {
            if !digest_matches_artifact(evidence_digest, evidence_artifact) {
                return Err(StoreError::InvalidStateEvent);
            }
            match require_artifact_media_type(
                evidence_artifact,
                &store.contract.media.child_execution_failure,
            ) {
                Ok(()) => {},
                Err(error) => return Err(error),
            }
            match &reads.failure {
                Ok(evidence) => if evidence.binding != finished.binding || evidence.kind != kind
                    || evidence.retry != retry {
                    Err(StoreError::InvalidStateEvent)
                } else {
                    Ok((evidence_artifact.clone(), evidence.clone()))
                },
                Err(error) => Err(*error),
            }
        },
        ChildExecutionFailureCauseV1::ModelTerminal { terminal_event_id } =>
            caused_failure_evidence(
                store,
                event,
                finished,
                kind,
                retry,
                *terminal_event_id,
                reads,
            ),
        ChildExecutionFailureCauseV1::ToolTerminal { terminal_event_id } =>
            caused_failure_evidence(
                store,
                event,
                finished,
                kind,
                retry,
                *terminal_event_id,
                reads,
            ),
    }
}

/// Whether an attempt is the one that an event finished.
pub open spec fn attempt_finished_by(
    attempt: ChildAttemptProjection,
    event: EventEnvelope,
    finished: ChildExecutionFinished,
) -> bool {
    &&& attempt.attempt_id == finished.binding.attempt_id
    &&& attempt.terminal_event_id == Some(event.id)
    &&& attempt.outcome matches Some(outcome) && outcome.same(&finished.outcome)
}

/// Whether the child's history has the attempt that an event finished.
pub open spec fn has_finished_attempt(
    attempts: Seq<ChildAttemptProjection>,
    event: EventEnvelope,
    finished: ChildExecutionFinished,
) -> bool {
    exists|i: int|
        0 <= i < attempts.len() && attempt_finished_by(#[trigger] attempts[i], event, finished)
}

fn finds_finished_attempt(
    attempts: &Vec<ChildAttemptProjection>,
    event: &EventEnvelope,
    finished: &ChildExecutionFinished,
) -> (r: bool)
    ensures
        r == has_finished_attempt(attempts@, *event, *finished),
{
    let mut i: usize = 0;
    while i < attempts.len()
        invariant
            i <= attempts@.len(),
            forall|j: int|
                0 <= j < i ==> !attempt_finished_by(#[trigger] attempts@[j], *event, *finished),
        decreases attempts.len() - i,
    {
        let attempt = &attempts[i];
        let ended_alike = match &attempt.outcome {
            Some(outcome) => *outcome == finished.outcome,
            None => false,
        };
        if attempt.attempt_id == finished.binding.attempt_id && attempt.terminal_event_id == Some(
            event.id,
        ) && ended_alike {
            assert(attempt_finished_by(attempts@[i as int], *event, *finished));
            return true;
        }
        i += 1;
    }
    false
}

/// The handoff in a handoff event.
pub open spec fn handoff_in(event: EventEnvelope) -> Option<ChildHandoffCommitted> {
    match event.payload {
        EventPayload::ChildHandoffCommitted(committed) => Some(committed),
        _ => None,
    }
}

/// The end in the end event of a child.
pub open spec fn finish_in(event: EventEnvelope) -> Option<ChildExecutionFinished> {
    match event.payload {
        EventPayload::ChildExecutionFinished(finished) => Some(finished),
        _ => None,
    }
}

/// The evidence that a handoff is.
pub open spec fn handoff_pair(
    contract: Contract,
    event: EventEnvelope,
    finished: ChildExecutionFinished,
    handoff_event: EventEnvelope,
    committed: ChildHandoffCommitted,
    document: ChildHandoffDocument,
) -> PlannerEvidencePair {
    PlannerEvidencePair {
        durable_id: evidence_entry_id(event.id),
        prompt: PlannerPromptEvidenceMaterialV2::ChildHandoff(
            PlannerPromptHandoffV2 {
                contract_version: contract.versions.child_reconnaissance,
                committed_event_id: handoff_event.id,
                handoff_artifact: committed.handoff_artifact,
                handoff: document,
            },
        ),
        durable: PlannerEvidenceMaterialV2::ChildHandoff(
            PlannerChildHandoffEvidenceV2 {
                binding: finished.binding,
                handoff_event_id: handoff_event.id,
                handoff_id: committed.handoff_id,
                handoff_artifact: committed.handoff_artifact,
                handoff_digest: committed.handoff_digest,
                finished_event_id: event.id,
            },
        ),
    }
}

/// The evidence of a child that succeeded.
pub open spec fn success_evidence(
    store: Store,
    event: EventEnvelope,
    run_id: RunId,
    finished: ChildExecutionFinished,
    reads: ChildEvidenceReads,
) -> Result<PlannerEvidencePair, StoreError> {
    match finished.handoff_event_id {
        None => Err(StoreError::InvalidStateEvent),
        Some(handoff_event_id) => match crate::planning_ground::event_of_run(
            store,
            event.session_id,
            run_id,
            handoff_event_id,
        ) {
            None => Err(StoreError::InvalidStateEvent),
            Some(handoff_event) => match handoff_in(handoff_event) {
                None => Err(StoreError::InvalidStateEvent),
                Some(committed) => if committed.handoff_artifact.media_type@
                    != store.contract.media.child_handoff@ {
                    Err(StoreError::InvalidStateEvent)
                } else {
                    match reads.handoff {
                        Err(error) => Err(error),
                        Ok(document) => Ok(
                            handoff_pair(
                                store.contract,
                                event,
                                finished,
                                handoff_event,
                                committed,
                                document,
                            ),
                        ),
                    }
                },
            },
        },
    }
}

fn succeeded_child_pair(
    store: &Store,
    event: &EventEnvelope,
    run_id: RunId,
    finished: &ChildExecutionFinished,
    reads: &ChildEvidenceReads,
) -> (r: Result<PlannerEvidencePair, StoreError>)
    ensures
        r == success_evidence(*store, *event, run_id, *finished, *reads),
{
    let handoff_event_id = match finished.handoff_event_id {
        Some(handoff_event_id) => handoff_event_id,
        None => return Err(StoreError::InvalidStateEvent),
    };
    let handoff_event = match store.log.event(event.session_id, run_id, handoff_event_id) {
        Ok(handoff_event) => handoff_event,
        Err(error) => return Err(error),
    };
    let committed = match &handoff_event.payload {
        EventPayload::ChildHandoffCommitted(committed) => committed,
        _ => return Err(StoreError::InvalidStateEvent),
    };
    match require_artifact_media_type(
        &committed.handoff_artifact,
        &store.contract.media.child_handoff,
    ) {
        Ok(()) => {},
        Err(error) => return Err(error),
    }
    match &reads.handoff {
        Ok(document) => Ok(
            PlannerEvidencePair {
                durable_id: evidence_entry_id(event.id),
                prompt: PlannerPromptEvidenceMaterialV2::ChildHandoff(
                    PlannerPromptHandoffV2 {
                        contract_version: store.contract.versions.child_reconnaissance,
                        committed_event_id: handoff_event.id,
                        handoff_artifact: committed.handoff_artifact.clone(),
                        handoff: document.clone(),
                    },
                ),
                durable: PlannerEvidenceMaterialV2::ChildHandoff(
                    PlannerChildHandoffEvidenceV2 {
                        binding: finished.binding,
                        handoff_event_id: handoff_event.id,
                        handoff_id: committed.handoff_id,
                        handoff_artifact: committed.handoff_artifact.clone(),
                        handoff_digest: committed.handoff_digest.clone(),
                        finished_event_id: event.id,
                    },
                ),
            },
        ),
        Err(error) => Err(*error),
    }
}

/// The evidence that a failure is.
pub open spec fn failed_pair(
    contract: Contract,
    event: EventEnvelope,
    finished: ChildExecutionFinished,
    kind: ChildExecutionFailureKind,
    retry: RetryDisposition,
    cause: ChildExecutionFailureCauseV1,
    artifact: ArtifactRef,
    digest: Sha256Digest,
    evidence: ChildExecutionFailureEvidenceV1,
) -> PlannerEvidencePair {
    PlannerEvidencePair {
        durable_id: evidence_entry_id(event.id),
        prompt: PlannerPromptEvidenceMaterialV2::ChildFailed(
            PlannerPromptChildFailedV2 {
                contract_version: contract.versions.child_reconnaissance,
                binding: finished.binding,
                finished_event_id: event.id,
                completed_model_calls: finished.completed_model_calls,
                completed_tool_calls: finished.completed_tool_calls,
                kind,
                retry,
                cause,
                evidence_artifact: artifact,
                evidence_digest: digest,
                diagnostic: evidence.diagnostic,
            },
        ),
        durable: PlannerEvidenceMaterialV2::ChildFailed(
            PlannerChildFailedEvidenceV2 {
                binding: finished.binding,
                finished_event_id: event.id,
                kind,
                retry,
                cause,
                evidence_artifact: artifact,
                evidence_digest: digest,
            },
        ),
    }
}

/// The evidence of a child that failed.
pub open spec fn failed_child_evidence(
    store: Store,
    event: EventEnvelope,
    finished: ChildExecutionFinished,
    kind: ChildExecutionFailureKind,
    retry: RetryDisposition,
    cause: ChildExecutionFailureCauseV1,
    reads: ChildEvidenceReads,
) -> Result<PlannerEvidencePair, StoreError> {
    match failure_evidence(store, event, finished, kind, retry, cause, reads) {
        Err(error) => Err(error),
        Ok((artifact, evidence)) => match Sha256Digest::read_in(artifact.sha256) {
            None => Err(StoreError::InvalidStateEvent),
            Some(digest) => Ok(
                failed_pair(
                    store.contract,
                    event,
                    finished,
                    kind,
                    retry,
                    cause,
                    artifact,
                    digest,
                    evidence,
                ),
            ),
        },
    }
}

fn failed_child_pair(
    store: &Store,
    event: &EventEnvelope,
    finished: &ChildExecutionFinished,
    kind: ChildExecutionFailureKind,
    retry: RetryDisposition,
    cause: &ChildExecutionFailureCauseV1,
    reads: &ChildEvidenceReads,
) -> (r: Result<PlannerEvidencePair, StoreError>)
    ensures
        r == failed_child_evidence(*store, *event, *finished, kind, retry, *cause, *reads),
{
    let (artifact, evidence) = match child_failure_evidence_for_planner(
        store,
        event,
        finished,
        kind,
        retry,
        cause,
        reads,
    ) {
        Ok(found) => found,
        Err(error) => return Err(error),
    };
    let digest = match Sha256Digest::parse(&artifact.sha256) {
        Some(digest) => digest,
        None => return Err(StoreError::InvalidStateEvent),
    };
    Ok(
        PlannerEvidencePair {
            durable_id: evidence_entry_id(event.id),
            prompt: PlannerPromptEvidenceMaterialV2::ChildFailed(
                PlannerPromptChildFailedV2 {
                    contract_version: store.contract.versions.child_reconnaissance,
                    binding: finished.binding,
                    finished_event_id: event.id,
                    completed_model_calls: finished.completed_model_calls,
                    completed_tool_calls: finished.completed_tool_calls,
                    kind,
                    retry,
                    cause: cause.clone(),
                    evidence_artifact: artifact.clone(),
                    evidence_digest: digest.clone(),
                    diagnostic: evidence.diagnostic,
                },
            ),
            durable: PlannerEvidenceMaterialV2::ChildFailed(
                PlannerChildFailedEvidenceV2 {
                    binding: finished.binding,
                    finished_event_id: event.id,
                    kind,
                    retry,
                    cause: cause.clone(),
                    evidence_artifact: artifact,
                    evidence_digest: digest,
                },
            ),
        },
    )
}

/// The evidence that a cancellation is.
pub open spec fn cancelled_pair(
    contract: Contract,
    event: EventEnvelope,
    finished: ChildExecutionFinished,
    cause: ChildCancellationCauseV1,
) -> PlannerEvidencePair {
    PlannerEvidencePair {
        durable_id: evidence_entry_id(event.id),
        prompt: PlannerPromptEvidenceMaterialV2::ChildCancelled(
            PlannerPromptChildCancelledV2 {
                contract_version: contract.versions.child_reconnaissance,
                binding: finished.binding,
                finished_event_id: event.id,
                completed_model_calls: finished.completed_model_calls,
                completed_tool_calls: finished.completed_tool_calls,
                cause,
            },
        ),
        durable: PlannerEvidenceMaterialV2::ChildCancelled(
            PlannerChildCancelledEvidenceV2 {
                binding: finished.binding,
                finished_event_id: event.id,
                cause,
            },
        ),
    }
}

/// The evidence of a finished child.
pub open spec fn child_evidence(
    store: Store,
    event: EventEnvelope,
    finished: ChildExecutionFinished,
    reads: ChildEvidenceReads,
) -> Result<PlannerEvidencePair, StoreError> {
    match event.run_id {
        None => Err(StoreError::InvalidStateEvent),
        Some(run_id) => match reads.projection {
            Err(error) => Err(error),
            Ok(None) => Err(StoreError::InvalidStateEvent),
            Ok(Some(projection)) => if !has_finished_attempt(
                projection.attempts@,
                event,
                finished,
            ) {
                Err(StoreError::InvalidStateEvent)
            } else {
                match finished.outcome {
                    ChildExecutionOutcome::Succeeded => success_evidence(
                        store,
                        event,
                        run_id,
                        finished,
                        reads,
                    ),
                    ChildExecutionOutcome::Failed { kind, retry, cause } => failed_child_evidence(
                        store,
                        event,
                        finished,
                        kind,
                        retry,
                        cause,
                        reads,
                    ),
                    ChildExecutionOutcome::Cancelled { cause } => Ok(
                        cancelled_pair(store.contract, event, finished, cause),
                    ),
                }
            },
        },
    }
}

/// The evidence of a finished child.
pub fn child_planner_evidence_pair(
    store: &Store,
    event: &EventEnvelope,
    finished: &ChildExecutionFinished,
    reads: &ChildEvidenceReads,
) -> (r: Result<PlannerEvidencePair, StoreError>)
    ensures
        r == child_evidence(*store, *event, *finished, *reads),
{
    let run_id = match event.run_id {
        Some(run_id) => run_id,
        None => return Err(StoreError::InvalidStateEvent),
    };
    let projection = match &reads.projection {
        Ok(Some(projection)) => projection,
        Ok(None) => return Err(StoreError::InvalidStateEvent),
        Err(error) => return Err(*error),
    };
    if !finds_finished_attempt(&projection.attempts, event, finished) {
        return Err(StoreError::InvalidStateEvent);
    }
    match &finished.outcome {
        ChildExecutionOutcome::Succeeded => succeeded_child_pair(
            store,
            event,
            run_id,
            finished,
            reads,
        ),
        ChildExecutionOutcome::Failed { kind, retry, cause } => failed_child_pair(
            store,
            event,
            finished,
            *kind,
            *retry,
            cause,
            reads,
        ),
        ChildExecutionOutcome::Cancelled { cause } => Ok(
            PlannerEvidencePair {
                durable_id: evidence_entry_id(event.id),
                prompt: PlannerPromptEvidenceMaterialV2::ChildCancelled(
                    PlannerPromptChildCancelledV2 {
                        contract_version: store.contract.versions.child_reconnaissance,
                        binding: finished.binding,
                        finished_event_id: event.id,
                        completed_model_calls: finished.completed_model_calls,
                        completed_tool_calls: finished.completed_tool_calls,
                        cause: *cause,
                    },
                ),
                durable: PlannerEvidenceMaterialV2::ChildCancelled(
                    PlannerChildCancelledEvidenceV2 {
                        binding: finished.binding,
                        finished_event_id: event.id,
                        cause: *cause,
                    },
                ),
            },
        ),
    }
}

/// What was read for the end of one child.
pub open spec fn reads_of(reads: Seq<ChildEvidenceReads>, finished_event_id: EventId) -> Option<
    ChildEvidenceReads,
>
    decreases reads.len(),
{
    if reads.len() == 0 {
        None
    } else if reads[0].finished_event_id == finished_event_id {
        Some(reads[0])
    } else {
        reads_of(reads.drop_first(), finished_event_id)
    }
}

fn find_reads<'a>(reads: &'a Vec<ChildEvidenceReads>, finished_event_id: EventId) -> (r: Option<
    &'a ChildEvidenceReads,
>)
    ensures
        reads_of(reads@, finished_event_id) == (match r {
            Some(found) => Some(*found),
            None => None,
        }),
{
    let mut i: usize = 0;
    assert(reads@.skip(0) =~= reads@);
    while i < reads.len()
        invariant
            i <= reads@.len(),
            reads_of(reads@, finished_event_id) == reads_of(
                reads@.skip(i as int),
                finished_event_id,
            ),
        decreases reads.len() - i,
    {
        assert(reads@.skip(i as int).drop_first() =~= reads@.skip(i + 1));
        if reads[i].finished_event_id == finished_event_id {
            return Some(&reads[i]);
        }
        i += 1;
    }
    None
}

/// The evidence of the first `n` of the children that finished, in the order in which they did. A
/// child for which nothing was read cannot be shown.
pub open spec fn children_evidence(
    store: Store,
    rows: Seq<EventEnvelope>,
    reads: Seq<ChildEvidenceReads>,
    n: nat,
) -> Result<Seq<PlannerEvidencePair>, StoreError>
    decreases n,
{
    if n == 0 {
        Ok(Seq::empty())
    } else {
        match children_evidence(store, rows, reads, (n - 1) as nat) {
            Err(error) => Err(error),
            Ok(pairs) => match (finish_in(rows[n - 1]), reads_of(reads, rows[n - 1].id)) {
                (Some(finished), Some(found)) => match child_evidence(
                    store,
                    rows[n - 1],
                    finished,
                    found,
                ) {
                    Err(error) => Err(error),
                    Ok(pair) => Ok(pairs.push(pair)),
                },
                _ => Err(StoreError::InvalidStateEvent),
            },
        }
    }
}

/// The ends of the children of a run.
pub open spec fn finished_children(
    events: Seq<EventEnvelope>,
    session_id: SessionId,
    run_id: RunId,
) -> Seq<EventEnvelope> {
    EventQuery::in_run(session_id, run_id, PayloadFilter::ChildFinished).rows(events)
}

/// All evidence of a run: its accepted root plan first, and then its children, in the order in which
/// they finished. A run with more evidence than a packet may hold is refused.
pub open spec fn evidence_pairs(
    store: Store,
    session_id: SessionId,
    run_id: RunId,
    plan: Result<RootPlannerOutput, StoreError>,
    reads: Seq<ChildEvidenceReads>,
) -> Result<Seq<PlannerEvidencePair>, StoreError> {
    let rows = finished_children(store.log@, session_id, run_id);
    match root_evidence(store, session_id, run_id, plan) {
        Err(error) => Err(error),
        Ok(root) => if rows.len() >= store.contract.recon.max_planner_evidence_entries {
            Err(StoreError::InvalidStateEvent)
        } else {
            match children_evidence(store, rows, reads, rows.len()) {
                Err(error) => Err(error),
                Ok(children) => Ok(seq![root] + children),
            }
        },
    }
}

proof fn lemma_failure_stays(
    store: Store,
    rows: Seq<EventEnvelope>,
    reads: Seq<ChildEvidenceReads>,
    n: nat,
    m: nat,
)
    requires
        n <= m,
        children_evidence(store, rows, reads, n) is Err,
    ensures
        children_evidence(store, rows, reads, m) == children_evidence(store, rows, reads, n),
    decreases m,
{
    if n < m {
        lemma_failure_stays(store, rows, reads, n, (m - 1) as nat);
    }
}

/// All evidence of a run.
pub fn planner_evidence_pairs(
    store: &Store,
    session_id: SessionId,
    run_id: RunId,
    plan: &Result<RootPlannerOutput, StoreError>,
    reads: &Vec<ChildEvidenceReads>,
) -> (r: Result<Vec<PlannerEvidencePair>, StoreError>)
    ensures
        match (r, evidence_pairs(*store, session_id, run_id, *plan, reads@)) {
            (Ok(pairs), Ok(expected)) => pairs@ == expected,
            (Err(error), Err(expected)) => error == expected,
            _ => false,
        },
{
    let root = match root_planner_evidence_pair(store, session_id, run_id, plan) {
        Ok(root) => root,
        Err(error) => return Err(error),
    };
    let rows = store.log.select(
        &EventQuery::in_run(session_id, run_id, PayloadFilter::ChildFinished),
    );
    let ghost events = finished_children(store.log@, session_id, run_id);
    if rows.len() as u64 >= store.contract.recon.max_planner_evidence_entries as u64 {
        return Err(StoreError::InvalidStateEvent);
    }
    let ghost first = seq![root];
    let mut pairs: Vec<PlannerEvidencePair> = Vec::new();
    pairs.push(root);
    let mut n: usize = 0;
    while n < rows.len()
        invariant
            n <= rows@.len(),
            events == finished_children(store.log@, session_id, run_id),
            rows@.len() == events.len(),
            forall|i: int| 0 <= i < rows@.len() ==> *#[trigger] rows@[i] == events[i],
            root_evidence(*store, session_id, run_id, *plan) is Ok,
            events.len() < store.contract.recon.max_planner_evidence_entries,
            children_evidence(*store, events, reads@, n as nat) matches Ok(children) && pairs@
                == first + children,
        decreases rows.len() - n,
    {
        let event = rows[n];
        assert(*event == events[n as int]);
        proof {
            if children_evidence(*store, events, reads@, (n + 1) as nat) is Err {
                lemma_failure_stays(*store, events, reads@, (n + 1) as nat, events.len());
            }
        }
        let finished = match &event.payload {
            EventPayload::ChildExecutionFinished(finished) => finished,
            _ => return Err(StoreError::InvalidStateEvent),
        };
        let found = match find_reads(reads, event.id) {
            Some(found) => found,
            None => return Err(StoreError::InvalidStateEvent),
        };
        match child_planner_evidence_pair(store, event, finished, found) {
            Ok(pair) => {
                pairs.push(pair);
            },
            Err(error) => return Err(error),
        }
        n += 1;
    }
    Ok(pairs)
}

/// The evidence of a run begins with its accepted root plan and holds one piece for each child that
/// finished.
pub proof fn law_evidence_covers_the_run(
    store: Store,
    session_id: SessionId,
    run_id: RunId,
    plan: Result<RootPlannerOutput, StoreError>,
    reads: Seq<ChildEvidenceReads>,
)
    requires
        evidence_pairs(store, session_id, run_id, plan, reads) is Ok,
    ensures
        ({
            let pairs = evidence_pairs(store, session_id, run_id, plan, reads)->Ok_0;
            let rows = finished_children(store.log@, session_id, run_id);
            &&& pairs.len() == rows.len() + 1
            &&& pairs[0].durable is AcceptedRootPlan
            &&& forall|i: int|
                0 <= i < rows.len() ==> (#[trigger] pairs[i + 1]).durable_id == evidence_entry_id(
                    rows[i].id,
                )
        }),
{
    let rows = finished_children(store.log@, session_id, run_id);
    lemma_children_in_order(store, rows, reads, rows.len());
}

proof fn lemma_children_in_order(
    store: Store,
    rows: Seq<EventEnvelope>,
    reads: Seq<ChildEvidenceReads>,
    n: nat,
)
    requires
        children_evidence(store, rows, reads, n) is Ok,
    ensures
        ({
            let pairs = children_evidence(store, rows, reads, n)->Ok_0;
            &&& pairs.len() == n
            &&& forall|i: int|
                0 <= i < n ==> (#[trigger] pairs[i]).durable_id == evidence_entry_id(rows[i].id)
        }),
    decreases n,
{
    if n > 0 {
        lemma_children_in_order(store, rows, reads, (n - 1) as nat);
    }
}

/// The one accepted review of a run is its root plan, told by the event and the candidate that it
/// accepted.
pub proof fn law_the_accepted_review_is_the_root_plan(
    events: Seq<EventEnvelope>,
    session_id: SessionId,
    run_id: RunId,
    i: int,
)
    requires
        0 <= i < events.len(),
        events[i].session_id == session_id,
        events[i].run_id == Some(run_id),
        events[i].payload is PlanSemanticReviewAccepted,
        forall|j: int|
            0 <= j < events.len() && j != i && (#[trigger] events[j]).session_id == session_id
                && events[j].run_id == Some(run_id) ==> !(
            events[j].payload is PlanSemanticReviewAccepted),
    ensures
        accepted_root_plan(events, session_id, run_id) matches Ok(Some(root)) && (
        events[i].payload matches EventPayload::PlanSemanticReviewAccepted(accepted) && {
            &&& root.accepted_plan_event_id == events[i].id
            &&& root.accepted_plan_revision == accepted.candidate.plan_revision
            &&& root.accepted_plan_digest@ == accepted.candidate.plan_digest@
            &&& root.accepted_plan_artifact == accepted.candidate.plan_artifact
        }),
{
    let query = EventQuery::in_run(session_id, run_id, PayloadFilter::ReviewAccepted);
    assert(query.admits(events[i]));
    assert forall|j: int| 0 <= j < events.len() && j != i implies !query.admits(
        #[trigger] events[j],
    ) by {}
    crate::cleanup_preflight::lemma_single_selection(query, events, i);
}

/// A run without an accepted review has no root plan.
pub proof fn law_unreviewed_runs_have_no_root_plan(
    events: Seq<EventEnvelope>,
    session_id: SessionId,
    run_id: RunId,
)
    requires
        forall|j: int|
            0 <= j < events.len() && (#[trigger] events[j]).session_id == session_id
                && events[j].run_id == Some(run_id) ==> !(
            events[j].payload is PlanSemanticReviewAccepted),
    ensures
        accepted_root_plan(events, session_id, run_id) == Ok::<
            Option<PlannerAcceptedRootPlanEvidenceV2>,
            StoreError,
        >(None),
{
    let query = EventQuery::in_run(session_id, run_id, PayloadFilter::ReviewAccepted);
    assert forall|j: int| 0 <= j < events.len() implies !query.admits(#[trigger] events[j]) by {}
    crate::history::lemma_nothing_selected(query, events);
}

/// What a child leaves as evidence is how it finished: a handoff where it succeeded, its failure where
/// it failed, its cause where it was cancelled, always of its own binding and under its own event.
pub proof fn law_children_leave_how_they_finished(
    store: Store,
    event: EventEnvelope,
    finished: ChildExecutionFinished,
    reads: ChildEvidenceReads,
)
    requires
        child_evidence(store, event, finished, reads) is Ok,
    ensures
        ({
            let pair = child_evidence(store, event, finished, reads)->Ok_0;
            &&& pair.durable_id.0 == event.id.0
            &&& match finished.outcome {
                ChildExecutionOutcome::Succeeded => {
                    &&& pair.durable matches PlannerEvidenceMaterialV2::ChildHandoff(left)
                        && left.binding == finished.binding && left.finished_event_id == event.id
                        && finished.handoff_event_id == Some(left.handoff_event_id)
                    &&& pair.prompt is ChildHandoff
                },
                ChildExecutionOutcome::Failed { kind, retry, cause } => {
                    &&& pair.durable matches PlannerEvidenceMaterialV2::ChildFailed(left)
                        && left.binding == finished.binding && left.finished_event_id == event.id
                        && left.kind == kind && left.retry == retry && left.cause == cause
                    &&& pair.prompt is ChildFailed
                },
                ChildExecutionOutcome::Cancelled { cause } => {
                    &&& pair.durable matches PlannerEvidenceMaterialV2::ChildCancelled(left)
                        && left.binding == finished.binding && left.finished_event_id == event.id
                        && left.cause == cause
                    &&& pair.prompt is ChildCancelled
                },
            }
        }),
{
}

} // verus!

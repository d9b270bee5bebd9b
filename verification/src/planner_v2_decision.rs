//! Decisions on planner turns: which are recorded, and which may be.

use vstd::prelude::*;
use crate::artifact::{require_artifact_media_type, ArtifactRef, Provenance};
use crate::clock::{same_runtime_not_before, RuntimeClockReading, Timestamp};
use crate::contract::Contract;
use crate::digest::Sha256Digest;
use crate::error::StoreError;
use crate::event::{EventEnvelope, EventPayload, IdentifiedNewEvent, NewEvent};
use crate::history::{EventLog, EventQuery, PayloadFilter};
use crate::identity::{ActorId, PlannerDelegateDirectiveId, PlannerTurnId};
use crate::planner_turn::{
    PlannerBasePlanBindingV1, PlannerTurnAcceptedV1, PlannerTurnObservationV1,
    PlannerTurnObservedV1, PlannerTurnPreparedV1, PlannerTurnRejectedV1,
    PlannerTurnRejectionReasonV1,
};
use crate::planner_v2_classification::{
    planner_v2_classify_response, ClassificationReads, PlannerV2AcceptedClassification,
    PlannerV2ResponseClassification,
};
use crate::planner_v2_directive::WrittenWorkOrder;
use crate::planner_v2_replay_projection::ReconRunProjection;
use crate::planner_v2_resolution::build_planner_accepted_directive;
use crate::planner_v2_terminal::{
    PlannerV2FinalizationAuthority, PlannerV2FinalizationDisposition,
};
use crate::retained::{
    RetainedInferenceEvidence, RetainedPlannerV2FinalizationEvidence,
    RetainedPlannerV2TerminalDisposition, StructuredInferenceResponse,
};
use crate::run::RunState;
use crate::store::Store;

verus! {

/// How many decisions on a turn are on record, in any run.
pub open spec fn turn_decisions(events: Seq<EventEnvelope>, turn_id: PlannerTurnId) -> nat {
    EventQuery::everywhere(PayloadFilter::PlannerTurnDecision(turn_id)).rows(events).len()
}

/// How many decisions on a turn are on record, in any run.
pub fn planner_turn_decision_count(log: &EventLog, turn_id: PlannerTurnId) -> (r: usize)
    ensures
        r == turn_decisions(log@, turn_id),
{
    log.count(&EventQuery::everywhere(PayloadFilter::PlannerTurnDecision(turn_id)))
}

/// The end in an observation event.
pub open spec fn observation_in(event: EventEnvelope) -> Option<PlannerTurnObservedV1> {
    match event.payload {
        EventPayload::PlannerTurnObservedV1(observed) => Some(observed),
        _ => None,
    }
}

/// The response that an observation retained, where it was observed to succeed. `evidence` is what it
/// retained, in its canonical form.
pub open spec fn observed_response(
    contract: Contract,
    event: EventEnvelope,
    evidence: Result<RetainedInferenceEvidence, StoreError>,
) -> Result<StructuredInferenceResponse, StoreError> {
    match observation_in(event) {
        None => Err(StoreError::InvalidStateEvent),
        Some(observed) => if !(observed.outcome is Succeeded)
            || observed.normalized_complete_evidence_artifact.media_type@
            != contract.media.inference_evidence@ {
            Err(StoreError::InvalidStateEvent)
        } else {
            match evidence {
                Err(error) => Err(error),
                Ok(RetainedInferenceEvidence::Response { response }) => Ok(response),
                Ok(_) => Err(StoreError::InvalidStateEvent),
            }
        },
    }
}

/// The response that an observation retained, where it was observed to succeed.
pub fn planner_v2_observed_response<'a>(
    contract: &Contract,
    event: &EventEnvelope,
    evidence: &'a Result<RetainedInferenceEvidence, StoreError>,
) -> (r: Result<&'a StructuredInferenceResponse, StoreError>)
    ensures
        observed_response(*contract, *event, *evidence) == (match r {
            Ok(response) => Ok::<StructuredInferenceResponse, StoreError>(*response),
            Err(error) => Err(error),
        }),
{
    let observed = match &event.payload {
        EventPayload::PlannerTurnObservedV1(observed) => observed,
        _ => return Err(StoreError::InvalidStateEvent),
    };
    match &observed.outcome {
        PlannerTurnObservationV1::Succeeded { .. } => {},
        _ => return Err(StoreError::InvalidStateEvent),
    }
    match require_artifact_media_type(
        &observed.normalized_complete_evidence_artifact,
        &contract.media.inference_evidence,
    ) {
        Ok(()) => {},
        Err(error) => return Err(error),
    }
    match evidence {
        Err(error) => Err(*error),
        Ok(RetainedInferenceEvidence::Response { response }) => Ok(response),
        Ok(_) => Err(StoreError::InvalidStateEvent),
    }
}

/// What is read, made and written for a decision: what the observation retained; what classifies its
/// response; the artifacts of the output, of the validation and of the resulting plan; and, for the
/// directive, the work orders that were written and the identities that were drawn.
#[derive(Debug)]
pub struct DecisionReads {
    pub evidence: Result<RetainedInferenceEvidence, StoreError>,
    pub classification: ClassificationReads,
    pub output_artifact: Result<ArtifactRef, StoreError>,
    pub validation_artifact: Result<ArtifactRef, StoreError>,
    pub plan_artifact: Result<ArtifactRef, StoreError>,
    pub written: Vec<WrittenWorkOrder>,
    pub draws: Vec<Vec<PlannerDelegateDirectiveId>>,
}

/// Whether an observation may be decided on: it is of the prepared turn, and not after the decision.
pub open spec fn may_be_decided(
    prepared_event: EventEnvelope,
    prepared: PlannerTurnPreparedV1,
    observed: PlannerTurnObservedV1,
    authority: PlannerV2FinalizationAuthority,
) -> bool {
    &&& observed.prepared_event_id == prepared_event.id
    &&& observed.turn_id == prepared.turn_id
    &&& same_runtime_not_before(&observed.observed_at, &authority.finalized_at)
}

/// What is found before a decision is made.
pub open spec fn decision_verdict(
    contract: Contract,
    projection: ReconRunProjection,
    prepared_event: EventEnvelope,
    observed_event: EventEnvelope,
    authority: PlannerV2FinalizationAuthority,
    reads: DecisionReads,
) -> Result<(), StoreError> {
    match (
        crate::planner_v2_terminal::turn_in(prepared_event),
        observation_in(observed_event),
        projection.guard.latest_claim,
    ) {
        (Some(prepared), Some(observed), Some(_)) => if !may_be_decided(
            prepared_event,
            prepared,
            observed,
            authority,
        ) {
            Err(StoreError::InvalidStateEvent)
        } else {
            crate::error::and_next(
                crate::artifact::outcome(
                    observed_response(contract, observed_event, reads.evidence),
                ),
                crate::planner_v2_classification::classification_verdict(
                    contract,
                    prepared,
                    reads.classification,
                ),
            )
        },
        _ => Err(StoreError::InvalidStateEvent),
    }
}

/// What is found of the plan that an accepted turn results in: where the plan was changed, it was
/// written.
pub open spec fn resulting_plan_verdict(
    patch_is_empty: bool,
    plan_artifact: Result<ArtifactRef, StoreError>,
) -> Result<(), StoreError> {
    if patch_is_empty {
        Ok(())
    } else {
        match plan_artifact {
            Err(error) => Err(error),
            Ok(artifact) => crate::error::demand(
                crate::digest::is_canonical_digest(artifact.sha256@),
            ),
        }
    }
}

/// The plan that an accepted turn results in: the one that it builds on, or the changed one.
pub open spec fn resulting_plan(
    prepared: PlannerTurnPreparedV1,
    authority: PlannerV2FinalizationAuthority,
    patch_is_empty: bool,
    revision: u64,
    plan_artifact: Result<ArtifactRef, StoreError>,
) -> PlannerBasePlanBindingV1 {
    if patch_is_empty {
        prepared.base_plan
    } else {
        PlannerBasePlanBindingV1 {
            accepted_event_id: authority.event_id,
            revision,
            digest: Sha256Digest::written_as(plan_artifact->Ok_0.sha256),
            artifact: plan_artifact->Ok_0,
        }
    }
}

fn bind_resulting_plan(
    prepared: &PlannerTurnPreparedV1,
    authority: &PlannerV2FinalizationAuthority,
    patch_is_empty: bool,
    revision: u64,
    plan_artifact: Result<ArtifactRef, StoreError>,
) -> (r: Result<PlannerBasePlanBindingV1, StoreError>)
    ensures
        match (r, resulting_plan_verdict(patch_is_empty, plan_artifact)) {
            (Ok(binding), Ok(())) => binding == resulting_plan(
                *prepared,
                *authority,
                patch_is_empty,
                revision,
                plan_artifact,
            ),
            (Err(error), Err(expected)) => error == expected,
            _ => false,
        },
{
    if patch_is_empty {
        return Ok(prepared.base_plan.clone());
    }
    let artifact = match plan_artifact {
        Ok(artifact) => artifact,
        Err(error) => return Err(error),
    };
    match Sha256Digest::parse(&artifact.sha256) {
        Some(digest) => Ok(
            PlannerBasePlanBindingV1 {
                accepted_event_id: authority.event_id,
                revision,
                digest,
                artifact,
            },
        ),
        None => Err(StoreError::InvalidStateEvent),
    }
}

/// What is found of the artifacts of a decision: both were written, under digests that can be read.
pub open spec fn artifacts_verdict(reads: DecisionReads) -> Result<(), StoreError> {
    match (reads.output_artifact, reads.validation_artifact) {
        (Err(error), _) => Err(error),
        (Ok(_), Err(error)) => Err(error),
        (Ok(_), Ok(_)) => Ok(()),
    }
}

/// Whether the digests of a decision's artifacts can be read.
pub open spec fn decision_digests_readable(reads: DecisionReads) -> bool {
    &&& crate::digest::is_canonical_digest(reads.output_artifact->Ok_0.sha256@)
    &&& crate::digest::is_canonical_digest(reads.validation_artifact->Ok_0.sha256@)
}

/// What is found when a turn is accepted.
pub open spec fn acceptance_verdict(
    store: Store,
    reads: DecisionReads,
    accepted: PlannerV2AcceptedClassification,
) -> Result<(), StoreError> {
    crate::error::and_next(
        artifacts_verdict(reads),
        crate::error::and_next(
            resulting_plan_verdict(accepted.prompting.patch_is_empty, reads.plan_artifact),
            crate::error::and_next(
                crate::planner_v2_resolution::resolution_verdict(
                    store.log@,
                    store.contract,
                    accepted.protocol.directive,
                    accepted.authoritative,
                    reads.written@,
                    reads.draws@,
                ),
                crate::error::demand(decision_digests_readable(reads)),
            ),
        ),
    )
}

/// Whether an event records a decision on a turn, under the owner's claim.
pub open spec fn records_decision(
    contract: Contract,
    projection: ReconRunProjection,
    observed_event: EventEnvelope,
    authority: PlannerV2FinalizationAuthority,
    validation_artifact: ArtifactRef,
    identified: IdentifiedNewEvent,
) -> bool {
    let event = identified.event;
    &&& identified.event_id == authority.event_id
    &&& event.session_id == projection.session_id
    &&& event.run_id == Some(projection.run_id)
    &&& event.actor_id == projection.guard.latest_claim->0.event.actor_id
    &&& event.causal_parent == Some(observed_event.id)
    &&& event.provenance.producer == contract.producers.planner_finalization
    &&& event.provenance.backend is None
    &&& event.provenance.raw_artifact == Some(validation_artifact)
}

/// Whether a turn is accepted as its classification says.
pub open spec fn accepts_turn(
    store: Store,
    prepared_event: EventEnvelope,
    prepared: PlannerTurnPreparedV1,
    observed_event: EventEnvelope,
    authority: PlannerV2FinalizationAuthority,
    reads: DecisionReads,
    classified: PlannerV2AcceptedClassification,
    accepted: PlannerTurnAcceptedV1,
) -> bool {
    let output_artifact = reads.output_artifact->Ok_0;
    let validation_artifact = reads.validation_artifact->Ok_0;
    &&& accepted.turn_id == prepared.turn_id
    &&& accepted.purpose == prepared.purpose
    &&& accepted.prepared_event_id == prepared_event.id
    &&& accepted.observed_event_id == observed_event.id
    &&& accepted.base_plan == prepared.base_plan
    &&& accepted.resulting_plan == resulting_plan(
        prepared,
        authority,
        classified.prompting.patch_is_empty,
        classified.authoritative.plan.revision,
        reads.plan_artifact,
    )
    &&& accepted.accepted_prompt_output_artifact == output_artifact
    &&& accepted.accepted_prompt_output_digest == Sha256Digest::written_as(output_artifact.sha256)
    &&& accepted.accepted_prompt_output == classified.protocol
    &&& crate::planner_v2_resolution::is_resolved(
        store.log@,
        store.contract,
        classified.protocol.directive,
        classified.authoritative,
        reads.written@,
        reads.draws@,
        accepted.resolved_directive,
    )
    &&& accepted.validation_evidence_artifact == validation_artifact
    &&& accepted.validation_evidence_digest == Sha256Digest::written_as(validation_artifact.sha256)
    &&& accepted.accepted_at == authority.finalized_at
}

/// Whether a turn is rejected for a reason.
pub open spec fn rejects_turn(
    prepared_event: EventEnvelope,
    prepared: PlannerTurnPreparedV1,
    observed_event: EventEnvelope,
    authority: PlannerV2FinalizationAuthority,
    reads: DecisionReads,
    reason: PlannerTurnRejectionReasonV1,
    rejected: PlannerTurnRejectedV1,
) -> bool {
    let output_artifact = reads.output_artifact->Ok_0;
    let validation_artifact = reads.validation_artifact->Ok_0;
    &&& rejected.turn_id == prepared.turn_id
    &&& rejected.purpose == prepared.purpose
    &&& rejected.prepared_event_id == prepared_event.id
    &&& rejected.observed_event_id == observed_event.id
    &&& rejected.base_plan == prepared.base_plan
    &&& rejected.rejected_output_artifact == output_artifact
    &&& rejected.rejected_output_digest == Sha256Digest::written_as(output_artifact.sha256)
    &&& rejected.reason == reason
    &&& rejected.validation_evidence_artifact == validation_artifact
    &&& rejected.validation_evidence_digest == Sha256Digest::written_as(validation_artifact.sha256)
    &&& rejected.rejected_at == authority.finalized_at
}

/// What is found of the artifacts of a rejection.
pub open spec fn rejection_verdict(reads: DecisionReads) -> Result<(), StoreError> {
    crate::error::and_next(
        artifacts_verdict(reads),
        crate::error::demand(decision_digests_readable(reads)),
    )
}

/// Whether a decision is the one that a classification is owed.
pub open spec fn is_decision(
    store: Store,
    projection: ReconRunProjection,
    prepared_event: EventEnvelope,
    observed_event: EventEnvelope,
    authority: PlannerV2FinalizationAuthority,
    reads: DecisionReads,
    classification: PlannerV2ResponseClassification,
    decided: Result<(IdentifiedNewEvent, PlannerV2FinalizationDisposition), StoreError>,
) -> bool {
    let prepared = crate::planner_v2_terminal::turn_in(prepared_event)->0;
    match classification {
        PlannerV2ResponseClassification::Accepted(classified) => match (
            decided,
            acceptance_verdict(store, reads, classified),
        ) {
            (Ok((event, disposition)), Ok(())) => {
                &&& disposition == PlannerV2FinalizationDisposition::Accepted
                &&& records_decision(
                    store.contract,
                    projection,
                    observed_event,
                    authority,
                    reads.validation_artifact->Ok_0,
                    event,
                )
                &&& event.event.payload matches EventPayload::PlannerTurnAcceptedV1(accepted)
                    && accepts_turn(
                    store,
                    prepared_event,
                    prepared,
                    observed_event,
                    authority,
                    reads,
                    classified,
                    accepted,
                )
            },
            (Err(error), Err(expected)) => error == expected,
            _ => false,
        },
        PlannerV2ResponseClassification::Rejected { reason, validation } => match (
            decided,
            rejection_verdict(reads),
        ) {
            (Ok((event, disposition)), Ok(())) => {
                &&& disposition == PlannerV2FinalizationDisposition::Rejected(reason)
                &&& records_decision(
                    store.contract,
                    projection,
                    observed_event,
                    authority,
                    reads.validation_artifact->Ok_0,
                    event,
                )
                &&& event.event.payload matches EventPayload::PlannerTurnRejectedV1(rejected)
                    && rejects_turn(
                    prepared_event,
                    prepared,
                    observed_event,
                    authority,
                    reads,
                    reason,
                    rejected,
                )
            },
            (Err(error), Err(expected)) => error == expected,
            _ => false,
        },
    }
}

/// What is needed to write the event of a decision.
struct DecisionFrame<'a> {
    contract: &'a Contract,
    projection: &'a ReconRunProjection<'a>,
    actor_id: ActorId,
    observed_event: &'a EventEnvelope,
    authority: &'a PlannerV2FinalizationAuthority,
}

fn frame_decision(
    frame: &DecisionFrame,
    validation_artifact: ArtifactRef,
    payload: EventPayload,
) -> (r: IdentifiedNewEvent)
    requires
        frame.projection.guard.latest_claim matches Some(claim) && claim.event.actor_id
            == frame.actor_id,
    ensures
        records_decision(
            *frame.contract,
            *frame.projection,
            *frame.observed_event,
            *frame.authority,
            validation_artifact,
            r,
        ),
        r.event.payload == payload,
{
    IdentifiedNewEvent {
        event_id: frame.authority.event_id,
        event: NewEvent {
            session_id: frame.projection.session_id,
            run_id: Some(frame.projection.run_id),
            actor_id: frame.actor_id,
            causal_parent: Some(frame.observed_event.id),
            provenance: Provenance {
                producer: frame.contract.producers.planner_finalization.clone(),
                backend: None,
                raw_artifact: Some(validation_artifact),
            },
            payload,
        },
    }
}

fn accept_turn(
    store: &Store,
    prepared_event: &EventEnvelope,
    prepared: &PlannerTurnPreparedV1,
    observed_event: &EventEnvelope,
    authority: &PlannerV2FinalizationAuthority,
    classified: PlannerV2AcceptedClassification,
    output_artifact: Result<ArtifactRef, StoreError>,
    validation_artifact: Result<ArtifactRef, StoreError>,
    plan_artifact: Result<ArtifactRef, StoreError>,
    written: &Vec<WrittenWorkOrder>,
    draws: &Vec<Vec<PlannerDelegateDirectiveId>>,
    Ghost(reads): Ghost<DecisionReads>,
) -> (r: Result<PlannerTurnAcceptedV1, StoreError>)
    requires
        output_artifact == reads.output_artifact,
        validation_artifact == reads.validation_artifact,
        plan_artifact == reads.plan_artifact,
        *written == reads.written,
        *draws == reads.draws,
    ensures
        match (r, acceptance_verdict(*store, reads, classified)) {
            (Ok(accepted), Ok(())) => accepts_turn(
                *store,
                *prepared_event,
                *prepared,
                *observed_event,
                *authority,
                reads,
                classified,
                accepted,
            ),
            (Err(error), Err(expected)) => error == expected,
            _ => false,
        },
{
    let (output_artifact, validation_artifact) = match (output_artifact, validation_artifact) {
        (Err(error), _) => return Err(error),
        (Ok(_), Err(error)) => return Err(error),
        (Ok(output), Ok(validation)) => (output, validation),
    };
    let resulting_plan = match bind_resulting_plan(
        prepared,
        authority,
        classified.prompting.patch_is_empty,
        classified.authoritative.plan.revision,
        plan_artifact,
    ) {
        Ok(resulting_plan) => resulting_plan,
        Err(error) => return Err(error),
    };
    let resolved_directive = match build_planner_accepted_directive(
        &store.log,
        &store.contract,
        &classified.protocol.directive,
        &classified.authoritative,
        written,
        draws,
    ) {
        Ok(resolved_directive) => resolved_directive,
        Err(error) => return Err(error),
    };
    let (output_digest, validation_digest) = match (
        Sha256Digest::parse(&output_artifact.sha256),
        Sha256Digest::parse(&validation_artifact.sha256),
    ) {
        (Some(output_digest), Some(validation_digest)) => (output_digest, validation_digest),
        _ => return Err(StoreError::InvalidStateEvent),
    };
    Ok(
        PlannerTurnAcceptedV1 {
            turn_id: prepared.turn_id,
            purpose: prepared.purpose,
            prepared_event_id: prepared_event.id,
            observed_event_id: observed_event.id,
            base_plan: prepared.base_plan.clone(),
            resulting_plan,
            accepted_prompt_output_artifact: output_artifact,
            accepted_prompt_output_digest: output_digest,
            accepted_prompt_output: classified.protocol,
            resolved_directive,
            validation_evidence_artifact: validation_artifact,
            validation_evidence_digest: validation_digest,
            accepted_at: authority.finalized_at,
        },
    )
}

fn reject_turn(
    prepared_event: &EventEnvelope,
    prepared: &PlannerTurnPreparedV1,
    observed_event: &EventEnvelope,
    authority: &PlannerV2FinalizationAuthority,
    reason: PlannerTurnRejectionReasonV1,
    output_artifact: Result<ArtifactRef, StoreError>,
    validation_artifact: Result<ArtifactRef, StoreError>,
    Ghost(reads): Ghost<DecisionReads>,
) -> (r: Result<PlannerTurnRejectedV1, StoreError>)
    requires
        output_artifact == reads.output_artifact,
        validation_artifact == reads.validation_artifact,
    ensures
        match (r, rejection_verdict(reads)) {
            (Ok(rejected), Ok(())) => rejects_turn(
                *prepared_event,
                *prepared,
                *observed_event,
                *authority,
                reads,
                reason,
                rejected,
            ),
            (Err(error), Err(expected)) => error == expected,
            _ => false,
        },
{
    let (output_artifact, validation_artifact) = match (output_artifact, validation_artifact) {
        (Err(error), _) => return Err(error),
        (Ok(_), Err(error)) => return Err(error),
        (Ok(output), Ok(validation)) => (output, validation),
    };
    let (output_digest, validation_digest) = match (
        Sha256Digest::parse(&output_artifact.sha256),
        Sha256Digest::parse(&validation_artifact.sha256),
    ) {
        (Some(output_digest), Some(validation_digest)) => (output_digest, validation_digest),
        _ => return Err(StoreError::InvalidStateEvent),
    };
    Ok(
        PlannerTurnRejectedV1 {
            turn_id: prepared.turn_id,
            purpose: prepared.purpose,
            prepared_event_id: prepared_event.id,
            observed_event_id: observed_event.id,
            base_plan: prepared.base_plan.clone(),
            rejected_output_artifact: output_artifact,
            rejected_output_digest: output_digest,
            reason,
            validation_evidence_artifact: validation_artifact,
            validation_evidence_digest: validation_digest,
            rejected_at: authority.finalized_at,
        },
    )
}

/// The event that accepts or rejects an observed turn, as its response is classified, and what the
/// decision came to.
pub fn build_planner_v2_decision_event(
    store: &Store,
    projection: &ReconRunProjection,
    prepared_event: &EventEnvelope,
    observed_event: &EventEnvelope,
    authority: &PlannerV2FinalizationAuthority,
    reads: DecisionReads,
) -> (r: Result<(IdentifiedNewEvent, PlannerV2FinalizationDisposition), StoreError>)
    ensures
        match decision_verdict(
            store.contract,
            *projection,
            *prepared_event,
            *observed_event,
            *authority,
            reads,
        ) {
            Err(expected) => r matches Err(error) && error == expected,
            Ok(()) => exists|classification: PlannerV2ResponseClassification|
                {
                    &&& crate::planner_v2_classification::is_classified(
                        classification,
                        reads.classification,
                    )
                    &&& #[trigger] is_decision(
                        *store,
                        *projection,
                        *prepared_event,
                        *observed_event,
                        *authority,
                        reads,
                        classification,
                        r,
                    )
                },
        },
{
    let ghost given = reads;
    let prepared = match &prepared_event.payload {
        EventPayload::PlannerTurnPreparedV1(prepared) => prepared,
        _ => return Err(StoreError::InvalidStateEvent),
    };
    let observed = match &observed_event.payload {
        EventPayload::PlannerTurnObservedV1(observed) => observed,
        _ => return Err(StoreError::InvalidStateEvent),
    };
    let actor_id = match &projection.guard.latest_claim {
        Some(claim) => claim.event.actor_id,
        None => return Err(StoreError::InvalidStateEvent),
    };
    if observed.prepared_event_id != prepared_event.id || observed.turn_id != prepared.turn_id
        || !same_runtime_not_before(&observed.observed_at, &authority.finalized_at) {
        return Err(StoreError::InvalidStateEvent);
    }
    match planner_v2_observed_response(&store.contract, observed_event, &reads.evidence) {
        Ok(_) => {},
        Err(error) => return Err(error),
    }
    let classification = match planner_v2_classify_response(
        &store.contract,
        prepared,
        reads.classification,
    ) {
        Ok(classification) => classification,
        Err(error) => return Err(error),
    };
    let ghost found = classification;
    let frame = DecisionFrame {
        contract: &store.contract,
        projection,
        actor_id,
        observed_event,
        authority,
    };
    let decided = match classification {
        PlannerV2ResponseClassification::Accepted(classified) => match accept_turn(
            store,
            prepared_event,
            prepared,
            observed_event,
            authority,
            classified,
            reads.output_artifact,
            reads.validation_artifact,
            reads.plan_artifact,
            &reads.written,
            &reads.draws,
            Ghost(given),
        ) {
            Ok(accepted) => {
                let validation_artifact = accepted.validation_evidence_artifact.clone();
                Ok(
                    (
                        frame_decision(
                            &frame,
                            validation_artifact,
                            EventPayload::PlannerTurnAcceptedV1(accepted),
                        ),
                        PlannerV2FinalizationDisposition::Accepted,
                    ),
                )
            },
            Err(error) => Err(error),
        },
        PlannerV2ResponseClassification::Rejected { reason, validation: _ } => match reject_turn(
            prepared_event,
            prepared,
            observed_event,
            authority,
            reason,
            reads.output_artifact,
            reads.validation_artifact,
            Ghost(given),
        ) {
            Ok(rejected) => {
                let validation_artifact = rejected.validation_evidence_artifact.clone();
                Ok(
                    (
                        frame_decision(
                            &frame,
                            validation_artifact,
                            EventPayload::PlannerTurnRejectedV1(rejected),
                        ),
                        PlannerV2FinalizationDisposition::Rejected(reason),
                    ),
                )
            },
            Err(error) => Err(error),
        },
    };
    assert(is_decision(
        *store,
        *projection,
        *prepared_event,
        *observed_event,
        *authority,
        given,
        found,
        decided,
    ));
    decided
}

/// When a turn ended without a success, if the event is such an end of it.
pub open spec fn failed_at(
    prepared_event: EventEnvelope,
    prepared: PlannerTurnPreparedV1,
    terminal: EventEnvelope,
) -> Option<RuntimeClockReading> {
    match terminal.payload {
        EventPayload::PlannerTurnObservedV1(observed) => if observed.prepared_event_id
            == prepared_event.id && observed.turn_id == prepared.turn_id
            && observed.outcome is Failed {
            Some(observed.observed_at)
        } else {
            None
        },
        EventPayload::PlannerTurnUnknownV1(unknown) => if unknown.prepared_event_id
            == prepared_event.id && unknown.turn_id == prepared.turn_id {
            Some(unknown.boundary_at)
        } else {
            None
        },
        _ => None,
    }
}

fn find_failure(
    prepared_event: &EventEnvelope,
    prepared: &PlannerTurnPreparedV1,
    terminal: &EventEnvelope,
) -> (r: Option<RuntimeClockReading>)
    ensures
        r == failed_at(*prepared_event, *prepared, *terminal),
{
    match &terminal.payload {
        EventPayload::PlannerTurnObservedV1(observed) => match &observed.outcome {
            PlannerTurnObservationV1::Failed { .. } => if observed.prepared_event_id
                == prepared_event.id && observed.turn_id == prepared.turn_id {
                Some(observed.observed_at)
            } else {
                None
            },
            _ => None,
        },
        EventPayload::PlannerTurnUnknownV1(unknown) => if unknown.prepared_event_id
            == prepared_event.id && unknown.turn_id == prepared.turn_id {
            Some(unknown.boundary_at)
        } else {
            None
        },
        _ => None,
    }
}

/// The evidence that is retained when a run ends with its planner.
pub open spec fn finalization_evidence(
    prepared_event: EventEnvelope,
    terminal: EventEnvelope,
    authority: PlannerV2FinalizationAuthority,
    cancelled: bool,
) -> RetainedPlannerV2FinalizationEvidence {
    RetainedPlannerV2FinalizationEvidence {
        prepared_event_id: prepared_event.id,
        finalized_at: authority.finalized_at,
        disposition: if cancelled {
            RetainedPlannerV2TerminalDisposition::Cancelled
        } else {
            RetainedPlannerV2TerminalDisposition::Failed
        },
        terminal_event_id: terminal.id,
    }
}

/// The evidence that is retained when a run ends with its planner.
pub fn run_finalization_evidence(
    prepared_event: &EventEnvelope,
    terminal: &EventEnvelope,
    authority: &PlannerV2FinalizationAuthority,
    cancelled: bool,
) -> (r: RetainedPlannerV2FinalizationEvidence)
    ensures
        r == finalization_evidence(*prepared_event, *terminal, *authority, cancelled),
{
    RetainedPlannerV2FinalizationEvidence {
        prepared_event_id: prepared_event.id,
        finalized_at: authority.finalized_at,
        disposition: if cancelled {
            RetainedPlannerV2TerminalDisposition::Cancelled
        } else {
            RetainedPlannerV2TerminalDisposition::Failed
        },
        terminal_event_id: terminal.id,
    }
}

/// What is found when a run is ended with its planner. `artifact` is what the evidence was written to.
pub open spec fn run_end_verdict(
    projection: ReconRunProjection,
    prepared_event: EventEnvelope,
    terminal: EventEnvelope,
    authority: PlannerV2FinalizationAuthority,
    artifact: Result<ArtifactRef, StoreError>,
) -> Result<(), StoreError> {
    match (
        crate::planner_v2_terminal::turn_in(prepared_event),
        projection.guard.latest_claim,
    ) {
        (Some(prepared), Some(claim)) => match failed_at(prepared_event, prepared, terminal) {
            None => Err(StoreError::InvalidStateEvent),
            Some(terminal_at) => if authority.finalized_at.runtime_instance_id
                != claim.claim.runtime_instance_id || (terminal_at.runtime_instance_id
                == authority.finalized_at.runtime_instance_id && !same_runtime_not_before(
                &terminal_at,
                &authority.finalized_at,
            )) {
                Err(StoreError::InvalidStateEvent)
            } else {
                crate::artifact::outcome(artifact)
            },
        },
        _ => Err(StoreError::InvalidStateEvent),
    }
}

/// Whether an event ends a run with its planner.
pub open spec fn records_run_end(
    contract: Contract,
    projection: ReconRunProjection,
    authority: PlannerV2FinalizationAuthority,
    cancelled: bool,
    artifact: ArtifactRef,
    identified: IdentifiedNewEvent,
) -> bool {
    let event = identified.event;
    &&& identified.event_id == authority.event_id
    &&& event.session_id == projection.session_id
    &&& event.run_id == Some(projection.run_id)
    &&& event.actor_id == projection.guard.latest_claim->0.event.actor_id
    &&& event.causal_parent == Some(projection.last_event.id)
    &&& event.provenance.producer == contract.producers.planner_finalization
    &&& event.provenance.backend is None
    &&& event.provenance.raw_artifact == Some(artifact)
    &&& event.payload matches EventPayload::RunStateChanged { from, to } && from
        == RunState::Running && to == (if cancelled {
        RunState::Cancelled
    } else {
        RunState::Failed
    })
}

/// The event that ends a run with a planner turn that did not succeed, and what that came to.
pub fn build_planner_v2_run_terminal_event(
    contract: &Contract,
    projection: &ReconRunProjection,
    prepared_event: &EventEnvelope,
    terminal: &EventEnvelope,
    authority: &PlannerV2FinalizationAuthority,
    cancelled: bool,
    artifact: Result<ArtifactRef, StoreError>,
) -> (r: Result<(IdentifiedNewEvent, PlannerV2FinalizationDisposition), StoreError>)
    ensures
        match (
            r,
            run_end_verdict(*projection, *prepared_event, *terminal, *authority, artifact),
        ) {
            (Ok((event, disposition)), Ok(())) => {
                &&& records_run_end(
                    *contract,
                    *projection,
                    *authority,
                    cancelled,
                    artifact->Ok_0,
                    event,
                )
                &&& disposition == (if cancelled {
                    PlannerV2FinalizationDisposition::RunCancelled
                } else {
                    PlannerV2FinalizationDisposition::RunFailed
                })
            },
            (Err(error), Err(expected)) => error == expected,
            _ => false,
        },
{
    let prepared = match &prepared_event.payload {
        EventPayload::PlannerTurnPreparedV1(prepared) => prepared,
        _ => return Err(StoreError::InvalidStateEvent),
    };
    let claim = match &projection.guard.latest_claim {
        Some(claim) => claim,
        None => return Err(StoreError::InvalidStateEvent),
    };
    let terminal_at = match find_failure(prepared_event, prepared, terminal) {
        Some(terminal_at) => terminal_at,
        None => return Err(StoreError::InvalidStateEvent),
    };
    if authority.finalized_at.runtime_instance_id != claim.claim.runtime_instance_id || (
    terminal_at.runtime_instance_id == authority.finalized_at.runtime_instance_id
        && !same_runtime_not_before(&terminal_at, &authority.finalized_at)) {
        return Err(StoreError::InvalidStateEvent);
    }
    let artifact = match artifact {
        Ok(artifact) => artifact,
        Err(error) => return Err(error),
    };
    let to = if cancelled {
        RunState::Cancelled
    } else {
        RunState::Failed
    };
    let event = IdentifiedNewEvent {
        event_id: authority.event_id,
        event: NewEvent {
            session_id: projection.session_id,
            run_id: Some(projection.run_id),
            actor_id: claim.event.actor_id,
            causal_parent: Some(projection.last_event.id),
            provenance: Provenance {
                producer: contract.producers.planner_finalization.clone(),
                backend: None,
                raw_artifact: Some(artifact),
            },
            payload: EventPayload::RunStateChanged { from: RunState::Running, to },
        },
    };
    Ok(
        (
            event,
            if cancelled {
                PlannerV2FinalizationDisposition::RunCancelled
            } else {
                PlannerV2FinalizationDisposition::RunFailed
            },
        ),
    )
}

/// The same finalization once more finds what it decided: the event of a built decision, however it is
/// recorded, is recognized under the authority that it was built with, and comes to the same.
pub proof fn law_decisions_are_found_again(
    store: Store,
    projection: ReconRunProjection,
    prepared_event: EventEnvelope,
    observed_event: EventEnvelope,
    authority: PlannerV2FinalizationAuthority,
    reads: DecisionReads,
    classification: PlannerV2ResponseClassification,
    built: IdentifiedNewEvent,
    disposition: PlannerV2FinalizationDisposition,
    sequence: u64,
    at: Timestamp,
    evidence: Result<RetainedPlannerV2FinalizationEvidence, StoreError>,
)
    requires
        is_decision(
            store,
            projection,
            prepared_event,
            observed_event,
            authority,
            reads,
            classification,
            Ok((built, disposition)),
        ),
    ensures
        crate::planner_v2_terminal::existing_finalization(
            store.contract,
            projection.run_id,
            authority,
            crate::parallel_recon_bootstrap::enveloped(built, sequence, at),
            evidence,
        ) == Ok::<PlannerV2FinalizationDisposition, StoreError>(disposition),
{
}

/// The same finalization once more finds the end that it gave a run: the event of a built end, where
/// it follows the end of the turn, is recognized by the evidence that was retained with it.
pub proof fn law_run_ends_are_found_again(
    contract: Contract,
    projection: ReconRunProjection,
    prepared_event: EventEnvelope,
    terminal: EventEnvelope,
    authority: PlannerV2FinalizationAuthority,
    cancelled: bool,
    artifact: ArtifactRef,
    built: IdentifiedNewEvent,
    sequence: u64,
    at: Timestamp,
)
    requires
        records_run_end(contract, projection, authority, cancelled, artifact, built),
        artifact.media_type@ == contract.media.planner_v2_finalization_evidence@,
        projection.last_event.id == terminal.id,
    ensures
        crate::planner_v2_terminal::existing_finalization(
            contract,
            projection.run_id,
            authority,
            crate::parallel_recon_bootstrap::enveloped(built, sequence, at),
            Ok(finalization_evidence(prepared_event, terminal, authority, cancelled)),
        ) == Ok::<PlannerV2FinalizationDisposition, StoreError>(
            if cancelled {
                PlannerV2FinalizationDisposition::RunCancelled
            } else {
                PlannerV2FinalizationDisposition::RunFailed
            },
        ),
{
}

/// An accepted turn leaves the plan as it was where its patch is empty; otherwise it brings a new plan
/// under its own event, with the revision that was applied and the artifact that holds it.
pub proof fn law_accepted_turns_bring_their_plan(
    store: Store,
    prepared_event: EventEnvelope,
    prepared: PlannerTurnPreparedV1,
    observed_event: EventEnvelope,
    authority: PlannerV2FinalizationAuthority,
    reads: DecisionReads,
    classified: PlannerV2AcceptedClassification,
    accepted: PlannerTurnAcceptedV1,
)
    requires
        accepts_turn(
            store,
            prepared_event,
            prepared,
            observed_event,
            authority,
            reads,
            classified,
            accepted,
        ),
    ensures
        accepted.turn_id == prepared.turn_id,
        accepted.purpose == prepared.purpose,
        accepted.prepared_event_id == prepared_event.id,
        accepted.observed_event_id == observed_event.id,
        accepted.base_plan == prepared.base_plan,
        accepted.accepted_at == authority.finalized_at,
        classified.prompting.patch_is_empty ==> accepted.resulting_plan == prepared.base_plan,
        !classified.prompting.patch_is_empty ==> {
            &&& accepted.resulting_plan.accepted_event_id == authority.event_id
            &&& accepted.resulting_plan.revision == classified.authoritative.plan.revision
            &&& reads.plan_artifact matches Ok(artifact) ==> accepted.resulting_plan.artifact
                == artifact
        },
        accepted.accepted_prompt_output == classified.protocol,
        reads.output_artifact matches Ok(artifact) ==> accepted.accepted_prompt_output_artifact
            == artifact,
        reads.validation_artifact matches Ok(artifact) ==> accepted.validation_evidence_artifact
            == artifact,
{
}

/// A decision is recorded by the holder of the claim, right after the observation that it decides on,
/// under the identity that its authority fixed, as what the answer was classified.
pub proof fn law_decisions_are_recorded_as_classified(
    store: Store,
    projection: ReconRunProjection,
    prepared_event: EventEnvelope,
    observed_event: EventEnvelope,
    authority: PlannerV2FinalizationAuthority,
    reads: DecisionReads,
    classification: PlannerV2ResponseClassification,
    event: IdentifiedNewEvent,
    disposition: PlannerV2FinalizationDisposition,
)
    requires
        is_decision(
            store,
            projection,
            prepared_event,
            observed_event,
            authority,
            reads,
            classification,
            Ok((event, disposition)),
        ),
    ensures
        event.event_id == authority.event_id,
        event.event.session_id == projection.session_id,
        event.event.run_id == Some(projection.run_id),
        event.event.causal_parent == Some(observed_event.id),
        projection.guard.latest_claim matches Some(claim) ==> event.event.actor_id
            == claim.event.actor_id,
        event.event.payload is PlannerTurnAcceptedV1 <==> classification is Accepted,
        event.event.payload is PlannerTurnRejectedV1 <==> classification is Rejected,
        disposition == PlannerV2FinalizationDisposition::Accepted <==> classification is Accepted,
        classification matches PlannerV2ResponseClassification::Rejected { reason, .. } ==> {
            &&& disposition == PlannerV2FinalizationDisposition::Rejected(reason)
            &&& event.event.payload matches EventPayload::PlannerTurnRejectedV1(rejected) && {
                &&& rejected.reason == reason
                &&& rejected.prepared_event_id == prepared_event.id
                &&& rejected.observed_event_id == observed_event.id
                &&& rejected.rejected_at == authority.finalized_at
            }
        },
{
}

/// A turn is decided on its own success only: the observation is of that turn, it succeeded with a
/// response, and the decision is not made before it.
pub proof fn law_turns_are_decided_on_their_own_success(
    contract: Contract,
    projection: ReconRunProjection,
    prepared_event: EventEnvelope,
    observed_event: EventEnvelope,
    authority: PlannerV2FinalizationAuthority,
    reads: DecisionReads,
)
    requires
        decision_verdict(
            contract,
            projection,
            prepared_event,
            observed_event,
            authority,
            reads,
        ) is Ok,
    ensures
        projection.guard.latest_claim is Some,
        prepared_event.payload matches EventPayload::PlannerTurnPreparedV1(prepared) && (
        observed_event.payload matches EventPayload::PlannerTurnObservedV1(observed) && {
            &&& observed.prepared_event_id == prepared_event.id
            &&& observed.turn_id == prepared.turn_id
            &&& observed.outcome is Succeeded
            &&& observed.observed_at.runtime_instance_id
                == authority.finalized_at.runtime_instance_id
            &&& observed.observed_at.monotonic_nanos <= authority.finalized_at.monotonic_nanos
            &&& !authority.finalized_at.observed_at.before(observed.observed_at.observed_at)
        }),
        reads.evidence matches Ok(RetainedInferenceEvidence::Response { .. }),
{
}

/// A run ends by a turn that failed or whose outcome is unknown, never by one that succeeded: it goes
/// from running to cancelled where it was cancelled and to failed otherwise.
pub proof fn law_runs_end_by_what_failed(
    contract: Contract,
    projection: ReconRunProjection,
    prepared_event: EventEnvelope,
    terminal: EventEnvelope,
    authority: PlannerV2FinalizationAuthority,
    cancelled: bool,
    artifact: ArtifactRef,
    identified: IdentifiedNewEvent,
)
    ensures
        run_end_verdict(projection, prepared_event, terminal, authority, Ok(artifact)) is Ok ==> {
            &&& prepared_event.payload matches EventPayload::PlannerTurnPreparedV1(prepared) && {
                ||| (terminal.payload matches EventPayload::PlannerTurnObservedV1(observed)
                    && observed.outcome is Failed && observed.turn_id == prepared.turn_id
                    && observed.prepared_event_id == prepared_event.id)
                ||| (terminal.payload matches EventPayload::PlannerTurnUnknownV1(unknown)
                    && unknown.turn_id == prepared.turn_id && unknown.prepared_event_id
                    == prepared_event.id)
            }
            &&& projection.guard.latest_claim matches Some(claim)
                && authority.finalized_at.runtime_instance_id == claim.claim.runtime_instance_id
        },
        records_run_end(contract, projection, authority, cancelled, artifact, identified) ==> {
            &&& identified.event.payload matches EventPayload::RunStateChanged { from, to } && {
                &&& from == RunState::Running
                &&& to == RunState::Cancelled <==> cancelled
                &&& to == RunState::Failed <==> !cancelled
            }
            &&& identified.event.causal_parent == Some(projection.last_event.id)
            &&& identified.event_id == authority.event_id
        },
        finalization_evidence(prepared_event, terminal, authority, cancelled).terminal_event_id
            == terminal.id,
        finalization_evidence(prepared_event, terminal, authority, cancelled).prepared_event_id
            == prepared_event.id,
        finalization_evidence(prepared_event, terminal, authority, cancelled).disposition
            == RetainedPlannerV2TerminalDisposition::Cancelled <==> cancelled,
{
}

} // verus!

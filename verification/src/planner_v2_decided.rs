//! Checks on recorded decisions on planner turns.

use vstd::prelude::*;
use crate::artifact::{digest_matches_artifact, read_document, ArtifactRef};
use crate::clock::{same_runtime_not_before, RuntimeClockReading, Timestamp};
use crate::contract::Contract;
use crate::digest::Sha256Digest;
use crate::error::StoreError;
use crate::event::{EventEnvelope, EventPayload, IdentifiedNewEvent};
use crate::identity::{EventId, PlannerTurnId, RunId};
use crate::json::read_alike;
use crate::planner_prompt::{
    PlannerReplannerV2EvidenceDelta, PlannerReplannerV2EvidencePacket,
    PlannerReplannerV2PlanSnapshot,
};
use crate::planner_turn::{
    PlannerBasePlanBindingV1, PlannerPromptV2AcceptedOutputV1, PlannerTurnAcceptedV1,
    PlannerTurnObservationV1, PlannerTurnObservedV1, PlannerTurnPreparedV1, PlannerTurnPurposeV1,
    PlannerTurnRejectedV1,
};
use crate::planner_v2_base::read_planner_base_snapshot;
use crate::planner_v2_classification::{
    planner_v2_classify_response, ClassificationReads, PlannerReplannerV2ApplyError,
    PlannerReplannerV2Output, PlannerV2ResponseClassification, ValidatedPlannerReplannerV2Turn,
};
use crate::planner_v2_decision::{planner_turn_decision_count, DecisionReads};
use crate::planner_v2_replay_projection::ReconRunProjection;
use crate::planner_v2_request::{check_planner_v2_retained_prompt, PlannerPromptReads};
use crate::planner_v2_resolution::validate_planner_prompt_directive_shape;
use crate::planner_v2_terminal::{
    PlannerV2FinalizationAuthority, PlannerV2FinalizationDisposition,
};
use crate::planning_ground::planner_run_id;
use crate::retained::{
    RetainedInferenceEvidence, RetainedPlanValidation, StructuredInferenceResponse,
};
use crate::store::Store;
use crate::text::{Same, Text};

verus! {

/// What a decision on a turn says, whichever way it went.
#[derive(Debug)]
pub struct TurnDecision<'a> {
    pub turn_id: PlannerTurnId,
    pub purpose: PlannerTurnPurposeV1,
    pub prepared_event_id: EventId,
    pub observed_event_id: EventId,
    pub base_plan: &'a PlannerBasePlanBindingV1,
    pub output_artifact: &'a ArtifactRef,
    pub output_digest: &'a Sha256Digest,
    pub validation_artifact: &'a ArtifactRef,
    pub validation_digest: &'a Sha256Digest,
    pub decided_at: &'a RuntimeClockReading,
}

/// Whether an observation and the preparation before it are what a decision decides on.
pub open spec fn decides_on(
    store: Store,
    event: EventEnvelope,
    decision: TurnDecision,
    prepared_event: EventEnvelope,
    observed_event: EventEnvelope,
) -> bool {
    match (
        crate::planner_v2_terminal::turn_in(prepared_event),
        crate::planner_v2_decision::observation_in(observed_event),
    ) {
        (Some(prepared), Some(observed)) => {
            &&& event.causal_parent == Some(observed_event.id)
            &&& prepared_event.sequence < observed_event.sequence < event.sequence
            &&& observed.turn_id == decision.turn_id
            &&& observed.prepared_event_id == prepared_event.id
            &&& observed.outcome is Succeeded
            &&& prepared.turn_id == decision.turn_id
            &&& crate::planner_v2_decision::turn_decisions(store.log@, decision.turn_id) == 0
            &&& decision.purpose == prepared.purpose
            &&& decision.base_plan.same(&prepared.base_plan)
            &&& decision.output_digest@ == decision.output_artifact.sha256@
            &&& decision.validation_digest@ == decision.validation_artifact.sha256@
            &&& event.provenance.backend is None
            &&& event.provenance.producer@ == store.contract.producers.planner_finalization@
            &&& (event.provenance.raw_artifact matches Some(artifact) && artifact.same(
                decision.validation_artifact,
            ))
            &&& same_runtime_not_before(&observed.observed_at, decision.decided_at)
        },
        _ => false,
    }
}

/// The preparation and the observation that a decision of a running run decides on, in this order.
pub open spec fn decided_turn(store: Store, event: EventEnvelope, decision: TurnDecision) -> Option<
    (EventEnvelope, EventEnvelope),
> {
    match event.run_id {
        None => None,
        Some(run_id) => match (
            crate::planning_ground::event_of_run(
                store,
                event.session_id,
                run_id,
                decision.prepared_event_id,
            ),
            crate::planning_ground::event_of_run(
                store,
                event.session_id,
                run_id,
                decision.observed_event_id,
            ),
        ) {
            (Some(prepared_event), Some(observed_event)) => if crate::planning_ground::run_is_running(
                store,
                run_id,
            ) && decides_on(store, event, decision, prepared_event, observed_event) {
                Some((prepared_event, observed_event))
            } else {
                None
            },
            _ => None,
        },
    }
}

fn checks_decision(
    store: &Store,
    event: &EventEnvelope,
    decision: &TurnDecision,
    prepared_event: &EventEnvelope,
    prepared: &PlannerTurnPreparedV1,
    observed_event: &EventEnvelope,
    observed: &PlannerTurnObservedV1,
) -> (r: bool)
    requires
        crate::planner_v2_terminal::turn_in(*prepared_event) == Some(*prepared),
        crate::planner_v2_decision::observation_in(*observed_event) == Some(*observed),
    ensures
        r == decides_on(*store, *event, *decision, *prepared_event, *observed_event),
{
    let succeeded = match &observed.outcome {
        PlannerTurnObservationV1::Succeeded { .. } => true,
        _ => false,
    };
    let is_evidence = match &event.provenance.raw_artifact {
        Some(artifact) => *artifact == *decision.validation_artifact,
        None => false,
    };
    event.causal_parent == Some(observed_event.id) && prepared_event.sequence
        < observed_event.sequence && observed_event.sequence < event.sequence && observed.turn_id
        == decision.turn_id && observed.prepared_event_id == prepared_event.id && succeeded
        && prepared.turn_id == decision.turn_id && planner_turn_decision_count(
        &store.log,
        decision.turn_id,
    ) == 0 && decision.purpose == prepared.purpose && *decision.base_plan == prepared.base_plan
        && digest_matches_artifact(decision.output_digest, decision.output_artifact)
        && digest_matches_artifact(decision.validation_digest, decision.validation_artifact)
        && event.provenance.backend.is_none() && event.provenance.producer
        == store.contract.producers.planner_finalization && is_evidence && same_runtime_not_before(
        &observed.observed_at,
        decision.decided_at,
    )
}

fn find_decided_turn<'a>(store: &'a Store, event: &EventEnvelope, decision: &TurnDecision) -> (r:
    Option<(&'a PlannerTurnPreparedV1, &'a PlannerTurnObservedV1)>)
    ensures
        match (r, decided_turn(*store, *event, *decision)) {
            (Some((prepared, observed)), Some((prepared_event, observed_event))) => {
                &&& crate::planner_v2_terminal::turn_in(prepared_event) == Some(*prepared)
                &&& crate::planner_v2_decision::observation_in(observed_event) == Some(*observed)
            },
            (None, None) => true,
            _ => false,
        },
{
    let run_id: RunId = match planner_run_id(event) {
        Ok(run_id) => run_id,
        Err(_) => return None,
    };
    let observed_event = match store.log.event(
        event.session_id,
        run_id,
        decision.observed_event_id,
    ) {
        Ok(observed_event) => observed_event,
        Err(_) => return None,
    };
    let prepared_event = match store.log.event(
        event.session_id,
        run_id,
        decision.prepared_event_id,
    ) {
        Ok(prepared_event) => prepared_event,
        Err(_) => return None,
    };
    match (&prepared_event.payload, &observed_event.payload) {
        (
            EventPayload::PlannerTurnPreparedV1(prepared),
            EventPayload::PlannerTurnObservedV1(observed),
        ) => if store.is_running(run_id) && checks_decision(
            store,
            event,
            decision,
            prepared_event,
            prepared,
            observed_event,
            observed,
        ) {
            Some((prepared, observed))
        } else {
            None
        },
        _ => None,
    }
}

/// Whether the digest of an earlier packet, if any, is the one that a text gives.
pub open spec fn previous_matches(previous: Option<Sha256Digest>, text: Option<Text>) -> bool {
    match (previous, text) {
        (Some(digest), Some(text)) => digest@ == text@,
        (None, None) => true,
        _ => false,
    }
}

fn is_previous(previous: &Option<Sha256Digest>, text: &Option<Text>) -> (r: bool)
    ensures
        r == previous_matches(*previous, *text),
{
    match (previous, text) {
        (Some(digest), Some(text)) => digest.reads(text),
        (None, None) => true,
        _ => false,
    }
}

/// Whether an accepted output is bound to the turn that it answers.
pub open spec fn output_is_bound(
    contract: Contract,
    prepared: PlannerTurnPreparedV1,
    output: PlannerPromptV2AcceptedOutputV1,
    packet: PlannerReplannerV2EvidencePacket,
    delta: PlannerReplannerV2EvidenceDelta,
    base: PlannerReplannerV2PlanSnapshot,
) -> bool {
    let bindings = output.bindings;
    &&& output.schema_version == contract.versions.planner_evidence
    &&& bindings.purpose == prepared.purpose
    &&& bindings.prompt_id@ == contract.prompts.planner_replanner_id@
    &&& bindings.prompt_version@ == contract.prompts.planner_replanner_version@
    &&& bindings.prompt_manifest_sha256@ == prepared.prompt_manifest_digest@
    &&& bindings.plan_id@ == base.plan_id@
    &&& bindings.base_revision == prepared.base_plan.revision
    &&& bindings.base_plan_sha256@ == prepared.base_plan.digest@
    &&& bindings.obligation_snapshot_sha256@ == prepared.obligation_snapshot_digest@
    &&& bindings.acceptance_policy_sha256@ == prepared.acceptance_policy_digest@
    &&& bindings.context_manifest_sha256@ == prepared.context_manifest_digest@
    &&& bindings.planner_policy_sha256@ == prepared.planner_policy_digest@
    &&& bindings.evidence_packet_sha256@ == packet.packet_sha256@
    &&& previous_matches(bindings.previous_evidence_packet_sha256, delta.previous_packet_sha256)
    &&& bindings.evidence_delta_sha256@ == delta.delta_sha256@
    &&& bindings.backend_id@ == prepared.backend_model.backend_id@
    &&& bindings.model_id@ == prepared.backend_model.model_id@
    &&& bindings.reasoning == prepared.reasoning
    &&& bindings.budget_reservation_id == prepared.token_reservation.id
    &&& bindings.max_output_tokens == prepared.token_reservation.max_output_tokens
}

fn checks_output_binding(
    contract: &Contract,
    prepared: &PlannerTurnPreparedV1,
    output: &PlannerPromptV2AcceptedOutputV1,
    packet: &PlannerReplannerV2EvidencePacket,
    delta: &PlannerReplannerV2EvidenceDelta,
    base: &PlannerReplannerV2PlanSnapshot,
) -> (r: bool)
    ensures
        r == output_is_bound(*contract, *prepared, *output, *packet, *delta, *base),
{
    let bindings = &output.bindings;
    output.schema_version == contract.versions.planner_evidence && bindings.purpose
        == prepared.purpose && bindings.prompt_id == contract.prompts.planner_replanner_id
        && bindings.prompt_version == contract.prompts.planner_replanner_version
        && bindings.prompt_manifest_sha256 == prepared.prompt_manifest_digest && bindings.plan_id
        == base.plan_id && bindings.base_revision == prepared.base_plan.revision
        && bindings.base_plan_sha256 == prepared.base_plan.digest
        && bindings.obligation_snapshot_sha256 == prepared.obligation_snapshot_digest
        && bindings.acceptance_policy_sha256 == prepared.acceptance_policy_digest
        && bindings.context_manifest_sha256 == prepared.context_manifest_digest
        && bindings.planner_policy_sha256 == prepared.planner_policy_digest
        && bindings.evidence_packet_sha256.reads(&packet.packet_sha256) && is_previous(
        &bindings.previous_evidence_packet_sha256,
        &delta.previous_packet_sha256,
    ) && bindings.evidence_delta_sha256.reads(&delta.delta_sha256) && bindings.backend_id
        == prepared.backend_model.backend_id && bindings.model_id
        == prepared.backend_model.model_id && bindings.reasoning == prepared.reasoning
        && bindings.budget_reservation_id == prepared.token_reservation.id
        && bindings.max_output_tokens as u64 == prepared.token_reservation.max_output_tokens
}

/// What is found of the bindings of an accepted output.
pub open spec fn output_bindings_verdict(
    contract: Contract,
    prepared: PlannerTurnPreparedV1,
    output: PlannerPromptV2AcceptedOutputV1,
    packet: Result<PlannerReplannerV2EvidencePacket, StoreError>,
    delta: Result<PlannerReplannerV2EvidenceDelta, StoreError>,
    base: Result<PlannerReplannerV2PlanSnapshot, StoreError>,
) -> Result<(), StoreError> {
    crate::error::and_next(
        crate::artifact::readable(
            prepared.prompt_evidence_packet_artifact,
            contract.media.planner_prompt_evidence_packet_v2,
            packet,
        ),
        crate::error::and_next(
            crate::artifact::readable(
                prepared.prompt_evidence_delta_artifact,
                contract.media.planner_prompt_evidence_delta_v2,
                delta,
            ),
            crate::error::and_next(
                crate::error::demand(
                    prepared.token_reservation.max_output_tokens <= u32::MAX,
                ),
                crate::error::and_next(
                    crate::planner_v2_base::base_snapshot(contract, prepared.base_plan, base),
                    crate::error::demand(
                        output_is_bound(
                            contract,
                            prepared,
                            output,
                            packet->Ok_0,
                            delta->Ok_0,
                            base->Ok_0,
                        ),
                    ),
                ),
            ),
        ),
    )
}

/// Checks that an accepted output is bound to the turn that it answers.
pub fn validate_planner_accepted_bindings(
    contract: &Contract,
    prepared: &PlannerTurnPreparedV1,
    output: &PlannerPromptV2AcceptedOutputV1,
    packet: &Result<PlannerReplannerV2EvidencePacket, StoreError>,
    delta: &Result<PlannerReplannerV2EvidenceDelta, StoreError>,
    base: &Result<PlannerReplannerV2PlanSnapshot, StoreError>,
) -> (r: Result<(), StoreError>)
    ensures
        r == output_bindings_verdict(*contract, *prepared, *output, *packet, *delta, *base),
{
    let packet = match read_document(
        &prepared.prompt_evidence_packet_artifact,
        &contract.media.planner_prompt_evidence_packet_v2,
        packet,
    ) {
        Ok(packet) => packet,
        Err(error) => return Err(error),
    };
    let delta = match read_document(
        &prepared.prompt_evidence_delta_artifact,
        &contract.media.planner_prompt_evidence_delta_v2,
        delta,
    ) {
        Ok(delta) => delta,
        Err(error) => return Err(error),
    };
    if prepared.token_reservation.max_output_tokens > u32::MAX as u64 {
        return Err(StoreError::InvalidStateEvent);
    }
    let base = match read_planner_base_snapshot(contract, &prepared.base_plan, base) {
        Ok(base) => base,
        Err(error) => return Err(error),
    };
    if checks_output_binding(contract, prepared, output, packet, delta, base) {
        Ok(())
    } else {
        Err(StoreError::InvalidStateEvent)
    }
}

/// What is read and made again to check an accepted turn: the retained output and its JSON; what the
/// observation retained; the validation; the evidence that the prompt showed; the plan that the turn
/// builds on; the output as the prompt gives it; what the prompt was made of; the output as it
/// applies to the plan; the digest and the size of the changed plan when it is written; and the plan
/// that is on record as the result.
#[derive(Debug)]
pub struct AcceptedTurnReads {
    pub output: Result<PlannerPromptV2AcceptedOutputV1, StoreError>,
    pub output_json: Text,
    pub evidence: Result<RetainedInferenceEvidence, StoreError>,
    pub validation: Result<RetainedPlanValidation, StoreError>,
    pub packet: Result<PlannerReplannerV2EvidencePacket, StoreError>,
    pub delta: Result<PlannerReplannerV2EvidenceDelta, StoreError>,
    pub base: Result<PlannerReplannerV2PlanSnapshot, StoreError>,
    pub prompting: Result<PlannerReplannerV2Output, StoreError>,
    pub prompt: PlannerPromptReads,
    pub applied: Result<ValidatedPlannerReplannerV2Turn, PlannerReplannerV2ApplyError>,
    pub plan_encoding: Result<(Text, u64), StoreError>,
    pub resulting: Result<PlannerReplannerV2PlanSnapshot, StoreError>,
}

/// Whether a validation says that an output was accepted.
pub open spec fn says_accepted(validation: RetainedPlanValidation) -> bool {
    validation.status@ == "accepted"@ && validation.violations@.len() == 0
}

/// What was observed, where it is a response.
pub open spec fn response_in(evidence: RetainedInferenceEvidence) -> Option<
    StructuredInferenceResponse,
> {
    match evidence {
        RetainedInferenceEvidence::Response { response } => Some(response),
        _ => None,
    }
}

/// What is found of the retained output of an accepted turn: it is the output that the turn records
/// and that was observed, and its validation accepts it.
pub open spec fn retained_output_verdict(
    contract: Contract,
    observed: PlannerTurnObservedV1,
    accepted: PlannerTurnAcceptedV1,
    reads: AcceptedTurnReads,
) -> Result<(), StoreError> {
    crate::error::and_next(
        crate::artifact::readable(
            accepted.accepted_prompt_output_artifact,
            contract.media.planner_prompt_output_v2,
            reads.output,
        ),
        crate::error::and_next(
            crate::artifact::readable(
                observed.normalized_complete_evidence_artifact,
                contract.media.inference_evidence,
                reads.evidence,
            ),
            match response_in(reads.evidence->Ok_0) {
                None => Err(StoreError::InvalidStateEvent),
                Some(response) => crate::error::and_next(
                    crate::artifact::readable(
                        accepted.validation_evidence_artifact,
                        contract.media.plan_validation,
                        reads.validation,
                    ),
                    crate::error::demand(
                        {
                            &&& reads.output->Ok_0.same(&accepted.accepted_prompt_output)
                            &&& crate::json::read_as_same_value(response.value@, reads.output_json@)
                            &&& says_accepted(reads.validation->Ok_0)
                        },
                    ),
                ),
            },
        ),
    )
}

fn check_retained_output<'a>(
    contract: &Contract,
    observed: &PlannerTurnObservedV1,
    accepted: &PlannerTurnAcceptedV1,
    reads: &'a AcceptedTurnReads,
) -> (r: Result<&'a PlannerPromptV2AcceptedOutputV1, StoreError>)
    ensures
        match (r, retained_output_verdict(*contract, *observed, *accepted, *reads)) {
            (Ok(output), Ok(())) => reads.output == Ok::<
                PlannerPromptV2AcceptedOutputV1,
                StoreError,
            >(*output),
            (Err(error), Err(expected)) => error == expected,
            _ => false,
        },
{
    let output = match read_document(
        &accepted.accepted_prompt_output_artifact,
        &contract.media.planner_prompt_output_v2,
        &reads.output,
    ) {
        Ok(output) => output,
        Err(error) => return Err(error),
    };
    let evidence = match read_document(
        &observed.normalized_complete_evidence_artifact,
        &contract.media.inference_evidence,
        &reads.evidence,
    ) {
        Ok(evidence) => evidence,
        Err(error) => return Err(error),
    };
    let response = match evidence {
        RetainedInferenceEvidence::Response { response } => response,
        _ => return Err(StoreError::InvalidStateEvent),
    };
    let validation = match read_document(
        &accepted.validation_evidence_artifact,
        &contract.media.plan_validation,
        &reads.validation,
    ) {
        Ok(validation) => validation,
        Err(error) => return Err(error),
    };
    if *output != accepted.accepted_prompt_output || !read_alike(
        &response.value,
        &reads.output_json,
    ) || validation.status != Text::of("accepted") || validation.violations.len() != 0 {
        return Err(StoreError::InvalidStateEvent);
    }
    Ok(output)
}

/// What is found when an output is applied again to the plan that its turn builds on.
pub open spec fn apply_verdict(
    contract: Contract,
    prepared: PlannerTurnPreparedV1,
    base: Result<PlannerReplannerV2PlanSnapshot, StoreError>,
    prompt: PlannerPromptReads,
    applied: Result<ValidatedPlannerReplannerV2Turn, PlannerReplannerV2ApplyError>,
) -> Result<(), StoreError> {
    crate::error::and_next(
        crate::planner_v2_base::base_snapshot(contract, prepared.base_plan, base),
        crate::error::and_next(
            crate::planner_v2_request::prompt_verdict(contract, prepared, base->Ok_0, prompt),
            crate::error::demand(applied is Ok),
        ),
    )
}

/// An output as it applies to the plan that its turn builds on.
pub fn validate_authoritative_planner_apply<'a>(
    contract: &Contract,
    prepared: &PlannerTurnPreparedV1,
    base: &Result<PlannerReplannerV2PlanSnapshot, StoreError>,
    prompt: &PlannerPromptReads,
    applied: &'a Result<ValidatedPlannerReplannerV2Turn, PlannerReplannerV2ApplyError>,
) -> (r: Result<&'a ValidatedPlannerReplannerV2Turn, StoreError>)
    ensures
        match (r, apply_verdict(*contract, *prepared, *base, *prompt, *applied)) {
            (Ok(turn), Ok(())) => *applied == Ok::<
                ValidatedPlannerReplannerV2Turn,
                PlannerReplannerV2ApplyError,
            >(*turn),
            (Err(error), Err(expected)) => error == expected,
            _ => false,
        },
{
    let base = match read_planner_base_snapshot(contract, &prepared.base_plan, base) {
        Ok(base) => base,
        Err(error) => return Err(error),
    };
    match check_planner_v2_retained_prompt(contract, prepared, base, prompt) {
        Ok(()) => {},
        Err(error) => return Err(error),
    }
    match applied {
        Ok(turn) => Ok(turn),
        Err(_) => Err(StoreError::InvalidStateEvent),
    }
}

/// Whether a binding is that of a changed plan, written under a digest and a size.
pub open spec fn binds_changed_plan(
    contract: Contract,
    event: EventEnvelope,
    binding: PlannerBasePlanBindingV1,
    plan: PlannerReplannerV2PlanSnapshot,
    sha256: Text,
    size_bytes: u64,
) -> bool {
    &&& binding.accepted_event_id == event.id
    &&& binding.revision == plan.revision
    &&& binding.digest@ == sha256@
    &&& binding.artifact.sha256@ == sha256@
    &&& binding.artifact.size_bytes == size_bytes
    &&& binding.artifact.media_type@ == contract.media.planner_plan_v2@
}

/// What is found of the plan that an accepted turn results in: without a change it is the plan that
/// the turn builds on, else the changed plan is on record under the turn's own event.
pub open spec fn recorded_plan_verdict(
    contract: Contract,
    event: EventEnvelope,
    accepted: PlannerTurnAcceptedV1,
    patch_is_empty: bool,
    plan: PlannerReplannerV2PlanSnapshot,
    reads: AcceptedTurnReads,
) -> Result<(), StoreError> {
    if patch_is_empty {
        crate::error::demand(
            plan.same(&reads.base->Ok_0) && accepted.resulting_plan.same(&accepted.base_plan),
        )
    } else {
        match reads.plan_encoding {
            Err(error) => Err(error),
            Ok((sha256, size_bytes)) => crate::error::and_next(
                crate::error::demand(
                    binds_changed_plan(
                        contract,
                        event,
                        accepted.resulting_plan,
                        plan,
                        sha256,
                        size_bytes,
                    ),
                ),
                crate::error::and_next(
                    crate::planner_v2_base::base_snapshot(
                        contract,
                        accepted.resulting_plan,
                        reads.resulting,
                    ),
                    crate::error::demand(reads.resulting->Ok_0.same(&plan)),
                ),
            ),
        }
    }
}

fn check_recorded_plan(
    contract: &Contract,
    event: &EventEnvelope,
    accepted: &PlannerTurnAcceptedV1,
    patch_is_empty: bool,
    plan: &PlannerReplannerV2PlanSnapshot,
    base: &PlannerReplannerV2PlanSnapshot,
    reads: &AcceptedTurnReads,
) -> (r: Result<(), StoreError>)
    requires
        reads.base == Ok::<PlannerReplannerV2PlanSnapshot, StoreError>(*base),
    ensures
        r == recorded_plan_verdict(*contract, *event, *accepted, patch_is_empty, *plan, *reads),
{
    if patch_is_empty {
        if *plan != *base || accepted.resulting_plan != accepted.base_plan {
            return Err(StoreError::InvalidStateEvent);
        }
        return Ok(());
    }
    let (sha256, size_bytes) = match &reads.plan_encoding {
        Ok((sha256, size_bytes)) => (sha256, *size_bytes),
        Err(error) => return Err(*error),
    };
    let binding = &accepted.resulting_plan;
    if binding.accepted_event_id != event.id || binding.revision != plan.revision
        || !binding.digest.reads(sha256) || binding.artifact.sha256 != *sha256
        || binding.artifact.size_bytes != size_bytes || binding.artifact.media_type
        != contract.media.planner_plan_v2 {
        return Err(StoreError::InvalidStateEvent);
    }
    let resulting = match read_planner_base_snapshot(contract, binding, &reads.resulting) {
        Ok(resulting) => resulting,
        Err(error) => return Err(error),
    };
    if *resulting != *plan {
        return Err(StoreError::InvalidStateEvent);
    }
    Ok(())
}

/// The decision that an acceptance records.
pub open spec fn accepting(accepted: PlannerTurnAcceptedV1) -> TurnDecision<'static> {
    TurnDecision {
        turn_id: accepted.turn_id,
        purpose: accepted.purpose,
        prepared_event_id: accepted.prepared_event_id,
        observed_event_id: accepted.observed_event_id,
        base_plan: &accepted.base_plan,
        output_artifact: &accepted.accepted_prompt_output_artifact,
        output_digest: &accepted.accepted_prompt_output_digest,
        validation_artifact: &accepted.validation_evidence_artifact,
        validation_digest: &accepted.validation_evidence_digest,
        decided_at: &accepted.accepted_at,
    }
}

/// The decision that a rejection records.
pub open spec fn rejecting(rejected: PlannerTurnRejectedV1) -> TurnDecision<'static> {
    TurnDecision {
        turn_id: rejected.turn_id,
        purpose: rejected.purpose,
        prepared_event_id: rejected.prepared_event_id,
        observed_event_id: rejected.observed_event_id,
        base_plan: &rejected.base_plan,
        output_artifact: &rejected.rejected_output_artifact,
        output_digest: &rejected.rejected_output_digest,
        validation_artifact: &rejected.validation_evidence_artifact,
        validation_digest: &rejected.validation_evidence_digest,
        decided_at: &rejected.rejected_at,
    }
}

/// What is found of an accepted output once it is applied again.
pub open spec fn applied_output_verdict(
    store: Store,
    event: EventEnvelope,
    accepted: PlannerTurnAcceptedV1,
    prepared: PlannerTurnPreparedV1,
    reads: AcceptedTurnReads,
) -> Result<(), StoreError> {
    match reads.prompting {
        Err(error) => Err(error),
        Ok(prompting) => crate::error::and_next(
            crate::error::demand(
                crate::json::read_as_same_value(prompting.body@, reads.output_json@),
            ),
            crate::error::and_next(
                apply_verdict(store.contract, prepared, reads.base, reads.prompt, reads.applied),
                crate::error::and_next(
                    recorded_plan_verdict(
                        store.contract,
                        event,
                        accepted,
                        prompting.patch_is_empty,
                        reads.applied->Ok_0.plan,
                        reads,
                    ),
                    crate::error::demand(
                        crate::planner_v2_resolution::directive_matches(
                            store.log@,
                            store.contract,
                            reads.output->Ok_0.directive,
                            reads.applied->Ok_0,
                            accepted.resolved_directive,
                        ),
                    ),
                ),
            ),
        ),
    }
}

fn check_applied_output(
    store: &Store,
    event: &EventEnvelope,
    accepted: &PlannerTurnAcceptedV1,
    prepared: &PlannerTurnPreparedV1,
    output: &PlannerPromptV2AcceptedOutputV1,
    reads: &AcceptedTurnReads,
) -> (r: Result<(), StoreError>)
    requires
        reads.output == Ok::<PlannerPromptV2AcceptedOutputV1, StoreError>(*output),
    ensures
        r == applied_output_verdict(*store, *event, *accepted, *prepared, *reads),
{
    let prompting = match &reads.prompting {
        Ok(prompting) => prompting,
        Err(error) => return Err(*error),
    };
    if !read_alike(&prompting.body, &reads.output_json) {
        return Err(StoreError::InvalidStateEvent);
    }
    let turn = match validate_authoritative_planner_apply(
        &store.contract,
        prepared,
        &reads.base,
        &reads.prompt,
        &reads.applied,
    ) {
        Ok(turn) => turn,
        Err(error) => return Err(error),
    };
    let base = match &reads.base {
        Ok(base) => base,
        Err(error) => return Err(*error),
    };
    match check_recorded_plan(
        &store.contract,
        event,
        accepted,
        prompting.patch_is_empty,
        &turn.plan,
        base,
        reads,
    ) {
        Ok(()) => {},
        Err(error) => return Err(error),
    }
    validate_planner_prompt_directive_shape(
        &store.log,
        &store.contract,
        &output.directive,
        turn,
        &accepted.resolved_directive,
    )
}

/// What is found when a turn is accepted.
pub open spec fn accepted_verdict(
    store: Store,
    event: EventEnvelope,
    accepted: PlannerTurnAcceptedV1,
    reads: AcceptedTurnReads,
) -> Result<(), StoreError> {
    match decided_turn(store, event, accepting(accepted)) {
        None => Err(StoreError::InvalidStateEvent),
        Some((prepared_event, observed_event)) => {
            let prepared = crate::planner_v2_terminal::turn_in(prepared_event)->0;
            let observed = crate::planner_v2_decision::observation_in(observed_event)->0;
            crate::error::and_next(
                retained_output_verdict(store.contract, observed, accepted, reads),
                crate::error::and_next(
                    output_bindings_verdict(
                        store.contract,
                        prepared,
                        reads.output->Ok_0,
                        reads.packet,
                        reads.delta,
                        reads.base,
                    ),
                    applied_output_verdict(store, event, accepted, prepared, reads),
                ),
            )
        },
    }
}

/// Checks that a turn may be accepted: it was observed to succeed, it was not decided on before, its
/// output is bound to it, and the plan and the directive are what the output comes to.
pub fn validate_planner_turn_accepted_v1(
    store: &Store,
    event: &EventEnvelope,
    accepted: &PlannerTurnAcceptedV1,
    reads: &AcceptedTurnReads,
) -> (r: Result<(), StoreError>)
    ensures
        r == accepted_verdict(*store, *event, *accepted, *reads),
{
    let decision = TurnDecision {
        turn_id: accepted.turn_id,
        purpose: accepted.purpose,
        prepared_event_id: accepted.prepared_event_id,
        observed_event_id: accepted.observed_event_id,
        base_plan: &accepted.base_plan,
        output_artifact: &accepted.accepted_prompt_output_artifact,
        output_digest: &accepted.accepted_prompt_output_digest,
        validation_artifact: &accepted.validation_evidence_artifact,
        validation_digest: &accepted.validation_evidence_digest,
        decided_at: &accepted.accepted_at,
    };
    let (prepared, observed) = match find_decided_turn(store, event, &decision) {
        Some(found) => found,
        None => return Err(StoreError::InvalidStateEvent),
    };
    let output = match check_retained_output(&store.contract, observed, accepted, reads) {
        Ok(output) => output,
        Err(error) => return Err(error),
    };
    match validate_planner_accepted_bindings(
        &store.contract,
        prepared,
        output,
        &reads.packet,
        &reads.delta,
        &reads.base,
    ) {
        Ok(()) => {},
        Err(error) => return Err(error),
    }
    check_applied_output(store, event, accepted, prepared, output, reads)
}

/// What is read and made again to check a rejected turn: the bytes of the rejected output; what the
/// observation retained; the validation; and what classifies the response.
#[derive(Debug)]
pub struct RejectedTurnReads {
    pub output: Result<Vec<u8>, StoreError>,
    pub evidence: Result<RetainedInferenceEvidence, StoreError>,
    pub validation: Result<RetainedPlanValidation, StoreError>,
    pub classification: ClassificationReads,
}

/// What is found of the retained output of a rejected turn: it is the text that was observed.
pub open spec fn rejected_output_verdict(
    contract: Contract,
    observed: PlannerTurnObservedV1,
    rejected: PlannerTurnRejectedV1,
    reads: RejectedTurnReads,
) -> Result<(), StoreError> {
    crate::error::and_next(
        crate::artifact::outcome(reads.output),
        crate::error::and_next(
            crate::artifact::readable(
                observed.normalized_complete_evidence_artifact,
                contract.media.inference_evidence,
                reads.evidence,
            ),
            match response_in(reads.evidence->Ok_0) {
                None => Err(StoreError::InvalidStateEvent),
                Some(response) => crate::error::and_next(
                    crate::artifact::readable(
                        rejected.validation_evidence_artifact,
                        contract.media.plan_validation,
                        reads.validation,
                    ),
                    crate::error::demand(
                        reads.output->Ok_0@ == vstd::utf8::encode_utf8(response.raw_text@),
                    ),
                ),
            },
        ),
    )
}

fn check_rejected_output(
    contract: &Contract,
    observed: &PlannerTurnObservedV1,
    rejected: &PlannerTurnRejectedV1,
    output: &Result<Vec<u8>, StoreError>,
    evidence: &Result<RetainedInferenceEvidence, StoreError>,
    validation: &Result<RetainedPlanValidation, StoreError>,
    Ghost(reads): Ghost<RejectedTurnReads>,
) -> (r: Result<(), StoreError>)
    requires
        *output == reads.output,
        *evidence == reads.evidence,
        *validation == reads.validation,
    ensures
        r == rejected_output_verdict(*contract, *observed, *rejected, reads),
{
    let output = match output {
        Ok(output) => output,
        Err(error) => return Err(*error),
    };
    let evidence = match read_document(
        &observed.normalized_complete_evidence_artifact,
        &contract.media.inference_evidence,
        evidence,
    ) {
        Ok(evidence) => evidence,
        Err(error) => return Err(error),
    };
    let response = match evidence {
        RetainedInferenceEvidence::Response { response } => response,
        _ => return Err(StoreError::InvalidStateEvent),
    };
    match read_document(
        &rejected.validation_evidence_artifact,
        &contract.media.plan_validation,
        validation,
    ) {
        Ok(_) => {},
        Err(error) => return Err(error),
    }
    if response.raw_text.has_bytes(output) {
        Ok(())
    } else {
        Err(StoreError::InvalidStateEvent)
    }
}

/// What is found before the response of a rejected turn is classified.
pub open spec fn rejection_ground_verdict(
    store: Store,
    event: EventEnvelope,
    rejected: PlannerTurnRejectedV1,
    reads: RejectedTurnReads,
) -> Result<(), StoreError> {
    match decided_turn(store, event, rejecting(rejected)) {
        None => Err(StoreError::InvalidStateEvent),
        Some((prepared_event, observed_event)) => if rejected.rejected_output_artifact.media_type@
            != store.contract.media.planner_prompt_output_v2@ {
            Err(StoreError::InvalidStateEvent)
        } else {
            crate::error::and_next(
                rejected_output_verdict(
                    store.contract,
                    crate::planner_v2_decision::observation_in(observed_event)->0,
                    rejected,
                    reads,
                ),
                crate::planner_v2_classification::classification_verdict(
                    store.contract,
                    crate::planner_v2_terminal::turn_in(prepared_event)->0,
                    reads.classification,
                ),
            )
        },
    }
}

/// Whether a rejection is what a classification comes to.
pub open spec fn rejects_as_classified(
    rejected: PlannerTurnRejectedV1,
    validation: RetainedPlanValidation,
    classification: PlannerV2ResponseClassification,
) -> bool {
    classification matches PlannerV2ResponseClassification::Rejected {
        reason,
        validation: expected,
    } && rejected.reason == reason && validation.same(&expected)
}

/// Checks that a turn may be rejected: it was observed to succeed, it was not decided on before, and
/// its response is classified as rejected for this reason.
pub fn validate_planner_turn_rejected_v1(
    store: &Store,
    event: &EventEnvelope,
    rejected: &PlannerTurnRejectedV1,
    reads: RejectedTurnReads,
) -> (r: Result<(), StoreError>)
    ensures
        match rejection_ground_verdict(*store, *event, *rejected, reads) {
            Err(expected) => r matches Err(error) && error == expected,
            Ok(()) => exists|classification: PlannerV2ResponseClassification|
                {
                    &&& crate::planner_v2_classification::is_classified(
                        classification,
                        reads.classification,
                    )
                    &&& r == crate::error::demand(
                        #[trigger] rejects_as_classified(
                            *rejected,
                            reads.validation->Ok_0,
                            classification,
                        ),
                    )
                },
        },
{
    let ghost given = reads;
    let decision = TurnDecision {
        turn_id: rejected.turn_id,
        purpose: rejected.purpose,
        prepared_event_id: rejected.prepared_event_id,
        observed_event_id: rejected.observed_event_id,
        base_plan: &rejected.base_plan,
        output_artifact: &rejected.rejected_output_artifact,
        output_digest: &rejected.rejected_output_digest,
        validation_artifact: &rejected.validation_evidence_artifact,
        validation_digest: &rejected.validation_evidence_digest,
        decided_at: &rejected.rejected_at,
    };
    let (prepared, observed) = match find_decided_turn(store, event, &decision) {
        Some(found) => found,
        None => return Err(StoreError::InvalidStateEvent),
    };
    if rejected.rejected_output_artifact.media_type
        != store.contract.media.planner_prompt_output_v2 {
        return Err(StoreError::InvalidStateEvent);
    }
    match check_rejected_output(
        &store.contract,
        observed,
        rejected,
        &reads.output,
        &reads.evidence,
        &reads.validation,
        Ghost(given),
    ) {
        Ok(()) => {},
        Err(error) => return Err(error),
    }
    let validation = match reads.validation {
        Ok(validation) => validation,
        Err(error) => return Err(error),
    };
    let classification = match planner_v2_classify_response(
        &store.contract,
        prepared,
        reads.classification,
    ) {
        Ok(classification) => classification,
        Err(error) => return Err(error),
    };
    let stands = match &classification {
        PlannerV2ResponseClassification::Rejected { reason, validation: expected } =>
            rejected.reason == *reason && validation == *expected,
        _ => false,
    };
    assert(stands == rejects_as_classified(*rejected, given.validation->Ok_0, classification));
    if stands {
        Ok(())
    } else {
        Err(StoreError::InvalidStateEvent)
    }
}

/// A turn is decided on once: while a decision is on record, none is let through.
pub proof fn law_turn_is_decided_once(
    store: Store,
    event: EventEnvelope,
    accepted: PlannerTurnAcceptedV1,
    accepted_reads: AcceptedTurnReads,
    rejected: PlannerTurnRejectedV1,
    rejected_reads: RejectedTurnReads,
)
    ensures
        crate::planner_v2_decision::turn_decisions(store.log@, accepted.turn_id) > 0
            ==> accepted_verdict(store, event, accepted, accepted_reads) is Err,
        crate::planner_v2_decision::turn_decisions(store.log@, rejected.turn_id) > 0
            ==> rejection_ground_verdict(store, event, rejected, rejected_reads) is Err,
{
}

/// Only an observed success is decided on: what was observed to fail, or ended unknown, is neither
/// accepted nor rejected.
pub proof fn law_only_successes_are_decided(
    store: Store,
    event: EventEnvelope,
    decision: TurnDecision,
)
    requires
        decided_turn(store, event, decision) is Some,
    ensures
        ({
            let (_, observed_event) = decided_turn(store, event, decision)->0;
            crate::planner_v2_decision::observation_in(observed_event) matches Some(observed)
                && observed.outcome is Succeeded
        }),
{
}

/// A plan changes only through an accepted turn that has a change: without one, the turn results in
/// the plan that it builds on; with one, the new plan is bound to the turn's own event.
pub proof fn law_plan_changes_only_by_patch(
    store: Store,
    event: EventEnvelope,
    accepted: PlannerTurnAcceptedV1,
    reads: AcceptedTurnReads,
)
    requires
        accepted_verdict(store, event, accepted, reads) is Ok,
    ensures
        reads.prompting matches Ok(prompting) && (if prompting.patch_is_empty {
            accepted.resulting_plan.same(&accepted.base_plan)
        } else {
            accepted.resulting_plan.accepted_event_id == event.id
        }),
{
}

/// No response can be both accepted and rejected.
pub proof fn law_response_is_decided_one_way(
    first: PlannerV2ResponseClassification,
    second: PlannerV2ResponseClassification,
    reads: ClassificationReads,
)
    requires
        crate::planner_v2_classification::is_classified(first, reads),
        crate::planner_v2_classification::is_classified(second, reads),
    ensures
        first is Accepted == second is Accepted,
        match (first, second) {
            (
                PlannerV2ResponseClassification::Rejected { reason: one, .. },
                PlannerV2ResponseClassification::Rejected { reason: other, .. },
            ) => one == other,
            _ => true,
        },
{
    match (first, second, reads.applied) {
        (
            PlannerV2ResponseClassification::Rejected { reason: one, .. },
            PlannerV2ResponseClassification::Rejected { reason: other, .. },
            Err(PlannerReplannerV2ApplyError::OutputInvariant { broken }),
        ) => {
            crate::planner_v2_classification::law_strongest_reason_is_unique(
                one,
                other,
                crate::planner_v2_classification::invariant_reasons(broken@),
            );
        },
        (
            PlannerV2ResponseClassification::Rejected { reason: one, .. },
            PlannerV2ResponseClassification::Rejected { reason: other, .. },
            Err(PlannerReplannerV2ApplyError::Plan { violations }),
        ) => {
            crate::planner_v2_classification::law_strongest_reason_is_unique(
                one,
                other,
                crate::planner_v2_classification::plan_reasons(violations@),
            );
        },
        _ => {},
    }
}

/// What finalization builds, validation takes for a decision on the turn: the event of a built
/// decision, recorded after the observation, decides on the very preparation and observation that it
/// was built from, as long as the turn is not decided and the run is running.
pub proof fn law_built_decisions_decide(
    store: Store,
    projection: ReconRunProjection,
    prepared_event: EventEnvelope,
    observed_event: EventEnvelope,
    authority: PlannerV2FinalizationAuthority,
    reads: DecisionReads,
    classification: PlannerV2ResponseClassification,
    built: IdentifiedNewEvent,
    disposition: PlannerV2FinalizationDisposition,
    sequence: u64,
    at: Timestamp,
)
    requires
        crate::planner_v2_decision::decision_verdict(
            store.contract,
            projection,
            prepared_event,
            observed_event,
            authority,
            reads,
        ) is Ok,
        crate::planner_v2_decision::is_decision(
            store,
            projection,
            prepared_event,
            observed_event,
            authority,
            reads,
            classification,
            Ok((built, disposition)),
        ),
        prepared_event.sequence < observed_event.sequence < sequence,
        crate::planning_ground::event_of_run(
            store,
            projection.session_id,
            projection.run_id,
            prepared_event.id,
        ) == Some(prepared_event),
        crate::planning_ground::event_of_run(
            store,
            projection.session_id,
            projection.run_id,
            observed_event.id,
        ) == Some(observed_event),
        crate::planning_ground::run_is_running(store, projection.run_id),
        crate::planner_v2_decision::turn_decisions(
            store.log@,
            (crate::planner_v2_terminal::turn_in(prepared_event)->0).turn_id,
        ) == 0,
    ensures
        ({
            let event = crate::parallel_recon_bootstrap::enveloped(built, sequence, at);
            match event.payload {
                EventPayload::PlannerTurnAcceptedV1(accepted) => decided_turn(
                    store,
                    event,
                    accepting(accepted),
                ) == Some((prepared_event, observed_event)),
                EventPayload::PlannerTurnRejectedV1(rejected) => decided_turn(
                    store,
                    event,
                    rejecting(rejected),
                ) == Some((prepared_event, observed_event)),
                _ => false,
            }
        }),
{
    Sha256Digest::lemma_reads_as_written(reads.output_artifact->Ok_0.sha256);
    Sha256Digest::lemma_reads_as_written(reads.validation_artifact->Ok_0.sha256);
}

} // verus!

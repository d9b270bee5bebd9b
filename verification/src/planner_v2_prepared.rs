//! Whether a prepared planner turn may be recorded.

use vstd::prelude::*;
use crate::artifact::{digest_matches_artifact, require_readable, BackendKind};
use crate::claim_history::latest_claim_for_run;
use crate::clock::Timestamp;
use crate::contract::Contract;
use crate::digest::Sha256Digest;
use crate::error::StoreError;
use crate::event::{EventEnvelope, EventPayload, IdentifiedNewEvent};
use crate::history::{EventLog, EventQuery, PayloadFilter};
use crate::identity::{RunId, SessionId};
use crate::planner_prompt::{
    PlannerReplannerV2EvidenceBinding, PlannerReplannerV2EvidenceDelta,
    PlannerReplannerV2EvidenceEntry, PlannerReplannerV2EvidencePacket,
    PlannerReplannerV2PlanSnapshot,
};
use crate::planner_turn::{
    PlannerEvidenceBindingV2, PlannerEvidenceDeltaV2, PlannerEvidenceEntryV2,
    PlannerEvidenceMaterialV2, PlannerEvidencePacketV2, PlannerTurnPreparedV1,
    PlannerTurnPurposeV1,
};
use crate::planner_v2_base::{
    read_planner_base_snapshot, validate_planner_base_authority, validate_planner_durable_evidence,
};
use crate::planner_v2_evidence::{
    latest_planner_prepared_before, newly_available_bindings, planner_evidence_bindings,
    prompting_v2_purpose_matches,
};
use crate::planner_v2_history::planner_v2_terminal_authorizes_retry;
use crate::planner_v2_preparation::{
    is_allowed_by_run, is_within_budget, PlannedTurn, PlannerPreparationReads,
    PlannerRequestResults, PlannerV2PreparationAuthority,
};
use crate::planner_v2_replay_projection::{
    planner_v2_prepared_turn_count, planner_v2_prepared_turn_count_for_purpose,
};
use crate::planner_v2_request::{check_planner_v2_retained_prompt, PlannerPromptReads};
use crate::planning_ground::{
    expected_backend_selection, has_exact_model_provenance, planner_run_id,
};
use crate::run::{Run, RunClaimed, RunPurpose};
use crate::store::Store;
use crate::text::Same;

verus! {

/// What is read for a prepared turn: whether the event comes from the owner of the run; whether the
/// backend's name, the lineage and the reservation are valid, and the reservation is new; the output
/// that is reserved already; the plan that is built on; what the turn retained; whether the prompt's
/// packet is intact and its delta fits it; and what the turn before retained.
#[derive(Debug)]
pub struct PreparedTurnReads {
    pub owner: Result<(), StoreError>,
    pub backend_is_intact: bool,
    pub lineage_is_valid: bool,
    pub reservation_is_valid: bool,
    pub reservation_is_new: bool,
    pub reserved_output: Result<u64, StoreError>,
    pub base: Result<PlannerReplannerV2PlanSnapshot, StoreError>,
    pub prompt: PlannerPromptReads,
    pub durable_packet: Result<PlannerEvidencePacketV2, StoreError>,
    pub durable_delta: Result<PlannerEvidenceDeltaV2, StoreError>,
    pub packet_is_intact: bool,
    pub delta_fits_packet: bool,
    pub previous_packet: Result<PlannerReplannerV2EvidencePacket, StoreError>,
    pub previous_delta: Result<PlannerReplannerV2EvidenceDelta, StoreError>,
}

/// Whether there is room for the turn: in the run's purpose, among all turns and in its stage.
pub open spec fn has_room(
    store: Store,
    event: EventEnvelope,
    run_id: RunId,
    run: Run,
    prepared: PlannerTurnPreparedV1,
) -> bool {
    &&& run.spec.purpose == RunPurpose::ParallelRepositoryReconnaissanceV1
    &&& crate::planner_v2_replay_projection::prepared_turns(store.log@, event.session_id, run_id)
        < store.contract.recon.max_planner_turns
    &&& crate::planner_v2_replay_projection::prepared_turns_for(
        store.log@,
        event.session_id,
        run_id,
        prepared.purpose,
    ) < store.contract.recon.planner_attempts_per_stage
}

fn finds_room(
    store: &Store,
    event: &EventEnvelope,
    run_id: RunId,
    run: &Run,
    prepared: &PlannerTurnPreparedV1,
) -> (r: bool)
    ensures
        r == has_room(*store, *event, run_id, *run, *prepared),
{
    run.spec.purpose == RunPurpose::ParallelRepositoryReconnaissanceV1
        && planner_v2_prepared_turn_count(&store.log, event.session_id, run_id)
        < store.contract.recon.max_planner_turns as u64
        && planner_v2_prepared_turn_count_for_purpose(
        &store.log,
        event.session_id,
        run_id,
        prepared.purpose,
    ) < store.contract.recon.planner_attempts_per_stage as u64
}

/// Whether the evidence has the version, the purpose and the context of its turn.
pub open spec fn evidence_is_of_turn(contract: Contract, prepared: PlannerTurnPreparedV1) -> bool {
    &&& prepared.schema_version == contract.versions.planner_turn
    &&& prepared.durable_evidence_packet.schema_version == contract.versions.planner_evidence
    &&& prepared.durable_evidence_delta.schema_version == contract.versions.planner_evidence
    &&& prepared.durable_evidence_packet.purpose == prepared.purpose
    &&& prepared.durable_evidence_delta.purpose == prepared.purpose
    &&& prepared.durable_evidence_packet.context_manifest_digest@
        == prepared.context_manifest_digest@
}

fn has_evidence_of_turn(contract: &Contract, prepared: &PlannerTurnPreparedV1) -> (r: bool)
    ensures
        r == evidence_is_of_turn(*contract, *prepared),
{
    prepared.schema_version == contract.versions.planner_turn
        && prepared.durable_evidence_packet.schema_version == contract.versions.planner_evidence
        && prepared.durable_evidence_delta.schema_version == contract.versions.planner_evidence
        && prepared.durable_evidence_packet.purpose == prepared.purpose
        && prepared.durable_evidence_delta.purpose == prepared.purpose
        && prepared.durable_evidence_packet.context_manifest_digest
        == prepared.context_manifest_digest
}

/// Whether a turn names the claim that it is prepared under.
pub open spec fn names_claim(
    event: EventEnvelope,
    prepared: PlannerTurnPreparedV1,
    claim_event: EventEnvelope,
    claim: RunClaimed,
) -> bool {
    &&& event.actor_id == claim_event.actor_id
    &&& claim_event.id == prepared.claim_event_id
    &&& claim.claim_id == prepared.claim_id
    &&& claim.claim_generation == prepared.claim_generation
    &&& claim.runtime_instance_id == prepared.claim_runtime_instance_id
    &&& claim.cancellation_generation == prepared.cancellation_generation
    &&& prepared.prepared_at.runtime_instance_id == prepared.claim_runtime_instance_id
}

fn is_under_claim(
    event: &EventEnvelope,
    prepared: &PlannerTurnPreparedV1,
    claim_event: &EventEnvelope,
    claim: &RunClaimed,
) -> (r: bool)
    ensures
        r == names_claim(*event, *prepared, *claim_event, *claim),
{
    event.actor_id == claim_event.actor_id && claim_event.id == prepared.claim_event_id
        && claim.claim_id == prepared.claim_id && claim.claim_generation
        == prepared.claim_generation && claim.runtime_instance_id
        == prepared.claim_runtime_instance_id && claim.cancellation_generation
        == prepared.cancellation_generation && prepared.prepared_at.runtime_instance_id
        == prepared.claim_runtime_instance_id
}

/// Whether a turn names its model, backend and lineage consistently, within its budget.
pub open spec fn names_model(
    contract: Contract,
    prepared: PlannerTurnPreparedV1,
    reads: PreparedTurnReads,
) -> bool {
    let model = prepared.backend_model;
    let lineage = prepared.model_lineage;
    &&& model.kind == BackendKind::Model
    &&& reads.backend_is_intact
    &&& prepared.backend_instance.backend_id@ == model.backend_id@
    &&& prepared.backend_instance.configured_deployment_id@ == lineage.deployment_id@
    &&& lineage.backend_id@ == model.backend_id@
    &&& lineage.model_id@ == model.model_id@
    &&& reads.lineage_is_valid
    &&& reads.reservation_is_valid
    &&& crate::planner_v2_preparation::budget_fits(
        contract,
        prepared.token_reservation,
        prepared.output_budget,
    )
    &&& prepared.output_budget.max_output_tokens_per_call
        <= prepared.output_budget.max_total_reserved_output_tokens
    &&& reads.reservation_is_new
}

fn has_named_model(
    contract: &Contract,
    prepared: &PlannerTurnPreparedV1,
    reads: &PreparedTurnReads,
) -> (r: bool)
    ensures
        r == names_model(*contract, *prepared, *reads),
{
    let model = &prepared.backend_model;
    let lineage = &prepared.model_lineage;
    model.kind == BackendKind::Model && reads.backend_is_intact
        && prepared.backend_instance.backend_id == model.backend_id
        && prepared.backend_instance.configured_deployment_id == lineage.deployment_id
        && lineage.backend_id == model.backend_id && lineage.model_id == model.model_id
        && reads.lineage_is_valid && reads.reservation_is_valid && is_within_budget(
        contract,
        &prepared.token_reservation,
        &prepared.output_budget,
    ) && prepared.output_budget.max_output_tokens_per_call
        <= prepared.output_budget.max_total_reserved_output_tokens && reads.reservation_is_new
}

/// Whether each digest that a turn names is that of its artifact.
pub open spec fn digests_agree(prepared: PlannerTurnPreparedV1) -> bool {
    &&& prepared.durable_evidence_packet_digest@ == prepared.durable_evidence_packet_artifact.sha256@
    &&& prepared.durable_evidence_delta_digest@ == prepared.durable_evidence_delta_artifact.sha256@
    &&& prepared.prompt_evidence_packet_digest@ == prepared.prompt_evidence_packet_artifact.sha256@
    &&& prepared.prompt_evidence_delta_digest@ == prepared.prompt_evidence_delta_artifact.sha256@
    &&& prepared.prompt_manifest_digest@ == prepared.prompt_manifest_artifact.sha256@
    &&& prepared.prompt_digest@ == prepared.prompt_artifact.sha256@
    &&& prepared.request_digest@ == prepared.request_artifact.sha256@
}

fn has_agreeing_digests(prepared: &PlannerTurnPreparedV1) -> (r: bool)
    ensures
        r == digests_agree(*prepared),
{
    digest_matches_artifact(
        &prepared.durable_evidence_packet_digest,
        &prepared.durable_evidence_packet_artifact,
    ) && digest_matches_artifact(
        &prepared.durable_evidence_delta_digest,
        &prepared.durable_evidence_delta_artifact,
    ) && digest_matches_artifact(
        &prepared.prompt_evidence_packet_digest,
        &prepared.prompt_evidence_packet_artifact,
    ) && digest_matches_artifact(
        &prepared.prompt_evidence_delta_digest,
        &prepared.prompt_evidence_delta_artifact,
    ) && digest_matches_artifact(
        &prepared.prompt_manifest_digest,
        &prepared.prompt_manifest_artifact,
    ) && digest_matches_artifact(&prepared.prompt_digest, &prepared.prompt_artifact)
        && digest_matches_artifact(&prepared.request_digest, &prepared.request_artifact)
}

/// Whether a prepared turn fits its run, its claim and itself, and comes from its model.
pub open spec fn turn_fits(
    store: Store,
    event: EventEnvelope,
    run_id: RunId,
    run: Run,
    prepared: PlannerTurnPreparedV1,
    claim_event: EventEnvelope,
    reads: PreparedTurnReads,
) -> bool {
    &&& crate::planning_ground::claim_in(claim_event) matches Some(claim) && names_claim(
        event,
        prepared,
        claim_event,
        claim,
    )
    &&& has_room(store, event, run_id, run, prepared)
    &&& evidence_is_of_turn(store.contract, prepared)
    &&& names_model(store.contract, prepared, reads)
    &&& digests_agree(prepared)
    &&& crate::planning_ground::exact_provenance(
        event,
        crate::planning_ground::model_selection(run, prepared.backend_model),
        Some(prepared.request_artifact),
    )
    &&& crate::planner_v2_preparation::run_allows(
        run,
        prepared.token_reservation,
        prepared.output_budget,
    )
}

fn is_fitting_turn(
    store: &Store,
    event: &EventEnvelope,
    run_id: RunId,
    run: &Run,
    prepared: &PlannerTurnPreparedV1,
    claim_event: &EventEnvelope,
    reads: &PreparedTurnReads,
) -> (r: bool)
    ensures
        r == turn_fits(*store, *event, run_id, *run, *prepared, *claim_event, *reads),
{
    let under_claim = match &claim_event.payload {
        EventPayload::RunClaimed(claim) => is_under_claim(event, prepared, claim_event, claim),
        _ => false,
    };
    under_claim && finds_room(store, event, run_id, run, prepared) && has_evidence_of_turn(
        &store.contract,
        prepared,
    ) && has_named_model(&store.contract, prepared, reads) && has_agreeing_digests(prepared)
        && has_exact_model_provenance(
        event,
        &expected_backend_selection(run, &prepared.backend_model),
        Some(&prepared.request_artifact),
    ) && is_allowed_by_run(run, &prepared.token_reservation, &prepared.output_budget)
}

/// What is found of the output that a run has reserved: with this turn, it stays within the run's
/// limit.
pub open spec fn aggregate_verdict(
    run: Run,
    prepared: PlannerTurnPreparedV1,
    reserved_output: Result<u64, StoreError>,
) -> Result<(), StoreError> {
    match run.spec.limits.max_output_tokens {
        None => Ok(()),
        Some(limit) => match reserved_output {
            Err(error) => Err(error),
            Ok(reserved) => crate::error::demand(
                reserved + prepared.token_reservation.max_output_tokens <= limit,
            ),
        },
    }
}

fn check_aggregate(
    run: &Run,
    prepared: &PlannerTurnPreparedV1,
    reserved_output: Result<u64, StoreError>,
) -> (r: Result<(), StoreError>)
    ensures
        r == aggregate_verdict(*run, *prepared, reserved_output),
{
    let limit: u64 = match run.spec.limits.max_output_tokens {
        Some(limit) => limit,
        None => return Ok(()),
    };
    match reserved_output {
        Err(error) => Err(error),
        Ok(reserved) => match reserved.checked_add(prepared.token_reservation.max_output_tokens) {
            Some(total) => if total <= limit {
                Ok(())
            } else {
                Err(StoreError::InvalidStateEvent)
            },
            None => Err(StoreError::InvalidStateEvent),
        },
    }
}

/// Whether the prompt's entries and the durable entries are the same, one by one.
pub open spec fn entries_agree(
    prompt: Seq<PlannerReplannerV2EvidenceEntry>,
    durable: Seq<PlannerEvidenceEntryV2>,
) -> bool {
    &&& prompt.len() == durable.len()
    &&& forall|i: int|
        0 <= i < prompt.len() ==> (#[trigger] prompt[i]).evidence_id == durable[i].evidence_id
            && prompt[i].normalized_content_sha256@ == durable[i].normalized_content_digest@
}

fn has_agreeing_entries(
    prompt: &Vec<PlannerReplannerV2EvidenceEntry>,
    durable: &Vec<PlannerEvidenceEntryV2>,
) -> (r: bool)
    ensures
        r == entries_agree(prompt@, durable@),
{
    if prompt.len() != durable.len() {
        return false;
    }
    let mut i: usize = 0;
    while i < prompt.len()
        invariant
            i <= prompt@.len(),
            prompt@.len() == durable@.len(),
            forall|j: int|
                0 <= j < i ==> (#[trigger] prompt@[j]).evidence_id == durable@[j].evidence_id
                    && prompt@[j].normalized_content_sha256@
                    == durable@[j].normalized_content_digest@,
        decreases prompt.len() - i,
    {
        if prompt[i].evidence_id != durable[i].evidence_id
            || !durable[i].normalized_content_digest.reads(&prompt[i].normalized_content_sha256) {
            assert(!(prompt@[i as int].evidence_id == durable@[i as int].evidence_id
                && prompt@[i as int].normalized_content_sha256@
                == durable@[i as int].normalized_content_digest@));
            return false;
        }
        i += 1;
    }
    true
}

/// Whether the prompt's evidence is the durable evidence of the turn.
pub open spec fn evidence_agrees(
    prepared: PlannerTurnPreparedV1,
    durable: PlannerEvidencePacketV2,
    packet: PlannerReplannerV2EvidencePacket,
    delta: PlannerReplannerV2EvidenceDelta,
    reads: PreparedTurnReads,
) -> bool {
    &&& reads.packet_is_intact
    &&& reads.delta_fits_packet
    &&& prompting_v2_purpose_matches(packet.purpose, prepared.purpose)
    &&& prompting_v2_purpose_matches(delta.purpose, prepared.purpose)
    &&& packet.context_manifest_sha256@ == prepared.context_manifest_digest@
    &&& entries_agree(packet.entries@, durable.entries@)
}

/// What is found of the evidence that a turn retained.
pub open spec fn retained_verdict(
    store: Store,
    event: EventEnvelope,
    prepared: PlannerTurnPreparedV1,
    reads: PreparedTurnReads,
) -> Result<(), StoreError> {
    crate::error::and_next(
        crate::artifact::readable(
            prepared.durable_evidence_packet_artifact,
            store.contract.media.planner_durable_evidence_packet_v2,
            reads.durable_packet,
        ),
        crate::error::and_next(
            crate::artifact::readable(
                prepared.durable_evidence_delta_artifact,
                store.contract.media.planner_durable_evidence_delta_v2,
                reads.durable_delta,
            ),
            crate::error::demand(
                {
                    let durable = reads.durable_packet->Ok_0;
                    &&& durable.same(&prepared.durable_evidence_packet)
                    &&& reads.durable_delta->Ok_0.same(&prepared.durable_evidence_delta)
                    &&& evidence_agrees(
                        prepared,
                        durable,
                        reads.prompt.packet->Ok_0,
                        reads.prompt.delta->Ok_0,
                        reads,
                    )
                    &&& crate::planner_v2_base::all_material_stands(store, event, durable.entries@)
                },
            ),
        ),
    )
}

fn check_retained(
    store: &Store,
    event: &EventEnvelope,
    prepared: &PlannerTurnPreparedV1,
    packet: &PlannerReplannerV2EvidencePacket,
    delta: &PlannerReplannerV2EvidenceDelta,
    reads: &PreparedTurnReads,
) -> (r: Result<(), StoreError>)
    requires
        reads.prompt.packet == Ok::<PlannerReplannerV2EvidencePacket, StoreError>(*packet),
        reads.prompt.delta == Ok::<PlannerReplannerV2EvidenceDelta, StoreError>(*delta),
    ensures
        r == retained_verdict(*store, *event, *prepared, *reads),
{
    match require_readable(
        &prepared.durable_evidence_packet_artifact,
        &store.contract.media.planner_durable_evidence_packet_v2,
        &reads.durable_packet,
    ) {
        Ok(()) => {},
        Err(error) => return Err(error),
    }
    match require_readable(
        &prepared.durable_evidence_delta_artifact,
        &store.contract.media.planner_durable_evidence_delta_v2,
        &reads.durable_delta,
    ) {
        Ok(()) => {},
        Err(error) => return Err(error),
    }
    match (&reads.durable_packet, &reads.durable_delta) {
        (Ok(durable), Ok(durable_delta)) => {
            if *durable != prepared.durable_evidence_packet || *durable_delta
                != prepared.durable_evidence_delta || !reads.packet_is_intact
                || !reads.delta_fits_packet || !prompting_v2_purpose_matches(
                packet.purpose,
                prepared.purpose,
            ) || !prompting_v2_purpose_matches(delta.purpose, prepared.purpose)
                || !prepared.context_manifest_digest.reads(&packet.context_manifest_sha256)
                || !has_agreeing_entries(&packet.entries, &durable.entries) {
                return Err(StoreError::InvalidStateEvent);
            }
            validate_planner_durable_evidence(store, event, &durable.entries)
        },
        _ => Err(StoreError::InvalidStateEvent),
    }
}

/// The end of the turn before that allows it to be tried again, if there is one.
pub open spec fn retry_end(
    events: Seq<EventEnvelope>,
    session_id: SessionId,
    run_id: RunId,
    previous: Option<EventEnvelope>,
    sequence: u64,
) -> Option<EventEnvelope> {
    match previous {
        None => None,
        Some(event) => match EventQuery::in_run(
            session_id,
            run_id,
            PayloadFilter::TerminalOfPrepared(event.id),
        ).before(sequence).first_of(events) {
            Some(terminal) => if crate::planner_v2_history::authorizes_retry(terminal, event.id) {
                Some(terminal)
            } else {
                None
            },
            None => None,
        },
    }
}

fn find_retry_end<'a>(
    log: &'a EventLog,
    session_id: SessionId,
    run_id: RunId,
    previous: Option<&EventEnvelope>,
    sequence: u64,
) -> (r: Option<&'a EventEnvelope>)
    ensures
        retry_end(
            log@,
            session_id,
            run_id,
            match previous {
                Some(event) => Some(*event),
                None => None,
            },
            sequence,
        ) == (match r {
            Some(terminal) => Some(*terminal),
            None => None,
        }),
{
    match previous {
        None => None,
        Some(event) => match log.first(
            &EventQuery::in_run(
                session_id,
                run_id,
                PayloadFilter::TerminalOfPrepared(event.id),
            ).before(sequence),
        ) {
            Some(terminal) => if planner_v2_terminal_authorizes_retry(terminal, event.id) {
                Some(terminal)
            } else {
                None
            },
            None => None,
        },
    }
}

/// Whether a first turn is given nothing but the accepted root plan, and nothing before it.
pub open spec fn begins_evidence(
    prepared: PlannerTurnPreparedV1,
    delta: PlannerReplannerV2EvidenceDelta,
) -> bool {
    let entries = prepared.durable_evidence_packet.entries@;
    &&& prepared.durable_evidence_delta.previous_packet_digest is None
    &&& prepared.durable_evidence_delta.previous_evidence@.len() == 0
    &&& delta.previous_packet_sha256 is None
    &&& delta.previous_evidence@.len() == 0
    &&& entries.len() == 1
    &&& entries[0].material is AcceptedRootPlan
}

fn is_first_evidence(
    prepared: &PlannerTurnPreparedV1,
    delta: &PlannerReplannerV2EvidenceDelta,
) -> (r: bool)
    ensures
        r == begins_evidence(*prepared, *delta),
{
    let entries = &prepared.durable_evidence_packet.entries;
    if prepared.durable_evidence_delta.previous_packet_digest.is_some()
        || prepared.durable_evidence_delta.previous_evidence.len() != 0
        || delta.previous_packet_sha256.is_some() || delta.previous_evidence.len() != 0
        || entries.len() != 1 {
        return false;
    }
    match &entries[0].material {
        PlannerEvidenceMaterialV2::AcceptedRootPlan(_) => true,
        _ => false,
    }
}

/// Whether a retried turn repeats the turn before, after an end between the two.
pub open spec fn repeats_turn(
    event: EventEnvelope,
    prepared: PlannerTurnPreparedV1,
    packet: PlannerReplannerV2EvidencePacket,
    delta: PlannerReplannerV2EvidenceDelta,
    previous_event: EventEnvelope,
    previous: PlannerTurnPreparedV1,
    terminal: EventEnvelope,
    previous_packet: PlannerReplannerV2EvidencePacket,
    previous_delta: PlannerReplannerV2EvidenceDelta,
) -> bool {
    &&& previous.purpose == prepared.purpose
    &&& previous.base_plan.same(&prepared.base_plan)
    &&& previous.durable_evidence_packet.same(&prepared.durable_evidence_packet)
    &&& previous.durable_evidence_delta.same(&prepared.durable_evidence_delta)
    &&& previous_packet.same(&packet)
    &&& previous_delta.same(&delta)
    &&& terminal.sequence > previous_event.sequence
    &&& terminal.sequence < event.sequence
}

/// What is found of a turn that is tried again.
pub open spec fn retried_verdict(
    contract: Contract,
    event: EventEnvelope,
    prepared: PlannerTurnPreparedV1,
    previous_event: EventEnvelope,
    terminal: EventEnvelope,
    reads: PreparedTurnReads,
) -> Result<(), StoreError> {
    match crate::planner_v2_terminal::turn_in(previous_event) {
        None => Err(StoreError::InvalidStateEvent),
        Some(previous) => crate::error::and_next(
            crate::artifact::readable(
                previous.prompt_evidence_packet_artifact,
                contract.media.planner_prompt_evidence_packet_v2,
                reads.previous_packet,
            ),
            crate::error::and_next(
                crate::artifact::readable(
                    previous.prompt_evidence_delta_artifact,
                    contract.media.planner_prompt_evidence_delta_v2,
                    reads.previous_delta,
                ),
                crate::error::demand(
                    repeats_turn(
                        event,
                        prepared,
                        reads.prompt.packet->Ok_0,
                        reads.prompt.delta->Ok_0,
                        previous_event,
                        previous,
                        terminal,
                        reads.previous_packet->Ok_0,
                        reads.previous_delta->Ok_0,
                    ),
                ),
            ),
        ),
    }
}

fn check_retried(
    contract: &Contract,
    event: &EventEnvelope,
    prepared: &PlannerTurnPreparedV1,
    packet: &PlannerReplannerV2EvidencePacket,
    delta: &PlannerReplannerV2EvidenceDelta,
    previous_event: &EventEnvelope,
    terminal: &EventEnvelope,
    reads: &PreparedTurnReads,
) -> (r: Result<(), StoreError>)
    requires
        reads.prompt.packet == Ok::<PlannerReplannerV2EvidencePacket, StoreError>(*packet),
        reads.prompt.delta == Ok::<PlannerReplannerV2EvidenceDelta, StoreError>(*delta),
    ensures
        r == retried_verdict(*contract, *event, *prepared, *previous_event, *terminal, *reads),
{
    let previous = match &previous_event.payload {
        EventPayload::PlannerTurnPreparedV1(previous) => previous,
        _ => return Err(StoreError::InvalidStateEvent),
    };
    match require_readable(
        &previous.prompt_evidence_packet_artifact,
        &contract.media.planner_prompt_evidence_packet_v2,
        &reads.previous_packet,
    ) {
        Ok(()) => {},
        Err(error) => return Err(error),
    }
    match require_readable(
        &previous.prompt_evidence_delta_artifact,
        &contract.media.planner_prompt_evidence_delta_v2,
        &reads.previous_delta,
    ) {
        Ok(()) => {},
        Err(error) => return Err(error),
    }
    match (&reads.previous_packet, &reads.previous_delta) {
        (Ok(previous_packet), Ok(previous_delta)) => if previous.purpose != prepared.purpose
            || previous.base_plan != prepared.base_plan || previous.durable_evidence_packet
            != prepared.durable_evidence_packet || previous.durable_evidence_delta
            != prepared.durable_evidence_delta || *previous_packet != *packet || *previous_delta
            != *delta || terminal.sequence <= previous_event.sequence || terminal.sequence
            >= event.sequence {
            Err(StoreError::InvalidStateEvent)
        } else {
            Ok(())
        },
        _ => Err(StoreError::InvalidStateEvent),
    }
}

/// Whether two lists of durable bindings are the same.
pub open spec fn same_bindings(
    first: Seq<PlannerEvidenceBindingV2>,
    second: Seq<PlannerEvidenceBindingV2>,
) -> bool {
    &&& first.len() == second.len()
    &&& forall|i: int|
        0 <= i < first.len() ==> (#[trigger] first[i]).evidence_id == second[i].evidence_id
            && first[i].normalized_content_digest@ == second[i].normalized_content_digest@
}

fn are_same_bindings(
    first: &Vec<PlannerEvidenceBindingV2>,
    second: &Vec<PlannerEvidenceBindingV2>,
) -> (r: bool)
    ensures
        r == same_bindings(first@, second@),
{
    if first.len() != second.len() {
        return false;
    }
    let mut i: usize = 0;
    while i < first.len()
        invariant
            i <= first@.len(),
            first@.len() == second@.len(),
            forall|j: int|
                0 <= j < i ==> (#[trigger] first@[j]).evidence_id == second@[j].evidence_id
                    && first@[j].normalized_content_digest@
                    == second@[j].normalized_content_digest@,
        decreases first.len() - i,
    {
        if first[i].evidence_id != second[i].evidence_id || first[i].normalized_content_digest
            != second[i].normalized_content_digest {
            assert(!(first@[i as int].evidence_id == second@[i as int].evidence_id
                && first@[i as int].normalized_content_digest@
                == second@[i as int].normalized_content_digest@));
            return false;
        }
        i += 1;
    }
    true
}

/// Whether bindings of the prompt are those of its entries, one by one.
pub open spec fn binds_entries(
    bindings: Seq<PlannerReplannerV2EvidenceBinding>,
    entries: Seq<PlannerReplannerV2EvidenceEntry>,
) -> bool {
    &&& bindings.len() == entries.len()
    &&& forall|i: int|
        0 <= i < bindings.len() ==> (#[trigger] bindings[i]).evidence_id == entries[i].evidence_id
            && bindings[i].normalized_content_sha256@ == entries[i].normalized_content_sha256@
}

fn has_bound_entries(
    bindings: &Vec<PlannerReplannerV2EvidenceBinding>,
    entries: &Vec<PlannerReplannerV2EvidenceEntry>,
) -> (r: bool)
    ensures
        r == binds_entries(bindings@, entries@),
{
    if bindings.len() != entries.len() {
        return false;
    }
    let mut i: usize = 0;
    while i < bindings.len()
        invariant
            i <= bindings@.len(),
            bindings@.len() == entries@.len(),
            forall|j: int|
                0 <= j < i ==> (#[trigger] bindings@[j]).evidence_id == entries@[j].evidence_id
                    && bindings@[j].normalized_content_sha256@
                    == entries@[j].normalized_content_sha256@,
        decreases bindings.len() - i,
    {
        if bindings[i].evidence_id != entries[i].evidence_id
            || bindings[i].normalized_content_sha256 != entries[i].normalized_content_sha256 {
            assert(!(bindings@[i as int].evidence_id == entries@[i as int].evidence_id
                && bindings@[i as int].normalized_content_sha256@
                == entries@[i as int].normalized_content_sha256@));
            return false;
        }
        i += 1;
    }
    true
}

/// Whether a replanning turn goes on from the evidence of the turn before.
pub open spec fn continues_evidence(
    prepared: PlannerTurnPreparedV1,
    delta: PlannerReplannerV2EvidenceDelta,
    previous: PlannerTurnPreparedV1,
    previous_packet: PlannerReplannerV2EvidencePacket,
) -> bool {
    &&& prepared.durable_evidence_delta.previous_packet_digest matches Some(digest) && digest@
        == previous.durable_evidence_packet_digest@
    &&& same_bindings(
        prepared.durable_evidence_delta.previous_evidence@,
        crate::planner_v2_evidence::durable_bindings(previous.durable_evidence_packet.entries@),
    )
    &&& delta.previous_packet_sha256 matches Some(digest) && digest@
        == previous_packet.packet_sha256@
    &&& binds_entries(delta.previous_evidence@, previous_packet.entries@)
}

fn goes_on_from_evidence(
    prepared: &PlannerTurnPreparedV1,
    delta: &PlannerReplannerV2EvidenceDelta,
    previous: &PlannerTurnPreparedV1,
    previous_packet: &PlannerReplannerV2EvidencePacket,
) -> (r: bool)
    ensures
        r == continues_evidence(*prepared, *delta, *previous, *previous_packet),
{
    let names_durable = match &prepared.durable_evidence_delta.previous_packet_digest {
        Some(digest) => *digest == previous.durable_evidence_packet_digest,
        None => false,
    };
    let names_prompt = match &delta.previous_packet_sha256 {
        Some(digest) => *digest == previous_packet.packet_sha256,
        None => false,
    };
    names_durable && are_same_bindings(
        &prepared.durable_evidence_delta.previous_evidence,
        &planner_evidence_bindings(&previous.durable_evidence_packet),
    ) && names_prompt && has_bound_entries(&delta.previous_evidence, &previous_packet.entries)
}

/// What is found of a turn that replans.
pub open spec fn replanned_verdict(
    contract: Contract,
    prepared: PlannerTurnPreparedV1,
    previous_event: EventEnvelope,
    reads: PreparedTurnReads,
) -> Result<(), StoreError> {
    match crate::planner_v2_terminal::turn_in(previous_event) {
        None => Err(StoreError::InvalidStateEvent),
        Some(previous) => crate::error::and_next(
            crate::artifact::readable(
                previous.prompt_evidence_packet_artifact,
                contract.media.planner_prompt_evidence_packet_v2,
                reads.previous_packet,
            ),
            crate::error::demand(
                continues_evidence(
                    prepared,
                    reads.prompt.delta->Ok_0,
                    previous,
                    reads.previous_packet->Ok_0,
                ),
            ),
        ),
    }
}

fn check_replanned(
    contract: &Contract,
    prepared: &PlannerTurnPreparedV1,
    delta: &PlannerReplannerV2EvidenceDelta,
    previous_event: &EventEnvelope,
    reads: &PreparedTurnReads,
) -> (r: Result<(), StoreError>)
    requires
        reads.prompt.delta == Ok::<PlannerReplannerV2EvidenceDelta, StoreError>(*delta),
    ensures
        r == replanned_verdict(*contract, *prepared, *previous_event, *reads),
{
    let previous = match &previous_event.payload {
        EventPayload::PlannerTurnPreparedV1(previous) => previous,
        _ => return Err(StoreError::InvalidStateEvent),
    };
    match require_readable(
        &previous.prompt_evidence_packet_artifact,
        &contract.media.planner_prompt_evidence_packet_v2,
        &reads.previous_packet,
    ) {
        Ok(()) => {},
        Err(error) => return Err(error),
    }
    match &reads.previous_packet {
        Ok(previous_packet) => if goes_on_from_evidence(
            prepared,
            delta,
            previous,
            previous_packet,
        ) {
            Ok(())
        } else {
            Err(StoreError::InvalidStateEvent)
        },
        Err(error) => Err(*error),
    }
}

/// What is found of the place of a turn among the turns before it.
pub open spec fn place_verdict(
    store: Store,
    event: EventEnvelope,
    run_id: RunId,
    prepared: PlannerTurnPreparedV1,
    reads: PreparedTurnReads,
) -> Result<(), StoreError> {
    let previous = crate::planner_v2_evidence::latest_preparation_before(
        store.log@,
        event.session_id,
        run_id,
        event.sequence,
    );
    let terminal = retry_end(store.log@, event.session_id, run_id, previous, event.sequence);
    match (previous, terminal) {
        (None, None) => crate::error::demand(
            prepared.purpose == PlannerTurnPurposeV1::InitialDelegation && begins_evidence(
                prepared,
                reads.prompt.delta->Ok_0,
            ),
        ),
        (Some(previous_event), Some(end)) => retried_verdict(
            store.contract,
            event,
            prepared,
            previous_event,
            end,
            reads,
        ),
        (Some(previous_event), None) => if prepared.purpose
            == PlannerTurnPurposeV1::EvidenceReplan {
            replanned_verdict(store.contract, prepared, previous_event, reads)
        } else {
            Err(StoreError::InvalidStateEvent)
        },
        (None, Some(_)) => Err(StoreError::InvalidStateEvent),
    }
}

fn check_place(
    store: &Store,
    event: &EventEnvelope,
    run_id: RunId,
    prepared: &PlannerTurnPreparedV1,
    packet: &PlannerReplannerV2EvidencePacket,
    delta: &PlannerReplannerV2EvidenceDelta,
    reads: &PreparedTurnReads,
) -> (r: Result<(), StoreError>)
    requires
        reads.prompt.packet == Ok::<PlannerReplannerV2EvidencePacket, StoreError>(*packet),
        reads.prompt.delta == Ok::<PlannerReplannerV2EvidenceDelta, StoreError>(*delta),
    ensures
        r == place_verdict(*store, *event, run_id, *prepared, *reads),
{
    let previous = latest_planner_prepared_before(
        &store.log,
        event.session_id,
        run_id,
        event.sequence,
    );
    let terminal = find_retry_end(
        &store.log,
        event.session_id,
        run_id,
        previous,
        event.sequence,
    );
    match (previous, terminal) {
        (None, None) => if prepared.purpose == PlannerTurnPurposeV1::InitialDelegation
            && is_first_evidence(prepared, delta) {
            Ok(())
        } else {
            Err(StoreError::InvalidStateEvent)
        },
        (Some(previous_event), Some(end)) => check_retried(
            &store.contract,
            event,
            prepared,
            packet,
            delta,
            previous_event,
            end,
            reads,
        ),
        (Some(previous_event), None) => if prepared.purpose
            == PlannerTurnPurposeV1::EvidenceReplan {
            check_replanned(&store.contract, prepared, delta, previous_event, reads)
        } else {
            Err(StoreError::InvalidStateEvent)
        },
        (None, Some(_)) => Err(StoreError::InvalidStateEvent),
    }
}

/// Whether what a turn calls new is exactly what its evidence has and the evidence before has not, and
/// something is new.
pub open spec fn delta_is_exact(prepared: PlannerTurnPreparedV1) -> bool {
    let delta = prepared.durable_evidence_delta;
    &&& same_bindings(
        delta.newly_available@,
        crate::planner_v2_evidence::new_bindings(
            crate::planner_v2_evidence::durable_bindings(prepared.durable_evidence_packet.entries@),
            delta.previous_evidence@,
        ),
    )
    &&& delta.newly_available@.len() > 0
}

fn has_exact_delta(prepared: &PlannerTurnPreparedV1) -> (r: bool)
    ensures
        r == delta_is_exact(*prepared),
{
    let delta = &prepared.durable_evidence_delta;
    let current = planner_evidence_bindings(&prepared.durable_evidence_packet);
    let expected = newly_available_bindings(&current, &delta.previous_evidence);
    are_same_bindings(&delta.newly_available, &expected) && delta.newly_available.len() > 0
}

/// What is found of what a prepared turn stands on: its plan, its request, its evidence and its place.
pub open spec fn standing_verdict(
    store: Store,
    event: EventEnvelope,
    run_id: RunId,
    prepared: PlannerTurnPreparedV1,
    reads: PreparedTurnReads,
) -> Result<(), StoreError> {
    crate::error::and_next(
        crate::planner_v2_base::base_snapshot(store.contract, prepared.base_plan, reads.base),
        crate::error::and_next(
            crate::error::demand(
                crate::planner_v2_base::base_stands(store, event, prepared, reads.base->Ok_0),
            ),
            crate::error::and_next(
                crate::planner_v2_request::prompt_verdict(
                    store.contract,
                    prepared,
                    reads.base->Ok_0,
                    reads.prompt,
                ),
                crate::error::and_next(
                    retained_verdict(store, event, prepared, reads),
                    crate::error::and_next(
                        place_verdict(store, event, run_id, prepared, reads),
                        crate::error::demand(delta_is_exact(prepared)),
                    ),
                ),
            ),
        ),
    )
}

fn check_standing(
    store: &Store,
    event: &EventEnvelope,
    run_id: RunId,
    prepared: &PlannerTurnPreparedV1,
    reads: &PreparedTurnReads,
) -> (r: Result<(), StoreError>)
    ensures
        r == standing_verdict(*store, *event, run_id, *prepared, *reads),
{
    let base = match read_planner_base_snapshot(&store.contract, &prepared.base_plan, &reads.base) {
        Ok(base) => base,
        Err(error) => return Err(error),
    };
    match validate_planner_base_authority(store, event, prepared, base) {
        Ok(()) => {},
        Err(error) => return Err(error),
    }
    match check_planner_v2_retained_prompt(&store.contract, prepared, base, &reads.prompt) {
        Ok(()) => {},
        Err(error) => return Err(error),
    }
    match (&reads.prompt.packet, &reads.prompt.delta) {
        (Ok(packet), Ok(delta)) => {
            match check_retained(store, event, prepared, packet, delta, reads) {
                Ok(()) => {},
                Err(error) => return Err(error),
            }
            match check_place(store, event, run_id, prepared, packet, delta, reads) {
                Ok(()) => {},
                Err(error) => return Err(error),
            }
            if has_exact_delta(prepared) {
                Ok(())
            } else {
                Err(StoreError::InvalidStateEvent)
            }
        },
        _ => Err(StoreError::InvalidStateEvent),
    }
}

/// What is found of a prepared turn.
pub open spec fn prepared_verdict(
    store: Store,
    event: EventEnvelope,
    prepared: PlannerTurnPreparedV1,
    reads: PreparedTurnReads,
) -> Result<(), StoreError> {
    match event.run_id {
        None => Err(StoreError::InvalidStateEvent),
        Some(run_id) => if !crate::planning_ground::run_is_running(store, run_id)
            || !crate::planning_ground::follows_latest(store, event, run_id) {
            Err(StoreError::InvalidStateEvent)
        } else {
            match crate::planning_ground::run_of(store, event.session_id, run_id) {
                None => Err(StoreError::InvalidStateEvent),
                Some(run) => match reads.owner {
                    Err(error) => Err(error),
                    Ok(()) => match crate::claim_history::latest_claim_of(
                        store.log@,
                        event.session_id,
                        run_id,
                    ) {
                        None => Err(StoreError::InvalidStateEvent),
                        Some(claim_event) => if !turn_fits(
                            store,
                            event,
                            run_id,
                            run,
                            prepared,
                            claim_event,
                            reads,
                        ) {
                            Err(StoreError::InvalidStateEvent)
                        } else {
                            crate::error::and_next(
                                aggregate_verdict(run, prepared, reads.reserved_output),
                                standing_verdict(store, event, run_id, prepared, reads),
                            )
                        },
                    },
                },
            }
        },
    }
}

/// Refuses a prepared turn that may not be recorded.
pub fn validate_planner_turn_prepared_v1(
    store: &Store,
    event: &EventEnvelope,
    prepared: &PlannerTurnPreparedV1,
    reads: &PreparedTurnReads,
) -> (r: Result<(), StoreError>)
    ensures
        r == prepared_verdict(*store, *event, *prepared, *reads),
{
    let run_id = match planner_run_id(event) {
        Ok(run_id) => run_id,
        Err(error) => return Err(error),
    };
    if !store.is_running(run_id) || !store.is_after_latest(event, run_id) {
        return Err(StoreError::InvalidStateEvent);
    }
    let run = match store.run_of_event(event.session_id, run_id) {
        Some(run) => run,
        None => return Err(StoreError::InvalidStateEvent),
    };
    match reads.owner {
        Ok(()) => {},
        Err(error) => return Err(error),
    }
    let claim_event = match latest_claim_for_run(&store.log, event.session_id, run_id) {
        Some(claim_event) => claim_event,
        None => return Err(StoreError::InvalidStateEvent),
    };
    if !is_fitting_turn(store, event, run_id, run, prepared, claim_event, reads) {
        return Err(StoreError::InvalidStateEvent);
    }
    match check_aggregate(run, prepared, reads.reserved_output) {
        Ok(()) => {},
        Err(error) => return Err(error),
    }
    check_standing(store, event, run_id, prepared, reads)
}

/// A turn that may be recorded never takes a run past its limit of reserved output.
pub proof fn law_turns_stay_within_the_run(
    store: Store,
    event: EventEnvelope,
    prepared: PlannerTurnPreparedV1,
    reads: PreparedTurnReads,
)
    requires
        prepared_verdict(store, event, prepared, reads) is Ok,
    ensures
        crate::planning_ground::run_of(store, event.session_id, event.run_id->0) matches Some(run)
            && (run.spec.limits.max_output_tokens matches Some(limit) ==> (
        reads.reserved_output matches Ok(reserved) && reserved
            + prepared.token_reservation.max_output_tokens <= limit)),
{
}

/// There are never more turns of a run than are allowed: one more may be recorded only while there is
/// room.
pub proof fn law_turns_are_bounded(
    store: Store,
    event: EventEnvelope,
    prepared: PlannerTurnPreparedV1,
    reads: PreparedTurnReads,
)
    requires
        prepared_verdict(store, event, prepared, reads) is Ok,
    ensures
        crate::planner_v2_replay_projection::prepared_turns(
            store.log@,
            event.session_id,
            event.run_id->0,
        ) < store.contract.recon.max_planner_turns,
{
}

/// What preparation builds, validation finds fitting: the event of a built turn, recorded as the next
/// of its run, follows the run's last event and fits the run, the claim and itself, as long as the
/// stage has an attempt left, a call stays within the whole budget, and the reservation is new.
pub proof fn law_built_turns_fit(
    store: Store,
    run_id: RunId,
    authority: PlannerV2PreparationAuthority,
    preparation: PlannerPreparationReads,
    planned: PlannedTurn,
    results: PlannerRequestResults,
    built: IdentifiedNewEvent,
    sequence: u64,
    at: Timestamp,
    reads: PreparedTurnReads,
)
    requires
        crate::planner_v2_preparation::plan_verdict(store, run_id, authority, preparation) is Ok,
        crate::planner_v2_preparation::is_planned(store, run_id, authority, preparation, planned),
        crate::planner_v2_preparation::finish_verdict(planned, authority, results) is Ok,
        crate::planner_v2_preparation::records_planned_turn(
            store.contract,
            planned,
            authority,
            results,
            built,
        ),
        has_room(
            store,
            crate::parallel_recon_bootstrap::enveloped(built, sequence, at),
            run_id,
            *planned.run,
            built.event.payload->PlannerTurnPreparedV1_0,
        ),
        preparation.evidence is Retry ==> evidence_is_of_turn(
            store.contract,
            built.event.payload->PlannerTurnPreparedV1_0,
        ),
        authority.output_budget.max_output_tokens_per_call
            <= authority.output_budget.max_total_reserved_output_tokens,
        reads.backend_is_intact == preparation.backend_is_intact,
        reads.lineage_is_valid == preparation.lineage_is_valid,
        reads.reservation_is_valid == preparation.reservation_is_valid,
        reads.reservation_is_new,
    ensures
        ({
            let event = crate::parallel_recon_bootstrap::enveloped(built, sequence, at);
            let prepared = event.payload->PlannerTurnPreparedV1_0;
            &&& event.run_id == Some(run_id)
            &&& crate::planning_ground::follows_latest(store, event, run_id)
            &&& turn_fits(
                store,
                event,
                run_id,
                *planned.run,
                prepared,
                *planned.claim.event,
                reads,
            )
        }),
{
    let event = crate::parallel_recon_bootstrap::enveloped(built, sequence, at);
    let prepared = event.payload->PlannerTurnPreparedV1_0;
    reveal(crate::planner_v2_replay_projection::projected_run);
    Sha256Digest::lemma_reads_as_written(planned.durable_packet_artifact.sha256);
    Sha256Digest::lemma_reads_as_written(planned.durable_delta_artifact.sha256);
    Sha256Digest::lemma_reads_as_written(planned.prompt_packet_artifact.sha256);
    Sha256Digest::lemma_reads_as_written(planned.prompt_delta_artifact.sha256);
    Sha256Digest::lemma_reads_as_written(planned.prompt_manifest_artifact.sha256);
    Sha256Digest::lemma_reads_as_written(results.prompt_artifact->Ok_0.sha256);
    Sha256Digest::lemma_reads_as_written(results.request_artifact->Ok_0.sha256);
    assert(digests_agree(prepared));
    assert(event.run_id == Some(run_id));
    assert(crate::planning_ground::follows_latest(store, event, run_id));
    assert(crate::planning_ground::claim_in(*planned.claim.event) == Some(*planned.claim.claim));
    assert(names_claim(event, prepared, *planned.claim.event, *planned.claim.claim));
    assert(names_model(store.contract, prepared, reads));
    assert(evidence_is_of_turn(store.contract, prepared)) by {
        reveal(crate::planner_v2_evidence::is_evidence_of_turn);
        Sha256Digest::lemma_reads_as_written(
            planned.input.material.planner_context_catalog.manifest_sha256,
        );
    }
}

} // verus!

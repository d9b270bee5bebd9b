//! Where a reconnaissance run stands, and what its planner has to do next.

use vstd::prelude::*;
use crate::artifact::ArtifactRef;
use crate::claim_history::{latest_cancellation_for_run_before, latest_claim_for_run};
use crate::contract::Contract;
use crate::digest::Sha256Digest;
use crate::error::StoreError;
use crate::event::{EventEnvelope, EventPayload};
use crate::history::{EventLog, EventQuery, MAX_SEQUENCE, PayloadFilter};
use crate::identity::{EventId, PlannerTurnId, RunId, SessionId};
use crate::planner_prompt::PlannerReplannerV2PlanSnapshot;
use crate::planner_turn::{
    PlannerAcceptedDirectiveV1, PlannerAcceptedRootPlanEvidenceV2, PlannerBasePlanBindingV1,
    PlannerEvidenceDeltaV2, PlannerEvidencePacketV2, PlannerTurnAcceptedV1,
    PlannerTurnObservationV1, PlannerTurnPreparedV1, PlannerTurnPurposeV1,
    PlannerTurnRejectionReasonV1,
};
use crate::planner_v2_delegates::{
    accepted_delegate_children_are_terminal, is_same_event, ChildRead,
};
use crate::planner_v2_history::{
    boundary_allows_retry, planner_v2_history, ReplayedPlannerTurn, TurnEventReads,
};
use crate::planner_v2_request::{
    planner_v2_committed_material, PlannerPromptReads, PlannerV2PreparedMaterial,
};
use crate::planner_v2_sources::accepted_root_plan_projection;
use crate::run::{RetryDisposition, Run, RunClaimed, RunPurpose, RunState};
use crate::store::{RunStateRow, Store};

verus! {

/// The last claim on a run.
#[derive(Clone, Copy, Debug)]
pub struct DurableRunClaimProjection<'a> {
    pub event: &'a EventEnvelope,
    pub claim: &'a RunClaimed,
}

/// What guards a run: its last claim, its last cancellation, and its end.
#[derive(Clone, Copy, Debug)]
pub struct ReconRunGuardProjection<'a> {
    pub latest_claim: Option<DurableRunClaimProjection<'a>>,
    pub cancellation_event: Option<&'a EventEnvelope>,
    pub cancellation_generation: u64,
    pub claim_matches_cancellation_generation: bool,
    pub terminal_state_event: Option<&'a EventEnvelope>,
}

/// The evidence that the last turn was prepared with.
#[derive(Clone, Copy, Debug)]
pub struct PlannerEvidenceProjection<'a> {
    pub prepared_event_id: EventId,
    pub packet: &'a PlannerEvidencePacketV2,
    pub packet_artifact: &'a ArtifactRef,
    pub packet_digest: &'a Sha256Digest,
    pub delta: &'a PlannerEvidenceDeltaV2,
    pub delta_artifact: &'a ArtifactRef,
    pub delta_digest: &'a Sha256Digest,
}

/// The last turn that was accepted.
#[derive(Clone, Copy, Debug)]
pub struct PlannerAcceptedDirectiveProjection<'a> {
    pub event: &'a EventEnvelope,
    pub accepted: &'a PlannerTurnAcceptedV1,
}

/// How far the last turn came.
#[derive(Clone, Copy, Debug)]
pub enum PlannerTurnRecoveryState<'a> {
    Idle,
    Prepared { prepared_event: &'a EventEnvelope },
    Observed { prepared_event: &'a EventEnvelope, observed_event: &'a EventEnvelope },
    Unknown { prepared_event: &'a EventEnvelope, unknown_event: &'a EventEnvelope },
    Accepted {
        prepared_event: &'a EventEnvelope,
        observed_event: &'a EventEnvelope,
        accepted_event: &'a EventEnvelope,
    },
    Rejected {
        prepared_event: &'a EventEnvelope,
        observed_event: &'a EventEnvelope,
        rejected_event: &'a EventEnvelope,
    },
}

/// What the planner has to do next.
#[derive(Clone, Copy, Debug)]
pub enum PlannerNextAction<'a> {
    Terminal { state: RunState, state_event_id: EventId },
    CancellationRequested { cancellation_event_id: EventId, cancellation_generation: u64 },
    AwaitRunClaim,
    FinalizeCompletionGate { gate_event_id: EventId },
    AwaitAcceptedRootPlan,
    ReadyToPrepare {
        purpose: PlannerTurnPurposeV1,
        base_plan: Option<&'a PlannerBasePlanBindingV1>,
    },
    RetryPrepared {
        purpose: PlannerTurnPurposeV1,
        base_plan: &'a PlannerBasePlanBindingV1,
        prior_prepared_event_id: EventId,
        terminal_event_id: EventId,
    },
    ReconcileUnknown { turn_id: PlannerTurnId, unknown_event_id: EventId },
    RecoverPrepared { turn_id: PlannerTurnId, prepared_event_id: EventId },
    ValidateObserved { turn_id: PlannerTurnId, observed_event_id: EventId },
    FinalizeObservedFailure { turn_id: PlannerTurnId, observed_event_id: EventId },
    ApplyAcceptedDirective {
        accepted_event_id: EventId,
        directive: &'a PlannerAcceptedDirectiveV1,
    },
    ResolveRejectedTurn { rejected_event_id: EventId, reason: PlannerTurnRejectionReasonV1 },
}

/// Where the planner of a run stands.
#[derive(Debug)]
pub struct PlannerRunProjection<'a> {
    pub accepted_root_plan: Option<PlannerAcceptedRootPlanEvidenceV2>,
    pub current_base_plan: Option<&'a PlannerBasePlanBindingV1>,
    pub latest_accepted_plan: Option<&'a PlannerBasePlanBindingV1>,
    pub latest_evidence: Option<PlannerEvidenceProjection<'a>>,
    pub accepted_directive: Option<PlannerAcceptedDirectiveProjection<'a>>,
    pub recovery: PlannerTurnRecoveryState<'a>,
    pub next_action: PlannerNextAction<'a>,
    pub prepared_turn_count: u32,
}

/// Where a reconnaissance run stands.
#[derive(Debug)]
pub struct ReconRunProjection<'a> {
    pub session_id: SessionId,
    pub run_id: RunId,
    pub run_state: RunState,
    pub last_event: &'a EventEnvelope,
    pub guard: ReconRunGuardProjection<'a>,
    pub planner: PlannerRunProjection<'a>,
    pub completion_gate: Option<EventId>,
}

/// What is read for a run: what its turns retained, the output that its model calls have reserved, its
/// completion gate, and its children.
#[derive(Debug)]
pub struct ReconReads {
    pub turns: Vec<TurnEventReads>,
    pub reserved_output: Result<u64, StoreError>,
    pub completion_gate: Result<Option<EventId>, StoreError>,
    pub children: Vec<ChildRead>,
}

/// Whether a run in this state is over.
#[verifier::allow_in_spec]
pub fn is_terminal_run_state(state: RunState) -> bool
    returns
        (state == RunState::Completed || state == RunState::Failed || state == RunState::Cancelled),
{
    state == RunState::Completed || state == RunState::Failed || state == RunState::Cancelled
}

/// How many turns were prepared for a run.
pub open spec fn prepared_turns(
    events: Seq<EventEnvelope>,
    session_id: SessionId,
    run_id: RunId,
) -> nat {
    EventQuery::in_run(session_id, run_id, PayloadFilter::PlannerTurnPrepared).rows(events).len()
}

/// How many turns were prepared for a run.
pub fn planner_v2_prepared_turn_count(log: &EventLog, session_id: SessionId, run_id: RunId) -> (r:
    u64)
    ensures
        r == prepared_turns(log@, session_id, run_id),
{
    log.count(&EventQuery::in_run(session_id, run_id, PayloadFilter::PlannerTurnPrepared)) as u64
}

/// How many turns with one purpose were prepared for a run.
pub open spec fn prepared_turns_for(
    events: Seq<EventEnvelope>,
    session_id: SessionId,
    run_id: RunId,
    purpose: PlannerTurnPurposeV1,
) -> nat {
    EventQuery::in_run(session_id, run_id, PayloadFilter::PlannerTurnPreparedFor(purpose)).rows(
        events,
    ).len()
}

/// How many turns with one purpose were prepared for a run.
pub fn planner_v2_prepared_turn_count_for_purpose(
    log: &EventLog,
    session_id: SessionId,
    run_id: RunId,
    purpose: PlannerTurnPurposeV1,
) -> (r: u64)
    ensures
        r == prepared_turns_for(log@, session_id, run_id, purpose),
{
    log.count(
        &EventQuery::in_run(session_id, run_id, PayloadFilter::PlannerTurnPreparedFor(purpose)),
    ) as u64
}

/// The sequence of the last child that finished.
pub open spec fn latest_finish(
    events: Seq<EventEnvelope>,
    session_id: SessionId,
    run_id: RunId,
) -> Option<u64> {
    match EventQuery::in_run(session_id, run_id, PayloadFilter::ChildFinished).last_of(events) {
        Some(event) => Some(event.sequence),
        None => None,
    }
}

/// The sequence of the last child that finished.
pub fn latest_child_terminal_sequence(log: &EventLog, session_id: SessionId, run_id: RunId) -> (r:
    Option<u64>)
    ensures
        r == latest_finish(log@, session_id, run_id),
{
    match log.last(&EventQuery::in_run(session_id, run_id, PayloadFilter::ChildFinished)) {
        Some(event) => Some(event.sequence),
        None => None,
    }
}

/// Whether there is room for another attempt: among all turns, among those of its stage, and in the
/// output that the run may reserve.
pub open spec fn has_capacity(
    contract: Contract,
    prepared_turn_count: nat,
    prepared_stage_turn_count: nat,
    already_reserved_output: u64,
    next_reserved_output: u64,
    aggregate_limit: Option<u64>,
) -> bool {
    &&& prepared_turn_count < contract.recon.max_planner_turns
    &&& prepared_stage_turn_count < contract.recon.planner_attempts_per_stage
    &&& aggregate_limit matches Some(limit) ==> already_reserved_output + next_reserved_output
        <= limit
}

/// Whether there is room for another attempt.
pub fn planner_v2_retry_has_capacity(
    contract: &Contract,
    prepared_turn_count: u64,
    prepared_stage_turn_count: u64,
    already_reserved_output: u64,
    next_reserved_output: u64,
    aggregate_limit: Option<u64>,
) -> (r: bool)
    ensures
        r == has_capacity(
            *contract,
            prepared_turn_count as nat,
            prepared_stage_turn_count as nat,
            already_reserved_output,
            next_reserved_output,
            aggregate_limit,
        ),
{
    let within_limit = match aggregate_limit {
        Some(limit) => match already_reserved_output.checked_add(next_reserved_output) {
            Some(required) => required <= limit,
            None => false,
        },
        None => true,
    };
    prepared_turn_count < contract.recon.max_planner_turns as u64 && prepared_stage_turn_count
        < contract.recon.planner_attempts_per_stage as u64 && within_limit
}

/// Room for an attempt is not lost by having made fewer, by having reserved less or by a higher limit.
pub proof fn law_capacity_is_monotone(
    contract: Contract,
    turns: nat,
    fewer_turns: nat,
    stage_turns: nat,
    fewer_stage_turns: nat,
    reserved: u64,
    less_reserved: u64,
    next: u64,
    limit: Option<u64>,
    higher_limit: Option<u64>,
)
    requires
        has_capacity(contract, turns, stage_turns, reserved, next, limit),
        fewer_turns <= turns,
        fewer_stage_turns <= stage_turns,
        less_reserved <= reserved,
        match (limit, higher_limit) {
            (Some(low), Some(high)) => low <= high,
            (_, None) => true,
            (None, Some(_)) => false,
        },
    ensures
        has_capacity(
            contract,
            fewer_turns,
            fewer_stage_turns,
            less_reserved,
            next,
            higher_limit,
        ),
{
}

/// How far a turn came, where what happened to it fits together.
pub open spec fn recovery_of<'a>(turn: ReplayedPlannerTurn<'a>) -> Option<
    PlannerTurnRecoveryState<'a>,
> {
    let prepared_event = turn.prepared_event;
    match (turn.observed_event, turn.unknown_event, turn.decision_event) {
        (None, None, None) => Some(PlannerTurnRecoveryState::Prepared { prepared_event }),
        (Some(observed_event), None, None) => Some(
            PlannerTurnRecoveryState::Observed { prepared_event, observed_event },
        ),
        (None, Some(unknown_event), None) => Some(
            PlannerTurnRecoveryState::Unknown { prepared_event, unknown_event },
        ),
        (Some(observed_event), None, Some(decision)) => match decision.payload {
            EventPayload::PlannerTurnAcceptedV1(_) => Some(
                PlannerTurnRecoveryState::Accepted {
                    prepared_event,
                    observed_event,
                    accepted_event: decision,
                },
            ),
            EventPayload::PlannerTurnRejectedV1(_) => Some(
                PlannerTurnRecoveryState::Rejected {
                    prepared_event,
                    observed_event,
                    rejected_event: decision,
                },
            ),
            _ => None,
        },
        _ => None,
    }
}

fn recover_turn<'a>(turn: &ReplayedPlannerTurn<'a>) -> (r: Option<PlannerTurnRecoveryState<'a>>)
    ensures
        r == recovery_of(*turn),
{
    let prepared_event = turn.prepared_event;
    match (turn.observed_event, turn.unknown_event, turn.decision_event) {
        (None, None, None) => Some(PlannerTurnRecoveryState::Prepared { prepared_event }),
        (Some(observed_event), None, None) => Some(
            PlannerTurnRecoveryState::Observed { prepared_event, observed_event },
        ),
        (None, Some(unknown_event), None) => Some(
            PlannerTurnRecoveryState::Unknown { prepared_event, unknown_event },
        ),
        (Some(observed_event), None, Some(decision)) => match &decision.payload {
            EventPayload::PlannerTurnAcceptedV1(_) => Some(
                PlannerTurnRecoveryState::Accepted {
                    prepared_event,
                    observed_event,
                    accepted_event: decision,
                },
            ),
            EventPayload::PlannerTurnRejectedV1(_) => Some(
                PlannerTurnRecoveryState::Rejected {
                    prepared_event,
                    observed_event,
                    rejected_event: decision,
                },
            ),
            _ => None,
        },
        _ => None,
    }
}

/// A turn whose history is closed can always be recovered.
pub proof fn law_closed_turns_recover(turn: ReplayedPlannerTurn)
    requires
        crate::planner_v2_history::turn_is_closed(turn),
    ensures
        recovery_of(turn) is Some,
{
}

/// What follows from a turn whose outcome is unknown.
pub open spec fn after_unknown<'a>(
    turn: ReplayedPlannerTurn<'a>,
    prepared: &'a PlannerTurnPreparedV1,
    unknown: &'a EventEnvelope,
    retry_capacity: bool,
) -> Result<PlannerNextAction<'a>, StoreError> {
    match unknown.payload {
        EventPayload::PlannerTurnUnknownV1(end) => Ok(
            if retry_capacity && boundary_allows_retry(end.boundary) {
                PlannerNextAction::RetryPrepared {
                    purpose: prepared.purpose,
                    base_plan: &prepared.base_plan,
                    prior_prepared_event_id: turn.prepared_event.id,
                    terminal_event_id: unknown.id,
                }
            } else {
                PlannerNextAction::ReconcileUnknown {
                    turn_id: prepared.turn_id,
                    unknown_event_id: unknown.id,
                }
            },
        ),
        _ => Err(StoreError::InvalidStateEvent),
    }
}

fn act_after_unknown<'a>(
    turn: &ReplayedPlannerTurn<'a>,
    prepared: &'a PlannerTurnPreparedV1,
    unknown: &'a EventEnvelope,
    retry_capacity: bool,
) -> (r: Result<PlannerNextAction<'a>, StoreError>)
    ensures
        r == after_unknown(*turn, prepared, unknown, retry_capacity),
{
    match &unknown.payload {
        EventPayload::PlannerTurnUnknownV1(end) => Ok(
            if retry_capacity && boundary_allows_retry(end.boundary) {
                PlannerNextAction::RetryPrepared {
                    purpose: prepared.purpose,
                    base_plan: &prepared.base_plan,
                    prior_prepared_event_id: turn.prepared_event.id,
                    terminal_event_id: unknown.id,
                }
            } else {
                PlannerNextAction::ReconcileUnknown {
                    turn_id: prepared.turn_id,
                    unknown_event_id: unknown.id,
                }
            },
        ),
        _ => Err(StoreError::InvalidStateEvent),
    }
}

/// What follows from a turn that was observed to end and on which nothing was decided.
pub open spec fn after_observation<'a>(
    turn: ReplayedPlannerTurn<'a>,
    prepared: &'a PlannerTurnPreparedV1,
    observed: &'a EventEnvelope,
    outcome: PlannerTurnObservationV1,
    retry_capacity: bool,
) -> PlannerNextAction<'a> {
    match outcome {
        PlannerTurnObservationV1::Succeeded { .. } => PlannerNextAction::ValidateObserved {
            turn_id: prepared.turn_id,
            observed_event_id: observed.id,
        },
        PlannerTurnObservationV1::Failed { error } => if error.retry
            == RetryDisposition::RequiresNewAttempt && retry_capacity {
            PlannerNextAction::RetryPrepared {
                purpose: prepared.purpose,
                base_plan: &prepared.base_plan,
                prior_prepared_event_id: turn.prepared_event.id,
                terminal_event_id: observed.id,
            }
        } else {
            PlannerNextAction::FinalizeObservedFailure {
                turn_id: prepared.turn_id,
                observed_event_id: observed.id,
            }
        },
    }
}

fn act_after_observation<'a>(
    turn: &ReplayedPlannerTurn<'a>,
    prepared: &'a PlannerTurnPreparedV1,
    observed: &'a EventEnvelope,
    outcome: &PlannerTurnObservationV1,
    retry_capacity: bool,
) -> (r: PlannerNextAction<'a>)
    ensures
        r == after_observation(*turn, prepared, observed, *outcome, retry_capacity),
{
    match outcome {
        PlannerTurnObservationV1::Succeeded { .. } => PlannerNextAction::ValidateObserved {
            turn_id: prepared.turn_id,
            observed_event_id: observed.id,
        },
        PlannerTurnObservationV1::Failed { error } => if error.retry
            == RetryDisposition::RequiresNewAttempt && retry_capacity {
            PlannerNextAction::RetryPrepared {
                purpose: prepared.purpose,
                base_plan: &prepared.base_plan,
                prior_prepared_event_id: turn.prepared_event.id,
                terminal_event_id: observed.id,
            }
        } else {
            PlannerNextAction::FinalizeObservedFailure {
                turn_id: prepared.turn_id,
                observed_event_id: observed.id,
            }
        },
    }
}

/// Whether there is child evidence that an accepted turn has not seen: all that a first turn
/// delegated is done, or a child finished after any other turn was prepared.
pub open spec fn has_new_child_evidence(
    store: Store,
    session_id: SessionId,
    run_id: RunId,
    turn: ReplayedPlannerTurn,
    decision: EventEnvelope,
    accepted: PlannerTurnAcceptedV1,
    children: Seq<ChildRead>,
) -> Result<bool, StoreError> {
    match (accepted.purpose, accepted.resolved_directive) {
        (
            PlannerTurnPurposeV1::InitialDelegation,
            PlannerAcceptedDirectiveV1::Delegate { delegations },
        ) => crate::planner_v2_delegates::delegates_done(
            store,
            session_id,
            run_id,
            decision.id,
            decision.sequence,
            accepted.turn_id,
            delegations@,
            children,
        ),
        _ => Ok(
            latest_finish(store.log@, session_id, run_id) matches Some(sequence) && sequence
                > turn.prepared_event.sequence,
        ),
    }
}

fn finds_new_child_evidence(
    store: &Store,
    session_id: SessionId,
    run_id: RunId,
    turn: &ReplayedPlannerTurn,
    decision: &EventEnvelope,
    accepted: &PlannerTurnAcceptedV1,
    children: &Vec<ChildRead>,
) -> (r: Result<bool, StoreError>)
    ensures
        r == has_new_child_evidence(
            *store,
            session_id,
            run_id,
            *turn,
            *decision,
            *accepted,
            children@,
        ),
{
    match (accepted.purpose, &accepted.resolved_directive) {
        (
            PlannerTurnPurposeV1::InitialDelegation,
            PlannerAcceptedDirectiveV1::Delegate { delegations },
        ) => accepted_delegate_children_are_terminal(
            store,
            session_id,
            run_id,
            decision.id,
            decision.sequence,
            accepted.turn_id,
            delegations,
            children,
        ),
        _ => Ok(
            match latest_child_terminal_sequence(&store.log, session_id, run_id) {
                Some(sequence) => sequence > turn.prepared_event.sequence,
                None => false,
            },
        ),
    }
}

/// What follows from a turn that was decided.
pub open spec fn after_decision<'a>(
    store: Store,
    session_id: SessionId,
    run_id: RunId,
    turn: ReplayedPlannerTurn<'a>,
    decision: &'a EventEnvelope,
    children: Seq<ChildRead>,
) -> Result<PlannerNextAction<'a>, StoreError> {
    match decision.payload {
        EventPayload::PlannerTurnAcceptedV1(accepted) => match has_new_child_evidence(
            store,
            session_id,
            run_id,
            turn,
            *decision,
            accepted,
            children,
        ) {
            Err(error) => Err(error),
            Ok(is_new) => Ok(
                if is_new {
                    PlannerNextAction::ReadyToPrepare {
                        purpose: PlannerTurnPurposeV1::EvidenceReplan,
                        base_plan: Some(&accepted.resulting_plan),
                    }
                } else {
                    PlannerNextAction::ApplyAcceptedDirective {
                        accepted_event_id: decision.id,
                        directive: &accepted.resolved_directive,
                    }
                },
            ),
        },
        EventPayload::PlannerTurnRejectedV1(rejected) => Ok(
            PlannerNextAction::ResolveRejectedTurn {
                rejected_event_id: decision.id,
                reason: rejected.reason,
            },
        ),
        _ => Err(StoreError::InvalidStateEvent),
    }
}

fn act_after_decision<'a>(
    store: &Store,
    session_id: SessionId,
    run_id: RunId,
    turn: &ReplayedPlannerTurn<'a>,
    decision: &'a EventEnvelope,
    children: &Vec<ChildRead>,
) -> (r: Result<PlannerNextAction<'a>, StoreError>)
    ensures
        r == after_decision(*store, session_id, run_id, *turn, decision, children@),
{
    match &decision.payload {
        EventPayload::PlannerTurnAcceptedV1(accepted) => match finds_new_child_evidence(
            store,
            session_id,
            run_id,
            turn,
            decision,
            accepted,
            children,
        ) {
            Err(error) => Err(error),
            Ok(is_new) => Ok(
                if is_new {
                    PlannerNextAction::ReadyToPrepare {
                        purpose: PlannerTurnPurposeV1::EvidenceReplan,
                        base_plan: Some(&accepted.resulting_plan),
                    }
                } else {
                    PlannerNextAction::ApplyAcceptedDirective {
                        accepted_event_id: decision.id,
                        directive: &accepted.resolved_directive,
                    }
                },
            ),
        },
        EventPayload::PlannerTurnRejectedV1(rejected) => Ok(
            PlannerNextAction::ResolveRejectedTurn {
                rejected_event_id: decision.id,
                reason: rejected.reason,
            },
        ),
        _ => Err(StoreError::InvalidStateEvent),
    }
}

/// Whether the last turn may be attempted once more.
pub open spec fn retry_has_room(
    store: Store,
    session_id: SessionId,
    run_id: RunId,
    run: Run,
    prepared: PlannerTurnPreparedV1,
    reserved: u64,
) -> bool {
    has_capacity(
        store.contract,
        prepared_turns(store.log@, session_id, run_id),
        prepared_turns_for(store.log@, session_id, run_id, prepared.purpose),
        reserved,
        prepared.token_reservation.max_output_tokens,
        run.spec.limits.max_output_tokens,
    )
}

/// What the planner has to do next, as its last turn has it.
pub open spec fn next_action_of<'a>(
    store: Store,
    session_id: SessionId,
    run_id: RunId,
    run: Run,
    latest: Option<ReplayedPlannerTurn<'a>>,
    reads: ReconReads,
) -> Result<PlannerNextAction<'a>, StoreError> {
    match latest {
        None => Ok(
            PlannerNextAction::ReadyToPrepare {
                purpose: PlannerTurnPurposeV1::InitialDelegation,
                base_plan: None,
            },
        ),
        Some(turn) => match turn.prepared_event.payload {
            EventPayload::PlannerTurnPreparedV1(prepared) => match reads.reserved_output {
                Err(error) => Err(error),
                Ok(reserved) => {
                    let capacity = retry_has_room(
                        store,
                        session_id,
                        run_id,
                        run,
                        prepared,
                        reserved,
                    );
                    match (turn.unknown_event, turn.observed_event, turn.decision_event) {
                        (Some(unknown), _, _) => after_unknown(turn, &prepared, unknown, capacity),
                        (None, None, _) => Ok(
                            PlannerNextAction::RecoverPrepared {
                                turn_id: prepared.turn_id,
                                prepared_event_id: turn.prepared_event.id,
                            },
                        ),
                        (None, Some(observed), decision) => match observed.payload {
                            EventPayload::PlannerTurnObservedV1(end) => match decision {
                                None => Ok(
                                    after_observation(
                                        turn,
                                        &prepared,
                                        observed,
                                        end.outcome,
                                        capacity,
                                    ),
                                ),
                                Some(decision) => after_decision(
                                    store,
                                    session_id,
                                    run_id,
                                    turn,
                                    decision,
                                    reads.children@,
                                ),
                            },
                            _ => Err(StoreError::InvalidStateEvent),
                        },
                    }
                },
            },
            _ => Err(StoreError::InvalidStateEvent),
        },
    }
}

/// What the planner has to do next, as its last turn has it.
pub fn planner_next_action<'a>(
    store: &Store,
    session_id: SessionId,
    run_id: RunId,
    run: &Run,
    latest: Option<ReplayedPlannerTurn<'a>>,
    reads: &ReconReads,
) -> (r: Result<PlannerNextAction<'a>, StoreError>)
    ensures
        r == next_action_of(*store, session_id, run_id, *run, latest, *reads),
{
    let turn = match latest {
        Some(turn) => turn,
        None => return Ok(
            PlannerNextAction::ReadyToPrepare {
                purpose: PlannerTurnPurposeV1::InitialDelegation,
                base_plan: None,
            },
        ),
    };
    let prepared = match &turn.prepared_event.payload {
        EventPayload::PlannerTurnPreparedV1(prepared) => prepared,
        _ => return Err(StoreError::InvalidStateEvent),
    };
    let reserved: u64 = match reads.reserved_output {
        Ok(reserved) => reserved,
        Err(error) => return Err(error),
    };
    let capacity = planner_v2_retry_has_capacity(
        &store.contract,
        planner_v2_prepared_turn_count(&store.log, session_id, run_id),
        planner_v2_prepared_turn_count_for_purpose(
            &store.log,
            session_id,
            run_id,
            prepared.purpose,
        ),
        reserved,
        prepared.token_reservation.max_output_tokens,
        run.spec.limits.max_output_tokens,
    );
    match (turn.unknown_event, turn.observed_event, turn.decision_event) {
        (Some(unknown), _, _) => act_after_unknown(&turn, prepared, unknown, capacity),
        (None, None, _) => Ok(
            PlannerNextAction::RecoverPrepared {
                turn_id: prepared.turn_id,
                prepared_event_id: turn.prepared_event.id,
            },
        ),
        (None, Some(observed), decision) => match &observed.payload {
            EventPayload::PlannerTurnObservedV1(end) => match decision {
                None => Ok(
                    act_after_observation(&turn, prepared, observed, &end.outcome, capacity),
                ),
                Some(decision) => act_after_decision(
                    store,
                    session_id,
                    run_id,
                    &turn,
                    decision,
                    &reads.children,
                ),
            },
            _ => Err(StoreError::InvalidStateEvent),
        },
    }
}

/// The last accepted turn among some.
pub open spec fn latest_accepted<'a>(turns: Seq<ReplayedPlannerTurn<'a>>) -> Option<
    PlannerAcceptedDirectiveProjection<'a>,
>
    decreases turns.len(),
{
    if turns.len() == 0 {
        None
    } else {
        match acceptance_of(turns.last()) {
            Some(found) => Some(found),
            None => latest_accepted(turns.drop_last()),
        }
    }
}

/// The acceptance of a turn, if it was accepted.
pub open spec fn acceptance_of<'a>(turn: ReplayedPlannerTurn<'a>) -> Option<
    PlannerAcceptedDirectiveProjection<'a>,
> {
    match turn.decision_event {
        Some(event) => match event.payload {
            EventPayload::PlannerTurnAcceptedV1(accepted) => Some(
                PlannerAcceptedDirectiveProjection { event, accepted: &accepted },
            ),
            _ => None,
        },
        None => None,
    }
}

fn find_acceptance<'a>(turn: &ReplayedPlannerTurn<'a>) -> (r: Option<
    PlannerAcceptedDirectiveProjection<'a>,
>)
    ensures
        r == acceptance_of(*turn),
{
    match turn.decision_event {
        Some(event) => match &event.payload {
            EventPayload::PlannerTurnAcceptedV1(accepted) => Some(
                PlannerAcceptedDirectiveProjection { event, accepted },
            ),
            _ => None,
        },
        None => None,
    }
}

fn find_latest_accepted<'a>(turns: &Vec<ReplayedPlannerTurn<'a>>) -> (r: Option<
    PlannerAcceptedDirectiveProjection<'a>,
>)
    ensures
        r == latest_accepted(turns@),
{
    let mut n: usize = turns.len();
    assert(turns@.take(turns@.len() as int) =~= turns@);
    while n > 0
        invariant
            n <= turns@.len(),
            latest_accepted(turns@) == latest_accepted(turns@.take(n as int)),
        decreases n,
    {
        assert(turns@.take(n as int).drop_last() =~= turns@.take(n - 1));
        n -= 1;
        match find_acceptance(&turns[n]) {
            Some(found) => return Some(found),
            None => {},
        }
    }
    None
}

/// The evidence that a turn was prepared with.
pub open spec fn evidence_of<'a>(turn: ReplayedPlannerTurn<'a>) -> Option<
    PlannerEvidenceProjection<'a>,
> {
    match turn.prepared_event.payload {
        EventPayload::PlannerTurnPreparedV1(prepared) => Some(
            PlannerEvidenceProjection {
                prepared_event_id: turn.prepared_event.id,
                packet: &prepared.durable_evidence_packet,
                packet_artifact: &prepared.durable_evidence_packet_artifact,
                packet_digest: &prepared.durable_evidence_packet_digest,
                delta: &prepared.durable_evidence_delta,
                delta_artifact: &prepared.durable_evidence_delta_artifact,
                delta_digest: &prepared.durable_evidence_delta_digest,
            },
        ),
        _ => None,
    }
}

fn project_evidence<'a>(turn: &ReplayedPlannerTurn<'a>) -> (r: Option<PlannerEvidenceProjection<'a>>)
    ensures
        r == evidence_of(*turn),
{
    match &turn.prepared_event.payload {
        EventPayload::PlannerTurnPreparedV1(prepared) => Some(
            PlannerEvidenceProjection {
                prepared_event_id: turn.prepared_event.id,
                packet: &prepared.durable_evidence_packet,
                packet_artifact: &prepared.durable_evidence_packet_artifact,
                packet_digest: &prepared.durable_evidence_packet_digest,
                delta: &prepared.durable_evidence_delta,
                delta_artifact: &prepared.durable_evidence_delta_artifact,
                delta_digest: &prepared.durable_evidence_delta_digest,
            },
        ),
        _ => None,
    }
}

/// The plan that a turn builds on.
pub open spec fn base_of<'a>(turn: ReplayedPlannerTurn<'a>) -> Option<
    &'a PlannerBasePlanBindingV1,
> {
    match turn.prepared_event.payload {
        EventPayload::PlannerTurnPreparedV1(prepared) => Some(&prepared.base_plan),
        _ => None,
    }
}

fn project_base<'a>(turn: &ReplayedPlannerTurn<'a>) -> (r: Option<&'a PlannerBasePlanBindingV1>)
    ensures
        r == base_of(*turn),
{
    match &turn.prepared_event.payload {
        EventPayload::PlannerTurnPreparedV1(prepared) => Some(&prepared.base_plan),
        _ => None,
    }
}

/// The last claim on a run.
pub open spec fn claim_of<'a>(
    events: Seq<EventEnvelope>,
    session_id: SessionId,
    run_id: RunId,
) -> Result<Option<DurableRunClaimProjection<'a>>, StoreError> {
    match crate::claim_history::latest_claim_of(events, session_id, run_id) {
        None => Ok(None),
        Some(event) => match event.payload {
            EventPayload::RunClaimed(claim) => Ok(
                Some(DurableRunClaimProjection { event: &event, claim: &claim }),
            ),
            _ => Err(StoreError::InvalidStateEvent),
        },
    }
}

fn project_claim<'a>(log: &'a EventLog, session_id: SessionId, run_id: RunId) -> (r: Result<
    Option<DurableRunClaimProjection<'a>>,
    StoreError,
>)
    ensures
        r == claim_of(log@, session_id, run_id),
{
    match latest_claim_for_run(log, session_id, run_id) {
        None => Ok(None),
        Some(event) => match &event.payload {
            EventPayload::RunClaimed(claim) => Ok(Some(DurableRunClaimProjection { event, claim })),
            _ => Err(StoreError::InvalidStateEvent),
        },
    }
}

/// The event that brought a run to its end, if it is over.
pub open spec fn end_event<'a>(
    events: Seq<EventEnvelope>,
    session_id: SessionId,
    run_id: RunId,
    row: RunStateRow,
) -> Result<Option<&'a EventEnvelope>, StoreError> {
    if !is_terminal_run_state(row.state) {
        Ok(None)
    } else {
        match EventQuery::in_run(session_id, run_id, PayloadFilter::Any).starting_at(
            row.state_sequence,
        ).first_of(events) {
            None => Err(StoreError::InvalidStateEvent),
            Some(event) => if event.sequence == row.state_sequence && (
            event.payload matches EventPayload::RunStateChanged { to, .. } && to == row.state) {
                Ok(Some(&event))
            } else {
                Err(StoreError::InvalidStateEvent)
            },
        }
    }
}

fn project_end<'a>(
    log: &'a EventLog,
    session_id: SessionId,
    run_id: RunId,
    row: RunStateRow,
) -> (r: Result<Option<&'a EventEnvelope>, StoreError>)
    ensures
        r == end_event(log@, session_id, run_id, row),
{
    if !is_terminal_run_state(row.state) {
        return Ok(None);
    }
    match log.first(
        &EventQuery::in_run(session_id, run_id, PayloadFilter::Any).starting_at(row.state_sequence),
    ) {
        None => Err(StoreError::InvalidStateEvent),
        Some(event) => match &event.payload {
            EventPayload::RunStateChanged { from: _, to } => if event.sequence
                == row.state_sequence && *to == row.state {
                Ok(Some(event))
            } else {
                Err(StoreError::InvalidStateEvent)
            },
            _ => Err(StoreError::InvalidStateEvent),
        },
    }
}

/// What guards a run. A cancellation of no generation is refused.
pub open spec fn guard_of<'a>(
    events: Seq<EventEnvelope>,
    session_id: SessionId,
    run_id: RunId,
    row: RunStateRow,
) -> Result<ReconRunGuardProjection<'a>, StoreError> {
    match claim_of(events, session_id, run_id) {
        Err(error) => Err(error),
        Ok(latest_claim) => {
            let cancellation = crate::claim_history::latest_cancellation_before_of(
                events,
                session_id,
                run_id,
                MAX_SEQUENCE,
            );
            let generation = crate::claim_history::generation_in(cancellation);
            if cancellation is Some && generation == 0 {
                Err(StoreError::InvalidStateEvent)
            } else {
                match end_event(events, session_id, run_id, row) {
                    Err(error) => Err(error),
                    Ok(terminal_state_event) => Ok(
                        ReconRunGuardProjection {
                            latest_claim,
                            cancellation_event: match cancellation {
                                Some(event) => Some(&event),
                                None => None,
                            },
                            cancellation_generation: generation,
                            claim_matches_cancellation_generation: latest_claim matches Some(claim)
                                && claim.claim.cancellation_generation == generation,
                            terminal_state_event,
                        },
                    ),
                }
            }
        },
    }
}

fn generation_of(cancellation: Option<&EventEnvelope>) -> (r: u64)
    ensures
        r == crate::claim_history::generation_in(
            match cancellation {
                Some(event) => Some(*event),
                None => None,
            },
        ),
{
    match cancellation {
        Some(event) => match &event.payload {
            EventPayload::CancellationRequested(requested) => requested.cancellation_generation,
            _ => 0,
        },
        None => 0,
    }
}

fn project_guard<'a>(
    log: &'a EventLog,
    session_id: SessionId,
    run_id: RunId,
    row: RunStateRow,
) -> (r: Result<ReconRunGuardProjection<'a>, StoreError>)
    ensures
        r == guard_of(log@, session_id, run_id, row),
{
    let latest_claim = match project_claim(log, session_id, run_id) {
        Ok(latest_claim) => latest_claim,
        Err(error) => return Err(error),
    };
    let cancellation_event = latest_cancellation_for_run_before(
        log,
        session_id,
        run_id,
        MAX_SEQUENCE,
    );
    let cancellation_generation: u64 = generation_of(cancellation_event);
    if cancellation_event.is_some() && cancellation_generation == 0 {
        return Err(StoreError::InvalidStateEvent);
    }
    let claim_matches_cancellation_generation = match &latest_claim {
        Some(claim) => claim.claim.cancellation_generation == cancellation_generation,
        None => false,
    };
    match project_end(log, session_id, run_id, row) {
        Ok(terminal_state_event) => Ok(
            ReconRunGuardProjection {
                latest_claim,
                cancellation_event,
                cancellation_generation,
                claim_matches_cancellation_generation,
                terminal_state_event,
            },
        ),
        Err(error) => Err(error),
    }
}

/// What has to be done next: an end, a cancellation, a missing claim, a passed gate and a missing root
/// plan come before the turns, in this order.
pub open spec fn due_action<'a>(
    store: Store,
    run: Run,
    row: RunStateRow,
    guard: ReconRunGuardProjection<'a>,
    gate: Option<EventId>,
    root: Option<PlannerAcceptedRootPlanEvidenceV2>,
    latest: Option<ReplayedPlannerTurn<'a>>,
    reads: ReconReads,
) -> Result<PlannerNextAction<'a>, StoreError> {
    match (guard.terminal_state_event, guard.cancellation_event) {
        (Some(terminal), _) => Ok(
            PlannerNextAction::Terminal { state: row.state, state_event_id: terminal.id },
        ),
        (None, Some(cancellation)) => Ok(
            PlannerNextAction::CancellationRequested {
                cancellation_event_id: cancellation.id,
                cancellation_generation: guard.cancellation_generation,
            },
        ),
        (None, None) => if row.state != RunState::Running
            || !guard.claim_matches_cancellation_generation {
            Ok(PlannerNextAction::AwaitRunClaim)
        } else {
            match (gate, root) {
                (Some(gate_event_id), _) => Ok(
                    PlannerNextAction::FinalizeCompletionGate { gate_event_id },
                ),
                (None, None) => Ok(PlannerNextAction::AwaitAcceptedRootPlan),
                (None, Some(_)) => next_action_of(
                    store,
                    run.spec.session_id,
                    run.id,
                    run,
                    latest,
                    reads,
                ),
            }
        },
    }
}

fn find_due_action<'a>(
    store: &Store,
    run: &Run,
    row: RunStateRow,
    guard: &ReconRunGuardProjection<'a>,
    gate: Option<EventId>,
    root: &Option<PlannerAcceptedRootPlanEvidenceV2>,
    latest: Option<ReplayedPlannerTurn<'a>>,
    reads: &ReconReads,
) -> (r: Result<PlannerNextAction<'a>, StoreError>)
    ensures
        r == due_action(*store, *run, row, *guard, gate, *root, latest, *reads),
{
    match (guard.terminal_state_event, guard.cancellation_event) {
        (Some(terminal), _) => Ok(
            PlannerNextAction::Terminal { state: row.state, state_event_id: terminal.id },
        ),
        (None, Some(cancellation)) => Ok(
            PlannerNextAction::CancellationRequested {
                cancellation_event_id: cancellation.id,
                cancellation_generation: guard.cancellation_generation,
            },
        ),
        (None, None) => if row.state != RunState::Running
            || !guard.claim_matches_cancellation_generation {
            Ok(PlannerNextAction::AwaitRunClaim)
        } else {
            match (gate, root) {
                (Some(gate_event_id), _) => Ok(
                    PlannerNextAction::FinalizeCompletionGate { gate_event_id },
                ),
                (None, None) => Ok(PlannerNextAction::AwaitAcceptedRootPlan),
                (None, Some(_)) => planner_next_action(
                    store,
                    run.spec.session_id,
                    run.id,
                    run,
                    latest,
                    reads,
                ),
            }
        },
    }
}

/// The last of some turns.
pub open spec fn last_turn<'a>(turns: Seq<ReplayedPlannerTurn<'a>>) -> Option<
    ReplayedPlannerTurn<'a>,
> {
    if turns.len() == 0 {
        None
    } else {
        Some(turns.last())
    }
}

/// Where the planner stands after some turns.
pub open spec fn planner_of<'a>(
    store: Store,
    run: Run,
    row: RunStateRow,
    guard: ReconRunGuardProjection<'a>,
    gate: Option<EventId>,
    root: Option<PlannerAcceptedRootPlanEvidenceV2>,
    turns: Seq<ReplayedPlannerTurn<'a>>,
    reads: ReconReads,
) -> Result<PlannerRunProjection<'a>, StoreError> {
    let latest = last_turn(turns);
    let accepted_directive = latest_accepted(turns);
    let latest_accepted_plan = match accepted_directive {
        Some(found) => Some(&found.accepted.resulting_plan),
        None => None,
    };
    let base_plan = match latest {
        Some(turn) => base_of(turn),
        None => None,
    };
    let latest_evidence = match latest {
        Some(turn) => evidence_of(turn),
        None => None,
    };
    let recovery = match latest {
        Some(turn) => recovery_of(turn),
        None => Some(PlannerTurnRecoveryState::Idle),
    };
    if latest is Some && (base_plan is None || latest_evidence is None) || recovery is None {
        Err(StoreError::InvalidStateEvent)
    } else {
        match due_action(store, run, row, guard, gate, root, latest, reads) {
            Err(error) => Err(error),
            Ok(next_action) => Ok(
                PlannerRunProjection {
                    accepted_root_plan: root,
                    current_base_plan: if latest_accepted_plan is Some {
                        latest_accepted_plan
                    } else {
                        base_plan
                    },
                    latest_accepted_plan,
                    latest_evidence,
                    accepted_directive,
                    recovery: recovery->0,
                    next_action,
                    prepared_turn_count: turns.len() as u32,
                },
            ),
        }
    }
}

fn project_planner<'a>(
    store: &Store,
    run: &Run,
    row: RunStateRow,
    guard: &ReconRunGuardProjection<'a>,
    gate: Option<EventId>,
    root: Option<PlannerAcceptedRootPlanEvidenceV2>,
    turns: &Vec<ReplayedPlannerTurn<'a>>,
    reads: &ReconReads,
) -> (r: Result<PlannerRunProjection<'a>, StoreError>)
    ensures
        r == planner_of(*store, *run, row, *guard, gate, root, turns@, *reads),
{
    let latest = if turns.len() == 0 {
        None
    } else {
        Some(turns[turns.len() - 1])
    };
    let accepted_directive = find_latest_accepted(turns);
    let latest_accepted_plan = match accepted_directive {
        Some(found) => Some(&found.accepted.resulting_plan),
        None => None,
    };
    let (base_plan, latest_evidence, recovery) = match &latest {
        Some(turn) => {
            let base_plan = project_base(turn);
            let latest_evidence = project_evidence(turn);
            if base_plan.is_none() || latest_evidence.is_none() {
                return Err(StoreError::InvalidStateEvent);
            }
            match recover_turn(turn) {
                Some(recovery) => (base_plan, latest_evidence, recovery),
                None => return Err(StoreError::InvalidStateEvent),
            }
        },
        None => (None, None, PlannerTurnRecoveryState::Idle),
    };
    match find_due_action(store, run, row, guard, gate, &root, latest, reads) {
        Ok(next_action) => Ok(
            PlannerRunProjection {
                accepted_root_plan: root,
                current_base_plan: match latest_accepted_plan {
                    Some(plan) => Some(plan),
                    None => base_plan,
                },
                latest_accepted_plan,
                latest_evidence,
                accepted_directive,
                recovery,
                next_action,
                prepared_turn_count: turns.len() as u32,
            },
        ),
        Err(error) => Err(error),
    }
}

/// Where a run of its session stands.
#[verifier::opaque]
pub open spec fn projected_run<'a>(
    store: Store,
    run: Run,
    row: RunStateRow,
    reads: ReconReads,
) -> Result<ReconRunProjection<'a>, StoreError> {
    let events = store.log@;
    let session_id = run.spec.session_id;
    match crate::planning_ground::latest_event(events, session_id, run.id) {
        None => Err(StoreError::InvalidStateEvent),
        Some(last_event) => match guard_of(events, session_id, run.id, row) {
            Err(error) => Err(error),
            Ok(guard) => match crate::planner_v2_sources::accepted_root_plan(
                events,
                session_id,
                run.id,
            ) {
                Err(error) => Err(error),
                Ok(root) => match reads.completion_gate {
                    Err(error) => Err(error),
                    Ok(gate) => match crate::planner_v2_history::turn_history(
                        store,
                        session_id,
                        run.id,
                        reads.turns@,
                    ) {
                        Err(error) => Err(error),
                        Ok(turns) => match planner_of(
                            store,
                            run,
                            row,
                            guard,
                            gate,
                            root,
                            turns,
                            reads,
                        ) {
                            Err(error) => Err(error),
                            Ok(planner) => Ok(
                                ReconRunProjection {
                                    session_id,
                                    run_id: run.id,
                                    run_state: row.state,
                                    last_event: &last_event,
                                    guard,
                                    planner,
                                    completion_gate: gate,
                                },
                            ),
                        },
                    },
                },
            },
        },
    }
}

fn project_run<'a>(store: &'a Store, run: &Run, row: RunStateRow, reads: &ReconReads) -> (r: Result<
    ReconRunProjection<'a>,
    StoreError,
>)
    ensures
        r == projected_run(*store, *run, row, *reads),
        r matches Ok(projection) ==> projection.run_id == run.id,
{
    proof {
        reveal(projected_run);
    }
    let session_id = run.spec.session_id;
    let last_event = match store.log.last(
        &EventQuery::in_run(session_id, run.id, PayloadFilter::Any),
    ) {
        Some(last_event) => last_event,
        None => return Err(StoreError::InvalidStateEvent),
    };
    let guard = match project_guard(&store.log, session_id, run.id, row) {
        Ok(guard) => guard,
        Err(error) => return Err(error),
    };
    let root = match accepted_root_plan_projection(&store.log, session_id, run.id) {
        Ok(root) => root,
        Err(error) => return Err(error),
    };
    let gate = match reads.completion_gate {
        Ok(gate) => gate,
        Err(error) => return Err(error),
    };
    let turns = match planner_v2_history(store, session_id, run.id, &reads.turns) {
        Ok(turns) => turns,
        Err(error) => return Err(error),
    };
    match project_planner(store, run, row, &guard, gate, root, &turns, reads) {
        Ok(planner) => Ok(
            ReconRunProjection {
                session_id,
                run_id: run.id,
                run_state: row.state,
                last_event,
                guard,
                planner,
                completion_gate: gate,
            },
        ),
        Err(error) => Err(error),
    }
}

/// The run with its projected state, where the store has both, for one session.
pub open spec fn run_with_state(store: Store, run_id: RunId) -> Option<(Run, RunStateRow)> {
    match (store.run_record(run_id), store.state_record(run_id)) {
        (Some(run), Some(row)) => if row.session_id == run.spec.session_id {
            Some((run, row))
        } else {
            None
        },
        _ => None,
    }
}

/// Where a reconnaissance run stands; nothing, where there is no such run. Any other run is refused.
pub open spec fn projected<'a>(store: Store, run_id: RunId, reads: ReconReads) -> Result<
    Option<ReconRunProjection<'a>>,
    StoreError,
> {
    match run_with_state(store, run_id) {
        None => Ok(None),
        Some((run, row)) => if run.id != run_id || run.spec.purpose
            != RunPurpose::ParallelRepositoryReconnaissanceV1 {
            Err(StoreError::InvalidStateEvent)
        } else {
            match projected_run(store, run, row, reads) {
                Err(error) => Err(error),
                Ok(projection) => Ok(Some(projection)),
            }
        },
    }
}

/// Where a reconnaissance run stands; nothing, where there is no such run. Any other run is refused.
pub fn project_recon_run<'a>(store: &'a Store, run_id: RunId, reads: &ReconReads) -> (r: Result<
    Option<ReconRunProjection<'a>>,
    StoreError,
>)
    ensures
        r == projected(*store, run_id, *reads),
        r matches Ok(Some(projection)) ==> projection.run_id == run_id,
{
    let run = match store.durable_run(run_id) {
        Ok(run) => run,
        Err(_) => return Ok(None),
    };
    let row = match store.run_state(run_id) {
        Some(row) => row,
        None => return Ok(None),
    };
    if row.session_id != run.spec.session_id {
        return Ok(None);
    }
    if run.id != run_id || run.spec.purpose != RunPurpose::ParallelRepositoryReconnaissanceV1 {
        return Err(StoreError::InvalidStateEvent);
    }
    match project_run(store, run, row, reads) {
        Ok(projection) => Ok(Some(projection)),
        Err(error) => Err(error),
    }
}

/// Whether the last turn of a run is exactly one prepared turn that is still open.
pub open spec fn is_open_turn(projection: ReconRunProjection, event: EventEnvelope) -> bool {
    match projection.planner.recovery {
        PlannerTurnRecoveryState::Prepared { prepared_event } => prepared_event.id == event.id
            && crate::planner_v2_delegates::same_event(*prepared_event, event),
        _ => false,
    }
}

/// What is found of the turn that is open, and the request that it retained.
pub open spec fn open_turn_verdict(
    store: Store,
    prepared_event: EventEnvelope,
    recon: ReconReads,
    base: Result<PlannerReplannerV2PlanSnapshot, StoreError>,
    reads: PlannerPromptReads,
) -> Result<(), StoreError> {
    match prepared_event.run_id {
        None => Err(StoreError::InvalidStateEvent),
        Some(run_id) => match projected(store, run_id, recon) {
            Err(error) => Err(error),
            Ok(None) => Err(StoreError::InvalidStateEvent),
            Ok(Some(projection)) => if !is_open_turn(projection, prepared_event) {
                Err(StoreError::InvalidStateEvent)
            } else {
                crate::planner_v2_request::committed_verdict(
                    store.contract,
                    prepared_event,
                    base,
                    reads,
                )
            },
        },
    }
}

/// The turn that is open, with the request that it retained; refused where another turn is open, or
/// none.
pub fn planner_v2_current_prepared_material<'a>(
    store: &Store,
    prepared_event: &'a EventEnvelope,
    recon: &ReconReads,
    base: Result<PlannerReplannerV2PlanSnapshot, StoreError>,
    reads: PlannerPromptReads,
) -> (r: Result<PlannerV2PreparedMaterial<'a>, StoreError>)
    ensures
        match (r, open_turn_verdict(*store, *prepared_event, *recon, base, reads)) {
            (Ok(material), Ok(())) => *material.prepared_event == *prepared_event
                && crate::planner_v2_request::is_validated(
                material.request,
                crate::planner_v2_terminal::turn_in(*prepared_event)->0,
                base->Ok_0,
                reads,
            ),
            (Err(error), Err(expected)) => error == expected,
            _ => false,
        },
{
    let run_id = match prepared_event.run_id {
        Some(run_id) => run_id,
        None => return Err(StoreError::InvalidStateEvent),
    };
    let projection = match project_recon_run(store, run_id, recon) {
        Ok(Some(projection)) => projection,
        Ok(None) => return Err(StoreError::InvalidStateEvent),
        Err(error) => return Err(error),
    };
    let is_open = match projection.planner.recovery {
        PlannerTurnRecoveryState::Prepared { prepared_event: active } => active.id
            == prepared_event.id && is_same_event(active, prepared_event),
        _ => false,
    };
    if !is_open {
        return Err(StoreError::InvalidStateEvent);
    }
    planner_v2_committed_material(&store.contract, prepared_event, base, reads)
}

/// A run that is over, or that was cancelled, has nothing prepared for it any more: the planner is
/// never told to prepare, to retry or to validate.
pub proof fn law_ended_runs_do_not_plan(store: Store, run_id: RunId, reads: ReconReads)
    requires
        projected(store, run_id, reads) matches Ok(Some(projection)) && (
        projection.guard.terminal_state_event is Some || projection.guard.cancellation_event is Some),
    ensures
        projected(store, run_id, reads) matches Ok(Some(projection)) && (
        projection.planner.next_action is Terminal
            || projection.planner.next_action is CancellationRequested),
{
    reveal(projected_run);
}

/// The planner is told to do anything with a turn only while the run is running, under a claim of the
/// current cancellation generation, with an accepted root plan and no passed gate.
pub proof fn law_turns_need_a_live_run(store: Store, run_id: RunId, reads: ReconReads)
    requires
        projected(store, run_id, reads) matches Ok(Some(projection)) && (
        projection.planner.next_action is ReadyToPrepare
            || projection.planner.next_action is RetryPrepared
            || projection.planner.next_action is ValidateObserved),
    ensures
        projected(store, run_id, reads) matches Ok(Some(projection)) && {
            &&& projection.run_state == RunState::Running
            &&& projection.guard.claim_matches_cancellation_generation
            &&& projection.guard.cancellation_event is None
            &&& projection.completion_gate is None
            &&& projection.planner.accepted_root_plan is Some
        },
{
    reveal(projected_run);
}

/// What is to be done with a turn is told by how far it came, and names its own events: an open turn
/// is recovered; one without an outcome is reconciled, or tried again after a restart, a shutdown or a
/// lost claim; a failure is tried again where it asks for that, or finalized; a success is validated;
/// a rejection is resolved; and an acceptance is applied, or replanned on from the plan that it
/// results in. A turn is never begun from the start again, and is tried again only where the run, its
/// stage and its output leave room.
pub proof fn law_action_follows_the_last_turn<'a>(
    store: Store,
    session_id: SessionId,
    run_id: RunId,
    run: Run,
    turn: ReplayedPlannerTurn<'a>,
    prepared: PlannerTurnPreparedV1,
    reads: ReconReads,
    action: PlannerNextAction<'a>,
)
    requires
        turn.prepared_event.payload == EventPayload::PlannerTurnPreparedV1(prepared),
        next_action_of(store, session_id, run_id, run, Some(turn), reads) == Ok::<
            PlannerNextAction<'a>,
            StoreError,
        >(action),
    ensures
        match action {
            PlannerNextAction::ReadyToPrepare { purpose, base_plan } => {
                &&& purpose == PlannerTurnPurposeV1::EvidenceReplan
                &&& turn.decision_event matches Some(decision)
                &&& decision.payload matches EventPayload::PlannerTurnAcceptedV1(accepted)
                &&& base_plan matches Some(plan) && *plan == accepted.resulting_plan
                &&& turn.unknown_event is None && turn.observed_event is Some
            },
            PlannerNextAction::ApplyAcceptedDirective { accepted_event_id, directive } => {
                &&& turn.decision_event matches Some(decision)
                &&& accepted_event_id == decision.id
                &&& decision.payload matches EventPayload::PlannerTurnAcceptedV1(accepted)
                &&& *directive == accepted.resolved_directive
                &&& turn.unknown_event is None && turn.observed_event is Some
            },
            PlannerNextAction::ResolveRejectedTurn { rejected_event_id, reason } => {
                &&& turn.decision_event matches Some(decision)
                &&& rejected_event_id == decision.id
                &&& decision.payload matches EventPayload::PlannerTurnRejectedV1(rejected)
                &&& reason == rejected.reason
                &&& turn.unknown_event is None && turn.observed_event is Some
            },
            PlannerNextAction::RecoverPrepared { turn_id, prepared_event_id } => {
                &&& turn_id == prepared.turn_id
                &&& prepared_event_id == turn.prepared_event.id
                &&& turn.unknown_event is None && turn.observed_event is None
            },
            PlannerNextAction::ReconcileUnknown { turn_id, unknown_event_id } => {
                &&& turn_id == prepared.turn_id
                &&& turn.unknown_event matches Some(unknown)
                &&& unknown_event_id == unknown.id
                &&& unknown.payload matches EventPayload::PlannerTurnUnknownV1(end)
                &&& !has_capacity(
                    store.contract,
                    prepared_turns(store.log@, session_id, run_id),
                    prepared_turns_for(store.log@, session_id, run_id, prepared.purpose),
                    reads.reserved_output->Ok_0,
                    prepared.token_reservation.max_output_tokens,
                    run.spec.limits.max_output_tokens,
                ) || (end.boundary != crate::planning::UnknownInferenceBoundary::Restart
                    && end.boundary != crate::planning::UnknownInferenceBoundary::Shutdown
                    && end.boundary
                    != crate::planning::UnknownInferenceBoundary::ClaimRenewalFailed)
            },
            PlannerNextAction::ValidateObserved { turn_id, observed_event_id } => {
                &&& turn_id == prepared.turn_id
                &&& turn.observed_event matches Some(observed)
                &&& observed_event_id == observed.id
                &&& observed.payload matches EventPayload::PlannerTurnObservedV1(end)
                    && end.outcome is Succeeded
                &&& turn.unknown_event is None && turn.decision_event is None
            },
            PlannerNextAction::FinalizeObservedFailure { turn_id, observed_event_id } => {
                &&& turn_id == prepared.turn_id
                &&& turn.observed_event matches Some(observed)
                &&& observed_event_id == observed.id
                &&& observed.payload matches EventPayload::PlannerTurnObservedV1(end)
                &&& end.outcome matches PlannerTurnObservationV1::Failed { error }
                &&& turn.unknown_event is None && turn.decision_event is None
                &&& error.retry == RetryDisposition::RequiresNewAttempt ==> !has_capacity(
                    store.contract,
                    prepared_turns(store.log@, session_id, run_id),
                    prepared_turns_for(store.log@, session_id, run_id, prepared.purpose),
                    reads.reserved_output->Ok_0,
                    prepared.token_reservation.max_output_tokens,
                    run.spec.limits.max_output_tokens,
                )
            },
            PlannerNextAction::RetryPrepared {
                purpose,
                base_plan,
                prior_prepared_event_id,
                terminal_event_id,
            } => {
                &&& purpose == prepared.purpose
                &&& *base_plan == prepared.base_plan
                &&& prior_prepared_event_id == turn.prepared_event.id
                &&& prepared_turns(store.log@, session_id, run_id)
                    < store.contract.recon.max_planner_turns
                &&& prepared_turns_for(store.log@, session_id, run_id, prepared.purpose)
                    < store.contract.recon.planner_attempts_per_stage
                &&& run.spec.limits.max_output_tokens matches Some(limit) ==> (
                reads.reserved_output matches Ok(reserved) && reserved
                    + prepared.token_reservation.max_output_tokens <= limit)
                &&& match turn.unknown_event {
                    Some(unknown) => {
                        &&& terminal_event_id == unknown.id
                        &&& unknown.payload matches EventPayload::PlannerTurnUnknownV1(end)
                        &&& end.boundary == crate::planning::UnknownInferenceBoundary::Restart
                            || end.boundary == crate::planning::UnknownInferenceBoundary::Shutdown
                            || end.boundary
                            == crate::planning::UnknownInferenceBoundary::ClaimRenewalFailed
                    },
                    None => {
                        &&& turn.observed_event matches Some(observed)
                        &&& terminal_event_id == observed.id
                        &&& turn.decision_event is None
                        &&& observed.payload matches EventPayload::PlannerTurnObservedV1(end)
                        &&& end.outcome matches PlannerTurnObservationV1::Failed { error }
                        &&& error.retry == RetryDisposition::RequiresNewAttempt
                    },
                }
            },
            _ => false,
        },
{
}

/// Without a turn the planner is to delegate, and only then; nothing else is asked for before a turn
/// was prepared.
pub proof fn law_only_the_first_turn_delegates_from_the_start<'a>(
    store: Store,
    session_id: SessionId,
    run_id: RunId,
    run: Run,
    latest: Option<ReplayedPlannerTurn<'a>>,
    reads: ReconReads,
    action: PlannerNextAction<'a>,
)
    requires
        next_action_of(store, session_id, run_id, run, latest, reads) == Ok::<
            PlannerNextAction<'a>,
            StoreError,
        >(action),
    ensures
        latest is None <==> (action matches PlannerNextAction::ReadyToPrepare { purpose, base_plan }
            && purpose == PlannerTurnPurposeV1::InitialDelegation && base_plan is None),
        (action matches PlannerNextAction::ReadyToPrepare { purpose, .. } && purpose
            == PlannerTurnPurposeV1::InitialDelegation) ==> latest is None,
        (action matches PlannerNextAction::ReadyToPrepare { purpose, .. } && purpose
            == PlannerTurnPurposeV1::EvidenceReplan) ==> (latest matches Some(turn)
            && turn.decision_event is Some),
{
}

/// A turn whose events fit together always leads somewhere: while what the run reserved can be read,
/// there is an action for it, unless it rests on delegates whose authority is not sound.
pub proof fn law_closed_turns_lead_somewhere<'a>(
    store: Store,
    session_id: SessionId,
    run_id: RunId,
    run: Run,
    turn: ReplayedPlannerTurn<'a>,
    reads: ReconReads,
)
    requires
        crate::planner_v2_history::turn_is_closed(turn),
        turn.prepared_event.payload is PlannerTurnPreparedV1,
        reads.reserved_output is Ok,
        !(turn.decision_event matches Some(decision)
            && decision.payload matches EventPayload::PlannerTurnAcceptedV1(accepted)
            && accepted.purpose == PlannerTurnPurposeV1::InitialDelegation
            && accepted.resolved_directive is Delegate),
    ensures
        next_action_of(store, session_id, run_id, run, Some(turn), reads) is Ok,
{
}

/// After an acceptance that did not delegate from the start, the planner replans exactly where a child
/// finished after the turn was prepared; else it applies what was accepted.
pub proof fn law_replanning_needs_a_later_finish<'a>(
    store: Store,
    session_id: SessionId,
    run_id: RunId,
    turn: ReplayedPlannerTurn<'a>,
    decision: &'a EventEnvelope,
    accepted: PlannerTurnAcceptedV1,
    children: Seq<ChildRead>,
)
    requires
        crate::history::in_sequence(store.log@),
        decision.payload == EventPayload::PlannerTurnAcceptedV1(accepted),
        accepted.purpose != PlannerTurnPurposeV1::InitialDelegation
            || !(accepted.resolved_directive is Delegate),
    ensures
        after_decision(store, session_id, run_id, turn, decision, children) matches Ok(action) && (
        action is ReadyToPrepare <==> exists|i: int|
            #![trigger store.log@[i]]
            0 <= i < store.log@.len() && store.log@[i].session_id == session_id
                && store.log@[i].run_id == Some(run_id)
                && store.log@[i].payload is ChildExecutionFinished && store.log@[i].sequence
                > turn.prepared_event.sequence),
        after_decision(store, session_id, run_id, turn, decision, children) matches Ok(action) ==> (
        !(action is ReadyToPrepare) ==> action is ApplyAcceptedDirective),
{
    let query = EventQuery::in_run(session_id, run_id, PayloadFilter::ChildFinished);
    let ends = crate::history::law_selections_have_ends(query, store.log@);
    let later = turn.prepared_event.sequence;
    assert forall|i: int|
        0 <= i < store.log@.len() && (#[trigger] store.log@[i]).session_id == session_id
            && store.log@[i].run_id == Some(run_id)
            && store.log@[i].payload is ChildExecutionFinished implies query.admits(
        store.log@[i],
    ) && store.log@[i].sequence <= store.log@[ends.1].sequence by {
        assert(query.admits(store.log@[i]));
        assert(i <= ends.1);
        if i < ends.1 {
            assert(store.log@[i].session_id == store.log@[ends.1].session_id);
        }
    }
    if query.last_of(store.log@) is Some && store.log@[ends.1].sequence > later {
        assert(store.log@[ends.1].session_id == session_id);
    }
}

/// After a first delegation the planner replans exactly where everything that it delegated is done,
/// and refuses where the authority behind the delegates is not sound.
pub proof fn law_first_delegation_is_waited_for<'a>(
    store: Store,
    session_id: SessionId,
    run_id: RunId,
    turn: ReplayedPlannerTurn<'a>,
    decision: &'a EventEnvelope,
    accepted: PlannerTurnAcceptedV1,
    delegations: Vec<crate::planner_turn::PlannerAcceptedDelegationV1>,
    children: Seq<ChildRead>,
)
    requires
        decision.payload == EventPayload::PlannerTurnAcceptedV1(accepted),
        accepted.purpose == PlannerTurnPurposeV1::InitialDelegation,
        accepted.resolved_directive == (PlannerAcceptedDirectiveV1::Delegate { delegations }),
    ensures
        match (
            after_decision(store, session_id, run_id, turn, decision, children),
            crate::planner_v2_delegates::delegates_done(
                store,
                session_id,
                run_id,
                decision.id,
                decision.sequence,
                accepted.turn_id,
                delegations@,
                children,
            ),
        ) {
            (Ok(action), Ok(done)) => {
                &&& done <==> action is ReadyToPrepare
                &&& !done <==> action is ApplyAcceptedDirective
                &&& action matches PlannerNextAction::ReadyToPrepare { purpose, base_plan } ==> {
                    &&& purpose == PlannerTurnPurposeV1::EvidenceReplan
                    &&& base_plan matches Some(plan) && *plan == accepted.resulting_plan
                }
            },
            (Err(error), Err(refused)) => error == refused,
            _ => false,
        },
{
}

/// Where a run stands is told in one piece: its identity and state; its last event, which nothing of
/// the run follows; its last claim and cancellation; and how far its last turn came. A run without a
/// turn has none on record, and only such a run is told to delegate from the start.
pub proof fn law_projection_tells_where_the_run_stands<'a>(
    store: Store,
    run_id: RunId,
    reads: ReconReads,
    projection: ReconRunProjection<'a>,
) -> (place: int)
    requires
        projected(store, run_id, reads) == Ok::<Option<ReconRunProjection<'a>>, StoreError>(
            Some(projection),
        ),
    ensures
        projection.run_id == run_id,
        store.run_record(run_id) matches Some(run) && run.id == run_id && run.spec.purpose
            == RunPurpose::ParallelRepositoryReconnaissanceV1 && projection.session_id
            == run.spec.session_id,
        store.state_record(run_id) matches Some(row) && projection.run_state == row.state
            && row.session_id == projection.session_id,
        reads.completion_gate == Ok::<Option<EventId>, StoreError>(projection.completion_gate),
        0 <= place < store.log@.len(),
        store.log@[place] == *projection.last_event,
        projection.last_event.session_id == projection.session_id,
        projection.last_event.run_id == Some(run_id),
        forall|j: int|
            place < j < store.log@.len() && (#[trigger] store.log@[j]).session_id
                == projection.session_id ==> store.log@[j].run_id != Some(run_id),
        projection.planner.recovery is Idle ==> forall|j: int|
            0 <= j < store.log@.len() && (#[trigger] store.log@[j]).session_id
                == projection.session_id && store.log@[j].run_id == Some(run_id) ==> !(
            store.log@[j].payload is PlannerTurnPreparedV1) && !(
            store.log@[j].payload is PlannerTurnAcceptedV1),
        projection.planner.recovery is Idle ==> {
            &&& projection.planner.prepared_turn_count == 0
            &&& projection.planner.current_base_plan is None
            &&& projection.planner.latest_evidence is None
            &&& projection.planner.accepted_directive is None
        },
        (projection.planner.next_action matches PlannerNextAction::ReadyToPrepare { purpose, .. }
            && purpose == PlannerTurnPurposeV1::InitialDelegation)
            ==> projection.planner.recovery is Idle,
        projection.planner.next_action is ReadyToPrepare && projection.planner.recovery is Idle ==> (
        projection.planner.next_action matches PlannerNextAction::ReadyToPrepare {
            purpose,
            base_plan,
        } && purpose == PlannerTurnPurposeV1::InitialDelegation && base_plan is None),
        projection.planner.next_action is ReadyToPrepare && !(projection.planner.recovery is Idle)
            ==> projection.planner.recovery is Accepted,
        projection.planner.next_action is RecoverPrepared ==> projection.planner.recovery is Prepared,
        projection.planner.next_action is ValidateObserved
            ==> projection.planner.recovery is Observed,
        projection.planner.next_action is ReconcileUnknown
            ==> projection.planner.recovery is Unknown,
        projection.planner.next_action is ApplyAcceptedDirective
            ==> projection.planner.recovery is Accepted,
        projection.planner.next_action is ResolveRejectedTurn
            ==> projection.planner.recovery is Rejected,
        projection.planner.latest_accepted_plan matches Some(plan) ==> (
        projection.planner.accepted_directive matches Some(directive) && *plan
            == directive.accepted.resulting_plan && (
        projection.planner.current_base_plan matches Some(current) && *current == *plan)),
        projection.planner.accepted_directive matches Some(directive)
            ==> directive.event.payload == EventPayload::PlannerTurnAcceptedV1(
            *directive.accepted,
        ),
{
    reveal(projected_run);
    let session_id = projection.session_id;
    let any = EventQuery::in_run(session_id, run_id, PayloadFilter::Any);
    let ends = crate::history::law_selections_have_ends(any, store.log@);
    assert forall|j: int|
        0 <= j < store.log@.len() && (#[trigger] store.log@[j]).session_id == session_id
            && store.log@[j].run_id == Some(run_id) implies any.admits(store.log@[j]) by {}
    let turns_query = EventQuery::in_run(session_id, run_id, PayloadFilter::PlannerTurn);
    let events = crate::planner_v2_history::turn_events(store, session_id, run_id);
    let rows: Seq<&'a EventEnvelope> = crate::planner_v2_history::borrowed(events);
    let turns = crate::planner_v2_history::turn_history::<'a>(
        store,
        session_id,
        run_id,
        reads.turns@,
    )->Ok_0;
    crate::planner_v2_history::law_turns_are_never_lost(store, rows, reads.turns@, rows.len());
    lemma_latest_accepted_is_accepted(turns);
    assert forall|j: int|
        0 <= j < store.log@.len() && (#[trigger] store.log@[j]).session_id == session_id
            && store.log@[j].run_id == Some(run_id) && turns.len() == 0 implies !(
    store.log@[j].payload is PlannerTurnPreparedV1) && !(
    store.log@[j].payload is PlannerTurnAcceptedV1) by {
        if store.log@[j].payload is PlannerTurnPreparedV1
            || store.log@[j].payload is PlannerTurnAcceptedV1 {
            crate::history::law_ends_of_a_selection(turns_query, store.log@, j);
            assert(events.contains(store.log@[j]));
            assert(rows.len() == events.len());
        }
    }
    ends.1
}

proof fn lemma_latest_accepted_is_accepted<'a>(turns: Seq<ReplayedPlannerTurn<'a>>)
    ensures
        turns.len() == 0 ==> latest_accepted(turns) is None,
        latest_accepted(turns) matches Some(found) ==> found.event.payload
            == EventPayload::PlannerTurnAcceptedV1(*found.accepted),
    decreases turns.len(),
{
    if turns.len() > 0 {
        lemma_latest_accepted_is_accepted(turns.drop_last());
    }
}

/// How far a turn came is told by its own events, the last of them last.
pub proof fn law_recovery_names_the_events<'a>(
    turn: ReplayedPlannerTurn<'a>,
    state: PlannerTurnRecoveryState<'a>,
)
    requires
        recovery_of(turn) == Some(state),
    ensures
        match state {
            PlannerTurnRecoveryState::Idle => false,
            PlannerTurnRecoveryState::Prepared { prepared_event } => {
                &&& prepared_event == turn.prepared_event
                &&& turn.observed_event is None && turn.unknown_event is None
                &&& turn.decision_event is None
            },
            PlannerTurnRecoveryState::Observed { prepared_event, observed_event } => {
                &&& prepared_event == turn.prepared_event
                &&& turn.observed_event == Some(observed_event)
                &&& turn.unknown_event is None && turn.decision_event is None
            },
            PlannerTurnRecoveryState::Unknown { prepared_event, unknown_event } => {
                &&& prepared_event == turn.prepared_event
                &&& turn.unknown_event == Some(unknown_event)
                &&& turn.observed_event is None && turn.decision_event is None
            },
            PlannerTurnRecoveryState::Accepted {
                prepared_event,
                observed_event,
                accepted_event,
            } => {
                &&& prepared_event == turn.prepared_event
                &&& turn.observed_event == Some(observed_event)
                &&& turn.decision_event == Some(accepted_event)
                &&& accepted_event.payload is PlannerTurnAcceptedV1
            },
            PlannerTurnRecoveryState::Rejected {
                prepared_event,
                observed_event,
                rejected_event,
            } => {
                &&& prepared_event == turn.prepared_event
                &&& turn.observed_event == Some(observed_event)
                &&& turn.decision_event == Some(rejected_event)
                &&& rejected_event.payload is PlannerTurnRejectedV1
            },
        },
{
}

/// What guards a run is on record: its last claim, which no other claim follows; its last
/// cancellation, with its generation, or none and zero; whether the claim was made under that
/// generation; and, for a run that is over, the event that ended it in the state that it has.
pub proof fn law_guard_is_on_record<'a>(
    store: Store,
    session_id: SessionId,
    run_id: RunId,
    row: RunStateRow,
    guard: ReconRunGuardProjection<'a>,
) -> (places: (int, int))
    requires
        guard_of(store.log@, session_id, run_id, row) == Ok::<
            ReconRunGuardProjection<'a>,
            StoreError,
        >(guard),
        forall|i: int|
            0 <= i < store.log@.len() ==> (#[trigger] store.log@[i]).sequence < MAX_SEQUENCE,
    ensures
        match guard.latest_claim {
            Some(latest) => {
                &&& 0 <= places.0 < store.log@.len()
                &&& store.log@[places.0] == *latest.event
                &&& latest.event.session_id == session_id
                &&& latest.event.run_id == Some(run_id)
                &&& latest.event.payload == EventPayload::RunClaimed(*latest.claim)
                &&& forall|j: int|
                    places.0 < j < store.log@.len() && (#[trigger] store.log@[j]).session_id
                        == session_id && store.log@[j].run_id == Some(run_id) ==> !(
                    store.log@[j].payload is RunClaimed)
            },
            None => forall|j: int|
                0 <= j < store.log@.len() && (#[trigger] store.log@[j]).session_id == session_id
                    && store.log@[j].run_id == Some(run_id) ==> !(
                store.log@[j].payload is RunClaimed),
        },
        match guard.cancellation_event {
            Some(event) => {
                &&& 0 <= places.1 < store.log@.len()
                &&& store.log@[places.1] == *event
                &&& event.session_id == session_id
                &&& event.run_id == Some(run_id)
                &&& event.payload matches EventPayload::CancellationRequested(request)
                &&& guard.cancellation_generation == request.cancellation_generation
                &&& request.cancellation_generation != 0
                &&& forall|j: int|
                    places.1 < j < store.log@.len() && (#[trigger] store.log@[j]).session_id
                        == session_id && store.log@[j].run_id == Some(run_id) ==> !(
                    store.log@[j].payload is CancellationRequested)
            },
            None => guard.cancellation_generation == 0 && forall|j: int|
                0 <= j < store.log@.len() && (#[trigger] store.log@[j]).session_id == session_id
                    && store.log@[j].run_id == Some(run_id) ==> !(
                store.log@[j].payload is CancellationRequested),
        },
        guard.claim_matches_cancellation_generation <==> (guard.latest_claim matches Some(latest)
            && latest.claim.cancellation_generation == guard.cancellation_generation),
        guard.terminal_state_event is Some <==> (row.state == RunState::Completed || row.state
            == RunState::Failed || row.state == RunState::Cancelled),
        guard.terminal_state_event matches Some(event) ==> {
            &&& event.session_id == session_id
            &&& event.run_id == Some(run_id)
            &&& event.sequence == row.state_sequence
            &&& event.payload matches EventPayload::RunStateChanged { to, .. } && to == row.state
        },
{
    let claims = EventQuery::in_run(session_id, run_id, PayloadFilter::RunClaimed);
    let cancellations = EventQuery::in_run(
        session_id,
        run_id,
        PayloadFilter::CancellationRequested,
    ).before(MAX_SEQUENCE);
    let claim_ends = crate::history::law_selections_have_ends(claims, store.log@);
    let cancellation_ends = crate::history::law_selections_have_ends(cancellations, store.log@);
    assert forall|j: int|
        0 <= j < store.log@.len() && (#[trigger] store.log@[j]).session_id == session_id
            && store.log@[j].run_id == Some(run_id) implies (store.log@[j].payload is RunClaimed
        ==> claims.admits(store.log@[j])) && (store.log@[j].payload is CancellationRequested
        ==> cancellations.admits(store.log@[j])) by {}
    let at_end = EventQuery::in_run(session_id, run_id, PayloadFilter::Any).starting_at(
        row.state_sequence,
    );
    let ends = crate::history::law_selections_have_ends(at_end, store.log@);
    (claim_ends.1, cancellation_ends.1)
}

/// What comes before the turns comes in order: the end of a run, its cancellation, a missing claim or
/// a run that is not running, a passed gate, a missing root plan.
pub proof fn law_turns_wait_for_the_run<'a>(
    store: Store,
    run: Run,
    row: RunStateRow,
    guard: ReconRunGuardProjection<'a>,
    gate: Option<EventId>,
    root: Option<PlannerAcceptedRootPlanEvidenceV2>,
    latest: Option<ReplayedPlannerTurn<'a>>,
    reads: ReconReads,
    action: PlannerNextAction<'a>,
)
    requires
        due_action(store, run, row, guard, gate, root, latest, reads) == Ok::<
            PlannerNextAction<'a>,
            StoreError,
        >(action),
    ensures
        guard.terminal_state_event matches Some(event) ==> action == (PlannerNextAction::Terminal {
            state: row.state,
            state_event_id: event.id,
        }),
        action is Terminal ==> guard.terminal_state_event is Some,
        guard.terminal_state_event is None && guard.cancellation_event is Some ==> (
        guard.cancellation_event matches Some(event) && action == (
        PlannerNextAction::CancellationRequested {
            cancellation_event_id: event.id,
            cancellation_generation: guard.cancellation_generation,
        })),
        action is CancellationRequested ==> guard.cancellation_event is Some,
        action is AwaitRunClaim <==> guard.terminal_state_event is None
            && guard.cancellation_event is None && (row.state != RunState::Running
            || !guard.claim_matches_cancellation_generation),
        action matches PlannerNextAction::FinalizeCompletionGate { gate_event_id } ==> gate == Some(
            gate_event_id,
        ),
        gate is Some && guard.terminal_state_event is None && guard.cancellation_event is None
            && row.state == RunState::Running && guard.claim_matches_cancellation_generation
            ==> action is FinalizeCompletionGate,
        action is AwaitAcceptedRootPlan <==> gate is None && root is None
            && guard.terminal_state_event is None && guard.cancellation_event is None && row.state
            == RunState::Running && guard.claim_matches_cancellation_generation,
{
}

} // verus!

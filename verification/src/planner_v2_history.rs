//! The turns of a planner, replayed from the history of their run.

use vstd::prelude::*;
use crate::contract::Contract;
use crate::error::StoreError;
use crate::event::{EventEnvelope, EventPayload};
use crate::history::{EventQuery, PayloadFilter};
use crate::identity::{EventId, PlannerTurnId, RunId, SessionId};
use crate::planner_prompt::PlannerReplannerV2PlanSnapshot;
use crate::planner_turn::{
    PlannerTurnObservationV1, PlannerTurnObservedV1, PlannerTurnPreparedV1, PlannerTurnPurposeV1,
    PlannerTurnUnknownV1,
};
use crate::planner_v2_base::{
    read_planner_base_snapshot, validate_planner_base_authority, validate_planner_durable_evidence,
};
use crate::planner_v2_request::{check_planner_v2_retained_prompt, PlannerPromptReads};
use crate::planner_v2_terminal::{
    planner_terminal_claim_continuity, planner_terminal_clock_follows_prepared,
    PlannerTerminalClaimContinuity, PlannerTerminalClockBoundary,
};
use crate::planning::UnknownInferenceBoundary;
use crate::run::RetryDisposition;
use crate::store::Store;

verus! {

/// One turn: its preparation, how it ended, and what was decided on it.
#[derive(Clone, Copy, Debug)]
pub struct ReplayedPlannerTurn<'a> {
    pub prepared_event: &'a EventEnvelope,
    pub observed_event: Option<&'a EventEnvelope>,
    pub unknown_event: Option<&'a EventEnvelope>,
    pub decision_event: Option<&'a EventEnvelope>,
}

/// What is read for one preparation: the plan that it builds on, and the request that it retained.
#[derive(Debug)]
pub struct PreparationReads {
    pub base: Result<PlannerReplannerV2PlanSnapshot, StoreError>,
    pub prompt: PlannerPromptReads,
}

/// What is read for one event: whether its artifacts are there, and what its preparation reads, if it
/// is one.
#[derive(Debug)]
pub struct TurnEventReads {
    pub event_id: EventId,
    pub artifacts: Result<(), StoreError>,
    pub preparation: Option<PreparationReads>,
}

/// What was read for one event.
pub open spec fn reads_of(reads: Seq<TurnEventReads>, event_id: EventId) -> Option<TurnEventReads>
    decreases reads.len(),
{
    if reads.len() == 0 {
        None
    } else if reads[0].event_id == event_id {
        Some(reads[0])
    } else {
        reads_of(reads.drop_first(), event_id)
    }
}

fn find_reads<'a>(reads: &'a Vec<TurnEventReads>, event_id: EventId) -> (r: Option<
    &'a TurnEventReads,
>)
    ensures
        reads_of(reads@, event_id) == (match r {
            Some(found) => Some(*found),
            None => None,
        }),
{
    let mut i: usize = 0;
    assert(reads@.skip(0) =~= reads@);
    while i < reads.len()
        invariant
            i <= reads@.len(),
            reads_of(reads@, event_id) == reads_of(reads@.skip(i as int), event_id),
        decreases reads.len() - i,
    {
        assert(reads@.skip(i as int).drop_first() =~= reads@.skip(i + 1));
        if reads[i].event_id == event_id {
            return Some(&reads[i]);
        }
        i += 1;
    }
    None
}

/// Whether a boundary leaves a turn that may be tried again.
#[verifier::allow_in_spec]
pub fn boundary_allows_retry(boundary: UnknownInferenceBoundary) -> bool
    returns
        (boundary == UnknownInferenceBoundary::Restart || boundary
            == UnknownInferenceBoundary::Shutdown || boundary
            == UnknownInferenceBoundary::ClaimRenewalFailed),
{
    boundary == UnknownInferenceBoundary::Restart || boundary == UnknownInferenceBoundary::Shutdown
        || boundary == UnknownInferenceBoundary::ClaimRenewalFailed
}

/// Whether an end allows the turn that one event prepared to be tried again: it failed in a way that
/// asks for a new attempt, or it was left open by a restart, a shutdown or a lost claim.
pub open spec fn authorizes_retry(terminal: EventEnvelope, prepared_event_id: EventId) -> bool {
    match terminal.payload {
        EventPayload::PlannerTurnObservedV1(observed) => observed.prepared_event_id
            == prepared_event_id && (observed.outcome matches PlannerTurnObservationV1::Failed {
            error,
        } && error.retry == RetryDisposition::RequiresNewAttempt),
        EventPayload::PlannerTurnUnknownV1(unknown) => unknown.prepared_event_id
            == prepared_event_id && boundary_allows_retry(unknown.boundary),
        _ => false,
    }
}

/// Whether an end allows the turn that one event prepared to be tried again.
pub fn planner_v2_terminal_authorizes_retry(
    terminal: &EventEnvelope,
    prepared_event_id: EventId,
) -> (r: bool)
    ensures
        r == authorizes_retry(*terminal, prepared_event_id),
{
    match &terminal.payload {
        EventPayload::PlannerTurnObservedV1(observed) => {
            let asks_for_attempt = match &observed.outcome {
                PlannerTurnObservationV1::Failed { error } => error.retry
                    == RetryDisposition::RequiresNewAttempt,
                _ => false,
            };
            observed.prepared_event_id == prepared_event_id && asks_for_attempt
        },
        EventPayload::PlannerTurnUnknownV1(unknown) => unknown.prepared_event_id
            == prepared_event_id && boundary_allows_retry(unknown.boundary),
        _ => false,
    }
}

/// The end of a turn, observed or not.
pub open spec fn end_of(turn: ReplayedPlannerTurn) -> Option<EventEnvelope> {
    match (turn.observed_event, turn.unknown_event) {
        (Some(observed), _) => Some(*observed),
        (None, Some(unknown)) => Some(*unknown),
        (None, None) => None,
    }
}

/// Whether a turn may be tried again: nothing was decided on it, and its end allows it.
pub open spec fn may_be_retried(turn: ReplayedPlannerTurn) -> bool {
    turn.decision_event is None && (end_of(turn) matches Some(terminal) && authorizes_retry(
        terminal,
        turn.prepared_event.id,
    ))
}

fn allows_retry(turn: &ReplayedPlannerTurn) -> (r: bool)
    ensures
        r == may_be_retried(*turn),
{
    let terminal = match (turn.observed_event, turn.unknown_event) {
        (Some(observed), _) => observed,
        (None, Some(unknown)) => unknown,
        (None, None) => return false,
    };
    turn.decision_event.is_none() && planner_v2_terminal_authorizes_retry(
        terminal,
        turn.prepared_event.id,
    )
}

/// The purpose that the next turn has to have: the first delegates; a turn that may be tried again is
/// tried with its purpose; and any other turn replans.
pub open spec fn next_purpose(turns: Seq<ReplayedPlannerTurn>) -> Option<PlannerTurnPurposeV1> {
    if turns.len() == 0 {
        Some(PlannerTurnPurposeV1::InitialDelegation)
    } else {
        match crate::planner_v2_terminal::turn_in(*turns.last().prepared_event) {
            None => None,
            Some(prepared) => Some(
                if may_be_retried(turns.last()) {
                    prepared.purpose
                } else {
                    PlannerTurnPurposeV1::EvidenceReplan
                },
            ),
        }
    }
}

fn expected_purpose(turns: &Vec<ReplayedPlannerTurn>) -> (r: Option<PlannerTurnPurposeV1>)
    ensures
        r == next_purpose(turns@),
{
    if turns.len() == 0 {
        return Some(PlannerTurnPurposeV1::InitialDelegation);
    }
    let last = &turns[turns.len() - 1];
    match &last.prepared_event.payload {
        EventPayload::PlannerTurnPreparedV1(prepared) => Some(
            if allows_retry(last) {
                prepared.purpose
            } else {
                PlannerTurnPurposeV1::EvidenceReplan
            },
        ),
        _ => None,
    }
}

/// Whether a turn has an identity and, where it is given, a preparation.
pub open spec fn is_turn(
    turn: ReplayedPlannerTurn,
    turn_id: PlannerTurnId,
    prepared_event_id: Option<EventId>,
) -> bool {
    &&& crate::planner_v2_terminal::turn_in(*turn.prepared_event) matches Some(prepared)
        && prepared.turn_id == turn_id
    &&& prepared_event_id matches Some(id) ==> turn.prepared_event.id == id
}

/// The place of the first such turn, from one place on.
pub open spec fn turn_position(
    turns: Seq<ReplayedPlannerTurn>,
    turn_id: PlannerTurnId,
    prepared_event_id: Option<EventId>,
    from: int,
) -> Option<int>
    decreases turns.len() - from,
{
    if from < 0 || from >= turns.len() {
        None
    } else if is_turn(turns[from], turn_id, prepared_event_id) {
        Some(from)
    } else {
        turn_position(turns, turn_id, prepared_event_id, from + 1)
    }
}

fn find_turn(
    turns: &Vec<ReplayedPlannerTurn>,
    turn_id: PlannerTurnId,
    prepared_event_id: Option<EventId>,
) -> (r: Option<usize>)
    ensures
        turn_position(turns@, turn_id, prepared_event_id, 0) == (match r {
            Some(position) => Some(position as int),
            None => None,
        }),
        r matches Some(position) ==> position < turns@.len() && is_turn(
            turns@[position as int],
            turn_id,
            prepared_event_id,
        ),
{
    let mut i: usize = 0;
    while i < turns.len()
        invariant
            i <= turns@.len(),
            turn_position(turns@, turn_id, prepared_event_id, 0) == turn_position(
                turns@,
                turn_id,
                prepared_event_id,
                i as int,
            ),
        decreases turns.len() - i,
    {
        let turn = &turns[i];
        let named = match &turn.prepared_event.payload {
            EventPayload::PlannerTurnPreparedV1(prepared) => prepared.turn_id == turn_id,
            _ => false,
        };
        let prepared_there = match prepared_event_id {
            Some(id) => turn.prepared_event.id == id,
            None => true,
        };
        if named && prepared_there {
            return Some(i);
        }
        i += 1;
    }
    None
}

/// Whether a preparation may begin a turn after others: there is room for it, its identity is new, and
/// its purpose is the one that is due.
pub open spec fn may_begin(
    contract: Contract,
    turns: Seq<ReplayedPlannerTurn>,
    prepared: PlannerTurnPreparedV1,
) -> bool {
    &&& turns.len() < contract.recon.max_planner_turns
    &&& turn_position(turns, prepared.turn_id, None, 0) is None
    &&& next_purpose(turns) == Some(prepared.purpose)
}

/// What is found of what a preparation stands on.
pub open spec fn preparation_stands(
    store: Store,
    event: EventEnvelope,
    prepared: PlannerTurnPreparedV1,
    reads: PreparationReads,
) -> Result<(), StoreError> {
    crate::error::and_next(
        crate::planner_v2_base::base_snapshot(store.contract, prepared.base_plan, reads.base),
        crate::error::and_next(
            crate::error::demand(
                crate::planner_v2_base::base_stands(store, event, prepared, reads.base->Ok_0),
            ),
            crate::error::and_next(
                crate::planner_v2_request::prompt_verdict(
                    store.contract,
                    prepared,
                    reads.base->Ok_0,
                    reads.prompt,
                ),
                crate::error::demand(
                    crate::planner_v2_base::all_material_stands(
                        store,
                        event,
                        prepared.durable_evidence_packet.entries@,
                    ),
                ),
            ),
        ),
    )
}

fn check_preparation(
    store: &Store,
    event: &EventEnvelope,
    prepared: &PlannerTurnPreparedV1,
    reads: &PreparationReads,
) -> (r: Result<(), StoreError>)
    ensures
        r == preparation_stands(*store, *event, *prepared, *reads),
{
    let base = match read_planner_base_snapshot(&store.contract, &prepared.base_plan, &reads.base) {
        Ok(base) => base,
        Err(error) => return Err(error),
    };
    match validate_planner_base_authority(store, event, prepared, base) {
        Ok(()) => {},
        Err(error) => return Err(error),
    }
    match check_planner_v2_retained_prompt(&store.contract, prepared, base, &reads.prompt) {
        Ok(()) => {},
        Err(error) => return Err(error),
    }
    validate_planner_durable_evidence(store, event, &prepared.durable_evidence_packet.entries)
}

/// Whether an end may be attached to a turn: nothing was, and it follows the preparation.
pub open spec fn may_end(turn: ReplayedPlannerTurn, event: EventEnvelope) -> bool {
    &&& turn.observed_event is None
    &&& turn.unknown_event is None
    &&& turn.decision_event is None
    &&& event.causal_parent == Some(turn.prepared_event.id)
    &&& event.sequence > turn.prepared_event.sequence
}

fn can_end(turn: &ReplayedPlannerTurn, event: &EventEnvelope) -> (r: bool)
    ensures
        r == may_end(*turn, *event),
{
    turn.observed_event.is_none() && turn.unknown_event.is_none() && turn.decision_event.is_none()
        && event.causal_parent == Some(turn.prepared_event.id) && event.sequence
        > turn.prepared_event.sequence
}

/// Whether an observation ends a turn: under claims without a gap, and within one runtime.
pub open spec fn observes(
    store: Store,
    turn: ReplayedPlannerTurn,
    event: EventEnvelope,
    observed: PlannerTurnObservedV1,
) -> bool {
    let prepared = crate::planner_v2_terminal::turn_in(*turn.prepared_event)->0;
    &&& may_end(turn, event)
    &&& crate::planner_v2_terminal::claim_continuity(
        store,
        event,
        *turn.prepared_event,
        prepared,
        observed.observed_at,
    ) == Some(PlannerTerminalClaimContinuity::Contiguous)
    &&& planner_terminal_clock_follows_prepared(
        &prepared.prepared_at,
        &observed.observed_at,
        PlannerTerminalClockBoundary::Observed,
    )
}

fn checks_observation(
    store: &Store,
    turn: &ReplayedPlannerTurn,
    event: &EventEnvelope,
    observed: &PlannerTurnObservedV1,
) -> (r: bool)
    requires
        crate::planner_v2_terminal::turn_in(*turn.prepared_event) is Some,
    ensures
        r == observes(*store, *turn, *event, *observed),
{
    match &turn.prepared_event.payload {
        EventPayload::PlannerTurnPreparedV1(prepared) => {
            if !can_end(turn, event) {
                return false;
            }
            match planner_terminal_claim_continuity(
                store,
                event,
                turn.prepared_event,
                prepared,
                &observed.observed_at,
            ) {
                Ok(continuity) => continuity == PlannerTerminalClaimContinuity::Contiguous
                    && planner_terminal_clock_follows_prepared(
                    &prepared.prepared_at,
                    &observed.observed_at,
                    PlannerTerminalClockBoundary::Observed,
                ),
                Err(_) => false,
            }
        },
        _ => false,
    }
}

/// Whether an unknown outcome ends a turn: under a chain of claims, and at a boundary that its clock
/// allows.
pub open spec fn leaves_unknown(
    store: Store,
    turn: ReplayedPlannerTurn,
    event: EventEnvelope,
    unknown: PlannerTurnUnknownV1,
) -> bool {
    let prepared = crate::planner_v2_terminal::turn_in(*turn.prepared_event)->0;
    &&& may_end(turn, event)
    &&& crate::planner_v2_terminal::claim_continuity(
        store,
        event,
        *turn.prepared_event,
        prepared,
        unknown.boundary_at,
    ) is Some
    &&& planner_terminal_clock_follows_prepared(
        &prepared.prepared_at,
        &unknown.boundary_at,
        PlannerTerminalClockBoundary::Unknown(unknown.boundary),
    )
}

fn checks_unknown(
    store: &Store,
    turn: &ReplayedPlannerTurn,
    event: &EventEnvelope,
    unknown: &PlannerTurnUnknownV1,
) -> (r: bool)
    requires
        crate::planner_v2_terminal::turn_in(*turn.prepared_event) is Some,
    ensures
        r == leaves_unknown(*store, *turn, *event, *unknown),
{
    match &turn.prepared_event.payload {
        EventPayload::PlannerTurnPreparedV1(prepared) => {
            if !can_end(turn, event) {
                return false;
            }
            match planner_terminal_claim_continuity(
                store,
                event,
                turn.prepared_event,
                prepared,
                &unknown.boundary_at,
            ) {
                Ok(_) => planner_terminal_clock_follows_prepared(
                    &prepared.prepared_at,
                    &unknown.boundary_at,
                    PlannerTerminalClockBoundary::Unknown(unknown.boundary),
                ),
                Err(_) => false,
            }
        },
        _ => false,
    }
}

/// The preparation and the observation that a decision names, if the event is one.
pub open spec fn decision_names(event: EventEnvelope) -> Option<(PlannerTurnId, EventId, EventId)> {
    match event.payload {
        EventPayload::PlannerTurnAcceptedV1(accepted) => Some(
            (accepted.turn_id, accepted.prepared_event_id, accepted.observed_event_id),
        ),
        EventPayload::PlannerTurnRejectedV1(rejected) => Some(
            (rejected.turn_id, rejected.prepared_event_id, rejected.observed_event_id),
        ),
        _ => None,
    }
}

fn named_by_decision(event: &EventEnvelope) -> (r: Option<(PlannerTurnId, EventId, EventId)>)
    ensures
        r == decision_names(*event),
{
    match &event.payload {
        EventPayload::PlannerTurnAcceptedV1(accepted) => Some(
            (accepted.turn_id, accepted.prepared_event_id, accepted.observed_event_id),
        ),
        EventPayload::PlannerTurnRejectedV1(rejected) => Some(
            (rejected.turn_id, rejected.prepared_event_id, rejected.observed_event_id),
        ),
        _ => None,
    }
}

/// Whether a decision may be attached to a turn: the turn was observed to succeed, the decision names
/// that observation and follows it, and nothing was decided.
pub open spec fn may_decide(turn: ReplayedPlannerTurn, event: EventEnvelope) -> bool {
    match (decision_names(event), turn.observed_event) {
        (Some((turn_id, prepared_event_id, observed_event_id)), Some(observed_event)) => {
            &&& observed_event.payload matches EventPayload::PlannerTurnObservedV1(observed)
                && observed.turn_id == turn_id && observed.outcome is Succeeded
            &&& prepared_event_id == turn.prepared_event.id
            &&& observed_event_id == observed_event.id
            &&& turn.unknown_event is None
            &&& turn.decision_event is None
            &&& event.causal_parent == Some(observed_event.id)
            &&& event.sequence > observed_event.sequence
        },
        _ => false,
    }
}

fn can_decide(turn: &ReplayedPlannerTurn, event: &EventEnvelope) -> (r: bool)
    ensures
        r == may_decide(*turn, *event),
{
    match (named_by_decision(event), turn.observed_event) {
        (Some((turn_id, prepared_event_id, observed_event_id)), Some(observed_event)) => {
            let succeeded = match &observed_event.payload {
                EventPayload::PlannerTurnObservedV1(observed) => match &observed.outcome {
                    PlannerTurnObservationV1::Succeeded { .. } => observed.turn_id == turn_id,
                    _ => false,
                },
                _ => false,
            };
            succeeded && prepared_event_id == turn.prepared_event.id && observed_event_id
                == observed_event.id && turn.unknown_event.is_none()
                && turn.decision_event.is_none() && event.causal_parent == Some(observed_event.id)
                && event.sequence > observed_event.sequence
        },
        _ => false,
    }
}

/// The turns after one more event of theirs; `Err` where the event does not fit them.
pub open spec fn replay_event<'a>(
    store: Store,
    turns: Seq<ReplayedPlannerTurn<'a>>,
    event: &'a EventEnvelope,
    reads: Option<PreparationReads>,
) -> Result<Seq<ReplayedPlannerTurn<'a>>, StoreError> {
    match event.payload {
        EventPayload::PlannerTurnPreparedV1(prepared) => match reads {
            None => Err(StoreError::InvalidStateEvent),
            Some(reads) => if !may_begin(store.contract, turns, prepared) {
                Err(StoreError::InvalidStateEvent)
            } else {
                match preparation_stands(store, *event, prepared, reads) {
                    Err(error) => Err(error),
                    Ok(()) => Ok(
                        turns.push(
                            ReplayedPlannerTurn {
                                prepared_event: event,
                                observed_event: None,
                                unknown_event: None,
                                decision_event: None,
                            },
                        ),
                    ),
                }
            },
        },
        EventPayload::PlannerTurnObservedV1(observed) => match turn_position(
            turns,
            observed.turn_id,
            Some(observed.prepared_event_id),
            0,
        ) {
            None => Err(StoreError::InvalidStateEvent),
            Some(i) => if !observes(store, turns[i], *event, observed) {
                Err(StoreError::InvalidStateEvent)
            } else {
                Ok(
                    turns.update(
                        i,
                        ReplayedPlannerTurn { observed_event: Some(event), ..turns[i] },
                    ),
                )
            },
        },
        EventPayload::PlannerTurnUnknownV1(unknown) => match turn_position(
            turns,
            unknown.turn_id,
            Some(unknown.prepared_event_id),
            0,
        ) {
            None => Err(StoreError::InvalidStateEvent),
            Some(i) => if !leaves_unknown(store, turns[i], *event, unknown) {
                Err(StoreError::InvalidStateEvent)
            } else {
                Ok(
                    turns.update(
                        i,
                        ReplayedPlannerTurn { unknown_event: Some(event), ..turns[i] },
                    ),
                )
            },
        },
        _ => replay_decision(turns, event),
    }
}

/// The turns after a decision; `Err` where the event is none, or does not fit them.
pub open spec fn replay_decision<'a>(
    turns: Seq<ReplayedPlannerTurn<'a>>,
    event: &'a EventEnvelope,
) -> Result<Seq<ReplayedPlannerTurn<'a>>, StoreError> {
    match decision_names(*event) {
        None => Err(StoreError::InvalidStateEvent),
        Some((turn_id, _, _)) => match turn_position(turns, turn_id, None, 0) {
            None => Err(StoreError::InvalidStateEvent),
            Some(i) => if !may_decide(turns[i], *event) {
                Err(StoreError::InvalidStateEvent)
            } else {
                Ok(
                    turns.update(
                        i,
                        ReplayedPlannerTurn { decision_event: Some(event), ..turns[i] },
                    ),
                )
            },
        },
    }
}

/// Attaches a decision to its turn; refused where it does not fit.
pub fn attach_planner_decision<'a>(
    turns: &mut Vec<ReplayedPlannerTurn<'a>>,
    event: &'a EventEnvelope,
) -> (r: Result<(), StoreError>)
    ensures
        match (r, replay_decision(old(turns)@, event)) {
            (Ok(()), Ok(expected)) => final(turns)@ == expected,
            (Err(error), Err(expected)) => error == expected && final(turns)@ == old(turns)@,
            _ => false,
        },
{
    let turn_id = match named_by_decision(event) {
        Some((turn_id, _, _)) => turn_id,
        None => return Err(StoreError::InvalidStateEvent),
    };
    let i: usize = match find_turn(turns, turn_id, None) {
        Some(i) => i,
        None => return Err(StoreError::InvalidStateEvent),
    };
    let turn = turns[i];
    if !can_decide(&turn, event) {
        return Err(StoreError::InvalidStateEvent);
    }
    turns.set(i, ReplayedPlannerTurn { decision_event: Some(event), ..turn });
    Ok(())
}

/// Takes one more event of the turns; refused where it does not fit them.
fn take_event<'a>(
    store: &Store,
    turns: &mut Vec<ReplayedPlannerTurn<'a>>,
    event: &'a EventEnvelope,
    reads: Option<&PreparationReads>,
) -> (r: Result<(), StoreError>)
    ensures
        ({
            let read = match reads {
                Some(reads) => Some(*reads),
                None => None,
            };
            match (r, replay_event(*store, old(turns)@, event, read)) {
                (Ok(()), Ok(expected)) => final(turns)@ == expected,
                (Err(error), Err(expected)) => error == expected && final(turns)@ == old(turns)@,
                _ => false,
            }
        }),
{
    match &event.payload {
        EventPayload::PlannerTurnPreparedV1(prepared) => {
            let reads = match reads {
                Some(reads) => reads,
                None => return Err(StoreError::InvalidStateEvent),
            };
            if turns.len() as u64 >= store.contract.recon.max_planner_turns as u64 || find_turn(
                turns,
                prepared.turn_id,
                None,
            ).is_some() || expected_purpose(turns) != Some(prepared.purpose) {
                return Err(StoreError::InvalidStateEvent);
            }
            match check_preparation(store, event, prepared, reads) {
                Ok(()) => {},
                Err(error) => return Err(error),
            }
            turns.push(
                ReplayedPlannerTurn {
                    prepared_event: event,
                    observed_event: None,
                    unknown_event: None,
                    decision_event: None,
                },
            );
            Ok(())
        },
        EventPayload::PlannerTurnObservedV1(observed) => {
            let i: usize = match find_turn(
                turns,
                observed.turn_id,
                Some(observed.prepared_event_id),
            ) {
                Some(i) => i,
                None => return Err(StoreError::InvalidStateEvent),
            };
            let turn = turns[i];
            if !checks_observation(store, &turn, event, observed) {
                return Err(StoreError::InvalidStateEvent);
            }
            turns.set(i, ReplayedPlannerTurn { observed_event: Some(event), ..turn });
            Ok(())
        },
        EventPayload::PlannerTurnUnknownV1(unknown) => {
            let i: usize = match find_turn(
                turns,
                unknown.turn_id,
                Some(unknown.prepared_event_id),
            ) {
                Some(i) => i,
                None => return Err(StoreError::InvalidStateEvent),
            };
            let turn = turns[i];
            if !checks_unknown(store, &turn, event, unknown) {
                return Err(StoreError::InvalidStateEvent);
            }
            turns.set(i, ReplayedPlannerTurn { unknown_event: Some(event), ..turn });
            Ok(())
        },
        _ => attach_planner_decision(turns, event),
    }
}

/// The turns after the first `n` of their events. An event whose artifacts are not there, or for
/// which nothing was read, does not fit.
pub open spec fn replay<'a>(
    store: Store,
    rows: Seq<&'a EventEnvelope>,
    reads: Seq<TurnEventReads>,
    n: nat,
) -> Result<Seq<ReplayedPlannerTurn<'a>>, StoreError>
    decreases n,
{
    if n == 0 {
        Ok(Seq::empty())
    } else {
        match replay(store, rows, reads, (n - 1) as nat) {
            Err(error) => Err(error),
            Ok(turns) => match reads_of(reads, rows[n - 1].id) {
                None => Err(StoreError::InvalidStateEvent),
                Some(found) => match found.artifacts {
                    Err(error) => Err(error),
                    Ok(()) => replay_event(store, turns, rows[n - 1], found.preparation),
                },
            },
        }
    }
}

/// The events of a planner's turns.
pub open spec fn turn_events(
    store: Store,
    session_id: SessionId,
    run_id: RunId,
) -> Seq<EventEnvelope> {
    EventQuery::in_run(session_id, run_id, PayloadFilter::PlannerTurn).rows(store.log@)
}

/// The same events, borrowed.
pub open spec fn borrowed<'a>(events: Seq<EventEnvelope>) -> Seq<&'a EventEnvelope> {
    events.map_values(|event: EventEnvelope| &event)
}

/// The turns of a planner: each event fits those before it, and there are no more events than turns
/// can have.
pub open spec fn turn_history<'a>(
    store: Store,
    session_id: SessionId,
    run_id: RunId,
    reads: Seq<TurnEventReads>,
) -> Result<Seq<ReplayedPlannerTurn<'a>>, StoreError> {
    let rows = turn_events(store, session_id, run_id);
    if rows.len() > 3 * store.contract.recon.max_planner_turns {
        Err(StoreError::InvalidStateEvent)
    } else {
        replay(store, borrowed(rows), reads, rows.len())
    }
}

proof fn lemma_replay_failure_stays<'a>(
    store: Store,
    rows: Seq<&'a EventEnvelope>,
    reads: Seq<TurnEventReads>,
    n: nat,
    m: nat,
)
    requires
        n <= m,
        replay(store, rows, reads, n) is Err,
    ensures
        replay(store, rows, reads, m) == replay(store, rows, reads, n),
    decreases m,
{
    if n < m {
        lemma_replay_failure_stays(store, rows, reads, n, (m - 1) as nat);
    }
}

/// The turns of a planner, replayed from the history of its run.
pub fn planner_v2_history<'a>(
    store: &'a Store,
    session_id: SessionId,
    run_id: RunId,
    reads: &Vec<TurnEventReads>,
) -> (r: Result<Vec<ReplayedPlannerTurn<'a>>, StoreError>)
    ensures
        match (r, turn_history(*store, session_id, run_id, reads@)) {
            (Ok(turns), Ok(expected)) => turns@ == expected,
            (Err(error), Err(expected)) => error == expected,
            _ => false,
        },
{
    let rows = store.log.select(&EventQuery::in_run(session_id, run_id, PayloadFilter::PlannerTurn));
    let ghost events = turn_events(*store, session_id, run_id);
    if rows.len() as u64 > 3 * store.contract.recon.max_planner_turns as u64 {
        return Err(StoreError::InvalidStateEvent);
    }
    assert(rows@ =~= borrowed(events));
    let mut turns: Vec<ReplayedPlannerTurn<'a>> = Vec::new();
    let mut n: usize = 0;
    while n < rows.len()
        invariant
            n <= rows@.len(),
            events == turn_events(*store, session_id, run_id),
            events.len() <= 3 * store.contract.recon.max_planner_turns,
            rows@ == borrowed(events),
            replay(*store, rows@, reads@, n as nat) matches Ok(expected) && turns@ == expected,
        decreases rows.len() - n,
    {
        let event = rows[n];
        proof {
            if replay(*store, rows@, reads@, (n + 1) as nat) is Err {
                lemma_replay_failure_stays(*store, rows@, reads@, (n + 1) as nat, events.len());
            }
        }
        let found = match find_reads(reads, event.id) {
            Some(found) => found,
            None => return Err(StoreError::InvalidStateEvent),
        };
        match found.artifacts {
            Ok(()) => {},
            Err(error) => return Err(error),
        }
        let preparation = match &found.preparation {
            Some(preparation) => Some(preparation),
            None => None,
        };
        match take_event(store, &mut turns, event, preparation) {
            Ok(()) => {},
            Err(error) => return Err(error),
        }
        n += 1;
    }
    Ok(turns)
}

/// Whether an event ends a turn: the preparation is its causal parent and stands before it.
pub open spec fn ends(turn: ReplayedPlannerTurn, end: EventEnvelope) -> bool {
    &&& end.causal_parent == Some(turn.prepared_event.id)
    &&& end.sequence > turn.prepared_event.sequence
}

/// Whether what happened to a turn fits together: it has one end at most, which names the turn and
/// follows its preparation; and a decision names both, follows the end, and stands on an observed
/// success.
pub open spec fn turn_is_closed(turn: ReplayedPlannerTurn) -> bool {
    &&& crate::planner_v2_terminal::turn_in(*turn.prepared_event) is Some
    &&& turn.observed_event matches Some(observed) ==> {
        &&& turn.unknown_event is None
        &&& ends(turn, *observed)
        &&& observed.payload matches EventPayload::PlannerTurnObservedV1(end) && is_turn(
            turn,
            end.turn_id,
            Some(end.prepared_event_id),
        )
    }
    &&& turn.unknown_event matches Some(unknown) ==> {
        &&& ends(turn, *unknown)
        &&& unknown.payload matches EventPayload::PlannerTurnUnknownV1(end) && is_turn(
            turn,
            end.turn_id,
            Some(end.prepared_event_id),
        )
    }
    &&& turn.decision_event matches Some(decision) ==> (turn.observed_event matches Some(observed) && {
        &&& observed.payload matches EventPayload::PlannerTurnObservedV1(end)
            && end.outcome is Succeeded && decision_names(*decision) == Some(
            (end.turn_id, turn.prepared_event.id, observed.id),
        )
        &&& decision.causal_parent == Some(observed.id)
        &&& decision.sequence > observed.sequence
    })
}

/// Whether no two turns have one identity.
pub open spec fn turn_identities_differ(turns: Seq<ReplayedPlannerTurn>) -> bool {
    forall|i: int, j: int|
        0 <= i < j < turns.len() ==> crate::planner_v2_terminal::turn_in(
            *(#[trigger] turns[i]).prepared_event,
        )->0.turn_id != crate::planner_v2_terminal::turn_in(
            *(#[trigger] turns[j]).prepared_event,
        )->0.turn_id
}

proof fn lemma_no_such_turn(turns: Seq<ReplayedPlannerTurn>, turn_id: PlannerTurnId, from: int)
    requires
        0 <= from <= turns.len(),
        turn_position(turns, turn_id, None, from) is None,
    ensures
        forall|i: int| from <= i < turns.len() ==> !is_turn(#[trigger] turns[i], turn_id, None),
    decreases turns.len() - from,
{
    if from < turns.len() {
        lemma_no_such_turn(turns, turn_id, from + 1);
    }
}

proof fn lemma_position_in_range(
    turns: Seq<ReplayedPlannerTurn>,
    turn_id: PlannerTurnId,
    prepared_event_id: Option<EventId>,
    from: int,
)
    requires
        0 <= from,
    ensures
        turn_position(turns, turn_id, prepared_event_id, from) matches Some(i) ==> from <= i
            < turns.len() && is_turn(turns[i], turn_id, prepared_event_id),
    decreases turns.len() - from,
{
    if from < turns.len() {
        lemma_position_in_range(turns, turn_id, prepared_event_id, from + 1);
    }
}

proof fn lemma_event_keeps_turns_closed<'a>(
    store: Store,
    turns: Seq<ReplayedPlannerTurn<'a>>,
    event: &'a EventEnvelope,
    reads: Option<PreparationReads>,
)
    requires
        forall|i: int| 0 <= i < turns.len() ==> turn_is_closed(#[trigger] turns[i]),
        turn_identities_differ(turns),
        turns.len() <= store.contract.recon.max_planner_turns,
        replay_event(store, turns, event, reads) is Ok,
    ensures
        ({
            let after = replay_event(store, turns, event, reads)->Ok_0;
            &&& forall|i: int| 0 <= i < after.len() ==> turn_is_closed(#[trigger] after[i])
            &&& turn_identities_differ(after)
            &&& after.len() <= store.contract.recon.max_planner_turns
        }),
{
    let after = replay_event(store, turns, event, reads)->Ok_0;
    match event.payload {
        EventPayload::PlannerTurnPreparedV1(prepared) => {
            lemma_no_such_turn(turns, prepared.turn_id, 0);
            assert forall|i: int, j: int| 0 <= i < j < after.len() implies
                crate::planner_v2_terminal::turn_in(
                *(#[trigger] after[i]).prepared_event,
            )->0.turn_id != crate::planner_v2_terminal::turn_in(
                *(#[trigger] after[j]).prepared_event,
            )->0.turn_id by {
                assert(after[i] == turns[i]);
                assert(turn_is_closed(turns[i]));
                if j == turns.len() {
                    assert(!is_turn(turns[i], prepared.turn_id, None));
                } else {
                    assert(after[j] == turns[j]);
                }
            }
        },
        EventPayload::PlannerTurnObservedV1(observed) => {
            lemma_position_in_range(
                turns,
                observed.turn_id,
                Some(observed.prepared_event_id),
                0,
            );
        },
        EventPayload::PlannerTurnUnknownV1(unknown) => {
            lemma_position_in_range(turns, unknown.turn_id, Some(unknown.prepared_event_id), 0);
        },
        _ => {
            let (turn_id, _, _) = decision_names(*event)->0;
            lemma_position_in_range(turns, turn_id, None, 0);
        },
    }
}

/// However a history goes, its turns stay closed: each has one end at most, which follows its
/// preparation; a decision follows an observed success; no two turns have one identity; and there are
/// never more turns than are allowed.
pub proof fn law_turns_stay_closed<'a>(
    store: Store,
    rows: Seq<&'a EventEnvelope>,
    reads: Seq<TurnEventReads>,
    n: nat,
)
    requires
        replay(store, rows, reads, n) is Ok,
    ensures
        ({
            let turns = replay(store, rows, reads, n)->Ok_0;
            &&& forall|i: int| 0 <= i < turns.len() ==> turn_is_closed(#[trigger] turns[i])
            &&& turn_identities_differ(turns)
            &&& turns.len() <= store.contract.recon.max_planner_turns
        }),
    decreases n,
{
    if n > 0 {
        law_turns_stay_closed(store, rows, reads, (n - 1) as nat);
        lemma_event_keeps_turns_closed(
            store,
            replay(store, rows, reads, (n - 1) as nat)->Ok_0,
            rows[n - 1],
            reads_of(reads, rows[n - 1].id)->0.preparation,
        );
    }
}

/// One more event leaves the preparations as they are, or adds its own at the end.
proof fn lemma_event_keeps_preparations<'a>(
    store: Store,
    turns: Seq<ReplayedPlannerTurn<'a>>,
    event: &'a EventEnvelope,
    reads: Option<PreparationReads>,
)
    requires
        replay_event(store, turns, event, reads) is Ok,
    ensures
        ({
            let after = replay_event(store, turns, event, reads)->Ok_0;
            &&& turns.len() <= after.len() <= turns.len() + 1
            &&& forall|i: int|
                0 <= i < turns.len() ==> (#[trigger] after[i]).prepared_event
                    == turns[i].prepared_event
            &&& after.len() > turns.len() ==> after.last().prepared_event == event && (
            event.payload matches EventPayload::PlannerTurnPreparedV1(prepared) && next_purpose(
                turns,
            ) == Some(prepared.purpose))
        }),
{
    match event.payload {
        EventPayload::PlannerTurnPreparedV1(_) => {},
        EventPayload::PlannerTurnObservedV1(observed) => {
            lemma_position_in_range(
                turns,
                observed.turn_id,
                Some(observed.prepared_event_id),
                0,
            );
        },
        EventPayload::PlannerTurnUnknownV1(unknown) => {
            lemma_position_in_range(turns, unknown.turn_id, Some(unknown.prepared_event_id), 0);
        },
        _ => {
            let (turn_id, _, _) = decision_names(*event)->0;
            lemma_position_in_range(turns, turn_id, None, 0);
        },
    }
}

/// Whether turns stand in the order in which they were prepared.
pub open spec fn prepared_in_order(turns: Seq<ReplayedPlannerTurn>) -> bool {
    forall|i: int, j: int|
        0 <= i < j < turns.len() ==> (#[trigger] turns[i]).prepared_event.sequence < (
        #[trigger] turns[j]).prepared_event.sequence
}

proof fn lemma_turns_in_order<'a>(
    store: Store,
    rows: Seq<&'a EventEnvelope>,
    reads: Seq<TurnEventReads>,
    n: nat,
)
    requires
        n <= rows.len(),
        forall|i: int, j: int|
            0 <= i < j < rows.len() ==> (#[trigger] rows[i]).sequence < (
            #[trigger] rows[j]).sequence,
        replay(store, rows, reads, n) is Ok,
    ensures
        ({
            let turns = replay(store, rows, reads, n)->Ok_0;
            &&& prepared_in_order(turns)
            &&& forall|i: int, j: int|
                0 <= i < turns.len() && n <= j < rows.len() ==> (
                #[trigger] turns[i]).prepared_event.sequence < (#[trigger] rows[j]).sequence
            &&& turns.len() > 0 ==> (crate::planner_v2_terminal::turn_in(
                *turns[0].prepared_event,
            ) matches Some(prepared) && prepared.purpose
                == PlannerTurnPurposeV1::InitialDelegation)
        }),
    decreases n,
{
    if n > 0 {
        let p = (n - 1) as nat;
        let before = replay(store, rows, reads, p)->Ok_0;
        let after = replay(store, rows, reads, n)->Ok_0;
        lemma_turns_in_order(store, rows, reads, p);
        lemma_event_keeps_preparations(
            store,
            before,
            rows[n - 1],
            reads_of(reads, rows[n - 1].id)->0.preparation,
        );
        assert forall|i: int, j: int| 0 <= i < j < after.len() implies (
        #[trigger] after[i]).prepared_event.sequence < (
        #[trigger] after[j]).prepared_event.sequence by {
            assert(after[i].prepared_event == before[i].prepared_event);
            if j < before.len() {
                assert(after[j].prepared_event == before[j].prepared_event);
            } else {
                assert(before[i].prepared_event.sequence < rows[n - 1].sequence);
            }
        }
        assert forall|i: int, j: int| 0 <= i < after.len() && n <= j < rows.len() implies (
        #[trigger] after[i]).prepared_event.sequence < (#[trigger] rows[j]).sequence by {
            if i < before.len() {
                assert(after[i].prepared_event == before[i].prepared_event);
                assert(before[i].prepared_event.sequence < rows[j].sequence);
            } else {
                assert(rows[n - 1].sequence < rows[j].sequence);
            }
        }
        if before.len() > 0 {
            assert(after[0].prepared_event == before[0].prepared_event);
        }
    }
}

/// The turns of a run stand in the order in which they were prepared, and the first of them
/// delegates.
pub proof fn law_turns_stand_in_order<'a>(
    store: Store,
    session_id: SessionId,
    run_id: RunId,
    reads: Seq<TurnEventReads>,
)
    requires
        crate::history::in_sequence(store.log@),
        turn_history(store, session_id, run_id, reads) is Ok,
    ensures
        ({
            let turns = turn_history::<'a>(store, session_id, run_id, reads)->Ok_0;
            &&& prepared_in_order(turns)
            &&& turns.len() > 0 ==> (crate::planner_v2_terminal::turn_in(
                *turns[0].prepared_event,
            ) matches Some(prepared) && prepared.purpose
                == PlannerTurnPurposeV1::InitialDelegation)
        }),
{
    let query = EventQuery::in_run(session_id, run_id, PayloadFilter::PlannerTurn);
    let events = turn_events(store, session_id, run_id);
    let rows: Seq<&'a EventEnvelope> = borrowed(events);
    crate::history::law_selection_is_in_sequence(query, store.log@);
    assert forall|i: int, j: int| 0 <= i < j < rows.len() implies (#[trigger] rows[i]).sequence < (
    #[trigger] rows[j]).sequence by {
        assert(query.rows(store.log@)[i].sequence < query.rows(store.log@)[j].sequence);
    }
    lemma_turns_in_order(store, rows, reads, rows.len());
}

/// A history without turns has no event of a turn at all: the first event of every history prepares
/// one, and none is ever lost.
pub proof fn law_turns_are_never_lost<'a>(
    store: Store,
    rows: Seq<&'a EventEnvelope>,
    reads: Seq<TurnEventReads>,
    n: nat,
)
    requires
        n <= rows.len(),
        replay(store, rows, reads, n) is Ok,
    ensures
        n > 0 ==> replay(store, rows, reads, n)->Ok_0.len() > 0,
        n > 0 ==> rows[0].payload is PlannerTurnPreparedV1,
    decreases n,
{
    if n > 1 {
        law_turns_are_never_lost(store, rows, reads, (n - 1) as nat);
        let turns = replay(store, rows, reads, (n - 1) as nat)->Ok_0;
        lemma_replay_keeps_length(
            store,
            turns,
            rows[n - 1],
            reads_of(reads, rows[n - 1].id)->0.preparation,
        );
    } else if n == 1 {
        let none = Seq::<ReplayedPlannerTurn<'a>>::empty();
        assert(replay(store, rows, reads, 0) == Ok::<Seq<ReplayedPlannerTurn<'a>>, StoreError>(none));
    }
}

proof fn lemma_replay_keeps_length<'a>(
    store: Store,
    turns: Seq<ReplayedPlannerTurn<'a>>,
    event: &'a EventEnvelope,
    reads: Option<PreparationReads>,
)
    ensures
        replay_event(store, turns, event, reads) matches Ok(after) ==> after.len() >= turns.len(),
{
    if replay_event(store, turns, event, reads) is Ok && !(event.payload is PlannerTurnPreparedV1) {
        let i = law_ends_and_decisions_find_their_turn(store, turns, event, reads);
    }
}

/// A turn is prepared for what is due: the first to delegate; one after a decision, or after an end
/// that allows no new attempt, to replan; and one that is tried again for the purpose that it had.
/// There is always room for it, and its identity is its own.
pub proof fn law_turns_are_prepared_for_what_is_due<'a>(
    store: Store,
    turns: Seq<ReplayedPlannerTurn<'a>>,
    event: &'a EventEnvelope,
    prepared: PlannerTurnPreparedV1,
    reads: Option<PreparationReads>,
    last: PlannerTurnPreparedV1,
)
    requires
        event.payload == EventPayload::PlannerTurnPreparedV1(prepared),
        replay_event(store, turns, event, reads) is Ok,
        turns.len() > 0 ==> turns.last().prepared_event.payload
            == EventPayload::PlannerTurnPreparedV1(last),
    ensures
        replay_event(store, turns, event, reads)->Ok_0.len() == turns.len() + 1,
        replay_event(store, turns, event, reads)->Ok_0.last().prepared_event == event,
        replay_event(store, turns, event, reads)->Ok_0.last().observed_event is None,
        replay_event(store, turns, event, reads)->Ok_0.last().unknown_event is None,
        replay_event(store, turns, event, reads)->Ok_0.last().decision_event is None,
        turns.len() < store.contract.recon.max_planner_turns,
        turns.len() == 0 ==> prepared.purpose == PlannerTurnPurposeV1::InitialDelegation,
        turns.len() > 0 && turns.last().decision_event is Some ==> prepared.purpose
            == PlannerTurnPurposeV1::EvidenceReplan,
        turns.len() > 0 && turns.last().observed_event is None && turns.last().unknown_event is None
            ==> prepared.purpose == PlannerTurnPurposeV1::EvidenceReplan,
        turns.len() > 0 && (turns.last().observed_event matches Some(end)
            && end.payload matches EventPayload::PlannerTurnObservedV1(observed)
            && observed.outcome is Succeeded) ==> prepared.purpose
            == PlannerTurnPurposeV1::EvidenceReplan,
        turns.len() > 0 && turns.last().decision_event is None && (
        turns.last().observed_event matches Some(end)
            && end.payload matches EventPayload::PlannerTurnObservedV1(observed)
            && observed.prepared_event_id == turns.last().prepared_event.id && (
        observed.outcome matches PlannerTurnObservationV1::Failed { error } && error.retry
            == RetryDisposition::RequiresNewAttempt)) ==> prepared.purpose == last.purpose,
        turns.len() > 0 && turns.last().decision_event is None
            && turns.last().observed_event is None && (turns.last().unknown_event matches Some(end)
            && end.payload matches EventPayload::PlannerTurnUnknownV1(unknown)
            && unknown.prepared_event_id == turns.last().prepared_event.id && (unknown.boundary
            == UnknownInferenceBoundary::Restart || unknown.boundary
            == UnknownInferenceBoundary::Shutdown || unknown.boundary
            == UnknownInferenceBoundary::ClaimRenewalFailed)) ==> prepared.purpose == last.purpose,
        forall|i: int|
            0 <= i < turns.len() ==> !((
            #[trigger] turns[i]).prepared_event.payload matches EventPayload::PlannerTurnPreparedV1(
                earlier,
            ) && earlier.turn_id == prepared.turn_id),
{
    lemma_no_such_turn(turns, prepared.turn_id, 0);
    assert forall|i: int| 0 <= i < turns.len() implies !((
    #[trigger] turns[i]).prepared_event.payload matches EventPayload::PlannerTurnPreparedV1(
        earlier,
    ) && earlier.turn_id == prepared.turn_id) by {
        assert(!is_turn(turns[i], prepared.turn_id, None));
    }
}

/// An end is attached to the turn that it names and to no other: the turn was prepared by the event
/// that the end names and follows, and had no end before. A decision is attached to a turn that was
/// observed to succeed, by the observation that it names and follows.
pub proof fn law_ends_and_decisions_find_their_turn<'a>(
    store: Store,
    turns: Seq<ReplayedPlannerTurn<'a>>,
    event: &'a EventEnvelope,
    reads: Option<PreparationReads>,
) -> (i: int)
    requires
        replay_event(store, turns, event, reads) is Ok,
        !(event.payload is PlannerTurnPreparedV1),
    ensures
        0 <= i < turns.len(),
        ({
            let after = replay_event(store, turns, event, reads)->Ok_0;
            &&& after.len() == turns.len()
            &&& forall|j: int|
                0 <= j < turns.len() && j != i ==> #[trigger] after[j] == turns[j]
            &&& after[i].prepared_event == turns[i].prepared_event
            &&& turns[i].prepared_event.payload matches EventPayload::PlannerTurnPreparedV1(prepared)
            &&& match event.payload {
                EventPayload::PlannerTurnObservedV1(observed) => {
                    &&& observed.turn_id == prepared.turn_id
                    &&& observed.prepared_event_id == turns[i].prepared_event.id
                    &&& event.causal_parent == Some(turns[i].prepared_event.id)
                    &&& event.sequence > turns[i].prepared_event.sequence
                    &&& turns[i].observed_event is None && turns[i].unknown_event is None
                    &&& after[i].observed_event == Some(event)
                    &&& after[i].unknown_event is None && after[i].decision_event is None
                },
                EventPayload::PlannerTurnUnknownV1(unknown) => {
                    &&& unknown.turn_id == prepared.turn_id
                    &&& unknown.prepared_event_id == turns[i].prepared_event.id
                    &&& event.causal_parent == Some(turns[i].prepared_event.id)
                    &&& event.sequence > turns[i].prepared_event.sequence
                    &&& turns[i].observed_event is None && turns[i].unknown_event is None
                    &&& after[i].unknown_event == Some(event)
                    &&& after[i].observed_event is None && after[i].decision_event is None
                },
                EventPayload::PlannerTurnAcceptedV1(accepted) => {
                    &&& accepted.turn_id == prepared.turn_id
                    &&& accepted.prepared_event_id == turns[i].prepared_event.id
                    &&& turns[i].observed_event matches Some(end)
                    &&& accepted.observed_event_id == end.id
                    &&& event.causal_parent == Some(end.id)
                    &&& event.sequence > end.sequence
                    &&& end.payload matches EventPayload::PlannerTurnObservedV1(observed)
                        && observed.outcome is Succeeded
                    &&& turns[i].decision_event is None
                    &&& after[i].decision_event == Some(event)
                    &&& after[i].observed_event == turns[i].observed_event
                },
                EventPayload::PlannerTurnRejectedV1(rejected) => {
                    &&& rejected.turn_id == prepared.turn_id
                    &&& rejected.prepared_event_id == turns[i].prepared_event.id
                    &&& turns[i].observed_event matches Some(end)
                    &&& rejected.observed_event_id == end.id
                    &&& event.causal_parent == Some(end.id)
                    &&& event.sequence > end.sequence
                    &&& end.payload matches EventPayload::PlannerTurnObservedV1(observed)
                        && observed.outcome is Succeeded
                    &&& turns[i].decision_event is None
                    &&& after[i].decision_event == Some(event)
                    &&& after[i].observed_event == turns[i].observed_event
                },
                _ => false,
            }
        }),
{
    let (turn_id, prepared_event_id) = match event.payload {
        EventPayload::PlannerTurnObservedV1(observed) => (
            observed.turn_id,
            Some(observed.prepared_event_id),
        ),
        EventPayload::PlannerTurnUnknownV1(unknown) => (
            unknown.turn_id,
            Some(unknown.prepared_event_id),
        ),
        EventPayload::PlannerTurnAcceptedV1(accepted) => (accepted.turn_id, None),
        EventPayload::PlannerTurnRejectedV1(rejected) => (rejected.turn_id, None),
        _ => (PlannerTurnId(0), None),
    };
    lemma_position_in_range(turns, turn_id, prepared_event_id, 0);
    turn_position(turns, turn_id, prepared_event_id, 0)->0
}

} // verus!

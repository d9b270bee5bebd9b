//! The ends of planner turns: whose claim they are recorded under, when, and what they say.

use vstd::prelude::*;
use crate::artifact::{require_artifact_media_type, BackendModelRef};
use crate::child_outcome::ChildCancellationCauseV1;
use crate::claim_history::{
    latest_cancellation_for_run_before, latest_cancellation_generation_before,
    latest_claim_for_run_before,
};
use crate::clock::{same_runtime_not_before, RuntimeClockReading};
use crate::contract::Contract;
use crate::error::StoreError;
use crate::event::{EventEnvelope, EventPayload};
use crate::history::{EventLog, EventQuery, EventScope, PayloadFilter};
use crate::identity::{EventId, PlannerTurnId, RunId, SessionId};
use crate::inference_identity::{
    error_matches_protocol_backend_instance, response_matches_protocol_backend_instance,
    BackendNameReading,
};
use crate::json::read_alike;
use crate::planner_turn::{
    PlannerTurnObservationV1, PlannerTurnObservedV1, PlannerTurnPreparedV1,
    PlannerTurnRejectionReasonV1, PlannerTurnUnknownV1,
};
use crate::planning::{
    PlannerInferenceErrorKind, UnknownInferenceBoundary, UnknownInferenceOutcomeReason,
};
use crate::planning_ground::{
    expected_backend_selection, has_exact_model_provenance, planner_run_id,
};
use crate::retained::{
    RetainedCancellationBoundaryEvidence, RetainedInferenceEvidence,
    RetainedPlannerV2FinalizationEvidence, RetainedPlannerV2TerminalDisposition,
    StructuredInferenceResponse,
};
use crate::root_planning_inference::{failed_with, planner_v2_not_dispatched_failure};
use crate::run::{RetryDisposition, RunClaimed, RunState};
use crate::store::Store;
use crate::text::Same;

verus! {

/// Whether the claims between a preparation and an end hand the run over without a gap.
#[derive(Clone, Copy, Debug, PartialEq, Eq, Structural)]
pub enum PlannerTerminalClaimContinuity {
    Contiguous,
    Discontinuous,
}

/// What an end is recorded at.
#[derive(Clone, Copy, Debug, PartialEq, Eq, Structural)]
pub enum PlannerTerminalClockBoundary {
    Observed,
    Unknown(UnknownInferenceBoundary),
}

/// The identities and the clock under which an observation is recorded.
#[derive(Clone, Copy, Debug, PartialEq, Eq, Structural)]
pub struct PlannerV2ObservationAuthority {
    pub event_id: EventId,
    pub prepared_event_id: EventId,
    pub observed_at: RuntimeClockReading,
}

/// The identities, the boundary and the clock under which an unknown outcome is recorded.
#[derive(Clone, Copy, Debug, PartialEq, Eq, Structural)]
pub struct PlannerV2UnknownAuthority {
    pub event_id: EventId,
    pub prepared_event_id: EventId,
    pub boundary: UnknownInferenceBoundary,
    pub boundary_at: RuntimeClockReading,
}

/// The identity and the clock under which a turn is finalized.
#[derive(Clone, Copy, Debug, PartialEq, Eq, Structural)]
pub struct PlannerV2FinalizationAuthority {
    pub event_id: EventId,
    pub finalized_at: RuntimeClockReading,
}

/// What the finalization of a turn came to.
#[derive(Clone, Copy, Debug, PartialEq, Eq, Structural)]
pub enum PlannerV2FinalizationDisposition {
    Accepted,
    Rejected(PlannerTurnRejectionReasonV1),
    RunFailed,
    RunCancelled,
}

/// The reason that an unknown outcome has at a boundary.
#[verifier::allow_in_spec]
pub fn planner_v2_unknown_reason(boundary: UnknownInferenceBoundary) -> UnknownInferenceOutcomeReason
    returns
        (match boundary {
            UnknownInferenceBoundary::Restart =>
                UnknownInferenceOutcomeReason::RuntimeRestartedBeforeObservation,
            UnknownInferenceBoundary::Shutdown =>
                UnknownInferenceOutcomeReason::RuntimeRestartedBeforeObservation,
            UnknownInferenceBoundary::ClaimRenewalFailed =>
                UnknownInferenceOutcomeReason::ClaimExpiredBeforeObservation,
            UnknownInferenceBoundary::Deadline =>
                UnknownInferenceOutcomeReason::EvidenceCommitIndeterminate,
            UnknownInferenceBoundary::Cancelled =>
                UnknownInferenceOutcomeReason::EvidenceCommitIndeterminate,
        }),
{
    match boundary {
        UnknownInferenceBoundary::Restart | UnknownInferenceBoundary::Shutdown =>
            UnknownInferenceOutcomeReason::RuntimeRestartedBeforeObservation,
        UnknownInferenceBoundary::ClaimRenewalFailed =>
            UnknownInferenceOutcomeReason::ClaimExpiredBeforeObservation,
        UnknownInferenceBoundary::Deadline | UnknownInferenceBoundary::Cancelled =>
            UnknownInferenceOutcomeReason::EvidenceCommitIndeterminate,
    }
}

/// The cancellation behind a boundary: the last one asked for, where the turn was cancelled. A
/// cancelled turn without one is refused.
pub open spec fn cancellation_cause_before(
    events: Seq<EventEnvelope>,
    session_id: SessionId,
    run_id: RunId,
    boundary: UnknownInferenceBoundary,
    sequence: u64,
) -> Result<Option<ChildCancellationCauseV1>, StoreError> {
    if boundary != UnknownInferenceBoundary::Cancelled {
        Ok(None)
    } else {
        match crate::claim_history::latest_cancellation_before_of(
            events,
            session_id,
            run_id,
            sequence,
        ) {
            None => Err(StoreError::InvalidStateEvent),
            Some(event) => match event.payload {
                EventPayload::CancellationRequested(request) => Ok(
                    Some(
                        ChildCancellationCauseV1 {
                            request_event_id: event.id,
                            request_id: request.cancellation_request_id,
                            cancellation_generation: request.cancellation_generation,
                        },
                    ),
                ),
                _ => Err(StoreError::InvalidStateEvent),
            },
        }
    }
}

/// The cancellation behind a boundary.
pub fn planner_v2_cancellation_cause_before(
    log: &EventLog,
    session_id: SessionId,
    run_id: RunId,
    boundary: UnknownInferenceBoundary,
    sequence: u64,
) -> (r: Result<Option<ChildCancellationCauseV1>, StoreError>)
    ensures
        r == cancellation_cause_before(log@, session_id, run_id, boundary, sequence),
{
    if boundary != UnknownInferenceBoundary::Cancelled {
        return Ok(None);
    }
    let event = match latest_cancellation_for_run_before(log, session_id, run_id, sequence) {
        Some(event) => event,
        None => return Err(StoreError::InvalidStateEvent),
    };
    match &event.payload {
        EventPayload::CancellationRequested(request) => Ok(
            Some(
                ChildCancellationCauseV1 {
                    request_event_id: event.id,
                    request_id: request.cancellation_request_id,
                    cancellation_generation: request.cancellation_generation,
                },
            ),
        ),
        _ => Err(StoreError::InvalidStateEvent),
    }
}

/// The cancellation behind a boundary, as the whole history has it.
pub fn planner_v2_cancellation_cause(
    log: &EventLog,
    session_id: SessionId,
    run_id: RunId,
    boundary: UnknownInferenceBoundary,
) -> (r: Result<Option<ChildCancellationCauseV1>, StoreError>)
    ensures
        r == cancellation_cause_before(
            log@,
            session_id,
            run_id,
            boundary,
            crate::history::MAX_SEQUENCE,
        ),
{
    planner_v2_cancellation_cause_before(
        log,
        session_id,
        run_id,
        boundary,
        crate::history::MAX_SEQUENCE,
    )
}

/// What a prepared turn fixes.
pub open spec fn turn_in(event: EventEnvelope) -> Option<PlannerTurnPreparedV1> {
    match event.payload {
        EventPayload::PlannerTurnPreparedV1(prepared) => Some(prepared),
        _ => None,
    }
}

/// How many ends of a turn are on record, in any run.
pub open spec fn turn_ends(events: Seq<EventEnvelope>, turn_id: PlannerTurnId) -> nat {
    EventQuery::everywhere(PayloadFilter::PlannerTurnTerminal(turn_id)).rows(events).len()
}

/// How many ends of a turn are on record, in any run.
pub fn planner_turn_terminal_count(log: &EventLog, turn_id: PlannerTurnId) -> (r: usize)
    ensures
        r == turn_ends(log@, turn_id),
{
    log.count(&EventQuery::everywhere(PayloadFilter::PlannerTurnTerminal(turn_id)))
}

/// The preparation that an end belongs to: the turn is its own, it comes before, the end follows it,
/// and no end is on record.
pub open spec fn preparation_for_end(
    store: Store,
    event: EventEnvelope,
    run_id: RunId,
    turn_id: PlannerTurnId,
    prepared_event_id: EventId,
) -> Option<EventEnvelope> {
    match crate::planning_ground::event_of_run(
        store,
        event.session_id,
        run_id,
        prepared_event_id,
    ) {
        None => None,
        Some(prepared_event) => match turn_in(prepared_event) {
            None => None,
            Some(prepared) => if prepared_event.sequence < event.sequence && prepared.turn_id
                == turn_id && event.causal_parent == Some(prepared_event_id) && turn_ends(
                store.log@,
                turn_id,
            ) == 0 {
                Some(prepared_event)
            } else {
                None
            },
        },
    }
}

fn planner_prepared_for_terminal<'a>(
    store: &'a Store,
    event: &EventEnvelope,
    run_id: RunId,
    turn_id: PlannerTurnId,
    prepared_event_id: EventId,
) -> (r: Option<(&'a EventEnvelope, &'a PlannerTurnPreparedV1)>)
    ensures
        match (r, preparation_for_end(*store, *event, run_id, turn_id, prepared_event_id)) {
            (Some((found, prepared)), Some(expected)) => *found == expected && turn_in(expected)
                == Some(*prepared),
            (None, None) => true,
            _ => false,
        },
{
    let prepared_event = match store.log.event(event.session_id, run_id, prepared_event_id) {
        Ok(prepared_event) => prepared_event,
        Err(_) => return None,
    };
    match &prepared_event.payload {
        EventPayload::PlannerTurnPreparedV1(prepared) => if prepared_event.sequence < event.sequence
            && prepared.turn_id == turn_id && event.causal_parent == Some(prepared_event_id)
            && planner_turn_terminal_count(&store.log, turn_id) == 0 {
            Some((prepared_event, prepared))
        } else {
            None
        },
        _ => None,
    }
}

/// Whether the clock of an end can follow that of its preparation: no wall clock goes back; within
/// one runtime the monotonic clock does not either; and another runtime only ends what a restart, a
/// shutdown or a lost claim left open.
#[verifier::allow_in_spec]
pub fn planner_terminal_clock_follows_prepared(
    prepared_at: &RuntimeClockReading,
    terminal_at: &RuntimeClockReading,
    boundary: PlannerTerminalClockBoundary,
) -> bool
    returns
        (prepared_at.observed_at.not_after(terminal_at.observed_at) && (
        if prepared_at.runtime_instance_id == terminal_at.runtime_instance_id {
            same_runtime_not_before(prepared_at, terminal_at)
        } else {
            boundary == PlannerTerminalClockBoundary::Unknown(UnknownInferenceBoundary::Restart)
                || boundary == PlannerTerminalClockBoundary::Unknown(
                UnknownInferenceBoundary::Shutdown,
            ) || boundary == PlannerTerminalClockBoundary::Unknown(
                UnknownInferenceBoundary::ClaimRenewalFailed,
            )
        })),
{
    if !prepared_at.observed_at.not_after(terminal_at.observed_at) {
        return false;
    }
    if prepared_at.runtime_instance_id == terminal_at.runtime_instance_id {
        return same_runtime_not_before(prepared_at, terminal_at);
    }
    match boundary {
        PlannerTerminalClockBoundary::Observed => false,
        PlannerTerminalClockBoundary::Unknown(boundary) => boundary
            == UnknownInferenceBoundary::Restart || boundary == UnknownInferenceBoundary::Shutdown
            || boundary == UnknownInferenceBoundary::ClaimRenewalFailed,
    }
}

/// Whether a turn was prepared under a claim: the claim was the last, it held, and the turn names it.
pub open spec fn prepared_under_claim(
    prepared_event: EventEnvelope,
    prepared: PlannerTurnPreparedV1,
    claim_event: EventEnvelope,
    claim: RunClaimed,
    latest: EventEnvelope,
) -> bool {
    &&& claim_event.sequence < prepared_event.sequence
    &&& latest.id == claim_event.id
    &&& claim_event.actor_id == prepared_event.actor_id
    &&& claim.claim_id == prepared.claim_id
    &&& claim.claim_generation == prepared.claim_generation
    &&& claim.runtime_instance_id == prepared.claim_runtime_instance_id
    &&& claim.cancellation_generation == prepared.cancellation_generation
    &&& prepared.prepared_at.runtime_instance_id == claim.runtime_instance_id
    &&& prepared.prepared_at.observed_at.not_after(prepared_event.occurred_at)
    &&& prepared_event.occurred_at.before(claim.lease_expires_at)
    &&& prepared.prepared_at.observed_at.before(claim.lease_expires_at)
}

fn is_prepared_under_claim(
    prepared_event: &EventEnvelope,
    prepared: &PlannerTurnPreparedV1,
    claim_event: &EventEnvelope,
    claim: &RunClaimed,
    latest: &EventEnvelope,
) -> (r: bool)
    ensures
        r == prepared_under_claim(*prepared_event, *prepared, *claim_event, *claim, *latest),
{
    claim_event.sequence < prepared_event.sequence && latest.id == claim_event.id
        && claim_event.actor_id == prepared_event.actor_id && claim.claim_id == prepared.claim_id
        && claim.claim_generation == prepared.claim_generation && claim.runtime_instance_id
        == prepared.claim_runtime_instance_id && claim.cancellation_generation
        == prepared.cancellation_generation && prepared.prepared_at.runtime_instance_id
        == claim.runtime_instance_id && prepared.prepared_at.observed_at.not_after(
        prepared_event.occurred_at,
    ) && prepared_event.occurred_at.before(claim.lease_expires_at)
        && prepared.prepared_at.observed_at.before(claim.lease_expires_at)
}

/// Whether one claim can come after another: one generation on, later in the session, and not expired
/// when it was recorded.
pub open spec fn claim_can_follow(prior: EventEnvelope, next: EventEnvelope) -> bool {
    match (crate::planning_ground::claim_in(prior), crate::planning_ground::claim_in(next)) {
        (Some(prior_claim), Some(next_claim)) => {
            &&& next_claim.claim_generation == prior_claim.claim_generation + 1
            &&& next.occurred_at.before(next_claim.lease_expires_at)
            &&& prior.sequence < next.sequence
        },
        _ => false,
    }
}

/// Whether one claim goes on from another: the same actor and runtime, the same cancellation
/// generation, and the first had not expired.
pub open spec fn claim_goes_on(prior: EventEnvelope, next: EventEnvelope) -> bool {
    match (crate::planning_ground::claim_in(prior), crate::planning_ground::claim_in(next)) {
        (Some(prior_claim), Some(next_claim)) => {
            &&& next.actor_id == prior.actor_id
            &&& next_claim.runtime_instance_id == prior_claim.runtime_instance_id
            &&& next_claim.cancellation_generation == prior_claim.cancellation_generation
            &&& next.occurred_at.before(prior_claim.lease_expires_at)
        },
        _ => false,
    }
}

/// Whether each claim can come after the one before it.
pub open spec fn chain_stands(claims: Seq<EventEnvelope>) -> bool {
    forall|i: int|
        1 <= i < claims.len() ==> claim_can_follow(claims[i - 1], #[trigger] claims[i])
}

/// Whether each claim goes on from the one before it.
pub open spec fn chain_goes_on(claims: Seq<EventEnvelope>) -> bool {
    forall|i: int| 1 <= i < claims.len() ==> claim_goes_on(claims[i - 1], #[trigger] claims[i])
}

/// Whether the owner of the last claim is live at an end, and records it.
pub open spec fn owner_is_live(
    terminal: EventEnvelope,
    clock: RuntimeClockReading,
    last: EventEnvelope,
) -> bool {
    crate::planning_ground::claim_in(last) matches Some(claim) && {
        &&& terminal.actor_id == last.actor_id
        &&& clock.runtime_instance_id == claim.runtime_instance_id
        &&& clock.observed_at.not_after(terminal.occurred_at)
        &&& terminal.occurred_at.before(claim.lease_expires_at)
        &&& clock.observed_at.before(claim.lease_expires_at)
    }
}

/// The claims of a run from one place of its session up to another.
pub open spec fn claims_between(
    events: Seq<EventEnvelope>,
    session_id: SessionId,
    run_id: RunId,
    from: u64,
    until: u64,
) -> Seq<EventEnvelope> {
    EventQuery::in_run(session_id, run_id, PayloadFilter::RunClaimed).starting_at(from).before(
        until,
    ).rows(events)
}

/// Whether the claims from a preparation to an end are a chain that the end may stand on, beginning
/// with the claim of the preparation and ending with a live owner.
pub open spec fn claims_stand(
    store: Store,
    terminal: EventEnvelope,
    run_id: RunId,
    prepared_event: EventEnvelope,
    prepared: PlannerTurnPreparedV1,
    clock: RuntimeClockReading,
) -> bool {
    let events = store.log@;
    let session_id = terminal.session_id;
    match crate::planning_ground::event_of_run(
        store,
        session_id,
        run_id,
        prepared.claim_event_id,
    ) {
        None => false,
        Some(claim_event) => {
            let claims = claims_between(
                events,
                session_id,
                run_id,
                claim_event.sequence,
                terminal.sequence,
            );
            &&& crate::planning_ground::claim_in(claim_event) matches Some(claim)
                && crate::claim_history::latest_claim_before_of(
                events,
                session_id,
                run_id,
                prepared_event.sequence,
            ) matches Some(latest) && prepared_under_claim(
                prepared_event,
                prepared,
                claim_event,
                claim,
                latest,
            )
            &&& 1 <= claims.len() <= store.contract.recon.max_terminal_claim_events
            &&& claims[0].id == claim_event.id
            &&& crate::claim_history::latest_claim_before_of(
                events,
                session_id,
                run_id,
                terminal.sequence,
            ) matches Some(latest) && claims.last().id == latest.id
            &&& chain_stands(claims)
            &&& owner_is_live(terminal, clock, claims.last())
        },
    }
}

/// How the claims from a preparation to an end hand the run over, where they are a chain at all.
pub open spec fn claim_continuity(
    store: Store,
    terminal: EventEnvelope,
    prepared_event: EventEnvelope,
    prepared: PlannerTurnPreparedV1,
    clock: RuntimeClockReading,
) -> Option<PlannerTerminalClaimContinuity> {
    match terminal.run_id {
        None => None,
        Some(run_id) => if prepared_event.run_id == Some(run_id) && claims_stand(
            store,
            terminal,
            run_id,
            prepared_event,
            prepared,
            clock,
        ) {
            let claim_event = crate::planning_ground::event_of_run(
                store,
                terminal.session_id,
                run_id,
                prepared.claim_event_id,
            )->0;
            let claims = claims_between(
                store.log@,
                terminal.session_id,
                run_id,
                claim_event.sequence,
                terminal.sequence,
            );
            let uncancelled = crate::claim_history::generation_in(
                crate::claim_history::latest_cancellation_before_of(
                    store.log@,
                    terminal.session_id,
                    run_id,
                    terminal.sequence,
                ),
            ) == prepared.cancellation_generation;
            if chain_goes_on(claims) && uncancelled {
                Some(PlannerTerminalClaimContinuity::Contiguous)
            } else {
                Some(PlannerTerminalClaimContinuity::Discontinuous)
            }
        } else {
            None
        },
    }
}

fn check_chain(claims: &Vec<&EventEnvelope>) -> (r: (bool, bool))
    ensures
        r.0 == chain_stands(crate::root_planning_stage::dereferenced(claims@)),
        r.0 ==> r.1 == chain_goes_on(crate::root_planning_stage::dereferenced(claims@)),
{
    let ghost chain = crate::root_planning_stage::dereferenced(claims@);
    let mut goes_on = true;
    let mut i: usize = 1;
    while i < claims.len()
        invariant
            1 <= i,
            i <= claims@.len() || claims@.len() == 0,
            chain == crate::root_planning_stage::dereferenced(claims@),
            forall|k: int|
                1 <= k < i && k < chain.len() ==> claim_can_follow(chain[k - 1], #[trigger] chain[k]),
            goes_on == (forall|k: int|
                1 <= k < i && k < chain.len() ==> claim_goes_on(chain[k - 1], #[trigger] chain[k])),
        decreases claims.len() - i,
    {
        let prior = claims[i - 1];
        let next = claims[i];
        assert(chain[i - 1] == *prior && chain[i as int] == *next);
        match (&prior.payload, &next.payload) {
            (EventPayload::RunClaimed(prior_claim), EventPayload::RunClaimed(next_claim)) => {
                if prior_claim.claim_generation.checked_add(1) != Some(next_claim.claim_generation)
                    || !next.occurred_at.before(next_claim.lease_expires_at) || prior.sequence
                    >= next.sequence {
                    assert(!claim_can_follow(chain[i - 1], chain[i as int]));
                    return (false, false);
                }
                if next.actor_id != prior.actor_id || next_claim.runtime_instance_id
                    != prior_claim.runtime_instance_id || next_claim.cancellation_generation
                    != prior_claim.cancellation_generation || !next.occurred_at.before(
                    prior_claim.lease_expires_at,
                ) {
                    assert(!claim_goes_on(chain[i - 1], chain[i as int]));
                    goes_on = false;
                } else {
                    assert(claim_goes_on(chain[i - 1], chain[i as int]));
                }
            },
            _ => {
                assert(!claim_can_follow(chain[i - 1], chain[i as int]));
                return (false, false);
            },
        }
        i += 1;
    }
    (true, goes_on)
}

fn check_owner_is_live(
    terminal: &EventEnvelope,
    clock: &RuntimeClockReading,
    last: &EventEnvelope,
) -> (r: bool)
    ensures
        r == owner_is_live(*terminal, *clock, *last),
{
    match &last.payload {
        EventPayload::RunClaimed(claim) => terminal.actor_id == last.actor_id
            && clock.runtime_instance_id == claim.runtime_instance_id
            && clock.observed_at.not_after(terminal.occurred_at) && terminal.occurred_at.before(
            claim.lease_expires_at,
        ) && clock.observed_at.before(claim.lease_expires_at),
        _ => false,
    }
}

fn select_claims_between<'a>(
    log: &'a EventLog,
    session_id: SessionId,
    run_id: RunId,
    from: u64,
    until: u64,
) -> (r: Vec<&'a EventEnvelope>)
    ensures
        crate::root_planning_stage::dereferenced(r@) == claims_between(
            log@,
            session_id,
            run_id,
            from,
            until,
        ),
{
    let rows = log.select(
        &EventQuery::in_run(session_id, run_id, PayloadFilter::RunClaimed).starting_at(from).before(
            until,
        ),
    );
    assert(crate::root_planning_stage::dereferenced(rows@) =~= claims_between(
        log@,
        session_id,
        run_id,
        from,
        until,
    ));
    rows
}

/// How the claims from a preparation to an end hand the run over. An end always needs a live owner;
/// gaps and takeovers in between make the chain discontinuous.
pub fn planner_terminal_claim_continuity(
    store: &Store,
    terminal: &EventEnvelope,
    prepared_event: &EventEnvelope,
    prepared: &PlannerTurnPreparedV1,
    clock: &RuntimeClockReading,
) -> (r: Result<PlannerTerminalClaimContinuity, StoreError>)
    ensures
        r == (match claim_continuity(*store, *terminal, *prepared_event, *prepared, *clock) {
            Some(continuity) => Ok::<PlannerTerminalClaimContinuity, StoreError>(continuity),
            None => Err(StoreError::InvalidStateEvent),
        }),
{
    let run_id = match planner_run_id(terminal) {
        Ok(run_id) => run_id,
        Err(error) => return Err(error),
    };
    if prepared_event.run_id != Some(run_id) {
        return Err(StoreError::InvalidStateEvent);
    }
    let session_id = terminal.session_id;
    let claim_event = match store.log.event(session_id, run_id, prepared.claim_event_id) {
        Ok(claim_event) => claim_event,
        Err(error) => return Err(error),
    };
    let claim = match &claim_event.payload {
        EventPayload::RunClaimed(claim) => claim,
        _ => return Err(StoreError::InvalidStateEvent),
    };
    match latest_claim_for_run_before(&store.log, session_id, run_id, prepared_event.sequence) {
        Some(latest) => if !is_prepared_under_claim(
            prepared_event,
            prepared,
            claim_event,
            claim,
            latest,
        ) {
            return Err(StoreError::InvalidStateEvent);
        },
        None => return Err(StoreError::InvalidStateEvent),
    }
    let claims = select_claims_between(
        &store.log,
        session_id,
        run_id,
        claim_event.sequence,
        terminal.sequence,
    );
    let ghost chain = crate::root_planning_stage::dereferenced(claims@);
    assert(chain.len() == claims@.len());
    if claims.len() == 0 || claims.len() > store.contract.recon.max_terminal_claim_events as usize
        || claims[0].id != claim_event.id {
        return Err(StoreError::InvalidStateEvent);
    }
    let last = claims[claims.len() - 1];
    assert(chain[0] == *claims@[0] && chain.last() == *last);
    match latest_claim_for_run_before(&store.log, session_id, run_id, terminal.sequence) {
        Some(latest) => if last.id != latest.id {
            return Err(StoreError::InvalidStateEvent);
        },
        None => return Err(StoreError::InvalidStateEvent),
    }
    let (stands, goes_on) = check_chain(&claims);
    if !stands || !check_owner_is_live(terminal, clock, last) {
        return Err(StoreError::InvalidStateEvent);
    }
    let uncancelled = latest_cancellation_generation_before(
        &store.log,
        session_id,
        run_id,
        terminal.sequence,
    ) == prepared.cancellation_generation;
    if goes_on && uncancelled {
        Ok(PlannerTerminalClaimContinuity::Contiguous)
    } else {
        Ok(PlannerTerminalClaimContinuity::Discontinuous)
    }
}

/// Whether a response answers a turn: the prepared model on the backend that the turn names, a text
/// that reads as the value, and a usage that fits the reservation. `backend` is what the runtime
/// computes of that name.
pub open spec fn answers_turn(
    prepared: PlannerTurnPreparedV1,
    response: StructuredInferenceResponse,
    usage_is_valid: bool,
    backend: BackendNameReading,
) -> bool {
    &&& response.model_id@ == prepared.backend_model.model_id@
    &&& response.backend_id@ == prepared.backend_model.backend_id@
    &&& crate::inference_identity::name_stands(prepared.backend_instance, backend)
    &&& response.evidence_matches
    &&& crate::json::read_as_same_value(response.raw_text@, response.value@)
    &&& response.normalized_usage is Some
    &&& usage_is_valid
}

/// A violation of the protocol.
pub open spec fn protocol_violation() -> PlannerTurnObservationV1 {
    PlannerTurnObservationV1::Failed {
        error: failed_with(PlannerInferenceErrorKind::ProtocolViolation, RetryDisposition::Never),
    }
}

fn planner_v2_protocol_failure() -> (r: PlannerTurnObservationV1)
    ensures
        r == protocol_violation(),
{
    PlannerTurnObservationV1::Failed {
        error: failed_with(PlannerInferenceErrorKind::ProtocolViolation, RetryDisposition::Never),
    }
}

/// What the retained evidence of a turn amounts to. `usage_is_valid` is whether the reported usage
/// fits the reservation, and `backend` what the runtime computes of the backend that the turn names.
pub open spec fn turn_observation(
    prepared: PlannerTurnPreparedV1,
    retained: RetainedInferenceEvidence,
    usage_is_valid: bool,
    backend: BackendNameReading,
) -> PlannerTurnObservationV1 {
    match retained {
        RetainedInferenceEvidence::Response { response } => if answers_turn(
            prepared,
            response,
            usage_is_valid,
            backend,
        ) {
            PlannerTurnObservationV1::Succeeded {
                reported_backend_model: prepared.backend_model,
                token_usage: response.normalized_usage->0,
            }
        } else {
            protocol_violation()
        },
        RetainedInferenceEvidence::Error { error } => if error.origin.backend_id@
            == prepared.backend_model.backend_id@ && crate::inference_identity::error_is_from(
            prepared.backend_instance,
            backend,
            error.origin,
        ) && error.structured_inference {
            PlannerTurnObservationV1::Failed { error: failed_with(error.kind, error.retry) }
        } else {
            protocol_violation()
        },
        RetainedInferenceEvidence::CancelledBeforeCall => PlannerTurnObservationV1::Failed {
            error: failed_with(PlannerInferenceErrorKind::Cancelled, RetryDisposition::Never),
        },
        RetainedInferenceEvidence::NotDispatched { reason } => PlannerTurnObservationV1::Failed {
            error: planner_v2_not_dispatched_failure(reason),
        },
    }
}

/// What the retained evidence of a turn amounts to.
pub fn planner_v2_observation_from_evidence(
    prepared: &PlannerTurnPreparedV1,
    retained: &RetainedInferenceEvidence,
    usage_is_valid: bool,
    backend: &BackendNameReading,
) -> (r: PlannerTurnObservationV1)
    ensures
        r == turn_observation(*prepared, *retained, usage_is_valid, *backend),
{
    match retained {
        RetainedInferenceEvidence::Response { response } => {
            let exact = response.model_id == prepared.backend_model.model_id && response.backend_id
                == prepared.backend_model.backend_id && response_matches_protocol_backend_instance(
                &prepared.backend_instance,
                backend,
                response.evidence_matches,
            ) && read_alike(&response.raw_text, &response.value) && usage_is_valid;
            match response.normalized_usage {
                Some(token_usage) => if exact {
                    PlannerTurnObservationV1::Succeeded {
                        reported_backend_model: prepared.backend_model.clone(),
                        token_usage,
                    }
                } else {
                    planner_v2_protocol_failure()
                },
                None => planner_v2_protocol_failure(),
            }
        },
        RetainedInferenceEvidence::Error { error } => if error.origin.backend_id
            == prepared.backend_model.backend_id && error_matches_protocol_backend_instance(
            &prepared.backend_instance,
            backend,
            &error.origin,
        ) && error.structured_inference {
            PlannerTurnObservationV1::Failed { error: failed_with(error.kind, error.retry) }
        } else {
            planner_v2_protocol_failure()
        },
        RetainedInferenceEvidence::CancelledBeforeCall => PlannerTurnObservationV1::Failed {
            error: failed_with(PlannerInferenceErrorKind::Cancelled, RetryDisposition::Never),
        },
        RetainedInferenceEvidence::NotDispatched { reason } => PlannerTurnObservationV1::Failed {
            error: planner_v2_not_dispatched_failure(*reason),
        },
    }
}

/// Whether an end of a turn comes from the model that it was prepared for, and keeps an artifact.
pub open spec fn ended_by_turn_model(
    store: Store,
    event: EventEnvelope,
    run_id: RunId,
    model: BackendModelRef,
    artifact: crate::artifact::ArtifactRef,
) -> bool {
    match crate::planning_ground::run_of(store, event.session_id, run_id) {
        Some(run) => crate::planning_ground::exact_provenance(
            event,
            crate::planning_ground::model_selection(run, model),
            Some(artifact),
        ),
        None => false,
    }
}

fn is_ended_by_turn_model(
    store: &Store,
    event: &EventEnvelope,
    run_id: RunId,
    model: &BackendModelRef,
    artifact: &crate::artifact::ArtifactRef,
) -> (r: bool)
    ensures
        r == ended_by_turn_model(*store, *event, run_id, *model, *artifact),
{
    match store.run_of_event(event.session_id, run_id) {
        Some(run) => has_exact_model_provenance(
            event,
            &expected_backend_selection(run, model),
            Some(artifact),
        ),
        None => false,
    }
}

/// Whether an observation is recorded under the authority that asks for it once more.
pub open spec fn observed_under(
    contract: Contract,
    run_id: RunId,
    authority: PlannerV2ObservationAuthority,
    event: EventEnvelope,
    observed: PlannerTurnObservedV1,
) -> bool {
    &&& event.run_id == Some(run_id)
    &&& observed.prepared_event_id == authority.prepared_event_id
    &&& observed.observed_at == authority.observed_at
    &&& event.provenance.producer@ == contract.producers.planner_observation@
    &&& event.causal_parent == Some(authority.prepared_event_id)
}

/// What is found of an observation that is recorded already. `retained` is what it retained, in its
/// canonical form.
pub open spec fn existing_observation_verdict(
    store: Store,
    run_id: RunId,
    authority: PlannerV2ObservationAuthority,
    supplied: RetainedInferenceEvidence,
    event: EventEnvelope,
    retained: Result<RetainedInferenceEvidence, StoreError>,
    usage_is_valid: bool,
    backend: BackendNameReading,
) -> Result<(), StoreError> {
    match event.payload {
        EventPayload::PlannerTurnObservedV1(observed) => if !observed_under(
            store.contract,
            run_id,
            authority,
            event,
            observed,
        ) {
            Err(StoreError::IdentifiedEventConflict)
        } else if observed.normalized_complete_evidence_artifact.media_type@
            != store.contract.media.inference_evidence@ {
            Err(StoreError::InvalidStateEvent)
        } else {
            match retained {
                Err(error) => Err(error),
                Ok(retained) => existing_observation_agrees(
                    store,
                    run_id,
                    authority,
                    supplied,
                    event,
                    observed,
                    retained,
                    usage_is_valid,
                    backend,
                ),
            }
        },
        _ => Err(StoreError::IdentifiedEventConflict),
    }
}

/// What is found of an observation once its evidence is read.
pub open spec fn existing_observation_agrees(
    store: Store,
    run_id: RunId,
    authority: PlannerV2ObservationAuthority,
    supplied: RetainedInferenceEvidence,
    event: EventEnvelope,
    observed: PlannerTurnObservedV1,
    retained: RetainedInferenceEvidence,
    usage_is_valid: bool,
    backend: BackendNameReading,
) -> Result<(), StoreError> {
    match crate::planning_ground::event_of_run(
        store,
        event.session_id,
        run_id,
        authority.prepared_event_id,
    ) {
        None => Err(StoreError::InvalidStateEvent),
        Some(prepared_event) => match (
            turn_in(prepared_event),
            crate::planning_ground::run_of(store, event.session_id, run_id),
        ) {
            (Some(prepared), Some(_)) => match claim_continuity(
                store,
                event,
                prepared_event,
                prepared,
                observed.observed_at,
            ) {
                None => Err(StoreError::InvalidStateEvent),
                Some(continuity) => crate::error::no_conflict(
                    {
                        &&& retained.same(&supplied)
                        &&& observed.turn_id == prepared.turn_id
                        &&& observed.outcome.same(
                            &turn_observation(prepared, retained, usage_is_valid, backend),
                        )
                        &&& continuity == PlannerTerminalClaimContinuity::Contiguous
                        &&& planner_terminal_clock_follows_prepared(
                            &prepared.prepared_at,
                            &observed.observed_at,
                            PlannerTerminalClockBoundary::Observed,
                        )
                        &&& ended_by_turn_model(
                            store,
                            event,
                            run_id,
                            prepared.backend_model,
                            observed.normalized_complete_evidence_artifact,
                        )
                    },
                ),
            },
            _ => Err(StoreError::InvalidStateEvent),
        },
    }
}

fn check_existing_observation(
    store: &Store,
    run_id: RunId,
    authority: &PlannerV2ObservationAuthority,
    supplied: &RetainedInferenceEvidence,
    event: &EventEnvelope,
    observed: &PlannerTurnObservedV1,
    retained: &RetainedInferenceEvidence,
    usage_is_valid: bool,
    backend: &BackendNameReading,
) -> (r: Result<(), StoreError>)
    ensures
        r == existing_observation_agrees(
            *store,
            run_id,
            *authority,
            *supplied,
            *event,
            *observed,
            *retained,
            usage_is_valid,
            *backend,
        ),
{
    let prepared_event = match store.log.event(
        event.session_id,
        run_id,
        authority.prepared_event_id,
    ) {
        Ok(prepared_event) => prepared_event,
        Err(error) => return Err(error),
    };
    let prepared = match &prepared_event.payload {
        EventPayload::PlannerTurnPreparedV1(prepared) => prepared,
        _ => return Err(StoreError::InvalidStateEvent),
    };
    if store.run_of_event(event.session_id, run_id).is_none() {
        return Err(StoreError::InvalidStateEvent);
    }
    let continuity = match planner_terminal_claim_continuity(
        store,
        event,
        prepared_event,
        prepared,
        &observed.observed_at,
    ) {
        Ok(continuity) => continuity,
        Err(error) => return Err(error),
    };
    if *retained != *supplied || observed.turn_id != prepared.turn_id || observed.outcome
        != planner_v2_observation_from_evidence(prepared, retained, usage_is_valid, backend)
        || continuity != PlannerTerminalClaimContinuity::Contiguous || !planner_terminal_clock_follows_prepared(
        &prepared.prepared_at,
        &observed.observed_at,
        PlannerTerminalClockBoundary::Observed,
    ) || !is_ended_by_turn_model(
        store,
        event,
        run_id,
        &prepared.backend_model,
        &observed.normalized_complete_evidence_artifact,
    ) {
        return Err(StoreError::IdentifiedEventConflict);
    }
    Ok(())
}

/// Refuses an observation that is recorded already but is not the one that is asked for.
pub fn validate_existing_planner_v2_observation(
    store: &Store,
    run_id: RunId,
    authority: &PlannerV2ObservationAuthority,
    supplied: &RetainedInferenceEvidence,
    event: &EventEnvelope,
    retained: &Result<RetainedInferenceEvidence, StoreError>,
    usage_is_valid: bool,
    backend: &BackendNameReading,
) -> (r: Result<(), StoreError>)
    ensures
        r == existing_observation_verdict(
            *store,
            run_id,
            *authority,
            *supplied,
            *event,
            *retained,
            usage_is_valid,
            *backend,
        ),
{
    let observed = match &event.payload {
        EventPayload::PlannerTurnObservedV1(observed) => observed,
        _ => return Err(StoreError::IdentifiedEventConflict),
    };
    if event.run_id != Some(run_id) || observed.prepared_event_id != authority.prepared_event_id
        || observed.observed_at != authority.observed_at || event.provenance.producer
        != store.contract.producers.planner_observation || event.causal_parent != Some(
        authority.prepared_event_id,
    ) {
        return Err(StoreError::IdentifiedEventConflict);
    }
    match require_artifact_media_type(
        &observed.normalized_complete_evidence_artifact,
        &store.contract.media.inference_evidence,
    ) {
        Ok(()) => {},
        Err(error) => return Err(error),
    }
    match retained {
        Ok(retained) => check_existing_observation(
            store,
            run_id,
            authority,
            supplied,
            event,
            observed,
            retained,
            usage_is_valid,
            backend,
        ),
        Err(error) => Err(*error),
    }
}

/// Whether an unknown outcome is recorded under the authority that asks for it once more.
pub open spec fn unknown_under(
    contract: Contract,
    run_id: RunId,
    authority: PlannerV2UnknownAuthority,
    event: EventEnvelope,
    unknown: PlannerTurnUnknownV1,
) -> bool {
    &&& event.run_id == Some(run_id)
    &&& unknown.prepared_event_id == authority.prepared_event_id
    &&& unknown.boundary == authority.boundary
    &&& unknown.boundary_at == authority.boundary_at
    &&& unknown.reason == planner_v2_unknown_reason(authority.boundary)
    &&& event.provenance.producer@ == contract.producers.planner_unknown@
    &&& event.causal_parent == Some(authority.prepared_event_id)
}

/// The generation that a boundary has to name: that of the cancellation behind it, or the turn's.
#[verifier::allow_in_spec]
pub fn boundary_generation(
    cancellation: &Option<ChildCancellationCauseV1>,
    prepared: &PlannerTurnPreparedV1,
) -> u64
    returns
        (match *cancellation {
            Some(cause) => cause.cancellation_generation,
            None => prepared.cancellation_generation,
        }),
{
    match cancellation {
        Some(cause) => cause.cancellation_generation,
        None => prepared.cancellation_generation,
    }
}

/// What is found of an unknown outcome that is recorded already. `retained` is what it retained of
/// its boundary, in its canonical form.
pub open spec fn existing_unknown_verdict(
    store: Store,
    run_id: RunId,
    authority: PlannerV2UnknownAuthority,
    event: EventEnvelope,
    retained: Result<RetainedCancellationBoundaryEvidence, StoreError>,
) -> Result<(), StoreError> {
    match event.payload {
        EventPayload::PlannerTurnUnknownV1(unknown) => if !unknown_under(
            store.contract,
            run_id,
            authority,
            event,
            unknown,
        ) {
            Err(StoreError::IdentifiedEventConflict)
        } else {
            match crate::planning_ground::event_of_run(
                store,
                event.session_id,
                run_id,
                authority.prepared_event_id,
            ) {
                None => Err(StoreError::InvalidStateEvent),
                Some(prepared_event) => match turn_in(prepared_event) {
                    None => Err(StoreError::InvalidStateEvent),
                    Some(prepared) => match cancellation_cause_before(
                        store.log@,
                        event.session_id,
                        run_id,
                        authority.boundary,
                        event.sequence,
                    ) {
                        Err(error) => Err(error),
                        Ok(cancellation) => if unknown.boundary_evidence_artifact.media_type@
                            != store.contract.media.cancellation_boundary@ {
                            Err(StoreError::InvalidStateEvent)
                        } else {
                            match retained {
                                Err(error) => Err(error),
                                Ok(retained) => existing_unknown_agrees(
                                    store,
                                    run_id,
                                    authority,
                                    event,
                                    unknown,
                                    prepared_event,
                                    prepared,
                                    cancellation,
                                    retained,
                                ),
                            }
                        },
                    },
                },
            }
        },
        _ => Err(StoreError::IdentifiedEventConflict),
    }
}

/// What is found of an unknown outcome once its boundary is read.
pub open spec fn existing_unknown_agrees(
    store: Store,
    run_id: RunId,
    authority: PlannerV2UnknownAuthority,
    event: EventEnvelope,
    unknown: PlannerTurnUnknownV1,
    prepared_event: EventEnvelope,
    prepared: PlannerTurnPreparedV1,
    cancellation: Option<ChildCancellationCauseV1>,
    retained: RetainedCancellationBoundaryEvidence,
) -> Result<(), StoreError> {
    if crate::planning_ground::run_of(store, event.session_id, run_id) is None || claim_continuity(
        store,
        event,
        prepared_event,
        prepared,
        unknown.boundary_at,
    ) is None {
        Err(StoreError::InvalidStateEvent)
    } else {
        crate::error::no_conflict(
            {
                &&& unknown.turn_id == prepared.turn_id
                &&& unknown.cancellation == cancellation
                &&& planner_terminal_clock_follows_prepared(
                    &prepared.prepared_at,
                    &unknown.boundary_at,
                    PlannerTerminalClockBoundary::Unknown(unknown.boundary),
                )
                &&& retained.reason == authority.boundary
                &&& retained.prepared_event_id == authority.prepared_event_id
                &&& retained.cancellation_generation == boundary_generation(
                    &cancellation,
                    &prepared,
                )
                &&& ended_by_turn_model(
                    store,
                    event,
                    run_id,
                    prepared.backend_model,
                    unknown.boundary_evidence_artifact,
                )
            },
        )
    }
}

fn check_existing_unknown(
    store: &Store,
    run_id: RunId,
    authority: &PlannerV2UnknownAuthority,
    event: &EventEnvelope,
    unknown: &PlannerTurnUnknownV1,
    prepared_event: &EventEnvelope,
    prepared: &PlannerTurnPreparedV1,
    cancellation: Option<ChildCancellationCauseV1>,
    retained: &RetainedCancellationBoundaryEvidence,
) -> (r: Result<(), StoreError>)
    ensures
        r == existing_unknown_agrees(
            *store,
            run_id,
            *authority,
            *event,
            *unknown,
            *prepared_event,
            *prepared,
            cancellation,
            *retained,
        ),
{
    if store.run_of_event(event.session_id, run_id).is_none() {
        return Err(StoreError::InvalidStateEvent);
    }
    match planner_terminal_claim_continuity(
        store,
        event,
        prepared_event,
        prepared,
        &unknown.boundary_at,
    ) {
        Ok(_) => {},
        Err(error) => return Err(error),
    }
    if unknown.turn_id != prepared.turn_id || unknown.cancellation != cancellation
        || !planner_terminal_clock_follows_prepared(
        &prepared.prepared_at,
        &unknown.boundary_at,
        PlannerTerminalClockBoundary::Unknown(unknown.boundary),
    ) || retained.reason != authority.boundary || retained.prepared_event_id
        != authority.prepared_event_id || retained.cancellation_generation != boundary_generation(
        &cancellation,
        prepared,
    ) || !is_ended_by_turn_model(
        store,
        event,
        run_id,
        &prepared.backend_model,
        &unknown.boundary_evidence_artifact,
    ) {
        return Err(StoreError::IdentifiedEventConflict);
    }
    Ok(())
}

/// Refuses an unknown outcome that is recorded already but is not the one that is asked for.
pub fn validate_existing_planner_v2_unknown(
    store: &Store,
    run_id: RunId,
    authority: &PlannerV2UnknownAuthority,
    event: &EventEnvelope,
    retained: &Result<RetainedCancellationBoundaryEvidence, StoreError>,
) -> (r: Result<(), StoreError>)
    ensures
        r == existing_unknown_verdict(*store, run_id, *authority, *event, *retained),
{
    let unknown = match &event.payload {
        EventPayload::PlannerTurnUnknownV1(unknown) => unknown,
        _ => return Err(StoreError::IdentifiedEventConflict),
    };
    if event.run_id != Some(run_id) || unknown.prepared_event_id != authority.prepared_event_id
        || unknown.boundary != authority.boundary || unknown.boundary_at != authority.boundary_at
        || unknown.reason != planner_v2_unknown_reason(authority.boundary)
        || event.provenance.producer != store.contract.producers.planner_unknown
        || event.causal_parent != Some(authority.prepared_event_id) {
        return Err(StoreError::IdentifiedEventConflict);
    }
    let prepared_event = match store.log.event(
        event.session_id,
        run_id,
        authority.prepared_event_id,
    ) {
        Ok(prepared_event) => prepared_event,
        Err(error) => return Err(error),
    };
    let prepared = match &prepared_event.payload {
        EventPayload::PlannerTurnPreparedV1(prepared) => prepared,
        _ => return Err(StoreError::InvalidStateEvent),
    };
    let cancellation = match planner_v2_cancellation_cause_before(
        &store.log,
        event.session_id,
        run_id,
        authority.boundary,
        event.sequence,
    ) {
        Ok(cancellation) => cancellation,
        Err(error) => return Err(error),
    };
    match require_artifact_media_type(
        &unknown.boundary_evidence_artifact,
        &store.contract.media.cancellation_boundary,
    ) {
        Ok(()) => {},
        Err(error) => return Err(error),
    }
    match retained {
        Ok(retained) => check_existing_unknown(
            store,
            run_id,
            authority,
            event,
            unknown,
            prepared_event,
            prepared,
            cancellation,
            retained,
        ),
        Err(error) => Err(*error),
    }
}

/// What a finalization that is recorded already came to. `evidence` is what the end of the run
/// retained, in its canonical form, where the turn was finalized by ending the run.
pub open spec fn existing_finalization(
    contract: Contract,
    run_id: RunId,
    authority: PlannerV2FinalizationAuthority,
    event: EventEnvelope,
    evidence: Result<RetainedPlannerV2FinalizationEvidence, StoreError>,
) -> Result<PlannerV2FinalizationDisposition, StoreError> {
    if event.run_id != Some(run_id) || event.provenance.producer@
        != contract.producers.planner_finalization@ {
        Err(StoreError::IdentifiedEventConflict)
    } else {
        match event.payload {
            EventPayload::PlannerTurnAcceptedV1(accepted) => if accepted.accepted_at
                == authority.finalized_at {
                Ok(PlannerV2FinalizationDisposition::Accepted)
            } else {
                Err(StoreError::IdentifiedEventConflict)
            },
            EventPayload::PlannerTurnRejectedV1(rejected) => if rejected.rejected_at
                == authority.finalized_at {
                Ok(PlannerV2FinalizationDisposition::Rejected(rejected.reason))
            } else {
                Err(StoreError::IdentifiedEventConflict)
            },
            EventPayload::RunStateChanged { from, to } => if from == RunState::Running && (to
                == RunState::Failed || to == RunState::Cancelled) {
                match event.provenance.raw_artifact {
                    None => Err(StoreError::IdentifiedEventConflict),
                    Some(artifact) => if artifact.media_type@
                        != contract.media.planner_v2_finalization_evidence@ {
                        Err(StoreError::InvalidStateEvent)
                    } else {
                        match evidence {
                            Err(error) => Err(error),
                            Ok(evidence) => if evidence.finalized_at == authority.finalized_at
                                && evidence.disposition == run_end(to) && event.causal_parent
                                == Some(evidence.terminal_event_id) {
                                Ok(
                                    if to == RunState::Cancelled {
                                        PlannerV2FinalizationDisposition::RunCancelled
                                    } else {
                                        PlannerV2FinalizationDisposition::RunFailed
                                    },
                                )
                            } else {
                                Err(StoreError::IdentifiedEventConflict)
                            },
                        }
                    },
                }
            } else {
                Err(StoreError::IdentifiedEventConflict)
            },
            _ => Err(StoreError::IdentifiedEventConflict),
        }
    }
}

/// How the evidence of an ended run names its end.
#[verifier::allow_in_spec]
pub fn run_end(to: RunState) -> RetainedPlannerV2TerminalDisposition
    returns
        (if to == RunState::Cancelled {
            RetainedPlannerV2TerminalDisposition::Cancelled
        } else {
            RetainedPlannerV2TerminalDisposition::Failed
        }),
{
    if to == RunState::Cancelled {
        RetainedPlannerV2TerminalDisposition::Cancelled
    } else {
        RetainedPlannerV2TerminalDisposition::Failed
    }
}

/// What a finalization that is recorded already came to; refused where it is not the one that is
/// asked for.
pub fn validate_existing_planner_v2_finalization(
    contract: &Contract,
    run_id: RunId,
    authority: &PlannerV2FinalizationAuthority,
    event: &EventEnvelope,
    evidence: &Result<RetainedPlannerV2FinalizationEvidence, StoreError>,
) -> (r: Result<PlannerV2FinalizationDisposition, StoreError>)
    ensures
        r == existing_finalization(*contract, run_id, *authority, *event, *evidence),
{
    if event.run_id != Some(run_id) || event.provenance.producer
        != contract.producers.planner_finalization {
        return Err(StoreError::IdentifiedEventConflict);
    }
    match &event.payload {
        EventPayload::PlannerTurnAcceptedV1(accepted) => if accepted.accepted_at
            == authority.finalized_at {
            Ok(PlannerV2FinalizationDisposition::Accepted)
        } else {
            Err(StoreError::IdentifiedEventConflict)
        },
        EventPayload::PlannerTurnRejectedV1(rejected) => if rejected.rejected_at
            == authority.finalized_at {
            Ok(PlannerV2FinalizationDisposition::Rejected(rejected.reason))
        } else {
            Err(StoreError::IdentifiedEventConflict)
        },
        EventPayload::RunStateChanged { from, to } => {
            if *from != RunState::Running || (*to != RunState::Failed && *to
                != RunState::Cancelled) {
                return Err(StoreError::IdentifiedEventConflict);
            }
            let artifact = match &event.provenance.raw_artifact {
                Some(artifact) => artifact,
                None => return Err(StoreError::IdentifiedEventConflict),
            };
            match require_artifact_media_type(
                artifact,
                &contract.media.planner_v2_finalization_evidence,
            ) {
                Ok(()) => {},
                Err(error) => return Err(error),
            }
            let evidence = match evidence {
                Ok(evidence) => evidence,
                Err(error) => return Err(*error),
            };
            if evidence.finalized_at != authority.finalized_at || evidence.disposition != run_end(
                *to,
            ) || event.causal_parent != Some(evidence.terminal_event_id) {
                return Err(StoreError::IdentifiedEventConflict);
            }
            Ok(
                if *to == RunState::Cancelled {
                    PlannerV2FinalizationDisposition::RunCancelled
                } else {
                    PlannerV2FinalizationDisposition::RunFailed
                },
            )
        },
        _ => Err(StoreError::IdentifiedEventConflict),
    }
}

/// What is found of an observed end of a turn. `retained` is what it retained, in its canonical form,
/// `usage_is_valid` whether the reported usage fits the reservation, and `backend` what the runtime
/// computes of the backend that the turn names.
pub open spec fn turn_observation_verdict(
    store: Store,
    event: EventEnvelope,
    observed: PlannerTurnObservedV1,
    retained: Result<RetainedInferenceEvidence, StoreError>,
    usage_is_valid: bool,
    backend: BackendNameReading,
) -> Result<(), StoreError> {
    match event.run_id {
        None => Err(StoreError::InvalidStateEvent),
        Some(run_id) => match preparation_for_end(
            store,
            event,
            run_id,
            observed.turn_id,
            observed.prepared_event_id,
        ) {
            None => Err(StoreError::InvalidStateEvent),
            Some(prepared_event) => {
                let prepared = turn_in(prepared_event)->0;
                let continuity = claim_continuity(
                    store,
                    event,
                    prepared_event,
                    prepared,
                    observed.observed_at,
                );
                let artifact = observed.normalized_complete_evidence_artifact;
                if !crate::planning_ground::run_is_running(store, run_id) || continuity is None
                    || !ended_by_turn_model(
                    store,
                    event,
                    run_id,
                    prepared.backend_model,
                    artifact,
                ) || artifact.media_type@ != store.contract.media.inference_evidence@ {
                    Err(StoreError::InvalidStateEvent)
                } else {
                    match retained {
                        Err(error) => Err(error),
                        Ok(retained) => crate::error::demand(
                            {
                                &&& continuity == Some(PlannerTerminalClaimContinuity::Contiguous)
                                &&& planner_terminal_clock_follows_prepared(
                                    &prepared.prepared_at,
                                    &observed.observed_at,
                                    PlannerTerminalClockBoundary::Observed,
                                )
                                &&& observed.outcome.same(
                                    &turn_observation(prepared, retained, usage_is_valid, backend),
                                )
                            },
                        ),
                    }
                }
            },
        },
    }
}

/// Refuses an observed end of a turn that may not be recorded.
pub fn validate_planner_turn_observed_v1(
    store: &Store,
    event: &EventEnvelope,
    observed: &PlannerTurnObservedV1,
    retained: &Result<RetainedInferenceEvidence, StoreError>,
    usage_is_valid: bool,
    backend: &BackendNameReading,
) -> (r: Result<(), StoreError>)
    ensures
        r == turn_observation_verdict(
            *store,
            *event,
            *observed,
            *retained,
            usage_is_valid,
            *backend,
        ),
{
    let run_id = match planner_run_id(event) {
        Ok(run_id) => run_id,
        Err(error) => return Err(error),
    };
    let (prepared_event, prepared) = match planner_prepared_for_terminal(
        store,
        event,
        run_id,
        observed.turn_id,
        observed.prepared_event_id,
    ) {
        Some(found) => found,
        None => return Err(StoreError::InvalidStateEvent),
    };
    let continuity = match planner_terminal_claim_continuity(
        store,
        event,
        prepared_event,
        prepared,
        &observed.observed_at,
    ) {
        Ok(continuity) => continuity,
        Err(error) => return Err(error),
    };
    let artifact = &observed.normalized_complete_evidence_artifact;
    if !store.is_running(run_id) || !is_ended_by_turn_model(
        store,
        event,
        run_id,
        &prepared.backend_model,
        artifact,
    ) {
        return Err(StoreError::InvalidStateEvent);
    }
    match require_artifact_media_type(artifact, &store.contract.media.inference_evidence) {
        Ok(()) => {},
        Err(error) => return Err(error),
    }
    let retained = match retained {
        Ok(retained) => retained,
        Err(error) => return Err(*error),
    };
    if continuity != PlannerTerminalClaimContinuity::Contiguous
        || !planner_terminal_clock_follows_prepared(
        &prepared.prepared_at,
        &observed.observed_at,
        PlannerTerminalClockBoundary::Observed,
    ) || observed.outcome != planner_v2_observation_from_evidence(
        prepared,
        retained,
        usage_is_valid,
        backend,
    ) {
        return Err(StoreError::InvalidStateEvent);
    }
    Ok(())
}

/// Whether an unknown outcome of a turn can have its reason at a boundary.
#[verifier::allow_in_spec]
pub fn turn_reason_fits_boundary(
    reason: UnknownInferenceOutcomeReason,
    boundary: UnknownInferenceBoundary,
) -> bool
    returns
        (match reason {
            UnknownInferenceOutcomeReason::RuntimeRestartedBeforeObservation => boundary
                == UnknownInferenceBoundary::Restart || boundary
                == UnknownInferenceBoundary::Shutdown,
            UnknownInferenceOutcomeReason::ClaimExpiredBeforeObservation => boundary
                == UnknownInferenceBoundary::ClaimRenewalFailed,
            UnknownInferenceOutcomeReason::EvidenceCommitIndeterminate => boundary
                == UnknownInferenceBoundary::Deadline || boundary
                == UnknownInferenceBoundary::Cancelled,
        }),
{
    match reason {
        UnknownInferenceOutcomeReason::RuntimeRestartedBeforeObservation => boundary
            == UnknownInferenceBoundary::Restart || boundary == UnknownInferenceBoundary::Shutdown,
        UnknownInferenceOutcomeReason::ClaimExpiredBeforeObservation => boundary
            == UnknownInferenceBoundary::ClaimRenewalFailed,
        UnknownInferenceOutcomeReason::EvidenceCommitIndeterminate => boundary
            == UnknownInferenceBoundary::Deadline || boundary
            == UnknownInferenceBoundary::Cancelled,
    }
}

/// Whether the retained boundary of a turn says what its end says.
pub open spec fn boundary_agrees(
    prepared: PlannerTurnPreparedV1,
    unknown: PlannerTurnUnknownV1,
    boundary: RetainedCancellationBoundaryEvidence,
) -> bool {
    &&& boundary.reason == unknown.boundary
    &&& boundary.prepared_event_id == unknown.prepared_event_id
    &&& boundary.cancellation_generation == boundary_generation(&unknown.cancellation, &prepared)
    &&& turn_reason_fits_boundary(unknown.reason, unknown.boundary)
}

/// What is found of an unknown outcome of a turn. `cause` is what is found of the cancellation that
/// it names, if it names one, and `boundary` what it retained, in its canonical form.
pub open spec fn turn_unknown_verdict(
    store: Store,
    event: EventEnvelope,
    unknown: PlannerTurnUnknownV1,
    cause: Result<(), StoreError>,
    boundary: Result<RetainedCancellationBoundaryEvidence, StoreError>,
) -> Result<(), StoreError> {
    match event.run_id {
        None => Err(StoreError::InvalidStateEvent),
        Some(run_id) => match preparation_for_end(
            store,
            event,
            run_id,
            unknown.turn_id,
            unknown.prepared_event_id,
        ) {
            None => Err(StoreError::InvalidStateEvent),
            Some(prepared_event) => {
                let prepared = turn_in(prepared_event)->0;
                let artifact = unknown.boundary_evidence_artifact;
                if !crate::planning_ground::run_is_running(store, run_id) || claim_continuity(
                    store,
                    event,
                    prepared_event,
                    prepared,
                    unknown.boundary_at,
                ) is None || !ended_by_turn_model(
                    store,
                    event,
                    run_id,
                    prepared.backend_model,
                    artifact,
                ) {
                    Err(StoreError::InvalidStateEvent)
                } else {
                    crate::error::and_next(
                        if unknown.cancellation is Some {
                            cause
                        } else {
                            Ok(())
                        },
                        if (unknown.cancellation is Some) != (unknown.boundary
                            == UnknownInferenceBoundary::Cancelled)
                            || !planner_terminal_clock_follows_prepared(
                            &prepared.prepared_at,
                            &unknown.boundary_at,
                            PlannerTerminalClockBoundary::Unknown(unknown.boundary),
                        ) || artifact.media_type@ != store.contract.media.cancellation_boundary@ {
                            Err(StoreError::InvalidStateEvent)
                        } else {
                            match boundary {
                                Err(error) => Err(error),
                                Ok(boundary) => crate::error::demand(
                                    boundary_agrees(prepared, unknown, boundary),
                                ),
                            }
                        },
                    )
                }
            },
        },
    }
}

/// Refuses an unknown outcome of a turn that may not be recorded.
pub fn validate_planner_turn_unknown_v1(
    store: &Store,
    event: &EventEnvelope,
    unknown: &PlannerTurnUnknownV1,
    cause: Result<(), StoreError>,
    boundary: &Result<RetainedCancellationBoundaryEvidence, StoreError>,
) -> (r: Result<(), StoreError>)
    ensures
        r == turn_unknown_verdict(*store, *event, *unknown, cause, *boundary),
{
    let run_id = match planner_run_id(event) {
        Ok(run_id) => run_id,
        Err(error) => return Err(error),
    };
    let (prepared_event, prepared) = match planner_prepared_for_terminal(
        store,
        event,
        run_id,
        unknown.turn_id,
        unknown.prepared_event_id,
    ) {
        Some(found) => found,
        None => return Err(StoreError::InvalidStateEvent),
    };
    match planner_terminal_claim_continuity(
        store,
        event,
        prepared_event,
        prepared,
        &unknown.boundary_at,
    ) {
        Ok(_) => {},
        Err(error) => return Err(error),
    }
    let artifact = &unknown.boundary_evidence_artifact;
    if !store.is_running(run_id) || !is_ended_by_turn_model(
        store,
        event,
        run_id,
        &prepared.backend_model,
        artifact,
    ) {
        return Err(StoreError::InvalidStateEvent);
    }
    if unknown.cancellation.is_some() {
        match cause {
            Ok(()) => {},
            Err(error) => return Err(error),
        }
    }
    if unknown.cancellation.is_some() != (unknown.boundary == UnknownInferenceBoundary::Cancelled)
        || !planner_terminal_clock_follows_prepared(
        &prepared.prepared_at,
        &unknown.boundary_at,
        PlannerTerminalClockBoundary::Unknown(unknown.boundary),
    ) {
        return Err(StoreError::InvalidStateEvent);
    }
    match require_artifact_media_type(artifact, &store.contract.media.cancellation_boundary) {
        Ok(()) => {},
        Err(error) => return Err(error),
    }
    let boundary = match boundary {
        Ok(boundary) => boundary,
        Err(error) => return Err(*error),
    };
    if boundary.reason != unknown.boundary || boundary.prepared_event_id
        != unknown.prepared_event_id || boundary.cancellation_generation != boundary_generation(
        &unknown.cancellation,
        prepared,
    ) || !turn_reason_fits_boundary(unknown.reason, unknown.boundary) {
        return Err(StoreError::InvalidStateEvent);
    }
    Ok(())
}

/// The reason that is given for a boundary is the only one that is accepted at it.
pub proof fn law_unknown_reason_is_the_accepted_one(
    reason: UnknownInferenceOutcomeReason,
    boundary: UnknownInferenceBoundary,
)
    ensures
        turn_reason_fits_boundary(reason, boundary) <==> reason == planner_v2_unknown_reason(
            boundary,
        ),
{
}

/// Within one runtime no end is accepted before its preparation, whatever it is recorded at.
pub proof fn law_ends_come_after_preparation(
    prepared_at: RuntimeClockReading,
    terminal_at: RuntimeClockReading,
    boundary: PlannerTerminalClockBoundary,
)
    requires
        prepared_at.runtime_instance_id == terminal_at.runtime_instance_id,
        planner_terminal_clock_follows_prepared(&prepared_at, &terminal_at, boundary),
    ensures
        prepared_at.monotonic_nanos <= terminal_at.monotonic_nanos,
        prepared_at.observed_at.not_after(terminal_at.observed_at),
{
}

/// What one runtime prepared no other observes: an observation under another runtime's clock is
/// refused.
pub proof fn law_only_the_preparing_runtime_observes(
    store: Store,
    event: EventEnvelope,
    observed: PlannerTurnObservedV1,
    retained: Result<RetainedInferenceEvidence, StoreError>,
    usage_is_valid: bool,
    backend: BackendNameReading,
)
    requires
        turn_observation_verdict(store, event, observed, retained, usage_is_valid, backend) is Ok,
    ensures
        ({
            let prepared_event = preparation_for_end(
                store,
                event,
                event.run_id->0,
                observed.turn_id,
                observed.prepared_event_id,
            )->0;
            let prepared = turn_in(prepared_event)->0;
            observed.observed_at.runtime_instance_id == prepared.prepared_at.runtime_instance_id
        }),
{
}

/// Along a chain of claims that goes on, the owner never changes.
pub proof fn law_unbroken_claims_have_one_owner(claims: Seq<EventEnvelope>, i: int)
    requires
        0 <= i < claims.len(),
        chain_goes_on(claims),
    ensures
        claims[i].actor_id == claims[0].actor_id,
    decreases i,
{
    if i > 0 {
        law_unbroken_claims_have_one_owner(claims, i - 1);
        assert(claim_goes_on(claims[i - 1], claims[i]));
    }
}

/// Along a chain of claims, the generation counts up one at a time.
pub proof fn law_claim_generations_count_up(claims: Seq<EventEnvelope>, i: int)
    requires
        1 <= i < claims.len(),
        chain_stands(claims),
    ensures
        crate::planning_ground::claim_in(claims[0]) matches Some(first)
            && crate::planning_ground::claim_in(claims[i]) matches Some(other)
            && other.claim_generation == first.claim_generation + i,
    decreases i,
{
    assert(claim_can_follow(claims[i - 1], claims[i]));
    if i > 1 {
        law_claim_generations_count_up(claims, i - 1);
    }
}

/// A turn ends once: with an end on record, no other end of it is accepted.
pub proof fn law_turn_ends_once(
    store: Store,
    event: EventEnvelope,
    observed: PlannerTurnObservedV1,
    unknown: PlannerTurnUnknownV1,
    retained: Result<RetainedInferenceEvidence, StoreError>,
    usage_is_valid: bool,
    backend: BackendNameReading,
    cause: Result<(), StoreError>,
    boundary: Result<RetainedCancellationBoundaryEvidence, StoreError>,
)
    requires
        turn_ends(store.log@, observed.turn_id) > 0,
        unknown.turn_id == observed.turn_id,
    ensures
        turn_observation_verdict(store, event, observed, retained, usage_is_valid, backend) is Err,
        turn_unknown_verdict(store, event, unknown, cause, boundary) is Err,
{
}

/// Whether a store went on from another after an event: the runs and the contract stayed, and every
/// further event of the session has the event's place or a later one.
pub open spec fn went_on(before: Store, after: Store, event: EventEnvelope) -> bool {
    &&& after.contract == before.contract
    &&& after.runs == before.runs
    &&& before.log@.len() <= after.log@.len()
    &&& after.log@.take(before.log@.len() as int) == before.log@
    &&& forall|i: int|
        before.log@.len() <= i < after.log@.len() && (#[trigger] after.log@[i]).session_id
            == event.session_id ==> event.sequence <= after.log@[i].sequence
}

/// What is selected before a place of the session stays as it is.
proof fn lemma_earlier_rows_stay(
    before: Store,
    after: Store,
    event: EventEnvelope,
    run_id: RunId,
    query: EventQuery,
)
    requires
        went_on(before, after, event),
        query.scope == (EventScope::Run { session_id: event.session_id, run_id }),
        query.until matches Some(until) && until <= event.sequence,
    ensures
        query.rows(after.log@) == query.rows(before.log@),
{
    let more = after.log@.skip(before.log@.len() as int);
    assert(after.log@ =~= before.log@ + more);
    assert forall|i: int| 0 <= i < more.len() implies !query.admits(#[trigger] more[i]) by {
        assert(more[i] == after.log@[before.log@.len() + i]);
    }
    crate::history::lemma_nothing_selected(query, more);
    crate::recon_bundle::lemma_rows_of_joined(query, before.log@, more);
    assert(query.rows(more) =~= Seq::<EventEnvelope>::empty());
    assert(query.rows(before.log@) + query.rows(more) =~= query.rows(before.log@));
}

/// An event that is found by its identity stays the one that is found.
proof fn lemma_found_events_stay(
    before: Store,
    after: Store,
    event: EventEnvelope,
    run_id: RunId,
    id: EventId,
)
    requires
        went_on(before, after, event),
        crate::planning_ground::event_of_run(before, event.session_id, run_id, id) is Some,
    ensures
        crate::planning_ground::event_of_run(after, event.session_id, run_id, id)
            == crate::planning_ground::event_of_run(before, event.session_id, run_id, id),
{
    let query = EventQuery::by_id(event.session_id, run_id, id);
    let more = after.log@.skip(before.log@.len() as int);
    assert(after.log@ =~= before.log@ + more);
    crate::recon_bundle::lemma_rows_of_joined(query, before.log@, more);
    assert(query.rows(after.log@)[0] == query.rows(before.log@)[0]);
}

/// The claims that an end stands on stay as they were.
proof fn lemma_continuity_stays(
    before: Store,
    after: Store,
    event: EventEnvelope,
    prepared_event: EventEnvelope,
    prepared: PlannerTurnPreparedV1,
    clock: RuntimeClockReading,
)
    requires
        went_on(before, after, event),
        prepared_event.sequence < event.sequence,
        claim_continuity(before, event, prepared_event, prepared, clock) is Some,
    ensures
        claim_continuity(after, event, prepared_event, prepared, clock) == claim_continuity(
            before,
            event,
            prepared_event,
            prepared,
            clock,
        ),
{
    let run_id = event.run_id->0;
    let session_id = event.session_id;
    lemma_found_events_stay(before, after, event, run_id, prepared.claim_event_id);
    let claim_event = crate::planning_ground::event_of_run(
        before,
        session_id,
        run_id,
        prepared.claim_event_id,
    )->0;
    let claims = EventQuery::in_run(session_id, run_id, PayloadFilter::RunClaimed);
    let cancellations = EventQuery::in_run(
        session_id,
        run_id,
        PayloadFilter::CancellationRequested,
    );
    lemma_earlier_rows_stay(
        before,
        after,
        event,
        run_id,
        claims.starting_at(claim_event.sequence).before(event.sequence),
    );
    lemma_earlier_rows_stay(before, after, event, run_id, claims.before(prepared_event.sequence));
    lemma_earlier_rows_stay(before, after, event, run_id, claims.before(event.sequence));
    lemma_earlier_rows_stay(before, after, event, run_id, cancellations.before(event.sequence));
}

/// A recorded observation is recognized ever after: what may be recorded as the observed end of a
/// turn is, with the same evidence and under its own authority, found to be recorded already, however
/// the store goes on.
pub proof fn law_observations_stay_recognized(
    store: Store,
    later: Store,
    event: EventEnvelope,
    observed: PlannerTurnObservedV1,
    authority: PlannerV2ObservationAuthority,
    evidence: RetainedInferenceEvidence,
    usage_is_valid: bool,
    backend: BackendNameReading,
)
    requires
        turn_observation_verdict(
            store,
            event,
            observed,
            Ok(evidence),
            usage_is_valid,
            backend,
        ) is Ok,
        event.payload == EventPayload::PlannerTurnObservedV1(observed),
        event.provenance.producer@ == store.contract.producers.planner_observation@,
        authority.prepared_event_id == observed.prepared_event_id,
        authority.observed_at == observed.observed_at,
        went_on(store, later, event),
    ensures
        existing_observation_verdict(
            later,
            event.run_id->0,
            authority,
            evidence,
            event,
            Ok(evidence),
            usage_is_valid,
            backend,
        ) is Ok,
{
    let run_id = event.run_id->0;
    let prepared_event = preparation_for_end(
        store,
        event,
        run_id,
        observed.turn_id,
        observed.prepared_event_id,
    )->0;
    lemma_found_events_stay(store, later, event, run_id, observed.prepared_event_id);
    lemma_continuity_stays(
        store,
        later,
        event,
        prepared_event,
        turn_in(prepared_event)->0,
        observed.observed_at,
    );
    assert(evidence.same(&evidence));
    assert(crate::planning_ground::run_of(later, event.session_id, run_id)
        == crate::planning_ground::run_of(store, event.session_id, run_id));
}

/// A recorded unknown end is recognized ever after: what may be recorded as the unknown end of a
/// turn, with the reason and the cancellation that its boundary calls for, is found to be recorded
/// already under its own authority, however the store goes on.
pub proof fn law_unknown_ends_stay_recognized(
    store: Store,
    later: Store,
    event: EventEnvelope,
    unknown: PlannerTurnUnknownV1,
    authority: PlannerV2UnknownAuthority,
    cause: Result<(), StoreError>,
    boundary: RetainedCancellationBoundaryEvidence,
)
    requires
        turn_unknown_verdict(store, event, unknown, cause, Ok(boundary)) is Ok,
        event.payload == EventPayload::PlannerTurnUnknownV1(unknown),
        event.provenance.producer@ == store.contract.producers.planner_unknown@,
        authority.prepared_event_id == unknown.prepared_event_id,
        authority.boundary == unknown.boundary,
        authority.boundary_at == unknown.boundary_at,
        unknown.reason == planner_v2_unknown_reason(unknown.boundary),
        cancellation_cause_before(
            store.log@,
            event.session_id,
            event.run_id->0,
            unknown.boundary,
            event.sequence,
        ) == Ok::<Option<ChildCancellationCauseV1>, StoreError>(unknown.cancellation),
        went_on(store, later, event),
    ensures
        existing_unknown_verdict(later, event.run_id->0, authority, event, Ok(boundary)) is Ok,
{
    let run_id = event.run_id->0;
    let prepared_event = preparation_for_end(
        store,
        event,
        run_id,
        unknown.turn_id,
        unknown.prepared_event_id,
    )->0;
    lemma_found_events_stay(store, later, event, run_id, unknown.prepared_event_id);
    lemma_continuity_stays(
        store,
        later,
        event,
        prepared_event,
        turn_in(prepared_event)->0,
        unknown.boundary_at,
    );
    lemma_earlier_rows_stay(
        store,
        later,
        event,
        run_id,
        EventQuery::in_run(
            event.session_id,
            run_id,
            PayloadFilter::CancellationRequested,
        ).before(event.sequence),
    );
    assert(crate::planning_ground::run_of(later, event.session_id, run_id)
        == crate::planning_ground::run_of(store, event.session_id, run_id));
}

/// A lost outcome has one reason: the runtime was gone where it restarted or shut down, the claim had
/// expired where it could not be renewed, and otherwise it is not known whether the evidence was kept.
pub proof fn law_lost_turns_have_one_reason(boundary: UnknownInferenceBoundary)
    ensures
        planner_v2_unknown_reason(boundary)
            == UnknownInferenceOutcomeReason::RuntimeRestartedBeforeObservation <==> (boundary
            == UnknownInferenceBoundary::Restart || boundary == UnknownInferenceBoundary::Shutdown),
        planner_v2_unknown_reason(boundary)
            == UnknownInferenceOutcomeReason::ClaimExpiredBeforeObservation <==> boundary
            == UnknownInferenceBoundary::ClaimRenewalFailed,
        planner_v2_unknown_reason(boundary)
            == UnknownInferenceOutcomeReason::EvidenceCommitIndeterminate <==> (boundary
            == UnknownInferenceBoundary::Deadline || boundary
            == UnknownInferenceBoundary::Cancelled),
{
}

/// Only a cancelled boundary has a cause, and it has to: the last cancellation that the run was asked
/// for before, told by its event, its identity and its generation.
pub proof fn law_causes_are_the_last_cancellation(
    events: Seq<EventEnvelope>,
    session_id: SessionId,
    run_id: RunId,
    boundary: UnknownInferenceBoundary,
    sequence: u64,
) -> (place: int)
    ensures
        boundary != UnknownInferenceBoundary::Cancelled ==> cancellation_cause_before(
            events,
            session_id,
            run_id,
            boundary,
            sequence,
        ) == Ok::<Option<ChildCancellationCauseV1>, StoreError>(None),
        boundary == UnknownInferenceBoundary::Cancelled ==> match cancellation_cause_before(
            events,
            session_id,
            run_id,
            boundary,
            sequence,
        ) {
            Ok(Some(cause)) => {
                &&& 0 <= place < events.len()
                &&& events[place].id == cause.request_event_id
                &&& events[place].session_id == session_id
                &&& events[place].run_id == Some(run_id)
                &&& events[place].sequence < sequence
                &&& events[place].payload matches EventPayload::CancellationRequested(request)
                    && request.cancellation_request_id == cause.request_id
                    && request.cancellation_generation == cause.cancellation_generation
                &&& forall|j: int|
                    place < j < events.len() && (#[trigger] events[j]).session_id == session_id
                        && events[j].run_id == Some(run_id) && events[j].sequence < sequence ==> !(
                    events[j].payload is CancellationRequested)
            },
            Ok(None) => false,
            Err(error) => {
                &&& error == StoreError::InvalidStateEvent
                &&& forall|j: int|
                    0 <= j < events.len() && (#[trigger] events[j]).session_id == session_id
                        && events[j].run_id == Some(run_id) && events[j].sequence < sequence ==> !(
                    events[j].payload is CancellationRequested)
            },
        },
{
    crate::claim_history::law_only_the_past_counts(events, session_id, run_id, sequence).1
}

/// An end is of a turn that was prepared before in the run and has not ended: it follows the
/// preparation, and no other end of that turn is on record in any run.
pub proof fn law_ends_are_of_open_turns(
    store: Store,
    event: EventEnvelope,
    run_id: RunId,
    turn_id: PlannerTurnId,
    prepared_event_id: EventId,
    j: int,
) -> (place: int)
    requires
        preparation_for_end(store, event, run_id, turn_id, prepared_event_id) is Some,
    ensures
        0 <= place < store.log@.len(),
        preparation_for_end(store, event, run_id, turn_id, prepared_event_id) == Some(
            store.log@[place],
        ),
        store.log@[place].id == prepared_event_id,
        store.log@[place].session_id == event.session_id,
        store.log@[place].run_id == Some(run_id),
        store.log@[place].sequence < event.sequence,
        event.causal_parent == Some(prepared_event_id),
        store.log@[place].payload matches EventPayload::PlannerTurnPreparedV1(prepared)
            && prepared.turn_id == turn_id,
        0 <= j < store.log@.len() ==> {
            &&& store.log@[j].payload matches EventPayload::PlannerTurnObservedV1(other)
                ==> other.turn_id != turn_id
            &&& store.log@[j].payload matches EventPayload::PlannerTurnUnknownV1(other)
                ==> other.turn_id != turn_id
        },
{
    let query = EventQuery::everywhere(PayloadFilter::PlannerTurnTerminal(turn_id));
    if 0 <= j < store.log@.len() && query.admits(store.log@[j]) {
        crate::history::law_ends_of_a_selection(query, store.log@, j);
    }
    crate::planning_ground::law_events_are_found_by_identity(
        store,
        event.session_id,
        run_id,
        prepared_event_id,
    )
}

/// An observed end says what its evidence amounts to, comes from the model that the turn was prepared
/// for, under an unbroken claim, and not before the preparation on the same runtime.
pub proof fn law_observed_ends_say_what_happened(
    store: Store,
    event: EventEnvelope,
    observed: PlannerTurnObservedV1,
    retained: Result<RetainedInferenceEvidence, StoreError>,
    usage_is_valid: bool,
    backend: BackendNameReading,
)
    requires
        turn_observation_verdict(store, event, observed, retained, usage_is_valid, backend) is Ok,
    ensures
        event.run_id matches Some(run_id) && {
            &&& store.state_record(run_id) matches Some(row) && row.state == RunState::Running
            &&& observed.normalized_complete_evidence_artifact.media_type@
                == store.contract.media.inference_evidence@
            &&& preparation_for_end(
                store,
                event,
                run_id,
                observed.turn_id,
                observed.prepared_event_id,
            ) matches Some(prepared_event) && (
            prepared_event.payload matches EventPayload::PlannerTurnPreparedV1(prepared) && {
                &&& retained matches Ok(retained) && observed.outcome.same(
                    &turn_observation(prepared, retained, usage_is_valid, backend),
                )
                &&& claim_continuity(
                    store,
                    event,
                    prepared_event,
                    prepared,
                    observed.observed_at,
                ) == Some(PlannerTerminalClaimContinuity::Contiguous)
                &&& prepared.prepared_at.runtime_instance_id
                    == observed.observed_at.runtime_instance_id
                &&& prepared.prepared_at.monotonic_nanos <= observed.observed_at.monotonic_nanos
                &&& event.provenance.backend matches Some(actual) && actual.backend_id@
                    == prepared.backend_model.backend_id@ && (actual.model matches Some(model)
                    && model@ == prepared.backend_model.model_id@)
            })
        },
{
}

/// An unknown end tells a cancellation exactly where its boundary is one, and what was kept of the
/// boundary agrees with it.
pub proof fn law_unknown_ends_say_what_was_lost(
    store: Store,
    event: EventEnvelope,
    unknown: PlannerTurnUnknownV1,
    cause: Result<(), StoreError>,
    boundary: Result<RetainedCancellationBoundaryEvidence, StoreError>,
)
    requires
        turn_unknown_verdict(store, event, unknown, cause, boundary) is Ok,
    ensures
        unknown.cancellation is Some <==> unknown.boundary == UnknownInferenceBoundary::Cancelled,
        unknown.cancellation is Some ==> cause is Ok,
        unknown.reason == planner_v2_unknown_reason(unknown.boundary),
        unknown.boundary_evidence_artifact.media_type@
            == store.contract.media.cancellation_boundary@,
        boundary matches Ok(kept) && {
            &&& kept.reason == unknown.boundary
            &&& kept.prepared_event_id == unknown.prepared_event_id
            &&& unknown.cancellation matches Some(cancellation) ==> kept.cancellation_generation
                == cancellation.cancellation_generation
        },
        event.run_id matches Some(run_id) && (store.state_record(run_id) matches Some(row)
            && row.state == RunState::Running),
{
}

/// Only an answer of the prepared model, from the backend that it names and with a valid usage, is a
/// success; any other answer is a violation that no retry mends.
pub proof fn law_only_own_answers_end_turns_well(
    prepared: PlannerTurnPreparedV1,
    retained: RetainedInferenceEvidence,
    usage_is_valid: bool,
    backend: BackendNameReading,
)
    ensures
        turn_observation(prepared, retained, usage_is_valid, backend)
            matches PlannerTurnObservationV1::Succeeded { reported_backend_model, token_usage }
            ==> {
            &&& reported_backend_model == prepared.backend_model
            &&& usage_is_valid
            &&& backend.is_intact
            &&& retained matches RetainedInferenceEvidence::Response { response } && {
                &&& response.model_id@ == prepared.backend_model.model_id@
                &&& response.backend_id@ == prepared.backend_model.backend_id@
                &&& response.evidence_matches
                &&& response.normalized_usage == Some(token_usage)
            }
        },
        retained matches RetainedInferenceEvidence::Response { response } ==> (turn_observation(
            prepared,
            retained,
            usage_is_valid,
            backend,
        ) matches PlannerTurnObservationV1::Failed { error } ==> error.kind
            == PlannerInferenceErrorKind::ProtocolViolation && error.retry
            == RetryDisposition::Never),
        retained matches RetainedInferenceEvidence::Error { error } ==> (turn_observation(
            prepared,
            retained,
            usage_is_valid,
            backend,
        ) matches PlannerTurnObservationV1::Failed { error: seen } && ((seen.kind == error.kind
            && seen.retry == error.retry) || (seen.kind
            == PlannerInferenceErrorKind::ProtocolViolation && seen.retry
            == RetryDisposition::Never))),
        retained is CancelledBeforeCall ==> (turn_observation(
            prepared,
            retained,
            usage_is_valid,
            backend,
        ) matches PlannerTurnObservationV1::Failed { error } && error.kind
            == PlannerInferenceErrorKind::Cancelled && error.retry == RetryDisposition::Never),
        retained matches RetainedInferenceEvidence::NotDispatched { reason } ==> (turn_observation(
            prepared,
            retained,
            usage_is_valid,
            backend,
        ) matches PlannerTurnObservationV1::Failed { error } && error
            == planner_v2_not_dispatched_failure(reason)),
{
}

/// A turn ends on the runtime that prepared it, unless that runtime was lost: only a restart, a shutdown
/// or a claim that could not be renewed may be told from elsewhere, and never before the preparation.
pub proof fn law_other_runtimes_tell_only_of_losses(
    prepared_at: RuntimeClockReading,
    terminal_at: RuntimeClockReading,
    boundary: PlannerTerminalClockBoundary,
)
    ensures
        planner_terminal_clock_follows_prepared(&prepared_at, &terminal_at, boundary) ==> {
            &&& !terminal_at.observed_at.before(prepared_at.observed_at)
            &&& prepared_at.runtime_instance_id != terminal_at.runtime_instance_id ==> (boundary
                matches PlannerTerminalClockBoundary::Unknown(lost) && lost
                != UnknownInferenceBoundary::Deadline && lost
                != UnknownInferenceBoundary::Cancelled)
        },
        prepared_at.runtime_instance_id == terminal_at.runtime_instance_id
            && prepared_at.monotonic_nanos <= terminal_at.monotonic_nanos
            && !terminal_at.observed_at.before(prepared_at.observed_at)
            ==> planner_terminal_clock_follows_prepared(&prepared_at, &terminal_at, boundary),
        !terminal_at.observed_at.before(prepared_at.observed_at)
            && prepared_at.runtime_instance_id != terminal_at.runtime_instance_id && (boundary
            == PlannerTerminalClockBoundary::Unknown(UnknownInferenceBoundary::Restart) || boundary
            == PlannerTerminalClockBoundary::Unknown(UnknownInferenceBoundary::Shutdown)
            || boundary == PlannerTerminalClockBoundary::Unknown(
            UnknownInferenceBoundary::ClaimRenewalFailed,
        )) ==> planner_terminal_clock_follows_prepared(&prepared_at, &terminal_at, boundary),
{
}

/// A claim follows another where it is the next generation, later on record, and taken before it
/// expired itself; it continues the other where nothing about the owner changed and the other had not
/// expired yet.
pub proof fn law_claims_follow_and_go_on(
    prior: EventEnvelope,
    next: EventEnvelope,
    prior_claim: RunClaimed,
    next_claim: RunClaimed,
)
    requires
        prior.payload == EventPayload::RunClaimed(prior_claim),
        next.payload == EventPayload::RunClaimed(next_claim),
    ensures
        claim_can_follow(prior, next) <==> {
            &&& next_claim.claim_generation == prior_claim.claim_generation + 1
            &&& prior.sequence < next.sequence
            &&& next.occurred_at.before(next_claim.lease_expires_at)
        },
        claim_goes_on(prior, next) <==> {
            &&& next.actor_id == prior.actor_id
            &&& next_claim.runtime_instance_id == prior_claim.runtime_instance_id
            &&& next_claim.cancellation_generation == prior_claim.cancellation_generation
            &&& next.occurred_at.before(prior_claim.lease_expires_at)
        },
{
}

/// A finalization that is found again is told as it was recorded: an accepted or rejected turn with its
/// reason, a failed run or a cancelled one, at the same reading of the clock.
pub proof fn law_finalizations_are_told_as_recorded(
    contract: Contract,
    run_id: RunId,
    authority: PlannerV2FinalizationAuthority,
    event: EventEnvelope,
    evidence: Result<RetainedPlannerV2FinalizationEvidence, StoreError>,
)
    requires
        existing_finalization(contract, run_id, authority, event, evidence) is Ok,
    ensures
        event.run_id == Some(run_id),
        match existing_finalization(contract, run_id, authority, event, evidence) {
            Ok(PlannerV2FinalizationDisposition::Accepted) => event.payload
                matches EventPayload::PlannerTurnAcceptedV1(accepted) && accepted.accepted_at
                == authority.finalized_at,
            Ok(PlannerV2FinalizationDisposition::Rejected(reason)) => event.payload
                matches EventPayload::PlannerTurnRejectedV1(rejected) && rejected.rejected_at
                == authority.finalized_at && rejected.reason == reason,
            Ok(PlannerV2FinalizationDisposition::RunFailed) => event.payload
                matches EventPayload::RunStateChanged { from, to } && from == RunState::Running
                && to == RunState::Failed && (evidence matches Ok(kept) && kept.finalized_at
                == authority.finalized_at && kept.disposition
                == RetainedPlannerV2TerminalDisposition::Failed && event.causal_parent == Some(
                kept.terminal_event_id,
            )),
            Ok(PlannerV2FinalizationDisposition::RunCancelled) => event.payload
                matches EventPayload::RunStateChanged { from, to } && from == RunState::Running
                && to == RunState::Cancelled && (evidence matches Ok(kept) && kept.finalized_at
                == authority.finalized_at && kept.disposition
                == RetainedPlannerV2TerminalDisposition::Cancelled && event.causal_parent == Some(
                kept.terminal_event_id,
            )),
            Err(_) => false,
        },
{
}

} // verus!

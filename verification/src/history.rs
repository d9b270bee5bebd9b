//! The durable history: events in the order in which their sessions recorded them, and the
//! selections that replay is built on.

use vstd::prelude::*;
use crate::digest::Sha256Digest;
use crate::error::StoreError;
use crate::event::{EventEnvelope, EventPayload};
use crate::identity::{
    EventId, InferenceAttemptId, PlanProposalId, PlanSemanticReviewId, PlannerDelegateDirectiveId,
    PlannerTurnId, RootPlanningStageFailureId, RunId, SessionId,
};
use crate::planner_turn::{PlannerAcceptedDirectiveV1, PlannerTurnPurposeV1};

verus! {

/// Which part of the history a selection looks at.
#[derive(Clone, Copy, Debug, PartialEq, Eq, Structural)]
pub enum EventScope {
    /// The events of one run, as its session recorded them.
    Run { session_id: SessionId, run_id: RunId },
    /// The events of one run, whatever session recorded them.
    RunAnySession { run_id: RunId },
    /// All events.
    Everywhere,
}

/// Which payloads a selection keeps.
#[derive(Clone, Copy, Debug)]
pub enum PayloadFilter<'a> {
    Any,
    RunCreated,
    RunClaimed,
    NotRunClaimed,
    CancellationRequested,
    RootPlanningFailed,
    RootPlanningStageFailed,
    StageFailure(RootPlanningStageFailureId),
    InferencePrepared,
    PreparedForAttempt(InferenceAttemptId),
    PreparedForPlan { revision: u64, digest: &'a Sha256Digest },
    /// An observed or unknown end of one inference.
    InferenceTerminal(InferenceAttemptId),
    /// Anything that can end one inference: its end, or a decision on it.
    AttemptBoundary(InferenceAttemptId),
    ProposalAccepted,
    ProposalDecision(InferenceAttemptId),
    Proposal(PlanProposalId),
    ReviewAccepted,
    ReviewDecision(InferenceAttemptId),
    Review(PlanSemanticReviewId),
    PlannerTurn,
    PlannerTurnPrepared,
    PlannerTurnPreparedFor(PlannerTurnPurposeV1),
    PlannerTurnAccepted,
    PlannerTurnTerminal(PlannerTurnId),
    PlannerTurnDecision(PlannerTurnId),
    /// An observed or unknown end of the turn that one event prepared.
    TerminalOfPrepared(EventId),
    DelegateDirective(PlannerDelegateDirectiveId),
    DelegationAuthorizedBy(EventId),
    DelegationAuthorizedV2,
    WorkOrderIssuedUnder(EventId),
    WorkOrderIssued,
    ChildFinished,
    /// The beginnings of a child: its authorization, its issuance and its first attempt.
    ChildLifecycle,
}

/// Whether a resolved directive delegates under `directive_id`.
pub open spec fn delegates_under(
    directive: PlannerAcceptedDirectiveV1,
    directive_id: PlannerDelegateDirectiveId,
) -> bool {
    directive matches PlannerAcceptedDirectiveV1::Delegate { delegations } && exists|i: int|
        0 <= i < delegations@.len() && #[trigger] delegations@[i].directive_id == directive_id
}

#[verifier::loop_isolation(false)]
fn delegates_under_exec(
    directive: &PlannerAcceptedDirectiveV1,
    directive_id: PlannerDelegateDirectiveId,
) -> (r: bool)
    ensures
        r == delegates_under(*directive, directive_id),
{
    match directive {
        PlannerAcceptedDirectiveV1::Delegate { delegations } => {
            let mut i: usize = 0;
            while i < delegations.len()
                invariant
                    i <= delegations@.len(),
                    forall|j: int|
                        0 <= j < i ==> #[trigger] delegations@[j].directive_id != directive_id,
                decreases delegations.len() - i,
            {
                if delegations[i].directive_id == directive_id {
                    return true;
                }
                i += 1;
            }
            false
        },
        _ => false,
    }
}

impl<'a> PayloadFilter<'a> {
    /// Whether the selection keeps `payload`.
    pub open spec fn keeps(self, payload: EventPayload) -> bool {
        match self {
            PayloadFilter::Any => true,
            PayloadFilter::RunCreated => payload is RunCreated,
            PayloadFilter::RunClaimed => payload is RunClaimed,
            PayloadFilter::NotRunClaimed => !(payload is RunClaimed),
            PayloadFilter::CancellationRequested => payload is CancellationRequested,
            PayloadFilter::RootPlanningFailed => payload is RootPlanningFailed,
            PayloadFilter::RootPlanningStageFailed => payload is RootPlanningStageFailed,
            PayloadFilter::StageFailure(id) => payload matches EventPayload::RootPlanningStageFailed(
                failed,
            ) && failed.failure_id == id,
            PayloadFilter::InferencePrepared => payload is PlannerInferencePrepared,
            PayloadFilter::PreparedForAttempt(id) =>
                payload matches EventPayload::PlannerInferencePrepared(prepared)
                    && prepared.attempt_id == id,
            PayloadFilter::PreparedForPlan { revision, digest } =>
                payload matches EventPayload::PlannerInferencePrepared(prepared)
                    && prepared.plan_revision == revision && prepared.plan_digest@ == digest@,
            PayloadFilter::InferenceTerminal(id) => match payload {
                EventPayload::PlannerInferenceObserved(observed) => observed.attempt_id == id,
                EventPayload::PlannerInferenceOutcomeUnknown(unknown) => unknown.attempt_id == id,
                _ => false,
            },
            PayloadFilter::AttemptBoundary(id) => match payload {
                EventPayload::PlannerInferenceObserved(observed) => observed.attempt_id == id,
                EventPayload::PlannerInferenceOutcomeUnknown(unknown) => unknown.attempt_id == id,
                EventPayload::PlanProposalAccepted(accepted) => accepted.inference_attempt_id == id,
                EventPayload::PlanProposalRejected(rejected) => rejected.inference_attempt_id == id,
                EventPayload::PlanSemanticReviewAccepted(accepted) => accepted.inference_attempt_id
                    == id,
                EventPayload::PlanSemanticReviewRejected(rejected) => rejected.inference_attempt_id
                    == id,
                _ => false,
            },
            PayloadFilter::ProposalAccepted => payload is PlanProposalAccepted,
            PayloadFilter::ProposalDecision(id) => match payload {
                EventPayload::PlanProposalAccepted(accepted) => accepted.inference_attempt_id == id,
                EventPayload::PlanProposalRejected(rejected) => rejected.inference_attempt_id == id,
                _ => false,
            },
            PayloadFilter::Proposal(id) => match payload {
                EventPayload::PlanProposalAccepted(accepted) => accepted.proposal_id == id,
                EventPayload::PlanProposalRejected(rejected) => rejected.proposal_id == id,
                _ => false,
            },
            PayloadFilter::ReviewAccepted => payload is PlanSemanticReviewAccepted,
            PayloadFilter::ReviewDecision(id) => match payload {
                EventPayload::PlanSemanticReviewAccepted(accepted) => accepted.inference_attempt_id
                    == id,
                EventPayload::PlanSemanticReviewRejected(rejected) => rejected.inference_attempt_id
                    == id,
                _ => false,
            },
            PayloadFilter::Review(id) => match payload {
                EventPayload::PlanSemanticReviewAccepted(accepted) => accepted.review_id == id,
                EventPayload::PlanSemanticReviewRejected(rejected) => rejected.review_id == id,
                _ => false,
            },
            PayloadFilter::PlannerTurn => {
                ||| payload is PlannerTurnPreparedV1
                ||| payload is PlannerTurnObservedV1
                ||| payload is PlannerTurnUnknownV1
                ||| payload is PlannerTurnAcceptedV1
                ||| payload is PlannerTurnRejectedV1
            },
            PayloadFilter::PlannerTurnPrepared => payload is PlannerTurnPreparedV1,
            PayloadFilter::PlannerTurnPreparedFor(purpose) =>
                payload matches EventPayload::PlannerTurnPreparedV1(prepared) && prepared.purpose
                    == purpose,
            PayloadFilter::PlannerTurnAccepted => payload is PlannerTurnAcceptedV1,
            PayloadFilter::PlannerTurnTerminal(id) => match payload {
                EventPayload::PlannerTurnObservedV1(observed) => observed.turn_id == id,
                EventPayload::PlannerTurnUnknownV1(unknown) => unknown.turn_id == id,
                _ => false,
            },
            PayloadFilter::PlannerTurnDecision(id) => match payload {
                EventPayload::PlannerTurnAcceptedV1(accepted) => accepted.turn_id == id,
                EventPayload::PlannerTurnRejectedV1(rejected) => rejected.turn_id == id,
                _ => false,
            },
            PayloadFilter::TerminalOfPrepared(id) => match payload {
                EventPayload::PlannerTurnObservedV1(observed) => observed.prepared_event_id == id,
                EventPayload::PlannerTurnUnknownV1(unknown) => unknown.prepared_event_id == id,
                _ => false,
            },
            PayloadFilter::DelegateDirective(id) => payload matches EventPayload::PlannerTurnAcceptedV1(
                accepted,
            ) && delegates_under(accepted.resolved_directive, id),
            PayloadFilter::DelegationAuthorizedBy(id) =>
                payload matches EventPayload::ChildDelegationAuthorizedV2(authorized)
                    && authorized.accepted_planner_turn_event_id == id,
            PayloadFilter::DelegationAuthorizedV2 => payload is ChildDelegationAuthorizedV2,
            PayloadFilter::WorkOrderIssuedUnder(id) => payload matches EventPayload::ChildWorkOrderIssued(
                issued,
            ) && issued.authorization_event_id == id,
            PayloadFilter::WorkOrderIssued => payload is ChildWorkOrderIssued,
            PayloadFilter::ChildFinished => payload is ChildExecutionFinished,
            PayloadFilter::ChildLifecycle => {
                ||| payload is ChildDelegationAuthorized
                ||| payload is ChildDelegationAuthorizedV2
                ||| payload is ChildWorkOrderIssued
                ||| payload is ChildExecutionStarted
            },
        }
    }

    fn keeps_exec(&self, payload: &EventPayload) -> (r: bool)
        ensures
            r == self.keeps(*payload),
    {
        match self {
            PayloadFilter::Any => true,
            PayloadFilter::RunCreated => matches!(payload, EventPayload::RunCreated { .. }),
            PayloadFilter::RunClaimed => matches!(payload, EventPayload::RunClaimed(_)),
            PayloadFilter::NotRunClaimed => !matches!(payload, EventPayload::RunClaimed(_)),
            PayloadFilter::CancellationRequested => matches!(
                payload,
                EventPayload::CancellationRequested(_)
            ),
            PayloadFilter::RootPlanningFailed => matches!(
                payload,
                EventPayload::RootPlanningFailed(_)
            ),
            PayloadFilter::RootPlanningStageFailed => matches!(
                payload,
                EventPayload::RootPlanningStageFailed(_)
            ),
            PayloadFilter::StageFailure(id) => match payload {
                EventPayload::RootPlanningStageFailed(failed) => failed.failure_id == *id,
                _ => false,
            },
            PayloadFilter::InferencePrepared => matches!(
                payload,
                EventPayload::PlannerInferencePrepared(_)
            ),
            PayloadFilter::PreparedForAttempt(id) => match payload {
                EventPayload::PlannerInferencePrepared(prepared) => prepared.attempt_id == *id,
                _ => false,
            },
            PayloadFilter::PreparedForPlan { revision, digest } => match payload {
                EventPayload::PlannerInferencePrepared(prepared) => prepared.plan_revision
                    == *revision && prepared.plan_digest == **digest,
                _ => false,
            },
            PayloadFilter::InferenceTerminal(id) => match payload {
                EventPayload::PlannerInferenceObserved(observed) => observed.attempt_id == *id,
                EventPayload::PlannerInferenceOutcomeUnknown(unknown) => unknown.attempt_id == *id,
                _ => false,
            },
            PayloadFilter::AttemptBoundary(id) => match payload {
                EventPayload::PlannerInferenceObserved(observed) => observed.attempt_id == *id,
                EventPayload::PlannerInferenceOutcomeUnknown(unknown) => unknown.attempt_id == *id,
                EventPayload::PlanProposalAccepted(accepted) => accepted.inference_attempt_id
                    == *id,
                EventPayload::PlanProposalRejected(rejected) => rejected.inference_attempt_id
                    == *id,
                EventPayload::PlanSemanticReviewAccepted(accepted) => accepted.inference_attempt_id
                    == *id,
                EventPayload::PlanSemanticReviewRejected(rejected) => rejected.inference_attempt_id
                    == *id,
                _ => false,
            },
            PayloadFilter::ProposalAccepted => matches!(
                payload,
                EventPayload::PlanProposalAccepted(_)
            ),
            PayloadFilter::ProposalDecision(id) => match payload {
                EventPayload::PlanProposalAccepted(accepted) => accepted.inference_attempt_id
                    == *id,
                EventPayload::PlanProposalRejected(rejected) => rejected.inference_attempt_id
                    == *id,
                _ => false,
            },
            PayloadFilter::Proposal(id) => match payload {
                EventPayload::PlanProposalAccepted(accepted) => accepted.proposal_id == *id,
                EventPayload::PlanProposalRejected(rejected) => rejected.proposal_id == *id,
                _ => false,
            },
            PayloadFilter::ReviewAccepted => matches!(
                payload,
                EventPayload::PlanSemanticReviewAccepted(_)
            ),
            PayloadFilter::ReviewDecision(id) => match payload {
                EventPayload::PlanSemanticReviewAccepted(accepted) => accepted.inference_attempt_id
                    == *id,
                EventPayload::PlanSemanticReviewRejected(rejected) => rejected.inference_attempt_id
                    == *id,
                _ => false,
            },
            PayloadFilter::Review(id) => match payload {
                EventPayload::PlanSemanticReviewAccepted(accepted) => accepted.review_id == *id,
                EventPayload::PlanSemanticReviewRejected(rejected) => rejected.review_id == *id,
                _ => false,
            },
            PayloadFilter::PlannerTurn => matches!(
                payload,
                EventPayload::PlannerTurnPreparedV1(_) | EventPayload::PlannerTurnObservedV1(_)
                | EventPayload::PlannerTurnUnknownV1(_) | EventPayload::PlannerTurnAcceptedV1(_)
                | EventPayload::PlannerTurnRejectedV1(_)
            ),
            PayloadFilter::PlannerTurnPrepared => matches!(
                payload,
                EventPayload::PlannerTurnPreparedV1(_)
            ),
            PayloadFilter::PlannerTurnPreparedFor(purpose) => match payload {
                EventPayload::PlannerTurnPreparedV1(prepared) => prepared.purpose == *purpose,
                _ => false,
            },
            PayloadFilter::PlannerTurnAccepted => matches!(
                payload,
                EventPayload::PlannerTurnAcceptedV1(_)
            ),
            PayloadFilter::PlannerTurnTerminal(id) => match payload {
                EventPayload::PlannerTurnObservedV1(observed) => observed.turn_id == *id,
                EventPayload::PlannerTurnUnknownV1(unknown) => unknown.turn_id == *id,
                _ => false,
            },
            PayloadFilter::PlannerTurnDecision(id) => match payload {
                EventPayload::PlannerTurnAcceptedV1(accepted) => accepted.turn_id == *id,
                EventPayload::PlannerTurnRejectedV1(rejected) => rejected.turn_id == *id,
                _ => false,
            },
            PayloadFilter::TerminalOfPrepared(id) => match payload {
                EventPayload::PlannerTurnObservedV1(observed) => observed.prepared_event_id == *id,
                EventPayload::PlannerTurnUnknownV1(unknown) => unknown.prepared_event_id == *id,
                _ => false,
            },
            PayloadFilter::DelegateDirective(id) => match payload {
                EventPayload::PlannerTurnAcceptedV1(accepted) => delegates_under_exec(
                    &accepted.resolved_directive,
                    *id,
                ),
                _ => false,
            },
            PayloadFilter::DelegationAuthorizedBy(id) => match payload {
                EventPayload::ChildDelegationAuthorizedV2(authorized) =>
                    authorized.accepted_planner_turn_event_id == *id,
                _ => false,
            },
            PayloadFilter::DelegationAuthorizedV2 => matches!(
                payload,
                EventPayload::ChildDelegationAuthorizedV2(_)
            ),
            PayloadFilter::WorkOrderIssuedUnder(id) => match payload {
                EventPayload::ChildWorkOrderIssued(issued) => issued.authorization_event_id == *id,
                _ => false,
            },
            PayloadFilter::WorkOrderIssued => matches!(
                payload,
                EventPayload::ChildWorkOrderIssued(_)
            ),
            PayloadFilter::ChildFinished => matches!(
                payload,
                EventPayload::ChildExecutionFinished(_)
            ),
            PayloadFilter::ChildLifecycle => matches!(
                payload,
                EventPayload::ChildDelegationAuthorized(_)
                | EventPayload::ChildDelegationAuthorizedV2(_)
                | EventPayload::ChildWorkOrderIssued(_) | EventPayload::ChildExecutionStarted(_)
            ),
        }
    }
}

/// A selection from the history.
#[derive(Clone, Copy, Debug)]
pub struct EventQuery<'a> {
    pub scope: EventScope,
    /// Only the event with this identity.
    pub id: Option<EventId>,
    /// Only events at this sequence or after it.
    pub from: Option<u64>,
    /// Only events before this sequence.
    pub until: Option<u64>,
    pub payload: PayloadFilter<'a>,
}

impl<'a> EventQuery<'a> {
    /// Whether the selection takes `event`.
    pub open spec fn admits(self, event: EventEnvelope) -> bool {
        &&& match self.scope {
            EventScope::Run { session_id, run_id } => event.session_id == session_id && event.run_id
                == Some(run_id),
            EventScope::RunAnySession { run_id } => event.run_id == Some(run_id),
            EventScope::Everywhere => true,
        }
        &&& self.id matches Some(id) ==> event.id == id
        &&& self.from matches Some(from) ==> from <= event.sequence
        &&& self.until matches Some(until) ==> event.sequence < until
        &&& self.payload.keeps(event.payload)
    }

    /// The selected events of `events`, in their order.
    pub open spec fn rows(self, events: Seq<EventEnvelope>) -> Seq<EventEnvelope> {
        events.filter(|event: EventEnvelope| self.admits(event))
    }

    /// The first of them.
    pub open spec fn first_of(self, events: Seq<EventEnvelope>) -> Option<EventEnvelope> {
        if self.rows(events).len() == 0 {
            None
        } else {
            Some(self.rows(events).first())
        }
    }

    /// The last of them.
    pub open spec fn last_of(self, events: Seq<EventEnvelope>) -> Option<EventEnvelope> {
        if self.rows(events).len() == 0 {
            None
        } else {
            Some(self.rows(events).last())
        }
    }

    pub fn admits_event(&self, event: &EventEnvelope) -> (r: bool)
        ensures
            r == self.admits(*event),
    {
        let in_scope = match self.scope {
            EventScope::Run { session_id, run_id } => event.session_id == session_id && event.run_id
                == Some(run_id),
            EventScope::RunAnySession { run_id } => event.run_id == Some(run_id),
            EventScope::Everywhere => true,
        };
        let identified = match self.id {
            Some(id) => event.id == id,
            None => true,
        };
        let late_enough = match self.from {
            Some(from) => from <= event.sequence,
            None => true,
        };
        let early_enough = match self.until {
            Some(until) => event.sequence < until,
            None => true,
        };
        in_scope && identified && late_enough && early_enough && self.payload.keeps_exec(
            &event.payload,
        )
    }

    /// The events of one run that a filter keeps.
    #[verifier::allow_in_spec]
    pub fn in_run(session_id: SessionId, run_id: RunId, payload: PayloadFilter<'a>) -> EventQuery<
        'a,
    >
        returns
            (EventQuery {
                scope: EventScope::Run { session_id, run_id },
                id: None,
                from: None,
                until: None,
                payload,
            }),
    {
        EventQuery {
            scope: EventScope::Run { session_id, run_id },
            id: None,
            from: None,
            until: None,
            payload,
        }
    }

    /// All events that a filter keeps.
    #[verifier::allow_in_spec]
    pub fn everywhere(payload: PayloadFilter<'a>) -> EventQuery<'a>
        returns
            (EventQuery {
                scope: EventScope::Everywhere,
                id: None,
                from: None,
                until: None,
                payload,
            }),
    {
        EventQuery { scope: EventScope::Everywhere, id: None, from: None, until: None, payload }
    }

    /// The event of one run with one identity.
    #[verifier::allow_in_spec]
    pub fn by_id(session_id: SessionId, run_id: RunId, id: EventId) -> EventQuery<'a>
        returns
            (EventQuery {
                scope: EventScope::Run { session_id, run_id },
                id: Some(id),
                from: None,
                until: None,
                payload: PayloadFilter::Any,
            }),
    {
        EventQuery {
            scope: EventScope::Run { session_id, run_id },
            id: Some(id),
            from: None,
            until: None,
            payload: PayloadFilter::Any,
        }
    }

    /// The same selection, ending before `sequence`.
    #[verifier::allow_in_spec]
    pub fn before(self, sequence: u64) -> EventQuery<'a>
        returns
            (EventQuery {
                scope: self.scope,
                id: self.id,
                from: self.from,
                until: Some(sequence),
                payload: self.payload,
            }),
    {
        EventQuery {
            scope: self.scope,
            id: self.id,
            from: self.from,
            until: Some(sequence),
            payload: self.payload,
        }
    }

    /// The same selection, beginning at `sequence`.
    #[verifier::allow_in_spec]
    pub fn starting_at(self, sequence: u64) -> EventQuery<'a>
        returns
            (EventQuery {
                scope: self.scope,
                id: self.id,
                from: Some(sequence),
                until: self.until,
                payload: self.payload,
            }),
    {
        EventQuery {
            scope: self.scope,
            id: self.id,
            from: Some(sequence),
            until: self.until,
            payload: self.payload,
        }
    }
}

/// Whether each session recorded `events` in the order of their sequence numbers.
pub open spec fn in_sequence(events: Seq<EventEnvelope>) -> bool {
    forall|i: int, j: int|
        0 <= i < j < events.len() && #[trigger] events[i].session_id == #[trigger] events[j].session_id
            ==> events[i].sequence < events[j].sequence
}

/// Whether no identity occurs twice in `events`.
pub open spec fn identities_distinct(events: Seq<EventEnvelope>) -> bool {
    forall|i: int, j: int|
        0 <= i < j < events.len() ==> (#[trigger] events[i]).id != (#[trigger] events[j]).id
}

/// The greatest sequence that can be recorded.
pub const MAX_SEQUENCE: u64 = 0x7fff_ffff_ffff_ffff;

/// The sequence that the next event of a session gets: one more than its last, or one.
pub open spec fn next_sequence_of(events: Seq<EventEnvelope>, session_id: SessionId) -> Result<
    u64,
    StoreError,
>
    decreases events.len(),
{
    if events.len() == 0 {
        Ok(1)
    } else if events.last().session_id == session_id {
        if events.last().sequence >= MAX_SEQUENCE {
            Err(StoreError::SequenceOverflow)
        } else {
            Ok((events.last().sequence + 1) as u64)
        }
    } else {
        next_sequence_of(events.drop_last(), session_id)
    }
}

/// A history stays one when it grows by an event that comes after all others of its session and
/// repeats no identity.
pub proof fn lemma_one_more(events: Seq<EventEnvelope>, n: int)
    requires
        0 <= n < events.len(),
        in_sequence(events.take(n)),
        identities_distinct(events.take(n)),
        forall|k: int|
            0 <= k < n ==> {
                &&& (#[trigger] events[k]).id != events[n].id
                &&& events[k].session_id == events[n].session_id ==> events[k].sequence
                    < events[n].sequence
            },
    ensures
        in_sequence(events.take(n + 1)),
        identities_distinct(events.take(n + 1)),
{
    let shorter = events.take(n);
    let longer = events.take(n + 1);
    assert forall|a: int, b: int|
        0 <= a < b < longer.len() && #[trigger] longer[a].session_id
            == #[trigger] longer[b].session_id implies longer[a].sequence < longer[b].sequence by {
        if b < n {
            assert(shorter[a].session_id == shorter[b].session_id);
        } else {
            assert(longer[a] == events[a]);
        }
    }
    assert forall|a: int, b: int| 0 <= a < b < longer.len() implies (#[trigger] longer[a]).id != (
    #[trigger] longer[b]).id by {
        if b < n {
            assert(shorter[a].id != shorter[b].id);
        } else {
            assert(longer[a] == events[a]);
        }
    }
}

/// A durable history.
#[derive(Debug)]
pub struct EventLog {
    events: Vec<EventEnvelope>,
}

impl View for EventLog {
    type V = Seq<EventEnvelope>;

    closed spec fn view(&self) -> Seq<EventEnvelope> {
        self.events@
    }
}

/// Filtering one element more.
pub proof fn lemma_rows_step(query: EventQuery, events: Seq<EventEnvelope>, n: int)
    requires
        0 <= n < events.len(),
    ensures
        query.rows(events.take(n + 1)) == (if query.admits(events[n]) {
            query.rows(events.take(n)).push(events[n])
        } else {
            query.rows(events.take(n))
        }),
{
    reveal(Seq::filter);
    assert(events.take(n + 1).drop_last() =~= events.take(n));
    assert(events.take(n + 1).last() == events[n]);
}

/// Every selected event is one of the events, and is admitted.
pub proof fn lemma_rows_admitted(query: EventQuery, events: Seq<EventEnvelope>)
    ensures
        forall|i: int|
            0 <= i < query.rows(events).len() ==> query.admits(#[trigger] query.rows(events)[i])
                && events.contains(query.rows(events)[i]),
    decreases events.len(),
{
    reveal(Seq::filter);
    if events.len() > 0 {
        lemma_rows_admitted(query, events.drop_last());
        assert forall|i: int| 0 <= i < query.rows(events).len() implies query.admits(
            #[trigger] query.rows(events)[i],
        ) && events.contains(query.rows(events)[i]) by {
            let shorter = query.rows(events.drop_last());
            if i < shorter.len() {
                let k = choose|k: int|
                    0 <= k < events.drop_last().len() && events.drop_last()[k] == shorter[i];
                assert(events[k] == shorter[i]);
            } else {
                assert(events[events.len() - 1] == query.rows(events)[i]);
            }
        }
    }
}

/// Nothing is selected where nothing is admitted.
pub proof fn lemma_nothing_selected(query: EventQuery, events: Seq<EventEnvelope>)
    requires
        forall|i: int| 0 <= i < events.len() ==> !query.admits(#[trigger] events[i]),
    ensures
        query.rows(events).len() == 0,
{
    lemma_rows_admitted(query, events);
    if query.rows(events).len() > 0 {
        let first = query.rows(events)[0];
        assert(query.admits(first) && events.contains(first));
        let k = choose|k: int| 0 <= k < events.len() && events[k] == first;
        assert(!query.admits(events[k]));
    }
}

/// The selected events of one run increase in sequence: the first has the least sequence of them
/// and the last the greatest.
pub proof fn law_selection_is_in_sequence(query: EventQuery, events: Seq<EventEnvelope>)
    requires
        query.scope is Run,
        in_sequence(events),
    ensures
        forall|i: int, j: int|
            0 <= i < j < query.rows(events).len() ==> (#[trigger] query.rows(events)[i]).sequence < (
            #[trigger] query.rows(events)[j]).sequence,
    decreases events.len(),
{
    reveal(Seq::filter);
    if events.len() > 0 {
        let shorter_events = events.drop_last();
        assert forall|i: int, j: int|
            0 <= i < j < shorter_events.len() && #[trigger] shorter_events[i].session_id
                == #[trigger] shorter_events[j].session_id implies shorter_events[i].sequence
            < shorter_events[j].sequence by {
            assert(events[i].session_id == events[j].session_id);
        }
        law_selection_is_in_sequence(query, shorter_events);
        lemma_rows_admitted(query, shorter_events);
        let shorter = query.rows(shorter_events);
        let rows = query.rows(events);
        assert forall|i: int, j: int| 0 <= i < j < rows.len() implies (#[trigger] rows[i]).sequence
            < (#[trigger] rows[j]).sequence by {
            if j < shorter.len() {
                assert(rows[i] == shorter[i] && rows[j] == shorter[j]);
            } else {
                assert(rows[i] == shorter[i]);
                assert(query.admits(shorter[i]));
                let k = choose|k: int| 0 <= k < shorter_events.len() && shorter_events[k]
                    == shorter[i];
                assert(events[k].session_id == events[events.len() - 1].session_id);
            }
        }
    }
}

/// An identity selects at most one event.
pub proof fn law_identity_selects_one(query: EventQuery, events: Seq<EventEnvelope>)
    requires
        query.id is Some,
        identities_distinct(events),
    ensures
        query.rows(events).len() <= 1,
    decreases events.len(),
{
    reveal(Seq::filter);
    if events.len() > 0 {
        let shorter = events.drop_last();
        assert forall|i: int, j: int| 0 <= i < j < shorter.len() implies (#[trigger] shorter[i]).id
            != (#[trigger] shorter[j]).id by {
            assert(events[i].id != events[j].id);
        }
        law_identity_selects_one(query, shorter);
        lemma_rows_admitted(query, shorter);
        if query.admits(events.last()) && query.rows(shorter).len() > 0 {
            let earlier = query.rows(shorter)[0];
            assert(query.admits(earlier));
            let k = choose|k: int| 0 <= k < shorter.len() && shorter[k] == earlier;
            assert(events[k].id != events[events.len() - 1].id);
        }
    }
}

/// The first and the last of a selection are what their names say: with an event selected at a place
/// and none after it, that event is the last; with none before it, it is the first.
pub proof fn law_ends_of_a_selection(query: EventQuery, events: Seq<EventEnvelope>, i: int)
    requires
        0 <= i < events.len(),
        query.admits(events[i]),
    ensures
        query.rows(events).contains(events[i]),
        (forall|j: int| i < j < events.len() ==> !query.admits(#[trigger] events[j]))
            ==> query.last_of(events) == Some(events[i]),
        (forall|j: int| 0 <= j < i ==> !query.admits(#[trigger] events[j])) ==> query.first_of(
            events,
        ) == Some(events[i]),
    decreases events.len(),
{
    reveal(Seq::filter);
    let shorter = events.drop_last();
    let rows = query.rows(events);
    let fewer = query.rows(shorter);
    if i == events.len() - 1 {
        assert(rows.last() == events[i]);
        if forall|j: int| 0 <= j < i ==> !query.admits(#[trigger] events[j]) {
            assert forall|j: int| 0 <= j < shorter.len() implies !query.admits(
                #[trigger] shorter[j],
            ) by {
                assert(shorter[j] == events[j]);
            }
            lemma_nothing_selected(query, shorter);
        }
        assert(rows[rows.len() - 1] == events[i]);
    } else {
        assert(shorter[i] == events[i]);
        law_ends_of_a_selection(query, shorter, i);
        let k = choose|k: int| 0 <= k < fewer.len() && fewer[k] == events[i];
        assert(rows[k] == events[i]);
        if forall|j: int| i < j < events.len() ==> !query.admits(#[trigger] events[j]) {
            assert(!query.admits(events[events.len() - 1]));
            assert forall|j: int| i < j < shorter.len() implies !query.admits(
                #[trigger] shorter[j],
            ) by {
                assert(shorter[j] == events[j]);
            }
        }
        if forall|j: int| 0 <= j < i ==> !query.admits(#[trigger] events[j]) {
            assert forall|j: int| 0 <= j < i implies !query.admits(#[trigger] shorter[j]) by {
                assert(shorter[j] == events[j]);
            }
            assert(rows[0] == fewer[0]);
        }
    }
}

/// The last of a selection stands at a place after which nothing is selected, and the first at one
/// before which nothing is; without them nothing is selected at all.
pub proof fn law_selections_have_ends(query: EventQuery, events: Seq<EventEnvelope>) -> (ends: (
    int,
    int,
))
    ensures
        match query.last_of(events) {
            Some(last) => {
                &&& 0 <= ends.1 < events.len()
                &&& events[ends.1] == last
                &&& query.admits(last)
                &&& forall|j: int| ends.1 < j < events.len() ==> !query.admits(#[trigger] events[j])
            },
            None => forall|j: int| 0 <= j < events.len() ==> !query.admits(#[trigger] events[j]),
        },
        match query.first_of(events) {
            Some(first) => {
                &&& 0 <= ends.0 < events.len()
                &&& events[ends.0] == first
                &&& query.admits(first)
                &&& forall|j: int| 0 <= j < ends.0 ==> !query.admits(#[trigger] events[j])
            },
            None => query.last_of(events) is None,
        },
    decreases events.len(),
{
    reveal(Seq::filter);
    if events.len() == 0 {
        (0, 0)
    } else {
        let shorter = events.drop_last();
        let place = events.len() - 1;
        let ends = law_selections_have_ends(query, shorter);
        assert forall|j: int| 0 <= j < shorter.len() implies shorter[j] == events[j] by {}
        if query.admits(events[place]) {
            let first = if query.rows(shorter).len() == 0 {
                place
            } else {
                ends.0
            };
            assert(query.rows(events).last() == events[place]);
            if query.rows(shorter).len() > 0 {
                assert(query.rows(events)[0] == query.rows(shorter)[0]);
            } else {
                assert forall|j: int| 0 <= j < first implies !query.admits(#[trigger] events[j]) by {
                    assert(events[j] == shorter[j]);
                }
            }
            assert forall|j: int| 0 <= j < first implies !query.admits(#[trigger] events[j]) by {
                assert(events[j] == shorter[j]);
            }
            (first, place)
        } else {
            assert(query.rows(events) == query.rows(shorter));
            assert forall|j: int| 0 <= j < ends.0 && query.first_of(shorter) is Some implies
                !query.admits(#[trigger] events[j]) by {
                assert(events[j] == shorter[j]);
            }
            assert forall|j: int| 0 <= j < events.len() && query.last_of(shorter) is None implies
                !query.admits(#[trigger] events[j]) by {
                if j < place {
                    assert(events[j] == shorter[j]);
                }
            }
            assert forall|j: int| ends.1 < j < events.len() && query.last_of(shorter) is Some implies
                !query.admits(#[trigger] events[j]) by {
                if j < place {
                    assert(events[j] == shorter[j]);
                }
            }
            ends
        }
    }
}

impl EventLog {
    #[verifier::type_invariant]
    spec fn well_formed(self) -> bool {
        in_sequence(self.events@) && identities_distinct(self.events@)
    }

    /// Takes over a history; refused exactly where a session's sequence does not increase or an
    /// identity occurs twice.
    pub fn from_events(events: Vec<EventEnvelope>) -> (r: Result<EventLog, StoreError>)
        ensures
            r is Ok <==> in_sequence(events@) && identities_distinct(events@),
            r matches Ok(log) ==> log@ == events@,
            r matches Err(error) ==> error == StoreError::InvalidStateEvent,
    {
        let mut j: usize = 0;
        while j < events.len()
            invariant
                j <= events@.len(),
                in_sequence(events@.take(j as int)),
                identities_distinct(events@.take(j as int)),
            decreases events.len() - j,
        {
            let mut i: usize = 0;
            while i < j
                invariant
                    i <= j < events@.len(),
                    in_sequence(events@.take(j as int)),
                    identities_distinct(events@.take(j as int)),
                    forall|k: int|
                        0 <= k < i ==> {
                            &&& (#[trigger] events@[k]).id != events@[j as int].id
                            &&& events@[k].session_id == events@[j as int].session_id
                                ==> events@[k].sequence < events@[j as int].sequence
                        },
                decreases j - i,
            {
                if events[i].id == events[j].id || (events[i].session_id == events[j].session_id
                    && events[i].sequence >= events[j].sequence) {
                    assert(events@[i as int].id == events@[j as int].id || !in_sequence(events@));
                    return Err(StoreError::InvalidStateEvent);
                }
                i += 1;
            }
            proof {
                lemma_one_more(events@, j as int);
            }
            j += 1;
        }
        assert(events@.take(events@.len() as int) =~= events@);
        Ok(EventLog { events })
    }

    /// Records more events; refused, with the history left as it is, where they would break the
    /// order of a session or repeat an identity.
    pub fn append_all(&mut self, events: Vec<EventEnvelope>) -> (r: Result<(), StoreError>)
        ensures
            r is Ok <==> in_sequence(old(self)@ + events@) && identities_distinct(
                old(self)@ + events@,
            ),
            r is Ok ==> final(self)@ == old(self)@ + events@,
            r is Err ==> *final(self) == *old(self),
            r matches Err(error) ==> error == StoreError::InvalidStateEvent,
    {
        proof {
            use_type_invariant(&*self);
        }
        let ghost before = self.events@;
        let ghost joined = before + events@;
        let mut j: usize = 0;
        while j < events.len()
            invariant
                j <= events@.len(),
                before == self.events@,
                joined == before + events@,
                *self == *old(self),
                in_sequence(joined.take(before.len() + j)),
                identities_distinct(joined.take(before.len() + j)),
            decreases events.len() - j,
        {
            let ghost at = before.len() + j;
            let mut i: usize = 0;
            while i < self.events.len()
                invariant
                    i <= before.len(),
                    j < events@.len(),
                    at == before.len() + j,
                    before == self.events@,
                    joined == before + events@,
                    *self == *old(self),
                    forall|k: int|
                        0 <= k < i ==> {
                            &&& (#[trigger] joined[k]).id != joined[at].id
                            &&& joined[k].session_id == joined[at].session_id ==> joined[k].sequence
                                < joined[at].sequence
                        },
                decreases self.events.len() - i,
            {
                assert(joined[i as int] == self.events@[i as int]);
                assert(joined[at] == events@[j as int]);
                if self.events[i].id == events[j].id || (self.events[i].session_id
                    == events[j].session_id && self.events[i].sequence >= events[j].sequence) {
                    assert(joined[i as int].id == joined[at].id || !in_sequence(joined));
                    return Err(StoreError::InvalidStateEvent);
                }
                i += 1;
            }
            let mut k: usize = 0;
            while k < j
                invariant
                    k <= j < events@.len(),
                    at == before.len() + j,
                    joined == before + events@,
                    before == self.events@,
                    *self == *old(self),
                    forall|a: int|
                        0 <= a < before.len() + k ==> {
                            &&& (#[trigger] joined[a]).id != joined[at].id
                            &&& joined[a].session_id == joined[at].session_id ==> joined[a].sequence
                                < joined[at].sequence
                        },
                decreases j - k,
            {
                assert(joined[before.len() + k] == events@[k as int]);
                assert(joined[at] == events@[j as int]);
                if events[k].id == events[j].id || (events[k].session_id == events[j].session_id
                    && events[k].sequence >= events[j].sequence) {
                    assert(joined[before.len() + k].id == joined[at].id || !in_sequence(joined));
                    return Err(StoreError::InvalidStateEvent);
                }
                k += 1;
            }
            proof {
                lemma_one_more(joined, at);
            }
            j += 1;
        }
        assert(joined.take(joined.len() as int) =~= joined);
        let mut all: Vec<EventEnvelope> = Vec::new();
        let mut more = events;
        std::mem::swap(&mut all, &mut self.events);
        all.append(&mut more);
        self.events = all;
        Ok(())
    }

    /// The sequence that the next event of a session gets.
    pub fn next_sequence(&self, session_id: SessionId) -> (r: Result<u64, StoreError>)
        ensures
            r == next_sequence_of(self@, session_id),
    {
        let mut n: usize = self.events.len();
        assert(self@.take(self@.len() as int) =~= self@);
        while n > 0
            invariant
                n <= self.events@.len(),
                self@ == self.events@,
                next_sequence_of(self@, session_id) == next_sequence_of(
                    self@.take(n as int),
                    session_id,
                ),
            decreases n,
        {
            assert(self@.take(n as int).drop_last() =~= self@.take(n - 1));
            n -= 1;
            if self.events[n].session_id == session_id {
                return if self.events[n].sequence >= MAX_SEQUENCE {
                    Err(StoreError::SequenceOverflow)
                } else {
                    Ok(self.events[n].sequence + 1)
                };
            }
        }
        Ok(1)
    }

    /// How many events there are.
    pub fn len(&self) -> (r: usize)
        ensures
            r == self@.len(),
    {
        self.events.len()
    }

    /// The selected events, in their order.
    pub fn select<'a>(&'a self, query: &EventQuery) -> (r: Vec<&'a EventEnvelope>)
        ensures
            r@.len() == query.rows(self@).len(),
            forall|i: int| 0 <= i < r@.len() ==> *#[trigger] r@[i] == query.rows(self@)[i],
    {
        let mut rows: Vec<&'a EventEnvelope> = Vec::new();
        let mut n: usize = 0;
        proof {
            reveal(Seq::filter);
            assert(query.rows(self@.take(0)) =~= Seq::empty());
        }
        while n < self.events.len()
            invariant
                n <= self@.len(),
                self@ == self.events@,
                rows@.len() == query.rows(self@.take(n as int)).len(),
                forall|i: int|
                    0 <= i < rows@.len() ==> *#[trigger] rows@[i] == query.rows(
                        self@.take(n as int),
                    )[i],
            decreases self.events.len() - n,
        {
            proof {
                lemma_rows_step(*query, self@, n as int);
            }
            if query.admits_event(&self.events[n]) {
                rows.push(&self.events[n]);
            }
            n += 1;
        }
        assert(self@.take(self@.len() as int) =~= self@);
        rows
    }

    /// The first selected event.
    pub fn first<'a>(&'a self, query: &EventQuery) -> (r: Option<&'a EventEnvelope>)
        ensures
            query.first_of(self@) == (match r {
                Some(event) => Some(*event),
                None => None,
            }),
    {
        let rows = self.select(query);
        if rows.len() == 0 {
            None
        } else {
            Some(rows[0])
        }
    }

    /// The last selected event.
    pub fn last<'a>(&'a self, query: &EventQuery) -> (r: Option<&'a EventEnvelope>)
        ensures
            query.last_of(self@) == (match r {
                Some(event) => Some(*event),
                None => None,
            }),
    {
        let rows = self.select(query);
        if rows.len() == 0 {
            None
        } else {
            Some(rows[rows.len() - 1])
        }
    }

    /// How many events are selected.
    pub fn count(&self, query: &EventQuery) -> (r: usize)
        ensures
            r == query.rows(self@).len(),
    {
        self.select(query).len()
    }

    /// The event of a run with one identity; refused where the run has none.
    pub fn event<'a>(&'a self, session_id: SessionId, run_id: RunId, id: EventId) -> (r: Result<
        &'a EventEnvelope,
        StoreError,
    >)
        ensures
            r == (match EventQuery::by_id(session_id, run_id, id).first_of(self@) {
                Some(event) => Ok::<&EventEnvelope, StoreError>(&event),
                None => Err(StoreError::InvalidStateEvent),
            }),
    {
        match self.first(&EventQuery::by_id(session_id, run_id, id)) {
            Some(event) => Ok(event),
            None => Err(StoreError::InvalidStateEvent),
        }
    }
}

} // verus!

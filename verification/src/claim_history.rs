//! Who holds a run, and how often its cancellation was asked for.

use vstd::prelude::*;
use crate::event::{EventEnvelope, EventPayload};
use crate::history::{EventLog, EventQuery, PayloadFilter};
use crate::identity::{RunId, SessionId};
use crate::text::Same;

verus! {

/// The last claim recorded for a run.
pub open spec fn latest_claim_of(
    events: Seq<EventEnvelope>,
    session_id: SessionId,
    run_id: RunId,
) -> Option<EventEnvelope> {
    EventQuery::in_run(session_id, run_id, PayloadFilter::RunClaimed).last_of(events)
}

/// The last claim recorded for a run.
pub fn latest_claim_for_run<'a>(log: &'a EventLog, session_id: SessionId, run_id: RunId) -> (r:
    Option<&'a EventEnvelope>)
    ensures
        latest_claim_of(log@, session_id, run_id) == (match r {
            Some(event) => Some(*event),
            None => None,
        }),
{
    log.last(&EventQuery::in_run(session_id, run_id, PayloadFilter::RunClaimed))
}

/// Whether a claim is the last that was recorded for a run.
#[verifier::opaque]
pub open spec fn is_latest_claim(
    events: Seq<EventEnvelope>,
    session_id: SessionId,
    run_id: RunId,
    claim_event: EventEnvelope,
) -> bool {
    latest_claim_of(events, session_id, run_id) matches Some(latest) && latest.same(&claim_event)
}

/// Whether a claim is the last that was recorded for a run.
pub fn holds_latest_claim(
    log: &EventLog,
    session_id: SessionId,
    run_id: RunId,
    claim_event: &EventEnvelope,
) -> (r: bool)
    ensures
        r == is_latest_claim(log@, session_id, run_id, *claim_event),
{
    proof {
        reveal(is_latest_claim);
    }
    match latest_claim_for_run(log, session_id, run_id) {
        Some(latest) => *latest == *claim_event,
        None => false,
    }
}

/// The generation of the last cancellation asked for, or zero.
pub open spec fn cancellation_generation_of(
    events: Seq<EventEnvelope>,
    session_id: SessionId,
    run_id: RunId,
) -> u64 {
    match EventQuery::in_run(session_id, run_id, PayloadFilter::CancellationRequested).last_of(
        events,
    ) {
        Some(event) => match event.payload {
            EventPayload::CancellationRequested(request) => request.cancellation_generation,
            _ => 0,
        },
        None => 0,
    }
}

/// The generation of the last cancellation asked for, or zero.
pub fn latest_cancellation_generation(
    log: &EventLog,
    session_id: SessionId,
    run_id: RunId,
) -> (r: u64)
    ensures
        r == cancellation_generation_of(log@, session_id, run_id),
{
    match log.last(&EventQuery::in_run(session_id, run_id, PayloadFilter::CancellationRequested)) {
        Some(event) => match &event.payload {
            EventPayload::CancellationRequested(request) => request.cancellation_generation,
            _ => 0,
        },
        None => 0,
    }
}

/// The last claim recorded for a run before a place of its session.
pub open spec fn latest_claim_before_of(
    events: Seq<EventEnvelope>,
    session_id: SessionId,
    run_id: RunId,
    sequence: u64,
) -> Option<EventEnvelope> {
    EventQuery::in_run(session_id, run_id, PayloadFilter::RunClaimed).before(sequence).last_of(
        events,
    )
}

/// The last claim recorded for a run before a place of its session.
pub fn latest_claim_for_run_before<'a>(
    log: &'a EventLog,
    session_id: SessionId,
    run_id: RunId,
    sequence: u64,
) -> (r: Option<&'a EventEnvelope>)
    ensures
        latest_claim_before_of(log@, session_id, run_id, sequence) == (match r {
            Some(event) => Some(*event),
            None => None,
        }),
{
    log.last(
        &EventQuery::in_run(session_id, run_id, PayloadFilter::RunClaimed).before(sequence),
    )
}

/// The last cancellation asked for before a place of the session.
pub open spec fn latest_cancellation_before_of(
    events: Seq<EventEnvelope>,
    session_id: SessionId,
    run_id: RunId,
    sequence: u64,
) -> Option<EventEnvelope> {
    EventQuery::in_run(session_id, run_id, PayloadFilter::CancellationRequested).before(
        sequence,
    ).last_of(events)
}

/// The last cancellation asked for before a place of the session.
pub fn latest_cancellation_for_run_before<'a>(
    log: &'a EventLog,
    session_id: SessionId,
    run_id: RunId,
    sequence: u64,
) -> (r: Option<&'a EventEnvelope>)
    ensures
        latest_cancellation_before_of(log@, session_id, run_id, sequence) == (match r {
            Some(event) => Some(*event),
            None => None,
        }),
{
    log.last(
        &EventQuery::in_run(session_id, run_id, PayloadFilter::CancellationRequested).before(
            sequence,
        ),
    )
}

/// The generation of a recorded cancellation, or zero.
pub open spec fn generation_in(event: Option<EventEnvelope>) -> u64 {
    match event {
        Some(event) => match event.payload {
            EventPayload::CancellationRequested(request) => request.cancellation_generation,
            _ => 0,
        },
        None => 0,
    }
}

/// The generation of the last cancellation asked for before a place of the session, or zero.
pub fn latest_cancellation_generation_before(
    log: &EventLog,
    session_id: SessionId,
    run_id: RunId,
    sequence: u64,
) -> (r: u64)
    ensures
        r == generation_in(latest_cancellation_before_of(log@, session_id, run_id, sequence)),
{
    match latest_cancellation_for_run_before(log, session_id, run_id, sequence) {
        Some(event) => match &event.payload {
            EventPayload::CancellationRequested(request) => request.cancellation_generation,
            _ => 0,
        },
        None => 0,
    }
}

/// The latest claim of a run is the last one on record, whichever others came before it; only that one
/// holds the claim, and a run without claims has no holder.
pub proof fn law_the_last_claim_holds(
    events: Seq<EventEnvelope>,
    session_id: SessionId,
    run_id: RunId,
    claim_event: EventEnvelope,
    i: int,
)
    requires
        0 <= i < events.len(),
        events[i].session_id == session_id,
        events[i].run_id == Some(run_id),
        events[i].payload is RunClaimed,
        forall|j: int|
            i < j < events.len() && (#[trigger] events[j]).session_id == session_id
                && events[j].run_id == Some(run_id) ==> !(events[j].payload is RunClaimed),
    ensures
        latest_claim_of(events, session_id, run_id) == Some(events[i]),
        is_latest_claim(events, session_id, run_id, claim_event) ==> claim_event.id == events[i].id
            && claim_event.sequence == events[i].sequence,
{
    reveal(is_latest_claim);
    let query = EventQuery::in_run(session_id, run_id, PayloadFilter::RunClaimed);
    assert(query.admits(events[i]));
    assert forall|j: int| i < j < events.len() implies !query.admits(#[trigger] events[j]) by {}
    crate::history::law_ends_of_a_selection(query, events, i);
}

/// A run without claims has no latest one, and nobody holds it.
pub proof fn law_unclaimed_runs_have_no_holder(
    events: Seq<EventEnvelope>,
    session_id: SessionId,
    run_id: RunId,
    claim_event: EventEnvelope,
)
    requires
        forall|j: int|
            0 <= j < events.len() && (#[trigger] events[j]).session_id == session_id
                && events[j].run_id == Some(run_id) ==> !(events[j].payload is RunClaimed),
    ensures
        latest_claim_of(events, session_id, run_id) is None,
        !is_latest_claim(events, session_id, run_id, claim_event),
{
    reveal(is_latest_claim);
    let query = EventQuery::in_run(session_id, run_id, PayloadFilter::RunClaimed);
    assert forall|j: int| 0 <= j < events.len() implies !query.admits(#[trigger] events[j]) by {}
    crate::history::lemma_nothing_selected(query, events);
}

/// The generation of a run's cancellation is that of the last cancellation asked for; it is zero before
/// any was.
pub proof fn law_the_last_cancellation_counts(
    events: Seq<EventEnvelope>,
    session_id: SessionId,
    run_id: RunId,
    i: int,
)
    requires
        i == -1 || (0 <= i < events.len() && events[i].session_id == session_id && events[i].run_id
            == Some(run_id) && events[i].payload is CancellationRequested),
        forall|j: int|
            i < j < events.len() && (#[trigger] events[j]).session_id == session_id
                && events[j].run_id == Some(run_id) ==> !(
            events[j].payload is CancellationRequested),
    ensures
        i == -1 ==> cancellation_generation_of(events, session_id, run_id) == 0,
        i >= 0 ==> (events[i].payload matches EventPayload::CancellationRequested(request)
            ==> cancellation_generation_of(events, session_id, run_id)
            == request.cancellation_generation),
{
    let query = EventQuery::in_run(session_id, run_id, PayloadFilter::CancellationRequested);
    assert forall|j: int| i < j < events.len() implies !query.admits(#[trigger] events[j]) by {}
    if i >= 0 {
        assert(query.admits(events[i]));
        crate::history::law_ends_of_a_selection(query, events, i);
    } else {
        crate::history::lemma_nothing_selected(query, events);
    }
}

/// What a run had before a sequence is the last claim, or the last cancellation, of an earlier one:
/// nothing at that sequence or after it counts.
pub proof fn law_only_the_past_counts(
    events: Seq<EventEnvelope>,
    session_id: SessionId,
    run_id: RunId,
    sequence: u64,
) -> (places: (int, int))
    ensures
        match latest_claim_before_of(events, session_id, run_id, sequence) {
            Some(claim) => {
                &&& 0 <= places.0 < events.len()
                &&& events[places.0] == claim
                &&& claim.payload is RunClaimed
                &&& claim.sequence < sequence
                &&& claim.session_id == session_id
                &&& claim.run_id == Some(run_id)
                &&& forall|j: int|
                    places.0 < j < events.len() && (#[trigger] events[j]).session_id == session_id
                        && events[j].run_id == Some(run_id) && events[j].sequence < sequence ==> !(
                    events[j].payload is RunClaimed)
            },
            None => forall|j: int|
                0 <= j < events.len() && (#[trigger] events[j]).session_id == session_id
                    && events[j].run_id == Some(run_id) && events[j].sequence < sequence ==> !(
                events[j].payload is RunClaimed),
        },
        match latest_cancellation_before_of(events, session_id, run_id, sequence) {
            Some(event) => {
                &&& 0 <= places.1 < events.len()
                &&& events[places.1] == event
                &&& event.sequence < sequence
                &&& event.session_id == session_id
                &&& event.run_id == Some(run_id)
                &&& event.payload matches EventPayload::CancellationRequested(request)
                    && generation_in(Some(event)) == request.cancellation_generation
                &&& forall|j: int|
                    places.1 < j < events.len() && (#[trigger] events[j]).session_id == session_id
                        && events[j].run_id == Some(run_id) && events[j].sequence < sequence ==> !(
                    events[j].payload is CancellationRequested)
            },
            None => {
                &&& generation_in(
                    latest_cancellation_before_of(events, session_id, run_id, sequence),
                ) == 0
                &&& forall|j: int|
                    0 <= j < events.len() && (#[trigger] events[j]).session_id == session_id
                        && events[j].run_id == Some(run_id) && events[j].sequence < sequence ==> !(
                    events[j].payload is CancellationRequested)
            },
        },
{
    let claims = EventQuery::in_run(session_id, run_id, PayloadFilter::RunClaimed).before(sequence);
    let cancellations = EventQuery::in_run(
        session_id,
        run_id,
        PayloadFilter::CancellationRequested,
    ).before(sequence);
    let claimed = crate::history::law_selections_have_ends(claims, events);
    let cancelled = crate::history::law_selections_have_ends(cancellations, events);
    assert forall|j: int|
        0 <= j < events.len() && (#[trigger] events[j]).session_id == session_id
            && events[j].run_id == Some(run_id) && events[j].sequence < sequence
            && events[j].payload is RunClaimed implies claims.admits(events[j]) by {}
    assert forall|j: int|
        0 <= j < events.len() && (#[trigger] events[j]).session_id == session_id
            && events[j].run_id == Some(run_id) && events[j].sequence < sequence
            && events[j].payload is CancellationRequested implies cancellations.admits(
        events[j],
    ) by {}
    (claimed.1, cancelled.1)
}

} // verus!

//! The atomic beginning of the two children of a reconnaissance run: authorization, issuance and
//! first attempt of both, recorded as six contiguous events or not at all.

use vstd::prelude::*;
use crate::child::ChildExecutionStarted;
use crate::child_replay::{ChildRecoveryState, ChildReplay, ChildWorkOrderProjection};
use crate::claim_history::{holds_latest_claim, latest_cancellation_generation};
use crate::clock::Timestamp;
use crate::error::StoreError;
use crate::event::{EventEnvelope, EventPayload, IdentifiedNewEvent};
use crate::history::{EventLog, EventQuery, EventScope, MAX_SEQUENCE, PayloadFilter};
use crate::identity::{EventId, RunId, SessionId};
use crate::lifecycle::RepositorySnapshotLifecycleReplay;
use crate::recon_bundle::{BootstrapDerivation, ChildAttemptStart, ChildRepositoryExplorerAttemptStartAuthority, FreshBootstrap, ParallelReconBootstrapAuthority, ParallelReconBootstrapMaterial, ParallelReconBootstrapOutcome, ParallelReconExactPairMaterial, PairIdentities, bootstrap_event_ids, bootstrap_material_from_events, does_pair_fit, validate_bootstrap_identity_budget};
use crate::run::{RunClaimed, RunState};
use crate::store::Store;
use crate::text::Same;

verus! {
/// An event with its sequence and its time.
pub open spec fn enveloped(event: IdentifiedNewEvent, sequence: u64, at: Timestamp) -> EventEnvelope {
    EventEnvelope {
        id: event.event_id,
        sequence,
        session_id: event.event.session_id,
        run_id: event.event.run_id,
        actor_id: event.event.actor_id,
        causal_parent: event.event.causal_parent,
        occurred_at: at,
        provenance: event.event.provenance,
        payload: event.event.payload,
    }
}

pub(crate) fn envelope_event(event: IdentifiedNewEvent, sequence: u64, at: Timestamp) -> (r: EventEnvelope)
    ensures
        r == enveloped(event, sequence, at),
{
    let IdentifiedNewEvent { event_id, event } = event;
    EventEnvelope {
        id: event_id,
        sequence,
        session_id: event.session_id,
        run_id: event.run_id,
        actor_id: event.actor_id,
        causal_parent: event.causal_parent,
        occurred_at: at,
        provenance: event.provenance,
        payload: event.payload,
    }
}

/// A start with its identity, its sequence and its time.
pub open spec fn enveloped_start(
    id: EventId,
    start: ChildAttemptStart,
    sequence: u64,
    at: Timestamp,
) -> EventEnvelope {
    EventEnvelope {
        id,
        sequence,
        session_id: start.session_id,
        run_id: start.run_id,
        actor_id: start.actor_id,
        causal_parent: start.causal_parent,
        occurred_at: at,
        provenance: start.provenance,
        payload: EventPayload::ChildExecutionStarted(start.started),
    }
}

fn envelope_start(id: EventId, start: ChildAttemptStart, sequence: u64, at: Timestamp) -> (r:
    EventEnvelope)
    ensures
        r == enveloped_start(id, start, sequence, at),
{
    EventEnvelope {
        id,
        sequence,
        session_id: start.session_id,
        run_id: start.run_id,
        actor_id: start.actor_id,
        causal_parent: start.causal_parent,
        occurred_at: at,
        provenance: start.provenance,
        payload: EventPayload::ChildExecutionStarted(start.started),
    }
}

/// Whether the clock of a start can be believed: it is the claim's runtime, running, not ahead of
/// the check, not before the claim or the snapshot, and within the deadline and the lease.
pub open spec fn clock_in_bounds(
    start: ChildRepositoryExplorerAttemptStartAuthority,
    claim_event: EventEnvelope,
    claim: RunClaimed,
    snapshot_event: EventEnvelope,
    deadline: Timestamp,
    checked_at: Timestamp,
) -> bool {
    let observed_at = start.started_at.observed_at;
    &&& start.started_at.runtime_instance_id == claim.runtime_instance_id
    &&& start.started_at.monotonic_nanos != 0
    &&& observed_at.not_after(checked_at)
    &&& claim_event.occurred_at.not_after(observed_at)
    &&& snapshot_event.occurred_at.not_after(observed_at)
    &&& observed_at.not_after(deadline)
    &&& observed_at.before(claim.lease_expires_at)
}

/// Refuses a start whose clock cannot be believed.
pub fn validate_start_clock(
    authority: &ChildRepositoryExplorerAttemptStartAuthority,
    claim_event: &EventEnvelope,
    claim: &RunClaimed,
    snapshot_event: &EventEnvelope,
    deadline: Timestamp,
    checked_at: Timestamp,
) -> (r: Result<(), StoreError>)
    ensures
        r == crate::error::demand(
            clock_in_bounds(
                *authority,
                *claim_event,
                *claim,
                *snapshot_event,
                deadline,
                checked_at,
            ),
        ),
{
    let reading = &authority.started_at;
    if reading.runtime_instance_id != claim.runtime_instance_id || reading.monotonic_nanos == 0
        || !reading.observed_at.not_after(checked_at) || !claim_event.occurred_at.not_after(
        reading.observed_at,
    ) || !snapshot_event.occurred_at.not_after(reading.observed_at)
        || !reading.observed_at.not_after(deadline) || !reading.observed_at.before(
        claim.lease_expires_at,
    ) {
        return Err(StoreError::InvalidStateEvent);
    }
    Ok(())
}

/// Whether a child was just issued, under the claim of the pair, and never attempted.
pub open spec fn child_is_fresh(
    replay: ChildReplay,
    child: ChildWorkOrderProjection,
    claim_event: EventEnvelope,
    claim: RunClaimed,
) -> bool {
    &&& replay.attempts@.len() == 0
    &&& replay.spec.same(&child.spec)
    &&& replay.active_claim.event_id == claim_event.id
    &&& replay.active_claim.claim_id == claim.claim_id
    &&& replay.active_claim.generation == claim.claim_generation
    &&& replay.active_claim.runtime_instance_id == claim.runtime_instance_id
    &&& replay.active_claim.cancellation_generation == claim.cancellation_generation
    &&& replay.active_claim.lease_expires_at == claim.lease_expires_at
}

/// What is found of the replayed history of a child before its first start.
pub open spec fn fresh_child(
    replay: Result<ChildReplay, StoreError>,
    child: ChildWorkOrderProjection,
    claim_event: EventEnvelope,
    claim: RunClaimed,
) -> Result<(), StoreError> {
    match replay {
        Err(error) => Err(error),
        Ok(replay) => crate::error::demand(child_is_fresh(replay, child, claim_event, claim)),
    }
}

/// Refuses a child that was attempted, or that another claim holds.
pub fn validate_fresh_child_replay(
    replay: &Result<ChildReplay, StoreError>,
    child: &ChildWorkOrderProjection,
    claim_event: &EventEnvelope,
    claim: &RunClaimed,
) -> (r: Result<(), StoreError>)
    ensures
        r == fresh_child(*replay, *child, *claim_event, *claim),
{
    let replay = match replay {
        Ok(replay) => replay,
        Err(error) => return Err(*error),
    };
    if replay.attempts.len() != 0 || replay.spec != child.spec || replay.active_claim.event_id
        != claim_event.id || replay.active_claim.claim_id != claim.claim_id
        || replay.active_claim.generation != claim.claim_generation
        || replay.active_claim.runtime_instance_id != claim.runtime_instance_id
        || replay.active_claim.cancellation_generation != claim.cancellation_generation
        || replay.active_claim.lease_expires_at != claim.lease_expires_at {
        return Err(StoreError::InvalidStateEvent);
    }
    Ok(())
}

/// Whether the session has room for the event `n` places after `base`, and the event was admitted.
pub open spec fn recorded_at_place(
    base: Result<u64, StoreError>,
    admission: Result<(), StoreError>,
    n: int,
) -> Result<(), StoreError> {
    match base {
        Err(error) => Err(error),
        Ok(base) => if base + n > MAX_SEQUENCE {
            Err(StoreError::SequenceOverflow)
        } else {
            admission
        },
    }
}

pub(crate) fn check_place(base: u64, admission: Result<(), StoreError>, n: u64) -> (r: Result<
    (),
    StoreError,
>)
    requires
        base <= MAX_SEQUENCE,
        n <= 6,
    ensures
        r == recorded_at_place(Ok(base), admission, n as int),
{
    if base + n > MAX_SEQUENCE {
        Err(StoreError::SequenceOverflow)
    } else {
        admission
    }
}

/// What is found before the six events are made: the pair was derived for this authority, nothing of
/// a pair is there yet, the snapshot is, the clocks of both starts can be believed, and the four events of the pair were admitted.
pub open spec fn pair_verdict(
    store: Store,
    session_id: SessionId,
    run_id: RunId,
    authority: ParallelReconBootstrapAuthority,
    pair: ParallelReconExactPairMaterial,
    fresh: FreshBootstrap,
) -> Result<(), StoreError> {
    let base = crate::history::next_sequence_of(store.log@, session_id);
    if !crate::recon_bundle::pair_fits(pair, session_id, run_id, authority.pair.identities())
        || !crate::recon_bundle::no_pair_yet(
        store.log@,
        session_id,
        run_id,
        authority.pair.accepted_planner_turn_event_id,
    ) {
        Err(StoreError::InvalidStateEvent)
    } else {
        match anywhere(authority.pair.snapshot_lease_event_id).first_of(store.log@) {
            None => Err(StoreError::InvalidStateEvent),
            Some(snapshot_event) => if !clock_in_bounds(
                authority.starts@[0],
                pair.claim_event,
                pair.claim,
                snapshot_event,
                pair.deadline,
                fresh.checked_at,
            ) || !clock_in_bounds(
                authority.starts@[1],
                pair.claim_event,
                pair.claim,
                snapshot_event,
                pair.deadline,
                fresh.checked_at,
            ) {
                Err(StoreError::InvalidStateEvent)
            } else {
                crate::error::and_next(
                    recorded_at_place(base, fresh.admissions@[0], 0),
                    crate::error::and_next(
                        recorded_at_place(base, fresh.admissions@[1], 1),
                        crate::error::and_next(
                            recorded_at_place(base, fresh.admissions@[2], 2),
                            recorded_at_place(base, fresh.admissions@[3], 3),
                        ),
                    ),
                )
            },
        }
    }
}

/// The event with an identity, whatever run it belongs to.
#[verifier::allow_in_spec]
pub fn anywhere<'a>(id: EventId) -> EventQuery<'a>
    returns
        (EventQuery {
            scope: EventScope::Everywhere,
            id: Some(id),
            from: None,
            until: None,
            payload: PayloadFilter::Any,
        }),
{
    EventQuery {
        scope: EventScope::Everywhere,
        id: Some(id),
        from: None,
        until: None,
        payload: PayloadFilter::Any,
    }
}

/// What is found of the two starts: each child is fresh, its history asks for a start, and the
/// start was admitted.
pub open spec fn starts_verdict(
    base: Result<u64, StoreError>,
    pair: ParallelReconExactPairMaterial,
    fresh: FreshBootstrap,
) -> Result<(ChildAttemptStart, ChildAttemptStart), StoreError> {
    match fresh.children {
        Err(error) => Err(error),
        Ok((left, right)) => match fresh_child(
            fresh.left_replay,
            left,
            pair.claim_event,
            pair.claim,
        ) {
            Err(error) => Err(error),
            Ok(()) => match fresh.left_start {
                Err(error) => Err(error),
                Ok(left_start) => match recorded_at_place(base, fresh.admissions@[4], 4) {
                    Err(error) => Err(error),
                    Ok(()) => match fresh_child(
                        fresh.right_replay,
                        right,
                        pair.claim_event,
                        pair.claim,
                    ) {
                        Err(error) => Err(error),
                        Ok(()) => match fresh.right_start {
                            Err(error) => Err(error),
                            Ok(right_start) => match recorded_at_place(
                                base,
                                fresh.admissions@[5],
                                5,
                            ) {
                                Err(error) => Err(error),
                                Ok(()) => Ok((left_start, right_start)),
                            },
                        },
                    },
                },
            },
        },
    }
}

/// Whether the run still stands as the pair assumed: its snapshot is the leased one, it is running,
/// no cancellation was asked for, and the claim is the last.
pub open spec fn run_still_stands(
    store: Store,
    session_id: SessionId,
    run_id: RunId,
    authority: ParallelReconBootstrapAuthority,
    claim_event: EventEnvelope,
    lifecycle: RepositorySnapshotLifecycleReplay,
) -> bool {
    &&& lifecycle matches RepositorySnapshotLifecycleReplay::Active { lease_event, .. }
        && lease_event.id == authority.pair.snapshot_lease_event_id
    &&& store.state_record(run_id) matches Some(row) && row.state == RunState::Running
    &&& crate::claim_history::cancellation_generation_of(store.log@, session_id, run_id) == 0
    &&& crate::claim_history::is_latest_claim(store.log@, session_id, run_id, claim_event)
}

/// The six events that a bootstrap records.
pub open spec fn bootstrap_bundle(
    base: u64,
    authority: ParallelReconBootstrapAuthority,
    pair: ParallelReconExactPairMaterial,
    left_start: ChildAttemptStart,
    right_start: ChildAttemptStart,
    at: Seq<Timestamp>,
) -> Seq<EventEnvelope> {
    seq![
        enveloped(pair.authorize_left, base, at[0]),
        enveloped(pair.authorize_right, (base + 1) as u64, at[1]),
        enveloped(pair.issue_left, (base + 2) as u64, at[2]),
        enveloped(pair.issue_right, (base + 3) as u64, at[3]),
        enveloped_start(authority.starts@[0].event_id, left_start, (base + 4) as u64, at[4]),
        enveloped_start(authority.starts@[1].event_id, right_start, (base + 5) as u64, at[5]),
    ]
}

/// What is found of the six events once they are made.
#[verifier::opaque]
pub open spec fn closing_verdict(
    store: Store,
    session_id: SessionId,
    run_id: RunId,
    authority: ParallelReconBootstrapAuthority,
    claim_event: EventEnvelope,
    guards: Seq<Result<(), StoreError>>,
    lifecycle: Result<RepositorySnapshotLifecycleReplay, StoreError>,
    bundle: Seq<EventEnvelope>,
    recorded: BootstrapDerivation,
) -> Result<(), StoreError> {
    match guards[0] {
        Err(error) => Err(error),
        Ok(()) => match lifecycle {
            Err(error) => Err(error),
            Ok(lifecycle) => if !run_still_stands(
                store,
                session_id,
                run_id,
                authority,
                claim_event,
                lifecycle,
            ) {
                Err(StoreError::InvalidStateEvent)
            } else {
                match crate::recon_bundle::bundle_verdict(
                    store.log@ + bundle,
                    session_id,
                    run_id,
                    authority.pair.identities(),
                    authority.starts@[0],
                    authority.starts@[1],
                    bundle,
                    recorded,
                ) {
                    Err(error) => Err(error),
                    Ok(()) => if !ready_for_model(recorded) {
                        Err(StoreError::InvalidStateEvent)
                    } else {
                        match guards[1] {
                            Err(error) => Err(error),
                            Ok(()) => crate::error::demand(
                                {
                                    &&& crate::history::in_sequence(store.log@ + bundle)
                                    &&& crate::history::identities_distinct(store.log@ + bundle)
                                },
                            ),
                        }
                    },
                }
            },
        },
    }
}

/// Whether both children wait for their model.
pub open spec fn ready_for_model(recorded: BootstrapDerivation) -> bool {
    recorded.children matches Ok((left, right)) && left.recovery
        == ChildRecoveryState::ReadyForModel && right.recovery == ChildRecoveryState::ReadyForModel
}

/// Where the six events begin, or why none is made.
#[verifier::opaque]
pub open spec fn fresh_base(
    store: Store,
    session_id: SessionId,
    run_id: RunId,
    authority: ParallelReconBootstrapAuthority,
    fresh: FreshBootstrap,
) -> Result<u64, StoreError> {
    match fresh.pair {
        Err(error) => Err(error),
        Ok(pair) => match pair_verdict(store, session_id, run_id, authority, pair, fresh) {
            Err(error) => Err(error),
            Ok(()) => {
                let base = crate::history::next_sequence_of(store.log@, session_id);
                match starts_verdict(base, pair, fresh) {
                    Err(error) => Err(error),
                    Ok(_) => base,
                }
            },
        },
    }
}

/// The six events that a first bootstrap makes at `base`.
pub open spec fn made_bundle(
    base: u64,
    authority: ParallelReconBootstrapAuthority,
    fresh: FreshBootstrap,
) -> Seq<EventEnvelope> {
    bootstrap_bundle(
        base,
        authority,
        fresh.pair->Ok_0,
        fresh.left_start->Ok_0,
        fresh.right_start->Ok_0,
        fresh.recorded_at@,
    )
}

/// The six events that a first bootstrap records, or why it records none.
#[verifier::opaque]
pub open spec fn fresh_bundle(
    store: Store,
    session_id: SessionId,
    run_id: RunId,
    authority: ParallelReconBootstrapAuthority,
    fresh: FreshBootstrap,
    recorded: BootstrapDerivation,
) -> Result<Seq<EventEnvelope>, StoreError> {
    match fresh_base(store, session_id, run_id, authority, fresh) {
        Err(error) => Err(error),
        Ok(base) => match closing_verdict(
            store,
            session_id,
            run_id,
            authority,
            (fresh.pair->Ok_0).claim_event,
            fresh.guards@,
            fresh.lifecycle,
            made_bundle(base, authority, fresh),
            recorded,
        ) {
            Err(error) => Err(error),
            Ok(()) => Ok(made_bundle(base, authority, fresh)),
        },
    }
}

impl Store {
    pub(crate) fn check_no_pair_yet(&self, session_id: SessionId, run_id: RunId, accepted_event_id: EventId) -> (r:
        bool)
        ensures
            r == crate::recon_bundle::no_pair_yet(self.log@, session_id, run_id, accepted_event_id),
    {
        self.log.count(
            &EventQuery::in_run(session_id, run_id, PayloadFilter::DelegationAuthorizedV2),
        ) == 0 && self.log.count(
            &EventQuery::in_run(
                session_id,
                run_id,
                PayloadFilter::DelegationAuthorizedBy(accepted_event_id),
            ),
        ) == 0 && self.log.count(
            &EventQuery::in_run(session_id, run_id, PayloadFilter::WorkOrderIssued),
        ) == 0
    }

    fn check_pair(
        &self,
        session_id: SessionId,
        run_id: RunId,
        authority: &ParallelReconBootstrapAuthority,
        pair: &ParallelReconExactPairMaterial,
        fresh: &FreshBootstrap,
    ) -> (r: Result<(), StoreError>)
        ensures
            r == pair_verdict(*self, session_id, run_id, *authority, *pair, *fresh),
    {
        if !does_pair_fit(pair, session_id, run_id, &authority.pair.identities()) {
            return Err(StoreError::InvalidStateEvent);
        }
        if !self.check_no_pair_yet(
            session_id,
            run_id,
            authority.pair.accepted_planner_turn_event_id,
        ) {
            return Err(StoreError::InvalidStateEvent);
        }
        let snapshot_event = match self.log.first(
            &anywhere(authority.pair.snapshot_lease_event_id),
        ) {
            Some(event) => event,
            None => return Err(StoreError::InvalidStateEvent),
        };
        match validate_start_clock(
            &authority.starts[0],
            &pair.claim_event,
            &pair.claim,
            snapshot_event,
            pair.deadline,
            fresh.checked_at,
        ) {
            Ok(()) => {},
            Err(error) => return Err(error),
        }
        match validate_start_clock(
            &authority.starts[1],
            &pair.claim_event,
            &pair.claim,
            snapshot_event,
            pair.deadline,
            fresh.checked_at,
        ) {
            Ok(()) => {},
            Err(error) => return Err(error),
        }
        let base: u64 = match self.log.next_sequence(session_id) {
            Ok(base) => base,
            Err(error) => return Err(error),
        };
        proof {
            lemma_sequence_bounded(self.log@, session_id);
        }
        match check_place(base, fresh.admissions[0], 0) {
            Ok(()) => {},
            Err(error) => return Err(error),
        }
        match check_place(base, fresh.admissions[1], 1) {
            Ok(()) => {},
            Err(error) => return Err(error),
        }
        match check_place(base, fresh.admissions[2], 2) {
            Ok(()) => {},
            Err(error) => return Err(error),
        }
        check_place(base, fresh.admissions[3], 3)
    }

    fn check_run_still_stands(
        &self,
        session_id: SessionId,
        run_id: RunId,
        authority: &ParallelReconBootstrapAuthority,
        claim_event: &EventEnvelope,
        lifecycle: &RepositorySnapshotLifecycleReplay,
    ) -> (r: bool)
        ensures
            r == run_still_stands(
                *self,
                session_id,
                run_id,
                *authority,
                *claim_event,
                *lifecycle,
            ),
    {
        let leased = match lifecycle {
            RepositorySnapshotLifecycleReplay::Active { lease_event, .. } => lease_event.id
                == authority.pair.snapshot_lease_event_id,
            _ => false,
        };
        let running = match self.run_state(run_id) {
            Some(row) => row.state == RunState::Running,
            None => false,
        };
        let claimed = holds_latest_claim(&self.log, session_id, run_id, claim_event);
        leased && running && latest_cancellation_generation(&self.log, session_id, run_id) == 0
            && claimed
    }
}

/// A sequence that can be given is one that can be recorded.
pub proof fn lemma_sequence_bounded(events: Seq<EventEnvelope>, session_id: SessionId)
    ensures
        crate::history::next_sequence_of(events, session_id) matches Ok(sequence) ==> 1 <= sequence
            <= MAX_SEQUENCE,
    decreases events.len(),
{
    if events.len() > 0 && events.last().session_id != session_id {
        lemma_sequence_bounded(events.drop_last(), session_id);
    }
}

fn check_starts(
    base: u64,
    pair: &ParallelReconExactPairMaterial,
    fresh: &FreshBootstrap,
) -> (r: Result<(), StoreError>)
    requires
        base <= MAX_SEQUENCE,
    ensures
        match (r, starts_verdict(Ok(base), *pair, *fresh)) {
            (Ok(()), Ok(_)) => true,
            (Err(error), Err(expected)) => error == expected,
            _ => false,
        },
{
    let (left, right) = match &fresh.children {
        Ok((left, right)) => (left, right),
        Err(error) => return Err(*error),
    };
    match validate_fresh_child_replay(&fresh.left_replay, left, &pair.claim_event, &pair.claim) {
        Ok(()) => {},
        Err(error) => return Err(error),
    }
    match &fresh.left_start {
        Ok(_) => {},
        Err(error) => return Err(*error),
    }
    match check_place(base, fresh.admissions[4], 4) {
        Ok(()) => {},
        Err(error) => return Err(error),
    }
    match validate_fresh_child_replay(&fresh.right_replay, right, &pair.claim_event, &pair.claim) {
        Ok(()) => {},
        Err(error) => return Err(error),
    }
    match &fresh.right_start {
        Ok(_) => {},
        Err(error) => return Err(*error),
    }
    check_place(base, fresh.admissions[5], 5)
}

pub(crate) fn references(events: &Vec<EventEnvelope>) -> (r: Vec<&EventEnvelope>)
    ensures
        crate::recon_bundle::referenced(r@) == events@,
{
    let mut found: Vec<&EventEnvelope> = Vec::new();
    let mut i: usize = 0;
    while i < events.len()
        invariant
            i <= events@.len(),
            found@.len() == i,
            forall|k: int| 0 <= k < i ==> *#[trigger] found@[k] == events@[k],
        decreases events.len() - i,
    {
        found.push(&events[i]);
        i += 1;
    }
    assert(crate::recon_bundle::referenced(found@) =~= events@);
    found
}

fn check_ready_for_model(material: &ParallelReconBootstrapMaterial) -> (r: bool)
    ensures
        r == (material.children@[0].projection.recovery == ChildRecoveryState::ReadyForModel
            && material.children@[1].projection.recovery == ChildRecoveryState::ReadyForModel),
{
    material.children[0].projection.recovery == ChildRecoveryState::ReadyForModel
        && material.children[1].projection.recovery == ChildRecoveryState::ReadyForModel
}

impl Store {
    fn close_bootstrap(
        &mut self,
        session_id: SessionId,
        run_id: RunId,
        authority: &ParallelReconBootstrapAuthority,
        claim_event: &EventEnvelope,
        guards: [Result<(), StoreError>; 2],
        lifecycle: &Result<RepositorySnapshotLifecycleReplay, StoreError>,
        bundle: Vec<EventEnvelope>,
        recorded: BootstrapDerivation,
    ) -> (r: Result<ParallelReconBootstrapMaterial, StoreError>)
        ensures
            match (
                r,
                closing_verdict(
                    *old(self),
                    session_id,
                    run_id,
                    *authority,
                    *claim_event,
                    guards@,
                    *lifecycle,
                    bundle@,
                    recorded,
                ),
            ) {
                (Ok(material), Ok(())) => crate::recon_bundle::material_shows(material, bundle@, recorded) && only_grew(
                    *old(self),
                    *final(self),
                    bundle@,
                ),
                (Err(error), Err(expected)) => error == expected && *final(self) == *old(self),
                _ => false,
            },
    {
        proof {
            reveal(closing_verdict);
            reveal(crate::recon_bundle::bundle_verdict);
        }
        match guards[0] {
            Ok(()) => {},
            Err(error) => return Err(error),
        }
        match lifecycle {
            Ok(lifecycle) => if !self.check_run_still_stands(
                session_id,
                run_id,
                authority,
                claim_event,
                lifecycle,
            ) {
                return Err(StoreError::InvalidStateEvent);
            },
            Err(error) => return Err(*error),
        }
        let material = match bootstrap_material_from_events(
            &self.log,
            &bundle,
            session_id,
            run_id,
            authority,
            &references(&bundle),
            recorded,
        ) {
            Ok(material) => material,
            Err(error) => return Err(error),
        };
        if !check_ready_for_model(&material) {
            return Err(StoreError::InvalidStateEvent);
        }
        match guards[1] {
            Ok(()) => {},
            Err(error) => return Err(error),
        }
        match self.log.append_all(bundle) {
            Ok(()) => Ok(material),
            Err(error) => Err(error),
        }
    }

    fn check_fresh(
        &self,
        session_id: SessionId,
        run_id: RunId,
        authority: &ParallelReconBootstrapAuthority,
        fresh: &FreshBootstrap,
    ) -> (r: Result<u64, StoreError>)
        ensures
            r == fresh_base(*self, session_id, run_id, *authority, *fresh),
            r matches Ok(base) ==> {
                &&& base + 5 <= MAX_SEQUENCE
                &&& fresh.pair is Ok
                &&& fresh.left_start is Ok
                &&& fresh.right_start is Ok
            },
    {
        proof {
            reveal(fresh_base);
        }
        match &fresh.pair {
            Ok(pair) => {
                match self.check_pair(session_id, run_id, authority, pair, fresh) {
                    Ok(()) => {},
                    Err(error) => return Err(error),
                }
                let base: u64 = match self.log.next_sequence(session_id) {
                    Ok(base) => base,
                    Err(error) => return Err(error),
                };
                proof {
                    lemma_sequence_bounded(self.log@, session_id);
                }
                match check_starts(base, pair, fresh) {
                    Ok(()) => Ok(base),
                    Err(error) => Err(error),
                }
            },
            Err(error) => Err(*error),
        }
    }

    fn record_bootstrap(
        &mut self,
        session_id: SessionId,
        run_id: RunId,
        authority: &ParallelReconBootstrapAuthority,
        fresh: FreshBootstrap,
        recorded: BootstrapDerivation,
    ) -> (r: Result<ParallelReconBootstrapMaterial, StoreError>)
        ensures
            match (
                r,
                fresh_bundle(*old(self), session_id, run_id, *authority, fresh, recorded),
            ) {
                (Ok(material), Ok(bundle)) => crate::recon_bundle::material_shows(material, bundle, recorded)
                    && only_grew(*old(self), *final(self), bundle),
                (Err(error), Err(expected)) => error == expected && *final(self) == *old(self),
                _ => false,
            },
    {
        proof {
            reveal(fresh_bundle);
        }
        let base: u64 = match self.check_fresh(session_id, run_id, authority, &fresh) {
            Ok(base) => base,
            Err(error) => return Err(error),
        };
        let ghost expected = made_bundle(base, *authority, fresh);
        let FreshBootstrap { pair, recorded_at: at, guards, lifecycle, left_start, right_start, .. } =
            fresh;
        match (pair, left_start, right_start) {
            (Ok(pair), Ok(left_start), Ok(right_start)) => {
                let ParallelReconExactPairMaterial {
                    claim_event,
                    authorize_left,
                    authorize_right,
                    issue_left,
                    issue_right,
                    ..
                } = pair;
                let bundle = make_bundle(
                    base,
                    authority,
                    (authorize_left, authorize_right),
                    (issue_left, issue_right),
                    (left_start, right_start),
                    at,
                );
                assert(bundle@ =~= expected);
                self.close_bootstrap(
                    session_id,
                    run_id,
                    authority,
                    &claim_event,
                    guards,
                    &lifecycle,
                    bundle,
                    recorded,
                )
            },
            _ => Err(StoreError::InvalidStateEvent),
        }
    }
}

fn make_bundle(
    base: u64,
    authority: &ParallelReconBootstrapAuthority,
    authorizations: (IdentifiedNewEvent, IdentifiedNewEvent),
    issuances: (IdentifiedNewEvent, IdentifiedNewEvent),
    starts: (ChildAttemptStart, ChildAttemptStart),
    at: [Timestamp; 6],
) -> (r: Vec<EventEnvelope>)
    requires
        base + 5 <= MAX_SEQUENCE,
    ensures
        r@ == seq![
            enveloped(authorizations.0, base, at@[0]),
            enveloped(authorizations.1, (base + 1) as u64, at@[1]),
            enveloped(issuances.0, (base + 2) as u64, at@[2]),
            enveloped(issuances.1, (base + 3) as u64, at@[3]),
            enveloped_start(authority.starts@[0].event_id, starts.0, (base + 4) as u64, at@[4]),
            enveloped_start(authority.starts@[1].event_id, starts.1, (base + 5) as u64, at@[5]),
        ],
{
    let mut bundle: Vec<EventEnvelope> = Vec::new();
    bundle.push(envelope_event(authorizations.0, base, at[0]));
    bundle.push(envelope_event(authorizations.1, base + 1, at[1]));
    bundle.push(envelope_event(issuances.0, base + 2, at[2]));
    bundle.push(envelope_event(issuances.1, base + 3, at[3]));
    bundle.push(envelope_start(authority.starts[0].event_id, starts.0, base + 4, at[4]));
    bundle.push(envelope_start(authority.starts[1].event_id, starts.1, base + 5, at[5]));
    bundle
}

/// Whether a store became another by nothing but the recording of more events.
pub open spec fn only_grew(before: Store, after: Store, events: Seq<EventEnvelope>) -> bool {
    &&& after.log@ == before.log@ + events
    &&& after.contract == before.contract
    &&& after.sessions == before.sessions
    &&& after.runs == before.runs
    &&& after.run_states == before.run_states
}

/// The events with the given identities, as far as they are recorded.
pub open spec fn identified_events(events: Seq<EventEnvelope>, ids: Seq<EventId>) -> Seq<
    Option<EventEnvelope>,
> {
    Seq::new(ids.len(), |i: int| anywhere(ids[i]).first_of(events))
}

/// The recorded events with the given identities, all of them or none; a part is refused.
#[verifier::opaque]
pub open spec fn presence(events: Seq<EventEnvelope>, ids: Seq<EventId>) -> Result<
    Option<Seq<EventEnvelope>>,
    StoreError,
> {
    let found = identified_events(events, ids);
    if forall|i: int| 0 <= i < ids.len() ==> (#[trigger] found[i]) is Some {
        Ok(Some(Seq::new(ids.len(), |i: int| found[i]->0)))
    } else if forall|i: int| 0 <= i < ids.len() ==> (#[trigger] found[i]) is None {
        Ok(None)
    } else {
        Err(StoreError::InvalidStateEvent)
    }
}

/// Finds the events with the given identities, as far as they are recorded.
pub(crate) fn authority_events<'a, const N: usize>(log: &'a EventLog, ids: &[EventId; N]) -> (r:
    Vec<&'a EventEnvelope>)
    requires
        N > 0,
    ensures
        match presence(log@, ids@) {
            Ok(Some(bundle)) => crate::recon_bundle::referenced(r@) == bundle && r@.len() == N,
            Ok(None) => r@.len() == 0,
            Err(error) => 0 < r@.len() < N && error == StoreError::InvalidStateEvent,
        },
{
    proof {
        reveal(presence);
    }
    let ghost found = identified_events(log@, ids@);
    let mut events: Vec<&'a EventEnvelope> = Vec::new();
    let mut i: usize = 0;
    while i < N
        invariant
            i <= N,
            ids@.len() == N,
            found == identified_events(log@, ids@),
            events@.len() <= i,
            events@.len() == i ==> (forall|k: int|
                0 <= k < i ==> (#[trigger] found[k]) == Some(*events@[k])),
            events@.len() == 0 ==> (forall|k: int| 0 <= k < i ==> (#[trigger] found[k]) is None),
            events@.len() > 0 ==> (exists|k: int| 0 <= k < i && (#[trigger] found[k]) is Some),
            events@.len() < i ==> (exists|k: int| 0 <= k < i && (#[trigger] found[k]) is None),
        decreases N - i,
    {
        let ghost before = events@;
        match log.first(&anywhere(ids[i])) {
            Some(event) => {
                events.push(event);
                assert(found[i as int] == Some(*event));
                proof {
                    if before.len() == i as nat {
                        assert forall|k: int| 0 <= k < i + 1 implies (#[trigger] found[k]) == Some(
                            *events@[k],
                        ) by {
                            if k < i {
                                assert(events@[k] == before[k]);
                            }
                        }
                    }
                }
            },
            None => {
                assert(found[i as int] is None);
            },
        }
        i += 1;
    }
    proof {
        if events@.len() == N {
            let bundle = Seq::new(N as nat, |k: int| found[k]->0);
            assert forall|k: int| 0 <= k < N implies crate::recon_bundle::referenced(events@)[k] == bundle[k] by {
                assert(found[k] == Some(*events@[k]));
            }
            assert(crate::recon_bundle::referenced(events@) =~= bundle);
        }
    }
    events
}

/// What a bootstrap comes to: the six events that it records, or those that it finds, or why it is
/// refused.
pub open spec fn bootstrap_verdict(
    store: Store,
    run_id: RunId,
    authority: ParallelReconBootstrapAuthority,
    fresh: FreshBootstrap,
    recorded: BootstrapDerivation,
) -> Result<Seq<EventEnvelope>, StoreError> {
    if !crate::recon_bundle::identity_budget(authority) {
        Err(StoreError::InvalidStateEvent)
    } else {
        match crate::recon_recovery::recon_session(store, run_id) {
            Err(error) => Err(error),
            Ok(session_id) => match presence(store.log@, crate::recon_bundle::bootstrap_ids(authority)) {
                Err(error) => Err(error),
                Ok(Some(bundle)) => match crate::recon_bundle::bundle_verdict(
                    store.log@,
                    session_id,
                    run_id,
                    authority.pair.identities(),
                    authority.starts@[0],
                    authority.starts@[1],
                    bundle,
                    recorded,
                ) {
                    Err(error) => Err(error),
                    Ok(()) => Ok(bundle),
                },
                Ok(None) => fresh_bundle(
                    store,
                    session_id,
                    run_id,
                    authority,
                    fresh,
                    recorded,
                ),
            },
        }
    }
}

impl Store {
    /// Authorizes and issues the pair that an accepted turn asked for, and starts the first attempt
    /// of both children.
    ///
    /// Six contiguous events are recorded, in the order authorization, authorization, issuance,
    /// issuance, start, start, or none. The same authority once more finds what it recorded; a part
    /// of a bootstrap, or another one, is refused. `fresh` is what a first recording meets, and
    /// `recorded` is what replay makes of the six events once they stand.
    pub fn bootstrap_parallel_recon_exact_pair(
        &mut self,
        run_id: RunId,
        authority: ParallelReconBootstrapAuthority,
        fresh: FreshBootstrap,
        recorded: BootstrapDerivation,
    ) -> (r: Result<ParallelReconBootstrapOutcome, StoreError>)
        ensures
            match (r, bootstrap_verdict(*old(self), run_id, authority, fresh, recorded)) {
                (Ok(ParallelReconBootstrapOutcome::Appended { material }), Ok(bundle)) => {
                    &&& presence(old(self).log@, crate::recon_bundle::bootstrap_ids(authority)) == Ok::<
                        Option<Seq<EventEnvelope>>,
                        StoreError,
                    >(None)
                    &&& crate::recon_bundle::material_shows(material, bundle, recorded)
                    &&& only_grew(*old(self), *final(self), bundle)
                },
                (Ok(ParallelReconBootstrapOutcome::AlreadyPresent { material }), Ok(bundle)) => {
                    &&& presence(old(self).log@, crate::recon_bundle::bootstrap_ids(authority)) == Ok::<
                        Option<Seq<EventEnvelope>>,
                        StoreError,
                    >(Some(bundle))
                    &&& crate::recon_bundle::material_shows(material, bundle, recorded)
                    &&& *final(self) == *old(self)
                },
                (Err(error), Err(expected)) => error == expected && *final(self) == *old(self),
                _ => false,
            },
    {
        match validate_bootstrap_identity_budget(&authority) {
            Ok(()) => {},
            Err(error) => return Err(error),
        }
        let session_id = match self.recon_session_of(run_id) {
            Ok(session_id) => session_id,
            Err(error) => return Err(error),
        };
        let existing = authority_events(&self.log, &bootstrap_event_ids(&authority));
        assert(crate::recon_bundle::referenced(existing@).len() == existing@.len());
        if existing.len() != 0 && existing.len() != 6 {
            return Err(StoreError::InvalidStateEvent);
        }
        if existing.len() == 6 {
            let nothing: Vec<EventEnvelope> = Vec::new();
            assert(self.log@ + nothing@ =~= self.log@);
            return match bootstrap_material_from_events(
                &self.log,
                &nothing,
                session_id,
                run_id,
                &authority,
                &existing,
                recorded,
            ) {
                Ok(material) => Ok(ParallelReconBootstrapOutcome::AlreadyPresent { material }),
                Err(error) => Err(error),
            };
        }
        match self.record_bootstrap(session_id, run_id, &authority, fresh, recorded) {
            Ok(material) => Ok(ParallelReconBootstrapOutcome::Appended { material }),
            Err(error) => Err(error),
        }
    }
}

/// Whether a bundle is a whole bootstrap of a run: two authorizations, two issuances and two starts,
/// one right after the other.
pub open spec fn whole_bootstrap(bundle: Seq<EventEnvelope>, run_id: RunId) -> bool {
    &&& crate::recon_bundle::contiguous_bundle(bundle)
    &&& crate::recon_bundle::lifecycle_kinds(bundle)
    &&& bundle[4].payload is ChildExecutionStarted
    &&& bundle[5].payload is ChildExecutionStarted
    &&& forall|i: int| 0 <= i < 6 ==> (#[trigger] bundle[i]).run_id == Some(run_id)
}

/// A bundle that is found in order is a whole bootstrap.
pub proof fn lemma_bundle_is_whole(
    history: Seq<EventEnvelope>,
    session_id: SessionId,
    run_id: RunId,
    wanted: PairIdentities,
    left_start: ChildRepositoryExplorerAttemptStartAuthority,
    right_start: ChildRepositoryExplorerAttemptStartAuthority,
    bundle: Seq<EventEnvelope>,
    derivation: BootstrapDerivation,
)
    requires
        crate::recon_bundle::bundle_verdict(
            history,
            session_id,
            run_id,
            wanted,
            left_start,
            right_start,
            bundle,
            derivation,
        ) is Ok,
    ensures
        whole_bootstrap(bundle, run_id),
{
    reveal(crate::recon_bundle::bundle_verdict);
    reveal(crate::recon_bundle::records_start);
    assert(bundle[0].run_id == bundle[1].run_id);
    assert(bundle[1].run_id == bundle[2].run_id);
    assert(bundle[2].run_id == bundle[3].run_id);
    assert(bundle[3].run_id == bundle[4].run_id);
    assert(bundle[4].run_id == bundle[5].run_id);
}

/// A bootstrap that is accepted stands for six contiguous events of its run: two authorizations,
/// two issuances and two starts, in this order.
pub proof fn law_bootstrap_is_all_or_nothing(
    store: Store,
    run_id: RunId,
    authority: ParallelReconBootstrapAuthority,
    fresh: FreshBootstrap,
    recorded: BootstrapDerivation,
)
    requires
        bootstrap_verdict(store, run_id, authority, fresh, recorded) is Ok,
    ensures
        whole_bootstrap(
            bootstrap_verdict(store, run_id, authority, fresh, recorded)->Ok_0,
            run_id,
        ),
{
    let bundle = bootstrap_verdict(store, run_id, authority, fresh, recorded)->Ok_0;
    let session_id = crate::recon_recovery::recon_session(store, run_id)->Ok_0;
    let wanted = authority.pair.identities();
    match presence(store.log@, crate::recon_bundle::bootstrap_ids(authority)) {
        Ok(Some(_)) => {
            lemma_bundle_is_whole(
                store.log@,
                session_id,
                run_id,
                wanted,
                authority.starts@[0],
                authority.starts@[1],
                bundle,
                recorded,
            );
        },
        _ => {
            reveal(fresh_bundle);
            reveal(closing_verdict);
            lemma_bundle_is_whole(
                store.log@ + bundle,
                session_id,
                run_id,
                wanted,
                authority.starts@[0],
                authority.starts@[1],
                bundle,
                recorded,
            );
        },
    }
}

/// A start lies within its claim: on the runtime that holds it, after the claim and after the snapshot
/// was leased, no later than now or than the deadline, and before the claim expires.
pub proof fn law_starts_lie_within_the_claim(
    start: ChildRepositoryExplorerAttemptStartAuthority,
    claim_event: EventEnvelope,
    claim: RunClaimed,
    snapshot_event: EventEnvelope,
    deadline: Timestamp,
    checked_at: Timestamp,
)
    ensures
        clock_in_bounds(start, claim_event, claim, snapshot_event, deadline, checked_at) <==> {
            &&& start.started_at.runtime_instance_id == claim.runtime_instance_id
            &&& start.started_at.monotonic_nanos > 0
            &&& !start.started_at.observed_at.before(claim_event.occurred_at)
            &&& !start.started_at.observed_at.before(snapshot_event.occurred_at)
            &&& !checked_at.before(start.started_at.observed_at)
            &&& !deadline.before(start.started_at.observed_at)
            &&& start.started_at.observed_at.before(claim.lease_expires_at)
        },
{
}

/// A child is fresh where nothing was attempted yet under the claim that holds the run now, as it was
/// issued.
pub proof fn law_fresh_children_attempted_nothing(
    replay: Result<ChildReplay, StoreError>,
    child: ChildWorkOrderProjection,
    claim_event: EventEnvelope,
    claim: RunClaimed,
)
    requires
        fresh_child(replay, child, claim_event, claim) is Ok,
    ensures
        replay matches Ok(replay) && {
            &&& replay.attempts@.len() == 0
            &&& replay.active_claim.event_id == claim_event.id
            &&& replay.active_claim.claim_id == claim.claim_id
            &&& replay.active_claim.generation == claim.claim_generation
            &&& replay.active_claim.runtime_instance_id == claim.runtime_instance_id
            &&& replay.active_claim.cancellation_generation == claim.cancellation_generation
            &&& replay.active_claim.lease_expires_at == claim.lease_expires_at
            &&& replay.spec.work_order_id == child.spec.work_order_id
        },
{
}

/// A bundle is found whole or not at all: where all identities are on record it holds exactly those
/// events, where none is it is missing, and with only some of them it is refused.
pub proof fn law_presence_is_all_or_nothing(
    events: Seq<EventEnvelope>,
    ids: Seq<EventId>,
    i: int,
) -> (place: int)
    requires
        0 <= i < ids.len(),
    ensures
        presence(events, ids) matches Ok(Some(bundle)) ==> {
            &&& bundle.len() == ids.len()
            &&& bundle[i].id == ids[i]
            &&& 0 <= place < events.len()
            &&& events[place] == bundle[i]
        },
        presence(events, ids) == Ok::<Option<Seq<EventEnvelope>>, StoreError>(None) ==> (forall|
            j: int,
        |
            0 <= j < events.len() ==> (#[trigger] events[j]).id != ids[i]),
{
    reveal(presence);
    let found = identified_events(events, ids);
    assert(found[i] == anywhere(ids[i]).first_of(events));
    let ends = crate::history::law_selections_have_ends(anywhere(ids[i]), events);
    if presence(events, ids) == Ok::<Option<Seq<EventEnvelope>>, StoreError>(None) {
        assert(found[i] is None);
        assert forall|j: int| 0 <= j < events.len() implies (#[trigger] events[j]).id
            != ids[i] by {
            assert(!anywhere(ids[i]).admits(events[j]));
        }
    }
    ends.0
}

/// The run still stands while its snapshot is leased under the event that the children name, it runs,
/// nobody cancelled it, and the claim is still the latest.
pub proof fn law_standing_runs_are_leased_and_claimed(
    store: Store,
    session_id: SessionId,
    run_id: RunId,
    authority: ParallelReconBootstrapAuthority,
    claim_event: EventEnvelope,
    lifecycle: RepositorySnapshotLifecycleReplay,
)
    requires
        run_still_stands(store, session_id, run_id, authority, claim_event, lifecycle),
    ensures
        lifecycle is Active,
        store.state_record(run_id) matches Some(row) && row.state == RunState::Running,
        crate::claim_history::cancellation_generation_of(store.log@, session_id, run_id) == 0,
        crate::claim_history::latest_claim_of(store.log@, session_id, run_id) matches Some(latest)
            && latest.id == claim_event.id,
        lifecycle matches RepositorySnapshotLifecycleReplay::Active { lease_event, .. } ==> (
        lease_event.id == authority.pair.snapshot_lease_event_id),
{
    reveal(crate::claim_history::is_latest_claim);
}

/// A bootstrap is six events in a row after all others of the session: the two authorizations, the two
/// work orders and the two starts, each at its own place and time.
pub proof fn law_bundles_are_made_in_order(
    base: u64,
    authority: ParallelReconBootstrapAuthority,
    fresh: FreshBootstrap,
    i: int,
)
    requires
        0 <= i < 6,
        base + 5 <= u64::MAX,
    ensures
        made_bundle(base, authority, fresh).len() == 6,
        made_bundle(base, authority, fresh)[i].sequence == base + i,
        made_bundle(base, authority, fresh)[i].occurred_at == fresh.recorded_at@[i],
        i >= 4 ==> made_bundle(base, authority, fresh)[i].id == authority.starts@[i - 4].event_id,
        fresh.pair matches Ok(pair) ==> (i < 4 ==> {
            let event = if i == 0 {
                pair.authorize_left
            } else if i == 1 {
                pair.authorize_right
            } else if i == 2 {
                pair.issue_left
            } else {
                pair.issue_right
            };
            &&& made_bundle(base, authority, fresh)[i].id == event.event_id
            &&& made_bundle(base, authority, fresh)[i].payload == event.event.payload
            &&& made_bundle(base, authority, fresh)[i].session_id == event.event.session_id
            &&& made_bundle(base, authority, fresh)[i].run_id == event.event.run_id
            &&& made_bundle(base, authority, fresh)[i].actor_id == event.event.actor_id
            &&& made_bundle(base, authority, fresh)[i].causal_parent == event.event.causal_parent
        }),
{
    assert(i == 0 || i == 1 || i == 2 || i == 3 || i == 4 || i == 5);
}

} // verus!

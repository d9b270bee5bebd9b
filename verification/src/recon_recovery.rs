//! Finding a recorded bootstrap by the planner turn that it was accepted under.

use vstd::prelude::*;
use crate::child::ChildExecutionStarted;
use crate::error::StoreError;
use crate::event::{EventEnvelope, EventPayload};
use crate::history::{EventLog, EventQuery, EventScope, PayloadFilter};
use crate::identity::{EventId, RepositoryToolGrantId, RunId, SessionId};
use crate::recon_bundle::{BootstrapDerivation, ChildRepositoryExplorerAttemptStartAuthority, ParallelReconBootstrapAuthority, ParallelReconBootstrapRecovery, ParallelReconExactPairChildIdentityAuthority, ParallelReconExactPairIssuanceAuthority, PairIdentities, bootstrap_material_from_events, require_contiguous_bundle};
use crate::run::RunPurpose;
use crate::store::Store;

verus! {
/// The four events by which a pair was delegated under an accepted turn. There is none where the
/// turn authorized nothing; anything but one issuance under each of two authorizations is refused.
pub open spec fn committed_pair(
    events: Seq<EventEnvelope>,
    session_id: SessionId,
    run_id: RunId,
    accepted_event_id: EventId,
) -> Result<Option<Seq<EventEnvelope>>, StoreError> {
    let authorized = EventQuery::in_run(
        session_id,
        run_id,
        PayloadFilter::DelegationAuthorizedBy(accepted_event_id),
    ).rows(events);
    if authorized.len() == 0 {
        Ok(None)
    } else if authorized.len() != 2 {
        Err(StoreError::InvalidStateEvent)
    } else {
        let left = EventQuery::in_run(
            session_id,
            run_id,
            PayloadFilter::WorkOrderIssuedUnder(authorized[0].id),
        ).rows(events);
        let right = EventQuery::in_run(
            session_id,
            run_id,
            PayloadFilter::WorkOrderIssuedUnder(authorized[1].id),
        ).rows(events);
        if left.len() != 1 || right.len() != 1 {
            Err(StoreError::InvalidStateEvent)
        } else {
            Ok(Some(seq![authorized[0], authorized[1], left[0], right[0]]))
        }
    }
}

pub(crate) fn parallel_recon_exact_pair_committed_events<'a>(
    log: &'a EventLog,
    session_id: SessionId,
    run_id: RunId,
    accepted_event_id: EventId,
) -> (r: Result<Option<Vec<&'a EventEnvelope>>, StoreError>)
    ensures
        match (r, committed_pair(log@, session_id, run_id, accepted_event_id)) {
            (Ok(Some(found)), Ok(Some(pair))) => crate::recon_bundle::referenced(found@) == pair,
            (Ok(None), Ok(None)) => true,
            (Err(error), Err(expected)) => error == expected,
            _ => false,
        },
{
    let authorized = log.select(
        &EventQuery::in_run(
            session_id,
            run_id,
            PayloadFilter::DelegationAuthorizedBy(accepted_event_id),
        ),
    );
    if authorized.len() == 0 {
        return Ok(None);
    }
    if authorized.len() != 2 {
        return Err(StoreError::InvalidStateEvent);
    }
    let left = log.select(
        &EventQuery::in_run(
            session_id,
            run_id,
            PayloadFilter::WorkOrderIssuedUnder(authorized[0].id),
        ),
    );
    let right = log.select(
        &EventQuery::in_run(
            session_id,
            run_id,
            PayloadFilter::WorkOrderIssuedUnder(authorized[1].id),
        ),
    );
    if left.len() != 1 || right.len() != 1 {
        return Err(StoreError::InvalidStateEvent);
    }
    let mut found: Vec<&'a EventEnvelope> = Vec::new();
    found.push(authorized[0]);
    found.push(authorized[1]);
    found.push(left[0]);
    found.push(right[0]);
    Ok(Some(found))
}

/// The event of a run at one place of its session: the first at or after it, where it stands there.
pub open spec fn event_at(
    events: Seq<EventEnvelope>,
    session_id: SessionId,
    run_id: RunId,
    sequence: u64,
) -> Result<EventEnvelope, StoreError> {
    match EventQuery::in_run(session_id, run_id, PayloadFilter::Any).starting_at(sequence).first_of(
        events,
    ) {
        Some(event) => if event.sequence == sequence {
            Ok(event)
        } else {
            Err(StoreError::InvalidStateEvent)
        },
        None => Err(StoreError::InvalidStateEvent),
    }
}

fn load_event_at<'a>(
    log: &'a EventLog,
    session_id: SessionId,
    run_id: RunId,
    sequence: u64,
) -> (r: Result<&'a EventEnvelope, StoreError>)
    ensures
        match (r, event_at(log@, session_id, run_id, sequence)) {
            (Ok(found), Ok(event)) => *found == event,
            (Err(error), Err(expected)) => error == expected,
            _ => false,
        },
{
    match log.first(
        &EventQuery::in_run(session_id, run_id, PayloadFilter::Any).starting_at(sequence),
    ) {
        Some(event) => if event.sequence == sequence {
            Ok(event)
        } else {
            Err(StoreError::InvalidStateEvent)
        },
        None => Err(StoreError::InvalidStateEvent),
    }
}

/// The two events right after a pair.
pub open spec fn first_starts(
    events: Seq<EventEnvelope>,
    pair: Seq<EventEnvelope>,
) -> Result<(EventEnvelope, EventEnvelope), StoreError> {
    match pair[0].run_id {
        None => Err(StoreError::InvalidStateEvent),
        Some(run_id) => if pair[3].sequence + 2 > u64::MAX {
            Err(StoreError::SequenceOverflow)
        } else {
            match event_at(events, pair[0].session_id, run_id, (pair[3].sequence + 1) as u64) {
                Err(error) => Err(error),
                Ok(left) => match event_at(
                    events,
                    pair[0].session_id,
                    run_id,
                    (pair[3].sequence + 2) as u64,
                ) {
                    Err(error) => Err(error),
                    Ok(right) => Ok((left, right)),
                },
            }
        },
    }
}

fn first_bootstrap_start_events<'a>(log: &'a EventLog, pair: &Vec<&'a EventEnvelope>) -> (r: Result<
    (&'a EventEnvelope, &'a EventEnvelope),
    StoreError,
>)
    requires
        pair@.len() == 4,
    ensures
        match (r, first_starts(log@, crate::recon_bundle::referenced(pair@))) {
            (Ok((left, right)), Ok((first, second))) => *left == first && *right == second,
            (Err(error), Err(expected)) => error == expected,
            _ => false,
        },
{
    let session_id = pair[0].session_id;
    let run_id = match pair[0].run_id {
        Some(run_id) => run_id,
        None => return Err(StoreError::InvalidStateEvent),
    };
    let left_sequence: u64 = match pair[3].sequence.checked_add(1) {
        Some(sequence) => sequence,
        None => return Err(StoreError::SequenceOverflow),
    };
    let right_sequence: u64 = match left_sequence.checked_add(1) {
        Some(sequence) => sequence,
        None => return Err(StoreError::SequenceOverflow),
    };
    let left = match load_event_at(log, session_id, run_id, left_sequence) {
        Ok(event) => event,
        Err(error) => return Err(error),
    };
    let right = match load_event_at(log, session_id, run_id, right_sequence) {
        Ok(event) => event,
        Err(error) => return Err(error),
    };
    Ok((left, right))
}

/// Whether no child of a run ever began.
pub open spec fn no_child_history(events: Seq<EventEnvelope>, run_id: RunId) -> bool {
    (EventQuery {
        scope: EventScope::RunAnySession { run_id },
        id: None,
        from: None,
        until: None,
        payload: PayloadFilter::ChildLifecycle,
    }).rows(events).len() == 0
}

/// Whether no child of a run ever began.
pub fn no_parallel_recon_child_history(log: &EventLog, run_id: RunId) -> (r: bool)
    ensures
        r == no_child_history(log@, run_id),
{
    log.count(
        &EventQuery {
            scope: EventScope::RunAnySession { run_id },
            id: None,
            from: None,
            until: None,
            payload: PayloadFilter::ChildLifecycle,
        },
    ) == 0
}

/// The bundle that a run recorded under an accepted turn. There is none where no child of the run
/// ever began; a part of a bundle, or one with gaps, is refused.
pub open spec fn committed_bundle(
    events: Seq<EventEnvelope>,
    session_id: SessionId,
    run_id: RunId,
    accepted_event_id: EventId,
) -> Result<Option<Seq<EventEnvelope>>, StoreError> {
    match committed_pair(events, session_id, run_id, accepted_event_id) {
        Err(error) => Err(error),
        Ok(None) => if no_child_history(events, run_id) {
            Ok(None)
        } else {
            Err(StoreError::InvalidStateEvent)
        },
        Ok(Some(pair)) => match first_starts(events, pair) {
            Err(error) => Err(error),
            Ok((left, right)) => if crate::recon_bundle::contiguous_bundle(pair + seq![left, right]) {
                Ok(Some(pair + seq![left, right]))
            } else {
                Err(StoreError::InvalidStateEvent)
            },
        },
    }
}

fn committed_bootstrap_events<'a>(
    log: &'a EventLog,
    session_id: SessionId,
    run_id: RunId,
    accepted_event_id: EventId,
) -> (r: Result<Option<Vec<&'a EventEnvelope>>, StoreError>)
    ensures
        match (r, committed_bundle(log@, session_id, run_id, accepted_event_id)) {
            (Ok(Some(found)), Ok(Some(bundle))) => crate::recon_bundle::referenced(found@) == bundle
                && crate::recon_bundle::contiguous_bundle(bundle),
            (Ok(None), Ok(None)) => true,
            (Err(error), Err(expected)) => error == expected,
            _ => false,
        },
{
    let mut events = match parallel_recon_exact_pair_committed_events(
        log,
        session_id,
        run_id,
        accepted_event_id,
    ) {
        Ok(Some(pair)) => pair,
        Ok(None) => {
            return if no_parallel_recon_child_history(log, run_id) {
                Ok(None)
            } else {
                Err(StoreError::InvalidStateEvent)
            };
        },
        Err(error) => return Err(error),
    };
    let ghost pair = crate::recon_bundle::referenced(events@);
    assert(pair.len() == events@.len());
    match first_bootstrap_start_events(log, &events) {
        Ok((left, right)) => {
            events.push(left);
            events.push(right);
            assert(crate::recon_bundle::referenced(events@) =~= pair + seq![*left, *right]);
        },
        Err(error) => return Err(error),
    }
    match require_contiguous_bundle(&events) {
        Ok(()) => Ok(Some(events)),
        Err(error) => Err(error),
    }
}

/// The authority under which one recorded child began, as its two events name it.
pub open spec fn child_identities_of(
    authorization: EventEnvelope,
    issuance: EventEnvelope,
) -> Result<ParallelReconExactPairChildIdentityAuthority, StoreError> {
    match (authorization.payload, issuance.payload) {
        (
            EventPayload::ChildDelegationAuthorizedV2(authorized),
            EventPayload::ChildWorkOrderIssued(issued),
        ) => Ok(
            ParallelReconExactPairChildIdentityAuthority {
                authorization_event_id: authorization.id,
                authorization_id: authorized.authorization_id,
                issuance_event_id: issuance.id,
                work_order_id: issued.spec.work_order_id,
                execution_id: issued.spec.execution_id,
                child_actor_id: issued.spec.child_actor_id,
                child_event_actor_id: issued.spec.child_event_actor_id,
                context_id: issued.spec.context_id,
            },
        ),
        _ => Err(StoreError::InvalidStateEvent),
    }
}

fn child_identities_from(authorization: &EventEnvelope, issuance: &EventEnvelope) -> (r: Result<
    ParallelReconExactPairChildIdentityAuthority,
    StoreError,
>)
    ensures
        r == child_identities_of(*authorization, *issuance),
{
    match (&authorization.payload, &issuance.payload) {
        (
            EventPayload::ChildDelegationAuthorizedV2(authorized),
            EventPayload::ChildWorkOrderIssued(issued),
        ) => Ok(
            ParallelReconExactPairChildIdentityAuthority {
                authorization_event_id: authorization.id,
                authorization_id: authorized.authorization_id,
                issuance_event_id: issuance.id,
                work_order_id: issued.spec.work_order_id,
                execution_id: issued.spec.execution_id,
                child_actor_id: issued.spec.child_actor_id,
                child_event_actor_id: issued.spec.child_event_actor_id,
                context_id: issued.spec.context_id,
            },
        ),
        _ => Err(StoreError::InvalidStateEvent),
    }
}

/// The identity and the clock of a recorded start.
pub open spec fn start_identity_of(event: EventEnvelope) -> Result<
    ChildRepositoryExplorerAttemptStartAuthority,
    StoreError,
> {
    match event.payload {
        EventPayload::ChildExecutionStarted(started) => Ok(
            ChildRepositoryExplorerAttemptStartAuthority {
                event_id: event.id,
                attempt_id: started.binding.attempt_id,
                local_plan_id: started.local_plan_id,
                started_at: started.started_at,
            },
        ),
        _ => Err(StoreError::InvalidStateEvent),
    }
}

/// The identity and the clock of a recorded start.
pub fn bootstrap_start_authority(event: &EventEnvelope) -> (r: Result<
    ChildRepositoryExplorerAttemptStartAuthority,
    StoreError,
>)
    ensures
        r == start_identity_of(*event),
{
    match &event.payload {
        EventPayload::ChildExecutionStarted(started) => Ok(
            ChildRepositoryExplorerAttemptStartAuthority {
                event_id: event.id,
                attempt_id: started.binding.attempt_id,
                local_plan_id: started.local_plan_id,
                started_at: started.started_at,
            },
        ),
        _ => Err(StoreError::InvalidStateEvent),
    }
}

/// The lease and the grants that an issued work order names.
pub open spec fn shared_authority_of(issuance: EventEnvelope) -> Option<
    (EventId, RepositoryToolGrantId, RepositoryToolGrantId, RepositoryToolGrantId),
> {
    match issuance.payload {
        EventPayload::ChildWorkOrderIssued(issued) => {
            let authority = issued.spec.repository_authority;
            Some(
                (
                    authority.snapshot_lease_event_id,
                    authority.tool_grants.tree_grant_id,
                    authority.tool_grants.file_grant_id,
                    authority.tool_grants.search_grant_id,
                ),
            )
        },
        _ => None,
    }
}

fn shared_authority_from(issuance: &EventEnvelope) -> (r: Option<
    (EventId, RepositoryToolGrantId, RepositoryToolGrantId, RepositoryToolGrantId),
>)
    ensures
        r == shared_authority_of(*issuance),
{
    match &issuance.payload {
        EventPayload::ChildWorkOrderIssued(issued) => {
            let authority = &issued.spec.repository_authority;
            Some(
                (
                    authority.snapshot_lease_event_id,
                    authority.tool_grants.tree_grant_id,
                    authority.tool_grants.file_grant_id,
                    authority.tool_grants.search_grant_id,
                ),
            )
        },
        _ => None,
    }
}

/// Whether `authority` is the one under which the pair at the head of `bundle` was recorded.
pub open spec fn is_pair_authority_of(
    authority: ParallelReconExactPairIssuanceAuthority,
    accepted_event_id: EventId,
    bundle: Seq<EventEnvelope>,
) -> bool {
    &&& authority.accepted_planner_turn_event_id == accepted_event_id
    &&& child_identities_of(bundle[0], bundle[2]) == Ok::<_, StoreError>(authority.children@[0])
    &&& child_identities_of(bundle[1], bundle[3]) == Ok::<_, StoreError>(authority.children@[1])
    &&& shared_authority_of(bundle[2]) == Some(
        (
            authority.snapshot_lease_event_id,
            authority.repository_tool_grant_ids@[0],
            authority.repository_tool_grant_ids@[1],
            authority.repository_tool_grant_ids@[2],
        ),
    )
    &&& shared_authority_of(bundle[3]) == shared_authority_of(bundle[2])
}

/// Whether the pair at the head of `bundle` names an authority at all.
pub open spec fn names_pair_authority(bundle: Seq<EventEnvelope>) -> bool {
    &&& child_identities_of(bundle[0], bundle[2]) is Ok
    &&& child_identities_of(bundle[1], bundle[3]) is Ok
    &&& shared_authority_of(bundle[3]) == shared_authority_of(bundle[2])
}

/// The identities that the pair at the head of `bundle` names, one by one.
pub open spec fn named_identities(
    accepted_event_id: EventId,
    bundle: Seq<EventEnvelope>,
) -> PairIdentities {
    let shared = shared_authority_of(bundle[2])->0;
    PairIdentities {
        accepted_planner_turn_event_id: accepted_event_id,
        snapshot_lease_event_id: shared.0,
        left: child_identities_of(bundle[0], bundle[2])->Ok_0,
        right: child_identities_of(bundle[1], bundle[3])->Ok_0,
        tree_grant_id: shared.1,
        file_grant_id: shared.2,
        search_grant_id: shared.3,
    }
}

/// The authority under which a pair was recorded, as its four events name it.
pub fn parallel_recon_exact_pair_authority_from_committed(
    accepted_event_id: EventId,
    events: &Vec<&EventEnvelope>,
) -> (r: Result<ParallelReconExactPairIssuanceAuthority, StoreError>)
    requires
        events@.len() >= 4,
    ensures
        match r {
            Ok(authority) => names_pair_authority(crate::recon_bundle::referenced(events@))
                && is_pair_authority_of(
                authority,
                accepted_event_id,
                crate::recon_bundle::referenced(events@),
            ),
            Err(error) => !names_pair_authority(crate::recon_bundle::referenced(events@)) && error
                == StoreError::InvalidStateEvent,
        },
{
    let ghost bundle = crate::recon_bundle::referenced(events@);
    assert(forall|i: int| 0 <= i < 4 ==> *#[trigger] events@[i] == bundle[i]);
    let left = match child_identities_from(events[0], events[2]) {
        Ok(left) => left,
        Err(error) => return Err(error),
    };
    let right = match child_identities_from(events[1], events[3]) {
        Ok(right) => right,
        Err(error) => return Err(error),
    };
    let shared = shared_authority_from(events[2]);
    let other = shared_authority_from(events[3]);
    let (lease, tree, file, search) = match (shared, other) {
        (Some(shared), Some(other)) => {
            if shared.0 != other.0 || shared.1 != other.1 || shared.2 != other.2 || shared.3
                != other.3 {
                return Err(StoreError::InvalidStateEvent);
            }
            shared
        },
        _ => return Err(StoreError::InvalidStateEvent),
    };
    Ok(
        ParallelReconExactPairIssuanceAuthority {
            accepted_planner_turn_event_id: accepted_event_id,
            snapshot_lease_event_id: lease,
            children: [left, right],
            repository_tool_grant_ids: [tree, file, search],
        },
    )
}

/// Whether `authority` is the one under which a bundle was recorded.
pub open spec fn is_authority_of(
    authority: ParallelReconBootstrapAuthority,
    accepted_event_id: EventId,
    bundle: Seq<EventEnvelope>,
) -> bool {
    &&& is_pair_authority_of(authority.pair, accepted_event_id, bundle)
    &&& start_identity_of(bundle[4]) == Ok::<_, StoreError>(authority.starts@[0])
    &&& start_identity_of(bundle[5]) == Ok::<_, StoreError>(authority.starts@[1])
}

/// Whether a bundle names an authority at all.
pub open spec fn names_authority(bundle: Seq<EventEnvelope>) -> bool {
    &&& names_pair_authority(bundle)
    &&& start_identity_of(bundle[4]) is Ok
    &&& start_identity_of(bundle[5]) is Ok
}

/// The authority under which a bundle was recorded, as its events name it.
fn authority_from_committed(accepted_event_id: EventId, events: &Vec<&EventEnvelope>) -> (r: Result<
    ParallelReconBootstrapAuthority,
    StoreError,
>)
    requires
        events@.len() == 6,
    ensures
        match r {
            Ok(authority) => names_authority(crate::recon_bundle::referenced(events@)) && is_authority_of(
                authority,
                accepted_event_id,
                crate::recon_bundle::referenced(events@),
            ),
            Err(error) => !names_authority(crate::recon_bundle::referenced(events@)) && error
                == StoreError::InvalidStateEvent,
        },
{
    let ghost bundle = crate::recon_bundle::referenced(events@);
    assert(forall|i: int| 0 <= i < 6 ==> *#[trigger] events@[i] == bundle[i]);
    let pair = match parallel_recon_exact_pair_authority_from_committed(
        accepted_event_id,
        events,
    ) {
        Ok(pair) => pair,
        Err(error) => return Err(error),
    };
    let first = match bootstrap_start_authority(events[4]) {
        Ok(first) => first,
        Err(error) => return Err(error),
    };
    let second = match bootstrap_start_authority(events[5]) {
        Ok(second) => second,
        Err(error) => return Err(error),
    };
    Ok(ParallelReconBootstrapAuthority { pair, starts: [first, second] })
}

/// What a recorded bundle amounts to, under the authority that it names itself.
pub open spec fn recovery_verdict(
    history: Seq<EventEnvelope>,
    session_id: SessionId,
    run_id: RunId,
    accepted_event_id: EventId,
    bundle: Seq<EventEnvelope>,
    derivation: BootstrapDerivation,
) -> Result<(), StoreError> {
    match (start_identity_of(bundle[4]), start_identity_of(bundle[5])) {
        (Ok(left_start), Ok(right_start)) => if names_authority(bundle) {
            crate::recon_bundle::bundle_verdict(
                history,
                session_id,
                run_id,
                named_identities(accepted_event_id, bundle),
                left_start,
                right_start,
                bundle,
                derivation,
            )
        } else {
            Err(StoreError::InvalidStateEvent)
        },
        _ => Err(StoreError::InvalidStateEvent),
    }
}

/// The session of a reconnaissance run; any other run is refused.
pub open spec fn recon_session(store: Store, run_id: RunId) -> Result<SessionId, StoreError> {
    match store.run_record(run_id) {
        Some(run) => if run.id == run_id && run.spec.purpose
            == RunPurpose::ParallelRepositoryReconnaissanceV1 {
            Ok(run.spec.session_id)
        } else {
            Err(StoreError::InvalidStateEvent)
        },
        None => Err(StoreError::InvalidStateEvent),
    }
}

/// The bundle that recovery finds, if there is one, and what it refuses.
pub open spec fn recovered_bundle(
    store: Store,
    run_id: RunId,
    accepted_event_id: EventId,
    derivation: BootstrapDerivation,
) -> Result<Option<Seq<EventEnvelope>>, StoreError> {
    match recon_session(store, run_id) {
        Err(error) => Err(error),
        Ok(session_id) => match committed_bundle(
            store.log@,
            session_id,
            run_id,
            accepted_event_id,
        ) {
            Err(error) => Err(error),
            Ok(None) => Ok(None),
            Ok(Some(bundle)) => match recovery_verdict(
                store.log@,
                session_id,
                run_id,
                accepted_event_id,
                bundle,
                derivation,
            ) {
                Err(error) => Err(error),
                Ok(()) => Ok(Some(bundle)),
            },
        },
    }
}

impl Store {
    pub(crate) fn recon_session_of(&self, run_id: RunId) -> (r: Result<SessionId, StoreError>)
        ensures
            r == recon_session(*self, run_id),
    {
        let run = match self.durable_run(run_id) {
            Ok(run) => run,
            Err(error) => return Err(error),
        };
        if run.id != run_id || run.spec.purpose != RunPurpose::ParallelRepositoryReconnaissanceV1 {
            return Err(StoreError::InvalidStateEvent);
        }
        Ok(run.spec.session_id)
    }

    /// Finds a recorded bootstrap by the planner turn that it was accepted under. There is none
    /// where no child of the run ever began; a part of one is refused. `derivation` is what replay
    /// makes of the recorded bundle.
    pub fn recover_parallel_recon_bootstrap(
        &self,
        run_id: RunId,
        accepted_planner_turn_event_id: EventId,
        derivation: BootstrapDerivation,
    ) -> (r: Result<Option<ParallelReconBootstrapRecovery>, StoreError>)
        ensures
            match (
                r,
                recovered_bundle(*self, run_id, accepted_planner_turn_event_id, derivation),
            ) {
                (Ok(Some(material)), Ok(Some(bundle))) => crate::recon_bundle::material_shows(
                    material,
                    bundle,
                    derivation,
                ),
                (Ok(None), Ok(None)) => true,
                (Err(error), Err(expected)) => error == expected,
                _ => false,
            },
    {
        let session_id = match self.recon_session_of(run_id) {
            Ok(session_id) => session_id,
            Err(error) => return Err(error),
        };
        let events = match committed_bootstrap_events(
            &self.log,
            session_id,
            run_id,
            accepted_planner_turn_event_id,
        ) {
            Ok(Some(events)) => events,
            Ok(None) => return Ok(None),
            Err(error) => return Err(error),
        };
        assert(crate::recon_bundle::referenced(events@).len() == events@.len());
        let authority = match authority_from_committed(accepted_planner_turn_event_id, &events) {
            Ok(authority) => authority,
            Err(error) => return Err(error),
        };
        let nothing: Vec<EventEnvelope> = Vec::new();
        assert(self.log@ + nothing@ =~= self.log@);
        match bootstrap_material_from_events(
            &self.log,
            &nothing,
            session_id,
            run_id,
            &authority,
            &events,
            derivation,
        ) {
            Ok(material) => Ok(Some(material)),
            Err(error) => Err(error),
        }
    }
}

/// A committed pair is two authorizations by one accepted turn and, under each, exactly one work order:
/// the first order belongs to the first authorization and the second to the second.
pub proof fn law_committed_pairs_belong_together(
    events: Seq<EventEnvelope>,
    session_id: SessionId,
    run_id: RunId,
    accepted_event_id: EventId,
    bundle: Seq<EventEnvelope>,
    i: int,
)
    requires
        committed_pair(events, session_id, run_id, accepted_event_id) == Ok::<
            Option<Seq<EventEnvelope>>,
            StoreError,
        >(Some(bundle)),
        0 <= i < 4,
    ensures
        bundle.len() == 4,
        events.contains(bundle[i]),
        bundle[i].session_id == session_id,
        bundle[i].run_id == Some(run_id),
        i < 2 ==> (bundle[i].payload matches EventPayload::ChildDelegationAuthorizedV2(authorized)
            && authorized.accepted_planner_turn_event_id == accepted_event_id),
        i >= 2 ==> (bundle[i].payload matches EventPayload::ChildWorkOrderIssued(issued)
            && issued.authorization_event_id == bundle[i - 2].id),
{
    let authorizing = EventQuery::in_run(
        session_id,
        run_id,
        PayloadFilter::DelegationAuthorizedBy(accepted_event_id),
    );
    crate::history::lemma_rows_admitted(authorizing, events);
    let authorized = authorizing.rows(events);
    assert(authorizing.admits(authorized[0]) && authorizing.admits(authorized[1]));
    let left = EventQuery::in_run(
        session_id,
        run_id,
        PayloadFilter::WorkOrderIssuedUnder(authorized[0].id),
    );
    crate::history::lemma_rows_admitted(left, events);
    assert(left.admits(left.rows(events)[0]));
    let right = EventQuery::in_run(
        session_id,
        run_id,
        PayloadFilter::WorkOrderIssuedUnder(authorized[1].id),
    );
    crate::history::lemma_rows_admitted(right, events);
    assert(right.admits(right.rows(events)[0]));
}

/// Without any authorization by a turn there is no pair; a bundle is missing quietly only where the run
/// has no trace of a child at all.
pub proof fn law_runs_without_children_have_no_pair(
    events: Seq<EventEnvelope>,
    session_id: SessionId,
    run_id: RunId,
    accepted_event_id: EventId,
    j: int,
)
    ensures
        committed_bundle(events, session_id, run_id, accepted_event_id) == Ok::<
            Option<Seq<EventEnvelope>>,
            StoreError,
        >(None) && 0 <= j < events.len() && events[j].run_id == Some(run_id) ==> {
            &&& !(events[j].payload is ChildDelegationAuthorized)
            &&& !(events[j].payload is ChildDelegationAuthorizedV2)
            &&& !(events[j].payload is ChildWorkOrderIssued)
            &&& !(events[j].payload is ChildExecutionStarted)
        },
        (forall|k: int|
            0 <= k < events.len() && (#[trigger] events[k]).run_id == Some(run_id) ==> {
                &&& !(events[k].payload is ChildDelegationAuthorized)
                &&& !(events[k].payload is ChildDelegationAuthorizedV2)
                &&& !(events[k].payload is ChildWorkOrderIssued)
                &&& !(events[k].payload is ChildExecutionStarted)
            }) ==> committed_bundle(events, session_id, run_id, accepted_event_id) == Ok::<
            Option<Seq<EventEnvelope>>,
            StoreError,
        >(None),
{
    let traces = EventQuery {
        scope: EventScope::RunAnySession { run_id },
        id: None,
        from: None,
        until: None,
        payload: PayloadFilter::ChildLifecycle,
    };
    if 0 <= j < events.len() && traces.admits(events[j]) {
        crate::history::law_ends_of_a_selection(traces, events, j);
    }
    if forall|k: int|
        0 <= k < events.len() && (#[trigger] events[k]).run_id == Some(run_id) ==> {
            &&& !(events[k].payload is ChildDelegationAuthorized)
            &&& !(events[k].payload is ChildDelegationAuthorizedV2)
            &&& !(events[k].payload is ChildWorkOrderIssued)
            &&& !(events[k].payload is ChildExecutionStarted)
        } {
        assert forall|k: int| 0 <= k < events.len() implies !traces.admits(
            #[trigger] events[k],
        ) by {}
        crate::history::lemma_nothing_selected(traces, events);
        let authorizing = EventQuery::in_run(
            session_id,
            run_id,
            PayloadFilter::DelegationAuthorizedBy(accepted_event_id),
        );
        assert forall|k: int| 0 <= k < events.len() implies !authorizing.admits(
            #[trigger] events[k],
        ) by {}
        crate::history::lemma_nothing_selected(authorizing, events);
    }
}

/// An event is found at a sequence only where one of the run is recorded there.
pub proof fn law_events_are_found_at_their_sequence(
    events: Seq<EventEnvelope>,
    session_id: SessionId,
    run_id: RunId,
    sequence: u64,
)
    ensures
        event_at(events, session_id, run_id, sequence) matches Ok(event) ==> {
            &&& events.contains(event)
            &&& event.sequence == sequence
            &&& event.session_id == session_id
            &&& event.run_id == Some(run_id)
        },
{
    let query = EventQuery::in_run(session_id, run_id, PayloadFilter::Any).starting_at(sequence);
    crate::history::lemma_rows_admitted(query, events);
    if query.rows(events).len() > 0 {
        assert(query.admits(query.rows(events)[0]));
    }
}

/// The starts of a pair are the two events right after it, in the order of the pair.
pub proof fn law_starts_come_right_after_the_pair(
    events: Seq<EventEnvelope>,
    session_id: SessionId,
    run_id: RunId,
    accepted_event_id: EventId,
    bundle: Seq<EventEnvelope>,
)
    requires
        committed_bundle(events, session_id, run_id, accepted_event_id) == Ok::<
            Option<Seq<EventEnvelope>>,
            StoreError,
        >(Some(bundle)),
    ensures
        bundle.len() == 6,
        bundle[4].sequence == bundle[3].sequence + 1,
        bundle[5].sequence == bundle[3].sequence + 2,
        committed_pair(events, session_id, run_id, accepted_event_id) == Ok::<
            Option<Seq<EventEnvelope>>,
            StoreError,
        >(Some(bundle.take(4))),
{
    let pair = committed_pair(events, session_id, run_id, accepted_event_id)->Ok_0->0;
    let starts = first_starts(events, pair)->Ok_0;
    assert(pair.len() == 4);
    assert(bundle == pair + seq![starts.0, starts.1]);
    assert(bundle.take(4) =~= pair);
    law_events_are_found_at_their_sequence(
        events,
        pair[0].session_id,
        pair[0].run_id->0,
        (pair[3].sequence + 1) as u64,
    );
    law_events_are_found_at_their_sequence(
        events,
        pair[0].session_id,
        pair[0].run_id->0,
        (pair[3].sequence + 2) as u64,
    );
}

/// What a child was given is told by its two events: who authorized it, under which identities it was
/// issued; and a start tells its attempt, its plan and its clock.
pub proof fn law_children_are_named_by_their_events(
    authorization: EventEnvelope,
    issuance: EventEnvelope,
    start: EventEnvelope,
)
    ensures
        child_identities_of(authorization, issuance) is Ok <==> (
        authorization.payload is ChildDelegationAuthorizedV2
            && issuance.payload is ChildWorkOrderIssued),
        child_identities_of(authorization, issuance) matches Ok(child) ==> {
            &&& child.authorization_event_id == authorization.id
            &&& child.issuance_event_id == issuance.id
            &&& authorization.payload matches EventPayload::ChildDelegationAuthorizedV2(authorized)
                && authorized.authorization_id == child.authorization_id
            &&& issuance.payload matches EventPayload::ChildWorkOrderIssued(issued) && {
                &&& issued.spec.work_order_id == child.work_order_id
                &&& issued.spec.execution_id == child.execution_id
                &&& issued.spec.child_actor_id == child.child_actor_id
                &&& issued.spec.child_event_actor_id == child.child_event_actor_id
                &&& issued.spec.context_id == child.context_id
            }
        },
        start_identity_of(start) is Ok <==> start.payload is ChildExecutionStarted,
        start_identity_of(start) matches Ok(named) ==> {
            &&& named.event_id == start.id
            &&& start.payload matches EventPayload::ChildExecutionStarted(started) && {
                &&& started.binding.attempt_id == named.attempt_id
                &&& started.local_plan_id == named.local_plan_id
                &&& started.started_at == named.started_at
            }
        },
{
}

/// Only a reconnaissance run is recovered, in its own session.
pub proof fn law_only_reconnaissance_is_recovered(store: Store, run_id: RunId)
    ensures
        recon_session(store, run_id) matches Ok(session_id) ==> (
        store.run_record(run_id) matches Some(run) && run.id == run_id && run.spec.session_id
            == session_id && run.spec.purpose == RunPurpose::ParallelRepositoryReconnaissanceV1),
        store.run_record(run_id) matches Some(run) ==> (run.id == run_id && run.spec.purpose
            == RunPurpose::ParallelRepositoryReconnaissanceV1 ==> recon_session(store, run_id)
            == Ok::<SessionId, StoreError>(run.spec.session_id)),
        store.run_record(run_id) is None ==> recon_session(store, run_id) is Err,
{
}

} // verus!

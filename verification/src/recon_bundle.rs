//! What a recorded bootstrap of two children looks like, and how it is read back.

use vstd::prelude::*;
use crate::artifact::{ArtifactRef, Provenance};
use crate::child::ChildExecutionStarted;
use crate::child_replay::{ChildReplay, ChildWorkOrderProjection};
use crate::clock::{RuntimeClockReading, Timestamp};
use crate::error::StoreError;
use crate::event::{EventEnvelope, EventPayload, IdentifiedNewEvent, NewEvent};
use crate::history::{EventLog, EventQuery, PayloadFilter};
use crate::identity::{ActorId, ChildActorId, ChildAttemptId, ChildContextId, ChildDelegationAuthorizationId, ChildExecutionId, ChildLocalPlanId, ChildWorkOrderId, EventId, RepositoryToolGrantId, RunId, SessionId};
use crate::lifecycle::RepositorySnapshotLifecycleReplay;
use crate::run::RunClaimed;
use crate::text::Same;

verus! {


/// Fresh identities for one of the two children.
#[derive(Clone, Copy, Debug, PartialEq, Eq, Structural)]
pub struct ParallelReconExactPairChildIdentityAuthority {
    pub authorization_event_id: EventId,
    pub authorization_id: ChildDelegationAuthorizationId,
    pub issuance_event_id: EventId,
    pub work_order_id: ChildWorkOrderId,
    pub execution_id: ChildExecutionId,
    pub child_actor_id: ChildActorId,
    pub child_event_actor_id: ActorId,
    pub context_id: ChildContextId,
}

/// The identities under which the pair is delegated. The grants are those for the repository tree,
/// for reading files and for literal search; both children share them.
#[derive(Clone, Copy, Debug)]
pub struct ParallelReconExactPairIssuanceAuthority {
    pub accepted_planner_turn_event_id: EventId,
    pub snapshot_lease_event_id: EventId,
    pub children: [ParallelReconExactPairChildIdentityAuthority; 2],
    pub repository_tool_grant_ids: [RepositoryToolGrantId; 3],
}

/// The identities under which a pair is delegated, one by one.
#[derive(Clone, Copy, Debug, PartialEq, Eq, Structural)]
pub struct PairIdentities {
    pub accepted_planner_turn_event_id: EventId,
    pub snapshot_lease_event_id: EventId,
    pub left: ParallelReconExactPairChildIdentityAuthority,
    pub right: ParallelReconExactPairChildIdentityAuthority,
    pub tree_grant_id: RepositoryToolGrantId,
    pub file_grant_id: RepositoryToolGrantId,
    pub search_grant_id: RepositoryToolGrantId,
}

impl ParallelReconExactPairIssuanceAuthority {
    /// The identities, one by one.
    #[verifier::allow_in_spec]
    pub fn identities(&self) -> PairIdentities
        returns
            (PairIdentities {
                accepted_planner_turn_event_id: self.accepted_planner_turn_event_id,
                snapshot_lease_event_id: self.snapshot_lease_event_id,
                left: self.children@[0],
                right: self.children@[1],
                tree_grant_id: self.repository_tool_grant_ids@[0],
                file_grant_id: self.repository_tool_grant_ids@[1],
                search_grant_id: self.repository_tool_grant_ids@[2],
            }),
    {
        PairIdentities {
            accepted_planner_turn_event_id: self.accepted_planner_turn_event_id,
            snapshot_lease_event_id: self.snapshot_lease_event_id,
            left: self.children[0],
            right: self.children[1],
            tree_grant_id: self.repository_tool_grant_ids[0],
            file_grant_id: self.repository_tool_grant_ids[1],
            search_grant_id: self.repository_tool_grant_ids[2],
        }
    }
}

/// The identity and the clock under which one first attempt starts.
#[derive(Clone, Copy, Debug, PartialEq, Eq, Structural)]
pub struct ChildRepositoryExplorerAttemptStartAuthority {
    pub event_id: EventId,
    pub attempt_id: ChildAttemptId,
    pub local_plan_id: ChildLocalPlanId,
    pub started_at: RuntimeClockReading,
}

/// The identities and clocks of one bootstrap. Everything else is derived.
#[derive(Clone, Copy, Debug)]
pub struct ParallelReconBootstrapAuthority {
    pub pair: ParallelReconExactPairIssuanceAuthority,
    pub starts: [ChildRepositoryExplorerAttemptStartAuthority; 2],
}

/// One child of a recorded bootstrap.
#[derive(Debug)]
pub struct ParallelReconBootstrappedChild {
    pub authorization_event: EventEnvelope,
    pub issuance_event: EventEnvelope,
    pub started_event: EventEnvelope,
    pub projection: Box<ChildWorkOrderProjection>,
}

/// A recorded bootstrap and where its children stand now. It shows persistence and grants nothing.
#[derive(Debug)]
pub struct ParallelReconBootstrapMaterial {
    pub policy_artifact: ArtifactRef,
    pub children: Box<[ParallelReconBootstrappedChild; 2]>,
}

/// A recorded bootstrap as a restart finds it.
pub type ParallelReconBootstrapRecovery = ParallelReconBootstrapMaterial;

/// What a bootstrap comes to.
#[derive(Debug)]
pub enum ParallelReconBootstrapOutcome {
    Appended { material: ParallelReconBootstrapMaterial },
    AlreadyPresent { material: ParallelReconBootstrapMaterial },
}

/// What the accepted planner turn, the active snapshot and the active claim make of the pair: the
/// four events of its delegation, and the bounds that they have to stay within.
#[derive(Debug)]
pub struct ParallelReconExactPairMaterial {
    pub session_id: SessionId,
    pub claim_event: EventEnvelope,
    pub claim: RunClaimed,
    pub deadline: Timestamp,
    pub policy_artifact: ArtifactRef,
    pub authorize_left: IdentifiedNewEvent,
    pub authorize_right: IdentifiedNewEvent,
    pub issue_left: IdentifiedNewEvent,
    pub issue_right: IdentifiedNewEvent,
}

/// The start of a first attempt, before it is given its identity, its sequence and its time.
#[derive(Debug)]
pub struct ChildAttemptStart {
    pub session_id: SessionId,
    pub run_id: Option<RunId>,
    pub actor_id: ActorId,
    pub causal_parent: Option<EventId>,
    pub provenance: Provenance,
    pub started: ChildExecutionStarted,
}

/// What replay makes of a bootstrap once its events stand: the pair as derived from what precedes
/// it, where its two children stand, their replayed histories and the starts that these ask for.
#[derive(Debug)]
pub struct BootstrapDerivation {
    pub pair: Result<ParallelReconExactPairMaterial, StoreError>,
    pub children: Result<(ChildWorkOrderProjection, ChildWorkOrderProjection), StoreError>,
    pub left_replay: Result<ChildReplay, StoreError>,
    pub right_replay: Result<ChildReplay, StoreError>,
    pub left_start: Result<ChildAttemptStart, StoreError>,
    pub right_start: Result<ChildAttemptStart, StoreError>,
}

/// What one attempt to record a bootstrap meets on its way.
#[derive(Debug)]
pub struct FreshBootstrap {
    /// The pair, derived from the present history.
    pub pair: Result<ParallelReconExactPairMaterial, StoreError>,
    /// When the clocks of the starts were checked.
    pub checked_at: Timestamp,
    /// When each of the six events was recorded.
    pub recorded_at: [Timestamp; 6],
    /// Whether each of the six events was admitted, after those before it.
    pub admissions: [Result<(), StoreError>; 6],
    /// Where the two children stand once they are issued.
    pub children: Result<(ChildWorkOrderProjection, ChildWorkOrderProjection), StoreError>,
    pub left_replay: Result<ChildReplay, StoreError>,
    pub left_start: Result<ChildAttemptStart, StoreError>,
    pub right_replay: Result<ChildReplay, StoreError>,
    pub right_start: Result<ChildAttemptStart, StoreError>,
    /// Whether the claim still held, before and after the six events were read back.
    pub guards: [Result<(), StoreError>; 2],
    pub lifecycle: Result<RepositorySnapshotLifecycleReplay, StoreError>,
}

/// The six event identities of a bootstrap, in the order in which they are recorded.
pub open spec fn bootstrap_ids(authority: ParallelReconBootstrapAuthority) -> Seq<EventId> {
    seq![
        authority.pair.children@[0].authorization_event_id,
        authority.pair.children@[1].authorization_event_id,
        authority.pair.children@[0].issuance_event_id,
        authority.pair.children@[1].issuance_event_id,
        authority.starts@[0].event_id,
        authority.starts@[1].event_id,
    ]
}

/// The six event identities of a bootstrap, in the order in which they are recorded.
pub fn bootstrap_event_ids(authority: &ParallelReconBootstrapAuthority) -> (r: [EventId; 6])
    ensures
        r@ == bootstrap_ids(*authority),
{
    let ids: [EventId; 6] = [
        authority.pair.children[0].authorization_event_id,
        authority.pair.children[1].authorization_event_id,
        authority.pair.children[0].issuance_event_id,
        authority.pair.children[1].issuance_event_id,
        authority.starts[0].event_id,
        authority.starts[1].event_id,
    ];
    assert(ids@ =~= bootstrap_ids(*authority));
    ids
}

/// Whether all identities of one child are named.
#[verifier::allow_in_spec]
pub fn child_identities_named(child: &ParallelReconExactPairChildIdentityAuthority) -> bool
    returns
        child.authorization_event_id.0 != 0 && child.authorization_id.0 != 0
            && child.issuance_event_id.0 != 0 && child.work_order_id.0 != 0 && child.execution_id.0
            != 0 && child.child_actor_id.0 != 0 && child.child_event_actor_id.0 != 0
            && child.context_id.0 != 0,
{
    child.authorization_event_id.0 != 0 && child.authorization_id.0 != 0
        && child.issuance_event_id.0 != 0 && child.work_order_id.0 != 0 && child.execution_id.0
        != 0 && child.child_actor_id.0 != 0 && child.child_event_actor_id.0 != 0
        && child.context_id.0 != 0
}

/// Whether the identities of a bootstrap can be used together: the six events, the two attempts
/// and the two local plans are distinct, and nothing is nil.
pub open spec fn identity_budget(authority: ParallelReconBootstrapAuthority) -> bool {
    &&& bootstrap_ids(authority).no_duplicates()
    &&& forall|i: int| 0 <= i < 6 ==> (#[trigger] bootstrap_ids(authority)[i]).0 != 0
    &&& child_identities_named(&authority.pair.children@[0])
    &&& child_identities_named(&authority.pair.children@[1])
    &&& forall|i: int| 0 <= i < 3 ==> (#[trigger] authority.pair.repository_tool_grant_ids@[i]).0
        != 0
    &&& authority.starts@[0].attempt_id != authority.starts@[1].attempt_id
    &&& authority.starts@[0].attempt_id.0 != 0
    &&& authority.starts@[1].attempt_id.0 != 0
    &&& authority.starts@[0].local_plan_id != authority.starts@[1].local_plan_id
    &&& authority.starts@[0].local_plan_id.0 != 0
    &&& authority.starts@[1].local_plan_id.0 != 0
}

/// Refuses identities that cannot be used together.
pub fn validate_bootstrap_identity_budget(authority: &ParallelReconBootstrapAuthority) -> (r: Result<
    (),
    StoreError,
>)
    ensures
        r == crate::error::demand(identity_budget(*authority)),
{
    let ids = bootstrap_event_ids(authority);
    let mut i: usize = 0;
    while i < 6
        invariant
            i <= 6,
            ids@ == bootstrap_ids(*authority),
            forall|k: int| 0 <= k < i ==> (#[trigger] ids@[k]).0 != 0,
            forall|a: int, b: int| 0 <= a < b < i ==> #[trigger] ids@[a] != #[trigger] ids@[b],
        decreases 6 - i,
    {
        if ids[i].0 == 0 {
            assert(bootstrap_ids(*authority)[i as int].0 == 0);
            return Err(StoreError::InvalidStateEvent);
        }
        let mut j: usize = 0;
        while j < i
            invariant
                j <= i < 6,
                ids@ == bootstrap_ids(*authority),
                forall|k: int| 0 <= k < j ==> #[trigger] ids@[k] != ids@[i as int],
            decreases i - j,
        {
            if ids[j] == ids[i] {
                assert(bootstrap_ids(*authority)[j as int] == bootstrap_ids(*authority)[i as int]);
                return Err(StoreError::InvalidStateEvent);
            }
            j += 1;
        }
        i += 1;
    }
    assert(bootstrap_ids(*authority).no_duplicates()) by {
        assert forall|a: int, b: int| 0 <= a < 6 && 0 <= b < 6 && a != b implies bootstrap_ids(
            *authority,
        )[a] != bootstrap_ids(*authority)[b] by {
            if a < b {
                assert(ids@[a] != ids@[b]);
            } else {
                assert(ids@[b] != ids@[a]);
            }
        }
    }
    let grants = &authority.pair.repository_tool_grant_ids;
    let left = &authority.starts[0];
    let right = &authority.starts[1];
    if !child_identities_named(&authority.pair.children[0]) || !child_identities_named(
        &authority.pair.children[1],
    ) || left.attempt_id == right.attempt_id || left.attempt_id.0 == 0 || right.attempt_id.0 == 0
        || left.local_plan_id == right.local_plan_id || left.local_plan_id.0 == 0
        || right.local_plan_id.0 == 0 {
        return Err(StoreError::InvalidStateEvent);
    }
    if grants[0].0 == 0 || grants[1].0 == 0 || grants[2].0 == 0 {
        assert(authority.pair.repository_tool_grant_ids@[0].0 == 0
            || authority.pair.repository_tool_grant_ids@[1].0 == 0
            || authority.pair.repository_tool_grant_ids@[2].0 == 0);
        return Err(StoreError::InvalidStateEvent);
    }
    Ok(())
}

/// Whether `events` are six events of one run and session, one right after the other.
pub open spec fn contiguous_bundle(events: Seq<EventEnvelope>) -> bool {
    &&& events.len() == 6
    &&& forall|i: int|
        0 <= i < 5 ==> {
            let next = events[i + 1];
            &&& (#[trigger] events[i]).sequence + 1 == next.sequence
            &&& events[i].session_id == next.session_id
            &&& events[i].run_id == next.run_id
        }
}

/// The events that references lead to.
pub open spec fn referenced(events: Seq<&EventEnvelope>) -> Seq<EventEnvelope> {
    Seq::new(events.len(), |i: int| *events[i])
}

/// Refuses events that are no contiguous bundle.
pub fn require_contiguous_bundle(events: &Vec<&EventEnvelope>) -> (r: Result<(), StoreError>)
    ensures
        r == crate::error::demand(contiguous_bundle(referenced(events@))),
{
    if events.len() != 6 {
        return Err(StoreError::InvalidStateEvent);
    }
    let ghost bundle = referenced(events@);
    let mut i: usize = 0;
    while i < 5
        invariant
            i <= 5,
            events@.len() == 6,
            bundle == referenced(events@),
            forall|k: int|
                0 <= k < i ==> {
                    let next = bundle[k + 1];
                    &&& (#[trigger] bundle[k]).sequence + 1 == next.sequence
                    &&& bundle[k].session_id == next.session_id
                    &&& bundle[k].run_id == next.run_id
                },
        decreases 5 - i,
    {
        let first = events[i];
        let second = events[i + 1];
        assert(*first == bundle[i as int] && *second == bundle[i + 1]);
        if first.sequence.checked_add(1) != Some(second.sequence) || first.session_id
            != second.session_id || first.run_id != second.run_id {
            return Err(StoreError::InvalidStateEvent);
        }
        i += 1;
    }
    Ok(())
}

/// Whether `envelope` records exactly `event`.
#[verifier::opaque]
pub open spec fn records(envelope: EventEnvelope, event: NewEvent) -> bool {
    &&& envelope.session_id == event.session_id
    &&& envelope.run_id == event.run_id
    &&& envelope.actor_id == event.actor_id
    &&& envelope.causal_parent == event.causal_parent
    &&& envelope.provenance.same(&event.provenance)
    &&& envelope.payload.same(&event.payload)
}

pub(crate) fn envelope_records(envelope: &EventEnvelope, event: &NewEvent) -> (r: bool)
    ensures
        r == records(*envelope, *event),
{
    proof {
        reveal(records);
    }
    envelope.session_id == event.session_id && envelope.run_id == event.run_id && envelope.actor_id
        == event.actor_id && envelope.causal_parent == event.causal_parent && envelope.provenance
        == event.provenance && envelope.payload == event.payload
}

/// Whether an event was recorded within the deadline and the lease of the pair.
pub open spec fn in_time(event: EventEnvelope, material: ParallelReconExactPairMaterial) -> bool {
    &&& event.occurred_at.not_after(material.deadline)
    &&& event.occurred_at.before(material.claim.lease_expires_at)
}

/// Whether one of the four events of the pair was recorded as derived, in time.
pub open spec fn pair_event_stands(
    event: EventEnvelope,
    expected: IdentifiedNewEvent,
    material: ParallelReconExactPairMaterial,
) -> bool {
    &&& event.id == expected.event_id
    &&& records(event, expected.event)
    &&& in_time(event, material)
}

fn pair_event_stands_exec(
    event: &EventEnvelope,
    expected: &IdentifiedNewEvent,
    material: &ParallelReconExactPairMaterial,
) -> (r: bool)
    ensures
        r == pair_event_stands(*event, *expected, *material),
{
    event.id == expected.event_id && envelope_records(event, &expected.event)
        && event.occurred_at.not_after(material.deadline) && event.occurred_at.before(
        material.claim.lease_expires_at,
    )
}

/// Whether an event is the authorization that a child of a pair asks for.
pub open spec fn is_authorization_for(
    payload: EventPayload,
    wanted: PairIdentities,
    child: ParallelReconExactPairChildIdentityAuthority,
) -> bool {
    payload matches EventPayload::ChildDelegationAuthorizedV2(authorized)
        && authorized.accepted_planner_turn_event_id == wanted.accepted_planner_turn_event_id
        && authorized.authorization_id == child.authorization_id
}

/// Whether an event is the issuance that a child of a pair asks for.
pub open spec fn is_issuance_for(
    payload: EventPayload,
    wanted: PairIdentities,
    child: ParallelReconExactPairChildIdentityAuthority,
) -> bool {
    payload matches EventPayload::ChildWorkOrderIssued(issued) && {
        let given = issued.spec.repository_authority;
        &&& issued.authorization_event_id == child.authorization_event_id
        &&& issued.spec.work_order_id == child.work_order_id
        &&& issued.spec.execution_id == child.execution_id
        &&& issued.spec.child_actor_id == child.child_actor_id
        &&& issued.spec.child_event_actor_id == child.child_event_actor_id
        &&& issued.spec.context_id == child.context_id
        &&& given.snapshot_lease_event_id == wanted.snapshot_lease_event_id
        &&& given.tool_grants.tree_grant_id == wanted.tree_grant_id
        &&& given.tool_grants.file_grant_id == wanted.file_grant_id
        &&& given.tool_grants.search_grant_id == wanted.search_grant_id
    }
}

/// Whether the two derived events of a child are those that the child of a pair asks for, in the run.
pub open spec fn child_fits(
    authorize: IdentifiedNewEvent,
    issue: IdentifiedNewEvent,
    session_id: SessionId,
    run_id: RunId,
    wanted: PairIdentities,
    child: ParallelReconExactPairChildIdentityAuthority,
) -> bool {
    &&& authorize.event_id == child.authorization_event_id
    &&& authorize.event.session_id == session_id
    &&& authorize.event.run_id == Some(run_id)
    &&& is_authorization_for(authorize.event.payload, wanted, child)
    &&& issue.event_id == child.issuance_event_id
    &&& issue.event.session_id == session_id
    &&& issue.event.run_id == Some(run_id)
    &&& is_issuance_for(issue.event.payload, wanted, child)
}

fn does_child_fit(
    authorize: &IdentifiedNewEvent,
    issue: &IdentifiedNewEvent,
    session_id: SessionId,
    run_id: RunId,
    wanted: &PairIdentities,
    child: &ParallelReconExactPairChildIdentityAuthority,
) -> (r: bool)
    ensures
        r == child_fits(*authorize, *issue, session_id, run_id, *wanted, *child),
{
    let authorizes = match &authorize.event.payload {
        EventPayload::ChildDelegationAuthorizedV2(authorized) =>
            authorized.accepted_planner_turn_event_id == wanted.accepted_planner_turn_event_id
                && authorized.authorization_id == child.authorization_id,
        _ => false,
    };
    let issues = match &issue.event.payload {
        EventPayload::ChildWorkOrderIssued(issued) => {
            let given = &issued.spec.repository_authority;
            issued.authorization_event_id == child.authorization_event_id
                && issued.spec.work_order_id == child.work_order_id && issued.spec.execution_id
                == child.execution_id && issued.spec.child_actor_id == child.child_actor_id
                && issued.spec.child_event_actor_id == child.child_event_actor_id
                && issued.spec.context_id == child.context_id && given.snapshot_lease_event_id
                == wanted.snapshot_lease_event_id && given.tool_grants.tree_grant_id
                == wanted.tree_grant_id && given.tool_grants.file_grant_id == wanted.file_grant_id
                && given.tool_grants.search_grant_id == wanted.search_grant_id
        },
        _ => false,
    };
    authorize.event_id == child.authorization_event_id && authorize.event.session_id == session_id
        && authorize.event.run_id == Some(run_id) && authorizes && issue.event_id
        == child.issuance_event_id && issue.event.session_id == session_id && issue.event.run_id
        == Some(run_id) && issues
}

/// Whether a pair was derived for these identities in this run.
#[verifier::opaque]
pub open spec fn pair_fits(
    pair: ParallelReconExactPairMaterial,
    session_id: SessionId,
    run_id: RunId,
    wanted: PairIdentities,
) -> bool {
    &&& pair.session_id == session_id
    &&& child_fits(
        pair.authorize_left,
        pair.issue_left,
        session_id,
        run_id,
        wanted,
        wanted.left,
    )
    &&& child_fits(
        pair.authorize_right,
        pair.issue_right,
        session_id,
        run_id,
        wanted,
        wanted.right,
    )
}

pub(crate) fn does_pair_fit(
    pair: &ParallelReconExactPairMaterial,
    session_id: SessionId,
    run_id: RunId,
    wanted: &PairIdentities,
) -> (r: bool)
    ensures
        r == pair_fits(*pair, session_id, run_id, *wanted),
{
    proof {
        reveal(pair_fits);
    }
    pair.session_id == session_id && does_child_fit(
        &pair.authorize_left,
        &pair.issue_left,
        session_id,
        run_id,
        wanted,
        &wanted.left,
    ) && does_child_fit(
        &pair.authorize_right,
        &pair.issue_right,
        session_id,
        run_id,
        wanted,
        &wanted.right,
    )
}

/// Whether a start was made for the identities and the clock of an authority.
pub open spec fn start_fits(
    start: ChildAttemptStart,
    authority: ChildRepositoryExplorerAttemptStartAuthority,
) -> bool {
    &&& start.started.binding.attempt_id == authority.attempt_id
    &&& start.started.local_plan_id == authority.local_plan_id
    &&& start.started.started_at == authority.started_at
}

/// Whether the history holds exactly one pair: two authorizations, both for the accepted turn, and
/// two issuances.
pub open spec fn exactly_one_pair(
    events: Seq<EventEnvelope>,
    session_id: SessionId,
    run_id: RunId,
    accepted_event_id: EventId,
) -> bool {
    &&& EventQuery::in_run(session_id, run_id, PayloadFilter::DelegationAuthorizedV2).rows(
        events,
    ).len() == 2
    &&& EventQuery::in_run(
        session_id,
        run_id,
        PayloadFilter::DelegationAuthorizedBy(accepted_event_id),
    ).rows(events).len() == 2
    &&& EventQuery::in_run(session_id, run_id, PayloadFilter::WorkOrderIssued).rows(events).len()
        == 2
}

/// Whether the history holds nothing of a pair.
pub open spec fn no_pair_yet(
    events: Seq<EventEnvelope>,
    session_id: SessionId,
    run_id: RunId,
    accepted_event_id: EventId,
) -> bool {
    &&& EventQuery::in_run(session_id, run_id, PayloadFilter::DelegationAuthorizedV2).rows(
        events,
    ).len() == 0
    &&& EventQuery::in_run(
        session_id,
        run_id,
        PayloadFilter::DelegationAuthorizedBy(accepted_event_id),
    ).rows(events).len() == 0
    &&& EventQuery::in_run(session_id, run_id, PayloadFilter::WorkOrderIssued).rows(events).len()
        == 0
}

/// Selecting from a history and then from what follows it.
pub proof fn lemma_rows_of_joined(
    query: EventQuery,
    first: Seq<EventEnvelope>,
    second: Seq<EventEnvelope>,
)
    ensures
        query.rows(first + second) == query.rows(first) + query.rows(second),
{
    Seq::filter_distributes_over_add(first, second, |event: EventEnvelope| query.admits(event));
}

fn count_among(events: &Vec<EventEnvelope>, query: &EventQuery) -> (r: usize)
    ensures
        r == query.rows(events@).len(),
{
    let mut count: usize = 0;
    let mut n: usize = 0;
    proof {
        reveal(Seq::filter);
        assert(query.rows(events@.take(0)) =~= Seq::empty());
    }
    while n < events.len()
        invariant
            n <= events@.len(),
            count <= n,
            count == query.rows(events@.take(n as int)).len(),
        decreases events.len() - n,
    {
        proof {
            crate::history::lemma_rows_step(*query, events@, n as int);
        }
        if query.admits_event(&events[n]) {
            count += 1;
        }
        n += 1;
    }
    assert(events@.take(events@.len() as int) =~= events@);
    count
}

/// How many events of a history, and of what would follow it, are selected.
fn count_with(log: &EventLog, extra: &Vec<EventEnvelope>, query: &EventQuery) -> (r: u128)
    ensures
        r == query.rows(log@ + extra@).len(),
{
    proof {
        lemma_rows_of_joined(*query, log@, extra@);
    }
    log.count(query) as u128 + count_among(extra, query) as u128
}

/// Whether `envelope` records exactly `start`.
#[verifier::opaque]
pub open spec fn records_start(envelope: EventEnvelope, start: ChildAttemptStart) -> bool {
    &&& envelope.session_id == start.session_id
    &&& envelope.run_id == start.run_id
    &&& envelope.actor_id == start.actor_id
    &&& envelope.causal_parent == start.causal_parent
    &&& envelope.provenance.same(&start.provenance)
    &&& envelope.payload == EventPayload::ChildExecutionStarted(start.started)
}

fn envelope_records_start(envelope: &EventEnvelope, start: &ChildAttemptStart) -> (r: bool)
    ensures
        r == records_start(*envelope, *start),
{
    proof {
        reveal(records_start);
    }
    let started = match &envelope.payload {
        EventPayload::ChildExecutionStarted(started) => *started == start.started,
        _ => false,
    };
    envelope.session_id == start.session_id && envelope.run_id == start.run_id && envelope.actor_id
        == start.actor_id && envelope.causal_parent == start.causal_parent && envelope.provenance
        == start.provenance && started
}

/// Whether the first four events of a bundle are those of the pair, recorded in time.
pub open spec fn pair_stands(
    bundle: Seq<EventEnvelope>,
    pair: ParallelReconExactPairMaterial,
) -> bool {
    &&& pair_event_stands(bundle[0], pair.authorize_left, pair)
    &&& pair_event_stands(bundle[1], pair.authorize_right, pair)
    &&& pair_event_stands(bundle[2], pair.issue_left, pair)
    &&& pair_event_stands(bundle[3], pair.issue_right, pair)
}

/// Whether a bundle begins with two authorizations and two issuances, in this order.
pub open spec fn lifecycle_kinds(bundle: Seq<EventEnvelope>) -> bool {
    &&& bundle[0].payload is ChildDelegationAuthorizedV2
    &&& bundle[1].payload is ChildDelegationAuthorizedV2
    &&& bundle[2].payload is ChildWorkOrderIssued
    &&& bundle[3].payload is ChildWorkOrderIssued
}

/// What is found of one recorded start: its child has a first attempt, the attempt is the one that
/// the authority names, and the event is the start that the child's history asks for under that
/// authority, in time.
pub open spec fn start_verdict(
    replay: Result<ChildReplay, StoreError>,
    start: Result<ChildAttemptStart, StoreError>,
    authority: ChildRepositoryExplorerAttemptStartAuthority,
    committed: EventEnvelope,
    pair: ParallelReconExactPairMaterial,
) -> Result<(), StoreError> {
    match replay {
        Err(error) => Err(error),
        Ok(replay) => if replay.attempts@.len() == 0 {
            Err(StoreError::InvalidStateEvent)
        } else {
            let first = replay.attempts@[0];
            crate::error::and_next(
                crate::error::no_conflict(
                    {
                        &&& first.started_event_id == committed.id
                        &&& first.attempt_id == authority.attempt_id
                        &&& first.local_plan_id == authority.local_plan_id
                        &&& first.started_at == authority.started_at
                    },
                ),
                match start {
                    Err(error) => Err(error),
                    Ok(expected) => crate::error::no_conflict(
                        {
                            &&& committed.id == authority.event_id
                            &&& start_fits(expected, authority)
                            &&& records_start(committed, expected)
                            &&& in_time(committed, pair)
                        },
                    ),
                },
            )
        },
    }
}

fn check_start(
    replay: &Result<ChildReplay, StoreError>,
    start: &Result<ChildAttemptStart, StoreError>,
    authority: &ChildRepositoryExplorerAttemptStartAuthority,
    committed: &EventEnvelope,
    pair: &ParallelReconExactPairMaterial,
) -> (r: Result<(), StoreError>)
    ensures
        r == start_verdict(*replay, *start, *authority, *committed, *pair),
{
    let replay = match replay {
        Ok(replay) => replay,
        Err(error) => return Err(*error),
    };
    if replay.attempts.len() == 0 {
        return Err(StoreError::InvalidStateEvent);
    }
    let first = &replay.attempts[0];
    if first.started_event_id != committed.id || first.attempt_id != authority.attempt_id
        || first.local_plan_id != authority.local_plan_id || first.started_at
        != authority.started_at {
        return Err(StoreError::IdentifiedEventConflict);
    }
    let expected = match start {
        Ok(expected) => expected,
        Err(error) => return Err(*error),
    };
    if committed.id != authority.event_id || expected.started.binding.attempt_id
        != authority.attempt_id || expected.started.local_plan_id != authority.local_plan_id
        || expected.started.started_at != authority.started_at || !envelope_records_start(
        committed,
        expected,
    )
        || !committed.occurred_at.not_after(pair.deadline) || !committed.occurred_at.before(
        pair.claim.lease_expires_at,
    ) {
        return Err(StoreError::IdentifiedEventConflict);
    }
    Ok(())
}

/// What is found of a recorded bundle, in a history that holds it. A pair that was derived for
/// anything else is refused.
#[verifier::opaque]
pub open spec fn bundle_verdict(
    history: Seq<EventEnvelope>,
    session_id: SessionId,
    run_id: RunId,
    wanted: PairIdentities,
    left_start: ChildRepositoryExplorerAttemptStartAuthority,
    right_start: ChildRepositoryExplorerAttemptStartAuthority,
    bundle: Seq<EventEnvelope>,
    derivation: BootstrapDerivation,
) -> Result<(), StoreError> {
    if !contiguous_bundle(bundle) || bundle[0].run_id != Some(run_id) {
        Err(StoreError::InvalidStateEvent)
    } else {
        match derivation.pair {
            Err(error) => Err(error),
            Ok(pair) => if !pair_fits(pair, session_id, run_id, wanted) {
                Err(StoreError::InvalidStateEvent)
            } else if !pair_stands(bundle, pair) {
                Err(StoreError::IdentifiedEventConflict)
            } else if !exactly_one_pair(
                history,
                session_id,
                run_id,
                wanted.accepted_planner_turn_event_id,
            ) || !lifecycle_kinds(bundle) {
                Err(StoreError::InvalidStateEvent)
            } else {
                match derivation.children {
                    Err(error) => Err(error),
                    Ok(_) => crate::error::and_next(
                        start_verdict(
                            derivation.left_replay,
                            derivation.left_start,
                            left_start,
                            bundle[4],
                            pair,
                        ),
                        start_verdict(
                            derivation.right_replay,
                            derivation.right_start,
                            right_start,
                            bundle[5],
                            pair,
                        ),
                    ),
                }
            },
        }
    }
}

/// Whether `material` shows the bundle and the children that were derived from it.
pub open spec fn material_shows(
    material: ParallelReconBootstrapMaterial,
    bundle: Seq<EventEnvelope>,
    derivation: BootstrapDerivation,
) -> bool {
    match (derivation.pair, derivation.children) {
        (Ok(pair), Ok((left, right))) => {
            &&& material.policy_artifact == pair.policy_artifact
            &&& material.children@[0].authorization_event == bundle[0]
            &&& material.children@[0].issuance_event == bundle[2]
            &&& material.children@[0].started_event == bundle[4]
            &&& *material.children@[0].projection == left
            &&& material.children@[1].authorization_event == bundle[1]
            &&& material.children@[1].issuance_event == bundle[3]
            &&& material.children@[1].started_event == bundle[5]
            &&& *material.children@[1].projection == right
        },
        _ => false,
    }
}

/// A bundle and what replay makes of it are shown in one way: whatever shows them, shows the same
/// policy, the same six events and the same children.
pub proof fn law_material_is_one(
    first: ParallelReconBootstrapMaterial,
    second: ParallelReconBootstrapMaterial,
    bundle: Seq<EventEnvelope>,
    derivation: BootstrapDerivation,
)
    requires
        material_shows(first, bundle, derivation),
        material_shows(second, bundle, derivation),
    ensures
        first.policy_artifact == second.policy_artifact,
        first.children@ == second.children@,
{
    assert(first.children@ =~= second.children@);
}

/// Copies an event of a child's beginnings.
pub(crate) fn copy_lifecycle_event(event: &EventEnvelope) -> (r: Option<EventEnvelope>)
    ensures
        r is Some <==> (event.payload is ChildDelegationAuthorizedV2
            || event.payload is ChildWorkOrderIssued || event.payload is ChildExecutionStarted),
        r matches Some(copy) ==> copy == *event,
{
    let payload = match &event.payload {
        EventPayload::ChildDelegationAuthorizedV2(authorized) =>
            EventPayload::ChildDelegationAuthorizedV2(authorized.clone()),
        EventPayload::ChildWorkOrderIssued(issued) => EventPayload::ChildWorkOrderIssued(
            issued.clone(),
        ),
        EventPayload::ChildExecutionStarted(started) => EventPayload::ChildExecutionStarted(
            *started,
        ),
        _ => return None,
    };
    Some(
        EventEnvelope {
            id: event.id,
            sequence: event.sequence,
            session_id: event.session_id,
            run_id: event.run_id,
            actor_id: event.actor_id,
            causal_parent: event.causal_parent,
            occurred_at: event.occurred_at,
            provenance: event.provenance.clone(),
            payload,
        },
    )
}

pub(crate) fn check_exactly_one_pair(
    log: &EventLog,
    extra: &Vec<EventEnvelope>,
    session_id: SessionId,
    run_id: RunId,
    accepted_event_id: EventId,
) -> (r: bool)
    ensures
        r == exactly_one_pair(log@ + extra@, session_id, run_id, accepted_event_id),
{
    count_with(
        log,
        extra,
        &EventQuery::in_run(session_id, run_id, PayloadFilter::DelegationAuthorizedV2),
    ) == 2 && count_with(
        log,
        extra,
        &EventQuery::in_run(
            session_id,
            run_id,
            PayloadFilter::DelegationAuthorizedBy(accepted_event_id),
        ),
    ) == 2 && count_with(
        log,
        extra,
        &EventQuery::in_run(session_id, run_id, PayloadFilter::WorkOrderIssued),
    ) == 2
}

fn check_pair_events(events: &Vec<&EventEnvelope>, pair: &ParallelReconExactPairMaterial) -> (r: bool)
    requires
        events@.len() == 6,
    ensures
        r == pair_stands(referenced(events@), *pair),
{
    pair_event_stands_exec(events[0], &pair.authorize_left, pair) && pair_event_stands_exec(
        events[1],
        &pair.authorize_right,
        pair,
    ) && pair_event_stands_exec(events[2], &pair.issue_left, pair) && pair_event_stands_exec(
        events[3],
        &pair.issue_right,
        pair,
    )
}

pub(crate) fn check_lifecycle_kinds(events: &Vec<&EventEnvelope>) -> (r: bool)
    requires
        events@.len() >= 4,
    ensures
        r == lifecycle_kinds(referenced(events@)),
{
    matches!(events[0].payload, EventPayload::ChildDelegationAuthorizedV2(_)) && matches!(
        events[1].payload,
        EventPayload::ChildDelegationAuthorizedV2(_)
    ) && matches!(events[2].payload, EventPayload::ChildWorkOrderIssued(_)) && matches!(
        events[3].payload,
        EventPayload::ChildWorkOrderIssued(_)
    )
}

fn check_bundle(
    log: &EventLog,
    extra: &Vec<EventEnvelope>,
    session_id: SessionId,
    run_id: RunId,
    authority: &ParallelReconBootstrapAuthority,
    events: &Vec<&EventEnvelope>,
    derivation: &BootstrapDerivation,
) -> (r: Result<(), StoreError>)
    ensures
        r == bundle_verdict(
            log@ + extra@,
            session_id,
            run_id,
            authority.pair.identities(),
            authority.starts@[0],
            authority.starts@[1],
            referenced(events@),
            *derivation,
        ),
{
    proof {
        reveal(bundle_verdict);
    }
    let ghost bundle = referenced(events@);
    match require_contiguous_bundle(events) {
        Ok(()) => {},
        Err(error) => return Err(error),
    }
    assert(*events@[0] == bundle[0] && *events@[4] == bundle[4] && *events@[5] == bundle[5]);
    if events[0].run_id != Some(run_id) {
        return Err(StoreError::InvalidStateEvent);
    }
    let pair = match &derivation.pair {
        Ok(pair) => pair,
        Err(error) => return Err(*error),
    };
    if !does_pair_fit(pair, session_id, run_id, &authority.pair.identities()) {
        return Err(StoreError::InvalidStateEvent);
    }
    if !check_pair_events(events, pair) {
        return Err(StoreError::IdentifiedEventConflict);
    }
    if !check_exactly_one_pair(
        log,
        extra,
        session_id,
        run_id,
        authority.pair.accepted_planner_turn_event_id,
    ) || !check_lifecycle_kinds(events) {
        return Err(StoreError::InvalidStateEvent);
    }
    match &derivation.children {
        Ok(_) => {},
        Err(error) => return Err(*error),
    }
    match check_start(
        &derivation.left_replay,
        &derivation.left_start,
        &authority.starts[0],
        events[4],
        pair,
    ) {
        Ok(()) => {},
        Err(error) => return Err(error),
    }
    check_start(
        &derivation.right_replay,
        &derivation.right_start,
        &authority.starts[1],
        events[5],
        pair,
    )
}

/// Reads the material of a recorded bundle. The history is the log followed by `extra`.
pub(crate) fn bootstrap_material_from_events(
    log: &EventLog,
    extra: &Vec<EventEnvelope>,
    session_id: SessionId,
    run_id: RunId,
    authority: &ParallelReconBootstrapAuthority,
    events: &Vec<&EventEnvelope>,
    derivation: BootstrapDerivation,
) -> (r: Result<ParallelReconBootstrapMaterial, StoreError>)
    ensures
        match (
            r,
            bundle_verdict(
                log@ + extra@,
                session_id,
                run_id,
                authority.pair.identities(),
                authority.starts@[0],
                authority.starts@[1],
                referenced(events@),
                derivation,
            ),
        ) {
            (Ok(material), Ok(())) => material_shows(material, referenced(events@), derivation),
            (Err(error), Err(expected)) => error == expected,
            _ => false,
        },
{
    proof {
        reveal(bundle_verdict);
        reveal(records_start);
    }
    let ghost bundle = referenced(events@);
    match check_bundle(log, extra, session_id, run_id, authority, events, &derivation) {
        Ok(()) => {},
        Err(error) => return Err(error),
    }
    assert(forall|i: int| 0 <= i < 6 ==> *#[trigger] events@[i] == bundle[i]);
    let BootstrapDerivation { pair, children, .. } = derivation;
    match (
        pair,
        children,
        copy_lifecycle_event(events[0]),
        copy_lifecycle_event(events[1]),
        copy_lifecycle_event(events[2]),
        copy_lifecycle_event(events[3]),
        copy_lifecycle_event(events[4]),
        copy_lifecycle_event(events[5]),
    ) {
        (
            Ok(pair),
            Ok((left, right)),
            Some(authorized_left),
            Some(authorized_right),
            Some(issued_left),
            Some(issued_right),
            Some(started_left),
            Some(started_right),
        ) => Ok(
            ParallelReconBootstrapMaterial {
                policy_artifact: pair.policy_artifact,
                children: Box::new(
                    [
                        ParallelReconBootstrappedChild {
                            authorization_event: authorized_left,
                            issuance_event: issued_left,
                            started_event: started_left,
                            projection: Box::new(left),
                        },
                        ParallelReconBootstrappedChild {
                            authorization_event: authorized_right,
                            issuance_event: issued_right,
                            started_event: started_right,
                            projection: Box::new(right),
                        },
                    ],
                ),
            },
        ),
        _ => Err(StoreError::InvalidStateEvent),
    }
}

} // verus!

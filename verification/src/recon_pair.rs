//! A pair of children that is delegated without being started. Such a pair was once recorded as
//! four events of its own; histories that hold one are made and told apart here, and the bootstrap
//! takes none of them up.

use vstd::prelude::*;
use crate::artifact::ArtifactRef;
use crate::child_replay::ChildWorkOrderProjection;
use crate::clock::Timestamp;
use crate::error::StoreError;
use crate::event::{EventEnvelope, EventPayload, IdentifiedNewEvent};
use crate::history::MAX_SEQUENCE;
use crate::identity::{EventId, RunId, SessionId};
use crate::parallel_recon_bootstrap::{authority_events, check_place, envelope_event, references};
use crate::planner_turn::PlannerTurnPurposeV1;
use crate::recon_bundle::{ParallelReconExactPairIssuanceAuthority, ParallelReconExactPairMaterial, PairIdentities, check_exactly_one_pair, check_lifecycle_kinds, copy_lifecycle_event, does_pair_fit, envelope_records};
use crate::recon_recovery::{parallel_recon_exact_pair_authority_from_committed, parallel_recon_exact_pair_committed_events};
use crate::run::RunPurpose;
use crate::store::Store;

verus! {

/// How many children a reconnaissance run delegates to.
pub const CHILD_AGENTS: u32 = 2;

/// One child of a recorded pair.
#[derive(Debug)]
pub struct ParallelReconExactPairIssuedChild {
    pub authorization_event: EventEnvelope,
    pub issuance_event: EventEnvelope,
    pub projection: Box<ChildWorkOrderProjection>,
}

/// A recorded pair and where its children stand now.
#[derive(Debug)]
pub struct ParallelReconExactPairRecovery {
    pub policy_artifact: ArtifactRef,
    pub children: Box<[ParallelReconExactPairIssuedChild; 2]>,
}

/// What the issuance of a pair comes to.
#[derive(Debug)]
pub enum ParallelReconExactPairIssuanceOutcome {
    Appended { pair: ParallelReconExactPairRecovery },
    AlreadyPresent { pair: ParallelReconExactPairRecovery },
}

/// What replay makes of a pair: the pair as derived from what precedes it, and where its two
/// children stand.
#[derive(Debug)]
pub struct PairDerivation {
    pub pair: Result<ParallelReconExactPairMaterial, StoreError>,
    pub children: Result<(ChildWorkOrderProjection, ChildWorkOrderProjection), StoreError>,
}

/// What one attempt to record a pair meets on its way.
#[derive(Debug)]
pub struct FreshPair {
    /// The pair, derived from the present history, and its children once they are issued.
    pub derived: PairDerivation,
    /// When each of the four events was recorded.
    pub recorded_at: [Timestamp; 4],
    /// Whether each of the four events was admitted, after those before it.
    pub admissions: [Result<(), StoreError>; 4],
    /// Whether the claim still held, before and after the four events were read back.
    pub guards: [Result<(), StoreError>; 2],
}

/// The four event identities of a pair, in the order in which they are recorded.
pub open spec fn pair_ids(authority: ParallelReconExactPairIssuanceAuthority) -> Seq<EventId> {
    seq![
        authority.children@[0].authorization_event_id,
        authority.children@[1].authorization_event_id,
        authority.children@[0].issuance_event_id,
        authority.children@[1].issuance_event_id,
    ]
}

/// The four event identities of a pair, in the order in which they are recorded.
pub fn parallel_recon_exact_pair_authority_event_ids(
    authority: &ParallelReconExactPairIssuanceAuthority,
) -> (r: [EventId; 4])
    ensures
        r@ == pair_ids(*authority),
{
    let ids: [EventId; 4] = [
        authority.children[0].authorization_event_id,
        authority.children[1].authorization_event_id,
        authority.children[0].issuance_event_id,
        authority.children[1].issuance_event_id,
    ];
    assert(ids@ =~= pair_ids(*authority));
    ids
}

/// Whether four events stand one right after the other.
pub open spec fn consecutive(bundle: Seq<EventEnvelope>) -> bool {
    &&& bundle[0].sequence + 1 == bundle[1].sequence
    &&& bundle[1].sequence + 1 == bundle[2].sequence
    &&& bundle[2].sequence + 1 == bundle[3].sequence
}

fn check_consecutive(events: &Vec<&EventEnvelope>) -> (r: bool)
    requires
        events@.len() == 4,
    ensures
        r == consecutive(crate::recon_bundle::referenced(events@)),
{
    events[0].sequence.checked_add(1) == Some(events[1].sequence)
        && events[1].sequence.checked_add(1) == Some(events[2].sequence)
        && events[2].sequence.checked_add(1) == Some(events[3].sequence)
}

/// Whether an event is the one that was derived.
pub open spec fn is_derived(event: EventEnvelope, expected: IdentifiedNewEvent) -> bool {
    event.id == expected.event_id && crate::recon_bundle::records(event, expected.event)
}

fn check_derived(event: &EventEnvelope, expected: &IdentifiedNewEvent) -> (r: bool)
    ensures
        r == is_derived(*event, *expected),
{
    event.id == expected.event_id && envelope_records(event, &expected.event)
}

/// Whether the four events are those that were derived for the pair.
pub open spec fn are_derived(
    bundle: Seq<EventEnvelope>,
    pair: ParallelReconExactPairMaterial,
) -> bool {
    &&& is_derived(bundle[0], pair.authorize_left)
    &&& is_derived(bundle[1], pair.authorize_right)
    &&& is_derived(bundle[2], pair.issue_left)
    &&& is_derived(bundle[3], pair.issue_right)
}

/// Whether the four events were recorded within the deadline and the lease of the pair.
pub open spec fn are_in_time(
    bundle: Seq<EventEnvelope>,
    pair: ParallelReconExactPairMaterial,
) -> bool {
    forall|i: int| 0 <= i < 4 ==> crate::recon_bundle::in_time(#[trigger] bundle[i], pair)
}

fn check_in_time(event: &EventEnvelope, pair: &ParallelReconExactPairMaterial) -> (r: bool)
    ensures
        r == crate::recon_bundle::in_time(*event, *pair),
{
    event.occurred_at.not_after(pair.deadline) && event.occurred_at.before(
        pair.claim.lease_expires_at,
    )
}

/// What is found of the four events against the derived pair: another content is a conflict, a
/// late event is not valid.
pub open spec fn recorded_pair(
    bundle: Seq<EventEnvelope>,
    pair: ParallelReconExactPairMaterial,
) -> Result<(), StoreError> {
    crate::error::and_next(
        crate::error::no_conflict(are_derived(bundle, pair)),
        crate::error::demand(are_in_time(bundle, pair)),
    )
}

fn check_recorded_pair(events: &Vec<&EventEnvelope>, pair: &ParallelReconExactPairMaterial) -> (r:
    Result<(), StoreError>)
    requires
        events@.len() == 4,
    ensures
        r == recorded_pair(crate::recon_bundle::referenced(events@), *pair),
{
    let ghost bundle = crate::recon_bundle::referenced(events@);
    assert(forall|i: int| 0 <= i < 4 ==> *#[trigger] events@[i] == bundle[i]);
    if !check_derived(events[0], &pair.authorize_left) || !check_derived(
        events[1],
        &pair.authorize_right,
    ) || !check_derived(events[2], &pair.issue_left) || !check_derived(events[3], &pair.issue_right) {
        return Err(StoreError::IdentifiedEventConflict);
    }
    let mut i: usize = 0;
    while i < 4
        invariant
            i <= 4,
            events@.len() == 4,
            bundle == crate::recon_bundle::referenced(events@),
            forall|k: int|
                0 <= k < i ==> crate::recon_bundle::in_time(#[trigger] bundle[k], *pair),
            are_derived(bundle, *pair),
        decreases 4 - i,
    {
        assert(*events@[i as int] == bundle[i as int]);
        if !check_in_time(events[i], pair) {
            return Err(StoreError::InvalidStateEvent);
        }
        i += 1;
    }
    Ok(())
}

/// What is found of the children of a recorded pair.
pub open spec fn issued_children(
    bundle: Seq<EventEnvelope>,
    derivation: PairDerivation,
) -> Result<(), StoreError> {
    if !crate::recon_bundle::lifecycle_kinds(bundle) {
        Err(StoreError::InvalidStateEvent)
    } else {
        match derivation.children {
            Err(error) => Err(error),
            Ok(_) => Ok(()),
        }
    }
}

/// Whether `shown` shows the four events and the children that were derived from them.
pub open spec fn pair_shows(
    shown: ParallelReconExactPairRecovery,
    bundle: Seq<EventEnvelope>,
    derivation: PairDerivation,
) -> bool {
    match (derivation.pair, derivation.children) {
        (Ok(pair), Ok((left, right))) => {
            &&& shown.policy_artifact == pair.policy_artifact
            &&& shown.children@[0].authorization_event == bundle[0]
            &&& shown.children@[0].issuance_event == bundle[2]
            &&& *shown.children@[0].projection == left
            &&& shown.children@[1].authorization_event == bundle[1]
            &&& shown.children@[1].issuance_event == bundle[3]
            &&& *shown.children@[1].projection == right
        },
        _ => false,
    }
}

fn show_pair(
    events: &Vec<&EventEnvelope>,
    policy_artifact: ArtifactRef,
    children: Result<(ChildWorkOrderProjection, ChildWorkOrderProjection), StoreError>,
    Ghost(derivation): Ghost<PairDerivation>,
) -> (r: Result<ParallelReconExactPairRecovery, StoreError>)
    requires
        events@.len() == 4,
        derivation.children == children,
        derivation.pair matches Ok(pair) && pair.policy_artifact == policy_artifact,
    ensures
        match (r, issued_children(crate::recon_bundle::referenced(events@), derivation)) {
            (Ok(shown), Ok(())) => pair_shows(
                shown,
                crate::recon_bundle::referenced(events@),
                derivation,
            ),
            (Err(error), Err(expected)) => error == expected,
            _ => false,
        },
{
    let ghost bundle = crate::recon_bundle::referenced(events@);
    assert(forall|i: int| 0 <= i < 4 ==> *#[trigger] events@[i] == bundle[i]);
    if !check_lifecycle_kinds(events) {
        return Err(StoreError::InvalidStateEvent);
    }
    let (left, right) = match children {
        Ok((left, right)) => (left, right),
        Err(error) => return Err(error),
    };
    match (
        copy_lifecycle_event(events[0]),
        copy_lifecycle_event(events[1]),
        copy_lifecycle_event(events[2]),
        copy_lifecycle_event(events[3]),
    ) {
        (
            Some(authorized_left),
            Some(authorized_right),
            Some(issued_left),
            Some(issued_right),
        ) => Ok(
            ParallelReconExactPairRecovery {
                policy_artifact,
                children: Box::new(
                    [
                        ParallelReconExactPairIssuedChild {
                            authorization_event: authorized_left,
                            issuance_event: issued_left,
                            projection: Box::new(left),
                        },
                        ParallelReconExactPairIssuedChild {
                            authorization_event: authorized_right,
                            issuance_event: issued_right,
                            projection: Box::new(right),
                        },
                    ],
                ),
            },
        ),
        _ => Err(StoreError::InvalidStateEvent),
    }
}

/// What is found of a pair whose four events are recorded.
pub open spec fn found_pair(
    history: Seq<EventEnvelope>,
    session_id: SessionId,
    run_id: RunId,
    wanted: PairIdentities,
    bundle: Seq<EventEnvelope>,
    derivation: PairDerivation,
) -> Result<(), StoreError> {
    if !consecutive(bundle) {
        Err(StoreError::InvalidStateEvent)
    } else {
        match derivation.pair {
            Err(error) => Err(error),
            Ok(pair) => crate::error::and_next(
                crate::error::demand(
                    crate::recon_bundle::pair_fits(pair, session_id, run_id, wanted)
                        && crate::recon_bundle::exactly_one_pair(
                        history,
                        session_id,
                        run_id,
                        wanted.accepted_planner_turn_event_id,
                    ),
                ),
                crate::error::and_next(
                    recorded_pair(bundle, pair),
                    issued_children(bundle, derivation),
                ),
            ),
        }
    }
}

/// The four events that the issuance of a pair makes at `base`.
pub open spec fn made_pair(
    base: u64,
    pair: ParallelReconExactPairMaterial,
    at: Seq<Timestamp>,
) -> Seq<EventEnvelope> {
    seq![
        crate::parallel_recon_bootstrap::enveloped(pair.authorize_left, base, at[0]),
        crate::parallel_recon_bootstrap::enveloped(pair.authorize_right, (base + 1) as u64, at[1]),
        crate::parallel_recon_bootstrap::enveloped(pair.issue_left, (base + 2) as u64, at[2]),
        crate::parallel_recon_bootstrap::enveloped(pair.issue_right, (base + 3) as u64, at[3]),
    ]
}

/// Whether the session has room for the four events, and each was admitted.
pub open spec fn admitted_pair(
    base: Result<u64, StoreError>,
    admissions: Seq<Result<(), StoreError>>,
) -> Result<(), StoreError> {
    crate::error::and_next(
        crate::parallel_recon_bootstrap::recorded_at_place(base, admissions[0], 0),
        crate::error::and_next(
            crate::parallel_recon_bootstrap::recorded_at_place(base, admissions[1], 1),
            crate::error::and_next(
                crate::parallel_recon_bootstrap::recorded_at_place(base, admissions[2], 2),
                crate::parallel_recon_bootstrap::recorded_at_place(base, admissions[3], 3),
            ),
        ),
    )
}

/// The four events that a first issuance records, or why it records none. A pair that was derived for
/// anything else is refused.
#[verifier::opaque]
pub open spec fn fresh_pair(
    store: Store,
    session_id: SessionId,
    run_id: RunId,
    wanted: PairIdentities,
    fresh: FreshPair,
) -> Result<Seq<EventEnvelope>, StoreError> {
    match fresh.derived.pair {
        Err(error) => Err(error),
        Ok(pair) => {
            let base = crate::history::next_sequence_of(store.log@, session_id);
            let bundle = made_pair(base->Ok_0, pair, fresh.recorded_at@);
            match crate::error::and_next(
                crate::error::demand(
                    crate::recon_bundle::pair_fits(pair, session_id, run_id, wanted)
                        && crate::recon_bundle::no_pair_yet(
                        store.log@,
                        session_id,
                        run_id,
                        wanted.accepted_planner_turn_event_id,
                    ),
                ),
                crate::error::and_next(
                    admitted_pair(base, fresh.admissions@),
                    crate::error::and_next(
                        fresh.guards@[0],
                        crate::error::and_next(
                            issued_children(bundle, fresh.derived),
                            crate::error::and_next(
                                fresh.guards@[1],
                                crate::error::demand(
                                    {
                                        &&& crate::history::in_sequence(store.log@ + bundle)
                                        &&& crate::history::identities_distinct(store.log@ + bundle)
                                    },
                                ),
                            ),
                        ),
                    ),
                ),
            ) {
                Err(error) => Err(error),
                Ok(()) => Ok(bundle),
            }
        },
    }
}

/// What the issuance of a pair comes to: the four events that it records, or those that it finds,
/// or why it is refused.
pub open spec fn issuance_verdict(
    store: Store,
    run_id: RunId,
    authority: ParallelReconExactPairIssuanceAuthority,
    fresh: FreshPair,
    recorded: PairDerivation,
) -> Result<Seq<EventEnvelope>, StoreError> {
    match crate::recon_recovery::recon_session(store, run_id) {
        Err(error) => Err(error),
        Ok(session_id) => match crate::parallel_recon_bootstrap::presence(
            store.log@,
            pair_ids(authority),
        ) {
            Err(error) => Err(error),
            Ok(Some(bundle)) => match found_pair(
                store.log@,
                session_id,
                run_id,
                authority.identities(),
                bundle,
                recorded,
            ) {
                Err(error) => Err(error),
                Ok(()) => Ok(bundle),
            },
            Ok(None) => fresh_pair(store, session_id, run_id, authority.identities(), fresh),
        },
    }
}

/// Whether a turn may have delegated a pair: the run is a reconnaissance run of two children, and
/// the turn is its accepted first delegation.
pub open spec fn pair_session(store: Store, run_id: RunId, accepted_event_id: EventId) -> Result<
    SessionId,
    StoreError,
> {
    match store.run_record(run_id) {
        None => Err(StoreError::InvalidStateEvent),
        Some(run) => if run.id != run_id || run.spec.purpose
            != RunPurpose::ParallelRepositoryReconnaissanceV1 || run.spec.limits.max_subagents
            != CHILD_AGENTS {
            Err(StoreError::InvalidStateEvent)
        } else {
            match crate::planning_ground::event_of_run(
                store,
                run.spec.session_id,
                run_id,
                accepted_event_id,
            ) {
                Some(event) => if event.payload matches EventPayload::PlannerTurnAcceptedV1(
                    accepted,
                ) && accepted.purpose == PlannerTurnPurposeV1::InitialDelegation {
                    Ok(run.spec.session_id)
                } else {
                    Err(StoreError::InvalidStateEvent)
                },
                None => Err(StoreError::InvalidStateEvent),
            }
        },
    }
}

/// The pair that recovery finds under an accepted turn, if there is one, and what it refuses.
pub open spec fn recovered_pair(
    store: Store,
    run_id: RunId,
    accepted_event_id: EventId,
    derivation: PairDerivation,
) -> Result<Option<Seq<EventEnvelope>>, StoreError> {
    match pair_session(store, run_id, accepted_event_id) {
        Err(error) => Err(error),
        Ok(session_id) => match crate::recon_recovery::committed_pair(
            store.log@,
            session_id,
            run_id,
            accepted_event_id,
        ) {
            Err(error) => Err(error),
            Ok(None) => Ok(None),
            Ok(Some(bundle)) => if !crate::recon_recovery::names_pair_authority(bundle) {
                Err(StoreError::InvalidStateEvent)
            } else {
                match derivation.pair {
                    Err(error) => Err(error),
                    Ok(pair) => match crate::error::and_next(
                        crate::error::demand(
                            crate::recon_bundle::pair_fits(
                                pair,
                                session_id,
                                run_id,
                                crate::recon_recovery::named_identities(accepted_event_id, bundle),
                            ),
                        ),
                        crate::error::and_next(
                            recorded_pair(bundle, pair),
                            issued_children(bundle, derivation),
                        ),
                    ) {
                        Err(error) => Err(error),
                        Ok(()) => Ok(Some(bundle)),
                    },
                }
            },
        },
    }
}

fn make_pair(base: u64, pair: ParallelReconExactPairMaterial, at: [Timestamp; 4]) -> (r: (
    Vec<EventEnvelope>,
    ArtifactRef,
))
    requires
        base + 3 <= MAX_SEQUENCE,
    ensures
        r.0@ == made_pair(base, pair, at@),
        r.1 == pair.policy_artifact,
{
    let ParallelReconExactPairMaterial {
        authorize_left,
        authorize_right,
        issue_left,
        issue_right,
        policy_artifact,
        ..
    } = pair;
    let mut bundle: Vec<EventEnvelope> = Vec::new();
    bundle.push(envelope_event(authorize_left, base, at[0]));
    bundle.push(envelope_event(authorize_right, base + 1, at[1]));
    bundle.push(envelope_event(issue_left, base + 2, at[2]));
    bundle.push(envelope_event(issue_right, base + 3, at[3]));
    (bundle, policy_artifact)
}

fn check_admitted_pair(base: u64, admissions: &[Result<(), StoreError>; 4]) -> (r: Result<
    (),
    StoreError,
>)
    requires
        base <= MAX_SEQUENCE,
    ensures
        r == admitted_pair(Ok(base), admissions@),
        r is Ok ==> base + 3 <= MAX_SEQUENCE,
{
    match check_place(base, admissions[0], 0) {
        Ok(()) => {},
        Err(error) => return Err(error),
    }
    match check_place(base, admissions[1], 1) {
        Ok(()) => {},
        Err(error) => return Err(error),
    }
    match check_place(base, admissions[2], 2) {
        Ok(()) => {},
        Err(error) => return Err(error),
    }
    check_place(base, admissions[3], 3)
}

impl Store {
    fn read_found_pair(
        &self,
        session_id: SessionId,
        run_id: RunId,
        wanted: &PairIdentities,
        events: &Vec<&EventEnvelope>,
        recorded: PairDerivation,
    ) -> (r: Result<ParallelReconExactPairRecovery, StoreError>)
        requires
            events@.len() == 4,
        ensures
            match (
                r,
                found_pair(
                    self.log@,
                    session_id,
                    run_id,
                    *wanted,
                    crate::recon_bundle::referenced(events@),
                    recorded,
                ),
            ) {
                (Ok(shown), Ok(())) => pair_shows(
                    shown,
                    crate::recon_bundle::referenced(events@),
                    recorded,
                ),
                (Err(error), Err(expected)) => error == expected,
                _ => false,
            },
    {
        let ghost given = recorded;
        if !check_consecutive(events) {
            return Err(StoreError::InvalidStateEvent);
        }
        let PairDerivation { pair, children } = recorded;
        let pair = match pair {
            Ok(pair) => pair,
            Err(error) => return Err(error),
        };
        let nothing: Vec<EventEnvelope> = Vec::new();
        assert(self.log@ + nothing@ =~= self.log@);
        if !does_pair_fit(&pair, session_id, run_id, wanted) || !check_exactly_one_pair(
            &self.log,
            &nothing,
            session_id,
            run_id,
            wanted.accepted_planner_turn_event_id,
        ) {
            return Err(StoreError::InvalidStateEvent);
        }
        match check_recorded_pair(events, &pair) {
            Ok(()) => {},
            Err(error) => return Err(error),
        }
        show_pair(events, pair.policy_artifact, children, Ghost(given))
    }

    fn record_pair(
        &mut self,
        session_id: SessionId,
        run_id: RunId,
        wanted: &PairIdentities,
        fresh: FreshPair,
    ) -> (r: Result<ParallelReconExactPairRecovery, StoreError>)
        ensures
            match (r, fresh_pair(*old(self), session_id, run_id, *wanted, fresh)) {
                (Ok(shown), Ok(bundle)) => pair_shows(shown, bundle, fresh.derived)
                    && crate::parallel_recon_bootstrap::only_grew(
                    *old(self),
                    *final(self),
                    bundle,
                ),
                (Err(error), Err(expected)) => error == expected && *final(self) == *old(self),
                _ => false,
            },
    {
        proof {
            reveal(fresh_pair);
        }
        let ghost given = fresh.derived;
        let FreshPair { derived, recorded_at, admissions, guards } = fresh;
        let PairDerivation { pair, children } = derived;
        let pair = match pair {
            Ok(pair) => pair,
            Err(error) => return Err(error),
        };
        if !does_pair_fit(&pair, session_id, run_id, wanted) || !self.check_no_pair_yet(
            session_id,
            run_id,
            wanted.accepted_planner_turn_event_id,
        ) {
            return Err(StoreError::InvalidStateEvent);
        }
        let base: u64 = match self.log.next_sequence(session_id) {
            Ok(base) => base,
            Err(error) => return Err(error),
        };
        proof {
            crate::parallel_recon_bootstrap::lemma_sequence_bounded(self.log@, session_id);
        }
        match check_admitted_pair(base, &admissions) {
            Ok(()) => {},
            Err(error) => return Err(error),
        }
        match guards[0] {
            Ok(()) => {},
            Err(error) => return Err(error),
        }
        let (bundle, policy_artifact) = make_pair(base, pair, recorded_at);
        let shown = match show_pair(&references(&bundle), policy_artifact, children, Ghost(given)) {
            Ok(shown) => shown,
            Err(error) => return Err(error),
        };
        match guards[1] {
            Ok(()) => {},
            Err(error) => return Err(error),
        }
        match self.log.append_all(bundle) {
            Ok(()) => Ok(shown),
            Err(error) => Err(error),
        }
    }

    /// Authorizes and issues a pair without starting it.
    ///
    /// Four contiguous events are recorded, or none. The same authority once more finds what it
    /// recorded; a part of a pair, or another one, is refused. `fresh` is what a first recording
    /// meets, and `recorded` is what replay makes of the four events once they stand.
    pub fn issue_parallel_recon_exact_pair(
        &mut self,
        run_id: RunId,
        authority: ParallelReconExactPairIssuanceAuthority,
        fresh: FreshPair,
        recorded: PairDerivation,
    ) -> (r: Result<ParallelReconExactPairIssuanceOutcome, StoreError>)
        ensures
            match (r, issuance_verdict(*old(self), run_id, authority, fresh, recorded)) {
                (Ok(ParallelReconExactPairIssuanceOutcome::Appended { pair }), Ok(bundle)) => {
                    &&& crate::parallel_recon_bootstrap::presence(
                        old(self).log@,
                        pair_ids(authority),
                    ) == Ok::<Option<Seq<EventEnvelope>>, StoreError>(None)
                    &&& pair_shows(pair, bundle, fresh.derived)
                    &&& crate::parallel_recon_bootstrap::only_grew(
                        *old(self),
                        *final(self),
                        bundle,
                    )
                },
                (
                    Ok(ParallelReconExactPairIssuanceOutcome::AlreadyPresent { pair }),
                    Ok(bundle),
                ) => {
                    &&& crate::parallel_recon_bootstrap::presence(
                        old(self).log@,
                        pair_ids(authority),
                    ) == Ok::<Option<Seq<EventEnvelope>>, StoreError>(Some(bundle))
                    &&& pair_shows(pair, bundle, recorded)
                    &&& *final(self) == *old(self)
                },
                (Err(error), Err(expected)) => error == expected && *final(self) == *old(self),
                _ => false,
            },
    {
        let session_id = match self.recon_session_of(run_id) {
            Ok(session_id) => session_id,
            Err(error) => return Err(error),
        };
        let wanted = authority.identities();
        let ids = parallel_recon_exact_pair_authority_event_ids(&authority);
        let existing = authority_events(&self.log, &ids);
        if existing.len() != 0 && existing.len() != 4 {
            return Err(StoreError::InvalidStateEvent);
        }
        if existing.len() == 4 {
            return match self.read_found_pair(
                session_id,
                run_id,
                &wanted,
                &existing,
                recorded,
            ) {
                Ok(pair) => Ok(ParallelReconExactPairIssuanceOutcome::AlreadyPresent { pair }),
                Err(error) => Err(error),
            };
        }
        match self.record_pair(session_id, run_id, &wanted, fresh) {
            Ok(pair) => Ok(ParallelReconExactPairIssuanceOutcome::Appended { pair }),
            Err(error) => Err(error),
        }
    }

    fn pair_session_of(&self, run_id: RunId, accepted_event_id: EventId) -> (r: Result<
        SessionId,
        StoreError,
    >)
        ensures
            r == pair_session(*self, run_id, accepted_event_id),
    {
        let run = match self.durable_run(run_id) {
            Ok(run) => run,
            Err(error) => return Err(error),
        };
        if run.id != run_id || run.spec.purpose != RunPurpose::ParallelRepositoryReconnaissanceV1
            || run.spec.limits.max_subagents != CHILD_AGENTS {
            return Err(StoreError::InvalidStateEvent);
        }
        let event = match self.log.event(run.spec.session_id, run_id, accepted_event_id) {
            Ok(event) => event,
            Err(error) => return Err(error),
        };
        match &event.payload {
            EventPayload::PlannerTurnAcceptedV1(accepted) => if accepted.purpose
                == PlannerTurnPurposeV1::InitialDelegation {
                Ok(run.spec.session_id)
            } else {
                Err(StoreError::InvalidStateEvent)
            },
            _ => Err(StoreError::InvalidStateEvent),
        }
    }

    /// Finds a recorded pair by the planner turn that it was accepted under. There is none where
    /// the turn authorized nothing; a part of one is refused. `derivation` is what replay makes of
    /// the recorded pair, under the authority that its events name.
    pub fn recover_parallel_recon_exact_pair(
        &self,
        run_id: RunId,
        accepted_planner_turn_event_id: EventId,
        derivation: PairDerivation,
    ) -> (r: Result<Option<ParallelReconExactPairRecovery>, StoreError>)
        ensures
            match (
                r,
                recovered_pair(*self, run_id, accepted_planner_turn_event_id, derivation),
            ) {
                (Ok(Some(shown)), Ok(Some(bundle))) => pair_shows(shown, bundle, derivation),
                (Ok(None), Ok(None)) => true,
                (Err(error), Err(expected)) => error == expected,
                _ => false,
            },
    {
        let ghost given = derivation;
        let session_id = match self.pair_session_of(run_id, accepted_planner_turn_event_id) {
            Ok(session_id) => session_id,
            Err(error) => return Err(error),
        };
        let events = match parallel_recon_exact_pair_committed_events(
            &self.log,
            session_id,
            run_id,
            accepted_planner_turn_event_id,
        ) {
            Ok(Some(events)) => events,
            Ok(None) => return Ok(None),
            Err(error) => return Err(error),
        };
        assert(crate::recon_bundle::referenced(events@).len() == events@.len());
        let authority = match parallel_recon_exact_pair_authority_from_committed(
            accepted_planner_turn_event_id,
            &events,
        ) {
            Ok(authority) => authority,
            Err(error) => return Err(error),
        };
        let PairDerivation { pair, children } = derivation;
        let pair = match pair {
            Ok(pair) => pair,
            Err(error) => return Err(error),
        };
        if !does_pair_fit(&pair, session_id, run_id, &authority.identities()) {
            return Err(StoreError::InvalidStateEvent);
        }
        match check_recorded_pair(&events, &pair) {
            Ok(()) => {},
            Err(error) => return Err(error),
        }
        match show_pair(&events, pair.policy_artifact, children, Ghost(given)) {
            Ok(shown) => Ok(Some(shown)),
            Err(error) => Err(error),
        }
    }
}

/// An issued pair is four events in a row, of one run: two authorizations, then the two work orders
/// under them, left before right, each with the identity that its authority fixed.
pub proof fn law_fresh_pairs_are_what_was_authorized(
    store: Store,
    session_id: SessionId,
    run_id: RunId,
    authority: ParallelReconExactPairIssuanceAuthority,
    fresh: FreshPair,
    bundle: Seq<EventEnvelope>,
)
    requires
        fresh_pair(store, session_id, run_id, authority.identities(), fresh) == Ok::<
            Seq<EventEnvelope>,
            StoreError,
        >(bundle),
    ensures
        bundle.len() == 4,
        bundle[1].sequence == bundle[0].sequence + 1,
        bundle[2].sequence == bundle[0].sequence + 2,
        bundle[3].sequence == bundle[0].sequence + 3,
        crate::history::next_sequence_of(store.log@, session_id) == Ok::<u64, StoreError>(
            bundle[0].sequence,
        ),
        bundle[0].id == authority.children@[0].authorization_event_id,
        bundle[1].id == authority.children@[1].authorization_event_id,
        bundle[2].id == authority.children@[0].issuance_event_id,
        bundle[3].id == authority.children@[1].issuance_event_id,
        bundle[0].payload matches EventPayload::ChildDelegationAuthorizedV2(left)
            && left.authorization_id == authority.children@[0].authorization_id
            && left.accepted_planner_turn_event_id == authority.accepted_planner_turn_event_id,
        bundle[1].payload matches EventPayload::ChildDelegationAuthorizedV2(right)
            && right.authorization_id == authority.children@[1].authorization_id
            && right.accepted_planner_turn_event_id == authority.accepted_planner_turn_event_id,
        bundle[2].payload matches EventPayload::ChildWorkOrderIssued(left)
            && left.authorization_event_id == bundle[0].id && left.spec.work_order_id
            == authority.children@[0].work_order_id,
        bundle[3].payload matches EventPayload::ChildWorkOrderIssued(right)
            && right.authorization_event_id == bundle[1].id && right.spec.work_order_id
            == authority.children@[1].work_order_id,
        forall|i: int|
            0 <= i < 4 ==> (#[trigger] bundle[i]).session_id == session_id && bundle[i].run_id
                == Some(run_id) && bundle[i].occurred_at == fresh.recorded_at@[i],
        fresh.guards@[0] is Ok,
        fresh.guards@[1] is Ok,
        forall|i: int| 0 <= i < 4 ==> (#[trigger] fresh.admissions@[i]) is Ok,
{
    reveal(fresh_pair);
    reveal(crate::recon_bundle::pair_fits);
    let pair = fresh.derived.pair->Ok_0;
    let base = crate::history::next_sequence_of(store.log@, session_id);
    assert(crate::parallel_recon_bootstrap::recorded_at_place(base, fresh.admissions@[3], 3) is Ok);
    assert(fresh.admissions@[0] is Ok && fresh.admissions@[1] is Ok && fresh.admissions@[2] is Ok);
    assert forall|i: int| 0 <= i < 4 implies (#[trigger] fresh.admissions@[i]) is Ok by {
        assert(i == 0 || i == 1 || i == 2 || i == 3);
    }
    assert forall|i: int| 0 <= i < 4 implies (#[trigger] bundle[i]).session_id == session_id
        && bundle[i].run_id == Some(run_id) && bundle[i].occurred_at == fresh.recorded_at@[i] by {
        assert(i == 0 || i == 1 || i == 2 || i == 3);
    }
}

/// What is shown of a pair is what was recorded: each child with its own authorization, its own work
/// order and its own projection.
pub proof fn law_pairs_are_shown_as_recorded(
    shown: ParallelReconExactPairRecovery,
    bundle: Seq<EventEnvelope>,
    derivation: PairDerivation,
)
    requires
        pair_shows(shown, bundle, derivation),
    ensures
        shown.children@[0].authorization_event == bundle[0],
        shown.children@[1].authorization_event == bundle[1],
        shown.children@[0].issuance_event == bundle[2],
        shown.children@[1].issuance_event == bundle[3],
        derivation.children matches Ok((left, right)) && *shown.children@[0].projection == left
            && *shown.children@[1].projection == right,
        derivation.pair matches Ok(pair) && shown.policy_artifact == pair.policy_artifact,
{
}

/// A pair on record is found only where its four events follow one another and were recorded in time:
/// by the deadline of the pair, and before the claim that it stands under expired.
pub proof fn law_found_pairs_are_whole_and_in_time(
    history: Seq<EventEnvelope>,
    session_id: SessionId,
    run_id: RunId,
    wanted: PairIdentities,
    bundle: Seq<EventEnvelope>,
    derivation: PairDerivation,
    i: int,
)
    requires
        found_pair(history, session_id, run_id, wanted, bundle, derivation) is Ok,
        0 <= i < 4,
    ensures
        bundle[1].sequence == bundle[0].sequence + 1,
        bundle[2].sequence == bundle[0].sequence + 2,
        bundle[3].sequence == bundle[0].sequence + 3,
        derivation.pair matches Ok(pair) && !pair.deadline.before(bundle[i].occurred_at)
            && bundle[i].occurred_at.before(pair.claim.lease_expires_at),
        derivation.children is Ok,
        bundle[0].id == wanted.left.authorization_event_id,
        bundle[1].id == wanted.right.authorization_event_id,
        bundle[2].id == wanted.left.issuance_event_id,
        bundle[3].id == wanted.right.issuance_event_id,
{
    reveal(crate::recon_bundle::pair_fits);
    let pair = derivation.pair->Ok_0;
    assert(crate::recon_bundle::in_time(bundle[i], pair));
}

/// A pair is recovered only for the first delegation of a reconnaissance run that may have two children.
pub proof fn law_pairs_come_from_a_first_delegation(
    store: Store,
    run_id: RunId,
    accepted_event_id: EventId,
)
    ensures
        pair_session(store, run_id, accepted_event_id) matches Ok(session_id) ==> {
            &&& store.run_record(run_id) matches Some(run) && run.spec.session_id == session_id
                && run.spec.purpose == RunPurpose::ParallelRepositoryReconnaissanceV1
                && run.spec.limits.max_subagents == 2
            &&& crate::planning_ground::event_of_run(
                store,
                session_id,
                run_id,
                accepted_event_id,
            ) matches Some(event) && (event.payload matches EventPayload::PlannerTurnAcceptedV1(
                accepted,
            ) && accepted.purpose == PlannerTurnPurposeV1::InitialDelegation)
        },
{
}

} // verus!

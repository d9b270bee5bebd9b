//! Recovery and bootstrap agree, a run never gets a second bootstrap, and neither takes up a pair
//! that was issued without its starts.

use vstd::prelude::*;
use crate::error::StoreError;
use crate::event::{EventEnvelope, NewEvent};
use crate::history::{EventQuery, PayloadFilter};
use crate::identity::{EventId, RunId, SessionId};
use crate::recon_bundle::{BootstrapDerivation, ChildRepositoryExplorerAttemptStartAuthority, FreshBootstrap, PairIdentities, ParallelReconBootstrapAuthority, ParallelReconExactPairChildIdentityAuthority};
use crate::recon_pair::{FreshPair, PairDerivation};
use crate::store::Store;

verus! {

/// Nothing is admitted where nothing is selected.
proof fn lemma_nothing_admitted(query: EventQuery, events: Seq<EventEnvelope>)
    requires
        query.rows(events).len() == 0,
    ensures
        forall|i: int| 0 <= i < events.len() ==> !query.admits(#[trigger] events[i]),
    decreases events.len(),
{
    reveal(Seq::filter);
    if events.len() > 0 {
        lemma_nothing_admitted(query, events.drop_last());
        assert forall|i: int| 0 <= i < events.len() implies !query.admits(#[trigger] events[i]) by {
            if i < events.len() - 1 {
                assert(events[i] == events.drop_last()[i]);
            }
        }
    }
}

/// What is admitted is selected.
proof fn lemma_selected(query: EventQuery, events: Seq<EventEnvelope>, event: EventEnvelope)
    requires
        events.contains(event),
        query.admits(event),
    ensures
        query.rows(events).contains(event),
    decreases events.len(),
{
    reveal(Seq::filter);
    let k = choose|k: int| 0 <= k < events.len() && events[k] == event;
    let shorter = query.rows(events.drop_last());
    if k < events.len() - 1 {
        assert(events.drop_last()[k] == event);
        lemma_selected(query, events.drop_last(), event);
        let i = choose|i: int| 0 <= i < shorter.len() && shorter[i] == event;
        assert(query.rows(events)[i] == event);
    } else {
        assert(query.rows(events)[shorter.len() as int] == event);
    }
}

/// A selection from six events, one after the other.
proof fn lemma_rows_of_six(query: EventQuery, bundle: Seq<EventEnvelope>)
    requires
        bundle.len() == 6,
    ensures
        query.rows(bundle) == taken(query, bundle[0]) + taken(query, bundle[1]) + taken(
            query,
            bundle[2],
        ) + taken(query, bundle[3]) + taken(query, bundle[4]) + taken(query, bundle[5]),
{
    reveal(Seq::filter);
    assert(query.rows(bundle.take(0)) =~= Seq::<EventEnvelope>::empty());
    crate::history::lemma_rows_step(query, bundle, 0);
    assert(query.rows(bundle.take(1)) =~= taken(query, bundle[0]));
    crate::history::lemma_rows_step(query, bundle, 1);
    assert(query.rows(bundle.take(2)) =~= query.rows(bundle.take(1)) + taken(query, bundle[1]));
    crate::history::lemma_rows_step(query, bundle, 2);
    assert(query.rows(bundle.take(3)) =~= query.rows(bundle.take(2)) + taken(query, bundle[2]));
    crate::history::lemma_rows_step(query, bundle, 3);
    assert(query.rows(bundle.take(4)) =~= query.rows(bundle.take(3)) + taken(query, bundle[3]));
    crate::history::lemma_rows_step(query, bundle, 4);
    assert(query.rows(bundle.take(5)) =~= query.rows(bundle.take(4)) + taken(query, bundle[4]));
    crate::history::lemma_rows_step(query, bundle, 5);
    assert(query.rows(bundle.take(6)) =~= query.rows(bundle.take(5)) + taken(query, bundle[5]));
    assert(bundle.take(6) =~= bundle);
}

spec fn taken(query: EventQuery, event: EventEnvelope) -> Seq<EventEnvelope> {
    if query.admits(event) {
        seq![event]
    } else {
        Seq::empty()
    }
}

/// Whether a bundle is a whole bootstrap of a run, recorded under these identities and no others.
pub open spec fn is_recorded_under(
    bundle: Seq<EventEnvelope>,
    session_id: SessionId,
    run_id: RunId,
    wanted: PairIdentities,
    left_start: ChildRepositoryExplorerAttemptStartAuthority,
    right_start: ChildRepositoryExplorerAttemptStartAuthority,
) -> bool {
    &&& crate::parallel_recon_bootstrap::whole_bootstrap(bundle, run_id)
    &&& bundle[0].session_id == session_id
    &&& is_pair_under(bundle, wanted)
    &&& crate::recon_recovery::start_identity_of(bundle[4]) == Ok::<
        ChildRepositoryExplorerAttemptStartAuthority,
        StoreError,
    >(left_start)
    &&& crate::recon_recovery::start_identity_of(bundle[5]) == Ok::<
        ChildRepositoryExplorerAttemptStartAuthority,
        StoreError,
    >(right_start)
}

/// Whether the first four events of a bundle are a pair that was recorded under these identities.
pub open spec fn is_pair_under(bundle: Seq<EventEnvelope>, wanted: PairIdentities) -> bool {
    &&& bundle[0].id == wanted.left.authorization_event_id
    &&& bundle[1].id == wanted.right.authorization_event_id
    &&& bundle[2].id == wanted.left.issuance_event_id
    &&& bundle[3].id == wanted.right.issuance_event_id
    &&& crate::recon_bundle::is_authorization_for(bundle[0].payload, wanted, wanted.left)
    &&& crate::recon_bundle::is_authorization_for(bundle[1].payload, wanted, wanted.right)
    &&& crate::recon_bundle::is_issuance_for(bundle[2].payload, wanted, wanted.left)
    &&& crate::recon_bundle::is_issuance_for(bundle[3].payload, wanted, wanted.right)
}

/// What records an authorization is one.
proof fn lemma_recorded_authorization(
    envelope: EventEnvelope,
    event: NewEvent,
    wanted: PairIdentities,
    child: ParallelReconExactPairChildIdentityAuthority,
)
    requires
        crate::recon_bundle::records(envelope, event),
        crate::recon_bundle::is_authorization_for(event.payload, wanted, child),
    ensures
        envelope.session_id == event.session_id,
        crate::recon_bundle::is_authorization_for(envelope.payload, wanted, child),
{
    reveal(crate::recon_bundle::records);
}

/// What records an issuance is one.
proof fn lemma_recorded_issuance(
    envelope: EventEnvelope,
    event: NewEvent,
    wanted: PairIdentities,
    child: ParallelReconExactPairChildIdentityAuthority,
)
    requires
        crate::recon_bundle::records(envelope, event),
        crate::recon_bundle::is_issuance_for(event.payload, wanted, child),
    ensures
        envelope.session_id == event.session_id,
        crate::recon_bundle::is_issuance_for(envelope.payload, wanted, child),
{
    reveal(crate::recon_bundle::records);
}

proof fn lemma_accepted_bundle(
    history: Seq<EventEnvelope>,
    session_id: SessionId,
    run_id: RunId,
    wanted: PairIdentities,
    left_start: ChildRepositoryExplorerAttemptStartAuthority,
    right_start: ChildRepositoryExplorerAttemptStartAuthority,
    bundle: Seq<EventEnvelope>,
    derivation: BootstrapDerivation,
)
    requires
        crate::recon_bundle::bundle_verdict(
            history,
            session_id,
            run_id,
            wanted,
            left_start,
            right_start,
            bundle,
            derivation,
        ) is Ok,
    ensures
        is_recorded_under(bundle, session_id, run_id, wanted, left_start, right_start),
{
    crate::parallel_recon_bootstrap::lemma_bundle_is_whole(
        history,
        session_id,
        run_id,
        wanted,
        left_start,
        right_start,
        bundle,
        derivation,
    );
    reveal(crate::recon_bundle::bundle_verdict);
    reveal(crate::recon_bundle::pair_fits);
    reveal(crate::recon_bundle::records_start);
    let pair = derivation.pair->Ok_0;
    lemma_recorded_authorization(bundle[0], pair.authorize_left.event, wanted, wanted.left);
    lemma_recorded_authorization(bundle[1], pair.authorize_right.event, wanted, wanted.right);
    lemma_recorded_issuance(bundle[2], pair.issue_left.event, wanted, wanted.left);
    lemma_recorded_issuance(bundle[3], pair.issue_right.event, wanted, wanted.right);
}

/// The bundle that an accepted bootstrap stands for is recorded under its authority.
proof fn lemma_bootstrap_is_recorded(
    store: Store,
    session_id: SessionId,
    run_id: RunId,
    authority: ParallelReconBootstrapAuthority,
    fresh: FreshBootstrap,
    recorded: BootstrapDerivation,
)
    requires
        crate::parallel_recon_bootstrap::fresh_bundle(
            store,
            session_id,
            run_id,
            authority,
            fresh,
            recorded,
        ) is Ok,
    ensures
        ({
            let bundle = crate::parallel_recon_bootstrap::fresh_bundle(
                store,
                session_id,
                run_id,
                authority,
                fresh,
                recorded,
            )->Ok_0;
            &&& is_recorded_under(
                bundle,
                session_id,
                run_id,
                authority.pair.identities(),
                authority.starts@[0],
                authority.starts@[1],
            )
            &&& crate::recon_bundle::bundle_verdict(
                store.log@ + bundle,
                session_id,
                run_id,
                authority.pair.identities(),
                authority.starts@[0],
                authority.starts@[1],
                bundle,
                recorded,
            ) is Ok
            &&& crate::recon_bundle::no_pair_yet(
                store.log@,
                session_id,
                run_id,
                authority.pair.accepted_planner_turn_event_id,
            )
            &&& crate::history::in_sequence(store.log@ + bundle)
            &&& crate::history::identities_distinct(store.log@ + bundle)
        }),
{
    reveal(crate::parallel_recon_bootstrap::fresh_bundle);
    reveal(crate::parallel_recon_bootstrap::fresh_base);
    reveal(crate::parallel_recon_bootstrap::closing_verdict);
    let bundle = crate::parallel_recon_bootstrap::fresh_bundle(
        store,
        session_id,
        run_id,
        authority,
        fresh,
        recorded,
    )->Ok_0;
    lemma_accepted_bundle(
        store.log@ + bundle,
        session_id,
        run_id,
        authority.pair.identities(),
        authority.starts@[0],
        authority.starts@[1],
        bundle,
        recorded,
    );
}

proof fn lemma_pair_is_found(
    before: Seq<EventEnvelope>,
    bundle: Seq<EventEnvelope>,
    session_id: SessionId,
    run_id: RunId,
    wanted: PairIdentities,
    accepted_event_id: EventId,
)
    requires
        crate::parallel_recon_bootstrap::whole_bootstrap(bundle, run_id),
        bundle[0].session_id == session_id,
        is_pair_under(bundle, wanted),
        wanted.accepted_planner_turn_event_id == accepted_event_id,
        crate::recon_bundle::no_pair_yet(before, session_id, run_id, accepted_event_id),
        bundle[0].id != bundle[1].id,
    ensures
        crate::recon_recovery::committed_pair(before + bundle, session_id, run_id, accepted_event_id) == Ok::<
            Option<Seq<EventEnvelope>>,
            StoreError,
        >(Some(seq![bundle[0], bundle[1], bundle[2], bundle[3]])),
{
    let under_turn = EventQuery::in_run(
        session_id,
        run_id,
        PayloadFilter::DelegationAuthorizedBy(accepted_event_id),
    );
    let issued = EventQuery::in_run(session_id, run_id, PayloadFilter::WorkOrderIssued);
    let left = EventQuery::in_run(
        session_id,
        run_id,
        PayloadFilter::WorkOrderIssuedUnder(bundle[0].id),
    );
    let right = EventQuery::in_run(
        session_id,
        run_id,
        PayloadFilter::WorkOrderIssuedUnder(bundle[1].id),
    );
    assert(bundle[0].session_id == bundle[1].session_id);
    assert(bundle[1].session_id == bundle[2].session_id);
    assert(bundle[2].session_id == bundle[3].session_id);
    crate::recon_bundle::lemma_rows_of_joined(under_turn, before, bundle);
    lemma_rows_of_six(under_turn, bundle);
    assert(under_turn.rows(before) =~= Seq::<EventEnvelope>::empty());
    assert(under_turn.rows(before + bundle) =~= seq![bundle[0], bundle[1]]);
    lemma_nothing_admitted(issued, before);
    assert forall|i: int| 0 <= i < before.len() implies !left.admits(#[trigger] before[i])
        && !right.admits(before[i]) by {
        assert(!issued.admits(before[i]));
    }
    crate::history::lemma_nothing_selected(left, before);
    crate::history::lemma_nothing_selected(right, before);
    crate::recon_bundle::lemma_rows_of_joined(left, before, bundle);
    crate::recon_bundle::lemma_rows_of_joined(right, before, bundle);
    lemma_rows_of_six(left, bundle);
    lemma_rows_of_six(right, bundle);
    assert(left.rows(before) =~= Seq::<EventEnvelope>::empty());
    assert(right.rows(before) =~= Seq::<EventEnvelope>::empty());
    assert(left.rows(before + bundle) =~= seq![bundle[2]]);
    assert(right.rows(before + bundle) =~= seq![bundle[3]]);
}

proof fn lemma_starts_are_found(
    before: Seq<EventEnvelope>,
    bundle: Seq<EventEnvelope>,
    run_id: RunId,
)
    requires
        crate::parallel_recon_bootstrap::whole_bootstrap(bundle, run_id),
        crate::history::in_sequence(before + bundle),
    ensures
        crate::recon_recovery::first_starts(before + bundle, seq![bundle[0], bundle[1], bundle[2], bundle[3]]) == Ok::<
            (EventEnvelope, EventEnvelope),
            StoreError,
        >((bundle[4], bundle[5])),
{
    let session_id = bundle[0].session_id;
    assert(bundle[0].sequence + 1 == bundle[1].sequence);
    assert(bundle[1].sequence + 1 == bundle[2].sequence);
    assert(bundle[2].sequence + 1 == bundle[3].sequence);
    assert(bundle[3].sequence + 1 == bundle[4].sequence);
    assert(bundle[4].sequence + 1 == bundle[5].sequence);
    assert(bundle[0].session_id == bundle[1].session_id);
    assert(bundle[1].session_id == bundle[2].session_id);
    assert(bundle[2].session_id == bundle[3].session_id);
    assert(bundle[3].session_id == bundle[4].session_id);
    assert(bundle[4].session_id == bundle[5].session_id);
    let left = EventQuery::in_run(session_id, run_id, PayloadFilter::Any).starting_at(
        bundle[4].sequence,
    );
    let right = EventQuery::in_run(session_id, run_id, PayloadFilter::Any).starting_at(
        bundle[5].sequence,
    );
    let joined = before + bundle;
    assert forall|i: int| 0 <= i < before.len() implies !left.admits(#[trigger] before[i])
        && !right.admits(before[i]) by {
        assert(joined[i] == before[i]);
        assert(joined[before.len() as int] == bundle[0]);
        if before[i].session_id == session_id {
            assert(joined[i].session_id == joined[before.len() as int].session_id);
            assert(joined[i].sequence < joined[before.len() as int].sequence);
        }
    }
    crate::history::lemma_nothing_selected(left, before);
    crate::history::lemma_nothing_selected(right, before);
    crate::recon_bundle::lemma_rows_of_joined(left, before, bundle);
    crate::recon_bundle::lemma_rows_of_joined(right, before, bundle);
    lemma_rows_of_six(left, bundle);
    lemma_rows_of_six(right, bundle);
    assert(left.rows(before) =~= Seq::<EventEnvelope>::empty());
    assert(right.rows(before) =~= Seq::<EventEnvelope>::empty());
    assert(left.rows(joined) =~= seq![bundle[4], bundle[5]]);
    assert(right.rows(joined) =~= seq![bundle[5]]);
}

/// Recovery finds what a bootstrap recorded: in the history that a first bootstrap leaves, recovery
/// under its accepted turn shows the six events that were recorded.
pub proof fn law_recovery_finds_the_bootstrap(
    store: Store,
    grown: Store,
    run_id: RunId,
    authority: ParallelReconBootstrapAuthority,
    fresh: FreshBootstrap,
    recorded: BootstrapDerivation,
)
    requires
        crate::parallel_recon_bootstrap::presence(
            store.log@,
            crate::recon_bundle::bootstrap_ids(authority),
        ) == Ok::<Option<Seq<EventEnvelope>>, StoreError>(None),
        crate::parallel_recon_bootstrap::bootstrap_verdict(
            store,
            run_id,
            authority,
            fresh,
            recorded,
        ) is Ok,
        crate::parallel_recon_bootstrap::only_grew(
            store,
            grown,
            crate::parallel_recon_bootstrap::bootstrap_verdict(
                store,
                run_id,
                authority,
                fresh,
                recorded,
            )->Ok_0,
        ),
    ensures
        crate::recon_recovery::recovered_bundle(
            grown,
            run_id,
            authority.pair.accepted_planner_turn_event_id,
            recorded,
        ) == Ok::<Option<Seq<EventEnvelope>>, StoreError>(
            Some(
                crate::parallel_recon_bootstrap::bootstrap_verdict(
                    store,
                    run_id,
                    authority,
                    fresh,
                    recorded,
                )->Ok_0,
            ),
        ),
{
    let session_id = crate::recon_recovery::recon_session(store, run_id)->Ok_0;
    let bundle = crate::parallel_recon_bootstrap::bootstrap_verdict(
        store,
        run_id,
        authority,
        fresh,
        recorded,
    )->Ok_0;
    let wanted = authority.pair.identities();
    let accepted = authority.pair.accepted_planner_turn_event_id;
    let before = store.log@;
    let joined = before + bundle;
    lemma_bootstrap_is_recorded(store, session_id, run_id, authority, fresh, recorded);
    assert(bundle[0].id != bundle[1].id) by {
        assert(joined[before.len() as int] == bundle[0]);
        assert(joined[before.len() as int + 1] == bundle[1]);
    }
    lemma_pair_is_found(before, bundle, session_id, run_id, wanted, accepted);
    lemma_starts_are_found(before, bundle, run_id);
    assert(seq![bundle[0], bundle[1], bundle[2], bundle[3]] + seq![bundle[4], bundle[5]]
        =~= bundle);
    assert(grown.run_record(run_id) == store.run_record(run_id));
    assert(crate::recon_recovery::named_identities(accepted, bundle) == wanted);
}

/// A part of a bootstrap is never completed: where one of the six events is recorded and another is
/// not, the bootstrap under these identities is refused.
pub proof fn law_partial_bootstrap_is_refused(
    store: Store,
    run_id: RunId,
    authority: ParallelReconBootstrapAuthority,
    fresh: FreshBootstrap,
    recorded: BootstrapDerivation,
    present: int,
    missing: int,
)
    requires
        0 <= present < 6,
        0 <= missing < 6,
        crate::parallel_recon_bootstrap::identified_events(
            store.log@,
            crate::recon_bundle::bootstrap_ids(authority),
        )[present] is Some,
        crate::parallel_recon_bootstrap::identified_events(
            store.log@,
            crate::recon_bundle::bootstrap_ids(authority),
        )[missing] is None,
    ensures
        crate::parallel_recon_bootstrap::bootstrap_verdict(
            store,
            run_id,
            authority,
            fresh,
            recorded,
        ) == Err::<Seq<EventEnvelope>, StoreError>(StoreError::InvalidStateEvent),
{
    reveal(crate::parallel_recon_bootstrap::presence);
    let found = crate::parallel_recon_bootstrap::identified_events(
        store.log@,
        crate::recon_bundle::bootstrap_ids(authority),
    );
    assert(found[present] is Some && found[missing] is None);
}

/// Whether a history holds the bootstrap that was recorded under an authority.
pub open spec fn holds_bootstrap(
    events: Seq<EventEnvelope>,
    session_id: SessionId,
    run_id: RunId,
    authority: ParallelReconBootstrapAuthority,
) -> bool {
    crate::parallel_recon_bootstrap::presence(
        events,
        crate::recon_bundle::bootstrap_ids(authority),
    ) matches Ok(Some(bundle)) && is_recorded_under(
        bundle,
        session_id,
        run_id,
        authority.pair.identities(),
        authority.starts@[0],
        authority.starts@[1],
    )
}

/// Whether two authorities name the same identities and clocks throughout.
pub open spec fn same_authority(
    first: ParallelReconBootstrapAuthority,
    second: ParallelReconBootstrapAuthority,
) -> bool {
    &&& first.pair.identities() == second.pair.identities()
    &&& first.starts@[0] == second.starts@[0]
    &&& first.starts@[1] == second.starts@[1]
}

/// Events that are found by their identities stand in the history.
proof fn lemma_present_is_recorded(
    events: Seq<EventEnvelope>,
    ids: Seq<EventId>,
    bundle: Seq<EventEnvelope>,
)
    requires
        crate::parallel_recon_bootstrap::presence(events, ids) == Ok::<
            Option<Seq<EventEnvelope>>,
            StoreError,
        >(Some(bundle)),
    ensures
        bundle.len() == ids.len(),
        forall|i: int| 0 <= i < bundle.len() ==> events.contains(#[trigger] bundle[i]),
{
    reveal(crate::parallel_recon_bootstrap::presence);
    let found = crate::parallel_recon_bootstrap::identified_events(events, ids);
    assert forall|i: int| 0 <= i < bundle.len() implies events.contains(#[trigger] bundle[i]) by {
        let query = crate::parallel_recon_bootstrap::anywhere(ids[i]);
        assert(found[i] == query.first_of(events));
        assert(found[i] is Some);
        crate::history::lemma_rows_admitted(query, events);
        assert(query.rows(events)[0] == bundle[i]);
    }
}

/// Two events of a session with the same sequence are one event.
proof fn lemma_one_event_per_sequence(
    events: Seq<EventEnvelope>,
    first: EventEnvelope,
    second: EventEnvelope,
)
    requires
        crate::history::in_sequence(events),
        events.contains(first),
        events.contains(second),
        first.session_id == second.session_id,
        first.sequence == second.sequence,
    ensures
        first == second,
{
    let i = choose|i: int| 0 <= i < events.len() && events[i] == first;
    let j = choose|j: int| 0 <= j < events.len() && events[j] == second;
    if i < j {
        assert(events[i].session_id == events[j].session_id);
    } else if j < i {
        assert(events[j].session_id == events[i].session_id);
    }
}

/// Two bundles of a run with only one pair of authorizations are one bundle.
proof fn lemma_one_bundle(
    events: Seq<EventEnvelope>,
    session_id: SessionId,
    run_id: RunId,
    first: Seq<EventEnvelope>,
    second: Seq<EventEnvelope>,
)
    requires
        crate::history::in_sequence(events),
        crate::parallel_recon_bootstrap::whole_bootstrap(first, run_id),
        crate::parallel_recon_bootstrap::whole_bootstrap(second, run_id),
        first[0].session_id == session_id,
        second[0].session_id == session_id,
        forall|i: int| 0 <= i < 6 ==> events.contains(#[trigger] first[i]),
        forall|i: int| 0 <= i < 6 ==> events.contains(#[trigger] second[i]),
        EventQuery::in_run(session_id, run_id, PayloadFilter::DelegationAuthorizedV2).rows(
            events,
        ).len() == 2,
    ensures
        first == second,
{
    let query = EventQuery::in_run(session_id, run_id, PayloadFilter::DelegationAuthorizedV2);
    let rows = query.rows(events);
    assert(first[0].session_id == first[1].session_id && first[0].sequence + 1
        == first[1].sequence);
    assert(second[0].session_id == second[1].session_id && second[0].sequence + 1
        == second[1].sequence);
    lemma_selected(query, events, first[0]);
    lemma_selected(query, events, first[1]);
    lemma_selected(query, events, second[0]);
    lemma_selected(query, events, second[1]);
    let a = choose|i: int| 0 <= i < rows.len() && rows[i] == first[0];
    let b = choose|i: int| 0 <= i < rows.len() && rows[i] == first[1];
    let c = choose|i: int| 0 <= i < rows.len() && rows[i] == second[0];
    let d = choose|i: int| 0 <= i < rows.len() && rows[i] == second[1];
    assert(a != b && c != d);
    assert(first[0] == second[0]);
    lemma_sequences_of_bundle(first);
    lemma_sequences_of_bundle(second);
    assert forall|i: int| 0 <= i < 6 implies first[i] == second[i] by {
        lemma_one_event_per_sequence(events, first[i], second[i]);
    }
    assert(first =~= second);
}

proof fn lemma_sequences_of_bundle(bundle: Seq<EventEnvelope>)
    requires
        crate::recon_bundle::contiguous_bundle(bundle),
    ensures
        forall|i: int|
            0 <= i < 6 ==> (#[trigger] bundle[i]).sequence == bundle[0].sequence + i
                && bundle[i].session_id == bundle[0].session_id,
{
    assert(bundle[0].sequence + 1 == bundle[1].sequence);
    assert(bundle[1].sequence + 1 == bundle[2].sequence);
    assert(bundle[2].sequence + 1 == bundle[3].sequence);
    assert(bundle[3].sequence + 1 == bundle[4].sequence);
    assert(bundle[4].sequence + 1 == bundle[5].sequence);
}

/// A run never gets a second bootstrap: once its history holds one, a bootstrap under any other
/// authority is refused, whatever was derived for it.
pub proof fn law_competing_bootstrap_is_refused(
    store: Store,
    run_id: RunId,
    standing: ParallelReconBootstrapAuthority,
    competing: ParallelReconBootstrapAuthority,
    fresh: FreshBootstrap,
    recorded: BootstrapDerivation,
)
    requires
        crate::history::in_sequence(store.log@),
        crate::recon_recovery::recon_session(store, run_id) matches Ok(session_id)
            && holds_bootstrap(store.log@, session_id, run_id, standing),
        !same_authority(standing, competing),
    ensures
        crate::parallel_recon_bootstrap::bootstrap_verdict(
            store,
            run_id,
            competing,
            fresh,
            recorded,
        ) is Err,
{
    let session_id = crate::recon_recovery::recon_session(store, run_id)->Ok_0;
    let events = store.log@;
    let ids = crate::recon_bundle::bootstrap_ids(standing);
    let first = crate::parallel_recon_bootstrap::presence(events, ids)->Ok_0->0;
    lemma_present_is_recorded(events, ids, first);
    let authorized = EventQuery::in_run(session_id, run_id, PayloadFilter::DelegationAuthorizedV2);
    lemma_selected(authorized, events, first[0]);
    let others = crate::recon_bundle::bootstrap_ids(competing);
    match crate::parallel_recon_bootstrap::presence(events, others) {
        Err(_) => {},
        Ok(None) => {
            reveal(crate::parallel_recon_bootstrap::fresh_bundle);
            reveal(crate::parallel_recon_bootstrap::fresh_base);
        },
        Ok(Some(second)) => {
            let wanted = competing.pair.identities();
            if crate::recon_bundle::bundle_verdict(
                events,
                session_id,
                run_id,
                wanted,
                competing.starts@[0],
                competing.starts@[1],
                second,
                recorded,
            ) is Ok {
                lemma_accepted_bundle(
                    events,
                    session_id,
                    run_id,
                    wanted,
                    competing.starts@[0],
                    competing.starts@[1],
                    second,
                    recorded,
                );
                lemma_present_is_recorded(events, others, second);
                assert(authorized.rows(events).len() == 2) by {
                    reveal(crate::recon_bundle::bundle_verdict);
                }
                lemma_one_bundle(events, session_id, run_id, first, second);
                assert(standing.pair.identities() == wanted);
            }
        },
    }
}

/// Recovery refuses a stranded pair: where a turn delegated a pair and no start of the run follows
/// right after it, nothing is recovered under that turn, and the refusal is told from an empty
/// history.
pub proof fn law_stranded_pair_is_not_recovered(
    store: Store,
    run_id: RunId,
    accepted_event_id: EventId,
    derivation: BootstrapDerivation,
)
    requires
        ({
            let session_id = crate::recon_recovery::recon_session(store, run_id)->Ok_0;
            &&& crate::recon_recovery::committed_pair(
                store.log@,
                session_id,
                run_id,
                accepted_event_id,
            ) matches Ok(Some(pair)) && match crate::recon_recovery::first_starts(
                store.log@,
                pair,
            ) {
                Ok((left, right)) => !(left.payload is ChildExecutionStarted)
                    || !(right.payload is ChildExecutionStarted),
                Err(_) => true,
            }
        }),
    ensures
        crate::recon_recovery::recovered_bundle(
            store,
            run_id,
            accepted_event_id,
            derivation,
        ) is Err,
{
    match crate::recon_recovery::recon_session(store, run_id) {
        Err(_) => {},
        Ok(session_id) => {
            let pair = crate::recon_recovery::committed_pair(
                store.log@,
                session_id,
                run_id,
                accepted_event_id,
            )->Ok_0->0;
            match crate::recon_recovery::first_starts(store.log@, pair) {
                Err(_) => {},
                Ok((left, right)) => {
                    let bundle = pair + seq![left, right];
                    assert(bundle[4] == left && bundle[5] == right);
                },
            }
        },
    }
}

/// An event is found by its identity.
proof fn lemma_found_by_identity(events: Seq<EventEnvelope>, k: int)
    requires
        0 <= k < events.len(),
        crate::history::identities_distinct(events),
    ensures
        crate::parallel_recon_bootstrap::anywhere(events[k].id).first_of(events) == Some(events[k]),
{
    let query = crate::parallel_recon_bootstrap::anywhere(events[k].id);
    crate::history::lemma_rows_admitted(query, events);
    if query.rows(events).len() == 0 {
        lemma_nothing_admitted(query, events);
        assert(!query.admits(events[k]));
    } else {
        let first = query.rows(events)[0];
        assert(query.admits(first) && events.contains(first));
        let j = choose|j: int| 0 <= j < events.len() && events[j] == first;
        if j < k {
            assert(events[j].id != events[k].id);
        } else if k < j {
            assert(events[k].id != events[j].id);
        }
    }
}

/// Events with the given identities are found where they stand in a history.
proof fn lemma_bundle_is_present(
    before: Seq<EventEnvelope>,
    bundle: Seq<EventEnvelope>,
    later: Seq<EventEnvelope>,
    ids: Seq<EventId>,
)
    requires
        crate::history::identities_distinct(before + bundle + later),
        bundle.len() == ids.len(),
        ids.len() > 0,
        forall|i: int| 0 <= i < ids.len() ==> (#[trigger] bundle[i]).id == ids[i],
    ensures
        crate::parallel_recon_bootstrap::presence(before + bundle + later, ids) == Ok::<
            Option<Seq<EventEnvelope>>,
            StoreError,
        >(Some(bundle)),
{
    reveal(crate::parallel_recon_bootstrap::presence);
    let joined = before + bundle + later;
    let found = crate::parallel_recon_bootstrap::identified_events(joined, ids);
    assert forall|i: int| 0 <= i < ids.len() implies #[trigger] found[i] == Some(bundle[i]) by {
        assert(joined[before.len() + i] == bundle[i]);
        lemma_found_by_identity(joined, before.len() + i);
    }
    assert(Seq::new(ids.len(), |i: int| found[i]->0) =~= bundle);
}

/// Whether a later replay of a bootstrap agrees with an earlier one: the pair, which is derived from
/// what precedes it, the first attempt of each child and the starts that are asked for are the same.
/// Where the children stand by then may differ.
pub open spec fn replays_alike(first: BootstrapDerivation, later: BootstrapDerivation) -> bool {
    &&& later.pair == first.pair
    &&& later.children is Ok
    &&& begins_alike(first.left_replay, later.left_replay)
    &&& begins_alike(first.right_replay, later.right_replay)
    &&& later.left_start == first.left_start
    &&& later.right_start == first.right_start
}

/// Whether two replays of a child begin with the same attempt.
pub open spec fn begins_alike(
    first: Result<crate::child_replay::ChildReplay, StoreError>,
    later: Result<crate::child_replay::ChildReplay, StoreError>,
) -> bool {
    match (first, later) {
        (Ok(first), Ok(later)) => {
            &&& first.attempts@.len() > 0
            &&& later.attempts@.len() > 0
            &&& later.attempts@[0].started_event_id == first.attempts@[0].started_event_id
            &&& later.attempts@[0].attempt_id == first.attempts@[0].attempt_id
            &&& later.attempts@[0].local_plan_id == first.attempts@[0].local_plan_id
            &&& later.attempts@[0].started_at == first.attempts@[0].started_at
        },
        _ => false,
    }
}

/// Whether none of some events delegates to a child of a run.
pub open spec fn delegates_nothing(
    events: Seq<EventEnvelope>,
    session_id: SessionId,
    run_id: RunId,
) -> bool {
    forall|i: int|
        0 <= i < events.len() && (#[trigger] events[i]).session_id == session_id && events[i].run_id
            == Some(run_id) ==> !(events[i].payload is ChildDelegationAuthorizedV2)
            && !(events[i].payload is ChildWorkOrderIssued)
}

proof fn lemma_still_one_pair(
    events: Seq<EventEnvelope>,
    later: Seq<EventEnvelope>,
    session_id: SessionId,
    run_id: RunId,
    accepted_event_id: EventId,
)
    requires
        crate::recon_bundle::exactly_one_pair(events, session_id, run_id, accepted_event_id),
        delegates_nothing(later, session_id, run_id),
    ensures
        crate::recon_bundle::exactly_one_pair(
            events + later,
            session_id,
            run_id,
            accepted_event_id,
        ),
{
    let authorized = EventQuery::in_run(session_id, run_id, PayloadFilter::DelegationAuthorizedV2);
    let under_turn = EventQuery::in_run(
        session_id,
        run_id,
        PayloadFilter::DelegationAuthorizedBy(accepted_event_id),
    );
    let issued = EventQuery::in_run(session_id, run_id, PayloadFilter::WorkOrderIssued);
    assert forall|i: int| 0 <= i < later.len() implies !authorized.admits(#[trigger] later[i])
        && !under_turn.admits(later[i]) && !issued.admits(later[i]) by {}
    crate::history::lemma_nothing_selected(authorized, later);
    crate::history::lemma_nothing_selected(under_turn, later);
    crate::history::lemma_nothing_selected(issued, later);
    crate::recon_bundle::lemma_rows_of_joined(authorized, events, later);
    crate::recon_bundle::lemma_rows_of_joined(under_turn, events, later);
    crate::recon_bundle::lemma_rows_of_joined(issued, events, later);
}

/// The same authority once more finds what it recorded: after a first bootstrap, and however the
/// history went on without delegating anew, the bootstrap under the same authority stands for the
/// very events that were recorded, and the history holds it.
pub proof fn law_bootstrap_is_found_again(
    store: Store,
    grown: Store,
    later: Seq<EventEnvelope>,
    run_id: RunId,
    authority: ParallelReconBootstrapAuthority,
    fresh: FreshBootstrap,
    recorded: BootstrapDerivation,
    again: FreshBootstrap,
    replayed: BootstrapDerivation,
)
    requires
        crate::parallel_recon_bootstrap::presence(
            store.log@,
            crate::recon_bundle::bootstrap_ids(authority),
        ) == Ok::<Option<Seq<EventEnvelope>>, StoreError>(None),
        crate::parallel_recon_bootstrap::bootstrap_verdict(
            store,
            run_id,
            authority,
            fresh,
            recorded,
        ) is Ok,
        grown.runs == store.runs,
        grown.log@ == store.log@ + crate::parallel_recon_bootstrap::bootstrap_verdict(
            store,
            run_id,
            authority,
            fresh,
            recorded,
        )->Ok_0 + later,
        crate::history::identities_distinct(grown.log@),
        delegates_nothing(
            later,
            crate::recon_recovery::recon_session(store, run_id)->Ok_0,
            run_id,
        ),
        replays_alike(recorded, replayed),
    ensures
        ({
            let bundle = crate::parallel_recon_bootstrap::bootstrap_verdict(
                store,
                run_id,
                authority,
                fresh,
                recorded,
            );
            &&& crate::parallel_recon_bootstrap::bootstrap_verdict(
                grown,
                run_id,
                authority,
                again,
                replayed,
            ) == bundle
            &&& crate::parallel_recon_bootstrap::presence(
                grown.log@,
                crate::recon_bundle::bootstrap_ids(authority),
            ) == Ok::<Option<Seq<EventEnvelope>>, StoreError>(Some(bundle->Ok_0))
            &&& crate::recon_recovery::recon_session(grown, run_id) matches Ok(session_id)
                && holds_bootstrap(grown.log@, session_id, run_id, authority)
        }),
{
    let session_id = crate::recon_recovery::recon_session(store, run_id)->Ok_0;
    let bundle = crate::parallel_recon_bootstrap::bootstrap_verdict(
        store,
        run_id,
        authority,
        fresh,
        recorded,
    )->Ok_0;
    let wanted = authority.pair.identities();
    let ids = crate::recon_bundle::bootstrap_ids(authority);
    lemma_bootstrap_is_recorded(store, session_id, run_id, authority, fresh, recorded);
    assert forall|i: int| 0 <= i < ids.len() implies (#[trigger] bundle[i]).id == ids[i] by {}
    lemma_bundle_is_present(store.log@, bundle, later, ids);
    assert(grown.run_record(run_id) == store.run_record(run_id));
    assert(crate::recon_bundle::exactly_one_pair(
        store.log@ + bundle,
        session_id,
        run_id,
        wanted.accepted_planner_turn_event_id,
    )) by {
        reveal(crate::recon_bundle::bundle_verdict);
    }
    lemma_still_one_pair(
        store.log@ + bundle,
        later,
        session_id,
        run_id,
        wanted.accepted_planner_turn_event_id,
    );
    reveal(crate::recon_bundle::bundle_verdict);
}

/// The bootstrap does not take up a pair that was issued without it: after the issuance of a pair,
/// the bootstrap under the same identities is refused as long as one of its starts is not recorded.
pub proof fn law_issued_pair_is_not_bootstrapped(
    store: Store,
    grown: Store,
    run_id: RunId,
    authority: ParallelReconBootstrapAuthority,
    issued: FreshPair,
    derivation: PairDerivation,
    fresh: FreshBootstrap,
    recorded: BootstrapDerivation,
)
    requires
        crate::parallel_recon_bootstrap::presence(
            store.log@,
            crate::recon_pair::pair_ids(authority.pair),
        ) == Ok::<Option<Seq<EventEnvelope>>, StoreError>(None),
        crate::recon_pair::issuance_verdict(
            store,
            run_id,
            authority.pair,
            issued,
            derivation,
        ) is Ok,
        crate::parallel_recon_bootstrap::only_grew(
            store,
            grown,
            crate::recon_pair::issuance_verdict(
                store,
                run_id,
                authority.pair,
                issued,
                derivation,
            )->Ok_0,
        ),
        crate::parallel_recon_bootstrap::anywhere(authority.starts@[0].event_id).first_of(
            grown.log@,
        ) is None || crate::parallel_recon_bootstrap::anywhere(
            authority.starts@[1].event_id,
        ).first_of(grown.log@) is None,
    ensures
        crate::parallel_recon_bootstrap::bootstrap_verdict(
            grown,
            run_id,
            authority,
            fresh,
            recorded,
        ) == Err::<Seq<EventEnvelope>, StoreError>(StoreError::InvalidStateEvent),
{
    reveal(crate::recon_pair::fresh_pair);
    reveal(crate::recon_bundle::pair_fits);
    let bundle = crate::recon_pair::issuance_verdict(
        store,
        run_id,
        authority.pair,
        issued,
        derivation,
    )->Ok_0;
    let joined = store.log@ + bundle;
    assert(joined[store.log@.len() as int] == bundle[0]);
    lemma_found_by_identity(joined, store.log@.len() as int);
    let found = crate::parallel_recon_bootstrap::identified_events(
        grown.log@,
        crate::recon_bundle::bootstrap_ids(authority),
    );
    assert(found[0] is Some);
    let missing: int = if found[4] is None {
        4
    } else {
        5
    };
    law_partial_bootstrap_is_refused(grown, run_id, authority, fresh, recorded, 0, missing);
}

/// What the issuance of a pair records is a pair under its identities, right where the session ended.
proof fn lemma_issued_pair(
    store: Store,
    session_id: SessionId,
    run_id: RunId,
    wanted: PairIdentities,
    fresh: FreshPair,
)
    requires
        crate::recon_pair::fresh_pair(store, session_id, run_id, wanted, fresh) is Ok,
    ensures
        ({
            let bundle = crate::recon_pair::fresh_pair(
                store,
                session_id,
                run_id,
                wanted,
                fresh,
            )->Ok_0;
            &&& bundle.len() == 4
            &&& is_pair_under(bundle, wanted)
            &&& forall|i: int|
                0 <= i < 4 ==> (#[trigger] bundle[i]).run_id == Some(run_id)
                    && bundle[i].session_id == session_id
            &&& bundle[3].sequence <= crate::history::MAX_SEQUENCE
            &&& crate::recon_bundle::no_pair_yet(
                store.log@,
                session_id,
                run_id,
                wanted.accepted_planner_turn_event_id,
            )
            &&& crate::history::in_sequence(store.log@ + bundle)
            &&& crate::history::identities_distinct(store.log@ + bundle)
            &&& bundle[0].id != bundle[1].id
        }),
{
    reveal(crate::recon_pair::fresh_pair);
    reveal(crate::recon_bundle::pair_fits);
    let bundle = crate::recon_pair::fresh_pair(store, session_id, run_id, wanted, fresh)->Ok_0;
    let joined = store.log@ + bundle;
    crate::parallel_recon_bootstrap::lemma_sequence_bounded(store.log@, session_id);
    assert(bundle[0].id != bundle[1].id) by {
        assert(joined[store.log@.len() as int] == bundle[0]);
        assert(joined[store.log@.len() as int + 1] == bundle[1]);
    }
}

/// Recovery of a pair finds what its issuance recorded: in the history that a first issuance
/// leaves, the pair of its accepted turn is the four events that were recorded.
pub proof fn law_recovery_finds_the_pair(
    store: Store,
    session_id: SessionId,
    run_id: RunId,
    wanted: PairIdentities,
    fresh: FreshPair,
)
    requires
        crate::recon_pair::fresh_pair(store, session_id, run_id, wanted, fresh) is Ok,
    ensures
        ({
            let bundle = crate::recon_pair::fresh_pair(
                store,
                session_id,
                run_id,
                wanted,
                fresh,
            )->Ok_0;
            crate::recon_recovery::committed_pair(
                store.log@ + bundle,
                session_id,
                run_id,
                wanted.accepted_planner_turn_event_id,
            ) == Ok::<Option<Seq<EventEnvelope>>, StoreError>(Some(bundle))
        }),
{
    let bundle = crate::recon_pair::fresh_pair(store, session_id, run_id, wanted, fresh)->Ok_0;
    lemma_issued_pair(store, session_id, run_id, wanted, fresh);
    lemma_four_are_found(store.log@, bundle, Seq::empty(), session_id, run_id, wanted);
    assert(store.log@ + bundle + Seq::<EventEnvelope>::empty() =~= store.log@ + bundle);
    assert(seq![bundle[0], bundle[1], bundle[2], bundle[3]] =~= bundle);
}

/// Four of the six events are no bootstrap: after the issuance of a pair, and however the history
/// went on without a start in the run, recovery under the accepted turn is refused. It is neither
/// empty nor recovered, whatever replay makes of it.
pub proof fn law_issued_pair_is_not_recovered(
    store: Store,
    grown: Store,
    later: Seq<EventEnvelope>,
    session_id: SessionId,
    run_id: RunId,
    wanted: PairIdentities,
    fresh: FreshPair,
    derivation: BootstrapDerivation,
)
    requires
        crate::recon_recovery::recon_session(store, run_id) == Ok::<SessionId, StoreError>(
            session_id,
        ),
        crate::recon_pair::fresh_pair(store, session_id, run_id, wanted, fresh) is Ok,
        grown.runs == store.runs,
        grown.log@ == store.log@ + crate::recon_pair::fresh_pair(
            store,
            session_id,
            run_id,
            wanted,
            fresh,
        )->Ok_0 + later,
        crate::history::in_sequence(grown.log@),
        forall|i: int|
            0 <= i < later.len() && (#[trigger] later[i]).run_id == Some(run_id) ==> !(
            later[i].payload is ChildExecutionStarted),
    ensures
        crate::recon_recovery::recovered_bundle(
            grown,
            run_id,
            wanted.accepted_planner_turn_event_id,
            derivation,
        ) == Err::<Option<Seq<EventEnvelope>>, StoreError>(StoreError::InvalidStateEvent),
{
    let bundle = crate::recon_pair::fresh_pair(store, session_id, run_id, wanted, fresh)->Ok_0;
    let accepted = wanted.accepted_planner_turn_event_id;
    let before = store.log@;
    let joined = grown.log@;
    lemma_issued_pair(store, session_id, run_id, wanted, fresh);
    assert(grown.run_record(run_id) == store.run_record(run_id));
    lemma_four_are_found(before, bundle, later, session_id, run_id, wanted);
    let pair = seq![bundle[0], bundle[1], bundle[2], bundle[3]];
    assert(pair =~= bundle);
    if crate::recon_recovery::committed_pair(joined, session_id, run_id, accepted) is Ok {
        let sequence = (bundle[3].sequence + 1) as u64;
        let next = EventQuery::in_run(session_id, run_id, PayloadFilter::Any).starting_at(sequence);
        match next.first_of(joined) {
            None => {},
            Some(left) => {
                crate::history::lemma_rows_admitted(next, joined);
                assert(next.rows(joined)[0] == left);
                let k = choose|k: int| 0 <= k < joined.len() && joined[k] == left;
                let end = before.len() + 3int;
                assert(joined[end] == bundle[3]);
                if k < end {
                    assert(joined[k].session_id == joined[end].session_id);
                }
                assert(later[k - before.len() - 4] == left);
            },
        }
    }
}

/// A selection from four events, one after the other.
proof fn lemma_rows_of_four(query: EventQuery, bundle: Seq<EventEnvelope>)
    requires
        bundle.len() == 4,
    ensures
        query.rows(bundle) == taken(query, bundle[0]) + taken(query, bundle[1]) + taken(
            query,
            bundle[2],
        ) + taken(query, bundle[3]),
{
    reveal(Seq::filter);
    assert(query.rows(bundle.take(0)) =~= Seq::<EventEnvelope>::empty());
    crate::history::lemma_rows_step(query, bundle, 0);
    assert(query.rows(bundle.take(1)) =~= taken(query, bundle[0]));
    crate::history::lemma_rows_step(query, bundle, 1);
    assert(query.rows(bundle.take(2)) =~= query.rows(bundle.take(1)) + taken(query, bundle[1]));
    crate::history::lemma_rows_step(query, bundle, 2);
    assert(query.rows(bundle.take(3)) =~= query.rows(bundle.take(2)) + taken(query, bundle[2]));
    crate::history::lemma_rows_step(query, bundle, 3);
    assert(query.rows(bundle.take(4)) =~= query.rows(bundle.take(3)) + taken(query, bundle[3]));
    assert(bundle.take(4) =~= bundle);
}

/// A pair at the end of a history, or earlier in it, is what is found under its turn, or nothing is
/// found because more was delegated since.
proof fn lemma_four_are_found(
    before: Seq<EventEnvelope>,
    bundle: Seq<EventEnvelope>,
    later: Seq<EventEnvelope>,
    session_id: SessionId,
    run_id: RunId,
    wanted: PairIdentities,
)
    requires
        bundle.len() == 4,
        forall|i: int|
            0 <= i < 4 ==> (#[trigger] bundle[i]).run_id == Some(run_id) && bundle[i].session_id
                == session_id,
        is_pair_under(bundle, wanted),
        crate::recon_bundle::no_pair_yet(
            before,
            session_id,
            run_id,
            wanted.accepted_planner_turn_event_id,
        ),
        bundle[0].id != bundle[1].id,
    ensures
        ({
            let found = crate::recon_recovery::committed_pair(
                before + bundle + later,
                session_id,
                run_id,
                wanted.accepted_planner_turn_event_id,
            );
            let pair = Ok::<Option<Seq<EventEnvelope>>, StoreError>(
                Some(seq![bundle[0], bundle[1], bundle[2], bundle[3]]),
            );
            &&& found == pair || found == Err::<Option<Seq<EventEnvelope>>, StoreError>(
                StoreError::InvalidStateEvent,
            )
            &&& later.len() == 0 ==> found == pair
        }),
{
    let accepted_event_id = wanted.accepted_planner_turn_event_id;
    let first = before + bundle;
    let under_turn = EventQuery::in_run(
        session_id,
        run_id,
        PayloadFilter::DelegationAuthorizedBy(accepted_event_id),
    );
    let issued = EventQuery::in_run(session_id, run_id, PayloadFilter::WorkOrderIssued);
    let left = EventQuery::in_run(
        session_id,
        run_id,
        PayloadFilter::WorkOrderIssuedUnder(bundle[0].id),
    );
    let right = EventQuery::in_run(
        session_id,
        run_id,
        PayloadFilter::WorkOrderIssuedUnder(bundle[1].id),
    );
    crate::recon_bundle::lemma_rows_of_joined(under_turn, before, bundle);
    lemma_rows_of_four(under_turn, bundle);
    assert(under_turn.rows(before) =~= Seq::<EventEnvelope>::empty());
    assert(under_turn.rows(first) =~= seq![bundle[0], bundle[1]]);
    lemma_nothing_admitted(issued, before);
    assert forall|i: int| 0 <= i < before.len() implies !left.admits(#[trigger] before[i])
        && !right.admits(before[i]) by {
        assert(!issued.admits(before[i]));
    }
    crate::history::lemma_nothing_selected(left, before);
    crate::history::lemma_nothing_selected(right, before);
    crate::recon_bundle::lemma_rows_of_joined(left, before, bundle);
    crate::recon_bundle::lemma_rows_of_joined(right, before, bundle);
    lemma_rows_of_four(left, bundle);
    lemma_rows_of_four(right, bundle);
    assert(left.rows(before) =~= Seq::<EventEnvelope>::empty());
    assert(right.rows(before) =~= Seq::<EventEnvelope>::empty());
    assert(left.rows(first) =~= seq![bundle[2]]);
    assert(right.rows(first) =~= seq![bundle[3]]);
    crate::recon_bundle::lemma_rows_of_joined(under_turn, first, later);
    crate::recon_bundle::lemma_rows_of_joined(left, first, later);
    crate::recon_bundle::lemma_rows_of_joined(right, first, later);
    let authorized = under_turn.rows(first + later);
    if authorized.len() == 2 {
        assert(authorized[0] == bundle[0] && authorized[1] == bundle[1]);
        if left.rows(first + later).len() == 1 && right.rows(first + later).len() == 1 {
            assert(left.rows(first + later)[0] == bundle[2]);
            assert(right.rows(first + later)[0] == bundle[3]);
        }
    }
    if later.len() == 0 {
        assert(first + later =~= first);
    }
}

} // verus!

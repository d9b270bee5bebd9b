//! Whether everything that a planner delegated was done.

use vstd::prelude::*;
use crate::child::ChildDelegationAuthorizedV2;
use crate::child_replay::{ChildRecoveryState, ChildWorkOrderProjection, ChildWorkOrderState};
use crate::error::StoreError;
use crate::event::{EventEnvelope, EventPayload};
use crate::history::{EventQuery, PayloadFilter};
use crate::identity::{
    ChildWorkOrderId, EventId, PlannerDelegateDirectiveId, PlannerTurnId, RunId, SessionId,
};
use crate::planner_turn::{PlannerAcceptedDelegationV1, PlannerDelegatedWorkOrderBindingV1};
use crate::store::Store;
use crate::text::{Same, Text};

verus! {

/// One child, as its history has it.
#[derive(Debug)]
pub struct ChildRead {
    pub work_order_id: ChildWorkOrderId,
    pub projection: Result<Option<ChildWorkOrderProjection>, StoreError>,
}

/// What was read of one child.
pub open spec fn child_read(reads: Seq<ChildRead>, work_order_id: ChildWorkOrderId) -> Option<
    ChildRead,
>
    decreases reads.len(),
{
    if reads.len() == 0 {
        None
    } else if reads[0].work_order_id == work_order_id {
        Some(reads[0])
    } else {
        child_read(reads.drop_first(), work_order_id)
    }
}

fn find_child<'a>(reads: &'a Vec<ChildRead>, work_order_id: ChildWorkOrderId) -> (r: Option<
    &'a ChildRead,
>)
    ensures
        child_read(reads@, work_order_id) == (match r {
            Some(found) => Some(*found),
            None => None,
        }),
{
    let mut i: usize = 0;
    assert(reads@.skip(0) =~= reads@);
    while i < reads.len()
        invariant
            i <= reads@.len(),
            child_read(reads@, work_order_id) == child_read(reads@.skip(i as int), work_order_id),
        decreases reads.len() - i,
    {
        assert(reads@.skip(i as int).drop_first() =~= reads@.skip(i + 1));
        if reads[i].work_order_id == work_order_id {
            return Some(&reads[i]);
        }
        i += 1;
    }
    None
}

/// One work order that was delegated, and under which directive.
#[derive(Clone, Copy, Debug)]
pub struct DelegatedWorkOrder<'a> {
    pub directive_id: PlannerDelegateDirectiveId,
    pub work_order: &'a PlannerDelegatedWorkOrderBindingV1,
}

/// The work orders of one delegation.
pub open spec fn orders_of<'a>(delegation: PlannerAcceptedDelegationV1) -> Seq<
    DelegatedWorkOrder<'a>,
> {
    delegation.work_orders@.map_values(
        |work_order: PlannerDelegatedWorkOrderBindingV1|
            DelegatedWorkOrder { directive_id: delegation.directive_id, work_order: &work_order },
    )
}

/// The work orders of the first `n` delegations.
pub open spec fn delegated_orders<'a>(
    delegations: Seq<PlannerAcceptedDelegationV1>,
    n: nat,
) -> Seq<DelegatedWorkOrder<'a>>
    decreases n,
{
    if n == 0 {
        Seq::empty()
    } else {
        delegated_orders(delegations, (n - 1) as nat) + orders_of(delegations[n - 1])
    }
}

/// Whether no work order is delegated twice.
pub open spec fn orders_differ(orders: Seq<DelegatedWorkOrder>) -> bool {
    forall|i: int, j: int|
        0 <= i < j < orders.len() ==> (#[trigger] orders[i]).work_order.work_order_id@ != (
        #[trigger] orders[j]).work_order.work_order_id@
}

/// The place of the work order with a name, from one place on.
pub open spec fn order_position(
    orders: Seq<DelegatedWorkOrder>,
    name: Seq<char>,
    from: int,
) -> Option<int>
    decreases orders.len() - from,
{
    if from < 0 || from >= orders.len() {
        None
    } else if orders[from].work_order.work_order_id@ == name {
        Some(from)
    } else {
        order_position(orders, name, from + 1)
    }
}

fn find_order(orders: &Vec<DelegatedWorkOrder>, name: &Text) -> (r: Option<usize>)
    ensures
        order_position(orders@, name@, 0) == (match r {
            Some(position) => Some(position as int),
            None => None,
        }),
        r matches Some(position) ==> position < orders@.len()
            && orders@[position as int].work_order.work_order_id@ == name@,
        r is None ==> forall|i: int|
            0 <= i < orders@.len() ==> (#[trigger] orders@[i]).work_order.work_order_id@ != name@,
{
    let mut i: usize = 0;
    while i < orders.len()
        invariant
            i <= orders@.len(),
            order_position(orders@, name@, 0) == order_position(orders@, name@, i as int),
            forall|j: int|
                0 <= j < i ==> (#[trigger] orders@[j]).work_order.work_order_id@ != name@,
        decreases orders.len() - i,
    {
        if orders[i].work_order.work_order_id == *name {
            return Some(i);
        }
        i += 1;
    }
    None
}

proof fn lemma_orders_prefix(delegations: Seq<PlannerAcceptedDelegationV1>, n: nat, m: nat)
    requires
        n <= m,
    ensures
        delegated_orders(delegations, n).len() <= delegated_orders(delegations, m).len(),
        delegated_orders(delegations, m).take(delegated_orders(delegations, n).len() as int)
            == delegated_orders(delegations, n),
    decreases m,
{
    let first = delegated_orders(delegations, n);
    if n < m {
        lemma_orders_prefix(delegations, n, (m - 1) as nat);
        let shorter = delegated_orders(delegations, (m - 1) as nat);
        assert(delegated_orders(delegations, m).take(first.len() as int) =~= shorter.take(
            first.len() as int,
        ));
    } else {
        assert(first.take(first.len() as int) =~= first);
    }
}

/// The work orders that were delegated; nothing, where one was delegated twice.
fn list_orders<'a>(delegations: &'a Vec<PlannerAcceptedDelegationV1>) -> (r: Option<
    Vec<DelegatedWorkOrder<'a>>,
>)
    ensures
        r is Some <==> orders_differ(delegated_orders(delegations@, delegations@.len())),
        r matches Some(orders) ==> orders@ == delegated_orders(delegations@, delegations@.len()),
{
    let mut orders: Vec<DelegatedWorkOrder<'a>> = Vec::new();
    let mut n: usize = 0;
    let ghost all = delegated_orders(delegations@, delegations@.len());
    while n < delegations.len()
        invariant
            n <= delegations@.len(),
            all == delegated_orders(delegations@, delegations@.len()),
            orders@ == delegated_orders(delegations@, n as nat),
            orders_differ(orders@),
        decreases delegations.len() - n,
    {
        let delegation = &delegations[n];
        let mut k: usize = 0;
        let ghost before = orders@;
        proof {
            lemma_orders_prefix(delegations@, (n + 1) as nat, delegations@.len());
        }
        while k < delegation.work_orders.len()
            invariant
                k <= delegation.work_orders@.len(),
                n < delegations@.len(),
                *delegation == delegations@[n as int],
                before == delegated_orders(delegations@, n as nat),
                all.take(delegated_orders(delegations@, (n + 1) as nat).len() as int)
                    == delegated_orders(delegations@, (n + 1) as nat),
                delegated_orders(delegations@, (n + 1) as nat).len() <= all.len(),
                all == delegated_orders(delegations@, delegations@.len()),
                orders@ == before + orders_of(*delegation).take(k as int),
                orders_differ(orders@),
            decreases delegation.work_orders.len() - k,
        {
            let work_order = &delegation.work_orders[k];
            let order = DelegatedWorkOrder { directive_id: delegation.directive_id, work_order };
            proof {
                let here = delegated_orders(delegations@, (n + 1) as nat);
                assert(here == before + orders_of(*delegation));
                assert(orders@.push(order) =~= here.take(orders@.len() as int + 1));
                assert(forall|i: int| 0 <= i < here.len() ==> here[i] == all[i]) by {
                    assert forall|i: int| 0 <= i < here.len() implies here[i] == all[i] by {
                        assert(all.take(here.len() as int)[i] == all[i]);
                    }
                }
            }
            match find_order(&orders, &work_order.work_order_id) {
                Some(i) => {
                    assert(all[i as int].work_order.work_order_id@ == all[orders@.len() as int].work_order.work_order_id@);
                    return None;
                },
                None => {},
            }
            orders.push(order);
            assert(orders@ =~= before + orders_of(*delegation).take(k + 1));
            k += 1;
        }
        assert(orders_of(*delegation).take(k as int) =~= orders_of(*delegation));
        n += 1;
    }
    Some(orders)
}

/// Whether two events are the same in everything.
#[verifier::opaque]
pub open spec fn same_event(first: EventEnvelope, second: EventEnvelope) -> bool {
    first.same(&second)
}

/// Whether two events are the same in everything.
pub fn is_same_event(first: &EventEnvelope, second: &EventEnvelope) -> (r: bool)
    ensures
        r == same_event(*first, *second),
{
    proof {
        reveal(same_event);
    }
    *first == *second
}

/// The authorization in an authorization event.
pub open spec fn authorization_in(event: EventEnvelope) -> Option<ChildDelegationAuthorizedV2> {
    match event.payload {
        EventPayload::ChildDelegationAuthorizedV2(authorization) => Some(authorization),
        _ => None,
    }
}

/// Whether an authorization is for a work order that was delegated, and comes after the acceptance
/// that delegated it.
pub open spec fn authorizes_order(
    event: EventEnvelope,
    authorization: ChildDelegationAuthorizedV2,
    accepted_event_id: EventId,
    accepted_event_sequence: u64,
    planner_turn_id: PlannerTurnId,
    order: DelegatedWorkOrder,
) -> bool {
    &&& event.sequence > accepted_event_sequence
    &&& authorization.accepted_planner_turn_event_id == accepted_event_id
    &&& authorization.planner_turn_id == planner_turn_id
    &&& authorization.delegate_directive_id == order.directive_id
    &&& authorization.planner_work_order.same(order.work_order)
}

/// The authorizations that rest on an acceptance.
pub open spec fn authorizations(
    store: Store,
    session_id: SessionId,
    run_id: RunId,
    accepted_event_id: EventId,
) -> Seq<EventEnvelope> {
    EventQuery::in_run(
        session_id,
        run_id,
        PayloadFilter::DelegationAuthorizedBy(accepted_event_id),
    ).rows(store.log@)
}

/// The issuances under one authorization.
pub open spec fn issuances(
    store: Store,
    session_id: SessionId,
    run_id: RunId,
    authorization_event_id: EventId,
) -> Seq<EventEnvelope> {
    EventQuery::in_run(
        session_id,
        run_id,
        PayloadFilter::WorkOrderIssuedUnder(authorization_event_id),
    ).rows(store.log@)
}

/// Whether a child is done: it is the one that was issued, it ended, and nothing is left to do.
pub open spec fn child_is_done(
    projection: ChildWorkOrderProjection,
    issued_event: EventEnvelope,
    authorization: ChildDelegationAuthorizedV2,
) -> bool {
    &&& same_event(projection.issued_event, issued_event)
    &&& projection.spec.same(&authorization.spec)
    &&& projection.state == ChildWorkOrderState::Succeeded || projection.state
        == ChildWorkOrderState::Failed || projection.state == ChildWorkOrderState::Cancelled
    &&& projection.recovery is Terminal
}

fn checks_child_done(
    projection: &ChildWorkOrderProjection,
    issued_event: &EventEnvelope,
    authorization: &ChildDelegationAuthorizedV2,
) -> (r: bool)
    ensures
        r == child_is_done(*projection, *issued_event, *authorization),
{
    let ended = match projection.recovery {
        ChildRecoveryState::Terminal { .. } => true,
        _ => false,
    };
    is_same_event(&projection.issued_event, issued_event) && projection.spec == authorization.spec
        && (projection.state == ChildWorkOrderState::Succeeded || projection.state
        == ChildWorkOrderState::Failed || projection.state == ChildWorkOrderState::Cancelled)
        && ended
}

/// Whether an issuance repeats its authorization and comes after it.
pub open spec fn repeats_authorization(
    issued: EventEnvelope,
    event: EventEnvelope,
    authorization: ChildDelegationAuthorizedV2,
) -> bool {
    issued.payload matches EventPayload::ChildWorkOrderIssued(issuance) && issued.sequence
        > event.sequence && issuance.authorization_event_id == event.id && issuance.spec.same(
        &authorization.spec,
    )
}

/// Whether an authorization is for one of the work orders, fits it, and has at most one issuance,
/// which repeats it.
pub open spec fn authorization_fits(
    store: Store,
    session_id: SessionId,
    run_id: RunId,
    event: EventEnvelope,
    accepted_event_id: EventId,
    accepted_event_sequence: u64,
    planner_turn_id: PlannerTurnId,
    orders: Seq<DelegatedWorkOrder>,
) -> bool {
    authorization_in(event) matches Some(authorization) && {
        let issued = issuances(store, session_id, run_id, event.id);
        &&& order_position(orders, authorization.planner_work_order.work_order_id@, 0) matches Some(
            position,
        ) && authorizes_order(
            event,
            authorization,
            accepted_event_id,
            accepted_event_sequence,
            planner_turn_id,
            orders[position],
        )
        &&& issued.len() <= 1
        &&& issued.len() == 1 ==> repeats_authorization(issued[0], event, authorization)
    }
}

fn does_authorization_fit(
    store: &Store,
    session_id: SessionId,
    run_id: RunId,
    event: &EventEnvelope,
    accepted_event_id: EventId,
    accepted_event_sequence: u64,
    planner_turn_id: PlannerTurnId,
    orders: &Vec<DelegatedWorkOrder>,
) -> (r: bool)
    ensures
        r == authorization_fits(
            *store,
            session_id,
            run_id,
            *event,
            accepted_event_id,
            accepted_event_sequence,
            planner_turn_id,
            orders@,
        ),
{
    let authorization = match &event.payload {
        EventPayload::ChildDelegationAuthorizedV2(authorization) => authorization,
        _ => return false,
    };
    let i: usize = match find_order(orders, &authorization.planner_work_order.work_order_id) {
        Some(i) => i,
        None => return false,
    };
    let order = orders[i];
    if event.sequence <= accepted_event_sequence || authorization.accepted_planner_turn_event_id
        != accepted_event_id || authorization.planner_turn_id != planner_turn_id
        || authorization.delegate_directive_id != order.directive_id
        || authorization.planner_work_order != *order.work_order {
        return false;
    }
    let issued = store.log.select(
        &EventQuery::in_run(session_id, run_id, PayloadFilter::WorkOrderIssuedUnder(event.id)),
    );
    if issued.len() == 0 {
        return true;
    }
    if issued.len() > 1 {
        return false;
    }
    let issued_event = issued[0];
    assert(*issued_event == issuances(*store, session_id, run_id, event.id)[0]);
    match &issued_event.payload {
        EventPayload::ChildWorkOrderIssued(issuance) => issued_event.sequence > event.sequence
            && issuance.authorization_event_id == event.id && issuance.spec == authorization.spec,
        _ => false,
    }
}

/// The name of the work order that an event authorizes.
pub open spec fn authorized_name(event: EventEnvelope) -> Option<Seq<char>> {
    match authorization_in(event) {
        Some(authorization) => Some(authorization.planner_work_order.work_order_id@),
        None => None,
    }
}

/// Whether no work order is authorized twice.
pub open spec fn authorized_once(rows: Seq<EventEnvelope>) -> bool {
    forall|i: int, j: int|
        0 <= i < j < rows.len() ==> authorized_name(#[trigger] rows[i]) != authorized_name(
            #[trigger] rows[j],
        )
}

/// Whether the authority that rests on an acceptance is sound: each authorization fits, and no work
/// order is authorized twice.
pub open spec fn authority_is_sound(
    store: Store,
    session_id: SessionId,
    run_id: RunId,
    rows: Seq<EventEnvelope>,
    accepted_event_id: EventId,
    accepted_event_sequence: u64,
    planner_turn_id: PlannerTurnId,
    orders: Seq<DelegatedWorkOrder>,
) -> bool {
    &&& forall|i: int|
        0 <= i < rows.len() ==> authorization_fits(
            store,
            session_id,
            run_id,
            #[trigger] rows[i],
            accepted_event_id,
            accepted_event_sequence,
            planner_turn_id,
            orders,
        )
    &&& authorized_once(rows)
}

fn is_authorized_before(rows: &Vec<&EventEnvelope>, n: usize, name: &Text) -> (r: bool)
    requires
        n <= rows@.len(),
    ensures
        r == (exists|i: int|
            0 <= i < n && authorized_name(*#[trigger] rows@[i]) == Some(name@)),
{
    let mut i: usize = 0;
    while i < n
        invariant
            i <= n <= rows@.len(),
            forall|j: int| 0 <= j < i ==> authorized_name(*#[trigger] rows@[j]) != Some(name@),
        decreases n - i,
    {
        if let EventPayload::ChildDelegationAuthorizedV2(authorization) = &rows[i].payload {
            if authorization.planner_work_order.work_order_id == *name {
                assert(authorized_name(*rows@[i as int]) == Some(name@));
                return true;
            }
        }
        i += 1;
    }
    false
}

fn is_authority_sound(
    store: &Store,
    session_id: SessionId,
    run_id: RunId,
    rows: &Vec<&EventEnvelope>,
    events: Ghost<Seq<EventEnvelope>>,
    accepted_event_id: EventId,
    accepted_event_sequence: u64,
    planner_turn_id: PlannerTurnId,
    orders: &Vec<DelegatedWorkOrder>,
) -> (r: bool)
    requires
        rows@.len() == events@.len(),
        forall|j: int| 0 <= j < rows@.len() ==> *#[trigger] rows@[j] == events@[j],
    ensures
        r == authority_is_sound(
            *store,
            session_id,
            run_id,
            events@,
            accepted_event_id,
            accepted_event_sequence,
            planner_turn_id,
            orders@,
        ),
{
    let mut i: usize = 0;
    while i < rows.len()
        invariant
            i <= rows@.len(),
            rows@.len() == events@.len(),
            forall|j: int| 0 <= j < rows@.len() ==> *#[trigger] rows@[j] == events@[j],
            authority_is_sound(
                *store,
                session_id,
                run_id,
                events@.take(i as int),
                accepted_event_id,
                accepted_event_sequence,
                planner_turn_id,
                orders@,
            ),
        decreases rows.len() - i,
    {
        let event = rows[i];
        assert(*event == events@[i as int]);
        if !does_authorization_fit(
            store,
            session_id,
            run_id,
            event,
            accepted_event_id,
            accepted_event_sequence,
            planner_turn_id,
            orders,
        ) {
            return false;
        }
        if let EventPayload::ChildDelegationAuthorizedV2(authorization) = &event.payload {
            if is_authorized_before(rows, i, &authorization.planner_work_order.work_order_id) {
                proof {
                    let k = choose|k: int|
                        0 <= k < i && authorized_name(*#[trigger] rows@[k]) == authorized_name(
                            *event,
                        );
                    assert(authorized_name(*rows@[k]) == authorized_name(*event));
                    assert(authorized_name(events@[k]) == authorized_name(events@[i as int]));
                }
                return false;
            }
            assert forall|j: int| 0 <= j < i implies authorized_name(#[trigger] events@[j])
                != authorized_name(events@[i as int]) by {
                assert(*rows@[j] == events@[j]);
            }
        }
        proof {
            let longer = events@.take(i + 1);
            assert forall|j: int| 0 <= j < longer.len() implies authorization_fits(
                *store,
                session_id,
                run_id,
                #[trigger] longer[j],
                accepted_event_id,
                accepted_event_sequence,
                planner_turn_id,
                orders@,
            ) by {
                if j < i {
                    assert(events@.take(i as int)[j] == longer[j]);
                }
            }
            assert forall|j: int, k: int| 0 <= j < k < longer.len() implies authorized_name(
                #[trigger] longer[j],
            ) != authorized_name(#[trigger] longer[k]) by {
                if k < i {
                    assert(events@.take(i as int)[j] == longer[j]);
                    assert(events@.take(i as int)[k] == longer[k]);
                } else {
                    assert(longer[j] == events@[j]);
                }
            }
        }
        i += 1;
    }
    assert(events@.take(i as int) =~= events@);
    true
}

/// Whether what an authorization gave out is done: it was issued, and its child ended.
pub open spec fn issuance_done(
    store: Store,
    session_id: SessionId,
    run_id: RunId,
    event: EventEnvelope,
    children: Seq<ChildRead>,
) -> Result<bool, StoreError> {
    let issued = issuances(store, session_id, run_id, event.id);
    match authorization_in(event) {
        None => Err(StoreError::InvalidStateEvent),
        Some(authorization) => if issued.len() == 0 {
            Ok(false)
        } else {
            match child_read(children, authorization.spec.work_order_id) {
                None => Err(StoreError::InvalidStateEvent),
                Some(child) => match child.projection {
                    Err(error) => Err(error),
                    Ok(None) => Ok(false),
                    Ok(Some(projection)) => Ok(child_is_done(projection, issued[0], authorization)),
                },
            }
        },
    }
}

fn is_issuance_done(
    store: &Store,
    session_id: SessionId,
    run_id: RunId,
    event: &EventEnvelope,
    children: &Vec<ChildRead>,
) -> (r: Result<bool, StoreError>)
    ensures
        r == issuance_done(*store, session_id, run_id, *event, children@),
{
    let authorization = match &event.payload {
        EventPayload::ChildDelegationAuthorizedV2(authorization) => authorization,
        _ => return Err(StoreError::InvalidStateEvent),
    };
    let issued = store.log.select(
        &EventQuery::in_run(session_id, run_id, PayloadFilter::WorkOrderIssuedUnder(event.id)),
    );
    if issued.len() == 0 {
        return Ok(false);
    }
    let issued_event = issued[0];
    assert(*issued_event == issuances(*store, session_id, run_id, event.id)[0]);
    let child = match find_child(children, authorization.spec.work_order_id) {
        Some(child) => child,
        None => return Err(StoreError::InvalidStateEvent),
    };
    match &child.projection {
        Err(error) => Err(*error),
        Ok(None) => Ok(false),
        Ok(Some(projection)) => Ok(checks_child_done(projection, issued_event, authorization)),
    }
}

/// Whether what the authorizations from `i` on gave out is all done; the first that is not done, or
/// whose child cannot be read, decides.
pub open spec fn issuances_done(
    store: Store,
    session_id: SessionId,
    run_id: RunId,
    rows: Seq<EventEnvelope>,
    i: int,
    children: Seq<ChildRead>,
) -> Result<bool, StoreError>
    decreases rows.len() - i,
{
    if i < 0 || i >= rows.len() {
        Ok(true)
    } else {
        match issuance_done(store, session_id, run_id, rows[i], children) {
            Ok(true) => issuances_done(store, session_id, run_id, rows, i + 1, children),
            other => other,
        }
    }
}

/// Whether everything that an acceptance delegated is done: each work order was authorized once and
/// issued once, and its child ended. Nothing delegated, a work order delegated twice, or authority
/// that is not sound is refused, whatever else is still to be done.
pub open spec fn delegates_done(
    store: Store,
    session_id: SessionId,
    run_id: RunId,
    accepted_event_id: EventId,
    accepted_event_sequence: u64,
    planner_turn_id: PlannerTurnId,
    delegations: Seq<PlannerAcceptedDelegationV1>,
    children: Seq<ChildRead>,
) -> Result<bool, StoreError> {
    let orders = delegated_orders(delegations, delegations.len());
    let rows = authorizations(store, session_id, run_id, accepted_event_id);
    if !orders_differ(orders) || orders.len() == 0 || !authority_is_sound(
        store,
        session_id,
        run_id,
        rows,
        accepted_event_id,
        accepted_event_sequence,
        planner_turn_id,
        orders,
    ) {
        Err(StoreError::InvalidStateEvent)
    } else {
        match issuances_done(store, session_id, run_id, rows, 0, children) {
            Ok(true) => Ok(rows.len() == orders.len()),
            other => other,
        }
    }
}

/// Whether everything that an acceptance delegated is done.
pub fn accepted_delegate_children_are_terminal(
    store: &Store,
    session_id: SessionId,
    run_id: RunId,
    accepted_event_id: EventId,
    accepted_event_sequence: u64,
    planner_turn_id: PlannerTurnId,
    delegations: &Vec<PlannerAcceptedDelegationV1>,
    children: &Vec<ChildRead>,
) -> (r: Result<bool, StoreError>)
    ensures
        r == delegates_done(
            *store,
            session_id,
            run_id,
            accepted_event_id,
            accepted_event_sequence,
            planner_turn_id,
            delegations@,
            children@,
        ),
{
    let orders = match list_orders(delegations) {
        Some(orders) => orders,
        None => return Err(StoreError::InvalidStateEvent),
    };
    if orders.len() == 0 {
        return Err(StoreError::InvalidStateEvent);
    }
    let query = EventQuery::in_run(
        session_id,
        run_id,
        PayloadFilter::DelegationAuthorizedBy(accepted_event_id),
    );
    let rows = store.log.select(&query);
    let ghost events = authorizations(*store, session_id, run_id, accepted_event_id);
    if !is_authority_sound(
        store,
        session_id,
        run_id,
        &rows,
        Ghost(events),
        accepted_event_id,
        accepted_event_sequence,
        planner_turn_id,
        &orders,
    ) {
        return Err(StoreError::InvalidStateEvent);
    }
    let mut i: usize = 0;
    while i < rows.len()
        invariant
            i <= rows@.len(),
            rows@.len() == events.len(),
            forall|j: int| 0 <= j < rows@.len() ==> *#[trigger] rows@[j] == events[j],
            events == authorizations(*store, session_id, run_id, accepted_event_id),
            orders@ == delegated_orders(delegations@, delegations@.len()),
            orders_differ(orders@),
            orders@.len() > 0,
            authority_is_sound(
                *store,
                session_id,
                run_id,
                events,
                accepted_event_id,
                accepted_event_sequence,
                planner_turn_id,
                orders@,
            ),
            issuances_done(*store, session_id, run_id, events, 0, children@) == issuances_done(
                *store,
                session_id,
                run_id,
                events,
                i as int,
                children@,
            ),
        decreases rows.len() - i,
    {
        match is_issuance_done(store, session_id, run_id, rows[i], children) {
            Ok(true) => {},
            other => return other,
        }
        i += 1;
    }
    Ok(rows.len() == orders.len())
}

/// Whether a work order is done under one authorization alone: the event is the only one that
/// authorizes it, fits it, has one issuance, which repeats it, and the child that was issued ended.
pub open spec fn is_done_under(
    store: Store,
    session_id: SessionId,
    run_id: RunId,
    rows: Seq<EventEnvelope>,
    i: int,
    accepted_event_id: EventId,
    accepted_event_sequence: u64,
    planner_turn_id: PlannerTurnId,
    order: DelegatedWorkOrder,
    children: Seq<ChildRead>,
) -> bool {
    let name = order.work_order.work_order_id@;
    let issued = issuances(store, session_id, run_id, rows[i].id);
    &&& 0 <= i < rows.len()
    &&& authorization_in(rows[i]) matches Some(authorization) && authorizes_order(
        rows[i],
        authorization,
        accepted_event_id,
        accepted_event_sequence,
        planner_turn_id,
        order,
    ) && issued.len() == 1 && repeats_authorization(issued[0], rows[i], authorization)
    &&& forall|j: int|
        0 <= j < rows.len() ==> (authorized_name(#[trigger] rows[j]) == Some(name) <==> j == i)
    &&& issuance_done(store, session_id, run_id, rows[i], children) == Ok::<bool, StoreError>(true)
}

/// Whether a work order is done under one of some authorizations, and under that one alone.
pub open spec fn order_is_done(
    store: Store,
    session_id: SessionId,
    run_id: RunId,
    rows: Seq<EventEnvelope>,
    accepted_event_id: EventId,
    accepted_event_sequence: u64,
    planner_turn_id: PlannerTurnId,
    order: DelegatedWorkOrder,
    children: Seq<ChildRead>,
) -> bool {
    exists|i: int|
        is_done_under(
            store,
            session_id,
            run_id,
            rows,
            i,
            accepted_event_id,
            accepted_event_sequence,
            planner_turn_id,
            order,
            children,
        )
}

spec fn authorized_names(rows: Seq<EventEnvelope>) -> Seq<Seq<char>> {
    rows.map_values(|event: EventEnvelope| authorized_name(event)->0)
}

spec fn order_names(orders: Seq<DelegatedWorkOrder>) -> Seq<Seq<char>> {
    orders.map_values(|order: DelegatedWorkOrder| order.work_order.work_order_id@)
}

proof fn lemma_position_names(orders: Seq<DelegatedWorkOrder>, name: Seq<char>, from: int)
    requires
        0 <= from,
    ensures
        order_position(orders, name, from) matches Some(position) ==> from <= position
            < orders.len() && orders[position].work_order.work_order_id@ == name,
    decreases orders.len() - from,
{
    if from < orders.len() && orders[from].work_order.work_order_id@ != name {
        lemma_position_names(orders, name, from + 1);
    }
}

/// As many distinct names out of as many distinct ones are all of them.
proof fn lemma_all_named(all: Seq<Seq<char>>, found: Seq<Seq<char>>)
    requires
        all.no_duplicates(),
        found.no_duplicates(),
        all.len() == found.len(),
        forall|j: int| 0 <= j < found.len() ==> all.contains(#[trigger] found[j]),
    ensures
        forall|k: int| 0 <= k < all.len() ==> found.contains(#[trigger] all[k]),
{
    all.unique_seq_to_set();
    found.unique_seq_to_set();
    assert(found.to_set().subset_of(all.to_set())) by {
        assert forall|name: Seq<char>| found.to_set().contains(name) implies all.to_set().contains(
            name,
        ) by {
            let j = choose|j: int| 0 <= j < found.len() && found[j] == name;
            assert(all.contains(found[j]));
        }
    }
    all.lemma_cardinality_of_set();
    vstd::set_lib::lemma_subset_equality(found.to_set(), all.to_set());
    assert forall|k: int| 0 <= k < all.len() implies found.contains(#[trigger] all[k]) by {
        assert(all.to_set().contains(all[k]));
        assert(found.to_set().contains(all[k]));
    }
}

proof fn lemma_each_done(
    store: Store,
    session_id: SessionId,
    run_id: RunId,
    rows: Seq<EventEnvelope>,
    i: int,
    children: Seq<ChildRead>,
)
    requires
        0 <= i <= rows.len(),
        issuances_done(store, session_id, run_id, rows, i, children) == Ok::<bool, StoreError>(
            true,
        ),
    ensures
        forall|j: int|
            i <= j < rows.len() ==> issuance_done(
                store,
                session_id,
                run_id,
                #[trigger] rows[j],
                children,
            ) == Ok::<bool, StoreError>(true),
    decreases rows.len() - i,
{
    if i < rows.len() {
        lemma_each_done(store, session_id, run_id, rows, i + 1, children);
    }
}

/// Delegated work is done only as a whole: where it is, each work order was authorized by exactly one
/// event, which fits it, and issued exactly once, and its child ended; and nothing else was authorized.
pub proof fn law_delegates_are_done_together(
    store: Store,
    session_id: SessionId,
    run_id: RunId,
    accepted_event_id: EventId,
    accepted_event_sequence: u64,
    planner_turn_id: PlannerTurnId,
    delegations: Seq<PlannerAcceptedDelegationV1>,
    children: Seq<ChildRead>,
)
    requires
        delegates_done(
            store,
            session_id,
            run_id,
            accepted_event_id,
            accepted_event_sequence,
            planner_turn_id,
            delegations,
            children,
        ) == Ok::<bool, StoreError>(true),
    ensures
        ({
            let orders = delegated_orders(delegations, delegations.len());
            let rows = authorizations(store, session_id, run_id, accepted_event_id);
            &&& rows.len() == orders.len()
            &&& forall|k: int|
                0 <= k < orders.len() ==> order_is_done(
                    store,
                    session_id,
                    run_id,
                    rows,
                    accepted_event_id,
                    accepted_event_sequence,
                    planner_turn_id,
                    #[trigger] orders[k],
                    children,
                )
        }),
{
    let orders = delegated_orders(delegations, delegations.len());
    let rows = authorizations(store, session_id, run_id, accepted_event_id);
    let all = order_names(orders);
    let found = authorized_names(rows);
    lemma_each_done(store, session_id, run_id, rows, 0, children);
    assert forall|j: int| 0 <= j < rows.len() implies all.contains(#[trigger] found[j]) by {
        assert(authorization_fits(
            store,
            session_id,
            run_id,
            rows[j],
            accepted_event_id,
            accepted_event_sequence,
            planner_turn_id,
            orders,
        ));
        lemma_position_names(orders, found[j], 0);
        assert(all[order_position(orders, found[j], 0)->0] == found[j]);
    }
    assert forall|i: int, j: int| 0 <= i < j < rows.len() implies found[i] != found[j] by {
        assert(authorized_name(rows[i]) != authorized_name(rows[j]));
        assert(authorization_in(rows[i]) is Some);
        assert(authorization_in(rows[j]) is Some);
    }
    lemma_all_named(all, found);
    assert forall|k: int| 0 <= k < orders.len() implies order_is_done(
        store,
        session_id,
        run_id,
        rows,
        accepted_event_id,
        accepted_event_sequence,
        planner_turn_id,
        #[trigger] orders[k],
        children,
    ) by {
        assert(found.contains(all[k]));
        let i = choose|i: int| 0 <= i < found.len() && found[i] == all[k];
        lemma_position_names(orders, all[k], 0);
        let position = order_position(orders, all[k], 0)->0;
        assert(authorization_fits(
            store,
            session_id,
            run_id,
            rows[i],
            accepted_event_id,
            accepted_event_sequence,
            planner_turn_id,
            orders,
        ));
        assert(position == k);
        assert forall|j: int| 0 <= j < rows.len() implies (authorized_name(#[trigger] rows[j])
            == Some(all[k]) <==> j == i) by {
            assert(found[j] == authorized_name(rows[j])->0);
            assert(found[i] == authorized_name(rows[i])->0);
        }
        assert(is_done_under(
            store,
            session_id,
            run_id,
            rows,
            i,
            accepted_event_id,
            accepted_event_sequence,
            planner_turn_id,
            orders[k],
            children,
        ));
    }
}

/// Duplicate or mismatched authority is never taken for work still to be done: whatever is issued or
/// ended so far, two authorizations for one work order are refused, and so is an authorization that
/// does not fit.
pub proof fn law_unsound_authority_fails_closed(
    store: Store,
    session_id: SessionId,
    run_id: RunId,
    accepted_event_id: EventId,
    accepted_event_sequence: u64,
    planner_turn_id: PlannerTurnId,
    delegations: Seq<PlannerAcceptedDelegationV1>,
    children: Seq<ChildRead>,
    i: int,
    j: int,
)
    requires
        ({
            let orders = delegated_orders(delegations, delegations.len());
            let rows = authorizations(store, session_id, run_id, accepted_event_id);
            &&& 0 <= i <= j < rows.len()
            &&& i < j ==> authorized_name(rows[i]) == authorized_name(rows[j])
            &&& i == j ==> !authorization_fits(
                store,
                session_id,
                run_id,
                rows[i],
                accepted_event_id,
                accepted_event_sequence,
                planner_turn_id,
                orders,
            )
        }),
    ensures
        delegates_done(
            store,
            session_id,
            run_id,
            accepted_event_id,
            accepted_event_sequence,
            planner_turn_id,
            delegations,
            children,
        ) == Err::<bool, StoreError>(StoreError::InvalidStateEvent),
{
}

proof fn lemma_issuances_done(
    store: Store,
    session_id: SessionId,
    run_id: RunId,
    rows: Seq<EventEnvelope>,
    i: int,
    children: Seq<ChildRead>,
    k: int,
)
    requires
        0 <= i <= k < rows.len(),
        issuances_done(store, session_id, run_id, rows, i, children) == Ok::<bool, StoreError>(
            true,
        ),
    ensures
        issuance_done(store, session_id, run_id, rows[k], children) == Ok::<bool, StoreError>(true),
    decreases rows.len() - i,
{
    if i < k {
        lemma_issuances_done(store, session_id, run_id, rows, i + 1, children, k);
    }
}

/// Delegates are done where every order that was delegated has been authorized and issued, and its child
/// has come to an end: it succeeded, failed or was cancelled, and nothing is left to recover.
pub proof fn law_done_delegates_have_all_ended(
    store: Store,
    session_id: SessionId,
    run_id: RunId,
    accepted_event_id: EventId,
    accepted_event_sequence: u64,
    planner_turn_id: PlannerTurnId,
    delegations: Seq<PlannerAcceptedDelegationV1>,
    children: Seq<ChildRead>,
    k: int,
)
    requires
        delegates_done(
            store,
            session_id,
            run_id,
            accepted_event_id,
            accepted_event_sequence,
            planner_turn_id,
            delegations,
            children,
        ) == Ok::<bool, StoreError>(true),
        0 <= k < authorizations(store, session_id, run_id, accepted_event_id).len(),
    ensures
        authorizations(store, session_id, run_id, accepted_event_id).len() == delegated_orders(
            delegations,
            delegations.len(),
        ).len(),
        ({
            let event = authorizations(store, session_id, run_id, accepted_event_id)[k];
            &&& event.sequence > accepted_event_sequence
            &&& issuances(store, session_id, run_id, event.id).len() == 1
            &&& event.payload matches EventPayload::ChildDelegationAuthorizedV2(authorization) && {
                &&& authorization.accepted_planner_turn_event_id == accepted_event_id
                &&& authorization.planner_turn_id == planner_turn_id
                &&& child_read(children, authorization.spec.work_order_id) matches Some(child) && (
                child.projection matches Ok(Some(projection)) && {
                    &&& projection.state == ChildWorkOrderState::Succeeded || projection.state
                        == ChildWorkOrderState::Failed || projection.state
                        == ChildWorkOrderState::Cancelled
                    &&& projection.recovery is Terminal
                    &&& projection.issued_event.id == issuances(
                        store,
                        session_id,
                        run_id,
                        event.id,
                    )[0].id
                })
            }
        }),
{
    let rows = authorizations(store, session_id, run_id, accepted_event_id);
    lemma_issuances_done(store, session_id, run_id, rows, 0, children, k);
    reveal(same_event);
    let event = rows[k];
    assert(authorization_fits(
        store,
        session_id,
        run_id,
        event,
        accepted_event_id,
        accepted_event_sequence,
        planner_turn_id,
        delegated_orders(delegations, delegations.len()),
    ));
}

/// Delegates are not done while an order waits for its authorization, and a delegation without orders
/// is refused.
pub proof fn law_waiting_orders_keep_delegates_open(
    store: Store,
    session_id: SessionId,
    run_id: RunId,
    accepted_event_id: EventId,
    accepted_event_sequence: u64,
    planner_turn_id: PlannerTurnId,
    delegations: Seq<PlannerAcceptedDelegationV1>,
    children: Seq<ChildRead>,
)
    ensures
        authorizations(store, session_id, run_id, accepted_event_id).len() < delegated_orders(
            delegations,
            delegations.len(),
        ).len() ==> delegates_done(
            store,
            session_id,
            run_id,
            accepted_event_id,
            accepted_event_sequence,
            planner_turn_id,
            delegations,
            children,
        ) != Ok::<bool, StoreError>(true),
        delegated_orders(delegations, delegations.len()).len() == 0 ==> delegates_done(
            store,
            session_id,
            run_id,
            accepted_event_id,
            accepted_event_sequence,
            planner_turn_id,
            delegations,
            children,
        ) == Err::<bool, StoreError>(StoreError::InvalidStateEvent),
{
}

} // verus!

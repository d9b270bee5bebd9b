//! The directive of an accepted turn: the work orders that it selects, and how they are bound.

use vstd::prelude::*;
use crate::artifact::ArtifactRef;
use crate::contract::Contract;
use crate::error::StoreError;
use crate::event::EventEnvelope;
use crate::history::{EventLog, EventQuery, PayloadFilter};
use crate::identity::PlannerDelegateDirectiveId;
use crate::planner_prompt::{PlannerPlanWorkOrderV2, PlannerReplannerV2PlanSnapshot};
use crate::planner_turn::{PlannerDelegatedWorkOrderBindingV1, PlannerPromptWorkSelectionV1};
use crate::planner_v2_classification::LocalWorkOrder;
use crate::text::Text;

verus! {

/// How some texts read.
pub open spec fn views(names: Seq<Text>) -> Seq<Seq<char>> {
    names.map_values(|name: Text| name@)
}

/// The first place at which a name may stand in its order, from one place on.
pub open spec fn place_of(names: Seq<Seq<char>>, name: Seq<char>, from: int) -> int
    decreases names.len() - from,
{
    if from < 0 || from >= names.len() || !crate::text::text_precedes(names[from], name) {
        from
    } else {
        place_of(names, name, from + 1)
    }
}

/// Names in their order, with one more; a name that is there already is not added.
pub open spec fn with_name(names: Seq<Seq<char>>, name: Seq<char>) -> Seq<Seq<char>> {
    let place = place_of(names, name, 0);
    if place < names.len() && names[place] == name {
        names
    } else {
        names.insert(place, name)
    }
}

/// Whether names ascend, so that no two are the same.
pub open spec fn ascending(names: Seq<Seq<char>>) -> bool {
    forall|i: int, j: int|
        0 <= i < j < names.len() ==> crate::text::text_precedes(
            #[trigger] names[i],
            #[trigger] names[j],
        )
}

fn insert_name(names: &mut Vec<Text>, name: Text)
    ensures
        views(final(names)@) == with_name(views(old(names)@), name@),
{
    let ghost before = names@;
    let mut p: usize = 0;
    while p < names.len() && names[p].precedes(&name)
        invariant
            p <= names@.len(),
            names@ == before,
            place_of(views(before), name@, 0) == place_of(views(before), name@, p as int),
        decreases names.len() - p,
    {
        p += 1;
    }
    if p < names.len() && names[p] == name {
        return;
    }
    names.insert(p, name);
    assert(views(names@) =~= views(before).insert(p as int, name@));
}

proof fn lemma_place(names: Seq<Seq<char>>, name: Seq<char>, from: int)
    requires
        0 <= from <= names.len(),
        forall|i: int| 0 <= i < from ==> crate::text::text_precedes(#[trigger] names[i], name),
    ensures
        ({
            let place = place_of(names, name, from);
            &&& from <= place <= names.len()
            &&& forall|i: int|
                0 <= i < place ==> crate::text::text_precedes(#[trigger] names[i], name)
            &&& place < names.len() ==> !crate::text::text_precedes(names[place], name)
        }),
    decreases names.len() - from,
{
    if from < names.len() && crate::text::text_precedes(names[from], name) {
        lemma_place(names, name, from + 1);
    }
}

proof fn lemma_with_name(names: Seq<Seq<char>>, name: Seq<char>)
    requires
        ascending(names),
    ensures
        ascending(with_name(names, name)),
        forall|other: Seq<char>| #[trigger]
            with_name(names, name).contains(other) <==> names.contains(other) || other == name,
{
    let place = place_of(names, name, 0);
    lemma_place(names, name, 0);
    let after = with_name(names, name);
    if place < names.len() && names[place] == name {
        assert forall|other: Seq<char>| #[trigger] after.contains(other) <==> names.contains(other)
            || other == name by {
            assert(names.contains(names[place]));
        }
    } else {
        assert(after == names.insert(place, name));
        assert forall|i: int, j: int| 0 <= i < j < after.len() implies crate::text::text_precedes(
            #[trigger] after[i],
            #[trigger] after[j],
        ) by {
            if j < place {
                assert(after[i] == names[i] && after[j] == names[j]);
            } else if j == place {
                assert(after[i] == names[i]);
            } else if i > place {
                assert(after[i] == names[i - 1] && after[j] == names[j - 1]);
            } else {
                assert(after[j] == names[j - 1]);
                crate::text::lemma_precedes_total(names[place], name);
                if j - 1 > place {
                    assert(crate::text::text_precedes(names[place], names[j - 1]));
                    crate::text::lemma_precedes_transitive(name, names[place], names[j - 1]);
                }
                if i < place {
                    assert(after[i] == names[i]);
                }
            }
        }
        assert forall|other: Seq<char>| #[trigger] after.contains(other) <==> names.contains(other)
            || other == name by {
            if after.contains(other) {
                let k = choose|k: int| 0 <= k < after.len() && after[k] == other;
                if k < place {
                    assert(names[k] == other);
                } else if k > place {
                    assert(names[k - 1] == other);
                }
            }
            if names.contains(other) {
                let k = choose|k: int| 0 <= k < names.len() && names[k] == other;
                if k < place {
                    assert(after[k] == other);
                } else {
                    assert(after[k + 1] == other);
                }
            }
            assert(after[place] == name);
        }
    }
}

/// The name in the plan of a work order that an output adds.
pub open spec fn local_name(local: Seq<LocalWorkOrder>, local_id: u32) -> Option<Text>
    decreases local.len(),
{
    if local.len() == 0 {
        None
    } else if local[0].local_id == local_id {
        Some(local[0].work_order_id)
    } else {
        local_name(local.drop_first(), local_id)
    }
}

fn find_local<'a>(local: &'a Vec<LocalWorkOrder>, local_id: u32) -> (r: Option<&'a Text>)
    ensures
        local_name(local@, local_id) == (match r {
            Some(name) => Some(*name),
            None => None,
        }),
{
    let mut i: usize = 0;
    assert(local@.skip(0) =~= local@);
    while i < local.len()
        invariant
            i <= local@.len(),
            local_name(local@, local_id) == local_name(local@.skip(i as int), local_id),
        decreases local.len() - i,
    {
        assert(local@.skip(i as int).drop_first() =~= local@.skip(i + 1));
        if local[i].local_id == local_id {
            return Some(&local[i].work_order_id);
        }
        i += 1;
    }
    None
}

/// The first `n` names of existing work orders, in their order.
pub open spec fn existing_names(existing: Seq<Text>, n: nat) -> Seq<Seq<char>>
    decreases n,
{
    if n == 0 {
        Seq::empty()
    } else {
        with_name(existing_names(existing, (n - 1) as nat), existing[n - 1]@)
    }
}

/// These names with those of the first `n` new work orders; nothing, where one of them is unknown.
pub open spec fn names_with_new(
    names: Seq<Seq<char>>,
    added: Seq<u32>,
    local: Seq<LocalWorkOrder>,
    n: nat,
) -> Option<Seq<Seq<char>>>
    decreases n,
{
    if n == 0 {
        Some(names)
    } else {
        match (names_with_new(names, added, local, (n - 1) as nat), local_name(local, added[n - 1])) {
            (Some(names), Some(name)) => Some(with_name(names, name@)),
            _ => None,
        }
    }
}

/// The names that a selection comes to, in their order; nothing, where it selects an unknown one.
pub open spec fn selected_names(
    selection: PlannerPromptWorkSelectionV1,
    local: Seq<LocalWorkOrder>,
) -> Option<Seq<Seq<char>>> {
    names_with_new(
        existing_names(selection.existing@, selection.existing@.len()),
        selection.new@,
        local,
        selection.new@.len(),
    )
}

/// The work order of a plan with one name.
pub open spec fn planned_order(
    orders: Seq<PlannerPlanWorkOrderV2>,
    name: Seq<char>,
) -> Option<PlannerPlanWorkOrderV2>
    decreases orders.len(),
{
    if orders.len() == 0 {
        None
    } else if orders[0].work_order_id@ == name {
        Some(orders[0])
    } else {
        planned_order(orders.drop_first(), name)
    }
}

fn find_planned<'a>(orders: &'a Vec<PlannerPlanWorkOrderV2>, name: &Text) -> (r: Option<
    &'a PlannerPlanWorkOrderV2,
>)
    ensures
        planned_order(orders@, name@) == (match r {
            Some(order) => Some(*order),
            None => None,
        }),
{
    let mut i: usize = 0;
    assert(orders@.skip(0) =~= orders@);
    while i < orders.len()
        invariant
            i <= orders@.len(),
            planned_order(orders@, name@) == planned_order(orders@.skip(i as int), name@),
        decreases orders.len() - i,
    {
        assert(orders@.skip(i as int).drop_first() =~= orders@.skip(i + 1));
        if orders[i].work_order_id == *name {
            return Some(&orders[i]);
        }
        i += 1;
    }
    None
}

/// Whether a plan has work orders with all these names.
pub open spec fn all_planned(
    plan: PlannerReplannerV2PlanSnapshot,
    names: Seq<Seq<char>>,
) -> bool {
    forall|i: int|
        0 <= i < names.len() ==> planned_order(plan.work_orders@, #[trigger] names[i]) is Some
}

/// The names that a selection comes to in a plan; nothing, where one of them is unknown.
pub open spec fn resolved_names(
    selection: PlannerPromptWorkSelectionV1,
    local: Seq<LocalWorkOrder>,
    plan: PlannerReplannerV2PlanSnapshot,
) -> Option<Seq<Seq<char>>> {
    match selected_names(selection, local) {
        Some(names) => if all_planned(plan, names) {
            Some(names)
        } else {
            None
        },
        None => None,
    }
}

proof fn lemma_unknown_stays(
    names: Seq<Seq<char>>,
    added: Seq<u32>,
    local: Seq<LocalWorkOrder>,
    n: nat,
    m: nat,
)
    requires
        n <= m,
        names_with_new(names, added, local, n) is None,
    ensures
        names_with_new(names, added, local, m) is None,
    decreases m,
{
    if n < m {
        lemma_unknown_stays(names, added, local, n, (m - 1) as nat);
    }
}

/// The names that a selection comes to in a plan, in their order; refused where one is unknown.
pub fn resolve_planner_work_selection(
    selection: &PlannerPromptWorkSelectionV1,
    local: &Vec<LocalWorkOrder>,
    plan: &PlannerReplannerV2PlanSnapshot,
) -> (r: Result<Vec<Text>, StoreError>)
    ensures
        match (r, resolved_names(*selection, local@, *plan)) {
            (Ok(names), Some(expected)) => views(names@) == expected,
            (Err(error), None) => error == StoreError::InvalidStateEvent,
            _ => false,
        },
{
    let mut names: Vec<Text> = Vec::new();
    let mut n: usize = 0;
    assert(views(names@) =~= existing_names(selection.existing@, 0));
    while n < selection.existing.len()
        invariant
            n <= selection.existing@.len(),
            views(names@) == existing_names(selection.existing@, n as nat),
        decreases selection.existing.len() - n,
    {
        insert_name(&mut names, selection.existing[n].clone());
        n += 1;
    }
    let ghost existing = views(names@);
    let mut m: usize = 0;
    while m < selection.new.len()
        invariant
            m <= selection.new@.len(),
            existing == existing_names(selection.existing@, selection.existing@.len()),
            names_with_new(existing, selection.new@, local@, m as nat) == Some(views(names@)),
        decreases selection.new.len() - m,
    {
        match find_local(local, selection.new[m]) {
            Some(name) => {
                insert_name(&mut names, name.clone());
            },
            None => {
                proof {
                    lemma_unknown_stays(
                        existing,
                        selection.new@,
                        local@,
                        (m + 1) as nat,
                        selection.new@.len(),
                    );
                }
                return Err(StoreError::InvalidStateEvent);
            },
        }
        m += 1;
    }
    let mut k: usize = 0;
    while k < names.len()
        invariant
            k <= names@.len(),
            selected_names(*selection, local@) == Some(views(names@)),
            forall|i: int|
                0 <= i < k ==> planned_order(
                    plan.work_orders@,
                    #[trigger] views(names@)[i],
                ) is Some,
        decreases names.len() - k,
    {
        if find_planned(&plan.work_orders, &names[k]).is_none() {
            assert(planned_order(plan.work_orders@, views(names@)[k as int]) is None);
            return Err(StoreError::InvalidStateEvent);
        }
        k += 1;
    }
    Ok(names)
}

proof fn lemma_existing_ascend(existing: Seq<Text>, n: nat)
    requires
        n <= existing.len(),
    ensures
        ascending(existing_names(existing, n)),
        forall|name: Seq<char>| #[trigger]
            existing_names(existing, n).contains(name) <==> exists|i: int|
                0 <= i < n && #[trigger] existing[i]@ == name,
    decreases n,
{
    if n > 0 {
        lemma_existing_ascend(existing, (n - 1) as nat);
        let before = existing_names(existing, (n - 1) as nat);
        lemma_with_name(before, existing[n - 1]@);
        let after = existing_names(existing, n);
        assert forall|name: Seq<char>| #[trigger] after.contains(name) <==> exists|i: int|
            0 <= i < n && #[trigger] existing[i]@ == name by {
            if exists|i: int| 0 <= i < n && #[trigger] existing[i]@ == name {
                let i = choose|i: int| 0 <= i < n && #[trigger] existing[i]@ == name;
                if i < n - 1 {
                    assert(before.contains(name));
                }
            }
            if after.contains(name) && name == existing[n - 1]@ {
                assert(existing[n - 1]@ == name);
            }
        }
    }
}

proof fn lemma_new_ascend(
    names: Seq<Seq<char>>,
    added: Seq<u32>,
    local: Seq<LocalWorkOrder>,
    n: nat,
)
    requires
        ascending(names),
        n <= added.len(),
        names_with_new(names, added, local, n) is Some,
    ensures
        ({
            let after = names_with_new(names, added, local, n)->0;
            &&& ascending(after)
            &&& forall|name: Seq<char>| #[trigger]
                after.contains(name) <==> names.contains(name) || exists|i: int|
                    0 <= i < n && (local_name(local, #[trigger] added[i]) matches Some(found)
                        && found@ == name)
        }),
    decreases n,
{
    if n > 0 {
        lemma_new_ascend(names, added, local, (n - 1) as nat);
        let before = names_with_new(names, added, local, (n - 1) as nat)->0;
        let last = local_name(local, added[n - 1])->0;
        lemma_with_name(before, last@);
        let after = names_with_new(names, added, local, n)->0;
        assert forall|name: Seq<char>| #[trigger] after.contains(name) <==> names.contains(name)
            || exists|i: int|
            0 <= i < n && (local_name(local, #[trigger] added[i]) matches Some(found) && found@
                == name) by {
            if exists|i: int|
                0 <= i < n && (local_name(local, #[trigger] added[i]) matches Some(found) && found@
                    == name) {
                let i = choose|i: int|
                    0 <= i < n && (local_name(local, #[trigger] added[i]) matches Some(found)
                        && found@ == name);
                if i < n - 1 {
                    assert(before.contains(name));
                }
            }
            if after.contains(name) && name == last@ {
                assert(local_name(local, added[n - 1]) == Some(last));
            }
        }
    }
}

/// A selection comes to exactly the work orders that it names, each once, in the order of their names.
pub proof fn law_selection_is_exact(
    selection: PlannerPromptWorkSelectionV1,
    local: Seq<LocalWorkOrder>,
    plan: PlannerReplannerV2PlanSnapshot,
)
    requires
        resolved_names(selection, local, plan) is Some,
    ensures
        ({
            let names = resolved_names(selection, local, plan)->0;
            &&& ascending(names)
            &&& forall|name: Seq<char>| #[trigger]
                names.contains(name) <==> {
                    ||| exists|i: int|
                        0 <= i < selection.existing@.len() && #[trigger] selection.existing@[i]@
                            == name
                    ||| exists|i: int|
                        0 <= i < selection.new@.len() && (local_name(
                            local,
                            #[trigger] selection.new@[i],
                        ) matches Some(found) && found@ == name)
                }
        }),
{
    lemma_existing_ascend(selection.existing@, selection.existing@.len());
    lemma_new_ascend(
        existing_names(selection.existing@, selection.existing@.len()),
        selection.new@,
        local,
        selection.new@.len(),
    );
}

/// Whether a binding is that of a plan's work order with one name.
pub open spec fn binds_order(
    contract: Contract,
    binding: PlannerDelegatedWorkOrderBindingV1,
    plan: PlannerReplannerV2PlanSnapshot,
    name: Seq<char>,
) -> bool {
    planned_order(plan.work_orders@, name) matches Some(order) && {
        &&& binding.work_order_id@ == name
        &&& binding.revision == order.revision
        &&& binding.work_order_artifact.sha256@ == order.encoded_sha256@
        &&& binding.work_order_artifact.size_bytes == order.encoded_bytes
        &&& binding.work_order_artifact.media_type@ == contract.media.planner_work_order_v2@
        &&& binding.work_order_digest@ == order.encoded_sha256@
    }
}

/// The binding of a plan's work order; refused where the plan has none with the name.
pub fn planner_work_order_binding(
    contract: &Contract,
    plan: &PlannerReplannerV2PlanSnapshot,
    name: &Text,
) -> (r: Result<PlannerDelegatedWorkOrderBindingV1, StoreError>)
    ensures
        r is Ok <==> planned_order(plan.work_orders@, name@) is Some,
        r matches Ok(binding) ==> binds_order(*contract, binding, *plan, name@),
        r matches Err(error) ==> error == StoreError::InvalidStateEvent,
{
    match find_planned(&plan.work_orders, name) {
        Some(order) => Ok(
            PlannerDelegatedWorkOrderBindingV1 {
                work_order_id: name.clone(),
                revision: order.revision,
                work_order_artifact: ArtifactRef {
                    sha256: order.encoded_sha256.as_text().clone(),
                    size_bytes: order.encoded_bytes,
                    media_type: contract.media.planner_work_order_v2.clone(),
                },
                work_order_digest: order.encoded_sha256.clone(),
            },
        ),
        None => Err(StoreError::InvalidStateEvent),
    }
}

/// The artifact that a work order was written to.
#[derive(Debug)]
pub struct WrittenWorkOrder {
    pub work_order_id: Text,
    pub artifact: Result<ArtifactRef, StoreError>,
}

/// What came of writing the work order with one name.
pub open spec fn written_order(written: Seq<WrittenWorkOrder>, name: Seq<char>) -> Result<
    ArtifactRef,
    StoreError,
>
    decreases written.len(),
{
    if written.len() == 0 {
        Err(StoreError::InvalidStateEvent)
    } else if written[0].work_order_id@ == name {
        written[0].artifact
    } else {
        written_order(written.drop_first(), name)
    }
}

fn find_written<'a>(written: &'a Vec<WrittenWorkOrder>, name: &Text) -> (r: Result<
    &'a ArtifactRef,
    StoreError,
>)
    ensures
        written_order(written@, name@) == (match r {
            Ok(artifact) => Ok::<ArtifactRef, StoreError>(*artifact),
            Err(error) => Err(error),
        }),
{
    let mut i: usize = 0;
    assert(written@.skip(0) =~= written@);
    while i < written.len()
        invariant
            i <= written@.len(),
            written_order(written@, name@) == written_order(written@.skip(i as int), name@),
        decreases written.len() - i,
    {
        assert(written@.skip(i as int).drop_first() =~= written@.skip(i + 1));
        if written[i].work_order_id == *name {
            return match &written[i].artifact {
                Ok(artifact) => Ok(artifact),
                Err(error) => Err(*error),
            };
        }
        i += 1;
    }
    Err(StoreError::InvalidStateEvent)
}

/// What is found of a work order that is kept: the plan has it, and it was written under its digest.
pub open spec fn persisted_verdict(
    contract: Contract,
    plan: PlannerReplannerV2PlanSnapshot,
    name: Seq<char>,
    written: Seq<WrittenWorkOrder>,
) -> Result<(), StoreError> {
    match planned_order(plan.work_orders@, name) {
        None => Err(StoreError::InvalidStateEvent),
        Some(order) => match written_order(written, name) {
            Err(error) => Err(error),
            Ok(artifact) => crate::error::demand(
                {
                    &&& artifact.sha256@ == order.encoded_sha256@
                    &&& artifact.size_bytes == order.encoded_bytes
                    &&& artifact.media_type@ == contract.media.planner_work_order_v2@
                },
            ),
        },
    }
}

/// The binding of a plan's work order that is kept; refused where it was not written under its digest.
pub fn persist_planner_work_order_binding(
    contract: &Contract,
    plan: &PlannerReplannerV2PlanSnapshot,
    name: &Text,
    written: &Vec<WrittenWorkOrder>,
) -> (r: Result<PlannerDelegatedWorkOrderBindingV1, StoreError>)
    ensures
        match (r, persisted_verdict(*contract, *plan, name@, written@)) {
            (Ok(binding), Ok(())) => binds_order(*contract, binding, *plan, name@),
            (Err(error), Err(expected)) => error == expected,
            _ => false,
        },
{
    let expected = match planner_work_order_binding(contract, plan, name) {
        Ok(expected) => expected,
        Err(error) => return Err(error),
    };
    match find_written(written, name) {
        Ok(artifact) => if *artifact == expected.work_order_artifact {
            Ok(expected)
        } else {
            Err(StoreError::InvalidStateEvent)
        },
        Err(error) => Err(error),
    }
}

/// Whether a directive with an identity is on record, in any run.
pub open spec fn directive_seen(
    events: Seq<EventEnvelope>,
    directive_id: PlannerDelegateDirectiveId,
) -> bool {
    EventQuery::everywhere(PayloadFilter::DelegateDirective(directive_id)).rows(events).len() > 0
}

/// Whether a directive with an identity is on record, in any run.
pub fn planner_delegate_directive_id_seen(
    log: &EventLog,
    directive_id: PlannerDelegateDirectiveId,
) -> (r: bool)
    ensures
        r == directive_seen(log@, directive_id),
{
    log.count(&EventQuery::everywhere(PayloadFilter::DelegateDirective(directive_id))) > 0
}

/// How many identities are tried before a fresh one is given up.
pub const MAX_IDENTITY_DRAWS: usize = 16;

/// Whether an identity is fresh: not allocated just now, and not on record.
pub open spec fn is_fresh_identity(
    events: Seq<EventEnvelope>,
    allocated: Seq<PlannerDelegateDirectiveId>,
    candidate: PlannerDelegateDirectiveId,
) -> bool {
    !allocated.contains(candidate) && !directive_seen(events, candidate)
}

/// The first fresh identity that is drawn, from one draw on; nothing, where the draws run out.
pub open spec fn fresh_identity(
    events: Seq<EventEnvelope>,
    allocated: Seq<PlannerDelegateDirectiveId>,
    draws: Seq<PlannerDelegateDirectiveId>,
    from: int,
) -> Option<PlannerDelegateDirectiveId>
    decreases draws.len() - from,
{
    if from < 0 || from >= draws.len() || from >= MAX_IDENTITY_DRAWS {
        None
    } else if is_fresh_identity(events, allocated, draws[from]) {
        Some(draws[from])
    } else {
        fresh_identity(events, allocated, draws, from + 1)
    }
}

fn is_allocated(
    allocated: &Vec<PlannerDelegateDirectiveId>,
    candidate: PlannerDelegateDirectiveId,
) -> (r: bool)
    ensures
        r == allocated@.contains(candidate),
{
    let mut i: usize = 0;
    while i < allocated.len()
        invariant
            i <= allocated@.len(),
            forall|j: int| 0 <= j < i ==> allocated@[j] != candidate,
        decreases allocated.len() - i,
    {
        if allocated[i] == candidate {
            return true;
        }
        i += 1;
    }
    false
}

/// The first fresh identity that is drawn; refused where too many draws are not.
pub fn fresh_planner_delegate_directive_id(
    log: &EventLog,
    allocated: &Vec<PlannerDelegateDirectiveId>,
    draws: &Vec<PlannerDelegateDirectiveId>,
) -> (r: Result<PlannerDelegateDirectiveId, StoreError>)
    ensures
        r == (match fresh_identity(log@, allocated@, draws@, 0) {
            Some(directive_id) => Ok::<PlannerDelegateDirectiveId, StoreError>(directive_id),
            None => Err(StoreError::InvalidStateEvent),
        }),
{
    let mut i: usize = 0;
    while i < draws.len() && i < MAX_IDENTITY_DRAWS
        invariant
            i <= draws@.len(),
            fresh_identity(log@, allocated@, draws@, 0) == fresh_identity(
                log@,
                allocated@,
                draws@,
                i as int,
            ),
        decreases draws.len() - i,
    {
        if !is_allocated(allocated, draws[i]) && !planner_delegate_directive_id_seen(
            log,
            draws[i],
        ) {
            return Ok(draws[i]);
        }
        i += 1;
    }
    Err(StoreError::InvalidStateEvent)
}

/// An identity that is given is never on record and never given twice.
pub proof fn law_given_identities_are_fresh(
    events: Seq<EventEnvelope>,
    allocated: Seq<PlannerDelegateDirectiveId>,
    draws: Seq<PlannerDelegateDirectiveId>,
    from: int,
)
    ensures
        fresh_identity(events, allocated, draws, from) matches Some(directive_id)
            ==> is_fresh_identity(events, allocated, directive_id),
    decreases draws.len() - from,
{
    if 0 <= from < draws.len() && from < MAX_IDENTITY_DRAWS {
        law_given_identities_are_fresh(events, allocated, draws, from + 1);
    }
}

/// A local work order is found by its number: the first that has it, or none.
pub proof fn law_local_orders_are_found(records: Seq<LocalWorkOrder>, local_id: u32) -> (place: int)
    ensures
        local_name(records, local_id) is Some ==> {
            &&& 0 <= place < records.len()
            &&& records[place].local_id == local_id
            &&& local_name(records, local_id) == Some(records[place].work_order_id)
            &&& forall|j: int| 0 <= j < place ==> (#[trigger] records[j]).local_id != local_id
        },
        local_name(records, local_id) is None ==> (forall|j: int|
            0 <= j < records.len() ==> (#[trigger] records[j]).local_id != local_id),
    decreases records.len(),
{
    if records.len() == 0 || records[0].local_id == local_id {
        0
    } else {
        let rest = records.drop_first();
        let place = law_local_orders_are_found(rest, local_id);
        assert forall|j: int| 1 <= j < records.len() implies #[trigger] records[j] == rest[j
            - 1] by {}
        place + 1
    }
}

/// A planned work order is found by its name: the first that has it, or none.
pub proof fn law_planned_orders_are_found(records: Seq<PlannerPlanWorkOrderV2>, name: Seq<char>) -> (place: int)
    ensures
        planned_order(records, name) is Some ==> {
            &&& 0 <= place < records.len()
            &&& records[place].work_order_id@ == name
            &&& planned_order(records, name) == Some(records[place])
            &&& forall|j: int| 0 <= j < place ==> (#[trigger] records[j]).work_order_id@ != name
        },
        planned_order(records, name) is None ==> (forall|j: int|
            0 <= j < records.len() ==> (#[trigger] records[j]).work_order_id@ != name),
    decreases records.len(),
{
    if records.len() == 0 || records[0].work_order_id@ == name {
        0
    } else {
        let rest = records.drop_first();
        let place = law_planned_orders_are_found(rest, name);
        assert forall|j: int| 1 <= j < records.len() implies #[trigger] records[j] == rest[j
            - 1] by {}
        place + 1
    }
}

/// A work order is bound as the plan has it: under its own name, at its revision, as the artifact that
/// it encodes to.
pub proof fn law_orders_are_bound_as_planned(
    contract: Contract,
    binding: PlannerDelegatedWorkOrderBindingV1,
    plan: PlannerReplannerV2PlanSnapshot,
    name: Seq<char>,
) -> (place: int)
    requires
        binds_order(contract, binding, plan, name),
    ensures
        0 <= place < plan.work_orders@.len(),
        plan.work_orders@[place].work_order_id@ == name,
        binding.work_order_id@ == name,
        binding.revision == plan.work_orders@[place].revision,
        binding.work_order_digest@ == plan.work_orders@[place].encoded_sha256@,
        binding.work_order_artifact.sha256@ == plan.work_orders@[place].encoded_sha256@,
        binding.work_order_artifact.size_bytes == plan.work_orders@[place].encoded_bytes,
        binding.work_order_artifact.media_type@ == contract.media.planner_work_order_v2@,
{
    law_planned_orders_are_found(plan.work_orders@, name)
}

/// A directive was seen where some accepted turn delegated under its identity, in whatever run.
pub proof fn law_seen_directives_were_delegated(
    events: Seq<EventEnvelope>,
    directive_id: PlannerDelegateDirectiveId,
    i: int,
)
    ensures
        !directive_seen(events, directive_id) && 0 <= i < events.len() ==> (
        events[i].payload matches crate::event::EventPayload::PlannerTurnAcceptedV1(accepted) ==> (
        accepted.resolved_directive
            matches crate::planner_turn::PlannerAcceptedDirectiveV1::Delegate { delegations } ==> (
        forall|k: int|
            0 <= k < delegations@.len() ==> (#[trigger] delegations@[k]).directive_id
                != directive_id))),
{
    let query = EventQuery::everywhere(PayloadFilter::DelegateDirective(directive_id));
    if 0 <= i < events.len() && query.admits(events[i]) {
        crate::history::law_ends_of_a_selection(query, events, i);
    }
}

/// The identity that is given is the first fresh one among the first sixteen drawn; none is given where
/// none of them is fresh.
pub proof fn law_the_first_fresh_draw_is_given(
    events: Seq<EventEnvelope>,
    allocated: Seq<PlannerDelegateDirectiveId>,
    draws: Seq<PlannerDelegateDirectiveId>,
    from: int,
) -> (place: int)
    requires
        0 <= from,
    ensures
        fresh_identity(events, allocated, draws, from) matches Some(directive_id) ==> {
            &&& from <= place < draws.len()
            &&& place < 16
            &&& draws[place] == directive_id
            &&& !allocated.contains(directive_id)
            &&& !directive_seen(events, directive_id)
            &&& forall|j: int|
                from <= j < place ==> allocated.contains(#[trigger] draws[j]) || directive_seen(
                    events,
                    draws[j],
                )
        },
        fresh_identity(events, allocated, draws, from) is None ==> (forall|j: int|
            from <= j < draws.len() && j < 16 ==> allocated.contains(#[trigger] draws[j])
                || directive_seen(events, draws[j])),
    decreases draws.len() - from,
{
    if from >= draws.len() || from >= MAX_IDENTITY_DRAWS || is_fresh_identity(
        events,
        allocated,
        draws[from],
    ) {
        from
    } else {
        law_the_first_fresh_draw_is_given(events, allocated, draws, from + 1)
    }
}

} // verus!

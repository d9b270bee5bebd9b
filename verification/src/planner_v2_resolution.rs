//! How the directive of an accepted turn is resolved against the plan that the turn results in.

use vstd::prelude::*;
use crate::contract::Contract;
use crate::error::StoreError;
use crate::event::EventEnvelope;
use crate::history::EventLog;
use crate::identity::PlannerDelegateDirectiveId;
use crate::planner_prompt::PlannerReplannerV2PlanSnapshot;
use crate::planner_turn::{
    PlannerAcceptedDelegationV1, PlannerAcceptedDirectiveV1, PlannerDelegatedWorkOrderBindingV1,
    PlannerPromptDelegationV1, PlannerPromptDirectiveKindV1, PlannerPromptDirectiveV1,
};
use crate::planner_v2_classification::{
    LocalWorkOrder, ResolvedPlannerDirective, ValidatedPlannerReplannerV2Turn,
};
use crate::planner_v2_directive::{
    fresh_planner_delegate_directive_id, persist_planner_work_order_binding,
    planner_delegate_directive_id_seen, planner_work_order_binding,
    resolve_planner_work_selection, WrittenWorkOrder,
};
use crate::text::{Same, Text};

verus! {

/// Whether bindings are those of a plan's work orders with these names, one by one.
pub open spec fn binds_orders(
    contract: Contract,
    bindings: Seq<PlannerDelegatedWorkOrderBindingV1>,
    plan: PlannerReplannerV2PlanSnapshot,
    names: Seq<Seq<char>>,
) -> bool {
    &&& bindings.len() == names.len()
    &&& forall|i: int|
        0 <= i < names.len() ==> crate::planner_v2_directive::binds_order(
            contract,
            #[trigger] bindings[i],
            plan,
            names[i],
        )
}

/// What is found of the first `n` work orders that are kept.
pub open spec fn persisted_orders(
    contract: Contract,
    plan: PlannerReplannerV2PlanSnapshot,
    names: Seq<Seq<char>>,
    written: Seq<WrittenWorkOrder>,
    n: nat,
) -> Result<(), StoreError>
    decreases n,
{
    if n == 0 {
        Ok(())
    } else {
        crate::error::and_next(
            persisted_orders(contract, plan, names, written, (n - 1) as nat),
            crate::planner_v2_directive::persisted_verdict(contract, plan, names[n - 1], written),
        )
    }
}

proof fn lemma_persist_failure_stays(
    contract: Contract,
    plan: PlannerReplannerV2PlanSnapshot,
    names: Seq<Seq<char>>,
    written: Seq<WrittenWorkOrder>,
    n: nat,
    m: nat,
)
    requires
        n <= m,
        persisted_orders(contract, plan, names, written, n) is Err,
    ensures
        persisted_orders(contract, plan, names, written, m) == persisted_orders(
            contract,
            plan,
            names,
            written,
            n,
        ),
    decreases m,
{
    if n < m {
        lemma_persist_failure_stays(contract, plan, names, written, n, (m - 1) as nat);
    }
}

fn persist_orders(
    contract: &Contract,
    plan: &PlannerReplannerV2PlanSnapshot,
    names: &Vec<Text>,
    written: &Vec<WrittenWorkOrder>,
) -> (r: Result<Vec<PlannerDelegatedWorkOrderBindingV1>, StoreError>)
    ensures
        ({
            let expected = crate::planner_v2_directive::views(names@);
            match (
                r,
                persisted_orders(*contract, *plan, expected, written@, expected.len()),
            ) {
                (Ok(bindings), Ok(())) => binds_orders(*contract, bindings@, *plan, expected),
                (Err(error), Err(expected)) => error == expected,
                _ => false,
            }
        }),
{
    let ghost expected = crate::planner_v2_directive::views(names@);
    let mut bindings: Vec<PlannerDelegatedWorkOrderBindingV1> = Vec::new();
    let mut n: usize = 0;
    while n < names.len()
        invariant
            n <= names@.len(),
            expected == crate::planner_v2_directive::views(names@),
            bindings@.len() == n,
            forall|i: int|
                0 <= i < n ==> crate::planner_v2_directive::binds_order(
                    *contract,
                    #[trigger] bindings@[i],
                    *plan,
                    expected[i],
                ),
            persisted_orders(*contract, *plan, expected, written@, n as nat) is Ok,
        decreases names.len() - n,
    {
        proof {
            if persisted_orders(*contract, *plan, expected, written@, (n + 1) as nat) is Err {
                lemma_persist_failure_stays(
                    *contract,
                    *plan,
                    expected,
                    written@,
                    (n + 1) as nat,
                    expected.len(),
                );
            }
        }
        match persist_planner_work_order_binding(contract, plan, &names[n], written) {
            Ok(binding) => {
                bindings.push(binding);
            },
            Err(error) => return Err(error),
        }
        n += 1;
    }
    Ok(bindings)
}

/// The identities that were drawn for one delegation.
pub open spec fn draws_for(draws: Seq<Vec<PlannerDelegateDirectiveId>>, i: int) -> Seq<
    PlannerDelegateDirectiveId,
> {
    if 0 <= i < draws.len() {
        draws[i]@
    } else {
        Seq::empty()
    }
}

/// The identity that one delegation is given, once its work orders are kept.
pub open spec fn delegation_identity(
    events: Seq<EventEnvelope>,
    contract: Contract,
    delegation: PlannerPromptDelegationV1,
    i: int,
    local: Seq<LocalWorkOrder>,
    plan: PlannerReplannerV2PlanSnapshot,
    written: Seq<WrittenWorkOrder>,
    allocated: Seq<PlannerDelegateDirectiveId>,
    draws: Seq<PlannerDelegateDirectiveId>,
) -> Result<PlannerDelegateDirectiveId, StoreError> {
    match crate::planner_v2_directive::resolved_names(delegation.work_orders, local, plan) {
        None => Err(StoreError::InvalidStateEvent),
        Some(names) => if names.len() == 0 {
            Err(StoreError::InvalidStateEvent)
        } else {
            match persisted_orders(contract, plan, names, written, names.len()) {
                Err(error) => Err(error),
                Ok(()) => match crate::planner_v2_directive::fresh_identity(
                    events,
                    allocated,
                    draws,
                    0,
                ) {
                    Some(directive_id) => if i <= u32::MAX {
                        Ok(directive_id)
                    } else {
                        Err(StoreError::InvalidStateEvent)
                    },
                    None => Err(StoreError::InvalidStateEvent),
                },
            }
        },
    }
}

/// The identities that the first `n` delegations are given.
pub open spec fn delegation_identities(
    events: Seq<EventEnvelope>,
    contract: Contract,
    delegations: Seq<PlannerPromptDelegationV1>,
    local: Seq<LocalWorkOrder>,
    plan: PlannerReplannerV2PlanSnapshot,
    written: Seq<WrittenWorkOrder>,
    draws: Seq<Vec<PlannerDelegateDirectiveId>>,
    n: nat,
) -> Result<Seq<PlannerDelegateDirectiveId>, StoreError>
    decreases n,
{
    if n == 0 {
        Ok(Seq::empty())
    } else {
        match delegation_identities(
            events,
            contract,
            delegations,
            local,
            plan,
            written,
            draws,
            (n - 1) as nat,
        ) {
            Err(error) => Err(error),
            Ok(allocated) => match delegation_identity(
                events,
                contract,
                delegations[n - 1],
                n - 1,
                local,
                plan,
                written,
                allocated,
                draws_for(draws, n - 1),
            ) {
                Err(error) => Err(error),
                Ok(directive_id) => Ok(allocated.push(directive_id)),
            },
        }
    }
}

proof fn lemma_identity_failure_stays(
    events: Seq<EventEnvelope>,
    contract: Contract,
    delegations: Seq<PlannerPromptDelegationV1>,
    local: Seq<LocalWorkOrder>,
    plan: PlannerReplannerV2PlanSnapshot,
    written: Seq<WrittenWorkOrder>,
    draws: Seq<Vec<PlannerDelegateDirectiveId>>,
    n: nat,
    m: nat,
)
    requires
        n <= m,
        delegation_identities(events, contract, delegations, local, plan, written, draws, n) is Err,
    ensures
        delegation_identities(events, contract, delegations, local, plan, written, draws, m)
            == delegation_identities(
            events,
            contract,
            delegations,
            local,
            plan,
            written,
            draws,
            n,
        ),
    decreases m,
{
    if n < m {
        lemma_identity_failure_stays(
            events,
            contract,
            delegations,
            local,
            plan,
            written,
            draws,
            n,
            (m - 1) as nat,
        );
    }
}

/// Whether a delegation is resolved: its place, and the work orders that it selects.
pub open spec fn resolves_delegation(
    contract: Contract,
    accepted: PlannerAcceptedDelegationV1,
    delegation: PlannerPromptDelegationV1,
    i: int,
    local: Seq<LocalWorkOrder>,
    plan: PlannerReplannerV2PlanSnapshot,
) -> bool {
    &&& accepted.source_delegation_index == i
    &&& crate::planner_v2_directive::resolved_names(
        delegation.work_orders,
        local,
        plan,
    ) matches Some(names) && names.len() > 0 && binds_orders(
        contract,
        accepted.work_orders@,
        plan,
        names,
    )
}

fn resolve_delegation(
    log: &EventLog,
    contract: &Contract,
    delegation: &PlannerPromptDelegationV1,
    i: usize,
    local: &Vec<LocalWorkOrder>,
    plan: &PlannerReplannerV2PlanSnapshot,
    written: &Vec<WrittenWorkOrder>,
    allocated: &Vec<PlannerDelegateDirectiveId>,
    draws: &Vec<PlannerDelegateDirectiveId>,
) -> (r: Result<PlannerAcceptedDelegationV1, StoreError>)
    ensures
        match (
            r,
            delegation_identity(
                log@,
                *contract,
                *delegation,
                i as int,
                local@,
                *plan,
                written@,
                allocated@,
                draws@,
            ),
        ) {
            (Ok(accepted), Ok(directive_id)) => accepted.directive_id == directive_id
                && resolves_delegation(*contract, accepted, *delegation, i as int, local@, *plan),
            (Err(error), Err(expected)) => error == expected,
            _ => false,
        },
{
    let names = match resolve_planner_work_selection(&delegation.work_orders, local, plan) {
        Ok(names) => names,
        Err(error) => return Err(error),
    };
    if names.len() == 0 {
        return Err(StoreError::InvalidStateEvent);
    }
    let work_orders = match persist_orders(contract, plan, &names, written) {
        Ok(work_orders) => work_orders,
        Err(error) => return Err(error),
    };
    let directive_id = match fresh_planner_delegate_directive_id(log, allocated, draws) {
        Ok(directive_id) => directive_id,
        Err(error) => return Err(error),
    };
    if i as u64 > u32::MAX as u64 {
        return Err(StoreError::InvalidStateEvent);
    }
    Ok(
        PlannerAcceptedDelegationV1 {
            directive_id,
            source_delegation_index: i as u32,
            work_orders,
        },
    )
}

/// Whether delegations are resolved, one by one, under these identities.
pub open spec fn resolves_delegations(
    contract: Contract,
    accepted: Seq<PlannerAcceptedDelegationV1>,
    delegations: Seq<PlannerPromptDelegationV1>,
    identities: Seq<PlannerDelegateDirectiveId>,
    local: Seq<LocalWorkOrder>,
    plan: PlannerReplannerV2PlanSnapshot,
) -> bool {
    &&& accepted.len() == delegations.len()
    &&& identities.len() == delegations.len()
    &&& forall|i: int|
        0 <= i < accepted.len() ==> (#[trigger] accepted[i]).directive_id == identities[i]
            && resolves_delegation(contract, accepted[i], delegations[i], i, local, plan)
}

fn resolve_delegations(
    log: &EventLog,
    contract: &Contract,
    delegations: &Vec<PlannerPromptDelegationV1>,
    local: &Vec<LocalWorkOrder>,
    plan: &PlannerReplannerV2PlanSnapshot,
    written: &Vec<WrittenWorkOrder>,
    draws: &Vec<Vec<PlannerDelegateDirectiveId>>,
) -> (r: Result<Vec<PlannerAcceptedDelegationV1>, StoreError>)
    ensures
        match (
            r,
            delegation_identities(
                log@,
                *contract,
                delegations@,
                local@,
                *plan,
                written@,
                draws@,
                delegations@.len(),
            ),
        ) {
            (Ok(accepted), Ok(identities)) => resolves_delegations(
                *contract,
                accepted@,
                delegations@,
                identities,
                local@,
                *plan,
            ),
            (Err(error), Err(expected)) => error == expected,
            _ => false,
        },
{
    let mut accepted: Vec<PlannerAcceptedDelegationV1> = Vec::new();
    let mut allocated: Vec<PlannerDelegateDirectiveId> = Vec::new();
    let none: Vec<PlannerDelegateDirectiveId> = Vec::new();
    let mut n: usize = 0;
    while n < delegations.len()
        invariant
            n <= delegations@.len(),
            none@.len() == 0,
            allocated@.len() == n,
            accepted@.len() == n,
            delegation_identities(
                log@,
                *contract,
                delegations@,
                local@,
                *plan,
                written@,
                draws@,
                n as nat,
            ) == Ok::<Seq<PlannerDelegateDirectiveId>, StoreError>(allocated@),
            forall|i: int|
                0 <= i < n ==> (#[trigger] accepted@[i]).directive_id == allocated@[i]
                    && resolves_delegation(
                    *contract,
                    accepted@[i],
                    delegations@[i],
                    i,
                    local@,
                    *plan,
                ),
        decreases delegations.len() - n,
    {
        let drawn = if n < draws.len() {
            &draws[n]
        } else {
            &none
        };
        assert(drawn@ =~= draws_for(draws@, n as int));
        proof {
            if delegation_identities(
                log@,
                *contract,
                delegations@,
                local@,
                *plan,
                written@,
                draws@,
                (n + 1) as nat,
            ) is Err {
                lemma_identity_failure_stays(
                    log@,
                    *contract,
                    delegations@,
                    local@,
                    *plan,
                    written@,
                    draws@,
                    (n + 1) as nat,
                    delegations@.len(),
                );
            }
        }
        match resolve_delegation(
            log,
            contract,
            &delegations[n],
            n,
            local,
            plan,
            written,
            &allocated,
            drawn,
        ) {
            Ok(delegation) => {
                allocated.push(delegation.directive_id);
                accepted.push(delegation);
            },
            Err(error) => return Err(error),
        }
        n += 1;
    }
    Ok(accepted)
}

fn copy_texts(texts: &Vec<Text>) -> (r: Vec<Text>)
    ensures
        r@ == texts@,
{
    let mut copied: Vec<Text> = Vec::new();
    let mut i: usize = 0;
    while i < texts.len()
        invariant
            i <= texts@.len(),
            copied@ == texts@.take(i as int),
        decreases texts.len() - i,
    {
        assert(texts@.take(i + 1) =~= texts@.take(i as int).push(texts@[i as int]));
        copied.push(texts[i].clone());
        i += 1;
    }
    assert(texts@.take(i as int) =~= texts@);
    copied
}

/// What is found when the directive of an accepted output is resolved.
pub open spec fn resolution_verdict(
    events: Seq<EventEnvelope>,
    contract: Contract,
    directive: PlannerPromptDirectiveV1,
    authoritative: ValidatedPlannerReplannerV2Turn,
    written: Seq<WrittenWorkOrder>,
    draws: Seq<Vec<PlannerDelegateDirectiveId>>,
) -> Result<(), StoreError> {
    let local = authoritative.local_work_orders@;
    let plan = authoritative.plan;
    match directive.kind {
        PlannerPromptDirectiveKindV1::Execute =>
            match crate::planner_v2_directive::resolved_names(directive.execute, local, plan) {
            None => Err(StoreError::InvalidStateEvent),
            Some(names) => if names.len() != 1 {
                Err(StoreError::InvalidStateEvent)
            } else {
                crate::planner_v2_directive::persisted_verdict(contract, plan, names[0], written)
            },
        },
        PlannerPromptDirectiveKindV1::Delegate => crate::artifact::outcome(
            delegation_identities(
                events,
                contract,
                directive.delegations@,
                local,
                plan,
                written,
                draws,
                directive.delegations@.len(),
            ),
        ),
        _ => Ok(()),
    }
}

/// Whether a directive is resolved as it is owed.
pub open spec fn is_resolved(
    events: Seq<EventEnvelope>,
    contract: Contract,
    directive: PlannerPromptDirectiveV1,
    authoritative: ValidatedPlannerReplannerV2Turn,
    written: Seq<WrittenWorkOrder>,
    draws: Seq<Vec<PlannerDelegateDirectiveId>>,
    resolved: PlannerAcceptedDirectiveV1,
) -> bool {
    let local = authoritative.local_work_orders@;
    let plan = authoritative.plan;
    match (directive.kind, resolved) {
        (
            PlannerPromptDirectiveKindV1::Execute,
            PlannerAcceptedDirectiveV1::Execute { work_order },
        ) => crate::planner_v2_directive::resolved_names(
            directive.execute,
            local,
            plan,
        ) matches Some(names) && names.len() == 1 && crate::planner_v2_directive::binds_order(
            contract,
            work_order,
            plan,
            names[0],
        ),
        (
            PlannerPromptDirectiveKindV1::Delegate,
            PlannerAcceptedDirectiveV1::Delegate { delegations },
        ) => delegation_identities(
            events,
            contract,
            directive.delegations@,
            local,
            plan,
            written,
            draws,
            directive.delegations@.len(),
        ) matches Ok(identities) && resolves_delegations(
            contract,
            delegations@,
            directive.delegations@,
            identities,
            local,
            plan,
        ),
        (
            PlannerPromptDirectiveKindV1::Clarify,
            PlannerAcceptedDirectiveV1::Clarify { requests },
        ) => requests@ == directive.clarifications@,
        (
            PlannerPromptDirectiveKindV1::Escalate,
            PlannerAcceptedDirectiveV1::Escalate { requests },
        ) => requests@ == directive.escalations@,
        (
            PlannerPromptDirectiveKindV1::Finish,
            PlannerAcceptedDirectiveV1::FinishPendingGate { claims },
        ) => claims@ == directive.finish_claims@,
        _ => false,
    }
}

/// The directive of an accepted output, resolved against the plan that it results in. `written` is
/// what came of writing its work orders, and `draws` the identities drawn for each delegation.
pub fn build_planner_accepted_directive(
    log: &EventLog,
    contract: &Contract,
    directive: &PlannerPromptDirectiveV1,
    authoritative: &ValidatedPlannerReplannerV2Turn,
    written: &Vec<WrittenWorkOrder>,
    draws: &Vec<Vec<PlannerDelegateDirectiveId>>,
) -> (r: Result<PlannerAcceptedDirectiveV1, StoreError>)
    ensures
        match (
            r,
            resolution_verdict(
                log@,
                *contract,
                *directive,
                *authoritative,
                written@,
                draws@,
            ),
        ) {
            (Ok(resolved), Ok(())) => is_resolved(
                log@,
                *contract,
                *directive,
                *authoritative,
                written@,
                draws@,
                resolved,
            ),
            (Err(error), Err(expected)) => error == expected,
            _ => false,
        },
{
    let local = &authoritative.local_work_orders;
    let plan = &authoritative.plan;
    match directive.kind {
        PlannerPromptDirectiveKindV1::Execute => {
            let names = match resolve_planner_work_selection(&directive.execute, local, plan) {
                Ok(names) => names,
                Err(error) => return Err(error),
            };
            if names.len() != 1 {
                return Err(StoreError::InvalidStateEvent);
            }
            assert(crate::planner_v2_directive::views(names@)[0] == names@[0]@);
            match persist_planner_work_order_binding(contract, plan, &names[0], written) {
                Ok(work_order) => Ok(PlannerAcceptedDirectiveV1::Execute { work_order }),
                Err(error) => Err(error),
            }
        },
        PlannerPromptDirectiveKindV1::Delegate => match resolve_delegations(
            log,
            contract,
            &directive.delegations,
            local,
            plan,
            written,
            draws,
        ) {
            Ok(delegations) => Ok(PlannerAcceptedDirectiveV1::Delegate { delegations }),
            Err(error) => Err(error),
        },
        PlannerPromptDirectiveKindV1::Clarify => Ok(
            PlannerAcceptedDirectiveV1::Clarify { requests: copy_texts(&directive.clarifications) },
        ),
        PlannerPromptDirectiveKindV1::Escalate => Ok(
            PlannerAcceptedDirectiveV1::Escalate { requests: copy_texts(&directive.escalations) },
        ),
        PlannerPromptDirectiveKindV1::Finish => Ok(
            PlannerAcceptedDirectiveV1::FinishPendingGate {
                claims: copy_texts(&directive.finish_claims),
            },
        ),
    }
}

/// The names that the first `n` delegations select, one after another.
pub open spec fn delegated_names(
    delegations: Seq<PlannerPromptDelegationV1>,
    local: Seq<LocalWorkOrder>,
    plan: PlannerReplannerV2PlanSnapshot,
    n: nat,
) -> Option<Seq<Seq<char>>>
    decreases n,
{
    if n == 0 {
        Some(Seq::empty())
    } else {
        match (
            delegated_names(delegations, local, plan, (n - 1) as nat),
            crate::planner_v2_directive::resolved_names(
                delegations[n - 1].work_orders,
                local,
                plan,
            ),
        ) {
            (Some(before), Some(names)) => Some(before + names),
            _ => None,
        }
    }
}

proof fn lemma_names_prefix(
    delegations: Seq<PlannerPromptDelegationV1>,
    local: Seq<LocalWorkOrder>,
    plan: PlannerReplannerV2PlanSnapshot,
    n: nat,
    m: nat,
)
    requires
        n <= m,
        delegated_names(delegations, local, plan, m) is Some,
    ensures
        delegated_names(delegations, local, plan, n) is Some,
        ({
            let shorter = delegated_names(delegations, local, plan, n)->0;
            let longer = delegated_names(delegations, local, plan, m)->0;
            &&& shorter.len() <= longer.len()
            &&& forall|i: int| 0 <= i < shorter.len() ==> shorter[i] == longer[i]
        }),
    decreases m,
{
    if n < m {
        lemma_names_prefix(delegations, local, plan, n, (m - 1) as nat);
    }
}

/// The names of the work orders that the model's own directive delegates.
pub open spec fn authoritative_names(directive: ResolvedPlannerDirective) -> Seq<Seq<char>> {
    match directive {
        ResolvedPlannerDirective::Delegate { work_order_ids } =>
            crate::planner_v2_directive::views(work_order_ids@),
        _ => Seq::empty(),
    }
}

/// Whether two lists have the same members.
pub open spec fn same_members(first: Seq<Seq<char>>, second: Seq<Seq<char>>) -> bool {
    &&& forall|i: int| 0 <= i < first.len() ==> second.contains(#[trigger] first[i])
    &&& forall|i: int| 0 <= i < second.len() ==> first.contains(#[trigger] second[i])
}

fn is_member(names: &Vec<Text>, name: &Text) -> (r: bool)
    ensures
        r == crate::planner_v2_directive::views(names@).contains(name@),
{
    let mut i: usize = 0;
    while i < names.len()
        invariant
            i <= names@.len(),
            forall|j: int|
                0 <= j < i ==> crate::planner_v2_directive::views(names@)[j] != name@,
        decreases names.len() - i,
    {
        assert(crate::planner_v2_directive::views(names@)[i as int] == names@[i as int]@);
        if names[i] == *name {
            return true;
        }
        i += 1;
    }
    false
}

fn all_members(first: &Vec<Text>, second: &Vec<Text>) -> (r: bool)
    ensures
        r == (forall|i: int|
            0 <= i < first@.len() ==> crate::planner_v2_directive::views(second@).contains(
                #[trigger] crate::planner_v2_directive::views(first@)[i],
            )),
{
    let mut i: usize = 0;
    while i < first.len()
        invariant
            i <= first@.len(),
            forall|j: int|
                0 <= j < i ==> crate::planner_v2_directive::views(second@).contains(
                    #[trigger] crate::planner_v2_directive::views(first@)[j],
                ),
        decreases first.len() - i,
    {
        assert(crate::planner_v2_directive::views(first@)[i as int] == first@[i as int]@);
        if !is_member(second, &first[i]) {
            return false;
        }
        i += 1;
    }
    true
}

/// Whether an accepted delegation is the one that the model's directive has in its place, under an
/// identity that is not on record.
pub open spec fn delegation_matches(
    events: Seq<EventEnvelope>,
    contract: Contract,
    accepted: PlannerAcceptedDelegationV1,
    delegation: PlannerPromptDelegationV1,
    i: int,
    local: Seq<LocalWorkOrder>,
    plan: PlannerReplannerV2PlanSnapshot,
) -> bool {
    &&& resolves_delegation(contract, accepted, delegation, i, local, plan)
    &&& !crate::planner_v2_directive::directive_seen(events, accepted.directive_id)
}

/// Whether accepted delegations are those of the model's directive: each is in its place, no identity
/// and no work order occurs twice, and together they are exactly what the plan's directive delegates.
pub open spec fn delegations_match(
    events: Seq<EventEnvelope>,
    contract: Contract,
    accepted: Seq<PlannerAcceptedDelegationV1>,
    delegations: Seq<PlannerPromptDelegationV1>,
    authoritative: ValidatedPlannerReplannerV2Turn,
) -> bool {
    let local = authoritative.local_work_orders@;
    let plan = authoritative.plan;
    &&& accepted.len() == delegations.len()
    &&& forall|i: int|
        0 <= i < accepted.len() ==> delegation_matches(
            events,
            contract,
            #[trigger] accepted[i],
            delegations[i],
            i,
            local,
            plan,
        )
    &&& forall|i: int, j: int|
        0 <= i < j < accepted.len() ==> (#[trigger] accepted[i]).directive_id != (
        #[trigger] accepted[j]).directive_id
    &&& delegated_names(delegations, local, plan, delegations.len()) matches Some(names)
        && names.no_duplicates() && same_members(
        names,
        authoritative_names(authoritative.directive),
    )
}

fn checks_orders(
    contract: &Contract,
    bindings: &Vec<PlannerDelegatedWorkOrderBindingV1>,
    plan: &PlannerReplannerV2PlanSnapshot,
    names: &Vec<Text>,
) -> (r: bool)
    requires
        crate::planner_v2_directive::all_planned(
            *plan,
            crate::planner_v2_directive::views(names@),
        ),
    ensures
        r == binds_orders(
            *contract,
            bindings@,
            *plan,
            crate::planner_v2_directive::views(names@),
        ),
{
    if bindings.len() != names.len() {
        return false;
    }
    let mut i: usize = 0;
    let ghost expected = crate::planner_v2_directive::views(names@);
    while i < names.len()
        invariant
            i <= names@.len(),
            bindings@.len() == names@.len(),
            expected == crate::planner_v2_directive::views(names@),
            crate::planner_v2_directive::all_planned(*plan, expected),
            forall|j: int|
                0 <= j < i ==> crate::planner_v2_directive::binds_order(
                    *contract,
                    #[trigger] bindings@[j],
                    *plan,
                    expected[j],
                ),
        decreases names.len() - i,
    {
        assert(expected[i as int] == names@[i as int]@);
        match planner_work_order_binding(contract, plan, &names[i]) {
            Ok(binding) => if bindings[i] != binding {
                assert(!crate::planner_v2_directive::binds_order(
                    *contract,
                    bindings@[i as int],
                    *plan,
                    expected[i as int],
                ));
                return false;
            },
            Err(_) => {
                assert(false);
                return false;
            },
        }
        i += 1;
    }
    true
}

fn checks_delegation(
    log: &EventLog,
    contract: &Contract,
    accepted: &PlannerAcceptedDelegationV1,
    delegation: &PlannerPromptDelegationV1,
    i: usize,
    local: &Vec<LocalWorkOrder>,
    plan: &PlannerReplannerV2PlanSnapshot,
) -> (r: Option<Vec<Text>>)
    ensures
        r is Some <==> delegation_matches(
            log@,
            *contract,
            *accepted,
            *delegation,
            i as int,
            local@,
            *plan,
        ),
        r matches Some(names) ==> crate::planner_v2_directive::resolved_names(
            delegation.work_orders,
            local@,
            *plan,
        ) == Some(crate::planner_v2_directive::views(names@)),
{
    let names = match resolve_planner_work_selection(&delegation.work_orders, local, plan) {
        Ok(names) => names,
        Err(_) => return None,
    };
    if accepted.source_delegation_index as u64 == i as u64 && names.len() > 0 && checks_orders(
        contract,
        &accepted.work_orders,
        plan,
        &names,
    ) && !planner_delegate_directive_id_seen(log, accepted.directive_id) {
        Some(names)
    } else {
        None
    }
}

fn collect_names(
    all: &mut Vec<Text>,
    names: &Vec<Text>,
    Ghost(whole): Ghost<Seq<Seq<char>>>,
) -> (r: bool)
    requires
        crate::planner_v2_directive::views(old(all)@).no_duplicates(),
        old(all)@.len() + names@.len() <= whole.len(),
        forall|i: int|
            0 <= i < old(all)@.len() + names@.len() ==> #[trigger] whole[i] == (
            crate::planner_v2_directive::views(old(all)@) + crate::planner_v2_directive::views(
                names@,
            ))[i],
    ensures
        r ==> crate::planner_v2_directive::views(final(all)@) == crate::planner_v2_directive::views(
            old(all)@,
        ) + crate::planner_v2_directive::views(names@),
        r ==> crate::planner_v2_directive::views(final(all)@).no_duplicates(),
        !r ==> !whole.no_duplicates(),
{
    let ghost before = crate::planner_v2_directive::views(all@);
    let ghost added = crate::planner_v2_directive::views(names@);
    let mut k: usize = 0;
    assert(before + added.take(0) =~= before);
    while k < names.len()
        invariant
            k <= names@.len(),
            added == crate::planner_v2_directive::views(names@),
            crate::planner_v2_directive::views(all@) == before + added.take(k as int),
            crate::planner_v2_directive::views(all@).no_duplicates(),
            before.len() + added.len() <= whole.len(),
            forall|i: int|
                0 <= i < before.len() + added.len() ==> #[trigger] whole[i] == (before + added)[i],
        decreases names.len() - k,
    {
        let ghost here = crate::planner_v2_directive::views(all@);
        assert(added[k as int] == names@[k as int]@);
        if is_member(all, &names[k]) {
            proof {
                let a = choose|a: int| 0 <= a < here.len() && here[a] == names@[k as int]@;
                assert(here[a] == (before + added)[a]);
                assert(whole[a] == (before + added)[a]);
                let b = before.len() + k;
                assert(whole[b] == (before + added)[b]);
                assert(whole[a] == whole[b]);
            }
            return false;
        }
        all.push(names[k].clone());
        proof {
            let after = crate::planner_v2_directive::views(all@);
            assert(after =~= here.push(names@[k as int]@));
            assert(after =~= before + added.take(k + 1));
            assert forall|i: int, j: int| 0 <= i < after.len() && 0 <= j < after.len() && i
                != j implies after[i] != after[j] by {
                if i < here.len() && j < here.len() {
                    assert(here[i] != here[j]);
                } else if i < here.len() {
                    assert(here.contains(here[i]));
                } else {
                    assert(here.contains(here[j]));
                }
            }
        }
        k += 1;
    }
    assert(added.take(k as int) =~= added);
    true
}

fn is_fresh_among(
    accepted: &Vec<PlannerAcceptedDelegationV1>,
    n: usize,
) -> (r: bool)
    requires
        n < accepted@.len(),
    ensures
        r == (forall|i: int|
            0 <= i < n ==> (#[trigger] accepted@[i]).directive_id
                != accepted@[n as int].directive_id),
{
    let mut i: usize = 0;
    while i < n
        invariant
            i <= n < accepted@.len(),
            forall|j: int|
                0 <= j < i ==> (#[trigger] accepted@[j]).directive_id
                    != accepted@[n as int].directive_id,
        decreases n - i,
    {
        if accepted[i].directive_id == accepted[n].directive_id {
            assert(accepted@[i as int].directive_id == accepted@[n as int].directive_id);
            return false;
        }
        i += 1;
    }
    true
}

fn checks_delegations(
    log: &EventLog,
    contract: &Contract,
    accepted: &Vec<PlannerAcceptedDelegationV1>,
    delegations: &Vec<PlannerPromptDelegationV1>,
    authoritative: &ValidatedPlannerReplannerV2Turn,
) -> (r: bool)
    ensures
        r == delegations_match(log@, *contract, accepted@, delegations@, *authoritative),
{
    if accepted.len() != delegations.len() {
        return false;
    }
    let local = &authoritative.local_work_orders;
    let plan = &authoritative.plan;
    let ghost whole = delegated_names(delegations@, local@, *plan, delegations@.len());
    let mut all: Vec<Text> = Vec::new();
    let mut n: usize = 0;
    assert(crate::planner_v2_directive::views(all@) =~= Seq::<Seq<char>>::empty());
    while n < accepted.len()
        invariant
            n <= accepted@.len(),
            accepted@.len() == delegations@.len(),
            *local == authoritative.local_work_orders,
            *plan == authoritative.plan,
            whole == delegated_names(delegations@, local@, *plan, delegations@.len()),
            forall|i: int|
                0 <= i < n ==> delegation_matches(
                    log@,
                    *contract,
                    #[trigger] accepted@[i],
                    delegations@[i],
                    i,
                    local@,
                    *plan,
                ),
            forall|i: int, j: int|
                0 <= i < j < n ==> (#[trigger] accepted@[i]).directive_id != (
                #[trigger] accepted@[j]).directive_id,
            delegated_names(delegations@, local@, *plan, n as nat) == Some(
                crate::planner_v2_directive::views(all@),
            ),
            crate::planner_v2_directive::views(all@).no_duplicates(),
        decreases accepted.len() - n,
    {
        let names = match checks_delegation(
            log,
            contract,
            &accepted[n],
            &delegations[n],
            n,
            local,
            plan,
        ) {
            Some(names) => names,
            None => {
                assert(!delegation_matches(
                    log@,
                    *contract,
                    accepted@[n as int],
                    delegations@[n as int],
                    n as int,
                    local@,
                    *plan,
                ));
                return false;
            },
        };
        if !is_fresh_among(accepted, n) {
            return false;
        }
        let ghost before = crate::planner_v2_directive::views(all@);
        let ghost added = crate::planner_v2_directive::views(names@);
        let ghost compared = if whole is Some {
            whole->0
        } else {
            before + added
        };
        proof {
            if whole is Some {
                lemma_names_prefix(
                    delegations@,
                    local@,
                    *plan,
                    (n + 1) as nat,
                    delegations@.len(),
                );
            }
        }
        if !collect_names(&mut all, &names, Ghost(compared)) {
            return false;
        }
        n += 1;
    }
    let none: Vec<Text> = Vec::new();
    let expected = match &authoritative.directive {
        ResolvedPlannerDirective::Delegate { work_order_ids } => work_order_ids,
        _ => &none,
    };
    assert(crate::planner_v2_directive::views(expected@) =~= authoritative_names(
        authoritative.directive,
    ));
    all_members(&all, expected) && all_members(expected, &all)
}

/// Whether the resolved directive of an accepted turn is the one that the model's output comes to.
pub open spec fn directive_matches(
    events: Seq<EventEnvelope>,
    contract: Contract,
    directive: PlannerPromptDirectiveV1,
    authoritative: ValidatedPlannerReplannerV2Turn,
    resolved: PlannerAcceptedDirectiveV1,
) -> bool {
    let local = authoritative.local_work_orders@;
    let plan = authoritative.plan;
    match (directive.kind, resolved) {
        (
            PlannerPromptDirectiveKindV1::Execute,
            PlannerAcceptedDirectiveV1::Execute { work_order },
        ) => crate::planner_v2_directive::resolved_names(
            directive.execute,
            local,
            plan,
        ) matches Some(names) && names.len() == 1 && (
        authoritative.directive matches ResolvedPlannerDirective::Execute { work_order_id }
            && work_order_id@ == names[0]) && crate::planner_v2_directive::binds_order(
            contract,
            work_order,
            plan,
            names[0],
        ),
        (
            PlannerPromptDirectiveKindV1::Delegate,
            PlannerAcceptedDirectiveV1::Delegate { delegations },
        ) => delegations_match(
            events,
            contract,
            delegations@,
            directive.delegations@,
            authoritative,
        ),
        (
            PlannerPromptDirectiveKindV1::Clarify,
            PlannerAcceptedDirectiveV1::Clarify { requests },
        ) => authoritative.directive is Clarify && requests.same(&directive.clarifications),
        (
            PlannerPromptDirectiveKindV1::Escalate,
            PlannerAcceptedDirectiveV1::Escalate { requests },
        ) => authoritative.directive is Escalate && requests.same(&directive.escalations),
        (
            PlannerPromptDirectiveKindV1::Finish,
            PlannerAcceptedDirectiveV1::FinishPendingGate { claims },
        ) => authoritative.directive is FinishPendingGate && claims.same(
            &directive.finish_claims,
        ),
        _ => false,
    }
}

fn checks_execution(
    contract: &Contract,
    directive: &PlannerPromptDirectiveV1,
    authoritative: &ValidatedPlannerReplannerV2Turn,
    work_order: &PlannerDelegatedWorkOrderBindingV1,
) -> (r: bool)
    ensures
        r == (crate::planner_v2_directive::resolved_names(
            directive.execute,
            authoritative.local_work_orders@,
            authoritative.plan,
        ) matches Some(names) && names.len() == 1 && (
        authoritative.directive matches ResolvedPlannerDirective::Execute { work_order_id }
            && work_order_id@ == names[0]) && crate::planner_v2_directive::binds_order(
            *contract,
            *work_order,
            authoritative.plan,
            names[0],
        )),
{
    let names = match resolve_planner_work_selection(
        &directive.execute,
        &authoritative.local_work_orders,
        &authoritative.plan,
    ) {
        Ok(names) => names,
        Err(_) => return false,
    };
    if names.len() != 1 {
        return false;
    }
    assert(crate::planner_v2_directive::views(names@)[0] == names@[0]@);
    let named = match &authoritative.directive {
        ResolvedPlannerDirective::Execute { work_order_id } => *work_order_id == names[0],
        _ => false,
    };
    match planner_work_order_binding(contract, &authoritative.plan, &names[0]) {
        Ok(expected) => named && *work_order == expected,
        Err(_) => false,
    }
}

/// Refuses an accepted turn whose resolved directive is not the one that the model's output comes to.
pub fn validate_planner_prompt_directive_shape(
    log: &EventLog,
    contract: &Contract,
    directive: &PlannerPromptDirectiveV1,
    authoritative: &ValidatedPlannerReplannerV2Turn,
    resolved: &PlannerAcceptedDirectiveV1,
) -> (r: Result<(), StoreError>)
    ensures
        r == crate::error::demand(
            directive_matches(log@, *contract, *directive, *authoritative, *resolved),
        ),
{
    let matches = match (directive.kind, resolved) {
        (
            PlannerPromptDirectiveKindV1::Execute,
            PlannerAcceptedDirectiveV1::Execute { work_order },
        ) => checks_execution(contract, directive, authoritative, work_order),
        (
            PlannerPromptDirectiveKindV1::Delegate,
            PlannerAcceptedDirectiveV1::Delegate { delegations },
        ) => checks_delegations(log, contract, delegations, &directive.delegations, authoritative),
        (
            PlannerPromptDirectiveKindV1::Clarify,
            PlannerAcceptedDirectiveV1::Clarify { requests },
        ) => match &authoritative.directive {
            ResolvedPlannerDirective::Clarify => *requests == directive.clarifications,
            _ => false,
        },
        (
            PlannerPromptDirectiveKindV1::Escalate,
            PlannerAcceptedDirectiveV1::Escalate { requests },
        ) => match &authoritative.directive {
            ResolvedPlannerDirective::Escalate => *requests == directive.escalations,
            _ => false,
        },
        (
            PlannerPromptDirectiveKindV1::Finish,
            PlannerAcceptedDirectiveV1::FinishPendingGate { claims },
        ) => match &authoritative.directive {
            ResolvedPlannerDirective::FinishPendingGate => *claims == directive.finish_claims,
            _ => false,
        },
        _ => false,
    };
    if matches {
        Ok(())
    } else {
        Err(StoreError::InvalidStateEvent)
    }
}

proof fn lemma_identities_are_fresh(
    events: Seq<EventEnvelope>,
    contract: Contract,
    delegations: Seq<PlannerPromptDelegationV1>,
    local: Seq<LocalWorkOrder>,
    plan: PlannerReplannerV2PlanSnapshot,
    written: Seq<WrittenWorkOrder>,
    draws: Seq<Vec<PlannerDelegateDirectiveId>>,
    n: nat,
)
    requires
        delegation_identities(events, contract, delegations, local, plan, written, draws, n) is Ok,
    ensures
        ({
            let identities = delegation_identities(
                events,
                contract,
                delegations,
                local,
                plan,
                written,
                draws,
                n,
            )->Ok_0;
            &&& identities.len() == n
            &&& identities.no_duplicates()
            &&& forall|i: int|
                0 <= i < n ==> !crate::planner_v2_directive::directive_seen(
                    events,
                    #[trigger] identities[i],
                )
        }),
    decreases n,
{
    if n > 0 {
        lemma_identities_are_fresh(
            events,
            contract,
            delegations,
            local,
            plan,
            written,
            draws,
            (n - 1) as nat,
        );
        let before = delegation_identities(
            events,
            contract,
            delegations,
            local,
            plan,
            written,
            draws,
            (n - 1) as nat,
        )->Ok_0;
        crate::planner_v2_directive::law_given_identities_are_fresh(
            events,
            before,
            draws_for(draws, n - 1),
            0,
        );
        let identities = delegation_identities(
            events,
            contract,
            delegations,
            local,
            plan,
            written,
            draws,
            n,
        )->Ok_0;
        assert forall|i: int, j: int| 0 <= i < n && 0 <= j < n && i != j implies identities[i]
            != identities[j] by {
            if i < n - 1 && j < n - 1 {
                assert(before[i] != before[j]);
            } else if i < n - 1 {
                assert(before.contains(before[i]));
            } else {
                assert(before.contains(before[j]));
            }
        }
    }
}

/// Delegations that are built pass the check that they are held to: each is in its place under an
/// identity that is not on record, and no identity is given twice.
pub proof fn law_built_delegations_match(
    events: Seq<EventEnvelope>,
    contract: Contract,
    accepted: Seq<PlannerAcceptedDelegationV1>,
    delegations: Seq<PlannerPromptDelegationV1>,
    local: Seq<LocalWorkOrder>,
    plan: PlannerReplannerV2PlanSnapshot,
    written: Seq<WrittenWorkOrder>,
    draws: Seq<Vec<PlannerDelegateDirectiveId>>,
)
    requires
        delegation_identities(
            events,
            contract,
            delegations,
            local,
            plan,
            written,
            draws,
            delegations.len(),
        ) matches Ok(identities) && resolves_delegations(
            contract,
            accepted,
            delegations,
            identities,
            local,
            plan,
        ),
    ensures
        forall|i: int|
            0 <= i < accepted.len() ==> delegation_matches(
                events,
                contract,
                #[trigger] accepted[i],
                delegations[i],
                i,
                local,
                plan,
            ),
        forall|i: int, j: int|
            0 <= i < j < accepted.len() ==> (#[trigger] accepted[i]).directive_id != (
            #[trigger] accepted[j]).directive_id,
{
    lemma_identities_are_fresh(
        events,
        contract,
        delegations,
        local,
        plan,
        written,
        draws,
        delegations.len(),
    );
    let identities = delegation_identities(
        events,
        contract,
        delegations,
        local,
        plan,
        written,
        draws,
        delegations.len(),
    )->Ok_0;
    assert forall|i: int| 0 <= i < accepted.len() implies delegation_matches(
        events,
        contract,
        #[trigger] accepted[i],
        delegations[i],
        i,
        local,
        plan,
    ) by {
        assert(!crate::planner_v2_directive::directive_seen(events, identities[i]));
    }
    assert forall|i: int, j: int| 0 <= i < j < accepted.len() implies (
    #[trigger] accepted[i]).directive_id != (#[trigger] accepted[j]).directive_id by {
        assert(identities[i] != identities[j]);
    }
}

/// A directive is resolved as what it is: executing one planned order, delegating each delegation at its
/// own place, asking for exactly what was asked, or claiming exactly what was claimed.
pub proof fn law_directives_are_resolved_as_what_they_are(
    events: Seq<EventEnvelope>,
    contract: Contract,
    directive: PlannerPromptDirectiveV1,
    authoritative: ValidatedPlannerReplannerV2Turn,
    written: Seq<WrittenWorkOrder>,
    draws: Seq<Vec<PlannerDelegateDirectiveId>>,
    resolved: PlannerAcceptedDirectiveV1,
    i: int,
)
    requires
        is_resolved(events, contract, directive, authoritative, written, draws, resolved),
    ensures
        match directive.kind {
            PlannerPromptDirectiveKindV1::Execute => resolved is Execute,
            PlannerPromptDirectiveKindV1::Delegate => resolved
                matches PlannerAcceptedDirectiveV1::Delegate { delegations } && {
                &&& delegations@.len() == directive.delegations@.len()
                &&& 0 <= i < delegations@.len() ==> {
                    &&& delegations@[i].source_delegation_index == i
                    &&& delegations@[i].work_orders@.len() > 0
                }
            },
            PlannerPromptDirectiveKindV1::Clarify => resolved
                matches PlannerAcceptedDirectiveV1::Clarify { requests } && requests@
                == directive.clarifications@,
            PlannerPromptDirectiveKindV1::Escalate => resolved
                matches PlannerAcceptedDirectiveV1::Escalate { requests } && requests@
                == directive.escalations@,
            PlannerPromptDirectiveKindV1::Finish => resolved
                matches PlannerAcceptedDirectiveV1::FinishPendingGate { claims } && claims@
                == directive.finish_claims@,
        },
{
    if let PlannerAcceptedDirectiveV1::Delegate { delegations } = resolved {
        if 0 <= i < delegations@.len() {
            let given = delegations@[i];
        }
    }
}

/// A resolved directive matches only where the turn that was applied says the same: the same kind of
/// directive on the same work orders.
pub proof fn law_matching_directives_follow_the_turn(
    events: Seq<EventEnvelope>,
    contract: Contract,
    directive: PlannerPromptDirectiveV1,
    authoritative: ValidatedPlannerReplannerV2Turn,
    resolved: PlannerAcceptedDirectiveV1,
    i: int,
)
    requires
        directive_matches(events, contract, directive, authoritative, resolved),
    ensures
        resolved is Execute <==> directive.kind == PlannerPromptDirectiveKindV1::Execute,
        resolved is Delegate <==> directive.kind == PlannerPromptDirectiveKindV1::Delegate,
        resolved is Clarify <==> directive.kind == PlannerPromptDirectiveKindV1::Clarify,
        resolved is Escalate <==> directive.kind == PlannerPromptDirectiveKindV1::Escalate,
        resolved is FinishPendingGate <==> directive.kind == PlannerPromptDirectiveKindV1::Finish,
        resolved is Clarify ==> authoritative.directive is Clarify,
        resolved is Escalate ==> authoritative.directive is Escalate,
        resolved is FinishPendingGate ==> authoritative.directive is FinishPendingGate,
        resolved matches PlannerAcceptedDirectiveV1::Execute { work_order } ==> (
        authoritative.directive matches ResolvedPlannerDirective::Execute { work_order_id }
            && work_order_id@ == work_order.work_order_id@),
        resolved matches PlannerAcceptedDirectiveV1::Delegate { delegations } ==> {
            &&& delegations@.len() == directive.delegations@.len()
            &&& 0 <= i < delegations@.len() ==> {
                &&& delegations@[i].source_delegation_index == i
                &&& delegations@[i].work_orders@.len() > 0
                &&& !crate::planner_v2_directive::directive_seen(
                    events,
                    delegations@[i].directive_id,
                )
            }
        },
{
    if let PlannerAcceptedDirectiveV1::Delegate { delegations } = resolved {
        if 0 <= i < delegations@.len() {
            let given = delegations@[i];
        }
    }
}

} // verus!

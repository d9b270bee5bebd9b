//! What a planner turn stands on: the events behind its evidence, and the plan that it builds on.

use vstd::prelude::*;
use crate::artifact::{digest_matches_artifact, require_artifact_media_type};
use crate::child::ChildExecutionFinished;
use crate::child_outcome::ChildExecutionOutcome;
use crate::contract::Contract;
use crate::error::StoreError;
use crate::event::{EventEnvelope, EventPayload};
use crate::identity::RunId;
use crate::planner_prompt::PlannerReplannerV2PlanSnapshot;
use crate::planner_turn::{
    PlannerAcceptedRootPlanEvidenceV2, PlannerBasePlanBindingV1, PlannerChildCancelledEvidenceV2,
    PlannerChildFailedEvidenceV2, PlannerChildHandoffEvidenceV2, PlannerEvidenceEntryV2,
    PlannerEvidenceMaterialV2, PlannerTurnPreparedV1, PlannerTurnPurposeV1,
};
use crate::planner_v2_evidence::latest_planner_accepted_before;
use crate::planning_ground::planner_run_id;
use crate::store::Store;
use crate::text::Same;

verus! {

/// Whether the evidence of a root plan says what the acceptance before it says.
pub open spec fn root_material_stands(
    store: Store,
    event: EventEnvelope,
    run_id: RunId,
    evidence: PlannerAcceptedRootPlanEvidenceV2,
) -> bool {
    match crate::planning_ground::event_of_run(
        store,
        event.session_id,
        run_id,
        evidence.accepted_plan_event_id,
    ) {
        None => false,
        Some(source) => match crate::planner_v2_sources::review_in(source) {
            None => false,
            Some(accepted) => {
                &&& source.sequence < event.sequence
                &&& accepted.candidate.plan_artifact.same(&evidence.accepted_plan_artifact)
                &&& accepted.candidate.plan_digest@ == evidence.accepted_plan_digest@
                &&& accepted.candidate.plan_revision == evidence.accepted_plan_revision
            },
        },
    }
}

fn checks_root_material(
    store: &Store,
    event: &EventEnvelope,
    run_id: RunId,
    evidence: &PlannerAcceptedRootPlanEvidenceV2,
) -> (r: bool)
    ensures
        r == root_material_stands(*store, *event, run_id, *evidence),
{
    match store.log.event(event.session_id, run_id, evidence.accepted_plan_event_id) {
        Ok(source) => match &source.payload {
            EventPayload::PlanSemanticReviewAccepted(accepted) => source.sequence < event.sequence
                && accepted.candidate.plan_artifact == evidence.accepted_plan_artifact
                && accepted.candidate.plan_digest == evidence.accepted_plan_digest
                && accepted.candidate.plan_revision == evidence.accepted_plan_revision,
            _ => false,
        },
        Err(_) => false,
    }
}

/// Whether the evidence of a handoff says what the handoff and the end of the child say, in their
/// order.
pub open spec fn handoff_material_stands(
    store: Store,
    event: EventEnvelope,
    run_id: RunId,
    evidence: PlannerChildHandoffEvidenceV2,
) -> bool {
    match (
        crate::planning_ground::event_of_run(
            store,
            event.session_id,
            run_id,
            evidence.handoff_event_id,
        ),
        crate::planning_ground::event_of_run(
            store,
            event.session_id,
            run_id,
            evidence.finished_event_id,
        ),
    ) {
        (Some(handoff), Some(finished)) => match (
            crate::planner_v2_sources::handoff_in(handoff),
            crate::planner_v2_sources::finish_in(finished),
        ) {
            (Some(committed), Some(terminal)) => {
                &&& handoff.sequence < finished.sequence
                &&& finished.sequence < event.sequence
                &&& committed.binding == evidence.binding
                &&& committed.handoff_id == evidence.handoff_id
                &&& committed.handoff_artifact.same(&evidence.handoff_artifact)
                &&& committed.handoff_digest@ == evidence.handoff_digest@
                &&& terminal.binding == evidence.binding
                &&& terminal.handoff_event_id == Some(evidence.handoff_event_id)
                &&& terminal.outcome is Succeeded
            },
            _ => false,
        },
        _ => false,
    }
}

fn succeeded(outcome: &ChildExecutionOutcome) -> (r: bool)
    ensures
        r == (*outcome is Succeeded),
{
    match outcome {
        ChildExecutionOutcome::Succeeded => true,
        _ => false,
    }
}

fn checks_handoff_material(
    store: &Store,
    event: &EventEnvelope,
    run_id: RunId,
    evidence: &PlannerChildHandoffEvidenceV2,
) -> (r: bool)
    ensures
        r == handoff_material_stands(*store, *event, run_id, *evidence),
{
    let handoff = match store.log.event(event.session_id, run_id, evidence.handoff_event_id) {
        Ok(handoff) => handoff,
        Err(_) => return false,
    };
    let finished = match store.log.event(event.session_id, run_id, evidence.finished_event_id) {
        Ok(finished) => finished,
        Err(_) => return false,
    };
    match (&handoff.payload, &finished.payload) {
        (
            EventPayload::ChildHandoffCommitted(committed),
            EventPayload::ChildExecutionFinished(terminal),
        ) => handoff.sequence < finished.sequence && finished.sequence < event.sequence
            && committed.binding == evidence.binding && committed.handoff_id == evidence.handoff_id
            && committed.handoff_artifact == evidence.handoff_artifact && committed.handoff_digest
            == evidence.handoff_digest && terminal.binding == evidence.binding
            && terminal.handoff_event_id == Some(evidence.handoff_event_id) && succeeded(
            &terminal.outcome,
        ),
        _ => false,
    }
}

/// Whether the evidence of a failure says what the end of the child says.
pub open spec fn failed_material_stands(
    store: Store,
    event: EventEnvelope,
    run_id: RunId,
    evidence: PlannerChildFailedEvidenceV2,
) -> bool {
    match crate::planning_ground::event_of_run(
        store,
        event.session_id,
        run_id,
        evidence.finished_event_id,
    ) {
        None => false,
        Some(finished) => match crate::planner_v2_sources::finish_in(finished) {
            None => false,
            Some(terminal) => {
                &&& finished.sequence < event.sequence
                &&& terminal.binding == evidence.binding
                &&& match terminal.outcome {
                    ChildExecutionOutcome::Failed { kind, retry, cause } => kind == evidence.kind
                        && retry == evidence.retry && cause.same(&evidence.cause),
                    _ => false,
                }
                &&& evidence.evidence_digest@ == evidence.evidence_artifact.sha256@
            },
        },
    }
}

fn checks_failed_material(
    store: &Store,
    event: &EventEnvelope,
    run_id: RunId,
    evidence: &PlannerChildFailedEvidenceV2,
) -> (r: bool)
    ensures
        r == failed_material_stands(*store, *event, run_id, *evidence),
{
    match store.log.event(event.session_id, run_id, evidence.finished_event_id) {
        Ok(finished) => match &finished.payload {
            EventPayload::ChildExecutionFinished(terminal) => {
                let failed_alike = match &terminal.outcome {
                    ChildExecutionOutcome::Failed { kind, retry, cause } => *kind == evidence.kind
                        && *retry == evidence.retry && *cause == evidence.cause,
                    _ => false,
                };
                finished.sequence < event.sequence && terminal.binding == evidence.binding
                    && failed_alike && digest_matches_artifact(
                    &evidence.evidence_digest,
                    &evidence.evidence_artifact,
                )
            },
            _ => false,
        },
        Err(_) => false,
    }
}

/// Whether the evidence of a cancellation says what the end of the child says.
pub open spec fn cancelled_material_stands(
    store: Store,
    event: EventEnvelope,
    run_id: RunId,
    evidence: PlannerChildCancelledEvidenceV2,
) -> bool {
    match crate::planning_ground::event_of_run(
        store,
        event.session_id,
        run_id,
        evidence.finished_event_id,
    ) {
        None => false,
        Some(finished) => match crate::planner_v2_sources::finish_in(finished) {
            None => false,
            Some(terminal) => {
                &&& finished.sequence < event.sequence
                &&& terminal.binding == evidence.binding
                &&& match terminal.outcome {
                    ChildExecutionOutcome::Cancelled { cause } => cause == evidence.cause,
                    _ => false,
                }
            },
        },
    }
}

fn checks_cancelled_material(
    store: &Store,
    event: &EventEnvelope,
    run_id: RunId,
    evidence: &PlannerChildCancelledEvidenceV2,
) -> (r: bool)
    ensures
        r == cancelled_material_stands(*store, *event, run_id, *evidence),
{
    match store.log.event(event.session_id, run_id, evidence.finished_event_id) {
        Ok(finished) => match &finished.payload {
            EventPayload::ChildExecutionFinished(terminal) => {
                let cancelled_alike = match &terminal.outcome {
                    ChildExecutionOutcome::Cancelled { cause } => *cause == evidence.cause,
                    _ => false,
                };
                finished.sequence < event.sequence && terminal.binding == evidence.binding
                    && cancelled_alike
            },
            _ => false,
        },
        Err(_) => false,
    }
}

/// Whether a piece of durable evidence says what the events before the turn say.
pub open spec fn material_stands(
    store: Store,
    event: EventEnvelope,
    material: PlannerEvidenceMaterialV2,
) -> bool {
    match event.run_id {
        None => false,
        Some(run_id) => match material {
            PlannerEvidenceMaterialV2::AcceptedRootPlan(evidence) => root_material_stands(
                store,
                event,
                run_id,
                evidence,
            ),
            PlannerEvidenceMaterialV2::ChildHandoff(evidence) => handoff_material_stands(
                store,
                event,
                run_id,
                evidence,
            ),
            PlannerEvidenceMaterialV2::ChildFailed(evidence) => failed_material_stands(
                store,
                event,
                run_id,
                evidence,
            ),
            PlannerEvidenceMaterialV2::ChildCancelled(evidence) => cancelled_material_stands(
                store,
                event,
                run_id,
                evidence,
            ),
        },
    }
}

/// Refuses a piece of durable evidence that does not say what the events before the turn say.
pub fn validate_planner_durable_evidence_material(
    store: &Store,
    event: &EventEnvelope,
    material: &PlannerEvidenceMaterialV2,
) -> (r: Result<(), StoreError>)
    ensures
        r == crate::error::demand(material_stands(*store, *event, *material)),
{
    let run_id = match planner_run_id(event) {
        Ok(run_id) => run_id,
        Err(error) => return Err(error),
    };
    let stands = match material {
        PlannerEvidenceMaterialV2::AcceptedRootPlan(evidence) => checks_root_material(
            store,
            event,
            run_id,
            evidence,
        ),
        PlannerEvidenceMaterialV2::ChildHandoff(evidence) => checks_handoff_material(
            store,
            event,
            run_id,
            evidence,
        ),
        PlannerEvidenceMaterialV2::ChildFailed(evidence) => checks_failed_material(
            store,
            event,
            run_id,
            evidence,
        ),
        PlannerEvidenceMaterialV2::ChildCancelled(evidence) => checks_cancelled_material(
            store,
            event,
            run_id,
            evidence,
        ),
    };
    if stands {
        Ok(())
    } else {
        Err(StoreError::InvalidStateEvent)
    }
}

/// Whether all durable evidence says what the events before the turn say.
pub open spec fn all_material_stands(
    store: Store,
    event: EventEnvelope,
    entries: Seq<PlannerEvidenceEntryV2>,
) -> bool {
    forall|i: int|
        0 <= i < entries.len() ==> material_stands(store, event, (#[trigger] entries[i]).material)
}

/// Refuses durable evidence that does not say what the events before the turn say.
pub fn validate_planner_durable_evidence(
    store: &Store,
    event: &EventEnvelope,
    entries: &Vec<PlannerEvidenceEntryV2>,
) -> (r: Result<(), StoreError>)
    ensures
        r == crate::error::demand(all_material_stands(*store, *event, entries@)),
{
    let mut n: usize = 0;
    while n < entries.len()
        invariant
            n <= entries@.len(),
            forall|i: int|
                0 <= i < n ==> material_stands(*store, *event, (#[trigger] entries@[i]).material),
        decreases entries.len() - n,
    {
        match validate_planner_durable_evidence_material(store, event, &entries[n].material) {
            Ok(()) => {},
            Err(error) => {
                assert(!material_stands(*store, *event, entries@[n as int].material));
                return Err(error);
            },
        }
        n += 1;
    }
    Ok(())
}

/// The plan behind a binding, where it is exactly the one that the binding names. `read` is what is
/// in the binding's artifact, in its canonical form.
pub open spec fn base_snapshot(
    contract: Contract,
    binding: PlannerBasePlanBindingV1,
    read: Result<PlannerReplannerV2PlanSnapshot, StoreError>,
) -> Result<(), StoreError> {
    crate::error::and_next(
        crate::artifact::readable(binding.artifact, contract.media.planner_plan_v2, read),
        crate::error::demand(
            read matches Ok(snapshot) && snapshot.revision == binding.revision && (
            snapshot.content_sha256 matches Some(digest) && digest@ == binding.digest@),
        ),
    )
}

/// The plan behind a binding, where it is exactly the one that the binding names.
pub fn read_planner_base_snapshot<'a>(
    contract: &Contract,
    binding: &PlannerBasePlanBindingV1,
    read: &'a Result<PlannerReplannerV2PlanSnapshot, StoreError>,
) -> (r: Result<&'a PlannerReplannerV2PlanSnapshot, StoreError>)
    ensures
        match (r, base_snapshot(*contract, *binding, *read)) {
            (Ok(snapshot), Ok(())) => *read == Ok::<PlannerReplannerV2PlanSnapshot, StoreError>(
                *snapshot,
            ),
            (Err(error), Err(expected)) => error == expected,
            _ => false,
        },
{
    match require_artifact_media_type(&binding.artifact, &contract.media.planner_plan_v2) {
        Ok(()) => {},
        Err(error) => return Err(error),
    }
    let snapshot = match read {
        Ok(snapshot) => snapshot,
        Err(error) => return Err(*error),
    };
    let named = match &snapshot.content_sha256 {
        Some(digest) => binding.digest.reads(digest),
        None => false,
    };
    if snapshot.revision != binding.revision || !named {
        return Err(StoreError::InvalidStateEvent);
    }
    Ok(snapshot)
}

/// Whether a plan is the empty plan that the first turn begins with.
pub open spec fn is_empty_plan(snapshot: PlannerReplannerV2PlanSnapshot) -> bool {
    &&& snapshot.schema_version == 1
    &&& snapshot.revision == 0
    &&& snapshot.parent_plan_sha256 is None
    &&& snapshot.strategy_summary@.len() == 0
    &&& snapshot.verification_targets@.len() == 0
    &&& snapshot.work_orders@.len() == 0
}

fn checks_empty_plan(snapshot: &PlannerReplannerV2PlanSnapshot) -> (r: bool)
    ensures
        r == is_empty_plan(*snapshot),
{
    snapshot.schema_version == 1 && snapshot.revision == 0 && snapshot.parent_plan_sha256.is_none()
        && snapshot.strategy_summary.is_empty() && snapshot.verification_targets.len() == 0
        && snapshot.work_orders.len() == 0
}

/// Whether a first turn begins with the empty plan, on the authority of the accepted root plan that
/// its evidence begins with.
pub open spec fn initial_base_stands(
    store: Store,
    event: EventEnvelope,
    run_id: RunId,
    prepared: PlannerTurnPreparedV1,
    snapshot: PlannerReplannerV2PlanSnapshot,
) -> bool {
    let entries = prepared.durable_evidence_packet.entries@;
    &&& entries.len() > 0
    &&& match entries[0].material {
        PlannerEvidenceMaterialV2::AcceptedRootPlan(root) =>
            match crate::planning_ground::event_of_run(
            store,
            event.session_id,
            run_id,
            prepared.base_plan.accepted_event_id,
        ) {
            Some(anchor) => anchor.sequence < event.sequence
                && anchor.payload is PlanSemanticReviewAccepted && root.accepted_plan_event_id
                == anchor.id,
            None => false,
        },
        _ => false,
    }
    &&& prepared.base_plan.revision == 0
    &&& is_empty_plan(snapshot)
}

fn checks_initial_base(
    store: &Store,
    event: &EventEnvelope,
    run_id: RunId,
    prepared: &PlannerTurnPreparedV1,
    snapshot: &PlannerReplannerV2PlanSnapshot,
) -> (r: bool)
    ensures
        r == initial_base_stands(*store, *event, run_id, *prepared, *snapshot),
{
    let entries = &prepared.durable_evidence_packet.entries;
    if entries.len() == 0 {
        return false;
    }
    let anchored = match &entries[0].material {
        PlannerEvidenceMaterialV2::AcceptedRootPlan(root) => match store.log.event(
            event.session_id,
            run_id,
            prepared.base_plan.accepted_event_id,
        ) {
            Ok(anchor) => match &anchor.payload {
                EventPayload::PlanSemanticReviewAccepted(_) => anchor.sequence < event.sequence
                    && root.accepted_plan_event_id == anchor.id,
                _ => false,
            },
            Err(_) => false,
        },
        _ => false,
    };
    anchored && prepared.base_plan.revision == 0 && checks_empty_plan(snapshot)
}

/// Whether a later turn builds on the plan that the last accepted turn resulted in.
pub open spec fn replan_base_stands(
    store: Store,
    event: EventEnvelope,
    run_id: RunId,
    prepared: PlannerTurnPreparedV1,
) -> bool {
    match crate::planner_v2_evidence::latest_acceptance_before(
        store.log@,
        event.session_id,
        run_id,
        event.sequence,
    ) {
        None => false,
        Some(previous) => match crate::planner_v2_evidence::acceptance_in(previous) {
            Some(accepted) => previous.id == prepared.base_plan.accepted_event_id
                && accepted.resulting_plan.same(&prepared.base_plan),
            None => false,
        },
    }
}

fn checks_replan_base(
    store: &Store,
    event: &EventEnvelope,
    run_id: RunId,
    prepared: &PlannerTurnPreparedV1,
) -> (r: bool)
    ensures
        r == replan_base_stands(*store, *event, run_id, *prepared),
{
    match latest_planner_accepted_before(&store.log, event.session_id, run_id, event.sequence) {
        Some(previous) => match &previous.payload {
            EventPayload::PlannerTurnAcceptedV1(accepted) => previous.id
                == prepared.base_plan.accepted_event_id && accepted.resulting_plan
                == prepared.base_plan,
            _ => false,
        },
        None => false,
    }
}

/// Whether a turn has authority over the plan that it builds on.
pub open spec fn base_stands(
    store: Store,
    event: EventEnvelope,
    prepared: PlannerTurnPreparedV1,
    snapshot: PlannerReplannerV2PlanSnapshot,
) -> bool {
    match event.run_id {
        None => false,
        Some(run_id) => {
            &&& snapshot.obligation_snapshot_sha256@ == prepared.obligation_snapshot_digest@
            &&& snapshot.acceptance_policy_sha256@ == prepared.acceptance_policy_digest@
            &&& match prepared.purpose {
                PlannerTurnPurposeV1::InitialDelegation => initial_base_stands(
                    store,
                    event,
                    run_id,
                    prepared,
                    snapshot,
                ),
                PlannerTurnPurposeV1::EvidenceReplan => replan_base_stands(
                    store,
                    event,
                    run_id,
                    prepared,
                ),
            }
        },
    }
}

/// Refuses a turn without authority over the plan that it builds on.
pub fn validate_planner_base_authority(
    store: &Store,
    event: &EventEnvelope,
    prepared: &PlannerTurnPreparedV1,
    snapshot: &PlannerReplannerV2PlanSnapshot,
) -> (r: Result<(), StoreError>)
    ensures
        r == crate::error::demand(base_stands(*store, *event, *prepared, *snapshot)),
{
    let run_id = match planner_run_id(event) {
        Ok(run_id) => run_id,
        Err(error) => return Err(error),
    };
    if !prepared.obligation_snapshot_digest.reads(&snapshot.obligation_snapshot_sha256)
        || !prepared.acceptance_policy_digest.reads(&snapshot.acceptance_policy_sha256) {
        return Err(StoreError::InvalidStateEvent);
    }
    let stands = match prepared.purpose {
        PlannerTurnPurposeV1::InitialDelegation => checks_initial_base(
            store,
            event,
            run_id,
            prepared,
            snapshot,
        ),
        PlannerTurnPurposeV1::EvidenceReplan => checks_replan_base(store, event, run_id, prepared),
    };
    if stands {
        Ok(())
    } else {
        Err(StoreError::InvalidStateEvent)
    }
}

/// Evidence never speaks of what came at or after the turn: every event that it names is earlier.
pub proof fn law_evidence_precedes_the_turn(
    store: Store,
    event: EventEnvelope,
    material: PlannerEvidenceMaterialV2,
)
    requires
        material_stands(store, event, material),
    ensures
        ({
            let source_id = match material {
                PlannerEvidenceMaterialV2::AcceptedRootPlan(evidence) =>
                    evidence.accepted_plan_event_id,
                PlannerEvidenceMaterialV2::ChildHandoff(evidence) => evidence.finished_event_id,
                PlannerEvidenceMaterialV2::ChildFailed(evidence) => evidence.finished_event_id,
                PlannerEvidenceMaterialV2::ChildCancelled(evidence) => evidence.finished_event_id,
            };
            crate::planning_ground::event_of_run(
                store,
                event.session_id,
                event.run_id->0,
                source_id,
            ) matches Some(source) && source.sequence < event.sequence
        }),
{
}

/// Evidence says what is on record before the turn: a root plan what its accepted review says, a handoff
/// what the child committed before it finished with success, and a failure or a cancellation what the
/// child finished with.
pub proof fn law_evidence_says_what_is_on_record(
    store: Store,
    event: EventEnvelope,
    material: PlannerEvidenceMaterialV2,
) -> (places: (int, int))
    requires
        material_stands(store, event, material),
    ensures
        0 <= places.0 < store.log@.len(),
        store.log@[places.0].session_id == event.session_id,
        store.log@[places.0].run_id == event.run_id,
        store.log@[places.0].sequence < event.sequence,
        match material {
            PlannerEvidenceMaterialV2::AcceptedRootPlan(evidence) => {
                &&& store.log@[places.0].id == evidence.accepted_plan_event_id
                &&& store.log@[places.0].payload matches EventPayload::PlanSemanticReviewAccepted(
                    accepted,
                ) && {
                    &&& accepted.candidate.plan_revision == evidence.accepted_plan_revision
                    &&& accepted.candidate.plan_digest@ == evidence.accepted_plan_digest@
                    &&& accepted.candidate.plan_artifact.sha256@
                        == evidence.accepted_plan_artifact.sha256@
                }
            },
            PlannerEvidenceMaterialV2::ChildHandoff(evidence) => {
                &&& store.log@[places.0].id == evidence.finished_event_id
                &&& store.log@[places.0].payload matches EventPayload::ChildExecutionFinished(
                    finished,
                ) && finished.outcome is Succeeded && finished.binding == evidence.binding
                    && finished.handoff_event_id == Some(evidence.handoff_event_id)
                &&& 0 <= places.1 < store.log@.len()
                &&& store.log@[places.1].id == evidence.handoff_event_id
                &&& store.log@[places.1].sequence < store.log@[places.0].sequence
                &&& store.log@[places.1].payload matches EventPayload::ChildHandoffCommitted(
                    committed,
                ) && committed.handoff_id == evidence.handoff_id && committed.binding
                    == evidence.binding && committed.handoff_digest@ == evidence.handoff_digest@
            },
            PlannerEvidenceMaterialV2::ChildFailed(evidence) => {
                &&& store.log@[places.0].id == evidence.finished_event_id
                &&& store.log@[places.0].payload matches EventPayload::ChildExecutionFinished(
                    finished,
                ) && finished.binding == evidence.binding && (
                finished.outcome matches ChildExecutionOutcome::Failed { kind, retry, .. } && kind
                    == evidence.kind && retry == evidence.retry)
                &&& evidence.evidence_digest@ == evidence.evidence_artifact.sha256@
            },
            PlannerEvidenceMaterialV2::ChildCancelled(evidence) => {
                &&& store.log@[places.0].id == evidence.finished_event_id
                &&& store.log@[places.0].payload matches EventPayload::ChildExecutionFinished(
                    finished,
                ) && finished.binding == evidence.binding && (
                finished.outcome matches ChildExecutionOutcome::Cancelled { cause } && cause
                    == evidence.cause)
            },
        },
{
    let run_id = event.run_id->0;
    let source_id = match material {
        PlannerEvidenceMaterialV2::AcceptedRootPlan(evidence) => evidence.accepted_plan_event_id,
        PlannerEvidenceMaterialV2::ChildHandoff(evidence) => evidence.finished_event_id,
        PlannerEvidenceMaterialV2::ChildFailed(evidence) => evidence.finished_event_id,
        PlannerEvidenceMaterialV2::ChildCancelled(evidence) => evidence.finished_event_id,
    };
    let other_id = match material {
        PlannerEvidenceMaterialV2::ChildHandoff(evidence) => evidence.handoff_event_id,
        _ => source_id,
    };
    let source = crate::planning_ground::law_events_are_found_by_identity(
        store,
        event.session_id,
        run_id,
        source_id,
    );
    let other = crate::planning_ground::law_events_are_found_by_identity(
        store,
        event.session_id,
        run_id,
        other_id,
    );
    (source, other)
}

/// A first delegation builds on an empty plan of revision zero, anchored in the accepted review that its
/// evidence begins with.
pub proof fn law_first_delegations_begin_empty(
    store: Store,
    event: EventEnvelope,
    prepared: PlannerTurnPreparedV1,
    snapshot: PlannerReplannerV2PlanSnapshot,
) -> (place: int)
    requires
        base_stands(store, event, prepared, snapshot),
        prepared.purpose == PlannerTurnPurposeV1::InitialDelegation,
    ensures
        prepared.base_plan.revision == 0,
        snapshot.revision == 0,
        snapshot.schema_version == 1,
        snapshot.parent_plan_sha256 is None,
        snapshot.work_orders@.len() == 0,
        snapshot.verification_targets@.len() == 0,
        snapshot.strategy_summary@.len() == 0,
        0 <= place < store.log@.len(),
        store.log@[place].id == prepared.base_plan.accepted_event_id,
        store.log@[place].run_id == event.run_id,
        store.log@[place].sequence < event.sequence,
        store.log@[place].payload is PlanSemanticReviewAccepted,
        prepared.durable_evidence_packet.entries@.len() > 0,
        prepared.durable_evidence_packet.entries@[0].material
            matches PlannerEvidenceMaterialV2::AcceptedRootPlan(root)
            && root.accepted_plan_event_id == prepared.base_plan.accepted_event_id,
{
    crate::planning_ground::law_events_are_found_by_identity(
        store,
        event.session_id,
        event.run_id->0,
        prepared.base_plan.accepted_event_id,
    )
}

/// A replan builds on exactly the plan that the last accepted turn before it left.
pub proof fn law_replans_build_on_the_last_accepted_turn(
    store: Store,
    event: EventEnvelope,
    prepared: PlannerTurnPreparedV1,
    snapshot: PlannerReplannerV2PlanSnapshot,
    i: int,
)
    requires
        base_stands(store, event, prepared, snapshot),
        prepared.purpose == PlannerTurnPurposeV1::EvidenceReplan,
        0 <= i < store.log@.len(),
        store.log@[i].session_id == event.session_id,
        store.log@[i].run_id == event.run_id,
        store.log@[i].sequence < event.sequence,
        store.log@[i].payload is PlannerTurnAcceptedV1,
        forall|j: int|
            i < j < store.log@.len() && (#[trigger] store.log@[j]).session_id == event.session_id
                && store.log@[j].run_id == event.run_id && store.log@[j].sequence < event.sequence
                ==> !(store.log@[j].payload is PlannerTurnAcceptedV1),
    ensures
        prepared.base_plan.accepted_event_id == store.log@[i].id,
        store.log@[i].payload matches EventPayload::PlannerTurnAcceptedV1(accepted) && {
            &&& accepted.resulting_plan.revision == prepared.base_plan.revision
            &&& accepted.resulting_plan.digest@ == prepared.base_plan.digest@
            &&& accepted.resulting_plan.accepted_event_id == prepared.base_plan.accepted_event_id
        },
        snapshot.obligation_snapshot_sha256@ == prepared.obligation_snapshot_digest@,
        snapshot.acceptance_policy_sha256@ == prepared.acceptance_policy_digest@,
{
    let query = crate::history::EventQuery::in_run(
        event.session_id,
        event.run_id->0,
        crate::history::PayloadFilter::PlannerTurnAccepted,
    ).before(event.sequence);
    assert(query.admits(store.log@[i]));
    assert forall|j: int| i < j < store.log@.len() implies !query.admits(
        #[trigger] store.log@[j],
    ) by {}
    crate::history::law_ends_of_a_selection(query, store.log@, i);
}

} // verus!

//! Failures of root planning: when they may be recorded, and what they have to say.

use vstd::prelude::*;
use crate::artifact::{require_artifact_media_type, BackendSelection, ModelLineage};
use crate::claim_history::latest_cancellation_generation;
use crate::digest::Sha256Digest;
use crate::error::StoreError;
use crate::event::{EventEnvelope, EventPayload};
use crate::history::{EventLog, EventQuery, PayloadFilter};
use crate::identity::{RunId, SessionId};
use crate::planning::{
    PlanSemanticReviewRejectionDisposition, PlannerInferenceObservation, PlannerInferenceObserved,
    PlannerStageContext, RootPlanningFailed, RootPlanningFailurePhase, RootPlanningFailureReason,
    RootPlanningModelRole, RootPlanningModelSubject, RootPlanningStage, RootPlanningStageFailed,
    RootPlanningStageFailureReason,
};
use crate::planning_ground::{
    expected_lineage_backend_selection, has_exact_model_provenance, latest_non_claim_event,
    planner_run_id, supports_root_planning,
};
use crate::retained::{
    RetainedRootPlanningFailureEvidence, RetainedRootPlanningStageFailureEvidence,
};
use crate::root_planning_stage::{prepared_kinds_are, stages_before};
use crate::root_planning_state::{
    prepared_events_for_run, prepared_inference, prepared_stage, stage_kind, stage_model_subject,
    stage_policy, PlannerStageKind,
};
use crate::run::{PlanAcceptanceContract, Run, RunClaimed};
use crate::store::Store;
use crate::text::Same;

verus! {

/// How often planning failed before its first inference.
pub open spec fn failures_of(
    events: Seq<EventEnvelope>,
    session_id: SessionId,
    run_id: RunId,
) -> nat {
    EventQuery::in_run(session_id, run_id, PayloadFilter::RootPlanningFailed).rows(events).len()
}

/// How often a planning stage failed.
pub open spec fn stage_failures_of(
    events: Seq<EventEnvelope>,
    session_id: SessionId,
    run_id: RunId,
) -> nat {
    EventQuery::in_run(session_id, run_id, PayloadFilter::RootPlanningStageFailed).rows(
        events,
    ).len()
}

/// How often planning failed before its first inference.
pub fn root_planning_failure_count(log: &EventLog, session_id: SessionId, run_id: RunId) -> (r:
    usize)
    ensures
        r == failures_of(log@, session_id, run_id),
{
    log.count(&EventQuery::in_run(session_id, run_id, PayloadFilter::RootPlanningFailed))
}

/// How often a planning stage failed.
pub fn root_planning_stage_failure_count(log: &EventLog, session_id: SessionId, run_id: RunId) -> (r:
    usize)
    ensures
        r == stage_failures_of(log@, session_id, run_id),
{
    log.count(&EventQuery::in_run(session_id, run_id, PayloadFilter::RootPlanningStageFailed))
}

/// Whether planning can fail in a phase for a reason.
#[verifier::allow_in_spec]
pub fn valid_root_planning_failure_classification(
    phase: RootPlanningFailurePhase,
    reason: RootPlanningFailureReason,
) -> bool
    returns
        (match phase {
            RootPlanningFailurePhase::Preflight => reason
                == RootPlanningFailureReason::InvalidWallDeadline || reason
                == RootPlanningFailureReason::InvalidRunConfiguration || reason
                == RootPlanningFailureReason::WallDeadlineExceeded,
            RootPlanningFailurePhase::ModelDiscovery => reason
                == RootPlanningFailureReason::InvalidRunConfiguration || reason
                == RootPlanningFailureReason::BackendDiscoveryFailed || reason
                == RootPlanningFailureReason::DiscoveryTimedOut || reason
                == RootPlanningFailureReason::InvalidDiscoveryCatalog || reason
                == RootPlanningFailureReason::SelectedModelUnavailable || reason
                == RootPlanningFailureReason::WallDeadlineExceeded,
            RootPlanningFailurePhase::PromptPreparation => reason
                == RootPlanningFailureReason::InvalidRunConfiguration || reason
                == RootPlanningFailureReason::ArtifactPersistenceFailed || reason
                == RootPlanningFailureReason::WallDeadlineExceeded || reason
                == RootPlanningFailureReason::PromptCompilationFailed || reason
                == RootPlanningFailureReason::DurableStateConflict,
        }),
{
    match phase {
        RootPlanningFailurePhase::Preflight => reason
            == RootPlanningFailureReason::InvalidWallDeadline || reason
            == RootPlanningFailureReason::InvalidRunConfiguration || reason
            == RootPlanningFailureReason::WallDeadlineExceeded,
        RootPlanningFailurePhase::ModelDiscovery => reason
            == RootPlanningFailureReason::InvalidRunConfiguration || reason
            == RootPlanningFailureReason::BackendDiscoveryFailed || reason
            == RootPlanningFailureReason::DiscoveryTimedOut || reason
            == RootPlanningFailureReason::InvalidDiscoveryCatalog || reason
            == RootPlanningFailureReason::SelectedModelUnavailable || reason
            == RootPlanningFailureReason::WallDeadlineExceeded,
        RootPlanningFailurePhase::PromptPreparation => reason
            == RootPlanningFailureReason::InvalidRunConfiguration || reason
            == RootPlanningFailureReason::ArtifactPersistenceFailed || reason
            == RootPlanningFailureReason::WallDeadlineExceeded || reason
            == RootPlanningFailureReason::PromptCompilationFailed || reason
            == RootPlanningFailureReason::DurableStateConflict,
    }
}

/// Whether a stage can fail for a reason: critics are missed only where something is reviewed, and
/// what goes wrong while a stage is prepared cannot go wrong in the first, which has been prepared.
#[verifier::allow_in_spec]
pub fn valid_stage_failure_classification(
    stage: RootPlanningStage,
    reason: RootPlanningStageFailureReason,
) -> bool
    returns
        (match reason {
            RootPlanningStageFailureReason::IndependentReviewerUnavailable => stage
                == RootPlanningStage::InitialReview || stage == RootPlanningStage::FinalReview,
            RootPlanningStageFailureReason::WallDeadlineExceeded => true,
            RootPlanningStageFailureReason::ArtifactPersistenceFailed => true,
            RootPlanningStageFailureReason::InvalidCommittedArtifact => true,
            RootPlanningStageFailureReason::DurableStateConflict => true,
            _ => stage != RootPlanningStage::InitialPlan,
        }),
{
    match reason {
        RootPlanningStageFailureReason::IndependentReviewerUnavailable => stage
            == RootPlanningStage::InitialReview || stage == RootPlanningStage::FinalReview,
        RootPlanningStageFailureReason::WallDeadlineExceeded
        | RootPlanningStageFailureReason::ArtifactPersistenceFailed
        | RootPlanningStageFailureReason::InvalidCommittedArtifact
        | RootPlanningStageFailureReason::DurableStateConflict => true,
        _ => stage != RootPlanningStage::InitialPlan,
    }
}

/// Whether a failure before the first inference may be recorded now.
pub open spec fn failure_is_due(
    store: Store,
    event: EventEnvelope,
    run_id: RunId,
    failure: RootPlanningFailed,
) -> bool {
    &&& crate::planning_ground::run_is_running(store, run_id)
    &&& crate::planning_ground::follows_latest(store, event, run_id)
    &&& failure.cancellation_generation == 0
    &&& failures_of(store.log@, event.session_id, run_id) == 0
    &&& valid_root_planning_failure_classification(failure.phase, failure.reason)
    &&& crate::root_planning_state::preparations(
        store.log@,
        event.session_id,
        run_id,
    ).len() == 0
}

/// Whether a failure that misses its model names it: under independent review, a missed producer is
/// the model that the run selected.
pub open spec fn subject_fits(run: Run, failure: RootPlanningFailed) -> bool {
    ||| run.spec.plan_acceptance != PlanAcceptanceContract::IndependentSemanticReviewV1
    ||| failure.reason != RootPlanningFailureReason::SelectedModelUnavailable
    ||| failure.model_subject matches Some(subject) && {
        ||| subject.role != RootPlanningModelRole::Producer
        ||| (run.spec.backend.model matches Some(model) && model@ == subject.lineage.model_id@
            && subject.lineage.backend_id@ == run.spec.backend.backend_id@)
    }
}

/// The backend that a failure is about: that of the model it names, or that of the run.
pub open spec fn failed_backend(run: Run, failure: RootPlanningFailed) -> BackendSelection {
    match failure.model_subject {
        Some(subject) => crate::planning_ground::lineage_selection(run, subject.lineage),
        None => run.spec.backend,
    }
}

/// Whether a failure names the claim that it is recorded under, its model and its evidence.
pub open spec fn failure_is_bound(
    store: Store,
    event: EventEnvelope,
    run_id: RunId,
    failure: RootPlanningFailed,
    claim_event: EventEnvelope,
) -> bool {
    &&& crate::planning_ground::claim_in(claim_event) matches Some(claim) && failure.claim_id
        == claim.claim_id
    &&& failure.claim_event_id == claim_event.id
    &&& crate::planning_ground::run_of(store, event.session_id, run_id) matches Some(run) && {
        &&& supports_root_planning(&store.contract, run.spec.purpose)
        &&& subject_fits(run, failure)
        &&& crate::planning_ground::exact_provenance(
            event,
            failed_backend(run, failure),
            Some(failure.evidence_artifact),
        )
    }
}

/// Whether the retained evidence says what the failure says.
pub open spec fn failure_evidence_agrees(
    run_id: RunId,
    failure: RootPlanningFailed,
    evidence: RetainedRootPlanningFailureEvidence,
) -> bool {
    &&& evidence.schema_version == 1
    &&& evidence.run_id == run_id
    &&& evidence.claim_event_id == failure.claim_event_id
    &&& evidence.claim_id == failure.claim_id
    &&& evidence.phase == failure.phase
    &&& evidence.reason == failure.reason
    &&& evidence.model_subject.same(&failure.model_subject)
}

/// What is found of a failure before the first inference. Its evidence is read only under
/// independent review.
pub open spec fn failure_verdict(
    store: Store,
    event: EventEnvelope,
    failure: RootPlanningFailed,
    claim_owner: Result<&EventEnvelope, StoreError>,
    evidence: Result<RetainedRootPlanningFailureEvidence, StoreError>,
) -> Result<(), StoreError> {
    match event.run_id {
        None => Err(StoreError::InvalidStateEvent),
        Some(run_id) => if !failure_is_due(store, event, run_id, failure) {
            Err(StoreError::InvalidStateEvent)
        } else {
            match claim_owner {
                Err(error) => Err(error),
                Ok(claim_event) => if !failure_is_bound(
                    store,
                    event,
                    run_id,
                    failure,
                    *claim_event,
                ) {
                    Err(StoreError::InvalidStateEvent)
                } else if (crate::planning_ground::run_of(
                    store,
                    event.session_id,
                    run_id,
                )->0).spec.plan_acceptance != PlanAcceptanceContract::IndependentSemanticReviewV1 {
                    Ok(())
                } else if failure.evidence_artifact.media_type@
                    != store.contract.media.root_planning_failure@ {
                    Err(StoreError::InvalidStateEvent)
                } else {
                    match evidence {
                        Err(error) => Err(error),
                        Ok(evidence) => crate::error::demand(
                            failure_evidence_agrees(run_id, failure, evidence),
                        ),
                    }
                },
            }
        },
    }
}

fn check_subject(run: &Run, failure: &RootPlanningFailed) -> (r: bool)
    ensures
        r == subject_fits(*run, *failure),
{
    if run.spec.plan_acceptance != PlanAcceptanceContract::IndependentSemanticReviewV1
        || failure.reason != RootPlanningFailureReason::SelectedModelUnavailable {
        return true;
    }
    match &failure.model_subject {
        Some(subject) => subject.role != RootPlanningModelRole::Producer || (
        subject.lineage.backend_id == run.spec.backend.backend_id && match &run.spec.backend.model {
            Some(model) => *model == subject.lineage.model_id,
            None => false,
        }),
        None => false,
    }
}

fn check_failed_backend(run: &Run, event: &EventEnvelope, failure: &RootPlanningFailed) -> (r: bool)
    ensures
        r == crate::planning_ground::exact_provenance(
            *event,
            failed_backend(*run, *failure),
            Some(failure.evidence_artifact),
        ),
{
    match &failure.model_subject {
        Some(subject) => has_exact_model_provenance(
            event,
            &expected_lineage_backend_selection(run, &subject.lineage),
            Some(&failure.evidence_artifact),
        ),
        None => has_exact_model_provenance(
            event,
            &run.spec.backend,
            Some(&failure.evidence_artifact),
        ),
    }
}

/// Refuses a failure before the first inference that may not be recorded. `claim_owner` is the claim
/// that the event's actor holds, and `evidence` the retained evidence in its canonical form.
pub fn validate_root_planning_failed(
    store: &Store,
    event: &EventEnvelope,
    failure: &RootPlanningFailed,
    claim_owner: Result<&EventEnvelope, StoreError>,
    evidence: &Result<RetainedRootPlanningFailureEvidence, StoreError>,
) -> (r: Result<(), StoreError>)
    ensures
        r == failure_verdict(*store, *event, *failure, claim_owner, *evidence),
{
    let run_id = match planner_run_id(event) {
        Ok(run_id) => run_id,
        Err(error) => return Err(error),
    };
    if !store.is_running(run_id) || !store.is_after_latest(event, run_id)
        || failure.cancellation_generation != 0 || root_planning_failure_count(
        &store.log,
        event.session_id,
        run_id,
    ) != 0 || !valid_root_planning_failure_classification(failure.phase, failure.reason)
        || prepared_events_for_run(&store.log, event.session_id, run_id).len() != 0 {
        return Err(StoreError::InvalidStateEvent);
    }
    let claim_event = match claim_owner {
        Ok(claim_event) => claim_event,
        Err(error) => return Err(error),
    };
    let claimed = match &claim_event.payload {
        EventPayload::RunClaimed(claim) => failure.claim_id == claim.claim_id,
        _ => false,
    };
    let run = match store.run_of_event(event.session_id, run_id) {
        Some(run) => run,
        None => return Err(StoreError::InvalidStateEvent),
    };
    if !claimed || failure.claim_event_id != claim_event.id || !supports_root_planning(
        &store.contract,
        run.spec.purpose,
    ) || !check_subject(run, failure) || !check_failed_backend(run, event, failure) {
        return Err(StoreError::InvalidStateEvent);
    }
    if run.spec.plan_acceptance != PlanAcceptanceContract::IndependentSemanticReviewV1 {
        return Ok(());
    }
    match require_artifact_media_type(
        &failure.evidence_artifact,
        &store.contract.media.root_planning_failure,
    ) {
        Ok(()) => {},
        Err(error) => return Err(error),
    }
    let evidence = match evidence {
        Ok(evidence) => evidence,
        Err(error) => return Err(*error),
    };
    if evidence.schema_version != 1 || evidence.run_id != run_id || evidence.claim_event_id
        != failure.claim_event_id || evidence.claim_id != failure.claim_id || evidence.phase
        != failure.phase || evidence.reason != failure.reason || evidence.model_subject
        != failure.model_subject {
        return Err(StoreError::InvalidStateEvent);
    }
    Ok(())
}

/// The kind of a stage.
#[verifier::allow_in_spec]
pub fn kind_of(stage: RootPlanningStage) -> PlannerStageKind
    returns
        (match stage {
            RootPlanningStage::InitialPlan => PlannerStageKind::InitialPlan,
            RootPlanningStage::InitialReview => PlannerStageKind::InitialReview,
            RootPlanningStage::Repair => PlannerStageKind::Repair,
            RootPlanningStage::FinalReview => PlannerStageKind::FinalReview,
        }),
{
    match stage {
        RootPlanningStage::InitialPlan => PlannerStageKind::InitialPlan,
        RootPlanningStage::InitialReview => PlannerStageKind::InitialReview,
        RootPlanningStage::Repair => PlannerStageKind::Repair,
        RootPlanningStage::FinalReview => PlannerStageKind::FinalReview,
    }
}

/// Whether a stage failure may be recorded now.
pub open spec fn stage_failure_is_due(
    store: Store,
    event: EventEnvelope,
    run_id: RunId,
    failure: RootPlanningStageFailed,
) -> bool {
    &&& crate::planning_ground::run_of(store, event.session_id, run_id) matches Some(run)
        && supports_root_planning(&store.contract, run.spec.purpose)
    &&& crate::planning_ground::run_is_running(store, run_id)
    &&& crate::planning_ground::follows_latest(store, event, run_id)
    &&& crate::planning_ground::latest_non_claim(
        store.log@,
        event.session_id,
        run_id,
    ) matches Some(predecessor) && failure.predecessor_event_id == predecessor.id
    &&& failure.cancellation_generation == 0
    &&& crate::claim_history::cancellation_generation_of(store.log@, event.session_id, run_id) == 0
    &&& failures_of(store.log@, event.session_id, run_id) == 0
    &&& stage_failures_of(store.log@, event.session_id, run_id) == 0
    &&& EventQuery::everywhere(PayloadFilter::StageFailure(failure.failure_id)).rows(
        store.log@,
    ).len() == 0
    &&& valid_stage_failure_classification(failure.failed_stage, failure.reason)
    &&& event.provenance.raw_artifact matches Some(kept) && kept.same(&failure.evidence_artifact)
}

/// Whether a decision on the last prepared inference leads to a stage: accepted plans are reviewed,
/// and a review that authorizes a repair is followed by it.
pub open spec fn decision_leads_to(
    predecessor: EventEnvelope,
    last: EventEnvelope,
    stage: RootPlanningStage,
) -> bool {
    match (stage, predecessor.payload, crate::root_planning_state::prepared_in(last)) {
        (RootPlanningStage::InitialPlan, _, _) => false,
        (
            RootPlanningStage::Repair,
            EventPayload::PlanSemanticReviewRejected(rejected),
            Some(prepared),
        ) => rejected.disposition == PlanSemanticReviewRejectionDisposition::RepairOnceAuthorized
            && prepared.attempt_id == rejected.inference_attempt_id,
        (RootPlanningStage::Repair, _, _) => false,
        (_, EventPayload::PlanProposalAccepted(accepted), Some(prepared)) => prepared.attempt_id
            == accepted.inference_attempt_id,
        _ => false,
    }
}

/// Whether a stage is exactly the one that comes next: its predecessors are prepared, and the last
/// event decided on the last of them so that the stage follows.
pub open spec fn stage_is_next(
    previous: Seq<EventEnvelope>,
    predecessor: EventEnvelope,
    stage: RootPlanningStage,
) -> bool {
    &&& crate::root_planning_stage::stages_are(
        previous,
        crate::root_planning_stage::required_prefix(kind_of(stage)),
    )
    &&& previous.len() > 0
    &&& decision_leads_to(predecessor, previous.last(), stage)
}

/// The successful observation that an event records.
pub open spec fn success_in(event: EventEnvelope) -> Option<PlannerInferenceObserved> {
    match event.payload {
        EventPayload::PlannerInferenceObserved(observed) => if observed.outcome is Succeeded {
            Some(observed)
        } else {
            None
        },
        _ => None,
    }
}

/// Whether a prepared stage is the one that an observation is about.
pub open spec fn is_observed_stage(event: EventEnvelope, observed: PlannerInferenceObserved) -> bool {
    &&& event.id == observed.prepared_event_id
    &&& crate::root_planning_state::prepared_in(event) matches Some(prepared) && prepared.attempt_id
        == observed.attempt_id && prepared.stage_context is Some
}

/// The first prepared stage that an observation is about.
pub open spec fn observed_stage(
    previous: Seq<EventEnvelope>,
    observed: PlannerInferenceObserved,
) -> Option<EventEnvelope>
    decreases previous.len(),
{
    if previous.len() == 0 {
        None
    } else if is_observed_stage(previous.first(), observed) {
        Some(previous.first())
    } else {
        observed_stage(previous.drop_first(), observed)
    }
}

/// The prepared stage whose successful observation is the last event, if it is one.
pub open spec fn replayed_stage(
    previous: Seq<EventEnvelope>,
    predecessor: EventEnvelope,
) -> Option<EventEnvelope> {
    match success_in(predecessor) {
        Some(observed) => observed_stage(previous, observed),
        None => None,
    }
}

/// Whether a stage whose outcome was observed can fail for a reason: only what reading the outcome
/// back can bring.
#[verifier::allow_in_spec]
pub fn fails_in_replay(reason: RootPlanningStageFailureReason) -> bool
    returns
        (reason == RootPlanningStageFailureReason::InvalidCommittedArtifact || reason
            == RootPlanningStageFailureReason::ArtifactPersistenceFailed || reason
            == RootPlanningStageFailureReason::WallDeadlineExceeded || reason
            == RootPlanningStageFailureReason::DurableStateConflict),
{
    reason == RootPlanningStageFailureReason::InvalidCommittedArtifact || reason
        == RootPlanningStageFailureReason::ArtifactPersistenceFailed || reason
        == RootPlanningStageFailureReason::WallDeadlineExceeded || reason
        == RootPlanningStageFailureReason::DurableStateConflict
}

/// The model that a failure of the next stage is about: the one that is missed, or else the one that
/// the stage belongs to.
pub open spec fn next_stage_subject(
    stage: RootPlanningStage,
    reason: RootPlanningStageFailureReason,
    producer: ModelLineage,
    critic: ModelLineage,
) -> RootPlanningModelSubject {
    let of_producer = RootPlanningModelSubject {
        role: RootPlanningModelRole::Producer,
        lineage: producer,
    };
    let of_critic = RootPlanningModelSubject {
        role: RootPlanningModelRole::IndependentCritic,
        lineage: critic,
    };
    match reason {
        RootPlanningStageFailureReason::IndependentReviewerUnavailable => of_critic,
        RootPlanningStageFailureReason::SelectedModelUnavailable => of_producer,
        _ => match stage {
            RootPlanningStage::InitialPlan => of_producer,
            RootPlanningStage::Repair => of_producer,
            RootPlanningStage::InitialReview => of_critic,
            RootPlanningStage::FinalReview => of_critic,
        },
    }
}

/// The model that a stage failure is about, where the stage failed in a way that the prepared stages
/// and the last event allow.
pub open spec fn failed_subject(
    failure: RootPlanningStageFailed,
    previous: Seq<EventEnvelope>,
    predecessor: EventEnvelope,
) -> Option<RootPlanningModelSubject> {
    match crate::root_planning_state::stage_in(previous[0]) {
        None => None,
        Some(first) => match replayed_stage(previous, predecessor) {
            Some(replayed) => {
                let stage = crate::root_planning_state::stage_in(replayed)->0;
                let kind = stage_kind(&stage);
                if kind == kind_of(failure.failed_stage) && crate::root_planning_stage::stages_are(
                    previous,
                    crate::root_planning_stage::required_prefix(kind).push(kind),
                ) && fails_in_replay(failure.reason) && failure.execution_policy_artifact.same(
                    stage_policy(&stage),
                ) && stage_policy(&stage).same(stage_policy(&first)) {
                    Some(crate::root_planning_state::stage_subject(stage).1)
                } else {
                    None
                }
            },
            None => match first {
                PlannerStageContext::InitialPlan { model_lineage, critic_lineage, .. } =>
                    if stage_is_next(previous, predecessor, failure.failed_stage)
                        && failure.execution_policy_artifact.same(stage_policy(&first)) {
                        Some(
                            next_stage_subject(
                                failure.failed_stage,
                                failure.reason,
                                model_lineage,
                                critic_lineage,
                            ),
                        )
                    } else {
                        None
                    },
                _ => None,
            },
        },
    }
}

/// Whether the backend that prepared and answered a replayed stage is the expected one.
pub open spec fn replay_backend_fits(
    previous: Seq<EventEnvelope>,
    predecessor: EventEnvelope,
    backend: BackendSelection,
) -> bool {
    match replayed_stage(previous, predecessor) {
        Some(replayed) => match replayed.provenance.backend {
            Some(prepared_backend) => {
                &&& prepared_backend.same(&backend)
                &&& predecessor.provenance.backend matches Some(answered) && answered.same(&backend)
            },
            None => true,
        },
        None => true,
    }
}

/// Whether all prepared inferences serve stages.
pub open spec fn all_staged(previous: Seq<EventEnvelope>) -> bool {
    forall|i: int|
        0 <= i < previous.len() ==> #[trigger] crate::root_planning_state::stage_in(
            previous[i],
        ) is Some
}

/// Whether a stage failure is about the right model, and comes from its backend.
pub open spec fn stage_failure_fits(
    store: Store,
    event: EventEnvelope,
    run_id: RunId,
    failure: RootPlanningStageFailed,
) -> bool {
    let previous = crate::root_planning_state::preparations(store.log@, event.session_id, run_id);
    let predecessor = crate::planning_ground::latest_non_claim(
        store.log@,
        event.session_id,
        run_id,
    )->0;
    let run = crate::planning_ground::run_of(store, event.session_id, run_id)->0;
    &&& previous.len() > 0
    &&& all_staged(previous)
    &&& failed_subject(failure, previous, predecessor) matches Some(subject) && {
        let backend = crate::planning_ground::lineage_selection(run, subject.lineage);
        &&& failure.model_subject.same(&subject)
        &&& crate::planning_ground::exact_provenance(
            event,
            backend,
            Some(failure.evidence_artifact),
        )
        &&& replay_backend_fits(previous, predecessor, backend)
    }
}

/// Whether the retained evidence says what the stage failure says.
pub open spec fn stage_failure_evidence_agrees(
    run_id: RunId,
    failure: RootPlanningStageFailed,
    evidence: RetainedRootPlanningStageFailureEvidence,
) -> bool {
    &&& evidence.schema_version == 1
    &&& evidence.run_id == run_id
    &&& evidence.failed_stage == failure.failed_stage
    &&& evidence.predecessor_event_id == failure.predecessor_event_id
    &&& evidence.execution_policy_sha256@ == failure.execution_policy_artifact.sha256@
    &&& evidence.reason == failure.reason
    &&& evidence.model_subject.same(&failure.model_subject)
}

/// What is found of a stage failure.
pub open spec fn stage_failure_verdict(
    store: Store,
    event: EventEnvelope,
    failure: RootPlanningStageFailed,
    claim_owner: Result<(), StoreError>,
    evidence: Result<RetainedRootPlanningStageFailureEvidence, StoreError>,
) -> Result<(), StoreError> {
    match event.run_id {
        None => Err(StoreError::InvalidStateEvent),
        Some(run_id) => if !stage_failure_is_due(store, event, run_id, failure) {
            Err(StoreError::InvalidStateEvent)
        } else {
            match claim_owner {
                Err(error) => Err(error),
                Ok(()) => if !stage_failure_fits(store, event, run_id, failure)
                    || failure.evidence_artifact.media_type@
                    != store.contract.media.root_planning_stage_failure@ {
                    Err(StoreError::InvalidStateEvent)
                } else {
                    match evidence {
                        Err(error) => Err(error),
                        Ok(evidence) => crate::error::demand(
                            {
                                &&& crate::digest::is_canonical_digest(
                                    failure.execution_policy_artifact.sha256@,
                                )
                                &&& stage_failure_evidence_agrees(run_id, failure, evidence)
                            },
                        ),
                    }
                },
            }
        },
    }
}

fn check_stage_failure_due(
    store: &Store,
    event: &EventEnvelope,
    run_id: RunId,
    failure: &RootPlanningStageFailed,
) -> (r: bool)
    ensures
        r == stage_failure_is_due(*store, *event, run_id, *failure),
{
    let supported = match store.run_of_event(event.session_id, run_id) {
        Some(run) => supports_root_planning(&store.contract, run.spec.purpose),
        None => false,
    };
    let follows = match latest_non_claim_event(&store.log, event.session_id, run_id) {
        Some(predecessor) => failure.predecessor_event_id == predecessor.id,
        None => false,
    };
    let kept = match &event.provenance.raw_artifact {
        Some(kept) => *kept == failure.evidence_artifact,
        None => false,
    };
    supported && store.is_running(run_id) && store.is_after_latest(event, run_id) && follows
        && failure.cancellation_generation == 0 && latest_cancellation_generation(
        &store.log,
        event.session_id,
        run_id,
    ) == 0 && root_planning_failure_count(&store.log, event.session_id, run_id) == 0
        && root_planning_stage_failure_count(&store.log, event.session_id, run_id) == 0
        && store.log.count(
        &EventQuery::everywhere(PayloadFilter::StageFailure(failure.failure_id)),
    ) == 0 && valid_stage_failure_classification(failure.failed_stage, failure.reason) && kept
}

fn check_decision_leads_to(
    predecessor: &EventEnvelope,
    last: &EventEnvelope,
    stage: RootPlanningStage,
) -> (r: bool)
    ensures
        r == decision_leads_to(*predecessor, *last, stage),
{
    let prepared = match prepared_inference(last) {
        Some(prepared) => prepared,
        None => return false,
    };
    match stage {
        RootPlanningStage::InitialPlan => false,
        RootPlanningStage::Repair => match &predecessor.payload {
            EventPayload::PlanSemanticReviewRejected(rejected) => rejected.disposition
                == PlanSemanticReviewRejectionDisposition::RepairOnceAuthorized
                && prepared.attempt_id == rejected.inference_attempt_id,
            _ => false,
        },
        RootPlanningStage::InitialReview | RootPlanningStage::FinalReview => match &predecessor.payload {
            EventPayload::PlanProposalAccepted(accepted) => prepared.attempt_id
                == accepted.inference_attempt_id,
            _ => false,
        },
    }
}

fn check_stage_is_next(
    previous: &Vec<&EventEnvelope>,
    predecessor: &EventEnvelope,
    stage: RootPlanningStage,
) -> (r: bool)
    ensures
        r == stage_is_next(
            crate::root_planning_stage::dereferenced(previous@),
            *predecessor,
            stage,
        ),
{
    if !prepared_kinds_are(previous, &stages_before(kind_of(stage))) || previous.len() == 0 {
        return false;
    }
    assert(crate::root_planning_stage::dereferenced(previous@).last()
        == *previous@[previous@.len() - 1]);
    check_decision_leads_to(predecessor, previous[previous.len() - 1], stage)
}

fn find_observed_stage<'a>(
    previous: &Vec<&'a EventEnvelope>,
    observed: &PlannerInferenceObserved,
) -> (r: Option<&'a EventEnvelope>)
    ensures
        observed_stage(crate::root_planning_stage::dereferenced(previous@), *observed) == (match r {
            Some(event) => Some(*event),
            None => None,
        }),
        r matches Some(event) ==> crate::root_planning_state::stage_in(*event) is Some,
{
    let ghost events = crate::root_planning_stage::dereferenced(previous@);
    let mut i: usize = 0;
    assert(events.skip(0) =~= events);
    while i < previous.len()
        invariant
            i <= previous@.len(),
            events == crate::root_planning_stage::dereferenced(previous@),
            observed_stage(events, *observed) == observed_stage(events.skip(i as int), *observed),
        decreases previous.len() - i,
    {
        assert(events.skip(i as int).drop_first() =~= events.skip(i + 1));
        assert(events.skip(i as int).first() == *previous@[i as int]);
        let event: &'a EventEnvelope = previous[i];
        let found = match prepared_inference(event) {
            Some(prepared) => event.id == observed.prepared_event_id && prepared.attempt_id
                == observed.attempt_id && prepared.stage_context.is_some(),
            None => false,
        };
        if found {
            return Some(event);
        }
        i += 1;
    }
    None
}

fn find_replayed_stage<'a>(previous: &Vec<&'a EventEnvelope>, predecessor: &EventEnvelope) -> (r:
    Option<&'a EventEnvelope>)
    ensures
        replayed_stage(crate::root_planning_stage::dereferenced(previous@), *predecessor) == (
        match r {
            Some(event) => Some(*event),
            None => None,
        }),
        r matches Some(event) ==> crate::root_planning_state::stage_in(*event) is Some,
{
    match &predecessor.payload {
        EventPayload::PlannerInferenceObserved(observed) => match &observed.outcome {
            PlannerInferenceObservation::Succeeded { .. } => find_observed_stage(
                previous,
                observed,
            ),
            _ => None,
        },
        _ => None,
    }
}

fn subject_of_next_stage(
    stage: RootPlanningStage,
    reason: RootPlanningStageFailureReason,
    producer: &ModelLineage,
    critic: &ModelLineage,
) -> (r: RootPlanningModelSubject)
    ensures
        r == next_stage_subject(stage, reason, *producer, *critic),
{
    let produces = match reason {
        RootPlanningStageFailureReason::IndependentReviewerUnavailable => false,
        RootPlanningStageFailureReason::SelectedModelUnavailable => true,
        _ => match stage {
            RootPlanningStage::InitialPlan | RootPlanningStage::Repair => true,
            RootPlanningStage::InitialReview | RootPlanningStage::FinalReview => false,
        },
    };
    if produces {
        RootPlanningModelSubject {
            role: RootPlanningModelRole::Producer,
            lineage: producer.clone(),
        }
    } else {
        RootPlanningModelSubject {
            role: RootPlanningModelRole::IndependentCritic,
            lineage: critic.clone(),
        }
    }
}

fn subject_of_failure(
    failure: &RootPlanningStageFailed,
    previous: &Vec<&EventEnvelope>,
    predecessor: &EventEnvelope,
) -> (r: Option<RootPlanningModelSubject>)
    requires
        previous@.len() > 0,
    ensures
        r == failed_subject(
            *failure,
            crate::root_planning_stage::dereferenced(previous@),
            *predecessor,
        ),
{
    assert(crate::root_planning_stage::dereferenced(previous@)[0] == *previous@[0]);
    let first = match prepared_stage(previous[0]) {
        Some(first) => first,
        None => return None,
    };
    match find_replayed_stage(previous, predecessor) {
        Some(replayed) => {
            let stage = match prepared_stage(replayed) {
                Some(stage) => stage,
                None => return None,
            };
            let kind = stage_kind(stage);
            let mut kinds = stages_before(kind);
            kinds.push(kind);
            if kind == kind_of(failure.failed_stage) && prepared_kinds_are(previous, &kinds)
                && fails_in_replay(failure.reason) && failure.execution_policy_artifact
                == *stage_policy(stage) && *stage_policy(stage) == *stage_policy(first) {
                Some(stage_model_subject(stage).1)
            } else {
                None
            }
        },
        None => match first {
            PlannerStageContext::InitialPlan { model_lineage, critic_lineage, .. } =>
                if check_stage_is_next(previous, predecessor, failure.failed_stage)
                    && failure.execution_policy_artifact == *stage_policy(first) {
                    Some(
                        subject_of_next_stage(
                            failure.failed_stage,
                            failure.reason,
                            model_lineage,
                            critic_lineage,
                        ),
                    )
                } else {
                    None
                },
            _ => None,
        },
    }
}

fn check_replay_backend(
    previous: &Vec<&EventEnvelope>,
    predecessor: &EventEnvelope,
    backend: &BackendSelection,
) -> (r: bool)
    ensures
        r == replay_backend_fits(
            crate::root_planning_stage::dereferenced(previous@),
            *predecessor,
            *backend,
        ),
{
    match find_replayed_stage(previous, predecessor) {
        Some(replayed) => match &replayed.provenance.backend {
            Some(prepared_backend) => *prepared_backend == *backend
                && match &predecessor.provenance.backend {
                Some(answered) => *answered == *backend,
                None => false,
            },
            None => true,
        },
        None => true,
    }
}

fn check_all_staged(previous: &Vec<&EventEnvelope>) -> (r: bool)
    ensures
        r == all_staged(crate::root_planning_stage::dereferenced(previous@)),
{
    let ghost events = crate::root_planning_stage::dereferenced(previous@);
    let mut i: usize = 0;
    while i < previous.len()
        invariant
            i <= previous@.len(),
            events == crate::root_planning_stage::dereferenced(previous@),
            forall|k: int|
                0 <= k < i ==> #[trigger] crate::root_planning_state::stage_in(events[k]) is Some,
        decreases previous.len() - i,
    {
        assert(events[i as int] == *previous@[i as int]);
        if prepared_stage(previous[i]).is_none() {
            assert(crate::root_planning_state::stage_in(events[i as int]) is None);
            return false;
        }
        i += 1;
    }
    true
}

fn check_stage_failure_fits(
    store: &Store,
    event: &EventEnvelope,
    run_id: RunId,
    failure: &RootPlanningStageFailed,
) -> (r: bool)
    requires
        stage_failure_is_due(*store, *event, run_id, *failure),
    ensures
        r == stage_failure_fits(*store, *event, run_id, *failure),
{
    let previous = prepared_events_for_run(&store.log, event.session_id, run_id);
    assert(crate::root_planning_stage::dereferenced(previous@)
        =~= crate::root_planning_state::preparations(store.log@, event.session_id, run_id));
    let (run, predecessor) = match (
        store.run_of_event(event.session_id, run_id),
        latest_non_claim_event(&store.log, event.session_id, run_id),
    ) {
        (Some(run), Some(predecessor)) => (run, predecessor),
        _ => return false,
    };
    if previous.len() == 0 || !check_all_staged(&previous) {
        return false;
    }
    let subject = match subject_of_failure(failure, &previous, predecessor) {
        Some(subject) => subject,
        None => return false,
    };
    let backend = expected_lineage_backend_selection(run, &subject.lineage);
    failure.model_subject == subject && has_exact_model_provenance(
        event,
        &backend,
        Some(&failure.evidence_artifact),
    ) && check_replay_backend(&previous, predecessor, &backend)
}

/// Refuses a stage failure that may not be recorded. `claim_owner` is whether the event's actor holds
/// the claim, and `evidence` the retained evidence in its canonical form.
pub fn validate_root_planning_stage_failed(
    store: &Store,
    event: &EventEnvelope,
    failure: &RootPlanningStageFailed,
    claim_owner: Result<(), StoreError>,
    evidence: &Result<RetainedRootPlanningStageFailureEvidence, StoreError>,
) -> (r: Result<(), StoreError>)
    ensures
        r == stage_failure_verdict(*store, *event, *failure, claim_owner, *evidence),
{
    let run_id = match planner_run_id(event) {
        Ok(run_id) => run_id,
        Err(error) => return Err(error),
    };
    if !check_stage_failure_due(store, event, run_id, failure) {
        return Err(StoreError::InvalidStateEvent);
    }
    match claim_owner {
        Ok(()) => {},
        Err(error) => return Err(error),
    }
    if !check_stage_failure_fits(store, event, run_id, failure) {
        return Err(StoreError::InvalidStateEvent);
    }
    match require_artifact_media_type(
        &failure.evidence_artifact,
        &store.contract.media.root_planning_stage_failure,
    ) {
        Ok(()) => {},
        Err(error) => return Err(error),
    }
    let evidence = match evidence {
        Ok(evidence) => evidence,
        Err(error) => return Err(*error),
    };
    let policy = match Sha256Digest::parse(&failure.execution_policy_artifact.sha256) {
        Some(policy) => policy,
        None => return Err(StoreError::InvalidStateEvent),
    };
    if evidence.schema_version != 1 || evidence.run_id != run_id || evidence.failed_stage
        != failure.failed_stage || evidence.predecessor_event_id != failure.predecessor_event_id
        || evidence.execution_policy_sha256 != policy || evidence.reason != failure.reason
        || evidence.model_subject != failure.model_subject {
        return Err(StoreError::InvalidStateEvent);
    }
    Ok(())
}

/// Planning fails at most once: while a failure is on record, no further failure is accepted,
/// neither before the first inference nor in a stage.
pub proof fn law_planning_fails_once(
    store: Store,
    event: EventEnvelope,
    run_id: RunId,
    failure: RootPlanningFailed,
    stage_failure: RootPlanningStageFailed,
)
    requires
        failures_of(store.log@, event.session_id, run_id) > 0,
    ensures
        !failure_is_due(store, event, run_id, failure),
        !stage_failure_is_due(store, event, run_id, stage_failure),
{
}

/// The first stage never comes next: whatever was prepared and decided, it is only ever the stage
/// that was begun with.
pub proof fn law_next_stage_is_never_the_first(
    previous: Seq<EventEnvelope>,
    predecessor: EventEnvelope,
)
    ensures
        !stage_is_next(previous, predecessor, RootPlanningStage::InitialPlan),
{
}

/// Every reason belongs to its phase: a wall deadline is set before anything, models are discovered
/// before a prompt is made, and only a prompt is compiled and kept; a run that is configured wrongly and
/// a deadline that passes can end any phase.
pub proof fn law_failures_have_their_phase(
    phase: RootPlanningFailurePhase,
    reason: RootPlanningFailureReason,
)
    ensures
        match reason {
            RootPlanningFailureReason::InvalidRunConfiguration =>
                valid_root_planning_failure_classification(phase, reason),
            RootPlanningFailureReason::WallDeadlineExceeded =>
                valid_root_planning_failure_classification(phase, reason),
            RootPlanningFailureReason::InvalidWallDeadline =>
                valid_root_planning_failure_classification(phase, reason) <==> phase
                    == RootPlanningFailurePhase::Preflight,
            RootPlanningFailureReason::BackendDiscoveryFailed =>
                valid_root_planning_failure_classification(phase, reason) <==> phase
                    == RootPlanningFailurePhase::ModelDiscovery,
            RootPlanningFailureReason::DiscoveryTimedOut =>
                valid_root_planning_failure_classification(phase, reason) <==> phase
                    == RootPlanningFailurePhase::ModelDiscovery,
            RootPlanningFailureReason::InvalidDiscoveryCatalog =>
                valid_root_planning_failure_classification(phase, reason) <==> phase
                    == RootPlanningFailurePhase::ModelDiscovery,
            RootPlanningFailureReason::SelectedModelUnavailable =>
                valid_root_planning_failure_classification(phase, reason) <==> phase
                    == RootPlanningFailurePhase::ModelDiscovery,
            RootPlanningFailureReason::ArtifactPersistenceFailed =>
                valid_root_planning_failure_classification(phase, reason) <==> phase
                    == RootPlanningFailurePhase::PromptPreparation,
            RootPlanningFailureReason::PromptCompilationFailed =>
                valid_root_planning_failure_classification(phase, reason) <==> phase
                    == RootPlanningFailurePhase::PromptPreparation,
            RootPlanningFailureReason::DurableStateConflict =>
                valid_root_planning_failure_classification(phase, reason) <==> phase
                    == RootPlanningFailurePhase::PromptPreparation,
        },
{
}

/// The first stage has been prepared, so it fails only for what can go wrong with what is kept or with
/// the clock; the others fail for every reason, but for a missing critic, which only a review misses.
pub proof fn law_stage_failures_have_their_stage(
    stage: RootPlanningStage,
    reason: RootPlanningStageFailureReason,
)
    ensures
        stage == RootPlanningStage::InitialReview || stage == RootPlanningStage::FinalReview
            ==> valid_stage_failure_classification(stage, reason),
        stage == RootPlanningStage::Repair ==> (valid_stage_failure_classification(stage, reason)
            <==> reason != RootPlanningStageFailureReason::IndependentReviewerUnavailable),
        stage == RootPlanningStage::InitialPlan ==> (valid_stage_failure_classification(
            stage,
            reason,
        ) <==> (reason == RootPlanningStageFailureReason::WallDeadlineExceeded || reason
            == RootPlanningStageFailureReason::ArtifactPersistenceFailed || reason
            == RootPlanningStageFailureReason::InvalidCommittedArtifact || reason
            == RootPlanningStageFailureReason::DurableStateConflict)),
        stage == RootPlanningStage::InitialPlan ==> (fails_in_replay(reason)
            <==> valid_stage_failure_classification(stage, reason)),
{
}

/// A failure is recorded while nothing has been prepared: the run runs and was not cancelled, nothing
/// failed before, the failure names the claim that it is recorded under, and its evidence says the
/// same.
pub proof fn law_recorded_failures_were_due(
    store: Store,
    event: EventEnvelope,
    run_id: RunId,
    failure: RootPlanningFailed,
    claim_owner: Result<&EventEnvelope, StoreError>,
    evidence: Result<RetainedRootPlanningFailureEvidence, StoreError>,
    j: int,
)
    requires
        event.run_id == Some(run_id),
        failure_verdict(store, event, failure, claim_owner, evidence) is Ok,
    ensures
        store.state_record(run_id) matches Some(row) && row.state == crate::run::RunState::Running,
        failure.cancellation_generation == 0,
        event.causal_parent is Some,
        0 <= j < store.log@.len() && crate::root_planning_state::is_of_run(
            store.log@[j],
            event.session_id,
            run_id,
        ) ==> !(store.log@[j].payload is RootPlanningFailed)
            && !(store.log@[j].payload is PlannerInferencePrepared),
        claim_owner matches Ok(claim_event) && {
            &&& failure.claim_event_id == claim_event.id
            &&& claim_event.payload matches EventPayload::RunClaimed(claim) && claim.claim_id
                == failure.claim_id
        },
        crate::planning_ground::run_of(store, event.session_id, run_id) matches Some(run) && {
            &&& supports_root_planning(&store.contract, run.spec.purpose)
            &&& failure.model_subject matches Some(subject) ==> (
            event.provenance.backend matches Some(backend) && backend.backend_id@
                == subject.lineage.backend_id@)
            &&& failure.model_subject is None ==> (event.provenance.backend matches Some(backend)
                && backend.backend_id@ == run.spec.backend.backend_id@)
            &&& event.provenance.raw_artifact matches Some(kept) && kept.sha256@
                == failure.evidence_artifact.sha256@
            &&& run.spec.plan_acceptance == PlanAcceptanceContract::IndependentSemanticReviewV1
                ==> {
                &&& failure.evidence_artifact.media_type@
                    == store.contract.media.root_planning_failure@
                &&& evidence matches Ok(evidence) && {
                    &&& evidence.run_id == run_id
                    &&& evidence.claim_id == failure.claim_id
                    &&& evidence.claim_event_id == failure.claim_event_id
                    &&& evidence.phase == failure.phase
                    &&& evidence.reason == failure.reason
                    &&& evidence.model_subject is Some <==> failure.model_subject is Some
                }
                &&& failure.reason == RootPlanningFailureReason::SelectedModelUnavailable
                    ==> failure.model_subject is Some
            }
        },
{
    let failing = EventQuery::in_run(
        event.session_id,
        run_id,
        PayloadFilter::RootPlanningFailed,
    );
    let preparing = EventQuery::in_run(
        event.session_id,
        run_id,
        PayloadFilter::InferencePrepared,
    );
    if 0 <= j < store.log@.len() {
        if failing.admits(store.log@[j]) {
            crate::history::law_ends_of_a_selection(failing, store.log@, j);
        }
        if preparing.admits(store.log@[j]) {
            crate::history::law_ends_of_a_selection(preparing, store.log@, j);
        }
    }
}

/// A stage failure is recorded of a run that plans and runs, was not cancelled and failed in nothing
/// before; it names the last event that is no claim, the policy of the stages, and the model that
/// failed, and its evidence says the same.
pub proof fn law_recorded_stage_failures_were_due(
    store: Store,
    event: EventEnvelope,
    run_id: RunId,
    failure: RootPlanningStageFailed,
    claim_owner: Result<(), StoreError>,
    evidence: Result<RetainedRootPlanningStageFailureEvidence, StoreError>,
    j: int,
)
    requires
        event.run_id == Some(run_id),
        stage_failure_verdict(store, event, failure, claim_owner, evidence) is Ok,
    ensures
        claim_owner is Ok,
        store.state_record(run_id) matches Some(row) && row.state == crate::run::RunState::Running,
        failure.cancellation_generation == 0,
        event.causal_parent is Some,
        0 <= j < store.log@.len() ==> {
            &&& crate::root_planning_state::is_of_run(store.log@[j], event.session_id, run_id)
                ==> !(store.log@[j].payload is RootPlanningFailed)
                && !(store.log@[j].payload is RootPlanningStageFailed)
            &&& store.log@[j].payload matches EventPayload::RootPlanningStageFailed(other)
                ==> other.failure_id != failure.failure_id
        },
        event.provenance.raw_artifact matches Some(kept) && kept.sha256@
            == failure.evidence_artifact.sha256@,
        event.provenance.backend matches Some(backend) && backend.backend_id@
            == failure.model_subject.lineage.backend_id@,
        failure.evidence_artifact.media_type@
            == store.contract.media.root_planning_stage_failure@,
        evidence matches Ok(evidence) && {
            &&& evidence.run_id == run_id
            &&& evidence.failed_stage == failure.failed_stage
            &&& evidence.reason == failure.reason
            &&& evidence.predecessor_event_id == failure.predecessor_event_id
            &&& evidence.execution_policy_sha256@ == failure.execution_policy_artifact.sha256@
            &&& evidence.model_subject.role == failure.model_subject.role
        },
        ({
            let previous = crate::root_planning_state::preparations(
                store.log@,
                event.session_id,
                run_id,
            );
            previous.len() > 0 && (crate::root_planning_state::stage_in(previous[0]) matches Some(
                first,
            ) && crate::root_planning_state::stage_policy(&first).sha256@
                == failure.execution_policy_artifact.sha256@)
        }),
{
    let failing = EventQuery::in_run(
        event.session_id,
        run_id,
        PayloadFilter::RootPlanningFailed,
    );
    let failing_stage = EventQuery::in_run(
        event.session_id,
        run_id,
        PayloadFilter::RootPlanningStageFailed,
    );
    let named = EventQuery::everywhere(PayloadFilter::StageFailure(failure.failure_id));
    if 0 <= j < store.log@.len() {
        if failing.admits(store.log@[j]) {
            crate::history::law_ends_of_a_selection(failing, store.log@, j);
        }
        if failing_stage.admits(store.log@[j]) {
            crate::history::law_ends_of_a_selection(failing_stage, store.log@, j);
        }
        if named.admits(store.log@[j]) {
            crate::history::law_ends_of_a_selection(named, store.log@, j);
        }
    }
    let previous = crate::root_planning_state::preparations(store.log@, event.session_id, run_id);
    let first = crate::root_planning_state::stage_in(previous[0]);
}

/// A failure names the last event of its run that is no claim.
pub proof fn law_stage_failures_name_their_predecessor(
    store: Store,
    event: EventEnvelope,
    run_id: RunId,
    failure: RootPlanningStageFailed,
    i: int,
)
    requires
        stage_failure_is_due(store, event, run_id, failure),
        0 <= i < store.log@.len(),
        crate::root_planning_state::is_of_run(store.log@[i], event.session_id, run_id),
        !(store.log@[i].payload is RunClaimed),
        forall|j: int|
            i < j < store.log@.len() && crate::root_planning_state::is_of_run(
                #[trigger] store.log@[j],
                event.session_id,
                run_id,
            ) ==> store.log@[j].payload is RunClaimed,
    ensures
        failure.predecessor_event_id == store.log@[i].id,
{
    let query = EventQuery::in_run(
        event.session_id,
        run_id,
        PayloadFilter::NotRunClaimed,
    );
    assert(query.admits(store.log@[i]));
    assert forall|j: int| i < j < store.log@.len() implies !query.admits(
        #[trigger] store.log@[j],
    ) by {}
    crate::history::law_ends_of_a_selection(query, store.log@, i);
}

/// A stage comes next only after the decision that leads to it, on the last prepared attempt: a review
/// after an accepted proposal, a repair after a review that authorized one.
pub proof fn law_next_stages_follow_a_decision(
    previous: Seq<EventEnvelope>,
    predecessor: EventEnvelope,
    stage: RootPlanningStage,
)
    requires
        stage_is_next(previous, predecessor, stage),
    ensures
        previous.len() > 0,
        previous.last().payload matches EventPayload::PlannerInferencePrepared(last) && match stage {
            RootPlanningStage::InitialPlan => false,
            RootPlanningStage::InitialReview => {
                &&& previous.len() == 1
                &&& predecessor.payload matches EventPayload::PlanProposalAccepted(accepted)
                    && accepted.inference_attempt_id == last.attempt_id
            },
            RootPlanningStage::Repair => {
                &&& previous.len() == 2
                &&& predecessor.payload matches EventPayload::PlanSemanticReviewRejected(rejected)
                    && rejected.inference_attempt_id == last.attempt_id && rejected.disposition
                    == PlanSemanticReviewRejectionDisposition::RepairOnceAuthorized
            },
            RootPlanningStage::FinalReview => {
                &&& previous.len() == 3
                &&& predecessor.payload matches EventPayload::PlanProposalAccepted(accepted)
                    && accepted.inference_attempt_id == last.attempt_id
            },
        },
{
}

/// A missing critic is the critic's failure and a missing producer the producer's; any other failure
/// of the next stage is that of the model that the stage belongs to.
pub proof fn law_failures_are_told_of_the_right_model(
    stage: RootPlanningStage,
    reason: RootPlanningStageFailureReason,
    producer: ModelLineage,
    critic: ModelLineage,
)
    ensures
        ({
            let subject = next_stage_subject(stage, reason, producer, critic);
            let reviews = stage == RootPlanningStage::InitialReview || stage
                == RootPlanningStage::FinalReview;
            &&& subject.role == RootPlanningModelRole::Producer ==> subject.lineage == producer
            &&& subject.role != RootPlanningModelRole::Producer ==> subject.lineage == critic
                && subject.role == RootPlanningModelRole::IndependentCritic
            &&& reason == RootPlanningStageFailureReason::IndependentReviewerUnavailable
                ==> subject.role == RootPlanningModelRole::IndependentCritic
            &&& reason == RootPlanningStageFailureReason::SelectedModelUnavailable ==> subject.role
                == RootPlanningModelRole::Producer
            &&& reason != RootPlanningStageFailureReason::IndependentReviewerUnavailable && reason
                != RootPlanningStageFailureReason::SelectedModelUnavailable ==> (subject.role
                == RootPlanningModelRole::IndependentCritic <==> reviews)
        }),
{
}

} // verus!

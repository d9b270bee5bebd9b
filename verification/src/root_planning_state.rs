//! Where the planning of a run stands: its prepared inferences, and the plan that it builds on.

use vstd::prelude::*;
use crate::artifact::{ArtifactRef, ModelLineage};
use crate::digest::Sha256Digest;
use crate::error::StoreError;
use crate::event::{EventEnvelope, EventPayload};
use crate::history::{EventLog, EventQuery, PayloadFilter};
use crate::identity::{ActorId, InferenceAttemptId, RunId, SessionId};
use crate::planning::{
    PlannerInferenceObservation, PlannerInferencePrepared, PlannerStageContext,
    RootPlanningModelRole, RootPlanningModelSubject, RootPlanningStage,
};
use crate::run::RetryDisposition;

verus! {

/// The kinds of stages, in order.
#[derive(Clone, Copy, Debug, PartialEq, Eq, Structural)]
pub enum PlannerStageKind {
    InitialPlan,
    InitialReview,
    Repair,
    FinalReview,
}

/// What a prepared inference fixes.
pub open spec fn prepared_in(event: EventEnvelope) -> Option<PlannerInferencePrepared> {
    match event.payload {
        EventPayload::PlannerInferencePrepared(prepared) => Some(prepared),
        _ => None,
    }
}

/// The stage that a prepared inference serves.
pub open spec fn stage_in(event: EventEnvelope) -> Option<PlannerStageContext> {
    match event.payload {
        EventPayload::PlannerInferencePrepared(prepared) => prepared.stage_context,
        _ => None,
    }
}

/// What a prepared inference fixes.
pub fn prepared_inference(event: &EventEnvelope) -> (r: Option<&PlannerInferencePrepared>)
    ensures
        prepared_in(*event) == (match r {
            Some(prepared) => Some(*prepared),
            None => None,
        }),
{
    match &event.payload {
        EventPayload::PlannerInferencePrepared(prepared) => Some(prepared),
        _ => None,
    }
}

/// The stage that a prepared inference serves.
pub fn prepared_stage(event: &EventEnvelope) -> (r: Option<&PlannerStageContext>)
    ensures
        stage_in(*event) == (match r {
            Some(stage) => Some(*stage),
            None => None,
        }),
{
    match &event.payload {
        EventPayload::PlannerInferencePrepared(prepared) => match &prepared.stage_context {
            Some(stage) => Some(stage),
            None => None,
        },
        _ => None,
    }
}

/// The event that prepared an attempt.
pub open spec fn preparation_of(
    events: Seq<EventEnvelope>,
    session_id: SessionId,
    run_id: RunId,
    attempt_id: InferenceAttemptId,
) -> Option<EventEnvelope> {
    EventQuery::in_run(session_id, run_id, PayloadFilter::PreparedForAttempt(attempt_id)).first_of(
        events,
    )
}

/// The event that prepared an attempt; refused where there is none.
pub fn prepared_inference_for_attempt<'a>(
    log: &'a EventLog,
    session_id: SessionId,
    run_id: RunId,
    attempt_id: InferenceAttemptId,
) -> (r: Result<&'a EventEnvelope, StoreError>)
    ensures
        r == (match preparation_of(log@, session_id, run_id, attempt_id) {
            Some(event) => Ok::<&EventEnvelope, StoreError>(&event),
            None => Err(StoreError::InvalidStateEvent),
        }),
{
    match log.first(
        &EventQuery::in_run(session_id, run_id, PayloadFilter::PreparedForAttempt(attempt_id)),
    ) {
        Some(event) => Ok(event),
        None => Err(StoreError::InvalidStateEvent),
    }
}

/// The revision and the digest of the last accepted plan.
pub open spec fn plan_base(
    events: Seq<EventEnvelope>,
    session_id: SessionId,
    run_id: RunId,
) -> Option<(u64, Seq<char>)> {
    match EventQuery::in_run(session_id, run_id, PayloadFilter::ProposalAccepted).last_of(events) {
        Some(event) => match event.payload {
            EventPayload::PlanProposalAccepted(accepted) => Some(
                (accepted.accepted_plan_revision, accepted.accepted_plan_digest@),
            ),
            _ => None,
        },
        None => None,
    }
}

/// The revision and the digest of the last accepted plan.
pub fn current_plan_base<'a>(log: &'a EventLog, session_id: SessionId, run_id: RunId) -> (r: Option<
    (u64, &'a Sha256Digest),
>)
    ensures
        plan_base(log@, session_id, run_id) == (match r {
            Some((revision, digest)) => Some((revision, digest@)),
            None => None,
        }),
{
    match log.last(&EventQuery::in_run(session_id, run_id, PayloadFilter::ProposalAccepted)) {
        Some(event) => match &event.payload {
            EventPayload::PlanProposalAccepted(accepted) => Some(
                (accepted.accepted_plan_revision, &accepted.accepted_plan_digest),
            ),
            _ => None,
        },
        None => None,
    }
}

/// The first prepared inference of a run.
pub open spec fn first_preparation(
    events: Seq<EventEnvelope>,
    session_id: SessionId,
    run_id: RunId,
) -> Option<PlannerInferencePrepared> {
    match EventQuery::in_run(session_id, run_id, PayloadFilter::InferencePrepared).first_of(events) {
        Some(event) => prepared_in(event),
        None => None,
    }
}

/// The first prepared inference of a run.
pub fn first_prepared_inference<'a>(log: &'a EventLog, session_id: SessionId, run_id: RunId) -> (r:
    Option<&'a PlannerInferencePrepared>)
    ensures
        first_preparation(log@, session_id, run_id) == (match r {
            Some(prepared) => Some(*prepared),
            None => None,
        }),
{
    match log.first(&EventQuery::in_run(session_id, run_id, PayloadFilter::InferencePrepared)) {
        Some(event) => prepared_inference(event),
        None => None,
    }
}

/// Whether an inference may build on a plan: it is the last accepted one, or, before any was
/// accepted, revision zero with the digest that the first inference fixed. Only the first inference
/// itself may bring that digest.
pub open spec fn builds_on_current_plan(
    events: Seq<EventEnvelope>,
    session_id: SessionId,
    run_id: RunId,
    revision: u64,
    digest: Seq<char>,
    allow_first_genesis: bool,
) -> bool {
    match plan_base(events, session_id, run_id) {
        Some((current_revision, current_digest)) => current_revision == revision && current_digest
            == digest,
        None => revision == 0 && match first_preparation(events, session_id, run_id) {
            Some(first) => first.plan_revision == 0 && first.plan_digest@ == digest,
            None => allow_first_genesis,
        },
    }
}

/// Refuses an inference that builds on another plan than the current one.
pub fn require_current_plan_base(
    log: &EventLog,
    session_id: SessionId,
    run_id: RunId,
    revision: u64,
    digest: &Sha256Digest,
    allow_first_genesis: bool,
) -> (r: Result<(), StoreError>)
    ensures
        r == crate::error::demand(
            builds_on_current_plan(
                log@,
                session_id,
                run_id,
                revision,
                digest@,
                allow_first_genesis,
            ),
        ),
{
    match current_plan_base(log, session_id, run_id) {
        Some((current_revision, current_digest)) => {
            return if current_revision != revision || *current_digest != *digest {
                Err(StoreError::InvalidStateEvent)
            } else {
                Ok(())
            };
        },
        None => {},
    }
    if revision != 0 {
        return Err(StoreError::InvalidStateEvent);
    }
    match first_prepared_inference(log, session_id, run_id) {
        Some(first) => if first.plan_revision == 0 && first.plan_digest == *digest {
            Ok(())
        } else {
            Err(StoreError::InvalidStateEvent)
        },
        None => if allow_first_genesis {
            Ok(())
        } else {
            Err(StoreError::InvalidStateEvent)
        },
    }
}

/// Whether an event ends an attempt for good: its outcome is unknown, a decision was made on it, or
/// it failed and only a new attempt may follow.
pub open spec fn ends_attempt(payload: EventPayload) -> bool {
    match payload {
        EventPayload::PlannerInferenceOutcomeUnknown(_) => true,
        EventPayload::PlanProposalAccepted(_) => true,
        EventPayload::PlanProposalRejected(_) => true,
        EventPayload::PlanSemanticReviewAccepted(_) => true,
        EventPayload::PlanSemanticReviewRejected(_) => true,
        EventPayload::PlannerInferenceObserved(observed) => match observed.outcome {
            PlannerInferenceObservation::Failed { error } => error.retry
                == RetryDisposition::RequiresNewAttempt,
            _ => false,
        },
        _ => false,
    }
}

/// What is found of a parent attempt: whether the last thing recorded of it after its preparation
/// ends it for good. An attempt that was never prepared is refused.
pub open spec fn parent_ended(
    events: Seq<EventEnvelope>,
    session_id: SessionId,
    run_id: RunId,
    attempt_id: InferenceAttemptId,
) -> Result<bool, StoreError> {
    match preparation_of(events, session_id, run_id, attempt_id) {
        None => Err(StoreError::InvalidStateEvent),
        Some(parent) => if parent.sequence == u64::MAX {
            Ok(false)
        } else {
            match EventQuery::in_run(
                session_id,
                run_id,
                PayloadFilter::AttemptBoundary(attempt_id),
            ).starting_at((parent.sequence + 1) as u64).last_of(events) {
                Some(event) => Ok(ends_attempt(event.payload)),
                None => Ok(false),
            }
        },
    }
}

/// Whether the last thing recorded of a parent attempt ends it for good.
pub fn parent_attempt_is_terminal(
    log: &EventLog,
    session_id: SessionId,
    run_id: RunId,
    parent_attempt_id: InferenceAttemptId,
) -> (r: Result<bool, StoreError>)
    ensures
        r == parent_ended(log@, session_id, run_id, parent_attempt_id),
{
    let parent = match prepared_inference_for_attempt(log, session_id, run_id, parent_attempt_id) {
        Ok(parent) => parent,
        Err(error) => return Err(error),
    };
    if parent.sequence == u64::MAX {
        return Ok(false);
    }
    let terminal = match log.last(
        &EventQuery::in_run(
            session_id,
            run_id,
            PayloadFilter::AttemptBoundary(parent_attempt_id),
        ).starting_at(parent.sequence + 1),
    ) {
        Some(event) => event,
        None => return Ok(false),
    };
    Ok(
        match &terminal.payload {
            EventPayload::PlannerInferenceOutcomeUnknown(_)
            | EventPayload::PlanProposalAccepted(_) | EventPayload::PlanProposalRejected(_)
            | EventPayload::PlanSemanticReviewAccepted(_)
            | EventPayload::PlanSemanticReviewRejected(_) => true,
            EventPayload::PlannerInferenceObserved(observed) => match &observed.outcome {
                PlannerInferenceObservation::Failed { error } => error.retry
                    == RetryDisposition::RequiresNewAttempt,
                _ => false,
            },
            _ => false,
        },
    )
}

/// All prepared inferences of a run, in order.
pub open spec fn preparations(
    events: Seq<EventEnvelope>,
    session_id: SessionId,
    run_id: RunId,
) -> Seq<EventEnvelope> {
    EventQuery::in_run(session_id, run_id, PayloadFilter::InferencePrepared).rows(events)
}

/// All prepared inferences of a run, in order.
pub fn prepared_events_for_run<'a>(log: &'a EventLog, session_id: SessionId, run_id: RunId) -> (r:
    Vec<&'a EventEnvelope>)
    ensures
        r@.len() == preparations(log@, session_id, run_id).len(),
        forall|i: int|
            0 <= i < r@.len() ==> *#[trigger] r@[i] == preparations(log@, session_id, run_id)[i],
{
    log.select(&EventQuery::in_run(session_id, run_id, PayloadFilter::InferencePrepared))
}

/// The model's actor in a stage.
#[verifier::allow_in_spec]
pub fn stage_actor(stage: &PlannerStageContext) -> ActorId
    returns
        (match *stage {
            PlannerStageContext::InitialPlan { model_actor_id, .. } => model_actor_id,
            PlannerStageContext::InitialReview { model_actor_id, .. } => model_actor_id,
            PlannerStageContext::Repair { model_actor_id, .. } => model_actor_id,
            PlannerStageContext::FinalReview { model_actor_id, .. } => model_actor_id,
        }),
{
    match stage {
        PlannerStageContext::InitialPlan { model_actor_id, .. } => *model_actor_id,
        PlannerStageContext::InitialReview { model_actor_id, .. } => *model_actor_id,
        PlannerStageContext::Repair { model_actor_id, .. } => *model_actor_id,
        PlannerStageContext::FinalReview { model_actor_id, .. } => *model_actor_id,
    }
}

/// The lineage of the model in a stage.
#[verifier::allow_in_spec]
pub fn stage_lineage(stage: &PlannerStageContext) -> &ModelLineage
    returns
        (match stage {
            PlannerStageContext::InitialPlan { model_lineage, .. } => model_lineage,
            PlannerStageContext::InitialReview { model_lineage, .. } => model_lineage,
            PlannerStageContext::Repair { model_lineage, .. } => model_lineage,
            PlannerStageContext::FinalReview { model_lineage, .. } => model_lineage,
        }),
{
    match stage {
        PlannerStageContext::InitialPlan { model_lineage, .. } => model_lineage,
        PlannerStageContext::InitialReview { model_lineage, .. } => model_lineage,
        PlannerStageContext::Repair { model_lineage, .. } => model_lineage,
        PlannerStageContext::FinalReview { model_lineage, .. } => model_lineage,
    }
}

/// The execution policy that a stage was prepared under.
#[verifier::allow_in_spec]
pub fn stage_policy(stage: &PlannerStageContext) -> &ArtifactRef
    returns
        (match stage {
            PlannerStageContext::InitialPlan { execution_policy_artifact, .. } =>
                execution_policy_artifact,
            PlannerStageContext::InitialReview { execution_policy_artifact, .. } =>
                execution_policy_artifact,
            PlannerStageContext::Repair { execution_policy_artifact, .. } =>
                execution_policy_artifact,
            PlannerStageContext::FinalReview { execution_policy_artifact, .. } =>
                execution_policy_artifact,
        }),
{
    match stage {
        PlannerStageContext::InitialPlan { execution_policy_artifact, .. } =>
            execution_policy_artifact,
        PlannerStageContext::InitialReview { execution_policy_artifact, .. } =>
            execution_policy_artifact,
        PlannerStageContext::Repair { execution_policy_artifact, .. } => execution_policy_artifact,
        PlannerStageContext::FinalReview { execution_policy_artifact, .. } =>
            execution_policy_artifact,
    }
}

/// The actor, the lineage and the execution policy of a stage.
pub fn stage_identity(stage: &PlannerStageContext) -> (r: (ActorId, &ModelLineage, &ArtifactRef))
    ensures
        r == (stage_actor(stage), stage_lineage(stage), stage_policy(stage)),
{
    (stage_actor(stage), stage_lineage(stage), stage_policy(stage))
}

/// What kind of stage a context is of.
#[verifier::allow_in_spec]
pub fn stage_kind(stage: &PlannerStageContext) -> PlannerStageKind
    returns
        (match *stage {
            PlannerStageContext::InitialPlan { .. } => PlannerStageKind::InitialPlan,
            PlannerStageContext::InitialReview { .. } => PlannerStageKind::InitialReview,
            PlannerStageContext::Repair { .. } => PlannerStageKind::Repair,
            PlannerStageContext::FinalReview { .. } => PlannerStageKind::FinalReview,
        }),
{
    match stage {
        PlannerStageContext::InitialPlan { .. } => PlannerStageKind::InitialPlan,
        PlannerStageContext::InitialReview { .. } => PlannerStageKind::InitialReview,
        PlannerStageContext::Repair { .. } => PlannerStageKind::Repair,
        PlannerStageContext::FinalReview { .. } => PlannerStageKind::FinalReview,
    }
}

/// The stage and the model that a failure in a context is about: producers plan and repair,
/// independent critics review.
pub fn stage_model_subject(stage: &PlannerStageContext) -> (r: (
    RootPlanningStage,
    RootPlanningModelSubject,
))
    ensures
        r == stage_subject(*stage),
{
    let lineage = stage_lineage(stage).clone();
    match stage {
        PlannerStageContext::InitialPlan { .. } => (
            RootPlanningStage::InitialPlan,
            RootPlanningModelSubject { role: RootPlanningModelRole::Producer, lineage },
        ),
        PlannerStageContext::InitialReview { .. } => (
            RootPlanningStage::InitialReview,
            RootPlanningModelSubject { role: RootPlanningModelRole::IndependentCritic, lineage },
        ),
        PlannerStageContext::Repair { .. } => (
            RootPlanningStage::Repair,
            RootPlanningModelSubject { role: RootPlanningModelRole::Producer, lineage },
        ),
        PlannerStageContext::FinalReview { .. } => (
            RootPlanningStage::FinalReview,
            RootPlanningModelSubject { role: RootPlanningModelRole::IndependentCritic, lineage },
        ),
    }
}

/// The stage and the model that a failure in a context is about.
pub open spec fn stage_subject(stage: PlannerStageContext) -> (
    RootPlanningStage,
    RootPlanningModelSubject,
) {
    let produces = stage is InitialPlan || stage is Repair;
    (
        match stage {
            PlannerStageContext::InitialPlan { .. } => RootPlanningStage::InitialPlan,
            PlannerStageContext::InitialReview { .. } => RootPlanningStage::InitialReview,
            PlannerStageContext::Repair { .. } => RootPlanningStage::Repair,
            PlannerStageContext::FinalReview { .. } => RootPlanningStage::FinalReview,
        },
        RootPlanningModelSubject {
            role: if produces {
                RootPlanningModelRole::Producer
            } else {
                RootPlanningModelRole::IndependentCritic
            },
            lineage: *stage_lineage(&stage),
        },
    )
}

/// Whether an event belongs to a run of a session.
pub open spec fn is_of_run(event: EventEnvelope, session_id: SessionId, run_id: RunId) -> bool {
    event.session_id == session_id && event.run_id == Some(run_id)
}

/// Whether an event prepares an attempt.
pub open spec fn prepares_attempt(event: EventEnvelope, attempt_id: InferenceAttemptId) -> bool {
    event.payload matches EventPayload::PlannerInferencePrepared(prepared) && prepared.attempt_id
        == attempt_id
}

/// Whether an event says something of an attempt after its preparation: how the inference ended, or
/// what was decided on it.
pub open spec fn tells_of_attempt(event: EventEnvelope, attempt_id: InferenceAttemptId) -> bool {
    ||| (event.payload matches EventPayload::PlannerInferenceObserved(observed)
        && observed.attempt_id == attempt_id)
    ||| (event.payload matches EventPayload::PlannerInferenceOutcomeUnknown(unknown)
        && unknown.attempt_id == attempt_id)
    ||| (event.payload matches EventPayload::PlanProposalAccepted(accepted)
        && accepted.inference_attempt_id == attempt_id)
    ||| (event.payload matches EventPayload::PlanProposalRejected(rejected)
        && rejected.inference_attempt_id == attempt_id)
    ||| (event.payload matches EventPayload::PlanSemanticReviewAccepted(accepted)
        && accepted.inference_attempt_id == attempt_id)
    ||| (event.payload matches EventPayload::PlanSemanticReviewRejected(rejected)
        && rejected.inference_attempt_id == attempt_id)
}

/// The last record of a prepared attempt says whether it may be a parent: after any decision on it,
/// whichever way it went, and after an unknown outcome it may; after a success that nothing was
/// decided on it may not; after a failure it may where only a new attempt can follow.
pub proof fn law_last_record_decides_a_parent(
    events: Seq<EventEnvelope>,
    session_id: SessionId,
    run_id: RunId,
    attempt_id: InferenceAttemptId,
    p: int,
    i: int,
)
    requires
        0 <= p < events.len(),
        is_of_run(events[p], session_id, run_id),
        prepares_attempt(events[p], attempt_id),
        forall|j: int|
            0 <= j < p && is_of_run(#[trigger] events[j], session_id, run_id)
                ==> !prepares_attempt(events[j], attempt_id),
        0 <= i < events.len(),
        is_of_run(events[i], session_id, run_id),
        events[p].sequence < events[i].sequence,
        tells_of_attempt(events[i], attempt_id),
        forall|j: int|
            i < j < events.len() && is_of_run(#[trigger] events[j], session_id, run_id)
                && events[p].sequence < events[j].sequence ==> !tells_of_attempt(
                events[j],
                attempt_id,
            ),
    ensures
        match events[i].payload {
            EventPayload::PlannerInferenceObserved(observed) => match observed.outcome {
                PlannerInferenceObservation::Succeeded { .. } => parent_ended(
                    events,
                    session_id,
                    run_id,
                    attempt_id,
                ) == Ok::<bool, StoreError>(false),
                PlannerInferenceObservation::Failed { error } => parent_ended(
                    events,
                    session_id,
                    run_id,
                    attempt_id,
                ) == Ok::<bool, StoreError>(error.retry == RetryDisposition::RequiresNewAttempt),
            },
            _ => parent_ended(events, session_id, run_id, attempt_id) == Ok::<bool, StoreError>(
                true,
            ),
        },
{
    let preparing = EventQuery::in_run(
        session_id,
        run_id,
        PayloadFilter::PreparedForAttempt(attempt_id),
    );
    assert(preparing.admits(events[p]));
    assert forall|j: int| 0 <= j < p implies !preparing.admits(#[trigger] events[j]) by {}
    crate::history::law_ends_of_a_selection(preparing, events, p);
    let telling = EventQuery::in_run(
        session_id,
        run_id,
        PayloadFilter::AttemptBoundary(attempt_id),
    ).starting_at((events[p].sequence + 1) as u64);
    assert(telling.admits(events[i]));
    assert forall|j: int| i < j < events.len() implies !telling.admits(#[trigger] events[j]) by {}
    crate::history::law_ends_of_a_selection(telling, events, i);
}

/// An attempt that nothing was recorded of after its preparation is no parent yet, and one that was
/// never prepared is refused as a parent.
pub proof fn law_open_attempts_are_no_parents(
    events: Seq<EventEnvelope>,
    session_id: SessionId,
    run_id: RunId,
    attempt_id: InferenceAttemptId,
)
    ensures
        (forall|j: int|
            0 <= j < events.len() && is_of_run(#[trigger] events[j], session_id, run_id)
                ==> !prepares_attempt(events[j], attempt_id)) ==> parent_ended(
            events,
            session_id,
            run_id,
            attempt_id,
        ) == Err::<bool, StoreError>(StoreError::InvalidStateEvent),
        (exists|j: int|
            0 <= j < events.len() && is_of_run(#[trigger] events[j], session_id, run_id)
                && prepares_attempt(events[j], attempt_id)) && (forall|j: int|
            0 <= j < events.len() && is_of_run(#[trigger] events[j], session_id, run_id)
                ==> !tells_of_attempt(events[j], attempt_id)) ==> parent_ended(
            events,
            session_id,
            run_id,
            attempt_id,
        ) == Ok::<bool, StoreError>(false),
{
    let preparing = EventQuery::in_run(
        session_id,
        run_id,
        PayloadFilter::PreparedForAttempt(attempt_id),
    );
    let ends = crate::history::law_selections_have_ends(preparing, events);
    if preparing.first_of(events) is Some {
        assert(prepares_attempt(events[ends.0], attempt_id));
        let parent = events[ends.0];
        if parent.sequence < u64::MAX {
            let telling = EventQuery::in_run(
                session_id,
                run_id,
                PayloadFilter::AttemptBoundary(attempt_id),
            ).starting_at((parent.sequence + 1) as u64);
            let told = crate::history::law_selections_have_ends(telling, events);
            if telling.last_of(events) is Some {
                assert(tells_of_attempt(events[told.1], attempt_id));
            }
        }
    } else {
        assert forall|j: int|
            0 <= j < events.len() && is_of_run(#[trigger] events[j], session_id, run_id) implies
            !prepares_attempt(events[j], attempt_id) by {
            assert(!preparing.admits(events[j]));
        }
    }
}

/// A parent that has ended was prepared in the run, and the last record of it after its preparation
/// is no success that still waits for a decision.
pub proof fn law_parents_have_ended(
    events: Seq<EventEnvelope>,
    session_id: SessionId,
    run_id: RunId,
    attempt_id: InferenceAttemptId,
) -> (places: (int, int))
    requires
        parent_ended(events, session_id, run_id, attempt_id) == Ok::<bool, StoreError>(true),
    ensures
        0 <= places.0 < events.len(),
        is_of_run(events[places.0], session_id, run_id),
        prepares_attempt(events[places.0], attempt_id),
        0 <= places.1 < events.len(),
        is_of_run(events[places.1], session_id, run_id),
        events[places.0].sequence < events[places.1].sequence,
        tells_of_attempt(events[places.1], attempt_id),
        events[places.1].payload matches EventPayload::PlannerInferenceObserved(observed) ==> (
        observed.outcome matches PlannerInferenceObservation::Failed { error } && error.retry
            == RetryDisposition::RequiresNewAttempt),
        forall|j: int|
            places.1 < j < events.len() && is_of_run(#[trigger] events[j], session_id, run_id)
                && events[places.0].sequence < events[j].sequence ==> !tells_of_attempt(
                events[j],
                attempt_id,
            ),
{
    let preparing = EventQuery::in_run(
        session_id,
        run_id,
        PayloadFilter::PreparedForAttempt(attempt_id),
    );
    let first = crate::history::law_selections_have_ends(preparing, events);
    let telling = EventQuery::in_run(
        session_id,
        run_id,
        PayloadFilter::AttemptBoundary(attempt_id),
    ).starting_at((events[first.0].sequence + 1) as u64);
    let told = crate::history::law_selections_have_ends(telling, events);
    assert forall|j: int|
        told.1 < j < events.len() && is_of_run(#[trigger] events[j], session_id, run_id)
            && events[first.0].sequence < events[j].sequence implies !tells_of_attempt(
        events[j],
        attempt_id,
    ) by {
        assert(!telling.admits(events[j]));
    }
    (first.0, told.1)
}

/// The plan that a run builds on is that of its last acceptance, which must be met exactly; before
/// any acceptance it is revision zero, with the digest that the first inference was prepared on.
pub proof fn law_runs_build_on_the_last_acceptance(
    events: Seq<EventEnvelope>,
    session_id: SessionId,
    run_id: RunId,
    i: int,
    revision: u64,
    digest: Seq<char>,
    allow_first_genesis: bool,
)
    requires
        0 <= i < events.len(),
        is_of_run(events[i], session_id, run_id),
        events[i].payload is PlanProposalAccepted,
        forall|j: int|
            i < j < events.len() && is_of_run(#[trigger] events[j], session_id, run_id) ==> !(
            events[j].payload is PlanProposalAccepted),
    ensures
        events[i].payload matches EventPayload::PlanProposalAccepted(accepted) ==> {
            &&& plan_base(events, session_id, run_id) == Some(
                (accepted.accepted_plan_revision, accepted.accepted_plan_digest@),
            )
            &&& builds_on_current_plan(
                events,
                session_id,
                run_id,
                revision,
                digest,
                allow_first_genesis,
            ) <==> (revision == accepted.accepted_plan_revision && digest
                == accepted.accepted_plan_digest@)
        },
{
    let query = EventQuery::in_run(session_id, run_id, PayloadFilter::ProposalAccepted);
    assert(query.admits(events[i]));
    assert forall|j: int| i < j < events.len() implies !query.admits(#[trigger] events[j]) by {}
    crate::history::law_ends_of_a_selection(query, events, i);
}

/// Before any plan is accepted a run is at revision zero: whoever builds on it keeps the digest of
/// the first prepared inference, and only the first may bring one.
pub proof fn law_runs_begin_at_their_first_inference(
    events: Seq<EventEnvelope>,
    session_id: SessionId,
    run_id: RunId,
    p: int,
    revision: u64,
    digest: Seq<char>,
    allow_first_genesis: bool,
)
    requires
        forall|j: int|
            0 <= j < events.len() && is_of_run(#[trigger] events[j], session_id, run_id) ==> !(
            events[j].payload is PlanProposalAccepted),
        forall|j: int|
            0 <= j < p && j < events.len() && is_of_run(#[trigger] events[j], session_id, run_id)
                ==> !(events[j].payload is PlannerInferencePrepared),
        p == events.len() || (0 <= p < events.len() && is_of_run(events[p], session_id, run_id)
            && events[p].payload is PlannerInferencePrepared),
    ensures
        plan_base(events, session_id, run_id) is None,
        p == events.len() ==> (builds_on_current_plan(
            events,
            session_id,
            run_id,
            revision,
            digest,
            allow_first_genesis,
        ) <==> revision == 0 && allow_first_genesis),
        p < events.len() ==> (events[p].payload matches EventPayload::PlannerInferencePrepared(
            first,
        ) ==> (builds_on_current_plan(
            events,
            session_id,
            run_id,
            revision,
            digest,
            allow_first_genesis,
        ) <==> revision == 0 && first.plan_revision == 0 && digest == first.plan_digest@)),
{
    let accepting = EventQuery::in_run(session_id, run_id, PayloadFilter::ProposalAccepted);
    assert forall|j: int| 0 <= j < events.len() implies !accepting.admits(
        #[trigger] events[j],
    ) by {}
    crate::history::lemma_nothing_selected(accepting, events);
    let preparing = EventQuery::in_run(session_id, run_id, PayloadFilter::InferencePrepared);
    assert forall|j: int| 0 <= j < p && j < events.len() implies !preparing.admits(
        #[trigger] events[j],
    ) by {}
    if p < events.len() {
        assert(preparing.admits(events[p]));
        crate::history::law_ends_of_a_selection(preparing, events, p);
    } else {
        crate::history::lemma_nothing_selected(preparing, events);
    }
}

/// Every stage is told by its own context: who acts in it, with which model, under which policy, and
/// that producers plan and repair while independent critics review.
pub proof fn law_stages_tell_who_acts(stage: PlannerStageContext)
    ensures
        match stage {
            PlannerStageContext::InitialPlan {
                model_actor_id,
                model_lineage,
                execution_policy_artifact,
                ..
            } => {
                &&& stage_actor(&stage) == model_actor_id
                &&& *stage_lineage(&stage) == model_lineage
                &&& *stage_policy(&stage) == execution_policy_artifact
                &&& stage_kind(&stage) == PlannerStageKind::InitialPlan
                &&& stage_subject(stage).0 == RootPlanningStage::InitialPlan
                &&& stage_subject(stage).1.role == RootPlanningModelRole::Producer
                &&& stage_subject(stage).1.lineage == model_lineage
            },
            PlannerStageContext::InitialReview {
                model_actor_id,
                model_lineage,
                execution_policy_artifact,
                ..
            } => {
                &&& stage_actor(&stage) == model_actor_id
                &&& *stage_lineage(&stage) == model_lineage
                &&& *stage_policy(&stage) == execution_policy_artifact
                &&& stage_kind(&stage) == PlannerStageKind::InitialReview
                &&& stage_subject(stage).0 == RootPlanningStage::InitialReview
                &&& stage_subject(stage).1.role == RootPlanningModelRole::IndependentCritic
                &&& stage_subject(stage).1.lineage == model_lineage
            },
            PlannerStageContext::Repair {
                model_actor_id,
                model_lineage,
                execution_policy_artifact,
                ..
            } => {
                &&& stage_actor(&stage) == model_actor_id
                &&& *stage_lineage(&stage) == model_lineage
                &&& *stage_policy(&stage) == execution_policy_artifact
                &&& stage_kind(&stage) == PlannerStageKind::Repair
                &&& stage_subject(stage).0 == RootPlanningStage::Repair
                &&& stage_subject(stage).1.role == RootPlanningModelRole::Producer
                &&& stage_subject(stage).1.lineage == model_lineage
            },
            PlannerStageContext::FinalReview {
                model_actor_id,
                model_lineage,
                execution_policy_artifact,
                ..
            } => {
                &&& stage_actor(&stage) == model_actor_id
                &&& *stage_lineage(&stage) == model_lineage
                &&& *stage_policy(&stage) == execution_policy_artifact
                &&& stage_kind(&stage) == PlannerStageKind::FinalReview
                &&& stage_subject(stage).0 == RootPlanningStage::FinalReview
                &&& stage_subject(stage).1.role == RootPlanningModelRole::IndependentCritic
                &&& stage_subject(stage).1.lineage == model_lineage
            },
        },
{
}

} // verus!

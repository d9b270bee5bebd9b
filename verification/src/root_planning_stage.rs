//! The stages of root planning: which may follow which, and under what policy.

use vstd::prelude::*;
use crate::artifact::{ArtifactRef, BackendKind, ModelLineage};
use crate::contract::{Contract, RootPlanningPolicyLimits};
use crate::digest::Sha256Digest;
use crate::error::StoreError;
use crate::event::{EventEnvelope, EventPayload};
use crate::identity::{ActorId, InferenceAttemptId, RunId};
use crate::planning::{
    PlanCandidateBinding, PlanProposalAccepted, PlanSemanticReviewRejected,
    PlanSemanticReviewRejectionDisposition, PlannerInferencePrepared, PlannerStageContext,
};
use crate::retained::{
    RootPlanningExecutionPolicy, RootPlanningPromptContracts, RootPlanningStageBudgets,
};
use crate::root_planning_state::{
    prepared_events_for_run, prepared_inference_for_attempt, prepared_stage, stage_actor,
    stage_kind, stage_lineage, stage_policy, PlannerStageKind,
};
use crate::run::PlanAcceptanceContract;
use crate::store::Store;
use crate::text::{Same, Text};

verus! {

/// The plan that a stage reviews or repairs.
#[verifier::allow_in_spec]
pub fn stage_candidate(stage: &PlannerStageContext) -> Option<&PlanCandidateBinding>
    returns
        (match stage {
            PlannerStageContext::InitialPlan { .. } => None::<&PlanCandidateBinding>,
            PlannerStageContext::InitialReview { candidate, .. } => Some(candidate),
            PlannerStageContext::Repair { candidate, .. } => Some(candidate),
            PlannerStageContext::FinalReview { candidate, .. } => Some(candidate),
        }),
{
    match stage {
        PlannerStageContext::InitialPlan { .. } => None,
        PlannerStageContext::InitialReview { candidate, .. } => Some(candidate),
        PlannerStageContext::Repair { candidate, .. } => Some(candidate),
        PlannerStageContext::FinalReview { candidate, .. } => Some(candidate),
    }
}

/// The critic policy of a review.
#[verifier::allow_in_spec]
pub fn review_critic_policy_artifact(stage: &PlannerStageContext) -> Option<&ArtifactRef>
    returns
        (match stage {
            PlannerStageContext::InitialReview { critic_policy_artifact, .. } => Some(
                critic_policy_artifact,
            ),
            PlannerStageContext::FinalReview { critic_policy_artifact, .. } => Some(
                critic_policy_artifact,
            ),
            _ => None::<&ArtifactRef>,
        }),
{
    match stage {
        PlannerStageContext::InitialReview { critic_policy_artifact, .. } => Some(
            critic_policy_artifact,
        ),
        PlannerStageContext::FinalReview { critic_policy_artifact, .. } => Some(
            critic_policy_artifact,
        ),
        _ => None,
    }
}

/// The acceptance of the plan that a candidate names, where it names it exactly.
pub open spec fn candidate_acceptance(
    store: Store,
    event: EventEnvelope,
    run_id: RunId,
    candidate: PlanCandidateBinding,
) -> Option<PlanProposalAccepted> {
    match crate::planning_ground::event_of_run(
        store,
        event.session_id,
        run_id,
        candidate.proposal_event_id,
    ) {
        Some(proposal) => match proposal.payload {
            EventPayload::PlanProposalAccepted(accepted) => if accepted.accepted_plan_revision
                == candidate.plan_revision && accepted.accepted_plan_digest@
                == candidate.plan_digest@ && accepted.accepted_plan_artifact.same(
                &candidate.plan_artifact,
            ) {
                Some(accepted)
            } else {
                None
            },
            _ => None,
        },
        None => None,
    }
}

/// The acceptance of the plan that a candidate names; refused where it does not name it exactly.
pub fn validate_candidate_binding<'a>(
    store: &'a Store,
    event: &EventEnvelope,
    run_id: RunId,
    candidate: &PlanCandidateBinding,
) -> (r: Result<&'a PlanProposalAccepted, StoreError>)
    ensures
        r == (match candidate_acceptance(*store, *event, run_id, *candidate) {
            Some(accepted) => Ok::<&PlanProposalAccepted, StoreError>(&accepted),
            None => Err(StoreError::InvalidStateEvent),
        }),
{
    let proposal = match store.log.event(event.session_id, run_id, candidate.proposal_event_id) {
        Ok(proposal) => proposal,
        Err(error) => return Err(error),
    };
    match &proposal.payload {
        EventPayload::PlanProposalAccepted(accepted) => if accepted.accepted_plan_revision
            == candidate.plan_revision && accepted.accepted_plan_digest == candidate.plan_digest
            && accepted.accepted_plan_artifact == candidate.plan_artifact {
            Ok(accepted)
        } else {
            Err(StoreError::InvalidStateEvent)
        },
        _ => Err(StoreError::InvalidStateEvent),
    }
}

/// The stage that prepared an attempt.
pub open spec fn stage_of_attempt(
    store: Store,
    event: EventEnvelope,
    run_id: RunId,
    attempt_id: InferenceAttemptId,
) -> Option<PlannerStageContext> {
    match crate::root_planning_state::preparation_of(
        store.log@,
        event.session_id,
        run_id,
        attempt_id,
    ) {
        Some(prepared) => crate::root_planning_state::stage_in(prepared),
        None => None,
    }
}

fn prepared_stage_for_attempt<'a>(
    store: &'a Store,
    event: &EventEnvelope,
    run_id: RunId,
    attempt_id: InferenceAttemptId,
) -> (r: Option<&'a PlannerStageContext>)
    ensures
        stage_of_attempt(*store, *event, run_id, attempt_id) == (match r {
            Some(stage) => Some(*stage),
            None => None,
        }),
{
    match prepared_inference_for_attempt(&store.log, event.session_id, run_id, attempt_id) {
        Ok(prepared) => prepared_stage(prepared),
        Err(_) => None,
    }
}

/// Whether a critic is independent of a producer: another actor, another independence domain and
/// another model.
pub open spec fn independent_of(
    reviewer_actor: ActorId,
    reviewer: ModelLineage,
    producer_stage: PlannerStageContext,
) -> bool {
    let producer = *stage_lineage(&producer_stage);
    &&& reviewer_actor != stage_actor(&producer_stage)
    &&& reviewer.independence_domain_id@ != producer.independence_domain_id@
    &&& !(reviewer.backend_id@ == producer.backend_id@ && reviewer.model_id@ == producer.model_id@)
}

/// Refuses a critic that is not independent of the producer.
pub fn validate_reviewer_independence(
    reviewer_actor: ActorId,
    reviewer_lineage: &ModelLineage,
    producer_stage: &PlannerStageContext,
) -> (r: Result<(), StoreError>)
    ensures
        r == crate::error::demand(
            independent_of(reviewer_actor, *reviewer_lineage, *producer_stage),
        ),
{
    let producer_lineage = stage_lineage(producer_stage);
    if reviewer_actor == stage_actor(producer_stage) || reviewer_lineage.independence_domain_id
        == producer_lineage.independence_domain_id || (reviewer_lineage.backend_id
        == producer_lineage.backend_id && reviewer_lineage.model_id == producer_lineage.model_id) {
        return Err(StoreError::InvalidStateEvent);
    }
    Ok(())
}

/// The stages that come before a stage, in order.
pub open spec fn required_prefix(kind: PlannerStageKind) -> Seq<PlannerStageKind> {
    match kind {
        PlannerStageKind::InitialPlan => seq![],
        PlannerStageKind::InitialReview => seq![PlannerStageKind::InitialPlan],
        PlannerStageKind::Repair => seq![
            PlannerStageKind::InitialPlan,
            PlannerStageKind::InitialReview,
        ],
        PlannerStageKind::FinalReview => seq![
            PlannerStageKind::InitialPlan,
            PlannerStageKind::InitialReview,
            PlannerStageKind::Repair,
        ],
    }
}

/// Whether `previous` are prepared stages of exactly these kinds, in order.
pub open spec fn stages_are(previous: Seq<EventEnvelope>, kinds: Seq<PlannerStageKind>) -> bool {
    &&& previous.len() == kinds.len()
    &&& forall|i: int|
        0 <= i < kinds.len() ==> has_kind(
            #[trigger] crate::root_planning_state::stage_in(previous[i]),
            kinds[i],
        )
}

/// Whether a stage is there, and of one kind.
pub open spec fn has_kind(stage: Option<PlannerStageContext>, kind: PlannerStageKind) -> bool {
    stage matches Some(stage) && stage_kind(&stage) == kind
}

/// The events that references lead to.
pub open spec fn dereferenced(events: Seq<&EventEnvelope>) -> Seq<EventEnvelope> {
    Seq::new(events.len(), |i: int| *events[i])
}

/// Whether the prepared stages are of exactly these kinds, in order.
pub fn prepared_kinds_are(previous: &Vec<&EventEnvelope>, kinds: &Vec<PlannerStageKind>) -> (r: bool)
    ensures
        r == stages_are(dereferenced(previous@), kinds@),
{
    if previous.len() != kinds.len() {
        return false;
    }
    let ghost events = dereferenced(previous@);
    let mut i: usize = 0;
    while i < previous.len()
        invariant
            i <= previous@.len(),
            previous@.len() == kinds@.len(),
            events == dereferenced(previous@),
            forall|k: int|
                0 <= k < i ==> has_kind(
                    #[trigger] crate::root_planning_state::stage_in(events[k]),
                    kinds@[k],
                ),
        decreases previous.len() - i,
    {
        assert(events[i as int] == *previous@[i as int]);
        let matching = match prepared_stage(previous[i]) {
            Some(stage) => stage_kind(stage) == kinds[i],
            None => false,
        };
        if !matching {
            assert(!has_kind(
                crate::root_planning_state::stage_in(events[i as int]),
                kinds@[i as int],
            ));
            return false;
        }
        i += 1;
    }
    true
}

/// The stages that come before a stage, in order.
pub fn stages_before(kind: PlannerStageKind) -> (r: Vec<PlannerStageKind>)
    ensures
        r@ == required_prefix(kind),
{
    let mut kinds: Vec<PlannerStageKind> = Vec::new();
    match kind {
        PlannerStageKind::InitialPlan => {},
        PlannerStageKind::InitialReview => {
            kinds.push(PlannerStageKind::InitialPlan);
        },
        PlannerStageKind::Repair => {
            kinds.push(PlannerStageKind::InitialPlan);
            kinds.push(PlannerStageKind::InitialReview);
        },
        PlannerStageKind::FinalReview => {
            kinds.push(PlannerStageKind::InitialPlan);
            kinds.push(PlannerStageKind::InitialReview);
            kinds.push(PlannerStageKind::Repair);
        },
    }
    kinds
}

/// Whether no earlier stage had this actor.
pub open spec fn actor_is_new(previous: Seq<EventEnvelope>, actor_id: ActorId) -> bool {
    forall|i: int|
        0 <= i < previous.len() ==> !has_actor(
            #[trigger] crate::root_planning_state::stage_in(previous[i]),
            actor_id,
        )
}

/// Whether a stage is there, and has this actor.
pub open spec fn has_actor(stage: Option<PlannerStageContext>, actor_id: ActorId) -> bool {
    stage matches Some(stage) && stage_actor(&stage) == actor_id
}

fn is_new_actor(previous: &Vec<&EventEnvelope>, actor_id: ActorId) -> (r: bool)
    ensures
        r == actor_is_new(dereferenced(previous@), actor_id),
{
    let ghost events = dereferenced(previous@);
    let mut i: usize = 0;
    while i < previous.len()
        invariant
            i <= previous@.len(),
            events == dereferenced(previous@),
            forall|k: int|
                0 <= k < i ==> !has_actor(
                    #[trigger] crate::root_planning_state::stage_in(events[k]),
                    actor_id,
                ),
        decreases previous.len() - i,
    {
        assert(events[i as int] == *previous@[i as int]);
        match prepared_stage(previous[i]) {
            Some(stage) => if stage_actor(stage) == actor_id {
                assert(has_actor(
                    crate::root_planning_state::stage_in(events[i as int]),
                    actor_id,
                ));
                return false;
            },
            None => {},
        }
        i += 1;
    }
    true
}

/// Whether no earlier inference served a stage.
pub open spec fn all_unstaged(previous: Seq<EventEnvelope>) -> bool {
    forall|i: int|
        0 <= i < previous.len() ==> #[trigger] crate::root_planning_state::stage_in(
            previous[i],
        ) is None
}

fn is_all_unstaged(previous: &Vec<&EventEnvelope>) -> (r: bool)
    ensures
        r == all_unstaged(dereferenced(previous@)),
{
    let ghost events = dereferenced(previous@);
    let mut i: usize = 0;
    while i < previous.len()
        invariant
            i <= previous@.len(),
            events == dereferenced(previous@),
            forall|k: int|
                0 <= k < i ==> #[trigger] crate::root_planning_state::stage_in(events[k]) is None,
        decreases previous.len() - i,
    {
        assert(events[i as int] == *previous@[i as int]);
        if prepared_stage(previous[i]).is_some() {
            assert(crate::root_planning_state::stage_in(events[i as int]) is Some);
            return false;
        }
        i += 1;
    }
    true
}

/// Whether no text occurs twice.
pub open spec fn texts_distinct(texts: Seq<Text>) -> bool {
    forall|i: int, j: int| 0 <= i < j < texts.len() ==> #[trigger] texts[i]@ != #[trigger] texts[j]@
}

/// Whether no text is empty.
pub open spec fn texts_filled(texts: Seq<Text>) -> bool {
    forall|i: int| 0 <= i < texts.len() ==> (#[trigger] texts[i])@.len() != 0
}

/// Whether no text occurs twice.
pub fn are_texts_distinct(texts: &Vec<Text>) -> (r: bool)
    ensures
        r == texts_distinct(texts@),
{
    let mut j: usize = 0;
    while j < texts.len()
        invariant
            j <= texts@.len(),
            forall|a: int, b: int|
                0 <= a < b < j ==> #[trigger] texts@[a]@ != #[trigger] texts@[b]@,
        decreases texts.len() - j,
    {
        let mut i: usize = 0;
        while i < j
            invariant
                i <= j < texts@.len(),
                forall|a: int| 0 <= a < i ==> #[trigger] texts@[a]@ != texts@[j as int]@,
            decreases j - i,
        {
            if texts[i] == texts[j] {
                assert(texts@[i as int]@ == texts@[j as int]@);
                return false;
            }
            i += 1;
        }
        j += 1;
    }
    true
}

/// Whether no text is empty.
pub fn are_texts_filled(texts: &Vec<Text>) -> (r: bool)
    ensures
        r == texts_filled(texts@),
{
    let mut i: usize = 0;
    while i < texts.len()
        invariant
            i <= texts@.len(),
            forall|k: int| 0 <= k < i ==> (#[trigger] texts@[k])@.len() != 0,
        decreases texts.len() - i,
    {
        if texts[i].is_empty() {
            assert(texts@[i as int]@.len() == 0);
            return false;
        }
        i += 1;
    }
    true
}

/// The most findings that one repair answers.
pub const MAX_FINDINGS: usize = 32;

/// Whether an inference repeats the revision and the digest of its candidate.
pub open spec fn prepared_on_candidate(
    prepared: PlannerInferencePrepared,
    candidate: PlanCandidateBinding,
) -> bool {
    prepared.plan_revision == candidate.plan_revision && prepared.plan_digest@
        == candidate.plan_digest@
}

/// The attempt that an inference continues, with its stage.
pub open spec fn parent_stage_of(
    store: Store,
    event: EventEnvelope,
    run_id: RunId,
    prepared: PlannerInferencePrepared,
) -> Option<PlannerStageContext> {
    match prepared.parent_attempt_id {
        Some(parent) => stage_of_attempt(store, event, run_id, parent),
        None => None,
    }
}

/// Whether a first review fits: it is the first round, on the plan that its parent proposed, by a
/// critic independent of the producer.
pub open spec fn initial_review_fits(
    store: Store,
    event: EventEnvelope,
    run_id: RunId,
    prepared: PlannerInferencePrepared,
    stage: PlannerStageContext,
) -> bool {
    match (
        stage,
        parent_stage_of(store, event, run_id, prepared),
        candidate_acceptance(store, event, run_id, *stage_candidate(&stage)->0),
    ) {
        (
            PlannerStageContext::InitialReview { review_round, candidate, .. },
            Some(parent_stage),
            Some(accepted),
        ) => {
            &&& review_round == 1
            &&& parent_stage is InitialPlan
            &&& prepared.parent_attempt_id == Some(accepted.inference_attempt_id)
            &&& prepared_on_candidate(prepared, candidate)
            &&& independent_of(stage_actor(&stage), *stage_lineage(&stage), parent_stage)
        },
        _ => false,
    }
}

/// The rejected review that an event records.
pub open spec fn rejected_review(
    store: Store,
    event: EventEnvelope,
    run_id: RunId,
    id: crate::identity::EventId,
) -> Option<PlanSemanticReviewRejected> {
    match crate::planning_ground::event_of_run(store, event.session_id, run_id, id) {
        Some(review) => match review.payload {
            EventPayload::PlanSemanticReviewRejected(rejected) => Some(rejected),
            _ => None,
        },
        None => None,
    }
}

/// Whether a repair fits: it is the only one, it answers exactly the findings that the first review
/// asked for, on the reviewed plan, and the producer of that plan makes it.
pub open spec fn repair_fits(
    store: Store,
    event: EventEnvelope,
    run_id: RunId,
    prepared: PlannerInferencePrepared,
    stage: PlannerStageContext,
    previous: Seq<EventEnvelope>,
) -> bool {
    match (stage, parent_stage_of(store, event, run_id, prepared)) {
        (
            PlannerStageContext::Repair {
                repair_ordinal,
                candidate,
                triggering_review_event_id,
                required_finding_ids,
                ..
            },
            Some(parent_stage),
        ) => match (
            rejected_review(store, event, run_id, triggering_review_event_id),
            crate::root_planning_state::stage_in(previous[0]),
        ) {
            (Some(review), Some(initial_stage)) => {
                &&& parent_stage is InitialReview
                &&& candidate_acceptance(store, event, run_id, candidate) is Some
                &&& repair_ordinal == 1
                &&& prepared.parent_attempt_id == Some(review.inference_attempt_id)
                &&& review.disposition
                    == PlanSemanticReviewRejectionDisposition::RepairOnceAuthorized
                &&& review.candidate.same(&candidate)
                &&& review.required_finding_ids.same(&required_finding_ids)
                &&& 1 <= required_finding_ids@.len() <= MAX_FINDINGS
                &&& texts_distinct(required_finding_ids@)
                &&& texts_filled(required_finding_ids@)
                &&& prepared_on_candidate(prepared, candidate)
                &&& initial_stage is InitialPlan
                &&& stage_lineage(&stage).same(stage_lineage(&initial_stage))
            },
            _ => false,
        },
        _ => false,
    }
}

/// Whether a final review fits: it is the second round after the one repair, on the repaired plan,
/// by the critic of the first round, independent of the producer.
pub open spec fn final_review_fits(
    store: Store,
    event: EventEnvelope,
    run_id: RunId,
    prepared: PlannerInferencePrepared,
    stage: PlannerStageContext,
    previous: Seq<EventEnvelope>,
) -> bool {
    match (
        stage,
        parent_stage_of(store, event, run_id, prepared),
        candidate_acceptance(store, event, run_id, *stage_candidate(&stage)->0),
        crate::root_planning_state::stage_in(previous[1]),
    ) {
        (
            PlannerStageContext::FinalReview { review_round, repair_ordinal, candidate, .. },
            Some(parent_stage),
            Some(accepted),
            Some(reviewer_stage),
        ) => {
            &&& review_round == 2
            &&& repair_ordinal == 1
            &&& parent_stage is Repair
            &&& prepared.parent_attempt_id == Some(accepted.inference_attempt_id)
            &&& prepared_on_candidate(prepared, candidate)
            &&& stage_lineage(&stage).same(stage_lineage(&reviewer_stage))
            &&& independent_of(stage_actor(&stage), *stage_lineage(&stage), parent_stage)
        },
        _ => false,
    }
}

/// Whether a stage fits what its kind asks for.
pub open spec fn stage_fits(
    store: Store,
    event: EventEnvelope,
    run_id: RunId,
    prepared: PlannerInferencePrepared,
    stage: PlannerStageContext,
    previous: Seq<EventEnvelope>,
) -> bool {
    match stage_kind(&stage) {
        PlannerStageKind::InitialPlan => prepared.parent_attempt_id is None && prepared.plan_revision
            == 0,
        PlannerStageKind::InitialReview => initial_review_fits(
            store,
            event,
            run_id,
            prepared,
            stage,
        ),
        PlannerStageKind::Repair => repair_fits(store, event, run_id, prepared, stage, previous),
        PlannerStageKind::FinalReview => final_review_fits(
            store,
            event,
            run_id,
            prepared,
            stage,
            previous,
        ),
    }
}

/// Whether the stages before a stage are those that it needs, and it goes on with them: under the
/// same policy, with a new actor, and as the model that the inference names.
pub open spec fn stage_follows(
    prepared: PlannerInferencePrepared,
    stage: PlannerStageContext,
    lineage_is_valid: bool,
    previous: Seq<EventEnvelope>,
) -> bool {
    let lineage = *stage_lineage(&stage);
    &&& stages_are(previous, required_prefix(stage_kind(&stage)))
    &&& lineage_is_valid
    &&& lineage.backend_id@ == prepared.backend_model.backend_id@
    &&& lineage.model_id@ == prepared.backend_model.model_id@
    &&& actor_is_new(previous, stage_actor(&stage))
    &&& previous.len() > 0 ==> (crate::root_planning_state::stage_in(previous[0]) matches Some(
        first,
    ) && stage_policy(&first).same(stage_policy(&stage)))
}

/// Whether an inference may be prepared for its stage. Runs that accept plans mechanically have no
/// stages; all others have nothing else.
pub open spec fn stage_context_stands(
    store: Store,
    event: EventEnvelope,
    run_id: RunId,
    prepared: PlannerInferencePrepared,
    lineage_is_valid: bool,
) -> bool {
    let previous = crate::root_planning_state::preparations(store.log@, event.session_id, run_id);
    match crate::planning_ground::run_of(store, event.session_id, run_id) {
        None => false,
        Some(run) => match (run.spec.plan_acceptance, prepared.stage_context) {
            (PlanAcceptanceContract::LegacyMechanicalOnlyV4, None) => all_unstaged(previous),
            (PlanAcceptanceContract::IndependentSemanticReviewV1, Some(stage)) => {
                &&& stage_follows(prepared, stage, lineage_is_valid, previous)
                &&& stage_fits(store, event, run_id, prepared, stage, previous)
            },
            _ => false,
        },
    }
}

fn check_initial_review(
    store: &Store,
    event: &EventEnvelope,
    run_id: RunId,
    prepared: &PlannerInferencePrepared,
    stage: &PlannerStageContext,
) -> (r: bool)
    requires
        stage is InitialReview,
    ensures
        r == initial_review_fits(*store, *event, run_id, *prepared, *stage),
{
    match stage {
        PlannerStageContext::InitialReview { review_round, candidate, .. } => {
            let parent_attempt_id = match prepared.parent_attempt_id {
                Some(parent_attempt_id) => parent_attempt_id,
                None => return false,
            };
            let parent_stage = match prepared_stage_for_attempt(
                store,
                event,
                run_id,
                parent_attempt_id,
            ) {
                Some(parent_stage) => parent_stage,
                None => return false,
            };
            let accepted = match validate_candidate_binding(store, event, run_id, candidate) {
                Ok(accepted) => accepted,
                Err(_) => return false,
            };
            *review_round == 1 && matches!(parent_stage, PlannerStageContext::InitialPlan { .. })
                && accepted.inference_attempt_id == parent_attempt_id && prepared.plan_revision
                == candidate.plan_revision && prepared.plan_digest == candidate.plan_digest
                && validate_reviewer_independence(
                stage_actor(stage),
                stage_lineage(stage),
                parent_stage,
            ).is_ok()
        },
        _ => false,
    }
}

fn find_rejected_review<'a>(
    store: &'a Store,
    event: &EventEnvelope,
    run_id: RunId,
    id: crate::identity::EventId,
) -> (r: Option<&'a PlanSemanticReviewRejected>)
    ensures
        rejected_review(*store, *event, run_id, id) == (match r {
            Some(review) => Some(*review),
            None => None,
        }),
{
    match store.log.event(event.session_id, run_id, id) {
        Ok(review) => match &review.payload {
            EventPayload::PlanSemanticReviewRejected(rejected) => Some(rejected),
            _ => None,
        },
        Err(_) => None,
    }
}

fn check_repair(
    store: &Store,
    event: &EventEnvelope,
    run_id: RunId,
    prepared: &PlannerInferencePrepared,
    stage: &PlannerStageContext,
    previous: &Vec<&EventEnvelope>,
) -> (r: bool)
    requires
        stage is Repair,
        previous@.len() > 0,
    ensures
        r == repair_fits(
            *store,
            *event,
            run_id,
            *prepared,
            *stage,
            dereferenced(previous@),
        ),
{
    match stage {
        PlannerStageContext::Repair {
            repair_ordinal,
            candidate,
            triggering_review_event_id,
            required_finding_ids,
            ..
        } => {
            let parent_attempt_id = match prepared.parent_attempt_id {
                Some(parent_attempt_id) => parent_attempt_id,
                None => return false,
            };
            let parent_stage = match prepared_stage_for_attempt(
                store,
                event,
                run_id,
                parent_attempt_id,
            ) {
                Some(parent_stage) => parent_stage,
                None => return false,
            };
            let review = match find_rejected_review(
                store,
                event,
                run_id,
                *triggering_review_event_id,
            ) {
                Some(review) => review,
                None => return false,
            };
            let initial_stage = match prepared_stage(previous[0]) {
                Some(initial_stage) => initial_stage,
                None => return false,
            };
            matches!(parent_stage, PlannerStageContext::InitialReview { .. })
                && validate_candidate_binding(store, event, run_id, candidate).is_ok()
                && *repair_ordinal == 1 && review.inference_attempt_id == parent_attempt_id
                && review.disposition
                == PlanSemanticReviewRejectionDisposition::RepairOnceAuthorized && review.candidate
                == *candidate && review.required_finding_ids == *required_finding_ids
                && required_finding_ids.len() >= 1 && required_finding_ids.len() <= MAX_FINDINGS
                && are_texts_distinct(required_finding_ids) && are_texts_filled(
                required_finding_ids,
            ) && prepared.plan_revision == candidate.plan_revision && prepared.plan_digest
                == candidate.plan_digest && matches!(
                initial_stage,
                PlannerStageContext::InitialPlan { .. }
            ) && *stage_lineage(stage) == *stage_lineage(initial_stage)
        },
        _ => false,
    }
}

fn check_final_review(
    store: &Store,
    event: &EventEnvelope,
    run_id: RunId,
    prepared: &PlannerInferencePrepared,
    stage: &PlannerStageContext,
    previous: &Vec<&EventEnvelope>,
) -> (r: bool)
    requires
        stage is FinalReview,
        previous@.len() > 1,
    ensures
        r == final_review_fits(
            *store,
            *event,
            run_id,
            *prepared,
            *stage,
            dereferenced(previous@),
        ),
{
    match stage {
        PlannerStageContext::FinalReview { review_round, repair_ordinal, candidate, .. } => {
            let parent_attempt_id = match prepared.parent_attempt_id {
                Some(parent_attempt_id) => parent_attempt_id,
                None => return false,
            };
            let parent_stage = match prepared_stage_for_attempt(
                store,
                event,
                run_id,
                parent_attempt_id,
            ) {
                Some(parent_stage) => parent_stage,
                None => return false,
            };
            let accepted = match validate_candidate_binding(store, event, run_id, candidate) {
                Ok(accepted) => accepted,
                Err(_) => return false,
            };
            let reviewer_stage = match prepared_stage(previous[1]) {
                Some(reviewer_stage) => reviewer_stage,
                None => return false,
            };
            *review_round == 2 && *repair_ordinal == 1 && matches!(
                parent_stage,
                PlannerStageContext::Repair { .. }
            ) && accepted.inference_attempt_id == parent_attempt_id && prepared.plan_revision
                == candidate.plan_revision && prepared.plan_digest == candidate.plan_digest
                && *stage_lineage(stage) == *stage_lineage(reviewer_stage)
                && validate_reviewer_independence(
                stage_actor(stage),
                stage_lineage(stage),
                parent_stage,
            ).is_ok()
        },
        _ => false,
    }
}

fn check_stage_follows(
    prepared: &PlannerInferencePrepared,
    stage: &PlannerStageContext,
    lineage_is_valid: bool,
    previous: &Vec<&EventEnvelope>,
) -> (r: bool)
    ensures
        r == stage_follows(*prepared, *stage, lineage_is_valid, dereferenced(previous@)),
{
    let lineage = stage_lineage(stage);
    if !prepared_kinds_are(previous, &stages_before(stage_kind(stage))) || !lineage_is_valid
        || lineage.backend_id != prepared.backend_model.backend_id || lineage.model_id
        != prepared.backend_model.model_id || !is_new_actor(previous, stage_actor(stage)) {
        return false;
    }
    if previous.len() > 0 {
        assert(dereferenced(previous@)[0] == *previous@[0]);
        return match prepared_stage(previous[0]) {
            Some(first) => *stage_policy(first) == *stage_policy(stage),
            None => false,
        };
    }
    true
}

/// Refuses an inference that may not be prepared for its stage. `lineage_is_valid` is whether the
/// stage's model lineage is well formed.
pub fn validate_planner_stage_context(
    store: &Store,
    event: &EventEnvelope,
    run_id: RunId,
    prepared: &PlannerInferencePrepared,
    lineage_is_valid: bool,
) -> (r: Result<(), StoreError>)
    ensures
        r == crate::error::demand(
            stage_context_stands(*store, *event, run_id, *prepared, lineage_is_valid),
        ),
{
    let run = match store.run_of_event(event.session_id, run_id) {
        Some(run) => run,
        None => return Err(StoreError::InvalidStateEvent),
    };
    let previous = prepared_events_for_run(&store.log, event.session_id, run_id);
    assert(dereferenced(previous@) =~= crate::root_planning_state::preparations(
        store.log@,
        event.session_id,
        run_id,
    ));
    let stands = match (run.spec.plan_acceptance, &prepared.stage_context) {
        (PlanAcceptanceContract::LegacyMechanicalOnlyV4, None) => is_all_unstaged(&previous),
        (PlanAcceptanceContract::IndependentSemanticReviewV1, Some(stage)) => {
            if !check_stage_follows(prepared, stage, lineage_is_valid, &previous) {
                false
            } else {
                match stage_kind(stage) {
                    PlannerStageKind::InitialPlan => prepared.parent_attempt_id.is_none()
                        && prepared.plan_revision == 0,
                    PlannerStageKind::InitialReview => check_initial_review(
                        store,
                        event,
                        run_id,
                        prepared,
                        stage,
                    ),
                    PlannerStageKind::Repair => check_repair(
                        store,
                        event,
                        run_id,
                        prepared,
                        stage,
                        &previous,
                    ),
                    PlannerStageKind::FinalReview => check_final_review(
                        store,
                        event,
                        run_id,
                        prepared,
                        stage,
                        &previous,
                    ),
                }
            }
        },
        _ => false,
    };
    if stands {
        Ok(())
    } else {
        Err(StoreError::InvalidStateEvent)
    }
}

/// The artifacts that a stage retains, in the order in which they are accounted for.
pub open spec fn retained_by_stage(stage: PlannerStageContext) -> Seq<ArtifactRef> {
    match stage {
        PlannerStageContext::InitialPlan { execution_policy_artifact, .. } => seq![
            execution_policy_artifact,
        ],
        PlannerStageContext::InitialReview {
            execution_policy_artifact,
            critic_policy_artifact,
            candidate,
            ..
        } => seq![execution_policy_artifact, critic_policy_artifact, candidate.plan_artifact],
        PlannerStageContext::FinalReview {
            execution_policy_artifact,
            critic_policy_artifact,
            candidate,
            ..
        } => seq![execution_policy_artifact, critic_policy_artifact, candidate.plan_artifact],
        PlannerStageContext::Repair { execution_policy_artifact, candidate, .. } => seq![
            execution_policy_artifact,
            candidate.plan_artifact,
        ],
    }
}

/// The artifacts that a stage retains, in the order in which they are accounted for and read.
pub fn stage_artifacts(stage: &PlannerStageContext) -> (r: Vec<&ArtifactRef>)
    ensures
        r@.len() == retained_by_stage(*stage).len(),
        forall|i: int| 0 <= i < r@.len() ==> *#[trigger] r@[i] == retained_by_stage(*stage)[i],
{
    let mut artifacts: Vec<&ArtifactRef> = Vec::new();
    artifacts.push(stage_policy(stage));
    match review_critic_policy_artifact(stage) {
        Some(critic_policy) => artifacts.push(critic_policy),
        None => {},
    }
    match stage_candidate(stage) {
        Some(candidate) => artifacts.push(&candidate.plan_artifact),
        None => {},
    }
    artifacts
}

/// The output that all stages together may use.
pub open spec fn total_budget(budgets: RootPlanningStageBudgets) -> int {
    budgets.initial_plan_output_tokens + budgets.initial_review_output_tokens
        + budgets.repair_output_tokens + budgets.final_review_output_tokens
}

/// Whether every stage may use some output, and none more than the contract allows.
pub open spec fn budgets_in_bounds(
    budgets: RootPlanningStageBudgets,
    limits: RootPlanningPolicyLimits,
) -> bool {
    &&& 1 <= budgets.initial_plan_output_tokens <= limits.initial_plan_max_output_tokens
    &&& 1 <= budgets.initial_review_output_tokens <= limits.initial_review_max_output_tokens
    &&& 1 <= budgets.repair_output_tokens <= limits.repair_max_output_tokens
    &&& 1 <= budgets.final_review_output_tokens <= limits.final_review_max_output_tokens
}

/// Whether a critic is another model than a producer, in another deployment and another domain.
pub open spec fn lineages_apart(producer: ModelLineage, critic: ModelLineage) -> bool {
    &&& producer.model_id@ != critic.model_id@
    &&& producer.deployment_id@ != critic.deployment_id@
    &&& producer.independence_domain_id@ != critic.independence_domain_id@
}

/// Whether a policy is one that runs may execute under. `lineages_are_valid` is whether the lineages
/// of its producer and its critic are well formed.
pub open spec fn policy_stands(
    contract: Contract,
    policy: RootPlanningExecutionPolicy,
    prompts: RootPlanningPromptContracts,
    run_max_output_tokens: Option<u64>,
    lineages_are_valid: bool,
) -> bool {
    let limits = contract.planning;
    &&& policy.schema_version == limits.schema_version
    &&& policy.max_model_calls == limits.max_model_calls
    &&& policy.max_repairs == limits.max_repairs
    &&& policy.max_review_rounds == limits.max_review_rounds
    &&& total_budget(policy.stage_budgets) <= u64::MAX
    &&& budgets_in_bounds(policy.stage_budgets, limits)
    &&& run_max_output_tokens matches Some(maximum) ==> total_budget(policy.stage_budgets)
        <= maximum
    &&& policy.prompt_contracts.same(&prompts)
    &&& lineages_are_valid
    &&& lineages_apart(policy.producer, policy.critic)
}

/// The lineage that a policy gives to a kind of stage: producers plan and repair, critics review.
#[verifier::allow_in_spec]
pub fn policy_lineage(policy: &RootPlanningExecutionPolicy, kind: PlannerStageKind) -> &ModelLineage
    returns
        (match kind {
            PlannerStageKind::InitialPlan => &policy.producer,
            PlannerStageKind::InitialReview => &policy.critic,
            PlannerStageKind::Repair => &policy.producer,
            PlannerStageKind::FinalReview => &policy.critic,
        }),
{
    match kind {
        PlannerStageKind::InitialPlan | PlannerStageKind::Repair => &policy.producer,
        PlannerStageKind::InitialReview | PlannerStageKind::FinalReview => &policy.critic,
    }
}

/// The output that a policy gives to a kind of stage.
#[verifier::allow_in_spec]
pub fn policy_budget(budgets: &RootPlanningStageBudgets, kind: PlannerStageKind) -> u64
    returns
        (match kind {
            PlannerStageKind::InitialPlan => budgets.initial_plan_output_tokens,
            PlannerStageKind::InitialReview => budgets.initial_review_output_tokens,
            PlannerStageKind::Repair => budgets.repair_output_tokens,
            PlannerStageKind::FinalReview => budgets.final_review_output_tokens,
        }),
{
    match kind {
        PlannerStageKind::InitialPlan => budgets.initial_plan_output_tokens,
        PlannerStageKind::InitialReview => budgets.initial_review_output_tokens,
        PlannerStageKind::Repair => budgets.repair_output_tokens,
        PlannerStageKind::FinalReview => budgets.final_review_output_tokens,
    }
}

/// The prompt that a kind of stage is bound to.
#[verifier::allow_in_spec]
pub fn policy_prompt(prompts: &RootPlanningPromptContracts, kind: PlannerStageKind) -> &Sha256Digest
    returns
        (match kind {
            PlannerStageKind::InitialPlan => &prompts.initial_plan_manifest_sha256,
            PlannerStageKind::InitialReview => &prompts.critic_manifest_sha256,
            PlannerStageKind::Repair => &prompts.repair_manifest_sha256,
            PlannerStageKind::FinalReview => &prompts.critic_manifest_sha256,
        }),
{
    match kind {
        PlannerStageKind::InitialPlan => &prompts.initial_plan_manifest_sha256,
        PlannerStageKind::InitialReview => &prompts.critic_manifest_sha256,
        PlannerStageKind::Repair => &prompts.repair_manifest_sha256,
        PlannerStageKind::FinalReview => &prompts.critic_manifest_sha256,
    }
}

/// Whether an inference is what its policy gives to its stage: the model, the output and the prompt.
pub open spec fn executes_policy(
    prepared: PlannerInferencePrepared,
    stage: PlannerStageContext,
    policy: RootPlanningExecutionPolicy,
) -> bool {
    let kind = stage_kind(&stage);
    let lineage = *policy_lineage(&policy, kind);
    &&& stage matches PlannerStageContext::InitialPlan { critic_lineage, .. }
        ==> critic_lineage.same(&policy.critic)
    &&& stage_lineage(&stage).same(&lineage)
    &&& prepared.backend_model.kind == BackendKind::Model
    &&& prepared.backend_model.backend_id@ == lineage.backend_id@
    &&& prepared.backend_model.model_id@ == lineage.model_id@
    &&& prepared.token_reservation.max_output_tokens == policy_budget(&policy.stage_budgets, kind)
    &&& prepared.prompt_manifest_digest@ == policy_prompt(&policy.prompt_contracts, kind)@
}

/// What reading a stage's execution policy brings: the policy in its canonical form, the prompts
/// that the stages are bound to, and whether both lineages are well formed.
#[derive(Debug)]
pub struct PolicyReads {
    pub policy: Result<RootPlanningExecutionPolicy, StoreError>,
    pub prompts: Result<RootPlanningPromptContracts, StoreError>,
    pub lineages_are_valid: bool,
}

/// What is found of a stage's execution policy.
pub open spec fn policy_verdict(
    contract: Contract,
    prepared: PlannerInferencePrepared,
    stage: PlannerStageContext,
    run_max_output_tokens: Option<u64>,
    reads: PolicyReads,
) -> Result<(), StoreError> {
    if stage_policy(&stage).media_type@ != contract.media.root_planning_execution_policy@ {
        Err(StoreError::InvalidStateEvent)
    } else {
        match reads.policy {
            Err(error) => Err(error),
            Ok(policy) => match reads.prompts {
                Err(_) => Err(StoreError::InvalidStateEvent),
                Ok(prompts) => crate::error::demand(
                    {
                        &&& policy_stands(
                            contract,
                            policy,
                            prompts,
                            run_max_output_tokens,
                            reads.lineages_are_valid,
                        )
                        &&& executes_policy(prepared, stage, policy)
                    },
                ),
            },
        }
    }
}

fn sum_budgets(budgets: &RootPlanningStageBudgets) -> (r: Option<u64>)
    ensures
        match r {
            Some(total) => total == total_budget(*budgets),
            None => total_budget(*budgets) > u64::MAX,
        },
{
    let planned = budgets.initial_plan_output_tokens.checked_add(
        budgets.initial_review_output_tokens,
    );
    let repaired = match planned {
        Some(planned) => planned.checked_add(budgets.repair_output_tokens),
        None => None,
    };
    match repaired {
        Some(repaired) => repaired.checked_add(budgets.final_review_output_tokens),
        None => None,
    }
}

fn check_budget(tokens: u64, most: u64) -> (r: bool)
    ensures
        r == (1 <= tokens <= most),
{
    1 <= tokens && tokens <= most
}

fn check_policy(
    contract: &Contract,
    policy: &RootPlanningExecutionPolicy,
    prompts: &RootPlanningPromptContracts,
    run_max_output_tokens: Option<u64>,
    lineages_are_valid: bool,
) -> (r: bool)
    ensures
        r == policy_stands(
            *contract,
            *policy,
            *prompts,
            run_max_output_tokens,
            lineages_are_valid,
        ),
{
    let limits = &contract.planning;
    let budgets = &policy.stage_budgets;
    let total = match sum_budgets(budgets) {
        Some(total) => total,
        None => return false,
    };
    let affordable = match run_max_output_tokens {
        Some(maximum) => total <= maximum,
        None => true,
    };
    policy.schema_version == limits.schema_version && policy.max_model_calls
        == limits.max_model_calls && policy.max_repairs == limits.max_repairs
        && policy.max_review_rounds == limits.max_review_rounds && check_budget(
        budgets.initial_plan_output_tokens,
        limits.initial_plan_max_output_tokens,
    ) && check_budget(
        budgets.initial_review_output_tokens,
        limits.initial_review_max_output_tokens,
    ) && check_budget(budgets.repair_output_tokens, limits.repair_max_output_tokens)
        && check_budget(
        budgets.final_review_output_tokens,
        limits.final_review_max_output_tokens,
    ) && affordable && policy.prompt_contracts == *prompts && lineages_are_valid
        && policy.producer.model_id != policy.critic.model_id && policy.producer.deployment_id
        != policy.critic.deployment_id && policy.producer.independence_domain_id
        != policy.critic.independence_domain_id
}

/// Refuses an inference that its execution policy does not give to its stage.
pub fn validate_stage_execution_policy(
    contract: &Contract,
    prepared: &PlannerInferencePrepared,
    stage: &PlannerStageContext,
    run_max_output_tokens: Option<u64>,
    reads: &PolicyReads,
) -> (r: Result<(), StoreError>)
    ensures
        r == policy_verdict(*contract, *prepared, *stage, run_max_output_tokens, *reads),
{
    if stage_policy(stage).media_type != contract.media.root_planning_execution_policy {
        return Err(StoreError::InvalidStateEvent);
    }
    let policy = match &reads.policy {
        Ok(policy) => policy,
        Err(error) => return Err(*error),
    };
    let prompts = match &reads.prompts {
        Ok(prompts) => prompts,
        Err(_) => return Err(StoreError::InvalidStateEvent),
    };
    let kind = stage_kind(stage);
    let lineage = policy_lineage(policy, kind);
    let critic_agrees = match stage {
        PlannerStageContext::InitialPlan { critic_lineage, .. } => *critic_lineage == policy.critic,
        _ => true,
    };
    if !check_policy(
        contract,
        policy,
        prompts,
        run_max_output_tokens,
        reads.lineages_are_valid,
    ) || !critic_agrees || *stage_lineage(stage) != *lineage || prepared.backend_model.kind
        != BackendKind::Model || prepared.backend_model.backend_id != lineage.backend_id
        || prepared.backend_model.model_id != lineage.model_id
        || prepared.token_reservation.max_output_tokens != policy_budget(
        &policy.stage_budgets,
        kind,
    ) || prepared.prompt_manifest_digest != *policy_prompt(&policy.prompt_contracts, kind) {
        return Err(StoreError::InvalidStateEvent);
    }
    Ok(())
}

/// A run prepares at most four inferences, one for each kind of stage in order: whatever stage is
/// accepted next, its predecessors are exactly the earlier kinds.
pub proof fn law_stages_come_in_order(
    store: Store,
    event: EventEnvelope,
    run_id: RunId,
    prepared: PlannerInferencePrepared,
    lineage_is_valid: bool,
)
    requires
        stage_context_stands(store, event, run_id, prepared, lineage_is_valid),
        prepared.stage_context is Some,
    ensures
        ({
            let previous = crate::root_planning_state::preparations(
                store.log@,
                event.session_id,
                run_id,
            );
            let stage = prepared.stage_context->0;
            &&& previous.len() < 4
            &&& stages_are(previous, required_prefix(stage_kind(&stage)))
            &&& forall|i: int|
                0 <= i < previous.len() ==> !has_kind(
                    #[trigger] crate::root_planning_state::stage_in(previous[i]),
                    stage_kind(&stage),
                )
        }),
{
}

/// Every review is independent of the plan that it reviews: an accepted review stage has another
/// actor, another domain and another model than the stage that proposed its candidate.
pub proof fn law_reviews_are_independent(
    store: Store,
    event: EventEnvelope,
    run_id: RunId,
    prepared: PlannerInferencePrepared,
    lineage_is_valid: bool,
)
    requires
        stage_context_stands(store, event, run_id, prepared, lineage_is_valid),
        prepared.stage_context matches Some(stage) && (stage is InitialReview
            || stage is FinalReview),
    ensures
        ({
            let stage = prepared.stage_context->0;
            let acceptance = candidate_acceptance(
                store,
                event,
                run_id,
                *stage_candidate(&stage)->0,
            );
            &&& acceptance is Some
            &&& stage_of_attempt(
                store,
                event,
                run_id,
                (acceptance->0).inference_attempt_id,
            ) matches Some(producer_stage) && independent_of(
                stage_actor(&stage),
                *stage_lineage(&stage),
                producer_stage,
            )
        }),
{
}

/// Under one policy a stage of each kind never exceeds what the run may use: the budgets of all
/// four kinds together stay within the run's limit.
pub proof fn law_policy_stays_within_run(
    contract: Contract,
    policy: RootPlanningExecutionPolicy,
    prompts: RootPlanningPromptContracts,
    maximum: u64,
    lineages_are_valid: bool,
)
    requires
        policy_stands(contract, policy, prompts, Some(maximum), lineages_are_valid),
    ensures
        policy_budget(&policy.stage_budgets, PlannerStageKind::InitialPlan) + policy_budget(
            &policy.stage_budgets,
            PlannerStageKind::InitialReview,
        ) + policy_budget(&policy.stage_budgets, PlannerStageKind::Repair) + policy_budget(
            &policy.stage_budgets,
            PlannerStageKind::FinalReview,
        ) <= maximum,
{
}

/// Each stage comes at its own place. The plan comes first, on nothing. The first review is the first
/// round on the plan that its parent proposed. The one repair answers the review that asked for it.
/// The final review is the second round, on the repaired plan.
pub proof fn law_each_stage_has_its_place(
    store: Store,
    event: EventEnvelope,
    run_id: RunId,
    prepared: PlannerInferencePrepared,
    stage: PlannerStageContext,
    lineage_is_valid: bool,
)
    requires
        stage_context_stands(store, event, run_id, prepared, lineage_is_valid),
        prepared.stage_context == Some(stage),
    ensures
        lineage_is_valid,
        crate::planning_ground::run_of(store, event.session_id, run_id) matches Some(run)
            && run.spec.plan_acceptance == PlanAcceptanceContract::IndependentSemanticReviewV1,
        stage_lineage(&stage).backend_id@ == prepared.backend_model.backend_id@,
        stage_lineage(&stage).model_id@ == prepared.backend_model.model_id@,
        ({
            let previous = crate::root_planning_state::preparations(
                store.log@,
                event.session_id,
                run_id,
            );
            match stage {
                PlannerStageContext::InitialPlan { .. } => {
                    &&& previous.len() == 0
                    &&& prepared.parent_attempt_id is None
                    &&& prepared.plan_revision == 0
                },
                PlannerStageContext::InitialReview { review_round, candidate, .. } => {
                    &&& previous.len() == 1
                    &&& crate::root_planning_state::stage_in(previous[0]) matches Some(first)
                        && first is InitialPlan
                    &&& review_round == 1
                    &&& prepared.parent_attempt_id is Some
                    &&& prepared.plan_revision == candidate.plan_revision
                    &&& prepared.plan_digest@ == candidate.plan_digest@
                },
                PlannerStageContext::Repair {
                    repair_ordinal,
                    candidate,
                    required_finding_ids,
                    ..
                } => {
                    &&& previous.len() == 2
                    &&& crate::root_planning_state::stage_in(previous[0]) matches Some(first)
                        && first is InitialPlan
                    &&& crate::root_planning_state::stage_in(previous[1]) matches Some(second)
                        && second is InitialReview
                    &&& repair_ordinal == 1
                    &&& prepared.parent_attempt_id is Some
                    &&& 0 < required_finding_ids@.len() <= 32
                    &&& prepared.plan_revision == candidate.plan_revision
                    &&& prepared.plan_digest@ == candidate.plan_digest@
                },
                PlannerStageContext::FinalReview { review_round, repair_ordinal, candidate, .. } => {
                    &&& previous.len() == 3
                    &&& crate::root_planning_state::stage_in(previous[0]) matches Some(first)
                        && first is InitialPlan
                    &&& crate::root_planning_state::stage_in(previous[1]) matches Some(second)
                        && second is InitialReview
                    &&& crate::root_planning_state::stage_in(previous[2]) matches Some(third)
                        && third is Repair
                    &&& review_round == 2
                    &&& repair_ordinal == 1
                    &&& prepared.parent_attempt_id is Some
                    &&& prepared.plan_revision == candidate.plan_revision
                    &&& prepared.plan_digest@ == candidate.plan_digest@
                },
            }
        }),
{
    let previous = crate::root_planning_state::preparations(store.log@, event.session_id, run_id);
    if previous.len() > 0 {
        let first = crate::root_planning_state::stage_in(previous[0]);
    }
    if previous.len() > 1 {
        let second = crate::root_planning_state::stage_in(previous[1]);
    }
    if previous.len() > 2 {
        let third = crate::root_planning_state::stage_in(previous[2]);
    }
}

/// Each stage goes on from the right parent. A review continues the attempt whose proposal it reviews,
/// which planned or repaired. A repair continues the first review, which was rejected with exactly one
/// repair authorized, of exactly the findings that the repair answers.
pub proof fn law_each_stage_has_its_parent(
    store: Store,
    event: EventEnvelope,
    run_id: RunId,
    prepared: PlannerInferencePrepared,
    stage: PlannerStageContext,
    lineage_is_valid: bool,
) -> (place: int)
    requires
        stage_context_stands(store, event, run_id, prepared, lineage_is_valid),
        prepared.stage_context == Some(stage),
        !(stage is InitialPlan),
    ensures
        prepared.parent_attempt_id matches Some(parent) && (stage_of_attempt(
            store,
            event,
            run_id,
            parent,
        ) matches Some(parent_stage) && match stage {
            PlannerStageContext::InitialPlan { .. } => false,
            PlannerStageContext::InitialReview { .. } => parent_stage is InitialPlan,
            PlannerStageContext::Repair { .. } => parent_stage is InitialReview,
            PlannerStageContext::FinalReview { .. } => parent_stage is Repair,
        }),
        0 <= place < store.log@.len(),
        store.log@[place].session_id == event.session_id,
        store.log@[place].run_id == Some(run_id),
        match stage {
            PlannerStageContext::InitialPlan { .. } => false,
            PlannerStageContext::InitialReview { candidate, .. } => {
                &&& store.log@[place].id == candidate.proposal_event_id
                &&& store.log@[place].payload matches EventPayload::PlanProposalAccepted(accepted)
                    && {
                    &&& prepared.parent_attempt_id == Some(accepted.inference_attempt_id)
                    &&& accepted.accepted_plan_revision == candidate.plan_revision
                    &&& accepted.accepted_plan_digest@ == candidate.plan_digest@
                    &&& accepted.accepted_plan_artifact.sha256@ == candidate.plan_artifact.sha256@
                }
            },
            PlannerStageContext::Repair {
                candidate,
                triggering_review_event_id,
                required_finding_ids,
                ..
            } => {
                &&& store.log@[place].id == triggering_review_event_id
                &&& store.log@[place].payload matches EventPayload::PlanSemanticReviewRejected(
                    review,
                ) && {
                    &&& prepared.parent_attempt_id == Some(review.inference_attempt_id)
                    &&& review.disposition
                        == PlanSemanticReviewRejectionDisposition::RepairOnceAuthorized
                    &&& review.candidate.proposal_event_id == candidate.proposal_event_id
                    &&& review.candidate.plan_revision == candidate.plan_revision
                    &&& review.candidate.plan_digest@ == candidate.plan_digest@
                    &&& review.required_finding_ids@.len() == required_finding_ids@.len()
                }
            },
            PlannerStageContext::FinalReview { candidate, .. } => {
                &&& store.log@[place].id == candidate.proposal_event_id
                &&& store.log@[place].payload matches EventPayload::PlanProposalAccepted(accepted)
                    && {
                    &&& prepared.parent_attempt_id == Some(accepted.inference_attempt_id)
                    &&& accepted.accepted_plan_revision == candidate.plan_revision
                    &&& accepted.accepted_plan_digest@ == candidate.plan_digest@
                    &&& accepted.accepted_plan_artifact.sha256@ == candidate.plan_artifact.sha256@
                }
            },
        },
{
    let id = match stage {
        PlannerStageContext::Repair { triggering_review_event_id, .. } => triggering_review_event_id,
        _ => (stage_candidate(&stage)->0).proposal_event_id,
    };
    crate::planning_ground::law_events_are_found_by_identity(store, event.session_id, run_id, id)
}

/// Runs that accept plans mechanically have no stages, and runs that have their plans reviewed have
/// nothing else: neither takes an inference of the other kind.
pub proof fn law_stages_follow_the_contract_of_the_run(
    store: Store,
    event: EventEnvelope,
    run_id: RunId,
    prepared: PlannerInferencePrepared,
    lineage_is_valid: bool,
)
    ensures
        stage_context_stands(store, event, run_id, prepared, lineage_is_valid) ==> (
        crate::planning_ground::run_of(store, event.session_id, run_id) matches Some(run) && (
        prepared.stage_context is Some <==> run.spec.plan_acceptance
            == PlanAcceptanceContract::IndependentSemanticReviewV1)),
        crate::planning_ground::run_of(store, event.session_id, run_id) matches Some(run)
            && run.spec.plan_acceptance == PlanAcceptanceContract::LegacyMechanicalOnlyV4
            && prepared.stage_context is None && crate::root_planning_state::preparations(
            store.log@,
            event.session_id,
            run_id,
        ).len() == 0 ==> stage_context_stands(store, event, run_id, prepared, lineage_is_valid),
{
}

/// No actor serves two stages of a run, and all stages share the policy of the first.
pub proof fn law_stages_share_a_policy_and_no_actor(
    store: Store,
    event: EventEnvelope,
    run_id: RunId,
    prepared: PlannerInferencePrepared,
    stage: PlannerStageContext,
    lineage_is_valid: bool,
    i: int,
)
    requires
        stage_context_stands(store, event, run_id, prepared, lineage_is_valid),
        prepared.stage_context == Some(stage),
        0 <= i < crate::root_planning_state::preparations(
            store.log@,
            event.session_id,
            run_id,
        ).len(),
    ensures
        ({
            let previous = crate::root_planning_state::preparations(
                store.log@,
                event.session_id,
                run_id,
            );
            &&& crate::root_planning_state::stage_in(previous[i]) matches Some(earlier)
                && stage_actor(&earlier) != stage_actor(&stage)
            &&& crate::root_planning_state::stage_in(previous[0]) matches Some(first)
                && stage_policy(&first).sha256@ == stage_policy(&stage).sha256@
        }),
{
    let previous = crate::root_planning_state::preparations(store.log@, event.session_id, run_id);
    let earlier = crate::root_planning_state::stage_in(previous[i]);
}

/// Producers stay one model and critics another: a repair is made by the lineage that planned, and the
/// final review by the lineage that reviewed first.
pub proof fn law_roles_keep_their_lineage(
    store: Store,
    event: EventEnvelope,
    run_id: RunId,
    prepared: PlannerInferencePrepared,
    stage: PlannerStageContext,
    lineage_is_valid: bool,
)
    requires
        stage_context_stands(store, event, run_id, prepared, lineage_is_valid),
        prepared.stage_context == Some(stage),
        stage is Repair || stage is FinalReview,
    ensures
        ({
            let previous = crate::root_planning_state::preparations(
                store.log@,
                event.session_id,
                run_id,
            );
            let k: int = if stage is Repair {
                0
            } else {
                1
            };
            crate::root_planning_state::stage_in(previous[k]) matches Some(earlier) && {
                &&& stage_lineage(&earlier).backend_id@ == stage_lineage(&stage).backend_id@
                &&& stage_lineage(&earlier).model_id@ == stage_lineage(&stage).model_id@
                &&& stage_lineage(&earlier).deployment_id@ == stage_lineage(&stage).deployment_id@
                &&& stage_lineage(&earlier).independence_domain_id@ == stage_lineage(
                    &stage,
                ).independence_domain_id@
            }
        }),
{
}

/// A critic of the same actor, the same domain, or the same model on the same backend as the producer
/// is not independent of it; any other is.
pub proof fn law_independence_needs_another_model(
    actor: ActorId,
    reviewer: ModelLineage,
    producer: PlannerStageContext,
)
    ensures
        actor == stage_actor(&producer) ==> !independent_of(actor, reviewer, producer),
        reviewer.independence_domain_id@ == stage_lineage(&producer).independence_domain_id@
            ==> !independent_of(actor, reviewer, producer),
        reviewer.backend_id@ == stage_lineage(&producer).backend_id@ && reviewer.model_id@
            == stage_lineage(&producer).model_id@ ==> !independent_of(actor, reviewer, producer),
        actor != stage_actor(&producer) && reviewer.independence_domain_id@ != stage_lineage(
            &producer,
        ).independence_domain_id@ && reviewer.model_id@ != stage_lineage(&producer).model_id@
            ==> independent_of(actor, reviewer, producer),
        actor != stage_actor(&producer) && reviewer.independence_domain_id@ != stage_lineage(
            &producer,
        ).independence_domain_id@ && reviewer.backend_id@ != stage_lineage(&producer).backend_id@
            ==> independent_of(actor, reviewer, producer),
{
}

/// A policy that stands gives every stage some output and none more than its limit, keeps the run's
/// maximum over all four, and its critic is another model, in another deployment and another domain,
/// than its producer.
pub proof fn law_policies_stand_within_their_limits(
    contract: Contract,
    prepared: PlannerInferencePrepared,
    stage: PlannerStageContext,
    run_max_output_tokens: Option<u64>,
    reads: PolicyReads,
)
    requires
        policy_verdict(contract, prepared, stage, run_max_output_tokens, reads) is Ok,
    ensures
        reads.lineages_are_valid,
        reads.prompts is Ok,
        stage_policy(&stage).media_type@ == contract.media.root_planning_execution_policy@,
        reads.policy matches Ok(policy) && {
            &&& policy.schema_version == contract.planning.schema_version
            &&& policy.max_model_calls == contract.planning.max_model_calls
            &&& policy.max_repairs == contract.planning.max_repairs
            &&& policy.max_review_rounds == contract.planning.max_review_rounds
            &&& 0 < policy.stage_budgets.initial_plan_output_tokens
                <= contract.planning.initial_plan_max_output_tokens
            &&& 0 < policy.stage_budgets.initial_review_output_tokens
                <= contract.planning.initial_review_max_output_tokens
            &&& 0 < policy.stage_budgets.repair_output_tokens
                <= contract.planning.repair_max_output_tokens
            &&& 0 < policy.stage_budgets.final_review_output_tokens
                <= contract.planning.final_review_max_output_tokens
            &&& run_max_output_tokens matches Some(maximum)
                ==> policy.stage_budgets.initial_plan_output_tokens
                + policy.stage_budgets.initial_review_output_tokens
                + policy.stage_budgets.repair_output_tokens
                + policy.stage_budgets.final_review_output_tokens <= maximum
            &&& policy.producer.model_id@ != policy.critic.model_id@
            &&& policy.producer.deployment_id@ != policy.critic.deployment_id@
            &&& policy.producer.independence_domain_id@ != policy.critic.independence_domain_id@
        },
{
}

/// A policy gives each stage its own share: the producer plans and repairs, the critic reviews, each
/// with the output and the prompt of that stage, and both reviews have the critic's prompt.
pub proof fn law_policies_give_each_stage_its_share(
    contract: Contract,
    prepared: PlannerInferencePrepared,
    stage: PlannerStageContext,
    run_max_output_tokens: Option<u64>,
    reads: PolicyReads,
)
    requires
        policy_verdict(contract, prepared, stage, run_max_output_tokens, reads) is Ok,
    ensures
        prepared.backend_model.kind == BackendKind::Model,
        reads.prompts matches Ok(prompts) && (reads.policy matches Ok(policy) && match stage {
            PlannerStageContext::InitialPlan { critic_lineage, model_lineage, .. } => {
                &&& prepared.backend_model.model_id@ == policy.producer.model_id@
                &&& prepared.backend_model.backend_id@ == policy.producer.backend_id@
                &&& model_lineage.deployment_id@ == policy.producer.deployment_id@
                &&& critic_lineage.model_id@ == policy.critic.model_id@
                &&& critic_lineage.deployment_id@ == policy.critic.deployment_id@
                &&& prepared.token_reservation.max_output_tokens
                    == policy.stage_budgets.initial_plan_output_tokens
                &&& prepared.prompt_manifest_digest@ == prompts.initial_plan_manifest_sha256@
            },
            PlannerStageContext::InitialReview { model_lineage, .. } => {
                &&& prepared.backend_model.model_id@ == policy.critic.model_id@
                &&& prepared.backend_model.backend_id@ == policy.critic.backend_id@
                &&& model_lineage.deployment_id@ == policy.critic.deployment_id@
                &&& prepared.token_reservation.max_output_tokens
                    == policy.stage_budgets.initial_review_output_tokens
                &&& prepared.prompt_manifest_digest@ == prompts.critic_manifest_sha256@
            },
            PlannerStageContext::Repair { model_lineage, .. } => {
                &&& prepared.backend_model.model_id@ == policy.producer.model_id@
                &&& prepared.backend_model.backend_id@ == policy.producer.backend_id@
                &&& model_lineage.deployment_id@ == policy.producer.deployment_id@
                &&& prepared.token_reservation.max_output_tokens
                    == policy.stage_budgets.repair_output_tokens
                &&& prepared.prompt_manifest_digest@ == prompts.repair_manifest_sha256@
            },
            PlannerStageContext::FinalReview { model_lineage, .. } => {
                &&& prepared.backend_model.model_id@ == policy.critic.model_id@
                &&& prepared.backend_model.backend_id@ == policy.critic.backend_id@
                &&& model_lineage.deployment_id@ == policy.critic.deployment_id@
                &&& prepared.token_reservation.max_output_tokens
                    == policy.stage_budgets.final_review_output_tokens
                &&& prepared.prompt_manifest_digest@ == prompts.critic_manifest_sha256@
            },
        }),
{
}

} // verus!

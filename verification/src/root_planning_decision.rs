//! Mechanical decisions on proposed plans: what an acceptance or a rejection has to stand on.

use vstd::prelude::*;
use crate::artifact::require_artifact_media_type;
use crate::contract::Contract;
use crate::digest::Sha256Digest;
use crate::error::StoreError;
use crate::event::{EventEnvelope, EventPayload};
use crate::history::{EventLog, EventQuery, PayloadFilter};
use crate::identity::{EventId, InferenceAttemptId, PlanProposalId, RunId};
use crate::inference_identity::BackendNameReading;
use crate::planning::{
    PlanCandidateBinding, PlanProposalAccepted, PlanProposalRejected, PlanProposalRejectionReason,
    PlanSemanticReviewRejected, PlannerInferencePrepared, PlannerStageContext,
};
use crate::planning_ground::planner_run_id;
use crate::retained::{
    AuthoritativeRootBindings, DataSection, PlanCriticOutput, PlanCriticPolicy, PromptError,
    PromptInvocation, RetainedInferenceEvidence, RetainedPlanValidation, RetainedPromptEvidence,
    RootPlannerOutput, RootPlannerPolicy, RootPlannerRejectionClass, SectionPayload, SectionSource,
    TrustLevel,
};
use crate::root_planning_prompt::{
    candidate_plan_section, decode_observed_response, durable_reasoning_setting,
    invocation_with_constraint, is_bound_to_root, is_from_root, plan_decision_count,
    reconstruct_root_bindings, repository_identity_section, root_policy_from_invocation,
    run_input_section, successful_observed_for_decision, validate_retained_prompt_and_request,
    RequestReads,
};
use crate::root_planning_stage::{
    review_critic_policy_artifact, validate_candidate_binding, validate_stage_execution_policy,
    PolicyReads,
};
use crate::root_planning_state::{
    current_plan_base, first_prepared_inference, prepared_inference_for_attempt, prepared_stage,
};
use crate::run::{PlanAcceptanceContract, Run, Session};
use crate::store::Store;
use crate::text::{Same, Text};

verus! {

/// What a decision on a proposal brings that the history alone does not say.
#[derive(Debug)]
pub struct ProposalReads {
    /// Whether the event's actor holds the claim.
    pub claim_owner: Result<(), StoreError>,
    pub policy: PolicyReads,
    pub prompt: Result<RetainedPromptEvidence, StoreError>,
    /// What the prompt's constraint reads as, where that is a policy of integrity.
    pub root_policy: Option<RootPlannerPolicy>,
    pub derived: Result<AuthoritativeRootBindings, StoreError>,
    /// What a repair was asked for: the plan, the critique of it and the policy of the critic.
    pub candidate_output: Result<RootPlannerOutput, StoreError>,
    pub critique: Result<PlanCriticOutput, StoreError>,
    pub critic_policy: Result<PlanCriticPolicy, StoreError>,
    pub request: RequestReads,
    pub evidence: Result<RetainedInferenceEvidence, StoreError>,
    /// What the runtime computes of the backend that the inference names.
    pub backend: BackendNameReading,
    /// What the response reads as under the producer's output contract.
    pub decoded: Result<RootPlannerOutput, PromptError>,
    /// The digest of the response text.
    pub response_sha256: Text,
    /// The retained proposal, where its bytes are text.
    pub proposal: Result<Option<Text>, StoreError>,
    /// The retained plan, where its bytes are text.
    pub accepted_plan: Result<Option<Text>, StoreError>,
    pub validation: Result<RetainedPlanValidation, StoreError>,
}

/// The reason that a broken output contract is rejected for.
#[verifier::allow_in_spec]
pub fn root_planner_rejection_reason(error: &PromptError) -> PlanProposalRejectionReason
    returns
        (match error.class {
            RootPlannerRejectionClass::InvalidSchema => PlanProposalRejectionReason::InvalidSchema,
            RootPlannerRejectionClass::ProtectedAuthorityMutation =>
                PlanProposalRejectionReason::ProtectedAuthorityMutation,
            RootPlannerRejectionClass::ObligationCoverageIncomplete =>
                PlanProposalRejectionReason::ObligationCoverageIncomplete,
            RootPlannerRejectionClass::DependencyCycle =>
                PlanProposalRejectionReason::DependencyCycle,
            RootPlannerRejectionClass::PolicyLimitExceeded =>
                PlanProposalRejectionReason::PolicyLimitExceeded,
        }),
{
    match error.class {
        RootPlannerRejectionClass::InvalidSchema => PlanProposalRejectionReason::InvalidSchema,
        RootPlannerRejectionClass::ProtectedAuthorityMutation =>
            PlanProposalRejectionReason::ProtectedAuthorityMutation,
        RootPlannerRejectionClass::ObligationCoverageIncomplete =>
            PlanProposalRejectionReason::ObligationCoverageIncomplete,
        RootPlannerRejectionClass::DependencyCycle => PlanProposalRejectionReason::DependencyCycle,
        RootPlannerRejectionClass::PolicyLimitExceeded =>
            PlanProposalRejectionReason::PolicyLimitExceeded,
    }
}

/// Whether a section hands over a committed critique.
pub open spec fn is_committed_critique(
    section: DataSection,
    review_event_id: EventId,
    critique_sha256: Seq<char>,
    critique: PlanCriticOutput,
) -> bool {
    &&& section.name@ == "committed_critique"@
    &&& section.trust == TrustLevel::Tool
    &&& section.source == (SectionSource::Critique { event_id: review_event_id })
    &&& section.artifact_sha256 matches Some(sha256) && sha256@ == critique_sha256
    &&& section.event_id == Some(review_event_id)
    &&& section.payload matches SectionPayload::CommittedCritique {
        critique_sha256: named,
        critique: body,
    } && named@ == critique_sha256 && body@ == critique.body@
}

fn committed_critique_section(
    section: &DataSection,
    review_event_id: EventId,
    critique_sha256: &Text,
    critique: &PlanCriticOutput,
) -> (r: bool)
    ensures
        r == is_committed_critique(*section, review_event_id, critique_sha256@, *critique),
{
    let addressed = match &section.artifact_sha256 {
        Some(sha256) => *sha256 == *critique_sha256,
        None => false,
    };
    let says = match &section.payload {
        SectionPayload::CommittedCritique { critique_sha256: named, critique: body } => *named
            == *critique_sha256 && *body == critique.body,
        _ => false,
    };
    section.name.is("committed_critique") && section.trust == TrustLevel::Tool && section.source
        == (SectionSource::Critique { event_id: review_event_id }) && addressed && section.event_id
        == Some(review_event_id) && says
}

/// Whether a section asks for the repair that a review authorized.
pub open spec fn is_repair_assignment(
    section: DataSection,
    review_event_id: EventId,
    candidate_sha256: Seq<char>,
    critique_sha256: Seq<char>,
    policy: PlanCriticPolicy,
    findings: Vec<Text>,
) -> bool {
    &&& section.name@ == "repair_assignment"@
    &&& section.trust == TrustLevel::Tool
    &&& section.source == (SectionSource::RepairAssignment { event_id: review_event_id })
    &&& section.artifact_sha256 is None
    &&& section.event_id == Some(review_event_id)
    &&& section.payload matches SectionPayload::RepairAssignment {
        schema_version,
        triggering_review_event_id,
        candidate_plan_sha256,
        critique_sha256: named,
        critic_policy_sha256,
        required_finding_ids,
    } && schema_version == 1 && triggering_review_event_id == review_event_id
        && candidate_plan_sha256@ == candidate_sha256 && named@ == critique_sha256
        && critic_policy_sha256@ == policy.critic_policy_sha256@ && required_finding_ids.same(
        &findings,
    )
}

fn repair_assignment_section(
    section: &DataSection,
    review_event_id: EventId,
    candidate_sha256: &Sha256Digest,
    critique_sha256: &Text,
    policy: &PlanCriticPolicy,
    findings: &Vec<Text>,
) -> (r: bool)
    ensures
        r == is_repair_assignment(
            *section,
            review_event_id,
            candidate_sha256@,
            critique_sha256@,
            *policy,
            *findings,
        ),
{
    let says = match &section.payload {
        SectionPayload::RepairAssignment {
            schema_version,
            triggering_review_event_id,
            candidate_plan_sha256,
            critique_sha256: named,
            critic_policy_sha256,
            required_finding_ids,
        } => *schema_version == 1 && *triggering_review_event_id == review_event_id
            && candidate_sha256.reads(candidate_plan_sha256) && *named == *critique_sha256
            && *critic_policy_sha256 == policy.critic_policy_sha256 && *required_finding_ids
            == *findings,
        _ => false,
    };
    section.name.is("repair_assignment") && section.trust == TrustLevel::Tool && section.source
        == (SectionSource::RepairAssignment { event_id: review_event_id })
        && section.artifact_sha256.is_none() && section.event_id == Some(review_event_id) && says
}

/// Whether a prompt for a first plan was compiled from the run's input, its repository and the
/// planner policy.
pub open spec fn plan_invocation(
    invocation: PromptInvocation,
    session: Session,
    run: Run,
    policy: RootPlannerPolicy,
) -> bool {
    &&& invocation.sections@.len() == 2
    &&& crate::root_planning_prompt::is_run_input(invocation.sections@[0], session, run)
    &&& crate::root_planning_prompt::is_repository_identity(invocation.sections@[1], session)
    &&& crate::root_planning_prompt::constrained_by(invocation, "planner_policy"@, policy.body@)
}

/// Whether a prompt for a repair was compiled from the run's input, its repository, the candidate
/// plan, the critique of it, the assignment and the planner policy.
pub open spec fn repair_invocation(
    invocation: PromptInvocation,
    session: Session,
    run: Run,
    policy: RootPlannerPolicy,
    candidate: PlanCandidateBinding,
    review_event_id: EventId,
    review: PlanSemanticReviewRejected,
    findings: Vec<Text>,
    output: RootPlannerOutput,
    critique: PlanCriticOutput,
    critic_policy: PlanCriticPolicy,
) -> bool {
    &&& invocation.sections@.len() == 5
    &&& crate::root_planning_prompt::is_run_input(invocation.sections@[0], session, run)
    &&& crate::root_planning_prompt::is_repository_identity(invocation.sections@[1], session)
    &&& crate::root_planning_prompt::is_candidate_plan(
        invocation.sections@[2],
        run,
        output,
        candidate.plan_digest@,
    )
    &&& is_committed_critique(
        invocation.sections@[3],
        review_event_id,
        review.critique_artifact.sha256@,
        critique,
    )
    &&& is_repair_assignment(
        invocation.sections@[4],
        review_event_id,
        candidate.plan_digest@,
        review.critique_artifact.sha256@,
        critic_policy,
        findings,
    )
    &&& crate::root_planning_prompt::constrained_by(invocation, "planner_policy"@, policy.body@)
}

/// The policy that the critic of a rejected review reviewed under.
pub open spec fn reviewing_policy_artifact(
    store: Store,
    event: EventEnvelope,
    run_id: RunId,
    review: PlanSemanticReviewRejected,
) -> Option<crate::artifact::ArtifactRef> {
    match crate::root_planning_stage::stage_of_attempt(
        store,
        event,
        run_id,
        review.inference_attempt_id,
    ) {
        Some(stage) => match review_critic_policy_artifact(&stage) {
            Some(artifact) => Some(*artifact),
            None => None,
        },
        None => None,
    }
}

/// Whether the prompt of a repair was compiled from what the repair was asked for, or why that
/// cannot be told.
pub open spec fn repair_prompt_fits(
    store: Store,
    event: EventEnvelope,
    run_id: RunId,
    session: Session,
    run: Run,
    policy: RootPlannerPolicy,
    candidate: PlanCandidateBinding,
    review_event_id: EventId,
    findings: Vec<Text>,
    invocation: PromptInvocation,
    reads: ProposalReads,
) -> Result<bool, StoreError> {
    let media = store.contract.media;
    if crate::root_planning_stage::candidate_acceptance(store, event, run_id, candidate) is None
        || candidate.plan_artifact.media_type@ != media.accepted_plan@ {
        Err(StoreError::InvalidStateEvent)
    } else {
        match reads.candidate_output {
            Err(error) => Err(error),
            Ok(output) => match crate::root_planning_stage::rejected_review(
                store,
                event,
                run_id,
                review_event_id,
            ) {
                None => Err(StoreError::InvalidStateEvent),
                Some(review) => if review.critique_artifact.media_type@ != media.plan_critique@ {
                    Err(StoreError::InvalidStateEvent)
                } else {
                    match reads.critique {
                        Err(error) => Err(error),
                        Ok(critique) => match reviewing_policy_artifact(
                            store,
                            event,
                            run_id,
                            review,
                        ) {
                            None => Err(StoreError::InvalidStateEvent),
                            Some(artifact) => if artifact.media_type@ != media.plan_critic_policy@ {
                                Err(StoreError::InvalidStateEvent)
                            } else {
                                match reads.critic_policy {
                                    Err(error) => Err(error),
                                    Ok(critic_policy) => if crate::digest::is_canonical_digest(
                                        review.critique_artifact.sha256@,
                                    ) {
                                        Ok(
                                            repair_invocation(
                                                invocation,
                                                session,
                                                run,
                                                policy,
                                                candidate,
                                                review_event_id,
                                                review,
                                                findings,
                                                output,
                                                critique,
                                                critic_policy,
                                            ),
                                        )
                                    } else {
                                        Err(StoreError::InvalidStateEvent)
                                    },
                                }
                            },
                        },
                    }
                },
            },
        }
    }
}

fn find_rejected_review<'a>(
    store: &'a Store,
    event: &EventEnvelope,
    run_id: RunId,
    id: EventId,
) -> (r: Option<&'a PlanSemanticReviewRejected>)
    ensures
        crate::root_planning_stage::rejected_review(*store, *event, run_id, id) == (match r {
            Some(review) => Some(*review),
            None => None,
        }),
{
    match store.log.event(event.session_id, run_id, id) {
        Ok(review) => match &review.payload {
            EventPayload::PlanSemanticReviewRejected(rejected) => Some(rejected),
            _ => None,
        },
        Err(_) => None,
    }
}

fn find_reviewing_policy<'a>(
    store: &'a Store,
    event: &EventEnvelope,
    run_id: RunId,
    review: &PlanSemanticReviewRejected,
) -> (r: Option<&'a crate::artifact::ArtifactRef>)
    ensures
        reviewing_policy_artifact(*store, *event, run_id, *review) == (match r {
            Some(artifact) => Some(*artifact),
            None => None,
        }),
{
    match prepared_inference_for_attempt(
        &store.log,
        event.session_id,
        run_id,
        review.inference_attempt_id,
    ) {
        Ok(prepared) => match prepared_stage(prepared) {
            Some(stage) => review_critic_policy_artifact(stage),
            None => None,
        },
        Err(_) => None,
    }
}

fn check_repair_invocation(
    invocation: &PromptInvocation,
    session: &Session,
    run: &Run,
    policy: &RootPlannerPolicy,
    candidate: &PlanCandidateBinding,
    review_event_id: EventId,
    review: &PlanSemanticReviewRejected,
    findings: &Vec<Text>,
    output: &RootPlannerOutput,
    critique: &PlanCriticOutput,
    critic_policy: &PlanCriticPolicy,
) -> (r: bool)
    ensures
        r == repair_invocation(
            *invocation,
            *session,
            *run,
            *policy,
            *candidate,
            review_event_id,
            *review,
            *findings,
            *output,
            *critique,
            *critic_policy,
        ),
{
    invocation.sections.len() == 5 && run_input_section(&invocation.sections[0], session, run)
        && repository_identity_section(&invocation.sections[1], session) && candidate_plan_section(
        &invocation.sections[2],
        run,
        output,
        &candidate.plan_digest,
    ) && committed_critique_section(
        &invocation.sections[3],
        review_event_id,
        &review.critique_artifact.sha256,
        critique,
    ) && repair_assignment_section(
        &invocation.sections[4],
        review_event_id,
        &candidate.plan_digest,
        &review.critique_artifact.sha256,
        critic_policy,
        findings,
    ) && invocation_with_constraint(invocation, "planner_policy", &policy.body)
}

fn expected_repair_invocation(
    store: &Store,
    event: &EventEnvelope,
    run_id: RunId,
    session: &Session,
    run: &Run,
    policy: &RootPlannerPolicy,
    candidate: &PlanCandidateBinding,
    review_event_id: EventId,
    findings: &Vec<Text>,
    invocation: &PromptInvocation,
    reads: &ProposalReads,
) -> (r: Result<bool, StoreError>)
    ensures
        r == repair_prompt_fits(
            *store,
            *event,
            run_id,
            *session,
            *run,
            *policy,
            *candidate,
            review_event_id,
            *findings,
            *invocation,
            *reads,
        ),
{
    let media = &store.contract.media;
    if validate_candidate_binding(store, event, run_id, candidate).is_err() {
        return Err(StoreError::InvalidStateEvent);
    }
    match require_artifact_media_type(&candidate.plan_artifact, &media.accepted_plan) {
        Ok(()) => {},
        Err(error) => return Err(error),
    }
    let output = match &reads.candidate_output {
        Ok(output) => output,
        Err(error) => return Err(*error),
    };
    let review = match find_rejected_review(store, event, run_id, review_event_id) {
        Some(review) => review,
        None => return Err(StoreError::InvalidStateEvent),
    };
    match require_artifact_media_type(&review.critique_artifact, &media.plan_critique) {
        Ok(()) => {},
        Err(error) => return Err(error),
    }
    let critique = match &reads.critique {
        Ok(critique) => critique,
        Err(error) => return Err(*error),
    };
    let artifact = match find_reviewing_policy(store, event, run_id, review) {
        Some(artifact) => artifact,
        None => return Err(StoreError::InvalidStateEvent),
    };
    match require_artifact_media_type(artifact, &media.plan_critic_policy) {
        Ok(()) => {},
        Err(error) => return Err(error),
    }
    let critic_policy = match &reads.critic_policy {
        Ok(critic_policy) => critic_policy,
        Err(error) => return Err(*error),
    };
    if Sha256Digest::parse(&review.critique_artifact.sha256).is_none() {
        return Err(StoreError::InvalidStateEvent);
    }
    Ok(
        check_repair_invocation(
            invocation,
            session,
            run,
            policy,
            candidate,
            review_event_id,
            review,
            findings,
            output,
            critique,
            critic_policy,
        ),
    )
}

/// Whether the prompt of a producer was compiled from what its stage was asked for, or why that
/// cannot be told.
pub open spec fn producer_prompt_fits(
    store: Store,
    event: EventEnvelope,
    run_id: RunId,
    session: Session,
    run: Run,
    policy: RootPlannerPolicy,
    stage: PlannerStageContext,
    invocation: PromptInvocation,
    reads: ProposalReads,
) -> Result<bool, StoreError> {
    match stage {
        PlannerStageContext::InitialPlan { .. } => Ok(
            plan_invocation(invocation, session, run, policy),
        ),
        PlannerStageContext::Repair {
            candidate,
            triggering_review_event_id,
            required_finding_ids,
            ..
        } => repair_prompt_fits(
            store,
            event,
            run_id,
            session,
            run,
            policy,
            candidate,
            triggering_review_event_id,
            required_finding_ids,
            invocation,
            reads,
        ),
        _ => Err(StoreError::InvalidStateEvent),
    }
}

/// The prompt and the output of a producer's stage.
pub open spec fn producer_contract(contract: Contract, stage: PlannerStageContext) -> (
    Seq<char>,
    Seq<char>,
) {
    if stage is Repair {
        (contract.prompts.plan_repair@, "birdcode_root_plan_repair_v1"@)
    } else {
        (contract.prompts.root_planner@, "birdcode_root_planner_turn_v1"@)
    }
}

/// What is found of the prompt of a producer, once the run and its root are known.
pub open spec fn producer_prompt_verdict(
    store: Store,
    event: EventEnvelope,
    run_id: RunId,
    prepared: PlannerInferencePrepared,
    stage: PlannerStageContext,
    session: Session,
    run: Run,
    policy: RootPlannerPolicy,
    prompt: RetainedPromptEvidence,
    reads: ProposalReads,
) -> Result<(), StoreError> {
    match producer_prompt_fits(
        store,
        event,
        run_id,
        session,
        run,
        policy,
        stage,
        prompt.prompt_invocation,
        reads,
    ) {
        Err(error) => Err(error),
        Ok(fits) => match crate::root_planning_prompt::reasoning_of(run) {
            Err(error) => Err(error),
            Ok(reasoning) => crate::root_planning_prompt::request_verdict(
                store.contract,
                prepared,
                prompt,
                fits,
                producer_contract(store.contract, stage).0,
                producer_contract(store.contract, stage).1,
                reasoning,
                reads.request,
            ),
        },
    }
}

fn check_producer_prompt(
    store: &Store,
    event: &EventEnvelope,
    run_id: RunId,
    prepared: &PlannerInferencePrepared,
    stage: &PlannerStageContext,
    session: &Session,
    run: &Run,
    policy: &RootPlannerPolicy,
    prompt: &RetainedPromptEvidence,
    reads: &ProposalReads,
) -> (r: Result<(), StoreError>)
    ensures
        r == producer_prompt_verdict(
            *store,
            *event,
            run_id,
            *prepared,
            *stage,
            *session,
            *run,
            *policy,
            *prompt,
            *reads,
        ),
{
    let invocation = &prompt.prompt_invocation;
    let (fits, expected_prompt, output_name) = match stage {
        PlannerStageContext::InitialPlan { .. } => (
            invocation.sections.len() == 2 && run_input_section(
                &invocation.sections[0],
                session,
                run,
            ) && repository_identity_section(&invocation.sections[1], session)
                && invocation_with_constraint(invocation, "planner_policy", &policy.body),
            &store.contract.prompts.root_planner,
            "birdcode_root_planner_turn_v1",
        ),
        PlannerStageContext::Repair {
            candidate,
            triggering_review_event_id,
            required_finding_ids,
            ..
        } => match expected_repair_invocation(
            store,
            event,
            run_id,
            session,
            run,
            policy,
            candidate,
            *triggering_review_event_id,
            required_finding_ids,
            invocation,
            reads,
        ) {
            Ok(fits) => (fits, &store.contract.prompts.plan_repair, "birdcode_root_plan_repair_v1"),
            Err(error) => return Err(error),
        },
        _ => return Err(StoreError::InvalidStateEvent),
    };
    let reasoning = match durable_reasoning_setting(run) {
        Ok(reasoning) => reasoning,
        Err(error) => return Err(error),
    };
    validate_retained_prompt_and_request(
        &store.contract,
        prepared,
        prompt,
        fits,
        expected_prompt,
        output_name,
        reasoning,
        &reads.request,
    )
}

/// What a producer answered: the response text, where everything that led to it stands.
pub open spec fn producer_response(
    store: Store,
    event: EventEnvelope,
    run_id: RunId,
    prepared: PlannerInferencePrepared,
    observed_event: EventEnvelope,
    reads: ProposalReads,
) -> Result<Seq<char>, StoreError> {
    match prepared.stage_context {
        None => Err(StoreError::InvalidStateEvent),
        Some(stage) => match crate::planning_ground::session_and_run(
            store,
            event.session_id,
            run_id,
        ) {
            None => Err(StoreError::InvalidStateEvent),
            Some((session, run)) => if !(stage is InitialPlan || stage is Repair) {
                Err(StoreError::InvalidStateEvent)
            } else {
                match crate::root_planning_stage::policy_verdict(
                    store.contract,
                    prepared,
                    stage,
                    run.spec.limits.max_output_tokens,
                    reads.policy,
                ) {
                    Err(error) => Err(error),
                    Ok(()) => if prepared.prompt_artifact.media_type@
                        != store.contract.media.retained_prompt@ {
                        Err(StoreError::InvalidStateEvent)
                    } else {
                        match reads.prompt {
                            Err(error) => Err(error),
                            Ok(prompt) => producer_response_to(
                                store,
                                event,
                                run_id,
                                prepared,
                                observed_event,
                                stage,
                                session,
                                run,
                                prompt,
                                reads,
                            ),
                        }
                    },
                }
            },
        },
    }
}

/// What a producer answered to a retained prompt.
pub open spec fn producer_response_to(
    store: Store,
    event: EventEnvelope,
    run_id: RunId,
    prepared: PlannerInferencePrepared,
    observed_event: EventEnvelope,
    stage: PlannerStageContext,
    session: Session,
    run: Run,
    prompt: RetainedPromptEvidence,
    reads: ProposalReads,
) -> Result<Seq<char>, StoreError> {
    match (
        reads.root_policy,
        crate::root_planning_state::first_preparation(store.log@, event.session_id, run_id),
    ) {
        (Some(root_policy), Some(initial)) => if !crate::root_planning_prompt::names_planner_policy(
            prompt.prompt_invocation,
        ) {
            Err(StoreError::InvalidStateEvent)
        } else {
            match crate::root_planning_prompt::root_bindings(
                store.contract,
                run,
                initial,
                reads.derived,
            ) {
                Err(error) => Err(error),
                Ok(bindings) => if !(root_policy.same(&bindings.policy)
                    && crate::root_planning_prompt::starts_from_root(initial, *bindings)
                    && crate::root_planning_prompt::bound_to_root(prepared, *bindings)) {
                    Err(StoreError::InvalidStateEvent)
                } else {
                    match producer_prompt_verdict(
                        store,
                        event,
                        run_id,
                        prepared,
                        stage,
                        session,
                        run,
                        bindings.policy,
                        prompt,
                        reads,
                    ) {
                        Err(error) => Err(error),
                        Ok(()) => match crate::root_planning_prompt::observed_response(
                            store.contract,
                            prepared,
                            observed_event,
                            reads.evidence,
                            reads.backend,
                        ) {
                            Err(error) => Err(error),
                            Ok(response) => Ok(response.raw_text@),
                        },
                    }
                },
            }
        },
        _ => Err(StoreError::InvalidStateEvent),
    }
}

fn reconstruct_response_to<'a>(
    store: &Store,
    event: &EventEnvelope,
    run_id: RunId,
    prepared: &PlannerInferencePrepared,
    observed_event: &EventEnvelope,
    stage: &PlannerStageContext,
    session: &Session,
    run: &Run,
    prompt: &RetainedPromptEvidence,
    reads: &'a ProposalReads,
) -> (r: Result<&'a Text, StoreError>)
    ensures
        match (
            r,
            producer_response_to(
                *store,
                *event,
                run_id,
                *prepared,
                *observed_event,
                *stage,
                *session,
                *run,
                *prompt,
                *reads,
            ),
        ) {
            (Ok(text), Ok(expected)) => text@ == expected,
            (Err(error), Err(expected)) => error == expected,
            _ => false,
        },
{
    let root_policy = match root_policy_from_invocation(
        &prompt.prompt_invocation,
        &reads.root_policy,
    ) {
        Ok(root_policy) => root_policy,
        Err(error) => return Err(error),
    };
    let initial = match first_prepared_inference(&store.log, event.session_id, run_id) {
        Some(initial) => initial,
        None => return Err(StoreError::InvalidStateEvent),
    };
    let bindings = match reconstruct_root_bindings(
        &store.contract,
        run,
        initial,
        &reads.derived,
    ) {
        Ok(bindings) => bindings,
        Err(error) => return Err(error),
    };
    if *root_policy != bindings.policy || !is_from_root(initial, bindings) || !is_bound_to_root(
        prepared,
        bindings,
    ) {
        return Err(StoreError::InvalidStateEvent);
    }
    match check_producer_prompt(
        store,
        event,
        run_id,
        prepared,
        stage,
        session,
        run,
        &bindings.policy,
        prompt,
        reads,
    ) {
        Ok(()) => {},
        Err(error) => return Err(error),
    }
    match decode_observed_response(
        &store.contract,
        prepared,
        observed_event,
        &reads.evidence,
        &reads.backend,
    ) {
        Ok(response) => Ok(&response.raw_text),
        Err(error) => Err(error),
    }
}

/// What a producer answered. Every prompt, request, policy and response behind it is read again.
pub fn reconstruct_semantic_producer_observation<'a>(
    store: &Store,
    event: &EventEnvelope,
    run_id: RunId,
    prepared: &PlannerInferencePrepared,
    observed_event: &EventEnvelope,
    reads: &'a ProposalReads,
) -> (r: Result<&'a Text, StoreError>)
    ensures
        match (
            r,
            producer_response(*store, *event, run_id, *prepared, *observed_event, *reads),
        ) {
            (Ok(text), Ok(expected)) => text@ == expected,
            (Err(error), Err(expected)) => error == expected,
            _ => false,
        },
{
    let stage = match &prepared.stage_context {
        Some(stage) => stage,
        None => return Err(StoreError::InvalidStateEvent),
    };
    if !matches!(
        stage,
        PlannerStageContext::InitialPlan { .. } | PlannerStageContext::Repair { .. }
    ) {
        return Err(StoreError::InvalidStateEvent);
    }
    let (session, run) = match store.durable_session_and_run(event.session_id, run_id) {
        Ok(pair) => pair,
        Err(error) => return Err(error),
    };
    match validate_stage_execution_policy(
        &store.contract,
        prepared,
        stage,
        run.spec.limits.max_output_tokens,
        &reads.policy,
    ) {
        Ok(()) => {},
        Err(error) => return Err(error),
    }
    match require_artifact_media_type(
        &prepared.prompt_artifact,
        &store.contract.media.retained_prompt,
    ) {
        Ok(()) => {},
        Err(error) => return Err(error),
    }
    let prompt = match &reads.prompt {
        Ok(prompt) => prompt,
        Err(error) => return Err(*error),
    };
    reconstruct_response_to(
        store,
        event,
        run_id,
        prepared,
        observed_event,
        stage,
        session,
        run,
        prompt,
        reads,
    )
}

/// What is found of the artifacts of an accepted plan.
pub open spec fn acceptance_artifacts_verdict(
    store: Store,
    event: EventEnvelope,
    run_id: RunId,
    prepared: PlannerInferencePrepared,
    observed_event: EventEnvelope,
    accepted: PlanProposalAccepted,
    reads: ProposalReads,
) -> Result<(), StoreError> {
    let media = store.contract.media;
    match producer_response(store, event, run_id, prepared, observed_event, reads) {
        Err(error) => Err(error),
        Ok(raw_response) => match reads.decoded {
            Err(_) => Err(StoreError::InvalidStateEvent),
            Ok(output) => if accepted.proposal_artifact.media_type@ != media.plan_proposal@ {
                Err(StoreError::InvalidStateEvent)
            } else {
                match reads.proposal {
                    Err(error) => Err(error),
                    Ok(proposal) => if accepted.accepted_plan_artifact.media_type@
                        != media.accepted_plan@ {
                        Err(StoreError::InvalidStateEvent)
                    } else {
                        match reads.accepted_plan {
                            Err(error) => Err(error),
                            Ok(plan) => if accepted.validation_evidence_artifact.media_type@
                                != media.plan_validation@ {
                                Err(StoreError::InvalidStateEvent)
                            } else {
                                match reads.validation {
                                    Err(error) => Err(error),
                                    Ok(validation) => crate::error::demand(
                                        {
                                            &&& proposal matches Some(proposal) && proposal@
                                                == raw_response
                                            &&& plan matches Some(plan) && plan@ == output.body@
                                            &&& accepted.proposal_artifact.sha256@
                                                == reads.response_sha256@
                                            &&& validation.status@ == "accepted"@
                                            &&& validation.violations@.len() == 0
                                        },
                                    ),
                                }
                            },
                        }
                    },
                }
            },
        },
    }
}

fn validate_semantic_plan_proposal_artifacts(
    store: &Store,
    event: &EventEnvelope,
    run_id: RunId,
    prepared: &PlannerInferencePrepared,
    observed_event: &EventEnvelope,
    accepted: &PlanProposalAccepted,
    reads: &ProposalReads,
) -> (r: Result<(), StoreError>)
    ensures
        r == acceptance_artifacts_verdict(
            *store,
            *event,
            run_id,
            *prepared,
            *observed_event,
            *accepted,
            *reads,
        ),
{
    let media = &store.contract.media;
    let raw_response = match reconstruct_semantic_producer_observation(
        store,
        event,
        run_id,
        prepared,
        observed_event,
        reads,
    ) {
        Ok(raw_response) => raw_response,
        Err(error) => return Err(error),
    };
    let output = match &reads.decoded {
        Ok(output) => output,
        Err(_) => return Err(StoreError::InvalidStateEvent),
    };
    match require_artifact_media_type(&accepted.proposal_artifact, &media.plan_proposal) {
        Ok(()) => {},
        Err(error) => return Err(error),
    }
    let proposal = match &reads.proposal {
        Ok(proposal) => proposal,
        Err(error) => return Err(*error),
    };
    match require_artifact_media_type(&accepted.accepted_plan_artifact, &media.accepted_plan) {
        Ok(()) => {},
        Err(error) => return Err(error),
    }
    let plan = match &reads.accepted_plan {
        Ok(plan) => plan,
        Err(error) => return Err(*error),
    };
    match require_artifact_media_type(
        &accepted.validation_evidence_artifact,
        &media.plan_validation,
    ) {
        Ok(()) => {},
        Err(error) => return Err(error),
    }
    let validation = match &reads.validation {
        Ok(validation) => validation,
        Err(error) => return Err(*error),
    };
    let proposed = match proposal {
        Some(proposal) => *proposal == *raw_response,
        None => false,
    };
    let planned = match plan {
        Some(plan) => *plan == output.body,
        None => false,
    };
    if !proposed || !planned || accepted.proposal_artifact.sha256 != reads.response_sha256
        || !validation.status.is("accepted") || validation.violations.len() != 0 {
        return Err(StoreError::InvalidStateEvent);
    }
    Ok(())
}

/// What is found of the artifacts of a rejected plan.
pub open spec fn rejection_artifacts_verdict(
    store: Store,
    event: EventEnvelope,
    run_id: RunId,
    prepared: PlannerInferencePrepared,
    observed_event: EventEnvelope,
    rejected: PlanProposalRejected,
    reads: ProposalReads,
) -> Result<(), StoreError> {
    let media = store.contract.media;
    match producer_response(store, event, run_id, prepared, observed_event, reads) {
        Err(error) => Err(error),
        Ok(raw_response) => match reads.decoded {
            Ok(_) => Err(StoreError::InvalidStateEvent),
            Err(broken) => if rejected.proposal_artifact.media_type@ != media.plan_proposal@ {
                Err(StoreError::InvalidStateEvent)
            } else {
                match reads.proposal {
                    Err(error) => Err(error),
                    Ok(proposal) => if rejected.validation_evidence_artifact.media_type@
                        != media.plan_validation@ {
                        Err(StoreError::InvalidStateEvent)
                    } else {
                        match reads.validation {
                            Err(error) => Err(error),
                            Ok(validation) => crate::error::demand(
                                {
                                    &&& rejected.reason == root_planner_rejection_reason(&broken)
                                    &&& rejected.proposal_artifact.sha256@
                                        == reads.response_sha256@
                                    &&& proposal matches Some(proposal) && proposal@ == raw_response
                                    &&& validation.status@ == "rejected"@
                                    &&& validation.violations@.len() == 1
                                    &&& validation.violations@[0]@ == broken.message@
                                },
                            ),
                        }
                    },
                }
            },
        },
    }
}

fn validate_semantic_plan_rejection_artifacts(
    store: &Store,
    event: &EventEnvelope,
    run_id: RunId,
    prepared: &PlannerInferencePrepared,
    observed_event: &EventEnvelope,
    rejected: &PlanProposalRejected,
    reads: &ProposalReads,
) -> (r: Result<(), StoreError>)
    ensures
        r == rejection_artifacts_verdict(
            *store,
            *event,
            run_id,
            *prepared,
            *observed_event,
            *rejected,
            *reads,
        ),
{
    let media = &store.contract.media;
    let raw_response = match reconstruct_semantic_producer_observation(
        store,
        event,
        run_id,
        prepared,
        observed_event,
        reads,
    ) {
        Ok(raw_response) => raw_response,
        Err(error) => return Err(error),
    };
    let broken = match &reads.decoded {
        Ok(_) => return Err(StoreError::InvalidStateEvent),
        Err(broken) => broken,
    };
    match require_artifact_media_type(&rejected.proposal_artifact, &media.plan_proposal) {
        Ok(()) => {},
        Err(error) => return Err(error),
    }
    let proposal = match &reads.proposal {
        Ok(proposal) => proposal,
        Err(error) => return Err(*error),
    };
    match require_artifact_media_type(
        &rejected.validation_evidence_artifact,
        &media.plan_validation,
    ) {
        Ok(()) => {},
        Err(error) => return Err(error),
    }
    let validation = match &reads.validation {
        Ok(validation) => validation,
        Err(error) => return Err(*error),
    };
    let proposed = match proposal {
        Some(proposal) => *proposal == *raw_response,
        None => false,
    };
    if rejected.reason != root_planner_rejection_reason(broken)
        || rejected.proposal_artifact.sha256 != reads.response_sha256 || !proposed
        || !validation.status.is("rejected") || validation.violations.len() != 1
        || validation.violations[0] != broken.message {
        return Err(StoreError::InvalidStateEvent);
    }
    Ok(())
}

/// How many decisions have the identity of a proposal, in any run.
pub open spec fn proposals_with(events: Seq<EventEnvelope>, proposal_id: PlanProposalId) -> nat {
    EventQuery::everywhere(PayloadFilter::Proposal(proposal_id)).rows(events).len()
}

fn proposal_id_count(log: &EventLog, proposal_id: PlanProposalId) -> (r: usize)
    ensures
        r == proposals_with(log@, proposal_id),
{
    log.count(&EventQuery::everywhere(PayloadFilter::Proposal(proposal_id)))
}

/// The producer's inference that a decision is about, with the event that observed its success.
pub open spec fn decided_inference(
    store: Store,
    event: EventEnvelope,
    run_id: RunId,
    attempt_id: InferenceAttemptId,
    observed_event_id: EventId,
) -> Option<(PlannerInferencePrepared, EventEnvelope)> {
    match (
        crate::root_planning_prompt::observation_for_decision(
            store,
            event,
            run_id,
            observed_event_id,
            attempt_id,
        ),
        crate::root_planning_state::preparation_of(
            store.log@,
            event.session_id,
            run_id,
            attempt_id,
        ),
    ) {
        (Some(observed_event), Some(prepared_event)) => match crate::root_planning_state::prepared_in(
            prepared_event,
        ) {
            Some(prepared) => if crate::root_planning_inference::is_produced(prepared) {
                Some((prepared, observed_event))
            } else {
                None
            },
            None => None,
        },
        _ => None,
    }
}

fn find_decided_inference<'a>(
    store: &'a Store,
    event: &EventEnvelope,
    run_id: RunId,
    attempt_id: InferenceAttemptId,
    observed_event_id: EventId,
) -> (r: Option<(&'a PlannerInferencePrepared, &'a EventEnvelope)>)
    ensures
        decided_inference(*store, *event, run_id, attempt_id, observed_event_id) == (match r {
            Some((prepared, observed_event)) => Some((*prepared, *observed_event)),
            None => None,
        }),
{
    let observed_event = match successful_observed_for_decision(
        store,
        event,
        run_id,
        observed_event_id,
        attempt_id,
    ) {
        Ok(observed_event) => observed_event,
        Err(_) => return None,
    };
    let prepared_event = match prepared_inference_for_attempt(
        &store.log,
        event.session_id,
        run_id,
        attempt_id,
    ) {
        Ok(prepared_event) => prepared_event,
        Err(_) => return None,
    };
    match &prepared_event.payload {
        EventPayload::PlannerInferencePrepared(prepared) => {
            let produced = match &prepared.stage_context {
                Some(stage) => matches!(
                    stage,
                    PlannerStageContext::InitialPlan { .. } | PlannerStageContext::Repair { .. }
                ),
                None => true,
            };
            if produced {
                Some((prepared, observed_event))
            } else {
                None
            }
        },
        _ => None,
    }
}

/// The plan that a decision meets: the last accepted one, or revision zero with the digest that the
/// inference was prepared on.
pub open spec fn plan_met(
    store: Store,
    event: EventEnvelope,
    run_id: RunId,
    prepared: PlannerInferencePrepared,
) -> (u64, Seq<char>) {
    match crate::root_planning_state::plan_base(store.log@, event.session_id, run_id) {
        Some(base) => base,
        None => (0, prepared.plan_digest@),
    }
}

fn find_plan_met<'a>(
    store: &'a Store,
    event: &EventEnvelope,
    run_id: RunId,
    prepared: &'a PlannerInferencePrepared,
) -> (r: (u64, &'a Sha256Digest))
    ensures
        plan_met(*store, *event, run_id, *prepared) == (r.0, r.1@),
{
    match current_plan_base(&store.log, event.session_id, run_id) {
        Some(base) => base,
        None => (0, &prepared.plan_digest),
    }
}

/// Whether a rejection says truly whether the plan moved on: a stale revision or digest is one, and
/// every other reason meets the plan that it was proposed on.
pub open spec fn reason_matches_plan(rejected: PlanProposalRejected, met: (u64, Seq<char>)) -> bool {
    match rejected.reason {
        PlanProposalRejectionReason::StaleBaseRevision => met.0 != rejected.base_plan_revision,
        PlanProposalRejectionReason::StaleBaseDigest => met.0 == rejected.base_plan_revision
            && met.1 != rejected.base_plan_digest@,
        _ => met.0 == rejected.base_plan_revision && met.1 == rejected.base_plan_digest@,
    }
}

/// Whether a rejection is about a proposal that nothing was decided on, on the plan that it names.
pub open spec fn rejection_stands(
    store: Store,
    event: EventEnvelope,
    run_id: RunId,
    prepared: PlannerInferencePrepared,
    rejected: PlanProposalRejected,
) -> bool {
    &&& rejected.base_plan_revision == prepared.plan_revision
    &&& rejected.base_plan_digest@ == prepared.plan_digest@
    &&& crate::root_planning_prompt::plan_decisions_on(
        store.log@,
        event.session_id,
        run_id,
        rejected.inference_attempt_id,
    ) == 0
    &&& proposals_with(store.log@, rejected.proposal_id) == 0
    &&& reason_matches_plan(rejected, plan_met(store, event, run_id, prepared))
    &&& crate::planning_ground::run_of(store, event.session_id, run_id) is Some
}

/// What is found of a rejected proposal.
pub open spec fn proposal_rejection_verdict(
    store: Store,
    event: EventEnvelope,
    rejected: PlanProposalRejected,
    reads: ProposalReads,
) -> Result<(), StoreError> {
    match event.run_id {
        None => Err(StoreError::InvalidStateEvent),
        Some(run_id) => if !crate::planning_ground::run_is_running(store, run_id) {
            Err(StoreError::InvalidStateEvent)
        } else {
            match decided_inference(
                store,
                event,
                run_id,
                rejected.inference_attempt_id,
                rejected.observed_event_id,
            ) {
                None => Err(StoreError::InvalidStateEvent),
                Some((prepared, observed_event)) => crate::error::and_next(
                    reads.claim_owner,
                    crate::error::and_next(
                        crate::error::demand(
                            rejection_stands(store, event, run_id, prepared, rejected),
                        ),
                        if (crate::planning_ground::run_of(
                            store,
                            event.session_id,
                            run_id,
                        )->0).spec.plan_acceptance
                            == PlanAcceptanceContract::IndependentSemanticReviewV1 {
                            rejection_artifacts_verdict(
                                store,
                                event,
                                run_id,
                                prepared,
                                observed_event,
                                rejected,
                                reads,
                            )
                        } else {
                            Ok(())
                        },
                    ),
                ),
            }
        },
    }
}

fn check_reason_matches_plan(rejected: &PlanProposalRejected, met: (u64, &Sha256Digest)) -> (r: bool)
    ensures
        r == reason_matches_plan(*rejected, (met.0, met.1@)),
{
    match rejected.reason {
        PlanProposalRejectionReason::StaleBaseRevision => met.0 != rejected.base_plan_revision,
        PlanProposalRejectionReason::StaleBaseDigest => met.0 == rejected.base_plan_revision
            && *met.1 != rejected.base_plan_digest,
        _ => met.0 == rejected.base_plan_revision && *met.1 == rejected.base_plan_digest,
    }
}

/// Refuses a rejection of a proposal that may not be recorded.
pub fn validate_plan_proposal_rejected(
    store: &Store,
    event: &EventEnvelope,
    rejected: &PlanProposalRejected,
    reads: &ProposalReads,
) -> (r: Result<(), StoreError>)
    ensures
        r == proposal_rejection_verdict(*store, *event, *rejected, *reads),
{
    let run_id = match planner_run_id(event) {
        Ok(run_id) => run_id,
        Err(error) => return Err(error),
    };
    if !store.is_running(run_id) {
        return Err(StoreError::InvalidStateEvent);
    }
    let (prepared, observed_event) = match find_decided_inference(
        store,
        event,
        run_id,
        rejected.inference_attempt_id,
        rejected.observed_event_id,
    ) {
        Some(found) => found,
        None => return Err(StoreError::InvalidStateEvent),
    };
    match reads.claim_owner {
        Ok(()) => {},
        Err(error) => return Err(error),
    }
    if rejected.base_plan_revision != prepared.plan_revision || rejected.base_plan_digest
        != prepared.plan_digest || plan_decision_count(
        &store.log,
        event.session_id,
        run_id,
        rejected.inference_attempt_id,
    ) != 0 || proposal_id_count(&store.log, rejected.proposal_id) != 0
        || !check_reason_matches_plan(rejected, find_plan_met(store, event, run_id, prepared)) {
        return Err(StoreError::InvalidStateEvent);
    }
    let run = match store.run_of_event(event.session_id, run_id) {
        Some(run) => run,
        None => return Err(StoreError::InvalidStateEvent),
    };
    if run.spec.plan_acceptance == PlanAcceptanceContract::IndependentSemanticReviewV1 {
        return validate_semantic_plan_rejection_artifacts(
            store,
            event,
            run_id,
            prepared,
            observed_event,
            rejected,
            reads,
        );
    }
    Ok(())
}

/// Whether an acceptance takes the plan one revision on from the one that it meets.
pub open spec fn acceptance_stands(
    store: Store,
    event: EventEnvelope,
    run_id: RunId,
    prepared: PlannerInferencePrepared,
    accepted: PlanProposalAccepted,
) -> bool {
    &&& accepted.previous_plan_revision == prepared.plan_revision
    &&& accepted.previous_plan_digest@ == prepared.plan_digest@
    &&& plan_met(store, event, run_id, prepared) == (
        accepted.previous_plan_revision,
        accepted.previous_plan_digest@,
    )
    &&& accepted.accepted_plan_revision == accepted.previous_plan_revision + 1
    &&& accepted.accepted_plan_digest@ == accepted.accepted_plan_artifact.sha256@
    &&& crate::root_planning_prompt::plan_decisions_on(
        store.log@,
        event.session_id,
        run_id,
        accepted.inference_attempt_id,
    ) == 0
    &&& proposals_with(store.log@, accepted.proposal_id) == 0
    &&& crate::planning_ground::run_of(store, event.session_id, run_id) is Some
}

/// What is found of an accepted proposal.
pub open spec fn proposal_acceptance_verdict(
    store: Store,
    event: EventEnvelope,
    accepted: PlanProposalAccepted,
    reads: ProposalReads,
) -> Result<(), StoreError> {
    match event.run_id {
        None => Err(StoreError::InvalidStateEvent),
        Some(run_id) => if !crate::planning_ground::run_is_running(store, run_id) {
            Err(StoreError::InvalidStateEvent)
        } else {
            match decided_inference(
                store,
                event,
                run_id,
                accepted.inference_attempt_id,
                accepted.observed_event_id,
            ) {
                None => Err(StoreError::InvalidStateEvent),
                Some((prepared, observed_event)) => crate::error::and_next(
                    reads.claim_owner,
                    crate::error::and_next(
                        crate::error::demand(
                            acceptance_stands(store, event, run_id, prepared, accepted),
                        ),
                        if (crate::planning_ground::run_of(
                            store,
                            event.session_id,
                            run_id,
                        )->0).spec.plan_acceptance
                            == PlanAcceptanceContract::IndependentSemanticReviewV1 {
                            acceptance_artifacts_verdict(
                                store,
                                event,
                                run_id,
                                prepared,
                                observed_event,
                                accepted,
                                reads,
                            )
                        } else {
                            Ok(())
                        },
                    ),
                ),
            }
        },
    }
}

/// Refuses an acceptance of a proposal that may not be recorded.
pub fn validate_plan_proposal_accepted(
    store: &Store,
    event: &EventEnvelope,
    accepted: &PlanProposalAccepted,
    reads: &ProposalReads,
) -> (r: Result<(), StoreError>)
    ensures
        r == proposal_acceptance_verdict(*store, *event, *accepted, *reads),
{
    let run_id = match planner_run_id(event) {
        Ok(run_id) => run_id,
        Err(error) => return Err(error),
    };
    if !store.is_running(run_id) {
        return Err(StoreError::InvalidStateEvent);
    }
    let (prepared, observed_event) = match find_decided_inference(
        store,
        event,
        run_id,
        accepted.inference_attempt_id,
        accepted.observed_event_id,
    ) {
        Some(found) => found,
        None => return Err(StoreError::InvalidStateEvent),
    };
    match reads.claim_owner {
        Ok(()) => {},
        Err(error) => return Err(error),
    }
    let met = find_plan_met(store, event, run_id, prepared);
    if accepted.previous_plan_revision != prepared.plan_revision || accepted.previous_plan_digest
        != prepared.plan_digest || met.0 != accepted.previous_plan_revision || *met.1
        != accepted.previous_plan_digest || accepted.previous_plan_revision.checked_add(1) != Some(
        accepted.accepted_plan_revision,
    ) || !accepted.accepted_plan_digest.reads(&accepted.accepted_plan_artifact.sha256)
        || plan_decision_count(
        &store.log,
        event.session_id,
        run_id,
        accepted.inference_attempt_id,
    ) != 0 || proposal_id_count(&store.log, accepted.proposal_id) != 0 {
        return Err(StoreError::InvalidStateEvent);
    }
    let run = match store.run_of_event(event.session_id, run_id) {
        Some(run) => run,
        None => return Err(StoreError::InvalidStateEvent),
    };
    if run.spec.plan_acceptance == PlanAcceptanceContract::IndependentSemanticReviewV1 {
        return validate_semantic_plan_proposal_artifacts(
            store,
            event,
            run_id,
            prepared,
            observed_event,
            accepted,
            reads,
        );
    }
    Ok(())
}

/// A plan moves on one revision at a time: an accepted proposal takes the last accepted plan, or the
/// root before any was accepted, to exactly the next revision.
pub proof fn law_plans_move_one_revision(
    store: Store,
    event: EventEnvelope,
    accepted: PlanProposalAccepted,
    reads: ProposalReads,
)
    requires
        proposal_acceptance_verdict(store, event, accepted, reads) is Ok,
    ensures
        match crate::root_planning_state::plan_base(
            store.log@,
            event.session_id,
            event.run_id->0,
        ) {
            Some((revision, digest)) => accepted.accepted_plan_revision == revision + 1
                && accepted.previous_plan_digest@ == digest,
            None => accepted.accepted_plan_revision == 1,
        },
{
}

/// A proposal is decided once: with a decision on its attempt on record, neither an acceptance nor a
/// rejection of it is taken.
pub proof fn law_proposal_is_decided_once(
    store: Store,
    event: EventEnvelope,
    accepted: PlanProposalAccepted,
    rejected: PlanProposalRejected,
    reads: ProposalReads,
)
    requires
        event.run_id matches Some(run_id) && crate::root_planning_prompt::plan_decisions_on(
            store.log@,
            event.session_id,
            run_id,
            accepted.inference_attempt_id,
        ) > 0,
        rejected.inference_attempt_id == accepted.inference_attempt_id,
    ensures
        proposal_acceptance_verdict(store, event, accepted, reads) is Err,
        proposal_rejection_verdict(store, event, rejected, reads) is Err,
{
}

/// A stale proposal is never accepted: whatever reason of staleness a rejection could truly give,
/// the same proposal has no acceptance.
pub proof fn law_stale_proposals_are_not_accepted(
    store: Store,
    event: EventEnvelope,
    run_id: RunId,
    prepared: PlannerInferencePrepared,
    accepted: PlanProposalAccepted,
    rejected: PlanProposalRejected,
)
    requires
        rejection_stands(store, event, run_id, prepared, rejected),
        rejected.reason == PlanProposalRejectionReason::StaleBaseRevision || rejected.reason
            == PlanProposalRejectionReason::StaleBaseDigest,
    ensures
        !acceptance_stands(store, event, run_id, prepared, accepted),
{
}

/// What is accepted was proposed by a producer that succeeded, on the plan that the run has: it takes
/// that plan exactly one revision on, it is the artifact that it names, and neither the attempt nor the
/// proposal was decided on before.
pub proof fn law_accepted_proposals_were_open(
    store: Store,
    event: EventEnvelope,
    run_id: RunId,
    accepted: PlanProposalAccepted,
    reads: ProposalReads,
) -> (places: (int, int))
    requires
        event.run_id == Some(run_id),
        proposal_acceptance_verdict(store, event, accepted, reads) is Ok,
    ensures
        reads.claim_owner is Ok,
        store.state_record(run_id) matches Some(row) && row.state == crate::run::RunState::Running,
        event.causal_parent == Some(accepted.observed_event_id),
        accepted.accepted_plan_revision == accepted.previous_plan_revision + 1,
        accepted.accepted_plan_digest@ == accepted.accepted_plan_artifact.sha256@,
        0 <= places.0 < store.log@.len(),
        crate::root_planning_state::is_of_run(store.log@[places.0], event.session_id, run_id),
        store.log@[places.0].payload matches EventPayload::PlannerInferencePrepared(prepared) && {
            &&& prepared.attempt_id == accepted.inference_attempt_id
            &&& prepared.plan_revision == accepted.previous_plan_revision
            &&& prepared.plan_digest@ == accepted.previous_plan_digest@
            &&& prepared.stage_context matches Some(stage) ==> stage is InitialPlan
                || stage is Repair
        },
        0 <= places.1 < store.log@.len(),
        store.log@[places.1].id == accepted.observed_event_id,
        store.log@[places.1].payload matches EventPayload::PlannerInferenceObserved(observed)
            && observed.outcome is Succeeded && observed.attempt_id
            == accepted.inference_attempt_id,
        forall|j: int|
            0 <= j < store.log@.len() ==> {
                &&& (#[trigger] store.log@[j]).payload matches EventPayload::PlanProposalAccepted(
                    other,
                ) ==> other.proposal_id != accepted.proposal_id
                &&& store.log@[j].payload matches EventPayload::PlanProposalRejected(other)
                    ==> other.proposal_id != accepted.proposal_id
            },
        forall|j: int|
            0 <= j < store.log@.len() && crate::root_planning_state::is_of_run(
                #[trigger] store.log@[j],
                event.session_id,
                run_id,
            ) ==> {
                &&& store.log@[j].payload matches EventPayload::PlanProposalAccepted(other)
                    ==> other.inference_attempt_id != accepted.inference_attempt_id
                &&& store.log@[j].payload matches EventPayload::PlanProposalRejected(other)
                    ==> other.inference_attempt_id != accepted.inference_attempt_id
            },
{
    let attempt_id = accepted.inference_attempt_id;
    crate::root_planning_prompt::law_decisions_are_counted(
        store.log@,
        event.session_id,
        run_id,
        attempt_id,
    );
    lemma_new_proposals(store.log@, accepted.proposal_id);
    let places = crate::root_planning_prompt::law_decisions_stand_on_a_success(
        store,
        event,
        run_id,
        accepted.observed_event_id,
        attempt_id,
    );
    (lemma_decided_preparation(store.log@, event.session_id, run_id, attempt_id), places.1)
}

proof fn lemma_new_proposals(events: Seq<EventEnvelope>, proposal_id: PlanProposalId)
    requires
        proposals_with(events, proposal_id) == 0,
    ensures
        forall|j: int|
            0 <= j < events.len() ==> {
                &&& (#[trigger] events[j]).payload matches EventPayload::PlanProposalAccepted(other)
                    ==> other.proposal_id != proposal_id
                &&& events[j].payload matches EventPayload::PlanProposalRejected(other)
                    ==> other.proposal_id != proposal_id
            },
{
    let query = EventQuery::everywhere(PayloadFilter::Proposal(proposal_id));
    let ends = crate::history::law_selections_have_ends(query, events);
    assert forall|j: int| 0 <= j < events.len() implies {
        &&& (#[trigger] events[j]).payload matches EventPayload::PlanProposalAccepted(other)
            ==> other.proposal_id != proposal_id
        &&& events[j].payload matches EventPayload::PlanProposalRejected(other)
            ==> other.proposal_id != proposal_id
    } by {
        assert(!query.admits(events[j]));
    }
}

proof fn lemma_decided_preparation(
    events: Seq<EventEnvelope>,
    session_id: crate::identity::SessionId,
    run_id: RunId,
    attempt_id: InferenceAttemptId,
) -> (place: int)
    requires
        crate::root_planning_state::preparation_of(events, session_id, run_id, attempt_id) is Some,
    ensures
        0 <= place < events.len(),
        crate::root_planning_state::preparation_of(events, session_id, run_id, attempt_id) == Some(
            events[place],
        ),
        crate::root_planning_state::is_of_run(events[place], session_id, run_id),
        crate::root_planning_state::prepares_attempt(events[place], attempt_id),
{
    let query = EventQuery::in_run(
        session_id,
        run_id,
        PayloadFilter::PreparedForAttempt(attempt_id),
    );
    let ends = crate::history::law_selections_have_ends(query, events);
    ends.0
}

/// What is rejected was proposed by a producer that succeeded, and is rejected for a true reason: a
/// stale revision or a stale digest is given where the plan of the run has moved on in just that, and
/// any other reason where the plan is still the one that was proposed on.
pub proof fn law_rejected_proposals_were_open(
    store: Store,
    event: EventEnvelope,
    run_id: RunId,
    rejected: PlanProposalRejected,
    reads: ProposalReads,
) -> (places: (int, int))
    requires
        event.run_id == Some(run_id),
        proposal_rejection_verdict(store, event, rejected, reads) is Ok,
    ensures
        reads.claim_owner is Ok,
        store.state_record(run_id) matches Some(row) && row.state == crate::run::RunState::Running,
        event.causal_parent == Some(rejected.observed_event_id),
        0 <= places.0 < store.log@.len(),
        crate::root_planning_state::is_of_run(store.log@[places.0], event.session_id, run_id),
        store.log@[places.0].payload matches EventPayload::PlannerInferencePrepared(prepared) && {
            &&& prepared.attempt_id == rejected.inference_attempt_id
            &&& prepared.plan_revision == rejected.base_plan_revision
            &&& prepared.plan_digest@ == rejected.base_plan_digest@
            &&& prepared.stage_context matches Some(stage) ==> stage is InitialPlan
                || stage is Repair
        },
        0 <= places.1 < store.log@.len(),
        store.log@[places.1].id == rejected.observed_event_id,
        store.log@[places.1].payload matches EventPayload::PlannerInferenceObserved(observed)
            && observed.outcome is Succeeded && observed.attempt_id
            == rejected.inference_attempt_id,
        crate::root_planning_state::plan_base(
            store.log@,
            event.session_id,
            run_id,
        ) matches Some((revision, digest)) ==> {
            &&& revision != rejected.base_plan_revision <==> rejected.reason
                == PlanProposalRejectionReason::StaleBaseRevision
            &&& revision == rejected.base_plan_revision && digest != rejected.base_plan_digest@
                <==> rejected.reason == PlanProposalRejectionReason::StaleBaseDigest
        },
        crate::root_planning_state::plan_base(store.log@, event.session_id, run_id) is None
            && rejected.base_plan_revision == 0 ==> rejected.reason
            != PlanProposalRejectionReason::StaleBaseRevision && rejected.reason
            != PlanProposalRejectionReason::StaleBaseDigest,
        forall|j: int|
            0 <= j < store.log@.len() ==> {
                &&& (#[trigger] store.log@[j]).payload matches EventPayload::PlanProposalAccepted(
                    other,
                ) ==> other.proposal_id != rejected.proposal_id
                &&& store.log@[j].payload matches EventPayload::PlanProposalRejected(other)
                    ==> other.proposal_id != rejected.proposal_id
            },
        forall|j: int|
            0 <= j < store.log@.len() && crate::root_planning_state::is_of_run(
                #[trigger] store.log@[j],
                event.session_id,
                run_id,
            ) ==> {
                &&& store.log@[j].payload matches EventPayload::PlanProposalAccepted(other)
                    ==> other.inference_attempt_id != rejected.inference_attempt_id
                &&& store.log@[j].payload matches EventPayload::PlanProposalRejected(other)
                    ==> other.inference_attempt_id != rejected.inference_attempt_id
            },
{
    let attempt_id = rejected.inference_attempt_id;
    crate::root_planning_prompt::law_decisions_are_counted(
        store.log@,
        event.session_id,
        run_id,
        attempt_id,
    );
    lemma_new_proposals(store.log@, rejected.proposal_id);
    let places = crate::root_planning_prompt::law_decisions_stand_on_a_success(
        store,
        event,
        run_id,
        rejected.observed_event_id,
        attempt_id,
    );
    (lemma_decided_preparation(store.log@, event.session_id, run_id, attempt_id), places.1)
}

/// Under independent review only an answer that keeps the contract is accepted and only one that
/// breaks it is rejected, for the reason that the break stands for; what is kept as the proposal is the
/// answer itself, and what is kept as the plan is what it reads as.
pub proof fn law_decisions_keep_what_was_answered(
    store: Store,
    event: EventEnvelope,
    run_id: RunId,
    accepted: PlanProposalAccepted,
    rejected: PlanProposalRejected,
    reads: ProposalReads,
)
    requires
        event.run_id == Some(run_id),
        crate::planning_ground::run_of(store, event.session_id, run_id) matches Some(run)
            && run.spec.plan_acceptance == PlanAcceptanceContract::IndependentSemanticReviewV1,
    ensures
        proposal_acceptance_verdict(store, event, accepted, reads) is Ok ==> {
            &&& reads.decoded matches Ok(output) && (reads.accepted_plan matches Ok(Some(plan))
                && plan@ == output.body@)
            &&& reads.proposal matches Ok(Some(_))
            &&& accepted.proposal_artifact.sha256@ == reads.response_sha256@
            &&& reads.validation matches Ok(validation) && validation.status@ == "accepted"@
                && validation.violations@.len() == 0
        },
        proposal_rejection_verdict(store, event, rejected, reads) is Ok ==> {
            &&& reads.decoded matches Err(broken) && {
                &&& rejected.reason == PlanProposalRejectionReason::InvalidSchema <==> broken.class
                    == RootPlannerRejectionClass::InvalidSchema
                &&& rejected.reason == PlanProposalRejectionReason::ProtectedAuthorityMutation
                    <==> broken.class == RootPlannerRejectionClass::ProtectedAuthorityMutation
                &&& rejected.reason == PlanProposalRejectionReason::ObligationCoverageIncomplete
                    <==> broken.class == RootPlannerRejectionClass::ObligationCoverageIncomplete
                &&& rejected.reason == PlanProposalRejectionReason::DependencyCycle
                    <==> broken.class == RootPlannerRejectionClass::DependencyCycle
                &&& rejected.reason == PlanProposalRejectionReason::PolicyLimitExceeded
                    <==> broken.class == RootPlannerRejectionClass::PolicyLimitExceeded
                &&& reads.validation matches Ok(validation) && validation.violations@.len() == 1
                    && validation.violations@[0]@ == broken.message@ && validation.status@
                    == "rejected"@
            }
            &&& reads.proposal matches Ok(Some(_))
            &&& rejected.proposal_artifact.sha256@ == reads.response_sha256@
        },
        proposal_acceptance_verdict(store, event, accepted, reads) is Err
            || proposal_rejection_verdict(store, event, rejected, reads) is Err,
{
}

} // verus!

//! Independent reviews of proposed plans: what a decision on one has to stand on.

use vstd::prelude::*;
use crate::artifact::{digest_matches_artifact, require_artifact_media_type, ArtifactRef};
use crate::contract::Contract;
use crate::digest::Sha256Digest;
use crate::error::StoreError;
use crate::event::{EventEnvelope, EventPayload};
use crate::history::{EventLog, EventQuery, PayloadFilter};
use crate::identity::{EventId, InferenceAttemptId, PlanSemanticReviewId, RunId, SessionId};
use crate::inference_identity::BackendNameReading;
use crate::planning::{
    PlanCandidateBinding, PlanSemanticReviewAccepted, PlanSemanticReviewRejected,
    PlanSemanticReviewRejectionDisposition, PlannerInferenceObserved, PlannerInferencePrepared,
    PlannerStageContext,
};
use crate::planning_ground::planner_run_id;
use crate::retained::{
    PlanCriticOutput, PlanCriticPolicy, PlanCriticVerdict, PlanSemanticReviewValidatedVerdict,
    PlanSemanticReviewValidationReceipt, PromptInvocation, RetainedInferenceEvidence,
    RetainedPromptEvidence, RootPlannerOutput,
};
use crate::root_planning_prompt::{
    candidate_plan_section, decode_observed_response, durable_reasoning_setting,
    invocation_with_constraint, repository_identity_section, run_input_section,
    successful_observed_for_decision, validate_critic_policy_artifact,
    validate_retained_prompt_and_request, CriticPolicyReads, RequestReads,
};
use crate::root_planning_stage::{
    are_texts_distinct, review_critic_policy_artifact, stage_candidate,
    validate_candidate_binding, validate_stage_execution_policy, PolicyReads, MAX_FINDINGS,
};
use crate::root_planning_state::{current_plan_base, prepared_inference_for_attempt};
use crate::run::{Run, Session};
use crate::store::Store;
use crate::text::{Same, Text};

verus! {

/// What a decision on a review brings that the history alone does not say.
#[derive(Debug)]
pub struct ReviewReads {
    /// Whether the event's actor holds the claim.
    pub claim_owner: Result<(), StoreError>,
    pub policy: PolicyReads,
    pub critic: CriticPolicyReads,
    pub receipt: Result<PlanSemanticReviewValidationReceipt, StoreError>,
    pub receipt_is_canonical: bool,
    pub critic_policy: Result<PlanCriticPolicy, StoreError>,
    pub critic_policy_is_canonical: bool,
    /// The retained critique, where its bytes are text.
    pub critique: Result<Option<Text>, StoreError>,
    pub evidence: Result<RetainedInferenceEvidence, StoreError>,
    /// What the runtime computes of the backend that the inference names.
    pub backend: BackendNameReading,
    pub prompt: Result<RetainedPromptEvidence, StoreError>,
    pub candidate_output: Result<RootPlannerOutput, StoreError>,
    pub request: RequestReads,
    /// What the response reads as under the critic's output contract, where it keeps it.
    pub decoded: Option<PlanCriticOutput>,
}

/// How many decisions there are on the review of an attempt.
pub open spec fn review_decisions_on(
    events: Seq<EventEnvelope>,
    session_id: SessionId,
    run_id: RunId,
    attempt_id: InferenceAttemptId,
) -> nat {
    EventQuery::in_run(session_id, run_id, PayloadFilter::ReviewDecision(attempt_id)).rows(
        events,
    ).len()
}

/// How many decisions there are on the review of an attempt.
pub fn semantic_review_decision_count(
    log: &EventLog,
    session_id: SessionId,
    run_id: RunId,
    attempt_id: InferenceAttemptId,
) -> (r: usize)
    ensures
        r == review_decisions_on(log@, session_id, run_id, attempt_id),
{
    log.count(&EventQuery::in_run(session_id, run_id, PayloadFilter::ReviewDecision(attempt_id)))
}

/// How many decisions have the identity of a review, in any run.
pub open spec fn reviews_with(events: Seq<EventEnvelope>, review_id: PlanSemanticReviewId) -> nat {
    EventQuery::everywhere(PayloadFilter::Review(review_id)).rows(events).len()
}

/// How many decisions have the identity of a review, in any run.
pub fn semantic_review_id_count(log: &EventLog, review_id: PlanSemanticReviewId) -> (r: usize)
    ensures
        r == reviews_with(log@, review_id),
{
    log.count(&EventQuery::everywhere(PayloadFilter::Review(review_id)))
}

/// Whether a prompt for a critic was compiled from the run's input, its repository, the candidate
/// plan and the critic policy.
pub open spec fn critic_invocation(
    invocation: PromptInvocation,
    session: Session,
    run: Run,
    output: RootPlannerOutput,
    digest: Seq<char>,
    policy: PlanCriticPolicy,
) -> bool {
    &&& invocation.sections@.len() == 3
    &&& crate::root_planning_prompt::is_run_input(invocation.sections@[0], session, run)
    &&& crate::root_planning_prompt::is_repository_identity(invocation.sections@[1], session)
    &&& crate::root_planning_prompt::is_candidate_plan(
        invocation.sections@[2],
        run,
        output,
        digest,
    )
    &&& crate::root_planning_prompt::constrained_by(invocation, "critic_policy"@, policy.body@)
}

fn check_critic_invocation(
    invocation: &PromptInvocation,
    session: &Session,
    run: &Run,
    output: &RootPlannerOutput,
    digest: &Sha256Digest,
    policy: &PlanCriticPolicy,
) -> (r: bool)
    ensures
        r == critic_invocation(*invocation, *session, *run, *output, digest@, *policy),
{
    invocation.sections.len() == 3 && run_input_section(&invocation.sections[0], session, run)
        && repository_identity_section(&invocation.sections[1], session) && candidate_plan_section(
        &invocation.sections[2],
        run,
        output,
        digest,
    ) && invocation_with_constraint(invocation, "critic_policy", &policy.body)
}

/// What a critic answered: the response text, and whether everything that led to it stands.
pub open spec fn critic_response(
    contract: Contract,
    prepared: PlannerInferencePrepared,
    observed_event: EventEnvelope,
    candidate: PlanCandidateBinding,
    session: Session,
    run: Run,
    policy: PlanCriticPolicy,
    reads: ReviewReads,
) -> Result<Seq<char>, StoreError> {
    match crate::root_planning_prompt::observed_response(
        contract,
        prepared,
        observed_event,
        reads.evidence,
        reads.backend,
    ) {
        Err(error) => Err(error),
        Ok(response) => if prepared.prompt_artifact.media_type@ != contract.media.retained_prompt@ {
            Err(StoreError::InvalidStateEvent)
        } else {
            match reads.prompt {
                Err(error) => Err(error),
                Ok(prompt) => if candidate.plan_artifact.media_type@
                    != contract.media.accepted_plan@ {
                    Err(StoreError::InvalidStateEvent)
                } else {
                    match reads.candidate_output {
                        Err(error) => Err(error),
                        Ok(output) => match crate::root_planning_prompt::reasoning_of(run) {
                            Err(error) => Err(error),
                            Ok(reasoning) => match crate::root_planning_prompt::request_verdict(
                                contract,
                                prepared,
                                prompt,
                                critic_invocation(
                                    prompt.prompt_invocation,
                                    session,
                                    run,
                                    output,
                                    candidate.plan_digest@,
                                    policy,
                                ),
                                contract.prompts.plan_critic@,
                                "birdcode_plan_semantic_critic_v1"@,
                                reasoning,
                                reads.request,
                            ) {
                                Err(error) => Err(error),
                                Ok(()) => Ok(response.raw_text@),
                            },
                        },
                    }
                },
            }
        },
    }
}

fn decode_observed_critic_output<'a>(
    contract: &Contract,
    prepared: &PlannerInferencePrepared,
    observed_event: &EventEnvelope,
    candidate: &PlanCandidateBinding,
    session: &Session,
    run: &Run,
    policy: &PlanCriticPolicy,
    reads: &'a ReviewReads,
) -> (r: Result<&'a Text, StoreError>)
    ensures
        match (
            r,
            critic_response(
                *contract,
                *prepared,
                *observed_event,
                *candidate,
                *session,
                *run,
                *policy,
                *reads,
            ),
        ) {
            (Ok(text), Ok(expected)) => text@ == expected,
            (Err(error), Err(expected)) => error == expected,
            _ => false,
        },
{
    let response = match decode_observed_response(
        contract,
        prepared,
        observed_event,
        &reads.evidence,
        &reads.backend,
    ) {
        Ok(response) => response,
        Err(error) => return Err(error),
    };
    match require_artifact_media_type(&prepared.prompt_artifact, &contract.media.retained_prompt) {
        Ok(()) => {},
        Err(error) => return Err(error),
    }
    let prompt = match &reads.prompt {
        Ok(prompt) => prompt,
        Err(error) => return Err(*error),
    };
    match require_artifact_media_type(&candidate.plan_artifact, &contract.media.accepted_plan) {
        Ok(()) => {},
        Err(error) => return Err(error),
    }
    let output = match &reads.candidate_output {
        Ok(output) => output,
        Err(error) => return Err(*error),
    };
    let reasoning = match durable_reasoning_setting(run) {
        Ok(reasoning) => reasoning,
        Err(error) => return Err(error),
    };
    let invocation_fits = check_critic_invocation(
        &prompt.prompt_invocation,
        session,
        run,
        output,
        &candidate.plan_digest,
        policy,
    );
    match validate_retained_prompt_and_request(
        contract,
        prepared,
        prompt,
        invocation_fits,
        &contract.prompts.plan_critic,
        "birdcode_plan_semantic_critic_v1",
        reasoning,
        &reads.request,
    ) {
        Ok(()) => Ok(&response.raw_text),
        Err(error) => Err(error),
    }
}

/// Whether a receipt is about this review: its inference, its candidate and every artifact.
pub open spec fn receipt_is_own(
    receipt: PlanSemanticReviewValidationReceipt,
    prepared: PlannerInferencePrepared,
    observed_event: EventEnvelope,
    observed: PlannerInferenceObserved,
    candidate: PlanCandidateBinding,
    policy: PlanCriticPolicy,
    critique_artifact: ArtifactRef,
) -> bool {
    &&& receipt.schema_version == 1
    &&& receipt.inference_attempt_id == prepared.attempt_id
    &&& receipt.observed_event_id == observed_event.id
    &&& receipt.candidate.same(&candidate)
    &&& receipt.prompt_manifest_sha256@ == prepared.prompt_manifest_digest@
    &&& receipt.prompt_artifact_sha256@ == prepared.prompt_artifact.sha256@
    &&& receipt.request_artifact_sha256@ == prepared.request_artifact.sha256@
    &&& receipt.normalized_evidence_sha256@
        == observed.normalized_complete_evidence_artifact.sha256@
    &&& receipt.critic_policy_sha256@ == policy.critic_policy_sha256@
    &&& receipt.critique_sha256@ == critique_artifact.sha256@
}

fn is_receipt_own(
    receipt: &PlanSemanticReviewValidationReceipt,
    prepared: &PlannerInferencePrepared,
    observed_event: &EventEnvelope,
    observed: &PlannerInferenceObserved,
    candidate: &PlanCandidateBinding,
    policy: &PlanCriticPolicy,
    critique_artifact: &ArtifactRef,
) -> (r: bool)
    ensures
        r == receipt_is_own(
            *receipt,
            *prepared,
            *observed_event,
            *observed,
            *candidate,
            *policy,
            *critique_artifact,
        ),
{
    receipt.schema_version == 1 && receipt.inference_attempt_id == prepared.attempt_id
        && receipt.observed_event_id == observed_event.id && receipt.candidate == *candidate
        && receipt.prompt_manifest_sha256 == prepared.prompt_manifest_digest
        && digest_matches_artifact(&receipt.prompt_artifact_sha256, &prepared.prompt_artifact)
        && digest_matches_artifact(&receipt.request_artifact_sha256, &prepared.request_artifact)
        && digest_matches_artifact(
        &receipt.normalized_evidence_sha256,
        &observed.normalized_complete_evidence_artifact,
    ) && receipt.critic_policy_sha256.reads(&policy.critic_policy_sha256)
        && digest_matches_artifact(&receipt.critique_sha256, critique_artifact)
}

/// What a critic's verdict is validated as.
#[verifier::allow_in_spec]
pub fn validated_verdict(verdict: PlanCriticVerdict) -> PlanSemanticReviewValidatedVerdict
    returns
        (match verdict {
            PlanCriticVerdict::Accept => PlanSemanticReviewValidatedVerdict::Accept,
            PlanCriticVerdict::Revise => PlanSemanticReviewValidatedVerdict::Revise,
            PlanCriticVerdict::Clarify => PlanSemanticReviewValidatedVerdict::Clarify,
            PlanCriticVerdict::Escalate => PlanSemanticReviewValidatedVerdict::Escalate,
        }),
{
    match verdict {
        PlanCriticVerdict::Accept => PlanSemanticReviewValidatedVerdict::Accept,
        PlanCriticVerdict::Revise => PlanSemanticReviewValidatedVerdict::Revise,
        PlanCriticVerdict::Clarify => PlanSemanticReviewValidatedVerdict::Clarify,
        PlanCriticVerdict::Escalate => PlanSemanticReviewValidatedVerdict::Escalate,
    }
}

/// Whether a receipt says what the critic answered: the verdict and the findings of an answer that
/// keeps the contract, which the critique retains in canonical form; else a broken contract without
/// findings, and the critique retains the answer as it came.
pub open spec fn receipt_reports(
    receipt: PlanSemanticReviewValidationReceipt,
    critique: Option<Text>,
    decoded: Option<PlanCriticOutput>,
    raw_text: Seq<char>,
) -> bool {
    match decoded {
        None => {
            &&& receipt.verdict == PlanSemanticReviewValidatedVerdict::ContractInvalid
            &&& receipt.finding_ids@.len() == 0
            &&& critique matches Some(critique) && critique@ == raw_text
        },
        Some(output) => {
            &&& critique matches Some(critique) && critique@ == output.body@
            &&& receipt.verdict == validated_verdict(output.verdict)
            &&& receipt.finding_ids.same(&output.finding_ids)
        },
    }
}

fn check_receipt_reports(
    receipt: &PlanSemanticReviewValidationReceipt,
    critique: &Option<Text>,
    decoded: &Option<PlanCriticOutput>,
    raw_text: &Text,
) -> (r: bool)
    ensures
        r == receipt_reports(*receipt, *critique, *decoded, raw_text@),
{
    let critique = match critique {
        Some(critique) => critique,
        None => return false,
    };
    match decoded {
        None => receipt.verdict == PlanSemanticReviewValidatedVerdict::ContractInvalid
            && receipt.finding_ids.len() == 0 && *critique == *raw_text,
        Some(output) => *critique == output.body && receipt.verdict == validated_verdict(
            output.verdict,
        ) && receipt.finding_ids == output.finding_ids,
    }
}

/// What is found of the artifacts of a review.
pub open spec fn review_artifacts_verdict(
    contract: Contract,
    prepared: PlannerInferencePrepared,
    observed_event: EventEnvelope,
    observed: PlannerInferenceObserved,
    critic_policy_artifact: ArtifactRef,
    candidate: PlanCandidateBinding,
    session: Session,
    run: Run,
    critique_artifact: ArtifactRef,
    validation_artifact: ArtifactRef,
    reads: ReviewReads,
) -> Result<(), StoreError> {
    if validation_artifact.media_type@ != contract.media.plan_critique_validation@
        || critique_artifact.media_type@ != contract.media.plan_critique@ {
        Err(StoreError::InvalidStateEvent)
    } else {
        match reads.receipt {
            Err(error) => Err(error),
            Ok(receipt) => if critic_policy_artifact.media_type@
                != contract.media.plan_critic_policy@ {
                Err(StoreError::InvalidStateEvent)
            } else {
                match reads.critic_policy {
                    Err(error) => Err(error),
                    Ok(policy) => if !crate::digest::is_canonical_digest(
                        policy.critic_policy_sha256@,
                    ) || !reads.critic_policy_is_canonical || !reads.receipt_is_canonical
                        || !receipt_is_own(
                        receipt,
                        prepared,
                        observed_event,
                        observed,
                        candidate,
                        policy,
                        critique_artifact,
                    ) {
                        Err(StoreError::InvalidStateEvent)
                    } else {
                        match reads.critique {
                            Err(error) => Err(error),
                            Ok(critique) => match critic_response(
                                contract,
                                prepared,
                                observed_event,
                                candidate,
                                session,
                                run,
                                policy,
                                reads,
                            ) {
                                Err(error) => Err(error),
                                Ok(raw_text) => crate::error::demand(
                                    receipt_reports(receipt, critique, reads.decoded, raw_text),
                                ),
                            },
                        }
                    },
                }
            },
        }
    }
}

fn validate_semantic_review_artifacts(
    contract: &Contract,
    prepared: &PlannerInferencePrepared,
    observed_event: &EventEnvelope,
    observed: &PlannerInferenceObserved,
    critic_policy_artifact: &ArtifactRef,
    candidate: &PlanCandidateBinding,
    session: &Session,
    run: &Run,
    critique_artifact: &ArtifactRef,
    validation_artifact: &ArtifactRef,
    reads: &ReviewReads,
) -> (r: Result<(), StoreError>)
    ensures
        r == review_artifacts_verdict(
            *contract,
            *prepared,
            *observed_event,
            *observed,
            *critic_policy_artifact,
            *candidate,
            *session,
            *run,
            *critique_artifact,
            *validation_artifact,
            *reads,
        ),
{
    match require_artifact_media_type(
        validation_artifact,
        &contract.media.plan_critique_validation,
    ) {
        Ok(()) => {},
        Err(error) => return Err(error),
    }
    match require_artifact_media_type(critique_artifact, &contract.media.plan_critique) {
        Ok(()) => {},
        Err(error) => return Err(error),
    }
    let receipt = match &reads.receipt {
        Ok(receipt) => receipt,
        Err(error) => return Err(*error),
    };
    match require_artifact_media_type(critic_policy_artifact, &contract.media.plan_critic_policy) {
        Ok(()) => {},
        Err(error) => return Err(error),
    }
    let policy = match &reads.critic_policy {
        Ok(policy) => policy,
        Err(error) => return Err(*error),
    };
    if Sha256Digest::parse(&policy.critic_policy_sha256).is_none()
        || !reads.critic_policy_is_canonical || !reads.receipt_is_canonical || !is_receipt_own(
        receipt,
        prepared,
        observed_event,
        observed,
        candidate,
        policy,
        critique_artifact,
    ) {
        return Err(StoreError::InvalidStateEvent);
    }
    let critique = match &reads.critique {
        Ok(critique) => critique,
        Err(error) => return Err(*error),
    };
    let raw_text = match decode_observed_critic_output(
        contract,
        prepared,
        observed_event,
        candidate,
        session,
        run,
        policy,
        reads,
    ) {
        Ok(raw_text) => raw_text,
        Err(error) => return Err(error),
    };
    if !check_receipt_reports(receipt, critique, &reads.decoded, raw_text) {
        return Err(StoreError::InvalidStateEvent);
    }
    Ok(())
}

/// Whether an inference reviews a candidate that nothing was decided on yet.
pub open spec fn reviews_candidate(
    store: Store,
    event: EventEnvelope,
    run_id: RunId,
    prepared: PlannerInferencePrepared,
    stage: PlannerStageContext,
    candidate: PlanCandidateBinding,
) -> bool {
    &&& stage is InitialReview || stage is FinalReview
    &&& stage_candidate(&stage) matches Some(reviewed) && reviewed.same(&candidate)
    &&& prepared.plan_revision == candidate.plan_revision
    &&& prepared.plan_digest@ == candidate.plan_digest@
    &&& review_decisions_on(store.log@, event.session_id, run_id, prepared.attempt_id) == 0
    &&& crate::root_planning_stage::candidate_acceptance(store, event, run_id, candidate) is Some
    &&& crate::planning_ground::session_and_run(store, event.session_id, run_id) is Some
}

/// The inference that a decision on a review is about, with the stage that it serves and the event
/// that observed its success.
pub open spec fn reviewed_inference(
    store: Store,
    event: EventEnvelope,
    run_id: RunId,
    attempt_id: InferenceAttemptId,
    observed_event_id: EventId,
) -> Option<(PlannerInferencePrepared, PlannerStageContext, EventEnvelope)> {
    match (
        crate::root_planning_prompt::observation_for_decision(
            store,
            event,
            run_id,
            observed_event_id,
            attempt_id,
        ),
        crate::root_planning_state::preparation_of(
            store.log@,
            event.session_id,
            run_id,
            attempt_id,
        ),
    ) {
        (Some(observed_event), Some(prepared_event)) => match (
            crate::root_planning_state::prepared_in(prepared_event),
            crate::root_planning_state::stage_in(prepared_event),
        ) {
            (Some(prepared), Some(stage)) => Some((prepared, stage, observed_event)),
            _ => None,
        },
        _ => None,
    }
}

/// What is found of a review once its inference is known.
pub open spec fn review_of_inference(
    store: Store,
    event: EventEnvelope,
    run_id: RunId,
    prepared: PlannerInferencePrepared,
    stage: PlannerStageContext,
    observed_event: EventEnvelope,
    candidate: PlanCandidateBinding,
    critique_artifact: ArtifactRef,
    validation_artifact: ArtifactRef,
    reads: ReviewReads,
) -> Result<(), StoreError> {
    let pair = crate::planning_ground::session_and_run(store, event.session_id, run_id)->0;
    let policy_artifact = *review_critic_policy_artifact(&stage)->0;
    crate::error::and_next(
        crate::root_planning_stage::policy_verdict(
            store.contract,
            prepared,
            stage,
            pair.1.spec.limits.max_output_tokens,
            reads.policy,
        ),
        crate::error::and_next(
            crate::error::demand(
                crate::root_planning_state::plan_base(store.log@, event.session_id, run_id) == Some(
                    (candidate.plan_revision, candidate.plan_digest@),
                ),
            ),
            crate::error::and_next(
                reads.claim_owner,
                crate::error::and_next(
                    crate::root_planning_prompt::critic_policy_verdict(
                        store,
                        event.session_id,
                        run_id,
                        prepared,
                        stage,
                        policy_artifact,
                        reads.critic,
                    ),
                    review_artifacts_verdict(
                        store.contract,
                        prepared,
                        observed_event,
                        crate::root_planning_prompt::observed_in(observed_event)->0,
                        policy_artifact,
                        candidate,
                        pair.0,
                        pair.1,
                        critique_artifact,
                        validation_artifact,
                        reads,
                    ),
                ),
            ),
        ),
    )
}

/// What is found of a review, whatever was decided on it: the stage that it was made in, or why it
/// is refused.
pub open spec fn review_verdict(
    store: Store,
    event: EventEnvelope,
    attempt_id: InferenceAttemptId,
    observed_event_id: EventId,
    candidate: PlanCandidateBinding,
    critique_artifact: ArtifactRef,
    validation_artifact: ArtifactRef,
    reads: ReviewReads,
) -> Result<PlannerStageContext, StoreError> {
    match event.run_id {
        None => Err(StoreError::InvalidStateEvent),
        Some(run_id) => if !crate::planning_ground::run_is_running(store, run_id) {
            Err(StoreError::InvalidStateEvent)
        } else {
            match reviewed_inference(store, event, run_id, attempt_id, observed_event_id) {
                None => Err(StoreError::InvalidStateEvent),
                Some((prepared, stage, observed_event)) => if !reviews_candidate(
                    store,
                    event,
                    run_id,
                    prepared,
                    stage,
                    candidate,
                ) {
                    Err(StoreError::InvalidStateEvent)
                } else {
                    match review_of_inference(
                        store,
                        event,
                        run_id,
                        prepared,
                        stage,
                        observed_event,
                        candidate,
                        critique_artifact,
                        validation_artifact,
                        reads,
                    ) {
                        Err(error) => Err(error),
                        Ok(()) => Ok(stage),
                    }
                },
            }
        },
    }
}

fn check_review_of_inference(
    store: &Store,
    event: &EventEnvelope,
    run_id: RunId,
    prepared: &PlannerInferencePrepared,
    stage: &PlannerStageContext,
    observed_event: &EventEnvelope,
    candidate: &PlanCandidateBinding,
    critique_artifact: &ArtifactRef,
    validation_artifact: &ArtifactRef,
    reads: &ReviewReads,
) -> (r: Result<(), StoreError>)
    requires
        reviews_candidate(*store, *event, run_id, *prepared, *stage, *candidate),
        crate::root_planning_prompt::observed_in(*observed_event) is Some,
    ensures
        r == review_of_inference(
            *store,
            *event,
            run_id,
            *prepared,
            *stage,
            *observed_event,
            *candidate,
            *critique_artifact,
            *validation_artifact,
            *reads,
        ),
{
    let (session, run) = match store.durable_session_and_run(event.session_id, run_id) {
        Ok(pair) => pair,
        Err(error) => return Err(error),
    };
    match validate_stage_execution_policy(
        &store.contract,
        prepared,
        stage,
        run.spec.limits.max_output_tokens,
        &reads.policy,
    ) {
        Ok(()) => {},
        Err(error) => return Err(error),
    }
    match current_plan_base(&store.log, event.session_id, run_id) {
        Some((revision, digest)) => if revision != candidate.plan_revision || *digest
            != candidate.plan_digest {
            return Err(StoreError::InvalidStateEvent);
        },
        None => return Err(StoreError::InvalidStateEvent),
    }
    match reads.claim_owner {
        Ok(()) => {},
        Err(error) => return Err(error),
    }
    let policy_artifact = match review_critic_policy_artifact(stage) {
        Some(policy_artifact) => policy_artifact,
        None => return Err(StoreError::InvalidStateEvent),
    };
    match validate_critic_policy_artifact(
        store,
        event.session_id,
        run_id,
        prepared,
        stage,
        policy_artifact,
        &reads.critic,
    ) {
        Ok(()) => {},
        Err(error) => return Err(error),
    }
    let observed = match &observed_event.payload {
        EventPayload::PlannerInferenceObserved(observed) => observed,
        _ => return Err(StoreError::InvalidStateEvent),
    };
    validate_semantic_review_artifacts(
        &store.contract,
        prepared,
        observed_event,
        observed,
        policy_artifact,
        candidate,
        session,
        run,
        critique_artifact,
        validation_artifact,
        reads,
    )
}

fn validate_semantic_review_common<'a>(
    store: &'a Store,
    event: &EventEnvelope,
    attempt_id: InferenceAttemptId,
    observed_event_id: EventId,
    candidate: &PlanCandidateBinding,
    critique_artifact: &ArtifactRef,
    validation_artifact: &ArtifactRef,
    reads: &ReviewReads,
) -> (r: Result<&'a PlannerStageContext, StoreError>)
    ensures
        match (
            r,
            review_verdict(
                *store,
                *event,
                attempt_id,
                observed_event_id,
                *candidate,
                *critique_artifact,
                *validation_artifact,
                *reads,
            ),
        ) {
            (Ok(stage), Ok(expected)) => *stage == expected,
            (Err(error), Err(expected)) => error == expected,
            _ => false,
        },
{
    let run_id = match planner_run_id(event) {
        Ok(run_id) => run_id,
        Err(error) => return Err(error),
    };
    if !store.is_running(run_id) {
        return Err(StoreError::InvalidStateEvent);
    }
    let observed_event = match successful_observed_for_decision(
        store,
        event,
        run_id,
        observed_event_id,
        attempt_id,
    ) {
        Ok(observed_event) => observed_event,
        Err(error) => return Err(error),
    };
    let prepared_event = match prepared_inference_for_attempt(
        &store.log,
        event.session_id,
        run_id,
        attempt_id,
    ) {
        Ok(prepared_event) => prepared_event,
        Err(error) => return Err(error),
    };
    proof {
        lemma_preparation_names_attempt(store.log@, event.session_id, run_id, attempt_id);
    }
    let prepared = match &prepared_event.payload {
        EventPayload::PlannerInferencePrepared(prepared) => prepared,
        _ => return Err(StoreError::InvalidStateEvent),
    };
    let stage = match &prepared.stage_context {
        Some(stage) => stage,
        None => return Err(StoreError::InvalidStateEvent),
    };
    let reviewing = match stage_candidate(stage) {
        Some(reviewed) => *reviewed == *candidate,
        None => false,
    };
    if !matches!(
        stage,
        PlannerStageContext::InitialReview { .. } | PlannerStageContext::FinalReview { .. }
    ) || !reviewing || prepared.plan_revision != candidate.plan_revision || prepared.plan_digest
        != candidate.plan_digest || semantic_review_decision_count(
        &store.log,
        event.session_id,
        run_id,
        prepared.attempt_id,
    ) != 0 || validate_candidate_binding(store, event, run_id, candidate).is_err()
        || store.durable_session_and_run(event.session_id, run_id).is_err() {
        return Err(StoreError::InvalidStateEvent);
    }
    match check_review_of_inference(
        store,
        event,
        run_id,
        prepared,
        stage,
        observed_event,
        candidate,
        critique_artifact,
        validation_artifact,
        reads,
    ) {
        Ok(()) => Ok(stage),
        Err(error) => Err(error),
    }
}

/// The preparation of an attempt names the attempt.
proof fn lemma_preparation_names_attempt(
    events: Seq<EventEnvelope>,
    session_id: SessionId,
    run_id: RunId,
    attempt_id: InferenceAttemptId,
)
    ensures
        crate::root_planning_state::preparation_of(events, session_id, run_id, attempt_id) matches Some(
            event,
        ) ==> (crate::root_planning_state::prepared_in(event) matches Some(prepared)
            && prepared.attempt_id == attempt_id),
{
    let query = EventQuery::in_run(
        session_id,
        run_id,
        PayloadFilter::PreparedForAttempt(attempt_id),
    );
    crate::history::lemma_rows_admitted(query, events);
    if query.rows(events).len() > 0 {
        assert(query.admits(query.rows(events)[0]));
    }
}

/// What is found of an accepted review.
pub open spec fn accepted_review_verdict(
    store: Store,
    event: EventEnvelope,
    accepted: PlanSemanticReviewAccepted,
    reads: ReviewReads,
) -> Result<(), StoreError> {
    match review_verdict(
        store,
        event,
        accepted.inference_attempt_id,
        accepted.observed_event_id,
        accepted.candidate,
        accepted.critique_artifact,
        accepted.validation_evidence_artifact,
        reads,
    ) {
        Err(error) => Err(error),
        Ok(_) => crate::error::demand(
            {
                &&& reads.receipt matches Ok(receipt) && receipt.verdict
                    == PlanSemanticReviewValidatedVerdict::Accept && receipt.finding_ids@.len()
                    == 0
                &&& reviews_with(store.log@, accepted.review_id) == 0
            },
        ),
    }
}

/// Refuses an accepted review that may not be recorded.
pub fn validate_plan_semantic_review_accepted(
    store: &Store,
    event: &EventEnvelope,
    accepted: &PlanSemanticReviewAccepted,
    reads: &ReviewReads,
) -> (r: Result<(), StoreError>)
    ensures
        r == accepted_review_verdict(*store, *event, *accepted, *reads),
{
    match validate_semantic_review_common(
        store,
        event,
        accepted.inference_attempt_id,
        accepted.observed_event_id,
        &accepted.candidate,
        &accepted.critique_artifact,
        &accepted.validation_evidence_artifact,
        reads,
    ) {
        Ok(_) => {},
        Err(error) => return Err(error),
    }
    let accepts = match &reads.receipt {
        Ok(receipt) => receipt.verdict == PlanSemanticReviewValidatedVerdict::Accept
            && receipt.finding_ids.len() == 0,
        Err(_) => false,
    };
    if !accepts || semantic_review_id_count(&store.log, accepted.review_id) != 0 {
        return Err(StoreError::InvalidStateEvent);
    }
    Ok(())
}

/// The most bytes that the identity of a finding has.
pub const MAX_FINDING_BYTES: usize = 128;

/// Whether the identity of a finding is there, and not too long.
pub open spec fn finding_in_bounds(finding: Text) -> bool {
    finding@.len() != 0 && vstd::utf8::encode_utf8(finding@).len() as usize <= MAX_FINDING_BYTES
}

/// Whether the findings that a repair has to answer can be named.
pub open spec fn findings_stand(findings: Seq<Text>) -> bool {
    &&& findings.len() <= MAX_FINDINGS
    &&& crate::root_planning_stage::texts_distinct(findings)
    &&& forall|i: int| 0 <= i < findings.len() ==> finding_in_bounds(#[trigger] findings[i])
}

fn check_findings(findings: &Vec<Text>) -> (r: bool)
    ensures
        r == findings_stand(findings@),
{
    if findings.len() > MAX_FINDINGS || !are_texts_distinct(findings) {
        return false;
    }
    let mut i: usize = 0;
    while i < findings.len()
        invariant
            i <= findings@.len(),
            forall|k: int| 0 <= k < i ==> finding_in_bounds(#[trigger] findings@[k]),
        decreases findings.len() - i,
    {
        if findings[i].is_empty() || findings[i].size() > MAX_FINDING_BYTES {
            assert(!finding_in_bounds(findings@[i as int]));
            return false;
        }
        i += 1;
    }
    true
}

/// Whether a rejection follows from a validated critique: a first review that asks for revision
/// authorizes one repair of exactly its findings; anything else that is no acceptance ends the plan;
/// a broken contract is no review.
pub open spec fn disposition_follows(
    stage: PlannerStageContext,
    receipt: PlanSemanticReviewValidationReceipt,
    rejected: PlanSemanticReviewRejected,
) -> bool {
    let verdict = receipt.verdict;
    match rejected.disposition {
        PlanSemanticReviewRejectionDisposition::RepairOnceAuthorized => {
            &&& stage is InitialReview
            &&& rejected.required_finding_ids@.len() > 0
            &&& verdict == PlanSemanticReviewValidatedVerdict::Revise
            &&& receipt.finding_ids.same(&rejected.required_finding_ids)
        },
        PlanSemanticReviewRejectionDisposition::TerminalReject => {
            &&& rejected.required_finding_ids@.len() == 0
            &&& {
                ||| verdict == PlanSemanticReviewValidatedVerdict::Clarify && (
                stage is InitialReview || stage is FinalReview)
                ||| verdict == PlanSemanticReviewValidatedVerdict::Escalate && (
                stage is InitialReview || stage is FinalReview)
                ||| verdict == PlanSemanticReviewValidatedVerdict::Revise && stage is FinalReview
            }
        },
        PlanSemanticReviewRejectionDisposition::ReviewContractInvalid => {
            &&& rejected.required_finding_ids@.len() == 0
            &&& receipt.finding_ids@.len() == 0
            &&& verdict == PlanSemanticReviewValidatedVerdict::ContractInvalid
        },
    }
}

fn check_disposition(
    stage: &PlannerStageContext,
    receipt: &PlanSemanticReviewValidationReceipt,
    rejected: &PlanSemanticReviewRejected,
) -> (r: bool)
    ensures
        r == disposition_follows(*stage, *receipt, *rejected),
{
    match rejected.disposition {
        PlanSemanticReviewRejectionDisposition::RepairOnceAuthorized => matches!(
            stage,
            PlannerStageContext::InitialReview { .. }
        ) && rejected.required_finding_ids.len() > 0 && receipt.verdict
            == PlanSemanticReviewValidatedVerdict::Revise && receipt.finding_ids
            == rejected.required_finding_ids,
        PlanSemanticReviewRejectionDisposition::TerminalReject => {
            rejected.required_finding_ids.len() == 0 && match stage {
                PlannerStageContext::InitialReview { .. } => receipt.verdict
                    == PlanSemanticReviewValidatedVerdict::Clarify || receipt.verdict
                    == PlanSemanticReviewValidatedVerdict::Escalate,
                PlannerStageContext::FinalReview { .. } => receipt.verdict
                    == PlanSemanticReviewValidatedVerdict::Revise || receipt.verdict
                    == PlanSemanticReviewValidatedVerdict::Clarify || receipt.verdict
                    == PlanSemanticReviewValidatedVerdict::Escalate,
                _ => false,
            }
        },
        PlanSemanticReviewRejectionDisposition::ReviewContractInvalid => {
            rejected.required_finding_ids.len() == 0 && receipt.finding_ids.len() == 0
                && receipt.verdict == PlanSemanticReviewValidatedVerdict::ContractInvalid
        },
    }
}

/// What is found of a rejected review.
pub open spec fn rejected_review_verdict(
    store: Store,
    event: EventEnvelope,
    rejected: PlanSemanticReviewRejected,
    reads: ReviewReads,
) -> Result<(), StoreError> {
    match review_verdict(
        store,
        event,
        rejected.inference_attempt_id,
        rejected.observed_event_id,
        rejected.candidate,
        rejected.critique_artifact,
        rejected.validation_evidence_artifact,
        reads,
    ) {
        Err(error) => Err(error),
        Ok(stage) => crate::error::demand(
            {
                &&& reviews_with(store.log@, rejected.review_id) == 0
                &&& findings_stand(rejected.required_finding_ids@)
                &&& reads.receipt matches Ok(receipt) && disposition_follows(
                    stage,
                    receipt,
                    rejected,
                )
            },
        ),
    }
}

/// Refuses a rejected review that may not be recorded.
pub fn validate_plan_semantic_review_rejected(
    store: &Store,
    event: &EventEnvelope,
    rejected: &PlanSemanticReviewRejected,
    reads: &ReviewReads,
) -> (r: Result<(), StoreError>)
    ensures
        r == rejected_review_verdict(*store, *event, *rejected, *reads),
{
    let stage = match validate_semantic_review_common(
        store,
        event,
        rejected.inference_attempt_id,
        rejected.observed_event_id,
        &rejected.candidate,
        &rejected.critique_artifact,
        &rejected.validation_evidence_artifact,
        reads,
    ) {
        Ok(stage) => stage,
        Err(error) => return Err(error),
    };
    let follows = match &reads.receipt {
        Ok(receipt) => check_disposition(stage, receipt, rejected),
        Err(_) => false,
    };
    if semantic_review_id_count(&store.log, rejected.review_id) != 0 || !check_findings(
        &rejected.required_finding_ids,
    ) || !follows {
        return Err(StoreError::InvalidStateEvent);
    }
    Ok(())
}

/// One critique is never both accepted and rejected: with the same artifacts read, at most one of
/// the two decisions is taken.
pub proof fn law_review_is_decided_one_way(
    store: Store,
    event: EventEnvelope,
    accepted: PlanSemanticReviewAccepted,
    rejected: PlanSemanticReviewRejected,
    reads: ReviewReads,
)
    ensures
        accepted_review_verdict(store, event, accepted, reads) is Err || rejected_review_verdict(
            store,
            event,
            rejected,
            reads,
        ) is Err,
{
}

/// A repair is authorized only by the first review: a rejection of the final review never asks for
/// another.
pub proof fn law_final_review_authorizes_no_repair(
    stage: PlannerStageContext,
    receipt: PlanSemanticReviewValidationReceipt,
    rejected: PlanSemanticReviewRejected,
)
    requires
        stage is FinalReview,
        disposition_follows(stage, receipt, rejected),
    ensures
        rejected.disposition != PlanSemanticReviewRejectionDisposition::RepairOnceAuthorized,
        rejected.required_finding_ids@.len() == 0,
{
}

/// An attempt's review is decided where the run records an acceptance or a rejection of it, and a
/// review has an identity of its own among all runs.
pub proof fn law_review_decisions_are_counted(
    events: Seq<EventEnvelope>,
    session_id: SessionId,
    run_id: RunId,
    attempt_id: InferenceAttemptId,
    review_id: PlanSemanticReviewId,
    j: int,
)
    requires
        0 <= j < events.len(),
    ensures
        review_decisions_on(events, session_id, run_id, attempt_id) == 0
            && events[j].session_id == session_id && events[j].run_id == Some(run_id) ==> {
            &&& events[j].payload matches EventPayload::PlanSemanticReviewAccepted(accepted)
                ==> accepted.inference_attempt_id != attempt_id
            &&& events[j].payload matches EventPayload::PlanSemanticReviewRejected(rejected)
                ==> rejected.inference_attempt_id != attempt_id
        },
        reviews_with(events, review_id) == 0 ==> {
            &&& events[j].payload matches EventPayload::PlanSemanticReviewAccepted(accepted)
                ==> accepted.review_id != review_id
            &&& events[j].payload matches EventPayload::PlanSemanticReviewRejected(rejected)
                ==> rejected.review_id != review_id
        },
{
    let deciding = EventQuery::in_run(
        session_id,
        run_id,
        PayloadFilter::ReviewDecision(attempt_id),
    );
    if deciding.admits(events[j]) {
        crate::history::law_ends_of_a_selection(deciding, events, j);
    }
    let named = EventQuery::everywhere(PayloadFilter::Review(review_id));
    if named.admits(events[j]) {
        crate::history::law_ends_of_a_selection(named, events, j);
    }
}

/// A review that is decided is of the plan that the run has: it was prepared on that plan for a review
/// stage, its critic answered, and its decision is new.
pub proof fn law_decided_reviews_were_open(
    store: Store,
    event: EventEnvelope,
    run_id: RunId,
    attempt_id: InferenceAttemptId,
    observed_event_id: crate::identity::EventId,
    candidate: PlanCandidateBinding,
    critique_artifact: ArtifactRef,
    validation_artifact: ArtifactRef,
    reads: ReviewReads,
) -> (places: (int, int))
    requires
        event.run_id == Some(run_id),
        review_verdict(
            store,
            event,
            attempt_id,
            observed_event_id,
            candidate,
            critique_artifact,
            validation_artifact,
            reads,
        ) is Ok,
    ensures
        reads.claim_owner is Ok,
        store.state_record(run_id) matches Some(row) && row.state == crate::run::RunState::Running,
        event.causal_parent == Some(observed_event_id),
        crate::root_planning_state::plan_base(store.log@, event.session_id, run_id) == Some(
            (candidate.plan_revision, candidate.plan_digest@),
        ),
        review_decisions_on(store.log@, event.session_id, run_id, attempt_id) == 0,
        0 <= places.0 < store.log@.len(),
        crate::root_planning_state::is_of_run(store.log@[places.0], event.session_id, run_id),
        store.log@[places.0].payload matches EventPayload::PlannerInferencePrepared(prepared) && {
            &&& prepared.attempt_id == attempt_id
            &&& prepared.plan_revision == candidate.plan_revision
            &&& prepared.plan_digest@ == candidate.plan_digest@
            &&& prepared.stage_context is Some
            &&& review_verdict(
                store,
                event,
                attempt_id,
                observed_event_id,
                candidate,
                critique_artifact,
                validation_artifact,
                reads,
            ) == Ok::<PlannerStageContext, StoreError>(prepared.stage_context->0)
            &&& match prepared.stage_context->0 {
                PlannerStageContext::InitialReview { candidate: reviewed, .. } =>
                    reviewed.proposal_event_id == candidate.proposal_event_id,
                PlannerStageContext::FinalReview { candidate: reviewed, .. } =>
                    reviewed.proposal_event_id == candidate.proposal_event_id,
                _ => false,
            }
        },
        0 <= places.1 < store.log@.len(),
        store.log@[places.1].id == observed_event_id,
        store.log@[places.1].payload matches EventPayload::PlannerInferenceObserved(observed)
            && observed.outcome is Succeeded && observed.attempt_id == attempt_id,
        critique_artifact.media_type@ == store.contract.media.plan_critique@,
        validation_artifact.media_type@ == store.contract.media.plan_critique_validation@,
        reads.receipt matches Ok(receipt) && {
            &&& receipt.inference_attempt_id == attempt_id
            &&& receipt.observed_event_id == observed_event_id
            &&& receipt.critique_sha256@ == critique_artifact.sha256@
            &&& receipt.candidate.proposal_event_id == candidate.proposal_event_id
        },
{
    lemma_preparation_names_attempt(store.log@, event.session_id, run_id, attempt_id);
    let places = crate::root_planning_prompt::law_decisions_stand_on_a_success(
        store,
        event,
        run_id,
        observed_event_id,
        attempt_id,
    );
    let query = EventQuery::in_run(
        event.session_id,
        run_id,
        PayloadFilter::PreparedForAttempt(attempt_id),
    );
    let ends = crate::history::law_selections_have_ends(query, store.log@);
    (ends.0, places.1)
}

/// What a critic answered decides the review: an acceptance follows from an answer that accepts and
/// finds nothing, and a rejection from any other one.
pub proof fn law_critics_decide_reviews(
    store: Store,
    event: EventEnvelope,
    accepted: PlanSemanticReviewAccepted,
    rejected: PlanSemanticReviewRejected,
    reads: ReviewReads,
)
    ensures
        accepted_review_verdict(store, event, accepted, reads) is Ok ==> {
            &&& reads.decoded matches Some(output) && output.verdict == PlanCriticVerdict::Accept
                && output.finding_ids@.len() == 0
            &&& reviews_with(store.log@, accepted.review_id) == 0
        },
        rejected_review_verdict(store, event, rejected, reads) is Ok ==> {
            &&& reviews_with(store.log@, rejected.review_id) == 0
            &&& match rejected.disposition {
                PlanSemanticReviewRejectionDisposition::RepairOnceAuthorized => {
                    &&& reads.decoded matches Some(output) && output.verdict
                        == PlanCriticVerdict::Revise && output.finding_ids@.len()
                        == rejected.required_finding_ids@.len()
                    &&& rejected.required_finding_ids@.len() > 0
                },
                PlanSemanticReviewRejectionDisposition::TerminalReject => {
                    &&& reads.decoded matches Some(output) && output.verdict
                        != PlanCriticVerdict::Accept
                    &&& rejected.required_finding_ids@.len() == 0
                },
                PlanSemanticReviewRejectionDisposition::ReviewContractInvalid => {
                    &&& reads.decoded is None
                    &&& rejected.required_finding_ids@.len() == 0
                },
            }
        },
{
}

/// Each answer of a critic leads to its own disposition: revision asks for the one repair after the
/// first review and ends the plan after the final one, clarification and escalation end it, and an
/// answer that broke the contract is told as such.
pub proof fn law_answers_lead_to_their_disposition(
    stage: PlannerStageContext,
    receipt: PlanSemanticReviewValidationReceipt,
    rejected: PlanSemanticReviewRejected,
)
    requires
        disposition_follows(stage, receipt, rejected),
        stage is InitialReview || stage is FinalReview,
    ensures
        receipt.verdict != PlanSemanticReviewValidatedVerdict::Accept,
        receipt.verdict == PlanSemanticReviewValidatedVerdict::Revise && stage is InitialReview
            ==> rejected.disposition
            == PlanSemanticReviewRejectionDisposition::RepairOnceAuthorized,
        receipt.verdict == PlanSemanticReviewValidatedVerdict::Revise && stage is FinalReview
            ==> rejected.disposition == PlanSemanticReviewRejectionDisposition::TerminalReject,
        receipt.verdict == PlanSemanticReviewValidatedVerdict::Clarify ==> rejected.disposition
            == PlanSemanticReviewRejectionDisposition::TerminalReject,
        receipt.verdict == PlanSemanticReviewValidatedVerdict::Escalate ==> rejected.disposition
            == PlanSemanticReviewRejectionDisposition::TerminalReject,
        receipt.verdict == PlanSemanticReviewValidatedVerdict::ContractInvalid
            ==> rejected.disposition
            == PlanSemanticReviewRejectionDisposition::ReviewContractInvalid,
        rejected.disposition == PlanSemanticReviewRejectionDisposition::RepairOnceAuthorized
            <==> rejected.required_finding_ids@.len() > 0,
{
}

/// A rejection is owed its disposition: whatever a critic answered but an acceptance, there is one
/// that follows from it, and only for an answer to the first review that asks for a revision do the
/// findings have to be there.
pub proof fn law_every_refusal_has_a_disposition(
    stage: PlannerStageContext,
    receipt: PlanSemanticReviewValidationReceipt,
    rejected: PlanSemanticReviewRejected,
)
    requires
        stage is InitialReview || stage is FinalReview,
    ensures
        receipt.verdict == PlanSemanticReviewValidatedVerdict::Revise && stage is InitialReview
            && rejected.disposition
            == PlanSemanticReviewRejectionDisposition::RepairOnceAuthorized
            && rejected.required_finding_ids@.len() > 0 && receipt.finding_ids.same(
            &rejected.required_finding_ids,
        ) ==> disposition_follows(stage, receipt, rejected),
        rejected.required_finding_ids@.len() == 0 && rejected.disposition
            == PlanSemanticReviewRejectionDisposition::TerminalReject && (receipt.verdict
            == PlanSemanticReviewValidatedVerdict::Clarify || receipt.verdict
            == PlanSemanticReviewValidatedVerdict::Escalate || (receipt.verdict
            == PlanSemanticReviewValidatedVerdict::Revise && stage is FinalReview))
            ==> disposition_follows(stage, receipt, rejected),
        rejected.required_finding_ids@.len() == 0 && receipt.finding_ids@.len() == 0
            && rejected.disposition
            == PlanSemanticReviewRejectionDisposition::ReviewContractInvalid && receipt.verdict
            == PlanSemanticReviewValidatedVerdict::ContractInvalid ==> disposition_follows(
            stage,
            receipt,
            rejected,
        ),
{
}

} // verus!

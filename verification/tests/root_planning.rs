//! Root planning: failures, stages, inferences and the plan base.

use birdcode_store::artifact::{
    ArtifactRef, BackendInstanceIdentity, BackendKind, BackendModelRef, BackendSelection,
    ModelLineage, Provenance,
};
use birdcode_store::clock::Timestamp;
use birdcode_store::contract::{
    Contract, ContractVersions, MediaTypes, PlanningPurposes, Producers, PromptKeys,
    ReconnaissanceLimits, RootPlanningPolicyLimits,
};
use birdcode_store::digest::Sha256Digest;
use birdcode_store::error::StoreError;
use birdcode_store::event::{EventEnvelope, EventPayload};
use birdcode_store::history::EventLog;
use birdcode_store::identity::{
    ActorId, EventId, InferenceAttemptId, PlanProposalId, RunClaimId, RunId, RuntimeInstanceId,
    SessionId, TokenReservationId,
};
use birdcode_store::inference_identity::{
    backend_instance_from_protocol_identity, error_matches_protocol_backend_instance,
    protocol_backend_instance_identity, response_matches_protocol_backend_instance,
    BackendErrorOrigin, BackendNameReading, ConfiguredBackend,
};
use birdcode_store::lifecycle_identity::LifecycleIdentities;
use birdcode_store::planning::{
    PlanProposalAccepted, PlanProposalRejectionReason, PlannerInferenceError,
    PlannerInferenceErrorKind, PlannerInferenceObservation, PlannerInferenceObserved,
    PlannerInferenceOutcomeUnknown, PlannerInferencePrepared, PlannerStageContext,
    RootPlanningFailed, RootPlanningFailurePhase, RootPlanningFailureReason, RootPlanningStage,
    RootPlanningStageFailureReason, UnknownInferenceBoundary, UnknownInferenceOutcomeReason,
};
use birdcode_store::retained::{
    BackendErrorEvidence, PlanCriticVerdict, PlanSemanticReviewValidatedVerdict,
    PlannerV2NotDispatchedReason, PromptError, RetainedCancellationBoundaryEvidence,
    RetainedInferenceEvidence, RetainedRootPlanningFailureEvidence, RootPlannerRejectionClass,
    RootPlanningExecutionPolicy, RootPlanningPromptContracts, RootPlanningStageBudgets,
    StructuredInferenceResponse,
};
use birdcode_store::root_planning_decision::root_planner_rejection_reason;
use birdcode_store::root_planning_failure::{
    root_planning_failure_count, root_planning_stage_failure_count,
    valid_root_planning_failure_classification, valid_stage_failure_classification,
    validate_root_planning_failed,
};
use birdcode_store::root_planning_inference::{
    expected_observation_from_evidence, inference_terminal_count, reason_fits_boundary,
    response_matches_prepared, validate_planner_inference_observed,
    validate_planner_inference_prepared, validate_planner_inference_unknown, PreparationReads,
};
use birdcode_store::root_planning_prompt::CriticPolicyReads;
use birdcode_store::root_planning_review::validated_verdict;
use birdcode_store::root_planning_stage::{
    policy_budget, policy_lineage, policy_prompt, stages_before, validate_reviewer_independence,
    validate_stage_execution_policy, PolicyReads,
};
use birdcode_store::root_planning_state::{
    current_plan_base, require_current_plan_base, PlannerStageKind,
};
use birdcode_store::run::{
    PlanAcceptanceContract, RetryDisposition, Run, RunClaimed, RunLimits, RunPurpose, RunSpec,
    RunState, Session, TokenReservation, TokenUsage,
};
use birdcode_store::store::{RunStateRow, Store};
use birdcode_store::text::Text;

fn text(value: &str) -> Text {
    Text {
        value: value.to_owned(),
    }
}

fn contract() -> Contract {
    Contract {
        media: MediaTypes {
            root_planning_failure: text("application/root-planning-failure"),
            root_planning_stage_failure: text("application/root-planning-stage-failure"),
            root_planning_execution_policy: text("application/root-planning-policy"),
            plan_critic_policy: text("application/plan-critic-policy"),
            plan_critique: text("application/plan-critique"),
            plan_critique_validation: text("application/plan-critique-validation"),
            plan_proposal: text("application/plan-proposal"),
            plan_validation: text("application/plan-validation"),
            accepted_plan: text("application/accepted-plan"),
            retained_prompt: text("application/retained-prompt"),
            inference_request: text("application/inference-request"),
            inference_evidence: text("application/inference-evidence"),
            cancellation_boundary: text("application/cancellation-boundary"),
            planner_plan_v2: text("application/planner-plan"),
            planner_prompt_manifest_v2: text("application/planner-prompt-manifest"),
            planner_work_order_v2: text("application/planner-work-order"),
            planner_prompt_output_v2: text("application/planner-prompt-output"),
            planner_prompt_evidence_packet_v2: text("application/planner-prompt-packet"),
            planner_prompt_evidence_delta_v2: text("application/planner-prompt-delta"),
            planner_durable_evidence_packet_v2: text("application/planner-durable-packet"),
            planner_durable_evidence_delta_v2: text("application/planner-durable-delta"),
            planner_v2_finalization_evidence: text("application/planner-finalization"),
            child_execution_failure: text("application/child-failure"),
            child_handoff: text("application/child-handoff"),
            snapshot_lease: text("application/snapshot-lease"),
            cleanup_safety_evidence: text("application/cleanup-safety"),
            cleanup_process_inspection: text("application/cleanup-process"),
            cleanup_initial_inspection: text("application/cleanup-initial"),
            cleanup_topology_inspection: text("application/cleanup-topology"),
            hdiutil_info: text("application/hdiutil-info"),
            command_stderr: text("application/command-stderr"),
        },
        versions: ContractVersions {
            snapshot_cleanup: 1,
            snapshot_recovery_v2: 2,
            planner_turn: 1,
            planner_evidence: 2,
            child_reconnaissance: 1,
        },
        planning: RootPlanningPolicyLimits {
            schema_version: 1,
            max_model_calls: 4,
            max_repairs: 1,
            max_review_rounds: 2,
            initial_plan_max_output_tokens: 100,
            initial_review_max_output_tokens: 100,
            repair_max_output_tokens: 100,
            final_review_max_output_tokens: 100,
        },
        recon: ReconnaissanceLimits {
            max_planner_turns: 8,
            planner_attempts_per_stage: 2,
            max_planner_output_tokens_per_call: 100,
            max_planner_evidence_entries: 16,
            max_terminal_claim_events: 64,
        },
        producers: Producers {
            planner_preparation: text("planner-preparation"),
            planner_observation: text("planner-observation"),
            planner_unknown: text("planner-unknown"),
            planner_finalization: text("planner-finalization"),
        },
        purposes: PlanningPurposes {
            general: false,
            root_planning: true,
            reconnaissance: true,
        },
        prompts: PromptKeys {
            root_planner: text("root-planner"),
            plan_critic: text("plan-critic"),
            plan_repair: text("plan-repair"),
            planner_replanner_id: text("planner-replanner"),
            planner_replanner_version: text("2.0.0"),
        },
    }
}


fn time(seconds: i64) -> Timestamp {
    Timestamp {
        seconds,
        nanoseconds: 0,
    }
}

fn event(id: u128, sequence: u64, payload: EventPayload) -> EventEnvelope {
    EventEnvelope {
        id: EventId(id),
        sequence,
        session_id: SessionId(1),
        run_id: Some(RunId(2)),
        actor_id: ActorId(3),
        causal_parent: None,
        occurred_at: time(1_700_000_000),
        provenance: Provenance {
            producer: text("runtime"),
            backend: None,
            raw_artifact: None,
        },
        payload,
    }
}

fn claim(id: u128, sequence: u64, generation: u64) -> EventEnvelope {
    event(
        id,
        sequence,
        EventPayload::RunClaimed(RunClaimed {
            claim_id: RunClaimId(50),
            runtime_instance_id: RuntimeInstanceId(51),
            claim_generation: generation,
            cancellation_generation: 0,
            lease_expires_at: time(1_700_000_100),
        }),
    )
}

fn artifact(media_type: &str) -> ArtifactRef {
    ArtifactRef {
        sha256: text(&"a".repeat(64)),
        size_bytes: 10,
        media_type: text(media_type),
    }
}

fn failure() -> RootPlanningFailed {
    RootPlanningFailed {
        claim_event_id: EventId(10),
        claim_id: RunClaimId(50),
        cancellation_generation: 0,
        phase: RootPlanningFailurePhase::Preflight,
        reason: RootPlanningFailureReason::InvalidWallDeadline,
        model_subject: None,
        evidence_artifact: artifact("application/root-planning-failure"),
        other_identities: LifecycleIdentities::none(),
    }
}

fn log(events: Vec<EventEnvelope>) -> EventLog {
    match EventLog::from_events(events) {
        Ok(log) => log,
        Err(error) => panic!("not a log: {error:?}"),
    }
}

fn store(purpose: RunPurpose, events: Vec<EventEnvelope>) -> Store {
    Store {
        contract: contract(),
        log: log(events),
        sessions: vec![Session {
            id: SessionId(1),
            workspace_root: text("/repo"),
            title: None,
            created_at: time(1_699_999_000),
        }],
        runs: vec![Run {
            id: RunId(2),
            spec: RunSpec {
                session_id: SessionId(1),
                purpose,
                plan_acceptance: PlanAcceptanceContract::IndependentSemanticReviewV1,
                backend: BackendSelection {
                    backend_id: text("backend"),
                    kind: BackendKind::Model,
                    model: None,
                    reasoning_effort: None,
                },
                input: Vec::new(),
                limits: RunLimits {
                    max_output_tokens: Some(400),
                    max_wall_time_seconds: None,
                    max_subagents: 2,
                },
            },
            state: RunState::Queued,
            created_at: time(1_699_999_000),
        }],
        run_states: vec![RunStateRow {
            run_id: RunId(2),
            session_id: SessionId(1),
            state: RunState::Running,
            state_sequence: 2,
        }],
    }
}


fn digest(letter: &str) -> Sha256Digest {
    match Sha256Digest::parse(&text(&letter.repeat(64))) {
        Some(digest) => digest,
        None => panic!("not a digest: {letter}"),
    }
}

fn lineage(model: &str) -> ModelLineage {
    ModelLineage {
        backend_id: text("backend"),
        model_id: text(model),
        deployment_id: Text {
            value: format!("deployment-{model}"),
        },
        independence_domain_id: Text {
            value: format!("domain-{model}"),
        },
    }
}

fn model(name: &str) -> BackendModelRef {
    BackendModelRef {
        backend_id: text("backend"),
        kind: BackendKind::Model,
        model_id: text(name),
    }
}

fn selection(name: &str) -> BackendSelection {
    BackendSelection {
        backend_id: text("backend"),
        kind: BackendKind::Model,
        model: Some(text(name)),
        reasoning_effort: None,
    }
}

fn initial_stage() -> PlannerStageContext {
    PlannerStageContext::InitialPlan {
        model_actor_id: ActorId(70),
        model_lineage: lineage("producer"),
        critic_lineage: lineage("critic"),
        execution_policy_artifact: artifact("application/root-planning-policy"),
    }
}

fn prepared() -> PlannerInferencePrepared {
    PlannerInferencePrepared {
        attempt_id: InferenceAttemptId(80),
        parent_attempt_id: None,
        plan_revision: 0,
        plan_digest: digest("0"),
        obligation_snapshot_digest: digest("1"),
        acceptance_policy_digest: digest("2"),
        context_manifest_digest: digest("3"),
        planner_policy_digest: digest("4"),
        prompt_manifest_digest: digest("5"),
        prompt_artifact: artifact("application/retained-prompt"),
        request_artifact: artifact("application/inference-request"),
        backend_model: model("producer"),
        backend_instance: Some(BackendInstanceIdentity {
            backend_id: text("backend"),
            endpoint_origin: text("http://localhost"),
            configured_deployment_id: text("deployment-producer"),
            identity_sha256: digest("6"),
        }),
        token_reservation: TokenReservation {
            id: TokenReservationId(81),
            reserved_tokens: 200,
            max_output_tokens: 100,
        },
        cancellation_generation: 0,
        stage_context: Some(initial_stage()),
        other_identities: LifecycleIdentities::none(),
    }
}

fn prepared_event() -> EventEnvelope {
    let mut event = event(12, 2, EventPayload::PlannerInferencePrepared(prepared()));
    event.causal_parent = Some(EventId(10));
    event.provenance.backend = Some(selection("producer"));
    event
}

fn prompts() -> RootPlanningPromptContracts {
    RootPlanningPromptContracts {
        initial_plan_manifest_sha256: digest("5"),
        critic_manifest_sha256: digest("7"),
        repair_manifest_sha256: digest("8"),
    }
}

fn policy() -> RootPlanningExecutionPolicy {
    RootPlanningExecutionPolicy {
        schema_version: 1,
        max_model_calls: 4,
        max_repairs: 1,
        max_review_rounds: 2,
        stage_budgets: RootPlanningStageBudgets {
            initial_plan_output_tokens: 100,
            initial_review_output_tokens: 90,
            repair_output_tokens: 80,
            final_review_output_tokens: 70,
        },
        prompt_contracts: prompts(),
        producer: lineage("producer"),
        critic: lineage("critic"),
    }
}

fn policy_reads(policy: RootPlanningExecutionPolicy) -> PolicyReads {
    PolicyReads {
        policy: Ok(policy),
        prompts: Ok(prompts()),
        lineages_are_valid: true,
    }
}

fn preparation_reads() -> PreparationReads {
    PreparationReads {
        claim_owner: Ok(()),
        lineage_is_valid: true,
        instance_is_intact: true,
        reservations_with_identity: 0,
        critic: CriticPolicyReads {
            policy: Err(StoreError::ArtifactUnavailable),
            candidate: Err(StoreError::ArtifactUnavailable),
            candidate_is_canonical: false,
            derived: Err(StoreError::ArtifactUnavailable),
            expected: Err(StoreError::ArtifactUnavailable),
        },
        policy: policy_reads(policy()),
        already_reserved: Ok(0),
    }
}

fn usage(output: u64) -> TokenUsage {
    TokenUsage {
        input_tokens: 10,
        output_tokens: output,
        total_tokens: 10 + output,
        cached_input_tokens: None,
    }
}

fn response(value: &str) -> StructuredInferenceResponse {
    StructuredInferenceResponse {
        model_id: text("producer"),
        backend_id: text("backend"),
        usage: None,
        normalized_usage: Some(usage(20)),
        raw_text: text("{ \"plan\": 1 }"),
        value: text(value),
        evidence_matches: true,
    }
}

/// What the runtime computes of the backend that the inference names.
fn backend() -> BackendNameReading {
    BackendNameReading {
        is_intact: true,
        computed: Some(digest("6")),
    }
}

fn error_from(deployment_id: &str, endpoint_matches: Option<bool>) -> RetainedInferenceEvidence {
    RetainedInferenceEvidence::Error {
        error: BackendErrorEvidence {
            origin: BackendErrorOrigin {
                backend_id: text("backend"),
                backend_instance: Some(ConfiguredBackend {
                    backend_id: text("backend"),
                    origin: text("http://localhost"),
                    deployment_id: text(deployment_id),
                    identity_sha256: digest("6"),
                }),
                endpoint_matches,
            },
            structured_inference: true,
            kind: PlannerInferenceErrorKind::Timeout,
            retry: RetryDisposition::RequiresNewAttempt,
        },
    }
}

fn failed(kind: PlannerInferenceErrorKind, retry: RetryDisposition) -> PlannerInferenceError {
    PlannerInferenceError { kind, retry }
}

fn error_of(observation: PlannerInferenceObservation) -> PlannerInferenceError {
    match observation {
        PlannerInferenceObservation::Failed { error } => error,
        PlannerInferenceObservation::Succeeded { .. } => panic!("expected a failure"),
    }
}

#[test]
fn failure_reasons_belong_to_phases() {
    assert!(valid_root_planning_failure_classification(
        RootPlanningFailurePhase::Preflight,
        RootPlanningFailureReason::InvalidWallDeadline
    ));
    assert!(!valid_root_planning_failure_classification(
        RootPlanningFailurePhase::Preflight,
        RootPlanningFailureReason::DiscoveryTimedOut
    ));
    assert!(valid_root_planning_failure_classification(
        RootPlanningFailurePhase::ModelDiscovery,
        RootPlanningFailureReason::SelectedModelUnavailable
    ));
    assert!(!valid_root_planning_failure_classification(
        RootPlanningFailurePhase::ModelDiscovery,
        RootPlanningFailureReason::DurableStateConflict
    ));
    assert!(valid_root_planning_failure_classification(
        RootPlanningFailurePhase::PromptPreparation,
        RootPlanningFailureReason::DurableStateConflict
    ));
}

#[test]
fn stage_failures_belong_to_stages() {
    assert!(valid_stage_failure_classification(
        RootPlanningStage::FinalReview,
        RootPlanningStageFailureReason::IndependentReviewerUnavailable
    ));
    assert!(!valid_stage_failure_classification(
        RootPlanningStage::Repair,
        RootPlanningStageFailureReason::IndependentReviewerUnavailable
    ));
    assert!(valid_stage_failure_classification(
        RootPlanningStage::InitialPlan,
        RootPlanningStageFailureReason::WallDeadlineExceeded
    ));
    assert!(!valid_stage_failure_classification(
        RootPlanningStage::InitialPlan,
        RootPlanningStageFailureReason::ConfigurationDrift
    ));
}

fn failure_event() -> EventEnvelope {
    let mut event = event(11, 2, EventPayload::RootPlanningFailed(failure()));
    event.causal_parent = Some(EventId(10));
    event.provenance.backend = Some(BackendSelection {
        backend_id: text("backend"),
        kind: BackendKind::Model,
        model: None,
        reasoning_effort: None,
    });
    event.provenance.raw_artifact = Some(artifact("application/root-planning-failure"));
    event
}

fn failure_evidence() -> RetainedRootPlanningFailureEvidence {
    RetainedRootPlanningFailureEvidence {
        schema_version: 1,
        run_id: RunId(2),
        claim_event_id: EventId(10),
        claim_id: RunClaimId(50),
        phase: RootPlanningFailurePhase::Preflight,
        reason: RootPlanningFailureReason::InvalidWallDeadline,
        model_subject: None,
    }
}

#[test]
fn planning_fails_under_its_claim_with_its_evidence() {
    let store = store(RunPurpose::RootPlanningV1, vec![claim(10, 1, 1)]);
    let owner = claim(10, 1, 1);
    let check = |event: &EventEnvelope,
                 failure: &RootPlanningFailed,
                 evidence: Result<RetainedRootPlanningFailureEvidence, StoreError>| {
        validate_root_planning_failed(&store, event, failure, Ok(&owner), &evidence)
    };
    assert_eq!(check(&failure_event(), &failure(), Ok(failure_evidence())), Ok(()));
    assert_eq!(
        check(&failure_event(), &failure(), Err(StoreError::ArtifactUnavailable)),
        Err(StoreError::ArtifactUnavailable)
    );
    let mut other_claim = failure();
    other_claim.claim_id = RunClaimId(9);
    assert_eq!(
        check(&failure_event(), &other_claim, Ok(failure_evidence())),
        Err(StoreError::InvalidStateEvent)
    );
    let mut other_reason = failure_evidence();
    other_reason.reason = RootPlanningFailureReason::WallDeadlineExceeded;
    assert_eq!(
        check(&failure_event(), &failure(), Ok(other_reason)),
        Err(StoreError::InvalidStateEvent)
    );
    let mut stray = failure_event();
    stray.causal_parent = None;
    assert_eq!(
        check(&stray, &failure(), Ok(failure_evidence())),
        Err(StoreError::InvalidStateEvent)
    );
}

#[test]
fn planning_fails_once() {
    let store = store(RunPurpose::RootPlanningV1, vec![claim(10, 1, 1), failure_event()]);
    let mut again = failure_event();
    again.id = EventId(12);
    again.sequence = 3;
    again.causal_parent = Some(EventId(11));
    let owner = claim(10, 1, 1);
    assert_eq!(
        validate_root_planning_failed(
            &store,
            &again,
            &failure(),
            Ok(&owner),
            &Ok(failure_evidence())
        ),
        Err(StoreError::InvalidStateEvent)
    );
    assert_eq!(root_planning_failure_count(&store.log, SessionId(1), RunId(2)), 1);
    assert_eq!(root_planning_stage_failure_count(&store.log, SessionId(1), RunId(2)), 0);
}

#[test]
fn critic_shares_neither_actor_nor_domain_nor_model() {
    let stage = initial_stage();
    assert_eq!(
        validate_reviewer_independence(ActorId(71), &lineage("critic"), &stage),
        Ok(())
    );
    assert_eq!(
        validate_reviewer_independence(ActorId(70), &lineage("critic"), &stage),
        Err(StoreError::InvalidStateEvent)
    );
    let mut same_domain = lineage("critic");
    same_domain.independence_domain_id = text("domain-producer");
    assert_eq!(
        validate_reviewer_independence(ActorId(71), &same_domain, &stage),
        Err(StoreError::InvalidStateEvent)
    );
    let mut same_model = lineage("producer");
    same_model.independence_domain_id = text("elsewhere");
    assert_eq!(
        validate_reviewer_independence(ActorId(71), &same_model, &stage),
        Err(StoreError::InvalidStateEvent)
    );
}

#[test]
fn policy_names_model_budget_and_prompt_of_each_stage() {
    let policy = policy();
    assert_eq!(
        policy_lineage(&policy, PlannerStageKind::Repair).model_id.value,
        "producer"
    );
    assert_eq!(
        policy_lineage(&policy, PlannerStageKind::FinalReview).model_id.value,
        "critic"
    );
    assert_eq!(policy_budget(&policy.stage_budgets, PlannerStageKind::InitialReview), 90);
    assert_eq!(policy_budget(&policy.stage_budgets, PlannerStageKind::FinalReview), 70);
    assert_eq!(
        policy_prompt(&policy.prompt_contracts, PlannerStageKind::Repair)
            .as_text()
            .value,
        "8".repeat(64)
    );
}

#[test]
fn stage_runs_under_the_policy() {
    let contract = contract();
    let stage = initial_stage();
    let check = |prepared: &PlannerInferencePrepared, limit: Option<u64>, reads: PolicyReads| {
        validate_stage_execution_policy(&contract, prepared, &stage, limit, &reads)
    };
    assert_eq!(check(&prepared(), Some(340), policy_reads(policy())), Ok(()));
    assert_eq!(check(&prepared(), None, policy_reads(policy())), Ok(()));
    assert_eq!(
        check(&prepared(), Some(339), policy_reads(policy())),
        Err(StoreError::InvalidStateEvent)
    );
    let mut generous = policy();
    generous.stage_budgets.repair_output_tokens = 101;
    assert_eq!(
        check(&prepared(), None, policy_reads(generous)),
        Err(StoreError::InvalidStateEvent)
    );
    let mut over_budget = prepared();
    over_budget.token_reservation.max_output_tokens = 99;
    assert_eq!(
        check(&over_budget, None, policy_reads(policy())),
        Err(StoreError::InvalidStateEvent)
    );
    let mut unreadable = policy_reads(policy());
    unreadable.policy = Err(StoreError::ArtifactUnavailable);
    assert_eq!(check(&prepared(), None, unreadable), Err(StoreError::ArtifactUnavailable));
    let mut unread_prompts = policy_reads(policy());
    unread_prompts.prompts = Err(StoreError::ArtifactUnavailable);
    assert_eq!(
        check(&prepared(), None, unread_prompts),
        Err(StoreError::InvalidStateEvent)
    );
}

#[test]
fn stages_come_in_order() {
    assert!(stages_before(PlannerStageKind::InitialPlan).is_empty());
    assert_eq!(
        stages_before(PlannerStageKind::FinalReview),
        vec![
            PlannerStageKind::InitialPlan,
            PlannerStageKind::InitialReview,
            PlannerStageKind::Repair
        ]
    );
}

#[test]
fn first_inference_is_prepared_for_the_initial_plan() {
    let store_before = store(RunPurpose::RootPlanningV1, vec![claim(10, 1, 1)]);
    assert_eq!(
        validate_planner_inference_prepared(
            &store_before,
            &prepared_event(),
            &prepared(),
            &preparation_reads()
        ),
        Ok(())
    );
    let mut reserved = preparation_reads();
    reserved.already_reserved = Ok(301);
    assert_eq!(
        validate_planner_inference_prepared(
            &store_before,
            &prepared_event(),
            &prepared(),
            &reserved
        ),
        Err(StoreError::InvalidStateEvent)
    );
    let mut lost = preparation_reads();
    lost.claim_owner = Err(StoreError::InvalidStateEvent);
    assert_eq!(
        validate_planner_inference_prepared(&store_before, &prepared_event(), &prepared(), &lost),
        Err(StoreError::InvalidStateEvent)
    );
    let mut used = preparation_reads();
    used.reservations_with_identity = 1;
    assert_eq!(
        validate_planner_inference_prepared(&store_before, &prepared_event(), &prepared(), &used),
        Err(StoreError::InvalidStateEvent)
    );
    let twice = store(RunPurpose::RootPlanningV1, vec![claim(10, 1, 1), prepared_event()]);
    let mut second = prepared_event();
    second.id = EventId(13);
    second.sequence = 3;
    second.causal_parent = Some(EventId(12));
    assert_eq!(
        validate_planner_inference_prepared(&twice, &second, &prepared(), &preparation_reads()),
        Err(StoreError::InvalidStateEvent)
    );
}

#[test]
fn observation_follows_the_evidence() {
    let evidence = |response: StructuredInferenceResponse| RetainedInferenceEvidence::Response {
        response,
    };
    match expected_observation_from_evidence(
        &prepared(),
        &evidence(response("{\"plan\":1}")),
        &backend(),
    ) {
        PlannerInferenceObservation::Succeeded {
            reported_backend_model,
            token_usage,
        } => {
            assert_eq!(reported_backend_model.model_id.value, "producer");
            assert_eq!(token_usage, usage(20));
        }
        PlannerInferenceObservation::Failed { .. } => panic!("expected a success"),
    }
    let violation =
        failed(PlannerInferenceErrorKind::ProtocolViolation, RetryDisposition::Never);
    assert_eq!(
        error_of(expected_observation_from_evidence(
            &prepared(),
            &evidence(response("{\"plan\":2}")),
            &backend()
        )),
        violation
    );
    let mut talkative = response("{\"plan\":1}");
    talkative.normalized_usage = Some(usage(101));
    assert_eq!(
        error_of(expected_observation_from_evidence(
            &prepared(),
            &evidence(talkative),
            &backend()
        )),
        violation
    );
    assert_eq!(
        error_of(expected_observation_from_evidence(
            &prepared(),
            &RetainedInferenceEvidence::CancelledBeforeCall,
            &backend()
        )),
        failed(PlannerInferenceErrorKind::Cancelled, RetryDisposition::Never)
    );
    assert_eq!(
        error_of(expected_observation_from_evidence(
            &prepared(),
            &RetainedInferenceEvidence::NotDispatched {
                reason: PlannerV2NotDispatchedReason::ClaimLost,
            },
            &backend()
        )),
        failed(PlannerInferenceErrorKind::Cancelled, RetryDisposition::RequiresNewAttempt)
    );
    assert_eq!(
        error_of(expected_observation_from_evidence(
            &prepared(),
            &error_from("deployment-producer", Some(true)),
            &backend()
        )),
        failed(PlannerInferenceErrorKind::Timeout, RetryDisposition::RequiresNewAttempt)
    );
    for foreign in [
        error_from("deployment-critic", Some(true)),
        error_from("deployment-producer", Some(false)),
    ] {
        assert_eq!(
            error_of(expected_observation_from_evidence(
                &prepared(),
                &foreign,
                &backend()
            )),
            violation
        );
    }
}

#[test]
fn inference_ends_only_by_the_backend_that_it_names() {
    assert!(response_matches_prepared(&prepared(), &response("{\"plan\":1}"), &backend()));
    let mut unmatched = response("{\"plan\":1}");
    unmatched.evidence_matches = false;
    assert!(!response_matches_prepared(&prepared(), &unmatched, &backend()));
    let renamed = BackendNameReading {
        is_intact: true,
        computed: Some(digest("7")),
    };
    assert!(!response_matches_prepared(&prepared(), &response("{\"plan\":1}"), &renamed));
    assert_eq!(
        error_of(expected_observation_from_evidence(
            &prepared(),
            &error_from("deployment-producer", None),
            &renamed
        )),
        failed(PlannerInferenceErrorKind::ProtocolViolation, RetryDisposition::Never)
    );
    let mut nameless = prepared();
    nameless.backend_instance = None;
    assert!(!response_matches_prepared(&nameless, &response("{\"plan\":1}"), &backend()));
}

fn observed() -> PlannerInferenceObserved {
    PlannerInferenceObserved {
        prepared_event_id: EventId(12),
        attempt_id: InferenceAttemptId(80),
        token_reservation_id: TokenReservationId(81),
        outcome: PlannerInferenceObservation::Succeeded {
            reported_backend_model: model("producer"),
            token_usage: usage(20),
        },
        normalized_complete_evidence_artifact: artifact("application/inference-evidence"),
        other_identities: LifecycleIdentities::none(),
    }
}

fn observed_event(id: u128, sequence: u64) -> EventEnvelope {
    let mut event = event(id, sequence, EventPayload::PlannerInferenceObserved(observed()));
    event.causal_parent = Some(EventId(12));
    event.provenance.backend = Some(selection("producer"));
    event.provenance.raw_artifact = Some(artifact("application/inference-evidence"));
    event
}

#[test]
fn inference_ends_once_and_as_it_ended() {
    let evidence = Ok(RetainedInferenceEvidence::Response {
        response: response("{\"plan\":1}"),
    });
    let open = store(RunPurpose::RootPlanningV1, vec![claim(10, 1, 1), prepared_event()]);
    let event = observed_event(13, 3);
    assert_eq!(
        validate_planner_inference_observed(
            &open,
            &event,
            &observed(),
            Ok(()),
            &evidence,
            &backend()
        ),
        Ok(())
    );
    assert_eq!(
        validate_planner_inference_observed(
            &open,
            &event,
            &observed(),
            Ok(()),
            &Ok(RetainedInferenceEvidence::CancelledBeforeCall),
            &backend()
        ),
        Err(StoreError::InvalidStateEvent)
    );
    let mut foreign = observed();
    foreign.token_reservation_id = TokenReservationId(82);
    assert_eq!(
        validate_planner_inference_observed(
            &open,
            &event,
            &foreign,
            Ok(()),
            &evidence,
            &backend()
        ),
        Err(StoreError::InvalidStateEvent)
    );
    let closed = store(
        RunPurpose::RootPlanningV1,
        vec![claim(10, 1, 1), prepared_event(), observed_event(13, 3)],
    );
    assert_eq!(
        inference_terminal_count(&closed.log, SessionId(1), RunId(2), InferenceAttemptId(80)),
        1
    );
    assert_eq!(
        validate_planner_inference_observed(
            &closed,
            &observed_event(14, 4),
            &observed(),
            Ok(()),
            &evidence,
            &backend()
        ),
        Err(StoreError::InvalidStateEvent)
    );
}

#[test]
fn unknown_outcome_names_its_boundary() {
    let open = store(RunPurpose::RootPlanningV1, vec![claim(10, 1, 1), prepared_event()]);
    let unknown = PlannerInferenceOutcomeUnknown {
        prepared_event_id: EventId(12),
        attempt_id: InferenceAttemptId(80),
        token_reservation_id: TokenReservationId(81),
        cancellation_generation: 0,
        reason: UnknownInferenceOutcomeReason::RuntimeRestartedBeforeObservation,
        other_identities: LifecycleIdentities::none(),
    };
    let mut event = event(
        13,
        3,
        EventPayload::PlannerInferenceOutcomeUnknown(unknown.clone()),
    );
    event.causal_parent = Some(EventId(12));
    event.provenance.backend = Some(selection("producer"));
    event.provenance.raw_artifact = Some(artifact("application/cancellation-boundary"));
    let boundary = |reason: UnknownInferenceBoundary| {
        Ok(RetainedCancellationBoundaryEvidence {
            prepared_event_id: EventId(12),
            cancellation_generation: 0,
            reason,
        })
    };
    assert_eq!(
        validate_planner_inference_unknown(
            &open,
            &event,
            &unknown,
            Ok(()),
            &boundary(UnknownInferenceBoundary::Restart)
        ),
        Ok(())
    );
    assert_eq!(
        validate_planner_inference_unknown(
            &open,
            &event,
            &unknown,
            Ok(()),
            &boundary(UnknownInferenceBoundary::ClaimRenewalFailed)
        ),
        Err(StoreError::InvalidStateEvent)
    );
    assert!(reason_fits_boundary(
        UnknownInferenceOutcomeReason::RuntimeRestartedBeforeObservation,
        UnknownInferenceBoundary::Cancelled
    ));
}

#[test]
fn prompt_errors_name_the_rejection() {
    let reason = |class: RootPlannerRejectionClass| {
        root_planner_rejection_reason(&PromptError {
            class,
            message: text("refused"),
        })
    };
    assert_eq!(
        reason(RootPlannerRejectionClass::InvalidSchema),
        PlanProposalRejectionReason::InvalidSchema
    );
    assert_eq!(
        reason(RootPlannerRejectionClass::DependencyCycle),
        PlanProposalRejectionReason::DependencyCycle
    );
    assert_eq!(
        reason(RootPlannerRejectionClass::PolicyLimitExceeded),
        PlanProposalRejectionReason::PolicyLimitExceeded
    );
}

#[test]
fn verdicts_carry_over() {
    assert_eq!(
        validated_verdict(PlanCriticVerdict::Accept),
        PlanSemanticReviewValidatedVerdict::Accept
    );
    assert_eq!(
        validated_verdict(PlanCriticVerdict::Escalate),
        PlanSemanticReviewValidatedVerdict::Escalate
    );
}

#[test]
fn plan_base_is_the_latest_accepted_plan() {
    let accepted = PlanProposalAccepted {
        proposal_id: PlanProposalId(40),
        inference_attempt_id: InferenceAttemptId(80),
        observed_event_id: EventId(13),
        previous_plan_revision: 0,
        previous_plan_digest: digest("0"),
        accepted_plan_revision: 1,
        accepted_plan_digest: digest("9"),
        proposal_artifact: artifact("application/plan-proposal"),
        accepted_plan_artifact: artifact("application/accepted-plan"),
        validation_evidence_artifact: artifact("application/plan-validation"),
        other_identities: LifecycleIdentities::none(),
    };
    let log = log(vec![
        claim(10, 1, 1),
        event(14, 2, EventPayload::PlanProposalAccepted(accepted)),
    ]);
    let (session, run) = (SessionId(1), RunId(2));
    assert_eq!(current_plan_base(&log, session, run).map(|base| base.0), Some(1));
    assert_eq!(
        require_current_plan_base(&log, session, run, 1, &digest("9"), true),
        Ok(())
    );
    assert_eq!(
        require_current_plan_base(&log, session, run, 0, &digest("0"), true),
        Err(StoreError::InvalidStateEvent)
    );
    assert_eq!(
        require_current_plan_base(&log, session, run, 1, &digest("8"), true),
        Err(StoreError::InvalidStateEvent)
    );
}

#[test]
fn backend_names_lead_back() {
    let configured = ConfiguredBackend {
        backend_id: text("backend"),
        origin: text("http://localhost"),
        deployment_id: text("deployment"),
        identity_sha256: digest("6"),
    };
    let named = match protocol_backend_instance_identity(&configured, true, &Some(digest("6"))) {
        Ok(named) => named,
        Err(error) => panic!("{error:?}"),
    };
    assert_eq!(named.endpoint_origin.value, "http://localhost");
    let back = match backend_instance_from_protocol_identity(&named, &backend()) {
        Ok(back) => back,
        Err(error) => panic!("{error:?}"),
    };
    assert_eq!(back.deployment_id.value, "deployment");
    assert!(protocol_backend_instance_identity(&configured, false, &Some(digest("6"))).is_err());
    assert!(protocol_backend_instance_identity(&configured, true, &Some(digest("7"))).is_err());
    assert!(protocol_backend_instance_identity(&configured, true, &None).is_err());
    let origin = |named: bool, endpoint_matches: Option<bool>| BackendErrorOrigin {
        backend_id: text("backend"),
        backend_instance: if named {
            Some(ConfiguredBackend {
                backend_id: text("backend"),
                origin: text("http://localhost"),
                deployment_id: text("deployment"),
                identity_sha256: digest("6"),
            })
        } else {
            None
        },
        endpoint_matches,
    };
    let matches = |origin: BackendErrorOrigin| {
        error_matches_protocol_backend_instance(&named, &backend(), &origin)
    };
    assert!(matches(origin(true, None)));
    assert!(matches(origin(true, Some(true))));
    assert!(!matches(origin(true, Some(false))));
    assert!(!matches(origin(false, None)));
    assert!(response_matches_protocol_backend_instance(&named, &backend(), true));
    assert!(!response_matches_protocol_backend_instance(&named, &backend(), false));
    let broken = BackendNameReading {
        is_intact: false,
        computed: Some(digest("6")),
    };
    assert!(!response_matches_protocol_backend_instance(&named, &broken, true));
    assert!(!error_matches_protocol_backend_instance(&named, &broken, &origin(true, None)));
}

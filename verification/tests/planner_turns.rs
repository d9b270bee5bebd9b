//! Planner turns: how they end, what comes next and what they select.

use birdcode_store::artifact::{
    ArtifactRef, BackendInstanceIdentity, BackendKind, BackendModelRef, BackendSelection,
    ModelLineage, Provenance,
};
use birdcode_store::clock::{RuntimeClockReading, Timestamp};
use birdcode_store::contract::{
    Contract, ContractVersions, MediaTypes, PlanningPurposes, Producers, PromptKeys,
    ReconnaissanceLimits, RootPlanningPolicyLimits,
};
use birdcode_store::digest::Sha256Digest;
use birdcode_store::error::StoreError;
use birdcode_store::event::{EventEnvelope, EventPayload};
use birdcode_store::history::EventLog;
use birdcode_store::identity::{
    ActorId, CancellationRequestId, EventId, PlannerDelegateDirectiveId, PlannerEvidenceEntryId,
    PlannerTurnId, RunClaimId, RunId, RuntimeInstanceId, SessionId, TokenReservationId,
};
use birdcode_store::inference_identity::{
    BackendErrorOrigin, BackendNameReading, ConfiguredBackend,
};
use birdcode_store::planner_prompt::{
    PlannerPlanWorkOrderV2, PlannerReplannerV2PlanSnapshot, PlannerReplannerV2Reasoning,
};
use birdcode_store::planner_turn::{
    PlannerBasePlanBindingV1, PlannerEvidenceBindingV2, PlannerEvidenceDeltaV2,
    PlannerEvidencePacketV2, PlannerOutputBudgetV1, PlannerPromptWorkSelectionV1,
    PlannerTurnObservationV1, PlannerTurnObservedV1, PlannerTurnPreparedV1, PlannerTurnPurposeV1,
    PlannerTurnRejectionReasonV1, PlannerTurnUnknownV1,
};
use birdcode_store::planner_v2_classification::{
    plan_violation_rejection, prompting_invariant_rejection, serialized_violation_entries,
    strongest_planner_rejection, LocalWorkOrder, PlannerReplannerV2InvariantViolation,
    PlannerViolation,
};
use birdcode_store::planner_v2_decision::{
    planner_turn_decision_count, planner_v2_observed_response, run_finalization_evidence,
};
use birdcode_store::planner_v2_directive::{
    fresh_planner_delegate_directive_id, persist_planner_work_order_binding,
    planner_work_order_binding, resolve_planner_work_selection, WrittenWorkOrder,
};
use birdcode_store::planner_v2_evidence::{
    newly_available_bindings, prompting_planner_purpose, prompting_v2_purpose_matches,
};
use birdcode_store::planner_v2_history::{planner_v2_terminal_authorizes_retry, ReplayedPlannerTurn};
use birdcode_store::planner_v2_replay_projection::{
    planner_next_action, planner_v2_retry_has_capacity, PlannerNextAction, ReconReads,
};
use birdcode_store::planner_v2_request::planner_prompt_reasoning_setting;
use birdcode_store::planner_v2_terminal::{
    planner_terminal_claim_continuity, planner_terminal_clock_follows_prepared,
    planner_turn_terminal_count, planner_v2_cancellation_cause,
    planner_v2_cancellation_cause_before, planner_v2_observation_from_evidence,
    planner_v2_unknown_reason, turn_reason_fits_boundary, validate_existing_planner_v2_finalization,
    validate_existing_planner_v2_observation, validate_existing_planner_v2_unknown,
    validate_planner_turn_observed_v1, validate_planner_turn_unknown_v1,
    PlannerTerminalClaimContinuity, PlannerTerminalClockBoundary, PlannerV2FinalizationAuthority,
    PlannerV2FinalizationDisposition, PlannerV2ObservationAuthority, PlannerV2UnknownAuthority,
};
use birdcode_store::planning::{
    PlannerInferenceError, PlannerInferenceErrorKind, UnknownInferenceBoundary,
    UnknownInferenceOutcomeReason,
};
use birdcode_store::retained::{
    BackendErrorEvidence, RetainedCancellationBoundaryEvidence, RetainedInferenceEvidence,
    RetainedPlannerV2TerminalDisposition, StructuredInferenceResponse,
};
use birdcode_store::run::{
    CancellationRequested, PlanAcceptanceContract, ReasoningSetting, RetryDisposition, Run,
    RunClaimed, RunLimits, RunPurpose, RunSpec, RunState, Session, TokenReservation, TokenUsage,
};
use birdcode_store::store::{RunStateRow, Store};
use birdcode_store::text::Text;

fn text(value: &str) -> Text {
    Text {
        value: value.to_owned(),
    }
}

fn contract() -> Contract {
    Contract {
        media: MediaTypes {
            root_planning_failure: text("application/root-planning-failure"),
            root_planning_stage_failure: text("application/root-planning-stage-failure"),
            root_planning_execution_policy: text("application/root-planning-policy"),
            plan_critic_policy: text("application/plan-critic-policy"),
            plan_critique: text("application/plan-critique"),
            plan_critique_validation: text("application/plan-critique-validation"),
            plan_proposal: text("application/plan-proposal"),
            plan_validation: text("application/plan-validation"),
            accepted_plan: text("application/accepted-plan"),
            retained_prompt: text("application/retained-prompt"),
            inference_request: text("application/inference-request"),
            inference_evidence: text("application/inference-evidence"),
            cancellation_boundary: text("application/cancellation-boundary"),
            planner_plan_v2: text("application/planner-plan"),
            planner_prompt_manifest_v2: text("application/planner-prompt-manifest"),
            planner_work_order_v2: text("application/planner-work-order"),
            planner_prompt_output_v2: text("application/planner-prompt-output"),
            planner_prompt_evidence_packet_v2: text("application/planner-prompt-packet"),
            planner_prompt_evidence_delta_v2: text("application/planner-prompt-delta"),
            planner_durable_evidence_packet_v2: text("application/planner-durable-packet"),
            planner_durable_evidence_delta_v2: text("application/planner-durable-delta"),
            planner_v2_finalization_evidence: text("application/planner-finalization"),
            child_execution_failure: text("application/child-failure"),
            child_handoff: text("application/child-handoff"),
            snapshot_lease: text("application/snapshot-lease"),
            cleanup_safety_evidence: text("application/cleanup-safety"),
            cleanup_process_inspection: text("application/cleanup-process"),
            cleanup_initial_inspection: text("application/cleanup-initial"),
            cleanup_topology_inspection: text("application/cleanup-topology"),
            hdiutil_info: text("application/hdiutil-info"),
            command_stderr: text("application/command-stderr"),
        },
        versions: ContractVersions {
            snapshot_cleanup: 1,
            snapshot_recovery_v2: 2,
            planner_turn: 1,
            planner_evidence: 2,
            child_reconnaissance: 1,
        },
        planning: RootPlanningPolicyLimits {
            schema_version: 1,
            max_model_calls: 4,
            max_repairs: 1,
            max_review_rounds: 2,
            initial_plan_max_output_tokens: 100,
            initial_review_max_output_tokens: 100,
            repair_max_output_tokens: 100,
            final_review_max_output_tokens: 100,
        },
        recon: ReconnaissanceLimits {
            max_planner_turns: 8,
            planner_attempts_per_stage: 2,
            max_planner_output_tokens_per_call: 100,
            max_planner_evidence_entries: 16,
            max_terminal_claim_events: 64,
        },
        producers: Producers {
            planner_preparation: text("planner-preparation"),
            planner_observation: text("planner-observation"),
            planner_unknown: text("planner-unknown"),
            planner_finalization: text("planner-finalization"),
        },
        purposes: PlanningPurposes {
            general: false,
            root_planning: true,
            reconnaissance: true,
        },
        prompts: PromptKeys {
            root_planner: text("root-planner"),
            plan_critic: text("plan-critic"),
            plan_repair: text("plan-repair"),
            planner_replanner_id: text("planner-replanner"),
            planner_replanner_version: text("2.0.0"),
        },
    }
}


fn time(seconds: i64) -> Timestamp {
    Timestamp {
        seconds,
        nanoseconds: 0,
    }
}

fn event(id: u128, sequence: u64, payload: EventPayload) -> EventEnvelope {
    EventEnvelope {
        id: EventId(id),
        sequence,
        session_id: SessionId(1),
        run_id: Some(RunId(2)),
        actor_id: ActorId(3),
        causal_parent: None,
        occurred_at: time(1_700_000_000),
        provenance: Provenance {
            producer: text("runtime"),
            backend: None,
            raw_artifact: None,
        },
        payload,
    }
}

fn claim(id: u128, sequence: u64, generation: u64) -> EventEnvelope {
    event(
        id,
        sequence,
        EventPayload::RunClaimed(RunClaimed {
            claim_id: RunClaimId(50),
            runtime_instance_id: RuntimeInstanceId(51),
            claim_generation: generation,
            cancellation_generation: 0,
            lease_expires_at: time(1_700_000_100),
        }),
    )
}

fn cancellation(id: u128, sequence: u64, generation: u64) -> EventEnvelope {
    event(
        id,
        sequence,
        EventPayload::CancellationRequested(CancellationRequested {
            cancellation_request_id: CancellationRequestId(60),
            cancellation_generation: generation,
        }),
    )
}

fn artifact(media_type: &str) -> ArtifactRef {
    ArtifactRef {
        sha256: text(&"a".repeat(64)),
        size_bytes: 10,
        media_type: text(media_type),
    }
}

fn log(events: Vec<EventEnvelope>) -> EventLog {
    match EventLog::from_events(events) {
        Ok(log) => log,
        Err(error) => panic!("not a log: {error:?}"),
    }
}

fn store(purpose: RunPurpose, events: Vec<EventEnvelope>) -> Store {
    Store {
        contract: contract(),
        log: log(events),
        sessions: vec![Session {
            id: SessionId(1),
            workspace_root: text("/repo"),
            title: None,
            created_at: time(1_699_999_000),
        }],
        runs: vec![Run {
            id: RunId(2),
            spec: RunSpec {
                session_id: SessionId(1),
                purpose,
                plan_acceptance: PlanAcceptanceContract::IndependentSemanticReviewV1,
                backend: BackendSelection {
                    backend_id: text("backend"),
                    kind: BackendKind::Model,
                    model: None,
                    reasoning_effort: None,
                },
                input: Vec::new(),
                limits: RunLimits {
                    max_output_tokens: Some(400),
                    max_wall_time_seconds: None,
                    max_subagents: 2,
                },
            },
            state: RunState::Queued,
            created_at: time(1_699_999_000),
        }],
        run_states: vec![RunStateRow {
            run_id: RunId(2),
            session_id: SessionId(1),
            state: RunState::Running,
            state_sequence: 2,
        }],
    }
}


fn digest(letter: &str) -> Sha256Digest {
    match Sha256Digest::parse(&text(&letter.repeat(64))) {
        Some(digest) => digest,
        None => panic!("not a digest: {letter}"),
    }
}

fn clock(nanos: u64, seconds: i64) -> RuntimeClockReading {
    RuntimeClockReading {
        runtime_instance_id: RuntimeInstanceId(51),
        monotonic_nanos: nanos,
        observed_at: time(seconds),
    }
}

fn base_plan() -> PlannerBasePlanBindingV1 {
    PlannerBasePlanBindingV1 {
        accepted_event_id: EventId(9),
        revision: 1,
        digest: digest("a"),
        artifact: artifact("application/planner-plan"),
    }
}

fn packet() -> PlannerEvidencePacketV2 {
    PlannerEvidencePacketV2 {
        schema_version: 2,
        purpose: PlannerTurnPurposeV1::InitialDelegation,
        context_manifest_digest: digest("3"),
        entries: Vec::new(),
    }
}

fn delta() -> PlannerEvidenceDeltaV2 {
    PlannerEvidenceDeltaV2 {
        schema_version: 2,
        purpose: PlannerTurnPurposeV1::InitialDelegation,
        previous_packet_digest: None,
        previous_evidence: Vec::new(),
        newly_available: Vec::new(),
        delta_digest: digest("4"),
    }
}

fn prepared() -> PlannerTurnPreparedV1 {
    PlannerTurnPreparedV1 {
        schema_version: 1,
        turn_id: PlannerTurnId(70),
        purpose: PlannerTurnPurposeV1::InitialDelegation,
        claim_event_id: EventId(10),
        claim_id: RunClaimId(50),
        claim_generation: 1,
        claim_runtime_instance_id: RuntimeInstanceId(51),
        cancellation_generation: 0,
        base_plan: base_plan(),
        obligation_snapshot_digest: digest("1"),
        acceptance_policy_digest: digest("2"),
        context_manifest_digest: digest("3"),
        planner_policy_digest: digest("5"),
        durable_evidence_packet: packet(),
        durable_evidence_packet_digest: digest("6"),
        durable_evidence_packet_artifact: artifact("application/planner-durable-packet"),
        durable_evidence_delta: delta(),
        durable_evidence_delta_digest: digest("4"),
        durable_evidence_delta_artifact: artifact("application/planner-durable-delta"),
        prompt_evidence_packet_digest: digest("7"),
        prompt_evidence_packet_artifact: artifact("application/planner-prompt-packet"),
        prompt_evidence_delta_digest: digest("8"),
        prompt_evidence_delta_artifact: artifact("application/planner-prompt-delta"),
        backend_model: BackendModelRef {
            backend_id: text("backend"),
            kind: BackendKind::Model,
            model_id: text("planner"),
        },
        backend_instance: BackendInstanceIdentity {
            backend_id: text("backend"),
            endpoint_origin: text("http://localhost"),
            configured_deployment_id: text("deployment"),
            identity_sha256: digest("9"),
        },
        model_lineage: ModelLineage {
            backend_id: text("backend"),
            model_id: text("planner"),
            deployment_id: text("deployment"),
            independence_domain_id: text("domain"),
        },
        reasoning: None,
        prompt_manifest_digest: digest("a"),
        prompt_manifest_artifact: artifact("application/planner-prompt-manifest"),
        prompt_digest: digest("b"),
        prompt_artifact: artifact("application/retained-prompt"),
        request_digest: digest("c"),
        request_artifact: artifact("application/inference-request"),
        token_reservation: TokenReservation {
            id: TokenReservationId(81),
            reserved_tokens: 200,
            max_output_tokens: 100,
        },
        output_budget: PlannerOutputBudgetV1 {
            max_total_reserved_output_tokens: 400,
            max_output_tokens_per_call: 100,
        },
        prepared_at: clock(5, 1_699_999_990),
    }
}

fn prepared_event(id: u128, sequence: u64) -> EventEnvelope {
    event(id, sequence, EventPayload::PlannerTurnPreparedV1(prepared()))
}

fn planner_selection() -> BackendSelection {
    BackendSelection {
        backend_id: text("backend"),
        kind: BackendKind::Model,
        model: Some(text("planner")),
        reasoning_effort: None,
    }
}

fn usage() -> TokenUsage {
    TokenUsage {
        input_tokens: 10,
        output_tokens: 20,
        total_tokens: 30,
        cached_input_tokens: None,
    }
}

fn response(value: &str) -> RetainedInferenceEvidence {
    RetainedInferenceEvidence::Response {
        response: StructuredInferenceResponse {
            model_id: text("planner"),
            backend_id: text("backend"),
            usage: None,
            normalized_usage: Some(usage()),
            raw_text: text("{ \"turn\": [1, 2] }"),
            value: text(value),
            evidence_matches: true,
        },
    }
}

/// What the runtime computes of the backend that the turn names.
fn backend() -> BackendNameReading {
    BackendNameReading {
        is_intact: true,
        computed: Some(digest("9")),
    }
}

fn error_from(instance: Option<ConfiguredBackend>) -> RetainedInferenceEvidence {
    RetainedInferenceEvidence::Error {
        error: BackendErrorEvidence {
            origin: BackendErrorOrigin {
                backend_id: text("backend"),
                backend_instance: instance,
                endpoint_matches: None,
            },
            structured_inference: true,
            kind: PlannerInferenceErrorKind::Timeout,
            retry: RetryDisposition::RequiresNewAttempt,
        },
    }
}

fn configured(deployment_id: &str) -> ConfiguredBackend {
    ConfiguredBackend {
        backend_id: text("backend"),
        origin: text("http://localhost"),
        deployment_id: text(deployment_id),
        identity_sha256: digest("9"),
    }
}

fn success() -> PlannerTurnObservationV1 {
    PlannerTurnObservationV1::Succeeded {
        reported_backend_model: prepared().backend_model,
        token_usage: usage(),
    }
}

fn failed_turn(retry: RetryDisposition) -> PlannerTurnObservationV1 {
    PlannerTurnObservationV1::Failed {
        error: PlannerInferenceError {
            kind: PlannerInferenceErrorKind::Timeout,
            retry,
        },
    }
}

fn observed(outcome: PlannerTurnObservationV1) -> PlannerTurnObservedV1 {
    PlannerTurnObservedV1 {
        turn_id: PlannerTurnId(70),
        prepared_event_id: EventId(12),
        outcome,
        normalized_complete_evidence_artifact: artifact("application/inference-evidence"),
        observed_at: clock(9, 1_699_999_995),
    }
}

fn observed_event(id: u128, sequence: u64, outcome: PlannerTurnObservationV1) -> EventEnvelope {
    let mut event = event(id, sequence, EventPayload::PlannerTurnObservedV1(observed(outcome)));
    event.causal_parent = Some(EventId(12));
    event.provenance.backend = Some(planner_selection());
    event.provenance.raw_artifact = Some(artifact("application/inference-evidence"));
    event
}

fn unknown(boundary: UnknownInferenceBoundary) -> PlannerTurnUnknownV1 {
    PlannerTurnUnknownV1 {
        turn_id: PlannerTurnId(70),
        prepared_event_id: EventId(12),
        boundary,
        reason: planner_v2_unknown_reason(boundary),
        cancellation: None,
        boundary_evidence_artifact: artifact("application/cancellation-boundary"),
        boundary_at: clock(9, 1_699_999_995),
    }
}

fn unknown_event(boundary: UnknownInferenceBoundary) -> EventEnvelope {
    let mut event = event(13, 3, EventPayload::PlannerTurnUnknownV1(unknown(boundary)));
    event.causal_parent = Some(EventId(12));
    event.provenance.backend = Some(planner_selection());
    event.provenance.raw_artifact = Some(artifact("application/cancellation-boundary"));
    event
}

fn prepared_store() -> Store {
    store(
        RunPurpose::ParallelRepositoryReconnaissanceV1,
        vec![claim(10, 1, 1), prepared_event(12, 2)],
    )
}

fn error_of(observation: PlannerTurnObservationV1) -> PlannerInferenceError {
    match observation {
        PlannerTurnObservationV1::Failed { error } => error,
        PlannerTurnObservationV1::Succeeded { .. } => panic!("expected a failure"),
    }
}

#[test]
fn response_is_taken_as_the_value_that_its_text_reads_as() {
    match planner_v2_observation_from_evidence(
        &prepared(),
        &response("{\"turn\":[1,2]}"),
        true,
        &backend(),
    ) {
        PlannerTurnObservationV1::Succeeded { token_usage, .. } => {
            assert_eq!(token_usage, usage());
        }
        PlannerTurnObservationV1::Failed { .. } => panic!("expected a success"),
    }
    for (value, usage_is_valid) in [
        ("{\"turn\":[2,1]}", true),
        ("not json", true),
        ("{\"turn\":[1,2]}", false),
    ] {
        let observation = planner_v2_observation_from_evidence(
            &prepared(),
            &response(value),
            usage_is_valid,
            &backend(),
        );
        assert_eq!(error_of(observation).kind, PlannerInferenceErrorKind::ProtocolViolation);
    }
}

#[test]
fn turn_ends_only_by_the_backend_that_it_names() {
    let observe = |evidence: &RetainedInferenceEvidence, backend: &BackendNameReading| {
        planner_v2_observation_from_evidence(&prepared(), evidence, true, backend)
    };
    let own = error_from(Some(configured("deployment")));
    assert_eq!(
        error_of(observe(&own, &backend())).kind,
        PlannerInferenceErrorKind::Timeout
    );
    let mut unmatched = response("{\"turn\":[1,2]}");
    if let RetainedInferenceEvidence::Response { response } = &mut unmatched {
        response.evidence_matches = false;
    }
    for foreign in [
        error_from(Some(configured("another-deployment"))),
        error_from(None),
        unmatched,
    ] {
        assert_eq!(
            error_of(observe(&foreign, &backend())).kind,
            PlannerInferenceErrorKind::ProtocolViolation
        );
    }
    for unsound in [
        BackendNameReading {
            is_intact: false,
            computed: Some(digest("9")),
        },
        BackendNameReading {
            is_intact: true,
            computed: Some(digest("8")),
        },
        BackendNameReading {
            is_intact: true,
            computed: None,
        },
    ] {
        for evidence in [&own, &response("{\"turn\":[1,2]}")] {
            assert_eq!(
                error_of(observe(evidence, &unsound)).kind,
                PlannerInferenceErrorKind::ProtocolViolation
            );
        }
    }
}

#[test]
fn turn_is_observed_by_the_runtime_that_prepared_it() {
    let store = prepared_store();
    let evidence = Ok(response("{\"turn\":[1,2]}"));
    let event = observed_event(13, 3, success());
    assert_eq!(
        validate_planner_turn_observed_v1(
            &store,
            &event,
            &observed(success()),
            &evidence,
            true,
            &backend()
        ),
        Ok(())
    );
    let mut foreign = observed(success());
    foreign.observed_at.runtime_instance_id = RuntimeInstanceId(52);
    assert_eq!(
        validate_planner_turn_observed_v1(
            &store,
            &event,
            &foreign,
            &evidence,
            true,
            &backend()
        ),
        Err(StoreError::InvalidStateEvent)
    );
    let mut early = observed(success());
    early.observed_at.monotonic_nanos = 4;
    assert_eq!(
        validate_planner_turn_observed_v1(
            &store,
            &event,
            &early,
            &evidence,
            true,
            &backend()
        ),
        Err(StoreError::InvalidStateEvent)
    );
    assert_eq!(
        validate_planner_turn_observed_v1(
            &store,
            &event,
            &observed(success()),
            &Err(StoreError::ArtifactUnavailable),
            true,
            &backend()
        ),
        Err(StoreError::ArtifactUnavailable)
    );
}

#[test]
fn turn_ends_once() {
    let store = store(
        RunPurpose::ParallelRepositoryReconnaissanceV1,
        vec![claim(10, 1, 1), prepared_event(12, 2), observed_event(13, 3, success())],
    );
    assert_eq!(planner_turn_terminal_count(&store.log, PlannerTurnId(70)), 1);
    assert_eq!(
        validate_planner_turn_observed_v1(
            &store,
            &observed_event(14, 4, success()),
            &observed(success()),
            &Ok(response("{\"turn\":[1,2]}")),
            true,
            &backend()
        ),
        Err(StoreError::InvalidStateEvent)
    );
    assert_eq!(planner_turn_decision_count(&store.log, PlannerTurnId(70)), 0);
}

#[test]
fn unknown_turn_keeps_its_boundary() {
    let store = prepared_store();
    let check = |boundary: UnknownInferenceBoundary, reason: UnknownInferenceBoundary| {
        validate_planner_turn_unknown_v1(
            &store,
            &unknown_event(boundary),
            &unknown(boundary),
            Ok(()),
            &Ok(RetainedCancellationBoundaryEvidence {
                prepared_event_id: EventId(12),
                cancellation_generation: 0,
                reason,
            }),
        )
    };
    let restart = UnknownInferenceBoundary::Restart;
    assert_eq!(check(restart, restart), Ok(()));
    assert_eq!(
        check(restart, UnknownInferenceBoundary::Shutdown),
        Err(StoreError::InvalidStateEvent)
    );
    let cancelled = UnknownInferenceBoundary::Cancelled;
    assert_eq!(check(cancelled, cancelled), Err(StoreError::InvalidStateEvent));
}

#[test]
fn unknown_reasons_fit_their_boundaries() {
    for boundary in [
        UnknownInferenceBoundary::Restart,
        UnknownInferenceBoundary::Shutdown,
        UnknownInferenceBoundary::ClaimRenewalFailed,
        UnknownInferenceBoundary::Deadline,
        UnknownInferenceBoundary::Cancelled,
    ] {
        assert!(turn_reason_fits_boundary(planner_v2_unknown_reason(boundary), boundary));
    }
    assert_eq!(
        planner_v2_unknown_reason(UnknownInferenceBoundary::ClaimRenewalFailed),
        UnknownInferenceOutcomeReason::ClaimExpiredBeforeObservation
    );
    assert!(!turn_reason_fits_boundary(
        UnknownInferenceOutcomeReason::RuntimeRestartedBeforeObservation,
        UnknownInferenceBoundary::Cancelled
    ));
}

#[test]
fn cancellation_cause_is_the_latest_request() {
    let log = log(vec![claim(10, 1, 1), cancellation(11, 2, 1), cancellation(13, 4, 2)]);
    let (session, run) = (SessionId(1), RunId(2));
    let cancelled = UnknownInferenceBoundary::Cancelled;
    let latest = planner_v2_cancellation_cause(&log, session, run, cancelled);
    assert_eq!(latest.map(|cause| cause.map(|cause| cause.request_event_id.0)), Ok(Some(13)));
    let earlier = planner_v2_cancellation_cause_before(&log, session, run, cancelled, 4);
    assert_eq!(
        earlier.map(|cause| cause.map(|cause| cause.cancellation_generation)),
        Ok(Some(1))
    );
    assert!(matches!(
        planner_v2_cancellation_cause_before(&log, session, run, cancelled, 2),
        Err(StoreError::InvalidStateEvent)
    ));
    assert!(matches!(
        planner_v2_cancellation_cause(&log, session, run, UnknownInferenceBoundary::Deadline),
        Ok(None)
    ));
}

#[test]
fn clocks_of_two_runtimes_meet_only_at_a_restart() {
    let prepared_at = clock(5, 100);
    let mut elsewhere = clock(1, 101);
    elsewhere.runtime_instance_id = RuntimeInstanceId(99);
    let observed = PlannerTerminalClockBoundary::Observed;
    let restart = PlannerTerminalClockBoundary::Unknown(UnknownInferenceBoundary::Restart);
    let deadline = PlannerTerminalClockBoundary::Unknown(UnknownInferenceBoundary::Deadline);
    assert!(planner_terminal_clock_follows_prepared(&prepared_at, &clock(5, 100), observed));
    assert!(!planner_terminal_clock_follows_prepared(&prepared_at, &clock(4, 101), observed));
    assert!(!planner_terminal_clock_follows_prepared(&prepared_at, &clock(6, 99), observed));
    assert!(!planner_terminal_clock_follows_prepared(&prepared_at, &elsewhere, observed));
    assert!(planner_terminal_clock_follows_prepared(&prepared_at, &elsewhere, restart));
    assert!(!planner_terminal_clock_follows_prepared(&prepared_at, &elsewhere, deadline));
}

#[test]
fn claim_chain_is_followed_to_the_end_of_the_turn() {
    let terminal = observed_event(20, 9, success());
    let continuity = |events: Vec<EventEnvelope>| {
        planner_terminal_claim_continuity(
            &store(RunPurpose::ParallelRepositoryReconnaissanceV1, events),
            &terminal,
            &prepared_event(12, 2),
            &prepared(),
            &clock(9, 1_699_999_995),
        )
    };
    assert_eq!(
        continuity(vec![claim(10, 1, 1), prepared_event(12, 2), claim(13, 3, 2)]),
        Ok(PlannerTerminalClaimContinuity::Contiguous)
    );
    assert_eq!(
        continuity(vec![claim(10, 1, 1), prepared_event(12, 2), claim(13, 3, 3)]),
        Err(StoreError::InvalidStateEvent)
    );
    assert_eq!(
        continuity(vec![claim(10, 1, 1), prepared_event(12, 2), cancellation(13, 3, 1)]),
        Ok(PlannerTerminalClaimContinuity::Discontinuous)
    );
}

#[test]
fn failures_that_ask_for_an_attempt_are_retried() {
    assert!(planner_v2_terminal_authorizes_retry(
        &observed_event(13, 3, failed_turn(RetryDisposition::RequiresNewAttempt)),
        EventId(12)
    ));
    assert!(!planner_v2_terminal_authorizes_retry(
        &observed_event(13, 3, failed_turn(RetryDisposition::Never)),
        EventId(12)
    ));
    assert!(!planner_v2_terminal_authorizes_retry(
        &observed_event(13, 3, failed_turn(RetryDisposition::RequiresNewAttempt)),
        EventId(11)
    ));
    assert!(planner_v2_terminal_authorizes_retry(
        &unknown_event(UnknownInferenceBoundary::Restart),
        EventId(12)
    ));
    assert!(!planner_v2_terminal_authorizes_retry(
        &unknown_event(UnknownInferenceBoundary::Deadline),
        EventId(12)
    ));
}

#[test]
fn capacity_is_bounded_in_turns_attempts_and_tokens() {
    let contract = contract();
    let capacity = |turns: u64, attempts: u64, reserved: u64, limit: Option<u64>| {
        planner_v2_retry_has_capacity(&contract, turns, attempts, reserved, 100, limit)
    };
    assert!(capacity(7, 1, 300, Some(400)));
    assert!(!capacity(8, 1, 300, Some(400)));
    assert!(!capacity(7, 2, 300, Some(400)));
    assert!(!capacity(7, 1, 301, Some(400)));
    assert!(capacity(7, 1, u64::MAX, None));
    assert!(!capacity(7, 1, u64::MAX, Some(u64::MAX)));
}

fn recon_reads() -> ReconReads {
    ReconReads {
        turns: Vec::new(),
        reserved_output: Ok(100),
        completion_gate: Ok(None),
        children: Vec::new(),
    }
}

#[test]
fn next_action_follows_the_latest_turn() {
    let store = prepared_store();
    let act = |latest: Option<ReplayedPlannerTurn>| match planner_next_action(
        &store,
        SessionId(1),
        RunId(2),
        &store.runs[0],
        latest,
        &recon_reads(),
    ) {
        Ok(PlannerNextAction::ReadyToPrepare { .. }) => "prepare",
        Ok(PlannerNextAction::RecoverPrepared { .. }) => "recover",
        Ok(PlannerNextAction::ValidateObserved { .. }) => "validate",
        Ok(PlannerNextAction::FinalizeObservedFailure { .. }) => "finalize",
        Ok(PlannerNextAction::RetryPrepared { .. }) => "retry",
        Ok(PlannerNextAction::ReconcileUnknown { .. }) => "reconcile",
        Ok(_) => "other",
        Err(_) => "refused",
    };
    let begun = prepared_event(12, 2);
    let turn = |observed_event, unknown_event| {
        Some(ReplayedPlannerTurn {
            prepared_event: &begun,
            observed_event,
            unknown_event,
            decision_event: None,
        })
    };
    assert_eq!(act(None), "prepare");
    assert_eq!(act(turn(None, None)), "recover");
    let succeeded = observed_event(13, 3, success());
    assert_eq!(act(turn(Some(&succeeded), None)), "validate");
    let failed = observed_event(13, 3, failed_turn(RetryDisposition::Never));
    assert_eq!(act(turn(Some(&failed), None)), "finalize");
    let retried = observed_event(13, 3, failed_turn(RetryDisposition::RequiresNewAttempt));
    assert_eq!(act(turn(Some(&retried), None)), "retry");
    let restarted = unknown_event(UnknownInferenceBoundary::Restart);
    assert_eq!(act(turn(None, Some(&restarted))), "retry");
    let overdue = unknown_event(UnknownInferenceBoundary::Deadline);
    assert_eq!(act(turn(None, Some(&overdue))), "reconcile");
}

#[test]
fn strongest_reason_comes_first() {
    assert_eq!(
        strongest_planner_rejection(&vec![
            PlannerTurnRejectionReasonV1::BindingMismatch,
            PlannerTurnRejectionReasonV1::WrongPurpose,
            PlannerTurnRejectionReasonV1::EvidenceOmitted,
        ]),
        PlannerTurnRejectionReasonV1::WrongPurpose
    );
    assert_eq!(
        strongest_planner_rejection(&Vec::new()),
        PlannerTurnRejectionReasonV1::BindingMismatch
    );
    assert_eq!(
        plan_violation_rejection(PlannerViolation::StaleWorkOrder),
        PlannerTurnRejectionReasonV1::StaleBasePlan
    );
    assert_eq!(
        prompting_invariant_rejection(PlannerReplannerV2InvariantViolation::UnknownEvidenceId),
        PlannerTurnRejectionReasonV1::EvidenceFabricated
    );
    let entries =
        serialized_violation_entries(&vec![Some(text("{\"kind\":1}")), None], "planner_plan");
    let entries: Vec<&str> = entries.iter().map(|entry| entry.value.as_str()).collect();
    assert_eq!(entries, vec!["{\"kind\":1}", "planner_plan"]);
}

fn plan() -> PlannerReplannerV2PlanSnapshot {
    PlannerReplannerV2PlanSnapshot {
        schema_version: 2,
        plan_id: text("plan"),
        revision: 1,
        parent_plan_sha256: None,
        obligation_snapshot_sha256: text("obligations"),
        acceptance_policy_sha256: text("acceptance"),
        strategy_summary: text("look around"),
        verification_targets: Vec::new(),
        work_orders: vec![
            PlannerPlanWorkOrderV2 {
                work_order_id: text("order-b"),
                revision: 3,
                encoded_sha256: digest("d"),
                encoded_bytes: 12,
            },
            PlannerPlanWorkOrderV2 {
                work_order_id: text("order-a"),
                revision: 1,
                encoded_sha256: digest("e"),
                encoded_bytes: 34,
            },
        ],
        content_sha256: None,
    }
}

#[test]
fn selection_resolves_to_planned_orders() {
    let local = vec![LocalWorkOrder {
        local_id: 4,
        work_order_id: text("order-a"),
    }];
    let select = |existing: Vec<Text>, new: Vec<u32>| {
        resolve_planner_work_selection(
            &PlannerPromptWorkSelectionV1 { existing, new },
            &local,
            &plan(),
        )
        .map(|names| names.into_iter().map(|name| name.value).collect::<Vec<String>>())
    };
    assert_eq!(
        select(vec![text("order-b"), text("order-b")], vec![4]),
        Ok(vec!["order-a".to_owned(), "order-b".to_owned()])
    );
    assert_eq!(select(vec![text("order-c")], Vec::new()), Err(StoreError::InvalidStateEvent));
    assert_eq!(select(Vec::new(), vec![5]), Err(StoreError::InvalidStateEvent));
}

#[test]
fn work_order_is_bound_to_its_encoding() {
    let contract = contract();
    let binding = match planner_work_order_binding(&contract, &plan(), &text("order-b")) {
        Ok(binding) => binding,
        Err(error) => panic!("{error:?}"),
    };
    assert_eq!(binding.revision, 3);
    assert_eq!(binding.work_order_artifact.size_bytes, 12);
    assert_eq!(binding.work_order_artifact.sha256.value, "d".repeat(64));
    assert_eq!(
        binding.work_order_artifact.media_type.value,
        "application/planner-work-order"
    );
    let written = |size_bytes: u64| {
        vec![WrittenWorkOrder {
            work_order_id: text("order-b"),
            artifact: Ok(ArtifactRef {
                sha256: text(&"d".repeat(64)),
                size_bytes,
                media_type: text("application/planner-work-order"),
            }),
        }]
    };
    let name = text("order-b");
    assert!(persist_planner_work_order_binding(&contract, &plan(), &name, &written(12)).is_ok());
    assert!(persist_planner_work_order_binding(&contract, &plan(), &name, &written(13)).is_err());
}

#[test]
fn drawn_identities_are_fresh() {
    let log = log(vec![claim(10, 1, 1)]);
    let draws: Vec<PlannerDelegateDirectiveId> =
        [5, 6].into_iter().map(PlannerDelegateDirectiveId).collect();
    assert_eq!(
        fresh_planner_delegate_directive_id(&log, &Vec::new(), &draws),
        Ok(PlannerDelegateDirectiveId(5))
    );
    assert_eq!(
        fresh_planner_delegate_directive_id(&log, &vec![PlannerDelegateDirectiveId(5)], &draws),
        Ok(PlannerDelegateDirectiveId(6))
    );
    assert_eq!(
        fresh_planner_delegate_directive_id(&log, &draws, &draws),
        Err(StoreError::InvalidStateEvent)
    );
}

#[test]
fn delta_holds_what_is_new() {
    let binding = |id: u128| PlannerEvidenceBindingV2 {
        evidence_id: PlannerEvidenceEntryId(id),
        normalized_content_digest: digest("1"),
    };
    let found = newly_available_bindings(
        &vec![binding(1), binding(2), binding(3)],
        &vec![binding(2)],
    );
    let found: Vec<u128> = found.iter().map(|binding| binding.evidence_id.0).collect();
    assert_eq!(found, vec![1, 3]);
    assert!(prompting_v2_purpose_matches(
        prompting_planner_purpose(PlannerTurnPurposeV1::EvidenceReplan),
        PlannerTurnPurposeV1::EvidenceReplan
    ));
    assert!(!prompting_v2_purpose_matches(
        prompting_planner_purpose(PlannerTurnPurposeV1::EvidenceReplan),
        PlannerTurnPurposeV1::InitialDelegation
    ));
}

#[test]
fn reasoning_carries_over() {
    assert_eq!(
        planner_prompt_reasoning_setting(ReasoningSetting::High),
        PlannerReplannerV2Reasoning::High
    );
    assert_eq!(
        planner_prompt_reasoning_setting(ReasoningSetting::Off),
        PlannerReplannerV2Reasoning::Off
    );
}

#[test]
fn only_a_response_is_decided() {
    let contract = contract();
    let evidence = Ok(response("{\"turn\":[1,2]}"));
    assert!(planner_v2_observed_response(
        &contract,
        &observed_event(13, 3, success()),
        &evidence
    )
    .is_ok());
    assert!(matches!(
        planner_v2_observed_response(
            &contract,
            &observed_event(13, 3, failed_turn(RetryDisposition::Never)),
            &evidence
        ),
        Err(StoreError::InvalidStateEvent)
    ));
    assert!(matches!(
        planner_v2_observed_response(
            &contract,
            &observed_event(13, 3, success()),
            &Ok(RetainedInferenceEvidence::CancelledBeforeCall)
        ),
        Err(StoreError::InvalidStateEvent)
    ));
}

#[test]
fn recorded_finalization_is_recognized() {
    let contract = contract();
    let authority = PlannerV2FinalizationAuthority {
        event_id: EventId(30),
        finalized_at: clock(11, 1_699_999_999),
    };
    let terminal = observed_event(13, 3, failed_turn(RetryDisposition::Never));
    let evidence = run_finalization_evidence(&prepared_event(12, 2), &terminal, &authority, false);
    assert_eq!(evidence.terminal_event_id, EventId(13));
    assert_eq!(evidence.disposition, RetainedPlannerV2TerminalDisposition::Failed);
    let mut end = event(
        30,
        4,
        EventPayload::RunStateChanged {
            from: RunState::Running,
            to: RunState::Failed,
        },
    );
    end.causal_parent = Some(EventId(13));
    end.provenance.producer = text("planner-finalization");
    end.provenance.raw_artifact = Some(artifact("application/planner-finalization"));
    assert_eq!(
        validate_existing_planner_v2_finalization(
            &contract,
            RunId(2),
            &authority,
            &end,
            &Ok(evidence)
        ),
        Ok(PlannerV2FinalizationDisposition::RunFailed)
    );
    let cancelled = run_finalization_evidence(&prepared_event(12, 2), &terminal, &authority, true);
    assert_eq!(
        validate_existing_planner_v2_finalization(
            &contract,
            RunId(2),
            &authority,
            &end,
            &Ok(cancelled)
        ),
        Err(StoreError::IdentifiedEventConflict)
    );
}

#[test]
fn recorded_observation_is_recognized() {
    let store = prepared_store();
    let authority = PlannerV2ObservationAuthority {
        event_id: EventId(13),
        prepared_event_id: EventId(12),
        observed_at: clock(9, 1_699_999_995),
    };
    let mut event = observed_event(13, 3, success());
    event.provenance.producer = text("planner-observation");
    let check = |event: &EventEnvelope, supplied: &str| {
        validate_existing_planner_v2_observation(
            &store,
            RunId(2),
            &authority,
            &response(supplied),
            event,
            &Ok(response("{\"turn\":[1,2]}")),
            true,
            &backend(),
        )
    };
    assert_eq!(check(&event, "{\"turn\":[1,2]}"), Ok(()));
    assert_eq!(
        check(&event, "{\"turn\":[2,1]}"),
        Err(StoreError::IdentifiedEventConflict)
    );
    assert_eq!(
        check(&observed_event(13, 3, success()), "{\"turn\":[1,2]}"),
        Err(StoreError::IdentifiedEventConflict)
    );
    assert_eq!(
        check(&claim(13, 3, 2), "{\"turn\":[1,2]}"),
        Err(StoreError::IdentifiedEventConflict)
    );
}

#[test]
fn recorded_boundary_is_recognized() {
    let store = prepared_store();
    let restart = UnknownInferenceBoundary::Restart;
    let check = |boundary: UnknownInferenceBoundary, generation: u64| {
        let mut event = unknown_event(restart);
        event.provenance.producer = text("planner-unknown");
        validate_existing_planner_v2_unknown(
            &store,
            RunId(2),
            &PlannerV2UnknownAuthority {
                event_id: EventId(13),
                prepared_event_id: EventId(12),
                boundary,
                boundary_at: clock(9, 1_699_999_995),
            },
            &event,
            &Ok(RetainedCancellationBoundaryEvidence {
                prepared_event_id: EventId(12),
                cancellation_generation: generation,
                reason: restart,
            }),
        )
    };
    assert_eq!(check(restart, 0), Ok(()));
    assert_eq!(check(restart, 1), Err(StoreError::IdentifiedEventConflict));
    assert_eq!(
        check(UnknownInferenceBoundary::Shutdown, 0),
        Err(StoreError::IdentifiedEventConflict)
    );
}

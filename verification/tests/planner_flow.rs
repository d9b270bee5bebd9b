//! One planner turn from its preparation to its decision.

use birdcode_store::artifact::{
    ArtifactRef, BackendKind, BackendModelRef, BackendSelection, ModelLineage, Provenance,
};
use birdcode_store::clock::{RuntimeClockReading, Timestamp};
use birdcode_store::contract::{
    Contract, ContractVersions, MediaTypes, PlanningPurposes, Producers, PromptKeys,
    ReconnaissanceLimits, RootPlanningPolicyLimits,
};
use birdcode_store::digest::Sha256Digest;
use birdcode_store::error::StoreError;
use birdcode_store::event::{EventEnvelope, EventPayload, IdentifiedNewEvent};
use birdcode_store::history::EventLog;
use birdcode_store::identity::{
    ActorId, CancellationRequestId, EventId, InferenceAttemptId, PlanSemanticReviewId,
    PlannerDelegateDirectiveId, PlannerEvidenceEntryId, PlannerTurnId, RunClaimId, RunId,
    RuntimeInstanceId, SessionId, TokenReservationId,
};
use birdcode_store::inference_identity::ConfiguredBackend;
use birdcode_store::lifecycle_identity::LifecycleIdentities;
use birdcode_store::planner_prompt::{
    PlannerPlanWorkOrderV2, PlannerPolicyV2, PlannerPromptPart, PlannerProtectedObligationCatalogV2,
    PlannerReplannerV2Bindings, PlannerReplannerV2ContextCatalog, PlannerReplannerV2EvidenceBinding,
    PlannerReplannerV2EvidenceDelta, PlannerReplannerV2EvidenceEntry,
    PlannerReplannerV2EvidencePacket, PlannerReplannerV2Invocation, PlannerReplannerV2PlanSnapshot,
    PlannerReplannerV2Purpose, PreparedPlannerReplannerV2Request, RetainedPlannerPrompt,
};
use birdcode_store::planner_turn::{
    PlannerAcceptedDirectiveV1, PlannerEvidenceMaterialV2, PlannerOutputBudgetV1,
    PlannerPromptBindingsV1, PlannerPromptDelegationV1, PlannerPromptDirectiveKindV1,
    PlannerPromptDirectiveV1, PlannerPromptV2AcceptedOutputV1, PlannerPromptWorkSelectionV1,
    PlannerTurnObservationV1, PlannerTurnObservedV1, PlannerTurnPreparedV1, PlannerTurnPurposeV1,
    PlannerTurnRejectionReasonV1,
};
use birdcode_store::planner_v2_classification::{
    ClassificationReads, LocalWorkOrder, PlannerReplannerV2ApplyError, PlannerReplannerV2Output,
    ResolvedPlannerDirective, ValidatedPlannerReplannerV2Turn,
};
use birdcode_store::planner_v2_decided::{
    validate_planner_turn_accepted_v1, validate_planner_turn_rejected_v1, AcceptedTurnReads,
    RejectedTurnReads,
};
use birdcode_store::planner_v2_decision::{
    build_planner_v2_decision_event, build_planner_v2_run_terminal_event, DecisionReads,
};
use birdcode_store::planner_v2_directive::WrittenWorkOrder;
use birdcode_store::planner_v2_evidence::{FreshEvidenceReads, PlannerEvidenceInput};
use birdcode_store::planner_v2_history::{PreparationReads, TurnEventReads};
use birdcode_store::planner_v2_preparation::{
    build_planner_v2_prepared_event, PlannerPreparationReads, PlannerRequestResults,
    PlannerV2PreparationAuthority,
};
use birdcode_store::planner_v2_prepared::{validate_planner_turn_prepared_v1, PreparedTurnReads};
use birdcode_store::planner_v2_replay_projection::{
    planner_v2_current_prepared_material, project_recon_run, PlannerNextAction, ReconReads,
    ReconRunProjection,
};
use birdcode_store::planner_v2_request::PlannerPromptReads;
use birdcode_store::planner_v2_sources::{
    planner_evidence_pairs, retained_planner_v2_evidence, PlannerV2ObservedEvidence,
};
use birdcode_store::planner_v2_terminal::{
    validate_existing_planner_v2_finalization, PlannerV2FinalizationAuthority,
    PlannerV2FinalizationDisposition,
};
use birdcode_store::planning::{
    PlanCandidateBinding, PlanSemanticReviewAccepted, PlannerInferenceError,
    PlannerInferenceErrorKind,
};
use birdcode_store::retained::{
    RetainedInferenceEvidence, RetainedInferenceRequest, RetainedPlanValidation, RootPlannerOutput,
    StructuredInferenceRequest, StructuredInferenceResponse,
};
use birdcode_store::run::{
    CancellationRequested, PlanAcceptanceContract, RetryDisposition, Run, RunClaimed, RunLimits,
    RunPurpose, RunSpec, RunState, Session, TokenReservation, TokenUsage,
};
use birdcode_store::store::{RunStateRow, Store};
use birdcode_store::text::Text;

fn text(value: &str) -> Text {
    Text {
        value: value.to_owned(),
    }
}

fn contract() -> Contract {
    Contract {
        media: MediaTypes {
            root_planning_failure: text("application/root-planning-failure"),
            root_planning_stage_failure: text("application/root-planning-stage-failure"),
            root_planning_execution_policy: text("application/root-planning-policy"),
            plan_critic_policy: text("application/plan-critic-policy"),
            plan_critique: text("application/plan-critique"),
            plan_critique_validation: text("application/plan-critique-validation"),
            plan_proposal: text("application/plan-proposal"),
            plan_validation: text("application/plan-validation"),
            accepted_plan: text("application/accepted-plan"),
            retained_prompt: text("application/retained-prompt"),
            inference_request: text("application/inference-request"),
            inference_evidence: text("application/inference-evidence"),
            cancellation_boundary: text("application/cancellation-boundary"),
            planner_plan_v2: text("application/planner-plan"),
            planner_prompt_manifest_v2: text("application/planner-prompt-manifest"),
            planner_work_order_v2: text("application/planner-work-order"),
            planner_prompt_output_v2: text("application/planner-prompt-output"),
            planner_prompt_evidence_packet_v2: text("application/planner-prompt-packet"),
            planner_prompt_evidence_delta_v2: text("application/planner-prompt-delta"),
            planner_durable_evidence_packet_v2: text("application/planner-durable-packet"),
            planner_durable_evidence_delta_v2: text("application/planner-durable-delta"),
            planner_v2_finalization_evidence: text("application/planner-finalization"),
            child_execution_failure: text("application/child-failure"),
            child_handoff: text("application/child-handoff"),
            snapshot_lease: text("application/snapshot-lease"),
            cleanup_safety_evidence: text("application/cleanup-safety"),
            cleanup_process_inspection: text("application/cleanup-process"),
            cleanup_initial_inspection: text("application/cleanup-initial"),
            cleanup_topology_inspection: text("application/cleanup-topology"),
            hdiutil_info: text("application/hdiutil-info"),
            command_stderr: text("application/command-stderr"),
        },
        versions: ContractVersions {
            snapshot_cleanup: 1,
            snapshot_recovery_v2: 2,
            planner_turn: 1,
            planner_evidence: 2,
            child_reconnaissance: 1,
        },
        planning: RootPlanningPolicyLimits {
            schema_version: 1,
            max_model_calls: 4,
            max_repairs: 1,
            max_review_rounds: 2,
            initial_plan_max_output_tokens: 100,
            initial_review_max_output_tokens: 100,
            repair_max_output_tokens: 100,
            final_review_max_output_tokens: 100,
        },
        recon: ReconnaissanceLimits {
            max_planner_turns: 8,
            planner_attempts_per_stage: 2,
            max_planner_output_tokens_per_call: 100,
            max_planner_evidence_entries: 16,
            max_terminal_claim_events: 64,
        },
        producers: Producers {
            planner_preparation: text("planner-preparation"),
            planner_observation: text("planner-observation"),
            planner_unknown: text("planner-unknown"),
            planner_finalization: text("planner-finalization"),
        },
        purposes: PlanningPurposes {
            general: false,
            root_planning: true,
            reconnaissance: true,
        },
        prompts: PromptKeys {
            root_planner: text("root-planner"),
            plan_critic: text("plan-critic"),
            plan_repair: text("plan-repair"),
            planner_replanner_id: text("planner-replanner"),
            planner_replanner_version: text("2.0.0"),
        },
    }
}


fn time(seconds: i64) -> Timestamp {
    Timestamp {
        seconds,
        nanoseconds: 0,
    }
}

fn event(id: u128, sequence: u64, payload: EventPayload) -> EventEnvelope {
    EventEnvelope {
        id: EventId(id),
        sequence,
        session_id: SessionId(1),
        run_id: Some(RunId(2)),
        actor_id: ActorId(3),
        causal_parent: None,
        occurred_at: time(1_700_000_000),
        provenance: Provenance {
            producer: text("runtime"),
            backend: None,
            raw_artifact: None,
        },
        payload,
    }
}

fn claim(id: u128, sequence: u64, generation: u64) -> EventEnvelope {
    event(
        id,
        sequence,
        EventPayload::RunClaimed(RunClaimed {
            claim_id: RunClaimId(50),
            runtime_instance_id: RuntimeInstanceId(51),
            claim_generation: generation,
            cancellation_generation: 0,
            lease_expires_at: time(1_700_000_100),
        }),
    )
}

fn cancellation(id: u128, sequence: u64, generation: u64) -> EventEnvelope {
    event(
        id,
        sequence,
        EventPayload::CancellationRequested(CancellationRequested {
            cancellation_request_id: CancellationRequestId(60),
            cancellation_generation: generation,
        }),
    )
}

fn artifact(media_type: &str) -> ArtifactRef {
    ArtifactRef {
        sha256: text(&"a".repeat(64)),
        size_bytes: 10,
        media_type: text(media_type),
    }
}

fn log(events: Vec<EventEnvelope>) -> EventLog {
    match EventLog::from_events(events) {
        Ok(log) => log,
        Err(error) => panic!("not a log: {error:?}"),
    }
}

fn store(purpose: RunPurpose, events: Vec<EventEnvelope>) -> Store {
    Store {
        contract: contract(),
        log: log(events),
        sessions: vec![Session {
            id: SessionId(1),
            workspace_root: text("/repo"),
            title: None,
            created_at: time(1_699_999_000),
        }],
        runs: vec![Run {
            id: RunId(2),
            spec: RunSpec {
                session_id: SessionId(1),
                purpose,
                plan_acceptance: PlanAcceptanceContract::IndependentSemanticReviewV1,
                backend: BackendSelection {
                    backend_id: text("backend"),
                    kind: BackendKind::Model,
                    model: None,
                    reasoning_effort: None,
                },
                input: Vec::new(),
                limits: RunLimits {
                    max_output_tokens: Some(400),
                    max_wall_time_seconds: None,
                    max_subagents: 2,
                },
            },
            state: RunState::Queued,
            created_at: time(1_699_999_000),
        }],
        run_states: vec![RunStateRow {
            run_id: RunId(2),
            session_id: SessionId(1),
            state: RunState::Running,
            state_sequence: 2,
        }],
    }
}

const SESSION: SessionId = SessionId(1);

const RUN: RunId = RunId(2);

fn hex(letter: &str) -> Text {
    text(&letter.repeat(64))
}

fn digest(letter: &str) -> Sha256Digest {
    match Sha256Digest::parse(&hex(letter)) {
        Some(digest) => digest,
        None => panic!("not a digest: {letter}"),
    }
}

fn clock(nanos: u64) -> RuntimeClockReading {
    RuntimeClockReading {
        runtime_instance_id: RuntimeInstanceId(51),
        monotonic_nanos: nanos,
        observed_at: time(1_699_999_990),
    }
}

fn review_event() -> EventEnvelope {
    event(
        11,
        2,
        EventPayload::PlanSemanticReviewAccepted(PlanSemanticReviewAccepted {
            review_id: PlanSemanticReviewId(30),
            inference_attempt_id: InferenceAttemptId(31),
            observed_event_id: EventId(32),
            candidate: PlanCandidateBinding {
                proposal_event_id: EventId(33),
                plan_revision: 1,
                plan_digest: digest("a"),
                plan_artifact: artifact("application/accepted-plan"),
            },
            critique_artifact: artifact("application/plan-critique"),
            validation_evidence_artifact: artifact("application/plan-critique-validation"),
            other_identities: LifecycleIdentities::none(),
        }),
    )
}

fn recon_store(events: Vec<EventEnvelope>) -> Store {
    store(RunPurpose::ParallelRepositoryReconnaissanceV1, events)
}

fn ready_store() -> Store {
    recon_store(vec![claim(10, 1, 1), review_event()])
}

fn entry() -> PlannerReplannerV2EvidenceEntry {
    PlannerReplannerV2EvidenceEntry {
        evidence_id: PlannerEvidenceEntryId(11),
        normalized_content_sha256: hex("e"),
        body: text("{\"plan\":1}"),
    }
}

fn entry_binding() -> PlannerReplannerV2EvidenceBinding {
    PlannerReplannerV2EvidenceBinding {
        evidence_id: PlannerEvidenceEntryId(11),
        normalized_content_sha256: hex("e"),
    }
}

fn prompt_packet() -> PlannerReplannerV2EvidencePacket {
    PlannerReplannerV2EvidencePacket {
        purpose: PlannerReplannerV2Purpose::InitialDelegation,
        context_manifest_sha256: hex("3"),
        packet_sha256: hex("4"),
        entries: vec![entry()],
    }
}

fn prompt_delta() -> PlannerReplannerV2EvidenceDelta {
    PlannerReplannerV2EvidenceDelta {
        purpose: PlannerReplannerV2Purpose::InitialDelegation,
        previous_packet_sha256: None,
        previous_evidence: Vec::new(),
        newly_available: vec![entry_binding()],
        delta_sha256: hex("5"),
    }
}

fn catalog() -> PlannerProtectedObligationCatalogV2 {
    PlannerProtectedObligationCatalogV2 {
        snapshot_sha256: hex("1"),
        derived_snapshot_sha256: Some(hex("1")),
        acceptance_policy_sha256: hex("2"),
        body: text("{\"obligations\":[]}"),
    }
}

fn planner_policy() -> PlannerPolicyV2 {
    PlannerPolicyV2 {
        policy_sha256: hex("6"),
        derived_policy_sha256: Some(hex("6")),
        body: text("{\"policy\":1}"),
    }
}

fn backend() -> ConfiguredBackend {
    ConfiguredBackend {
        backend_id: text("backend"),
        origin: text("http://localhost"),
        deployment_id: text("deployment"),
        identity_sha256: digest("9"),
    }
}

fn model() -> BackendModelRef {
    BackendModelRef {
        backend_id: text("backend"),
        kind: BackendKind::Model,
        model_id: text("planner"),
    }
}

fn preparation_authority() -> PlannerV2PreparationAuthority {
    PlannerV2PreparationAuthority {
        event_id: EventId(12),
        turn_id: PlannerTurnId(70),
        initial_plan_id: Some(text("plan")),
        protected_obligation_catalog: catalog(),
        planner_policy: planner_policy(),
        backend_model: model(),
        backend_instance: backend(),
        model_lineage: ModelLineage {
            backend_id: text("backend"),
            model_id: text("planner"),
            deployment_id: text("deployment"),
            independence_domain_id: text("domain"),
        },
        reasoning: None,
        token_reservation: TokenReservation {
            id: TokenReservationId(81),
            reserved_tokens: 200,
            max_output_tokens: 100,
        },
        output_budget: PlannerOutputBudgetV1 {
            max_total_reserved_output_tokens: 400,
            max_output_tokens_per_call: 100,
        },
        prepared_at: clock(5),
    }
}

fn recon_reads(turns: Vec<TurnEventReads>) -> ReconReads {
    ReconReads {
        turns,
        reserved_output: Ok(100),
        completion_gate: Ok(None),
        children: Vec::new(),
    }
}

fn base_snapshot() -> PlannerReplannerV2PlanSnapshot {
    PlannerReplannerV2PlanSnapshot {
        schema_version: 1,
        plan_id: text("plan"),
        revision: 0,
        parent_plan_sha256: None,
        obligation_snapshot_sha256: hex("1"),
        acceptance_policy_sha256: hex("2"),
        strategy_summary: text(""),
        verification_targets: Vec::new(),
        work_orders: Vec::new(),
        content_sha256: Some(hex("a")),
    }
}

fn part(name: &str) -> PlannerPromptPart {
    PlannerPromptPart {
        name: text(name),
        payload: text("{}"),
    }
}

fn invocation() -> PlannerReplannerV2Invocation {
    PlannerReplannerV2Invocation {
        sections: vec![part("protected_obligation_catalog"), part("planner_context_catalog")],
        runtime_constraints: vec![part("planner_policy"), part("planner_turn_bindings")],
    }
}

fn inference() -> StructuredInferenceRequest {
    StructuredInferenceRequest {
        model_id: text("planner"),
        messages: Vec::new(),
        output_name: text("planner_turn"),
        output_schema: text("{}"),
        generation_schema: text("{}"),
        max_output_tokens: 100,
        reasoning: None,
    }
}

fn built_request() -> PreparedPlannerReplannerV2Request {
    PreparedPlannerReplannerV2Request {
        invocation: invocation(),
        compiled_prompt: text("plan the next step"),
        manifest_sha256: hex("a"),
        inference: inference(),
    }
}

fn turn_bindings() -> PlannerReplannerV2Bindings {
    PlannerReplannerV2Bindings {
        purpose: PlannerReplannerV2Purpose::InitialDelegation,
        prompt_id: text("planner-replanner"),
        prompt_version: text("2.0.0"),
        prompt_manifest_sha256: hex("a"),
        plan_id: text("plan"),
        base_revision: 0,
        base_plan_sha256: hex("a"),
        obligation_snapshot_sha256: hex("1"),
        acceptance_policy_sha256: hex("2"),
        context_manifest_sha256: hex("3"),
        planner_policy_sha256: hex("6"),
        evidence_packet_sha256: hex("4"),
        previous_evidence_packet_sha256: None,
        evidence_delta_sha256: hex("5"),
        backend_id: text("backend"),
        backend_configured_deployment_id: text("deployment"),
        backend_endpoint_origin: text("http://localhost"),
        backend_instance_sha256: hex("9"),
        model_id: text("planner"),
        reasoning: None,
        budget_reservation_id: TokenReservationId(81),
        max_output_tokens: 100,
    }
}

fn prompt_reads() -> PlannerPromptReads {
    PlannerPromptReads {
        prompt: Ok(RetainedPlannerPrompt {
            prompt_invocation: invocation(),
            compiled_prompt: text("plan the next step"),
        }),
        packet: Ok(prompt_packet()),
        delta: Ok(prompt_delta()),
        obligations: Ok(catalog()),
        context: Ok(PlannerReplannerV2ContextCatalog {
            manifest_sha256: hex("3"),
            evidence_bindings: vec![entry_binding()],
        }),
        policy: Ok(planner_policy()),
        bindings: Ok(turn_bindings()),
        backend: Ok(backend()),
        backend_is_intact: true,
        protocol_digest: Some(digest("9")),
        inference_policy: Ok(()),
        authoritative: Ok(built_request()),
        request: Ok(RetainedInferenceRequest {
            request: inference(),
            request_sha256: digest("b"),
        }),
        request_digest: Ok(digest("b")),
        fits_reservation: Ok(true),
    }
}

fn preparation_reads() -> PlannerPreparationReads {
    PlannerPreparationReads {
        recon: recon_reads(Vec::new()),
        reservation_is_valid: true,
        backend_is_intact: true,
        lineage_is_valid: true,
        initial_plan_sha256: Some(hex("a")),
        initial_plan_artifact: Ok(artifact("application/planner-plan")),
        previous: PreparationReads {
            base: Err(StoreError::ArtifactUnavailable),
            prompt: prompt_reads(),
        },
        base: Err(StoreError::ArtifactUnavailable),
        evidence: PlannerEvidenceInput::Fresh {
            reads: FreshEvidenceReads {
                plan: Ok(RootPlannerOutput {
                    root_snapshot_sha256: text("root"),
                    planner_policy_sha256: text("policy"),
                    context_manifest_sha256: text("context"),
                    body: text("{\"plan\":1}"),
                }),
                children: Vec::new(),
                entries: Ok(vec![entry()]),
                manifest: Ok(hex("3")),
                previous_packet: Err(StoreError::ArtifactUnavailable),
                packet: Ok(prompt_packet()),
                delta: Ok(prompt_delta()),
                prompt_packet_artifact: Ok(artifact("application/planner-prompt-packet")),
                prompt_delta_artifact: Ok(artifact("application/planner-prompt-delta")),
                durable_packet_artifact: Ok(artifact("application/planner-durable-packet")),
                durable_delta_artifact: Ok(artifact("application/planner-durable-delta")),
            },
        },
        manifest_sha256: Ok(hex("a")),
        manifest_artifact: Ok(artifact("application/planner-prompt-manifest")),
        inference_policy: Ok(()),
    }
}

fn request_results() -> PlannerRequestResults {
    PlannerRequestResults {
        request: Ok(built_request()),
        fits_reservation: Ok(true),
        prompt_artifact: Ok(artifact("application/retained-prompt")),
        request_artifact: Ok(artifact("application/inference-request")),
        backend_is_intact: true,
        protocol_digest: Some(digest("9")),
    }
}

fn recorded(new: IdentifiedNewEvent, sequence: u64) -> EventEnvelope {
    EventEnvelope {
        id: new.event_id,
        sequence,
        session_id: new.event.session_id,
        run_id: new.event.run_id,
        actor_id: new.event.actor_id,
        causal_parent: new.event.causal_parent,
        occurred_at: time(1_700_000_000),
        provenance: new.event.provenance,
        payload: new.event.payload,
    }
}

fn prepared_event() -> EventEnvelope {
    match build_planner_v2_prepared_event(
        &ready_store(),
        RUN,
        &preparation_authority(),
        preparation_reads(),
        request_results(),
    ) {
        Ok(new) => recorded(new, 3),
        Err(error) => panic!("not prepared: {error:?}"),
    }
}

fn prepared_in(event: &EventEnvelope) -> &PlannerTurnPreparedV1 {
    match &event.payload {
        EventPayload::PlannerTurnPreparedV1(prepared) => prepared,
        _ => panic!("not a preparation"),
    }
}

fn turn_reads(prepared: &PlannerTurnPreparedV1) -> PreparedTurnReads {
    PreparedTurnReads {
        owner: Ok(()),
        backend_is_intact: true,
        lineage_is_valid: true,
        reservation_is_valid: true,
        reservation_is_new: true,
        reserved_output: Ok(0),
        base: Ok(base_snapshot()),
        prompt: prompt_reads(),
        durable_packet: Ok(prepared.durable_evidence_packet.clone()),
        durable_delta: Ok(prepared.durable_evidence_delta.clone()),
        packet_is_intact: true,
        delta_fits_packet: true,
        previous_packet: Err(StoreError::ArtifactUnavailable),
        previous_delta: Err(StoreError::ArtifactUnavailable),
    }
}

fn prepared_turn_reads() -> TurnEventReads {
    TurnEventReads {
        event_id: EventId(12),
        artifacts: Ok(()),
        preparation: Some(PreparationReads {
            base: Ok(base_snapshot()),
            prompt: prompt_reads(),
        }),
    }
}

fn other_turn_reads(id: u128) -> TurnEventReads {
    TurnEventReads {
        event_id: EventId(id),
        artifacts: Ok(()),
        preparation: None,
    }
}

fn response() -> RetainedInferenceEvidence {
    RetainedInferenceEvidence::Response {
        response: StructuredInferenceResponse {
            model_id: text("planner"),
            backend_id: text("backend"),
            usage: None,
            normalized_usage: Some(usage()),
            raw_text: text("{ \"turn\": [1, 2] }"),
            value: text("{\"turn\":[1,2]}"),
            evidence_matches: true,
        },
    }
}

fn usage() -> TokenUsage {
    TokenUsage {
        input_tokens: 10,
        output_tokens: 20,
        total_tokens: 30,
        cached_input_tokens: None,
    }
}

fn observed_event(outcome: PlannerTurnObservationV1) -> EventEnvelope {
    let mut event = event(
        13,
        4,
        EventPayload::PlannerTurnObservedV1(PlannerTurnObservedV1 {
            turn_id: PlannerTurnId(70),
            prepared_event_id: EventId(12),
            outcome,
            normalized_complete_evidence_artifact: artifact("application/inference-evidence"),
            observed_at: clock(9),
        }),
    );
    event.causal_parent = Some(EventId(12));
    event
}

fn success() -> PlannerTurnObservationV1 {
    PlannerTurnObservationV1::Succeeded {
        reported_backend_model: model(),
        token_usage: usage(),
    }
}

fn failure() -> PlannerTurnObservationV1 {
    PlannerTurnObservationV1::Failed {
        error: PlannerInferenceError {
            kind: PlannerInferenceErrorKind::Timeout,
            retry: RetryDisposition::Never,
        },
    }
}

fn observed_store(outcome: PlannerTurnObservationV1) -> Store {
    recon_store(vec![
        claim(10, 1, 1),
        review_event(),
        prepared_event(),
        observed_event(outcome),
    ])
}

fn projected<'a>(store: &'a Store, turns: Vec<TurnEventReads>) -> ReconRunProjection<'a> {
    match project_recon_run(store, RUN, &recon_reads(turns)) {
        Ok(Some(projection)) => projection,
        Ok(None) => panic!("no such run"),
        Err(error) => panic!("not projected: {error:?}"),
    }
}

fn finalization() -> PlannerV2FinalizationAuthority {
    PlannerV2FinalizationAuthority {
        event_id: EventId(14),
        finalized_at: clock(11),
    }
}

fn changed_plan() -> PlannerReplannerV2PlanSnapshot {
    PlannerReplannerV2PlanSnapshot {
        schema_version: 1,
        plan_id: text("plan"),
        revision: 1,
        parent_plan_sha256: Some(hex("a")),
        obligation_snapshot_sha256: hex("1"),
        acceptance_policy_sha256: hex("2"),
        strategy_summary: text("look around"),
        verification_targets: Vec::new(),
        work_orders: vec![PlannerPlanWorkOrderV2 {
            work_order_id: text("order-a"),
            revision: 1,
            encoded_sha256: digest("d"),
            encoded_bytes: 12,
        }],
        content_sha256: Some(hex("a")),
    }
}

fn selection(new: Vec<u32>) -> PlannerPromptWorkSelectionV1 {
    PlannerPromptWorkSelectionV1 {
        existing: Vec::new(),
        new,
    }
}

fn output() -> PlannerPromptV2AcceptedOutputV1 {
    PlannerPromptV2AcceptedOutputV1 {
        schema_version: 2,
        bindings: PlannerPromptBindingsV1 {
            purpose: PlannerTurnPurposeV1::InitialDelegation,
            prompt_id: text("planner-replanner"),
            prompt_version: text("2.0.0"),
            prompt_manifest_sha256: digest("a"),
            plan_id: text("plan"),
            base_revision: 0,
            base_plan_sha256: digest("a"),
            obligation_snapshot_sha256: digest("1"),
            acceptance_policy_sha256: digest("2"),
            context_manifest_sha256: digest("3"),
            planner_policy_sha256: digest("6"),
            evidence_packet_sha256: digest("4"),
            previous_evidence_packet_sha256: None,
            evidence_delta_sha256: digest("5"),
            backend_id: text("backend"),
            model_id: text("planner"),
            reasoning: None,
            budget_reservation_id: TokenReservationId(81),
            max_output_tokens: 100,
        },
        directive: PlannerPromptDirectiveV1 {
            kind: PlannerPromptDirectiveKindV1::Delegate,
            execute: selection(Vec::new()),
            delegations: vec![PlannerPromptDelegationV1 {
                work_orders: selection(vec![1]),
            }],
            clarifications: Vec::new(),
            escalations: Vec::new(),
            finish_claims: Vec::new(),
        },
    }
}

fn applied() -> ValidatedPlannerReplannerV2Turn {
    ValidatedPlannerReplannerV2Turn {
        plan: changed_plan(),
        directive: ResolvedPlannerDirective::Delegate {
            work_order_ids: vec![text("order-a")],
        },
        local_work_orders: vec![LocalWorkOrder {
            local_id: 1,
            work_order_id: text("order-a"),
        }],
    }
}

fn prompting() -> PlannerReplannerV2Output {
    PlannerReplannerV2Output {
        patch_is_empty: false,
        body: text("{ \"turn\": [1, 2] }"),
    }
}

fn classification(
    applied: Result<ValidatedPlannerReplannerV2Turn, PlannerReplannerV2ApplyError>,
) -> ClassificationReads {
    ClassificationReads {
        base: Ok(base_snapshot()),
        prompt: prompt_reads(),
        applied,
        prompting: Ok(prompting()),
        protocol: Ok(output()),
    }
}

fn decision_reads(
    applied: Result<ValidatedPlannerReplannerV2Turn, PlannerReplannerV2ApplyError>,
) -> DecisionReads {
    DecisionReads {
        evidence: Ok(response()),
        classification: classification(applied),
        output_artifact: Ok(artifact("application/planner-prompt-output")),
        validation_artifact: Ok(artifact("application/plan-validation")),
        plan_artifact: Ok(artifact("application/planner-plan")),
        written: vec![WrittenWorkOrder {
            work_order_id: text("order-a"),
            artifact: Ok(ArtifactRef {
                sha256: hex("d"),
                size_bytes: 12,
                media_type: text("application/planner-work-order"),
            }),
        }],
        draws: vec![vec![PlannerDelegateDirectiveId(90)]],
    }
}

fn decide(
    applied: Result<ValidatedPlannerReplannerV2Turn, PlannerReplannerV2ApplyError>,
) -> (EventEnvelope, PlannerV2FinalizationDisposition) {
    let store = observed_store(success());
    let projection = projected(&store, vec![prepared_turn_reads(), other_turn_reads(13)]);
    match build_planner_v2_decision_event(
        &store,
        &projection,
        &prepared_event(),
        &observed_event(success()),
        &finalization(),
        decision_reads(applied),
    ) {
        Ok((new, disposition)) => (recorded(new, 5), disposition),
        Err(error) => panic!("not decided: {error:?}"),
    }
}

fn accepted_reads() -> AcceptedTurnReads {
    AcceptedTurnReads {
        output: Ok(output()),
        output_json: text("{\"turn\":[1,2]}"),
        evidence: Ok(response()),
        validation: Ok(RetainedPlanValidation {
            status: text("accepted"),
            violations: Vec::new(),
        }),
        packet: Ok(prompt_packet()),
        delta: Ok(prompt_delta()),
        base: Ok(base_snapshot()),
        prompting: Ok(prompting()),
        prompt: prompt_reads(),
        applied: Ok(applied()),
        plan_encoding: Ok((hex("a"), 10)),
        resulting: Ok(changed_plan()),
    }
}

fn rejected_reads(raw: &str) -> RejectedTurnReads {
    RejectedTurnReads {
        output: Ok(raw.as_bytes().to_vec()),
        evidence: Ok(response()),
        validation: Ok(RetainedPlanValidation {
            status: text("rejected"),
            violations: vec![text("output_decode")],
        }),
        classification: classification(Err(PlannerReplannerV2ApplyError::OutputDecode)),
    }
}

#[test]
fn first_turn_is_due_once_the_root_plan_stands() {
    let ready = ready_store();
    let projection = projected(&ready, Vec::new());
    assert!(matches!(
        projection.planner.next_action,
        PlannerNextAction::ReadyToPrepare {
            purpose: PlannerTurnPurposeV1::InitialDelegation,
            base_plan: None,
        }
    ));
    assert_eq!(projection.last_event.id, EventId(11));
    let unplanned = recon_store(vec![claim(10, 1, 1)]);
    assert!(matches!(
        projected(&unplanned, Vec::new()).planner.next_action,
        PlannerNextAction::AwaitAcceptedRootPlan
    ));
    let cancelled = recon_store(vec![claim(10, 1, 1), review_event(), cancellation(12, 3, 1)]);
    assert!(matches!(
        projected(&cancelled, Vec::new()).planner.next_action,
        PlannerNextAction::CancellationRequested {
            cancellation_generation: 1,
            ..
        }
    ));
    assert!(matches!(
        project_recon_run(&ready, RunId(9), &recon_reads(Vec::new())),
        Ok(None)
    ));
}

#[test]
fn prepared_turn_is_accepted_as_it_was_built() {
    let event = prepared_event();
    assert_eq!(event.causal_parent, Some(EventId(11)));
    assert_eq!(event.provenance.producer.value, "planner-preparation");
    let prepared = prepared_in(&event);
    assert_eq!(prepared.base_plan.accepted_event_id, EventId(11));
    assert_eq!(prepared.base_plan.revision, 0);
    assert_eq!(prepared.durable_evidence_packet.entries.len(), 1);
    assert_eq!(prepared.durable_evidence_delta.newly_available.len(), 1);
    assert_eq!(
        validate_planner_turn_prepared_v1(&ready_store(), &event, prepared, &turn_reads(prepared)),
        Ok(())
    );
}

#[test]
fn altered_turn_is_not_accepted() {
    let event = prepared_event();
    let refused = |change: &dyn Fn(&mut PlannerTurnPreparedV1)| {
        let mut prepared = prepared_in(&event).clone();
        let reads = turn_reads(&prepared);
        change(&mut prepared);
        validate_planner_turn_prepared_v1(&ready_store(), &event, &prepared, &reads)
            == Err(StoreError::InvalidStateEvent)
    };
    assert!(refused(&|prepared| prepared.claim_generation = 2));
    assert!(refused(&|prepared| prepared.purpose = PlannerTurnPurposeV1::EvidenceReplan));
    assert!(refused(&|prepared| prepared.base_plan.revision = 1));
    assert!(refused(&|prepared| prepared.planner_policy_digest = digest("7")));
    assert!(refused(&|prepared| prepared.request_digest = digest("7")));
    assert!(refused(&|prepared| prepared.token_reservation.max_output_tokens = 101));
    assert!(refused(&|prepared| prepared.durable_evidence_delta.newly_available.clear()));
    assert!(!refused(&|prepared| prepared.turn_id = PlannerTurnId(71)));
    let mut reads = turn_reads(prepared_in(&event));
    reads.reserved_output = Ok(301);
    assert_eq!(
        validate_planner_turn_prepared_v1(&ready_store(), &event, prepared_in(&event), &reads),
        Err(StoreError::InvalidStateEvent)
    );
    reads.owner = Err(StoreError::IdentifiedEventConflict);
    assert_eq!(
        validate_planner_turn_prepared_v1(&ready_store(), &event, prepared_in(&event), &reads),
        Err(StoreError::IdentifiedEventConflict)
    );
}

#[test]
fn turn_is_not_prepared_past_its_budget() {
    let build = |authority: PlannerV2PreparationAuthority, results: PlannerRequestResults| {
        build_planner_v2_prepared_event(
            &ready_store(),
            RUN,
            &authority,
            preparation_reads(),
            results,
        )
        .map(|new| new.event_id)
    };
    assert_eq!(build(preparation_authority(), request_results()), Ok(EventId(12)));
    let mut authority = preparation_authority();
    authority.token_reservation.max_output_tokens = 101;
    assert_eq!(build(authority, request_results()), Err(StoreError::InvalidStateEvent));
    let mut results = request_results();
    results.fits_reservation = Ok(false);
    assert_eq!(build(preparation_authority(), results), Err(StoreError::InvalidStateEvent));
    let mut results = request_results();
    results.request_artifact = Err(StoreError::ArtifactUnavailable);
    assert_eq!(build(preparation_authority(), results), Err(StoreError::ArtifactUnavailable));
}

#[test]
fn open_turn_is_recovered_with_its_material() {
    let store = recon_store(vec![claim(10, 1, 1), review_event(), prepared_event()]);
    let projection = projected(&store, vec![prepared_turn_reads()]);
    assert!(matches!(
        projection.planner.next_action,
        PlannerNextAction::RecoverPrepared {
            prepared_event_id: EventId(12),
            ..
        }
    ));
    assert_eq!(projection.planner.prepared_turn_count, 1);
    let event = prepared_event();
    let material = planner_v2_current_prepared_material(
        &store,
        &event,
        &recon_reads(vec![prepared_turn_reads()]),
        Ok(base_snapshot()),
        prompt_reads(),
    );
    match material {
        Ok(material) => {
            assert_eq!(material.request.input.policy.max_output_tokens, 100);
            assert_eq!(material.request.authoritative.compiled_prompt.value, "plan the next step");
        }
        Err(error) => panic!("{error:?}"),
    }
    let ended = observed_store(success());
    assert!(matches!(
        planner_v2_current_prepared_material(
            &ended,
            &event,
            &recon_reads(vec![prepared_turn_reads(), other_turn_reads(13)]),
            Ok(base_snapshot()),
            prompt_reads(),
        ),
        Err(StoreError::InvalidStateEvent)
    ));
}

#[test]
fn accepted_turn_changes_the_plan_and_delegates() {
    let (event, disposition) = decide(Ok(applied()));
    assert_eq!(disposition, PlannerV2FinalizationDisposition::Accepted);
    assert_eq!(event.causal_parent, Some(EventId(13)));
    let accepted = match &event.payload {
        EventPayload::PlannerTurnAcceptedV1(accepted) => accepted,
        _ => panic!("not accepted"),
    };
    assert_eq!(accepted.resulting_plan.accepted_event_id, EventId(14));
    assert_eq!(accepted.resulting_plan.revision, 1);
    match &accepted.resolved_directive {
        PlannerAcceptedDirectiveV1::Delegate { delegations } => {
            assert_eq!(delegations.len(), 1);
            assert_eq!(delegations[0].directive_id, PlannerDelegateDirectiveId(90));
            assert_eq!(delegations[0].work_orders[0].work_order_artifact.size_bytes, 12);
        }
        _ => panic!("not a delegation"),
    }
    let store = observed_store(success());
    assert_eq!(
        validate_planner_turn_accepted_v1(&store, &event, accepted, &accepted_reads()),
        Ok(())
    );
    let mut reads = accepted_reads();
    reads.output_json = text("{\"turn\":[2,1]}");
    assert_eq!(
        validate_planner_turn_accepted_v1(&store, &event, accepted, &reads),
        Err(StoreError::InvalidStateEvent)
    );
    let mut reads = accepted_reads();
    reads.plan_encoding = Ok((hex("a"), 11));
    assert_eq!(
        validate_planner_turn_accepted_v1(&store, &event, accepted, &reads),
        Err(StoreError::InvalidStateEvent)
    );
    let mut reads = accepted_reads();
    reads.applied = Err(PlannerReplannerV2ApplyError::OutputDecode);
    assert_eq!(
        validate_planner_turn_accepted_v1(&store, &event, accepted, &reads),
        Err(StoreError::InvalidStateEvent)
    );
}

#[test]
fn decided_turn_is_not_decided_again() {
    let (event, _) = decide(Ok(applied()));
    let accepted = match &event.payload {
        EventPayload::PlannerTurnAcceptedV1(accepted) => accepted.clone(),
        _ => panic!("not accepted"),
    };
    let store = recon_store(vec![
        claim(10, 1, 1),
        review_event(),
        prepared_event(),
        observed_event(success()),
        event,
    ]);
    let (mut again, _) = decide(Ok(applied()));
    again.id = EventId(15);
    again.sequence = 6;
    assert_eq!(
        validate_planner_turn_accepted_v1(&store, &again, &accepted, &accepted_reads()),
        Err(StoreError::InvalidStateEvent)
    );
    let projection = projected(
        &store,
        vec![prepared_turn_reads(), other_turn_reads(13), other_turn_reads(14)],
    );
    assert!(matches!(
        projection.planner.next_action,
        PlannerNextAction::ApplyAcceptedDirective {
            accepted_event_id: EventId(14),
            ..
        }
    ));
    assert_eq!(projection.planner.latest_accepted_plan.map(|plan| plan.revision), Some(1));
}

#[test]
fn rejected_turn_keeps_the_text_and_the_reason() {
    let (event, disposition) = decide(Err(PlannerReplannerV2ApplyError::OutputDecode));
    assert_eq!(
        disposition,
        PlannerV2FinalizationDisposition::Rejected(PlannerTurnRejectionReasonV1::InvalidSchema)
    );
    let rejected = match &event.payload {
        EventPayload::PlannerTurnRejectedV1(rejected) => rejected,
        _ => panic!("not rejected"),
    };
    assert_eq!(rejected.reason, PlannerTurnRejectionReasonV1::InvalidSchema);
    let store = observed_store(success());
    assert_eq!(
        validate_planner_turn_rejected_v1(
            &store,
            &event,
            rejected,
            rejected_reads("{ \"turn\": [1, 2] }")
        ),
        Ok(())
    );
    assert_eq!(
        validate_planner_turn_rejected_v1(
            &store,
            &event,
            rejected,
            rejected_reads("{\"turn\":[1,2]}")
        ),
        Err(StoreError::InvalidStateEvent)
    );
    let mut other = rejected.clone();
    other.reason = PlannerTurnRejectionReasonV1::WrongPurpose;
    assert_eq!(
        validate_planner_turn_rejected_v1(
            &store,
            &event,
            &other,
            rejected_reads("{ \"turn\": [1, 2] }")
        ),
        Err(StoreError::InvalidStateEvent)
    );
}

#[test]
fn failed_turn_ends_the_run() {
    let store = observed_store(failure());
    let projection = projected(&store, vec![prepared_turn_reads(), other_turn_reads(13)]);
    assert!(matches!(
        projection.planner.next_action,
        PlannerNextAction::FinalizeObservedFailure { .. }
    ));
    let end = |authority: &PlannerV2FinalizationAuthority| {
        build_planner_v2_run_terminal_event(
            &store.contract,
            &projection,
            &prepared_event(),
            &observed_event(failure()),
            authority,
            false,
            Ok(artifact("application/planner-finalization")),
        )
    };
    match end(&finalization()) {
        Ok((new, disposition)) => {
            assert_eq!(disposition, PlannerV2FinalizationDisposition::RunFailed);
            assert_eq!(new.event.causal_parent, Some(EventId(13)));
            assert!(matches!(
                new.event.payload,
                EventPayload::RunStateChanged {
                    from: RunState::Running,
                    to: RunState::Failed,
                }
            ));
        }
        Err(error) => panic!("{error:?}"),
    }
    let mut early = finalization();
    early.finalized_at = clock(8);
    assert!(matches!(end(&early), Err(StoreError::InvalidStateEvent)));
}

#[test]
fn retained_evidence_is_what_was_observed() {
    assert!(matches!(
        retained_planner_v2_evidence(&PlannerV2ObservedEvidence::CancelledBeforeCall),
        RetainedInferenceEvidence::CancelledBeforeCall
    ));
    let observed = match response() {
        RetainedInferenceEvidence::Response { response } => response,
        _ => panic!("not a response"),
    };
    match retained_planner_v2_evidence(&PlannerV2ObservedEvidence::Response(observed)) {
        RetainedInferenceEvidence::Response { response } => {
            assert_eq!(response.raw_text.value, "{ \"turn\": [1, 2] }");
        }
        _ => panic!("not a response"),
    }
}

#[test]
fn root_plan_is_the_first_evidence() {
    let pair = match planner_evidence_pairs(
        &ready_store(),
        SESSION,
        RUN,
        &Ok(RootPlannerOutput {
            root_snapshot_sha256: text("root"),
            planner_policy_sha256: text("policy"),
            context_manifest_sha256: text("context"),
            body: text("{\"plan\":1}"),
        }),
        &Vec::new(),
    ) {
        Ok(mut pairs) => pairs.remove(0),
        Err(error) => panic!("{error:?}"),
    };
    assert_eq!(pair.durable_id, PlannerEvidenceEntryId(11));
    match &pair.durable {
        PlannerEvidenceMaterialV2::AcceptedRootPlan(root) => {
            assert_eq!(root.accepted_plan_event_id, EventId(11));
            assert_eq!(root.accepted_plan_revision, 1);
        }
        _ => panic!("not the root plan"),
    }
    assert!(matches!(
        planner_evidence_pairs(
            &ready_store(),
            SESSION,
            RUN,
            &Err(StoreError::ArtifactUnavailable),
            &Vec::new(),
        ),
        Err(StoreError::ArtifactUnavailable)
    ));
}

#[test]
fn decided_turn_is_found_again_under_its_authority() {
    let unread = || Err(StoreError::ArtifactUnavailable);
    let store = observed_store(success());
    let (event, disposition) = decide(Ok(applied()));
    assert_eq!(
        validate_existing_planner_v2_finalization(
            &store.contract,
            RUN,
            &finalization(),
            &event,
            &unread()
        ),
        Ok(disposition)
    );
    let (event, disposition) = decide(Err(PlannerReplannerV2ApplyError::OutputDecode));
    assert_eq!(
        validate_existing_planner_v2_finalization(
            &store.contract,
            RUN,
            &finalization(),
            &event,
            &unread()
        ),
        Ok(disposition)
    );
    let mut later = finalization();
    later.finalized_at = clock(12);
    assert_eq!(
        validate_existing_planner_v2_finalization(&store.contract, RUN, &later, &event, &unread()),
        Err(StoreError::IdentifiedEventConflict)
    );
}

#[test]
fn evidence_under_another_identity_is_refused() {
    let prepare = |evidence_id: u128| {
        let mut reads = preparation_reads();
        if let PlannerEvidenceInput::Fresh { reads: fresh } = &mut reads.evidence {
            let mut renamed = entry();
            renamed.evidence_id = PlannerEvidenceEntryId(evidence_id);
            let mut packet = prompt_packet();
            packet.entries[0].evidence_id = PlannerEvidenceEntryId(evidence_id);
            fresh.entries = Ok(vec![renamed]);
            fresh.packet = Ok(packet);
        }
        build_planner_v2_prepared_event(
            &ready_store(),
            RUN,
            &preparation_authority(),
            reads,
            request_results(),
        )
    };
    assert!(prepare(11).is_ok());
    assert!(matches!(prepare(12), Err(StoreError::InvalidStateEvent)));
}

//! The bootstrap of a pair of repository explorers, and its recovery.

use birdcode_store::artifact::{ArtifactRef, BackendKind, BackendSelection, Provenance};
use birdcode_store::child::{
    ChildDelegationAuthorizedV2, ChildExecutionStarted, ChildRepositoryAuthorityV1,
    ChildRepositoryToolGrantsV1, ChildWorkOrderIssued, ChildWorkOrderSpec,
};
use birdcode_store::child_outcome::ChildExecutionBinding;
use birdcode_store::child_replay::{
    ChildActiveClaim, ChildAttemptProjection, ChildRecoveryState, ChildReplay,
    ChildWorkOrderProjection, ChildWorkOrderState,
};
use birdcode_store::cleanup::{
    RepositoryFileIdentityV1, RepositoryUnixFileIdentityV1, RepositoryWriterLeaseEvidenceDocumentV1,
};
use birdcode_store::clock::{RuntimeClockReading, Timestamp};
use birdcode_store::contract::{
    Contract, ContractVersions, MediaTypes, PlanningPurposes, Producers, PromptKeys,
    ReconnaissanceLimits, RootPlanningPolicyLimits,
};
use birdcode_store::digest::Sha256Digest;
use birdcode_store::error::StoreError;
use birdcode_store::event::{EventEnvelope, EventPayload, IdentifiedNewEvent, NewEvent};
use birdcode_store::history::{EventLog, EventQuery, PayloadFilter};
use birdcode_store::identity::{
    ActorId, CancellationRequestId, ChildActorId, ChildAttemptId, ChildContextId,
    ChildDelegationAuthorizationId, ChildExecutionId, ChildLocalPlanId, ChildWorkOrderId, EventId,
    PlannerDelegateDirectiveId, PlannerTurnId, RepositorySnapshotLeaseId, RepositoryToolGrantId,
    RunClaimId, RunId, RuntimeInstanceId, SessionId, TokenReservationId,
};
use birdcode_store::lifecycle::{RepositorySnapshotLifecycleReplay, RepositorySnapshotOpenReplay};
use birdcode_store::lifecycle_identity::LifecycleIdentities;
use birdcode_store::parallel_recon_bootstrap::validate_fresh_child_replay;
use birdcode_store::planner_turn::{
    PlannerAcceptedDelegationV1, PlannerAcceptedDirectiveV1, PlannerBasePlanBindingV1, PlannerDelegatedWorkOrderBindingV1,
    PlannerPromptBindingsV1, PlannerPromptDirectiveKindV1, PlannerPromptDirectiveV1,
    PlannerPromptV2AcceptedOutputV1, PlannerPromptWorkSelectionV1, PlannerTurnAcceptedV1,
    PlannerTurnPurposeV1,
};
use birdcode_store::planner_v2_delegates::{accepted_delegate_children_are_terminal, ChildRead};
use birdcode_store::recon_bundle::{
    BootstrapDerivation, ChildAttemptStart, ChildRepositoryExplorerAttemptStartAuthority,
    FreshBootstrap, ParallelReconBootstrapAuthority, ParallelReconBootstrapOutcome,
    ParallelReconExactPairChildIdentityAuthority, ParallelReconExactPairIssuanceAuthority,
    ParallelReconExactPairMaterial,
};
use birdcode_store::recon_pair::{FreshPair, PairDerivation, ParallelReconExactPairIssuanceOutcome};
use birdcode_store::run::{
    CancellationRequested, PlanAcceptanceContract, Run, RunClaimed, RunLimits, RunPurpose, RunSpec,
    RunState, Session,
};
use birdcode_store::snapshot::{
    RepositorySnapshotCaptureIdentityV1, RepositorySnapshotImmutabilityLeaseV1,
    RepositorySnapshotLeaseIssuedV1, RepositorySnapshotV1, RepositoryWriterLeaseRevokedV1,
};
use birdcode_store::store::{RunStateRow, Store};
use birdcode_store::text::Text;

fn text(value: &str) -> Text {
    Text {
        value: value.to_owned(),
    }
}

fn contract() -> Contract {
    Contract {
        media: MediaTypes {
            root_planning_failure: text("application/root-planning-failure"),
            root_planning_stage_failure: text("application/root-planning-stage-failure"),
            root_planning_execution_policy: text("application/root-planning-policy"),
            plan_critic_policy: text("application/plan-critic-policy"),
            plan_critique: text("application/plan-critique"),
            plan_critique_validation: text("application/plan-critique-validation"),
            plan_proposal: text("application/plan-proposal"),
            plan_validation: text("application/plan-validation"),
            accepted_plan: text("application/accepted-plan"),
            retained_prompt: text("application/retained-prompt"),
            inference_request: text("application/inference-request"),
            inference_evidence: text("application/inference-evidence"),
            cancellation_boundary: text("application/cancellation-boundary"),
            planner_plan_v2: text("application/planner-plan"),
            planner_prompt_manifest_v2: text("application/planner-prompt-manifest"),
            planner_work_order_v2: text("application/planner-work-order"),
            planner_prompt_output_v2: text("application/planner-prompt-output"),
            planner_prompt_evidence_packet_v2: text("application/planner-prompt-packet"),
            planner_prompt_evidence_delta_v2: text("application/planner-prompt-delta"),
            planner_durable_evidence_packet_v2: text("application/planner-durable-packet"),
            planner_durable_evidence_delta_v2: text("application/planner-durable-delta"),
            planner_v2_finalization_evidence: text("application/planner-finalization"),
            child_execution_failure: text("application/child-failure"),
            child_handoff: text("application/child-handoff"),
            snapshot_lease: text("application/snapshot-lease"),
            cleanup_safety_evidence: text("application/cleanup-safety"),
            cleanup_process_inspection: text("application/cleanup-process"),
            cleanup_initial_inspection: text("application/cleanup-initial"),
            cleanup_topology_inspection: text("application/cleanup-topology"),
            hdiutil_info: text("application/hdiutil-info"),
            command_stderr: text("application/command-stderr"),
        },
        versions: ContractVersions {
            snapshot_cleanup: 1,
            snapshot_recovery_v2: 2,
            planner_turn: 1,
            planner_evidence: 2,
            child_reconnaissance: 1,
        },
        planning: RootPlanningPolicyLimits {
            schema_version: 1,
            max_model_calls: 4,
            max_repairs: 1,
            max_review_rounds: 2,
            initial_plan_max_output_tokens: 100,
            initial_review_max_output_tokens: 100,
            repair_max_output_tokens: 100,
            final_review_max_output_tokens: 100,
        },
        recon: ReconnaissanceLimits {
            max_planner_turns: 8,
            planner_attempts_per_stage: 2,
            max_planner_output_tokens_per_call: 100,
            max_planner_evidence_entries: 16,
            max_terminal_claim_events: 64,
        },
        producers: Producers {
            planner_preparation: text("planner-preparation"),
            planner_observation: text("planner-observation"),
            planner_unknown: text("planner-unknown"),
            planner_finalization: text("planner-finalization"),
        },
        purposes: PlanningPurposes {
            general: false,
            root_planning: true,
            reconnaissance: true,
        },
        prompts: PromptKeys {
            root_planner: text("root-planner"),
            plan_critic: text("plan-critic"),
            plan_repair: text("plan-repair"),
            planner_replanner_id: text("planner-replanner"),
            planner_replanner_version: text("2.0.0"),
        },
    }
}


fn time(seconds: i64) -> Timestamp {
    Timestamp {
        seconds,
        nanoseconds: 0,
    }
}

fn event(id: u128, sequence: u64, payload: EventPayload) -> EventEnvelope {
    EventEnvelope {
        id: EventId(id),
        sequence,
        session_id: SessionId(1),
        run_id: Some(RunId(2)),
        actor_id: ActorId(3),
        causal_parent: None,
        occurred_at: time(1_700_000_000),
        provenance: Provenance {
            producer: text("runtime"),
            backend: None,
            raw_artifact: None,
        },
        payload,
    }
}

fn claim(id: u128, sequence: u64, generation: u64) -> EventEnvelope {
    event(
        id,
        sequence,
        EventPayload::RunClaimed(RunClaimed {
            claim_id: RunClaimId(50),
            runtime_instance_id: RuntimeInstanceId(51),
            claim_generation: generation,
            cancellation_generation: 0,
            lease_expires_at: time(1_700_000_100),
        }),
    )
}

fn cancellation(id: u128, sequence: u64, generation: u64) -> EventEnvelope {
    event(
        id,
        sequence,
        EventPayload::CancellationRequested(CancellationRequested {
            cancellation_request_id: CancellationRequestId(60),
            cancellation_generation: generation,
        }),
    )
}

fn artifact(media_type: &str) -> ArtifactRef {
    ArtifactRef {
        sha256: text(&"a".repeat(64)),
        size_bytes: 10,
        media_type: text(media_type),
    }
}

fn log(events: Vec<EventEnvelope>) -> EventLog {
    match EventLog::from_events(events) {
        Ok(log) => log,
        Err(error) => panic!("not a log: {error:?}"),
    }
}

fn store(purpose: RunPurpose, events: Vec<EventEnvelope>) -> Store {
    Store {
        contract: contract(),
        log: log(events),
        sessions: vec![Session {
            id: SessionId(1),
            workspace_root: text("/repo"),
            title: None,
            created_at: time(1_699_999_000),
        }],
        runs: vec![Run {
            id: RunId(2),
            spec: RunSpec {
                session_id: SessionId(1),
                purpose,
                plan_acceptance: PlanAcceptanceContract::IndependentSemanticReviewV1,
                backend: BackendSelection {
                    backend_id: text("backend"),
                    kind: BackendKind::Model,
                    model: None,
                    reasoning_effort: None,
                },
                input: Vec::new(),
                limits: RunLimits {
                    max_output_tokens: Some(400),
                    max_wall_time_seconds: None,
                    max_subagents: 2,
                },
            },
            state: RunState::Queued,
            created_at: time(1_699_999_000),
        }],
        run_states: vec![RunStateRow {
            run_id: RunId(2),
            session_id: SessionId(1),
            state: RunState::Running,
            state_sequence: 2,
        }],
    }
}

const RUN: RunId = RunId(2);

const TURN: EventId = EventId(90);

const LEASE: EventId = EventId(91);

fn digest(letter: &str) -> Sha256Digest {
    match Sha256Digest::parse(&text(&letter.repeat(64))) {
        Some(digest) => digest,
        None => panic!("not a digest: {letter}"),
    }
}

fn snapshot() -> RepositorySnapshotV1 {
    RepositorySnapshotV1 {
        snapshot_id: text("snapshot"),
        immutability_lease: RepositorySnapshotImmutabilityLeaseV1 {
            lease_id: RepositorySnapshotLeaseId(30),
            lease_artifact: artifact("application/snapshot-lease"),
        },
    }
}

fn lease_event() -> EventEnvelope {
    event(
        91,
        2,
        EventPayload::RepositorySnapshotLeaseIssued(RepositorySnapshotLeaseIssuedV1 {
            snapshot: snapshot(),
            other_identities: LifecycleIdentities::none(),
        }),
    )
}

fn child(first: u128) -> ParallelReconExactPairChildIdentityAuthority {
    ParallelReconExactPairChildIdentityAuthority {
        authorization_event_id: EventId(first),
        authorization_id: ChildDelegationAuthorizationId(first + 1),
        issuance_event_id: EventId(first + 2),
        work_order_id: ChildWorkOrderId(first + 3),
        execution_id: ChildExecutionId(first + 4),
        child_actor_id: ChildActorId(first + 5),
        child_event_actor_id: ActorId(first + 6),
        context_id: ChildContextId(first + 7),
    }
}

fn start(first: u128) -> ChildRepositoryExplorerAttemptStartAuthority {
    ChildRepositoryExplorerAttemptStartAuthority {
        event_id: EventId(first),
        attempt_id: ChildAttemptId(first + 1),
        local_plan_id: ChildLocalPlanId(first + 2),
        started_at: RuntimeClockReading {
            runtime_instance_id: RuntimeInstanceId(51),
            monotonic_nanos: 7,
            observed_at: time(1_700_000_010),
        },
    }
}

fn authority() -> ParallelReconBootstrapAuthority {
    ParallelReconBootstrapAuthority {
        pair: ParallelReconExactPairIssuanceAuthority {
            accepted_planner_turn_event_id: TURN,
            snapshot_lease_event_id: LEASE,
            children: [child(100), child(200)],
            repository_tool_grant_ids: [
                RepositoryToolGrantId(300),
                RepositoryToolGrantId(301),
                RepositoryToolGrantId(302),
            ],
        },
        starts: [start(400), start(500)],
    }
}

fn spec(first: u128) -> ChildWorkOrderSpec {
    ChildWorkOrderSpec {
        work_order_id: ChildWorkOrderId(first + 3),
        execution_id: ChildExecutionId(first + 4),
        child_actor_id: ChildActorId(first + 5),
        child_event_actor_id: ActorId(first + 6),
        context_id: ChildContextId(first + 7),
        repository_authority: ChildRepositoryAuthorityV1 {
            policy_artifact: artifact("application/child-policy"),
            snapshot: snapshot(),
            snapshot_lease_event_id: LEASE,
            tool_grants: ChildRepositoryToolGrantsV1 {
                tree_grant_id: RepositoryToolGrantId(300),
                file_grant_id: RepositoryToolGrantId(301),
                search_grant_id: RepositoryToolGrantId(302),
            },
        },
    }
}

fn provenance() -> Provenance {
    Provenance {
        producer: text("runtime"),
        backend: None,
        raw_artifact: None,
    }
}

fn new_event(id: u128, parent: u128, payload: EventPayload) -> IdentifiedNewEvent {
    IdentifiedNewEvent {
        event_id: EventId(id),
        event: NewEvent {
            session_id: SessionId(1),
            run_id: Some(RUN),
            actor_id: ActorId(3),
            causal_parent: Some(EventId(parent)),
            provenance: provenance(),
            payload,
        },
    }
}

fn authorization(first: u128, parent: u128) -> IdentifiedNewEvent {
    new_event(
        first,
        parent,
        EventPayload::ChildDelegationAuthorizedV2(ChildDelegationAuthorizedV2 {
            authorization_id: ChildDelegationAuthorizationId(first + 1),
            accepted_planner_turn_event_id: TURN,
            planner_turn_id: PlannerTurnId(70),
            delegate_directive_id: PlannerDelegateDirectiveId(71),
            planner_work_order: PlannerDelegatedWorkOrderBindingV1 {
                work_order_id: text("order-a"),
                revision: 1,
                work_order_artifact: artifact("application/planner-work-order"),
                work_order_digest: digest("a"),
            },
            accepted_prompt_output_artifact: artifact("application/planner-prompt-output"),
            work_order_artifact: artifact("application/child-work-order"),
            context_manifest_artifact: artifact("application/child-context"),
            spec: spec(first),
        }),
    )
}

fn issuance(first: u128, parent: u128) -> IdentifiedNewEvent {
    new_event(
        first + 2,
        parent,
        EventPayload::ChildWorkOrderIssued(ChildWorkOrderIssued {
            authorization_event_id: EventId(first),
            spec: spec(first),
            work_order_artifact: artifact("application/child-work-order"),
            context_manifest_artifact: artifact("application/child-context"),
        }),
    )
}

fn attempt_start(first: u128, begun: u128, parent: u128) -> ChildAttemptStart {
    ChildAttemptStart {
        session_id: SessionId(1),
        run_id: Some(RUN),
        actor_id: ActorId(first + 6),
        causal_parent: Some(EventId(parent)),
        provenance: provenance(),
        started: ChildExecutionStarted {
            binding: ChildExecutionBinding {
                work_order_id: ChildWorkOrderId(first + 3),
                execution_id: ChildExecutionId(first + 4),
                attempt_id: ChildAttemptId(begun + 1),
            },
            local_plan_id: ChildLocalPlanId(begun + 2),
            started_at: start(begun).started_at,
        },
    }
}

fn held_claim() -> RunClaimed {
    match claim(10, 1, 1).payload {
        EventPayload::RunClaimed(held) => held,
        _ => unreachable!(),
    }
}

fn pair() -> ParallelReconExactPairMaterial {
    ParallelReconExactPairMaterial {
        session_id: SessionId(1),
        claim_event: claim(10, 1, 1),
        claim: held_claim(),
        deadline: time(1_700_000_050),
        policy_artifact: artifact("application/child-policy"),
        authorize_left: authorization(100, 91),
        authorize_right: authorization(200, 100),
        issue_left: issuance(100, 200),
        issue_right: issuance(200, 102),
    }
}

fn attempt(begun: u128) -> ChildAttemptProjection {
    ChildAttemptProjection {
        attempt_id: ChildAttemptId(begun + 1),
        local_plan_id: ChildLocalPlanId(begun + 2),
        started_event_id: EventId(begun),
        started_at: start(begun).started_at,
        terminal_event_id: None,
        outcome: None,
    }
}

fn replay(first: u128, attempts: Vec<ChildAttemptProjection>) -> ChildReplay {
    ChildReplay {
        spec: spec(first),
        active_claim: ChildActiveClaim {
            event_id: EventId(10),
            claim_id: RunClaimId(50),
            generation: 1,
            runtime_instance_id: RuntimeInstanceId(51),
            cancellation_generation: 0,
            lease_expires_at: time(1_700_000_100),
        },
        attempts,
    }
}

fn projection(first: u128, recovery: ChildRecoveryState) -> ChildWorkOrderProjection {
    let issued = issuance(first, 200);
    ChildWorkOrderProjection {
        issued_event: event(first + 2, 5, issued.event.payload),
        spec: spec(first),
        state: ChildWorkOrderState::Running,
        recovery,
        attempts: Vec::new(),
    }
}

fn active() -> RepositorySnapshotLifecycleReplay {
    let capture = RepositorySnapshotCaptureIdentityV1 {
        snapshot_id: text("snapshot"),
        lease_id: RepositorySnapshotLeaseId(30),
        snapshot_lease_event_id: LEASE,
    };
    let revocation = RepositoryWriterLeaseRevokedV1 {
        issuer_actor_id: ActorId(3),
        claim_event_id: EventId(10),
        claim_id: RunClaimId(50),
        claim_generation: 1,
        claim_runtime_instance_id: RuntimeInstanceId(51),
        cancellation_generation: 0,
        capture,
        evidence_artifact: artifact("application/writer-evidence"),
        evidence_digest: digest("a"),
    };
    let revocation_event =
        event(92, 2, EventPayload::RepositoryWriterLeaseRevoked(revocation.clone()));
    RepositorySnapshotLifecycleReplay::Active {
        open: RepositorySnapshotOpenReplay {
            writer_revocation_event: revocation_event.clone(),
            writer_revocation: revocation,
            latest_capture_event: revocation_event,
            active_claim_event: claim(10, 1, 1),
            active_claim: held_claim(),
            identity: None,
            writer_evidence: RepositoryWriterLeaseEvidenceDocumentV1 {
                schema_version: 1,
                writer_lease_id: text("writer"),
                writer_lease_generation: 1,
                source_path: text("/repo"),
                source_root_identity: RepositoryFileIdentityV1::Unix(
                    RepositoryUnixFileIdentityV1 {
                        device: 1,
                        inode: 2,
                        byte_len: 0,
                        modified_seconds: 1,
                        modified_nanoseconds: 0,
                        changed_seconds: 1,
                        changed_nanoseconds: 0,
                    },
                ),
                exclusive: true,
                active_writer_count: 0,
                revoked_at: start(400).started_at,
            },
        },
        lease_event: lease_event(),
    }
}

fn fresh() -> FreshBootstrap {
    FreshBootstrap {
        pair: Ok(pair()),
        checked_at: time(1_700_000_020),
        recorded_at: [time(1_700_000_020); 6],
        admissions: [Ok(()); 6],
        children: Ok((
            projection(100, ChildRecoveryState::ReadyForAttempt),
            projection(200, ChildRecoveryState::ReadyForAttempt),
        )),
        left_replay: Ok(replay(100, Vec::new())),
        left_start: Ok(attempt_start(100, 400, 202)),
        right_replay: Ok(replay(200, Vec::new())),
        right_start: Ok(attempt_start(200, 500, 400)),
        guards: [Ok(()); 2],
        lifecycle: Ok(active()),
    }
}

fn recorded() -> BootstrapDerivation {
    BootstrapDerivation {
        pair: Ok(pair()),
        children: Ok((
            projection(100, ChildRecoveryState::ReadyForModel),
            projection(200, ChildRecoveryState::ReadyForModel),
        )),
        left_replay: Ok(replay(100, vec![attempt(400)])),
        right_replay: Ok(replay(200, vec![attempt(500)])),
        left_start: Ok(attempt_start(100, 400, 202)),
        right_start: Ok(attempt_start(200, 500, 400)),
    }
}

fn leased_store() -> Store {
    store(
        RunPurpose::ParallelRepositoryReconnaissanceV1,
        vec![claim(10, 1, 1), lease_event()],
    )
}

fn identities(store: &Store) -> Vec<u128> {
    let all = EventQuery::in_run(SessionId(1), RUN, PayloadFilter::Any);
    store.log.select(&all).iter().map(|event| event.id.0).collect()
}

fn bootstrap(
    store: &mut Store,
    authority: ParallelReconBootstrapAuthority,
    fresh: FreshBootstrap,
) -> Result<&'static str, StoreError> {
    match store.bootstrap_parallel_recon_exact_pair(RUN, authority, fresh, recorded()) {
        Ok(ParallelReconBootstrapOutcome::Appended { .. }) => Ok("appended"),
        Ok(ParallelReconBootstrapOutcome::AlreadyPresent { .. }) => Ok("present"),
        Err(error) => Err(error),
    }
}

#[test]
fn bootstrap_is_recorded_whole_and_found_again() {
    let mut store = leased_store();
    assert_eq!(bootstrap(&mut store, authority(), fresh()), Ok("appended"));
    assert_eq!(identities(&store), vec![10, 91, 100, 200, 102, 202, 400, 500]);
    assert_eq!(bootstrap(&mut store, authority(), fresh()), Ok("present"));
    assert_eq!(store.log.len(), 8);
    match store.recover_parallel_recon_bootstrap(RUN, TURN, recorded()) {
        Ok(Some(material)) => {
            assert_eq!(material.children[0].authorization_event.id, EventId(100));
            assert_eq!(material.children[0].issuance_event.id, EventId(102));
            assert_eq!(material.children[1].started_event.id, EventId(500));
            assert_eq!(material.policy_artifact.media_type.value, "application/child-policy");
        }
        Ok(None) => panic!("nothing was recovered"),
        Err(error) => panic!("{error:?}"),
    }
}

#[test]
fn refused_bootstrap_records_nothing() {
    let refuse = |change: &dyn Fn(&mut FreshBootstrap)| {
        let mut store = leased_store();
        let mut given = fresh();
        change(&mut given);
        let refusal = bootstrap(&mut store, authority(), given);
        assert_eq!(store.log.len(), 2);
        refusal
    };
    assert_eq!(
        refuse(&|given| given.admissions[5] = Err(StoreError::ArtifactUnavailable)),
        Err(StoreError::ArtifactUnavailable)
    );
    assert_eq!(
        refuse(&|given| given.guards[1] = Err(StoreError::IdentifiedEventConflict)),
        Err(StoreError::IdentifiedEventConflict)
    );
    assert_eq!(
        refuse(&|given| given.lifecycle = Ok(RepositorySnapshotLifecycleReplay::Absent)),
        Err(StoreError::InvalidStateEvent)
    );
    assert_eq!(
        refuse(&|given| given.left_replay = Ok(replay(100, vec![attempt(400)]))),
        Err(StoreError::InvalidStateEvent)
    );
    assert_eq!(
        refuse(&|given| given.checked_at = time(1_700_000_009)),
        Err(StoreError::InvalidStateEvent)
    );
}

#[test]
fn another_pair_is_refused_once_one_stands() {
    let mut store = leased_store();
    assert_eq!(bootstrap(&mut store, authority(), fresh()), Ok("appended"));
    let mut other = authority();
    other.pair.children = [child(600), child(700)];
    other.starts = [start(800), start(900)];
    assert_eq!(bootstrap(&mut store, other, fresh()), Err(StoreError::InvalidStateEvent));
    let mut competing = fresh();
    competing.pair = Ok(ParallelReconExactPairMaterial {
        authorize_left: authorization(600, 91),
        authorize_right: authorization(700, 600),
        issue_left: issuance(600, 700),
        issue_right: issuance(700, 602),
        ..pair()
    });
    assert_eq!(bootstrap(&mut store, other, competing), Err(StoreError::InvalidStateEvent));
    let mut renamed = authority();
    renamed.pair.children[0].context_id = ChildContextId(999);
    assert_eq!(bootstrap(&mut store, renamed, fresh()), Err(StoreError::InvalidStateEvent));
    let mut restarted = authority();
    restarted.starts[0].attempt_id = ChildAttemptId(999);
    assert_eq!(
        bootstrap(&mut store, restarted, fresh()),
        Err(StoreError::IdentifiedEventConflict)
    );
    let mut mixed = authority();
    mixed.starts[1] = start(900);
    assert_eq!(bootstrap(&mut store, mixed, fresh()), Err(StoreError::InvalidStateEvent));
    assert_eq!(store.log.len(), 8);
}

#[test]
fn pair_of_another_session_or_turn_is_not_bootstrapped() {
    let refuse = |change: &dyn Fn(&mut ParallelReconExactPairMaterial)| {
        let mut store = leased_store();
        let mut derived = pair();
        change(&mut derived);
        let mut given = fresh();
        given.pair = Ok(derived);
        let refusal = bootstrap(&mut store, authority(), given);
        assert_eq!(store.log.len(), 2);
        refusal
    };
    assert_eq!(
        refuse(&|derived| derived.session_id = SessionId(9)),
        Err(StoreError::InvalidStateEvent)
    );
    assert_eq!(
        refuse(&|derived| derived.issue_left.event.run_id = None),
        Err(StoreError::InvalidStateEvent)
    );
    assert_eq!(
        refuse(&|derived| derived.authorize_right = authorization(100, 100)),
        Err(StoreError::InvalidStateEvent)
    );
}

#[test]
fn cancelled_run_is_not_bootstrapped() {
    let mut store = store(
        RunPurpose::ParallelRepositoryReconnaissanceV1,
        vec![claim(10, 1, 1), lease_event(), cancellation(11, 3, 1)],
    );
    assert_eq!(
        bootstrap(&mut store, authority(), fresh()),
        Err(StoreError::InvalidStateEvent)
    );
    assert_eq!(store.log.len(), 3);
}

#[test]
fn nothing_is_recovered_where_no_child_began() {
    assert!(matches!(
        leased_store().recover_parallel_recon_bootstrap(RUN, TURN, recorded()),
        Ok(None)
    ));
    let mut general = leased_store();
    general.runs[0].spec.purpose = RunPurpose::General;
    assert!(matches!(
        general.recover_parallel_recon_bootstrap(RUN, TURN, recorded()),
        Err(StoreError::InvalidStateEvent)
    ));
}

#[test]
fn pair_without_its_starts_fails_closed() {
    let mut whole = leased_store();
    assert_eq!(bootstrap(&mut whole, authority(), fresh()), Ok("appended"));
    let all = EventQuery::in_run(SessionId(1), RUN, PayloadFilter::Any);
    let events: Vec<EventEnvelope> =
        whole.log.select(&all).into_iter().take(6).cloned().collect();
    let mut split = store(RunPurpose::ParallelRepositoryReconnaissanceV1, events);
    assert!(matches!(
        split.recover_parallel_recon_bootstrap(RUN, TURN, recorded()),
        Err(StoreError::InvalidStateEvent)
    ));
    assert_eq!(
        bootstrap(&mut split, authority(), fresh()),
        Err(StoreError::InvalidStateEvent)
    );
    assert_eq!(split.log.len(), 6);
}

#[test]
fn fresh_replay_has_no_attempt_and_the_same_claim() {
    let child = projection(100, ChildRecoveryState::ReadyForAttempt);
    let check = |replay: Result<ChildReplay, StoreError>| {
        validate_fresh_child_replay(&replay, &child, &claim(10, 1, 1), &held_claim())
    };
    assert_eq!(check(Ok(replay(100, Vec::new()))), Ok(()));
    assert_eq!(check(Ok(replay(200, Vec::new()))), Err(StoreError::InvalidStateEvent));
    assert_eq!(
        check(Ok(replay(100, vec![attempt(400)]))),
        Err(StoreError::InvalidStateEvent)
    );
    let mut renewed = replay(100, Vec::new());
    renewed.active_claim.generation = 2;
    assert_eq!(check(Ok(renewed)), Err(StoreError::InvalidStateEvent));
    assert_eq!(
        check(Err(StoreError::ArtifactUnavailable)),
        Err(StoreError::ArtifactUnavailable)
    );
}


fn nothing_selected() -> PlannerPromptWorkSelectionV1 {
    PlannerPromptWorkSelectionV1 {
        existing: Vec::new(),
        new: Vec::new(),
    }
}

fn plan() -> PlannerBasePlanBindingV1 {
    PlannerBasePlanBindingV1 {
        accepted_event_id: EventId(80),
        revision: 1,
        digest: digest("a"),
        artifact: artifact("application/planner-plan"),
    }
}

fn turn_event(purpose: PlannerTurnPurposeV1) -> EventEnvelope {
    event(
        90,
        2,
        EventPayload::PlannerTurnAcceptedV1(PlannerTurnAcceptedV1 {
            turn_id: PlannerTurnId(70),
            purpose,
            prepared_event_id: EventId(81),
            observed_event_id: EventId(82),
            base_plan: plan(),
            resulting_plan: plan(),
            accepted_prompt_output_artifact: artifact("application/planner-prompt-output"),
            accepted_prompt_output_digest: digest("a"),
            accepted_prompt_output: PlannerPromptV2AcceptedOutputV1 {
                schema_version: 2,
                bindings: PlannerPromptBindingsV1 {
                    purpose,
                    prompt_id: text("planner-replanner"),
                    prompt_version: text("2.0.0"),
                    prompt_manifest_sha256: digest("a"),
                    plan_id: text("plan"),
                    base_revision: 1,
                    base_plan_sha256: digest("a"),
                    obligation_snapshot_sha256: digest("1"),
                    acceptance_policy_sha256: digest("2"),
                    context_manifest_sha256: digest("3"),
                    planner_policy_sha256: digest("4"),
                    evidence_packet_sha256: digest("5"),
                    previous_evidence_packet_sha256: None,
                    evidence_delta_sha256: digest("6"),
                    backend_id: text("backend"),
                    model_id: text("planner"),
                    reasoning: None,
                    budget_reservation_id: TokenReservationId(83),
                    max_output_tokens: 100,
                },
                directive: PlannerPromptDirectiveV1 {
                    kind: PlannerPromptDirectiveKindV1::Clarify,
                    execute: nothing_selected(),
                    delegations: Vec::new(),
                    clarifications: Vec::new(),
                    escalations: Vec::new(),
                    finish_claims: Vec::new(),
                },
            },
            resolved_directive: PlannerAcceptedDirectiveV1::Clarify {
                requests: Vec::new(),
            },
            validation_evidence_artifact: artifact("application/plan-validation"),
            validation_evidence_digest: digest("a"),
            accepted_at: start(400).started_at,
        }),
    )
}

fn accepted_store(purpose: PlannerTurnPurposeV1) -> Store {
    let mut lease = lease_event();
    lease.sequence = 3;
    store(
        RunPurpose::ParallelRepositoryReconnaissanceV1,
        vec![claim(10, 1, 1), turn_event(purpose), lease],
    )
}

fn derived() -> PairDerivation {
    PairDerivation {
        pair: Ok(pair()),
        children: Ok((
            projection(100, ChildRecoveryState::ReadyForAttempt),
            projection(200, ChildRecoveryState::ReadyForAttempt),
        )),
    }
}

fn fresh_pair() -> FreshPair {
    FreshPair {
        derived: derived(),
        recorded_at: [time(1_700_000_020); 4],
        admissions: [Ok(()); 4],
        guards: [Ok(()); 2],
    }
}

fn issue(store: &mut Store, fresh: FreshPair) -> Result<&'static str, StoreError> {
    match store.issue_parallel_recon_exact_pair(RUN, authority().pair, fresh, derived()) {
        Ok(ParallelReconExactPairIssuanceOutcome::Appended { .. }) => Ok("appended"),
        Ok(ParallelReconExactPairIssuanceOutcome::AlreadyPresent { .. }) => Ok("present"),
        Err(error) => Err(error),
    }
}

#[test]
fn pair_is_issued_once_and_found_again() {
    let mut store = accepted_store(PlannerTurnPurposeV1::InitialDelegation);
    assert_eq!(issue(&mut store, fresh_pair()), Ok("appended"));
    assert_eq!(identities(&store), vec![10, 90, 91, 100, 200, 102, 202]);
    assert_eq!(issue(&mut store, fresh_pair()), Ok("present"));
    assert_eq!(store.log.len(), 7);
    match store.recover_parallel_recon_exact_pair(RUN, TURN, derived()) {
        Ok(Some(found)) => {
            assert_eq!(found.children[0].authorization_event.id, EventId(100));
            assert_eq!(found.children[1].issuance_event.id, EventId(202));
        }
        Ok(None) => panic!("nothing was recovered"),
        Err(error) => panic!("{error:?}"),
    }
}

#[test]
fn issued_pair_is_neither_bootstrapped_nor_recovered_as_one() {
    let mut store = accepted_store(PlannerTurnPurposeV1::InitialDelegation);
    assert_eq!(issue(&mut store, fresh_pair()), Ok("appended"));
    assert_eq!(
        bootstrap(&mut store, authority(), fresh()),
        Err(StoreError::InvalidStateEvent)
    );
    assert!(matches!(
        store.recover_parallel_recon_bootstrap(RUN, TURN, recorded()),
        Err(StoreError::InvalidStateEvent)
    ));
    assert_eq!(store.log.len(), 7);
}

#[test]
fn refused_pair_records_nothing() {
    let mut store = accepted_store(PlannerTurnPurposeV1::InitialDelegation);
    let mut late = fresh_pair();
    late.guards[1] = Err(StoreError::IdentifiedEventConflict);
    assert_eq!(issue(&mut store, late), Err(StoreError::IdentifiedEventConflict));
    let mut unfit = fresh_pair();
    unfit.admissions[2] = Err(StoreError::ArtifactUnavailable);
    assert_eq!(issue(&mut store, unfit), Err(StoreError::ArtifactUnavailable));
    assert_eq!(store.log.len(), 3);
}

#[test]
fn altered_or_late_pair_is_not_recovered() {
    let mut store = accepted_store(PlannerTurnPurposeV1::InitialDelegation);
    assert_eq!(issue(&mut store, fresh_pair()), Ok("appended"));
    let mut altered = derived();
    altered.pair = Ok(ParallelReconExactPairMaterial {
        issue_right: issuance(200, 100),
        ..pair()
    });
    assert!(matches!(
        store.recover_parallel_recon_exact_pair(RUN, TURN, altered),
        Err(StoreError::IdentifiedEventConflict)
    ));
    let mut late = derived();
    late.pair = Ok(ParallelReconExactPairMaterial {
        deadline: time(1_700_000_019),
        ..pair()
    });
    assert!(matches!(
        store.recover_parallel_recon_exact_pair(RUN, TURN, late),
        Err(StoreError::InvalidStateEvent)
    ));
}

#[test]
fn pair_is_sought_under_a_first_delegation_only() {
    assert!(matches!(
        accepted_store(PlannerTurnPurposeV1::InitialDelegation)
            .recover_parallel_recon_exact_pair(RUN, TURN, derived()),
        Ok(None)
    ));
    assert!(matches!(
        accepted_store(PlannerTurnPurposeV1::EvidenceReplan)
            .recover_parallel_recon_exact_pair(RUN, TURN, derived()),
        Err(StoreError::InvalidStateEvent)
    ));
    let mut alone = accepted_store(PlannerTurnPurposeV1::InitialDelegation);
    alone.runs[0].spec.limits.max_subagents = 1;
    assert!(matches!(
        alone.recover_parallel_recon_exact_pair(RUN, TURN, derived()),
        Err(StoreError::InvalidStateEvent)
    ));
}

fn order(name: &str) -> PlannerDelegatedWorkOrderBindingV1 {
    PlannerDelegatedWorkOrderBindingV1 {
        work_order_id: text(name),
        revision: 1,
        work_order_artifact: artifact("application/planner-work-order"),
        work_order_digest: digest("a"),
    }
}

fn delegations() -> Vec<PlannerAcceptedDelegationV1> {
    vec![PlannerAcceptedDelegationV1 {
        directive_id: PlannerDelegateDirectiveId(71),
        source_delegation_index: 0,
        work_orders: vec![order("order-a"), order("order-b")],
    }]
}

fn authorized(first: u128, sequence: u64, name: &str) -> EventEnvelope {
    let mut payload = authorization(first, 91).event.payload;
    if let EventPayload::ChildDelegationAuthorizedV2(authorized) = &mut payload {
        authorized.planner_work_order = order(name);
    }
    event(first, sequence, payload)
}

fn issued(first: u128, sequence: u64) -> EventEnvelope {
    event(first + 2, sequence, issuance(first, 91).event.payload)
}

fn ended(first: u128, sequence: u64) -> ChildRead {
    let mut projection = projection(
        first,
        ChildRecoveryState::Terminal {
            terminal_event_id: EventId(990),
        },
    );
    projection.issued_event = issued(first, sequence);
    projection.state = ChildWorkOrderState::Succeeded;
    ChildRead {
        work_order_id: ChildWorkOrderId(first + 3),
        projection: Ok(Some(projection)),
    }
}

fn delegated(events: Vec<EventEnvelope>) -> Result<bool, StoreError> {
    let mut history = vec![claim(10, 1, 1), turn_event(PlannerTurnPurposeV1::InitialDelegation)];
    history.extend(events);
    let store = store(RunPurpose::ParallelRepositoryReconnaissanceV1, history);
    accepted_delegate_children_are_terminal(
        &store,
        SessionId(1),
        RUN,
        TURN,
        2,
        PlannerTurnId(70),
        &delegations(),
        &vec![ended(100, 5), ended(200, 6)],
    )
}

#[test]
fn delegated_work_is_done_as_a_whole() {
    let whole = vec![
        authorized(100, 3, "order-a"),
        authorized(200, 4, "order-b"),
        issued(100, 5),
        issued(200, 6),
    ];
    assert_eq!(delegated(whole.clone()), Ok(true));
    assert_eq!(delegated(Vec::new()), Ok(false));
    assert_eq!(delegated(whole[..2].to_vec()), Ok(false));
    assert_eq!(delegated(whole[..3].to_vec()), Ok(false));
    assert_eq!(
        delegated(vec![authorized(100, 3, "order-a"), issued(100, 5)]),
        Ok(false)
    );
}

#[test]
fn duplicate_or_mismatched_authority_fails_closed() {
    assert_eq!(
        delegated(vec![
            authorized(100, 3, "order-a"),
            authorized(200, 4, "order-a"),
            issued(200, 6),
        ]),
        Err(StoreError::InvalidStateEvent)
    );
    assert_eq!(
        delegated(vec![
            authorized(100, 3, "order-a"),
            authorized(200, 4, "order-c"),
        ]),
        Err(StoreError::InvalidStateEvent)
    );
    let mut again = issued(200, 7);
    again.id = EventId(991);
    assert_eq!(
        delegated(vec![
            authorized(100, 3, "order-a"),
            authorized(200, 4, "order-b"),
            issued(200, 6),
            again,
        ]),
        Err(StoreError::InvalidStateEvent)
    );
    let mut altered = issued(200, 6);
    if let EventPayload::ChildWorkOrderIssued(issuance) = &mut altered.payload {
        issuance.spec = spec(100);
    }
    assert_eq!(
        delegated(vec![
            authorized(100, 3, "order-a"),
            authorized(200, 4, "order-b"),
            altered,
        ]),
        Err(StoreError::InvalidStateEvent)
    );
}

//! The event log, and what it admits.

use birdcode_store::artifact::{ArtifactRef, BackendKind, BackendSelection, Provenance};
use birdcode_store::artifact_references::child_event_references_artifact;
use birdcode_store::child::{
    ChildExecutionClaimAdopted, ChildExecutionFinished, ChildExecutionStarted,
};
use birdcode_store::child_outcome::{
    ChildCancellationCauseV1, ChildExecutionBinding, ChildExecutionOutcome,
};
use birdcode_store::claim_history::{
    holds_latest_claim, latest_cancellation_generation, latest_cancellation_generation_before,
    latest_claim_for_run, latest_claim_for_run_before,
};
use birdcode_store::clock::{RuntimeClockReading, Timestamp};
use birdcode_store::contract::{
    Contract, ContractVersions, MediaTypes, PlanningPurposes, Producers, PromptKeys,
    ReconnaissanceLimits, RootPlanningPolicyLimits,
};
use birdcode_store::error::StoreError;
use birdcode_store::event::{EventEnvelope, EventPayload};
use birdcode_store::event_admission::{
    child_work_order_id, is_child_terminal_reconciliation, pending_cleanup_blocks_payload,
    reject_parallel_recon_generic_child_append, reject_parallel_recon_generic_claim_adoption,
    validate_generic_event, validate_pending_cleanup_authority_fence,
    validate_root_planning_failure_fence, EventAdmission, EventValidator, GenericAdmission,
};
use birdcode_store::history::{EventLog, EventQuery, PayloadFilter};
use birdcode_store::identity::{
    ActorId, CancellationRequestId, ChildActorId, ChildAttemptId, ChildContextId,
    ChildDelegationAuthorizationId, ChildExecutionId, ChildLocalPlanId, ChildWorkOrderId, EventId,
    RepositorySnapshotLeaseId, RepositoryToolGrantId, RunClaimId, RunId, RuntimeInstanceId,
    SessionId, WorkspaceRecoveryFinalizationId,
};
use birdcode_store::lifecycle::RepositorySnapshotLifecycleReplay;
use birdcode_store::lifecycle_identity::LifecycleIdentities;
use birdcode_store::parallel_recon_bootstrap::validate_start_clock;
use birdcode_store::planning::{
    RootPlanningFailed, RootPlanningFailurePhase, RootPlanningFailureReason,
};
use birdcode_store::recon_bundle::{
    bootstrap_event_ids, require_contiguous_bundle, validate_bootstrap_identity_budget,
    ChildRepositoryExplorerAttemptStartAuthority, ParallelReconBootstrapAuthority,
    ParallelReconExactPairChildIdentityAuthority, ParallelReconExactPairIssuanceAuthority,
};
use birdcode_store::recon_recovery::{bootstrap_start_authority, no_parallel_recon_child_history};
use birdcode_store::run::{
    CancellationRequested, InputItem, PlanAcceptanceContract, Run, RunClaimed, RunLimits,
    RunPurpose, RunSpec, RunState, Session,
};
use birdcode_store::snapshot::{
    RepositorySnapshotImmutabilityLeaseV1, RepositorySnapshotLeaseIssuedV1, RepositorySnapshotV1,
    WorkspaceRecoveryFinalizedV1,
};
use birdcode_store::store::{RunStateRow, Store};
use birdcode_store::text::Text;

fn text(value: &str) -> Text {
    Text {
        value: value.to_owned(),
    }
}

fn contract() -> Contract {
    Contract {
        media: MediaTypes {
            root_planning_failure: text("application/root-planning-failure"),
            root_planning_stage_failure: text("application/root-planning-stage-failure"),
            root_planning_execution_policy: text("application/root-planning-policy"),
            plan_critic_policy: text("application/plan-critic-policy"),
            plan_critique: text("application/plan-critique"),
            plan_critique_validation: text("application/plan-critique-validation"),
            plan_proposal: text("application/plan-proposal"),
            plan_validation: text("application/plan-validation"),
            accepted_plan: text("application/accepted-plan"),
            retained_prompt: text("application/retained-prompt"),
            inference_request: text("application/inference-request"),
            inference_evidence: text("application/inference-evidence"),
            cancellation_boundary: text("application/cancellation-boundary"),
            planner_plan_v2: text("application/planner-plan"),
            planner_prompt_manifest_v2: text("application/planner-prompt-manifest"),
            planner_work_order_v2: text("application/planner-work-order"),
            planner_prompt_output_v2: text("application/planner-prompt-output"),
            planner_prompt_evidence_packet_v2: text("application/planner-prompt-packet"),
            planner_prompt_evidence_delta_v2: text("application/planner-prompt-delta"),
            planner_durable_evidence_packet_v2: text("application/planner-durable-packet"),
            planner_durable_evidence_delta_v2: text("application/planner-durable-delta"),
            planner_v2_finalization_evidence: text("application/planner-finalization"),
            child_execution_failure: text("application/child-failure"),
            child_handoff: text("application/child-handoff"),
            snapshot_lease: text("application/snapshot-lease"),
            cleanup_safety_evidence: text("application/cleanup-safety"),
            cleanup_process_inspection: text("application/cleanup-process"),
            cleanup_initial_inspection: text("application/cleanup-initial"),
            cleanup_topology_inspection: text("application/cleanup-topology"),
            hdiutil_info: text("application/hdiutil-info"),
            command_stderr: text("application/command-stderr"),
        },
        versions: ContractVersions {
            snapshot_cleanup: 1,
            snapshot_recovery_v2: 2,
            planner_turn: 1,
            planner_evidence: 2,
            child_reconnaissance: 1,
        },
        planning: RootPlanningPolicyLimits {
            schema_version: 1,
            max_model_calls: 4,
            max_repairs: 1,
            max_review_rounds: 2,
            initial_plan_max_output_tokens: 100,
            initial_review_max_output_tokens: 100,
            repair_max_output_tokens: 100,
            final_review_max_output_tokens: 100,
        },
        recon: ReconnaissanceLimits {
            max_planner_turns: 8,
            planner_attempts_per_stage: 2,
            max_planner_output_tokens_per_call: 100,
            max_planner_evidence_entries: 16,
            max_terminal_claim_events: 64,
        },
        producers: Producers {
            planner_preparation: text("planner-preparation"),
            planner_observation: text("planner-observation"),
            planner_unknown: text("planner-unknown"),
            planner_finalization: text("planner-finalization"),
        },
        purposes: PlanningPurposes {
            general: false,
            root_planning: true,
            reconnaissance: true,
        },
        prompts: PromptKeys {
            root_planner: text("root-planner"),
            plan_critic: text("plan-critic"),
            plan_repair: text("plan-repair"),
            planner_replanner_id: text("planner-replanner"),
            planner_replanner_version: text("2.0.0"),
        },
    }
}


fn time(seconds: i64) -> Timestamp {
    Timestamp {
        seconds,
        nanoseconds: 0,
    }
}

fn event(id: u128, sequence: u64, payload: EventPayload) -> EventEnvelope {
    EventEnvelope {
        id: EventId(id),
        sequence,
        session_id: SessionId(1),
        run_id: Some(RunId(2)),
        actor_id: ActorId(3),
        causal_parent: None,
        occurred_at: time(1_700_000_000),
        provenance: Provenance {
            producer: text("runtime"),
            backend: None,
            raw_artifact: None,
        },
        payload,
    }
}

fn claim(id: u128, sequence: u64, generation: u64) -> EventEnvelope {
    event(
        id,
        sequence,
        EventPayload::RunClaimed(RunClaimed {
            claim_id: RunClaimId(50),
            runtime_instance_id: RuntimeInstanceId(51),
            claim_generation: generation,
            cancellation_generation: 0,
            lease_expires_at: time(1_700_000_100),
        }),
    )
}

fn cancellation(id: u128, sequence: u64, generation: u64) -> EventEnvelope {
    event(
        id,
        sequence,
        EventPayload::CancellationRequested(CancellationRequested {
            cancellation_request_id: CancellationRequestId(60),
            cancellation_generation: generation,
        }),
    )
}

fn input(id: u128, sequence: u64) -> EventEnvelope {
    event(id, sequence, EventPayload::UserInput { items: Vec::new() })
}

fn artifact(media_type: &str) -> ArtifactRef {
    ArtifactRef {
        sha256: text(&"a".repeat(64)),
        size_bytes: 10,
        media_type: text(media_type),
    }
}

fn failure() -> RootPlanningFailed {
    RootPlanningFailed {
        claim_event_id: EventId(10),
        claim_id: RunClaimId(50),
        cancellation_generation: 0,
        phase: RootPlanningFailurePhase::Preflight,
        reason: RootPlanningFailureReason::InvalidWallDeadline,
        model_subject: None,
        evidence_artifact: artifact("application/root-planning-failure"),
        other_identities: LifecycleIdentities::none(),
    }
}

fn log(events: Vec<EventEnvelope>) -> EventLog {
    match EventLog::from_events(events) {
        Ok(log) => log,
        Err(error) => panic!("not a log: {error:?}"),
    }
}

fn store(purpose: RunPurpose, events: Vec<EventEnvelope>) -> Store {
    Store {
        contract: contract(),
        log: log(events),
        sessions: vec![Session {
            id: SessionId(1),
            workspace_root: text("/repo"),
            title: None,
            created_at: time(1_699_999_000),
        }],
        runs: vec![Run {
            id: RunId(2),
            spec: RunSpec {
                session_id: SessionId(1),
                purpose,
                plan_acceptance: PlanAcceptanceContract::IndependentSemanticReviewV1,
                backend: BackendSelection {
                    backend_id: text("backend"),
                    kind: BackendKind::Model,
                    model: None,
                    reasoning_effort: None,
                },
                input: Vec::new(),
                limits: RunLimits {
                    max_output_tokens: Some(400),
                    max_wall_time_seconds: None,
                    max_subagents: 2,
                },
            },
            state: RunState::Queued,
            created_at: time(1_699_999_000),
        }],
        run_states: vec![RunStateRow {
            run_id: RunId(2),
            session_id: SessionId(1),
            state: RunState::Running,
            state_sequence: 2,
        }],
    }
}

fn ids(events: &[&EventEnvelope]) -> Vec<u128> {
    events.iter().map(|event| event.id.0).collect()
}


#[test]
fn log_holds_each_identity_once_and_each_session_in_sequence() {
    assert!(EventLog::from_events(vec![input(1, 1), input(2, 5)]).is_ok());
    assert!(matches!(
        EventLog::from_events(vec![input(1, 1), input(1, 2)]),
        Err(StoreError::InvalidStateEvent)
    ));
    assert!(matches!(
        EventLog::from_events(vec![input(1, 2), input(2, 2)]),
        Err(StoreError::InvalidStateEvent)
    ));
    let mut elsewhere = input(2, 1);
    elsewhere.session_id = SessionId(9);
    assert!(EventLog::from_events(vec![input(1, 2), elsewhere]).is_ok());
}

#[test]
fn refused_batch_leaves_the_log_alone() {
    let mut log = log(vec![input(1, 1)]);
    assert_eq!(
        log.append_all(vec![input(2, 2), input(3, 2)]),
        Err(StoreError::InvalidStateEvent)
    );
    assert_eq!(log.len(), 1);
    assert_eq!(log.append_all(vec![input(2, 2), input(3, 3)]), Ok(()));
    assert_eq!(log.len(), 3);
    assert_eq!(log.append_all(vec![input(1, 4)]), Err(StoreError::InvalidStateEvent));
    assert_eq!(log.len(), 3);
}

#[test]
fn sequences_count_on_per_session() {
    let log_of_two = log(vec![input(1, 1), input(2, 7)]);
    assert_eq!(log_of_two.next_sequence(SessionId(1)), Ok(8));
    assert_eq!(log_of_two.next_sequence(SessionId(9)), Ok(1));
    let full = log(vec![input(1, 0x7fff_ffff_ffff_ffff)]);
    assert_eq!(full.next_sequence(SessionId(1)), Err(StoreError::SequenceOverflow));
}

#[test]
fn selection_keeps_the_order_of_the_log() {
    let log = log(vec![input(1, 1), claim(2, 2, 1), input(3, 3), claim(4, 4, 2)]);
    let claims = EventQuery::in_run(SessionId(1), RunId(2), PayloadFilter::RunClaimed);
    assert_eq!(ids(&log.select(&claims)), vec![2, 4]);
    assert_eq!(log.count(&claims), 2);
    assert_eq!(log.first(&claims).map(|event| event.id.0), Some(2));
    assert_eq!(log.last(&claims).map(|event| event.id.0), Some(4));
    let early = EventQuery::in_run(SessionId(1), RunId(2), PayloadFilter::RunClaimed).before(4);
    assert_eq!(ids(&log.select(&early)), vec![2]);
    let late = EventQuery::in_run(SessionId(1), RunId(2), PayloadFilter::Any).starting_at(3);
    assert_eq!(ids(&log.select(&late)), vec![3, 4]);
    let others = EventQuery::in_run(SessionId(1), RunId(2), PayloadFilter::NotRunClaimed);
    assert_eq!(ids(&log.select(&others)), vec![1, 3]);
    let foreign = EventQuery::in_run(SessionId(9), RunId(2), PayloadFilter::Any);
    assert_eq!(log.count(&foreign), 0);
}

#[test]
fn one_identity_selects_one_event() {
    let log = log(vec![input(1, 1), input(2, 2)]);
    let query = EventQuery::by_id(SessionId(1), RunId(2), EventId(2));
    assert_eq!(ids(&log.select(&query)), vec![2]);
    assert!(log.event(SessionId(1), RunId(2), EventId(2)).is_ok());
    assert!(matches!(
        log.event(SessionId(1), RunId(8), EventId(2)),
        Err(StoreError::InvalidStateEvent)
    ));
}

#[test]
fn latest_claim_and_cancellation_are_found() {
    let log = log(vec![
        claim(10, 1, 1),
        cancellation(11, 2, 1),
        claim(12, 3, 2),
        cancellation(13, 4, 2),
    ]);
    let (session, run) = (SessionId(1), RunId(2));
    assert_eq!(latest_claim_for_run(&log, session, run).map(|event| event.id.0), Some(12));
    assert_eq!(
        latest_claim_for_run_before(&log, session, run, 3).map(|event| event.id.0),
        Some(10)
    );
    assert_eq!(latest_cancellation_generation(&log, session, run), 2);
    assert_eq!(latest_cancellation_generation_before(&log, session, run, 4), 1);
    assert_eq!(latest_cancellation_generation_before(&log, session, run, 2), 0);
    assert!(holds_latest_claim(&log, session, run, &claim(12, 3, 2)));
    assert!(!holds_latest_claim(&log, session, run, &claim(10, 1, 1)));
}

#[test]
fn pending_cleanup_holds_new_authority_back() {
    let store = store(RunPurpose::ParallelRepositoryReconnaissanceV1, vec![claim(10, 1, 1)]);
    let lease = event(
        20,
        2,
        EventPayload::RepositorySnapshotLeaseIssued(RepositorySnapshotLeaseIssuedV1 {
            snapshot: RepositorySnapshotV1 {
                snapshot_id: text("snapshot"),
                immutability_lease: RepositorySnapshotImmutabilityLeaseV1 {
                    lease_id: RepositorySnapshotLeaseId(30),
                    lease_artifact: artifact("application/snapshot-lease"),
                },
            },
            other_identities: LifecycleIdentities::none(),
        }),
    );
    assert!(pending_cleanup_blocks_payload(&lease.payload));
    assert_eq!(
        validate_pending_cleanup_authority_fence(
            &store,
            &lease,
            &Ok(RepositorySnapshotLifecycleReplay::Absent)
        ),
        Ok(())
    );
    assert_eq!(
        validate_pending_cleanup_authority_fence(
            &store,
            &lease,
            &Err(StoreError::ArtifactUnavailable)
        ),
        Err(StoreError::ArtifactUnavailable)
    );
    let mut unknown = lease.clone();
    unknown.run_id = Some(RunId(9));
    assert_eq!(
        validate_pending_cleanup_authority_fence(
            &store,
            &unknown,
            &Ok(RepositorySnapshotLifecycleReplay::Absent)
        ),
        Err(StoreError::InvalidStateEvent)
    );
    assert!(!pending_cleanup_blocks_payload(&cancellation(1, 1, 1).payload));
}

#[test]
fn failed_planning_admits_only_the_end_of_the_run() {
    let store = store(
        RunPurpose::RootPlanningV1,
        vec![claim(10, 1, 1), event(11, 2, EventPayload::RootPlanningFailed(failure()))],
    );
    assert_eq!(
        validate_root_planning_failure_fence(&store, &input(12, 3)),
        Err(StoreError::InvalidStateEvent)
    );
    assert_eq!(validate_root_planning_failure_fence(&store, &claim(12, 3, 2)), Ok(()));
    assert_eq!(validate_root_planning_failure_fence(&store, &cancellation(12, 3, 1)), Ok(()));
    let end = event(
        12,
        3,
        EventPayload::RunStateChanged {
            from: RunState::Running,
            to: RunState::Failed,
        },
    );
    assert_eq!(validate_root_planning_failure_fence(&store, &end), Ok(()));
}

#[test]
fn generic_append_routes_or_refuses() {
    let store = store(RunPurpose::General, vec![claim(10, 1, 1)]);
    let route = |event: &EventEnvelope| {
        validate_generic_event(
            &store,
            event,
            EventAdmission::PublicAppend,
            &Ok(RepositorySnapshotLifecycleReplay::Absent),
            Ok(()),
        )
    };
    assert_eq!(route(&input(20, 2)), Ok(GenericAdmission::Admitted));
    assert_eq!(
        route(&cancellation(20, 2, 1)),
        Ok(GenericAdmission::Requires(EventValidator::Cancellation))
    );
    assert_eq!(
        route(&event(20, 2, EventPayload::RootPlanningFailed(failure()))),
        Ok(GenericAdmission::Requires(EventValidator::RootPlanningFailure))
    );
    let finalized = event(
        20,
        2,
        EventPayload::WorkspaceRecoveryFinalizedV1(WorkspaceRecoveryFinalizedV1 {
            finalization_id: WorkspaceRecoveryFinalizationId(4),
            other_identities: LifecycleIdentities::none(),
        }),
    );
    assert_eq!(route(&finalized), Err(StoreError::InvalidStateEvent));
    let mut backend = event(
        20,
        2,
        EventPayload::BackendEvent {
            event_name: text("heartbeat"),
        },
    );
    assert_eq!(route(&backend), Ok(GenericAdmission::Admitted));
    backend.run_id = None;
    assert_eq!(route(&backend), Err(StoreError::InvalidStateEvent));
}

#[test]
fn reconnaissance_children_begin_in_a_bootstrap() {
    let store = store(RunPurpose::ParallelRepositoryReconnaissanceV1, vec![claim(10, 1, 1)]);
    let adoption = event(
        20,
        2,
        EventPayload::ChildExecutionClaimAdopted(ChildExecutionClaimAdopted {
            work_order_id: ChildWorkOrderId(5),
            other_identities: LifecycleIdentities::none(),
        }),
    );
    assert_eq!(
        reject_parallel_recon_generic_child_append(
            &store,
            &adoption,
            EventAdmission::PublicAppend
        ),
        Err(StoreError::InvalidStateEvent)
    );
    assert_eq!(
        reject_parallel_recon_generic_child_append(
            &store,
            &adoption,
            EventAdmission::ParallelReconBootstrap
        ),
        Ok(())
    );
    assert_eq!(
        reject_parallel_recon_generic_claim_adoption(
            &store,
            &adoption,
            EventAdmission::PublicAppend
        ),
        Err(StoreError::InvalidStateEvent)
    );
    assert_eq!(
        reject_parallel_recon_generic_claim_adoption(
            &store,
            &adoption,
            EventAdmission::ParallelReconClaimRefresh
        ),
        Ok(())
    );
}

fn child(first: u128) -> ParallelReconExactPairChildIdentityAuthority {
    ParallelReconExactPairChildIdentityAuthority {
        authorization_event_id: EventId(first),
        authorization_id: ChildDelegationAuthorizationId(first + 1),
        issuance_event_id: EventId(first + 2),
        work_order_id: ChildWorkOrderId(first + 3),
        execution_id: ChildExecutionId(first + 4),
        child_actor_id: ChildActorId(first + 5),
        child_event_actor_id: ActorId(first + 6),
        context_id: ChildContextId(first + 7),
    }
}

fn start(first: u128) -> ChildRepositoryExplorerAttemptStartAuthority {
    ChildRepositoryExplorerAttemptStartAuthority {
        event_id: EventId(first),
        attempt_id: ChildAttemptId(first + 1),
        local_plan_id: ChildLocalPlanId(first + 2),
        started_at: RuntimeClockReading {
            runtime_instance_id: RuntimeInstanceId(51),
            monotonic_nanos: 7,
            observed_at: time(1_700_000_010),
        },
    }
}

fn authority() -> ParallelReconBootstrapAuthority {
    ParallelReconBootstrapAuthority {
        pair: ParallelReconExactPairIssuanceAuthority {
            accepted_planner_turn_event_id: EventId(90),
            snapshot_lease_event_id: EventId(91),
            children: [child(100), child(200)],
            repository_tool_grant_ids: [
                RepositoryToolGrantId(300),
                RepositoryToolGrantId(301),
                RepositoryToolGrantId(302),
            ],
        },
        starts: [start(400), start(500)],
    }
}

#[test]
fn bootstrap_writes_its_six_events_in_order() {
    let ids: Vec<u128> = bootstrap_event_ids(&authority()).iter().map(|id| id.0).collect();
    assert_eq!(ids, vec![100, 200, 102, 202, 400, 500]);
}

#[test]
fn bootstrap_identities_are_distinct_and_named() {
    assert_eq!(validate_bootstrap_identity_budget(&authority()), Ok(()));
    let mut shared = authority();
    shared.starts[1].event_id = EventId(100);
    assert_eq!(
        validate_bootstrap_identity_budget(&shared),
        Err(StoreError::InvalidStateEvent)
    );
    let mut nil = authority();
    nil.pair.children[0].context_id = ChildContextId(0);
    assert_eq!(validate_bootstrap_identity_budget(&nil), Err(StoreError::InvalidStateEvent));
    let mut attempts = authority();
    attempts.starts[1].attempt_id = attempts.starts[0].attempt_id;
    assert_eq!(
        validate_bootstrap_identity_budget(&attempts),
        Err(StoreError::InvalidStateEvent)
    );
    let mut grants = authority();
    grants.pair.repository_tool_grant_ids[2] = RepositoryToolGrantId(0);
    assert_eq!(validate_bootstrap_identity_budget(&grants), Err(StoreError::InvalidStateEvent));
}

#[test]
fn bundle_is_six_consecutive_events_of_one_run() {
    let events: Vec<EventEnvelope> = (0..6).map(|i| input(i as u128 + 1, i + 10)).collect();
    assert_eq!(require_contiguous_bundle(&events.iter().collect()), Ok(()));
    assert_eq!(
        require_contiguous_bundle(&events.iter().take(5).collect()),
        Err(StoreError::InvalidStateEvent)
    );
    let mut gap = events.clone();
    gap[5].sequence = 16;
    assert_eq!(
        require_contiguous_bundle(&gap.iter().collect()),
        Err(StoreError::InvalidStateEvent)
    );
    let mut moved = events;
    moved[3].run_id = None;
    assert_eq!(
        require_contiguous_bundle(&moved.iter().collect()),
        Err(StoreError::InvalidStateEvent)
    );
}

#[test]
fn start_lies_between_the_snapshot_and_the_deadline() {
    let claim_event = claim(10, 1, 1);
    let held = match &claim_event.payload {
        EventPayload::RunClaimed(held) => held,
        _ => unreachable!(),
    };
    let snapshot = input(91, 2);
    let check = |authority: &ChildRepositoryExplorerAttemptStartAuthority, deadline: i64| {
        validate_start_clock(
            authority,
            &claim_event,
            held,
            &snapshot,
            time(deadline),
            time(1_700_000_020),
        )
    };
    assert_eq!(check(&start(400), 1_700_000_050), Ok(()));
    assert_eq!(check(&start(400), 1_700_000_010), Ok(()));
    assert_eq!(check(&start(400), 1_700_000_009), Err(StoreError::InvalidStateEvent));
    let mut foreign = start(400);
    foreign.started_at.runtime_instance_id = RuntimeInstanceId(52);
    assert_eq!(check(&foreign, 1_700_000_050), Err(StoreError::InvalidStateEvent));
    let mut early = start(400);
    early.started_at.observed_at = time(1_699_999_999);
    assert_eq!(check(&early, 1_700_000_050), Err(StoreError::InvalidStateEvent));
    let mut late = start(400);
    late.started_at.observed_at = time(1_700_000_021);
    assert_eq!(check(&late, 1_700_000_050), Err(StoreError::InvalidStateEvent));
}

#[test]
fn child_history_shows_a_started_bootstrap() {
    assert!(no_parallel_recon_child_history(&log(vec![claim(10, 1, 1)]), RunId(2)));
    let begun = log(vec![
        claim(10, 1, 1),
        event(
            11,
            2,
            EventPayload::ChildExecutionStarted(ChildExecutionStarted {
                binding: ChildExecutionBinding {
                    work_order_id: ChildWorkOrderId(5),
                    execution_id: ChildExecutionId(6),
                    attempt_id: ChildAttemptId(7),
                },
                local_plan_id: ChildLocalPlanId(8),
                started_at: start(400).started_at,
            }),
        ),
    ]);
    assert!(!no_parallel_recon_child_history(&begun, RunId(2)));
    assert!(no_parallel_recon_child_history(&begun, RunId(3)));
    let started = begun.event(SessionId(1), RunId(2), EventId(11)).unwrap();
    let read = bootstrap_start_authority(started).unwrap();
    assert_eq!(read.event_id, EventId(11));
    assert_eq!(read.attempt_id, ChildAttemptId(7));
    assert_eq!(read.local_plan_id, ChildLocalPlanId(8));
    assert_eq!(read.started_at.monotonic_nanos, 7);
    assert!(matches!(
        bootstrap_start_authority(&claim(10, 1, 1)),
        Err(StoreError::InvalidStateEvent)
    ));
}

fn finished(outcome: ChildExecutionOutcome) -> EventPayload {
    EventPayload::ChildExecutionFinished(ChildExecutionFinished {
        binding: ChildExecutionBinding {
            work_order_id: ChildWorkOrderId(5),
            execution_id: ChildExecutionId(6),
            attempt_id: ChildAttemptId(7),
        },
        handoff_event_id: None,
        completed_model_calls: 1,
        completed_tool_calls: 2,
        outcome,
        other_identities: LifecycleIdentities::none(),
    })
}

#[test]
fn child_event_belongs_to_its_work_order() {
    let ended = finished(ChildExecutionOutcome::Succeeded);
    assert_eq!(child_work_order_id(&ended), Some(ChildWorkOrderId(5)));
    assert_eq!(child_work_order_id(&claim(10, 1, 1).payload), None);
}

#[test]
fn cancelled_child_only_settles_its_effects() {
    let cancelled = finished(ChildExecutionOutcome::Cancelled {
        cause: ChildCancellationCauseV1 {
            request_event_id: EventId(11),
            request_id: CancellationRequestId(60),
            cancellation_generation: 1,
        },
    });
    assert!(is_child_terminal_reconciliation(&cancelled));
    assert!(!is_child_terminal_reconciliation(&finished(ChildExecutionOutcome::Succeeded)));
    assert!(!is_child_terminal_reconciliation(&claim(10, 1, 1).payload));
}

#[test]
fn event_retains_its_raw_bytes_and_the_artifacts_of_its_payload() {
    let kept = artifact("application/root-planning-failure");
    let other = artifact("application/other");
    let failed = event(11, 2, EventPayload::RootPlanningFailed(failure()));
    assert!(child_event_references_artifact(&failed, &kept));
    assert!(!child_event_references_artifact(&failed, &other));
    let mut raw = input(12, 3);
    assert!(!child_event_references_artifact(&raw, &other));
    raw.provenance.raw_artifact = Some(artifact("application/other"));
    assert!(child_event_references_artifact(&raw, &other));
    let given = event(
        13,
        4,
        EventPayload::UserInput {
            items: vec![InputItem::Artifact {
                artifact: artifact("application/other"),
            }],
        },
    );
    assert!(child_event_references_artifact(&given, &other));
    assert!(!child_event_references_artifact(&given, &kept));
}

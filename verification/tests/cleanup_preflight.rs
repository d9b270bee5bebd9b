//! Preparation of a snapshot cleanup.

use birdcode_store::artifact::{ArtifactRef, BackendKind, BackendSelection, Provenance};
use birdcode_store::cleanup::{
    RepositoryFileIdentityV1, RepositoryMacOsReadOnlyMountV1, RepositorySnapshotCleanupBoundaryV1,
    RepositorySnapshotCleanupKindV1, RepositorySnapshotLeaseDocumentV1,
    RepositorySourceQuiescenceV1, RepositoryUnixFileIdentityV1,
    RepositoryWriterLeaseEvidenceDocumentV1,
};
use birdcode_store::cleanup_preflight::{
    derive_cleanup_boundary, inactive_lifecycle_reason, store_anchored_run_deadline,
    RepositorySnapshotCleanupPreflightAuthorityV1,
    RepositorySnapshotCleanupPreflightNoAuthorityV1, RepositorySnapshotCleanupPreflightOutcomeV1,
    RepositorySnapshotCleanupPreflightPermitV1, RepositorySnapshotCleanupPreflightViewV1,
};
use birdcode_store::clock::{RuntimeClockReading, Timestamp, MAX_DELTA_SECONDS};
use birdcode_store::contract::{
    Contract, ContractVersions, MediaTypes, PlanningPurposes, Producers, PromptKeys,
    ReconnaissanceLimits, RootPlanningPolicyLimits,
};
use birdcode_store::digest::Sha256Digest;
use birdcode_store::error::StoreError;
use birdcode_store::event::{EventEnvelope, EventPayload};
use birdcode_store::history::EventLog;
use birdcode_store::identity::{
    ActorId, CancellationRequestId, EventId, RepositorySnapshotCleanupGrantId,
    RepositorySnapshotLeaseId, RepositorySnapshotRecoveryId, RunClaimId, RunId, RuntimeInstanceId,
    SessionId, WorkspaceRecoveryFinalizationId,
};
use birdcode_store::lifecycle::{
    RepositorySnapshotCleanupTargetReplay, RepositorySnapshotIdentityReplay,
    RepositorySnapshotLifecycleReplay, RepositorySnapshotOpenReplay,
};
use birdcode_store::lifecycle_identity::{lifecycle_identities_of, LifecycleIdentities};
use birdcode_store::run::{
    CancellationRequested, PlanAcceptanceContract, Run, RunClaimed, RunLimits, RunPurpose, RunSpec,
    RunState, Session,
};
use birdcode_store::snapshot::{
    RepositorySnapshotCaptureClaimAdoptedV1, RepositorySnapshotCaptureIdentityV1,
    RepositorySnapshotImmutabilityLeaseV1,
    RepositorySnapshotLeaseIssuedV1, RepositorySnapshotV1, RepositoryWriterLeaseRevokedV1,
    WorkspaceRecoveryFinalizedV1,
};
use birdcode_store::store::{RunStateRow, Store};
use birdcode_store::text::Text;

fn text(value: &str) -> Text {
    Text {
        value: value.to_owned(),
    }
}

fn contract() -> Contract {
    Contract {
        media: MediaTypes {
            root_planning_failure: text("application/root-planning-failure"),
            root_planning_stage_failure: text("application/root-planning-stage-failure"),
            root_planning_execution_policy: text("application/root-planning-policy"),
            plan_critic_policy: text("application/plan-critic-policy"),
            plan_critique: text("application/plan-critique"),
            plan_critique_validation: text("application/plan-critique-validation"),
            plan_proposal: text("application/plan-proposal"),
            plan_validation: text("application/plan-validation"),
            accepted_plan: text("application/accepted-plan"),
            retained_prompt: text("application/retained-prompt"),
            inference_request: text("application/inference-request"),
            inference_evidence: text("application/inference-evidence"),
            cancellation_boundary: text("application/cancellation-boundary"),
            planner_plan_v2: text("application/planner-plan"),
            planner_prompt_manifest_v2: text("application/planner-prompt-manifest"),
            planner_work_order_v2: text("application/planner-work-order"),
            planner_prompt_output_v2: text("application/planner-prompt-output"),
            planner_prompt_evidence_packet_v2: text("application/planner-prompt-packet"),
            planner_prompt_evidence_delta_v2: text("application/planner-prompt-delta"),
            planner_durable_evidence_packet_v2: text("application/planner-durable-packet"),
            planner_durable_evidence_delta_v2: text("application/planner-durable-delta"),
            planner_v2_finalization_evidence: text("application/planner-finalization"),
            child_execution_failure: text("application/child-failure"),
            child_handoff: text("application/child-handoff"),
            snapshot_lease: text("application/snapshot-lease"),
            cleanup_safety_evidence: text("application/cleanup-safety"),
            cleanup_process_inspection: text("application/cleanup-process"),
            cleanup_initial_inspection: text("application/cleanup-initial"),
            cleanup_topology_inspection: text("application/cleanup-topology"),
            hdiutil_info: text("application/hdiutil-info"),
            command_stderr: text("application/command-stderr"),
        },
        versions: ContractVersions {
            snapshot_cleanup: 1,
            snapshot_recovery_v2: 2,
            planner_turn: 1,
            planner_evidence: 2,
            child_reconnaissance: 1,
        },
        planning: RootPlanningPolicyLimits {
            schema_version: 1,
            max_model_calls: 4,
            max_repairs: 1,
            max_review_rounds: 2,
            initial_plan_max_output_tokens: 100,
            initial_review_max_output_tokens: 100,
            repair_max_output_tokens: 100,
            final_review_max_output_tokens: 100,
        },
        recon: ReconnaissanceLimits {
            max_planner_turns: 8,
            planner_attempts_per_stage: 2,
            max_planner_output_tokens_per_call: 100,
            max_planner_evidence_entries: 16,
            max_terminal_claim_events: 64,
        },
        producers: Producers {
            planner_preparation: text("planner-preparation"),
            planner_observation: text("planner-observation"),
            planner_unknown: text("planner-unknown"),
            planner_finalization: text("planner-finalization"),
        },
        purposes: PlanningPurposes {
            general: false,
            root_planning: true,
            reconnaissance: true,
        },
        prompts: PromptKeys {
            root_planner: text("root-planner"),
            plan_critic: text("plan-critic"),
            plan_repair: text("plan-repair"),
            planner_replanner_id: text("planner-replanner"),
            planner_replanner_version: text("2.0.0"),
        },
    }
}

const NOW: i64 = 1_784_721_600;
const DAY: i64 = 86_400;

fn at(second: i64) -> Timestamp {
    Timestamp {
        seconds: NOW + second,
        nanoseconds: 0,
    }
}

fn provenance() -> Provenance {
    Provenance {
        producer: text("cleanup-preflight-test"),
        backend: None,
        raw_artifact: None,
    }
}

const SESSION: SessionId = SessionId(1_000);
const RUN: RunId = RunId(1_001);
const ACTOR: ActorId = ActorId(1_002);
const RUNTIME: RuntimeInstanceId = RuntimeInstanceId(1_003);
const CLAIM_EVENT: EventId = EventId(1_012);
const WRITER_EVENT: EventId = EventId(1_014);
const LEASE_EVENT: EventId = EventId(1_015);
const CLAIM: RunClaimId = RunClaimId(1_020);
const LEASE: RepositorySnapshotLeaseId = RepositorySnapshotLeaseId(1_021);

fn event(id: EventId, sequence: u64, parent: Option<EventId>, payload: EventPayload) -> EventEnvelope {
    EventEnvelope {
        id,
        sequence,
        session_id: SESSION,
        run_id: Some(RUN),
        actor_id: ACTOR,
        causal_parent: parent,
        occurred_at: at(0),
        provenance: provenance(),
        payload,
    }
}

fn run(max_wall_time_seconds: Option<u64>, created_at: Timestamp) -> Run {
    Run {
        id: RUN,
        spec: RunSpec {
            session_id: SESSION,
            purpose: RunPurpose::ParallelRepositoryReconnaissanceV1,
            plan_acceptance: PlanAcceptanceContract::IndependentSemanticReviewV1,
            backend: BackendSelection {
                backend_id: text("test"),
                kind: BackendKind::Model,
                model: None,
                reasoning_effort: None,
            },
            input: Vec::new(),
            limits: RunLimits {
                max_output_tokens: None,
                max_wall_time_seconds,
                max_subagents: 1,
            },
        },
        state: RunState::Queued,
        created_at,
    }
}

fn session(workspace_root: &str) -> Session {
    Session {
        id: SESSION,
        workspace_root: text(workspace_root),
        title: Some(text("cleanup preflight")),
        created_at: at(0),
    }
}

fn claim(generation: u64, lease_expires_at: Timestamp) -> RunClaimed {
    RunClaimed {
        claim_id: RunClaimId(CLAIM.0 + u128::from(generation) - 1),
        runtime_instance_id: RUNTIME,
        claim_generation: generation,
        cancellation_generation: 0,
        lease_expires_at,
    }
}

fn artifact(media_type: &str) -> ArtifactRef {
    ArtifactRef {
        sha256: text(&"b".repeat(64)),
        size_bytes: 16,
        media_type: text(media_type),
    }
}

fn writer_revocation() -> RepositoryWriterLeaseRevokedV1 {
    let evidence_artifact = artifact("application/writer-evidence");
    RepositoryWriterLeaseRevokedV1 {
        issuer_actor_id: ACTOR,
        claim_event_id: CLAIM_EVENT,
        claim_id: CLAIM,
        claim_generation: 1,
        claim_runtime_instance_id: RUNTIME,
        cancellation_generation: 0,
        capture: RepositorySnapshotCaptureIdentityV1 {
            snapshot_id: text("cleanup-preflight-snapshot"),
            lease_id: LEASE,
            snapshot_lease_event_id: LEASE_EVENT,
        },
        evidence_digest: Sha256Digest::parse(&evidence_artifact.sha256)
            .expect("digest is canonical"),
        evidence_artifact,
    }
}

fn writer_evidence() -> RepositoryWriterLeaseEvidenceDocumentV1 {
    RepositoryWriterLeaseEvidenceDocumentV1 {
        schema_version: 1,
        writer_lease_id: text("cleanup-preflight-writer"),
        writer_lease_generation: 1,
        source_path: text("/tmp/cleanup-preflight-workspace"),
        source_root_identity: RepositoryFileIdentityV1::Unix(RepositoryUnixFileIdentityV1 {
            device: 1,
            inode: 2,
            byte_len: 0,
            modified_seconds: 1,
            modified_nanoseconds: 0,
            changed_seconds: 1,
            changed_nanoseconds: 0,
        }),
        exclusive: true,
        active_writer_count: 0,
        revoked_at: RuntimeClockReading {
            runtime_instance_id: RUNTIME,
            monotonic_nanos: 1,
            observed_at: at(0),
        },
    }
}

fn claim_event() -> EventEnvelope {
    event(
        CLAIM_EVENT,
        3,
        Some(EventId(1_011)),
        EventPayload::RunClaimed(claim(1, at(3_600))),
    )
}

fn writer_event() -> EventEnvelope {
    event(
        WRITER_EVENT,
        5,
        Some(CLAIM_EVENT),
        EventPayload::RepositoryWriterLeaseRevoked(writer_revocation()),
    )
}

fn open_capture() -> RepositorySnapshotOpenReplay {
    RepositorySnapshotOpenReplay {
        writer_revocation_event: writer_event(),
        writer_revocation: writer_revocation(),
        latest_capture_event: writer_event(),
        active_claim_event: claim_event(),
        active_claim: claim(1, at(3_600)),
        identity: Some(RepositorySnapshotIdentityReplay {
            snapshot_id: text("cleanup-preflight-snapshot"),
            lease_id: LEASE,
            lease_event_id: LEASE_EVENT,
        }),
        writer_evidence: writer_evidence(),
    }
}

fn store_of(run: Run, events: Vec<EventEnvelope>) -> Store {
    Store {
        contract: contract(),
        log: EventLog::from_events(events).expect("fixture events are in sequence"),
        sessions: vec![session("/tmp/cleanup-preflight-workspace")],
        run_states: vec![RunStateRow {
            run_id: run.id,
            session_id: run.spec.session_id,
            state: RunState::Running,
            state_sequence: 4,
        }],
        runs: vec![run],
    }
}

/// A run with a capture under way.
fn capture_store(max_wall_time_seconds: Option<u64>, created_at: Timestamp) -> Store {
    let created = run(max_wall_time_seconds, created_at);
    let mut session_created = event(
        EventId(1_010),
        1,
        None,
        EventPayload::SessionCreated {
            session: session("/tmp/cleanup-preflight-workspace"),
        },
    );
    session_created.run_id = None;
    let events = vec![
        session_created,
        event(
            EventId(1_011),
            2,
            Some(EventId(1_010)),
            EventPayload::RunCreated {
                run: created.clone(),
            },
        ),
        claim_event(),
        event(
            EventId(1_013),
            4,
            Some(CLAIM_EVENT),
            EventPayload::RunStateChanged {
                from: RunState::Queued,
                to: RunState::Running,
            },
        ),
        writer_event(),
    ];
    store_of(created, events)
}

const CANCELLATION_EVENT: EventId = EventId(1_100);

fn cancel(store: &mut Store, sequence: u64, parent: EventId) {
    store
        .log
        .append_all(vec![event(
            CANCELLATION_EVENT,
            sequence,
            Some(parent),
            EventPayload::CancellationRequested(CancellationRequested {
                cancellation_request_id: CancellationRequestId(1_101),
                cancellation_generation: 1,
            }),
        )])
        .expect("cancellation persists");
}

fn authority() -> RepositorySnapshotCleanupPreflightAuthorityV1 {
    RepositorySnapshotCleanupPreflightAuthorityV1 {
        cleanup_actor_id: ACTOR,
        cleanup_runtime_instance_id: RUNTIME,
        cleanup_grant_event_id: EventId(2_000),
        cleanup_grant_id: RepositorySnapshotCleanupGrantId(2_001),
        recovery_id: RepositorySnapshotRecoveryId(2_002),
        closure_event_id: EventId(2_003),
        workspace_finalized_event_id: EventId(2_004),
    }
}

fn prepare(
    store: &Store,
    authority: RepositorySnapshotCleanupPreflightAuthorityV1,
) -> Result<RepositorySnapshotCleanupPreflightOutcomeV1, StoreError> {
    store.prepare_repository_snapshot_cleanup(
        RUN,
        authority,
        at(10),
        Ok(RepositorySnapshotLifecycleReplay::Open(open_capture())),
        Err(StoreError::ArtifactUnavailable),
    )
}

#[test]
fn permit_is_pointer_sized_and_capture_view_is_exact() {
    assert_eq!(
        std::mem::size_of::<RepositorySnapshotCleanupPreflightPermitV1>(),
        std::mem::size_of::<usize>()
    );
    let mut store = capture_store(None, at(0));
    cancel(&mut store, 6, WRITER_EVENT);
    let issued = authority();
    let outcome = prepare(&store, issued).expect("preflight succeeds");
    let RepositorySnapshotCleanupPreflightOutcomeV1::Prepared(permit) = outcome else {
        panic!("cancellation creates a cleanup boundary")
    };
    let RepositorySnapshotCleanupPreflightViewV1::CaptureAbandonment {
        common,
        writer_revocation_event,
        latest_capture_event,
        lifecycle_claim_event,
        lifecycle_claim,
        writer_evidence,
    } = permit.view()
    else {
        panic!("open lifecycle derives capture abandonment")
    };
    assert_eq!(writer_revocation_event, &writer_event());
    assert_eq!(latest_capture_event, &writer_event());
    assert_eq!(lifecycle_claim_event, &claim_event());
    assert_eq!(common.source_claim_event, &claim_event());
    assert_eq!(lifecycle_claim, common.source_claim);
    assert_eq!(common.cleanup_grant_event_id, issued.cleanup_grant_event_id);
    assert_eq!(common.cleanup_grant_generation, 1);
    assert_eq!(common.lifecycle_tail_event_id, WRITER_EVENT);
    assert_eq!(common.expected_local_cleanup_id, None);
    assert_eq!(writer_evidence.writer_lease_id, text("cleanup-preflight-writer"));
    assert!(matches!(
        common.boundary,
        RepositorySnapshotCleanupBoundaryV1::CancellationRequested {
            cancellation_request_event_id,
            ..
        } if *cancellation_request_event_id == CANCELLATION_EVENT
    ));
}

fn lease_document() -> RepositorySnapshotLeaseDocumentV1 {
    RepositorySnapshotLeaseDocumentV1 {
        schema_version: 1,
        macos_read_only_mount: RepositoryMacOsReadOnlyMountV1 {
            lifecycle_owner_actor_id: ACTOR,
            lifecycle_owner_runtime_instance_id: RUNTIME,
            source_quiescence: RepositorySourceQuiescenceV1 {
                writer_lease_event_id: WRITER_EVENT,
                workspace_writer_lease_id: text("cleanup-preflight-writer"),
            },
        },
    }
}

fn lease_event() -> EventEnvelope {
    event(
        LEASE_EVENT,
        6,
        Some(WRITER_EVENT),
        EventPayload::RepositorySnapshotLeaseIssued(RepositorySnapshotLeaseIssuedV1 {
            snapshot: RepositorySnapshotV1 {
                snapshot_id: text("cleanup-preflight-snapshot"),
                immutability_lease: RepositorySnapshotImmutabilityLeaseV1 {
                    lease_id: LEASE,
                    lease_artifact: artifact("application/snapshot-lease"),
                },
            },
            other_identities: LifecycleIdentities::none(),
        }),
    )
}

#[test]
fn active_lease_view_retains_exact_canonical_documents() {
    let mut store = capture_store(None, at(0));
    store
        .log
        .append_all(vec![lease_event()])
        .expect("lease persists");
    cancel(&mut store, 7, LEASE_EVENT);
    let prepared = store
        .prepare_repository_snapshot_cleanup(
            RUN,
            authority(),
            at(10),
            Ok(RepositorySnapshotLifecycleReplay::Active {
                open: open_capture(),
                lease_event: lease_event(),
            }),
            Ok(lease_document()),
        )
        .expect("active lifecycle preflight succeeds");
    let RepositorySnapshotCleanupPreflightOutcomeV1::Prepared(active_permit) = prepared else {
        panic!("active cleanup is prepared")
    };
    let RepositorySnapshotCleanupPreflightViewV1::LeaseReleaseReconciliation {
        common,
        writer_revocation_event: viewed_writer,
        lease_event: viewed_lease,
        writer_evidence: viewed_writer_evidence,
        lease_document: viewed_lease_document,
    } = active_permit.view()
    else {
        panic!("active material produces lease view")
    };
    let expected_lease_document = lease_document();
    assert_eq!(
        common.kind,
        RepositorySnapshotCleanupKindV1::LeaseReleaseReconciliation
    );
    assert_eq!(viewed_lease, &lease_event());
    assert_eq!(viewed_lease_document, &expected_lease_document);
    assert_eq!(
        viewed_writer.id,
        expected_lease_document
            .macos_read_only_mount
            .source_quiescence
            .writer_lease_event_id
    );
    assert_eq!(
        viewed_writer_evidence.writer_lease_id,
        expected_lease_document
            .macos_read_only_mount
            .source_quiescence
            .workspace_writer_lease_id
    );
    assert!(matches!(
        common.boundary,
        RepositorySnapshotCleanupBoundaryV1::CancellationRequested {
            cancellation_request_event_id,
            ..
        } if *cancellation_request_event_id == CANCELLATION_EVENT
    ));
}

#[test]
fn no_lifecycle_and_store_anchored_deadline_are_typed() {
    let store = capture_store(Some(1), at(-365 * DAY));
    let outcome = store
        .prepare_repository_snapshot_cleanup(
            RUN,
            authority(),
            at(10),
            Ok(RepositorySnapshotLifecycleReplay::Absent),
            Err(StoreError::ArtifactUnavailable),
        )
        .expect("empty lifecycle is typed");
    assert!(matches!(
        outcome,
        RepositorySnapshotCleanupPreflightOutcomeV1::NoAuthority(
            RepositorySnapshotCleanupPreflightNoAuthorityV1::NoSnapshotLifecycle
        )
    ));

    let capture = capture_store(Some(3600), at(-365 * DAY));
    let outcome = prepare(&capture, authority()).expect("preflight reads Store-anchored deadline");
    assert!(matches!(
        outcome,
        RepositorySnapshotCleanupPreflightOutcomeV1::NoAuthority(
            RepositorySnapshotCleanupPreflightNoAuthorityV1::BoundaryNotReached { .. }
        )
    ));
}

#[test]
fn boundary_priority_and_equality_are_closed() {
    let checked_at = at(0);
    let claim = claim(1, checked_at);
    assert!(matches!(
        derive_cleanup_boundary(None, Some(checked_at), &claim, checked_at),
        Some(RepositorySnapshotCleanupBoundaryV1::RunDeadlineElapsed { run_deadline_at })
            if run_deadline_at == checked_at
    ));
    assert!(matches!(
        derive_cleanup_boundary(None, None, &claim, checked_at),
        Some(RepositorySnapshotCleanupBoundaryV1::PriorClaimExpired {
            claim_lease_expires_at
        }) if claim_lease_expires_at == checked_at
    ));
    let cancellation = CancellationRequested {
        cancellation_request_id: CancellationRequestId(7),
        cancellation_generation: 1,
    };
    let event_id = EventId(8);
    assert!(matches!(
        derive_cleanup_boundary(
            Some((event_id, cancellation)),
            Some(checked_at),
            &claim,
            checked_at,
        ),
        Some(RepositorySnapshotCleanupBoundaryV1::CancellationRequested {
            cancellation_request_event_id,
            ..
        }) if cancellation_request_event_id == event_id
    ));
}

#[test]
fn collisions_fail_without_durable_mutation() {
    let mut store = capture_store(None, at(0));
    cancel(&mut store, 6, WRITER_EVENT);
    let before = store.log.len();

    let mut preallocated = authority();
    preallocated.closure_event_id = LEASE_EVENT;
    assert!(matches!(
        prepare(&store, preallocated),
        Err(StoreError::InvalidStateEvent)
    ));

    let mut committed = authority();
    committed.cleanup_grant_event_id = WRITER_EVENT;
    assert!(matches!(
        prepare(&store, committed),
        Err(StoreError::InvalidStateEvent)
    ));

    let mut cross_domain = authority();
    cross_domain.cleanup_grant_id = RepositorySnapshotCleanupGrantId(RUN.0);
    assert!(matches!(
        prepare(&store, cross_domain),
        Err(StoreError::InvalidStateEvent)
    ));

    let duplicate_identity: u128 = 3_000;
    let mut duplicate = authority();
    duplicate.cleanup_grant_event_id = EventId(duplicate_identity);
    duplicate.recovery_id = RepositorySnapshotRecoveryId(duplicate_identity);
    assert!(matches!(
        prepare(&store, duplicate),
        Err(StoreError::InvalidStateEvent)
    ));

    let mut nil = authority();
    nil.recovery_id = RepositorySnapshotRecoveryId(0);
    assert!(matches!(
        prepare(&store, nil),
        Err(StoreError::InvalidStateEvent)
    ));

    let mut mismatched_principal = authority();
    mismatched_principal.cleanup_actor_id = ActorId(4_000);
    assert!(matches!(
        prepare(&store, mismatched_principal),
        Err(StoreError::InvalidStateEvent)
    ));
    assert_eq!(store.log.len(), before);
    assert!(matches!(
        prepare(&store, authority()),
        Ok(RepositorySnapshotCleanupPreflightOutcomeV1::Prepared(_))
    ));
}

#[test]
fn durable_cleanup_finalization_identity_blocks_cross_domain_reuse() {
    let mut store = capture_store(None, at(0));
    cancel(&mut store, 6, WRITER_EVENT);
    let finalization_id: u128 = 5_000;
    let mut finalized = event(
        EventId(5_001),
        7,
        Some(CANCELLATION_EVENT),
        EventPayload::WorkspaceRecoveryFinalizedV1(WorkspaceRecoveryFinalizedV1 {
            finalization_id: WorkspaceRecoveryFinalizationId(finalization_id),
            other_identities: LifecycleIdentities::none(),
        }),
    );
    finalized.run_id = None;
    store
        .log
        .append_all(vec![finalized])
        .expect("raw finalization persists");

    let before = store.log.len();
    let mut reused = authority();
    reused.recovery_id = RepositorySnapshotRecoveryId(finalization_id);
    assert!(matches!(
        prepare(&store, reused),
        Err(StoreError::InvalidStateEvent)
    ));
    assert_eq!(store.log.len(), before);
}

#[test]
fn identities_in_recorded_payloads_are_taken() {
    let mut store = capture_store(None, at(0));
    cancel(&mut store, 6, WRITER_EVENT);
    let adopted = RepositorySnapshotCaptureClaimAdoptedV1 {
        prior_claim_event_id: CLAIM_EVENT,
        new_claim_event_id: EventId(6_000),
        other_identities: LifecycleIdentities {
            adoption_id: Some(6_001),
            new_claim_id: Some(6_002),
            ..LifecycleIdentities::none()
        },
    };
    let payload = EventPayload::RepositorySnapshotCaptureClaimAdoptedV1(adopted);
    assert_eq!(
        lifecycle_identities_of(&payload),
        LifecycleIdentities {
            prior_claim_event_id: Some(CLAIM_EVENT.0),
            new_claim_event_id: Some(6_000),
            adoption_id: Some(6_001),
            new_claim_id: Some(6_002),
            ..LifecycleIdentities::none()
        }
    );
    let mut elsewhere = event(EventId(6_003), 7, Some(CANCELLATION_EVENT), payload);
    elsewhere.run_id = None;
    store
        .log
        .append_all(vec![elsewhere])
        .expect("adoption persists");
    for taken in [
        CLAIM.0,
        LEASE.0,
        LEASE_EVENT.0,
        1_101,
        6_000,
        6_001,
        6_002,
        6_003,
    ] {
        let mut reused = authority();
        reused.recovery_id = RepositorySnapshotRecoveryId(taken);
        assert!(matches!(
            prepare(&store, reused),
            Err(StoreError::InvalidStateEvent)
        ));
    }
    assert!(matches!(
        prepare(&store, authority()),
        Ok(RepositorySnapshotCleanupPreflightOutcomeV1::Prepared(_))
    ));
}

#[test]
fn prepared_preflight_has_no_durable_mutation_and_reopens() {
    let mut store = capture_store(None, at(0));
    cancel(&mut store, 6, WRITER_EVENT);
    let before = store.log.len();
    let identity = authority();
    let outcome = prepare(&store, identity).expect("preflight succeeds");
    assert!(matches!(
        outcome,
        RepositorySnapshotCleanupPreflightOutcomeV1::Prepared(_)
    ));
    assert_eq!(store.log.len(), before);

    let mut reopened = capture_store(None, at(0));
    cancel(&mut reopened, 6, WRITER_EVENT);
    assert_eq!(reopened.log.len(), before);
    assert!(matches!(
        prepare(&reopened, identity).expect("same effect-free identity remains uncommitted"),
        RepositorySnapshotCleanupPreflightOutcomeV1::Prepared(_)
    ));
    assert_eq!(reopened.log.len(), before);
}

#[test]
fn latest_global_claim_controls_boundary_and_capture_claim_is_retained() {
    let mut store = capture_store(None, at(0));
    let second_claim = claim(2, at(7_200));
    let second_claim_event = EventId(6_000);
    store
        .log
        .append_all(vec![event(
            second_claim_event,
            6,
            Some(WRITER_EVENT),
            EventPayload::RunClaimed(second_claim),
        )])
        .expect("fixture claim commits");

    let no_boundary = prepare(&store, authority()).expect("latest live claim is authoritative");
    assert!(matches!(
        no_boundary,
        RepositorySnapshotCleanupPreflightOutcomeV1::NoAuthority(
            RepositorySnapshotCleanupPreflightNoAuthorityV1::BoundaryNotReached {
                source_claim_event_id,
                ..
            }
        ) if source_claim_event_id == second_claim_event
    ));

    cancel(&mut store, 7, second_claim_event);
    let prepared = prepare(&store, authority()).expect("cancellation authorizes cleanup");
    let RepositorySnapshotCleanupPreflightOutcomeV1::Prepared(permit) = prepared else {
        panic!("cleanup is prepared")
    };
    let RepositorySnapshotCleanupPreflightViewV1::CaptureAbandonment {
        common,
        lifecycle_claim_event,
        ..
    } = permit.view()
    else {
        panic!("capture view")
    };
    assert_eq!(common.source_claim_event.id, second_claim_event);
    assert_eq!(common.source_claim, &second_claim);
    assert_eq!(lifecycle_claim_event.id, CLAIM_EVENT);
}

#[test]
fn closed_lifecycle_reason_is_exact_and_pending_is_fail_closed() {
    let closure = writer_event();
    let closed = RepositorySnapshotLifecycleReplay::ClosedCapture {
        open: open_capture(),
        abandonment_event: closure,
    };
    assert_eq!(
        inactive_lifecycle_reason(&closed).expect("closed is typed"),
        Some(
            RepositorySnapshotCleanupPreflightNoAuthorityV1::SnapshotAlreadyClosed {
                kind: RepositorySnapshotCleanupKindV1::CaptureAbandonment,
                closure_event_id: WRITER_EVENT,
            }
        )
    );
    let pending = RepositorySnapshotLifecycleReplay::PendingCleanup {
        target: RepositorySnapshotCleanupTargetReplay::Capture {
            open: open_capture(),
        },
        grants: Vec::new(),
    };
    assert!(matches!(
        inactive_lifecycle_reason(&pending),
        Err(StoreError::InvalidStateEvent)
    ));
}

#[test]
fn durable_pending_cleanup_is_rejected_without_preflight_mutation() {
    let store = capture_store(None, at(0));
    let before = store.log.len();
    let result = store.prepare_repository_snapshot_cleanup(
        RUN,
        authority(),
        at(10),
        Ok(RepositorySnapshotLifecycleReplay::PendingCleanup {
            target: RepositorySnapshotCleanupTargetReplay::Capture {
                open: open_capture(),
            },
            grants: vec![writer_event()],
        }),
        Err(StoreError::ArtifactUnavailable),
    );
    assert!(matches!(result, Err(StoreError::InvalidStateEvent)));
    assert_eq!(store.log.len(), before);
}

#[test]
fn raw_nil_latest_claim_anchor_fails_closed() {
    let mut store = capture_store(None, at(0));
    let mut nil_claim = claim(2, at(7_200));
    nil_claim.claim_id = RunClaimId(0);
    store
        .log
        .append_all(vec![event(
            EventId(6_000),
            6,
            Some(WRITER_EVENT),
            EventPayload::RunClaimed(nil_claim),
        )])
        .expect("raw nil claim commits");
    let before = store.log.len();
    assert!(matches!(
        prepare(&store, authority()),
        Err(StoreError::InvalidStateEvent)
    ));
    assert_eq!(store.log.len(), before);
}

#[test]
fn deadline_is_counted_from_the_recorded_creation() {
    let created = run(Some(90), at(-DAY));
    let store = capture_store(Some(90), at(-DAY));
    assert_eq!(
        store_anchored_run_deadline(&store.log, &created),
        Ok(Some(at(90)))
    );
    let unbounded = capture_store(None, at(0));
    assert_eq!(
        store_anchored_run_deadline(&unbounded.log, &run(None, at(0))),
        Ok(None)
    );
    assert_eq!(
        store_anchored_run_deadline(&unbounded.log, &created),
        Err(StoreError::InvalidStateEvent)
    );
    let endless = capture_store(Some(u64::MAX), at(0));
    assert_eq!(
        store_anchored_run_deadline(&endless.log, &run(Some(u64::MAX), at(0))),
        Err(StoreError::InvalidStateEvent)
    );
    let beyond = capture_store(Some(9_000_000_000_000), at(0));
    assert_eq!(
        store_anchored_run_deadline(&beyond.log, &run(Some(9_000_000_000_000), at(0))),
        Err(StoreError::InvalidStateEvent)
    );
}

#[test]
fn elapsed_deadline_prepares_a_cleanup() {
    let store = capture_store(Some(10), at(-DAY));
    let outcome = prepare(&store, authority()).expect("deadline elapsed");
    let RepositorySnapshotCleanupPreflightOutcomeV1::Prepared(permit) = outcome else {
        panic!("an elapsed deadline is a boundary")
    };
    let RepositorySnapshotCleanupPreflightViewV1::CaptureAbandonment { common, .. } = permit.view()
    else {
        panic!("capture view")
    };
    assert!(matches!(
        common.boundary,
        RepositorySnapshotCleanupBoundaryV1::RunDeadlineElapsed { run_deadline_at }
            if *run_deadline_at == at(10)
    ));
}

/// A wall time that no deadline can be computed from.
const BEYOND_ANY_DELTA: u64 = MAX_DELTA_SECONDS as u64 + 1;

fn prepare_from(
    store: &Store,
    lifecycle: RepositorySnapshotLifecycleReplay,
) -> Result<RepositorySnapshotCleanupPreflightOutcomeV1, StoreError> {
    let lifecycle = Ok(lifecycle);
    assert!(store.has_cleanup_deadline_in_bounds(RUN, &lifecycle));
    store.prepare_repository_snapshot_cleanup(
        RUN,
        authority(),
        at(10),
        lifecycle,
        Err(StoreError::ArtifactUnavailable),
    )
}

#[test]
fn wall_time_does_not_matter_before_the_deadline_is_asked_for() {
    let store = capture_store(Some(BEYOND_ANY_DELTA), at(0));
    let before = store.log.len();
    assert!(matches!(
        prepare_from(&store, RepositorySnapshotLifecycleReplay::Absent),
        Ok(RepositorySnapshotCleanupPreflightOutcomeV1::NoAuthority(
            RepositorySnapshotCleanupPreflightNoAuthorityV1::NoSnapshotLifecycle
        ))
    ));
    assert!(matches!(
        prepare_from(
            &store,
            RepositorySnapshotLifecycleReplay::ClosedCapture {
                open: open_capture(),
                abandonment_event: writer_event(),
            }
        ),
        Ok(RepositorySnapshotCleanupPreflightOutcomeV1::NoAuthority(
            RepositorySnapshotCleanupPreflightNoAuthorityV1::SnapshotAlreadyClosed {
                kind: RepositorySnapshotCleanupKindV1::CaptureAbandonment,
                closure_event_id: WRITER_EVENT,
            }
        ))
    ));
    assert!(matches!(
        prepare_from(
            &store,
            RepositorySnapshotLifecycleReplay::PendingCleanup {
                target: RepositorySnapshotCleanupTargetReplay::Capture {
                    open: open_capture(),
                },
                grants: Vec::new(),
            }
        ),
        Err(StoreError::InvalidStateEvent)
    ));
    let mut nameless = open_capture();
    nameless.identity = None;
    assert!(matches!(
        prepare_from(&store, RepositorySnapshotLifecycleReplay::Open(nameless)),
        Err(StoreError::InvalidStateEvent)
    ));
    assert_eq!(store.log.len(), before);
    assert!(!store.has_cleanup_deadline_in_bounds(
        RUN,
        &Ok(RepositorySnapshotLifecycleReplay::Open(open_capture()))
    ));
}

#[test]
fn run_of_another_purpose_has_no_cleanup() {
    let mut store = capture_store(Some(BEYOND_ANY_DELTA), at(0));
    store.runs[0].spec.purpose = RunPurpose::General;
    assert!(matches!(
        prepare_from(
            &store,
            RepositorySnapshotLifecycleReplay::Open(open_capture())
        ),
        Err(StoreError::InvalidStateEvent)
    ));
}

#[test]
fn unrecorded_creation_gives_no_deadline() {
    let store = capture_store(None, at(0));
    let other = run(Some(BEYOND_ANY_DELTA), at(0));
    assert_eq!(
        store_anchored_run_deadline(&store.log, &other),
        Err(StoreError::InvalidStateEvent)
    );
    let mut store = store;
    store.runs[0] = other;
    assert!(matches!(
        prepare_from(
            &store,
            RepositorySnapshotLifecycleReplay::Open(open_capture())
        ),
        Err(StoreError::InvalidStateEvent)
    ));
}

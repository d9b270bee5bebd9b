//! The material that a cleanup grant retains.

use birdcode_store::artifact::ArtifactRef;
use birdcode_store::cleanup::{
    RepositoryExternalImageIdentityV1, RepositoryFileIdentityV1,
    RepositorySnapshotCleanupBoundaryV1, RepositorySnapshotCleanupEffectFenceObservationV1,
    RepositorySnapshotCleanupEffectObservationV1, RepositorySnapshotCleanupGrantedV1,
    RepositorySnapshotCleanupInitialInspectionDocumentV1,
    RepositorySnapshotCleanupInitialInspectionPhaseV2,
    RepositorySnapshotCleanupInitialTopologyInspectionDocumentV2,
    RepositorySnapshotCleanupInspectOperationV2, RepositorySnapshotCleanupKindV1,
    RepositorySnapshotCleanupMountReaderObservationV1, RepositorySnapshotCleanupProcessIdentityV1,
    RepositorySnapshotCleanupProcessInspectionDocumentV1,
    RepositorySnapshotCleanupProcessInspectionSetV1,
    RepositorySnapshotCleanupSafetyEvidenceDocumentV1, RepositorySnapshotImageFormatV1,
    RepositorySnapshotMacOsDeviceV1, RepositorySnapshotRecoveryImageObservationV1,
    RepositorySnapshotRecoveryMountObservationV1, RepositorySnapshotRecoveryPathsV1,
    RepositorySnapshotRecoveryTopologyObservationV1,
    RepositorySnapshotRetainedCleanupInitialInspectionV1,
    RepositorySnapshotRetainedCleanupInitialTopologyInspectionV2,
    RepositorySnapshotRetainedCleanupProcessInspectionV1,
    RepositorySnapshotRetainedCleanupSafetyEvidenceV1, RepositoryUnixFileIdentityV1,
};
use birdcode_store::cleanup_v2::{
    valid_exact_process_set, validate_repository_snapshot_cleanup_safety_material,
    CleanupSafetyReads, ExpectedRepositorySnapshotCleanupSafetyCandidateV1,
};
use birdcode_store::clock::{RuntimeClockReading, Timestamp};
use birdcode_store::contract::{
    Contract, ContractVersions, MediaTypes, PlanningPurposes, Producers, PromptKeys,
    ReconnaissanceLimits, RootPlanningPolicyLimits,
};
use birdcode_store::digest::Sha256Digest;
use birdcode_store::error::StoreError;
use birdcode_store::identity::{
    ActorId, CancellationRequestId, EventId, RepositorySnapshotCleanupGrantId,
    RepositorySnapshotLeaseId, RepositorySnapshotLocalCleanupId, RepositorySnapshotRecoveryId,
    RunClaimId, RunId, RuntimeInstanceId, SessionId,
};
use birdcode_store::text::Text;
use std::collections::hash_map::DefaultHasher;
use std::collections::HashMap;
use std::hash::{Hash, Hasher};

fn text(value: &str) -> Text {
    Text {
        value: value.to_owned(),
    }
}

fn contract() -> Contract {
    Contract {
        media: MediaTypes {
            root_planning_failure: text("application/root-planning-failure"),
            root_planning_stage_failure: text("application/root-planning-stage-failure"),
            root_planning_execution_policy: text("application/root-planning-policy"),
            plan_critic_policy: text("application/plan-critic-policy"),
            plan_critique: text("application/plan-critique"),
            plan_critique_validation: text("application/plan-critique-validation"),
            plan_proposal: text("application/plan-proposal"),
            plan_validation: text("application/plan-validation"),
            accepted_plan: text("application/accepted-plan"),
            retained_prompt: text("application/retained-prompt"),
            inference_request: text("application/inference-request"),
            inference_evidence: text("application/inference-evidence"),
            cancellation_boundary: text("application/cancellation-boundary"),
            planner_plan_v2: text("application/planner-plan"),
            planner_prompt_manifest_v2: text("application/planner-prompt-manifest"),
            planner_work_order_v2: text("application/planner-work-order"),
            planner_prompt_output_v2: text("application/planner-prompt-output"),
            planner_prompt_evidence_packet_v2: text("application/planner-prompt-packet"),
            planner_prompt_evidence_delta_v2: text("application/planner-prompt-delta"),
            planner_durable_evidence_packet_v2: text("application/planner-durable-packet"),
            planner_durable_evidence_delta_v2: text("application/planner-durable-delta"),
            planner_v2_finalization_evidence: text("application/planner-finalization"),
            child_execution_failure: text("application/child-failure"),
            child_handoff: text("application/child-handoff"),
            snapshot_lease: text("application/snapshot-lease"),
            cleanup_safety_evidence: text("application/cleanup-safety"),
            cleanup_process_inspection: text("application/cleanup-process"),
            cleanup_initial_inspection: text("application/cleanup-initial"),
            cleanup_topology_inspection: text("application/cleanup-topology"),
            hdiutil_info: text("application/hdiutil-info"),
            command_stderr: text("application/command-stderr"),
        },
        versions: ContractVersions {
            snapshot_cleanup: 1,
            snapshot_recovery_v2: 2,
            planner_turn: 1,
            planner_evidence: 2,
            child_reconnaissance: 1,
        },
        planning: RootPlanningPolicyLimits {
            schema_version: 1,
            max_model_calls: 4,
            max_repairs: 1,
            max_review_rounds: 2,
            initial_plan_max_output_tokens: 100,
            initial_review_max_output_tokens: 100,
            repair_max_output_tokens: 100,
            final_review_max_output_tokens: 100,
        },
        recon: ReconnaissanceLimits {
            max_planner_turns: 8,
            planner_attempts_per_stage: 2,
            max_planner_output_tokens_per_call: 100,
            max_planner_evidence_entries: 16,
            max_terminal_claim_events: 64,
        },
        producers: Producers {
            planner_preparation: text("planner-preparation"),
            planner_observation: text("planner-observation"),
            planner_unknown: text("planner-unknown"),
            planner_finalization: text("planner-finalization"),
        },
        purposes: PlanningPurposes {
            general: false,
            root_planning: true,
            reconnaissance: true,
        },
        prompts: PromptKeys {
            root_planner: text("root-planner"),
            plan_critic: text("plan-critic"),
            plan_repair: text("plan-repair"),
            planner_replanner_id: text("planner-replanner"),
            planner_replanner_version: text("2.0.0"),
        },
    }
}

/// What an artifact of the fixture holds.
#[derive(Clone, Debug)]
enum Stored {
    Safety(RepositorySnapshotCleanupSafetyEvidenceDocumentV1),
    Process(RepositorySnapshotCleanupProcessInspectionDocumentV1),
    Initial(RepositorySnapshotCleanupInitialInspectionDocumentV1),
    Topology(RepositorySnapshotCleanupInitialTopologyInspectionDocumentV2),
    Bytes(Vec<u8>),
}

/// Artifacts by the digest of their content.
#[derive(Default)]
struct Artifacts {
    stored: HashMap<String, Stored>,
}

impl Artifacts {
    fn put(&mut self, content: Stored, media_type: &Text) -> ArtifactRef {
        let written = format!("{content:?}");
        let mut sha256 = String::new();
        for part in 0..4_u8 {
            let mut hasher = DefaultHasher::new();
            part.hash(&mut hasher);
            written.hash(&mut hasher);
            sha256.push_str(&format!("{:016x}", hasher.finish()));
        }
        self.stored.insert(sha256.clone(), content);
        ArtifactRef {
            sha256: Text { value: sha256 },
            size_bytes: written.len() as u64,
            media_type: media_type.clone(),
        }
    }

    fn get(&self, artifact: &ArtifactRef) -> Result<Stored, StoreError> {
        self.stored
            .get(&artifact.sha256.value)
            .cloned()
            .ok_or(StoreError::ArtifactUnavailable)
    }
}

struct Fixture {
    artifacts: Artifacts,
    contract: Contract,
    expected: ExpectedRepositorySnapshotCleanupSafetyCandidateV1,
    grant: RepositorySnapshotCleanupGrantedV1,
}

const NOON: i64 = 1_784_721_600;

fn fixed_time(second: i64) -> Timestamp {
    Timestamp {
        seconds: NOON + second,
        nanoseconds: 0,
    }
}

fn clock(runtime: RuntimeInstanceId, second: i64) -> RuntimeClockReading {
    RuntimeClockReading {
        runtime_instance_id: runtime,
        monotonic_nanos: u64::try_from(second).expect("positive fixture second") * 1_000,
        observed_at: fixed_time(second),
    }
}

fn digest_for(artifact: &ArtifactRef) -> Sha256Digest {
    Sha256Digest::parse(&artifact.sha256).expect("artifacts have canonical digests")
}

fn identity(inode: u64) -> RepositoryFileIdentityV1 {
    RepositoryFileIdentityV1::Unix(RepositoryUnixFileIdentityV1 {
        device: 7,
        inode,
        byte_len: 32,
        modified_seconds: 1,
        modified_nanoseconds: 2,
        changed_seconds: 3,
        changed_nanoseconds: 4,
    })
}

fn process(id: u32, seconds: i64, microseconds: u32) -> RepositorySnapshotCleanupProcessIdentityV1 {
    RepositorySnapshotCleanupProcessIdentityV1::MacOs {
        process_id: id,
        start_time_seconds: seconds,
        start_time_microseconds: microseconds,
    }
}

fn processes(
    processes: Vec<RepositorySnapshotCleanupProcessIdentityV1>,
) -> RepositorySnapshotCleanupProcessInspectionSetV1 {
    RepositorySnapshotCleanupProcessInspectionSetV1 { processes }
}

impl Fixture {
    fn canonical() -> Self {
        let contract = contract();
        let mut artifacts = Artifacts::default();
        let cleanup_runtime_instance_id = RuntimeInstanceId(101);
        let cleanup_actor_id = ActorId(102);
        let inspected = processes(vec![
            process(41, 1_721_649_600, 12),
            process(42, 1_721_649_601, 13),
        ]);
        let expected = ExpectedRepositorySnapshotCleanupSafetyCandidateV1 {
            session_id: SessionId(1),
            run_id: RunId(2),
            cleanup_grant_event_id: EventId(3),
            cleanup_grant_id: RepositorySnapshotCleanupGrantId(4),
            cleanup_grant_generation: 1,
            recovery_id: RepositorySnapshotRecoveryId(5),
            local_cleanup_id: RepositorySnapshotLocalCleanupId(6),
            kind: RepositorySnapshotCleanupKindV1::CaptureAbandonment,
            snapshot_id: text("snapshot-cleanup-a2"),
            lease_id: RepositorySnapshotLeaseId(7),
            snapshot_lease_event_id: EventId(8),
            writer_revocation_event_id: EventId(9),
            paths: RepositorySnapshotRecoveryPathsV1 {
                source_path: text("/repo"),
                image_path: text("/state/images/snapshot-cleanup-a2.dmg"),
                mount_path: text("/state/mounts/snapshot-cleanup-a2"),
            },
            cleanup_actor_id,
            cleanup_runtime_instance_id,
            process_registry_generation: 7,
            effect_fence_generation: 9,
            inspected_processes: inspected.clone(),
            topology_inspection_executable: text("/usr/bin/hdiutil"),
        };

        let stdout_artifact = artifacts.put(
            Stored::Bytes(b"bplist00-cleanup-topology".to_vec()),
            &contract.media.hdiutil_info,
        );
        let stderr_artifact =
            artifacts.put(Stored::Bytes(Vec::new()), &contract.media.command_stderr);
        let topology_document = RepositorySnapshotCleanupInitialTopologyInspectionDocumentV2 {
            schema_version: contract.versions.snapshot_recovery_v2,
            scope: expected.scope(),
            phase: RepositorySnapshotCleanupInitialInspectionPhaseV2::PreGrantInitial,
            operation: RepositorySnapshotCleanupInspectOperationV2::InspectDiskImageTopology,
            executable: expected.topology_inspection_executable.clone(),
            exit_code: 0,
            stdout_digest: digest_for(&stdout_artifact),
            stdout_artifact,
            stderr_digest: digest_for(&stderr_artifact),
            stderr_artifact,
            topology:
                RepositorySnapshotRecoveryTopologyObservationV1::NoExpectedImageOrMountAttached,
            image: RepositorySnapshotRecoveryImageObservationV1::ExactRegularFile {
                identity: identity(11),
                image: RepositoryExternalImageIdentityV1 {
                    format: RepositorySnapshotImageFormatV1::Udro,
                    byte_len: 32,
                    sha256: Sha256Digest::parse(&text(&"a".repeat(64)))
                        .expect("fixture image digest is canonical"),
                },
            },
            mount: RepositorySnapshotRecoveryMountObservationV1::ExactUnmountedDirectory {
                identity: identity(12),
            },
            completed_at: clock(cleanup_runtime_instance_id, 2),
        };
        let topology_artifact = artifacts.put(
            Stored::Topology(topology_document.clone()),
            &contract.media.cleanup_topology_inspection,
        );
        let topology_inspection = RepositorySnapshotRetainedCleanupInitialTopologyInspectionV2 {
            inspection_digest: digest_for(&topology_artifact),
            inspection_artifact: topology_artifact,
            inspection: topology_document.clone(),
        };

        let process_document = RepositorySnapshotCleanupProcessInspectionDocumentV1 {
            schema_version: contract.versions.snapshot_cleanup,
            session_id: expected.session_id,
            run_id: expected.run_id,
            cleanup_grant_event_id: expected.cleanup_grant_event_id,
            cleanup_grant_id: expected.cleanup_grant_id,
            cleanup_grant_generation: expected.cleanup_grant_generation,
            recovery_id: expected.recovery_id,
            local_cleanup_id: expected.local_cleanup_id,
            snapshot_id: expected.snapshot_id.clone(),
            lease_id: expected.lease_id,
            snapshot_lease_event_id: expected.snapshot_lease_event_id,
            mount_path: expected.paths.mount_path.clone(),
            guardian_actor_id: cleanup_actor_id,
            guardian_runtime_instance_id: cleanup_runtime_instance_id,
            process_registry_generation: expected.process_registry_generation,
            effect_fence_generation: expected.effect_fence_generation,
            effect_fence: RepositorySnapshotCleanupEffectFenceObservationV1::ArmedRejectingNewMountReadersAndSnapshotEffects,
            inspected_processes: inspected,
            mount_readers: RepositorySnapshotCleanupMountReaderObservationV1::NoGuardianOwnedProcessReferencesMount,
            snapshot_effects: RepositorySnapshotCleanupEffectObservationV1::NoGuardianOwnedSnapshotEffectInFlight,
            observed_at: clock(cleanup_runtime_instance_id, 1),
        };
        let process_artifact = artifacts.put(
            Stored::Process(process_document.clone()),
            &contract.media.cleanup_process_inspection,
        );
        let process_quiescence = RepositorySnapshotRetainedCleanupProcessInspectionV1 {
            inspection_digest: digest_for(&process_artifact),
            inspection_artifact: process_artifact,
            inspection: process_document,
        };

        let initial_document = RepositorySnapshotCleanupInitialInspectionDocumentV1 {
            schema_version: contract.versions.snapshot_cleanup,
            session_id: expected.session_id,
            run_id: expected.run_id,
            cleanup_grant_event_id: expected.cleanup_grant_event_id,
            cleanup_grant_id: expected.cleanup_grant_id,
            cleanup_grant_generation: expected.cleanup_grant_generation,
            recovery_id: expected.recovery_id,
            local_cleanup_id: expected.local_cleanup_id,
            snapshot_id: expected.snapshot_id.clone(),
            lease_id: expected.lease_id,
            snapshot_lease_event_id: expected.snapshot_lease_event_id,
            writer_revocation_event_id: expected.writer_revocation_event_id,
            paths: expected.paths.clone(),
            topology: topology_document.topology,
            image: topology_document.image.clone(),
            mount: topology_document.mount.clone(),
            topology_inspection,
            observed_at: clock(cleanup_runtime_instance_id, 3),
        };
        let initial_artifact = artifacts.put(
            Stored::Initial(initial_document.clone()),
            &contract.media.cleanup_initial_inspection,
        );
        let initial_inspection = RepositorySnapshotRetainedCleanupInitialInspectionV1 {
            inspection_digest: digest_for(&initial_artifact),
            inspection_artifact: initial_artifact,
            inspection: initial_document,
        };

        let safety_document = RepositorySnapshotCleanupSafetyEvidenceDocumentV1 {
            schema_version: contract.versions.snapshot_cleanup,
            session_id: expected.session_id,
            run_id: expected.run_id,
            cleanup_grant_event_id: expected.cleanup_grant_event_id,
            cleanup_grant_id: expected.cleanup_grant_id,
            cleanup_grant_generation: expected.cleanup_grant_generation,
            recovery_id: expected.recovery_id,
            local_cleanup_id: expected.local_cleanup_id,
            snapshot_id: expected.snapshot_id.clone(),
            lease_id: expected.lease_id,
            snapshot_lease_event_id: expected.snapshot_lease_event_id,
            writer_revocation_event_id: expected.writer_revocation_event_id,
            process_quiescence,
            initial_inspection,
            observed_at: clock(cleanup_runtime_instance_id, 4),
        };
        let safety_artifact = artifacts.put(
            Stored::Safety(safety_document.clone()),
            &contract.media.cleanup_safety_evidence,
        );
        let safety_evidence = RepositorySnapshotRetainedCleanupSafetyEvidenceV1 {
            evidence_digest: digest_for(&safety_artifact),
            evidence_artifact: safety_artifact,
            evidence: safety_document,
        };

        let grant = RepositorySnapshotCleanupGrantedV1 {
            schema_version: contract.versions.snapshot_cleanup,
            session_id: expected.session_id,
            run_id: expected.run_id,
            cleanup_grant_event_id: expected.cleanup_grant_event_id,
            cleanup_grant_id: expected.cleanup_grant_id,
            cleanup_grant_generation: expected.cleanup_grant_generation,
            recovery_id: expected.recovery_id,
            local_cleanup_id: expected.local_cleanup_id,
            closure_event_id: EventId(20),
            workspace_finalized_event_id: EventId(21),
            kind: expected.kind,
            boundary: RepositorySnapshotCleanupBoundaryV1::CancellationRequested {
                cancellation_request_event_id: EventId(22),
                cancellation_request_id: CancellationRequestId(23),
                cancellation_generation: 1,
            },
            lifecycle_tail_event_id: expected.writer_revocation_event_id,
            snapshot_id: expected.snapshot_id.clone(),
            lease_id: expected.lease_id,
            snapshot_lease_event_id: expected.snapshot_lease_event_id,
            writer_revocation_event_id: expected.writer_revocation_event_id,
            lifecycle_owner_actor_id: ActorId(24),
            lifecycle_owner_runtime_instance_id: RuntimeInstanceId(25),
            source_claim_event_id: EventId(26),
            source_claim_id: RunClaimId(27),
            source_claim_generation: 1,
            source_claim_actor_id: ActorId(28),
            source_claim_runtime_instance_id: RuntimeInstanceId(29),
            cancellation_generation: 1,
            cleanup_actor_id,
            cleanup_runtime_instance_id,
            safety_evidence,
            granted_at: clock(cleanup_runtime_instance_id, 5),
            grant_expires_at: fixed_time(60),
        };
        Self {
            artifacts,
            contract,
            expected,
            grant,
        }
    }

    fn recanonicalize(&mut self) {
        let safety = &mut self.grant.safety_evidence.evidence;
        let topology = &mut safety.initial_inspection.inspection.topology_inspection;
        let artifact = self.artifacts.put(
            Stored::Topology(topology.inspection.clone()),
            &self.contract.media.cleanup_topology_inspection,
        );
        topology.inspection_digest = digest_for(&artifact);
        topology.inspection_artifact = artifact;

        let initial = &mut safety.initial_inspection;
        let artifact = self.artifacts.put(
            Stored::Initial(initial.inspection.clone()),
            &self.contract.media.cleanup_initial_inspection,
        );
        initial.inspection_digest = digest_for(&artifact);
        initial.inspection_artifact = artifact;

        let process = &mut safety.process_quiescence;
        let artifact = self.artifacts.put(
            Stored::Process(process.inspection.clone()),
            &self.contract.media.cleanup_process_inspection,
        );
        process.inspection_digest = digest_for(&artifact);
        process.inspection_artifact = artifact;

        self.recanonicalize_safety_only();
    }

    fn recanonicalize_safety_only(&mut self) {
        let artifact = self.artifacts.put(
            Stored::Safety(self.grant.safety_evidence.evidence.clone()),
            &self.contract.media.cleanup_safety_evidence,
        );
        self.grant.safety_evidence.evidence_digest = digest_for(&artifact);
        self.grant.safety_evidence.evidence_artifact = artifact;
    }

    fn recanonicalize_initial_and_safety_only(&mut self) {
        let initial = &mut self.grant.safety_evidence.evidence.initial_inspection;
        let artifact = self.artifacts.put(
            Stored::Initial(initial.inspection.clone()),
            &self.contract.media.cleanup_initial_inspection,
        );
        initial.inspection_digest = digest_for(&artifact);
        initial.inspection_artifact = artifact;
        self.recanonicalize_safety_only();
    }

    fn reads(&self) -> CleanupSafetyReads {
        let safety = &self.grant.safety_evidence;
        let process = &safety.evidence.process_quiescence;
        let initial = &safety.evidence.initial_inspection;
        let topology = &initial.inspection.topology_inspection;
        CleanupSafetyReads {
            safety: match self.artifacts.get(&safety.evidence_artifact) {
                Ok(Stored::Safety(document)) => Ok(document),
                Ok(_) => Err(StoreError::InvalidStateEvent),
                Err(error) => Err(error),
            },
            process: match self.artifacts.get(&process.inspection_artifact) {
                Ok(Stored::Process(document)) => Ok(document),
                Ok(_) => Err(StoreError::InvalidStateEvent),
                Err(error) => Err(error),
            },
            initial: match self.artifacts.get(&initial.inspection_artifact) {
                Ok(Stored::Initial(document)) => Ok(document),
                Ok(_) => Err(StoreError::InvalidStateEvent),
                Err(error) => Err(error),
            },
            topology: match self.artifacts.get(&topology.inspection_artifact) {
                Ok(Stored::Topology(document)) => Ok(document),
                Ok(_) => Err(StoreError::InvalidStateEvent),
                Err(error) => Err(error),
            },
            stdout: self
                .artifacts
                .get(&topology.inspection.stdout_artifact)
                .map(|_| ()),
            stderr: self
                .artifacts
                .get(&topology.inspection.stderr_artifact)
                .map(|_| ()),
        }
    }

    fn validate(&self) -> Result<(), StoreError> {
        validate_repository_snapshot_cleanup_safety_material(
            &self.contract,
            &self.grant,
            &self.expected,
            &self.reads(),
        )
    }

    fn substitute_processes(&mut self, set: RepositorySnapshotCleanupProcessInspectionSetV1) {
        self.grant
            .safety_evidence
            .evidence
            .process_quiescence
            .inspection
            .inspected_processes = set;
    }
}

#[test]
fn canonical_recursive_cleanup_safety_material_is_accepted_as_evidence_only() {
    Fixture::canonical()
        .validate()
        .expect("canonical recursively bound material should validate");
}

#[test]
fn candidate_paths_cannot_be_self_authorized_by_canonical_inline_material() {
    let mut fixture = Fixture::canonical();
    fixture.expected.paths.image_path = text("/different/expected.dmg");
    assert!(matches!(
        fixture.validate(),
        Err(StoreError::InvalidStateEvent)
    ));
}

#[test]
fn canonical_scope_substitution_is_rejected_after_all_artifacts_are_rehashed() {
    let mut fixture = Fixture::canonical();
    fixture
        .grant
        .safety_evidence
        .evidence
        .initial_inspection
        .inspection
        .topology_inspection
        .inspection
        .scope
        .local_cleanup_id = RepositorySnapshotLocalCleanupId(600);
    fixture.recanonicalize();
    assert!(matches!(
        fixture.validate(),
        Err(StoreError::InvalidStateEvent)
    ));
}

#[test]
fn canonical_process_set_substitution_is_rejected_after_rehash() {
    let mut fixture = Fixture::canonical();
    fixture.substitute_processes(processes(vec![process(99, 1_721_649_699, 99)]));
    fixture.recanonicalize();
    assert!(matches!(
        fixture.validate(),
        Err(StoreError::InvalidStateEvent)
    ));
}

#[test]
fn duplicate_process_identity_is_rejected_even_when_expected_and_canonical() {
    let mut fixture = Fixture::canonical();
    let duplicate = processes(vec![
        process(41, 1_721_649_600, 12),
        process(41, 1_721_649_600, 12),
    ]);
    fixture.expected.inspected_processes = duplicate.clone();
    fixture.substitute_processes(duplicate);
    fixture.recanonicalize();
    assert!(matches!(
        fixture.validate(),
        Err(StoreError::InvalidStateEvent)
    ));
}

#[test]
fn one_pid_cannot_claim_two_start_times_in_one_exact_registry_snapshot() {
    let mut fixture = Fixture::canonical();
    let ambiguous = processes(vec![
        process(41, 1_721_649_600, 12),
        process(41, 1_721_649_601, 13),
    ]);
    fixture.expected.inspected_processes = ambiguous.clone();
    fixture.substitute_processes(ambiguous);
    fixture.recanonicalize();
    assert!(matches!(
        fixture.validate(),
        Err(StoreError::InvalidStateEvent)
    ));
}

#[test]
fn negative_process_start_time_is_rejected_even_when_expected_and_canonical() {
    let mut fixture = Fixture::canonical();
    let invalid = processes(vec![process(41, -1, 12)]);
    fixture.expected.inspected_processes = invalid.clone();
    fixture.substitute_processes(invalid);
    fixture.recanonicalize();
    assert!(matches!(
        fixture.validate(),
        Err(StoreError::InvalidStateEvent)
    ));
}

#[test]
fn unknown_closed_process_observations_are_rejected_as_canonical_json() {
    for field in ["effect_fence", "mount_readers", "snapshot_effects"] {
        let mut fixture = Fixture::canonical();
        let artifact = fixture.artifacts.put(
            Stored::Bytes(format!("{{\"{field}\":\"untrusted_observation\"}}").into_bytes()),
            &fixture.contract.media.cleanup_process_inspection,
        );
        let retained = &mut fixture.grant.safety_evidence.evidence.process_quiescence;
        retained.inspection_digest = digest_for(&artifact);
        retained.inspection_artifact = artifact;
        fixture.recanonicalize_safety_only();
        assert!(
            matches!(fixture.validate(), Err(StoreError::InvalidStateEvent)),
            "unknown {field} must fail closed"
        );
    }
}

#[test]
fn unknown_closed_topology_phase_and_operation_are_rejected_as_canonical_json() {
    for field in ["phase", "operation"] {
        let mut fixture = Fixture::canonical();
        let artifact = fixture.artifacts.put(
            Stored::Bytes(format!("{{\"{field}\":\"untrusted_operation\"}}").into_bytes()),
            &fixture.contract.media.cleanup_topology_inspection,
        );
        let retained = &mut fixture
            .grant
            .safety_evidence
            .evidence
            .initial_inspection
            .inspection
            .topology_inspection;
        retained.inspection_digest = digest_for(&artifact);
        retained.inspection_artifact = artifact;
        fixture.recanonicalize_initial_and_safety_only();
        assert!(
            matches!(fixture.validate(), Err(StoreError::InvalidStateEvent)),
            "unknown topology {field} must fail closed"
        );
    }
}

#[test]
fn impossible_mounted_topology_matrix_is_rejected_when_canonical() {
    let mut fixture = Fixture::canonical();
    let initial = &mut fixture
        .grant
        .safety_evidence
        .evidence
        .initial_inspection
        .inspection;
    initial.topology_inspection.inspection.topology =
        RepositorySnapshotRecoveryTopologyObservationV1::ExactImageMounted {
            leaf_device: RepositorySnapshotMacOsDeviceV1 {
                disk_number: 4,
                partition_number: Some(1),
            },
        };
    initial.topology = initial.topology_inspection.inspection.topology;
    fixture.recanonicalize();
    assert!(matches!(
        fixture.validate(),
        Err(StoreError::InvalidStateEvent)
    ));
}

#[test]
fn contradictory_image_identity_length_is_rejected_when_canonical() {
    let mut fixture = Fixture::canonical();
    let initial = &mut fixture
        .grant
        .safety_evidence
        .evidence
        .initial_inspection
        .inspection;
    let topology = &mut initial.topology_inspection.inspection;
    let RepositorySnapshotRecoveryImageObservationV1::ExactRegularFile {
        identity: RepositoryFileIdentityV1::Unix(identity),
        ..
    } = &mut topology.image
    else {
        panic!("fixture image is an exact regular file");
    };
    identity.byte_len = 31;
    initial.image = topology.image.clone();
    fixture.recanonicalize();
    assert!(matches!(
        fixture.validate(),
        Err(StoreError::InvalidStateEvent)
    ));
}

#[test]
fn cross_runtime_clock_substitution_is_rejected_when_canonical() {
    let mut fixture = Fixture::canonical();
    fixture
        .grant
        .safety_evidence
        .evidence
        .initial_inspection
        .inspection
        .topology_inspection
        .inspection
        .completed_at
        .runtime_instance_id = RuntimeInstanceId(999);
    fixture.recanonicalize();
    assert!(matches!(
        fixture.validate(),
        Err(StoreError::InvalidStateEvent)
    ));
}

#[test]
fn stdout_artifact_and_digest_must_remain_one_exact_pair() {
    let mut fixture = Fixture::canonical();
    let substituted = fixture.artifacts.put(
        Stored::Bytes(b"different valid plist bytes".to_vec()),
        &fixture.contract.media.hdiutil_info,
    );
    fixture
        .grant
        .safety_evidence
        .evidence
        .initial_inspection
        .inspection
        .topology_inspection
        .inspection
        .stdout_artifact = substituted;
    fixture.recanonicalize();
    assert!(matches!(
        fixture.validate(),
        Err(StoreError::InvalidStateEvent)
    ));
}

#[test]
fn arbitrary_content_addressed_plist_remains_a_workspace_bridge_gap_not_authority() {
    let mut fixture = Fixture::canonical();
    let substituted = fixture.artifacts.put(
        Stored::Bytes(b"arbitrary bytes with the exact closed media type".to_vec()),
        &fixture.contract.media.hdiutil_info,
    );
    let topology = &mut fixture
        .grant
        .safety_evidence
        .evidence
        .initial_inspection
        .inspection
        .topology_inspection
        .inspection;
    topology.stdout_digest = digest_for(&substituted);
    topology.stdout_artifact = substituted;
    fixture.recanonicalize();
    fixture
        .validate()
        .expect("A2 proves recursive byte provenance, not the deferred Workspace plist decode");
}

#[test]
fn noncanonical_nested_artifact_bytes_are_rejected() {
    let mut fixture = Fixture::canonical();
    let document = fixture
        .grant
        .safety_evidence
        .evidence
        .process_quiescence
        .inspection
        .clone();
    let artifact = fixture.artifacts.put(
        Stored::Bytes(format!("{document:#?}").into_bytes()),
        &fixture.contract.media.cleanup_process_inspection,
    );
    let retained = &mut fixture.grant.safety_evidence.evidence.process_quiescence;
    retained.inspection_digest = digest_for(&artifact);
    retained.inspection_artifact = artifact;
    fixture.recanonicalize_safety_only();
    assert!(matches!(
        fixture.validate(),
        Err(StoreError::InvalidStateEvent)
    ));
}

#[test]
fn missing_stderr_artifact_is_reported_as_such() {
    let mut fixture = Fixture::canonical();
    let missing = fixture
        .grant
        .safety_evidence
        .evidence
        .initial_inspection
        .inspection
        .topology_inspection
        .inspection
        .stderr_artifact
        .sha256
        .value
        .clone();
    fixture.artifacts.stored.remove(&missing);
    assert_eq!(fixture.validate(), Err(StoreError::ArtifactUnavailable));
}

#[test]
fn grant_that_expires_as_it_is_made_is_rejected() {
    let mut fixture = Fixture::canonical();
    fixture.grant.grant_expires_at = fixture.grant.granted_at.observed_at;
    assert_eq!(fixture.validate(), Err(StoreError::InvalidStateEvent));
}

#[test]
fn exact_registry_needs_rising_process_numbers() {
    assert!(valid_exact_process_set(&processes(Vec::new())));
    assert!(valid_exact_process_set(&processes(vec![
        process(41, 0, 0),
        process(42, 0, 999_999),
    ])));
    assert!(!valid_exact_process_set(&processes(vec![
        process(42, 0, 0),
        process(41, 0, 0),
    ])));
    assert!(!valid_exact_process_set(&processes(vec![process(0, 0, 0)])));
    assert!(!valid_exact_process_set(&processes(vec![process(
        1, 0, 1_000_000
    )])));
}

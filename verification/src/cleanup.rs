//! Documents that a snapshot cleanup grant retains.

use vstd::prelude::*;
use crate::artifact::{ArtifactRef};
use crate::clock::{RuntimeClockReading, Timestamp};
use crate::digest::{Sha256Digest};
use crate::identity::{ActorId, CancellationRequestId, EventId, RepositorySnapshotCleanupGrantId, RepositorySnapshotLeaseId, RepositorySnapshotLocalCleanupId, RepositorySnapshotRecoveryId, RunClaimId, RunId, RuntimeInstanceId, SessionId};
use crate::text::{Text};

verus! {

/// A file as Unix identifies it.
#[derive(Clone, Copy, Debug)]
pub struct RepositoryUnixFileIdentityV1 {
    pub device: u64,
    pub inode: u64,
    pub byte_len: i64,
    pub modified_seconds: i64,
    pub modified_nanoseconds: i64,
    pub changed_seconds: i64,
    pub changed_nanoseconds: i64,
}

impl PartialEq for RepositoryUnixFileIdentityV1 {
    fn eq(&self, other: &Self) -> (r: bool) {
        self.device == other.device
            && self.inode == other.inode
            && self.byte_len == other.byte_len
            && self.modified_seconds == other.modified_seconds
            && self.modified_nanoseconds == other.modified_nanoseconds
            && self.changed_seconds == other.changed_seconds
            && self.changed_nanoseconds == other.changed_nanoseconds
    }
}

impl Eq for RepositoryUnixFileIdentityV1 {
}

impl vstd::std_specs::cmp::PartialEqSpecImpl for RepositoryUnixFileIdentityV1 {
    open spec fn obeys_eq_spec() -> bool {
        true
    }

    open spec fn eq_spec(&self, other: &Self) -> bool {
        &&& self.device == other.device
        &&& self.inode == other.inode
        &&& self.byte_len == other.byte_len
        &&& self.modified_seconds == other.modified_seconds
        &&& self.modified_nanoseconds == other.modified_nanoseconds
        &&& self.changed_seconds == other.changed_seconds
        &&& self.changed_nanoseconds == other.changed_nanoseconds
    }
}

/// A file as its system identifies it.
#[derive(Clone, Copy, Debug)]
pub enum RepositoryFileIdentityV1 {
    Unix(RepositoryUnixFileIdentityV1),
}

impl PartialEq for RepositoryFileIdentityV1 {
    fn eq(&self, other: &Self) -> (r: bool) {
        match (self, other) {
            (RepositoryFileIdentityV1::Unix(left), RepositoryFileIdentityV1::Unix(right)) => left == right,
        }
    }
}

impl Eq for RepositoryFileIdentityV1 {
}

impl vstd::std_specs::cmp::PartialEqSpecImpl for RepositoryFileIdentityV1 {
    open spec fn obeys_eq_spec() -> bool {
        true
    }

    open spec fn eq_spec(&self, other: &Self) -> bool {
        match (self, other) {
            (RepositoryFileIdentityV1::Unix(left), RepositoryFileIdentityV1::Unix(right)) => vstd::std_specs::cmp::PartialEqSpec::eq_spec(left, right),
        }
    }
}

/// The format of a disk image.
#[derive(Clone, Copy, Debug, PartialEq, Eq, Structural)]
pub enum RepositorySnapshotImageFormatV1 {
    Udro,
}

/// A disk image by format, length and digest.
#[derive(Debug)]
pub struct RepositoryExternalImageIdentityV1 {
    pub format: RepositorySnapshotImageFormatV1,
    pub byte_len: u64,
    pub sha256: Sha256Digest,
}

impl PartialEq for RepositoryExternalImageIdentityV1 {
    fn eq(&self, other: &Self) -> (r: bool) {
        self.format == other.format
            && self.byte_len == other.byte_len
            && self.sha256 == other.sha256
    }
}

impl Eq for RepositoryExternalImageIdentityV1 {
}

impl vstd::std_specs::cmp::PartialEqSpecImpl for RepositoryExternalImageIdentityV1 {
    open spec fn obeys_eq_spec() -> bool {
        true
    }

    open spec fn eq_spec(&self, other: &Self) -> bool {
        &&& self.format == other.format
        &&& self.byte_len == other.byte_len
        &&& vstd::std_specs::cmp::PartialEqSpec::eq_spec(&self.sha256, &other.sha256)
    }
}

impl Clone for RepositoryExternalImageIdentityV1 {
    fn clone(&self) -> (r: Self)
        ensures
            r == *self,
    {
        RepositoryExternalImageIdentityV1 {
            format: self.format,
            byte_len: self.byte_len,
            sha256: self.sha256.clone(),
        }
    }
}

/// A disk device.
#[derive(Clone, Copy, Debug, PartialEq, Eq, Structural)]
pub struct RepositorySnapshotMacOsDeviceV1 {
    pub disk_number: u32,
    pub partition_number: Option<u32>,
}

/// Whether the expected image is attached.
#[derive(Clone, Copy, Debug, PartialEq, Eq, Structural)]
pub enum RepositorySnapshotRecoveryTopologyObservationV1 {
    NoExpectedImageOrMountAttached,
    ExactImageMounted { leaf_device: RepositorySnapshotMacOsDeviceV1 },
}

/// What was found at the image path.
#[derive(Debug)]
pub enum RepositorySnapshotRecoveryImageObservationV1 {
    Missing,
    ExactRegularFile { identity: RepositoryFileIdentityV1, image: RepositoryExternalImageIdentityV1 },
}

impl PartialEq for RepositorySnapshotRecoveryImageObservationV1 {
    fn eq(&self, other: &Self) -> (r: bool) {
        match (self, other) {
            (RepositorySnapshotRecoveryImageObservationV1::Missing, RepositorySnapshotRecoveryImageObservationV1::Missing) => true,
            (RepositorySnapshotRecoveryImageObservationV1::ExactRegularFile { identity, image }, RepositorySnapshotRecoveryImageObservationV1::ExactRegularFile { identity: other_identity, image: other_image }) => {
                identity == other_identity
                    && image == other_image
            },
            _ => false,
        }
    }
}

impl Eq for RepositorySnapshotRecoveryImageObservationV1 {
}

impl vstd::std_specs::cmp::PartialEqSpecImpl for RepositorySnapshotRecoveryImageObservationV1 {
    open spec fn obeys_eq_spec() -> bool {
        true
    }

    open spec fn eq_spec(&self, other: &Self) -> bool {
        match (self, other) {
            (RepositorySnapshotRecoveryImageObservationV1::Missing, RepositorySnapshotRecoveryImageObservationV1::Missing) => true,
            (RepositorySnapshotRecoveryImageObservationV1::ExactRegularFile { identity, image }, RepositorySnapshotRecoveryImageObservationV1::ExactRegularFile { identity: other_identity, image: other_image }) => {
                &&& vstd::std_specs::cmp::PartialEqSpec::eq_spec(identity, other_identity)
                &&& vstd::std_specs::cmp::PartialEqSpec::eq_spec(image, other_image)
            },
            _ => false,
        }
    }
}

impl Clone for RepositorySnapshotRecoveryImageObservationV1 {
    fn clone(&self) -> (r: Self)
        ensures
            r == *self,
    {
        match self {
            RepositorySnapshotRecoveryImageObservationV1::Missing => RepositorySnapshotRecoveryImageObservationV1::Missing,
            RepositorySnapshotRecoveryImageObservationV1::ExactRegularFile { identity, image } => RepositorySnapshotRecoveryImageObservationV1::ExactRegularFile {
                identity: *identity,
                image: image.clone(),
            },
        }
    }
}

/// What was found at the mount path.
#[derive(Clone, Copy, Debug)]
pub enum RepositorySnapshotRecoveryMountObservationV1 {
    Missing,
    ExactUnmountedDirectory { identity: RepositoryFileIdentityV1 },
    ExactReadOnlyMount { identity: RepositoryFileIdentityV1, leaf_device: RepositorySnapshotMacOsDeviceV1 },
}

impl PartialEq for RepositorySnapshotRecoveryMountObservationV1 {
    fn eq(&self, other: &Self) -> (r: bool) {
        match (self, other) {
            (RepositorySnapshotRecoveryMountObservationV1::Missing, RepositorySnapshotRecoveryMountObservationV1::Missing) => true,
            (RepositorySnapshotRecoveryMountObservationV1::ExactUnmountedDirectory { identity }, RepositorySnapshotRecoveryMountObservationV1::ExactUnmountedDirectory { identity: other_identity }) => {
                identity == other_identity
            },
            (RepositorySnapshotRecoveryMountObservationV1::ExactReadOnlyMount { identity, leaf_device }, RepositorySnapshotRecoveryMountObservationV1::ExactReadOnlyMount { identity: other_identity, leaf_device: other_leaf_device }) => {
                identity == other_identity
                    && leaf_device == other_leaf_device
            },
            _ => false,
        }
    }
}

impl Eq for RepositorySnapshotRecoveryMountObservationV1 {
}

impl vstd::std_specs::cmp::PartialEqSpecImpl for RepositorySnapshotRecoveryMountObservationV1 {
    open spec fn obeys_eq_spec() -> bool {
        true
    }

    open spec fn eq_spec(&self, other: &Self) -> bool {
        match (self, other) {
            (RepositorySnapshotRecoveryMountObservationV1::Missing, RepositorySnapshotRecoveryMountObservationV1::Missing) => true,
            (RepositorySnapshotRecoveryMountObservationV1::ExactUnmountedDirectory { identity }, RepositorySnapshotRecoveryMountObservationV1::ExactUnmountedDirectory { identity: other_identity }) => {
                &&& vstd::std_specs::cmp::PartialEqSpec::eq_spec(identity, other_identity)
            },
            (RepositorySnapshotRecoveryMountObservationV1::ExactReadOnlyMount { identity, leaf_device }, RepositorySnapshotRecoveryMountObservationV1::ExactReadOnlyMount { identity: other_identity, leaf_device: other_leaf_device }) => {
                &&& vstd::std_specs::cmp::PartialEqSpec::eq_spec(identity, other_identity)
                &&& leaf_device == other_leaf_device
            },
            _ => false,
        }
    }
}

/// What a cleanup closes.
#[derive(Clone, Copy, Debug, PartialEq, Eq, Structural)]
pub enum RepositorySnapshotCleanupKindV1 {
    CaptureAbandonment,
    LeaseReleaseReconciliation,
}

/// The boundary that makes a cleanup due.
#[derive(Clone, Copy, Debug, PartialEq, Eq, Structural)]
pub enum RepositorySnapshotCleanupBoundaryV1 {
    CancellationRequested { cancellation_request_event_id: EventId, cancellation_request_id: CancellationRequestId, cancellation_generation: u64 },
    RunDeadlineElapsed { run_deadline_at: Timestamp },
    PriorClaimExpired { claim_lease_expires_at: Timestamp },
}

/// The paths that a cleanup is about.
#[derive(Debug)]
pub struct RepositorySnapshotRecoveryPathsV1 {
    pub source_path: Text,
    pub image_path: Text,
    pub mount_path: Text,
}

impl PartialEq for RepositorySnapshotRecoveryPathsV1 {
    fn eq(&self, other: &Self) -> (r: bool) {
        self.source_path == other.source_path
            && self.image_path == other.image_path
            && self.mount_path == other.mount_path
    }
}

impl Eq for RepositorySnapshotRecoveryPathsV1 {
}

impl vstd::std_specs::cmp::PartialEqSpecImpl for RepositorySnapshotRecoveryPathsV1 {
    open spec fn obeys_eq_spec() -> bool {
        true
    }

    open spec fn eq_spec(&self, other: &Self) -> bool {
        &&& vstd::std_specs::cmp::PartialEqSpec::eq_spec(&self.source_path, &other.source_path)
        &&& vstd::std_specs::cmp::PartialEqSpec::eq_spec(&self.image_path, &other.image_path)
        &&& vstd::std_specs::cmp::PartialEqSpec::eq_spec(&self.mount_path, &other.mount_path)
    }
}

impl Clone for RepositorySnapshotRecoveryPathsV1 {
    fn clone(&self) -> (r: Self)
        ensures
            r == *self,
    {
        RepositorySnapshotRecoveryPathsV1 {
            source_path: self.source_path.clone(),
            image_path: self.image_path.clone(),
            mount_path: self.mount_path.clone(),
        }
    }
}

/// The complete scope of one cleanup effect.
#[derive(Debug)]
pub struct RepositorySnapshotCleanupEffectScopeV2 {
    pub session_id: SessionId,
    pub run_id: RunId,
    pub cleanup_grant_event_id: EventId,
    pub cleanup_grant_id: RepositorySnapshotCleanupGrantId,
    pub cleanup_grant_generation: u64,
    pub recovery_id: RepositorySnapshotRecoveryId,
    pub local_cleanup_id: RepositorySnapshotLocalCleanupId,
    pub snapshot_id: Text,
    pub lease_id: RepositorySnapshotLeaseId,
    pub snapshot_lease_event_id: EventId,
    pub writer_revocation_event_id: EventId,
    pub paths: RepositorySnapshotRecoveryPathsV1,
}

impl PartialEq for RepositorySnapshotCleanupEffectScopeV2 {
    fn eq(&self, other: &Self) -> (r: bool) {
        self.session_id == other.session_id
            && self.run_id == other.run_id
            && self.cleanup_grant_event_id == other.cleanup_grant_event_id
            && self.cleanup_grant_id == other.cleanup_grant_id
            && self.cleanup_grant_generation == other.cleanup_grant_generation
            && self.recovery_id == other.recovery_id
            && self.local_cleanup_id == other.local_cleanup_id
            && self.snapshot_id == other.snapshot_id
            && self.lease_id == other.lease_id
            && self.snapshot_lease_event_id == other.snapshot_lease_event_id
            && self.writer_revocation_event_id == other.writer_revocation_event_id
            && self.paths == other.paths
    }
}

impl Eq for RepositorySnapshotCleanupEffectScopeV2 {
}

impl vstd::std_specs::cmp::PartialEqSpecImpl for RepositorySnapshotCleanupEffectScopeV2 {
    open spec fn obeys_eq_spec() -> bool {
        true
    }

    open spec fn eq_spec(&self, other: &Self) -> bool {
        &&& self.session_id == other.session_id
        &&& self.run_id == other.run_id
        &&& self.cleanup_grant_event_id == other.cleanup_grant_event_id
        &&& self.cleanup_grant_id == other.cleanup_grant_id
        &&& self.cleanup_grant_generation == other.cleanup_grant_generation
        &&& self.recovery_id == other.recovery_id
        &&& self.local_cleanup_id == other.local_cleanup_id
        &&& vstd::std_specs::cmp::PartialEqSpec::eq_spec(&self.snapshot_id, &other.snapshot_id)
        &&& self.lease_id == other.lease_id
        &&& self.snapshot_lease_event_id == other.snapshot_lease_event_id
        &&& self.writer_revocation_event_id == other.writer_revocation_event_id
        &&& vstd::std_specs::cmp::PartialEqSpec::eq_spec(&self.paths, &other.paths)
    }
}

impl Clone for RepositorySnapshotCleanupEffectScopeV2 {
    fn clone(&self) -> (r: Self)
        ensures
            r == *self,
    {
        RepositorySnapshotCleanupEffectScopeV2 {
            session_id: self.session_id,
            run_id: self.run_id,
            cleanup_grant_event_id: self.cleanup_grant_event_id,
            cleanup_grant_id: self.cleanup_grant_id,
            cleanup_grant_generation: self.cleanup_grant_generation,
            recovery_id: self.recovery_id,
            local_cleanup_id: self.local_cleanup_id,
            snapshot_id: self.snapshot_id.clone(),
            lease_id: self.lease_id,
            snapshot_lease_event_id: self.snapshot_lease_event_id,
            writer_revocation_event_id: self.writer_revocation_event_id,
            paths: self.paths.clone(),
        }
    }
}

/// A process by number and start time.
#[derive(Clone, Copy, Debug)]
pub enum RepositorySnapshotCleanupProcessIdentityV1 {
    MacOs { process_id: u32, start_time_seconds: i64, start_time_microseconds: u32 },
}

impl PartialEq for RepositorySnapshotCleanupProcessIdentityV1 {
    fn eq(&self, other: &Self) -> (r: bool) {
        match (self, other) {
            (RepositorySnapshotCleanupProcessIdentityV1::MacOs { process_id, start_time_seconds, start_time_microseconds }, RepositorySnapshotCleanupProcessIdentityV1::MacOs { process_id: other_process_id, start_time_seconds: other_start_time_seconds, start_time_microseconds: other_start_time_microseconds }) => {
                process_id == other_process_id
                    && start_time_seconds == other_start_time_seconds
                    && start_time_microseconds == other_start_time_microseconds
            },
        }
    }
}

impl Eq for RepositorySnapshotCleanupProcessIdentityV1 {
}

impl vstd::std_specs::cmp::PartialEqSpecImpl for RepositorySnapshotCleanupProcessIdentityV1 {
    open spec fn obeys_eq_spec() -> bool {
        true
    }

    open spec fn eq_spec(&self, other: &Self) -> bool {
        match (self, other) {
            (RepositorySnapshotCleanupProcessIdentityV1::MacOs { process_id, start_time_seconds, start_time_microseconds }, RepositorySnapshotCleanupProcessIdentityV1::MacOs { process_id: other_process_id, start_time_seconds: other_start_time_seconds, start_time_microseconds: other_start_time_microseconds }) => {
                &&& process_id == other_process_id
                &&& start_time_seconds == other_start_time_seconds
                &&& start_time_microseconds == other_start_time_microseconds
            },
        }
    }
}

/// The processes that an inspection covered.
#[derive(Clone, Debug)]
pub struct RepositorySnapshotCleanupProcessInspectionSetV1 {
    pub processes: Vec<RepositorySnapshotCleanupProcessIdentityV1>,
}

impl PartialEq for RepositorySnapshotCleanupProcessInspectionSetV1 {
    fn eq(&self, other: &Self) -> (r: bool) {
        self.processes == other.processes
    }
}

impl Eq for RepositorySnapshotCleanupProcessInspectionSetV1 {
}

impl vstd::std_specs::cmp::PartialEqSpecImpl for RepositorySnapshotCleanupProcessInspectionSetV1 {
    open spec fn obeys_eq_spec() -> bool {
        true
    }

    open spec fn eq_spec(&self, other: &Self) -> bool {
        &&& vstd::std_specs::cmp::PartialEqSpec::eq_spec(&self.processes, &other.processes)
    }
}

/// The state of the effect fence.
#[derive(Clone, Copy, Debug, PartialEq, Eq, Structural)]
pub enum RepositorySnapshotCleanupEffectFenceObservationV1 {
    ArmedRejectingNewMountReadersAndSnapshotEffects,
    Disarmed,
}

/// Whether a process still reads the mount.
#[derive(Clone, Copy, Debug, PartialEq, Eq, Structural)]
pub enum RepositorySnapshotCleanupMountReaderObservationV1 {
    NoGuardianOwnedProcessReferencesMount,
    GuardianOwnedProcessReferencesMount,
}

/// Whether a snapshot effect is still in flight.
#[derive(Clone, Copy, Debug, PartialEq, Eq, Structural)]
pub enum RepositorySnapshotCleanupEffectObservationV1 {
    NoGuardianOwnedSnapshotEffectInFlight,
    GuardianOwnedSnapshotEffectInFlight,
}

/// When the topology was inspected.
#[derive(Clone, Copy, Debug, PartialEq, Eq, Structural)]
pub enum RepositorySnapshotCleanupInitialInspectionPhaseV2 {
    PreGrantInitial,
    PostGrant,
}

/// How the topology was inspected.
#[derive(Clone, Copy, Debug, PartialEq, Eq, Structural)]
pub enum RepositorySnapshotCleanupInspectOperationV2 {
    InspectDiskImageTopology,
    InspectMountTable,
}

/// The first inspection of the disk-image topology.
#[derive(Debug)]
pub struct RepositorySnapshotCleanupInitialTopologyInspectionDocumentV2 {
    pub schema_version: u32,
    pub scope: RepositorySnapshotCleanupEffectScopeV2,
    pub phase: RepositorySnapshotCleanupInitialInspectionPhaseV2,
    pub operation: RepositorySnapshotCleanupInspectOperationV2,
    pub executable: Text,
    pub exit_code: i32,
    pub stdout_artifact: ArtifactRef,
    pub stdout_digest: Sha256Digest,
    pub stderr_artifact: ArtifactRef,
    pub stderr_digest: Sha256Digest,
    pub topology: RepositorySnapshotRecoveryTopologyObservationV1,
    pub image: RepositorySnapshotRecoveryImageObservationV1,
    pub mount: RepositorySnapshotRecoveryMountObservationV1,
    pub completed_at: RuntimeClockReading,
}

impl PartialEq for RepositorySnapshotCleanupInitialTopologyInspectionDocumentV2 {
    fn eq(&self, other: &Self) -> (r: bool) {
        self.schema_version == other.schema_version
            && self.scope == other.scope
            && self.phase == other.phase
            && self.operation == other.operation
            && self.executable == other.executable
            && self.exit_code == other.exit_code
            && self.stdout_artifact == other.stdout_artifact
            && self.stdout_digest == other.stdout_digest
            && self.stderr_artifact == other.stderr_artifact
            && self.stderr_digest == other.stderr_digest
            && self.topology == other.topology
            && self.image == other.image
            && self.mount == other.mount
            && self.completed_at == other.completed_at
    }
}

impl Eq for RepositorySnapshotCleanupInitialTopologyInspectionDocumentV2 {
}

impl vstd::std_specs::cmp::PartialEqSpecImpl for RepositorySnapshotCleanupInitialTopologyInspectionDocumentV2 {
    open spec fn obeys_eq_spec() -> bool {
        true
    }

    open spec fn eq_spec(&self, other: &Self) -> bool {
        &&& self.schema_version == other.schema_version
        &&& vstd::std_specs::cmp::PartialEqSpec::eq_spec(&self.scope, &other.scope)
        &&& self.phase == other.phase
        &&& self.operation == other.operation
        &&& vstd::std_specs::cmp::PartialEqSpec::eq_spec(&self.executable, &other.executable)
        &&& self.exit_code == other.exit_code
        &&& vstd::std_specs::cmp::PartialEqSpec::eq_spec(&self.stdout_artifact, &other.stdout_artifact)
        &&& vstd::std_specs::cmp::PartialEqSpec::eq_spec(&self.stdout_digest, &other.stdout_digest)
        &&& vstd::std_specs::cmp::PartialEqSpec::eq_spec(&self.stderr_artifact, &other.stderr_artifact)
        &&& vstd::std_specs::cmp::PartialEqSpec::eq_spec(&self.stderr_digest, &other.stderr_digest)
        &&& self.topology == other.topology
        &&& vstd::std_specs::cmp::PartialEqSpec::eq_spec(&self.image, &other.image)
        &&& vstd::std_specs::cmp::PartialEqSpec::eq_spec(&self.mount, &other.mount)
        &&& self.completed_at == other.completed_at
    }
}

impl Clone for RepositorySnapshotCleanupInitialTopologyInspectionDocumentV2 {
    fn clone(&self) -> (r: Self)
        ensures
            r == *self,
    {
        RepositorySnapshotCleanupInitialTopologyInspectionDocumentV2 {
            schema_version: self.schema_version,
            scope: self.scope.clone(),
            phase: self.phase,
            operation: self.operation,
            executable: self.executable.clone(),
            exit_code: self.exit_code,
            stdout_artifact: self.stdout_artifact.clone(),
            stdout_digest: self.stdout_digest.clone(),
            stderr_artifact: self.stderr_artifact.clone(),
            stderr_digest: self.stderr_digest.clone(),
            topology: self.topology,
            image: self.image.clone(),
            mount: self.mount,
            completed_at: self.completed_at,
        }
    }
}

/// A topology inspection and the artifact that retains it.
#[derive(Debug)]
pub struct RepositorySnapshotRetainedCleanupInitialTopologyInspectionV2 {
    pub inspection_artifact: ArtifactRef,
    pub inspection_digest: Sha256Digest,
    pub inspection: RepositorySnapshotCleanupInitialTopologyInspectionDocumentV2,
}

impl PartialEq for RepositorySnapshotRetainedCleanupInitialTopologyInspectionV2 {
    fn eq(&self, other: &Self) -> (r: bool) {
        self.inspection_artifact == other.inspection_artifact
            && self.inspection_digest == other.inspection_digest
            && self.inspection == other.inspection
    }
}

impl Eq for RepositorySnapshotRetainedCleanupInitialTopologyInspectionV2 {
}

impl vstd::std_specs::cmp::PartialEqSpecImpl for RepositorySnapshotRetainedCleanupInitialTopologyInspectionV2 {
    open spec fn obeys_eq_spec() -> bool {
        true
    }

    open spec fn eq_spec(&self, other: &Self) -> bool {
        &&& vstd::std_specs::cmp::PartialEqSpec::eq_spec(&self.inspection_artifact, &other.inspection_artifact)
        &&& vstd::std_specs::cmp::PartialEqSpec::eq_spec(&self.inspection_digest, &other.inspection_digest)
        &&& vstd::std_specs::cmp::PartialEqSpec::eq_spec(&self.inspection, &other.inspection)
    }
}

impl Clone for RepositorySnapshotRetainedCleanupInitialTopologyInspectionV2 {
    fn clone(&self) -> (r: Self)
        ensures
            r == *self,
    {
        RepositorySnapshotRetainedCleanupInitialTopologyInspectionV2 {
            inspection_artifact: self.inspection_artifact.clone(),
            inspection_digest: self.inspection_digest.clone(),
            inspection: self.inspection.clone(),
        }
    }
}

/// The inspection of the processes that could touch the snapshot.
#[derive(Clone, Debug)]
pub struct RepositorySnapshotCleanupProcessInspectionDocumentV1 {
    pub schema_version: u32,
    pub session_id: SessionId,
    pub run_id: RunId,
    pub cleanup_grant_event_id: EventId,
    pub cleanup_grant_id: RepositorySnapshotCleanupGrantId,
    pub cleanup_grant_generation: u64,
    pub recovery_id: RepositorySnapshotRecoveryId,
    pub local_cleanup_id: RepositorySnapshotLocalCleanupId,
    pub snapshot_id: Text,
    pub lease_id: RepositorySnapshotLeaseId,
    pub snapshot_lease_event_id: EventId,
    pub mount_path: Text,
    pub guardian_actor_id: ActorId,
    pub guardian_runtime_instance_id: RuntimeInstanceId,
    pub process_registry_generation: u64,
    pub effect_fence_generation: u64,
    pub effect_fence: RepositorySnapshotCleanupEffectFenceObservationV1,
    pub inspected_processes: RepositorySnapshotCleanupProcessInspectionSetV1,
    pub mount_readers: RepositorySnapshotCleanupMountReaderObservationV1,
    pub snapshot_effects: RepositorySnapshotCleanupEffectObservationV1,
    pub observed_at: RuntimeClockReading,
}

impl PartialEq for RepositorySnapshotCleanupProcessInspectionDocumentV1 {
    fn eq(&self, other: &Self) -> (r: bool) {
        self.schema_version == other.schema_version
            && self.session_id == other.session_id
            && self.run_id == other.run_id
            && self.cleanup_grant_event_id == other.cleanup_grant_event_id
            && self.cleanup_grant_id == other.cleanup_grant_id
            && self.cleanup_grant_generation == other.cleanup_grant_generation
            && self.recovery_id == other.recovery_id
            && self.local_cleanup_id == other.local_cleanup_id
            && self.snapshot_id == other.snapshot_id
            && self.lease_id == other.lease_id
            && self.snapshot_lease_event_id == other.snapshot_lease_event_id
            && self.mount_path == other.mount_path
            && self.guardian_actor_id == other.guardian_actor_id
            && self.guardian_runtime_instance_id == other.guardian_runtime_instance_id
            && self.process_registry_generation == other.process_registry_generation
            && self.effect_fence_generation == other.effect_fence_generation
            && self.effect_fence == other.effect_fence
            && self.inspected_processes == other.inspected_processes
            && self.mount_readers == other.mount_readers
            && self.snapshot_effects == other.snapshot_effects
            && self.observed_at == other.observed_at
    }
}

impl Eq for RepositorySnapshotCleanupProcessInspectionDocumentV1 {
}

impl vstd::std_specs::cmp::PartialEqSpecImpl for RepositorySnapshotCleanupProcessInspectionDocumentV1 {
    open spec fn obeys_eq_spec() -> bool {
        true
    }

    open spec fn eq_spec(&self, other: &Self) -> bool {
        &&& self.schema_version == other.schema_version
        &&& self.session_id == other.session_id
        &&& self.run_id == other.run_id
        &&& self.cleanup_grant_event_id == other.cleanup_grant_event_id
        &&& self.cleanup_grant_id == other.cleanup_grant_id
        &&& self.cleanup_grant_generation == other.cleanup_grant_generation
        &&& self.recovery_id == other.recovery_id
        &&& self.local_cleanup_id == other.local_cleanup_id
        &&& vstd::std_specs::cmp::PartialEqSpec::eq_spec(&self.snapshot_id, &other.snapshot_id)
        &&& self.lease_id == other.lease_id
        &&& self.snapshot_lease_event_id == other.snapshot_lease_event_id
        &&& vstd::std_specs::cmp::PartialEqSpec::eq_spec(&self.mount_path, &other.mount_path)
        &&& self.guardian_actor_id == other.guardian_actor_id
        &&& self.guardian_runtime_instance_id == other.guardian_runtime_instance_id
        &&& self.process_registry_generation == other.process_registry_generation
        &&& self.effect_fence_generation == other.effect_fence_generation
        &&& self.effect_fence == other.effect_fence
        &&& vstd::std_specs::cmp::PartialEqSpec::eq_spec(&self.inspected_processes, &other.inspected_processes)
        &&& self.mount_readers == other.mount_readers
        &&& self.snapshot_effects == other.snapshot_effects
        &&& self.observed_at == other.observed_at
    }
}

/// A process inspection and the artifact that retains it.
#[derive(Clone, Debug)]
pub struct RepositorySnapshotRetainedCleanupProcessInspectionV1 {
    pub inspection_artifact: ArtifactRef,
    pub inspection_digest: Sha256Digest,
    pub inspection: RepositorySnapshotCleanupProcessInspectionDocumentV1,
}

impl PartialEq for RepositorySnapshotRetainedCleanupProcessInspectionV1 {
    fn eq(&self, other: &Self) -> (r: bool) {
        self.inspection_artifact == other.inspection_artifact
            && self.inspection_digest == other.inspection_digest
            && self.inspection == other.inspection
    }
}

impl Eq for RepositorySnapshotRetainedCleanupProcessInspectionV1 {
}

impl vstd::std_specs::cmp::PartialEqSpecImpl for RepositorySnapshotRetainedCleanupProcessInspectionV1 {
    open spec fn obeys_eq_spec() -> bool {
        true
    }

    open spec fn eq_spec(&self, other: &Self) -> bool {
        &&& vstd::std_specs::cmp::PartialEqSpec::eq_spec(&self.inspection_artifact, &other.inspection_artifact)
        &&& vstd::std_specs::cmp::PartialEqSpec::eq_spec(&self.inspection_digest, &other.inspection_digest)
        &&& vstd::std_specs::cmp::PartialEqSpec::eq_spec(&self.inspection, &other.inspection)
    }
}

/// The first inspection of image and mount.
#[derive(Debug)]
pub struct RepositorySnapshotCleanupInitialInspectionDocumentV1 {
    pub schema_version: u32,
    pub session_id: SessionId,
    pub run_id: RunId,
    pub cleanup_grant_event_id: EventId,
    pub cleanup_grant_id: RepositorySnapshotCleanupGrantId,
    pub cleanup_grant_generation: u64,
    pub recovery_id: RepositorySnapshotRecoveryId,
    pub local_cleanup_id: RepositorySnapshotLocalCleanupId,
    pub snapshot_id: Text,
    pub lease_id: RepositorySnapshotLeaseId,
    pub snapshot_lease_event_id: EventId,
    pub writer_revocation_event_id: EventId,
    pub paths: RepositorySnapshotRecoveryPathsV1,
    pub topology: RepositorySnapshotRecoveryTopologyObservationV1,
    pub image: RepositorySnapshotRecoveryImageObservationV1,
    pub mount: RepositorySnapshotRecoveryMountObservationV1,
    pub topology_inspection: RepositorySnapshotRetainedCleanupInitialTopologyInspectionV2,
    pub observed_at: RuntimeClockReading,
}

impl PartialEq for RepositorySnapshotCleanupInitialInspectionDocumentV1 {
    fn eq(&self, other: &Self) -> (r: bool) {
        self.schema_version == other.schema_version
            && self.session_id == other.session_id
            && self.run_id == other.run_id
            && self.cleanup_grant_event_id == other.cleanup_grant_event_id
            && self.cleanup_grant_id == other.cleanup_grant_id
            && self.cleanup_grant_generation == other.cleanup_grant_generation
            && self.recovery_id == other.recovery_id
            && self.local_cleanup_id == other.local_cleanup_id
            && self.snapshot_id == other.snapshot_id
            && self.lease_id == other.lease_id
            && self.snapshot_lease_event_id == other.snapshot_lease_event_id
            && self.writer_revocation_event_id == other.writer_revocation_event_id
            && self.paths == other.paths
            && self.topology == other.topology
            && self.image == other.image
            && self.mount == other.mount
            && self.topology_inspection == other.topology_inspection
            && self.observed_at == other.observed_at
    }
}

impl Eq for RepositorySnapshotCleanupInitialInspectionDocumentV1 {
}

impl vstd::std_specs::cmp::PartialEqSpecImpl for RepositorySnapshotCleanupInitialInspectionDocumentV1 {
    open spec fn obeys_eq_spec() -> bool {
        true
    }

    open spec fn eq_spec(&self, other: &Self) -> bool {
        &&& self.schema_version == other.schema_version
        &&& self.session_id == other.session_id
        &&& self.run_id == other.run_id
        &&& self.cleanup_grant_event_id == other.cleanup_grant_event_id
        &&& self.cleanup_grant_id == other.cleanup_grant_id
        &&& self.cleanup_grant_generation == other.cleanup_grant_generation
        &&& self.recovery_id == other.recovery_id
        &&& self.local_cleanup_id == other.local_cleanup_id
        &&& vstd::std_specs::cmp::PartialEqSpec::eq_spec(&self.snapshot_id, &other.snapshot_id)
        &&& self.lease_id == other.lease_id
        &&& self.snapshot_lease_event_id == other.snapshot_lease_event_id
        &&& self.writer_revocation_event_id == other.writer_revocation_event_id
        &&& vstd::std_specs::cmp::PartialEqSpec::eq_spec(&self.paths, &other.paths)
        &&& self.topology == other.topology
        &&& vstd::std_specs::cmp::PartialEqSpec::eq_spec(&self.image, &other.image)
        &&& vstd::std_specs::cmp::PartialEqSpec::eq_spec(&self.mount, &other.mount)
        &&& vstd::std_specs::cmp::PartialEqSpec::eq_spec(&self.topology_inspection, &other.topology_inspection)
        &&& self.observed_at == other.observed_at
    }
}

impl Clone for RepositorySnapshotCleanupInitialInspectionDocumentV1 {
    fn clone(&self) -> (r: Self)
        ensures
            r == *self,
    {
        RepositorySnapshotCleanupInitialInspectionDocumentV1 {
            schema_version: self.schema_version,
            session_id: self.session_id,
            run_id: self.run_id,
            cleanup_grant_event_id: self.cleanup_grant_event_id,
            cleanup_grant_id: self.cleanup_grant_id,
            cleanup_grant_generation: self.cleanup_grant_generation,
            recovery_id: self.recovery_id,
            local_cleanup_id: self.local_cleanup_id,
            snapshot_id: self.snapshot_id.clone(),
            lease_id: self.lease_id,
            snapshot_lease_event_id: self.snapshot_lease_event_id,
            writer_revocation_event_id: self.writer_revocation_event_id,
            paths: self.paths.clone(),
            topology: self.topology,
            image: self.image.clone(),
            mount: self.mount,
            topology_inspection: self.topology_inspection.clone(),
            observed_at: self.observed_at,
        }
    }
}

/// A first inspection and the artifact that retains it.
#[derive(Debug)]
pub struct RepositorySnapshotRetainedCleanupInitialInspectionV1 {
    pub inspection_artifact: ArtifactRef,
    pub inspection_digest: Sha256Digest,
    pub inspection: RepositorySnapshotCleanupInitialInspectionDocumentV1,
}

impl PartialEq for RepositorySnapshotRetainedCleanupInitialInspectionV1 {
    fn eq(&self, other: &Self) -> (r: bool) {
        self.inspection_artifact == other.inspection_artifact
            && self.inspection_digest == other.inspection_digest
            && self.inspection == other.inspection
    }
}

impl Eq for RepositorySnapshotRetainedCleanupInitialInspectionV1 {
}

impl vstd::std_specs::cmp::PartialEqSpecImpl for RepositorySnapshotRetainedCleanupInitialInspectionV1 {
    open spec fn obeys_eq_spec() -> bool {
        true
    }

    open spec fn eq_spec(&self, other: &Self) -> bool {
        &&& vstd::std_specs::cmp::PartialEqSpec::eq_spec(&self.inspection_artifact, &other.inspection_artifact)
        &&& vstd::std_specs::cmp::PartialEqSpec::eq_spec(&self.inspection_digest, &other.inspection_digest)
        &&& vstd::std_specs::cmp::PartialEqSpec::eq_spec(&self.inspection, &other.inspection)
    }
}

impl Clone for RepositorySnapshotRetainedCleanupInitialInspectionV1 {
    fn clone(&self) -> (r: Self)
        ensures
            r == *self,
    {
        RepositorySnapshotRetainedCleanupInitialInspectionV1 {
            inspection_artifact: self.inspection_artifact.clone(),
            inspection_digest: self.inspection_digest.clone(),
            inspection: self.inspection.clone(),
        }
    }
}

/// Everything that shows a cleanup to be safe.
#[derive(Clone, Debug)]
pub struct RepositorySnapshotCleanupSafetyEvidenceDocumentV1 {
    pub schema_version: u32,
    pub session_id: SessionId,
    pub run_id: RunId,
    pub cleanup_grant_event_id: EventId,
    pub cleanup_grant_id: RepositorySnapshotCleanupGrantId,
    pub cleanup_grant_generation: u64,
    pub recovery_id: RepositorySnapshotRecoveryId,
    pub local_cleanup_id: RepositorySnapshotLocalCleanupId,
    pub snapshot_id: Text,
    pub lease_id: RepositorySnapshotLeaseId,
    pub snapshot_lease_event_id: EventId,
    pub writer_revocation_event_id: EventId,
    pub process_quiescence: RepositorySnapshotRetainedCleanupProcessInspectionV1,
    pub initial_inspection: RepositorySnapshotRetainedCleanupInitialInspectionV1,
    pub observed_at: RuntimeClockReading,
}

impl PartialEq for RepositorySnapshotCleanupSafetyEvidenceDocumentV1 {
    fn eq(&self, other: &Self) -> (r: bool) {
        self.schema_version == other.schema_version
            && self.session_id == other.session_id
            && self.run_id == other.run_id
            && self.cleanup_grant_event_id == other.cleanup_grant_event_id
            && self.cleanup_grant_id == other.cleanup_grant_id
            && self.cleanup_grant_generation == other.cleanup_grant_generation
            && self.recovery_id == other.recovery_id
            && self.local_cleanup_id == other.local_cleanup_id
            && self.snapshot_id == other.snapshot_id
            && self.lease_id == other.lease_id
            && self.snapshot_lease_event_id == other.snapshot_lease_event_id
            && self.writer_revocation_event_id == other.writer_revocation_event_id
            && self.process_quiescence == other.process_quiescence
            && self.initial_inspection == other.initial_inspection
            && self.observed_at == other.observed_at
    }
}

impl Eq for RepositorySnapshotCleanupSafetyEvidenceDocumentV1 {
}

impl vstd::std_specs::cmp::PartialEqSpecImpl for RepositorySnapshotCleanupSafetyEvidenceDocumentV1 {
    open spec fn obeys_eq_spec() -> bool {
        true
    }

    open spec fn eq_spec(&self, other: &Self) -> bool {
        &&& self.schema_version == other.schema_version
        &&& self.session_id == other.session_id
        &&& self.run_id == other.run_id
        &&& self.cleanup_grant_event_id == other.cleanup_grant_event_id
        &&& self.cleanup_grant_id == other.cleanup_grant_id
        &&& self.cleanup_grant_generation == other.cleanup_grant_generation
        &&& self.recovery_id == other.recovery_id
        &&& self.local_cleanup_id == other.local_cleanup_id
        &&& vstd::std_specs::cmp::PartialEqSpec::eq_spec(&self.snapshot_id, &other.snapshot_id)
        &&& self.lease_id == other.lease_id
        &&& self.snapshot_lease_event_id == other.snapshot_lease_event_id
        &&& self.writer_revocation_event_id == other.writer_revocation_event_id
        &&& vstd::std_specs::cmp::PartialEqSpec::eq_spec(&self.process_quiescence, &other.process_quiescence)
        &&& vstd::std_specs::cmp::PartialEqSpec::eq_spec(&self.initial_inspection, &other.initial_inspection)
        &&& self.observed_at == other.observed_at
    }
}

/// The safety evidence and the artifact that retains it.
#[derive(Clone, Debug)]
pub struct RepositorySnapshotRetainedCleanupSafetyEvidenceV1 {
    pub evidence_artifact: ArtifactRef,
    pub evidence_digest: Sha256Digest,
    pub evidence: RepositorySnapshotCleanupSafetyEvidenceDocumentV1,
}

impl PartialEq for RepositorySnapshotRetainedCleanupSafetyEvidenceV1 {
    fn eq(&self, other: &Self) -> (r: bool) {
        self.evidence_artifact == other.evidence_artifact
            && self.evidence_digest == other.evidence_digest
            && self.evidence == other.evidence
    }
}

impl Eq for RepositorySnapshotRetainedCleanupSafetyEvidenceV1 {
}

impl vstd::std_specs::cmp::PartialEqSpecImpl for RepositorySnapshotRetainedCleanupSafetyEvidenceV1 {
    open spec fn obeys_eq_spec() -> bool {
        true
    }

    open spec fn eq_spec(&self, other: &Self) -> bool {
        &&& vstd::std_specs::cmp::PartialEqSpec::eq_spec(&self.evidence_artifact, &other.evidence_artifact)
        &&& vstd::std_specs::cmp::PartialEqSpec::eq_spec(&self.evidence_digest, &other.evidence_digest)
        &&& vstd::std_specs::cmp::PartialEqSpec::eq_spec(&self.evidence, &other.evidence)
    }
}

/// A cleanup was granted.
#[derive(Clone, Debug)]
pub struct RepositorySnapshotCleanupGrantedV1 {
    pub schema_version: u32,
    pub session_id: SessionId,
    pub run_id: RunId,
    pub cleanup_grant_event_id: EventId,
    pub cleanup_grant_id: RepositorySnapshotCleanupGrantId,
    pub cleanup_grant_generation: u64,
    pub recovery_id: RepositorySnapshotRecoveryId,
    pub local_cleanup_id: RepositorySnapshotLocalCleanupId,
    pub closure_event_id: EventId,
    pub workspace_finalized_event_id: EventId,
    pub kind: RepositorySnapshotCleanupKindV1,
    pub boundary: RepositorySnapshotCleanupBoundaryV1,
    pub lifecycle_tail_event_id: EventId,
    pub snapshot_id: Text,
    pub lease_id: RepositorySnapshotLeaseId,
    pub snapshot_lease_event_id: EventId,
    pub writer_revocation_event_id: EventId,
    pub lifecycle_owner_actor_id: ActorId,
    pub lifecycle_owner_runtime_instance_id: RuntimeInstanceId,
    pub source_claim_event_id: EventId,
    pub source_claim_id: RunClaimId,
    pub source_claim_generation: u64,
    pub source_claim_actor_id: ActorId,
    pub source_claim_runtime_instance_id: RuntimeInstanceId,
    pub cancellation_generation: u64,
    pub cleanup_actor_id: ActorId,
    pub cleanup_runtime_instance_id: RuntimeInstanceId,
    pub safety_evidence: RepositorySnapshotRetainedCleanupSafetyEvidenceV1,
    pub granted_at: RuntimeClockReading,
    pub grant_expires_at: Timestamp,
}

impl PartialEq for RepositorySnapshotCleanupGrantedV1 {
    fn eq(&self, other: &Self) -> (r: bool) {
        self.schema_version == other.schema_version
            && self.session_id == other.session_id
            && self.run_id == other.run_id
            && self.cleanup_grant_event_id == other.cleanup_grant_event_id
            && self.cleanup_grant_id == other.cleanup_grant_id
            && self.cleanup_grant_generation == other.cleanup_grant_generation
            && self.recovery_id == other.recovery_id
            && self.local_cleanup_id == other.local_cleanup_id
            && self.closure_event_id == other.closure_event_id
            && self.workspace_finalized_event_id == other.workspace_finalized_event_id
            && self.kind == other.kind
            && self.boundary == other.boundary
            && self.lifecycle_tail_event_id == other.lifecycle_tail_event_id
            && self.snapshot_id == other.snapshot_id
            && self.lease_id == other.lease_id
            && self.snapshot_lease_event_id == other.snapshot_lease_event_id
            && self.writer_revocation_event_id == other.writer_revocation_event_id
            && self.lifecycle_owner_actor_id == other.lifecycle_owner_actor_id
            && self.lifecycle_owner_runtime_instance_id == other.lifecycle_owner_runtime_instance_id
            && self.source_claim_event_id == other.source_claim_event_id
            && self.source_claim_id == other.source_claim_id
            && self.source_claim_generation == other.source_claim_generation
            && self.source_claim_actor_id == other.source_claim_actor_id
            && self.source_claim_runtime_instance_id == other.source_claim_runtime_instance_id
            && self.cancellation_generation == other.cancellation_generation
            && self.cleanup_actor_id == other.cleanup_actor_id
            && self.cleanup_runtime_instance_id == other.cleanup_runtime_instance_id
            && self.safety_evidence == other.safety_evidence
            && self.granted_at == other.granted_at
            && self.grant_expires_at == other.grant_expires_at
    }
}

impl Eq for RepositorySnapshotCleanupGrantedV1 {
}

impl vstd::std_specs::cmp::PartialEqSpecImpl for RepositorySnapshotCleanupGrantedV1 {
    open spec fn obeys_eq_spec() -> bool {
        true
    }

    open spec fn eq_spec(&self, other: &Self) -> bool {
        &&& self.schema_version == other.schema_version
        &&& self.session_id == other.session_id
        &&& self.run_id == other.run_id
        &&& self.cleanup_grant_event_id == other.cleanup_grant_event_id
        &&& self.cleanup_grant_id == other.cleanup_grant_id
        &&& self.cleanup_grant_generation == other.cleanup_grant_generation
        &&& self.recovery_id == other.recovery_id
        &&& self.local_cleanup_id == other.local_cleanup_id
        &&& self.closure_event_id == other.closure_event_id
        &&& self.workspace_finalized_event_id == other.workspace_finalized_event_id
        &&& self.kind == other.kind
        &&& self.boundary == other.boundary
        &&& self.lifecycle_tail_event_id == other.lifecycle_tail_event_id
        &&& vstd::std_specs::cmp::PartialEqSpec::eq_spec(&self.snapshot_id, &other.snapshot_id)
        &&& self.lease_id == other.lease_id
        &&& self.snapshot_lease_event_id == other.snapshot_lease_event_id
        &&& self.writer_revocation_event_id == other.writer_revocation_event_id
        &&& self.lifecycle_owner_actor_id == other.lifecycle_owner_actor_id
        &&& self.lifecycle_owner_runtime_instance_id == other.lifecycle_owner_runtime_instance_id
        &&& self.source_claim_event_id == other.source_claim_event_id
        &&& self.source_claim_id == other.source_claim_id
        &&& self.source_claim_generation == other.source_claim_generation
        &&& self.source_claim_actor_id == other.source_claim_actor_id
        &&& self.source_claim_runtime_instance_id == other.source_claim_runtime_instance_id
        &&& self.cancellation_generation == other.cancellation_generation
        &&& self.cleanup_actor_id == other.cleanup_actor_id
        &&& self.cleanup_runtime_instance_id == other.cleanup_runtime_instance_id
        &&& vstd::std_specs::cmp::PartialEqSpec::eq_spec(&self.safety_evidence, &other.safety_evidence)
        &&& self.granted_at == other.granted_at
        &&& self.grant_expires_at == other.grant_expires_at
    }
}

/// What the revoked writer lease left behind.
#[derive(Debug)]
pub struct RepositoryWriterLeaseEvidenceDocumentV1 {
    pub schema_version: u32,
    pub writer_lease_id: Text,
    pub writer_lease_generation: u64,
    pub source_path: Text,
    pub source_root_identity: RepositoryFileIdentityV1,
    pub exclusive: bool,
    pub active_writer_count: u32,
    pub revoked_at: RuntimeClockReading,
}

impl PartialEq for RepositoryWriterLeaseEvidenceDocumentV1 {
    fn eq(&self, other: &Self) -> (r: bool) {
        self.schema_version == other.schema_version
            && self.writer_lease_id == other.writer_lease_id
            && self.writer_lease_generation == other.writer_lease_generation
            && self.source_path == other.source_path
            && self.source_root_identity == other.source_root_identity
            && self.exclusive == other.exclusive
            && self.active_writer_count == other.active_writer_count
            && self.revoked_at == other.revoked_at
    }
}

impl Eq for RepositoryWriterLeaseEvidenceDocumentV1 {
}

impl vstd::std_specs::cmp::PartialEqSpecImpl for RepositoryWriterLeaseEvidenceDocumentV1 {
    open spec fn obeys_eq_spec() -> bool {
        true
    }

    open spec fn eq_spec(&self, other: &Self) -> bool {
        &&& self.schema_version == other.schema_version
        &&& vstd::std_specs::cmp::PartialEqSpec::eq_spec(&self.writer_lease_id, &other.writer_lease_id)
        &&& self.writer_lease_generation == other.writer_lease_generation
        &&& vstd::std_specs::cmp::PartialEqSpec::eq_spec(&self.source_path, &other.source_path)
        &&& vstd::std_specs::cmp::PartialEqSpec::eq_spec(&self.source_root_identity, &other.source_root_identity)
        &&& self.exclusive == other.exclusive
        &&& self.active_writer_count == other.active_writer_count
        &&& self.revoked_at == other.revoked_at
    }
}

impl Clone for RepositoryWriterLeaseEvidenceDocumentV1 {
    fn clone(&self) -> (r: Self)
        ensures
            r == *self,
    {
        RepositoryWriterLeaseEvidenceDocumentV1 {
            schema_version: self.schema_version,
            writer_lease_id: self.writer_lease_id.clone(),
            writer_lease_generation: self.writer_lease_generation,
            source_path: self.source_path.clone(),
            source_root_identity: self.source_root_identity,
            exclusive: self.exclusive,
            active_writer_count: self.active_writer_count,
            revoked_at: self.revoked_at,
        }
    }
}

/// The writer lease that a mount was taken under.
#[derive(Debug)]
pub struct RepositorySourceQuiescenceV1 {
    pub writer_lease_event_id: EventId,
    pub workspace_writer_lease_id: Text,
}

impl PartialEq for RepositorySourceQuiescenceV1 {
    fn eq(&self, other: &Self) -> (r: bool) {
        self.writer_lease_event_id == other.writer_lease_event_id
            && self.workspace_writer_lease_id == other.workspace_writer_lease_id
    }
}

impl Eq for RepositorySourceQuiescenceV1 {
}

impl vstd::std_specs::cmp::PartialEqSpecImpl for RepositorySourceQuiescenceV1 {
    open spec fn obeys_eq_spec() -> bool {
        true
    }

    open spec fn eq_spec(&self, other: &Self) -> bool {
        &&& self.writer_lease_event_id == other.writer_lease_event_id
        &&& vstd::std_specs::cmp::PartialEqSpec::eq_spec(&self.workspace_writer_lease_id, &other.workspace_writer_lease_id)
    }
}

impl Clone for RepositorySourceQuiescenceV1 {
    fn clone(&self) -> (r: Self)
        ensures
            r == *self,
    {
        RepositorySourceQuiescenceV1 {
            writer_lease_event_id: self.writer_lease_event_id,
            workspace_writer_lease_id: self.workspace_writer_lease_id.clone(),
        }
    }
}

/// The read-only mount of a snapshot and who owns it.
#[derive(Debug)]
pub struct RepositoryMacOsReadOnlyMountV1 {
    pub lifecycle_owner_actor_id: ActorId,
    pub lifecycle_owner_runtime_instance_id: RuntimeInstanceId,
    pub source_quiescence: RepositorySourceQuiescenceV1,
}

impl PartialEq for RepositoryMacOsReadOnlyMountV1 {
    fn eq(&self, other: &Self) -> (r: bool) {
        self.lifecycle_owner_actor_id == other.lifecycle_owner_actor_id
            && self.lifecycle_owner_runtime_instance_id == other.lifecycle_owner_runtime_instance_id
            && self.source_quiescence == other.source_quiescence
    }
}

impl Eq for RepositoryMacOsReadOnlyMountV1 {
}

impl vstd::std_specs::cmp::PartialEqSpecImpl for RepositoryMacOsReadOnlyMountV1 {
    open spec fn obeys_eq_spec() -> bool {
        true
    }

    open spec fn eq_spec(&self, other: &Self) -> bool {
        &&& self.lifecycle_owner_actor_id == other.lifecycle_owner_actor_id
        &&& self.lifecycle_owner_runtime_instance_id == other.lifecycle_owner_runtime_instance_id
        &&& vstd::std_specs::cmp::PartialEqSpec::eq_spec(&self.source_quiescence, &other.source_quiescence)
    }
}

impl Clone for RepositoryMacOsReadOnlyMountV1 {
    fn clone(&self) -> (r: Self)
        ensures
            r == *self,
    {
        RepositoryMacOsReadOnlyMountV1 {
            lifecycle_owner_actor_id: self.lifecycle_owner_actor_id,
            lifecycle_owner_runtime_instance_id: self.lifecycle_owner_runtime_instance_id,
            source_quiescence: self.source_quiescence.clone(),
        }
    }
}

/// The document behind a snapshot lease.
#[derive(Debug)]
pub struct RepositorySnapshotLeaseDocumentV1 {
    pub schema_version: u32,
    pub macos_read_only_mount: RepositoryMacOsReadOnlyMountV1,
}

impl PartialEq for RepositorySnapshotLeaseDocumentV1 {
    fn eq(&self, other: &Self) -> (r: bool) {
        self.schema_version == other.schema_version
            && self.macos_read_only_mount == other.macos_read_only_mount
    }
}

impl Eq for RepositorySnapshotLeaseDocumentV1 {
}

impl vstd::std_specs::cmp::PartialEqSpecImpl for RepositorySnapshotLeaseDocumentV1 {
    open spec fn obeys_eq_spec() -> bool {
        true
    }

    open spec fn eq_spec(&self, other: &Self) -> bool {
        &&& self.schema_version == other.schema_version
        &&& vstd::std_specs::cmp::PartialEqSpec::eq_spec(&self.macos_read_only_mount, &other.macos_read_only_mount)
    }
}

impl Clone for RepositorySnapshotLeaseDocumentV1 {
    fn clone(&self) -> (r: Self)
        ensures
            r == *self,
    {
        RepositorySnapshotLeaseDocumentV1 {
            schema_version: self.schema_version,
            macos_read_only_mount: self.macos_read_only_mount.clone(),
        }
    }
}

} // verus!

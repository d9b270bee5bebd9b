//! Fail-closed validation of the material that a cleanup grant retains. A grant that passes is
//! evidence only; nothing here issues, redeems or admits cleanup authority.

use vstd::prelude::*;
use crate::artifact::{digest_matches_artifact, require_artifact_media_type, ArtifactRef};
use crate::cleanup::{
    RepositoryFileIdentityV1, RepositorySnapshotCleanupEffectFenceObservationV1,
    RepositorySnapshotCleanupEffectObservationV1, RepositorySnapshotCleanupEffectScopeV2,
    RepositorySnapshotCleanupGrantedV1, RepositorySnapshotCleanupInitialInspectionDocumentV1,
    RepositorySnapshotCleanupInitialInspectionPhaseV2,
    RepositorySnapshotCleanupInitialTopologyInspectionDocumentV2,
    RepositorySnapshotCleanupInspectOperationV2, RepositorySnapshotCleanupKindV1,
    RepositorySnapshotCleanupMountReaderObservationV1, RepositorySnapshotCleanupProcessIdentityV1,
    RepositorySnapshotCleanupProcessInspectionDocumentV1,
    RepositorySnapshotCleanupProcessInspectionSetV1,
    RepositorySnapshotCleanupSafetyEvidenceDocumentV1,
    RepositorySnapshotRecoveryImageObservationV1, RepositorySnapshotRecoveryMountObservationV1,
    RepositorySnapshotRecoveryPathsV1, RepositorySnapshotRecoveryTopologyObservationV1,
};
use crate::clock::RuntimeClockReading;
use crate::contract::Contract;
use crate::digest::Sha256Digest;
use crate::error::StoreError;
use crate::identity::{
    ActorId, EventId, RepositorySnapshotCleanupGrantId, RepositorySnapshotLeaseId,
    RepositorySnapshotLocalCleanupId, RepositorySnapshotRecoveryId, RunId, RuntimeInstanceId,
    SessionId,
};
use crate::text::{Same, Text};

verus! {

/// The candidate that the store itself prepared. Nothing in a grant can change what is expected
/// of it.
#[derive(Clone, Debug)]
pub struct ExpectedRepositorySnapshotCleanupSafetyCandidateV1 {
    pub session_id: SessionId,
    pub run_id: RunId,
    pub cleanup_grant_event_id: EventId,
    pub cleanup_grant_id: RepositorySnapshotCleanupGrantId,
    pub cleanup_grant_generation: u64,
    pub recovery_id: RepositorySnapshotRecoveryId,
    pub local_cleanup_id: RepositorySnapshotLocalCleanupId,
    pub kind: RepositorySnapshotCleanupKindV1,
    pub snapshot_id: Text,
    pub lease_id: RepositorySnapshotLeaseId,
    pub snapshot_lease_event_id: EventId,
    pub writer_revocation_event_id: EventId,
    pub paths: RepositorySnapshotRecoveryPathsV1,
    pub cleanup_actor_id: ActorId,
    pub cleanup_runtime_instance_id: RuntimeInstanceId,
    pub process_registry_generation: u64,
    pub effect_fence_generation: u64,
    pub inspected_processes: RepositorySnapshotCleanupProcessInspectionSetV1,
    pub topology_inspection_executable: Text,
}

impl ExpectedRepositorySnapshotCleanupSafetyCandidateV1 {
    /// The scope that every effect of this cleanup has to name.
    pub open spec fn expected_scope(self) -> RepositorySnapshotCleanupEffectScopeV2 {
        RepositorySnapshotCleanupEffectScopeV2 {
            session_id: self.session_id,
            run_id: self.run_id,
            cleanup_grant_event_id: self.cleanup_grant_event_id,
            cleanup_grant_id: self.cleanup_grant_id,
            cleanup_grant_generation: self.cleanup_grant_generation,
            recovery_id: self.recovery_id,
            local_cleanup_id: self.local_cleanup_id,
            snapshot_id: self.snapshot_id,
            lease_id: self.lease_id,
            snapshot_lease_event_id: self.snapshot_lease_event_id,
            writer_revocation_event_id: self.writer_revocation_event_id,
            paths: self.paths,
        }
    }

    /// The scope that every effect of this cleanup has to name.
    pub fn scope(&self) -> (r: RepositorySnapshotCleanupEffectScopeV2)
        ensures
            r == self.expected_scope(),
    {
        RepositorySnapshotCleanupEffectScopeV2 {
            session_id: self.session_id,
            run_id: self.run_id,
            cleanup_grant_event_id: self.cleanup_grant_event_id,
            cleanup_grant_id: self.cleanup_grant_id,
            cleanup_grant_generation: self.cleanup_grant_generation,
            recovery_id: self.recovery_id,
            local_cleanup_id: self.local_cleanup_id,
            snapshot_id: self.snapshot_id.clone(),
            lease_id: self.lease_id,
            snapshot_lease_event_id: self.snapshot_lease_event_id,
            writer_revocation_event_id: self.writer_revocation_event_id,
            paths: self.paths.clone(),
        }
    }
}

/// What came back for each artifact that the grant names: the canonical document, or why it could
/// not be read.
#[derive(Debug)]
pub struct CleanupSafetyReads {
    pub safety: Result<RepositorySnapshotCleanupSafetyEvidenceDocumentV1, StoreError>,
    pub process: Result<RepositorySnapshotCleanupProcessInspectionDocumentV1, StoreError>,
    pub initial: Result<RepositorySnapshotCleanupInitialInspectionDocumentV1, StoreError>,
    pub topology: Result<RepositorySnapshotCleanupInitialTopologyInspectionDocumentV2, StoreError>,
    pub stdout: Result<(), StoreError>,
    pub stderr: Result<(), StoreError>,
}

/// The outcome of holding a retained document against the one that stands inline.
pub open spec fn retained_exactly<T: PartialEq>(
    artifact: ArtifactRef,
    digest: Sha256Digest,
    media_type: Text,
    read: Result<T, StoreError>,
    inline: T,
) -> Result<(), StoreError> {
    crate::error::and_next(
        crate::error::demand(digest@ == artifact.sha256@ && artifact.media_type@ == media_type@),
        match read {
            Ok(retained) => crate::error::demand(retained.same(&inline)),
            Err(error) => Err(error),
        },
    )
}

fn read_exact_canonical(
    artifact: &ArtifactRef,
    digest: &Sha256Digest,
    media_type: &Text,
    read_is_inline: Result<bool, StoreError>,
) -> (r: Result<(), StoreError>)
    ensures
        r == crate::error::and_next(
            crate::error::demand(digest@ == artifact.sha256@ && artifact.media_type@ == media_type@),
            match read_is_inline {
                Ok(same) => crate::error::demand(same),
                Err(error) => Err(error),
            },
        ),
{
    if !digest_matches_artifact(digest, artifact) {
        return Err(StoreError::InvalidStateEvent);
    }
    if let Err(error) = require_artifact_media_type(artifact, media_type) {
        return Err(error);
    }
    match read_is_inline {
        Ok(true) => Ok(()),
        Ok(false) => Err(StoreError::InvalidStateEvent),
        Err(error) => Err(error),
    }
}

/// The outcome of holding a raw artifact against its digest.
pub open spec fn raw_exactly(
    artifact: ArtifactRef,
    digest: Sha256Digest,
    media_type: Text,
    read: Result<(), StoreError>,
) -> Result<(), StoreError> {
    crate::error::and_next(crate::error::demand(artifact.media_type@ == media_type@ && digest@ == artifact.sha256@), read)
}

fn verify_raw_artifact(
    artifact: &ArtifactRef,
    digest: &Sha256Digest,
    media_type: &Text,
    read: Result<(), StoreError>,
) -> (r: Result<(), StoreError>)
    ensures
        r == raw_exactly(*artifact, *digest, *media_type, read),
{
    if artifact.media_type != *media_type || !digest_matches_artifact(digest, artifact) {
        return Err(StoreError::InvalidStateEvent);
    }
    read
}

/// The process number, then the start time.
pub open spec fn process_order(
    process: RepositorySnapshotCleanupProcessIdentityV1,
) -> (int, int, int) {
    match process {
        RepositorySnapshotCleanupProcessIdentityV1::MacOs {
            process_id,
            start_time_seconds,
            start_time_microseconds,
        } => (process_id as int, start_time_seconds as int, start_time_microseconds as int),
    }
}

/// Whether a registry snapshot is exact: every process is real, and process numbers strictly
/// increase, so that none occurs twice.
pub open spec fn exact_process_set(
    processes: Seq<RepositorySnapshotCleanupProcessIdentityV1>,
) -> bool {
    &&& forall|i: int|
        0 <= i < processes.len() ==> {
            let key = process_order(#[trigger] processes[i]);
            key.0 != 0 && key.1 >= 0 && key.2 < 1_000_000
        }
    &&& forall|i: int, j: int|
        0 <= i < j < processes.len() ==> process_order(#[trigger] processes[i]).0 < process_order(
            #[trigger] processes[j],
        ).0
}

fn process_key(process: &RepositorySnapshotCleanupProcessIdentityV1) -> (r: (u32, i64, u32))
    ensures
        process_order(*process) == (r.0 as int, r.1 as int, r.2 as int),
{
    match process {
        RepositorySnapshotCleanupProcessIdentityV1::MacOs {
            process_id,
            start_time_seconds,
            start_time_microseconds,
        } => (*process_id, *start_time_seconds, *start_time_microseconds),
    }
}

/// Whether a registry snapshot is exact.
pub fn valid_exact_process_set(
    processes: &RepositorySnapshotCleanupProcessInspectionSetV1,
) -> (r: bool)
    ensures
        r == exact_process_set(processes.processes@),
{
    let all = &processes.processes;
    let mut i: usize = 0;
    while i < all.len()
        invariant
            i <= all@.len(),
            all@ == processes.processes@,
            forall|k: int|
                0 <= k < i ==> {
                    let key = process_order(#[trigger] all@[k]);
                    key.0 != 0 && key.1 >= 0 && key.2 < 1_000_000
                },
        decreases all.len() - i,
    {
        let (process_id, seconds, microseconds) = process_key(&all[i]);
        if !(process_id != 0 && seconds >= 0 && microseconds < 1_000_000) {
            assert(process_order(all@[i as int]) == (
                process_id as int,
                seconds as int,
                microseconds as int,
            ));
            return false;
        }
        i += 1;
    }
    if all.len() == 0 {
        return true;
    }
    let mut next: usize = 1;
    while next < all.len()
        invariant
            1 <= next <= all@.len(),
            all@ == processes.processes@,
            forall|a: int, b: int|
                0 <= a < b < next ==> process_order(#[trigger] all@[a]).0 < process_order(
                    #[trigger] all@[b],
                ).0,
        decreases all.len() - next,
    {
        let left = process_key(&all[next - 1]);
        let right = process_key(&all[next]);
        let ordered = left.0 < right.0 || (left.0 == right.0 && (left.1 < right.1 || (left.1
            == right.1 && left.2 < right.2)));
        if !(ordered && left.0 != right.0) {
            assert(process_order(all@[next - 1]).0 >= process_order(all@[next as int]).0);
            return false;
        }
        assert forall|a: int, b: int| 0 <= a < b < next + 1 implies process_order(
            #[trigger] all@[a],
        ).0 < process_order(#[trigger] all@[b]).0 by {
            if b == next && a < next - 1 {
                assert(process_order(all@[a]).0 < process_order(all@[next - 1]).0);
            }
        }
        next += 1;
    }
    true
}

/// Whether a file identity can be one: no negative length, and nanoseconds below a second.
pub open spec fn possible_file_identity(identity: RepositoryFileIdentityV1) -> bool {
    match identity {
        RepositoryFileIdentityV1::Unix(unix) => {
            &&& unix.byte_len >= 0
            &&& 0 <= unix.modified_nanoseconds < 1_000_000_000
            &&& 0 <= unix.changed_nanoseconds < 1_000_000_000
        },
    }
}

/// Whether a file identity can be one.
pub fn valid_file_identity(identity: &RepositoryFileIdentityV1) -> (r: bool)
    ensures
        r == possible_file_identity(*identity),
{
    match identity {
        RepositoryFileIdentityV1::Unix(unix) => unix.byte_len >= 0 && unix.modified_nanoseconds >= 0
            && unix.modified_nanoseconds < 1_000_000_000 && unix.changed_nanoseconds >= 0
            && unix.changed_nanoseconds < 1_000_000_000,
    }
}

/// Whether an image was observed consistently: the file is as long as the image, and not empty.
pub open spec fn possible_image(image: RepositorySnapshotRecoveryImageObservationV1) -> bool {
    match image {
        RepositorySnapshotRecoveryImageObservationV1::Missing => true,
        RepositorySnapshotRecoveryImageObservationV1::ExactRegularFile { identity, image } => {
            &&& possible_file_identity(identity)
            &&& image.byte_len > 0
            &&& match identity {
                RepositoryFileIdentityV1::Unix(unix) => unix.byte_len == image.byte_len,
            }
        },
    }
}

/// Whether an image was observed consistently.
pub fn valid_image_observation(image: &RepositorySnapshotRecoveryImageObservationV1) -> (r: bool)
    ensures
        r == possible_image(*image),
{
    match image {
        RepositorySnapshotRecoveryImageObservationV1::Missing => true,
        RepositorySnapshotRecoveryImageObservationV1::ExactRegularFile { identity, image } => {
            let byte_len = match identity {
                RepositoryFileIdentityV1::Unix(unix) => unix.byte_len,
            };
            valid_file_identity(identity) && image.byte_len > 0 && byte_len >= 0 && byte_len as u64
                == image.byte_len
        },
    }
}

/// Whether a mount was observed consistently.
pub open spec fn possible_mount(mount: RepositorySnapshotRecoveryMountObservationV1) -> bool {
    match mount {
        RepositorySnapshotRecoveryMountObservationV1::Missing => true,
        RepositorySnapshotRecoveryMountObservationV1::ExactUnmountedDirectory { identity } =>
            possible_file_identity(identity),
        RepositorySnapshotRecoveryMountObservationV1::ExactReadOnlyMount { identity, .. } =>
            possible_file_identity(identity),
    }
}

/// Whether a mount was observed consistently.
pub fn valid_mount_observation(mount: &RepositorySnapshotRecoveryMountObservationV1) -> (r: bool)
    ensures
        r == possible_mount(*mount),
{
    match mount {
        RepositorySnapshotRecoveryMountObservationV1::Missing => true,
        RepositorySnapshotRecoveryMountObservationV1::ExactUnmountedDirectory { identity }
        | RepositorySnapshotRecoveryMountObservationV1::ExactReadOnlyMount { identity, .. } =>
            valid_file_identity(identity),
    }
}

/// Whether topology, image and mount fit together: either nothing is attached and nothing is
/// mounted, or the image is there and is mounted from the very device that the topology names.
pub open spec fn possible_topology(
    topology: RepositorySnapshotRecoveryTopologyObservationV1,
    image: RepositorySnapshotRecoveryImageObservationV1,
    mount: RepositorySnapshotRecoveryMountObservationV1,
) -> bool {
    &&& possible_image(image)
    &&& possible_mount(mount)
    &&& match topology {
        RepositorySnapshotRecoveryTopologyObservationV1::NoExpectedImageOrMountAttached => !(
        mount is ExactReadOnlyMount),
        RepositorySnapshotRecoveryTopologyObservationV1::ExactImageMounted { leaf_device } => {
            &&& image is ExactRegularFile
            &&& mount is ExactReadOnlyMount
            &&& mount->leaf_device == leaf_device
        },
    }
}

/// Whether topology, image and mount fit together.
pub fn valid_initial_topology_matrix(
    topology: &RepositorySnapshotRecoveryTopologyObservationV1,
    image: &RepositorySnapshotRecoveryImageObservationV1,
    mount: &RepositorySnapshotRecoveryMountObservationV1,
) -> (r: bool)
    ensures
        r == possible_topology(*topology, *image, *mount),
{
    valid_image_observation(image) && valid_mount_observation(mount) && match (
        topology,
        image,
        mount,
    ) {
        (
            RepositorySnapshotRecoveryTopologyObservationV1::NoExpectedImageOrMountAttached,
            RepositorySnapshotRecoveryImageObservationV1::Missing
            | RepositorySnapshotRecoveryImageObservationV1::ExactRegularFile { .. },
            RepositorySnapshotRecoveryMountObservationV1::Missing
            | RepositorySnapshotRecoveryMountObservationV1::ExactUnmountedDirectory { .. },
        ) => true,
        (
            RepositorySnapshotRecoveryTopologyObservationV1::ExactImageMounted {
                leaf_device: topology_device,
            },
            RepositorySnapshotRecoveryImageObservationV1::ExactRegularFile { .. },
            RepositorySnapshotRecoveryMountObservationV1::ExactReadOnlyMount {
                leaf_device: mount_device,
                ..
            },
        ) => *topology_device == *mount_device,
        _ => false,
    }
}

/// Whether a reading is one of `runtime`, and of a clock that has started.
#[verifier::allow_in_spec]
pub fn clock_in_runtime(reading: &RuntimeClockReading, runtime: RuntimeInstanceId) -> bool
    returns
        reading.runtime_instance_id == runtime && reading.monotonic_nanos != 0,
{
    reading.runtime_instance_id == runtime && reading.monotonic_nanos != 0
}

/// Whether two readings are of `runtime` and in order on both clocks.
#[verifier::allow_in_spec]
pub fn ordered_clocks(
    earlier: &RuntimeClockReading,
    later: &RuntimeClockReading,
    runtime: RuntimeInstanceId,
) -> bool
    returns
        clock_in_runtime(earlier, runtime) && clock_in_runtime(later, runtime)
            && earlier.monotonic_nanos <= later.monotonic_nanos && earlier.observed_at.not_after(
            later.observed_at,
        ),
{
    clock_in_runtime(earlier, runtime) && clock_in_runtime(later, runtime)
        && earlier.monotonic_nanos <= later.monotonic_nanos && earlier.observed_at.not_after(
        later.observed_at,
    )
}

/// Whether a grant is for the expected candidate.
pub open spec fn grant_is_for(
    grant: RepositorySnapshotCleanupGrantedV1,
    expected: ExpectedRepositorySnapshotCleanupSafetyCandidateV1,
) -> bool {
    &&& grant.session_id == expected.session_id
    &&& grant.run_id == expected.run_id
    &&& grant.cleanup_grant_event_id == expected.cleanup_grant_event_id
    &&& grant.cleanup_grant_id == expected.cleanup_grant_id
    &&& grant.cleanup_grant_generation == expected.cleanup_grant_generation
    &&& grant.recovery_id == expected.recovery_id
    &&& grant.local_cleanup_id == expected.local_cleanup_id
    &&& grant.kind == expected.kind
    &&& grant.snapshot_id@ == expected.snapshot_id@
    &&& grant.lease_id == expected.lease_id
    &&& grant.snapshot_lease_event_id == expected.snapshot_lease_event_id
    &&& grant.writer_revocation_event_id == expected.writer_revocation_event_id
    &&& grant.cleanup_actor_id == expected.cleanup_actor_id
    &&& grant.cleanup_runtime_instance_id == expected.cleanup_runtime_instance_id
}

/// Whether a grant is for the expected candidate.
pub fn grant_matches_expected_candidate(
    grant: &RepositorySnapshotCleanupGrantedV1,
    expected: &ExpectedRepositorySnapshotCleanupSafetyCandidateV1,
) -> (r: bool)
    ensures
        r == grant_is_for(*grant, *expected),
{
    grant.session_id == expected.session_id && grant.run_id == expected.run_id
        && grant.cleanup_grant_event_id == expected.cleanup_grant_event_id
        && grant.cleanup_grant_id == expected.cleanup_grant_id && grant.cleanup_grant_generation
        == expected.cleanup_grant_generation && grant.recovery_id == expected.recovery_id
        && grant.local_cleanup_id == expected.local_cleanup_id && grant.kind == expected.kind
        && grant.snapshot_id == expected.snapshot_id && grant.lease_id == expected.lease_id
        && grant.snapshot_lease_event_id == expected.snapshot_lease_event_id
        && grant.writer_revocation_event_id == expected.writer_revocation_event_id
        && grant.cleanup_actor_id == expected.cleanup_actor_id && grant.cleanup_runtime_instance_id
        == expected.cleanup_runtime_instance_id
}

/// Whether the safety evidence names the expected candidate.
pub open spec fn safety_is_for(
    document: RepositorySnapshotCleanupSafetyEvidenceDocumentV1,
    expected: ExpectedRepositorySnapshotCleanupSafetyCandidateV1,
) -> bool {
    &&& document.session_id == expected.session_id
    &&& document.run_id == expected.run_id
    &&& document.cleanup_grant_event_id == expected.cleanup_grant_event_id
    &&& document.cleanup_grant_id == expected.cleanup_grant_id
    &&& document.cleanup_grant_generation == expected.cleanup_grant_generation
    &&& document.recovery_id == expected.recovery_id
    &&& document.local_cleanup_id == expected.local_cleanup_id
    &&& document.snapshot_id@ == expected.snapshot_id@
    &&& document.lease_id == expected.lease_id
    &&& document.snapshot_lease_event_id == expected.snapshot_lease_event_id
    &&& document.writer_revocation_event_id == expected.writer_revocation_event_id
}

/// Whether the safety evidence names the expected candidate.
pub fn flat_safety_scope_matches(
    document: &RepositorySnapshotCleanupSafetyEvidenceDocumentV1,
    expected: &ExpectedRepositorySnapshotCleanupSafetyCandidateV1,
) -> (r: bool)
    ensures
        r == safety_is_for(*document, *expected),
{
    document.session_id == expected.session_id && document.run_id == expected.run_id
        && document.cleanup_grant_event_id == expected.cleanup_grant_event_id
        && document.cleanup_grant_id == expected.cleanup_grant_id
        && document.cleanup_grant_generation == expected.cleanup_grant_generation
        && document.recovery_id == expected.recovery_id && document.local_cleanup_id
        == expected.local_cleanup_id && document.snapshot_id == expected.snapshot_id
        && document.lease_id == expected.lease_id && document.snapshot_lease_event_id
        == expected.snapshot_lease_event_id && document.writer_revocation_event_id
        == expected.writer_revocation_event_id
}

/// Whether a process inspection names the expected candidate.
pub open spec fn process_is_for(
    document: RepositorySnapshotCleanupProcessInspectionDocumentV1,
    expected: ExpectedRepositorySnapshotCleanupSafetyCandidateV1,
) -> bool {
    &&& document.session_id == expected.session_id
    &&& document.run_id == expected.run_id
    &&& document.cleanup_grant_event_id == expected.cleanup_grant_event_id
    &&& document.cleanup_grant_id == expected.cleanup_grant_id
    &&& document.cleanup_grant_generation == expected.cleanup_grant_generation
    &&& document.recovery_id == expected.recovery_id
    &&& document.local_cleanup_id == expected.local_cleanup_id
    &&& document.snapshot_id@ == expected.snapshot_id@
    &&& document.lease_id == expected.lease_id
    &&& document.snapshot_lease_event_id == expected.snapshot_lease_event_id
    &&& document.mount_path@ == expected.paths.mount_path@
}

/// Whether a process inspection names the expected candidate.
pub fn flat_process_scope_matches(
    document: &RepositorySnapshotCleanupProcessInspectionDocumentV1,
    expected: &ExpectedRepositorySnapshotCleanupSafetyCandidateV1,
) -> (r: bool)
    ensures
        r == process_is_for(*document, *expected),
{
    document.session_id == expected.session_id && document.run_id == expected.run_id
        && document.cleanup_grant_event_id == expected.cleanup_grant_event_id
        && document.cleanup_grant_id == expected.cleanup_grant_id
        && document.cleanup_grant_generation == expected.cleanup_grant_generation
        && document.recovery_id == expected.recovery_id && document.local_cleanup_id
        == expected.local_cleanup_id && document.snapshot_id == expected.snapshot_id
        && document.lease_id == expected.lease_id && document.snapshot_lease_event_id
        == expected.snapshot_lease_event_id && document.mount_path == expected.paths.mount_path
}

/// Whether a first inspection names the expected candidate.
pub open spec fn initial_is_for(
    document: RepositorySnapshotCleanupInitialInspectionDocumentV1,
    expected: ExpectedRepositorySnapshotCleanupSafetyCandidateV1,
) -> bool {
    &&& document.session_id == expected.session_id
    &&& document.run_id == expected.run_id
    &&& document.cleanup_grant_event_id == expected.cleanup_grant_event_id
    &&& document.cleanup_grant_id == expected.cleanup_grant_id
    &&& document.cleanup_grant_generation == expected.cleanup_grant_generation
    &&& document.recovery_id == expected.recovery_id
    &&& document.local_cleanup_id == expected.local_cleanup_id
    &&& document.snapshot_id@ == expected.snapshot_id@
    &&& document.lease_id == expected.lease_id
    &&& document.snapshot_lease_event_id == expected.snapshot_lease_event_id
    &&& document.writer_revocation_event_id == expected.writer_revocation_event_id
    &&& document.paths.same(&expected.paths)
}

/// Whether a first inspection names the expected candidate.
pub fn flat_initial_scope_matches(
    document: &RepositorySnapshotCleanupInitialInspectionDocumentV1,
    expected: &ExpectedRepositorySnapshotCleanupSafetyCandidateV1,
) -> (r: bool)
    ensures
        r == initial_is_for(*document, *expected),
{
    document.session_id == expected.session_id && document.run_id == expected.run_id
        && document.cleanup_grant_event_id == expected.cleanup_grant_event_id
        && document.cleanup_grant_id == expected.cleanup_grant_id
        && document.cleanup_grant_generation == expected.cleanup_grant_generation
        && document.recovery_id == expected.recovery_id && document.local_cleanup_id
        == expected.local_cleanup_id && document.snapshot_id == expected.snapshot_id
        && document.lease_id == expected.lease_id && document.snapshot_lease_event_id
        == expected.snapshot_lease_event_id && document.writer_revocation_event_id
        == expected.writer_revocation_event_id && document.paths == expected.paths
}

/// Whether the grant itself, and the candidate it is held against, can stand at all.
pub open spec fn grant_stands(
    contract: Contract,
    grant: RepositorySnapshotCleanupGrantedV1,
    expected: ExpectedRepositorySnapshotCleanupSafetyCandidateV1,
) -> bool {
    &&& grant.schema_version == contract.versions.snapshot_cleanup
    &&& expected.cleanup_grant_generation != 0
    &&& expected.process_registry_generation != 0
    &&& expected.effect_fence_generation != 0
    &&& grant_is_for(grant, expected)
    &&& exact_process_set(expected.inspected_processes.processes@)
}

/// Whether a process inspection shows the snapshot at rest: the fence is armed, the registry is
/// the expected one, nobody reads the mount and nothing is in flight.
pub open spec fn process_at_rest(
    contract: Contract,
    process: RepositorySnapshotCleanupProcessInspectionDocumentV1,
    expected: ExpectedRepositorySnapshotCleanupSafetyCandidateV1,
) -> bool {
    &&& process.schema_version == contract.versions.snapshot_cleanup
    &&& process_is_for(process, expected)
    &&& process.guardian_actor_id == expected.cleanup_actor_id
    &&& process.guardian_runtime_instance_id == expected.cleanup_runtime_instance_id
    &&& process.process_registry_generation == expected.process_registry_generation
    &&& process.effect_fence_generation == expected.effect_fence_generation
    &&& process.effect_fence is ArmedRejectingNewMountReadersAndSnapshotEffects
    &&& process.inspected_processes.same(&expected.inspected_processes)
    &&& process.mount_readers is NoGuardianOwnedProcessReferencesMount
    &&& process.snapshot_effects is NoGuardianOwnedSnapshotEffectInFlight
    &&& exact_process_set(process.inspected_processes.processes@)
}

/// Whether the topology was inspected in the expected way and agrees with the first inspection.
pub open spec fn topology_agrees(
    contract: Contract,
    topology: RepositorySnapshotCleanupInitialTopologyInspectionDocumentV2,
    initial: RepositorySnapshotCleanupInitialInspectionDocumentV1,
    expected: ExpectedRepositorySnapshotCleanupSafetyCandidateV1,
) -> bool {
    &&& topology.schema_version == contract.versions.snapshot_recovery_v2
    &&& topology.scope.same(&expected.expected_scope())
    &&& topology.phase is PreGrantInitial
    &&& topology.operation is InspectDiskImageTopology
    &&& topology.executable@ == expected.topology_inspection_executable@
    &&& topology.exit_code == 0
    &&& initial.topology == topology.topology
    &&& initial.image.same(&topology.image)
    &&& initial.mount.same(&topology.mount)
    &&& possible_topology(topology.topology, topology.image, topology.mount)
}

/// Whether the inspections, the evidence and the grant follow each other on the clocks of the
/// cleaning runtime, and the grant outlives its own making.
pub open spec fn clocks_in_order(
    grant: RepositorySnapshotCleanupGrantedV1,
    runtime: RuntimeInstanceId,
) -> bool {
    let safety = grant.safety_evidence.evidence;
    let process = safety.process_quiescence.inspection;
    let initial = safety.initial_inspection.inspection;
    let topology = initial.topology_inspection.inspection;
    &&& ordered_clocks(&process.observed_at, &topology.completed_at, runtime)
    &&& ordered_clocks(&topology.completed_at, &initial.observed_at, runtime)
    &&& ordered_clocks(&initial.observed_at, &safety.observed_at, runtime)
    &&& ordered_clocks(&safety.observed_at, &grant.granted_at, runtime)
    &&& grant.granted_at.observed_at.before(grant.grant_expires_at)
}

/// The outcome of validating the material of a grant: each document in turn is held against the
/// artifact that retains it and against the expected candidate, outermost first.
pub open spec fn safety_material(
    contract: Contract,
    grant: RepositorySnapshotCleanupGrantedV1,
    expected: ExpectedRepositorySnapshotCleanupSafetyCandidateV1,
    reads: CleanupSafetyReads,
) -> Result<(), StoreError> {
    let retained_safety = grant.safety_evidence;
    let safety = retained_safety.evidence;
    let retained_process = safety.process_quiescence;
    let process = retained_process.inspection;
    let retained_initial = safety.initial_inspection;
    let initial = retained_initial.inspection;
    let retained_topology = initial.topology_inspection;
    let topology = retained_topology.inspection;
    let media = contract.media;
    crate::error::and_next(
        crate::error::demand(grant_stands(contract, grant, expected)),
        crate::error::and_next(
            retained_exactly(
                retained_safety.evidence_artifact,
                retained_safety.evidence_digest,
                media.cleanup_safety_evidence,
                reads.safety,
                safety,
            ),
            crate::error::and_next(
                crate::error::demand(
                    safety.schema_version == contract.versions.snapshot_cleanup && safety_is_for(
                        safety,
                        expected,
                    ),
                ),
                crate::error::and_next(
                    retained_exactly(
                        retained_process.inspection_artifact,
                        retained_process.inspection_digest,
                        media.cleanup_process_inspection,
                        reads.process,
                        process,
                    ),
                    crate::error::and_next(
                        crate::error::demand(process_at_rest(contract, process, expected)),
                        crate::error::and_next(
                            retained_exactly(
                                retained_initial.inspection_artifact,
                                retained_initial.inspection_digest,
                                media.cleanup_initial_inspection,
                                reads.initial,
                                initial,
                            ),
                            crate::error::and_next(
                                crate::error::demand(
                                    initial.schema_version == contract.versions.snapshot_cleanup
                                        && initial_is_for(initial, expected),
                                ),
                                crate::error::and_next(
                                    retained_exactly(
                                        retained_topology.inspection_artifact,
                                        retained_topology.inspection_digest,
                                        media.cleanup_topology_inspection,
                                        reads.topology,
                                        topology,
                                    ),
                                    crate::error::and_next(
                                        crate::error::demand(
                                            topology_agrees(contract, topology, initial, expected),
                                        ),
                                        crate::error::and_next(
                                            raw_exactly(
                                                topology.stdout_artifact,
                                                topology.stdout_digest,
                                                media.hdiutil_info,
                                                reads.stdout,
                                            ),
                                            crate::error::and_next(
                                                raw_exactly(
                                                    topology.stderr_artifact,
                                                    topology.stderr_digest,
                                                    media.command_stderr,
                                                    reads.stderr,
                                                ),
                                                crate::error::demand(
                                                    clocks_in_order(
                                                        grant,
                                                        expected.cleanup_runtime_instance_id,
                                                    ),
                                                ),
                                            ),
                                        ),
                                    ),
                                ),
                            ),
                        ),
                    ),
                ),
            ),
        ),
    )
}

/// Validates every retained artifact of a grant and every scope field that it repeats. Success is
/// evidence only; it is no cleanup authority.
pub fn validate_repository_snapshot_cleanup_safety_material(
    contract: &Contract,
    grant: &RepositorySnapshotCleanupGrantedV1,
    expected: &ExpectedRepositorySnapshotCleanupSafetyCandidateV1,
    reads: &CleanupSafetyReads,
) -> (r: Result<(), StoreError>)
    ensures
        r == safety_material(*contract, *grant, *expected, *reads),
{
    if grant.schema_version != contract.versions.snapshot_cleanup
        || expected.cleanup_grant_generation == 0 || expected.process_registry_generation == 0
        || expected.effect_fence_generation == 0 || !grant_matches_expected_candidate(
        grant,
        expected,
    ) || !valid_exact_process_set(&expected.inspected_processes) {
        return Err(StoreError::InvalidStateEvent);
    }
    let retained_safety = &grant.safety_evidence;
    let safety = &retained_safety.evidence;
    if let Err(error) = read_exact_canonical(
        &retained_safety.evidence_artifact,
        &retained_safety.evidence_digest,
        &contract.media.cleanup_safety_evidence,
        match &reads.safety {
            Ok(document) => Ok(document == safety),
            Err(error) => Err(*error),
        },
    ) {
        return Err(error);
    }
    if safety.schema_version != contract.versions.snapshot_cleanup || !flat_safety_scope_matches(
        safety,
        expected,
    ) {
        return Err(StoreError::InvalidStateEvent);
    }
    let retained_process = &safety.process_quiescence;
    let process = &retained_process.inspection;
    if let Err(error) = read_exact_canonical(
        &retained_process.inspection_artifact,
        &retained_process.inspection_digest,
        &contract.media.cleanup_process_inspection,
        match &reads.process {
            Ok(document) => Ok(document == process),
            Err(error) => Err(*error),
        },
    ) {
        return Err(error);
    }
    if process.schema_version != contract.versions.snapshot_cleanup || !flat_process_scope_matches(
        process,
        expected,
    ) || process.guardian_actor_id != expected.cleanup_actor_id
        || process.guardian_runtime_instance_id != expected.cleanup_runtime_instance_id
        || process.process_registry_generation != expected.process_registry_generation
        || process.effect_fence_generation != expected.effect_fence_generation
        || process.effect_fence
        != RepositorySnapshotCleanupEffectFenceObservationV1::ArmedRejectingNewMountReadersAndSnapshotEffects
        || process.inspected_processes != expected.inspected_processes || process.mount_readers
        != RepositorySnapshotCleanupMountReaderObservationV1::NoGuardianOwnedProcessReferencesMount
        || process.snapshot_effects
        != RepositorySnapshotCleanupEffectObservationV1::NoGuardianOwnedSnapshotEffectInFlight
        || !valid_exact_process_set(&process.inspected_processes) {
        return Err(StoreError::InvalidStateEvent);
    }
    let retained_initial = &safety.initial_inspection;
    let initial = &retained_initial.inspection;
    if let Err(error) = read_exact_canonical(
        &retained_initial.inspection_artifact,
        &retained_initial.inspection_digest,
        &contract.media.cleanup_initial_inspection,
        match &reads.initial {
            Ok(document) => Ok(document == initial),
            Err(error) => Err(*error),
        },
    ) {
        return Err(error);
    }
    if initial.schema_version != contract.versions.snapshot_cleanup || !flat_initial_scope_matches(
        initial,
        expected,
    ) {
        return Err(StoreError::InvalidStateEvent);
    }
    let retained_topology = &initial.topology_inspection;
    let topology = &retained_topology.inspection;
    if let Err(error) = read_exact_canonical(
        &retained_topology.inspection_artifact,
        &retained_topology.inspection_digest,
        &contract.media.cleanup_topology_inspection,
        match &reads.topology {
            Ok(document) => Ok(document == topology),
            Err(error) => Err(*error),
        },
    ) {
        return Err(error);
    }
    if topology.schema_version != contract.versions.snapshot_recovery_v2 || topology.scope
        != expected.scope() || topology.phase
        != RepositorySnapshotCleanupInitialInspectionPhaseV2::PreGrantInitial || topology.operation
        != RepositorySnapshotCleanupInspectOperationV2::InspectDiskImageTopology
        || topology.executable != expected.topology_inspection_executable || topology.exit_code != 0
        || initial.topology != topology.topology || initial.image != topology.image || initial.mount
        != topology.mount || !valid_initial_topology_matrix(
        &topology.topology,
        &topology.image,
        &topology.mount,
    ) {
        return Err(StoreError::InvalidStateEvent);
    }
    if let Err(error) = verify_raw_artifact(
        &topology.stdout_artifact,
        &topology.stdout_digest,
        &contract.media.hdiutil_info,
        reads.stdout,
    ) {
        return Err(error);
    }
    if let Err(error) = verify_raw_artifact(
        &topology.stderr_artifact,
        &topology.stderr_digest,
        &contract.media.command_stderr,
        reads.stderr,
    ) {
        return Err(error);
    }
    let runtime = expected.cleanup_runtime_instance_id;
    if !ordered_clocks(&process.observed_at, &topology.completed_at, runtime) || !ordered_clocks(
        &topology.completed_at,
        &initial.observed_at,
        runtime,
    ) || !ordered_clocks(&initial.observed_at, &safety.observed_at, runtime) || !ordered_clocks(
        &safety.observed_at,
        &grant.granted_at,
        runtime,
    ) || !grant.granted_at.observed_at.before(grant.grant_expires_at) {
        return Err(StoreError::InvalidStateEvent);
    }
    Ok(())
}

/// Accepted material is bound to the expected candidate and to nothing that the grant says of
/// itself: its paths, its scope, its registry and its runtime are the expected ones.
pub proof fn law_accepted_material_is_bound(
    contract: Contract,
    grant: RepositorySnapshotCleanupGrantedV1,
    expected: ExpectedRepositorySnapshotCleanupSafetyCandidateV1,
    reads: CleanupSafetyReads,
)
    requires
        safety_material(contract, grant, expected, reads) is Ok,
    ensures
        ({
            let safety = grant.safety_evidence.evidence;
            let initial = safety.initial_inspection.inspection;
            let topology = initial.topology_inspection.inspection;
            let process = safety.process_quiescence.inspection;
            &&& initial.paths.same(&expected.paths)
            &&& topology.scope.same(&expected.expected_scope())
            &&& process.inspected_processes.same(&expected.inspected_processes)
            &&& grant.granted_at.runtime_instance_id == expected.cleanup_runtime_instance_id
            &&& process.observed_at.runtime_instance_id == expected.cleanup_runtime_instance_id
        }),
{
}

/// In accepted material the processes were inspected no later than the grant was made, on both
/// clocks, and the grant had not expired when it was made.
pub proof fn law_inspection_precedes_grant(
    contract: Contract,
    grant: RepositorySnapshotCleanupGrantedV1,
    expected: ExpectedRepositorySnapshotCleanupSafetyCandidateV1,
    reads: CleanupSafetyReads,
)
    requires
        safety_material(contract, grant, expected, reads) is Ok,
    ensures
        ({
            let inspected = grant.safety_evidence.evidence.process_quiescence.inspection.observed_at;
            &&& inspected.monotonic_nanos <= grant.granted_at.monotonic_nanos
            &&& inspected.observed_at.not_after(grant.granted_at.observed_at)
            &&& inspected.observed_at.before(grant.grant_expires_at)
        }),
{
}

/// An exact registry snapshot names no process number twice.
pub proof fn law_exact_registry_has_distinct_processes(
    processes: Seq<RepositorySnapshotCleanupProcessIdentityV1>,
    i: int,
    j: int,
)
    requires
        exact_process_set(processes),
        0 <= i < processes.len(),
        0 <= j < processes.len(),
        i != j,
    ensures
        process_order(processes[i]).0 != process_order(processes[j]).0,
{
}

/// A grant is for exactly the candidate that was expected: its session and run, its grant, recovery and
/// local cleanup, its snapshot and lease, and the actor and runtime that clean up.
pub proof fn law_grants_are_for_their_candidate(
    contract: Contract,
    grant: RepositorySnapshotCleanupGrantedV1,
    expected: ExpectedRepositorySnapshotCleanupSafetyCandidateV1,
    reads: CleanupSafetyReads,
)
    requires
        safety_material(contract, grant, expected, reads) is Ok,
    ensures
        grant.session_id == expected.session_id,
        grant.run_id == expected.run_id,
        grant.cleanup_grant_event_id == expected.cleanup_grant_event_id,
        grant.cleanup_grant_id == expected.cleanup_grant_id,
        grant.cleanup_grant_generation == expected.cleanup_grant_generation,
        grant.cleanup_grant_generation != 0,
        grant.recovery_id == expected.recovery_id,
        grant.local_cleanup_id == expected.local_cleanup_id,
        grant.kind == expected.kind,
        grant.snapshot_id@ == expected.snapshot_id@,
        grant.lease_id == expected.lease_id,
        grant.snapshot_lease_event_id == expected.snapshot_lease_event_id,
        grant.writer_revocation_event_id == expected.writer_revocation_event_id,
        grant.cleanup_actor_id == expected.cleanup_actor_id,
        grant.cleanup_runtime_instance_id == expected.cleanup_runtime_instance_id,
{
}

/// Cleanup is granted only while everything is at rest: the fence is armed, no process reads the mount
/// and no effect is in flight, as the guardian that cleans up saw in the expected generations.
pub proof fn law_cleanup_is_granted_at_rest(
    contract: Contract,
    grant: RepositorySnapshotCleanupGrantedV1,
    expected: ExpectedRepositorySnapshotCleanupSafetyCandidateV1,
    reads: CleanupSafetyReads,
)
    requires
        safety_material(contract, grant, expected, reads) is Ok,
    ensures
        ({
            let process = grant.safety_evidence.evidence.process_quiescence.inspection;
            &&& process.effect_fence is ArmedRejectingNewMountReadersAndSnapshotEffects
            &&& process.mount_readers is NoGuardianOwnedProcessReferencesMount
            &&& process.snapshot_effects is NoGuardianOwnedSnapshotEffectInFlight
            &&& process.process_registry_generation == expected.process_registry_generation
            &&& process.effect_fence_generation == expected.effect_fence_generation
            &&& process.process_registry_generation != 0
            &&& process.effect_fence_generation != 0
            &&& process.guardian_actor_id == expected.cleanup_actor_id
            &&& process.guardian_runtime_instance_id == expected.cleanup_runtime_instance_id
            &&& process.mount_path@ == expected.paths.mount_path@
            &&& process.session_id == expected.session_id
            &&& process.run_id == expected.run_id
        }),
{
}

/// What was inspected before the grant is told twice alike: the first inspection shows the image, the
/// mount and the topology that the tool reported, which ran with success, and all of it is possible.
pub proof fn law_inspections_agree_with_the_tool(
    contract: Contract,
    grant: RepositorySnapshotCleanupGrantedV1,
    expected: ExpectedRepositorySnapshotCleanupSafetyCandidateV1,
    reads: CleanupSafetyReads,
)
    requires
        safety_material(contract, grant, expected, reads) is Ok,
    ensures
        ({
            let initial = grant.safety_evidence.evidence.initial_inspection.inspection;
            let topology = initial.topology_inspection.inspection;
            &&& topology.exit_code == 0
            &&& topology.executable@ == expected.topology_inspection_executable@
            &&& topology.phase is PreGrantInitial
            &&& initial.topology == topology.topology
            &&& topology.topology is ExactImageMounted ==> topology.image is ExactRegularFile
                && topology.mount is ExactReadOnlyMount
            &&& topology.mount is ExactReadOnlyMount ==> topology.topology is ExactImageMounted
            &&& initial.snapshot_lease_event_id == expected.snapshot_lease_event_id
            &&& initial.writer_revocation_event_id == expected.writer_revocation_event_id
        }),
{
}

/// Everything that a grant rests on was kept as it is told: each document under its own digest, as what
/// it says inline.
pub proof fn law_grants_rest_on_what_was_kept(
    contract: Contract,
    grant: RepositorySnapshotCleanupGrantedV1,
    expected: ExpectedRepositorySnapshotCleanupSafetyCandidateV1,
    reads: CleanupSafetyReads,
)
    requires
        safety_material(contract, grant, expected, reads) is Ok,
    ensures
        ({
            let kept = grant.safety_evidence;
            let process = kept.evidence.process_quiescence;
            let initial = kept.evidence.initial_inspection;
            let topology = initial.inspection.topology_inspection;
            &&& kept.evidence_digest@ == kept.evidence_artifact.sha256@
            &&& kept.evidence_artifact.media_type@ == contract.media.cleanup_safety_evidence@
            &&& process.inspection_digest@ == process.inspection_artifact.sha256@
            &&& process.inspection_artifact.media_type@
                == contract.media.cleanup_process_inspection@
            &&& initial.inspection_digest@ == initial.inspection_artifact.sha256@
            &&& initial.inspection_artifact.media_type@
                == contract.media.cleanup_initial_inspection@
            &&& topology.inspection_digest@ == topology.inspection_artifact.sha256@
            &&& topology.inspection_artifact.media_type@
                == contract.media.cleanup_topology_inspection@
            &&& topology.inspection.stdout_digest@ == topology.inspection.stdout_artifact.sha256@
            &&& topology.inspection.stderr_digest@ == topology.inspection.stderr_artifact.sha256@
            &&& reads.safety is Ok
            &&& reads.process is Ok
            &&& reads.initial is Ok
            &&& reads.topology is Ok
            &&& reads.stdout is Ok
            &&& reads.stderr is Ok
        }),
{
}

/// Readings are in order only on the runtime that they name, on both of its clocks, and none of them is
/// zero.
pub proof fn law_ordered_readings_are_of_one_runtime(
    earlier: RuntimeClockReading,
    later: RuntimeClockReading,
    runtime: RuntimeInstanceId,
)
    ensures
        ordered_clocks(&earlier, &later, runtime) <==> {
            &&& earlier.runtime_instance_id == runtime
            &&& later.runtime_instance_id == runtime
            &&& 0 < earlier.monotonic_nanos <= later.monotonic_nanos
            &&& !later.observed_at.before(earlier.observed_at)
        },
{
}

/// A topology is possible where image and mount fit it: nothing is attached without a mount, and a
/// mounted image is there, read-only, on the same device.
pub proof fn law_topologies_fit_image_and_mount(
    topology: RepositorySnapshotRecoveryTopologyObservationV1,
    image: RepositorySnapshotRecoveryImageObservationV1,
    mount: RepositorySnapshotRecoveryMountObservationV1,
)
    ensures
        possible_topology(topology, image, mount) ==> {
            &&& mount is ExactReadOnlyMount <==> topology is ExactImageMounted
            &&& topology is ExactImageMounted ==> image is ExactRegularFile
            &&& image matches RepositorySnapshotRecoveryImageObservationV1::ExactRegularFile {
                identity,
                image,
            } ==> {
                &&& image.byte_len > 0
                &&& identity matches RepositoryFileIdentityV1::Unix(unix) && unix.byte_len
                    == image.byte_len && unix.modified_nanoseconds < 1_000_000_000
                    && unix.changed_nanoseconds < 1_000_000_000
            }
        },
        topology is NoExpectedImageOrMountAttached && image is Missing && mount is Missing
            ==> possible_topology(topology, image, mount),
{
}

} // verus!

//! Effect-free preparation of a snapshot cleanup. A permit shows only that the store saw one exact
//! lifecycle and one boundary; it creates no event, no artifact and no authority.

use vstd::prelude::*;
use crate::cleanup::{
    RepositorySnapshotCleanupBoundaryV1, RepositorySnapshotCleanupKindV1,
    RepositorySnapshotLeaseDocumentV1, RepositoryWriterLeaseEvidenceDocumentV1,
};
use crate::clock::{checked_add_seconds, Timestamp, MAX_DELTA_SECONDS};
use crate::artifact::require_artifact_media_type;
use crate::error::StoreError;
use crate::event::{EventEnvelope, EventPayload};
use crate::history::{EventLog, EventQuery, EventScope, PayloadFilter};
use crate::identity::{
    ActorId, EventId, RepositorySnapshotCleanupGrantId, RepositorySnapshotLeaseId,
    RepositorySnapshotLocalCleanupId, RepositorySnapshotRecoveryId, RunId, RuntimeInstanceId,
    SessionId,
};
use crate::lifecycle::{RepositorySnapshotLifecycleReplay, RepositorySnapshotOpenReplay};
use crate::lifecycle_identity::payload_holds_identity;
use crate::run::{CancellationRequested, Run, RunClaimed, RunPurpose};
use crate::store::Store;
use crate::text::{Same, Text};

verus! {

/// The generation of every cleanup grant that is prepared here.
pub const INITIAL_CLEANUP_GRANT_GENERATION: u64 = 1;

/// Identities that the caller allocated for a future cleanup grant and its two closure records.
/// They never select a target, a boundary, a path or an effect.
#[derive(Clone, Copy, Debug, PartialEq, Eq, Structural)]
pub struct RepositorySnapshotCleanupPreflightAuthorityV1 {
    pub cleanup_actor_id: ActorId,
    pub cleanup_runtime_instance_id: RuntimeInstanceId,
    pub cleanup_grant_event_id: EventId,
    pub cleanup_grant_id: RepositorySnapshotCleanupGrantId,
    pub recovery_id: RepositorySnapshotRecoveryId,
    pub closure_event_id: EventId,
    pub workspace_finalized_event_id: EventId,
}

/// What a permit says whatever its target is.
#[derive(Clone, Debug)]
pub struct RepositorySnapshotCleanupPreflightCommonViewV1<'a> {
    pub session_id: SessionId,
    pub run_id: RunId,
    pub cleanup_grant_event_id: EventId,
    pub cleanup_grant_id: RepositorySnapshotCleanupGrantId,
    pub cleanup_grant_generation: u64,
    pub recovery_id: RepositorySnapshotRecoveryId,
    pub closure_event_id: EventId,
    pub workspace_finalized_event_id: EventId,
    pub kind: RepositorySnapshotCleanupKindV1,
    pub boundary: &'a RepositorySnapshotCleanupBoundaryV1,
    pub lifecycle_tail_event_id: EventId,
    pub snapshot_id: &'a Text,
    pub lease_id: RepositorySnapshotLeaseId,
    pub snapshot_lease_event_id: EventId,
    pub writer_revocation_event_id: EventId,
    pub lifecycle_owner_actor_id: ActorId,
    pub lifecycle_owner_runtime_instance_id: RuntimeInstanceId,
    /// The latest claim on the run. It may be newer than the claim of an interrupted capture.
    pub source_claim_event: &'a EventEnvelope,
    pub source_claim: &'a RunClaimed,
    pub cancellation_generation: u64,
    pub cleanup_actor_id: ActorId,
    pub cleanup_runtime_instance_id: RuntimeInstanceId,
    pub store_checked_at: Timestamp,
    /// Not known before the workspace has locked an exact candidate.
    pub expected_local_cleanup_id: Option<RepositorySnapshotLocalCleanupId>,
}

/// The exact target behind a permit.
#[derive(Clone, Debug)]
pub enum RepositorySnapshotCleanupPreflightViewV1<'a> {
    CaptureAbandonment {
        common: RepositorySnapshotCleanupPreflightCommonViewV1<'a>,
        writer_revocation_event: &'a EventEnvelope,
        latest_capture_event: &'a EventEnvelope,
        lifecycle_claim_event: &'a EventEnvelope,
        lifecycle_claim: &'a RunClaimed,
        writer_evidence: &'a RepositoryWriterLeaseEvidenceDocumentV1,
    },
    LeaseReleaseReconciliation {
        common: RepositorySnapshotCleanupPreflightCommonViewV1<'a>,
        writer_revocation_event: &'a EventEnvelope,
        lease_event: &'a EventEnvelope,
        writer_evidence: &'a RepositoryWriterLeaseEvidenceDocumentV1,
        lease_document: &'a RepositorySnapshotLeaseDocumentV1,
    },
}

/// What a permit holds whatever its target is.
#[derive(Debug)]
pub struct RepositorySnapshotCleanupPreflightCommonMaterialV1 {
    pub session_id: SessionId,
    pub run_id: RunId,
    pub cleanup_grant_event_id: EventId,
    pub cleanup_grant_id: RepositorySnapshotCleanupGrantId,
    pub recovery_id: RepositorySnapshotRecoveryId,
    pub closure_event_id: EventId,
    pub workspace_finalized_event_id: EventId,
    pub kind: RepositorySnapshotCleanupKindV1,
    pub boundary: RepositorySnapshotCleanupBoundaryV1,
    pub lifecycle_tail_event_id: EventId,
    pub snapshot_id: Text,
    pub lease_id: RepositorySnapshotLeaseId,
    pub snapshot_lease_event_id: EventId,
    pub writer_revocation_event_id: EventId,
    pub lifecycle_owner_actor_id: ActorId,
    pub lifecycle_owner_runtime_instance_id: RuntimeInstanceId,
    pub source_claim_event: EventEnvelope,
    pub source_claim: RunClaimed,
    pub cancellation_generation: u64,
    pub cleanup_actor_id: ActorId,
    pub cleanup_runtime_instance_id: RuntimeInstanceId,
    pub store_checked_at: Timestamp,
}

/// What a permit holds.
#[derive(Debug)]
pub enum RepositorySnapshotCleanupPreflightMaterialV1 {
    CaptureAbandonment {
        common: RepositorySnapshotCleanupPreflightCommonMaterialV1,
        writer_revocation_event: EventEnvelope,
        latest_capture_event: EventEnvelope,
        lifecycle_claim_event: EventEnvelope,
        lifecycle_claim: RunClaimed,
        writer_evidence: RepositoryWriterLeaseEvidenceDocumentV1,
    },
    LeaseReleaseReconciliation {
        common: RepositorySnapshotCleanupPreflightCommonMaterialV1,
        writer_revocation_event: EventEnvelope,
        lease_event: EventEnvelope,
        writer_evidence: RepositoryWriterLeaseEvidenceDocumentV1,
        lease_document: RepositorySnapshotLeaseDocumentV1,
    },
}

impl RepositorySnapshotCleanupPreflightCommonMaterialV1 {
    /// Whether `view` shows exactly this.
    pub open spec fn shown_by(
        self,
        view: RepositorySnapshotCleanupPreflightCommonViewV1,
    ) -> bool {
        &&& view.session_id == self.session_id
        &&& view.run_id == self.run_id
        &&& view.cleanup_grant_event_id == self.cleanup_grant_event_id
        &&& view.cleanup_grant_id == self.cleanup_grant_id
        &&& view.cleanup_grant_generation == INITIAL_CLEANUP_GRANT_GENERATION
        &&& view.recovery_id == self.recovery_id
        &&& view.closure_event_id == self.closure_event_id
        &&& view.workspace_finalized_event_id == self.workspace_finalized_event_id
        &&& view.kind == self.kind
        &&& *view.boundary == self.boundary
        &&& view.lifecycle_tail_event_id == self.lifecycle_tail_event_id
        &&& *view.snapshot_id == self.snapshot_id
        &&& view.lease_id == self.lease_id
        &&& view.snapshot_lease_event_id == self.snapshot_lease_event_id
        &&& view.writer_revocation_event_id == self.writer_revocation_event_id
        &&& view.lifecycle_owner_actor_id == self.lifecycle_owner_actor_id
        &&& view.lifecycle_owner_runtime_instance_id == self.lifecycle_owner_runtime_instance_id
        &&& *view.source_claim_event == self.source_claim_event
        &&& *view.source_claim == self.source_claim
        &&& view.cancellation_generation == self.cancellation_generation
        &&& view.cleanup_actor_id == self.cleanup_actor_id
        &&& view.cleanup_runtime_instance_id == self.cleanup_runtime_instance_id
        &&& view.store_checked_at == self.store_checked_at
        &&& view.expected_local_cleanup_id is None
    }

    fn common_view(&self) -> (r: RepositorySnapshotCleanupPreflightCommonViewV1<'_>)
        ensures
            self.shown_by(r),
    {
        RepositorySnapshotCleanupPreflightCommonViewV1 {
            session_id: self.session_id,
            run_id: self.run_id,
            cleanup_grant_event_id: self.cleanup_grant_event_id,
            cleanup_grant_id: self.cleanup_grant_id,
            cleanup_grant_generation: INITIAL_CLEANUP_GRANT_GENERATION,
            recovery_id: self.recovery_id,
            closure_event_id: self.closure_event_id,
            workspace_finalized_event_id: self.workspace_finalized_event_id,
            kind: self.kind,
            boundary: &self.boundary,
            lifecycle_tail_event_id: self.lifecycle_tail_event_id,
            snapshot_id: &self.snapshot_id,
            lease_id: self.lease_id,
            snapshot_lease_event_id: self.snapshot_lease_event_id,
            writer_revocation_event_id: self.writer_revocation_event_id,
            lifecycle_owner_actor_id: self.lifecycle_owner_actor_id,
            lifecycle_owner_runtime_instance_id: self.lifecycle_owner_runtime_instance_id,
            source_claim_event: &self.source_claim_event,
            source_claim: &self.source_claim,
            cancellation_generation: self.cancellation_generation,
            cleanup_actor_id: self.cleanup_actor_id,
            cleanup_runtime_instance_id: self.cleanup_runtime_instance_id,
            store_checked_at: self.store_checked_at,
            expected_local_cleanup_id: None,
        }
    }
}

impl RepositorySnapshotCleanupPreflightMaterialV1 {
    /// Whether `view` shows exactly this.
    pub open spec fn shown_by(self, view: RepositorySnapshotCleanupPreflightViewV1) -> bool {
        match self {
            RepositorySnapshotCleanupPreflightMaterialV1::CaptureAbandonment {
                common,
                writer_revocation_event,
                latest_capture_event,
                lifecycle_claim_event,
                lifecycle_claim,
                writer_evidence,
            } => {
                &&& view matches RepositorySnapshotCleanupPreflightViewV1::CaptureAbandonment {
                    common: shown_common,
                    writer_revocation_event: shown_revocation,
                    latest_capture_event: shown_capture,
                    lifecycle_claim_event: shown_claim_event,
                    lifecycle_claim: shown_claim,
                    writer_evidence: shown_evidence,
                }
                &&& common.shown_by(shown_common)
                &&& *shown_revocation == writer_revocation_event
                &&& *shown_capture == latest_capture_event
                &&& *shown_claim_event == lifecycle_claim_event
                &&& *shown_claim == lifecycle_claim
                &&& *shown_evidence == writer_evidence
            },
            RepositorySnapshotCleanupPreflightMaterialV1::LeaseReleaseReconciliation {
                common,
                writer_revocation_event,
                lease_event,
                writer_evidence,
                lease_document,
            } => {
                &&& view matches RepositorySnapshotCleanupPreflightViewV1::LeaseReleaseReconciliation {
                    common: shown_common,
                    writer_revocation_event: shown_revocation,
                    lease_event: shown_lease,
                    writer_evidence: shown_evidence,
                    lease_document: shown_document,
                }
                &&& common.shown_by(shown_common)
                &&& *shown_revocation == writer_revocation_event
                &&& *shown_lease == lease_event
                &&& *shown_evidence == writer_evidence
                &&& *shown_document == lease_document
            },
        }
    }
}

/// Proof of one effect-free preflight. It is moved, never copied, and only a preflight makes one.
/// Durable state may advance after it was made, so it alone authorizes nothing.
#[must_use]
#[derive(Debug)]
pub struct RepositorySnapshotCleanupPreflightPermitV1 {
    material: Box<RepositorySnapshotCleanupPreflightMaterialV1>,
}

impl RepositorySnapshotCleanupPreflightPermitV1 {
    /// What the permit holds.
    pub closed spec fn held(self) -> RepositorySnapshotCleanupPreflightMaterialV1 {
        *self.material
    }

    /// Shows everything that the permit holds.
    pub fn view(&self) -> (r: RepositorySnapshotCleanupPreflightViewV1<'_>)
        ensures
            self.held().shown_by(r),
    {
        match &*self.material {
            RepositorySnapshotCleanupPreflightMaterialV1::CaptureAbandonment {
                common,
                writer_revocation_event,
                latest_capture_event,
                lifecycle_claim_event,
                lifecycle_claim,
                writer_evidence,
            } => RepositorySnapshotCleanupPreflightViewV1::CaptureAbandonment {
                common: common.common_view(),
                writer_revocation_event,
                latest_capture_event,
                lifecycle_claim_event,
                lifecycle_claim,
                writer_evidence,
            },
            RepositorySnapshotCleanupPreflightMaterialV1::LeaseReleaseReconciliation {
                common,
                writer_revocation_event,
                lease_event,
                writer_evidence,
                lease_document,
            } => RepositorySnapshotCleanupPreflightViewV1::LeaseReleaseReconciliation {
                common: common.common_view(),
                writer_revocation_event,
                lease_event,
                writer_evidence,
                lease_document,
            },
        }
    }
}

/// Why no cleanup can be prepared.
#[derive(Debug)]
pub enum RepositorySnapshotCleanupPreflightNoAuthorityV1 {
    NoSnapshotLifecycle,
    SnapshotAlreadyClosed { kind: RepositorySnapshotCleanupKindV1, closure_event_id: EventId },
    BoundaryNotReached {
        source_claim_event_id: EventId,
        claim_lease_expires_at: Timestamp,
        run_deadline_at: Option<Timestamp>,
    },
    /// Reserved: a pending cleanup is refused at present.
    CleanupGrantStillCurrent {
        cleanup_grant_event: EventEnvelope,
        cleanup_grant_generation: u64,
        grant_expires_at: Timestamp,
    },
    /// Reserved: the first generation is never exhausted.
    CleanupGrantGenerationExhausted {
        cleanup_grant_event: EventEnvelope,
        cleanup_grant_generation: u64,
    },
}

impl PartialEq for RepositorySnapshotCleanupPreflightNoAuthorityV1 {
    fn eq(&self, other: &Self) -> (r: bool) {
        match (self, other) {
            (
                RepositorySnapshotCleanupPreflightNoAuthorityV1::NoSnapshotLifecycle,
                RepositorySnapshotCleanupPreflightNoAuthorityV1::NoSnapshotLifecycle,
            ) => true,
            (
                RepositorySnapshotCleanupPreflightNoAuthorityV1::SnapshotAlreadyClosed {
                    kind,
                    closure_event_id,
                },
                RepositorySnapshotCleanupPreflightNoAuthorityV1::SnapshotAlreadyClosed {
                    kind: other_kind,
                    closure_event_id: other_id,
                },
            ) => kind == other_kind && closure_event_id == other_id,
            (
                RepositorySnapshotCleanupPreflightNoAuthorityV1::BoundaryNotReached {
                    source_claim_event_id,
                    claim_lease_expires_at,
                    run_deadline_at,
                },
                RepositorySnapshotCleanupPreflightNoAuthorityV1::BoundaryNotReached {
                    source_claim_event_id: other_id,
                    claim_lease_expires_at: other_expiry,
                    run_deadline_at: other_deadline,
                },
            ) => source_claim_event_id == other_id && claim_lease_expires_at == other_expiry
                && run_deadline_at == other_deadline,
            (
                RepositorySnapshotCleanupPreflightNoAuthorityV1::CleanupGrantStillCurrent {
                    cleanup_grant_event,
                    cleanup_grant_generation,
                    grant_expires_at,
                },
                RepositorySnapshotCleanupPreflightNoAuthorityV1::CleanupGrantStillCurrent {
                    cleanup_grant_event: other_event,
                    cleanup_grant_generation: other_generation,
                    grant_expires_at: other_expiry,
                },
            ) => cleanup_grant_event == other_event && cleanup_grant_generation == other_generation
                && grant_expires_at == other_expiry,
            (
                RepositorySnapshotCleanupPreflightNoAuthorityV1::CleanupGrantGenerationExhausted {
                    cleanup_grant_event,
                    cleanup_grant_generation,
                },
                RepositorySnapshotCleanupPreflightNoAuthorityV1::CleanupGrantGenerationExhausted {
                    cleanup_grant_event: other_event,
                    cleanup_grant_generation: other_generation,
                },
            ) => cleanup_grant_event == other_event && cleanup_grant_generation == other_generation,
            _ => false,
        }
    }
}

impl Eq for RepositorySnapshotCleanupPreflightNoAuthorityV1 {
}

impl vstd::std_specs::cmp::PartialEqSpecImpl for RepositorySnapshotCleanupPreflightNoAuthorityV1 {
    open spec fn obeys_eq_spec() -> bool {
        true
    }

    open spec fn eq_spec(&self, other: &Self) -> bool {
        match (self, other) {
            (
                RepositorySnapshotCleanupPreflightNoAuthorityV1::CleanupGrantStillCurrent {
                    cleanup_grant_event,
                    cleanup_grant_generation,
                    grant_expires_at,
                },
                RepositorySnapshotCleanupPreflightNoAuthorityV1::CleanupGrantStillCurrent {
                    cleanup_grant_event: other_event,
                    cleanup_grant_generation: other_generation,
                    grant_expires_at: other_expiry,
                },
            ) => {
                &&& vstd::std_specs::cmp::PartialEqSpec::eq_spec(cleanup_grant_event, other_event)
                &&& cleanup_grant_generation == other_generation
                &&& grant_expires_at == other_expiry
            },
            (
                RepositorySnapshotCleanupPreflightNoAuthorityV1::CleanupGrantGenerationExhausted {
                    cleanup_grant_event,
                    cleanup_grant_generation,
                },
                RepositorySnapshotCleanupPreflightNoAuthorityV1::CleanupGrantGenerationExhausted {
                    cleanup_grant_event: other_event,
                    cleanup_grant_generation: other_generation,
                },
            ) => {
                &&& vstd::std_specs::cmp::PartialEqSpec::eq_spec(cleanup_grant_event, other_event)
                &&& cleanup_grant_generation == other_generation
            },
            _ => self == other,
        }
    }
}

/// What a preflight comes to.
#[must_use]
#[derive(Debug)]
pub enum RepositorySnapshotCleanupPreflightOutcomeV1 {
    Prepared(RepositorySnapshotCleanupPreflightPermitV1),
    NoAuthority(RepositorySnapshotCleanupPreflightNoAuthorityV1),
}

/// Why a lifecycle needs no cleanup; `None` where it is open or active, refused where a cleanup is
/// already pending.
pub open spec fn inactivity(lifecycle: RepositorySnapshotLifecycleReplay) -> Result<
    Option<RepositorySnapshotCleanupPreflightNoAuthorityV1>,
    StoreError,
> {
    match lifecycle {
        RepositorySnapshotLifecycleReplay::Absent => Ok(
            Some(RepositorySnapshotCleanupPreflightNoAuthorityV1::NoSnapshotLifecycle),
        ),
        RepositorySnapshotLifecycleReplay::ClosedCapture { abandonment_event, .. } => Ok(
            Some(
                RepositorySnapshotCleanupPreflightNoAuthorityV1::SnapshotAlreadyClosed {
                    kind: RepositorySnapshotCleanupKindV1::CaptureAbandonment,
                    closure_event_id: abandonment_event.id,
                },
            ),
        ),
        RepositorySnapshotLifecycleReplay::ClosedLease { closure_event, .. } => Ok(
            Some(
                RepositorySnapshotCleanupPreflightNoAuthorityV1::SnapshotAlreadyClosed {
                    kind: RepositorySnapshotCleanupKindV1::LeaseReleaseReconciliation,
                    closure_event_id: closure_event.id,
                },
            ),
        ),
        RepositorySnapshotLifecycleReplay::PendingCleanup { .. } => Err(
            StoreError::InvalidStateEvent,
        ),
        RepositorySnapshotLifecycleReplay::Open(_) => Ok(None),
        RepositorySnapshotLifecycleReplay::Active { .. } => Ok(None),
    }
}

/// Why a lifecycle needs no cleanup.
pub fn inactive_lifecycle_reason(lifecycle: &RepositorySnapshotLifecycleReplay) -> (r: Result<
    Option<RepositorySnapshotCleanupPreflightNoAuthorityV1>,
    StoreError,
>)
    ensures
        r == inactivity(*lifecycle),
{
    match lifecycle {
        RepositorySnapshotLifecycleReplay::Absent => Ok(
            Some(RepositorySnapshotCleanupPreflightNoAuthorityV1::NoSnapshotLifecycle),
        ),
        RepositorySnapshotLifecycleReplay::ClosedCapture { abandonment_event, .. } => Ok(
            Some(
                RepositorySnapshotCleanupPreflightNoAuthorityV1::SnapshotAlreadyClosed {
                    kind: RepositorySnapshotCleanupKindV1::CaptureAbandonment,
                    closure_event_id: abandonment_event.id,
                },
            ),
        ),
        RepositorySnapshotLifecycleReplay::ClosedLease { closure_event, .. } => Ok(
            Some(
                RepositorySnapshotCleanupPreflightNoAuthorityV1::SnapshotAlreadyClosed {
                    kind: RepositorySnapshotCleanupKindV1::LeaseReleaseReconciliation,
                    closure_event_id: closure_event.id,
                },
            ),
        ),
        RepositorySnapshotLifecycleReplay::PendingCleanup { .. } => Err(
            StoreError::InvalidStateEvent,
        ),
        RepositorySnapshotLifecycleReplay::Open(_)
        | RepositorySnapshotLifecycleReplay::Active { .. } => Ok(None),
    }
}

/// The boundary that makes a cleanup due: a cancellation before anything else, an elapsed
/// deadline before an expired claim. A deadline and an expiry count from their own instant on.
pub open spec fn due_boundary(
    cancellation: Option<(EventId, CancellationRequested)>,
    run_deadline_at: Option<Timestamp>,
    source_claim: RunClaimed,
    checked_at: Timestamp,
) -> Option<RepositorySnapshotCleanupBoundaryV1> {
    if let Some((event_id, request)) = cancellation {
        Some(
            RepositorySnapshotCleanupBoundaryV1::CancellationRequested {
                cancellation_request_event_id: event_id,
                cancellation_request_id: request.cancellation_request_id,
                cancellation_generation: request.cancellation_generation,
            },
        )
    } else if run_deadline_at matches Some(deadline) && deadline.not_after(checked_at) {
        Some(
            RepositorySnapshotCleanupBoundaryV1::RunDeadlineElapsed {
                run_deadline_at: run_deadline_at->Some_0,
            },
        )
    } else if source_claim.lease_expires_at.not_after(checked_at) {
        Some(
            RepositorySnapshotCleanupBoundaryV1::PriorClaimExpired {
                claim_lease_expires_at: source_claim.lease_expires_at,
            },
        )
    } else {
        None
    }
}

/// The boundary that makes a cleanup due.
pub fn derive_cleanup_boundary(
    cancellation: Option<(EventId, CancellationRequested)>,
    run_deadline_at: Option<Timestamp>,
    source_claim: &RunClaimed,
    checked_at: Timestamp,
) -> (r: Option<RepositorySnapshotCleanupBoundaryV1>)
    ensures
        r == due_boundary(cancellation, run_deadline_at, *source_claim, checked_at),
{
    if let Some((event_id, request)) = cancellation {
        return Some(
            RepositorySnapshotCleanupBoundaryV1::CancellationRequested {
                cancellation_request_event_id: event_id,
                cancellation_request_id: request.cancellation_request_id,
                cancellation_generation: request.cancellation_generation,
            },
        );
    }
    if let Some(deadline) = run_deadline_at {
        if deadline.not_after(checked_at) {
            return Some(
                RepositorySnapshotCleanupBoundaryV1::RunDeadlineElapsed {
                    run_deadline_at: deadline,
                },
            );
        }
    }
    if source_claim.lease_expires_at.not_after(checked_at) {
        return Some(
            RepositorySnapshotCleanupBoundaryV1::PriorClaimExpired {
                claim_lease_expires_at: source_claim.lease_expires_at,
            },
        );
    }
    None
}

/// Once a boundary is due it stays due: a later check still finds one, and a cancellation is never
/// displaced by a deadline or an expiry.
pub proof fn law_boundary_stays_due(
    cancellation: Option<(EventId, CancellationRequested)>,
    run_deadline_at: Option<Timestamp>,
    source_claim: RunClaimed,
    checked_at: Timestamp,
    later: Timestamp,
)
    requires
        checked_at.not_after(later),
        due_boundary(cancellation, run_deadline_at, source_claim, checked_at) is Some,
    ensures
        due_boundary(cancellation, run_deadline_at, source_claim, later) is Some,
        cancellation is Some ==> due_boundary(cancellation, run_deadline_at, source_claim, later)
            == due_boundary(cancellation, run_deadline_at, source_claim, checked_at),
{
}

/// A boundary names what made it due, and nothing of the check: a cancellation its own request, a
/// deadline the deadline of the run, an expiry the expiry of the claim. Each is due only once nothing
/// that comes before it is, and from its own instant on.
pub proof fn law_boundary_names_what_made_it_due(
    cancellation: Option<(EventId, CancellationRequested)>,
    run_deadline_at: Option<Timestamp>,
    source_claim: RunClaimed,
    checked_at: Timestamp,
)
    ensures
        match due_boundary(cancellation, run_deadline_at, source_claim, checked_at) {
            Some(RepositorySnapshotCleanupBoundaryV1::CancellationRequested {
                cancellation_request_event_id,
                cancellation_request_id,
                cancellation_generation,
            }) => {
                &&& cancellation matches Some((event_id, request))
                &&& cancellation_request_event_id == event_id
                &&& cancellation_request_id == request.cancellation_request_id
                &&& cancellation_generation == request.cancellation_generation
            },
            Some(RepositorySnapshotCleanupBoundaryV1::RunDeadlineElapsed {
                run_deadline_at: named,
            }) => {
                &&& cancellation is None
                &&& run_deadline_at == Some(named)
                &&& !checked_at.before(named)
            },
            Some(RepositorySnapshotCleanupBoundaryV1::PriorClaimExpired {
                claim_lease_expires_at,
            }) => {
                &&& cancellation is None
                &&& run_deadline_at matches Some(deadline) ==> checked_at.before(deadline)
                &&& claim_lease_expires_at == source_claim.lease_expires_at
                &&& !checked_at.before(claim_lease_expires_at)
            },
            None => {
                &&& cancellation is None
                &&& run_deadline_at matches Some(deadline) ==> checked_at.before(deadline)
                &&& checked_at.before(source_claim.lease_expires_at)
            },
        },
{
}

/// Two checks that find the same kind of boundary find the same boundary, whenever they are made; and
/// a later check replaces a boundary only by one that comes before it.
pub proof fn law_boundary_does_not_depend_on_the_check(
    cancellation: Option<(EventId, CancellationRequested)>,
    run_deadline_at: Option<Timestamp>,
    source_claim: RunClaimed,
    first: Timestamp,
    second: Timestamp,
)
    ensures
        ({
            let found = due_boundary(cancellation, run_deadline_at, source_claim, first);
            let again = due_boundary(cancellation, run_deadline_at, source_claim, second);
            &&& (found->0 is CancellationRequested && again->0 is CancellationRequested) || (
            found->0 is RunDeadlineElapsed && again->0 is RunDeadlineElapsed) || (
            found->0 is PriorClaimExpired && again->0 is PriorClaimExpired) ==> (found is Some
                && again is Some ==> found == again)
            &&& first.not_after(second) && found is Some && found->0 is RunDeadlineElapsed ==> again
                == found
            &&& cancellation is Some ==> found == again && found is Some
                && found->0 is CancellationRequested
        }),
{
}

/// The latest cancellation of a run, with its event; refused where it has no generation.
pub open spec fn latest_cancellation(
    events: Seq<EventEnvelope>,
    session_id: SessionId,
    run_id: RunId,
) -> Result<Option<(EventEnvelope, CancellationRequested)>, StoreError> {
    match EventQuery::in_run(session_id, run_id, PayloadFilter::CancellationRequested).last_of(
        events,
    ) {
        None => Ok(None),
        Some(event) => match event.payload {
            EventPayload::CancellationRequested(request) => if request.cancellation_generation
                == 0 {
                Err(StoreError::InvalidStateEvent)
            } else {
                Ok(Some((event, request)))
            },
            _ => Err(StoreError::InvalidStateEvent),
        },
    }
}

/// The latest cancellation of a run, with its event.
pub fn exact_latest_cancellation<'a>(
    log: &'a EventLog,
    session_id: SessionId,
    run_id: RunId,
) -> (r: Result<Option<(&'a EventEnvelope, CancellationRequested)>, StoreError>)
    ensures
        latest_cancellation(log@, session_id, run_id) == (match r {
            Ok(None) => Ok(None),
            Ok(Some((event, request))) => Ok(Some((*event, request))),
            Err(error) => Err(error),
        }),
{
    match log.last(
        &EventQuery::in_run(session_id, run_id, PayloadFilter::CancellationRequested),
    ) {
        None => Ok(None),
        Some(event) => match &event.payload {
            EventPayload::CancellationRequested(request) => if request.cancellation_generation
                == 0 {
                Err(StoreError::InvalidStateEvent)
            } else {
                Ok(Some((event, *request)))
            },
            _ => Err(StoreError::InvalidStateEvent),
        },
    }
}

/// The latest cancellation of a run is on record in the run, asks for a generation, and has none after
/// it; where there is none, the run was never cancelled.
pub proof fn law_latest_cancellation_is_on_record(
    events: Seq<EventEnvelope>,
    session_id: SessionId,
    run_id: RunId,
) -> (place: int)
    ensures
        match latest_cancellation(events, session_id, run_id) {
            Ok(Some((event, request))) => {
                &&& 0 <= place < events.len()
                &&& events[place] == event
                &&& event.session_id == session_id
                &&& event.run_id == Some(run_id)
                &&& event.payload == EventPayload::CancellationRequested(request)
                &&& request.cancellation_generation != 0
                &&& forall|j: int|
                    place < j < events.len() && (#[trigger] events[j]).session_id == session_id
                        && events[j].run_id == Some(run_id) ==> !(
                    events[j].payload is CancellationRequested)
            },
            Ok(None) => forall|j: int|
                0 <= j < events.len() && (#[trigger] events[j]).session_id == session_id
                    && events[j].run_id == Some(run_id) ==> !(
                events[j].payload is CancellationRequested),
            Err(error) => {
                &&& error == StoreError::InvalidStateEvent
                &&& 0 <= place < events.len()
                &&& events[place].session_id == session_id
                &&& events[place].run_id == Some(run_id)
                &&& events[place].payload matches EventPayload::CancellationRequested(request)
                &&& request.cancellation_generation == 0
            },
        },
{
    let query = EventQuery::in_run(session_id, run_id, PayloadFilter::CancellationRequested);
    let ends = crate::history::law_selections_have_ends(query, events);
    assert forall|j: int|
        0 <= j < events.len() && (#[trigger] events[j]).session_id == session_id
            && events[j].run_id == Some(run_id)
            && events[j].payload is CancellationRequested implies query.admits(events[j]) by {}
    ends.1
}

/// Whether the deadline of a run can be computed at all: its wall time is one that can be added to
/// a point in time, or one that is refused as too long.
pub open spec fn wall_time_in_bounds(run: Run) -> bool {
    run.spec.limits.max_wall_time_seconds matches Some(seconds) ==> {
        ||| seconds <= MAX_DELTA_SECONDS
        ||| seconds > i64::MAX
    }
}

/// The event that recorded the creation of a run, where there is one such event and the run is still
/// as it was created.
pub open spec fn creation_of(events: Seq<EventEnvelope>, run: Run) -> Option<EventEnvelope> {
    let created = EventQuery::in_run(run.spec.session_id, run.id, PayloadFilter::RunCreated).rows(
        events,
    );
    if created.len() == 1 && (created[0].payload matches EventPayload::RunCreated { run: retained }
        && retained.same(&run)) {
        Some(created[0])
    } else {
        None
    }
}

/// The deadline of a run, counted from the moment at which the store recorded its creation.
pub open spec fn anchored_deadline(events: Seq<EventEnvelope>, run: Run) -> Result<
    Option<Timestamp>,
    StoreError,
> {
    match creation_of(events, run) {
        Some(created) => match run.spec.limits.max_wall_time_seconds {
            None => Ok(None),
            Some(seconds) => if seconds > i64::MAX {
                Err(StoreError::InvalidStateEvent)
            } else {
                match crate::clock::seconds_later(created.occurred_at, seconds as i64) {
                    Some(deadline) => Ok(Some(deadline)),
                    None => Err(StoreError::InvalidStateEvent),
                }
            },
        },
        None => Err(StoreError::InvalidStateEvent),
    }
}

fn recorded_creation<'a>(log: &'a EventLog, run: &Run) -> (r: Option<&'a EventEnvelope>)
    ensures
        match r {
            Some(event) => creation_of(log@, *run) == Some(*event),
            None => creation_of(log@, *run) is None,
        },
{
    let query = EventQuery::in_run(run.spec.session_id, run.id, PayloadFilter::RunCreated);
    let rows = log.select(&query);
    if rows.len() != 1 {
        return None;
    }
    let event = rows[0];
    match &event.payload {
        EventPayload::RunCreated { run: retained } => if retained == run {
            Some(event)
        } else {
            None
        },
        _ => None,
    }
}

/// The deadline of a run, counted from the moment at which the store recorded its creation.
pub fn store_anchored_run_deadline(log: &EventLog, run: &Run) -> (r: Result<
    Option<Timestamp>,
    StoreError,
>)
    requires
        creation_of(log@, *run) is Some ==> wall_time_in_bounds(*run),
    ensures
        r == anchored_deadline(log@, *run),
{
    let event = match recorded_creation(log, run) {
        Some(event) => event,
        None => return Err(StoreError::InvalidStateEvent),
    };
    match run.spec.limits.max_wall_time_seconds {
        None => Ok(None),
        Some(seconds) => {
            if seconds > i64::MAX as u64 {
                return Err(StoreError::InvalidStateEvent);
            }
            match checked_add_seconds(event.occurred_at, seconds as i64) {
                Some(deadline) => Ok(Some(deadline)),
                None => Err(StoreError::InvalidStateEvent),
            }
        },
    }
}

/// A deadline lies the run's wall time after the moment at which its creation was recorded, to the
/// second; a run without a wall time has none; and there is no deadline at all unless exactly one
/// creation of the run, as it still is, is on record.
pub proof fn law_deadline_is_counted_from_the_creation(
    events: Seq<EventEnvelope>,
    run: Run,
)
    ensures
        match anchored_deadline(events, run) {
            Ok(deadline) => {
                &&& creation_of(events, run) matches Some(created)
                &&& events.contains(created)
                &&& created.session_id == run.spec.session_id
                &&& created.run_id == Some(run.id)
                &&& created.payload matches EventPayload::RunCreated { run: retained }
                &&& retained.same(&run)
                &&& match (run.spec.limits.max_wall_time_seconds, deadline) {
                    (None, None) => true,
                    (Some(seconds), Some(at)) => {
                        &&& at.seconds == created.occurred_at.seconds + seconds
                        &&& at.nanoseconds == created.occurred_at.nanoseconds || at.nanoseconds
                            + 1_000_000_000 == created.occurred_at.nanoseconds
                        &&& seconds == 0 ==> at == created.occurred_at
                    },
                    _ => false,
                }
            },
            Err(error) => error == StoreError::InvalidStateEvent && (creation_of(
                events,
                run,
            ) is None || run.spec.limits.max_wall_time_seconds is Some),
        },
{
    let query = EventQuery::in_run(run.spec.session_id, run.id, PayloadFilter::RunCreated);
    crate::history::lemma_rows_admitted(query, events);
    if creation_of(events, run) is Some {
        assert(query.admits(query.rows(events)[0]));
    }
}

/// One creation on record, with the run as it still is, is what a deadline is counted from: a creation
/// at a place, with no other of the run, is the one.
pub proof fn law_only_creation_counts(events: Seq<EventEnvelope>, run: Run, i: int)
    requires
        0 <= i < events.len(),
        events[i].session_id == run.spec.session_id,
        events[i].run_id == Some(run.id),
        events[i].payload matches EventPayload::RunCreated { run: retained } && retained.same(&run),
        forall|j: int|
            0 <= j < events.len() && j != i && (#[trigger] events[j]).session_id
                == run.spec.session_id && events[j].run_id == Some(run.id) ==> !(
            events[j].payload is RunCreated),
    ensures
        creation_of(events, run) == Some(events[i]),
        run.spec.limits.max_wall_time_seconds is None ==> anchored_deadline(events, run) == Ok::<
            Option<Timestamp>,
            StoreError,
        >(None),
{
    let query = EventQuery::in_run(run.spec.session_id, run.id, PayloadFilter::RunCreated);
    assert(query.admits(events[i]));
    assert forall|j: int| 0 <= j < events.len() && j != i implies !query.admits(
        #[trigger] events[j],
    ) by {}
    crate::history::law_ends_of_a_selection(query, events, i);
    lemma_single_selection(query, events, i);
}

/// A query that admits one event alone selects that one.
pub proof fn lemma_single_selection(query: EventQuery, events: Seq<EventEnvelope>, i: int)
    requires
        0 <= i < events.len(),
        query.admits(events[i]),
        forall|j: int| 0 <= j < events.len() && j != i ==> !query.admits(#[trigger] events[j]),
    ensures
        query.rows(events) == seq![events[i]],
    decreases events.len(),
{
    reveal(Seq::filter);
    let shorter = events.drop_last();
    assert forall|j: int| 0 <= j < shorter.len() && j != i implies !query.admits(
        #[trigger] shorter[j],
    ) by {
        assert(shorter[j] == events[j]);
    }
    if i == events.len() - 1 {
        crate::history::lemma_nothing_selected(query, shorter);
        assert(query.rows(events) =~= seq![events[i]]);
    } else {
        assert(shorter[i] == events[i]);
        lemma_single_selection(query, shorter, i);
        assert(!query.admits(events[events.len() - 1]));
    }
}

/// The capture behind an open or active lifecycle, and the event of its lease.
pub open spec fn capture_of(
    lifecycle: RepositorySnapshotLifecycleReplay,
) -> Option<(RepositorySnapshotOpenReplay, Option<EventEnvelope>)> {
    match lifecycle {
        RepositorySnapshotLifecycleReplay::Open(open) => Some((open, None)),
        RepositorySnapshotLifecycleReplay::Active { open, lease_event } => Some(
            (open, Some(lease_event)),
        ),
        _ => None,
    }
}

/// Whether the claim and the cancellation belong to the run and are not anonymous.
pub open spec fn claim_and_cancellation_anchored(
    run: Run,
    source_claim_event: EventEnvelope,
    source_claim: RunClaimed,
    cancellation: Option<(EventEnvelope, CancellationRequested)>,
) -> bool {
    &&& source_claim_event.id.0 != 0
    &&& source_claim_event.session_id == run.spec.session_id
    &&& source_claim_event.run_id == Some(run.id)
    &&& source_claim_event.actor_id.0 != 0
    &&& source_claim.claim_id.0 != 0
    &&& source_claim.runtime_instance_id.0 != 0
    &&& cancellation matches Some((event, request)) ==> {
        &&& event.id.0 != 0
        &&& event.session_id == run.spec.session_id
        &&& event.run_id == Some(run.id)
        &&& event.actor_id.0 != 0
        &&& request.cancellation_request_id.0 != 0
    }
}

/// Whether a capture names itself, and nothing in it is anonymous.
pub open spec fn capture_anchored(
    open: RepositorySnapshotOpenReplay,
    lease_event: Option<EventEnvelope>,
) -> bool {
    &&& open.identity matches Some(identity)
    &&& identity.lease_id.0 != 0
    &&& identity.lease_event_id.0 != 0
    &&& open.writer_revocation_event.id.0 != 0
    &&& open.writer_revocation_event.actor_id.0 != 0
    &&& open.writer_revocation.claim_event_id.0 != 0
    &&& open.writer_revocation.claim_id.0 != 0
    &&& open.writer_revocation.claim_runtime_instance_id.0 != 0
    &&& open.latest_capture_event.id.0 != 0
    &&& open.active_claim_event.id.0 != 0
    &&& open.active_claim_event.actor_id.0 != 0
    &&& open.active_claim.claim_id.0 != 0
    &&& open.active_claim.runtime_instance_id.0 != 0
    &&& lease_event matches Some(event) ==> event.id.0 != 0
}

fn validate_store_bound_anchors(
    run: &Run,
    open: &RepositorySnapshotOpenReplay,
    lease_event: Option<&EventEnvelope>,
    source_claim_event: &EventEnvelope,
    source_claim: &RunClaimed,
    cancellation: &Option<(&EventEnvelope, CancellationRequested)>,
) -> (r: Result<(), StoreError>)
    ensures
        r is Ok <==> {
            &&& claim_and_cancellation_anchored(
                *run,
                *source_claim_event,
                *source_claim,
                match *cancellation {
                    Some((event, request)) => Some((*event, request)),
                    None => None,
                },
            )
            &&& capture_anchored(
                *open,
                match lease_event {
                    Some(event) => Some(*event),
                    None => None,
                },
            )
        },
        r matches Err(error) ==> error == StoreError::InvalidStateEvent,
{
    if source_claim_event.id.0 == 0 || source_claim_event.session_id != run.spec.session_id
        || source_claim_event.run_id != Some(run.id) || source_claim_event.actor_id.0 == 0
        || source_claim.claim_id.0 == 0 || source_claim.runtime_instance_id.0 == 0 {
        return Err(StoreError::InvalidStateEvent);
    }
    if let Some((event, request)) = cancellation {
        if event.id.0 == 0 || event.session_id != run.spec.session_id || event.run_id != Some(
            run.id,
        ) || event.actor_id.0 == 0 || request.cancellation_request_id.0 == 0 {
            return Err(StoreError::InvalidStateEvent);
        }
    }
    let identity = match &open.identity {
        Some(identity) => identity,
        None => return Err(StoreError::InvalidStateEvent),
    };
    let lease_is_nil = match lease_event {
        Some(event) => event.id.0 == 0,
        None => false,
    };
    if open.writer_revocation_event.id.0 == 0 || open.writer_revocation_event.actor_id.0 == 0
        || open.writer_revocation.claim_event_id.0 == 0 || open.writer_revocation.claim_id.0 == 0
        || open.writer_revocation.claim_runtime_instance_id.0 == 0 || open.latest_capture_event.id.0
        == 0 || open.active_claim_event.id.0 == 0 || open.active_claim_event.actor_id.0 == 0
        || open.active_claim.claim_id.0 == 0 || open.active_claim.runtime_instance_id.0 == 0
        || identity.lease_id.0 == 0 || identity.lease_event_id.0 == 0 || lease_is_nil {
        return Err(StoreError::InvalidStateEvent);
    }
    Ok(())
}

/// The identities that the lifecycle itself is made of.
pub open spec fn lifecycle_identities(
    run_id: RunId,
    open: RepositorySnapshotOpenReplay,
    lease_event: Option<EventEnvelope>,
    source_claim_event: EventEnvelope,
    source_claim: RunClaimed,
    identity: u128,
) -> bool {
    ||| identity == run_id.0
    ||| identity == source_claim_event.session_id.0
    ||| identity == source_claim_event.id.0
    ||| identity == source_claim.claim_id.0
    ||| identity == open.writer_revocation_event.id.0
    ||| identity == open.writer_revocation.claim_event_id.0
    ||| identity == open.writer_revocation.claim_id.0
    ||| identity == open.latest_capture_event.id.0
    ||| identity == open.active_claim_event.id.0
    ||| identity == open.active_claim.claim_id.0
    ||| open.identity matches Some(named) && (identity == named.lease_id.0 || identity
        == named.lease_event_id.0)
    ||| lease_event matches Some(event) && identity == event.id.0
}

fn is_lifecycle_identity(
    run_id: RunId,
    open: &RepositorySnapshotOpenReplay,
    lease_event: Option<&EventEnvelope>,
    source_claim_event: &EventEnvelope,
    source_claim: &RunClaimed,
    identity: u128,
) -> (r: bool)
    ensures
        r == lifecycle_identities(
            run_id,
            *open,
            match lease_event {
                Some(event) => Some(*event),
                None => None,
            },
            *source_claim_event,
            *source_claim,
            identity,
        ),
{
    let named = match &open.identity {
        Some(named) => identity == named.lease_id.0 || identity == named.lease_event_id.0,
        None => false,
    };
    let leased = match lease_event {
        Some(event) => identity == event.id.0,
        None => false,
    };
    identity == run_id.0 || identity == source_claim_event.session_id.0 || identity
        == source_claim_event.id.0 || identity == source_claim.claim_id.0 || identity
        == open.writer_revocation_event.id.0 || identity == open.writer_revocation.claim_event_id.0
        || identity == open.writer_revocation.claim_id.0 || identity
        == open.latest_capture_event.id.0 || identity == open.active_claim_event.id.0 || identity
        == open.active_claim.claim_id.0 || named || leased
}

/// Whether an event bears `identity`: as its own, as what it belongs to or comes from, or in one of
/// the identity fields of its payload.
pub open spec fn event_bears(event: EventEnvelope, identity: u128) -> bool {
    ||| event.id.0 == identity
    ||| event.session_id.0 == identity
    ||| event.run_id matches Some(run_id) && run_id.0 == identity
    ||| event.actor_id.0 == identity
    ||| event.causal_parent matches Some(parent) && parent.0 == identity
    ||| crate::lifecycle_identity::payload_identities(event.payload).contains(identity)
}

/// Whether `identity` already stands for something durable: some event of the log bears it.
pub open spec fn durably_taken(store: Store, identity: u128) -> bool {
    exists|i: int| 0 <= i < store.log@.len() && event_bears(#[trigger] store.log@[i], identity)
}

fn typed_lifecycle_identity_exists(store: &Store, identity: u128) -> (r: bool)
    ensures
        r == durably_taken(*store, identity),
{
    let all = EventQuery {
        scope: EventScope::Everywhere,
        id: None,
        from: None,
        until: None,
        payload: PayloadFilter::Any,
    };
    let rows = store.log.select(&all);
    proof {
        lemma_everything_is_selected(store.log@, all);
    }
    let mut i: usize = 0;
    while i < rows.len()
        invariant
            i <= rows@.len(),
            rows@.len() == store.log@.len(),
            forall|j: int| 0 <= j < rows@.len() ==> *#[trigger] rows@[j] == store.log@[j],
            forall|j: int| 0 <= j < i ==> !event_bears(#[trigger] store.log@[j], identity),
        decreases rows.len() - i,
    {
        let event = rows[i];
        assert(*event == store.log@[i as int]);
        let in_run = match event.run_id {
            Some(run_id) => run_id.0 == identity,
            None => false,
        };
        let caused = match event.causal_parent {
            Some(parent) => parent.0 == identity,
            None => false,
        };
        if event.id.0 == identity || event.session_id.0 == identity || in_run || event.actor_id.0
            == identity || caused || payload_holds_identity(&event.payload, identity) {
            return true;
        }
        i += 1;
    }
    false
}

/// The selection without conditions selects everything.
pub proof fn lemma_everything_is_selected(events: Seq<EventEnvelope>, query: EventQuery)
    requires
        query.scope is Everywhere,
        query.id is None,
        query.from is None,
        query.until is None,
        query.payload is Any,
    ensures
        query.rows(events) == events,
    decreases events.len(),
{
    reveal(Seq::filter);
    if events.len() > 0 {
        lemma_everything_is_selected(events.drop_last(), query);
        assert(query.rows(events) =~= events.drop_last().push(events.last()));
        assert(events =~= events.drop_last().push(events.last()));
    } else {
        assert(query.rows(events) =~= events);
    }
}

/// Whether a claim by `runtime_instance_id` was recorded under another actor.
pub open spec fn runtime_bound_elsewhere(
    events: Seq<EventEnvelope>,
    actor_id: ActorId,
    runtime_instance_id: RuntimeInstanceId,
) -> bool {
    exists|i: int|
        0 <= i < events.len() && (#[trigger] events[i]).actor_id != actor_id && (
        events[i].payload matches EventPayload::RunClaimed(claim) && claim.runtime_instance_id
            == runtime_instance_id)
}

fn runtime_is_bound_to_other_actor(
    log: &EventLog,
    actor_id: ActorId,
    runtime_instance_id: RuntimeInstanceId,
) -> (r: bool)
    ensures
        r == runtime_bound_elsewhere(log@, actor_id, runtime_instance_id),
{
    let all = EventQuery {
        scope: EventScope::Everywhere,
        id: None,
        from: None,
        until: None,
        payload: PayloadFilter::Any,
    };
    let rows = log.select(&all);
    proof {
        lemma_everything_is_selected(log@, all);
    }
    let mut i: usize = 0;
    while i < rows.len()
        invariant
            i <= rows@.len(),
            rows@.len() == log@.len(),
            forall|j: int| 0 <= j < rows@.len() ==> *#[trigger] rows@[j] == log@[j],
            forall|j: int|
                0 <= j < i ==> !((#[trigger] log@[j]).actor_id != actor_id && (
                log@[j].payload matches EventPayload::RunClaimed(claim)
                    && claim.runtime_instance_id == runtime_instance_id)),
        decreases rows.len() - i,
    {
        let event = rows[i];
        assert(*event == log@[i as int]);
        if let EventPayload::RunClaimed(claim) = &event.payload {
            if claim.runtime_instance_id == runtime_instance_id && event.actor_id != actor_id {
                return true;
            }
        }
        i += 1;
    }
    false
}

impl RepositorySnapshotCleanupPreflightAuthorityV1 {
    /// The seven identities.
    pub open spec fn identities(self) -> Seq<u128> {
        seq![
            self.cleanup_actor_id.0,
            self.cleanup_runtime_instance_id.0,
            self.cleanup_grant_event_id.0,
            self.cleanup_grant_id.0,
            self.recovery_id.0,
            self.closure_event_id.0,
            self.workspace_finalized_event_id.0,
        ]
    }

    /// Whether none of the identities is nil and no two are equal, whatever their types.
    pub open spec fn distinct_and_named(self) -> bool {
        &&& forall|i: int| 0 <= i < 7 ==> #[trigger] self.identities()[i] != 0
        &&& self.identities().no_duplicates()
    }

    /// The identities that must not stand for anything yet.
    pub open spec fn fresh_identities(self) -> Seq<u128> {
        self.identities().skip(2)
    }
}

/// Whether the caller's identities can be used: they are distinct and named, the actor and the
/// runtime belong together and are no part of the lifecycle, and the rest is unused.
pub open spec fn identities_usable(
    store: Store,
    run_id: RunId,
    open: RepositorySnapshotOpenReplay,
    lease_event: Option<EventEnvelope>,
    source_claim_event: EventEnvelope,
    source_claim: RunClaimed,
    authority: RepositorySnapshotCleanupPreflightAuthorityV1,
) -> bool {
    &&& authority.distinct_and_named()
    &&& !runtime_bound_elsewhere(
        store.log@,
        authority.cleanup_actor_id,
        authority.cleanup_runtime_instance_id,
    )
    &&& forall|i: int|
        0 <= i < 7 ==> !lifecycle_identities(
            run_id,
            open,
            lease_event,
            source_claim_event,
            source_claim,
            #[trigger] authority.identities()[i],
        )
    &&& forall|i: int|
        0 <= i < 5 ==> !durably_taken(store, #[trigger] authority.fresh_identities()[i])
}

fn authority_is_distinct_and_named(
    authority: &RepositorySnapshotCleanupPreflightAuthorityV1,
) -> (r: bool)
    ensures
        r == authority.distinct_and_named(),
{
    let identities: [u128; 7] = [
        authority.cleanup_actor_id.0,
        authority.cleanup_runtime_instance_id.0,
        authority.cleanup_grant_event_id.0,
        authority.cleanup_grant_id.0,
        authority.recovery_id.0,
        authority.closure_event_id.0,
        authority.workspace_finalized_event_id.0,
    ];
    assert(identities@ =~= authority.identities());
    let mut i: usize = 0;
    while i < 7
        invariant
            i <= 7,
            identities@ == authority.identities(),
            forall|k: int| 0 <= k < i ==> #[trigger] identities@[k] != 0,
            forall|a: int, b: int|
                0 <= a < b < i ==> #[trigger] identities@[a] != #[trigger] identities@[b],
        decreases 7 - i,
    {
        if identities[i] == 0 {
            assert(authority.identities()[i as int] == 0);
            return false;
        }
        let mut j: usize = 0;
        while j < i
            invariant
                j <= i < 7,
                identities@ == authority.identities(),
                forall|k: int| 0 <= k < j ==> #[trigger] identities@[k] != identities@[i as int],
            decreases i - j,
        {
            if identities[j] == identities[i] {
                assert(authority.identities()[j as int] == authority.identities()[i as int]);
                return false;
            }
            j += 1;
        }
        i += 1;
    }
    assert(authority.identities().no_duplicates()) by {
        assert forall|a: int, b: int| 0 <= a < 7 && 0 <= b < 7 && a != b implies
            authority.identities()[a] != authority.identities()[b] by {
            if a < b {
                assert(identities@[a] != identities@[b]);
            } else {
                assert(identities@[b] != identities@[a]);
            }
        }
    }
    true
}

fn validate_identity_authority(
    store: &Store,
    run_id: RunId,
    open: &RepositorySnapshotOpenReplay,
    lease_event: Option<&EventEnvelope>,
    source_claim_event: &EventEnvelope,
    source_claim: &RunClaimed,
    authority: &RepositorySnapshotCleanupPreflightAuthorityV1,
) -> (r: Result<(), StoreError>)
    ensures
        r is Ok <==> identities_usable(
            *store,
            run_id,
            *open,
            match lease_event {
                Some(event) => Some(*event),
                None => None,
            },
            *source_claim_event,
            *source_claim,
            *authority,
        ),
        r matches Err(error) ==> error == StoreError::InvalidStateEvent,
{
    let ghost lease = match lease_event {
        Some(event) => Some(*event),
        None => None,
    };
    let ghost identities = authority.identities();
    let ghost fresh = authority.fresh_identities();
    proof {
        assert(fresh.len() == 5);
        assert(fresh[0] == identities[2] && fresh[1] == identities[3] && fresh[2] == identities[4]
            && fresh[3] == identities[5] && fresh[4] == identities[6]);
    }
    if !authority_is_distinct_and_named(authority) {
        return Err(StoreError::InvalidStateEvent);
    }
    if runtime_is_bound_to_other_actor(
        &store.log,
        authority.cleanup_actor_id,
        authority.cleanup_runtime_instance_id,
    ) {
        return Err(StoreError::InvalidStateEvent);
    }
    if is_lifecycle_identity(
        run_id,
        open,
        lease_event,
        source_claim_event,
        source_claim,
        authority.cleanup_actor_id.0,
    ) {
        assert(lifecycle_identities(
            run_id,
            *open,
            lease,
            *source_claim_event,
            *source_claim,
            identities[0],
        ));
        return Err(StoreError::InvalidStateEvent);
    }
    if is_lifecycle_identity(
        run_id,
        open,
        lease_event,
        source_claim_event,
        source_claim,
        authority.cleanup_runtime_instance_id.0,
    ) {
        assert(lifecycle_identities(
            run_id,
            *open,
            lease,
            *source_claim_event,
            *source_claim,
            identities[1],
        ));
        return Err(StoreError::InvalidStateEvent);
    }
    let to_check: [u128; 5] = [
        authority.cleanup_grant_event_id.0,
        authority.cleanup_grant_id.0,
        authority.recovery_id.0,
        authority.closure_event_id.0,
        authority.workspace_finalized_event_id.0,
    ];
    assert(to_check@ =~= fresh);
    let mut i: usize = 0;
    while i < 5
        invariant
            i <= 5,
            to_check@ == fresh,
            fresh == authority.fresh_identities(),
            identities == authority.identities(),
            lease == (match lease_event {
                Some(event) => Some(*event),
                None => None,
            }),
            forall|k: int| 0 <= k < 5 ==> #[trigger] fresh[k] == identities[k + 2],
            forall|k: int|
                0 <= k < i ==> {
                    &&& !durably_taken(*store, #[trigger] fresh[k])
                    &&& !lifecycle_identities(
                        run_id,
                        *open,
                        lease,
                        *source_claim_event,
                        *source_claim,
                        fresh[k],
                    )
                },
        decreases 5 - i,
    {
        let identity: u128 = to_check[i];
        assert(fresh[i as int] == identity);
        assert(identities[i + 2] == identity);
        if is_lifecycle_identity(
            run_id,
            open,
            lease_event,
            source_claim_event,
            source_claim,
            identity,
        ) || typed_lifecycle_identity_exists(store, identity) {
            return Err(StoreError::InvalidStateEvent);
        }
        i += 1;
    }
    assert forall|k: int| 0 <= k < 7 implies !lifecycle_identities(
        run_id,
        *open,
        lease,
        *source_claim_event,
        *source_claim,
        #[trigger] identities[k],
    ) by {
        if k >= 2 {
            assert(fresh[k - 2] == identities[k]);
        }
    }
    Ok(())
}

/// The common part of a permit.
pub open spec fn common_of(
    run_id: RunId,
    authority: RepositorySnapshotCleanupPreflightAuthorityV1,
    kind: RepositorySnapshotCleanupKindV1,
    boundary: RepositorySnapshotCleanupBoundaryV1,
    open: RepositorySnapshotOpenReplay,
    lifecycle_tail_event_id: EventId,
    source_claim_event: EventEnvelope,
    source_claim: RunClaimed,
    cancellation_generation: u64,
    store_checked_at: Timestamp,
) -> RepositorySnapshotCleanupPreflightCommonMaterialV1 {
    RepositorySnapshotCleanupPreflightCommonMaterialV1 {
        session_id: open.writer_revocation_event.session_id,
        run_id,
        cleanup_grant_event_id: authority.cleanup_grant_event_id,
        cleanup_grant_id: authority.cleanup_grant_id,
        recovery_id: authority.recovery_id,
        closure_event_id: authority.closure_event_id,
        workspace_finalized_event_id: authority.workspace_finalized_event_id,
        kind,
        boundary,
        lifecycle_tail_event_id,
        snapshot_id: open.identity->Some_0.snapshot_id,
        lease_id: open.identity->Some_0.lease_id,
        snapshot_lease_event_id: open.identity->Some_0.lease_event_id,
        writer_revocation_event_id: open.writer_revocation_event.id,
        lifecycle_owner_actor_id: open.writer_revocation_event.actor_id,
        lifecycle_owner_runtime_instance_id: open.writer_revocation.claim_runtime_instance_id,
        source_claim_event,
        source_claim,
        cancellation_generation,
        cleanup_actor_id: authority.cleanup_actor_id,
        cleanup_runtime_instance_id: authority.cleanup_runtime_instance_id,
        store_checked_at,
    }
}

fn common_material(
    run_id: RunId,
    authority: &RepositorySnapshotCleanupPreflightAuthorityV1,
    kind: RepositorySnapshotCleanupKindV1,
    boundary: RepositorySnapshotCleanupBoundaryV1,
    open: &RepositorySnapshotOpenReplay,
    lifecycle_tail_event_id: EventId,
    source_claim_event: EventEnvelope,
    source_claim: RunClaimed,
    cancellation_generation: u64,
    store_checked_at: Timestamp,
) -> (r: Result<RepositorySnapshotCleanupPreflightCommonMaterialV1, StoreError>)
    ensures
        r == (if open.identity is Some {
            Ok::<RepositorySnapshotCleanupPreflightCommonMaterialV1, StoreError>(
                common_of(
                    run_id,
                    *authority,
                    kind,
                    boundary,
                    *open,
                    lifecycle_tail_event_id,
                    source_claim_event,
                    source_claim,
                    cancellation_generation,
                    store_checked_at,
                ),
            )
        } else {
            Err(StoreError::InvalidStateEvent)
        }),
{
    let identity = match &open.identity {
        Some(identity) => identity,
        None => return Err(StoreError::InvalidStateEvent),
    };
    Ok(
        RepositorySnapshotCleanupPreflightCommonMaterialV1 {
            session_id: open.writer_revocation_event.session_id,
            run_id,
            cleanup_grant_event_id: authority.cleanup_grant_event_id,
            cleanup_grant_id: authority.cleanup_grant_id,
            recovery_id: authority.recovery_id,
            closure_event_id: authority.closure_event_id,
            workspace_finalized_event_id: authority.workspace_finalized_event_id,
            kind,
            boundary,
            lifecycle_tail_event_id,
            snapshot_id: identity.snapshot_id.clone(),
            lease_id: identity.lease_id,
            snapshot_lease_event_id: identity.lease_event_id,
            writer_revocation_event_id: open.writer_revocation_event.id,
            lifecycle_owner_actor_id: open.writer_revocation_event.actor_id,
            lifecycle_owner_runtime_instance_id: open.writer_revocation.claim_runtime_instance_id,
            source_claim_event,
            source_claim,
            cancellation_generation,
            cleanup_actor_id: authority.cleanup_actor_id,
            cleanup_runtime_instance_id: authority.cleanup_runtime_instance_id,
            store_checked_at,
        },
    )
}

fn copy_claim_event(event: &EventEnvelope, claim: &RunClaimed) -> (r: EventEnvelope)
    requires
        event.payload == EventPayload::RunClaimed(*claim),
    ensures
        r == *event,
{
    EventEnvelope {
        id: event.id,
        sequence: event.sequence,
        session_id: event.session_id,
        run_id: event.run_id,
        actor_id: event.actor_id,
        causal_parent: event.causal_parent,
        occurred_at: event.occurred_at,
        provenance: event.provenance.clone(),
        payload: EventPayload::RunClaimed(*claim),
    }
}

/// What a preflight decides, before a permit is sealed.
pub enum PreflightDecision {
    Prepared(RepositorySnapshotCleanupPreflightMaterialV1),
    NoAuthority(RepositorySnapshotCleanupPreflightNoAuthorityV1),
}

/// The material that an open or active lifecycle gives. An active lifecycle needs the document
/// behind its lease, and that document has to name the lifecycle's own owner.
pub open spec fn preflight_material(
    store: Store,
    run_id: RunId,
    authority: RepositorySnapshotCleanupPreflightAuthorityV1,
    store_checked_at: Timestamp,
    lifecycle: RepositorySnapshotLifecycleReplay,
    lease_document: Result<RepositorySnapshotLeaseDocumentV1, StoreError>,
    boundary: RepositorySnapshotCleanupBoundaryV1,
    source_claim_event: EventEnvelope,
    source_claim: RunClaimed,
    cancellation_generation: u64,
) -> Result<PreflightDecision, StoreError> {
    match lifecycle {
        RepositorySnapshotLifecycleReplay::Open(open) => Ok(
            PreflightDecision::Prepared(
                RepositorySnapshotCleanupPreflightMaterialV1::CaptureAbandonment {
                    common: common_of(
                        run_id,
                        authority,
                        RepositorySnapshotCleanupKindV1::CaptureAbandonment,
                        boundary,
                        open,
                        open.latest_capture_event.id,
                        source_claim_event,
                        source_claim,
                        cancellation_generation,
                        store_checked_at,
                    ),
                    writer_revocation_event: open.writer_revocation_event,
                    latest_capture_event: open.latest_capture_event,
                    lifecycle_claim_event: open.active_claim_event,
                    lifecycle_claim: open.active_claim,
                    writer_evidence: open.writer_evidence,
                },
            ),
        ),
        RepositorySnapshotLifecycleReplay::Active { open, lease_event } =>
            match lease_event.payload {
                EventPayload::RepositorySnapshotLeaseIssued(issued) => if
                issued.snapshot.immutability_lease.lease_artifact.media_type@
                    != store.contract.media.snapshot_lease@ {
                    Err(StoreError::InvalidStateEvent)
                } else {
                    match lease_document {
                        Err(error) => Err(error),
                        Ok(document) => {
                            let mount = document.macos_read_only_mount;
                            let owner_actor = open.writer_revocation_event.actor_id;
                            let owner_runtime = open.writer_revocation.claim_runtime_instance_id;
                            if owner_actor != mount.lifecycle_owner_actor_id || owner_runtime
                                != mount.lifecycle_owner_runtime_instance_id {
                                Err(StoreError::InvalidStateEvent)
                            } else {
                                Ok(
                                    PreflightDecision::Prepared(
                                        RepositorySnapshotCleanupPreflightMaterialV1::LeaseReleaseReconciliation {
                                            common: common_of(
                                                run_id,
                                                authority,
                                                RepositorySnapshotCleanupKindV1::LeaseReleaseReconciliation,
                                                boundary,
                                                open,
                                                lease_event.id,
                                                source_claim_event,
                                                source_claim,
                                                cancellation_generation,
                                                store_checked_at,
                                            ),
                                            writer_revocation_event: open.writer_revocation_event,
                                            lease_event,
                                            writer_evidence: open.writer_evidence,
                                            lease_document: document,
                                        },
                                    ),
                                )
                            }
                        },
                    }
                },
                _ => Err(StoreError::InvalidStateEvent),
            },
        _ => Err(StoreError::InvalidStateEvent),
    }
}

/// Whether a run can have a snapshot to clean up.
pub open spec fn run_has_snapshots(run: Run) -> bool {
    &&& run.id.0 != 0
    &&& run.spec.session_id.0 != 0
    &&& run.spec.purpose == RunPurpose::ParallelRepositoryReconnaissanceV1
}

/// Whether what a cleanup starts from is anchored: the lifecycle is open or active, and its capture,
/// the latest claim of the run and its latest cancellation belong to the run.
pub open spec fn cleanup_anchored(
    store: Store,
    run: Run,
    lifecycle: RepositorySnapshotLifecycleReplay,
) -> bool {
    &&& capture_of(lifecycle) matches Some((open, lease_event))
    &&& capture_anchored(open, lease_event)
    &&& EventQuery::in_run(run.spec.session_id, run.id, PayloadFilter::RunClaimed).last_of(
        store.log@,
    ) matches Some(claim_event)
    &&& claim_event.payload matches EventPayload::RunClaimed(claim)
    &&& latest_cancellation(store.log@, run.spec.session_id, run.id) matches Ok(cancellation)
    &&& claim_and_cancellation_anchored(run, claim_event, claim, cancellation)
}

/// Whether the deadline that a preflight asks for can be computed, where it asks for one: of a run
/// that can have a snapshot, whose cleanup is anchored and whose creation is on record.
pub open spec fn cleanup_deadline_in_bounds(
    store: Store,
    run_id: RunId,
    lifecycle: Result<RepositorySnapshotLifecycleReplay, StoreError>,
) -> bool {
    match (store.run_record(run_id), lifecycle) {
        (Some(run), Ok(replay)) => {
            run.id == run_id && run_has_snapshots(run) && cleanup_anchored(store, run, replay)
                && creation_of(store.log@, run) is Some ==> wall_time_in_bounds(run)
        },
        _ => true,
    }
}

/// What a preflight decides for an open or active lifecycle: the latest claim and cancellation are
/// anchored, a boundary is due, the caller's identities are usable.
pub open spec fn preflight_of_capture(
    store: Store,
    run: Run,
    authority: RepositorySnapshotCleanupPreflightAuthorityV1,
    store_checked_at: Timestamp,
    lifecycle: RepositorySnapshotLifecycleReplay,
    lease_document: Result<RepositorySnapshotLeaseDocumentV1, StoreError>,
) -> Result<PreflightDecision, StoreError> {
    let session_id = run.spec.session_id;
    let (open, lease_event) = capture_of(lifecycle)->Some_0;
    match EventQuery::in_run(session_id, run.id, PayloadFilter::RunClaimed).last_of(store.log@) {
        Some(claim_event) => match (
            claim_event.payload,
            latest_cancellation(store.log@, session_id, run.id),
        ) {
            (EventPayload::RunClaimed(claim), Ok(cancellation)) => if
            !claim_and_cancellation_anchored(run, claim_event, claim, cancellation)
                || !capture_anchored(open, lease_event) {
                Err(StoreError::InvalidStateEvent)
            } else {
                match anchored_deadline(store.log@, run) {
                    Err(error) => Err(error),
                    Ok(deadline) => {
                        let named = match cancellation {
                            Some((event, request)) => Some((event.id, request)),
                            None => None,
                        };
                        match due_boundary(named, deadline, claim, store_checked_at) {
                            None => Ok(
                                PreflightDecision::NoAuthority(
                                    RepositorySnapshotCleanupPreflightNoAuthorityV1::BoundaryNotReached {
                                        source_claim_event_id: claim_event.id,
                                        claim_lease_expires_at: claim.lease_expires_at,
                                        run_deadline_at: deadline,
                                    },
                                ),
                            ),
                            Some(boundary) => if !identities_usable(
                                store,
                                run.id,
                                open,
                                lease_event,
                                claim_event,
                                claim,
                                authority,
                            ) {
                                Err(StoreError::InvalidStateEvent)
                            } else {
                                preflight_material(
                                    store,
                                    run.id,
                                    authority,
                                    store_checked_at,
                                    lifecycle,
                                    lease_document,
                                    boundary,
                                    claim_event,
                                    claim,
                                    match cancellation {
                                        Some((event, request)) => request.cancellation_generation,
                                        None => 0,
                                    },
                                )
                            },
                        }
                    },
                }
            },
            _ => Err(StoreError::InvalidStateEvent),
        },
        None => Err(StoreError::InvalidStateEvent),
    }
}

/// What a preflight decides.
pub open spec fn cleanup_preflight(
    store: Store,
    run_id: RunId,
    authority: RepositorySnapshotCleanupPreflightAuthorityV1,
    store_checked_at: Timestamp,
    lifecycle: Result<RepositorySnapshotLifecycleReplay, StoreError>,
    lease_document: Result<RepositorySnapshotLeaseDocumentV1, StoreError>,
) -> Result<PreflightDecision, StoreError> {
    match store.run_record(run_id) {
        None => Err(StoreError::InvalidStateEvent),
        Some(run) => if run.id != run_id || !run_has_snapshots(run) {
            Err(StoreError::InvalidStateEvent)
        } else {
            match lifecycle {
                Err(error) => Err(error),
                Ok(replay) => match inactivity(replay) {
                    Err(error) => Err(error),
                    Ok(Some(reason)) => Ok(PreflightDecision::NoAuthority(reason)),
                    Ok(None) => preflight_of_capture(
                        store,
                        run,
                        authority,
                        store_checked_at,
                        replay,
                        lease_document,
                    ),
                },
            }
        },
    }
}

/// Whether an outcome is what was decided.
pub open spec fn outcome_is(
    outcome: Result<RepositorySnapshotCleanupPreflightOutcomeV1, StoreError>,
    decision: Result<PreflightDecision, StoreError>,
) -> bool {
    match (outcome, decision) {
        (Err(error), Err(decided)) => error == decided,
        (
            Ok(RepositorySnapshotCleanupPreflightOutcomeV1::NoAuthority(reason)),
            Ok(PreflightDecision::NoAuthority(decided)),
        ) => reason == decided,
        (
            Ok(RepositorySnapshotCleanupPreflightOutcomeV1::Prepared(permit)),
            Ok(PreflightDecision::Prepared(decided)),
        ) => permit.held() == decided,
        _ => false,
    }
}

impl Store {
    /// Prepares one cleanup candidate of the first generation. Nothing durable changes.
    ///
    /// `lifecycle` is where the run's snapshot stands and `lease_document` the document behind its
    /// lease, as far as they could be read; `store_checked_at` is the wall clock.
    pub fn prepare_repository_snapshot_cleanup(
        &self,
        run_id: RunId,
        authority: RepositorySnapshotCleanupPreflightAuthorityV1,
        store_checked_at: Timestamp,
        lifecycle: Result<RepositorySnapshotLifecycleReplay, StoreError>,
        lease_document: Result<RepositorySnapshotLeaseDocumentV1, StoreError>,
    ) -> (r: Result<RepositorySnapshotCleanupPreflightOutcomeV1, StoreError>)
        requires
            cleanup_deadline_in_bounds(*self, run_id, lifecycle),
        ensures
            outcome_is(
                r,
                cleanup_preflight(
                    *self,
                    run_id,
                    authority,
                    store_checked_at,
                    lifecycle,
                    lease_document,
                ),
            ),
    {
        let run = match self.durable_run(run_id) {
            Ok(run) => run,
            Err(error) => return Err(error),
        };
        if run.id != run_id || run.id.0 == 0 || run.spec.session_id.0 == 0 || run.spec.purpose
            != RunPurpose::ParallelRepositoryReconnaissanceV1 {
            return Err(StoreError::InvalidStateEvent);
        }
        let replay = match lifecycle {
            Ok(replay) => replay,
            Err(error) => return Err(error),
        };
        match inactive_lifecycle_reason(&replay) {
            Err(error) => return Err(error),
            Ok(Some(reason)) => return Ok(
                RepositorySnapshotCleanupPreflightOutcomeV1::NoAuthority(reason),
            ),
            Ok(None) => {},
        }
        self.prepare_capture_cleanup(run, authority, store_checked_at, replay, lease_document)
    }

    /// Whether the deadline that a preflight asks for can be computed, where it asks for one.
    pub fn has_cleanup_deadline_in_bounds(
        &self,
        run_id: RunId,
        lifecycle: &Result<RepositorySnapshotLifecycleReplay, StoreError>,
    ) -> (r: bool)
        ensures
            r == cleanup_deadline_in_bounds(*self, run_id, *lifecycle),
    {
        let run = match self.durable_run(run_id) {
            Ok(run) => run,
            Err(_) => return true,
        };
        if run.id != run_id || run.id.0 == 0 || run.spec.session_id.0 == 0 || run.spec.purpose
            != RunPurpose::ParallelRepositoryReconnaissanceV1 {
            return true;
        }
        let replay = match lifecycle {
            Ok(replay) => replay,
            Err(_) => return true,
        };
        if self.anchored_claim(run, replay).is_err() || recorded_creation(
            &self.log,
            run,
        ).is_none() {
            return true;
        }
        match run.spec.limits.max_wall_time_seconds {
            Some(seconds) => seconds <= MAX_DELTA_SECONDS as u64 || seconds > i64::MAX as u64,
            None => true,
        }
    }

    /// The latest claim and cancellation of a run, where its cleanup is anchored.
    fn anchored_claim<'a>(
        &'a self,
        run: &Run,
        replay: &RepositorySnapshotLifecycleReplay,
    ) -> (r: Result<
        (&'a EventEnvelope, RunClaimed, Option<(&'a EventEnvelope, CancellationRequested)>),
        StoreError,
    >)
        ensures
            r is Ok <==> cleanup_anchored(*self, *run, *replay),
            r matches Err(error) ==> error == StoreError::InvalidStateEvent,
            r matches Ok((claim_event, claim, cancellation)) ==> {
                &&& EventQuery::in_run(
                    run.spec.session_id,
                    run.id,
                    PayloadFilter::RunClaimed,
                ).last_of(self.log@) == Some(*claim_event)
                &&& claim_event.payload == EventPayload::RunClaimed(claim)
                &&& latest_cancellation(self.log@, run.spec.session_id, run.id) == Ok::<
                    Option<(EventEnvelope, CancellationRequested)>,
                    StoreError,
                >(
                    match cancellation {
                        Some((event, request)) => Some((*event, request)),
                        None => None,
                    },
                )
            },
    {
        let session_id = run.spec.session_id;
        let claim_event = match self.log.last(
            &EventQuery::in_run(session_id, run.id, PayloadFilter::RunClaimed),
        ) {
            Some(event) => event,
            None => return Err(StoreError::InvalidStateEvent),
        };
        let claim = match &claim_event.payload {
            EventPayload::RunClaimed(claim) => *claim,
            _ => return Err(StoreError::InvalidStateEvent),
        };
        let cancellation = match exact_latest_cancellation(&self.log, session_id, run.id) {
            Ok(cancellation) => cancellation,
            Err(error) => return Err(error),
        };
        let (open, lease_event) = match replay {
            RepositorySnapshotLifecycleReplay::Open(open) => (open, None),
            RepositorySnapshotLifecycleReplay::Active { open, lease_event } => (
                open,
                Some(lease_event),
            ),
            _ => return Err(StoreError::InvalidStateEvent),
        };
        match validate_store_bound_anchors(
            run,
            open,
            lease_event,
            claim_event,
            &claim,
            &cancellation,
        ) {
            Ok(()) => Ok((claim_event, claim, cancellation)),
            Err(error) => Err(error),
        }
    }

    fn prepare_capture_cleanup(
        &self,
        run: &Run,
        authority: RepositorySnapshotCleanupPreflightAuthorityV1,
        store_checked_at: Timestamp,
        replay: RepositorySnapshotLifecycleReplay,
        lease_document: Result<RepositorySnapshotLeaseDocumentV1, StoreError>,
    ) -> (r: Result<RepositorySnapshotCleanupPreflightOutcomeV1, StoreError>)
        requires
            capture_of(replay) is Some,
            cleanup_anchored(*self, *run, replay) && creation_of(self.log@, *run) is Some
                ==> wall_time_in_bounds(*run),
        ensures
            outcome_is(
                r,
                preflight_of_capture(
                    *self,
                    *run,
                    authority,
                    store_checked_at,
                    replay,
                    lease_document,
                ),
            ),
    {
        let run_id = run.id;
        let (claim_event, claim, cancellation) = match self.anchored_claim(run, &replay) {
            Ok(anchors) => anchors,
            Err(error) => return Err(error),
        };
        let (cancellation_generation, named) = match &cancellation {
            Some((event, request)) => (request.cancellation_generation, Some((event.id, *request))),
            None => (0, None),
        };
        let (open, lease_event) = match &replay {
            RepositorySnapshotLifecycleReplay::Open(open) => (open, None),
            RepositorySnapshotLifecycleReplay::Active { open, lease_event } => (
                open,
                Some(lease_event),
            ),
            _ => return Err(StoreError::InvalidStateEvent),
        };
        let deadline = match store_anchored_run_deadline(&self.log, run) {
            Ok(deadline) => deadline,
            Err(error) => return Err(error),
        };
        let boundary = match derive_cleanup_boundary(named, deadline, &claim, store_checked_at) {
            Some(boundary) => boundary,
            None => return Ok(
                RepositorySnapshotCleanupPreflightOutcomeV1::NoAuthority(
                    RepositorySnapshotCleanupPreflightNoAuthorityV1::BoundaryNotReached {
                        source_claim_event_id: claim_event.id,
                        claim_lease_expires_at: claim.lease_expires_at,
                        run_deadline_at: deadline,
                    },
                ),
            ),
        };
        if let Err(error) = validate_identity_authority(
            self,
            run_id,
            open,
            lease_event,
            claim_event,
            &claim,
            &authority,
        ) {
            return Err(error);
        }
        let source_claim_event = copy_claim_event(claim_event, &claim);
        self.seal_cleanup_permit(
            run_id,
            authority,
            store_checked_at,
            replay,
            lease_document,
            boundary,
            source_claim_event,
            claim,
            cancellation_generation,
        )
    }

    fn seal_cleanup_permit(
        &self,
        run_id: RunId,
        authority: RepositorySnapshotCleanupPreflightAuthorityV1,
        store_checked_at: Timestamp,
        replay: RepositorySnapshotLifecycleReplay,
        lease_document: Result<RepositorySnapshotLeaseDocumentV1, StoreError>,
        boundary: RepositorySnapshotCleanupBoundaryV1,
        source_claim_event: EventEnvelope,
        claim: RunClaimed,
        cancellation_generation: u64,
    ) -> (r: Result<RepositorySnapshotCleanupPreflightOutcomeV1, StoreError>)
        requires
            capture_of(replay) matches Some((open, _)) && open.identity is Some,
        ensures
            outcome_is(
                r,
                preflight_material(
                    *self,
                    run_id,
                    authority,
                    store_checked_at,
                    replay,
                    lease_document,
                    boundary,
                    source_claim_event,
                    claim,
                    cancellation_generation,
                ),
            ),
    {
        let material = match replay {
            RepositorySnapshotLifecycleReplay::Open(open) => {
                let common = match common_material(
                    run_id,
                    &authority,
                    RepositorySnapshotCleanupKindV1::CaptureAbandonment,
                    boundary,
                    &open,
                    open.latest_capture_event.id,
                    source_claim_event,
                    claim,
                    cancellation_generation,
                    store_checked_at,
                ) {
                    Ok(common) => common,
                    Err(error) => return Err(error),
                };
                RepositorySnapshotCleanupPreflightMaterialV1::CaptureAbandonment {
                    common,
                    writer_revocation_event: open.writer_revocation_event,
                    latest_capture_event: open.latest_capture_event,
                    lifecycle_claim_event: open.active_claim_event,
                    lifecycle_claim: open.active_claim,
                    writer_evidence: open.writer_evidence,
                }
            },
            RepositorySnapshotLifecycleReplay::Active { open, lease_event } => {
                match &lease_event.payload {
                    EventPayload::RepositorySnapshotLeaseIssued(issued) => {
                        if let Err(error) = require_artifact_media_type(
                            &issued.snapshot.immutability_lease.lease_artifact,
                            &self.contract.media.snapshot_lease,
                        ) {
                            return Err(error);
                        }
                    },
                    _ => return Err(StoreError::InvalidStateEvent),
                }
                let lease_document = match lease_document {
                    Ok(document) => document,
                    Err(error) => return Err(error),
                };
                let common = match common_material(
                    run_id,
                    &authority,
                    RepositorySnapshotCleanupKindV1::LeaseReleaseReconciliation,
                    boundary,
                    &open,
                    lease_event.id,
                    source_claim_event,
                    claim,
                    cancellation_generation,
                    store_checked_at,
                ) {
                    Ok(common) => common,
                    Err(error) => return Err(error),
                };
                if common.lifecycle_owner_actor_id
                    != lease_document.macos_read_only_mount.lifecycle_owner_actor_id
                    || common.lifecycle_owner_runtime_instance_id
                    != lease_document.macos_read_only_mount.lifecycle_owner_runtime_instance_id {
                    return Err(StoreError::InvalidStateEvent);
                }
                RepositorySnapshotCleanupPreflightMaterialV1::LeaseReleaseReconciliation {
                    common,
                    writer_revocation_event: open.writer_revocation_event,
                    lease_event,
                    writer_evidence: open.writer_evidence,
                    lease_document,
                }
            },
            _ => return Err(StoreError::InvalidStateEvent),
        };
        Ok(
            RepositorySnapshotCleanupPreflightOutcomeV1::Prepared(
                RepositorySnapshotCleanupPreflightPermitV1 { material: Box::new(material) },
            ),
        )
    }
}

/// The common part of prepared material.
pub open spec fn common_part(
    material: RepositorySnapshotCleanupPreflightMaterialV1,
) -> RepositorySnapshotCleanupPreflightCommonMaterialV1 {
    match material {
        RepositorySnapshotCleanupPreflightMaterialV1::CaptureAbandonment { common, .. } => common,
        RepositorySnapshotCleanupPreflightMaterialV1::LeaseReleaseReconciliation {
            common,
            ..
        } => common,
    }
}

/// Whether a boundary of a run is due at a moment, by its latest claim and cancellation and by its
/// deadline.
pub open spec fn boundary_due_now(
    store: Store,
    run: Run,
    checked_at: Timestamp,
    boundary: RepositorySnapshotCleanupBoundaryV1,
) -> bool {
    &&& EventQuery::in_run(run.spec.session_id, run.id, PayloadFilter::RunClaimed).last_of(
        store.log@,
    ) matches Some(claim_event)
    &&& claim_event.payload matches EventPayload::RunClaimed(claim)
    &&& latest_cancellation(store.log@, run.spec.session_id, run.id) matches Ok(cancellation)
    &&& anchored_deadline(store.log@, run) matches Ok(deadline)
    &&& due_boundary(
        match cancellation {
            Some((event, request)) => Some((event.id, request)),
            None => None,
        },
        deadline,
        claim,
        checked_at,
    ) == Some(boundary)
}

/// A cleanup is prepared only for a run that can have a snapshot, from an open or active lifecycle and
/// at a boundary that is due; and only under distinct, named identities of which no recorded event
/// bears one of the five future ones, neither in its columns nor in its payload. The permit repeats
/// them, and its claim is the latest of the run, whatever claim the capture was made under.
pub proof fn law_prepared_cleanup_is_fresh(
    store: Store,
    run_id: RunId,
    authority: RepositorySnapshotCleanupPreflightAuthorityV1,
    store_checked_at: Timestamp,
    replay: RepositorySnapshotLifecycleReplay,
    lease_document: Result<RepositorySnapshotLeaseDocumentV1, StoreError>,
    material: RepositorySnapshotCleanupPreflightMaterialV1,
)
    requires
        cleanup_preflight(
            store,
            run_id,
            authority,
            store_checked_at,
            Ok(replay),
            lease_document,
        ) == Ok::<PreflightDecision, StoreError>(PreflightDecision::Prepared(material)),
    ensures
        run_has_snapshots(store.run_record(run_id)->Some_0),
        replay is Open || replay is Active,
        boundary_due_now(
            store,
            store.run_record(run_id)->Some_0,
            store_checked_at,
            common_part(material).boundary,
        ),
        authority.distinct_and_named(),
        forall|i: int, j: int|
            0 <= i < 5 && 0 <= j < store.log@.len() ==> !event_bears(
                #[trigger] store.log@[j],
                #[trigger] authority.fresh_identities()[i],
            ),
        common_part(material).cleanup_grant_event_id == authority.cleanup_grant_event_id,
        common_part(material).recovery_id == authority.recovery_id,
        common_part(material).store_checked_at == store_checked_at,
        EventQuery::in_run(
            store.run_record(run_id)->Some_0.spec.session_id,
            run_id,
            PayloadFilter::RunClaimed,
        ).last_of(store.log@) == Some(common_part(material).source_claim_event),
{
}

/// A run that is not there to read a repository has no snapshot: nothing is prepared for it, however
/// long it may take and wherever a snapshot is said to stand.
pub proof fn law_other_runs_have_no_cleanup(
    store: Store,
    run_id: RunId,
    authority: RepositorySnapshotCleanupPreflightAuthorityV1,
    store_checked_at: Timestamp,
    lifecycle: Result<RepositorySnapshotLifecycleReplay, StoreError>,
    lease_document: Result<RepositorySnapshotLeaseDocumentV1, StoreError>,
)
    requires
        store.run_record(run_id) matches Some(run) ==> run.spec.purpose
            != RunPurpose::ParallelRepositoryReconnaissanceV1,
    ensures
        cleanup_deadline_in_bounds(store, run_id, lifecycle),
        cleanup_preflight(
            store,
            run_id,
            authority,
            store_checked_at,
            lifecycle,
            lease_document,
        ) == Err::<PreflightDecision, StoreError>(StoreError::InvalidStateEvent),
{
}

/// Without a snapshot to clean up, or with one that is closed, a preflight says so; it names a
/// boundary only where the lifecycle is open or active; and it gives no other reason.
pub proof fn law_reason_follows_the_lifecycle(
    store: Store,
    run_id: RunId,
    authority: RepositorySnapshotCleanupPreflightAuthorityV1,
    store_checked_at: Timestamp,
    replay: RepositorySnapshotLifecycleReplay,
    lease_document: Result<RepositorySnapshotLeaseDocumentV1, StoreError>,
    reason: RepositorySnapshotCleanupPreflightNoAuthorityV1,
)
    requires
        cleanup_preflight(
            store,
            run_id,
            authority,
            store_checked_at,
            Ok(replay),
            lease_document,
        ) == Ok::<PreflightDecision, StoreError>(PreflightDecision::NoAuthority(reason)),
    ensures
        match reason {
            RepositorySnapshotCleanupPreflightNoAuthorityV1::NoSnapshotLifecycle => {
                replay is Absent
            },
            RepositorySnapshotCleanupPreflightNoAuthorityV1::SnapshotAlreadyClosed { .. } => {
                replay is ClosedCapture || replay is ClosedLease
            },
            RepositorySnapshotCleanupPreflightNoAuthorityV1::BoundaryNotReached { .. } => {
                replay is Open || replay is Active
            },
            _ => false,
        },
{
}

/// While a cleanup is pending, none is prepared, and no reason is given but that the state is wrong.
pub proof fn law_pending_cleanup_is_not_prepared_again(
    store: Store,
    run_id: RunId,
    authority: RepositorySnapshotCleanupPreflightAuthorityV1,
    store_checked_at: Timestamp,
    replay: RepositorySnapshotLifecycleReplay,
    lease_document: Result<RepositorySnapshotLeaseDocumentV1, StoreError>,
)
    requires
        replay is PendingCleanup,
    ensures
        cleanup_deadline_in_bounds(store, run_id, Ok(replay)),
        cleanup_preflight(
            store,
            run_id,
            authority,
            store_checked_at,
            Ok(replay),
            lease_document,
        ) == Err::<PreflightDecision, StoreError>(StoreError::InvalidStateEvent),
{
}

/// A permit binds exactly what it was asked for and what the store saw: the seven identities of the
/// caller, the run and its latest claim, the boundary that is due, and of the lifecycle its tail, its
/// lease, its writer and its evidence. An open capture is abandoned; a lease that was issued is
/// released, under the document that names the lifecycle's own owner.
pub proof fn law_permit_binds_what_was_seen(
    store: Store,
    run_id: RunId,
    authority: RepositorySnapshotCleanupPreflightAuthorityV1,
    store_checked_at: Timestamp,
    replay: RepositorySnapshotLifecycleReplay,
    lease_document: Result<RepositorySnapshotLeaseDocumentV1, StoreError>,
    material: RepositorySnapshotCleanupPreflightMaterialV1,
)
    requires
        cleanup_preflight(
            store,
            run_id,
            authority,
            store_checked_at,
            Ok(replay),
            lease_document,
        ) == Ok::<PreflightDecision, StoreError>(PreflightDecision::Prepared(material)),
    ensures
        ({
            let (common, open, tail) = match (material, replay) {
                (
                    RepositorySnapshotCleanupPreflightMaterialV1::CaptureAbandonment {
                        common,
                        ..
                    },
                    RepositorySnapshotLifecycleReplay::Open(open),
                ) => (common, open, open.latest_capture_event.id),
                (
                    RepositorySnapshotCleanupPreflightMaterialV1::LeaseReleaseReconciliation {
                        common,
                        ..
                    },
                    RepositorySnapshotLifecycleReplay::Active { open, lease_event },
                ) => (common, open, lease_event.id),
                _ => arbitrary(),
            };
            &&& common.run_id == run_id
            &&& common.session_id == open.writer_revocation_event.session_id
            &&& common.cleanup_actor_id == authority.cleanup_actor_id
            &&& common.cleanup_runtime_instance_id == authority.cleanup_runtime_instance_id
            &&& common.cleanup_grant_event_id == authority.cleanup_grant_event_id
            &&& common.cleanup_grant_id == authority.cleanup_grant_id
            &&& common.recovery_id == authority.recovery_id
            &&& common.closure_event_id == authority.closure_event_id
            &&& common.workspace_finalized_event_id == authority.workspace_finalized_event_id
            &&& common.store_checked_at == store_checked_at
            &&& common.lifecycle_tail_event_id == tail
            &&& open.identity matches Some(identity) && common.snapshot_id == identity.snapshot_id
                && common.lease_id == identity.lease_id && common.snapshot_lease_event_id
                == identity.lease_event_id
            &&& common.writer_revocation_event_id == open.writer_revocation_event.id
            &&& common.lifecycle_owner_actor_id == open.writer_revocation_event.actor_id
            &&& common.lifecycle_owner_runtime_instance_id
                == open.writer_revocation.claim_runtime_instance_id
            &&& common.source_claim_event.payload == EventPayload::RunClaimed(common.source_claim)
            &&& common.source_claim_event.run_id == Some(run_id)
        }),
        match material {
            RepositorySnapshotCleanupPreflightMaterialV1::CaptureAbandonment {
                common,
                writer_revocation_event,
                latest_capture_event,
                lifecycle_claim_event,
                lifecycle_claim,
                writer_evidence,
            } => {
                &&& replay matches RepositorySnapshotLifecycleReplay::Open(open)
                &&& common.kind == RepositorySnapshotCleanupKindV1::CaptureAbandonment
                &&& writer_revocation_event == open.writer_revocation_event
                &&& latest_capture_event == open.latest_capture_event
                &&& lifecycle_claim_event == open.active_claim_event
                &&& lifecycle_claim == open.active_claim
                &&& writer_evidence == open.writer_evidence
            },
            RepositorySnapshotCleanupPreflightMaterialV1::LeaseReleaseReconciliation {
                common,
                writer_revocation_event,
                lease_event,
                writer_evidence,
                lease_document: document,
            } => {
                &&& replay matches RepositorySnapshotLifecycleReplay::Active {
                    open,
                    lease_event: active,
                }
                &&& common.kind == RepositorySnapshotCleanupKindV1::LeaseReleaseReconciliation
                &&& writer_revocation_event == open.writer_revocation_event
                &&& lease_event == active
                &&& lease_event.payload matches EventPayload::RepositorySnapshotLeaseIssued(issued)
                &&& issued.snapshot.immutability_lease.lease_artifact.media_type@
                    == store.contract.media.snapshot_lease@
                &&& writer_evidence == open.writer_evidence
                &&& lease_document == Ok::<RepositorySnapshotLeaseDocumentV1, StoreError>(document)
                &&& document.macos_read_only_mount.lifecycle_owner_actor_id
                    == open.writer_revocation_event.actor_id
                &&& document.macos_read_only_mount.lifecycle_owner_runtime_instance_id
                    == open.writer_revocation.claim_runtime_instance_id
            },
        },
{
}

/// The claim in a permit is the last claim of the run on record, and its cancellation generation that
/// of the last cancellation on record, or zero; its boundary is one of these, with nothing left of the
/// check.
pub proof fn law_permit_rests_on_the_latest_records(
    store: Store,
    run_id: RunId,
    authority: RepositorySnapshotCleanupPreflightAuthorityV1,
    store_checked_at: Timestamp,
    replay: RepositorySnapshotLifecycleReplay,
    lease_document: Result<RepositorySnapshotLeaseDocumentV1, StoreError>,
    material: RepositorySnapshotCleanupPreflightMaterialV1,
    common: RepositorySnapshotCleanupPreflightCommonMaterialV1,
    run: Run,
) -> (places: (int, int))
    requires
        cleanup_preflight(
            store,
            run_id,
            authority,
            store_checked_at,
            Ok(replay),
            lease_document,
        ) == Ok::<PreflightDecision, StoreError>(PreflightDecision::Prepared(material)),
        match material {
            RepositorySnapshotCleanupPreflightMaterialV1::CaptureAbandonment {
                common: held,
                ..
            } => common == held,
            RepositorySnapshotCleanupPreflightMaterialV1::LeaseReleaseReconciliation {
                common: held,
                ..
            } => common == held,
        },
        store.run_record(run_id) == Some(run),
    ensures
        run.spec.purpose == RunPurpose::ParallelRepositoryReconnaissanceV1,
        run_id.0 != 0,
        0 <= places.0 < store.log@.len(),
        store.log@[places.0] == common.source_claim_event,
        common.source_claim_event.session_id == run.spec.session_id,
        common.source_claim_event.run_id == Some(run_id),
        forall|j: int|
            places.0 < j < store.log@.len() && (#[trigger] store.log@[j]).session_id
                == run.spec.session_id && store.log@[j].run_id == Some(run_id) ==> !(
            store.log@[j].payload is RunClaimed),
        common.source_claim_event.id.0 != 0,
        common.source_claim_event.actor_id.0 != 0,
        common.source_claim.claim_id.0 != 0,
        common.source_claim.runtime_instance_id.0 != 0,
        match common.boundary {
            RepositorySnapshotCleanupBoundaryV1::CancellationRequested {
                cancellation_request_event_id,
                cancellation_request_id,
                cancellation_generation,
            } => {
                &&& 0 <= places.1 < store.log@.len()
                &&& store.log@[places.1].id == cancellation_request_event_id
                &&& store.log@[places.1].session_id == run.spec.session_id
                &&& store.log@[places.1].run_id == Some(run_id)
                &&& store.log@[places.1].payload matches EventPayload::CancellationRequested(
                    request,
                )
                &&& cancellation_request_id == request.cancellation_request_id
                &&& cancellation_generation == request.cancellation_generation
                &&& common.cancellation_generation == request.cancellation_generation
                &&& forall|j: int|
                    places.1 < j < store.log@.len() && (#[trigger] store.log@[j]).session_id
                        == run.spec.session_id && store.log@[j].run_id == Some(run_id) ==> !(
                    store.log@[j].payload is CancellationRequested)
            },
            RepositorySnapshotCleanupBoundaryV1::RunDeadlineElapsed { run_deadline_at } => {
                &&& common.cancellation_generation == 0
                &&& !store_checked_at.before(run_deadline_at)
                &&& run.spec.limits.max_wall_time_seconds matches Some(seconds)
                &&& creation_of(store.log@, run) matches Some(created)
                &&& run_deadline_at.seconds == created.occurred_at.seconds + seconds
            },
            RepositorySnapshotCleanupBoundaryV1::PriorClaimExpired { claim_lease_expires_at } => {
                &&& common.cancellation_generation == 0
                &&& claim_lease_expires_at == common.source_claim.lease_expires_at
                &&& !store_checked_at.before(claim_lease_expires_at)
            },
        },
{
    let query = EventQuery::in_run(run.spec.session_id, run.id, PayloadFilter::RunClaimed);
    let ends = crate::history::law_selections_have_ends(query, store.log@);
    assert forall|j: int|
        0 <= j < store.log@.len() && (#[trigger] store.log@[j]).session_id == run.spec.session_id
            && store.log@[j].run_id == Some(run_id)
            && store.log@[j].payload is RunClaimed implies query.admits(store.log@[j]) by {}
    let place = law_latest_cancellation_is_on_record(store.log@, run.spec.session_id, run.id);
    (ends.1, place)
}

/// Why there is nothing to clean up is told as it is: a closed snapshot with the event that closed it
/// and what was closed; a boundary that is not reached with the latest claim, its expiry and the
/// deadline of the run.
pub proof fn law_reasons_are_told_as_they_are(
    store: Store,
    run_id: RunId,
    authority: RepositorySnapshotCleanupPreflightAuthorityV1,
    store_checked_at: Timestamp,
    replay: RepositorySnapshotLifecycleReplay,
    lease_document: Result<RepositorySnapshotLeaseDocumentV1, StoreError>,
    run: Run,
)
    requires
        store.run_record(run_id) == Some(run),
        run.id == run_id,
        run_id.0 != 0,
        run.spec.session_id.0 != 0,
        run.spec.purpose == RunPurpose::ParallelRepositoryReconnaissanceV1,
    ensures
        match cleanup_preflight(
            store,
            run_id,
            authority,
            store_checked_at,
            Ok(replay),
            lease_document,
        ) {
            Ok(PreflightDecision::NoAuthority(reason)) => match reason {
                RepositorySnapshotCleanupPreflightNoAuthorityV1::NoSnapshotLifecycle => {
                    replay is Absent
                },
                RepositorySnapshotCleanupPreflightNoAuthorityV1::SnapshotAlreadyClosed {
                    kind,
                    closure_event_id,
                } => match replay {
                    RepositorySnapshotLifecycleReplay::ClosedCapture { abandonment_event, .. } => {
                        &&& kind == RepositorySnapshotCleanupKindV1::CaptureAbandonment
                        &&& closure_event_id == abandonment_event.id
                    },
                    RepositorySnapshotLifecycleReplay::ClosedLease { closure_event, .. } => {
                        &&& kind == RepositorySnapshotCleanupKindV1::LeaseReleaseReconciliation
                        &&& closure_event_id == closure_event.id
                    },
                    _ => false,
                },
                RepositorySnapshotCleanupPreflightNoAuthorityV1::BoundaryNotReached {
                    source_claim_event_id,
                    claim_lease_expires_at,
                    run_deadline_at,
                } => {
                    &&& EventQuery::in_run(
                        run.spec.session_id,
                        run_id,
                        PayloadFilter::RunClaimed,
                    ).last_of(store.log@) matches Some(claim_event)
                    &&& source_claim_event_id == claim_event.id
                    &&& claim_event.payload matches EventPayload::RunClaimed(claim)
                    &&& claim_lease_expires_at == claim.lease_expires_at
                    &&& store_checked_at.before(claim_lease_expires_at)
                    &&& run_deadline_at matches Some(deadline) ==> store_checked_at.before(deadline)
                    &&& run_deadline_at is Some <==> run.spec.limits.max_wall_time_seconds is Some
                },
                _ => false,
            },
            _ => !(replay is Absent) && !(replay is ClosedCapture) && !(replay is ClosedLease),
        },
{
}

/// The caller's identities are used only where none is nil, no two are the same, the runtime claimed
/// no run under another actor, and none stands for a part of the lifecycle itself.
pub proof fn law_identities_stand_for_nothing_else(
    store: Store,
    run_id: RunId,
    authority: RepositorySnapshotCleanupPreflightAuthorityV1,
    store_checked_at: Timestamp,
    replay: RepositorySnapshotLifecycleReplay,
    lease_document: Result<RepositorySnapshotLeaseDocumentV1, StoreError>,
    material: RepositorySnapshotCleanupPreflightMaterialV1,
    open: RepositorySnapshotOpenReplay,
    identity: u128,
)
    requires
        cleanup_preflight(
            store,
            run_id,
            authority,
            store_checked_at,
            Ok(replay),
            lease_document,
        ) == Ok::<PreflightDecision, StoreError>(PreflightDecision::Prepared(material)),
        replay == RepositorySnapshotLifecycleReplay::Open(open) || (
        replay matches RepositorySnapshotLifecycleReplay::Active { open: active, .. } && active
            == open),
        identity == authority.cleanup_actor_id.0 || identity
            == authority.cleanup_runtime_instance_id.0 || identity
            == authority.cleanup_grant_event_id.0 || identity == authority.cleanup_grant_id.0
            || identity == authority.recovery_id.0 || identity == authority.closure_event_id.0
            || identity == authority.workspace_finalized_event_id.0,
    ensures
        identity != 0,
        authority.cleanup_actor_id.0 != authority.cleanup_runtime_instance_id.0,
        authority.cleanup_actor_id.0 != authority.cleanup_grant_event_id.0,
        authority.cleanup_grant_event_id.0 != authority.cleanup_grant_id.0,
        authority.cleanup_grant_id.0 != authority.recovery_id.0,
        authority.recovery_id.0 != authority.closure_event_id.0,
        authority.closure_event_id.0 != authority.workspace_finalized_event_id.0,
        authority.cleanup_grant_event_id.0 != authority.closure_event_id.0,
        authority.cleanup_grant_event_id.0 != authority.workspace_finalized_event_id.0,
        authority.cleanup_runtime_instance_id.0 != authority.workspace_finalized_event_id.0,
        identity != run_id.0,
        identity != open.writer_revocation_event.id.0,
        identity != open.writer_revocation.claim_event_id.0,
        identity != open.writer_revocation.claim_id.0,
        identity != open.latest_capture_event.id.0,
        identity != open.active_claim_event.id.0,
        identity != open.active_claim.claim_id.0,
        open.identity matches Some(named) && identity != named.lease_id.0 && identity
            != named.lease_event_id.0,
        replay matches RepositorySnapshotLifecycleReplay::Active { lease_event, .. } ==> identity
            != lease_event.id.0,
        forall|i: int|
            0 <= i < store.log@.len() && (#[trigger] store.log@[i]).actor_id
                != authority.cleanup_actor_id ==> !(
            store.log@[i].payload matches EventPayload::RunClaimed(claim)
                && claim.runtime_instance_id == authority.cleanup_runtime_instance_id),
        forall|i: int|
            0 <= i < store.log@.len() ==> (#[trigger] store.log@[i]).id
                != authority.cleanup_grant_event_id && store.log@[i].id
                != authority.closure_event_id && store.log@[i].id
                != authority.workspace_finalized_event_id,
{
    let all = authority.identities();
    assert(all[0] == authority.cleanup_actor_id.0);
    assert(all[1] == authority.cleanup_runtime_instance_id.0);
    assert(all[2] == authority.cleanup_grant_event_id.0);
    assert(all[3] == authority.cleanup_grant_id.0);
    assert(all[4] == authority.recovery_id.0);
    assert(all[5] == authority.closure_event_id.0);
    assert(all[6] == authority.workspace_finalized_event_id.0);
    let fresh = authority.fresh_identities();
    assert(fresh[0] == all[2] && fresh[3] == all[5] && fresh[4] == all[6]);
    assert forall|i: int| 0 <= i < store.log@.len() implies (#[trigger] store.log@[i]).id
        != authority.cleanup_grant_event_id && store.log@[i].id != authority.closure_event_id
        && store.log@[i].id != authority.workspace_finalized_event_id by {
        assert(!durably_taken(store, fresh[0]) && !durably_taken(store, fresh[3])
            && !durably_taken(store, fresh[4]));
        assert(!event_bears(store.log@[i], fresh[0]) && !event_bears(store.log@[i], fresh[3])
            && !event_bears(store.log@[i], fresh[4]));
    }
    assert forall|i: int|
        0 <= i < store.log@.len() && (#[trigger] store.log@[i]).actor_id
            != authority.cleanup_actor_id implies !(
    store.log@[i].payload matches EventPayload::RunClaimed(claim) && claim.runtime_instance_id
        == authority.cleanup_runtime_instance_id) by {
        assert(!runtime_bound_elsewhere(
            store.log@,
            authority.cleanup_actor_id,
            authority.cleanup_runtime_instance_id,
        ));
    }
}

} // verus!

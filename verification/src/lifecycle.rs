//! Where the snapshot of a reconnaissance run stands.

use vstd::prelude::*;
use crate::cleanup::RepositoryWriterLeaseEvidenceDocumentV1;
use crate::event::EventEnvelope;
use crate::identity::{EventId, RepositorySnapshotLeaseId};
use crate::run::RunClaimed;
use crate::snapshot::RepositoryWriterLeaseRevokedV1;
use crate::text::Text;

verus! {

/// The identities of a snapshot capture.
#[derive(Debug)]
pub struct RepositorySnapshotIdentityReplay {
    pub snapshot_id: Text,
    pub lease_id: RepositorySnapshotLeaseId,
    pub lease_event_id: EventId,
}

/// A capture as far as it went.
#[derive(Debug)]
pub struct RepositorySnapshotOpenReplay {
    pub writer_revocation_event: EventEnvelope,
    pub writer_revocation: RepositoryWriterLeaseRevokedV1,
    pub latest_capture_event: EventEnvelope,
    pub active_claim_event: EventEnvelope,
    pub active_claim: RunClaimed,
    pub identity: Option<RepositorySnapshotIdentityReplay>,
    pub writer_evidence: RepositoryWriterLeaseEvidenceDocumentV1,
}

/// What a pending cleanup is about.
#[derive(Debug)]
pub enum RepositorySnapshotCleanupTargetReplay {
    Capture { open: RepositorySnapshotOpenReplay },
    Lease { open: RepositorySnapshotOpenReplay, lease_event: EventEnvelope },
}

/// Where the snapshot of a run stands.
#[derive(Debug)]
pub enum RepositorySnapshotLifecycleReplay {
    Absent,
    Open(RepositorySnapshotOpenReplay),
    Active { open: RepositorySnapshotOpenReplay, lease_event: EventEnvelope },
    PendingCleanup {
        target: RepositorySnapshotCleanupTargetReplay,
        grants: Vec<EventEnvelope>,
    },
    ClosedCapture { open: RepositorySnapshotOpenReplay, abandonment_event: EventEnvelope },
    ClosedLease { open: RepositorySnapshotOpenReplay, closure_event: EventEnvelope },
}

} // verus!

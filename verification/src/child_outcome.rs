//! The attempts of a child and how they end.

use vstd::prelude::*;
use crate::artifact::{ArtifactRef};
use crate::digest::{Sha256Digest};
use crate::identity::{CancellationRequestId, ChildAttemptId, ChildExecutionId, ChildWorkOrderId, EventId};
use crate::run::{RetryDisposition};

verus! {

/// The attempt that a child event belongs to.
#[derive(Clone, Copy, Debug, PartialEq, Eq, Structural)]
pub struct ChildExecutionBinding {
    pub work_order_id: ChildWorkOrderId,
    pub execution_id: ChildExecutionId,
    pub attempt_id: ChildAttemptId,
}

/// The cancellation request behind a cancelled effect.
#[derive(Clone, Copy, Debug, PartialEq, Eq, Structural)]
pub struct ChildCancellationCauseV1 {
    pub request_event_id: EventId,
    pub request_id: CancellationRequestId,
    pub cancellation_generation: u64,
}

/// What an execution of a child failed on.
#[derive(Clone, Copy, Debug, PartialEq, Eq, Structural)]
pub enum ChildExecutionFailureKind {
    Model,
    Tool,
    Runtime,
}

/// The durable cause of a failed execution.
#[derive(Debug)]
pub enum ChildExecutionFailureCauseV1 {
    ModelTerminal { terminal_event_id: EventId },
    ToolTerminal { terminal_event_id: EventId },
    RuntimeEvidence { evidence_artifact: ArtifactRef, evidence_digest: Sha256Digest },
}

impl PartialEq for ChildExecutionFailureCauseV1 {
    fn eq(&self, other: &Self) -> (r: bool) {
        match (self, other) {
            (ChildExecutionFailureCauseV1::ModelTerminal { terminal_event_id }, ChildExecutionFailureCauseV1::ModelTerminal { terminal_event_id: other_terminal_event_id }) => {
                terminal_event_id == other_terminal_event_id
            },
            (ChildExecutionFailureCauseV1::ToolTerminal { terminal_event_id }, ChildExecutionFailureCauseV1::ToolTerminal { terminal_event_id: other_terminal_event_id }) => {
                terminal_event_id == other_terminal_event_id
            },
            (ChildExecutionFailureCauseV1::RuntimeEvidence { evidence_artifact, evidence_digest }, ChildExecutionFailureCauseV1::RuntimeEvidence { evidence_artifact: other_evidence_artifact, evidence_digest: other_evidence_digest }) => {
                evidence_artifact == other_evidence_artifact
                    && evidence_digest == other_evidence_digest
            },
            _ => false,
        }
    }
}

impl Eq for ChildExecutionFailureCauseV1 {
}

impl vstd::std_specs::cmp::PartialEqSpecImpl for ChildExecutionFailureCauseV1 {
    open spec fn obeys_eq_spec() -> bool {
        true
    }

    open spec fn eq_spec(&self, other: &Self) -> bool {
        match (self, other) {
            (ChildExecutionFailureCauseV1::ModelTerminal { terminal_event_id }, ChildExecutionFailureCauseV1::ModelTerminal { terminal_event_id: other_terminal_event_id }) => {
                &&& terminal_event_id == other_terminal_event_id
            },
            (ChildExecutionFailureCauseV1::ToolTerminal { terminal_event_id }, ChildExecutionFailureCauseV1::ToolTerminal { terminal_event_id: other_terminal_event_id }) => {
                &&& terminal_event_id == other_terminal_event_id
            },
            (ChildExecutionFailureCauseV1::RuntimeEvidence { evidence_artifact, evidence_digest }, ChildExecutionFailureCauseV1::RuntimeEvidence { evidence_artifact: other_evidence_artifact, evidence_digest: other_evidence_digest }) => {
                &&& vstd::std_specs::cmp::PartialEqSpec::eq_spec(evidence_artifact, other_evidence_artifact)
                &&& vstd::std_specs::cmp::PartialEqSpec::eq_spec(evidence_digest, other_evidence_digest)
            },
            _ => false,
        }
    }
}

impl Clone for ChildExecutionFailureCauseV1 {
    fn clone(&self) -> (r: Self)
        ensures
            r == *self,
    {
        match self {
            ChildExecutionFailureCauseV1::ModelTerminal { terminal_event_id } => ChildExecutionFailureCauseV1::ModelTerminal {
                terminal_event_id: *terminal_event_id,
            },
            ChildExecutionFailureCauseV1::ToolTerminal { terminal_event_id } => ChildExecutionFailureCauseV1::ToolTerminal {
                terminal_event_id: *terminal_event_id,
            },
            ChildExecutionFailureCauseV1::RuntimeEvidence { evidence_artifact, evidence_digest } => ChildExecutionFailureCauseV1::RuntimeEvidence {
                evidence_artifact: evidence_artifact.clone(),
                evidence_digest: evidence_digest.clone(),
            },
        }
    }
}

/// How an execution of a child ended.
#[derive(Debug)]
pub enum ChildExecutionOutcome {
    Succeeded,
    Failed { kind: ChildExecutionFailureKind, retry: RetryDisposition, cause: ChildExecutionFailureCauseV1 },
    Cancelled { cause: ChildCancellationCauseV1 },
}

impl PartialEq for ChildExecutionOutcome {
    fn eq(&self, other: &Self) -> (r: bool) {
        match (self, other) {
            (ChildExecutionOutcome::Succeeded, ChildExecutionOutcome::Succeeded) => true,
            (ChildExecutionOutcome::Failed { kind, retry, cause }, ChildExecutionOutcome::Failed { kind: other_kind, retry: other_retry, cause: other_cause }) => {
                kind == other_kind
                    && retry == other_retry
                    && cause == other_cause
            },
            (ChildExecutionOutcome::Cancelled { cause }, ChildExecutionOutcome::Cancelled { cause: other_cause }) => {
                cause == other_cause
            },
            _ => false,
        }
    }
}

impl Eq for ChildExecutionOutcome {
}

impl vstd::std_specs::cmp::PartialEqSpecImpl for ChildExecutionOutcome {
    open spec fn obeys_eq_spec() -> bool {
        true
    }

    open spec fn eq_spec(&self, other: &Self) -> bool {
        match (self, other) {
            (ChildExecutionOutcome::Succeeded, ChildExecutionOutcome::Succeeded) => true,
            (ChildExecutionOutcome::Failed { kind, retry, cause }, ChildExecutionOutcome::Failed { kind: other_kind, retry: other_retry, cause: other_cause }) => {
                &&& kind == other_kind
                &&& retry == other_retry
                &&& vstd::std_specs::cmp::PartialEqSpec::eq_spec(cause, other_cause)
            },
            (ChildExecutionOutcome::Cancelled { cause }, ChildExecutionOutcome::Cancelled { cause: other_cause }) => {
                &&& cause == other_cause
            },
            _ => false,
        }
    }
}

impl Clone for ChildExecutionOutcome {
    fn clone(&self) -> (r: Self)
        ensures
            r == *self,
    {
        match self {
            ChildExecutionOutcome::Succeeded => ChildExecutionOutcome::Succeeded,
            ChildExecutionOutcome::Failed { kind, retry, cause } => ChildExecutionOutcome::Failed {
                kind: *kind,
                retry: *retry,
                cause: cause.clone(),
            },
            ChildExecutionOutcome::Cancelled { cause } => ChildExecutionOutcome::Cancelled {
                cause: *cause,
            },
        }
    }
}

} // verus!

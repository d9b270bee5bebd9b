//! What the history of one child amounts to.

use vstd::prelude::*;
use crate::child::ChildWorkOrderSpec;
use crate::child_outcome::ChildExecutionOutcome;
use crate::clock::{RuntimeClockReading, Timestamp};
use crate::event::EventEnvelope;
use crate::identity::{
    ChildAttemptId, ChildLocalPlanId, EventId, RunClaimId, RuntimeInstanceId,
};

verus! {

/// Where a work order stands.
#[derive(Clone, Copy, Debug, PartialEq, Eq, Structural)]
pub enum ChildWorkOrderState {
    Issued,
    Running,
    Succeeded,
    Failed,
    Cancelled,
}

/// What the child's runtime has to do next.
#[derive(Clone, Copy, Debug, PartialEq, Eq, Structural)]
pub enum ChildRecoveryState {
    ReadyForAttempt,
    ReadyForModel,
    EffectInFlight,
    Terminal { terminal_event_id: EventId },
}

/// One attempt of a child.
#[derive(Debug)]
pub struct ChildAttemptProjection {
    pub attempt_id: ChildAttemptId,
    pub local_plan_id: ChildLocalPlanId,
    pub started_event_id: EventId,
    pub started_at: RuntimeClockReading,
    pub terminal_event_id: Option<EventId>,
    pub outcome: Option<ChildExecutionOutcome>,
}

/// The claim that a child executes under.
#[derive(Clone, Copy, Debug, PartialEq, Eq, Structural)]
pub struct ChildActiveClaim {
    pub event_id: EventId,
    pub claim_id: RunClaimId,
    pub generation: u64,
    pub runtime_instance_id: RuntimeInstanceId,
    pub cancellation_generation: u64,
    pub lease_expires_at: Timestamp,
}

/// A work order as its history has it.
#[derive(Debug)]
pub struct ChildWorkOrderProjection {
    pub issued_event: EventEnvelope,
    pub spec: ChildWorkOrderSpec,
    pub state: ChildWorkOrderState,
    pub recovery: ChildRecoveryState,
    pub attempts: Vec<ChildAttemptProjection>,
}

/// The replayed history of a child.
#[derive(Debug)]
pub struct ChildReplay {
    pub spec: ChildWorkOrderSpec,
    pub active_claim: ChildActiveClaim,
    pub attempts: Vec<ChildAttemptProjection>,
}

} // verus!

//! Sessions, runs and the claims held on runs.

use vstd::prelude::*;
use crate::artifact::{ArtifactRef, BackendSelection};
use crate::clock::{Timestamp};
use crate::identity::{CancellationRequestId, RunClaimId, RunId, RuntimeInstanceId, SessionId, TokenReservationId};
use crate::text::{Text};

verus! {

/// What a run is for.
#[derive(Clone, Copy, Debug, PartialEq, Eq, Structural)]
pub enum RunPurpose {
    General,
    RootPlanningV1,
    ParallelRepositoryReconnaissanceV1,
}

/// The durable state of a run.
#[derive(Clone, Copy, Debug, PartialEq, Eq, Structural)]
pub enum RunState {
    Queued,
    Running,
    Waiting,
    Completed,
    Failed,
    Cancelled,
}

/// How a plan of a run becomes accepted.
#[derive(Clone, Copy, Debug, PartialEq, Eq, Structural)]
pub enum PlanAcceptanceContract {
    LegacyMechanicalOnlyV4,
    IndependentSemanticReviewV1,
}

/// One item of user input.
#[derive(Debug)]
pub enum InputItem {
    Text { text: Text },
    Artifact { artifact: ArtifactRef },
}

impl PartialEq for InputItem {
    fn eq(&self, other: &Self) -> (r: bool) {
        match (self, other) {
            (InputItem::Text { text }, InputItem::Text { text: other_text }) => {
                text == other_text
            },
            (InputItem::Artifact { artifact }, InputItem::Artifact { artifact: other_artifact }) => {
                artifact == other_artifact
            },
            _ => false,
        }
    }
}

impl Eq for InputItem {
}

impl vstd::std_specs::cmp::PartialEqSpecImpl for InputItem {
    open spec fn obeys_eq_spec() -> bool {
        true
    }

    open spec fn eq_spec(&self, other: &Self) -> bool {
        match (self, other) {
            (InputItem::Text { text }, InputItem::Text { text: other_text }) => {
                &&& vstd::std_specs::cmp::PartialEqSpec::eq_spec(text, other_text)
            },
            (InputItem::Artifact { artifact }, InputItem::Artifact { artifact: other_artifact }) => {
                &&& vstd::std_specs::cmp::PartialEqSpec::eq_spec(artifact, other_artifact)
            },
            _ => false,
        }
    }
}

impl Clone for InputItem {
    fn clone(&self) -> (r: Self)
        ensures
            r == *self,
    {
        match self {
            InputItem::Text { text } => InputItem::Text {
                text: text.clone(),
            },
            InputItem::Artifact { artifact } => InputItem::Artifact {
                artifact: artifact.clone(),
            },
        }
    }
}

/// The limits that a run was created with.
#[derive(Clone, Copy, Debug, PartialEq, Eq, Structural)]
pub struct RunLimits {
    pub max_output_tokens: Option<u64>,
    pub max_wall_time_seconds: Option<u64>,
    pub max_subagents: u32,
}

/// What a run was asked to do.
#[derive(Clone, Debug)]
pub struct RunSpec {
    pub session_id: SessionId,
    pub purpose: RunPurpose,
    pub plan_acceptance: PlanAcceptanceContract,
    pub backend: BackendSelection,
    pub input: Vec<InputItem>,
    pub limits: RunLimits,
}

impl PartialEq for RunSpec {
    fn eq(&self, other: &Self) -> (r: bool) {
        self.session_id == other.session_id
            && self.purpose == other.purpose
            && self.plan_acceptance == other.plan_acceptance
            && self.backend == other.backend
            && self.input == other.input
            && self.limits == other.limits
    }
}

impl Eq for RunSpec {
}

impl vstd::std_specs::cmp::PartialEqSpecImpl for RunSpec {
    open spec fn obeys_eq_spec() -> bool {
        true
    }

    open spec fn eq_spec(&self, other: &Self) -> bool {
        &&& self.session_id == other.session_id
        &&& self.purpose == other.purpose
        &&& self.plan_acceptance == other.plan_acceptance
        &&& vstd::std_specs::cmp::PartialEqSpec::eq_spec(&self.backend, &other.backend)
        &&& vstd::std_specs::cmp::PartialEqSpec::eq_spec(&self.input, &other.input)
        &&& self.limits == other.limits
    }
}

/// A run as it was created.
#[derive(Clone, Debug)]
pub struct Run {
    pub id: RunId,
    pub spec: RunSpec,
    pub state: RunState,
    pub created_at: Timestamp,
}

impl PartialEq for Run {
    fn eq(&self, other: &Self) -> (r: bool) {
        self.id == other.id
            && self.spec == other.spec
            && self.state == other.state
            && self.created_at == other.created_at
    }
}

impl Eq for Run {
}

impl vstd::std_specs::cmp::PartialEqSpecImpl for Run {
    open spec fn obeys_eq_spec() -> bool {
        true
    }

    open spec fn eq_spec(&self, other: &Self) -> bool {
        &&& self.id == other.id
        &&& vstd::std_specs::cmp::PartialEqSpec::eq_spec(&self.spec, &other.spec)
        &&& self.state == other.state
        &&& self.created_at == other.created_at
    }
}

/// A session and the workspace it works in.
#[derive(Debug)]
pub struct Session {
    pub id: SessionId,
    pub workspace_root: Text,
    pub title: Option<Text>,
    pub created_at: Timestamp,
}

impl PartialEq for Session {
    fn eq(&self, other: &Self) -> (r: bool) {
        self.id == other.id
            && self.workspace_root == other.workspace_root
            && self.title == other.title
            && self.created_at == other.created_at
    }
}

impl Eq for Session {
}

impl vstd::std_specs::cmp::PartialEqSpecImpl for Session {
    open spec fn obeys_eq_spec() -> bool {
        true
    }

    open spec fn eq_spec(&self, other: &Self) -> bool {
        &&& self.id == other.id
        &&& vstd::std_specs::cmp::PartialEqSpec::eq_spec(&self.workspace_root, &other.workspace_root)
        &&& vstd::std_specs::cmp::PartialEqSpec::eq_spec(&self.title, &other.title)
        &&& self.created_at == other.created_at
    }
}

impl Clone for Session {
    fn clone(&self) -> (r: Self)
        ensures
            r == *self,
    {
        Session {
            id: self.id,
            workspace_root: self.workspace_root.clone(),
            title: self.title.clone(),
            created_at: self.created_at,
        }
    }
}

/// A lease on a run, held by one runtime until it expires.
#[derive(Clone, Copy, Debug, PartialEq, Eq, Structural)]
pub struct RunClaimed {
    pub claim_id: RunClaimId,
    pub runtime_instance_id: RuntimeInstanceId,
    pub claim_generation: u64,
    pub cancellation_generation: u64,
    pub lease_expires_at: Timestamp,
}

/// A request to cancel a run.
#[derive(Clone, Copy, Debug, PartialEq, Eq, Structural)]
pub struct CancellationRequested {
    pub cancellation_request_id: CancellationRequestId,
    pub cancellation_generation: u64,
}

/// The tokens set aside for one model call.
#[derive(Clone, Copy, Debug, PartialEq, Eq, Structural)]
pub struct TokenReservation {
    pub id: TokenReservationId,
    pub reserved_tokens: u64,
    pub max_output_tokens: u64,
}

/// The tokens that one model call used.
#[derive(Clone, Copy, Debug, PartialEq, Eq, Structural)]
pub struct TokenUsage {
    pub input_tokens: u64,
    pub output_tokens: u64,
    pub total_tokens: u64,
    pub cached_input_tokens: Option<u64>,
}

/// How much a model is asked to reason.
#[derive(Clone, Copy, Debug, PartialEq, Eq, Structural)]
pub enum ReasoningSetting {
    Off,
    On,
    Low,
    Medium,
    High,
}

/// Whether a failed call may be tried again.
#[derive(Clone, Copy, Debug, PartialEq, Eq, Structural)]
pub enum RetryDisposition {
    Never,
    RequiresNewAttempt,
}

} // verus!

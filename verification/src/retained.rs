//! Documents that planning events retain.

use vstd::prelude::*;
use crate::artifact::{ModelLineage};
use crate::clock::{RuntimeClockReading};
use crate::digest::{Sha256Digest};
use crate::identity::{EventId, InferenceAttemptId, RunClaimId, RunId, SessionId};
use crate::inference_identity::BackendErrorOrigin;
use crate::planning::{PlanCandidateBinding, PlannerInferenceErrorKind, RootPlanningFailurePhase, RootPlanningFailureReason, RootPlanningModelSubject, RootPlanningStage, RootPlanningStageFailureReason, UnknownInferenceBoundary};
use crate::run::{InputItem, ReasoningSetting, RetryDisposition, TokenUsage};
use crate::text::{Text};

verus! {

/// Why planning failed before its first inference, as retained.
#[derive(Debug)]
pub struct RetainedRootPlanningFailureEvidence {
    pub schema_version: u32,
    pub run_id: RunId,
    pub claim_event_id: EventId,
    pub claim_id: RunClaimId,
    pub phase: RootPlanningFailurePhase,
    pub reason: RootPlanningFailureReason,
    pub model_subject: Option<RootPlanningModelSubject>,
}

impl PartialEq for RetainedRootPlanningFailureEvidence {
    fn eq(&self, other: &Self) -> (r: bool) {
        self.schema_version == other.schema_version
            && self.run_id == other.run_id
            && self.claim_event_id == other.claim_event_id
            && self.claim_id == other.claim_id
            && self.phase == other.phase
            && self.reason == other.reason
            && self.model_subject == other.model_subject
    }
}

impl Eq for RetainedRootPlanningFailureEvidence {
}

impl vstd::std_specs::cmp::PartialEqSpecImpl for RetainedRootPlanningFailureEvidence {
    open spec fn obeys_eq_spec() -> bool {
        true
    }

    open spec fn eq_spec(&self, other: &Self) -> bool {
        &&& self.schema_version == other.schema_version
        &&& self.run_id == other.run_id
        &&& self.claim_event_id == other.claim_event_id
        &&& self.claim_id == other.claim_id
        &&& self.phase == other.phase
        &&& self.reason == other.reason
        &&& vstd::std_specs::cmp::PartialEqSpec::eq_spec(&self.model_subject, &other.model_subject)
    }
}

impl Clone for RetainedRootPlanningFailureEvidence {
    fn clone(&self) -> (r: Self)
        ensures
            r == *self,
    {
        RetainedRootPlanningFailureEvidence {
            schema_version: self.schema_version,
            run_id: self.run_id,
            claim_event_id: self.claim_event_id,
            claim_id: self.claim_id,
            phase: self.phase,
            reason: self.reason,
            model_subject: self.model_subject.clone(),
        }
    }
}

/// Why a planning stage failed, as retained.
#[derive(Debug)]
pub struct RetainedRootPlanningStageFailureEvidence {
    pub schema_version: u32,
    pub run_id: RunId,
    pub failed_stage: RootPlanningStage,
    pub predecessor_event_id: EventId,
    pub execution_policy_sha256: Sha256Digest,
    pub reason: RootPlanningStageFailureReason,
    pub model_subject: RootPlanningModelSubject,
}

impl PartialEq for RetainedRootPlanningStageFailureEvidence {
    fn eq(&self, other: &Self) -> (r: bool) {
        self.schema_version == other.schema_version
            && self.run_id == other.run_id
            && self.failed_stage == other.failed_stage
            && self.predecessor_event_id == other.predecessor_event_id
            && self.execution_policy_sha256 == other.execution_policy_sha256
            && self.reason == other.reason
            && self.model_subject == other.model_subject
    }
}

impl Eq for RetainedRootPlanningStageFailureEvidence {
}

impl vstd::std_specs::cmp::PartialEqSpecImpl for RetainedRootPlanningStageFailureEvidence {
    open spec fn obeys_eq_spec() -> bool {
        true
    }

    open spec fn eq_spec(&self, other: &Self) -> bool {
        &&& self.schema_version == other.schema_version
        &&& self.run_id == other.run_id
        &&& self.failed_stage == other.failed_stage
        &&& self.predecessor_event_id == other.predecessor_event_id
        &&& vstd::std_specs::cmp::PartialEqSpec::eq_spec(&self.execution_policy_sha256, &other.execution_policy_sha256)
        &&& self.reason == other.reason
        &&& vstd::std_specs::cmp::PartialEqSpec::eq_spec(&self.model_subject, &other.model_subject)
    }
}

impl Clone for RetainedRootPlanningStageFailureEvidence {
    fn clone(&self) -> (r: Self)
        ensures
            r == *self,
    {
        RetainedRootPlanningStageFailureEvidence {
            schema_version: self.schema_version,
            run_id: self.run_id,
            failed_stage: self.failed_stage,
            predecessor_event_id: self.predecessor_event_id,
            execution_policy_sha256: self.execution_policy_sha256.clone(),
            reason: self.reason,
            model_subject: self.model_subject.clone(),
        }
    }
}

/// The output that each stage may use.
#[derive(Clone, Copy, Debug, PartialEq, Eq, Structural)]
pub struct RootPlanningStageBudgets {
    pub initial_plan_output_tokens: u64,
    pub initial_review_output_tokens: u64,
    pub repair_output_tokens: u64,
    pub final_review_output_tokens: u64,
}

/// The prompt that each kind of stage is bound to.
#[derive(Debug)]
pub struct RootPlanningPromptContracts {
    pub initial_plan_manifest_sha256: Sha256Digest,
    pub critic_manifest_sha256: Sha256Digest,
    pub repair_manifest_sha256: Sha256Digest,
}

impl PartialEq for RootPlanningPromptContracts {
    fn eq(&self, other: &Self) -> (r: bool) {
        self.initial_plan_manifest_sha256 == other.initial_plan_manifest_sha256
            && self.critic_manifest_sha256 == other.critic_manifest_sha256
            && self.repair_manifest_sha256 == other.repair_manifest_sha256
    }
}

impl Eq for RootPlanningPromptContracts {
}

impl vstd::std_specs::cmp::PartialEqSpecImpl for RootPlanningPromptContracts {
    open spec fn obeys_eq_spec() -> bool {
        true
    }

    open spec fn eq_spec(&self, other: &Self) -> bool {
        &&& vstd::std_specs::cmp::PartialEqSpec::eq_spec(&self.initial_plan_manifest_sha256, &other.initial_plan_manifest_sha256)
        &&& vstd::std_specs::cmp::PartialEqSpec::eq_spec(&self.critic_manifest_sha256, &other.critic_manifest_sha256)
        &&& vstd::std_specs::cmp::PartialEqSpec::eq_spec(&self.repair_manifest_sha256, &other.repair_manifest_sha256)
    }
}

impl Clone for RootPlanningPromptContracts {
    fn clone(&self) -> (r: Self)
        ensures
            r == *self,
    {
        RootPlanningPromptContracts {
            initial_plan_manifest_sha256: self.initial_plan_manifest_sha256.clone(),
            critic_manifest_sha256: self.critic_manifest_sha256.clone(),
            repair_manifest_sha256: self.repair_manifest_sha256.clone(),
        }
    }
}

/// The policy under which all stages of one run execute.
#[derive(Debug)]
pub struct RootPlanningExecutionPolicy {
    pub schema_version: u32,
    pub max_model_calls: u32,
    pub max_repairs: u32,
    pub max_review_rounds: u32,
    pub stage_budgets: RootPlanningStageBudgets,
    pub prompt_contracts: RootPlanningPromptContracts,
    pub producer: ModelLineage,
    pub critic: ModelLineage,
}

impl PartialEq for RootPlanningExecutionPolicy {
    fn eq(&self, other: &Self) -> (r: bool) {
        self.schema_version == other.schema_version
            && self.max_model_calls == other.max_model_calls
            && self.max_repairs == other.max_repairs
            && self.max_review_rounds == other.max_review_rounds
            && self.stage_budgets == other.stage_budgets
            && self.prompt_contracts == other.prompt_contracts
            && self.producer == other.producer
            && self.critic == other.critic
    }
}

impl Eq for RootPlanningExecutionPolicy {
}

impl vstd::std_specs::cmp::PartialEqSpecImpl for RootPlanningExecutionPolicy {
    open spec fn obeys_eq_spec() -> bool {
        true
    }

    open spec fn eq_spec(&self, other: &Self) -> bool {
        &&& self.schema_version == other.schema_version
        &&& self.max_model_calls == other.max_model_calls
        &&& self.max_repairs == other.max_repairs
        &&& self.max_review_rounds == other.max_review_rounds
        &&& self.stage_budgets == other.stage_budgets
        &&& vstd::std_specs::cmp::PartialEqSpec::eq_spec(&self.prompt_contracts, &other.prompt_contracts)
        &&& vstd::std_specs::cmp::PartialEqSpec::eq_spec(&self.producer, &other.producer)
        &&& vstd::std_specs::cmp::PartialEqSpec::eq_spec(&self.critic, &other.critic)
    }
}

impl Clone for RootPlanningExecutionPolicy {
    fn clone(&self) -> (r: Self)
        ensures
            r == *self,
    {
        RootPlanningExecutionPolicy {
            schema_version: self.schema_version,
            max_model_calls: self.max_model_calls,
            max_repairs: self.max_repairs,
            max_review_rounds: self.max_review_rounds,
            stage_budgets: self.stage_budgets,
            prompt_contracts: self.prompt_contracts.clone(),
            producer: self.producer.clone(),
            critic: self.critic.clone(),
        }
    }
}

/// The boundary at which an inference was abandoned, as retained.
#[derive(Clone, Copy, Debug, PartialEq, Eq, Structural)]
pub struct RetainedCancellationBoundaryEvidence {
    pub prepared_event_id: EventId,
    pub cancellation_generation: u64,
    pub reason: UnknownInferenceBoundary,
}

/// Why a prepared call was never sent.
#[derive(Clone, Copy, Debug, PartialEq, Eq, Structural)]
pub enum PlannerV2NotDispatchedReason {
    DeadlineElapsed,
    RuntimeShutdown,
    SchedulerClosed,
    ClaimLost,
    CancellationRequested,
    RequestContextExceeded,
    ModelProfileDrift,
    BackendInstanceDrift,
}

/// The usage that a response reports.
#[derive(Clone, Copy, Debug, PartialEq, Eq, Structural)]
pub struct ResponseUsage {
    pub input_tokens: Option<u64>,
    pub output_tokens: Option<u64>,
    pub total_tokens: Option<u64>,
}

/// A model's response: its text, the JSON value that the backend read in it, and what it reports of
/// itself. `evidence_matches` is whether its evidence matches the backend behind the name that the
/// prepared call bears.
#[derive(Debug)]
pub struct StructuredInferenceResponse {
    pub model_id: Text,
    pub backend_id: Text,
    pub usage: Option<ResponseUsage>,
    pub normalized_usage: Option<TokenUsage>,
    pub raw_text: Text,
    pub value: Text,
    pub evidence_matches: bool,
}

impl PartialEq for StructuredInferenceResponse {
    fn eq(&self, other: &Self) -> (r: bool) {
        self.model_id == other.model_id
            && self.backend_id == other.backend_id
            && self.usage == other.usage
            && self.normalized_usage == other.normalized_usage
            && self.raw_text == other.raw_text
            && self.value == other.value
            && self.evidence_matches == other.evidence_matches
    }
}

impl Eq for StructuredInferenceResponse {
}

impl vstd::std_specs::cmp::PartialEqSpecImpl for StructuredInferenceResponse {
    open spec fn obeys_eq_spec() -> bool {
        true
    }

    open spec fn eq_spec(&self, other: &Self) -> bool {
        &&& vstd::std_specs::cmp::PartialEqSpec::eq_spec(&self.model_id, &other.model_id)
        &&& vstd::std_specs::cmp::PartialEqSpec::eq_spec(&self.backend_id, &other.backend_id)
        &&& self.usage == other.usage
        &&& self.normalized_usage == other.normalized_usage
        &&& vstd::std_specs::cmp::PartialEqSpec::eq_spec(&self.raw_text, &other.raw_text)
        &&& vstd::std_specs::cmp::PartialEqSpec::eq_spec(&self.value, &other.value)
        &&& self.evidence_matches == other.evidence_matches
    }
}

impl Clone for StructuredInferenceResponse {
    fn clone(&self) -> (r: Self)
        ensures
            r == *self,
    {
        StructuredInferenceResponse {
            model_id: self.model_id.clone(),
            backend_id: self.backend_id.clone(),
            usage: self.usage,
            normalized_usage: self.normalized_usage,
            raw_text: self.raw_text.clone(),
            value: self.value.clone(),
            evidence_matches: self.evidence_matches,
        }
    }
}

/// A backend's error: where it comes from, with the kind and the retry that it amounts to.
#[derive(Debug)]
pub struct BackendErrorEvidence {
    pub origin: BackendErrorOrigin,
    pub structured_inference: bool,
    pub kind: PlannerInferenceErrorKind,
    pub retry: RetryDisposition,
}

impl PartialEq for BackendErrorEvidence {
    fn eq(&self, other: &Self) -> (r: bool) {
        self.origin == other.origin
            && self.structured_inference == other.structured_inference
            && self.kind == other.kind
            && self.retry == other.retry
    }
}

impl Eq for BackendErrorEvidence {
}

impl vstd::std_specs::cmp::PartialEqSpecImpl for BackendErrorEvidence {
    open spec fn obeys_eq_spec() -> bool {
        true
    }

    open spec fn eq_spec(&self, other: &Self) -> bool {
        &&& vstd::std_specs::cmp::PartialEqSpec::eq_spec(&self.origin, &other.origin)
        &&& self.structured_inference == other.structured_inference
        &&& self.kind == other.kind
        &&& self.retry == other.retry
    }
}

impl Clone for BackendErrorEvidence {
    fn clone(&self) -> (r: Self)
        ensures
            r == *self,
    {
        BackendErrorEvidence {
            origin: self.origin.clone(),
            structured_inference: self.structured_inference,
            kind: self.kind,
            retry: self.retry,
        }
    }
}

/// What is kept of the end of an inference.
#[derive(Debug)]
pub enum RetainedInferenceEvidence {
    Response { response: StructuredInferenceResponse },
    Error { error: BackendErrorEvidence },
    CancelledBeforeCall,
    NotDispatched { reason: PlannerV2NotDispatchedReason },
}

impl PartialEq for RetainedInferenceEvidence {
    fn eq(&self, other: &Self) -> (r: bool) {
        match (self, other) {
            (RetainedInferenceEvidence::Response { response }, RetainedInferenceEvidence::Response { response: other_response }) => {
                response == other_response
            },
            (RetainedInferenceEvidence::Error { error }, RetainedInferenceEvidence::Error { error: other_error }) => {
                error == other_error
            },
            (RetainedInferenceEvidence::CancelledBeforeCall, RetainedInferenceEvidence::CancelledBeforeCall) => true,
            (RetainedInferenceEvidence::NotDispatched { reason }, RetainedInferenceEvidence::NotDispatched { reason: other_reason }) => {
                reason == other_reason
            },
            _ => false,
        }
    }
}

impl Eq for RetainedInferenceEvidence {
}

impl vstd::std_specs::cmp::PartialEqSpecImpl for RetainedInferenceEvidence {
    open spec fn obeys_eq_spec() -> bool {
        true
    }

    open spec fn eq_spec(&self, other: &Self) -> bool {
        match (self, other) {
            (RetainedInferenceEvidence::Response { response }, RetainedInferenceEvidence::Response { response: other_response }) => {
                &&& vstd::std_specs::cmp::PartialEqSpec::eq_spec(response, other_response)
            },
            (RetainedInferenceEvidence::Error { error }, RetainedInferenceEvidence::Error { error: other_error }) => {
                &&& vstd::std_specs::cmp::PartialEqSpec::eq_spec(error, other_error)
            },
            (RetainedInferenceEvidence::CancelledBeforeCall, RetainedInferenceEvidence::CancelledBeforeCall) => true,
            (RetainedInferenceEvidence::NotDispatched { reason }, RetainedInferenceEvidence::NotDispatched { reason: other_reason }) => {
                &&& reason == other_reason
            },
            _ => false,
        }
    }
}

impl Clone for RetainedInferenceEvidence {
    fn clone(&self) -> (r: Self)
        ensures
            r == *self,
    {
        match self {
            RetainedInferenceEvidence::Response { response } => RetainedInferenceEvidence::Response {
                response: response.clone(),
            },
            RetainedInferenceEvidence::Error { error } => RetainedInferenceEvidence::Error {
                error: error.clone(),
            },
            RetainedInferenceEvidence::CancelledBeforeCall => RetainedInferenceEvidence::CancelledBeforeCall,
            RetainedInferenceEvidence::NotDispatched { reason } => RetainedInferenceEvidence::NotDispatched {
                reason: *reason,
            },
        }
    }
}

/// What a critic says of a plan.
#[derive(Clone, Copy, Debug, PartialEq, Eq, Structural)]
pub enum PlanCriticVerdict {
    Accept,
    Revise,
    Clarify,
    Escalate,
}

/// What validation makes of a critique.
#[derive(Clone, Copy, Debug, PartialEq, Eq, Structural)]
pub enum PlanSemanticReviewValidatedVerdict {
    Accept,
    Revise,
    Clarify,
    Escalate,
    ContractInvalid,
}

/// The receipt of a validated critique.
#[derive(Clone, Debug)]
pub struct PlanSemanticReviewValidationReceipt {
    pub schema_version: u32,
    pub inference_attempt_id: InferenceAttemptId,
    pub observed_event_id: EventId,
    pub candidate: PlanCandidateBinding,
    pub prompt_manifest_sha256: Sha256Digest,
    pub prompt_artifact_sha256: Sha256Digest,
    pub request_artifact_sha256: Sha256Digest,
    pub normalized_evidence_sha256: Sha256Digest,
    pub critic_policy_sha256: Sha256Digest,
    pub critique_sha256: Sha256Digest,
    pub verdict: PlanSemanticReviewValidatedVerdict,
    pub finding_ids: Vec<Text>,
}

impl PartialEq for PlanSemanticReviewValidationReceipt {
    fn eq(&self, other: &Self) -> (r: bool) {
        self.schema_version == other.schema_version
            && self.inference_attempt_id == other.inference_attempt_id
            && self.observed_event_id == other.observed_event_id
            && self.candidate == other.candidate
            && self.prompt_manifest_sha256 == other.prompt_manifest_sha256
            && self.prompt_artifact_sha256 == other.prompt_artifact_sha256
            && self.request_artifact_sha256 == other.request_artifact_sha256
            && self.normalized_evidence_sha256 == other.normalized_evidence_sha256
            && self.critic_policy_sha256 == other.critic_policy_sha256
            && self.critique_sha256 == other.critique_sha256
            && self.verdict == other.verdict
            && self.finding_ids == other.finding_ids
    }
}

impl Eq for PlanSemanticReviewValidationReceipt {
}

impl vstd::std_specs::cmp::PartialEqSpecImpl for PlanSemanticReviewValidationReceipt {
    open spec fn obeys_eq_spec() -> bool {
        true
    }

    open spec fn eq_spec(&self, other: &Self) -> bool {
        &&& self.schema_version == other.schema_version
        &&& self.inference_attempt_id == other.inference_attempt_id
        &&& self.observed_event_id == other.observed_event_id
        &&& vstd::std_specs::cmp::PartialEqSpec::eq_spec(&self.candidate, &other.candidate)
        &&& vstd::std_specs::cmp::PartialEqSpec::eq_spec(&self.prompt_manifest_sha256, &other.prompt_manifest_sha256)
        &&& vstd::std_specs::cmp::PartialEqSpec::eq_spec(&self.prompt_artifact_sha256, &other.prompt_artifact_sha256)
        &&& vstd::std_specs::cmp::PartialEqSpec::eq_spec(&self.request_artifact_sha256, &other.request_artifact_sha256)
        &&& vstd::std_specs::cmp::PartialEqSpec::eq_spec(&self.normalized_evidence_sha256, &other.normalized_evidence_sha256)
        &&& vstd::std_specs::cmp::PartialEqSpec::eq_spec(&self.critic_policy_sha256, &other.critic_policy_sha256)
        &&& vstd::std_specs::cmp::PartialEqSpec::eq_spec(&self.critique_sha256, &other.critique_sha256)
        &&& self.verdict == other.verdict
        &&& vstd::std_specs::cmp::PartialEqSpec::eq_spec(&self.finding_ids, &other.finding_ids)
    }
}

/// A critique; `body` is its canonical JSON.
#[derive(Clone, Debug)]
pub struct PlanCriticOutput {
    pub verdict: PlanCriticVerdict,
    pub finding_ids: Vec<Text>,
    pub body: Text,
}

impl PartialEq for PlanCriticOutput {
    fn eq(&self, other: &Self) -> (r: bool) {
        self.verdict == other.verdict
            && self.finding_ids == other.finding_ids
            && self.body == other.body
    }
}

impl Eq for PlanCriticOutput {
}

impl vstd::std_specs::cmp::PartialEqSpecImpl for PlanCriticOutput {
    open spec fn obeys_eq_spec() -> bool {
        true
    }

    open spec fn eq_spec(&self, other: &Self) -> bool {
        &&& self.verdict == other.verdict
        &&& vstd::std_specs::cmp::PartialEqSpec::eq_spec(&self.finding_ids, &other.finding_ids)
        &&& vstd::std_specs::cmp::PartialEqSpec::eq_spec(&self.body, &other.body)
    }
}

/// The policy that a critic reviews under; `body` is its canonical JSON.
#[derive(Debug)]
pub struct PlanCriticPolicy {
    pub critic_policy_sha256: Text,
    pub body: Text,
}

impl PartialEq for PlanCriticPolicy {
    fn eq(&self, other: &Self) -> (r: bool) {
        self.critic_policy_sha256 == other.critic_policy_sha256
            && self.body == other.body
    }
}

impl Eq for PlanCriticPolicy {
}

impl vstd::std_specs::cmp::PartialEqSpecImpl for PlanCriticPolicy {
    open spec fn obeys_eq_spec() -> bool {
        true
    }

    open spec fn eq_spec(&self, other: &Self) -> bool {
        &&& vstd::std_specs::cmp::PartialEqSpec::eq_spec(&self.critic_policy_sha256, &other.critic_policy_sha256)
        &&& vstd::std_specs::cmp::PartialEqSpec::eq_spec(&self.body, &other.body)
    }
}

impl Clone for PlanCriticPolicy {
    fn clone(&self) -> (r: Self)
        ensures
            r == *self,
    {
        PlanCriticPolicy {
            critic_policy_sha256: self.critic_policy_sha256.clone(),
            body: self.body.clone(),
        }
    }
}

/// The policy that a producer plans under; `body` is its canonical JSON.
#[derive(Debug)]
pub struct RootPlannerPolicy {
    pub root_snapshot_sha256: Text,
    pub planner_policy_sha256: Text,
    pub context_manifest_sha256: Text,
    pub body: Text,
}

impl PartialEq for RootPlannerPolicy {
    fn eq(&self, other: &Self) -> (r: bool) {
        self.root_snapshot_sha256 == other.root_snapshot_sha256
            && self.planner_policy_sha256 == other.planner_policy_sha256
            && self.context_manifest_sha256 == other.context_manifest_sha256
            && self.body == other.body
    }
}

impl Eq for RootPlannerPolicy {
}

impl vstd::std_specs::cmp::PartialEqSpecImpl for RootPlannerPolicy {
    open spec fn obeys_eq_spec() -> bool {
        true
    }

    open spec fn eq_spec(&self, other: &Self) -> bool {
        &&& vstd::std_specs::cmp::PartialEqSpec::eq_spec(&self.root_snapshot_sha256, &other.root_snapshot_sha256)
        &&& vstd::std_specs::cmp::PartialEqSpec::eq_spec(&self.planner_policy_sha256, &other.planner_policy_sha256)
        &&& vstd::std_specs::cmp::PartialEqSpec::eq_spec(&self.context_manifest_sha256, &other.context_manifest_sha256)
        &&& vstd::std_specs::cmp::PartialEqSpec::eq_spec(&self.body, &other.body)
    }
}

impl Clone for RootPlannerPolicy {
    fn clone(&self) -> (r: Self)
        ensures
            r == *self,
    {
        RootPlannerPolicy {
            root_snapshot_sha256: self.root_snapshot_sha256.clone(),
            planner_policy_sha256: self.planner_policy_sha256.clone(),
            context_manifest_sha256: self.context_manifest_sha256.clone(),
            body: self.body.clone(),
        }
    }
}

/// A plan that a producer wrote; `body` is its canonical JSON.
#[derive(Debug)]
pub struct RootPlannerOutput {
    pub root_snapshot_sha256: Text,
    pub planner_policy_sha256: Text,
    pub context_manifest_sha256: Text,
    pub body: Text,
}

impl PartialEq for RootPlannerOutput {
    fn eq(&self, other: &Self) -> (r: bool) {
        self.root_snapshot_sha256 == other.root_snapshot_sha256
            && self.planner_policy_sha256 == other.planner_policy_sha256
            && self.context_manifest_sha256 == other.context_manifest_sha256
            && self.body == other.body
    }
}

impl Eq for RootPlannerOutput {
}

impl vstd::std_specs::cmp::PartialEqSpecImpl for RootPlannerOutput {
    open spec fn obeys_eq_spec() -> bool {
        true
    }

    open spec fn eq_spec(&self, other: &Self) -> bool {
        &&& vstd::std_specs::cmp::PartialEqSpec::eq_spec(&self.root_snapshot_sha256, &other.root_snapshot_sha256)
        &&& vstd::std_specs::cmp::PartialEqSpec::eq_spec(&self.planner_policy_sha256, &other.planner_policy_sha256)
        &&& vstd::std_specs::cmp::PartialEqSpec::eq_spec(&self.context_manifest_sha256, &other.context_manifest_sha256)
        &&& vstd::std_specs::cmp::PartialEqSpec::eq_spec(&self.body, &other.body)
    }
}

impl Clone for RootPlannerOutput {
    fn clone(&self) -> (r: Self)
        ensures
            r == *self,
    {
        RootPlannerOutput {
            root_snapshot_sha256: self.root_snapshot_sha256.clone(),
            planner_policy_sha256: self.planner_policy_sha256.clone(),
            context_manifest_sha256: self.context_manifest_sha256.clone(),
            body: self.body.clone(),
        }
    }
}

/// What the durable run and session bind every stage to.
#[derive(Debug)]
pub struct AuthoritativeRootBindings {
    pub policy: RootPlannerPolicy,
    pub root_snapshot_sha256: Sha256Digest,
    pub obligation_snapshot_sha256: Sha256Digest,
    pub acceptance_policy_sha256: Sha256Digest,
    pub context_manifest_sha256: Sha256Digest,
    pub planner_policy_sha256: Sha256Digest,
}

impl PartialEq for AuthoritativeRootBindings {
    fn eq(&self, other: &Self) -> (r: bool) {
        self.policy == other.policy
            && self.root_snapshot_sha256 == other.root_snapshot_sha256
            && self.obligation_snapshot_sha256 == other.obligation_snapshot_sha256
            && self.acceptance_policy_sha256 == other.acceptance_policy_sha256
            && self.context_manifest_sha256 == other.context_manifest_sha256
            && self.planner_policy_sha256 == other.planner_policy_sha256
    }
}

impl Eq for AuthoritativeRootBindings {
}

impl vstd::std_specs::cmp::PartialEqSpecImpl for AuthoritativeRootBindings {
    open spec fn obeys_eq_spec() -> bool {
        true
    }

    open spec fn eq_spec(&self, other: &Self) -> bool {
        &&& vstd::std_specs::cmp::PartialEqSpec::eq_spec(&self.policy, &other.policy)
        &&& vstd::std_specs::cmp::PartialEqSpec::eq_spec(&self.root_snapshot_sha256, &other.root_snapshot_sha256)
        &&& vstd::std_specs::cmp::PartialEqSpec::eq_spec(&self.obligation_snapshot_sha256, &other.obligation_snapshot_sha256)
        &&& vstd::std_specs::cmp::PartialEqSpec::eq_spec(&self.acceptance_policy_sha256, &other.acceptance_policy_sha256)
        &&& vstd::std_specs::cmp::PartialEqSpec::eq_spec(&self.context_manifest_sha256, &other.context_manifest_sha256)
        &&& vstd::std_specs::cmp::PartialEqSpec::eq_spec(&self.planner_policy_sha256, &other.planner_policy_sha256)
    }
}

impl Clone for AuthoritativeRootBindings {
    fn clone(&self) -> (r: Self)
        ensures
            r == *self,
    {
        AuthoritativeRootBindings {
            policy: self.policy.clone(),
            root_snapshot_sha256: self.root_snapshot_sha256.clone(),
            obligation_snapshot_sha256: self.obligation_snapshot_sha256.clone(),
            acceptance_policy_sha256: self.acceptance_policy_sha256.clone(),
            context_manifest_sha256: self.context_manifest_sha256.clone(),
            planner_policy_sha256: self.planner_policy_sha256.clone(),
        }
    }
}

/// What is wrong with a plan that breaks its contract.
#[derive(Clone, Copy, Debug, PartialEq, Eq, Structural)]
pub enum RootPlannerRejectionClass {
    InvalidSchema,
    ProtectedAuthorityMutation,
    ObligationCoverageIncomplete,
    DependencyCycle,
    PolicyLimitExceeded,
}

/// A broken output contract: what it amounts to, and how it reads.
#[derive(Debug)]
pub struct PromptError {
    pub class: RootPlannerRejectionClass,
    pub message: Text,
}

impl PartialEq for PromptError {
    fn eq(&self, other: &Self) -> (r: bool) {
        self.class == other.class
            && self.message == other.message
    }
}

impl Eq for PromptError {
}

impl vstd::std_specs::cmp::PartialEqSpecImpl for PromptError {
    open spec fn obeys_eq_spec() -> bool {
        true
    }

    open spec fn eq_spec(&self, other: &Self) -> bool {
        &&& self.class == other.class
        &&& vstd::std_specs::cmp::PartialEqSpec::eq_spec(&self.message, &other.message)
    }
}

impl Clone for PromptError {
    fn clone(&self) -> (r: Self)
        ensures
            r == *self,
    {
        PromptError {
            class: self.class,
            message: self.message.clone(),
        }
    }
}

/// The outcome of the mechanical validation of a plan.
#[derive(Clone, Debug)]
pub struct RetainedPlanValidation {
    pub status: Text,
    pub violations: Vec<Text>,
}

impl PartialEq for RetainedPlanValidation {
    fn eq(&self, other: &Self) -> (r: bool) {
        self.status == other.status
            && self.violations == other.violations
    }
}

impl Eq for RetainedPlanValidation {
}

impl vstd::std_specs::cmp::PartialEqSpecImpl for RetainedPlanValidation {
    open spec fn obeys_eq_spec() -> bool {
        true
    }

    open spec fn eq_spec(&self, other: &Self) -> bool {
        &&& vstd::std_specs::cmp::PartialEqSpec::eq_spec(&self.status, &other.status)
        &&& vstd::std_specs::cmp::PartialEqSpec::eq_spec(&self.violations, &other.violations)
    }
}

/// How far a section of a prompt is trusted.
#[derive(Clone, Copy, Debug, PartialEq, Eq, Structural)]
pub enum TrustLevel {
    User,
    Repository,
    Tool,
}

/// Where a section of a prompt comes from.
#[derive(Clone, Copy, Debug, PartialEq, Eq, Structural)]
pub enum SectionSource {
    RunInput { run_id: RunId },
    SessionWorkspace { session_id: SessionId },
    PlanCandidate { run_id: RunId },
    Critique { event_id: EventId },
    RepairAssignment { event_id: EventId },
}

/// What a section of a prompt says; plans and critiques are their canonical JSON.
#[derive(Clone, Debug)]
pub enum SectionPayload {
    RunInput { session_id: SessionId, run_id: RunId, input: Vec<InputItem> },
    RepositoryIdentity { session_id: SessionId, workspace_path: Text },
    CandidatePlan { candidate_plan_sha256: Text, candidate: Text },
    CommittedCritique { critique_sha256: Text, critique: Text },
    RepairAssignment { schema_version: u32, triggering_review_event_id: EventId, candidate_plan_sha256: Text, critique_sha256: Text, critic_policy_sha256: Text, required_finding_ids: Vec<Text> },
}

impl PartialEq for SectionPayload {
    fn eq(&self, other: &Self) -> (r: bool) {
        match (self, other) {
            (SectionPayload::RunInput { session_id, run_id, input }, SectionPayload::RunInput { session_id: other_session_id, run_id: other_run_id, input: other_input }) => {
                session_id == other_session_id
                    && run_id == other_run_id
                    && input == other_input
            },
            (SectionPayload::RepositoryIdentity { session_id, workspace_path }, SectionPayload::RepositoryIdentity { session_id: other_session_id, workspace_path: other_workspace_path }) => {
                session_id == other_session_id
                    && workspace_path == other_workspace_path
            },
            (SectionPayload::CandidatePlan { candidate_plan_sha256, candidate }, SectionPayload::CandidatePlan { candidate_plan_sha256: other_candidate_plan_sha256, candidate: other_candidate }) => {
                candidate_plan_sha256 == other_candidate_plan_sha256
                    && candidate == other_candidate
            },
            (SectionPayload::CommittedCritique { critique_sha256, critique }, SectionPayload::CommittedCritique { critique_sha256: other_critique_sha256, critique: other_critique }) => {
                critique_sha256 == other_critique_sha256
                    && critique == other_critique
            },
            (SectionPayload::RepairAssignment { schema_version, triggering_review_event_id, candidate_plan_sha256, critique_sha256, critic_policy_sha256, required_finding_ids }, SectionPayload::RepairAssignment { schema_version: other_schema_version, triggering_review_event_id: other_triggering_review_event_id, candidate_plan_sha256: other_candidate_plan_sha256, critique_sha256: other_critique_sha256, critic_policy_sha256: other_critic_policy_sha256, required_finding_ids: other_required_finding_ids }) => {
                schema_version == other_schema_version
                    && triggering_review_event_id == other_triggering_review_event_id
                    && candidate_plan_sha256 == other_candidate_plan_sha256
                    && critique_sha256 == other_critique_sha256
                    && critic_policy_sha256 == other_critic_policy_sha256
                    && required_finding_ids == other_required_finding_ids
            },
            _ => false,
        }
    }
}

impl Eq for SectionPayload {
}

impl vstd::std_specs::cmp::PartialEqSpecImpl for SectionPayload {
    open spec fn obeys_eq_spec() -> bool {
        true
    }

    open spec fn eq_spec(&self, other: &Self) -> bool {
        match (self, other) {
            (SectionPayload::RunInput { session_id, run_id, input }, SectionPayload::RunInput { session_id: other_session_id, run_id: other_run_id, input: other_input }) => {
                &&& session_id == other_session_id
                &&& run_id == other_run_id
                &&& vstd::std_specs::cmp::PartialEqSpec::eq_spec(input, other_input)
            },
            (SectionPayload::RepositoryIdentity { session_id, workspace_path }, SectionPayload::RepositoryIdentity { session_id: other_session_id, workspace_path: other_workspace_path }) => {
                &&& session_id == other_session_id
                &&& vstd::std_specs::cmp::PartialEqSpec::eq_spec(workspace_path, other_workspace_path)
            },
            (SectionPayload::CandidatePlan { candidate_plan_sha256, candidate }, SectionPayload::CandidatePlan { candidate_plan_sha256: other_candidate_plan_sha256, candidate: other_candidate }) => {
                &&& vstd::std_specs::cmp::PartialEqSpec::eq_spec(candidate_plan_sha256, other_candidate_plan_sha256)
                &&& vstd::std_specs::cmp::PartialEqSpec::eq_spec(candidate, other_candidate)
            },
            (SectionPayload::CommittedCritique { critique_sha256, critique }, SectionPayload::CommittedCritique { critique_sha256: other_critique_sha256, critique: other_critique }) => {
                &&& vstd::std_specs::cmp::PartialEqSpec::eq_spec(critique_sha256, other_critique_sha256)
                &&& vstd::std_specs::cmp::PartialEqSpec::eq_spec(critique, other_critique)
            },
            (SectionPayload::RepairAssignment { schema_version, triggering_review_event_id, candidate_plan_sha256, critique_sha256, critic_policy_sha256, required_finding_ids }, SectionPayload::RepairAssignment { schema_version: other_schema_version, triggering_review_event_id: other_triggering_review_event_id, candidate_plan_sha256: other_candidate_plan_sha256, critique_sha256: other_critique_sha256, critic_policy_sha256: other_critic_policy_sha256, required_finding_ids: other_required_finding_ids }) => {
                &&& schema_version == other_schema_version
                &&& triggering_review_event_id == other_triggering_review_event_id
                &&& vstd::std_specs::cmp::PartialEqSpec::eq_spec(candidate_plan_sha256, other_candidate_plan_sha256)
                &&& vstd::std_specs::cmp::PartialEqSpec::eq_spec(critique_sha256, other_critique_sha256)
                &&& vstd::std_specs::cmp::PartialEqSpec::eq_spec(critic_policy_sha256, other_critic_policy_sha256)
                &&& vstd::std_specs::cmp::PartialEqSpec::eq_spec(required_finding_ids, other_required_finding_ids)
            },
            _ => false,
        }
    }
}

/// One section of a prompt.
#[derive(Clone, Debug)]
pub struct DataSection {
    pub name: Text,
    pub trust: TrustLevel,
    pub source: SectionSource,
    pub artifact_sha256: Option<Text>,
    pub event_id: Option<EventId>,
    pub payload: SectionPayload,
}

impl PartialEq for DataSection {
    fn eq(&self, other: &Self) -> (r: bool) {
        self.name == other.name
            && self.trust == other.trust
            && self.source == other.source
            && self.artifact_sha256 == other.artifact_sha256
            && self.event_id == other.event_id
            && self.payload == other.payload
    }
}

impl Eq for DataSection {
}

impl vstd::std_specs::cmp::PartialEqSpecImpl for DataSection {
    open spec fn obeys_eq_spec() -> bool {
        true
    }

    open spec fn eq_spec(&self, other: &Self) -> bool {
        &&& vstd::std_specs::cmp::PartialEqSpec::eq_spec(&self.name, &other.name)
        &&& self.trust == other.trust
        &&& self.source == other.source
        &&& vstd::std_specs::cmp::PartialEqSpec::eq_spec(&self.artifact_sha256, &other.artifact_sha256)
        &&& self.event_id == other.event_id
        &&& vstd::std_specs::cmp::PartialEqSpec::eq_spec(&self.payload, &other.payload)
    }
}

/// A constraint on a prompt; `payload` is its canonical JSON.
#[derive(Debug)]
pub struct RuntimeConstraint {
    pub name: Text,
    pub payload: Text,
}

impl PartialEq for RuntimeConstraint {
    fn eq(&self, other: &Self) -> (r: bool) {
        self.name == other.name
            && self.payload == other.payload
    }
}

impl Eq for RuntimeConstraint {
}

impl vstd::std_specs::cmp::PartialEqSpecImpl for RuntimeConstraint {
    open spec fn obeys_eq_spec() -> bool {
        true
    }

    open spec fn eq_spec(&self, other: &Self) -> bool {
        &&& vstd::std_specs::cmp::PartialEqSpec::eq_spec(&self.name, &other.name)
        &&& vstd::std_specs::cmp::PartialEqSpec::eq_spec(&self.payload, &other.payload)
    }
}

impl Clone for RuntimeConstraint {
    fn clone(&self) -> (r: Self)
        ensures
            r == *self,
    {
        RuntimeConstraint {
            name: self.name.clone(),
            payload: self.payload.clone(),
        }
    }
}

/// What a prompt is compiled from.
#[derive(Clone, Debug)]
pub struct PromptInvocation {
    pub sections: Vec<DataSection>,
    pub limit: u32,
    pub runtime_constraints: Vec<RuntimeConstraint>,
}

impl PartialEq for PromptInvocation {
    fn eq(&self, other: &Self) -> (r: bool) {
        self.sections == other.sections
            && self.limit == other.limit
            && self.runtime_constraints == other.runtime_constraints
    }
}

impl Eq for PromptInvocation {
}

impl vstd::std_specs::cmp::PartialEqSpecImpl for PromptInvocation {
    open spec fn obeys_eq_spec() -> bool {
        true
    }

    open spec fn eq_spec(&self, other: &Self) -> bool {
        &&& vstd::std_specs::cmp::PartialEqSpec::eq_spec(&self.sections, &other.sections)
        &&& self.limit == other.limit
        &&& vstd::std_specs::cmp::PartialEqSpec::eq_spec(&self.runtime_constraints, &other.runtime_constraints)
    }
}

/// Who speaks in a compiled prompt.
#[derive(Clone, Copy, Debug, PartialEq, Eq, Structural)]
pub enum PromptMessageRole {
    System,
    User,
}

/// What a compiled message holds: plain text, or a JSON value in its compact form, where it has one.
#[derive(Debug)]
pub enum MessageContent {
    Plain { text: Text },
    Json { compact: Option<Text> },
}

impl PartialEq for MessageContent {
    fn eq(&self, other: &Self) -> (r: bool) {
        match (self, other) {
            (MessageContent::Plain { text }, MessageContent::Plain { text: other_text }) => {
                text == other_text
            },
            (MessageContent::Json { compact }, MessageContent::Json { compact: other_compact }) => {
                compact == other_compact
            },
            _ => false,
        }
    }
}

impl Eq for MessageContent {
}

impl vstd::std_specs::cmp::PartialEqSpecImpl for MessageContent {
    open spec fn obeys_eq_spec() -> bool {
        true
    }

    open spec fn eq_spec(&self, other: &Self) -> bool {
        match (self, other) {
            (MessageContent::Plain { text }, MessageContent::Plain { text: other_text }) => {
                &&& vstd::std_specs::cmp::PartialEqSpec::eq_spec(text, other_text)
            },
            (MessageContent::Json { compact }, MessageContent::Json { compact: other_compact }) => {
                &&& vstd::std_specs::cmp::PartialEqSpec::eq_spec(compact, other_compact)
            },
            _ => false,
        }
    }
}

impl Clone for MessageContent {
    fn clone(&self) -> (r: Self)
        ensures
            r == *self,
    {
        match self {
            MessageContent::Plain { text } => MessageContent::Plain {
                text: text.clone(),
            },
            MessageContent::Json { compact } => MessageContent::Json {
                compact: compact.clone(),
            },
        }
    }
}

/// One message of a compiled prompt.
#[derive(Debug)]
pub struct CompiledMessage {
    pub role: PromptMessageRole,
    pub content: MessageContent,
}

impl PartialEq for CompiledMessage {
    fn eq(&self, other: &Self) -> (r: bool) {
        self.role == other.role
            && self.content == other.content
    }
}

impl Eq for CompiledMessage {
}

impl vstd::std_specs::cmp::PartialEqSpecImpl for CompiledMessage {
    open spec fn obeys_eq_spec() -> bool {
        true
    }

    open spec fn eq_spec(&self, other: &Self) -> bool {
        &&& self.role == other.role
        &&& vstd::std_specs::cmp::PartialEqSpec::eq_spec(&self.content, &other.content)
    }
}

impl Clone for CompiledMessage {
    fn clone(&self) -> (r: Self)
        ensures
            r == *self,
    {
        CompiledMessage {
            role: self.role,
            content: self.content.clone(),
        }
    }
}

/// A compiled prompt.
#[derive(Clone, Debug)]
pub struct CompiledPrompt {
    pub prompt: Text,
    pub content_sha256: Text,
    pub messages: Vec<CompiledMessage>,
    pub output_schema: Text,
    pub generation_schema: Text,
}

impl PartialEq for CompiledPrompt {
    fn eq(&self, other: &Self) -> (r: bool) {
        self.prompt == other.prompt
            && self.content_sha256 == other.content_sha256
            && self.messages == other.messages
            && self.output_schema == other.output_schema
            && self.generation_schema == other.generation_schema
    }
}

impl Eq for CompiledPrompt {
}

impl vstd::std_specs::cmp::PartialEqSpecImpl for CompiledPrompt {
    open spec fn obeys_eq_spec() -> bool {
        true
    }

    open spec fn eq_spec(&self, other: &Self) -> bool {
        &&& vstd::std_specs::cmp::PartialEqSpec::eq_spec(&self.prompt, &other.prompt)
        &&& vstd::std_specs::cmp::PartialEqSpec::eq_spec(&self.content_sha256, &other.content_sha256)
        &&& vstd::std_specs::cmp::PartialEqSpec::eq_spec(&self.messages, &other.messages)
        &&& vstd::std_specs::cmp::PartialEqSpec::eq_spec(&self.output_schema, &other.output_schema)
        &&& vstd::std_specs::cmp::PartialEqSpec::eq_spec(&self.generation_schema, &other.generation_schema)
    }
}

/// A compiled prompt and what it was compiled from, as retained.
#[derive(Clone, Debug)]
pub struct RetainedPromptEvidence {
    pub compiled_prompt: CompiledPrompt,
    pub prompt_invocation: PromptInvocation,
}

impl PartialEq for RetainedPromptEvidence {
    fn eq(&self, other: &Self) -> (r: bool) {
        self.compiled_prompt == other.compiled_prompt
            && self.prompt_invocation == other.prompt_invocation
    }
}

impl Eq for RetainedPromptEvidence {
}

impl vstd::std_specs::cmp::PartialEqSpecImpl for RetainedPromptEvidence {
    open spec fn obeys_eq_spec() -> bool {
        true
    }

    open spec fn eq_spec(&self, other: &Self) -> bool {
        &&& vstd::std_specs::cmp::PartialEqSpec::eq_spec(&self.compiled_prompt, &other.compiled_prompt)
        &&& vstd::std_specs::cmp::PartialEqSpec::eq_spec(&self.prompt_invocation, &other.prompt_invocation)
    }
}

/// Who speaks in a request.
#[derive(Clone, Copy, Debug, PartialEq, Eq, Structural)]
pub enum BackendMessageRole {
    System,
    User,
}

/// One message of a request.
#[derive(Debug)]
pub struct BackendMessage {
    pub role: BackendMessageRole,
    pub content: Text,
}

impl PartialEq for BackendMessage {
    fn eq(&self, other: &Self) -> (r: bool) {
        self.role == other.role
            && self.content == other.content
    }
}

impl Eq for BackendMessage {
}

impl vstd::std_specs::cmp::PartialEqSpecImpl for BackendMessage {
    open spec fn obeys_eq_spec() -> bool {
        true
    }

    open spec fn eq_spec(&self, other: &Self) -> bool {
        &&& self.role == other.role
        &&& vstd::std_specs::cmp::PartialEqSpec::eq_spec(&self.content, &other.content)
    }
}

impl Clone for BackendMessage {
    fn clone(&self) -> (r: Self)
        ensures
            r == *self,
    {
        BackendMessage {
            role: self.role,
            content: self.content.clone(),
        }
    }
}

/// A request for structured output.
#[derive(Clone, Debug)]
pub struct StructuredInferenceRequest {
    pub model_id: Text,
    pub messages: Vec<BackendMessage>,
    pub output_name: Text,
    pub output_schema: Text,
    pub generation_schema: Text,
    pub max_output_tokens: u32,
    pub reasoning: Option<ReasoningSetting>,
}

impl PartialEq for StructuredInferenceRequest {
    fn eq(&self, other: &Self) -> (r: bool) {
        self.model_id == other.model_id
            && self.messages == other.messages
            && self.output_name == other.output_name
            && self.output_schema == other.output_schema
            && self.generation_schema == other.generation_schema
            && self.max_output_tokens == other.max_output_tokens
            && self.reasoning == other.reasoning
    }
}

impl Eq for StructuredInferenceRequest {
}

impl vstd::std_specs::cmp::PartialEqSpecImpl for StructuredInferenceRequest {
    open spec fn obeys_eq_spec() -> bool {
        true
    }

    open spec fn eq_spec(&self, other: &Self) -> bool {
        &&& vstd::std_specs::cmp::PartialEqSpec::eq_spec(&self.model_id, &other.model_id)
        &&& vstd::std_specs::cmp::PartialEqSpec::eq_spec(&self.messages, &other.messages)
        &&& vstd::std_specs::cmp::PartialEqSpec::eq_spec(&self.output_name, &other.output_name)
        &&& vstd::std_specs::cmp::PartialEqSpec::eq_spec(&self.output_schema, &other.output_schema)
        &&& vstd::std_specs::cmp::PartialEqSpec::eq_spec(&self.generation_schema, &other.generation_schema)
        &&& self.max_output_tokens == other.max_output_tokens
        &&& self.reasoning == other.reasoning
    }
}

/// A request and its digest, as retained.
#[derive(Clone, Debug)]
pub struct RetainedInferenceRequest {
    pub request: StructuredInferenceRequest,
    pub request_sha256: Sha256Digest,
}

impl PartialEq for RetainedInferenceRequest {
    fn eq(&self, other: &Self) -> (r: bool) {
        self.request == other.request
            && self.request_sha256 == other.request_sha256
    }
}

impl Eq for RetainedInferenceRequest {
}

impl vstd::std_specs::cmp::PartialEqSpecImpl for RetainedInferenceRequest {
    open spec fn obeys_eq_spec() -> bool {
        true
    }

    open spec fn eq_spec(&self, other: &Self) -> bool {
        &&& vstd::std_specs::cmp::PartialEqSpec::eq_spec(&self.request, &other.request)
        &&& vstd::std_specs::cmp::PartialEqSpec::eq_spec(&self.request_sha256, &other.request_sha256)
    }
}

/// How a run ended with its planner.
#[derive(Clone, Copy, Debug, PartialEq, Eq, Structural)]
pub enum RetainedPlannerV2TerminalDisposition {
    Failed,
    Cancelled,
}

/// How a planner turn was finalized by ending the run, as retained.
#[derive(Clone, Copy, Debug, PartialEq, Eq, Structural)]
pub struct RetainedPlannerV2FinalizationEvidence {
    pub prepared_event_id: EventId,
    pub finalized_at: RuntimeClockReading,
    pub disposition: RetainedPlannerV2TerminalDisposition,
    pub terminal_event_id: EventId,
}

} // verus!

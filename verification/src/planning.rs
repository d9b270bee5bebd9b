//! Payloads of the root-planning events.

use vstd::prelude::*;
use crate::artifact::{ArtifactRef, BackendInstanceIdentity, BackendModelRef, ModelLineage};
use crate::digest::{Sha256Digest};
use crate::identity::{ActorId, EventId, InferenceAttemptId, PlanProposalId, PlanSemanticReviewId, RootPlanningStageFailureId, RunClaimId, TokenReservationId};
use crate::lifecycle_identity::LifecycleIdentities;
use crate::run::{RetryDisposition, TokenReservation, TokenUsage};
use crate::text::{Text};

verus! {

/// The part a model plays in root planning.
#[derive(Clone, Copy, Debug, PartialEq, Eq, Structural)]
pub enum RootPlanningModelRole {
    Producer,
    IndependentCritic,
}

/// The stages of root planning, in order.
#[derive(Clone, Copy, Debug, PartialEq, Eq, Structural)]
pub enum RootPlanningStage {
    InitialPlan,
    InitialReview,
    Repair,
    FinalReview,
}

/// The model that a failure is about.
#[derive(Debug)]
pub struct RootPlanningModelSubject {
    pub role: RootPlanningModelRole,
    pub lineage: ModelLineage,
}

impl PartialEq for RootPlanningModelSubject {
    fn eq(&self, other: &Self) -> (r: bool) {
        self.role == other.role
            && self.lineage == other.lineage
    }
}

impl Eq for RootPlanningModelSubject {
}

impl vstd::std_specs::cmp::PartialEqSpecImpl for RootPlanningModelSubject {
    open spec fn obeys_eq_spec() -> bool {
        true
    }

    open spec fn eq_spec(&self, other: &Self) -> bool {
        &&& self.role == other.role
        &&& vstd::std_specs::cmp::PartialEqSpec::eq_spec(&self.lineage, &other.lineage)
    }
}

impl Clone for RootPlanningModelSubject {
    fn clone(&self) -> (r: Self)
        ensures
            r == *self,
    {
        RootPlanningModelSubject {
            role: self.role,
            lineage: self.lineage.clone(),
        }
    }
}

/// The phase before the first inference in which planning failed.
#[derive(Clone, Copy, Debug, PartialEq, Eq, Structural)]
pub enum RootPlanningFailurePhase {
    Preflight,
    ModelDiscovery,
    PromptPreparation,
}

/// Why planning failed before its first inference.
#[derive(Clone, Copy, Debug, PartialEq, Eq, Structural)]
pub enum RootPlanningFailureReason {
    InvalidWallDeadline,
    InvalidRunConfiguration,
    WallDeadlineExceeded,
    BackendDiscoveryFailed,
    DiscoveryTimedOut,
    InvalidDiscoveryCatalog,
    SelectedModelUnavailable,
    ArtifactPersistenceFailed,
    PromptCompilationFailed,
    DurableStateConflict,
}

/// Planning failed before its first inference.
#[derive(Debug)]
pub struct RootPlanningFailed {
    pub claim_event_id: EventId,
    pub claim_id: RunClaimId,
    pub cancellation_generation: u64,
    pub phase: RootPlanningFailurePhase,
    pub reason: RootPlanningFailureReason,
    pub model_subject: Option<RootPlanningModelSubject>,
    pub evidence_artifact: ArtifactRef,
    /// What the other identity fields of the record hold.
    pub other_identities: LifecycleIdentities,
}

impl PartialEq for RootPlanningFailed {
    fn eq(&self, other: &Self) -> (r: bool) {
        self.claim_event_id == other.claim_event_id
            && self.claim_id == other.claim_id
            && self.cancellation_generation == other.cancellation_generation
            && self.phase == other.phase
            && self.reason == other.reason
            && self.model_subject == other.model_subject
            && self.evidence_artifact == other.evidence_artifact
            && self.other_identities == other.other_identities
    }
}

impl Eq for RootPlanningFailed {
}

impl vstd::std_specs::cmp::PartialEqSpecImpl for RootPlanningFailed {
    open spec fn obeys_eq_spec() -> bool {
        true
    }

    open spec fn eq_spec(&self, other: &Self) -> bool {
        &&& self.claim_event_id == other.claim_event_id
        &&& self.claim_id == other.claim_id
        &&& self.cancellation_generation == other.cancellation_generation
        &&& self.phase == other.phase
        &&& self.reason == other.reason
        &&& vstd::std_specs::cmp::PartialEqSpec::eq_spec(&self.model_subject, &other.model_subject)
        &&& vstd::std_specs::cmp::PartialEqSpec::eq_spec(&self.evidence_artifact, &other.evidence_artifact)
        &&& self.other_identities == other.other_identities
    }
}

impl Clone for RootPlanningFailed {
    fn clone(&self) -> (r: Self)
        ensures
            r == *self,
    {
        RootPlanningFailed {
            claim_event_id: self.claim_event_id,
            claim_id: self.claim_id,
            cancellation_generation: self.cancellation_generation,
            phase: self.phase,
            reason: self.reason,
            model_subject: self.model_subject.clone(),
            evidence_artifact: self.evidence_artifact.clone(),
            other_identities: self.other_identities,
        }
    }
}

/// Why a planning stage failed.
#[derive(Clone, Copy, Debug, PartialEq, Eq, Structural)]
pub enum RootPlanningStageFailureReason {
    IndependentReviewerUnavailable,
    WallDeadlineExceeded,
    ArtifactPersistenceFailed,
    InvalidCommittedArtifact,
    DurableStateConflict,
    SelectedModelUnavailable,
    AggregateBudgetExhausted,
    PromptCompilationFailed,
    ConfigurationDrift,
}

/// A planning stage failed after the first inference was prepared.
#[derive(Debug)]
pub struct RootPlanningStageFailed {
    pub failure_id: RootPlanningStageFailureId,
    pub failed_stage: RootPlanningStage,
    pub predecessor_event_id: EventId,
    pub cancellation_generation: u64,
    pub reason: RootPlanningStageFailureReason,
    pub execution_policy_artifact: ArtifactRef,
    pub evidence_artifact: ArtifactRef,
    pub model_subject: RootPlanningModelSubject,
    /// What the other identity fields of the record hold.
    pub other_identities: LifecycleIdentities,
}

impl PartialEq for RootPlanningStageFailed {
    fn eq(&self, other: &Self) -> (r: bool) {
        self.failure_id == other.failure_id
            && self.failed_stage == other.failed_stage
            && self.predecessor_event_id == other.predecessor_event_id
            && self.cancellation_generation == other.cancellation_generation
            && self.reason == other.reason
            && self.execution_policy_artifact == other.execution_policy_artifact
            && self.evidence_artifact == other.evidence_artifact
            && self.model_subject == other.model_subject
            && self.other_identities == other.other_identities
    }
}

impl Eq for RootPlanningStageFailed {
}

impl vstd::std_specs::cmp::PartialEqSpecImpl for RootPlanningStageFailed {
    open spec fn obeys_eq_spec() -> bool {
        true
    }

    open spec fn eq_spec(&self, other: &Self) -> bool {
        &&& self.failure_id == other.failure_id
        &&& self.failed_stage == other.failed_stage
        &&& self.predecessor_event_id == other.predecessor_event_id
        &&& self.cancellation_generation == other.cancellation_generation
        &&& self.reason == other.reason
        &&& vstd::std_specs::cmp::PartialEqSpec::eq_spec(&self.execution_policy_artifact, &other.execution_policy_artifact)
        &&& vstd::std_specs::cmp::PartialEqSpec::eq_spec(&self.evidence_artifact, &other.evidence_artifact)
        &&& vstd::std_specs::cmp::PartialEqSpec::eq_spec(&self.model_subject, &other.model_subject)
        &&& self.other_identities == other.other_identities
    }
}

impl Clone for RootPlanningStageFailed {
    fn clone(&self) -> (r: Self)
        ensures
            r == *self,
    {
        RootPlanningStageFailed {
            failure_id: self.failure_id,
            failed_stage: self.failed_stage,
            predecessor_event_id: self.predecessor_event_id,
            cancellation_generation: self.cancellation_generation,
            reason: self.reason,
            execution_policy_artifact: self.execution_policy_artifact.clone(),
            evidence_artifact: self.evidence_artifact.clone(),
            model_subject: self.model_subject.clone(),
            other_identities: self.other_identities,
        }
    }
}

/// One exact proposed plan.
#[derive(Debug)]
pub struct PlanCandidateBinding {
    pub proposal_event_id: EventId,
    pub plan_revision: u64,
    pub plan_digest: Sha256Digest,
    pub plan_artifact: ArtifactRef,
}

impl PartialEq for PlanCandidateBinding {
    fn eq(&self, other: &Self) -> (r: bool) {
        self.proposal_event_id == other.proposal_event_id
            && self.plan_revision == other.plan_revision
            && self.plan_digest == other.plan_digest
            && self.plan_artifact == other.plan_artifact
    }
}

impl Eq for PlanCandidateBinding {
}

impl vstd::std_specs::cmp::PartialEqSpecImpl for PlanCandidateBinding {
    open spec fn obeys_eq_spec() -> bool {
        true
    }

    open spec fn eq_spec(&self, other: &Self) -> bool {
        &&& self.proposal_event_id == other.proposal_event_id
        &&& self.plan_revision == other.plan_revision
        &&& vstd::std_specs::cmp::PartialEqSpec::eq_spec(&self.plan_digest, &other.plan_digest)
        &&& vstd::std_specs::cmp::PartialEqSpec::eq_spec(&self.plan_artifact, &other.plan_artifact)
    }
}

impl Clone for PlanCandidateBinding {
    fn clone(&self) -> (r: Self)
        ensures
            r == *self,
    {
        PlanCandidateBinding {
            proposal_event_id: self.proposal_event_id,
            plan_revision: self.plan_revision,
            plan_digest: self.plan_digest.clone(),
            plan_artifact: self.plan_artifact.clone(),
        }
    }
}

/// The stage that a prepared inference serves, with the authority it was given.
#[derive(Clone, Debug)]
pub enum PlannerStageContext {
    InitialPlan { model_actor_id: ActorId, model_lineage: ModelLineage, critic_lineage: ModelLineage, execution_policy_artifact: ArtifactRef },
    InitialReview { model_actor_id: ActorId, model_lineage: ModelLineage, execution_policy_artifact: ArtifactRef, critic_policy_artifact: ArtifactRef, review_round: u32, candidate: PlanCandidateBinding },
    Repair { model_actor_id: ActorId, model_lineage: ModelLineage, execution_policy_artifact: ArtifactRef, repair_ordinal: u32, candidate: PlanCandidateBinding, triggering_review_event_id: EventId, required_finding_ids: Vec<Text> },
    FinalReview { model_actor_id: ActorId, model_lineage: ModelLineage, execution_policy_artifact: ArtifactRef, critic_policy_artifact: ArtifactRef, review_round: u32, repair_ordinal: u32, candidate: PlanCandidateBinding },
}

impl PartialEq for PlannerStageContext {
    fn eq(&self, other: &Self) -> (r: bool) {
        match (self, other) {
            (PlannerStageContext::InitialPlan { model_actor_id, model_lineage, critic_lineage, execution_policy_artifact }, PlannerStageContext::InitialPlan { model_actor_id: other_model_actor_id, model_lineage: other_model_lineage, critic_lineage: other_critic_lineage, execution_policy_artifact: other_execution_policy_artifact }) => {
                model_actor_id == other_model_actor_id
                    && model_lineage == other_model_lineage
                    && critic_lineage == other_critic_lineage
                    && execution_policy_artifact == other_execution_policy_artifact
            },
            (PlannerStageContext::InitialReview { model_actor_id, model_lineage, execution_policy_artifact, critic_policy_artifact, review_round, candidate }, PlannerStageContext::InitialReview { model_actor_id: other_model_actor_id, model_lineage: other_model_lineage, execution_policy_artifact: other_execution_policy_artifact, critic_policy_artifact: other_critic_policy_artifact, review_round: other_review_round, candidate: other_candidate }) => {
                model_actor_id == other_model_actor_id
                    && model_lineage == other_model_lineage
                    && execution_policy_artifact == other_execution_policy_artifact
                    && critic_policy_artifact == other_critic_policy_artifact
                    && review_round == other_review_round
                    && candidate == other_candidate
            },
            (PlannerStageContext::Repair { model_actor_id, model_lineage, execution_policy_artifact, repair_ordinal, candidate, triggering_review_event_id, required_finding_ids }, PlannerStageContext::Repair { model_actor_id: other_model_actor_id, model_lineage: other_model_lineage, execution_policy_artifact: other_execution_policy_artifact, repair_ordinal: other_repair_ordinal, candidate: other_candidate, triggering_review_event_id: other_triggering_review_event_id, required_finding_ids: other_required_finding_ids }) => {
                model_actor_id == other_model_actor_id
                    && model_lineage == other_model_lineage
                    && execution_policy_artifact == other_execution_policy_artifact
                    && repair_ordinal == other_repair_ordinal
                    && candidate == other_candidate
                    && triggering_review_event_id == other_triggering_review_event_id
                    && required_finding_ids == other_required_finding_ids
            },
            (PlannerStageContext::FinalReview { model_actor_id, model_lineage, execution_policy_artifact, critic_policy_artifact, review_round, repair_ordinal, candidate }, PlannerStageContext::FinalReview { model_actor_id: other_model_actor_id, model_lineage: other_model_lineage, execution_policy_artifact: other_execution_policy_artifact, critic_policy_artifact: other_critic_policy_artifact, review_round: other_review_round, repair_ordinal: other_repair_ordinal, candidate: other_candidate }) => {
                model_actor_id == other_model_actor_id
                    && model_lineage == other_model_lineage
                    && execution_policy_artifact == other_execution_policy_artifact
                    && critic_policy_artifact == other_critic_policy_artifact
                    && review_round == other_review_round
                    && repair_ordinal == other_repair_ordinal
                    && candidate == other_candidate
            },
            _ => false,
        }
    }
}

impl Eq for PlannerStageContext {
}

impl vstd::std_specs::cmp::PartialEqSpecImpl for PlannerStageContext {
    open spec fn obeys_eq_spec() -> bool {
        true
    }

    open spec fn eq_spec(&self, other: &Self) -> bool {
        match (self, other) {
            (PlannerStageContext::InitialPlan { model_actor_id, model_lineage, critic_lineage, execution_policy_artifact }, PlannerStageContext::InitialPlan { model_actor_id: other_model_actor_id, model_lineage: other_model_lineage, critic_lineage: other_critic_lineage, execution_policy_artifact: other_execution_policy_artifact }) => {
                &&& model_actor_id == other_model_actor_id
                &&& vstd::std_specs::cmp::PartialEqSpec::eq_spec(model_lineage, other_model_lineage)
                &&& vstd::std_specs::cmp::PartialEqSpec::eq_spec(critic_lineage, other_critic_lineage)
                &&& vstd::std_specs::cmp::PartialEqSpec::eq_spec(execution_policy_artifact, other_execution_policy_artifact)
            },
            (PlannerStageContext::InitialReview { model_actor_id, model_lineage, execution_policy_artifact, critic_policy_artifact, review_round, candidate }, PlannerStageContext::InitialReview { model_actor_id: other_model_actor_id, model_lineage: other_model_lineage, execution_policy_artifact: other_execution_policy_artifact, critic_policy_artifact: other_critic_policy_artifact, review_round: other_review_round, candidate: other_candidate }) => {
                &&& model_actor_id == other_model_actor_id
                &&& vstd::std_specs::cmp::PartialEqSpec::eq_spec(model_lineage, other_model_lineage)
                &&& vstd::std_specs::cmp::PartialEqSpec::eq_spec(execution_policy_artifact, other_execution_policy_artifact)
                &&& vstd::std_specs::cmp::PartialEqSpec::eq_spec(critic_policy_artifact, other_critic_policy_artifact)
                &&& review_round == other_review_round
                &&& vstd::std_specs::cmp::PartialEqSpec::eq_spec(candidate, other_candidate)
            },
            (PlannerStageContext::Repair { model_actor_id, model_lineage, execution_policy_artifact, repair_ordinal, candidate, triggering_review_event_id, required_finding_ids }, PlannerStageContext::Repair { model_actor_id: other_model_actor_id, model_lineage: other_model_lineage, execution_policy_artifact: other_execution_policy_artifact, repair_ordinal: other_repair_ordinal, candidate: other_candidate, triggering_review_event_id: other_triggering_review_event_id, required_finding_ids: other_required_finding_ids }) => {
                &&& model_actor_id == other_model_actor_id
                &&& vstd::std_specs::cmp::PartialEqSpec::eq_spec(model_lineage, other_model_lineage)
                &&& vstd::std_specs::cmp::PartialEqSpec::eq_spec(execution_policy_artifact, other_execution_policy_artifact)
                &&& repair_ordinal == other_repair_ordinal
                &&& vstd::std_specs::cmp::PartialEqSpec::eq_spec(candidate, other_candidate)
                &&& triggering_review_event_id == other_triggering_review_event_id
                &&& vstd::std_specs::cmp::PartialEqSpec::eq_spec(required_finding_ids, other_required_finding_ids)
            },
            (PlannerStageContext::FinalReview { model_actor_id, model_lineage, execution_policy_artifact, critic_policy_artifact, review_round, repair_ordinal, candidate }, PlannerStageContext::FinalReview { model_actor_id: other_model_actor_id, model_lineage: other_model_lineage, execution_policy_artifact: other_execution_policy_artifact, critic_policy_artifact: other_critic_policy_artifact, review_round: other_review_round, repair_ordinal: other_repair_ordinal, candidate: other_candidate }) => {
                &&& model_actor_id == other_model_actor_id
                &&& vstd::std_specs::cmp::PartialEqSpec::eq_spec(model_lineage, other_model_lineage)
                &&& vstd::std_specs::cmp::PartialEqSpec::eq_spec(execution_policy_artifact, other_execution_policy_artifact)
                &&& vstd::std_specs::cmp::PartialEqSpec::eq_spec(critic_policy_artifact, other_critic_policy_artifact)
                &&& review_round == other_review_round
                &&& repair_ordinal == other_repair_ordinal
                &&& vstd::std_specs::cmp::PartialEqSpec::eq_spec(candidate, other_candidate)
            },
            _ => false,
        }
    }
}

/// A planning inference, fixed before it is sent.
#[derive(Clone, Debug)]
pub struct PlannerInferencePrepared {
    pub attempt_id: InferenceAttemptId,
    pub parent_attempt_id: Option<InferenceAttemptId>,
    pub plan_revision: u64,
    pub plan_digest: Sha256Digest,
    pub obligation_snapshot_digest: Sha256Digest,
    pub acceptance_policy_digest: Sha256Digest,
    pub context_manifest_digest: Sha256Digest,
    pub planner_policy_digest: Sha256Digest,
    pub prompt_manifest_digest: Sha256Digest,
    pub prompt_artifact: ArtifactRef,
    pub request_artifact: ArtifactRef,
    pub backend_model: BackendModelRef,
    pub backend_instance: Option<BackendInstanceIdentity>,
    pub token_reservation: TokenReservation,
    pub cancellation_generation: u64,
    pub stage_context: Option<PlannerStageContext>,
    /// What the other identity fields of the record hold.
    pub other_identities: LifecycleIdentities,
}

impl PartialEq for PlannerInferencePrepared {
    fn eq(&self, other: &Self) -> (r: bool) {
        self.attempt_id == other.attempt_id
            && self.parent_attempt_id == other.parent_attempt_id
            && self.plan_revision == other.plan_revision
            && self.plan_digest == other.plan_digest
            && self.obligation_snapshot_digest == other.obligation_snapshot_digest
            && self.acceptance_policy_digest == other.acceptance_policy_digest
            && self.context_manifest_digest == other.context_manifest_digest
            && self.planner_policy_digest == other.planner_policy_digest
            && self.prompt_manifest_digest == other.prompt_manifest_digest
            && self.prompt_artifact == other.prompt_artifact
            && self.request_artifact == other.request_artifact
            && self.backend_model == other.backend_model
            && self.backend_instance == other.backend_instance
            && self.token_reservation == other.token_reservation
            && self.cancellation_generation == other.cancellation_generation
            && self.stage_context == other.stage_context
            && self.other_identities == other.other_identities
    }
}

impl Eq for PlannerInferencePrepared {
}

impl vstd::std_specs::cmp::PartialEqSpecImpl for PlannerInferencePrepared {
    open spec fn obeys_eq_spec() -> bool {
        true
    }

    open spec fn eq_spec(&self, other: &Self) -> bool {
        &&& self.attempt_id == other.attempt_id
        &&& self.parent_attempt_id == other.parent_attempt_id
        &&& self.plan_revision == other.plan_revision
        &&& vstd::std_specs::cmp::PartialEqSpec::eq_spec(&self.plan_digest, &other.plan_digest)
        &&& vstd::std_specs::cmp::PartialEqSpec::eq_spec(&self.obligation_snapshot_digest, &other.obligation_snapshot_digest)
        &&& vstd::std_specs::cmp::PartialEqSpec::eq_spec(&self.acceptance_policy_digest, &other.acceptance_policy_digest)
        &&& vstd::std_specs::cmp::PartialEqSpec::eq_spec(&self.context_manifest_digest, &other.context_manifest_digest)
        &&& vstd::std_specs::cmp::PartialEqSpec::eq_spec(&self.planner_policy_digest, &other.planner_policy_digest)
        &&& vstd::std_specs::cmp::PartialEqSpec::eq_spec(&self.prompt_manifest_digest, &other.prompt_manifest_digest)
        &&& vstd::std_specs::cmp::PartialEqSpec::eq_spec(&self.prompt_artifact, &other.prompt_artifact)
        &&& vstd::std_specs::cmp::PartialEqSpec::eq_spec(&self.request_artifact, &other.request_artifact)
        &&& vstd::std_specs::cmp::PartialEqSpec::eq_spec(&self.backend_model, &other.backend_model)
        &&& vstd::std_specs::cmp::PartialEqSpec::eq_spec(&self.backend_instance, &other.backend_instance)
        &&& self.token_reservation == other.token_reservation
        &&& self.cancellation_generation == other.cancellation_generation
        &&& vstd::std_specs::cmp::PartialEqSpec::eq_spec(&self.stage_context, &other.stage_context)
        &&& self.other_identities == other.other_identities
    }
}

/// What went wrong with an inference.
#[derive(Clone, Copy, Debug, PartialEq, Eq, Structural)]
pub enum PlannerInferenceErrorKind {
    Timeout,
    Cancelled,
    ProtocolViolation,
    BackendFailure,
}

/// A failed inference.
#[derive(Clone, Copy, Debug, PartialEq, Eq, Structural)]
pub struct PlannerInferenceError {
    pub kind: PlannerInferenceErrorKind,
    pub retry: RetryDisposition,
}

/// The terminal observation of an inference.
#[derive(Debug)]
pub enum PlannerInferenceObservation {
    Succeeded { reported_backend_model: BackendModelRef, token_usage: TokenUsage },
    Failed { error: PlannerInferenceError },
}

impl PartialEq for PlannerInferenceObservation {
    fn eq(&self, other: &Self) -> (r: bool) {
        match (self, other) {
            (PlannerInferenceObservation::Succeeded { reported_backend_model, token_usage }, PlannerInferenceObservation::Succeeded { reported_backend_model: other_reported_backend_model, token_usage: other_token_usage }) => {
                reported_backend_model == other_reported_backend_model
                    && token_usage == other_token_usage
            },
            (PlannerInferenceObservation::Failed { error }, PlannerInferenceObservation::Failed { error: other_error }) => {
                error == other_error
            },
            _ => false,
        }
    }
}

impl Eq for PlannerInferenceObservation {
}

impl vstd::std_specs::cmp::PartialEqSpecImpl for PlannerInferenceObservation {
    open spec fn obeys_eq_spec() -> bool {
        true
    }

    open spec fn eq_spec(&self, other: &Self) -> bool {
        match (self, other) {
            (PlannerInferenceObservation::Succeeded { reported_backend_model, token_usage }, PlannerInferenceObservation::Succeeded { reported_backend_model: other_reported_backend_model, token_usage: other_token_usage }) => {
                &&& vstd::std_specs::cmp::PartialEqSpec::eq_spec(reported_backend_model, other_reported_backend_model)
                &&& token_usage == other_token_usage
            },
            (PlannerInferenceObservation::Failed { error }, PlannerInferenceObservation::Failed { error: other_error }) => {
                &&& error == other_error
            },
            _ => false,
        }
    }
}

impl Clone for PlannerInferenceObservation {
    fn clone(&self) -> (r: Self)
        ensures
            r == *self,
    {
        match self {
            PlannerInferenceObservation::Succeeded { reported_backend_model, token_usage } => PlannerInferenceObservation::Succeeded {
                reported_backend_model: reported_backend_model.clone(),
                token_usage: *token_usage,
            },
            PlannerInferenceObservation::Failed { error } => PlannerInferenceObservation::Failed {
                error: *error,
            },
        }
    }
}

/// An inference was observed to end.
#[derive(Debug)]
pub struct PlannerInferenceObserved {
    pub prepared_event_id: EventId,
    pub attempt_id: InferenceAttemptId,
    pub token_reservation_id: TokenReservationId,
    pub outcome: PlannerInferenceObservation,
    pub normalized_complete_evidence_artifact: ArtifactRef,
    /// What the other identity fields of the record hold.
    pub other_identities: LifecycleIdentities,
}

impl PartialEq for PlannerInferenceObserved {
    fn eq(&self, other: &Self) -> (r: bool) {
        self.prepared_event_id == other.prepared_event_id
            && self.attempt_id == other.attempt_id
            && self.token_reservation_id == other.token_reservation_id
            && self.outcome == other.outcome
            && self.normalized_complete_evidence_artifact == other.normalized_complete_evidence_artifact
            && self.other_identities == other.other_identities
    }
}

impl Eq for PlannerInferenceObserved {
}

impl vstd::std_specs::cmp::PartialEqSpecImpl for PlannerInferenceObserved {
    open spec fn obeys_eq_spec() -> bool {
        true
    }

    open spec fn eq_spec(&self, other: &Self) -> bool {
        &&& self.prepared_event_id == other.prepared_event_id
        &&& self.attempt_id == other.attempt_id
        &&& self.token_reservation_id == other.token_reservation_id
        &&& vstd::std_specs::cmp::PartialEqSpec::eq_spec(&self.outcome, &other.outcome)
        &&& vstd::std_specs::cmp::PartialEqSpec::eq_spec(&self.normalized_complete_evidence_artifact, &other.normalized_complete_evidence_artifact)
        &&& self.other_identities == other.other_identities
    }
}

impl Clone for PlannerInferenceObserved {
    fn clone(&self) -> (r: Self)
        ensures
            r == *self,
    {
        PlannerInferenceObserved {
            prepared_event_id: self.prepared_event_id,
            attempt_id: self.attempt_id,
            token_reservation_id: self.token_reservation_id,
            outcome: self.outcome.clone(),
            normalized_complete_evidence_artifact: self.normalized_complete_evidence_artifact.clone(),
            other_identities: self.other_identities,
        }
    }
}

/// Why the outcome of an inference is unknown.
#[derive(Clone, Copy, Debug, PartialEq, Eq, Structural)]
pub enum UnknownInferenceOutcomeReason {
    RuntimeRestartedBeforeObservation,
    ClaimExpiredBeforeObservation,
    EvidenceCommitIndeterminate,
}

/// The boundary at which an inference was left without an observation.
#[derive(Clone, Copy, Debug, PartialEq, Eq, Structural)]
pub enum UnknownInferenceBoundary {
    Restart,
    Shutdown,
    ClaimRenewalFailed,
    Deadline,
    Cancelled,
}

/// The outcome of an inference is unknown.
#[derive(Clone, Copy, Debug, PartialEq, Eq, Structural)]
pub struct PlannerInferenceOutcomeUnknown {
    pub prepared_event_id: EventId,
    pub attempt_id: InferenceAttemptId,
    pub token_reservation_id: TokenReservationId,
    pub cancellation_generation: u64,
    pub reason: UnknownInferenceOutcomeReason,
    /// What the other identity fields of the record hold.
    pub other_identities: LifecycleIdentities,
}

/// A read operation, fixed before it is performed.
#[derive(Debug)]
pub struct ReadOperationPrepared {
    pub request_artifact: ArtifactRef,
    /// What the other identity fields of the record hold.
    pub other_identities: LifecycleIdentities,
}

impl PartialEq for ReadOperationPrepared {
    fn eq(&self, other: &Self) -> (r: bool) {
        self.request_artifact == other.request_artifact
            && self.other_identities == other.other_identities
    }
}

impl Eq for ReadOperationPrepared {
}

impl vstd::std_specs::cmp::PartialEqSpecImpl for ReadOperationPrepared {
    open spec fn obeys_eq_spec() -> bool {
        true
    }

    open spec fn eq_spec(&self, other: &Self) -> bool {
        &&& vstd::std_specs::cmp::PartialEqSpec::eq_spec(&self.request_artifact, &other.request_artifact)
        &&& self.other_identities == other.other_identities
    }
}

impl Clone for ReadOperationPrepared {
    fn clone(&self) -> (r: Self)
        ensures
            r == *self,
    {
        ReadOperationPrepared {
            request_artifact: self.request_artifact.clone(),
            other_identities: self.other_identities,
        }
    }
}

/// A read operation was observed to end.
#[derive(Debug)]
pub struct ReadOperationObserved {
    pub normalized_complete_evidence_artifact: ArtifactRef,
    /// What the other identity fields of the record hold.
    pub other_identities: LifecycleIdentities,
}

impl PartialEq for ReadOperationObserved {
    fn eq(&self, other: &Self) -> (r: bool) {
        self.normalized_complete_evidence_artifact == other.normalized_complete_evidence_artifact
            && self.other_identities == other.other_identities
    }
}

impl Eq for ReadOperationObserved {
}

impl vstd::std_specs::cmp::PartialEqSpecImpl for ReadOperationObserved {
    open spec fn obeys_eq_spec() -> bool {
        true
    }

    open spec fn eq_spec(&self, other: &Self) -> bool {
        &&& vstd::std_specs::cmp::PartialEqSpec::eq_spec(&self.normalized_complete_evidence_artifact, &other.normalized_complete_evidence_artifact)
        &&& self.other_identities == other.other_identities
    }
}

impl Clone for ReadOperationObserved {
    fn clone(&self) -> (r: Self)
        ensures
            r == *self,
    {
        ReadOperationObserved {
            normalized_complete_evidence_artifact: self.normalized_complete_evidence_artifact.clone(),
            other_identities: self.other_identities,
        }
    }
}

/// Why a proposed plan was rejected.
#[derive(Clone, Copy, Debug, PartialEq, Eq, Structural)]
pub enum PlanProposalRejectionReason {
    StaleBaseRevision,
    StaleBaseDigest,
    InvalidSchema,
    ProtectedAuthorityMutation,
    ObligationCoverageIncomplete,
    DependencyCycle,
    PolicyLimitExceeded,
}

/// A proposed plan was rejected mechanically.
#[derive(Debug)]
pub struct PlanProposalRejected {
    pub proposal_id: PlanProposalId,
    pub inference_attempt_id: InferenceAttemptId,
    pub observed_event_id: EventId,
    pub base_plan_revision: u64,
    pub base_plan_digest: Sha256Digest,
    pub reason: PlanProposalRejectionReason,
    pub proposal_artifact: ArtifactRef,
    pub validation_evidence_artifact: ArtifactRef,
    /// What the other identity fields of the record hold.
    pub other_identities: LifecycleIdentities,
}

impl PartialEq for PlanProposalRejected {
    fn eq(&self, other: &Self) -> (r: bool) {
        self.proposal_id == other.proposal_id
            && self.inference_attempt_id == other.inference_attempt_id
            && self.observed_event_id == other.observed_event_id
            && self.base_plan_revision == other.base_plan_revision
            && self.base_plan_digest == other.base_plan_digest
            && self.reason == other.reason
            && self.proposal_artifact == other.proposal_artifact
            && self.validation_evidence_artifact == other.validation_evidence_artifact
            && self.other_identities == other.other_identities
    }
}

impl Eq for PlanProposalRejected {
}

impl vstd::std_specs::cmp::PartialEqSpecImpl for PlanProposalRejected {
    open spec fn obeys_eq_spec() -> bool {
        true
    }

    open spec fn eq_spec(&self, other: &Self) -> bool {
        &&& self.proposal_id == other.proposal_id
        &&& self.inference_attempt_id == other.inference_attempt_id
        &&& self.observed_event_id == other.observed_event_id
        &&& self.base_plan_revision == other.base_plan_revision
        &&& vstd::std_specs::cmp::PartialEqSpec::eq_spec(&self.base_plan_digest, &other.base_plan_digest)
        &&& self.reason == other.reason
        &&& vstd::std_specs::cmp::PartialEqSpec::eq_spec(&self.proposal_artifact, &other.proposal_artifact)
        &&& vstd::std_specs::cmp::PartialEqSpec::eq_spec(&self.validation_evidence_artifact, &other.validation_evidence_artifact)
        &&& self.other_identities == other.other_identities
    }
}

impl Clone for PlanProposalRejected {
    fn clone(&self) -> (r: Self)
        ensures
            r == *self,
    {
        PlanProposalRejected {
            proposal_id: self.proposal_id,
            inference_attempt_id: self.inference_attempt_id,
            observed_event_id: self.observed_event_id,
            base_plan_revision: self.base_plan_revision,
            base_plan_digest: self.base_plan_digest.clone(),
            reason: self.reason,
            proposal_artifact: self.proposal_artifact.clone(),
            validation_evidence_artifact: self.validation_evidence_artifact.clone(),
            other_identities: self.other_identities,
        }
    }
}

/// A proposed plan was accepted mechanically.
#[derive(Debug)]
pub struct PlanProposalAccepted {
    pub proposal_id: PlanProposalId,
    pub inference_attempt_id: InferenceAttemptId,
    pub observed_event_id: EventId,
    pub previous_plan_revision: u64,
    pub previous_plan_digest: Sha256Digest,
    pub accepted_plan_revision: u64,
    pub accepted_plan_digest: Sha256Digest,
    pub proposal_artifact: ArtifactRef,
    pub accepted_plan_artifact: ArtifactRef,
    pub validation_evidence_artifact: ArtifactRef,
    /// What the other identity fields of the record hold.
    pub other_identities: LifecycleIdentities,
}

impl PartialEq for PlanProposalAccepted {
    fn eq(&self, other: &Self) -> (r: bool) {
        self.proposal_id == other.proposal_id
            && self.inference_attempt_id == other.inference_attempt_id
            && self.observed_event_id == other.observed_event_id
            && self.previous_plan_revision == other.previous_plan_revision
            && self.previous_plan_digest == other.previous_plan_digest
            && self.accepted_plan_revision == other.accepted_plan_revision
            && self.accepted_plan_digest == other.accepted_plan_digest
            && self.proposal_artifact == other.proposal_artifact
            && self.accepted_plan_artifact == other.accepted_plan_artifact
            && self.validation_evidence_artifact == other.validation_evidence_artifact
            && self.other_identities == other.other_identities
    }
}

impl Eq for PlanProposalAccepted {
}

impl vstd::std_specs::cmp::PartialEqSpecImpl for PlanProposalAccepted {
    open spec fn obeys_eq_spec() -> bool {
        true
    }

    open spec fn eq_spec(&self, other: &Self) -> bool {
        &&& self.proposal_id == other.proposal_id
        &&& self.inference_attempt_id == other.inference_attempt_id
        &&& self.observed_event_id == other.observed_event_id
        &&& self.previous_plan_revision == other.previous_plan_revision
        &&& vstd::std_specs::cmp::PartialEqSpec::eq_spec(&self.previous_plan_digest, &other.previous_plan_digest)
        &&& self.accepted_plan_revision == other.accepted_plan_revision
        &&& vstd::std_specs::cmp::PartialEqSpec::eq_spec(&self.accepted_plan_digest, &other.accepted_plan_digest)
        &&& vstd::std_specs::cmp::PartialEqSpec::eq_spec(&self.proposal_artifact, &other.proposal_artifact)
        &&& vstd::std_specs::cmp::PartialEqSpec::eq_spec(&self.accepted_plan_artifact, &other.accepted_plan_artifact)
        &&& vstd::std_specs::cmp::PartialEqSpec::eq_spec(&self.validation_evidence_artifact, &other.validation_evidence_artifact)
        &&& self.other_identities == other.other_identities
    }
}

impl Clone for PlanProposalAccepted {
    fn clone(&self) -> (r: Self)
        ensures
            r == *self,
    {
        PlanProposalAccepted {
            proposal_id: self.proposal_id,
            inference_attempt_id: self.inference_attempt_id,
            observed_event_id: self.observed_event_id,
            previous_plan_revision: self.previous_plan_revision,
            previous_plan_digest: self.previous_plan_digest.clone(),
            accepted_plan_revision: self.accepted_plan_revision,
            accepted_plan_digest: self.accepted_plan_digest.clone(),
            proposal_artifact: self.proposal_artifact.clone(),
            accepted_plan_artifact: self.accepted_plan_artifact.clone(),
            validation_evidence_artifact: self.validation_evidence_artifact.clone(),
            other_identities: self.other_identities,
        }
    }
}

/// An independent critic accepted a candidate plan.
#[derive(Debug)]
pub struct PlanSemanticReviewAccepted {
    pub review_id: PlanSemanticReviewId,
    pub inference_attempt_id: InferenceAttemptId,
    pub observed_event_id: EventId,
    pub candidate: PlanCandidateBinding,
    pub critique_artifact: ArtifactRef,
    pub validation_evidence_artifact: ArtifactRef,
    /// What the other identity fields of the record hold.
    pub other_identities: LifecycleIdentities,
}

impl PartialEq for PlanSemanticReviewAccepted {
    fn eq(&self, other: &Self) -> (r: bool) {
        self.review_id == other.review_id
            && self.inference_attempt_id == other.inference_attempt_id
            && self.observed_event_id == other.observed_event_id
            && self.candidate == other.candidate
            && self.critique_artifact == other.critique_artifact
            && self.validation_evidence_artifact == other.validation_evidence_artifact
            && self.other_identities == other.other_identities
    }
}

impl Eq for PlanSemanticReviewAccepted {
}

impl vstd::std_specs::cmp::PartialEqSpecImpl for PlanSemanticReviewAccepted {
    open spec fn obeys_eq_spec() -> bool {
        true
    }

    open spec fn eq_spec(&self, other: &Self) -> bool {
        &&& self.review_id == other.review_id
        &&& self.inference_attempt_id == other.inference_attempt_id
        &&& self.observed_event_id == other.observed_event_id
        &&& vstd::std_specs::cmp::PartialEqSpec::eq_spec(&self.candidate, &other.candidate)
        &&& vstd::std_specs::cmp::PartialEqSpec::eq_spec(&self.critique_artifact, &other.critique_artifact)
        &&& vstd::std_specs::cmp::PartialEqSpec::eq_spec(&self.validation_evidence_artifact, &other.validation_evidence_artifact)
        &&& self.other_identities == other.other_identities
    }
}

impl Clone for PlanSemanticReviewAccepted {
    fn clone(&self) -> (r: Self)
        ensures
            r == *self,
    {
        PlanSemanticReviewAccepted {
            review_id: self.review_id,
            inference_attempt_id: self.inference_attempt_id,
            observed_event_id: self.observed_event_id,
            candidate: self.candidate.clone(),
            critique_artifact: self.critique_artifact.clone(),
            validation_evidence_artifact: self.validation_evidence_artifact.clone(),
            other_identities: self.other_identities,
        }
    }
}

/// What follows from a rejected review.
#[derive(Clone, Copy, Debug, PartialEq, Eq, Structural)]
pub enum PlanSemanticReviewRejectionDisposition {
    RepairOnceAuthorized,
    TerminalReject,
    ReviewContractInvalid,
}

/// An independent critic rejected a candidate plan.
#[derive(Clone, Debug)]
pub struct PlanSemanticReviewRejected {
    pub review_id: PlanSemanticReviewId,
    pub inference_attempt_id: InferenceAttemptId,
    pub observed_event_id: EventId,
    pub candidate: PlanCandidateBinding,
    pub critique_artifact: ArtifactRef,
    pub validation_evidence_artifact: ArtifactRef,
    pub disposition: PlanSemanticReviewRejectionDisposition,
    pub required_finding_ids: Vec<Text>,
    /// What the other identity fields of the record hold.
    pub other_identities: LifecycleIdentities,
}

impl PartialEq for PlanSemanticReviewRejected {
    fn eq(&self, other: &Self) -> (r: bool) {
        self.review_id == other.review_id
            && self.inference_attempt_id == other.inference_attempt_id
            && self.observed_event_id == other.observed_event_id
            && self.candidate == other.candidate
            && self.critique_artifact == other.critique_artifact
            && self.validation_evidence_artifact == other.validation_evidence_artifact
            && self.disposition == other.disposition
            && self.required_finding_ids == other.required_finding_ids
            && self.other_identities == other.other_identities
    }
}

impl Eq for PlanSemanticReviewRejected {
}

impl vstd::std_specs::cmp::PartialEqSpecImpl for PlanSemanticReviewRejected {
    open spec fn obeys_eq_spec() -> bool {
        true
    }

    open spec fn eq_spec(&self, other: &Self) -> bool {
        &&& self.review_id == other.review_id
        &&& self.inference_attempt_id == other.inference_attempt_id
        &&& self.observed_event_id == other.observed_event_id
        &&& vstd::std_specs::cmp::PartialEqSpec::eq_spec(&self.candidate, &other.candidate)
        &&& vstd::std_specs::cmp::PartialEqSpec::eq_spec(&self.critique_artifact, &other.critique_artifact)
        &&& vstd::std_specs::cmp::PartialEqSpec::eq_spec(&self.validation_evidence_artifact, &other.validation_evidence_artifact)
        &&& self.disposition == other.disposition
        &&& vstd::std_specs::cmp::PartialEqSpec::eq_spec(&self.required_finding_ids, &other.required_finding_ids)
        &&& self.other_identities == other.other_identities
    }
}

} // verus!

//! Payloads of the planner-turn events.

use vstd::prelude::*;
use crate::artifact::{ArtifactRef, BackendInstanceIdentity, BackendModelRef, ModelLineage};
use crate::child_outcome::{ChildCancellationCauseV1, ChildExecutionBinding, ChildExecutionFailureCauseV1, ChildExecutionFailureKind};
use crate::clock::{RuntimeClockReading};
use crate::digest::{Sha256Digest};
use crate::identity::{ChildHandoffId, EventId, PlannerDelegateDirectiveId, PlannerEvidenceEntryId, PlannerTurnId, RunClaimId, RuntimeInstanceId, TokenReservationId};
use crate::lifecycle_identity::LifecycleIdentities;
use crate::planning::{PlannerInferenceError, UnknownInferenceBoundary, UnknownInferenceOutcomeReason};
use crate::run::{ReasoningSetting, RetryDisposition, TokenReservation, TokenUsage};
use crate::text::{Text};

verus! {

/// What a planner turn is for.
#[derive(Clone, Copy, Debug, PartialEq, Eq, Structural)]
pub enum PlannerTurnPurposeV1 {
    InitialDelegation,
    EvidenceReplan,
}

/// One exact plan snapshot and the event that accepted it.
#[derive(Debug)]
pub struct PlannerBasePlanBindingV1 {
    pub accepted_event_id: EventId,
    pub revision: u64,
    pub digest: Sha256Digest,
    pub artifact: ArtifactRef,
}

impl PartialEq for PlannerBasePlanBindingV1 {
    fn eq(&self, other: &Self) -> (r: bool) {
        self.accepted_event_id == other.accepted_event_id
            && self.revision == other.revision
            && self.digest == other.digest
            && self.artifact == other.artifact
    }
}

impl Eq for PlannerBasePlanBindingV1 {
}

impl vstd::std_specs::cmp::PartialEqSpecImpl for PlannerBasePlanBindingV1 {
    open spec fn obeys_eq_spec() -> bool {
        true
    }

    open spec fn eq_spec(&self, other: &Self) -> bool {
        &&& self.accepted_event_id == other.accepted_event_id
        &&& self.revision == other.revision
        &&& vstd::std_specs::cmp::PartialEqSpec::eq_spec(&self.digest, &other.digest)
        &&& vstd::std_specs::cmp::PartialEqSpec::eq_spec(&self.artifact, &other.artifact)
    }
}

impl Clone for PlannerBasePlanBindingV1 {
    fn clone(&self) -> (r: Self)
        ensures
            r == *self,
    {
        PlannerBasePlanBindingV1 {
            accepted_event_id: self.accepted_event_id,
            revision: self.revision,
            digest: self.digest.clone(),
            artifact: self.artifact.clone(),
        }
    }
}

/// The accepted root plan, as evidence.
#[derive(Debug)]
pub struct PlannerAcceptedRootPlanEvidenceV2 {
    pub accepted_plan_event_id: EventId,
    pub accepted_plan_revision: u64,
    pub accepted_plan_artifact: ArtifactRef,
    pub accepted_plan_digest: Sha256Digest,
}

impl PartialEq for PlannerAcceptedRootPlanEvidenceV2 {
    fn eq(&self, other: &Self) -> (r: bool) {
        self.accepted_plan_event_id == other.accepted_plan_event_id
            && self.accepted_plan_revision == other.accepted_plan_revision
            && self.accepted_plan_artifact == other.accepted_plan_artifact
            && self.accepted_plan_digest == other.accepted_plan_digest
    }
}

impl Eq for PlannerAcceptedRootPlanEvidenceV2 {
}

impl vstd::std_specs::cmp::PartialEqSpecImpl for PlannerAcceptedRootPlanEvidenceV2 {
    open spec fn obeys_eq_spec() -> bool {
        true
    }

    open spec fn eq_spec(&self, other: &Self) -> bool {
        &&& self.accepted_plan_event_id == other.accepted_plan_event_id
        &&& self.accepted_plan_revision == other.accepted_plan_revision
        &&& vstd::std_specs::cmp::PartialEqSpec::eq_spec(&self.accepted_plan_artifact, &other.accepted_plan_artifact)
        &&& vstd::std_specs::cmp::PartialEqSpec::eq_spec(&self.accepted_plan_digest, &other.accepted_plan_digest)
    }
}

impl Clone for PlannerAcceptedRootPlanEvidenceV2 {
    fn clone(&self) -> (r: Self)
        ensures
            r == *self,
    {
        PlannerAcceptedRootPlanEvidenceV2 {
            accepted_plan_event_id: self.accepted_plan_event_id,
            accepted_plan_revision: self.accepted_plan_revision,
            accepted_plan_artifact: self.accepted_plan_artifact.clone(),
            accepted_plan_digest: self.accepted_plan_digest.clone(),
        }
    }
}

/// A child's committed handoff, as evidence.
#[derive(Debug)]
pub struct PlannerChildHandoffEvidenceV2 {
    pub binding: ChildExecutionBinding,
    pub handoff_event_id: EventId,
    pub handoff_id: ChildHandoffId,
    pub handoff_artifact: ArtifactRef,
    pub handoff_digest: Sha256Digest,
    pub finished_event_id: EventId,
}

impl PartialEq for PlannerChildHandoffEvidenceV2 {
    fn eq(&self, other: &Self) -> (r: bool) {
        self.binding == other.binding
            && self.handoff_event_id == other.handoff_event_id
            && self.handoff_id == other.handoff_id
            && self.handoff_artifact == other.handoff_artifact
            && self.handoff_digest == other.handoff_digest
            && self.finished_event_id == other.finished_event_id
    }
}

impl Eq for PlannerChildHandoffEvidenceV2 {
}

impl vstd::std_specs::cmp::PartialEqSpecImpl for PlannerChildHandoffEvidenceV2 {
    open spec fn obeys_eq_spec() -> bool {
        true
    }

    open spec fn eq_spec(&self, other: &Self) -> bool {
        &&& self.binding == other.binding
        &&& self.handoff_event_id == other.handoff_event_id
        &&& self.handoff_id == other.handoff_id
        &&& vstd::std_specs::cmp::PartialEqSpec::eq_spec(&self.handoff_artifact, &other.handoff_artifact)
        &&& vstd::std_specs::cmp::PartialEqSpec::eq_spec(&self.handoff_digest, &other.handoff_digest)
        &&& self.finished_event_id == other.finished_event_id
    }
}

impl Clone for PlannerChildHandoffEvidenceV2 {
    fn clone(&self) -> (r: Self)
        ensures
            r == *self,
    {
        PlannerChildHandoffEvidenceV2 {
            binding: self.binding,
            handoff_event_id: self.handoff_event_id,
            handoff_id: self.handoff_id,
            handoff_artifact: self.handoff_artifact.clone(),
            handoff_digest: self.handoff_digest.clone(),
            finished_event_id: self.finished_event_id,
        }
    }
}

/// A child's failure, as evidence.
#[derive(Debug)]
pub struct PlannerChildFailedEvidenceV2 {
    pub binding: ChildExecutionBinding,
    pub finished_event_id: EventId,
    pub kind: ChildExecutionFailureKind,
    pub retry: RetryDisposition,
    pub cause: ChildExecutionFailureCauseV1,
    pub evidence_artifact: ArtifactRef,
    pub evidence_digest: Sha256Digest,
}

impl PartialEq for PlannerChildFailedEvidenceV2 {
    fn eq(&self, other: &Self) -> (r: bool) {
        self.binding == other.binding
            && self.finished_event_id == other.finished_event_id
            && self.kind == other.kind
            && self.retry == other.retry
            && self.cause == other.cause
            && self.evidence_artifact == other.evidence_artifact
            && self.evidence_digest == other.evidence_digest
    }
}

impl Eq for PlannerChildFailedEvidenceV2 {
}

impl vstd::std_specs::cmp::PartialEqSpecImpl for PlannerChildFailedEvidenceV2 {
    open spec fn obeys_eq_spec() -> bool {
        true
    }

    open spec fn eq_spec(&self, other: &Self) -> bool {
        &&& self.binding == other.binding
        &&& self.finished_event_id == other.finished_event_id
        &&& self.kind == other.kind
        &&& self.retry == other.retry
        &&& vstd::std_specs::cmp::PartialEqSpec::eq_spec(&self.cause, &other.cause)
        &&& vstd::std_specs::cmp::PartialEqSpec::eq_spec(&self.evidence_artifact, &other.evidence_artifact)
        &&& vstd::std_specs::cmp::PartialEqSpec::eq_spec(&self.evidence_digest, &other.evidence_digest)
    }
}

impl Clone for PlannerChildFailedEvidenceV2 {
    fn clone(&self) -> (r: Self)
        ensures
            r == *self,
    {
        PlannerChildFailedEvidenceV2 {
            binding: self.binding,
            finished_event_id: self.finished_event_id,
            kind: self.kind,
            retry: self.retry,
            cause: self.cause.clone(),
            evidence_artifact: self.evidence_artifact.clone(),
            evidence_digest: self.evidence_digest.clone(),
        }
    }
}

/// A child's cancellation, as evidence.
#[derive(Clone, Copy, Debug, PartialEq, Eq, Structural)]
pub struct PlannerChildCancelledEvidenceV2 {
    pub binding: ChildExecutionBinding,
    pub finished_event_id: EventId,
    pub cause: ChildCancellationCauseV1,
}

/// What one entry of an evidence packet is about.
#[derive(Debug)]
pub enum PlannerEvidenceMaterialV2 {
    AcceptedRootPlan(PlannerAcceptedRootPlanEvidenceV2),
    ChildHandoff(PlannerChildHandoffEvidenceV2),
    ChildFailed(PlannerChildFailedEvidenceV2),
    ChildCancelled(PlannerChildCancelledEvidenceV2),
}

impl PartialEq for PlannerEvidenceMaterialV2 {
    fn eq(&self, other: &Self) -> (r: bool) {
        match (self, other) {
            (PlannerEvidenceMaterialV2::AcceptedRootPlan(left), PlannerEvidenceMaterialV2::AcceptedRootPlan(right)) => left == right,
            (PlannerEvidenceMaterialV2::ChildHandoff(left), PlannerEvidenceMaterialV2::ChildHandoff(right)) => left == right,
            (PlannerEvidenceMaterialV2::ChildFailed(left), PlannerEvidenceMaterialV2::ChildFailed(right)) => left == right,
            (PlannerEvidenceMaterialV2::ChildCancelled(left), PlannerEvidenceMaterialV2::ChildCancelled(right)) => left == right,
            _ => false,
        }
    }
}

impl Eq for PlannerEvidenceMaterialV2 {
}

impl vstd::std_specs::cmp::PartialEqSpecImpl for PlannerEvidenceMaterialV2 {
    open spec fn obeys_eq_spec() -> bool {
        true
    }

    open spec fn eq_spec(&self, other: &Self) -> bool {
        match (self, other) {
            (PlannerEvidenceMaterialV2::AcceptedRootPlan(left), PlannerEvidenceMaterialV2::AcceptedRootPlan(right)) => vstd::std_specs::cmp::PartialEqSpec::eq_spec(left, right),
            (PlannerEvidenceMaterialV2::ChildHandoff(left), PlannerEvidenceMaterialV2::ChildHandoff(right)) => vstd::std_specs::cmp::PartialEqSpec::eq_spec(left, right),
            (PlannerEvidenceMaterialV2::ChildFailed(left), PlannerEvidenceMaterialV2::ChildFailed(right)) => vstd::std_specs::cmp::PartialEqSpec::eq_spec(left, right),
            (PlannerEvidenceMaterialV2::ChildCancelled(left), PlannerEvidenceMaterialV2::ChildCancelled(right)) => left == right,
            _ => false,
        }
    }
}

impl Clone for PlannerEvidenceMaterialV2 {
    fn clone(&self) -> (r: Self)
        ensures
            r == *self,
    {
        match self {
            PlannerEvidenceMaterialV2::AcceptedRootPlan(value) => PlannerEvidenceMaterialV2::AcceptedRootPlan(value.clone()),
            PlannerEvidenceMaterialV2::ChildHandoff(value) => PlannerEvidenceMaterialV2::ChildHandoff(value.clone()),
            PlannerEvidenceMaterialV2::ChildFailed(value) => PlannerEvidenceMaterialV2::ChildFailed(value.clone()),
            PlannerEvidenceMaterialV2::ChildCancelled(value) => PlannerEvidenceMaterialV2::ChildCancelled(*value),
        }
    }
}

/// One entry of an evidence packet.
#[derive(Debug)]
pub struct PlannerEvidenceEntryV2 {
    pub evidence_id: PlannerEvidenceEntryId,
    pub normalized_content_digest: Sha256Digest,
    pub material: PlannerEvidenceMaterialV2,
}

impl PartialEq for PlannerEvidenceEntryV2 {
    fn eq(&self, other: &Self) -> (r: bool) {
        self.evidence_id == other.evidence_id
            && self.normalized_content_digest == other.normalized_content_digest
            && self.material == other.material
    }
}

impl Eq for PlannerEvidenceEntryV2 {
}

impl vstd::std_specs::cmp::PartialEqSpecImpl for PlannerEvidenceEntryV2 {
    open spec fn obeys_eq_spec() -> bool {
        true
    }

    open spec fn eq_spec(&self, other: &Self) -> bool {
        &&& self.evidence_id == other.evidence_id
        &&& vstd::std_specs::cmp::PartialEqSpec::eq_spec(&self.normalized_content_digest, &other.normalized_content_digest)
        &&& vstd::std_specs::cmp::PartialEqSpec::eq_spec(&self.material, &other.material)
    }
}

impl Clone for PlannerEvidenceEntryV2 {
    fn clone(&self) -> (r: Self)
        ensures
            r == *self,
    {
        PlannerEvidenceEntryV2 {
            evidence_id: self.evidence_id,
            normalized_content_digest: self.normalized_content_digest.clone(),
            material: self.material.clone(),
        }
    }
}

/// An evidence entry by identity and content.
#[derive(Debug)]
pub struct PlannerEvidenceBindingV2 {
    pub evidence_id: PlannerEvidenceEntryId,
    pub normalized_content_digest: Sha256Digest,
}

impl PartialEq for PlannerEvidenceBindingV2 {
    fn eq(&self, other: &Self) -> (r: bool) {
        self.evidence_id == other.evidence_id
            && self.normalized_content_digest == other.normalized_content_digest
    }
}

impl Eq for PlannerEvidenceBindingV2 {
}

impl vstd::std_specs::cmp::PartialEqSpecImpl for PlannerEvidenceBindingV2 {
    open spec fn obeys_eq_spec() -> bool {
        true
    }

    open spec fn eq_spec(&self, other: &Self) -> bool {
        &&& self.evidence_id == other.evidence_id
        &&& vstd::std_specs::cmp::PartialEqSpec::eq_spec(&self.normalized_content_digest, &other.normalized_content_digest)
    }
}

impl Clone for PlannerEvidenceBindingV2 {
    fn clone(&self) -> (r: Self)
        ensures
            r == *self,
    {
        PlannerEvidenceBindingV2 {
            evidence_id: self.evidence_id,
            normalized_content_digest: self.normalized_content_digest.clone(),
        }
    }
}

/// The complete evidence that one planner turn is given.
#[derive(Clone, Debug)]
pub struct PlannerEvidencePacketV2 {
    pub schema_version: u32,
    pub purpose: PlannerTurnPurposeV1,
    pub context_manifest_digest: Sha256Digest,
    pub entries: Vec<PlannerEvidenceEntryV2>,
}

impl PartialEq for PlannerEvidencePacketV2 {
    fn eq(&self, other: &Self) -> (r: bool) {
        self.schema_version == other.schema_version
            && self.purpose == other.purpose
            && self.context_manifest_digest == other.context_manifest_digest
            && self.entries == other.entries
    }
}

impl Eq for PlannerEvidencePacketV2 {
}

impl vstd::std_specs::cmp::PartialEqSpecImpl for PlannerEvidencePacketV2 {
    open spec fn obeys_eq_spec() -> bool {
        true
    }

    open spec fn eq_spec(&self, other: &Self) -> bool {
        &&& self.schema_version == other.schema_version
        &&& self.purpose == other.purpose
        &&& vstd::std_specs::cmp::PartialEqSpec::eq_spec(&self.context_manifest_digest, &other.context_manifest_digest)
        &&& vstd::std_specs::cmp::PartialEqSpec::eq_spec(&self.entries, &other.entries)
    }
}

/// What is new in a packet since the packet before it.
#[derive(Clone, Debug)]
pub struct PlannerEvidenceDeltaV2 {
    pub schema_version: u32,
    pub purpose: PlannerTurnPurposeV1,
    pub previous_packet_digest: Option<Sha256Digest>,
    pub previous_evidence: Vec<PlannerEvidenceBindingV2>,
    pub newly_available: Vec<PlannerEvidenceBindingV2>,
    pub delta_digest: Sha256Digest,
}

impl PartialEq for PlannerEvidenceDeltaV2 {
    fn eq(&self, other: &Self) -> (r: bool) {
        self.schema_version == other.schema_version
            && self.purpose == other.purpose
            && self.previous_packet_digest == other.previous_packet_digest
            && self.previous_evidence == other.previous_evidence
            && self.newly_available == other.newly_available
            && self.delta_digest == other.delta_digest
    }
}

impl Eq for PlannerEvidenceDeltaV2 {
}

impl vstd::std_specs::cmp::PartialEqSpecImpl for PlannerEvidenceDeltaV2 {
    open spec fn obeys_eq_spec() -> bool {
        true
    }

    open spec fn eq_spec(&self, other: &Self) -> bool {
        &&& self.schema_version == other.schema_version
        &&& self.purpose == other.purpose
        &&& vstd::std_specs::cmp::PartialEqSpec::eq_spec(&self.previous_packet_digest, &other.previous_packet_digest)
        &&& vstd::std_specs::cmp::PartialEqSpec::eq_spec(&self.previous_evidence, &other.previous_evidence)
        &&& vstd::std_specs::cmp::PartialEqSpec::eq_spec(&self.newly_available, &other.newly_available)
        &&& vstd::std_specs::cmp::PartialEqSpec::eq_spec(&self.delta_digest, &other.delta_digest)
    }
}

/// How much output the planner may reserve.
#[derive(Clone, Copy, Debug, PartialEq, Eq, Structural)]
pub struct PlannerOutputBudgetV1 {
    pub max_total_reserved_output_tokens: u64,
    pub max_output_tokens_per_call: u64,
}

/// A planner turn, fixed before it is sent.
#[derive(Clone, Debug)]
pub struct PlannerTurnPreparedV1 {
    pub schema_version: u32,
    pub turn_id: PlannerTurnId,
    pub purpose: PlannerTurnPurposeV1,
    pub claim_event_id: EventId,
    pub claim_id: RunClaimId,
    pub claim_generation: u64,
    pub claim_runtime_instance_id: RuntimeInstanceId,
    pub cancellation_generation: u64,
    pub base_plan: PlannerBasePlanBindingV1,
    pub obligation_snapshot_digest: Sha256Digest,
    pub acceptance_policy_digest: Sha256Digest,
    pub context_manifest_digest: Sha256Digest,
    pub planner_policy_digest: Sha256Digest,
    pub durable_evidence_packet: PlannerEvidencePacketV2,
    pub durable_evidence_packet_digest: Sha256Digest,
    pub durable_evidence_packet_artifact: ArtifactRef,
    pub durable_evidence_delta: PlannerEvidenceDeltaV2,
    pub durable_evidence_delta_digest: Sha256Digest,
    pub durable_evidence_delta_artifact: ArtifactRef,
    pub prompt_evidence_packet_digest: Sha256Digest,
    pub prompt_evidence_packet_artifact: ArtifactRef,
    pub prompt_evidence_delta_digest: Sha256Digest,
    pub prompt_evidence_delta_artifact: ArtifactRef,
    pub backend_model: BackendModelRef,
    pub backend_instance: BackendInstanceIdentity,
    pub model_lineage: ModelLineage,
    pub reasoning: Option<ReasoningSetting>,
    pub prompt_manifest_digest: Sha256Digest,
    pub prompt_manifest_artifact: ArtifactRef,
    pub prompt_digest: Sha256Digest,
    pub prompt_artifact: ArtifactRef,
    pub request_digest: Sha256Digest,
    pub request_artifact: ArtifactRef,
    pub token_reservation: TokenReservation,
    pub output_budget: PlannerOutputBudgetV1,
    pub prepared_at: RuntimeClockReading,
}

impl PartialEq for PlannerTurnPreparedV1 {
    fn eq(&self, other: &Self) -> (r: bool) {
        self.schema_version == other.schema_version
            && self.turn_id == other.turn_id
            && self.purpose == other.purpose
            && self.claim_event_id == other.claim_event_id
            && self.claim_id == other.claim_id
            && self.claim_generation == other.claim_generation
            && self.claim_runtime_instance_id == other.claim_runtime_instance_id
            && self.cancellation_generation == other.cancellation_generation
            && self.base_plan == other.base_plan
            && self.obligation_snapshot_digest == other.obligation_snapshot_digest
            && self.acceptance_policy_digest == other.acceptance_policy_digest
            && self.context_manifest_digest == other.context_manifest_digest
            && self.planner_policy_digest == other.planner_policy_digest
            && self.durable_evidence_packet == other.durable_evidence_packet
            && self.durable_evidence_packet_digest == other.durable_evidence_packet_digest
            && self.durable_evidence_packet_artifact == other.durable_evidence_packet_artifact
            && self.durable_evidence_delta == other.durable_evidence_delta
            && self.durable_evidence_delta_digest == other.durable_evidence_delta_digest
            && self.durable_evidence_delta_artifact == other.durable_evidence_delta_artifact
            && self.prompt_evidence_packet_digest == other.prompt_evidence_packet_digest
            && self.prompt_evidence_packet_artifact == other.prompt_evidence_packet_artifact
            && self.prompt_evidence_delta_digest == other.prompt_evidence_delta_digest
            && self.prompt_evidence_delta_artifact == other.prompt_evidence_delta_artifact
            && self.backend_model == other.backend_model
            && self.backend_instance == other.backend_instance
            && self.model_lineage == other.model_lineage
            && self.reasoning == other.reasoning
            && self.prompt_manifest_digest == other.prompt_manifest_digest
            && self.prompt_manifest_artifact == other.prompt_manifest_artifact
            && self.prompt_digest == other.prompt_digest
            && self.prompt_artifact == other.prompt_artifact
            && self.request_digest == other.request_digest
            && self.request_artifact == other.request_artifact
            && self.token_reservation == other.token_reservation
            && self.output_budget == other.output_budget
            && self.prepared_at == other.prepared_at
    }
}

impl Eq for PlannerTurnPreparedV1 {
}

impl vstd::std_specs::cmp::PartialEqSpecImpl for PlannerTurnPreparedV1 {
    open spec fn obeys_eq_spec() -> bool {
        true
    }

    open spec fn eq_spec(&self, other: &Self) -> bool {
        &&& self.schema_version == other.schema_version
        &&& self.turn_id == other.turn_id
        &&& self.purpose == other.purpose
        &&& self.claim_event_id == other.claim_event_id
        &&& self.claim_id == other.claim_id
        &&& self.claim_generation == other.claim_generation
        &&& self.claim_runtime_instance_id == other.claim_runtime_instance_id
        &&& self.cancellation_generation == other.cancellation_generation
        &&& vstd::std_specs::cmp::PartialEqSpec::eq_spec(&self.base_plan, &other.base_plan)
        &&& vstd::std_specs::cmp::PartialEqSpec::eq_spec(&self.obligation_snapshot_digest, &other.obligation_snapshot_digest)
        &&& vstd::std_specs::cmp::PartialEqSpec::eq_spec(&self.acceptance_policy_digest, &other.acceptance_policy_digest)
        &&& vstd::std_specs::cmp::PartialEqSpec::eq_spec(&self.context_manifest_digest, &other.context_manifest_digest)
        &&& vstd::std_specs::cmp::PartialEqSpec::eq_spec(&self.planner_policy_digest, &other.planner_policy_digest)
        &&& vstd::std_specs::cmp::PartialEqSpec::eq_spec(&self.durable_evidence_packet, &other.durable_evidence_packet)
        &&& vstd::std_specs::cmp::PartialEqSpec::eq_spec(&self.durable_evidence_packet_digest, &other.durable_evidence_packet_digest)
        &&& vstd::std_specs::cmp::PartialEqSpec::eq_spec(&self.durable_evidence_packet_artifact, &other.durable_evidence_packet_artifact)
        &&& vstd::std_specs::cmp::PartialEqSpec::eq_spec(&self.durable_evidence_delta, &other.durable_evidence_delta)
        &&& vstd::std_specs::cmp::PartialEqSpec::eq_spec(&self.durable_evidence_delta_digest, &other.durable_evidence_delta_digest)
        &&& vstd::std_specs::cmp::PartialEqSpec::eq_spec(&self.durable_evidence_delta_artifact, &other.durable_evidence_delta_artifact)
        &&& vstd::std_specs::cmp::PartialEqSpec::eq_spec(&self.prompt_evidence_packet_digest, &other.prompt_evidence_packet_digest)
        &&& vstd::std_specs::cmp::PartialEqSpec::eq_spec(&self.prompt_evidence_packet_artifact, &other.prompt_evidence_packet_artifact)
        &&& vstd::std_specs::cmp::PartialEqSpec::eq_spec(&self.prompt_evidence_delta_digest, &other.prompt_evidence_delta_digest)
        &&& vstd::std_specs::cmp::PartialEqSpec::eq_spec(&self.prompt_evidence_delta_artifact, &other.prompt_evidence_delta_artifact)
        &&& vstd::std_specs::cmp::PartialEqSpec::eq_spec(&self.backend_model, &other.backend_model)
        &&& vstd::std_specs::cmp::PartialEqSpec::eq_spec(&self.backend_instance, &other.backend_instance)
        &&& vstd::std_specs::cmp::PartialEqSpec::eq_spec(&self.model_lineage, &other.model_lineage)
        &&& self.reasoning == other.reasoning
        &&& vstd::std_specs::cmp::PartialEqSpec::eq_spec(&self.prompt_manifest_digest, &other.prompt_manifest_digest)
        &&& vstd::std_specs::cmp::PartialEqSpec::eq_spec(&self.prompt_manifest_artifact, &other.prompt_manifest_artifact)
        &&& vstd::std_specs::cmp::PartialEqSpec::eq_spec(&self.prompt_digest, &other.prompt_digest)
        &&& vstd::std_specs::cmp::PartialEqSpec::eq_spec(&self.prompt_artifact, &other.prompt_artifact)
        &&& vstd::std_specs::cmp::PartialEqSpec::eq_spec(&self.request_digest, &other.request_digest)
        &&& vstd::std_specs::cmp::PartialEqSpec::eq_spec(&self.request_artifact, &other.request_artifact)
        &&& self.token_reservation == other.token_reservation
        &&& self.output_budget == other.output_budget
        &&& self.prepared_at == other.prepared_at
    }
}

/// The terminal observation of a planner turn.
#[derive(Debug)]
pub enum PlannerTurnObservationV1 {
    Succeeded { reported_backend_model: BackendModelRef, token_usage: TokenUsage },
    Failed { error: PlannerInferenceError },
}

impl PartialEq for PlannerTurnObservationV1 {
    fn eq(&self, other: &Self) -> (r: bool) {
        match (self, other) {
            (PlannerTurnObservationV1::Succeeded { reported_backend_model, token_usage }, PlannerTurnObservationV1::Succeeded { reported_backend_model: other_reported_backend_model, token_usage: other_token_usage }) => {
                reported_backend_model == other_reported_backend_model
                    && token_usage == other_token_usage
            },
            (PlannerTurnObservationV1::Failed { error }, PlannerTurnObservationV1::Failed { error: other_error }) => {
                error == other_error
            },
            _ => false,
        }
    }
}

impl Eq for PlannerTurnObservationV1 {
}

impl vstd::std_specs::cmp::PartialEqSpecImpl for PlannerTurnObservationV1 {
    open spec fn obeys_eq_spec() -> bool {
        true
    }

    open spec fn eq_spec(&self, other: &Self) -> bool {
        match (self, other) {
            (PlannerTurnObservationV1::Succeeded { reported_backend_model, token_usage }, PlannerTurnObservationV1::Succeeded { reported_backend_model: other_reported_backend_model, token_usage: other_token_usage }) => {
                &&& vstd::std_specs::cmp::PartialEqSpec::eq_spec(reported_backend_model, other_reported_backend_model)
                &&& token_usage == other_token_usage
            },
            (PlannerTurnObservationV1::Failed { error }, PlannerTurnObservationV1::Failed { error: other_error }) => {
                &&& error == other_error
            },
            _ => false,
        }
    }
}

impl Clone for PlannerTurnObservationV1 {
    fn clone(&self) -> (r: Self)
        ensures
            r == *self,
    {
        match self {
            PlannerTurnObservationV1::Succeeded { reported_backend_model, token_usage } => PlannerTurnObservationV1::Succeeded {
                reported_backend_model: reported_backend_model.clone(),
                token_usage: *token_usage,
            },
            PlannerTurnObservationV1::Failed { error } => PlannerTurnObservationV1::Failed {
                error: *error,
            },
        }
    }
}

/// A planner turn was observed to end.
#[derive(Debug)]
pub struct PlannerTurnObservedV1 {
    pub turn_id: PlannerTurnId,
    pub prepared_event_id: EventId,
    pub outcome: PlannerTurnObservationV1,
    pub normalized_complete_evidence_artifact: ArtifactRef,
    pub observed_at: RuntimeClockReading,
}

impl PartialEq for PlannerTurnObservedV1 {
    fn eq(&self, other: &Self) -> (r: bool) {
        self.turn_id == other.turn_id
            && self.prepared_event_id == other.prepared_event_id
            && self.outcome == other.outcome
            && self.normalized_complete_evidence_artifact == other.normalized_complete_evidence_artifact
            && self.observed_at == other.observed_at
    }
}

impl Eq for PlannerTurnObservedV1 {
}

impl vstd::std_specs::cmp::PartialEqSpecImpl for PlannerTurnObservedV1 {
    open spec fn obeys_eq_spec() -> bool {
        true
    }

    open spec fn eq_spec(&self, other: &Self) -> bool {
        &&& self.turn_id == other.turn_id
        &&& self.prepared_event_id == other.prepared_event_id
        &&& vstd::std_specs::cmp::PartialEqSpec::eq_spec(&self.outcome, &other.outcome)
        &&& vstd::std_specs::cmp::PartialEqSpec::eq_spec(&self.normalized_complete_evidence_artifact, &other.normalized_complete_evidence_artifact)
        &&& self.observed_at == other.observed_at
    }
}

impl Clone for PlannerTurnObservedV1 {
    fn clone(&self) -> (r: Self)
        ensures
            r == *self,
    {
        PlannerTurnObservedV1 {
            turn_id: self.turn_id,
            prepared_event_id: self.prepared_event_id,
            outcome: self.outcome.clone(),
            normalized_complete_evidence_artifact: self.normalized_complete_evidence_artifact.clone(),
            observed_at: self.observed_at,
        }
    }
}

/// The outcome of a planner turn is unknown.
#[derive(Debug)]
pub struct PlannerTurnUnknownV1 {
    pub turn_id: PlannerTurnId,
    pub prepared_event_id: EventId,
    pub boundary: UnknownInferenceBoundary,
    pub reason: UnknownInferenceOutcomeReason,
    pub cancellation: Option<ChildCancellationCauseV1>,
    pub boundary_evidence_artifact: ArtifactRef,
    pub boundary_at: RuntimeClockReading,
}

impl PartialEq for PlannerTurnUnknownV1 {
    fn eq(&self, other: &Self) -> (r: bool) {
        self.turn_id == other.turn_id
            && self.prepared_event_id == other.prepared_event_id
            && self.boundary == other.boundary
            && self.reason == other.reason
            && self.cancellation == other.cancellation
            && self.boundary_evidence_artifact == other.boundary_evidence_artifact
            && self.boundary_at == other.boundary_at
    }
}

impl Eq for PlannerTurnUnknownV1 {
}

impl vstd::std_specs::cmp::PartialEqSpecImpl for PlannerTurnUnknownV1 {
    open spec fn obeys_eq_spec() -> bool {
        true
    }

    open spec fn eq_spec(&self, other: &Self) -> bool {
        &&& self.turn_id == other.turn_id
        &&& self.prepared_event_id == other.prepared_event_id
        &&& self.boundary == other.boundary
        &&& self.reason == other.reason
        &&& self.cancellation == other.cancellation
        &&& vstd::std_specs::cmp::PartialEqSpec::eq_spec(&self.boundary_evidence_artifact, &other.boundary_evidence_artifact)
        &&& self.boundary_at == other.boundary_at
    }
}

impl Clone for PlannerTurnUnknownV1 {
    fn clone(&self) -> (r: Self)
        ensures
            r == *self,
    {
        PlannerTurnUnknownV1 {
            turn_id: self.turn_id,
            prepared_event_id: self.prepared_event_id,
            boundary: self.boundary,
            reason: self.reason,
            cancellation: self.cancellation,
            boundary_evidence_artifact: self.boundary_evidence_artifact.clone(),
            boundary_at: self.boundary_at,
        }
    }
}

/// The kind of directive that the model chose.
#[derive(Clone, Copy, Debug, PartialEq, Eq, Structural)]
pub enum PlannerPromptDirectiveKindV1 {
    Execute,
    Delegate,
    Clarify,
    Escalate,
    Finish,
}

/// A selection of work orders: those that exist, and those that the turn itself adds.
#[derive(Clone, Debug)]
pub struct PlannerPromptWorkSelectionV1 {
    pub existing: Vec<Text>,
    pub new: Vec<u32>,
}

impl PartialEq for PlannerPromptWorkSelectionV1 {
    fn eq(&self, other: &Self) -> (r: bool) {
        self.existing == other.existing
            && self.new == other.new
    }
}

impl Eq for PlannerPromptWorkSelectionV1 {
}

impl vstd::std_specs::cmp::PartialEqSpecImpl for PlannerPromptWorkSelectionV1 {
    open spec fn obeys_eq_spec() -> bool {
        true
    }

    open spec fn eq_spec(&self, other: &Self) -> bool {
        &&& vstd::std_specs::cmp::PartialEqSpec::eq_spec(&self.existing, &other.existing)
        &&& vstd::std_specs::cmp::PartialEqSpec::eq_spec(&self.new, &other.new)
    }
}

/// One delegation of the model's directive.
#[derive(Clone, Debug)]
pub struct PlannerPromptDelegationV1 {
    pub work_orders: PlannerPromptWorkSelectionV1,
}

impl PartialEq for PlannerPromptDelegationV1 {
    fn eq(&self, other: &Self) -> (r: bool) {
        self.work_orders == other.work_orders
    }
}

impl Eq for PlannerPromptDelegationV1 {
}

impl vstd::std_specs::cmp::PartialEqSpecImpl for PlannerPromptDelegationV1 {
    open spec fn obeys_eq_spec() -> bool {
        true
    }

    open spec fn eq_spec(&self, other: &Self) -> bool {
        &&& vstd::std_specs::cmp::PartialEqSpec::eq_spec(&self.work_orders, &other.work_orders)
    }
}

/// The directive as the model wrote it; each request and claim is its canonical JSON text.
#[derive(Clone, Debug)]
pub struct PlannerPromptDirectiveV1 {
    pub kind: PlannerPromptDirectiveKindV1,
    pub execute: PlannerPromptWorkSelectionV1,
    pub delegations: Vec<PlannerPromptDelegationV1>,
    pub clarifications: Vec<Text>,
    pub escalations: Vec<Text>,
    pub finish_claims: Vec<Text>,
}

impl PartialEq for PlannerPromptDirectiveV1 {
    fn eq(&self, other: &Self) -> (r: bool) {
        self.kind == other.kind
            && self.execute == other.execute
            && self.delegations == other.delegations
            && self.clarifications == other.clarifications
            && self.escalations == other.escalations
            && self.finish_claims == other.finish_claims
    }
}

impl Eq for PlannerPromptDirectiveV1 {
}

impl vstd::std_specs::cmp::PartialEqSpecImpl for PlannerPromptDirectiveV1 {
    open spec fn obeys_eq_spec() -> bool {
        true
    }

    open spec fn eq_spec(&self, other: &Self) -> bool {
        &&& self.kind == other.kind
        &&& vstd::std_specs::cmp::PartialEqSpec::eq_spec(&self.execute, &other.execute)
        &&& vstd::std_specs::cmp::PartialEqSpec::eq_spec(&self.delegations, &other.delegations)
        &&& vstd::std_specs::cmp::PartialEqSpec::eq_spec(&self.clarifications, &other.clarifications)
        &&& vstd::std_specs::cmp::PartialEqSpec::eq_spec(&self.escalations, &other.escalations)
        &&& vstd::std_specs::cmp::PartialEqSpec::eq_spec(&self.finish_claims, &other.finish_claims)
    }
}

/// The identities that the model's output repeats.
#[derive(Debug)]
pub struct PlannerPromptBindingsV1 {
    pub purpose: PlannerTurnPurposeV1,
    pub prompt_id: Text,
    pub prompt_version: Text,
    pub prompt_manifest_sha256: Sha256Digest,
    pub plan_id: Text,
    pub base_revision: u64,
    pub base_plan_sha256: Sha256Digest,
    pub obligation_snapshot_sha256: Sha256Digest,
    pub acceptance_policy_sha256: Sha256Digest,
    pub context_manifest_sha256: Sha256Digest,
    pub planner_policy_sha256: Sha256Digest,
    pub evidence_packet_sha256: Sha256Digest,
    pub previous_evidence_packet_sha256: Option<Sha256Digest>,
    pub evidence_delta_sha256: Sha256Digest,
    pub backend_id: Text,
    pub model_id: Text,
    pub reasoning: Option<ReasoningSetting>,
    pub budget_reservation_id: TokenReservationId,
    pub max_output_tokens: u32,
}

impl PartialEq for PlannerPromptBindingsV1 {
    fn eq(&self, other: &Self) -> (r: bool) {
        self.purpose == other.purpose
            && self.prompt_id == other.prompt_id
            && self.prompt_version == other.prompt_version
            && self.prompt_manifest_sha256 == other.prompt_manifest_sha256
            && self.plan_id == other.plan_id
            && self.base_revision == other.base_revision
            && self.base_plan_sha256 == other.base_plan_sha256
            && self.obligation_snapshot_sha256 == other.obligation_snapshot_sha256
            && self.acceptance_policy_sha256 == other.acceptance_policy_sha256
            && self.context_manifest_sha256 == other.context_manifest_sha256
            && self.planner_policy_sha256 == other.planner_policy_sha256
            && self.evidence_packet_sha256 == other.evidence_packet_sha256
            && self.previous_evidence_packet_sha256 == other.previous_evidence_packet_sha256
            && self.evidence_delta_sha256 == other.evidence_delta_sha256
            && self.backend_id == other.backend_id
            && self.model_id == other.model_id
            && self.reasoning == other.reasoning
            && self.budget_reservation_id == other.budget_reservation_id
            && self.max_output_tokens == other.max_output_tokens
    }
}

impl Eq for PlannerPromptBindingsV1 {
}

impl vstd::std_specs::cmp::PartialEqSpecImpl for PlannerPromptBindingsV1 {
    open spec fn obeys_eq_spec() -> bool {
        true
    }

    open spec fn eq_spec(&self, other: &Self) -> bool {
        &&& self.purpose == other.purpose
        &&& vstd::std_specs::cmp::PartialEqSpec::eq_spec(&self.prompt_id, &other.prompt_id)
        &&& vstd::std_specs::cmp::PartialEqSpec::eq_spec(&self.prompt_version, &other.prompt_version)
        &&& vstd::std_specs::cmp::PartialEqSpec::eq_spec(&self.prompt_manifest_sha256, &other.prompt_manifest_sha256)
        &&& vstd::std_specs::cmp::PartialEqSpec::eq_spec(&self.plan_id, &other.plan_id)
        &&& self.base_revision == other.base_revision
        &&& vstd::std_specs::cmp::PartialEqSpec::eq_spec(&self.base_plan_sha256, &other.base_plan_sha256)
        &&& vstd::std_specs::cmp::PartialEqSpec::eq_spec(&self.obligation_snapshot_sha256, &other.obligation_snapshot_sha256)
        &&& vstd::std_specs::cmp::PartialEqSpec::eq_spec(&self.acceptance_policy_sha256, &other.acceptance_policy_sha256)
        &&& vstd::std_specs::cmp::PartialEqSpec::eq_spec(&self.context_manifest_sha256, &other.context_manifest_sha256)
        &&& vstd::std_specs::cmp::PartialEqSpec::eq_spec(&self.planner_policy_sha256, &other.planner_policy_sha256)
        &&& vstd::std_specs::cmp::PartialEqSpec::eq_spec(&self.evidence_packet_sha256, &other.evidence_packet_sha256)
        &&& vstd::std_specs::cmp::PartialEqSpec::eq_spec(&self.previous_evidence_packet_sha256, &other.previous_evidence_packet_sha256)
        &&& vstd::std_specs::cmp::PartialEqSpec::eq_spec(&self.evidence_delta_sha256, &other.evidence_delta_sha256)
        &&& vstd::std_specs::cmp::PartialEqSpec::eq_spec(&self.backend_id, &other.backend_id)
        &&& vstd::std_specs::cmp::PartialEqSpec::eq_spec(&self.model_id, &other.model_id)
        &&& self.reasoning == other.reasoning
        &&& self.budget_reservation_id == other.budget_reservation_id
        &&& self.max_output_tokens == other.max_output_tokens
    }
}

impl Clone for PlannerPromptBindingsV1 {
    fn clone(&self) -> (r: Self)
        ensures
            r == *self,
    {
        PlannerPromptBindingsV1 {
            purpose: self.purpose,
            prompt_id: self.prompt_id.clone(),
            prompt_version: self.prompt_version.clone(),
            prompt_manifest_sha256: self.prompt_manifest_sha256.clone(),
            plan_id: self.plan_id.clone(),
            base_revision: self.base_revision,
            base_plan_sha256: self.base_plan_sha256.clone(),
            obligation_snapshot_sha256: self.obligation_snapshot_sha256.clone(),
            acceptance_policy_sha256: self.acceptance_policy_sha256.clone(),
            context_manifest_sha256: self.context_manifest_sha256.clone(),
            planner_policy_sha256: self.planner_policy_sha256.clone(),
            evidence_packet_sha256: self.evidence_packet_sha256.clone(),
            previous_evidence_packet_sha256: self.previous_evidence_packet_sha256.clone(),
            evidence_delta_sha256: self.evidence_delta_sha256.clone(),
            backend_id: self.backend_id.clone(),
            model_id: self.model_id.clone(),
            reasoning: self.reasoning,
            budget_reservation_id: self.budget_reservation_id,
            max_output_tokens: self.max_output_tokens,
        }
    }
}

/// The model's output in the form that is kept.
#[derive(Clone, Debug)]
pub struct PlannerPromptV2AcceptedOutputV1 {
    pub schema_version: u32,
    pub bindings: PlannerPromptBindingsV1,
    pub directive: PlannerPromptDirectiveV1,
}

impl PartialEq for PlannerPromptV2AcceptedOutputV1 {
    fn eq(&self, other: &Self) -> (r: bool) {
        self.schema_version == other.schema_version
            && self.bindings == other.bindings
            && self.directive == other.directive
    }
}

impl Eq for PlannerPromptV2AcceptedOutputV1 {
}

impl vstd::std_specs::cmp::PartialEqSpecImpl for PlannerPromptV2AcceptedOutputV1 {
    open spec fn obeys_eq_spec() -> bool {
        true
    }

    open spec fn eq_spec(&self, other: &Self) -> bool {
        &&& self.schema_version == other.schema_version
        &&& vstd::std_specs::cmp::PartialEqSpec::eq_spec(&self.bindings, &other.bindings)
        &&& vstd::std_specs::cmp::PartialEqSpec::eq_spec(&self.directive, &other.directive)
    }
}

/// One exact work order of an accepted plan.
#[derive(Debug)]
pub struct PlannerDelegatedWorkOrderBindingV1 {
    pub work_order_id: Text,
    pub revision: u64,
    pub work_order_artifact: ArtifactRef,
    pub work_order_digest: Sha256Digest,
}

impl PartialEq for PlannerDelegatedWorkOrderBindingV1 {
    fn eq(&self, other: &Self) -> (r: bool) {
        self.work_order_id == other.work_order_id
            && self.revision == other.revision
            && self.work_order_artifact == other.work_order_artifact
            && self.work_order_digest == other.work_order_digest
    }
}

impl Eq for PlannerDelegatedWorkOrderBindingV1 {
}

impl vstd::std_specs::cmp::PartialEqSpecImpl for PlannerDelegatedWorkOrderBindingV1 {
    open spec fn obeys_eq_spec() -> bool {
        true
    }

    open spec fn eq_spec(&self, other: &Self) -> bool {
        &&& vstd::std_specs::cmp::PartialEqSpec::eq_spec(&self.work_order_id, &other.work_order_id)
        &&& self.revision == other.revision
        &&& vstd::std_specs::cmp::PartialEqSpec::eq_spec(&self.work_order_artifact, &other.work_order_artifact)
        &&& vstd::std_specs::cmp::PartialEqSpec::eq_spec(&self.work_order_digest, &other.work_order_digest)
    }
}

impl Clone for PlannerDelegatedWorkOrderBindingV1 {
    fn clone(&self) -> (r: Self)
        ensures
            r == *self,
    {
        PlannerDelegatedWorkOrderBindingV1 {
            work_order_id: self.work_order_id.clone(),
            revision: self.revision,
            work_order_artifact: self.work_order_artifact.clone(),
            work_order_digest: self.work_order_digest.clone(),
        }
    }
}

/// One delegation, with its work orders resolved.
#[derive(Clone, Debug)]
pub struct PlannerAcceptedDelegationV1 {
    pub directive_id: PlannerDelegateDirectiveId,
    pub source_delegation_index: u32,
    pub work_orders: Vec<PlannerDelegatedWorkOrderBindingV1>,
}

impl PartialEq for PlannerAcceptedDelegationV1 {
    fn eq(&self, other: &Self) -> (r: bool) {
        self.directive_id == other.directive_id
            && self.source_delegation_index == other.source_delegation_index
            && self.work_orders == other.work_orders
    }
}

impl Eq for PlannerAcceptedDelegationV1 {
}

impl vstd::std_specs::cmp::PartialEqSpecImpl for PlannerAcceptedDelegationV1 {
    open spec fn obeys_eq_spec() -> bool {
        true
    }

    open spec fn eq_spec(&self, other: &Self) -> bool {
        &&& self.directive_id == other.directive_id
        &&& self.source_delegation_index == other.source_delegation_index
        &&& vstd::std_specs::cmp::PartialEqSpec::eq_spec(&self.work_orders, &other.work_orders)
    }
}

/// The directive with every work order resolved against the resulting plan.
#[derive(Clone, Debug)]
pub enum PlannerAcceptedDirectiveV1 {
    Execute { work_order: PlannerDelegatedWorkOrderBindingV1 },
    Delegate { delegations: Vec<PlannerAcceptedDelegationV1> },
    Clarify { requests: Vec<Text> },
    Escalate { requests: Vec<Text> },
    FinishPendingGate { claims: Vec<Text> },
}

impl PartialEq for PlannerAcceptedDirectiveV1 {
    fn eq(&self, other: &Self) -> (r: bool) {
        match (self, other) {
            (PlannerAcceptedDirectiveV1::Execute { work_order }, PlannerAcceptedDirectiveV1::Execute { work_order: other_work_order }) => {
                work_order == other_work_order
            },
            (PlannerAcceptedDirectiveV1::Delegate { delegations }, PlannerAcceptedDirectiveV1::Delegate { delegations: other_delegations }) => {
                delegations == other_delegations
            },
            (PlannerAcceptedDirectiveV1::Clarify { requests }, PlannerAcceptedDirectiveV1::Clarify { requests: other_requests }) => {
                requests == other_requests
            },
            (PlannerAcceptedDirectiveV1::Escalate { requests }, PlannerAcceptedDirectiveV1::Escalate { requests: other_requests }) => {
                requests == other_requests
            },
            (PlannerAcceptedDirectiveV1::FinishPendingGate { claims }, PlannerAcceptedDirectiveV1::FinishPendingGate { claims: other_claims }) => {
                claims == other_claims
            },
            _ => false,
        }
    }
}

impl Eq for PlannerAcceptedDirectiveV1 {
}

impl vstd::std_specs::cmp::PartialEqSpecImpl for PlannerAcceptedDirectiveV1 {
    open spec fn obeys_eq_spec() -> bool {
        true
    }

    open spec fn eq_spec(&self, other: &Self) -> bool {
        match (self, other) {
            (PlannerAcceptedDirectiveV1::Execute { work_order }, PlannerAcceptedDirectiveV1::Execute { work_order: other_work_order }) => {
                &&& vstd::std_specs::cmp::PartialEqSpec::eq_spec(work_order, other_work_order)
            },
            (PlannerAcceptedDirectiveV1::Delegate { delegations }, PlannerAcceptedDirectiveV1::Delegate { delegations: other_delegations }) => {
                &&& vstd::std_specs::cmp::PartialEqSpec::eq_spec(delegations, other_delegations)
            },
            (PlannerAcceptedDirectiveV1::Clarify { requests }, PlannerAcceptedDirectiveV1::Clarify { requests: other_requests }) => {
                &&& vstd::std_specs::cmp::PartialEqSpec::eq_spec(requests, other_requests)
            },
            (PlannerAcceptedDirectiveV1::Escalate { requests }, PlannerAcceptedDirectiveV1::Escalate { requests: other_requests }) => {
                &&& vstd::std_specs::cmp::PartialEqSpec::eq_spec(requests, other_requests)
            },
            (PlannerAcceptedDirectiveV1::FinishPendingGate { claims }, PlannerAcceptedDirectiveV1::FinishPendingGate { claims: other_claims }) => {
                &&& vstd::std_specs::cmp::PartialEqSpec::eq_spec(claims, other_claims)
            },
            _ => false,
        }
    }
}

/// A planner turn was accepted.
#[derive(Clone, Debug)]
pub struct PlannerTurnAcceptedV1 {
    pub turn_id: PlannerTurnId,
    pub purpose: PlannerTurnPurposeV1,
    pub prepared_event_id: EventId,
    pub observed_event_id: EventId,
    pub base_plan: PlannerBasePlanBindingV1,
    pub resulting_plan: PlannerBasePlanBindingV1,
    pub accepted_prompt_output_artifact: ArtifactRef,
    pub accepted_prompt_output_digest: Sha256Digest,
    pub accepted_prompt_output: PlannerPromptV2AcceptedOutputV1,
    pub resolved_directive: PlannerAcceptedDirectiveV1,
    pub validation_evidence_artifact: ArtifactRef,
    pub validation_evidence_digest: Sha256Digest,
    pub accepted_at: RuntimeClockReading,
}

impl PartialEq for PlannerTurnAcceptedV1 {
    fn eq(&self, other: &Self) -> (r: bool) {
        self.turn_id == other.turn_id
            && self.purpose == other.purpose
            && self.prepared_event_id == other.prepared_event_id
            && self.observed_event_id == other.observed_event_id
            && self.base_plan == other.base_plan
            && self.resulting_plan == other.resulting_plan
            && self.accepted_prompt_output_artifact == other.accepted_prompt_output_artifact
            && self.accepted_prompt_output_digest == other.accepted_prompt_output_digest
            && self.accepted_prompt_output == other.accepted_prompt_output
            && self.resolved_directive == other.resolved_directive
            && self.validation_evidence_artifact == other.validation_evidence_artifact
            && self.validation_evidence_digest == other.validation_evidence_digest
            && self.accepted_at == other.accepted_at
    }
}

impl Eq for PlannerTurnAcceptedV1 {
}

impl vstd::std_specs::cmp::PartialEqSpecImpl for PlannerTurnAcceptedV1 {
    open spec fn obeys_eq_spec() -> bool {
        true
    }

    open spec fn eq_spec(&self, other: &Self) -> bool {
        &&& self.turn_id == other.turn_id
        &&& self.purpose == other.purpose
        &&& self.prepared_event_id == other.prepared_event_id
        &&& self.observed_event_id == other.observed_event_id
        &&& vstd::std_specs::cmp::PartialEqSpec::eq_spec(&self.base_plan, &other.base_plan)
        &&& vstd::std_specs::cmp::PartialEqSpec::eq_spec(&self.resulting_plan, &other.resulting_plan)
        &&& vstd::std_specs::cmp::PartialEqSpec::eq_spec(&self.accepted_prompt_output_artifact, &other.accepted_prompt_output_artifact)
        &&& vstd::std_specs::cmp::PartialEqSpec::eq_spec(&self.accepted_prompt_output_digest, &other.accepted_prompt_output_digest)
        &&& vstd::std_specs::cmp::PartialEqSpec::eq_spec(&self.accepted_prompt_output, &other.accepted_prompt_output)
        &&& vstd::std_specs::cmp::PartialEqSpec::eq_spec(&self.resolved_directive, &other.resolved_directive)
        &&& vstd::std_specs::cmp::PartialEqSpec::eq_spec(&self.validation_evidence_artifact, &other.validation_evidence_artifact)
        &&& vstd::std_specs::cmp::PartialEqSpec::eq_spec(&self.validation_evidence_digest, &other.validation_evidence_digest)
        &&& self.accepted_at == other.accepted_at
    }
}

/// Why a planner turn was rejected, strongest reason first.
#[derive(Clone, Copy, Debug, PartialEq, Eq, Structural)]
pub enum PlannerTurnRejectionReasonV1 {
    InvalidSchema,
    WrongPurpose,
    StaleBasePlan,
    EvidenceOmitted,
    EvidenceSubstituted,
    EvidenceFabricated,
    DirectiveInvalid,
    PolicyLimitExceeded,
    BindingMismatch,
}

/// A planner turn was rejected.
#[derive(Debug)]
pub struct PlannerTurnRejectedV1 {
    pub turn_id: PlannerTurnId,
    pub purpose: PlannerTurnPurposeV1,
    pub prepared_event_id: EventId,
    pub observed_event_id: EventId,
    pub base_plan: PlannerBasePlanBindingV1,
    pub rejected_output_artifact: ArtifactRef,
    pub rejected_output_digest: Sha256Digest,
    pub reason: PlannerTurnRejectionReasonV1,
    pub validation_evidence_artifact: ArtifactRef,
    pub validation_evidence_digest: Sha256Digest,
    pub rejected_at: RuntimeClockReading,
}

impl PartialEq for PlannerTurnRejectedV1 {
    fn eq(&self, other: &Self) -> (r: bool) {
        self.turn_id == other.turn_id
            && self.purpose == other.purpose
            && self.prepared_event_id == other.prepared_event_id
            && self.observed_event_id == other.observed_event_id
            && self.base_plan == other.base_plan
            && self.rejected_output_artifact == other.rejected_output_artifact
            && self.rejected_output_digest == other.rejected_output_digest
            && self.reason == other.reason
            && self.validation_evidence_artifact == other.validation_evidence_artifact
            && self.validation_evidence_digest == other.validation_evidence_digest
            && self.rejected_at == other.rejected_at
    }
}

impl Eq for PlannerTurnRejectedV1 {
}

impl vstd::std_specs::cmp::PartialEqSpecImpl for PlannerTurnRejectedV1 {
    open spec fn obeys_eq_spec() -> bool {
        true
    }

    open spec fn eq_spec(&self, other: &Self) -> bool {
        &&& self.turn_id == other.turn_id
        &&& self.purpose == other.purpose
        &&& self.prepared_event_id == other.prepared_event_id
        &&& self.observed_event_id == other.observed_event_id
        &&& vstd::std_specs::cmp::PartialEqSpec::eq_spec(&self.base_plan, &other.base_plan)
        &&& vstd::std_specs::cmp::PartialEqSpec::eq_spec(&self.rejected_output_artifact, &other.rejected_output_artifact)
        &&& vstd::std_specs::cmp::PartialEqSpec::eq_spec(&self.rejected_output_digest, &other.rejected_output_digest)
        &&& self.reason == other.reason
        &&& vstd::std_specs::cmp::PartialEqSpec::eq_spec(&self.validation_evidence_artifact, &other.validation_evidence_artifact)
        &&& vstd::std_specs::cmp::PartialEqSpec::eq_spec(&self.validation_evidence_digest, &other.validation_evidence_digest)
        &&& self.rejected_at == other.rejected_at
    }
}

impl Clone for PlannerTurnRejectedV1 {
    fn clone(&self) -> (r: Self)
        ensures
            r == *self,
    {
        PlannerTurnRejectedV1 {
            turn_id: self.turn_id,
            purpose: self.purpose,
            prepared_event_id: self.prepared_event_id,
            observed_event_id: self.observed_event_id,
            base_plan: self.base_plan.clone(),
            rejected_output_artifact: self.rejected_output_artifact.clone(),
            rejected_output_digest: self.rejected_output_digest.clone(),
            reason: self.reason,
            validation_evidence_artifact: self.validation_evidence_artifact.clone(),
            validation_evidence_digest: self.validation_evidence_digest.clone(),
            rejected_at: self.rejected_at,
        }
    }
}

/// The completion gate of a reconnaissance run was passed.
#[derive(Debug)]
pub struct ReconCompletionGateAcceptedV1 {
    pub resulting_plan: PlannerBasePlanBindingV1,
    pub receipt_artifact: ArtifactRef,
    /// What the other identity fields of the record hold.
    pub other_identities: LifecycleIdentities,
}

impl PartialEq for ReconCompletionGateAcceptedV1 {
    fn eq(&self, other: &Self) -> (r: bool) {
        self.resulting_plan == other.resulting_plan
            && self.receipt_artifact == other.receipt_artifact
            && self.other_identities == other.other_identities
    }
}

impl Eq for ReconCompletionGateAcceptedV1 {
}

impl vstd::std_specs::cmp::PartialEqSpecImpl for ReconCompletionGateAcceptedV1 {
    open spec fn obeys_eq_spec() -> bool {
        true
    }

    open spec fn eq_spec(&self, other: &Self) -> bool {
        &&& vstd::std_specs::cmp::PartialEqSpec::eq_spec(&self.resulting_plan, &other.resulting_plan)
        &&& vstd::std_specs::cmp::PartialEqSpec::eq_spec(&self.receipt_artifact, &other.receipt_artifact)
        &&& self.other_identities == other.other_identities
    }
}

impl Clone for ReconCompletionGateAcceptedV1 {
    fn clone(&self) -> (r: Self)
        ensures
            r == *self,
    {
        ReconCompletionGateAcceptedV1 {
            resulting_plan: self.resulting_plan.clone(),
            receipt_artifact: self.receipt_artifact.clone(),
            other_identities: self.other_identities,
        }
    }
}

} // verus!

//! Documents of the planner's prompt.

use vstd::prelude::*;
use crate::artifact::{ArtifactRef};
use crate::child_outcome::{ChildCancellationCauseV1, ChildExecutionBinding, ChildExecutionFailureCauseV1, ChildExecutionFailureKind};
use crate::digest::{Sha256Digest};
use crate::identity::{ChildHandoffId, EventId, PlanSemanticReviewId, PlannerEvidenceEntryId, TokenReservationId};
use crate::retained::{RootPlannerOutput, StructuredInferenceRequest};
use crate::run::{RetryDisposition};
use crate::text::{Text};

verus! {

/// What a prompt says that its turn is for.
#[derive(Clone, Copy, Debug, PartialEq, Eq, Structural)]
pub enum PlannerReplannerV2Purpose {
    InitialDelegation,
    EvidenceReplan,
}

/// How much a prompt says that the model is asked to reason.
#[derive(Clone, Copy, Debug, PartialEq, Eq, Structural)]
pub enum PlannerReplannerV2Reasoning {
    Off,
    On,
    Low,
    Medium,
    High,
}

/// A child's handoff; `content` is the canonical JSON of what the child found.
#[derive(Debug)]
pub struct ChildHandoffDocument {
    pub contract_version: u32,
    pub binding: ChildExecutionBinding,
    pub handoff_id: ChildHandoffId,
    pub content: Text,
}

impl PartialEq for ChildHandoffDocument {
    fn eq(&self, other: &Self) -> (r: bool) {
        self.contract_version == other.contract_version
            && self.binding == other.binding
            && self.handoff_id == other.handoff_id
            && self.content == other.content
    }
}

impl Eq for ChildHandoffDocument {
}

impl vstd::std_specs::cmp::PartialEqSpecImpl for ChildHandoffDocument {
    open spec fn obeys_eq_spec() -> bool {
        true
    }

    open spec fn eq_spec(&self, other: &Self) -> bool {
        &&& self.contract_version == other.contract_version
        &&& self.binding == other.binding
        &&& self.handoff_id == other.handoff_id
        &&& vstd::std_specs::cmp::PartialEqSpec::eq_spec(&self.content, &other.content)
    }
}

impl Clone for ChildHandoffDocument {
    fn clone(&self) -> (r: Self)
        ensures
            r == *self,
    {
        ChildHandoffDocument {
            contract_version: self.contract_version,
            binding: self.binding,
            handoff_id: self.handoff_id,
            content: self.content.clone(),
        }
    }
}

/// Why an execution of a child failed; `diagnostic` is canonical JSON.
#[derive(Debug)]
pub struct ChildExecutionFailureEvidenceV1 {
    pub contract_version: u32,
    pub binding: ChildExecutionBinding,
    pub kind: ChildExecutionFailureKind,
    pub retry: RetryDisposition,
    pub diagnostic: Text,
}

impl PartialEq for ChildExecutionFailureEvidenceV1 {
    fn eq(&self, other: &Self) -> (r: bool) {
        self.contract_version == other.contract_version
            && self.binding == other.binding
            && self.kind == other.kind
            && self.retry == other.retry
            && self.diagnostic == other.diagnostic
    }
}

impl Eq for ChildExecutionFailureEvidenceV1 {
}

impl vstd::std_specs::cmp::PartialEqSpecImpl for ChildExecutionFailureEvidenceV1 {
    open spec fn obeys_eq_spec() -> bool {
        true
    }

    open spec fn eq_spec(&self, other: &Self) -> bool {
        &&& self.contract_version == other.contract_version
        &&& self.binding == other.binding
        &&& self.kind == other.kind
        &&& self.retry == other.retry
        &&& vstd::std_specs::cmp::PartialEqSpec::eq_spec(&self.diagnostic, &other.diagnostic)
    }
}

impl Clone for ChildExecutionFailureEvidenceV1 {
    fn clone(&self) -> (r: Self)
        ensures
            r == *self,
    {
        ChildExecutionFailureEvidenceV1 {
            contract_version: self.contract_version,
            binding: self.binding,
            kind: self.kind,
            retry: self.retry,
            diagnostic: self.diagnostic.clone(),
        }
    }
}

/// The accepted root plan, as the prompt is given it.
#[derive(Debug)]
pub struct PlannerPromptRootPlanV2 {
    pub contract_version: u32,
    pub review_event_id: EventId,
    pub review_id: PlanSemanticReviewId,
    pub proposal_event_id: EventId,
    pub plan_revision: u64,
    pub plan_digest: Sha256Digest,
    pub plan_artifact: ArtifactRef,
    pub critique_artifact: ArtifactRef,
    pub validation_evidence_artifact: ArtifactRef,
    pub plan: RootPlannerOutput,
}

impl PartialEq for PlannerPromptRootPlanV2 {
    fn eq(&self, other: &Self) -> (r: bool) {
        self.contract_version == other.contract_version
            && self.review_event_id == other.review_event_id
            && self.review_id == other.review_id
            && self.proposal_event_id == other.proposal_event_id
            && self.plan_revision == other.plan_revision
            && self.plan_digest == other.plan_digest
            && self.plan_artifact == other.plan_artifact
            && self.critique_artifact == other.critique_artifact
            && self.validation_evidence_artifact == other.validation_evidence_artifact
            && self.plan == other.plan
    }
}

impl Eq for PlannerPromptRootPlanV2 {
}

impl vstd::std_specs::cmp::PartialEqSpecImpl for PlannerPromptRootPlanV2 {
    open spec fn obeys_eq_spec() -> bool {
        true
    }

    open spec fn eq_spec(&self, other: &Self) -> bool {
        &&& self.contract_version == other.contract_version
        &&& self.review_event_id == other.review_event_id
        &&& self.review_id == other.review_id
        &&& self.proposal_event_id == other.proposal_event_id
        &&& self.plan_revision == other.plan_revision
        &&& vstd::std_specs::cmp::PartialEqSpec::eq_spec(&self.plan_digest, &other.plan_digest)
        &&& vstd::std_specs::cmp::PartialEqSpec::eq_spec(&self.plan_artifact, &other.plan_artifact)
        &&& vstd::std_specs::cmp::PartialEqSpec::eq_spec(&self.critique_artifact, &other.critique_artifact)
        &&& vstd::std_specs::cmp::PartialEqSpec::eq_spec(&self.validation_evidence_artifact, &other.validation_evidence_artifact)
        &&& vstd::std_specs::cmp::PartialEqSpec::eq_spec(&self.plan, &other.plan)
    }
}

impl Clone for PlannerPromptRootPlanV2 {
    fn clone(&self) -> (r: Self)
        ensures
            r == *self,
    {
        PlannerPromptRootPlanV2 {
            contract_version: self.contract_version,
            review_event_id: self.review_event_id,
            review_id: self.review_id,
            proposal_event_id: self.proposal_event_id,
            plan_revision: self.plan_revision,
            plan_digest: self.plan_digest.clone(),
            plan_artifact: self.plan_artifact.clone(),
            critique_artifact: self.critique_artifact.clone(),
            validation_evidence_artifact: self.validation_evidence_artifact.clone(),
            plan: self.plan.clone(),
        }
    }
}

/// A child's handoff, as the prompt is given it.
#[derive(Debug)]
pub struct PlannerPromptHandoffV2 {
    pub contract_version: u32,
    pub committed_event_id: EventId,
    pub handoff_artifact: ArtifactRef,
    pub handoff: ChildHandoffDocument,
}

impl PartialEq for PlannerPromptHandoffV2 {
    fn eq(&self, other: &Self) -> (r: bool) {
        self.contract_version == other.contract_version
            && self.committed_event_id == other.committed_event_id
            && self.handoff_artifact == other.handoff_artifact
            && self.handoff == other.handoff
    }
}

impl Eq for PlannerPromptHandoffV2 {
}

impl vstd::std_specs::cmp::PartialEqSpecImpl for PlannerPromptHandoffV2 {
    open spec fn obeys_eq_spec() -> bool {
        true
    }

    open spec fn eq_spec(&self, other: &Self) -> bool {
        &&& self.contract_version == other.contract_version
        &&& self.committed_event_id == other.committed_event_id
        &&& vstd::std_specs::cmp::PartialEqSpec::eq_spec(&self.handoff_artifact, &other.handoff_artifact)
        &&& vstd::std_specs::cmp::PartialEqSpec::eq_spec(&self.handoff, &other.handoff)
    }
}

impl Clone for PlannerPromptHandoffV2 {
    fn clone(&self) -> (r: Self)
        ensures
            r == *self,
    {
        PlannerPromptHandoffV2 {
            contract_version: self.contract_version,
            committed_event_id: self.committed_event_id,
            handoff_artifact: self.handoff_artifact.clone(),
            handoff: self.handoff.clone(),
        }
    }
}

/// A child's failure, as the prompt is given it.
#[derive(Debug)]
pub struct PlannerPromptChildFailedV2 {
    pub contract_version: u32,
    pub binding: ChildExecutionBinding,
    pub finished_event_id: EventId,
    pub completed_model_calls: u32,
    pub completed_tool_calls: u32,
    pub kind: ChildExecutionFailureKind,
    pub retry: RetryDisposition,
    pub cause: ChildExecutionFailureCauseV1,
    pub evidence_artifact: ArtifactRef,
    pub evidence_digest: Sha256Digest,
    pub diagnostic: Text,
}

impl PartialEq for PlannerPromptChildFailedV2 {
    fn eq(&self, other: &Self) -> (r: bool) {
        self.contract_version == other.contract_version
            && self.binding == other.binding
            && self.finished_event_id == other.finished_event_id
            && self.completed_model_calls == other.completed_model_calls
            && self.completed_tool_calls == other.completed_tool_calls
            && self.kind == other.kind
            && self.retry == other.retry
            && self.cause == other.cause
            && self.evidence_artifact == other.evidence_artifact
            && self.evidence_digest == other.evidence_digest
            && self.diagnostic == other.diagnostic
    }
}

impl Eq for PlannerPromptChildFailedV2 {
}

impl vstd::std_specs::cmp::PartialEqSpecImpl for PlannerPromptChildFailedV2 {
    open spec fn obeys_eq_spec() -> bool {
        true
    }

    open spec fn eq_spec(&self, other: &Self) -> bool {
        &&& self.contract_version == other.contract_version
        &&& self.binding == other.binding
        &&& self.finished_event_id == other.finished_event_id
        &&& self.completed_model_calls == other.completed_model_calls
        &&& self.completed_tool_calls == other.completed_tool_calls
        &&& self.kind == other.kind
        &&& self.retry == other.retry
        &&& vstd::std_specs::cmp::PartialEqSpec::eq_spec(&self.cause, &other.cause)
        &&& vstd::std_specs::cmp::PartialEqSpec::eq_spec(&self.evidence_artifact, &other.evidence_artifact)
        &&& vstd::std_specs::cmp::PartialEqSpec::eq_spec(&self.evidence_digest, &other.evidence_digest)
        &&& vstd::std_specs::cmp::PartialEqSpec::eq_spec(&self.diagnostic, &other.diagnostic)
    }
}

impl Clone for PlannerPromptChildFailedV2 {
    fn clone(&self) -> (r: Self)
        ensures
            r == *self,
    {
        PlannerPromptChildFailedV2 {
            contract_version: self.contract_version,
            binding: self.binding,
            finished_event_id: self.finished_event_id,
            completed_model_calls: self.completed_model_calls,
            completed_tool_calls: self.completed_tool_calls,
            kind: self.kind,
            retry: self.retry,
            cause: self.cause.clone(),
            evidence_artifact: self.evidence_artifact.clone(),
            evidence_digest: self.evidence_digest.clone(),
            diagnostic: self.diagnostic.clone(),
        }
    }
}

/// A child's cancellation, as the prompt is given it.
#[derive(Clone, Copy, Debug, PartialEq, Eq, Structural)]
pub struct PlannerPromptChildCancelledV2 {
    pub contract_version: u32,
    pub binding: ChildExecutionBinding,
    pub finished_event_id: EventId,
    pub completed_model_calls: u32,
    pub completed_tool_calls: u32,
    pub cause: ChildCancellationCauseV1,
}

/// What an entry of the prompt's evidence is made from.
#[derive(Debug)]
pub enum PlannerPromptEvidenceMaterialV2 {
    AcceptedRootPlan(PlannerPromptRootPlanV2),
    ChildHandoff(PlannerPromptHandoffV2),
    ChildFailed(PlannerPromptChildFailedV2),
    ChildCancelled(PlannerPromptChildCancelledV2),
}

impl PartialEq for PlannerPromptEvidenceMaterialV2 {
    fn eq(&self, other: &Self) -> (r: bool) {
        match (self, other) {
            (PlannerPromptEvidenceMaterialV2::AcceptedRootPlan(left), PlannerPromptEvidenceMaterialV2::AcceptedRootPlan(right)) => left == right,
            (PlannerPromptEvidenceMaterialV2::ChildHandoff(left), PlannerPromptEvidenceMaterialV2::ChildHandoff(right)) => left == right,
            (PlannerPromptEvidenceMaterialV2::ChildFailed(left), PlannerPromptEvidenceMaterialV2::ChildFailed(right)) => left == right,
            (PlannerPromptEvidenceMaterialV2::ChildCancelled(left), PlannerPromptEvidenceMaterialV2::ChildCancelled(right)) => left == right,
            _ => false,
        }
    }
}

impl Eq for PlannerPromptEvidenceMaterialV2 {
}

impl vstd::std_specs::cmp::PartialEqSpecImpl for PlannerPromptEvidenceMaterialV2 {
    open spec fn obeys_eq_spec() -> bool {
        true
    }

    open spec fn eq_spec(&self, other: &Self) -> bool {
        match (self, other) {
            (PlannerPromptEvidenceMaterialV2::AcceptedRootPlan(left), PlannerPromptEvidenceMaterialV2::AcceptedRootPlan(right)) => vstd::std_specs::cmp::PartialEqSpec::eq_spec(left, right),
            (PlannerPromptEvidenceMaterialV2::ChildHandoff(left), PlannerPromptEvidenceMaterialV2::ChildHandoff(right)) => vstd::std_specs::cmp::PartialEqSpec::eq_spec(left, right),
            (PlannerPromptEvidenceMaterialV2::ChildFailed(left), PlannerPromptEvidenceMaterialV2::ChildFailed(right)) => vstd::std_specs::cmp::PartialEqSpec::eq_spec(left, right),
            (PlannerPromptEvidenceMaterialV2::ChildCancelled(left), PlannerPromptEvidenceMaterialV2::ChildCancelled(right)) => left == right,
            _ => false,
        }
    }
}

impl Clone for PlannerPromptEvidenceMaterialV2 {
    fn clone(&self) -> (r: Self)
        ensures
            r == *self,
    {
        match self {
            PlannerPromptEvidenceMaterialV2::AcceptedRootPlan(value) => PlannerPromptEvidenceMaterialV2::AcceptedRootPlan(value.clone()),
            PlannerPromptEvidenceMaterialV2::ChildHandoff(value) => PlannerPromptEvidenceMaterialV2::ChildHandoff(value.clone()),
            PlannerPromptEvidenceMaterialV2::ChildFailed(value) => PlannerPromptEvidenceMaterialV2::ChildFailed(value.clone()),
            PlannerPromptEvidenceMaterialV2::ChildCancelled(value) => PlannerPromptEvidenceMaterialV2::ChildCancelled(*value),
        }
    }
}

/// One entry of the prompt's evidence; `body` is its canonical JSON.
#[derive(Debug)]
pub struct PlannerReplannerV2EvidenceEntry {
    pub evidence_id: PlannerEvidenceEntryId,
    pub normalized_content_sha256: Text,
    pub body: Text,
}

impl PartialEq for PlannerReplannerV2EvidenceEntry {
    fn eq(&self, other: &Self) -> (r: bool) {
        self.evidence_id == other.evidence_id
            && self.normalized_content_sha256 == other.normalized_content_sha256
            && self.body == other.body
    }
}

impl Eq for PlannerReplannerV2EvidenceEntry {
}

impl vstd::std_specs::cmp::PartialEqSpecImpl for PlannerReplannerV2EvidenceEntry {
    open spec fn obeys_eq_spec() -> bool {
        true
    }

    open spec fn eq_spec(&self, other: &Self) -> bool {
        &&& self.evidence_id == other.evidence_id
        &&& vstd::std_specs::cmp::PartialEqSpec::eq_spec(&self.normalized_content_sha256, &other.normalized_content_sha256)
        &&& vstd::std_specs::cmp::PartialEqSpec::eq_spec(&self.body, &other.body)
    }
}

impl Clone for PlannerReplannerV2EvidenceEntry {
    fn clone(&self) -> (r: Self)
        ensures
            r == *self,
    {
        PlannerReplannerV2EvidenceEntry {
            evidence_id: self.evidence_id,
            normalized_content_sha256: self.normalized_content_sha256.clone(),
            body: self.body.clone(),
        }
    }
}

/// An entry of the prompt's evidence by identity and content.
#[derive(Debug)]
pub struct PlannerReplannerV2EvidenceBinding {
    pub evidence_id: PlannerEvidenceEntryId,
    pub normalized_content_sha256: Text,
}

impl PartialEq for PlannerReplannerV2EvidenceBinding {
    fn eq(&self, other: &Self) -> (r: bool) {
        self.evidence_id == other.evidence_id
            && self.normalized_content_sha256 == other.normalized_content_sha256
    }
}

impl Eq for PlannerReplannerV2EvidenceBinding {
}

impl vstd::std_specs::cmp::PartialEqSpecImpl for PlannerReplannerV2EvidenceBinding {
    open spec fn obeys_eq_spec() -> bool {
        true
    }

    open spec fn eq_spec(&self, other: &Self) -> bool {
        &&& self.evidence_id == other.evidence_id
        &&& vstd::std_specs::cmp::PartialEqSpec::eq_spec(&self.normalized_content_sha256, &other.normalized_content_sha256)
    }
}

impl Clone for PlannerReplannerV2EvidenceBinding {
    fn clone(&self) -> (r: Self)
        ensures
            r == *self,
    {
        PlannerReplannerV2EvidenceBinding {
            evidence_id: self.evidence_id,
            normalized_content_sha256: self.normalized_content_sha256.clone(),
        }
    }
}

/// The evidence that a prompt may speak of.
#[derive(Clone, Debug)]
pub struct PlannerReplannerV2ContextCatalog {
    pub manifest_sha256: Text,
    pub evidence_bindings: Vec<PlannerReplannerV2EvidenceBinding>,
}

impl PartialEq for PlannerReplannerV2ContextCatalog {
    fn eq(&self, other: &Self) -> (r: bool) {
        self.manifest_sha256 == other.manifest_sha256
            && self.evidence_bindings == other.evidence_bindings
    }
}

impl Eq for PlannerReplannerV2ContextCatalog {
}

impl vstd::std_specs::cmp::PartialEqSpecImpl for PlannerReplannerV2ContextCatalog {
    open spec fn obeys_eq_spec() -> bool {
        true
    }

    open spec fn eq_spec(&self, other: &Self) -> bool {
        &&& vstd::std_specs::cmp::PartialEqSpec::eq_spec(&self.manifest_sha256, &other.manifest_sha256)
        &&& vstd::std_specs::cmp::PartialEqSpec::eq_spec(&self.evidence_bindings, &other.evidence_bindings)
    }
}

/// The complete evidence of one prompt.
#[derive(Clone, Debug)]
pub struct PlannerReplannerV2EvidencePacket {
    pub purpose: PlannerReplannerV2Purpose,
    pub context_manifest_sha256: Text,
    pub packet_sha256: Text,
    pub entries: Vec<PlannerReplannerV2EvidenceEntry>,
}

impl PartialEq for PlannerReplannerV2EvidencePacket {
    fn eq(&self, other: &Self) -> (r: bool) {
        self.purpose == other.purpose
            && self.context_manifest_sha256 == other.context_manifest_sha256
            && self.packet_sha256 == other.packet_sha256
            && self.entries == other.entries
    }
}

impl Eq for PlannerReplannerV2EvidencePacket {
}

impl vstd::std_specs::cmp::PartialEqSpecImpl for PlannerReplannerV2EvidencePacket {
    open spec fn obeys_eq_spec() -> bool {
        true
    }

    open spec fn eq_spec(&self, other: &Self) -> bool {
        &&& self.purpose == other.purpose
        &&& vstd::std_specs::cmp::PartialEqSpec::eq_spec(&self.context_manifest_sha256, &other.context_manifest_sha256)
        &&& vstd::std_specs::cmp::PartialEqSpec::eq_spec(&self.packet_sha256, &other.packet_sha256)
        &&& vstd::std_specs::cmp::PartialEqSpec::eq_spec(&self.entries, &other.entries)
    }
}

/// What is new in a prompt's evidence since the packet before it.
#[derive(Clone, Debug)]
pub struct PlannerReplannerV2EvidenceDelta {
    pub purpose: PlannerReplannerV2Purpose,
    pub previous_packet_sha256: Option<Text>,
    pub previous_evidence: Vec<PlannerReplannerV2EvidenceBinding>,
    pub newly_available: Vec<PlannerReplannerV2EvidenceBinding>,
    pub delta_sha256: Text,
}

impl PartialEq for PlannerReplannerV2EvidenceDelta {
    fn eq(&self, other: &Self) -> (r: bool) {
        self.purpose == other.purpose
            && self.previous_packet_sha256 == other.previous_packet_sha256
            && self.previous_evidence == other.previous_evidence
            && self.newly_available == other.newly_available
            && self.delta_sha256 == other.delta_sha256
    }
}

impl Eq for PlannerReplannerV2EvidenceDelta {
}

impl vstd::std_specs::cmp::PartialEqSpecImpl for PlannerReplannerV2EvidenceDelta {
    open spec fn obeys_eq_spec() -> bool {
        true
    }

    open spec fn eq_spec(&self, other: &Self) -> bool {
        &&& self.purpose == other.purpose
        &&& vstd::std_specs::cmp::PartialEqSpec::eq_spec(&self.previous_packet_sha256, &other.previous_packet_sha256)
        &&& vstd::std_specs::cmp::PartialEqSpec::eq_spec(&self.previous_evidence, &other.previous_evidence)
        &&& vstd::std_specs::cmp::PartialEqSpec::eq_spec(&self.newly_available, &other.newly_available)
        &&& vstd::std_specs::cmp::PartialEqSpec::eq_spec(&self.delta_sha256, &other.delta_sha256)
    }
}

/// One work order of a plan, with the digest and the length of its canonical JSON.
#[derive(Debug)]
pub struct PlannerPlanWorkOrderV2 {
    pub work_order_id: Text,
    pub revision: u64,
    pub encoded_sha256: Sha256Digest,
    pub encoded_bytes: u64,
}

impl PartialEq for PlannerPlanWorkOrderV2 {
    fn eq(&self, other: &Self) -> (r: bool) {
        self.work_order_id == other.work_order_id
            && self.revision == other.revision
            && self.encoded_sha256 == other.encoded_sha256
            && self.encoded_bytes == other.encoded_bytes
    }
}

impl Eq for PlannerPlanWorkOrderV2 {
}

impl vstd::std_specs::cmp::PartialEqSpecImpl for PlannerPlanWorkOrderV2 {
    open spec fn obeys_eq_spec() -> bool {
        true
    }

    open spec fn eq_spec(&self, other: &Self) -> bool {
        &&& vstd::std_specs::cmp::PartialEqSpec::eq_spec(&self.work_order_id, &other.work_order_id)
        &&& self.revision == other.revision
        &&& vstd::std_specs::cmp::PartialEqSpec::eq_spec(&self.encoded_sha256, &other.encoded_sha256)
        &&& self.encoded_bytes == other.encoded_bytes
    }
}

impl Clone for PlannerPlanWorkOrderV2 {
    fn clone(&self) -> (r: Self)
        ensures
            r == *self,
    {
        PlannerPlanWorkOrderV2 {
            work_order_id: self.work_order_id.clone(),
            revision: self.revision,
            encoded_sha256: self.encoded_sha256.clone(),
            encoded_bytes: self.encoded_bytes,
        }
    }
}

/// One revision of a plan; `content_sha256` is the digest of its canonical JSON, where it has one.
#[derive(Clone, Debug)]
pub struct PlannerReplannerV2PlanSnapshot {
    pub schema_version: u32,
    pub plan_id: Text,
    pub revision: u64,
    pub parent_plan_sha256: Option<Text>,
    pub obligation_snapshot_sha256: Text,
    pub acceptance_policy_sha256: Text,
    pub strategy_summary: Text,
    pub verification_targets: Vec<Text>,
    pub work_orders: Vec<PlannerPlanWorkOrderV2>,
    pub content_sha256: Option<Text>,
}

impl PartialEq for PlannerReplannerV2PlanSnapshot {
    fn eq(&self, other: &Self) -> (r: bool) {
        self.schema_version == other.schema_version
            && self.plan_id == other.plan_id
            && self.revision == other.revision
            && self.parent_plan_sha256 == other.parent_plan_sha256
            && self.obligation_snapshot_sha256 == other.obligation_snapshot_sha256
            && self.acceptance_policy_sha256 == other.acceptance_policy_sha256
            && self.strategy_summary == other.strategy_summary
            && self.verification_targets == other.verification_targets
            && self.work_orders == other.work_orders
            && self.content_sha256 == other.content_sha256
    }
}

impl Eq for PlannerReplannerV2PlanSnapshot {
}

impl vstd::std_specs::cmp::PartialEqSpecImpl for PlannerReplannerV2PlanSnapshot {
    open spec fn obeys_eq_spec() -> bool {
        true
    }

    open spec fn eq_spec(&self, other: &Self) -> bool {
        &&& self.schema_version == other.schema_version
        &&& vstd::std_specs::cmp::PartialEqSpec::eq_spec(&self.plan_id, &other.plan_id)
        &&& self.revision == other.revision
        &&& vstd::std_specs::cmp::PartialEqSpec::eq_spec(&self.parent_plan_sha256, &other.parent_plan_sha256)
        &&& vstd::std_specs::cmp::PartialEqSpec::eq_spec(&self.obligation_snapshot_sha256, &other.obligation_snapshot_sha256)
        &&& vstd::std_specs::cmp::PartialEqSpec::eq_spec(&self.acceptance_policy_sha256, &other.acceptance_policy_sha256)
        &&& vstd::std_specs::cmp::PartialEqSpec::eq_spec(&self.strategy_summary, &other.strategy_summary)
        &&& vstd::std_specs::cmp::PartialEqSpec::eq_spec(&self.verification_targets, &other.verification_targets)
        &&& vstd::std_specs::cmp::PartialEqSpec::eq_spec(&self.work_orders, &other.work_orders)
        &&& vstd::std_specs::cmp::PartialEqSpec::eq_spec(&self.content_sha256, &other.content_sha256)
    }
}

/// The obligations that a plan has to meet, and the digest that they amount to, where they do; `body` is canonical JSON.
#[derive(Debug)]
pub struct PlannerProtectedObligationCatalogV2 {
    pub snapshot_sha256: Text,
    pub derived_snapshot_sha256: Option<Text>,
    pub acceptance_policy_sha256: Text,
    pub body: Text,
}

impl PartialEq for PlannerProtectedObligationCatalogV2 {
    fn eq(&self, other: &Self) -> (r: bool) {
        self.snapshot_sha256 == other.snapshot_sha256
            && self.derived_snapshot_sha256 == other.derived_snapshot_sha256
            && self.acceptance_policy_sha256 == other.acceptance_policy_sha256
            && self.body == other.body
    }
}

impl Eq for PlannerProtectedObligationCatalogV2 {
}

impl vstd::std_specs::cmp::PartialEqSpecImpl for PlannerProtectedObligationCatalogV2 {
    open spec fn obeys_eq_spec() -> bool {
        true
    }

    open spec fn eq_spec(&self, other: &Self) -> bool {
        &&& vstd::std_specs::cmp::PartialEqSpec::eq_spec(&self.snapshot_sha256, &other.snapshot_sha256)
        &&& vstd::std_specs::cmp::PartialEqSpec::eq_spec(&self.derived_snapshot_sha256, &other.derived_snapshot_sha256)
        &&& vstd::std_specs::cmp::PartialEqSpec::eq_spec(&self.acceptance_policy_sha256, &other.acceptance_policy_sha256)
        &&& vstd::std_specs::cmp::PartialEqSpec::eq_spec(&self.body, &other.body)
    }
}

impl Clone for PlannerProtectedObligationCatalogV2 {
    fn clone(&self) -> (r: Self)
        ensures
            r == *self,
    {
        PlannerProtectedObligationCatalogV2 {
            snapshot_sha256: self.snapshot_sha256.clone(),
            derived_snapshot_sha256: self.derived_snapshot_sha256.clone(),
            acceptance_policy_sha256: self.acceptance_policy_sha256.clone(),
            body: self.body.clone(),
        }
    }
}

/// The policy that the planner plans under, and the digest that it amounts to, where it does; `body` is canonical JSON.
#[derive(Debug)]
pub struct PlannerPolicyV2 {
    pub policy_sha256: Text,
    pub derived_policy_sha256: Option<Text>,
    pub body: Text,
}

impl PartialEq for PlannerPolicyV2 {
    fn eq(&self, other: &Self) -> (r: bool) {
        self.policy_sha256 == other.policy_sha256
            && self.derived_policy_sha256 == other.derived_policy_sha256
            && self.body == other.body
    }
}

impl Eq for PlannerPolicyV2 {
}

impl vstd::std_specs::cmp::PartialEqSpecImpl for PlannerPolicyV2 {
    open spec fn obeys_eq_spec() -> bool {
        true
    }

    open spec fn eq_spec(&self, other: &Self) -> bool {
        &&& vstd::std_specs::cmp::PartialEqSpec::eq_spec(&self.policy_sha256, &other.policy_sha256)
        &&& vstd::std_specs::cmp::PartialEqSpec::eq_spec(&self.derived_policy_sha256, &other.derived_policy_sha256)
        &&& vstd::std_specs::cmp::PartialEqSpec::eq_spec(&self.body, &other.body)
    }
}

impl Clone for PlannerPolicyV2 {
    fn clone(&self) -> (r: Self)
        ensures
            r == *self,
    {
        PlannerPolicyV2 {
            policy_sha256: self.policy_sha256.clone(),
            derived_policy_sha256: self.derived_policy_sha256.clone(),
            body: self.body.clone(),
        }
    }
}

/// The identities that a prompt is bound to.
#[derive(Debug)]
pub struct PlannerReplannerV2Bindings {
    pub purpose: PlannerReplannerV2Purpose,
    pub prompt_id: Text,
    pub prompt_version: Text,
    pub prompt_manifest_sha256: Text,
    pub plan_id: Text,
    pub base_revision: u64,
    pub base_plan_sha256: Text,
    pub obligation_snapshot_sha256: Text,
    pub acceptance_policy_sha256: Text,
    pub context_manifest_sha256: Text,
    pub planner_policy_sha256: Text,
    pub evidence_packet_sha256: Text,
    pub previous_evidence_packet_sha256: Option<Text>,
    pub evidence_delta_sha256: Text,
    pub backend_id: Text,
    pub backend_configured_deployment_id: Text,
    pub backend_endpoint_origin: Text,
    pub backend_instance_sha256: Text,
    pub model_id: Text,
    pub reasoning: Option<PlannerReplannerV2Reasoning>,
    pub budget_reservation_id: TokenReservationId,
    pub max_output_tokens: u32,
}

impl PartialEq for PlannerReplannerV2Bindings {
    fn eq(&self, other: &Self) -> (r: bool) {
        self.purpose == other.purpose
            && self.prompt_id == other.prompt_id
            && self.prompt_version == other.prompt_version
            && self.prompt_manifest_sha256 == other.prompt_manifest_sha256
            && self.plan_id == other.plan_id
            && self.base_revision == other.base_revision
            && self.base_plan_sha256 == other.base_plan_sha256
            && self.obligation_snapshot_sha256 == other.obligation_snapshot_sha256
            && self.acceptance_policy_sha256 == other.acceptance_policy_sha256
            && self.context_manifest_sha256 == other.context_manifest_sha256
            && self.planner_policy_sha256 == other.planner_policy_sha256
            && self.evidence_packet_sha256 == other.evidence_packet_sha256
            && self.previous_evidence_packet_sha256 == other.previous_evidence_packet_sha256
            && self.evidence_delta_sha256 == other.evidence_delta_sha256
            && self.backend_id == other.backend_id
            && self.backend_configured_deployment_id == other.backend_configured_deployment_id
            && self.backend_endpoint_origin == other.backend_endpoint_origin
            && self.backend_instance_sha256 == other.backend_instance_sha256
            && self.model_id == other.model_id
            && self.reasoning == other.reasoning
            && self.budget_reservation_id == other.budget_reservation_id
            && self.max_output_tokens == other.max_output_tokens
    }
}

impl Eq for PlannerReplannerV2Bindings {
}

impl vstd::std_specs::cmp::PartialEqSpecImpl for PlannerReplannerV2Bindings {
    open spec fn obeys_eq_spec() -> bool {
        true
    }

    open spec fn eq_spec(&self, other: &Self) -> bool {
        &&& self.purpose == other.purpose
        &&& vstd::std_specs::cmp::PartialEqSpec::eq_spec(&self.prompt_id, &other.prompt_id)
        &&& vstd::std_specs::cmp::PartialEqSpec::eq_spec(&self.prompt_version, &other.prompt_version)
        &&& vstd::std_specs::cmp::PartialEqSpec::eq_spec(&self.prompt_manifest_sha256, &other.prompt_manifest_sha256)
        &&& vstd::std_specs::cmp::PartialEqSpec::eq_spec(&self.plan_id, &other.plan_id)
        &&& self.base_revision == other.base_revision
        &&& vstd::std_specs::cmp::PartialEqSpec::eq_spec(&self.base_plan_sha256, &other.base_plan_sha256)
        &&& vstd::std_specs::cmp::PartialEqSpec::eq_spec(&self.obligation_snapshot_sha256, &other.obligation_snapshot_sha256)
        &&& vstd::std_specs::cmp::PartialEqSpec::eq_spec(&self.acceptance_policy_sha256, &other.acceptance_policy_sha256)
        &&& vstd::std_specs::cmp::PartialEqSpec::eq_spec(&self.context_manifest_sha256, &other.context_manifest_sha256)
        &&& vstd::std_specs::cmp::PartialEqSpec::eq_spec(&self.planner_policy_sha256, &other.planner_policy_sha256)
        &&& vstd::std_specs::cmp::PartialEqSpec::eq_spec(&self.evidence_packet_sha256, &other.evidence_packet_sha256)
        &&& vstd::std_specs::cmp::PartialEqSpec::eq_spec(&self.previous_evidence_packet_sha256, &other.previous_evidence_packet_sha256)
        &&& vstd::std_specs::cmp::PartialEqSpec::eq_spec(&self.evidence_delta_sha256, &other.evidence_delta_sha256)
        &&& vstd::std_specs::cmp::PartialEqSpec::eq_spec(&self.backend_id, &other.backend_id)
        &&& vstd::std_specs::cmp::PartialEqSpec::eq_spec(&self.backend_configured_deployment_id, &other.backend_configured_deployment_id)
        &&& vstd::std_specs::cmp::PartialEqSpec::eq_spec(&self.backend_endpoint_origin, &other.backend_endpoint_origin)
        &&& vstd::std_specs::cmp::PartialEqSpec::eq_spec(&self.backend_instance_sha256, &other.backend_instance_sha256)
        &&& vstd::std_specs::cmp::PartialEqSpec::eq_spec(&self.model_id, &other.model_id)
        &&& self.reasoning == other.reasoning
        &&& self.budget_reservation_id == other.budget_reservation_id
        &&& self.max_output_tokens == other.max_output_tokens
    }
}

impl Clone for PlannerReplannerV2Bindings {
    fn clone(&self) -> (r: Self)
        ensures
            r == *self,
    {
        PlannerReplannerV2Bindings {
            purpose: self.purpose,
            prompt_id: self.prompt_id.clone(),
            prompt_version: self.prompt_version.clone(),
            prompt_manifest_sha256: self.prompt_manifest_sha256.clone(),
            plan_id: self.plan_id.clone(),
            base_revision: self.base_revision,
            base_plan_sha256: self.base_plan_sha256.clone(),
            obligation_snapshot_sha256: self.obligation_snapshot_sha256.clone(),
            acceptance_policy_sha256: self.acceptance_policy_sha256.clone(),
            context_manifest_sha256: self.context_manifest_sha256.clone(),
            planner_policy_sha256: self.planner_policy_sha256.clone(),
            evidence_packet_sha256: self.evidence_packet_sha256.clone(),
            previous_evidence_packet_sha256: self.previous_evidence_packet_sha256.clone(),
            evidence_delta_sha256: self.evidence_delta_sha256.clone(),
            backend_id: self.backend_id.clone(),
            backend_configured_deployment_id: self.backend_configured_deployment_id.clone(),
            backend_endpoint_origin: self.backend_endpoint_origin.clone(),
            backend_instance_sha256: self.backend_instance_sha256.clone(),
            model_id: self.model_id.clone(),
            reasoning: self.reasoning,
            budget_reservation_id: self.budget_reservation_id,
            max_output_tokens: self.max_output_tokens,
        }
    }
}

/// Everything that a prompt is compiled from.
#[derive(Clone, Debug)]
pub struct PlannerReplannerV2InvocationMaterial {
    pub base_plan: PlannerReplannerV2PlanSnapshot,
    pub protected_obligation_catalog: PlannerProtectedObligationCatalogV2,
    pub planner_context_catalog: PlannerReplannerV2ContextCatalog,
    pub evidence_packet: PlannerReplannerV2EvidencePacket,
    pub evidence_delta: PlannerReplannerV2EvidenceDelta,
    pub planner_policy: PlannerPolicyV2,
    pub bindings: PlannerReplannerV2Bindings,
}

impl PartialEq for PlannerReplannerV2InvocationMaterial {
    fn eq(&self, other: &Self) -> (r: bool) {
        self.base_plan == other.base_plan
            && self.protected_obligation_catalog == other.protected_obligation_catalog
            && self.planner_context_catalog == other.planner_context_catalog
            && self.evidence_packet == other.evidence_packet
            && self.evidence_delta == other.evidence_delta
            && self.planner_policy == other.planner_policy
            && self.bindings == other.bindings
    }
}

impl Eq for PlannerReplannerV2InvocationMaterial {
}

impl vstd::std_specs::cmp::PartialEqSpecImpl for PlannerReplannerV2InvocationMaterial {
    open spec fn obeys_eq_spec() -> bool {
        true
    }

    open spec fn eq_spec(&self, other: &Self) -> bool {
        &&& vstd::std_specs::cmp::PartialEqSpec::eq_spec(&self.base_plan, &other.base_plan)
        &&& vstd::std_specs::cmp::PartialEqSpec::eq_spec(&self.protected_obligation_catalog, &other.protected_obligation_catalog)
        &&& vstd::std_specs::cmp::PartialEqSpec::eq_spec(&self.planner_context_catalog, &other.planner_context_catalog)
        &&& vstd::std_specs::cmp::PartialEqSpec::eq_spec(&self.evidence_packet, &other.evidence_packet)
        &&& vstd::std_specs::cmp::PartialEqSpec::eq_spec(&self.evidence_delta, &other.evidence_delta)
        &&& vstd::std_specs::cmp::PartialEqSpec::eq_spec(&self.planner_policy, &other.planner_policy)
        &&& vstd::std_specs::cmp::PartialEqSpec::eq_spec(&self.bindings, &other.bindings)
    }
}

/// A named part of an invocation; `payload` is canonical JSON.
#[derive(Debug)]
pub struct PlannerPromptPart {
    pub name: Text,
    pub payload: Text,
}

impl PartialEq for PlannerPromptPart {
    fn eq(&self, other: &Self) -> (r: bool) {
        self.name == other.name
            && self.payload == other.payload
    }
}

impl Eq for PlannerPromptPart {
}

impl vstd::std_specs::cmp::PartialEqSpecImpl for PlannerPromptPart {
    open spec fn obeys_eq_spec() -> bool {
        true
    }

    open spec fn eq_spec(&self, other: &Self) -> bool {
        &&& vstd::std_specs::cmp::PartialEqSpec::eq_spec(&self.name, &other.name)
        &&& vstd::std_specs::cmp::PartialEqSpec::eq_spec(&self.payload, &other.payload)
    }
}

impl Clone for PlannerPromptPart {
    fn clone(&self) -> (r: Self)
        ensures
            r == *self,
    {
        PlannerPromptPart {
            name: self.name.clone(),
            payload: self.payload.clone(),
        }
    }
}

/// A prompt's invocation: its sections and the constraints on it.
#[derive(Clone, Debug)]
pub struct PlannerReplannerV2Invocation {
    pub sections: Vec<PlannerPromptPart>,
    pub runtime_constraints: Vec<PlannerPromptPart>,
}

impl PartialEq for PlannerReplannerV2Invocation {
    fn eq(&self, other: &Self) -> (r: bool) {
        self.sections == other.sections
            && self.runtime_constraints == other.runtime_constraints
    }
}

impl Eq for PlannerReplannerV2Invocation {
}

impl vstd::std_specs::cmp::PartialEqSpecImpl for PlannerReplannerV2Invocation {
    open spec fn obeys_eq_spec() -> bool {
        true
    }

    open spec fn eq_spec(&self, other: &Self) -> bool {
        &&& vstd::std_specs::cmp::PartialEqSpec::eq_spec(&self.sections, &other.sections)
        &&& vstd::std_specs::cmp::PartialEqSpec::eq_spec(&self.runtime_constraints, &other.runtime_constraints)
    }
}

/// A compiled prompt and its invocation, as retained; `compiled_prompt` is canonical JSON.
#[derive(Clone, Debug)]
pub struct RetainedPlannerPrompt {
    pub prompt_invocation: PlannerReplannerV2Invocation,
    pub compiled_prompt: Text,
}

impl PartialEq for RetainedPlannerPrompt {
    fn eq(&self, other: &Self) -> (r: bool) {
        self.prompt_invocation == other.prompt_invocation
            && self.compiled_prompt == other.compiled_prompt
    }
}

impl Eq for RetainedPlannerPrompt {
}

impl vstd::std_specs::cmp::PartialEqSpecImpl for RetainedPlannerPrompt {
    open spec fn obeys_eq_spec() -> bool {
        true
    }

    open spec fn eq_spec(&self, other: &Self) -> bool {
        &&& vstd::std_specs::cmp::PartialEqSpec::eq_spec(&self.prompt_invocation, &other.prompt_invocation)
        &&& vstd::std_specs::cmp::PartialEqSpec::eq_spec(&self.compiled_prompt, &other.compiled_prompt)
    }
}

/// A request as it is built from an invocation's material; `compiled_prompt` is canonical JSON.
#[derive(Clone, Debug)]
pub struct PreparedPlannerReplannerV2Request {
    pub invocation: PlannerReplannerV2Invocation,
    pub compiled_prompt: Text,
    pub manifest_sha256: Text,
    pub inference: StructuredInferenceRequest,
}

impl PartialEq for PreparedPlannerReplannerV2Request {
    fn eq(&self, other: &Self) -> (r: bool) {
        self.invocation == other.invocation
            && self.compiled_prompt == other.compiled_prompt
            && self.manifest_sha256 == other.manifest_sha256
            && self.inference == other.inference
    }
}

impl Eq for PreparedPlannerReplannerV2Request {
}

impl vstd::std_specs::cmp::PartialEqSpecImpl for PreparedPlannerReplannerV2Request {
    open spec fn obeys_eq_spec() -> bool {
        true
    }

    open spec fn eq_spec(&self, other: &Self) -> bool {
        &&& vstd::std_specs::cmp::PartialEqSpec::eq_spec(&self.invocation, &other.invocation)
        &&& vstd::std_specs::cmp::PartialEqSpec::eq_spec(&self.compiled_prompt, &other.compiled_prompt)
        &&& vstd::std_specs::cmp::PartialEqSpec::eq_spec(&self.manifest_sha256, &other.manifest_sha256)
        &&& vstd::std_specs::cmp::PartialEqSpec::eq_spec(&self.inference, &other.inference)
    }
}

} // verus!

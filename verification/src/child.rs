//! Payloads of the child-agent events.

use vstd::prelude::*;
use crate::artifact::{ArtifactRef};
use crate::child_outcome::{ChildCancellationCauseV1, ChildExecutionBinding, ChildExecutionOutcome};
use crate::clock::{RuntimeClockReading};
use crate::digest::{Sha256Digest};
use crate::identity::{ActorId, ChildActorId, ChildContextId, ChildDelegationAuthorizationId, ChildExecutionId, ChildHandoffId, ChildLocalPlanId, ChildWorkOrderId, EventId, PlannerDelegateDirectiveId, PlannerTurnId, RepositoryToolGrantId};
use crate::lifecycle_identity::LifecycleIdentities;
use crate::planner_turn::{PlannerDelegatedWorkOrderBindingV1};
use crate::snapshot::{RepositorySnapshotV1};

verus! {

/// The grants that a child works under, one for each repository tool.
#[derive(Clone, Copy, Debug, PartialEq, Eq, Structural)]
pub struct ChildRepositoryToolGrantsV1 {
    pub tree_grant_id: RepositoryToolGrantId,
    pub file_grant_id: RepositoryToolGrantId,
    pub search_grant_id: RepositoryToolGrantId,
}

/// What a child may do with the repository.
#[derive(Debug)]
pub struct ChildRepositoryAuthorityV1 {
    pub policy_artifact: ArtifactRef,
    pub snapshot: RepositorySnapshotV1,
    pub snapshot_lease_event_id: EventId,
    pub tool_grants: ChildRepositoryToolGrantsV1,
}

impl PartialEq for ChildRepositoryAuthorityV1 {
    fn eq(&self, other: &Self) -> (r: bool) {
        self.policy_artifact == other.policy_artifact
            && self.snapshot == other.snapshot
            && self.snapshot_lease_event_id == other.snapshot_lease_event_id
            && self.tool_grants == other.tool_grants
    }
}

impl Eq for ChildRepositoryAuthorityV1 {
}

impl vstd::std_specs::cmp::PartialEqSpecImpl for ChildRepositoryAuthorityV1 {
    open spec fn obeys_eq_spec() -> bool {
        true
    }

    open spec fn eq_spec(&self, other: &Self) -> bool {
        &&& vstd::std_specs::cmp::PartialEqSpec::eq_spec(&self.policy_artifact, &other.policy_artifact)
        &&& vstd::std_specs::cmp::PartialEqSpec::eq_spec(&self.snapshot, &other.snapshot)
        &&& self.snapshot_lease_event_id == other.snapshot_lease_event_id
        &&& self.tool_grants == other.tool_grants
    }
}

impl Clone for ChildRepositoryAuthorityV1 {
    fn clone(&self) -> (r: Self)
        ensures
            r == *self,
    {
        ChildRepositoryAuthorityV1 {
            policy_artifact: self.policy_artifact.clone(),
            snapshot: self.snapshot.clone(),
            snapshot_lease_event_id: self.snapshot_lease_event_id,
            tool_grants: self.tool_grants,
        }
    }
}

/// What a child was asked to do.
#[derive(Debug)]
pub struct ChildWorkOrderSpec {
    pub work_order_id: ChildWorkOrderId,
    pub execution_id: ChildExecutionId,
    pub child_actor_id: ChildActorId,
    pub child_event_actor_id: ActorId,
    pub context_id: ChildContextId,
    pub repository_authority: ChildRepositoryAuthorityV1,
}

impl PartialEq for ChildWorkOrderSpec {
    fn eq(&self, other: &Self) -> (r: bool) {
        self.work_order_id == other.work_order_id
            && self.execution_id == other.execution_id
            && self.child_actor_id == other.child_actor_id
            && self.child_event_actor_id == other.child_event_actor_id
            && self.context_id == other.context_id
            && self.repository_authority == other.repository_authority
    }
}

impl Eq for ChildWorkOrderSpec {
}

impl vstd::std_specs::cmp::PartialEqSpecImpl for ChildWorkOrderSpec {
    open spec fn obeys_eq_spec() -> bool {
        true
    }

    open spec fn eq_spec(&self, other: &Self) -> bool {
        &&& self.work_order_id == other.work_order_id
        &&& self.execution_id == other.execution_id
        &&& self.child_actor_id == other.child_actor_id
        &&& self.child_event_actor_id == other.child_event_actor_id
        &&& self.context_id == other.context_id
        &&& vstd::std_specs::cmp::PartialEqSpec::eq_spec(&self.repository_authority, &other.repository_authority)
    }
}

impl Clone for ChildWorkOrderSpec {
    fn clone(&self) -> (r: Self)
        ensures
            r == *self,
    {
        ChildWorkOrderSpec {
            work_order_id: self.work_order_id,
            execution_id: self.execution_id,
            child_actor_id: self.child_actor_id,
            child_event_actor_id: self.child_event_actor_id,
            context_id: self.context_id,
            repository_authority: self.repository_authority.clone(),
        }
    }
}

/// A delegation was authorized under the first contract.
#[derive(Debug)]
pub struct ChildDelegationAuthorized {
    pub accepted_plan_artifact: ArtifactRef,
    pub work_order_artifact: ArtifactRef,
    pub context_manifest_artifact: ArtifactRef,
    pub spec: ChildWorkOrderSpec,
    /// What the other identity fields of the record hold.
    pub other_identities: LifecycleIdentities,
}

impl PartialEq for ChildDelegationAuthorized {
    fn eq(&self, other: &Self) -> (r: bool) {
        self.accepted_plan_artifact == other.accepted_plan_artifact
            && self.work_order_artifact == other.work_order_artifact
            && self.context_manifest_artifact == other.context_manifest_artifact
            && self.spec == other.spec
            && self.other_identities == other.other_identities
    }
}

impl Eq for ChildDelegationAuthorized {
}

impl vstd::std_specs::cmp::PartialEqSpecImpl for ChildDelegationAuthorized {
    open spec fn obeys_eq_spec() -> bool {
        true
    }

    open spec fn eq_spec(&self, other: &Self) -> bool {
        &&& vstd::std_specs::cmp::PartialEqSpec::eq_spec(&self.accepted_plan_artifact, &other.accepted_plan_artifact)
        &&& vstd::std_specs::cmp::PartialEqSpec::eq_spec(&self.work_order_artifact, &other.work_order_artifact)
        &&& vstd::std_specs::cmp::PartialEqSpec::eq_spec(&self.context_manifest_artifact, &other.context_manifest_artifact)
        &&& vstd::std_specs::cmp::PartialEqSpec::eq_spec(&self.spec, &other.spec)
        &&& self.other_identities == other.other_identities
    }
}

impl Clone for ChildDelegationAuthorized {
    fn clone(&self) -> (r: Self)
        ensures
            r == *self,
    {
        ChildDelegationAuthorized {
            accepted_plan_artifact: self.accepted_plan_artifact.clone(),
            work_order_artifact: self.work_order_artifact.clone(),
            context_manifest_artifact: self.context_manifest_artifact.clone(),
            spec: self.spec.clone(),
            other_identities: self.other_identities,
        }
    }
}

/// A delegation was authorized under the second contract.
#[derive(Debug)]
pub struct ChildDelegationAuthorizedV2 {
    pub authorization_id: ChildDelegationAuthorizationId,
    pub accepted_planner_turn_event_id: EventId,
    pub planner_turn_id: PlannerTurnId,
    pub delegate_directive_id: PlannerDelegateDirectiveId,
    pub planner_work_order: PlannerDelegatedWorkOrderBindingV1,
    pub accepted_prompt_output_artifact: ArtifactRef,
    pub work_order_artifact: ArtifactRef,
    pub context_manifest_artifact: ArtifactRef,
    pub spec: ChildWorkOrderSpec,
}

impl PartialEq for ChildDelegationAuthorizedV2 {
    fn eq(&self, other: &Self) -> (r: bool) {
        self.authorization_id == other.authorization_id
            && self.accepted_planner_turn_event_id == other.accepted_planner_turn_event_id
            && self.planner_turn_id == other.planner_turn_id
            && self.delegate_directive_id == other.delegate_directive_id
            && self.planner_work_order == other.planner_work_order
            && self.accepted_prompt_output_artifact == other.accepted_prompt_output_artifact
            && self.work_order_artifact == other.work_order_artifact
            && self.context_manifest_artifact == other.context_manifest_artifact
            && self.spec == other.spec
    }
}

impl Eq for ChildDelegationAuthorizedV2 {
}

impl vstd::std_specs::cmp::PartialEqSpecImpl for ChildDelegationAuthorizedV2 {
    open spec fn obeys_eq_spec() -> bool {
        true
    }

    open spec fn eq_spec(&self, other: &Self) -> bool {
        &&& self.authorization_id == other.authorization_id
        &&& self.accepted_planner_turn_event_id == other.accepted_planner_turn_event_id
        &&& self.planner_turn_id == other.planner_turn_id
        &&& self.delegate_directive_id == other.delegate_directive_id
        &&& vstd::std_specs::cmp::PartialEqSpec::eq_spec(&self.planner_work_order, &other.planner_work_order)
        &&& vstd::std_specs::cmp::PartialEqSpec::eq_spec(&self.accepted_prompt_output_artifact, &other.accepted_prompt_output_artifact)
        &&& vstd::std_specs::cmp::PartialEqSpec::eq_spec(&self.work_order_artifact, &other.work_order_artifact)
        &&& vstd::std_specs::cmp::PartialEqSpec::eq_spec(&self.context_manifest_artifact, &other.context_manifest_artifact)
        &&& vstd::std_specs::cmp::PartialEqSpec::eq_spec(&self.spec, &other.spec)
    }
}

impl Clone for ChildDelegationAuthorizedV2 {
    fn clone(&self) -> (r: Self)
        ensures
            r == *self,
    {
        ChildDelegationAuthorizedV2 {
            authorization_id: self.authorization_id,
            accepted_planner_turn_event_id: self.accepted_planner_turn_event_id,
            planner_turn_id: self.planner_turn_id,
            delegate_directive_id: self.delegate_directive_id,
            planner_work_order: self.planner_work_order.clone(),
            accepted_prompt_output_artifact: self.accepted_prompt_output_artifact.clone(),
            work_order_artifact: self.work_order_artifact.clone(),
            context_manifest_artifact: self.context_manifest_artifact.clone(),
            spec: self.spec.clone(),
        }
    }
}

/// A work order was issued to a child.
#[derive(Debug)]
pub struct ChildWorkOrderIssued {
    pub authorization_event_id: EventId,
    pub spec: ChildWorkOrderSpec,
    pub work_order_artifact: ArtifactRef,
    pub context_manifest_artifact: ArtifactRef,
}

impl PartialEq for ChildWorkOrderIssued {
    fn eq(&self, other: &Self) -> (r: bool) {
        self.authorization_event_id == other.authorization_event_id
            && self.spec == other.spec
            && self.work_order_artifact == other.work_order_artifact
            && self.context_manifest_artifact == other.context_manifest_artifact
    }
}

impl Eq for ChildWorkOrderIssued {
}

impl vstd::std_specs::cmp::PartialEqSpecImpl for ChildWorkOrderIssued {
    open spec fn obeys_eq_spec() -> bool {
        true
    }

    open spec fn eq_spec(&self, other: &Self) -> bool {
        &&& self.authorization_event_id == other.authorization_event_id
        &&& vstd::std_specs::cmp::PartialEqSpec::eq_spec(&self.spec, &other.spec)
        &&& vstd::std_specs::cmp::PartialEqSpec::eq_spec(&self.work_order_artifact, &other.work_order_artifact)
        &&& vstd::std_specs::cmp::PartialEqSpec::eq_spec(&self.context_manifest_artifact, &other.context_manifest_artifact)
    }
}

impl Clone for ChildWorkOrderIssued {
    fn clone(&self) -> (r: Self)
        ensures
            r == *self,
    {
        ChildWorkOrderIssued {
            authorization_event_id: self.authorization_event_id,
            spec: self.spec.clone(),
            work_order_artifact: self.work_order_artifact.clone(),
            context_manifest_artifact: self.context_manifest_artifact.clone(),
        }
    }
}

/// A later claim adopted a child execution.
#[derive(Clone, Copy, Debug, PartialEq, Eq, Structural)]
pub struct ChildExecutionClaimAdopted {
    pub work_order_id: ChildWorkOrderId,
    /// What the other identity fields of the record hold.
    pub other_identities: LifecycleIdentities,
}

/// An attempt of a child began.
#[derive(Clone, Copy, Debug, PartialEq, Eq, Structural)]
pub struct ChildExecutionStarted {
    pub binding: ChildExecutionBinding,
    pub local_plan_id: ChildLocalPlanId,
    pub started_at: RuntimeClockReading,
}

/// The plan that an inference of a child continues.
#[derive(Debug)]
pub struct ChildPriorPlanContextV1 {
    pub source_model_evidence_artifact: ArtifactRef,
}

impl PartialEq for ChildPriorPlanContextV1 {
    fn eq(&self, other: &Self) -> (r: bool) {
        self.source_model_evidence_artifact == other.source_model_evidence_artifact
    }
}

impl Eq for ChildPriorPlanContextV1 {
}

impl vstd::std_specs::cmp::PartialEqSpecImpl for ChildPriorPlanContextV1 {
    open spec fn obeys_eq_spec() -> bool {
        true
    }

    open spec fn eq_spec(&self, other: &Self) -> bool {
        &&& vstd::std_specs::cmp::PartialEqSpec::eq_spec(&self.source_model_evidence_artifact, &other.source_model_evidence_artifact)
    }
}

impl Clone for ChildPriorPlanContextV1 {
    fn clone(&self) -> (r: Self)
        ensures
            r == *self,
    {
        ChildPriorPlanContextV1 {
            source_model_evidence_artifact: self.source_model_evidence_artifact.clone(),
        }
    }
}

/// The tool call that an inference of a child follows.
#[derive(Debug)]
pub enum ChildPreviousToolContextV1 {
    Observed { terminal_receipt_artifact: ArtifactRef },
    Unknown { terminal_receipt_artifact: ArtifactRef },
}

impl PartialEq for ChildPreviousToolContextV1 {
    fn eq(&self, other: &Self) -> (r: bool) {
        match (self, other) {
            (ChildPreviousToolContextV1::Observed { terminal_receipt_artifact }, ChildPreviousToolContextV1::Observed { terminal_receipt_artifact: other_terminal_receipt_artifact }) => {
                terminal_receipt_artifact == other_terminal_receipt_artifact
            },
            (ChildPreviousToolContextV1::Unknown { terminal_receipt_artifact }, ChildPreviousToolContextV1::Unknown { terminal_receipt_artifact: other_terminal_receipt_artifact }) => {
                terminal_receipt_artifact == other_terminal_receipt_artifact
            },
            _ => false,
        }
    }
}

impl Eq for ChildPreviousToolContextV1 {
}

impl vstd::std_specs::cmp::PartialEqSpecImpl for ChildPreviousToolContextV1 {
    open spec fn obeys_eq_spec() -> bool {
        true
    }

    open spec fn eq_spec(&self, other: &Self) -> bool {
        match (self, other) {
            (ChildPreviousToolContextV1::Observed { terminal_receipt_artifact }, ChildPreviousToolContextV1::Observed { terminal_receipt_artifact: other_terminal_receipt_artifact }) => {
                &&& vstd::std_specs::cmp::PartialEqSpec::eq_spec(terminal_receipt_artifact, other_terminal_receipt_artifact)
            },
            (ChildPreviousToolContextV1::Unknown { terminal_receipt_artifact }, ChildPreviousToolContextV1::Unknown { terminal_receipt_artifact: other_terminal_receipt_artifact }) => {
                &&& vstd::std_specs::cmp::PartialEqSpec::eq_spec(terminal_receipt_artifact, other_terminal_receipt_artifact)
            },
            _ => false,
        }
    }
}

impl Clone for ChildPreviousToolContextV1 {
    fn clone(&self) -> (r: Self)
        ensures
            r == *self,
    {
        match self {
            ChildPreviousToolContextV1::Observed { terminal_receipt_artifact } => ChildPreviousToolContextV1::Observed {
                terminal_receipt_artifact: terminal_receipt_artifact.clone(),
            },
            ChildPreviousToolContextV1::Unknown { terminal_receipt_artifact } => ChildPreviousToolContextV1::Unknown {
                terminal_receipt_artifact: terminal_receipt_artifact.clone(),
            },
        }
    }
}

/// Everything that an inference of a child is given.
#[derive(Debug)]
pub struct ChildModelContextInventoryV1 {
    pub work_order_artifact: ArtifactRef,
    pub context_manifest_artifact: ArtifactRef,
    pub prior_plan: Option<ChildPriorPlanContextV1>,
    pub previous_tool: Option<ChildPreviousToolContextV1>,
}

impl PartialEq for ChildModelContextInventoryV1 {
    fn eq(&self, other: &Self) -> (r: bool) {
        self.work_order_artifact == other.work_order_artifact
            && self.context_manifest_artifact == other.context_manifest_artifact
            && self.prior_plan == other.prior_plan
            && self.previous_tool == other.previous_tool
    }
}

impl Eq for ChildModelContextInventoryV1 {
}

impl vstd::std_specs::cmp::PartialEqSpecImpl for ChildModelContextInventoryV1 {
    open spec fn obeys_eq_spec() -> bool {
        true
    }

    open spec fn eq_spec(&self, other: &Self) -> bool {
        &&& vstd::std_specs::cmp::PartialEqSpec::eq_spec(&self.work_order_artifact, &other.work_order_artifact)
        &&& vstd::std_specs::cmp::PartialEqSpec::eq_spec(&self.context_manifest_artifact, &other.context_manifest_artifact)
        &&& vstd::std_specs::cmp::PartialEqSpec::eq_spec(&self.prior_plan, &other.prior_plan)
        &&& vstd::std_specs::cmp::PartialEqSpec::eq_spec(&self.previous_tool, &other.previous_tool)
    }
}

impl Clone for ChildModelContextInventoryV1 {
    fn clone(&self) -> (r: Self)
        ensures
            r == *self,
    {
        ChildModelContextInventoryV1 {
            work_order_artifact: self.work_order_artifact.clone(),
            context_manifest_artifact: self.context_manifest_artifact.clone(),
            prior_plan: self.prior_plan.clone(),
            previous_tool: self.previous_tool.clone(),
        }
    }
}

/// An inference of a child, fixed before it is sent.
#[derive(Debug)]
pub struct ChildModelInferencePrepared {
    pub binding: ChildExecutionBinding,
    pub prompt_manifest_artifact: ArtifactRef,
    pub prompt_artifact: ArtifactRef,
    pub request_artifact: ArtifactRef,
    pub context_inventory: ChildModelContextInventoryV1,
    /// What the other identity fields of the record hold.
    pub other_identities: LifecycleIdentities,
}

impl PartialEq for ChildModelInferencePrepared {
    fn eq(&self, other: &Self) -> (r: bool) {
        self.binding == other.binding
            && self.prompt_manifest_artifact == other.prompt_manifest_artifact
            && self.prompt_artifact == other.prompt_artifact
            && self.request_artifact == other.request_artifact
            && self.context_inventory == other.context_inventory
            && self.other_identities == other.other_identities
    }
}

impl Eq for ChildModelInferencePrepared {
}

impl vstd::std_specs::cmp::PartialEqSpecImpl for ChildModelInferencePrepared {
    open spec fn obeys_eq_spec() -> bool {
        true
    }

    open spec fn eq_spec(&self, other: &Self) -> bool {
        &&& self.binding == other.binding
        &&& vstd::std_specs::cmp::PartialEqSpec::eq_spec(&self.prompt_manifest_artifact, &other.prompt_manifest_artifact)
        &&& vstd::std_specs::cmp::PartialEqSpec::eq_spec(&self.prompt_artifact, &other.prompt_artifact)
        &&& vstd::std_specs::cmp::PartialEqSpec::eq_spec(&self.request_artifact, &other.request_artifact)
        &&& vstd::std_specs::cmp::PartialEqSpec::eq_spec(&self.context_inventory, &other.context_inventory)
        &&& self.other_identities == other.other_identities
    }
}

impl Clone for ChildModelInferencePrepared {
    fn clone(&self) -> (r: Self)
        ensures
            r == *self,
    {
        ChildModelInferencePrepared {
            binding: self.binding,
            prompt_manifest_artifact: self.prompt_manifest_artifact.clone(),
            prompt_artifact: self.prompt_artifact.clone(),
            request_artifact: self.request_artifact.clone(),
            context_inventory: self.context_inventory.clone(),
            other_identities: self.other_identities,
        }
    }
}

/// A tool result that is handed to the model.
#[derive(Debug)]
pub struct ChildSuppliedToolResultV2 {
    pub result_artifact: ArtifactRef,
}

impl PartialEq for ChildSuppliedToolResultV2 {
    fn eq(&self, other: &Self) -> (r: bool) {
        self.result_artifact == other.result_artifact
    }
}

impl Eq for ChildSuppliedToolResultV2 {
}

impl vstd::std_specs::cmp::PartialEqSpecImpl for ChildSuppliedToolResultV2 {
    open spec fn obeys_eq_spec() -> bool {
        true
    }

    open spec fn eq_spec(&self, other: &Self) -> bool {
        &&& vstd::std_specs::cmp::PartialEqSpec::eq_spec(&self.result_artifact, &other.result_artifact)
    }
}

impl Clone for ChildSuppliedToolResultV2 {
    fn clone(&self) -> (r: Self)
        ensures
            r == *self,
    {
        ChildSuppliedToolResultV2 {
            result_artifact: self.result_artifact.clone(),
        }
    }
}

/// An inference of a child under the second contract.
#[derive(Clone, Debug)]
pub struct ChildModelInferencePreparedV2 {
    pub prepared: ChildModelInferencePrepared,
    pub supplied_tool_results: Vec<ChildSuppliedToolResultV2>,
    /// What the other identity fields of the record hold.
    pub other_identities: LifecycleIdentities,
}

impl PartialEq for ChildModelInferencePreparedV2 {
    fn eq(&self, other: &Self) -> (r: bool) {
        self.prepared == other.prepared
            && self.supplied_tool_results == other.supplied_tool_results
            && self.other_identities == other.other_identities
    }
}

impl Eq for ChildModelInferencePreparedV2 {
}

impl vstd::std_specs::cmp::PartialEqSpecImpl for ChildModelInferencePreparedV2 {
    open spec fn obeys_eq_spec() -> bool {
        true
    }

    open spec fn eq_spec(&self, other: &Self) -> bool {
        &&& vstd::std_specs::cmp::PartialEqSpec::eq_spec(&self.prepared, &other.prepared)
        &&& vstd::std_specs::cmp::PartialEqSpec::eq_spec(&self.supplied_tool_results, &other.supplied_tool_results)
        &&& self.other_identities == other.other_identities
    }
}

/// What went wrong with an inference of a child.
#[derive(Clone, Copy, Debug, PartialEq, Eq, Structural)]
pub enum ChildModelInferenceErrorKind {
    Cancelled,
    Timeout,
    ProtocolViolation,
    BackendFailure,
}

/// A failed inference of a child.
#[derive(Clone, Copy, Debug, PartialEq, Eq, Structural)]
pub struct ChildModelInferenceError {
    pub kind: ChildModelInferenceErrorKind,
    pub cancellation: Option<ChildCancellationCauseV1>,
}

/// The terminal observation of an inference of a child.
#[derive(Clone, Copy, Debug, PartialEq, Eq, Structural)]
pub enum ChildModelInferenceObservation {
    Succeeded,
    Failed { error: ChildModelInferenceError },
}

/// An inference of a child was observed to end.
#[derive(Debug)]
pub struct ChildModelInferenceObserved {
    pub binding: ChildExecutionBinding,
    pub outcome: ChildModelInferenceObservation,
    pub normalized_complete_evidence_artifact: ArtifactRef,
    /// What the other identity fields of the record hold.
    pub other_identities: LifecycleIdentities,
}

impl PartialEq for ChildModelInferenceObserved {
    fn eq(&self, other: &Self) -> (r: bool) {
        self.binding == other.binding
            && self.outcome == other.outcome
            && self.normalized_complete_evidence_artifact == other.normalized_complete_evidence_artifact
            && self.other_identities == other.other_identities
    }
}

impl Eq for ChildModelInferenceObserved {
}

impl vstd::std_specs::cmp::PartialEqSpecImpl for ChildModelInferenceObserved {
    open spec fn obeys_eq_spec() -> bool {
        true
    }

    open spec fn eq_spec(&self, other: &Self) -> bool {
        &&& self.binding == other.binding
        &&& self.outcome == other.outcome
        &&& vstd::std_specs::cmp::PartialEqSpec::eq_spec(&self.normalized_complete_evidence_artifact, &other.normalized_complete_evidence_artifact)
        &&& self.other_identities == other.other_identities
    }
}

impl Clone for ChildModelInferenceObserved {
    fn clone(&self) -> (r: Self)
        ensures
            r == *self,
    {
        ChildModelInferenceObserved {
            binding: self.binding,
            outcome: self.outcome,
            normalized_complete_evidence_artifact: self.normalized_complete_evidence_artifact.clone(),
            other_identities: self.other_identities,
        }
    }
}

/// The outcome of an inference of a child is unknown.
#[derive(Debug)]
pub struct ChildModelInferenceOutcomeUnknown {
    pub binding: ChildExecutionBinding,
    pub boundary_artifact: ArtifactRef,
    pub cancellation: Option<ChildCancellationCauseV1>,
    /// What the other identity fields of the record hold.
    pub other_identities: LifecycleIdentities,
}

impl PartialEq for ChildModelInferenceOutcomeUnknown {
    fn eq(&self, other: &Self) -> (r: bool) {
        self.binding == other.binding
            && self.boundary_artifact == other.boundary_artifact
            && self.cancellation == other.cancellation
            && self.other_identities == other.other_identities
    }
}

impl Eq for ChildModelInferenceOutcomeUnknown {
}

impl vstd::std_specs::cmp::PartialEqSpecImpl for ChildModelInferenceOutcomeUnknown {
    open spec fn obeys_eq_spec() -> bool {
        true
    }

    open spec fn eq_spec(&self, other: &Self) -> bool {
        &&& self.binding == other.binding
        &&& vstd::std_specs::cmp::PartialEqSpec::eq_spec(&self.boundary_artifact, &other.boundary_artifact)
        &&& self.cancellation == other.cancellation
        &&& self.other_identities == other.other_identities
    }
}

impl Clone for ChildModelInferenceOutcomeUnknown {
    fn clone(&self) -> (r: Self)
        ensures
            r == *self,
    {
        ChildModelInferenceOutcomeUnknown {
            binding: self.binding,
            boundary_artifact: self.boundary_artifact.clone(),
            cancellation: self.cancellation,
            other_identities: self.other_identities,
        }
    }
}

/// The action that a tool call performs.
#[derive(Debug)]
pub struct ChildToolActionBinding {
    pub validated_action_artifact: ArtifactRef,
}

impl PartialEq for ChildToolActionBinding {
    fn eq(&self, other: &Self) -> (r: bool) {
        self.validated_action_artifact == other.validated_action_artifact
    }
}

impl Eq for ChildToolActionBinding {
}

impl vstd::std_specs::cmp::PartialEqSpecImpl for ChildToolActionBinding {
    open spec fn obeys_eq_spec() -> bool {
        true
    }

    open spec fn eq_spec(&self, other: &Self) -> bool {
        &&& vstd::std_specs::cmp::PartialEqSpec::eq_spec(&self.validated_action_artifact, &other.validated_action_artifact)
    }
}

impl Clone for ChildToolActionBinding {
    fn clone(&self) -> (r: Self)
        ensures
            r == *self,
    {
        ChildToolActionBinding {
            validated_action_artifact: self.validated_action_artifact.clone(),
        }
    }
}

/// A tool call, fixed before it is made.
#[derive(Debug)]
pub struct ChildToolPrepared {
    pub binding: ChildExecutionBinding,
    pub prepared_receipt_artifact: ArtifactRef,
    pub action_binding: ChildToolActionBinding,
    /// What the other identity fields of the record hold.
    pub other_identities: LifecycleIdentities,
}

impl PartialEq for ChildToolPrepared {
    fn eq(&self, other: &Self) -> (r: bool) {
        self.binding == other.binding
            && self.prepared_receipt_artifact == other.prepared_receipt_artifact
            && self.action_binding == other.action_binding
            && self.other_identities == other.other_identities
    }
}

impl Eq for ChildToolPrepared {
}

impl vstd::std_specs::cmp::PartialEqSpecImpl for ChildToolPrepared {
    open spec fn obeys_eq_spec() -> bool {
        true
    }

    open spec fn eq_spec(&self, other: &Self) -> bool {
        &&& self.binding == other.binding
        &&& vstd::std_specs::cmp::PartialEqSpec::eq_spec(&self.prepared_receipt_artifact, &other.prepared_receipt_artifact)
        &&& vstd::std_specs::cmp::PartialEqSpec::eq_spec(&self.action_binding, &other.action_binding)
        &&& self.other_identities == other.other_identities
    }
}

impl Clone for ChildToolPrepared {
    fn clone(&self) -> (r: Self)
        ensures
            r == *self,
    {
        ChildToolPrepared {
            binding: self.binding,
            prepared_receipt_artifact: self.prepared_receipt_artifact.clone(),
            action_binding: self.action_binding.clone(),
            other_identities: self.other_identities,
        }
    }
}

/// The terminal observation of a tool call.
#[derive(Debug)]
pub enum ChildToolObservation {
    Succeeded { result_artifact: ArtifactRef },
    Failed,
}

impl PartialEq for ChildToolObservation {
    fn eq(&self, other: &Self) -> (r: bool) {
        match (self, other) {
            (ChildToolObservation::Succeeded { result_artifact }, ChildToolObservation::Succeeded { result_artifact: other_result_artifact }) => {
                result_artifact == other_result_artifact
            },
            (ChildToolObservation::Failed, ChildToolObservation::Failed) => true,
            _ => false,
        }
    }
}

impl Eq for ChildToolObservation {
}

impl vstd::std_specs::cmp::PartialEqSpecImpl for ChildToolObservation {
    open spec fn obeys_eq_spec() -> bool {
        true
    }

    open spec fn eq_spec(&self, other: &Self) -> bool {
        match (self, other) {
            (ChildToolObservation::Succeeded { result_artifact }, ChildToolObservation::Succeeded { result_artifact: other_result_artifact }) => {
                &&& vstd::std_specs::cmp::PartialEqSpec::eq_spec(result_artifact, other_result_artifact)
            },
            (ChildToolObservation::Failed, ChildToolObservation::Failed) => true,
            _ => false,
        }
    }
}

impl Clone for ChildToolObservation {
    fn clone(&self) -> (r: Self)
        ensures
            r == *self,
    {
        match self {
            ChildToolObservation::Succeeded { result_artifact } => ChildToolObservation::Succeeded {
                result_artifact: result_artifact.clone(),
            },
            ChildToolObservation::Failed => ChildToolObservation::Failed,
        }
    }
}

/// A tool call was observed to end.
#[derive(Debug)]
pub struct ChildToolObserved {
    pub binding: ChildExecutionBinding,
    pub terminal_receipt_artifact: ArtifactRef,
    pub action_binding: ChildToolActionBinding,
    pub outcome: ChildToolObservation,
    /// What the other identity fields of the record hold.
    pub other_identities: LifecycleIdentities,
}

impl PartialEq for ChildToolObserved {
    fn eq(&self, other: &Self) -> (r: bool) {
        self.binding == other.binding
            && self.terminal_receipt_artifact == other.terminal_receipt_artifact
            && self.action_binding == other.action_binding
            && self.outcome == other.outcome
            && self.other_identities == other.other_identities
    }
}

impl Eq for ChildToolObserved {
}

impl vstd::std_specs::cmp::PartialEqSpecImpl for ChildToolObserved {
    open spec fn obeys_eq_spec() -> bool {
        true
    }

    open spec fn eq_spec(&self, other: &Self) -> bool {
        &&& self.binding == other.binding
        &&& vstd::std_specs::cmp::PartialEqSpec::eq_spec(&self.terminal_receipt_artifact, &other.terminal_receipt_artifact)
        &&& vstd::std_specs::cmp::PartialEqSpec::eq_spec(&self.action_binding, &other.action_binding)
        &&& vstd::std_specs::cmp::PartialEqSpec::eq_spec(&self.outcome, &other.outcome)
        &&& self.other_identities == other.other_identities
    }
}

impl Clone for ChildToolObserved {
    fn clone(&self) -> (r: Self)
        ensures
            r == *self,
    {
        ChildToolObserved {
            binding: self.binding,
            terminal_receipt_artifact: self.terminal_receipt_artifact.clone(),
            action_binding: self.action_binding.clone(),
            outcome: self.outcome.clone(),
            other_identities: self.other_identities,
        }
    }
}

/// The outcome of a tool call is unknown.
#[derive(Debug)]
pub struct ChildToolOutcomeUnknown {
    pub binding: ChildExecutionBinding,
    pub terminal_receipt_artifact: ArtifactRef,
    pub action_binding: ChildToolActionBinding,
    pub cancellation: Option<ChildCancellationCauseV1>,
    /// What the other identity fields of the record hold.
    pub other_identities: LifecycleIdentities,
}

impl PartialEq for ChildToolOutcomeUnknown {
    fn eq(&self, other: &Self) -> (r: bool) {
        self.binding == other.binding
            && self.terminal_receipt_artifact == other.terminal_receipt_artifact
            && self.action_binding == other.action_binding
            && self.cancellation == other.cancellation
            && self.other_identities == other.other_identities
    }
}

impl Eq for ChildToolOutcomeUnknown {
}

impl vstd::std_specs::cmp::PartialEqSpecImpl for ChildToolOutcomeUnknown {
    open spec fn obeys_eq_spec() -> bool {
        true
    }

    open spec fn eq_spec(&self, other: &Self) -> bool {
        &&& self.binding == other.binding
        &&& vstd::std_specs::cmp::PartialEqSpec::eq_spec(&self.terminal_receipt_artifact, &other.terminal_receipt_artifact)
        &&& vstd::std_specs::cmp::PartialEqSpec::eq_spec(&self.action_binding, &other.action_binding)
        &&& self.cancellation == other.cancellation
        &&& self.other_identities == other.other_identities
    }
}

impl Clone for ChildToolOutcomeUnknown {
    fn clone(&self) -> (r: Self)
        ensures
            r == *self,
    {
        ChildToolOutcomeUnknown {
            binding: self.binding,
            terminal_receipt_artifact: self.terminal_receipt_artifact.clone(),
            action_binding: self.action_binding.clone(),
            cancellation: self.cancellation,
            other_identities: self.other_identities,
        }
    }
}

/// A tool call was handed to the broker.
#[derive(Debug)]
pub struct ChildToolDispatchStartedV2 {
    pub binding: ChildExecutionBinding,
    pub action_binding: ChildToolActionBinding,
    /// What the other identity fields of the record hold.
    pub other_identities: LifecycleIdentities,
}

impl PartialEq for ChildToolDispatchStartedV2 {
    fn eq(&self, other: &Self) -> (r: bool) {
        self.binding == other.binding
            && self.action_binding == other.action_binding
            && self.other_identities == other.other_identities
    }
}

impl Eq for ChildToolDispatchStartedV2 {
}

impl vstd::std_specs::cmp::PartialEqSpecImpl for ChildToolDispatchStartedV2 {
    open spec fn obeys_eq_spec() -> bool {
        true
    }

    open spec fn eq_spec(&self, other: &Self) -> bool {
        &&& self.binding == other.binding
        &&& vstd::std_specs::cmp::PartialEqSpec::eq_spec(&self.action_binding, &other.action_binding)
        &&& self.other_identities == other.other_identities
    }
}

impl Clone for ChildToolDispatchStartedV2 {
    fn clone(&self) -> (r: Self)
        ensures
            r == *self,
    {
        ChildToolDispatchStartedV2 {
            binding: self.binding,
            action_binding: self.action_binding.clone(),
            other_identities: self.other_identities,
        }
    }
}

/// The terminal observation of a tool call under the second contract.
#[derive(Debug)]
pub enum RepositoryToolObservedTerminalV2 {
    Succeeded { result_artifact: ArtifactRef },
    Failed { evidence_artifact: ArtifactRef },
    AuthorizationDenied { evidence_artifact: ArtifactRef },
}

impl PartialEq for RepositoryToolObservedTerminalV2 {
    fn eq(&self, other: &Self) -> (r: bool) {
        match (self, other) {
            (RepositoryToolObservedTerminalV2::Succeeded { result_artifact }, RepositoryToolObservedTerminalV2::Succeeded { result_artifact: other_result_artifact }) => {
                result_artifact == other_result_artifact
            },
            (RepositoryToolObservedTerminalV2::Failed { evidence_artifact }, RepositoryToolObservedTerminalV2::Failed { evidence_artifact: other_evidence_artifact }) => {
                evidence_artifact == other_evidence_artifact
            },
            (RepositoryToolObservedTerminalV2::AuthorizationDenied { evidence_artifact }, RepositoryToolObservedTerminalV2::AuthorizationDenied { evidence_artifact: other_evidence_artifact }) => {
                evidence_artifact == other_evidence_artifact
            },
            _ => false,
        }
    }
}

impl Eq for RepositoryToolObservedTerminalV2 {
}

impl vstd::std_specs::cmp::PartialEqSpecImpl for RepositoryToolObservedTerminalV2 {
    open spec fn obeys_eq_spec() -> bool {
        true
    }

    open spec fn eq_spec(&self, other: &Self) -> bool {
        match (self, other) {
            (RepositoryToolObservedTerminalV2::Succeeded { result_artifact }, RepositoryToolObservedTerminalV2::Succeeded { result_artifact: other_result_artifact }) => {
                &&& vstd::std_specs::cmp::PartialEqSpec::eq_spec(result_artifact, other_result_artifact)
            },
            (RepositoryToolObservedTerminalV2::Failed { evidence_artifact }, RepositoryToolObservedTerminalV2::Failed { evidence_artifact: other_evidence_artifact }) => {
                &&& vstd::std_specs::cmp::PartialEqSpec::eq_spec(evidence_artifact, other_evidence_artifact)
            },
            (RepositoryToolObservedTerminalV2::AuthorizationDenied { evidence_artifact }, RepositoryToolObservedTerminalV2::AuthorizationDenied { evidence_artifact: other_evidence_artifact }) => {
                &&& vstd::std_specs::cmp::PartialEqSpec::eq_spec(evidence_artifact, other_evidence_artifact)
            },
            _ => false,
        }
    }
}

impl Clone for RepositoryToolObservedTerminalV2 {
    fn clone(&self) -> (r: Self)
        ensures
            r == *self,
    {
        match self {
            RepositoryToolObservedTerminalV2::Succeeded { result_artifact } => RepositoryToolObservedTerminalV2::Succeeded {
                result_artifact: result_artifact.clone(),
            },
            RepositoryToolObservedTerminalV2::Failed { evidence_artifact } => RepositoryToolObservedTerminalV2::Failed {
                evidence_artifact: evidence_artifact.clone(),
            },
            RepositoryToolObservedTerminalV2::AuthorizationDenied { evidence_artifact } => RepositoryToolObservedTerminalV2::AuthorizationDenied {
                evidence_artifact: evidence_artifact.clone(),
            },
        }
    }
}

/// A tool call was observed to end, under the second contract.
#[derive(Debug)]
pub struct ChildToolObservedV2 {
    pub binding: ChildExecutionBinding,
    pub terminal_receipt_artifact: ArtifactRef,
    pub action_binding: ChildToolActionBinding,
    pub terminal: RepositoryToolObservedTerminalV2,
    /// What the other identity fields of the record hold.
    pub other_identities: LifecycleIdentities,
}

impl PartialEq for ChildToolObservedV2 {
    fn eq(&self, other: &Self) -> (r: bool) {
        self.binding == other.binding
            && self.terminal_receipt_artifact == other.terminal_receipt_artifact
            && self.action_binding == other.action_binding
            && self.terminal == other.terminal
            && self.other_identities == other.other_identities
    }
}

impl Eq for ChildToolObservedV2 {
}

impl vstd::std_specs::cmp::PartialEqSpecImpl for ChildToolObservedV2 {
    open spec fn obeys_eq_spec() -> bool {
        true
    }

    open spec fn eq_spec(&self, other: &Self) -> bool {
        &&& self.binding == other.binding
        &&& vstd::std_specs::cmp::PartialEqSpec::eq_spec(&self.terminal_receipt_artifact, &other.terminal_receipt_artifact)
        &&& vstd::std_specs::cmp::PartialEqSpec::eq_spec(&self.action_binding, &other.action_binding)
        &&& vstd::std_specs::cmp::PartialEqSpec::eq_spec(&self.terminal, &other.terminal)
        &&& self.other_identities == other.other_identities
    }
}

impl Clone for ChildToolObservedV2 {
    fn clone(&self) -> (r: Self)
        ensures
            r == *self,
    {
        ChildToolObservedV2 {
            binding: self.binding,
            terminal_receipt_artifact: self.terminal_receipt_artifact.clone(),
            action_binding: self.action_binding.clone(),
            terminal: self.terminal.clone(),
            other_identities: self.other_identities,
        }
    }
}

/// A child committed its handoff.
#[derive(Debug)]
pub struct ChildHandoffCommitted {
    pub binding: ChildExecutionBinding,
    pub handoff_id: ChildHandoffId,
    pub handoff_artifact: ArtifactRef,
    pub handoff_digest: Sha256Digest,
    pub action_binding: ChildToolActionBinding,
    /// What the other identity fields of the record hold.
    pub other_identities: LifecycleIdentities,
}

impl PartialEq for ChildHandoffCommitted {
    fn eq(&self, other: &Self) -> (r: bool) {
        self.binding == other.binding
            && self.handoff_id == other.handoff_id
            && self.handoff_artifact == other.handoff_artifact
            && self.handoff_digest == other.handoff_digest
            && self.action_binding == other.action_binding
            && self.other_identities == other.other_identities
    }
}

impl Eq for ChildHandoffCommitted {
}

impl vstd::std_specs::cmp::PartialEqSpecImpl for ChildHandoffCommitted {
    open spec fn obeys_eq_spec() -> bool {
        true
    }

    open spec fn eq_spec(&self, other: &Self) -> bool {
        &&& self.binding == other.binding
        &&& self.handoff_id == other.handoff_id
        &&& vstd::std_specs::cmp::PartialEqSpec::eq_spec(&self.handoff_artifact, &other.handoff_artifact)
        &&& vstd::std_specs::cmp::PartialEqSpec::eq_spec(&self.handoff_digest, &other.handoff_digest)
        &&& vstd::std_specs::cmp::PartialEqSpec::eq_spec(&self.action_binding, &other.action_binding)
        &&& self.other_identities == other.other_identities
    }
}

impl Clone for ChildHandoffCommitted {
    fn clone(&self) -> (r: Self)
        ensures
            r == *self,
    {
        ChildHandoffCommitted {
            binding: self.binding,
            handoff_id: self.handoff_id,
            handoff_artifact: self.handoff_artifact.clone(),
            handoff_digest: self.handoff_digest.clone(),
            action_binding: self.action_binding.clone(),
            other_identities: self.other_identities,
        }
    }
}

/// An attempt of a child ended.
#[derive(Debug)]
pub struct ChildExecutionFinished {
    pub binding: ChildExecutionBinding,
    pub outcome: ChildExecutionOutcome,
    pub handoff_event_id: Option<EventId>,
    pub completed_model_calls: u32,
    pub completed_tool_calls: u32,
    /// What the other identity fields of the record hold.
    pub other_identities: LifecycleIdentities,
}

impl PartialEq for ChildExecutionFinished {
    fn eq(&self, other: &Self) -> (r: bool) {
        self.binding == other.binding
            && self.outcome == other.outcome
            && self.handoff_event_id == other.handoff_event_id
            && self.completed_model_calls == other.completed_model_calls
            && self.completed_tool_calls == other.completed_tool_calls
            && self.other_identities == other.other_identities
    }
}

impl Eq for ChildExecutionFinished {
}

impl vstd::std_specs::cmp::PartialEqSpecImpl for ChildExecutionFinished {
    open spec fn obeys_eq_spec() -> bool {
        true
    }

    open spec fn eq_spec(&self, other: &Self) -> bool {
        &&& self.binding == other.binding
        &&& vstd::std_specs::cmp::PartialEqSpec::eq_spec(&self.outcome, &other.outcome)
        &&& self.handoff_event_id == other.handoff_event_id
        &&& self.completed_model_calls == other.completed_model_calls
        &&& self.completed_tool_calls == other.completed_tool_calls
        &&& self.other_identities == other.other_identities
    }
}

impl Clone for ChildExecutionFinished {
    fn clone(&self) -> (r: Self)
        ensures
            r == *self,
    {
        ChildExecutionFinished {
            binding: self.binding,
            outcome: self.outcome.clone(),
            handoff_event_id: self.handoff_event_id,
            completed_model_calls: self.completed_model_calls,
            completed_tool_calls: self.completed_tool_calls,
            other_identities: self.other_identities,
        }
    }
}

} // verus!

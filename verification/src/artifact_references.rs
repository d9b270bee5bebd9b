//! Which events retain which artifacts.

use vstd::prelude::*;
use crate::artifact::ArtifactRef;
use crate::child::{
    ChildModelContextInventoryV1, ChildModelInferencePrepared, ChildPreviousToolContextV1,
    ChildSuppliedToolResultV2, ChildToolObservation, RepositoryToolObservedTerminalV2,
};
use crate::event::{EventEnvelope, EventPayload};
use crate::planning::PlannerStageContext;
use crate::run::InputItem;
use crate::text::Same;

verus! {

/// Whether an item of the input is `artifact`.
pub open spec fn input_retains(items: Seq<InputItem>, artifact: ArtifactRef) -> bool {
    exists|i: int|
        0 <= i < items.len() && (#[trigger] items[i] matches InputItem::Artifact {
            artifact: retained,
        } && retained.same(&artifact))
}

/// Whether the stage of an inference was given `artifact`.
pub open spec fn stage_retains(stage: PlannerStageContext, artifact: ArtifactRef) -> bool {
    match stage {
        PlannerStageContext::InitialPlan { execution_policy_artifact, .. } =>
            execution_policy_artifact.same(&artifact),
        PlannerStageContext::InitialReview {
            execution_policy_artifact,
            critic_policy_artifact,
            candidate,
            ..
        } => {
            ||| execution_policy_artifact.same(&artifact)
            ||| critic_policy_artifact.same(&artifact)
            ||| candidate.plan_artifact.same(&artifact)
        },
        PlannerStageContext::FinalReview {
            execution_policy_artifact,
            critic_policy_artifact,
            candidate,
            ..
        } => {
            ||| execution_policy_artifact.same(&artifact)
            ||| critic_policy_artifact.same(&artifact)
            ||| candidate.plan_artifact.same(&artifact)
        },
        PlannerStageContext::Repair { execution_policy_artifact, candidate, .. } => {
            ||| execution_policy_artifact.same(&artifact)
            ||| candidate.plan_artifact.same(&artifact)
        },
    }
}

/// Whether an inference of a child was given `artifact` as context.
pub open spec fn context_retains(
    inventory: ChildModelContextInventoryV1,
    artifact: ArtifactRef,
) -> bool {
    ||| inventory.work_order_artifact.same(&artifact)
    ||| inventory.context_manifest_artifact.same(&artifact)
    ||| inventory.prior_plan matches Some(prior) && prior.source_model_evidence_artifact.same(
        &artifact,
    )
    ||| inventory.previous_tool matches Some(tool) && match tool {
        ChildPreviousToolContextV1::Observed { terminal_receipt_artifact } =>
            terminal_receipt_artifact.same(&artifact),
        ChildPreviousToolContextV1::Unknown { terminal_receipt_artifact } =>
            terminal_receipt_artifact.same(&artifact),
    }
}

/// Whether a prepared inference of a child retains `artifact`.
pub open spec fn inference_retains(
    prepared: ChildModelInferencePrepared,
    artifact: ArtifactRef,
) -> bool {
    ||| prepared.prompt_manifest_artifact.same(&artifact)
    ||| prepared.prompt_artifact.same(&artifact)
    ||| prepared.request_artifact.same(&artifact)
    ||| context_retains(prepared.context_inventory, artifact)
}

/// Whether a payload retains `artifact`.
pub open spec fn payload_retains(payload: EventPayload, artifact: ArtifactRef) -> bool {
    match payload {
        EventPayload::UserInput { items } => input_retains(items@, artifact),
        EventPayload::RunCreated { run } => input_retains(run.spec.input@, artifact),
        EventPayload::ArtifactStored { artifact: retained } => retained.same(&artifact),
        EventPayload::PlannerInferencePrepared(prepared) => {
            ||| prepared.prompt_artifact.same(&artifact)
            ||| prepared.request_artifact.same(&artifact)
            ||| prepared.stage_context matches Some(stage) && stage_retains(stage, artifact)
        },
        EventPayload::ChildModelInferencePrepared(prepared) => inference_retains(prepared, artifact),
        EventPayload::ChildModelInferencePreparedV2(prepared) => {
            ||| inference_retains(prepared.prepared, artifact)
            ||| exists|i: int|
                0 <= i < prepared.supplied_tool_results@.len() && (
                #[trigger] prepared.supplied_tool_results@[i]).result_artifact.same(&artifact)
        },
        EventPayload::ChildToolObserved(observed) => {
            ||| observed.terminal_receipt_artifact.same(&artifact)
            ||| observed.action_binding.validated_action_artifact.same(&artifact)
            ||| observed.outcome matches ChildToolObservation::Succeeded { result_artifact }
                && result_artifact.same(&artifact)
        },
        EventPayload::ChildToolObservedV2(observed) => {
            ||| observed.terminal_receipt_artifact.same(&artifact)
            ||| observed.action_binding.validated_action_artifact.same(&artifact)
            ||| match observed.terminal {
                RepositoryToolObservedTerminalV2::Succeeded { result_artifact } =>
                    result_artifact.same(&artifact),
                RepositoryToolObservedTerminalV2::Failed { evidence_artifact } =>
                    evidence_artifact.same(&artifact),
                RepositoryToolObservedTerminalV2::AuthorizationDenied { evidence_artifact } =>
                    evidence_artifact.same(&artifact),
            }
        },
        EventPayload::RootPlanningFailed(failure) => failure.evidence_artifact.same(&artifact),
        EventPayload::RootPlanningStageFailed(failure) => {
            ||| failure.execution_policy_artifact.same(&artifact)
            ||| failure.evidence_artifact.same(&artifact)
        },
        EventPayload::PlannerInferenceObserved(observed) => observed.normalized_complete_evidence_artifact.same(&artifact),
        EventPayload::ReadOperationPrepared(prepared) => prepared.request_artifact.same(&artifact),
        EventPayload::ReadOperationObserved(observed) => observed.normalized_complete_evidence_artifact.same(&artifact),
        EventPayload::PlanProposalRejected(rejected) => {
            ||| rejected.proposal_artifact.same(&artifact)
            ||| rejected.validation_evidence_artifact.same(&artifact)
        },
        EventPayload::PlanProposalAccepted(accepted) => {
            ||| accepted.proposal_artifact.same(&artifact)
            ||| accepted.accepted_plan_artifact.same(&artifact)
            ||| accepted.validation_evidence_artifact.same(&artifact)
        },
        EventPayload::PlanSemanticReviewAccepted(accepted) => {
            ||| accepted.candidate.plan_artifact.same(&artifact)
            ||| accepted.critique_artifact.same(&artifact)
            ||| accepted.validation_evidence_artifact.same(&artifact)
        },
        EventPayload::PlanSemanticReviewRejected(rejected) => {
            ||| rejected.candidate.plan_artifact.same(&artifact)
            ||| rejected.critique_artifact.same(&artifact)
            ||| rejected.validation_evidence_artifact.same(&artifact)
        },
        EventPayload::PlannerTurnPreparedV1(prepared) => {
            ||| prepared.base_plan.artifact.same(&artifact)
            ||| prepared.durable_evidence_packet_artifact.same(&artifact)
            ||| prepared.durable_evidence_delta_artifact.same(&artifact)
            ||| prepared.prompt_evidence_packet_artifact.same(&artifact)
            ||| prepared.prompt_evidence_delta_artifact.same(&artifact)
            ||| prepared.prompt_manifest_artifact.same(&artifact)
            ||| prepared.prompt_artifact.same(&artifact)
            ||| prepared.request_artifact.same(&artifact)
        },
        EventPayload::PlannerTurnObservedV1(observed) => observed.normalized_complete_evidence_artifact.same(&artifact),
        EventPayload::PlannerTurnUnknownV1(unknown) => unknown.boundary_evidence_artifact.same(&artifact),
        EventPayload::PlannerTurnAcceptedV1(accepted) => {
            ||| accepted.base_plan.artifact.same(&artifact)
            ||| accepted.resulting_plan.artifact.same(&artifact)
            ||| accepted.accepted_prompt_output_artifact.same(&artifact)
            ||| accepted.validation_evidence_artifact.same(&artifact)
        },
        EventPayload::PlannerTurnRejectedV1(rejected) => {
            ||| rejected.base_plan.artifact.same(&artifact)
            ||| rejected.rejected_output_artifact.same(&artifact)
            ||| rejected.validation_evidence_artifact.same(&artifact)
        },
        EventPayload::ReconCompletionGateAcceptedV1(accepted) => {
            ||| accepted.resulting_plan.artifact.same(&artifact)
            ||| accepted.receipt_artifact.same(&artifact)
        },
        EventPayload::RepositorySnapshotLeaseIssued(issued) => issued.snapshot.immutability_lease.lease_artifact.same(&artifact),
        EventPayload::RepositoryWriterLeaseRevoked(revoked) => revoked.evidence_artifact.same(&artifact),
        EventPayload::RepositorySnapshotCaptureAbandonedV1(abandoned) => abandoned.recovery_artifact.same(&artifact),
        EventPayload::RepositorySnapshotLeaseReleased(released) => released.release_artifact.same(&artifact),
        EventPayload::RepositorySnapshotReleaseReconciledV1(reconciled) => reconciled.recovery_artifact.same(&artifact),
        EventPayload::ChildDelegationAuthorized(authorized) => {
            ||| authorized.accepted_plan_artifact.same(&artifact)
            ||| authorized.work_order_artifact.same(&artifact)
            ||| authorized.context_manifest_artifact.same(&artifact)
            ||| authorized.spec.repository_authority.policy_artifact.same(&artifact)
            ||| authorized.spec.repository_authority.snapshot.immutability_lease.lease_artifact.same(&artifact)
        },
        EventPayload::ChildDelegationAuthorizedV2(authorized) => {
            ||| authorized.accepted_prompt_output_artifact.same(&artifact)
            ||| authorized.planner_work_order.work_order_artifact.same(&artifact)
            ||| authorized.work_order_artifact.same(&artifact)
            ||| authorized.context_manifest_artifact.same(&artifact)
            ||| authorized.spec.repository_authority.policy_artifact.same(&artifact)
            ||| authorized.spec.repository_authority.snapshot.immutability_lease.lease_artifact.same(&artifact)
        },
        EventPayload::ChildWorkOrderIssued(issued) => {
            ||| issued.work_order_artifact.same(&artifact)
            ||| issued.context_manifest_artifact.same(&artifact)
            ||| issued.spec.repository_authority.policy_artifact.same(&artifact)
            ||| issued.spec.repository_authority.snapshot.immutability_lease.lease_artifact.same(&artifact)
        },
        EventPayload::ChildModelInferenceObserved(observed) => observed.normalized_complete_evidence_artifact.same(&artifact),
        EventPayload::ChildModelInferenceOutcomeUnknown(unknown) => unknown.boundary_artifact.same(&artifact),
        EventPayload::ChildToolPrepared(prepared) => {
            ||| prepared.prepared_receipt_artifact.same(&artifact)
            ||| prepared.action_binding.validated_action_artifact.same(&artifact)
        },
        EventPayload::ChildToolOutcomeUnknown(unknown) => {
            ||| unknown.terminal_receipt_artifact.same(&artifact)
            ||| unknown.action_binding.validated_action_artifact.same(&artifact)
        },
        EventPayload::ChildToolPreparedV2(prepared) => {
            ||| prepared.prepared_receipt_artifact.same(&artifact)
            ||| prepared.action_binding.validated_action_artifact.same(&artifact)
        },
        EventPayload::ChildToolDispatchStartedV2(started) => started.action_binding.validated_action_artifact.same(&artifact),
        EventPayload::ChildToolOutcomeUnknownV2(unknown) => {
            ||| unknown.terminal_receipt_artifact.same(&artifact)
            ||| unknown.action_binding.validated_action_artifact.same(&artifact)
        },
        EventPayload::ChildHandoffCommitted(handoff) => {
            ||| handoff.handoff_artifact.same(&artifact)
            ||| handoff.action_binding.validated_action_artifact.same(&artifact)
        },
        EventPayload::PlannerInferenceOutcomeUnknown(_)
        | EventPayload::SessionCreated { .. }
        | EventPayload::RunStateChanged { .. }
        | EventPayload::RunClaimed(_)
        | EventPayload::CancellationRequested(_)
        | EventPayload::ChildExecutionClaimAdopted(_)
        | EventPayload::ChildExecutionStarted(_)
        | EventPayload::ChildExecutionFinished(_)
        | EventPayload::RepositoryBrokerEpochActivatedV1(_)
        | EventPayload::RepositorySnapshotCaptureClaimAdoptedV1(_)
        | EventPayload::RepositorySnapshotCleanupGrantedV1(_)
        | EventPayload::RepositorySnapshotCaptureAbandonedV2(_)
        | EventPayload::RepositorySnapshotReleaseReconciledV2(_)
        | EventPayload::WorkspaceRecoveryFinalizedV1(_)
        | EventPayload::BackendEvent { .. } => false,
    }
}

/// Whether an event retains `artifact`, in its payload or as its raw bytes.
pub open spec fn event_retains(event: EventEnvelope, artifact: ArtifactRef) -> bool {
    ||| event.provenance.raw_artifact matches Some(raw) && raw.same(&artifact)
    ||| payload_retains(event.payload, artifact)
}

/// Whether an item of the input is `artifact`.
pub fn input_items_reference_artifact(items: &Vec<InputItem>, artifact: &ArtifactRef) -> (r: bool)
    ensures
        r == input_retains(items@, *artifact),
{
    let mut i: usize = 0;
    while i < items.len()
        invariant
            i <= items@.len(),
            forall|j: int|
                0 <= j < i ==> !(#[trigger] items@[j] matches InputItem::Artifact {
                    artifact: retained,
                } && retained.same(artifact)),
        decreases items.len() - i,
    {
        if let InputItem::Artifact { artifact: retained } = &items[i] {
            if retained == artifact {
                assert(items@[i as int] matches InputItem::Artifact { artifact: retained }
                    && retained.same(artifact));
                return true;
            }
        }
        i += 1;
    }
    false
}

fn stage_references_artifact(stage: &PlannerStageContext, artifact: &ArtifactRef) -> (r: bool)
    ensures
        r == stage_retains(*stage, *artifact),
{
    match stage {
        PlannerStageContext::InitialPlan { execution_policy_artifact, .. } =>
            execution_policy_artifact == artifact,
        PlannerStageContext::InitialReview {
            execution_policy_artifact,
            critic_policy_artifact,
            candidate,
            ..
        }
        | PlannerStageContext::FinalReview {
            execution_policy_artifact,
            critic_policy_artifact,
            candidate,
            ..
        } => {
            execution_policy_artifact == artifact || critic_policy_artifact == artifact
                || &candidate.plan_artifact == artifact
        },
        PlannerStageContext::Repair { execution_policy_artifact, candidate, .. } => {
            execution_policy_artifact == artifact || &candidate.plan_artifact == artifact
        },
    }
}

/// Whether an inference of a child was given `artifact` as context.
pub fn child_model_context_references_artifact(
    inventory: &ChildModelContextInventoryV1,
    artifact: &ArtifactRef,
) -> (r: bool)
    ensures
        r == context_retains(*inventory, *artifact),
{
    &inventory.work_order_artifact == artifact
        || &inventory.context_manifest_artifact == artifact
        || match &inventory.prior_plan {
        Some(prior) => &prior.source_model_evidence_artifact == artifact,
        None => false,
    } || match &inventory.previous_tool {
        Some(ChildPreviousToolContextV1::Observed { terminal_receipt_artifact })
        | Some(ChildPreviousToolContextV1::Unknown { terminal_receipt_artifact }) =>
            terminal_receipt_artifact == artifact,
        None => false,
    }
}

fn child_inference_references_artifact(
    prepared: &ChildModelInferencePrepared,
    artifact: &ArtifactRef,
) -> (r: bool)
    ensures
        r == inference_retains(*prepared, *artifact),
{
    &prepared.prompt_manifest_artifact == artifact
        || &prepared.prompt_artifact == artifact
        || &prepared.request_artifact == artifact
        || child_model_context_references_artifact(&prepared.context_inventory, artifact)
}

fn supplied_results_reference_artifact(
    results: &Vec<ChildSuppliedToolResultV2>,
    artifact: &ArtifactRef,
) -> (r: bool)
    ensures
        r == exists|i: int|
            0 <= i < results@.len() && (#[trigger] results@[i]).result_artifact.same(artifact),
{
    let mut i: usize = 0;
    while i < results.len()
        invariant
            i <= results@.len(),
            forall|j: int|
                0 <= j < i ==> !(#[trigger] results@[j]).result_artifact.same(artifact),
        decreases results.len() - i,
    {
        if &results[i].result_artifact == artifact {
            return true;
        }
        i += 1;
    }
    false
}

fn payload_references_artifact(payload: &EventPayload, artifact: &ArtifactRef) -> (r: bool)
    ensures
        r == payload_retains(*payload, *artifact),
{
    match payload {
        EventPayload::UserInput { items } => input_items_reference_artifact(items, artifact),
        EventPayload::RunCreated { run } => input_items_reference_artifact(&run.spec.input, artifact),
        EventPayload::ArtifactStored { artifact: retained } => retained == artifact,
        EventPayload::PlannerInferencePrepared(prepared) => {
            &prepared.prompt_artifact == artifact
                || &prepared.request_artifact == artifact
                || match &prepared.stage_context {
                Some(stage) => stage_references_artifact(stage, artifact),
                None => false,
            }
        },
        EventPayload::ChildModelInferencePrepared(prepared) => child_inference_references_artifact(prepared, artifact),
        EventPayload::ChildModelInferencePreparedV2(prepared) => {
            child_inference_references_artifact(&prepared.prepared, artifact)
                || supplied_results_reference_artifact(&prepared.supplied_tool_results, artifact)
        },
        EventPayload::ChildToolObserved(observed) => {
            &observed.terminal_receipt_artifact == artifact
                || &observed.action_binding.validated_action_artifact == artifact
                || match &observed.outcome {
                ChildToolObservation::Succeeded { result_artifact } => result_artifact == artifact,
                ChildToolObservation::Failed => false,
            }
        },
        EventPayload::ChildToolObservedV2(observed) => {
            &observed.terminal_receipt_artifact == artifact
                || &observed.action_binding.validated_action_artifact == artifact
                || match &observed.terminal {
                RepositoryToolObservedTerminalV2::Succeeded { result_artifact } => result_artifact
                    == artifact,
                RepositoryToolObservedTerminalV2::Failed { evidence_artifact }
                | RepositoryToolObservedTerminalV2::AuthorizationDenied { evidence_artifact } =>
                    evidence_artifact == artifact,
            }
        },
        EventPayload::RootPlanningFailed(failure) => &failure.evidence_artifact == artifact,
        EventPayload::RootPlanningStageFailed(failure) => {
            &failure.execution_policy_artifact == artifact
                || &failure.evidence_artifact == artifact
        },
        EventPayload::PlannerInferenceObserved(observed) => &observed.normalized_complete_evidence_artifact == artifact,
        EventPayload::ReadOperationPrepared(prepared) => &prepared.request_artifact == artifact,
        EventPayload::ReadOperationObserved(observed) => &observed.normalized_complete_evidence_artifact == artifact,
        EventPayload::PlanProposalRejected(rejected) => {
            &rejected.proposal_artifact == artifact
                || &rejected.validation_evidence_artifact == artifact
        },
        EventPayload::PlanProposalAccepted(accepted) => {
            &accepted.proposal_artifact == artifact
                || &accepted.accepted_plan_artifact == artifact
                || &accepted.validation_evidence_artifact == artifact
        },
        EventPayload::PlanSemanticReviewAccepted(accepted) => {
            &accepted.candidate.plan_artifact == artifact
                || &accepted.critique_artifact == artifact
                || &accepted.validation_evidence_artifact == artifact
        },
        EventPayload::PlanSemanticReviewRejected(rejected) => {
            &rejected.candidate.plan_artifact == artifact
                || &rejected.critique_artifact == artifact
                || &rejected.validation_evidence_artifact == artifact
        },
        EventPayload::PlannerTurnPreparedV1(prepared) => {
            &prepared.base_plan.artifact == artifact
                || &prepared.durable_evidence_packet_artifact == artifact
                || &prepared.durable_evidence_delta_artifact == artifact
                || &prepared.prompt_evidence_packet_artifact == artifact
                || &prepared.prompt_evidence_delta_artifact == artifact
                || &prepared.prompt_manifest_artifact == artifact
                || &prepared.prompt_artifact == artifact
                || &prepared.request_artifact == artifact
        },
        EventPayload::PlannerTurnObservedV1(observed) => &observed.normalized_complete_evidence_artifact == artifact,
        EventPayload::PlannerTurnUnknownV1(unknown) => &unknown.boundary_evidence_artifact == artifact,
        EventPayload::PlannerTurnAcceptedV1(accepted) => {
            &accepted.base_plan.artifact == artifact
                || &accepted.resulting_plan.artifact == artifact
                || &accepted.accepted_prompt_output_artifact == artifact
                || &accepted.validation_evidence_artifact == artifact
        },
        EventPayload::PlannerTurnRejectedV1(rejected) => {
            &rejected.base_plan.artifact == artifact
                || &rejected.rejected_output_artifact == artifact
                || &rejected.validation_evidence_artifact == artifact
        },
        EventPayload::ReconCompletionGateAcceptedV1(accepted) => {
            &accepted.resulting_plan.artifact == artifact
                || &accepted.receipt_artifact == artifact
        },
        EventPayload::RepositorySnapshotLeaseIssued(issued) => &issued.snapshot.immutability_lease.lease_artifact == artifact,
        EventPayload::RepositoryWriterLeaseRevoked(revoked) => &revoked.evidence_artifact == artifact,
        EventPayload::RepositorySnapshotCaptureAbandonedV1(abandoned) => &abandoned.recovery_artifact == artifact,
        EventPayload::RepositorySnapshotLeaseReleased(released) => &released.release_artifact == artifact,
        EventPayload::RepositorySnapshotReleaseReconciledV1(reconciled) => &reconciled.recovery_artifact == artifact,
        EventPayload::ChildDelegationAuthorized(authorized) => {
            &authorized.accepted_plan_artifact == artifact
                || &authorized.work_order_artifact == artifact
                || &authorized.context_manifest_artifact == artifact
                || &authorized.spec.repository_authority.policy_artifact == artifact
                || &authorized.spec.repository_authority.snapshot.immutability_lease.lease_artifact == artifact
        },
        EventPayload::ChildDelegationAuthorizedV2(authorized) => {
            &authorized.accepted_prompt_output_artifact == artifact
                || &authorized.planner_work_order.work_order_artifact == artifact
                || &authorized.work_order_artifact == artifact
                || &authorized.context_manifest_artifact == artifact
                || &authorized.spec.repository_authority.policy_artifact == artifact
                || &authorized.spec.repository_authority.snapshot.immutability_lease.lease_artifact == artifact
        },
        EventPayload::ChildWorkOrderIssued(issued) => {
            &issued.work_order_artifact == artifact
                || &issued.context_manifest_artifact == artifact
                || &issued.spec.repository_authority.policy_artifact == artifact
                || &issued.spec.repository_authority.snapshot.immutability_lease.lease_artifact == artifact
        },
        EventPayload::ChildModelInferenceObserved(observed) => &observed.normalized_complete_evidence_artifact == artifact,
        EventPayload::ChildModelInferenceOutcomeUnknown(unknown) => &unknown.boundary_artifact == artifact,
        EventPayload::ChildToolPrepared(prepared) => {
            &prepared.prepared_receipt_artifact == artifact
                || &prepared.action_binding.validated_action_artifact == artifact
        },
        EventPayload::ChildToolOutcomeUnknown(unknown) => {
            &unknown.terminal_receipt_artifact == artifact
                || &unknown.action_binding.validated_action_artifact == artifact
        },
        EventPayload::ChildToolPreparedV2(prepared) => {
            &prepared.prepared_receipt_artifact == artifact
                || &prepared.action_binding.validated_action_artifact == artifact
        },
        EventPayload::ChildToolDispatchStartedV2(started) => &started.action_binding.validated_action_artifact == artifact,
        EventPayload::ChildToolOutcomeUnknownV2(unknown) => {
            &unknown.terminal_receipt_artifact == artifact
                || &unknown.action_binding.validated_action_artifact == artifact
        },
        EventPayload::ChildHandoffCommitted(handoff) => {
            &handoff.handoff_artifact == artifact
                || &handoff.action_binding.validated_action_artifact == artifact
        },
        EventPayload::PlannerInferenceOutcomeUnknown(_)
        | EventPayload::SessionCreated { .. }
        | EventPayload::RunStateChanged { .. }
        | EventPayload::RunClaimed(_)
        | EventPayload::CancellationRequested(_)
        | EventPayload::ChildExecutionClaimAdopted(_)
        | EventPayload::ChildExecutionStarted(_)
        | EventPayload::ChildExecutionFinished(_)
        | EventPayload::RepositoryBrokerEpochActivatedV1(_)
        | EventPayload::RepositorySnapshotCaptureClaimAdoptedV1(_)
        | EventPayload::RepositorySnapshotCleanupGrantedV1(_)
        | EventPayload::RepositorySnapshotCaptureAbandonedV2(_)
        | EventPayload::RepositorySnapshotReleaseReconciledV2(_)
        | EventPayload::WorkspaceRecoveryFinalizedV1(_)
        | EventPayload::BackendEvent { .. } => false,
    }
}

/// Whether an event retains `artifact`, in its payload or as its raw bytes.
pub fn child_event_references_artifact(event: &EventEnvelope, artifact: &ArtifactRef) -> (r: bool)
    ensures
        r == event_retains(*event, *artifact),
{
    if event.provenance.raw_artifact.as_ref() == Some(artifact) {
        return true;
    }
    payload_references_artifact(&event.payload, artifact)
}

/// An event retains every artifact that it names.
pub proof fn law_events_retain_what_they_name(payload: EventPayload)
    ensures
        match payload {
            EventPayload::ArtifactStored { artifact } => payload_retains(payload, artifact),
            EventPayload::PlannerInferencePrepared(prepared) => {
                &&& payload_retains(payload, prepared.prompt_artifact)
                &&& payload_retains(payload, prepared.request_artifact)
                &&& prepared.stage_context matches Some(stage) ==> payload_retains(
                    payload,
                    *crate::root_planning_state::stage_policy(&stage),
                )
                &&& prepared.stage_context matches Some(stage) ==> match stage {
                    PlannerStageContext::InitialPlan { .. } => true,
                    PlannerStageContext::InitialReview {
                        critic_policy_artifact,
                        candidate,
                        ..
                    } => payload_retains(payload, critic_policy_artifact) && payload_retains(
                        payload,
                        candidate.plan_artifact,
                    ),
                    PlannerStageContext::Repair { candidate, .. } => payload_retains(
                        payload,
                        candidate.plan_artifact,
                    ),
                    PlannerStageContext::FinalReview {
                        critic_policy_artifact,
                        candidate,
                        ..
                    } => payload_retains(payload, critic_policy_artifact) && payload_retains(
                        payload,
                        candidate.plan_artifact,
                    ),
                }
            },
            EventPayload::RootPlanningFailed(failure) => payload_retains(
                payload,
                failure.evidence_artifact,
            ),
            EventPayload::RootPlanningStageFailed(failure) => {
                &&& payload_retains(payload, failure.execution_policy_artifact)
                &&& payload_retains(payload, failure.evidence_artifact)
            },
            EventPayload::PlannerInferenceObserved(observed) => payload_retains(
                payload,
                observed.normalized_complete_evidence_artifact,
            ),
            EventPayload::PlanProposalRejected(rejected) => {
                &&& payload_retains(payload, rejected.proposal_artifact)
                &&& payload_retains(payload, rejected.validation_evidence_artifact)
            },
            EventPayload::PlanProposalAccepted(accepted) => {
                &&& payload_retains(payload, accepted.proposal_artifact)
                &&& payload_retains(payload, accepted.accepted_plan_artifact)
                &&& payload_retains(payload, accepted.validation_evidence_artifact)
            },
            EventPayload::PlanSemanticReviewAccepted(accepted) => {
                &&& payload_retains(payload, accepted.candidate.plan_artifact)
                &&& payload_retains(payload, accepted.critique_artifact)
                &&& payload_retains(payload, accepted.validation_evidence_artifact)
            },
            EventPayload::PlanSemanticReviewRejected(rejected) => {
                &&& payload_retains(payload, rejected.candidate.plan_artifact)
                &&& payload_retains(payload, rejected.critique_artifact)
                &&& payload_retains(payload, rejected.validation_evidence_artifact)
            },
            EventPayload::PlannerTurnPreparedV1(prepared) => {
                &&& payload_retains(payload, prepared.base_plan.artifact)
                &&& payload_retains(payload, prepared.durable_evidence_packet_artifact)
                &&& payload_retains(payload, prepared.durable_evidence_delta_artifact)
                &&& payload_retains(payload, prepared.prompt_evidence_packet_artifact)
                &&& payload_retains(payload, prepared.prompt_evidence_delta_artifact)
                &&& payload_retains(payload, prepared.prompt_manifest_artifact)
                &&& payload_retains(payload, prepared.prompt_artifact)
                &&& payload_retains(payload, prepared.request_artifact)
            },
            EventPayload::PlannerTurnObservedV1(observed) => payload_retains(
                payload,
                observed.normalized_complete_evidence_artifact,
            ),
            EventPayload::PlannerTurnUnknownV1(unknown) => payload_retains(
                payload,
                unknown.boundary_evidence_artifact,
            ),
            EventPayload::PlannerTurnAcceptedV1(accepted) => {
                &&& payload_retains(payload, accepted.base_plan.artifact)
                &&& payload_retains(payload, accepted.resulting_plan.artifact)
                &&& payload_retains(payload, accepted.accepted_prompt_output_artifact)
                &&& payload_retains(payload, accepted.validation_evidence_artifact)
            },
            EventPayload::PlannerTurnRejectedV1(rejected) => {
                &&& payload_retains(payload, rejected.base_plan.artifact)
                &&& payload_retains(payload, rejected.rejected_output_artifact)
                &&& payload_retains(payload, rejected.validation_evidence_artifact)
            },
            EventPayload::RepositoryWriterLeaseRevoked(revoked) => payload_retains(
                payload,
                revoked.evidence_artifact,
            ),
            EventPayload::RepositorySnapshotLeaseReleased(released) => payload_retains(
                payload,
                released.release_artifact,
            ),
            _ => true,
        },
{
}

/// Events that name no artifact retain none.
pub proof fn law_plain_events_retain_nothing(payload: EventPayload, artifact: ArtifactRef)
    requires
        payload is SessionCreated || payload is RunStateChanged || payload is RunClaimed
            || payload is CancellationRequested,
    ensures
        !payload_retains(payload, artifact),
{
}

} // verus!

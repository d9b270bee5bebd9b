//! The constants of the wire contracts, as the embedding application fixes them.

use vstd::prelude::*;
use crate::text::{Text};

verus! {

/// The media type of every retained document.
#[derive(Debug)]
pub struct MediaTypes {
    pub root_planning_failure: Text,
    pub root_planning_stage_failure: Text,
    pub root_planning_execution_policy: Text,
    pub plan_critic_policy: Text,
    pub plan_critique: Text,
    pub plan_critique_validation: Text,
    pub plan_proposal: Text,
    pub plan_validation: Text,
    pub accepted_plan: Text,
    pub retained_prompt: Text,
    pub inference_request: Text,
    pub inference_evidence: Text,
    pub cancellation_boundary: Text,
    pub planner_plan_v2: Text,
    pub planner_prompt_manifest_v2: Text,
    pub planner_work_order_v2: Text,
    pub planner_prompt_output_v2: Text,
    pub planner_prompt_evidence_packet_v2: Text,
    pub planner_prompt_evidence_delta_v2: Text,
    pub planner_durable_evidence_packet_v2: Text,
    pub planner_durable_evidence_delta_v2: Text,
    pub planner_v2_finalization_evidence: Text,
    pub child_execution_failure: Text,
    pub child_handoff: Text,
    pub snapshot_lease: Text,
    pub cleanup_safety_evidence: Text,
    pub cleanup_process_inspection: Text,
    pub cleanup_initial_inspection: Text,
    pub cleanup_topology_inspection: Text,
    pub hdiutil_info: Text,
    pub command_stderr: Text,
}

impl PartialEq for MediaTypes {
    fn eq(&self, other: &Self) -> (r: bool) {
        self.root_planning_failure == other.root_planning_failure
            && self.root_planning_stage_failure == other.root_planning_stage_failure
            && self.root_planning_execution_policy == other.root_planning_execution_policy
            && self.plan_critic_policy == other.plan_critic_policy
            && self.plan_critique == other.plan_critique
            && self.plan_critique_validation == other.plan_critique_validation
            && self.plan_proposal == other.plan_proposal
            && self.plan_validation == other.plan_validation
            && self.accepted_plan == other.accepted_plan
            && self.retained_prompt == other.retained_prompt
            && self.inference_request == other.inference_request
            && self.inference_evidence == other.inference_evidence
            && self.cancellation_boundary == other.cancellation_boundary
            && self.planner_plan_v2 == other.planner_plan_v2
            && self.planner_prompt_manifest_v2 == other.planner_prompt_manifest_v2
            && self.planner_work_order_v2 == other.planner_work_order_v2
            && self.planner_prompt_output_v2 == other.planner_prompt_output_v2
            && self.planner_prompt_evidence_packet_v2 == other.planner_prompt_evidence_packet_v2
            && self.planner_prompt_evidence_delta_v2 == other.planner_prompt_evidence_delta_v2
            && self.planner_durable_evidence_packet_v2 == other.planner_durable_evidence_packet_v2
            && self.planner_durable_evidence_delta_v2 == other.planner_durable_evidence_delta_v2
            && self.planner_v2_finalization_evidence == other.planner_v2_finalization_evidence
            && self.child_execution_failure == other.child_execution_failure
            && self.child_handoff == other.child_handoff
            && self.snapshot_lease == other.snapshot_lease
            && self.cleanup_safety_evidence == other.cleanup_safety_evidence
            && self.cleanup_process_inspection == other.cleanup_process_inspection
            && self.cleanup_initial_inspection == other.cleanup_initial_inspection
            && self.cleanup_topology_inspection == other.cleanup_topology_inspection
            && self.hdiutil_info == other.hdiutil_info
            && self.command_stderr == other.command_stderr
    }
}

impl Eq for MediaTypes {
}

impl vstd::std_specs::cmp::PartialEqSpecImpl for MediaTypes {
    open spec fn obeys_eq_spec() -> bool {
        true
    }

    open spec fn eq_spec(&self, other: &Self) -> bool {
        &&& vstd::std_specs::cmp::PartialEqSpec::eq_spec(&self.root_planning_failure, &other.root_planning_failure)
        &&& vstd::std_specs::cmp::PartialEqSpec::eq_spec(&self.root_planning_stage_failure, &other.root_planning_stage_failure)
        &&& vstd::std_specs::cmp::PartialEqSpec::eq_spec(&self.root_planning_execution_policy, &other.root_planning_execution_policy)
        &&& vstd::std_specs::cmp::PartialEqSpec::eq_spec(&self.plan_critic_policy, &other.plan_critic_policy)
        &&& vstd::std_specs::cmp::PartialEqSpec::eq_spec(&self.plan_critique, &other.plan_critique)
        &&& vstd::std_specs::cmp::PartialEqSpec::eq_spec(&self.plan_critique_validation, &other.plan_critique_validation)
        &&& vstd::std_specs::cmp::PartialEqSpec::eq_spec(&self.plan_proposal, &other.plan_proposal)
        &&& vstd::std_specs::cmp::PartialEqSpec::eq_spec(&self.plan_validation, &other.plan_validation)
        &&& vstd::std_specs::cmp::PartialEqSpec::eq_spec(&self.accepted_plan, &other.accepted_plan)
        &&& vstd::std_specs::cmp::PartialEqSpec::eq_spec(&self.retained_prompt, &other.retained_prompt)
        &&& vstd::std_specs::cmp::PartialEqSpec::eq_spec(&self.inference_request, &other.inference_request)
        &&& vstd::std_specs::cmp::PartialEqSpec::eq_spec(&self.inference_evidence, &other.inference_evidence)
        &&& vstd::std_specs::cmp::PartialEqSpec::eq_spec(&self.cancellation_boundary, &other.cancellation_boundary)
        &&& vstd::std_specs::cmp::PartialEqSpec::eq_spec(&self.planner_plan_v2, &other.planner_plan_v2)
        &&& vstd::std_specs::cmp::PartialEqSpec::eq_spec(&self.planner_prompt_manifest_v2, &other.planner_prompt_manifest_v2)
        &&& vstd::std_specs::cmp::PartialEqSpec::eq_spec(&self.planner_work_order_v2, &other.planner_work_order_v2)
        &&& vstd::std_specs::cmp::PartialEqSpec::eq_spec(&self.planner_prompt_output_v2, &other.planner_prompt_output_v2)
        &&& vstd::std_specs::cmp::PartialEqSpec::eq_spec(&self.planner_prompt_evidence_packet_v2, &other.planner_prompt_evidence_packet_v2)
        &&& vstd::std_specs::cmp::PartialEqSpec::eq_spec(&self.planner_prompt_evidence_delta_v2, &other.planner_prompt_evidence_delta_v2)
        &&& vstd::std_specs::cmp::PartialEqSpec::eq_spec(&self.planner_durable_evidence_packet_v2, &other.planner_durable_evidence_packet_v2)
        &&& vstd::std_specs::cmp::PartialEqSpec::eq_spec(&self.planner_durable_evidence_delta_v2, &other.planner_durable_evidence_delta_v2)
        &&& vstd::std_specs::cmp::PartialEqSpec::eq_spec(&self.planner_v2_finalization_evidence, &other.planner_v2_finalization_evidence)
        &&& vstd::std_specs::cmp::PartialEqSpec::eq_spec(&self.child_execution_failure, &other.child_execution_failure)
        &&& vstd::std_specs::cmp::PartialEqSpec::eq_spec(&self.child_handoff, &other.child_handoff)
        &&& vstd::std_specs::cmp::PartialEqSpec::eq_spec(&self.snapshot_lease, &other.snapshot_lease)
        &&& vstd::std_specs::cmp::PartialEqSpec::eq_spec(&self.cleanup_safety_evidence, &other.cleanup_safety_evidence)
        &&& vstd::std_specs::cmp::PartialEqSpec::eq_spec(&self.cleanup_process_inspection, &other.cleanup_process_inspection)
        &&& vstd::std_specs::cmp::PartialEqSpec::eq_spec(&self.cleanup_initial_inspection, &other.cleanup_initial_inspection)
        &&& vstd::std_specs::cmp::PartialEqSpec::eq_spec(&self.cleanup_topology_inspection, &other.cleanup_topology_inspection)
        &&& vstd::std_specs::cmp::PartialEqSpec::eq_spec(&self.hdiutil_info, &other.hdiutil_info)
        &&& vstd::std_specs::cmp::PartialEqSpec::eq_spec(&self.command_stderr, &other.command_stderr)
    }
}

impl Clone for MediaTypes {
    fn clone(&self) -> (r: Self)
        ensures
            r == *self,
    {
        MediaTypes {
            root_planning_failure: self.root_planning_failure.clone(),
            root_planning_stage_failure: self.root_planning_stage_failure.clone(),
            root_planning_execution_policy: self.root_planning_execution_policy.clone(),
            plan_critic_policy: self.plan_critic_policy.clone(),
            plan_critique: self.plan_critique.clone(),
            plan_critique_validation: self.plan_critique_validation.clone(),
            plan_proposal: self.plan_proposal.clone(),
            plan_validation: self.plan_validation.clone(),
            accepted_plan: self.accepted_plan.clone(),
            retained_prompt: self.retained_prompt.clone(),
            inference_request: self.inference_request.clone(),
            inference_evidence: self.inference_evidence.clone(),
            cancellation_boundary: self.cancellation_boundary.clone(),
            planner_plan_v2: self.planner_plan_v2.clone(),
            planner_prompt_manifest_v2: self.planner_prompt_manifest_v2.clone(),
            planner_work_order_v2: self.planner_work_order_v2.clone(),
            planner_prompt_output_v2: self.planner_prompt_output_v2.clone(),
            planner_prompt_evidence_packet_v2: self.planner_prompt_evidence_packet_v2.clone(),
            planner_prompt_evidence_delta_v2: self.planner_prompt_evidence_delta_v2.clone(),
            planner_durable_evidence_packet_v2: self.planner_durable_evidence_packet_v2.clone(),
            planner_durable_evidence_delta_v2: self.planner_durable_evidence_delta_v2.clone(),
            planner_v2_finalization_evidence: self.planner_v2_finalization_evidence.clone(),
            child_execution_failure: self.child_execution_failure.clone(),
            child_handoff: self.child_handoff.clone(),
            snapshot_lease: self.snapshot_lease.clone(),
            cleanup_safety_evidence: self.cleanup_safety_evidence.clone(),
            cleanup_process_inspection: self.cleanup_process_inspection.clone(),
            cleanup_initial_inspection: self.cleanup_initial_inspection.clone(),
            cleanup_topology_inspection: self.cleanup_topology_inspection.clone(),
            hdiutil_info: self.hdiutil_info.clone(),
            command_stderr: self.command_stderr.clone(),
        }
    }
}

/// The version of every contract.
#[derive(Clone, Copy, Debug, PartialEq, Eq, Structural)]
pub struct ContractVersions {
    pub snapshot_cleanup: u32,
    pub snapshot_recovery_v2: u32,
    pub planner_turn: u32,
    pub planner_evidence: u32,
    pub child_reconnaissance: u32,
}

/// The limits that an execution policy for root planning repeats or stays within.
#[derive(Clone, Copy, Debug, PartialEq, Eq, Structural)]
pub struct RootPlanningPolicyLimits {
    pub schema_version: u32,
    pub max_model_calls: u32,
    pub max_repairs: u32,
    pub max_review_rounds: u32,
    pub initial_plan_max_output_tokens: u64,
    pub initial_review_max_output_tokens: u64,
    pub repair_max_output_tokens: u64,
    pub final_review_max_output_tokens: u64,
}

/// The limits of one reconnaissance run.
#[derive(Clone, Copy, Debug, PartialEq, Eq, Structural)]
pub struct ReconnaissanceLimits {
    pub max_planner_turns: u32,
    pub planner_attempts_per_stage: u32,
    pub max_planner_output_tokens_per_call: u64,
    pub max_planner_evidence_entries: u32,
    pub max_terminal_claim_events: u32,
}

/// Who writes the events that the planner records for itself.
#[derive(Debug)]
pub struct Producers {
    pub planner_preparation: Text,
    pub planner_observation: Text,
    pub planner_unknown: Text,
    pub planner_finalization: Text,
}

impl PartialEq for Producers {
    fn eq(&self, other: &Self) -> (r: bool) {
        self.planner_preparation == other.planner_preparation
            && self.planner_observation == other.planner_observation
            && self.planner_unknown == other.planner_unknown
            && self.planner_finalization == other.planner_finalization
    }
}

impl Eq for Producers {
}

impl vstd::std_specs::cmp::PartialEqSpecImpl for Producers {
    open spec fn obeys_eq_spec() -> bool {
        true
    }

    open spec fn eq_spec(&self, other: &Self) -> bool {
        &&& vstd::std_specs::cmp::PartialEqSpec::eq_spec(&self.planner_preparation, &other.planner_preparation)
        &&& vstd::std_specs::cmp::PartialEqSpec::eq_spec(&self.planner_observation, &other.planner_observation)
        &&& vstd::std_specs::cmp::PartialEqSpec::eq_spec(&self.planner_unknown, &other.planner_unknown)
        &&& vstd::std_specs::cmp::PartialEqSpec::eq_spec(&self.planner_finalization, &other.planner_finalization)
    }
}

impl Clone for Producers {
    fn clone(&self) -> (r: Self)
        ensures
            r == *self,
    {
        Producers {
            planner_preparation: self.planner_preparation.clone(),
            planner_observation: self.planner_observation.clone(),
            planner_unknown: self.planner_unknown.clone(),
            planner_finalization: self.planner_finalization.clone(),
        }
    }
}

/// Which purposes of a run plan at its root.
#[derive(Clone, Copy, Debug, PartialEq, Eq, Structural)]
pub struct PlanningPurposes {
    pub general: bool,
    pub root_planning: bool,
    pub reconnaissance: bool,
}

/// The bundled prompts of root planning.
#[derive(Debug)]
pub struct PromptKeys {
    pub root_planner: Text,
    pub plan_critic: Text,
    pub plan_repair: Text,
    pub planner_replanner_id: Text,
    pub planner_replanner_version: Text,
}

impl PartialEq for PromptKeys {
    fn eq(&self, other: &Self) -> (r: bool) {
        self.root_planner == other.root_planner
            && self.plan_critic == other.plan_critic
            && self.plan_repair == other.plan_repair
            && self.planner_replanner_id == other.planner_replanner_id
            && self.planner_replanner_version == other.planner_replanner_version
    }
}

impl Eq for PromptKeys {
}

impl vstd::std_specs::cmp::PartialEqSpecImpl for PromptKeys {
    open spec fn obeys_eq_spec() -> bool {
        true
    }

    open spec fn eq_spec(&self, other: &Self) -> bool {
        &&& vstd::std_specs::cmp::PartialEqSpec::eq_spec(&self.root_planner, &other.root_planner)
        &&& vstd::std_specs::cmp::PartialEqSpec::eq_spec(&self.plan_critic, &other.plan_critic)
        &&& vstd::std_specs::cmp::PartialEqSpec::eq_spec(&self.plan_repair, &other.plan_repair)
        &&& vstd::std_specs::cmp::PartialEqSpec::eq_spec(&self.planner_replanner_id, &other.planner_replanner_id)
        &&& vstd::std_specs::cmp::PartialEqSpec::eq_spec(&self.planner_replanner_version, &other.planner_replanner_version)
    }
}

impl Clone for PromptKeys {
    fn clone(&self) -> (r: Self)
        ensures
            r == *self,
    {
        PromptKeys {
            root_planner: self.root_planner.clone(),
            plan_critic: self.plan_critic.clone(),
            plan_repair: self.plan_repair.clone(),
            planner_replanner_id: self.planner_replanner_id.clone(),
            planner_replanner_version: self.planner_replanner_version.clone(),
        }
    }
}

/// All constants of the wire contracts.
#[derive(Debug)]
pub struct Contract {
    pub media: MediaTypes,
    pub versions: ContractVersions,
    pub planning: RootPlanningPolicyLimits,
    pub recon: ReconnaissanceLimits,
    pub producers: Producers,
    pub purposes: PlanningPurposes,
    pub prompts: PromptKeys,
}

impl PartialEq for Contract {
    fn eq(&self, other: &Self) -> (r: bool) {
        self.media == other.media
            && self.versions == other.versions
            && self.planning == other.planning
            && self.recon == other.recon
            && self.producers == other.producers
            && self.purposes == other.purposes
            && self.prompts == other.prompts
    }
}

impl Eq for Contract {
}

impl vstd::std_specs::cmp::PartialEqSpecImpl for Contract {
    open spec fn obeys_eq_spec() -> bool {
        true
    }

    open spec fn eq_spec(&self, other: &Self) -> bool {
        &&& vstd::std_specs::cmp::PartialEqSpec::eq_spec(&self.media, &other.media)
        &&& self.versions == other.versions
        &&& self.planning == other.planning
        &&& self.recon == other.recon
        &&& vstd::std_specs::cmp::PartialEqSpec::eq_spec(&self.producers, &other.producers)
        &&& self.purposes == other.purposes
        &&& vstd::std_specs::cmp::PartialEqSpec::eq_spec(&self.prompts, &other.prompts)
    }
}

impl Clone for Contract {
    fn clone(&self) -> (r: Self)
        ensures
            r == *self,
    {
        Contract {
            media: self.media.clone(),
            versions: self.versions,
            planning: self.planning,
            recon: self.recon,
            producers: self.producers.clone(),
            purposes: self.purposes,
            prompts: self.prompts.clone(),
        }
    }
}

} // verus!

//! What a planner's response amounts to: an accepted output, or a reason to reject it.

use vstd::prelude::*;
use crate::contract::Contract;
use crate::error::StoreError;
use crate::planner_prompt::PlannerReplannerV2PlanSnapshot;
use crate::planner_turn::{
    PlannerPromptV2AcceptedOutputV1, PlannerTurnPreparedV1, PlannerTurnRejectionReasonV1,
};
use crate::planner_v2_base::read_planner_base_snapshot;
use crate::planner_v2_request::{check_planner_v2_retained_prompt, PlannerPromptReads};
use crate::retained::RetainedPlanValidation;
use crate::text::Text;

verus! {

/// What an output breaks of the prompt's contract.
#[derive(Clone, Copy, Debug, PartialEq, Eq, Structural)]
pub enum PlannerReplannerV2InvariantViolation {
    TypedOutputDecode,
    ContractValidation,
    OutputSchemaVersion,
    RuntimeConstraintShape,
    PurposeMismatch,
    BasePlanEvidenceOmission,
    EvidencePacketOmission,
    TurnBasisMissesDelta,
    EmptyTurnBasis,
    EvidencePacketUnknownId,
    UnknownEvidenceId,
    EvidencePacketIntegrity,
    EvidenceDeltaIntegrity,
    EvidencePacketDigestMismatch,
    AuthorityIntegrity,
    InitialFinishForbidden,
    InvalidBindings,
    MissingContextCatalog,
    ContextCatalogDecode,
    MissingEvidencePacket,
    EvidencePacketDecode,
    EvidenceDeltaDecode,
    AcceptedRootPlanBindingMismatch,
    EvidencePacketContextMismatch,
    InvocationBindingMismatch,
    BindingMismatch,
}

/// What an output breaks of the rules for plans.
#[derive(Clone, Copy, Debug, PartialEq, Eq, Structural)]
pub enum PlannerViolation {
    UnsupportedSchemaVersion,
    StalePlanBinding,
    StaleWorkOrder,
    EmptyEvidence,
    RequiredObligationUncovered,
    FinishMissingRequiredObligation,
    UnknownEvidence,
    PatchOperationLimitExceeded,
    WorkOrderLimitExceeded,
    VerificationTargetLimitExceeded,
    TextLimitExceeded,
    DirectiveEncodedLimitExceeded,
    DirectiveCollectionLimitExceeded,
    FieldTooLarge,
    EvidenceLimitExceeded,
    DependencyLimitExceeded,
    DelegationLimitExceeded,
    ClarificationLimitExceeded,
    EscalationLimitExceeded,
    FinishClaimLimitExceeded,
    DirectiveShapeMismatch,
    DirectiveTargetNotPending,
    FinishRequiresEmptyPatch,
    DuplicateFinishClaim,
    PolicySnapshotInvalid,
    ObligationCatalogInvalid,
    ContextCatalogInvalid,
    BasePlanInvalid,
    ObligationSnapshotMismatch,
    AcceptancePolicyMismatch,
    ContextManifestMismatch,
    PlannerPolicyMismatch,
    EmptyText,
    InvalidLocalWorkOrderId,
    InvalidLocalVerificationTargetId,
    DuplicateLocalWorkOrderId,
    DuplicateLocalVerificationTargetId,
    UnknownObligation,
    ObligationDigestMismatch,
    EmptyObligationSet,
    UnknownWorkOrder,
    UnknownNewWorkOrder,
    WorkOrderOperationConflict,
    ImmutableWorkOrder,
    UnknownVerificationTarget,
    UnknownNewVerificationTarget,
    EmptyVerificationTargets,
    AccessExpansion,
    DependencyOnCancelled,
    DependencyCycle,
    PlanRevisionOverflow,
    WorkOrderRevisionOverflow,
}

/// The reason that a broken contract of the prompt is rejected for.
#[verifier::allow_in_spec]
pub fn prompting_invariant_rejection(violation: PlannerReplannerV2InvariantViolation) -> PlannerTurnRejectionReasonV1
    returns
        (match violation {
            PlannerReplannerV2InvariantViolation::TypedOutputDecode => PlannerTurnRejectionReasonV1::InvalidSchema,
            PlannerReplannerV2InvariantViolation::ContractValidation => PlannerTurnRejectionReasonV1::InvalidSchema,
            PlannerReplannerV2InvariantViolation::OutputSchemaVersion => PlannerTurnRejectionReasonV1::InvalidSchema,
            PlannerReplannerV2InvariantViolation::RuntimeConstraintShape => PlannerTurnRejectionReasonV1::InvalidSchema,
            PlannerReplannerV2InvariantViolation::PurposeMismatch => PlannerTurnRejectionReasonV1::WrongPurpose,
            PlannerReplannerV2InvariantViolation::BasePlanEvidenceOmission => PlannerTurnRejectionReasonV1::EvidenceOmitted,
            PlannerReplannerV2InvariantViolation::EvidencePacketOmission => PlannerTurnRejectionReasonV1::EvidenceOmitted,
            PlannerReplannerV2InvariantViolation::TurnBasisMissesDelta => PlannerTurnRejectionReasonV1::EvidenceOmitted,
            PlannerReplannerV2InvariantViolation::EmptyTurnBasis => PlannerTurnRejectionReasonV1::EvidenceOmitted,
            PlannerReplannerV2InvariantViolation::EvidencePacketUnknownId => PlannerTurnRejectionReasonV1::EvidenceFabricated,
            PlannerReplannerV2InvariantViolation::UnknownEvidenceId => PlannerTurnRejectionReasonV1::EvidenceFabricated,
            PlannerReplannerV2InvariantViolation::EvidencePacketIntegrity => PlannerTurnRejectionReasonV1::EvidenceSubstituted,
            PlannerReplannerV2InvariantViolation::EvidenceDeltaIntegrity => PlannerTurnRejectionReasonV1::EvidenceSubstituted,
            PlannerReplannerV2InvariantViolation::EvidencePacketDigestMismatch => PlannerTurnRejectionReasonV1::EvidenceSubstituted,
            PlannerReplannerV2InvariantViolation::AuthorityIntegrity => PlannerTurnRejectionReasonV1::EvidenceSubstituted,
            PlannerReplannerV2InvariantViolation::InitialFinishForbidden => PlannerTurnRejectionReasonV1::DirectiveInvalid,
            PlannerReplannerV2InvariantViolation::InvalidBindings => PlannerTurnRejectionReasonV1::BindingMismatch,
            PlannerReplannerV2InvariantViolation::MissingContextCatalog => PlannerTurnRejectionReasonV1::BindingMismatch,
            PlannerReplannerV2InvariantViolation::ContextCatalogDecode => PlannerTurnRejectionReasonV1::BindingMismatch,
            PlannerReplannerV2InvariantViolation::MissingEvidencePacket => PlannerTurnRejectionReasonV1::BindingMismatch,
            PlannerReplannerV2InvariantViolation::EvidencePacketDecode => PlannerTurnRejectionReasonV1::BindingMismatch,
            PlannerReplannerV2InvariantViolation::EvidenceDeltaDecode => PlannerTurnRejectionReasonV1::BindingMismatch,
            PlannerReplannerV2InvariantViolation::AcceptedRootPlanBindingMismatch => PlannerTurnRejectionReasonV1::BindingMismatch,
            PlannerReplannerV2InvariantViolation::EvidencePacketContextMismatch => PlannerTurnRejectionReasonV1::BindingMismatch,
            PlannerReplannerV2InvariantViolation::InvocationBindingMismatch => PlannerTurnRejectionReasonV1::BindingMismatch,
            PlannerReplannerV2InvariantViolation::BindingMismatch => PlannerTurnRejectionReasonV1::BindingMismatch,
        }),
{
    match violation {
        PlannerReplannerV2InvariantViolation::TypedOutputDecode
        | PlannerReplannerV2InvariantViolation::ContractValidation
        | PlannerReplannerV2InvariantViolation::OutputSchemaVersion
        | PlannerReplannerV2InvariantViolation::RuntimeConstraintShape => PlannerTurnRejectionReasonV1::InvalidSchema,
        PlannerReplannerV2InvariantViolation::PurposeMismatch => PlannerTurnRejectionReasonV1::WrongPurpose,
        PlannerReplannerV2InvariantViolation::BasePlanEvidenceOmission
        | PlannerReplannerV2InvariantViolation::EvidencePacketOmission
        | PlannerReplannerV2InvariantViolation::TurnBasisMissesDelta
        | PlannerReplannerV2InvariantViolation::EmptyTurnBasis => PlannerTurnRejectionReasonV1::EvidenceOmitted,
        PlannerReplannerV2InvariantViolation::EvidencePacketUnknownId
        | PlannerReplannerV2InvariantViolation::UnknownEvidenceId => PlannerTurnRejectionReasonV1::EvidenceFabricated,
        PlannerReplannerV2InvariantViolation::EvidencePacketIntegrity
        | PlannerReplannerV2InvariantViolation::EvidenceDeltaIntegrity
        | PlannerReplannerV2InvariantViolation::EvidencePacketDigestMismatch
        | PlannerReplannerV2InvariantViolation::AuthorityIntegrity => PlannerTurnRejectionReasonV1::EvidenceSubstituted,
        PlannerReplannerV2InvariantViolation::InitialFinishForbidden => PlannerTurnRejectionReasonV1::DirectiveInvalid,
        PlannerReplannerV2InvariantViolation::InvalidBindings
        | PlannerReplannerV2InvariantViolation::MissingContextCatalog
        | PlannerReplannerV2InvariantViolation::ContextCatalogDecode
        | PlannerReplannerV2InvariantViolation::MissingEvidencePacket
        | PlannerReplannerV2InvariantViolation::EvidencePacketDecode
        | PlannerReplannerV2InvariantViolation::EvidenceDeltaDecode
        | PlannerReplannerV2InvariantViolation::AcceptedRootPlanBindingMismatch
        | PlannerReplannerV2InvariantViolation::EvidencePacketContextMismatch
        | PlannerReplannerV2InvariantViolation::InvocationBindingMismatch
        | PlannerReplannerV2InvariantViolation::BindingMismatch => PlannerTurnRejectionReasonV1::BindingMismatch,
    }
}

/// The reason that a broken rule for plans is rejected for.
#[verifier::allow_in_spec]
pub fn plan_violation_rejection(violation: PlannerViolation) -> PlannerTurnRejectionReasonV1
    returns
        (match violation {
            PlannerViolation::UnsupportedSchemaVersion => PlannerTurnRejectionReasonV1::InvalidSchema,
            PlannerViolation::StalePlanBinding => PlannerTurnRejectionReasonV1::StaleBasePlan,
            PlannerViolation::StaleWorkOrder => PlannerTurnRejectionReasonV1::StaleBasePlan,
            PlannerViolation::EmptyEvidence => PlannerTurnRejectionReasonV1::EvidenceOmitted,
            PlannerViolation::RequiredObligationUncovered => PlannerTurnRejectionReasonV1::EvidenceOmitted,
            PlannerViolation::FinishMissingRequiredObligation => PlannerTurnRejectionReasonV1::EvidenceOmitted,
            PlannerViolation::UnknownEvidence => PlannerTurnRejectionReasonV1::EvidenceFabricated,
            PlannerViolation::PatchOperationLimitExceeded => PlannerTurnRejectionReasonV1::PolicyLimitExceeded,
            PlannerViolation::WorkOrderLimitExceeded => PlannerTurnRejectionReasonV1::PolicyLimitExceeded,
            PlannerViolation::VerificationTargetLimitExceeded => PlannerTurnRejectionReasonV1::PolicyLimitExceeded,
            PlannerViolation::TextLimitExceeded => PlannerTurnRejectionReasonV1::PolicyLimitExceeded,
            PlannerViolation::DirectiveEncodedLimitExceeded => PlannerTurnRejectionReasonV1::PolicyLimitExceeded,
            PlannerViolation::DirectiveCollectionLimitExceeded => PlannerTurnRejectionReasonV1::PolicyLimitExceeded,
            PlannerViolation::FieldTooLarge => PlannerTurnRejectionReasonV1::PolicyLimitExceeded,
            PlannerViolation::EvidenceLimitExceeded => PlannerTurnRejectionReasonV1::PolicyLimitExceeded,
            PlannerViolation::DependencyLimitExceeded => PlannerTurnRejectionReasonV1::PolicyLimitExceeded,
            PlannerViolation::DelegationLimitExceeded => PlannerTurnRejectionReasonV1::PolicyLimitExceeded,
            PlannerViolation::ClarificationLimitExceeded => PlannerTurnRejectionReasonV1::PolicyLimitExceeded,
            PlannerViolation::EscalationLimitExceeded => PlannerTurnRejectionReasonV1::PolicyLimitExceeded,
            PlannerViolation::FinishClaimLimitExceeded => PlannerTurnRejectionReasonV1::PolicyLimitExceeded,
            PlannerViolation::DirectiveShapeMismatch => PlannerTurnRejectionReasonV1::DirectiveInvalid,
            PlannerViolation::DirectiveTargetNotPending => PlannerTurnRejectionReasonV1::DirectiveInvalid,
            PlannerViolation::FinishRequiresEmptyPatch => PlannerTurnRejectionReasonV1::DirectiveInvalid,
            PlannerViolation::DuplicateFinishClaim => PlannerTurnRejectionReasonV1::DirectiveInvalid,
            PlannerViolation::PolicySnapshotInvalid => PlannerTurnRejectionReasonV1::BindingMismatch,
            PlannerViolation::ObligationCatalogInvalid => PlannerTurnRejectionReasonV1::BindingMismatch,
            PlannerViolation::ContextCatalogInvalid => PlannerTurnRejectionReasonV1::BindingMismatch,
            PlannerViolation::BasePlanInvalid => PlannerTurnRejectionReasonV1::BindingMismatch,
            PlannerViolation::ObligationSnapshotMismatch => PlannerTurnRejectionReasonV1::BindingMismatch,
            PlannerViolation::AcceptancePolicyMismatch => PlannerTurnRejectionReasonV1::BindingMismatch,
            PlannerViolation::ContextManifestMismatch => PlannerTurnRejectionReasonV1::BindingMismatch,
            PlannerViolation::PlannerPolicyMismatch => PlannerTurnRejectionReasonV1::BindingMismatch,
            PlannerViolation::EmptyText => PlannerTurnRejectionReasonV1::BindingMismatch,
            PlannerViolation::InvalidLocalWorkOrderId => PlannerTurnRejectionReasonV1::BindingMismatch,
            PlannerViolation::InvalidLocalVerificationTargetId => PlannerTurnRejectionReasonV1::BindingMismatch,
            PlannerViolation::DuplicateLocalWorkOrderId => PlannerTurnRejectionReasonV1::BindingMismatch,
            PlannerViolation::DuplicateLocalVerificationTargetId => PlannerTurnRejectionReasonV1::BindingMismatch,
            PlannerViolation::UnknownObligation => PlannerTurnRejectionReasonV1::BindingMismatch,
            PlannerViolation::ObligationDigestMismatch => PlannerTurnRejectionReasonV1::BindingMismatch,
            PlannerViolation::EmptyObligationSet => PlannerTurnRejectionReasonV1::BindingMismatch,
            PlannerViolation::UnknownWorkOrder => PlannerTurnRejectionReasonV1::BindingMismatch,
            PlannerViolation::UnknownNewWorkOrder => PlannerTurnRejectionReasonV1::BindingMismatch,
            PlannerViolation::WorkOrderOperationConflict => PlannerTurnRejectionReasonV1::BindingMismatch,
            PlannerViolation::ImmutableWorkOrder => PlannerTurnRejectionReasonV1::BindingMismatch,
            PlannerViolation::UnknownVerificationTarget => PlannerTurnRejectionReasonV1::BindingMismatch,
            PlannerViolation::UnknownNewVerificationTarget => PlannerTurnRejectionReasonV1::BindingMismatch,
            PlannerViolation::EmptyVerificationTargets => PlannerTurnRejectionReasonV1::BindingMismatch,
            PlannerViolation::AccessExpansion => PlannerTurnRejectionReasonV1::BindingMismatch,
            PlannerViolation::DependencyOnCancelled => PlannerTurnRejectionReasonV1::BindingMismatch,
            PlannerViolation::DependencyCycle => PlannerTurnRejectionReasonV1::BindingMismatch,
            PlannerViolation::PlanRevisionOverflow => PlannerTurnRejectionReasonV1::BindingMismatch,
            PlannerViolation::WorkOrderRevisionOverflow => PlannerTurnRejectionReasonV1::BindingMismatch,
        }),
{
    match violation {
        PlannerViolation::UnsupportedSchemaVersion => PlannerTurnRejectionReasonV1::InvalidSchema,
        PlannerViolation::StalePlanBinding
        | PlannerViolation::StaleWorkOrder => PlannerTurnRejectionReasonV1::StaleBasePlan,
        PlannerViolation::EmptyEvidence
        | PlannerViolation::RequiredObligationUncovered
        | PlannerViolation::FinishMissingRequiredObligation => PlannerTurnRejectionReasonV1::EvidenceOmitted,
        PlannerViolation::UnknownEvidence => PlannerTurnRejectionReasonV1::EvidenceFabricated,
        PlannerViolation::PatchOperationLimitExceeded
        | PlannerViolation::WorkOrderLimitExceeded
        | PlannerViolation::VerificationTargetLimitExceeded
        | PlannerViolation::TextLimitExceeded
        | PlannerViolation::DirectiveEncodedLimitExceeded
        | PlannerViolation::DirectiveCollectionLimitExceeded
        | PlannerViolation::FieldTooLarge
        | PlannerViolation::EvidenceLimitExceeded
        | PlannerViolation::DependencyLimitExceeded
        | PlannerViolation::DelegationLimitExceeded
        | PlannerViolation::ClarificationLimitExceeded
        | PlannerViolation::EscalationLimitExceeded
        | PlannerViolation::FinishClaimLimitExceeded => PlannerTurnRejectionReasonV1::PolicyLimitExceeded,
        PlannerViolation::DirectiveShapeMismatch
        | PlannerViolation::DirectiveTargetNotPending
        | PlannerViolation::FinishRequiresEmptyPatch
        | PlannerViolation::DuplicateFinishClaim => PlannerTurnRejectionReasonV1::DirectiveInvalid,
        PlannerViolation::PolicySnapshotInvalid
        | PlannerViolation::ObligationCatalogInvalid
        | PlannerViolation::ContextCatalogInvalid
        | PlannerViolation::BasePlanInvalid
        | PlannerViolation::ObligationSnapshotMismatch
        | PlannerViolation::AcceptancePolicyMismatch
        | PlannerViolation::ContextManifestMismatch
        | PlannerViolation::PlannerPolicyMismatch
        | PlannerViolation::EmptyText
        | PlannerViolation::InvalidLocalWorkOrderId
        | PlannerViolation::InvalidLocalVerificationTargetId
        | PlannerViolation::DuplicateLocalWorkOrderId
        | PlannerViolation::DuplicateLocalVerificationTargetId
        | PlannerViolation::UnknownObligation
        | PlannerViolation::ObligationDigestMismatch
        | PlannerViolation::EmptyObligationSet
        | PlannerViolation::UnknownWorkOrder
        | PlannerViolation::UnknownNewWorkOrder
        | PlannerViolation::WorkOrderOperationConflict
        | PlannerViolation::ImmutableWorkOrder
        | PlannerViolation::UnknownVerificationTarget
        | PlannerViolation::UnknownNewVerificationTarget
        | PlannerViolation::EmptyVerificationTargets
        | PlannerViolation::AccessExpansion
        | PlannerViolation::DependencyOnCancelled
        | PlannerViolation::DependencyCycle
        | PlannerViolation::PlanRevisionOverflow
        | PlannerViolation::WorkOrderRevisionOverflow => PlannerTurnRejectionReasonV1::BindingMismatch,
    }
}

/// A violation of the prompt's contract, with its JSON, where it has one.
#[derive(Debug)]
pub struct PromptViolation {
    pub kind: PlannerReplannerV2InvariantViolation,
    pub json: Option<Text>,
}

/// A violation of the rules for plans, with its JSON, where it has one.
#[derive(Debug)]
pub struct PlanViolation {
    pub kind: PlannerViolation,
    pub json: Option<Text>,
}

/// Why an output was not applied.
#[derive(Debug)]
pub enum PlannerReplannerV2ApplyError {
    Setup,
    OutputDecode,
    OutputInvariant { broken: Vec<PromptViolation> },
    DomainProjection { field: Text },
    Plan { violations: Vec<PlanViolation> },
}

/// What the directive of an output comes to in the plan.
#[derive(Debug)]
pub enum ResolvedPlannerDirective {
    Execute { work_order_id: Text },
    Delegate { work_order_ids: Vec<Text> },
    Clarify,
    Escalate,
    FinishPendingGate,
}

/// The name in the plan of a work order that an output adds.
#[derive(Debug)]
pub struct LocalWorkOrder {
    pub local_id: u32,
    pub work_order_id: Text,
}

/// An output that was applied: the plan that it results in, what its directive comes to, and the names
/// of the work orders that it adds.
#[derive(Debug)]
pub struct ValidatedPlannerReplannerV2Turn {
    pub plan: PlannerReplannerV2PlanSnapshot,
    pub directive: ResolvedPlannerDirective,
    pub local_work_orders: Vec<LocalWorkOrder>,
}

/// An output in the prompt's form: whether its patch is empty, and its canonical JSON.
#[derive(Debug)]
pub struct PlannerReplannerV2Output {
    pub patch_is_empty: bool,
    pub body: Text,
}

/// An output that is accepted.
#[derive(Debug)]
pub struct PlannerV2AcceptedClassification {
    pub prompting: PlannerReplannerV2Output,
    pub protocol: PlannerPromptV2AcceptedOutputV1,
    pub authoritative: ValidatedPlannerReplannerV2Turn,
}

/// What a response amounts to.
#[derive(Debug)]
pub enum PlannerV2ResponseClassification {
    Accepted(PlannerV2AcceptedClassification),
    Rejected { reason: PlannerTurnRejectionReasonV1, validation: RetainedPlanValidation },
}

/// How strong a reason is: the strongest is zero.
#[verifier::allow_in_spec]
pub fn planner_rejection_priority(reason: PlannerTurnRejectionReasonV1) -> u8
    returns
        (match reason {
            PlannerTurnRejectionReasonV1::InvalidSchema => 0u8,
            PlannerTurnRejectionReasonV1::WrongPurpose => 1u8,
            PlannerTurnRejectionReasonV1::StaleBasePlan => 2u8,
            PlannerTurnRejectionReasonV1::EvidenceOmitted => 3u8,
            PlannerTurnRejectionReasonV1::EvidenceSubstituted => 4u8,
            PlannerTurnRejectionReasonV1::EvidenceFabricated => 5u8,
            PlannerTurnRejectionReasonV1::DirectiveInvalid => 6u8,
            PlannerTurnRejectionReasonV1::PolicyLimitExceeded => 7u8,
            PlannerTurnRejectionReasonV1::BindingMismatch => 8u8,
        }),
{
    match reason {
        PlannerTurnRejectionReasonV1::InvalidSchema => 0,
        PlannerTurnRejectionReasonV1::WrongPurpose => 1,
        PlannerTurnRejectionReasonV1::StaleBasePlan => 2,
        PlannerTurnRejectionReasonV1::EvidenceOmitted => 3,
        PlannerTurnRejectionReasonV1::EvidenceSubstituted => 4,
        PlannerTurnRejectionReasonV1::EvidenceFabricated => 5,
        PlannerTurnRejectionReasonV1::DirectiveInvalid => 6,
        PlannerTurnRejectionReasonV1::PolicyLimitExceeded => 7,
        PlannerTurnRejectionReasonV1::BindingMismatch => 8,
    }
}

/// Whether a reason is the strongest of some; of none, it is the weakest that there is.
pub open spec fn is_strongest(
    reason: PlannerTurnRejectionReasonV1,
    reasons: Seq<PlannerTurnRejectionReasonV1>,
) -> bool {
    if reasons.len() == 0 {
        reason == PlannerTurnRejectionReasonV1::BindingMismatch
    } else {
        &&& reasons.contains(reason)
        &&& forall|i: int|
            0 <= i < reasons.len() ==> planner_rejection_priority(reason)
                <= planner_rejection_priority(#[trigger] reasons[i])
    }
}

/// The strongest of some reasons; of none, the weakest that there is.
pub fn strongest_planner_rejection(reasons: &Vec<PlannerTurnRejectionReasonV1>) -> (r:
    PlannerTurnRejectionReasonV1)
    ensures
        is_strongest(r, reasons@),
{
    if reasons.len() == 0 {
        return PlannerTurnRejectionReasonV1::BindingMismatch;
    }
    let mut strongest = reasons[0];
    let mut i: usize = 1;
    while i < reasons.len()
        invariant
            1 <= i <= reasons@.len(),
            exists|j: int| 0 <= j < i && reasons@[j] == strongest,
            forall|j: int|
                0 <= j < i ==> planner_rejection_priority(strongest)
                    <= planner_rejection_priority(#[trigger] reasons@[j]),
        decreases reasons.len() - i,
    {
        if planner_rejection_priority(reasons[i]) < planner_rejection_priority(strongest) {
            strongest = reasons[i];
            assert(reasons@[i as int] == strongest);
        }
        i += 1;
    }
    strongest
}

/// There is one strongest reason: no two reasons are equally strong.
pub proof fn law_strongest_reason_is_unique(
    first: PlannerTurnRejectionReasonV1,
    second: PlannerTurnRejectionReasonV1,
    reasons: Seq<PlannerTurnRejectionReasonV1>,
)
    requires
        is_strongest(first, reasons),
        is_strongest(second, reasons),
    ensures
        first == second,
{
    if reasons.len() > 0 {
        let i = choose|i: int| 0 <= i < reasons.len() && reasons[i] == first;
        let j = choose|j: int| 0 <= j < reasons.len() && reasons[j] == second;
        assert(planner_rejection_priority(second) <= planner_rejection_priority(reasons[i]));
        assert(planner_rejection_priority(first) <= planner_rejection_priority(reasons[j]));
    }
}

/// The reasons for some broken contracts of the prompt.
pub open spec fn invariant_reasons(broken: Seq<PromptViolation>) -> Seq<
    PlannerTurnRejectionReasonV1,
> {
    broken.map_values(|violation: PromptViolation| prompting_invariant_rejection(violation.kind))
}

/// The reasons for some broken rules for plans.
pub open spec fn plan_reasons(violations: Seq<PlanViolation>) -> Seq<PlannerTurnRejectionReasonV1> {
    violations.map_values(|violation: PlanViolation| plan_violation_rejection(violation.kind))
}

/// How a violation reads: as its JSON, where it has one.
pub open spec fn violation_text(json: Option<Text>, fallback: Seq<char>) -> Seq<char> {
    match json {
        Some(text) => text@,
        None => fallback,
    }
}

/// Whether entries are those of some violations: one each, and a single fallback where there are none.
pub open spec fn are_violation_entries(
    entries: Seq<Text>,
    jsons: Seq<Option<Text>>,
    fallback: Seq<char>,
) -> bool {
    if jsons.len() == 0 {
        entries.len() == 1 && entries[0]@ == fallback
    } else {
        &&& entries.len() == jsons.len()
        &&& forall|i: int|
            0 <= i < entries.len() ==> (#[trigger] entries[i])@ == violation_text(
                jsons[i],
                fallback,
            )
    }
}

/// The entries of some violations: one each, and a single fallback where there are none.
pub fn serialized_violation_entries(jsons: &Vec<Option<Text>>, fallback: &str) -> (r: Vec<Text>)
    ensures
        are_violation_entries(r@, jsons@, fallback@),
{
    let mut entries: Vec<Text> = Vec::new();
    if jsons.len() == 0 {
        entries.push(Text::of(fallback));
        return entries;
    }
    let mut i: usize = 0;
    while i < jsons.len()
        invariant
            i <= jsons@.len(),
            entries@.len() == i,
            forall|j: int|
                0 <= j < i ==> (#[trigger] entries@[j])@ == violation_text(jsons@[j], fallback@),
        decreases jsons.len() - i,
    {
        entries.push(
            match &jsons[i] {
                Some(json) => json.clone(),
                None => Text::of(fallback),
            },
        );
        i += 1;
    }
    entries
}

/// The JSON of some broken contracts of the prompt.
pub open spec fn invariant_jsons(broken: Seq<PromptViolation>) -> Seq<Option<Text>> {
    broken.map_values(|violation: PromptViolation| violation.json)
}

/// The JSON of some broken rules for plans.
pub open spec fn plan_jsons(violations: Seq<PlanViolation>) -> Seq<Option<Text>> {
    violations.map_values(|violation: PlanViolation| violation.json)
}

/// What is read and made to classify a response: the plan that the turn builds on, what it retained,
/// the output as it is applied, the output in the prompt's form, and the output in the form that is
/// kept.
#[derive(Debug)]
pub struct ClassificationReads {
    pub base: Result<PlannerReplannerV2PlanSnapshot, StoreError>,
    pub prompt: PlannerPromptReads,
    pub applied: Result<ValidatedPlannerReplannerV2Turn, PlannerReplannerV2ApplyError>,
    pub prompting: Result<PlannerReplannerV2Output, StoreError>,
    pub protocol: Result<PlannerPromptV2AcceptedOutputV1, StoreError>,
}

/// What is found when a response is classified.
pub open spec fn classification_verdict(
    contract: Contract,
    prepared: PlannerTurnPreparedV1,
    reads: ClassificationReads,
) -> Result<(), StoreError> {
    crate::error::and_next(
        crate::planner_v2_base::base_snapshot(contract, prepared.base_plan, reads.base),
        crate::error::and_next(
            crate::planner_v2_request::prompt_verdict(
                contract,
                prepared,
                reads.base->Ok_0,
                reads.prompt,
            ),
            match reads.applied {
                Ok(_) => crate::error::and_next(
                    crate::artifact::outcome(reads.prompting),
                    crate::artifact::outcome(reads.protocol),
                ),
                Err(PlannerReplannerV2ApplyError::Setup) => Err(StoreError::InvalidStateEvent),
                Err(_) => Ok(()),
            },
        ),
    )
}

/// Whether a validation says that an output was rejected for some violations.
pub open spec fn rejects_for(
    validation: RetainedPlanValidation,
    jsons: Seq<Option<Text>>,
    fallback: Seq<char>,
) -> bool {
    validation.status@ == "rejected"@ && are_violation_entries(
        validation.violations@,
        jsons,
        fallback,
    )
}

/// Whether a rejection is the one that an output that was not applied is owed.
pub open spec fn is_rejection_for(
    reason: PlannerTurnRejectionReasonV1,
    validation: RetainedPlanValidation,
    error: PlannerReplannerV2ApplyError,
) -> bool {
    match error {
        PlannerReplannerV2ApplyError::Setup => false,
        PlannerReplannerV2ApplyError::OutputDecode => reason
            == PlannerTurnRejectionReasonV1::InvalidSchema && rejects_for(
            validation,
            Seq::empty(),
            "output_decode"@,
        ),
        PlannerReplannerV2ApplyError::OutputInvariant { broken } => is_strongest(
            reason,
            invariant_reasons(broken@),
        ) && rejects_for(validation, invariant_jsons(broken@), "output_invariant"@),
        PlannerReplannerV2ApplyError::DomainProjection { field } => reason
            == PlannerTurnRejectionReasonV1::BindingMismatch && rejects_for(
            validation,
            Seq::empty(),
            "domain_projection:"@ + field@,
        ),
        PlannerReplannerV2ApplyError::Plan { violations } => is_strongest(
            reason,
            plan_reasons(violations@),
        ) && rejects_for(validation, plan_jsons(violations@), "plan_validation"@),
    }
}

/// Whether a classification is the one that a response is owed.
pub open spec fn is_classified(
    classification: PlannerV2ResponseClassification,
    reads: ClassificationReads,
) -> bool {
    match (classification, reads.applied) {
        (PlannerV2ResponseClassification::Accepted(accepted), Ok(authoritative)) => {
            &&& accepted.authoritative == authoritative
            &&& reads.prompting == Ok::<PlannerReplannerV2Output, StoreError>(accepted.prompting)
            &&& reads.protocol == Ok::<PlannerPromptV2AcceptedOutputV1, StoreError>(
                accepted.protocol,
            )
        },
        (PlannerV2ResponseClassification::Rejected { reason, validation }, Err(error)) =>
            is_rejection_for(reason, validation, error),
        _ => false,
    }
}

fn reject_invariant(broken: &Vec<PromptViolation>) -> (r: (
    PlannerTurnRejectionReasonV1,
    RetainedPlanValidation,
))
    ensures
        is_strongest(r.0, invariant_reasons(broken@)),
        rejects_for(r.1, invariant_jsons(broken@), "output_invariant"@),
{
    let mut reasons: Vec<PlannerTurnRejectionReasonV1> = Vec::new();
    let mut jsons: Vec<Option<Text>> = Vec::new();
    let mut i: usize = 0;
    while i < broken.len()
        invariant
            i <= broken@.len(),
            reasons@ == invariant_reasons(broken@.take(i as int)),
            jsons@ == invariant_jsons(broken@.take(i as int)),
        decreases broken.len() - i,
    {
        let reason = prompting_invariant_rejection(broken[i].kind);
        let json = match &broken[i].json {
            Some(json) => Some(json.clone()),
            None => None,
        };
        assert(invariant_reasons(broken@.take(i + 1)) =~= reasons@.push(reason));
        assert(invariant_jsons(broken@.take(i + 1)) =~= jsons@.push(json));
        reasons.push(reason);
        jsons.push(json);
        i += 1;
    }
    assert(broken@.take(i as int) =~= broken@);
    (
        strongest_planner_rejection(&reasons),
        RetainedPlanValidation {
            status: Text::of("rejected"),
            violations: serialized_violation_entries(&jsons, "output_invariant"),
        },
    )
}

fn reject_plan(violations: &Vec<PlanViolation>) -> (r: (
    PlannerTurnRejectionReasonV1,
    RetainedPlanValidation,
))
    ensures
        is_strongest(r.0, plan_reasons(violations@)),
        rejects_for(r.1, plan_jsons(violations@), "plan_validation"@),
{
    let mut reasons: Vec<PlannerTurnRejectionReasonV1> = Vec::new();
    let mut jsons: Vec<Option<Text>> = Vec::new();
    let mut i: usize = 0;
    while i < violations.len()
        invariant
            i <= violations@.len(),
            reasons@ == plan_reasons(violations@.take(i as int)),
            jsons@ == plan_jsons(violations@.take(i as int)),
        decreases violations.len() - i,
    {
        let reason = plan_violation_rejection(violations[i].kind);
        let json = match &violations[i].json {
            Some(json) => Some(json.clone()),
            None => None,
        };
        assert(plan_reasons(violations@.take(i + 1)) =~= reasons@.push(reason));
        assert(plan_jsons(violations@.take(i + 1)) =~= jsons@.push(json));
        reasons.push(reason);
        jsons.push(json);
        i += 1;
    }
    assert(violations@.take(i as int) =~= violations@);
    (
        strongest_planner_rejection(&reasons),
        RetainedPlanValidation {
            status: Text::of("rejected"),
            violations: serialized_violation_entries(&jsons, "plan_validation"),
        },
    )
}

fn reject_single(entry: Text) -> (r: RetainedPlanValidation)
    ensures
        rejects_for(r, Seq::empty(), entry@),
{
    let mut violations: Vec<Text> = Vec::new();
    violations.push(entry);
    RetainedPlanValidation { status: Text::of("rejected"), violations }
}

/// What a response amounts to.
pub fn planner_v2_classify_response(
    contract: &Contract,
    prepared: &PlannerTurnPreparedV1,
    reads: ClassificationReads,
) -> (r: Result<PlannerV2ResponseClassification, StoreError>)
    ensures
        match (r, classification_verdict(*contract, *prepared, reads)) {
            (Ok(classification), Ok(())) => is_classified(classification, reads),
            (Err(error), Err(expected)) => error == expected,
            _ => false,
        },
{
    let base = match read_planner_base_snapshot(contract, &prepared.base_plan, &reads.base) {
        Ok(base) => base,
        Err(error) => return Err(error),
    };
    match check_planner_v2_retained_prompt(contract, prepared, base, &reads.prompt) {
        Ok(()) => {},
        Err(error) => return Err(error),
    }
    match reads.applied {
        Ok(authoritative) => match (reads.prompting, reads.protocol) {
            (Err(error), _) => Err(error),
            (Ok(_), Err(error)) => Err(error),
            (Ok(prompting), Ok(protocol)) => Ok(
                PlannerV2ResponseClassification::Accepted(
                    PlannerV2AcceptedClassification { prompting, protocol, authoritative },
                ),
            ),
        },
        Err(PlannerReplannerV2ApplyError::Setup) => Err(StoreError::InvalidStateEvent),
        Err(PlannerReplannerV2ApplyError::OutputDecode) => Ok(
            PlannerV2ResponseClassification::Rejected {
                reason: PlannerTurnRejectionReasonV1::InvalidSchema,
                validation: reject_single(Text::of("output_decode")),
            },
        ),
        Err(PlannerReplannerV2ApplyError::OutputInvariant { broken }) => {
            let (reason, validation) = reject_invariant(&broken);
            Ok(PlannerV2ResponseClassification::Rejected { reason, validation })
        },
        Err(PlannerReplannerV2ApplyError::DomainProjection { field }) => Ok(
            PlannerV2ResponseClassification::Rejected {
                reason: PlannerTurnRejectionReasonV1::BindingMismatch,
                validation: reject_single(Text::prefixed("domain_projection:", &field)),
            },
        ),
        Err(PlannerReplannerV2ApplyError::Plan { violations }) => {
            let (reason, validation) = reject_plan(&violations);
            Ok(PlannerV2ResponseClassification::Rejected { reason, validation })
        },
    }
}

/// Every reason that an answer is rejected for stands for certain broken invariants and for no others:
/// what an answer can break in its form, its purpose, its evidence and its directive each has a reason,
/// and everything else is a mismatch of bindings. No answer is stale or over a limit by an invariant.
pub proof fn law_broken_invariants_have_their_reason(violation: PlannerReplannerV2InvariantViolation)
    ensures
        prompting_invariant_rejection(violation) == PlannerTurnRejectionReasonV1::InvalidSchema <==> (violation == PlannerReplannerV2InvariantViolation::TypedOutputDecode || violation == PlannerReplannerV2InvariantViolation::ContractValidation || violation == PlannerReplannerV2InvariantViolation::OutputSchemaVersion || violation == PlannerReplannerV2InvariantViolation::RuntimeConstraintShape),
        prompting_invariant_rejection(violation) == PlannerTurnRejectionReasonV1::WrongPurpose <==> (violation == PlannerReplannerV2InvariantViolation::PurposeMismatch),
        prompting_invariant_rejection(violation) == PlannerTurnRejectionReasonV1::EvidenceOmitted <==> (violation == PlannerReplannerV2InvariantViolation::BasePlanEvidenceOmission || violation == PlannerReplannerV2InvariantViolation::EvidencePacketOmission || violation == PlannerReplannerV2InvariantViolation::TurnBasisMissesDelta || violation == PlannerReplannerV2InvariantViolation::EmptyTurnBasis),
        prompting_invariant_rejection(violation) == PlannerTurnRejectionReasonV1::EvidenceFabricated <==> (violation == PlannerReplannerV2InvariantViolation::EvidencePacketUnknownId || violation == PlannerReplannerV2InvariantViolation::UnknownEvidenceId),
        prompting_invariant_rejection(violation) == PlannerTurnRejectionReasonV1::EvidenceSubstituted <==> (violation == PlannerReplannerV2InvariantViolation::EvidencePacketIntegrity || violation == PlannerReplannerV2InvariantViolation::EvidenceDeltaIntegrity || violation == PlannerReplannerV2InvariantViolation::EvidencePacketDigestMismatch || violation == PlannerReplannerV2InvariantViolation::AuthorityIntegrity),
        prompting_invariant_rejection(violation) == PlannerTurnRejectionReasonV1::DirectiveInvalid <==> (violation == PlannerReplannerV2InvariantViolation::InitialFinishForbidden),
        prompting_invariant_rejection(violation) != PlannerTurnRejectionReasonV1::StaleBasePlan,
        prompting_invariant_rejection(violation) != PlannerTurnRejectionReasonV1::PolicyLimitExceeded,
{
}

/// Every reason that a plan is rejected for stands for certain violations and for no others: a stale
/// plan, missing and unknown evidence, exceeded limits and impossible directives each have a reason, and
/// everything else is a mismatch of bindings. No violation of a plan is of its purpose or of substituted
/// evidence.
pub proof fn law_plan_violations_have_their_reason(violation: PlannerViolation)
    ensures
        plan_violation_rejection(violation) == PlannerTurnRejectionReasonV1::InvalidSchema <==> (violation == PlannerViolation::UnsupportedSchemaVersion),
        plan_violation_rejection(violation) == PlannerTurnRejectionReasonV1::StaleBasePlan <==> (violation == PlannerViolation::StalePlanBinding || violation == PlannerViolation::StaleWorkOrder),
        plan_violation_rejection(violation) == PlannerTurnRejectionReasonV1::EvidenceOmitted <==> (violation == PlannerViolation::EmptyEvidence || violation == PlannerViolation::RequiredObligationUncovered || violation == PlannerViolation::FinishMissingRequiredObligation),
        plan_violation_rejection(violation) == PlannerTurnRejectionReasonV1::EvidenceFabricated <==> (violation == PlannerViolation::UnknownEvidence),
        plan_violation_rejection(violation) == PlannerTurnRejectionReasonV1::PolicyLimitExceeded <==> (violation == PlannerViolation::PatchOperationLimitExceeded || violation == PlannerViolation::WorkOrderLimitExceeded || violation == PlannerViolation::VerificationTargetLimitExceeded || violation == PlannerViolation::TextLimitExceeded || violation == PlannerViolation::DirectiveEncodedLimitExceeded || violation == PlannerViolation::DirectiveCollectionLimitExceeded || violation == PlannerViolation::FieldTooLarge || violation == PlannerViolation::EvidenceLimitExceeded || violation == PlannerViolation::DependencyLimitExceeded || violation == PlannerViolation::DelegationLimitExceeded || violation == PlannerViolation::ClarificationLimitExceeded || violation == PlannerViolation::EscalationLimitExceeded || violation == PlannerViolation::FinishClaimLimitExceeded),
        plan_violation_rejection(violation) == PlannerTurnRejectionReasonV1::DirectiveInvalid <==> (violation == PlannerViolation::DirectiveShapeMismatch || violation == PlannerViolation::DirectiveTargetNotPending || violation == PlannerViolation::FinishRequiresEmptyPatch || violation == PlannerViolation::DuplicateFinishClaim),
        plan_violation_rejection(violation) != PlannerTurnRejectionReasonV1::WrongPurpose,
        plan_violation_rejection(violation) != PlannerTurnRejectionReasonV1::EvidenceSubstituted,
{
}

/// Reasons are ranked, no two alike: a broken form before a wrong purpose, then a stale plan, omitted,
/// substituted and fabricated evidence, an invalid directive, an exceeded limit, and mismatched bindings
/// last.
pub proof fn law_reasons_are_ranked(first: PlannerTurnRejectionReasonV1, second: PlannerTurnRejectionReasonV1)
    ensures
        planner_rejection_priority(first) == planner_rejection_priority(second) ==> first == second,
        planner_rejection_priority(PlannerTurnRejectionReasonV1::InvalidSchema) < planner_rejection_priority(
            PlannerTurnRejectionReasonV1::WrongPurpose,
        ),
        planner_rejection_priority(PlannerTurnRejectionReasonV1::WrongPurpose) < planner_rejection_priority(
            PlannerTurnRejectionReasonV1::StaleBasePlan,
        ),
        planner_rejection_priority(PlannerTurnRejectionReasonV1::StaleBasePlan) < planner_rejection_priority(
            PlannerTurnRejectionReasonV1::EvidenceOmitted,
        ),
        planner_rejection_priority(PlannerTurnRejectionReasonV1::EvidenceOmitted) < planner_rejection_priority(
            PlannerTurnRejectionReasonV1::EvidenceSubstituted,
        ),
        planner_rejection_priority(PlannerTurnRejectionReasonV1::EvidenceSubstituted) < planner_rejection_priority(
            PlannerTurnRejectionReasonV1::EvidenceFabricated,
        ),
        planner_rejection_priority(PlannerTurnRejectionReasonV1::EvidenceFabricated) < planner_rejection_priority(
            PlannerTurnRejectionReasonV1::DirectiveInvalid,
        ),
        planner_rejection_priority(PlannerTurnRejectionReasonV1::DirectiveInvalid) < planner_rejection_priority(
            PlannerTurnRejectionReasonV1::PolicyLimitExceeded,
        ),
        planner_rejection_priority(PlannerTurnRejectionReasonV1::PolicyLimitExceeded) < planner_rejection_priority(
            PlannerTurnRejectionReasonV1::BindingMismatch,
        ),
{
}

/// A rejection is for the gravest thing that was found: for no found reason is there a graver one among
/// the others, and a reason that was not found is never given where one was.
pub proof fn law_rejections_give_the_gravest_reason(
    reason: PlannerTurnRejectionReasonV1,
    validation: RetainedPlanValidation,
    broken: Vec<PromptViolation>,
    violations: Vec<PlanViolation>,
    i: int,
)
    ensures
        is_rejection_for(
            reason,
            validation,
            PlannerReplannerV2ApplyError::OutputInvariant { broken },
        ) && 0 <= i < broken@.len() ==> {
            &&& planner_rejection_priority(reason) <= planner_rejection_priority(
                prompting_invariant_rejection(broken@[i].kind),
            )
            &&& validation.violations@.len() == broken@.len()
            &&& broken@[i].json matches Some(text) ==> validation.violations@[i]@ == text@
        },
        is_rejection_for(reason, validation, PlannerReplannerV2ApplyError::Plan { violations })
            && 0 <= i < violations@.len() ==> {
            &&& planner_rejection_priority(reason) <= planner_rejection_priority(
                plan_violation_rejection(violations@[i].kind),
            )
            &&& validation.violations@.len() == violations@.len()
            &&& violations@[i].json matches Some(text) ==> validation.violations@[i]@ == text@
        },
        is_rejection_for(reason, validation, PlannerReplannerV2ApplyError::OutputDecode)
            ==> reason == PlannerTurnRejectionReasonV1::InvalidSchema && validation.violations@.len() == 1
            && validation.violations@[0]@ == "output_decode"@,
        !is_rejection_for(reason, validation, PlannerReplannerV2ApplyError::Setup),
{
    if 0 <= i < broken@.len() {
        let reasons = invariant_reasons(broken@);
        assert(reasons[i] == prompting_invariant_rejection(broken@[i].kind));
        assert(invariant_jsons(broken@)[i] == broken@[i].json);
    }
    if 0 <= i < violations@.len() {
        let reasons = plan_reasons(violations@);
        assert(reasons[i] == plan_violation_rejection(violations@[i].kind));
        assert(plan_jsons(violations@)[i] == violations@[i].json);
    }
}

/// An answer is accepted exactly where it applied, and then shows what came of it; an answer that could
/// not be set up is refused and classified as nothing.
pub proof fn law_answers_are_classified_by_their_effect(
    classification: PlannerV2ResponseClassification,
    reads: ClassificationReads,
)
    requires
        is_classified(classification, reads),
    ensures
        classification is Accepted <==> reads.applied is Ok,
        classification matches PlannerV2ResponseClassification::Accepted(accepted) ==> (
        reads.applied matches Ok(turn) && turn == accepted.authoritative),
        reads.applied matches Err(error) ==> !(error is Setup),
{
}

} // verus!

//! The request of a planner turn: what it was built from, and whether it is still exactly that.

use vstd::prelude::*;
use crate::artifact::{require_readable, BackendInstanceIdentity};
use crate::contract::Contract;
use crate::digest::Sha256Digest;
use crate::error::StoreError;
use crate::event::{EventEnvelope, EventPayload};
use crate::inference_identity::{protocol_backend_instance_identity, ConfiguredBackend};
use crate::planner_prompt::{
    PlannerPolicyV2, PlannerPromptPart, PlannerProtectedObligationCatalogV2,
    PlannerReplannerV2Bindings, PlannerReplannerV2ContextCatalog, PlannerReplannerV2EvidenceDelta,
    PlannerReplannerV2EvidencePacket, PlannerReplannerV2InvocationMaterial,
    PlannerReplannerV2PlanSnapshot, PlannerReplannerV2Reasoning,
    PreparedPlannerReplannerV2Request, RetainedPlannerPrompt,
};
use crate::planner_turn::PlannerTurnPreparedV1;
use crate::planner_v2_base::read_planner_base_snapshot;
use crate::planner_v2_evidence::prompting_v2_purpose_matches;
use crate::retained::RetainedInferenceRequest;
use crate::run::ReasoningSetting;
use crate::text::{Same, Text};

verus! {

/// What the prompt calls a reasoning setting.
#[verifier::allow_in_spec]
pub fn planner_prompt_reasoning_setting(reasoning: ReasoningSetting) -> PlannerReplannerV2Reasoning
    returns
        (match reasoning {
            ReasoningSetting::Off => PlannerReplannerV2Reasoning::Off,
            ReasoningSetting::On => PlannerReplannerV2Reasoning::On,
            ReasoningSetting::Low => PlannerReplannerV2Reasoning::Low,
            ReasoningSetting::Medium => PlannerReplannerV2Reasoning::Medium,
            ReasoningSetting::High => PlannerReplannerV2Reasoning::High,
        }),
{
    match reasoning {
        ReasoningSetting::Off => PlannerReplannerV2Reasoning::Off,
        ReasoningSetting::On => PlannerReplannerV2Reasoning::On,
        ReasoningSetting::Low => PlannerReplannerV2Reasoning::Low,
        ReasoningSetting::Medium => PlannerReplannerV2Reasoning::Medium,
        ReasoningSetting::High => PlannerReplannerV2Reasoning::High,
    }
}

/// What the prompt calls a reasoning setting, if there is one.
#[verifier::allow_in_spec]
pub fn prompt_reasoning(reasoning: Option<ReasoningSetting>) -> Option<PlannerReplannerV2Reasoning>
    returns
        (match reasoning {
            Some(setting) => Some(planner_prompt_reasoning_setting(setting)),
            None => None,
        }),
{
    match reasoning {
        Some(setting) => Some(planner_prompt_reasoning_setting(setting)),
        None => None,
    }
}

/// Different settings have different names in the prompt.
pub proof fn law_reasoning_names_are_distinct(first: ReasoningSetting, second: ReasoningSetting)
    requires
        planner_prompt_reasoning_setting(first) == planner_prompt_reasoning_setting(second),
    ensures
        first == second,
{
}

/// The policy that an inference is requested under.
#[derive(Debug)]
pub struct PlannerReplannerInferencePolicy {
    pub backend: ConfiguredBackend,
    pub model_id: Text,
    pub reasoning: Option<ReasoningSetting>,
    pub max_output_tokens: u32,
}

/// Everything that a request is built from.
#[derive(Debug)]
pub struct PlannerReplannerV2BuildInput {
    pub material: PlannerReplannerV2InvocationMaterial,
    pub policy: PlannerReplannerInferencePolicy,
}

/// A request that is exactly what its turn retained, with everything that it was built from.
#[derive(Debug)]
pub struct ValidatedPlannerV2DurableRequest {
    pub input: PlannerReplannerV2BuildInput,
    pub authoritative: PreparedPlannerReplannerV2Request,
}

/// What is read and made of the request that a turn retained: the prompt, its evidence, what its
/// sections and constraints read as, the backend that its bindings name, whether the name of that
/// backend is intact and the digest that the protocol gives it, whether the inference policy is
/// valid, the request as it is built anew, and the retained request with its digest and whether it
/// fits the reservation.
#[derive(Debug)]
pub struct PlannerPromptReads {
    pub prompt: Result<RetainedPlannerPrompt, StoreError>,
    pub packet: Result<PlannerReplannerV2EvidencePacket, StoreError>,
    pub delta: Result<PlannerReplannerV2EvidenceDelta, StoreError>,
    pub obligations: Result<PlannerProtectedObligationCatalogV2, StoreError>,
    pub context: Result<PlannerReplannerV2ContextCatalog, StoreError>,
    pub policy: Result<PlannerPolicyV2, StoreError>,
    pub bindings: Result<PlannerReplannerV2Bindings, StoreError>,
    pub backend: Result<ConfiguredBackend, StoreError>,
    pub backend_is_intact: bool,
    pub protocol_digest: Option<Sha256Digest>,
    pub inference_policy: Result<(), StoreError>,
    pub authoritative: Result<PreparedPlannerReplannerV2Request, StoreError>,
    pub request: Result<RetainedInferenceRequest, StoreError>,
    pub request_digest: Result<Sha256Digest, StoreError>,
    pub fits_reservation: Result<bool, StoreError>,
}

/// Whether an invocation has a part with a name.
pub open spec fn has_part(parts: Seq<PlannerPromptPart>, name: Seq<char>) -> bool {
    exists|i: int| 0 <= i < parts.len() && #[trigger] parts[i].name@ == name
}

fn finds_part(parts: &Vec<PlannerPromptPart>, name: &str) -> (r: bool)
    ensures
        r == has_part(parts@, name@),
{
    let mut i: usize = 0;
    while i < parts.len()
        invariant
            i <= parts@.len(),
            forall|j: int| 0 <= j < i ==> #[trigger] parts@[j].name@ != name@,
        decreases parts.len() - i,
    {
        if parts[i].name.is(name) {
            return true;
        }
        i += 1;
    }
    false
}

/// What is found of a part of an invocation; `read` is what the part reads as.
pub open spec fn part_verdict<T>(
    parts: Seq<PlannerPromptPart>,
    name: Seq<char>,
    read: Result<T, StoreError>,
) -> Result<(), StoreError> {
    if !has_part(parts, name) {
        Err(StoreError::InvalidStateEvent)
    } else {
        crate::artifact::outcome(read)
    }
}

/// Refuses an invocation in which a part is missing or cannot be read.
pub fn planner_invocation_part<T>(
    parts: &Vec<PlannerPromptPart>,
    name: &str,
    read: &Result<T, StoreError>,
) -> (r: Result<(), StoreError>)
    ensures
        r == part_verdict(parts@, name@, *read),
{
    if !finds_part(parts, name) {
        return Err(StoreError::InvalidStateEvent);
    }
    match read {
        Ok(_) => Ok(()),
        Err(error) => Err(*error),
    }
}

/// What is found of the parts of an invocation.
pub open spec fn parts_verdict(prompt: RetainedPlannerPrompt, reads: PlannerPromptReads) -> Result<
    (),
    StoreError,
> {
    let invocation = prompt.prompt_invocation;
    crate::error::and_next(
        part_verdict(invocation.sections@, "protected_obligation_catalog"@, reads.obligations),
        crate::error::and_next(
            part_verdict(invocation.sections@, "planner_context_catalog"@, reads.context),
            crate::error::and_next(
                part_verdict(invocation.runtime_constraints@, "planner_policy"@, reads.policy),
                part_verdict(
                    invocation.runtime_constraints@,
                    "planner_turn_bindings"@,
                    reads.bindings,
                ),
            ),
        ),
    )
}

fn check_parts(prompt: &RetainedPlannerPrompt, reads: &PlannerPromptReads) -> (r: Result<
    (),
    StoreError,
>)
    ensures
        r == parts_verdict(*prompt, *reads),
{
    let invocation = &prompt.prompt_invocation;
    match planner_invocation_part(
        &invocation.sections,
        "protected_obligation_catalog",
        &reads.obligations,
    ) {
        Ok(()) => {},
        Err(error) => return Err(error),
    }
    match planner_invocation_part(&invocation.sections, "planner_context_catalog", &reads.context) {
        Ok(()) => {},
        Err(error) => return Err(error),
    }
    match planner_invocation_part(
        &invocation.runtime_constraints,
        "planner_policy",
        &reads.policy,
    ) {
        Ok(()) => {},
        Err(error) => return Err(error),
    }
    planner_invocation_part(
        &invocation.runtime_constraints,
        "planner_turn_bindings",
        &reads.bindings,
    )
}

/// What is found of the backend that bindings name; `built` is the backend of that name.
pub open spec fn backend_verdict(
    bindings: PlannerReplannerV2Bindings,
    built: Result<ConfiguredBackend, StoreError>,
) -> Result<(), StoreError> {
    match built {
        Err(error) => Err(error),
        Ok(backend) => crate::error::demand(
            backend.identity_sha256@ == bindings.backend_instance_sha256@,
        ),
    }
}

/// The backend that bindings name, where its digest is the one that they give.
pub fn backend_instance_from_planner_bindings<'a>(
    bindings: &PlannerReplannerV2Bindings,
    built: &'a Result<ConfiguredBackend, StoreError>,
) -> (r: Result<&'a ConfiguredBackend, StoreError>)
    ensures
        match (r, backend_verdict(*bindings, *built)) {
            (Ok(backend), Ok(())) => *built == Ok::<ConfiguredBackend, StoreError>(*backend),
            (Err(error), Err(expected)) => error == expected,
            _ => false,
        },
{
    match built {
        Ok(backend) => if backend.identity_sha256.reads(&bindings.backend_instance_sha256) {
            Ok(backend)
        } else {
            Err(StoreError::InvalidStateEvent)
        },
        Err(error) => Err(*error),
    }
}

/// Whether two texts are both missing or read the same.
pub open spec fn same_text(first: Option<Text>, second: Option<Text>) -> bool {
    match (first, second) {
        (Some(left), Some(right)) => left@ == right@,
        (None, None) => true,
        _ => false,
    }
}

fn are_same_text(first: &Option<Text>, second: &Option<Text>) -> (r: bool)
    ensures
        r == same_text(*first, *second),
{
    match (first, second) {
        (Some(left), Some(right)) => *left == *right,
        (None, None) => true,
        _ => false,
    }
}

/// Whether bindings name the turn's prompt, plan and evidence.
pub open spec fn bind_prompt(
    contract: Contract,
    prepared: PlannerTurnPreparedV1,
    snapshot: PlannerReplannerV2PlanSnapshot,
    packet: PlannerReplannerV2EvidencePacket,
    delta: PlannerReplannerV2EvidenceDelta,
    bindings: PlannerReplannerV2Bindings,
) -> bool {
    &&& prompting_v2_purpose_matches(bindings.purpose, prepared.purpose)
    &&& bindings.prompt_id@ == contract.prompts.planner_replanner_id@
    &&& bindings.prompt_version@ == contract.prompts.planner_replanner_version@
    &&& bindings.prompt_manifest_sha256@ == prepared.prompt_manifest_digest@
    &&& bindings.plan_id@ == snapshot.plan_id@
    &&& bindings.base_revision == prepared.base_plan.revision
    &&& bindings.base_plan_sha256@ == prepared.base_plan.digest@
    &&& bindings.obligation_snapshot_sha256@ == prepared.obligation_snapshot_digest@
    &&& bindings.acceptance_policy_sha256@ == prepared.acceptance_policy_digest@
    &&& bindings.context_manifest_sha256@ == prepared.context_manifest_digest@
    &&& bindings.planner_policy_sha256@ == prepared.planner_policy_digest@
    &&& bindings.evidence_packet_sha256@ == packet.packet_sha256@
    &&& same_text(bindings.previous_evidence_packet_sha256, delta.previous_packet_sha256)
    &&& bindings.evidence_delta_sha256@ == delta.delta_sha256@
}

fn checks_prompt_bindings(
    contract: &Contract,
    prepared: &PlannerTurnPreparedV1,
    snapshot: &PlannerReplannerV2PlanSnapshot,
    packet: &PlannerReplannerV2EvidencePacket,
    delta: &PlannerReplannerV2EvidenceDelta,
    bindings: &PlannerReplannerV2Bindings,
) -> (r: bool)
    ensures
        r == bind_prompt(*contract, *prepared, *snapshot, *packet, *delta, *bindings),
{
    prompting_v2_purpose_matches(bindings.purpose, prepared.purpose) && bindings.prompt_id
        == contract.prompts.planner_replanner_id && bindings.prompt_version
        == contract.prompts.planner_replanner_version && prepared.prompt_manifest_digest.reads(
        &bindings.prompt_manifest_sha256,
    ) && bindings.plan_id == snapshot.plan_id && bindings.base_revision
        == prepared.base_plan.revision && prepared.base_plan.digest.reads(
        &bindings.base_plan_sha256,
    ) && prepared.obligation_snapshot_digest.reads(&bindings.obligation_snapshot_sha256)
        && prepared.acceptance_policy_digest.reads(&bindings.acceptance_policy_sha256)
        && prepared.context_manifest_digest.reads(&bindings.context_manifest_sha256)
        && prepared.planner_policy_digest.reads(&bindings.planner_policy_sha256)
        && bindings.evidence_packet_sha256 == packet.packet_sha256 && are_same_text(
        &bindings.previous_evidence_packet_sha256,
        &delta.previous_packet_sha256,
    ) && bindings.evidence_delta_sha256 == delta.delta_sha256
}

/// Whether the protocol names a configured backend exactly as the turn does.
pub open spec fn protocol_names(
    backend: ConfiguredBackend,
    is_intact: bool,
    protocol_digest: Option<Sha256Digest>,
    identity: BackendInstanceIdentity,
) -> bool {
    &&& is_intact
    &&& protocol_digest matches Some(digest) && digest@ == backend.identity_sha256@
    &&& crate::inference_identity::names_same_backend(backend, identity)
}

/// Whether bindings name the turn's backend, model and reservation.
pub open spec fn bind_backend(
    prepared: PlannerTurnPreparedV1,
    bindings: PlannerReplannerV2Bindings,
    backend: ConfiguredBackend,
    is_intact: bool,
    protocol_digest: Option<Sha256Digest>,
) -> bool {
    &&& bindings.backend_id@ == prepared.backend_model.backend_id@
    &&& protocol_names(backend, is_intact, protocol_digest, prepared.backend_instance)
    &&& backend.backend_id@ == prepared.backend_model.backend_id@
    &&& backend.deployment_id@ == prepared.model_lineage.deployment_id@
    &&& bindings.model_id@ == prepared.backend_model.model_id@
    &&& bindings.reasoning == prompt_reasoning(prepared.reasoning)
    &&& bindings.budget_reservation_id == prepared.token_reservation.id
    &&& bindings.max_output_tokens == prepared.token_reservation.max_output_tokens
}

fn checks_backend_bindings(
    prepared: &PlannerTurnPreparedV1,
    bindings: &PlannerReplannerV2Bindings,
    backend: &ConfiguredBackend,
    is_intact: bool,
    protocol_digest: &Option<Sha256Digest>,
) -> (r: bool)
    ensures
        r == bind_backend(*prepared, *bindings, *backend, is_intact, *protocol_digest),
{
    let named = match protocol_backend_instance_identity(backend, is_intact, protocol_digest) {
        Ok(identity) => identity == prepared.backend_instance,
        Err(_) => false,
    };
    bindings.backend_id == prepared.backend_model.backend_id && named && backend.backend_id
        == prepared.backend_model.backend_id && backend.deployment_id
        == prepared.model_lineage.deployment_id && bindings.model_id
        == prepared.backend_model.model_id && bindings.reasoning == prompt_reasoning(
        prepared.reasoning,
    ) && bindings.budget_reservation_id == prepared.token_reservation.id
        && bindings.max_output_tokens as u64 == prepared.token_reservation.max_output_tokens
}

/// What is found of the bindings of a prompt.
pub open spec fn bindings_verdict(
    contract: Contract,
    prepared: PlannerTurnPreparedV1,
    snapshot: PlannerReplannerV2PlanSnapshot,
    packet: PlannerReplannerV2EvidencePacket,
    delta: PlannerReplannerV2EvidenceDelta,
    bindings: PlannerReplannerV2Bindings,
    reads: PlannerPromptReads,
) -> Result<(), StoreError> {
    crate::error::and_next(
        crate::error::demand(prepared.token_reservation.max_output_tokens <= u32::MAX),
        crate::error::and_next(
            backend_verdict(bindings, reads.backend),
            crate::error::demand(
                bind_prompt(contract, prepared, snapshot, packet, delta, bindings) && bind_backend(
                    prepared,
                    bindings,
                    reads.backend->Ok_0,
                    reads.backend_is_intact,
                    reads.protocol_digest,
                ),
            ),
        ),
    )
}

/// Refuses a prompt whose bindings do not name its turn.
pub fn validate_planner_v2_prepared_bindings(
    contract: &Contract,
    prepared: &PlannerTurnPreparedV1,
    snapshot: &PlannerReplannerV2PlanSnapshot,
    packet: &PlannerReplannerV2EvidencePacket,
    delta: &PlannerReplannerV2EvidenceDelta,
    bindings: &PlannerReplannerV2Bindings,
    reads: &PlannerPromptReads,
) -> (r: Result<(), StoreError>)
    ensures
        r == bindings_verdict(
            *contract,
            *prepared,
            *snapshot,
            *packet,
            *delta,
            *bindings,
            *reads,
        ),
{
    if prepared.token_reservation.max_output_tokens > u32::MAX as u64 {
        return Err(StoreError::InvalidStateEvent);
    }
    let backend = match backend_instance_from_planner_bindings(bindings, &reads.backend) {
        Ok(backend) => backend,
        Err(error) => return Err(error),
    };
    if checks_prompt_bindings(contract, prepared, snapshot, packet, delta, bindings)
        && checks_backend_bindings(
        prepared,
        bindings,
        backend,
        reads.backend_is_intact,
        &reads.protocol_digest,
    ) {
        Ok(())
    } else {
        Err(StoreError::InvalidStateEvent)
    }
}

/// What is found of the retained request: it is the one that is built anew, and it fits its
/// reservation.
pub open spec fn rebuilt_verdict(
    prepared: PlannerTurnPreparedV1,
    prompt: RetainedPlannerPrompt,
    authoritative: PreparedPlannerReplannerV2Request,
    request: RetainedInferenceRequest,
    reads: PlannerPromptReads,
) -> Result<(), StoreError> {
    match reads.request_digest {
        Err(error) => Err(error),
        Ok(digest) => if digest@ != request.request_sha256@ || !prompt.prompt_invocation.same(
            &authoritative.invocation,
        ) || prompt.compiled_prompt@ != authoritative.compiled_prompt@ || !request.request.same(
            &authoritative.inference,
        ) {
            Err(StoreError::InvalidStateEvent)
        } else {
            match reads.fits_reservation {
                Err(error) => Err(error),
                Ok(fits) => crate::error::demand(
                    fits && authoritative.manifest_sha256@ == prepared.prompt_manifest_digest@,
                ),
            }
        },
    }
}

fn check_rebuilt(
    prepared: &PlannerTurnPreparedV1,
    prompt: &RetainedPlannerPrompt,
    authoritative: &PreparedPlannerReplannerV2Request,
    request: &RetainedInferenceRequest,
    reads: &PlannerPromptReads,
) -> (r: Result<(), StoreError>)
    ensures
        r == rebuilt_verdict(*prepared, *prompt, *authoritative, *request, *reads),
{
    let digest = match &reads.request_digest {
        Ok(digest) => digest,
        Err(error) => return Err(*error),
    };
    if *digest != request.request_sha256 || prompt.prompt_invocation != authoritative.invocation
        || prompt.compiled_prompt != authoritative.compiled_prompt || request.request
        != authoritative.inference {
        return Err(StoreError::InvalidStateEvent);
    }
    match reads.fits_reservation {
        Err(error) => Err(error),
        Ok(fits) => if fits && prepared.prompt_manifest_digest.reads(
            &authoritative.manifest_sha256,
        ) {
            Ok(())
        } else {
            Err(StoreError::InvalidStateEvent)
        },
    }
}

/// What is found of the request that a turn retained, once its documents are read.
pub open spec fn prompt_parts_verdict(
    contract: Contract,
    prepared: PlannerTurnPreparedV1,
    snapshot: PlannerReplannerV2PlanSnapshot,
    reads: PlannerPromptReads,
) -> Result<(), StoreError> {
    crate::error::and_next(
        parts_verdict(reads.prompt->Ok_0, reads),
        crate::error::and_next(
            bindings_verdict(
                contract,
                prepared,
                snapshot,
                reads.packet->Ok_0,
                reads.delta->Ok_0,
                reads.bindings->Ok_0,
                reads,
            ),
            crate::error::and_next(
                reads.inference_policy,
                crate::error::and_next(
                    crate::artifact::outcome(reads.authoritative),
                    crate::error::and_next(
                        crate::artifact::readable(
                            prepared.request_artifact,
                            contract.media.inference_request,
                            reads.request,
                        ),
                        rebuilt_verdict(
                            prepared,
                            reads.prompt->Ok_0,
                            reads.authoritative->Ok_0,
                            reads.request->Ok_0,
                            reads,
                        ),
                    ),
                ),
            ),
        ),
    )
}

/// What is found of the request that a turn retained.
pub open spec fn prompt_verdict(
    contract: Contract,
    prepared: PlannerTurnPreparedV1,
    snapshot: PlannerReplannerV2PlanSnapshot,
    reads: PlannerPromptReads,
) -> Result<(), StoreError> {
    crate::error::and_next(
        crate::artifact::readable(
            prepared.prompt_artifact,
            contract.media.retained_prompt,
            reads.prompt,
        ),
        crate::error::and_next(
            crate::artifact::readable(
                prepared.prompt_evidence_packet_artifact,
                contract.media.planner_prompt_evidence_packet_v2,
                reads.packet,
            ),
            crate::error::and_next(
                crate::artifact::readable(
                    prepared.prompt_evidence_delta_artifact,
                    contract.media.planner_prompt_evidence_delta_v2,
                    reads.delta,
                ),
                prompt_parts_verdict(contract, prepared, snapshot, reads),
            ),
        ),
    )
}

fn check_prompt_parts(
    contract: &Contract,
    prepared: &PlannerTurnPreparedV1,
    snapshot: &PlannerReplannerV2PlanSnapshot,
    prompt: &RetainedPlannerPrompt,
    packet: &PlannerReplannerV2EvidencePacket,
    delta: &PlannerReplannerV2EvidenceDelta,
    reads: &PlannerPromptReads,
) -> (r: Result<(), StoreError>)
    requires
        reads.prompt == Ok::<RetainedPlannerPrompt, StoreError>(*prompt),
        reads.packet == Ok::<PlannerReplannerV2EvidencePacket, StoreError>(*packet),
        reads.delta == Ok::<PlannerReplannerV2EvidenceDelta, StoreError>(*delta),
    ensures
        r == prompt_parts_verdict(*contract, *prepared, *snapshot, *reads),
{
    match check_parts(prompt, reads) {
        Ok(()) => {},
        Err(error) => return Err(error),
    }
    let bindings = match &reads.bindings {
        Ok(bindings) => bindings,
        Err(error) => return Err(*error),
    };
    match validate_planner_v2_prepared_bindings(
        contract,
        prepared,
        snapshot,
        packet,
        delta,
        bindings,
        reads,
    ) {
        Ok(()) => {},
        Err(error) => return Err(error),
    }
    match reads.inference_policy {
        Ok(()) => {},
        Err(error) => return Err(error),
    }
    let authoritative = match &reads.authoritative {
        Ok(authoritative) => authoritative,
        Err(error) => return Err(*error),
    };
    match require_readable(
        &prepared.request_artifact,
        &contract.media.inference_request,
        &reads.request,
    ) {
        Ok(()) => {},
        Err(error) => return Err(error),
    }
    match &reads.request {
        Ok(request) => check_rebuilt(prepared, prompt, authoritative, request, reads),
        Err(error) => Err(*error),
    }
}

/// Refuses a turn whose retained request is not exactly the one that is built anew from what it
/// retained.
pub fn check_planner_v2_retained_prompt(
    contract: &Contract,
    prepared: &PlannerTurnPreparedV1,
    snapshot: &PlannerReplannerV2PlanSnapshot,
    reads: &PlannerPromptReads,
) -> (r: Result<(), StoreError>)
    ensures
        r == prompt_verdict(*contract, *prepared, *snapshot, *reads),
{
    match require_readable(
        &prepared.prompt_artifact,
        &contract.media.retained_prompt,
        &reads.prompt,
    ) {
        Ok(()) => {},
        Err(error) => return Err(error),
    }
    match require_readable(
        &prepared.prompt_evidence_packet_artifact,
        &contract.media.planner_prompt_evidence_packet_v2,
        &reads.packet,
    ) {
        Ok(()) => {},
        Err(error) => return Err(error),
    }
    match require_readable(
        &prepared.prompt_evidence_delta_artifact,
        &contract.media.planner_prompt_evidence_delta_v2,
        &reads.delta,
    ) {
        Ok(()) => {},
        Err(error) => return Err(error),
    }
    match (&reads.prompt, &reads.packet, &reads.delta) {
        (Ok(prompt), Ok(packet), Ok(delta)) => check_prompt_parts(
            contract,
            prepared,
            snapshot,
            prompt,
            packet,
            delta,
            reads,
        ),
        _ => Err(StoreError::InvalidStateEvent),
    }
}

/// Whether a request is built from exactly what a turn retained.
pub open spec fn is_validated(
    validated: ValidatedPlannerV2DurableRequest,
    prepared: PlannerTurnPreparedV1,
    snapshot: PlannerReplannerV2PlanSnapshot,
    reads: PlannerPromptReads,
) -> bool {
    let material = validated.input.material;
    let policy = validated.input.policy;
    &&& material.base_plan == snapshot
    &&& reads.obligations == Ok::<PlannerProtectedObligationCatalogV2, StoreError>(
        material.protected_obligation_catalog,
    )
    &&& reads.context == Ok::<PlannerReplannerV2ContextCatalog, StoreError>(
        material.planner_context_catalog,
    )
    &&& reads.packet == Ok::<PlannerReplannerV2EvidencePacket, StoreError>(material.evidence_packet)
    &&& reads.delta == Ok::<PlannerReplannerV2EvidenceDelta, StoreError>(material.evidence_delta)
    &&& reads.policy == Ok::<PlannerPolicyV2, StoreError>(material.planner_policy)
    &&& reads.bindings == Ok::<PlannerReplannerV2Bindings, StoreError>(material.bindings)
    &&& reads.backend == Ok::<ConfiguredBackend, StoreError>(policy.backend)
    &&& policy.model_id == prepared.backend_model.model_id
    &&& policy.reasoning == prepared.reasoning
    &&& policy.max_output_tokens == prepared.token_reservation.max_output_tokens
    &&& reads.authoritative == Ok::<PreparedPlannerReplannerV2Request, StoreError>(
        validated.authoritative,
    )
}

/// The request that a turn retained, with everything that it was built from; refused where it is not
/// exactly the one that is built anew.
pub fn validate_planner_v2_retained_prompt(
    contract: &Contract,
    prepared: &PlannerTurnPreparedV1,
    snapshot: PlannerReplannerV2PlanSnapshot,
    reads: PlannerPromptReads,
) -> (r: Result<ValidatedPlannerV2DurableRequest, StoreError>)
    ensures
        match (r, prompt_verdict(*contract, *prepared, snapshot, reads)) {
            (Ok(validated), Ok(())) => is_validated(validated, *prepared, snapshot, reads),
            (Err(error), Err(expected)) => error == expected,
            _ => false,
        },
{
    match check_planner_v2_retained_prompt(contract, prepared, &snapshot, &reads) {
        Ok(()) => {},
        Err(error) => return Err(error),
    }
    match (
        reads.obligations,
        reads.context,
        reads.packet,
        reads.delta,
        reads.policy,
        reads.bindings,
        reads.backend,
        reads.authoritative,
    ) {
        (
            Ok(protected_obligation_catalog),
            Ok(planner_context_catalog),
            Ok(evidence_packet),
            Ok(evidence_delta),
            Ok(planner_policy),
            Ok(bindings),
            Ok(backend),
            Ok(authoritative),
        ) => {
            let policy = PlannerReplannerInferencePolicy {
                backend,
                model_id: prepared.backend_model.model_id.clone(),
                reasoning: prepared.reasoning,
                max_output_tokens: prepared.token_reservation.max_output_tokens as u32,
            };
            let material = PlannerReplannerV2InvocationMaterial {
                base_plan: snapshot,
                protected_obligation_catalog,
                planner_context_catalog,
                evidence_packet,
                evidence_delta,
                planner_policy,
                bindings,
            };
            Ok(
                ValidatedPlannerV2DurableRequest {
                    input: PlannerReplannerV2BuildInput { material, policy },
                    authoritative,
                },
            )
        },
        _ => Err(StoreError::InvalidStateEvent),
    }
}

/// A prepared turn with the request that it retained.
#[derive(Debug)]
pub struct PlannerV2PreparedMaterial<'a> {
    pub prepared_event: &'a EventEnvelope,
    pub request: ValidatedPlannerV2DurableRequest,
}

/// What is found of a prepared turn and the request that it retained.
pub open spec fn committed_verdict(
    contract: Contract,
    prepared_event: EventEnvelope,
    base: Result<PlannerReplannerV2PlanSnapshot, StoreError>,
    reads: PlannerPromptReads,
) -> Result<(), StoreError> {
    match crate::planner_v2_terminal::turn_in(prepared_event) {
        None => Err(StoreError::InvalidStateEvent),
        Some(prepared) => crate::error::and_next(
            crate::planner_v2_base::base_snapshot(contract, prepared.base_plan, base),
            prompt_verdict(contract, prepared, base->Ok_0, reads),
        ),
    }
}

/// A prepared turn with the request that it retained.
pub fn planner_v2_committed_material<'a>(
    contract: &Contract,
    prepared_event: &'a EventEnvelope,
    base: Result<PlannerReplannerV2PlanSnapshot, StoreError>,
    reads: PlannerPromptReads,
) -> (r: Result<PlannerV2PreparedMaterial<'a>, StoreError>)
    ensures
        match (r, committed_verdict(*contract, *prepared_event, base, reads)) {
            (Ok(material), Ok(())) => *material.prepared_event == *prepared_event && is_validated(
                material.request,
                crate::planner_v2_terminal::turn_in(*prepared_event)->0,
                base->Ok_0,
                reads,
            ),
            (Err(error), Err(expected)) => error == expected,
            _ => false,
        },
{
    let prepared = match &prepared_event.payload {
        EventPayload::PlannerTurnPreparedV1(prepared) => prepared,
        _ => return Err(StoreError::InvalidStateEvent),
    };
    match read_planner_base_snapshot(contract, &prepared.base_plan, &base) {
        Ok(_) => {},
        Err(error) => return Err(error),
    }
    match base {
        Ok(snapshot) => match validate_planner_v2_retained_prompt(
            contract,
            prepared,
            snapshot,
            reads,
        ) {
            Ok(request) => Ok(PlannerV2PreparedMaterial { prepared_event, request }),
            Err(error) => Err(error),
        },
        Err(error) => Err(error),
    }
}

} // verus!

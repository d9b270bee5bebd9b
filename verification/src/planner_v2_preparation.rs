//! The preparation of a planner turn: everything is fixed before the model is called.

use vstd::prelude::*;
use crate::artifact::{ArtifactRef, BackendKind, BackendModelRef, ModelLineage, Provenance};
use crate::clock::RuntimeClockReading;
use crate::contract::Contract;
use crate::digest::Sha256Digest;
use crate::error::StoreError;
use crate::event::{EventEnvelope, EventPayload, IdentifiedNewEvent, NewEvent};
use crate::history::MAX_SEQUENCE;
use crate::identity::{EventId, PlannerTurnId, RunId, SessionId};
use crate::inference_identity::{protocol_backend_instance_identity, ConfiguredBackend};
use crate::planner_prompt::{
    PlannerPolicyV2, PlannerProtectedObligationCatalogV2, PlannerReplannerV2Bindings,
    PlannerReplannerV2InvocationMaterial, PlannerReplannerV2PlanSnapshot,
    PreparedPlannerReplannerV2Request,
};
use crate::planner_turn::{
    PlannerBasePlanBindingV1, PlannerEvidenceDeltaV2, PlannerEvidencePacketV2,
    PlannerOutputBudgetV1, PlannerTurnPreparedV1, PlannerTurnPurposeV1,
};
use crate::planner_v2_base::read_planner_base_snapshot;
use crate::planner_v2_evidence::{
    build_planner_evidence, latest_planner_prepared_before, prompting_planner_purpose,
    BuiltPlannerEvidence, PlannerEvidenceInput,
};
use crate::planner_v2_history::PreparationReads;
use crate::planner_v2_replay_projection::{
    project_recon_run, DurableRunClaimProjection, PlannerNextAction, ReconReads,
    ReconRunProjection,
};
use crate::planner_v2_request::{
    check_planner_v2_retained_prompt, prompt_reasoning, PlannerReplannerInferencePolicy,
    PlannerReplannerV2BuildInput,
};
use crate::planning_ground::expected_backend_selection;
use crate::run::{ReasoningSetting, Run, RunClaimed, TokenReservation};
use crate::store::Store;
use crate::text::{Same, Text};

verus! {

/// The identities, the model, the budget and the clock that a turn is prepared under.
#[derive(Debug)]
pub struct PlannerV2PreparationAuthority {
    pub event_id: EventId,
    pub turn_id: PlannerTurnId,
    pub initial_plan_id: Option<Text>,
    pub protected_obligation_catalog: PlannerProtectedObligationCatalogV2,
    pub planner_policy: PlannerPolicyV2,
    pub backend_model: BackendModelRef,
    pub backend_instance: ConfiguredBackend,
    pub model_lineage: ModelLineage,
    pub reasoning: Option<ReasoningSetting>,
    pub token_reservation: TokenReservation,
    pub output_budget: PlannerOutputBudgetV1,
    pub prepared_at: RuntimeClockReading,
}

/// What is read, made and written before the request of a turn is built: where the run stands;
/// whether the reservation, the backend's name and the lineage are valid; the digest and the artifact
/// of an empty plan; what the turn before retained; the plan that is built on; the evidence; the
/// digest and the artifact of the prompt's manifest; and whether the inference policy is valid.
#[derive(Debug)]
pub struct PlannerPreparationReads {
    pub recon: ReconReads,
    pub reservation_is_valid: bool,
    pub backend_is_intact: bool,
    pub lineage_is_valid: bool,
    pub initial_plan_sha256: Option<Text>,
    pub initial_plan_artifact: Result<ArtifactRef, StoreError>,
    pub previous: PreparationReads,
    pub base: Result<PlannerReplannerV2PlanSnapshot, StoreError>,
    pub evidence: PlannerEvidenceInput,
    pub manifest_sha256: Result<Text, StoreError>,
    pub manifest_artifact: Result<ArtifactRef, StoreError>,
    pub inference_policy: Result<(), StoreError>,
}

/// What comes of a request: the request itself, whether it fits its reservation, the artifacts that the
/// prompt and the request were written to, whether the backend's name is intact, and the digest that
/// the protocol gives it.
#[derive(Debug)]
pub struct PlannerRequestResults {
    pub request: Result<PreparedPlannerReplannerV2Request, StoreError>,
    pub fits_reservation: Result<bool, StoreError>,
    pub prompt_artifact: Result<ArtifactRef, StoreError>,
    pub request_artifact: Result<ArtifactRef, StoreError>,
    pub backend_is_intact: bool,
    pub protocol_digest: Option<Sha256Digest>,
}

/// The turn that is due: its purpose, the plan that it builds on and the turn that it retries.
#[derive(Clone, Copy, Debug)]
pub struct DueTurn<'a> {
    pub purpose: PlannerTurnPurposeV1,
    pub base_plan: Option<&'a PlannerBasePlanBindingV1>,
    pub retries: Option<EventId>,
}

/// The turn that is due, if one is.
pub open spec fn due_turn<'a>(action: PlannerNextAction<'a>) -> Option<DueTurn<'a>> {
    match action {
        PlannerNextAction::ReadyToPrepare { purpose, base_plan } => Some(
            DueTurn { purpose, base_plan, retries: None },
        ),
        PlannerNextAction::RetryPrepared {
            purpose,
            base_plan,
            prior_prepared_event_id,
            terminal_event_id,
        } => Some(
            DueTurn {
                purpose,
                base_plan: Some(base_plan),
                retries: Some(prior_prepared_event_id),
            },
        ),
        _ => None,
    }
}

fn find_due_turn<'a>(action: &PlannerNextAction<'a>) -> (r: Option<DueTurn<'a>>)
    ensures
        r == due_turn(*action),
{
    match action {
        PlannerNextAction::ReadyToPrepare { purpose, base_plan } => Some(
            DueTurn { purpose: *purpose, base_plan: *base_plan, retries: None },
        ),
        PlannerNextAction::RetryPrepared {
            purpose,
            base_plan,
            prior_prepared_event_id,
            terminal_event_id: _,
        } => Some(
            DueTurn {
                purpose: *purpose,
                base_plan: Some(*base_plan),
                retries: Some(*prior_prepared_event_id),
            },
        ),
        _ => None,
    }
}

/// Whether a budget and a reservation stay within each other and within the limits of a call.
pub open spec fn budget_fits(
    contract: Contract,
    reservation: TokenReservation,
    budget: PlannerOutputBudgetV1,
) -> bool {
    &&& reservation.max_output_tokens <= contract.recon.max_planner_output_tokens_per_call
    &&& budget.max_total_reserved_output_tokens != 0
    &&& budget.max_output_tokens_per_call != 0
    &&& budget.max_output_tokens_per_call <= contract.recon.max_planner_output_tokens_per_call
    &&& reservation.max_output_tokens <= budget.max_output_tokens_per_call
}

/// Whether a budget and a reservation stay within each other and within the limits of a call.
pub fn is_within_budget(
    contract: &Contract,
    reservation: &TokenReservation,
    budget: &PlannerOutputBudgetV1,
) -> (r: bool)
    ensures
        r == budget_fits(*contract, *reservation, *budget),
{
    reservation.max_output_tokens <= contract.recon.max_planner_output_tokens_per_call
        && budget.max_total_reserved_output_tokens != 0 && budget.max_output_tokens_per_call != 0
        && budget.max_output_tokens_per_call <= contract.recon.max_planner_output_tokens_per_call
        && reservation.max_output_tokens <= budget.max_output_tokens_per_call
}

/// Whether a run's own limit allows a budget and a reservation.
pub open spec fn run_allows(
    run: Run,
    reservation: TokenReservation,
    budget: PlannerOutputBudgetV1,
) -> bool {
    run.spec.limits.max_output_tokens matches Some(limit) ==> {
        &&& budget.max_total_reserved_output_tokens <= limit
        &&& reservation.max_output_tokens <= limit
    }
}

/// Whether a run's own limit allows a budget and a reservation.
pub fn is_allowed_by_run(
    run: &Run,
    reservation: &TokenReservation,
    budget: &PlannerOutputBudgetV1,
) -> (r: bool)
    ensures
        r == run_allows(*run, *reservation, *budget),
{
    match run.spec.limits.max_output_tokens {
        Some(limit) => budget.max_total_reserved_output_tokens <= limit
            && reservation.max_output_tokens <= limit,
        None => true,
    }
}

/// Whether a model, its backend and its lineage name each other.
pub open spec fn model_fits(authority: PlannerV2PreparationAuthority) -> bool {
    let model = authority.backend_model;
    let lineage = authority.model_lineage;
    &&& model.kind == BackendKind::Model
    &&& authority.backend_instance.backend_id@ == model.backend_id@
    &&& authority.backend_instance.deployment_id@ == lineage.deployment_id@
    &&& lineage.backend_id@ == model.backend_id@
    &&& lineage.model_id@ == model.model_id@
}

fn is_fitting_model(authority: &PlannerV2PreparationAuthority) -> (r: bool)
    ensures
        r == model_fits(*authority),
{
    let model = &authority.backend_model;
    let lineage = &authority.model_lineage;
    model.kind == BackendKind::Model && authority.backend_instance.backend_id == model.backend_id
        && authority.backend_instance.deployment_id == lineage.deployment_id && lineage.backend_id
        == model.backend_id && lineage.model_id == model.model_id
}

/// Whether the obligations and the policy have the digests that they amount to.
pub open spec fn digests_fit(authority: PlannerV2PreparationAuthority) -> bool {
    let catalog = authority.protected_obligation_catalog;
    let policy = authority.planner_policy;
    &&& catalog.derived_snapshot_sha256 matches Some(derived) && derived@
        == catalog.snapshot_sha256@
    &&& policy.derived_policy_sha256 matches Some(derived) && derived@ == policy.policy_sha256@
}

fn has_fitting_digests(authority: &PlannerV2PreparationAuthority) -> (r: bool)
    ensures
        r == digests_fit(*authority),
{
    let catalog = &authority.protected_obligation_catalog;
    let policy = &authority.planner_policy;
    let catalog_fits = match &catalog.derived_snapshot_sha256 {
        Some(derived) => *derived == catalog.snapshot_sha256,
        None => false,
    };
    let policy_fits = match &policy.derived_policy_sha256 {
        Some(derived) => *derived == policy.policy_sha256,
        None => false,
    };
    catalog_fits && policy_fits
}

/// Whether a turn may be prepared now under an authority: the claim is current, nothing was
/// cancelled, there is room for a turn, and the authority fits the claim and itself.
pub open spec fn authority_fits(
    contract: Contract,
    projection: ReconRunProjection,
    claim: RunClaimed,
    authority: PlannerV2PreparationAuthority,
    reads: PlannerPreparationReads,
) -> bool {
    &&& projection.guard.claim_matches_cancellation_generation
    &&& projection.guard.cancellation_generation == 0
    &&& projection.planner.prepared_turn_count < contract.recon.max_planner_turns
    &&& reads.reservation_is_valid
    &&& budget_fits(contract, authority.token_reservation, authority.output_budget)
    &&& authority.prepared_at.runtime_instance_id == claim.runtime_instance_id
    &&& model_fits(authority)
    &&& reads.backend_is_intact
    &&& reads.lineage_is_valid
    &&& digests_fit(authority)
}

fn is_fitting_authority(
    contract: &Contract,
    projection: &ReconRunProjection,
    claim: &RunClaimed,
    authority: &PlannerV2PreparationAuthority,
    reads: &PlannerPreparationReads,
) -> (r: bool)
    ensures
        r == authority_fits(*contract, *projection, *claim, *authority, *reads),
{
    projection.guard.claim_matches_cancellation_generation
        && projection.guard.cancellation_generation == 0 && projection.planner.prepared_turn_count
        < contract.recon.max_planner_turns && reads.reservation_is_valid && is_within_budget(
        contract,
        &authority.token_reservation,
        &authority.output_budget,
    ) && authority.prepared_at.runtime_instance_id == claim.runtime_instance_id && is_fitting_model(
        authority,
    ) && reads.backend_is_intact && reads.lineage_is_valid && has_fitting_digests(authority)
}

/// What is found of the plan that a first turn begins with: it was written, and there is an accepted
/// root plan to anchor it.
pub open spec fn initial_verdict(
    projection: ReconRunProjection,
    authority: PlannerV2PreparationAuthority,
    reads: PlannerPreparationReads,
) -> Result<(), StoreError> {
    if authority.initial_plan_id is None {
        Err(StoreError::InvalidStateEvent)
    } else {
        match reads.initial_plan_artifact {
            Err(error) => Err(error),
            Ok(artifact) => crate::error::demand(
                projection.planner.accepted_root_plan is Some
                    && crate::digest::is_canonical_digest(artifact.sha256@),
            ),
        }
    }
}

/// Whether a plan is the empty plan with which the first turn of an authority begins.
pub open spec fn is_initial_plan(
    snapshot: PlannerReplannerV2PlanSnapshot,
    authority: PlannerV2PreparationAuthority,
    content_sha256: Option<Text>,
) -> bool {
    &&& crate::planner_v2_base::is_empty_plan(snapshot)
    &&& authority.initial_plan_id == Some(snapshot.plan_id)
    &&& snapshot.obligation_snapshot_sha256
        == authority.protected_obligation_catalog.snapshot_sha256
    &&& snapshot.acceptance_policy_sha256
        == authority.protected_obligation_catalog.acceptance_policy_sha256
    &&& snapshot.content_sha256 == content_sha256
}

/// The binding of the empty plan with which a first turn begins.
pub open spec fn initial_binding(
    projection: ReconRunProjection,
    artifact: ArtifactRef,
) -> PlannerBasePlanBindingV1 {
    PlannerBasePlanBindingV1 {
        accepted_event_id: projection.planner.accepted_root_plan->0.accepted_plan_event_id,
        revision: 0,
        digest: Sha256Digest::written_as(artifact.sha256),
        artifact,
    }
}

fn begin_plan(
    projection: &ReconRunProjection,
    authority: &PlannerV2PreparationAuthority,
    content_sha256: Option<Text>,
    artifact: Result<ArtifactRef, StoreError>,
    Ghost(reads): Ghost<PlannerPreparationReads>,
) -> (r: Result<(PlannerBasePlanBindingV1, PlannerReplannerV2PlanSnapshot), StoreError>)
    requires
        content_sha256 == reads.initial_plan_sha256,
        artifact == reads.initial_plan_artifact,
    ensures
        match (r, initial_verdict(*projection, *authority, reads)) {
            (Ok((binding, snapshot)), Ok(())) => binding == initial_binding(
                *projection,
                reads.initial_plan_artifact->Ok_0,
            ) && is_initial_plan(snapshot, *authority, content_sha256),
            (Err(error), Err(expected)) => error == expected,
            _ => false,
        },
{
    let plan_id = match &authority.initial_plan_id {
        Some(plan_id) => plan_id,
        None => return Err(StoreError::InvalidStateEvent),
    };
    let snapshot = PlannerReplannerV2PlanSnapshot {
        schema_version: 1,
        plan_id: plan_id.clone(),
        revision: 0,
        parent_plan_sha256: None,
        obligation_snapshot_sha256: authority.protected_obligation_catalog.snapshot_sha256.clone(),
        acceptance_policy_sha256:
            authority.protected_obligation_catalog.acceptance_policy_sha256.clone(),
        strategy_summary: Text::of(""),
        verification_targets: Vec::new(),
        work_orders: Vec::new(),
        content_sha256,
    };
    proof {
        reveal_strlit("");
    }
    let artifact = match artifact {
        Ok(artifact) => artifact,
        Err(error) => return Err(error),
    };
    let root = match &projection.planner.accepted_root_plan {
        Some(root) => root,
        None => return Err(StoreError::InvalidStateEvent),
    };
    match Sha256Digest::parse(&artifact.sha256) {
        Some(digest) => Ok(
            (
                PlannerBasePlanBindingV1 {
                    accepted_event_id: root.accepted_plan_event_id,
                    revision: 0,
                    digest,
                    artifact,
                },
                snapshot,
            ),
        ),
        None => Err(StoreError::InvalidStateEvent),
    }
}

/// Whether the turn before was prepared under the same obligations and the same policy.
pub open spec fn same_authority(
    authority: PlannerV2PreparationAuthority,
    previous: PreparationReads,
) -> bool {
    &&& previous.prompt.obligations matches Ok(catalog) && catalog.same(
        &authority.protected_obligation_catalog,
    )
    &&& previous.prompt.policy matches Ok(policy) && policy.same(&authority.planner_policy)
}

fn is_same_authority(
    authority: &PlannerV2PreparationAuthority,
    previous: &PreparationReads,
) -> (r: bool)
    ensures
        r == same_authority(*authority, *previous),
{
    let same_catalog = match &previous.prompt.obligations {
        Ok(catalog) => *catalog == authority.protected_obligation_catalog,
        Err(_) => false,
    };
    let same_policy = match &previous.prompt.policy {
        Ok(policy) => *policy == authority.planner_policy,
        Err(_) => false,
    };
    same_catalog && same_policy
}

/// Whether a retried turn is exactly the turn before, on the same plan.
pub open spec fn retries_previous(
    previous: EventEnvelope,
    retries: EventId,
    binding: PlannerBasePlanBindingV1,
) -> bool {
    &&& previous.id == retries
    &&& crate::planner_v2_terminal::turn_in(previous) matches Some(prepared)
        && prepared.base_plan.same(&binding)
}

fn is_retry_of_previous(
    previous: &EventEnvelope,
    retries: EventId,
    binding: &PlannerBasePlanBindingV1,
) -> (r: bool)
    ensures
        r == retries_previous(*previous, retries, *binding),
{
    match &previous.payload {
        EventPayload::PlannerTurnPreparedV1(prepared) => previous.id == retries
            && prepared.base_plan == *binding,
        _ => false,
    }
}

/// What is found of the plan that a later turn builds on: the turn before retained its request, was
/// prepared under the same authority and, in a retry, is the one that is retried.
pub open spec fn later_verdict(
    store: Store,
    session_id: SessionId,
    run_id: RunId,
    authority: PlannerV2PreparationAuthority,
    binding: PlannerBasePlanBindingV1,
    retries: Option<EventId>,
    reads: PlannerPreparationReads,
) -> Result<(), StoreError> {
    let base = crate::planner_v2_base::base_snapshot(store.contract, binding, reads.base);
    let previous = crate::planner_v2_evidence::latest_preparation_before(
        store.log@,
        session_id,
        run_id,
        MAX_SEQUENCE,
    );
    if authority.initial_plan_id is Some {
        Err(StoreError::InvalidStateEvent)
    } else {
        match retries {
            Some(retried) => match previous {
                None => Err(StoreError::InvalidStateEvent),
                Some(event) => crate::error::and_next(
                    previous_verdict(store.contract, event, reads.previous),
                    crate::error::and_next(
                        crate::error::demand(
                            retries_previous(event, retried, binding) && same_authority(
                                authority,
                                reads.previous,
                            ),
                        ),
                        base,
                    ),
                ),
            },
            None => crate::error::and_next(
                base,
                match previous {
                    None => Err(StoreError::InvalidStateEvent),
                    Some(event) => crate::error::and_next(
                        previous_verdict(store.contract, event, reads.previous),
                        crate::error::demand(same_authority(authority, reads.previous)),
                    ),
                },
            ),
        }
    }
}

/// What is found of the request that the turn before retained.
pub open spec fn previous_verdict(
    contract: Contract,
    event: EventEnvelope,
    reads: PreparationReads,
) -> Result<(), StoreError> {
    crate::planner_v2_request::committed_verdict(contract, event, reads.base, reads.prompt)
}

fn check_previous(contract: &Contract, event: &EventEnvelope, reads: &PreparationReads) -> (r:
    Result<(), StoreError>)
    ensures
        r == previous_verdict(*contract, *event, *reads),
{
    match &event.payload {
        EventPayload::PlannerTurnPreparedV1(prepared) => match read_planner_base_snapshot(
            contract,
            &prepared.base_plan,
            &reads.base,
        ) {
            Ok(base) => check_planner_v2_retained_prompt(contract, prepared, base, &reads.prompt),
            Err(error) => Err(error),
        },
        _ => Err(StoreError::InvalidStateEvent),
    }
}

fn check_later_base(
    store: &Store,
    session_id: SessionId,
    run_id: RunId,
    authority: &PlannerV2PreparationAuthority,
    binding: &PlannerBasePlanBindingV1,
    retries: Option<EventId>,
    reads: &PlannerPreparationReads,
) -> (r: Result<(), StoreError>)
    ensures
        r == later_verdict(*store, session_id, run_id, *authority, *binding, retries, *reads),
{
    if authority.initial_plan_id.is_some() {
        return Err(StoreError::InvalidStateEvent);
    }
    let previous = latest_planner_prepared_before(&store.log, session_id, run_id, MAX_SEQUENCE);
    match retries {
        Some(retried) => {
            let event = match previous {
                Some(event) => event,
                None => return Err(StoreError::InvalidStateEvent),
            };
            match check_previous(&store.contract, event, &reads.previous) {
                Ok(()) => {},
                Err(error) => return Err(error),
            }
            if !is_retry_of_previous(event, retried, binding) || !is_same_authority(
                authority,
                &reads.previous,
            ) {
                return Err(StoreError::InvalidStateEvent);
            }
            match read_planner_base_snapshot(&store.contract, binding, &reads.base) {
                Ok(_) => Ok(()),
                Err(error) => Err(error),
            }
        },
        None => {
            match read_planner_base_snapshot(&store.contract, binding, &reads.base) {
                Ok(_) => {},
                Err(error) => return Err(error),
            }
            let event = match previous {
                Some(event) => event,
                None => return Err(StoreError::InvalidStateEvent),
            };
            match check_previous(&store.contract, event, &reads.previous) {
                Ok(()) => {},
                Err(error) => return Err(error),
            }
            if is_same_authority(authority, &reads.previous) {
                Ok(())
            } else {
                Err(StoreError::InvalidStateEvent)
            }
        },
    }
}

/// Whether the turn that is due begins a plan.
pub open spec fn begins_plan(due: DueTurn) -> bool {
    due.purpose == PlannerTurnPurposeV1::InitialDelegation && due.base_plan is None
}

/// What is found of the plan that the due turn builds on.
#[verifier::opaque]
pub open spec fn base_verdict(
    store: Store,
    projection: ReconRunProjection,
    authority: PlannerV2PreparationAuthority,
    due: DueTurn,
    reads: PlannerPreparationReads,
) -> Result<(), StoreError> {
    if begins_plan(due) {
        initial_verdict(projection, authority, reads)
    } else {
        match due.base_plan {
            Some(binding) => if due.retries is Some || due.purpose
                == PlannerTurnPurposeV1::EvidenceReplan {
                later_verdict(
                    store,
                    projection.session_id,
                    projection.run_id,
                    authority,
                    *binding,
                    due.retries,
                    reads,
                )
            } else {
                Err(StoreError::InvalidStateEvent)
            },
            None => Err(StoreError::InvalidStateEvent),
        }
    }
}

/// Whether a plan is the one that the due turn builds on.
pub open spec fn is_base_of_turn(
    projection: ReconRunProjection,
    authority: PlannerV2PreparationAuthority,
    due: DueTurn,
    reads: PlannerPreparationReads,
    binding: PlannerBasePlanBindingV1,
    snapshot: PlannerReplannerV2PlanSnapshot,
) -> bool {
    if begins_plan(due) {
        binding == initial_binding(projection, reads.initial_plan_artifact->Ok_0)
            && is_initial_plan(snapshot, authority, reads.initial_plan_sha256)
    } else {
        binding == *due.base_plan->0 && reads.base == Ok::<
            PlannerReplannerV2PlanSnapshot,
            StoreError,
        >(snapshot)
    }
}

/// Whether the plan that a due turn builds on is planned under the authority's obligations.
pub open spec fn base_obligations_fit(
    authority: PlannerV2PreparationAuthority,
    due: DueTurn,
    reads: PlannerPreparationReads,
) -> bool {
    begins_plan(due) || {
        let snapshot = reads.base->Ok_0;
        &&& snapshot.obligation_snapshot_sha256@
            == authority.protected_obligation_catalog.snapshot_sha256@
        &&& snapshot.acceptance_policy_sha256@
            == authority.protected_obligation_catalog.acceptance_policy_sha256@
    }
}

/// Whether what the evidence is built from is what the due turn needs.
pub open spec fn evidence_input_fits(due: DueTurn, input: PlannerEvidenceInput) -> bool {
    match input {
        PlannerEvidenceInput::Retry { prepared_event_id, reads } => due.retries == Some(
            prepared_event_id,
        ),
        PlannerEvidenceInput::Fresh { reads } => due.retries is None,
    }
}

fn has_fitting_input(due: &DueTurn, input: &PlannerEvidenceInput) -> (r: bool)
    ensures
        r == evidence_input_fits(*due, *input),
{
    match input {
        PlannerEvidenceInput::Retry { prepared_event_id, reads: _ } => due.retries == Some(
            *prepared_event_id,
        ),
        PlannerEvidenceInput::Fresh { reads: _ } => due.retries.is_none(),
    }
}

/// What is found of the prompt's manifest: it was written, under its digest.
pub open spec fn manifest_verdict(
    manifest_sha256: Result<Text, StoreError>,
    manifest_artifact: Result<ArtifactRef, StoreError>,
) -> Result<(), StoreError> {
    match (manifest_sha256, manifest_artifact) {
        (Err(error), _) => Err(error),
        (Ok(_), Err(error)) => Err(error),
        (Ok(digest), Ok(artifact)) => crate::error::demand(artifact.sha256@ == digest@),
    }
}

/// What is found of everything that the request of the due turn is built from.
pub open spec fn turn_verdict(
    store: Store,
    projection: ReconRunProjection,
    authority: PlannerV2PreparationAuthority,
    due: DueTurn,
    reads: PlannerPreparationReads,
) -> Result<(), StoreError> {
    crate::error::and_next(
        base_verdict(store, projection, authority, due, reads),
        crate::error::and_next(
            crate::error::demand(base_obligations_fit(authority, due, reads)),
            crate::error::and_next(
                crate::error::demand(evidence_input_fits(due, reads.evidence)),
                crate::error::and_next(
                    crate::planner_v2_evidence::evidence_verdict(
                        store,
                        projection.session_id,
                        projection.run_id,
                        due.purpose,
                        reads.evidence,
                    ),
                    crate::error::and_next(
                        manifest_verdict(reads.manifest_sha256, reads.manifest_artifact),
                        crate::error::and_next(
                            crate::error::demand(
                                authority.token_reservation.max_output_tokens <= u32::MAX,
                            ),
                            reads.inference_policy,
                        ),
                    ),
                ),
            ),
        ),
    )
}

/// What is found of a turn that is to be prepared, before its request is built.
pub open spec fn plan_verdict(
    store: Store,
    run_id: RunId,
    authority: PlannerV2PreparationAuthority,
    reads: PlannerPreparationReads,
) -> Result<(), StoreError> {
    match crate::planner_v2_replay_projection::projected(store, run_id, reads.recon) {
        Err(error) => Err(error),
        Ok(None) => Err(StoreError::InvalidStateEvent),
        Ok(Some(projection)) => match (
            due_turn(projection.planner.next_action),
            projection.guard.latest_claim,
            crate::planning_ground::run_of(store, projection.session_id, run_id),
        ) {
            (Some(due), Some(claim), Some(run)) => if !authority_fits(
                store.contract,
                projection,
                *claim.claim,
                authority,
                reads,
            ) || !run_allows(run, authority.token_reservation, authority.output_budget) {
                Err(StoreError::InvalidStateEvent)
            } else {
                turn_verdict(store, projection, authority, due, reads)
            },
            _ => Err(StoreError::InvalidStateEvent),
        },
    }
}

/// A turn with everything that its request is built from.
#[derive(Debug)]
pub struct PlannedTurn<'a> {
    pub projection: ReconRunProjection<'a>,
    pub claim: DurableRunClaimProjection<'a>,
    pub run: &'a Run,
    pub purpose: PlannerTurnPurposeV1,
    pub base_plan: PlannerBasePlanBindingV1,
    pub input: PlannerReplannerV2BuildInput,
    pub durable_packet: PlannerEvidencePacketV2,
    pub durable_delta: PlannerEvidenceDeltaV2,
    pub prompt_packet_artifact: ArtifactRef,
    pub prompt_delta_artifact: ArtifactRef,
    pub durable_packet_artifact: ArtifactRef,
    pub durable_delta_artifact: ArtifactRef,
    pub prompt_manifest_artifact: ArtifactRef,
}

/// Whether bindings are those of a turn that is prepared under an authority.
pub open spec fn binds_turn(
    contract: Contract,
    bindings: PlannerReplannerV2Bindings,
    authority: PlannerV2PreparationAuthority,
    purpose: PlannerTurnPurposeV1,
    base_plan: PlannerBasePlanBindingV1,
    material: PlannerReplannerV2InvocationMaterial,
    manifest_sha256: Text,
) -> bool {
    let catalog = authority.protected_obligation_catalog;
    &&& bindings.purpose == prompting_planner_purpose(purpose)
    &&& bindings.prompt_id == contract.prompts.planner_replanner_id
    &&& bindings.prompt_version == contract.prompts.planner_replanner_version
    &&& bindings.prompt_manifest_sha256 == manifest_sha256
    &&& bindings.plan_id == material.base_plan.plan_id
    &&& bindings.base_revision == material.base_plan.revision
    &&& bindings.base_plan_sha256@ == base_plan.digest@
    &&& bindings.obligation_snapshot_sha256 == catalog.snapshot_sha256
    &&& bindings.acceptance_policy_sha256 == catalog.acceptance_policy_sha256
    &&& bindings.context_manifest_sha256 == material.planner_context_catalog.manifest_sha256
    &&& bindings.planner_policy_sha256 == authority.planner_policy.policy_sha256
    &&& bindings.evidence_packet_sha256 == material.evidence_packet.packet_sha256
    &&& bindings.previous_evidence_packet_sha256 == material.evidence_delta.previous_packet_sha256
    &&& bindings.evidence_delta_sha256 == material.evidence_delta.delta_sha256
    &&& bindings.backend_id == authority.backend_model.backend_id
    &&& bindings.backend_configured_deployment_id == authority.backend_instance.deployment_id
    &&& bindings.backend_endpoint_origin == authority.backend_instance.origin
    &&& bindings.backend_instance_sha256@ == authority.backend_instance.identity_sha256@
    &&& bindings.model_id == authority.backend_model.model_id
    &&& bindings.reasoning == prompt_reasoning(authority.reasoning)
    &&& bindings.budget_reservation_id == authority.token_reservation.id
    &&& bindings.max_output_tokens == authority.token_reservation.max_output_tokens
}

/// Whether a policy is that of an authority.
pub open spec fn is_policy_of(
    policy: PlannerReplannerInferencePolicy,
    authority: PlannerV2PreparationAuthority,
) -> bool {
    &&& policy.backend == authority.backend_instance
    &&& policy.model_id == authority.backend_model.model_id
    &&& policy.reasoning == authority.reasoning
    &&& policy.max_output_tokens == authority.token_reservation.max_output_tokens
}

/// The evidence that a planned turn is prepared with.
pub open spec fn planned_evidence(planned: PlannedTurn) -> BuiltPlannerEvidence {
    BuiltPlannerEvidence {
        context: planned.input.material.planner_context_catalog,
        prompt_packet: planned.input.material.evidence_packet,
        prompt_delta: planned.input.material.evidence_delta,
        durable_packet: planned.durable_packet,
        durable_delta: planned.durable_delta,
        prompt_packet_artifact: planned.prompt_packet_artifact,
        prompt_delta_artifact: planned.prompt_delta_artifact,
        durable_packet_artifact: planned.durable_packet_artifact,
        durable_delta_artifact: planned.durable_delta_artifact,
    }
}

/// Whether a planned turn is the one that is due, and has everything that its request is built from.
pub open spec fn is_planned(
    store: Store,
    run_id: RunId,
    authority: PlannerV2PreparationAuthority,
    reads: PlannerPreparationReads,
    planned: PlannedTurn,
) -> bool {
    let material = planned.input.material;
    &&& crate::planner_v2_replay_projection::projected(store, run_id, reads.recon) == Ok::<
        Option<ReconRunProjection>,
        StoreError,
    >(Some(planned.projection))
    &&& planned.projection.guard.latest_claim == Some(planned.claim)
    &&& crate::planning_ground::run_of(store, planned.projection.session_id, run_id) == Some(
        *planned.run,
    )
    &&& due_turn(planned.projection.planner.next_action) matches Some(due) && {
        &&& planned.purpose == due.purpose
        &&& is_base_of_turn(
            planned.projection,
            authority,
            due,
            reads,
            planned.base_plan,
            material.base_plan,
        )
    }
    &&& crate::planner_v2_evidence::is_evidence_of_turn(
        store,
        planned.projection.session_id,
        planned.projection.run_id,
        planned.purpose,
        reads.evidence,
        planned_evidence(planned),
    )
    &&& material.protected_obligation_catalog == authority.protected_obligation_catalog
    &&& material.planner_policy == authority.planner_policy
    &&& binds_turn(
        store.contract,
        material.bindings,
        authority,
        planned.purpose,
        planned.base_plan,
        material,
        reads.manifest_sha256->Ok_0,
    )
    &&& is_policy_of(planned.input.policy, authority)
    &&& reads.manifest_artifact == Ok::<ArtifactRef, StoreError>(planned.prompt_manifest_artifact)
}

fn copy_backend(backend: &ConfiguredBackend) -> (r: ConfiguredBackend)
    ensures
        r == *backend,
{
    ConfiguredBackend {
        backend_id: backend.backend_id.clone(),
        origin: backend.origin.clone(),
        deployment_id: backend.deployment_id.clone(),
        identity_sha256: backend.identity_sha256.clone(),
    }
}

fn copy_text(text: &Option<Text>) -> (r: Option<Text>)
    ensures
        r == *text,
{
    match text {
        Some(text) => Some(text.clone()),
        None => None,
    }
}

/// The plan that the due turn builds on.
fn choose_base(
    store: &Store,
    projection: &ReconRunProjection,
    authority: &PlannerV2PreparationAuthority,
    due: &DueTurn,
    reads: &PlannerPreparationReads,
) -> (r: Result<Option<PlannerBasePlanBindingV1>, StoreError>)
    ensures
        match (r, base_verdict(*store, *projection, *authority, *due, *reads)) {
            (Ok(Some(binding)), Ok(())) => !begins_plan(*due) && binding == *due.base_plan->0
                && reads.base is Ok,
            (Ok(None), verdict) => begins_plan(*due) && verdict == initial_verdict(
                *projection,
                *authority,
                *reads,
            ),
            (Err(error), Err(expected)) => !begins_plan(*due) && error == expected,
            _ => false,
        },
{
    proof {
        reveal(base_verdict);
    }
    if due.purpose == PlannerTurnPurposeV1::InitialDelegation && due.base_plan.is_none() {
        return Ok(None);
    }
    match due.base_plan {
        Some(binding) => if due.retries.is_some() || due.purpose
            == PlannerTurnPurposeV1::EvidenceReplan {
            match check_later_base(
                store,
                projection.session_id,
                projection.run_id,
                authority,
                binding,
                due.retries,
                reads,
            ) {
                Ok(()) => Ok(Some(binding.clone())),
                Err(error) => Err(error),
            }
        } else {
            Err(StoreError::InvalidStateEvent)
        },
        None => Err(StoreError::InvalidStateEvent),
    }
}

fn bind_turn(
    contract: &Contract,
    authority: &PlannerV2PreparationAuthority,
    purpose: PlannerTurnPurposeV1,
    base_plan: &PlannerBasePlanBindingV1,
    snapshot: PlannerReplannerV2PlanSnapshot,
    evidence_context: crate::planner_prompt::PlannerReplannerV2ContextCatalog,
    evidence_packet: crate::planner_prompt::PlannerReplannerV2EvidencePacket,
    evidence_delta: crate::planner_prompt::PlannerReplannerV2EvidenceDelta,
    manifest_sha256: &Text,
) -> (r: PlannerReplannerV2InvocationMaterial)
    requires
        authority.token_reservation.max_output_tokens <= u32::MAX,
    ensures
        r.base_plan == snapshot,
        r.planner_context_catalog == evidence_context,
        r.evidence_packet == evidence_packet,
        r.evidence_delta == evidence_delta,
        r.protected_obligation_catalog == authority.protected_obligation_catalog,
        r.planner_policy == authority.planner_policy,
        binds_turn(
            *contract,
            r.bindings,
            *authority,
            purpose,
            *base_plan,
            r,
            *manifest_sha256,
        ),
{
    let catalog = &authority.protected_obligation_catalog;
    let bindings = PlannerReplannerV2Bindings {
        purpose: prompting_planner_purpose(purpose),
        prompt_id: contract.prompts.planner_replanner_id.clone(),
        prompt_version: contract.prompts.planner_replanner_version.clone(),
        prompt_manifest_sha256: manifest_sha256.clone(),
        plan_id: snapshot.plan_id.clone(),
        base_revision: snapshot.revision,
        base_plan_sha256: base_plan.digest.as_text().clone(),
        obligation_snapshot_sha256: catalog.snapshot_sha256.clone(),
        acceptance_policy_sha256: catalog.acceptance_policy_sha256.clone(),
        context_manifest_sha256: evidence_context.manifest_sha256.clone(),
        planner_policy_sha256: authority.planner_policy.policy_sha256.clone(),
        evidence_packet_sha256: evidence_packet.packet_sha256.clone(),
        previous_evidence_packet_sha256: copy_text(&evidence_delta.previous_packet_sha256),
        evidence_delta_sha256: evidence_delta.delta_sha256.clone(),
        backend_id: authority.backend_model.backend_id.clone(),
        backend_configured_deployment_id: authority.backend_instance.deployment_id.clone(),
        backend_endpoint_origin: authority.backend_instance.origin.clone(),
        backend_instance_sha256: authority.backend_instance.identity_sha256.as_text().clone(),
        model_id: authority.backend_model.model_id.clone(),
        reasoning: prompt_reasoning(authority.reasoning),
        budget_reservation_id: authority.token_reservation.id,
        max_output_tokens: authority.token_reservation.max_output_tokens as u32,
    };
    PlannerReplannerV2InvocationMaterial {
        base_plan: snapshot,
        protected_obligation_catalog: catalog.clone(),
        planner_context_catalog: evidence_context,
        evidence_packet,
        evidence_delta,
        planner_policy: authority.planner_policy.clone(),
        bindings,
    }
}

/// Plans the due turn: everything that its request is built from.
fn plan_due_turn<'a>(
    store: &'a Store,
    run: &'a Run,
    projection: ReconRunProjection<'a>,
    claim: DurableRunClaimProjection<'a>,
    due: DueTurn<'a>,
    authority: &PlannerV2PreparationAuthority,
    reads: PlannerPreparationReads,
) -> (r: Result<PlannedTurn<'a>, StoreError>)
    requires
        crate::planner_v2_replay_projection::projected(
            *store,
            projection.run_id,
            reads.recon,
        ) == Ok::<Option<ReconRunProjection>, StoreError>(Some(projection)),
        projection.guard.latest_claim == Some(claim),
        due_turn(projection.planner.next_action) == Some(due),
        crate::planning_ground::run_of(*store, projection.session_id, projection.run_id) == Some(
            *run,
        ),
    ensures
        match (r, turn_verdict(*store, projection, *authority, due, reads)) {
            (Ok(planned), Ok(())) => is_planned(
                *store,
                projection.run_id,
                *authority,
                reads,
                planned,
            ),
            (Err(error), Err(expected)) => error == expected,
            _ => false,
        },
{
    let ghost given = reads;
    let chosen = match choose_base(store, &projection, authority, &due, &reads) {
        Ok(chosen) => chosen,
        Err(error) => return Err(error),
    };
    let (base_plan, snapshot) = match chosen {
        Some(binding) => match reads.base {
            Ok(snapshot) => (binding, snapshot),
            Err(error) => return Err(error),
        },
        None => match begin_plan(
            &projection,
            authority,
            reads.initial_plan_sha256,
            reads.initial_plan_artifact,
            Ghost(given),
        ) {
            Ok(begun) => begun,
            Err(error) => return Err(error),
        },
    };
    if snapshot.obligation_snapshot_sha256 != authority.protected_obligation_catalog.snapshot_sha256
        || snapshot.acceptance_policy_sha256
        != authority.protected_obligation_catalog.acceptance_policy_sha256 {
        return Err(StoreError::InvalidStateEvent);
    }
    if !has_fitting_input(&due, &reads.evidence) {
        return Err(StoreError::InvalidStateEvent);
    }
    let evidence = match build_planner_evidence(
        store,
        projection.session_id,
        projection.run_id,
        due.purpose,
        reads.evidence,
    ) {
        Ok(evidence) => evidence,
        Err(error) => return Err(error),
    };
    let (manifest_sha256, prompt_manifest_artifact) = match (
        reads.manifest_sha256,
        reads.manifest_artifact,
    ) {
        (Err(error), _) => return Err(error),
        (Ok(_), Err(error)) => return Err(error),
        (Ok(digest), Ok(artifact)) => (digest, artifact),
    };
    if prompt_manifest_artifact.sha256 != manifest_sha256
        || authority.token_reservation.max_output_tokens > u32::MAX as u64 {
        return Err(StoreError::InvalidStateEvent);
    }
    match reads.inference_policy {
        Ok(()) => {},
        Err(error) => return Err(error),
    }
    let material = bind_turn(
        &store.contract,
        authority,
        due.purpose,
        &base_plan,
        snapshot,
        evidence.context,
        evidence.prompt_packet,
        evidence.prompt_delta,
        &manifest_sha256,
    );
    let policy = PlannerReplannerInferencePolicy {
        backend: copy_backend(&authority.backend_instance),
        model_id: authority.backend_model.model_id.clone(),
        reasoning: authority.reasoning,
        max_output_tokens: authority.token_reservation.max_output_tokens as u32,
    };
    Ok(
        PlannedTurn {
            projection,
            claim,
            run,
            purpose: due.purpose,
            base_plan,
            input: PlannerReplannerV2BuildInput { material, policy },
            durable_packet: evidence.durable_packet,
            durable_delta: evidence.durable_delta,
            prompt_packet_artifact: evidence.prompt_packet_artifact,
            prompt_delta_artifact: evidence.prompt_delta_artifact,
            durable_packet_artifact: evidence.durable_packet_artifact,
            durable_delta_artifact: evidence.durable_delta_artifact,
            prompt_manifest_artifact,
        },
    )
}

/// Plans the turn that is due for a run: everything that its request is built from.
pub fn plan_planner_v2_turn<'a>(
    store: &'a Store,
    run_id: RunId,
    authority: &PlannerV2PreparationAuthority,
    reads: PlannerPreparationReads,
) -> (r: Result<PlannedTurn<'a>, StoreError>)
    ensures
        match (r, plan_verdict(*store, run_id, *authority, reads)) {
            (Ok(planned), Ok(())) => is_planned(*store, run_id, *authority, reads, planned),
            (Err(error), Err(expected)) => error == expected,
            _ => false,
        },
{
    let projection = match project_recon_run(store, run_id, &reads.recon) {
        Ok(Some(projection)) => projection,
        Ok(None) => return Err(StoreError::InvalidStateEvent),
        Err(error) => return Err(error),
    };
    let due = match find_due_turn(&projection.planner.next_action) {
        Some(due) => due,
        None => return Err(StoreError::InvalidStateEvent),
    };
    let claim = match projection.guard.latest_claim {
        Some(claim) => claim,
        None => return Err(StoreError::InvalidStateEvent),
    };
    let run = match store.run_of_event(projection.session_id, run_id) {
        Some(run) => run,
        None => return Err(StoreError::InvalidStateEvent),
    };
    if !is_fitting_authority(&store.contract, &projection, claim.claim, authority, &reads)
        || !is_allowed_by_run(run, &authority.token_reservation, &authority.output_budget) {
        return Err(StoreError::InvalidStateEvent);
    }
    plan_due_turn(store, run, projection, claim, due, authority, reads)
}

/// Whether every digest that a prepared turn names can be read.
pub open spec fn digests_readable(
    planned: PlannedTurn,
    authority: PlannerV2PreparationAuthority,
    prompt_artifact: ArtifactRef,
    request_artifact: ArtifactRef,
) -> bool {
    let catalog = authority.protected_obligation_catalog;
    &&& crate::digest::is_canonical_digest(catalog.snapshot_sha256@)
    &&& crate::digest::is_canonical_digest(catalog.acceptance_policy_sha256@)
    &&& crate::digest::is_canonical_digest(
        planned.input.material.planner_context_catalog.manifest_sha256@,
    )
    &&& crate::digest::is_canonical_digest(authority.planner_policy.policy_sha256@)
    &&& crate::digest::is_canonical_digest(planned.durable_packet_artifact.sha256@)
    &&& crate::digest::is_canonical_digest(planned.durable_delta_artifact.sha256@)
    &&& crate::digest::is_canonical_digest(planned.prompt_packet_artifact.sha256@)
    &&& crate::digest::is_canonical_digest(planned.prompt_delta_artifact.sha256@)
    &&& crate::digest::is_canonical_digest(planned.prompt_manifest_artifact.sha256@)
    &&& crate::digest::is_canonical_digest(prompt_artifact.sha256@)
    &&& crate::digest::is_canonical_digest(request_artifact.sha256@)
}

/// Whether the protocol can name the backend of an authority.
pub open spec fn backend_named(
    authority: PlannerV2PreparationAuthority,
    results: PlannerRequestResults,
) -> bool {
    results.backend_is_intact && (results.protocol_digest matches Some(digest) && digest@
        == authority.backend_instance.identity_sha256@)
}

/// What is found of a planned turn once its request is built.
pub open spec fn finish_verdict(
    planned: PlannedTurn,
    authority: PlannerV2PreparationAuthority,
    results: PlannerRequestResults,
) -> Result<(), StoreError> {
    match (results.request, results.fits_reservation) {
        (Err(error), _) => Err(error),
        (Ok(_), Err(error)) => Err(error),
        (Ok(_), Ok(fits)) => if !fits {
            Err(StoreError::InvalidStateEvent)
        } else {
            match (results.prompt_artifact, results.request_artifact) {
                (Err(error), _) => Err(error),
                (Ok(_), Err(error)) => Err(error),
                (Ok(prompt_artifact), Ok(request_artifact)) => crate::error::demand(
                    digests_readable(planned, authority, prompt_artifact, request_artifact)
                        && backend_named(authority, results),
                ),
            }
        },
    }
}

/// The turn that is prepared.
pub open spec fn prepared_turn(
    contract: Contract,
    planned: PlannedTurn,
    authority: PlannerV2PreparationAuthority,
    prompt_artifact: ArtifactRef,
    request_artifact: ArtifactRef,
    backend_instance: crate::artifact::BackendInstanceIdentity,
) -> PlannerTurnPreparedV1 {
    let catalog = authority.protected_obligation_catalog;
    let claim = planned.claim;
    PlannerTurnPreparedV1 {
        schema_version: contract.versions.planner_turn,
        turn_id: authority.turn_id,
        purpose: planned.purpose,
        claim_event_id: claim.event.id,
        claim_id: claim.claim.claim_id,
        claim_generation: claim.claim.claim_generation,
        claim_runtime_instance_id: claim.claim.runtime_instance_id,
        cancellation_generation: planned.projection.guard.cancellation_generation,
        base_plan: planned.base_plan,
        obligation_snapshot_digest: Sha256Digest::written_as(catalog.snapshot_sha256),
        acceptance_policy_digest: Sha256Digest::written_as(catalog.acceptance_policy_sha256),
        context_manifest_digest: Sha256Digest::written_as(
            planned.input.material.planner_context_catalog.manifest_sha256,
        ),
        planner_policy_digest: Sha256Digest::written_as(authority.planner_policy.policy_sha256),
        durable_evidence_packet: planned.durable_packet,
        durable_evidence_packet_digest: Sha256Digest::written_as(
            planned.durable_packet_artifact.sha256,
        ),
        durable_evidence_packet_artifact: planned.durable_packet_artifact,
        durable_evidence_delta: planned.durable_delta,
        durable_evidence_delta_digest: Sha256Digest::written_as(
            planned.durable_delta_artifact.sha256,
        ),
        durable_evidence_delta_artifact: planned.durable_delta_artifact,
        prompt_evidence_packet_digest: Sha256Digest::written_as(
            planned.prompt_packet_artifact.sha256,
        ),
        prompt_evidence_packet_artifact: planned.prompt_packet_artifact,
        prompt_evidence_delta_digest: Sha256Digest::written_as(
            planned.prompt_delta_artifact.sha256,
        ),
        prompt_evidence_delta_artifact: planned.prompt_delta_artifact,
        backend_model: authority.backend_model,
        backend_instance,
        model_lineage: authority.model_lineage,
        reasoning: authority.reasoning,
        prompt_manifest_digest: Sha256Digest::written_as(planned.prompt_manifest_artifact.sha256),
        prompt_manifest_artifact: planned.prompt_manifest_artifact,
        prompt_digest: Sha256Digest::written_as(prompt_artifact.sha256),
        prompt_artifact,
        request_digest: Sha256Digest::written_as(request_artifact.sha256),
        request_artifact,
        token_reservation: authority.token_reservation,
        output_budget: authority.output_budget,
        prepared_at: authority.prepared_at,
    }
}

/// Whether an event records a planned turn, as the last claim's owner, after the run's last event.
pub open spec fn records_planned_turn(
    contract: Contract,
    planned: PlannedTurn,
    authority: PlannerV2PreparationAuthority,
    results: PlannerRequestResults,
    identified: IdentifiedNewEvent,
) -> bool {
    let event = identified.event;
    let request_artifact = results.request_artifact->Ok_0;
    &&& identified.event_id == authority.event_id
    &&& event.session_id == planned.projection.session_id
    &&& event.run_id == Some(planned.projection.run_id)
    &&& event.actor_id == planned.claim.event.actor_id
    &&& event.causal_parent == Some(planned.projection.last_event.id)
    &&& event.provenance.producer == contract.producers.planner_preparation
    &&& event.provenance.backend == Some(
        crate::planning_ground::model_selection(*planned.run, authority.backend_model),
    )
    &&& event.provenance.raw_artifact == Some(request_artifact)
    &&& match event.payload {
        EventPayload::PlannerTurnPreparedV1(prepared) => {
            &&& prepared == prepared_turn(
                contract,
                planned,
                authority,
                results.prompt_artifact->Ok_0,
                request_artifact,
                prepared.backend_instance,
            )
            &&& crate::inference_identity::names_same_backend(
                authority.backend_instance,
                prepared.backend_instance,
            )
        },
        _ => false,
    }
}

/// The digests that a prepared turn names of its artifacts.
struct TurnDigests {
    obligations: Sha256Digest,
    acceptance: Sha256Digest,
    context: Sha256Digest,
    policy: Sha256Digest,
    durable_packet: Sha256Digest,
    durable_delta: Sha256Digest,
    prompt_packet: Sha256Digest,
    prompt_delta: Sha256Digest,
    manifest: Sha256Digest,
    prompt: Sha256Digest,
    request: Sha256Digest,
}

fn read_digests(
    planned: &PlannedTurn,
    authority: &PlannerV2PreparationAuthority,
    prompt_artifact: &ArtifactRef,
    request_artifact: &ArtifactRef,
) -> (r: Option<TurnDigests>)
    ensures
        r is Some <==> digests_readable(*planned, *authority, *prompt_artifact, *request_artifact),
        r matches Some(digests) ==> {
            let catalog = authority.protected_obligation_catalog;
            let context = planned.input.material.planner_context_catalog;
            &&& digests.obligations == Sha256Digest::written_as(catalog.snapshot_sha256)
            &&& digests.acceptance == Sha256Digest::written_as(catalog.acceptance_policy_sha256)
            &&& digests.context == Sha256Digest::written_as(context.manifest_sha256)
            &&& digests.policy == Sha256Digest::written_as(authority.planner_policy.policy_sha256)
            &&& digests.durable_packet == Sha256Digest::written_as(
                planned.durable_packet_artifact.sha256,
            )
            &&& digests.durable_delta == Sha256Digest::written_as(
                planned.durable_delta_artifact.sha256,
            )
            &&& digests.prompt_packet == Sha256Digest::written_as(
                planned.prompt_packet_artifact.sha256,
            )
            &&& digests.prompt_delta == Sha256Digest::written_as(
                planned.prompt_delta_artifact.sha256,
            )
            &&& digests.manifest == Sha256Digest::written_as(
                planned.prompt_manifest_artifact.sha256,
            )
            &&& digests.prompt == Sha256Digest::written_as(prompt_artifact.sha256)
            &&& digests.request == Sha256Digest::written_as(request_artifact.sha256)
        },
{
    let catalog = &authority.protected_obligation_catalog;
    let context = &planned.input.material.planner_context_catalog;
    match (
        Sha256Digest::parse(&catalog.snapshot_sha256),
        Sha256Digest::parse(&catalog.acceptance_policy_sha256),
        Sha256Digest::parse(&context.manifest_sha256),
        Sha256Digest::parse(&authority.planner_policy.policy_sha256),
        Sha256Digest::parse(&planned.durable_packet_artifact.sha256),
        Sha256Digest::parse(&planned.durable_delta_artifact.sha256),
        Sha256Digest::parse(&planned.prompt_packet_artifact.sha256),
        Sha256Digest::parse(&planned.prompt_delta_artifact.sha256),
        Sha256Digest::parse(&planned.prompt_manifest_artifact.sha256),
        Sha256Digest::parse(&prompt_artifact.sha256),
        Sha256Digest::parse(&request_artifact.sha256),
    ) {
        (
            Some(obligations),
            Some(acceptance),
            Some(context),
            Some(policy),
            Some(durable_packet),
            Some(durable_delta),
            Some(prompt_packet),
            Some(prompt_delta),
            Some(manifest),
            Some(prompt),
            Some(request),
        ) => Some(
            TurnDigests {
                obligations,
                acceptance,
                context,
                policy,
                durable_packet,
                durable_delta,
                prompt_packet,
                prompt_delta,
                manifest,
                prompt,
                request,
            },
        ),
        _ => None,
    }
}

/// The event that prepares a planned turn, once its request is built.
pub fn finish_planner_v2_turn(
    contract: &Contract,
    planned: PlannedTurn,
    authority: &PlannerV2PreparationAuthority,
    results: PlannerRequestResults,
) -> (r: Result<IdentifiedNewEvent, StoreError>)
    ensures
        match (r, finish_verdict(planned, *authority, results)) {
            (Ok(event), Ok(())) => records_planned_turn(
                *contract,
                planned,
                *authority,
                results,
                event,
            ),
            (Err(error), Err(expected)) => error == expected,
            _ => false,
        },
{
    match (&results.request, results.fits_reservation) {
        (Err(error), _) => return Err(*error),
        (Ok(_), Err(error)) => return Err(error),
        (Ok(_), Ok(fits)) => if !fits {
            return Err(StoreError::InvalidStateEvent);
        },
    }
    let (prompt_artifact, request_artifact) = match (
        results.prompt_artifact,
        results.request_artifact,
    ) {
        (Err(error), _) => return Err(error),
        (Ok(_), Err(error)) => return Err(error),
        (Ok(prompt_artifact), Ok(request_artifact)) => (prompt_artifact, request_artifact),
    };
    let digests = match read_digests(&planned, authority, &prompt_artifact, &request_artifact) {
        Some(digests) => digests,
        None => return Err(StoreError::InvalidStateEvent),
    };
    let backend_instance = match protocol_backend_instance_identity(
        &authority.backend_instance,
        results.backend_is_intact,
        &results.protocol_digest,
    ) {
        Ok(backend_instance) => backend_instance,
        Err(error) => return Err(error),
    };
    let provenance = Provenance {
        producer: contract.producers.planner_preparation.clone(),
        backend: Some(expected_backend_selection(planned.run, &authority.backend_model)),
        raw_artifact: Some(request_artifact.clone()),
    };
    let claim = planned.claim;
    let prepared = PlannerTurnPreparedV1 {
        schema_version: contract.versions.planner_turn,
        turn_id: authority.turn_id,
        purpose: planned.purpose,
        claim_event_id: claim.event.id,
        claim_id: claim.claim.claim_id,
        claim_generation: claim.claim.claim_generation,
        claim_runtime_instance_id: claim.claim.runtime_instance_id,
        cancellation_generation: planned.projection.guard.cancellation_generation,
        base_plan: planned.base_plan,
        obligation_snapshot_digest: digests.obligations,
        acceptance_policy_digest: digests.acceptance,
        context_manifest_digest: digests.context,
        planner_policy_digest: digests.policy,
        durable_evidence_packet: planned.durable_packet,
        durable_evidence_packet_digest: digests.durable_packet,
        durable_evidence_packet_artifact: planned.durable_packet_artifact,
        durable_evidence_delta: planned.durable_delta,
        durable_evidence_delta_digest: digests.durable_delta,
        durable_evidence_delta_artifact: planned.durable_delta_artifact,
        prompt_evidence_packet_digest: digests.prompt_packet,
        prompt_evidence_packet_artifact: planned.prompt_packet_artifact,
        prompt_evidence_delta_digest: digests.prompt_delta,
        prompt_evidence_delta_artifact: planned.prompt_delta_artifact,
        backend_model: authority.backend_model.clone(),
        backend_instance,
        model_lineage: authority.model_lineage.clone(),
        reasoning: authority.reasoning,
        prompt_manifest_digest: digests.manifest,
        prompt_manifest_artifact: planned.prompt_manifest_artifact,
        prompt_digest: digests.prompt,
        prompt_artifact,
        request_digest: digests.request,
        request_artifact,
        token_reservation: authority.token_reservation,
        output_budget: authority.output_budget,
        prepared_at: authority.prepared_at,
    };
    Ok(
        IdentifiedNewEvent {
            event_id: authority.event_id,
            event: NewEvent {
                session_id: planned.projection.session_id,
                run_id: Some(planned.projection.run_id),
                actor_id: claim.event.actor_id,
                causal_parent: Some(planned.projection.last_event.id),
                provenance,
                payload: EventPayload::PlannerTurnPreparedV1(prepared),
            },
        },
    )
}

/// The event that prepares the turn that is due for a run: it binds the claim, the plan, the evidence
/// and the request, all of which are fixed before the model is called. `results` is what comes of the
/// request that is built from the planned turn's input.
pub fn build_planner_v2_prepared_event(
    store: &Store,
    run_id: RunId,
    authority: &PlannerV2PreparationAuthority,
    reads: PlannerPreparationReads,
    results: PlannerRequestResults,
) -> (r: Result<IdentifiedNewEvent, StoreError>)
    ensures
        match (r, plan_verdict(*store, run_id, *authority, reads)) {
            (Ok(event), Ok(())) => exists|planned: PlannedTurn|
                {
                    &&& is_planned(*store, run_id, *authority, reads, planned)
                    &&& finish_verdict(planned, *authority, results) is Ok
                    &&& #[trigger] records_planned_turn(
                        store.contract,
                        planned,
                        *authority,
                        results,
                        event,
                    )
                },
            (Err(error), Ok(())) => exists|planned: PlannedTurn|
                {
                    &&& is_planned(*store, run_id, *authority, reads, planned)
                    &&& #[trigger] finish_verdict(planned, *authority, results) == Err::<
                        (),
                        StoreError,
                    >(error)
                },
            (Err(error), Err(expected)) => error == expected,
            _ => false,
        },
{
    let planned = match plan_planner_v2_turn(store, run_id, authority, reads) {
        Ok(planned) => planned,
        Err(error) => return Err(error),
    };
    let ghost found = planned;
    match finish_planner_v2_turn(&store.contract, planned, authority, results) {
        Ok(event) => {
            assert(records_planned_turn(store.contract, found, *authority, results, event));
            Ok(event)
        },
        Err(error) => {
            assert(finish_verdict(found, *authority, results) == Err::<(), StoreError>(error));
            Err(error)
        },
    }
}

/// What preparation binds, validation finds bound: the bindings of a planned turn name the prompt, the
/// plan and the evidence of the turn that is prepared from it.
pub proof fn law_prepared_turn_is_bound(
    store: Store,
    run_id: RunId,
    authority: PlannerV2PreparationAuthority,
    reads: PlannerPreparationReads,
    planned: PlannedTurn,
    prompt_artifact: ArtifactRef,
    request_artifact: ArtifactRef,
    backend_instance: crate::artifact::BackendInstanceIdentity,
)
    requires
        plan_verdict(store, run_id, authority, reads) is Ok,
        is_planned(store, run_id, authority, reads, planned),
    ensures
        ({
            let prepared = prepared_turn(
                store.contract,
                planned,
                authority,
                prompt_artifact,
                request_artifact,
                backend_instance,
            );
            let material = planned.input.material;
            crate::planner_v2_request::bind_prompt(
                store.contract,
                prepared,
                material.base_plan,
                material.evidence_packet,
                material.evidence_delta,
                material.bindings,
            )
        }),
{
    let catalog = authority.protected_obligation_catalog;
    let material = planned.input.material;
    Sha256Digest::lemma_reads_as_written(catalog.snapshot_sha256);
    Sha256Digest::lemma_reads_as_written(catalog.acceptance_policy_sha256);
    Sha256Digest::lemma_reads_as_written(material.planner_context_catalog.manifest_sha256);
    Sha256Digest::lemma_reads_as_written(authority.planner_policy.policy_sha256);
    Sha256Digest::lemma_reads_as_written(planned.prompt_manifest_artifact.sha256);
    reveal(base_verdict);
}

/// A turn is due exactly where the next action asks for one: the purpose and the plan are those of the
/// action, and a retry names the preparation that it repeats.
pub proof fn law_turns_are_due_when_asked_for<'a>(action: PlannerNextAction<'a>)
    ensures
        due_turn(action) is Some <==> (action is ReadyToPrepare || action is RetryPrepared),
        action matches PlannerNextAction::ReadyToPrepare { purpose, base_plan } ==> (due_turn(
            action,
        ) matches Some(due) && due.purpose == purpose && due.base_plan == base_plan && due.retries
            is None),
        action matches PlannerNextAction::RetryPrepared {
            purpose,
            base_plan,
            prior_prepared_event_id,
            terminal_event_id,
        } ==> (due_turn(action) matches Some(due) && due.purpose == purpose && due.base_plan
            == Some(base_plan) && due.retries == Some(prior_prepared_event_id)),
{
}

/// A call stays within every limit that is set: the limit of one call, that of the budget, and those of
/// the run.
pub proof fn law_calls_stay_within_every_limit(
    contract: Contract,
    run: Run,
    reservation: TokenReservation,
    budget: PlannerOutputBudgetV1,
)
    requires
        budget_fits(contract, reservation, budget),
        run_allows(run, reservation, budget),
    ensures
        reservation.max_output_tokens <= budget.max_output_tokens_per_call
            <= contract.recon.max_planner_output_tokens_per_call,
        0 < budget.max_output_tokens_per_call,
        0 < budget.max_total_reserved_output_tokens,
        run.spec.limits.max_output_tokens matches Some(limit) ==> reservation.max_output_tokens
            <= limit && budget.max_total_reserved_output_tokens <= limit,
{
}

/// A turn is planned only for a run that asks for one: its claim is held and current, nobody cancelled
/// it, it has turns left, and the model that is named is one model throughout.
pub proof fn law_planned_turns_were_asked_for(
    store: Store,
    run_id: RunId,
    authority: PlannerV2PreparationAuthority,
    reads: PlannerPreparationReads,
)
    requires
        plan_verdict(store, run_id, authority, reads) is Ok,
    ensures
        crate::planner_v2_replay_projection::projected(store, run_id, reads.recon) matches Ok(
            Some(projection),
        ) && {
            &&& projection.planner.next_action is ReadyToPrepare
                || projection.planner.next_action is RetryPrepared
            &&& projection.guard.cancellation_generation == 0
            &&& projection.guard.claim_matches_cancellation_generation
            &&& projection.planner.prepared_turn_count < store.contract.recon.max_planner_turns
            &&& projection.guard.latest_claim matches Some(claim)
                && authority.prepared_at.runtime_instance_id == claim.claim.runtime_instance_id
        },
        reads.reservation_is_valid,
        reads.backend_is_intact,
        reads.lineage_is_valid,
        authority.backend_model.kind == BackendKind::Model,
        authority.backend_instance.backend_id@ == authority.backend_model.backend_id@,
        authority.model_lineage.backend_id@ == authority.backend_model.backend_id@,
        authority.model_lineage.model_id@ == authority.backend_model.model_id@,
        authority.model_lineage.deployment_id@ == authority.backend_instance.deployment_id@,
        authority.token_reservation.max_output_tokens
            <= store.contract.recon.max_planner_output_tokens_per_call,
{
}

/// A first plan is named by its authority and is empty; a later turn brings no plan of its own and keeps
/// the obligations and the policy of the turn before it.
pub proof fn law_plans_begin_once(
    store: Store,
    projection: ReconRunProjection,
    authority: PlannerV2PreparationAuthority,
    due: DueTurn,
    reads: PlannerPreparationReads,
)
    requires
        base_verdict(store, projection, authority, due, reads) is Ok,
    ensures
        authority.initial_plan_id is Some <==> (due.purpose
            == PlannerTurnPurposeV1::InitialDelegation && due.base_plan is None),
        due.base_plan is None ==> projection.planner.accepted_root_plan is Some,
        due.base_plan is Some ==> {
            &&& reads.previous.prompt.obligations is Ok
            &&& reads.previous.prompt.policy is Ok
            &&& reads.base matches Ok(snapshot) && snapshot.revision == due.base_plan->0.revision
            &&& due.retries is Some || due.purpose == PlannerTurnPurposeV1::EvidenceReplan
        },
{
    reveal(base_verdict);
}

/// What is recorded of a planned turn is what was planned: its purpose, its plan and its evidence, under
/// the claim that holds the run, by the actor of that claim, right after the last event of the run.
pub proof fn law_planned_turns_are_recorded_as_planned(
    contract: Contract,
    planned: PlannedTurn,
    authority: PlannerV2PreparationAuthority,
    results: PlannerRequestResults,
    identified: IdentifiedNewEvent,
)
    requires
        records_planned_turn(contract, planned, authority, results, identified),
    ensures
        identified.event_id == authority.event_id,
        identified.event.session_id == planned.projection.session_id,
        identified.event.run_id == Some(planned.projection.run_id),
        identified.event.actor_id == planned.claim.event.actor_id,
        identified.event.causal_parent == Some(planned.projection.last_event.id),
        identified.event.payload matches EventPayload::PlannerTurnPreparedV1(prepared) && {
            &&& prepared.turn_id == authority.turn_id
            &&& prepared.purpose == planned.purpose
            &&& prepared.base_plan == planned.base_plan
            &&& prepared.claim_event_id == planned.claim.event.id
            &&& prepared.claim_id == planned.claim.claim.claim_id
            &&& prepared.claim_generation == planned.claim.claim.claim_generation
            &&& prepared.claim_runtime_instance_id == planned.claim.claim.runtime_instance_id
            &&& prepared.cancellation_generation
                == planned.projection.guard.cancellation_generation
            &&& prepared.durable_evidence_packet == planned.durable_packet
            &&& prepared.durable_evidence_delta == planned.durable_delta
            &&& prepared.backend_model == authority.backend_model
            &&& prepared.model_lineage == authority.model_lineage
            &&& prepared.reasoning == authority.reasoning
            &&& prepared.token_reservation == authority.token_reservation
            &&& prepared.output_budget == authority.output_budget
            &&& prepared.prepared_at == authority.prepared_at
            &&& prepared.backend_instance.backend_id@ == authority.backend_instance.backend_id@
            &&& prepared.backend_instance.endpoint_origin@ == authority.backend_instance.origin@
            &&& prepared.backend_instance.configured_deployment_id@
                == authority.backend_instance.deployment_id@
            &&& results.request_artifact matches Ok(artifact) ==> prepared.request_artifact
                == artifact
            &&& results.prompt_artifact matches Ok(artifact) ==> prepared.prompt_artifact
                == artifact
        },
{
}

} // verus!

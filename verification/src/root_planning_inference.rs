//! The inferences of root planning: when one may be prepared, and how it may end.

use vstd::prelude::*;
use crate::artifact::require_artifact_media_type;
use crate::claim_history::latest_cancellation_generation;
use crate::contract::Contract;
use crate::digest::Sha256Digest;
use crate::error::StoreError;
use crate::event::{EventEnvelope, EventPayload};
use crate::history::{EventLog, EventQuery, PayloadFilter};
use crate::identity::{InferenceAttemptId, RunId, SessionId};
use crate::inference_identity::{
    error_matches_protocol_backend_instance, response_matches_protocol_backend_instance,
    BackendNameReading,
};
use crate::json::read_alike;
use crate::planning::{
    PlannerInferenceError, PlannerInferenceErrorKind, PlannerInferenceObservation,
    PlannerInferenceObserved, PlannerInferenceOutcomeUnknown, PlannerInferencePrepared,
    PlannerStageContext, UnknownInferenceBoundary, UnknownInferenceOutcomeReason,
};
use crate::planning_ground::{
    expected_backend_selection, has_exact_model_provenance, planner_run_id, supports_root_planning,
};
use crate::retained::{
    BackendErrorEvidence, PlannerV2NotDispatchedReason, RetainedCancellationBoundaryEvidence,
    RetainedInferenceEvidence, StructuredInferenceResponse,
};
use crate::root_planning_prompt::{validate_critic_policy_artifact, CriticPolicyReads};
use crate::root_planning_stage::{
    review_critic_policy_artifact, validate_planner_stage_context,
    validate_stage_execution_policy, PolicyReads,
};
use crate::root_planning_state::{
    first_prepared_inference, parent_attempt_is_terminal, require_current_plan_base, stage_lineage,
};
use crate::run::{RetryDisposition, Run, TokenUsage};
use crate::store::Store;
use crate::text::Same;

verus! {

/// What a preparation brings that the history alone does not say.
#[derive(Debug)]
pub struct PreparationReads {
    /// Whether the event's actor holds the claim.
    pub claim_owner: Result<(), StoreError>,
    /// Whether the stage's model lineage is well formed.
    pub lineage_is_valid: bool,
    /// Whether the backend's identity is the digest of what it names.
    pub instance_is_intact: bool,
    /// How many reservations have the same identity, whoever made them.
    pub reservations_with_identity: u64,
    pub critic: CriticPolicyReads,
    pub policy: PolicyReads,
    /// The output that all models of the run have reserved together.
    pub already_reserved: Result<u64, StoreError>,
}

/// How many inferences were prepared on one plan.
pub open spec fn preparations_on_plan(
    events: Seq<EventEnvelope>,
    session_id: SessionId,
    run_id: RunId,
    revision: u64,
    digest: &Sha256Digest,
) -> nat {
    EventQuery::in_run(
        session_id,
        run_id,
        PayloadFilter::PreparedForPlan { revision, digest },
    ).rows(events).len()
}

/// How many inferences were prepared on one plan.
pub fn prepared_attempts_for_plan(
    log: &EventLog,
    session_id: SessionId,
    run_id: RunId,
    plan_revision: u64,
    plan_digest: &Sha256Digest,
) -> (r: usize)
    ensures
        r == preparations_on_plan(log@, session_id, run_id, plan_revision, plan_digest),
{
    log.count(
        &EventQuery::in_run(
            session_id,
            run_id,
            PayloadFilter::PreparedForPlan { revision: plan_revision, digest: plan_digest },
        ),
    )
}

/// How many ends of an attempt are on record.
pub open spec fn ends_of(
    events: Seq<EventEnvelope>,
    session_id: SessionId,
    run_id: RunId,
    attempt_id: InferenceAttemptId,
) -> nat {
    EventQuery::in_run(session_id, run_id, PayloadFilter::InferenceTerminal(attempt_id)).rows(
        events,
    ).len()
}

/// How many ends of an attempt are on record.
pub fn inference_terminal_count(
    log: &EventLog,
    session_id: SessionId,
    run_id: RunId,
    attempt_id: InferenceAttemptId,
) -> (r: usize)
    ensures
        r == ends_of(log@, session_id, run_id, attempt_id),
{
    log.count(
        &EventQuery::in_run(session_id, run_id, PayloadFilter::InferenceTerminal(attempt_id)),
    )
}

/// Whether an inference reserves output, and tokens for at least that much.
pub open spec fn reservation_stands(prepared: PlannerInferencePrepared) -> bool {
    &&& prepared.token_reservation.reserved_tokens != 0
    &&& prepared.token_reservation.max_output_tokens != 0
    &&& prepared.token_reservation.reserved_tokens >= prepared.token_reservation.max_output_tokens
}

/// Whether an inference names the backend that it goes to, and a stage the deployment of its model.
pub open spec fn instance_fits(prepared: PlannerInferencePrepared, instance_is_intact: bool) -> bool {
    &&& prepared.backend_instance matches Some(identity) && instance_is_intact
        && identity.backend_id@ == prepared.backend_model.backend_id@ && (
    prepared.stage_context matches Some(stage) ==> identity.configured_deployment_id@
        == stage_lineage(&stage).deployment_id@)
}

/// Whether an inference is new: no other has its identity or its reservation.
pub open spec fn preparation_is_new(
    store: Store,
    prepared: PlannerInferencePrepared,
    reservations_with_identity: u64,
) -> bool {
    &&& EventQuery::everywhere(PayloadFilter::PreparedForAttempt(prepared.attempt_id)).rows(
        store.log@,
    ).len() == 0
    &&& reservations_with_identity == 0
}

/// Whether an inference goes on from its parent, which ended for good, or begins a plan that nothing
/// was prepared on.
pub open spec fn lineage_goes_on(
    store: Store,
    session_id: SessionId,
    run_id: RunId,
    prepared: PlannerInferencePrepared,
) -> bool {
    match prepared.parent_attempt_id {
        None => preparations_on_plan(
            store.log@,
            session_id,
            run_id,
            prepared.plan_revision,
            &prepared.plan_digest,
        ) == 0,
        Some(parent) => parent != prepared.attempt_id && crate::root_planning_state::parent_ended(
            store.log@,
            session_id,
            run_id,
            parent,
        ) == Ok::<bool, StoreError>(true),
    }
}

/// Whether an inference keeps to the obligations and policies of the first.
pub open spec fn keeps_to_first(
    store: Store,
    session_id: SessionId,
    run_id: RunId,
    prepared: PlannerInferencePrepared,
) -> bool {
    crate::root_planning_state::first_preparation(store.log@, session_id, run_id) matches Some(
        first,
    ) ==> {
        &&& first.obligation_snapshot_digest@ == prepared.obligation_snapshot_digest@
        &&& first.acceptance_policy_digest@ == prepared.acceptance_policy_digest@
        &&& first.planner_policy_digest@ == prepared.planner_policy_digest@
    }
}

/// Whether an inference is what its run allows: the run plans, producers use the model that the run
/// selected, and one call stays within the run's output.
pub open spec fn run_allows(
    contract: Contract,
    run: Run,
    prepared: PlannerInferencePrepared,
) -> bool {
    &&& supports_root_planning(&contract, run.spec.purpose)
    &&& is_produced(prepared) ==> {
        &&& run.spec.backend.backend_id@ == prepared.backend_model.backend_id@
        &&& run.spec.backend.kind == prepared.backend_model.kind
        &&& run.spec.backend.model matches Some(model) ==> model@
            == prepared.backend_model.model_id@
    }
    &&& run.spec.limits.max_output_tokens matches Some(limit)
        ==> prepared.token_reservation.max_output_tokens <= limit
}

/// Whether an inference is a producer's: it serves no stage, or one that plans or repairs.
pub open spec fn is_produced(prepared: PlannerInferencePrepared) -> bool {
    prepared.stage_context matches Some(stage) ==> stage is InitialPlan || stage is Repair
}

/// Whether the output that a run has reserved leaves room for one more inference.
pub open spec fn output_left(
    run: Run,
    prepared: PlannerInferencePrepared,
    already_reserved: Result<u64, StoreError>,
) -> Result<(), StoreError> {
    match run.spec.limits.max_output_tokens {
        None => Ok(()),
        Some(limit) => match already_reserved {
            Err(error) => Err(error),
            Ok(reserved) => crate::error::demand(
                reserved + prepared.token_reservation.max_output_tokens <= limit,
            ),
        },
    }
}

/// Whether an inference may be prepared now, as far as its run and the event before it say.
pub open spec fn preparation_is_due(store: Store, event: EventEnvelope, run_id: RunId) -> bool {
    &&& crate::planning_ground::run_is_running(store, run_id)
    &&& crate::claim_history::cancellation_generation_of(store.log@, event.session_id, run_id) == 0
    &&& crate::planning_ground::follows_latest(store, event, run_id)
}

/// What is found of the critic policy of a stage that has one.
pub open spec fn critic_verdict(
    store: Store,
    event: EventEnvelope,
    run_id: RunId,
    prepared: PlannerInferencePrepared,
    reads: CriticPolicyReads,
) -> Result<(), StoreError> {
    match prepared.stage_context {
        None => Ok(()),
        Some(stage) => match review_critic_policy_artifact(&stage) {
            None => Ok(()),
            Some(artifact) => crate::root_planning_prompt::critic_policy_verdict(
                store,
                event.session_id,
                run_id,
                prepared,
                stage,
                *artifact,
                reads,
            ),
        },
    }
}

/// Whether an inference fits what the history of its run says.
pub open spec fn preparation_fits(
    store: Store,
    event: EventEnvelope,
    run_id: RunId,
    prepared: PlannerInferencePrepared,
    reads: PreparationReads,
) -> bool {
    &&& reservation_stands(prepared)
    &&& instance_fits(prepared, reads.instance_is_intact)
    &&& preparation_is_new(store, prepared, reads.reservations_with_identity)
    &&& lineage_goes_on(store, event.session_id, run_id, prepared)
    &&& keeps_to_first(store, event.session_id, run_id, prepared)
    &&& crate::root_planning_state::builds_on_current_plan(
        store.log@,
        event.session_id,
        run_id,
        prepared.plan_revision,
        prepared.plan_digest@,
        true,
    )
}

/// What is found of an inference under the policy of its stage and the limits of its run.
pub open spec fn preparation_under_run(
    store: Store,
    event: EventEnvelope,
    run_id: RunId,
    prepared: PlannerInferencePrepared,
    reads: PreparationReads,
) -> Result<(), StoreError> {
    match crate::planning_ground::run_of(store, event.session_id, run_id) {
        None => Err(StoreError::InvalidStateEvent),
        Some(run) => crate::error::and_next(
            match prepared.stage_context {
                None => Ok(()),
                Some(stage) => crate::root_planning_stage::policy_verdict(
                    store.contract,
                    prepared,
                    stage,
                    run.spec.limits.max_output_tokens,
                    reads.policy,
                ),
            },
            crate::error::and_next(
                crate::error::demand(
                    {
                        &&& run_allows(store.contract, run, prepared)
                        &&& prepared.stage_context is Some
                            ==> crate::planning_ground::exact_provenance(
                            event,
                            crate::planning_ground::model_selection(run, prepared.backend_model),
                            None,
                        )
                    },
                ),
                output_left(run, prepared, reads.already_reserved),
            ),
        ),
    }
}

/// What is found of a prepared inference.
pub open spec fn preparation_verdict(
    store: Store,
    event: EventEnvelope,
    prepared: PlannerInferencePrepared,
    reads: PreparationReads,
) -> Result<(), StoreError> {
    match event.run_id {
        None => Err(StoreError::InvalidStateEvent),
        Some(run_id) => if !preparation_is_due(store, event, run_id) {
            Err(StoreError::InvalidStateEvent)
        } else {
            crate::error::and_next(
                reads.claim_owner,
                crate::error::and_next(
                    crate::error::demand(
                        crate::root_planning_stage::stage_context_stands(
                            store,
                            event,
                            run_id,
                            prepared,
                            reads.lineage_is_valid,
                        ),
                    ),
                    crate::error::and_next(
                        critic_verdict(store, event, run_id, prepared, reads.critic),
                        crate::error::and_next(
                            crate::error::demand(
                                preparation_fits(store, event, run_id, prepared, reads),
                            ),
                            preparation_under_run(store, event, run_id, prepared, reads),
                        ),
                    ),
                ),
            )
        },
    }
}

fn check_instance(prepared: &PlannerInferencePrepared, instance_is_intact: bool) -> (r: bool)
    ensures
        r == instance_fits(*prepared, instance_is_intact),
{
    match &prepared.backend_instance {
        Some(identity) => instance_is_intact && identity.backend_id
            == prepared.backend_model.backend_id && match &prepared.stage_context {
            Some(stage) => identity.configured_deployment_id == stage_lineage(stage).deployment_id,
            None => true,
        },
        None => false,
    }
}

fn check_lineage_goes_on(
    store: &Store,
    session_id: SessionId,
    run_id: RunId,
    prepared: &PlannerInferencePrepared,
) -> (r: bool)
    ensures
        r == lineage_goes_on(*store, session_id, run_id, *prepared),
{
    match prepared.parent_attempt_id {
        None => prepared_attempts_for_plan(
            &store.log,
            session_id,
            run_id,
            prepared.plan_revision,
            &prepared.plan_digest,
        ) == 0,
        Some(parent) => parent != prepared.attempt_id && match parent_attempt_is_terminal(
            &store.log,
            session_id,
            run_id,
            parent,
        ) {
            Ok(ended) => ended,
            Err(_) => false,
        },
    }
}

fn check_preparation_fits(
    store: &Store,
    event: &EventEnvelope,
    run_id: RunId,
    prepared: &PlannerInferencePrepared,
    reads: &PreparationReads,
) -> (r: bool)
    ensures
        r == preparation_fits(*store, *event, run_id, *prepared, *reads),
{
    let reserved = prepared.token_reservation.reserved_tokens != 0
        && prepared.token_reservation.max_output_tokens != 0
        && prepared.token_reservation.reserved_tokens
        >= prepared.token_reservation.max_output_tokens;
    let new = store.log.count(
        &EventQuery::everywhere(PayloadFilter::PreparedForAttempt(prepared.attempt_id)),
    ) == 0 && reads.reservations_with_identity == 0;
    let keeps = match first_prepared_inference(&store.log, event.session_id, run_id) {
        Some(first) => first.obligation_snapshot_digest == prepared.obligation_snapshot_digest
            && first.acceptance_policy_digest == prepared.acceptance_policy_digest
            && first.planner_policy_digest == prepared.planner_policy_digest,
        None => true,
    };
    reserved && check_instance(prepared, reads.instance_is_intact) && new && check_lineage_goes_on(
        store,
        event.session_id,
        run_id,
        prepared,
    ) && keeps && require_current_plan_base(
        &store.log,
        event.session_id,
        run_id,
        prepared.plan_revision,
        &prepared.plan_digest,
        true,
    ).is_ok()
}

fn check_run_allows(contract: &Contract, run: &Run, prepared: &PlannerInferencePrepared) -> (r: bool)
    ensures
        r == run_allows(*contract, *run, *prepared),
{
    let produced = match &prepared.stage_context {
        Some(stage) => matches!(
            stage,
            PlannerStageContext::InitialPlan { .. } | PlannerStageContext::Repair { .. }
        ),
        None => true,
    };
    let selected = run.spec.backend.backend_id == prepared.backend_model.backend_id
        && run.spec.backend.kind == prepared.backend_model.kind && match &run.spec.backend.model {
        Some(model) => *model == prepared.backend_model.model_id,
        None => true,
    };
    let within = match run.spec.limits.max_output_tokens {
        Some(limit) => prepared.token_reservation.max_output_tokens <= limit,
        None => true,
    };
    supports_root_planning(contract, run.spec.purpose) && (!produced || selected) && within
}

fn check_preparation_under_run(
    store: &Store,
    event: &EventEnvelope,
    run_id: RunId,
    prepared: &PlannerInferencePrepared,
    reads: &PreparationReads,
) -> (r: Result<(), StoreError>)
    ensures
        r == preparation_under_run(*store, *event, run_id, *prepared, *reads),
{
    let run = match store.run_of_event(event.session_id, run_id) {
        Some(run) => run,
        None => return Err(StoreError::InvalidStateEvent),
    };
    match &prepared.stage_context {
        Some(stage) => match validate_stage_execution_policy(
            &store.contract,
            prepared,
            stage,
            run.spec.limits.max_output_tokens,
            &reads.policy,
        ) {
            Ok(()) => {},
            Err(error) => return Err(error),
        },
        None => {},
    }
    if !check_run_allows(&store.contract, run, prepared) {
        return Err(StoreError::InvalidStateEvent);
    }
    if prepared.stage_context.is_some() && !has_exact_model_provenance(
        event,
        &expected_backend_selection(run, &prepared.backend_model),
        None,
    ) {
        return Err(StoreError::InvalidStateEvent);
    }
    match run.spec.limits.max_output_tokens {
        Some(limit) => {
            let reserved: u64 = match reads.already_reserved {
                Ok(reserved) => reserved,
                Err(error) => return Err(error),
            };
            match reserved.checked_add(prepared.token_reservation.max_output_tokens) {
                Some(total) => if total > limit {
                    Err(StoreError::InvalidStateEvent)
                } else {
                    Ok(())
                },
                None => Err(StoreError::InvalidStateEvent),
            }
        },
        None => Ok(()),
    }
}

/// Refuses an inference that may not be prepared.
pub fn validate_planner_inference_prepared(
    store: &Store,
    event: &EventEnvelope,
    prepared: &PlannerInferencePrepared,
    reads: &PreparationReads,
) -> (r: Result<(), StoreError>)
    ensures
        r == preparation_verdict(*store, *event, *prepared, *reads),
{
    let run_id = match planner_run_id(event) {
        Ok(run_id) => run_id,
        Err(error) => return Err(error),
    };
    if !store.is_running(run_id) || latest_cancellation_generation(
        &store.log,
        event.session_id,
        run_id,
    ) != 0 || !store.is_after_latest(event, run_id) {
        return Err(StoreError::InvalidStateEvent);
    }
    match reads.claim_owner {
        Ok(()) => {},
        Err(error) => return Err(error),
    }
    match validate_planner_stage_context(store, event, run_id, prepared, reads.lineage_is_valid) {
        Ok(()) => {},
        Err(error) => return Err(error),
    }
    match &prepared.stage_context {
        Some(stage) => match review_critic_policy_artifact(stage) {
            Some(artifact) => match validate_critic_policy_artifact(
                store,
                event.session_id,
                run_id,
                prepared,
                stage,
                artifact,
                &reads.critic,
            ) {
                Ok(()) => {},
                Err(error) => return Err(error),
            },
            None => {},
        },
        None => {},
    }
    if !check_preparation_fits(store, event, run_id, prepared, reads) {
        return Err(StoreError::InvalidStateEvent);
    }
    check_preparation_under_run(store, event, run_id, prepared, reads)
}

/// Whether a usage stays within what was reserved, and adds up.
pub open spec fn usage_within(prepared: PlannerInferencePrepared, usage: TokenUsage) -> bool {
    &&& usage.output_tokens <= prepared.token_reservation.max_output_tokens
    &&& usage.total_tokens <= prepared.token_reservation.reserved_tokens
    &&& usage.input_tokens + usage.output_tokens == usage.total_tokens
}

fn is_usage_within(prepared: &PlannerInferencePrepared, usage: &TokenUsage) -> (r: bool)
    ensures
        r == usage_within(*prepared, *usage),
{
    usage.output_tokens <= prepared.token_reservation.max_output_tokens && usage.total_tokens
        <= prepared.token_reservation.reserved_tokens && usage.input_tokens.checked_add(
        usage.output_tokens,
    ) == Some(usage.total_tokens)
}

/// Whether a response answers an inference: the prepared model on the backend that the inference
/// names, a text that reads as the value, and a usage within what was reserved. `backend` is what the
/// runtime computes of that name.
pub open spec fn answers(
    prepared: PlannerInferencePrepared,
    response: StructuredInferenceResponse,
    backend: BackendNameReading,
) -> bool {
    &&& response.normalized_usage matches Some(usage) && usage_within(prepared, usage)
    &&& prepared.backend_instance matches Some(identity)
        && crate::inference_identity::name_stands(identity, backend)
    &&& response.model_id@ == prepared.backend_model.model_id@
    &&& response.backend_id@ == prepared.backend_model.backend_id@
    &&& response.evidence_matches
    &&& crate::json::read_as_same_value(response.raw_text@, response.value@)
}

/// Whether a response answers an inference.
pub fn response_matches_prepared(
    prepared: &PlannerInferencePrepared,
    response: &StructuredInferenceResponse,
    backend: &BackendNameReading,
) -> (r: bool)
    ensures
        r == answers(*prepared, *response, *backend),
{
    let usage = match &response.normalized_usage {
        Some(usage) => usage,
        None => return false,
    };
    let is_own = match &prepared.backend_instance {
        Some(identity) => response_matches_protocol_backend_instance(
            identity,
            backend,
            response.evidence_matches,
        ),
        None => false,
    };
    response.model_id == prepared.backend_model.model_id && response.backend_id
        == prepared.backend_model.backend_id && is_own && read_alike(
        &response.raw_text,
        &response.value,
    ) && is_usage_within(prepared, usage)
}

/// A failure of one kind.
#[verifier::allow_in_spec]
pub fn failed_with(kind: PlannerInferenceErrorKind, retry: RetryDisposition) -> PlannerInferenceError
    returns
        (PlannerInferenceError { kind, retry }),
{
    PlannerInferenceError { kind, retry }
}

/// What a call that was never sent amounts to.
#[verifier::allow_in_spec]
pub fn planner_v2_not_dispatched_failure(
    reason: PlannerV2NotDispatchedReason,
) -> PlannerInferenceError
    returns
        (match reason {
            PlannerV2NotDispatchedReason::DeadlineElapsed => failed_with(
                PlannerInferenceErrorKind::Timeout,
                RetryDisposition::Never,
            ),
            PlannerV2NotDispatchedReason::RuntimeShutdown => failed_with(
                PlannerInferenceErrorKind::Cancelled,
                RetryDisposition::RequiresNewAttempt,
            ),
            PlannerV2NotDispatchedReason::SchedulerClosed => failed_with(
                PlannerInferenceErrorKind::Cancelled,
                RetryDisposition::RequiresNewAttempt,
            ),
            PlannerV2NotDispatchedReason::ClaimLost => failed_with(
                PlannerInferenceErrorKind::Cancelled,
                RetryDisposition::RequiresNewAttempt,
            ),
            PlannerV2NotDispatchedReason::CancellationRequested => failed_with(
                PlannerInferenceErrorKind::Cancelled,
                RetryDisposition::Never,
            ),
            PlannerV2NotDispatchedReason::RequestContextExceeded => failed_with(
                PlannerInferenceErrorKind::ProtocolViolation,
                RetryDisposition::Never,
            ),
            PlannerV2NotDispatchedReason::ModelProfileDrift => failed_with(
                PlannerInferenceErrorKind::ProtocolViolation,
                RetryDisposition::Never,
            ),
            PlannerV2NotDispatchedReason::BackendInstanceDrift => failed_with(
                PlannerInferenceErrorKind::ProtocolViolation,
                RetryDisposition::Never,
            ),
        }),
{
    match reason {
        PlannerV2NotDispatchedReason::DeadlineElapsed => failed_with(
            PlannerInferenceErrorKind::Timeout,
            RetryDisposition::Never,
        ),
        PlannerV2NotDispatchedReason::RuntimeShutdown
        | PlannerV2NotDispatchedReason::SchedulerClosed
        | PlannerV2NotDispatchedReason::ClaimLost => failed_with(
            PlannerInferenceErrorKind::Cancelled,
            RetryDisposition::RequiresNewAttempt,
        ),
        PlannerV2NotDispatchedReason::CancellationRequested => failed_with(
            PlannerInferenceErrorKind::Cancelled,
            RetryDisposition::Never,
        ),
        PlannerV2NotDispatchedReason::RequestContextExceeded
        | PlannerV2NotDispatchedReason::ModelProfileDrift
        | PlannerV2NotDispatchedReason::BackendInstanceDrift => failed_with(
            PlannerInferenceErrorKind::ProtocolViolation,
            RetryDisposition::Never,
        ),
    }
}

/// Whether an error comes from the backend that the inference names, on the call that was made.
pub open spec fn error_is_own(
    prepared: PlannerInferencePrepared,
    error: BackendErrorEvidence,
    backend: BackendNameReading,
) -> bool {
    &&& error.origin.backend_id@ == prepared.backend_model.backend_id@
    &&& prepared.backend_instance matches Some(identity)
        && crate::inference_identity::error_is_from(identity, backend, error.origin)
    &&& error.structured_inference
}

/// What the retained evidence of an inference amounts to. A response that does not answer it, and an
/// error that is not its own, are violations of the protocol. `backend` is what the runtime computes
/// of the backend that the inference names.
pub open spec fn observation_of(
    prepared: PlannerInferencePrepared,
    evidence: RetainedInferenceEvidence,
    backend: BackendNameReading,
) -> PlannerInferenceObservation {
    let violation = PlannerInferenceObservation::Failed {
        error: failed_with(PlannerInferenceErrorKind::ProtocolViolation, RetryDisposition::Never),
    };
    match evidence {
        RetainedInferenceEvidence::Response { response } => if answers(
            prepared,
            response,
            backend,
        ) {
            PlannerInferenceObservation::Succeeded {
                reported_backend_model: prepared.backend_model,
                token_usage: response.normalized_usage->0,
            }
        } else {
            violation
        },
        RetainedInferenceEvidence::Error { error } => if error_is_own(
            prepared,
            error,
            backend,
        ) {
            PlannerInferenceObservation::Failed { error: failed_with(error.kind, error.retry) }
        } else {
            violation
        },
        RetainedInferenceEvidence::CancelledBeforeCall => PlannerInferenceObservation::Failed {
            error: failed_with(PlannerInferenceErrorKind::Cancelled, RetryDisposition::Never),
        },
        RetainedInferenceEvidence::NotDispatched { reason } => PlannerInferenceObservation::Failed {
            error: planner_v2_not_dispatched_failure(reason),
        },
    }
}

/// What the retained evidence of an inference amounts to.
pub fn expected_observation_from_evidence(
    prepared: &PlannerInferencePrepared,
    evidence: &RetainedInferenceEvidence,
    backend: &BackendNameReading,
) -> (r: PlannerInferenceObservation)
    ensures
        r == observation_of(*prepared, *evidence, *backend),
{
    match evidence {
        RetainedInferenceEvidence::Response { response } => {
            if response_matches_prepared(prepared, response, backend) {
                match response.normalized_usage {
                    Some(token_usage) => {
                        return PlannerInferenceObservation::Succeeded {
                            reported_backend_model: prepared.backend_model.clone(),
                            token_usage,
                        };
                    },
                    None => {},
                }
            }
            PlannerInferenceObservation::Failed {
                error: failed_with(
                    PlannerInferenceErrorKind::ProtocolViolation,
                    RetryDisposition::Never,
                ),
            }
        },
        RetainedInferenceEvidence::Error { error } => {
            let is_own = match &prepared.backend_instance {
                Some(identity) => error_matches_protocol_backend_instance(
                    identity,
                    backend,
                    &error.origin,
                ),
                None => false,
            };
            if error.origin.backend_id != prepared.backend_model.backend_id || !is_own
                || !error.structured_inference {
                PlannerInferenceObservation::Failed {
                    error: failed_with(
                        PlannerInferenceErrorKind::ProtocolViolation,
                        RetryDisposition::Never,
                    ),
                }
            } else {
                PlannerInferenceObservation::Failed { error: failed_with(error.kind, error.retry) }
            }
        },
        RetainedInferenceEvidence::CancelledBeforeCall => PlannerInferenceObservation::Failed {
            error: failed_with(PlannerInferenceErrorKind::Cancelled, RetryDisposition::Never),
        },
        RetainedInferenceEvidence::NotDispatched { reason } => PlannerInferenceObservation::Failed {
            error: planner_v2_not_dispatched_failure(*reason),
        },
    }
}

/// Whether an observation ends the inference that it names, which has not ended yet.
pub open spec fn observation_ends(
    store: Store,
    event: EventEnvelope,
    run_id: RunId,
    prepared_event: EventEnvelope,
    prepared: PlannerInferencePrepared,
    observed: PlannerInferenceObserved,
) -> bool {
    &&& event.causal_parent == Some(prepared_event.id)
    &&& event.actor_id == prepared_event.actor_id
    &&& observed.attempt_id == prepared.attempt_id
    &&& observed.token_reservation_id == prepared.token_reservation.id
    &&& ends_of(store.log@, event.session_id, run_id, observed.attempt_id) == 0
}

/// Whether the end of a staged inference comes from the model that it was prepared for.
pub open spec fn ended_by_own_model(
    store: Store,
    event: EventEnvelope,
    run_id: RunId,
    prepared_event: EventEnvelope,
    prepared: PlannerInferencePrepared,
    artifact: crate::artifact::ArtifactRef,
) -> bool {
    match crate::planning_ground::run_of(store, event.session_id, run_id) {
        Some(run) => {
            let backend = crate::planning_ground::model_selection(run, prepared.backend_model);
            &&& crate::planning_ground::exact_provenance(prepared_event, backend, None)
            &&& crate::planning_ground::exact_provenance(event, backend, Some(artifact))
        },
        None => false,
    }
}

/// What is found of the evidence of a staged inference.
pub open spec fn staged_observation_verdict(
    store: Store,
    event: EventEnvelope,
    run_id: RunId,
    prepared_event: EventEnvelope,
    prepared: PlannerInferencePrepared,
    observed: PlannerInferenceObserved,
    evidence: Result<RetainedInferenceEvidence, StoreError>,
    backend: BackendNameReading,
) -> Result<(), StoreError> {
    let artifact = observed.normalized_complete_evidence_artifact;
    if !ended_by_own_model(store, event, run_id, prepared_event, prepared, artifact)
        || artifact.media_type@ != store.contract.media.inference_evidence@ {
        Err(StoreError::InvalidStateEvent)
    } else {
        match evidence {
            Err(error) => Err(error),
            Ok(evidence) => crate::error::demand(
                observed.outcome.same(&observation_of(prepared, evidence, backend)),
            ),
        }
    }
}

/// Whether a reported success is one of the prepared model, within what was reserved.
pub open spec fn success_within(
    prepared: PlannerInferencePrepared,
    outcome: PlannerInferenceObservation,
) -> bool {
    outcome matches PlannerInferenceObservation::Succeeded { reported_backend_model, token_usage }
        ==> {
        &&& reported_backend_model.same(&prepared.backend_model)
        &&& usage_within(prepared, token_usage)
        &&& token_usage.cached_input_tokens matches Some(cached) ==> cached
            <= token_usage.input_tokens
    }
}

/// What is found of an observed end. `claim_owner` is whether the event's actor holds an active
/// claim, `evidence` what was retained, in its canonical form, and `backend` what the runtime computes
/// of the backend that the inference names.
pub open spec fn observation_verdict(
    store: Store,
    event: EventEnvelope,
    observed: PlannerInferenceObserved,
    claim_owner: Result<(), StoreError>,
    evidence: Result<RetainedInferenceEvidence, StoreError>,
    backend: BackendNameReading,
) -> Result<(), StoreError> {
    match event.run_id {
        None => Err(StoreError::InvalidStateEvent),
        Some(run_id) => match crate::planning_ground::event_of_run(
            store,
            event.session_id,
            run_id,
            observed.prepared_event_id,
        ) {
            None => Err(StoreError::InvalidStateEvent),
            Some(prepared_event) => match crate::root_planning_state::prepared_in(prepared_event) {
                None => Err(StoreError::InvalidStateEvent),
                Some(prepared) => if !crate::planning_ground::run_is_running(store, run_id)
                    || !observation_ends(
                    store,
                    event,
                    run_id,
                    prepared_event,
                    prepared,
                    observed,
                ) {
                    Err(StoreError::InvalidStateEvent)
                } else {
                    crate::error::and_next(
                        claim_owner,
                        crate::error::and_next(
                            if prepared.stage_context is Some {
                                staged_observation_verdict(
                                    store,
                                    event,
                                    run_id,
                                    prepared_event,
                                    prepared,
                                    observed,
                                    evidence,
                                    backend,
                                )
                            } else {
                                Ok(())
                            },
                            crate::error::demand(success_within(prepared, observed.outcome)),
                        ),
                    )
                },
            },
        },
    }
}

fn check_own_model(
    store: &Store,
    event: &EventEnvelope,
    run_id: RunId,
    prepared_event: &EventEnvelope,
    prepared: &PlannerInferencePrepared,
    artifact: &crate::artifact::ArtifactRef,
) -> (r: bool)
    ensures
        r == ended_by_own_model(
            *store,
            *event,
            run_id,
            *prepared_event,
            *prepared,
            *artifact,
        ),
{
    match store.run_of_event(event.session_id, run_id) {
        Some(run) => {
            let backend = expected_backend_selection(run, &prepared.backend_model);
            has_exact_model_provenance(prepared_event, &backend, None)
                && has_exact_model_provenance(event, &backend, Some(artifact))
        },
        None => false,
    }
}

fn check_success_within(
    prepared: &PlannerInferencePrepared,
    outcome: &PlannerInferenceObservation,
) -> (r: bool)
    ensures
        r == success_within(*prepared, *outcome),
{
    match outcome {
        PlannerInferenceObservation::Succeeded { reported_backend_model, token_usage } => {
            *reported_backend_model == prepared.backend_model && is_usage_within(
                prepared,
                token_usage,
            ) && match token_usage.cached_input_tokens {
                Some(cached) => cached <= token_usage.input_tokens,
                None => true,
            }
        },
        _ => true,
    }
}

/// Refuses an observed end that may not be recorded.
pub fn validate_planner_inference_observed(
    store: &Store,
    event: &EventEnvelope,
    observed: &PlannerInferenceObserved,
    claim_owner: Result<(), StoreError>,
    evidence: &Result<RetainedInferenceEvidence, StoreError>,
    backend: &BackendNameReading,
) -> (r: Result<(), StoreError>)
    ensures
        r == observation_verdict(*store, *event, *observed, claim_owner, *evidence, *backend),
{
    let run_id = match planner_run_id(event) {
        Ok(run_id) => run_id,
        Err(error) => return Err(error),
    };
    let prepared_event = match store.log.event(
        event.session_id,
        run_id,
        observed.prepared_event_id,
    ) {
        Ok(prepared_event) => prepared_event,
        Err(error) => return Err(error),
    };
    let prepared = match &prepared_event.payload {
        EventPayload::PlannerInferencePrepared(prepared) => prepared,
        _ => return Err(StoreError::InvalidStateEvent),
    };
    if !store.is_running(run_id) || event.causal_parent != Some(prepared_event.id) || event.actor_id
        != prepared_event.actor_id || observed.attempt_id != prepared.attempt_id
        || observed.token_reservation_id != prepared.token_reservation.id
        || inference_terminal_count(&store.log, event.session_id, run_id, observed.attempt_id)
        != 0 {
        return Err(StoreError::InvalidStateEvent);
    }
    match claim_owner {
        Ok(()) => {},
        Err(error) => return Err(error),
    }
    if prepared.stage_context.is_some() {
        let artifact = &observed.normalized_complete_evidence_artifact;
        if !check_own_model(store, event, run_id, prepared_event, prepared, artifact) {
            return Err(StoreError::InvalidStateEvent);
        }
        match require_artifact_media_type(artifact, &store.contract.media.inference_evidence) {
            Ok(()) => {},
            Err(error) => return Err(error),
        }
        let evidence = match evidence {
            Ok(evidence) => evidence,
            Err(error) => return Err(*error),
        };
        if observed.outcome != expected_observation_from_evidence(prepared, evidence, backend) {
            return Err(StoreError::InvalidStateEvent);
        }
    }
    if !check_success_within(prepared, &observed.outcome) {
        return Err(StoreError::InvalidStateEvent);
    }
    Ok(())
}

/// Whether an unknown outcome can have its reason at a boundary.
#[verifier::allow_in_spec]
pub fn reason_fits_boundary(
    reason: UnknownInferenceOutcomeReason,
    boundary: UnknownInferenceBoundary,
) -> bool
    returns
        (match reason {
            UnknownInferenceOutcomeReason::RuntimeRestartedBeforeObservation => boundary
                == UnknownInferenceBoundary::Restart || boundary
                == UnknownInferenceBoundary::Shutdown || boundary
                == UnknownInferenceBoundary::Cancelled,
            UnknownInferenceOutcomeReason::ClaimExpiredBeforeObservation => boundary
                == UnknownInferenceBoundary::ClaimRenewalFailed,
            UnknownInferenceOutcomeReason::EvidenceCommitIndeterminate => boundary
                == UnknownInferenceBoundary::Deadline || boundary
                == UnknownInferenceBoundary::Cancelled,
        }),
{
    match reason {
        UnknownInferenceOutcomeReason::RuntimeRestartedBeforeObservation => boundary
            == UnknownInferenceBoundary::Restart || boundary == UnknownInferenceBoundary::Shutdown
            || boundary == UnknownInferenceBoundary::Cancelled,
        UnknownInferenceOutcomeReason::ClaimExpiredBeforeObservation => boundary
            == UnknownInferenceBoundary::ClaimRenewalFailed,
        UnknownInferenceOutcomeReason::EvidenceCommitIndeterminate => boundary
            == UnknownInferenceBoundary::Deadline || boundary
            == UnknownInferenceBoundary::Cancelled,
    }
}

/// Whether an unknown outcome ends the inference that it names, which has not ended yet.
pub open spec fn unknown_ends(
    store: Store,
    event: EventEnvelope,
    run_id: RunId,
    prepared_event: EventEnvelope,
    prepared: PlannerInferencePrepared,
    unknown: PlannerInferenceOutcomeUnknown,
) -> bool {
    &&& event.causal_parent == Some(prepared_event.id)
    &&& unknown.attempt_id == prepared.attempt_id
    &&& unknown.token_reservation_id == prepared.token_reservation.id
    &&& ends_of(store.log@, event.session_id, run_id, unknown.attempt_id) == 0
}

/// What is found of the boundary of a staged inference.
pub open spec fn staged_unknown_verdict(
    store: Store,
    event: EventEnvelope,
    run_id: RunId,
    prepared_event: EventEnvelope,
    prepared: PlannerInferencePrepared,
    unknown: PlannerInferenceOutcomeUnknown,
    boundary: Result<RetainedCancellationBoundaryEvidence, StoreError>,
) -> Result<(), StoreError> {
    match event.provenance.raw_artifact {
        None => Err(StoreError::InvalidStateEvent),
        Some(artifact) => if !ended_by_own_model(
            store,
            event,
            run_id,
            prepared_event,
            prepared,
            artifact,
        ) || artifact.media_type@ != store.contract.media.cancellation_boundary@ {
            Err(StoreError::InvalidStateEvent)
        } else {
            match boundary {
                Err(error) => Err(error),
                Ok(boundary) => crate::error::demand(
                    {
                        &&& boundary.prepared_event_id == prepared_event.id
                        &&& boundary.cancellation_generation == unknown.cancellation_generation
                        &&& reason_fits_boundary(unknown.reason, boundary.reason)
                    },
                ),
            }
        },
    }
}

/// What is found of an unknown outcome.
pub open spec fn unknown_verdict(
    store: Store,
    event: EventEnvelope,
    unknown: PlannerInferenceOutcomeUnknown,
    claim_owner: Result<(), StoreError>,
    boundary: Result<RetainedCancellationBoundaryEvidence, StoreError>,
) -> Result<(), StoreError> {
    match event.run_id {
        None => Err(StoreError::InvalidStateEvent),
        Some(run_id) => match crate::planning_ground::event_of_run(
            store,
            event.session_id,
            run_id,
            unknown.prepared_event_id,
        ) {
            None => Err(StoreError::InvalidStateEvent),
            Some(prepared_event) => match crate::root_planning_state::prepared_in(prepared_event) {
                None => Err(StoreError::InvalidStateEvent),
                Some(prepared) => if !crate::planning_ground::run_is_running(store, run_id) {
                    Err(StoreError::InvalidStateEvent)
                } else {
                    crate::error::and_next(
                        claim_owner,
                        crate::error::and_next(
                            crate::error::demand(
                                unknown_ends(
                                    store,
                                    event,
                                    run_id,
                                    prepared_event,
                                    prepared,
                                    unknown,
                                ),
                            ),
                            if prepared.stage_context is Some {
                                staged_unknown_verdict(
                                    store,
                                    event,
                                    run_id,
                                    prepared_event,
                                    prepared,
                                    unknown,
                                    boundary,
                                )
                            } else {
                                Ok(())
                            },
                        ),
                    )
                },
            },
        },
    }
}

/// Refuses an unknown outcome that may not be recorded. `claim_owner` is whether the event's actor
/// holds the claim, and `boundary` what was retained of the boundary, in its canonical form.
pub fn validate_planner_inference_unknown(
    store: &Store,
    event: &EventEnvelope,
    unknown: &PlannerInferenceOutcomeUnknown,
    claim_owner: Result<(), StoreError>,
    boundary: &Result<RetainedCancellationBoundaryEvidence, StoreError>,
) -> (r: Result<(), StoreError>)
    ensures
        r == unknown_verdict(*store, *event, *unknown, claim_owner, *boundary),
{
    let run_id = match planner_run_id(event) {
        Ok(run_id) => run_id,
        Err(error) => return Err(error),
    };
    let prepared_event = match store.log.event(
        event.session_id,
        run_id,
        unknown.prepared_event_id,
    ) {
        Ok(prepared_event) => prepared_event,
        Err(error) => return Err(error),
    };
    let prepared = match &prepared_event.payload {
        EventPayload::PlannerInferencePrepared(prepared) => prepared,
        _ => return Err(StoreError::InvalidStateEvent),
    };
    if !store.is_running(run_id) {
        return Err(StoreError::InvalidStateEvent);
    }
    match claim_owner {
        Ok(()) => {},
        Err(error) => return Err(error),
    }
    if event.causal_parent != Some(prepared_event.id) || unknown.attempt_id != prepared.attempt_id
        || unknown.token_reservation_id != prepared.token_reservation.id
        || inference_terminal_count(&store.log, event.session_id, run_id, unknown.attempt_id)
        != 0 {
        return Err(StoreError::InvalidStateEvent);
    }
    if prepared.stage_context.is_none() {
        return Ok(());
    }
    let artifact = match &event.provenance.raw_artifact {
        Some(artifact) => artifact,
        None => return Err(StoreError::InvalidStateEvent),
    };
    if !check_own_model(store, event, run_id, prepared_event, prepared, artifact) {
        return Err(StoreError::InvalidStateEvent);
    }
    match require_artifact_media_type(artifact, &store.contract.media.cancellation_boundary) {
        Ok(()) => {},
        Err(error) => return Err(error),
    }
    let boundary = match boundary {
        Ok(boundary) => boundary,
        Err(error) => return Err(*error),
    };
    if boundary.prepared_event_id != prepared_event.id || boundary.cancellation_generation
        != unknown.cancellation_generation || !reason_fits_boundary(
        unknown.reason,
        boundary.reason,
    ) {
        return Err(StoreError::InvalidStateEvent);
    }
    Ok(())
}

/// An inference ends once: once an end is on record, neither an observation nor an unknown outcome of
/// the same attempt is accepted.
pub proof fn law_inference_ends_once(
    store: Store,
    event: EventEnvelope,
    observed: PlannerInferenceObserved,
    unknown: PlannerInferenceOutcomeUnknown,
    claim_owner: Result<(), StoreError>,
    evidence: Result<RetainedInferenceEvidence, StoreError>,
    backend: BackendNameReading,
    boundary: Result<RetainedCancellationBoundaryEvidence, StoreError>,
)
    requires
        event.run_id matches Some(run_id) && ends_of(
            store.log@,
            event.session_id,
            run_id,
            observed.attempt_id,
        ) > 0,
        unknown.attempt_id == observed.attempt_id,
    ensures
        observation_verdict(store, event, observed, claim_owner, evidence, backend) is Err,
        unknown_verdict(store, event, unknown, claim_owner, boundary) is Err,
{
}

/// What was reserved is never exceeded: a success that is accepted used no more output, and no more
/// tokens in all, than its inference reserved.
pub proof fn law_usage_stays_reserved(
    store: Store,
    event: EventEnvelope,
    observed: PlannerInferenceObserved,
    claim_owner: Result<(), StoreError>,
    evidence: Result<RetainedInferenceEvidence, StoreError>,
    backend: BackendNameReading,
)
    requires
        observation_verdict(store, event, observed, claim_owner, evidence, backend) is Ok,
        observed.outcome is Succeeded,
    ensures
        crate::planning_ground::event_of_run(
            store,
            event.session_id,
            event.run_id->0,
            observed.prepared_event_id,
        ) matches Some(prepared_event) && (crate::root_planning_state::prepared_in(
            prepared_event,
        ) matches Some(prepared) && usage_within(prepared, observed.outcome->token_usage)),
{
}

/// A run never reserves more output than its limit: with an inference that is accepted, what the run
/// has reserved stays within it.
pub proof fn law_reservations_stay_within_run(
    store: Store,
    event: EventEnvelope,
    prepared: PlannerInferencePrepared,
    reads: PreparationReads,
)
    requires
        preparation_verdict(store, event, prepared, reads) is Ok,
    ensures
        crate::planning_ground::run_of(store, event.session_id, event.run_id->0) matches Some(run)
            && (run.spec.limits.max_output_tokens matches Some(limit) ==> (
        reads.already_reserved matches Ok(reserved) && reserved
            + prepared.token_reservation.max_output_tokens <= limit)),
{
}

/// An attempt that ended admits its successor: whatever was decided on a prepared attempt last, a
/// rejected review that asks for a repair among it, and whenever its outcome is unknown, another
/// attempt may name it as its parent.
pub proof fn law_decided_attempts_admit_their_successors(
    store: Store,
    session_id: SessionId,
    run_id: RunId,
    parent: InferenceAttemptId,
    p: int,
    i: int,
    prepared: PlannerInferencePrepared,
)
    requires
        0 <= p < store.log@.len(),
        crate::root_planning_state::is_of_run(store.log@[p], session_id, run_id),
        crate::root_planning_state::prepares_attempt(store.log@[p], parent),
        forall|j: int|
            0 <= j < p && crate::root_planning_state::is_of_run(
                #[trigger] store.log@[j],
                session_id,
                run_id,
            ) ==> !crate::root_planning_state::prepares_attempt(store.log@[j], parent),
        0 <= i < store.log@.len(),
        crate::root_planning_state::is_of_run(store.log@[i], session_id, run_id),
        store.log@[p].sequence < store.log@[i].sequence,
        crate::root_planning_state::tells_of_attempt(store.log@[i], parent),
        forall|j: int|
            i < j < store.log@.len() && crate::root_planning_state::is_of_run(
                #[trigger] store.log@[j],
                session_id,
                run_id,
            ) && store.log@[p].sequence < store.log@[j].sequence
                ==> !crate::root_planning_state::tells_of_attempt(store.log@[j], parent),
        prepared.parent_attempt_id == Some(parent),
    ensures
        !(store.log@[i].payload is PlannerInferenceObserved) ==> (lineage_goes_on(
            store,
            session_id,
            run_id,
            prepared,
        ) <==> parent != prepared.attempt_id),
        store.log@[i].payload matches EventPayload::PlannerInferenceObserved(observed) ==> (
        observed.outcome is Succeeded ==> !lineage_goes_on(store, session_id, run_id, prepared)),
{
    crate::root_planning_state::law_last_record_decides_a_parent(
        store.log@,
        session_id,
        run_id,
        parent,
        p,
        i,
    );
}

/// What is prepared was due: the run runs and nobody asked to cancel it, the claim is held, the
/// reservation leaves room for an answer, the backend is named and intact, and neither the attempt nor
/// its reservation was there before.
pub proof fn law_prepared_inferences_were_due(
    store: Store,
    event: EventEnvelope,
    prepared: PlannerInferencePrepared,
    reads: PreparationReads,
)
    requires
        preparation_verdict(store, event, prepared, reads) is Ok,
    ensures
        event.run_id matches Some(run_id) && {
            &&& reads.claim_owner is Ok
            &&& store.state_record(run_id) matches Some(row) && row.state
                == crate::run::RunState::Running
            &&& event.causal_parent is Some
            &&& store.run_record(run_id) matches Some(run) && run.spec.session_id
                == event.session_id
            &&& prepared.parent_attempt_id != Some(prepared.attempt_id)
        },
        0 < prepared.token_reservation.max_output_tokens
            <= prepared.token_reservation.reserved_tokens,
        reads.instance_is_intact,
        prepared.backend_instance matches Some(identity) && identity.backend_id@
            == prepared.backend_model.backend_id@,
        reads.reservations_with_identity == 0,
        forall|j: int|
            0 <= j < store.log@.len() ==> !crate::root_planning_state::prepares_attempt(
                #[trigger] store.log@[j],
                prepared.attempt_id,
            ),
        forall|j: int|
            prepared.parent_attempt_id is None && 0 <= j < store.log@.len()
                && crate::root_planning_state::is_of_run(
                #[trigger] store.log@[j],
                event.session_id,
                event.run_id->0,
            ) ==> (store.log@[j].payload matches EventPayload::PlannerInferencePrepared(other)
                ==> other.plan_revision != prepared.plan_revision || other.plan_digest@
                != prepared.plan_digest@),
{
    let again = EventQuery::everywhere(PayloadFilter::PreparedForAttempt(prepared.attempt_id));
    let ends = crate::history::law_selections_have_ends(again, store.log@);
    assert forall|j: int|
        0 <= j < store.log@.len() implies !crate::root_planning_state::prepares_attempt(
        #[trigger] store.log@[j],
        prepared.attempt_id,
    ) by {
        assert(!again.admits(store.log@[j]));
    }
    let on_plan = EventQuery::in_run(
        event.session_id,
        event.run_id->0,
        PayloadFilter::PreparedForPlan {
            revision: prepared.plan_revision,
            digest: &prepared.plan_digest,
        },
    );
    if prepared.parent_attempt_id is None {
        let places = crate::history::law_selections_have_ends(on_plan, store.log@);
        assert forall|j: int|
            0 <= j < store.log@.len() && crate::root_planning_state::is_of_run(
                #[trigger] store.log@[j],
                event.session_id,
                event.run_id->0,
            ) implies (store.log@[j].payload matches EventPayload::PlannerInferencePrepared(other)
            ==> other.plan_revision != prepared.plan_revision || other.plan_digest@
            != prepared.plan_digest@) by {
            assert(!on_plan.admits(store.log@[j]));
        }
    }
}

/// All inferences of a run keep to what its first one fixed: the obligations, the acceptance policy
/// and the planner's policy.
pub proof fn law_inferences_keep_to_the_first(
    store: Store,
    event: EventEnvelope,
    prepared: PlannerInferencePrepared,
    reads: PreparationReads,
    p: int,
)
    requires
        preparation_verdict(store, event, prepared, reads) is Ok,
        0 <= p < store.log@.len(),
        crate::root_planning_state::is_of_run(store.log@[p], event.session_id, event.run_id->0),
        forall|j: int|
            0 <= j < p && crate::root_planning_state::is_of_run(
                #[trigger] store.log@[j],
                event.session_id,
                event.run_id->0,
            ) ==> !(store.log@[j].payload is PlannerInferencePrepared),
    ensures
        store.log@[p].payload matches EventPayload::PlannerInferencePrepared(first) ==> {
            &&& first.obligation_snapshot_digest@ == prepared.obligation_snapshot_digest@
            &&& first.acceptance_policy_digest@ == prepared.acceptance_policy_digest@
            &&& first.planner_policy_digest@ == prepared.planner_policy_digest@
        },
{
    let query = EventQuery::in_run(
        event.session_id,
        event.run_id->0,
        PayloadFilter::InferencePrepared,
    );
    if store.log@[p].payload is PlannerInferencePrepared {
        assert(query.admits(store.log@[p]));
        assert forall|j: int| 0 <= j < p implies !query.admits(#[trigger] store.log@[j]) by {}
        crate::history::law_ends_of_a_selection(query, store.log@, p);
    }
}

/// Nothing is prepared after a cancellation: where the last one that was asked for has a generation,
/// every inference is refused.
pub proof fn law_cancelled_runs_prepare_nothing(
    store: Store,
    event: EventEnvelope,
    prepared: PlannerInferencePrepared,
    reads: PreparationReads,
    i: int,
)
    requires
        0 <= i < store.log@.len(),
        event.run_id is Some,
        crate::root_planning_state::is_of_run(store.log@[i], event.session_id, event.run_id->0),
        store.log@[i].payload matches EventPayload::CancellationRequested(request)
            && request.cancellation_generation != 0,
        forall|j: int|
            i < j < store.log@.len() && crate::root_planning_state::is_of_run(
                #[trigger] store.log@[j],
                event.session_id,
                event.run_id->0,
            ) ==> !(store.log@[j].payload is CancellationRequested),
    ensures
        preparation_verdict(store, event, prepared, reads) == Err::<(), StoreError>(
            StoreError::InvalidStateEvent,
        ),
{
    let query = EventQuery::in_run(
        event.session_id,
        event.run_id->0,
        PayloadFilter::CancellationRequested,
    );
    assert(query.admits(store.log@[i]));
    assert forall|j: int| i < j < store.log@.len() implies !query.admits(
        #[trigger] store.log@[j],
    ) by {}
    crate::history::law_ends_of_a_selection(query, store.log@, i);
}

/// Producers use the model that the run selected, and no call asks for more output than the run
/// allows; critics may use another model.
pub proof fn law_producers_use_the_selected_model(
    store: Store,
    event: EventEnvelope,
    prepared: PlannerInferencePrepared,
    reads: PreparationReads,
)
    requires
        preparation_verdict(store, event, prepared, reads) is Ok,
    ensures
        store.run_record(event.run_id->0) matches Some(run) && {
            &&& supports_root_planning(&store.contract, run.spec.purpose)
            &&& run.spec.limits.max_output_tokens matches Some(limit)
                ==> prepared.token_reservation.max_output_tokens <= limit
            &&& match prepared.stage_context {
                Some(PlannerStageContext::InitialReview { .. }) => true,
                Some(PlannerStageContext::FinalReview { .. }) => true,
                _ => {
                    &&& run.spec.backend.backend_id@ == prepared.backend_model.backend_id@
                    &&& run.spec.backend.kind == prepared.backend_model.kind
                    &&& run.spec.backend.model matches Some(model) ==> model@
                        == prepared.backend_model.model_id@
                },
            }
        },
{
}

/// An observation is of the inference that it names: it follows the preparation, by the same actor,
/// names its attempt and its reservation, and nothing ended that attempt before.
pub proof fn law_observations_end_what_was_prepared(
    store: Store,
    event: EventEnvelope,
    observed: PlannerInferenceObserved,
    claim_owner: Result<(), StoreError>,
    evidence: Result<RetainedInferenceEvidence, StoreError>,
    backend: BackendNameReading,
) -> (place: int)
    requires
        observation_verdict(store, event, observed, claim_owner, evidence, backend) is Ok,
    ensures
        claim_owner is Ok,
        0 <= place < store.log@.len(),
        crate::root_planning_state::is_of_run(
            store.log@[place],
            event.session_id,
            event.run_id->0,
        ),
        store.log@[place].id == observed.prepared_event_id,
        event.causal_parent == Some(store.log@[place].id),
        event.actor_id == store.log@[place].actor_id,
        store.log@[place].payload matches EventPayload::PlannerInferencePrepared(prepared) && {
            &&& observed.attempt_id == prepared.attempt_id
            &&& observed.token_reservation_id == prepared.token_reservation.id
            &&& prepared.stage_context is Some ==> (evidence matches Ok(evidence)
                && observed.outcome.same(&observation_of(prepared, evidence, backend)))
            &&& observed.outcome matches PlannerInferenceObservation::Succeeded {
                reported_backend_model,
                token_usage,
            } ==> {
                &&& reported_backend_model.backend_id@ == prepared.backend_model.backend_id@
                &&& reported_backend_model.kind == prepared.backend_model.kind
                &&& reported_backend_model.model_id@ == prepared.backend_model.model_id@
                &&& token_usage.output_tokens <= prepared.token_reservation.max_output_tokens
                &&& token_usage.input_tokens + token_usage.output_tokens
                    == token_usage.total_tokens
                &&& token_usage.total_tokens <= prepared.token_reservation.reserved_tokens
            }
        },
        forall|j: int|
            0 <= j < store.log@.len() && crate::root_planning_state::is_of_run(
                #[trigger] store.log@[j],
                event.session_id,
                event.run_id->0,
            ) ==> {
                &&& store.log@[j].payload matches EventPayload::PlannerInferenceObserved(other)
                    ==> other.attempt_id != observed.attempt_id
                &&& store.log@[j].payload matches EventPayload::PlannerInferenceOutcomeUnknown(
                    other,
                ) ==> other.attempt_id != observed.attempt_id
            },
{
    let run_id = event.run_id->0;
    let ended = EventQuery::in_run(
        event.session_id,
        run_id,
        PayloadFilter::InferenceTerminal(observed.attempt_id),
    );
    let ends = crate::history::law_selections_have_ends(ended, store.log@);
    assert forall|j: int| 0 <= j < store.log@.len() implies !ended.admits(
        #[trigger] store.log@[j],
    ) by {}
    crate::planning_ground::law_events_are_found_by_identity(
        store,
        event.session_id,
        run_id,
        observed.prepared_event_id,
    )
}

/// An unknown outcome is of the inference that it names: it follows the preparation, names its attempt
/// and its reservation, and nothing ended that attempt before. Of a stage it also keeps the boundary
/// at which the outcome was lost.
pub proof fn law_unknown_outcomes_end_what_was_prepared(
    store: Store,
    event: EventEnvelope,
    unknown: PlannerInferenceOutcomeUnknown,
    claim_owner: Result<(), StoreError>,
    boundary: Result<RetainedCancellationBoundaryEvidence, StoreError>,
) -> (place: int)
    requires
        unknown_verdict(store, event, unknown, claim_owner, boundary) is Ok,
    ensures
        claim_owner is Ok,
        0 <= place < store.log@.len(),
        crate::root_planning_state::is_of_run(
            store.log@[place],
            event.session_id,
            event.run_id->0,
        ),
        store.log@[place].id == unknown.prepared_event_id,
        event.causal_parent == Some(store.log@[place].id),
        store.log@[place].payload matches EventPayload::PlannerInferencePrepared(prepared) && {
            &&& unknown.attempt_id == prepared.attempt_id
            &&& unknown.token_reservation_id == prepared.token_reservation.id
            &&& prepared.stage_context is Some ==> (boundary matches Ok(kept) && {
                &&& kept.prepared_event_id == unknown.prepared_event_id
                &&& kept.cancellation_generation == unknown.cancellation_generation
                &&& kept.reason == UnknownInferenceBoundary::ClaimRenewalFailed
                    <==> unknown.reason
                    == UnknownInferenceOutcomeReason::ClaimExpiredBeforeObservation
                &&& kept.reason == UnknownInferenceBoundary::Deadline ==> unknown.reason
                    == UnknownInferenceOutcomeReason::EvidenceCommitIndeterminate
                &&& (kept.reason == UnknownInferenceBoundary::Restart || kept.reason
                    == UnknownInferenceBoundary::Shutdown) ==> unknown.reason
                    == UnknownInferenceOutcomeReason::RuntimeRestartedBeforeObservation
            })
        },
        forall|j: int|
            0 <= j < store.log@.len() && crate::root_planning_state::is_of_run(
                #[trigger] store.log@[j],
                event.session_id,
                event.run_id->0,
            ) ==> {
                &&& store.log@[j].payload matches EventPayload::PlannerInferenceObserved(other)
                    ==> other.attempt_id != unknown.attempt_id
                &&& store.log@[j].payload matches EventPayload::PlannerInferenceOutcomeUnknown(
                    other,
                ) ==> other.attempt_id != unknown.attempt_id
            },
{
    let run_id = event.run_id->0;
    let ended = EventQuery::in_run(
        event.session_id,
        run_id,
        PayloadFilter::InferenceTerminal(unknown.attempt_id),
    );
    let ends = crate::history::law_selections_have_ends(ended, store.log@);
    assert forall|j: int| 0 <= j < store.log@.len() implies !ended.admits(
        #[trigger] store.log@[j],
    ) by {}
    crate::planning_ground::law_events_are_found_by_identity(
        store,
        event.session_id,
        run_id,
        unknown.prepared_event_id,
    )
}

/// Every boundary at which an outcome is lost has its reasons: a lost claim has one of its own, a
/// deadline leaves the evidence in doubt, a restart or a shutdown comes before the observation, and a
/// cancellation may be either of the last two.
pub proof fn law_lost_outcomes_have_their_reasons(
    reason: UnknownInferenceOutcomeReason,
    boundary: UnknownInferenceBoundary,
)
    ensures
        boundary == UnknownInferenceBoundary::ClaimRenewalFailed ==> (reason_fits_boundary(
            reason,
            boundary,
        ) <==> reason == UnknownInferenceOutcomeReason::ClaimExpiredBeforeObservation),
        boundary == UnknownInferenceBoundary::Deadline ==> (reason_fits_boundary(reason, boundary)
            <==> reason == UnknownInferenceOutcomeReason::EvidenceCommitIndeterminate),
        boundary == UnknownInferenceBoundary::Restart || boundary
            == UnknownInferenceBoundary::Shutdown ==> (reason_fits_boundary(reason, boundary)
            <==> reason == UnknownInferenceOutcomeReason::RuntimeRestartedBeforeObservation),
        boundary == UnknownInferenceBoundary::Cancelled ==> (reason_fits_boundary(reason, boundary)
            <==> reason != UnknownInferenceOutcomeReason::ClaimExpiredBeforeObservation),
{
}

/// Only an answer of the prepared model within its reservation is a success; an answer of anyone else
/// is a violation that no retry mends, and a call that was never made or was cancelled is no success.
pub proof fn law_only_own_answers_succeed(
    prepared: PlannerInferencePrepared,
    evidence: RetainedInferenceEvidence,
    backend: BackendNameReading,
)
    ensures
        observation_of(prepared, evidence, backend) matches PlannerInferenceObservation::Succeeded {
            reported_backend_model,
            token_usage,
        } ==> {
            &&& reported_backend_model == prepared.backend_model
            &&& backend.is_intact
            &&& evidence matches RetainedInferenceEvidence::Response { response } && {
                &&& response.model_id@ == prepared.backend_model.model_id@
                &&& response.backend_id@ == prepared.backend_model.backend_id@
                &&& response.evidence_matches
                &&& response.normalized_usage == Some(token_usage)
                &&& token_usage.output_tokens <= prepared.token_reservation.max_output_tokens
                &&& token_usage.total_tokens <= prepared.token_reservation.reserved_tokens
                &&& token_usage.total_tokens == token_usage.input_tokens
                    + token_usage.output_tokens
            }
        },
        evidence matches RetainedInferenceEvidence::Response { response } ==> (observation_of(
            prepared,
            evidence,
            backend,
        ) matches PlannerInferenceObservation::Failed { error } ==> {
            &&& error.kind == PlannerInferenceErrorKind::ProtocolViolation
            &&& error.retry == RetryDisposition::Never
        }),
        evidence matches RetainedInferenceEvidence::Error { error } ==> {
            &&& observation_of(prepared, evidence, backend)
                matches PlannerInferenceObservation::Failed { error: seen }
            &&& (seen.kind == error.kind && seen.retry == error.retry) || (seen.kind
                == PlannerInferenceErrorKind::ProtocolViolation && seen.retry
                == RetryDisposition::Never)
            &&& error.origin.backend_id@ != prepared.backend_model.backend_id@
                || !error.structured_inference || !backend.is_intact ==> seen.kind
                == PlannerInferenceErrorKind::ProtocolViolation && seen.retry
                == RetryDisposition::Never
        },
        evidence is CancelledBeforeCall ==> {
            &&& observation_of(prepared, evidence, backend)
                matches PlannerInferenceObservation::Failed { error }
            &&& error.kind == PlannerInferenceErrorKind::Cancelled
            &&& error.retry == RetryDisposition::Never
        },
        evidence matches RetainedInferenceEvidence::NotDispatched { reason } ==> {
            &&& observation_of(prepared, evidence, backend)
                matches PlannerInferenceObservation::Failed { error }
            &&& error.kind == PlannerInferenceErrorKind::Timeout <==> reason
                == PlannerV2NotDispatchedReason::DeadlineElapsed
            &&& error.retry == RetryDisposition::RequiresNewAttempt <==> (reason
                == PlannerV2NotDispatchedReason::RuntimeShutdown || reason
                == PlannerV2NotDispatchedReason::SchedulerClosed || reason
                == PlannerV2NotDispatchedReason::ClaimLost)
            &&& error.retry == RetryDisposition::Never || error.retry
                == RetryDisposition::RequiresNewAttempt
            &&& error.kind == PlannerInferenceErrorKind::ProtocolViolation <==> (reason
                == PlannerV2NotDispatchedReason::RequestContextExceeded || reason
                == PlannerV2NotDispatchedReason::ModelProfileDrift || reason
                == PlannerV2NotDispatchedReason::BackendInstanceDrift)
            &&& error.kind == PlannerInferenceErrorKind::Timeout || error.kind
                == PlannerInferenceErrorKind::ProtocolViolation || error.kind
                == PlannerInferenceErrorKind::Cancelled
        },
{
}

/// An inference that has no stage is prepared where everything about it is in order: nothing else can
/// refuse it.
pub proof fn law_orderly_inferences_are_prepared(
    store: Store,
    event: EventEnvelope,
    run_id: RunId,
    run: Run,
    prepared: PlannerInferencePrepared,
    reads: PreparationReads,
    parent: InferenceAttemptId,
)
    requires
        event.run_id == Some(run_id),
        store.run_record(run_id) == Some(run),
        run.spec.session_id == event.session_id,
        run.spec.plan_acceptance == crate::run::PlanAcceptanceContract::LegacyMechanicalOnlyV4,
        supports_root_planning(&store.contract, run.spec.purpose),
        run.spec.limits.max_output_tokens is None,
        store.state_record(run_id) matches Some(row) && row.state == crate::run::RunState::Running,
        crate::planning_ground::follows_latest(store, event, run_id),
        forall|j: int|
            0 <= j < store.log@.len() && crate::root_planning_state::is_of_run(
                #[trigger] store.log@[j],
                event.session_id,
                run_id,
            ) ==> {
                &&& !(store.log@[j].payload is CancellationRequested)
                &&& store.log@[j].payload matches EventPayload::PlannerInferencePrepared(other)
                    ==> other.stage_context is None
            },
        forall|j: int|
            0 <= j < store.log@.len() ==> !crate::root_planning_state::prepares_attempt(
                #[trigger] store.log@[j],
                prepared.attempt_id,
            ),
        reads.claim_owner is Ok,
        reads.instance_is_intact,
        reads.reservations_with_identity == 0,
        prepared.stage_context is None,
        prepared.parent_attempt_id == Some(parent),
        parent != prepared.attempt_id,
        crate::root_planning_state::parent_ended(
            store.log@,
            event.session_id,
            run_id,
            parent,
        ) == Ok::<bool, StoreError>(true),
        crate::root_planning_state::first_preparation(
            store.log@,
            event.session_id,
            run_id,
        ) matches Some(first) && first.obligation_snapshot_digest@
            == prepared.obligation_snapshot_digest@ && first.acceptance_policy_digest@
            == prepared.acceptance_policy_digest@ && first.planner_policy_digest@
            == prepared.planner_policy_digest@,
        crate::root_planning_state::plan_base(store.log@, event.session_id, run_id) == Some(
            (prepared.plan_revision, prepared.plan_digest@),
        ),
        prepared.backend_instance matches Some(identity) && identity.backend_id@
            == prepared.backend_model.backend_id@,
        run.spec.backend.backend_id@ == prepared.backend_model.backend_id@,
        run.spec.backend.kind == prepared.backend_model.kind,
        run.spec.backend.model matches Some(model) ==> model@ == prepared.backend_model.model_id@,
        0 < prepared.token_reservation.max_output_tokens
            <= prepared.token_reservation.reserved_tokens,
    ensures
        preparation_verdict(store, event, prepared, reads) is Ok,
{
    let cancelling = EventQuery::in_run(
        event.session_id,
        run_id,
        PayloadFilter::CancellationRequested,
    );
    assert forall|j: int| 0 <= j < store.log@.len() implies !cancelling.admits(
        #[trigger] store.log@[j],
    ) by {}
    crate::history::lemma_nothing_selected(cancelling, store.log@);
    let again = EventQuery::everywhere(PayloadFilter::PreparedForAttempt(prepared.attempt_id));
    assert forall|j: int| 0 <= j < store.log@.len() implies !again.admits(
        #[trigger] store.log@[j],
    ) by {
        assert(!crate::root_planning_state::prepares_attempt(
            store.log@[j],
            prepared.attempt_id,
        ));
    }
    crate::history::lemma_nothing_selected(again, store.log@);
    let preparing = EventQuery::in_run(
        event.session_id,
        run_id,
        PayloadFilter::InferencePrepared,
    );
    crate::history::lemma_rows_admitted(preparing, store.log@);
    let previous = crate::root_planning_state::preparations(store.log@, event.session_id, run_id);
    assert forall|i: int| 0 <= i < previous.len() implies #[trigger] crate::root_planning_state::stage_in(
        previous[i],
    ) is None by {
        assert(preparing.admits(previous[i]) && store.log@.contains(previous[i]));
        let j = choose|j: int| 0 <= j < store.log@.len() && store.log@[j] == previous[i];
        assert(crate::root_planning_state::is_of_run(store.log@[j], event.session_id, run_id));
    }
}

} // verus!

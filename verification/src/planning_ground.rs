//! What every planning event stands on: a running run of its session, and the event before it.

use vstd::prelude::*;
use crate::artifact::{ArtifactRef, BackendKind, BackendModelRef, BackendSelection, ModelLineage};
use crate::contract::Contract;
use crate::error::StoreError;
use crate::event::{EventEnvelope, EventPayload};
use crate::history::{EventLog, EventQuery, PayloadFilter};
use crate::identity::{EventId, RunId, SessionId};
use crate::run::{Run, RunPurpose, RunState, Session};
use crate::store::Store;
use crate::text::Same;

verus! {

/// The run that an event belongs to; an event of no run is refused.
#[verifier::allow_in_spec]
pub fn planner_run_id(event: &EventEnvelope) -> Result<RunId, StoreError>
    returns
        (match event.run_id {
            Some(run_id) => Ok::<RunId, StoreError>(run_id),
            None => Err::<RunId, StoreError>(StoreError::InvalidStateEvent),
        }),
{
    match event.run_id {
        Some(run_id) => Ok(run_id),
        None => Err(StoreError::InvalidStateEvent),
    }
}

/// Whether runs of this purpose plan at their root.
#[verifier::allow_in_spec]
pub fn supports_root_planning(contract: &Contract, purpose: RunPurpose) -> bool
    returns
        (match purpose {
            RunPurpose::General => contract.purposes.general,
            RunPurpose::RootPlanningV1 => contract.purposes.root_planning,
            RunPurpose::ParallelRepositoryReconnaissanceV1 => contract.purposes.reconnaissance,
        }),
{
    match purpose {
        RunPurpose::General => contract.purposes.general,
        RunPurpose::RootPlanningV1 => contract.purposes.root_planning,
        RunPurpose::ParallelRepositoryReconnaissanceV1 => contract.purposes.reconnaissance,
    }
}

/// The run of an event, where the run belongs to the event's session.
pub open spec fn run_of(store: Store, session_id: SessionId, run_id: RunId) -> Option<Run> {
    match store.run_record(run_id) {
        Some(run) => if run.spec.session_id == session_id {
            Some(run)
        } else {
            None
        },
        None => None,
    }
}

/// Whether the run of an event is running.
pub open spec fn run_is_running(store: Store, run_id: RunId) -> bool {
    store.state_record(run_id) matches Some(row) && row.state == RunState::Running
}

/// The last event recorded for a run.
pub open spec fn latest_event(
    events: Seq<EventEnvelope>,
    session_id: SessionId,
    run_id: RunId,
) -> Option<EventEnvelope> {
    EventQuery::in_run(session_id, run_id, PayloadFilter::Any).last_of(events)
}

/// Whether an event follows the last event recorded for its run.
pub open spec fn follows_latest(store: Store, event: EventEnvelope, run_id: RunId) -> bool {
    latest_event(store.log@, event.session_id, run_id) matches Some(latest) && event.causal_parent
        == Some(latest.id)
}

/// The last event recorded for a run that is no claim.
pub open spec fn latest_non_claim(
    events: Seq<EventEnvelope>,
    session_id: SessionId,
    run_id: RunId,
) -> Option<EventEnvelope> {
    EventQuery::in_run(session_id, run_id, PayloadFilter::NotRunClaimed).last_of(events)
}

/// The last event recorded for a run that is no claim.
pub fn latest_non_claim_event<'a>(log: &'a EventLog, session_id: SessionId, run_id: RunId) -> (r:
    Option<&'a EventEnvelope>)
    ensures
        latest_non_claim(log@, session_id, run_id) == (match r {
            Some(event) => Some(*event),
            None => None,
        }),
{
    log.last(&EventQuery::in_run(session_id, run_id, PayloadFilter::NotRunClaimed))
}

impl Store {
    /// The run of an event, where the run belongs to the event's session.
    pub fn run_of_event(&self, session_id: SessionId, run_id: RunId) -> (r: Option<&Run>)
        ensures
            run_of(*self, session_id, run_id) == (match r {
                Some(run) => Some(*run),
                None => None,
            }),
    {
        match self.durable_run(run_id) {
            Ok(run) => if run.spec.session_id == session_id {
                Some(run)
            } else {
                None
            },
            Err(_) => None,
        }
    }

    /// Whether the run of an event is running.
    pub fn is_running(&self, run_id: RunId) -> (r: bool)
        ensures
            r == run_is_running(*self, run_id),
    {
        match self.run_state(run_id) {
            Some(row) => row.state == RunState::Running,
            None => false,
        }
    }

    /// Whether an event follows the last event recorded for its run.
    pub fn is_after_latest(&self, event: &EventEnvelope, run_id: RunId) -> (r: bool)
        ensures
            r == follows_latest(*self, *event, run_id),
    {
        match self.log.last(&EventQuery::in_run(event.session_id, run_id, PayloadFilter::Any)) {
            Some(latest) => event.causal_parent == Some(latest.id),
            None => false,
        }
    }

    /// The session and the run of an event, where the run belongs to the session.
    pub fn durable_session_and_run(&self, session_id: SessionId, run_id: RunId) -> (r: Result<
        (&Session, &Run),
        StoreError,
    >)
        ensures
            match (r, session_and_run(*self, session_id, run_id)) {
                (Ok((session, run)), Some((expected_session, expected_run))) => *session
                    == expected_session && *run == expected_run,
                (Err(error), None) => error == StoreError::InvalidStateEvent,
                _ => false,
            },
    {
        let session = match self.durable_session(session_id) {
            Ok(session) => session,
            Err(error) => return Err(error),
        };
        match self.run_of_event(session_id, run_id) {
            Some(run) => Ok((session, run)),
            None => Err(StoreError::InvalidStateEvent),
        }
    }
}

/// The session and the run of an event, where the run belongs to the session.
pub open spec fn session_and_run(store: Store, session_id: SessionId, run_id: RunId) -> Option<
    (Session, Run),
> {
    match (store.session_record(session_id), run_of(store, session_id, run_id)) {
        (Some(session), Some(run)) => Some((session, run)),
        _ => None,
    }
}

/// Whether an event comes from exactly one backend and keeps exactly one artifact, or none.
pub open spec fn exact_provenance(
    event: EventEnvelope,
    backend: BackendSelection,
    artifact: Option<ArtifactRef>,
) -> bool {
    &&& event.provenance.backend matches Some(actual) && actual.same(&backend)
    &&& match (event.provenance.raw_artifact, artifact) {
        (Some(actual), Some(expected)) => actual.same(&expected),
        (None, None) => true,
        _ => false,
    }
}

/// Whether an event comes from exactly one backend and keeps exactly one artifact, or none.
pub fn has_exact_model_provenance(
    event: &EventEnvelope,
    backend: &BackendSelection,
    artifact: Option<&ArtifactRef>,
) -> (r: bool)
    ensures
        r == exact_provenance(
            *event,
            *backend,
            match artifact {
                Some(artifact) => Some(*artifact),
                None => None,
            },
        ),
{
    let served = match &event.provenance.backend {
        Some(actual) => *actual == *backend,
        None => false,
    };
    let kept = match (&event.provenance.raw_artifact, artifact) {
        (Some(actual), Some(expected)) => *actual == *expected,
        (None, None) => true,
        _ => false,
    };
    served && kept
}

/// Whether `backend` is the selection of one exact model, with the effort that the run asked for.
pub open spec fn selects_model(
    backend: BackendSelection,
    run: Run,
    backend_id: Seq<char>,
    kind: BackendKind,
    model_id: Seq<char>,
) -> bool {
    &&& backend.backend_id@ == backend_id
    &&& backend.kind == kind
    &&& backend.model matches Some(model) && model@ == model_id
    &&& backend.reasoning_effort == run.spec.backend.reasoning_effort
}

/// The selection that a lineage stands for.
pub fn expected_lineage_backend_selection(run: &Run, lineage: &ModelLineage) -> (r: BackendSelection)
    ensures
        selects_model(r, *run, lineage.backend_id@, BackendKind::Model, lineage.model_id@),
        r == lineage_selection(*run, *lineage),
{
    BackendSelection {
        backend_id: lineage.backend_id.clone(),
        kind: BackendKind::Model,
        model: Some(lineage.model_id.clone()),
        reasoning_effort: match &run.spec.backend.reasoning_effort {
            Some(effort) => Some(effort.clone()),
            None => None,
        },
    }
}

/// The selection that a lineage stands for.
pub open spec fn lineage_selection(run: Run, lineage: ModelLineage) -> BackendSelection {
    BackendSelection {
        backend_id: lineage.backend_id,
        kind: BackendKind::Model,
        model: Some(lineage.model_id),
        reasoning_effort: run.spec.backend.reasoning_effort,
    }
}

/// The selection that an exact model on an exact backend stands for.
pub open spec fn model_selection(run: Run, model: BackendModelRef) -> BackendSelection {
    BackendSelection {
        backend_id: model.backend_id,
        kind: model.kind,
        model: Some(model.model_id),
        reasoning_effort: run.spec.backend.reasoning_effort,
    }
}

/// The selection that an exact model on an exact backend stands for.
pub fn expected_backend_selection(run: &Run, model: &BackendModelRef) -> (r: BackendSelection)
    ensures
        r == model_selection(*run, *model),
{
    BackendSelection {
        backend_id: model.backend_id.clone(),
        kind: model.kind,
        model: Some(model.model_id.clone()),
        reasoning_effort: match &run.spec.backend.reasoning_effort {
            Some(effort) => Some(effort.clone()),
            None => None,
        },
    }
}

/// The event of a run with one identity.
pub open spec fn event_of_run(
    store: Store,
    session_id: SessionId,
    run_id: RunId,
    id: EventId,
) -> Option<EventEnvelope> {
    EventQuery::by_id(session_id, run_id, id).first_of(store.log@)
}

/// What a claim event claims.
pub open spec fn claim_in(event: EventEnvelope) -> Option<crate::run::RunClaimed> {
    match event.payload {
        EventPayload::RunClaimed(claim) => Some(claim),
        _ => None,
    }
}

/// An event follows the last one of its run: it names it as its causal parent, and a run without
/// events can be followed by none.
pub proof fn law_followers_name_the_last_event(
    store: Store,
    event: EventEnvelope,
    run_id: RunId,
    i: int,
)
    requires
        0 <= i < store.log@.len(),
        store.log@[i].session_id == event.session_id,
        store.log@[i].run_id == Some(run_id),
        forall|j: int|
            i < j < store.log@.len() && (#[trigger] store.log@[j]).session_id == event.session_id
                ==> store.log@[j].run_id != Some(run_id),
    ensures
        follows_latest(store, event, run_id) <==> event.causal_parent == Some(store.log@[i].id),
{
    let query = EventQuery::in_run(event.session_id, run_id, PayloadFilter::Any);
    assert(query.admits(store.log@[i]));
    assert forall|j: int| i < j < store.log@.len() implies !query.admits(
        #[trigger] store.log@[j],
    ) by {}
    crate::history::law_ends_of_a_selection(query, store.log@, i);
}

/// A run is found under its own identity and in its own session only, and it is running where its
/// projected state says so.
pub proof fn law_runs_are_found_as_they_are(store: Store, session_id: SessionId, run_id: RunId)
    ensures
        run_of(store, session_id, run_id) matches Some(run) ==> {
            &&& store.runs@.contains(run)
            &&& run.id == run_id
            &&& run.spec.session_id == session_id
        },
        run_is_running(store, run_id) ==> (store.state_record(run_id) matches Some(row)
            && store.run_states@.contains(row) && row.run_id == run_id && row.state
            == RunState::Running),
{
    let run = crate::store::law_runs_are_found_by_identity(store.runs@, run_id);
    let row = crate::store::law_states_are_found_by_identity(store.run_states@, run_id);
}

/// What is found under an identity in a run has that identity, and is on record in that run.
pub proof fn law_events_are_found_by_identity(
    store: Store,
    session_id: SessionId,
    run_id: RunId,
    id: EventId,
) -> (place: int)
    ensures
        match event_of_run(store, session_id, run_id, id) {
            Some(event) => {
                &&& 0 <= place < store.log@.len()
                &&& store.log@[place] == event
                &&& event.id == id
                &&& event.session_id == session_id
                &&& event.run_id == Some(run_id)
            },
            None => forall|j: int|
                0 <= j < store.log@.len() && (#[trigger] store.log@[j]).session_id == session_id
                    && store.log@[j].run_id == Some(run_id) ==> store.log@[j].id != id,
        },
{
    let query = EventQuery::by_id(session_id, run_id, id);
    let ends = crate::history::law_selections_have_ends(query, store.log@);
    assert forall|j: int|
        0 <= j < store.log@.len() && (#[trigger] store.log@[j]).session_id == session_id
            && store.log@[j].run_id == Some(run_id) && store.log@[j].id == id implies query.admits(
        store.log@[j],
    ) by {}
    ends.0
}

/// An event comes from a backend where it names that backend, that kind, that model and that effort,
/// and it keeps an artifact exactly where one is expected.
pub proof fn law_provenance_is_exact(
    event: EventEnvelope,
    backend: BackendSelection,
    artifact: Option<ArtifactRef>,
)
    requires
        exact_provenance(event, backend, artifact),
    ensures
        event.provenance.backend matches Some(actual) && {
            &&& actual.backend_id@ == backend.backend_id@
            &&& actual.kind == backend.kind
            &&& actual.model is Some <==> backend.model is Some
            &&& actual.model matches Some(model) ==> model@ == (backend.model->0)@
        },
        event.provenance.raw_artifact is Some <==> artifact is Some,
        artifact matches Some(expected) ==> {
            &&& (event.provenance.raw_artifact->0).sha256@ == expected.sha256@
            &&& (event.provenance.raw_artifact->0).media_type@ == expected.media_type@
        },
{
}

/// The selection of a model names its backend, its kind and the model itself, and keeps the effort of
/// the run; that of a lineage is always a model's.
pub proof fn law_selections_name_their_model(run: Run, model: BackendModelRef, lineage: ModelLineage)
    ensures
        model_selection(run, model).backend_id@ == model.backend_id@,
        model_selection(run, model).kind == model.kind,
        model_selection(run, model).model matches Some(name) && name@ == model.model_id@,
        model_selection(run, model).reasoning_effort == run.spec.backend.reasoning_effort,
        lineage_selection(run, lineage).backend_id@ == lineage.backend_id@,
        lineage_selection(run, lineage).kind == BackendKind::Model,
        lineage_selection(run, lineage).model matches Some(name) && name@ == lineage.model_id@,
        lineage_selection(run, lineage).reasoning_effort == run.spec.backend.reasoning_effort,
{
}

} // verus!

//! The definitions that the tables and triggers of a database must have.

use vstd::prelude::*;
use crate::schema_objects::{ExpectedColumn, ExpectedKeyColumn};
use crate::text::Text;

verus! {

/// A trigger that a database must have.
#[derive(Debug)]
pub struct ExpectedTrigger {
    pub name: &'static str,
    pub sql: &'static str,
}

/// The definitions that are written when a table or an index is created.
#[derive(Debug)]
pub struct CanonicalSql {
    pub event_run_sequence_index: Text,
    pub run_state_projection: Text,
    pub event_identity_projection: Text,
}

pub const SESSIONS_TABLE: &'static str = "CREATE TABLE sessions (
    id TEXT PRIMARY KEY NOT NULL,
    value_json TEXT NOT NULL
)";

pub const RUNS_TABLE: &'static str = "CREATE TABLE runs (
    id TEXT PRIMARY KEY NOT NULL,
    session_id TEXT NOT NULL,
    value_json TEXT NOT NULL,
    UNIQUE(id, session_id),
    FOREIGN KEY(session_id) REFERENCES sessions(id)
)";

pub const EVENTS_TABLE: &'static str = "CREATE TABLE events (
    id TEXT PRIMARY KEY NOT NULL,
    session_id TEXT NOT NULL,
    run_id TEXT,
    causal_parent TEXT,
    sequence INTEGER NOT NULL,
    value_json TEXT NOT NULL,
    UNIQUE(id, session_id),
    UNIQUE(session_id, sequence),
    FOREIGN KEY(session_id) REFERENCES sessions(id),
    FOREIGN KEY(run_id, session_id) REFERENCES runs(id, session_id),
    FOREIGN KEY(causal_parent, session_id) REFERENCES events(id, session_id)
)";

pub const RUNTIME_HEALTH_CANARY_TABLE: &'static str = "CREATE TABLE runtime_health_canary (
    id INTEGER PRIMARY KEY NOT NULL CHECK(id = 1),
    generation INTEGER NOT NULL
)";

pub const RUN_STATE_PROJECTION_HEALTH_TABLE: &'static str = "CREATE TABLE run_state_projection_health (
    id INTEGER PRIMARY KEY NOT NULL CHECK(id = 1),
    materialized_runs INTEGER NOT NULL CHECK(materialized_runs >= 0),
    projected_runs INTEGER NOT NULL CHECK(projected_runs >= 0)
)";

pub const EVENTS_ARE_IMMUTABLE_ON_UPDATE: &'static str = "CREATE TRIGGER events_are_immutable_on_update
BEFORE UPDATE ON events BEGIN
    SELECT RAISE(ABORT, 'events are immutable');
END";

pub const EVENTS_ARE_IMMUTABLE_ON_DELETE: &'static str = "CREATE TRIGGER events_are_immutable_on_delete
BEFORE DELETE ON events BEGIN
    SELECT RAISE(ABORT, 'events are immutable');
END";

pub const EVENTS_REJECT_CONFLICTING_INSERT: &'static str = "CREATE TRIGGER events_reject_conflicting_insert
BEFORE INSERT ON events
WHEN EXISTS (
    SELECT 1 FROM events
    WHERE id = NEW.id
       OR (session_id = NEW.session_id AND sequence = NEW.sequence)
) BEGIN
    SELECT RAISE(ABORT, 'events are append-only');
END";

pub const EVENTS_REJECT_OVERSIZED_INSERT: &'static str = "CREATE TRIGGER events_reject_oversized_insert
BEFORE INSERT ON events
WHEN length(CAST(NEW.value_json AS BLOB)) > 262144 BEGIN
    SELECT RAISE(ABORT, 'event exceeds inline size limit');
END";

pub const EVENTS_PROJECT_RUN_CREATION_AFTER_INSERT: &'static str = "CREATE TRIGGER events_project_run_creation_after_insert
AFTER INSERT ON events
WHEN json_extract(NEW.value_json, '$.payload.type') = 'run_created'
BEGIN
    SELECT CASE
        WHEN json_extract(NEW.value_json, '$.payload.data.run.state') != 'queued'
        THEN RAISE(ABORT, 'run creation state must be queued')
    END;
    INSERT INTO run_state_projection (
        run_id, session_id, state, state_sequence
    ) VALUES (
        NEW.run_id,
        NEW.session_id,
        json_extract(NEW.value_json, '$.payload.data.run.state'),
        NEW.sequence
    );
END";

pub const EVENTS_PROJECT_RUN_STATE_AFTER_INSERT: &'static str = "CREATE TRIGGER events_project_run_state_after_insert
AFTER INSERT ON events
WHEN json_extract(NEW.value_json, '$.payload.type') = 'run_state_changed'
BEGIN
    UPDATE run_state_projection
    SET state = json_extract(NEW.value_json, '$.payload.data.to'),
        state_sequence = NEW.sequence
    WHERE run_id = NEW.run_id
      AND session_id = NEW.session_id
      AND state = json_extract(NEW.value_json, '$.payload.data.from')
      AND state_sequence < NEW.sequence
      AND (
          (
              json_extract(NEW.value_json, '$.payload.data.from')
                  IN ('queued', 'waiting')
              AND json_extract(NEW.value_json, '$.payload.data.to')
                  IN ('running', 'failed', 'cancelled')
          ) OR (
              json_extract(NEW.value_json, '$.payload.data.from') = 'running'
              AND json_extract(NEW.value_json, '$.payload.data.to')
                  IN ('waiting', 'completed', 'failed', 'cancelled')
          )
      );
    SELECT CASE WHEN changes() != 1
        THEN RAISE(ABORT, 'invalid run state transition')
    END;
END";

pub const RUNS_REJECT_IDENTITY_UPDATE: &'static str = "CREATE TRIGGER runs_reject_identity_update
BEFORE UPDATE OF id, session_id ON runs BEGIN
    SELECT RAISE(ABORT, 'run identity is immutable');
END";

pub const RUNS_REJECT_DELETE: &'static str = "CREATE TRIGGER runs_reject_delete
BEFORE DELETE ON runs BEGIN
    SELECT RAISE(ABORT, 'runs are immutable');
END";

pub const RUNS_TRACK_PROJECTION_HEALTH_AFTER_INSERT: &'static str = "CREATE TRIGGER runs_track_projection_health_after_insert
AFTER INSERT ON runs BEGIN
    UPDATE run_state_projection_health
    SET materialized_runs = materialized_runs + 1 WHERE id = 1;
    SELECT CASE WHEN changes() != 1
        THEN RAISE(ABORT, 'run projection health row is missing')
    END;
END";

pub const RUN_STATE_PROJECTION_VALIDATE_BEFORE_INSERT: &'static str = "CREATE TRIGGER run_state_projection_validate_before_insert
BEFORE INSERT ON run_state_projection
WHEN NOT EXISTS (
    SELECT 1 FROM events
    WHERE events.run_id = NEW.run_id
      AND events.session_id = NEW.session_id
      AND events.sequence = NEW.state_sequence
      AND (
          (
              json_extract(events.value_json, '$.payload.type') = 'run_created'
              AND NEW.state = 'queued'
          ) OR (
              json_extract(events.value_json, '$.payload.type') = 'run_state_changed'
              AND json_extract(events.value_json, '$.payload.data.to') = NEW.state
          )
      )
) BEGIN
    SELECT RAISE(ABORT, 'run projection has no authoritative event');
END";

pub const RUN_STATE_PROJECTION_VALIDATE_BEFORE_UPDATE: &'static str = "CREATE TRIGGER run_state_projection_validate_before_update
BEFORE UPDATE ON run_state_projection
WHEN NEW.run_id != OLD.run_id
  OR NEW.session_id != OLD.session_id
  OR NEW.state_sequence <= OLD.state_sequence
  OR NOT EXISTS (
      SELECT 1 FROM events
      WHERE events.run_id = NEW.run_id
        AND events.session_id = NEW.session_id
        AND events.sequence = NEW.state_sequence
        AND json_extract(events.value_json, '$.payload.type') = 'run_state_changed'
        AND json_extract(events.value_json, '$.payload.data.from') = OLD.state
        AND json_extract(events.value_json, '$.payload.data.to') = NEW.state
  )
BEGIN
    SELECT RAISE(ABORT, 'run projection update is not authoritative');
END";

pub const RUN_STATE_PROJECTION_REJECT_DELETE: &'static str = "CREATE TRIGGER run_state_projection_reject_delete
BEFORE DELETE ON run_state_projection BEGIN
    SELECT RAISE(ABORT, 'run projections are immutable');
END";

pub const RUN_STATE_PROJECTION_TRACK_HEALTH_AFTER_INSERT: &'static str = "CREATE TRIGGER run_state_projection_track_health_after_insert
AFTER INSERT ON run_state_projection BEGIN
    UPDATE run_state_projection_health
    SET projected_runs = projected_runs + 1 WHERE id = 1;
    SELECT CASE WHEN changes() != 1
        THEN RAISE(ABORT, 'run projection health row is missing')
    END;
END";

pub const EVENTS_PROJECT_IDENTITY_AFTER_INSERT: &'static str = "CREATE TRIGGER events_project_identity_after_insert
AFTER INSERT ON events BEGIN
    INSERT INTO event_identity_projection (event_id, session_id, sequence)
    VALUES (NEW.id, NEW.session_id, NEW.sequence);
END";

pub const EVENT_IDENTITY_PROJECTION_REJECT_UPDATE: &'static str = "CREATE TRIGGER event_identity_projection_reject_update
BEFORE UPDATE ON event_identity_projection BEGIN
    SELECT RAISE(ABORT, 'event identity projections are immutable');
END";

pub const EVENT_IDENTITY_PROJECTION_REJECT_DELETE: &'static str = "CREATE TRIGGER event_identity_projection_reject_delete
BEFORE DELETE ON event_identity_projection BEGIN
    SELECT RAISE(ABORT, 'event identity projections are immutable');
END";

/// All triggers, in the order in which versions of the schema added them.
pub open spec fn all_triggers() -> Seq<ExpectedTrigger> {
    seq![
        ExpectedTrigger { name: "events_are_immutable_on_update", sql: EVENTS_ARE_IMMUTABLE_ON_UPDATE },
        ExpectedTrigger { name: "events_are_immutable_on_delete", sql: EVENTS_ARE_IMMUTABLE_ON_DELETE },
        ExpectedTrigger { name: "events_reject_conflicting_insert", sql: EVENTS_REJECT_CONFLICTING_INSERT },
        ExpectedTrigger { name: "events_reject_oversized_insert", sql: EVENTS_REJECT_OVERSIZED_INSERT },
        ExpectedTrigger { name: "events_project_run_creation_after_insert", sql: EVENTS_PROJECT_RUN_CREATION_AFTER_INSERT },
        ExpectedTrigger { name: "events_project_run_state_after_insert", sql: EVENTS_PROJECT_RUN_STATE_AFTER_INSERT },
        ExpectedTrigger { name: "runs_reject_identity_update", sql: RUNS_REJECT_IDENTITY_UPDATE },
        ExpectedTrigger { name: "runs_reject_delete", sql: RUNS_REJECT_DELETE },
        ExpectedTrigger { name: "runs_track_projection_health_after_insert", sql: RUNS_TRACK_PROJECTION_HEALTH_AFTER_INSERT },
        ExpectedTrigger { name: "run_state_projection_validate_before_insert", sql: RUN_STATE_PROJECTION_VALIDATE_BEFORE_INSERT },
        ExpectedTrigger { name: "run_state_projection_validate_before_update", sql: RUN_STATE_PROJECTION_VALIDATE_BEFORE_UPDATE },
        ExpectedTrigger { name: "run_state_projection_reject_delete", sql: RUN_STATE_PROJECTION_REJECT_DELETE },
        ExpectedTrigger { name: "run_state_projection_track_health_after_insert", sql: RUN_STATE_PROJECTION_TRACK_HEALTH_AFTER_INSERT },
        ExpectedTrigger { name: "events_project_identity_after_insert", sql: EVENTS_PROJECT_IDENTITY_AFTER_INSERT },
        ExpectedTrigger { name: "event_identity_projection_reject_update", sql: EVENT_IDENTITY_PROJECTION_REJECT_UPDATE },
        ExpectedTrigger { name: "event_identity_projection_reject_delete", sql: EVENT_IDENTITY_PROJECTION_REJECT_DELETE },
    ]
}

/// All triggers, in the order in which versions of the schema added them.
pub fn canonical_triggers() -> (r: Vec<ExpectedTrigger>)
    ensures
        r@ == all_triggers(),
{
    let triggers = vec![
        ExpectedTrigger { name: "events_are_immutable_on_update", sql: EVENTS_ARE_IMMUTABLE_ON_UPDATE },
        ExpectedTrigger { name: "events_are_immutable_on_delete", sql: EVENTS_ARE_IMMUTABLE_ON_DELETE },
        ExpectedTrigger { name: "events_reject_conflicting_insert", sql: EVENTS_REJECT_CONFLICTING_INSERT },
        ExpectedTrigger { name: "events_reject_oversized_insert", sql: EVENTS_REJECT_OVERSIZED_INSERT },
        ExpectedTrigger { name: "events_project_run_creation_after_insert", sql: EVENTS_PROJECT_RUN_CREATION_AFTER_INSERT },
        ExpectedTrigger { name: "events_project_run_state_after_insert", sql: EVENTS_PROJECT_RUN_STATE_AFTER_INSERT },
        ExpectedTrigger { name: "runs_reject_identity_update", sql: RUNS_REJECT_IDENTITY_UPDATE },
        ExpectedTrigger { name: "runs_reject_delete", sql: RUNS_REJECT_DELETE },
        ExpectedTrigger { name: "runs_track_projection_health_after_insert", sql: RUNS_TRACK_PROJECTION_HEALTH_AFTER_INSERT },
        ExpectedTrigger { name: "run_state_projection_validate_before_insert", sql: RUN_STATE_PROJECTION_VALIDATE_BEFORE_INSERT },
        ExpectedTrigger { name: "run_state_projection_validate_before_update", sql: RUN_STATE_PROJECTION_VALIDATE_BEFORE_UPDATE },
        ExpectedTrigger { name: "run_state_projection_reject_delete", sql: RUN_STATE_PROJECTION_REJECT_DELETE },
        ExpectedTrigger { name: "run_state_projection_track_health_after_insert", sql: RUN_STATE_PROJECTION_TRACK_HEALTH_AFTER_INSERT },
        ExpectedTrigger { name: "events_project_identity_after_insert", sql: EVENTS_PROJECT_IDENTITY_AFTER_INSERT },
        ExpectedTrigger { name: "event_identity_projection_reject_update", sql: EVENT_IDENTITY_PROJECTION_REJECT_UPDATE },
        ExpectedTrigger { name: "event_identity_projection_reject_delete", sql: EVENT_IDENTITY_PROJECTION_REJECT_DELETE },
    ];
    assert(triggers@ =~= all_triggers());
    triggers
}

/// The columns of the table of sessions.
pub open spec fn session_columns() -> Seq<ExpectedColumn> {
    seq![
        ExpectedColumn { name: "id", kind: "TEXT", not_null: true, primary_key: 1 },
        ExpectedColumn { name: "value_json", kind: "TEXT", not_null: true, primary_key: 0 },
    ]
}

/// The columns of the table of sessions.
pub fn expected_session_columns() -> (r: Vec<ExpectedColumn>)
    ensures
        r@ == session_columns(),
{
    let columns = vec![
        ExpectedColumn { name: "id", kind: "TEXT", not_null: true, primary_key: 1 },
        ExpectedColumn { name: "value_json", kind: "TEXT", not_null: true, primary_key: 0 },
    ];
    assert(columns@ =~= session_columns());
    columns
}

/// The columns of the table of runs.
pub open spec fn run_columns() -> Seq<ExpectedColumn> {
    seq![
        ExpectedColumn { name: "id", kind: "TEXT", not_null: true, primary_key: 1 },
        ExpectedColumn { name: "session_id", kind: "TEXT", not_null: true, primary_key: 0 },
        ExpectedColumn { name: "value_json", kind: "TEXT", not_null: true, primary_key: 0 },
    ]
}

/// The columns of the table of runs.
pub fn expected_run_columns() -> (r: Vec<ExpectedColumn>)
    ensures
        r@ == run_columns(),
{
    let columns = vec![
        ExpectedColumn { name: "id", kind: "TEXT", not_null: true, primary_key: 1 },
        ExpectedColumn { name: "session_id", kind: "TEXT", not_null: true, primary_key: 0 },
        ExpectedColumn { name: "value_json", kind: "TEXT", not_null: true, primary_key: 0 },
    ];
    assert(columns@ =~= run_columns());
    columns
}

/// The columns of the table of events.
pub open spec fn event_columns() -> Seq<ExpectedColumn> {
    seq![
        ExpectedColumn { name: "id", kind: "TEXT", not_null: true, primary_key: 1 },
        ExpectedColumn { name: "session_id", kind: "TEXT", not_null: true, primary_key: 0 },
        ExpectedColumn { name: "run_id", kind: "TEXT", not_null: false, primary_key: 0 },
        ExpectedColumn { name: "causal_parent", kind: "TEXT", not_null: false, primary_key: 0 },
        ExpectedColumn { name: "sequence", kind: "INTEGER", not_null: true, primary_key: 0 },
        ExpectedColumn { name: "value_json", kind: "TEXT", not_null: true, primary_key: 0 },
    ]
}

/// The columns of the table of events.
pub fn expected_event_columns() -> (r: Vec<ExpectedColumn>)
    ensures
        r@ == event_columns(),
{
    let columns = vec![
        ExpectedColumn { name: "id", kind: "TEXT", not_null: true, primary_key: 1 },
        ExpectedColumn { name: "session_id", kind: "TEXT", not_null: true, primary_key: 0 },
        ExpectedColumn { name: "run_id", kind: "TEXT", not_null: false, primary_key: 0 },
        ExpectedColumn { name: "causal_parent", kind: "TEXT", not_null: false, primary_key: 0 },
        ExpectedColumn { name: "sequence", kind: "INTEGER", not_null: true, primary_key: 0 },
        ExpectedColumn { name: "value_json", kind: "TEXT", not_null: true, primary_key: 0 },
    ];
    assert(columns@ =~= event_columns());
    columns
}

/// The columns of the health canary.
pub open spec fn canary_columns() -> Seq<ExpectedColumn> {
    seq![
        ExpectedColumn { name: "id", kind: "INTEGER", not_null: true, primary_key: 1 },
        ExpectedColumn { name: "generation", kind: "INTEGER", not_null: true, primary_key: 0 },
    ]
}

/// The columns of the health canary.
pub fn expected_canary_columns() -> (r: Vec<ExpectedColumn>)
    ensures
        r@ == canary_columns(),
{
    let columns = vec![
        ExpectedColumn { name: "id", kind: "INTEGER", not_null: true, primary_key: 1 },
        ExpectedColumn { name: "generation", kind: "INTEGER", not_null: true, primary_key: 0 },
    ];
    assert(columns@ =~= canary_columns());
    columns
}

/// The columns of the projection of event identities.
pub open spec fn identity_columns() -> Seq<ExpectedColumn> {
    seq![
        ExpectedColumn { name: "event_id", kind: "TEXT", not_null: true, primary_key: 1 },
        ExpectedColumn { name: "session_id", kind: "TEXT", not_null: true, primary_key: 0 },
        ExpectedColumn { name: "sequence", kind: "INTEGER", not_null: true, primary_key: 0 },
    ]
}

/// The columns of the projection of event identities.
pub fn expected_identity_columns() -> (r: Vec<ExpectedColumn>)
    ensures
        r@ == identity_columns(),
{
    let columns = vec![
        ExpectedColumn { name: "event_id", kind: "TEXT", not_null: true, primary_key: 1 },
        ExpectedColumn { name: "session_id", kind: "TEXT", not_null: true, primary_key: 0 },
        ExpectedColumn { name: "sequence", kind: "INTEGER", not_null: true, primary_key: 0 },
    ];
    assert(columns@ =~= identity_columns());
    columns
}

/// The columns of the projection of run states.
pub open spec fn run_state_columns() -> Seq<ExpectedColumn> {
    seq![
        ExpectedColumn { name: "run_id", kind: "TEXT", not_null: true, primary_key: 1 },
        ExpectedColumn { name: "session_id", kind: "TEXT", not_null: true, primary_key: 0 },
        ExpectedColumn { name: "state", kind: "TEXT", not_null: true, primary_key: 0 },
        ExpectedColumn { name: "state_sequence", kind: "INTEGER", not_null: true, primary_key: 0 },
    ]
}

/// The columns of the projection of run states.
pub fn expected_run_state_columns() -> (r: Vec<ExpectedColumn>)
    ensures
        r@ == run_state_columns(),
{
    let columns = vec![
        ExpectedColumn { name: "run_id", kind: "TEXT", not_null: true, primary_key: 1 },
        ExpectedColumn { name: "session_id", kind: "TEXT", not_null: true, primary_key: 0 },
        ExpectedColumn { name: "state", kind: "TEXT", not_null: true, primary_key: 0 },
        ExpectedColumn { name: "state_sequence", kind: "INTEGER", not_null: true, primary_key: 0 },
    ];
    assert(columns@ =~= run_state_columns());
    columns
}

/// The columns of the health of the projection of run states.
pub open spec fn health_columns() -> Seq<ExpectedColumn> {
    seq![
        ExpectedColumn { name: "id", kind: "INTEGER", not_null: true, primary_key: 1 },
        ExpectedColumn { name: "materialized_runs", kind: "INTEGER", not_null: true, primary_key: 0 },
        ExpectedColumn { name: "projected_runs", kind: "INTEGER", not_null: true, primary_key: 0 },
    ]
}

/// The columns of the health of the projection of run states.
pub fn expected_health_columns() -> (r: Vec<ExpectedColumn>)
    ensures
        r@ == health_columns(),
{
    let columns = vec![
        ExpectedColumn { name: "id", kind: "INTEGER", not_null: true, primary_key: 1 },
        ExpectedColumn { name: "materialized_runs", kind: "INTEGER", not_null: true, primary_key: 0 },
        ExpectedColumn { name: "projected_runs", kind: "INTEGER", not_null: true, primary_key: 0 },
    ];
    assert(columns@ =~= health_columns());
    columns
}

/// The key to a session.
pub open spec fn session_key() -> Seq<ExpectedKeyColumn> {
    seq![ExpectedKeyColumn { from: "session_id", to: "id" }]
}

/// The key to a session.
pub fn expected_session_key() -> (r: Vec<ExpectedKeyColumn>)
    ensures
        r@ == session_key(),
{
    let columns = vec![ExpectedKeyColumn { from: "session_id", to: "id" }];
    assert(columns@ =~= session_key());
    columns
}

/// The key to a run of the same session.
pub open spec fn run_key() -> Seq<ExpectedKeyColumn> {
    seq![ExpectedKeyColumn { from: "run_id", to: "id" }, ExpectedKeyColumn { from: "session_id", to: "session_id" }]
}

/// The key to a run of the same session.
pub fn expected_run_key() -> (r: Vec<ExpectedKeyColumn>)
    ensures
        r@ == run_key(),
{
    let columns = vec![ExpectedKeyColumn { from: "run_id", to: "id" }, ExpectedKeyColumn { from: "session_id", to: "session_id" }];
    assert(columns@ =~= run_key());
    columns
}

/// The key to a causal parent of the same session.
pub open spec fn parent_key() -> Seq<ExpectedKeyColumn> {
    seq![ExpectedKeyColumn { from: "causal_parent", to: "id" }, ExpectedKeyColumn { from: "session_id", to: "session_id" }]
}

/// The key to a causal parent of the same session.
pub fn expected_parent_key() -> (r: Vec<ExpectedKeyColumn>)
    ensures
        r@ == parent_key(),
{
    let columns = vec![ExpectedKeyColumn { from: "causal_parent", to: "id" }, ExpectedKeyColumn { from: "session_id", to: "session_id" }];
    assert(columns@ =~= parent_key());
    columns
}

/// The key to an event of the same session.
pub open spec fn event_key() -> Seq<ExpectedKeyColumn> {
    seq![ExpectedKeyColumn { from: "event_id", to: "id" }, ExpectedKeyColumn { from: "session_id", to: "session_id" }]
}

/// The key to an event of the same session.
pub fn expected_event_key() -> (r: Vec<ExpectedKeyColumn>)
    ensures
        r@ == event_key(),
{
    let columns = vec![ExpectedKeyColumn { from: "event_id", to: "id" }, ExpectedKeyColumn { from: "session_id", to: "session_id" }];
    assert(columns@ =~= event_key());
    columns
}

} // verus!

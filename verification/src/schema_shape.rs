//! What is read of a database to check its schema.

use vstd::prelude::*;
use crate::schema_objects::{Column, IndexColumn, KeyColumn};
use crate::text::Text;

verus! {

/// The version that a database has before the store knew versions.
pub const LEGACY_SCHEMA_VERSION: i64 = 1;

/// The version that made events immutable.
pub const IMMUTABLE_SCHEMA_VERSION: i64 = 2;

/// The version that indexed events by run.
pub const INDEXED_SCHEMA_VERSION: i64 = 3;

/// The version that bounded the size of events.
pub const EVENT_SIZE_SCHEMA_VERSION: i64 = 4;

/// The version that added the health canary.
pub const HEALTH_CANARY_SCHEMA_VERSION: i64 = 5;

/// The version that changed how paths are written.
pub const PATH_WIRE_SCHEMA_VERSION: i64 = 6;

/// The version that added the projection of run states.
pub const RUN_STATE_PROJECTION_SCHEMA_VERSION: i64 = 7;

/// The version that added semantic reviews.
pub const SEMANTIC_REVIEW_SCHEMA_VERSION: i64 = 8;

/// The version that added reconnaissance by children.
pub const CHILD_RECONNAISSANCE_SCHEMA_VERSION: i64 = 9;

/// The version that added the projection of event identities.
pub const AGENT_RUNTIME_SCHEMA_VERSION: i64 = 10;

/// The version that is served.
pub const CURRENT_SCHEMA_VERSION: i64 = 10;

/// A table: its columns, its definition, its foreign keys and its unique indexes.
#[derive(Debug)]
pub struct TableShape {
    pub columns: Vec<Column>,
    pub definition: Text,
    pub keys: Vec<KeyColumn>,
    pub indexes: Vec<IndexColumn>,
}

/// A trigger, as the database lists it.
#[derive(Debug)]
pub struct Trigger {
    pub name: Text,
    pub sql: Text,
}

/// An index that was created by a statement of its own.
#[derive(Debug)]
pub struct ExplicitIndex {
    pub name: Text,
    pub table: Text,
    pub sql: Text,
}

/// Where an event stands: its identity, its session and its place in the session.
#[derive(Debug)]
pub struct EventPlace {
    pub event_id: Text,
    pub session_id: Text,
    pub sequence: u64,
}

/// A row of the health of the projection of run states.
#[derive(Debug)]
pub struct HealthRow {
    pub id: i64,
    pub materialized_runs: i64,
    pub projected_runs: i64,
}

/// A row of the health canary.
#[derive(Debug)]
pub struct CanaryRow {
    pub id: i64,
    pub generation: i64,
}

/// What is read of a database: its version; which of the core tables it has; the names of all its
/// tables and views; its tables, where they exist; its triggers and explicit indexes; and the rows of
/// the canary, of the health table, of the events and of their identities.
#[derive(Debug)]
pub struct DatabaseShape {
    pub version: i64,
    pub known_tables: Vec<Text>,
    pub tables: Vec<Text>,
    pub views: Vec<Text>,
    pub sessions: TableShape,
    pub runs: TableShape,
    pub events: TableShape,
    pub canary: Option<TableShape>,
    pub run_states: Option<TableShape>,
    pub run_state_health: Option<TableShape>,
    pub identities: Option<TableShape>,
    pub triggers: Vec<Trigger>,
    pub indexes: Vec<ExplicitIndex>,
    pub canary_rows: Vec<CanaryRow>,
    pub health_rows: Vec<HealthRow>,
    pub event_places: Vec<EventPlace>,
    pub projected_places: Vec<EventPlace>,
}

} // verus!

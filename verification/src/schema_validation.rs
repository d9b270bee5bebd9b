//! Checks on the schema of a database.

use vstd::prelude::*;
use crate::name_listing::list_names;
use crate::projection_validation::{
    validate_event_identity_projection, validate_run_state_projection,
};
use crate::schema_canon::{
    canonical_triggers, expected_canary_columns, expected_event_columns, expected_parent_key,
    expected_run_columns, expected_run_key, expected_session_columns, expected_session_key,
    CanonicalSql, ExpectedTrigger, EVENTS_TABLE, RUNS_TABLE, RUNTIME_HEALTH_CANARY_TABLE,
    SESSIONS_TABLE,
};
use crate::schema_objects::{
    are_names, ensure_columns, expected_table_names, has_foreign_key, has_unique_index,
};
use crate::schema_shape::{
    CanaryRow, DatabaseShape, ExplicitIndex, Trigger, AGENT_RUNTIME_SCHEMA_VERSION,
    CURRENT_SCHEMA_VERSION, HEALTH_CANARY_SCHEMA_VERSION, RUN_STATE_PROJECTION_SCHEMA_VERSION,
};
use crate::schema_support::{incompatible, is_same_sql, require, Finding, SchemaError};
use crate::text::Text;

verus! {

/// What is found of the columns of the core tables.
#[verifier::opaque]
pub open spec fn columns_finding(shape: DatabaseShape, found: i64) -> Finding {
    crate::schema_support::also(
        crate::schema_support::expect(
            crate::schema_objects::columns_are(
                shape.sessions.columns@,
                crate::schema_canon::session_columns(),
            ),
            found,
            "sessions"@ + " does not match the canonical column definition"@,
        ),
        crate::schema_support::also(
            crate::schema_support::expect(
                crate::schema_objects::columns_are(
                    shape.runs.columns@,
                    crate::schema_canon::run_columns(),
                ),
                found,
                "runs"@ + " does not match the canonical column definition"@,
            ),
            crate::schema_support::expect(
                crate::schema_objects::columns_are(
                    shape.events.columns@,
                    crate::schema_canon::event_columns(),
                ),
                found,
                "events"@ + " does not match the canonical column definition"@,
            ),
        ),
    )
}

fn validate_core_columns(shape: &DatabaseShape, found: i64) -> (r: Result<(), SchemaError>)
    ensures
        crate::schema_support::reports(r, columns_finding(*shape, found)),
{
    proof {
        reveal(columns_finding);
    }
    match ensure_columns("sessions", &shape.sessions.columns, &expected_session_columns(), found) {
        Ok(()) => {},
        Err(error) => return Err(error),
    }
    match ensure_columns("runs", &shape.runs.columns, &expected_run_columns(), found) {
        Ok(()) => {},
        Err(error) => return Err(error),
    }
    ensure_columns("events", &shape.events.columns, &expected_event_columns(), found)
}

/// What is found of the definitions of the core tables.
#[verifier::opaque]
pub open spec fn definitions_finding(shape: DatabaseShape, found: i64) -> Finding {
    crate::schema_support::also(
        crate::schema_support::expect(
            crate::schema_support::normal_sql(shape.sessions.definition@)
                == crate::schema_support::normal_sql(SESSIONS_TABLE@),
            found,
            "sessions table definition is altered"@,
        ),
        crate::schema_support::also(
            crate::schema_support::expect(
                crate::schema_support::normal_sql(shape.runs.definition@)
                    == crate::schema_support::normal_sql(RUNS_TABLE@),
                found,
                "runs table definition is altered"@,
            ),
            crate::schema_support::expect(
                crate::schema_support::normal_sql(shape.events.definition@)
                    == crate::schema_support::normal_sql(EVENTS_TABLE@),
                found,
                "events table definition is altered"@,
            ),
        ),
    )
}

fn validate_core_table_definitions(shape: &DatabaseShape, found: i64) -> (r: Result<
    (),
    SchemaError,
>)
    ensures
        crate::schema_support::reports(r, definitions_finding(*shape, found)),
{
    proof {
        reveal(definitions_finding);
    }
    match require(
        is_same_sql(shape.sessions.definition.value.as_str(), SESSIONS_TABLE),
        found,
        "sessions table definition is altered",
    ) {
        Ok(()) => {},
        Err(error) => return Err(error),
    }
    match require(
        is_same_sql(shape.runs.definition.value.as_str(), RUNS_TABLE),
        found,
        "runs table definition is altered",
    ) {
        Ok(()) => {},
        Err(error) => return Err(error),
    }
    require(
        is_same_sql(shape.events.definition.value.as_str(), EVENTS_TABLE),
        found,
        "events table definition is altered",
    )
}

/// The tables that a database of a version has.
pub open spec fn tables_of(version: i64) -> Seq<&'static str> {
    let core = crate::schema_objects::core_tables();
    let canary = if version >= HEALTH_CANARY_SCHEMA_VERSION {
        core.push("runtime_health_canary")
    } else {
        core
    };
    let projected = if version >= RUN_STATE_PROJECTION_SCHEMA_VERSION {
        canary.push("run_state_projection").push("run_state_projection_health")
    } else {
        canary
    };
    if version >= AGENT_RUNTIME_SCHEMA_VERSION {
        projected.push("event_identity_projection")
    } else {
        projected
    }
}

/// What is found of the tables and views that a database has.
#[verifier::opaque]
pub open spec fn objects_finding(shape: DatabaseShape, found: i64, version: i64) -> Finding {
    crate::schema_support::also(
        crate::schema_support::expect(
            crate::schema_objects::names_are(shape.tables@, tables_of(version)),
            found,
            "unexpected user table set: "@ + crate::name_listing::listing(shape.tables@),
        ),
        crate::schema_support::expect(
            shape.views@.len() == 0,
            found,
            "unexpected views in durable schema: "@ + crate::name_listing::listing(shape.views@),
        ),
    )
}

fn validate_user_table_and_view_set(shape: &DatabaseShape, found: i64, version: i64) -> (r: Result<
    (),
    SchemaError,
>)
    ensures
        crate::schema_support::reports(r, objects_finding(*shape, found, version)),
{
    proof {
        reveal(objects_finding);
    }
    let mut expected = expected_table_names();
    if version >= HEALTH_CANARY_SCHEMA_VERSION {
        expected.push("runtime_health_canary");
    }
    if version >= RUN_STATE_PROJECTION_SCHEMA_VERSION {
        expected.push("run_state_projection");
        expected.push("run_state_projection_health");
    }
    if version >= AGENT_RUNTIME_SCHEMA_VERSION {
        expected.push("event_identity_projection");
    }
    assert(expected@ =~= tables_of(version));
    if !are_names(&shape.tables, &expected) {
        let tables = list_names(&shape.tables);
        return Err(incompatible(found, Text::prefixed("unexpected user table set: ", &tables)));
    }
    if shape.views.len() > 0 {
        let views = list_names(&shape.views);
        return Err(
            incompatible(found, Text::prefixed("unexpected views in durable schema: ", &views)),
        );
    }
    Ok(())
}

/// What is found of the unique indexes of the core tables.
#[verifier::opaque]
pub open spec fn unique_finding(shape: DatabaseShape, found: i64) -> Finding {
    crate::schema_support::also(
        crate::schema_support::expect(
            crate::schema_objects::has_index(shape.runs.indexes@, seq!["id", "session_id"]),
            found,
            "runs is missing UNIQUE(id, session_id)"@,
        ),
        crate::schema_support::also(
            crate::schema_support::expect(
                crate::schema_objects::has_index(shape.events.indexes@, seq!["id", "session_id"]),
                found,
                "events is missing UNIQUE(id, session_id)"@,
            ),
            crate::schema_support::expect(
                crate::schema_objects::has_index(
                    shape.events.indexes@,
                    seq!["session_id", "sequence"],
                ),
                found,
                "events is missing UNIQUE(session_id, sequence)"@,
            ),
        ),
    )
}

fn validate_unique_indexes(shape: &DatabaseShape, found: i64) -> (r: Result<(), SchemaError>)
    ensures
        crate::schema_support::reports(r, unique_finding(*shape, found)),
{
    proof {
        reveal(unique_finding);
    }
    let by_id = vec!["id", "session_id"];
    let by_sequence = vec!["session_id", "sequence"];
    assert(by_id@ =~= seq!["id", "session_id"]);
    assert(by_sequence@ =~= seq!["session_id", "sequence"]);
    match require(
        has_unique_index(&shape.runs.indexes, &by_id),
        found,
        "runs is missing UNIQUE(id, session_id)",
    ) {
        Ok(()) => {},
        Err(error) => return Err(error),
    }
    match require(
        has_unique_index(&shape.events.indexes, &by_id),
        found,
        "events is missing UNIQUE(id, session_id)",
    ) {
        Ok(()) => {},
        Err(error) => return Err(error),
    }
    require(
        has_unique_index(&shape.events.indexes, &by_sequence),
        found,
        "events is missing UNIQUE(session_id, sequence)",
    )
}

/// What is found of the foreign keys of the core tables.
#[verifier::opaque]
pub open spec fn keys_finding(shape: DatabaseShape, found: i64) -> Finding {
    crate::schema_support::also(
        crate::schema_support::expect(
            crate::schema_objects::has_key(
                shape.runs.keys@,
                "sessions"@,
                crate::schema_canon::session_key(),
            ),
            found,
            "runs is missing its session foreign key"@,
        ),
        crate::schema_support::also(
            crate::schema_support::expect(
                crate::schema_objects::has_key(
                    shape.events.keys@,
                    "sessions"@,
                    crate::schema_canon::session_key(),
                ),
                found,
                "events is missing its session foreign key"@,
            ),
            crate::schema_support::also(
                crate::schema_support::expect(
                    crate::schema_objects::has_key(
                        shape.events.keys@,
                        "runs"@,
                        crate::schema_canon::run_key(),
                    ),
                    found,
                    "events is missing its session-scoped run foreign key"@,
                ),
                crate::schema_support::expect(
                    crate::schema_objects::has_key(
                        shape.events.keys@,
                        "events"@,
                        crate::schema_canon::parent_key(),
                    ),
                    found,
                    "events is missing its session-scoped causal parent foreign key"@,
                ),
            ),
        ),
    )
}

fn validate_foreign_keys(shape: &DatabaseShape, found: i64) -> (r: Result<(), SchemaError>)
    ensures
        crate::schema_support::reports(r, keys_finding(*shape, found)),
{
    proof {
        reveal(keys_finding);
    }
    match require(
        has_foreign_key(&shape.runs.keys, "sessions", &expected_session_key()),
        found,
        "runs is missing its session foreign key",
    ) {
        Ok(()) => {},
        Err(error) => return Err(error),
    }
    match require(
        has_foreign_key(&shape.events.keys, "sessions", &expected_session_key()),
        found,
        "events is missing its session foreign key",
    ) {
        Ok(()) => {},
        Err(error) => return Err(error),
    }
    match require(
        has_foreign_key(&shape.events.keys, "runs", &expected_run_key()),
        found,
        "events is missing its session-scoped run foreign key",
    ) {
        Ok(()) => {},
        Err(error) => return Err(error),
    }
    require(
        has_foreign_key(&shape.events.keys, "events", &expected_parent_key()),
        found,
        "events is missing its session-scoped causal parent foreign key",
    )
}

/// How many of the triggers a database has, by what it has beside the core tables.
pub open spec fn trigger_count(
    has_insert_conflict_guard: bool,
    has_event_size_guard: bool,
    has_run_state_projection: bool,
    has_event_identity_projection: bool,
) -> nat {
    if has_event_identity_projection {
        16
    } else if has_run_state_projection {
        13
    } else if has_event_size_guard {
        4
    } else if has_insert_conflict_guard {
        3
    } else {
        2
    }
}

/// Whether a trigger is there, under its name and with its definition.
pub open spec fn has_trigger(actual: Seq<Trigger>, expected: ExpectedTrigger) -> bool {
    exists|i: int|
        0 <= i < actual.len() && (#[trigger] actual[i]).name@ == expected.name@
            && crate::schema_support::normal_sql(actual[i].sql@)
            == crate::schema_support::normal_sql(expected.sql@)
}

/// What is found of the first `n` expected triggers: the first that is not there is named.
pub open spec fn triggers_finding(
    actual: Seq<Trigger>,
    expected: Seq<ExpectedTrigger>,
    found: i64,
    n: nat,
) -> Finding
    decreases n,
{
    if n == 0 {
        Finding::Fine
    } else {
        crate::schema_support::also(
            triggers_finding(actual, expected, found, (n - 1) as nat),
            crate::schema_support::expect(
                has_trigger(actual, expected[n - 1]),
                found,
                "missing or altered append-only trigger "@ + expected[n - 1].name@,
            ),
        )
    }
}

/// What is found of the triggers of a database: it has each of the expected ones, and no other.
#[verifier::opaque]
pub open spec fn all_triggers_finding(actual: Seq<Trigger>, found: i64, count: nat) -> Finding {
    crate::schema_support::also(
        triggers_finding(actual, crate::schema_canon::all_triggers(), found, count),
        crate::schema_support::expect(
            actual.len() == count,
            found,
            "unexpected triggers are attached to the event log"@,
        ),
    )
}

fn finds_trigger(actual: &Vec<Trigger>, expected: &ExpectedTrigger) -> (r: bool)
    ensures
        r == has_trigger(actual@, *expected),
{
    let mut i: usize = 0;
    while i < actual.len()
        invariant
            i <= actual@.len(),
            forall|j: int|
                0 <= j < i ==> !((#[trigger] actual@[j]).name@ == expected.name@
                    && crate::schema_support::normal_sql(actual@[j].sql@)
                    == crate::schema_support::normal_sql(expected.sql@)),
        decreases actual.len() - i,
    {
        if actual[i].name.is(expected.name) && is_same_sql(
            actual[i].sql.value.as_str(),
            expected.sql,
        ) {
            return true;
        }
        i += 1;
    }
    false
}

proof fn lemma_missing_trigger_stays(
    actual: Seq<Trigger>,
    expected: Seq<ExpectedTrigger>,
    found: i64,
    n: nat,
    m: nat,
)
    requires
        n <= m,
        !(triggers_finding(actual, expected, found, n) is Fine),
    ensures
        triggers_finding(actual, expected, found, m) == triggers_finding(
            actual,
            expected,
            found,
            n,
        ),
    decreases m,
{
    if n < m {
        lemma_missing_trigger_stays(actual, expected, found, n, (m - 1) as nat);
    }
}

fn validate_immutability_triggers(
    actual: &Vec<Trigger>,
    found: i64,
    has_insert_conflict_guard: bool,
    has_event_size_guard: bool,
    has_run_state_projection: bool,
    has_event_identity_projection: bool,
) -> (r: Result<(), SchemaError>)
    ensures
        crate::schema_support::reports(
            r,
            all_triggers_finding(
                actual@,
                found,
                trigger_count(
                    has_insert_conflict_guard,
                    has_event_size_guard,
                    has_run_state_projection,
                    has_event_identity_projection,
                ),
            ),
        ),
{
    proof {
        reveal(all_triggers_finding);
    }
    let expected = canonical_triggers();
    let count: usize = if has_event_identity_projection {
        16
    } else if has_run_state_projection {
        13
    } else if has_event_size_guard {
        4
    } else if has_insert_conflict_guard {
        3
    } else {
        2
    };
    let mut i: usize = 0;
    while i < count
        invariant
            i <= count <= 16,
            expected@ == crate::schema_canon::all_triggers(),
            expected@.len() == 16,
            triggers_finding(actual@, expected@, found, i as nat) is Fine,
            count == trigger_count(
                has_insert_conflict_guard,
                has_event_size_guard,
                has_run_state_projection,
                has_event_identity_projection,
            ),
        decreases count - i,
    {
        proof {
            reveal(all_triggers_finding);
        }
        if !finds_trigger(actual, &expected[i]) {
            proof {
                lemma_missing_trigger_stays(
                    actual@,
                    expected@,
                    found,
                    (i + 1) as nat,
                    count as nat,
                );
            }
            return Err(
                incompatible(
                    found,
                    Text::prefixed(
                        "missing or altered append-only trigger ",
                        &Text::of(expected[i].name),
                    ),
                ),
            );
        }
        i += 1;
    }
    require(
        actual.len() == count,
        found,
        "unexpected triggers are attached to the event log",
    )
}

/// Whether the explicit indexes of a database are the expected ones: the one of events by run, or
/// none.
pub open spec fn indexes_stand(
    actual: Seq<ExplicitIndex>,
    canon: CanonicalSql,
    expected: bool,
) -> bool {
    if expected {
        &&& actual.len() == 1
        &&& actual[0].name@ == "events_by_run_sequence"@
        &&& actual[0].table@ == "events"@
        &&& crate::schema_support::normal_sql(actual[0].sql@) == crate::schema_support::normal_sql(
            canon.event_run_sequence_index@,
        )
    } else {
        actual.len() == 0
    }
}

fn validate_explicit_indexes(
    actual: &Vec<ExplicitIndex>,
    canon: &CanonicalSql,
    found: i64,
    expected: bool,
) -> (r: Result<(), SchemaError>)
    ensures
        crate::schema_support::reports(
            r,
            crate::schema_support::expect(
                indexes_stand(actual@, *canon, expected),
                found,
                "explicit index set differs from the canonical schema"@,
            ),
        ),
{
    let stand = if expected {
        actual.len() == 1 && actual[0].name.is("events_by_run_sequence") && actual[0].table.is(
            "events",
        ) && is_same_sql(
            actual[0].sql.value.as_str(),
            canon.event_run_sequence_index.value.as_str(),
        )
    } else {
        actual.len() == 0
    };
    require(stand, found, "explicit index set differs from the canonical schema")
}

/// What is found of a schema that is expected to be of a version.
#[verifier::opaque]
pub open spec fn schema_finding(
    shape: DatabaseShape,
    canon: CanonicalSql,
    version: i64,
    has_v3_integrity_objects: bool,
    has_event_size_guard: bool,
) -> Finding {
    let found = shape.version;
    crate::schema_support::also(
        crate::schema_support::expect(
            found == version,
            found,
            "expected canonical schema version "@ + crate::text::decimal(version as int),
        ),
        crate::schema_support::also(
            crate::schema_support::expect(
                crate::schema_objects::names_are(
                    shape.known_tables@,
                    crate::schema_objects::core_tables(),
                ),
                found,
                "current schema has an incomplete table set"@,
            ),
            crate::schema_support::also(
                columns_finding(shape, found),
                crate::schema_support::also(
                    definitions_finding(shape, found),
                    crate::schema_support::also(
                        objects_finding(shape, found, version),
                        crate::schema_support::also(
                            unique_finding(shape, found),
                            crate::schema_support::also(
                                keys_finding(shape, found),
                                crate::schema_support::also(
                                    all_triggers_finding(
                                        shape.triggers@,
                                        found,
                                        trigger_count(
                                            has_v3_integrity_objects,
                                            has_event_size_guard,
                                            version >= RUN_STATE_PROJECTION_SCHEMA_VERSION,
                                            version >= AGENT_RUNTIME_SCHEMA_VERSION,
                                        ),
                                    ),
                                    crate::schema_support::expect(
                                        indexes_stand(
                                            shape.indexes@,
                                            canon,
                                            has_v3_integrity_objects,
                                        ),
                                        found,
                                        "explicit index set differs from the canonical schema"@,
                                    ),
                                ),
                            ),
                        ),
                    ),
                ),
            ),
        ),
    )
}

/// Checks that a schema is exactly that of a version.
pub fn validate_schema(
    shape: &DatabaseShape,
    canon: &CanonicalSql,
    version: i64,
    has_v3_integrity_objects: bool,
    has_event_size_guard: bool,
) -> (r: Result<(), SchemaError>)
    ensures
        crate::schema_support::reports(
            r,
            schema_finding(
                *shape,
                *canon,
                version,
                has_v3_integrity_objects,
                has_event_size_guard,
            ),
        ),
{
    proof {
        reveal(schema_finding);
    }
    let found = shape.version;
    if found != version {
        return Err(
            incompatible(
                found,
                Text::prefixed("expected canonical schema version ", &Text::number(version)),
            ),
        );
    }
    match require(
        are_names(&shape.known_tables, &expected_table_names()),
        found,
        "current schema has an incomplete table set",
    ) {
        Ok(()) => {},
        Err(error) => return Err(error),
    }
    match validate_core_columns(shape, found) {
        Ok(()) => {},
        Err(error) => return Err(error),
    }
    match validate_core_table_definitions(shape, found) {
        Ok(()) => {},
        Err(error) => return Err(error),
    }
    match validate_user_table_and_view_set(shape, found, version) {
        Ok(()) => {},
        Err(error) => return Err(error),
    }
    match validate_unique_indexes(shape, found) {
        Ok(()) => {},
        Err(error) => return Err(error),
    }
    match validate_foreign_keys(shape, found) {
        Ok(()) => {},
        Err(error) => return Err(error),
    }
    match validate_immutability_triggers(
        &shape.triggers,
        found,
        has_v3_integrity_objects,
        has_event_size_guard,
        version >= RUN_STATE_PROJECTION_SCHEMA_VERSION,
        version >= AGENT_RUNTIME_SCHEMA_VERSION,
    ) {
        Ok(()) => {},
        Err(error) => return Err(error),
    }
    validate_explicit_indexes(&shape.indexes, canon, found, has_v3_integrity_objects)
}

/// Whether the canary has exactly one valid row.
pub open spec fn canary_stands(rows: Seq<CanaryRow>) -> bool {
    rows.len() == 1 && rows[0].id == 1 && rows[0].generation >= 0
}

/// What is found of the health canary.
#[verifier::opaque]
pub open spec fn canary_finding(shape: DatabaseShape, found: i64) -> Finding {
    match shape.canary {
        None => Finding::Refused { found, detail: "runtime health canary table is missing"@ },
        Some(table) => crate::schema_support::also(
            crate::schema_support::expect(
                crate::schema_objects::columns_are(
                    table.columns@,
                    crate::schema_canon::canary_columns(),
                ),
                found,
                "runtime_health_canary"@ + " does not match the canonical column definition"@,
            ),
            crate::schema_support::also(
                crate::schema_support::expect(
                    crate::schema_support::normal_sql(table.definition@)
                        == crate::schema_support::normal_sql(RUNTIME_HEALTH_CANARY_TABLE@),
                    found,
                    "runtime health canary table definition is altered"@,
                ),
                crate::schema_support::expect(
                    canary_stands(shape.canary_rows@),
                    found,
                    "runtime health canary must contain exactly one valid row"@,
                ),
            ),
        ),
    }
}

/// Checks the health canary.
pub fn validate_health_canary(shape: &DatabaseShape, found: i64) -> (r: Result<(), SchemaError>)
    ensures
        crate::schema_support::reports(r, canary_finding(*shape, found)),
{
    proof {
        reveal(canary_finding);
    }
    let table = match &shape.canary {
        Some(table) => table,
        None => return require(false, found, "runtime health canary table is missing"),
    };
    match ensure_columns(
        "runtime_health_canary",
        &table.columns,
        &expected_canary_columns(),
        found,
    ) {
        Ok(()) => {},
        Err(error) => return Err(error),
    }
    match require(
        is_same_sql(table.definition.value.as_str(), RUNTIME_HEALTH_CANARY_TABLE),
        found,
        "runtime health canary table definition is altered",
    ) {
        Ok(()) => {},
        Err(error) => return Err(error),
    }
    let rows = &shape.canary_rows;
    require(
        rows.len() == 1 && rows[0].id == 1 && rows[0].generation >= 0,
        found,
        "runtime health canary must contain exactly one valid row",
    )
}

/// What is found of a database that is to be served.
pub open spec fn current_finding(shape: DatabaseShape, canon: CanonicalSql) -> Finding {
    crate::schema_support::also(
        schema_finding(shape, canon, CURRENT_SCHEMA_VERSION, true, true),
        crate::schema_support::also(
            canary_finding(shape, CURRENT_SCHEMA_VERSION),
            crate::schema_support::also(
                crate::projection_validation::run_states_finding(
                    shape,
                    canon,
                    CURRENT_SCHEMA_VERSION,
                ),
                crate::projection_validation::identities_finding(
                    shape,
                    canon,
                    CURRENT_SCHEMA_VERSION,
                ),
            ),
        ),
    )
}

/// Checks that a database may be served.
pub fn validate_current_schema(shape: &DatabaseShape, canon: &CanonicalSql) -> (r: Result<
    (),
    SchemaError,
>)
    ensures
        crate::schema_support::reports(r, current_finding(*shape, *canon)),
{
    match validate_schema(shape, canon, CURRENT_SCHEMA_VERSION, true, true) {
        Ok(()) => {},
        Err(error) => return Err(error),
    }
    match validate_health_canary(shape, CURRENT_SCHEMA_VERSION) {
        Ok(()) => {},
        Err(error) => return Err(error),
    }
    match validate_run_state_projection(shape, canon, CURRENT_SCHEMA_VERSION) {
        Ok(()) => {},
        Err(error) => return Err(error),
    }
    validate_event_identity_projection(shape, canon, CURRENT_SCHEMA_VERSION)
}

proof fn lemma_triggers_are_there(
    actual: Seq<Trigger>,
    expected: Seq<ExpectedTrigger>,
    found: i64,
    n: nat,
    i: int,
)
    requires
        triggers_finding(actual, expected, found, n) is Fine,
        0 <= i < n,
    ensures
        has_trigger(actual, expected[i]),
    decreases n,
{
    if i < n - 1 {
        lemma_triggers_are_there(actual, expected, found, (n - 1) as nat, i);
    }
}

/// A database that is served keeps its events: it has every trigger that guards the event log and
/// its projections, as defined, and no other trigger.
pub proof fn law_served_log_is_guarded(shape: DatabaseShape, canon: CanonicalSql)
    requires
        current_finding(shape, canon) is Fine,
    ensures
        shape.version == CURRENT_SCHEMA_VERSION,
        shape.triggers@.len() == 16,
        forall|i: int|
            0 <= i < 16 ==> has_trigger(
                shape.triggers@,
                #[trigger] crate::schema_canon::all_triggers()[i],
            ),
{
    reveal(schema_finding);
    reveal(all_triggers_finding);
    assert forall|i: int| 0 <= i < 16 implies has_trigger(
        shape.triggers@,
        #[trigger] crate::schema_canon::all_triggers()[i],
    ) by {
        lemma_triggers_are_there(
            shape.triggers@,
            crate::schema_canon::all_triggers(),
            shape.version,
            16,
            i,
        );
    }
}

/// A later version has all the tables of an earlier one.
pub proof fn law_versions_only_add_tables(earlier: i64, later: i64)
    requires
        earlier <= later,
    ensures
        forall|i: int|
            0 <= i < tables_of(earlier).len() ==> tables_of(later).contains(
                #[trigger] tables_of(earlier)[i],
            ),
{
    let old = tables_of(earlier);
    let new = tables_of(later);
    assert(old.len() <= new.len());
    assert forall|i: int| 0 <= i < old.len() implies new.contains(#[trigger] old[i]) by {
        assert(new[i] == old[i]);
    }
}

/// A database that is served has the columns of its core tables as they should be: each by its name,
/// its type, whether it may be null and its part in the primary key.
pub proof fn law_served_tables_have_their_columns(shape: DatabaseShape, canon: CanonicalSql)
    requires
        current_finding(shape, canon) is Fine,
    ensures
        exists|i: int|
            #![trigger shape.sessions.columns@[i]]
            0 <= i < shape.sessions.columns@.len() && shape.sessions.columns@[i].name@ == "id"@
                && crate::schema_support::raised(shape.sessions.columns@[i].kind@) == "TEXT"@
                && shape.sessions.columns@[i].not_null && shape.sessions.columns@[i].primary_key == 1,
        exists|i: int|
            #![trigger shape.sessions.columns@[i]]
            0 <= i < shape.sessions.columns@.len() && shape.sessions.columns@[i].name@ == "value_json"@
                && crate::schema_support::raised(shape.sessions.columns@[i].kind@) == "TEXT"@
                && shape.sessions.columns@[i].not_null && shape.sessions.columns@[i].primary_key == 0,
        exists|i: int|
            #![trigger shape.runs.columns@[i]]
            0 <= i < shape.runs.columns@.len() && shape.runs.columns@[i].name@ == "id"@
                && crate::schema_support::raised(shape.runs.columns@[i].kind@) == "TEXT"@
                && shape.runs.columns@[i].not_null && shape.runs.columns@[i].primary_key == 1,
        exists|i: int|
            #![trigger shape.runs.columns@[i]]
            0 <= i < shape.runs.columns@.len() && shape.runs.columns@[i].name@ == "session_id"@
                && crate::schema_support::raised(shape.runs.columns@[i].kind@) == "TEXT"@
                && shape.runs.columns@[i].not_null && shape.runs.columns@[i].primary_key == 0,
        exists|i: int|
            #![trigger shape.runs.columns@[i]]
            0 <= i < shape.runs.columns@.len() && shape.runs.columns@[i].name@ == "value_json"@
                && crate::schema_support::raised(shape.runs.columns@[i].kind@) == "TEXT"@
                && shape.runs.columns@[i].not_null && shape.runs.columns@[i].primary_key == 0,
        exists|i: int|
            #![trigger shape.events.columns@[i]]
            0 <= i < shape.events.columns@.len() && shape.events.columns@[i].name@ == "id"@
                && crate::schema_support::raised(shape.events.columns@[i].kind@) == "TEXT"@
                && shape.events.columns@[i].not_null && shape.events.columns@[i].primary_key == 1,
        exists|i: int|
            #![trigger shape.events.columns@[i]]
            0 <= i < shape.events.columns@.len() && shape.events.columns@[i].name@ == "session_id"@
                && crate::schema_support::raised(shape.events.columns@[i].kind@) == "TEXT"@
                && shape.events.columns@[i].not_null && shape.events.columns@[i].primary_key == 0,
        exists|i: int|
            #![trigger shape.events.columns@[i]]
            0 <= i < shape.events.columns@.len() && shape.events.columns@[i].name@ == "run_id"@
                && crate::schema_support::raised(shape.events.columns@[i].kind@) == "TEXT"@
                && !shape.events.columns@[i].not_null && shape.events.columns@[i].primary_key == 0,
        exists|i: int|
            #![trigger shape.events.columns@[i]]
            0 <= i < shape.events.columns@.len() && shape.events.columns@[i].name@ == "causal_parent"@
                && crate::schema_support::raised(shape.events.columns@[i].kind@) == "TEXT"@
                && !shape.events.columns@[i].not_null && shape.events.columns@[i].primary_key == 0,
        exists|i: int|
            #![trigger shape.events.columns@[i]]
            0 <= i < shape.events.columns@.len() && shape.events.columns@[i].name@ == "sequence"@
                && crate::schema_support::raised(shape.events.columns@[i].kind@) == "INTEGER"@
                && shape.events.columns@[i].not_null && shape.events.columns@[i].primary_key == 0,
        exists|i: int|
            #![trigger shape.events.columns@[i]]
            0 <= i < shape.events.columns@.len() && shape.events.columns@[i].name@ == "value_json"@
                && crate::schema_support::raised(shape.events.columns@[i].kind@) == "TEXT"@
                && shape.events.columns@[i].not_null && shape.events.columns@[i].primary_key == 0,
{
    reveal(schema_finding);
    reveal(columns_finding);
    let session_id = crate::schema_objects::law_every_expected_column_is_there(
        shape.sessions.columns@,
        crate::schema_canon::session_columns(),
        0,
    );
    assert(shape.sessions.columns@[session_id].name@ == "id"@);
    let session_value_json = crate::schema_objects::law_every_expected_column_is_there(
        shape.sessions.columns@,
        crate::schema_canon::session_columns(),
        1,
    );
    assert(shape.sessions.columns@[session_value_json].name@ == "value_json"@);
    let run_id = crate::schema_objects::law_every_expected_column_is_there(
        shape.runs.columns@,
        crate::schema_canon::run_columns(),
        0,
    );
    assert(shape.runs.columns@[run_id].name@ == "id"@);
    let run_session_id = crate::schema_objects::law_every_expected_column_is_there(
        shape.runs.columns@,
        crate::schema_canon::run_columns(),
        1,
    );
    assert(shape.runs.columns@[run_session_id].name@ == "session_id"@);
    let run_value_json = crate::schema_objects::law_every_expected_column_is_there(
        shape.runs.columns@,
        crate::schema_canon::run_columns(),
        2,
    );
    assert(shape.runs.columns@[run_value_json].name@ == "value_json"@);
    let event_id = crate::schema_objects::law_every_expected_column_is_there(
        shape.events.columns@,
        crate::schema_canon::event_columns(),
        0,
    );
    assert(shape.events.columns@[event_id].name@ == "id"@);
    let event_session_id = crate::schema_objects::law_every_expected_column_is_there(
        shape.events.columns@,
        crate::schema_canon::event_columns(),
        1,
    );
    assert(shape.events.columns@[event_session_id].name@ == "session_id"@);
    let event_run_id = crate::schema_objects::law_every_expected_column_is_there(
        shape.events.columns@,
        crate::schema_canon::event_columns(),
        2,
    );
    assert(shape.events.columns@[event_run_id].name@ == "run_id"@);
    let event_causal_parent = crate::schema_objects::law_every_expected_column_is_there(
        shape.events.columns@,
        crate::schema_canon::event_columns(),
        3,
    );
    assert(shape.events.columns@[event_causal_parent].name@ == "causal_parent"@);
    let event_sequence = crate::schema_objects::law_every_expected_column_is_there(
        shape.events.columns@,
        crate::schema_canon::event_columns(),
        4,
    );
    assert(shape.events.columns@[event_sequence].name@ == "sequence"@);
    let event_value_json = crate::schema_objects::law_every_expected_column_is_there(
        shape.events.columns@,
        crate::schema_canon::event_columns(),
        5,
    );
    assert(shape.events.columns@[event_value_json].name@ == "value_json"@);
}

/// A schema passes for a version only if it is that of the version: it says so, it has the tables of
/// the version and no view, its core tables are defined as they should be, and it has as many triggers
/// as the version has guards, each under its name and as defined, and its index from when events are
/// indexed on.
pub proof fn law_schema_is_that_of_its_version(
    shape: DatabaseShape,
    canon: CanonicalSql,
    version: i64,
    has_v3_integrity_objects: bool,
    has_event_size_guard: bool,
)
    requires
        schema_finding(shape, canon, version, has_v3_integrity_objects, has_event_size_guard)
            is Fine,
    ensures
        shape.version == version,
        shape.views@.len() == 0,
        crate::schema_objects::names_are(shape.known_tables@, seq!["events", "runs", "sessions"]),
        crate::schema_objects::names_are(shape.tables@, tables_of(version)),
        crate::schema_support::normal_sql(shape.sessions.definition@)
            == crate::schema_support::normal_sql(SESSIONS_TABLE@),
        crate::schema_support::normal_sql(shape.runs.definition@)
            == crate::schema_support::normal_sql(RUNS_TABLE@),
        crate::schema_support::normal_sql(shape.events.definition@)
            == crate::schema_support::normal_sql(EVENTS_TABLE@),
        version >= 10 ==> shape.triggers@.len() == 16,
        7 <= version < 10 ==> shape.triggers@.len() == 13,
        version < 7 && has_event_size_guard ==> shape.triggers@.len() == 4,
        version < 7 && !has_event_size_guard && has_v3_integrity_objects ==> shape.triggers@.len()
            == 3,
        version < 7 && !has_event_size_guard && !has_v3_integrity_objects
            ==> shape.triggers@.len() == 2,
        forall|i: int|
            0 <= i < shape.triggers@.len() ==> exists|j: int|
                #![trigger shape.triggers@[j]]
                0 <= j < shape.triggers@.len() && shape.triggers@[j].name@ == (
                #[trigger] crate::schema_canon::all_triggers()[i]).name@
                    && crate::schema_support::normal_sql(shape.triggers@[j].sql@)
                    == crate::schema_support::normal_sql(
                    crate::schema_canon::all_triggers()[i].sql@,
                ),
        has_v3_integrity_objects ==> {
            &&& shape.indexes@.len() == 1
            &&& shape.indexes@[0].name@ == "events_by_run_sequence"@
            &&& shape.indexes@[0].table@ == "events"@
            &&& crate::schema_support::normal_sql(shape.indexes@[0].sql@)
                == crate::schema_support::normal_sql(canon.event_run_sequence_index@)
        },
        !has_v3_integrity_objects ==> shape.indexes@.len() == 0,
{
    reveal(schema_finding);
    reveal(definitions_finding);
    reveal(objects_finding);
    reveal(all_triggers_finding);
    assert(crate::schema_objects::core_tables() =~= seq!["events", "runs", "sessions"]);
    let expected = crate::schema_canon::all_triggers();
    assert forall|i: int| 0 <= i < shape.triggers@.len() implies exists|j: int|
        #![trigger shape.triggers@[j]]
        0 <= j < shape.triggers@.len() && shape.triggers@[j].name@ == (
        #[trigger] crate::schema_canon::all_triggers()[i]).name@
            && crate::schema_support::normal_sql(shape.triggers@[j].sql@)
            == crate::schema_support::normal_sql(crate::schema_canon::all_triggers()[i].sql@) by {
        lemma_triggers_are_there(
            shape.triggers@,
            expected,
            shape.version,
            shape.triggers@.len(),
            i,
        );
        assert(has_trigger(shape.triggers@, expected[i]));
        let j = choose|j: int|
            0 <= j < shape.triggers@.len() && (#[trigger] shape.triggers@[j]).name@
                == expected[i].name@ && crate::schema_support::normal_sql(shape.triggers@[j].sql@)
                == crate::schema_support::normal_sql(expected[i].sql@);
        assert(shape.triggers@[j].name@ == expected[i].name@);
    }
}

/// The core tables of a schema that passes are tied together: an event and a run to their session, an
/// event to a run and to a causal parent of the same session; and no identity and no place in a
/// session can occur twice.
pub proof fn law_tables_are_tied_together(
    shape: DatabaseShape,
    canon: CanonicalSql,
    version: i64,
    has_v3_integrity_objects: bool,
    has_event_size_guard: bool,
)
    requires
        schema_finding(shape, canon, version, has_v3_integrity_objects, has_event_size_guard)
            is Fine,
    ensures
        crate::schema_objects::has_index(shape.runs.indexes@, seq!["id", "session_id"]),
        crate::schema_objects::has_index(shape.events.indexes@, seq!["id", "session_id"]),
        crate::schema_objects::has_index(shape.events.indexes@, seq!["session_id", "sequence"]),
        exists|i: int|
            #![trigger shape.runs.keys@[i]]
            0 <= i < shape.runs.keys@.len() && shape.runs.keys@[i].from@ == "session_id"@
                && shape.runs.keys@[i].to@ == "id"@,
        exists|i: int|
            #![trigger shape.events.keys@[i]]
            0 <= i < shape.events.keys@.len() && shape.events.keys@[i].target@ == "sessions"@,
        exists|i: int|
            #![trigger shape.events.keys@[i]]
            0 <= i < shape.events.keys@.len() && shape.events.keys@[i].target@ == "runs"@,
        exists|i: int|
            #![trigger shape.events.keys@[i]]
            0 <= i < shape.events.keys@.len() && shape.events.keys@[i].target@ == "events"@,
        exists|i: int|
            #![trigger shape.events.keys@[i]]
            0 <= i < shape.events.keys@.len() && shape.events.keys@[i].from@ == "run_id"@
                && shape.events.keys@[i].to@ == "id"@,
        exists|i: int|
            #![trigger shape.events.keys@[i]]
            0 <= i < shape.events.keys@.len() && shape.events.keys@[i].from@ == "causal_parent"@
                && shape.events.keys@[i].to@ == "id"@,
        exists|i: int|
            #![trigger shape.events.keys@[i]]
            0 <= i < shape.events.keys@.len() && shape.events.keys@[i].from@ == "session_id"@
                && shape.events.keys@[i].to@ == "session_id"@,
{
    reveal(schema_finding);
    reveal(unique_finding);
    reveal(keys_finding);
    let session_key = crate::schema_canon::session_key();
    let run_key = crate::schema_canon::run_key();
    let parent_key = crate::schema_canon::parent_key();
    let run_session = crate::schema_objects::law_key_leads_to_its_table(
        shape.runs.keys@,
        "sessions"@,
        session_key,
        0,
    );
    assert(shape.runs.keys@[run_session.0].target@ == "sessions"@);
    assert(shape.runs.keys@[run_session.1].from@ == session_key[0].from@);
    let event_session = crate::schema_objects::law_key_leads_to_its_table(
        shape.events.keys@,
        "sessions"@,
        session_key,
        0,
    );
    assert(shape.events.keys@[event_session.0].target@ == "sessions"@);
    assert(shape.events.keys@[event_session.1].from@ == session_key[0].from@);
    let event_run = crate::schema_objects::law_key_leads_to_its_table(
        shape.events.keys@,
        "runs"@,
        run_key,
        0,
    );
    assert(shape.events.keys@[event_run.0].target@ == "runs"@);
    assert(shape.events.keys@[event_run.1].from@ == run_key[0].from@);
    let same_session = crate::schema_objects::law_key_leads_to_its_table(
        shape.events.keys@,
        "runs"@,
        run_key,
        1,
    );
    assert(shape.events.keys@[same_session.0].target@ == "runs"@);
    assert(shape.events.keys@[same_session.1].from@ == run_key[1].from@);
    let event_parent = crate::schema_objects::law_key_leads_to_its_table(
        shape.events.keys@,
        "events"@,
        parent_key,
        0,
    );
    assert(shape.events.keys@[event_parent.0].target@ == "events"@);
    assert(shape.events.keys@[event_parent.1].from@ == parent_key[0].from@);
}

/// Versions add their tables in turn: the canary with the fifth, the projection of run states and its
/// health with the seventh, the projection of event identities with the tenth.
pub proof fn law_tables_come_with_their_version(version: i64)
    ensures
        tables_of(version).len() == 3 + (if version >= 5 {
            1int
        } else {
            0
        }) + (if version >= 7 {
            2int
        } else {
            0
        }) + (if version >= 10 {
            1int
        } else {
            0
        }),
        tables_of(version).contains("events"),
        tables_of(version).contains("runs"),
        tables_of(version).contains("sessions"),
        version >= 5 ==> tables_of(version).contains("runtime_health_canary"),
        version >= 7 ==> tables_of(version).contains("run_state_projection"),
        version >= 7 ==> tables_of(version).contains("run_state_projection_health"),
        version >= 10 ==> tables_of(version).contains("event_identity_projection"),
{
    let tables = tables_of(version);
    assert(tables[0] == "events" && tables[1] == "runs" && tables[2] == "sessions");
    if version >= 5 {
        assert(tables[3] == "runtime_health_canary");
    }
    if version >= 7 {
        assert(tables[4] == "run_state_projection");
        assert(tables[5] == "run_state_projection_health");
    }
    if version >= 10 {
        assert(tables[6] == "event_identity_projection");
    }
}

/// A database is served only with its canary alive and every run projected, beside a schema of the
/// version that is served.
pub proof fn law_served_database_is_whole(shape: DatabaseShape, canon: CanonicalSql)
    requires
        current_finding(shape, canon) is Fine,
    ensures
        shape.version == 10,
        shape.canary is Some,
        shape.canary_rows@.len() == 1,
        shape.canary_rows@[0].id == 1,
        shape.canary_rows@[0].generation >= 0,
        shape.run_states is Some,
        shape.health_rows@.len() == 1,
        shape.health_rows@[0].materialized_runs == shape.health_rows@[0].projected_runs,
        shape.identities is Some,
{
    reveal(schema_finding);
    reveal(canary_finding);
    reveal(crate::projection_validation::identities_finding);
    crate::projection_validation::law_every_run_is_projected(
        shape,
        canon,
        CURRENT_SCHEMA_VERSION,
    );
}

/// In a database that is served every event is projected where it stands.
pub proof fn law_served_events_are_at_their_places(
    shape: DatabaseShape,
    canon: CanonicalSql,
    i: int,
) -> (j: int)
    requires
        current_finding(shape, canon) is Fine,
        0 <= i < shape.event_places@.len(),
    ensures
        0 <= j < shape.projected_places@.len(),
        shape.projected_places@[j].event_id@ == shape.event_places@[i].event_id@,
        shape.projected_places@[j].session_id@ == shape.event_places@[i].session_id@,
        shape.projected_places@[j].sequence == shape.event_places@[i].sequence,
{
    crate::projection_validation::law_every_event_is_projected(
        shape,
        canon,
        CURRENT_SCHEMA_VERSION,
        i,
    )
}

} // verus!

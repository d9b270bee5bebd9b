//! The schema of a database, and how it is brought up to date.

use birdcode_store::migration_coordinator::{
    create_current_schema, migrate_v4_schema_to_v5, migrate_v9_schema_to_v10, next_migration_step,
    MigrationStep, OpenedDatabase, SchemaScript,
};
use birdcode_store::name_listing::list_names;
use birdcode_store::projection_validation::{
    validate_event_identity_projection, validate_run_state_projection,
};
use birdcode_store::schema_canon::{
    canonical_triggers, expected_canary_columns, expected_event_columns, expected_health_columns,
    expected_identity_columns, expected_run_columns, expected_run_state_columns,
    expected_session_columns, CanonicalSql, EVENTS_TABLE, RUNS_TABLE,
    RUNTIME_HEALTH_CANARY_TABLE, RUN_STATE_PROJECTION_HEALTH_TABLE, SESSIONS_TABLE,
};
use birdcode_store::schema_objects::{
    ensure_column_names, ensure_columns, expected_table_names, has_foreign_key, has_unique_index,
    Column, ExpectedColumn, ExpectedKeyColumn, IndexColumn, KeyColumn,
};
use birdcode_store::schema_shape::{
    CanaryRow, DatabaseShape, EventPlace, ExplicitIndex, HealthRow, TableShape, Trigger,
};
use birdcode_store::schema_support::{is_same_sql, normalize_sql, SchemaError};
use birdcode_store::schema_validation::{
    validate_current_schema, validate_health_canary, validate_schema,
};
use birdcode_store::text::Text;

fn text(value: &str) -> Text {
    Text {
        value: value.to_owned(),
    }
}

fn normal(sql: &str) -> String {
    normalize_sql(sql).into_iter().collect()
}

fn refusal<T>(result: Result<T, SchemaError>) -> (i64, String) {
    match result {
        Err(SchemaError::Incompatible { found, detail }) => (found, detail.value),
        Err(SchemaError::Store(error)) => panic!("unexpected store failure {error:?}"),
        Err(SchemaError::RowMissing) => panic!("unexpected missing row"),
        Ok(_) => panic!("expected a refusal"),
    }
}

fn columns(expected: Vec<ExpectedColumn>) -> Vec<Column> {
    expected
        .into_iter()
        .map(|column| Column {
            name: text(column.name),
            kind: text(column.kind),
            not_null: column.not_null,
            primary_key: column.primary_key,
        })
        .collect()
}

fn index(name: &str, columns: &[&str]) -> Vec<IndexColumn> {
    columns
        .iter()
        .map(|column| IndexColumn {
            index: text(name),
            column: text(column),
        })
        .collect()
}

fn key(id: i64, target: &str, columns: &[(&str, &str)]) -> Vec<KeyColumn> {
    columns
        .iter()
        .map(|(from, to)| KeyColumn {
            id,
            target: text(target),
            from: text(from),
            to: text(to),
        })
        .collect()
}

const IDENTITY_SQL: &str = "CREATE TABLE event_identity_projection (event_id TEXT)";
const RUN_STATE_SQL: &str = "CREATE TABLE run_state_projection (run_id TEXT)";
const INDEX_SQL: &str = "CREATE INDEX events_by_run_sequence ON events(run_id, sequence)";

fn canon() -> CanonicalSql {
    CanonicalSql {
        event_run_sequence_index: text(INDEX_SQL),
        run_state_projection: text(RUN_STATE_SQL),
        event_identity_projection: text(IDENTITY_SQL),
    }
}

fn place(event: &str, sequence: u64) -> EventPlace {
    EventPlace {
        event_id: text(event),
        session_id: text("session"),
        sequence,
    }
}

fn names(names: &[&str]) -> Vec<Text> {
    names.iter().map(|name| text(name)).collect()
}

/// A database of the current version.
fn current() -> DatabaseShape {
    let mut event_indexes = index("a", &["id", "session_id"]);
    event_indexes.extend(index("b", &["session_id", "sequence"]));
    let mut event_keys = key(0, "sessions", &[("session_id", "id")]);
    event_keys.extend(key(1, "runs", &[("session_id", "session_id"), ("run_id", "id")]));
    event_keys.extend(key(
        2,
        "events",
        &[("causal_parent", "id"), ("session_id", "session_id")],
    ));
    let mut identity_indexes = index("c", &["event_id", "session_id"]);
    identity_indexes.extend(index("d", &["session_id", "sequence"]));
    DatabaseShape {
        version: 10,
        known_tables: names(&["sessions", "runs", "events"]),
        tables: names(&[
            "event_identity_projection",
            "events",
            "run_state_projection",
            "run_state_projection_health",
            "runs",
            "runtime_health_canary",
            "sessions",
        ]),
        views: Vec::new(),
        sessions: TableShape {
            columns: columns(expected_session_columns()),
            definition: text(SESSIONS_TABLE),
            keys: Vec::new(),
            indexes: Vec::new(),
        },
        runs: TableShape {
            columns: columns(expected_run_columns()),
            definition: text(RUNS_TABLE),
            keys: key(0, "sessions", &[("session_id", "id")]),
            indexes: index("r", &["id", "session_id"]),
        },
        events: TableShape {
            columns: columns(expected_event_columns()),
            definition: text(EVENTS_TABLE),
            keys: event_keys,
            indexes: event_indexes,
        },
        canary: Some(TableShape {
            columns: columns(expected_canary_columns()),
            definition: text(RUNTIME_HEALTH_CANARY_TABLE),
            keys: Vec::new(),
            indexes: Vec::new(),
        }),
        run_states: Some(TableShape {
            columns: columns(expected_run_state_columns()),
            definition: text(RUN_STATE_SQL),
            keys: key(0, "runs", &[("run_id", "id"), ("session_id", "session_id")]),
            indexes: Vec::new(),
        }),
        run_state_health: Some(TableShape {
            columns: columns(expected_health_columns()),
            definition: text(RUN_STATE_PROJECTION_HEALTH_TABLE),
            keys: Vec::new(),
            indexes: Vec::new(),
        }),
        identities: Some(TableShape {
            columns: columns(expected_identity_columns()),
            definition: text(IDENTITY_SQL),
            keys: key(0, "events", &[("event_id", "id"), ("session_id", "session_id")]),
            indexes: identity_indexes,
        }),
        triggers: canonical_triggers()
            .into_iter()
            .map(|trigger| Trigger {
                name: text(trigger.name),
                sql: text(trigger.sql),
            })
            .collect(),
        indexes: vec![ExplicitIndex {
            name: text("events_by_run_sequence"),
            table: text("events"),
            sql: text(INDEX_SQL),
        }],
        canary_rows: vec![CanaryRow {
            id: 1,
            generation: 0,
        }],
        health_rows: vec![HealthRow {
            id: 1,
            materialized_runs: 3,
            projected_runs: 3,
        }],
        event_places: vec![place("one", 1), place("two", 2)],
        projected_places: vec![place("two", 2), place("one", 1)],
    }
}

/// A database of an earlier version, as far as tables and triggers go.
fn earlier(version: i64) -> DatabaseShape {
    let mut shape = current();
    shape.version = version;
    let (tables, triggers): (&[&str], usize) = match version {
        7..=9 => (
            &[
                "events",
                "runs",
                "sessions",
                "runtime_health_canary",
                "run_state_projection",
                "run_state_projection_health",
            ],
            13,
        ),
        4 => (&["events", "runs", "sessions"], 4),
        3 => (&["events", "runs", "sessions"], 3),
        _ => (&["events", "runs", "sessions"], 2),
    };
    shape.tables = names(tables);
    shape.triggers.truncate(triggers);
    if version < 3 {
        shape.indexes.clear();
    }
    if version < 5 {
        shape.canary = None;
        shape.canary_rows.clear();
    }
    shape
}

fn opened(shape: DatabaseShape) -> OpenedDatabase {
    OpenedDatabase {
        migration_is_under_way: false,
        upgrade_is_under_way: false,
        shape,
        has_causal_parent: false,
    }
}

#[test]
fn normal_sql_ignores_white_space_case_and_final_semicolons() {
    assert_eq!(
        normal("  create\ttable  a (\n id Text\u{a0}) ;;"),
        "CREATE TABLE A ( ID TEXT )"
    );
    assert_eq!(normal(""), "");
    assert_eq!(normal(";;"), "");
    assert_eq!(normal("stra\u{df}e"), "STRA\u{df}E");
    assert!(is_same_sql("select 1;", "SELECT\n1"));
    assert!(!is_same_sql("select 1", "select 2"));
    assert!(!is_same_sql("select1", "select 1"));
}

#[test]
fn normal_form_is_stable_without_semicolons() {
    let once = normal(" a  b\nc ");
    assert_eq!(normal(&once), once);
    assert_eq!(normal("a ; ;"), "A ;");
    assert_eq!(normal(&normal("a ; ;")), "A");
}

#[test]
fn columns_are_compared_as_a_set() {
    let expected = vec![
        ExpectedColumn {
            name: "id",
            kind: "TEXT",
            not_null: true,
            primary_key: 1,
        },
        ExpectedColumn {
            name: "value_json",
            kind: "TEXT",
            not_null: true,
            primary_key: 0,
        },
    ];
    let mut actual = columns(expected_session_columns());
    actual.reverse();
    actual[0].kind = text("text");
    assert!(ensure_columns("sessions", &actual, &expected, 10).is_ok());
    assert!(ensure_column_names("sessions", &actual, &vec!["value_json", "id"], 10).is_ok());
    actual[1].not_null = false;
    assert_eq!(
        refusal(ensure_columns("sessions", &actual, &expected, 10)),
        (
            10,
            "sessions does not match the canonical column definition".to_owned()
        )
    );
    assert_eq!(
        refusal(ensure_column_names("sessions", &actual, &vec!["id"], 4)),
        (
            4,
            "unexpected columns in sessions: {\"id\", \"value_json\"}".to_owned()
        )
    );
    assert_eq!(expected_table_names(), vec!["events", "runs", "sessions"]);
}

#[test]
fn listings_are_in_order_and_repeat_nothing() {
    assert_eq!(list_names(&Vec::new()), text("{}"));
    assert_eq!(
        list_names(&names(&["runs", "a\"b", "runs", "events", "run", "\u{7}"])),
        text("{\"\\u{7}\", \"a\\\"b\", \"events\", \"run\", \"runs\"}")
    );
}

#[test]
fn indexes_keep_order_and_keys_do_not() {
    let rows = current().events.indexes;
    assert!(has_unique_index(&rows, &vec!["id", "session_id"]));
    assert!(!has_unique_index(&rows, &vec!["session_id", "id"]));
    assert!(!has_unique_index(&rows, &vec!["id"]));
    let keys = current().events.keys;
    let run_key = vec![
        ExpectedKeyColumn {
            from: "run_id",
            to: "id",
        },
        ExpectedKeyColumn {
            from: "session_id",
            to: "session_id",
        },
    ];
    assert!(has_foreign_key(&keys, "runs", &run_key));
    assert!(!has_foreign_key(&keys, "sessions", &run_key));
    assert!(!has_foreign_key(
        &keys,
        "runs",
        &vec![ExpectedKeyColumn {
            from: "run_id",
            to: "id",
        }]
    ));
}

#[test]
fn current_database_is_served() {
    assert!(validate_current_schema(&current(), &canon()).is_ok());
    assert!(matches!(
        next_migration_step(&opened(current()), &canon()),
        Ok(MigrationStep::Serve)
    ));
}

#[test]
fn missing_trigger_is_named() {
    let mut shape = current();
    shape.triggers.remove(2);
    assert_eq!(
        refusal(validate_current_schema(&shape, &canon())),
        (
            10,
            "missing or altered append-only trigger events_reject_conflicting_insert".to_owned()
        )
    );
    let mut altered = current();
    altered.triggers[0].sql = text("CREATE TRIGGER events_are_immutable_on_update");
    assert_eq!(
        refusal(validate_current_schema(&altered, &canon())),
        (
            10,
            "missing or altered append-only trigger events_are_immutable_on_update".to_owned()
        )
    );
    let mut extra = current();
    extra.triggers.push(Trigger {
        name: text("stray"),
        sql: text("CREATE TRIGGER stray"),
    });
    assert_eq!(
        refusal(validate_current_schema(&extra, &canon())),
        (
            10,
            "unexpected triggers are attached to the event log".to_owned()
        )
    );
}

#[test]
fn each_part_of_the_schema_is_checked() {
    let check = |change: fn(&mut DatabaseShape)| {
        let mut shape = current();
        change(&mut shape);
        refusal(validate_current_schema(&shape, &canon())).1
    };
    assert_eq!(
        check(|shape| {
            shape.known_tables.pop();
        }),
        "current schema has an incomplete table set"
    );
    assert_eq!(
        check(|shape| shape.runs.columns.clear()),
        "runs does not match the canonical column definition"
    );
    assert_eq!(
        check(|shape| shape.events.definition = text("CREATE TABLE events (id TEXT)")),
        "events table definition is altered"
    );
    assert_eq!(
        check(|shape| {
            shape.tables.pop();
        }),
        "unexpected user table set: {\"event_identity_projection\", \"events\", \
         \"run_state_projection\", \"run_state_projection_health\", \"runs\", \
         \"runtime_health_canary\"}"
    );
    assert_eq!(
        check(|shape| shape.views.push(text("peek"))),
        "unexpected views in durable schema: {\"peek\"}"
    );
    assert_eq!(
        check(|shape| shape.runs.indexes.clear()),
        "runs is missing UNIQUE(id, session_id)"
    );
    assert_eq!(
        check(|shape| shape.events.indexes.truncate(2)),
        "events is missing UNIQUE(session_id, sequence)"
    );
    assert_eq!(
        check(|shape| shape.runs.keys.clear()),
        "runs is missing its session foreign key"
    );
    assert_eq!(
        check(|shape| shape.events.keys.truncate(3)),
        "events is missing its session-scoped causal parent foreign key"
    );
    assert_eq!(
        check(|shape| shape.indexes.clear()),
        "explicit index set differs from the canonical schema"
    );
    assert_eq!(
        check(|shape| shape.canary = None),
        "runtime health canary table is missing"
    );
    assert_eq!(
        check(|shape| shape.canary_rows[0].generation = -1),
        "runtime health canary must contain exactly one valid row"
    );
    assert_eq!(
        check(|shape| shape.health_rows[0].projected_runs = 2),
        "run state projection does not cover exactly the materialized runs"
    );
    assert_eq!(
        check(|shape| {
            shape.projected_places.pop();
        }),
        "event identity projection does not exactly cover the event log"
    );
    assert_eq!(
        check(|shape| shape.projected_places.push(place("three", 3))),
        "event identity projection does not exactly cover the event log"
    );
}

#[test]
fn projections_are_checked_by_themselves() {
    let mut shape = current();
    assert!(validate_event_identity_projection(&shape, &canon(), 10).is_ok());
    assert!(validate_run_state_projection(&shape, &canon(), 8).is_ok());
    assert!(validate_health_canary(&shape, 8).is_ok());
    shape.identities = None;
    assert_eq!(
        refusal(validate_event_identity_projection(&shape, &canon(), 10)),
        (10, "event identity projection table is missing".to_owned())
    );
    shape.run_state_health = None;
    assert_eq!(
        refusal(validate_run_state_projection(&shape, &canon(), 8)),
        (8, "run state projection health table is missing".to_owned())
    );
    assert_eq!(
        refusal(validate_schema(&shape, &canon(), 9, true, true)),
        (10, "expected canonical schema version 9".to_owned())
    );
}

#[test]
fn changes_raise_the_version_by_one() {
    for (version, scripts) in [
        (
            2,
            vec![
                SchemaScript::EventInsertConflictGuard,
                SchemaScript::EventRunSequenceIndex,
            ],
        ),
        (3, vec![SchemaScript::EventSizeGuard]),
        (4, vec![SchemaScript::HealthCanary]),
        (8, Vec::new()),
        (
            9,
            vec![
                SchemaScript::EventIdentityProjection,
                SchemaScript::EventIdentityBackfill,
                SchemaScript::EventIdentityProjectionTriggers,
            ],
        ),
    ] {
        match next_migration_step(&opened(earlier(version)), &canon()) {
            Ok(MigrationStep::Change(change)) => {
                assert_eq!(change.version, version + 1);
                assert_eq!(change.scripts, scripts);
            }
            other => panic!("version {version} is changed, not {other:?}"),
        }
    }
    let mut early_canary = earlier(4);
    early_canary.canary = current().canary;
    assert_eq!(
        refusal(migrate_v4_schema_to_v5(&early_canary, &canon())),
        (
            4,
            "schema v4 unexpectedly contains runtime_health_canary".to_owned()
        )
    );
    assert!(migrate_v9_schema_to_v10(&earlier(9), &canon()).is_ok());
}

#[test]
fn upgrades_and_migrations_begin_and_resume() {
    for from in [5, 6, 7] {
        assert!(matches!(
            next_migration_step(&opened(earlier(from)), &canon()),
            Ok(MigrationStep::BeginStoreUpgrade { from: begun }) if begun == from
        ));
    }
    let mut legacy = earlier(1);
    legacy.events.columns.retain(|column| column.name != text("causal_parent"));
    assert!(matches!(
        next_migration_step(&opened(legacy), &canon()),
        Ok(MigrationStep::BeginLegacyMigration {
            found: 1,
            has_causal_parent: false
        })
    ));
    let mut unversioned = opened(earlier(0));
    unversioned.has_causal_parent = true;
    assert!(matches!(
        next_migration_step(&unversioned, &canon()),
        Ok(MigrationStep::BeginLegacyMigration {
            found: 0,
            has_causal_parent: true
        })
    ));
    let mut resumed = opened(current());
    resumed.upgrade_is_under_way = true;
    assert!(matches!(
        next_migration_step(&resumed, &canon()),
        Ok(MigrationStep::ResumeStoreUpgrade)
    ));
    resumed.migration_is_under_way = true;
    assert!(matches!(
        next_migration_step(&resumed, &canon()),
        Ok(MigrationStep::ResumeLegacyMigration)
    ));
}

#[test]
fn empty_database_is_created_and_partial_ones_are_refused() {
    let mut empty = earlier(0);
    empty.known_tables.clear();
    match next_migration_step(&opened(empty), &canon()) {
        Ok(MigrationStep::Create(change)) => {
            assert_eq!(change.version, 10);
            assert_eq!(change.scripts, create_current_schema().scripts);
            assert_eq!(change.scripts.len(), 10);
        }
        other => panic!("an empty database is created, not {other:?}"),
    }
    let mut partial = earlier(0);
    partial.known_tables.pop();
    assert_eq!(
        refusal(next_migration_step(&opened(partial), &canon())),
        (
            0,
            "incomplete BirdCode table set: {\"runs\", \"sessions\"}".to_owned()
        )
    );
    for version in [11, -1] {
        assert_eq!(
            refusal(next_migration_step(&opened(earlier(version)), &canon())),
            (
                version,
                "only schema versions 1 through 9 can be migrated automatically".to_owned()
            )
        );
    }
}

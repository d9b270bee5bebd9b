//! Which step brings a database nearer to the schema that is served.

use vstd::prelude::*;
use crate::legacy_migration::validate_legacy_shape;
use crate::name_listing::list_names;
use crate::projection_validation::validate_run_state_projection;
use crate::schema_canon::CanonicalSql;
use crate::schema_objects::{are_names, expected_table_names};
use crate::schema_shape::{
    DatabaseShape, CHILD_RECONNAISSANCE_SCHEMA_VERSION, CURRENT_SCHEMA_VERSION,
    EVENT_SIZE_SCHEMA_VERSION, HEALTH_CANARY_SCHEMA_VERSION, IMMUTABLE_SCHEMA_VERSION,
    INDEXED_SCHEMA_VERSION, LEGACY_SCHEMA_VERSION, PATH_WIRE_SCHEMA_VERSION,
    RUN_STATE_PROJECTION_SCHEMA_VERSION, SEMANTIC_REVIEW_SCHEMA_VERSION,
};
use crate::schema_support::{incompatible, require, Finding, SchemaError};
use crate::schema_validation::{validate_current_schema, validate_health_canary, validate_schema};
use crate::text::Text;

verus! {

/// A script that changes a database.
#[derive(Clone, Copy, Debug, PartialEq, Eq, Structural)]
pub enum SchemaScript {
    /// Creates the core tables.
    CurrentTables,
    /// Creates the triggers that keep events from being changed.
    ImmutabilityTriggers,
    /// Creates the trigger that refuses events in a taken place.
    EventInsertConflictGuard,
    /// Creates the index of events by run.
    EventRunSequenceIndex,
    /// Creates the trigger that refuses events that are too large.
    EventSizeGuard,
    /// Creates the health canary.
    HealthCanary,
    /// Creates the projection of run states and its health table.
    RunStateProjection,
    /// Creates the triggers that keep the projection of run states.
    RunStateProjectionTriggers,
    /// Creates the projection of event identities.
    EventIdentityProjection,
    /// Fills the projection of event identities from the events.
    EventIdentityBackfill,
    /// Creates the triggers that keep the projection of event identities.
    EventIdentityProjectionTriggers,
}

/// A change of a database: scripts to run in order, and the version that it then has.
#[derive(Debug)]
pub struct SchemaChange {
    pub scripts: Vec<SchemaScript>,
    pub version: i64,
}

/// What is seen of a database that is opened: whether a migration or an upgrade is under way, its
/// schema, and whether its events have a column for their causal parent.
#[derive(Debug)]
pub struct OpenedDatabase {
    pub migration_is_under_way: bool,
    pub upgrade_is_under_way: bool,
    pub shape: DatabaseShape,
    pub has_causal_parent: bool,
}

/// What to do next with a database that is opened.
#[derive(Debug)]
pub enum MigrationStep {
    /// Go on with the migration that is under way, and look again.
    ResumeLegacyMigration,
    /// Go on with the upgrade that is under way, and look again.
    ResumeStoreUpgrade,
    /// Make a change, and look again.
    Change(SchemaChange),
    /// Begin an upgrade from a version, and look again.
    BeginStoreUpgrade { from: i64 },
    /// Begin a migration, and look again.
    BeginLegacyMigration { found: i64, has_causal_parent: bool },
    /// Create the schema in an empty database, check it and serve it.
    Create(SchemaChange),
    /// Serve the database.
    Serve,
}

/// What is found of a schema with a canary and a projection of run states.
pub open spec fn projected_schema_finding(
    shape: DatabaseShape,
    canon: CanonicalSql,
    version: i64,
) -> Finding {
    crate::schema_support::also(
        crate::schema_validation::schema_finding(shape, canon, version, true, true),
        crate::schema_support::also(
            crate::schema_validation::canary_finding(shape, version),
            crate::projection_validation::run_states_finding(shape, canon, version),
        ),
    )
}

fn validate_projected_schema(shape: &DatabaseShape, canon: &CanonicalSql, version: i64) -> (r: Result<
    (),
    SchemaError,
>)
    ensures
        crate::schema_support::reports(r, projected_schema_finding(*shape, *canon, version)),
{
    match validate_schema(shape, canon, version, true, true) {
        Ok(()) => {},
        Err(error) => return Err(error),
    }
    match validate_health_canary(shape, version) {
        Ok(()) => {},
        Err(error) => return Err(error),
    }
    validate_run_state_projection(shape, canon, version)
}

/// The change that a change to a version makes.
pub open spec fn scripts_to(version: i64) -> Seq<SchemaScript> {
    if version == INDEXED_SCHEMA_VERSION {
        seq![SchemaScript::EventInsertConflictGuard, SchemaScript::EventRunSequenceIndex]
    } else if version == EVENT_SIZE_SCHEMA_VERSION {
        seq![SchemaScript::EventSizeGuard]
    } else if version == HEALTH_CANARY_SCHEMA_VERSION {
        seq![SchemaScript::HealthCanary]
    } else if version == CURRENT_SCHEMA_VERSION {
        seq![
            SchemaScript::EventIdentityProjection,
            SchemaScript::EventIdentityBackfill,
            SchemaScript::EventIdentityProjectionTriggers,
        ]
    } else {
        Seq::empty()
    }
}

/// Whether a change is the one to a version.
pub open spec fn is_change_to(change: SchemaChange, version: i64) -> bool {
    change.version == version && change.scripts@ == scripts_to(version)
}

/// The change from the eighth version to the ninth, which adds kinds of events but nothing to the
/// schema.
pub fn migrate_v8_schema_to_v9(shape: &DatabaseShape, canon: &CanonicalSql) -> (r: Result<
    SchemaChange,
    SchemaError,
>)
    ensures
        crate::schema_support::reports(
            r,
            projected_schema_finding(*shape, *canon, SEMANTIC_REVIEW_SCHEMA_VERSION),
        ),
        r matches Ok(change) ==> is_change_to(change, CHILD_RECONNAISSANCE_SCHEMA_VERSION),
{
    match validate_projected_schema(shape, canon, SEMANTIC_REVIEW_SCHEMA_VERSION) {
        Ok(()) => {},
        Err(error) => return Err(error),
    }
    let scripts: Vec<SchemaScript> = Vec::new();
    assert(scripts@ =~= scripts_to(CHILD_RECONNAISSANCE_SCHEMA_VERSION));
    Ok(SchemaChange { scripts, version: CHILD_RECONNAISSANCE_SCHEMA_VERSION })
}

/// The change from the ninth version to the tenth, which adds the projection of event identities and
/// fills it from the events.
pub fn migrate_v9_schema_to_v10(shape: &DatabaseShape, canon: &CanonicalSql) -> (r: Result<
    SchemaChange,
    SchemaError,
>)
    ensures
        crate::schema_support::reports(
            r,
            projected_schema_finding(*shape, *canon, CHILD_RECONNAISSANCE_SCHEMA_VERSION),
        ),
        r matches Ok(change) ==> is_change_to(change, CURRENT_SCHEMA_VERSION),
{
    match validate_projected_schema(shape, canon, CHILD_RECONNAISSANCE_SCHEMA_VERSION) {
        Ok(()) => {},
        Err(error) => return Err(error),
    }
    let scripts = vec![
        SchemaScript::EventIdentityProjection,
        SchemaScript::EventIdentityBackfill,
        SchemaScript::EventIdentityProjectionTriggers,
    ];
    assert(scripts@ =~= scripts_to(CURRENT_SCHEMA_VERSION));
    Ok(SchemaChange { scripts, version: CURRENT_SCHEMA_VERSION })
}

/// The change from the second version to the third, which refuses events in a taken place and
/// indexes events by run.
pub fn migrate_v2_schema_to_v3(shape: &DatabaseShape, canon: &CanonicalSql) -> (r: Result<
    SchemaChange,
    SchemaError,
>)
    ensures
        crate::schema_support::reports(
            r,
            crate::schema_validation::schema_finding(
                *shape,
                *canon,
                IMMUTABLE_SCHEMA_VERSION,
                false,
                false,
            ),
        ),
        r matches Ok(change) ==> is_change_to(change, INDEXED_SCHEMA_VERSION),
{
    match validate_schema(shape, canon, IMMUTABLE_SCHEMA_VERSION, false, false) {
        Ok(()) => {},
        Err(error) => return Err(error),
    }
    let scripts = vec![
        SchemaScript::EventInsertConflictGuard,
        SchemaScript::EventRunSequenceIndex,
    ];
    assert(scripts@ =~= scripts_to(INDEXED_SCHEMA_VERSION));
    Ok(SchemaChange { scripts, version: INDEXED_SCHEMA_VERSION })
}

/// The change from the third version to the fourth, which refuses events that are too large.
pub fn migrate_v3_schema_to_v4(shape: &DatabaseShape, canon: &CanonicalSql) -> (r: Result<
    SchemaChange,
    SchemaError,
>)
    ensures
        crate::schema_support::reports(
            r,
            crate::schema_validation::schema_finding(
                *shape,
                *canon,
                INDEXED_SCHEMA_VERSION,
                true,
                false,
            ),
        ),
        r matches Ok(change) ==> is_change_to(change, EVENT_SIZE_SCHEMA_VERSION),
{
    match validate_schema(shape, canon, INDEXED_SCHEMA_VERSION, true, false) {
        Ok(()) => {},
        Err(error) => return Err(error),
    }
    let scripts = vec![SchemaScript::EventSizeGuard];
    assert(scripts@ =~= scripts_to(EVENT_SIZE_SCHEMA_VERSION));
    Ok(SchemaChange { scripts, version: EVENT_SIZE_SCHEMA_VERSION })
}

/// What is found before the health canary is added.
pub open spec fn before_canary_finding(shape: DatabaseShape, canon: CanonicalSql) -> Finding {
    crate::schema_support::also(
        crate::schema_validation::schema_finding(
            shape,
            canon,
            EVENT_SIZE_SCHEMA_VERSION,
            true,
            true,
        ),
        crate::schema_support::expect(
            shape.canary is None,
            EVENT_SIZE_SCHEMA_VERSION,
            "schema v4 unexpectedly contains runtime_health_canary"@,
        ),
    )
}

/// The change from the fourth version to the fifth, which adds the health canary.
pub fn migrate_v4_schema_to_v5(shape: &DatabaseShape, canon: &CanonicalSql) -> (r: Result<
    SchemaChange,
    SchemaError,
>)
    ensures
        crate::schema_support::reports(r, before_canary_finding(*shape, *canon)),
        r matches Ok(change) ==> is_change_to(change, HEALTH_CANARY_SCHEMA_VERSION),
{
    match validate_schema(shape, canon, EVENT_SIZE_SCHEMA_VERSION, true, true) {
        Ok(()) => {},
        Err(error) => return Err(error),
    }
    match require(
        shape.canary.is_none(),
        EVENT_SIZE_SCHEMA_VERSION,
        "schema v4 unexpectedly contains runtime_health_canary",
    ) {
        Ok(()) => {},
        Err(error) => return Err(error),
    }
    let scripts = vec![SchemaScript::HealthCanary];
    assert(scripts@ =~= scripts_to(HEALTH_CANARY_SCHEMA_VERSION));
    Ok(SchemaChange { scripts, version: HEALTH_CANARY_SCHEMA_VERSION })
}

/// The scripts that create the schema that is served.
pub open spec fn creation_scripts() -> Seq<SchemaScript> {
    seq![
        SchemaScript::CurrentTables,
        SchemaScript::ImmutabilityTriggers,
        SchemaScript::EventInsertConflictGuard,
        SchemaScript::EventRunSequenceIndex,
        SchemaScript::EventSizeGuard,
        SchemaScript::HealthCanary,
        SchemaScript::RunStateProjection,
        SchemaScript::RunStateProjectionTriggers,
        SchemaScript::EventIdentityProjection,
        SchemaScript::EventIdentityProjectionTriggers,
    ]
}

/// The change that creates the schema that is served.
pub fn create_current_schema() -> (r: SchemaChange)
    ensures
        r.scripts@ == creation_scripts(),
        r.version == CURRENT_SCHEMA_VERSION,
{
    let scripts = vec![
        SchemaScript::CurrentTables,
        SchemaScript::ImmutabilityTriggers,
        SchemaScript::EventInsertConflictGuard,
        SchemaScript::EventRunSequenceIndex,
        SchemaScript::EventSizeGuard,
        SchemaScript::HealthCanary,
        SchemaScript::RunStateProjection,
        SchemaScript::RunStateProjectionTriggers,
        SchemaScript::EventIdentityProjection,
        SchemaScript::EventIdentityProjectionTriggers,
    ];
    assert(scripts@ =~= creation_scripts());
    SchemaChange { scripts, version: CURRENT_SCHEMA_VERSION }
}

/// What is found of a database without a version.
pub open spec fn unversioned_finding(opened: OpenedDatabase) -> Finding {
    let shape = opened.shape;
    if shape.known_tables@.len() == 0 {
        Finding::Fine
    } else {
        crate::schema_support::also(
            crate::schema_support::expect(
                crate::schema_objects::names_are(
                    shape.known_tables@,
                    crate::schema_objects::core_tables(),
                ),
                shape.version,
                "incomplete BirdCode table set: "@ + crate::name_listing::listing(
                    shape.known_tables@,
                ),
            ),
            crate::legacy_migration::legacy_shape_finding(
                shape,
                shape.version,
                opened.has_causal_parent,
            ),
        )
    }
}

/// What is found of a database by its version.
pub open spec fn version_finding(opened: OpenedDatabase, canon: CanonicalSql) -> Finding {
    let shape = opened.shape;
    let version = shape.version;
    if version == CURRENT_SCHEMA_VERSION {
        crate::schema_validation::current_finding(shape, canon)
    } else if version == CHILD_RECONNAISSANCE_SCHEMA_VERSION || version
        == SEMANTIC_REVIEW_SCHEMA_VERSION {
        projected_schema_finding(shape, canon, version)
    } else if version == RUN_STATE_PROJECTION_SCHEMA_VERSION || version == PATH_WIRE_SCHEMA_VERSION
        || version == HEALTH_CANARY_SCHEMA_VERSION {
        Finding::Fine
    } else if version == EVENT_SIZE_SCHEMA_VERSION {
        before_canary_finding(shape, canon)
    } else if version == INDEXED_SCHEMA_VERSION {
        crate::schema_validation::schema_finding(shape, canon, version, true, false)
    } else if version == IMMUTABLE_SCHEMA_VERSION {
        crate::schema_validation::schema_finding(shape, canon, version, false, false)
    } else if version == LEGACY_SCHEMA_VERSION {
        crate::legacy_migration::legacy_shape_finding(shape, version, false)
    } else if version == 0 {
        unversioned_finding(opened)
    } else {
        Finding::Refused {
            found: version,
            detail: "only schema versions 1 through 9 can be migrated automatically"@,
        }
    }
}

/// Whether a step is the one for a database of its version.
pub open spec fn is_version_step(opened: OpenedDatabase, step: MigrationStep) -> bool {
    let version = opened.shape.version;
    if version == CURRENT_SCHEMA_VERSION {
        step == MigrationStep::Serve
    } else if version == RUN_STATE_PROJECTION_SCHEMA_VERSION || version == PATH_WIRE_SCHEMA_VERSION
        || version == HEALTH_CANARY_SCHEMA_VERSION {
        step == (MigrationStep::BeginStoreUpgrade { from: version })
    } else if version == LEGACY_SCHEMA_VERSION {
        step == (MigrationStep::BeginLegacyMigration { found: version, has_causal_parent: false })
    } else if version == 0 {
        if opened.shape.known_tables@.len() == 0 {
            step matches MigrationStep::Create(change) && change.scripts@ == creation_scripts()
                && change.version == CURRENT_SCHEMA_VERSION
        } else {
            step == (MigrationStep::BeginLegacyMigration {
                found: version,
                has_causal_parent: opened.has_causal_parent,
            })
        }
    } else {
        step matches MigrationStep::Change(change) && is_change_to(change, (version + 1) as i64)
    }
}

fn next_unversioned_step(opened: &OpenedDatabase) -> (r: Result<MigrationStep, SchemaError>)
    requires
        opened.shape.version == 0,
    ensures
        crate::schema_support::reports(r, unversioned_finding(*opened)),
        r matches Ok(step) ==> is_version_step(*opened, step),
{
    let shape = &opened.shape;
    let found = shape.version;
    if shape.known_tables.len() == 0 {
        return Ok(MigrationStep::Create(create_current_schema()));
    }
    if !are_names(&shape.known_tables, &expected_table_names()) {
        let existing = list_names(&shape.known_tables);
        return Err(incompatible(found, Text::prefixed("incomplete BirdCode table set: ", &existing)));
    }
    match validate_legacy_shape(shape, found, opened.has_causal_parent) {
        Ok(()) => Ok(
            MigrationStep::BeginLegacyMigration {
                found,
                has_causal_parent: opened.has_causal_parent,
            },
        ),
        Err(error) => Err(error),
    }
}

fn make_change(change: Result<SchemaChange, SchemaError>) -> (r: Result<MigrationStep, SchemaError>)
    ensures
        match (change, r) {
            (Ok(change), Ok(step)) => step == MigrationStep::Change(change),
            (Err(error), Err(passed)) => passed == error,
            _ => false,
        },
{
    match change {
        Ok(change) => Ok(MigrationStep::Change(change)),
        Err(error) => Err(error),
    }
}

/// What is found of a database that is opened. One in which a migration or an upgrade is under way is
/// not looked into.
pub open spec fn opened_finding(opened: OpenedDatabase, canon: CanonicalSql) -> Finding {
    if opened.migration_is_under_way || opened.upgrade_is_under_way {
        Finding::Fine
    } else {
        version_finding(opened, canon)
    }
}

/// Whether a step is the next one for a database that is opened.
pub open spec fn is_next_step(opened: OpenedDatabase, step: MigrationStep) -> bool {
    if opened.migration_is_under_way {
        step == MigrationStep::ResumeLegacyMigration
    } else if opened.upgrade_is_under_way {
        step == MigrationStep::ResumeStoreUpgrade
    } else {
        is_version_step(opened, step)
    }
}

/// What to do next with a database that is opened: one that is not served yet is brought nearer to
/// the schema that is served, a version at a time, and one that cannot be is refused.
pub fn next_migration_step(opened: &OpenedDatabase, canon: &CanonicalSql) -> (r: Result<
    MigrationStep,
    SchemaError,
>)
    ensures
        crate::schema_support::reports(r, opened_finding(*opened, *canon)),
        r matches Ok(step) ==> is_next_step(*opened, step),
{
    if opened.migration_is_under_way {
        return Ok(MigrationStep::ResumeLegacyMigration);
    }
    if opened.upgrade_is_under_way {
        return Ok(MigrationStep::ResumeStoreUpgrade);
    }
    let shape = &opened.shape;
    let found = shape.version;
    if found == CURRENT_SCHEMA_VERSION {
        match validate_current_schema(shape, canon) {
            Ok(()) => Ok(MigrationStep::Serve),
            Err(error) => Err(error),
        }
    } else if found == CHILD_RECONNAISSANCE_SCHEMA_VERSION {
        make_change(migrate_v9_schema_to_v10(shape, canon))
    } else if found == SEMANTIC_REVIEW_SCHEMA_VERSION {
        make_change(migrate_v8_schema_to_v9(shape, canon))
    } else if found == RUN_STATE_PROJECTION_SCHEMA_VERSION || found == PATH_WIRE_SCHEMA_VERSION
        || found == HEALTH_CANARY_SCHEMA_VERSION {
        Ok(MigrationStep::BeginStoreUpgrade { from: found })
    } else if found == EVENT_SIZE_SCHEMA_VERSION {
        make_change(migrate_v4_schema_to_v5(shape, canon))
    } else if found == INDEXED_SCHEMA_VERSION {
        make_change(migrate_v3_schema_to_v4(shape, canon))
    } else if found == IMMUTABLE_SCHEMA_VERSION {
        make_change(migrate_v2_schema_to_v3(shape, canon))
    } else if found == LEGACY_SCHEMA_VERSION {
        match validate_legacy_shape(shape, found, false) {
            Ok(()) => Ok(MigrationStep::BeginLegacyMigration { found, has_causal_parent: false }),
            Err(error) => Err(error),
        }
    } else if found == 0 {
        next_unversioned_step(opened)
    } else {
        Err(
            incompatible(
                found,
                Text::of("only schema versions 1 through 9 can be migrated automatically"),
            ),
        )
    }
}

/// A change raises the version by one, and never beyond the version that is served: after finitely
/// many changes there is none left.
pub proof fn law_changes_raise_the_version(
    opened: OpenedDatabase,
    canon: CanonicalSql,
    change: SchemaChange,
)
    requires
        opened_finding(opened, canon) is Fine,
        is_next_step(opened, MigrationStep::Change(change)),
    ensures
        change.version == opened.shape.version + 1,
        change.version <= CURRENT_SCHEMA_VERSION,
{
}

/// No database is served while a migration or an upgrade is under way, nor with a schema that is not
/// exactly the current one.
pub proof fn law_only_complete_databases_are_served(opened: OpenedDatabase, canon: CanonicalSql)
    requires
        opened_finding(opened, canon) is Fine,
        is_next_step(opened, MigrationStep::Serve),
    ensures
        !opened.migration_is_under_way,
        !opened.upgrade_is_under_way,
        crate::schema_validation::current_finding(opened.shape, canon) is Fine,
{
}

/// A database of a later version is refused, and so is one of a version below zero.
pub proof fn law_unknown_versions_are_refused(opened: OpenedDatabase, canon: CanonicalSql)
    requires
        !opened.migration_is_under_way,
        !opened.upgrade_is_under_way,
        opened.shape.version > CURRENT_SCHEMA_VERSION || opened.shape.version < 0,
    ensures
        opened_finding(opened, canon) is Refused,
{
}

/// What is done with a database is told by what it is: one with a migration or an upgrade under way
/// goes on with it; the version that is served is served; an empty database is created; a database
/// of the store's first days is migrated; the fifth to the seventh version are upgraded; and any other
/// version is changed into the next, by the scripts that make the difference.
pub proof fn law_step_fits_the_database(
    opened: OpenedDatabase,
    canon: CanonicalSql,
    step: MigrationStep,
)
    requires
        opened_finding(opened, canon) is Fine,
        is_next_step(opened, step),
    ensures
        match step {
            MigrationStep::ResumeLegacyMigration => opened.migration_is_under_way,
            MigrationStep::ResumeStoreUpgrade => !opened.migration_is_under_way
                && opened.upgrade_is_under_way,
            MigrationStep::Serve => opened.shape.version == 10,
            MigrationStep::BeginStoreUpgrade { from } => from == opened.shape.version && 5 <= from
                <= 7,
            MigrationStep::BeginLegacyMigration { found, has_causal_parent } => {
                &&& found == opened.shape.version
                &&& found == 0 || found == 1
                &&& found == 1 ==> !has_causal_parent
                &&& found == 0 ==> has_causal_parent == opened.has_causal_parent
                &&& found == 0 ==> opened.shape.known_tables@.len() > 0
            },
            MigrationStep::Create(change) => {
                &&& opened.shape.version == 0
                &&& opened.shape.known_tables@.len() == 0
                &&& change.version == 10
                &&& change.scripts@ == seq![
                    SchemaScript::CurrentTables,
                    SchemaScript::ImmutabilityTriggers,
                    SchemaScript::EventInsertConflictGuard,
                    SchemaScript::EventRunSequenceIndex,
                    SchemaScript::EventSizeGuard,
                    SchemaScript::HealthCanary,
                    SchemaScript::RunStateProjection,
                    SchemaScript::RunStateProjectionTriggers,
                    SchemaScript::EventIdentityProjection,
                    SchemaScript::EventIdentityProjectionTriggers,
                ]
            },
            MigrationStep::Change(change) => {
                &&& change.version == opened.shape.version + 1
                &&& match change.version {
                    3i64 => change.scripts@ == seq![
                        SchemaScript::EventInsertConflictGuard,
                        SchemaScript::EventRunSequenceIndex,
                    ],
                    4i64 => change.scripts@ == seq![SchemaScript::EventSizeGuard],
                    5i64 => change.scripts@ == seq![SchemaScript::HealthCanary],
                    9i64 => change.scripts@.len() == 0,
                    10i64 => change.scripts@ == seq![
                        SchemaScript::EventIdentityProjection,
                        SchemaScript::EventIdentityBackfill,
                        SchemaScript::EventIdentityProjectionTriggers,
                    ],
                    _ => false,
                }
            },
        },
        !opened.migration_is_under_way && !opened.upgrade_is_under_way ==> 0 <= opened.shape.version
            <= 10 && !(step is ResumeLegacyMigration) && !(step is ResumeStoreUpgrade),
        opened.migration_is_under_way ==> step is ResumeLegacyMigration,
        !opened.migration_is_under_way && opened.upgrade_is_under_way ==> step is ResumeStoreUpgrade,
{
}

/// A database is changed only where its schema is exactly that of its version: with the guards that
/// the version has, before its canary comes without one, and afterwards with a canary and a projection
/// of run states that stand.
pub proof fn law_only_sound_databases_are_changed(
    opened: OpenedDatabase,
    canon: CanonicalSql,
    change: SchemaChange,
)
    requires
        opened_finding(opened, canon) is Fine,
        is_next_step(opened, MigrationStep::Change(change)),
    ensures
        ({
            let shape = opened.shape;
            &&& shape.triggers@.len() == (if shape.version == 2 {
                2int
            } else if shape.version == 3 {
                3
            } else if shape.version == 4 {
                4
            } else {
                13
            })
            &&& shape.indexes@.len() == (if shape.version == 2 {
                0int
            } else {
                1
            })
            &&& shape.views@.len() == 0
            &&& shape.version == 4 ==> shape.canary is None
            &&& shape.version >= 8 ==> {
                &&& shape.canary is Some
                &&& shape.canary_rows@.len() == 1
                &&& shape.canary_rows@[0].id == 1
                &&& shape.canary_rows@[0].generation >= 0
                &&& shape.health_rows@.len() == 1
                &&& shape.health_rows@[0].materialized_runs == shape.health_rows@[0].projected_runs
            }
        }),
{
    let shape = opened.shape;
    let version = shape.version;
    crate::schema_validation::law_schema_is_that_of_its_version(
        shape,
        canon,
        version,
        version >= 3,
        version >= 4,
    );
    reveal(crate::schema_validation::canary_finding);
    if version >= 8 {
        crate::projection_validation::law_every_run_is_projected(shape, canon, version);
    }
}

/// A database that nothing is under way in is refused for its version alone only where the store does
/// not know it; the versions that are upgraded, and an empty database, are never refused here.
pub proof fn law_known_versions_are_not_refused(opened: OpenedDatabase, canon: CanonicalSql)
    ensures
        opened.migration_is_under_way || opened.upgrade_is_under_way ==> opened_finding(
            opened,
            canon,
        ) is Fine,
        5 <= opened.shape.version <= 7 ==> opened_finding(opened, canon) is Fine,
        opened.shape.version == 0 && opened.shape.known_tables@.len() == 0 ==> opened_finding(
            opened,
            canon,
        ) is Fine,
{
}

} // verus!

//! Checks on the projections that are kept beside the event log.

use vstd::prelude::*;
use crate::schema_canon::{
    expected_event_key, expected_health_columns, expected_identity_columns, expected_run_key,
    expected_run_state_columns, CanonicalSql, RUN_STATE_PROJECTION_HEALTH_TABLE,
};
use crate::schema_objects::{ensure_columns, has_foreign_key, has_unique_index};
use crate::schema_shape::{DatabaseShape, EventPlace, HealthRow, TableShape};
use crate::schema_support::{is_same_sql, require, Finding, SchemaError};

verus! {

/// Whether two places are the same.
pub open spec fn same_place(first: EventPlace, second: EventPlace) -> bool {
    &&& first.event_id@ == second.event_id@
    &&& first.session_id@ == second.session_id@
    &&& first.sequence == second.sequence
}

/// Whether a place is among others.
pub open spec fn has_place(places: Seq<EventPlace>, place: EventPlace) -> bool {
    exists|i: int| 0 <= i < places.len() && same_place(#[trigger] places[i], place)
}

/// Whether all of some places are among others.
pub open spec fn covers_places(places: Seq<EventPlace>, others: Seq<EventPlace>) -> bool {
    forall|i: int| 0 <= i < others.len() ==> has_place(places, #[trigger] others[i])
}

fn finds_place(places: &Vec<EventPlace>, place: &EventPlace) -> (r: bool)
    ensures
        r == has_place(places@, *place),
{
    let mut i: usize = 0;
    while i < places.len()
        invariant
            i <= places@.len(),
            forall|j: int| 0 <= j < i ==> !same_place(#[trigger] places@[j], *place),
        decreases places.len() - i,
    {
        let other = &places[i];
        if other.event_id == place.event_id && other.session_id == place.session_id
            && other.sequence == place.sequence {
            return true;
        }
        i += 1;
    }
    false
}

fn finds_places(places: &Vec<EventPlace>, others: &Vec<EventPlace>) -> (r: bool)
    ensures
        r == covers_places(places@, others@),
{
    let mut i: usize = 0;
    while i < others.len()
        invariant
            i <= others@.len(),
            forall|j: int| 0 <= j < i ==> has_place(places@, #[trigger] others@[j]),
        decreases others.len() - i,
    {
        if !finds_place(places, &others[i]) {
            return false;
        }
        i += 1;
    }
    true
}

/// What is found of the table that projects event identities.
pub open spec fn identity_table_finding(
    shape: DatabaseShape,
    table: TableShape,
    canon: CanonicalSql,
    found: i64,
) -> Finding {
    crate::schema_support::also(
        crate::schema_support::expect(
            crate::schema_objects::columns_are(
                table.columns@,
                crate::schema_canon::identity_columns(),
            ),
            found,
            "event_identity_projection"@ + " does not match the canonical column definition"@,
        ),
        crate::schema_support::also(
            crate::schema_support::expect(
                crate::schema_support::normal_sql(table.definition@)
                    == crate::schema_support::normal_sql(canon.event_identity_projection@),
                found,
                "event identity projection table definition is altered"@,
            ),
            crate::schema_support::also(
                crate::schema_support::expect(
                    crate::schema_objects::has_key(
                        table.keys@,
                        "events"@,
                        crate::schema_canon::event_key(),
                    ),
                    found,
                    "event identity projection is missing its event foreign key"@,
                ),
                crate::schema_support::also(
                    crate::schema_support::expect(
                        crate::schema_objects::has_index(
                            table.indexes@,
                            seq!["event_id", "session_id"],
                        ) && crate::schema_objects::has_index(
                            table.indexes@,
                            seq!["session_id", "sequence"],
                        ),
                        found,
                        "event identity projection is missing a canonical unique key"@,
                    ),
                    crate::schema_support::expect(
                        covers_places(shape.projected_places@, shape.event_places@)
                            && covers_places(shape.event_places@, shape.projected_places@),
                        found,
                        "event identity projection does not exactly cover the event log"@,
                    ),
                ),
            ),
        ),
    )
}

/// What is found of the projection of event identities.
#[verifier::opaque]
pub open spec fn identities_finding(
    shape: DatabaseShape,
    canon: CanonicalSql,
    found: i64,
) -> Finding {
    match shape.identities {
        None => Finding::Refused { found, detail: "event identity projection table is missing"@ },
        Some(table) => identity_table_finding(shape, table, canon, found),
    }
}

/// Checks the projection of event identities: it is defined as expected, and it covers the event log
/// exactly.
pub fn validate_event_identity_projection(
    shape: &DatabaseShape,
    canon: &CanonicalSql,
    found: i64,
) -> (r: Result<(), SchemaError>)
    ensures
        crate::schema_support::reports(r, identities_finding(*shape, *canon, found)),
{
    proof {
        reveal(identities_finding);
    }
    let table = match &shape.identities {
        Some(table) => table,
        None => return require(false, found, "event identity projection table is missing"),
    };
    match ensure_columns(
        "event_identity_projection",
        &table.columns,
        &expected_identity_columns(),
        found,
    ) {
        Ok(()) => {},
        Err(error) => return Err(error),
    }
    match require(
        is_same_sql(
            table.definition.value.as_str(),
            canon.event_identity_projection.value.as_str(),
        ),
        found,
        "event identity projection table definition is altered",
    ) {
        Ok(()) => {},
        Err(error) => return Err(error),
    }
    match require(
        has_foreign_key(&table.keys, "events", &expected_event_key()),
        found,
        "event identity projection is missing its event foreign key",
    ) {
        Ok(()) => {},
        Err(error) => return Err(error),
    }
    let by_event = vec!["event_id", "session_id"];
    let by_sequence = vec!["session_id", "sequence"];
    assert(by_event@ =~= seq!["event_id", "session_id"]);
    assert(by_sequence@ =~= seq!["session_id", "sequence"]);
    match require(
        has_unique_index(&table.indexes, &by_event) && has_unique_index(
            &table.indexes,
            &by_sequence,
        ),
        found,
        "event identity projection is missing a canonical unique key",
    ) {
        Ok(()) => {},
        Err(error) => return Err(error),
    }
    require(
        finds_places(&shape.projected_places, &shape.event_places) && finds_places(
            &shape.event_places,
            &shape.projected_places,
        ),
        found,
        "event identity projection does not exactly cover the event log",
    )
}

/// Whether the health table says that every run is projected, and no other.
pub open spec fn is_healthy(rows: Seq<HealthRow>) -> bool {
    &&& rows.len() == 1
    &&& rows[0].id == 1
    &&& rows[0].materialized_runs == rows[0].projected_runs
}

/// What is found of the health of the projection of run states.
#[verifier::opaque]
pub open spec fn health_finding(shape: DatabaseShape, found: i64) -> Finding {
    match shape.run_state_health {
        None => Finding::Refused { found, detail: "run state projection health table is missing"@ },
        Some(table) => crate::schema_support::also(
            crate::schema_support::expect(
                crate::schema_objects::columns_are(
                    table.columns@,
                    crate::schema_canon::health_columns(),
                ),
                found,
                "run_state_projection_health"@ + " does not match the canonical column definition"@,
            ),
            crate::schema_support::also(
                crate::schema_support::expect(
                    crate::schema_support::normal_sql(table.definition@)
                        == crate::schema_support::normal_sql(RUN_STATE_PROJECTION_HEALTH_TABLE@),
                    found,
                    "run state projection health table definition is altered"@,
                ),
                crate::schema_support::expect(
                    is_healthy(shape.health_rows@),
                    found,
                    "run state projection does not cover exactly the materialized runs"@,
                ),
            ),
        ),
    }
}

fn validate_projection_health(shape: &DatabaseShape, found: i64) -> (r: Result<(), SchemaError>)
    ensures
        crate::schema_support::reports(r, health_finding(*shape, found)),
{
    proof {
        reveal(health_finding);
    }
    let table = match &shape.run_state_health {
        Some(table) => table,
        None => return require(false, found, "run state projection health table is missing"),
    };
    match ensure_columns(
        "run_state_projection_health",
        &table.columns,
        &expected_health_columns(),
        found,
    ) {
        Ok(()) => {},
        Err(error) => return Err(error),
    }
    match require(
        is_same_sql(table.definition.value.as_str(), RUN_STATE_PROJECTION_HEALTH_TABLE),
        found,
        "run state projection health table definition is altered",
    ) {
        Ok(()) => {},
        Err(error) => return Err(error),
    }
    let rows = &shape.health_rows;
    require(
        rows.len() == 1 && rows[0].id == 1 && rows[0].materialized_runs == rows[0].projected_runs,
        found,
        "run state projection does not cover exactly the materialized runs",
    )
}

/// What is found of the projection of run states.
#[verifier::opaque]
pub open spec fn run_states_finding(
    shape: DatabaseShape,
    canon: CanonicalSql,
    found: i64,
) -> Finding {
    match shape.run_states {
        None => Finding::Refused { found, detail: "run state projection table is missing"@ },
        Some(table) => crate::schema_support::also(
            crate::schema_support::expect(
                crate::schema_objects::columns_are(
                    table.columns@,
                    crate::schema_canon::run_state_columns(),
                ),
                found,
                "run_state_projection"@ + " does not match the canonical column definition"@,
            ),
            crate::schema_support::also(
                crate::schema_support::expect(
                    crate::schema_support::normal_sql(table.definition@)
                        == crate::schema_support::normal_sql(canon.run_state_projection@),
                    found,
                    "run state projection table definition is altered"@,
                ),
                crate::schema_support::also(
                    crate::schema_support::expect(
                        crate::schema_objects::has_key(
                            table.keys@,
                            "runs"@,
                            crate::schema_canon::run_key(),
                        ),
                        found,
                        "run state projection is missing its run foreign key"@,
                    ),
                    health_finding(shape, found),
                ),
            ),
        ),
    }
}

/// Checks the projection of run states, and that it covers exactly the materialized runs.
pub fn validate_run_state_projection(
    shape: &DatabaseShape,
    canon: &CanonicalSql,
    found: i64,
) -> (r: Result<(), SchemaError>)
    ensures
        crate::schema_support::reports(r, run_states_finding(*shape, *canon, found)),
{
    proof {
        reveal(run_states_finding);
    }
    let table = match &shape.run_states {
        Some(table) => table,
        None => return require(false, found, "run state projection table is missing"),
    };
    match ensure_columns(
        "run_state_projection",
        &table.columns,
        &expected_run_state_columns(),
        found,
    ) {
        Ok(()) => {},
        Err(error) => return Err(error),
    }
    match require(
        is_same_sql(table.definition.value.as_str(), canon.run_state_projection.value.as_str()),
        found,
        "run state projection table definition is altered",
    ) {
        Ok(()) => {},
        Err(error) => return Err(error),
    }
    match require(
        has_foreign_key(&table.keys, "runs", &expected_run_key()),
        found,
        "run state projection is missing its run foreign key",
    ) {
        Ok(()) => {},
        Err(error) => return Err(error),
    }
    validate_projection_health(shape, found)
}

/// A projection of identities that is served leads from every event to its place, and from every
/// place back to its event.
pub proof fn law_projection_covers_the_log(shape: DatabaseShape, canon: CanonicalSql, found: i64)
    requires
        identities_finding(shape, canon, found) is Fine,
    ensures
        covers_places(shape.projected_places@, shape.event_places@),
        covers_places(shape.event_places@, shape.projected_places@),
{
    reveal(identities_finding);
}

/// Every event of a log that is served is projected where it stands: to its identity, its session and
/// its sequence.
pub proof fn law_every_event_is_projected(
    shape: DatabaseShape,
    canon: CanonicalSql,
    found: i64,
    i: int,
) -> (j: int)
    requires
        identities_finding(shape, canon, found) is Fine,
        0 <= i < shape.event_places@.len(),
    ensures
        0 <= j < shape.projected_places@.len(),
        shape.projected_places@[j].event_id@ == shape.event_places@[i].event_id@,
        shape.projected_places@[j].session_id@ == shape.event_places@[i].session_id@,
        shape.projected_places@[j].sequence == shape.event_places@[i].sequence,
{
    reveal(identities_finding);
    let event = shape.event_places@[i];
    assert(has_place(shape.projected_places@, event));
    choose|j: int|
        0 <= j < shape.projected_places@.len() && same_place(
            #[trigger] shape.projected_places@[j],
            event,
        )
}

/// Every projected place of a log that is served is that of an event: of its identity, in its session
/// and at its sequence.
pub proof fn law_every_place_has_its_event(
    shape: DatabaseShape,
    canon: CanonicalSql,
    found: i64,
    j: int,
) -> (i: int)
    requires
        identities_finding(shape, canon, found) is Fine,
        0 <= j < shape.projected_places@.len(),
    ensures
        0 <= i < shape.event_places@.len(),
        shape.event_places@[i].event_id@ == shape.projected_places@[j].event_id@,
        shape.event_places@[i].session_id@ == shape.projected_places@[j].session_id@,
        shape.event_places@[i].sequence == shape.projected_places@[j].sequence,
{
    reveal(identities_finding);
    let place = shape.projected_places@[j];
    assert(has_place(shape.event_places@, place));
    choose|i: int|
        0 <= i < shape.event_places@.len() && same_place(#[trigger] shape.event_places@[i], place)
}

/// An event that the projection puts elsewhere, or does not have, refuses the database; and so does a
/// place that no event has.
pub proof fn law_misplaced_event_is_refused(
    shape: DatabaseShape,
    canon: CanonicalSql,
    found: i64,
    i: int,
)
    requires
        (0 <= i < shape.event_places@.len() && forall|j: int|
            0 <= j < shape.projected_places@.len() ==> (
            #[trigger] shape.projected_places@[j]).event_id@ != shape.event_places@[i].event_id@
                || shape.projected_places@[j].session_id@ != shape.event_places@[i].session_id@
                || shape.projected_places@[j].sequence != shape.event_places@[i].sequence) || (0
            <= i < shape.projected_places@.len() && forall|j: int|
            0 <= j < shape.event_places@.len() ==> (#[trigger] shape.event_places@[j]).event_id@
                != shape.projected_places@[i].event_id@ || shape.event_places@[j].session_id@
                != shape.projected_places@[i].session_id@ || shape.event_places@[j].sequence
                != shape.projected_places@[i].sequence),
    ensures
        identities_finding(shape, canon, found) is Refused,
{
    reveal(identities_finding);
    if identities_finding(shape, canon, found) is Fine {
        if 0 <= i < shape.event_places@.len() {
            let j = law_every_event_is_projected(shape, canon, found, i);
        }
        if 0 <= i < shape.projected_places@.len() {
            let j = law_every_place_has_its_event(shape, canon, found, i);
        }
    }
}

/// A projection that has every event at its place, and nothing else, is not refused for what it
/// holds: with its table as it should be, it is fine.
pub proof fn law_exact_projection_is_served(
    shape: DatabaseShape,
    table: TableShape,
    canon: CanonicalSql,
    found: i64,
)
    requires
        shape.identities == Some(table),
        crate::schema_objects::columns_are(
            table.columns@,
            crate::schema_canon::identity_columns(),
        ),
        crate::schema_support::normal_sql(table.definition@) == crate::schema_support::normal_sql(
            canon.event_identity_projection@,
        ),
        crate::schema_objects::has_key(
            table.keys@,
            "events"@,
            crate::schema_canon::event_key(),
        ),
        crate::schema_objects::has_index(table.indexes@, seq!["event_id", "session_id"]),
        crate::schema_objects::has_index(table.indexes@, seq!["session_id", "sequence"]),
        shape.projected_places@.len() == shape.event_places@.len(),
        forall|i: int|
            0 <= i < shape.event_places@.len() ==> (
            #[trigger] shape.projected_places@[i]).event_id@ == shape.event_places@[i].event_id@
                && shape.projected_places@[i].session_id@ == shape.event_places@[i].session_id@
                && shape.projected_places@[i].sequence == shape.event_places@[i].sequence,
    ensures
        identities_finding(shape, canon, found) is Fine,
{
    reveal(identities_finding);
    assert forall|i: int| 0 <= i < shape.event_places@.len() implies has_place(
        shape.projected_places@,
        #[trigger] shape.event_places@[i],
    ) by {
        assert(same_place(shape.projected_places@[i], shape.event_places@[i]));
    }
    assert forall|i: int| 0 <= i < shape.projected_places@.len() implies has_place(
        shape.event_places@,
        #[trigger] shape.projected_places@[i],
    ) by {
        assert(same_place(shape.event_places@[i], shape.projected_places@[i]));
    }
}

/// A projection of run states that is served has its tables as they should be, and one row that counts
/// as many projected runs as there are runs.
pub proof fn law_every_run_is_projected(shape: DatabaseShape, canon: CanonicalSql, found: i64)
    requires
        run_states_finding(shape, canon, found) is Fine,
    ensures
        shape.health_rows@.len() == 1,
        shape.health_rows@[0].id == 1,
        shape.health_rows@[0].materialized_runs == shape.health_rows@[0].projected_runs,
        shape.run_states matches Some(table) && crate::schema_support::normal_sql(
            table.definition@,
        ) == crate::schema_support::normal_sql(canon.run_state_projection@),
        shape.run_state_health matches Some(table) && crate::schema_support::normal_sql(
            table.definition@,
        ) == crate::schema_support::normal_sql(RUN_STATE_PROJECTION_HEALTH_TABLE@),
{
    reveal(run_states_finding);
    reveal(health_finding);
}

} // verus!

//! Writing the events of a legacy database anew, in order.

use vstd::prelude::*;
use crate::artifact::Provenance;
use crate::error::StoreError;
use crate::event::{EventEnvelope, EventPayload};
use crate::identity::EventId;
use crate::legacy_inventory::{
    find_run, find_session, next_migrated_sequence,
    synthesize_run_before_first_dependency, synthesize_session_before_first_dependency, FreshEvent,
    LegacyRows, LegacyTables, MigratedEvent, RunInventory, SessionInventory,
};
use crate::run::{Run, RunState, Session};
use crate::schema_support::{incompatible, Finding, SchemaError};
use crate::text::Text;

verus! {

/// Whether a run may go from one state to another.
#[verifier::allow_in_spec]
pub fn valid_run_transition(from: RunState, to: RunState) -> bool
    returns
        (match from {
            RunState::Queued | RunState::Waiting => to == RunState::Running || to
                == RunState::Failed || to == RunState::Cancelled,
            RunState::Running => to == RunState::Waiting || to == RunState::Completed || to
                == RunState::Failed || to == RunState::Cancelled,
            _ => false,
        }),
{
    match from {
        RunState::Queued | RunState::Waiting => to == RunState::Running || to == RunState::Failed
            || to == RunState::Cancelled,
        RunState::Running => to == RunState::Waiting || to == RunState::Completed || to
            == RunState::Failed || to == RunState::Cancelled,
        _ => false,
    }
}

/// An event that was read in a legacy database and checked, with its identities as they are written.
#[derive(Debug)]
pub struct StagedEvent {
    pub source_rowid: i64,
    pub name: Text,
    pub session_id: Text,
    pub run_id: Option<Text>,
    pub causal_parent: Option<Text>,
    pub source_sequence: u64,
    pub event: EventEnvelope,
}

/// A staged event, and what is read and drawn to write it: what came of reading its artifacts; its
/// session and run as they are on record; what came of reading the artifacts of the run's input; and
/// events for creations that must be made up for.
#[derive(Debug)]
pub struct EmittedRow {
    pub staged: StagedEvent,
    pub artifacts: Result<(), StoreError>,
    pub session: Result<Session, StoreError>,
    pub run: Result<Run, StoreError>,
    pub run_artifacts: Result<(), Text>,
    pub session_event: FreshEvent,
    pub run_event: FreshEvent,
}

/// Whether an event needs the creation of its session to stand before it.
pub open spec fn needs_session(row: EmittedRow) -> bool {
    !(row.staged.event.payload is SessionCreated)
}

/// Whether an event needs the creation of its run to stand before it.
pub open spec fn needs_run(row: EmittedRow) -> bool {
    row.staged.run_id is Some && !(row.staged.event.payload is RunCreated)
}

/// The tables once the creation of an event's session stands.
pub open spec fn after_session(
    rows: LegacyRows,
    row: EmittedRow,
    provenance: Provenance,
) -> LegacyRows {
    if needs_session(row) {
        crate::legacy_inventory::with_session_creation(
            rows,
            row.staged.session_id,
            row.session,
            row.session_event,
            provenance,
        )
    } else {
        rows
    }
}

/// The tables once the creations that an event needs stand.
pub open spec fn after_creations(
    rows: LegacyRows,
    row: EmittedRow,
    provenance: Provenance,
) -> LegacyRows {
    let rows = after_session(rows, row, provenance);
    if needs_run(row) {
        crate::legacy_inventory::with_run_creation(
            rows,
            row.staged.session_id,
            row.staged.run_id->0,
            row.run,
            row.run_event,
            provenance,
        )
    } else {
        rows
    }
}

/// What is found when the creations that an event needs must stand.
pub open spec fn creations_finding(
    rows: LegacyRows,
    row: EmittedRow,
    provenance: Provenance,
    found: i64,
) -> Finding {
    crate::schema_support::also(
        if needs_session(row) {
            crate::legacy_inventory::session_creation_finding(
                rows,
                row.staged.session_id@,
                row.session,
                found,
            )
        } else {
            Finding::Fine
        },
        if needs_run(row) {
            crate::legacy_inventory::run_creation_finding(
                after_session(rows, row, provenance),
                row.staged.session_id@,
                row.staged.run_id->0@,
                row.run,
                row.run_artifacts,
                found,
            )
        } else {
            Finding::Fine
        },
    )
}

/// Whether an event is written in a session, before a sequence number.
pub open spec fn written_before(
    events: Seq<MigratedEvent>,
    session_id: Seq<char>,
    id: EventId,
    sequence: u64,
) -> bool {
    exists|i: int|
        0 <= i < events.len() && (#[trigger] events[i]).event.id == id && events[i].session_id@
            == session_id && events[i].event.sequence < sequence
}

/// Whether the creation of a session is the one that the inventory waits for.
pub open spec fn creates_session(rows: LegacyRows, row: EmittedRow) -> bool {
    &&& row.staged.event.run_id is None
    &&& (crate::legacy_inventory::session_at(rows.sessions, row.staged.session_id@) matches Some(i)
        && {
        let known = rows.sessions[i];
        known.creation_count == 1 && !known.synthesized && !known.creation_seen
    })
}

/// Whether the creation of a run is the one that the inventory waits for.
pub open spec fn creates_run(rows: LegacyRows, row: EmittedRow, id: Seq<char>, run: Run) -> bool {
    &&& run.state == RunState::Queued
    &&& (crate::legacy_inventory::run_at(rows.runs, id) matches Some(i) && {
        let known = rows.runs[i];
        &&& known.session_id@ == row.staged.session_id@
        &&& known.creation_count == 1
        &&& !known.synthesized
        &&& !known.creation_seen
        &&& known.state == RunState::Queued
    })
}

/// Whether a run moves from the state that it has reached to one that it may go to.
pub open spec fn moves_run(
    rows: LegacyRows,
    row: EmittedRow,
    id: Seq<char>,
    from: RunState,
    to: RunState,
    sequence: u64,
) -> bool {
    &&& valid_run_transition(from, to)
    &&& (crate::legacy_inventory::run_at(rows.runs, id) matches Some(i) && {
        let known = rows.runs[i];
        &&& known.session_id@ == row.staged.session_id@
        &&& known.state == from
        &&& known.creation_seen
        &&& known.state_sequence < sequence
    })
}

/// What is found of what an event says, once the creations that it needs stand.
pub open spec fn content_finding(
    rows: LegacyRows,
    row: EmittedRow,
    sequence: u64,
    found: i64,
) -> Finding {
    let name = row.staged.name@;
    match row.staged.event.payload {
        EventPayload::SessionCreated { session } => crate::schema_support::expect(
            creates_session(rows, row),
            found,
            "session creation event "@ + name + " is duplicated or follows a dependency"@,
        ),
        EventPayload::RunCreated { run } => match row.staged.run_id {
            None => Finding::Refused {
                found,
                detail: "run creation event "@ + name + " has no run_id"@,
            },
            Some(id) => crate::schema_support::expect(
                creates_run(rows, row, id@, run),
                found,
                "run creation event "@ + name
                    + " is non-queued, duplicated, or follows a dependency"@,
            ),
        },
        EventPayload::RunStateChanged { from, to } => match row.staged.run_id {
            None => Finding::Failed { error: StoreError::InvalidStateEvent },
            Some(id) => crate::schema_support::expect(
                moves_run(rows, row, id@, from, to, sequence),
                found,
                "event "@ + name + " is not a valid state transition"@,
            ),
        },
        EventPayload::BackendEvent { event_name } => crate::schema_support::expect(
            row.staged.run_id is Some,
            found,
            "backend event "@ + name + " has no run_id"@,
        ),
        _ => Finding::Fine,
    }
}

/// The inventory once an event is written.
pub open spec fn after_content(rows: LegacyRows, row: EmittedRow, sequence: u64) -> LegacyRows {
    match row.staged.event.payload {
        EventPayload::SessionCreated { session } => {
            let i = crate::legacy_inventory::session_at(rows.sessions, row.staged.session_id@)->0;
            LegacyRows {
                sessions: rows.sessions.update(
                    i,
                    SessionInventory { creation_seen: true, ..rows.sessions[i] },
                ),
                ..rows
            }
        },
        EventPayload::RunCreated { run } => {
            let i = crate::legacy_inventory::run_at(rows.runs, row.staged.run_id->0@)->0;
            LegacyRows {
                runs: rows.runs.update(
                    i,
                    RunInventory {
                        creation_seen: true,
                        state: RunState::Queued,
                        state_sequence: sequence,
                        ..rows.runs[i]
                    },
                ),
                ..rows
            }
        },
        EventPayload::RunStateChanged { from, to } => {
            let i = crate::legacy_inventory::run_at(rows.runs, row.staged.run_id->0@)->0;
            LegacyRows {
                runs: rows.runs.update(
                    i,
                    RunInventory { state: to, state_sequence: sequence, ..rows.runs[i] },
                ),
                ..rows
            }
        },
        _ => rows,
    }
}

/// What is found when an event is to be written.
pub open spec fn emit_finding(
    rows: LegacyRows,
    row: EmittedRow,
    provenance: Provenance,
    found: i64,
) -> Finding {
    match row.artifacts {
        Err(error) => Finding::Failed { error },
        Ok(()) => {
            let ready = after_creations(rows, row, provenance);
            crate::schema_support::also(
                creations_finding(rows, row, provenance, found),
                match crate::legacy_inventory::next_sequence(
                    ready.events,
                    row.staged.session_id@,
                ) {
                    None => Finding::Failed { error: StoreError::SequenceOverflow },
                    Some(sequence) => crate::schema_support::also(
                        crate::schema_support::expect(
                            row.staged.event.causal_parent matches Some(parent) ==> written_before(
                                ready.events,
                                row.staged.session_id@,
                                parent,
                                sequence,
                            ),
                            found,
                            "event "@ + row.staged.name@
                                + " has a missing or non-prior causal parent"@,
                        ),
                        content_finding(ready, row, sequence, found),
                    ),
                },
            )
        },
    }
}

/// The tables once an event is written: under the next sequence number of its session, and
/// otherwise as it was.
pub open spec fn emitted(rows: LegacyRows, row: EmittedRow, provenance: Provenance) -> LegacyRows {
    let ready = after_creations(rows, row, provenance);
    let sequence = crate::legacy_inventory::next_sequence(
        ready.events,
        row.staged.session_id@,
    )->0;
    let marked = after_content(ready, row, sequence);
    LegacyRows {
        events: marked.events.push(
            MigratedEvent {
                session_id: row.staged.session_id,
                run_id: row.staged.run_id,
                event: EventEnvelope { sequence, ..row.staged.event },
            },
        ),
        ..marked
    }
}

fn is_written_before(
    events: &Vec<MigratedEvent>,
    session_id: &Text,
    id: EventId,
    sequence: u64,
) -> (r: bool)
    ensures
        r == written_before(events@, session_id@, id, sequence),
{
    let mut i: usize = 0;
    while i < events.len()
        invariant
            i <= events@.len(),
            forall|j: int|
                0 <= j < i ==> !((#[trigger] events@[j]).event.id == id && events@[j].session_id@
                    == session_id@ && events@[j].event.sequence < sequence),
        decreases events.len() - i,
    {
        if events[i].event.id == id && events[i].session_id == *session_id
            && events[i].event.sequence < sequence {
            return true;
        }
        i += 1;
    }
    false
}

fn mark_session_creation(
    tables: LegacyTables,
    staged: &StagedEvent,
    found: i64,
    Ghost(row): Ghost<EmittedRow>,
) -> (r: Result<LegacyTables, SchemaError>)
    requires
        row.staged == *staged,
    ensures
        crate::schema_support::reports(
            r,
            crate::schema_support::expect(
                creates_session(tables@, row),
                found,
                "session creation event "@ + staged.name@
                    + " is duplicated or follows a dependency"@,
            ),
        ),
        r matches Ok(after) ==> {
            let i = crate::legacy_inventory::session_at(
                tables@.sessions,
                staged.session_id@,
            )->0;
            after@ == (LegacyRows {
                sessions: tables@.sessions.update(
                    i,
                    SessionInventory { creation_seen: true, ..tables@.sessions[i] },
                ),
                ..tables@
            })
        },
{
    let ghost before = tables@;
    let mut tables = tables;
    let refusal = Text::around(
        "session creation event ",
        &staged.name,
        " is duplicated or follows a dependency",
    );
    let i = match find_session(&tables.sessions, &staged.session_id) {
        Some(i) => i,
        None => return Err(incompatible(found, refusal)),
    };
    if staged.event.run_id.is_some() || tables.sessions[i].creation_count != 1
        || tables.sessions[i].synthesized || tables.sessions[i].creation_seen {
        return Err(incompatible(found, refusal));
    }
    tables.sessions[i].creation_seen = true;
    assert(tables@.sessions =~= before.sessions.update(
        i as int,
        SessionInventory { creation_seen: true, ..before.sessions[i as int] },
    ));
    Ok(tables)
}

fn mark_run_creation(
    tables: LegacyTables,
    staged: &StagedEvent,
    id: &Text,
    run: &Run,
    sequence: u64,
    found: i64,
    Ghost(row): Ghost<EmittedRow>,
) -> (r: Result<LegacyTables, SchemaError>)
    requires
        row.staged == *staged,
    ensures
        crate::schema_support::reports(
            r,
            crate::schema_support::expect(
                creates_run(tables@, row, id@, *run),
                found,
                "run creation event "@ + staged.name@
                    + " is non-queued, duplicated, or follows a dependency"@,
            ),
        ),
        r matches Ok(after) ==> {
            let i = crate::legacy_inventory::run_at(tables@.runs, id@)->0;
            after@ == (LegacyRows {
                runs: tables@.runs.update(
                    i,
                    RunInventory {
                        creation_seen: true,
                        state: RunState::Queued,
                        state_sequence: sequence,
                        ..tables@.runs[i]
                    },
                ),
                ..tables@
            })
        },
{
    let ghost before = tables@;
    let mut tables = tables;
    let refusal = Text::around(
        "run creation event ",
        &staged.name,
        " is non-queued, duplicated, or follows a dependency",
    );
    let i = match find_run(&tables.runs, id) {
        Some(i) => i,
        None => return Err(incompatible(found, refusal)),
    };
    if run.state != RunState::Queued || tables.runs[i].session_id != staged.session_id
        || tables.runs[i].creation_count != 1 || tables.runs[i].synthesized
        || tables.runs[i].creation_seen || tables.runs[i].state != RunState::Queued {
        return Err(incompatible(found, refusal));
    }
    tables.runs[i].creation_seen = true;
    tables.runs[i].state = RunState::Queued;
    tables.runs[i].state_sequence = sequence;
    assert(tables@.runs =~= before.runs.update(
        i as int,
        RunInventory {
            creation_seen: true,
            state: RunState::Queued,
            state_sequence: sequence,
            ..before.runs[i as int]
        },
    ));
    Ok(tables)
}

fn mark_run_state(
    tables: LegacyTables,
    staged: &StagedEvent,
    id: &Text,
    from: RunState,
    to: RunState,
    sequence: u64,
    found: i64,
    Ghost(row): Ghost<EmittedRow>,
) -> (r: Result<LegacyTables, SchemaError>)
    requires
        row.staged == *staged,
    ensures
        crate::schema_support::reports(
            r,
            crate::schema_support::expect(
                moves_run(tables@, row, id@, from, to, sequence),
                found,
                "event "@ + staged.name@ + " is not a valid state transition"@,
            ),
        ),
        r matches Ok(after) ==> {
            let i = crate::legacy_inventory::run_at(tables@.runs, id@)->0;
            after@ == (LegacyRows {
                runs: tables@.runs.update(
                    i,
                    RunInventory { state: to, state_sequence: sequence, ..tables@.runs[i] },
                ),
                ..tables@
            })
        },
{
    let ghost before = tables@;
    let mut tables = tables;
    let refusal = Text::around("event ", &staged.name, " is not a valid state transition");
    let i = match find_run(&tables.runs, id) {
        Some(i) => i,
        None => return Err(incompatible(found, refusal)),
    };
    if !valid_run_transition(from, to) || tables.runs[i].session_id != staged.session_id
        || tables.runs[i].state != from || !tables.runs[i].creation_seen
        || tables.runs[i].state_sequence >= sequence {
        return Err(incompatible(found, refusal));
    }
    tables.runs[i].state = to;
    tables.runs[i].state_sequence = sequence;
    assert(tables@.runs =~= before.runs.update(
        i as int,
        RunInventory { state: to, state_sequence: sequence, ..before.runs[i as int] },
    ));
    Ok(tables)
}

fn mark_content(
    tables: LegacyTables,
    staged: &StagedEvent,
    sequence: u64,
    found: i64,
    Ghost(row): Ghost<EmittedRow>,
) -> (r: Result<LegacyTables, SchemaError>)
    requires
        row.staged == *staged,
    ensures
        crate::schema_support::reports(r, content_finding(tables@, row, sequence, found)),
        r matches Ok(after) ==> after@ == after_content(tables@, row, sequence),
{
    match &staged.event.payload {
        EventPayload::SessionCreated { session: _ } => mark_session_creation(
            tables,
            staged,
            found,
            Ghost(row),
        ),
        EventPayload::RunCreated { run } => match &staged.run_id {
            None => Err(
                incompatible(
                    found,
                    Text::around("run creation event ", &staged.name, " has no run_id"),
                ),
            ),
            Some(id) => mark_run_creation(tables, staged, id, run, sequence, found, Ghost(row)),
        },
        EventPayload::RunStateChanged { from, to } => match &staged.run_id {
            None => Err(SchemaError::Store(StoreError::InvalidStateEvent)),
            Some(id) => mark_run_state(
                tables,
                staged,
                id,
                *from,
                *to,
                sequence,
                found,
                Ghost(row),
            ),
        },
        EventPayload::BackendEvent { event_name: _ } => if staged.run_id.is_none() {
            Err(
                incompatible(
                    found,
                    Text::around("backend event ", &staged.name, " has no run_id"),
                ),
            )
        } else {
            Ok(tables)
        },
        _ => Ok(tables),
    }
}

/// Writes one staged event.
pub fn emit_staged_event(
    tables: LegacyTables,
    row: EmittedRow,
    provenance: &Provenance,
    found: i64,
) -> (r: Result<LegacyTables, SchemaError>)
    ensures
        crate::schema_support::reports(r, emit_finding(tables@, row, *provenance, found)),
        r matches Ok(after) ==> after@ == emitted(tables@, row, *provenance),
{
    let ghost given = row;
    match row.artifacts {
        Ok(()) => {},
        Err(error) => return Err(SchemaError::Store(error)),
    }
    let staged = row.staged;
    let is_session_creation = match &staged.event.payload {
        EventPayload::SessionCreated { session: _ } => true,
        _ => false,
    };
    let is_run_creation = match &staged.event.payload {
        EventPayload::RunCreated { run: _ } => true,
        _ => false,
    };
    let tables = if is_session_creation {
        tables
    } else {
        match synthesize_session_before_first_dependency(
            tables,
            &staged.session_id,
            row.session,
            row.session_event,
            provenance,
            found,
        ) {
            Ok(tables) => tables,
            Err(error) => return Err(error),
        }
    };
    let tables = match &staged.run_id {
        Some(run_id) => if is_run_creation {
            tables
        } else {
            match synthesize_run_before_first_dependency(
                tables,
                &staged.session_id,
                run_id,
                row.run,
                row.run_artifacts,
                row.run_event,
                provenance,
                found,
            ) {
                Ok(tables) => tables,
                Err(error) => return Err(error),
            }
        },
        None => tables,
    };
    let sequence = match next_migrated_sequence(&tables.events, &staged.session_id) {
        Ok(sequence) => sequence,
        Err(error) => return Err(SchemaError::Store(error)),
    };
    let parent_stands = match staged.event.causal_parent {
        Some(parent) => is_written_before(&tables.events, &staged.session_id, parent, sequence),
        None => true,
    };
    if !parent_stands {
        return Err(
            incompatible(
                found,
                Text::around("event ", &staged.name, " has a missing or non-prior causal parent"),
            ),
        );
    }
    let mut tables = match mark_content(tables, &staged, sequence, found, Ghost(given)) {
        Ok(tables) => tables,
        Err(error) => return Err(error),
    };
    let mut event = staged.event;
    event.sequence = sequence;
    tables.events.push(MigratedEvent { session_id: staged.session_id, run_id: staged.run_id, event });
    Ok(tables)
}

} // verus!

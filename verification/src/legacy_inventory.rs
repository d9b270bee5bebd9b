//! Which creations a migration has seen, and the ones that it makes up for.

use vstd::prelude::*;
use crate::artifact::Provenance;
use crate::error::StoreError;
use crate::event::{EventEnvelope, EventPayload};
use crate::identity::{ActorId, EventId};
use crate::run::{Run, RunState, Session};
use crate::schema_support::{incompatible, SchemaError};
use crate::text::Text;

verus! {

/// What a migration knows of a session: how many events create it, and whether its creation was made
/// up for or has been written.
#[derive(Debug)]
pub struct SessionInventory {
    pub session_id: Text,
    pub creation_count: u64,
    pub synthesized: bool,
    pub creation_seen: bool,
}

/// What a migration knows of a run: the same as of a session, and the state that it has reached.
#[derive(Debug)]
pub struct RunInventory {
    pub run_id: Text,
    pub session_id: Text,
    pub state: RunState,
    pub creation_count: u64,
    pub synthesized: bool,
    pub creation_seen: bool,
    pub state_sequence: u64,
}

/// An event that a migration has written, under the identities of its session and of its run as these
/// are written.
#[derive(Debug)]
pub struct MigratedEvent {
    pub session_id: Text,
    pub run_id: Option<Text>,
    pub event: EventEnvelope,
}

/// The tables that a migration fills.
#[derive(Debug)]
pub struct LegacyTables {
    pub sessions: Vec<SessionInventory>,
    pub runs: Vec<RunInventory>,
    pub events: Vec<MigratedEvent>,
}

/// The rows of the tables that a migration fills.
pub struct LegacyRows {
    pub sessions: Seq<SessionInventory>,
    pub runs: Seq<RunInventory>,
    pub events: Seq<MigratedEvent>,
}

impl View for LegacyTables {
    type V = LegacyRows;

    open spec fn view(&self) -> LegacyRows {
        LegacyRows { sessions: self.sessions@, runs: self.runs@, events: self.events@ }
    }
}

/// An identity and an actor that were drawn for a new event.
#[derive(Debug)]
pub struct FreshEvent {
    pub id: EventId,
    pub actor_id: ActorId,
}

/// The place of a session in the inventory.
pub open spec fn session_at(sessions: Seq<SessionInventory>, id: Seq<char>) -> Option<int>
    decreases sessions.len(),
{
    if sessions.len() == 0 {
        None
    } else {
        match session_at(sessions.drop_last(), id) {
            Some(i) => Some(i),
            None => if sessions.last().session_id@ == id {
                Some(sessions.len() - 1)
            } else {
                None
            },
        }
    }
}

/// The place of a run in the inventory.
pub open spec fn run_at(runs: Seq<RunInventory>, id: Seq<char>) -> Option<int>
    decreases runs.len(),
{
    if runs.len() == 0 {
        None
    } else {
        match run_at(runs.drop_last(), id) {
            Some(i) => Some(i),
            None => if runs.last().run_id@ == id {
                Some(runs.len() - 1)
            } else {
                None
            },
        }
    }
}

/// A session that is in the inventory has a place in it.
pub proof fn lemma_session_at(sessions: Seq<SessionInventory>, id: Seq<char>)
    ensures
        match session_at(sessions, id) {
            Some(i) => 0 <= i < sessions.len() && sessions[i].session_id@ == id,
            None => forall|i: int|
                0 <= i < sessions.len() ==> (#[trigger] sessions[i]).session_id@ != id,
        },
    decreases sessions.len(),
{
    if sessions.len() > 0 {
        lemma_session_at(sessions.drop_last(), id);
        if session_at(sessions, id) is None {
            assert forall|i: int| 0 <= i < sessions.len() implies (
            #[trigger] sessions[i]).session_id@ != id by {
                if i < sessions.len() - 1 {
                    assert(sessions.drop_last()[i] == sessions[i]);
                }
            }
        }
    }
}

/// A run that is in the inventory has a place in it.
pub proof fn lemma_run_at(runs: Seq<RunInventory>, id: Seq<char>)
    ensures
        match run_at(runs, id) {
            Some(i) => 0 <= i < runs.len() && runs[i].run_id@ == id,
            None => forall|i: int| 0 <= i < runs.len() ==> (#[trigger] runs[i]).run_id@ != id,
        },
    decreases runs.len(),
{
    if runs.len() > 0 {
        lemma_run_at(runs.drop_last(), id);
        if run_at(runs, id) is None {
            assert forall|i: int| 0 <= i < runs.len() implies (#[trigger] runs[i]).run_id@
                != id by {
                if i < runs.len() - 1 {
                    assert(runs.drop_last()[i] == runs[i]);
                }
            }
        }
    }
}

/// The place of a session in the inventory.
pub fn find_session(sessions: &Vec<SessionInventory>, id: &Text) -> (r: Option<usize>)
    ensures
        match (r, session_at(sessions@, id@)) {
            (Some(i), Some(expected)) => i == expected && i < sessions@.len(),
            (None, None) => true,
            _ => false,
        },
{
    let mut i: usize = 0;
    while i < sessions.len()
        invariant
            i <= sessions@.len(),
            session_at(sessions@.take(i as int), id@) is None,
        decreases sessions.len() - i,
    {
        assert(sessions@.take(i + 1).drop_last() =~= sessions@.take(i as int));
        if sessions[i].session_id == *id {
            proof {
                lemma_session_stays(sessions@, id@, (i + 1) as nat, sessions@.len());
                assert(sessions@.take(sessions@.len() as int) =~= sessions@);
            }
            return Some(i);
        }
        i += 1;
    }
    assert(sessions@.take(i as int) =~= sessions@);
    None
}

proof fn lemma_session_stays(sessions: Seq<SessionInventory>, id: Seq<char>, n: nat, m: nat)
    requires
        n <= m <= sessions.len(),
        session_at(sessions.take(n as int), id) is Some,
    ensures
        session_at(sessions.take(m as int), id) == session_at(sessions.take(n as int), id),
    decreases m,
{
    if n < m {
        lemma_session_stays(sessions, id, n, (m - 1) as nat);
        assert(sessions.take(m as int).drop_last() =~= sessions.take(m - 1));
    }
}

/// The place of a run in the inventory.
pub fn find_run(runs: &Vec<RunInventory>, id: &Text) -> (r: Option<usize>)
    ensures
        match (r, run_at(runs@, id@)) {
            (Some(i), Some(expected)) => i == expected && i < runs@.len(),
            (None, None) => true,
            _ => false,
        },
{
    let mut i: usize = 0;
    while i < runs.len()
        invariant
            i <= runs@.len(),
            run_at(runs@.take(i as int), id@) is None,
        decreases runs.len() - i,
    {
        assert(runs@.take(i + 1).drop_last() =~= runs@.take(i as int));
        if runs[i].run_id == *id {
            proof {
                lemma_run_stays(runs@, id@, (i + 1) as nat, runs@.len());
                assert(runs@.take(runs@.len() as int) =~= runs@);
            }
            return Some(i);
        }
        i += 1;
    }
    assert(runs@.take(i as int) =~= runs@);
    None
}

proof fn lemma_run_stays(runs: Seq<RunInventory>, id: Seq<char>, n: nat, m: nat)
    requires
        n <= m <= runs.len(),
        run_at(runs.take(n as int), id) is Some,
    ensures
        run_at(runs.take(m as int), id) == run_at(runs.take(n as int), id),
    decreases m,
{
    if n < m {
        lemma_run_stays(runs, id, n, (m - 1) as nat);
        assert(runs.take(m as int).drop_last() =~= runs.take(m - 1));
    }
}

/// The event of a session with the greatest sequence number.
pub open spec fn latest_in(events: Seq<MigratedEvent>, session_id: Seq<char>) -> Option<MigratedEvent>
    decreases events.len(),
{
    if events.len() == 0 {
        None
    } else {
        let before = latest_in(events.drop_last(), session_id);
        let last = events.last();
        if last.session_id@ == session_id && (before matches Some(event) ==> event.event.sequence
            < last.event.sequence) {
            Some(last)
        } else {
            before
        }
    }
}

/// The sequence number that comes next in a session, unless none is left.
pub open spec fn next_sequence(events: Seq<MigratedEvent>, session_id: Seq<char>) -> Option<u64> {
    match latest_in(events, session_id) {
        None => Some(1),
        Some(latest) => if latest.event.sequence == u64::MAX {
            None
        } else {
            Some((latest.event.sequence + 1) as u64)
        },
    }
}

/// The identity of the last event of a session.
pub open spec fn last_identity(events: Seq<MigratedEvent>, session_id: Seq<char>) -> Option<
    EventId,
> {
    match latest_in(events, session_id) {
        None => None,
        Some(latest) => Some(latest.event.id),
    }
}

fn find_latest<'a>(events: &'a Vec<MigratedEvent>, session_id: &Text) -> (r: Option<
    &'a MigratedEvent,
>)
    ensures
        latest_in(events@, session_id@) == (match r {
            Some(event) => Some(*event),
            None => None,
        }),
{
    let mut latest: Option<&'a MigratedEvent> = None;
    let mut i: usize = 0;
    while i < events.len()
        invariant
            i <= events@.len(),
            latest_in(events@.take(i as int), session_id@) == (match latest {
                Some(event) => Some(*event),
                None => None,
            }),
        decreases events.len() - i,
    {
        assert(events@.take(i + 1).drop_last() =~= events@.take(i as int));
        let event = &events[i];
        let later = match latest {
            Some(before) => before.event.sequence < event.event.sequence,
            None => true,
        };
        if event.session_id == *session_id && later {
            latest = Some(event);
        }
        i += 1;
    }
    assert(events@.take(i as int) =~= events@);
    latest
}

/// The sequence number that comes next in a session.
pub fn next_migrated_sequence(events: &Vec<MigratedEvent>, session_id: &Text) -> (r: Result<
    u64,
    StoreError,
>)
    ensures
        r == (match next_sequence(events@, session_id@) {
            Some(sequence) => Ok::<u64, StoreError>(sequence),
            None => Err::<u64, StoreError>(StoreError::SequenceOverflow),
        }),
{
    match find_latest(events, session_id) {
        None => Ok(1),
        Some(latest) => if latest.event.sequence == u64::MAX {
            Err(StoreError::SequenceOverflow)
        } else {
            Ok(latest.event.sequence + 1)
        },
    }
}

/// The identity of the last event of a session.
pub fn last_migrated_event_id(events: &Vec<MigratedEvent>, session_id: &Text) -> (r: Option<
    EventId,
>)
    ensures
        r == last_identity(events@, session_id@),
{
    match find_latest(events, session_id) {
        Some(latest) => Some(latest.event.id),
        None => None,
    }
}

/// Whether a provenance says that a migration wrote an event.
pub open spec fn by_migration(provenance: Provenance) -> bool {
    &&& provenance.producer@ == "birdcode-store-migration/v1-to-v2"@
    &&& provenance.backend is None
    &&& provenance.raw_artifact is None
}

/// The provenance of what a migration writes.
pub fn migration_provenance() -> (r: Provenance)
    ensures
        by_migration(r),
{
    Provenance {
        producer: Text::of("birdcode-store-migration/v1-to-v2"),
        backend: None,
        raw_artifact: None,
    }
}

/// What is found when the creation of a session must stand before an event. `stored` is the session
/// as it is on record.
pub open spec fn session_creation_finding(
    rows: LegacyRows,
    id: Seq<char>,
    stored: Result<Session, StoreError>,
    found: i64,
) -> crate::schema_support::Finding {
    match session_at(rows.sessions, id) {
        None => crate::schema_support::Finding::Refused {
            found,
            detail: "unknown migrated session "@ + id,
        },
        Some(i) => {
            let known = rows.sessions[i];
            if known.creation_seen {
                crate::schema_support::Finding::Fine
            } else if known.creation_count != 0 || known.synthesized {
                crate::schema_support::Finding::Refused {
                    found,
                    detail: "session "@ + id + " has a creation event after a dependent event"@,
                }
            } else {
                match stored {
                    Err(error) => crate::schema_support::Finding::Failed { error },
                    Ok(_) => if next_sequence(rows.events, id) is None {
                        crate::schema_support::Finding::Failed {
                            error: StoreError::SequenceOverflow,
                        }
                    } else {
                        crate::schema_support::Finding::Fine
                    },
                }
            }
        },
    }
}

/// The event that creates a session which no event created.
pub open spec fn session_creation(
    rows: LegacyRows,
    id: Text,
    stored: Session,
    fresh: FreshEvent,
    provenance: Provenance,
) -> MigratedEvent {
    MigratedEvent {
        session_id: id,
        run_id: None,
        event: EventEnvelope {
            id: fresh.id,
            sequence: next_sequence(rows.events, id@)->0,
            session_id: stored.id,
            run_id: None,
            actor_id: fresh.actor_id,
            causal_parent: last_identity(rows.events, id@),
            occurred_at: stored.created_at,
            provenance,
            payload: EventPayload::SessionCreated { session: stored },
        },
    }
}

/// The tables once the creation of a session stands.
pub open spec fn with_session_creation(
    rows: LegacyRows,
    id: Text,
    stored: Result<Session, StoreError>,
    fresh: FreshEvent,
    provenance: Provenance,
) -> LegacyRows {
    let i = session_at(rows.sessions, id@)->0;
    let known = rows.sessions[i];
    if known.creation_seen {
        rows
    } else {
        LegacyRows {
            sessions: rows.sessions.update(
                i,
                SessionInventory { synthesized: true, creation_seen: true, ..known },
            ),
            events: rows.events.push(
                session_creation(rows, id, stored->Ok_0, fresh, provenance),
            ),
            ..rows
        }
    }
}

/// Makes up for the creation of a session that no event created, before the first event that needs
/// it.
pub fn synthesize_session_before_first_dependency(
    tables: LegacyTables,
    id: &Text,
    stored: Result<Session, StoreError>,
    fresh: FreshEvent,
    provenance: &Provenance,
    found: i64,
) -> (r: Result<LegacyTables, SchemaError>)
    ensures
        crate::schema_support::reports(r, session_creation_finding(tables@, id@, stored, found)),
        r matches Ok(after) ==> after@ == with_session_creation(
            tables@,
            *id,
            stored,
            fresh,
            *provenance,
        ),
{
    let ghost before = tables@;
    let ghost given = stored;
    let ghost drawn = fresh;
    let mut tables = tables;
    let i = match find_session(&tables.sessions, id) {
        Some(i) => i,
        None => return Err(incompatible(found, Text::prefixed("unknown migrated session ", id))),
    };
    if tables.sessions[i].creation_seen {
        return Ok(tables);
    }
    if tables.sessions[i].creation_count != 0 || tables.sessions[i].synthesized {
        return Err(
            incompatible(
                found,
                Text::around("session ", id, " has a creation event after a dependent event"),
            ),
        );
    }
    let session = match stored {
        Ok(session) => session,
        Err(error) => return Err(SchemaError::Store(error)),
    };
    let sequence = match next_migrated_sequence(&tables.events, id) {
        Ok(sequence) => sequence,
        Err(error) => return Err(SchemaError::Store(error)),
    };
    let causal_parent = last_migrated_event_id(&tables.events, id);
    let event = EventEnvelope {
        id: fresh.id,
        sequence,
        session_id: session.id,
        run_id: None,
        actor_id: fresh.actor_id,
        causal_parent,
        occurred_at: session.created_at,
        provenance: provenance.clone(),
        payload: EventPayload::SessionCreated { session },
    };
    tables.events.push(MigratedEvent { session_id: id.clone(), run_id: None, event });
    tables.sessions[i].synthesized = true;
    tables.sessions[i].creation_seen = true;
    proof {
        let after = with_session_creation(before, *id, given, drawn, *provenance);
        assert(tables@.sessions =~= after.sessions);
        assert(tables@.events =~= after.events);
    }
    Ok(tables)
}

/// What is found when the creation of a run must stand before an event. `stored` is the run as it is
/// on record, and `artifacts` what came of reading the artifacts of its input.
pub open spec fn run_creation_finding(
    rows: LegacyRows,
    session_id: Seq<char>,
    id: Seq<char>,
    stored: Result<Run, StoreError>,
    artifacts: Result<(), Text>,
    found: i64,
) -> crate::schema_support::Finding {
    match run_at(rows.runs, id) {
        None => crate::schema_support::Finding::Refused {
            found,
            detail: "unknown migrated run "@ + id,
        },
        Some(i) => {
            let known = rows.runs[i];
            if known.session_id@ != session_id {
                crate::schema_support::Finding::Refused {
                    found,
                    detail: "run "@ + id + " belongs to a different session"@,
                }
            } else if known.creation_seen {
                crate::schema_support::Finding::Fine
            } else if known.creation_count != 0 || known.synthesized {
                crate::schema_support::Finding::Refused {
                    found,
                    detail: "run "@ + id + " has a creation event after a dependent event"@,
                }
            } else {
                match stored {
                    Err(error) => crate::schema_support::Finding::Failed { error },
                    Ok(run) => if run.state != RunState::Queued {
                        crate::schema_support::Finding::Refused {
                            found,
                            detail: "run "@ + id
                                + " does not have canonical queued creation state"@,
                        }
                    } else {
                        match artifacts {
                            Err(error) => crate::schema_support::Finding::Refused {
                                found,
                                detail: "run "@ + id + " references an unavailable artifact: "@
                                    + error@,
                            },
                            Ok(()) => if next_sequence(rows.events, session_id) is None {
                                crate::schema_support::Finding::Failed {
                                    error: StoreError::SequenceOverflow,
                                }
                            } else {
                                crate::schema_support::Finding::Fine
                            },
                        }
                    },
                }
            }
        },
    }
}

/// The event that creates a run which no event created.
pub open spec fn run_creation(
    rows: LegacyRows,
    session_id: Text,
    id: Text,
    stored: Run,
    fresh: FreshEvent,
    provenance: Provenance,
) -> MigratedEvent {
    MigratedEvent {
        session_id,
        run_id: Some(id),
        event: EventEnvelope {
            id: fresh.id,
            sequence: next_sequence(rows.events, session_id@)->0,
            session_id: stored.spec.session_id,
            run_id: Some(stored.id),
            actor_id: fresh.actor_id,
            causal_parent: last_identity(rows.events, session_id@),
            occurred_at: stored.created_at,
            provenance,
            payload: EventPayload::RunCreated { run: stored },
        },
    }
}

/// The tables once the creation of a run stands.
pub open spec fn with_run_creation(
    rows: LegacyRows,
    session_id: Text,
    id: Text,
    stored: Result<Run, StoreError>,
    fresh: FreshEvent,
    provenance: Provenance,
) -> LegacyRows {
    let i = run_at(rows.runs, id@)->0;
    let known = rows.runs[i];
    if known.creation_seen {
        rows
    } else {
        LegacyRows {
            runs: rows.runs.update(
                i,
                RunInventory {
                    synthesized: true,
                    creation_seen: true,
                    state_sequence: next_sequence(rows.events, session_id@)->0,
                    ..known
                },
            ),
            events: rows.events.push(
                run_creation(rows, session_id, id, stored->Ok_0, fresh, provenance),
            ),
            ..rows
        }
    }
}

/// Makes up for the creation of a run that no event created, before the first event that needs it.
pub fn synthesize_run_before_first_dependency(
    tables: LegacyTables,
    session_id: &Text,
    id: &Text,
    stored: Result<Run, StoreError>,
    artifacts: Result<(), Text>,
    fresh: FreshEvent,
    provenance: &Provenance,
    found: i64,
) -> (r: Result<LegacyTables, SchemaError>)
    ensures
        crate::schema_support::reports(
            r,
            run_creation_finding(tables@, session_id@, id@, stored, artifacts, found),
        ),
        r matches Ok(after) ==> after@ == with_run_creation(
            tables@,
            *session_id,
            *id,
            stored,
            fresh,
            *provenance,
        ),
{
    let ghost before = tables@;
    let ghost given = stored;
    let ghost drawn = fresh;
    let mut tables = tables;
    let i = match find_run(&tables.runs, id) {
        Some(i) => i,
        None => return Err(incompatible(found, Text::prefixed("unknown migrated run ", id))),
    };
    if tables.runs[i].session_id != *session_id {
        return Err(
            incompatible(found, Text::around("run ", id, " belongs to a different session")),
        );
    }
    if tables.runs[i].creation_seen {
        return Ok(tables);
    }
    if tables.runs[i].creation_count != 0 || tables.runs[i].synthesized {
        return Err(
            incompatible(
                found,
                Text::around("run ", id, " has a creation event after a dependent event"),
            ),
        );
    }
    let run = match stored {
        Ok(run) => run,
        Err(error) => return Err(SchemaError::Store(error)),
    };
    if run.state != RunState::Queued {
        return Err(
            incompatible(
                found,
                Text::around("run ", id, " does not have canonical queued creation state"),
            ),
        );
    }
    match artifacts {
        Ok(()) => {},
        Err(error) => return Err(
            incompatible(
                found,
                Text::around("run ", id, " references an unavailable artifact: ").followed_by(
                    &error,
                ),
            ),
        ),
    }
    let sequence = match next_migrated_sequence(&tables.events, session_id) {
        Ok(sequence) => sequence,
        Err(error) => return Err(SchemaError::Store(error)),
    };
    let causal_parent = last_migrated_event_id(&tables.events, session_id);
    let event = EventEnvelope {
        id: fresh.id,
        sequence,
        session_id: run.spec.session_id,
        run_id: Some(run.id),
        actor_id: fresh.actor_id,
        causal_parent,
        occurred_at: run.created_at,
        provenance: provenance.clone(),
        payload: EventPayload::RunCreated { run },
    };
    tables.events.push(
        MigratedEvent { session_id: session_id.clone(), run_id: Some(id.clone()), event },
    );
    tables.runs[i].synthesized = true;
    tables.runs[i].creation_seen = true;
    tables.runs[i].state_sequence = sequence;
    proof {
        let after = with_run_creation(before, *session_id, *id, given, drawn, *provenance);
        assert(tables@.runs =~= after.runs);
        assert(tables@.events =~= after.events);
    }
    Ok(tables)
}

/// A session of the inventory is found by its name: at the first place that has it, or nowhere.
pub proof fn law_sessions_are_found_by_name(sessions: Seq<SessionInventory>, id: Seq<char>)
    ensures
        match session_at(sessions, id) {
            Some(i) => {
                &&& 0 <= i < sessions.len()
                &&& sessions[i].session_id@ == id
                &&& forall|j: int| 0 <= j < i ==> (#[trigger] sessions[j]).session_id@ != id
            },
            None => forall|j: int| 0 <= j < sessions.len() ==> (#[trigger] sessions[j]).session_id@ != id,
        },
    decreases sessions.len(),
{
    if sessions.len() > 0 {
        let shorter = sessions.drop_last();
        law_sessions_are_found_by_name(shorter, id);
        assert forall|j: int| 0 <= j < shorter.len() implies #[trigger] sessions[j] == shorter[j] by {}
    }
}

/// A run of the inventory is found by its name: at the first place that has it, or nowhere.
pub proof fn law_runs_are_found_by_name(runs: Seq<RunInventory>, id: Seq<char>)
    ensures
        match run_at(runs, id) {
            Some(i) => {
                &&& 0 <= i < runs.len()
                &&& runs[i].run_id@ == id
                &&& forall|j: int| 0 <= j < i ==> (#[trigger] runs[j]).run_id@ != id
            },
            None => forall|j: int| 0 <= j < runs.len() ==> (#[trigger] runs[j]).run_id@ != id,
        },
    decreases runs.len(),
{
    if runs.len() > 0 {
        let shorter = runs.drop_last();
        law_runs_are_found_by_name(shorter, id);
        assert forall|j: int| 0 <= j < shorter.len() implies #[trigger] runs[j] == shorter[j] by {}
    }
}

/// The latest migrated event of a session has the greatest sequence of that session.
pub proof fn law_the_latest_event_is_the_greatest(
    events: Seq<MigratedEvent>,
    session_id: Seq<char>,
    j: int,
)
    requires
        0 <= j < events.len(),
    ensures
        latest_in(events, session_id) matches Some(latest) ==> latest.session_id@ == session_id
            && events.contains(latest),
        events[j].session_id@ == session_id ==> (latest_in(events, session_id) matches Some(latest)
            && events[j].event.sequence <= latest.event.sequence),
    decreases events.len(),
{
    let shorter = events.drop_last();
    assert(events.last() == events[events.len() - 1]);
    if shorter.len() > 0 {
        let k = if j < shorter.len() {
            j
        } else {
            0
        };
        law_the_latest_event_is_the_greatest(shorter, session_id, k);
        assert(shorter[k] == events[k]);
        if let Some(before) = latest_in(shorter, session_id) {
            let p = choose|p: int| 0 <= p < shorter.len() && shorter[p] == before;
            assert(events[p] == before);
        }
    }
}

/// What is added to a session comes after all that it has: its sequence is greater than every other, the
/// first is one, and none is left only where the greatest is taken.
pub proof fn law_new_events_come_last(events: Seq<MigratedEvent>, session_id: Seq<char>, j: int)
    requires
        0 <= j < events.len(),
        events[j].session_id@ == session_id,
    ensures
        next_sequence(events, session_id) matches Some(next) ==> events[j].event.sequence < next,
        next_sequence(events, session_id) is None ==> (latest_in(
            events,
            session_id,
        ) matches Some(latest) && latest.event.sequence == u64::MAX),
{
    law_the_latest_event_is_the_greatest(events, session_id, j);
}

/// A session is created once and before anything that depends on it: where its creation was not seen
/// yet, the stored session is brought in as a new event after all that it has, and from then on it is
/// seen.
pub proof fn law_sessions_are_created_once(
    rows: LegacyRows,
    id: Text,
    stored: Result<Session, StoreError>,
    fresh: FreshEvent,
    provenance: Provenance,
    found: i64,
)
    requires
        session_creation_finding(rows, id@, stored, found) is Fine,
    ensures
        ({
            let i = session_at(rows.sessions, id@)->0;
            let after = with_session_creation(rows, id, stored, fresh, provenance);
            &&& 0 <= i < rows.sessions.len()
            &&& rows.sessions[i].session_id@ == id@
            &&& after.sessions.len() == rows.sessions.len()
            &&& after.sessions[i].creation_seen
            &&& after.runs == rows.runs
            &&& rows.sessions[i].creation_seen ==> after == rows
            &&& !rows.sessions[i].creation_seen ==> {
                &&& rows.sessions[i].creation_count == 0
                &&& !rows.sessions[i].synthesized
                &&& after.events.len() == rows.events.len() + 1
                &&& stored matches Ok(session) && (
                after.events.last().event.payload matches EventPayload::SessionCreated {
                    session: created,
                } && created == session && after.events.last().event.session_id == session.id
                    && after.events.last().event.occurred_at == session.created_at)
                &&& after.events.last().session_id@ == id@
                &&& after.events.last().event.run_id is None
                &&& after.events.last().event.id == fresh.id
                &&& after.events.last().event.causal_parent == last_identity(rows.events, id@)
                &&& next_sequence(rows.events, id@) == Some(after.events.last().event.sequence)
            }
        }),
{
    law_sessions_are_found_by_name(rows.sessions, id@);
}

/// A run is created once, queued, in its own session and before anything that depends on it: where its
/// creation was not seen yet, the stored run is brought in as a new event after all that its session
/// has.
pub proof fn law_runs_are_created_once(
    rows: LegacyRows,
    session_id: Text,
    id: Text,
    stored: Result<Run, StoreError>,
    artifacts: Result<(), Text>,
    fresh: FreshEvent,
    provenance: Provenance,
    found: i64,
)
    requires
        run_creation_finding(rows, session_id@, id@, stored, artifacts, found) is Fine,
    ensures
        ({
            let i = run_at(rows.runs, id@)->0;
            let after = with_run_creation(rows, session_id, id, stored, fresh, provenance);
            &&& 0 <= i < rows.runs.len()
            &&& rows.runs[i].run_id@ == id@
            &&& rows.runs[i].session_id@ == session_id@
            &&& after.runs.len() == rows.runs.len()
            &&& after.runs[i].creation_seen
            &&& after.sessions == rows.sessions
            &&& rows.runs[i].creation_seen ==> after == rows
            &&& !rows.runs[i].creation_seen ==> {
                &&& rows.runs[i].creation_count == 0
                &&& !rows.runs[i].synthesized
                &&& artifacts is Ok
                &&& after.events.len() == rows.events.len() + 1
                &&& stored matches Ok(run) && run.state == RunState::Queued && (
                after.events.last().event.payload matches EventPayload::RunCreated { run: created }
                    && created == run && after.events.last().event.run_id == Some(run.id)
                    && after.events.last().event.session_id == run.spec.session_id)
                &&& after.events.last().session_id@ == session_id@
                &&& after.runs[i].state_sequence == after.events.last().event.sequence
                &&& next_sequence(rows.events, session_id@) == Some(
                    after.events.last().event.sequence,
                )
            }
        }),
{
    law_runs_are_found_by_name(rows.runs, id@);
}

} // verus!

//! The batches in which a migration writes events and makes up for creations.

use vstd::prelude::*;
use crate::artifact::Provenance;
use crate::error::StoreError;
use crate::event::{EventEnvelope, EventPayload};
use crate::legacy_emit::{emit_staged_event, EmittedRow};
use crate::legacy_inventory::{
    migration_provenance, synthesize_run_before_first_dependency,
    synthesize_session_before_first_dependency, FreshEvent, LegacyRows, LegacyTables,
    MigratedEvent, RunInventory, SessionInventory,
};
use crate::run::{Run, Session};
use crate::schema_support::{incompatible, Finding, SchemaError};
use crate::text::Text;

verus! {

/// The phases of a migration, in order.
#[derive(Clone, Copy, Debug, PartialEq, Eq, Structural)]
pub enum LegacyPhase {
    CopySessions,
    CopyRuns,
    ScanEvents,
    EmitEvents,
    SynthesizeSessions,
    SynthesizeRuns,
    Validate,
    Finalize,
}

/// What becomes of the progress of a migration after a batch.
#[derive(Debug)]
pub enum PhaseOutcome {
    /// The phase is done: the next one begins, at the start.
    Next(LegacyPhase),
    /// The batch went up to a row.
    Row { rowid: i64, processed: u64 },
    /// The batch went up to an event.
    Event { session_id: Text, sequence: u64, processed: u64 },
    /// There may be more to do; nothing is to be remembered.
    Again,
}

/// The tables after the first `n` events of a batch.
pub open spec fn emitted_all(
    rows: LegacyRows,
    batch: Seq<EmittedRow>,
    provenance: Provenance,
    n: nat,
) -> LegacyRows
    decreases n,
{
    if n == 0 {
        rows
    } else {
        crate::legacy_emit::emitted(
            emitted_all(rows, batch, provenance, (n - 1) as nat),
            batch[n - 1],
            provenance,
        )
    }
}

/// What is found of the first `n` events of a batch.
pub open spec fn emit_all_finding(
    rows: LegacyRows,
    batch: Seq<EmittedRow>,
    provenance: Provenance,
    found: i64,
    n: nat,
) -> Finding
    decreases n,
{
    if n == 0 {
        Finding::Fine
    } else {
        crate::schema_support::also(
            emit_all_finding(rows, batch, provenance, found, (n - 1) as nat),
            crate::legacy_emit::emit_finding(
                emitted_all(rows, batch, provenance, (n - 1) as nat),
                batch[n - 1],
                provenance,
                found,
            ),
        )
    }
}

proof fn lemma_emit_failure_stays(
    rows: LegacyRows,
    batch: Seq<EmittedRow>,
    provenance: Provenance,
    found: i64,
    n: nat,
    m: nat,
)
    requires
        n <= m,
        !(emit_all_finding(rows, batch, provenance, found, n) is Fine),
    ensures
        emit_all_finding(rows, batch, provenance, found, m) == emit_all_finding(
            rows,
            batch,
            provenance,
            found,
            n,
        ),
    decreases m,
{
    if n < m {
        lemma_emit_failure_stays(rows, batch, provenance, found, n, (m - 1) as nat);
    }
}

/// Where the writing of events stands after a batch.
pub open spec fn is_emit_outcome(batch: Seq<EmittedRow>, outcome: PhaseOutcome) -> bool {
    if batch.len() == 0 {
        outcome == PhaseOutcome::Next(LegacyPhase::SynthesizeSessions)
    } else {
        outcome == (PhaseOutcome::Event {
            session_id: batch.last().staged.session_id,
            sequence: batch.last().staged.source_sequence,
            processed: batch.len() as u64,
        })
    }
}

/// Whether a result is what a batch of events comes to.
pub open spec fn is_emitted(
    rows: LegacyRows,
    batch: Seq<EmittedRow>,
    provenance: Provenance,
    found: i64,
    result: Result<(LegacyTables, PhaseOutcome), SchemaError>,
) -> bool {
    &&& crate::schema_support::reports(
        result,
        emit_all_finding(rows, batch, provenance, found, batch.len()),
    )
    &&& result matches Ok((after, outcome)) ==> {
        &&& after@ == emitted_all(rows, batch, provenance, batch.len())
        &&& is_emit_outcome(batch, outcome)
    }
}

/// Writes a batch of staged events: in their order, each with the creations that it needs before it.
/// Without events, the writing of events is done.
pub fn emit_legacy_event_batch(tables: LegacyTables, rows: Vec<EmittedRow>, found: i64) -> (r: Result<
    (LegacyTables, PhaseOutcome),
    SchemaError,
>)
    ensures
        exists|provenance: Provenance|
            crate::legacy_inventory::by_migration(provenance) && #[trigger] is_emitted(
                tables@,
                rows@,
                provenance,
                found,
                r,
            ),
{
    let provenance = migration_provenance();
    let ghost before = tables@;
    let ghost batch = rows@;
    let processed: u64 = rows.len() as u64;
    if rows.len() == 0 {
        let done = Ok((tables, PhaseOutcome::Next(LegacyPhase::SynthesizeSessions)));
        assert(is_emitted(before, batch, provenance, found, done));
        return done;
    }
    let last = rows.len() - 1;
    let session_id = rows[last].staged.session_id.clone();
    let sequence = rows[last].staged.source_sequence;
    let mut filled = tables;
    let mut left = rows;
    let ghost mut n: nat = 0;
    assert(batch.skip(0) =~= batch);
    while left.len() > 0
        invariant
            before == tables@,
            batch == rows@,
            n <= batch.len(),
            left@ == batch.skip(n as int),
            filled@ == emitted_all(before, batch, provenance, n),
            emit_all_finding(before, batch, provenance, found, n) is Fine,
            crate::legacy_inventory::by_migration(provenance),
        decreases left.len(),
    {
        let row = left.remove(0);
        assert(row == batch[n as int]);
        assert(left@ =~= batch.skip(n as int + 1));
        filled = match emit_staged_event(filled, row, &provenance, found) {
            Ok(filled) => filled,
            Err(error) => {
                let failed: Result<(LegacyTables, PhaseOutcome), SchemaError> = Err(error);
                proof {
                    lemma_emit_failure_stays(
                        before,
                        batch,
                        provenance,
                        found,
                        n + 1,
                        batch.len(),
                    );
                }
                assert(is_emitted(before, batch, provenance, found, failed));
                return failed;
            },
        };
        proof {
            n = n + 1;
        }
    }
    let done = Ok((filled, PhaseOutcome::Event { session_id, sequence, processed }));
    assert(is_emitted(before, batch, provenance, found, done));
    done
}

/// A session that no event creates: the session as it is on record, and an event for its creation.
#[derive(Debug)]
pub struct OrphanSession {
    pub session_id: Text,
    pub session: Result<Session, StoreError>,
    pub fresh: FreshEvent,
}

/// The tables after the first `n` sessions of a batch.
pub open spec fn sessions_made(
    rows: LegacyRows,
    batch: Seq<OrphanSession>,
    provenance: Provenance,
    n: nat,
) -> LegacyRows
    decreases n,
{
    if n == 0 {
        rows
    } else {
        crate::legacy_inventory::with_session_creation(
            sessions_made(rows, batch, provenance, (n - 1) as nat),
            batch[n - 1].session_id,
            batch[n - 1].session,
            batch[n - 1].fresh,
            provenance,
        )
    }
}

/// What is found of the first `n` sessions of a batch.
pub open spec fn sessions_finding(
    rows: LegacyRows,
    batch: Seq<OrphanSession>,
    provenance: Provenance,
    found: i64,
    n: nat,
) -> Finding
    decreases n,
{
    if n == 0 {
        Finding::Fine
    } else {
        crate::schema_support::also(
            sessions_finding(rows, batch, provenance, found, (n - 1) as nat),
            crate::legacy_inventory::session_creation_finding(
                sessions_made(rows, batch, provenance, (n - 1) as nat),
                batch[n - 1].session_id@,
                batch[n - 1].session,
                found,
            ),
        )
    }
}

proof fn lemma_session_failure_stays(
    rows: LegacyRows,
    batch: Seq<OrphanSession>,
    provenance: Provenance,
    found: i64,
    n: nat,
    m: nat,
)
    requires
        n <= m,
        !(sessions_finding(rows, batch, provenance, found, n) is Fine),
    ensures
        sessions_finding(rows, batch, provenance, found, m) == sessions_finding(
            rows,
            batch,
            provenance,
            found,
            n,
        ),
    decreases m,
{
    if n < m {
        lemma_session_failure_stays(rows, batch, provenance, found, n, (m - 1) as nat);
    }
}

/// Whether a result is what a batch of sessions comes to.
pub open spec fn are_sessions_made(
    rows: LegacyRows,
    batch: Seq<OrphanSession>,
    provenance: Provenance,
    found: i64,
    result: Result<(LegacyTables, PhaseOutcome), SchemaError>,
) -> bool {
    &&& crate::schema_support::reports(
        result,
        sessions_finding(rows, batch, provenance, found, batch.len()),
    )
    &&& result matches Ok((after, outcome)) ==> {
        &&& after@ == sessions_made(rows, batch, provenance, batch.len())
        &&& outcome == (if batch.len() == 0 {
            PhaseOutcome::Next(LegacyPhase::SynthesizeRuns)
        } else {
            PhaseOutcome::Again
        })
    }
}

/// Makes up for the creations of a batch of sessions that nothing depends on. Without sessions, this
/// is done.
pub fn synthesize_orphan_session_batch(
    tables: LegacyTables,
    rows: Vec<OrphanSession>,
    found: i64,
) -> (r: Result<(LegacyTables, PhaseOutcome), SchemaError>)
    ensures
        exists|provenance: Provenance|
            crate::legacy_inventory::by_migration(provenance) && #[trigger] are_sessions_made(
                tables@,
                rows@,
                provenance,
                found,
                r,
            ),
{
    let provenance = migration_provenance();
    let ghost before = tables@;
    let ghost batch = rows@;
    let outcome = if rows.len() == 0 {
        PhaseOutcome::Next(LegacyPhase::SynthesizeRuns)
    } else {
        PhaseOutcome::Again
    };
    let mut filled = tables;
    let mut left = rows;
    let ghost mut n: nat = 0;
    assert(batch.skip(0) =~= batch);
    while left.len() > 0
        invariant
            before == tables@,
            batch == rows@,
            n <= batch.len(),
            left@ == batch.skip(n as int),
            filled@ == sessions_made(before, batch, provenance, n),
            sessions_finding(before, batch, provenance, found, n) is Fine,
            crate::legacy_inventory::by_migration(provenance),
        decreases left.len(),
    {
        let row = left.remove(0);
        assert(row == batch[n as int]);
        assert(left@ =~= batch.skip(n as int + 1));
        filled = match synthesize_session_before_first_dependency(
            filled,
            &row.session_id,
            row.session,
            row.fresh,
            &provenance,
            found,
        ) {
            Ok(filled) => filled,
            Err(error) => {
                let failed: Result<(LegacyTables, PhaseOutcome), SchemaError> = Err(error);
                proof {
                    lemma_session_failure_stays(
                        before,
                        batch,
                        provenance,
                        found,
                        n + 1,
                        batch.len(),
                    );
                }
                assert(are_sessions_made(before, batch, provenance, found, failed));
                return failed;
            },
        };
        proof {
            n = n + 1;
        }
    }
    let done = Ok((filled, outcome));
    assert(are_sessions_made(before, batch, provenance, found, done));
    done
}

/// A run that no event creates: the run as it is on record, what came of reading the artifacts of its
/// input, and an event for its creation.
#[derive(Debug)]
pub struct OrphanRun {
    pub session_id: Text,
    pub run_id: Text,
    pub run: Result<Run, StoreError>,
    pub artifacts: Result<(), Text>,
    pub fresh: FreshEvent,
}

/// The tables after the first `n` runs of a batch.
pub open spec fn runs_made(
    rows: LegacyRows,
    batch: Seq<OrphanRun>,
    provenance: Provenance,
    n: nat,
) -> LegacyRows
    decreases n,
{
    if n == 0 {
        rows
    } else {
        crate::legacy_inventory::with_run_creation(
            runs_made(rows, batch, provenance, (n - 1) as nat),
            batch[n - 1].session_id,
            batch[n - 1].run_id,
            batch[n - 1].run,
            batch[n - 1].fresh,
            provenance,
        )
    }
}

/// What is found of the first `n` runs of a batch.
pub open spec fn runs_finding(
    rows: LegacyRows,
    batch: Seq<OrphanRun>,
    provenance: Provenance,
    found: i64,
    n: nat,
) -> Finding
    decreases n,
{
    if n == 0 {
        Finding::Fine
    } else {
        crate::schema_support::also(
            runs_finding(rows, batch, provenance, found, (n - 1) as nat),
            crate::legacy_inventory::run_creation_finding(
                runs_made(rows, batch, provenance, (n - 1) as nat),
                batch[n - 1].session_id@,
                batch[n - 1].run_id@,
                batch[n - 1].run,
                batch[n - 1].artifacts,
                found,
            ),
        )
    }
}

proof fn lemma_run_failure_stays(
    rows: LegacyRows,
    batch: Seq<OrphanRun>,
    provenance: Provenance,
    found: i64,
    n: nat,
    m: nat,
)
    requires
        n <= m,
        !(runs_finding(rows, batch, provenance, found, n) is Fine),
    ensures
        runs_finding(rows, batch, provenance, found, m) == runs_finding(
            rows,
            batch,
            provenance,
            found,
            n,
        ),
    decreases m,
{
    if n < m {
        lemma_run_failure_stays(rows, batch, provenance, found, n, (m - 1) as nat);
    }
}

/// Whether a result is what a batch of runs comes to.
pub open spec fn are_runs_made(
    rows: LegacyRows,
    batch: Seq<OrphanRun>,
    provenance: Provenance,
    found: i64,
    result: Result<(LegacyTables, PhaseOutcome), SchemaError>,
) -> bool {
    &&& crate::schema_support::reports(
        result,
        runs_finding(rows, batch, provenance, found, batch.len()),
    )
    &&& result matches Ok((after, outcome)) ==> {
        &&& after@ == runs_made(rows, batch, provenance, batch.len())
        &&& outcome == (if batch.len() == 0 {
            PhaseOutcome::Next(LegacyPhase::Validate)
        } else {
            PhaseOutcome::Again
        })
    }
}

/// Makes up for the creations of a batch of runs that nothing depends on. Without runs, this is done.
pub fn synthesize_orphan_run_batch(tables: LegacyTables, rows: Vec<OrphanRun>, found: i64) -> (r:
    Result<(LegacyTables, PhaseOutcome), SchemaError>)
    ensures
        exists|provenance: Provenance|
            crate::legacy_inventory::by_migration(provenance) && #[trigger] are_runs_made(
                tables@,
                rows@,
                provenance,
                found,
                r,
            ),
{
    let provenance = migration_provenance();
    let ghost before = tables@;
    let ghost batch = rows@;
    let outcome = if rows.len() == 0 {
        PhaseOutcome::Next(LegacyPhase::Validate)
    } else {
        PhaseOutcome::Again
    };
    let mut filled = tables;
    let mut left = rows;
    let ghost mut n: nat = 0;
    assert(batch.skip(0) =~= batch);
    while left.len() > 0
        invariant
            before == tables@,
            batch == rows@,
            n <= batch.len(),
            left@ == batch.skip(n as int),
            filled@ == runs_made(before, batch, provenance, n),
            runs_finding(before, batch, provenance, found, n) is Fine,
            crate::legacy_inventory::by_migration(provenance),
        decreases left.len(),
    {
        let row = left.remove(0);
        assert(row == batch[n as int]);
        assert(left@ =~= batch.skip(n as int + 1));
        filled = match synthesize_run_before_first_dependency(
            filled,
            &row.session_id,
            &row.run_id,
            row.run,
            row.artifacts,
            row.fresh,
            &provenance,
            found,
        ) {
            Ok(filled) => filled,
            Err(error) => {
                let failed: Result<(LegacyTables, PhaseOutcome), SchemaError> = Err(error);
                proof {
                    lemma_run_failure_stays(
                        before,
                        batch,
                        provenance,
                        found,
                        n + 1,
                        batch.len(),
                    );
                }
                assert(are_runs_made(before, batch, provenance, found, failed));
                return failed;
            },
        };
        proof {
            n = n + 1;
        }
    }
    let done = Ok((filled, outcome));
    assert(are_runs_made(before, batch, provenance, found, done));
    done
}

/// Whether an entity was created exactly once, by an event or by the migration.
pub open spec fn created_once(creation_count: u64, synthesized: bool, creation_seen: bool) -> bool {
    &&& creation_count + (if synthesized {
        1int
    } else {
        0int
    }) == 1
    &&& creation_seen
}

/// What a count of creations is said to be.
pub open spec fn creation_report(
    entity: Seq<char>,
    id: Seq<char>,
    creation_count: u64,
    synthesized: bool,
    creation_seen: bool,
) -> Seq<char> {
    entity + id + " has "@ + crate::text::digits(creation_count as nat) + " source and "@
        + crate::text::digits(
        if synthesized {
            1
        } else {
            0
        },
    ) + " synthesized creation events; creation_seen="@ + crate::text::digits(
        if creation_seen {
            1
        } else {
            0
        },
    )
}

fn report_creation(
    entity: &str,
    id: &Text,
    creation_count: u64,
    synthesized: bool,
    creation_seen: bool,
) -> (r: Text)
    ensures
        r@ == creation_report(entity@, id@, creation_count, synthesized, creation_seen),
{
    let made: u64 = if synthesized {
        1
    } else {
        0
    };
    let seen: u64 = if creation_seen {
        1
    } else {
        0
    };
    Text::around(entity, id, " has ").followed_by(&Text::natural(creation_count)).followed_by(
        &Text::of(" source and "),
    ).followed_by(&Text::natural(made)).followed_by(
        &Text::of(" synthesized creation events; creation_seen="),
    ).followed_by(&Text::natural(seen))
}

/// What is found of the first `n` sessions of the inventory.
pub open spec fn session_inventory_finding(
    sessions: Seq<SessionInventory>,
    found: i64,
    n: nat,
) -> Finding
    decreases n,
{
    if n == 0 {
        Finding::Fine
    } else {
        let known = sessions[n - 1];
        crate::schema_support::also(
            session_inventory_finding(sessions, found, (n - 1) as nat),
            crate::schema_support::expect(
                created_once(known.creation_count, known.synthesized, known.creation_seen),
                found,
                creation_report(
                    "session "@,
                    known.session_id@,
                    known.creation_count,
                    known.synthesized,
                    known.creation_seen,
                ),
            ),
        )
    }
}

/// What is found of the first `n` runs of the inventory.
pub open spec fn run_inventory_finding(runs: Seq<RunInventory>, found: i64, n: nat) -> Finding
    decreases n,
{
    if n == 0 {
        Finding::Fine
    } else {
        let known = runs[n - 1];
        crate::schema_support::also(
            run_inventory_finding(runs, found, (n - 1) as nat),
            crate::schema_support::expect(
                created_once(known.creation_count, known.synthesized, known.creation_seen),
                found,
                creation_report(
                    "run "@,
                    known.run_id@,
                    known.creation_count,
                    known.synthesized,
                    known.creation_seen,
                ),
            ),
        )
    }
}

/// What is found of the inventory of a migration.
pub open spec fn inventory_finding(rows: LegacyRows, found: i64) -> Finding {
    crate::schema_support::also(
        session_inventory_finding(rows.sessions, found, rows.sessions.len()),
        run_inventory_finding(rows.runs, found, rows.runs.len()),
    )
}

proof fn lemma_session_inventory_stays(
    sessions: Seq<SessionInventory>,
    found: i64,
    n: nat,
    m: nat,
)
    requires
        n <= m,
        !(session_inventory_finding(sessions, found, n) is Fine),
    ensures
        session_inventory_finding(sessions, found, m) == session_inventory_finding(
            sessions,
            found,
            n,
        ),
    decreases m,
{
    if n < m {
        lemma_session_inventory_stays(sessions, found, n, (m - 1) as nat);
    }
}

proof fn lemma_run_inventory_stays(runs: Seq<RunInventory>, found: i64, n: nat, m: nat)
    requires
        n <= m,
        !(run_inventory_finding(runs, found, n) is Fine),
    ensures
        run_inventory_finding(runs, found, m) == run_inventory_finding(runs, found, n),
    decreases m,
{
    if n < m {
        lemma_run_inventory_stays(runs, found, n, (m - 1) as nat);
    }
}

fn is_created_once(creation_count: u64, synthesized: bool, creation_seen: bool) -> (r: bool)
    ensures
        r == created_once(creation_count, synthesized, creation_seen),
{
    creation_seen && (if synthesized {
        creation_count == 0
    } else {
        creation_count == 1
    })
}

/// Checks that every session and every run of a migration was created exactly once.
pub fn validate_legacy_migration_inventory(tables: &LegacyTables, found: i64) -> (r: Result<
    (),
    SchemaError,
>)
    ensures
        crate::schema_support::reports(r, inventory_finding(tables@, found)),
{
    let sessions = &tables.sessions;
    let mut i: usize = 0;
    while i < sessions.len()
        invariant
            i <= sessions@.len(),
            sessions@ == tables@.sessions,
            session_inventory_finding(sessions@, found, i as nat) is Fine,
        decreases sessions.len() - i,
    {
        let known = &sessions[i];
        if !is_created_once(known.creation_count, known.synthesized, known.creation_seen) {
            proof {
                lemma_session_inventory_stays(
                    sessions@,
                    found,
                    (i + 1) as nat,
                    sessions@.len(),
                );
            }
            return Err(
                incompatible(
                    found,
                    report_creation(
                        "session ",
                        &known.session_id,
                        known.creation_count,
                        known.synthesized,
                        known.creation_seen,
                    ),
                ),
            );
        }
        i += 1;
    }
    let runs = &tables.runs;
    let mut j: usize = 0;
    while j < runs.len()
        invariant
            j <= runs@.len(),
            runs@ == tables@.runs,
            session_inventory_finding(
                tables@.sessions,
                found,
                tables@.sessions.len(),
            ) is Fine,
            run_inventory_finding(runs@, found, j as nat) is Fine,
        decreases runs.len() - j,
    {
        let known = &runs[j];
        if !is_created_once(known.creation_count, known.synthesized, known.creation_seen) {
            proof {
                lemma_run_inventory_stays(runs@, found, (j + 1) as nat, runs@.len());
            }
            return Err(
                incompatible(
                    found,
                    report_creation(
                        "run ",
                        &known.run_id,
                        known.creation_count,
                        known.synthesized,
                        known.creation_seen,
                    ),
                ),
            );
        }
        j += 1;
    }
    Ok(())
}

proof fn lemma_sessions_created_once(
    sessions: Seq<SessionInventory>,
    found: i64,
    n: nat,
    i: int,
)
    requires
        session_inventory_finding(sessions, found, n) is Fine,
        0 <= i < n,
    ensures
        created_once(
            sessions[i].creation_count,
            sessions[i].synthesized,
            sessions[i].creation_seen,
        ),
    decreases n,
{
    if i < n - 1 {
        lemma_sessions_created_once(sessions, found, (n - 1) as nat, i);
    }
}

proof fn lemma_runs_created_once(runs: Seq<RunInventory>, found: i64, n: nat, i: int)
    requires
        run_inventory_finding(runs, found, n) is Fine,
        0 <= i < n,
    ensures
        created_once(runs[i].creation_count, runs[i].synthesized, runs[i].creation_seen),
    decreases n,
{
    if i < n - 1 {
        lemma_runs_created_once(runs, found, (n - 1) as nat, i);
    }
}

/// In a migration that passes its check, every session and every run was created exactly once: by an
/// event of its own, or by one that the migration made up.
pub proof fn law_everything_is_created_once(rows: LegacyRows, found: i64)
    requires
        inventory_finding(rows, found) is Fine,
    ensures
        forall|i: int|
            0 <= i < rows.sessions.len() ==> {
                let known = #[trigger] rows.sessions[i];
                created_once(known.creation_count, known.synthesized, known.creation_seen)
            },
        forall|i: int|
            0 <= i < rows.runs.len() ==> {
                let known = #[trigger] rows.runs[i];
                created_once(known.creation_count, known.synthesized, known.creation_seen)
            },
{
    assert forall|i: int| 0 <= i < rows.sessions.len() implies {
        let known = #[trigger] rows.sessions[i];
        created_once(known.creation_count, known.synthesized, known.creation_seen)
    } by {
        lemma_sessions_created_once(rows.sessions, found, rows.sessions.len(), i);
    }
    assert forall|i: int| 0 <= i < rows.runs.len() implies {
        let known = #[trigger] rows.runs[i];
        created_once(known.creation_count, known.synthesized, known.creation_seen)
    } by {
        lemma_runs_created_once(rows.runs, found, rows.runs.len(), i);
    }
}

/// Whether the events of each session are in the order of their sequence numbers.
pub open spec fn in_sequence(events: Seq<MigratedEvent>) -> bool {
    forall|i: int, j: int|
        0 <= i < j < events.len() && events[i].session_id@ == events[j].session_id@ ==> (
        #[trigger] events[i]).event.sequence < (#[trigger] events[j]).event.sequence
}

proof fn lemma_latest_is_greatest(events: Seq<MigratedEvent>, session_id: Seq<char>, i: int)
    requires
        0 <= i < events.len(),
        events[i].session_id@ == session_id,
    ensures
        crate::legacy_inventory::latest_in(events, session_id) matches Some(latest)
            && events[i].event.sequence <= latest.event.sequence,
    decreases events.len(),
{
    if i < events.len() - 1 {
        assert(events.drop_last()[i] == events[i]);
        lemma_latest_is_greatest(events.drop_last(), session_id, i);
    }
}

proof fn lemma_push_in_sequence(events: Seq<MigratedEvent>, event: MigratedEvent)
    requires
        in_sequence(events),
        crate::legacy_inventory::next_sequence(events, event.session_id@) == Some(
            event.event.sequence,
        ),
    ensures
        in_sequence(events.push(event)),
{
    let all = events.push(event);
    assert forall|i: int, j: int|
        0 <= i < j < all.len() && all[i].session_id@ == all[j].session_id@ implies (
    #[trigger] all[i]).event.sequence < (#[trigger] all[j]).event.sequence by {
        if j == events.len() {
            lemma_latest_is_greatest(events, event.session_id@, i);
        }
    }
}

/// A migration writes the events of each session in the order of their new sequence numbers, and
/// never changes what it wrote.
pub proof fn law_emitted_events_stay_in_sequence(
    rows: LegacyRows,
    row: EmittedRow,
    provenance: Provenance,
    found: i64,
)
    requires
        in_sequence(rows.events),
        crate::legacy_emit::emit_finding(rows, row, provenance, found) is Fine,
    ensures
        in_sequence(crate::legacy_emit::emitted(rows, row, provenance).events),
        rows.events.is_prefix_of(crate::legacy_emit::emitted(rows, row, provenance).events),
{
    let one = crate::legacy_emit::after_session(rows, row, provenance);
    if one.events != rows.events {
        lemma_push_in_sequence(rows.events, one.events.last());
    }
    let two = crate::legacy_emit::after_creations(rows, row, provenance);
    if two.events != one.events {
        lemma_push_in_sequence(one.events, two.events.last());
    }
    let all = crate::legacy_emit::emitted(rows, row, provenance);
    lemma_push_in_sequence(two.events, all.events.last());
}

/// An event that is written again stands after its causal parent, in the same session.
pub proof fn law_parents_come_first(
    rows: LegacyRows,
    row: EmittedRow,
    provenance: Provenance,
    found: i64,
)
    requires
        crate::legacy_emit::emit_finding(rows, row, provenance, found) is Fine,
    ensures
        ({
            let events = crate::legacy_emit::emitted(rows, row, provenance).events;
            let written = events.last().event;
            &&& written.causal_parent == row.staged.event.causal_parent
            &&& written.causal_parent matches Some(parent)
                ==> crate::legacy_emit::written_before(
                events.drop_last(),
                row.staged.session_id@,
                parent,
                written.sequence,
            )
        }),
{
    let events = crate::legacy_emit::emitted(rows, row, provenance).events;
    let ready = crate::legacy_emit::after_creations(rows, row, provenance).events;
    assert(events.drop_last() =~= ready);
}

/// Whether a written event is the staged one, but for its sequence number.
pub open spec fn is_written(written: MigratedEvent, row: EmittedRow) -> bool {
    &&& written.session_id == row.staged.session_id
    &&& written.run_id == row.staged.run_id
    &&& written.event == (EventEnvelope {
        sequence: written.event.sequence,
        ..row.staged.event
    })
}

/// Where the event `i` of a batch is written.
pub open spec fn place_of(
    rows: LegacyRows,
    batch: Seq<EmittedRow>,
    provenance: Provenance,
    i: int,
) -> int {
    emitted_all(rows, batch, provenance, (i + 1) as nat).events.len() - 1
}

/// The parts of a batch that passes its check pass it too, and only add to what is written.
proof fn lemma_batch_only_adds(
    rows: LegacyRows,
    batch: Seq<EmittedRow>,
    provenance: Provenance,
    found: i64,
    m: nat,
    n: nat,
)
    requires
        m <= n,
        in_sequence(rows.events),
        emit_all_finding(rows, batch, provenance, found, n) is Fine,
    ensures
        emit_all_finding(rows, batch, provenance, found, m) is Fine,
        in_sequence(emitted_all(rows, batch, provenance, n).events),
        emitted_all(rows, batch, provenance, m).events.is_prefix_of(
            emitted_all(rows, batch, provenance, n).events,
        ),
        m < n ==> emitted_all(rows, batch, provenance, m).events.len() < emitted_all(
            rows,
            batch,
            provenance,
            n,
        ).events.len(),
    decreases n,
{
    if n > 0 {
        let p = (n - 1) as nat;
        let earlier = emitted_all(rows, batch, provenance, p);
        if m < n {
            lemma_batch_only_adds(rows, batch, provenance, found, m, p);
        } else {
            lemma_batch_only_adds(rows, batch, provenance, found, p, p);
        }
        law_emitted_events_stay_in_sequence(earlier, batch[n - 1], provenance, found);
    }
}

/// A batch loses no event and keeps their order: every event of a batch that passes its check is
/// written, unchanged but for its sequence number, after what was written before and in the order of
/// the batch.
pub proof fn law_batches_keep_every_event(
    rows: LegacyRows,
    batch: Seq<EmittedRow>,
    provenance: Provenance,
    found: i64,
)
    requires
        in_sequence(rows.events),
        emit_all_finding(rows, batch, provenance, found, batch.len()) is Fine,
    ensures
        ({
            let written = emitted_all(rows, batch, provenance, batch.len()).events;
            &&& rows.events.is_prefix_of(written)
            &&& in_sequence(written)
            &&& forall|i: int|
                0 <= i < batch.len() ==> {
                    let k = #[trigger] place_of(rows, batch, provenance, i);
                    &&& rows.events.len() <= k < written.len()
                    &&& is_written(written[k], batch[i])
                }
            &&& forall|i: int, j: int|
                0 <= i < j < batch.len() ==> #[trigger] place_of(rows, batch, provenance, i)
                    < #[trigger] place_of(rows, batch, provenance, j)
        }),
{
    let written = emitted_all(rows, batch, provenance, batch.len()).events;
    lemma_batch_only_adds(rows, batch, provenance, found, 0, batch.len());
    assert forall|i: int| 0 <= i < batch.len() implies {
        let k = #[trigger] place_of(rows, batch, provenance, i);
        &&& rows.events.len() <= k < written.len()
        &&& is_written(written[k], batch[i])
    } by {
        let n = (i + 1) as nat;
        lemma_batch_only_adds(rows, batch, provenance, found, n, batch.len());
        lemma_batch_only_adds(rows, batch, provenance, found, 0, n);
        let then = emitted_all(rows, batch, provenance, n).events;
        assert(then.last() == written[then.len() - 1]);
    }
    assert forall|i: int, j: int| 0 <= i < j < batch.len() implies #[trigger] place_of(
        rows,
        batch,
        provenance,
        i,
    ) < #[trigger] place_of(rows, batch, provenance, j) by {
        lemma_batch_only_adds(rows, batch, provenance, found, (j + 1) as nat, batch.len());
        lemma_batch_only_adds(rows, batch, provenance, found, (i + 1) as nat, (j + 1) as nat);
    }
}

/// Whether the creation of a session stands among the first `n` events.
pub open spec fn session_created(events: Seq<MigratedEvent>, n: int, session: Seq<char>) -> bool {
    exists|k: int|
        0 <= k < n && (#[trigger] events[k]).session_id@ == session
            && events[k].event.payload is SessionCreated
}

/// Whether the creation of a run stands among the first `n` events.
pub open spec fn run_created(
    events: Seq<MigratedEvent>,
    n: int,
    session: Seq<char>,
    run: Seq<char>,
) -> bool {
    exists|k: int|
        0 <= k < n && (#[trigger] events[k]).session_id@ == session && (events[k].run_id matches Some(
            named,
        ) && named@ == run) && events[k].event.payload is RunCreated
}

/// Whether an event creates its session or stands after the event that does, and the same of its run,
/// where it has one.
pub open spec fn follows_creations(events: Seq<MigratedEvent>, n: int) -> bool {
    let written = events[n];
    &&& written.event.payload is SessionCreated || session_created(
        events,
        n,
        written.session_id@,
    )
    &&& written.run_id matches Some(run) ==> written.event.payload is RunCreated || run_created(
        events,
        n,
        written.session_id@,
        run@,
    )
}

/// Whether every event follows the creations that it needs, and every creation that the inventory has
/// seen stands among the events.
pub open spec fn creations_stand(rows: LegacyRows) -> bool {
    &&& forall|n: int| 0 <= n < rows.events.len() ==> #[trigger] follows_creations(rows.events, n)
    &&& forall|i: int|
        0 <= i < rows.sessions.len() && (#[trigger] rows.sessions[i]).creation_seen
            ==> session_created(
            rows.events,
            rows.events.len() as int,
            rows.sessions[i].session_id@,
        )
    &&& forall|i: int|
        0 <= i < rows.runs.len() && (#[trigger] rows.runs[i]).creation_seen ==> run_created(
            rows.events,
            rows.events.len() as int,
            rows.runs[i].session_id@,
            rows.runs[i].run_id@,
        )
}

proof fn lemma_session_stays_created(
    events: Seq<MigratedEvent>,
    event: MigratedEvent,
    n: int,
    m: int,
    session: Seq<char>,
)
    requires
        n <= events.len(),
        n <= m,
        session_created(events, n, session),
    ensures
        session_created(events.push(event), m, session),
{
    let k = choose|k: int|
        0 <= k < n && (#[trigger] events[k]).session_id@ == session
            && events[k].event.payload is SessionCreated;
    assert(events.push(event)[k] == events[k]);
}

proof fn lemma_run_stays_created(
    events: Seq<MigratedEvent>,
    event: MigratedEvent,
    n: int,
    m: int,
    session: Seq<char>,
    run: Seq<char>,
)
    requires
        n <= events.len(),
        n <= m,
        run_created(events, n, session, run),
    ensures
        run_created(events.push(event), m, session, run),
{
    let k = choose|k: int|
        0 <= k < n && (#[trigger] events[k]).session_id@ == session && (events[k].run_id matches Some(
            named,
        ) && named@ == run) && events[k].event.payload is RunCreated;
    assert(events.push(event)[k] == events[k]);
}

/// What follows its creations goes on doing so when an event is added that does.
proof fn lemma_one_more_follows(events: Seq<MigratedEvent>, event: MigratedEvent)
    requires
        forall|n: int| 0 <= n < events.len() ==> #[trigger] follows_creations(events, n),
        event.event.payload is SessionCreated || session_created(
            events,
            events.len() as int,
            event.session_id@,
        ),
        event.run_id matches Some(run) ==> event.event.payload is RunCreated || run_created(
            events,
            events.len() as int,
            event.session_id@,
            run@,
        ),
    ensures
        forall|n: int|
            0 <= n < events.push(event).len() ==> #[trigger] follows_creations(
                events.push(event),
                n,
            ),
{
    let all = events.push(event);
    assert forall|n: int| 0 <= n < all.len() implies #[trigger] follows_creations(all, n) by {
        let written = all[n];
        if n < events.len() {
            assert(follows_creations(events, n));
            assert(written == events[n]);
        }
        if !(written.event.payload is SessionCreated) {
            lemma_session_stays_created(events, event, n, n, written.session_id@);
        }
        if written.run_id is Some && !(written.event.payload is RunCreated) {
            lemma_run_stays_created(events, event, n, n, written.session_id@, written.run_id->0@);
        }
    }
}

/// The creations that an inventory has seen still stand when an event is added.
proof fn lemma_seen_stays_created(rows: LegacyRows, event: MigratedEvent)
    requires
        creations_stand(rows),
    ensures
        forall|i: int|
            0 <= i < rows.sessions.len() && (#[trigger] rows.sessions[i]).creation_seen
                ==> session_created(
                rows.events.push(event),
                rows.events.len() + 1int,
                rows.sessions[i].session_id@,
            ),
        forall|i: int|
            0 <= i < rows.runs.len() && (#[trigger] rows.runs[i]).creation_seen ==> run_created(
                rows.events.push(event),
                rows.events.len() + 1int,
                rows.runs[i].session_id@,
                rows.runs[i].run_id@,
            ),
{
    let n = rows.events.len() as int;
    assert forall|i: int|
        0 <= i < rows.sessions.len() && (
        #[trigger] rows.sessions[i]).creation_seen implies session_created(
        rows.events.push(event),
        n + 1,
        rows.sessions[i].session_id@,
    ) by {
        lemma_session_stays_created(rows.events, event, n, n + 1, rows.sessions[i].session_id@);
    }
    assert forall|i: int|
        0 <= i < rows.runs.len() && (#[trigger] rows.runs[i]).creation_seen implies run_created(
        rows.events.push(event),
        n + 1,
        rows.runs[i].session_id@,
        rows.runs[i].run_id@,
    ) by {
        lemma_run_stays_created(
            rows.events,
            event,
            n,
            n + 1,
            rows.runs[i].session_id@,
            rows.runs[i].run_id@,
        );
    }
}

/// Making up for the creation of a session leaves every event after its creations, and the session
/// created.
proof fn lemma_session_is_made(
    rows: LegacyRows,
    id: Text,
    stored: Result<Session, StoreError>,
    fresh: FreshEvent,
    provenance: Provenance,
    found: i64,
)
    requires
        creations_stand(rows),
        crate::legacy_inventory::session_creation_finding(rows, id@, stored, found) is Fine,
    ensures
        ({
            let after = crate::legacy_inventory::with_session_creation(
                rows,
                id,
                stored,
                fresh,
                provenance,
            );
            &&& creations_stand(after)
            &&& session_created(after.events, after.events.len() as int, id@)
        }),
{
    let after = crate::legacy_inventory::with_session_creation(rows, id, stored, fresh, provenance);
    crate::legacy_inventory::lemma_session_at(rows.sessions, id@);
    let i = crate::legacy_inventory::session_at(rows.sessions, id@)->0;
    if !rows.sessions[i].creation_seen {
        let event = after.events.last();
        lemma_one_more_follows(rows.events, event);
        lemma_seen_stays_created(rows, event);
        assert(after.events[rows.events.len() as int] == event);
        assert forall|j: int|
            0 <= j < after.sessions.len() && (
            #[trigger] after.sessions[j]).creation_seen implies session_created(
            after.events,
            after.events.len() as int,
            after.sessions[j].session_id@,
        ) by {
            if j != i {
                assert(after.sessions[j] == rows.sessions[j]);
            }
        }
    }
}

/// Making up for the creation of a run leaves every event after its creations, and the run created.
proof fn lemma_run_is_made(
    rows: LegacyRows,
    session_id: Text,
    id: Text,
    stored: Result<Run, StoreError>,
    artifacts: Result<(), Text>,
    fresh: FreshEvent,
    provenance: Provenance,
    found: i64,
)
    requires
        creations_stand(rows),
        session_created(rows.events, rows.events.len() as int, session_id@),
        crate::legacy_inventory::run_creation_finding(
            rows,
            session_id@,
            id@,
            stored,
            artifacts,
            found,
        ) is Fine,
    ensures
        ({
            let after = crate::legacy_inventory::with_run_creation(
                rows,
                session_id,
                id,
                stored,
                fresh,
                provenance,
            );
            &&& creations_stand(after)
            &&& session_created(after.events, after.events.len() as int, session_id@)
            &&& run_created(after.events, after.events.len() as int, session_id@, id@)
        }),
{
    let after = crate::legacy_inventory::with_run_creation(
        rows,
        session_id,
        id,
        stored,
        fresh,
        provenance,
    );
    crate::legacy_inventory::lemma_run_at(rows.runs, id@);
    let i = crate::legacy_inventory::run_at(rows.runs, id@)->0;
    if !rows.runs[i].creation_seen {
        let event = after.events.last();
        let n = rows.events.len() as int;
        lemma_one_more_follows(rows.events, event);
        lemma_seen_stays_created(rows, event);
        lemma_session_stays_created(rows.events, event, n, n + 1, session_id@);
        assert(after.events[n] == event);
        assert(run_created(after.events, after.events.len() as int, session_id@, id@));
        assert forall|j: int|
            0 <= j < after.runs.len() && (
            #[trigger] after.runs[j]).creation_seen implies run_created(
            after.events,
            after.events.len() as int,
            after.runs[j].session_id@,
            after.runs[j].run_id@,
        ) by {
            if j != i {
                assert(after.runs[j] == rows.runs[j]);
            }
        }
    }
}

/// Nothing is written before what it belongs to: where every event follows the creations of its
/// session and of its run, so does every event once another is written.
pub proof fn law_creations_come_first(
    rows: LegacyRows,
    row: EmittedRow,
    provenance: Provenance,
    found: i64,
)
    requires
        creations_stand(rows),
        row.staged.run_id is Some <==> row.staged.event.run_id is Some,
        crate::legacy_emit::emit_finding(rows, row, provenance, found) is Fine,
    ensures
        creations_stand(crate::legacy_emit::emitted(rows, row, provenance)),
{
    let session = row.staged.session_id;
    let one = crate::legacy_emit::after_session(rows, row, provenance);
    if crate::legacy_emit::needs_session(row) {
        lemma_session_is_made(
            rows,
            session,
            row.session,
            row.session_event,
            provenance,
            found,
        );
    }
    let ready = crate::legacy_emit::after_creations(rows, row, provenance);
    if crate::legacy_emit::needs_run(row) {
        lemma_run_is_made(
            one,
            session,
            row.staged.run_id->0,
            row.run,
            row.run_artifacts,
            row.run_event,
            provenance,
            found,
        );
    }
    let all = crate::legacy_emit::emitted(rows, row, provenance);
    let event = all.events.last();
    let n = ready.events.len() as int;
    assert(all.events =~= ready.events.push(event));
    lemma_one_more_follows(ready.events, event);
    lemma_seen_stays_created(ready, event);
    assert(all.events[n] == event);
    match row.staged.event.payload {
        EventPayload::SessionCreated { session: _ } => {
            crate::legacy_inventory::lemma_session_at(ready.sessions, session@);
            let i = crate::legacy_inventory::session_at(ready.sessions, session@)->0;
            assert forall|j: int|
                0 <= j < all.sessions.len() && (
                #[trigger] all.sessions[j]).creation_seen implies session_created(
                all.events,
                n + 1,
                all.sessions[j].session_id@,
            ) by {
                if j != i {
                    assert(all.sessions[j] == ready.sessions[j]);
                }
            }
        },
        EventPayload::RunCreated { run: _ } => {
            let id = row.staged.run_id->0;
            crate::legacy_inventory::lemma_run_at(ready.runs, id@);
            let i = crate::legacy_inventory::run_at(ready.runs, id@)->0;
            assert(run_created(all.events, n + 1, session@, id@));
            assert forall|j: int|
                0 <= j < all.runs.len() && (
                #[trigger] all.runs[j]).creation_seen implies run_created(
                all.events,
                n + 1,
                all.runs[j].session_id@,
                all.runs[j].run_id@,
            ) by {
                if j != i {
                    assert(all.runs[j] == ready.runs[j]);
                }
            }
        },
        EventPayload::RunStateChanged { from: _, to: _ } => {
            let id = row.staged.run_id->0;
            crate::legacy_inventory::lemma_run_at(ready.runs, id@);
            let i = crate::legacy_inventory::run_at(ready.runs, id@)->0;
            assert forall|j: int|
                0 <= j < all.runs.len() && (
                #[trigger] all.runs[j]).creation_seen implies run_created(
                all.events,
                n + 1,
                all.runs[j].session_id@,
                all.runs[j].run_id@,
            ) by {
                assert(ready.runs[j].creation_seen);
            }
        },
        _ => {},
    }
}

/// A whole batch of events is written after the creations that they need.
pub proof fn law_batches_follow_creations(
    rows: LegacyRows,
    batch: Seq<EmittedRow>,
    provenance: Provenance,
    found: i64,
    n: nat,
)
    requires
        n <= batch.len(),
        creations_stand(rows),
        forall|i: int|
            0 <= i < batch.len() ==> ((#[trigger] batch[i]).staged.run_id is Some
                <==> batch[i].staged.event.run_id is Some),
        emit_all_finding(rows, batch, provenance, found, n) is Fine,
    ensures
        creations_stand(emitted_all(rows, batch, provenance, n)),
    decreases n,
{
    if n > 0 {
        let p = (n - 1) as nat;
        law_batches_follow_creations(rows, batch, provenance, found, p);
        law_creations_come_first(
            emitted_all(rows, batch, provenance, p),
            batch[n - 1],
            provenance,
            found,
        );
    }
}

/// Making up for the creations of sessions that nothing depends on leaves every event after the
/// creations that it needs.
pub proof fn law_made_sessions_follow_creations(
    rows: LegacyRows,
    batch: Seq<OrphanSession>,
    provenance: Provenance,
    found: i64,
    n: nat,
)
    requires
        n <= batch.len(),
        creations_stand(rows),
        sessions_finding(rows, batch, provenance, found, n) is Fine,
    ensures
        creations_stand(sessions_made(rows, batch, provenance, n)),
    decreases n,
{
    if n > 0 {
        let p = (n - 1) as nat;
        law_made_sessions_follow_creations(rows, batch, provenance, found, p);
        lemma_session_is_made(
            sessions_made(rows, batch, provenance, p),
            batch[n - 1].session_id,
            batch[n - 1].session,
            batch[n - 1].fresh,
            provenance,
            found,
        );
    }
}

/// Making up for the creations of runs that nothing depends on leaves every event after the creations
/// that it needs, once the creations of their sessions stand.
pub proof fn law_made_runs_follow_creations(
    rows: LegacyRows,
    batch: Seq<OrphanRun>,
    provenance: Provenance,
    found: i64,
    n: nat,
)
    requires
        n <= batch.len(),
        creations_stand(rows),
        forall|i: int|
            0 <= i < batch.len() ==> session_created(
                rows.events,
                rows.events.len() as int,
                (#[trigger] batch[i]).session_id@,
            ),
        runs_finding(rows, batch, provenance, found, n) is Fine,
    ensures
        creations_stand(runs_made(rows, batch, provenance, n)),
        forall|i: int|
            0 <= i < batch.len() ==> session_created(
                runs_made(rows, batch, provenance, n).events,
                runs_made(rows, batch, provenance, n).events.len() as int,
                (#[trigger] batch[i]).session_id@,
            ),
    decreases n,
{
    if n > 0 {
        let p = (n - 1) as nat;
        let before = runs_made(rows, batch, provenance, p);
        let after = runs_made(rows, batch, provenance, n);
        law_made_runs_follow_creations(rows, batch, provenance, found, p);
        lemma_run_is_made(
            before,
            batch[n - 1].session_id,
            batch[n - 1].run_id,
            batch[n - 1].run,
            batch[n - 1].artifacts,
            batch[n - 1].fresh,
            provenance,
            found,
        );
        assert forall|i: int| 0 <= i < batch.len() implies session_created(
            after.events,
            after.events.len() as int,
            (#[trigger] batch[i]).session_id@,
        ) by {
            let k = before.events.len() as int;
            if after.events != before.events {
                lemma_session_stays_created(
                    before.events,
                    after.events.last(),
                    k,
                    k + 1,
                    batch[i].session_id@,
                );
                assert(after.events =~= before.events.push(after.events.last()));
            }
        }
    }
}

/// A migration that has written nothing and seen nothing begins with every creation in its place.
pub proof fn law_migrations_begin_in_order(rows: LegacyRows)
    requires
        rows.events.len() == 0,
        forall|i: int| 0 <= i < rows.sessions.len() ==> !(#[trigger] rows.sessions[i]).creation_seen,
        forall|i: int| 0 <= i < rows.runs.len() ==> !(#[trigger] rows.runs[i]).creation_seen,
    ensures
        creations_stand(rows),
{
}

} // verus!

//! The course of a migration of a legacy database.

use vstd::prelude::*;
use crate::error::StoreError;
use crate::json::refuse_json;
use crate::legacy_batch::{validate_legacy_migration_inventory, LegacyPhase, PhaseOutcome};
use crate::legacy_inventory::{LegacyRows, LegacyTables, RunInventory, SessionInventory};
use crate::legacy_scan::canonicalize_workspace_root;
use crate::run::{Run, Session};
use crate::schema_objects::{are_names, ensure_column_names, expected_table_names};
use crate::schema_shape::DatabaseShape;
use crate::schema_support::{incompatible, require, Finding, SchemaError};
use crate::text::Text;

verus! {

/// How far a migration has come: the version that it found, whether events have a column for their
/// causal parent, the phase that it is in, and the place in the phase.
#[derive(Debug)]
pub struct LegacyMigrationProgress {
    pub source_version: i64,
    pub has_causal_parent: bool,
    pub phase: Text,
    pub cursor_rowid: i64,
    pub cursor_session_id: Option<Text>,
    pub cursor_sequence: u64,
}

/// How a phase is written.
#[verifier::allow_in_spec]
pub fn phase_name(phase: LegacyPhase) -> &'static str
    returns
        (match phase {
            LegacyPhase::CopySessions => "copy_sessions",
            LegacyPhase::CopyRuns => "copy_runs",
            LegacyPhase::ScanEvents => "scan_events",
            LegacyPhase::EmitEvents => "emit_events",
            LegacyPhase::SynthesizeSessions => "synthesize_sessions",
            LegacyPhase::SynthesizeRuns => "synthesize_runs",
            LegacyPhase::Validate => "validate",
            LegacyPhase::Finalize => "finalize",
        }),
{
    match phase {
        LegacyPhase::CopySessions => "copy_sessions",
        LegacyPhase::CopyRuns => "copy_runs",
        LegacyPhase::ScanEvents => "scan_events",
        LegacyPhase::EmitEvents => "emit_events",
        LegacyPhase::SynthesizeSessions => "synthesize_sessions",
        LegacyPhase::SynthesizeRuns => "synthesize_runs",
        LegacyPhase::Validate => "validate",
        LegacyPhase::Finalize => "finalize",
    }
}

/// The phase that is written so.
pub open spec fn phase_named(name: Seq<char>) -> Option<LegacyPhase> {
    if name == "copy_sessions"@ {
        Some(LegacyPhase::CopySessions)
    } else if name == "copy_runs"@ {
        Some(LegacyPhase::CopyRuns)
    } else if name == "scan_events"@ {
        Some(LegacyPhase::ScanEvents)
    } else if name == "emit_events"@ {
        Some(LegacyPhase::EmitEvents)
    } else if name == "synthesize_sessions"@ {
        Some(LegacyPhase::SynthesizeSessions)
    } else if name == "synthesize_runs"@ {
        Some(LegacyPhase::SynthesizeRuns)
    } else if name == "validate"@ {
        Some(LegacyPhase::Validate)
    } else if name == "finalize"@ {
        Some(LegacyPhase::Finalize)
    } else {
        None
    }
}

/// The phase that a migration is in.
pub fn resume_legacy_migration(progress: &LegacyMigrationProgress) -> (r: Result<
    LegacyPhase,
    SchemaError,
>)
    ensures
        crate::schema_support::reports(
            r,
            crate::schema_support::expect(
                phase_named(progress.phase@) is Some,
                progress.source_version,
                "legacy migration has unknown phase "@ + progress.phase@,
            ),
        ),
        r matches Ok(phase) ==> phase_named(progress.phase@) == Some(phase),
{
    let phase = &progress.phase;
    if phase.is("copy_sessions") {
        Ok(LegacyPhase::CopySessions)
    } else if phase.is("copy_runs") {
        Ok(LegacyPhase::CopyRuns)
    } else if phase.is("scan_events") {
        Ok(LegacyPhase::ScanEvents)
    } else if phase.is("emit_events") {
        Ok(LegacyPhase::EmitEvents)
    } else if phase.is("synthesize_sessions") {
        Ok(LegacyPhase::SynthesizeSessions)
    } else if phase.is("synthesize_runs") {
        Ok(LegacyPhase::SynthesizeRuns)
    } else if phase.is("validate") {
        Ok(LegacyPhase::Validate)
    } else if phase.is("finalize") {
        Ok(LegacyPhase::Finalize)
    } else {
        Err(
            incompatible(
                progress.source_version,
                Text::prefixed("legacy migration has unknown phase ", phase),
            ),
        )
    }
}

/// Whether progress is what it becomes after a batch.
pub open spec fn is_progress_after(
    before: LegacyMigrationProgress,
    outcome: PhaseOutcome,
    after: LegacyMigrationProgress,
) -> bool {
    &&& after.source_version == before.source_version
    &&& after.has_causal_parent == before.has_causal_parent
    &&& match outcome {
        PhaseOutcome::Next(phase) => {
            &&& after.phase@ == phase_name(phase)@
            &&& after.cursor_rowid == 0
            &&& after.cursor_session_id is None
            &&& after.cursor_sequence == 0
        },
        PhaseOutcome::Row { rowid, processed } => {
            &&& after.phase == before.phase
            &&& after.cursor_rowid == rowid
            &&& after.cursor_session_id == before.cursor_session_id
            &&& after.cursor_sequence == before.cursor_sequence
        },
        PhaseOutcome::Event { session_id, sequence, processed } => {
            &&& after.phase == before.phase
            &&& after.cursor_rowid == before.cursor_rowid
            &&& after.cursor_session_id == Some(session_id)
            &&& after.cursor_sequence == sequence
        },
        PhaseOutcome::Again => after == before,
    }
}

/// How far a migration has come after a batch.
pub fn advance_legacy_progress(progress: LegacyMigrationProgress, outcome: &PhaseOutcome) -> (r:
    LegacyMigrationProgress)
    ensures
        is_progress_after(progress, *outcome, r),
{
    let mut progress = progress;
    match outcome {
        PhaseOutcome::Next(phase) => {
            progress.phase = Text::of(phase_name(*phase));
            progress.cursor_rowid = 0;
            progress.cursor_session_id = None;
            progress.cursor_sequence = 0;
        },
        PhaseOutcome::Row { rowid, processed: _ } => {
            progress.cursor_rowid = *rowid;
        },
        PhaseOutcome::Event { session_id, sequence, processed: _ } => {
            progress.cursor_session_id = Some(session_id.clone());
            progress.cursor_sequence = *sequence;
        },
        PhaseOutcome::Again => {},
    }
    progress
}

/// The columns of the events of a legacy database.
pub open spec fn legacy_event_columns(has_causal_parent: bool) -> Seq<&'static str> {
    if has_causal_parent {
        seq!["id", "session_id", "run_id", "causal_parent", "sequence", "value_json"]
    } else {
        seq!["id", "session_id", "run_id", "sequence", "value_json"]
    }
}

/// What is found of the tables of a legacy database.
pub open spec fn legacy_shape_finding(
    shape: DatabaseShape,
    found: i64,
    has_causal_parent: bool,
) -> Finding {
    crate::schema_support::also(
        crate::schema_support::expect(
            crate::schema_objects::names_are(
                shape.known_tables@,
                crate::schema_objects::core_tables(),
            ),
            found,
            "legacy database has an incomplete table set"@,
        ),
        crate::schema_support::also(
            crate::schema_support::expect(
                crate::schema_objects::names_are(
                    crate::schema_objects::column_names(shape.sessions.columns@),
                    seq!["id", "value_json"],
                ),
                found,
                crate::schema_objects::unexpected_columns("sessions"@, shape.sessions.columns@),
            ),
            crate::schema_support::also(
                crate::schema_support::expect(
                    crate::schema_objects::names_are(
                        crate::schema_objects::column_names(shape.runs.columns@),
                        seq!["id", "session_id", "value_json"],
                    ),
                    found,
                    crate::schema_objects::unexpected_columns("runs"@, shape.runs.columns@),
                ),
                crate::schema_support::expect(
                    crate::schema_objects::names_are(
                        crate::schema_objects::column_names(shape.events.columns@),
                        legacy_event_columns(has_causal_parent),
                    ),
                    found,
                    crate::schema_objects::unexpected_columns("events"@, shape.events.columns@),
                ),
            ),
        ),
    )
}

/// Checks the tables of a legacy database.
pub fn validate_legacy_shape(shape: &DatabaseShape, found: i64, has_causal_parent: bool) -> (r:
    Result<(), SchemaError>)
    ensures
        crate::schema_support::reports(
            r,
            legacy_shape_finding(*shape, found, has_causal_parent),
        ),
{
    match require(
        are_names(&shape.known_tables, &expected_table_names()),
        found,
        "legacy database has an incomplete table set",
    ) {
        Ok(()) => {},
        Err(error) => return Err(error),
    }
    let session_columns = vec!["id", "value_json"];
    assert(session_columns@ =~= seq!["id", "value_json"]);
    match ensure_column_names("sessions", &shape.sessions.columns, &session_columns, found) {
        Ok(()) => {},
        Err(error) => return Err(error),
    }
    let run_columns = vec!["id", "session_id", "value_json"];
    assert(run_columns@ =~= seq!["id", "session_id", "value_json"]);
    match ensure_column_names("runs", &shape.runs.columns, &run_columns, found) {
        Ok(()) => {},
        Err(error) => return Err(error),
    }
    let event_columns = if has_causal_parent {
        vec!["id", "session_id", "run_id", "causal_parent", "sequence", "value_json"]
    } else {
        vec!["id", "session_id", "run_id", "sequence", "value_json"]
    };
    assert(event_columns@ =~= legacy_event_columns(has_causal_parent));
    ensure_column_names("events", &shape.events.columns, &event_columns, found)
}

/// A session of a legacy database: its row and its document; what came of the canonical form of a
/// workspace root that the document has as a text, as JSON; and what came of decoding the document
/// with its root in that form.
#[derive(Debug)]
pub struct SourceSession {
    pub rowid: i64,
    pub id: Text,
    pub bytes: u64,
    pub json: Text,
    pub canonical_root: Result<Text, Text>,
    pub session: Result<Session, Text>,
    pub written_id: Text,
}

/// A run of a legacy database: its row, and what was read of its document.
#[derive(Debug)]
pub struct SourceRun {
    pub rowid: i64,
    pub id: Text,
    pub session_id: Text,
    pub bytes: u64,
    pub run: Result<Run, Text>,
    pub written_id: Text,
    pub written_session_id: Text,
}

/// A session that is copied, under its identity as it is written.
#[derive(Debug)]
pub struct CopiedSession {
    pub id: Text,
    pub session: Session,
}

/// A run that is copied, under its identities as they are written.
#[derive(Debug)]
pub struct CopiedRun {
    pub id: Text,
    pub session_id: Text,
    pub run: Run,
}

/// Where a legacy session has the root of its workspace.
pub const SESSION_ROOT: &'static str = "/workspace_root";

/// What is found while a legacy session is normalized.
pub open spec fn session_normalization_finding(
    json: Seq<char>,
    canonical_root: Result<Text, Text>,
    id: Seq<char>,
    found: i64,
) -> Finding {
    let context = "materialized session "@ + id;
    match crate::json::json_refusal(json) {
        Some(error) => Finding::Refused {
            found,
            detail: context + " contains invalid JSON: "@ + error,
        },
        None => crate::legacy_scan::root_finding(
            crate::json::string_at(json, SESSION_ROOT@),
            canonical_root,
            found,
            context,
            true,
        ),
    }
}

/// Writes a legacy session with its root in canonical form. What comes out is what is decoded.
pub fn normalize_legacy_session(
    json: &Text,
    canonical_root: &Result<Text, Text>,
    id: &Text,
    found: i64,
) -> (r: Result<Text, SchemaError>)
    ensures
        crate::schema_support::reports(
            r,
            session_normalization_finding(json@, *canonical_root, id@, found),
        ),
        r matches Ok(normalized) ==> normalized@ == crate::legacy_scan::rooted(
            json@,
            SESSION_ROOT@,
            *canonical_root,
        ),
{
    let context = Text::prefixed("materialized session ", id);
    match refuse_json(json) {
        None => {},
        Some(error) => return Err(
            incompatible(
                found,
                context.followed_by(&Text::of(" contains invalid JSON: ")).followed_by(&error),
            ),
        ),
    }
    let mut document = json.clone();
    match canonicalize_workspace_root(
        &mut document,
        SESSION_ROOT,
        canonical_root,
        found,
        context,
        true,
    ) {
        Ok(_) => Ok(document),
        Err(error) => Err(error),
    }
}

/// What is found of a session of a legacy database.
pub open spec fn source_session_finding(row: SourceSession, found: i64, max_bytes: u64) -> Finding {
    let context = "materialized session "@ + row.id@;
    crate::schema_support::also(
        crate::schema_support::expect(
            row.bytes <= max_bytes,
            found,
            context + " exceeds the migration metadata limit"@,
        ),
        crate::schema_support::also(
            session_normalization_finding(row.json@, row.canonical_root, row.id@, found),
            match row.session {
                Err(error) => Finding::Refused { found, detail: context + " is invalid: "@ + error@ },
                Ok(_) => crate::schema_support::expect(
                    row.written_id@ == row.id@,
                    found,
                    context + " contradicts its primary key"@,
                ),
            },
        ),
    )
}

/// What is found of a run of a legacy database.
pub open spec fn source_run_finding(row: SourceRun, found: i64, max_bytes: u64) -> Finding {
    let context = "materialized run "@ + row.id@;
    crate::schema_support::also(
        crate::schema_support::expect(
            row.bytes <= max_bytes,
            found,
            context + " exceeds the migration metadata limit"@,
        ),
        match row.run {
            Err(error) => Finding::Refused { found, detail: context + " is invalid: "@ + error@ },
            Ok(_) => crate::schema_support::expect(
                row.written_id@ == row.id@ && row.written_session_id@ == row.session_id@,
                found,
                context + " contradicts its keys"@,
            ),
        },
    )
}

fn copy_session(row: SourceSession, found: i64, max_bytes: u64) -> (r: Result<
    CopiedSession,
    SchemaError,
>)
    ensures
        crate::schema_support::reports(r, source_session_finding(row, found, max_bytes)),
        r matches Ok(copied) ==> copied == (CopiedSession {
            id: row.id,
            session: row.session->Ok_0,
        }),
{
    let context = Text::prefixed("materialized session ", &row.id);
    if row.bytes > max_bytes {
        return Err(
            incompatible(
                found,
                context.followed_by(&Text::of(" exceeds the migration metadata limit")),
            ),
        );
    }
    match normalize_legacy_session(&row.json, &row.canonical_root, &row.id, found) {
        Ok(_) => {},
        Err(error) => return Err(error),
    }
    let session = match row.session {
        Ok(session) => session,
        Err(error) => return Err(
            incompatible(
                found,
                context.followed_by(&Text::of(" is invalid: ")).followed_by(&error),
            ),
        ),
    };
    if row.written_id != row.id {
        return Err(
            incompatible(found, context.followed_by(&Text::of(" contradicts its primary key"))),
        );
    }
    Ok(CopiedSession { id: row.id, session })
}

fn copy_run(row: SourceRun, found: i64, max_bytes: u64) -> (r: Result<CopiedRun, SchemaError>)
    ensures
        crate::schema_support::reports(r, source_run_finding(row, found, max_bytes)),
        r matches Ok(copied) ==> copied == (CopiedRun {
            id: row.id,
            session_id: row.session_id,
            run: row.run->Ok_0,
        }),
{
    let context = Text::prefixed("materialized run ", &row.id);
    if row.bytes > max_bytes {
        return Err(
            incompatible(
                found,
                context.followed_by(&Text::of(" exceeds the migration metadata limit")),
            ),
        );
    }
    let run = match row.run {
        Ok(run) => run,
        Err(error) => return Err(
            incompatible(
                found,
                context.followed_by(&Text::of(" is invalid: ")).followed_by(&error),
            ),
        ),
    };
    if row.written_id != row.id || row.written_session_id != row.session_id {
        return Err(incompatible(found, context.followed_by(&Text::of(" contradicts its keys"))));
    }
    Ok(CopiedRun { id: row.id, session_id: row.session_id, run })
}

/// A session whose creation is yet to be seen.
pub open spec fn awaited_session(row: SourceSession) -> SessionInventory {
    SessionInventory {
        session_id: row.id,
        creation_count: 0,
        synthesized: false,
        creation_seen: false,
    }
}

/// A run whose creation is yet to be seen, in the state that it is on record in.
pub open spec fn awaited_run(row: SourceRun) -> RunInventory {
    RunInventory {
        run_id: row.id,
        session_id: row.session_id,
        state: row.run->Ok_0.state,
        creation_count: 0,
        synthesized: false,
        creation_seen: false,
        state_sequence: 0,
    }
}

/// What is found of the first `n` sessions of a batch.
pub open spec fn copy_sessions_finding(
    batch: Seq<SourceSession>,
    found: i64,
    max_bytes: u64,
    n: nat,
) -> Finding
    decreases n,
{
    if n == 0 {
        Finding::Fine
    } else {
        crate::schema_support::also(
            copy_sessions_finding(batch, found, max_bytes, (n - 1) as nat),
            source_session_finding(batch[n - 1], found, max_bytes),
        )
    }
}

/// What is found of the first `n` runs of a batch.
pub open spec fn copy_runs_finding(
    batch: Seq<SourceRun>,
    found: i64,
    max_bytes: u64,
    n: nat,
) -> Finding
    decreases n,
{
    if n == 0 {
        Finding::Fine
    } else {
        crate::schema_support::also(
            copy_runs_finding(batch, found, max_bytes, (n - 1) as nat),
            source_run_finding(batch[n - 1], found, max_bytes),
        )
    }
}

proof fn lemma_copy_session_failure_stays(
    batch: Seq<SourceSession>,
    found: i64,
    max_bytes: u64,
    n: nat,
    m: nat,
)
    requires
        n <= m,
        !(copy_sessions_finding(batch, found, max_bytes, n) is Fine),
    ensures
        copy_sessions_finding(batch, found, max_bytes, m) == copy_sessions_finding(
            batch,
            found,
            max_bytes,
            n,
        ),
    decreases m,
{
    if n < m {
        lemma_copy_session_failure_stays(batch, found, max_bytes, n, (m - 1) as nat);
    }
}

proof fn lemma_copy_run_failure_stays(
    batch: Seq<SourceRun>,
    found: i64,
    max_bytes: u64,
    n: nat,
    m: nat,
)
    requires
        n <= m,
        !(copy_runs_finding(batch, found, max_bytes, n) is Fine),
    ensures
        copy_runs_finding(batch, found, max_bytes, m) == copy_runs_finding(
            batch,
            found,
            max_bytes,
            n,
        ),
    decreases m,
{
    if n < m {
        lemma_copy_run_failure_stays(batch, found, max_bytes, n, (m - 1) as nat);
    }
}

/// The sessions of a batch, as they are copied.
pub open spec fn copied_sessions(batch: Seq<SourceSession>) -> Seq<CopiedSession> {
    batch.map_values(
        |row: SourceSession| CopiedSession { id: row.id, session: row.session->Ok_0 },
    )
}

/// The runs of a batch, as they are copied.
pub open spec fn copied_runs(batch: Seq<SourceRun>) -> Seq<CopiedRun> {
    batch.map_values(
        |row: SourceRun|
            CopiedRun { id: row.id, session_id: row.session_id, run: row.run->Ok_0 },
    )
}

/// Copies a batch of sessions, and takes them into the inventory. Without rows, this is done.
pub fn copy_legacy_session_batch(
    tables: LegacyTables,
    rows: Vec<SourceSession>,
    found: i64,
    max_bytes: u64,
) -> (r: Result<(LegacyTables, Vec<CopiedSession>, PhaseOutcome), SchemaError>)
    ensures
        crate::schema_support::reports(
            r,
            copy_sessions_finding(rows@, found, max_bytes, rows@.len()),
        ),
        r matches Ok((after, copied, outcome)) ==> {
            &&& after@ == (LegacyRows {
                sessions: tables@.sessions + rows@.map_values(
                    |row: SourceSession| awaited_session(row),
                ),
                ..tables@
            })
            &&& copied@ == copied_sessions(rows@)
            &&& outcome == (if rows@.len() == 0 {
                PhaseOutcome::Next(LegacyPhase::CopyRuns)
            } else {
                PhaseOutcome::Row { rowid: rows@.last().rowid, processed: rows@.len() as u64 }
            })
        },
{
    let ghost before = tables@;
    let ghost batch = rows@;
    let outcome = if rows.len() == 0 {
        PhaseOutcome::Next(LegacyPhase::CopyRuns)
    } else {
        PhaseOutcome::Row { rowid: rows[rows.len() - 1].rowid, processed: rows.len() as u64 }
    };
    let mut copied: Vec<CopiedSession> = Vec::new();
    let mut filled = tables;
    let mut left = rows;
    let ghost mut n: nat = 0;
    assert(batch.skip(0) =~= batch);
    assert(copied@ =~= copied_sessions(batch.take(0)));
    assert(filled@.sessions =~= before.sessions + batch.take(0).map_values(
        |row: SourceSession| awaited_session(row),
    ));
    while left.len() > 0
        invariant
            before == tables@,
            batch == rows@,
            n <= batch.len(),
            left@ == batch.skip(n as int),
            filled@.sessions == before.sessions + batch.take(n as int).map_values(
                |row: SourceSession| awaited_session(row),
            ),
            filled@.runs == before.runs,
            filled@.events == before.events,
            copied@ == copied_sessions(batch.take(n as int)),
            copy_sessions_finding(batch, found, max_bytes, n) is Fine,
        decreases left.len(),
    {
        let row = left.remove(0);
        assert(row == batch[n as int]);
        assert(left@ =~= batch.skip(n as int + 1));
        let session = match copy_session(row, found, max_bytes) {
            Ok(session) => session,
            Err(error) => {
                proof {
                    lemma_copy_session_failure_stays(
                        batch,
                        found,
                        max_bytes,
                        n + 1,
                        batch.len(),
                    );
                }
                return Err(error);
            },
        };
        assert(copied_sessions(batch.take(n as int + 1)) =~= copied@.push(session));
        assert(before.sessions + batch.take(n as int + 1).map_values(
            |row: SourceSession| awaited_session(row),
        ) =~= filled@.sessions.push(awaited_session(row)));
        filled.sessions.push(
            SessionInventory {
                session_id: session.id.clone(),
                creation_count: 0,
                synthesized: false,
                creation_seen: false,
            },
        );
        copied.push(session);
        proof {
            n = n + 1;
        }
    }
    assert(batch.take(n as int) =~= batch);
    Ok((filled, copied, outcome))
}

/// Copies a batch of runs, and takes them into the inventory. Without rows, this is done.
pub fn copy_legacy_run_batch(
    tables: LegacyTables,
    rows: Vec<SourceRun>,
    found: i64,
    max_bytes: u64,
) -> (r: Result<(LegacyTables, Vec<CopiedRun>, PhaseOutcome), SchemaError>)
    ensures
        crate::schema_support::reports(r, copy_runs_finding(rows@, found, max_bytes, rows@.len())),
        r matches Ok((after, copied, outcome)) ==> {
            &&& after@ == (LegacyRows {
                runs: tables@.runs + rows@.map_values(|row: SourceRun| awaited_run(row)),
                ..tables@
            })
            &&& copied@ == copied_runs(rows@)
            &&& outcome == (if rows@.len() == 0 {
                PhaseOutcome::Next(LegacyPhase::ScanEvents)
            } else {
                PhaseOutcome::Row { rowid: rows@.last().rowid, processed: rows@.len() as u64 }
            })
        },
{
    let ghost before = tables@;
    let ghost batch = rows@;
    let outcome = if rows.len() == 0 {
        PhaseOutcome::Next(LegacyPhase::ScanEvents)
    } else {
        PhaseOutcome::Row { rowid: rows[rows.len() - 1].rowid, processed: rows.len() as u64 }
    };
    let mut copied: Vec<CopiedRun> = Vec::new();
    let mut filled = tables;
    let mut left = rows;
    let ghost mut n: nat = 0;
    assert(batch.skip(0) =~= batch);
    assert(copied@ =~= copied_runs(batch.take(0)));
    assert(filled@.runs =~= before.runs + batch.take(0).map_values(
        |row: SourceRun| awaited_run(row),
    ));
    while left.len() > 0
        invariant
            before == tables@,
            batch == rows@,
            n <= batch.len(),
            left@ == batch.skip(n as int),
            filled@.runs == before.runs + batch.take(n as int).map_values(
                |row: SourceRun| awaited_run(row),
            ),
            filled@.sessions == before.sessions,
            filled@.events == before.events,
            copied@ == copied_runs(batch.take(n as int)),
            copy_runs_finding(batch, found, max_bytes, n) is Fine,
        decreases left.len(),
    {
        let row = left.remove(0);
        assert(row == batch[n as int]);
        assert(left@ =~= batch.skip(n as int + 1));
        let run = match copy_run(row, found, max_bytes) {
            Ok(run) => run,
            Err(error) => {
                proof {
                    lemma_copy_run_failure_stays(batch, found, max_bytes, n + 1, batch.len());
                }
                return Err(error);
            },
        };
        assert(copied_runs(batch.take(n as int + 1)) =~= copied@.push(run));
        assert(before.runs + batch.take(n as int + 1).map_values(
            |row: SourceRun| awaited_run(row),
        ) =~= filled@.runs.push(awaited_run(row)));
        filled.runs.push(
            RunInventory {
                run_id: run.id.clone(),
                session_id: run.session_id.clone(),
                state: run.run.state,
                creation_count: 0,
                synthesized: false,
                creation_seen: false,
                state_sequence: 0,
            },
        );
        copied.push(run);
        proof {
            n = n + 1;
        }
    }
    assert(batch.take(n as int) =~= batch);
    Ok((filled, copied, outcome))
}

/// Checks a migration that has written all its events; where everything was created once, it may be
/// finished.
pub fn check_legacy_migration(tables: &LegacyTables, found: i64) -> (r: Result<
    PhaseOutcome,
    SchemaError,
>)
    ensures
        crate::schema_support::reports(r, crate::legacy_batch::inventory_finding(tables@, found)),
        r matches Ok(outcome) ==> outcome == PhaseOutcome::Next(LegacyPhase::Finalize),
{
    match validate_legacy_migration_inventory(tables, found) {
        Ok(()) => Ok(PhaseOutcome::Next(LegacyPhase::Finalize)),
        Err(error) => Err(error),
    }
}

/// How an event that is refused on writing is reported: an event that is too large makes the database
/// unusable, and any other failure is passed on.
pub fn refuse_unwritten_event(name: &Text, error: StoreError, found: i64) -> (r: SchemaError)
    ensures
        match error {
            StoreError::EventTooLarge => r matches SchemaError::Incompatible {
                found: version,
                detail,
            } && version == found && detail@ == "event "@ + name@
                + " exceeds the inline event size limit"@,
            _ => r == SchemaError::Store(error),
        },
{
    match error {
        StoreError::EventTooLarge => incompatible(
            found,
            Text::around("event ", name, " exceeds the inline event size limit"),
        ),
        _ => SchemaError::Store(error),
    }
}

/// A phase is read as it is written.
pub proof fn law_phases_read_as_written(phase: LegacyPhase)
    ensures
        phase_named(phase_name(phase)@) == Some(phase),
{
    reveal_strlit("copy_sessions");
    reveal_strlit("copy_runs");
    reveal_strlit("scan_events");
    reveal_strlit("emit_events");
    reveal_strlit("synthesize_sessions");
    reveal_strlit("synthesize_runs");
    reveal_strlit("validate");
    reveal_strlit("finalize");
    assert("copy_sessions"@.len() == 13);
    assert("copy_runs"@.len() == 9);
    assert("scan_events"@.len() == 11);
    assert("emit_events"@.len() == 11);
    assert("synthesize_sessions"@.len() == 19);
    assert("synthesize_runs"@.len() == 15);
    assert("validate"@.len() == 8);
    assert("finalize"@.len() == 8);
    assert("scan_events"@[0] != "emit_events"@[0]);
    assert("validate"@[0] != "finalize"@[0]);
}

/// A batch of sessions is copied only where every row of it is in order: within the limit, a readable
/// session, and under the name that it says itself.
pub proof fn law_copied_sessions_are_in_order(
    batch: Seq<SourceSession>,
    found: i64,
    max_bytes: u64,
    n: nat,
    i: int,
)
    requires
        copy_sessions_finding(batch, found, max_bytes, n) is Fine,
        0 <= i < n <= batch.len(),
    ensures
        batch[i].bytes <= max_bytes,
        batch[i].session is Ok,
        batch[i].written_id@ == batch[i].id@,
        copied_sessions(batch)[i].id@ == batch[i].id@,
        batch[i].session matches Ok(session) && copied_sessions(batch)[i].session == session,
    decreases n,
{
    if i < n - 1 {
        law_copied_sessions_are_in_order(batch, found, max_bytes, (n - 1) as nat, i);
    }
}

/// A batch of runs is copied only where every row of it is in order: within the limit, a readable run,
/// and under the names that it says itself.
pub proof fn law_copied_runs_are_in_order(
    batch: Seq<SourceRun>,
    found: i64,
    max_bytes: u64,
    n: nat,
    i: int,
)
    requires
        copy_runs_finding(batch, found, max_bytes, n) is Fine,
        0 <= i < n <= batch.len(),
    ensures
        batch[i].bytes <= max_bytes,
        batch[i].run is Ok,
        batch[i].written_id@ == batch[i].id@,
        batch[i].written_session_id@ == batch[i].session_id@,
        copied_runs(batch)[i].id@ == batch[i].id@,
        copied_runs(batch)[i].session_id@ == batch[i].session_id@,
        batch[i].run matches Ok(run) && copied_runs(batch)[i].run == run
            && awaited_run(batch[i]).state == run.state,
    decreases n,
{
    if i < n - 1 {
        law_copied_runs_are_in_order(batch, found, max_bytes, (n - 1) as nat, i);
    }
}

/// Progress moves only where work was done: a new phase begins at its first row, a row or an event moves
/// its own cursor alone, and nothing else changes; where it came from never does.
pub proof fn law_progress_moves_one_cursor(
    before: LegacyMigrationProgress,
    outcome: PhaseOutcome,
    after: LegacyMigrationProgress,
)
    requires
        is_progress_after(before, outcome, after),
    ensures
        after.source_version == before.source_version,
        after.has_causal_parent == before.has_causal_parent,
        outcome matches PhaseOutcome::Next(phase) ==> phase_named(after.phase@) == Some(phase)
            && after.cursor_rowid == 0 && after.cursor_session_id is None && after.cursor_sequence
            == 0,
        !(outcome is Next) ==> after.phase == before.phase,
        outcome matches PhaseOutcome::Row { rowid, .. } ==> after.cursor_rowid == rowid
            && after.cursor_sequence == before.cursor_sequence,
        outcome matches PhaseOutcome::Event { session_id, sequence, .. } ==> after.cursor_session_id
            == Some(session_id) && after.cursor_sequence == sequence && after.cursor_rowid
            == before.cursor_rowid,
        outcome is Again ==> after == before,
{
    if let PhaseOutcome::Next(phase) = outcome {
        law_phases_read_as_written(phase);
    }
}

} // verus!

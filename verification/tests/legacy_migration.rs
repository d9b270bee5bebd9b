//! The migration of a legacy database.

use birdcode_store::artifact::{BackendKind, BackendSelection, Provenance};
use birdcode_store::clock::Timestamp;
use birdcode_store::error::StoreError;
use birdcode_store::event::{EventEnvelope, EventPayload};
use birdcode_store::identity::{ActorId, EventId, RunId, SessionId};
use birdcode_store::legacy_batch::{
    emit_legacy_event_batch, synthesize_orphan_run_batch, synthesize_orphan_session_batch,
    validate_legacy_migration_inventory, LegacyPhase, OrphanRun, OrphanSession, PhaseOutcome,
};
use birdcode_store::legacy_emit::{valid_run_transition, EmittedRow, StagedEvent};
use birdcode_store::legacy_inventory::{
    FreshEvent, LegacyTables, MigratedEvent, RunInventory, SessionInventory,
};
use birdcode_store::legacy_migration::{
    advance_legacy_progress, check_legacy_migration, copy_legacy_run_batch,
    copy_legacy_session_batch, phase_name, refuse_unwritten_event, resume_legacy_migration,
    LegacyMigrationProgress, SourceRun, SourceSession,
};
use birdcode_store::legacy_scan::{
    canonicalize_workspace_root, legacy_root_text, normalize_legacy_event,
    scan_legacy_event_batch, EventReading, ScanRules, SourceEvent, WrittenIdentities, EVENT_ROOT,
};
use birdcode_store::run::{
    PlanAcceptanceContract, Run, RunLimits, RunPurpose, RunSpec, RunState, Session,
};
use birdcode_store::schema_support::SchemaError;
use birdcode_store::text::Text;

fn text(value: &str) -> Text {
    Text {
        value: value.to_owned(),
    }
}

fn refusal<T>(result: Result<T, SchemaError>) -> String {
    match result {
        Err(SchemaError::Incompatible { found, detail }) => {
            assert_eq!(found, 1);
            detail.value
        }
        Err(SchemaError::Store(error)) => panic!("unexpected store failure {error:?}"),
        Err(SchemaError::RowMissing) => panic!("unexpected missing row"),
        Ok(_) => panic!("expected a refusal"),
    }
}

fn time() -> Timestamp {
    Timestamp {
        seconds: 1_700_000_000,
        nanoseconds: 0,
    }
}

fn session() -> Session {
    Session {
        id: SessionId(1),
        workspace_root: text("/repo"),
        title: None,
        created_at: time(),
    }
}

fn run() -> Run {
    Run {
        id: RunId(2),
        spec: RunSpec {
            session_id: SessionId(1),
            purpose: RunPurpose::General,
            plan_acceptance: PlanAcceptanceContract::LegacyMechanicalOnlyV4,
            backend: BackendSelection {
                backend_id: text("test"),
                kind: BackendKind::Model,
                model: None,
                reasoning_effort: None,
            },
            input: Vec::new(),
            limits: RunLimits {
                max_output_tokens: None,
                max_wall_time_seconds: None,
                max_subagents: 0,
            },
        },
        state: RunState::Queued,
        created_at: time(),
    }
}

fn envelope(id: u128, run: bool, parent: Option<u128>, payload: EventPayload) -> EventEnvelope {
    EventEnvelope {
        id: EventId(id),
        sequence: 40,
        session_id: SessionId(1),
        run_id: if run { Some(RunId(2)) } else { None },
        actor_id: ActorId(3),
        causal_parent: parent.map(EventId),
        occurred_at: time(),
        provenance: Provenance {
            producer: text("legacy"),
            backend: None,
            raw_artifact: None,
        },
        payload,
    }
}

fn state_change(id: u128, from: RunState, to: RunState) -> EventEnvelope {
    envelope(id, true, None, EventPayload::RunStateChanged { from, to })
}

fn row(event: EventEnvelope) -> EmittedRow {
    let name = format!("event-{}", event.id.0);
    let run_id = event.run_id.map(|_| text("run"));
    EmittedRow {
        staged: StagedEvent {
            source_rowid: 1,
            name: Text { value: name },
            session_id: text("session"),
            run_id,
            causal_parent: None,
            source_sequence: event.sequence,
            event,
        },
        artifacts: Ok(()),
        session: Ok(session()),
        run: Ok(run()),
        run_artifacts: Ok(()),
        session_event: FreshEvent {
            id: EventId(900),
            actor_id: ActorId(901),
        },
        run_event: FreshEvent {
            id: EventId(910),
            actor_id: ActorId(911),
        },
    }
}

fn tables(session_creations: u64, run_creations: u64) -> LegacyTables {
    LegacyTables {
        sessions: vec![SessionInventory {
            session_id: text("session"),
            creation_count: session_creations,
            synthesized: false,
            creation_seen: false,
        }],
        runs: vec![RunInventory {
            run_id: text("run"),
            session_id: text("session"),
            state: RunState::Queued,
            creation_count: run_creations,
            synthesized: false,
            creation_seen: false,
            state_sequence: 0,
        }],
        events: Vec::new(),
    }
}

fn sequences(events: &[MigratedEvent]) -> Vec<(u128, u64)> {
    events
        .iter()
        .map(|event| (event.event.id.0, event.event.sequence))
        .collect()
}

#[test]
fn run_transitions_are_closed() {
    assert!(valid_run_transition(RunState::Queued, RunState::Running));
    assert!(valid_run_transition(RunState::Waiting, RunState::Cancelled));
    assert!(valid_run_transition(RunState::Running, RunState::Completed));
    assert!(!valid_run_transition(RunState::Queued, RunState::Completed));
    assert!(!valid_run_transition(RunState::Running, RunState::Running));
    assert!(!valid_run_transition(RunState::Completed, RunState::Running));
}

#[test]
fn missing_creations_are_made_up_before_their_first_dependents() {
    let batch = vec![row(state_change(10, RunState::Queued, RunState::Running))];
    let (after, outcome) = emit_legacy_event_batch(tables(0, 0), batch, 1).expect("emits");
    assert_eq!(sequences(&after.events), vec![(900, 1), (910, 2), (10, 3)]);
    assert_eq!(after.events[0].event.causal_parent, None);
    assert_eq!(after.events[1].event.causal_parent, Some(EventId(900)));
    assert_eq!(after.events[1].event.actor_id, ActorId(911));
    assert_eq!(
        after.events[0].event.provenance.producer,
        text("birdcode-store-migration/v1-to-v2")
    );
    assert!(after.sessions[0].synthesized && after.sessions[0].creation_seen);
    assert!(after.runs[0].synthesized && after.runs[0].creation_seen);
    assert_eq!(after.runs[0].state, RunState::Running);
    assert_eq!(after.runs[0].state_sequence, 3);
    assert!(matches!(
        outcome,
        PhaseOutcome::Event { session_id, sequence: 40, processed: 1 }
            if session_id == text("session")
    ));
    assert!(matches!(
        check_legacy_migration(&after, 1),
        Ok(PhaseOutcome::Next(LegacyPhase::Finalize))
    ));
}

#[test]
fn events_follow_the_creations_of_their_session_and_run() {
    let batch = vec![row(state_change(10, RunState::Queued, RunState::Running))];
    let (after, _) = emit_legacy_event_batch(tables(0, 0), batch, 1).expect("emits");
    assert!(matches!(
        after.events[0].event.payload,
        EventPayload::SessionCreated { .. }
    ));
    assert_eq!(after.events[0].run_id, None);
    assert!(matches!(
        after.events[1].event.payload,
        EventPayload::RunCreated { .. }
    ));
    assert_eq!(after.events[1].run_id, Some(text("run")));
    assert_eq!(after.events[2].run_id, Some(text("run")));
    assert!(after
        .events
        .iter()
        .all(|event| event.session_id == text("session")));
}

#[test]
fn creations_that_are_there_are_not_made_up() {
    let batch = vec![
        row(envelope(
            10,
            false,
            None,
            EventPayload::SessionCreated { session: session() },
        )),
        row(envelope(
            11,
            true,
            Some(10),
            EventPayload::RunCreated { run: run() },
        )),
        row(state_change(12, RunState::Queued, RunState::Running)),
    ];
    let (after, _) = emit_legacy_event_batch(tables(1, 1), batch, 1).expect("emits");
    assert_eq!(sequences(&after.events), vec![(10, 1), (11, 2), (12, 3)]);
    assert!(!after.sessions[0].synthesized);
    assert!(validate_legacy_migration_inventory(&after, 1).is_ok());
}

#[test]
fn late_and_double_creations_are_refused() {
    let late = vec![row(state_change(10, RunState::Queued, RunState::Running))];
    assert_eq!(
        refusal(emit_legacy_event_batch(tables(1, 1), late, 1)),
        "session session has a creation event after a dependent event"
    );
    let late_run = vec![
        row(envelope(
            10,
            false,
            None,
            EventPayload::SessionCreated { session: session() },
        )),
        row(state_change(11, RunState::Queued, RunState::Running)),
    ];
    assert_eq!(
        refusal(emit_legacy_event_batch(tables(1, 1), late_run, 1)),
        "run run has a creation event after a dependent event"
    );
    let twice = vec![
        row(envelope(
            10,
            false,
            None,
            EventPayload::SessionCreated { session: session() },
        )),
        row(envelope(
            11,
            false,
            None,
            EventPayload::SessionCreated { session: session() },
        )),
    ];
    assert_eq!(
        refusal(emit_legacy_event_batch(tables(1, 0), twice, 1)),
        "session creation event event-11 is duplicated or follows a dependency"
    );
}

#[test]
fn parents_and_transitions_are_checked() {
    let mut orphan = state_change(10, RunState::Queued, RunState::Running);
    orphan.causal_parent = Some(EventId(77));
    assert_eq!(
        refusal(emit_legacy_event_batch(tables(0, 0), vec![row(orphan)], 1)),
        "event event-10 has a missing or non-prior causal parent"
    );
    assert_eq!(
        refusal(emit_legacy_event_batch(
            tables(0, 0),
            vec![row(state_change(10, RunState::Queued, RunState::Completed))],
            1
        )),
        "event event-10 is not a valid state transition"
    );
    assert_eq!(
        refusal(emit_legacy_event_batch(
            tables(0, 0),
            vec![row(state_change(10, RunState::Running, RunState::Failed))],
            1
        )),
        "event event-10 is not a valid state transition"
    );
    let backend = envelope(
        10,
        false,
        None,
        EventPayload::BackendEvent {
            event_name: text("ping"),
        },
    );
    assert_eq!(
        refusal(emit_legacy_event_batch(tables(0, 0), vec![row(backend)], 1)),
        "backend event event-10 has no run_id"
    );
    let mut unreadable = row(state_change(10, RunState::Queued, RunState::Running));
    unreadable.artifacts = Err(StoreError::ArtifactUnavailable);
    assert!(matches!(
        emit_legacy_event_batch(tables(0, 0), vec![unreadable], 1),
        Err(SchemaError::Store(StoreError::ArtifactUnavailable))
    ));
    let mut no_input = row(state_change(10, RunState::Queued, RunState::Running));
    no_input.run_artifacts = Err(text("gone"));
    assert_eq!(
        refusal(emit_legacy_event_batch(tables(0, 0), vec![no_input], 1)),
        "run run references an unavailable artifact: gone"
    );
}

#[test]
fn sequence_numbers_run_out() {
    let mut full = tables(0, 0);
    full.sessions[0].creation_seen = true;
    full.runs[0].creation_seen = true;
    let mut last = envelope(5, false, None, EventPayload::SessionCreated { session: session() });
    last.sequence = u64::MAX;
    full.events.push(MigratedEvent {
        session_id: text("session"),
        run_id: None,
        event: last,
    });
    assert!(matches!(
        emit_legacy_event_batch(
            full,
            vec![row(state_change(10, RunState::Queued, RunState::Running))],
            1
        ),
        Err(SchemaError::Store(StoreError::SequenceOverflow))
    ));
}

#[test]
fn orphans_are_created_in_their_phases() {
    let (after, outcome) = synthesize_orphan_session_batch(
        tables(0, 0),
        vec![OrphanSession {
            session_id: text("session"),
            session: Ok(session()),
            fresh: FreshEvent {
                id: EventId(20),
                actor_id: ActorId(21),
            },
        }],
        1,
    )
    .expect("session is created");
    assert!(matches!(outcome, PhaseOutcome::Again));
    assert_eq!(
        refusal(validate_legacy_migration_inventory(&after, 1)),
        "run run has 0 source and 0 synthesized creation events; creation_seen=0"
    );
    let (after, outcome) =
        synthesize_orphan_session_batch(after, Vec::new(), 1).expect("nothing is left");
    assert!(matches!(
        outcome,
        PhaseOutcome::Next(LegacyPhase::SynthesizeRuns)
    ));
    let orphan = |state: RunState| {
        let mut stored = run();
        stored.state = state;
        vec![OrphanRun {
            session_id: text("session"),
            run_id: text("run"),
            run: Ok(stored),
            artifacts: Ok(()),
            fresh: FreshEvent {
                id: EventId(30),
                actor_id: ActorId(31),
            },
        }]
    };
    let (after, outcome) =
        synthesize_orphan_run_batch(after, orphan(RunState::Queued), 1).expect("run is created");
    assert!(matches!(outcome, PhaseOutcome::Again));
    assert_eq!(sequences(&after.events), vec![(20, 1), (30, 2)]);
    assert!(validate_legacy_migration_inventory(&after, 1).is_ok());
    assert_eq!(
        refusal(synthesize_orphan_run_batch(
            tables(0, 0),
            orphan(RunState::Running),
            1
        )),
        "run run does not have canonical queued creation state"
    );
}

fn source(event: EventEnvelope) -> SourceEvent {
    let id = format!("event-{}", event.id.0);
    let run_id = event.run_id.map(|_| text("run"));
    SourceEvent {
        rowid: 7,
        id: text(&id),
        session_id: text("session"),
        run_id: event.run_id.map(|_| text("run")),
        scalar_parent: None,
        sequence: event.sequence,
        bytes: 100,
        reading: Some(EventReading {
            json: text("{}"),
            canonical_root: Ok(text("{\"path\":\"/repo\"}")),
            written: WrittenIdentities {
                id: text(&id),
                session_id: text("session"),
                run_id,
                causal_parent: event.causal_parent.map(|_| text("parent")),
            },
            event: Ok(event),
            normalized_spec: Ok(text("{}")),
            stored_spec: Ok(None),
            session: Ok(Some(session())),
            run: Ok(Some(run())),
            encoded: Ok(()),
        }),
    }
}

fn rules() -> ScanRules {
    ScanRules {
        found: 1,
        has_causal_parent: true,
        max_event_bytes: 262_144,
    }
}

fn session_creation() -> EventEnvelope {
    envelope(
        10,
        false,
        None,
        EventPayload::SessionCreated { session: session() },
    )
}

fn scan_one(row: SourceEvent) -> String {
    refusal(scan_legacy_event_batch(tables(0, 0), vec![row], rules()))
}

#[test]
fn scanned_events_are_staged_and_creations_counted() {
    let batch = vec![
        source(session_creation()),
        source(envelope(
            11,
            true,
            None,
            EventPayload::RunCreated { run: run() },
        )),
    ];
    let (after, staged, outcome) =
        scan_legacy_event_batch(tables(0, 0), batch, rules()).expect("scans");
    assert_eq!(after.sessions[0].creation_count, 1);
    assert_eq!(after.runs[0].creation_count, 1);
    assert_eq!(staged.len(), 2);
    assert_eq!(staged[0].name, text("event-10"));
    assert_eq!(staged[0].source_rowid, 7);
    assert!(matches!(
        outcome,
        PhaseOutcome::Row {
            rowid: 7,
            processed: 2
        }
    ));
    let (_, staged, outcome) =
        scan_legacy_event_batch(tables(0, 0), Vec::new(), rules()).expect("nothing is left");
    assert!(staged.is_empty());
    assert!(matches!(outcome, PhaseOutcome::Next(LegacyPhase::EmitEvents)));
}

#[test]
fn scanned_rows_must_agree_with_their_documents() {
    let mut large = source(session_creation());
    large.bytes = 262_145;
    assert_eq!(
        scan_one(large),
        "event event-10 exceeds the inline event size limit"
    );
    let mut unread = source(session_creation());
    unread.reading = None;
    assert_eq!(
        scan_one(unread),
        "event event-10 could not be read within its size limit"
    );
    let change = |change: fn(&mut EventReading)| {
        let mut row = source(session_creation());
        change(row.reading.as_mut().expect("reading is there"));
        scan_one(row)
    };
    assert_eq!(
        change(|reading| reading.json = text("{")),
        "event event-10 contains invalid JSON: EOF while parsing an object at line 1 column 1"
    );
    assert_eq!(
        change(|reading| {
            reading.json =
                text("{\"payload\":{\"data\":{\"session\":{\"workspace_root\":\"/repo\"}}}}");
            reading.canonical_root = Err(text("bad"));
        }),
        "event event-10 workspace_root could not be canonicalized: bad"
    );
    assert_eq!(
        change(|reading| reading.json = text("{\"causal_parent\": 7}")),
        "event event-10 has a non-string causal_parent"
    );
    assert_eq!(
        change(|reading| reading.json = text("{\"causal_parent\": \"x\"}")),
        "event event-10 has contradictory causal parent representations"
    );
    assert_eq!(
        change(|reading| reading.json = text("[1, 2]")),
        "event event-10 is not a JSON object"
    );
    assert_eq!(
        change(|reading| reading.event = Err(text("old"))),
        "event event-10 cannot be upgraded to the current protocol: old"
    );
    assert_eq!(
        change(|reading| reading.written.id = text("other")),
        "event event-10 columns contradict its canonical envelope"
    );
    assert_eq!(
        change(|reading| reading.session = Ok(None)),
        "session creation event event-10 contradicts materialized state"
    );
    let mut unwritable = source(session_creation());
    unwritable.reading.as_mut().expect("reading is there").encoded =
        Err(StoreError::EventTooLarge);
    assert!(matches!(
        scan_legacy_event_batch(tables(0, 0), vec![unwritable], rules()),
        Err(SchemaError::Store(StoreError::EventTooLarge))
    ));
}

fn specified(normalized: &str, stored: Option<&str>) -> SourceEvent {
    let mut row = source(envelope(
        11,
        true,
        None,
        EventPayload::RunCreated { run: run() },
    ));
    let reading = row.reading.as_mut().expect("reading is there");
    reading.json = text("{\"payload\":{\"type\":\"run_created\",\"data\":{\"spec\":{}}}}");
    reading.normalized_spec = Ok(text(normalized));
    reading.stored_spec = Ok(stored.map(text));
    row
}

#[test]
fn legacy_specifications_are_compared_as_json() {
    assert!(scan_legacy_event_batch(
        tables(0, 0),
        vec![specified(
            "{\"a\": 1, \"b\": [true]}",
            Some("{\"b\":[true],\"a\":1}")
        )],
        rules()
    )
    .is_ok());
    assert_eq!(
        scan_one(specified("{\"a\":1}", Some("{\"a\":2}"))),
        "legacy run_created event contradicts materialized run run"
    );
    assert_eq!(
        scan_one(specified("{", Some("{"))),
        "legacy run_created event contradicts materialized run run"
    );
    assert!(matches!(
        scan_legacy_event_batch(tables(0, 0), vec![specified("{}", None)], rules()),
        Err(SchemaError::RowMissing)
    ));
    let mut unreadable = specified("{}", None);
    unreadable.reading.as_mut().expect("reading is there").stored_spec = Err(text("old"));
    assert_eq!(scan_one(unreadable), "materialized run run is invalid: old");
    let mut of_another_kind = specified("{\"a\":1}", Some("{\"a\":2}"));
    of_another_kind.reading.as_mut().expect("reading is there").json =
        text("{\"payload\":{\"type\":\"user_input\",\"data\":{\"spec\":{}}}}");
    assert!(scan_legacy_event_batch(tables(0, 0), vec![of_another_kind], rules()).is_ok());
}

#[test]
fn normalized_events_name_their_parents() {
    let canonical = Ok(text("{\"path\":\"/repo\"}"));
    let id = text("event-10");
    let mut scalar_only = rules();
    scalar_only.has_causal_parent = false;
    let normalize = |json: &str, scalar: Option<Text>, rules: ScanRules| {
        normalize_legacy_event(&text(json), &canonical, &scalar, &id, rules)
            .map(|event| (event.json.value, event.causal_parent.map(|parent| parent.value)))
            .ok()
    };
    assert_eq!(
        normalize("{ \"b\": 1 }", Some(text("p")), rules()),
        Some(("{\"b\":1,\"causal_parent\":\"p\"}".to_owned(), Some("p".to_owned())))
    );
    assert_eq!(
        normalize("{\"causal_parent\":\"q\"}", Some(text("p")), scalar_only),
        Some(("{\"causal_parent\":\"q\"}".to_owned(), Some("q".to_owned())))
    );
    assert_eq!(
        normalize("{\"causal_parent\":null}", None, rules()),
        Some(("{\"causal_parent\":null}".to_owned(), None))
    );
    assert_eq!(
        normalize(
            "{\"payload\":{\"data\":{\"session\":{\"workspace_root\":\"/repo\"}}}}",
            None,
            rules()
        ),
        Some((
            "{\"causal_parent\":null,\"payload\":{\"data\":{\"session\":{\"workspace_root\":\
             {\"path\":\"/repo\"}}}}}"
                .to_owned(),
            None
        ))
    );
}

#[test]
fn workspace_roots_are_rewritten_once() {
    let canonical = Ok(text("{\"path\":\"/repo\"}"));
    let mut json = text("{\"workspace_root\":\"/repo\"}");
    let mut rewrite = || {
        let rewritten = canonicalize_workspace_root(
            &mut json,
            "/workspace_root",
            &canonical,
            1,
            text("session"),
            true,
        );
        (rewritten.expect("root is there"), json.value.clone())
    };
    let expected = "{\"workspace_root\":{\"path\":\"/repo\"}}".to_owned();
    assert_eq!(rewrite(), (true, expected.clone()));
    assert_eq!(rewrite(), (false, expected));
}

#[test]
fn canonical_root_is_asked_for_the_text_in_the_document() {
    let event = "{\"payload\":{\"data\":{\"session\":{\"workspace_root\":\"/repo\\u0020a\"}}}}";
    assert_eq!(
        legacy_root_text(&text(event), EVENT_ROOT).map(|root| root.value),
        Some("/repo a".to_owned())
    );
    for document in [
        "{}",
        "{\"workspace_root\":null}",
        "{\"workspace_root\":{\"path\":\"/repo\"}}",
        "{\"workspace_root\":",
    ] {
        assert_eq!(
            legacy_root_text(&text(document), "/workspace_root").map(|root| root.value),
            None
        );
    }
}

#[test]
fn sessions_and_runs_are_copied_under_their_keys() {
    let source_session = |written: &str| SourceSession {
        rowid: 3,
        id: text("session"),
        bytes: 10,
        json: text("{\"workspace_root\":{\"path\":\"/repo\"}}"),
        canonical_root: Err(text("not a text")),
        session: Ok(session()),
        written_id: text(written),
    };
    let empty = || LegacyTables {
        sessions: Vec::new(),
        runs: Vec::new(),
        events: Vec::new(),
    };
    let (after, copied, outcome) =
        copy_legacy_session_batch(empty(), vec![source_session("session")], 1, 100)
            .expect("copies");
    assert_eq!(after.sessions.len(), 1);
    assert_eq!(copied[0].session, session());
    assert!(matches!(
        outcome,
        PhaseOutcome::Row {
            rowid: 3,
            processed: 1
        }
    ));
    assert_eq!(
        refusal(copy_legacy_session_batch(
            empty(),
            vec![source_session("other")],
            1,
            100
        )),
        "materialized session session contradicts its primary key"
    );
    assert_eq!(
        refusal(copy_legacy_session_batch(
            empty(),
            vec![source_session("session")],
            1,
            9
        )),
        "materialized session session exceeds the migration metadata limit"
    );
    let mut rootless = source_session("session");
    rootless.json = text("{}");
    assert_eq!(
        refusal(copy_legacy_session_batch(empty(), vec![rootless], 1, 100)),
        "materialized session session has no workspace_root"
    );
    let mut uncanonical = source_session("session");
    uncanonical.json = text("{\"workspace_root\":\"/repo\"}");
    assert_eq!(
        refusal(copy_legacy_session_batch(empty(), vec![uncanonical], 1, 100)),
        "materialized session session workspace_root could not be canonicalized: not a text"
    );
    let source_run = |session_id: &str| SourceRun {
        rowid: 4,
        id: text("run"),
        session_id: text(session_id),
        bytes: 10,
        run: Ok(run()),
        written_id: text("run"),
        written_session_id: text("session"),
    };
    let (after, copied, _) =
        copy_legacy_run_batch(empty(), vec![source_run("session")], 1, 100).expect("copies");
    assert_eq!(after.runs[0].state, RunState::Queued);
    assert_eq!(copied[0].run, run());
    assert_eq!(
        refusal(copy_legacy_run_batch(
            empty(),
            vec![source_run("elsewhere")],
            1,
            100
        )),
        "materialized run run contradicts its keys"
    );
}

#[test]
fn phases_are_written_and_read() {
    let progress = |phase: &str| LegacyMigrationProgress {
        source_version: 1,
        has_causal_parent: false,
        phase: text(phase),
        cursor_rowid: 9,
        cursor_session_id: Some(text("session")),
        cursor_sequence: 8,
    };
    for phase in [
        LegacyPhase::CopySessions,
        LegacyPhase::CopyRuns,
        LegacyPhase::ScanEvents,
        LegacyPhase::EmitEvents,
        LegacyPhase::SynthesizeSessions,
        LegacyPhase::SynthesizeRuns,
        LegacyPhase::Validate,
        LegacyPhase::Finalize,
    ] {
        assert!(
            matches!(resume_legacy_migration(&progress(phase_name(phase))), Ok(read) if read == phase)
        );
    }
    assert_eq!(
        refusal(resume_legacy_migration(&progress("sideways"))),
        "legacy migration has unknown phase sideways"
    );
    let next = advance_legacy_progress(
        progress("copy_sessions"),
        &PhaseOutcome::Next(LegacyPhase::CopyRuns),
    );
    assert_eq!(next.phase, text("copy_runs"));
    assert_eq!((next.cursor_rowid, next.cursor_sequence), (0, 0));
    assert_eq!(next.cursor_session_id, None);
    let moved = advance_legacy_progress(
        progress("emit_events"),
        &PhaseOutcome::Event {
            session_id: text("later"),
            sequence: 12,
            processed: 3,
        },
    );
    assert_eq!(moved.cursor_session_id, Some(text("later")));
    assert_eq!((moved.cursor_rowid, moved.cursor_sequence), (9, 12));
}

#[test]
fn oversized_events_make_a_database_unusable() {
    assert_eq!(
        refusal::<()>(Err(refuse_unwritten_event(
            &text("event-1"),
            StoreError::EventTooLarge,
            1
        ))),
        "event event-1 exceeds the inline event size limit"
    );
    assert!(matches!(
        refuse_unwritten_event(&text("event-1"), StoreError::InvalidStateEvent, 1),
        SchemaError::Store(StoreError::InvalidStateEvent)
    ));
}

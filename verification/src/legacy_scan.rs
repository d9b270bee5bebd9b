//! Reading the events of a legacy database.

use vstd::prelude::*;
use crate::error::StoreError;
use crate::event::{EventEnvelope, EventPayload};
use crate::json::{
    find_string, insert_member, read_alike, refuse_json, replace_at, JsonString, JsonStringView,
};
use crate::legacy_batch::{LegacyPhase, PhaseOutcome};
use crate::legacy_emit::StagedEvent;
use crate::legacy_inventory::{
    find_run, find_session, LegacyRows, LegacyTables, RunInventory, SessionInventory,
};
use crate::run::{Run, Session};
use crate::schema_support::{incompatible, Finding, SchemaError};
use crate::text::{Same, Text};

verus! {

/// Where a legacy event has the root of a workspace.
pub const EVENT_ROOT: &'static str = "/payload/data/session/workspace_root";

/// Where a legacy event has its causal parent.
pub const EVENT_PARENT: &'static str = "/causal_parent";

/// Where a legacy event has the specification of the run that it creates.
pub const EVENT_SPEC: &'static str = "/payload/data/spec";

/// Where a legacy event says of what kind it is.
pub const EVENT_KIND: &'static str = "/payload/type";

/// What is found of the root of a workspace in a document. A root that is a text has to have a
/// canonical form.
pub open spec fn root_finding(
    root: JsonStringView,
    canonical: Result<Text, Text>,
    found: i64,
    context: Seq<char>,
    required: bool,
) -> Finding {
    match root {
        JsonStringView::Missing => crate::schema_support::expect(
            !required,
            found,
            context + " has no workspace_root"@,
        ),
        JsonStringView::Written(_) => match canonical {
            Ok(_) => Finding::Fine,
            Err(error) => Finding::Refused {
                found,
                detail: context + " workspace_root could not be canonicalized: "@ + error@,
            },
        },
        _ => Finding::Fine,
    }
}

/// A document with its root in canonical form.
pub open spec fn rooted(
    json: Seq<char>,
    pointer: Seq<char>,
    canonical: Result<Text, Text>,
) -> Seq<char> {
    match (crate::json::string_at(json, pointer), canonical) {
        (JsonStringView::Written(_), Ok(canonical)) => crate::json::replaced_at(
            json,
            pointer,
            canonical@,
        ),
        _ => json,
    }
}

/// The root of a workspace that a document has where a pointer leads, where it is a text: what a
/// canonical form is asked for.
pub fn legacy_root_text(json: &Text, pointer: &str) -> (r: Option<Text>)
    ensures
        match r {
            Some(root) => crate::json::string_at(json@, pointer@) == JsonStringView::Written(root@),
            None => !(crate::json::string_at(json@, pointer@) is Written),
        },
{
    match find_string(json, pointer) {
        JsonString::Written(root) => Some(root),
        _ => None,
    }
}

/// Writes the root of a workspace in a document in its canonical form, where it is a text, and says
/// whether it was. `canonical` is what came of the canonical form of that text, as JSON.
pub fn canonicalize_workspace_root(
    json: &mut Text,
    pointer: &str,
    canonical: &Result<Text, Text>,
    found: i64,
    context: Text,
    required: bool,
) -> (r: Result<bool, SchemaError>)
    ensures
        crate::schema_support::reports(
            r,
            root_finding(
                crate::json::string_at(old(json)@, pointer@),
                *canonical,
                found,
                context@,
                required,
            ),
        ),
        r matches Ok(rewritten) ==> rewritten == (crate::json::string_at(
            old(json)@,
            pointer@,
        ) is Written),
        final(json)@ == rooted(old(json)@, pointer@, *canonical),
        r matches Ok(rewritten) ==> (rewritten && crate::json::json_refusal((canonical->Ok_0)@)
            is None && crate::json::json_refusal(final(json)@) is None ==> crate::json::string_at(
            final(json)@,
            pointer@,
        ) == crate::json::string_at((canonical->Ok_0)@, Seq::empty())),
{
    match find_string(json, pointer) {
        JsonString::Missing => if required {
            Err(incompatible(found, context.followed_by(&Text::of(" has no workspace_root"))))
        } else {
            Ok(false)
        },
        JsonString::Null | JsonString::Other => Ok(false),
        JsonString::Written(_) => match canonical {
            Ok(canonical) => {
                *json = replace_at(json, pointer, canonical);
                Ok(true)
            },
            Err(error) => Err(
                incompatible(
                    found,
                    context.followed_by(
                        &Text::of(" workspace_root could not be canonicalized: "),
                    ).followed_by(error),
                ),
            ),
        },
    }
}

/// The identities of an event, as they are written.
#[derive(Debug)]
pub struct WrittenIdentities {
    pub id: Text,
    pub session_id: Text,
    pub run_id: Option<Text>,
    pub causal_parent: Option<Text>,
}

/// What was read of a legacy event: its document; what came of the canonical form of a workspace root
/// that the document has as a text, as JSON; what came of decoding the normalized document, and the
/// identities of the event; the specification of a run in it, as it reads today, and what came of
/// reading that of the run on record; its session and run on record; and what came of writing the event.
#[derive(Debug)]
pub struct EventReading {
    pub json: Text,
    pub canonical_root: Result<Text, Text>,
    pub event: Result<EventEnvelope, Text>,
    pub written: WrittenIdentities,
    pub normalized_spec: Result<Text, StoreError>,
    pub stored_spec: Result<Option<Text>, Text>,
    pub session: Result<Option<Session>, StoreError>,
    pub run: Result<Option<Run>, StoreError>,
    pub encoded: Result<(), StoreError>,
}

/// A row of the events of a legacy database: its columns, the size of its document, and what was read
/// of the document, where that is small enough.
#[derive(Debug)]
pub struct SourceEvent {
    pub rowid: i64,
    pub id: Text,
    pub session_id: Text,
    pub run_id: Option<Text>,
    pub scalar_parent: Option<Text>,
    pub sequence: u64,
    pub bytes: u64,
    pub reading: Option<EventReading>,
}

/// What a migration goes by: the version that it found, whether events have a column for their causal
/// parent, and the size that an event may have.
#[derive(Clone, Copy, Debug)]
pub struct ScanRules {
    pub found: i64,
    pub has_causal_parent: bool,
    pub max_event_bytes: u64,
}

/// The causal parent of an event: what its document says, else what its column says.
pub open spec fn settled_parent(field: JsonStringView, scalar: Option<Seq<char>>) -> Option<
    Seq<char>,
> {
    match field {
        JsonStringView::Missing => scalar,
        JsonStringView::Written(parent) => Some(parent),
        _ => None,
    }
}

/// What is found of the causal parent of an event.
pub open spec fn parent_finding(
    field: JsonStringView,
    scalar: Option<Seq<char>>,
    id: Seq<char>,
    rules: ScanRules,
) -> Finding {
    match field {
        JsonStringView::Missing => Finding::Fine,
        JsonStringView::Other => Finding::Refused {
            found: rules.found,
            detail: "event "@ + id + " has a non-string causal_parent"@,
        },
        _ => crate::schema_support::expect(
            rules.has_causal_parent ==> settled_parent(field, scalar) == scalar,
            rules.found,
            "event "@ + id + " has contradictory causal parent representations"@,
        ),
    }
}

fn settle_parent(
    field: JsonString,
    scalar: &Option<Text>,
    id: &Text,
    rules: ScanRules,
) -> (r: Result<Option<Text>, SchemaError>)
    ensures
        crate::schema_support::reports(
            r,
            parent_finding(field@, crate::json::viewed(*scalar), id@, rules),
        ),
        r matches Ok(parent) ==> crate::json::viewed(parent) == settled_parent(
            field@,
            crate::json::viewed(*scalar),
        ),
{
    let present = match field {
        JsonString::Missing => return Ok(
            match scalar {
                Some(parent) => Some(parent.clone()),
                None => None,
            },
        ),
        JsonString::Null => None,
        JsonString::Written(parent) => Some(parent),
        JsonString::Other => return Err(
            incompatible(
                rules.found,
                Text::around("event ", id, " has a non-string causal_parent"),
            ),
        ),
    };
    if rules.has_causal_parent && present != *scalar {
        return Err(
            incompatible(
                rules.found,
                Text::around("event ", id, " has contradictory causal parent representations"),
            ),
        );
    }
    Ok(present)
}

/// A legacy event with its root in canonical form and its causal parent settled.
#[derive(Debug)]
pub struct NormalizedEvent {
    pub json: Text,
    pub causal_parent: Option<Text>,
}

/// The causal parent of a legacy event.
pub open spec fn parent_of(
    json: Seq<char>,
    canonical_root: Result<Text, Text>,
    scalar: Option<Text>,
) -> Option<Seq<char>> {
    settled_parent(
        crate::json::string_at(rooted(json, EVENT_ROOT@, canonical_root), EVENT_PARENT@),
        crate::json::viewed(scalar),
    )
}

/// The normalized document of a legacy event, where it is an object.
pub open spec fn normalized_json(
    json: Seq<char>,
    canonical_root: Result<Text, Text>,
    scalar: Option<Text>,
) -> Option<Seq<char>> {
    crate::json::with_member(
        rooted(json, EVENT_ROOT@, canonical_root),
        "causal_parent"@,
        parent_of(json, canonical_root, scalar),
    )
}

/// What is found while a legacy event is normalized.
pub open spec fn normalization_finding(
    json: Seq<char>,
    canonical_root: Result<Text, Text>,
    scalar: Option<Text>,
    id: Seq<char>,
    rules: ScanRules,
) -> Finding {
    match crate::json::json_refusal(json) {
        Some(error) => Finding::Refused {
            found: rules.found,
            detail: "event "@ + id + " contains invalid JSON: "@ + error,
        },
        None => crate::schema_support::also(
            root_finding(
                crate::json::string_at(json, EVENT_ROOT@),
                canonical_root,
                rules.found,
                "event "@ + id,
                false,
            ),
            crate::schema_support::also(
                parent_finding(
                    crate::json::string_at(
                        rooted(json, EVENT_ROOT@, canonical_root),
                        EVENT_PARENT@,
                    ),
                    crate::json::viewed(scalar),
                    id,
                    rules,
                ),
                crate::schema_support::expect(
                    normalized_json(json, canonical_root, scalar) is Some,
                    rules.found,
                    "event "@ + id + " is not a JSON object"@,
                ),
            ),
        ),
    }
}

/// Writes a legacy event with its root in canonical form and its causal parent settled. What comes
/// out is what is decoded.
pub fn normalize_legacy_event(
    json: &Text,
    canonical_root: &Result<Text, Text>,
    scalar_parent: &Option<Text>,
    id: &Text,
    rules: ScanRules,
) -> (r: Result<NormalizedEvent, SchemaError>)
    ensures
        crate::schema_support::reports(
            r,
            normalization_finding(json@, *canonical_root, *scalar_parent, id@, rules),
        ),
        r matches Ok(normalized) ==> {
            &&& Some(normalized.json@) == normalized_json(json@, *canonical_root, *scalar_parent)
            &&& crate::json::viewed(normalized.causal_parent) == parent_of(
                json@,
                *canonical_root,
                *scalar_parent,
            )
            &&& crate::json::string_at(normalized.json@, EVENT_PARENT@) == crate::json::held(
                crate::json::viewed(normalized.causal_parent),
            )
        },
{
    match refuse_json(json) {
        None => {},
        Some(error) => return Err(
            incompatible(
                rules.found,
                Text::around("event ", id, " contains invalid JSON: ").followed_by(&error),
            ),
        ),
    }
    let mut document = json.clone();
    match canonicalize_workspace_root(
        &mut document,
        EVENT_ROOT,
        canonical_root,
        rules.found,
        Text::prefixed("event ", id),
        false,
    ) {
        Ok(_) => {},
        Err(error) => return Err(error),
    }
    let causal_parent = match settle_parent(
        find_string(&document, EVENT_PARENT),
        scalar_parent,
        id,
        rules,
    ) {
        Ok(causal_parent) => causal_parent,
        Err(error) => return Err(error),
    };
    proof {
        reveal_strlit("causal_parent");
        reveal_strlit("/causal_parent");
        assert(seq!['/'] + "causal_parent"@ =~= EVENT_PARENT@);
        assert(crate::json::is_plain_key("causal_parent"@));
    }
    match insert_member(&document, "causal_parent", &causal_parent) {
        Some(json) => Ok(NormalizedEvent { json, causal_parent }),
        None => Err(incompatible(rules.found, Text::around("event ", id, " is not a JSON object"))),
    }
}

/// Whether the columns of an event say what the event says.
pub open spec fn columns_stand(
    id: Text,
    session_id: Text,
    run_id: Option<Text>,
    parent: Option<Seq<char>>,
    sequence: u64,
    written: WrittenIdentities,
    event: EventEnvelope,
) -> bool {
    &&& written.id@ == id@
    &&& written.session_id@ == session_id@
    &&& written.run_id.same(&run_id)
    &&& crate::json::viewed(written.causal_parent) == parent
    &&& event.sequence == sequence
}

/// Whether a legacy event has the specification of the run that it creates.
pub open spec fn says_spec(json: Seq<char>) -> bool {
    &&& !(crate::json::string_at(json, EVENT_SPEC@) is Missing)
    &&& crate::json::string_at(json, EVENT_KIND@) == JsonStringView::Written("run_created"@)
}

/// What is found of what a legacy event says of the run that it creates.
pub open spec fn legacy_spec_finding(
    json: Seq<char>,
    normalized_spec: Result<Text, StoreError>,
    stored_spec: Result<Option<Text>, Text>,
    event: EventEnvelope,
    run_id: Option<Text>,
    found: i64,
) -> Finding {
    if !says_spec(json) {
        Finding::Fine
    } else {
        match (event.run_id, run_id) {
            (Some(_), Some(name)) => match stored_spec {
                Err(error) => Finding::Refused {
                    found,
                    detail: "materialized run "@ + name@ + " is invalid: "@ + error@,
                },
                Ok(None) => Finding::Missing,
                Ok(Some(stored)) => match normalized_spec {
                    Err(error) => Finding::Failed { error },
                    Ok(normalized) => crate::schema_support::expect(
                        crate::json::read_as_same_value(normalized@, stored@),
                        found,
                        "legacy run_created event contradicts materialized run "@ + name@,
                    ),
                },
            },
            _ => Finding::Refused {
                found,
                detail: "legacy run_created event has no associated run"@,
            },
        }
    }
}

fn validate_legacy_payload_semantics(
    json: &Text,
    normalized_spec: &Result<Text, StoreError>,
    stored_spec: &Result<Option<Text>, Text>,
    event: &EventEnvelope,
    run_id: &Option<Text>,
    found: i64,
) -> (r: Result<(), SchemaError>)
    ensures
        crate::schema_support::reports(
            r,
            legacy_spec_finding(
                json@,
                *normalized_spec,
                *stored_spec,
                *event,
                *run_id,
                found,
            ),
        ),
{
    match find_string(json, EVENT_SPEC) {
        JsonString::Missing => return Ok(()),
        _ => {},
    }
    match find_string(json, EVENT_KIND) {
        JsonString::Written(kind) => if !kind.is("run_created") {
            return Ok(());
        },
        _ => return Ok(()),
    }
    match (&event.run_id, run_id) {
        (Some(_), Some(name)) => match stored_spec {
            Err(error) => Err(
                incompatible(
                    found,
                    Text::around("materialized run ", name, " is invalid: ").followed_by(error),
                ),
            ),
            Ok(None) => Err(SchemaError::RowMissing),
            Ok(Some(stored)) => match normalized_spec {
                Err(error) => Err(SchemaError::Store(*error)),
                Ok(normalized) => if read_alike(normalized, stored) {
                    Ok(())
                } else {
                    Err(
                        incompatible(
                            found,
                            Text::prefixed(
                                "legacy run_created event contradicts materialized run ",
                                name,
                            ),
                        ),
                    )
                },
            },
        },
        _ => Err(incompatible(found, Text::of("legacy run_created event has no associated run"))),
    }
}

/// What is found of the creation that an event says: it is that of the entity on record.
pub open spec fn creation_finding(
    event: EventEnvelope,
    id: Seq<char>,
    run_id: Option<Text>,
    session: Result<Option<Session>, StoreError>,
    run: Result<Option<Run>, StoreError>,
    found: i64,
) -> Finding {
    match event.payload {
        EventPayload::SessionCreated { session: created } => match session {
            Err(error) => Finding::Failed { error },
            Ok(stored) => crate::schema_support::expect(
                event.run_id is None && (stored matches Some(stored) && stored.same(&created)),
                found,
                "session creation event "@ + id + " contradicts materialized state"@,
            ),
        },
        EventPayload::RunCreated { run: created } => match run_id {
            None => Finding::Refused {
                found,
                detail: "run creation event "@ + id + " has no run_id"@,
            },
            Some(_) => match run {
                Err(error) => Finding::Failed { error },
                Ok(stored) => crate::schema_support::expect(
                    stored matches Some(stored) && stored.same(&created),
                    found,
                    "run creation event "@ + id + " contradicts materialized state"@,
                ),
            },
        },
        _ => Finding::Fine,
    }
}

fn check_creation(
    event: &EventEnvelope,
    id: &Text,
    run_id: &Option<Text>,
    session: &Result<Option<Session>, StoreError>,
    run: &Result<Option<Run>, StoreError>,
    found: i64,
) -> (r: Result<(), SchemaError>)
    ensures
        crate::schema_support::reports(
            r,
            creation_finding(*event, id@, *run_id, *session, *run, found),
        ),
{
    match &event.payload {
        EventPayload::SessionCreated { session: created } => {
            let stored = match session {
                Ok(stored) => stored,
                Err(error) => return Err(SchemaError::Store(*error)),
            };
            let same = match stored {
                Some(stored) => *stored == *created,
                None => false,
            };
            if event.run_id.is_none() && same {
                Ok(())
            } else {
                Err(
                    incompatible(
                        found,
                        Text::around(
                            "session creation event ",
                            id,
                            " contradicts materialized state",
                        ),
                    ),
                )
            }
        },
        EventPayload::RunCreated { run: created } => {
            if run_id.is_none() {
                return Err(
                    incompatible(found, Text::around("run creation event ", id, " has no run_id")),
                );
            }
            let stored = match run {
                Ok(stored) => stored,
                Err(error) => return Err(SchemaError::Store(*error)),
            };
            let same = match stored {
                Some(stored) => *stored == *created,
                None => false,
            };
            if same {
                Ok(())
            } else {
                Err(
                    incompatible(
                        found,
                        Text::around("run creation event ", id, " contradicts materialized state"),
                    ),
                )
            }
        },
        _ => Ok(()),
    }
}

/// What is found of the event that a row becomes.
pub open spec fn event_finding(
    row: SourceEvent,
    reading: EventReading,
    event: EventEnvelope,
    rules: ScanRules,
) -> Finding {
    crate::schema_support::also(
        crate::schema_support::expect(
            columns_stand(
                row.id,
                row.session_id,
                row.run_id,
                parent_of(reading.json@, reading.canonical_root, row.scalar_parent),
                row.sequence,
                reading.written,
                event,
            ),
            rules.found,
            "event "@ + row.id@ + " columns contradict its canonical envelope"@,
        ),
        crate::schema_support::also(
            legacy_spec_finding(
                normalized_json(reading.json@, reading.canonical_root, row.scalar_parent)->0,
                reading.normalized_spec,
                reading.stored_spec,
                event,
                row.run_id,
                rules.found,
            ),
            crate::schema_support::also(
                creation_finding(
                    event,
                    row.id@,
                    row.run_id,
                    reading.session,
                    reading.run,
                    rules.found,
                ),
                match reading.encoded {
                    Ok(()) => Finding::Fine,
                    Err(error) => Finding::Failed { error },
                },
            ),
        ),
    )
}

/// What is found of what was read of a row.
pub open spec fn reading_finding(
    row: SourceEvent,
    reading: EventReading,
    rules: ScanRules,
) -> Finding {
    crate::schema_support::also(
        normalization_finding(
            reading.json@,
            reading.canonical_root,
            row.scalar_parent,
            row.id@,
            rules,
        ),
        match reading.event {
            Err(error) => Finding::Refused {
                found: rules.found,
                detail: "event "@ + row.id@ + " cannot be upgraded to the current protocol: "@
                    + error@,
            },
            Ok(event) => event_finding(row, reading, event, rules),
        },
    )
}

/// What is found of a row.
pub open spec fn scan_finding(row: SourceEvent, rules: ScanRules) -> Finding {
    crate::schema_support::also(
        crate::schema_support::expect(
            row.bytes <= rules.max_event_bytes,
            rules.found,
            "event "@ + row.id@ + " exceeds the inline event size limit"@,
        ),
        match row.reading {
            None => Finding::Refused {
                found: rules.found,
                detail: "event "@ + row.id@ + " could not be read within its size limit"@,
            },
            Some(reading) => reading_finding(row, reading, rules),
        },
    )
}

/// One more than a count; the greatest count stays.
pub open spec fn one_more(count: u64) -> u64 {
    if count == u64::MAX {
        count
    } else {
        (count + 1) as u64
    }
}

/// The inventory once a row is read: a creation is counted.
pub open spec fn scanned(rows: LegacyRows, row: SourceEvent) -> LegacyRows {
    match row.reading->0.event->Ok_0.payload {
        EventPayload::SessionCreated { session } => match crate::legacy_inventory::session_at(
            rows.sessions,
            row.session_id@,
        ) {
            None => rows,
            Some(i) => LegacyRows {
                sessions: rows.sessions.update(
                    i,
                    SessionInventory {
                        creation_count: one_more(rows.sessions[i].creation_count),
                        ..rows.sessions[i]
                    },
                ),
                ..rows
            },
        },
        EventPayload::RunCreated { run } => match crate::legacy_inventory::run_at(
            rows.runs,
            row.run_id->0@,
        ) {
            None => rows,
            Some(i) => LegacyRows {
                runs: rows.runs.update(
                    i,
                    RunInventory {
                        creation_count: one_more(rows.runs[i].creation_count),
                        ..rows.runs[i]
                    },
                ),
                ..rows
            },
        },
        _ => rows,
    }
}

/// Whether an event is the staged form of a row.
pub open spec fn is_staged_from(staged: StagedEvent, row: SourceEvent) -> bool {
    &&& staged.source_rowid == row.rowid
    &&& staged.name == row.id
    &&& staged.session_id == row.session_id
    &&& staged.run_id == row.run_id
    &&& crate::json::viewed(staged.causal_parent) == parent_of(
        row.reading->0.json@,
        row.reading->0.canonical_root,
        row.scalar_parent,
    )
    &&& staged.source_sequence == row.sequence
    &&& staged.event == row.reading->0.event->Ok_0
}

fn raise_count(count: u64) -> (r: u64)
    ensures
        r == one_more(count),
{
    if count == u64::MAX {
        count
    } else {
        count + 1
    }
}

fn count_creation(
    tables: LegacyTables,
    event: &EventEnvelope,
    session_id: &Text,
    run_id: &Option<Text>,
    Ghost(row): Ghost<SourceEvent>,
) -> (r: LegacyTables)
    requires
        row.reading matches Some(reading) && (reading.event matches Ok(read) && read == *event),
        row.session_id == *session_id,
        row.run_id == *run_id,
        event.payload is RunCreated ==> run_id is Some,
    ensures
        r@ == scanned(tables@, row),
{
    let ghost before = tables@;
    let mut tables = tables;
    match &event.payload {
        EventPayload::SessionCreated { session: _ } => {
            match find_session(&tables.sessions, session_id) {
                Some(i) => {
                    let count = raise_count(tables.sessions[i].creation_count);
                    tables.sessions[i].creation_count = count;
                    assert(tables@.sessions =~= scanned(before, row).sessions);
                },
                None => {},
            }
        },
        EventPayload::RunCreated { run: _ } => {
            match run_id {
                Some(id) => match find_run(&tables.runs, id) {
                    Some(i) => {
                        let count = raise_count(tables.runs[i].creation_count);
                        tables.runs[i].creation_count = count;
                        assert(tables@.runs =~= scanned(before, row).runs);
                    },
                    None => {},
                },
                None => {},
            }
        },
        _ => {},
    }
    tables
}

/// Reads one row of the events of a legacy database.
pub fn scan_legacy_event(tables: LegacyTables, row: SourceEvent, rules: ScanRules) -> (r: Result<
    (LegacyTables, StagedEvent),
    SchemaError,
>)
    ensures
        crate::schema_support::reports(r, scan_finding(row, rules)),
        r matches Ok((after, staged)) ==> after@ == scanned(tables@, row) && is_staged_from(
            staged,
            row,
        ),
{
    let ghost given = row;
    if row.bytes > rules.max_event_bytes {
        return Err(
            incompatible(
                rules.found,
                Text::around("event ", &row.id, " exceeds the inline event size limit"),
            ),
        );
    }
    let reading = match row.reading {
        Some(reading) => reading,
        None => return Err(
            incompatible(
                rules.found,
                Text::around("event ", &row.id, " could not be read within its size limit"),
            ),
        ),
    };
    let NormalizedEvent { json, causal_parent } = match normalize_legacy_event(
        &reading.json,
        &reading.canonical_root,
        &row.scalar_parent,
        &row.id,
        rules,
    ) {
        Ok(normalized) => normalized,
        Err(error) => return Err(error),
    };
    let event = match reading.event {
        Ok(event) => event,
        Err(error) => return Err(
            incompatible(
                rules.found,
                Text::around(
                    "event ",
                    &row.id,
                    " cannot be upgraded to the current protocol: ",
                ).followed_by(&error),
            ),
        ),
    };
    let written = &reading.written;
    if written.id != row.id || written.session_id != row.session_id || written.run_id != row.run_id
        || written.causal_parent != causal_parent || event.sequence != row.sequence {
        return Err(
            incompatible(
                rules.found,
                Text::around("event ", &row.id, " columns contradict its canonical envelope"),
            ),
        );
    }
    match validate_legacy_payload_semantics(
        &json,
        &reading.normalized_spec,
        &reading.stored_spec,
        &event,
        &row.run_id,
        rules.found,
    ) {
        Ok(()) => {},
        Err(error) => return Err(error),
    }
    match check_creation(
        &event,
        &row.id,
        &row.run_id,
        &reading.session,
        &reading.run,
        rules.found,
    ) {
        Ok(()) => {},
        Err(error) => return Err(error),
    }
    match reading.encoded {
        Ok(()) => {},
        Err(error) => return Err(SchemaError::Store(error)),
    }
    let tables = count_creation(tables, &event, &row.session_id, &row.run_id, Ghost(given));
    Ok(
        (
            tables,
            StagedEvent {
                source_rowid: row.rowid,
                name: row.id,
                session_id: row.session_id,
                run_id: row.run_id,
                causal_parent,
                source_sequence: row.sequence,
                event,
            },
        ),
    )
}

/// The inventory after the first `n` rows of a batch.
pub open spec fn scanned_all(rows: LegacyRows, batch: Seq<SourceEvent>, n: nat) -> LegacyRows
    decreases n,
{
    if n == 0 {
        rows
    } else {
        scanned(scanned_all(rows, batch, (n - 1) as nat), batch[n - 1])
    }
}

/// What is found of the first `n` rows of a batch.
pub open spec fn scan_all_finding(batch: Seq<SourceEvent>, rules: ScanRules, n: nat) -> Finding
    decreases n,
{
    if n == 0 {
        Finding::Fine
    } else {
        crate::schema_support::also(
            scan_all_finding(batch, rules, (n - 1) as nat),
            scan_finding(batch[n - 1], rules),
        )
    }
}

proof fn lemma_scan_failure_stays(batch: Seq<SourceEvent>, rules: ScanRules, n: nat, m: nat)
    requires
        n <= m,
        !(scan_all_finding(batch, rules, n) is Fine),
    ensures
        scan_all_finding(batch, rules, m) == scan_all_finding(batch, rules, n),
    decreases m,
{
    if n < m {
        lemma_scan_failure_stays(batch, rules, n, (m - 1) as nat);
    }
}

/// Whether events are the staged forms of a batch.
pub open spec fn are_staged_from(staged: Seq<StagedEvent>, batch: Seq<SourceEvent>) -> bool {
    &&& staged.len() == batch.len()
    &&& forall|i: int| 0 <= i < batch.len() ==> is_staged_from(#[trigger] staged[i], batch[i])
}

/// Where the reading of events stands after a batch.
pub open spec fn scan_outcome(batch: Seq<SourceEvent>) -> PhaseOutcome {
    if batch.len() == 0 {
        PhaseOutcome::Next(LegacyPhase::EmitEvents)
    } else {
        PhaseOutcome::Row { rowid: batch.last().rowid, processed: batch.len() as u64 }
    }
}

/// Reads a batch of the events of a legacy database: each is staged, and creations are counted.
/// Without rows, the reading of events is done.
pub fn scan_legacy_event_batch(
    tables: LegacyTables,
    rows: Vec<SourceEvent>,
    rules: ScanRules,
) -> (r: Result<(LegacyTables, Vec<StagedEvent>, PhaseOutcome), SchemaError>)
    ensures
        crate::schema_support::reports(r, scan_all_finding(rows@, rules, rows@.len())),
        r matches Ok((after, staged, outcome)) ==> {
            &&& after@ == scanned_all(tables@, rows@, rows@.len())
            &&& are_staged_from(staged@, rows@)
            &&& outcome == scan_outcome(rows@)
        },
{
    let mut staged: Vec<StagedEvent> = Vec::new();
    let ghost before = tables@;
    let ghost batch = rows@;
    if rows.len() == 0 {
        return Ok((tables, staged, PhaseOutcome::Next(LegacyPhase::EmitEvents)));
    }
    let processed: u64 = rows.len() as u64;
    let rowid = rows[rows.len() - 1].rowid;
    let mut filled = tables;
    let mut left = rows;
    let ghost mut n: nat = 0;
    assert(batch.skip(0) =~= batch);
    while left.len() > 0
        invariant
            before == tables@,
            batch == rows@,
            n <= batch.len(),
            left@ == batch.skip(n as int),
            filled@ == scanned_all(before, batch, n),
            are_staged_from(staged@, batch.take(n as int)),
            scan_all_finding(batch, rules, n) is Fine,
        decreases left.len(),
    {
        let row = left.remove(0);
        assert(row == batch[n as int]);
        assert(left@ =~= batch.skip(n as int + 1));
        let (next, event) = match scan_legacy_event(filled, row, rules) {
            Ok(read) => read,
            Err(error) => {
                proof {
                    lemma_scan_failure_stays(batch, rules, n + 1, batch.len());
                }
                return Err(error);
            },
        };
        filled = next;
        staged.push(event);
        proof {
            n = n + 1;
        }
    }
    assert(batch.take(n as int) =~= batch);
    Ok((filled, staged, PhaseOutcome::Row { rowid, processed }))
}

/// A row that is read says the same in its columns and in its document, and a creation that it says
/// is that of the entity on record.
pub proof fn law_scanned_rows_agree(row: SourceEvent, rules: ScanRules)
    requires
        scan_finding(row, rules) is Fine,
    ensures
        row.reading matches Some(reading) && (reading.event matches Ok(event) && {
            &&& reading.written.id@ == row.id@
            &&& reading.written.session_id@ == row.session_id@
            &&& reading.written.run_id.same(&row.run_id)
            &&& crate::json::viewed(reading.written.causal_parent) == parent_of(
                reading.json@,
                reading.canonical_root,
                row.scalar_parent,
            )
            &&& event.sequence == row.sequence
            &&& event.payload matches EventPayload::SessionCreated { session: created } ==> (
            reading.session matches Ok(Some(stored)) && stored.same(&created))
            &&& event.payload matches EventPayload::RunCreated { run: created } ==> (
            reading.run matches Ok(Some(stored)) && stored.same(&created))
        }),
{
}

} // verus!

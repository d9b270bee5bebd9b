//! The durable records that one transaction reads.

use vstd::prelude::*;
use crate::contract::Contract;
use crate::error::StoreError;
use crate::history::EventLog;
use crate::identity::{RunId, SessionId};
use crate::run::{Run, RunState, Session};

verus! {

/// The projected state of a run, and the sequence of the event that brought it there.
#[derive(Clone, Copy, Debug, PartialEq, Eq, Structural)]
pub struct RunStateRow {
    pub run_id: RunId,
    pub session_id: SessionId,
    pub state: RunState,
    pub state_sequence: u64,
}

/// The durable records.
#[derive(Debug)]
pub struct Store {
    pub contract: Contract,
    pub log: EventLog,
    pub sessions: Vec<Session>,
    pub runs: Vec<Run>,
    pub run_states: Vec<RunStateRow>,
}

/// The first run with identity `run_id`.
pub open spec fn run_by_id(runs: Seq<Run>, run_id: RunId) -> Option<Run>
    decreases runs.len(),
{
    if runs.len() == 0 {
        None
    } else if runs.first().id == run_id {
        Some(runs.first())
    } else {
        run_by_id(runs.drop_first(), run_id)
    }
}

/// The first session with identity `session_id`.
pub open spec fn session_by_id(sessions: Seq<Session>, session_id: SessionId) -> Option<Session>
    decreases sessions.len(),
{
    if sessions.len() == 0 {
        None
    } else if sessions.first().id == session_id {
        Some(sessions.first())
    } else {
        session_by_id(sessions.drop_first(), session_id)
    }
}

/// The first projected state of run `run_id`.
pub open spec fn state_by_run(rows: Seq<RunStateRow>, run_id: RunId) -> Option<RunStateRow>
    decreases rows.len(),
{
    if rows.len() == 0 {
        None
    } else if rows.first().run_id == run_id {
        Some(rows.first())
    } else {
        state_by_run(rows.drop_first(), run_id)
    }
}

impl Store {
    /// The run, as it was created.
    pub open spec fn run_record(self, run_id: RunId) -> Option<Run> {
        run_by_id(self.runs@, run_id)
    }

    /// The session, as it was created.
    pub open spec fn session_record(self, session_id: SessionId) -> Option<Session> {
        session_by_id(self.sessions@, session_id)
    }

    /// The projected state of the run.
    pub open spec fn state_record(self, run_id: RunId) -> Option<RunStateRow> {
        state_by_run(self.run_states@, run_id)
    }

    /// The run, as it was created; refused where there is none.
    pub fn durable_run(&self, run_id: RunId) -> (r: Result<&Run, StoreError>)
        ensures
            r == (match self.run_record(run_id) {
                Some(run) => Ok::<&Run, StoreError>(&run),
                None => Err(StoreError::InvalidStateEvent),
            }),
    {
        let mut i: usize = 0;
        assert(self.runs@.skip(0) =~= self.runs@);
        while i < self.runs.len()
            invariant
                i <= self.runs@.len(),
                self.run_record(run_id) == run_by_id(self.runs@.skip(i as int), run_id),
            decreases self.runs.len() - i,
        {
            assert(self.runs@.skip(i as int).drop_first() =~= self.runs@.skip(i + 1));
            if self.runs[i].id == run_id {
                return Ok(&self.runs[i]);
            }
            i += 1;
        }
        Err(StoreError::InvalidStateEvent)
    }

    /// The session, as it was created; refused where there is none.
    pub fn durable_session(&self, session_id: SessionId) -> (r: Result<&Session, StoreError>)
        ensures
            r == (match self.session_record(session_id) {
                Some(session) => Ok::<&Session, StoreError>(&session),
                None => Err(StoreError::InvalidStateEvent),
            }),
    {
        let mut i: usize = 0;
        assert(self.sessions@.skip(0) =~= self.sessions@);
        while i < self.sessions.len()
            invariant
                i <= self.sessions@.len(),
                self.session_record(session_id) == session_by_id(
                    self.sessions@.skip(i as int),
                    session_id,
                ),
            decreases self.sessions.len() - i,
        {
            assert(self.sessions@.skip(i as int).drop_first() =~= self.sessions@.skip(i + 1));
            if self.sessions[i].id == session_id {
                return Ok(&self.sessions[i]);
            }
            i += 1;
        }
        Err(StoreError::InvalidStateEvent)
    }

    /// The projected state of the run.
    pub fn run_state(&self, run_id: RunId) -> (r: Option<RunStateRow>)
        ensures
            r == self.state_record(run_id),
    {
        let mut i: usize = 0;
        assert(self.run_states@.skip(0) =~= self.run_states@);
        while i < self.run_states.len()
            invariant
                i <= self.run_states@.len(),
                self.state_record(run_id) == state_by_run(self.run_states@.skip(i as int), run_id),
            decreases self.run_states.len() - i,
        {
            assert(self.run_states@.skip(i as int).drop_first() =~= self.run_states@.skip(i + 1));
            if self.run_states[i].run_id == run_id {
                return Some(self.run_states[i]);
            }
            i += 1;
        }
        None
    }
}

/// A run is found by its identity: the first record that has it, or none where no record has it.
pub proof fn law_runs_are_found_by_identity(records: Seq<Run>, run_id: RunId) -> (place: int)
    ensures
        match run_by_id(records, run_id) {
            Some(found) => {
                &&& 0 <= place < records.len()
                &&& records[place] == found
                &&& found.id == run_id
                &&& forall|j: int| 0 <= j < place ==> (#[trigger] records[j]).id != run_id
            },
            None => forall|j: int| 0 <= j < records.len() ==> (#[trigger] records[j]).id != run_id,
        },
    decreases records.len(),
{
    if records.len() == 0 || records.first().id == run_id {
        0
    } else {
        let rest = records.drop_first();
        let place = law_runs_are_found_by_identity(rest, run_id);
        assert forall|j: int| 1 <= j < records.len() implies #[trigger] records[j] == rest[j - 1] by {}
        place + 1
    }
}

/// A session is found by its identity: the first record that has it, or none where no record has it.
pub proof fn law_sessions_are_found_by_identity(records: Seq<Session>, session_id: SessionId) -> (place: int)
    ensures
        match session_by_id(records, session_id) {
            Some(found) => {
                &&& 0 <= place < records.len()
                &&& records[place] == found
                &&& found.id == session_id
                &&& forall|j: int| 0 <= j < place ==> (#[trigger] records[j]).id != session_id
            },
            None => forall|j: int| 0 <= j < records.len() ==> (#[trigger] records[j]).id != session_id,
        },
    decreases records.len(),
{
    if records.len() == 0 || records.first().id == session_id {
        0
    } else {
        let rest = records.drop_first();
        let place = law_sessions_are_found_by_identity(rest, session_id);
        assert forall|j: int| 1 <= j < records.len() implies #[trigger] records[j] == rest[j - 1] by {}
        place + 1
    }
}

/// The state of a run is found by the identity of the run: the first row that has it, or none where no
/// row has it.
pub proof fn law_states_are_found_by_identity(records: Seq<RunStateRow>, run_id: RunId) -> (place: int)
    ensures
        match state_by_run(records, run_id) {
            Some(found) => {
                &&& 0 <= place < records.len()
                &&& records[place] == found
                &&& found.run_id == run_id
                &&& forall|j: int| 0 <= j < place ==> (#[trigger] records[j]).run_id != run_id
            },
            None => forall|j: int| 0 <= j < records.len() ==> (#[trigger] records[j]).run_id != run_id,
        },
    decreases records.len(),
{
    if records.len() == 0 || records.first().run_id == run_id {
        0
    } else {
        let rest = records.drop_first();
        let place = law_states_are_found_by_identity(rest, run_id);
        assert forall|j: int| 1 <= j < records.len() implies #[trigger] records[j] == rest[j - 1] by {}
        place + 1
    }
}

} // verus!

//! The command table: one record per process identity that is still known.

use std::collections::HashMap;
use vstd::prelude::*;
use vstd::std_specs::hash::group_hash_axioms;

verus! {

/// The execution state kept for one submitted command.
#[derive(Clone, Copy, Debug, PartialEq, Eq)]
pub struct ProcessRecord {
    pub exit_status: Option<i32>,
    pub running: bool,
}

impl ProcessRecord {
    /// The record of a command that was submitted and has not finished.
    pub open spec fn pending() -> ProcessRecord {
        ProcessRecord { exit_status: None, running: true }
    }

    /// The record of a command that finished with `exit_code`.
    pub open spec fn completed(exit_code: i32) -> ProcessRecord {
        ProcessRecord { exit_status: Some(exit_code), running: false }
    }

    /// A record is running exactly as long as it holds no exit status.
    pub open spec fn wf(self) -> bool {
        self.running == (self.exit_status is None)
    }
}

/// What a poll for one identity finds.
#[derive(Clone, Copy, Debug, PartialEq, Eq)]
pub enum PollOutcome {
    /// No record: never submitted, or already reaped.
    Unknown,
    /// A record without an exit status.
    Running,
    /// A record with this exit status; the poll removed it.
    Stopped(i32),
}

/// What a poll for `id` reports on the table `commands`.
pub open spec fn poll_outcome(commands: Map<u32, ProcessRecord>, id: u32) -> PollOutcome {
    if !commands.contains_key(id) {
        PollOutcome::Unknown
    } else {
        match commands[id].exit_status {
            None => PollOutcome::Running,
            Some(code) => PollOutcome::Stopped(code),
        }
    }
}

/// The table that a poll for `id` leaves behind: a finished record is
/// removed, anything else stays.
pub open spec fn after_poll(commands: Map<u32, ProcessRecord>, id: u32) -> Map<u32, ProcessRecord> {
    if poll_outcome(commands, id) is Stopped {
        commands.remove(id)
    } else {
        commands
    }
}

/// The table after `id` was registered as pending: an existing record wins.
pub open spec fn after_insert_pending(commands: Map<u32, ProcessRecord>, id: u32) -> Map<
    u32,
    ProcessRecord,
> {
    if commands.contains_key(id) {
        commands
    } else {
        commands.insert(id, ProcessRecord::pending())
    }
}

/// Every record of the table is well formed.
pub open spec fn records_wf(commands: Map<u32, ProcessRecord>) -> bool {
    forall|id: u32| #[trigger] commands.contains_key(id) ==> commands[id].wf()
}

/// The record of `id` was asked for and the table holds none.
#[derive(Clone, Copy, Debug, PartialEq, Eq)]
pub struct NoSuchProcess {
    pub process_id: u32,
}

/// Maps each known process identity to its record.
pub struct CommandTable {
    commands: HashMap<u32, ProcessRecord>,
}

impl View for CommandTable {
    type V = Map<u32, ProcessRecord>;

    closed spec fn view(&self) -> Map<u32, ProcessRecord> {
        self.commands@
    }
}

impl CommandTable {
    /// An empty table.
    pub fn new() -> (table: CommandTable)
        ensures
            table@ == Map::<u32, ProcessRecord>::empty(),
    {
        CommandTable { commands: HashMap::new() }
    }

    /// Registers `id` as pending, unless the table already holds a record
    /// for it.
    pub fn insert_pending(&mut self, id: u32)
        ensures
            final(self)@ == after_insert_pending(old(self)@, id),
    {
        broadcast use group_hash_axioms;

        if !self.commands.contains_key(&id) {
            self.commands.insert(id, ProcessRecord { exit_status: None, running: true });
        }
    }

    /// Records that the command `id` finished with `exit_code`. Fails, and
    /// changes nothing, exactly when the table holds no record for `id`.
    pub fn mark_completed(&mut self, id: u32, exit_code: i32) -> (done: Result<(), NoSuchProcess>)
        ensures
            done is Ok <==> old(self)@.contains_key(id),
            done is Ok ==> final(self)@ == old(self)@.insert(id, ProcessRecord::completed(exit_code)),
            done matches Err(e) ==> e.process_id == id && final(self)@ == old(self)@,
    {
        broadcast use group_hash_axioms;

        if self.commands.contains_key(&id) {
            self.commands.insert(id, ProcessRecord { exit_status: Some(exit_code), running: false });
            Ok(())
        } else {
            Err(NoSuchProcess { process_id: id })
        }
    }

    /// Reports the state of `id`, and removes its record if it has finished:
    /// a result is handed out once.
    pub fn poll_and_maybe_reap(&mut self, id: u32) -> (outcome: PollOutcome)
        ensures
            outcome == poll_outcome(old(self)@, id),
            final(self)@ == after_poll(old(self)@, id),
    {
        broadcast use group_hash_axioms;

        let status = match self.commands.get(&id) {
            None => { return PollOutcome::Unknown; },
            Some(record) => record.exit_status,
        };
        match status {
            None => PollOutcome::Running,
            Some(code) => {
                self.commands.remove(&id);
                PollOutcome::Stopped(code)
            },
        }
    }

    /// The record of `id`, if the table holds one.
    pub fn get(&self, id: u32) -> (record: Option<ProcessRecord>)
        ensures
            record == (if self@.contains_key(id) {
                Some(self@[id])
            } else {
                None
            }),
    {
        broadcast use group_hash_axioms;

        match self.commands.get(&id) {
            None => None,
            Some(record) => Some(*record),
        }
    }

    /// Whether the table holds a record for `id`, finished or not.
    pub fn contains(&self, id: u32) -> (found: bool)
        ensures
            found == self@.contains_key(id),
    {
        broadcast use group_hash_axioms;

        self.commands.contains_key(&id)
    }

    /// Whether the table holds no record at all.
    pub fn is_empty(&self) -> (empty: bool)
        ensures
            empty == (self@ == Map::<u32, ProcessRecord>::empty()),
    {
        broadcast use group_hash_axioms;

        let empty = self.commands.is_empty();
        assert(empty <==> self@ =~= Map::<u32, ProcessRecord>::empty());
        empty
    }
}

} // verus!

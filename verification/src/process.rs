//! The life of a supervised server process and the rules of stopping it.
//!
//! What survives a restart of the application is the process-id record
//! alone. Its presence says that something may be running, not that the
//! process is alive; stopping therefore never fails and always leaves the
//! record absent.

use crate::platform::{ServerKind, Variant};
use crate::text::{texts, trim, trimmed};
use vstd::prelude::*;
use vstd::string::*;

verus! {

/// What to do to stop a server.
#[derive(Clone, Debug)]
pub enum StopPlan {
    /// There is no record: nothing runs and nothing is to be done.
    AlreadyStopped,
    /// The record is blank; it is stale and only removed.
    ClearRecord,
    /// Kill the process with this id and all its descendants, then remove
    /// the record whatever the outcome.
    KillTree { pid: String },
}

/// Mathematical form of a [`StopPlan`].
pub enum StopModel {
    AlreadyStopped,
    ClearRecord,
    KillTree { pid: Seq<char> },
}

impl View for StopPlan {
    type V = StopModel;

    open spec fn view(&self) -> StopModel {
        match *self {
            StopPlan::AlreadyStopped => StopModel::AlreadyStopped,
            StopPlan::ClearRecord => StopModel::ClearRecord,
            StopPlan::KillTree { pid } => StopModel::KillTree { pid: pid@ },
        }
    }
}

/// The plan for a record: `None` stands for an absent record, `Some` for its
/// contents.
pub open spec fn stop_plan_of(record: Option<Seq<char>>) -> StopModel {
    match record {
        None => StopModel::AlreadyStopped,
        Some(text) => if trimmed(text).len() == 0 {
            StopModel::ClearRecord
        } else {
            StopModel::KillTree { pid: trimmed(text) }
        },
    }
}

impl StopModel {
    /// Whether carrying out the plan removes the record. Only the plan for
    /// an absent record leaves the record alone.
    pub open spec fn removes_record(self) -> bool {
        !(self is AlreadyStopped)
    }

    /// Whether the plan kills anything.
    pub open spec fn kills(self) -> bool {
        self is KillTree
    }
}

/// The record that is left once `plan` has been carried out on `record`. The
/// outcome of the kill plays no part in it.
pub open spec fn record_after(record: Option<Seq<char>>, plan: StopModel) -> Option<Seq<char>> {
    if plan.removes_record() {
        None
    } else {
        record
    }
}

impl StopPlan {
    /// Whether the record is to be removed at the end of the stop.
    pub fn removes_record(&self) -> (r: bool)
        ensures
            r == self@.removes_record(),
    {
        match self {
            StopPlan::AlreadyStopped => false,
            _ => true,
        }
    }
}

/// Plans the stop of a server from its process-id record.
pub fn plan_stop(record: Option<&str>) -> (plan: StopPlan)
    ensures
        plan@ == stop_plan_of(
            match record {
                Some(r) => Some(r@),
                None => None,
            },
        ),
{
    match record {
        None => StopPlan::AlreadyStopped,
        Some(text) => {
            let pid = trim(text);
            if pid.as_str().unicode_len() == 0 {
                StopPlan::ClearRecord
            } else {
                StopPlan::KillTree { pid }
            }
        },
    }
}

/// The command that forcefully ends the process `pid` together with its
/// descendants: the program first, then its arguments.
pub open spec fn kill_tree_command_of(pid: Seq<char>) -> Seq<Seq<char>> {
    seq!["taskkill"@, "/PID"@, pid, "/T"@, "/F"@]
}

/// Builds the command that kills the process tree rooted at `pid`.
pub fn kill_tree_command(pid: &str) -> (command: Vec<String>)
    ensures
        texts(command@) == kill_tree_command_of(pid@),
{
    let mut command: Vec<String> = Vec::new();
    command.push(String::from_str("taskkill"));
    command.push(String::from_str("/PID"));
    command.push(String::from_str(pid));
    command.push(String::from_str("/T"));
    command.push(String::from_str("/F"));
    assert(texts(command@) =~= kill_tree_command_of(pid@));
    command
}

/// Stopping is idempotent: whatever the record held, none is left after a
/// stop, and a second stop finds nothing to do and kills nothing.
pub proof fn stop_is_idempotent(record: Option<Seq<char>>)
    ensures
        record_after(record, stop_plan_of(record)) is None,
        stop_plan_of(record_after(record, stop_plan_of(record))) == StopModel::AlreadyStopped,
        !stop_plan_of(record_after(record, stop_plan_of(record))).kills(),
        record_after(
            record_after(record, stop_plan_of(record)),
            stop_plan_of(record_after(record, stop_plan_of(record))),
        ) is None,
{
}

/// A blank record never leads to a kill.
pub proof fn blank_record_kills_nothing(record: Seq<char>)
    requires
        forall|i: int| 0 <= i < record.len() ==> crate::text::is_space(record[i]),
    ensures
        stop_plan_of(Some(record)) == StopModel::ClearRecord,
{
    all_space_trims_to_nothing(record);
}

proof fn all_space_trims_to_nothing(s: Seq<char>)
    requires
        forall|i: int| 0 <= i < s.len() ==> crate::text::is_space(s[i]),
    ensures
        crate::text::trim_start_of(s).len() == 0,
        trimmed(s).len() == 0,
    decreases s.len(),
{
    if s.len() > 0 {
        let rest = s.drop_first();
        assert forall|i: int| 0 <= i < rest.len() implies crate::text::is_space(rest[i]) by {
            assert(rest[i] == s[i + 1]);
        }
        all_space_trims_to_nothing(rest);
    }
}

/// The state of a supervised server.
#[derive(Clone, Copy, Debug, PartialEq, Eq, Structural)]
pub enum ProcessState {
    NotRunning,
    Starting,
    Running,
    Stopping,
}

/// A supervised server process.
#[derive(Clone, Copy, Debug, PartialEq, Eq, Structural)]
pub struct ServerProcess {
    pub kind: ServerKind,
    pub state: ProcessState,
    /// The last known process id; set while the process is taken to run.
    pub pid: Option<u32>,
    /// The variant that was last asked to start, if any was.
    pub variant: Option<Variant>,
    /// The port the server was asked to bind.
    pub port: u16,
}

/// What happened to a supervised server.
#[derive(Clone, Copy, Debug, PartialEq, Eq, Structural)]
pub enum ProcessEvent {
    /// A start of this variant was requested for this port.
    StartRequested { variant: Variant, port: u16 },
    /// The process was spawned with this id.
    Spawned { pid: u32 },
    /// Spawning failed.
    SpawnFailed,
    /// A stop was requested.
    StopRequested,
    /// The stop attempt is over.
    Stopped,
}

impl ServerProcess {
    /// A process id is known exactly while the process is taken to run or
    /// is being stopped after running.
    pub open spec fn wf(&self) -> bool {
        &&& self.state == ProcessState::Running ==> self.pid is Some
        &&& (self.state == ProcessState::NotRunning || self.state == ProcessState::Starting)
            ==> self.pid is None
    }

    /// The state after `event`: a start leads through `Starting` to
    /// `Running` or back, a stop through `Stopping` to `NotRunning`; an event
    /// that does not fit the state changes nothing.
    pub open spec fn after(self, event: ProcessEvent) -> ServerProcess {
        match (self.state, event) {
            (ProcessState::NotRunning, ProcessEvent::StartRequested { variant, port }) => {
                ServerProcess {
                    state: ProcessState::Starting,
                    variant: Some(variant),
                    port,
                    ..self
                }
            },
            (ProcessState::Starting, ProcessEvent::Spawned { pid }) => ServerProcess {
                state: ProcessState::Running,
                pid: Some(pid),
                ..self
            },
            (ProcessState::Starting, ProcessEvent::SpawnFailed) => ServerProcess {
                state: ProcessState::NotRunning,
                ..self
            },
            (ProcessState::Running, ProcessEvent::StopRequested) => ServerProcess {
                state: ProcessState::Stopping,
                ..self
            },
            (ProcessState::NotRunning, ProcessEvent::StopRequested) => ServerProcess {
                state: ProcessState::Stopping,
                ..self
            },
            (ProcessState::Stopping, ProcessEvent::Stopped) => ServerProcess {
                state: ProcessState::NotRunning,
                pid: None,
                ..self
            },
            _ => self,
        }
    }

    /// Whether `event` fits the state.
    pub open spec fn fits(self, event: ProcessEvent) -> bool {
        match (self.state, event) {
            (ProcessState::NotRunning, ProcessEvent::StartRequested { .. }) => true,
            (ProcessState::Starting, ProcessEvent::Spawned { .. }) => true,
            (ProcessState::Starting, ProcessEvent::SpawnFailed) => true,
            (ProcessState::Running, ProcessEvent::StopRequested) => true,
            (ProcessState::NotRunning, ProcessEvent::StopRequested) => true,
            (ProcessState::Stopping, ProcessEvent::Stopped) => true,
            _ => false,
        }
    }

    /// A server of which nothing is known to run.
    pub fn new(kind: ServerKind) -> (p: ServerProcess)
        ensures
            p == (ServerProcess {
                kind,
                state: ProcessState::NotRunning,
                pid: None,
                variant: None,
                port: 0,
            }),
            p.wf(),
    {
        ServerProcess { kind, state: ProcessState::NotRunning, pid: None, variant: None, port: 0 }
    }

    /// Applies `event` and returns whether it fitted the state.
    pub fn apply(&mut self, event: ProcessEvent) -> (accepted: bool)
        requires
            old(self).wf(),
        ensures
            *final(self) == old(self).after(event),
            final(self).wf(),
            accepted == old(self).fits(event),
    {
        match (self.state, event) {
            (ProcessState::NotRunning, ProcessEvent::StartRequested { variant, port }) => {
                self.state = ProcessState::Starting;
                self.variant = Some(variant);
                self.port = port;
                true
            },
            (ProcessState::Starting, ProcessEvent::Spawned { pid }) => {
                self.state = ProcessState::Running;
                self.pid = Some(pid);
                true
            },
            (ProcessState::Starting, ProcessEvent::SpawnFailed) => {
                self.state = ProcessState::NotRunning;
                true
            },
            (ProcessState::Running, ProcessEvent::StopRequested) => {
                self.state = ProcessState::Stopping;
                true
            },
            (ProcessState::NotRunning, ProcessEvent::StopRequested) => {
                self.state = ProcessState::Stopping;
                true
            },
            (ProcessState::Stopping, ProcessEvent::Stopped) => {
                self.state = ProcessState::NotRunning;
                self.pid = None;
                true
            },
            _ => false,
        }
    }
}

/// A failed spawn leaves no trace: the process is not running and no process
/// id is known.
pub proof fn failed_spawn_persists_nothing(p: ServerProcess, variant: Variant, port: u16)
    requires
        p.wf(),
        p.state == ProcessState::NotRunning,
    ensures
        p.after(ProcessEvent::StartRequested { variant, port }).after(
            ProcessEvent::SpawnFailed,
        ).state == ProcessState::NotRunning,
        p.after(ProcessEvent::StartRequested { variant, port }).after(
            ProcessEvent::SpawnFailed,
        ).pid is None,
{
}

/// A stop always ends in `NotRunning` without a process id, whether or not
/// anything was running.
pub proof fn stop_ends_not_running(p: ServerProcess)
    requires
        p.wf(),
        p.state == ProcessState::NotRunning || p.state == ProcessState::Running,
    ensures
        p.after(ProcessEvent::StopRequested).after(ProcessEvent::Stopped).state
            == ProcessState::NotRunning,
        p.after(ProcessEvent::StopRequested).after(ProcessEvent::Stopped).pid is None,
{
}

} // verus!

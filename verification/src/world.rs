//! The process table the supervisor acts on.
//!
//! Spawning, signalling and killing child processes are operating-system
//! effects; here they are represented by an explicit table of processes so
//! that every lifecycle transition is a verified function from the old
//! table to the new one.  A process records the executable path it was
//! spawned with, whether it is still alive, whether it exits on its own
//! within the grace period once the exit line reaches its input, and every
//! write observed on its input stream.  The table also keeps an ordered
//! event log, which is what the ordering guarantees of the supervisor are
//! stated over.

use vstd::prelude::*;

verus! {

/// An observable lifecycle event, in the order it happened.
#[derive(Clone, Copy, PartialEq, Eq, Structural, Debug)]
pub enum WorldEvent {
    /// A new process with this identifier was spawned.
    Spawned(u64),
    /// A spawn was attempted and refused.
    SpawnFailed,
    /// The exit line was written to this process's input stream.
    SentExitLine(u64),
    /// This process exited on its own within the grace period.
    ExitedGracefully(u64),
    /// This process was forcibly terminated after the grace period.
    ForceKilled(u64),
}

/// One child process.
pub struct FakeProcess {
    /// The process identifier, unique within one [`World`].
    pub pid: u64,
    /// The executable path the process was spawned with.
    pub path: String,
    /// Whether the process is still running.
    pub alive: bool,
    /// Whether the process exits within the grace period once the exit
    /// line reaches its input stream.
    pub honors_exit: bool,
    /// Every write observed on the process's input stream, in order.
    pub input: Vec<String>,
}

/// The table of all processes ever spawned, live and exited, with the
/// ordered log of lifecycle events.
pub struct World {
    /// All processes, in spawn order; exited processes are kept so that
    /// their input history stays inspectable.
    pub procs: Vec<FakeProcess>,
    /// The identifier the next spawned process will get.
    pub next_pid: u64,
    /// Whether a spawn currently succeeds (an absent or non-executable
    /// file makes it fail).
    pub spawn_ok: bool,
    /// Whether newly spawned processes honor the exit line.
    pub honors_exit: bool,
    /// The ordered log of lifecycle events.
    pub log: Vec<WorldEvent>,
}

impl World {
    /// Well-formedness: process identifiers are unique and below `next_pid`.
    pub open spec fn wf(self) -> bool {
        &&& forall|i: int, j: int|
            0 <= i < j < self.procs@.len() ==> self.procs@[i].pid != self.procs@[j].pid
        &&& forall|i: int| 0 <= i < self.procs@.len() ==> self.procs@[i].pid < self.next_pid
    }

    /// No process is live.
    pub open spec fn no_live(self) -> bool {
        forall|i: int| 0 <= i < self.procs@.len() ==> !self.procs@[i].alive
    }

    /// At most one process is live.
    pub open spec fn at_most_one_live(self) -> bool {
        forall|i: int, j: int|
            0 <= i < self.procs@.len() && 0 <= j < self.procs@.len() && self.procs@[i].alive
                && self.procs@[j].alive ==> i == j
    }

    /// A fresh, empty world with the given spawn behavior.
    pub fn new(spawn_ok: bool, honors_exit: bool) -> (w: World)
        ensures
            w.wf(),
            w.no_live(),
            w.procs@.len() == 0,
            w.next_pid == 1,
            w.spawn_ok == spawn_ok,
            w.honors_exit == honors_exit,
            w.log@.len() == 0,
    {
        World { procs: Vec::new(), next_pid: 1, spawn_ok, honors_exit, log: Vec::new() }
    }
}

} // verus!

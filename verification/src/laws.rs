//! Guarantees of the supervisor, proved once and for all over the
//! transition relations that the executable operations are specified with.

use vstd::prelude::*;

use crate::manager::ServerManager;
use crate::manager::SpawnError;
use crate::manager::start_world_rel;
use crate::world::World;
use crate::world::WorldEvent;

verus! {

/// At most one process handle is live at any instant.  Every supervisor and
/// router operation requires and re-establishes the supervisor invariant,
/// so after any sequence of intents the invariant holds — and under it the
/// process table never has two live entries.
pub proof fn lemma_at_most_one_live(m: ServerManager, w: World)
    requires
        m.inv(w),
    ensures
        w.at_most_one_live(),
{
}

/// Restart is observably stop-then-start: when a process with an open input
/// stream is running and the spawn succeeds, the event log gains the exit
/// line written to the old process strictly before the spawn of the new
/// one, with the old process's termination in between.
pub proof fn lemma_stop_precedes_spawn(
    m0: ServerManager,
    spawn_path: Seq<char>,
    w0: World,
    w1: World,
    r: Result<u64, SpawnError>,
)
    requires
        m0.current_process matches Some(h) && h.stdin_open,
        w0.spawn_ok,
        start_world_rel(m0, spawn_path, w0, w1, r),
    ensures
        w1.log@.len() == w0.log@.len() + 3,
        m0.current_process matches Some(h) && w1.log@[w0.log@.len() as int]
            == WorldEvent::SentExitLine(h.pid),
        w1.log@.last() == WorldEvent::Spawned(w0.next_pid),
{
}

/// A path update rebinds the supervisor: once it is bound to a new path, a
/// subsequent successful start spawns the executable at that path — never
/// the one it was bound to before, however the old process was shut down.
pub proof fn lemma_start_spawns_bound_path(
    m: ServerManager,
    w0: World,
    w1: World,
    r: Result<u64, SpawnError>,
)
    requires
        w0.spawn_ok,
        start_world_rel(m, m.server_path@, w0, w1, r),
    ensures
        w1.procs@.last().path@ == m.server_path@,
        w1.procs@.last().alive,
{
}

} // verus!

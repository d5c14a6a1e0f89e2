//! The process supervisor: owns at most one live child process and
//! transitions it through start, stop and command-sending, acting on the
//! process table of [`crate::world`].

use vstd::prelude::*;
use vstd::string::StringExecFns;

use crate::textops::parent_dir;
use crate::textops::parent_dir_spec;
use crate::world::FakeProcess;
use crate::world::World;
use crate::world::WorldEvent;

verus! {

/// Why sending a command to the child failed.
#[derive(Clone, Copy, PartialEq, Eq, Structural, Debug)]
pub enum SendError {
    /// No process is running.
    NotConnected,
    /// A process is running but its input stream is no longer available.
    BrokenPipe,
}

/// Why starting the child failed.
#[derive(Clone, Copy, PartialEq, Eq, Structural, Debug)]
pub enum SpawnError {
    /// The spawn was refused (missing executable, permission denied).
    Refused,
}

/// How a stop request ended.
#[derive(Clone, Copy, PartialEq, Eq, Structural, Debug)]
pub enum StopOutcome {
    /// No process was running; the stop was a no-op.
    NotRunning,
    /// The process exited on its own within the grace period.
    Graceful,
    /// The process had to be forcibly terminated.
    Forced,
}

/// Which output streams were newly handed to stream pipers.
#[derive(Clone, Copy, PartialEq, Eq, Structural, Debug)]
pub struct PipeStart {
    pub stdout: bool,
    pub stderr: bool,
}

/// The supervisor's handle on its running child process.
#[derive(Clone, Copy)]
pub struct ChildHandle {
    /// The child's process identifier.
    pub pid: u64,
    /// The child's position in the world's process table.
    pub idx: usize,
    /// Whether the child's input stream is still available for writing.
    pub stdin_open: bool,
    /// Whether the child's output stream has been handed to a piper.
    pub stdout_taken: bool,
    /// Whether the child's error stream has been handed to a piper.
    pub stderr_taken: bool,
}

/// The process supervisor: the executable path it is bound to, the working
/// directory derived from it, and the handle on the current child process,
/// present exactly while one is running.
pub struct ServerManager {
    pub server_path: String,
    pub server_dir: String,
    pub current_process: Option<ChildHandle>,
}

/// `new_in` extends `old_in` by exactly one entry holding `line`.
pub open spec fn appended_line(old_in: Seq<String>, new_in: Seq<String>, line: Seq<char>) -> bool {
    &&& new_in.len() == old_in.len() + 1
    &&& new_in.subrange(0, old_in.len() as int) == old_in
    &&& new_in[old_in.len() as int]@ == line
}

/// The outcome a stop request has in state `m` over world `w`.
pub open spec fn stop_outcome_spec(m: ServerManager, w: World) -> StopOutcome {
    match m.current_process {
        None => StopOutcome::NotRunning,
        Some(h) => if h.stdin_open && w.procs@[h.idx as int].honors_exit {
            StopOutcome::Graceful
        } else {
            StopOutcome::Forced
        },
    }
}

/// The events a stop request appends to the log in state `m` over world
/// `w`: the exit line is written first (when the input stream is open), and
/// the process then either exits on its own or is force-killed.
pub open spec fn stop_events(m: ServerManager, w: World) -> Seq<WorldEvent> {
    match m.current_process {
        None => Seq::<WorldEvent>::empty(),
        Some(h) => {
            let p = w.procs@[h.idx as int];
            if h.stdin_open && p.honors_exit {
                seq![WorldEvent::SentExitLine(h.pid), WorldEvent::ExitedGracefully(h.pid)]
            } else if h.stdin_open {
                seq![WorldEvent::SentExitLine(h.pid), WorldEvent::ForceKilled(h.pid)]
            } else {
                seq![WorldEvent::ForceKilled(h.pid)]
            }
        },
    }
}

/// How the first `w0.procs` entries of `w1` relate to `w0` after the
/// process of state `m` (if any) has been stopped: that process is dead and
/// received the exit line exactly when its input stream was open; every
/// other process is untouched.
pub open spec fn stopped_prefix(m: ServerManager, w0: World, w1: World) -> bool {
    match m.current_process {
        None => forall|i: int| 0 <= i < w0.procs@.len() ==> w1.procs@[i] == w0.procs@[i],
        Some(h) => {
            let p0 = w0.procs@[h.idx as int];
            let p1 = w1.procs@[h.idx as int];
            &&& forall|i: int|
                0 <= i < w0.procs@.len() && i != h.idx as int ==> w1.procs@[i] == w0.procs@[i]
            &&& p1.pid == p0.pid
            &&& p1.path == p0.path
            &&& !p1.alive
            &&& p1.honors_exit == p0.honors_exit
            &&& if h.stdin_open {
                appended_line(p0.input@, p1.input@, "exit\n"@)
            } else {
                p1.input@ == p0.input@
            }
        },
    }
}

/// The full effect of a stop request on the world.
pub open spec fn stop_world_rel(m: ServerManager, w0: World, w1: World) -> bool {
    &&& w1.procs@.len() == w0.procs@.len()
    &&& stopped_prefix(m, w0, w1)
    &&& w1.next_pid == w0.next_pid
    &&& w1.spawn_ok == w0.spawn_ok
    &&& w1.honors_exit == w0.honors_exit
    &&& w1.log@ == w0.log@ + stop_events(m, w0)
}

/// The full effect of a start request on the world: the stale process of
/// state `m0` (if any) is stopped first, then a fresh process bound to
/// `spawn_path` is spawned — or the spawn is refused and the table is left
/// with no live process.
pub open spec fn start_world_rel(
    m0: ServerManager,
    spawn_path: Seq<char>,
    w0: World,
    w1: World,
    r: Result<u64, SpawnError>,
) -> bool {
    &&& stopped_prefix(m0, w0, w1)
    &&& w1.spawn_ok == w0.spawn_ok
    &&& w1.honors_exit == w0.honors_exit
    &&& if w0.spawn_ok {
        &&& r == Ok::<u64, SpawnError>(w0.next_pid)
        &&& w1.procs@.len() == w0.procs@.len() + 1
        &&& {
            let p = w1.procs@[w0.procs@.len() as int];
            &&& p.pid == w0.next_pid
            &&& p.path@ == spawn_path
            &&& p.alive
            &&& p.honors_exit == w0.honors_exit
            &&& p.input@.len() == 0
        }
        &&& w1.next_pid == w0.next_pid + 1
        &&& w1.log@ == w0.log@ + stop_events(m0, w0) + seq![WorldEvent::Spawned(w0.next_pid)]
    } else {
        &&& r == Err::<u64, SpawnError>(SpawnError::Refused)
        &&& w1.procs@.len() == w0.procs@.len()
        &&& w1.next_pid == w0.next_pid
        &&& w1.log@ == w0.log@ + stop_events(m0, w0) + seq![WorldEvent::SpawnFailed]
    }
}

impl ServerManager {
    /// The supervisor invariant over a world: the world is well-formed, and
    /// the supervisor holds a handle exactly on the unique live process —
    /// or none is live.
    pub open spec fn inv(self, w: World) -> bool {
        &&& w.wf()
        &&& match self.current_process {
            None => w.no_live(),
            Some(h) => {
                &&& h.idx < w.procs@.len()
                &&& w.procs@[h.idx as int].pid == h.pid
                &&& w.procs@[h.idx as int].alive
                &&& forall|i: int|
                    0 <= i < w.procs@.len() && w.procs@[i].alive ==> i == h.idx as int
            },
        }
    }

    /// A supervisor bound to the given executable path, with no process
    /// running.  Returns `None` exactly when the path has no directory part
    /// (it is empty).
    pub fn new(server_path: &str) -> (r: Option<ServerManager>)
        ensures
            r is Some <==> parent_dir_spec(server_path@) is Some,
            r matches Some(m) ==> {
                &&& m.server_path@ == server_path@
                &&& parent_dir_spec(server_path@) == Some(m.server_dir@)
                &&& m.current_process is None
            },
    {
        match parent_dir(server_path) {
            Some(dir) => Some(
                ServerManager {
                    server_path: server_path.to_owned(),
                    server_dir: dir,
                    current_process: None,
                },
            ),
            None => None,
        }
    }

    /// Stops the running process, if any: writes the exit line to its input
    /// stream when that stream is still open, gives it the grace period,
    /// and force-kills it if it is still running afterwards.  Always leaves
    /// the supervisor with no process.  A stop with no process running is a
    /// no-op: no error and no state change.
    pub fn stop_server(&mut self, world: &mut World) -> (r: StopOutcome)
        requires
            old(self).inv(*old(world)),
        ensures
            final(self).inv(*final(world)),
            final(self).current_process is None,
            final(world).no_live(),
            final(self).server_path == old(self).server_path,
            final(self).server_dir == old(self).server_dir,
            r == stop_outcome_spec(*old(self), *old(world)),
            stop_world_rel(*old(self), *old(world), *final(world)),
            old(self).current_process is None ==> *final(world) == *old(world) && *final(self)
                == *old(self),
    {
        let cur = self.current_process;
        match cur {
            None => {
                proof {
                    assert(old(world).log@ + Seq::<WorldEvent>::empty() =~= old(world).log@);
                }
                StopOutcome::NotRunning
            },
            Some(h) => {
                self.current_process = None;
                let ghost procs0 = world.procs@;
                let mut p = world.procs.remove(h.idx);
                // Graceful phase: write the exit line, best effort.
                if h.stdin_open {
                    let line = "exit\n".to_owned();
                    p.input.push(line);
                    world.log.push(WorldEvent::SentExitLine(h.pid));
                }
                // Grace period: an obedient process exits on its own;
                // anything still running afterwards is force-killed.
                let outcome: StopOutcome;
                if h.stdin_open && p.honors_exit {
                    p.alive = false;
                    world.log.push(WorldEvent::ExitedGracefully(h.pid));
                    outcome = StopOutcome::Graceful;
                } else {
                    p.alive = false;
                    world.log.push(WorldEvent::ForceKilled(h.pid));
                    outcome = StopOutcome::Forced;
                }
                world.procs.insert(h.idx, p);
                proof {
                    assert(world.procs@ =~= procs0.update(
                        h.idx as int,
                        world.procs@[h.idx as int],
                    ));
                    assert(world.log@ =~= old(world).log@ + stop_events(*old(self), *old(world)));
                    let p0 = old(world).procs@[h.idx as int];
                    let p1 = world.procs@[h.idx as int];
                    if h.stdin_open {
                        assert(p1.input@.subrange(0, p0.input@.len() as int) =~= p0.input@);
                    }
                }
                outcome
            },
        }
    }

    /// Starts the server process: first stops any stale process (a no-op
    /// when none runs), then spawns the executable at the bound path.  On
    /// success the supervisor holds the handle of the fresh process; on
    /// failure it holds none.
    pub fn start_server(&mut self, world: &mut World) -> (r: Result<u64, SpawnError>)
        requires
            old(self).inv(*old(world)),
            old(world).next_pid < u64::MAX,
        ensures
            final(self).inv(*final(world)),
            final(self).server_path == old(self).server_path,
            final(self).server_dir == old(self).server_dir,
            start_world_rel(
                *old(self),
                old(self).server_path@,
                *old(world),
                *final(world),
                r,
            ),
            r is Ok <==> old(world).spawn_ok,
            r matches Ok(pid) ==> ({
                &&& pid == old(world).next_pid
                &&& final(self).current_process matches Some(h) && h.pid == pid && h.idx == old(
                    world,
                ).procs@.len() && h.stdin_open && !h.stdout_taken && !h.stderr_taken
            }),
            r is Err ==> final(self).current_process is None,
    {
        let _ = self.stop_server(world);
        if !world.spawn_ok {
            world.log.push(WorldEvent::SpawnFailed);
            proof {
                assert(world.log@ =~= old(world).log@ + stop_events(*old(self), *old(world))
                    + seq![WorldEvent::SpawnFailed]);
            }
            return Err(SpawnError::Refused);
        }
        let pid = world.next_pid;
        let idx = world.procs.len();
        let fresh = FakeProcess {
            pid,
            path: self.server_path.clone(),
            alive: true,
            honors_exit: world.honors_exit,
            input: Vec::new(),
        };
        world.procs.push(fresh);
        world.next_pid = pid + 1;
        world.log.push(WorldEvent::Spawned(pid));
        self.current_process = Some(
            ChildHandle { pid, idx, stdin_open: true, stdout_taken: false, stderr_taken: false },
        );
        proof {
            assert(world.log@ =~= old(world).log@ + stop_events(*old(self), *old(world))
                + seq![WorldEvent::Spawned(pid)]);
        }
        Ok(pid)
    }

    /// Writes `command` plus a newline terminator to the running process's
    /// input stream.  Fails with `NotConnected` exactly when no process is
    /// running, and with `BrokenPipe` exactly when one is running but its
    /// input stream is no longer available; a failed send changes nothing.
    pub fn send_command(&self, world: &mut World, command: &str) -> (r: Result<(), SendError>)
        requires
            self.inv(*old(world)),
        ensures
            self.inv(*final(world)),
            r == Err::<(), SendError>(SendError::NotConnected) <==> self.current_process is None,
            r == Err::<(), SendError>(SendError::BrokenPipe) <==> (self.current_process matches
                Some(h) && !h.stdin_open),
            r is Ok <==> (self.current_process matches Some(h) && h.stdin_open),
            r is Err ==> *final(world) == *old(world),
            r is Ok ==> (self.current_process matches Some(h) && {
                &&& final(world).procs@.len() == old(world).procs@.len()
                &&& appended_line(
                    old(world).procs@[h.idx as int].input@,
                    final(world).procs@[h.idx as int].input@,
                    command@ + "\n"@,
                )
                &&& final(world).procs@[h.idx as int].pid == old(world).procs@[h.idx as int].pid
                &&& final(world).procs@[h.idx as int].path == old(world).procs@[h.idx as int].path
                &&& final(world).procs@[h.idx as int].alive == old(world).procs@[h.idx
                    as int].alive
                &&& final(world).procs@[h.idx as int].honors_exit == old(world).procs@[h.idx
                    as int].honors_exit
                &&& forall|i: int|
                    0 <= i < old(world).procs@.len() && i != h.idx as int ==> final(world).procs@[i]
                        == old(world).procs@[i]
                &&& final(world).next_pid == old(world).next_pid
                &&& final(world).spawn_ok == old(world).spawn_ok
                &&& final(world).honors_exit == old(world).honors_exit
                &&& final(world).log@ == old(world).log@
            }),
    {
        let cur = self.current_process;
        match cur {
            None => Err(SendError::NotConnected),
            Some(h) => {
                if !h.stdin_open {
                    return Err(SendError::BrokenPipe);
                }
                let ghost procs0 = world.procs@;
                let mut line = command.to_owned();
                line.append("\n");
                let mut p = world.procs.remove(h.idx);
                p.input.push(line);
                world.procs.insert(h.idx, p);
                proof {
                    assert(world.procs@ =~= procs0.update(
                        h.idx as int,
                        world.procs@[h.idx as int],
                    ));
                    let p0 = old(world).procs@[h.idx as int];
                    let p1 = world.procs@[h.idx as int];
                    assert(p1.input@.subrange(0, p0.input@.len() as int) =~= p0.input@);
                }
                Ok(())
            },
        }
    }

    /// Hands the running process's output and error streams to stream
    /// pipers.  Each stream can be taken at most once per process lifetime;
    /// the result says which streams were newly handed out.  A no-op when
    /// no process is running.
    pub fn pipe_output(&mut self) -> (r: PipeStart)
        ensures
            forall|w: World| old(self).inv(w) ==> final(self).inv(w),
            final(self).server_path == old(self).server_path,
            final(self).server_dir == old(self).server_dir,
            old(self).current_process is None ==> *final(self) == *old(self) && r == (PipeStart {
                stdout: false,
                stderr: false,
            }),
            old(self).current_process matches Some(h) ==> r == (PipeStart {
                stdout: !h.stdout_taken,
                stderr: !h.stderr_taken,
            }) && final(self).current_process == Some(
                ChildHandle { stdout_taken: true, stderr_taken: true, ..h },
            ),
    {
        let cur = self.current_process;
        match cur {
            None => PipeStart { stdout: false, stderr: false },
            Some(h) => {
                self.current_process = Some(
                    ChildHandle { stdout_taken: true, stderr_taken: true, ..h },
                );
                PipeStart { stdout: !h.stdout_taken, stderr: !h.stderr_taken }
            },
        }
    }

    /// Models the running process's input stream becoming unavailable (the
    /// write end closed).  After this, sending a command fails with
    /// `BrokenPipe`, and a stop can no longer deliver the exit line.
    pub fn close_input(&mut self)
        ensures
            forall|w: World| old(self).inv(w) ==> final(self).inv(w),
            final(self).server_path == old(self).server_path,
            final(self).server_dir == old(self).server_dir,
            old(self).current_process is None ==> *final(self) == *old(self),
            old(self).current_process matches Some(h) ==> final(self).current_process == Some(
                ChildHandle { stdin_open: false, ..h },
            ),
    {
        let cur = self.current_process;
        match cur {
            None => (),
            Some(h) => {
                self.current_process = Some(ChildHandle { stdin_open: false, ..h });
            },
        }
    }
}

} // verus!

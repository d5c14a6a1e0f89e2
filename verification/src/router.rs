//! The command router: the single consumer of operator intents, serializing
//! every lifecycle operation against the process supervisor.

use vstd::prelude::*;

use crate::manager::PipeStart;
use crate::manager::SendError;
use crate::manager::ServerManager;
use crate::manager::SpawnError;
use crate::manager::StopOutcome;
use crate::manager::appended_line;
use crate::manager::start_world_rel;
use crate::manager::stop_outcome_spec;
use crate::manager::stop_world_rel;
use crate::message::CommandMessage;
use crate::textops::parent_dir_spec;
use crate::world::World;

verus! {

/// What one routed intent did, for the console log.
#[derive(Clone, Copy, PartialEq, Eq, Debug)]
pub enum StepReport {
    /// A start was requested: the spawn result and which output streams
    /// were newly handed to pipers.
    Started(Result<u64, SpawnError>, PipeStart),
    /// A stop was requested.
    Stopped(StopOutcome),
    /// A restart was requested: the stop outcome, then the spawn result.
    Restarted(StopOutcome, Result<u64, SpawnError>, PipeStart),
    /// A command was forwarded to the server's input stream.
    Sent(Result<(), SendError>),
    /// A path change was requested: the stop outcome, then the spawn result
    /// under the new path, or `None` when the new path was unusable (empty).
    PathUpdated(StopOutcome, Option<Result<u64, SpawnError>>, PipeStart),
    /// The exit intent: the final stop outcome; the router loop ends here.
    Exiting(StopOutcome),
}

/// Routes one operator intent against the supervisor.  Intents are handled
/// strictly one at a time; this is the only place supervisor state changes.
pub fn handle_message(manager: &mut ServerManager, world: &mut World, msg: CommandMessage) -> (r:
    StepReport)
    requires
        old(manager).inv(*old(world)),
        old(world).next_pid < u64::MAX,
    ensures
        final(manager).inv(*final(world)),
        final(world).next_pid <= old(world).next_pid + 1,
        msg is Exit ==> ({
            &&& r == StepReport::Exiting(stop_outcome_spec(*old(manager), *old(world)))
            &&& stop_world_rel(*old(manager), *old(world), *final(world))
            &&& final(manager).current_process is None
            &&& final(world).no_live()
        }),
        msg is StopServer ==> ({
            &&& r == StepReport::Stopped(stop_outcome_spec(*old(manager), *old(world)))
            &&& stop_world_rel(*old(manager), *old(world), *final(world))
            &&& final(manager).current_process is None
            &&& old(manager).current_process is None ==> *final(world) == *old(world)
                && *final(manager) == *old(manager)
        }),
        msg is StartServer ==> ({
            &&& r matches StepReport::Started(res, pipe) && start_world_rel(
                *old(manager),
                old(manager).server_path@,
                *old(world),
                *final(world),
                res,
            ) && (res is Ok <==> old(world).spawn_ok) && pipe == (PipeStart {
                stdout: res is Ok,
                stderr: res is Ok,
            }) && (res is Err ==> final(manager).current_process is None)
            &&& final(manager).server_path == old(manager).server_path
        }),
        msg is RestartServer ==> ({
            &&& r matches StepReport::Restarted(outcome, res, pipe) && outcome
                == stop_outcome_spec(*old(manager), *old(world)) && start_world_rel(
                *old(manager),
                old(manager).server_path@,
                *old(world),
                *final(world),
                res,
            ) && (res is Ok <==> old(world).spawn_ok) && pipe == (PipeStart {
                stdout: res is Ok,
                stderr: res is Ok,
            })
            &&& final(manager).server_path == old(manager).server_path
        }),
        msg matches CommandMessage::SendCommand(cmd) ==> ({
            &&& r matches StepReport::Sent(res) && (res == Err::<(), SendError>(
                SendError::NotConnected,
            ) <==> old(manager).current_process is None) && (res == Err::<(), SendError>(
                SendError::BrokenPipe,
            ) <==> (old(manager).current_process matches Some(h) && !h.stdin_open)) && (res is Ok
                <==> (old(manager).current_process matches Some(h) && h.stdin_open)) && (res
                is Err ==> *final(world) == *old(world)) && (res is Ok ==> (old(
                manager,
            ).current_process matches Some(h) && appended_line(
                old(world).procs@[h.idx as int].input@,
                final(world).procs@[h.idx as int].input@,
                cmd@ + "\n"@,
            )))
            &&& *final(manager) == *old(manager)
        }),
        msg matches CommandMessage::UpdateServerPath(p) ==> ({
            &&& r matches StepReport::PathUpdated(outcome, res_opt, pipe) && outcome
                == stop_outcome_spec(*old(manager), *old(world)) && (res_opt is Some <==>
            parent_dir_spec(p@) is Some) && (match res_opt {
                None => stop_world_rel(*old(manager), *old(world), *final(world))
                    && final(manager).current_process is None && final(manager).server_path == old(
                    manager,
                ).server_path,
                Some(res) => start_world_rel(*old(manager), p@, *old(world), *final(world), res)
                    && final(manager).server_path@ == p@ && parent_dir_spec(p@) == Some(
                    final(manager).server_dir@,
                ) && (res is Ok <==> old(world).spawn_ok) && pipe == (PipeStart {
                    stdout: res is Ok,
                    stderr: res is Ok,
                }),
            })
            &&& (parent_dir_spec(p@) is Some && old(world).spawn_ok
                ==> final(world).procs@.last().path@ == p@)
        }),
{
    match msg {
        CommandMessage::StartServer => {
            let res = manager.start_server(world);
            match res {
                Ok(pid) => {
                    let pipe = manager.pipe_output();
                    StepReport::Started(Ok(pid), pipe)
                },
                Err(e) => StepReport::Started(Err(e), PipeStart { stdout: false, stderr: false }),
            }
        },
        CommandMessage::StopServer => {
            let outcome = manager.stop_server(world);
            StepReport::Stopped(outcome)
        },
        CommandMessage::RestartServer => {
            let ghost m0 = *manager;
            let ghost w0 = *world;
            let outcome = manager.stop_server(world);
            let ghost w_mid = *world;
            let res = manager.start_server(world);
            proof {
                lemma_compose_stop_start(m0, w0, w_mid, *world, res, m0.server_path@);
            }
            match res {
                Ok(pid) => {
                    let pipe = manager.pipe_output();
                    StepReport::Restarted(outcome, Ok(pid), pipe)
                },
                Err(e) => StepReport::Restarted(
                    outcome,
                    Err(e),
                    PipeStart { stdout: false, stderr: false },
                ),
            }
        },
        CommandMessage::SendCommand(cmd) => {
            let res = manager.send_command(world, cmd.as_str());
            StepReport::Sent(res)
        },
        CommandMessage::UpdateServerPath(p) => {
            let ghost m0 = *manager;
            let ghost w0 = *world;
            let outcome = manager.stop_server(world);
            let ghost w_mid = *world;
            match ServerManager::new(p.as_str()) {
                None => StepReport::PathUpdated(
                    outcome,
                    None,
                    PipeStart { stdout: false, stderr: false },
                ),
                Some(fresh) => {
                    *manager = fresh;
                    let res = manager.start_server(world);
                    proof {
                        lemma_compose_stop_start(m0, w0, w_mid, *world, res, p@);
                    }
                    match res {
                        Ok(pid) => {
                            let pipe = manager.pipe_output();
                            StepReport::PathUpdated(outcome, Some(Ok(pid)), pipe)
                        },
                        Err(e) => StepReport::PathUpdated(
                            outcome,
                            Some(Err(e)),
                            PipeStart { stdout: false, stderr: false },
                        ),
                    }
                },
            }
        },
        CommandMessage::Exit => {
            let outcome = manager.stop_server(world);
            StepReport::Exiting(outcome)
        },
    }
}

/// Routes a whole sequence of intents, strictly in arrival order, one at a
/// time, and reports what each one did.  Each step's exact effect is the
/// contract of [`handle_message`]; the supervisor invariant holds again
/// after every single step, so at no instant is more than one process live.
pub fn run_messages(manager: &mut ServerManager, world: &mut World, msgs: Vec<CommandMessage>) -> (
    reports: Vec<StepReport>)
    requires
        old(manager).inv(*old(world)),
        old(world).next_pid + msgs@.len() <= u64::MAX,
    ensures
        final(manager).inv(*final(world)),
        final(world).at_most_one_live(),
        reports@.len() == msgs@.len(),
{
    let ghost total = msgs@.len();
    let mut queue = msgs;
    let mut reports: Vec<StepReport> = Vec::new();
    proof {
        crate::laws::lemma_at_most_one_live(*manager, *world);
    }
    while queue.len() > 0
        invariant
            manager.inv(*world),
            world.at_most_one_live(),
            world.next_pid + queue@.len() <= u64::MAX,
            reports@.len() + queue@.len() == total,
        decreases queue@.len(),
    {
        let msg = queue.remove(0);
        let report = handle_message(manager, world, msg);
        reports.push(report);
        proof {
            crate::laws::lemma_at_most_one_live(*manager, *world);
        }
    }
    reports
}

/// Stopping and then starting has, over the world, exactly the effect of a
/// single start request (which itself stops any stale process first).
proof fn lemma_compose_stop_start(
    m0: ServerManager,
    w0: World,
    w_mid: World,
    w1: World,
    res: Result<u64, SpawnError>,
    spawn_path: Seq<char>,
)
    requires
        m0.inv(w0),
        stop_world_rel(m0, w0, w_mid),
        ({
            let m_stopped = ServerManager {
                current_process: None,
                ..m0
            };
            start_world_rel(m_stopped, spawn_path, w_mid, w1, res)
        }),
    ensures
        start_world_rel(m0, spawn_path, w0, w1, res),
{
    let m_stopped = ServerManager { current_process: None, ..m0 };
    assert(w_mid.log@ + crate::manager::stop_events(m_stopped, w_mid) =~= w_mid.log@);
    if w0.spawn_ok {
        assert(w1.log@ =~= w0.log@ + crate::manager::stop_events(m0, w0) + seq![
            crate::world::WorldEvent::Spawned(w0.next_pid),
        ]);
    } else {
        assert(w1.log@ =~= w0.log@ + crate::manager::stop_events(m0, w0) + seq![
            crate::world::WorldEvent::SpawnFailed,
        ]);
    }
}

} // verus!

use spt_server_manager::manager::PipeStart;
use spt_server_manager::manager::SendError;
use spt_server_manager::manager::ServerManager;
use spt_server_manager::manager::SpawnError;
use spt_server_manager::manager::StopOutcome;
use spt_server_manager::message::CommandMessage;
use spt_server_manager::router::StepReport;
use spt_server_manager::router::handle_message;
use spt_server_manager::router::run_messages;
use spt_server_manager::world::World;
use spt_server_manager::world::WorldEvent;

fn obedient_world() -> World {
    World::new(true, true)
}

fn manager_at(path: &str) -> ServerManager {
    ServerManager::new(path).expect("a non-empty path has a directory part")
}

fn live_count(w: &World) -> usize {
    w.procs.iter().filter(|p| p.alive).count()
}

#[test]
fn at_most_one_process_is_live_across_any_intent_sequence() {
    let mut world = obedient_world();
    let mut manager = manager_at("srv/app.exe");
    let intents = vec![
        CommandMessage::StartServer,
        CommandMessage::StartServer,
        CommandMessage::RestartServer,
        CommandMessage::StopServer,
        CommandMessage::StopServer,
        CommandMessage::StartServer,
        CommandMessage::RestartServer,
        CommandMessage::Exit,
    ];
    for intent in intents {
        handle_message(&mut manager, &mut world, intent);
        assert!(live_count(&world) <= 1);
    }
    assert_eq!(live_count(&world), 0);
    // Five processes were spawned in all, one at a time.
    assert_eq!(world.procs.len(), 5);
}

#[test]
fn run_messages_routes_in_arrival_order() {
    let mut world = obedient_world();
    let mut manager = manager_at("srv/app.exe");
    let reports = run_messages(
        &mut manager,
        &mut world,
        vec![
            CommandMessage::StartServer,
            CommandMessage::SendCommand(String::from("save")),
            CommandMessage::RestartServer,
            CommandMessage::Exit,
        ],
    );
    assert_eq!(reports.len(), 4);
    assert_eq!(reports[1], StepReport::Sent(Ok(())));
    assert_eq!(reports[3], StepReport::Exiting(StopOutcome::Graceful));
    assert_eq!(live_count(&world), 0);
    // The command arrived on the first process before it was restarted.
    assert_eq!(
        world.procs[0].input,
        vec![String::from("save\n"), String::from("exit\n")]
    );
    assert_eq!(world.procs[1].input, vec![String::from("exit\n")]);
}

#[test]
fn each_output_stream_is_handed_out_at_most_once() {
    let mut world = obedient_world();
    let mut manager = manager_at("srv/app.exe");
    manager.start_server(&mut world).unwrap();
    assert_eq!(
        manager.pipe_output(),
        PipeStart { stdout: true, stderr: true }
    );
    assert_eq!(
        manager.pipe_output(),
        PipeStart { stdout: false, stderr: false }
    );
    // A fresh process brings fresh streams.
    manager.start_server(&mut world).unwrap();
    assert_eq!(
        manager.pipe_output(),
        PipeStart { stdout: true, stderr: true }
    );
    // With no process, piping is a no-op.
    manager.stop_server(&mut world);
    assert_eq!(
        manager.pipe_output(),
        PipeStart { stdout: false, stderr: false }
    );
}

#[test]
fn stop_with_no_process_is_a_no_op() {
    let mut world = obedient_world();
    let mut manager = manager_at("srv/app.exe");
    let outcome = manager.stop_server(&mut world);
    assert_eq!(outcome, StopOutcome::NotRunning);
    assert!(world.procs.is_empty());
    assert!(world.log.is_empty());
    // And again: stop stays idempotent.
    assert_eq!(manager.stop_server(&mut world), StopOutcome::NotRunning);
    assert!(world.log.is_empty());
}

#[test]
fn send_fails_not_connected_without_a_process() {
    let mut world = obedient_world();
    let manager = manager_at("srv/app.exe");
    assert_eq!(
        manager.send_command(&mut world, "status"),
        Err(SendError::NotConnected)
    );
}

#[test]
fn send_delivers_text_plus_newline() {
    let mut world = obedient_world();
    let mut manager = manager_at("srv/app.exe");
    manager.start_server(&mut world).unwrap();
    assert_eq!(manager.send_command(&mut world, "foo bar"), Ok(()));
    assert_eq!(world.procs[0].input, vec![String::from("foo bar\n")]);
}

#[test]
fn send_fails_broken_pipe_once_input_is_closed() {
    let mut world = obedient_world();
    let mut manager = manager_at("srv/app.exe");
    manager.start_server(&mut world).unwrap();
    manager.close_input();
    assert_eq!(
        manager.send_command(&mut world, "status"),
        Err(SendError::BrokenPipe)
    );
    assert!(world.procs[0].input.is_empty());
}

#[test]
fn stop_force_kills_a_process_that_ignores_the_exit_line() {
    // The child does not honor the exit line within the grace period.
    let mut world = World::new(true, false);
    let mut manager = manager_at("srv/app.exe");
    let pid = manager.start_server(&mut world).unwrap();
    let outcome = manager.stop_server(&mut world);
    assert_eq!(outcome, StopOutcome::Forced);
    assert!(!world.procs[0].alive);
    // The exit line was still written first, then the kill.
    assert_eq!(world.procs[0].input, vec![String::from("exit\n")]);
    assert_eq!(
        world.log,
        vec![
            WorldEvent::Spawned(pid),
            WorldEvent::SentExitLine(pid),
            WorldEvent::ForceKilled(pid),
        ]
    );
}

#[test]
fn stop_is_graceful_for_an_obedient_process() {
    let mut world = obedient_world();
    let mut manager = manager_at("srv/app.exe");
    let pid = manager.start_server(&mut world).unwrap();
    assert_eq!(manager.stop_server(&mut world), StopOutcome::Graceful);
    assert_eq!(
        world.log,
        vec![
            WorldEvent::Spawned(pid),
            WorldEvent::SentExitLine(pid),
            WorldEvent::ExitedGracefully(pid),
        ]
    );
}

#[test]
fn restart_stops_the_old_process_before_spawning_the_new_one() {
    let mut world = obedient_world();
    let mut manager = manager_at("srv/app.exe");
    let pid1 = manager.start_server(&mut world).unwrap();
    let report = handle_message(
        &mut manager,
        &mut world,
        CommandMessage::RestartServer,
    );
    match report {
        StepReport::Restarted(outcome, res, pipe) => {
            assert_eq!(outcome, StopOutcome::Graceful);
            let pid2 = res.unwrap();
            assert_ne!(pid1, pid2);
            assert_eq!(pipe, PipeStart { stdout: true, stderr: true });
            // The old process's input received the exit line strictly
            // before the new process was spawned.
            assert_eq!(
                world.log,
                vec![
                    WorldEvent::Spawned(pid1),
                    WorldEvent::SentExitLine(pid1),
                    WorldEvent::ExitedGracefully(pid1),
                    WorldEvent::Spawned(pid2),
                ]
            );
            assert_eq!(world.procs[0].input, vec![String::from("exit\n")]);
        }
        other => panic!("unexpected report: {:?}", other),
    }
}

#[test]
fn update_path_rebinds_the_executable() {
    let mut world = obedient_world();
    let mut manager = manager_at("old/dir/server.exe");
    manager.start_server(&mut world).unwrap();
    let report = handle_message(
        &mut manager,
        &mut world,
        CommandMessage::UpdateServerPath(String::from("new/place/other.exe")),
    );
    match report {
        StepReport::PathUpdated(outcome, res, _pipe) => {
            assert_eq!(outcome, StopOutcome::Graceful);
            assert!(res.unwrap().is_ok());
        }
        other => panic!("unexpected report: {:?}", other),
    }
    assert_eq!(manager.server_path, "new/place/other.exe");
    assert_eq!(manager.server_dir, "new/place");
    // The freshly spawned process runs the new executable, not the old one.
    let last = world.procs.last().unwrap();
    assert!(last.alive);
    assert_eq!(last.path, "new/place/other.exe");
    assert_eq!(world.procs[0].path, "old/dir/server.exe");
    assert!(!world.procs[0].alive);
}

#[test]
fn update_path_with_an_empty_path_only_stops() {
    let mut world = obedient_world();
    let mut manager = manager_at("srv/app.exe");
    manager.start_server(&mut world).unwrap();
    let report = handle_message(
        &mut manager,
        &mut world,
        CommandMessage::UpdateServerPath(String::new()),
    );
    match report {
        StepReport::PathUpdated(outcome, res, pipe) => {
            assert_eq!(outcome, StopOutcome::Graceful);
            assert!(res.is_none());
            assert_eq!(pipe, PipeStart { stdout: false, stderr: false });
        }
        other => panic!("unexpected report: {:?}", other),
    }
    assert_eq!(manager.server_path, "srv/app.exe");
    assert_eq!(live_count(&world), 0);
}

#[test]
fn start_failure_leaves_no_process() {
    let mut world = World::new(false, true);
    let mut manager = manager_at("missing/server.exe");
    let report = handle_message(&mut manager, &mut world, CommandMessage::StartServer);
    assert_eq!(
        report,
        StepReport::Started(
            Err(SpawnError::Refused),
            PipeStart { stdout: false, stderr: false }
        )
    );
    assert!(world.procs.is_empty());
    assert_eq!(world.log, vec![WorldEvent::SpawnFailed]);
}

#[test]
fn scenario_restart_with_nothing_running() {
    let mut world = obedient_world();
    let mut manager = manager_at("srv/app.exe");
    let report = handle_message(&mut manager, &mut world, CommandMessage::RestartServer);
    match report {
        StepReport::Restarted(outcome, res, pipe) => {
            // The attempted stop was a no-op, then the start succeeded
            // with a fresh process identifier.
            assert_eq!(outcome, StopOutcome::NotRunning);
            assert_eq!(res, Ok(1));
            assert_eq!(pipe, PipeStart { stdout: true, stderr: true });
        }
        other => panic!("unexpected report: {:?}", other),
    }
    assert_eq!(world.log, vec![WorldEvent::Spawned(1)]);
}

#[test]
fn scenario_forwarded_command_reaches_the_child_verbatim() {
    let mut world = obedient_world();
    let mut manager = manager_at("srv/app.exe");
    handle_message(&mut manager, &mut world, CommandMessage::StartServer);
    let report = handle_message(
        &mut manager,
        &mut world,
        CommandMessage::SendCommand(String::from("foo bar")),
    );
    assert_eq!(report, StepReport::Sent(Ok(())));
    assert_eq!(world.procs[0].input, vec![String::from("foo bar\n")]);
}

#[test]
fn scenario_stubborn_child_is_stopped_forcefully() {
    let mut world = World::new(true, false);
    let mut manager = manager_at("srv/app.exe");
    handle_message(&mut manager, &mut world, CommandMessage::StartServer);
    let report = handle_message(&mut manager, &mut world, CommandMessage::StopServer);
    assert_eq!(report, StepReport::Stopped(StopOutcome::Forced));
    assert_eq!(live_count(&world), 0);
    assert_eq!(world.log.last(), Some(&WorldEvent::ForceKilled(1)));
}

#[test]
fn scenario_exit_stops_the_child_and_ends_the_loop() {
    let mut world = obedient_world();
    let mut manager = manager_at("srv/app.exe");
    handle_message(&mut manager, &mut world, CommandMessage::StartServer);
    let report = handle_message(&mut manager, &mut world, CommandMessage::Exit);
    assert_eq!(report, StepReport::Exiting(StopOutcome::Graceful));
    assert_eq!(live_count(&world), 0);
    // The child received the exit line before the program wound down.
    assert_eq!(world.procs[0].input, vec![String::from("exit\n")]);
}

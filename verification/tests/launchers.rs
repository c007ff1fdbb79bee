use std::collections::HashMap;

use service_supervisor::error::Error;
use service_supervisor::launcher::handlers::{
    pid_number, spawned, wire_pid, RestartHandler, TerminateHandler,
};
use service_supervisor::launcher::server::{
    after_tick, dispatch, handle_message, handle_signal, run, supervisor_cmd, supervisor_env,
    tick_result, LoopAction, MessageAction, MessageKind, SignalAction, SignalEvent, SpawnPlan,
    TickState, ERR_NO_RETRY_EXCODE, OK_NO_RETRY_EXCODE,
};
use service_supervisor::launcher::service::{
    kill_deadline, pid_to_signal, ExitStatus, Process, Service, ServiceStatus, StoppingService,
    WaitOutcome,
};
use service_supervisor::launcher::table::{find, pids_of, ServiceTable, StoppingServices};
use service_supervisor::protocol::launcher::{Restart, Spawn, Terminate};
use service_supervisor::protocol::net::ErrCode;
use service_supervisor::signal::Signal;

fn spawn_request(id: &str) -> Spawn {
    let mut spawn = Spawn::new();
    spawn.set_id(id.to_string());
    spawn.set_binary(format!("/hab/svc/{}/run", id));
    spawn.set_svc_user("hab".to_string());
    spawn.set_svc_group("hab".to_string());
    spawn
}

fn service(id: &str, pid: i32) -> Service {
    Service::new(spawn_request(id), Process::new(pid))
}

fn sorted(mut pids: Vec<i32>) -> Vec<i32> {
    pids.sort();
    pids
}

#[test]
fn a_group_leader_is_signalled_as_a_group() {
    assert_eq!(pid_to_signal(100, 100), -100);
    assert_eq!(pid_to_signal(100, 99), 100);
    assert_eq!(pid_to_signal(100, -1), 100);
    assert_eq!(pid_to_signal(i32::MIN, i32::MIN), i32::MIN);
    assert_eq!(pid_to_signal(i32::MAX, i32::MAX), -i32::MAX);
}

#[test]
fn the_kill_time_is_the_timeout_after_now() {
    assert_eq!(kill_deadline(1_000, Some(8)), Some(8_000_001_000));
    assert_eq!(kill_deadline(0, Some(0)), Some(0));
    assert_eq!(kill_deadline(5, None), None);
    assert_eq!(kill_deadline(u64::MAX, Some(1)), Some(u64::MAX));
    assert_eq!(kill_deadline(0, Some(u64::MAX)), Some(u64::MAX));

    let process = Process::new(4711);
    let plan = process.shutdown_plan(4711, 2_000_000_000, Signal::TERM, Some(8));
    assert_eq!(plan.target, -4711);
    assert_eq!(plan.signal, Signal::TERM);
    assert_eq!(plan.kill_time, Some(10_000_000_000));
    let plan = process.shutdown_plan(1, 5, Signal::INT, None);
    assert_eq!(plan.target, 4711);
    assert_eq!(plan.signal, Signal::INT);
    assert_eq!(plan.kill_time, None);

    let mut process = Process::new(4711);
    let plan = process.kill(1);
    assert_eq!(plan.target, 4711);
    assert_eq!(plan.signal, Signal::TERM);
    assert!(plan.kill_time.unwrap() >= 8_000_000_000);
}

#[test]
fn an_exit_status_is_decoded() {
    assert_eq!(ExitStatus::from_raw(0).code(), Some(0));
    assert_eq!(ExitStatus::from_raw(1 << 8).code(), Some(1));
    assert_eq!(ExitStatus::from_raw(86 << 8).code(), Some(86));
    assert_eq!(ExitStatus::from_raw(255 << 8).code(), Some(255));
    // Ended on signal 9 or 15.
    assert_eq!(ExitStatus::from_raw(9).code(), None);
    assert_eq!(ExitStatus::from_raw(15).code(), None);
}

#[test]
fn a_process_remembers_how_it_ended() {
    let mut process = Process::new(7);
    assert_eq!(process.id(), 7);
    assert_eq!(process.try_wait(WaitOutcome::Running), Ok(None));
    assert_eq!(process.try_wait(WaitOutcome::Failed), Err(Error::ExecWait));
    assert_eq!(process.status, None);
    assert_eq!(
        process.try_wait(WaitOutcome::Exited(256)),
        Ok(Some(ExitStatus { raw: 256 }))
    );
    // From now on the status is known, whatever waiting finds.
    assert_eq!(
        process.try_wait(WaitOutcome::Running),
        Ok(Some(ExitStatus { raw: 256 }))
    );
    assert_eq!(process.wait(None), Ok(ExitStatus { raw: 256 }));
    assert_eq!(process.wait(Some(0)), Ok(ExitStatus { raw: 256 }));

    let mut other = Process::new(8);
    assert_eq!(other.wait(None), Err(Error::ExecWait));
    assert_eq!(other.wait(Some(512)), Ok(ExitStatus { raw: 512 }));
}

#[test]
fn a_service_keeps_its_request_and_its_status() {
    let mut svc = service("redis.default", 4711);
    assert_eq!(svc.id(), 4711);
    assert_eq!(svc.name(), "redis.default");
    assert_eq!(svc.args(), &spawn_request("redis.default"));
    assert_eq!(svc.get_current_status(), ServiceStatus::Running);
    assert_eq!(ServiceStatus::default(), ServiceStatus::Running);
    svc.set_current_status(ServiceStatus::Restarting);
    assert_eq!(svc.get_current_status(), ServiceStatus::Restarting);
    assert_eq!(svc.kill_time, None);

    let plan = svc.kill(4711);
    assert_eq!(plan.target, -4711);
    assert_eq!(svc.kill_time, plan.kill_time);
    assert!(svc.kill_time.is_some());

    assert_eq!(svc.try_wait(WaitOutcome::Running), Ok(None));
    assert_eq!(svc.wait(Some(0)), Ok(ExitStatus { raw: 0 }));
    assert_eq!(svc.take_args(), spawn_request("redis.default"));

    let (stopping, plan) = service("nginx.default", 12).shutdown(1);
    assert_eq!(stopping.pid(), 12);
    assert_eq!(stopping.status(), None);
    assert_eq!(stopping.kill_time(), plan.kill_time);
    assert_eq!(plan.target, 12);
}

#[test]
fn stopping_services_leave_when_their_time_is_up_or_they_have_ended() {
    let mut stopping = StoppingServices::new();
    // 1: time up. 2: time not up, still runs. 3: time not up, has ended.
    // 4: waits without end, has ended. 5: waits without end, still runs.
    // 6: time up and has ended: it is due, and is handed out to be killed.
    stopping.add(StoppingService::new(Process::new(1), Some(100)));
    stopping.add(StoppingService::new(Process::new(2), Some(200)));
    stopping.add(StoppingService::new(Process::new(3), Some(200)));
    stopping.add(StoppingService::new(Process::new(4), None));
    stopping.add(StoppingService::new(Process::new(5), None));
    stopping.add(StoppingService::new(Process::new(6), Some(150)));
    assert_eq!(sorted(stopping.pids()), vec![1, 2, 3, 4, 5, 6]);
    assert_eq!(sorted(stopping.awaited(150)), vec![2, 3, 4, 5]);

    let mut waits = HashMap::new();
    waits.insert(2, WaitOutcome::Running);
    waits.insert(3, WaitOutcome::Exited(0));
    waits.insert(4, WaitOutcome::Exited(9));
    waits.insert(6, WaitOutcome::Exited(0));
    // No word of 5: it was not waited for.

    let finished = stopping.take_finished(150, &waits);
    let killed: Vec<i32> = finished.to_kill.iter().map(|s| s.pid()).collect();
    let ended: Vec<i32> = finished.stopped.iter().map(|s| s.pid()).collect();
    assert_eq!(sorted(killed), vec![1, 6]);
    assert_eq!(sorted(ended), vec![3, 4]);
    for s in &finished.stopped {
        assert!(s.status().is_some());
    }
    assert_eq!(sorted(stopping.pids()), vec![2, 5]);

    // What is to be killed is handed out once.
    let again = stopping.take_finished(150, &waits);
    assert!(again.to_kill.is_empty());
    assert!(again.stopped.is_empty());

    // A wait that failed lets the service stay.
    let mut failed = HashMap::new();
    failed.insert(2, WaitOutcome::Failed);
    let later = stopping.take_finished(199, &failed);
    assert!(later.to_kill.is_empty() && later.stopped.is_empty());
    let last = stopping.take_finished(200, &HashMap::new());
    assert_eq!(last.to_kill.len(), 1);
    assert_eq!(last.to_kill[0].pid(), 2);
    assert_eq!(sorted(stopping.pids()), vec![5]);
}

#[test]
fn the_table_holds_each_service_under_its_pid() {
    let mut table = ServiceTable::new();
    assert!(table.get(1).is_none());
    table.insert(service("redis.default", 1));
    table.insert(service("nginx.default", 2));
    assert_eq!(table.get(1).unwrap().name(), "redis.default");
    assert_eq!(table.get(2).unwrap().name(), "nginx.default");
    assert!(table.get(3).is_none());
    assert_eq!(sorted(table.pids()), vec![1, 2]);

    table
        .get_mut(1)
        .unwrap()
        .set_current_status(ServiceStatus::ShuttingDown);
    assert_eq!(
        table.get(1).unwrap().get_current_status(),
        ServiceStatus::ShuttingDown
    );
    assert!(table.get_mut(3).is_none());

    assert_eq!(table.remove(1).map(|s| s.id()), Some(1));
    assert!(table.remove(1).is_none());
    assert_eq!(table.pids(), vec![2]);

    table.register_stopping_service(StoppingService::new(Process::new(9), Some(10)));
    assert_eq!(table.awaited(5), vec![9]);
    assert!(table.awaited(10).is_empty());
    let finished = table.handle_stopping_services(10, &HashMap::new());
    assert_eq!(finished.to_kill.len(), 1);
    assert!(finished.stopped.is_empty());
    let mut map = HashMap::new();
    map.insert(5, 'a');
    assert_eq!(pids_of(&map), vec![5]);
    assert_eq!(find(&map, 5), Some('a'));
    assert_eq!(find(&map, 6), None);
}

#[test]
fn the_dead_are_reaped() {
    let mut table = ServiceTable::new();
    for pid in 1..=5 {
        table.insert(service("svc", pid));
    }
    // 4 is known to have ended already.
    table
        .get_mut(4)
        .unwrap()
        .try_wait(WaitOutcome::Exited(256))
        .unwrap();

    let mut waits = HashMap::new();
    waits.insert(1, WaitOutcome::Running);
    waits.insert(2, WaitOutcome::Exited(0));
    waits.insert(3, WaitOutcome::Failed);
    waits.insert(4, WaitOutcome::Running);
    // No word of 5.

    let mut dead = table.reap_zombies(&waits);
    dead.sort_by_key(|d| d.0);
    assert_eq!(
        dead,
        vec![
            (2, Some(ExitStatus { raw: 0 })),
            (3, None),
            (4, Some(ExitStatus { raw: 256 })),
        ]
    );
    assert_eq!(sorted(table.pids()), vec![1, 5]);
    assert!(table.reap_zombies(&HashMap::new()).is_empty());
}

#[test]
fn all_services_are_asked_to_end() {
    let mut table = ServiceTable::new();
    table.insert(service("redis.default", 10));
    table.insert(service("nginx.default", 20));
    table.register_stopping_service(StoppingService::new(Process::new(30), None));

    let mut pgids = HashMap::new();
    pgids.insert(10, 10);
    pgids.insert(20, 5);

    let mut plans = table.kill_all(&pgids);
    plans.sort_by_key(|p| p.0);
    assert_eq!(plans.len(), 2);
    assert_eq!((plans[0].0, plans[0].1.target), (10, -10));
    assert_eq!((plans[1].0, plans[1].1.target), (20, 20));
    for (_, plan) in &plans {
        assert_eq!(plan.signal, Signal::TERM);
        assert!(plan.kill_time.is_some());
    }
    assert!(table.pids().is_empty());
    // They are now among the services that were asked to end.
    assert_eq!(sorted(table.awaited(0)), vec![10, 20, 30]);
    assert!(table.kill_all(&pgids).is_empty());
}

#[test]
fn pids_travel_as_unsigned_numbers() {
    assert_eq!(wire_pid(0), 0);
    assert_eq!(wire_pid(4711), 4711);
    assert_eq!(wire_pid(u32::MAX), -1);
    assert_eq!(wire_pid(0x8000_0000), i32::MIN);
    assert_eq!(pid_number(4711), 4711);
    assert_eq!(pid_number(-1), u32::MAX);
    assert_eq!(pid_number(i32::MIN), 0x8000_0000);
    for pid in &[0, 1, -1, i32::MAX, i32::MIN] {
        assert_eq!(wire_pid(pid_number(*pid)), *pid);
    }
}

#[test]
fn a_termination_is_answered_with_the_exit_code() {
    let mut table = ServiceTable::new();
    table.insert(service("redis.default", 4711));
    let mut msg = Terminate::new();
    msg.set_pid(4711);

    let plan = TerminateHandler::begin(&msg, &mut table, 4711).unwrap();
    assert_eq!(plan.target, -4711);
    assert_eq!(plan.signal, Signal::TERM);
    assert_eq!(table.get(4711).unwrap().kill_time, plan.kill_time);

    let reply = TerminateHandler::finish(&msg, &mut table, Some(3 << 8)).unwrap();
    assert_eq!(reply.get_exit_code(), 3);
    assert!(!reply.has_shutdown_method());
    // The service stays in the table, known to have ended, for the reaper.
    assert_eq!(
        table.get(4711).unwrap().process.status,
        Some(ExitStatus { raw: 3 << 8 })
    );

    // A process that ended on a signal has no exit code: zero is told.
    table.insert(service("nginx.default", 5));
    msg.set_pid(5);
    let reply = TerminateHandler::finish(&msg, &mut table, Some(15)).unwrap();
    assert_eq!(reply.get_exit_code(), 0);
    assert!(reply.has_exit_code());

    table.insert(service("mysql.default", 6));
    msg.set_pid(6);
    let failed = TerminateHandler::finish(&msg, &mut table, None).unwrap_err();
    assert_eq!(failed.get_code(), ErrCode::Unknown);
    assert!(table.get(6).is_some());
}

#[test]
fn a_request_for_an_unknown_pid_is_answered_with_no_pid() {
    let mut table = ServiceTable::new();
    table.insert(service("redis.default", 1));

    let mut terminate = Terminate::new();
    terminate.set_pid(2);
    let reply = TerminateHandler::begin(&terminate, &mut table, 2).unwrap_err();
    assert_eq!(reply.get_code(), ErrCode::NoPID);
    assert!(!reply.has_msg());
    let reply = TerminateHandler::finish(&terminate, &mut table, Some(0)).unwrap_err();
    assert_eq!(reply.get_code(), ErrCode::NoPID);

    let mut restart = Restart::new();
    restart.set_pid(2);
    let reply = RestartHandler::begin(&restart, &mut table, 2).unwrap_err();
    assert_eq!(reply.get_code(), ErrCode::NoPID);
    assert_eq!(table.pids(), vec![1]);
}

#[test]
fn a_restart_puts_the_new_process_in_the_place_of_the_old() {
    let mut table = ServiceTable::new();
    table.insert(service("redis.default", 4711));
    let mut msg = Restart::new();
    msg.set_pid(4711);

    let (old, plan) = RestartHandler::begin(&msg, &mut table, 1).unwrap();
    assert_eq!(plan.target, 4711);
    assert_eq!(old.id(), 4711);
    assert!(table.pids().is_empty());

    let reply = RestartHandler::finish(&mut table, old, Some(0), Ok(4800)).unwrap();
    assert_eq!(reply.get_pid(), 4800);
    assert_eq!(table.pids(), vec![4800]);
    assert_eq!(table.get(4800).unwrap().name(), "redis.default");
    assert_eq!(table.get(4800).unwrap().kill_time, None);

    // Where waiting or spawning fails, the failure is the answer and the
    // service is gone from the table.
    msg.set_pid(4800);
    let (old, _) = RestartHandler::begin(&msg, &mut table, 1).unwrap();
    let failed = RestartHandler::finish(&mut table, old, None, Ok(4900)).unwrap_err();
    assert_eq!(failed.get_code(), ErrCode::Unknown);
    assert!(table.pids().is_empty());

    table.insert(service("redis.default", 5000));
    msg.set_pid(5000);
    let (old, _) = RestartHandler::begin(&msg, &mut table, 1).unwrap();
    let failed = RestartHandler::finish(
        &mut table,
        old,
        Some(0),
        Err(Error::UserNotFound("hab".to_string())),
    )
    .unwrap_err();
    assert_eq!(failed.get_code(), ErrCode::Unknown);
    assert!(table.pids().is_empty());

    let reply = spawned(&mut table, spawn_request("nginx.default"), Ok(7)).unwrap();
    assert_eq!(reply.get_pid(), 7);
    assert_eq!(table.get(7).unwrap().name(), "nginx.default");
    assert!(spawned(&mut table, spawn_request("x"), Err(Error::ExecWait)).is_err());
}

#[test]
fn messages_are_told_apart_by_their_names() {
    assert_eq!(MessageKind::from_message_id("Register"), Some(MessageKind::Register));
    assert_eq!(MessageKind::from_message_id("Restart"), Some(MessageKind::Restart));
    assert_eq!(MessageKind::from_message_id("Spawn"), Some(MessageKind::Spawn));
    assert_eq!(MessageKind::from_message_id("Terminate"), Some(MessageKind::Terminate));
    assert_eq!(MessageKind::from_message_id("spawn"), None);
    assert_eq!(MessageKind::from_message_id(""), None);
    for kind in &[
        MessageKind::Register,
        MessageKind::Restart,
        MessageKind::Spawn,
        MessageKind::Terminate,
    ] {
        assert_eq!(MessageKind::from_message_id(kind.message_id()), Some(*kind));
    }
    assert_eq!(dispatch("Restart"), Some(MessageKind::Restart));
    assert_eq!(dispatch("Spawn"), Some(MessageKind::Spawn));
    assert_eq!(dispatch("Terminate"), Some(MessageKind::Terminate));
    // The handshake is no request to serve, and neither is anything else.
    assert_eq!(dispatch("Register"), None);
    assert_eq!(dispatch("Shutdown"), None);
}

#[test]
fn the_end_of_the_supervisor_decides_the_tick() {
    assert_eq!(ERR_NO_RETRY_EXCODE, 86);
    assert_eq!(OK_NO_RETRY_EXCODE, 84);
    assert_eq!(
        handle_message(true, WaitOutcome::Exited(86 << 8)),
        MessageAction::Dispatch
    );
    assert_eq!(handle_message(false, WaitOutcome::Running), MessageAction::Idle);
    assert_eq!(
        handle_message(false, WaitOutcome::Exited(86 << 8)),
        MessageAction::KillAllAndExit(86)
    );
    assert_eq!(
        handle_message(false, WaitOutcome::Exited(84 << 8)),
        MessageAction::KillAllAndExit(0)
    );
    assert_eq!(
        handle_message(false, WaitOutcome::Exited(0)),
        MessageAction::Reload
    );
    assert_eq!(
        handle_message(false, WaitOutcome::Exited(1 << 8)),
        MessageAction::Reload
    );
    assert_eq!(handle_message(false, WaitOutcome::Exited(9)), MessageAction::Reload);
    assert_eq!(handle_message(false, WaitOutcome::Failed), MessageAction::Reload);

    assert_eq!(tick_result(MessageAction::Dispatch), Ok(TickState::Continue));
    assert_eq!(tick_result(MessageAction::Idle), Ok(TickState::Continue));
    assert_eq!(
        tick_result(MessageAction::KillAllAndExit(86)),
        Ok(TickState::Exit(86))
    );
    assert_eq!(tick_result(MessageAction::Reload), Err(Error::SupShutdown));

    assert_eq!(after_tick(&Ok(TickState::Continue)), LoopAction::Sleep(100));
    assert_eq!(after_tick(&Ok(TickState::Exit(3))), LoopAction::Return(3));
    assert_eq!(after_tick(&Err(Error::SupShutdown)), LoopAction::Reload(1_000));

    assert_eq!(handle_signal(None), SignalAction::Proceed);
    assert_eq!(handle_signal(Some(SignalEvent::Shutdown)), SignalAction::Shutdown);
    assert_eq!(
        handle_signal(Some(SignalEvent::Passthrough(Signal::HUP))),
        SignalAction::Forward(Signal::HUP)
    );
}

#[test]
fn the_supervisor_to_run_is_found() {
    assert_eq!(
        supervisor_cmd(Some("/tmp/hab-sup".to_string()), false, None),
        Ok("/tmp/hab-sup".to_string())
    );
    assert_eq!(supervisor_cmd(None, false, None), Err(Error::SupPackageNotFound));
    assert_eq!(
        supervisor_cmd(None, false, Some("/x".to_string())),
        Err(Error::SupPackageNotFound)
    );
    assert_eq!(supervisor_cmd(None, true, None), Err(Error::SupBinaryNotFound));
    assert_eq!(
        supervisor_cmd(None, true, Some("/hab/pkgs/core/hab-sup/bin/hab-sup".to_string())),
        Ok("/hab/pkgs/core/hab-sup/bin/hab-sup".to_string())
    );

    assert_eq!(
        supervisor_env("/tmp/pipe", 4711, false),
        vec![
            ("HAB_LAUNCHER_PIPE".to_string(), "/tmp/pipe".to_string()),
            ("HAB_LAUNCHER_PID".to_string(), "4711".to_string()),
        ]
    );
    assert_eq!(
        supervisor_env("/tmp/pipe", 1, true),
        vec![
            ("HAB_LAUNCHER_LOCK_CLEAN".to_string(), "true".to_string()),
            ("HAB_LAUNCHER_PIPE".to_string(), "/tmp/pipe".to_string()),
            ("HAB_LAUNCHER_PID".to_string(), "1".to_string()),
        ]
    );
}

#[test]
fn a_service_is_spawned_as_its_user_and_group() {
    let mut msg = spawn_request("redis.default");
    msg.set_svc_group("habgroup".to_string());
    msg.set_env(vec![("PATH".to_string(), "/bin".to_string())]);
    assert_eq!(
        run(&msg, Some(42), Some(43)),
        Ok(SpawnPlan {
            binary: "/hab/svc/redis.default/run".to_string(),
            uid: 42,
            gid: 43,
            env: vec![("PATH".to_string(), "/bin".to_string())],
        })
    );
    assert_eq!(
        run(&msg, None, Some(43)),
        Err(Error::UserNotFound("hab".to_string()))
    );
    assert_eq!(
        run(&msg, None, None),
        Err(Error::UserNotFound("hab".to_string()))
    );
    assert_eq!(
        run(&msg, Some(42), None),
        Err(Error::GroupNotFound("habgroup".to_string()))
    );
}

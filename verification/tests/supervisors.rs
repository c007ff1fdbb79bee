use service_supervisor::error::Error;
use service_supervisor::spec::ServiceGroup;
use service_supervisor::supervisor::{
    pid_file_content, pid_file_path, read_pid, take_first_line, PidFileAction, ProcessState,
    Restarted, RestartPlan, Supervisor,
};

fn supervisor() -> Supervisor {
    Supervisor::new(&ServiceGroup::from_str("redis.default").unwrap())
}

#[test]
fn a_new_handle_is_down_without_a_pid() {
    let sup = supervisor();
    assert_eq!(sup.preamble, "redis.default");
    assert_eq!(sup.state, ProcessState::Down);
    assert_eq!(sup.pid, None);
    assert_eq!(sup.pid_file, "/hab/svc/redis/PID");
    assert!(sup.state_entered.nsec >= 0 && sup.state_entered.nsec < 1_000_000_000);
    assert!(sup.state_entered.sec > 1_500_000_000);
    assert_eq!(pid_file_path("nginx"), "/hab/svc/nginx/PID");
}

#[test]
fn the_pid_file_holds_the_pid_that_was_recorded() {
    let mut sup = supervisor();
    assert_eq!(sup.start(Ok(4711), true), Ok(()));
    assert_eq!(sup.state, ProcessState::Up);
    assert_eq!(sup.pid, Some(4711));

    let written = pid_file_content(sup.pid.unwrap());
    assert_eq!(written, "4711");
    assert_eq!(read_pid(&written, &sup.pid_file), Ok(4711));

    // After a stop the PID file is to be removed.
    assert_eq!(sup.pid_to_stop(), Some(4711));
    assert_eq!(sup.stop(Ok(())), (PidFileAction::Remove, Ok(())));
    assert_eq!(sup.state, ProcessState::Down);
}

#[test]
fn every_pid_reads_back_from_its_file() {
    for pid in &[0, 1, 9, 10, 4711, 32768, i32::MAX, -1, i32::MIN] {
        assert_eq!(read_pid(&pid_file_content(*pid), "PID"), Ok(*pid));
    }
}

#[test]
fn a_pid_file_is_read_by_its_first_line() {
    assert_eq!(read_pid("4711\n", "PID"), Ok(4711));
    assert_eq!(read_pid("4711\r\n", "PID"), Ok(4711));
    assert_eq!(read_pid("4711\nmore\n", "PID"), Ok(4711));
    assert_eq!(take_first_line("a\nb"), Some("a".to_string()));
    assert_eq!(take_first_line("\nb"), Some("".to_string()));
    assert_eq!(take_first_line("a\r"), Some("a".to_string()));
    assert_eq!(take_first_line("a\r\r\n"), Some("a\r".to_string()));
    assert_eq!(take_first_line(""), None);

    let corrupt = Err(Error::PidFileCorrupt("/hab/svc/redis/PID".to_string()));
    assert_eq!(read_pid("", "/hab/svc/redis/PID"), corrupt);
    assert_eq!(read_pid("\n4711", "/hab/svc/redis/PID"), corrupt);
    assert_eq!(read_pid("47 11", "/hab/svc/redis/PID"), corrupt);
    assert_eq!(read_pid("pid", "/hab/svc/redis/PID"), corrupt);
    assert_eq!(read_pid("99999999999", "/hab/svc/redis/PID"), corrupt);
}

#[test]
fn a_start_that_fails_leaves_the_handle_as_it_was() {
    let mut sup = supervisor();
    let failure = Error::Launcher("spawn failed".to_string());
    assert_eq!(sup.start(Err(failure.clone()), false), Err(failure));
    assert_eq!(sup.state, ProcessState::Down);
    assert_eq!(sup.pid, None);

    // The PID is recorded even if the PID file cannot be written, but the
    // service does not count as up.
    assert_eq!(
        sup.start(Ok(12), false),
        Err(Error::PidFileIO("/hab/svc/redis/PID".to_string()))
    );
    assert_eq!(sup.pid, Some(12));
    assert_eq!(sup.state, ProcessState::Down);
}

#[test]
fn a_stop_brings_the_service_down_whatever_the_launcher_says() {
    let mut sup = supervisor();
    // Without a PID there is nothing to stop.
    assert_eq!(sup.pid_to_stop(), None);
    assert_eq!(sup.stop(Ok(())), (PidFileAction::Keep, Ok(())));
    assert_eq!(sup.state, ProcessState::Down);

    sup.start(Ok(4711), true).unwrap();
    let failure = Error::Launcher("no such process".to_string());
    assert_eq!(
        sup.stop(Err(failure.clone())),
        (PidFileAction::Remove, Err(failure))
    );
    assert_eq!(sup.state, ProcessState::Down);
}

#[test]
fn a_restart_in_place_takes_the_new_pid() {
    let mut sup = supervisor();
    assert_eq!(sup.restart_plan(), RestartPlan::Fresh);
    sup.start(Ok(4711), true).unwrap();
    assert_eq!(sup.restart_plan(), RestartPlan::InPlace(4711));

    assert_eq!(sup.restart(Ok(4712), true), (PidFileAction::Keep, Restarted::Up));
    assert_eq!(sup.pid, Some(4712));
    assert_eq!(sup.state, ProcessState::Up);

    assert_eq!(
        sup.restart(Ok(4713), false),
        (
            PidFileAction::Keep,
            Restarted::PidFileFailed(Error::PidFileIO("/hab/svc/redis/PID".to_string()))
        )
    );
    assert_eq!(sup.pid, Some(4713));
}

#[test]
fn a_restart_that_fails_falls_back_to_a_fresh_start() {
    let mut sup = supervisor();
    sup.start(Ok(4711), true).unwrap();
    let failure = Error::Launcher("restart failed".to_string());
    assert_eq!(
        sup.restart(Err(failure.clone()), false),
        (PidFileAction::Remove, Restarted::StartAfresh(failure))
    );
    assert_eq!(sup.state, ProcessState::Down);
    assert_eq!(sup.pid, None);
    assert_eq!(sup.restart_plan(), RestartPlan::Fresh);
    assert_eq!(sup.start(Ok(4720), true), Ok(()));
    assert_eq!(sup.state, ProcessState::Up);
}

#[test]
fn the_pid_of_a_running_service_is_found_again_in_its_file() {
    let mut sup = supervisor();
    // Nothing in memory and no file: nothing to check.
    assert_eq!(sup.known_pid(None), Ok(None));
    // Nothing in memory, but a file from an earlier supervisor.
    assert_eq!(sup.known_pid(Some("4711\n")), Ok(Some(4711)));
    assert_eq!(
        sup.known_pid(Some("garbage")),
        Err(Error::PidFileCorrupt("/hab/svc/redis/PID".to_string()))
    );

    assert_eq!(sup.check_process(Some(4711), true), (true, PidFileAction::Keep));
    assert_eq!(sup.state, ProcessState::Up);
    assert_eq!(sup.pid, Some(4711));
    // What is in memory counts before the file.
    assert_eq!(sup.known_pid(Some("1")), Ok(Some(4711)));

    assert_eq!(sup.check_process(Some(4711), false), (false, PidFileAction::Remove));
    assert_eq!(sup.state, ProcessState::Down);
    assert_eq!(sup.pid, None);
    assert_eq!(sup.check_process(None, true), (false, PidFileAction::Remove));
}

#[test]
fn the_state_changes_only_when_it_differs() {
    let mut sup = supervisor();
    let entered = sup.state_entered;
    let later = service_supervisor::clock::Timespec::new(entered.sec + 10, 5);
    sup.enter_state(ProcessState::Down, later);
    assert_eq!(sup.state_entered, entered);
    sup.enter_state(ProcessState::Up, later);
    assert_eq!(sup.state, ProcessState::Up);
    assert_eq!(sup.state_entered, later);
}

#[test]
fn the_status_line_names_the_service_and_its_state() {
    let mut sup = supervisor();
    let (healthy, line) = sup.status().unwrap();
    assert!(!healthy);
    assert!(line.starts_with("redis.default: down for PT"), "{}", line);
    assert!(line.ends_with("S"), "{}", line);

    sup.start(Ok(1), true).unwrap();
    let (healthy, line) = sup.status().unwrap();
    assert!(healthy);
    assert!(line.starts_with("redis.default: up for PT"), "{}", line);

    // At a given time the line is known to the letter.
    let entered = service_supervisor::clock::Timespec::new(1_000, 0);
    sup.state_entered = entered;
    let at = |sec: i64, nsec: i32| service_supervisor::clock::Timespec::new(sec, nsec);
    assert_eq!(
        sup.status_at(at(1_005, 0)),
        (true, "redis.default: up for PT5S".to_string())
    );
    assert_eq!(
        sup.status_at(at(1_000, 250_000_000)).1,
        "redis.default: up for PT0.250S"
    );
    assert_eq!(
        sup.status_at(at(1_000 + 86_400 + 61, 0)).1,
        "redis.default: up for P1DT61S"
    );
    assert_eq!(
        sup.status_at(at(990, 0)).1,
        "redis.default: up for -PT10S"
    );
    assert!(service_supervisor::clock::can_write_span(entered, at(2_000, 0)));
    assert!(!service_supervisor::clock::can_write_span(
        entered,
        at(i64::MAX, 0)
    ));
    assert!(!service_supervisor::clock::can_write_span(
        service_supervisor::clock::Timespec {
            sec: 0,
            nsec: -1
        },
        at(0, 0)
    ));
    // A clock that is out of reach of the time of entry tells nothing.
    sup.state_entered = at(i64::MIN, 0);
    assert_eq!(sup.status(), None);
    assert_eq!(ProcessState::Up.as_str(), "up");
    assert_eq!(ProcessState::Down.as_str(), "down");
}

use service_supervisor::signal::{OsSignal, Signal};

const ALL: [(Signal, i32, &str); 12] = [
    (Signal::HUP, 1, "HUP"),
    (Signal::INT, 2, "INT"),
    (Signal::QUIT, 3, "QUIT"),
    (Signal::ILL, 4, "ILL"),
    (Signal::ABRT, 6, "ABRT"),
    (Signal::FPE, 8, "FPE"),
    (Signal::KILL, 9, "KILL"),
    (Signal::USR1, 10, "USR1"),
    (Signal::SEGV, 11, "SEGV"),
    (Signal::USR2, 12, "USR2"),
    (Signal::ALRM, 14, "ALRM"),
    (Signal::TERM, 15, "TERM"),
];

#[test]
fn every_signal_has_its_number_and_its_name() {
    for (signal, number, name) in ALL.iter() {
        assert_eq!(i32::from(*signal), *number);
        assert_eq!(Signal::from(*number), *signal);
        assert_eq!(signal.os_signal(), *number);
        assert_eq!(Signal::from_signal_code(*number), Some(*signal));
        assert_eq!(signal.as_str(), *name);
        assert_eq!(signal.to_string(), *name);
        assert_eq!(Signal::from_str(name), Ok(*signal));
    }
}

#[test]
fn what_names_no_signal_gives_kill() {
    for number in &[0, 5, 7, 13, 16, -1, 64, i32::MAX, i32::MIN] {
        assert_eq!(Signal::from(*number), Signal::KILL);
        assert_eq!(Signal::from_signal_code(*number), None);
    }
    for name in &["", "term", "SIGTERM", "STOP"] {
        assert_eq!(Signal::from_str(name), Ok(Signal::KILL));
    }
}

//! A service as the launcher sees it: the request that spawned it and the
//! process that runs it.

use vstd::prelude::*;
use crate::clock::steady_clock;
use crate::error::Error;
use crate::protocol::launcher::Spawn;
use crate::signal::Signal;
use crate::supervisor::Pid;

verus! {

/// The seconds that a process gets to end by itself before it is killed.
pub const SHUTDOWN_TIMEOUT_SECS: u64 = 8;

/// The nanoseconds of a second.
pub const NANOS_PER_SEC: u64 = 1_000_000_000;

/// How a process ended, as the operating system reports it to the one that
/// waits for it.
#[derive(Debug, Clone, Copy, PartialEq, Eq, Structural)]
pub struct ExitStatus {
    pub raw: i32,
}

impl ExitStatus {
    /// Whether the process ended by itself, not on a signal.
    pub open spec fn exited(self) -> bool {
        self.raw & 0x7f == 0
    }

    /// The code with which the process ended, if it ended by itself.
    pub open spec fn exit_code(self) -> Option<i32> {
        if self.exited() {
            Some((self.raw >> 8) & 0xff)
        } else {
            None
        }
    }

    /// The status that the operating system reports as `raw`.
    pub fn from_raw(raw: i32) -> (r: ExitStatus)
        ensures
            r.raw == raw,
    {
        ExitStatus { raw }
    }

    /// The code with which the process ended, if it ended by itself.
    pub fn code(&self) -> (r: Option<i32>)
        ensures
            r == self.exit_code(),
    {
        if self.raw & 0x7f == 0 {
            Some((self.raw >> 8) & 0xff)
        } else {
            None
        }
    }
}

/// What waiting for a process without blocking has found.
#[derive(Debug, Clone, Copy, PartialEq, Eq, Structural)]
pub enum WaitOutcome {
    /// The process still runs.
    Running,
    /// The process has ended, with this raw status.
    Exited(i32),
    /// The operating system could not tell.
    Failed,
}

/// What the launcher is about to do with a service.
#[derive(Debug, Clone, Copy, PartialEq, Eq, Structural)]
pub enum ServiceStatus {
    Running,
    ShuttingDown,
    Restarting,
}

impl Default for ServiceStatus {
    fn default() -> (r: ServiceStatus)
        ensures
            r == ServiceStatus::Running,
    {
        ServiceStatus::Running
    }
}

/// How a process is asked to end: which signal goes to whom, and from when
/// on the process is to be killed if it still runs.
#[derive(Debug, Clone, Copy, PartialEq, Eq, Structural)]
pub struct ShutdownPlan {
    /// The PID to signal. A negative number names a whole process group.
    pub target: Pid,
    /// The signal that asks the process to end.
    pub signal: Signal,
    /// The time of the steady clock, in nanoseconds, from which on the
    /// process is to be killed. `None` means to wait without end.
    pub kill_time: Option<u64>,
}

/// The PID to signal so that a process ends with all its descendants: the
/// group of the process, written as the negative of its PID, where the
/// process leads its group; else the process alone.
pub open spec fn signal_target(pid: Pid, pgid: Pid) -> int {
    if pid == pgid && pid > i32::MIN {
        -(pid as int)
    } else {
        pid as int
    }
}

/// The time from which on a process is to be killed that is asked to end at
/// `now` and is given `timeout_secs` seconds: `None` without a timeout. A
/// time beyond the range of the clock counts as its last moment.
pub open spec fn deadline(now: u64, timeout_secs: Option<u64>) -> Option<u64> {
    match timeout_secs {
        None => None,
        Some(secs) => if now + secs * NANOS_PER_SEC > u64::MAX {
            Some(u64::MAX)
        } else {
            Some((now + secs * NANOS_PER_SEC) as u64)
        },
    }
}

/// Whether a process with the kill time `kill_time` is due to be killed at
/// `now`.
pub open spec fn is_due(kill_time: Option<u64>, now: u64) -> bool {
    kill_time matches Some(t) && t <= now
}

/// The PID to signal so that the process `pid`, whose process group is
/// `pgid`, ends with all its descendants.
pub fn pid_to_signal(pid: Pid, pgid: Pid) -> (r: Pid)
    ensures
        r == signal_target(pid, pgid),
{
    if pid == pgid && pid > i32::MIN {
        -pid
    } else {
        pid
    }
}

/// The time from which on a process is to be killed.
pub fn kill_deadline(now: u64, timeout_secs: Option<u64>) -> (r: Option<u64>)
    ensures
        r == deadline(now, timeout_secs),
{
    match timeout_secs {
        None => None,
        Some(secs) => {
            let span = match secs.checked_mul(NANOS_PER_SEC) {
                Some(span) => span,
                None => {
                    return Some(u64::MAX);
                },
            };
            match now.checked_add(span) {
                Some(t) => Some(t),
                None => Some(u64::MAX),
            }
        },
    }
}

/// A process that the launcher has spawned.
#[derive(Debug, Clone, Copy, PartialEq, Eq, Structural)]
pub struct Process {
    pub pid: Pid,
    /// How the process ended, once that is known.
    pub status: Option<ExitStatus>,
}

impl Process {
    /// The process with the PID `pid`, not known to have ended.
    pub fn new(pid: Pid) -> (r: Process)
        ensures
            r == (Process { pid, status: None }),
    {
        Process { pid, status: None }
    }

    /// The PID of the process.
    pub fn id(&self) -> (r: Pid)
        ensures
            r == self.pid,
    {
        self.pid
    }

    /// How the process is asked to end at the time `now` of the steady
    /// clock with the signal `signal`, where `pgid` is its process group
    /// and it is given `timeout_secs` seconds.
    pub fn shutdown_plan(&self, pgid: Pid, now: u64, signal: Signal, timeout_secs: Option<u64>) -> (r:
        ShutdownPlan)
        ensures
            r.target == signal_target(self.pid, pgid),
            r.signal == signal,
            r.kill_time == deadline(now, timeout_secs),
    {
        ShutdownPlan {
            target: pid_to_signal(self.pid, pgid),
            signal,
            kill_time: kill_deadline(now, timeout_secs),
        }
    }

    /// How the process is asked to end now, with the usual signal and the
    /// usual timeout: the signal, its target, and a kill time after now by
    /// the steady clock.
    pub fn kill(&mut self, pgid: Pid) -> (r: ShutdownPlan)
        ensures
            *final(self) == *old(self),
            r.target == signal_target(old(self).pid, pgid),
            r.signal == Signal::TERM,
            exists|now: u64| r.kill_time == deadline(now, Some(SHUTDOWN_TIMEOUT_SECS)),
    {
        let now = steady_clock();
        self.shutdown_plan(pgid, now, Signal::TERM, Some(SHUTDOWN_TIMEOUT_SECS))
    }

    /// Takes note of what waiting without blocking has found. A status that
    /// is known already stays and is given again, whatever was found.
    pub fn try_wait(&mut self, outcome: WaitOutcome) -> (r: Result<Option<ExitStatus>, Error>)
        ensures
            final(self).pid == old(self).pid,
            old(self).status is Some ==> *final(self) == *old(self) && r == Ok::<
                Option<ExitStatus>,
                Error,
            >(old(self).status),
            old(self).status is None ==> match outcome {
                WaitOutcome::Running => *final(self) == *old(self) && r == Ok::<
                    Option<ExitStatus>,
                    Error,
                >(None),
                WaitOutcome::Exited(raw) => final(self).status == Some(ExitStatus { raw }) && r
                    == Ok::<Option<ExitStatus>, Error>(Some(ExitStatus { raw })),
                WaitOutcome::Failed => *final(self) == *old(self) && r == Err::<
                    Option<ExitStatus>,
                    Error,
                >(Error::ExecWait),
            },
    {
        if let Some(status) = self.status {
            return Ok(Some(status));
        }
        match outcome {
            WaitOutcome::Running => Ok(None),
            WaitOutcome::Exited(raw) => {
                let status = ExitStatus::from_raw(raw);
                self.status = Some(status);
                Ok(Some(status))
            },
            WaitOutcome::Failed => Err(Error::ExecWait),
        }
    }

    /// Takes note of what waiting for the end of the process has found: its
    /// raw status, or nothing where waiting failed. A status that is known
    /// already stays and is given again.
    pub fn wait(&mut self, waited: Option<i32>) -> (r: Result<ExitStatus, Error>)
        ensures
            final(self).pid == old(self).pid,
            old(self).status is Some ==> *final(self) == *old(self) && r == Ok::<ExitStatus, Error>(
                old(self).status->0,
            ),
            old(self).status is None ==> match waited {
                Some(raw) => final(self).status == Some(ExitStatus { raw }) && r == Ok::<
                    ExitStatus,
                    Error,
                >(ExitStatus { raw }),
                None => *final(self) == *old(self) && r == Err::<ExitStatus, Error>(Error::ExecWait),
            },
    {
        if let Some(status) = self.status {
            return Ok(status);
        }
        match waited {
            Some(raw) => {
                let status = ExitStatus::from_raw(raw);
                self.status = Some(status);
                Ok(status)
            },
            None => Err(Error::ExecWait),
        }
    }
}

/// A service that the launcher runs.
#[derive(Debug, PartialEq, Eq)]
pub struct Service {
    /// The request that spawned the service; it can spawn it again.
    pub args: Spawn,
    /// The process of the service.
    pub process: Process,
    /// What the launcher is about to do with the service.
    pub current_status: ServiceStatus,
    /// From when on the process is to be killed, once it was asked to end.
    pub kill_time: Option<u64>,
}

impl Service {
    /// The service that `spawn` has started as the process `pid`.
    pub open spec fn new_spec(spawn: Spawn, pid: Pid) -> Service {
        Service {
            args: spawn,
            process: Process { pid, status: None },
            current_status: ServiceStatus::Running,
            kill_time: None,
        }
    }

    /// The service that `spawn` has started as `process`.
    pub fn new(spawn: Spawn, process: Process) -> (r: Service)
        ensures
            r == (Service {
                args: spawn,
                process,
                current_status: ServiceStatus::Running,
                kill_time: None,
            }),
    {
        Service { args: spawn, process, current_status: ServiceStatus::Running, kill_time: None }
    }

    /// The request that spawned the service.
    pub fn args(&self) -> (r: &Spawn)
        ensures
            *r == self.args,
    {
        &self.args
    }

    /// The PID of the service's process.
    pub fn id(&self) -> (r: Pid)
        ensures
            r == self.process.pid,
    {
        self.process.id()
    }

    /// Asks the service to end now: gives the signal to send and its
    /// target, and keeps the time from which on the process is to be killed.
    pub fn kill(&mut self, pgid: Pid) -> (r: ShutdownPlan)
        ensures
            *final(self) == (Service { kill_time: r.kill_time, ..*old(self) }),
            r.target == signal_target(old(self).process.pid, pgid),
            r.signal == Signal::TERM,
            exists|now: u64| r.kill_time == deadline(now, Some(SHUTDOWN_TIMEOUT_SECS)),
    {
        let plan = self.process.kill(pgid);
        self.kill_time = plan.kill_time;
        plan
    }

    /// Asks the service to end now and turns it into a service that is
    /// shutting down.
    pub fn shutdown(self, pgid: Pid) -> (r: (StoppingService, ShutdownPlan))
        ensures
            r.0 == (StoppingService { os_process: self.process, kill_time: r.1.kill_time }),
            r.1.target == signal_target(self.process.pid, pgid),
            r.1.signal == Signal::TERM,
            exists|now: u64| r.1.kill_time == deadline(now, Some(SHUTDOWN_TIMEOUT_SECS)),
    {
        let mut process = self.process;
        let plan = process.kill(pgid);
        (StoppingService::new(process, plan.kill_time), plan)
    }

    /// The name of the service.
    pub fn name(&self) -> (r: &str)
        ensures
            r@ == match self.args@.id {
                Some(s) => s,
                None => Seq::<char>::empty(),
            },
    {
        self.args.get_id()
    }

    /// The request that spawned the service, to spawn it again.
    pub fn take_args(self) -> (r: Spawn)
        ensures
            r == self.args,
    {
        self.args
    }

    /// Takes note of what waiting without blocking has found.
    pub fn try_wait(&mut self, outcome: WaitOutcome) -> (r: Result<Option<ExitStatus>, Error>)
        ensures
            final(self).args == old(self).args,
            final(self).current_status == old(self).current_status,
            final(self).kill_time == old(self).kill_time,
            final(self).process.pid == old(self).process.pid,
            old(self).process.status is Some ==> *final(self) == *old(self) && r == Ok::<
                Option<ExitStatus>,
                Error,
            >(old(self).process.status),
            old(self).process.status is None ==> match outcome {
                WaitOutcome::Running => *final(self) == *old(self) && r == Ok::<
                    Option<ExitStatus>,
                    Error,
                >(None),
                WaitOutcome::Exited(raw) => final(self).process.status == Some(ExitStatus { raw })
                    && r == Ok::<Option<ExitStatus>, Error>(Some(ExitStatus { raw })),
                WaitOutcome::Failed => *final(self) == *old(self) && r == Err::<
                    Option<ExitStatus>,
                    Error,
                >(Error::ExecWait),
            },
    {
        self.process.try_wait(outcome)
    }

    /// Takes note of what waiting for the end of the process has found.
    pub fn wait(&mut self, waited: Option<i32>) -> (r: Result<ExitStatus, Error>)
        ensures
            final(self).args == old(self).args,
            final(self).current_status == old(self).current_status,
            final(self).kill_time == old(self).kill_time,
            final(self).process.pid == old(self).process.pid,
            old(self).process.status is Some ==> *final(self) == *old(self) && r == Ok::<
                ExitStatus,
                Error,
            >(old(self).process.status->0),
            old(self).process.status is None ==> match waited {
                Some(raw) => final(self).process.status == Some(ExitStatus { raw }) && r == Ok::<
                    ExitStatus,
                    Error,
                >(ExitStatus { raw }),
                None => *final(self) == *old(self) && r == Err::<ExitStatus, Error>(Error::ExecWait),
            },
    {
        self.process.wait(waited)
    }

    /// Notes what the launcher is about to do with the service.
    pub fn set_current_status(&mut self, status: ServiceStatus)
        ensures
            *final(self) == (Service { current_status: status, ..*old(self) }),
    {
        self.current_status = status;
    }

    /// What the launcher is about to do with the service.
    pub fn get_current_status(&self) -> (r: ServiceStatus)
        ensures
            r == self.current_status,
    {
        self.current_status
    }
}

/// A service that was asked to end and has not been seen to end yet.
#[derive(Debug, Clone, Copy, PartialEq, Eq, Structural)]
pub struct StoppingService {
    /// The process.
    pub os_process: Process,
    /// The time of the steady clock from which on the process is to be
    /// killed if it still runs. `None` means to wait without end.
    pub kill_time: Option<u64>,
}

impl StoppingService {
    /// The process `process`, to be killed from `kill_time` on.
    pub fn new(process: Process, kill_time: Option<u64>) -> (r: StoppingService)
        ensures
            r == (StoppingService { os_process: process, kill_time }),
    {
        StoppingService { os_process: process, kill_time }
    }

    /// The PID of the process.
    pub fn pid(&self) -> (r: Pid)
        ensures
            r == self.os_process.pid,
    {
        self.os_process.pid
    }

    /// How the process ended, once that is known.
    pub fn status(&self) -> (r: Option<ExitStatus>)
        ensures
            r == self.os_process.status,
    {
        self.os_process.status
    }

    /// The time from which on the process is to be killed.
    pub fn kill_time(&self) -> (r: Option<u64>)
        ensures
            r == self.kill_time,
    {
        self.kill_time
    }

    /// Whether the process is due to be killed at `now`.
    pub fn due(&self, now: u64) -> (r: bool)
        ensures
            r == is_due(self.kill_time, now),
    {
        match self.kill_time {
            Some(t) => t <= now,
            None => false,
        }
    }

    /// Takes note of what waiting without blocking has found.
    pub fn try_wait(&mut self, outcome: WaitOutcome) -> (r: Result<Option<ExitStatus>, Error>)
        ensures
            final(self).kill_time == old(self).kill_time,
            final(self).os_process.pid == old(self).os_process.pid,
            old(self).os_process.status is Some ==> *final(self) == *old(self) && r == Ok::<
                Option<ExitStatus>,
                Error,
            >(old(self).os_process.status),
            old(self).os_process.status is None ==> match outcome {
                WaitOutcome::Running => *final(self) == *old(self) && r == Ok::<
                    Option<ExitStatus>,
                    Error,
                >(None),
                WaitOutcome::Exited(raw) => final(self).os_process.status == Some(
                    ExitStatus { raw },
                ) && r == Ok::<Option<ExitStatus>, Error>(Some(ExitStatus { raw })),
                WaitOutcome::Failed => *final(self) == *old(self) && r == Err::<
                    Option<ExitStatus>,
                    Error,
                >(Error::ExecWait),
            },
    {
        self.os_process.try_wait(outcome)
    }
}

} // verus!

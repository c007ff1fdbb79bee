//! What the launcher does on a request of the supervisor.
//!
//! Signalling a process, waiting for it and spawning one are the
//! operating system's work. Each handler therefore has a first step, which
//! looks the process up and says what is to be signalled, and a last step,
//! which takes what waiting or spawning gave and makes the answer.

use vstd::prelude::*;
use crate::error::Error;
use crate::launcher::service::{
    deadline, signal_target, ExitStatus, Process, Service, ShutdownPlan, SHUTDOWN_TIMEOUT_SECS,
};
use crate::launcher::table::ServiceTable;
use crate::protocol::launcher::{Restart, Spawn, SpawnOk, SpawnOkView, Terminate, TerminateOk, TerminateOkView};
use crate::protocol::net::{error, no_pid, ErrCode, NetErr, NetErrView};
use crate::signal::Signal;
use crate::supervisor::Pid;

verus! {

/// The PID that a number on the wire names. Numbers beyond the range of
/// PIDs wrap around, as a cast does.
pub open spec fn pid_of(n: u32) -> Pid {
    if n <= i32::MAX {
        n as i32
    } else {
        (n - 0x1_0000_0000) as i32
    }
}

/// The number that stands for a PID on the wire.
pub open spec fn number_of(pid: Pid) -> u32 {
    if pid >= 0 {
        pid as u32
    } else {
        (pid + 0x1_0000_0000) as u32
    }
}

/// The PID that a number on the wire names.
pub fn wire_pid(n: u32) -> (r: Pid)
    ensures
        r == pid_of(n),
{
    if n <= 0x7fff_ffff {
        n as i32
    } else {
        ((n as i64) - 0x1_0000_0000) as i32
    }
}

/// The number that stands for a PID on the wire.
pub fn pid_number(pid: Pid) -> (r: u32)
    ensures
        r == number_of(pid),
        pid_of(r) == pid,
{
    if pid >= 0 {
        pid as u32
    } else {
        ((pid as i64) + 0x1_0000_0000) as u32
    }
}

/// The words in which a launcher's error is told to the supervisor.
pub open spec fn error_words(e: Error) -> Seq<char> {
    match e {
        Error::ExecWait => "Unable to wait for the child process"@,
        Error::UserNotFound(_) => "No such user"@,
        Error::GroupNotFound(_) => "No such group"@,
        _ => "The launcher failed"@,
    }
}

/// The words in which a launcher's error is told to the supervisor.
pub fn error_text(e: &Error) -> (r: &'static str)
    ensures
        r@ == error_words(*e),
{
    match e {
        Error::ExecWait => "Unable to wait for the child process",
        Error::UserNotFound(_) => "No such user",
        Error::GroupNotFound(_) => "No such group",
        _ => "The launcher failed",
    }
}

/// Answers a request with the PID of a process that was spawned, or with
/// the failure to spawn it. A spawned process is taken into the table as
/// the service of `args`.
pub fn spawned(services: &mut ServiceTable, args: Spawn, spawn: Result<Pid, Error>) -> (r: Result<
    SpawnOk,
    NetErr,
>)
    requires
        old(services).wf(),
    ensures
        final(services).wf(),
        final(services).stopping() == old(services).stopping(),
        match spawn {
            Ok(pid) => {
                &&& r matches Ok(reply)
                &&& reply@ == (SpawnOkView { pid: Some(number_of(pid)) })
                &&& final(services).live() == old(services).live().insert(
                    pid,
                    Service::new_spec(args, pid),
                )
            },
            Err(e) => {
                &&& r matches Err(reply)
                &&& reply@ == (NetErrView { code: Some(ErrCode::Unknown), msg: Some(error_words(e)) })
                &&& final(services).live() == old(services).live()
            },
        },
{
    match spawn {
        Ok(pid) => {
            let service = Service::new(args, Process::new(pid));
            services.insert(service);
            let mut reply = SpawnOk::new();
            reply.set_pid(pid_number(pid));
            Ok(reply)
        },
        Err(e) => Err(error(error_text(&e))),
    }
}

/// Handles a request to restart a process in place.
pub struct RestartHandler;

impl RestartHandler {
    /// The first step: takes the service with the PID that `msg` names out
    /// of the table and asks it to end. Where the launcher has no such
    /// process, the answer says so and the table stays as it is. `pgid` is
    /// the process group of the PID.
    pub fn begin(msg: &Restart, services: &mut ServiceTable, pgid: Pid) -> (r: Result<
        (Service, ShutdownPlan),
        NetErr,
    >)
        requires
            old(services).wf(),
        ensures
            final(services).wf(),
            final(services).stopping() == old(services).stopping(),
            final(services).live() == old(services).live().remove(pid_of(msg.get_pid_spec())),
            match r {
                Ok((service, plan)) => {
                    let pid = pid_of(msg.get_pid_spec());
                    &&& old(services).live().contains_key(pid)
                    &&& service == (Service {
                        kill_time: plan.kill_time,
                        ..old(services).live()[pid]
                    })
                    &&& plan.target == signal_target(pid, pgid)
                    &&& plan.signal == Signal::TERM
                    &&& exists|now: u64| plan.kill_time == deadline(now, Some(SHUTDOWN_TIMEOUT_SECS))
                },
                Err(reply) => {
                    &&& !old(services).live().contains_key(pid_of(msg.get_pid_spec()))
                    &&& reply@ == (NetErrView { code: Some(ErrCode::NoPID), msg: None })
                },
            },
    {
        let pid = wire_pid(msg.get_pid());
        match services.remove(pid) {
            Some(service) => {
                let mut service = service;
                let plan = service.kill(pgid);
                Ok((service, plan))
            },
            None => Err(no_pid()),
        }
    }

    /// The last step: takes what waiting for the end of the old process
    /// gave, and, where that went well, what spawning the service again
    /// gave. A new process is taken into the table and its PID is the
    /// answer; a failure of either is the answer otherwise, and the table
    /// stays without the service.
    pub fn finish(
        services: &mut ServiceTable,
        service: Service,
        waited: Option<i32>,
        spawn: Result<Pid, Error>,
    ) -> (r: Result<SpawnOk, NetErr>)
        requires
            old(services).wf(),
        ensures
            final(services).wf(),
            final(services).stopping() == old(services).stopping(),
            (waited is Some || service.process.status is Some) && spawn is Ok ==> {
                &&& r matches Ok(reply)
                &&& reply@ == (SpawnOkView { pid: Some(number_of(spawn->Ok_0)) })
                &&& final(services).live() == old(services).live().insert(
                    spawn->Ok_0,
                    Service::new_spec(service.args, spawn->Ok_0),
                )
            },
            !((waited is Some || service.process.status is Some) && spawn is Ok) ==> {
                &&& r matches Err(reply)
                &&& reply@ == (NetErrView {
                    code: Some(ErrCode::Unknown),
                    msg: Some(
                        error_words(
                            if waited is Some || service.process.status is Some {
                                spawn->Err_0
                            } else {
                                Error::ExecWait
                            },
                        ),
                    ),
                })
                &&& final(services).live() == old(services).live()
            },
    {
        let mut service = service;
        match service.wait(waited) {
            Ok(_status) => spawned(services, service.take_args(), spawn),
            Err(e) => Err(error(error_text(&e))),
        }
    }
}

/// Handles a request to terminate a process.
pub struct TerminateHandler;

impl TerminateHandler {
    /// The first step: asks the service with the PID that `msg` names to
    /// end. Where the launcher has no such process, the answer says so.
    /// `pgid` is the process group of the PID.
    pub fn begin(msg: &Terminate, services: &mut ServiceTable, pgid: Pid) -> (r: Result<
        ShutdownPlan,
        NetErr,
    >)
        requires
            old(services).wf(),
        ensures
            final(services).wf(),
            final(services).stopping() == old(services).stopping(),
            match r {
                Ok(plan) => {
                    let pid = pid_of(msg.get_pid_spec());
                    &&& old(services).live().contains_key(pid)
                    &&& final(services).live() == old(services).live().insert(
                        pid,
                        Service { kill_time: plan.kill_time, ..old(services).live()[pid] },
                    )
                    &&& plan.target == signal_target(pid, pgid)
                    &&& plan.signal == Signal::TERM
                    &&& exists|now: u64| plan.kill_time == deadline(now, Some(SHUTDOWN_TIMEOUT_SECS))
                },
                Err(reply) => {
                    &&& !old(services).live().contains_key(pid_of(msg.get_pid_spec()))
                    &&& final(services).live() == old(services).live()
                    &&& reply@ == (NetErrView { code: Some(ErrCode::NoPID), msg: None })
                },
            },
    {
        let pid = wire_pid(msg.get_pid());
        match services.remove(pid) {
            Some(service) => {
                let mut service = service;
                let plan = service.kill(pgid);
                services.insert(service);
                Ok(plan)
            },
            None => {
                assert(services.live() =~= old(services).live());
                Err(no_pid())
            },
        }
    }

    /// The last step: takes what waiting for the end of the process gave
    /// and answers with the exit code of the process, zero where it has
    /// none. The end of the process is kept with the service.
    pub fn finish(msg: &Terminate, services: &mut ServiceTable, waited: Option<i32>) -> (r: Result<
        TerminateOk,
        NetErr,
    >)
        requires
            old(services).wf(),
        ensures
            final(services).wf(),
            final(services).stopping() == old(services).stopping(),
            match lookup_service(old(services).live(), pid_of(msg.get_pid_spec())) {
                None => {
                    &&& r matches Err(reply)
                    &&& reply@ == (NetErrView { code: Some(ErrCode::NoPID), msg: None })
                    &&& final(services).live() == old(services).live()
                },
                Some(service) => match end_after_wait(service, waited) {
                    Some(status) => {
                        &&& r matches Ok(reply)
                        &&& reply@ == (TerminateOkView {
                            exit_code: Some(
                                match status.exit_code() {
                                    Some(c) => c,
                                    None => 0i32,
                                },
                            ),
                            shutdown_method: None,
                        })
                        &&& final(services).live() == old(services).live().insert(
                            pid_of(msg.get_pid_spec()),
                            Service {
                                process: Process { status: Some(status), ..service.process },
                                ..service
                            },
                        )
                    },
                    None => {
                        &&& r matches Err(reply)
                        &&& reply@ == (NetErrView {
                            code: Some(ErrCode::Unknown),
                            msg: Some(error_words(Error::ExecWait)),
                        })
                        &&& final(services).live() == old(services).live()
                    },
                },
            },
    {
        let pid = wire_pid(msg.get_pid());
        match services.remove(pid) {
            Some(service) => {
                let mut service = service;
                let ghost before = service;
                match service.wait(waited) {
                    Ok(status) => {
                        services.insert(service);
                        let mut reply = TerminateOk::new();
                        reply.set_exit_code(
                            match status.code() {
                                Some(c) => c,
                                None => 0,
                            },
                        );
                        assert(service == (Service {
                            process: Process { status: Some(status), ..before.process },
                            ..before
                        }));
                        Ok(reply)
                    },
                    Err(e) => {
                        services.insert(service);
                        assert(services.live() =~= old(services).live());
                        Err(error(error_text(&e)))
                    },
                }
            },
            None => {
                assert(services.live() =~= old(services).live());
                Err(no_pid())
            },
        }
    }
}

/// The service under `pid`, if there is one.
pub open spec fn lookup_service(live: Map<Pid, Service>, pid: Pid) -> Option<Service> {
    if live.contains_key(pid) {
        Some(live[pid])
    } else {
        None
    }
}

/// How a service has ended once it was waited for: as it was known to have
/// ended, else as waiting found, if waiting found anything.
pub open spec fn end_after_wait(service: Service, waited: Option<i32>) -> Option<ExitStatus> {
    if service.process.status is Some {
        service.process.status
    } else {
        match waited {
            Some(raw) => Some(ExitStatus { raw }),
            None => None,
        }
    }
}

} // verus!

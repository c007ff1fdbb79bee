//! The launcher's loop: what a tick finds and what follows from it.

use vstd::prelude::*;
use vstd::string::*;
use crate::error::Error;
use crate::launcher::service::{ExitStatus, WaitOutcome};
use crate::numbers::{signed_decimal, write_i64};
use crate::protocol::launcher::{entries_view, Spawn};
use crate::signal::Signal;
use crate::supervisor::Pid;
use crate::text::same_text;

verus! {

/// The exit code of a supervisor that has failed and is not to be started
/// again.
pub const ERR_NO_RETRY_EXCODE: i32 = 86;

/// The exit code of a supervisor that has ended in good order and is not to
/// be started again.
pub const OK_NO_RETRY_EXCODE: i32 = 84;

/// The milliseconds between two ticks of the launcher.
pub const TICK_MILLIS: u64 = 100;

/// The milliseconds between two attempts to start the supervisor again.
pub const RELOAD_MILLIS: u64 = 1_000;

/// How a tick of the launcher ends.
#[derive(Debug, Clone, Copy, PartialEq, Eq, Structural)]
pub enum TickState {
    /// Go on with the next tick.
    Continue,
    /// Leave, with this exit code.
    Exit(i32),
}

/// What the launcher has caught of the signals sent to it.
#[derive(Debug, Clone, Copy, PartialEq, Eq, Structural)]
pub enum SignalEvent {
    /// A signal to shut down.
    Shutdown,
    /// A signal to pass on to the supervisor.
    Passthrough(Signal),
}

/// The kinds of message that a supervisor sends to the launcher.
#[derive(Debug, Clone, Copy, PartialEq, Eq, Structural)]
pub enum MessageKind {
    Register,
    Restart,
    Spawn,
    Terminate,
}

impl MessageKind {
    /// The kind that a name on the wire stands for.
    pub open spec fn named(id: Seq<char>) -> Option<MessageKind> {
        if id == "Register"@ {
            Some(MessageKind::Register)
        } else if id == "Restart"@ {
            Some(MessageKind::Restart)
        } else if id == "Spawn"@ {
            Some(MessageKind::Spawn)
        } else if id == "Terminate"@ {
            Some(MessageKind::Terminate)
        } else {
            None
        }
    }

    /// The name of the kind on the wire.
    pub open spec fn name(self) -> Seq<char> {
        match self {
            MessageKind::Register => "Register"@,
            MessageKind::Restart => "Restart"@,
            MessageKind::Spawn => "Spawn"@,
            MessageKind::Terminate => "Terminate"@,
        }
    }

    /// The kind that a name on the wire stands for, if it stands for one.
    pub fn from_message_id(id: &str) -> (r: Option<MessageKind>)
        ensures
            r == Self::named(id@),
    {
        if same_text(id, "Register") {
            Some(MessageKind::Register)
        } else if same_text(id, "Restart") {
            Some(MessageKind::Restart)
        } else if same_text(id, "Spawn") {
            Some(MessageKind::Spawn)
        } else if same_text(id, "Terminate") {
            Some(MessageKind::Terminate)
        } else {
            None
        }
    }

    /// The name of the kind on the wire.
    pub fn message_id(&self) -> (r: &'static str)
        ensures
            r@ == self.name(),
    {
        match self {
            MessageKind::Register => "Register",
            MessageKind::Restart => "Restart",
            MessageKind::Spawn => "Spawn",
            MessageKind::Terminate => "Terminate",
        }
    }
}

/// The requests that the launcher serves while it runs: to restart, to
/// spawn and to terminate. The handshake is no request; a name that stands
/// for no kind is none either.
pub open spec fn request_named(id: Seq<char>) -> Option<MessageKind> {
    match MessageKind::named(id) {
        Some(MessageKind::Register) => None,
        other => other,
    }
}

/// Finds the handler for a message by the name of its kind: the kind of
/// request, or nothing for a message that the launcher does not serve.
pub fn dispatch(message_id: &str) -> (r: Option<MessageKind>)
    ensures
        r == request_named(message_id@),
{
    match MessageKind::from_message_id(message_id) {
        Some(MessageKind::Register) => None,
        other => other,
    }
}

/// What the launcher does after it has looked for a message.
#[derive(Debug, Clone, Copy, PartialEq, Eq, Structural)]
pub enum MessageAction {
    /// A message has come: hand it to its handler, and go on.
    Dispatch,
    /// Nothing has come and the supervisor runs: go on.
    Idle,
    /// The supervisor has ended and is not to be started again: ask all
    /// services to end and leave with this exit code.
    KillAllAndExit(i32),
    /// The supervisor has gone otherwise: start it again.
    Reload,
}

/// What follows from the end of the supervisor: where its exit code says
/// that it is not to be started again, the launcher leaves too, with the
/// same code after a failure and with zero after an end in good order;
/// otherwise the supervisor is started again.
pub open spec fn on_supervisor_exit(status: ExitStatus) -> MessageAction {
    match status.exit_code() {
        Some(code) => if code == ERR_NO_RETRY_EXCODE {
            MessageAction::KillAllAndExit(ERR_NO_RETRY_EXCODE)
        } else if code == OK_NO_RETRY_EXCODE {
            MessageAction::KillAllAndExit(0)
        } else {
            MessageAction::Reload
        },
        None => MessageAction::Reload,
    }
}

/// What the launcher does after it has looked for a message: a message is
/// handled; without one, the launcher looks whether the supervisor still
/// runs.
pub open spec fn message_action(has_message: bool, supervisor: WaitOutcome) -> MessageAction {
    if has_message {
        MessageAction::Dispatch
    } else {
        match supervisor {
            WaitOutcome::Running => MessageAction::Idle,
            WaitOutcome::Exited(raw) => on_supervisor_exit(ExitStatus { raw }),
            WaitOutcome::Failed => MessageAction::Reload,
        }
    }
}

/// Decides what the launcher does after it has looked for a message.
/// `supervisor` is what waiting for the supervisor without blocking has
/// found; it counts only where no message has come.
pub fn handle_message(has_message: bool, supervisor: WaitOutcome) -> (r: MessageAction)
    ensures
        r == message_action(has_message, supervisor),
{
    if has_message {
        return MessageAction::Dispatch;
    }
    match supervisor {
        WaitOutcome::Running => MessageAction::Idle,
        WaitOutcome::Exited(raw) => {
            let status = ExitStatus::from_raw(raw);
            match status.code() {
                Some(code) => {
                    if code == ERR_NO_RETRY_EXCODE {
                        MessageAction::KillAllAndExit(ERR_NO_RETRY_EXCODE)
                    } else if code == OK_NO_RETRY_EXCODE {
                        MessageAction::KillAllAndExit(0)
                    } else {
                        MessageAction::Reload
                    }
                },
                None => MessageAction::Reload,
            }
        },
        WaitOutcome::Failed => MessageAction::Reload,
    }
}

/// How a tick ends, given what it did after looking for a message: the
/// launcher goes on, leaves, or fails because the supervisor has gone.
pub fn tick_result(action: MessageAction) -> (r: Result<TickState, Error>)
    ensures
        r == match action {
            MessageAction::Dispatch => Ok::<TickState, Error>(TickState::Continue),
            MessageAction::Idle => Ok::<TickState, Error>(TickState::Continue),
            MessageAction::KillAllAndExit(code) => Ok::<TickState, Error>(TickState::Exit(code)),
            MessageAction::Reload => Err::<TickState, Error>(Error::SupShutdown),
        },
{
    match action {
        MessageAction::Dispatch => Ok(TickState::Continue),
        MessageAction::Idle => Ok(TickState::Continue),
        MessageAction::KillAllAndExit(code) => Ok(TickState::Exit(code)),
        MessageAction::Reload => Err(Error::SupShutdown),
    }
}

/// What a signal asks of the launcher.
#[derive(Debug, Clone, Copy, PartialEq, Eq, Structural)]
pub enum SignalAction {
    /// Tell the supervisor to shut down, ask all services to end, and
    /// leave with exit code zero.
    Shutdown,
    /// Pass the signal on to the supervisor, then look for a message.
    Forward(Signal),
    /// Look for a message.
    Proceed,
}

/// Decides what a tick does with the signal that was caught, if any.
pub fn handle_signal(signal: Option<SignalEvent>) -> (r: SignalAction)
    ensures
        r == match signal {
            Some(SignalEvent::Shutdown) => SignalAction::Shutdown,
            Some(SignalEvent::Passthrough(s)) => SignalAction::Forward(s),
            None => SignalAction::Proceed,
        },
{
    match signal {
        Some(SignalEvent::Shutdown) => SignalAction::Shutdown,
        Some(SignalEvent::Passthrough(s)) => SignalAction::Forward(s),
        None => SignalAction::Proceed,
    }
}

/// What the launcher's loop does after a tick.
#[derive(Debug, Clone, Copy, PartialEq, Eq, Structural)]
pub enum LoopAction {
    /// Sleep for so many milliseconds, then tick again.
    Sleep(u64),
    /// Leave with this exit code.
    Return(i32),
    /// Start the supervisor again, and try anew after so many milliseconds
    /// for as long as that fails.
    Reload(u64),
}

/// Decides what the launcher's loop does after a tick.
pub fn after_tick(tick: &Result<TickState, Error>) -> (r: LoopAction)
    ensures
        r == match *tick {
            Ok(TickState::Continue) => LoopAction::Sleep(TICK_MILLIS),
            Ok(TickState::Exit(code)) => LoopAction::Return(code),
            Err(_) => LoopAction::Reload(RELOAD_MILLIS),
        },
{
    match tick {
        Ok(TickState::Continue) => LoopAction::Sleep(TICK_MILLIS),
        Ok(TickState::Exit(code)) => LoopAction::Return(*code),
        Err(_) => LoopAction::Reload(RELOAD_MILLIS),
    }
}

/// The program to run as supervisor: the one that the environment names,
/// else the one found in the supervisor's package. `package_found` says
/// whether a package with a supervisor is installed, `command` is the
/// path of the program in it, if it holds one.
pub fn supervisor_cmd(from_env: Option<String>, package_found: bool, command: Option<String>) -> (r:
    Result<String, Error>)
    ensures
        r == match from_env {
            Some(path) => Ok::<String, Error>(path),
            None => if !package_found {
                Err::<String, Error>(Error::SupPackageNotFound)
            } else {
                match command {
                    Some(path) => Ok::<String, Error>(path),
                    None => Err::<String, Error>(Error::SupBinaryNotFound),
                }
            },
        },
{
    match from_env {
        Some(path) => Ok(path),
        None => {
            if !package_found {
                Err(Error::SupPackageNotFound)
            } else {
                match command {
                    Some(path) => Ok(path),
                    None => Err(Error::SupBinaryNotFound),
                }
            }
        },
    }
}

/// The name under which the supervisor finds the launcher's pipe in its
/// environment.
pub const LAUNCHER_PIPE_ENV: &'static str = "HAB_LAUNCHER_PIPE";

/// The name under which the supervisor finds the launcher's PID in its
/// environment.
pub const LAUNCHER_PID_ENV: &'static str = "HAB_LAUNCHER_PID";

/// The name under which the supervisor is told to clean the process lock
/// before it starts.
pub const LAUNCHER_LOCK_CLEAN_ENV: &'static str = "HAB_LAUNCHER_LOCK_CLEAN";

/// What the launcher adds to the environment of the supervisor it starts.
pub open spec fn supervisor_env_of(pipe: Seq<char>, launcher: Pid, clean: bool) -> Seq<
    (Seq<char>, Seq<char>),
> {
    let base = seq![
        (LAUNCHER_PIPE_ENV@, pipe),
        (LAUNCHER_PID_ENV@, signed_decimal(launcher as int)),
    ];
    if clean {
        seq![(LAUNCHER_LOCK_CLEAN_ENV@, "true"@)] + base
    } else {
        base
    }
}

/// What the launcher adds to the environment of the supervisor it starts:
/// the name of its pipe and its own PID, and, where the supervisor is
/// started again after it has ended in good order, the request to clean
/// the process lock.
pub fn supervisor_env(pipe: &str, launcher: Pid, clean: bool) -> (r: Vec<(String, String)>)
    ensures
        entries_view(r@) == supervisor_env_of(pipe@, launcher, clean),
{
    let mut env: Vec<(String, String)> = Vec::new();
    if clean {
        env.push((LAUNCHER_LOCK_CLEAN_ENV.to_owned(), "true".to_owned()));
    }
    env.push((LAUNCHER_PIPE_ENV.to_owned(), pipe.to_owned()));
    env.push((LAUNCHER_PID_ENV.to_owned(), write_i64(launcher as i64)));
    assert(entries_view(env@) =~= supervisor_env_of(pipe@, launcher, clean));
    env
}

/// A text where it is given, the empty text where it is not.
pub open spec fn text_or_empty(o: Option<Seq<char>>) -> Seq<char> {
    match o {
        Some(s) => s,
        None => Seq::<char>::empty(),
    }
}

/// What is needed to spawn the process of a service.
#[derive(Debug, PartialEq, Eq)]
pub struct SpawnPlan {
    /// The program to run.
    pub binary: String,
    /// The user to run it as.
    pub uid: u32,
    /// The group to run it as.
    pub gid: u32,
    /// What to add to its environment.
    pub env: Vec<(String, String)>,
}

/// Plans the spawning of a service. `uid` and `gid` are the numbers that
/// the system has for the user and the group that the request names, if it
/// knows them. The user is looked at first.
pub fn run(msg: &Spawn, uid: Option<u32>, gid: Option<u32>) -> (r: Result<SpawnPlan, Error>)
    ensures
        match r {
            Ok(plan) => {
                &&& uid == Some(plan.uid)
                &&& gid == Some(plan.gid)
                &&& plan.binary@ == text_or_empty(msg@.binary)
                &&& entries_view(plan.env@) == msg@.env
            },
            Err(e) => {
                &&& uid is None ==> (e matches Error::UserNotFound(name) && name@ == text_or_empty(
                    msg@.svc_user,
                ))
                &&& uid is Some ==> gid is None && (e matches Error::GroupNotFound(name) && name@
                    == text_or_empty(msg@.svc_group))
            },
        },
{
    let uid = match uid {
        Some(uid) => uid,
        None => {
            return Err(Error::UserNotFound(msg.get_svc_user().to_owned()));
        },
    };
    let gid = match gid {
        Some(gid) => gid,
        None => {
            return Err(Error::GroupNotFound(msg.get_svc_group().to_owned()));
        },
    };
    Ok(
        SpawnPlan {
            binary: msg.get_binary().to_owned(),
            uid,
            gid,
            env: crate::protocol::launcher::copy_entries(msg.get_env()),
        },
    )
}

} // verus!

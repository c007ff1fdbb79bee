//! The main loop of the supervisor, as a machine of steps.
//!
//! The loop ticks about once a second. What a tick finds out and does is
//! outside work: asking the launcher, the gossip layer, the file system.
//! The order of that work, and what ends the loop, is decided here: the
//! caller does the step at hand, reports what came of it, and is told the
//! next step.
//!
//! A signal to reload is looked at before the updates of services. Where
//! both ask for a restart in one tick, the signal wins: the supervisor
//! restarts itself and the services keep running.

use vstd::prelude::*;
use crate::error::Error;
use crate::launcher::server::ERR_NO_RETRY_EXCODE;

verus! {

/// The milliseconds from the start of one tick to the start of the next.
pub const TICK_MILLIS: i64 = 1_000;

/// The ways in which the supervisor stops.
#[derive(Debug, Clone, Copy, PartialEq, Eq, Structural)]
pub enum ShutdownMode {
    /// The supervisor shuts down and takes all services down with it.
    Normal,
    /// The cluster has removed the supervisor for good: all services come
    /// down and the supervisor leaves with an error.
    Departed,
    /// The supervisor restarts itself, for a newer version or on a signal.
    /// The services keep running.
    Updating,
}

/// One step of the main loop.
#[derive(Debug, Clone, Copy, PartialEq, Eq, Structural)]
pub enum Step {
    /// Ask whether the launcher has been told to stop.
    CheckStopRequest,
    /// Ask whether the cluster has marked this supervisor as departed.
    CheckDeparture,
    /// Ask whether a signal to reload has come.
    CheckSignal,
    /// Start the services again whose shutdown for a restart has ended.
    FinishRestarts,
    /// Ask whether a newer supervisor has been installed.
    CheckSelfUpdate,
    /// Ask whether the spec directory has changed.
    CheckSpecWatcher,
    /// Reconcile the running services with the specs on disk.
    Reconcile,
    /// Take new peers from the peer file, if the gossip layer wants them.
    UpdatePeers,
    /// Mark the services whose user configuration has changed.
    ApplyUserConfig,
    /// Restart the services for which an update has been installed.
    UpdateServices,
    /// Let the gossip layer restart the elections that need it.
    RestartElections,
    /// Take the census anew from the gossip layer's rumors.
    UpdateCensus,
    /// Ask whether the set of services or one of their states has changed.
    CheckChangedServices,
    /// Publish the state, because the services have changed.
    PersistServices,
    /// Ask whether the census has changed.
    CheckCensusChanged,
    /// Publish the state, because the census has changed.
    PersistCensus,
    /// Let every service do its tick.
    TickServices,
    /// Sleep for what is left of the tick.
    Sleep,
    /// Stop the control gateway, so that no command comes in any more.
    StopGateway(ShutdownMode),
    /// Tell the cluster that this supervisor departs.
    Depart(ShutdownMode),
    /// Ask every service to stop.
    StopServices(ShutdownMode),
    /// Wait until everything that was asked to stop has stopped.
    AwaitStops(ShutdownMode),
    /// Release the process lock.
    ReleaseLock(ShutdownMode),
    /// Let the gossip layer write down what it knows.
    PersistGossip(ShutdownMode),
    /// Leave the loop: the supervisor has stopped in this way.
    Leave(ShutdownMode),
    /// Leave the loop at once, with the error of the step that failed.
    Fail,
}

/// What came of a step.
#[derive(Debug, Clone, Copy, PartialEq, Eq, Structural)]
pub enum Event {
    /// The step is done.
    Done,
    /// The answer to a step that asks.
    Answer(bool),
    /// The step has failed.
    Failed,
}

impl Event {
    /// Whether the event is the answer yes.
    pub open spec fn yes(self) -> bool {
        self == Event::Answer(true)
    }
}

/// The step after `step`, given what came of `step`. `signals` says whether
/// the supervisor handles signals itself.
///
/// A tick asks, in this order, whether the launcher was told to stop,
/// whether the supervisor has departed, and whether a signal to reload has
/// come; each yes ends the loop, in its own way. Then restarts are
/// finished, a newer supervisor ends the loop too, the specs are
/// reconciled if the spec directory has changed, and the rest of the tick
/// follows. Only reconciling and taking peers can fail; a failure ends
/// the loop at once.
pub open spec fn following(step: Step, event: Event, signals: bool) -> Step {
    match step {
        Step::CheckStopRequest => if event.yes() {
            Step::StopGateway(ShutdownMode::Normal)
        } else {
            Step::CheckDeparture
        },
        Step::CheckDeparture => if event.yes() {
            Step::StopGateway(ShutdownMode::Departed)
        } else if signals {
            Step::CheckSignal
        } else {
            Step::FinishRestarts
        },
        Step::CheckSignal => if event.yes() {
            Step::StopGateway(ShutdownMode::Updating)
        } else {
            Step::FinishRestarts
        },
        Step::FinishRestarts => Step::CheckSelfUpdate,
        Step::CheckSelfUpdate => if event.yes() {
            Step::StopGateway(ShutdownMode::Updating)
        } else {
            Step::CheckSpecWatcher
        },
        Step::CheckSpecWatcher => if event.yes() {
            Step::Reconcile
        } else {
            Step::UpdatePeers
        },
        Step::Reconcile => if event == Event::Failed {
            Step::Fail
        } else {
            Step::UpdatePeers
        },
        Step::UpdatePeers => if event == Event::Failed {
            Step::Fail
        } else {
            Step::ApplyUserConfig
        },
        Step::ApplyUserConfig => Step::UpdateServices,
        Step::UpdateServices => Step::RestartElections,
        Step::RestartElections => Step::UpdateCensus,
        Step::UpdateCensus => Step::CheckChangedServices,
        Step::CheckChangedServices => if event.yes() {
            Step::PersistServices
        } else {
            Step::CheckCensusChanged
        },
        Step::PersistServices => Step::CheckCensusChanged,
        Step::CheckCensusChanged => if event.yes() {
            Step::PersistCensus
        } else {
            Step::TickServices
        },
        Step::PersistCensus => Step::TickServices,
        Step::TickServices => Step::Sleep,
        Step::Sleep => Step::CheckStopRequest,
        Step::StopGateway(mode) => if mode == ShutdownMode::Updating {
            Step::AwaitStops(mode)
        } else {
            Step::Depart(mode)
        },
        Step::Depart(mode) => Step::StopServices(mode),
        Step::StopServices(mode) => Step::AwaitStops(mode),
        Step::AwaitStops(mode) => Step::ReleaseLock(mode),
        Step::ReleaseLock(mode) => Step::PersistGossip(mode),
        Step::PersistGossip(mode) => Step::Leave(mode),
        Step::Leave(mode) => Step::Leave(mode),
        Step::Fail => Step::Fail,
    }
}

/// The step in which the loop stands after the steps that `events` tell of,
/// one event for each step done.
pub open spec fn after_events(step: Step, events: Seq<Event>, signals: bool) -> Step
    decreases events.len(),
{
    if events.len() == 0 {
        step
    } else {
        following(after_events(step, events.drop_last(), signals), events.last(), signals)
    }
}

impl Step {
    /// The first step of every tick.
    pub fn first() -> (r: Step)
        ensures
            r == Step::CheckStopRequest,
    {
        Step::CheckStopRequest
    }

    /// Whether the loop has ended with this step.
    pub fn is_final(&self) -> (r: bool)
        ensures
            r == (*self is Leave || *self is Fail),
    {
        match self {
            Step::Leave(_) => true,
            Step::Fail => true,
            _ => false,
        }
    }

    /// The way in which the supervisor stops, once that is decided.
    pub open spec fn decided(self) -> Option<ShutdownMode> {
        match self {
            Step::StopGateway(m) => Some(m),
            Step::Depart(m) => Some(m),
            Step::StopServices(m) => Some(m),
            Step::AwaitStops(m) => Some(m),
            Step::ReleaseLock(m) => Some(m),
            Step::PersistGossip(m) => Some(m),
            Step::Leave(m) => Some(m),
            _ => None,
        }
    }

    /// The way in which the supervisor stops, once that is decided.
    pub fn mode(&self) -> (r: Option<ShutdownMode>)
        ensures
            r == self.decided(),
    {
        match self {
            Step::StopGateway(m) => Some(*m),
            Step::Depart(m) => Some(*m),
            Step::StopServices(m) => Some(*m),
            Step::AwaitStops(m) => Some(*m),
            Step::ReleaseLock(m) => Some(*m),
            Step::PersistGossip(m) => Some(*m),
            Step::Leave(m) => Some(*m),
            _ => None,
        }
    }

    /// The step after this one, given what came of this one.
    pub fn next(self, event: Event, signals: bool) -> (r: Step)
        ensures
            r == following(self, event, signals),
    {
        let yes = match event {
            Event::Answer(true) => true,
            _ => false,
        };
        let failed = match event {
            Event::Failed => true,
            _ => false,
        };
        match self {
            Step::CheckStopRequest => if yes {
                Step::StopGateway(ShutdownMode::Normal)
            } else {
                Step::CheckDeparture
            },
            Step::CheckDeparture => if yes {
                Step::StopGateway(ShutdownMode::Departed)
            } else if signals {
                Step::CheckSignal
            } else {
                Step::FinishRestarts
            },
            Step::CheckSignal => if yes {
                Step::StopGateway(ShutdownMode::Updating)
            } else {
                Step::FinishRestarts
            },
            Step::FinishRestarts => Step::CheckSelfUpdate,
            Step::CheckSelfUpdate => if yes {
                Step::StopGateway(ShutdownMode::Updating)
            } else {
                Step::CheckSpecWatcher
            },
            Step::CheckSpecWatcher => if yes {
                Step::Reconcile
            } else {
                Step::UpdatePeers
            },
            Step::Reconcile => if failed {
                Step::Fail
            } else {
                Step::UpdatePeers
            },
            Step::UpdatePeers => if failed {
                Step::Fail
            } else {
                Step::ApplyUserConfig
            },
            Step::ApplyUserConfig => Step::UpdateServices,
            Step::UpdateServices => Step::RestartElections,
            Step::RestartElections => Step::UpdateCensus,
            Step::UpdateCensus => Step::CheckChangedServices,
            Step::CheckChangedServices => if yes {
                Step::PersistServices
            } else {
                Step::CheckCensusChanged
            },
            Step::PersistServices => Step::CheckCensusChanged,
            Step::CheckCensusChanged => if yes {
                Step::PersistCensus
            } else {
                Step::TickServices
            },
            Step::PersistCensus => Step::TickServices,
            Step::TickServices => Step::Sleep,
            Step::Sleep => Step::CheckStopRequest,
            Step::StopGateway(mode) => match mode {
                ShutdownMode::Updating => Step::AwaitStops(mode),
                _ => Step::Depart(mode),
            },
            Step::Depart(mode) => Step::StopServices(mode),
            Step::StopServices(mode) => Step::AwaitStops(mode),
            Step::AwaitStops(mode) => Step::ReleaseLock(mode),
            Step::ReleaseLock(mode) => Step::PersistGossip(mode),
            Step::PersistGossip(mode) => Step::Leave(mode),
            Step::Leave(mode) => Step::Leave(mode),
            Step::Fail => Step::Fail,
        }
    }
}

/// How the main loop ends for the one who called it: in good order after a
/// normal shutdown or a restart, with an error after a departure.
pub fn shutdown_result(mode: ShutdownMode) -> (r: Result<(), Error>)
    ensures
        r == match mode {
            ShutdownMode::Normal => Ok::<(), Error>(()),
            ShutdownMode::Updating => Ok::<(), Error>(()),
            ShutdownMode::Departed => Err::<(), Error>(Error::Departed),
        },
{
    match mode {
        ShutdownMode::Normal => Ok(()),
        ShutdownMode::Updating => Ok(()),
        ShutdownMode::Departed => Err(Error::Departed),
    }
}

/// The exit code that stands for the end of the supervisor: zero for an end
/// in good order; the code that forbids a restart where the process lock is
/// held by another supervisor or the supervisor has departed; one for every
/// other error.
pub open spec fn exit_code_of(result: Result<(), Error>) -> i32 {
    match result {
        Ok(_) => 0,
        Err(Error::ProcessLocked(_)) => ERR_NO_RETRY_EXCODE,
        Err(Error::Departed) => ERR_NO_RETRY_EXCODE,
        Err(_) => 1,
    }
}

/// The exit code of the supervisor.
pub fn exit_code(result: &Result<(), Error>) -> (r: i32)
    ensures
        r == exit_code_of(*result),
{
    match result {
        Ok(_) => 0,
        Err(Error::ProcessLocked(_)) => ERR_NO_RETRY_EXCODE,
        Err(Error::Departed) => ERR_NO_RETRY_EXCODE,
        Err(_) => 1,
    }
}

/// The milliseconds left to sleep at `now_millis` in a tick that is to end
/// at `next_check_millis`; nothing where that time has passed.
pub fn time_to_wait(now_millis: i64, next_check_millis: i64) -> (r: Option<u64>)
    ensures
        r == if now_millis < next_check_millis {
            Some((next_check_millis - now_millis) as u64)
        } else {
            None
        },
{
    if now_millis < next_check_millis {
        let wait: i128 = next_check_millis as i128 - now_millis as i128;
        Some(wait as u64)
    } else {
        None
    }
}

/// The loop goes into a shutdown from four steps only, each with its own
/// way to stop: a stop request stops it normally, a departure as departed,
/// a signal to reload and a newer supervisor as updating.
pub proof fn law_what_ends_the_loop(step: Step, event: Event, signals: bool, mode: ShutdownMode)
    requires
        following(step, event, signals) == Step::StopGateway(mode),
    ensures
        event == Event::Answer(true),
        step == Step::CheckStopRequest ==> mode == ShutdownMode::Normal,
        step == Step::CheckDeparture ==> mode == ShutdownMode::Departed,
        step == Step::CheckSignal || step == Step::CheckSelfUpdate ==> mode == ShutdownMode::Updating,
        step == Step::CheckStopRequest || step == Step::CheckDeparture || step == Step::CheckSignal
            || step == Step::CheckSelfUpdate,
{
}

/// Once the way to stop is decided it does not change, whatever comes of
/// the steps of the shutdown.
pub proof fn law_mode_is_kept(step: Step, events: Seq<Event>, signals: bool)
    requires
        step.decided() is Some,
    ensures
        after_events(step, events, signals).decided() == step.decided(),
    decreases events.len(),
{
    if events.len() > 0 {
        law_mode_is_kept(step, events.drop_last(), signals);
    }
}

/// A supervisor that stops to restart itself stops no service: between the
/// decision and the end of the loop nobody is told of a departure and no
/// service is asked to stop.
pub proof fn law_updating_keeps_services(events: Seq<Event>, signals: bool)
    ensures
        !(after_events(Step::StopGateway(ShutdownMode::Updating), events, signals) is StopServices),
        !(after_events(Step::StopGateway(ShutdownMode::Updating), events, signals) is Depart),
        events.len() >= 4 ==> after_events(Step::StopGateway(ShutdownMode::Updating), events, signals)
            == Step::Leave(ShutdownMode::Updating),
{
    lemma_updating_path(events, signals);
}

/// Where the shutdown of a supervisor that restarts itself stands after
/// each number of steps.
proof fn lemma_updating_path(events: Seq<Event>, signals: bool)
    ensures
        ({
            let at = after_events(Step::StopGateway(ShutdownMode::Updating), events, signals);
            let m = ShutdownMode::Updating;
            if events.len() == 0 {
                at == Step::StopGateway(m)
            } else if events.len() == 1 {
                at == Step::AwaitStops(m)
            } else if events.len() == 2 {
                at == Step::ReleaseLock(m)
            } else if events.len() == 3 {
                at == Step::PersistGossip(m)
            } else {
                at == Step::Leave(m)
            }
        }),
    decreases events.len(),
{
    if events.len() > 0 {
        lemma_updating_path(events.drop_last(), signals);
    }
}

/// A normal shutdown and a departure stop every service before the loop
/// ends: the shutdown passes through the step that asks the services to
/// stop and then waits for them.
pub proof fn law_shutdown_stops_services(mode: ShutdownMode, e1: Event, e2: Event, e3: Event, signals: bool)
    requires
        mode != ShutdownMode::Updating,
    ensures
        after_events(Step::StopGateway(mode), seq![e1, e2], signals) == Step::StopServices(mode),
        after_events(Step::StopGateway(mode), seq![e1, e2, e3], signals) == Step::AwaitStops(mode),
{
    let start = Step::StopGateway(mode);
    let s0 = Seq::<Event>::empty();
    let s1 = seq![e1];
    let s2 = seq![e1, e2];
    let s3 = seq![e1, e2, e3];
    assert(s1.drop_last() =~= s0);
    assert(s2.drop_last() =~= s1);
    assert(s3.drop_last() =~= s2);
    assert(after_events(start, s0, signals) == start);
    assert(after_events(start, s1, signals) == Step::Depart(mode));
    assert(after_events(start, s2, signals) == Step::StopServices(mode));
}

} // verus!

//! The settings and the bookkeeping of the watchers and pollers that run
//! beside the main loop.

use vstd::prelude::*;
use crate::ident::PackageIdent;
use crate::numbers::{parse_i64, parse_int, parse_unsigned};
use crate::updater::{opt_ident, WorkerEvent, WorkerEventView};

verus! {

/// The milliseconds for which the spec watcher gathers the events of the
/// file system into one, where nothing else is said.
pub const DEFAULT_SPEC_WATCHER_DELAY_MS: u64 = 2_000;

/// The milliseconds between two looks for a newer package, where nothing
/// else is said.
pub const DEFAULT_FREQUENCY: i64 = 60_000;

/// The name under which the delay of the spec watcher is looked for in the
/// environment.
pub const SPEC_WATCHER_DELAY_ENVVAR: &'static str = "HAB_SPEC_WATCHER_DELAY_MS";

/// The name under which the time between two looks for a newer package of
/// a service is looked for in the environment.
pub const UPDATE_FREQUENCY_ENVVAR: &'static str = "HAB_UPDATE_STRATEGY_FREQUENCY_MS";

/// The name under which the time between two looks for a newer supervisor
/// is looked for in the environment.
pub const SUP_UPDATE_FREQUENCY_ENVVAR: &'static str = "HAB_SUP_UPDATE_MS";

/// The package of the supervisor.
pub const SUP_PKG_IDENT: &'static str = "core/hab-sup";

/// For how long the spec watcher gathers the events of the file system into
/// one, in milliseconds.
#[derive(Debug, Clone, Copy, PartialEq, Eq, Structural)]
pub struct SpecWatcherDelay(pub u64);

impl SpecWatcherDelay {
    /// The delay that a text stands for: a number of milliseconds up to
    /// 65535, which is more than a minute and more than enough.
    pub open spec fn parse(s: Seq<char>) -> Option<int> {
        parse_int(s, 0, u16::MAX as int)
    }

    /// Reads a delay in milliseconds.
    pub fn from_str(s: &str) -> (r: Option<SpecWatcherDelay>)
        ensures
            match r {
                Some(d) => Self::parse(s@) == Some(d.0 as int),
                None => Self::parse(s@) is None,
            },
    {
        match parse_unsigned(s, 0xffff) {
            Some(raw) => Some(SpecWatcherDelay(raw)),
            None => None,
        }
    }

    /// The delay to use where the environment gives `value`: the number it
    /// stands for, else two seconds.
    pub fn configured_value(value: Option<&str>) -> (r: SpecWatcherDelay)
        ensures
            r.0 == match value {
                Some(s) => match Self::parse(s@) {
                    Some(n) => n as u64,
                    None => DEFAULT_SPEC_WATCHER_DELAY_MS,
                },
                None => DEFAULT_SPEC_WATCHER_DELAY_MS,
            },
    {
        match value {
            Some(s) => match SpecWatcherDelay::from_str(s) {
                Some(d) => d,
                None => SpecWatcherDelay(DEFAULT_SPEC_WATCHER_DELAY_MS),
            },
            None => SpecWatcherDelay(DEFAULT_SPEC_WATCHER_DELAY_MS),
        }
    }
}

impl Default for SpecWatcherDelay {
    fn default() -> (r: SpecWatcherDelay)
        ensures
            r.0 == DEFAULT_SPEC_WATCHER_DELAY_MS,
    {
        SpecWatcherDelay(DEFAULT_SPEC_WATCHER_DELAY_MS)
    }
}

/// Counts the events of the file system in the spec directory since they
/// were last asked for. What the events are does not matter: they only
/// wake the reconciliation, which looks at the whole directory.
#[derive(Debug, Clone, Copy, PartialEq, Eq, Structural)]
pub struct SpecWatcher {
    pub pending: u64,
}

impl SpecWatcher {
    /// A watcher that has seen nothing.
    pub fn run() -> (r: SpecWatcher)
        ensures
            r.pending == 0,
    {
        SpecWatcher { pending: 0 }
    }

    /// Takes note of `events` more events. The count stops at the largest
    /// number it can hold.
    pub fn notice(&mut self, events: u64)
        ensures
            final(self).pending == if old(self).pending + events > u64::MAX {
                u64::MAX
            } else {
                (old(self).pending + events) as u64
            },
    {
        self.pending = match self.pending.checked_add(events) {
            Some(n) => n,
            None => u64::MAX,
        };
    }

    /// Whether anything has happened in the spec directory since this was
    /// last asked. The events are forgotten with the answer.
    pub fn has_events(&mut self) -> (r: bool)
        ensures
            r == (old(self).pending > 0),
            final(self).pending == 0,
    {
        let any = self.pending > 0;
        self.pending = 0;
        any
    }
}

/// The milliseconds between two looks for a newer package that a setting in
/// the environment asks for: the number it holds, else one minute.
pub open spec fn frequency_of(value: Option<Seq<char>>) -> i64 {
    match value {
        Some(s) => match parse_int(s, i64::MIN as int, i64::MAX as int) {
            Some(n) => n as i64,
            None => DEFAULT_FREQUENCY,
        },
        None => DEFAULT_FREQUENCY,
    }
}

/// The milliseconds between two looks for a newer package, given what the
/// environment holds for it.
pub fn update_frequency(value: Option<&str>) -> (r: i64)
    ensures
        r == frequency_of(
            match value {
                Some(s) => Some(s@),
                None => None,
            },
        ),
{
    match value {
        Some(s) => match parse_i64(s) {
            Some(n) => n,
            None => DEFAULT_FREQUENCY,
        },
        None => DEFAULT_FREQUENCY,
    }
}

/// The milliseconds between two looks for a newer package of a service.
pub fn update_period(value: Option<&str>) -> (r: i64)
    ensures
        r == frequency_of(
            match value {
                Some(s) => Some(s@),
                None => None,
            },
        ),
{
    update_frequency(value)
}

/// What the supervisor does about a newer version of itself.
#[derive(Debug, PartialEq, Eq)]
pub struct SelfUpdater {
    pub current: PackageIdent,
    pub update_url: String,
    pub update_channel: String,
}

impl SelfUpdater {
    /// The updater of the supervisor `current`, which looks for newer ones
    /// in the channel `update_channel` of the depot at `update_url`. Its
    /// worker is to be started.
    pub fn new(current: PackageIdent, update_url: String, update_channel: String) -> (r: SelfUpdater)
        ensures
            r.current == current,
            r.update_url == update_url,
            r.update_channel == update_channel,
    {
        SelfUpdater { current, update_url, update_channel }
    }

    /// Looks at what the channel of the worker held: a newer supervisor
    /// that was installed is handed out; a worker that has died is to be
    /// started again, which the second part of the answer says.
    pub fn updated(&mut self, worker: WorkerEvent) -> (r: (Option<PackageIdent>, bool))
        ensures
            *final(self) == *old(self),
            opt_ident(r.0) == match worker@ {
                WorkerEventView::Package(p) => Some(p),
                _ => None,
            },
            r.1 == (worker@ is Disconnected),
    {
        match worker {
            WorkerEvent::Package(package) => (Some(package), false),
            WorkerEvent::Empty => (None, false),
            WorkerEvent::Disconnected => (None, true),
        }
    }
}

/// Whether the supervisor is to look for newer versions of itself: if it is
/// asked to and knows its own version in full.
pub fn self_update_enabled(auto_update: bool, current: &PackageIdent) -> (r: bool)
    ensures
        r == (auto_update && current@.fully_qualified()),
{
    auto_update && current.fully_qualified()
}

} // verus!

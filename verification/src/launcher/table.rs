//! The launcher's table of services: those that run and those that were
//! asked to end.

use std::collections::HashMap;
use vstd::prelude::*;
use vstd::std_specs::hash::spec_keys_iter;
use vstd::std_specs::iter::IteratorSpec;
use crate::launcher::service::{
    deadline, is_due, signal_target, ExitStatus, Service, ShutdownPlan, StoppingService,
    WaitOutcome, SHUTDOWN_TIMEOUT_SECS,
};
use crate::signal::Signal;
use crate::supervisor::Pid;

verus! {

/// What a map holds under a key, if anything.
pub open spec fn lookup<V>(m: Map<Pid, V>, pid: Pid) -> Option<V> {
    if m.contains_key(pid) {
        Some(m[pid])
    } else {
        None
    }
}

/// The keys of a map of processes, each once, in no particular order.
pub fn pids_of<V>(m: &HashMap<Pid, V>) -> (r: Vec<Pid>)
    ensures
        r@.no_duplicates(),
        forall|pid: Pid| r@.contains(pid) <==> m@.contains_key(pid),
{
    broadcast use vstd::std_specs::hash::group_hash_axioms;

    let mut out: Vec<Pid> = Vec::new();
    for k in it: m.keys()
        invariant
            it.seq() == spec_keys_iter(m).remaining(),
            out@ == it.seq().subrange(0, it.index() as int).unref(),
    {
        out.push(*k);
    }
    proof {
        let keys = spec_keys_iter(m).remaining().unref();
        assert(out@ =~= keys);
        assert forall|pid: Pid| out@.contains(pid) <==> m@.contains_key(pid) by {
            assert(keys.to_set().contains(pid) <==> m@.dom().contains(pid));
        }
    }
    out
}

/// What is found under a key of a map of processes, if anything.
pub fn find<V: Copy>(m: &HashMap<Pid, V>, pid: Pid) -> (r: Option<V>)
    ensures
        r == lookup(m@, pid),
{
    broadcast use vstd::std_specs::hash::group_hash_axioms;

    match m.get(&pid) {
        Some(v) => Some(*v),
        None => None,
    }
}

/// Whether a service that was asked to end has been seen to end: its status
/// was known, or waiting for it has found that it has exited.
pub open spec fn has_ended(service: StoppingService, wait: Option<WaitOutcome>) -> bool {
    service.os_process.status is Some || wait matches Some(WaitOutcome::Exited(_))
}

/// A service that was asked to end, with what waiting for it has found.
pub open spec fn after_wait(service: StoppingService, wait: Option<WaitOutcome>) -> StoppingService {
    match wait {
        Some(WaitOutcome::Exited(raw)) => if service.os_process.status is None {
            StoppingService {
                os_process: crate::launcher::service::Process {
                    status: Some(ExitStatus { raw }),
                    ..service.os_process
                },
                ..service
            }
        } else {
            service
        },
        _ => service,
    }
}

/// Whether a service that was asked to end leaves the table of stopping
/// services at `now`: its time is up, or it has ended.
pub open spec fn leaves(service: StoppingService, now: u64, wait: Option<WaitOutcome>) -> bool {
    is_due(service.kill_time, now) || has_ended(service, wait)
}

/// Whether one of the services in `v` has the PID `pid`.
pub open spec fn holds_pid(v: Seq<StoppingService>, pid: Pid) -> bool {
    exists|j: int| 0 <= j < v.len() && (#[trigger] v[j]).os_process.pid == pid
}

/// No two services in `v` have the same PID.
pub open spec fn distinct_pids(v: Seq<StoppingService>) -> bool {
    forall|a: int, b: int|
        0 <= a < v.len() && 0 <= b < v.len() && a != b ==> (#[trigger] v[a]).os_process.pid != (
        #[trigger] v[b]).os_process.pid
}

/// Whether `pid` is among the first `i` of `all`.
spec fn seen(all: Seq<Pid>, i: int, pid: Pid) -> bool {
    exists|k: int| 0 <= k < i && all[k] == pid
}

proof fn lemma_seen_step(all: Seq<Pid>, i: int, pid: Pid)
    requires
        0 <= i < all.len(),
    ensures
        seen(all, i + 1, pid) <==> seen(all, i, pid) || all[i] == pid,
{
    if seen(all, i + 1, pid) {
        let k = choose|k: int| 0 <= k < i + 1 && all[k] == pid;
        if k < i {
            assert(seen(all, i, pid));
        }
    }
    if seen(all, i, pid) {
        let k = choose|k: int| 0 <= k < i && all[k] == pid;
        assert(0 <= k < i + 1 && all[k] == pid);
    }
    if all[i] == pid {
        assert(0 <= i < i + 1 && all[i] == pid);
    }
}

proof fn lemma_seen_all(all: Seq<Pid>, pid: Pid)
    ensures
        seen(all, all.len() as int, pid) <==> all.contains(pid),
        !seen(all, 0, pid),
{
    if seen(all, all.len() as int, pid) {
        let k = choose|k: int| 0 <= k < all.len() && all[k] == pid;
        assert(all[k] == pid);
    }
    if all.contains(pid) {
        let k = choose|k: int| 0 <= k < all.len() && all[k] == pid;
        assert(0 <= k < all.len() && all[k] == pid);
    }
}

proof fn lemma_not_seen_yet(all: Seq<Pid>, i: int)
    requires
        0 <= i < all.len(),
        all.no_duplicates(),
    ensures
        !seen(all, i, all[i]),
{
    if seen(all, i, all[i]) {
        let k = choose|k: int| 0 <= k < i && all[k] == all[i];
        assert(k != i);
    }
}

proof fn lemma_holds_pid_push(v: Seq<StoppingService>, s: StoppingService, pid: Pid)
    ensures
        holds_pid(v.push(s), pid) <==> holds_pid(v, pid) || s.os_process.pid == pid,
{
    let w = v.push(s);
    if holds_pid(w, pid) {
        let j = choose|j: int| 0 <= j < w.len() && (#[trigger] w[j]).os_process.pid == pid;
        if j < v.len() {
            assert(v[j].os_process.pid == pid);
        }
    }
    if holds_pid(v, pid) {
        let j = choose|j: int| 0 <= j < v.len() && (#[trigger] v[j]).os_process.pid == pid;
        assert(w[j].os_process.pid == pid);
    }
    if s.os_process.pid == pid {
        assert(w[v.len() as int].os_process.pid == pid);
    }
}

proof fn lemma_distinct_push(v: Seq<StoppingService>, s: StoppingService)
    requires
        distinct_pids(v),
        !holds_pid(v, s.os_process.pid),
    ensures
        distinct_pids(v.push(s)),
{
    let w = v.push(s);
    assert forall|a: int, b: int| 0 <= a < w.len() && 0 <= b < w.len() && a != b implies (
    #[trigger] w[a]).os_process.pid != (#[trigger] w[b]).os_process.pid by {
        if a < v.len() && b < v.len() {
            assert(v[a].os_process.pid != v[b].os_process.pid);
        } else if a < v.len() {
            assert(v[a].os_process.pid != s.os_process.pid);
        } else {
            assert(v[b].os_process.pid != s.os_process.pid);
        }
    }
}

/// The services that leave the table of stopping services in one pass.
#[derive(Debug, PartialEq, Eq)]
pub struct Finished {
    /// Those whose time is up: they are to be killed.
    pub to_kill: Vec<StoppingService>,
    /// Those whose time is not up and that have ended.
    pub stopped: Vec<StoppingService>,
}

/// The services that were asked to end and have not been seen to end, by
/// PID.
#[derive(Debug)]
pub struct StoppingServices(HashMap<Pid, StoppingService>);

impl StoppingServices {
    /// The services by PID.
    pub closed spec fn map(&self) -> Map<Pid, StoppingService> {
        self.0@
    }

    /// Every service stands under its own PID.
    pub open spec fn wf(&self) -> bool {
        forall|pid: Pid| #[trigger]
            self.map().contains_key(pid) ==> self.map()[pid].os_process.pid == pid
    }

    /// No services.
    pub fn new() -> (r: StoppingServices)
        ensures
            r.wf(),
            r.map() == Map::<Pid, StoppingService>::empty(),
    {
        StoppingServices(HashMap::new())
    }

    /// Adds a service to watch. It takes the place of one with the same PID.
    pub fn add(&mut self, service: StoppingService)
        requires
            old(self).wf(),
        ensures
            final(self).wf(),
            final(self).map() == old(self).map().insert(service.os_process.pid, service),
    {
        broadcast use vstd::std_specs::hash::group_hash_axioms;

        self.0.insert(service.pid(), service);
    }

    /// The PIDs of the services, each once.
    pub fn pids(&self) -> (r: Vec<Pid>)
        ensures
            r@.no_duplicates(),
            forall|pid: Pid| r@.contains(pid) <==> self.map().contains_key(pid),
    {
        pids_of(&self.0)
    }

    /// The PIDs of the services whose time is not up at `now`: those for
    /// which it is worth to wait without blocking.
    pub fn awaited(&self, now: u64) -> (r: Vec<Pid>)
        ensures
            r@.no_duplicates(),
            forall|pid: Pid|
                r@.contains(pid) <==> self.map().contains_key(pid) && !is_due(
                    self.map()[pid].kill_time,
                    now,
                ),
    {
        let all = pids_of(&self.0);
        let mut out: Vec<Pid> = Vec::new();
        let mut i: usize = 0;
        while i < all.len()
            invariant
                i <= all.len(),
                all@.no_duplicates(),
                forall|pid: Pid| all@.contains(pid) <==> self.map().contains_key(pid),
                out@.no_duplicates(),
                forall|pid: Pid|
                    out@.contains(pid) <==> (exists|k: int| 0 <= k < i && all@[k] == pid) && !is_due(
                        self.map()[pid].kill_time,
                        now,
                    ),
            decreases all.len() - i,
        {
            let pid = all[i];
            assert(all@.contains(pid));
            let ghost before = out@;
            match find(&self.0, pid) {
                Some(service) => {
                    if !service.due(now) {
                        out.push(pid);
                        proof {
                            assert forall|a: int, b: int|
                                0 <= a < out@.len() && 0 <= b < out@.len() && a != b implies out@[a]
                                != out@[b] by {
                                if a == before.len() && b < before.len() {
                                    assert(before.contains(before[b]));
                                }
                                if b == before.len() && a < before.len() {
                                    assert(before.contains(before[a]));
                                }
                            }
                        }
                    }
                },
                None => {},
            }
            proof {
                assert forall|p: Pid|
                    out@.contains(p) <==> (exists|k: int| 0 <= k < i + 1 && all@[k] == p) && !is_due(
                        self.map()[p].kill_time,
                        now,
                    ) by {
                    if out@.contains(p) {
                        let j = choose|j: int| 0 <= j < out@.len() && out@[j] == p;
                        if j < before.len() {
                            assert(before.contains(p));
                        } else {
                            assert(all@[i as int] == p);
                        }
                    }
                    if (exists|k: int| 0 <= k < i + 1 && all@[k] == p) && !is_due(
                        self.map()[p].kill_time,
                        now,
                    ) {
                        let k = choose|k: int| 0 <= k < i + 1 && all@[k] == p;
                        if k < i {
                            assert(before.contains(p));
                            let j = choose|j: int| 0 <= j < before.len() && before[j] == p;
                            assert(out@[j] == p);
                        } else {
                            assert(out@[out@.len() - 1] == p);
                        }
                    }
                }
            }
            i = i + 1;
        }
        proof {
            assert forall|pid: Pid|
                out@.contains(pid) <==> self.map().contains_key(pid) && !is_due(
                    self.map()[pid].kill_time,
                    now,
                ) by {
                if self.map().contains_key(pid) {
                    assert(all@.contains(pid));
                    let k = choose|k: int| 0 <= k < all@.len() && all@[k] == pid;
                    assert(all@[k] == pid);
                }
                if out@.contains(pid) {
                    let k = choose|k: int| 0 <= k < i && all@[k] == pid;
                    assert(all@.contains(pid));
                }
            }
        }
        out
    }
    /// Takes out of the table the services whose time is up at `now`, and
    /// those whose time is not up and that have ended. `waits` holds what
    /// waiting without blocking has found, for the PIDs that were waited
    /// for. A service leaves the table once: what is to be killed is handed
    /// out a single time.
    pub fn take_finished(&mut self, now: u64, waits: &HashMap<Pid, WaitOutcome>) -> (r: Finished)
        requires
            old(self).wf(),
        ensures
            final(self).wf(),
            forall|pid: Pid| #[trigger]
                final(self).map().contains_key(pid) <==> old(self).map().contains_key(pid) && !leaves(
                    old(self).map()[pid],
                    now,
                    lookup(waits@, pid),
                ),
            forall|pid: Pid| #[trigger]
                final(self).map().contains_key(pid) ==> final(self).map()[pid] == old(self).map()[pid],
            forall|pid: Pid| #[trigger]
                holds_pid(r.to_kill@, pid) <==> old(self).map().contains_key(pid) && is_due(
                    old(self).map()[pid].kill_time,
                    now,
                ),
            forall|j: int|
                0 <= j < r.to_kill@.len() ==> #[trigger] r.to_kill@[j] == old(
                    self,
                ).map()[r.to_kill@[j].os_process.pid],
            distinct_pids(r.to_kill@),
            forall|pid: Pid| #[trigger]
                holds_pid(r.stopped@, pid) <==> old(self).map().contains_key(pid) && !is_due(
                    old(self).map()[pid].kill_time,
                    now,
                ) && has_ended(old(self).map()[pid], lookup(waits@, pid)),
            forall|j: int|
                0 <= j < r.stopped@.len() ==> #[trigger] r.stopped@[j] == after_wait(
                    old(self).map()[r.stopped@[j].os_process.pid],
                    lookup(waits@, r.stopped@[j].os_process.pid),
                ),
            distinct_pids(r.stopped@),
    {
        broadcast use vstd::std_specs::hash::group_hash_axioms;

        let ghost old_map = self.map();
        let all = pids_of(&self.0);
        let mut to_kill: Vec<StoppingService> = Vec::new();
        let mut stopped: Vec<StoppingService> = Vec::new();
        let mut i: usize = 0;
        proof {
            assert forall|pid: Pid| !seen(all@, 0, pid) by {
                lemma_seen_all(all@, pid);
            }
        }
        while i < all.len()
            invariant
                i <= all.len(),
                all@.no_duplicates(),
                forall|pid: Pid| all@.contains(pid) <==> old_map.contains_key(pid),
                forall|pid: Pid| #[trigger]
                    old_map.contains_key(pid) ==> old_map[pid].os_process.pid == pid,
                forall|pid: Pid| #[trigger]
                    self.map().contains_key(pid) <==> old_map.contains_key(pid) && !(seen(
                        all@,
                        i as int,
                        pid,
                    ) && leaves(old_map[pid], now, lookup(waits@, pid))),
                forall|pid: Pid| #[trigger]
                    self.map().contains_key(pid) ==> self.map()[pid] == old_map[pid],
                forall|pid: Pid| #[trigger]
                    holds_pid(to_kill@, pid) <==> old_map.contains_key(pid) && seen(
                        all@,
                        i as int,
                        pid,
                    ) && is_due(old_map[pid].kill_time, now),
                forall|j: int|
                    0 <= j < to_kill@.len() ==> #[trigger] to_kill@[j]
                        == old_map[to_kill@[j].os_process.pid],
                distinct_pids(to_kill@),
                forall|pid: Pid| #[trigger]
                    holds_pid(stopped@, pid) <==> old_map.contains_key(pid) && seen(
                        all@,
                        i as int,
                        pid,
                    ) && !is_due(old_map[pid].kill_time, now) && has_ended(
                        old_map[pid],
                        lookup(waits@, pid),
                    ),
                forall|j: int|
                    0 <= j < stopped@.len() ==> #[trigger] stopped@[j] == after_wait(
                        old_map[stopped@[j].os_process.pid],
                        lookup(waits@, stopped@[j].os_process.pid),
                    ),
                distinct_pids(stopped@),
            decreases all.len() - i,
        {
            let pid = all[i];
            let ghost kill_before = to_kill@;
            let ghost stopped_before = stopped@;
            let ghost map_before = self.map();
            proof {
                assert(all@.contains(pid));
                lemma_not_seen_yet(all@, i as int);
                assert(map_before.contains_key(pid));
            }
            let found = find(&self.0, pid);
            let mut service = match found {
                Some(s) => s,
                None => {
                    assert(false);
                    StoppingService::new(crate::launcher::service::Process::new(pid), None)
                },
            };
            assert(service == old_map[pid]);
            let wait = find(waits, pid);
            let mut gone_to_kill = false;
            let mut gone_stopped = false;
            if service.due(now) {
                self.0.remove(&pid);
                proof {
                    lemma_distinct_push(to_kill@, service);
                }
                to_kill.push(service);
                gone_to_kill = true;
            } else {
                let outcome = match wait {
                    Some(o) => o,
                    None => WaitOutcome::Running,
                };
                let ended = match service.try_wait(outcome) {
                    Ok(Some(_)) => true,
                    _ => false,
                };
                assert(ended == has_ended(old_map[pid], wait));
                if ended {
                    assert(service == after_wait(old_map[pid], wait));
                    self.0.remove(&pid);
                    proof {
                        lemma_distinct_push(stopped@, service);
                    }
                    stopped.push(service);
                    gone_stopped = true;
                }
            }
            proof {
                assert forall|p: Pid| #[trigger]
                    self.map().contains_key(p) <==> old_map.contains_key(p) && !(seen(
                        all@,
                        i + 1,
                        p,
                    ) && leaves(old_map[p], now, lookup(waits@, p))) by {
                    lemma_seen_step(all@, i as int, p);
                    assert(map_before.contains_key(p) <==> old_map.contains_key(p) && !(seen(
                        all@,
                        i as int,
                        p,
                    ) && leaves(old_map[p], now, lookup(waits@, p))));
                }
                assert forall|p: Pid| #[trigger] self.map().contains_key(p) implies self.map()[p]
                    == old_map[p] by {
                    assert(map_before.contains_key(p));
                }
                assert forall|p: Pid| #[trigger]
                    holds_pid(to_kill@, p) <==> old_map.contains_key(p) && seen(all@, i + 1, p)
                        && is_due(old_map[p].kill_time, now) by {
                    lemma_seen_step(all@, i as int, p);
                    if gone_to_kill {
                        lemma_holds_pid_push(kill_before, service, p);
                    }
                    assert(holds_pid(kill_before, p) <==> old_map.contains_key(p) && seen(
                        all@,
                        i as int,
                        p,
                    ) && is_due(old_map[p].kill_time, now));
                }
                assert forall|p: Pid| #[trigger]
                    holds_pid(stopped@, p) <==> old_map.contains_key(p) && seen(all@, i + 1, p)
                        && !is_due(old_map[p].kill_time, now) && has_ended(
                        old_map[p],
                        lookup(waits@, p),
                    ) by {
                    lemma_seen_step(all@, i as int, p);
                    if gone_stopped {
                        lemma_holds_pid_push(stopped_before, service, p);
                    }
                    assert(holds_pid(stopped_before, p) <==> old_map.contains_key(p) && seen(
                        all@,
                        i as int,
                        p,
                    ) && !is_due(old_map[p].kill_time, now) && has_ended(
                        old_map[p],
                        lookup(waits@, p),
                    ));
                }
            }
            i = i + 1;
        }
        proof {
            assert forall|pid: Pid| seen(all@, all@.len() as int, pid) <==> all@.contains(pid) by {
                lemma_seen_all(all@, pid);
            }
        }
        Finished { to_kill, stopped }
    }
}

/// Whether a running service is found dead: its end was known, or waiting
/// for it has found that it has exited, or waiting for it has failed. A
/// process of which the operating system cannot tell counts as dead, so
/// that no PID stays in the table for ever.
pub open spec fn is_dead(service: Service, wait: Option<WaitOutcome>) -> bool {
    service.process.status is Some || wait matches Some(WaitOutcome::Exited(_)) || wait
        == Some(WaitOutcome::Failed)
}

/// How a dead service ended, as far as it is known.
pub open spec fn end_of(service: Service, wait: Option<WaitOutcome>) -> Option<ExitStatus> {
    if service.process.status is Some {
        service.process.status
    } else {
        match wait {
            Some(WaitOutcome::Exited(raw)) => Some(ExitStatus { raw }),
            _ => None,
        }
    }
}

/// The process group of `pid`, as far as it is known: `-1` where it is not,
/// which is what the operating system answers for a process it does not
/// know.
pub open spec fn group_of(pgids: Map<Pid, Pid>, pid: Pid) -> Pid {
    if pgids.contains_key(pid) {
        pgids[pid]
    } else {
        -1i32
    }
}

/// Whether one of the pairs in `v` is for the PID `pid`.
pub open spec fn names_pid<T>(v: Seq<(Pid, T)>, pid: Pid) -> bool {
    exists|j: int| 0 <= j < v.len() && (#[trigger] v[j]).0 == pid
}

/// No two pairs in `v` are for the same PID.
pub open spec fn distinct_names<T>(v: Seq<(Pid, T)>) -> bool {
    forall|a: int, b: int|
        0 <= a < v.len() && 0 <= b < v.len() && a != b ==> (#[trigger] v[a]).0 != (#[trigger] v[b]).0
}

proof fn lemma_names_pid_push<T>(v: Seq<(Pid, T)>, e: (Pid, T), pid: Pid)
    ensures
        names_pid(v.push(e), pid) <==> names_pid(v, pid) || e.0 == pid,
{
    let w = v.push(e);
    if names_pid(w, pid) {
        let j = choose|j: int| 0 <= j < w.len() && (#[trigger] w[j]).0 == pid;
        if j < v.len() {
            assert(v[j].0 == pid);
        }
    }
    if names_pid(v, pid) {
        let j = choose|j: int| 0 <= j < v.len() && (#[trigger] v[j]).0 == pid;
        assert(w[j].0 == pid);
    }
    if e.0 == pid {
        assert(w[v.len() as int].0 == pid);
    }
}

proof fn lemma_distinct_names_push<T>(v: Seq<(Pid, T)>, e: (Pid, T))
    requires
        distinct_names(v),
        !names_pid(v, e.0),
    ensures
        distinct_names(v.push(e)),
{
    let w = v.push(e);
    assert forall|a: int, b: int| 0 <= a < w.len() && 0 <= b < w.len() && a != b implies (
    #[trigger] w[a]).0 != (#[trigger] w[b]).0 by {
        if a < v.len() && b < v.len() {
            assert(v[a].0 != v[b].0);
        } else if a < v.len() {
            assert(v[a].0 != e.0);
        } else {
            assert(v[b].0 != e.0);
        }
    }
}

/// `HashMap::get_mut` on the table of running services: a reference to the
/// service under `pid`, through which the caller changes it in place, or
/// nothing where no service stands under `pid`. The map changes in that one
/// entry only.
#[verifier::external_body]
fn entry_mut(m: &mut HashMap<Pid, Service>, pid: Pid) -> (r: Option<&mut Service>)
    ensures
        match r {
            Some(s) => {
                &&& old(m)@.contains_key(pid)
                &&& *s == old(m)@[pid]
                &&& final(m)@ == old(m)@.insert(pid, *final(s))
            },
            None => !old(m)@.contains_key(pid) && final(m)@ == old(m)@,
        },
{
    m.get_mut(&pid)
}

/// The launcher's table of services.
#[derive(Debug)]
pub struct ServiceTable {
    live_services: HashMap<Pid, Service>,
    shutting_down: StoppingServices,
}

impl ServiceTable {
    /// The running services by PID.
    pub closed spec fn live(&self) -> Map<Pid, Service> {
        self.live_services@
    }

    /// The services that were asked to end, by PID.
    pub closed spec fn stopping(&self) -> Map<Pid, StoppingService> {
        self.shutting_down.map()
    }

    /// Every service stands under its own PID.
    pub open spec fn wf(&self) -> bool {
        &&& forall|pid: Pid| #[trigger]
            self.live().contains_key(pid) ==> self.live()[pid].process.pid == pid
        &&& forall|pid: Pid| #[trigger]
            self.stopping().contains_key(pid) ==> self.stopping()[pid].os_process.pid == pid
    }

    /// A table without services.
    pub fn new() -> (r: ServiceTable)
        ensures
            r.wf(),
            r.live() == Map::<Pid, Service>::empty(),
            r.stopping() == Map::<Pid, StoppingService>::empty(),
    {
        ServiceTable { live_services: HashMap::new(), shutting_down: StoppingServices::new() }
    }

    /// The running service with the PID `pid`.
    pub fn get(&self, pid: Pid) -> (r: Option<&Service>)
        ensures
            match r {
                Some(s) => self.live().contains_key(pid) && *s == self.live()[pid],
                None => !self.live().contains_key(pid),
            },
    {
        broadcast use vstd::std_specs::hash::group_hash_axioms;

        self.live_services.get(&pid)
    }

    /// The running service with the PID `pid`, to be changed in place.
    pub fn get_mut(&mut self, pid: Pid) -> (r: Option<&mut Service>)
        ensures
            final(self).stopping() == old(self).stopping(),
            match r {
                Some(s) => {
                    &&& old(self).live().contains_key(pid)
                    &&& *s == old(self).live()[pid]
                    &&& final(self).live() == old(self).live().insert(pid, *final(s))
                },
                None => !old(self).live().contains_key(pid) && final(self).live() == old(self).live(),
            },
    {
        entry_mut(&mut self.live_services, pid)
    }

    /// Takes a running service into the table, under its PID. It takes the
    /// place of one with the same PID.
    pub fn insert(&mut self, service: Service)
        requires
            old(self).wf(),
        ensures
            final(self).wf(),
            final(self).live() == old(self).live().insert(service.process.pid, service),
            final(self).stopping() == old(self).stopping(),
    {
        broadcast use vstd::std_specs::hash::group_hash_axioms;

        self.live_services.insert(service.id(), service);
    }

    /// Takes the running service with the PID `pid` out of the table.
    pub fn remove(&mut self, pid: Pid) -> (r: Option<Service>)
        requires
            old(self).wf(),
        ensures
            final(self).wf(),
            final(self).live() == old(self).live().remove(pid),
            final(self).stopping() == old(self).stopping(),
            match r {
                Some(s) => old(self).live().contains_key(pid) && s == old(self).live()[pid],
                None => !old(self).live().contains_key(pid),
            },
    {
        broadcast use vstd::std_specs::hash::group_hash_axioms;

        self.live_services.remove(&pid)
    }

    /// Takes note of a service that was asked to end.
    pub fn register_stopping_service(&mut self, svc: StoppingService)
        requires
            old(self).wf(),
        ensures
            final(self).wf(),
            final(self).live() == old(self).live(),
            final(self).stopping() == old(self).stopping().insert(svc.os_process.pid, svc),
    {
        self.shutting_down.add(svc);
    }

    /// The PIDs of the running services, each once.
    pub fn pids(&self) -> (r: Vec<Pid>)
        ensures
            r@.no_duplicates(),
            forall|pid: Pid| r@.contains(pid) <==> self.live().contains_key(pid),
    {
        pids_of(&self.live_services)
    }

    /// The PIDs of the services that were asked to end and whose time is
    /// not up at `now`.
    pub fn awaited(&self, now: u64) -> (r: Vec<Pid>)
        ensures
            r@.no_duplicates(),
            forall|pid: Pid|
                r@.contains(pid) <==> self.stopping().contains_key(pid) && !is_due(
                    self.stopping()[pid].kill_time,
                    now,
                ),
    {
        self.shutting_down.awaited(now)
    }

    /// Takes out of the table the services that were asked to end and whose
    /// time is up at `now`, to be killed, and those that have ended.
    pub fn handle_stopping_services(&mut self, now: u64, waits: &HashMap<Pid, WaitOutcome>) -> (r:
        Finished)
        requires
            old(self).wf(),
        ensures
            final(self).wf(),
            final(self).live() == old(self).live(),
            forall|pid: Pid| #[trigger]
                final(self).stopping().contains_key(pid) <==> old(self).stopping().contains_key(pid)
                    && !leaves(old(self).stopping()[pid], now, lookup(waits@, pid)),
            forall|pid: Pid| #[trigger]
                final(self).stopping().contains_key(pid) ==> final(self).stopping()[pid] == old(
                    self,
                ).stopping()[pid],
            forall|pid: Pid| #[trigger]
                holds_pid(r.to_kill@, pid) <==> old(self).stopping().contains_key(pid) && is_due(
                    old(self).stopping()[pid].kill_time,
                    now,
                ),
            forall|j: int|
                0 <= j < r.to_kill@.len() ==> #[trigger] r.to_kill@[j] == old(
                    self,
                ).stopping()[r.to_kill@[j].os_process.pid],
            distinct_pids(r.to_kill@),
            forall|pid: Pid| #[trigger]
                holds_pid(r.stopped@, pid) <==> old(self).stopping().contains_key(pid) && !is_due(
                    old(self).stopping()[pid].kill_time,
                    now,
                ) && has_ended(old(self).stopping()[pid], lookup(waits@, pid)),
            forall|j: int|
                0 <= j < r.stopped@.len() ==> #[trigger] r.stopped@[j] == after_wait(
                    old(self).stopping()[r.stopped@[j].os_process.pid],
                    lookup(waits@, r.stopped@[j].os_process.pid),
                ),
            distinct_pids(r.stopped@),
    {
        self.shutting_down.take_finished(now, waits)
    }

    /// Takes the dead out of the running services. `waits` holds what
    /// waiting without blocking has found, for the PIDs that were waited
    /// for. Returns the PIDs of the dead, each once, with how they ended
    /// where that is known.
    pub fn reap_zombies(&mut self, waits: &HashMap<Pid, WaitOutcome>) -> (r: Vec<
        (Pid, Option<ExitStatus>),
    >)
        requires
            old(self).wf(),
        ensures
            final(self).wf(),
            final(self).stopping() == old(self).stopping(),
            forall|pid: Pid| #[trigger]
                final(self).live().contains_key(pid) <==> old(self).live().contains_key(pid)
                    && !is_dead(old(self).live()[pid], lookup(waits@, pid)),
            forall|pid: Pid| #[trigger]
                final(self).live().contains_key(pid) ==> final(self).live()[pid] == old(
                    self,
                ).live()[pid],
            forall|pid: Pid| #[trigger]
                names_pid(r@, pid) <==> old(self).live().contains_key(pid) && is_dead(
                    old(self).live()[pid],
                    lookup(waits@, pid),
                ),
            forall|j: int|
                0 <= j < r@.len() ==> (#[trigger] r@[j]).1 == end_of(
                    old(self).live()[r@[j].0],
                    lookup(waits@, r@[j].0),
                ),
            distinct_names(r@),
    {
        broadcast use vstd::std_specs::hash::group_hash_axioms;

        let ghost old_map = self.live();
        let all = pids_of(&self.live_services);
        let mut dead: Vec<(Pid, Option<ExitStatus>)> = Vec::new();
        let mut i: usize = 0;
        proof {
            assert forall|pid: Pid| !seen(all@, 0, pid) by {
                lemma_seen_all(all@, pid);
            }
        }
        while i < all.len()
            invariant
                i <= all.len(),
                all@.no_duplicates(),
                self.shutting_down == old(self).shutting_down,
                forall|pid: Pid| all@.contains(pid) <==> old_map.contains_key(pid),
                forall|pid: Pid| #[trigger]
                    old_map.contains_key(pid) ==> old_map[pid].process.pid == pid,
                forall|pid: Pid| #[trigger]
                    self.live().contains_key(pid) <==> old_map.contains_key(pid) && !(seen(
                        all@,
                        i as int,
                        pid,
                    ) && is_dead(old_map[pid], lookup(waits@, pid))),
                forall|pid: Pid| #[trigger]
                    self.live().contains_key(pid) ==> self.live()[pid] == old_map[pid],
                forall|pid: Pid| #[trigger]
                    names_pid(dead@, pid) <==> old_map.contains_key(pid) && seen(all@, i as int, pid)
                        && is_dead(old_map[pid], lookup(waits@, pid)),
                forall|j: int|
                    0 <= j < dead@.len() ==> (#[trigger] dead@[j]).1 == end_of(
                        old_map[dead@[j].0],
                        lookup(waits@, dead@[j].0),
                    ),
                distinct_names(dead@),
            decreases all.len() - i,
        {
            let pid = all[i];
            let ghost dead_before = dead@;
            let ghost map_before = self.live();
            proof {
                assert(all@.contains(pid));
                lemma_not_seen_yet(all@, i as int);
                assert(map_before.contains_key(pid));
            }
            let known = match self.live_services.get(&pid) {
                Some(service) => service.process.status,
                None => None,
            };
            let wait = find(waits, pid);
            let end = match known {
                Some(status) => Some(Some(status)),
                None => match wait {
                    Some(WaitOutcome::Exited(raw)) => Some(Some(ExitStatus::from_raw(raw))),
                    Some(WaitOutcome::Failed) => Some(None),
                    _ => None,
                },
            };
            let mut gone = false;
            match end {
                Some(how) => {
                    self.live_services.remove(&pid);
                    proof {
                        lemma_distinct_names_push(dead@, (pid, how));
                    }
                    dead.push((pid, how));
                    gone = true;
                },
                None => {},
            }
            proof {
                assert forall|p: Pid| #[trigger]
                    self.live().contains_key(p) <==> old_map.contains_key(p) && !(seen(
                        all@,
                        i + 1,
                        p,
                    ) && is_dead(old_map[p], lookup(waits@, p))) by {
                    lemma_seen_step(all@, i as int, p);
                    assert(map_before.contains_key(p) <==> old_map.contains_key(p) && !(seen(
                        all@,
                        i as int,
                        p,
                    ) && is_dead(old_map[p], lookup(waits@, p))));
                }
                assert forall|p: Pid| #[trigger] self.live().contains_key(p) implies self.live()[p]
                    == old_map[p] by {
                    assert(map_before.contains_key(p));
                }
                assert forall|p: Pid| #[trigger]
                    names_pid(dead@, p) <==> old_map.contains_key(p) && seen(all@, i + 1, p)
                        && is_dead(old_map[p], lookup(waits@, p)) by {
                    lemma_seen_step(all@, i as int, p);
                    if gone {
                        lemma_names_pid_push(dead_before, (pid, end->0), p);
                    }
                    assert(names_pid(dead_before, p) <==> old_map.contains_key(p) && seen(
                        all@,
                        i as int,
                        p,
                    ) && is_dead(old_map[p], lookup(waits@, p)));
                }
            }
            i = i + 1;
        }
        proof {
            assert forall|pid: Pid| seen(all@, all@.len() as int, pid) <==> all@.contains(pid) by {
                lemma_seen_all(all@, pid);
            }
        }
        dead
    }

    /// Asks every running service to end. Each of them leaves the running
    /// services and is from now on a service that was asked to end, to be
    /// killed when its time is up. `pgids` holds the process group of each
    /// PID, as far as the operating system told. Returns, for each service,
    /// the signal to send and its target.
    pub fn kill_all(&mut self, pgids: &HashMap<Pid, Pid>) -> (r: Vec<(Pid, ShutdownPlan)>)
        requires
            old(self).wf(),
        ensures
            final(self).wf(),
            final(self).live() == Map::<Pid, Service>::empty(),
            forall|pid: Pid| #[trigger]
                final(self).stopping().contains_key(pid) <==> old(self).stopping().contains_key(pid)
                    || old(self).live().contains_key(pid),
            forall|pid: Pid| #[trigger]
                old(self).live().contains_key(pid) ==> final(self).stopping()[pid].os_process == old(
                    self,
                ).live()[pid].process,
            forall|pid: Pid| #[trigger]
                old(self).stopping().contains_key(pid) && !old(self).live().contains_key(pid)
                    ==> final(self).stopping()[pid] == old(self).stopping()[pid],
            forall|pid: Pid| #[trigger]
                names_pid(r@, pid) <==> old(self).live().contains_key(pid),
            forall|j: int|
                0 <= j < r@.len() ==> {
                    let (pid, plan) = #[trigger] r@[j];
                    &&& plan.signal == Signal::TERM
                    &&& plan.target == signal_target(
                        pid,
                        group_of(pgids@, pid),
                    )
                    &&& plan.kill_time == final(self).stopping()[pid].kill_time
                    &&& exists|now: u64| plan.kill_time == deadline(now, Some(SHUTDOWN_TIMEOUT_SECS))
                },
            distinct_names(r@),
    {
        broadcast use vstd::std_specs::hash::group_hash_axioms;

        let ghost old_live = self.live();
        let ghost old_stopping = self.stopping();
        let all = pids_of(&self.live_services);
        let mut plans: Vec<(Pid, ShutdownPlan)> = Vec::new();
        let mut i: usize = 0;
        proof {
            assert forall|pid: Pid| !seen(all@, 0, pid) by {
                lemma_seen_all(all@, pid);
            }
        }
        while i < all.len()
            invariant
                i <= all.len(),
                all@.no_duplicates(),
                self.wf(),
                forall|pid: Pid| all@.contains(pid) <==> old_live.contains_key(pid),
                forall|pid: Pid| #[trigger]
                    old_live.contains_key(pid) ==> old_live[pid].process.pid == pid,
                forall|pid: Pid| #[trigger]
                    self.live().contains_key(pid) <==> old_live.contains_key(pid) && !seen(
                        all@,
                        i as int,
                        pid,
                    ),
                forall|pid: Pid| #[trigger]
                    self.live().contains_key(pid) ==> self.live()[pid] == old_live[pid],
                forall|pid: Pid| #[trigger]
                    self.stopping().contains_key(pid) <==> old_stopping.contains_key(pid) || (
                    old_live.contains_key(pid) && seen(all@, i as int, pid)),
                forall|pid: Pid| #[trigger]
                    old_live.contains_key(pid) && seen(all@, i as int, pid)
                        ==> self.stopping()[pid].os_process == old_live[pid].process,
                forall|pid: Pid| #[trigger]
                    old_stopping.contains_key(pid) && !(old_live.contains_key(pid) && seen(
                        all@,
                        i as int,
                        pid,
                    )) ==> self.stopping()[pid] == old_stopping[pid],
                forall|pid: Pid| #[trigger]
                    names_pid(plans@, pid) <==> old_live.contains_key(pid) && seen(
                        all@,
                        i as int,
                        pid,
                    ),
                forall|j: int|
                    0 <= j < plans@.len() ==> {
                        let (pid, plan) = #[trigger] plans@[j];
                        &&& old_live.contains_key(pid)
                        &&& seen(all@, i as int, pid)
                        &&& plan.signal == Signal::TERM
                        &&& plan.target == signal_target(
                            pid,
                            group_of(pgids@, pid),
                        )
                        &&& plan.kill_time == self.stopping()[pid].kill_time
                        &&& exists|now: u64|
                            plan.kill_time == deadline(now, Some(SHUTDOWN_TIMEOUT_SECS))
                    },
                distinct_names(plans@),
            decreases all.len() - i,
        {
            let pid = all[i];
            let ghost plans_before = plans@;
            let ghost live_before = self.live();
            let ghost stopping_before = self.stopping();
            proof {
                assert(all@.contains(pid));
                lemma_not_seen_yet(all@, i as int);
                assert(live_before.contains_key(pid));
            }
            let pgid = match find(pgids, pid) {
                Some(g) => g,
                None => -1,
            };
            match self.live_services.remove(&pid) {
                Some(service) => {
                    let (stopping, plan) = service.shutdown(pgid);
                    self.shutting_down.add(stopping);
                    proof {
                        lemma_distinct_names_push(plans@, (pid, plan));
                    }
                    plans.push((pid, plan));
                    proof {
                        assert forall|p: Pid| #[trigger]
                            names_pid(plans@, p) <==> old_live.contains_key(p) && seen(all@, i + 1, p) by {
                            lemma_seen_step(all@, i as int, p);
                            lemma_names_pid_push(plans_before, (pid, plan), p);
                            assert(names_pid(plans_before, p) <==> old_live.contains_key(p) && seen(
                                all@,
                                i as int,
                                p,
                            ));
                        }
                        assert forall|p: Pid| #[trigger]
                            self.live().contains_key(p) <==> old_live.contains_key(p) && !seen(
                                all@,
                                i + 1,
                                p,
                            ) by {
                            lemma_seen_step(all@, i as int, p);
                            assert(live_before.contains_key(p) <==> old_live.contains_key(p) && !seen(
                                all@,
                                i as int,
                                p,
                            ));
                        }
                        assert forall|p: Pid| #[trigger] self.live().contains_key(p) implies self.live()[p]
                            == old_live[p] by {
                            assert(live_before.contains_key(p));
                        }
                        assert forall|p: Pid| #[trigger]
                            self.stopping().contains_key(p) <==> old_stopping.contains_key(p) || (
                            old_live.contains_key(p) && seen(all@, i + 1, p)) by {
                            lemma_seen_step(all@, i as int, p);
                            assert(stopping_before.contains_key(p) <==> old_stopping.contains_key(p)
                                || (old_live.contains_key(p) && seen(all@, i as int, p)));
                        }
                        assert forall|p: Pid| #[trigger]
                            old_live.contains_key(p) && seen(all@, i + 1, p) implies self.stopping()[p].os_process
                            == old_live[p].process by {
                            lemma_seen_step(all@, i as int, p);
                            if p != pid {
                                assert(old_live.contains_key(p) && seen(all@, i as int, p));
                                assert(stopping_before[p].os_process == old_live[p].process);
                            }
                        }
                        assert forall|p: Pid| #[trigger]
                            old_stopping.contains_key(p) && !(old_live.contains_key(p) && seen(
                                all@,
                                i + 1,
                                p,
                            )) implies self.stopping()[p] == old_stopping[p] by {
                            lemma_seen_step(all@, i as int, p);
                            assert(old_stopping.contains_key(p) && !(old_live.contains_key(p) && seen(
                                all@,
                                i as int,
                                p,
                            )));
                            assert(stopping_before[p] == old_stopping[p]);
                        }
                        assert forall|j: int| 0 <= j < plans@.len() implies {
                            let (q, pl) = #[trigger] plans@[j];
                            &&& old_live.contains_key(q)
                            &&& seen(all@, i + 1, q)
                            &&& pl.signal == Signal::TERM
                            &&& pl.target == signal_target(
                                q,
                                group_of(pgids@, q),
                            )
                            &&& pl.kill_time == self.stopping()[q].kill_time
                            &&& exists|now: u64|
                                pl.kill_time == deadline(now, Some(SHUTDOWN_TIMEOUT_SECS))
                        } by {
                            let (q, pl) = plans@[j];
                            lemma_seen_step(all@, i as int, q);
                            if j < plans_before.len() {
                                assert(plans@[j] == plans_before[j]);
                                let (q0, pl0) = plans_before[j];
                                assert(seen(all@, i as int, q0));
                                assert(q0 != pid);
                            }
                        }
                    }
                },
                None => {
                    assert(false);
                },
            }
            i = i + 1;
        }
        proof {
            assert forall|pid: Pid| seen(all@, all@.len() as int, pid) <==> all@.contains(pid) by {
                lemma_seen_all(all@, pid);
            }
            assert(self.live() =~= Map::<Pid, Service>::empty());
        }
        plans
    }
}

} // verus!

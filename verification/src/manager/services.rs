//! The services that the manager runs, those it is stopping, and the specs
//! it is to load again.

use vstd::prelude::*;
use crate::error::Error;
use crate::ident::{PackageIdent, PackageIdentView};
use crate::reconcile::{operations_view, ServiceOperation, ServiceOperationView};
use crate::spec::{DesiredState, ServiceGroup, ServiceGroupView, ServiceSpec, ServiceSpecView};
use crate::updater::ServiceUpdater;
use crate::vecs::reversed;

verus! {

/// A service under the manager: the spec it runs with, the file that the
/// spec came from, and its service group.
#[derive(Debug, PartialEq, Eq)]
pub struct RunningService {
    pub spec: ServiceSpec,
    pub spec_file: String,
    pub service_group: ServiceGroup,
}

/// The mathematical value of a `RunningService`.
pub struct RunningServiceView {
    pub spec: ServiceSpecView,
    pub spec_file: Seq<char>,
    pub service_group: ServiceGroupView,
}

impl View for RunningService {
    type V = RunningServiceView;

    open spec fn view(&self) -> RunningServiceView {
        RunningServiceView {
            spec: self.spec@,
            spec_file: self.spec_file@,
            service_group: self.service_group@,
        }
    }
}

impl RunningService {
    /// The spec that the service runs with.
    pub fn to_spec(&self) -> (r: ServiceSpec)
        ensures
            r@ == self@.spec,
    {
        self.spec.clone()
    }
}

/// The views of a list of running services.
pub open spec fn running_view(v: Seq<RunningService>) -> Seq<RunningServiceView> {
    v.map_values(|s: RunningService| s@)
}

/// A service that was asked to stop and has not stopped yet.
#[derive(Debug, PartialEq, Eq)]
pub struct StoppingEntry {
    /// The service.
    pub service: RunningService,
    /// Whether the service is to be started again once it has stopped.
    pub restart: bool,
}

/// The mathematical value of a `StoppingEntry`.
pub struct StoppingEntryView {
    pub service: RunningServiceView,
    pub restart: bool,
}

impl View for StoppingEntry {
    type V = StoppingEntryView;

    open spec fn view(&self) -> StoppingEntryView {
        StoppingEntryView { service: self.service@, restart: self.restart }
    }
}

/// The views of a list of stopping services.
pub open spec fn stopping_view(v: Seq<StoppingEntry>) -> Seq<StoppingEntryView> {
    v.map_values(|s: StoppingEntry| s@)
}

/// The views of a list of texts.
pub open spec fn paths_view(v: Seq<String>) -> Seq<Seq<char>> {
    v.map_values(|s: String| s@)
}

/// The place of the first service in `running` with the package `ident`;
/// the length of `running` if there is none.
pub open spec fn place_of(running: Seq<RunningServiceView>, ident: PackageIdentView) -> int
    decreases running.len(),
{
    if running.len() == 0 {
        0
    } else if running.first().spec.ident == ident {
        0
    } else {
        1 + place_of(running.drop_first(), ident)
    }
}

/// The place of the first stopping service with the package `ident`; the
/// length of `stopping` if there is none.
pub open spec fn stopping_place_of(stopping: Seq<StoppingEntryView>, ident: PackageIdentView) -> int
    decreases stopping.len(),
{
    if stopping.len() == 0 {
        0
    } else if stopping.first().service.spec.ident == ident {
        0
    } else {
        1 + stopping_place_of(stopping.drop_first(), ident)
    }
}

/// The place of a package is the first place at which it stands.
pub proof fn lemma_place_found(running: Seq<RunningServiceView>, ident: PackageIdentView, i: int)
    requires
        0 <= i <= running.len(),
        forall|j: int| 0 <= j < i ==> (#[trigger] running[j]).spec.ident != ident,
        i < running.len() ==> running[i].spec.ident == ident,
    ensures
        place_of(running, ident) == i,
    decreases running.len(),
{
    if running.len() == 0 {
    } else if i == 0 {
    } else {
        assert(running[0].spec.ident != ident);
        let rest = running.drop_first();
        assert forall|j: int| 0 <= j < i - 1 implies (#[trigger] rest[j]).spec.ident != ident by {
            assert(rest[j] == running[j + 1]);
        }
        if i < running.len() {
            assert(rest[i - 1] == running[i]);
        }
        lemma_place_found(rest, ident, i - 1);
    }
}

proof fn lemma_stopping_place_of(stopping: Seq<StoppingEntryView>, ident: PackageIdentView, i: int)
    requires
        0 <= i <= stopping.len(),
        forall|j: int| 0 <= j < i ==> (#[trigger] stopping[j]).service.spec.ident != ident,
        i < stopping.len() ==> stopping[i].service.spec.ident == ident,
    ensures
        stopping_place_of(stopping, ident) == i,
    decreases stopping.len(),
{
    if stopping.len() == 0 {
    } else if i == 0 {
    } else {
        assert(stopping[0].service.spec.ident != ident);
        let rest = stopping.drop_first();
        assert forall|j: int| 0 <= j < i - 1 implies (#[trigger] rest[j]).service.spec.ident
            != ident by {
            assert(rest[j] == stopping[j + 1]);
        }
        if i < stopping.len() {
            assert(rest[i - 1] == stopping[i]);
        }
        lemma_stopping_place_of(rest, ident, i - 1);
    }
}

/// What the manager is to do for the sake of one operation.
#[derive(Debug, PartialEq, Eq)]
pub enum ServiceAction {
    /// Load and start the service of this spec, then take it among the
    /// running services.
    Start(ServiceSpec),
    /// Stop this service, which has left the running services. Where
    /// `restart` is set, the spec file of the service is to be loaded again
    /// once the service has stopped.
    Stop { service: RunningService, restart: bool },
    /// The operation names a service that does not run: there is nothing
    /// to stop.
    Skip(PackageIdent),
}

/// The mathematical value of a `ServiceAction`.
pub enum ServiceActionView {
    Start(ServiceSpecView),
    Stop { service: RunningServiceView, restart: bool },
    Skip(PackageIdentView),
}

impl View for ServiceAction {
    type V = ServiceActionView;

    open spec fn view(&self) -> ServiceActionView {
        match *self {
            ServiceAction::Start(s) => ServiceActionView::Start(s@),
            ServiceAction::Stop { service, restart } => ServiceActionView::Stop {
                service: service@,
                restart,
            },
            ServiceAction::Skip(i) => ServiceActionView::Skip(i@),
        }
    }
}

/// The views of a list of actions.
pub open spec fn actions_view(v: Seq<ServiceAction>) -> Seq<ServiceActionView> {
    v.map_values(|a: ServiceAction| a@)
}

/// The running services after one operation, and what is to be done for
/// it: a start leaves them as they are, for the service joins them only
/// when it was started; a stop and a restart take the service out, if it
/// runs.
pub open spec fn act_on(running: Seq<RunningServiceView>, op: ServiceOperationView) -> (
    Seq<RunningServiceView>,
    ServiceActionView,
) {
    match op {
        ServiceOperationView::Start(spec) => (running, ServiceActionView::Start(spec)),
        ServiceOperationView::Stop(spec) => {
            let at = place_of(running, spec.ident);
            if at < running.len() {
                (running.remove(at), ServiceActionView::Stop { service: running[at], restart: false })
            } else {
                (running, ServiceActionView::Skip(spec.ident))
            }
        },
        ServiceOperationView::Restart { to_stop, to_start } => {
            let at = place_of(running, to_stop.ident);
            if at < running.len() {
                (running.remove(at), ServiceActionView::Stop { service: running[at], restart: true })
            } else {
                (running, ServiceActionView::Skip(to_stop.ident))
            }
        },
    }
}

/// The running services after a series of operations, and what is to be
/// done for each of them, in order.
pub open spec fn act_on_all(running: Seq<RunningServiceView>, ops: Seq<ServiceOperationView>) -> (
    Seq<RunningServiceView>,
    Seq<ServiceActionView>,
)
    decreases ops.len(),
{
    if ops.len() == 0 {
        (running, Seq::<ServiceActionView>::empty())
    } else {
        let before = act_on_all(running, ops.drop_last());
        let step = act_on(before.0, ops.last());
        (step.0, before.1.push(step.1))
    }
}

/// The services under the manager.
#[derive(Debug, PartialEq, Eq)]
pub struct Services {
    /// The services that run.
    pub running: Vec<RunningService>,
    /// The services that were asked to stop and have not stopped yet.
    pub stopping: Vec<StoppingEntry>,
    /// The spec files of the services that have stopped for a restart and
    /// are to be loaded again.
    pub specs_to_reload: Vec<String>,
}

impl Services {
    /// No services.
    pub fn new() -> (r: Services)
        ensures
            r.running@.len() == 0,
            r.stopping@.len() == 0,
            r.specs_to_reload@.len() == 0,
    {
        Services { running: Vec::new(), stopping: Vec::new(), specs_to_reload: Vec::new() }
    }

    /// Where the first running service with the package `ident` stands.
    fn find(&self, ident: &PackageIdent) -> (r: usize)
        ensures
            r == place_of(running_view(self.running@), ident@),
            r <= self.running@.len(),
    {
        let ghost all = running_view(self.running@);
        let mut i: usize = 0;
        while i < self.running.len()
            invariant
                i <= self.running.len(),
                all == running_view(self.running@),
                forall|j: int| 0 <= j < i ==> (#[trigger] all[j]).spec.ident != ident@,
            decreases self.running.len() - i,
        {
            if self.running[i].spec.ident.same(ident) {
                proof {
                    lemma_place_found(all, ident@, i as int);
                }
                return i;
            }
            i = i + 1;
        }
        proof {
            lemma_place_found(all, ident@, i as int);
        }
        i
    }

    /// Where the first stopping service with the package `ident` stands.
    fn find_stopping(&self, ident: &PackageIdent) -> (r: usize)
        ensures
            r == stopping_place_of(stopping_view(self.stopping@), ident@),
            r <= self.stopping@.len(),
    {
        let ghost all = stopping_view(self.stopping@);
        let mut i: usize = 0;
        while i < self.stopping.len()
            invariant
                i <= self.stopping.len(),
                all == stopping_view(self.stopping@),
                forall|j: int| 0 <= j < i ==> (#[trigger] all[j]).service.spec.ident != ident@,
            decreases self.stopping.len() - i,
        {
            if self.stopping[i].service.spec.ident.same(ident) {
                proof {
                    lemma_stopping_place_of(all, ident@, i as int);
                }
                return i;
            }
            i = i + 1;
        }
        proof {
            lemma_stopping_place_of(all, ident@, i as int);
        }
        i
    }

    /// The specs that the running services run with, in order.
    pub fn running_specs(&self) -> (r: Vec<ServiceSpec>)
        ensures
            r@.len() == self.running@.len(),
            forall|i: int| 0 <= i < r@.len() ==> (#[trigger] r@[i])@ == self.running@[i]@.spec,
    {
        let mut out: Vec<ServiceSpec> = Vec::new();
        let mut i: usize = 0;
        while i < self.running.len()
            invariant
                i <= self.running.len(),
                out@.len() == i,
                forall|j: int| 0 <= j < i ==> (#[trigger] out@[j])@ == self.running@[j]@.spec,
            decreases self.running.len() - i,
        {
            out.push(self.running[i].to_spec());
            i = i + 1;
        }
        out
    }

    /// Takes a service that was started among the running services. It
    /// takes the place of a running service with the same package, if
    /// there is one, else it comes last.
    pub fn add_service(&mut self, service: RunningService)
        ensures
            final(self).stopping == old(self).stopping,
            final(self).specs_to_reload == old(self).specs_to_reload,
            ({
                let before = running_view(old(self).running@);
                let at = place_of(before, service@.spec.ident);
                running_view(final(self).running@) == if at < before.len() {
                    before.update(at, service@)
                } else {
                    before.push(service@)
                }
            }),
    {
        let at = self.find(&service.spec.ident);
        let ghost before = running_view(self.running@);
        let ghost s = service@;
        if at < self.running.len() {
            self.running.set(at, service);
            assert(running_view(self.running@) =~= before.update(at as int, s));
        } else {
            self.running.push(service);
            assert(running_view(self.running@) =~= before.push(s));
        }
    }

    /// Takes the running service with the package `ident` out of the
    /// running services, if there is one.
    pub fn remove_service_from_state(&mut self, ident: &PackageIdent) -> (r: Option<RunningService>)
        ensures
            final(self).stopping == old(self).stopping,
            final(self).specs_to_reload == old(self).specs_to_reload,
            ({
                let before = running_view(old(self).running@);
                let at = place_of(before, ident@);
                if at < before.len() {
                    &&& r matches Some(service)
                    &&& service@ == before[at]
                    &&& running_view(final(self).running@) == before.remove(at)
                } else {
                    r is None && running_view(final(self).running@) == before
                }
            }),
    {
        let at = self.find(ident);
        let ghost before = running_view(self.running@);
        if at < self.running.len() {
            let service = self.running.remove(at);
            assert(running_view(self.running@) =~= before.remove(at as int));
            Some(service)
        } else {
            None
        }
    }

    /// Does what one operation asks for, as far as the running services
    /// go.
    pub fn take_action(&mut self, op: ServiceOperation) -> (r: ServiceAction)
        ensures
            final(self).stopping == old(self).stopping,
            final(self).specs_to_reload == old(self).specs_to_reload,
            (running_view(final(self).running@), r@) == act_on(
                running_view(old(self).running@),
                op@,
            ),
    {
        match op {
            ServiceOperation::Start(spec) => ServiceAction::Start(spec),
            ServiceOperation::Stop(spec) => match self.remove_service_from_state(&spec.ident) {
                Some(service) => ServiceAction::Stop { service, restart: false },
                None => ServiceAction::Skip(spec.ident),
            },
            ServiceOperation::Restart { to_stop, to_start } => match self.remove_service_from_state(
                &to_stop.ident,
            ) {
                Some(service) => ServiceAction::Stop { service, restart: true },
                None => ServiceAction::Skip(to_stop.ident),
            },
        }
    }

    /// Brings the running services in line with what the operations of a
    /// reconciliation ask for: says, for each operation in order, what is
    /// to be done, and takes the services that are to stop out of the
    /// running services.
    pub fn take_action_on_services(&mut self, ops: Vec<ServiceOperation>) -> (r: Vec<ServiceAction>)
        ensures
            final(self).stopping == old(self).stopping,
            final(self).specs_to_reload == old(self).specs_to_reload,
            (running_view(final(self).running@), actions_view(r@)) == act_on_all(
                running_view(old(self).running@),
                operations_view(ops@),
            ),
    {
        let ghost start = running_view(self.running@);
        let ghost all = operations_view(ops@);
        let n = ops.len();
        let mut pending = reversed(ops);
        let mut actions: Vec<ServiceAction> = Vec::new();
        assert(forall|j: int|
            0 <= j < pending@.len() ==> (#[trigger] pending@[j])@ == all[n - 1 - j]);
        let mut i: usize = 0;
        assert(all.subrange(0, 0) =~= Seq::<ServiceOperationView>::empty());
        assert(actions_view(actions@) =~= Seq::<ServiceActionView>::empty());
        while i < n
            invariant
                i <= n,
                all.len() == n,
                pending@.len() == n - i,
                forall|j: int| 0 <= j < pending@.len() ==> (#[trigger] pending@[j])@ == all[n - 1 - j],
                self.stopping == old(self).stopping,
                self.specs_to_reload == old(self).specs_to_reload,
                (running_view(self.running@), actions_view(actions@)) == act_on_all(
                    start,
                    all.subrange(0, i as int),
                ),
            decreases n - i,
        {
            let op = pending.pop().unwrap();
            assert(op@ == all[i as int]);
            let ghost done = actions_view(actions@);
            let action = self.take_action(op);
            let ghost a = action@;
            actions.push(action);
            proof {
                let upto = all.subrange(0, i + 1);
                assert(upto.drop_last() =~= all.subrange(0, i as int));
                assert(upto.last() == all[i as int]);
                assert(actions_view(actions@) =~= done.push(a));
            }
            i = i + 1;
        }
        assert(all.subrange(0, n as int) =~= all);
        actions
    }

    /// Takes note that a service was asked to stop.
    pub fn begin_stop(&mut self, service: RunningService, restart: bool)
        ensures
            final(self).running == old(self).running,
            final(self).specs_to_reload == old(self).specs_to_reload,
            stopping_view(final(self).stopping@) == stopping_view(old(self).stopping@).push(
                StoppingEntryView { service: service@, restart },
            ),
    {
        let ghost before = stopping_view(self.stopping@);
        let entry = StoppingEntry { service, restart };
        let ghost e = entry@;
        self.stopping.push(entry);
        assert(stopping_view(self.stopping@) =~= before.push(e));
    }

    /// Takes note that the stopping service with the package `ident` has
    /// stopped, well or not. The service is no longer a stopping one, and
    /// its place among the update states is given up, however the stop
    /// went. If the service stopped well and is to be started again, its
    /// spec file joins the files to load again: once, for the service is
    /// no longer among the stopping ones afterwards. Returns the service,
    /// if one was stopping.
    pub fn stop_finished(
        &mut self,
        ident: &PackageIdent,
        stopped: &Result<(), Error>,
        updater: &mut ServiceUpdater,
    ) -> (r: Option<RunningService>)
        requires
            old(updater).wf(),
        ensures
            final(updater).wf(),
            final(self).running == old(self).running,
            ({
                let before = stopping_view(old(self).stopping@);
                let queue = paths_view(old(self).specs_to_reload@);
                let at = stopping_place_of(before, ident@);
                if at < before.len() {
                    &&& r matches Some(service)
                    &&& service@ == before[at].service
                    &&& stopping_view(final(self).stopping@) == before.remove(at)
                    &&& final(updater).states() == old(updater).states().remove(
                        before[at].service.service_group,
                    )
                    &&& paths_view(final(self).specs_to_reload@) == if before[at].restart
                        && *stopped is Ok {
                        queue.push(before[at].service.spec_file)
                    } else {
                        queue
                    }
                } else {
                    &&& r is None
                    &&& stopping_view(final(self).stopping@) == before
                    &&& paths_view(final(self).specs_to_reload@) == queue
                    &&& final(updater).states() == old(updater).states()
                }
            }),
    {
        let ghost before = stopping_view(self.stopping@);
        let ghost queue = paths_view(self.specs_to_reload@);
        let i = self.find_stopping(ident);
        if i < self.stopping.len() {
            let entry = self.stopping.remove(i);
            assert(stopping_view(self.stopping@) =~= before.remove(i as int));
            updater.remove(&entry.service.service_group);
            let well = match stopped {
                Ok(_) => true,
                Err(_) => false,
            };
            if entry.restart && well {
                self.specs_to_reload.push(entry.service.spec_file.clone());
                assert(paths_view(self.specs_to_reload@) =~= queue.push(entry@.service.spec_file));
            }
            Some(entry.service)
        } else {
            None
        }
    }

    /// Hands out the spec files of the services that have stopped for a
    /// restart, in the order in which they stopped, and forgets them: each
    /// is to be loaded again, as a spec of a service that is to be up.
    pub fn finish_restarting_services(&mut self) -> (r: Vec<String>)
        ensures
            final(self).running == old(self).running,
            final(self).stopping == old(self).stopping,
            r == old(self).specs_to_reload,
            final(self).specs_to_reload@.len() == 0,
    {
        let mut paths: Vec<String> = Vec::new();
        std::mem::swap(&mut self.specs_to_reload, &mut paths);
        paths
    }
}

/// The spec of a service that is started again after it has stopped for a
/// restart: the spec that its file holds, meant to be up whatever the file
/// says.
pub fn reloaded_spec(spec: ServiceSpec) -> (r: ServiceSpec)
    ensures
        r@ == (ServiceSpecView { desired_state: DesiredState::Up, ..spec@ }),
{
    let mut spec = spec;
    spec.desired_state = DesiredState::Up;
    spec
}

} // verus!

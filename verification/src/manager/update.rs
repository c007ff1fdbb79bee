//! Restarting services for which an update has been installed.

use vstd::prelude::*;
use crate::ident::{PackageIdent, PackageIdentView};
use crate::manager::services::{
    place_of, running_view, stopping_view, RunningService, RunningServiceView, Services,
    StoppingEntryView,
};
use crate::spec::ServiceGroupView;
use crate::vecs::reversed;
use crate::updater::{
    transition, CensusGroup, CensusGroupView, ServiceUpdater, UpdateOutcome, UpdateOutcomeView,
    UpdaterStateView, WorkerEvent, WorkerEventView,
};

verus! {

/// What is known of one service when its update is checked.
#[derive(Debug, PartialEq, Eq)]
pub struct UpdateInput {
    /// The package of the service's spec.
    pub ident: PackageIdent,
    /// The census of the service's group, if the group is in the census.
    pub census: Option<CensusGroup>,
    /// What the channel of the group's worker held. It counts only where
    /// the group has a worker.
    pub worker: WorkerEvent,
}

/// The mathematical value of an `UpdateInput`.
pub struct UpdateInputView {
    pub ident: PackageIdentView,
    pub census: Option<CensusGroupView>,
    pub worker: WorkerEventView,
}

impl View for UpdateInput {
    type V = UpdateInputView;

    open spec fn view(&self) -> UpdateInputView {
        UpdateInputView {
            ident: self.ident@,
            census: match self.census {
                Some(c) => Some(c@),
                None => None,
            },
            worker: self.worker@,
        }
    }
}

/// The views of a list of inputs.
pub open spec fn inputs_view(v: Seq<UpdateInput>) -> Seq<UpdateInputView> {
    v.map_values(|i: UpdateInput| i@)
}

/// The views of a list of packages with what their update check asked for.
pub open spec fn results_view(v: Seq<(PackageIdent, UpdateOutcome)>) -> Seq<
    (PackageIdentView, UpdateOutcomeView),
> {
    v.map_values(|r: (PackageIdent, UpdateOutcome)| (r.0@, r.1@))
}

/// The services and update states of the manager, as far as update checks
/// change them.
pub struct UpdateState {
    pub running: Seq<RunningServiceView>,
    pub stopping: Seq<StoppingEntryView>,
    pub states: Map<ServiceGroupView, UpdaterStateView>,
    pub results: Seq<(PackageIdentView, UpdateOutcomeView)>,
}

/// The update check of one service. A service that does not run is passed
/// over. For one that runs, the updater of its group makes one step; if
/// that gives an updated package, the service leaves the running services
/// and is from now on a stopping one, to be started again when it has
/// stopped.
pub open spec fn check_one(state: UpdateState, input: UpdateInputView) -> UpdateState {
    let at = place_of(state.running, input.ident);
    if at >= state.running.len() {
        state
    } else {
        let service = state.running[at];
        let group = service.service_group;
        if !state.states.contains_key(group) {
            UpdateState {
                results: state.results.push((input.ident, UpdateOutcomeView::NoChange)),
                ..state
            }
        } else {
            let next = transition(
                state.states[group],
                service.spec.topology,
                input.census,
                input.worker,
            );
            let states = state.states.insert(group, next.0);
            let results = state.results.push((input.ident, next.1));
            if next.1 is Updated {
                UpdateState {
                    running: state.running.remove(at),
                    stopping: state.stopping.push(StoppingEntryView { service, restart: true }),
                    states,
                    results,
                }
            } else {
                UpdateState { states, results, ..state }
            }
        }
    }
}

/// The update checks of a series of services, in order.
pub open spec fn check_all(state: UpdateState, inputs: Seq<UpdateInputView>) -> UpdateState
    decreases inputs.len(),
{
    if inputs.len() == 0 {
        state
    } else {
        check_one(check_all(state, inputs.drop_last()), inputs.last())
    }
}

/// Where the first running service with the package `ident` stands.
fn find(running: &Vec<RunningService>, ident: &PackageIdent) -> (r: usize)
    ensures
        r == place_of(running_view(running@), ident@),
        r <= running@.len(),
{
    let ghost all = running_view(running@);
    let mut i: usize = 0;
    while i < running.len()
        invariant
            i <= running.len(),
            all == running_view(running@),
            forall|j: int| 0 <= j < i ==> (#[trigger] all[j]).spec.ident != ident@,
        decreases running.len() - i,
    {
        if running[i].spec.ident.same(ident) {
            proof {
                crate::manager::services::lemma_place_found(all, ident@, i as int);
            }
            return i;
        }
        i = i + 1;
    }
    proof {
        crate::manager::services::lemma_place_found(all, ident@, i as int);
    }
    i
}

/// Checks each service for an updated package and takes those that have
/// one out of the running services, to be stopped and started again.
/// `inputs` holds, for each service to check, the census of its group and
/// what its worker's channel held. Returns, for each service that was
/// checked, what the caller is to do for it.
pub fn shutdown_services_for_update(
    services: &mut Services,
    updater: &mut ServiceUpdater,
    inputs: Vec<UpdateInput>,
) -> (r: Vec<(PackageIdent, UpdateOutcome)>)
    requires
        old(updater).wf(),
    ensures
        final(updater).wf(),
        final(services).specs_to_reload == old(services).specs_to_reload,
        (UpdateState {
            running: running_view(final(services).running@),
            stopping: stopping_view(final(services).stopping@),
            states: final(updater).states(),
            results: results_view(r@),
        }) == check_all(
            UpdateState {
                running: running_view(old(services).running@),
                stopping: stopping_view(old(services).stopping@),
                states: old(updater).states(),
                results: Seq::<(PackageIdentView, UpdateOutcomeView)>::empty(),
            },
            inputs_view(inputs@),
        ),
{
    let ghost start = UpdateState {
        running: running_view(services.running@),
        stopping: stopping_view(services.stopping@),
        states: updater.states(),
        results: Seq::<(PackageIdentView, UpdateOutcomeView)>::empty(),
    };
    let ghost all = inputs_view(inputs@);
    let n = inputs.len();
    let mut pending = reversed(inputs);
    assert(forall|j: int| 0 <= j < pending@.len() ==> (#[trigger] pending@[j])@ == all[n - 1 - j]);
    let mut results: Vec<(PackageIdent, UpdateOutcome)> = Vec::new();
    let mut i: usize = 0;
    assert(all.subrange(0, 0) =~= Seq::<UpdateInputView>::empty());
    assert(results_view(results@) =~= Seq::<(PackageIdentView, UpdateOutcomeView)>::empty());
    while i < n
        invariant
            i <= n,
            all.len() == n,
            pending@.len() == n - i,
            forall|j: int| 0 <= j < pending@.len() ==> (#[trigger] pending@[j])@ == all[n - 1 - j],
            updater.wf(),
            services.specs_to_reload == old(services).specs_to_reload,
            (UpdateState {
                running: running_view(services.running@),
                stopping: stopping_view(services.stopping@),
                states: updater.states(),
                results: results_view(results@),
            }) == check_all(start, all.subrange(0, i as int)),
        decreases n - i,
    {
        let input = pending.pop().unwrap();
        assert(input@ == all[i as int]);
        let ghost before = UpdateState {
            running: running_view(services.running@),
            stopping: stopping_view(services.stopping@),
            states: updater.states(),
            results: results_view(results@),
        };
        proof {
            let upto = all.subrange(0, i + 1);
            assert(upto.drop_last() =~= all.subrange(0, i as int));
            assert(upto.last() == all[i as int]);
        }
        let at = find(&services.running, &input.ident);
        if at < services.running.len() {
            let UpdateInput { ident, census, worker } = input;
            let group = services.running[at].service_group.clone();
            let topology = services.running[at].spec.topology;
            let census_ref = match &census {
                Some(c) => Some(c),
                None => None,
            };
            let outcome = updater.check_for_updated_package(&group, topology, census_ref, worker);
            let updated = outcome.updated();
            let ghost o = outcome@;
            let ghost id = ident@;
            results.push((ident, outcome));
            assert(results_view(results@) =~= before.results.push((id, o)));
            if updated {
                let service = services.running.remove(at);
                assert(running_view(services.running@) =~= before.running.remove(at as int));
                services.begin_stop(service, true);
            }
        }
        i = i + 1;
    }
    assert(all.subrange(0, n as int) =~= all);
    results
}

} // verus!

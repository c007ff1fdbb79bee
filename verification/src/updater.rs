//! The update state machine of a service group.
//!
//! A group with the at-once strategy has a worker that looks for a newer
//! package; so has the leader of a rolling update while it polls, and a
//! follower while it updates. The machine never blocks: each check takes what
//! the worker's channel held and a snapshot of the group's census, and says
//! what the caller is to do.

use vstd::prelude::*;
use crate::ident::{PackageIdent, PackageIdentView};
use crate::spec::{ServiceGroup, ServiceGroupView, Topology, UpdateStrategy};

verus! {

/// The view of an optional package identifier.
pub open spec fn opt_ident(o: Option<PackageIdent>) -> Option<PackageIdentView> {
    match o {
        Some(p) => Some(p@),
        None => None,
    }
}

/// Whether two optional identifiers are the same.
pub fn same_opt_ident(a: &Option<PackageIdent>, b: &Option<PackageIdent>) -> (r: bool)
    ensures
        r == (opt_ident(*a) == opt_ident(*b)),
{
    match (a, b) {
        (Some(x), Some(y)) => x.same(y),
        (None, None) => true,
        _ => false,
    }
}

/// A copy of an optional identifier.
pub fn copy_opt_ident(a: &Option<PackageIdent>) -> (r: Option<PackageIdent>)
    ensures
        opt_ident(r) == opt_ident(*a),
{
    match a {
        Some(x) => Some(x.clone()),
        None => None,
    }
}

/// What the census knows of one member of a service group.
#[derive(Debug, PartialEq, Eq)]
pub struct CensusMember {
    pub member_id: String,
    pub pkg: Option<PackageIdent>,
}

/// The mathematical value of a `CensusMember`.
pub struct CensusMemberView {
    pub member_id: Seq<char>,
    pub pkg: Option<PackageIdentView>,
}

impl View for CensusMember {
    type V = CensusMemberView;

    open spec fn view(&self) -> CensusMemberView {
        CensusMemberView { member_id: self.member_id@, pkg: opt_ident(self.pkg) }
    }
}

/// The view of an optional member.
pub open spec fn opt_member(o: Option<CensusMember>) -> Option<CensusMemberView> {
    match o {
        Some(m) => Some(m@),
        None => None,
    }
}

/// The views of a list of members.
pub open spec fn members_view(v: Seq<CensusMember>) -> Seq<CensusMemberView> {
    v.map_values(|m: CensusMember| m@)
}

/// A snapshot of the census of one service group, as this supervisor sees it.
#[derive(Debug, PartialEq, Eq)]
pub struct CensusGroup {
    /// This supervisor's own entry.
    pub me: Option<CensusMember>,
    /// The leader of the group, in a leader topology.
    pub leader: Option<CensusMember>,
    /// The member that leads the current update.
    pub update_leader: Option<CensusMember>,
    /// The member just before this one in the ring of members.
    pub previous_peer: Option<CensusMember>,
    /// All members of the group.
    pub members: Vec<CensusMember>,
}

/// The mathematical value of a `CensusGroup`.
pub struct CensusGroupView {
    pub me: Option<CensusMemberView>,
    pub leader: Option<CensusMemberView>,
    pub update_leader: Option<CensusMemberView>,
    pub previous_peer: Option<CensusMemberView>,
    pub members: Seq<CensusMemberView>,
}

impl View for CensusGroup {
    type V = CensusGroupView;

    open spec fn view(&self) -> CensusGroupView {
        CensusGroupView {
            me: opt_member(self.me),
            leader: opt_member(self.leader),
            update_leader: opt_member(self.update_leader),
            previous_peer: opt_member(self.previous_peer),
            members: members_view(self.members@),
        }
    }
}

/// The view of an optional reference to a census snapshot.
pub open spec fn opt_census(o: Option<&CensusGroup>) -> Option<CensusGroupView> {
    match o {
        Some(c) => Some(c@),
        None => None,
    }
}

impl CensusGroupView {
    /// Whether some member reports another package than this supervisor does.
    pub open spec fn someone_differs(self) -> bool {
        exists|i: int|
            0 <= i < self.members.len() && (#[trigger] self.members[i]).pkg != self.me->0.pkg
    }
}

/// What the channel of a worker held when it was last looked at.
#[derive(Debug, PartialEq, Eq)]
pub enum WorkerEvent {
    /// Nothing yet; the worker is still at it.
    Empty,
    /// The worker has installed this package.
    Package(PackageIdent),
    /// The worker is gone without a word.
    Disconnected,
}

/// The mathematical value of a `WorkerEvent`.
pub enum WorkerEventView {
    Empty,
    Package(PackageIdentView),
    Disconnected,
}

impl View for WorkerEvent {
    type V = WorkerEventView;

    open spec fn view(&self) -> WorkerEventView {
        match *self {
            WorkerEvent::Empty => WorkerEventView::Empty,
            WorkerEvent::Package(p) => WorkerEventView::Package(p@),
            WorkerEvent::Disconnected => WorkerEventView::Disconnected,
        }
    }
}

/// Where the leader of a rolling update stands.
#[derive(Debug, Clone, Copy, PartialEq, Eq, Structural)]
pub enum LeaderState {
    /// A worker looks for a newer package.
    Polling,
    /// Waiting until every member reports the leader's package.
    Waiting,
}

/// Where a follower of a rolling update stands.
#[derive(Debug, PartialEq, Eq)]
pub enum FollowerState {
    /// Waiting for its turn.
    Waiting,
    /// A worker installs `target`, the package that the update leader had
    /// when the follower's turn came.
    Updating { target: Option<PackageIdent> },
}

/// The phases of a rolling update.
#[derive(Debug, PartialEq, Eq)]
pub enum RollingState {
    AwaitingElection,
    InElection,
    Leader(LeaderState),
    Follower(FollowerState),
}

/// The state of the updater of one service group.
#[derive(Debug, PartialEq, Eq)]
pub enum UpdaterState {
    /// A worker looks for a newer package.
    AtOnce,
    /// The group updates one member after the other.
    Rolling(RollingState),
}

/// The mathematical value of an `UpdaterState`.
pub enum UpdaterStateView {
    AtOnce,
    AwaitingElection,
    InElection,
    LeaderPolling,
    LeaderWaiting,
    FollowerWaiting,
    FollowerUpdating { target: Option<PackageIdentView> },
}

impl View for UpdaterState {
    type V = UpdaterStateView;

    open spec fn view(&self) -> UpdaterStateView {
        match *self {
            UpdaterState::AtOnce => UpdaterStateView::AtOnce,
            UpdaterState::Rolling(RollingState::AwaitingElection) => UpdaterStateView::AwaitingElection,
            UpdaterState::Rolling(RollingState::InElection) => UpdaterStateView::InElection,
            UpdaterState::Rolling(RollingState::Leader(LeaderState::Polling)) => UpdaterStateView::LeaderPolling,
            UpdaterState::Rolling(RollingState::Leader(LeaderState::Waiting)) => UpdaterStateView::LeaderWaiting,
            UpdaterState::Rolling(RollingState::Follower(FollowerState::Waiting)) => UpdaterStateView::FollowerWaiting,
            UpdaterState::Rolling(
                RollingState::Follower(FollowerState::Updating { target }),
            ) => UpdaterStateView::FollowerUpdating { target: opt_ident(target) },
        }
    }
}

impl UpdaterStateView {
    /// Whether a worker belongs to the state, so that its channel is to be
    /// looked at before the next check.
    pub open spec fn has_worker(self) -> bool {
        self is AtOnce || self is LeaderPolling || self is FollowerUpdating
    }
}

/// What a check of the updater asks of its caller.
#[derive(Debug, PartialEq, Eq)]
pub enum UpdateOutcome {
    /// Nothing to do.
    NoChange,
    /// The worker has installed a package: the service is to be restarted
    /// with it.
    Updated(PackageIdent),
    /// An update election is to be requested of the gossip layer, with this
    /// suitability.
    StartElection { suitability: u64 },
    /// A worker is to be started. With a target it fetches that package
    /// once; without one it polls for a newer package.
    StartWorker { target: Option<PackageIdent> },
}

/// The mathematical value of an `UpdateOutcome`.
pub enum UpdateOutcomeView {
    NoChange,
    Updated(PackageIdentView),
    StartElection { suitability: u64 },
    StartWorker { target: Option<PackageIdentView> },
}

impl View for UpdateOutcome {
    type V = UpdateOutcomeView;

    open spec fn view(&self) -> UpdateOutcomeView {
        match *self {
            UpdateOutcome::NoChange => UpdateOutcomeView::NoChange,
            UpdateOutcome::Updated(p) => UpdateOutcomeView::Updated(p@),
            UpdateOutcome::StartElection { suitability } => UpdateOutcomeView::StartElection {
                suitability,
            },
            UpdateOutcome::StartWorker { target } => UpdateOutcomeView::StartWorker {
                target: opt_ident(target),
            },
        }
    }
}

impl UpdateOutcome {
    /// Whether the service has a new package.
    pub fn updated(&self) -> (r: bool)
        ensures
            r == (self@ is Updated),
    {
        match self {
            UpdateOutcome::Updated(_) => true,
            _ => false,
        }
    }
}

/// What a state with a worker does with what the worker's channel held:
/// a package is taken and leads to `done`; a dead worker is replaced by one
/// with the same target.
pub open spec fn worker_step(
    state: UpdaterStateView,
    done: UpdaterStateView,
    target: Option<PackageIdentView>,
    worker: WorkerEventView,
) -> (UpdaterStateView, UpdateOutcomeView) {
    match worker {
        WorkerEventView::Package(p) => (done, UpdateOutcomeView::Updated(p)),
        WorkerEventView::Empty => (state, UpdateOutcomeView::NoChange),
        WorkerEventView::Disconnected => (state, UpdateOutcomeView::StartWorker { target }),
    }
}

/// The suitability with which a member of a leader topology stands for
/// update leader: the current leader stands with the lowest.
pub open spec fn update_suitability(me: CensusMemberView, leader: CensusMemberView) -> u64 {
    if me.member_id == leader.member_id {
        u64::MIN
    } else {
        u64::MAX
    }
}

/// One check of the updater: the next state and what the caller is to do.
pub open spec fn transition(
    state: UpdaterStateView,
    topology: Topology,
    census: Option<CensusGroupView>,
    worker: WorkerEventView,
) -> (UpdaterStateView, UpdateOutcomeView) {
    match state {
        UpdaterStateView::AtOnce => worker_step(state, state, None, worker),
        UpdaterStateView::LeaderPolling => worker_step(
            state,
            UpdaterStateView::LeaderWaiting,
            None,
            worker,
        ),
        UpdaterStateView::FollowerUpdating { target } => worker_step(
            state,
            UpdaterStateView::FollowerWaiting,
            target,
            worker,
        ),
        UpdaterStateView::AwaitingElection => match census {
            None => (state, UpdateOutcomeView::NoChange),
            Some(group) => if topology is Leader {
                if group.me is Some && group.leader is Some {
                    (
                        UpdaterStateView::InElection,
                        UpdateOutcomeView::StartElection {
                            suitability: update_suitability(group.me->0, group.leader->0),
                        },
                    )
                } else {
                    (state, UpdateOutcomeView::NoChange)
                }
            } else {
                (UpdaterStateView::InElection, UpdateOutcomeView::StartElection { suitability: 0 })
            },
        },
        UpdaterStateView::InElection => match census {
            None => (state, UpdateOutcomeView::NoChange),
            Some(group) => if group.me is Some && group.update_leader is Some {
                if group.me->0.member_id == group.update_leader->0.member_id {
                    (UpdaterStateView::LeaderWaiting, UpdateOutcomeView::NoChange)
                } else {
                    (UpdaterStateView::FollowerWaiting, UpdateOutcomeView::NoChange)
                }
            } else {
                (state, UpdateOutcomeView::NoChange)
            },
        },
        UpdaterStateView::LeaderWaiting => match census {
            None => (state, UpdateOutcomeView::NoChange),
            Some(group) => if group.me is Some && !group.someone_differs() {
                (UpdaterStateView::LeaderPolling, UpdateOutcomeView::StartWorker { target: None })
            } else {
                (state, UpdateOutcomeView::NoChange)
            },
        },
        UpdaterStateView::FollowerWaiting => match census {
            None => (state, UpdateOutcomeView::NoChange),
            Some(group) => if follower_may_update(group) {
                (
                    UpdaterStateView::FollowerUpdating { target: group.update_leader->0.pkg },
                    UpdateOutcomeView::StartWorker { target: group.update_leader->0.pkg },
                )
            } else {
                (state, UpdateOutcomeView::NoChange)
            },
        },
    }
}

/// Whether it is a follower's turn: an update is under way (the update
/// leader's package is not the follower's own) and the member just before
/// the follower already reports the update leader's package.
pub open spec fn follower_may_update(group: CensusGroupView) -> bool {
    &&& group.update_leader is Some
    &&& group.previous_peer is Some
    &&& group.me is Some
    &&& group.update_leader->0.pkg != group.me->0.pkg
    &&& group.update_leader->0.pkg == group.previous_peer->0.pkg
}

/// Whether some member of the group reports another package than `mine`.
fn someone_differs(group: &CensusGroup, mine: &Option<PackageIdent>) -> (r: bool)
    requires
        group.me is Some,
        opt_ident(*mine) == group@.me->0.pkg,
    ensures
        r == group@.someone_differs(),
{
    let mut i: usize = 0;
    while i < group.members.len()
        invariant
            i <= group.members.len(),
            group.me is Some,
            opt_ident(*mine) == group@.me->0.pkg,
            forall|j: int| 0 <= j < i ==> (#[trigger] group@.members[j]).pkg == group@.me->0.pkg,
        decreases group.members.len() - i,
    {
        if !same_opt_ident(&group.members[i].pkg, mine) {
            assert(group@.members[i as int].pkg != group@.me->0.pkg);
            return true;
        }
        i = i + 1;
    }
    false
}

/// A copy of a state.
pub fn copy_state(state: &UpdaterState) -> (r: UpdaterState)
    ensures
        r@ == state@,
{
    match state {
        UpdaterState::AtOnce => UpdaterState::AtOnce,
        UpdaterState::Rolling(RollingState::AwaitingElection) => UpdaterState::Rolling(
            RollingState::AwaitingElection,
        ),
        UpdaterState::Rolling(RollingState::InElection) => UpdaterState::Rolling(
            RollingState::InElection,
        ),
        UpdaterState::Rolling(RollingState::Leader(LeaderState::Polling)) => UpdaterState::Rolling(
            RollingState::Leader(LeaderState::Polling),
        ),
        UpdaterState::Rolling(RollingState::Leader(LeaderState::Waiting)) => UpdaterState::Rolling(
            RollingState::Leader(LeaderState::Waiting),
        ),
        UpdaterState::Rolling(RollingState::Follower(FollowerState::Waiting)) => UpdaterState::Rolling(
            RollingState::Follower(FollowerState::Waiting),
        ),
        UpdaterState::Rolling(
            RollingState::Follower(FollowerState::Updating { target }),
        ) => UpdaterState::Rolling(
            RollingState::Follower(FollowerState::Updating { target: copy_opt_ident(target) }),
        ),
    }
}

/// What a state with a worker does with what the worker's channel held.
fn on_worker(state: UpdaterState, done: UpdaterState, target: Option<PackageIdent>, worker: WorkerEvent) -> (r:
    (UpdaterState, UpdateOutcome))
    ensures
        (r.0@, r.1@) == worker_step(state@, done@, opt_ident(target), worker@),
{
    match worker {
        WorkerEvent::Package(p) => (done, UpdateOutcome::Updated(p)),
        WorkerEvent::Empty => (state, UpdateOutcome::NoChange),
        WorkerEvent::Disconnected => (state, UpdateOutcome::StartWorker { target }),
    }
}

/// One check of the updater of a group: takes the state, the topology of the
/// service, the census of its group if there is one, and what the worker's
/// channel held, and gives the next state and what the caller is to do.
pub fn step(
    state: &UpdaterState,
    topology: Topology,
    census: Option<&CensusGroup>,
    worker: WorkerEvent,
) -> (r: (UpdaterState, UpdateOutcome))
    ensures
        (r.0@, r.1@) == transition(state@, topology, opt_census(census), worker@),
{
    match state {
        UpdaterState::AtOnce => on_worker(UpdaterState::AtOnce, UpdaterState::AtOnce, None, worker),
        UpdaterState::Rolling(RollingState::Leader(LeaderState::Polling)) => on_worker(
            UpdaterState::Rolling(RollingState::Leader(LeaderState::Polling)),
            UpdaterState::Rolling(RollingState::Leader(LeaderState::Waiting)),
            None,
            worker,
        ),
        UpdaterState::Rolling(RollingState::Follower(FollowerState::Updating { target })) => {
            on_worker(
                copy_state(state),
                UpdaterState::Rolling(RollingState::Follower(FollowerState::Waiting)),
                copy_opt_ident(target),
                worker,
            )
        },
        UpdaterState::Rolling(RollingState::AwaitingElection) => {
            let stay = (UpdaterState::Rolling(RollingState::AwaitingElection), UpdateOutcome::NoChange);
            match census {
                None => stay,
                Some(group) => match topology {
                    Topology::Leader => match (&group.me, &group.leader) {
                        (Some(me), Some(leader)) => {
                            let suitability = if me.member_id == leader.member_id {
                                u64::MIN
                            } else {
                                u64::MAX
                            };
                            (
                                UpdaterState::Rolling(RollingState::InElection),
                                UpdateOutcome::StartElection { suitability },
                            )
                        },
                        _ => stay,
                    },
                    Topology::Standalone => (
                        UpdaterState::Rolling(RollingState::InElection),
                        UpdateOutcome::StartElection { suitability: 0 },
                    ),
                },
            }
        },
        UpdaterState::Rolling(RollingState::InElection) => {
            let stay = (UpdaterState::Rolling(RollingState::InElection), UpdateOutcome::NoChange);
            match census {
                None => stay,
                Some(group) => match (&group.me, &group.update_leader) {
                    (Some(me), Some(leader)) => {
                        if me.member_id == leader.member_id {
                            (
                                UpdaterState::Rolling(RollingState::Leader(LeaderState::Waiting)),
                                UpdateOutcome::NoChange,
                            )
                        } else {
                            (
                                UpdaterState::Rolling(RollingState::Follower(FollowerState::Waiting)),
                                UpdateOutcome::NoChange,
                            )
                        }
                    },
                    _ => stay,
                },
            }
        },
        UpdaterState::Rolling(RollingState::Leader(LeaderState::Waiting)) => {
            let stay = (
                UpdaterState::Rolling(RollingState::Leader(LeaderState::Waiting)),
                UpdateOutcome::NoChange,
            );
            match census {
                None => stay,
                Some(group) => match &group.me {
                    Some(me) => {
                        if someone_differs(group, &me.pkg) {
                            stay
                        } else {
                            (
                                UpdaterState::Rolling(RollingState::Leader(LeaderState::Polling)),
                                UpdateOutcome::StartWorker { target: None },
                            )
                        }
                    },
                    None => stay,
                },
            }
        },
        UpdaterState::Rolling(RollingState::Follower(FollowerState::Waiting)) => {
            let stay = (
                UpdaterState::Rolling(RollingState::Follower(FollowerState::Waiting)),
                UpdateOutcome::NoChange,
            );
            match census {
                None => stay,
                Some(group) => match (&group.update_leader, &group.previous_peer, &group.me) {
                    (Some(leader), Some(peer), Some(me)) => {
                        if same_opt_ident(&leader.pkg, &me.pkg) {
                            stay
                        } else if !same_opt_ident(&leader.pkg, &peer.pkg) {
                            stay
                        } else {
                            (
                                UpdaterState::Rolling(
                                    RollingState::Follower(
                                        FollowerState::Updating { target: copy_opt_ident(&leader.pkg) },
                                    ),
                                ),
                                UpdateOutcome::StartWorker { target: copy_opt_ident(&leader.pkg) },
                            )
                        }
                    },
                    _ => stay,
                },
            }
        },
    }
}

/// What `add` has done.
#[derive(Debug, Clone, Copy, PartialEq, Eq, Structural)]
pub struct Added {
    /// Whether the updater now knows the group.
    pub known: bool,
    /// Whether the caller is to start a polling worker for the group.
    pub start_worker: bool,
}

/// The state of one group.
#[derive(Debug, PartialEq, Eq)]
pub struct UpdaterEntry {
    pub group: ServiceGroup,
    pub state: UpdaterState,
}

/// The updaters of all service groups under supervision, at most one for
/// each group.
#[derive(Debug, PartialEq, Eq)]
pub struct ServiceUpdater {
    entries: Vec<UpdaterEntry>,
}

impl ServiceUpdater {
    /// No group has two entries.
    pub closed spec fn wf(&self) -> bool {
        forall|i: int, j: int|
            0 <= i < self.entries.len() && 0 <= j < self.entries.len() && (
            #[trigger] self.entries[i]).group@ == (#[trigger] self.entries[j]).group@ ==> i == j
    }

    /// The states of the groups that the updater knows.
    pub closed spec fn states(&self) -> Map<ServiceGroupView, UpdaterStateView> {
        Map::new(
            |g: ServiceGroupView|
                exists|i: int| 0 <= i < self.entries.len() && (#[trigger] self.entries[i]).group@ == g,
            |g: ServiceGroupView|
                self.entries[choose|i: int|
                    0 <= i < self.entries.len() && (#[trigger] self.entries[i]).group@ == g].state@,
        )
    }

    /// An updater that knows no group.
    pub fn new() -> (r: Self)
        ensures
            r.wf(),
            r.states() == Map::<ServiceGroupView, UpdaterStateView>::empty(),
    {
        let r = ServiceUpdater { entries: Vec::new() };
        assert(r.states() =~= Map::<ServiceGroupView, UpdaterStateView>::empty());
        r
    }

    /// Where `group` stands among the entries.
    fn position(&self, group: &ServiceGroup) -> (r: Option<usize>)
        requires
            self.wf(),
        ensures
            match r {
                Some(i) => {
                    &&& i < self.entries.len()
                    &&& self.entries[i as int].group@ == group@
                    &&& self.states().contains_key(group@)
                    &&& self.states()[group@] == self.entries[i as int].state@
                },
                None => !self.states().contains_key(group@),
            },
    {
        let mut i: usize = 0;
        while i < self.entries.len()
            invariant
                self.wf(),
                i <= self.entries.len(),
                forall|j: int| 0 <= j < i ==> (#[trigger] self.entries[j]).group@ != group@,
            decreases self.entries.len() - i,
        {
            if self.entries[i].group.same(group) {
                proof {
                    assert(self.entries[i as int].group@ == group@);
                    let k = choose|k: int|
                        0 <= k < self.entries.len() && (#[trigger] self.entries[k]).group@ == group@;
                    assert(k == i);
                }
                return Some(i);
            }
            i = i + 1;
        }
        None
    }

    /// Whether the updater knows the group.
    pub fn tracks(&self, group: &ServiceGroup) -> (r: bool)
        requires
            self.wf(),
        ensures
            r == self.states().contains_key(group@),
    {
        self.position(group).is_some()
    }

    /// The state of the group, if the updater knows it.
    pub fn state_of(&self, group: &ServiceGroup) -> (r: Option<UpdaterState>)
        requires
            self.wf(),
        ensures
            match r {
                Some(s) => self.states().contains_key(group@) && self.states()[group@] == s@,
                None => !self.states().contains_key(group@),
            },
    {
        match self.position(group) {
            Some(i) => Some(copy_state(&self.entries[i].state)),
            None => None,
        }
    }

    /// Whether the group is in a state with a worker, so that the worker's
    /// channel is to be looked at before the next check.
    pub fn awaits_worker(&self, group: &ServiceGroup) -> (r: bool)
        requires
            self.wf(),
        ensures
            r == (self.states().contains_key(group@) && self.states()[group@].has_worker()),
    {
        match self.position(group) {
            Some(i) => match &self.entries[i].state {
                UpdaterState::AtOnce => true,
                UpdaterState::Rolling(RollingState::Leader(LeaderState::Polling)) => true,
                UpdaterState::Rolling(RollingState::Follower(FollowerState::Updating { .. })) => true,
                _ => false,
            },
            None => false,
        }
    }

    /// Takes a service group under the updater, by the update strategy of its
    /// service. A group that is known already keeps its state. A group
    /// that is newly taken up at once needs a polling worker.
    pub fn add(&mut self, group: &ServiceGroup, strategy: UpdateStrategy) -> (r: Added)
        requires
            old(self).wf(),
        ensures
            final(self).wf(),
            r.known == !(strategy is Never),
            r.start_worker == (strategy is AtOnce && !old(self).states().contains_key(group@)),
            final(self).states() == if strategy is Never || old(self).states().contains_key(group@) {
                old(self).states()
            } else if strategy is AtOnce {
                old(self).states().insert(group@, UpdaterStateView::AtOnce)
            } else {
                old(self).states().insert(group@, UpdaterStateView::AwaitingElection)
            },
    {
        let state = match strategy {
            UpdateStrategy::Never => {
                return Added { known: false, start_worker: false };
            },
            UpdateStrategy::AtOnce => UpdaterState::AtOnce,
            UpdateStrategy::Rolling => UpdaterState::Rolling(RollingState::AwaitingElection),
        };
        if self.position(group).is_some() {
            return Added { known: true, start_worker: false };
        }
        let ghost before = *self;
        let ghost s = state@;
        self.entries.push(UpdaterEntry { group: group.clone(), state });
        proof {
            let n = before.entries.len() as int;
            assert(self.entries[n].group@ == group@);
            assert forall|i: int, j: int|
                0 <= i < self.entries.len() && 0 <= j < self.entries.len() && (
                #[trigger] self.entries[i]).group@ == (#[trigger] self.entries[j]).group@ implies i
                == j by {
                if i < n {
                    assert(self.entries[i] == before.entries[i]);
                }
                if j < n {
                    assert(self.entries[j] == before.entries[j]);
                }
            }
            assert forall|g: ServiceGroupView| self.states().contains_key(g) == before.states().insert(
                group@,
                s,
            ).contains_key(g) by {
                if before.states().contains_key(g) {
                    let i = choose|i: int|
                        0 <= i < before.entries.len() && (#[trigger] before.entries[i]).group@ == g;
                    assert(self.entries[i].group@ == g);
                }
                if self.states().contains_key(g) && g != group@ {
                    let i = choose|i: int|
                        0 <= i < self.entries.len() && (#[trigger] self.entries[i]).group@ == g;
                    assert(before.entries[i].group@ == g);
                }
            }
            assert forall|g: ServiceGroupView| #[trigger]
                self.states().contains_key(g) implies self.states()[g] == before.states().insert(
                group@,
                s,
            )[g] by {
                let i = choose|i: int|
                    0 <= i < self.entries.len() && (#[trigger] self.entries[i]).group@ == g;
                if g != group@ {
                    assert(before.entries[i].group@ == g);
                    let k = choose|k: int|
                        0 <= k < before.entries.len() && (#[trigger] before.entries[k]).group@ == g;
                    assert(self.entries[k].group@ == g);
                }
            }
            assert(self.states() =~= before.states().insert(group@, s));
        }
        Added {
            known: true,
            start_worker: match strategy {
                UpdateStrategy::AtOnce => true,
                _ => false,
            },
        }
    }

    /// Lets go of a service group. Returns whether the updater knew it.
    pub fn remove(&mut self, group: &ServiceGroup) -> (r: bool)
        requires
            old(self).wf(),
        ensures
            final(self).wf(),
            r == old(self).states().contains_key(group@),
            final(self).states() == old(self).states().remove(group@),
    {
        let ghost before = *self;
        match self.position(group) {
            None => {
                assert(self.states() =~= before.states().remove(group@));
                false
            },
            Some(at) => {
                let _gone = self.entries.remove(at);
                proof {
                    let a = at as int;
                    assert forall|i: int| 0 <= i < self.entries.len() implies #[trigger] self.entries[i]
                        == before.entries[if i < a {
                        i
                    } else {
                        i + 1
                    }] by {}
                    assert forall|i: int, j: int|
                        0 <= i < self.entries.len() && 0 <= j < self.entries.len() && (
                        #[trigger] self.entries[i]).group@ == (#[trigger] self.entries[j]).group@ implies i
                        == j by {
                        let i2 = if i < a {
                            i
                        } else {
                            i + 1
                        };
                        let j2 = if j < a {
                            j
                        } else {
                            j + 1
                        };
                        assert(before.entries[i2].group@ == before.entries[j2].group@);
                    }
                    assert forall|g: ServiceGroupView| self.states().contains_key(g)
                        == before.states().remove(group@).contains_key(g) by {
                        if self.states().contains_key(g) {
                            let i = choose|i: int|
                                0 <= i < self.entries.len() && (#[trigger] self.entries[i]).group@ == g;
                            let i2 = if i < a {
                                i
                            } else {
                                i + 1
                            };
                            assert(before.entries[i2].group@ == g);
                            assert(before.entries[a].group@ == group@);
                        }
                        if before.states().contains_key(g) && g != group@ {
                            let i = choose|i: int|
                                0 <= i < before.entries.len() && (#[trigger] before.entries[i]).group@
                                    == g;
                            let i2 = if i < a {
                                i
                            } else {
                                i - 1
                            };
                            assert(self.entries[i2].group@ == g);
                        }
                    }
                    assert forall|g: ServiceGroupView| #[trigger]
                        self.states().contains_key(g) implies self.states()[g]
                        == before.states().remove(group@)[g] by {
                        let i = choose|i: int|
                            0 <= i < self.entries.len() && (#[trigger] self.entries[i]).group@ == g;
                        let i2 = if i < a {
                            i
                        } else {
                            i + 1
                        };
                        assert(before.entries[i2].group@ == g);
                        let k = choose|k: int|
                            0 <= k < before.entries.len() && (#[trigger] before.entries[k]).group@ == g;
                        assert(k == i2);
                    }
                    assert(self.states() =~= before.states().remove(group@));
                }
                true
            },
        }
    }

    /// Checks whether the service of `group` has an updated package, and
    /// moves the group's update on by one step. `worker` is what the
    /// channel of the group's worker held; it counts only where
    /// `awaits_worker` holds. A group that the updater does not know stays unknown, and
    /// nothing is to be done for it.
    pub fn check_for_updated_package(
        &mut self,
        group: &ServiceGroup,
        topology: Topology,
        census: Option<&CensusGroup>,
        worker: WorkerEvent,
    ) -> (r: UpdateOutcome)
        requires
            old(self).wf(),
        ensures
            final(self).wf(),
            !old(self).states().contains_key(group@) ==> r@ is NoChange && final(self).states() == old(
                self,
            ).states(),
            old(self).states().contains_key(group@) ==> {
                let next = transition(old(self).states()[group@], topology, opt_census(census), worker@);
                &&& r@ == next.1
                &&& final(self).states() == old(self).states().insert(group@, next.0)
            },
    {
        let ghost before = *self;
        match self.position(group) {
            None => UpdateOutcome::NoChange,
            Some(at) => {
                let (state, outcome) = step(&self.entries[at].state, topology, census, worker);
                let ghost s = state@;
                let entry = UpdaterEntry { group: group.clone(), state };
                self.entries.set(at, entry);
                proof {
                    let a = at as int;
                    assert(self.entries[a].group@ == group@);
                    assert forall|i: int| 0 <= i < self.entries.len() implies (
                    #[trigger] self.entries[i]).group@ == before.entries[i].group@ by {}
                    assert forall|i: int, j: int|
                        0 <= i < self.entries.len() && 0 <= j < self.entries.len() && (
                        #[trigger] self.entries[i]).group@ == (#[trigger] self.entries[j]).group@ implies i
                        == j by {
                        assert(before.entries[i].group@ == before.entries[j].group@);
                    }
                    assert forall|g: ServiceGroupView| self.states().contains_key(g)
                        == before.states().insert(group@, s).contains_key(g) by {
                        if self.states().contains_key(g) {
                            let i = choose|i: int|
                                0 <= i < self.entries.len() && (#[trigger] self.entries[i]).group@ == g;
                            assert(before.entries[i].group@ == g);
                        }
                        if before.states().contains_key(g) {
                            let i = choose|i: int|
                                0 <= i < before.entries.len() && (#[trigger] before.entries[i]).group@
                                    == g;
                            assert(self.entries[i].group@ == g);
                        }
                    }
                    assert forall|g: ServiceGroupView| #[trigger]
                        self.states().contains_key(g) implies self.states()[g] == before.states().insert(
                        group@,
                        s,
                    )[g] by {
                        let i = choose|i: int|
                            0 <= i < self.entries.len() && (#[trigger] self.entries[i]).group@ == g;
                        assert(before.entries[i].group@ == g);
                        if g != group@ {
                            let k = choose|k: int|
                                0 <= k < before.entries.len() && (#[trigger] before.entries[k]).group@
                                    == g;
                            assert(k == i);
                            assert(self.entries[i] == before.entries[i]);
                        } else {
                            assert(i == a);
                        }
                    }
                    assert(self.states() =~= before.states().insert(group@, s));
                }
                outcome
            },
        }
    }
}

/// The state of a group after a series of checks under one unchanged census
/// snapshot, the worker's channel holding `workers[i]` at the `i`-th check.
pub open spec fn after_checks(
    state: UpdaterStateView,
    topology: Topology,
    census: Option<CensusGroupView>,
    workers: Seq<WorkerEventView>,
) -> UpdaterStateView
    decreases workers.len(),
{
    if workers.len() == 0 {
        state
    } else {
        transition(
            after_checks(state, topology, census, workers.drop_last()),
            topology,
            census,
            workers.last(),
        ).0
    }
}

/// A worker that has died is replaced at the very next check: the state
/// stays one with a worker, the caller is told to start a worker with the
/// target of the one that died, and nothing else comes of it.
pub proof fn law_dead_worker_is_replaced(
    state: UpdaterStateView,
    topology: Topology,
    census: Option<CensusGroupView>,
)
    requires
        state.has_worker(),
    ensures
        transition(state, topology, census, WorkerEventView::Disconnected).0 == state,
        transition(state, topology, census, WorkerEventView::Disconnected).1 is StartWorker,
        state is AtOnce ==> transition(state, topology, census, WorkerEventView::Disconnected).1 == (
        UpdateOutcomeView::StartWorker { target: None }),
{
}

/// A waiting follower starts to update only when the member just before it
/// reports the package of the update leader, and that package is not the
/// follower's own.
pub proof fn law_follower_updates_after_predecessor(
    topology: Topology,
    census: Option<CensusGroupView>,
    worker: WorkerEventView,
)
    requires
        transition(UpdaterStateView::FollowerWaiting, topology, census, worker).0 is FollowerUpdating,
    ensures
        census is Some,
        census->0.update_leader is Some && census->0.previous_peer is Some && census->0.me is Some,
        census->0.previous_peer->0.pkg == census->0.update_leader->0.pkg,
        census->0.me->0.pkg != census->0.update_leader->0.pkg,
        transition(UpdaterStateView::FollowerWaiting, topology, census, worker).0 == (
        UpdaterStateView::FollowerUpdating { target: census->0.update_leader->0.pkg }),
{
}

/// A waiting follower whose predecessor does not report the update leader's
/// package keeps waiting, however often it is checked, as long as the
/// census does not change.
pub proof fn law_follower_waits_for_predecessor(
    topology: Topology,
    census: CensusGroupView,
    workers: Seq<WorkerEventView>,
)
    requires
        census.previous_peer is Some && census.update_leader is Some ==> census.previous_peer->0.pkg
            != census.update_leader->0.pkg,
    ensures
        after_checks(UpdaterStateView::FollowerWaiting, topology, Some(census), workers)
            == UpdaterStateView::FollowerWaiting,
    decreases workers.len(),
{
    if workers.len() > 0 {
        law_follower_waits_for_predecessor(topology, census, workers.drop_last());
    }
}

} // verus!

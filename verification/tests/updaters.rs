use service_supervisor::ident::PackageIdent;
use service_supervisor::spec::{ServiceGroup, Topology, UpdateStrategy};
use service_supervisor::updater::{
    step, Added, CensusGroup, CensusMember, FollowerState, LeaderState, RollingState,
    ServiceUpdater, UpdateOutcome, UpdaterState, WorkerEvent,
};

fn ident(text: &str) -> PackageIdent {
    PackageIdent::from_str(text).unwrap()
}

fn member(id: &str, pkg: &str) -> CensusMember {
    CensusMember {
        member_id: id.to_string(),
        pkg: Some(ident(pkg)),
    }
}

fn group() -> ServiceGroup {
    ServiceGroup::from_str("redis.default").unwrap()
}

const OLD: &str = "core/redis/1.0.0/20180101000000";
const NEW: &str = "core/redis/1.1.0/20180202000000";

fn leader_waiting() -> UpdaterState {
    UpdaterState::Rolling(RollingState::Leader(LeaderState::Waiting))
}

fn leader_polling() -> UpdaterState {
    UpdaterState::Rolling(RollingState::Leader(LeaderState::Polling))
}

fn follower_waiting() -> UpdaterState {
    UpdaterState::Rolling(RollingState::Follower(FollowerState::Waiting))
}

fn follower_updating(target: &str) -> UpdaterState {
    UpdaterState::Rolling(RollingState::Follower(FollowerState::Updating {
        target: Some(ident(target)),
    }))
}

#[test]
fn an_at_once_updater_hands_out_what_its_worker_installed() {
    let (state, outcome) = step(
        &UpdaterState::AtOnce,
        Topology::Standalone,
        None,
        WorkerEvent::Package(ident(NEW)),
    );
    assert_eq!(state, UpdaterState::AtOnce);
    assert_eq!(outcome, UpdateOutcome::Updated(ident(NEW)));
    assert!(outcome.updated());

    let (state, outcome) = step(
        &UpdaterState::AtOnce,
        Topology::Standalone,
        None,
        WorkerEvent::Empty,
    );
    assert_eq!(state, UpdaterState::AtOnce);
    assert_eq!(outcome, UpdateOutcome::NoChange);
    assert!(!outcome.updated());
}

#[test]
fn a_dead_worker_is_replaced_at_the_next_check() {
    let mut updater = ServiceUpdater::new();
    assert_eq!(
        updater.add(&group(), UpdateStrategy::AtOnce),
        Added {
            known: true,
            start_worker: true
        }
    );
    assert!(updater.awaits_worker(&group()));

    let outcome = updater.check_for_updated_package(
        &group(),
        Topology::Standalone,
        None,
        WorkerEvent::Disconnected,
    );
    // No error comes of it: a new worker is asked for and the state is one
    // with a worker, as before.
    assert_eq!(outcome, UpdateOutcome::StartWorker { target: None });
    assert_eq!(updater.state_of(&group()), Some(UpdaterState::AtOnce));
    assert!(updater.awaits_worker(&group()));

    // The new worker can deliver.
    let outcome = updater.check_for_updated_package(
        &group(),
        Topology::Standalone,
        None,
        WorkerEvent::Package(ident(NEW)),
    );
    assert_eq!(outcome, UpdateOutcome::Updated(ident(NEW)));
}

#[test]
fn a_dead_worker_of_a_rolling_update_is_replaced_with_the_same_target() {
    let (state, outcome) = step(
        &leader_polling(),
        Topology::Standalone,
        None,
        WorkerEvent::Disconnected,
    );
    assert_eq!(state, leader_polling());
    assert_eq!(outcome, UpdateOutcome::StartWorker { target: None });

    let (state, outcome) = step(
        &follower_updating(NEW),
        Topology::Standalone,
        None,
        WorkerEvent::Disconnected,
    );
    assert_eq!(state, follower_updating(NEW));
    assert_eq!(
        outcome,
        UpdateOutcome::StartWorker {
            target: Some(ident(NEW))
        }
    );
}

#[test]
fn an_election_is_asked_for_with_the_right_suitability() {
    let awaiting = UpdaterState::Rolling(RollingState::AwaitingElection);
    let in_election = UpdaterState::Rolling(RollingState::InElection);

    // Without a census nothing happens.
    assert_eq!(
        step(&awaiting, Topology::Standalone, None, WorkerEvent::Empty),
        (
            UpdaterState::Rolling(RollingState::AwaitingElection),
            UpdateOutcome::NoChange
        )
    );

    let census = CensusGroup {
        me: Some(member("me", OLD)),
        leader: Some(member("me", OLD)),
        update_leader: None,
        previous_peer: None,
        members: vec![member("me", OLD), member("other", OLD)],
    };
    // Without a leader topology everybody stands with zero.
    assert_eq!(
        step(&awaiting, Topology::Standalone, Some(&census), WorkerEvent::Empty),
        (
            UpdaterState::Rolling(RollingState::InElection),
            UpdateOutcome::StartElection { suitability: 0 }
        )
    );
    // The current leader stands with the lowest suitability, so that it is
    // the last to update.
    assert_eq!(
        step(&awaiting, Topology::Leader, Some(&census), WorkerEvent::Empty),
        (
            UpdaterState::Rolling(RollingState::InElection),
            UpdateOutcome::StartElection {
                suitability: u64::MIN
            }
        )
    );
    let as_follower = CensusGroup {
        leader: Some(member("other", OLD)),
        ..clone_census(&census)
    };
    assert_eq!(
        step(&awaiting, Topology::Leader, Some(&as_follower), WorkerEvent::Empty),
        (
            UpdaterState::Rolling(RollingState::InElection),
            UpdateOutcome::StartElection {
                suitability: u64::MAX
            }
        )
    );
    // In a leader topology without a leader the updater waits.
    let leaderless = CensusGroup {
        leader: None,
        ..clone_census(&census)
    };
    assert_eq!(
        step(&awaiting, Topology::Leader, Some(&leaderless), WorkerEvent::Empty),
        (
            UpdaterState::Rolling(RollingState::AwaitingElection),
            UpdateOutcome::NoChange
        )
    );

    // The election is over when there is an update leader.
    assert_eq!(
        step(&in_election, Topology::Standalone, Some(&census), WorkerEvent::Empty),
        (
            UpdaterState::Rolling(RollingState::InElection),
            UpdateOutcome::NoChange
        )
    );
    let led_by_me = CensusGroup {
        update_leader: Some(member("me", OLD)),
        ..clone_census(&census)
    };
    assert_eq!(
        step(&in_election, Topology::Standalone, Some(&led_by_me), WorkerEvent::Empty),
        (leader_waiting(), UpdateOutcome::NoChange)
    );
    let led_by_other = CensusGroup {
        update_leader: Some(member("other", OLD)),
        ..clone_census(&census)
    };
    assert_eq!(
        step(&in_election, Topology::Standalone, Some(&led_by_other), WorkerEvent::Empty),
        (follower_waiting(), UpdateOutcome::NoChange)
    );
}

fn clone_member(m: &Option<CensusMember>) -> Option<CensusMember> {
    m.as_ref().map(|m| CensusMember {
        member_id: m.member_id.clone(),
        pkg: m.pkg.clone(),
    })
}

fn clone_census(c: &CensusGroup) -> CensusGroup {
    CensusGroup {
        me: clone_member(&c.me),
        leader: clone_member(&c.leader),
        update_leader: clone_member(&c.update_leader),
        previous_peer: clone_member(&c.previous_peer),
        members: c
            .members
            .iter()
            .map(|m| clone_member(&Some(CensusMember {
                member_id: m.member_id.clone(),
                pkg: m.pkg.clone(),
            }))
            .unwrap())
            .collect(),
    }
}

#[test]
fn the_update_leader_polls_only_when_all_members_agree() {
    let mixed = CensusGroup {
        me: Some(member("me", NEW)),
        leader: None,
        update_leader: Some(member("me", NEW)),
        previous_peer: Some(member("c", OLD)),
        members: vec![member("me", NEW), member("b", NEW), member("c", OLD)],
    };
    assert_eq!(
        step(&leader_waiting(), Topology::Standalone, Some(&mixed), WorkerEvent::Empty),
        (leader_waiting(), UpdateOutcome::NoChange)
    );

    let agreed = CensusGroup {
        members: vec![member("me", NEW), member("b", NEW), member("c", NEW)],
        ..clone_census(&mixed)
    };
    assert_eq!(
        step(&leader_waiting(), Topology::Standalone, Some(&agreed), WorkerEvent::Empty),
        (leader_polling(), UpdateOutcome::StartWorker { target: None })
    );
    // Without a census the leader keeps waiting.
    assert_eq!(
        step(&leader_waiting(), Topology::Standalone, None, WorkerEvent::Empty),
        (leader_waiting(), UpdateOutcome::NoChange)
    );
    // What the leader's worker installed is handed out, and the leader
    // waits for the others again.
    assert_eq!(
        step(
            &leader_polling(),
            Topology::Standalone,
            None,
            WorkerEvent::Package(ident(NEW))
        ),
        (leader_waiting(), UpdateOutcome::Updated(ident(NEW)))
    );
    assert_eq!(
        step(&leader_polling(), Topology::Standalone, None, WorkerEvent::Empty),
        (leader_polling(), UpdateOutcome::NoChange)
    );
}

/// The members stand in a ring: leader, then a, then b, then c. Each
/// follower looks at the one before it.
fn follower_census(me: &str, my_pkg: &str, peer: &str, peer_pkg: &str) -> CensusGroup {
    CensusGroup {
        me: Some(member(me, my_pkg)),
        leader: None,
        update_leader: Some(member("leader", NEW)),
        previous_peer: Some(member(peer, peer_pkg)),
        members: vec![],
    }
}

#[test]
fn followers_update_one_after_the_other() {
    // The leader has the new package; a, b and c have the old one.
    let a = follower_census("a", OLD, "leader", NEW);
    let b = follower_census("b", OLD, "a", OLD);
    let c = follower_census("c", OLD, "b", OLD);

    // Only a, whose predecessor is the leader, starts to update.
    assert_eq!(
        step(&follower_waiting(), Topology::Standalone, Some(&a), WorkerEvent::Empty),
        (
            follower_updating(NEW),
            UpdateOutcome::StartWorker {
                target: Some(ident(NEW))
            }
        )
    );
    // b and c keep waiting, however often they are checked.
    for _ in 0..10 {
        assert_eq!(
            step(&follower_waiting(), Topology::Standalone, Some(&b), WorkerEvent::Empty),
            (follower_waiting(), UpdateOutcome::NoChange)
        );
        assert_eq!(
            step(
                &follower_waiting(),
                Topology::Standalone,
                Some(&c),
                WorkerEvent::Disconnected
            ),
            (follower_waiting(), UpdateOutcome::NoChange)
        );
    }

    // Once a has the new package it is b's turn, and not yet c's.
    let b = follower_census("b", OLD, "a", NEW);
    assert_eq!(
        step(&follower_waiting(), Topology::Standalone, Some(&b), WorkerEvent::Empty).0,
        follower_updating(NEW)
    );
    assert_eq!(
        step(&follower_waiting(), Topology::Standalone, Some(&c), WorkerEvent::Empty).0,
        follower_waiting()
    );

    // A follower that has the leader's package is in no update.
    let done = follower_census("a", NEW, "leader", NEW);
    assert_eq!(
        step(&follower_waiting(), Topology::Standalone, Some(&done), WorkerEvent::Empty),
        (follower_waiting(), UpdateOutcome::NoChange)
    );

    // What the follower's worker installed is handed out.
    assert_eq!(
        step(
            &follower_updating(NEW),
            Topology::Standalone,
            Some(&a),
            WorkerEvent::Package(ident(NEW))
        ),
        (follower_waiting(), UpdateOutcome::Updated(ident(NEW)))
    );
}

#[test]
fn the_updater_knows_each_group_once() {
    let mut updater = ServiceUpdater::new();
    let redis = group();
    let nginx = ServiceGroup::from_str("nginx.default").unwrap();

    assert!(!updater.tracks(&redis));
    assert_eq!(updater.state_of(&redis), None);
    assert!(!updater.awaits_worker(&redis));

    assert_eq!(
        updater.add(&redis, UpdateStrategy::Never),
        Added {
            known: false,
            start_worker: false
        }
    );
    assert!(!updater.tracks(&redis));

    assert_eq!(
        updater.add(&redis, UpdateStrategy::Rolling),
        Added {
            known: true,
            start_worker: false
        }
    );
    assert_eq!(
        updater.state_of(&redis),
        Some(UpdaterState::Rolling(RollingState::AwaitingElection))
    );
    // A group that is known keeps its state.
    assert_eq!(
        updater.add(&redis, UpdateStrategy::AtOnce),
        Added {
            known: true,
            start_worker: false
        }
    );
    assert_eq!(
        updater.state_of(&redis),
        Some(UpdaterState::Rolling(RollingState::AwaitingElection))
    );

    assert_eq!(
        updater.add(&nginx, UpdateStrategy::AtOnce),
        Added {
            known: true,
            start_worker: true
        }
    );
    assert_eq!(updater.state_of(&nginx), Some(UpdaterState::AtOnce));

    // A check of a group that is not known does nothing.
    let unknown = ServiceGroup::from_str("mysql.default").unwrap();
    assert_eq!(
        updater.check_for_updated_package(
            &unknown,
            Topology::Standalone,
            None,
            WorkerEvent::Package(ident(NEW))
        ),
        UpdateOutcome::NoChange
    );
    assert!(!updater.tracks(&unknown));

    assert!(updater.remove(&redis));
    assert!(!updater.remove(&redis));
    assert!(!updater.tracks(&redis));
    assert!(updater.tracks(&nginx));
}

#[test]
fn a_worker_with_a_given_package_delivers_what_it_installs() {
    let current = PackageIdent::from_str("core/redis/3.2.4/20170514150022").unwrap();
    let older = PackageIdent::from_str("core/redis/3.2.3/20170101000000").unwrap();
    assert_eq!(
        service_supervisor::worker::after_attempt(&current, true, Some(older.clone())),
        service_supervisor::worker::WorkerStep::Deliver(older)
    );
    assert_eq!(
        service_supervisor::worker::after_attempt(&current, true, None),
        service_supervisor::worker::WorkerStep::TryAgain
    );
}

#[test]
fn a_worker_that_polls_delivers_newer_packages_only() {
    let current = PackageIdent::from_str("core/redis/3.2.4/20170514150022").unwrap();
    let older = PackageIdent::from_str("core/redis/3.2.3/20180101000000").unwrap();
    let later = PackageIdent::from_str("core/redis/3.2.4/20170601000000").unwrap();
    let newer = PackageIdent::from_str("core/redis/3.10.0/20170101000000").unwrap();
    let other = PackageIdent::from_str("core/nginx/9.0.0/20190101000000").unwrap();
    let step = service_supervisor::worker::after_attempt;
    assert_eq!(step(&current, false, Some(older)), service_supervisor::worker::WorkerStep::TryAgain);
    assert_eq!(
        step(&current, false, Some(current.clone())),
        service_supervisor::worker::WorkerStep::TryAgain
    );
    assert_eq!(step(&current, false, Some(other)), service_supervisor::worker::WorkerStep::TryAgain);
    assert_eq!(step(&current, false, None), service_supervisor::worker::WorkerStep::TryAgain);
    assert_eq!(
        step(&current, false, Some(later.clone())),
        service_supervisor::worker::WorkerStep::Deliver(later)
    );
    assert_eq!(
        step(&current, false, Some(newer.clone())),
        service_supervisor::worker::WorkerStep::Deliver(newer)
    );
}

#[test]
fn a_worker_asks_for_its_given_package_or_for_the_one_of_the_spec() {
    let spec_ident = PackageIdent::from_str("core/redis").unwrap();
    let target = PackageIdent::from_str("core/redis/3.2.4/20170514150022").unwrap();
    assert_eq!(service_supervisor::worker::wanted(&spec_ident, Some(&target)), target);
    assert_eq!(service_supervisor::worker::wanted(&spec_ident, None), spec_ident);
}

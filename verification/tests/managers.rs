use service_supervisor::clock::Timespec;
use service_supervisor::error::Error;
use service_supervisor::ident::PackageIdent;
use service_supervisor::manager::config::{
    join_path, sup_root, threads_for, FsCfg, ManagerConfig, TokioThreadCount, STATE_PATH_PREFIX,
};
use service_supervisor::manager::lock::{
    lock_pid, obtain_process_lock, process_lock_content, read_process_lock, sub_term, LockDecision,
    LockFile,
};
use service_supervisor::manager::run::{
    exit_code, shutdown_result, time_to_wait, Event, ShutdownMode, Step,
};
use service_supervisor::manager::services::{
    reloaded_spec, RunningService, ServiceAction, Services,
};
use service_supervisor::manager::states::ServiceStates;
use service_supervisor::manager::update::{shutdown_services_for_update, UpdateInput};
use service_supervisor::reconcile::{specs_to_operations, ServiceOperation};
use service_supervisor::spec::{DesiredState, ServiceGroup, ServiceSpec, Topology, UpdateStrategy};
use service_supervisor::updater::{ServiceUpdater, UpdateOutcome, UpdaterState, WorkerEvent};

#[test]
fn manager_state_path_default() {
    let cfg = ManagerConfig::default();
    let path = cfg.sup_root();

    assert_eq!(format!("{}/default", STATE_PATH_PREFIX), path);
}

#[test]
fn manager_state_path_custom() {
    let mut cfg = ManagerConfig::default();
    cfg.custom_state_path = Some("/tmp/peanuts-and-cake".to_string());
    let path = cfg.sup_root();

    assert_eq!("/tmp/peanuts-and-cake", path);
}

#[test]
fn manager_state_path_custom_beats_name() {
    let mut cfg = ManagerConfig::default();
    cfg.custom_state_path = Some("/tmp/partay".to_string());
    let path = cfg.sup_root();

    assert_eq!("/tmp/partay", path);
}

#[test]
fn default_is_number_of_cpus() {
    assert_eq!(TokioThreadCount::configured_value(None).0, num_cpus::get());
    assert_eq!(TokioThreadCount::default().0, num_cpus::get());
}

#[test]
fn can_be_overridden_by_env_var() {
    assert_eq!(TokioThreadCount::configured_value(Some("128")).0, 128);
}

#[test]
fn cannot_be_overridden_to_zero() {
    assert_ne!(TokioThreadCount::configured_value(Some("0")).0, 0);
    assert_eq!(
        TokioThreadCount::configured_value(Some("0")).0,
        num_cpus::get()
    );
}

#[test]
fn a_thread_count_is_a_number_above_zero() {
    assert_eq!(TokioThreadCount::from_str("4"), Ok(TokioThreadCount(4)));
    assert_eq!(TokioThreadCount::from_str("+4"), Ok(TokioThreadCount(4)));
    for bad in &["0", "-1", "", "four", "4 ", "99999999999999999999999999"] {
        assert_eq!(
            TokioThreadCount::from_str(bad),
            Err(Error::InvalidTokioThreadCount)
        );
    }
    assert_eq!(TokioThreadCount::or_default(Some("3"), 8).0, 3);
    assert_eq!(TokioThreadCount::or_default(Some("x"), 8).0, 8);
    assert_eq!(TokioThreadCount::or_default(None, 8).0, 8);
    assert_eq!(TokioThreadCount(5).into(), 5);
    assert_eq!(threads_for(0).0, 1);
    assert_eq!(threads_for(16).0, 16);
}

#[test]
fn the_paths_of_the_state_directory() {
    let cfg = FsCfg::new("/hab/sup/default");
    assert_eq!(cfg.sup_root, "/hab/sup/default");
    assert_eq!(cfg.data_path, "/hab/sup/default/data");
    assert_eq!(cfg.specs_path, "/hab/sup/default/specs");
    assert_eq!(cfg.composites_path, "/hab/sup/default/composites");
    assert_eq!(cfg.member_id_file, "/hab/sup/default/MEMBER_ID");
    assert_eq!(cfg.proc_lock_file, "/hab/sup/default/LOCK");
    assert_eq!(join_path("/", "a"), "/a");
    assert_eq!(join_path("/a/", "b"), "/a/b");
    assert_eq!(join_path("", "b"), "b");
    assert_eq!(sup_root(None), "/hab/sup/default");
    assert_eq!(sup_root(Some("/x")), "/x");

    let cfg = ManagerConfig::default();
    assert!(!cfg.auto_update && !cfg.http_disable && !cfg.gossip_permanent);
    assert_eq!(cfg.gossip_listen, "0.0.0.0:9638");
    assert_eq!(cfg.ctl_listen, "127.0.0.1:9632");
    assert_eq!(cfg.http_listen, "0.0.0.0:9631");
    assert!(cfg.gossip_peers.is_empty());
    assert_eq!(cfg.update_url, "");
    assert_eq!(cfg.update_channel, "");
}

#[test]
fn a_tick_without_news_runs_through_all_its_steps() {
    let mut step = Step::first();
    let mut seen = vec![step];
    for _ in 0..16 {
        step = step.next(Event::Answer(false), true);
        seen.push(step);
    }
    assert_eq!(
        seen,
        vec![
            Step::CheckStopRequest,
            Step::CheckDeparture,
            Step::CheckSignal,
            Step::FinishRestarts,
            Step::CheckSelfUpdate,
            Step::CheckSpecWatcher,
            Step::UpdatePeers,
            Step::ApplyUserConfig,
            Step::UpdateServices,
            Step::RestartElections,
            Step::UpdateCensus,
            Step::CheckChangedServices,
            Step::CheckCensusChanged,
            Step::TickServices,
            Step::Sleep,
            Step::CheckStopRequest,
            Step::CheckDeparture,
        ]
    );
    // A supervisor that leaves signals alone does not ask for them.
    assert_eq!(
        Step::CheckDeparture.next(Event::Answer(false), false),
        Step::FinishRestarts
    );
    // Changes in the spec directory, the services and the census each add
    // a step.
    assert_eq!(
        Step::CheckSpecWatcher.next(Event::Answer(true), true),
        Step::Reconcile
    );
    assert_eq!(Step::Reconcile.next(Event::Done, true), Step::UpdatePeers);
    assert_eq!(
        Step::CheckChangedServices.next(Event::Answer(true), true),
        Step::PersistServices
    );
    assert_eq!(
        Step::PersistServices.next(Event::Done, true),
        Step::CheckCensusChanged
    );
    assert_eq!(
        Step::CheckCensusChanged.next(Event::Answer(true), true),
        Step::PersistCensus
    );
    assert_eq!(Step::PersistCensus.next(Event::Done, true), Step::TickServices);
    // Reconciling and taking peers can fail, which ends the loop at once.
    assert_eq!(Step::Reconcile.next(Event::Failed, true), Step::Fail);
    assert_eq!(Step::UpdatePeers.next(Event::Failed, true), Step::Fail);
    assert_eq!(Step::Fail.next(Event::Done, true), Step::Fail);
    assert!(Step::Fail.is_final());
    assert_eq!(Step::TickServices.next(Event::Failed, true), Step::Sleep);
}

fn shutdown_from(step: Step) -> Vec<Step> {
    let mut step = step.next(Event::Answer(true), true);
    let mut seen = vec![step];
    while !step.is_final() {
        step = step.next(Event::Done, true);
        seen.push(step);
    }
    seen
}

#[test]
fn each_cause_of_a_shutdown_has_its_mode() {
    let (normal, departed, updating) = (
        ShutdownMode::Normal,
        ShutdownMode::Departed,
        ShutdownMode::Updating,
    );
    assert_eq!(
        shutdown_from(Step::CheckStopRequest),
        vec![
            Step::StopGateway(normal),
            Step::Depart(normal),
            Step::StopServices(normal),
            Step::AwaitStops(normal),
            Step::ReleaseLock(normal),
            Step::PersistGossip(normal),
            Step::Leave(normal),
        ]
    );
    assert_eq!(
        shutdown_from(Step::CheckDeparture),
        vec![
            Step::StopGateway(departed),
            Step::Depart(departed),
            Step::StopServices(departed),
            Step::AwaitStops(departed),
            Step::ReleaseLock(departed),
            Step::PersistGossip(departed),
            Step::Leave(departed),
        ]
    );
    // A supervisor that restarts itself leaves its services running.
    let on_update = vec![
        Step::StopGateway(updating),
        Step::AwaitStops(updating),
        Step::ReleaseLock(updating),
        Step::PersistGossip(updating),
        Step::Leave(updating),
    ];
    assert_eq!(shutdown_from(Step::CheckSignal), on_update);
    assert_eq!(shutdown_from(Step::CheckSelfUpdate), on_update);

    assert_eq!(Step::CheckStopRequest.mode(), None);
    assert_eq!(Step::ReleaseLock(departed).mode(), Some(departed));
    assert_eq!(Step::Leave(normal).next(Event::Done, true), Step::Leave(normal));
}

#[test]
fn the_way_of_stopping_decides_the_exit_code() {
    assert_eq!(shutdown_result(ShutdownMode::Normal), Ok(()));
    assert_eq!(shutdown_result(ShutdownMode::Updating), Ok(()));
    assert_eq!(shutdown_result(ShutdownMode::Departed), Err(Error::Departed));

    assert_eq!(exit_code(&Ok(())), 0);
    assert_eq!(exit_code(&Err(Error::Departed)), 86);
    assert_eq!(exit_code(&Err(Error::ProcessLocked(12))), 86);
    assert_eq!(exit_code(&Err(Error::NoLauncher)), 1);
    assert_eq!(exit_code(&Err(Error::ProcessLockCorrupt)), 1);

    assert_eq!(time_to_wait(1_000, 1_400), Some(400));
    assert_eq!(time_to_wait(1_400, 1_400), None);
    assert_eq!(time_to_wait(1_500, 1_400), None);
    assert_eq!(time_to_wait(i64::MIN, i64::MAX), Some(u64::MAX));
}

#[test]
fn a_stale_lock_is_taken_over() {
    let path = "/hab/sup/default/LOCK";
    let held = LockFile::Content("4711".to_string());
    assert_eq!(read_process_lock(&held, path), Ok(4711));
    assert_eq!(
        read_process_lock(&LockFile::Content("4711\nx".to_string()), path),
        Ok(4711)
    );
    assert_eq!(
        read_process_lock(&LockFile::Content("".to_string()), path),
        Err(Error::ProcessLockCorrupt)
    );
    assert_eq!(
        read_process_lock(&LockFile::Content("lock".to_string()), path),
        Err(Error::ProcessLockCorrupt)
    );
    assert_eq!(
        read_process_lock(&LockFile::Unreadable, path),
        Err(Error::ProcessLockIO(path.to_string()))
    );

    assert_eq!(
        obtain_process_lock(Ok(4711), true),
        LockDecision::GiveUp(Error::ProcessLocked(4711))
    );
    assert_eq!(obtain_process_lock(Ok(4711), false), LockDecision::Reclaim);
    assert_eq!(
        obtain_process_lock(Err(Error::ProcessLockCorrupt), true),
        LockDecision::Reclaim
    );
    assert_eq!(
        obtain_process_lock(Err(Error::ProcessLockIO(path.to_string())), false),
        LockDecision::GiveUp(Error::ProcessLockIO(path.to_string()))
    );

    assert_eq!(lock_pid(None, 12), Ok(12));
    assert_eq!(lock_pid(Some("99"), 12), Ok(99));
    assert_eq!(lock_pid(Some("x"), 12), Err(Error::ProcessLockCorrupt));
    assert_eq!(process_lock_content(4711), "4711");
    assert_eq!(
        read_process_lock(&LockFile::Content(process_lock_content(31337)), path),
        Ok(31337)
    );

    assert_eq!(sub_term(Ok(())), (Ok(()), false));
    assert_eq!(
        sub_term(Err(Error::ProcessLockIO(path.to_string()))),
        (Ok(()), true)
    );
    assert_eq!(
        sub_term(Err(Error::SignalFailed)),
        (Err(Error::SignalFailed), false)
    );
}

fn spec(ident: &str) -> ServiceSpec {
    ServiceSpec::default_for(PackageIdent::from_str(ident).unwrap())
}

fn running(ident: &str) -> RunningService {
    let spec = spec(ident);
    RunningService {
        spec_file: format!("/hab/sup/default/specs/{}.spec", spec.ident.name),
        service_group: ServiceGroup::new(None, &spec.ident.name, &spec.group, None),
        spec,
    }
}

#[test]
fn operations_become_actions() {
    let mut services = Services::new();
    services.add_service(running("core/a"));
    services.add_service(running("core/b"));
    services.add_service(running("core/c"));
    assert_eq!(
        services.running_specs(),
        vec![spec("core/a"), spec("core/b"), spec("core/c")]
    );

    let changed = {
        let mut s = spec("core/c");
        s.channel = "unstable".to_string();
        s
    };
    let ops = specs_to_operations(
        services.running_specs(),
        vec![spec("core/a"), changed.clone(), spec("core/e")],
    );
    let actions = services.take_action_on_services(ops);
    assert_eq!(
        actions,
        vec![
            ServiceAction::Stop {
                service: running("core/b"),
                restart: false
            },
            ServiceAction::Stop {
                service: running("core/c"),
                restart: true
            },
            ServiceAction::Start(spec("core/e")),
        ]
    );
    // What is to stop has left the running services; what is to start has
    // not joined them yet.
    assert_eq!(services.running_specs(), vec![spec("core/a")]);

    // An operation on a service that does not run is passed over.
    let actions = services.take_action_on_services(vec![
        ServiceOperation::Stop(spec("core/zzz")),
        ServiceOperation::Restart {
            to_stop: spec("core/b"),
            to_start: spec("core/b"),
        },
    ]);
    assert_eq!(
        actions,
        vec![
            ServiceAction::Skip(PackageIdent::from_str("core/zzz").unwrap()),
            ServiceAction::Skip(PackageIdent::from_str("core/b").unwrap()),
        ]
    );
    assert_eq!(
        services.take_action(ServiceOperation::Start(spec("core/x"))),
        ServiceAction::Start(spec("core/x"))
    );
}

#[test]
fn a_service_takes_the_place_of_one_with_the_same_package() {
    let mut services = Services::new();
    services.add_service(running("core/a"));
    services.add_service(running("core/b"));
    let mut again = running("core/a");
    again.spec.channel = "unstable".to_string();
    services.add_service(again);
    assert_eq!(services.running.len(), 2);
    assert_eq!(services.running[0].spec.channel, "unstable");

    let ident = PackageIdent::from_str("core/a").unwrap();
    assert!(services.remove_service_from_state(&ident).is_some());
    assert!(services.remove_service_from_state(&ident).is_none());
    assert_eq!(services.running_specs(), vec![spec("core/b")]);
}

#[test]
fn a_stop_for_a_restart_queues_the_spec_file_once() {
    let mut services = Services::new();
    let mut updater = ServiceUpdater::new();
    let a = running("core/a");
    let b = running("core/b");
    let c = running("core/c");
    updater.add(&a.service_group, UpdateStrategy::AtOnce);
    updater.add(&c.service_group, UpdateStrategy::Rolling);
    let group_a = ServiceGroup::new(None, "a", "default", None);
    let group_c = ServiceGroup::new(None, "c", "default", None);

    services.begin_stop(a, true);
    services.begin_stop(b, false);
    services.begin_stop(c, true);
    assert_eq!(services.stopping.len(), 3);

    let ident_a = PackageIdent::from_str("core/a").unwrap();
    let stopped = services.stop_finished(&ident_a, &Ok(()), &mut updater);
    assert_eq!(stopped, Some(running("core/a")));
    assert_eq!(
        services.specs_to_reload,
        vec!["/hab/sup/default/specs/a.spec".to_string()]
    );
    assert!(!updater.tracks(&group_a));
    // The stop has ended: a second word of it changes nothing.
    assert_eq!(services.stop_finished(&ident_a, &Ok(()), &mut updater), None);
    assert_eq!(services.specs_to_reload.len(), 1);

    // A service that was only to stop is not queued.
    let ident_b = PackageIdent::from_str("core/b").unwrap();
    assert!(services.stop_finished(&ident_b, &Ok(()), &mut updater).is_some());
    assert_eq!(services.specs_to_reload.len(), 1);

    // A stop that failed queues nothing, but the updater lets go all the
    // same.
    let ident_c = PackageIdent::from_str("core/c").unwrap();
    let failed = Err(Error::Launcher("gone".to_string()));
    assert!(services.stop_finished(&ident_c, &failed, &mut updater).is_some());
    assert_eq!(services.specs_to_reload.len(), 1);
    assert!(!updater.tracks(&group_c));
    assert!(services.stopping.is_empty());

    assert_eq!(
        services.finish_restarting_services(),
        vec!["/hab/sup/default/specs/a.spec".to_string()]
    );
    assert!(services.finish_restarting_services().is_empty());

    let mut down = spec("core/a");
    down.desired_state = DesiredState::Down;
    assert_eq!(reloaded_spec(down), spec("core/a"));
}

#[test]
fn services_with_an_update_are_restarted() {
    let mut services = Services::new();
    let mut updater = ServiceUpdater::new();
    for ident in &["core/a", "core/b", "core/c"] {
        let service = running(ident);
        updater.add(&service.service_group, UpdateStrategy::AtOnce);
        services.add_service(service);
    }
    let newer = PackageIdent::from_str("core/b/2.0.0/20180101000000").unwrap();
    let inputs = vec![
        UpdateInput {
            ident: PackageIdent::from_str("core/a").unwrap(),
            census: None,
            worker: WorkerEvent::Empty,
        },
        UpdateInput {
            ident: PackageIdent::from_str("core/b").unwrap(),
            census: None,
            worker: WorkerEvent::Package(newer.clone()),
        },
        UpdateInput {
            ident: PackageIdent::from_str("core/c").unwrap(),
            census: None,
            worker: WorkerEvent::Disconnected,
        },
        UpdateInput {
            ident: PackageIdent::from_str("core/unknown").unwrap(),
            census: None,
            worker: WorkerEvent::Package(newer.clone()),
        },
    ];
    let results = shutdown_services_for_update(&mut services, &mut updater, inputs);
    assert_eq!(
        results,
        vec![
            (
                PackageIdent::from_str("core/a").unwrap(),
                UpdateOutcome::NoChange
            ),
            (
                PackageIdent::from_str("core/b").unwrap(),
                UpdateOutcome::Updated(newer)
            ),
            (
                PackageIdent::from_str("core/c").unwrap(),
                UpdateOutcome::StartWorker { target: None }
            ),
        ]
    );
    assert_eq!(services.running_specs(), vec![spec("core/a"), spec("core/c")]);
    assert_eq!(services.stopping.len(), 1);
    assert_eq!(services.stopping[0].service, running("core/b"));
    assert!(services.stopping[0].restart);
    assert_eq!(
        updater.state_of(&ServiceGroup::new(None, "b", "default", None)),
        Some(UpdaterState::AtOnce)
    );

    // A service whose group the updater does not know has no update.
    let mut services = Services::new();
    services.add_service(running("core/a"));
    let mut updater = ServiceUpdater::new();
    let results = shutdown_services_for_update(
        &mut services,
        &mut updater,
        vec![UpdateInput {
            ident: PackageIdent::from_str("core/a").unwrap(),
            census: None,
            worker: WorkerEvent::Package(PackageIdent::from_str("core/a/1/2").unwrap()),
        }],
    );
    assert_eq!(
        results,
        vec![(
            PackageIdent::from_str("core/a").unwrap(),
            UpdateOutcome::NoChange
        )]
    );
    assert_eq!(services.running.len(), 1);
    let _ = Topology::Leader;
}

#[test]
fn changes_of_the_services_are_noticed_once() {
    let a = PackageIdent::from_str("core/a").unwrap();
    let b = PackageIdent::from_str("core/b").unwrap();
    let c = PackageIdent::from_str("core/c").unwrap();
    let t1 = Timespec::new(100, 0);
    let t2 = Timespec::new(200, 5);

    let mut states = ServiceStates::new();
    assert!(!states.check_for_changed_services(&vec![], &vec![]));

    let active = vec![(a.clone(), t1), (b.clone(), t1)];
    let loaded = vec![a.clone(), b.clone(), c.clone()];
    assert!(states.check_for_changed_services(&active, &loaded));
    assert_eq!(states.get(&a), Some(t1));
    assert_eq!(states.get(&b), Some(t1));
    // A service that is loaded and does not run counts with time zero.
    assert_eq!(states.get(&c), Some(Timespec { sec: 0, nsec: 0 }));
    assert!(!states.check_for_changed_services(&active, &loaded));

    // The order does not matter.
    let shuffled = vec![(b.clone(), t1), (a.clone(), t1)];
    assert!(!states.check_for_changed_services(&shuffled, &vec![c.clone()]));

    // A change of state, a service that is gone, a service that is new.
    let active = vec![(a.clone(), t2), (b.clone(), t1)];
    assert!(states.check_for_changed_services(&active, &loaded));
    assert_eq!(states.get(&a), Some(t2));
    assert!(states.check_for_changed_services(&active, &vec![a.clone(), b.clone()]));
    assert_eq!(states.get(&c), None);
    let active = vec![(a.clone(), t2), (b.clone(), t1), (c.clone(), t2)];
    assert!(states.check_for_changed_services(&active, &vec![]));
    assert!(!states.check_for_changed_services(&active, &vec![]));
}

#[test]
fn the_manager_takes_what_the_user_said_and_the_defaults_for_the_rest() {
    let quiet = service_supervisor::manager::input::ManagerInput {
        auto_update: false,
        bldr_url: None,
        channel: None,
        listen_gossip: None,
        listen_http: None,
        name: None,
        organization: None,
        permanent_peer: false,
        peers: vec![],
        ring: None,
        ring_key_env: None,
        ring_env: None,
        events: None,
    };
    let plan = service_supervisor::manager::input::mgrcfg_from_input(&quiet);
    assert!(!plan.caution);
    assert_eq!(plan.ring, service_supervisor::manager::input::RingSource::NoRing);
    assert_eq!(plan.cfg.update_url, "https://bldr.habitat.sh");
    assert_eq!(plan.cfg.update_channel, "stable");
    assert_eq!(plan.cfg.gossip_listen, "0.0.0.0:9638");
    assert_eq!(plan.cfg.http_listen, "0.0.0.0:9631");
    assert_eq!(plan.cfg.ctl_listen, "127.0.0.1:9632");
    assert_eq!(plan.cfg.custom_state_path, None);
    assert_eq!(plan.cfg.sup_root(), "/hab/sup/default");
    assert!(plan.cfg.gossip_peers.is_empty());
    assert_eq!(plan.cfg.eventsrv_group, None);

    let loud = service_supervisor::manager::input::ManagerInput {
        auto_update: true,
        bldr_url: Some("https://depot.example.com".to_string()),
        channel: Some("unstable".to_string()),
        listen_gossip: Some("10.0.0.1:7000".to_string()),
        listen_http: Some("10.0.0.1:7001".to_string()),
        name: Some("second".to_string()),
        organization: Some("acme".to_string()),
        permanent_peer: true,
        peers: vec!["10.0.0.2".to_string(), "10.0.0.3:9000".to_string()],
        ring: None,
        ring_key_env: None,
        ring_env: Some("test".to_string()),
        events: Some("eventsrv.default".to_string()),
    };
    let plan = service_supervisor::manager::input::mgrcfg_from_input(&loud);
    assert!(plan.caution);
    assert!(plan.cfg.auto_update);
    assert!(plan.cfg.gossip_permanent);
    assert_eq!(plan.cfg.update_url, "https://depot.example.com");
    assert_eq!(plan.cfg.update_channel, "unstable");
    assert_eq!(plan.cfg.gossip_listen, "10.0.0.1:7000");
    assert_eq!(plan.cfg.http_listen, "10.0.0.1:7001");
    assert_eq!(plan.cfg.sup_root(), "/hab/sup/second");
    assert_eq!(plan.cfg.organization, Some("acme".to_string()));
    assert_eq!(plan.cfg.gossip_peers, vec!["10.0.0.2:9638".to_string(), "10.0.0.3:9000".to_string()]);
    assert_eq!(
        plan.cfg.eventsrv_group,
        Some(service_supervisor::spec::ServiceGroup::from_str("eventsrv.default").unwrap())
    );
    assert_eq!(plan.cfg.ring_key, None);
    assert_eq!(
        plan.ring,
        service_supervisor::manager::input::RingSource::Latest("test".to_string())
    );
}

#[test]
fn the_ring_named_on_the_command_line_counts_before_the_environment() {
    let source = service_supervisor::manager::input::ring_source;
    assert_eq!(
        source(Some("arg"), Some("key"), Some("env")),
        service_supervisor::manager::input::RingSource::Latest("arg".to_string())
    );
    assert_eq!(
        source(None, Some("key"), Some("env")),
        service_supervisor::manager::input::RingSource::Given("key".to_string())
    );
    assert_eq!(
        source(None, None, Some("env")),
        service_supervisor::manager::input::RingSource::Latest("env".to_string())
    );
    assert_eq!(source(None, None, None), service_supervisor::manager::input::RingSource::NoRing);
}

#[test]
fn a_group_for_events_that_is_none_is_passed_over() {
    let input = service_supervisor::manager::input::ManagerInput {
        auto_update: false,
        bldr_url: None,
        channel: None,
        listen_gossip: None,
        listen_http: None,
        name: None,
        organization: None,
        permanent_peer: false,
        peers: vec![],
        ring: None,
        ring_key_env: None,
        ring_env: None,
        events: Some("not a group".to_string()),
    };
    let plan = service_supervisor::manager::input::mgrcfg_from_input(&input);
    assert_eq!(plan.cfg.eventsrv_group, None);
}

use service_supervisor::cli::{
    bldr_url, bldr_url_from_input, channel, composite_binds, composite_member_spec,
    feature_enabled, holds, load_existing, loaded_spec, new_service_spec, peer_address,
    read_binds, read_settings, start_existing, stopped_spec, update_spec_from_user, url_validity,
    valid_service_group, valid_topology, valid_update_strategy, valid_url, BindMapping, LoadPlan,
    Settings, StartPlan, UserInput,
};
use service_supervisor::error::Error;
use service_supervisor::gossip::{next_incarnation, suitability, Candidate};
use service_supervisor::ident::PackageIdent;
use service_supervisor::pkg::{join_paths, Env, Installed, Pkg, SvcPaths};
use service_supervisor::spec::{
    ApplicationEnvironment, DesiredState, ServiceBind, ServiceGroup, ServiceSpec, StartStyle,
    Topology, UpdateStrategy,
};
use service_supervisor::templating::{transform_path, AliveItem, EachAliveHelper};
use service_supervisor::updater::WorkerEvent;
use service_supervisor::watcher::{
    self_update_enabled, update_frequency, update_period, SelfUpdater, SpecWatcher,
    SpecWatcherDelay,
};

fn ident(text: &str) -> PackageIdent {
    PackageIdent::from_str(text).unwrap()
}

fn no_input() -> UserInput {
    UserInput {
        group: None,
        application: None,
        environment: None,
        bldr_url: None,
        channel: None,
        topology: None,
        strategy: None,
        binds: None,
        config_from: None,
        password: None,
    }
}

fn no_settings() -> Settings {
    read_settings(&no_input()).unwrap()
}

fn s(text: &str) -> Option<String> {
    Some(text.to_string())
}

#[test]
fn without_a_word_of_the_user_the_defaults_hold() {
    let spec = new_service_spec(ident("core/redis"), &no_settings());
    assert_eq!(spec, ServiceSpec::default_for(ident("core/redis")));
    assert_eq!(bldr_url(None), "https://bldr.habitat.sh");
    assert_eq!(bldr_url(Some("https://depot")), "https://depot");
    assert_eq!(channel(None), "stable");
    assert_eq!(channel(Some("unstable")), "unstable");
    assert_eq!(bldr_url_from_input(Some("a"), Some("b")), s("a"));
    assert_eq!(bldr_url_from_input(None, Some("b")), s("b"));
    assert_eq!(bldr_url_from_input(None, None), None);
}

#[test]
fn what_the_user_says_is_laid_over_the_spec() {
    let input = UserInput {
        group: s("prod"),
        application: s("shop"),
        environment: s("live"),
        bldr_url: s("https://depot.example.com"),
        channel: s("unstable"),
        topology: s("leader"),
        strategy: s("rolling"),
        binds: Some(vec!["db:postgres.prod".to_string()]),
        config_from: s("/tmp/config"),
        password: s("secret"),
    };
    let settings = read_settings(&input).unwrap();
    let spec = new_service_spec(ident("core/redis"), &settings);
    assert_eq!(
        spec,
        ServiceSpec {
            ident: ident("core/redis"),
            group: "prod".to_string(),
            application_environment: Some(ApplicationEnvironment::new("shop", "live").unwrap()),
            bldr_url: "https://depot.example.com".to_string(),
            channel: "unstable".to_string(),
            topology: Topology::Leader,
            update_strategy: UpdateStrategy::Rolling,
            binds: vec![ServiceBind::from_str("db:postgres.prod").unwrap()],
            config_from: s("/tmp/config"),
            desired_state: DesiredState::Up,
            start_style: StartStyle::Transient,
            svc_encrypted_password: s("secret"),
            composite: None,
        }
    );

    // Only what the user has said changes an existing spec.
    let mut existing = spec.clone();
    let only_channel = read_settings(&UserInput {
        channel: s("stable"),
        ..no_input()
    })
    .unwrap();
    update_spec_from_user(&mut existing, &only_channel);
    assert_eq!(
        existing,
        ServiceSpec {
            channel: "stable".to_string(),
            ..spec.clone()
        }
    );
    // An application alone, without an environment, says nothing.
    let half = read_settings(&UserInput {
        application: s("shop"),
        ..no_input()
    })
    .unwrap();
    assert_eq!(half, no_settings());
}

#[test]
fn a_word_that_stands_for_nothing_is_an_error() {
    assert_eq!(
        read_settings(&UserInput {
            topology: s("star"),
            ..no_input()
        }),
        Err(Error::InvalidTopology("star".to_string()))
    );
    assert_eq!(
        read_settings(&UserInput {
            strategy: s("never"),
            ..no_input()
        }),
        Err(Error::InvalidUpdateStrategy("never".to_string()))
    );
    assert_eq!(
        read_settings(&UserInput {
            binds: Some(vec!["db:postgres.prod".to_string(), "cache".to_string()]),
            ..no_input()
        }),
        Err(Error::InvalidBinding("cache".to_string()))
    );
    assert_eq!(
        read_settings(&UserInput {
            application: s("sh op"),
            environment: s("live"),
            ..no_input()
        }),
        Err(Error::InvalidApplicationEnvironment("sh op.live".to_string()))
    );
    assert_eq!(
        read_binds(&vec!["a:b.c".to_string()]),
        Ok(vec![ServiceBind::from_str("a:b.c").unwrap()])
    );
    assert_eq!(read_binds(&vec![]), Ok(vec![]));
}

#[test]
fn the_words_of_the_command_line_are_checked() {
    assert_eq!(valid_topology("leader"), Ok(()));
    assert_eq!(
        valid_topology("star"),
        Err("Service topology: 'star' is not valid".to_string())
    );
    assert_eq!(valid_update_strategy("at-once"), Ok(()));
    assert_eq!(
        valid_update_strategy("now"),
        Err("Update strategy: 'now' is not valid".to_string())
    );
    assert_eq!(valid_service_group("redis.default"), Ok(()));
    assert_eq!(
        valid_service_group("redis"),
        Err("Service group: 'redis' is not valid".to_string())
    );
    assert_eq!(valid_url("https://bldr.habitat.sh"), Ok(()));
    assert_eq!(valid_url("http://localhost:9636/v1"), Ok(()));
    assert_eq!(
        valid_url("bldr.habitat.sh"),
        Err("URL: 'bldr.habitat.sh' is not valid".to_string())
    );
    assert_eq!(valid_url(""), Err("URL: '' is not valid".to_string()));
    assert_eq!(url_validity("x", true), Ok(()));
    assert_eq!(
        url_validity("x", false),
        Err("URL: 'x' is not valid".to_string())
    );

    assert_eq!(peer_address("10.0.0.1"), "10.0.0.1:9638");
    assert_eq!(peer_address("10.0.0.1:9000"), "10.0.0.1:9000");
    assert_eq!(peer_address("host.example.com"), "host.example.com:9638");
    assert!(holds("a:b", ':'));
    assert!(!holds("ab", ':'));

    assert!(feature_enabled(Some("true")));
    assert!(feature_enabled(Some("TRUE")));
    assert!(!feature_enabled(Some("True")));
    assert!(!feature_enabled(Some("1")));
    assert!(!feature_enabled(None));
}

#[test]
fn loading_a_service_again_needs_force() {
    let existing = ServiceSpec::default_for(ident("core/redis"));
    assert_eq!(
        load_existing(existing.clone(), ident("core/redis"), &no_settings(), false),
        Err(Error::ServiceLoaded("core/redis".to_string()))
    );
    assert_eq!(
        load_existing(existing.clone(), ident("core/redis"), &no_settings(), true),
        Ok(LoadPlan {
            spec: loaded_spec(existing.clone()),
            install: false
        })
    );
    // Another package and no update strategy: install it now.
    let plan = load_existing(existing.clone(), ident("core/redis/4.0.0"), &no_settings(), true)
        .unwrap();
    assert!(plan.install);
    assert_eq!(plan.spec.ident, ident("core/redis/4.0.0"));
    assert_eq!(plan.spec.start_style, StartStyle::Persistent);
    // Another package with an update strategy: the updater brings it.
    let rolling = read_settings(&UserInput {
        strategy: s("rolling"),
        ..no_input()
    })
    .unwrap();
    let plan = load_existing(existing.clone(), ident("core/redis/4.0.0"), &rolling, true).unwrap();
    assert!(!plan.install);
    assert_eq!(plan.spec.update_strategy, UpdateStrategy::Rolling);
}

#[test]
fn starting_and_stopping_an_existing_service() {
    let up = ServiceSpec::default_for(ident("core/redis"));
    let down = stopped_spec(up.clone());
    assert_eq!(down.desired_state, DesiredState::Down);
    assert_eq!(
        ServiceSpec {
            desired_state: DesiredState::Up,
            ..down.clone()
        },
        up
    );
    assert_eq!(start_existing(down, true), StartPlan::BringUp(up.clone()));
    assert_eq!(start_existing(up.clone(), true), StartPlan::AlreadyRunning);
    assert_eq!(start_existing(up.clone(), false), StartPlan::RunSupervisor);
    assert_eq!(loaded_spec(up.clone()).start_style, StartStyle::Persistent);
}

#[test]
fn the_services_of_a_composite_share_the_settings() {
    let settings = read_settings(&UserInput {
        group: s("prod"),
        application: s("shop"),
        environment: s("live"),
        channel: s("unstable"),
        binds: Some(vec!["db:postgres.prod".to_string()]),
        config_from: s("/tmp/config"),
        ..no_input()
    })
    .unwrap();
    let mappings = vec![BindMapping {
        bind_name: "router".to_string(),
        satisfying_service: "builder-router".to_string(),
    }];

    let api = composite_member_spec(&settings, "builder", ident("core/builder-api"), Some(&mappings));
    assert_eq!(api.ident, ident("core/builder-api"));
    assert_eq!(api.composite, s("builder"));
    assert_eq!(api.group, "prod");
    assert_eq!(api.channel, "unstable");
    assert_eq!(api.bldr_url, "https://bldr.habitat.sh");
    // The binds of the user and the directory of configuration are not
    // for the services of a composite.
    assert_eq!(api.config_from, None);
    assert_eq!(
        api.binds,
        vec![ServiceBind {
            name: "router".to_string(),
            service_group: ServiceGroup::from_str("shop.live#builder-router.prod").unwrap(),
        }]
    );
    assert_eq!(composite_binds(&api, &mappings), api.binds);

    let router = composite_member_spec(&settings, "builder", ident("core/builder-router"), None);
    assert!(router.binds.is_empty());
    assert_eq!(router.composite, s("builder"));
}

#[test]
fn each_alive_stops_at_the_live_members() {
    let helper = EachAliveHelper;
    assert_eq!(helper.items(&vec![]), vec![]);
    assert_eq!(helper.items(&vec![false, false]), vec![]);
    assert_eq!(
        helper.items(&vec![true, false, true, true]),
        vec![
            AliveItem {
                index: 0,
                first: true,
                last: false
            },
            AliveItem {
                index: 2,
                first: false,
                last: false
            },
            AliveItem {
                index: 3,
                first: false,
                last: true
            },
        ]
    );
    assert_eq!(
        helper.items(&vec![false, true, false]),
        vec![AliveItem {
            index: 1,
            first: false,
            last: false
        }]
    );
    assert_eq!(
        helper.items(&vec![true]),
        vec![AliveItem {
            index: 0,
            first: true,
            last: true
        }]
    );
}

#[test]
fn the_search_path_of_a_service_is_moved_below_the_root() {
    assert_eq!(transform_path(None, "/"), Vec::<String>::new());
    assert_eq!(
        transform_path(Some("/bin:/usr/bin:relative"), "/"),
        vec!["/bin", "/usr/bin", "relative"]
    );
    assert_eq!(
        transform_path(Some("/bin:/usr/bin:relative"), "/hab/studios/x"),
        vec![
            "/hab/studios/x/bin",
            "/hab/studios/x/usr/bin",
            "relative"
        ]
    );
    assert_eq!(transform_path(Some(""), "/root"), vec![""]);
    assert_eq!(join_paths(&vec![]), "");
    assert_eq!(join_paths(&vec!["/bin".to_string()]), "/bin");
    assert_eq!(
        join_paths(&vec!["/bin".to_string(), "".to_string(), "/sbin".to_string()]),
        "/bin::/sbin"
    );

    let env = Env::new(
        vec![
            ("LANG".to_string(), "C".to_string()),
            ("PATH".to_string(), "/hab/pkgs/core/redis/bin:/bin".to_string()),
        ],
        "/",
        &vec!["/hab/pkgs/core/busybox/bin".to_string(), "/usr/bin".to_string()],
    );
    assert_eq!(
        env.get("PATH"),
        Some(&"/hab/pkgs/core/redis/bin:/bin:/hab/pkgs/core/busybox/bin:/usr/bin".to_string())
    );
    assert_eq!(env.get("LANG"), Some(&"C".to_string()));
    assert_eq!(env.get("HOME"), None);
    assert_eq!(env.clone(), env);
    let mut env = env;
    env.insert("LANG".to_string(), "en".to_string());
    assert_eq!(env.get("LANG"), Some(&"en".to_string()));

    let bare = Env::new(vec![], "/", &vec!["/usr/bin".to_string()]);
    assert_eq!(bare.get("PATH"), Some(&"/usr/bin".to_string()));
}

#[test]
fn the_package_of_a_service_is_named_in_full() {
    let installed = |text: &str| Installed {
        ident: ident(text),
        installed_path: "/hab/pkgs/core/redis/3.2.4/20170514150022".to_string(),
        deps: vec![ident("core/glibc/2.22/20170513201042")],
        env: Env(vec![]),
        exposes: vec!["6379".to_string()],
        exports: vec![("port".to_string(), "port".to_string())],
        svc_user: "hab".to_string(),
        svc_group: "hab".to_string(),
    };
    let pkg = Pkg::from_install(installed("core/redis/3.2.4/20170514150022")).unwrap();
    assert_eq!(pkg.origin, "core");
    assert_eq!(pkg.name, "redis");
    assert_eq!(pkg.version, "3.2.4");
    assert_eq!(pkg.release, "20170514150022");
    assert_eq!(pkg.path, "/hab/pkgs/core/redis/3.2.4/20170514150022");
    assert_eq!(pkg.paths, SvcPaths::new("redis"));
    assert_eq!(pkg.paths.svc_path, "/hab/svc/redis");
    assert_eq!(pkg.paths.svc_config_path, "/hab/svc/redis/config");
    assert_eq!(pkg.paths.svc_data_path, "/hab/svc/redis/data");
    assert_eq!(pkg.paths.svc_files_path, "/hab/svc/redis/files");
    assert_eq!(pkg.paths.svc_static_path, "/hab/svc/redis/static");
    assert_eq!(pkg.paths.svc_var_path, "/hab/svc/redis/var");
    assert_eq!(pkg.paths.svc_pid_file, "/hab/svc/redis/PID");
    assert_eq!(pkg.paths.svc_run, "/hab/svc/redis/run");
    assert_eq!(pkg.exposes, vec!["6379".to_string()]);

    assert_eq!(
        Pkg::from_install(installed("core/redis/3.2.4")),
        Err(Error::FullyQualifiedPackageIdentRequired(
            "core/redis/3.2.4".to_string()
        ))
    );
}

#[test]
fn rumors_count_up_and_suitability_is_looked_up() {
    assert_eq!(next_incarnation(None), 1);
    assert_eq!(next_incarnation(Some(0)), 1);
    assert_eq!(next_incarnation(Some(41)), 42);
    assert_eq!(next_incarnation(Some(u64::MAX)), u64::MAX);

    let services = vec![
        Candidate {
            service_group: ServiceGroup::from_str("redis.default").unwrap(),
            suitability: Some(7),
        },
        Candidate {
            service_group: ServiceGroup::from_str("nginx.default").unwrap(),
            suitability: None,
        },
        Candidate {
            service_group: ServiceGroup::from_str("redis.default").unwrap(),
            suitability: Some(9),
        },
    ];
    let group = |text: &str| ServiceGroup::from_str(text).unwrap();
    assert_eq!(suitability(&services, &group("redis.default")), 7);
    assert_eq!(suitability(&services, &group("nginx.default")), 0);
    assert_eq!(suitability(&services, &group("mysql.default")), 0);
    assert_eq!(suitability(&vec![], &group("redis.default")), u64::MIN);
}

#[test]
fn watchers_and_pollers_take_their_settings_from_the_environment() {
    assert_eq!(SpecWatcherDelay::default().0, 2_000);
    assert_eq!(SpecWatcherDelay::configured_value(None).0, 2_000);
    assert_eq!(SpecWatcherDelay::configured_value(Some("500")).0, 500);
    assert_eq!(SpecWatcherDelay::configured_value(Some("65535")).0, 65_535);
    assert_eq!(SpecWatcherDelay::configured_value(Some("65536")).0, 2_000);
    assert_eq!(SpecWatcherDelay::configured_value(Some("soon")).0, 2_000);
    assert_eq!(SpecWatcherDelay::from_str("12"), Some(SpecWatcherDelay(12)));
    assert_eq!(SpecWatcherDelay::from_str("-1"), None);

    assert_eq!(update_frequency(None), 60_000);
    assert_eq!(update_frequency(Some("1000")), 1_000);
    assert_eq!(update_frequency(Some("-5")), -5);
    assert_eq!(update_frequency(Some("often")), 60_000);
    assert_eq!(update_period(Some("250")), 250);
    assert_eq!(update_period(None), 60_000);

    let mut watcher = SpecWatcher::run();
    assert!(!watcher.has_events());
    watcher.notice(3);
    watcher.notice(u64::MAX);
    assert_eq!(watcher.pending, u64::MAX);
    assert!(watcher.has_events());
    // The events are forgotten with the answer.
    assert!(!watcher.has_events());
    watcher.notice(0);
    assert!(!watcher.has_events());
}

#[test]
fn the_supervisor_looks_for_a_newer_self() {
    let current = ident("core/hab-sup/0.50.0/20180101000000");
    assert!(self_update_enabled(true, &current));
    assert!(!self_update_enabled(false, &current));
    assert!(!self_update_enabled(true, &ident("core/hab-sup/0.50.0")));

    let mut updater = SelfUpdater::new(
        current.clone(),
        "https://bldr.habitat.sh".to_string(),
        "stable".to_string(),
    );
    assert_eq!(updater.updated(WorkerEvent::Empty), (None, false));
    assert_eq!(updater.updated(WorkerEvent::Disconnected), (None, true));
    let newer = ident("core/hab-sup/0.51.0/20180202000000");
    assert_eq!(
        updater.updated(WorkerEvent::Package(newer.clone())),
        (Some(newer), false)
    );
    assert_eq!(updater.current, current);
    assert_eq!(updater.update_channel, "stable");
}

#[test]
fn a_program_of_a_package_runs_as_the_package_says_where_that_can_be_set() {
    let pkg = Pkg::from_install(Installed {
        ident: ident("core/redis/3.2.4/20170514150022"),
        installed_path: "/hab/pkgs/core/redis/3.2.4/20170514150022".to_string(),
        deps: vec![],
        env: Env(vec![("LANG".to_string(), "C".to_string())]),
        exposes: vec![],
        exports: vec![],
        svc_user: "redis".to_string(),
        svc_group: "cache".to_string(),
    })
    .unwrap();
    let plan = service_supervisor::exec::run(&pkg, true, Some(42), Some(43), 1000, 1001).unwrap();
    assert_eq!((plan.uid, plan.gid), (42, 43));
    assert_eq!(plan.env, pkg.env);
    let plan = service_supervisor::exec::run(&pkg, false, None, None, 1000, 1001).unwrap();
    assert_eq!((plan.uid, plan.gid), (1000, 1001));
    let plan = service_supervisor::exec::run(&pkg, false, Some(42), Some(43), 1000, 1001).unwrap();
    assert_eq!((plan.uid, plan.gid), (1000, 1001));
    assert_eq!(
        service_supervisor::exec::run(&pkg, true, None, None, 1000, 1001),
        Err(Error::Permissions("No uid for user 'redis' could be found".to_string()))
    );
    assert_eq!(
        service_supervisor::exec::run(&pkg, true, Some(42), None, 1000, 1001),
        Err(Error::Permissions("No gid for group 'cache' could be found".to_string()))
    );
}

use service_supervisor::composite::CompositeSpec;
use service_supervisor::error::Error;
use service_supervisor::ident::PackageIdent;
use service_supervisor::spec::{
    ApplicationEnvironment, DesiredState, ServiceBind, ServiceSpec, StartStyle, Topology,
    UpdateStrategy,
};
use service_supervisor::spec_file::{read_ident, read_record_binds, CompositeRecord, SpecRecord};

fn word(text: &str) -> Option<String> {
    Some(text.to_string())
}

fn bare(ident: Option<&str>) -> SpecRecord {
    SpecRecord {
        ident: ident.map(|t| t.to_string()),
        group: None,
        application_environment: None,
        bldr_url: None,
        channel: None,
        topology: None,
        update_strategy: None,
        binds: vec![],
        config_from: None,
        desired_state: None,
        svc_encrypted_password: None,
        composite: None,
    }
}

fn full_spec() -> ServiceSpec {
    ServiceSpec {
        ident: PackageIdent::from_str("core/redis/3.2.4/20170514150022").unwrap(),
        group: "prod".to_string(),
        application_environment: Some(ApplicationEnvironment::new("shop", "live").unwrap()),
        bldr_url: "https://depot.example.com".to_string(),
        channel: "unstable".to_string(),
        topology: Topology::Leader,
        update_strategy: UpdateStrategy::Rolling,
        binds: vec![
            ServiceBind::from_str("db:postgres.prod").unwrap(),
            ServiceBind::from_str("cache:shop.live#memcached.prod@acme").unwrap(),
        ],
        config_from: word("/tmp/config"),
        desired_state: DesiredState::Down,
        start_style: StartStyle::Persistent,
        svc_encrypted_password: word("SECRET-REDACTED"),
        composite: word("shop"),
    }
}

#[test]
fn a_record_with_a_package_alone_is_the_default_spec_of_the_package() {
    let spec = ServiceSpec::from_record(&bare(Some("core/redis")), StartStyle::Transient).unwrap();
    assert_eq!(spec, ServiceSpec::default_for(PackageIdent::from_str("core/redis").unwrap()));
    assert_eq!(spec.group, "default");
    assert_eq!(spec.channel, "stable");
    assert_eq!(spec.bldr_url, "https://bldr.habitat.sh");
    assert_eq!(spec.topology, Topology::Standalone);
    assert_eq!(spec.update_strategy, UpdateStrategy::Never);
    assert_eq!(spec.desired_state, DesiredState::Up);
}

#[test]
fn the_start_style_of_a_spec_that_is_read_is_the_readers() {
    let record = bare(Some("core/redis"));
    let kept = ServiceSpec::from_record(&record, StartStyle::Persistent).unwrap();
    assert_eq!(kept.start_style, StartStyle::Persistent);
    let passing = ServiceSpec::from_record(&record, StartStyle::Transient).unwrap();
    assert_eq!(passing.start_style, StartStyle::Transient);
}

#[test]
fn a_record_without_a_package_is_no_spec() {
    assert_eq!(
        ServiceSpec::from_record(&bare(None), StartStyle::Transient),
        Err(Error::MissingRequiredIdent)
    );
    assert_eq!(
        ServiceSpec::from_record(&bare(Some("/")), StartStyle::Transient),
        Err(Error::MissingRequiredIdent)
    );
    assert_eq!(
        ServiceSpec::from_record(&bare(Some("redis")), StartStyle::Transient),
        Err(Error::ServiceSpecParse("redis".to_string()))
    );
    assert_eq!(
        ServiceSpec::from_record(&bare(Some("a/b/c/d/e")), StartStyle::Transient),
        Err(Error::ServiceSpecParse("a/b/c/d/e".to_string()))
    );
}

#[test]
fn the_first_word_that_stands_for_nothing_is_reported() {
    let mut record = bare(Some("core/redis"));
    record.desired_state = word("sideways");
    assert_eq!(
        ServiceSpec::from_record(&record, StartStyle::Transient),
        Err(Error::ServiceSpecParse("sideways".to_string()))
    );
    record.binds = vec!["db:postgres.prod".to_string(), "nothing".to_string(), "a:b".to_string()];
    assert_eq!(
        ServiceSpec::from_record(&record, StartStyle::Transient),
        Err(Error::ServiceSpecParse("nothing".to_string()))
    );
    record.update_strategy = word("sometimes");
    assert_eq!(
        ServiceSpec::from_record(&record, StartStyle::Transient),
        Err(Error::ServiceSpecParse("sometimes".to_string()))
    );
    record.topology = word("ring");
    assert_eq!(
        ServiceSpec::from_record(&record, StartStyle::Transient),
        Err(Error::ServiceSpecParse("ring".to_string()))
    );
    record.application_environment = word("shop");
    assert_eq!(
        ServiceSpec::from_record(&record, StartStyle::Transient),
        Err(Error::ServiceSpecParse("shop".to_string()))
    );
    record.ident = word("core");
    assert_eq!(
        ServiceSpec::from_record(&record, StartStyle::Transient),
        Err(Error::ServiceSpecParse("core".to_string()))
    );
}

#[test]
fn an_application_environment_is_two_names() {
    let mut record = bare(Some("core/redis"));
    record.application_environment = word("shop.live");
    let spec = ServiceSpec::from_record(&record, StartStyle::Transient).unwrap();
    assert_eq!(
        spec.application_environment,
        Some(ApplicationEnvironment::new("shop", "live").unwrap())
    );
    for bad in ["shop.live.now", "shop.", ".live", "sh op.live", ""] {
        record.application_environment = word(bad);
        assert_eq!(
            ServiceSpec::from_record(&record, StartStyle::Transient),
            Err(Error::ServiceSpecParse(bad.to_string()))
        );
    }
}

#[test]
fn a_spec_is_written_with_every_key() {
    let record = full_spec().to_record().unwrap();
    assert_eq!(
        record,
        SpecRecord {
            ident: word("core/redis/3.2.4/20170514150022"),
            group: word("prod"),
            application_environment: word("shop.live"),
            bldr_url: word("https://depot.example.com"),
            channel: word("unstable"),
            topology: word("leader"),
            update_strategy: word("rolling"),
            binds: vec![
                "db:postgres.prod".to_string(),
                "cache:shop.live#memcached.prod@acme".to_string(),
            ],
            config_from: word("/tmp/config"),
            desired_state: word("down"),
            svc_encrypted_password: word("SECRET-REDACTED"),
            composite: word("shop"),
        }
    );
    let plain = ServiceSpec::default_for(PackageIdent::from_str("core/redis").unwrap())
        .to_record()
        .unwrap();
    assert_eq!(plain.topology, word("none"));
    assert_eq!(plain.update_strategy, word("none"));
    assert_eq!(plain.desired_state, word("up"));
    assert_eq!(plain.application_environment, None);
    assert!(plain.binds.is_empty());
}

#[test]
fn a_spec_that_is_written_reads_back_as_itself() {
    let spec = full_spec();
    let record = spec.to_record().unwrap();
    assert_eq!(ServiceSpec::from_record(&record, spec.start_style), Ok(spec));
    let plain = ServiceSpec::default_for(PackageIdent::from_str("core/redis/1.0").unwrap());
    let record = plain.to_record().unwrap();
    assert_eq!(ServiceSpec::from_record(&record, plain.start_style), Ok(plain));
}

#[test]
fn a_spec_without_a_package_is_not_written() {
    assert_eq!(ServiceSpec::default().to_record(), Err(Error::MissingRequiredIdent));
}

#[test]
fn the_words_of_binds_and_packages_are_read_one_by_one() {
    assert_eq!(read_ident(&None), Err(Error::MissingRequiredIdent));
    assert_eq!(
        read_ident(&word("core/redis")),
        Ok(PackageIdent::from_str("core/redis").unwrap())
    );
    assert_eq!(read_record_binds(&vec![]), Ok(vec![]));
    assert_eq!(
        read_record_binds(&vec!["db:postgres.prod".to_string()]),
        Ok(vec![ServiceBind::from_str("db:postgres.prod").unwrap()])
    );
    assert_eq!(
        read_record_binds(&vec!["db:postgres.prod".to_string(), "db:postgres".to_string()]),
        Err(Error::ServiceSpecParse("db:postgres".to_string()))
    );
}

#[test]
fn binds_and_application_environments_are_written_as_they_are_read() {
    let bind = ServiceBind::from_str("cache:shop.live#memcached.prod@acme").unwrap();
    assert_eq!(bind.to_string(), "cache:shop.live#memcached.prod@acme");
    let plain = ServiceBind::from_str("db:postgres.default").unwrap();
    assert_eq!(plain.to_string(), "db:postgres.default");
    assert_eq!(ApplicationEnvironment::new("shop", "live").unwrap().to_string(), "shop.live");
}

#[test]
fn the_record_of_a_composite_names_its_package_in_full() {
    let full = CompositeRecord { ident: word("core/builder/1.0.0/20170514150022") };
    let spec = CompositeSpec::from_record(&full).unwrap();
    assert_eq!(spec.ident(), &PackageIdent::from_str("core/builder/1.0.0/20170514150022").unwrap());
    assert_eq!(spec.to_record(), full);
    assert_eq!(
        CompositeSpec::from_record(&CompositeRecord { ident: None }),
        Err(Error::MissingRequiredIdent)
    );
    assert_eq!(
        CompositeSpec::from_record(&CompositeRecord { ident: word("core/builder") }),
        Err(Error::FullyQualifiedPackageIdentRequired("core/builder".to_string()))
    );
    assert_eq!(
        CompositeSpec::from_record(&CompositeRecord { ident: word("builder") }),
        Err(Error::ServiceSpecParse("builder".to_string()))
    );
}

#[test]
fn a_spec_file_that_is_written_anew_says_what_it_said() {
    let mut old = bare(Some("core/redis/3.2.4"));
    old.binds = vec!["db:postgres.prod@acme".to_string()];
    old.application_environment = word("shop.live");
    old.desired_state = word("down");
    let spec = ServiceSpec::from_record(&old, StartStyle::Transient).unwrap();
    let anew = spec.to_record().unwrap();
    // What the old file left to the defaults, the new one spells out.
    assert_ne!(anew, old);
    assert_eq!(anew.group, word("default"));
    assert_eq!(anew.channel, word("stable"));
    assert_eq!(anew.bldr_url, word("https://bldr.habitat.sh"));
    assert_eq!(anew.topology, word("none"));
    assert_eq!(ServiceSpec::from_record(&anew, StartStyle::Transient), Ok(spec));
}

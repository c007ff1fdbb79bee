use service_supervisor::composite::{CompositeSpec, PackageType, WritePlan};
use service_supervisor::error::Error;
use service_supervisor::ident::PackageIdent;
use service_supervisor::spec::ServiceSpec;
use service_supervisor::spec_dir::{LoadedSpec, Migration, SpecDir};
use service_supervisor::vecs::reversed;
use service_supervisor::spec_path::{path_parent, path_with_extension};
use service_supervisor::svc_dir::{
    get_user_and_group, purges, svc_path, svc_sub_path, DirStep, EntryKind, SvcDir,
};

fn spec(ident: &str) -> ServiceSpec {
    ServiceSpec::default_for(PackageIdent::from_str(ident).unwrap())
}

fn loaded(path: &str, spec: Result<ServiceSpec, Error>) -> LoadedSpec {
    LoadedSpec {
        path: path.to_string(),
        spec,
    }
}

#[test]
fn a_spec_directory_must_be_a_directory() {
    let dir = SpecDir::new("/hab/sup/default/specs", true).unwrap();
    assert_eq!(dir.as_str(), "/hab/sup/default/specs");
    assert_eq!(dir.spec_glob(), "/hab/sup/default/specs/*.spec");
    assert_eq!(dir.clone(), dir);
    assert_eq!(
        SpecDir::new("/nowhere", false),
        Err(Error::SpecWatcherDirNotFound("/nowhere".to_string()))
    );
}

#[test]
fn files_that_hold_no_spec_are_passed_over() {
    let dir = SpecDir::new("/specs", true).unwrap();
    let files = vec![
        loaded("/specs/redis.spec", Ok(spec("core/redis"))),
        loaded(
            "/specs/broken.spec",
            Err(Error::ServiceSpecParse("expected a table".to_string())),
        ),
        loaded("/specs/empty.spec", Err(Error::MissingRequiredIdent)),
        // The file is named after another service than the one in it.
        loaded("/specs/nginx.spec", Ok(spec("core/redis"))),
        loaded("/specs/mysql.spec", Ok(spec("core/mysql/5.7.0"))),
    ];
    assert_eq!(
        dir.specs(files),
        Ok(vec![spec("core/redis"), spec("core/mysql/5.7.0")])
    );
    assert_eq!(dir.specs(vec![]), Ok(vec![]));
}

#[test]
fn a_file_that_cannot_be_read_fails_the_whole() {
    let dir = SpecDir::new("/specs", true).unwrap();
    let files = vec![
        loaded("/specs/redis.spec", Ok(spec("core/redis"))),
        loaded(
            "/specs/locked.spec",
            Err(Error::ServiceSpecFileIO("/specs/locked.spec".to_string())),
        ),
        loaded("/specs/mysql.spec", Ok(spec("core/mysql"))),
        loaded(
            "/specs/other.spec",
            Err(Error::ServiceSpecFileIO("/specs/other.spec".to_string())),
        ),
    ];
    assert_eq!(
        dir.specs(files),
        Err(Error::ServiceSpecFileIO("/specs/locked.spec".to_string()))
    );
}

#[test]
fn every_readable_spec_is_written_back_on_migration() {
    let dir = SpecDir::new("/specs", true).unwrap();
    let files = vec![
        loaded("/specs/redis.spec", Ok(spec("core/redis"))),
        loaded("/specs/broken.spec", Err(Error::MissingRequiredIdent)),
    ];
    assert_eq!(
        dir.migrate_specs(files),
        vec![
            Migration::Rewrite {
                path: "/specs/redis.spec".to_string(),
                spec: spec("core/redis")
            },
            Migration::Report {
                path: "/specs/broken.spec".to_string(),
                error: Error::MissingRequiredIdent
            },
        ]
    );
    assert_eq!(reversed(vec![1, 2, 3]), vec![3, 2, 1]);
    assert_eq!(reversed(Vec::<u8>::new()), Vec::<u8>::new());
}

#[test]
fn a_composite_spec_names_its_package_in_full() {
    let full = PackageIdent::from_str("core/builder/1.0.0/20180101000000").unwrap();
    let partial = PackageIdent::from_str("core/builder").unwrap();

    let spec = CompositeSpec::from_package_install(PackageType::Composite, &full).unwrap();
    assert_eq!(spec.ident(), &full);
    assert_eq!(spec.file_name(), "builder.spec");
    assert_eq!(spec.clone(), spec);

    assert_eq!(
        CompositeSpec::from_package_install(PackageType::Composite, &partial),
        Err(Error::FullyQualifiedPackageIdentRequired(
            "core/builder".to_string()
        ))
    );
    assert_eq!(
        CompositeSpec::from_package_install(PackageType::Standalone, &full),
        Err(Error::CompositePackageExpected(
            "core/builder/1.0.0/20180101000000".to_string()
        ))
    );

    assert_eq!(CompositeSpec::from_ident(full.clone()).unwrap().ident(), &full);
    assert_eq!(
        CompositeSpec::from_ident(PackageIdent::default()),
        Err(Error::MissingRequiredIdent)
    );
    assert_eq!(
        CompositeSpec::from_ident(partial),
        Err(Error::FullyQualifiedPackageIdentRequired(
            "core/builder".to_string()
        ))
    );
}

#[test]
fn a_composite_spec_is_written_through_a_temporary_file() {
    assert_eq!(
        CompositeSpec::write_plan("/hab/sup/default/composites/builder.spec", "Ab3dEf9h"),
        Some(WritePlan {
            dir: "/hab/sup/default/composites".to_string(),
            tmp_file: "/hab/sup/default/composites/builder.Ab3dEf9h".to_string(),
            file: "/hab/sup/default/composites/builder.spec".to_string(),
        })
    );
    assert_eq!(CompositeSpec::write_plan("/hab/composites/", "x"), None);

    let full = PackageIdent::from_str("core/builder/1.0.0/20180101000000").unwrap();
    let spec = CompositeSpec::from_ident(full).unwrap();
    let plan = spec.to_file("/composites/builder.spec").unwrap();
    assert_eq!(plan.dir, "/composites");
    assert_eq!(plan.file, "/composites/builder.spec");
    let ext = plan.tmp_file.strip_prefix("/composites/builder.").unwrap();
    assert_eq!(ext.len(), 8);
    assert!(ext.chars().all(|c| c.is_ascii_alphanumeric()));
    // Chance gives another name each time.
    let other = spec.to_file("/composites/builder.spec").unwrap();
    let third = spec.to_file("/composites/builder.spec").unwrap();
    assert!(plan.tmp_file != other.tmp_file || plan.tmp_file != third.tmp_file);
    assert!(spec.to_file("").is_none());
}

#[test]
fn parents_and_extensions_of_paths() {
    assert_eq!(path_parent("/a/b/c.spec"), Some("/a/b"));
    assert_eq!(path_parent("/c.spec"), Some("/"));
    assert_eq!(path_parent("c.spec"), Some(""));
    assert_eq!(path_parent("/a/b/"), None);
    assert_eq!(path_parent(""), None);
    assert_eq!(path_with_extension("/a/b/c.spec", "tmp"), "/a/b/c.tmp");
    assert_eq!(path_with_extension("/a/b/c", "tmp"), "/a/b/c.tmp");
    assert_eq!(path_with_extension("/a.b/c.d.e", "x"), "/a.b/c.d.x");
    assert_eq!(path_with_extension(".hidden", "x"), ".hidden.x");
    assert_eq!(path_with_extension("/a/b/", "x"), "/a/b/");
}

#[test]
fn the_directories_of_a_service() {
    assert_eq!(svc_path("redis"), "/hab/svc/redis");
    assert_eq!(svc_sub_path("redis", "config"), "/hab/svc/redis/config");

    let dir = SvcDir::new("redis", "hab", "habgroup");
    let owned = |sub: &str, owner: Option<(String, String)>| DirStep::CreateOwnedDir {
        path: format!("/hab/svc/redis/{}", sub),
        owner,
        mode: 0o770,
    };
    let create = |path: &str| DirStep::CreateDir {
        path: path.to_string(),
    };
    let owner = Some(("hab".to_string(), "habgroup".to_string()));
    assert_eq!(
        dir.create(true),
        vec![
            DirStep::AssertUserAndGroup {
                user: "hab".to_string(),
                group: "habgroup".to_string()
            },
            create("/hab/svc/redis"),
            create("/hab/svc/redis/hooks"),
            create("/hab/svc/redis/logs"),
            owned("config", owner.clone()),
            owned("data", owner.clone()),
            owned("files", owner.clone()),
            owned("var", owner.clone()),
            owned("static", owner.clone()),
        ]
    );
    assert_eq!(
        dir.create(false),
        vec![
            create("/hab/svc/redis"),
            create("/hab/svc/redis/hooks"),
            create("/hab/svc/redis/logs"),
            owned("config", None),
            owned("data", None),
            owned("files", None),
            owned("var", None),
            owned("static", None),
        ]
    );
    assert_eq!(
        dir.purge_templated_content(),
        vec![
            "/hab/svc/redis/config".to_string(),
            "/hab/svc/redis/hooks".to_string()
        ]
    );
    assert!(purges(EntryKind::File));
    assert!(!purges(EntryKind::Dir));
    assert!(!purges(EntryKind::Symlink));
    assert!(!purges(EntryKind::Unknown));
}

#[test]
fn the_user_and_group_of_a_service() {
    let s = |t: &str| Some(t.to_string());
    assert_eq!(
        get_user_and_group(s("redis"), s("redis"), true, s("root"), s("root")),
        Ok(("redis".to_string(), "redis".to_string()))
    );
    // A package that names only one of the two names none.
    assert_eq!(
        get_user_and_group(s("redis"), None, true, s("root"), s("root")),
        Ok(("hab".to_string(), "hab".to_string()))
    );
    assert_eq!(
        get_user_and_group(None, None, false, s("me"), s("users")),
        Ok(("me".to_string(), "users".to_string()))
    );
    assert_eq!(
        get_user_and_group(None, None, false, s("me"), None),
        Err(Error::Permissions(
            "Can't determine current user:group".to_string()
        ))
    );
}

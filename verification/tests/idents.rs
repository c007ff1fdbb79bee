use service_supervisor::error::Error;
use service_supervisor::ident::PackageIdent;

#[test]
fn an_ident_has_two_to_four_parts() {
    let short = PackageIdent::from_str("core/redis").unwrap();
    assert_eq!(short.origin, "core");
    assert_eq!(short.name, "redis");
    assert_eq!(short.version, None);
    assert_eq!(short.release, None);
    assert!(!short.fully_qualified());

    let versioned = PackageIdent::from_str("core/redis/3.2.4").unwrap();
    assert_eq!(versioned.version, Some("3.2.4".to_string()));
    assert_eq!(versioned.release, None);
    assert!(!versioned.fully_qualified());

    let full = PackageIdent::from_str("core/redis/3.2.4/20170514150022").unwrap();
    assert_eq!(full.version, Some("3.2.4".to_string()));
    assert_eq!(full.release, Some("20170514150022".to_string()));
    assert!(full.fully_qualified());
}

#[test]
fn a_text_with_fewer_or_more_parts_is_no_ident() {
    assert_eq!(
        PackageIdent::from_str("redis"),
        Err(Error::InvalidPackageIdent("redis".to_string()))
    );
    assert_eq!(
        PackageIdent::from_str("a/b/c/d/e"),
        Err(Error::InvalidPackageIdent("a/b/c/d/e".to_string()))
    );
    assert_eq!(
        PackageIdent::from_str(""),
        Err(Error::InvalidPackageIdent("".to_string()))
    );
}

#[test]
fn an_ident_is_written_as_it_is_read() {
    for text in &[
        "core/redis",
        "core/redis/3.2.4",
        "core/redis/3.2.4/20170514150022",
    ] {
        assert_eq!(PackageIdent::from_str(text).unwrap().to_string(), *text);
    }
    // A release is only written behind a version.
    let odd = PackageIdent::new("core", "redis", None, Some("20170514150022"));
    assert_eq!(odd.to_string(), "core/redis");
}

#[test]
fn idents_are_the_same_when_all_parts_are() {
    let a = PackageIdent::from_str("core/redis/3.2.4").unwrap();
    assert!(a.same(&a.clone()));
    assert!(!a.same(&PackageIdent::from_str("core/redis").unwrap()));
    assert!(!a.same(&PackageIdent::from_str("core/redis/3.2.5").unwrap()));
    assert!(!a.same(&PackageIdent::from_str("other/redis/3.2.4").unwrap()));
    assert!(PackageIdent::default().is_empty());
    assert!(!a.is_empty());
    assert_eq!(
        PackageIdent::new("core", "redis", Some("3.2.4"), None),
        a
    );
}

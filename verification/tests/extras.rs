use service_supervisor::error::Error;
use service_supervisor::ident::{
    compare_parts, compare_text, compare_versions, Order, PackageIdent,
};
use service_supervisor::launcher::descendants::{
    children, descendants_first, shutdown_method, terminate_process_descendants, ProcessEntry,
};
use service_supervisor::launcher::output::{output_format, pipe_stderr, pipe_stdout};
use service_supervisor::manager::gateway::{
    clean_dirty_state, contains_ident, update_peers_from_watch_file, watched_services,
    GatewayState,
};
use service_supervisor::protocol::launcher::ShutdownMethod;
use service_supervisor::spec::ServiceSpec;
use service_supervisor::supervisor::{user_info, user_name_or_anonymous, CurrentUser, UserInfo};

fn ident(text: &str) -> PackageIdent {
    PackageIdent::from_str(text).unwrap()
}

#[test]
fn texts_are_ordered_like_in_a_dictionary() {
    assert_eq!(compare_text("", ""), Order::Equal);
    assert_eq!(compare_text("", "a"), Order::Less);
    assert_eq!(compare_text("a", ""), Order::Greater);
    assert_eq!(compare_text("abc", "abd"), Order::Less);
    assert_eq!(compare_text("abd", "abc"), Order::Greater);
    assert_eq!(compare_text("abc", "abc"), Order::Equal);
    assert_eq!(compare_text("ab", "abc"), Order::Less);
    assert_eq!(compare_text("20180101000000", "20170101000000"), Order::Greater);
    for (a, b) in &[("x", "y"), ("Zebra", "apple"), ("é", "z"), ("10", "9")] {
        let expected = if a < b {
            Order::Less
        } else if a > b {
            Order::Greater
        } else {
            Order::Equal
        };
        assert_eq!(compare_text(a, b), expected);
    }
}

#[test]
fn versions_are_ordered_part_by_part() {
    assert_eq!(compare_parts("9", "10"), Order::Less);
    assert_eq!(compare_parts("010", "10"), Order::Equal);
    assert_eq!(compare_parts("rc1", "rc2"), Order::Less);
    assert_eq!(compare_parts("10", "x"), Order::Less);

    assert_eq!(compare_versions("1.2.3", "1.2.3"), Order::Equal);
    assert_eq!(compare_versions("1.2.3", "1.2.10"), Order::Less);
    assert_eq!(compare_versions("1.10.0", "1.9.9"), Order::Greater);
    assert_eq!(compare_versions("1.2", "1.2.0"), Order::Less);
    assert_eq!(compare_versions("2", "1.9.9"), Order::Greater);
    assert_eq!(compare_versions("0.50.3", "0.51.0"), Order::Less);
}

#[test]
fn a_release_is_newer_by_version_and_then_by_time() {
    let current = ident("core/redis/3.2.4/20170514150022");
    assert!(current.older_than(&ident("core/redis/3.2.4/20170601000000")));
    assert!(current.older_than(&ident("core/redis/3.2.10/20160101000000")));
    assert!(!current.older_than(&ident("core/redis/3.2.4/20170514150022")));
    assert!(!current.older_than(&ident("core/redis/3.2.4/20170101000000")));
    assert!(!current.older_than(&ident("core/redis/3.2.3/20180101000000")));
    // Another package, or one that is not named in full, is never newer.
    assert!(!current.older_than(&ident("core/nginx/9.9.9/20990101000000")));
    assert!(!current.older_than(&ident("other/redis/9.9.9/20990101000000")));
    assert!(!current.older_than(&ident("core/redis/9.9.9")));
    assert!(!ident("core/redis").older_than(&ident("core/redis/9.9.9/20990101000000")));
}

#[test]
fn descendants_are_ended_before_their_ancestors() {
    let entry = |pid, parent| ProcessEntry { pid, parent };
    // 1 has the children 2 and 3; 2 has 4 and 5; 5 has 6; 7 is a stranger.
    let table = vec![
        entry(2, 1),
        entry(4, 2),
        entry(3, 1),
        entry(7, 9),
        entry(5, 2),
        entry(6, 5),
    ];
    assert_eq!(children(&table, 1), vec![2, 3]);
    assert_eq!(children(&table, 2), vec![4, 5]);
    assert_eq!(children(&table, 6), Vec::<u32>::new());
    assert_eq!(
        terminate_process_descendants(&table, 1),
        vec![4, 6, 5, 2, 3, 1]
    );
    assert_eq!(terminate_process_descendants(&table, 5), vec![6, 5]);
    assert_eq!(terminate_process_descendants(&table, 42), vec![42]);
    assert_eq!(descendants_first(&table, 1, 0), vec![1]);
    assert_eq!(descendants_first(&table, 1, 1), vec![2, 3, 1]);

    // A snapshot that leads in circles comes to an end all the same.
    let circle = vec![entry(1, 2), entry(2, 1)];
    assert_eq!(terminate_process_descendants(&circle, 1), vec![1, 2, 1]);
}

#[test]
fn the_way_a_process_ended_is_told() {
    assert_eq!(shutdown_method(false, false, false), ShutdownMethod::AlreadyExited);
    assert_eq!(shutdown_method(false, true, true), ShutdownMethod::AlreadyExited);
    assert_eq!(shutdown_method(true, true, false), ShutdownMethod::GracefulTermination);
    assert_eq!(shutdown_method(true, false, false), ShutdownMethod::GracefulTermination);
    assert_eq!(shutdown_method(true, false, true), ShutdownMethod::Killed);
}

#[test]
fn the_lines_of_a_service_are_marked() {
    assert_eq!(output_format("redis.default", "O"), "redis.default(O): ");
    assert_eq!(
        pipe_stdout("redis.default", "ready to accept connections\n"),
        "redis.default(O): ready to accept connections\n"
    );
    assert_eq!(
        pipe_stderr("redis.default", "out of memory\n"),
        "redis.default(E): \u{1b}[1;31mout of memory\n\u{1b}[0m"
    );
    assert_eq!(pipe_stderr("x", ""), "x(E): \u{1b}[1;31m\u{1b}[0m");
}

#[test]
fn the_gateway_reads_what_was_last_published() {
    let mut state = GatewayState::default();
    assert_eq!(state.census_data, "");
    assert_eq!(state.auth_token, None);
    assert!(state.admits(None));
    assert!(state.admits(Some("anything")));

    state.persist_state("census".to_string(), "gossip".to_string(), "services".to_string());
    assert_eq!(state.census_data, "census");
    assert_eq!(state.butterfly_data, "gossip");
    assert_eq!(state.services_data, "services");

    let mut guarded = GatewayState::new(Some("secret"));
    assert!(guarded.admits(Some("secret")));
    assert!(!guarded.admits(Some("guess")));
    assert!(!guarded.admits(None));
    guarded.persist_state("a".to_string(), "b".to_string(), "c".to_string());
    assert_eq!(guarded.auth_token, Some("secret".to_string()));
}

#[test]
fn what_is_left_over_is_cleaned_and_what_is_loaded_is_watched() {
    assert!(clean_dirty_state("/hab/sup/default/data/redis.default.health"));
    assert!(clean_dirty_state("/hab/sup/default/data/census.dat.tmp"));
    assert!(!clean_dirty_state("/hab/sup/default/data/census.dat"));
    assert!(!clean_dirty_state("/hab/sup/default/data/health"));
    assert!(!clean_dirty_state("/hab/sup/default/data.tmp/x"));

    let spec = |text: &str| ServiceSpec::default_for(ident(text));
    let loaded = vec![spec("core/a"), spec("core/b"), spec("core/c")];
    let running = vec![ident("core/b")];
    assert_eq!(
        watched_services(&loaded, &running),
        vec![spec("core/a"), spec("core/c")]
    );
    assert_eq!(watched_services(&loaded, &vec![]), loaded);
    assert!(contains_ident(&running, &ident("core/b")));
    assert!(!contains_ident(&running, &ident("core/b/1.0.0")));

    assert!(update_peers_from_watch_file(true, true, true));
    assert!(!update_peers_from_watch_file(false, true, true));
    assert!(!update_peers_from_watch_file(true, false, true));
    assert!(!update_peers_from_watch_file(true, true, false));
}

#[test]
fn a_service_runs_as_its_own_user_where_the_supervisor_can() {
    let me = || CurrentUser {
        user: Some("me".to_string()),
        uid: 1000,
        group: None,
        gid: Some(100),
    };
    assert_eq!(
        user_info("hab", "habgroup", true, Some(42), Some(43), me()),
        Ok(UserInfo {
            user: Some("hab".to_string()),
            uid: Some(42),
            group: Some("habgroup".to_string()),
            gid: Some(43),
        })
    );
    assert_eq!(
        user_info("hab", "habgroup", true, None, Some(43), me()),
        Err(Error::UserNotFound("hab".to_string()))
    );
    assert_eq!(
        user_info("hab", "habgroup", true, Some(42), None, me()),
        Err(Error::GroupNotFound("habgroup".to_string()))
    );
    assert_eq!(
        user_info("hab", "habgroup", false, None, None, me()),
        Ok(UserInfo {
            user: Some("me".to_string()),
            uid: Some(1000),
            group: None,
            gid: Some(100),
        })
    );
    assert_eq!(user_name_or_anonymous(&Some("me".to_string())), "me");
    assert_eq!(user_name_or_anonymous(&None), "anonymous");
}

use service_supervisor::protocol::launcher::{
    Register, Restart, ShutdownMethod, Spawn, SpawnOk, Terminate, TerminateOk,
};
use service_supervisor::protocol::net::{error, no_pid, Envelope, ErrCode, NetErr, NetOk};

#[test]
fn a_text_field_is_set_taken_and_cleared() {
    let mut msg = Register::new();
    assert!(!msg.has_pipe());
    assert_eq!(msg.get_pipe(), "");

    msg.set_pipe("/tmp/pipe".to_string());
    assert!(msg.has_pipe());
    assert_eq!(msg.get_pipe(), "/tmp/pipe");

    assert_eq!(msg.take_pipe(), "/tmp/pipe");
    assert!(!msg.has_pipe());
    assert_eq!(msg.take_pipe(), "");

    msg.mut_pipe().push_str("abc");
    assert!(msg.has_pipe());
    assert_eq!(msg.get_pipe(), "abc");
    msg.mut_pipe().push_str("def");
    assert_eq!(msg.get_pipe(), "abcdef");

    msg.clear_pipe();
    assert!(!msg.has_pipe());
    assert_eq!(msg, Register::new());
}

#[test]
fn a_number_field_is_set_and_cleared() {
    let mut restart = Restart::new();
    assert!(!restart.has_pid());
    assert_eq!(restart.get_pid(), 0);
    restart.set_pid(4711);
    assert!(restart.has_pid());
    assert_eq!(restart.get_pid(), 4711);
    restart.clear_pid();
    assert!(!restart.has_pid());
    assert_eq!(restart.get_pid(), 0);

    let mut terminate = Terminate::new();
    terminate.set_pid(17);
    assert_eq!(terminate.get_pid(), 17);
    terminate.clear_pid();
    assert!(!terminate.has_pid());

    let mut ok = SpawnOk::new();
    ok.set_pid(u32::MAX);
    assert_eq!(ok.get_pid(), u32::MAX);
    ok.clear_pid();
    assert_eq!(ok, SpawnOk::new());
}

#[test]
fn a_termination_tells_the_exit_code_and_the_method() {
    let mut ok = TerminateOk::new();
    assert!(!ok.has_exit_code());
    assert!(!ok.has_shutdown_method());
    assert_eq!(ok.get_exit_code(), 0);
    assert_eq!(ok.get_shutdown_method(), ShutdownMethod::AlreadyExited);

    ok.set_exit_code(-9);
    ok.set_shutdown_method(ShutdownMethod::Killed);
    assert!(ok.has_exit_code());
    assert!(ok.has_shutdown_method());
    assert_eq!(ok.get_exit_code(), -9);
    assert_eq!(ok.get_shutdown_method(), ShutdownMethod::Killed);

    ok.clear_exit_code();
    assert!(!ok.has_exit_code());
    assert!(ok.has_shutdown_method());
    ok.clear_shutdown_method();
    assert_eq!(ok, TerminateOk::new());
}

#[test]
fn shutdown_methods_have_numbers() {
    assert_eq!(ShutdownMethod::AlreadyExited.value(), 0);
    assert_eq!(ShutdownMethod::GracefulTermination.value(), 1);
    assert_eq!(ShutdownMethod::Killed.value(), 2);
    assert_eq!(ShutdownMethod::from_i32(0), Some(ShutdownMethod::AlreadyExited));
    assert_eq!(ShutdownMethod::from_i32(1), Some(ShutdownMethod::GracefulTermination));
    assert_eq!(ShutdownMethod::from_i32(2), Some(ShutdownMethod::Killed));
    assert_eq!(ShutdownMethod::from_i32(3), None);
    assert_eq!(ShutdownMethod::from_i32(-1), None);
    assert_eq!(
        ShutdownMethod::values(),
        vec![
            ShutdownMethod::AlreadyExited,
            ShutdownMethod::GracefulTermination,
            ShutdownMethod::Killed
        ]
    );
}

#[test]
fn a_spawn_request_holds_its_fields_apart() {
    let mut spawn = Spawn::new();
    spawn.set_id("redis.default".to_string());
    spawn.set_binary("/hab/svc/redis/run".to_string());
    spawn.set_svc_user("hab".to_string());
    spawn.set_svc_group("habgroup".to_string());
    spawn.set_svc_password("secret".to_string());
    spawn.set_env(vec![("PATH".to_string(), "/bin".to_string())]);

    assert_eq!(spawn.get_id(), "redis.default");
    assert_eq!(spawn.get_binary(), "/hab/svc/redis/run");
    assert_eq!(spawn.get_svc_user(), "hab");
    assert_eq!(spawn.get_svc_group(), "habgroup");
    assert_eq!(spawn.get_svc_password(), "secret");
    assert_eq!(spawn.get_env(), &vec![("PATH".to_string(), "/bin".to_string())]);
    assert!(spawn.has_id() && spawn.has_binary() && spawn.has_svc_user());
    assert!(spawn.has_svc_group() && spawn.has_svc_password());

    let copy = spawn.clone();
    assert_eq!(copy, spawn);

    spawn.mut_env().push(("HOME".to_string(), "/root".to_string()));
    assert_eq!(spawn.get_env().len(), 2);
    assert_eq!(spawn.take_env().len(), 2);
    assert!(spawn.get_env().is_empty());
    spawn.mut_env().push(("A".to_string(), "b".to_string()));
    spawn.clear_env();
    assert!(spawn.get_env().is_empty());

    assert_eq!(spawn.take_id(), "redis.default");
    assert_eq!(spawn.take_binary(), "/hab/svc/redis/run");
    assert_eq!(spawn.take_svc_user(), "hab");
    assert_eq!(spawn.take_svc_group(), "habgroup");
    assert_eq!(spawn.take_svc_password(), "secret");
    assert_eq!(spawn, Spawn::new());

    spawn.mut_id().push('a');
    spawn.mut_binary().push('b');
    spawn.mut_svc_user().push('c');
    spawn.mut_svc_group().push('d');
    spawn.mut_svc_password().push('e');
    assert_eq!(
        (
            spawn.get_id(),
            spawn.get_binary(),
            spawn.get_svc_user(),
            spawn.get_svc_group(),
            spawn.get_svc_password()
        ),
        ("a", "b", "c", "d", "e")
    );
    spawn.clear_id();
    spawn.clear_binary();
    spawn.clear_svc_user();
    spawn.clear_svc_group();
    spawn.clear_svc_password();
    assert_eq!(spawn, Spawn::new());
}

#[test]
fn an_envelope_carries_a_name_bytes_and_a_number() {
    let mut envelope = Envelope::new();
    assert!(!envelope.has_message_id() && !envelope.has_payload() && !envelope.has_txn_id());
    assert_eq!(envelope.get_message_id(), "");
    assert_eq!(envelope.get_payload(), &[] as &[u8]);
    assert_eq!(envelope.get_txn_id(), 0);

    envelope.set_message_id("Spawn".to_string());
    envelope.set_payload(vec![1, 2, 3]);
    envelope.set_txn_id(99);
    assert_eq!(envelope.get_message_id(), "Spawn");
    assert_eq!(envelope.get_payload(), &[1u8, 2, 3]);
    assert_eq!(envelope.get_txn_id(), 99);
    assert_eq!(envelope.clone(), envelope);

    envelope.mut_payload().push(4);
    assert_eq!(envelope.take_payload(), vec![1, 2, 3, 4]);
    assert_eq!(envelope.take_payload(), Vec::<u8>::new());
    envelope.mut_message_id().push('!');
    assert_eq!(envelope.take_message_id(), "Spawn!");
    envelope.clear_txn_id();
    assert_eq!(envelope, Envelope::new());

    envelope.mut_payload().push(7);
    envelope.mut_message_id().push('x');
    envelope.clear_payload();
    envelope.clear_message_id();
    assert_eq!(envelope, Envelope::new());
}

#[test]
fn failures_have_a_code_and_words() {
    let unknown = error("it broke");
    assert_eq!(unknown.get_code(), ErrCode::Unknown);
    assert_eq!(unknown.get_msg(), "it broke");
    assert!(unknown.has_code() && unknown.has_msg());

    let missing = no_pid();
    assert_eq!(missing.get_code(), ErrCode::NoPID);
    assert!(!missing.has_msg());
    assert_eq!(missing.get_msg(), "");

    let mut reply = NetErr::new();
    assert_eq!(reply.get_code(), ErrCode::Unknown);
    assert!(!reply.has_code());
    reply.set_code(ErrCode::NoPID);
    reply.set_msg("gone".to_string());
    reply.mut_msg().push('!');
    assert_eq!(reply.take_msg(), "gone!");
    reply.clear_code();
    reply.clear_msg();
    assert_eq!(reply, NetErr::new());
    assert_eq!(NetOk::new(), NetOk {});
}

#[test]
fn clearing_a_message_unsets_every_field() {
    let mut spawn = service_supervisor::protocol::launcher::Spawn::new();
    spawn.set_id("core/redis".to_string());
    spawn.set_binary("/bin/redis".to_string());
    spawn.set_env(vec![("A".to_string(), "b".to_string())]);
    spawn.clear();
    assert_eq!(spawn, service_supervisor::protocol::launcher::Spawn::new());
    assert!(!spawn.has_id());
    assert!(spawn.get_env().is_empty());

    let mut envelope = service_supervisor::protocol::net::Envelope::new();
    envelope.set_message_id("Spawn".to_string());
    envelope.set_payload(vec![1, 2]);
    envelope.set_txn_id(3);
    envelope.clear();
    assert_eq!(envelope, service_supervisor::protocol::net::Envelope::new());

    let mut ok = service_supervisor::protocol::launcher::TerminateOk::new();
    ok.set_exit_code(9);
    ok.clear();
    assert!(!ok.has_exit_code());
    assert_eq!(ok.get_exit_code(), 0);
}

use protobuf::Message;
use service_supervisor::protocol::launcher::{
    Register, Restart, ShutdownMethod, Spawn, SpawnOk, Terminate, TerminateOk,
};
use service_supervisor::protocol::layout::EnvEntry;
use service_supervisor::protocol::net::{Envelope, ErrCode, NetErr, NetOk};
use service_supervisor::protocol::wire::{
    merge_from, parse_from_bytes, read_bytes, read_fields, read_i32, read_text, read_u32,
    read_u64, DecodeError, WireField, WireMessage, WireValue,
};

#[test]
fn a_register_is_a_tag_a_length_and_the_text() {
    let mut msg = Register::new();
    msg.set_pipe("ab".to_string());
    assert_eq!(msg.write_to_bytes(), vec![0x0a, 0x02, b'a', b'b']);
}

#[test]
fn a_message_without_fields_is_no_bytes() {
    assert_eq!(Register::new().write_to_bytes(), Vec::<u8>::new());
    assert_eq!(Spawn::new().write_to_bytes(), Vec::<u8>::new());
    assert_eq!(NetOk::new().write_to_bytes(), Vec::<u8>::new());
    assert_eq!(parse_from_bytes::<Register>(&[]), Ok(Register::new()));
}

#[test]
fn a_pid_travels_as_a_varint() {
    let mut msg = Restart::new();
    msg.set_pid(300);
    assert_eq!(msg.write_to_bytes(), vec![0x08, 0xac, 0x02]);
    let mut t = Terminate::new();
    t.set_pid(1);
    assert_eq!(t.write_to_bytes(), vec![0x08, 0x01]);
    let mut ok = SpawnOk::new();
    ok.set_pid(0);
    assert_eq!(ok.write_to_bytes(), vec![0x08, 0x00]);
}

#[test]
fn a_negative_exit_code_takes_ten_bytes() {
    let mut msg = TerminateOk::new();
    msg.set_exit_code(-1);
    msg.set_shutdown_method(ShutdownMethod::Killed);
    let bytes = msg.write_to_bytes();
    assert_eq!(
        bytes,
        vec![0x08, 0xff, 0xff, 0xff, 0xff, 0xff, 0xff, 0xff, 0xff, 0xff, 0x01, 0x10, 0x02]
    );
    let back = parse_from_bytes::<TerminateOk>(&bytes).unwrap();
    assert_eq!(back.get_exit_code(), -1);
    assert_eq!(back.get_shutdown_method(), ShutdownMethod::Killed);
    assert_eq!(back, msg);
}

#[test]
fn an_envelope_holds_name_payload_and_transaction() {
    let mut inner = Terminate::new();
    inner.set_pid(7);
    let mut msg = Envelope::new();
    msg.set_message_id("Terminate".to_string());
    msg.set_payload(inner.write_to_bytes());
    msg.set_txn_id(5);
    let bytes = msg.write_to_bytes();
    let mut expected = vec![0x0a, 0x09];
    expected.extend_from_slice(b"Terminate");
    expected.extend_from_slice(&[0x12, 0x02, 0x08, 0x07, 0x18, 0x05]);
    assert_eq!(bytes, expected);
    let back = parse_from_bytes::<Envelope>(&bytes).unwrap();
    assert_eq!(back, msg);
    let within = parse_from_bytes::<Terminate>(back.get_payload()).unwrap();
    assert_eq!(within.get_pid(), 7);
}

#[test]
fn a_spawn_comes_back_as_it_was_written() {
    let mut msg = Spawn::new();
    msg.set_id("core/redis".to_string());
    msg.set_binary("/hab/pkgs/core/redis/run".to_string());
    msg.set_svc_user("hab".to_string());
    msg.set_svc_group("hab".to_string());
    msg.set_env(vec![
        ("PATH".to_string(), "/bin".to_string()),
        ("HOME".to_string(), String::new()),
    ]);
    let bytes = msg.write_to_bytes();
    let back = parse_from_bytes::<Spawn>(&bytes).unwrap();
    assert_eq!(back, msg);
    assert!(!back.has_svc_password());
    assert_eq!(back.get_env().len(), 2);
}

#[test]
fn an_entry_of_the_environment_is_a_message_within() {
    let mut msg = Spawn::new();
    msg.set_env(vec![("A".to_string(), "b".to_string())]);
    assert_eq!(
        msg.write_to_bytes(),
        vec![0x32, 0x06, 0x0a, 0x01, b'A', 0x12, 0x01, b'b']
    );
    let entry = EnvEntry { name: "A".to_string(), value: "b".to_string() };
    assert_eq!(entry.write_to_bytes(), vec![0x0a, 0x01, b'A', 0x12, 0x01, b'b']);
}

#[test]
fn a_failure_names_its_kind_and_says_why() {
    let mut msg = NetErr::new();
    msg.set_code(ErrCode::NoPID);
    msg.set_msg("gone".to_string());
    let bytes = msg.write_to_bytes();
    assert_eq!(bytes, vec![0x08, 0x01, 0x12, 0x04, b'g', b'o', b'n', b'e']);
    assert_eq!(parse_from_bytes::<NetErr>(&bytes), Ok(msg));
}

#[test]
fn the_fields_of_bytes_come_in_order() {
    let fields = read_fields(&[0x08, 0x96, 0x01, 0x12, 0x01, 0x61, 0x1d, 1, 0, 0, 0]).unwrap();
    assert_eq!(
        fields,
        vec![
            WireField { number: 1, value: WireValue::Varint(150) },
            WireField { number: 2, value: WireValue::Bytes(vec![0x61]) },
            WireField { number: 3, value: WireValue::Fixed32(1) },
        ]
    );
    assert_eq!(read_fields(&[]), Some(vec![]));
    let eight = read_fields(&[0x09, 2, 0, 0, 0, 0, 0, 0, 0]).unwrap();
    assert_eq!(eight, vec![WireField { number: 1, value: WireValue::Fixed64(2) }]);
}

#[test]
fn bytes_that_break_off_are_no_fields() {
    assert_eq!(read_fields(&[0x0a, 0x05, b'a']), None);
    assert_eq!(read_fields(&[0x08]), None);
    assert_eq!(read_fields(&[0x00]), None);
    assert_eq!(parse_from_bytes::<Register>(&[0x0a, 0x05, b'a']), Err(DecodeError::Malformed));
}

#[test]
fn a_field_of_the_wrong_kind_is_refused() {
    assert_eq!(
        parse_from_bytes::<Register>(&[0x08, 0x01]),
        Err(DecodeError::UnexpectedWireType)
    );
    assert_eq!(
        parse_from_bytes::<Restart>(&[0x0a, 0x01, b'a']),
        Err(DecodeError::UnexpectedWireType)
    );
    assert_eq!(
        parse_from_bytes::<Spawn>(&[0x30, 0x01]),
        Err(DecodeError::UnexpectedWireType)
    );
}

#[test]
fn a_text_that_is_not_utf8_is_refused() {
    assert_eq!(
        parse_from_bytes::<Register>(&[0x0a, 0x02, 0xff, 0xfe]),
        Err(DecodeError::InvalidText)
    );
    assert_eq!(read_text(&WireValue::Bytes(vec![0xc3, 0xa9])), Ok("é".to_string()));
    assert_eq!(read_text(&WireValue::Bytes(vec![0xc3])), Err(DecodeError::InvalidText));
}

#[test]
fn a_number_that_names_no_value_is_refused() {
    assert_eq!(
        parse_from_bytes::<TerminateOk>(&[0x10, 0x03]),
        Err(DecodeError::InvalidEnumValue(3))
    );
    assert_eq!(parse_from_bytes::<NetErr>(&[0x08, 0x02]), Err(DecodeError::InvalidEnumValue(2)));
    let ok = parse_from_bytes::<TerminateOk>(&[0x10, 0x01]).unwrap();
    assert_eq!(ok.get_shutdown_method(), ShutdownMethod::GracefulTermination);
    assert!(!ok.has_exit_code());
}

#[test]
fn fields_that_a_message_does_not_know_are_passed_over() {
    let msg = parse_from_bytes::<Register>(&[0x10, 0x01, 0x0a, 0x01, b'p', 0x1a, 0x00]).unwrap();
    assert_eq!(msg.get_pipe(), "p");
    assert_eq!(parse_from_bytes::<NetOk>(&[0x08, 0x01]), Ok(NetOk::new()));
}

#[test]
fn the_last_of_two_fields_with_one_number_counts() {
    let msg = parse_from_bytes::<Restart>(&[0x08, 0x01, 0x08, 0x02]).unwrap();
    assert_eq!(msg.get_pid(), 2);
}

#[test]
fn reading_stops_at_the_first_field_that_cannot_be_read() {
    let mut msg = Register::new();
    let fields = vec![
        WireField { number: 1, value: WireValue::Bytes(b"one".to_vec()) },
        WireField { number: 1, value: WireValue::Varint(1) },
        WireField { number: 1, value: WireValue::Bytes(b"two".to_vec()) },
    ];
    assert_eq!(merge_from(&mut msg, &fields), Err(DecodeError::UnexpectedWireType));
    assert_eq!(msg.get_pipe(), "one");
}

#[test]
fn merging_keeps_the_fields_that_are_not_read() {
    let mut msg = Envelope::new();
    msg.set_txn_id(9);
    let fields = vec![WireField { number: 1, value: WireValue::Bytes(b"Spawn".to_vec()) }];
    assert_eq!(merge_from(&mut msg, &fields), Ok(()));
    assert_eq!(msg.get_txn_id(), 9);
    assert_eq!(msg.get_message_id(), "Spawn");
    assert!(!msg.has_payload());
}

#[test]
fn numbers_are_read_from_the_lower_bits() {
    assert_eq!(read_u32(&WireValue::Varint(0x1_0000_0005)), Ok(5));
    assert_eq!(read_u32(&WireValue::Varint(u64::MAX)), Ok(u32::MAX));
    assert_eq!(read_i32(&WireValue::Varint(u64::MAX)), Ok(-1));
    assert_eq!(read_i32(&WireValue::Varint(0x8000_0000)), Ok(i32::MIN));
    assert_eq!(read_i32(&WireValue::Varint(0x7fff_ffff)), Ok(i32::MAX));
    assert_eq!(read_i32(&WireValue::Varint(86)), Ok(86));
    assert_eq!(read_u64(&WireValue::Varint(u64::MAX)), Ok(u64::MAX));
    assert_eq!(read_u64(&WireValue::Fixed64(1)), Err(DecodeError::UnexpectedWireType));
    assert_eq!(read_u32(&WireValue::Fixed32(1)), Err(DecodeError::UnexpectedWireType));
    assert_eq!(read_bytes(&WireValue::Bytes(vec![1, 2])), Ok(vec![1, 2]));
    assert_eq!(read_bytes(&WireValue::Varint(1)), Err(DecodeError::UnexpectedWireType));
}

#[test]
fn an_entry_that_is_no_message_spoils_the_spawn() {
    assert_eq!(
        parse_from_bytes::<Spawn>(&[0x32, 0x02, 0x0a, 0x05]),
        Err(DecodeError::Malformed)
    );
    let msg = parse_from_bytes::<Spawn>(&[0x32, 0x00]).unwrap();
    assert_eq!(msg.get_env(), &vec![(String::new(), String::new())]);
}

#[test]
fn the_bytes_are_those_that_the_outside_encoder_gives() {
    let mut msg = Envelope::new();
    msg.set_message_id("Restart".to_string());
    msg.set_payload(vec![1, 2, 3]);
    msg.set_txn_id(u64::MAX);
    let mut expected = Vec::new();
    {
        let mut os = protobuf::CodedOutputStream::vec(&mut expected);
        os.write_string(1, "Restart").unwrap();
        os.write_bytes(2, &[1, 2, 3]).unwrap();
        os.write_uint64(3, u64::MAX).unwrap();
        os.flush().unwrap();
    }
    assert_eq!(msg.write_to_bytes(), expected);
    let empty = protobuf::well_known_types::Empty::new();
    assert_eq!(NetOk::new().write_to_bytes(), empty.write_to_bytes().unwrap());
}

#[test]
fn a_message_goes_into_an_envelope_and_comes_out_again() {
    let mut msg = Spawn::new();
    msg.set_id("core/redis".to_string());
    msg.set_env(vec![("PATH".to_string(), "/bin".to_string())]);
    let envelope = service_supervisor::protocol::layout::wrap("Spawn", Some(7), &msg);
    assert_eq!(envelope.get_message_id(), "Spawn");
    assert_eq!(envelope.get_txn_id(), 7);
    assert_eq!(envelope.get_payload(), msg.write_to_bytes().as_slice());
    let back: Spawn = service_supervisor::protocol::layout::unwrap_as(&envelope).unwrap();
    assert_eq!(back, msg);

    let plain = service_supervisor::protocol::layout::wrap("NetOk", None, &NetOk::new());
    assert!(!plain.has_txn_id());
    assert!(plain.has_payload());
    assert!(plain.get_payload().is_empty());

    let empty = Envelope::new();
    let none: Result<Register, DecodeError> =
        service_supervisor::protocol::layout::unwrap_as(&empty);
    assert_eq!(none, Ok(Register::new()));

    let mut wrong = Envelope::new();
    wrong.set_payload(vec![0xff]);
    let bad: Result<Register, DecodeError> =
        service_supervisor::protocol::layout::unwrap_as(&wrong);
    assert_eq!(bad, Err(DecodeError::Malformed));
}

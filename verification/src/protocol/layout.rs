//! Which field of each message has which number.

use vstd::prelude::*;
use crate::protocol::launcher::{
    Register, RegisterView, Restart, RestartView, ShutdownMethod, Spawn, SpawnOk, SpawnOkView,
    SpawnView, Terminate, TerminateOk, TerminateOkView, TerminateView,
};
use crate::protocol::net::{Envelope, EnvelopeView, ErrCode, NetErr, NetErrView, NetOk};
use crate::protocol::wire::{
    bytes_field, bytes_in, decoded, enum_field, i32_in, int32_field, parse_from_bytes, parsed_view,
    put_bytes,
    put_enum, put_int32, put_string, put_uint32, put_uint64, read_bytes, read_i32, read_text,
    read_u32, read_u64, string_field, text_in, u32_in, u64_in, uint32_field, uint64_field,
    DecodeError, WireField, WireFieldView, WireMessage,
};

verus! {

/// The bytes of a text field where it is set.
pub open spec fn opt_string(number: u32, text: Option<Seq<char>>) -> Seq<u8> {
    match text {
        Some(t) => string_field(number, t),
        None => Seq::empty(),
    }
}

/// The bytes of a field of bytes where it is set.
pub open spec fn opt_bytes(number: u32, bytes: Option<Seq<u8>>) -> Seq<u8> {
    match bytes {
        Some(b) => bytes_field(number, b),
        None => Seq::empty(),
    }
}

/// The bytes of an unsigned 64-bit field where it is set.
pub open spec fn opt_uint64(number: u32, value: Option<u64>) -> Seq<u8> {
    match value {
        Some(v) => uint64_field(number, v),
        None => Seq::empty(),
    }
}

/// The bytes of an unsigned 32-bit field where it is set.
pub open spec fn opt_uint32(number: u32, value: Option<u32>) -> Seq<u8> {
    match value {
        Some(v) => uint32_field(number, v),
        None => Seq::empty(),
    }
}

/// The bytes of a signed 32-bit field where it is set.
pub open spec fn opt_int32(number: u32, value: Option<i32>) -> Seq<u8> {
    match value {
        Some(v) => int32_field(number, v),
        None => Seq::empty(),
    }
}

/// The method of shutdown that a number stands for.
pub open spec fn shutdown_method_of(number: i32) -> Option<ShutdownMethod> {
    if number == 0 {
        Some(ShutdownMethod::AlreadyExited)
    } else if number == 1 {
        Some(ShutdownMethod::GracefulTermination)
    } else if number == 2 {
        Some(ShutdownMethod::Killed)
    } else {
        None
    }
}

/// The kind of failure that a number stands for.
pub open spec fn err_code_of(number: i32) -> Option<ErrCode> {
    if number == 0 {
        Some(ErrCode::Unknown)
    } else if number == 1 {
        Some(ErrCode::NoPID)
    } else {
        None
    }
}

impl WireMessage for Register {
    open spec fn unset() -> RegisterView {
        RegisterView::empty()
    }

    /// Field 1 is the name of the pipe.
    open spec fn with_field(m: RegisterView, field: WireFieldView) -> Result<
        RegisterView,
        DecodeError,
    > {
        if field.number == 1 {
            match text_in(field.value) {
                Ok(t) => Ok(RegisterView { pipe: Some(t), ..m }),
                Err(e) => Err(e),
            }
        } else {
            Ok(m)
        }
    }

    open spec fn wire(m: RegisterView) -> Seq<u8> {
        opt_string(1, m.pipe)
    }

    fn unset_message() -> (r: Register) {
        Register::new()
    }

    fn merge_field(&mut self, field: &WireField) -> (r: Result<(), DecodeError>) {
        if field.number == 1 {
            match read_text(&field.value) {
                Ok(t) => {
                    self.set_pipe(t);
                    Ok(())
                },
                Err(e) => Err(e),
            }
        } else {
            Ok(())
        }
    }

    fn write_to_bytes(&self) -> (r: Vec<u8>) {
        let mut out: Vec<u8> = Vec::new();
        put_string(&mut out, 1, self.has_pipe(), self.get_pipe());
        assert(out@ =~= Self::wire(self@));
        out
    }
}

impl WireMessage for Restart {
    open spec fn unset() -> RestartView {
        RestartView::empty()
    }

    /// Field 1 is the PID.
    open spec fn with_field(m: RestartView, field: WireFieldView) -> Result<
        RestartView,
        DecodeError,
    > {
        if field.number == 1 {
            match u32_in(field.value) {
                Ok(v) => Ok(RestartView { pid: Some(v), ..m }),
                Err(e) => Err(e),
            }
        } else {
            Ok(m)
        }
    }

    open spec fn wire(m: RestartView) -> Seq<u8> {
        opt_uint32(1, m.pid)
    }

    fn unset_message() -> (r: Restart) {
        Restart::new()
    }

    fn merge_field(&mut self, field: &WireField) -> (r: Result<(), DecodeError>) {
        if field.number == 1 {
            match read_u32(&field.value) {
                Ok(v) => {
                    self.set_pid(v);
                    Ok(())
                },
                Err(e) => Err(e),
            }
        } else {
            Ok(())
        }
    }

    fn write_to_bytes(&self) -> (r: Vec<u8>) {
        let mut out: Vec<u8> = Vec::new();
        put_uint32(&mut out, 1, self.has_pid(), self.get_pid());
        assert(out@ =~= Self::wire(self@));
        out
    }
}

impl WireMessage for SpawnOk {
    open spec fn unset() -> SpawnOkView {
        SpawnOkView::empty()
    }

    /// Field 1 is the PID.
    open spec fn with_field(m: SpawnOkView, field: WireFieldView) -> Result<
        SpawnOkView,
        DecodeError,
    > {
        if field.number == 1 {
            match u32_in(field.value) {
                Ok(v) => Ok(SpawnOkView { pid: Some(v), ..m }),
                Err(e) => Err(e),
            }
        } else {
            Ok(m)
        }
    }

    open spec fn wire(m: SpawnOkView) -> Seq<u8> {
        opt_uint32(1, m.pid)
    }

    fn unset_message() -> (r: SpawnOk) {
        SpawnOk::new()
    }

    fn merge_field(&mut self, field: &WireField) -> (r: Result<(), DecodeError>) {
        if field.number == 1 {
            match read_u32(&field.value) {
                Ok(v) => {
                    self.set_pid(v);
                    Ok(())
                },
                Err(e) => Err(e),
            }
        } else {
            Ok(())
        }
    }

    fn write_to_bytes(&self) -> (r: Vec<u8>) {
        let mut out: Vec<u8> = Vec::new();
        put_uint32(&mut out, 1, self.has_pid(), self.get_pid());
        assert(out@ =~= Self::wire(self@));
        out
    }
}

impl WireMessage for Terminate {
    open spec fn unset() -> TerminateView {
        TerminateView::empty()
    }

    /// Field 1 is the PID.
    open spec fn with_field(m: TerminateView, field: WireFieldView) -> Result<
        TerminateView,
        DecodeError,
    > {
        if field.number == 1 {
            match u32_in(field.value) {
                Ok(v) => Ok(TerminateView { pid: Some(v), ..m }),
                Err(e) => Err(e),
            }
        } else {
            Ok(m)
        }
    }

    open spec fn wire(m: TerminateView) -> Seq<u8> {
        opt_uint32(1, m.pid)
    }

    fn unset_message() -> (r: Terminate) {
        Terminate::new()
    }

    fn merge_field(&mut self, field: &WireField) -> (r: Result<(), DecodeError>) {
        if field.number == 1 {
            match read_u32(&field.value) {
                Ok(v) => {
                    self.set_pid(v);
                    Ok(())
                },
                Err(e) => Err(e),
            }
        } else {
            Ok(())
        }
    }

    fn write_to_bytes(&self) -> (r: Vec<u8>) {
        let mut out: Vec<u8> = Vec::new();
        put_uint32(&mut out, 1, self.has_pid(), self.get_pid());
        assert(out@ =~= Self::wire(self@));
        out
    }
}

impl WireMessage for TerminateOk {
    open spec fn unset() -> TerminateOkView {
        TerminateOkView::empty()
    }

    /// Field 1 is the exit code, field 2 the number of the method of
    /// shutdown.
    open spec fn with_field(m: TerminateOkView, field: WireFieldView) -> Result<
        TerminateOkView,
        DecodeError,
    > {
        if field.number == 1 {
            match i32_in(field.value) {
                Ok(v) => Ok(TerminateOkView { exit_code: Some(v), ..m }),
                Err(e) => Err(e),
            }
        } else if field.number == 2 {
            match i32_in(field.value) {
                Ok(v) => match shutdown_method_of(v) {
                    Some(method) => Ok(TerminateOkView { shutdown_method: Some(method), ..m }),
                    None => Err(DecodeError::InvalidEnumValue(v)),
                },
                Err(e) => Err(e),
            }
        } else {
            Ok(m)
        }
    }

    open spec fn wire(m: TerminateOkView) -> Seq<u8> {
        opt_int32(1, m.exit_code) + (match m.shutdown_method {
            Some(method) => enum_field(2, method.number()),
            None => Seq::empty(),
        })
    }

    fn unset_message() -> (r: TerminateOk) {
        TerminateOk::new()
    }

    fn merge_field(&mut self, field: &WireField) -> (r: Result<(), DecodeError>) {
        if field.number == 1 {
            match read_i32(&field.value) {
                Ok(v) => {
                    self.set_exit_code(v);
                    Ok(())
                },
                Err(e) => Err(e),
            }
        } else if field.number == 2 {
            match read_i32(&field.value) {
                Ok(v) => match ShutdownMethod::from_i32(v) {
                    Some(method) => {
                        self.set_shutdown_method(method);
                        Ok(())
                    },
                    None => Err(DecodeError::InvalidEnumValue(v)),
                },
                Err(e) => Err(e),
            }
        } else {
            Ok(())
        }
    }

    fn write_to_bytes(&self) -> (r: Vec<u8>) {
        let mut out: Vec<u8> = Vec::new();
        put_int32(&mut out, 1, self.has_exit_code(), self.get_exit_code());
        put_enum(&mut out, 2, self.has_shutdown_method(), self.get_shutdown_method().value());
        assert(out@ =~= Self::wire(self@));
        out
    }
}

/// One entry of an environment as it travels: a message of its own, within
/// the message that holds the environment.
#[derive(Debug, PartialEq, Eq)]
pub struct EnvEntry {
    pub name: String,
    pub value: String,
}

impl View for EnvEntry {
    type V = (Seq<char>, Seq<char>);

    open spec fn view(&self) -> (Seq<char>, Seq<char>) {
        (self.name@, self.value@)
    }
}

impl WireMessage for EnvEntry {
    open spec fn unset() -> (Seq<char>, Seq<char>) {
        (Seq::empty(), Seq::empty())
    }

    /// Field 1 is the name, field 2 the value.
    open spec fn with_field(m: (Seq<char>, Seq<char>), field: WireFieldView) -> Result<
        (Seq<char>, Seq<char>),
        DecodeError,
    > {
        if field.number == 1 {
            match text_in(field.value) {
                Ok(t) => Ok((t, m.1)),
                Err(e) => Err(e),
            }
        } else if field.number == 2 {
            match text_in(field.value) {
                Ok(t) => Ok((m.0, t)),
                Err(e) => Err(e),
            }
        } else {
            Ok(m)
        }
    }

    open spec fn wire(m: (Seq<char>, Seq<char>)) -> Seq<u8> {
        string_field(1, m.0) + string_field(2, m.1)
    }

    fn unset_message() -> (r: EnvEntry) {
        EnvEntry { name: String::new(), value: String::new() }
    }

    fn merge_field(&mut self, field: &WireField) -> (r: Result<(), DecodeError>) {
        if field.number == 1 {
            match read_text(&field.value) {
                Ok(t) => {
                    self.name = t;
                    Ok(())
                },
                Err(e) => Err(e),
            }
        } else if field.number == 2 {
            match read_text(&field.value) {
                Ok(t) => {
                    self.value = t;
                    Ok(())
                },
                Err(e) => Err(e),
            }
        } else {
            Ok(())
        }
    }

    fn write_to_bytes(&self) -> (r: Vec<u8>) {
        let mut out: Vec<u8> = Vec::new();
        put_string(&mut out, 1, true, self.name.as_str());
        put_string(&mut out, 2, true, self.value.as_str());
        assert(out@ =~= Self::wire(self@));
        out
    }
}

/// The bytes of the entries of an environment, each a field with the
/// number 6 that holds the entry as a message.
pub open spec fn entries_wire(env: Seq<(Seq<char>, Seq<char>)>) -> Seq<u8>
    decreases env.len(),
{
    if env.len() == 0 {
        Seq::empty()
    } else {
        entries_wire(env.drop_last()) + bytes_field(6, EnvEntry::wire(env.last()))
    }
}

impl WireMessage for Spawn {
    open spec fn unset() -> SpawnView {
        SpawnView::empty()
    }

    /// Fields 1 to 5 are the identifier of the service, the binary, the
    /// user, the group and the password. Each field with the number 6 adds
    /// one entry to the environment.
    open spec fn with_field(m: SpawnView, field: WireFieldView) -> Result<SpawnView, DecodeError> {
        if 1 <= field.number <= 5 {
            match text_in(field.value) {
                Ok(t) => Ok(
                    if field.number == 1 {
                        SpawnView { id: Some(t), ..m }
                    } else if field.number == 2 {
                        SpawnView { binary: Some(t), ..m }
                    } else if field.number == 3 {
                        SpawnView { svc_user: Some(t), ..m }
                    } else if field.number == 4 {
                        SpawnView { svc_group: Some(t), ..m }
                    } else {
                        SpawnView { svc_password: Some(t), ..m }
                    },
                ),
                Err(e) => Err(e),
            }
        } else if field.number == 6 {
            match bytes_in(field.value) {
                Ok(b) => match decoded::<EnvEntry>(b) {
                    Ok(entry) => Ok(SpawnView { env: m.env.push(entry), ..m }),
                    Err(e) => Err(e),
                },
                Err(e) => Err(e),
            }
        } else {
            Ok(m)
        }
    }

    open spec fn wire(m: SpawnView) -> Seq<u8> {
        opt_string(1, m.id) + opt_string(2, m.binary) + opt_string(3, m.svc_user) + opt_string(
            4,
            m.svc_group,
        ) + opt_string(5, m.svc_password) + entries_wire(m.env)
    }

    fn unset_message() -> (r: Spawn) {
        Spawn::new()
    }

    fn merge_field(&mut self, field: &WireField) -> (r: Result<(), DecodeError>) {
        if 1 <= field.number && field.number <= 5 {
            match read_text(&field.value) {
                Ok(t) => {
                    if field.number == 1 {
                        self.set_id(t);
                    } else if field.number == 2 {
                        self.set_binary(t);
                    } else if field.number == 3 {
                        self.set_svc_user(t);
                    } else if field.number == 4 {
                        self.set_svc_group(t);
                    } else {
                        self.set_svc_password(t);
                    }
                    Ok(())
                },
                Err(e) => Err(e),
            }
        } else if field.number == 6 {
            match read_bytes(&field.value) {
                Ok(b) => match parse_from_bytes::<EnvEntry>(b.as_slice()) {
                    Ok(entry) => {
                        let mut env = self.take_env();
                        let ghost before = env@;
                        env.push((entry.name, entry.value));
                        assert(crate::protocol::launcher::entries_view(env@)
                            =~= crate::protocol::launcher::entries_view(before).push(entry@));
                        self.set_env(env);
                        Ok(())
                    },
                    Err(e) => Err(e),
                },
                Err(e) => Err(e),
            }
        } else {
            Ok(())
        }
    }

    fn write_to_bytes(&self) -> (r: Vec<u8>) {
        let mut out: Vec<u8> = Vec::new();
        put_string(&mut out, 1, self.has_id(), self.get_id());
        put_string(&mut out, 2, self.has_binary(), self.get_binary());
        put_string(&mut out, 3, self.has_svc_user(), self.get_svc_user());
        put_string(&mut out, 4, self.has_svc_group(), self.get_svc_group());
        put_string(&mut out, 5, self.has_svc_password(), self.get_svc_password());
        let ghost head = out@;
        let env = self.get_env();
        let mut i: usize = 0;
        assert(self@.env.take(0) =~= Seq::empty());
        assert(head + entries_wire(Seq::empty()) =~= head);
        while i < env.len()
            invariant
                i <= env.len(),
                crate::protocol::launcher::entries_view(env@) == self@.env,
                out@ == head + entries_wire(self@.env.take(i as int)),
            decreases env.len() - i,
        {
            let mut entry: Vec<u8> = Vec::new();
            put_string(&mut entry, 1, true, env[i].0.as_str());
            put_string(&mut entry, 2, true, env[i].1.as_str());
            put_bytes(&mut out, 6, true, entry.as_slice());
            proof {
                let now = self@.env.take(i + 1);
                assert(now.drop_last() =~= self@.env.take(i as int));
                assert(now.last() == (env@[i as int].0@, env@[i as int].1@));
                assert(entry@ =~= EnvEntry::wire(now.last()));
                assert(out@ =~= head + entries_wire(now));
            }
            i = i + 1;
        }
        assert(self@.env.take(env.len() as int) =~= self@.env);
        assert(out@ =~= Self::wire(self@));
        out
    }
}

impl WireMessage for Envelope {
    open spec fn unset() -> EnvelopeView {
        EnvelopeView::empty()
    }

    /// Field 1 is the name of the message within, field 2 its bytes,
    /// field 3 the number of the transaction.
    open spec fn with_field(m: EnvelopeView, field: WireFieldView) -> Result<
        EnvelopeView,
        DecodeError,
    > {
        if field.number == 1 {
            match text_in(field.value) {
                Ok(t) => Ok(EnvelopeView { message_id: Some(t), ..m }),
                Err(e) => Err(e),
            }
        } else if field.number == 2 {
            match bytes_in(field.value) {
                Ok(b) => Ok(EnvelopeView { payload: Some(b), ..m }),
                Err(e) => Err(e),
            }
        } else if field.number == 3 {
            match u64_in(field.value) {
                Ok(v) => Ok(EnvelopeView { txn_id: Some(v), ..m }),
                Err(e) => Err(e),
            }
        } else {
            Ok(m)
        }
    }

    open spec fn wire(m: EnvelopeView) -> Seq<u8> {
        opt_string(1, m.message_id) + opt_bytes(2, m.payload) + opt_uint64(3, m.txn_id)
    }

    fn unset_message() -> (r: Envelope) {
        Envelope::new()
    }

    fn merge_field(&mut self, field: &WireField) -> (r: Result<(), DecodeError>) {
        if field.number == 1 {
            match read_text(&field.value) {
                Ok(t) => {
                    self.set_message_id(t);
                    Ok(())
                },
                Err(e) => Err(e),
            }
        } else if field.number == 2 {
            match read_bytes(&field.value) {
                Ok(b) => {
                    self.set_payload(b);
                    Ok(())
                },
                Err(e) => Err(e),
            }
        } else if field.number == 3 {
            match read_u64(&field.value) {
                Ok(v) => {
                    self.set_txn_id(v);
                    Ok(())
                },
                Err(e) => Err(e),
            }
        } else {
            Ok(())
        }
    }

    fn write_to_bytes(&self) -> (r: Vec<u8>) {
        let mut out: Vec<u8> = Vec::new();
        put_string(&mut out, 1, self.has_message_id(), self.get_message_id());
        put_bytes(&mut out, 2, self.has_payload(), self.get_payload());
        put_uint64(&mut out, 3, self.has_txn_id(), self.get_txn_id());
        assert(out@ =~= Self::wire(self@));
        out
    }
}

impl WireMessage for NetErr {
    open spec fn unset() -> NetErrView {
        NetErrView::empty()
    }

    /// Field 1 is the number of the kind of failure, field 2 what is said
    /// of it.
    open spec fn with_field(m: NetErrView, field: WireFieldView) -> Result<
        NetErrView,
        DecodeError,
    > {
        if field.number == 1 {
            match i32_in(field.value) {
                Ok(v) => match err_code_of(v) {
                    Some(code) => Ok(NetErrView { code: Some(code), ..m }),
                    None => Err(DecodeError::InvalidEnumValue(v)),
                },
                Err(e) => Err(e),
            }
        } else if field.number == 2 {
            match text_in(field.value) {
                Ok(t) => Ok(NetErrView { msg: Some(t), ..m }),
                Err(e) => Err(e),
            }
        } else {
            Ok(m)
        }
    }

    open spec fn wire(m: NetErrView) -> Seq<u8> {
        (match m.code {
            Some(code) => enum_field(1, code.number()),
            None => Seq::empty(),
        }) + opt_string(2, m.msg)
    }

    fn unset_message() -> (r: NetErr) {
        NetErr::new()
    }

    fn merge_field(&mut self, field: &WireField) -> (r: Result<(), DecodeError>) {
        if field.number == 1 {
            match read_i32(&field.value) {
                Ok(v) => match ErrCode::from_i32(v) {
                    Some(code) => {
                        self.set_code(code);
                        Ok(())
                    },
                    None => Err(DecodeError::InvalidEnumValue(v)),
                },
                Err(e) => Err(e),
            }
        } else if field.number == 2 {
            match read_text(&field.value) {
                Ok(t) => {
                    self.set_msg(t);
                    Ok(())
                },
                Err(e) => Err(e),
            }
        } else {
            Ok(())
        }
    }

    fn write_to_bytes(&self) -> (r: Vec<u8>) {
        let mut out: Vec<u8> = Vec::new();
        put_enum(&mut out, 1, self.has_code(), self.get_code().value());
        put_string(&mut out, 2, self.has_msg(), self.get_msg());
        assert(out@ =~= Self::wire(self@));
        out
    }
}

impl View for NetOk {
    type V = NetOk;

    open spec fn view(&self) -> NetOk {
        *self
    }
}

impl WireMessage for NetOk {
    open spec fn unset() -> NetOk {
        NetOk {  }
    }

    /// The message has no field: whatever is read leaves it as it is.
    open spec fn with_field(m: NetOk, field: WireFieldView) -> Result<NetOk, DecodeError> {
        Ok(m)
    }

    open spec fn wire(m: NetOk) -> Seq<u8> {
        Seq::empty()
    }

    fn unset_message() -> (r: NetOk) {
        NetOk::new()
    }

    fn merge_field(&mut self, field: &WireField) -> (r: Result<(), DecodeError>) {
        Ok(())
    }

    fn write_to_bytes(&self) -> (r: Vec<u8>) {
        Vec::new()
    }
}

/// Puts a message into an envelope: under its name, as its bytes, within
/// the transaction `txn_id` where it belongs to one.
pub fn wrap<M: WireMessage>(message_id: &str, txn_id: Option<u64>, msg: &M) -> (r: Envelope)
    ensures
        r@ == (EnvelopeView {
            message_id: Some(message_id@),
            payload: Some(M::wire(msg@)),
            txn_id,
        }),
{
    let mut envelope = Envelope::new();
    envelope.set_message_id(message_id.to_owned());
    envelope.set_payload(msg.write_to_bytes());
    match txn_id {
        Some(id) => {
            envelope.set_txn_id(id);
        },
        None => {},
    }
    envelope
}

/// Takes the message out of an envelope: what its payload holds, read as a
/// message of the kind `M`. An envelope without a payload holds the
/// message without any field set.
pub fn unwrap_as<M: WireMessage>(envelope: &Envelope) -> (r: Result<M, DecodeError>)
    ensures
        parsed_view(r) == decoded::<M>(
            match envelope@.payload {
                Some(bytes) => bytes,
                None => Seq::<u8>::empty(),
            },
        ),
{
    parse_from_bytes::<M>(envelope.get_payload())
}

} // verus!

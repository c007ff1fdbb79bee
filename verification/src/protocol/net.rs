//! The envelope in which every message travels, and the answers that fit
//! every request.

use vstd::prelude::*;
use crate::text::{copy_opt_text, opt_text};

verus! {

/// The view of optional bytes.
pub open spec fn opt_bytes(o: Option<Vec<u8>>) -> Option<Seq<u8>> {
    match o {
        Some(b) => Some(b@),
        None => None,
    }
}

/// The kinds of failure that an answer can name.
#[derive(Debug, Clone, Copy, PartialEq, Eq, Hash, Structural)]
pub enum ErrCode {
    /// A failure of no particular kind.
    Unknown,
    /// The launcher has no process with the PID that the request names.
    NoPID,
}

impl ErrCode {
    /// The number that stands for the kind on the wire.
    pub open spec fn number(self) -> i32 {
        match self {
            ErrCode::Unknown => 0,
            ErrCode::NoPID => 1,
        }
    }

    /// The number that stands for the kind on the wire.
    pub fn value(&self) -> (r: i32)
        ensures
            r == self.number(),
    {
        match self {
            ErrCode::Unknown => 0,
            ErrCode::NoPID => 1,
        }
    }

    /// The kind that a number stands for, if it stands for one.
    pub fn from_i32(value: i32) -> (r: Option<ErrCode>)
        ensures
            match r {
                Some(c) => c.number() == value,
                None => value < 0 || value > 1,
            },
    {
        if value == 0 {
            Some(ErrCode::Unknown)
        } else if value == 1 {
            Some(ErrCode::NoPID)
        } else {
            None
        }
    }
}

/// The answer to a request that went well and has nothing to tell.
#[derive(Debug, Clone, Copy, PartialEq, Eq, Structural)]
pub struct NetOk {}

impl NetOk {
    /// The answer.
    pub fn new() -> (r: NetOk)
        ensures
            r == (NetOk {  }),
    {
        NetOk {  }
    }
}

/// A copy of optional bytes.
pub fn copy_opt_bytes(o: &Option<Vec<u8>>) -> (r: Option<Vec<u8>>)
    ensures
        opt_bytes(r) == opt_bytes(*o),
{
    match o {
        Some(b) => Some(b.clone()),
        None => None,
    }
}

/// The answer to a request that failed.
#[derive(Debug, PartialEq, Eq)]
pub struct NetErr {
    code: Option<ErrCode>,
    msg: Option<String>,
}

/// The mathematical value of a `NetErr`: each field, where it is set.
pub struct NetErrView {
    pub code: Option<ErrCode>,
    pub msg: Option<Seq<char>>,
}

impl View for NetErr {
    type V = NetErrView;

    closed spec fn view(&self) -> NetErrView {
        NetErrView {
            code: self.code,
            msg: opt_text(self.msg),
        }
    }
}

impl NetErrView {
    /// The message without any field set.
    pub open spec fn empty() -> NetErrView {
        NetErrView {
            code: None,
            msg: None,
        }
    }
}

impl Clone for NetErr {
    fn clone(&self) -> (r: Self)
        ensures
            r@ == self@,
    {
        NetErr {
            code: self.code,
            msg: copy_opt_text(&self.msg),
        }
    }
}

impl NetErr {
    /// A message without any field set.
    pub fn new() -> (r: NetErr)
        ensures
            r@ == NetErrView::empty(),
    {
        NetErr { code: None, msg: None }
    }

    /// Unsets every field.
    pub fn clear(&mut self)
        ensures
            final(self)@ == NetErrView::empty(),
    {
        *self = NetErr::new();
    }

    /// Unsets the kind of failure.
    pub fn clear_code(&mut self)
        ensures
            final(self)@ == (NetErrView { code: None, ..old(self)@ }),
    {
        self.code = None;
    }

    /// Whether the kind of failure is set.
    pub fn has_code(&self) -> (r: bool)
        ensures
            r == (self@.code is Some),
    {
        self.code.is_some()
    }

    /// Sets the kind of failure.
    pub fn set_code(&mut self, v: ErrCode)
        ensures
            final(self)@ == (NetErrView { code: Some(v), ..old(self)@ }),
    {
        self.code = Some(v);
    }

    /// The kind of failure, or the value that stands for none.
    pub open spec fn get_code_spec(&self) -> ErrCode {
        match self@.code {
            Some(v) => v,
            None => ErrCode::Unknown,
        }
    }

    /// The kind of failure, or `Unknown` where it is not set.
    pub fn get_code(&self) -> (r: ErrCode)
        ensures
            r == self.get_code_spec(),
    {
        match self.code {
            Some(v) => v,
            None => ErrCode::Unknown,
        }
    }

    /// Unsets the words of the failure.
    pub fn clear_msg(&mut self)
        ensures
            final(self)@ == (NetErrView { msg: None, ..old(self)@ }),
    {
        self.msg = None;
    }

    /// Whether the words of the failure is set.
    pub fn has_msg(&self) -> (r: bool)
        ensures
            r == (self@.msg is Some),
    {
        self.msg.is_some()
    }

    /// Sets the words of the failure.
    pub fn set_msg(&mut self, v: String)
        ensures
            final(self)@ == (NetErrView { msg: Some(v@), ..old(self)@ }),
    {
        self.msg = Some(v);
    }

    /// Gives the words of the failure to be changed in place. Where it was not set, it is set to
    /// the empty value first.
    pub fn mut_msg(&mut self) -> (r: &mut String)
        ensures
            r@ == match old(self)@.msg {
                Some(s) => s,
                None => Seq::<char>::empty(),
            },
            final(self)@ == (NetErrView { msg: Some(final(r)@), ..old(self)@ }),
    {
        self.msg.get_or_insert(String::new())
    }

    /// Takes the words of the failure out of the message and leaves it unset. Where it was not
    /// set, the empty value comes out.
    pub fn take_msg(&mut self) -> (r: String)
        ensures
            r@ == match old(self)@.msg {
                Some(s) => s,
                None => Seq::<char>::empty(),
            },
            final(self)@ == (NetErrView { msg: None, ..old(self)@ }),
    {
        match self.msg.take() {
            Some(s) => s,
            None => String::new(),
        }
    }

    /// The words of the failure, or the empty value where it is not set.
    pub fn get_msg(&self) -> (r: &str)
        ensures
            r@ == match self@.msg {
                Some(s) => s,
                None => Seq::<char>::empty(),
            },
    {
        proof {
            reveal_strlit("");
        }
        match &self.msg {
            Some(v) => v.as_str(),
            None => "",
        }
    }
}

/// Wraps a message for the wire: the name of its kind, its encoded bytes,
/// and the number of the exchange it belongs to.
#[derive(Debug, PartialEq, Eq)]
pub struct Envelope {
    message_id: Option<String>,
    payload: Option<Vec<u8>>,
    txn_id: Option<u64>,
}

/// The mathematical value of a `Envelope`: each field, where it is set.
pub struct EnvelopeView {
    pub message_id: Option<Seq<char>>,
    pub payload: Option<Seq<u8>>,
    pub txn_id: Option<u64>,
}

impl View for Envelope {
    type V = EnvelopeView;

    closed spec fn view(&self) -> EnvelopeView {
        EnvelopeView {
            message_id: opt_text(self.message_id),
            payload: opt_bytes(self.payload),
            txn_id: self.txn_id,
        }
    }
}

impl EnvelopeView {
    /// The message without any field set.
    pub open spec fn empty() -> EnvelopeView {
        EnvelopeView {
            message_id: None,
            payload: None,
            txn_id: None,
        }
    }
}

impl Clone for Envelope {
    fn clone(&self) -> (r: Self)
        ensures
            r@ == self@,
    {
        Envelope {
            message_id: copy_opt_text(&self.message_id),
            payload: copy_opt_bytes(&self.payload),
            txn_id: self.txn_id,
        }
    }
}

impl Envelope {
    /// A message without any field set.
    pub fn new() -> (r: Envelope)
        ensures
            r@ == EnvelopeView::empty(),
    {
        Envelope { message_id: None, payload: None, txn_id: None }
    }

    /// Unsets every field.
    pub fn clear(&mut self)
        ensures
            final(self)@ == EnvelopeView::empty(),
    {
        *self = Envelope::new();
    }

    /// Unsets the name of the kind of message.
    pub fn clear_message_id(&mut self)
        ensures
            final(self)@ == (EnvelopeView { message_id: None, ..old(self)@ }),
    {
        self.message_id = None;
    }

    /// Whether the name of the kind of message is set.
    pub fn has_message_id(&self) -> (r: bool)
        ensures
            r == (self@.message_id is Some),
    {
        self.message_id.is_some()
    }

    /// Sets the name of the kind of message.
    pub fn set_message_id(&mut self, v: String)
        ensures
            final(self)@ == (EnvelopeView { message_id: Some(v@), ..old(self)@ }),
    {
        self.message_id = Some(v);
    }

    /// Gives the name of the kind of message to be changed in place. Where it was not set, it is set to
    /// the empty value first.
    pub fn mut_message_id(&mut self) -> (r: &mut String)
        ensures
            r@ == match old(self)@.message_id {
                Some(s) => s,
                None => Seq::<char>::empty(),
            },
            final(self)@ == (EnvelopeView { message_id: Some(final(r)@), ..old(self)@ }),
    {
        self.message_id.get_or_insert(String::new())
    }

    /// Takes the name of the kind of message out of the message and leaves it unset. Where it was not
    /// set, the empty value comes out.
    pub fn take_message_id(&mut self) -> (r: String)
        ensures
            r@ == match old(self)@.message_id {
                Some(s) => s,
                None => Seq::<char>::empty(),
            },
            final(self)@ == (EnvelopeView { message_id: None, ..old(self)@ }),
    {
        match self.message_id.take() {
            Some(s) => s,
            None => String::new(),
        }
    }

    /// The name of the kind of message, or the empty value where it is not set.
    pub fn get_message_id(&self) -> (r: &str)
        ensures
            r@ == match self@.message_id {
                Some(s) => s,
                None => Seq::<char>::empty(),
            },
    {
        proof {
            reveal_strlit("");
        }
        match &self.message_id {
            Some(v) => v.as_str(),
            None => "",
        }
    }

    /// Unsets the encoded message.
    pub fn clear_payload(&mut self)
        ensures
            final(self)@ == (EnvelopeView { payload: None, ..old(self)@ }),
    {
        self.payload = None;
    }

    /// Whether the encoded message is set.
    pub fn has_payload(&self) -> (r: bool)
        ensures
            r == (self@.payload is Some),
    {
        self.payload.is_some()
    }

    /// Sets the encoded message.
    pub fn set_payload(&mut self, v: Vec<u8>)
        ensures
            final(self)@ == (EnvelopeView { payload: Some(v@), ..old(self)@ }),
    {
        self.payload = Some(v);
    }

    /// Gives the encoded message to be changed in place. Where it was not set, it is set to
    /// the empty value first.
    pub fn mut_payload(&mut self) -> (r: &mut Vec<u8>)
        ensures
            r@ == match old(self)@.payload {
                Some(s) => s,
                None => Seq::<u8>::empty(),
            },
            final(self)@ == (EnvelopeView { payload: Some(final(r)@), ..old(self)@ }),
    {
        self.payload.get_or_insert(Vec::new())
    }

    /// Takes the encoded message out of the message and leaves it unset. Where it was not
    /// set, the empty value comes out.
    pub fn take_payload(&mut self) -> (r: Vec<u8>)
        ensures
            r@ == match old(self)@.payload {
                Some(s) => s,
                None => Seq::<u8>::empty(),
            },
            final(self)@ == (EnvelopeView { payload: None, ..old(self)@ }),
    {
        match self.payload.take() {
            Some(s) => s,
            None => Vec::new(),
        }
    }

    /// The encoded message, or the empty value where it is not set.
    pub fn get_payload(&self) -> (r: &[u8])
        ensures
            r@ == match self@.payload {
                Some(s) => s,
                None => Seq::<u8>::empty(),
            },
    {
        match &self.payload {
            Some(v) => v.as_slice(),
            None => &[],
        }
    }

    /// Unsets the number of the exchange.
    pub fn clear_txn_id(&mut self)
        ensures
            final(self)@ == (EnvelopeView { txn_id: None, ..old(self)@ }),
    {
        self.txn_id = None;
    }

    /// Whether the number of the exchange is set.
    pub fn has_txn_id(&self) -> (r: bool)
        ensures
            r == (self@.txn_id is Some),
    {
        self.txn_id.is_some()
    }

    /// Sets the number of the exchange.
    pub fn set_txn_id(&mut self, v: u64)
        ensures
            final(self)@ == (EnvelopeView { txn_id: Some(v), ..old(self)@ }),
    {
        self.txn_id = Some(v);
    }

    /// The number of the exchange, or the value that stands for none.
    pub open spec fn get_txn_id_spec(&self) -> u64 {
        match self@.txn_id {
            Some(v) => v,
            None => 0,
        }
    }

    /// The number of the exchange, or zero where it is not set.
    pub fn get_txn_id(&self) -> (r: u64)
        ensures
            r == self.get_txn_id_spec(),
    {
        match self.txn_id {
            Some(v) => v,
            None => 0,
        }
    }
}

/// The answer that tells of a failure of no particular kind, in the words
/// `msg`.
pub fn error(msg: &str) -> (r: NetErr)
    ensures
        r@ == (NetErrView { code: Some(ErrCode::Unknown), msg: Some(msg@) }),
{
    let mut reply = NetErr::new();
    reply.set_code(ErrCode::Unknown);
    reply.set_msg(msg.to_owned());
    reply
}

/// The answer to a request that names a PID that the launcher does not
/// have.
pub fn no_pid() -> (r: NetErr)
    ensures
        r@ == (NetErrView { code: Some(ErrCode::NoPID), msg: None }),
{
    let mut reply = NetErr::new();
    reply.set_code(ErrCode::NoPID);
    reply
}

} // verus!

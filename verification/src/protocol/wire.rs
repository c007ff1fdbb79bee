//! Messages as bytes.
//!
//! A message travels as a run of fields, each a number and a value. The
//! bytes of a single field are written and read by the `protobuf` crate;
//! which field of a message has which number, and what a message makes of
//! the fields that were read, is stated and proved here.

use vstd::prelude::*;
use vstd::slice::slice_subrange;
use vstd::utf8::{decode_utf8, valid_utf8};
use protobuf::{CodedInputStream, CodedOutputStream, UnknownValue};

verus! {

/// The greatest number that a field can have.
pub const MAX_FIELD_NUMBER: u32 = 0x1fff_ffff;

/// Whether `number` can be the number of a field.
pub open spec fn is_field_number(number: u32) -> bool {
    0 < number <= MAX_FIELD_NUMBER
}

/// The value of a field as it travels.
#[derive(Debug, PartialEq, Eq)]
pub enum WireValue {
    /// An integer of variable length.
    Varint(u64),
    /// Four bytes.
    Fixed32(u32),
    /// Eight bytes.
    Fixed64(u64),
    /// Bytes behind their length: a text, bytes, or a message within.
    Bytes(Vec<u8>),
}

/// The mathematical value of a `WireValue`.
pub enum WireValueView {
    Varint(u64),
    Fixed32(u32),
    Fixed64(u64),
    Bytes(Seq<u8>),
}

impl View for WireValue {
    type V = WireValueView;

    open spec fn view(&self) -> WireValueView {
        match *self {
            WireValue::Varint(v) => WireValueView::Varint(v),
            WireValue::Fixed32(v) => WireValueView::Fixed32(v),
            WireValue::Fixed64(v) => WireValueView::Fixed64(v),
            WireValue::Bytes(b) => WireValueView::Bytes(b@),
        }
    }
}

/// One field as it was read: its number and its value.
#[derive(Debug, PartialEq, Eq)]
pub struct WireField {
    pub number: u32,
    pub value: WireValue,
}

/// The mathematical value of a `WireField`.
pub struct WireFieldView {
    pub number: u32,
    pub value: WireValueView,
}

impl View for WireField {
    type V = WireFieldView;

    open spec fn view(&self) -> WireFieldView {
        WireFieldView { number: self.number, value: self.value@ }
    }
}

/// The views of fields, in order.
pub open spec fn fields_view(fields: Seq<WireField>) -> Seq<WireFieldView> {
    fields.map_values(|f: WireField| f@)
}

/// Why bytes are not the message that was expected.
#[derive(Debug, Clone, Copy, PartialEq, Eq, Structural)]
pub enum DecodeError {
    /// The bytes are no run of fields.
    Malformed,
    /// A field of the message came with a value of another kind than the
    /// message has for it.
    UnexpectedWireType,
    /// A text is not UTF-8.
    InvalidText,
    /// A number stands for no value of the enumeration.
    InvalidEnumValue(i32),
}

/// The bytes of a text field with the given number.
pub uninterp spec fn string_field(number: u32, text: Seq<char>) -> Seq<u8>;

/// The bytes of a field of bytes with the given number.
pub uninterp spec fn bytes_field(number: u32, bytes: Seq<u8>) -> Seq<u8>;

/// The bytes of an unsigned 64-bit field with the given number.
pub uninterp spec fn uint64_field(number: u32, value: u64) -> Seq<u8>;

/// The bytes of an unsigned 32-bit field with the given number.
pub uninterp spec fn uint32_field(number: u32, value: u32) -> Seq<u8>;

/// The bytes of a signed 32-bit field with the given number.
pub uninterp spec fn int32_field(number: u32, value: i32) -> Seq<u8>;

/// The bytes of a field that holds the number of an enumeration's value.
pub uninterp spec fn enum_field(number: u32, value: i32) -> Seq<u8>;

/// The field with which `bytes` begin and the number of bytes that it
/// takes, or `None` where they begin with no field.
pub uninterp spec fn first_field(bytes: Seq<u8>) -> Option<(WireFieldView, int)>;

/// Calls `CodedOutputStream::write_string` of protobuf on a stream that
/// writes to an empty vector, and flushes it. The contract claims only
/// that what is then in the vector depends on the number and the text
/// alone. The number must be one that protobuf takes for a tag.
#[verifier::external_body]
fn write_string(number: u32, text: &str) -> (r: Vec<u8>)
    requires
        is_field_number(number),
    ensures
        r@ == string_field(number, text@),
{
    let mut bytes = Vec::new();
    let mut os = CodedOutputStream::vec(&mut bytes);
    let _ = os.write_string(number, text);
    let _ = os.flush();
    drop(os);
    bytes
}

/// Calls `CodedOutputStream::write_bytes` of protobuf on a stream that
/// writes to an empty vector, and flushes it. The contract claims only
/// that what is then in the vector depends on the number and the bytes
/// alone.
#[verifier::external_body]
fn write_bytes(number: u32, value: &[u8]) -> (r: Vec<u8>)
    requires
        is_field_number(number),
    ensures
        r@ == bytes_field(number, value@),
{
    let mut bytes = Vec::new();
    let mut os = CodedOutputStream::vec(&mut bytes);
    let _ = os.write_bytes(number, value);
    let _ = os.flush();
    drop(os);
    bytes
}

/// Calls `CodedOutputStream::write_uint64` of protobuf on a stream that
/// writes to an empty vector, and flushes it. The contract claims only
/// that what is then in the vector depends on the two numbers alone.
#[verifier::external_body]
fn write_uint64(number: u32, value: u64) -> (r: Vec<u8>)
    requires
        is_field_number(number),
    ensures
        r@ == uint64_field(number, value),
{
    let mut bytes = Vec::new();
    let mut os = CodedOutputStream::vec(&mut bytes);
    let _ = os.write_uint64(number, value);
    let _ = os.flush();
    drop(os);
    bytes
}

/// Calls `CodedOutputStream::write_uint32` of protobuf on a stream that
/// writes to an empty vector, and flushes it. The contract claims only
/// that what is then in the vector depends on the two numbers alone.
#[verifier::external_body]
fn write_uint32(number: u32, value: u32) -> (r: Vec<u8>)
    requires
        is_field_number(number),
    ensures
        r@ == uint32_field(number, value),
{
    let mut bytes = Vec::new();
    let mut os = CodedOutputStream::vec(&mut bytes);
    let _ = os.write_uint32(number, value);
    let _ = os.flush();
    drop(os);
    bytes
}

/// Calls `CodedOutputStream::write_int32` of protobuf on a stream that
/// writes to an empty vector, and flushes it. The contract claims only
/// that what is then in the vector depends on the two numbers alone.
#[verifier::external_body]
fn write_int32(number: u32, value: i32) -> (r: Vec<u8>)
    requires
        is_field_number(number),
    ensures
        r@ == int32_field(number, value),
{
    let mut bytes = Vec::new();
    let mut os = CodedOutputStream::vec(&mut bytes);
    let _ = os.write_int32(number, value);
    let _ = os.flush();
    drop(os);
    bytes
}

/// Calls `CodedOutputStream::write_enum` of protobuf on a stream that
/// writes to an empty vector, and flushes it. The contract claims only
/// that what is then in the vector depends on the two numbers alone.
#[verifier::external_body]
fn write_enum(number: u32, value: i32) -> (r: Vec<u8>)
    requires
        is_field_number(number),
    ensures
        r@ == enum_field(number, value),
{
    let mut bytes = Vec::new();
    let mut os = CodedOutputStream::vec(&mut bytes);
    let _ = os.write_enum(number, value);
    let _ = os.flush();
    drop(os);
    bytes
}

/// Reads one field from the head of `rest` with protobuf: a stream made by
/// `CodedInputStream::from_bytes`, then `read_tag_unpack` and
/// `read_unknown`, and `pos` for the number of bytes that were taken. The
/// contract claims that the outcome depends on the bytes alone, and that a
/// field takes at least one byte and no more than there are.
#[verifier::external_body]
fn read_field(rest: &[u8]) -> (r: Option<(WireField, usize)>)
    ensures
        match r {
            Some((field, used)) => first_field(rest@) == Some((field@, used as int)) && 0 < used
                <= rest@.len(),
            None => first_field(rest@) is None,
        },
{
    let mut is = CodedInputStream::from_bytes(rest);
    let (number, kind) = is.read_tag_unpack().ok()?;
    let value = match is.read_unknown(kind).ok()? {
        UnknownValue::Varint(v) => WireValue::Varint(v),
        UnknownValue::Fixed32(v) => WireValue::Fixed32(v),
        UnknownValue::Fixed64(v) => WireValue::Fixed64(v),
        UnknownValue::LengthDelimited(b) => WireValue::Bytes(b),
    };
    Some((WireField { number, value }, is.pos() as usize))
}

/// Calls `String::from_utf8` of std. The contract claims what its
/// documentation says: the text comes back where the bytes are UTF-8, and
/// it is the text that those bytes encode.
#[verifier::external_body]
fn utf8_text(bytes: Vec<u8>) -> (r: Option<String>)
    ensures
        match r {
            Some(text) => valid_utf8(bytes@) && text@ == decode_utf8(bytes@),
            None => !valid_utf8(bytes@),
        },
{
    String::from_utf8(bytes).ok()
}

/// The fields that `rest` holds, behind those of `before`; `None` where
/// `rest` is no run of fields.
pub open spec fn fields_from(rest: Seq<u8>, before: Seq<WireFieldView>) -> Option<
    Seq<WireFieldView>,
>
    decreases rest.len(),
{
    if rest.len() == 0 {
        Some(before)
    } else {
        match first_field(rest) {
            Some((field, used)) => if 0 < used <= rest.len() {
                fields_from(rest.skip(used), before.push(field))
            } else {
                None
            },
            None => None,
        }
    }
}

/// The fields that `bytes` hold, in order; `None` where they are no run of
/// fields.
pub open spec fn fields_of(bytes: Seq<u8>) -> Option<Seq<WireFieldView>> {
    fields_from(bytes, Seq::empty())
}

/// The views of the fields that were read, where any were.
pub open spec fn read_view(r: Option<Vec<WireField>>) -> Option<Seq<WireFieldView>> {
    match r {
        Some(fields) => Some(fields_view(fields@)),
        None => None,
    }
}

/// Reads the fields that `bytes` hold, one after the other.
pub fn read_fields(bytes: &[u8]) -> (r: Option<Vec<WireField>>)
    ensures
        read_view(r) == fields_of(bytes@),
{
    let mut out: Vec<WireField> = Vec::new();
    let mut at: usize = 0;
    assert(bytes@.skip(0) =~= bytes@);
    assert(fields_view(out@) =~= Seq::empty());
    while at < bytes.len()
        invariant
            at <= bytes.len(),
            fields_from(bytes@.skip(at as int), fields_view(out@)) == fields_of(bytes@),
        decreases bytes.len() - at,
    {
        let rest = slice_subrange(bytes, at, bytes.len());
        assert(rest@ =~= bytes@.skip(at as int));
        match read_field(rest) {
            None => {
                return None;
            },
            Some((field, used)) => {
                proof {
                    assert(rest@.skip(used as int) =~= bytes@.skip(at + used));
                    assert(fields_view(out@.push(field)) =~= fields_view(out@).push(field@));
                }
                out.push(field);
                at = at + used;
            },
        }
    }
    Some(out)
}

/// The text that a value holds: its bytes read as UTF-8.
pub open spec fn text_in(value: WireValueView) -> Result<Seq<char>, DecodeError> {
    match value {
        WireValueView::Bytes(b) => if valid_utf8(b) {
            Ok(decode_utf8(b))
        } else {
            Err(DecodeError::InvalidText)
        },
        _ => Err(DecodeError::UnexpectedWireType),
    }
}

/// The bytes that a value holds.
pub open spec fn bytes_in(value: WireValueView) -> Result<Seq<u8>, DecodeError> {
    match value {
        WireValueView::Bytes(b) => Ok(b),
        _ => Err(DecodeError::UnexpectedWireType),
    }
}

/// The unsigned 64-bit number that a value holds.
pub open spec fn u64_in(value: WireValueView) -> Result<u64, DecodeError> {
    match value {
        WireValueView::Varint(n) => Ok(n),
        _ => Err(DecodeError::UnexpectedWireType),
    }
}

/// The lower 32 bits of `n`.
pub open spec fn low_word(n: u64) -> u32 {
    (n % 0x1_0000_0000) as u32
}

/// The lower 32 bits of `n`, read as a signed number.
pub open spec fn low_word_signed(n: u64) -> i32 {
    if low_word(n) < 0x8000_0000 {
        low_word(n) as i32
    } else {
        (low_word(n) - 0x1_0000_0000) as i32
    }
}

/// The unsigned 32-bit number that a value holds: the lower half of the
/// integer that travelled.
pub open spec fn u32_in(value: WireValueView) -> Result<u32, DecodeError> {
    match value {
        WireValueView::Varint(n) => Ok(low_word(n)),
        _ => Err(DecodeError::UnexpectedWireType),
    }
}

/// The signed 32-bit number that a value holds: the lower half of the
/// integer that travelled, read as a signed number.
pub open spec fn i32_in(value: WireValueView) -> Result<i32, DecodeError> {
    match value {
        WireValueView::Varint(n) => Ok(low_word_signed(n)),
        _ => Err(DecodeError::UnexpectedWireType),
    }
}

/// The view of a text that was read, or the error.
pub open spec fn text_result(r: Result<String, DecodeError>) -> Result<Seq<char>, DecodeError> {
    match r {
        Ok(t) => Ok(t@),
        Err(e) => Err(e),
    }
}

/// The view of bytes that were read, or the error.
pub open spec fn bytes_result(r: Result<Vec<u8>, DecodeError>) -> Result<Seq<u8>, DecodeError> {
    match r {
        Ok(b) => Ok(b@),
        Err(e) => Err(e),
    }
}

/// The text that a value holds.
pub fn read_text(value: &WireValue) -> (r: Result<String, DecodeError>)
    ensures
        text_result(r) == text_in(value@),
{
    match value {
        WireValue::Bytes(b) => match utf8_text(b.clone()) {
            Some(text) => Ok(text),
            None => Err(DecodeError::InvalidText),
        },
        _ => Err(DecodeError::UnexpectedWireType),
    }
}

/// The bytes that a value holds.
pub fn read_bytes(value: &WireValue) -> (r: Result<Vec<u8>, DecodeError>)
    ensures
        bytes_result(r) == bytes_in(value@),
{
    match value {
        WireValue::Bytes(b) => Ok(b.clone()),
        _ => Err(DecodeError::UnexpectedWireType),
    }
}

/// The unsigned 64-bit number that a value holds.
pub fn read_u64(value: &WireValue) -> (r: Result<u64, DecodeError>)
    ensures
        r == u64_in(value@),
{
    match value {
        WireValue::Varint(n) => Ok(*n),
        _ => Err(DecodeError::UnexpectedWireType),
    }
}

/// The unsigned 32-bit number that a value holds.
pub fn read_u32(value: &WireValue) -> (r: Result<u32, DecodeError>)
    ensures
        r == u32_in(value@),
{
    match value {
        WireValue::Varint(n) => {
            let n: u64 = *n;
            let low: u64 = n & 0xffff_ffff;
            assert(low == n % 0x1_0000_0000) by (bit_vector)
                requires
                    low == n & 0xffff_ffff,
            ;
            Ok(low as u32)
        },
        _ => Err(DecodeError::UnexpectedWireType),
    }
}

/// The signed 32-bit number that a value holds.
pub fn read_i32(value: &WireValue) -> (r: Result<i32, DecodeError>)
    ensures
        r == i32_in(value@),
{
    match read_u32(value) {
        Ok(low) => {
            if low < 0x8000_0000 {
                Ok(low as i32)
            } else {
                let below: u32 = 0xffff_ffff - low;
                Ok(-(below as i32) - 1)
            }
        },
        Err(e) => Err(e),
    }
}

/// Appends the bytes of a text field where the field is set.
pub fn put_string(out: &mut Vec<u8>, number: u32, set: bool, text: &str)
    requires
        is_field_number(number),
    ensures
        final(out)@ == old(out)@ + (if set {
            string_field(number, text@)
        } else {
            Seq::<u8>::empty()
        }),
{
    if set {
        let mut part = write_string(number, text);
        out.append(&mut part);
    } else {
        assert(out@ + Seq::<u8>::empty() =~= out@);
    }
}

/// Appends the bytes of a field of bytes where the field is set.
pub fn put_bytes(out: &mut Vec<u8>, number: u32, set: bool, value: &[u8])
    requires
        is_field_number(number),
    ensures
        final(out)@ == old(out)@ + (if set {
            bytes_field(number, value@)
        } else {
            Seq::<u8>::empty()
        }),
{
    if set {
        let mut part = write_bytes(number, value);
        out.append(&mut part);
    } else {
        assert(out@ + Seq::<u8>::empty() =~= out@);
    }
}

/// Appends the bytes of an unsigned 64-bit field where the field is set.
pub fn put_uint64(out: &mut Vec<u8>, number: u32, set: bool, value: u64)
    requires
        is_field_number(number),
    ensures
        final(out)@ == old(out)@ + (if set {
            uint64_field(number, value)
        } else {
            Seq::<u8>::empty()
        }),
{
    if set {
        let mut part = write_uint64(number, value);
        out.append(&mut part);
    } else {
        assert(out@ + Seq::<u8>::empty() =~= out@);
    }
}

/// Appends the bytes of an unsigned 32-bit field where the field is set.
pub fn put_uint32(out: &mut Vec<u8>, number: u32, set: bool, value: u32)
    requires
        is_field_number(number),
    ensures
        final(out)@ == old(out)@ + (if set {
            uint32_field(number, value)
        } else {
            Seq::<u8>::empty()
        }),
{
    if set {
        let mut part = write_uint32(number, value);
        out.append(&mut part);
    } else {
        assert(out@ + Seq::<u8>::empty() =~= out@);
    }
}

/// Appends the bytes of a signed 32-bit field where the field is set.
pub fn put_int32(out: &mut Vec<u8>, number: u32, set: bool, value: i32)
    requires
        is_field_number(number),
    ensures
        final(out)@ == old(out)@ + (if set {
            int32_field(number, value)
        } else {
            Seq::<u8>::empty()
        }),
{
    if set {
        let mut part = write_int32(number, value);
        out.append(&mut part);
    } else {
        assert(out@ + Seq::<u8>::empty() =~= out@);
    }
}

/// Appends the bytes of a field that holds the number of an enumeration's
/// value, where the field is set.
pub fn put_enum(out: &mut Vec<u8>, number: u32, set: bool, value: i32)
    requires
        is_field_number(number),
    ensures
        final(out)@ == old(out)@ + (if set {
            enum_field(number, value)
        } else {
            Seq::<u8>::empty()
        }),
{
    if set {
        let mut part = write_enum(number, value);
        out.append(&mut part);
    } else {
        assert(out@ + Seq::<u8>::empty() =~= out@);
    }
}

/// A message that can travel: it says what each field that is read makes
/// of it, and which bytes it is written as.
pub trait WireMessage: View + Sized {
    /// The message without any field set.
    spec fn unset() -> Self::V;

    /// What the message `m` becomes when `field` is read, or why the field
    /// cannot be read into it.
    spec fn with_field(m: Self::V, field: WireFieldView) -> Result<Self::V, DecodeError>;

    /// The bytes of the message `m`.
    spec fn wire(m: Self::V) -> Seq<u8>;

    /// A message without any field set.
    fn unset_message() -> (r: Self)
        ensures
            r@ == Self::unset(),
    ;

    /// Reads one field into the message. Where the field cannot be read,
    /// the message stays as it was.
    fn merge_field(&mut self, field: &WireField) -> (r: Result<(), DecodeError>)
        ensures
            match Self::with_field(old(self)@, field@) {
                Ok(m) => r is Ok && final(self)@ == m,
                Err(e) => r == Err::<(), DecodeError>(e) && final(self)@ == old(self)@,
            },
    ;

    /// The bytes of the message.
    fn write_to_bytes(&self) -> (r: Vec<u8>)
        ensures
            r@ == Self::wire(self@),
    ;
}

/// What the message `m` becomes when `fields` are read one after the other,
/// and the error at which reading stopped, if it did.
pub open spec fn merged<M: WireMessage>(m: M::V, fields: Seq<WireFieldView>) -> (
    M::V,
    Option<DecodeError>,
)
    decreases fields.len(),
{
    if fields.len() == 0 {
        (m, None)
    } else {
        match M::with_field(m, fields[0]) {
            Ok(next) => merged::<M>(next, fields.skip(1)),
            Err(e) => (m, Some(e)),
        }
    }
}

/// Reads `fields` into the message, one after the other, and stops at the
/// first that cannot be read.
pub fn merge_from<M: WireMessage>(msg: &mut M, fields: &Vec<WireField>) -> (r: Result<
    (),
    DecodeError,
>)
    ensures
        final(msg)@ == merged::<M>(old(msg)@, fields_view(fields@)).0,
        match merged::<M>(old(msg)@, fields_view(fields@)).1 {
            Some(e) => r == Err::<(), DecodeError>(e),
            None => r is Ok,
        },
{
    let mut i: usize = 0;
    assert(fields_view(fields@).skip(0) =~= fields_view(fields@));
    while i < fields.len()
        invariant
            i <= fields.len(),
            merged::<M>(msg@, fields_view(fields@).skip(i as int)) == merged::<M>(
                old(msg)@,
                fields_view(fields@),
            ),
        decreases fields.len() - i,
    {
        proof {
            assert(fields_view(fields@).skip(i as int)[0] == fields@[i as int]@);
            assert(fields_view(fields@).skip(i as int).skip(1) =~= fields_view(fields@).skip(
                i + 1,
            ));
        }
        match msg.merge_field(&fields[i]) {
            Ok(()) => {},
            Err(e) => {
                return Err(e);
            },
        }
        i = i + 1;
    }
    Ok(())
}

/// The message that `bytes` hold, or why they hold none.
pub open spec fn decoded<M: WireMessage>(bytes: Seq<u8>) -> Result<M::V, DecodeError> {
    match fields_of(bytes) {
        None => Err(DecodeError::Malformed),
        Some(fields) => match merged::<M>(M::unset(), fields).1 {
            Some(e) => Err(e),
            None => Ok(merged::<M>(M::unset(), fields).0),
        },
    }
}

/// The message that was read, by its view, or the error.
pub open spec fn parsed_view<M: WireMessage>(r: Result<M, DecodeError>) -> Result<
    M::V,
    DecodeError,
> {
    match r {
        Ok(m) => Ok(m@),
        Err(e) => Err(e),
    }
}

/// Reads a message from its bytes.
pub fn parse_from_bytes<M: WireMessage>(bytes: &[u8]) -> (r: Result<M, DecodeError>)
    ensures
        parsed_view(r) == decoded::<M>(bytes@),
{
    match read_fields(bytes) {
        None => Err(DecodeError::Malformed),
        Some(fields) => {
            let mut msg = M::unset_message();
            match merge_from(&mut msg, &fields) {
                Ok(()) => Ok(msg),
                Err(e) => Err(e),
            }
        },
    }
}

/// No bytes are the message without any field set, whatever the kind of
/// the message.
pub proof fn law_no_bytes_hold_the_unset_message<M: WireMessage>()
    ensures
        decoded::<M>(Seq::<u8>::empty()) == Ok::<M::V, DecodeError>(M::unset()),
{
}

/// Reading goes on from where it stood: the fields of two runs, read one
/// run after the other, make of a message what the fields of both make of
/// it when they are read as one run, as long as the first run can be read.
pub proof fn law_reading_goes_on<M: WireMessage>(
    m: M::V,
    first: Seq<WireFieldView>,
    second: Seq<WireFieldView>,
)
    requires
        merged::<M>(m, first).1 is None,
    ensures
        merged::<M>(m, first + second) == merged::<M>(merged::<M>(m, first).0, second),
    decreases first.len(),
{
    if first.len() == 0 {
        assert(first + second =~= second);
    } else {
        let next = M::with_field(m, first[0])->Ok_0;
        assert((first + second)[0] == first[0]);
        assert((first + second).skip(1) =~= first.skip(1) + second);
        law_reading_goes_on::<M>(next, first.skip(1), second);
    }
}

} // verus!

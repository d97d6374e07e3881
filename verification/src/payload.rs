//! The typed payloads that the session reads and writes. They are protobuf
//! messages; the protobuf runtime does the reading and writing.
//!
//! The run-mode message has one enum field, numbered 1, and the log message
//! one repeated string field, numbered 1. The runtime's own `Int32Value` and
//! `FieldMask` messages have exactly these wire forms, so they carry the two.
//! The inputs message has one repeated message field, numbered 1; its single
//! element is written as a length-delimited field around the element's bytes.

use crate::codec::append_bytes;
use protobuf::well_known_types::field_mask::FieldMask;
use protobuf::well_known_types::wrappers::Int32Value;
use protobuf::{CodedOutputStream, Message};
use vstd::prelude::*;

verus! {

/// The operating mode of the robot.
#[derive(Clone, Copy, Debug, PartialEq, Eq, Structural)]
pub enum Mode {
    Idle,
    Auto,
    Teleop,
    Estop,
    Challenge,
}

/// The number that stands for a mode on the wire.
pub open spec fn mode_number(mode: Mode) -> int {
    match mode {
        Mode::Idle => 0,
        Mode::Auto => 1,
        Mode::Teleop => 2,
        Mode::Estop => 3,
        Mode::Challenge => 4,
    }
}

/// The mode that a wire number stands for, if it stands for one.
pub open spec fn mode_of_number(number: int) -> Option<Mode> {
    if number == 0 {
        Some(Mode::Idle)
    } else if number == 1 {
        Some(Mode::Auto)
    } else if number == 2 {
        Some(Mode::Teleop)
    } else if number == 3 {
        Some(Mode::Estop)
    } else if number == 4 {
        Some(Mode::Challenge)
    } else {
        None
    }
}

impl Mode {
    /// The number that stands for this mode on the wire.
    pub fn number(self) -> (out: i32)
        ensures
            out == mode_number(self),
    {
        match self {
            Mode::Idle => 0,
            Mode::Auto => 1,
            Mode::Teleop => 2,
            Mode::Estop => 3,
            Mode::Challenge => 4,
        }
    }

    /// The mode that a wire number stands for. A number outside the five
    /// known ones stands for none.
    pub fn from_number(number: i32) -> (out: Option<Mode>)
        ensures
            out == mode_of_number(number as int),
    {
        match number {
            0 => Some(Mode::Idle),
            1 => Some(Mode::Auto),
            2 => Some(Mode::Teleop),
            3 => Some(Mode::Estop),
            4 => Some(Mode::Challenge),
            _ => None,
        }
    }
}

/// Reading a number back gives the mode that wrote it.
pub proof fn lemma_mode_number_roundtrip(mode: Mode)
    ensures
        mode_of_number(mode_number(mode)) == Some(mode),
        0 <= mode_number(mode) <= 4,
{
}

/// The bytes of a message whose single varint field, numbered 1, holds a
/// small number. A zero is the field's default and is left out.
pub open spec fn small_int_message(value: int) -> Seq<u8>
    recommends
        0 <= value < 128,
{
    if value == 0 {
        Seq::empty()
    } else {
        seq![8u8, value as u8]
    }
}

/// The payload that announces a mode.
pub open spec fn run_mode_bytes(mode: Mode) -> Seq<u8> {
    small_int_message(mode_number(mode))
}

/// What protobuf reads from `payload` as a message with one `int32` field,
/// numbered 1: the field's value (zero where the field is absent), or nothing
/// where the bytes are no such message.
pub uninterp spec fn int32_message_value(payload: Seq<u8>) -> Option<i32>;

/// What protobuf reads from `payload` as a message with one repeated string
/// field, numbered 1: the strings in order, each as its UTF-8 bytes, or
/// nothing where the bytes are no such message.
pub uninterp spec fn strings_message_values(payload: Seq<u8>) -> Option<Seq<Seq<u8>>>;

/// A number as a base-128 varint: seven bits per byte, low bits first, the
/// top bit set on every byte but the last.
pub open spec fn varint(n: nat) -> Seq<u8>
    decreases n,
{
    if n < 128 {
        seq![n as u8]
    } else {
        seq![(128 + n % 128) as u8] + varint(n / 128)
    }
}

/// A length-delimited field: the tag (field number and wire type 2) in one
/// byte, the length as a varint, the bytes.
pub open spec fn delimited_field(field: nat, bytes: Seq<u8>) -> Seq<u8>
    recommends
        1 <= field <= 15,
{
    seq![(8 * field + 2) as u8] + varint(bytes.len()) + bytes
}

/// Calls `Int32Value::write_to_bytes` on a message that holds `value`. For a
/// number from 0 to 127 protobuf writes nothing if it is zero, and otherwise
/// the tag byte 8 followed by the number in one byte.
#[verifier::external_body]
fn write_int32_message(value: i32) -> (out: Vec<u8>)
    requires
        0 <= value < 128,
    ensures
        out@ == small_int_message(value as int),
{
    let mut message = Int32Value::new();
    message.value = value;
    message.write_to_bytes().unwrap()
}

/// Calls `Int32Value::parse_from_bytes`. The result is the value of the
/// field numbered 1, as protobuf reads it from these bytes.
#[verifier::external_body]
fn read_int32_message(payload: &[u8]) -> (out: Option<i32>)
    ensures
        out == int32_message_value(payload@),
{
    match Int32Value::parse_from_bytes(payload) {
        Ok(message) => Some(message.value),
        Err(_) => None,
    }
}

/// Calls `FieldMask::parse_from_bytes`. The result is the strings of the
/// field numbered 1, as protobuf reads them from these bytes.
#[verifier::external_body]
fn read_strings_message(payload: &[u8]) -> (out: Option<Vec<Vec<u8>>>)
    ensures
        match out {
            Some(parts) => strings_message_values(payload@) == Some(parts.deep_view()),
            None => strings_message_values(payload@) is None,
        },
{
    match FieldMask::parse_from_bytes(payload) {
        Ok(message) => Some(message.paths.into_iter().map(String::into_bytes).collect()),
        Err(_) => None,
    }
}

/// Calls `CodedOutputStream::write_bytes` on an empty vector. For a field
/// number up to 15 protobuf writes the tag in one byte, then the length as a
/// varint, then the bytes.
#[verifier::external_body]
fn write_bytes_field(field: u32, bytes: &[u8]) -> (out: Vec<u8>)
    requires
        1 <= field <= 15,
        bytes@.len() <= u32::MAX,
    ensures
        out@ == delimited_field(field as nat, bytes@),
{
    let mut out = Vec::new();
    let mut stream = CodedOutputStream::vec(&mut out);
    stream.write_bytes(field, bytes).unwrap();
    stream.flush().unwrap();
    drop(stream);
    out
}

/// The strings of `parts` one after the other.
pub open spec fn joined(parts: Seq<Seq<u8>>) -> Seq<u8>
    decreases parts.len(),
{
    if parts.len() == 0 {
        Seq::empty()
    } else {
        joined(parts.drop_last()) + parts.last()
    }
}

/// The mode that a run-mode payload announces: what protobuf reads from it,
/// where that is the number of a mode.
pub open spec fn mode_of_payload(payload: Seq<u8>) -> Option<Mode> {
    match int32_message_value(payload) {
        Some(number) => mode_of_number(number as int),
        None => None,
    }
}

/// The text that a log payload carries: its strings, joined.
pub open spec fn text_of_payload(payload: Seq<u8>) -> Option<Seq<u8>> {
    match strings_message_values(payload) {
        Some(parts) => Some(joined(parts)),
        None => None,
    }
}

/// The inputs payload around one input: a single element of the repeated
/// field numbered 1.
pub open spec fn user_inputs_bytes(input: Seq<u8>) -> Seq<u8> {
    delimited_field(1, input)
}

/// The field number of the list of inputs in the inputs message.
pub const INPUTS_FIELD: u32 = 1;

/// Builds the payload that announces `mode`.
pub fn run_mode_payload(mode: Mode) -> (out: Vec<u8>)
    ensures
        out@ == run_mode_bytes(mode),
{
    write_int32_message(mode.number())
}

/// Reads the mode out of a run-mode payload. Bytes that protobuf does not
/// accept, and a number that names no mode, give nothing.
pub fn decode_run_mode(payload: &[u8]) -> (out: Option<Mode>)
    ensures
        out == mode_of_payload(payload@),
{
    match read_int32_message(payload) {
        Some(number) => Mode::from_number(number),
        None => None,
    }
}

/// Joins strings into one.
pub fn join_parts(parts: &Vec<Vec<u8>>) -> (out: Vec<u8>)
    ensures
        out@ == joined(parts.deep_view()),
{
    let mut text: Vec<u8> = Vec::new();
    let mut i: usize = 0;
    let ghost all = parts.deep_view();
    assert(all.take(0) =~= Seq::<Seq<u8>>::empty());
    while i < parts.len()
        invariant
            i <= parts.len(),
            all == parts.deep_view(),
            all.len() == parts.len(),
            text@ == joined(all.take(i as int)),
        decreases parts.len() - i,
    {
        let part = &parts[i];
        proof {
            assert(all[i as int] == part@);
            assert(all.take(i + 1).drop_last() =~= all.take(i as int));
            assert(all.take(i + 1).last() == part@);
        }
        append_bytes(&mut text, part.as_slice());
        i = i + 1;
    }
    assert(all.take(i as int) =~= all);
    text
}

/// Reads the text out of a log payload: its strings, joined. Bytes that
/// protobuf does not accept give nothing.
pub fn decode_log(payload: &[u8]) -> (out: Option<Vec<u8>>)
    ensures
        match out {
            Some(text) => text_of_payload(payload@) == Some(text@),
            None => text_of_payload(payload@) is None,
        },
{
    match read_strings_message(payload) {
        Some(parts) => Some(join_parts(&parts)),
        None => None,
    }
}

/// A varint has at least one byte.
pub proof fn lemma_varint_nonempty(n: nat)
    ensures
        varint(n).len() >= 1,
    decreases n,
{
    if n >= 128 {
        lemma_varint_nonempty(n / 128);
    }
}

/// Wraps the bytes of one input as an inputs payload with that single
/// element. Protobuf lengths have 32 bits, which bounds the input.
pub fn user_inputs_payload(input: &[u8]) -> (out: Vec<u8>)
    requires
        input@.len() <= u32::MAX,
    ensures
        out@ == user_inputs_bytes(input@),
{
    write_bytes_field(INPUTS_FIELD, input)
}

} // verus!

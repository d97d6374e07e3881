//! What a client writes to the daemon, and the words of the command line
//! that decide it.

use crate::daemon::{daemon_type_id, robot_kind_byte, MsgDaemonType, RobotKind};
use crate::devices::same_bytes;
use crate::request::{compose_connect, compose_transfer, connect_body, transfer_body};
use crate::robot::{event_type_id, EventType};
use vstd::prelude::*;
use vstd::string::StringSliceAdditionalSpecFns;

verus! {

/// A byte with an upper-case ASCII letter turned into its lower-case letter.
pub open spec fn lower(byte: u8) -> u8 {
    if 0x41 <= byte && byte <= 0x5A {
        (byte + 0x20) as u8
    } else {
        byte
    }
}

/// A word with its upper-case ASCII letters turned into lower-case ones.
pub open spec fn lowered(word: Seq<u8>) -> Seq<u8> {
    Seq::new(word.len(), |i: int| lower(word[i]))
}

/// The kind of robot that a word names, whatever the case of its letters.
pub open spec fn kind_named(word: Seq<u8>) -> Option<RobotKind> {
    if lowered(word) == "potato".spec_bytes() {
        Some(RobotKind::Potato)
    } else if lowered(word) == "raspberry".spec_bytes() {
        Some(RobotKind::Raspberry)
    } else {
        None
    }
}

/// The run command that a word names.
pub open spec fn run_named(word: Seq<u8>) -> Option<EventType> {
    if word == "auto".spec_bytes() {
        Some(EventType::RobotAuto)
    } else if word == "teleop".spec_bytes() {
        Some(EventType::RobotStart)
    } else if word == "stop".spec_bytes() {
        Some(EventType::RobotStop)
    } else {
        None
    }
}

/// Turns the upper-case ASCII letters of a word into lower-case ones.
pub fn to_lower(word: &[u8]) -> (out: Vec<u8>)
    ensures
        out@ == lowered(word@),
{
    let mut out: Vec<u8> = Vec::new();
    let mut i: usize = 0;
    while i < word.len()
        invariant
            i <= word.len(),
            out@ == lowered(word@.take(i as int)),
        decreases word.len() - i,
    {
        let byte = word[i];
        if 0x41 <= byte && byte <= 0x5A {
            out.push(byte + 0x20);
        } else {
            out.push(byte);
        }
        assert(out@ =~= lowered(word@.take(i + 1)));
        i = i + 1;
    }
    assert(word@.take(i as int) =~= word@);
    out
}

/// The kind of robot that a word of the command line names.
pub fn robot_kind_from_name(word: &[u8]) -> (out: Option<RobotKind>)
    ensures
        out == kind_named(word@),
{
    let word = to_lower(word);
    if same_bytes(word.as_slice(), "potato".as_bytes()) {
        Some(RobotKind::Potato)
    } else if same_bytes(word.as_slice(), "raspberry".as_bytes()) {
        Some(RobotKind::Raspberry)
    } else {
        None
    }
}

/// The run command that a word of the command line names.
pub fn run_command_from_name(word: &[u8]) -> (out: Option<EventType>)
    ensures
        out == run_named(word@),
{
    if same_bytes(word, "auto".as_bytes()) {
        Some(EventType::RobotAuto)
    } else if same_bytes(word, "teleop".as_bytes()) {
        Some(EventType::RobotStart)
    } else if same_bytes(word, "stop".as_bytes()) {
        Some(EventType::RobotStop)
    } else {
        None
    }
}

/// A request that consists of its opcode alone.
pub open spec fn bare_request_bytes(request: MsgDaemonType) -> Seq<u8> {
    seq![daemon_type_id(request)]
}

/// A connect request: the opcode, the kind byte, the address.
pub open spec fn connect_request_bytes(kind: u8, host: Seq<u8>) -> Seq<u8> {
    seq![daemon_type_id(MsgDaemonType::Connect)] + connect_body(kind, host)
}

/// A run request: the opcode, then the command byte.
pub open spec fn run_request_bytes(command: EventType) -> Seq<u8> {
    seq![daemon_type_id(MsgDaemonType::Run), event_type_id(command)]
}

/// An upload or download request: the opcode, the working directory, a NUL,
/// the file's path.
pub open spec fn transfer_request_bytes(upload: bool, cwd: Seq<u8>, rel_path: Seq<u8>) -> Seq<u8> {
    seq![
        daemon_type_id(
            if upload {
                MsgDaemonType::Upload
            } else {
                MsgDaemonType::Download
            },
        ),
    ] + transfer_body(cwd, rel_path)
}

/// Builds a request that consists of its opcode alone: a devices query, a
/// request to have inputs forwarded, a kill request.
pub fn bare_request(request: MsgDaemonType) -> (out: Vec<u8>)
    ensures
        out@ == bare_request_bytes(request),
{
    let mut out: Vec<u8> = Vec::new();
    out.push(request.id());
    assert(out@ =~= bare_request_bytes(request));
    out
}

/// Builds a connect request.
pub fn connect_request(kind: RobotKind, host: &[u8]) -> (out: Vec<u8>)
    ensures
        out@ == connect_request_bytes(robot_kind_byte(kind), host@),
{
    let mut out: Vec<u8> = Vec::new();
    out.push(MsgDaemonType::Connect.id());
    let byte = kind.byte();
    let body = compose_connect(byte, host);
    out.extend_from_slice(body.as_slice());
    assert(out@ =~= connect_request_bytes(byte, host@));
    out
}

/// Builds a run request.
pub fn run_request(command: EventType) -> (out: Vec<u8>)
    ensures
        out@ == run_request_bytes(command),
{
    let mut out: Vec<u8> = Vec::new();
    out.push(MsgDaemonType::Run.id());
    out.push(command.id());
    assert(out@ =~= run_request_bytes(command));
    out
}

/// Builds an upload or download request.
pub fn transfer_request(upload: bool, cwd: &[u8], rel_path: &[u8]) -> (out: Vec<u8>)
    ensures
        out@ == transfer_request_bytes(upload, cwd@, rel_path@),
{
    let mut out: Vec<u8> = Vec::new();
    if upload {
        out.push(MsgDaemonType::Upload.id());
    } else {
        out.push(MsgDaemonType::Download.id());
    }
    let body = compose_transfer(cwd, rel_path);
    out.extend_from_slice(body.as_slice());
    assert(out@ =~= transfer_request_bytes(upload, cwd@, rel_path@));
    out
}

} // verus!

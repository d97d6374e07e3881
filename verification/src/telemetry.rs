//! The telemetry slot, and the reply that carries its content to a client.

use crate::codec::{
    append_bytes, announced_len, high_byte, low_byte, FrameError, HEADER_SIZE, MAX_PAYLOAD,
};
use vstd::prelude::*;
use vstd::slice::{slice_subrange, slice_to_vec};

verus! {

/// First byte of a devices reply that carries no telemetry.
pub const DEVICES_ABSENT: u8 = 0;

/// First byte of a devices reply that carries telemetry.
pub const DEVICES_PRESENT: u8 = 1;

/// Holds the device telemetry that arrived last. There is one slot and no
/// history: a new value replaces the old one, and a reader gets a copy.
pub struct TelemetryCache {
    latest: Option<Vec<u8>>,
}

impl View for TelemetryCache {
    type V = Option<Seq<u8>>;

    closed spec fn view(&self) -> Option<Seq<u8>> {
        match self.latest {
            Some(bytes) => Some(bytes@),
            None => None,
        }
    }
}

impl TelemetryCache {
    /// An empty slot.
    pub fn new() -> (out: TelemetryCache)
        ensures
            out@ is None,
    {
        TelemetryCache { latest: None }
    }

    /// Replaces the slot's content.
    pub fn store(&mut self, bytes: Vec<u8>)
        ensures
            final(self)@ == Some(bytes@),
        no_unwind
    {
        self.latest = Some(bytes);
    }

    /// A copy of the slot's content, or nothing if nothing was ever stored.
    pub fn snapshot(&self) -> (out: Option<Vec<u8>>)
        ensures
            match out {
                Some(bytes) => self@ == Some(bytes@),
                None => self@ is None,
            },
    {
        match &self.latest {
            Some(bytes) => Some(slice_to_vec(bytes.as_slice())),
            None => None,
        }
    }
}

/// The reply to a devices query: a lone 0 where there is no telemetry, else
/// a 1, the length in two bytes (low byte first) and the telemetry.
pub open spec fn devices_reply_bytes(telemetry: Option<Seq<u8>>) -> Seq<u8>
    recommends
        telemetry is Some ==> telemetry->Some_0.len() <= MAX_PAYLOAD,
{
    match telemetry {
        None => seq![DEVICES_ABSENT],
        Some(bytes) => seq![DEVICES_PRESENT, low_byte(bytes.len()), high_byte(bytes.len())]
            + bytes,
    }
}

/// Builds the reply to a devices query from telemetry that the length bytes
/// can announce.
pub(crate) fn devices_reply_within(telemetry: &Option<Vec<u8>>) -> (out: Vec<u8>)
    requires
        telemetry is Some ==> telemetry->Some_0@.len() <= MAX_PAYLOAD,
    ensures
        out@ == devices_reply_bytes(
            match telemetry {
                Some(bytes) => Some(bytes@),
                None => None,
            },
        ),
{
    let mut reply: Vec<u8> = Vec::new();
    match telemetry {
        None => {
            reply.push(DEVICES_ABSENT);
            assert(reply@ =~= devices_reply_bytes(None));
        },
        Some(bytes) => {
            let len = bytes.len();
            reply.push(DEVICES_PRESENT);
            reply.push((len % 256) as u8);
            reply.push((len / 256) as u8);
            append_bytes(&mut reply, bytes.as_slice());
            assert(reply@ =~= devices_reply_bytes(Some(bytes@)));
        },
    }
    reply
}

/// Builds the reply to a devices query. Telemetry longer than the two length
/// bytes can announce is refused, never cut short.
pub fn devices_reply(telemetry: &Option<Vec<u8>>) -> (out: Result<Vec<u8>, FrameError>)
    ensures
        match telemetry {
            None => out is Ok && out->Ok_0@ == devices_reply_bytes(None),
            Some(bytes) => if bytes@.len() <= MAX_PAYLOAD {
                out is Ok && out->Ok_0@ == devices_reply_bytes(Some(bytes@))
            } else {
                out == Err::<Vec<u8>, FrameError>(FrameError::TooLong)
            },
        },
{
    let fits = match telemetry {
        None => true,
        Some(bytes) => bytes.len() <= MAX_PAYLOAD,
    };
    if fits {
        Ok(devices_reply_within(telemetry))
    } else {
        Err(FrameError::TooLong)
    }
}

/// What a reader of devices replies finds at the front of what it has read.
#[derive(Clone, Debug, PartialEq, Eq)]
pub enum DevicesReply {
    /// The reply is not all there yet.
    Incomplete,
    /// The session holds no telemetry. One byte was used.
    Absent,
    /// The session's telemetry. Three bytes and the telemetry were used.
    Present(Vec<u8>),
}

/// A devices reply, as a mathematical value.
pub enum DevicesReplyModel {
    Incomplete,
    Absent,
    Present(Seq<u8>),
}

impl View for DevicesReply {
    type V = DevicesReplyModel;

    open spec fn view(&self) -> DevicesReplyModel {
        match self {
            DevicesReply::Incomplete => DevicesReplyModel::Incomplete,
            DevicesReply::Absent => DevicesReplyModel::Absent,
            DevicesReply::Present(bytes) => DevicesReplyModel::Present(bytes@),
        }
    }
}

/// The reply at the front of `buf`. A first byte other than 1 says that
/// there is no telemetry.
pub open spec fn devices_reply_at(buf: Seq<u8>) -> DevicesReplyModel {
    if buf.len() == 0 {
        DevicesReplyModel::Incomplete
    } else if buf[0] != DEVICES_PRESENT {
        DevicesReplyModel::Absent
    } else if buf.len() < HEADER_SIZE || buf.len() < HEADER_SIZE + announced_len(buf) {
        DevicesReplyModel::Incomplete
    } else {
        DevicesReplyModel::Present(
            buf.subrange(HEADER_SIZE as int, HEADER_SIZE + announced_len(buf)),
        )
    }
}

/// Reads the devices reply at the front of `buf`, as far as it is there.
pub fn parse_devices_reply(buf: &[u8]) -> (out: DevicesReply)
    ensures
        out@ == devices_reply_at(buf@),
{
    let len = buf.len();
    if len == 0 {
        return DevicesReply::Incomplete;
    }
    if buf[0] != DEVICES_PRESENT {
        return DevicesReply::Absent;
    }
    if len < HEADER_SIZE {
        return DevicesReply::Incomplete;
    }
    let announced: usize = buf[1] as usize + 256 * (buf[2] as usize);
    if len - HEADER_SIZE < announced {
        return DevicesReply::Incomplete;
    }
    DevicesReply::Present(
        slice_to_vec(slice_subrange(buf, HEADER_SIZE, HEADER_SIZE + announced)),
    )
}

/// A reply that was built and then read comes back as it was.
pub proof fn lemma_devices_reply_roundtrip(telemetry: Option<Seq<u8>>)
    requires
        telemetry is Some ==> telemetry->Some_0.len() <= MAX_PAYLOAD,
    ensures
        devices_reply_at(devices_reply_bytes(telemetry)) == match telemetry {
            None => DevicesReplyModel::Absent,
            Some(bytes) => DevicesReplyModel::Present(bytes),
        },
{
    match telemetry {
        None => {},
        Some(bytes) => {
            let reply = devices_reply_bytes(telemetry);
            assert(reply[1] == low_byte(bytes.len()));
            assert(reply[2] == high_byte(bytes.len()));
            assert(reply.subrange(HEADER_SIZE as int, HEADER_SIZE + announced_len(reply))
                =~= bytes);
        },
    }
}

} // verus!

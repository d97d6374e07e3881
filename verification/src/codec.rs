//! The frame codec: one type byte, the payload length as two bytes (low byte
//! first), then the payload.

use vstd::prelude::*;
use vstd::slice::{slice_subrange, slice_to_vec};

verus! {

/// Bytes in a frame header.
pub const HEADER_SIZE: usize = 3;

/// Longest payload that the two length bytes can announce.
pub const MAX_PAYLOAD: usize = 65535;

/// What can go wrong between a payload and the wire.
#[derive(Clone, Copy, Debug, PartialEq, Eq, Structural)]
pub enum FrameError {
    /// The payload is longer than `MAX_PAYLOAD` bytes.
    TooLong,
    /// The stream closed in the middle of a frame.
    ConnectionLost,
}

/// One frame, as a mathematical value.
pub struct FrameModel {
    pub msg_type: u8,
    pub payload: Seq<u8>,
}

/// One decoded frame: the type byte as it stood on the wire, and the payload,
/// which is never longer than `MAX_PAYLOAD`.
#[derive(Debug, PartialEq, Eq)]
pub struct Frame {
    msg_type: u8,
    payload: Vec<u8>,
}

impl View for Frame {
    type V = FrameModel;

    closed spec fn view(&self) -> FrameModel {
        FrameModel { msg_type: self.msg_type, payload: self.payload@ }
    }
}

impl Frame {
    #[verifier::type_invariant]
    spec fn fits(&self) -> bool {
        self.payload@.len() <= MAX_PAYLOAD
    }

    /// A frame of the given type and payload. A payload that no header can
    /// announce is refused.
    pub fn new(msg_type: u8, payload: Vec<u8>) -> (out: Result<Frame, FrameError>)
        ensures
            payload@.len() <= MAX_PAYLOAD ==> out is Ok && out->Ok_0@ == (FrameModel {
                msg_type,
                payload: payload@,
            }),
            payload@.len() > MAX_PAYLOAD ==> out is Err && out->Err_0 == FrameError::TooLong,
    {
        if payload.len() > MAX_PAYLOAD {
            Err(FrameError::TooLong)
        } else {
            Ok(Frame { msg_type, payload })
        }
    }

    /// The type byte.
    pub fn msg_type(&self) -> (out: u8)
        ensures
            out == self@.msg_type,
    {
        self.msg_type
    }

    /// The payload.
    pub fn payload(&self) -> (out: &Vec<u8>)
        ensures
            out@ == self@.payload,
            out@.len() <= MAX_PAYLOAD,
    {
        proof {
            use_type_invariant(self);
        }
        &self.payload
    }

    /// Gives up the frame for its payload.
    pub fn into_payload(self) -> (out: Vec<u8>)
        ensures
            out@ == self@.payload,
            out@.len() <= MAX_PAYLOAD,
    {
        proof {
            use_type_invariant(&self);
        }
        self.payload
    }

    /// The wire image of the frame.
    pub fn to_bytes(&self) -> (out: Vec<u8>)
        ensures
            out@ == frame_bytes(self@.msg_type, self@.payload),
    {
        proof {
            use_type_invariant(self);
        }
        frame_within(self.msg_type, self.payload.as_slice())
    }
}

/// The models of a list of frames, in order.
pub open spec fn frame_models(frames: Seq<Frame>) -> Seq<FrameModel> {
    Seq::new(frames.len(), |i: int| frames[i]@)
}

/// The low byte of a length.
pub open spec fn low_byte(len: nat) -> u8 {
    (len % 256) as u8
}

/// The high byte of a length below 65536.
pub open spec fn high_byte(len: nat) -> u8 {
    (len / 256) as u8
}

/// The wire image of a frame: type, length low, length high, payload.
pub open spec fn frame_bytes(msg_type: u8, payload: Seq<u8>) -> Seq<u8>
    recommends
        payload.len() <= MAX_PAYLOAD,
{
    seq![msg_type, low_byte(payload.len()), high_byte(payload.len())] + payload
}

/// The payload length that the header at the front of `buf` announces.
pub open spec fn announced_len(buf: Seq<u8>) -> int
    recommends
        buf.len() >= HEADER_SIZE,
{
    buf[1] as int + 256 * (buf[2] as int)
}

/// Whether `buf` starts with a whole frame: a full header and all the bytes
/// that it announces.
pub open spec fn holds_frame(buf: Seq<u8>) -> bool {
    buf.len() >= HEADER_SIZE && buf.len() >= HEADER_SIZE + announced_len(buf)
}

/// The frame at the front of `buf`.
pub open spec fn first_frame(buf: Seq<u8>) -> FrameModel
    recommends
        holds_frame(buf),
{
    FrameModel {
        msg_type: buf[0],
        payload: buf.subrange(HEADER_SIZE as int, HEADER_SIZE + announced_len(buf)),
    }
}

/// What follows the frame at the front of `buf`.
pub open spec fn after_first(buf: Seq<u8>) -> Seq<u8>
    recommends
        holds_frame(buf),
{
    buf.subrange(HEADER_SIZE + announced_len(buf), buf.len() as int)
}

/// Frames a payload that the header can announce.
pub(crate) fn frame_within(msg_type: u8, payload: &[u8]) -> (out: Vec<u8>)
    requires
        payload@.len() <= MAX_PAYLOAD,
    ensures
        out@ == frame_bytes(msg_type, payload@),
{
    let len = payload.len();
    let mut packet: Vec<u8> = Vec::with_capacity(HEADER_SIZE + len);
    packet.push(msg_type);
    packet.push((len % 256) as u8);
    packet.push((len / 256) as u8);
    packet.extend_from_slice(payload);
    assert(packet@ =~= frame_bytes(msg_type, payload@));
    packet
}

/// Frames a payload: the type byte, the length in two bytes, the payload
/// untouched. A payload that the length bytes cannot announce is refused.
pub fn encode(msg_type: u8, payload: &[u8]) -> (out: Result<Vec<u8>, FrameError>)
    ensures
        payload@.len() <= MAX_PAYLOAD ==> out is Ok && out->Ok_0@ == frame_bytes(
            msg_type,
            payload@,
        ),
        payload@.len() > MAX_PAYLOAD ==> out == Err::<Vec<u8>, FrameError>(FrameError::TooLong),
{
    if payload.len() > MAX_PAYLOAD {
        Err(FrameError::TooLong)
    } else {
        Ok(frame_within(msg_type, payload))
    }
}

/// What one decoding attempt yields from the bytes kept so far and the bytes
/// that just arrived: the frame at the front, if it is whole, and the bytes to
/// keep for the next attempt.
pub open spec fn decode_step(leftover: Seq<u8>, incoming: Seq<u8>) -> (
    Option<FrameModel>,
    Seq<u8>,
) {
    let buf = leftover + incoming;
    if holds_frame(buf) {
        (Some(first_frame(buf)), after_first(buf))
    } else {
        (None, buf)
    }
}

/// Copies `src[from..to]` into a vector of its own.
fn copy_range(src: &[u8], from: usize, to: usize) -> (out: Vec<u8>)
    requires
        from <= to <= src@.len(),
    ensures
        out@ == src@.subrange(from as int, to as int),
{
    slice_to_vec(slice_subrange(src, from, to))
}

/// Appends `src` to `dst`.
pub(crate) fn append_bytes(dst: &mut Vec<u8>, src: &[u8])
    ensures
        final(dst)@ == old(dst)@ + src@,
{
    dst.extend_from_slice(src);
    assert(dst@ =~= old(dst)@ + src@);
}

/// Joins the bytes kept from earlier reads with the bytes that just arrived
/// and tries to take one frame off the front. Either the frame comes back with
/// whatever followed it, or no frame comes back and every byte is kept: a
/// header is never consumed ahead of its payload.
pub fn decode_stream(leftover_in: Vec<u8>, incoming: &[u8]) -> (out: (Option<Frame>, Vec<u8>))
    ensures
        match decode_step(leftover_in@, incoming@).0 {
            Some(frame) => out.0 is Some && out.0->Some_0@ == frame,
            None => out.0 is None,
        },
        out.1@ == decode_step(leftover_in@, incoming@).1,
{
    let mut buf = leftover_in;
    append_bytes(&mut buf, incoming);
    let len = buf.len();
    if len < HEADER_SIZE {
        return (None, buf);
    }
    let announced: usize = buf[1] as usize + 256 * (buf[2] as usize);
    if len - HEADER_SIZE < announced {
        return (None, buf);
    }
    let payload = copy_range(buf.as_slice(), HEADER_SIZE, HEADER_SIZE + announced);
    let rest = copy_range(buf.as_slice(), HEADER_SIZE + announced, len);
    (Some(Frame { msg_type: buf[0], payload }), rest)
}

/// The stream has closed, and `leftover` is what was kept from it. Bytes of a
/// frame that never became whole mean that the connection was lost.
pub fn end_of_stream(leftover: &[u8]) -> (out: Result<(), FrameError>)
    ensures
        leftover@.len() == 0 ==> out is Ok,
        leftover@.len() > 0 ==> out is Err && out->Err_0 == FrameError::ConnectionLost,
{
    if leftover.len() == 0 {
        Ok(())
    } else {
        Err(FrameError::ConnectionLost)
    }
}

/// Every whole frame in `buf`, front to back.
pub open spec fn frames_in(buf: Seq<u8>) -> Seq<FrameModel>
    decreases buf.len(),
{
    if holds_frame(buf) {
        seq![first_frame(buf)] + frames_in(after_first(buf))
    } else {
        Seq::empty()
    }
}

/// What is left of `buf` behind its whole frames: a header that is not all
/// there yet, or a header with part of its payload.
pub open spec fn tail_of(buf: Seq<u8>) -> Seq<u8>
    decreases buf.len(),
{
    if holds_frame(buf) {
        tail_of(after_first(buf))
    } else {
        buf
    }
}

/// Takes every whole frame off the front of `buf`, in order, and hands back
/// the unfinished rest.
pub fn split_frames(buf: &[u8]) -> (out: (Vec<Frame>, Vec<u8>))
    ensures
        frame_models(out.0@) == frames_in(buf@),
        out.1@ == tail_of(buf@),
        !holds_frame(out.1@),
{
    let mut frames: Vec<Frame> = Vec::new();
    let mut pos: usize = 0;
    let len = buf.len();
    proof {
        assert(buf@.skip(0) =~= buf@);
        assert(frame_models(frames@) =~= Seq::<FrameModel>::empty());
    }
    loop
        invariant
            len == buf@.len(),
            pos <= len,
            frames_in(buf@) == frame_models(frames@) + frames_in(buf@.skip(pos as int)),
            tail_of(buf@) == tail_of(buf@.skip(pos as int)),
        ensures
            pos <= len,
            !holds_frame(buf@.skip(pos as int)),
            frames_in(buf@) == frame_models(frames@),
            tail_of(buf@) == buf@.skip(pos as int),
        decreases len - pos,
    {
        let ghost here = buf@.skip(pos as int);
        if len - pos < HEADER_SIZE {
            assert(frame_models(frames@) + Seq::<FrameModel>::empty() =~= frame_models(frames@));
            break;
        }
        let announced: usize = buf[pos + 1] as usize + 256 * (buf[pos + 2] as usize);
        assert(announced == announced_len(here));
        if len - pos - HEADER_SIZE < announced {
            assert(frame_models(frames@) + Seq::<FrameModel>::empty() =~= frame_models(frames@));
            break;
        }
        let payload = copy_range(buf, pos + HEADER_SIZE, pos + HEADER_SIZE + announced);
        let frame = Frame { msg_type: buf[pos], payload };
        proof {
            assert(holds_frame(here));
            assert(frame@.payload =~= first_frame(here).payload);
            assert(frame@ == first_frame(here));
            assert(after_first(here) =~= buf@.skip(pos + HEADER_SIZE + announced));
            assert(frame_models(frames@.push(frame)) =~= frame_models(frames@) + seq![frame@]);
            assert(frame_models(frames@) + (seq![frame@] + frames_in(after_first(here)))
                =~= frame_models(frames@.push(frame)) + frames_in(after_first(here)));
        }
        frames.push(frame);
        pos = pos + HEADER_SIZE + announced;
    }
    let rest = copy_range(buf, pos, len);
    assert(rest@ =~= buf@.skip(pos as int));
    (frames, rest)
}

/// The wire image of a list of frames, one after the other.
pub open spec fn stream_of(frames: Seq<FrameModel>) -> Seq<u8>
    decreases frames.len(),
{
    if frames.len() == 0 {
        Seq::empty()
    } else {
        frame_bytes(frames[0].msg_type, frames[0].payload) + stream_of(frames.skip(1))
    }
}

/// Whether every frame of the list has a payload that the header can announce.
pub open spec fn all_encodable(frames: Seq<FrameModel>) -> bool {
    forall|i: int| 0 <= i < frames.len() ==> (#[trigger] frames[i]).payload.len() <= MAX_PAYLOAD
}

/// The frames that come out, and the bytes that stay behind, when `stream` is
/// handed to the decoder one byte per attempt, starting from `leftover`.
pub open spec fn feed_bytewise(leftover: Seq<u8>, stream: Seq<u8>) -> (Seq<FrameModel>, Seq<u8>)
    decreases stream.len(),
{
    if stream.len() == 0 {
        (Seq::empty(), leftover)
    } else {
        let step = decode_step(leftover, seq![stream[0]]);
        let later = feed_bytewise(step.1, stream.skip(1));
        match step.0 {
            Some(frame) => (seq![frame] + later.0, later.1),
            None => later,
        }
    }
}

/// The header of an encoded frame announces the payload's length, and the
/// encoded frame is exactly one whole frame.
pub proof fn lemma_frame_bytes_shape(msg_type: u8, payload: Seq<u8>)
    requires
        payload.len() <= MAX_PAYLOAD,
    ensures
        frame_bytes(msg_type, payload).len() == HEADER_SIZE + payload.len(),
        announced_len(frame_bytes(msg_type, payload)) == payload.len(),
        holds_frame(frame_bytes(msg_type, payload)),
        first_frame(frame_bytes(msg_type, payload)) == (FrameModel { msg_type, payload }),
        after_first(frame_bytes(msg_type, payload)) == Seq::<u8>::empty(),
{
    let image = frame_bytes(msg_type, payload);
    assert(image[1] == low_byte(payload.len()));
    assert(image[2] == high_byte(payload.len()));
    assert(first_frame(image).payload =~= payload);
    assert(after_first(image) =~= Seq::<u8>::empty());
}

/// A frame that is encoded and then decoded comes back byte for byte: the
/// same type, the same length, the same payload, with nothing left over. This
/// holds wherever the encoded bytes are cut into what was kept and what
/// arrived.
pub proof fn lemma_encode_decode_roundtrip(msg_type: u8, payload: Seq<u8>, cut: int)
    requires
        payload.len() <= MAX_PAYLOAD,
        0 <= cut <= HEADER_SIZE + payload.len(),
    ensures
        decode_step(
            frame_bytes(msg_type, payload).subrange(0, cut),
            frame_bytes(msg_type, payload).subrange(cut, HEADER_SIZE + payload.len()),
        ) == (Some(FrameModel { msg_type, payload }), Seq::<u8>::empty()),
{
    let image = frame_bytes(msg_type, payload);
    lemma_frame_bytes_shape(msg_type, payload);
    assert(image.subrange(0, cut) + image.subrange(cut, HEADER_SIZE + payload.len()) =~= image);
}

/// A frame followed by anything decodes to that frame, and the rest is what
/// followed.
pub proof fn lemma_frame_then_rest(msg_type: u8, payload: Seq<u8>, rest: Seq<u8>)
    requires
        payload.len() <= MAX_PAYLOAD,
    ensures
        holds_frame(frame_bytes(msg_type, payload) + rest),
        first_frame(frame_bytes(msg_type, payload) + rest) == (FrameModel { msg_type, payload }),
        after_first(frame_bytes(msg_type, payload) + rest) == rest,
{
    let image = frame_bytes(msg_type, payload);
    let buf = image + rest;
    lemma_frame_bytes_shape(msg_type, payload);
    assert(buf[1] == image[1]);
    assert(buf[2] == image[2]);
    assert(first_frame(buf).payload =~= payload);
    assert(after_first(buf) =~= rest);
}

/// An encoded frame that is not all there yet holds no frame: the decoder
/// waits.
pub proof fn lemma_partial_frame_waits(msg_type: u8, payload: Seq<u8>, cut: int)
    requires
        payload.len() <= MAX_PAYLOAD,
        0 <= cut < HEADER_SIZE + payload.len(),
    ensures
        !holds_frame(frame_bytes(msg_type, payload).subrange(0, cut)),
{
    let image = frame_bytes(msg_type, payload);
    lemma_frame_bytes_shape(msg_type, payload);
    if cut >= HEADER_SIZE {
        let part = image.subrange(0, cut);
        assert(part[1] == image[1]);
        assert(part[2] == image[2]);
    }
}

/// Handing the decoder one encoded frame a byte at a time, with `cut` bytes
/// already kept, yields that frame once and then goes on with what follows.
proof fn lemma_bytewise_one_frame(msg_type: u8, payload: Seq<u8>, cut: int, more: Seq<u8>)
    requires
        payload.len() <= MAX_PAYLOAD,
        0 <= cut < HEADER_SIZE + payload.len(),
    ensures
        feed_bytewise(
            frame_bytes(msg_type, payload).subrange(0, cut),
            frame_bytes(msg_type, payload).subrange(cut, HEADER_SIZE + payload.len()) + more,
        ) == (
            seq![FrameModel { msg_type, payload }] + feed_bytewise(Seq::empty(), more).0,
            feed_bytewise(Seq::empty(), more).1,
        ),
    decreases HEADER_SIZE + payload.len() - cut,
{
    let image = frame_bytes(msg_type, payload);
    let total = HEADER_SIZE + payload.len();
    lemma_frame_bytes_shape(msg_type, payload);
    let kept = image.subrange(0, cut);
    let stream = image.subrange(cut, total) + more;
    assert(stream[0] == image[cut]);
    assert(kept + seq![stream[0]] =~= image.subrange(0, cut + 1));
    if cut + 1 == total {
        assert(image.subrange(0, cut + 1) =~= image);
        assert(stream.skip(1) =~= more);
    } else {
        lemma_partial_frame_waits(msg_type, payload, cut + 1);
        assert(stream.skip(1) =~= image.subrange(cut + 1, total) + more);
        lemma_bytewise_one_frame(msg_type, payload, cut + 1, more);
    }
}

/// A stream that carries well-formed frames, handed to the decoder one byte
/// at a time, yields exactly those frames, in order, and no byte is lost or
/// left behind.
pub proof fn lemma_bytewise_feeding(frames: Seq<FrameModel>)
    requires
        all_encodable(frames),
    ensures
        feed_bytewise(Seq::empty(), stream_of(frames)) == (frames, Seq::<u8>::empty()),
    decreases frames.len(),
{
    if frames.len() > 0 {
        let head = frames[0];
        let later = frames.skip(1);
        let image = frame_bytes(head.msg_type, head.payload);
        assert(all_encodable(later)) by {
            assert forall|i: int| 0 <= i < later.len() implies (#[trigger] later[i]).payload.len()
                <= MAX_PAYLOAD by {
                assert(later[i] == frames[i + 1]);
            }
        }
        lemma_bytewise_feeding(later);
        lemma_bytewise_one_frame(head.msg_type, head.payload, 0, stream_of(later));
        lemma_frame_bytes_shape(head.msg_type, head.payload);
        assert(image.subrange(0, 0) =~= Seq::<u8>::empty());
        assert(image.subrange(0, HEADER_SIZE + head.payload.len()) =~= image);
        assert(seq![head] + later =~= frames);
    }
}

/// What is left behind the whole frames holds no whole frame: it is the
/// beginning of one header, or one header with the beginning of its payload.
pub proof fn lemma_tail_holds_no_frame(buf: Seq<u8>)
    ensures
        !holds_frame(tail_of(buf)),
        tail_of(buf).len() <= buf.len(),
    decreases buf.len(),
{
    if holds_frame(buf) {
        lemma_tail_holds_no_frame(after_first(buf));
    }
}

/// Taking all whole frames off a stream of well-formed frames, followed by
/// the beginning of one more, yields those frames and keeps the beginning.
pub proof fn lemma_frames_of_stream(frames: Seq<FrameModel>, partial: Seq<u8>)
    requires
        all_encodable(frames),
        !holds_frame(partial),
    ensures
        frames_in(stream_of(frames) + partial) == frames,
        tail_of(stream_of(frames) + partial) == partial,
    decreases frames.len(),
{
    if frames.len() == 0 {
        assert(stream_of(frames) + partial =~= partial);
        assert(frames =~= Seq::<FrameModel>::empty());
    } else {
        let head = frames[0];
        let later = frames.skip(1);
        assert(all_encodable(later)) by {
            assert forall|i: int| 0 <= i < later.len() implies (#[trigger] later[i]).payload.len()
                <= MAX_PAYLOAD by {
                assert(later[i] == frames[i + 1]);
            }
        }
        lemma_frames_of_stream(later, partial);
        lemma_frame_then_rest(head.msg_type, head.payload, stream_of(later) + partial);
        assert(stream_of(frames) + partial =~= frame_bytes(head.msg_type, head.payload) + (
        stream_of(later) + partial));
        assert(seq![head] + later =~= frames);
    }
}

/// However a stream is cut into two reads, the frames that come out are the
/// same: those of the first read, then those of what it left behind joined
/// with the second read.
pub proof fn lemma_chunked_feeding(first: Seq<u8>, second: Seq<u8>)
    ensures
        frames_in(first + second) == frames_in(first) + frames_in(tail_of(first) + second),
        tail_of(first + second) == tail_of(tail_of(first) + second),
    decreases first.len(),
{
    if holds_frame(first) {
        let joined = first + second;
        assert(joined[1] == first[1]);
        assert(joined[2] == first[2]);
        assert(holds_frame(joined));
        assert(first_frame(joined).payload =~= first_frame(first).payload);
        assert(after_first(joined) =~= after_first(first) + second);
        lemma_chunked_feeding(after_first(first), second);
        assert(seq![first_frame(first)] + (frames_in(after_first(first)) + frames_in(
            tail_of(after_first(first)) + second,
        )) =~= (seq![first_frame(first)] + frames_in(after_first(first))) + frames_in(
            tail_of(after_first(first)) + second,
        ));
    } else {
        assert(Seq::<FrameModel>::empty() + frames_in(first + second) =~= frames_in(
            first + second,
        ));
    }
}

} // verus!

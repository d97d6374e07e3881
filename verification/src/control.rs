//! The control channel: what clients send to the router while it listens for
//! inputs, and what the router sends to the session. It carries single command
//! bytes and input messages. An input message is the byte 5, the length of the
//! input in two bytes (low byte first), and the input.

use crate::codec::{
    announced_len, encode, first_frame, frame_bytes, holds_frame, FrameError, HEADER_SIZE,
    MAX_PAYLOAD,
};
use vstd::prelude::*;
use vstd::slice::{slice_subrange, slice_to_vec};

verus! {

/// The byte that opens an input message.
pub const INPUT_MARK: u8 = 5;

/// One item of the control channel.
#[derive(Clone, Debug, PartialEq, Eq)]
pub enum Signal {
    /// A single command byte.
    Command(u8),
    /// An input message; this is the input it carries.
    Input(Vec<u8>),
}

/// A control-channel item, as a mathematical value.
pub enum SignalModel {
    Command(u8),
    Input(Seq<u8>),
}

impl View for Signal {
    type V = SignalModel;

    open spec fn view(&self) -> SignalModel {
        match self {
            Signal::Command(byte) => SignalModel::Command(*byte),
            Signal::Input(bytes) => SignalModel::Input(bytes@),
        }
    }
}

/// The models of a list of items, in order.
pub open spec fn signal_models(signals: Seq<Signal>) -> Seq<SignalModel> {
    Seq::new(signals.len(), |i: int| signals[i]@)
}

/// The wire image of an item.
pub open spec fn signal_bytes(signal: SignalModel) -> Seq<u8> {
    match signal {
        SignalModel::Command(byte) => seq![byte],
        SignalModel::Input(bytes) => frame_bytes(INPUT_MARK, bytes),
    }
}

/// How many bytes the item at the front of `buf` takes, or 0 if it is not
/// all there yet.
pub open spec fn signal_size(buf: Seq<u8>) -> int {
    if buf.len() == 0 {
        0
    } else if buf[0] != INPUT_MARK {
        1
    } else if holds_frame(buf) {
        HEADER_SIZE + announced_len(buf)
    } else {
        0
    }
}

/// The item at the front of `buf`.
pub open spec fn signal_at(buf: Seq<u8>) -> SignalModel
    recommends
        signal_size(buf) > 0,
{
    if buf[0] != INPUT_MARK {
        SignalModel::Command(buf[0])
    } else {
        SignalModel::Input(first_frame(buf).payload)
    }
}

/// Every whole item in `buf`, front to back.
pub open spec fn signals_in(buf: Seq<u8>) -> Seq<SignalModel>
    decreases buf.len(),
{
    if signal_size(buf) > 0 {
        seq![signal_at(buf)] + signals_in(buf.skip(signal_size(buf)))
    } else {
        Seq::empty()
    }
}

/// What is left of `buf` behind its whole items: nothing, or an input
/// message that is not all there yet.
pub open spec fn signals_tail(buf: Seq<u8>) -> Seq<u8>
    decreases buf.len(),
{
    if signal_size(buf) > 0 {
        signals_tail(buf.skip(signal_size(buf)))
    } else {
        buf
    }
}

/// Builds an input message. An input longer than the two length bytes can
/// announce is refused.
pub fn input_message(input: &[u8]) -> (out: Result<Vec<u8>, FrameError>)
    ensures
        input@.len() <= MAX_PAYLOAD ==> out is Ok && out->Ok_0@ == signal_bytes(
            SignalModel::Input(input@),
        ),
        input@.len() > MAX_PAYLOAD ==> out == Err::<Vec<u8>, FrameError>(FrameError::TooLong),
{
    encode(INPUT_MARK, input)
}

/// Takes every whole item off the front of `buf`, in order, and hands back
/// the unfinished rest.
pub fn split_signals(buf: &[u8]) -> (out: (Vec<Signal>, Vec<u8>))
    ensures
        signal_models(out.0@) == signals_in(buf@),
        out.1@ == signals_tail(buf@),
        signal_size(out.1@) == 0,
{
    let mut signals: Vec<Signal> = Vec::new();
    let mut pos: usize = 0;
    let len = buf.len();
    proof {
        assert(buf@.skip(0) =~= buf@);
        assert(signal_models(signals@) =~= Seq::<SignalModel>::empty());
    }
    loop
        invariant
            len == buf@.len(),
            pos <= len,
            signals_in(buf@) == signal_models(signals@) + signals_in(buf@.skip(pos as int)),
            signals_tail(buf@) == signals_tail(buf@.skip(pos as int)),
        ensures
            pos <= len,
            signal_size(buf@.skip(pos as int)) == 0,
            signals_in(buf@) == signal_models(signals@),
            signals_tail(buf@) == buf@.skip(pos as int),
        decreases len - pos,
    {
        let ghost here = buf@.skip(pos as int);
        if pos == len {
            assert(signal_models(signals@) + Seq::<SignalModel>::empty() =~= signal_models(
                signals@,
            ));
            break;
        }
        let first = buf[pos];
        assert(first == here[0]);
        let signal;
        let used: usize;
        if first != INPUT_MARK {
            signal = Signal::Command(first);
            used = 1;
        } else {
            if len - pos < HEADER_SIZE {
                assert(signal_models(signals@) + Seq::<SignalModel>::empty() =~= signal_models(
                    signals@,
                ));
                break;
            }
            let announced: usize = buf[pos + 1] as usize + 256 * (buf[pos + 2] as usize);
            assert(announced == announced_len(here));
            if len - pos - HEADER_SIZE < announced {
                assert(signal_models(signals@) + Seq::<SignalModel>::empty() =~= signal_models(
                    signals@,
                ));
                break;
            }
            let body = slice_to_vec(
                slice_subrange(buf, pos + HEADER_SIZE, pos + HEADER_SIZE + announced),
            );
            assert(body@ =~= first_frame(here).payload);
            signal = Signal::Input(body);
            used = HEADER_SIZE + announced;
        }
        proof {
            assert(signal_size(here) == used);
            assert(signal@ == signal_at(here));
            assert(here.skip(used as int) =~= buf@.skip(pos + used));
            assert(signal_models(signals@.push(signal)) =~= signal_models(signals@) + seq![
                signal@,
            ]);
            assert(signal_models(signals@) + (seq![signal@] + signals_in(here.skip(used as int)))
                =~= signal_models(signals@.push(signal)) + signals_in(here.skip(used as int)));
        }
        signals.push(signal);
        pos = pos + used;
    }
    let rest = slice_to_vec(slice_subrange(buf, pos, len));
    assert(rest@ =~= buf@.skip(pos as int));
    (signals, rest)
}

} // verus!

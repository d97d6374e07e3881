//! The input listener: what the router does with the bytes of a client that
//! it keeps open during a run. Input messages are passed on to the session
//! as they are; the end mark, or the client's hanging up, ends the run.

use crate::codec::{append_bytes, MAX_PAYLOAD};
use crate::control::{
    input_message, signal_bytes, signal_models, signals_in, signals_tail, split_signals, Signal,
    SignalModel,
};
use crate::robot::{event_type_id, EventType};
use vstd::prelude::*;
use vstd::slice::slice_to_vec;

verus! {

/// The byte with which a client ends its run.
pub const END_MARK: u8 = 4;

/// What is passed on to the session for one item from the client, and
/// whether the item ends the listening.
pub open spec fn heard(signal: SignalModel) -> (bool, Seq<u8>) {
    match signal {
        SignalModel::Command(byte) => if byte == END_MARK {
            (true, seq![event_type_id(EventType::RobotStop)])
        } else {
            (false, Seq::empty())
        },
        SignalModel::Input(input) => if input.len() <= MAX_PAYLOAD {
            (false, signal_bytes(signal))
        } else {
            (false, Seq::empty())
        },
    }
}

/// What is passed on to the session for a list of items, and whether the
/// listening has ended. Nothing that follows the end mark is passed on.
pub open spec fn heard_all(signals: Seq<SignalModel>) -> (bool, Seq<u8>)
    decreases signals.len(),
{
    if signals.len() == 0 {
        (false, Seq::empty())
    } else {
        let before = heard_all(signals.drop_last());
        if before.0 {
            before
        } else {
            let step = heard(signals.last());
            (step.0, before.1 + step.1)
        }
    }
}

/// The listener of one client.
pub struct InputListener {
    pending: Vec<u8>,
    ended: bool,
}

impl InputListener {
    /// The bytes kept from the client's stream: the beginning of an input
    /// message that is not all there yet.
    pub closed spec fn pending(&self) -> Seq<u8> {
        self.pending@
    }

    /// Whether the listening has ended.
    pub closed spec fn has_ended(&self) -> bool {
        self.ended
    }

    /// A listener that has heard nothing.
    pub fn new() -> (out: InputListener)
        ensures
            !out.has_ended(),
            out.pending() == Seq::<u8>::empty(),
    {
        InputListener { pending: Vec::new(), ended: false }
    }

    /// Whether the listening has ended.
    pub fn ended(&self) -> (out: bool)
        ensures
            out == self.has_ended(),
    {
        self.ended
    }

    /// Takes bytes read from the client and gives the bytes to write to the
    /// session. Input messages are passed on whole, in order; other bytes are
    /// skipped; the end mark is answered with a stop command, and nothing is
    /// passed on after it.
    pub fn feed(&mut self, bytes: &[u8]) -> (out: Vec<u8>)
        ensures
            old(self).has_ended() ==> out@ == Seq::<u8>::empty() && final(self).has_ended()
                && final(self).pending() == old(self).pending(),
            !old(self).has_ended() ==> {
                let buf = old(self).pending() + bytes@;
                &&& out@ == heard_all(signals_in(buf)).1
                &&& final(self).has_ended() == heard_all(signals_in(buf)).0
                &&& final(self).pending() == signals_tail(buf)
            },
    {
        let mut out: Vec<u8> = Vec::new();
        if self.ended {
            return out;
        }
        let mut buf = slice_to_vec(self.pending.as_slice());
        append_bytes(&mut buf, bytes);
        let (signals, rest) = split_signals(buf.as_slice());
        self.pending = rest;
        let ghost all = signals_in(buf@);
        let mut i: usize = 0;
        proof {
            assert(all.take(0) =~= Seq::<SignalModel>::empty());
        }
        while i < signals.len()
            invariant
                i <= signals.len(),
                signal_models(signals@) == all,
                (self.ended, out@) == heard_all(all.take(i as int)),
                self.pending@ == signals_tail(buf@),
            decreases signals.len() - i,
        {
            proof {
                assert(all[i as int] == signals@[i as int]@);
                assert(all.take(i + 1).drop_last() =~= all.take(i as int));
                assert(all.take(i + 1).last() == all[i as int]);
            }
            if !self.ended {
                match &signals[i] {
                    Signal::Command(byte) => {
                        if *byte == END_MARK {
                            out.push(EventType::RobotStop.id());
                            self.ended = true;
                        }
                    },
                    Signal::Input(input) => {
                        match input_message(input.as_slice()) {
                            Ok(message) => {
                                append_bytes(&mut out, message.as_slice());
                            },
                            Err(_) => {},
                        }
                    },
                }
                proof {
                    let step = heard(all[i as int]);
                    let before = heard_all(all.take(i as int));
                    assert(out@ =~= before.1 + step.1);
                }
            }
            i = i + 1;
        }
        proof {
            assert(all.take(i as int) =~= all);
        }
        out
    }

    /// The client hung up. If the run was not ended yet, it is ended now:
    /// the bytes to write to the session are a stop command.
    pub fn hang_up(&mut self) -> (out: Vec<u8>)
        ensures
            final(self).has_ended(),
            final(self).pending() == old(self).pending(),
            old(self).has_ended() ==> out@ == Seq::<u8>::empty(),
            !old(self).has_ended() ==> out@ == seq![event_type_id(EventType::RobotStop)],
    {
        let mut out: Vec<u8> = Vec::new();
        if !self.ended {
            out.push(EventType::RobotStop.id());
            self.ended = true;
            assert(out@ =~= seq![event_type_id(EventType::RobotStop)]);
        }
        out
    }
}

} // verus!

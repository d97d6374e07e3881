//! The connect protocol: how often the robot is dialled, how long each try
//! may take, and what the caller is told in the end.

use vstd::prelude::*;

verus! {

/// The port on which the robot's runtime listens.
pub const ROBOT_PORT: u16 = 8101;

/// Seconds that one try to reach the robot may take.
pub const DIAL_TIMEOUT_SECS: u64 = 5;

/// How often a failed try to reach the robot is repeated.
pub const DIAL_RETRIES: u32 = 4;

/// Seconds between two tries to reach the robot.
pub const DIAL_PAUSE_SECS: u64 = 2;

/// How often a failed try to reach the session's rendezvous socket is
/// repeated.
pub const RENDEZVOUS_RETRIES: u32 = 5;

/// Seconds between two tries to reach the session's rendezvous socket.
pub const RENDEZVOUS_PAUSE_SECS: u64 = 1;

/// The byte by which the host makes itself known to the robot.
pub const IDENTIFICATION: u8 = 1;

/// The code for a connection that stands.
pub const CONNECTED: u8 = 200;

/// The code for a connection that could not be made.
pub const NOT_CONNECTED: u8 = 100;

/// Counts failed tries against a number of retries.
#[derive(Clone, Copy, Debug, PartialEq, Eq, Structural)]
pub struct Attempts {
    /// Tries that have failed.
    pub failures: u32,
    /// Retries that are allowed.
    pub retries: u32,
    /// Seconds to wait before a retry.
    pub pause_secs: u64,
}

impl Attempts {
    /// No try has failed yet.
    pub fn new(retries: u32, pause_secs: u64) -> (out: Attempts)
        ensures
            out == (Attempts { failures: 0, retries, pause_secs }),
    {
        Attempts { failures: 0, retries, pause_secs }
    }

    /// The tries to reach the robot.
    pub fn robot() -> (out: Attempts)
        ensures
            out == (Attempts { failures: 0, retries: DIAL_RETRIES, pause_secs: DIAL_PAUSE_SECS }),
    {
        Attempts::new(DIAL_RETRIES, DIAL_PAUSE_SECS)
    }

    /// The tries to reach the session's rendezvous socket.
    pub fn rendezvous() -> (out: Attempts)
        ensures
            out == (Attempts {
                failures: 0,
                retries: RENDEZVOUS_RETRIES,
                pause_secs: RENDEZVOUS_PAUSE_SECS,
            }),
    {
        Attempts::new(RENDEZVOUS_RETRIES, RENDEZVOUS_PAUSE_SECS)
    }

    /// Notes that a try failed. While retries are left, the answer is the
    /// number of seconds to wait before the next try; once they are used up,
    /// the answer is nothing, and it stays so.
    pub fn failed(&mut self) -> (out: Option<u64>)
        ensures
            old(self).failures < old(self).retries ==> out == Some(old(self).pause_secs)
                && *final(self) == (Attempts {
                failures: (old(self).failures + 1) as u32,
                ..*old(self)
            }),
            old(self).failures >= old(self).retries ==> out is None && *final(self) == *old(self),
    {
        if self.failures < self.retries {
            self.failures = self.failures + 1;
            Some(self.pause_secs)
        } else {
            None
        }
    }
}

/// What happened to the last step of the connect protocol.
#[derive(Clone, Copy, Debug, PartialEq, Eq, Structural)]
pub enum ConnectEvent {
    /// The address was read. `valid` says whether it names a host.
    Address { valid: bool },
    /// A try to reach the robot ended.
    Dialed { reached: bool },
    /// The identification byte was written and flushed, or could not be.
    Identified { sent: bool },
}

/// What the connect protocol asks for next.
#[derive(Clone, Copy, Debug, PartialEq, Eq, Structural)]
pub enum ConnectStep {
    /// Wait `pause_secs`, then try to reach the robot, giving the try
    /// `timeout_secs`.
    Dial { pause_secs: u64, timeout_secs: u64 },
    /// Write this byte to the robot and flush.
    Identify { byte: u8 },
    /// The protocol has ended with this code.
    Done { code: u8 },
}

/// The step that follows an event, given the tries made so far.
pub open spec fn connect_next(attempts: Attempts, event: ConnectEvent) -> ConnectStep {
    match event {
        ConnectEvent::Address { valid } => if valid {
            ConnectStep::Dial { pause_secs: 0, timeout_secs: DIAL_TIMEOUT_SECS }
        } else {
            ConnectStep::Done { code: NOT_CONNECTED }
        },
        ConnectEvent::Dialed { reached } => if reached {
            ConnectStep::Identify { byte: IDENTIFICATION }
        } else if attempts.failures < attempts.retries {
            ConnectStep::Dial { pause_secs: attempts.pause_secs, timeout_secs: DIAL_TIMEOUT_SECS }
        } else {
            ConnectStep::Done { code: NOT_CONNECTED }
        },
        ConnectEvent::Identified { sent } => if sent {
            ConnectStep::Done { code: CONNECTED }
        } else {
            ConnectStep::Done { code: NOT_CONNECTED }
        },
    }
}

/// The tries after an event: a try that failed is counted while retries are
/// left.
pub open spec fn attempts_after(attempts: Attempts, event: ConnectEvent) -> Attempts {
    if event == (ConnectEvent::Dialed { reached: false }) && attempts.failures < attempts.retries {
        Attempts { failures: (attempts.failures + 1) as u32, ..attempts }
    } else {
        attempts
    }
}

/// Takes what happened to the last step of the connect protocol and says
/// what to do next. The protocol starts with the address being read.
pub fn connect_step(attempts: &mut Attempts, event: ConnectEvent) -> (out: ConnectStep)
    ensures
        out == connect_next(*old(attempts), event),
        *final(attempts) == attempts_after(*old(attempts), event),
{
    match event {
        ConnectEvent::Address { valid } => {
            if valid {
                ConnectStep::Dial { pause_secs: 0, timeout_secs: DIAL_TIMEOUT_SECS }
            } else {
                ConnectStep::Done { code: NOT_CONNECTED }
            }
        },
        ConnectEvent::Dialed { reached } => {
            if reached {
                ConnectStep::Identify { byte: IDENTIFICATION }
            } else {
                match attempts.failed() {
                    Some(pause_secs) => ConnectStep::Dial {
                        pause_secs,
                        timeout_secs: DIAL_TIMEOUT_SECS,
                    },
                    None => ConnectStep::Done { code: NOT_CONNECTED },
                }
            }
        },
        ConnectEvent::Identified { sent } => {
            if sent {
                ConnectStep::Done { code: CONNECTED }
            } else {
                ConnectStep::Done { code: NOT_CONNECTED }
            }
        },
    }
}

} // verus!

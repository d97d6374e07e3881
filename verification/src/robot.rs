//! The robot session: the run-mode machine, the telemetry slot and the log
//! tee, driven by the frames that the robot sends and by the commands that
//! the router passes on.
//!
//! The session owns no socket. Bytes read from the robot go into
//! [`Robot::receive`], bytes read from the router into [`Robot::command`];
//! both answer with the actions to carry out, in order.

use crate::codec::{
    append_bytes, encode, end_of_stream, frame_bytes, frame_models, frame_within, frames_in,
    holds_frame, split_frames, tail_of, Frame, FrameError, FrameModel, MAX_PAYLOAD,
};
use crate::control::{
    signal_models, signal_size, signals_in, signals_tail, split_signals, Signal, SignalModel,
};
use crate::logtee::{LogAction, LogActionModel, LogTee};
use crate::payload::{
    decode_log, decode_run_mode, lemma_varint_nonempty, mode_of_payload, run_mode_bytes,
    run_mode_payload, text_of_payload, user_inputs_bytes, user_inputs_payload, Mode,
};
use crate::telemetry::{devices_reply_bytes, devices_reply_within, TelemetryCache};
use vstd::prelude::*;
use vstd::slice::slice_to_vec;

verus! {

/// The kinds of message that travel between host and robot.
#[derive(Clone, Copy, Debug, PartialEq, Eq, Structural)]
pub enum MsgType {
    RunMode,
    StartPos,
    Log,
    DeviceData,
    Inputs,
    TimeStamps,
}

/// The type byte that stands for a kind of message.
pub open spec fn msg_type_id(msg_type: MsgType) -> u8 {
    match msg_type {
        MsgType::RunMode => 0,
        MsgType::StartPos => 1,
        MsgType::Log => 2,
        MsgType::DeviceData => 3,
        MsgType::Inputs => 5,
        MsgType::TimeStamps => 6,
    }
}

/// The kind of message that a type byte stands for, if any.
pub open spec fn msg_type_of(id: u8) -> Option<MsgType> {
    if id == 0 {
        Some(MsgType::RunMode)
    } else if id == 1 {
        Some(MsgType::StartPos)
    } else if id == 2 {
        Some(MsgType::Log)
    } else if id == 3 {
        Some(MsgType::DeviceData)
    } else if id == 5 {
        Some(MsgType::Inputs)
    } else if id == 6 {
        Some(MsgType::TimeStamps)
    } else {
        None
    }
}

impl MsgType {
    /// The type byte that stands for this kind of message.
    pub fn id(self) -> (out: u8)
        ensures
            out == msg_type_id(self),
    {
        match self {
            MsgType::RunMode => 0,
            MsgType::StartPos => 1,
            MsgType::Log => 2,
            MsgType::DeviceData => 3,
            MsgType::Inputs => 5,
            MsgType::TimeStamps => 6,
        }
    }

    /// The kind of message that a type byte stands for, if any.
    pub fn from_id(id: u8) -> (out: Option<MsgType>)
        ensures
            out == msg_type_of(id),
    {
        match id {
            0 => Some(MsgType::RunMode),
            1 => Some(MsgType::StartPos),
            2 => Some(MsgType::Log),
            3 => Some(MsgType::DeviceData),
            5 => Some(MsgType::Inputs),
            6 => Some(MsgType::TimeStamps),
            _ => None,
        }
    }
}

/// The commands that the router sends to the session.
#[derive(Clone, Copy, Debug, PartialEq, Eq, Structural)]
pub enum EventType {
    /// Start a teleoperated run.
    RobotStart,
    /// Stop the run.
    RobotStop,
    /// Start an autonomous run.
    RobotAuto,
    /// Hand out the telemetry that arrived last.
    RobotGiveDevices,
    /// Forward an input to the robot.
    KeyPress,
}

/// The command byte that stands for an event.
pub open spec fn event_type_id(event: EventType) -> u8 {
    match event {
        EventType::RobotStart => 1,
        EventType::RobotStop => 2,
        EventType::RobotAuto => 3,
        EventType::RobotGiveDevices => 4,
        EventType::KeyPress => 5,
    }
}

/// The event that a command byte stands for, if any.
pub open spec fn event_type_of(id: u8) -> Option<EventType> {
    if id == 1 {
        Some(EventType::RobotStart)
    } else if id == 2 {
        Some(EventType::RobotStop)
    } else if id == 3 {
        Some(EventType::RobotAuto)
    } else if id == 4 {
        Some(EventType::RobotGiveDevices)
    } else if id == 5 {
        Some(EventType::KeyPress)
    } else {
        None
    }
}

impl EventType {
    /// The command byte that stands for this event.
    pub fn id(self) -> (out: u8)
        ensures
            out == event_type_id(self),
    {
        match self {
            EventType::RobotStart => 1,
            EventType::RobotStop => 2,
            EventType::RobotAuto => 3,
            EventType::RobotGiveDevices => 4,
            EventType::KeyPress => 5,
        }
    }

    /// The event that a command byte stands for, if any.
    pub fn from_id(id: u8) -> (out: Option<EventType>)
        ensures
            out == event_type_of(id),
    {
        match id {
            1 => Some(EventType::RobotStart),
            2 => Some(EventType::RobotStop),
            3 => Some(EventType::RobotAuto),
            4 => Some(EventType::RobotGiveDevices),
            5 => Some(EventType::KeyPress),
            _ => None,
        }
    }
}

/// Why the session let something pass without acting on it.
#[derive(Clone, Copy, Debug, PartialEq, Eq, Structural)]
pub enum Discard {
    /// A frame whose type byte names no kind of message.
    UnknownMessage(u8),
    /// A command byte that asks for nothing: an unknown one, or the input
    /// mark without its message.
    StrayCommand(u8),
    /// A run-mode frame whose payload announces no mode.
    BadRunMode,
    /// A log frame whose payload holds no text.
    BadLog,
    /// An input too long to be framed.
    OversizedInput,
}

/// What the session asks its caller to do.
#[derive(Clone, Debug, PartialEq, Eq)]
pub enum Action {
    /// Write this run-mode frame to the robot and flush. `mode` is the mode
    /// that the frame announces.
    SendRunMode { mode: Mode, frame: Vec<u8> },
    /// Write this inputs frame to the robot and flush.
    SendInputs { frame: Vec<u8> },
    /// Write this devices reply to the router and flush.
    ReplyDevices { reply: Vec<u8> },
    /// Do this to the log scratch file.
    Log(LogAction),
    /// Nothing was done; the reason may be noted.
    Discarded(Discard),
}

/// An action, as a mathematical value.
pub enum ActionModel {
    SendRunMode { mode: Mode, frame: Seq<u8> },
    SendInputs { frame: Seq<u8> },
    ReplyDevices { reply: Seq<u8> },
    Log(LogActionModel),
    Discarded(Discard),
}

impl View for Action {
    type V = ActionModel;

    open spec fn view(&self) -> ActionModel {
        match self {
            Action::SendRunMode { mode, frame } => ActionModel::SendRunMode {
                mode: *mode,
                frame: frame@,
            },
            Action::SendInputs { frame } => ActionModel::SendInputs { frame: frame@ },
            Action::ReplyDevices { reply } => ActionModel::ReplyDevices { reply: reply@ },
            Action::Log(action) => ActionModel::Log(action@),
            Action::Discarded(reason) => ActionModel::Discarded(*reason),
        }
    }
}

/// The models of a list of actions, in order.
pub open spec fn action_models(actions: Seq<Action>) -> Seq<ActionModel> {
    Seq::new(actions.len(), |i: int| actions[i]@)
}

/// What the session knows: the mode it believes the robot to be in, and the
/// device telemetry that arrived last.
pub struct SessionModel {
    pub run_state: Mode,
    pub telemetry: Option<Seq<u8>>,
}

/// The session before anything happened: idle, with no telemetry.
pub open spec fn initial_session() -> SessionModel {
    SessionModel { run_state: Mode::Idle, telemetry: None }
}

/// The frame that announces a mode to the robot.
pub open spec fn run_mode_frame(mode: Mode) -> Seq<u8> {
    frame_bytes(msg_type_id(MsgType::RunMode), run_mode_bytes(mode))
}

/// The frame that carries one input to the robot.
pub open spec fn inputs_frame(input: Seq<u8>) -> Seq<u8> {
    frame_bytes(msg_type_id(MsgType::Inputs), user_inputs_bytes(input))
}

/// What a change of mode does to the log file: a run that starts from idle
/// starts the file afresh.
pub open spec fn rotation(before: Mode, after: Mode) -> Seq<ActionModel> {
    if before == Mode::Idle && after != Mode::Idle {
        seq![ActionModel::Log(LogActionModel::Truncate)]
    } else {
        Seq::empty()
    }
}

/// What a local command to change mode does: the log file is rotated if a
/// run starts, the mode is announced to the robot, and the session takes it
/// as the robot's mode.
pub open spec fn switch_effect(s: SessionModel, mode: Mode) -> (SessionModel, Seq<ActionModel>) {
    (
        SessionModel { run_state: mode, ..s },
        rotation(s.run_state, mode) + seq![
            ActionModel::SendRunMode { mode, frame: run_mode_frame(mode) },
        ],
    )
}

/// What a frame from the robot does to the session, and the actions that it
/// calls for.
pub open spec fn frame_effect(s: SessionModel, frame: FrameModel) -> (
    SessionModel,
    Seq<ActionModel>,
) {
    match msg_type_of(frame.msg_type) {
        None => (s, seq![ActionModel::Discarded(Discard::UnknownMessage(frame.msg_type))]),
        Some(MsgType::RunMode) => match mode_of_payload(frame.payload) {
            None => (s, seq![ActionModel::Discarded(Discard::BadRunMode)]),
            Some(mode) => (SessionModel { run_state: mode, ..s }, rotation(s.run_state, mode)),
        },
        Some(MsgType::Log) => if s.run_state == Mode::Idle {
            (s, Seq::empty())
        } else {
            match text_of_payload(frame.payload) {
                None => (s, seq![ActionModel::Discarded(Discard::BadLog)]),
                Some(text) => (s, seq![ActionModel::Log(LogActionModel::Append(text))]),
            }
        },
        Some(MsgType::DeviceData) => (
            SessionModel { telemetry: Some(frame.payload), ..s },
            Seq::empty(),
        ),
        Some(_) => (s, Seq::empty()),
    }
}

/// What an item of the control channel does to the session, and the actions
/// that it calls for.
pub open spec fn signal_effect(s: SessionModel, signal: SignalModel) -> (
    SessionModel,
    Seq<ActionModel>,
) {
    match signal {
        SignalModel::Input(input) => if user_inputs_bytes(input).len() <= MAX_PAYLOAD {
            (s, seq![ActionModel::SendInputs { frame: inputs_frame(input) }])
        } else {
            (s, seq![ActionModel::Discarded(Discard::OversizedInput)])
        },
        SignalModel::Command(byte) => match event_type_of(byte) {
            Some(EventType::RobotStart) => switch_effect(s, Mode::Teleop),
            Some(EventType::RobotStop) => switch_effect(s, Mode::Idle),
            Some(EventType::RobotAuto) => switch_effect(s, Mode::Auto),
            Some(EventType::RobotGiveDevices) => (
                s,
                seq![ActionModel::ReplyDevices { reply: devices_reply_bytes(s.telemetry) }],
            ),
            _ => (s, seq![ActionModel::Discarded(Discard::StrayCommand(byte))]),
        },
    }
}

/// Something that reaches the session: an item from the router, or a frame
/// from the robot.
pub enum Stimulus {
    Signal(SignalModel),
    Frame(FrameModel),
}

/// What a stimulus does to the session, and the actions that it calls for.
pub open spec fn effect(s: SessionModel, stimulus: Stimulus) -> (SessionModel, Seq<ActionModel>) {
    match stimulus {
        Stimulus::Signal(signal) => signal_effect(s, signal),
        Stimulus::Frame(frame) => frame_effect(s, frame),
    }
}

/// The session after a sequence of stimuli, and all the actions that they
/// called for, in order.
pub open spec fn run(s: SessionModel, stimuli: Seq<Stimulus>) -> (SessionModel, Seq<ActionModel>)
    decreases stimuli.len(),
{
    if stimuli.len() == 0 {
        (s, Seq::empty())
    } else {
        let before = run(s, stimuli.drop_last());
        let step = effect(before.0, stimuli.last());
        (step.0, before.1 + step.1)
    }
}

/// Frames as stimuli.
pub open spec fn frame_stimuli(frames: Seq<FrameModel>) -> Seq<Stimulus> {
    Seq::new(frames.len(), |i: int| Stimulus::Frame(frames[i]))
}

/// Control-channel items as stimuli.
pub open spec fn signal_stimuli(signals: Seq<SignalModel>) -> Seq<Stimulus> {
    Seq::new(signals.len(), |i: int| Stimulus::Signal(signals[i]))
}

/// Takes `mode` as the robot's mode and tells the log tee.
fn change_mode(run_state: &mut Mode, log: &mut LogTee, mode: Mode) -> (out: Option<LogAction>)
    ensures
        *final(run_state) == mode,
        final(log).is_active() == (mode != Mode::Idle),
        !old(log).is_active() && mode != Mode::Idle ==> out is Some && out->Some_0@
            == LogActionModel::Truncate,
        old(log).is_active() || mode == Mode::Idle ==> out is None,
    no_unwind
{
    *run_state = mode;
    log.on_run_state_change(mode)
}

/// The session with the robot.
pub struct Robot {
    run_state: Mode,
    log: LogTee,
    telemetry: TelemetryCache,
    leftover: Vec<u8>,
    pending: Vec<u8>,
}

impl View for Robot {
    type V = SessionModel;

    closed spec fn view(&self) -> SessionModel {
        SessionModel { run_state: self.run_state, telemetry: self.telemetry@ }
    }
}

impl Robot {
    #[verifier::type_invariant]
    spec fn sound(&self) -> bool {
        &&& self.log.is_active() == (self.run_state != Mode::Idle)
        &&& !holds_frame(self.leftover@)
        &&& signal_size(self.pending@) == 0
        &&& self.telemetry@ is Some ==> self.telemetry@->Some_0.len() <= MAX_PAYLOAD
    }

    /// The bytes kept from the robot's stream: the beginning of a frame that
    /// is not all there yet.
    pub closed spec fn leftover(&self) -> Seq<u8> {
        self.leftover@
    }

    /// The bytes kept from the router's stream: the beginning of an input
    /// message that is not all there yet.
    pub closed spec fn pending(&self) -> Seq<u8> {
        self.pending@
    }

    /// A session that has seen nothing: idle, no telemetry, nothing kept.
    pub fn new() -> (out: Robot)
        ensures
            out@ == initial_session(),
            out.leftover() == Seq::<u8>::empty(),
            out.pending() == Seq::<u8>::empty(),
    {
        Robot {
            run_state: Mode::Idle,
            log: LogTee::new(),
            telemetry: TelemetryCache::new(),
            leftover: Vec::new(),
            pending: Vec::new(),
        }
    }

    /// The mode that the session believes the robot to be in.
    pub fn run_state(&self) -> (out: Mode)
        ensures
            out == self@.run_state,
    {
        self.run_state
    }

    /// Whether log text is being kept: true exactly while the robot is not
    /// idle.
    pub fn log_active(&self) -> (out: bool)
        ensures
            out == (self@.run_state != Mode::Idle),
    {
        proof {
            use_type_invariant(self);
        }
        self.log.active()
    }

    /// A copy of the telemetry that arrived last, if any did.
    pub fn telemetry_latest(&self) -> (out: Option<Vec<u8>>)
        ensures
            match out {
                Some(bytes) => self@.telemetry == Some(bytes@),
                None => self@.telemetry is None,
            },
    {
        self.telemetry.snapshot()
    }

    /// The kind of the message whose first byte is the type byte.
    pub fn query_message_type(&self, message: &Vec<u8>) -> (out: Option<MsgType>)
        requires
            message@.len() > 0,
        ensures
            out == msg_type_of(message@[0]),
    {
        MsgType::from_id(message[0])
    }

    /// The event that the first byte of a command stands for.
    pub fn query_event_type(&self, message: &Vec<u8>) -> (out: Option<EventType>)
        requires
            message@.len() > 0,
        ensures
            out == event_type_of(message@[0]),
    {
        EventType::from_id(message[0])
    }

    /// Frames a payload as a message of the given kind. A payload that the
    /// header cannot announce is refused, never cut short.
    pub fn compose_packet(&self, message: Vec<u8>, msg_type: MsgType) -> (out: Result<
        Vec<u8>,
        FrameError,
    >)
        ensures
            message@.len() <= MAX_PAYLOAD ==> out is Ok && out->Ok_0@ == frame_bytes(
                msg_type_id(msg_type),
                message@,
            ),
            message@.len() > MAX_PAYLOAD ==> out is Err && out->Err_0 == FrameError::TooLong,
    {
        encode(msg_type.id(), message.as_slice())
    }

    /// The frame that announces `mode` to the robot.
    pub fn send_run_mode(&self, mode: Mode) -> (out: Vec<u8>)
        ensures
            out@ == run_mode_frame(mode),
    {
        let payload = run_mode_payload(mode);
        frame_within(MsgType::RunMode.id(), payload.as_slice())
    }

    /// The frame that carries one input to the robot: the input's bytes
    /// wrapped as an inputs message with that single element. An input whose
    /// message would not fit a frame is refused.
    pub fn send_inputs(&self, input: &[u8]) -> (out: Result<Vec<u8>, FrameError>)
        ensures
            user_inputs_bytes(input@).len() <= MAX_PAYLOAD ==> out is Ok && out->Ok_0@
                == inputs_frame(input@),
            user_inputs_bytes(input@).len() > MAX_PAYLOAD ==> out is Err && out->Err_0
                == FrameError::TooLong,
    {
        if input.len() > MAX_PAYLOAD {
            proof {
                lemma_varint_nonempty(input@.len());
            }
            return Err(FrameError::TooLong);
        }
        let payload = user_inputs_payload(input);
        encode(MsgType::Inputs.id(), payload.as_slice())
    }

    /// Switches to `mode` on a local command.
    fn switch(&mut self, mode: Mode) -> (actions: Vec<Action>)
        ensures
            (final(self)@, action_models(actions@)) == switch_effect(old(self)@, mode),
            final(self).leftover() == old(self).leftover(),
            final(self).pending() == old(self).pending(),
    {
        proof {
            use_type_invariant(&*self);
        }
        let mut actions: Vec<Action> = Vec::new();
        let frame = self.send_run_mode(mode);
        let rotate = change_mode(&mut self.run_state, &mut self.log, mode);
        match rotate {
            Some(action) => {
                actions.push(Action::Log(action));
            },
            None => {},
        }
        actions.push(Action::SendRunMode { mode, frame });
        assert(action_models(actions@) =~= switch_effect(old(self)@, mode).1);
        actions
    }

    /// Takes one item from the router and says what is to be done.
    pub fn on_signal(&mut self, signal: &Signal) -> (actions: Vec<Action>)
        ensures
            (final(self)@, action_models(actions@)) == signal_effect(old(self)@, signal@),
            final(self).leftover() == old(self).leftover(),
            final(self).pending() == old(self).pending(),
    {
        proof {
            use_type_invariant(&*self);
        }
        match signal {
            Signal::Input(input) => {
                let mut actions: Vec<Action> = Vec::new();
                match self.send_inputs(input.as_slice()) {
                    Ok(frame) => {
                        actions.push(Action::SendInputs { frame });
                    },
                    Err(_) => {
                        actions.push(Action::Discarded(Discard::OversizedInput));
                    },
                }
                assert(action_models(actions@) =~= signal_effect(old(self)@, signal@).1);
                actions
            },
            Signal::Command(byte) => match EventType::from_id(*byte) {
                Some(EventType::RobotStart) => self.switch(Mode::Teleop),
                Some(EventType::RobotStop) => self.switch(Mode::Idle),
                Some(EventType::RobotAuto) => self.switch(Mode::Auto),
                Some(EventType::RobotGiveDevices) => {
                    let mut actions: Vec<Action> = Vec::new();
                    let snapshot = self.telemetry.snapshot();
                    let reply = devices_reply_within(&snapshot);
                    actions.push(Action::ReplyDevices { reply });
                    assert(action_models(actions@) =~= signal_effect(old(self)@, signal@).1);
                    actions
                },
                _ => {
                    let mut actions: Vec<Action> = Vec::new();
                    actions.push(Action::Discarded(Discard::StrayCommand(*byte)));
                    assert(action_models(actions@) =~= signal_effect(old(self)@, signal@).1);
                    actions
                },
            },
        }
    }

    /// Takes one frame from the robot and says what is to be done.
    pub fn on_frame(&mut self, frame: &Frame) -> (actions: Vec<Action>)
        ensures
            (final(self)@, action_models(actions@)) == frame_effect(old(self)@, frame@),
            final(self).leftover() == old(self).leftover(),
            final(self).pending() == old(self).pending(),
    {
        proof {
            use_type_invariant(&*self);
        }
        let mut actions: Vec<Action> = Vec::new();
        let id = frame.msg_type();
        match MsgType::from_id(id) {
            None => {
                actions.push(Action::Discarded(Discard::UnknownMessage(id)));
            },
            Some(MsgType::RunMode) => match decode_run_mode(frame.payload().as_slice()) {
                None => {
                    actions.push(Action::Discarded(Discard::BadRunMode));
                },
                Some(mode) => {
                    let rotate = change_mode(&mut self.run_state, &mut self.log, mode);
                    match rotate {
                        Some(action) => {
                            actions.push(Action::Log(action));
                        },
                        None => {},
                    }
                },
            },
            Some(MsgType::Log) => {
                if self.log.active() {
                    match decode_log(frame.payload().as_slice()) {
                        None => {
                            actions.push(Action::Discarded(Discard::BadLog));
                        },
                        Some(text) => match self.log.append(text) {
                            Some(action) => {
                                actions.push(Action::Log(action));
                            },
                            None => {},
                        },
                    }
                }
            },
            Some(MsgType::DeviceData) => {
                self.telemetry.store(slice_to_vec(frame.payload().as_slice()));
            },
            Some(_) => {},
        }
        assert(action_models(actions@) =~= frame_effect(old(self)@, frame@).1);
        actions
    }
    /// Takes bytes read from the robot. They are joined to what was kept;
    /// every frame that is now whole is acted on, in order, and the
    /// unfinished rest is kept for the next read. An empty read changes
    /// nothing.
    pub fn receive(&mut self, bytes: &[u8]) -> (actions: Vec<Action>)
        ensures
            (final(self)@, action_models(actions@)) == run(
                old(self)@,
                frame_stimuli(frames_in(old(self).leftover() + bytes@)),
            ),
            final(self).leftover() == tail_of(old(self).leftover() + bytes@),
            !holds_frame(final(self).leftover()),
            final(self).pending() == old(self).pending(),
    {
        proof {
            use_type_invariant(&*self);
        }
        let mut buf = slice_to_vec(self.leftover.as_slice());
        append_bytes(&mut buf, bytes);
        let (frames, rest) = split_frames(buf.as_slice());
        self.leftover = rest;
        let ghost stimuli = frame_stimuli(frames_in(buf@));
        let mut actions: Vec<Action> = Vec::new();
        let mut i: usize = 0;
        proof {
            assert(stimuli.take(0) =~= Seq::<Stimulus>::empty());
            assert(action_models(actions@) =~= Seq::<ActionModel>::empty());
        }
        while i < frames.len()
            invariant
                i <= frames.len(),
                frame_models(frames@) == frames_in(buf@),
                stimuli == frame_stimuli(frames_in(buf@)),
                (self@, action_models(actions@)) == run(old(self)@, stimuli.take(i as int)),
                self.leftover() == tail_of(buf@),
                self.pending() == old(self).pending(),
            decreases frames.len() - i,
        {
            let ghost before = actions@;
            let mut step = self.on_frame(&frames[i]);
            let ghost added = step@;
            actions.append(&mut step);
            proof {
                assert(frame_models(frames@)[i as int] == frames@[i as int]@);
                assert(stimuli.take(i + 1).drop_last() =~= stimuli.take(i as int));
                assert(stimuli.take(i + 1).last() == Stimulus::Frame(frames@[i as int]@));
                assert(action_models(before + added) =~= action_models(before) + action_models(
                    added,
                ));
            }
            i = i + 1;
        }
        proof {
            assert(stimuli.take(i as int) =~= stimuli);
        }
        actions
    }

    /// The robot has closed its stream. If it did so in the middle of a
    /// frame, the connection was lost.
    pub fn stream_closed(&self) -> (out: Result<(), FrameError>)
        ensures
            self.leftover().len() == 0 ==> out is Ok,
            self.leftover().len() > 0 ==> out is Err && out->Err_0 == FrameError::ConnectionLost,
    {
        end_of_stream(self.leftover.as_slice())
    }

    /// Takes bytes read from the router. They are joined to what was kept;
    /// every command and input message that is now whole is acted on, in
    /// order, and the unfinished rest is kept for the next read.
    pub fn command(&mut self, bytes: &[u8]) -> (actions: Vec<Action>)
        ensures
            (final(self)@, action_models(actions@)) == run(
                old(self)@,
                signal_stimuli(signals_in(old(self).pending() + bytes@)),
            ),
            final(self).pending() == signals_tail(old(self).pending() + bytes@),
            final(self).leftover() == old(self).leftover(),
    {
        proof {
            use_type_invariant(&*self);
        }
        let mut buf = slice_to_vec(self.pending.as_slice());
        append_bytes(&mut buf, bytes);
        let (signals, rest) = split_signals(buf.as_slice());
        self.pending = rest;
        let ghost stimuli = signal_stimuli(signals_in(buf@));
        let mut actions: Vec<Action> = Vec::new();
        let mut i: usize = 0;
        proof {
            assert(stimuli.take(0) =~= Seq::<Stimulus>::empty());
            assert(action_models(actions@) =~= Seq::<ActionModel>::empty());
        }
        while i < signals.len()
            invariant
                i <= signals.len(),
                signal_models(signals@) == signals_in(buf@),
                stimuli == signal_stimuli(signals_in(buf@)),
                (self@, action_models(actions@)) == run(old(self)@, stimuli.take(i as int)),
                self.pending() == signals_tail(buf@),
                self.leftover() == old(self).leftover(),
            decreases signals.len() - i,
        {
            let ghost before = actions@;
            let mut step = self.on_signal(&signals[i]);
            let ghost added = step@;
            actions.append(&mut step);
            proof {
                assert(signal_models(signals@)[i as int] == signals@[i as int]@);
                assert(stimuli.take(i + 1).drop_last() =~= stimuli.take(i as int));
                assert(stimuli.take(i + 1).last() == Stimulus::Signal(signals@[i as int]@));
                assert(action_models(before + added) =~= action_models(before) + action_models(
                    added,
                ));
            }
            i = i + 1;
        }
        proof {
            assert(stimuli.take(i as int) =~= stimuli);
        }
        actions
    }
}

} // verus!

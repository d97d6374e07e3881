//! What holds of the session over whole sequences of stimuli.

use crate::control::SignalModel;
use crate::logtee::{file_after, LogActionModel};
use crate::payload::{text_of_payload, Mode};
use crate::robot::{
    effect, event_type_of, initial_session, msg_type_of, rotation, run, run_mode_frame,
    ActionModel, EventType, MsgType, SessionModel, Stimulus,
};
use vstd::prelude::*;

verus! {

/// Whether a stimulus is a local command to start or stop a run.
pub open spec fn is_switch(stimulus: Stimulus) -> bool {
    match stimulus {
        Stimulus::Signal(SignalModel::Command(byte)) => {
            let event = event_type_of(byte);
            event == Some(EventType::RobotStart) || event == Some(EventType::RobotStop) || event
                == Some(EventType::RobotAuto)
        },
        _ => false,
    }
}

/// The mode announced by the last run-mode frame among `actions`, if there
/// is one.
pub open spec fn last_mode_sent(actions: Seq<ActionModel>) -> Option<Mode>
    decreases actions.len(),
{
    if actions.len() == 0 {
        None
    } else {
        match actions.last() {
            ActionModel::SendRunMode { mode, frame } => Some(mode),
            _ => last_mode_sent(actions.drop_last()),
        }
    }
}

/// After any sequence of start and stop commands, the session's run state is
/// the mode of the last run-mode frame that it had written to the robot, and
/// that frame is the one that announces this mode.
pub proof fn lemma_run_state_is_last_mode_sent(s: SessionModel, stimuli: Seq<Stimulus>)
    requires
        stimuli.len() > 0,
        forall|i: int| 0 <= i < stimuli.len() ==> is_switch(#[trigger] stimuli[i]),
    ensures
        last_mode_sent(run(s, stimuli).1) == Some(run(s, stimuli).0.run_state),
        run(s, stimuli).1.last() == (ActionModel::SendRunMode {
            mode: run(s, stimuli).0.run_state,
            frame: run_mode_frame(run(s, stimuli).0.run_state),
        }),
{
    let before = run(s, stimuli.drop_last());
    let step = effect(before.0, stimuli.last());
    assert(is_switch(stimuli[stimuli.len() - 1]));
    assert(step.1.len() > 0);
    assert((before.1 + step.1).last() == step.1.last());
}

/// The payload of the last device-data frame among `stimuli`, if there is
/// one.
pub open spec fn last_device_data(stimuli: Seq<Stimulus>) -> Option<Seq<u8>>
    decreases stimuli.len(),
{
    if stimuli.len() == 0 {
        None
    } else {
        match stimuli.last() {
            Stimulus::Frame(frame) => if msg_type_of(frame.msg_type) == Some(MsgType::DeviceData) {
                Some(frame.payload)
            } else {
                last_device_data(stimuli.drop_last())
            },
            _ => last_device_data(stimuli.drop_last()),
        }
    }
}

/// After any sequence of stimuli, the telemetry slot holds the payload of the
/// device-data frame that arrived last; if none arrived, it holds what it
/// held before.
pub proof fn lemma_telemetry_is_latest(s: SessionModel, stimuli: Seq<Stimulus>)
    ensures
        run(s, stimuli).0.telemetry == match last_device_data(stimuli) {
            Some(bytes) => Some(bytes),
            None => s.telemetry,
        },
    decreases stimuli.len(),
{
    if stimuli.len() > 0 {
        lemma_telemetry_is_latest(s, stimuli.drop_last());
    }
}

/// A session that starts afresh has no telemetry until a device-data frame
/// arrives.
pub proof fn lemma_telemetry_absent_without_frames(stimuli: Seq<Stimulus>)
    ensures
        run(initial_session(), stimuli).0.telemetry == last_device_data(stimuli),
{
    lemma_telemetry_is_latest(initial_session(), stimuli);
}

/// The log scratch file's content after the log actions among `actions` were
/// carried out on it, in order.
pub open spec fn log_file_after(file: Seq<u8>, actions: Seq<ActionModel>) -> Seq<u8>
    decreases actions.len(),
{
    if actions.len() == 0 {
        file
    } else {
        let before = log_file_after(file, actions.drop_last());
        match actions.last() {
            ActionModel::Log(action) => file_after(before, action),
            _ => before,
        }
    }
}

/// The text that a stimulus carries for the log: that of a log frame.
pub open spec fn log_text(stimulus: Stimulus) -> Option<Seq<u8>> {
    match stimulus {
        Stimulus::Frame(frame) => if msg_type_of(frame.msg_type) == Some(MsgType::Log) {
            text_of_payload(frame.payload)
        } else {
            None
        },
        _ => None,
    }
}

/// What the log scratch file should hold after `stimuli`: the text of every
/// log frame that arrived while the robot was not idle, in order of arrival,
/// counted from the last time a run started from idle (or, if none did, added
/// to what the file held before).
pub open spec fn run_log(s: SessionModel, file: Seq<u8>, stimuli: Seq<Stimulus>) -> Seq<u8>
    decreases stimuli.len(),
{
    if stimuli.len() == 0 {
        file
    } else {
        let earlier = stimuli.drop_last();
        let was = run(s, earlier).0.run_state;
        let is = run(s, stimuli).0.run_state;
        if was == Mode::Idle && is != Mode::Idle {
            Seq::empty()
        } else {
            match log_text(stimuli.last()) {
                Some(text) => if was != Mode::Idle {
                    run_log(s, file, earlier) + text
                } else {
                    run_log(s, file, earlier)
                },
                None => run_log(s, file, earlier),
            }
        }
    }
}

/// Carrying out two lists of actions one after the other is carrying out
/// their concatenation.
pub proof fn lemma_log_file_after_concat(
    file: Seq<u8>,
    first: Seq<ActionModel>,
    second: Seq<ActionModel>,
)
    ensures
        log_file_after(file, first + second) == log_file_after(
            log_file_after(file, first),
            second,
        ),
    decreases second.len(),
{
    if second.len() == 0 {
        assert(first + second =~= first);
    } else {
        assert((first + second).drop_last() =~= first + second.drop_last());
        assert((first + second).last() == second.last());
        lemma_log_file_after_concat(file, first, second.drop_last());
    }
}

/// The log scratch file holds the joined text of the log frames that arrived
/// while the robot was not idle, since the run in progress (or the last one)
/// began, and nothing else.
pub proof fn lemma_log_file_holds_run_log(s: SessionModel, file: Seq<u8>, stimuli: Seq<Stimulus>)
    ensures
        log_file_after(file, run(s, stimuli).1) == run_log(s, file, stimuli),
    decreases stimuli.len(),
{
    if stimuli.len() > 0 {
        let earlier = stimuli.drop_last();
        let before = run(s, earlier);
        let step = effect(before.0, stimuli.last());
        lemma_log_file_holds_run_log(s, file, earlier);
        lemma_log_file_after_concat(file, before.1, step.1);
        let base = log_file_after(file, before.1);
        lemma_step_log(before.0, base, stimuli.last());
    }
}

/// What a single action does to the log file.
proof fn lemma_log_file_one(file: Seq<u8>, action: ActionModel)
    ensures
        log_file_after(file, seq![action]) == match action {
            ActionModel::Log(log) => file_after(file, log),
            _ => file,
        },
        log_file_after(file, Seq::<ActionModel>::empty()) == file,
{
    let actions = seq![action];
    assert(actions.drop_last() =~= Seq::<ActionModel>::empty());
    assert(actions.last() == action);
    assert(log_file_after(file, Seq::<ActionModel>::empty()) == file);
}

/// What a change of mode does to the log file.
proof fn lemma_rotation_log(file: Seq<u8>, before: Mode, after: Mode)
    ensures
        log_file_after(file, rotation(before, after)) == if before == Mode::Idle && after
            != Mode::Idle {
            Seq::<u8>::empty()
        } else {
            file
        },
{
    lemma_log_file_one(file, ActionModel::Log(LogActionModel::Truncate));
}

/// What one stimulus does to the log file.
proof fn lemma_step_log(s: SessionModel, file: Seq<u8>, stimulus: Stimulus)
    ensures
        log_file_after(file, effect(s, stimulus).1) == if s.run_state == Mode::Idle && effect(
            s,
            stimulus,
        ).0.run_state != Mode::Idle {
            Seq::empty()
        } else {
            match log_text(stimulus) {
                Some(text) => if s.run_state != Mode::Idle {
                    file + text
                } else {
                    file
                },
                None => file,
            }
        },
{
    let step = effect(s, stimulus);
    let actions = step.1;
    match stimulus {
        Stimulus::Signal(SignalModel::Input(input)) => {
            assert(actions.len() == 1);
            lemma_log_file_one(file, actions[0]);
            assert(actions =~= seq![actions[0]]);
        },
        Stimulus::Signal(SignalModel::Command(byte)) => {
            let event = event_type_of(byte);
            if event == Some(EventType::RobotStart) || event == Some(EventType::RobotStop)
                || event == Some(EventType::RobotAuto) {
                let mode = step.0.run_state;
                let sent = ActionModel::SendRunMode { mode, frame: run_mode_frame(mode) };
                assert(actions == rotation(s.run_state, mode) + seq![sent]);
                lemma_log_file_after_concat(file, rotation(s.run_state, mode), seq![sent]);
                lemma_rotation_log(file, s.run_state, mode);
                lemma_log_file_one(log_file_after(file, rotation(s.run_state, mode)), sent);
            } else {
                assert(actions.len() == 1);
                lemma_log_file_one(file, actions[0]);
                assert(actions =~= seq![actions[0]]);
            }
        },
        Stimulus::Frame(frame) => {
            let kind = msg_type_of(frame.msg_type);
            if kind == Some(MsgType::RunMode) && crate::payload::mode_of_payload(frame.payload)
                is Some {
                lemma_rotation_log(file, s.run_state, step.0.run_state);
            } else if actions.len() == 1 {
                lemma_log_file_one(file, actions[0]);
                assert(actions =~= seq![actions[0]]);
            } else {
                assert(actions.len() == 0);
            }
        },
    }
}

} // verus!

use daybreak::codec::{encode, Frame, FrameError, MAX_PAYLOAD};
use daybreak::control::Signal;
use daybreak::logtee::LogAction;
use daybreak::payload::{run_mode_payload, Mode};
use daybreak::robot::{Action, Discard, EventType, MsgType, Robot};

fn frame(msg_type: u8, payload: &[u8]) -> Frame {
    Frame::new(msg_type, payload.to_vec()).unwrap()
}

fn log_payload(lines: &[&str]) -> Vec<u8> {
    let mut payload = Vec::new();
    for line in lines {
        payload.push(0x0A);
        payload.push(line.len() as u8);
        payload.extend_from_slice(line.as_bytes());
    }
    payload
}

/// Carries out the log actions on a model of the scratch file.
fn apply(file: &mut Vec<u8>, actions: &[Action]) {
    for action in actions {
        match action {
            Action::Log(LogAction::Truncate) => file.clear(),
            Action::Log(LogAction::Append(text)) => file.extend_from_slice(text),
            _ => {}
        }
    }
}

#[test]
fn message_types_have_their_bytes() {
    let robot = Robot::new();
    assert_eq!(robot.query_message_type(&vec![0]), Some(MsgType::RunMode));
    assert_eq!(robot.query_message_type(&vec![1]), Some(MsgType::StartPos));
    assert_eq!(robot.query_message_type(&vec![2]), Some(MsgType::Log));
    assert_eq!(robot.query_message_type(&vec![3]), Some(MsgType::DeviceData));
    assert_eq!(robot.query_message_type(&vec![4]), None);
    assert_eq!(robot.query_message_type(&vec![5]), Some(MsgType::Inputs));
    assert_eq!(robot.query_message_type(&vec![6]), Some(MsgType::TimeStamps));
    assert_eq!(robot.query_message_type(&vec![7, 0, 0]), None);
    assert_eq!(robot.query_message_type(&vec![255]), None);
}

#[test]
fn message_type_ids_go_both_ways() {
    for msg_type in [
        MsgType::RunMode,
        MsgType::StartPos,
        MsgType::Log,
        MsgType::DeviceData,
        MsgType::Inputs,
        MsgType::TimeStamps,
    ] {
        assert_eq!(MsgType::from_id(msg_type.id()), Some(msg_type));
    }
    assert_eq!(MsgType::Inputs.id(), 5);
    assert_eq!(MsgType::TimeStamps.id(), 6);
}

#[test]
fn event_types_have_their_bytes() {
    let robot = Robot::new();
    assert_eq!(robot.query_event_type(&vec![0]), None);
    assert_eq!(robot.query_event_type(&vec![1]), Some(EventType::RobotStart));
    assert_eq!(robot.query_event_type(&vec![2]), Some(EventType::RobotStop));
    assert_eq!(robot.query_event_type(&vec![3]), Some(EventType::RobotAuto));
    assert_eq!(robot.query_event_type(&vec![4]), Some(EventType::RobotGiveDevices));
    assert_eq!(robot.query_event_type(&vec![5, 1, 0, 9]), Some(EventType::KeyPress));
    assert_eq!(robot.query_event_type(&vec![6]), None);
    for event in [
        EventType::RobotStart,
        EventType::RobotStop,
        EventType::RobotAuto,
        EventType::RobotGiveDevices,
        EventType::KeyPress,
    ] {
        assert_eq!(EventType::from_id(event.id()), Some(event));
    }
}

#[test]
fn compose_packet_frames_the_message() {
    let robot = Robot::new();
    assert_eq!(
        robot.compose_packet(vec![0xDE, 0xAD], MsgType::Inputs),
        Ok(vec![5, 2, 0, 0xDE, 0xAD])
    );
    assert_eq!(robot.compose_packet(Vec::new(), MsgType::RunMode), Ok(vec![0, 0, 0]));
    assert_eq!(
        robot.compose_packet(vec![0; MAX_PAYLOAD + 1], MsgType::Log),
        Err(FrameError::TooLong)
    );
}

#[test]
fn run_mode_frames_are_fixed() {
    let robot = Robot::new();
    assert_eq!(robot.send_run_mode(Mode::Teleop), vec![0x00, 2, 0x00, 0x08, 2]);
    assert_eq!(robot.send_run_mode(Mode::Auto), vec![0x00, 2, 0x00, 0x08, 1]);
    assert_eq!(robot.send_run_mode(Mode::Idle), vec![0x00, 0, 0x00]);
}

#[test]
fn inputs_frames_wrap_the_input() {
    let robot = Robot::new();
    assert_eq!(
        robot.send_inputs(&[1, 2, 3, 4]),
        Ok(vec![0x05, 6, 0x00, 0x0A, 4, 1, 2, 3, 4])
    );
}

#[test]
fn an_input_whose_message_does_not_fit_is_refused() {
    let robot = Robot::new();
    assert!(robot.send_inputs(&vec![0u8; 65531]).is_ok());
    assert_eq!(robot.send_inputs(&vec![0u8; 65532]), Err(FrameError::TooLong));
    assert_eq!(robot.send_inputs(&vec![0u8; 70000]), Err(FrameError::TooLong));
}

#[test]
fn a_new_session_is_idle_and_knows_nothing() {
    let robot = Robot::new();
    assert_eq!(robot.run_state(), Mode::Idle);
    assert!(!robot.log_active());
    assert_eq!(robot.telemetry_latest(), None);
}

#[test]
fn teleop_round_trip() {
    let mut robot = Robot::new();
    let actions = robot.command(&[1]);
    assert_eq!(
        actions,
        vec![
            Action::Log(LogAction::Truncate),
            Action::SendRunMode { mode: Mode::Teleop, frame: vec![0x00, 2, 0x00, 0x08, 2] },
        ]
    );
    assert_eq!(robot.run_state(), Mode::Teleop);
    assert!(robot.log_active());
    let mut file = b"left over from the run before".to_vec();
    apply(&mut file, &actions);
    assert!(file.is_empty());
}

#[test]
fn the_state_machine_follows_its_table() {
    let mut robot = Robot::new();
    robot.command(&[1]);
    assert_eq!(robot.run_state(), Mode::Teleop);
    robot.command(&[2]);
    assert_eq!(robot.run_state(), Mode::Idle);
    robot.command(&[3]);
    assert_eq!(robot.run_state(), Mode::Auto);
    robot.command(&[2]);
    assert_eq!(robot.run_state(), Mode::Idle);
    for mode in [Mode::Teleop, Mode::Auto, Mode::Idle, Mode::Estop, Mode::Challenge] {
        robot.receive(&encode(0, &run_mode_payload(mode)).unwrap());
        assert_eq!(robot.run_state(), mode);
        assert_eq!(robot.log_active(), mode != Mode::Idle);
    }
}

#[test]
fn stop_announces_idle_and_ends_logging() {
    let mut robot = Robot::new();
    robot.command(&[3]);
    let actions = robot.command(&[2]);
    assert_eq!(
        actions,
        vec![Action::SendRunMode { mode: Mode::Idle, frame: vec![0x00, 0, 0x00] }]
    );
    assert_eq!(robot.run_state(), Mode::Idle);
    assert!(!robot.log_active());
}

#[test]
fn run_state_is_the_last_mode_sent() {
    let sequences: [&[u8]; 6] =
        [&[1], &[2], &[3], &[1, 3, 2], &[3, 3, 1], &[2, 2, 1, 2, 3, 1, 1, 2, 3]];
    for events in sequences {
        let mut robot = Robot::new();
        let mut sent = None;
        for event in events {
            for action in robot.command(&[*event]) {
                if let Action::SendRunMode { mode, frame } = action {
                    assert_eq!(frame, Robot::new().send_run_mode(mode));
                    sent = Some(mode);
                }
            }
        }
        assert_eq!(sent, Some(robot.run_state()));
    }
}

#[test]
fn a_run_that_changes_kind_keeps_its_log() {
    let mut robot = Robot::new();
    robot.command(&[1]);
    let actions = robot.command(&[3]);
    assert_eq!(
        actions,
        vec![Action::SendRunMode { mode: Mode::Auto, frame: vec![0x00, 2, 0x00, 0x08, 1] }]
    );
}

#[test]
fn device_cache_holds_the_latest() {
    let mut robot = Robot::new();
    assert_eq!(robot.command(&[4]), vec![Action::ReplyDevices { reply: vec![0] }]);
    let mut stream = encode(3, b"B1").unwrap();
    stream.extend_from_slice(&encode(3, b"B2-longer").unwrap());
    assert_eq!(robot.receive(&stream), Vec::new());
    assert_eq!(robot.telemetry_latest(), Some(b"B2-longer".to_vec()));
    let mut reply = vec![1, 9, 0];
    reply.extend_from_slice(b"B2-longer");
    assert_eq!(robot.command(&[4]), vec![Action::ReplyDevices { reply: reply.clone() }]);
    assert_eq!(robot.command(&[4]), vec![Action::ReplyDevices { reply }]);
}

#[test]
fn telemetry_is_the_most_recent_device_data() {
    let mut robot = Robot::new();
    let frames = [
        frame(2, &log_payload(&["x"])),
        frame(3, b"one"),
        frame(6, b"ticks"),
        frame(3, b"two"),
        frame(0, &[0x08, 2]),
        frame(9, b"??"),
    ];
    let mut latest = None;
    for f in &frames {
        robot.on_frame(f);
        if f.msg_type() == 3 {
            latest = Some(f.payload().clone());
        }
        assert_eq!(robot.telemetry_latest(), latest);
    }
    assert_eq!(robot.telemetry_latest(), Some(b"two".to_vec()));
}

#[test]
fn device_data_is_kept_as_it_came() {
    let mut robot = Robot::new();
    robot.on_frame(&frame(3, &[0xFF, 0xFF, 0xFF]));
    assert_eq!(robot.telemetry_latest(), Some(vec![0xFF, 0xFF, 0xFF]));
    robot.on_frame(&frame(3, &[]));
    assert_eq!(robot.telemetry_latest(), Some(Vec::new()));
}

#[test]
fn partial_frame_resilience() {
    let mut robot = Robot::new();
    robot.command(&[1]);
    let stream = encode(2, &log_payload(&["battery ", "low\n"])).unwrap();
    let mut appended = Vec::new();
    for byte in stream {
        for action in robot.receive(&[byte]) {
            appended.push(action);
        }
        robot.receive(&[]);
    }
    assert_eq!(appended, vec![Action::Log(LogAction::Append(b"battery low\n".to_vec()))]);
}

#[test]
fn log_text_is_dropped_while_idle() {
    let mut robot = Robot::new();
    assert_eq!(robot.on_frame(&frame(2, &log_payload(&["ignored"]))), Vec::new());
    assert_eq!(robot.on_frame(&frame(2, &[0xFF])), Vec::new());
}

#[test]
fn the_log_file_holds_what_was_logged_during_the_run() {
    let mut robot = Robot::new();
    let mut file = Vec::new();
    apply(&mut file, &robot.on_frame(&frame(2, &log_payload(&["before"]))));
    apply(&mut file, &robot.command(&[1]));
    apply(&mut file, &robot.on_frame(&frame(2, &log_payload(&["a", "b"]))));
    apply(&mut file, &robot.on_frame(&frame(3, b"devices")));
    apply(&mut file, &robot.on_frame(&frame(2, &log_payload(&["c"]))));
    assert_eq!(file, b"abc".to_vec());
    apply(&mut file, &robot.command(&[2]));
    apply(&mut file, &robot.on_frame(&frame(2, &log_payload(&["after"]))));
    assert_eq!(file, b"abc".to_vec());
    apply(&mut file, &robot.on_frame(&frame(0, &[0x08, 1])));
    assert!(file.is_empty());
    apply(&mut file, &robot.on_frame(&frame(2, &log_payload(&["next run"]))));
    assert_eq!(file, b"next run".to_vec());
}

#[test]
fn a_remote_run_mode_rotates_the_log_once() {
    let mut robot = Robot::new();
    assert_eq!(
        robot.on_frame(&frame(0, &[0x08, 2])),
        vec![Action::Log(LogAction::Truncate)]
    );
    assert_eq!(robot.on_frame(&frame(0, &[0x08, 1])), Vec::new());
    assert_eq!(robot.on_frame(&frame(0, &[])), Vec::new());
    assert_eq!(robot.run_state(), Mode::Idle);
}

#[test]
fn frames_that_say_nothing_are_dropped() {
    let mut robot = Robot::new();
    assert_eq!(
        robot.on_frame(&frame(4, b"??")),
        vec![Action::Discarded(Discard::UnknownMessage(4))]
    );
    assert_eq!(
        robot.on_frame(&frame(0, &[0x08, 9])),
        vec![Action::Discarded(Discard::BadRunMode)]
    );
    assert_eq!(robot.on_frame(&frame(0, &[0x08])), vec![Action::Discarded(Discard::BadRunMode)]);
    robot.command(&[1]);
    assert_eq!(robot.on_frame(&frame(2, &[0x0A, 9])), vec![Action::Discarded(Discard::BadLog)]);
    assert_eq!(robot.run_state(), Mode::Teleop);
}

#[test]
fn start_positions_inputs_and_time_stamps_are_ignored() {
    let mut robot = Robot::new();
    for msg_type in [1, 5, 6] {
        assert_eq!(robot.on_frame(&frame(msg_type, b"whatever")), Vec::new());
    }
    assert_eq!(robot.run_state(), Mode::Idle);
    assert_eq!(robot.telemetry_latest(), None);
}

#[test]
fn run_lifecycle() {
    let mut robot = Robot::new();
    robot.command(&[1]);
    let input = [5, 0x04, 0x00, 0xA1, 0xA2, 0xA3, 0xA4];
    for _ in 0..3 {
        assert_eq!(
            robot.command(&input),
            vec![Action::SendInputs {
                frame: vec![0x05, 6, 0x00, 0x0A, 4, 0xA1, 0xA2, 0xA3, 0xA4]
            }]
        );
    }
    assert_eq!(
        robot.command(&[2]),
        vec![Action::SendRunMode { mode: Mode::Idle, frame: vec![0x00, 0, 0x00] }]
    );
    assert!(!robot.log_active());
}

#[test]
fn an_input_message_may_arrive_in_pieces() {
    let mut robot = Robot::new();
    assert_eq!(robot.command(&[5]), Vec::new());
    assert_eq!(robot.command(&[2, 0]), Vec::new());
    assert_eq!(robot.command(&[7]), Vec::new());
    assert_eq!(
        robot.command(&[8, 4]),
        vec![
            Action::SendInputs { frame: vec![0x05, 4, 0x00, 0x0A, 2, 7, 8] },
            Action::ReplyDevices { reply: vec![0] },
        ]
    );
}

#[test]
fn stray_commands_are_dropped() {
    let mut robot = Robot::new();
    assert_eq!(robot.command(&[0]), vec![Action::Discarded(Discard::StrayCommand(0))]);
    assert_eq!(robot.command(&[9]), vec![Action::Discarded(Discard::StrayCommand(9))]);
    assert_eq!(
        robot.on_signal(&Signal::Command(5)),
        vec![Action::Discarded(Discard::StrayCommand(5))]
    );
    assert_eq!(robot.run_state(), Mode::Idle);
}

#[test]
fn an_oversized_input_is_dropped() {
    let mut robot = Robot::new();
    assert_eq!(
        robot.on_signal(&Signal::Input(vec![0u8; 65535])),
        vec![Action::Discarded(Discard::OversizedInput)]
    );
}

#[test]
fn receive_acts_on_frames_in_order() {
    let mut robot = Robot::new();
    let mut stream = encode(0, &[0x08, 2]).unwrap();
    stream.extend_from_slice(&encode(2, &log_payload(&["one"])).unwrap());
    stream.extend_from_slice(&encode(0, &[]).unwrap());
    stream.extend_from_slice(&encode(2, &log_payload(&["two"])).unwrap());
    stream.extend_from_slice(&[3, 4]);
    assert_eq!(
        robot.receive(&stream),
        vec![Action::Log(LogAction::Truncate), Action::Log(LogAction::Append(b"one".to_vec()))]
    );
    assert_eq!(robot.run_state(), Mode::Idle);
    assert_eq!(robot.receive(&[0, b'a', b'b', b'c', b'd']), Vec::new());
    assert_eq!(robot.telemetry_latest(), Some(b"abcd".to_vec()));
}

#[test]
fn a_robot_that_hangs_up_in_mid_frame_is_lost() {
    let mut robot = Robot::new();
    assert_eq!(robot.stream_closed(), Ok(()));
    robot.receive(&[3, 2, 0, 1, 1, 3, 9]);
    assert_eq!(robot.stream_closed(), Err(FrameError::ConnectionLost));
    robot.receive(&[0]);
    assert_eq!(robot.stream_closed(), Err(FrameError::ConnectionLost));
    robot.receive(&[0xAA; 9]);
    assert_eq!(robot.stream_closed(), Ok(()));
}

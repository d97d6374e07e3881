use daybreak::client::{
    bare_request, connect_request, robot_kind_from_name, run_command_from_name, run_request,
    to_lower, transfer_request,
};
use daybreak::daemon::{query_message_daemon_type, MsgDaemonType, RobotKind};
use daybreak::request::{parse_connect, parse_transfer};
use daybreak::robot::EventType;

#[test]
fn kinds_are_named_in_any_case() {
    assert_eq!(robot_kind_from_name(b"potato"), Some(RobotKind::Potato));
    assert_eq!(robot_kind_from_name(b"Potato"), Some(RobotKind::Potato));
    assert_eq!(robot_kind_from_name(b"RASPBERRY"), Some(RobotKind::Raspberry));
    assert_eq!(robot_kind_from_name(b"raspberry"), Some(RobotKind::Raspberry));
}

#[test]
fn other_words_name_no_kind() {
    assert_eq!(robot_kind_from_name(b""), None);
    assert_eq!(robot_kind_from_name(b"potat"), None);
    assert_eq!(robot_kind_from_name(b"potatoes"), None);
    assert_eq!(robot_kind_from_name(b"pi"), None);
}

#[test]
fn run_commands_are_named_exactly() {
    assert_eq!(run_command_from_name(b"auto"), Some(EventType::RobotAuto));
    assert_eq!(run_command_from_name(b"teleop"), Some(EventType::RobotStart));
    assert_eq!(run_command_from_name(b"stop"), Some(EventType::RobotStop));
    assert_eq!(run_command_from_name(b"Auto"), None);
    assert_eq!(run_command_from_name(b"start"), None);
    assert_eq!(run_command_from_name(b""), None);
}

#[test]
fn only_ascii_capitals_are_lowered() {
    assert_eq!(to_lower(b"AbC-xyZ09@[`{"), b"abc-xyz09@[`{".to_vec());
    assert_eq!(to_lower(&[0xC3, 0x89]), vec![0xC3, 0x89]);
}

#[test]
fn requests_open_with_their_opcode() {
    assert_eq!(bare_request(MsgDaemonType::QueryDevices), vec![4]);
    assert_eq!(bare_request(MsgDaemonType::InputListener), vec![6]);
    assert_eq!(bare_request(MsgDaemonType::Kill), vec![255]);
    assert_eq!(run_request(EventType::RobotStart), vec![3, 1]);
    assert_eq!(run_request(EventType::RobotStop), vec![3, 2]);
    assert_eq!(run_request(EventType::RobotAuto), vec![3, 3]);
}

#[test]
fn a_connect_request_is_read_by_the_router() {
    let request = connect_request(RobotKind::Potato, b"127.0.0.1");
    assert_eq!(request, b"\x02\x01127.0.0.1".to_vec());
    assert_eq!(query_message_daemon_type(&request), Some(MsgDaemonType::Connect));
    let read = parse_connect(&request[1..]);
    assert_eq!(read.kind, 1);
    assert_eq!(read.host, b"127.0.0.1".to_vec());
}

#[test]
fn a_transfer_request_is_read_by_the_router() {
    let upload = transfer_request(true, b"/work", b"code.py");
    assert_eq!(upload, b"\x01/work\0code.py".to_vec());
    let download = transfer_request(false, b"/work", b"code.py");
    assert_eq!(download, b"\x05/work\0code.py".to_vec());
    let read = parse_transfer(&download[1..]).unwrap();
    assert_eq!(read.cwd, b"/work".to_vec());
    assert_eq!(read.rel_path, b"code.py".to_vec());
}

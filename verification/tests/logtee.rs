use daybreak::logtee::{LogAction, LogTee};
use daybreak::payload::Mode;

#[test]
fn a_new_tee_is_not_active() {
    assert!(!LogTee::new().active());
}

#[test]
fn leaving_idle_truncates_the_file() {
    let mut tee = LogTee::new();
    assert_eq!(tee.on_run_state_change(Mode::Teleop), Some(LogAction::Truncate));
    assert!(tee.active());
}

#[test]
fn entering_idle_leaves_the_file() {
    let mut tee = LogTee::new();
    tee.on_run_state_change(Mode::Auto);
    assert_eq!(tee.on_run_state_change(Mode::Idle), None);
    assert!(!tee.active());
}

#[test]
fn changing_between_runs_leaves_the_file() {
    let mut tee = LogTee::new();
    tee.on_run_state_change(Mode::Teleop);
    assert_eq!(tee.on_run_state_change(Mode::Auto), None);
    assert!(tee.active());
}

#[test]
fn staying_idle_leaves_the_file() {
    let mut tee = LogTee::new();
    assert_eq!(tee.on_run_state_change(Mode::Idle), None);
    assert!(!tee.active());
}

#[test]
fn the_next_run_truncates_again() {
    let mut tee = LogTee::new();
    tee.on_run_state_change(Mode::Teleop);
    tee.on_run_state_change(Mode::Idle);
    assert_eq!(tee.on_run_state_change(Mode::Auto), Some(LogAction::Truncate));
}

#[test]
fn text_is_appended_only_during_a_run() {
    let mut tee = LogTee::new();
    assert_eq!(tee.append(b"early".to_vec()), None);
    tee.on_run_state_change(Mode::Teleop);
    assert_eq!(tee.append(b"line".to_vec()), Some(LogAction::Append(b"line".to_vec())));
    tee.on_run_state_change(Mode::Idle);
    assert_eq!(tee.append(b"late".to_vec()), None);
}

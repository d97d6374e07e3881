use daybreak::tui::{App, LogTail, Pane, RunScreen, ScreenCommand, ScreenKey};

#[test]
fn a_new_pane_is_at_its_top() {
    assert_eq!(App::new().scroll, 0);
}

#[test]
fn scrolling_up_stops_at_the_top() {
    let mut app = App { scroll: 2 };
    app.scroll_up();
    assert_eq!(app.scroll, 1);
    app.scroll_up();
    assert_eq!(app.scroll, 0);
    app.scroll_up();
    assert_eq!(app.scroll, 0);
}

#[test]
fn scrolling_down_stops_at_the_limit() {
    let mut app = App::new();
    app.scroll_down(2);
    assert_eq!(app.scroll, 1);
    app.scroll_down(2);
    assert_eq!(app.scroll, 2);
    app.scroll_down(2);
    assert_eq!(app.scroll, 2);
    app.scroll_down(0);
    assert_eq!(app.scroll, 2);
}

#[test]
fn scrolling_down_does_not_overflow() {
    let mut app = App { scroll: usize::MAX };
    app.scroll_down(usize::MAX);
    assert_eq!(app.scroll, usize::MAX);
}

#[test]
fn the_log_tail_hands_out_what_was_added() {
    let mut tail = LogTail::new();
    assert_eq!(tail.poll(b""), Vec::<u8>::new());
    assert_eq!(tail.poll(b"abc"), b"abc".to_vec());
    assert_eq!(tail.poll(b"abc"), Vec::<u8>::new());
    assert_eq!(tail.poll(b"abcdef"), b"def".to_vec());
    assert_eq!(tail.seen, 6);
}

#[test]
fn the_log_tail_waits_while_the_file_is_shorter() {
    let mut tail = LogTail::new();
    tail.poll(b"abcdef");
    assert_eq!(tail.poll(b"xy"), Vec::<u8>::new());
    assert_eq!(tail.seen, 6);
    assert_eq!(tail.poll(b"xyzxyzxy"), b"xy".to_vec());
}

#[test]
fn the_log_tail_starts_over_after_a_reset() {
    let mut tail = LogTail::new();
    tail.poll(b"abcdef");
    tail.reset();
    assert_eq!(tail.poll(b"new"), b"new".to_vec());
}

#[test]
fn the_screen_opens_without_a_run() {
    let screen = RunScreen::new();
    assert!(!screen.running);
    assert_eq!(screen.selected, Pane::Terminal);
    assert_eq!(screen.terminal.scroll, 0);
    assert_eq!(screen.devices.scroll, 0);
}

#[test]
fn start_keys_start_a_run_once() {
    let table = [
        (ScreenKey::Teleop, ScreenCommand::StartTeleop),
        (ScreenKey::Input, ScreenCommand::StartInput),
        (ScreenKey::Auto, ScreenCommand::StartAuto),
    ];
    for (key, command) in table {
        let mut screen = RunScreen::new();
        assert_eq!(screen.on_key(key, 0, 0), command);
        assert!(screen.running);
        for (again, _) in table {
            assert_eq!(screen.on_key(again, 0, 0), ScreenCommand::Nothing);
            assert!(screen.running);
        }
    }
}

#[test]
fn the_stop_key_stops_a_run_or_clears_the_terminal() {
    let mut screen = RunScreen::new();
    assert_eq!(screen.on_key(ScreenKey::Stop, 0, 0), ScreenCommand::ClearTerminal);
    screen.on_key(ScreenKey::Teleop, 0, 0);
    assert_eq!(screen.on_key(ScreenKey::Stop, 0, 0), ScreenCommand::StopRun);
    assert!(!screen.running);
    assert_eq!(screen.on_key(ScreenKey::Auto, 0, 0), ScreenCommand::StartAuto);
}

#[test]
fn the_quit_key_leaves() {
    let mut screen = RunScreen::new();
    assert_eq!(screen.on_key(ScreenKey::Quit, 0, 0), ScreenCommand::Leave);
    screen.on_key(ScreenKey::Teleop, 0, 0);
    assert_eq!(screen.on_key(ScreenKey::Quit, 0, 0), ScreenCommand::Leave);
}

#[test]
fn arrows_select_and_scroll_a_pane() {
    let mut screen = RunScreen::new();
    screen.on_key(ScreenKey::Down, 5, 1);
    screen.on_key(ScreenKey::Down, 5, 1);
    assert_eq!(screen.terminal.scroll, 2);
    assert_eq!(screen.devices.scroll, 0);
    screen.on_key(ScreenKey::Right, 5, 1);
    assert_eq!(screen.selected, Pane::Devices);
    screen.on_key(ScreenKey::Down, 5, 1);
    screen.on_key(ScreenKey::Down, 5, 1);
    assert_eq!(screen.devices.scroll, 1);
    screen.on_key(ScreenKey::Up, 5, 1);
    assert_eq!(screen.devices.scroll, 0);
    screen.on_key(ScreenKey::Left, 5, 1);
    assert_eq!(screen.selected, Pane::Terminal);
    screen.on_key(ScreenKey::Up, 5, 1);
    assert_eq!(screen.terminal.scroll, 1);
    assert_eq!(screen.on_key(ScreenKey::Other, 5, 1), ScreenCommand::Nothing);
}

#[test]
fn commands_have_their_bytes() {
    assert_eq!(ScreenCommand::Leave.bytes(), vec![4]);
    assert_eq!(ScreenCommand::StartTeleop.bytes(), vec![3, 1]);
    assert_eq!(ScreenCommand::StartInput.bytes(), vec![6, 1]);
    assert_eq!(ScreenCommand::StartAuto.bytes(), vec![3, 3]);
    assert_eq!(ScreenCommand::StopRun.bytes(), vec![4]);
    assert_eq!(ScreenCommand::ClearTerminal.bytes(), Vec::<u8>::new());
    assert_eq!(ScreenCommand::Nothing.bytes(), Vec::<u8>::new());
}

#[test]
fn inputs_are_sampled_for_teleop_and_input() {
    assert!(ScreenCommand::StartTeleop.samples_inputs());
    assert!(ScreenCommand::StartInput.samples_inputs());
    assert!(!ScreenCommand::StartAuto.samples_inputs());
    assert!(!ScreenCommand::StopRun.samples_inputs());
    assert!(!ScreenCommand::Leave.samples_inputs());
}

use daybreak::listener::{InputListener, END_MARK};

#[test]
fn the_end_mark_is_four() {
    assert_eq!(END_MARK, 4);
}

#[test]
fn input_messages_are_passed_on_whole() {
    let mut listener = InputListener::new();
    let message = [5, 0x04, 0x00, 1, 2, 3, 4];
    for _ in 0..3 {
        assert_eq!(listener.feed(&message), message.to_vec());
        assert!(!listener.ended());
    }
}

#[test]
fn the_end_mark_stops_the_run() {
    let mut listener = InputListener::new();
    assert_eq!(listener.feed(&[4]), vec![2]);
    assert!(listener.ended());
}

#[test]
fn nothing_is_passed_on_after_the_end() {
    let mut listener = InputListener::new();
    assert_eq!(listener.feed(&[5, 1, 0, 9, 4, 5, 1, 0, 8, 4]), vec![5, 1, 0, 9, 2]);
    assert!(listener.ended());
    assert_eq!(listener.feed(&[5, 1, 0, 7]), Vec::<u8>::new());
    assert_eq!(listener.feed(&[4]), Vec::<u8>::new());
    assert_eq!(listener.hang_up(), Vec::<u8>::new());
}

#[test]
fn other_bytes_are_skipped() {
    let mut listener = InputListener::new();
    assert_eq!(listener.feed(&[1, 0, 9, 5, 2, 0, 4, 4, 3]), vec![5, 2, 0, 4, 4]);
    assert!(!listener.ended());
}

#[test]
fn the_listener_takes_an_input_message_in_pieces() {
    let mut listener = InputListener::new();
    assert_eq!(listener.feed(&[5, 3]), Vec::<u8>::new());
    assert_eq!(listener.feed(&[0, 4]), Vec::<u8>::new());
    assert_eq!(listener.feed(&[4, 4, 4]), vec![5, 3, 0, 4, 4, 4, 2]);
    assert!(listener.ended());
}

#[test]
fn hanging_up_stops_the_run() {
    let mut listener = InputListener::new();
    listener.feed(&[5, 1, 0, 9]);
    assert_eq!(listener.hang_up(), vec![2]);
    assert!(listener.ended());
    assert_eq!(listener.hang_up(), Vec::<u8>::new());
}

use daybreak::codec::{FrameError, MAX_PAYLOAD};
use daybreak::control::{input_message, split_signals, Signal};

#[test]
fn an_input_message_is_mark_length_and_input() {
    assert_eq!(input_message(&[1, 2, 3, 4]), Ok(vec![5, 4, 0, 1, 2, 3, 4]));
    assert_eq!(input_message(&[]), Ok(vec![5, 0, 0]));
}

#[test]
fn an_input_that_is_too_long_is_refused() {
    assert_eq!(input_message(&vec![0u8; MAX_PAYLOAD + 1]), Err(FrameError::TooLong));
}

#[test]
fn command_bytes_are_single_items() {
    let (signals, rest) = split_signals(&[1, 2, 3, 4, 0, 200]);
    assert_eq!(
        signals,
        vec![
            Signal::Command(1),
            Signal::Command(2),
            Signal::Command(3),
            Signal::Command(4),
            Signal::Command(0),
            Signal::Command(200),
        ]
    );
    assert!(rest.is_empty());
}

#[test]
fn an_input_message_is_one_item() {
    let (signals, rest) = split_signals(&[5, 2, 0, 9, 8, 2]);
    assert_eq!(signals, vec![Signal::Input(vec![9, 8]), Signal::Command(2)]);
    assert!(rest.is_empty());
}

#[test]
fn an_input_may_hold_the_mark_itself() {
    let (signals, rest) = split_signals(&[5, 3, 0, 5, 5, 5, 1]);
    assert_eq!(signals, vec![Signal::Input(vec![5, 5, 5]), Signal::Command(1)]);
    assert!(rest.is_empty());
}

#[test]
fn an_unfinished_input_message_is_kept() {
    let (signals, rest) = split_signals(&[1, 5]);
    assert_eq!(signals, vec![Signal::Command(1)]);
    assert_eq!(rest, vec![5]);
    let (signals, rest) = split_signals(&[5, 4, 0, 1, 2]);
    assert!(signals.is_empty());
    assert_eq!(rest, vec![5, 4, 0, 1, 2]);
}

#[test]
fn what_was_built_is_split_again() {
    let mut stream = input_message(&[7; 300]).unwrap();
    stream.push(4);
    let (signals, rest) = split_signals(&stream);
    assert_eq!(signals, vec![Signal::Input(vec![7; 300]), Signal::Command(4)]);
    assert!(rest.is_empty());
}

use daybreak::payload::{
    decode_log, decode_run_mode, join_parts, run_mode_payload, user_inputs_payload, Mode,
};

#[test]
fn idle_is_announced_by_an_empty_payload() {
    assert_eq!(run_mode_payload(Mode::Idle), Vec::<u8>::new());
}

#[test]
fn every_other_mode_is_announced_by_tag_and_number() {
    assert_eq!(run_mode_payload(Mode::Auto), vec![0x08, 1]);
    assert_eq!(run_mode_payload(Mode::Teleop), vec![0x08, 2]);
    assert_eq!(run_mode_payload(Mode::Estop), vec![0x08, 3]);
    assert_eq!(run_mode_payload(Mode::Challenge), vec![0x08, 4]);
}

#[test]
fn mode_numbers_are_fixed() {
    assert_eq!(Mode::Idle.number(), 0);
    assert_eq!(Mode::Auto.number(), 1);
    assert_eq!(Mode::Teleop.number(), 2);
    assert_eq!(Mode::Estop.number(), 3);
    assert_eq!(Mode::Challenge.number(), 4);
    assert_eq!(Mode::from_number(2), Some(Mode::Teleop));
    assert_eq!(Mode::from_number(5), None);
    assert_eq!(Mode::from_number(-1), None);
}

#[test]
fn a_mode_that_was_written_is_read_back() {
    for mode in [Mode::Idle, Mode::Auto, Mode::Teleop, Mode::Estop, Mode::Challenge] {
        assert_eq!(decode_run_mode(&run_mode_payload(mode)), Some(mode));
    }
}

#[test]
fn a_run_mode_payload_with_an_unknown_number_gives_nothing() {
    assert_eq!(decode_run_mode(&[0x08, 9]), None);
}

#[test]
fn a_run_mode_payload_that_is_cut_short_gives_nothing() {
    assert_eq!(decode_run_mode(&[0x08]), None);
    assert_eq!(decode_run_mode(&[0x08, 0x80]), None);
}

#[test]
fn a_run_mode_payload_may_carry_fields_that_are_not_known() {
    assert_eq!(decode_run_mode(&[0x10, 7, 0x08, 1]), Some(Mode::Auto));
}

#[test]
fn log_text_is_the_strings_joined() {
    let payload = [0x0A, 2, b'h', b'i', 0x0A, 1, b'!', 0x0A, 0];
    assert_eq!(decode_log(&payload), Some(b"hi!".to_vec()));
}

#[test]
fn an_empty_log_payload_holds_empty_text() {
    assert_eq!(decode_log(&[]), Some(Vec::new()));
}

#[test]
fn a_log_payload_that_is_cut_short_gives_nothing() {
    assert_eq!(decode_log(&[0x0A, 5, b'h', b'i']), None);
}

#[test]
fn a_log_payload_that_is_not_text_gives_nothing() {
    assert_eq!(decode_log(&[0x0A, 2, 0xFF, 0xFE]), None);
}

#[test]
fn join_parts_joins_in_order() {
    let parts = vec![b"ab".to_vec(), Vec::new(), b"c".to_vec()];
    assert_eq!(join_parts(&parts), b"abc".to_vec());
    assert_eq!(join_parts(&Vec::new()), Vec::<u8>::new());
}

#[test]
fn an_input_is_wrapped_as_the_single_element() {
    assert_eq!(user_inputs_payload(&[1, 2, 3, 4]), vec![0x0A, 4, 1, 2, 3, 4]);
}

#[test]
fn an_empty_input_is_still_an_element() {
    assert_eq!(user_inputs_payload(&[]), vec![0x0A, 0]);
}

#[test]
fn a_long_input_has_its_length_as_a_varint() {
    let input = vec![0x5Au8; 200];
    let payload = user_inputs_payload(&input);
    assert_eq!(&payload[..3], &[0x0A, 0xC8, 0x01]);
    assert_eq!(&payload[3..], &input[..]);
    let input = vec![0x5Au8; 16384];
    let payload = user_inputs_payload(&input);
    assert_eq!(&payload[..4], &[0x0A, 0x80, 0x80, 0x01]);
    assert_eq!(payload.len(), 4 + 16384);
}

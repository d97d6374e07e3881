use daybreak::keymap::{
    button_bitmap, gamepad_mapped, key_map, standard_button, Button, Key, Pressed,
    UNMAPPED_BUTTON, UNMAPPED_KEY,
};

const ALL_BUTTONS: [Button; 20] = [
    Button::South,
    Button::East,
    Button::North,
    Button::West,
    Button::C,
    Button::Z,
    Button::LeftTrigger,
    Button::LeftTrigger2,
    Button::RightTrigger,
    Button::RightTrigger2,
    Button::Select,
    Button::Start,
    Button::Mode,
    Button::LeftThumb,
    Button::RightThumb,
    Button::DPadUp,
    Button::DPadDown,
    Button::DPadLeft,
    Button::DPadRight,
    Button::Unknown,
];

#[test]
fn buttons_have_their_fixed_places() {
    assert_eq!(gamepad_mapped(&Button::South), 0);
    assert_eq!(gamepad_mapped(&Button::East), 1);
    assert_eq!(gamepad_mapped(&Button::West), 2);
    assert_eq!(gamepad_mapped(&Button::North), 3);
    assert_eq!(gamepad_mapped(&Button::LeftTrigger), 4);
    assert_eq!(gamepad_mapped(&Button::RightTrigger), 5);
    assert_eq!(gamepad_mapped(&Button::LeftTrigger2), 6);
    assert_eq!(gamepad_mapped(&Button::RightTrigger2), 7);
    assert_eq!(gamepad_mapped(&Button::Select), 10);
    assert_eq!(gamepad_mapped(&Button::Start), 11);
    assert_eq!(gamepad_mapped(&Button::DPadUp), 12);
    assert_eq!(gamepad_mapped(&Button::DPadDown), 13);
    assert_eq!(gamepad_mapped(&Button::DPadLeft), 14);
    assert_eq!(gamepad_mapped(&Button::DPadRight), 15);
}

#[test]
fn other_buttons_share_the_unmapped_place() {
    assert_eq!(UNMAPPED_BUTTON, 20);
    for button in [
        Button::C,
        Button::Z,
        Button::Mode,
        Button::LeftThumb,
        Button::RightThumb,
        Button::Unknown,
    ] {
        assert_eq!(gamepad_mapped(&button), 20);
    }
}

#[test]
fn a_place_leads_back_to_its_button() {
    for button in ALL_BUTTONS {
        let place = gamepad_mapped(&button);
        if place != UNMAPPED_BUTTON {
            assert_eq!(standard_button(place), Some(button));
        }
    }
    for place in [8u8, 9, 16, 20, 63, 255] {
        assert_eq!(standard_button(place), None);
    }
}

#[test]
fn letters_count_from_zero() {
    assert_eq!(key_map(&Key::Char('a')), 0);
    assert_eq!(key_map(&Key::Char('b')), 1);
    assert_eq!(key_map(&Key::Char('m')), 12);
    assert_eq!(key_map(&Key::Char('z')), 25);
}

#[test]
fn digits_follow_the_letters() {
    assert_eq!(key_map(&Key::Char('1')), 26);
    assert_eq!(key_map(&Key::Char('5')), 30);
    assert_eq!(key_map(&Key::Char('9')), 34);
    assert_eq!(key_map(&Key::Char('0')), 35);
}

#[test]
fn marks_and_arrows_have_their_codes() {
    assert_eq!(key_map(&Key::Char(',')), 36);
    assert_eq!(key_map(&Key::Char('.')), 37);
    assert_eq!(key_map(&Key::Char('/')), 38);
    assert_eq!(key_map(&Key::Char(';')), 39);
    assert_eq!(key_map(&Key::Char('\'')), 40);
    assert_eq!(key_map(&Key::Char('[')), 41);
    assert_eq!(key_map(&Key::Char(']')), 42);
    assert_eq!(key_map(&Key::Left), 43);
    assert_eq!(key_map(&Key::Right), 44);
    assert_eq!(key_map(&Key::Up), 45);
    assert_eq!(key_map(&Key::Down), 46);
}

#[test]
fn other_keys_are_unmapped() {
    assert_eq!(UNMAPPED_KEY, 255);
    for key in [Key::Char('A'), Key::Char(' '), Key::Char('-'), Key::Char('é'), Key::Other] {
        assert_eq!(key_map(&key), 255);
    }
}

#[test]
fn the_bitmap_sets_the_places_of_the_buttons_held() {
    assert_eq!(button_bitmap(&[]), 0);
    assert_eq!(button_bitmap(&[Button::South]), 1);
    assert_eq!(button_bitmap(&[Button::DPadRight]), 1 << 15);
    assert_eq!(
        button_bitmap(&[Button::East, Button::Start, Button::East, Button::LeftTrigger2]),
        (1 << 1) | (1 << 11) | (1 << 6)
    );
    assert_eq!(button_bitmap(&[Button::LeftThumb, Button::Mode]), 1 << 20);
}

#[test]
fn all_buttons_held_set_fifteen_bits() {
    assert_eq!(button_bitmap(&ALL_BUTTONS), 0x0010_FCFF);
}

#[test]
fn pressing_and_releasing_changes_the_bitmap() {
    let mut pressed = Pressed::new();
    assert_eq!(pressed.bitmap(), 0);
    pressed.press(Button::North);
    pressed.press(Button::Select);
    pressed.press(Button::North);
    assert!(pressed.is_down(Button::North));
    assert!(!pressed.is_down(Button::South));
    assert_eq!(pressed.bitmap(), (1 << 3) | (1 << 10));
    pressed.release(Button::North);
    assert!(!pressed.is_down(Button::North));
    assert_eq!(pressed.bitmap(), 1 << 10);
    pressed.release(Button::North);
    pressed.release(Button::Select);
    assert_eq!(pressed.bitmap(), 0);
}

#[test]
fn unmapped_buttons_share_their_bit_until_all_are_up() {
    let mut pressed = Pressed::new();
    pressed.press(Button::LeftThumb);
    pressed.press(Button::RightThumb);
    assert_eq!(pressed.bitmap(), 1 << 20);
    pressed.release(Button::LeftThumb);
    assert_eq!(pressed.bitmap(), 1 << 20);
    pressed.release(Button::RightThumb);
    assert_eq!(pressed.bitmap(), 0);
}

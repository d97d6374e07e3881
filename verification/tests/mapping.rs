use daybreak::keymap::Button;
use daybreak::mapping::{
    button_from_name, format_mapping, name_of, parse_mapping, place_from_text, ButtonMapping,
    PLACES,
};

const STANDARD: [(u8, Button); 14] = [
    (0, Button::South),
    (1, Button::East),
    (2, Button::West),
    (3, Button::North),
    (4, Button::LeftTrigger),
    (5, Button::RightTrigger),
    (6, Button::LeftTrigger2),
    (7, Button::RightTrigger2),
    (10, Button::Select),
    (11, Button::Start),
    (12, Button::DPadUp),
    (13, Button::DPadDown),
    (14, Button::DPadLeft),
    (15, Button::DPadRight),
];

#[test]
fn standard_buttons_are_named() {
    for (_, button) in STANDARD {
        assert_eq!(button_from_name(name_of(button).as_bytes()), Some(button));
    }
    assert_eq!(name_of(Button::LeftTrigger2), "LeftTrigger2");
    assert_eq!(name_of(Button::DPadUp), "DPadUp");
}

#[test]
fn other_names_name_no_button() {
    for name in ["", "south", "LeftThumb", "RightThumb", "Mode", "C", "Z", "Unknown", "Start "] {
        assert_eq!(button_from_name(name.as_bytes()), None);
    }
}

#[test]
fn places_are_small_decimal_numbers() {
    assert_eq!(place_from_text(b"0"), Some(0));
    assert_eq!(place_from_text(b"7"), Some(7));
    assert_eq!(place_from_text(b"15"), Some(15));
    assert_eq!(place_from_text(b"007"), Some(7));
    assert_eq!(place_from_text(b"16"), None);
    assert_eq!(place_from_text(b"160"), None);
    assert_eq!(place_from_text(b"99999999999999999999999999"), None);
    assert_eq!(place_from_text(b""), None);
    assert_eq!(place_from_text(b"-1"), None);
    assert_eq!(place_from_text(b"1a"), None);
    assert_eq!(place_from_text(b" 1"), None);
}

#[test]
fn a_new_mapping_is_empty() {
    let mapping = ButtonMapping::new();
    for place in 0..=20u8 {
        assert_eq!(mapping.acting_as(place), None);
    }
    assert_eq!(mapping.unmapped(), 14);
    assert!(!mapping.is_complete());
    assert_eq!(PLACES, 16);
}

#[test]
fn a_binding_is_found_both_ways() {
    let mut mapping = ButtonMapping::new();
    mapping.bind(0, Button::East);
    mapping.bind(11, Button::Mode);
    assert_eq!(mapping.acting_as(0), Some(Button::East));
    assert_eq!(mapping.acting_as(11), Some(Button::Mode));
    assert_eq!(mapping.standard_for(Button::East), Some(Button::South));
    assert_eq!(mapping.standard_for(Button::Mode), Some(Button::Start));
    assert_eq!(mapping.standard_for(Button::South), None);
    assert_eq!(mapping.unmapped(), 12);
}

#[test]
fn a_later_binding_replaces_an_earlier_one() {
    let mut mapping = ButtonMapping::new();
    mapping.bind(3, Button::West);
    mapping.bind(3, Button::C);
    assert_eq!(mapping.acting_as(3), Some(Button::C));
    assert_eq!(mapping.standard_for(Button::West), None);
}

#[test]
fn a_place_without_a_standard_button_takes_no_binding() {
    let mut mapping = ButtonMapping::new();
    for place in [8u8, 9, 16, 20, 255] {
        mapping.bind(place, Button::South);
        assert_eq!(mapping.acting_as(place), None);
    }
    assert_eq!(mapping.standard_for(Button::South), None);
}

#[test]
fn a_button_that_acts_twice_stands_for_the_lower_place() {
    let mut mapping = ButtonMapping::new();
    mapping.bind(12, Button::Z);
    mapping.bind(5, Button::Z);
    assert_eq!(mapping.standard_for(Button::Z), Some(Button::RightTrigger));
}

#[test]
fn a_full_mapping_is_complete() {
    let mut mapping = ButtonMapping::new();
    for (place, button) in STANDARD {
        assert!(!mapping.is_complete());
        mapping.bind(place, button);
    }
    assert!(mapping.is_complete());
    assert_eq!(mapping.unmapped(), 0);
}

#[test]
fn a_mapping_text_is_read() {
    let mapping = parse_mapping(b"0:South,1:East,11:Start");
    assert_eq!(mapping.acting_as(0), Some(Button::South));
    assert_eq!(mapping.acting_as(1), Some(Button::East));
    assert_eq!(mapping.acting_as(11), Some(Button::Start));
    assert_eq!(mapping.unmapped(), 11);
}

#[test]
fn space_and_quotes_do_not_count() {
    let mapping = parse_mapping(b" 4 : \"LeftTrigger\" ,\t5:RightTrigger\n, 12:\"\"DPadUp\"");
    assert_eq!(mapping.acting_as(4), Some(Button::LeftTrigger));
    assert_eq!(mapping.acting_as(5), Some(Button::RightTrigger));
    assert_eq!(mapping.acting_as(12), Some(Button::DPadUp));
}

#[test]
fn entries_that_cannot_be_read_are_skipped() {
    let mapping = parse_mapping(b"South,x:East,2West,3:Nowhere,8:South,,16:East,:,2:West");
    assert_eq!(mapping.unmapped(), 13);
    assert_eq!(mapping.acting_as(2), Some(Button::West));
}

#[test]
fn an_empty_text_maps_nothing() {
    assert_eq!(parse_mapping(b"").unmapped(), 14);
    assert_eq!(parse_mapping(b",,,").unmapped(), 14);
}

#[test]
fn a_later_entry_replaces_an_earlier_one() {
    let mapping = parse_mapping(b"0:South,0:North");
    assert_eq!(mapping.acting_as(0), Some(Button::North));
}

#[test]
fn a_mapping_is_written_place_by_place() {
    let mut mapping = ButtonMapping::new();
    assert_eq!(format_mapping(&mapping), Vec::<u8>::new());
    mapping.bind(10, Button::Mode);
    mapping.bind(0, Button::East);
    mapping.bind(15, Button::DPadRight);
    assert_eq!(format_mapping(&mapping), b"0:East,10:Mode,15:DPadRight".to_vec());
}

#[test]
fn a_mapping_that_was_written_is_read_back() {
    let mut mapping = ButtonMapping::new();
    for (place, button) in STANDARD {
        mapping.bind(place, button);
    }
    let text = format_mapping(&mapping);
    let read = parse_mapping(&text);
    for place in 0..16u8 {
        assert_eq!(read.acting_as(place), mapping.acting_as(place));
    }
}

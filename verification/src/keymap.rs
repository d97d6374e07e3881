//! Buttons and keys, and the places they have in the input bitmap.

use vstd::prelude::*;

verus! {

/// The buttons of a gamepad.
#[derive(Clone, Copy, Debug, PartialEq, Eq, Hash, Structural)]
pub enum Button {
    South,
    East,
    North,
    West,
    C,
    Z,
    LeftTrigger,
    LeftTrigger2,
    RightTrigger,
    RightTrigger2,
    Select,
    Start,
    Mode,
    LeftThumb,
    RightThumb,
    DPadUp,
    DPadDown,
    DPadLeft,
    DPadRight,
    Unknown,
}

/// The keys of a keyboard, as far as they are told apart.
#[derive(Clone, Copy, Debug, PartialEq, Eq, Structural)]
pub enum Key {
    Char(char),
    Left,
    Right,
    Up,
    Down,
    Other,
}

/// The bit that stands for every button without a place of its own.
pub const UNMAPPED_BUTTON: u8 = 20;

/// The code that stands for every key without a code of its own.
pub const UNMAPPED_KEY: u8 = 255;

/// How many buttons there are.
pub const BUTTON_COUNT: usize = 20;

/// The bit of the input bitmap that stands for a button. Both hosts agree on
/// these places.
pub open spec fn button_bit(button: Button) -> u8 {
    match button {
        Button::South => 0,
        Button::East => 1,
        Button::West => 2,
        Button::North => 3,
        Button::LeftTrigger => 4,
        Button::RightTrigger => 5,
        Button::LeftTrigger2 => 6,
        Button::RightTrigger2 => 7,
        Button::Select => 10,
        Button::Start => 11,
        Button::DPadUp => 12,
        Button::DPadDown => 13,
        Button::DPadLeft => 14,
        Button::DPadRight => 15,
        _ => UNMAPPED_BUTTON,
    }
}

/// The bit of the input bitmap that stands for a button.
pub fn gamepad_mapped(button: &Button) -> (out: u8)
    ensures
        out == button_bit(*button),
        out < 64,
{
    match button {
        Button::South => 0,
        Button::East => 1,
        Button::West => 2,
        Button::North => 3,
        Button::LeftTrigger => 4,
        Button::RightTrigger => 5,
        Button::LeftTrigger2 => 6,
        Button::RightTrigger2 => 7,
        Button::Select => 10,
        Button::Start => 11,
        Button::DPadUp => 12,
        Button::DPadDown => 13,
        Button::DPadLeft => 14,
        Button::DPadRight => 15,
        _ => UNMAPPED_BUTTON,
    }
}

/// The button that has a bit of the input bitmap as its place, if one has.
pub open spec fn button_at_bit(bit: u8) -> Option<Button> {
    if bit == 0 {
        Some(Button::South)
    } else if bit == 1 {
        Some(Button::East)
    } else if bit == 2 {
        Some(Button::West)
    } else if bit == 3 {
        Some(Button::North)
    } else if bit == 4 {
        Some(Button::LeftTrigger)
    } else if bit == 5 {
        Some(Button::RightTrigger)
    } else if bit == 6 {
        Some(Button::LeftTrigger2)
    } else if bit == 7 {
        Some(Button::RightTrigger2)
    } else if bit == 10 {
        Some(Button::Select)
    } else if bit == 11 {
        Some(Button::Start)
    } else if bit == 12 {
        Some(Button::DPadUp)
    } else if bit == 13 {
        Some(Button::DPadDown)
    } else if bit == 14 {
        Some(Button::DPadLeft)
    } else if bit == 15 {
        Some(Button::DPadRight)
    } else {
        None
    }
}

/// The button that has a bit of the input bitmap as its place, if one has.
pub fn standard_button(bit: u8) -> (out: Option<Button>)
    ensures
        out == button_at_bit(bit),
{
    match bit {
        0 => Some(Button::South),
        1 => Some(Button::East),
        2 => Some(Button::West),
        3 => Some(Button::North),
        4 => Some(Button::LeftTrigger),
        5 => Some(Button::RightTrigger),
        6 => Some(Button::LeftTrigger2),
        7 => Some(Button::RightTrigger2),
        10 => Some(Button::Select),
        11 => Some(Button::Start),
        12 => Some(Button::DPadUp),
        13 => Some(Button::DPadDown),
        14 => Some(Button::DPadLeft),
        15 => Some(Button::DPadRight),
        _ => None,
    }
}

/// A button that has a place of its own is found again by that place.
pub proof fn lemma_button_bit_roundtrip(button: Button)
    ensures
        button_bit(button) != UNMAPPED_BUTTON ==> button_at_bit(button_bit(button)) == Some(
            button,
        ),
{
}

/// A place leads to the button whose place it is.
pub proof fn lemma_button_at_bit_roundtrip(bit: u8)
    ensures
        button_at_bit(bit) is Some ==> button_bit(button_at_bit(bit)->Some_0) == bit,
{
}

/// The code of a key: the letters from `a` count from 0, the digits from `1`
/// to `9` from 26, then `0`, a few marks and the arrows.
pub open spec fn key_code(key: Key) -> u8 {
    match key {
        Key::Char(c) => if 'a' <= c && c <= 'z' {
            (c as u32 - 'a' as u32) as u8
        } else if '1' <= c && c <= '9' {
            (26 + (c as u32 - '1' as u32)) as u8
        } else if c == '0' {
            35
        } else if c == ',' {
            36
        } else if c == '.' {
            37
        } else if c == '/' {
            38
        } else if c == ';' {
            39
        } else if c == '\'' {
            40
        } else if c == '[' {
            41
        } else if c == ']' {
            42
        } else {
            UNMAPPED_KEY
        },
        Key::Left => 43,
        Key::Right => 44,
        Key::Up => 45,
        Key::Down => 46,
        Key::Other => UNMAPPED_KEY,
    }
}

/// The code of a key.
pub fn key_map(key: &Key) -> (out: u8)
    ensures
        out == key_code(*key),
{
    match key {
        Key::Char(c) => {
            let c = *c;
            if 'a' <= c && c <= 'z' {
                (c as u32 - 'a' as u32) as u8
            } else if '1' <= c && c <= '9' {
                (26 + (c as u32 - '1' as u32)) as u8
            } else {
                match c {
                    '0' => 35,
                    ',' => 36,
                    '.' => 37,
                    '/' => 38,
                    ';' => 39,
                    '\'' => 40,
                    '[' => 41,
                    ']' => 42,
                    _ => UNMAPPED_KEY,
                }
            }
        },
        Key::Left => 43,
        Key::Right => 44,
        Key::Up => 45,
        Key::Down => 46,
        Key::Other => UNMAPPED_KEY,
    }
}

/// Whether bit `bit` of `bitmap` is set.
pub open spec fn bit_is_set(bitmap: u64, bit: u8) -> bool {
    (bitmap >> (bit as u64)) & 1 == 1
}

/// Whether some button of `pressed` has `bit` as its place.
pub open spec fn some_pressed_at(pressed: Seq<Button>, bit: u8) -> bool {
    exists|i: int| 0 <= i < pressed.len() && button_bit(#[trigger] pressed[i]) == bit
}

/// Setting a bit sets that bit and leaves the others as they were.
proof fn lemma_set_bit(bitmap: u64, place: u8, bit: u8)
    requires
        place < 64,
        bit < 64,
    ensures
        bit_is_set(bitmap | (1u64 << (place as u64)), bit) == (bit_is_set(bitmap, bit) || bit
            == place),
{
    let p = place as u64;
    let b = bit as u64;
    assert((((bitmap | (1u64 << p)) >> b) & 1 == 1) == (((bitmap >> b) & 1 == 1) || b == p))
        by (bit_vector)
        requires
            p < 64,
            b < 64,
    ;
}

/// No bit of zero is set.
proof fn lemma_zero_bits(bit: u8)
    requires
        bit < 64,
    ensures
        !bit_is_set(0, bit),
{
    let b = bit as u64;
    assert((0u64 >> b) & 1 == 0) by (bit_vector)
        requires
            b < 64,
    ;
}

/// The input bitmap of the buttons that are held down: a bit is set exactly
/// if a button that is held down has it as its place.
pub fn button_bitmap(pressed: &[Button]) -> (out: u64)
    ensures
        forall|bit: u8| bit < 64 ==> (#[trigger] bit_is_set(out, bit) <==> some_pressed_at(
            pressed@,
            bit,
        )),
{
    let mut bitmap: u64 = 0;
    let mut i: usize = 0;
    proof {
        assert forall|bit: u8| bit < 64 implies (#[trigger] bit_is_set(bitmap, bit)
            <==> some_pressed_at(pressed@.take(0), bit)) by {
            lemma_zero_bits(bit);
        }
    }
    while i < pressed.len()
        invariant
            i <= pressed.len(),
            forall|bit: u8|
                bit < 64 ==> (#[trigger] bit_is_set(bitmap, bit) <==> some_pressed_at(
                    pressed@.take(i as int),
                    bit,
                )),
        decreases pressed.len() - i,
    {
        let place = gamepad_mapped(&pressed[i]);
        let ghost before = bitmap;
        bitmap = bitmap | (1u64 << (place as u64));
        proof {
            let earlier = pressed@.take(i as int);
            let now = pressed@.take(i + 1);
            assert forall|bit: u8| bit < 64 implies (#[trigger] bit_is_set(bitmap, bit)
                <==> some_pressed_at(now, bit)) by {
                lemma_set_bit(before, place, bit);
                if some_pressed_at(now, bit) {
                    let j = choose|j: int| 0 <= j < now.len() && button_bit(#[trigger] now[j])
                        == bit;
                    if j < i {
                        assert(earlier[j] == now[j]);
                    }
                }
                if some_pressed_at(earlier, bit) {
                    let j = choose|j: int|
                        0 <= j < earlier.len() && button_bit(#[trigger] earlier[j]) == bit;
                    assert(now[j] == earlier[j]);
                }
                if bit == place {
                    assert(now[i as int] == pressed@[i as int]);
                }
            }
        }
        i = i + 1;
    }
    proof {
        assert(pressed@.take(i as int) =~= pressed@);
    }
    bitmap
}

/// The buttons that are held down.
pub struct Pressed {
    held: Vec<Button>,
}

impl View for Pressed {
    type V = Set<Button>;

    closed spec fn view(&self) -> Set<Button> {
        Set::new(|button: Button| self.held@.contains(button))
    }
}

impl Pressed {
    /// No button is held down.
    pub fn new() -> (out: Pressed)
        ensures
            out@ == Set::<Button>::empty(),
    {
        let out = Pressed { held: Vec::new() };
        assert(out@ =~= Set::<Button>::empty());
        out
    }

    /// Whether a button is held down.
    pub fn is_down(&self, button: Button) -> (out: bool)
        ensures
            out == self@.contains(button),
    {
        let mut i: usize = 0;
        while i < self.held.len()
            invariant
                i <= self.held.len(),
                forall|j: int| 0 <= j < i ==> self.held@[j] != button,
            decreases self.held.len() - i,
        {
            if self.held[i] == button {
                return true;
            }
            i = i + 1;
        }
        false
    }

    /// A button went down.
    pub fn press(&mut self, button: Button)
        ensures
            final(self)@ == old(self)@.insert(button),
    {
        if !self.is_down(button) {
            self.held.push(button);
            assert forall|other: Button| #[trigger]
                self@.contains(other) == old(self)@.insert(button).contains(other) by {
                if old(self).held@.contains(other) {
                    let j = choose|j: int|
                        0 <= j < old(self).held@.len() && old(self).held@[j] == other;
                    assert(self.held@[j] == other);
                }
                if other == button {
                    assert(self.held@[self.held@.len() - 1] == button);
                }
            }
        }
        assert(self@ =~= old(self)@.insert(button));
    }

    /// A button came up.
    pub fn release(&mut self, button: Button)
        ensures
            final(self)@ == old(self)@.remove(button),
    {
        let mut kept: Vec<Button> = Vec::new();
        let mut i: usize = 0;
        while i < self.held.len()
            invariant
                i <= self.held.len(),
                forall|other: Button|
                    #[trigger] kept@.contains(other) <==> other != button && self.held@.take(
                        i as int,
                    ).contains(other),
            decreases self.held.len() - i,
        {
            let current = self.held[i];
            let ghost before = kept@;
            if current != button {
                kept.push(current);
            }
            proof {
                let earlier = self.held@.take(i as int);
                let now = self.held@.take(i + 1);
                assert(now =~= earlier.push(current));
                assert forall|other: Button| #[trigger]
                    kept@.contains(other) <==> other != button && now.contains(other) by {
                    if now.contains(other) {
                        let j = choose|j: int| 0 <= j < now.len() && now[j] == other;
                        if j < i {
                            assert(earlier[j] == other);
                            assert(earlier.contains(other));
                        }
                    }
                    if earlier.contains(other) {
                        let j = choose|j: int| 0 <= j < earlier.len() && earlier[j] == other;
                        assert(now[j] == other);
                    }
                    if before.contains(other) {
                        let j = choose|j: int| 0 <= j < before.len() && before[j] == other;
                        assert(kept@[j] == other);
                    }
                    if kept@.contains(other) && !before.contains(other) {
                        let j = choose|j: int| 0 <= j < kept@.len() && kept@[j] == other;
                        if j < before.len() {
                            assert(before[j] == other);
                        }
                        assert(other == current);
                    }
                    if other == current {
                        assert(now[i as int] == current);
                        if current != button {
                            assert(kept@[kept@.len() - 1] == current);
                        }
                    }
                }
            }
            i = i + 1;
        }
        proof {
            assert(self.held@.take(i as int) =~= self.held@);
        }
        self.held = kept;
        assert(self@ =~= old(self)@.remove(button));
    }

    /// The input bitmap: a bit is set exactly if a button that is held down
    /// has it as its place.
    pub fn bitmap(&self) -> (out: u64)
        ensures
            forall|bit: u8|
                bit < 64 ==> (#[trigger] bit_is_set(out, bit) <==> exists|button: Button|
                    self@.contains(button) && button_bit(button) == bit),
    {
        let out = button_bitmap(self.held.as_slice());
        proof {
            assert forall|bit: u8| bit < 64 implies (#[trigger] bit_is_set(out, bit) <==> exists|
                button: Button,
            |
                self@.contains(button) && button_bit(button) == bit) by {
                if some_pressed_at(self.held@, bit) {
                    let i = choose|i: int|
                        0 <= i < self.held@.len() && button_bit(#[trigger] self.held@[i]) == bit;
                    assert(self.held@.contains(self.held@[i]));
                    assert(self@.contains(self.held@[i]));
                }
                if exists|button: Button| self@.contains(button) && button_bit(button) == bit {
                    let button = choose|button: Button|
                        self@.contains(button) && button_bit(button) == bit;
                    let i = choose|i: int| 0 <= i < self.held@.len() && self.held@[i] == button;
                    assert(button_bit(self.held@[i]) == bit);
                }
            }
        }
        out
    }
}

} // verus!

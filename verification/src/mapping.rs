//! The controller mapping: which button of the gamepad in hand acts as which
//! standard button, and the text that keeps the mapping between runs.
//!
//! The text is a list of entries parted by commas. An entry is the place of a
//! standard button, a colon, and the name of the button that acts as it.

use crate::codec::append_bytes;
use crate::devices::{decimal, push_decimal, same_bytes};
use crate::keymap::{button_at_bit, standard_button, Button};
use vstd::prelude::*;
use vstd::slice::slice_subrange;
use vstd::string::StringSliceAdditionalSpecFns;

verus! {

/// How many places the mapping has: one more than the highest place of a
/// standard button.
pub const PLACES: usize = 16;

/// The name of a button.
pub open spec fn button_name(button: Button) -> Seq<u8> {
    match button {
        Button::South => "South".spec_bytes(),
        Button::East => "East".spec_bytes(),
        Button::North => "North".spec_bytes(),
        Button::West => "West".spec_bytes(),
        Button::C => "C".spec_bytes(),
        Button::Z => "Z".spec_bytes(),
        Button::LeftTrigger => "LeftTrigger".spec_bytes(),
        Button::LeftTrigger2 => "LeftTrigger2".spec_bytes(),
        Button::RightTrigger => "RightTrigger".spec_bytes(),
        Button::RightTrigger2 => "RightTrigger2".spec_bytes(),
        Button::Select => "Select".spec_bytes(),
        Button::Start => "Start".spec_bytes(),
        Button::Mode => "Mode".spec_bytes(),
        Button::LeftThumb => "LeftThumb".spec_bytes(),
        Button::RightThumb => "RightThumb".spec_bytes(),
        Button::DPadUp => "DPadUp".spec_bytes(),
        Button::DPadDown => "DPadDown".spec_bytes(),
        Button::DPadLeft => "DPadLeft".spec_bytes(),
        Button::DPadRight => "DPadRight".spec_bytes(),
        Button::Unknown => "Unknown".spec_bytes(),
    }
}

/// The button that a name in a mapping names. Only the buttons that have a
/// place of their own can be named.
pub open spec fn button_named(name: Seq<u8>) -> Option<Button> {
    if name == "South".spec_bytes() {
        Some(Button::South)
    } else if name == "East".spec_bytes() {
        Some(Button::East)
    } else if name == "West".spec_bytes() {
        Some(Button::West)
    } else if name == "North".spec_bytes() {
        Some(Button::North)
    } else if name == "LeftTrigger".spec_bytes() {
        Some(Button::LeftTrigger)
    } else if name == "RightTrigger".spec_bytes() {
        Some(Button::RightTrigger)
    } else if name == "LeftTrigger2".spec_bytes() {
        Some(Button::LeftTrigger2)
    } else if name == "RightTrigger2".spec_bytes() {
        Some(Button::RightTrigger2)
    } else if name == "Select".spec_bytes() {
        Some(Button::Select)
    } else if name == "Start".spec_bytes() {
        Some(Button::Start)
    } else if name == "DPadUp".spec_bytes() {
        Some(Button::DPadUp)
    } else if name == "DPadDown".spec_bytes() {
        Some(Button::DPadDown)
    } else if name == "DPadLeft".spec_bytes() {
        Some(Button::DPadLeft)
    } else if name == "DPadRight".spec_bytes() {
        Some(Button::DPadRight)
    } else {
        None
    }
}

/// The name of a button.
pub fn name_of(button: Button) -> (out: &'static str)
    ensures
        out.spec_bytes() == button_name(button),
{
    match button {
        Button::South => "South",
        Button::East => "East",
        Button::North => "North",
        Button::West => "West",
        Button::C => "C",
        Button::Z => "Z",
        Button::LeftTrigger => "LeftTrigger",
        Button::LeftTrigger2 => "LeftTrigger2",
        Button::RightTrigger => "RightTrigger",
        Button::RightTrigger2 => "RightTrigger2",
        Button::Select => "Select",
        Button::Start => "Start",
        Button::Mode => "Mode",
        Button::LeftThumb => "LeftThumb",
        Button::RightThumb => "RightThumb",
        Button::DPadUp => "DPadUp",
        Button::DPadDown => "DPadDown",
        Button::DPadLeft => "DPadLeft",
        Button::DPadRight => "DPadRight",
        Button::Unknown => "Unknown",
    }
}

/// The button that a name in a mapping names.
pub fn button_from_name(name: &[u8]) -> (out: Option<Button>)
    ensures
        out == button_named(name@),
{
    if same_bytes(name, "South".as_bytes()) {
        Some(Button::South)
    } else if same_bytes(name, "East".as_bytes()) {
        Some(Button::East)
    } else if same_bytes(name, "West".as_bytes()) {
        Some(Button::West)
    } else if same_bytes(name, "North".as_bytes()) {
        Some(Button::North)
    } else if same_bytes(name, "LeftTrigger".as_bytes()) {
        Some(Button::LeftTrigger)
    } else if same_bytes(name, "RightTrigger".as_bytes()) {
        Some(Button::RightTrigger)
    } else if same_bytes(name, "LeftTrigger2".as_bytes()) {
        Some(Button::LeftTrigger2)
    } else if same_bytes(name, "RightTrigger2".as_bytes()) {
        Some(Button::RightTrigger2)
    } else if same_bytes(name, "Select".as_bytes()) {
        Some(Button::Select)
    } else if same_bytes(name, "Start".as_bytes()) {
        Some(Button::Start)
    } else if same_bytes(name, "DPadUp".as_bytes()) {
        Some(Button::DPadUp)
    } else if same_bytes(name, "DPadDown".as_bytes()) {
        Some(Button::DPadDown)
    } else if same_bytes(name, "DPadLeft".as_bytes()) {
        Some(Button::DPadLeft)
    } else if same_bytes(name, "DPadRight".as_bytes()) {
        Some(Button::DPadRight)
    } else {
        None
    }
}

/// Which button acts as which standard button. The standard buttons are told
/// apart by their places in the input bitmap.
pub struct ButtonMapping {
    acting: Vec<Option<Button>>,
}

impl View for ButtonMapping {
    type V = Seq<Option<Button>>;

    closed spec fn view(&self) -> Seq<Option<Button>> {
        self.acting@
    }
}

/// A mapping in which no button acts as any.
pub open spec fn empty_mapping() -> Seq<Option<Button>> {
    Seq::new(PLACES as nat, |place: int| None::<Button>)
}

/// The mapping with one more entry: `button` acts as the standard button at
/// `place`. A place that no standard button has changes nothing.
pub open spec fn mapping_with(mapping: Seq<Option<Button>>, place: int, button: Button) -> Seq<
    Option<Button>,
> {
    if 0 <= place < mapping.len() && button_at_bit(place as u8) is Some {
        mapping.update(place, Some(button))
    } else {
        mapping
    }
}

/// The lowest place from `from` on whose standard button `button` acts as,
/// or the number of places if there is none.
pub open spec fn place_acted(mapping: Seq<Option<Button>>, button: Button, from: int) -> int
    decreases mapping.len() - from,
{
    if from < 0 || from >= mapping.len() {
        mapping.len() as int
    } else if mapping[from] == Some(button) {
        from
    } else {
        place_acted(mapping, button, from + 1)
    }
}

/// How many standard buttons from place `from` on have no button acting as
/// them.
pub open spec fn unmapped_from(mapping: Seq<Option<Button>>, from: int) -> nat
    decreases mapping.len() - from,
{
    if from < 0 || from >= mapping.len() {
        0
    } else if button_at_bit(from as u8) is Some && mapping[from] is None {
        1 + unmapped_from(mapping, from + 1)
    } else {
        unmapped_from(mapping, from + 1)
    }
}

impl ButtonMapping {
    #[verifier::type_invariant]
    spec fn sized(&self) -> bool {
        self.acting@.len() == PLACES
    }

    /// A mapping in which no button acts as any.
    pub fn new() -> (out: ButtonMapping)
        ensures
            out@ == empty_mapping(),
    {
        let mut acting: Vec<Option<Button>> = Vec::new();
        let mut place: usize = 0;
        while place < PLACES
            invariant
                place <= PLACES,
                acting@.len() == place,
                forall|i: int| 0 <= i < place ==> acting@[i] is None,
            decreases PLACES - place,
        {
            acting.push(None);
            place = place + 1;
        }
        assert(acting@ =~= empty_mapping());
        ButtonMapping { acting }
    }

    /// Lets `button` act as the standard button at `place`. A place that no
    /// standard button has changes nothing.
    pub fn bind(&mut self, place: u8, button: Button)
        ensures
            final(self)@ == mapping_with(old(self)@, place as int, button),
            final(self)@.len() == PLACES,
    {
        proof {
            use_type_invariant(&*self);
        }
        if (place as usize) < PLACES && standard_button(place).is_some() {
            let mut acting: Vec<Option<Button>> = Vec::new();
            let mut i: usize = 0;
            while i < PLACES
                invariant
                    i <= PLACES,
                    self.acting@.len() == PLACES,
                    place < PLACES,
                    acting@.len() == i,
                    forall|j: int|
                        0 <= j < i ==> acting@[j] == if j == place {
                            Some(button)
                        } else {
                            self.acting@[j]
                        },
                decreases PLACES - i,
            {
                if i == place as usize {
                    acting.push(Some(button));
                } else {
                    acting.push(self.acting[i]);
                }
                i = i + 1;
            }
            assert(acting@ =~= self.acting@.update(place as int, Some(button)));
            self.acting = acting;
        }
    }

    /// The button that acts as the standard button at `place`, if one does.
    pub fn acting_as(&self, place: u8) -> (out: Option<Button>)
        ensures
            out == if place < PLACES {
                self@[place as int]
            } else {
                None
            },
    {
        proof {
            use_type_invariant(self);
        }
        if (place as usize) < PLACES {
            self.acting[place as usize]
        } else {
            None
        }
    }

    /// The standard button that `button` acts as: the one with the lowest
    /// place, if it acts as several.
    pub fn standard_for(&self, button: Button) -> (out: Option<Button>)
        ensures
            out == if place_acted(self@, button, 0) < PLACES {
                button_at_bit(place_acted(self@, button, 0) as u8)
            } else {
                None
            },
    {
        proof {
            use_type_invariant(self);
        }
        let mut place: usize = 0;
        while place < PLACES
            invariant
                place <= PLACES,
                self.acting@.len() == PLACES,
                place_acted(self@, button, 0) == place_acted(self@, button, place as int),
            decreases PLACES - place,
        {
            match self.acting[place] {
                Some(acting) => {
                    if acting == button {
                        return standard_button(place as u8);
                    }
                },
                None => {},
            }
            place = place + 1;
        }
        None
    }

    /// How many standard buttons have no button acting as them.
    pub fn unmapped(&self) -> (out: usize)
        ensures
            out == unmapped_from(self@, 0),
    {
        proof {
            use_type_invariant(self);
        }
        let mut count: usize = 0;
        let mut place: usize = PLACES;
        while place > 0
            invariant
                place <= PLACES,
                self.acting@.len() == PLACES,
                count == unmapped_from(self@, place as int),
                count <= PLACES - place,
            decreases place,
        {
            place = place - 1;
            if standard_button(place as u8).is_some() && self.acting[place].is_none() {
                count = count + 1;
            }
        }
        count
    }

    /// Whether every standard button has a button acting as it.
    pub fn is_complete(&self) -> (out: bool)
        ensures
            out == (unmapped_from(self@, 0) == 0),
    {
        self.unmapped() == 0
    }
}

/// Whether a byte is a decimal digit.
pub open spec fn is_digit(byte: u8) -> bool {
    0x30 <= byte && byte <= 0x39
}

/// Whether a byte is ASCII white space.
pub open spec fn is_space(byte: u8) -> bool {
    byte == 0x20 || (0x09 <= byte && byte <= 0x0D)
}

/// The number that the first `count` bytes of `text` show, read as decimal
/// digits.
pub open spec fn digits_value(text: Seq<u8>, count: int) -> nat
    decreases count,
{
    if count <= 0 {
        0
    } else {
        digits_value(text, count - 1) * 10 + (text[count - 1] - 0x30) as nat
    }
}

/// Whether `text` is one or more decimal digits.
pub open spec fn is_number(text: Seq<u8>) -> bool {
    text.len() > 0 && forall|i: int| 0 <= i < text.len() ==> is_digit(#[trigger] text[i])
}

/// The place that a number in a mapping names: a number of decimal digits
/// below the number of places.
pub open spec fn place_named(text: Seq<u8>) -> Option<u8> {
    if is_number(text) && digits_value(text, text.len() as int) < PLACES {
        Some(digits_value(text, text.len() as int) as u8)
    } else {
        None
    }
}

/// Reads the place that a number in a mapping names.
pub fn place_from_text(text: &[u8]) -> (out: Option<u8>)
    ensures
        out == place_named(text@),
{
    let len = text.len();
    if len == 0 {
        return None;
    }
    let mut value: usize = 0;
    let mut too_big = false;
    let mut i: usize = 0;
    while i < len
        invariant
            len == text@.len(),
            i <= len,
            forall|j: int| 0 <= j < i ==> is_digit(#[trigger] text@[j]),
            !too_big ==> value == digits_value(text@, i as int) && value < PLACES,
            too_big ==> digits_value(text@, i as int) >= PLACES,
        decreases len - i,
    {
        let byte = text[i];
        if !(0x30 <= byte && byte <= 0x39) {
            return None;
        }
        if !too_big {
            value = value * 10 + (byte - 0x30) as usize;
            if value >= PLACES {
                too_big = true;
            }
        } else {
            assert(digits_value(text@, i + 1) >= digits_value(text@, i as int) * 10);
        }
        i = i + 1;
    }
    if too_big {
        None
    } else {
        Some(value as u8)
    }
}

/// Where `mark` stands first in `text` from `from` on, or the length of
/// `text` if it stands nowhere.
pub open spec fn first_mark(text: Seq<u8>, mark: u8, from: int) -> int
    decreases text.len() - from,
{
    if from < 0 || from >= text.len() {
        text.len() as int
    } else if text[from] == mark {
        from
    } else {
        first_mark(text, mark, from + 1)
    }
}

/// Where `mark` stands first in `text` from `from` on.
fn find_mark(text: &[u8], mark: u8, from: usize) -> (out: usize)
    requires
        from <= text@.len(),
    ensures
        out == first_mark(text@, mark, from as int),
        from <= out <= text@.len(),
{
    let mut at = from;
    while at < text.len() && text[at] != mark
        invariant
            from <= at <= text@.len(),
            first_mark(text@, mark, from as int) == first_mark(text@, mark, at as int),
        decreases text@.len() - at,
    {
        at = at + 1;
    }
    at
}

/// `text[from..to]` without the white space at its two ends, as a pair of
/// bounds.
pub open spec fn inner_bounds(text: Seq<u8>, from: int, to: int) -> (int, int)
    decreases to - from,
{
    if from >= to {
        (from, from)
    } else if is_space(text[from]) {
        inner_bounds(text, from + 1, to)
    } else if is_space(text[to - 1]) {
        inner_bounds(text, from, to - 1)
    } else {
        (from, to)
    }
}

/// `text[from..to]` without the quotation marks at its two ends, as a pair
/// of bounds.
pub open spec fn unquoted_bounds(text: Seq<u8>, from: int, to: int) -> (int, int)
    decreases to - from,
{
    if from >= to {
        (from, from)
    } else if text[from] == 0x22 {
        unquoted_bounds(text, from + 1, to)
    } else if text[to - 1] == 0x22 {
        unquoted_bounds(text, from, to - 1)
    } else {
        (from, to)
    }
}

/// Narrows `text[from..to]` to what stands between the white space at its
/// ends.
fn strip_space(text: &[u8], from: usize, to: usize) -> (out: (usize, usize))
    requires
        from <= to <= text@.len(),
    ensures
        (out.0 as int, out.1 as int) == inner_bounds(text@, from as int, to as int),
        from <= out.0 <= out.1 <= to,
{
    let mut start = from;
    while start < to && (text[start] == 0x20 || (0x09 <= text[start] && text[start] <= 0x0D))
        invariant
            from <= start <= to <= text@.len(),
            inner_bounds(text@, from as int, to as int) == inner_bounds(
                text@,
                start as int,
                to as int,
            ),
        decreases to - start,
    {
        start = start + 1;
    }
    let mut end = to;
    while end > start && (text[end - 1] == 0x20 || (0x09 <= text[end - 1] && text[end - 1] <= 0x0D))
        invariant
            from <= start <= end <= to <= text@.len(),
            start < to ==> !is_space(text@[start as int]),
            inner_bounds(text@, from as int, to as int) == inner_bounds(
                text@,
                start as int,
                end as int,
            ),
        decreases end - start,
    {
        end = end - 1;
    }
    (start, end)
}

/// Narrows `text[from..to]` to what stands between the quotation marks at
/// its ends.
fn strip_quotes(text: &[u8], from: usize, to: usize) -> (out: (usize, usize))
    requires
        from <= to <= text@.len(),
    ensures
        (out.0 as int, out.1 as int) == unquoted_bounds(text@, from as int, to as int),
        from <= out.0 <= out.1 <= to,
{
    let mut start = from;
    while start < to && text[start] == 0x22
        invariant
            from <= start <= to <= text@.len(),
            unquoted_bounds(text@, from as int, to as int) == unquoted_bounds(
                text@,
                start as int,
                to as int,
            ),
        decreases to - start,
    {
        start = start + 1;
    }
    let mut end = to;
    while end > start && text[end - 1] == 0x22
        invariant
            from <= start <= end <= to <= text@.len(),
            start < to ==> text@[start as int] != 0x22,
            unquoted_bounds(text@, from as int, to as int) == unquoted_bounds(
                text@,
                start as int,
                end as int,
            ),
        decreases end - start,
    {
        end = end - 1;
    }
    (start, end)
}

/// One entry of a mapping text: a place and a button.
pub struct Binding {
    pub place: u8,
    pub button: Button,
}

/// The entry that `text[from..to]` holds: a number that names a place, a
/// colon, and a name that names a button. White space around the number and
/// around the name, and quotation marks around the name, do not count.
pub open spec fn entry_at(text: Seq<u8>, from: int, to: int) -> Option<Binding> {
    let colon = first_mark(text.subrange(0, to), 0x3A, from);
    if colon >= to {
        None
    } else {
        let number = inner_bounds(text, from, colon);
        let spaced = inner_bounds(text, colon + 1, to);
        let name = unquoted_bounds(text, spaced.0, spaced.1);
        match (
            place_named(text.subrange(number.0, number.1)),
            button_named(text.subrange(name.0, name.1)),
        ) {
            (Some(place), Some(button)) => Some(Binding { place, button }),
            _ => None,
        }
    }
}

/// Reads the entry that `text[from..to]` holds.
fn read_entry(text: &[u8], from: usize, to: usize) -> (out: Option<Binding>)
    requires
        from <= to <= text@.len(),
    ensures
        out == entry_at(text@, from as int, to as int),
{
    let head = slice_subrange(text, 0, to);
    let colon = find_mark(head, 0x3A, from);
    if colon >= to {
        return None;
    }
    let number = strip_space(text, from, colon);
    let spaced = strip_space(text, colon + 1, to);
    let name = strip_quotes(text, spaced.0, spaced.1);
    let place = place_from_text(slice_subrange(text, number.0, number.1));
    let button = button_from_name(slice_subrange(text, name.0, name.1));
    match (place, button) {
        (Some(place), Some(button)) => Some(Binding { place, button }),
        _ => None,
    }
}

/// The mapping that the entries of `text` from `from` on add to `mapping`,
/// in the order in which they stand. An entry that cannot be read adds
/// nothing.
pub open spec fn mapping_from(mapping: Seq<Option<Button>>, text: Seq<u8>, from: int) -> Seq<
    Option<Button>,
>
    decreases text.len() - from,
    via mapping_from_terminates
{
    if from < 0 || from > text.len() {
        mapping
    } else {
        let comma = first_mark(text, 0x2C, from);
        let next = match entry_at(text, from, comma) {
            Some(binding) => mapping_with(mapping, binding.place as int, binding.button),
            None => mapping,
        };
        if comma >= text.len() {
            next
        } else {
            mapping_from(next, text, comma + 1)
        }
    }
}

/// A mark is never found before the place from which it is looked for.
proof fn lemma_first_mark_bounds(text: Seq<u8>, mark: u8, from: int)
    requires
        0 <= from <= text.len(),
    ensures
        from <= first_mark(text, mark, from) <= text.len(),
    decreases text.len() - from,
{
    if from < text.len() && text[from] != mark {
        lemma_first_mark_bounds(text, mark, from + 1);
    }
}

#[via_fn]
proof fn mapping_from_terminates(mapping: Seq<Option<Button>>, text: Seq<u8>, from: int) {
    if 0 <= from <= text.len() {
        lemma_first_mark_bounds(text, 0x2C, from);
    }
}

/// Reads a mapping text.
pub fn parse_mapping(text: &[u8]) -> (out: ButtonMapping)
    ensures
        out@ == mapping_from(empty_mapping(), text@, 0),
{
    let mut mapping = ButtonMapping::new();
    let mut from: usize = 0;
    loop
        invariant
            from <= text@.len(),
            mapping@.len() == PLACES,
            mapping_from(empty_mapping(), text@, 0) == mapping_from(mapping@, text@, from as int),
        ensures
            mapping@ == mapping_from(empty_mapping(), text@, 0),
        decreases text@.len() - from,
    {
        let comma = find_mark(text, 0x2C, from);
        match read_entry(text, from, comma) {
            Some(binding) => {
                mapping.bind(binding.place, binding.button);
            },
            None => {},
        }
        if comma >= text.len() {
            break;
        }
        from = comma + 1;
    }
    mapping
}

/// The text of the entries of `mapping` for the places below `count`: for
/// each place that has a button acting, the place, a colon and the button's
/// name, with commas between the entries.
pub open spec fn mapping_text(mapping: Seq<Option<Button>>, count: int) -> Seq<u8>
    decreases count,
{
    if count <= 0 {
        Seq::empty()
    } else {
        let before = mapping_text(mapping, count - 1);
        match mapping[count - 1] {
            None => before,
            Some(button) => {
                let entry = decimal((count - 1) as nat) + ":".spec_bytes() + button_name(button);
                if before.len() == 0 {
                    entry
                } else {
                    before + ",".spec_bytes() + entry
                }
            },
        }
    }
}

/// Writes a mapping as text.
pub fn format_mapping(mapping: &ButtonMapping) -> (out: Vec<u8>)
    ensures
        out@ == mapping_text(mapping@, PLACES as int),
{
    proof {
        use_type_invariant(mapping);
    }
    let mut out: Vec<u8> = Vec::new();
    let mut place: usize = 0;
    while place < PLACES
        invariant
            place <= PLACES,
            mapping@.len() == PLACES,
            out@ == mapping_text(mapping@, place as int),
        decreases PLACES - place,
    {
        match mapping.acting_as(place as u8) {
            None => {},
            Some(button) => {
                let ghost before = out@;
                if out.len() > 0 {
                    append_bytes(&mut out, ",".as_bytes());
                }
                push_decimal(&mut out, place as u64);
                append_bytes(&mut out, ":".as_bytes());
                append_bytes(&mut out, name_of(button).as_bytes());
                assert(out@ =~= mapping_text(mapping@, place + 1));
            },
        }
        place = place + 1;
    }
    out
}

} // verus!

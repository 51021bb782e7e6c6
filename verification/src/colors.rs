//! Colours of the viewer: how they are written down, and how the colours of
//! the twenty buttons are filled in.

use vstd::prelude::*;
use vstd::string::StringExecFns;

use crate::error::IntErrorKind;
use crate::error::ViewerOptionConfigError;
use crate::text::parse_hex_from;
use crate::text::read_hex;
use crate::text::skip_leading;
use crate::text::to_chars;
use crate::text::without_leading;

verus! {

/// What a colour of the viewer is used for.
#[derive(Debug, Clone, Copy, PartialEq, Eq, Structural)]
pub enum ViewerColorType {
    Active,
    Inactive,
    Background,
}

/// A colour, by its red, green and blue parts.
#[derive(Debug, Clone, Copy, PartialEq, Eq, Structural)]
pub struct ViewerColor {
    pub r: u8,
    pub g: u8,
    pub b: u8,
}

/// The colours of the twenty buttons.
#[derive(Debug, Clone, Copy, PartialEq, Eq, Structural)]
pub struct ViewerButtonColors {
    pub start: ViewerColor,
    pub y: ViewerColor,
    pub x: ViewerColor,
    pub b: ViewerColor,
    pub a: ViewerColor,
    pub l: ViewerColor,
    pub r: ViewerColor,
    pub z: ViewerColor,
    pub up: ViewerColor,
    pub down: ViewerColor,
    pub right: ViewerColor,
    pub left: ViewerColor,
    pub mod_x: ViewerColor,
    pub mod_y: ViewerColor,
    pub c_left: ViewerColor,
    pub c_right: ViewerColor,
    pub c_up: ViewerColor,
    pub c_down: ViewerColor,
    pub mod_ls: ViewerColor,
    pub mod_ms: ViewerColor,
}

/// The character that stands for a hexadecimal digit, in upper case.
pub open spec fn hex_char(digit: int) -> char
    recommends
        0 <= digit < 16,
{
    if digit < 10 {
        (0x30 + digit) as char
    } else {
        (0x41 + digit - 10) as char
    }
}

/// The two characters that stand for a byte in base sixteen.
pub open spec fn hex_pair(byte: u8) -> Seq<char> {
    seq![hex_char(byte as int / 16), hex_char(byte as int % 16)]
}

/// The text that stands for the hexadecimal digit `digit`, in upper case.
fn hex_digit_text(digit: u8) -> (text: &'static str)
    requires
        digit < 16,
    ensures
        text@ == seq![hex_char(digit as int)],
{
    proof {
        reveal_strlit("0");
        reveal_strlit("1");
        reveal_strlit("2");
        reveal_strlit("3");
        reveal_strlit("4");
        reveal_strlit("5");
        reveal_strlit("6");
        reveal_strlit("7");
        reveal_strlit("8");
        reveal_strlit("9");
        reveal_strlit("A");
        reveal_strlit("B");
        reveal_strlit("C");
        reveal_strlit("D");
        reveal_strlit("E");
        reveal_strlit("F");
    }
    let text = match digit {
        0 => "0",
        1 => "1",
        2 => "2",
        3 => "3",
        4 => "4",
        5 => "5",
        6 => "6",
        7 => "7",
        8 => "8",
        9 => "9",
        10 => "A",
        11 => "B",
        12 => "C",
        13 => "D",
        14 => "E",
        _ => "F",
    };
    assert(text@ =~= seq![hex_char(digit as int)]);
    text
}

/// Appends the two characters that stand for `byte` in base sixteen.
fn push_hex_pair(text: &mut String, byte: u8)
    ensures
        final(text)@ == old(text)@ + hex_pair(byte),
{
    text.append(hex_digit_text(byte / 16));
    text.append(hex_digit_text(byte % 16));
    assert(final(text)@ == old(text)@ + hex_pair(byte));
}

impl ViewerColor {
    /// The colour of a button that is held, unless another is chosen.
    pub open spec fn spec_active_default() -> ViewerColor {
        ViewerColor { r: 0, g: 235, b: 255 }
    }

    /// The colour of a button that is not held, unless another is chosen.
    pub open spec fn spec_inactive_default() -> ViewerColor {
        ViewerColor { r: 85, g: 87, b: 83 }
    }

    /// The colour behind the buttons, unless another is chosen.
    pub open spec fn spec_background_default() -> ViewerColor {
        ViewerColor { r: 19, g: 19, b: 19 }
    }

    /// The colour that the number `0xRRGGBB` stands for. What the number
    /// holds above its lowest 24 bits is not looked at.
    pub open spec fn of_number(number: int) -> ViewerColor {
        ViewerColor {
            r: ((number / 0x1_0000) % 0x100) as u8,
            g: ((number / 0x100) % 0x100) as u8,
            b: (number % 0x100) as u8,
        }
    }

    /// What a written colour reads as: the text after every leading `#`,
    /// taken as a 32-bit number in base sixteen.
    pub open spec fn read(text: Seq<char>) -> Result<ViewerColor, IntErrorKind> {
        match read_hex(without_leading(text, seq!['#']), u32::MAX as int) {
            Ok(number) => Ok(ViewerColor::of_number(number)),
            Err(e) => Err(e),
        }
    }

    /// The colour written down: `#`, then red, green and blue, each as two
    /// hexadecimal digits in upper case.
    pub open spec fn written(self) -> Seq<char> {
        seq!['#'] + hex_pair(self.r) + hex_pair(self.g) + hex_pair(self.b)
    }

    /// This colour, or `other` where this colour is the one that stands for
    /// "none chosen", the default of a button that is not held.
    pub open spec fn or_else(self, other: ViewerColor) -> ViewerColor {
        if self == ViewerColor::spec_inactive_default() {
            other
        } else {
            self
        }
    }

    /// The colour with the given parts.
    pub fn new(r: u8, g: u8, b: u8) -> (color: ViewerColor)
        ensures
            color == (ViewerColor { r, g, b }),
    {
        ViewerColor { r, g, b }
    }

    /// The colour of a button that is held, unless another is chosen.
    #[verifier::when_used_as_spec(spec_active_default)]
    pub fn active_default() -> (color: ViewerColor)
        ensures
            color == ViewerColor::spec_active_default(),
    {
        ViewerColor { r: 0, g: 235, b: 255 }
    }

    /// The colour of a button that is not held, unless another is chosen.
    #[verifier::when_used_as_spec(spec_inactive_default)]
    pub fn inactive_default() -> (color: ViewerColor)
        ensures
            color == ViewerColor::spec_inactive_default(),
    {
        ViewerColor { r: 85, g: 87, b: 83 }
    }

    /// The colour behind the buttons, unless another is chosen.
    #[verifier::when_used_as_spec(spec_background_default)]
    pub fn background_default() -> (color: ViewerColor)
        ensures
            color == ViewerColor::spec_background_default(),
    {
        ViewerColor { r: 19, g: 19, b: 19 }
    }

    /// The colour that the number `0xRRGGBB` stands for.
    pub fn from_number(number: u32) -> (color: ViewerColor)
        ensures
            color == ViewerColor::of_number(number as int),
    {
        let r = ((number >> 16) & 255) as u8;
        let g = ((number >> 8) & 255) as u8;
        let b = (number & 255) as u8;
        assert(((number >> 16) & 255) == (number / 0x1_0000) % 0x100) by (bit_vector);
        assert(((number >> 8) & 255) == (number / 0x100) % 0x100) by (bit_vector);
        assert((number & 255) == number % 0x100) by (bit_vector);
        ViewerColor { r, g, b }
    }

    /// Reads a written colour.
    pub fn from_str(s: &str) -> (color: Result<ViewerColor, ViewerOptionConfigError>)
        ensures
            color matches Ok(c) ==> ViewerColor::read(s@) == Ok::<ViewerColor, IntErrorKind>(c),
            color matches Err(e) ==> ViewerColor::read(s@) matches Err(kind) && e
                == ViewerOptionConfigError::HexNumberParseError(kind),
    {
        let chars = to_chars(s);
        let mut mark: Vec<char> = Vec::new();
        mark.push('#');
        assert(mark@ == seq!['#']);
        let from = skip_leading(&chars, &mark);
        match parse_hex_from(&chars, from, u32::MAX) {
            Ok(number) => Ok(ViewerColor::from_number(number)),
            Err(kind) => Err(ViewerOptionConfigError::HexNumberParseError(kind)),
        }
    }

    /// Writes the colour down.
    pub fn to_hex(&self) -> (text: String)
        ensures
            text@ == self.written(),
    {
        let mut text = String::from_str("#");
        proof {
            reveal_strlit("#");
        }
        assert(text@ == seq!['#']);
        push_hex_pair(&mut text, self.r);
        push_hex_pair(&mut text, self.g);
        push_hex_pair(&mut text, self.b);
        text
    }

    /// This colour, or `other` where this colour stands for "none chosen".
    pub fn or(self, other: ViewerColor) -> (color: ViewerColor)
        ensures
            color == self.or_else(other),
    {
        if self == ViewerColor::inactive_default() {
            other
        } else {
            self
        }
    }
}

impl Default for ViewerColor {
    /// The colour that stands for "none chosen".
    fn default() -> (color: ViewerColor)
        ensures
            color == ViewerColor::spec_inactive_default(),
    {
        ViewerColor::inactive_default()
    }
}

impl ViewerButtonColors {
    /// The same colour for every button.
    pub open spec fn uniform(color: ViewerColor) -> ViewerButtonColors {
        ViewerButtonColors {
            start: color,
            y: color,
            x: color,
            b: color,
            a: color,
            l: color,
            r: color,
            z: color,
            up: color,
            down: color,
            right: color,
            left: color,
            mod_x: color,
            mod_y: color,
            c_left: color,
            c_right: color,
            c_up: color,
            c_down: color,
            mod_ls: color,
            mod_ms: color,
        }
    }

    /// These colours with `other` for every button that has none chosen.
    pub open spec fn filled(self, other: ViewerColor) -> ViewerButtonColors {
        ViewerButtonColors {
            start: self.start.or_else(other),
            y: self.y.or_else(other),
            x: self.x.or_else(other),
            b: self.b.or_else(other),
            a: self.a.or_else(other),
            l: self.l.or_else(other),
            r: self.r.or_else(other),
            z: self.z.or_else(other),
            up: self.up.or_else(other),
            down: self.down.or_else(other),
            right: self.right.or_else(other),
            left: self.left.or_else(other),
            mod_x: self.mod_x.or_else(other),
            mod_y: self.mod_y.or_else(other),
            c_left: self.c_left.or_else(other),
            c_right: self.c_right.or_else(other),
            c_up: self.c_up.or_else(other),
            c_down: self.c_down.or_else(other),
            mod_ls: self.mod_ls.or_else(other),
            mod_ms: self.mod_ms.or_else(other),
        }
    }

    /// The colours of buttons that are not held, unless others are chosen.
    pub fn default_inactive() -> (colors: ViewerButtonColors)
        ensures
            colors == ViewerButtonColors::uniform(ViewerColor::spec_inactive_default()),
    {
        ViewerButtonColors::new_with_color(ViewerColor::inactive_default())
    }

    /// The colours of buttons that are held, unless others are chosen.
    pub fn default_active() -> (colors: ViewerButtonColors)
        ensures
            colors == ViewerButtonColors::uniform(ViewerColor::spec_active_default()),
    {
        ViewerButtonColors::new_with_color(ViewerColor::active_default())
    }

    /// The same colour for every button.
    pub fn new_with_color(color: ViewerColor) -> (colors: ViewerButtonColors)
        ensures
            colors == ViewerButtonColors::uniform(color),
    {
        ViewerButtonColors {
            start: color,
            y: color,
            x: color,
            b: color,
            a: color,
            l: color,
            r: color,
            z: color,
            up: color,
            down: color,
            right: color,
            left: color,
            mod_x: color,
            mod_y: color,
            c_left: color,
            c_right: color,
            c_up: color,
            c_down: color,
            mod_ls: color,
            mod_ms: color,
        }
    }

    /// Gives every button that has no colour chosen the colour `other`.
    pub fn merge_defaults(&mut self, other: ViewerColor)
        ensures
            *final(self) == old(self).filled(other),
    {
        *self = ViewerButtonColors {
            start: self.start.or(other),
            y: self.y.or(other),
            x: self.x.or(other),
            b: self.b.or(other),
            a: self.a.or(other),
            l: self.l.or(other),
            r: self.r.or(other),
            z: self.z.or(other),
            up: self.up.or(other),
            down: self.down.or(other),
            right: self.right.or(other),
            left: self.left.or(other),
            mod_x: self.mod_x.or(other),
            mod_y: self.mod_y.or(other),
            c_left: self.c_left.or(other),
            c_right: self.c_right.or(other),
            c_up: self.c_up.or(other),
            c_down: self.c_down.or(other),
            mod_ls: self.mod_ls.or(other),
            mod_ms: self.mod_ms.or(other),
        };
    }

    /// The colour of a button: the one for held buttons where it is held,
    /// the one for buttons that are not where it is not.
    pub fn shown(held: bool, active: ViewerColor, inactive: ViewerColor) -> (color: ViewerColor)
        ensures
            color == if held {
                active
            } else {
                inactive
            },
    {
        if held {
            active
        } else {
            inactive
        }
    }

    /// Filling in is done once: filling in again changes nothing, unless the
    /// colour filled in is itself the one that stands for "none chosen".
    pub proof fn lemma_filled_once(self, other: ViewerColor, again: ViewerColor)
        requires
            other != ViewerColor::spec_inactive_default(),
        ensures
            self.filled(other).filled(again) == self.filled(other),
    {
    }
}

} // verus!

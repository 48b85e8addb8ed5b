//! Badge colours: a fixed palette, arbitrary RGB triples, and the textual
//! grammar that names them.

use vstd::prelude::*;
use vstd::string::*;

use std::borrow::Cow;

use crate::error::BadgeError;
use crate::text::{digit_char, hex_pair, push_hex_pair};

verus! {

/// Available badge colours (based on GitLab's colours).
#[derive(Clone, Copy, Debug, PartialEq, Eq)]
pub enum BadgeColor {
    /// Green, `#4c1`
    Green,
    /// Light green, `#a3c51c`
    LightGreen,
    /// Yellow, `#dfb317`
    Yellow,
    /// Red, `#e05d44`
    Red,
    /// Light grey, `#9f9f9f`
    LightGrey,
    /// Grey, `#555`
    Grey,
    /// A custom colour, given by its red, green and blue bytes
    CustomRgb(u8, u8, u8),
}

/// The value of the hexadecimal digit `c`, in either case; `None` for any
/// other character.
pub open spec fn hex_digit_value(c: char) -> Option<u8> {
    if '0' <= c <= '9' {
        Some((c as u8 - '0' as u8) as u8)
    } else if 'a' <= c <= 'f' {
        Some((c as u8 - 'a' as u8 + 10) as u8)
    } else if 'A' <= c <= 'F' {
        Some((c as u8 - 'A' as u8 + 10) as u8)
    } else {
        None
    }
}

/// Decodes one hexadecimal digit.
pub fn hex_digit(c: char) -> (value: Option<u8>)
    ensures
        value == hex_digit_value(c),
{
    if '0' <= c && c <= '9' {
        Some(c as u8 - '0' as u8)
    } else if 'a' <= c && c <= 'f' {
        Some(c as u8 - 'a' as u8 + 10)
    } else if 'A' <= c && c <= 'F' {
        Some(c as u8 - 'A' as u8 + 10)
    } else {
        None
    }
}

/// The byte that a colour component of one or two hexadecimal digits
/// denotes. A single digit `d` stands for the byte `d * 16 + d`; two
/// digits are read most significant first. Anything else denotes no byte.
pub open spec fn hex_component(digits: Seq<char>) -> Option<u8> {
    if digits.len() == 1 {
        match hex_digit_value(digits[0]) {
            Some(d) => Some((d * 16 + d) as u8),
            None => None,
        }
    } else if digits.len() == 2 {
        match (hex_digit_value(digits[0]), hex_digit_value(digits[1])) {
            (Some(high), Some(low)) => Some((high * 16 + low) as u8),
            _ => None,
        }
    } else {
        None
    }
}

/// The custom colour made of three components, if all three are bytes.
pub open spec fn custom_color(
    red: Option<u8>,
    green: Option<u8>,
    blue: Option<u8>,
) -> Option<BadgeColor> {
    match (red, green, blue) {
        (Some(r), Some(g), Some(b)) => Some(BadgeColor::CustomRgb(r, g, b)),
        _ => None,
    }
}

/// The palette entry that `name` spells, letter for letter.
pub open spec fn named_color(name: Seq<char>) -> Option<BadgeColor> {
    if name == "grey"@ || name == "gray"@ {
        Some(BadgeColor::Grey)
    } else if name == "light-grey"@ || name == "light-gray"@ {
        Some(BadgeColor::LightGrey)
    } else if name == "red"@ {
        Some(BadgeColor::Red)
    } else if name == "yellow"@ {
        Some(BadgeColor::Yellow)
    } else if name == "green"@ {
        Some(BadgeColor::Green)
    } else if name == "light-green"@ {
        Some(BadgeColor::LightGreen)
    } else {
        None
    }
}

/// The colour that a `#` followed by exactly three or exactly six
/// hexadecimal digits denotes.
pub open spec fn hex_color(text: Seq<char>) -> Option<BadgeColor> {
    if text.len() == 4 && text[0] == '#' {
        custom_color(
            hex_component(text.subrange(1, 2)),
            hex_component(text.subrange(2, 3)),
            hex_component(text.subrange(3, 4)),
        )
    } else if text.len() == 7 && text[0] == '#' {
        custom_color(
            hex_component(text.subrange(1, 3)),
            hex_component(text.subrange(3, 5)),
            hex_component(text.subrange(5, 7)),
        )
    } else {
        None
    }
}

/// The colour grammar: a palette name, or else a hexadecimal colour.
pub open spec fn parse_color(text: Seq<char>) -> Option<BadgeColor> {
    match named_color(text) {
        Some(color) => Some(color),
        None => hex_color(text),
    }
}

/// The eight palette names are told apart by their letters, and none
/// starts with `#`.
proof fn lemma_names_are_distinct()
    ensures
        "grey"@ == seq!['g', 'r', 'e', 'y'],
        "gray"@ == seq!['g', 'r', 'a', 'y'],
        "light-grey"@ == seq!['l', 'i', 'g', 'h', 't', '-', 'g', 'r', 'e', 'y'],
        "light-gray"@ == seq!['l', 'i', 'g', 'h', 't', '-', 'g', 'r', 'a', 'y'],
        "red"@ == seq!['r', 'e', 'd'],
        "yellow"@ == seq!['y', 'e', 'l', 'l', 'o', 'w'],
        "green"@ == seq!['g', 'r', 'e', 'e', 'n'],
        "light-green"@ == seq!['l', 'i', 'g', 'h', 't', '-', 'g', 'r', 'e', 'e', 'n'],
{
    reveal_strlit("grey");
    reveal_strlit("gray");
    reveal_strlit("light-grey");
    reveal_strlit("light-gray");
    reveal_strlit("red");
    reveal_strlit("yellow");
    reveal_strlit("green");
    reveal_strlit("light-green");
}

/// Each palette colour is named by its own spellings and by no other
/// string: names are matched letter for letter, so a change of case, a
/// space or any other difference makes a string name no palette colour.
pub proof fn lemma_names_are_exact(text: Seq<char>)
    ensures
        parse_color(text) == Some(BadgeColor::Grey) <==> text == "grey"@ || text == "gray"@,
        parse_color(text) == Some(BadgeColor::LightGrey) <==> text == "light-grey"@ || text
            == "light-gray"@,
        parse_color(text) == Some(BadgeColor::Red) <==> text == "red"@,
        parse_color(text) == Some(BadgeColor::Yellow) <==> text == "yellow"@,
        parse_color(text) == Some(BadgeColor::Green) <==> text == "green"@,
        parse_color(text) == Some(BadgeColor::LightGreen) <==> text == "light-green"@,
{
    lemma_names_are_distinct();
}

/// A string is a custom colour exactly if it is a hexadecimal colour:
/// `#` and three or six hexadecimal digits.
pub proof fn lemma_custom_colors_are_hex(text: Seq<char>)
    ensures
        parse_color(text) is Some && parse_color(text)->0 is CustomRgb <==> hex_color(text)
            is Some,
        hex_color(text) is Some ==> parse_color(text) == hex_color(text),
{
    lemma_names_are_distinct();
}

/// A three-digit colour `#abc` is the six-digit colour `#aabbcc`: each
/// digit `d` stands for the byte `d * 16 + d`.
pub proof fn lemma_short_hex_is_doubled(a: char, b: char, c: char)
    requires
        hex_digit_value(a) is Some,
        hex_digit_value(b) is Some,
        hex_digit_value(c) is Some,
    ensures
        parse_color(seq!['#', a, b, c]) == parse_color(seq!['#', a, a, b, b, c, c]),
        parse_color(seq!['#', a, b, c]) == Some(
            BadgeColor::CustomRgb(
                (hex_digit_value(a)->0 * 17) as u8,
                (hex_digit_value(b)->0 * 17) as u8,
                (hex_digit_value(c)->0 * 17) as u8,
            ),
        ),
{
    lemma_custom_colors_are_hex(seq!['#', a, b, c]);
    lemma_custom_colors_are_hex(seq!['#', a, a, b, b, c, c]);
}

/// A string outside the grammar is no colour: one that is none of the
/// eight names and is not `#` followed by three or six characters, or
/// that holds a character after the `#` that is no hexadecimal digit.
pub proof fn lemma_rejected_strings(text: Seq<char>)
    requires
        named_color(text) is None,
    ensures
        text.len() != 4 && text.len() != 7 ==> parse_color(text) is None,
        text.len() == 0 || text[0] != '#' ==> parse_color(text) is None,
        (exists|i: int| 1 <= i < text.len() && hex_digit_value(text[i]) is None) ==> parse_color(
            text,
        ) is None,
{
}

/// A byte written as two hexadecimal digits is read back as itself.
proof fn lemma_hex_pair_round_trip(b: u8)
    ensures
        hex_component(hex_pair(b)) == Some(b),
{
    let high: int = b as int / 16;
    let low: int = b as int % 16;
    assert(hex_digit_value(digit_char(high)) == Some(high as u8));
    assert(hex_digit_value(digit_char(low)) == Some(low as u8));
}

/// `#` and three bytes of two hexadecimal digits each are the custom
/// colour of those bytes.
proof fn lemma_long_hex_round_trip(r: u8, g: u8, b: u8)
    ensures
        parse_color(seq!['#'] + hex_pair(r) + hex_pair(g) + hex_pair(b)) == Some(
            BadgeColor::CustomRgb(r, g, b),
        ),
{
    let text = seq!['#'] + hex_pair(r) + hex_pair(g) + hex_pair(b);
    assert(text.subrange(1, 3) == hex_pair(r));
    assert(text.subrange(3, 5) == hex_pair(g));
    assert(text.subrange(5, 7) == hex_pair(b));
    lemma_hex_pair_round_trip(r);
    lemma_hex_pair_round_trip(g);
    lemma_hex_pair_round_trip(b);
    lemma_custom_colors_are_hex(text);
}

/// Every colour has a well-defined hex value: the grammar reads the hex
/// string of a colour, short or long, back as its red, green and blue
/// bytes. In particular a custom colour is parsed back from its own hex
/// string.
pub proof fn lemma_hex_string_denotes_rgb(color: BadgeColor)
    ensures
        parse_color(color.hex_string()) == Some(
            BadgeColor::CustomRgb(color.rgb().0, color.rgb().1, color.rgb().2),
        ),
{
    let (r, g, b) = color.rgb();
    match color {
        BadgeColor::Green => {
            reveal_strlit("#4c1");
            assert("#4c1"@ == seq!['#', '4', 'c', '1']);
            lemma_short_hex_is_doubled('4', 'c', '1');
        },
        BadgeColor::Grey => {
            reveal_strlit("#555");
            assert("#555"@ == seq!['#', '5', '5', '5']);
            lemma_short_hex_is_doubled('5', '5', '5');
        },
        BadgeColor::LightGreen => {
            reveal_strlit("#a3c51c");
            assert("#a3c51c"@ == seq!['#'] + hex_pair(r) + hex_pair(g) + hex_pair(b));
            lemma_long_hex_round_trip(r, g, b);
        },
        BadgeColor::Yellow => {
            reveal_strlit("#dfb317");
            assert("#dfb317"@ == seq!['#'] + hex_pair(r) + hex_pair(g) + hex_pair(b));
            lemma_long_hex_round_trip(r, g, b);
        },
        BadgeColor::Red => {
            reveal_strlit("#e05d44");
            assert("#e05d44"@ == seq!['#'] + hex_pair(r) + hex_pair(g) + hex_pair(b));
            lemma_long_hex_round_trip(r, g, b);
        },
        BadgeColor::LightGrey => {
            reveal_strlit("#9f9f9f");
            assert("#9f9f9f"@ == seq!['#'] + hex_pair(r) + hex_pair(g) + hex_pair(b));
            lemma_long_hex_round_trip(r, g, b);
        },
        BadgeColor::CustomRgb(_, _, _) => {
            lemma_long_hex_round_trip(r, g, b);
        },
    }
}

/// Whether two strings hold the same characters.
fn same_text(left: &str, right: &str) -> (same: bool)
    ensures
        same == (left@ == right@),
{
    let len: usize = left.unicode_len();
    if len != right.unicode_len() {
        return false;
    }
    let mut i: usize = 0;
    while i < len
        invariant
            len == left@.len(),
            len == right@.len(),
            i <= len,
            left@.subrange(0, i as int) == right@.subrange(0, i as int),
        decreases len - i,
    {
        if left.get_char(i) != right.get_char(i) {
            return false;
        }
        i += 1;
    }
    assert(left@ == left@.subrange(0, len as int));
    assert(right@ == right@.subrange(0, len as int));
    true
}

impl BadgeColor {
    /// The hex value of this colour: the fixed string of a palette entry,
    /// or `#` and the three bytes of a custom colour, two lowercase
    /// hexadecimal digits each.
    pub open spec fn hex_string(self) -> Seq<char> {
        match self {
            BadgeColor::Green => "#4c1"@,
            BadgeColor::LightGreen => "#a3c51c"@,
            BadgeColor::Yellow => "#dfb317"@,
            BadgeColor::Red => "#e05d44"@,
            BadgeColor::LightGrey => "#9f9f9f"@,
            BadgeColor::Grey => "#555"@,
            BadgeColor::CustomRgb(r, g, b) => seq!['#'] + hex_pair(r) + hex_pair(g) + hex_pair(b),
        }
    }

    /// The red, green and blue bytes of this colour.
    pub open spec fn rgb(self) -> (u8, u8, u8) {
        match self {
            BadgeColor::Green => (0x44, 0xcc, 0x11),
            BadgeColor::LightGreen => (0xa3, 0xc5, 0x1c),
            BadgeColor::Yellow => (0xdf, 0xb3, 0x17),
            BadgeColor::Red => (0xe0, 0x5d, 0x44),
            BadgeColor::LightGrey => (0x9f, 0x9f, 0x9f),
            BadgeColor::Grey => (0x55, 0x55, 0x55),
            BadgeColor::CustomRgb(r, g, b) => (r, g, b),
        }
    }

    /// Get the hex value of this colour.
    pub fn as_hex_str(&self) -> (hex: Cow<'static, str>)
        ensures
            hex@ == self.hex_string(),
    {
        match self {
            BadgeColor::Green => Cow::Borrowed("#4c1"),
            BadgeColor::LightGreen => Cow::Borrowed("#a3c51c"),
            BadgeColor::Yellow => Cow::Borrowed("#dfb317"),
            BadgeColor::Red => Cow::Borrowed("#e05d44"),
            BadgeColor::LightGrey => Cow::Borrowed("#9f9f9f"),
            BadgeColor::Grey => Cow::Borrowed("#555"),
            BadgeColor::CustomRgb(r, g, b) => {
                let mut hex = String::new();
                hex.push('#');
                push_hex_pair(&mut hex, *r);
                push_hex_pair(&mut hex, *g);
                push_hex_pair(&mut hex, *b);
                Cow::Owned(hex)
            },
        }
    }

    /// Parses one colour component: one or two hexadecimal digits.
    pub fn parse_hex_color(color: &str) -> (byte: Result<u8, ()>)
        ensures
            match hex_component(color@) {
                Some(b) => byte == Ok::<u8, ()>(b),
                None => byte is Err,
            },
    {
        let len: usize = color.unicode_len();
        if len == 1 {
            match hex_digit(color.get_char(0)) {
                Some(d) => Ok(d * 16 + d),
                None => Err(()),
            }
        } else if len == 2 {
            match (hex_digit(color.get_char(0)), hex_digit(color.get_char(1))) {
                (Some(high), Some(low)) => Ok(high * 16 + low),
                _ => Err(()),
            }
        } else {
            Err(())
        }
    }
}

/// What `try_from` returns is stated by its own `ensures`, over
/// [`parse_color`]: the error carries a freshly made `String`, which no spec
/// function can name.
impl<'a> vstd::std_specs::convert::TryFromSpecImpl<&'a str> for BadgeColor {
    open spec fn obeys_try_from_spec() -> bool {
        false
    }

    open spec fn try_from_spec(value: &'a str) -> Result<Self, BadgeError> {
        arbitrary()
    }
}

impl<'a> TryFrom<&'a str> for BadgeColor {
    type Error = BadgeError;

    /// Parses a colour: one of the names `grey`/`gray`,
    /// `light-grey`/`light-gray`, `red`, `yellow`, `green`, `light-green`,
    /// or `#` followed by three or six hexadecimal digits. Every other
    /// string is a [`BadgeError::InvalidColor`] that carries the input.
    fn try_from(value: &'a str) -> (parsed: Result<Self, Self::Error>)
        ensures
            match parse_color(value@) {
                Some(color) => parsed == Ok::<BadgeColor, BadgeError>(color),
                None => parsed matches Err(BadgeError::InvalidColor(s)) && s@ == value@,
            },
    {
        if same_text(value, "grey") || same_text(value, "gray") {
            return Ok(BadgeColor::Grey);
        }
        if same_text(value, "light-grey") || same_text(value, "light-gray") {
            return Ok(BadgeColor::LightGrey);
        }
        if same_text(value, "red") {
            return Ok(BadgeColor::Red);
        }
        if same_text(value, "yellow") {
            return Ok(BadgeColor::Yellow);
        }
        if same_text(value, "green") {
            return Ok(BadgeColor::Green);
        }
        if same_text(value, "light-green") {
            return Ok(BadgeColor::LightGreen);
        }
        let len: usize = value.unicode_len();
        if len == 0 || value.get_char(0) != '#' {
            return Err(BadgeError::invalid_color(value));
        }
        let hex_color: &str = value.substring_char(1, len);
        let (r, g, b) = if len == 4 {
            (
                Self::parse_hex_color(hex_color.substring_char(0, 1)),
                Self::parse_hex_color(hex_color.substring_char(1, 2)),
                Self::parse_hex_color(hex_color.substring_char(2, 3)),
            )
        } else if len == 7 {
            (
                Self::parse_hex_color(hex_color.substring_char(0, 2)),
                Self::parse_hex_color(hex_color.substring_char(2, 4)),
                Self::parse_hex_color(hex_color.substring_char(4, 6)),
            )
        } else {
            return Err(BadgeError::invalid_color(value));
        };
        match (r, g, b) {
            (Ok(r), Ok(g), Ok(b)) => Ok(BadgeColor::CustomRgb(r, g, b)),
            _ => Err(BadgeError::invalid_color(value)),
        }
    }
}

} // verus!


//! Fill colors of PNG exports.

use vstd::prelude::*;
use vstd::string::StrSliceExecFns;
use std::str::FromStr;
use typst::visualize::Color;
use crate::text::str_equal;

verus! {

/// typst's color.
#[verifier::external_type_specification]
#[verifier::external_body]
pub struct ExColor(Color);

/// The colors that a fill may name.
#[derive(Clone, Copy, Debug, PartialEq, Eq, Structural)]
pub enum NamedColor {
    Black,
    White,
    Red,
    Green,
    Blue,
}

/// Why a fill is not a color.
#[derive(Debug, PartialEq, Eq)]
pub enum ColorError {
    /// A `#` hex color that typst does not accept, with typst's reason.
    InvalidHex(String),
    /// Neither a color name nor a `#` hex color.
    InvalidColor,
}

/// The color that `fill` names, if it is one of the five names.
pub open spec fn spec_named_color(fill: Seq<char>) -> Option<NamedColor> {
    if fill == "black"@ {
        Some(NamedColor::Black)
    } else if fill == "white"@ {
        Some(NamedColor::White)
    } else if fill == "red"@ {
        Some(NamedColor::Red)
    } else if fill == "green"@ {
        Some(NamedColor::Green)
    } else if fill == "blue"@ {
        Some(NamedColor::Blue)
    } else {
        None
    }
}

/// `fill` starts with `#`.
pub open spec fn is_hex_fill(fill: Seq<char>) -> bool {
    fill.len() > 0 && fill[0] == '#'
}

/// A hexadecimal digit in either case.
pub open spec fn is_hex_digit(c: char) -> bool {
    ('0' <= c && c <= '9') || ('a' <= c && c <= 'f') || ('A' <= c && c <= 'F')
}

/// The hex colors that typst's `Color::from_str` accepts: after an
/// optional leading `#`, three, four, six or eight hexadecimal digits.
pub open spec fn hex_color_ok(s: Seq<char>) -> bool {
    let h = if s.len() > 0 && s[0] == '#' { s.subrange(1, s.len() as int) } else { s };
    &&& forall|i: int| 0 <= i < h.len() ==> is_hex_digit(#[trigger] h[i])
    &&& (h.len() == 3 || h.len() == 4 || h.len() == 6 || h.len() == 8)
}

/// `fill` is a color that [`parse_color`] accepts.
pub open spec fn spec_fill_ok(fill: Seq<char>) -> bool {
    ||| spec_named_color(fill) is Some
    ||| is_hex_fill(fill) && hex_color_ok(fill.subrange(1, fill.len() as int))
}

/// The value of typst's constant for a named color (`Color::BLACK`, ...).
pub uninterp spec fn named_color_value(name: NamedColor) -> Color;

/// The color that typst's `Color::from_str` makes of a hex string it accepts.
pub uninterp spec fn typst_hex_color(hex: Seq<char>) -> Color;

/// The message of typst's `Color::from_str` for a hex string it refuses:
/// letters that are not hexadecimal digits come first, the length second.
pub open spec fn hex_color_error(s: Seq<char>) -> Seq<char> {
    let h = if s.len() > 0 && s[0] == '#' { s.subrange(1, s.len() as int) } else { s };
    if forall|i: int| 0 <= i < h.len() ==> is_hex_digit(#[trigger] h[i]) {
        "color string has wrong length"@
    } else {
        "color string contains non-hexadecimal letters"@
    }
}

/// The color of a fill that [`parse_color`] accepts.
pub open spec fn spec_fill_color(fill: Seq<char>) -> Color {
    match spec_named_color(fill) {
        Some(n) => named_color_value(n),
        None => typst_hex_color(fill.subrange(1, fill.len() as int)),
    }
}

/// One of typst's named color constants (`Color::BLACK`, ...).
#[verifier::external_body]
pub(crate) fn named_color(name: NamedColor) -> (res: Color)
    ensures
        res == named_color_value(name),
{
    match name {
        NamedColor::Black => Color::BLACK,
        NamedColor::White => Color::WHITE,
        NamedColor::Red => Color::RED,
        NamedColor::Green => Color::GREEN,
        NamedColor::Blue => Color::BLUE,
    }
}

/// `Color::from_str`: a color from a hex string, with typst's message on
/// failure. Trusted: it succeeds exactly on the forms that its
/// documentation and source accept, `hex_color_ok`, and its two messages
/// are those of its source.
#[verifier::external_body]
fn color_from_hex(hex: &str) -> (res: Result<Color, String>)
    ensures
        res is Ok <==> hex_color_ok(hex@),
        res matches Ok(c) ==> c == typst_hex_color(hex@),
        res matches Err(m) ==> m@ == hex_color_error(hex@),
{
    match Color::from_str(hex) {
        Ok(c) => Ok(c),
        Err(e) => Err(e.to_string()),
    }
}

/// The named color of `fill`, if `fill` is one of the five names.
pub fn color_name(fill: &str) -> (res: Option<NamedColor>)
    ensures
        res == spec_named_color(fill@),
{
    if str_equal(fill, "black") {
        Some(NamedColor::Black)
    } else if str_equal(fill, "white") {
        Some(NamedColor::White)
    } else if str_equal(fill, "red") {
        Some(NamedColor::Red)
    } else if str_equal(fill, "green") {
        Some(NamedColor::Green)
    } else if str_equal(fill, "blue") {
        Some(NamedColor::Blue)
    } else {
        None
    }
}

/// Parses a fill: one of `black`, `white`, `red`, `green`, `blue`, or `#`
/// followed by a hex color that typst accepts.
pub fn parse_color(fill: String) -> (res: Result<Color, ColorError>)
    ensures
        res is Ok <==> spec_fill_ok(fill@),
        res matches Ok(c) ==> c == spec_fill_color(fill@),
        spec_named_color(fill@) matches Some(n) ==> res == Ok::<Color, ColorError>(named_color_value(n)),
        spec_named_color(fill@) is None && is_hex_fill(fill@) ==> {
            &&& res is Ok <==> hex_color_ok(fill@.subrange(1, fill@.len() as int))
            &&& res is Ok ==> res == Ok::<Color, ColorError>(typst_hex_color(fill@.subrange(1, fill@.len() as int)))
            &&& res is Err ==> (res matches Err(ColorError::InvalidHex(m))
                && m@ == hex_color_error(fill@.subrange(1, fill@.len() as int)))
        },
        spec_named_color(fill@) is None && !is_hex_fill(fill@) ==> res == Err::<Color, ColorError>(
            ColorError::InvalidColor,
        ),
{
    let s = fill.as_str();
    match color_name(s) {
        Some(name) => Ok(named_color(name)),
        None => {
            let n: usize = s.unicode_len();
            if n > 0 && s.get_char(0) == '#' {
                let hex = s.substring_char(1, n);
                match color_from_hex(hex) {
                    Ok(c) => Ok(c),
                    Err(msg) => Err(ColorError::InvalidHex(msg)),
                }
            } else {
                Err(ColorError::InvalidColor)
            }
        },
    }
}

} // verus!

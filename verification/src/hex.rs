//! Hex-triplet parsing and formatting.
//!
//! A hex triplet is exactly 6 hexadecimal digits (case-insensitive), two per
//! channel, red first. Longer input is rejected as too long; anything else
//! that is not 6 hex digits (including shorter input) is rejected as invalid.
//! Formatting renders each channel as two lowercase digits, so parsing
//! followed by formatting lowercases a valid triplet and changes nothing
//! else.

use vstd::prelude::*;
use vstd::string::StrSliceExecFns;
use vstd::string::StringExecFns;

use crate::color::Rgb;

verus! {

/// Why a token failed to parse as a hex triplet.
#[derive(Clone, Copy, PartialEq, Eq, Structural, Debug)]
pub enum ParsingError {
    InvalidHexTriplet,
    InputTooLong,
}

pub open spec fn is_hex_digit(c: char) -> bool {
    ||| '0' <= c && c <= '9'
    ||| 'a' <= c && c <= 'f'
    ||| 'A' <= c && c <= 'F'
}

/// Numeric value of a hex digit.
pub open spec fn hex_val(c: char) -> u8
    recommends
        is_hex_digit(c),
{
    if '0' <= c && c <= '9' {
        (c as u8 - 48) as u8
    } else if 'a' <= c && c <= 'f' {
        (c as u8 - 87) as u8
    } else {
        (c as u8 - 55) as u8
    }
}

pub open spec fn valid_hex_triplet(s: Seq<char>) -> bool {
    s.len() == 6 && (forall|i: int| 0 <= i < 6 ==> is_hex_digit(#[trigger] s[i]))
}

/// Value of the two-digit group starting at index `i`.
pub open spec fn channel_spec(s: Seq<char>, i: int) -> u8
    recommends
        0 <= i,
        i + 2 <= s.len(),
{
    (hex_val(s[i]) * 16 + hex_val(s[i + 1])) as u8
}

/// What `parse_color` returns on any input: too-long input fails first, then
/// anything that is not exactly 6 hex digits is invalid.
pub open spec fn parse_color_spec(s: Seq<char>) -> Result<Rgb, ParsingError> {
    if s.len() > 6 {
        Err(ParsingError::InputTooLong)
    } else if valid_hex_triplet(s) {
        Ok(
            Rgb {
                red: channel_spec(s, 0),
                green: channel_spec(s, 2),
                blue: channel_spec(s, 4),
            },
        )
    } else {
        Err(ParsingError::InvalidHexTriplet)
    }
}

/// Value of `c` as a hex digit, or `None` if `c` is not one.
pub fn hex_digit_value(c: char) -> (r: Option<u8>)
    ensures
        is_hex_digit(c) ==> r == Some(hex_val(c)),
        !is_hex_digit(c) ==> r is None,
{
    let n = c as u32;
    if 48 <= n && n <= 57 {
        Some((n - 48) as u8)
    } else if 97 <= n && n <= 102 {
        Some((n - 87) as u8)
    } else if 65 <= n && n <= 70 {
        Some((n - 55) as u8)
    } else {
        None
    }
}

/// Parses a hex triplet into an RGB color, with the error telling apart
/// too-long input from any other malformed input.
pub fn parse_color(hex_triplet: &str) -> (r: Result<Rgb, ParsingError>)
    ensures
        r == parse_color_spec(hex_triplet@),
{
    let n = hex_triplet.unicode_len();
    if n > 6 {
        return Err(ParsingError::InputTooLong);
    }
    if n != 6 {
        return Err(ParsingError::InvalidHexTriplet);
    }
    let d0 = hex_digit_value(hex_triplet.get_char(0));
    let d1 = hex_digit_value(hex_triplet.get_char(1));
    let d2 = hex_digit_value(hex_triplet.get_char(2));
    let d3 = hex_digit_value(hex_triplet.get_char(3));
    let d4 = hex_digit_value(hex_triplet.get_char(4));
    let d5 = hex_digit_value(hex_triplet.get_char(5));
    match (d0, d1, d2, d3, d4, d5) {
        (Some(r0), Some(r1), Some(g0), Some(g1), Some(b0), Some(b1)) => Ok(
            Rgb { red: r0 * 16 + r1, green: g0 * 16 + g1, blue: b0 * 16 + b1 },
        ),
        _ => Err(ParsingError::InvalidHexTriplet),
    }
}

/// Lowercase hex digit for a value below 16.
pub open spec fn hex_digit_char(v: u8) -> char
    recommends
        v < 16,
{
    if v < 10 {
        ((v + 48) as u8) as char
    } else {
        ((v + 87) as u8) as char
    }
}

/// The two lowercase digits that render one channel byte.
pub open spec fn hex_byte_seq(v: u8) -> Seq<char> {
    seq![hex_digit_char(v / 16), hex_digit_char(v % 16)]
}

/// The 6 lowercase digits that render a color, red group first.
pub open spec fn hex_triplet_spec(c: Rgb) -> Seq<char> {
    hex_byte_seq(c.red) + hex_byte_seq(c.green) + hex_byte_seq(c.blue)
}

fn hex_digit_str(v: u8) -> (r: &'static str)
    requires
        v < 16,
    ensures
        r@ =~= seq![hex_digit_char(v)],
{
    proof {
        reveal_strlit("0");
        reveal_strlit("1");
        reveal_strlit("2");
        reveal_strlit("3");
        reveal_strlit("4");
        reveal_strlit("5");
        reveal_strlit("6");
        reveal_strlit("7");
        reveal_strlit("8");
        reveal_strlit("9");
        reveal_strlit("a");
        reveal_strlit("b");
        reveal_strlit("c");
        reveal_strlit("d");
        reveal_strlit("e");
        reveal_strlit("f");
    }
    match v {
        0 => "0",
        1 => "1",
        2 => "2",
        3 => "3",
        4 => "4",
        5 => "5",
        6 => "6",
        7 => "7",
        8 => "8",
        9 => "9",
        10 => "a",
        11 => "b",
        12 => "c",
        13 => "d",
        14 => "e",
        _ => "f",
    }
}

fn push_byte_hex(out: &mut String, v: u8)
    ensures
        final(out)@ == old(out)@ + hex_byte_seq(v),
{
    out.append(hex_digit_str(v / 16));
    out.append(hex_digit_str(v % 16));
    assert(final(out)@ =~= old(out)@ + hex_byte_seq(v));
}

/// Renders a color as 6 lowercase hex digits, two per channel, red first.
pub fn hex_triplet(rgb: &Rgb) -> (r: String)
    ensures
        r@ == hex_triplet_spec(*rgb),
{
    let mut out = String::new();
    push_byte_hex(&mut out, rgb.red);
    push_byte_hex(&mut out, rgb.green);
    push_byte_hex(&mut out, rgb.blue);
    assert(out@ =~= hex_triplet_spec(*rgb));
    out
}

/// Renders one matched result as it is written out: the matched color's hex
/// triplet, a space, and the matched parent's name.
pub fn output_line(color: &Rgb, name: &str) -> (r: String)
    ensures
        r@ == hex_triplet_spec(*color) + " "@ + name@,
{
    let mut out = hex_triplet(color);
    out.append(" ");
    out.append(name);
    out
}

/// The hex digit `c` with an uppercase letter folded to lowercase.
pub open spec fn to_lower_hex_char(c: char) -> char {
    if 'A' <= c && c <= 'F' {
        ((c as u8 + 32) as u8) as char
    } else {
        c
    }
}

proof fn lemma_digit_round_trip(c: char)
    requires
        is_hex_digit(c),
    ensures
        hex_digit_char(hex_val(c)) == to_lower_hex_char(c),
{
}

/// Formatting the color parsed from a valid hex triplet gives back the same
/// 6 digits with letters folded to lowercase.
pub proof fn lemma_parse_format_round_trip(s: Seq<char>, c: Rgb)
    requires
        parse_color_spec(s) == Ok::<Rgb, ParsingError>(c),
    ensures
        hex_triplet_spec(c) =~= s.map_values(|ch: char| to_lower_hex_char(ch)),
{
    assert(valid_hex_triplet(s));
    assert forall|i: int| 0 <= i < 6 implies hex_triplet_spec(c)[i] == to_lower_hex_char(
        s[i],
    ) by {
        lemma_digit_round_trip(s[i]);
        let group = i / 2;
        let v = if group == 0 {
            c.red
        } else if group == 1 {
            c.green
        } else {
            c.blue
        };
        assert(v == channel_spec(s, 2 * group));
        assert(hex_val(s[2 * group]) < 16 && hex_val(s[2 * group + 1]) < 16);
        assert(v / 16 == hex_val(s[2 * group]) && v % 16 == hex_val(s[2 * group + 1]));
    }
}

} // verus!

//! Colors and styled text.
//!
//! A styled string is plain data: the text, a display color, and a
//! dim flag. Rendering it to a terminal is left to the caller. Color
//! names arrive as free-form configuration strings and resolve to a
//! closed set of variants; an unrecognized name falls back to white,
//! as the styling layer itself would.

use vstd::prelude::*;
use crate::text::chars_of;

verus! {

/// A display color: the sixteen named terminal colors, or a direct
/// red-green-blue triple given as a hex name.
#[derive(Clone, Copy, PartialEq, Eq, Structural, Debug)]
pub enum ColorName {
    Black,
    Red,
    Green,
    Yellow,
    Blue,
    Magenta,
    Cyan,
    White,
    BrightBlack,
    BrightRed,
    BrightGreen,
    BrightYellow,
    BrightBlue,
    BrightMagenta,
    BrightCyan,
    BrightWhite,
    Direct { r: u8, g: u8, b: u8 },
}

/// A piece of text with its presentation: color and dimming.
#[derive(Debug)]
pub struct StyledString {
    pub text: String,
    pub color: ColorName,
    pub dim: bool,
}

/// ASCII lowercasing of one character; anything but `A`..`Z` is kept.
pub open spec fn lower_char(c: char) -> char {
    if 'A' <= c && c <= 'Z' {
        ((c as u32) + 32) as char
    } else {
        c
    }
}

/// ASCII lowercasing of a whole character sequence.
pub open spec fn lower_seq(s: Seq<char>) -> Seq<char> {
    s.map_values(|c: char| lower_char(c))
}

/// The character is a lowercase hexadecimal digit.
pub open spec fn is_hex_digit(c: char) -> bool {
    ('0' <= c && c <= '9') || ('a' <= c && c <= 'f')
}

/// Value of a lowercase hexadecimal digit.
pub open spec fn hex_val(c: char) -> int {
    if '0' <= c && c <= '9' {
        c as int - 48
    } else if 'a' <= c && c <= 'f' {
        c as int - 87
    } else {
        0
    }
}

/// The byte written as two hexadecimal digits.
pub open spec fn hex_byte(a: char, b: char) -> u8 {
    (16 * hex_val(a) + hex_val(b)) as u8
}

/// The byte a single hexadecimal digit doubles into (`f` means `0xff`).
pub open spec fn hex_repeat(a: char) -> u8 {
    (17 * hex_val(a)) as u8
}

/// A hex color name as the styling layer reads it, `#` included:
/// six digits give each channel from a pair, three digits double each
/// digit; anything else falls back to white.
pub open spec fn hex_color(t: Seq<char>) -> ColorName {
    if t.len() == 7 && is_hex_digit(t[1]) && is_hex_digit(t[2]) && is_hex_digit(t[3])
        && is_hex_digit(t[4]) && is_hex_digit(t[5]) && is_hex_digit(t[6]) {
        ColorName::Direct { r: hex_byte(t[1], t[2]), g: hex_byte(t[3], t[4]), b: hex_byte(t[5], t[6]) }
    } else if t.len() == 4 && is_hex_digit(t[1]) && is_hex_digit(t[2]) && is_hex_digit(t[3]) {
        ColorName::Direct { r: hex_repeat(t[1]), g: hex_repeat(t[2]), b: hex_repeat(t[3]) }
    } else {
        ColorName::White
    }
}

/// The color a configuration string names, after ASCII lowercasing:
/// the sixteen color names (with `purple` for magenta), a `#` hex
/// triple, and white for everything else.
pub open spec fn color_of_name(s: Seq<char>) -> ColorName {
    let t = lower_seq(s);
    if t == "black"@ {
        ColorName::Black
    } else if t == "red"@ {
        ColorName::Red
    } else if t == "green"@ {
        ColorName::Green
    } else if t == "yellow"@ {
        ColorName::Yellow
    } else if t == "blue"@ {
        ColorName::Blue
    } else if t == "magenta"@ || t == "purple"@ {
        ColorName::Magenta
    } else if t == "cyan"@ {
        ColorName::Cyan
    } else if t == "white"@ {
        ColorName::White
    } else if t == "bright black"@ {
        ColorName::BrightBlack
    } else if t == "bright red"@ {
        ColorName::BrightRed
    } else if t == "bright green"@ {
        ColorName::BrightGreen
    } else if t == "bright yellow"@ {
        ColorName::BrightYellow
    } else if t == "bright blue"@ {
        ColorName::BrightBlue
    } else if t == "bright magenta"@ {
        ColorName::BrightMagenta
    } else if t == "bright cyan"@ {
        ColorName::BrightCyan
    } else if t == "bright white"@ {
        ColorName::BrightWhite
    } else if t.len() > 0 && t[0] == '#' {
        hex_color(t)
    } else {
        ColorName::White
    }
}

fn lower_char_exec(c: char) -> (r: char)
    ensures
        r == lower_char(c),
{
    match c {
        'A' => 'a',
        'B' => 'b',
        'C' => 'c',
        'D' => 'd',
        'E' => 'e',
        'F' => 'f',
        'G' => 'g',
        'H' => 'h',
        'I' => 'i',
        'J' => 'j',
        'K' => 'k',
        'L' => 'l',
        'M' => 'm',
        'N' => 'n',
        'O' => 'o',
        'P' => 'p',
        'Q' => 'q',
        'R' => 'r',
        'S' => 's',
        'T' => 't',
        'U' => 'u',
        'V' => 'v',
        'W' => 'w',
        'X' => 'x',
        'Y' => 'y',
        'Z' => 'z',
        _ => c,
    }
}

fn lower_chars(v: &Vec<char>) -> (r: Vec<char>)
    ensures
        r@ == lower_seq(v@),
{
    let mut out: Vec<char> = Vec::new();
    let mut i: usize = 0;
    while i < v.len()
        invariant
            0 <= i <= v.len(),
            out@.len() == i,
            forall|j: int| 0 <= j < i ==> out@[j] == lower_char(v@[j]),
        decreases v.len() - i,
    {
        out.push(lower_char_exec(v[i]));
        i = i + 1;
    }
    proof {
        assert(out@ =~= lower_seq(v@));
    }
    out
}

/// Whether a character vector spells out the given string.
fn chars_match(v: &Vec<char>, s: &str) -> (r: bool)
    ensures
        r == (v@ == s@),
{
    let w = chars_of(s);
    if v.len() != w.len() {
        return false;
    }
    let mut i: usize = 0;
    while i < v.len()
        invariant
            w@ == s@,
            v@.len() == w@.len(),
            0 <= i <= v.len(),
            forall|j: int| 0 <= j < i ==> v@[j] == w@[j],
        decreases v.len() - i,
    {
        if v[i] != w[i] {
            return false;
        }
        i = i + 1;
    }
    proof {
        assert(v@ =~= s@);
    }
    true
}

fn is_hex_digit_exec(c: char) -> (r: bool)
    ensures
        r == is_hex_digit(c),
{
    (c >= '0' && c <= '9') || (c >= 'a' && c <= 'f')
}

fn hex_val_exec(c: char) -> (r: u8)
    requires
        is_hex_digit(c),
    ensures
        r as int == hex_val(c),
{
    let v = c as u32;
    if c >= '0' && c <= '9' {
        (v - 48) as u8
    } else {
        (v - 87) as u8
    }
}

fn hex_byte_exec(a: char, b: char) -> (r: u8)
    requires
        is_hex_digit(a),
        is_hex_digit(b),
    ensures
        r == hex_byte(a, b),
{
    16 * hex_val_exec(a) + hex_val_exec(b)
}

fn hex_repeat_exec(a: char) -> (r: u8)
    requires
        is_hex_digit(a),
    ensures
        r == hex_repeat(a),
{
    17 * hex_val_exec(a)
}

fn hex_color_exec(t: &Vec<char>) -> (r: ColorName)
    ensures
        r == hex_color(t@),
{
    if t.len() == 7 && is_hex_digit_exec(t[1]) && is_hex_digit_exec(t[2])
        && is_hex_digit_exec(t[3]) && is_hex_digit_exec(t[4]) && is_hex_digit_exec(t[5])
        && is_hex_digit_exec(t[6]) {
        ColorName::Direct {
            r: hex_byte_exec(t[1], t[2]),
            g: hex_byte_exec(t[3], t[4]),
            b: hex_byte_exec(t[5], t[6]),
        }
    } else if t.len() == 4 && is_hex_digit_exec(t[1]) && is_hex_digit_exec(t[2])
        && is_hex_digit_exec(t[3]) {
        ColorName::Direct {
            r: hex_repeat_exec(t[1]),
            g: hex_repeat_exec(t[2]),
            b: hex_repeat_exec(t[3]),
        }
    } else {
        ColorName::White
    }
}

/// Resolve a configuration string to its color.
pub fn color_from_name(name: &str) -> (r: ColorName)
    ensures
        r == color_of_name(name@),
{
    let raw = chars_of(name);
    let t = lower_chars(&raw);
    if chars_match(&t, "black") {
        ColorName::Black
    } else if chars_match(&t, "red") {
        ColorName::Red
    } else if chars_match(&t, "green") {
        ColorName::Green
    } else if chars_match(&t, "yellow") {
        ColorName::Yellow
    } else if chars_match(&t, "blue") {
        ColorName::Blue
    } else if chars_match(&t, "magenta") || chars_match(&t, "purple") {
        ColorName::Magenta
    } else if chars_match(&t, "cyan") {
        ColorName::Cyan
    } else if chars_match(&t, "white") {
        ColorName::White
    } else if chars_match(&t, "bright black") {
        ColorName::BrightBlack
    } else if chars_match(&t, "bright red") {
        ColorName::BrightRed
    } else if chars_match(&t, "bright green") {
        ColorName::BrightGreen
    } else if chars_match(&t, "bright yellow") {
        ColorName::BrightYellow
    } else if chars_match(&t, "bright blue") {
        ColorName::BrightBlue
    } else if chars_match(&t, "bright magenta") {
        ColorName::BrightMagenta
    } else if chars_match(&t, "bright cyan") {
        ColorName::BrightCyan
    } else if chars_match(&t, "bright white") {
        ColorName::BrightWhite
    } else if t.len() > 0 && t[0] == '#' {
        hex_color_exec(&t)
    } else {
        ColorName::White
    }
}

} // verus!

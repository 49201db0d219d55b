//! Byte-exact color values: hex color literals and the plain-text pixel
//! format that rendered images are written in.

use vstd::prelude::*;

use crate::text::dec_digits;
use crate::text::is_utf8;
use crate::text::push_decimal;
use crate::text::utf8_valid;

verus! {

/// A color resolved to one byte per channel, the form colors take at the
/// serialization boundary and in hex literals.
#[derive(Clone, Copy, Debug, PartialEq, Eq, Structural)]
pub struct Rgb {
    /// Red channel, 0 to 255.
    pub r: u8,
    /// Green channel, 0 to 255.
    pub g: u8,
    /// Blue channel, 0 to 255.
    pub b: u8,
}

/// Why a hex color literal was rejected. Each variant names the stage of the
/// parse that failed, so callers can report the offending component.
#[derive(Clone, Copy, Debug, PartialEq, Eq, Structural)]
pub enum HexColorError {
    /// The seven bytes are not well-formed UTF-8.
    InvalidUtf8,
    /// The literal does not begin with `#`.
    MissingHash,
    /// The first digit pair is not two hex digits.
    InvalidRed,
    /// The second digit pair is not two hex digits.
    InvalidGreen,
    /// The third digit pair is not two hex digits.
    InvalidBlue,
}

impl HexColorError {
    /// The human-readable description of this error.
    pub open spec fn message_spec(self) -> Seq<char> {
        match self {
            HexColorError::InvalidUtf8 => "invalid UTF-8 in hex color"@,
            HexColorError::MissingHash => "hex color must start with '#'"@,
            HexColorError::InvalidRed => "invalid red component (expected 00-FF)"@,
            HexColorError::InvalidGreen => "invalid green component (expected 00-FF)"@,
            HexColorError::InvalidBlue => "invalid blue component (expected 00-FF)"@,
        }
    }

    /// A description of the error that names the offending component.
    pub fn message(self) -> (m: &'static str)
        ensures
            m@ == self.message_spec(),
    {
        match self {
            HexColorError::InvalidUtf8 => "invalid UTF-8 in hex color",
            HexColorError::MissingHash => "hex color must start with '#'",
            HexColorError::InvalidRed => "invalid red component (expected 00-FF)",
            HexColorError::InvalidGreen => "invalid green component (expected 00-FF)",
            HexColorError::InvalidBlue => "invalid blue component (expected 00-FF)",
        }
    }
}

/// Whether `b` is an ASCII hex digit, upper or lower case.
pub open spec fn is_hex_digit(b: u8) -> bool {
    (48 <= b && b <= 57) || (65 <= b && b <= 70) || (97 <= b && b <= 102)
}

/// The numeric value of the hex digit `b`.
pub open spec fn hex_digit_value(b: u8) -> int
    recommends
        is_hex_digit(b),
{
    if 48 <= b && b <= 57 {
        b - 48
    } else if 65 <= b && b <= 70 {
        b - 55
    } else {
        b - 87
    }
}

/// The byte encoded by the hex digit pair `hi`, `lo`.
pub open spec fn hex_pair_value(hi: u8, lo: u8) -> int
    recommends
        is_hex_digit(hi),
        is_hex_digit(lo),
{
    16 * hex_digit_value(hi) + hex_digit_value(lo)
}

/// The result of parsing the seven bytes of a hex color literal `#RRGGBB`:
/// the encoded color, or the first error in parse order (text validity, then
/// the leading `#`, then the red, green and blue digit pairs).
pub open spec fn hex_parse(code: Seq<u8>) -> Result<Rgb, HexColorError>
    recommends
        code.len() == 7,
{
    if !utf8_valid(code) {
        Err(HexColorError::InvalidUtf8)
    } else if code[0] != 35 {
        Err(HexColorError::MissingHash)
    } else if !(is_hex_digit(code[1]) && is_hex_digit(code[2])) {
        Err(HexColorError::InvalidRed)
    } else if !(is_hex_digit(code[3]) && is_hex_digit(code[4])) {
        Err(HexColorError::InvalidGreen)
    } else if !(is_hex_digit(code[5]) && is_hex_digit(code[6])) {
        Err(HexColorError::InvalidBlue)
    } else {
        Ok(
            Rgb {
                r: hex_pair_value(code[1], code[2]) as u8,
                g: hex_pair_value(code[3], code[4]) as u8,
                b: hex_pair_value(code[5], code[6]) as u8,
            },
        )
    }
}

/// The numeric value of the hex digit `b`, or `None` if `b` is no hex digit.
fn hex_digit(b: u8) -> (v: Option<u8>)
    ensures
        v is Some <==> is_hex_digit(b),
        is_hex_digit(b) ==> v == Some(hex_digit_value(b) as u8),
{
    if 48 <= b && b <= 57 {
        Some(b - 48)
    } else if 65 <= b && b <= 70 {
        Some(b - 55)
    } else if 97 <= b && b <= 102 {
        Some(b - 87)
    } else {
        None
    }
}

/// The byte encoded by the hex digit pair `hi`, `lo`, or `None` if either is
/// no hex digit.
fn hex_pair(hi: u8, lo: u8) -> (v: Option<u8>)
    ensures
        v is Some <==> is_hex_digit(hi) && is_hex_digit(lo),
        is_hex_digit(hi) && is_hex_digit(lo) ==> v == Some(hex_pair_value(hi, lo) as u8),
{
    match (hex_digit(hi), hex_digit(lo)) {
        (Some(h), Some(l)) => Some(16 * h + l),
        _ => None,
    }
}

impl Rgb {
    /// Packs three channel bytes into a color.
    pub fn new(r: u8, g: u8, b: u8) -> (c: Rgb)
        ensures
            c == (Rgb { r, g, b }),
    {
        Rgb { r, g, b }
    }

    /// Parses a hex color literal of exactly seven bytes, `#RRGGBB` with
    /// case-insensitive hex digits. Succeeds exactly on well-formed literals
    /// and otherwise reports the first stage of the parse that failed.
    pub fn from_hex(code: &[u8; 7]) -> (r: Result<Rgb, HexColorError>)
        ensures
            r == hex_parse(code@),
            r is Ok <==> utf8_valid(code@) && code@[0] == 35 && is_hex_digit(code@[1])
                && is_hex_digit(code@[2]) && is_hex_digit(code@[3]) && is_hex_digit(code@[4])
                && is_hex_digit(code@[5]) && is_hex_digit(code@[6]),
    {
        if !is_utf8(code.as_slice()) {
            return Err(HexColorError::InvalidUtf8);
        }
        if code[0] != 35 {
            return Err(HexColorError::MissingHash);
        }
        let r = match hex_pair(code[1], code[2]) {
            Some(v) => v,
            None => {
                return Err(HexColorError::InvalidRed);
            },
        };
        let g = match hex_pair(code[3], code[4]) {
            Some(v) => v,
            None => {
                return Err(HexColorError::InvalidGreen);
            },
        };
        let b = match hex_pair(code[5], code[6]) {
            Some(v) => v,
            None => {
                return Err(HexColorError::InvalidBlue);
            },
        };
        Ok(Rgb { r, g, b })
    }
}

/// The line a pixel occupies in the plain-text pixel format: the three
/// channel values in decimal, separated by single spaces, ending in a
/// newline.
pub open spec fn pixel_line(c: Rgb) -> Seq<u8> {
    dec_digits(c.r as nat) + seq![32u8] + dec_digits(c.g as nat) + seq![32u8] + dec_digits(
        c.b as nat,
    ) + seq![10u8]
}

/// The plain-text rendering of a whole batch of pixels: one line per pixel,
/// in order.
pub open spec fn pixel_lines(cs: Seq<Rgb>) -> Seq<u8>
    decreases cs.len(),
{
    if cs.len() == 0 {
        Seq::empty()
    } else {
        pixel_lines(cs.drop_last()) + pixel_line(cs.last())
    }
}

/// Appends the pixel line of `c` to `out`.
pub fn push_pixel_line(out: &mut Vec<u8>, c: Rgb)
    ensures
        final(out)@ == old(out)@ + pixel_line(c),
{
    push_decimal(out, c.r);
    out.push(32);
    push_decimal(out, c.g);
    out.push(32);
    push_decimal(out, c.b);
    out.push(10);
    proof {
        assert(out@ =~= old(out)@ + pixel_line(c));
    }
}

/// Renders a batch of pixels into one buffer, one line per pixel, so a
/// caller can hand the whole image to its output sink in a single write.
pub fn render_colors(colors: &[Rgb]) -> (out: Vec<u8>)
    ensures
        out@ == pixel_lines(colors@),
{
    let mut out: Vec<u8> = Vec::new();
    let mut i: usize = 0;
    while i < colors.len()
        invariant
            i <= colors@.len(),
            out@ == pixel_lines(colors@.take(i as int)),
        decreases colors@.len() - i,
    {
        push_pixel_line(&mut out, colors[i]);
        proof {
            assert(colors@.take(i as int + 1).drop_last() =~= colors@.take(i as int));
        }
        i = i + 1;
    }
    proof {
        assert(colors@.take(colors@.len() as int) =~= colors@);
    }
    out
}

} // verus!

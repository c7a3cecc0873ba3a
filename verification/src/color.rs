use vstd::prelude::*;

verus! {

/// An RGBA color with 8-bit channels.
#[derive(Clone, Copy, Debug, PartialEq, Eq, Structural)]
pub struct Color {
    pub r: u8,
    pub g: u8,
    pub b: u8,
    pub a: u8,
}

/// Whether `c` is an ASCII hexadecimal digit.
pub open spec fn is_hex_digit(c: char) -> bool {
    ('0' <= c && c <= '9') || ('a' <= c && c <= 'f') || ('A' <= c && c <= 'F')
}

/// The numeric value of an ASCII hexadecimal digit.
pub open spec fn hex_digit_value(c: char) -> u8 {
    if '0' <= c && c <= '9' {
        (c as u8 - '0' as u8) as u8
    } else if 'a' <= c && c <= 'f' {
        (c as u8 - 'a' as u8 + 10) as u8
    } else {
        (c as u8 - 'A' as u8 + 10) as u8
    }
}

/// The channel value written as the two hexadecimal digits `hi` then `lo`.
pub open spec fn hex_pair_value(hi: char, lo: char) -> u8 {
    (hex_digit_value(hi) * 16 + hex_digit_value(lo)) as u8
}

fn hex_digit(c: char) -> (r: u8)
    requires
        is_hex_digit(c),
    ensures
        r == hex_digit_value(c),
{
    if c >= '0' && c <= '9' {
        c as u8 - '0' as u8
    } else if c >= 'a' && c <= 'f' {
        c as u8 - 'a' as u8 + 10
    } else {
        c as u8 - 'A' as u8 + 10
    }
}

impl Color {
    pub fn rgb(r: u8, g: u8, b: u8) -> (c: Color)
        ensures
            c == (Color { r, g, b, a: 255 }),
    {
        Color { r, g, b, a: 255 }
    }

    pub fn rgba(r: u8, g: u8, b: u8, a: u8) -> (c: Color)
        ensures
            c == (Color { r, g, b, a }),
    {
        Color { r, g, b, a }
    }

    /// Parses a color written as `#RRGGBB`; the alpha channel is opaque.
    pub fn hex(str: &str) -> (c: Color)
        requires
            str@.len() >= 7,
            forall|i: int| 1 <= i < 7 ==> is_hex_digit(#[trigger] str@[i]),
        ensures
            c == (Color {
                r: hex_pair_value(str@[1], str@[2]),
                g: hex_pair_value(str@[3], str@[4]),
                b: hex_pair_value(str@[5], str@[6]),
                a: 255,
            }),
    {
        let r = hex_digit(str.get_char(1)) * 16 + hex_digit(str.get_char(2));
        let g = hex_digit(str.get_char(3)) * 16 + hex_digit(str.get_char(4));
        let b = hex_digit(str.get_char(5)) * 16 + hex_digit(str.get_char(6));
        Color::rgb(r, g, b)
    }
}

} // verus!

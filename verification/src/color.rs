//! Colors with four 8-bit channels.

use vstd::prelude::*;

verus! {

/// A color: red, green, blue and opacity, each from 0 to 255.
#[derive(Clone, Copy, Debug, PartialEq, Eq, Structural)]
pub struct Color {
    pub r: u8,
    pub g: u8,
    pub b: u8,
    pub a: u8,
}

/// The byte of `word` whose lowest bit has the value `place`, a power of 256.
pub open spec fn byte_at(word: u32, place: int) -> u8 {
    ((word as int / place) % 256) as u8
}

/// The four bytes of `word`, the highest first.
pub fn split_bytes(word: u32) -> (bytes: (u8, u8, u8, u8))
    ensures
        bytes.0 == byte_at(word, 0x100_0000),
        bytes.1 == byte_at(word, 0x1_0000),
        bytes.2 == byte_at(word, 0x100),
        bytes.3 == byte_at(word, 1),
{
    let b0: u32 = (word & 0xFF00_0000) >> 24;
    let b1: u32 = (word & 0x00FF_0000) >> 16;
    let b2: u32 = (word & 0x0000_FF00) >> 8;
    let b3: u32 = word & 0x0000_00FF;
    assert(b0 == (word / 0x100_0000) % 256 && b1 == (word / 0x1_0000) % 256 && b2 == (word / 0x100)
        % 256 && b3 == word % 256) by (bit_vector)
        requires
            b0 == (word & 0xFF00_0000) >> 24,
            b1 == (word & 0x00FF_0000) >> 16,
            b2 == (word & 0x0000_FF00) >> 8,
            b3 == word & 0x0000_00FF,
    ;
    (b0 as u8, b1 as u8, b2 as u8, b3 as u8)
}

impl Color {
    /// The color `0xRRGGBBAA`.
    pub open spec fn spec_hex(code: u32) -> Color {
        Color {
            r: byte_at(code, 0x100_0000),
            g: byte_at(code, 0x1_0000),
            b: byte_at(code, 0x100),
            a: byte_at(code, 1),
        }
    }

    /// The opaque color `0xRRGGBB`; the highest byte of `code` is ignored.
    pub open spec fn spec_hex_rgb(code: u32) -> Color {
        Color { r: byte_at(code, 0x1_0000), g: byte_at(code, 0x100), b: byte_at(code, 1), a: 255 }
    }

    /// The color with the given channels.
    pub fn new(r: u8, g: u8, b: u8, a: u8) -> (c: Color)
        ensures
            c == (Color { r, g, b, a }),
    {
        Color { r, g, b, a }
    }

    /// The opaque color with the given channels.
    pub fn new_rgb(r: u8, g: u8, b: u8) -> (c: Color)
        ensures
            c == (Color { r, g, b, a: 255 }),
    {
        Color::new(r, g, b, 255)
    }

    /// The color written as `0xRRGGBBAA`.
    pub fn hex(code: u32) -> (c: Color)
        ensures
            c == Self::spec_hex(code),
    {
        let (r, g, b, a) = split_bytes(code);
        Color { r, g, b, a }
    }

    /// The opaque color written as `0xRRGGBB`.
    pub fn hex_rgb(code: u32) -> (c: Color)
        ensures
            c == Self::spec_hex_rgb(code),
    {
        let (_, r, g, b) = split_bytes(code);
        Color { r, g, b, a: 255 }
    }

    /// The channels in the order red, green, blue, opacity.
    pub fn to_array(self) -> (channels: [u8; 4])
        ensures
            channels@ == seq![self.r, self.g, self.b, self.a],
    {
        [self.r, self.g, self.b, self.a]
    }
}

impl From<u32> for Color {
    /// The color written as `0xRRGGBBAA`.
    fn from(code: u32) -> (c: Color) {
        Color::hex(code)
    }
}

impl vstd::std_specs::convert::FromSpecImpl<u32> for Color {
    open spec fn obeys_from_spec() -> bool {
        true
    }

    open spec fn from_spec(code: u32) -> Color {
        Color::spec_hex(code)
    }
}

} // verus!

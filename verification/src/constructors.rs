//! Short ways to write a color.

use vstd::prelude::*;
use crate::color::{byte_at, split_bytes, Color};

verus! {

/// The opaque color with the given channels.
pub fn rgb(r: u8, g: u8, b: u8) -> (c: Color)
    ensures
        c == (Color { r, g, b, a: 255 }),
{
    rgba(r, g, b, 255)
}

/// The color with the given channels.
pub fn rgba(r: u8, g: u8, b: u8, a: u8) -> (c: Color)
    ensures
        c == (Color { r, g, b, a }),
{
    Color { r, g, b, a }
}

/// The channels of the color `0xAARRGGBB`, in the order red, green, blue,
/// opacity.
pub open spec fn spec_hex_bytes(code: u32) -> Seq<u8> {
    seq![byte_at(code, 0x1_0000), byte_at(code, 0x100), byte_at(code, 1), byte_at(code, 0x100_0000)]
}

/// The channels of the color `0xAARRGGBB`, in the order red, green, blue,
/// opacity.
pub fn hex_bytes(code: u32) -> (bytes: [u8; 4])
    ensures
        bytes@ == spec_hex_bytes(code),
{
    let (a, r, g, b) = split_bytes(code);
    [r, g, b, a]
}

/// The color written as `0xAARRGGBB`.
pub fn hex(code: u32) -> (c: Color)
    ensures
        c.r == spec_hex_bytes(code)[0],
        c.g == spec_hex_bytes(code)[1],
        c.b == spec_hex_bytes(code)[2],
        c.a == spec_hex_bytes(code)[3],
{
    let bytes = hex_bytes(code);
    Color { r: bytes[0], g: bytes[1], b: bytes[2], a: bytes[3] }
}

} // verus!

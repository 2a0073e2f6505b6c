//! Named colors.

use vstd::prelude::*;
use crate::color::Color;

verus! {

pub fn black() -> (c: Color)
    ensures
        c == (Color { r: 0, g: 0, b: 0, a: 255 }),
{
    Color { r: 0, g: 0, b: 0, a: 255 }
}

pub fn white() -> (c: Color)
    ensures
        c == (Color { r: 255, g: 255, b: 255, a: 255 }),
{
    Color { r: 255, g: 255, b: 255, a: 255 }
}

pub fn red() -> (c: Color)
    ensures
        c == (Color { r: 255, g: 0, b: 0, a: 255 }),
{
    Color { r: 255, g: 0, b: 0, a: 255 }
}

pub fn green() -> (c: Color)
    ensures
        c == (Color { r: 0, g: 255, b: 0, a: 255 }),
{
    Color { r: 0, g: 255, b: 0, a: 255 }
}

pub fn blue() -> (c: Color)
    ensures
        c == (Color { r: 0, g: 0, b: 255, a: 255 }),
{
    Color { r: 0, g: 0, b: 255, a: 255 }
}

pub fn transparent() -> (c: Color)
    ensures
        c == (Color { r: 0, g: 0, b: 0, a: 0 }),
{
    Color { r: 0, g: 0, b: 0, a: 0 }
}

pub fn yellow() -> (c: Color)
    ensures
        c == (Color { r: 255, g: 255, b: 0, a: 255 }),
{
    Color { r: 255, g: 255, b: 0, a: 255 }
}

pub fn cyan() -> (c: Color)
    ensures
        c == (Color { r: 0, g: 255, b: 255, a: 255 }),
{
    Color { r: 0, g: 255, b: 255, a: 255 }
}

pub fn magenta() -> (c: Color)
    ensures
        c == (Color { r: 255, g: 0, b: 255, a: 255 }),
{
    Color { r: 255, g: 0, b: 255, a: 255 }
}

} // verus!

//! Plain value types shared by the filter structures: colors, fixed-point
//! numbers as the wire format stores them, and opaque resource handles.

use vstd::prelude::*;

verus! {

/// An RGBA color; every component ranges over 0..=255.
#[derive(Clone, Copy, Debug, PartialEq, Eq)]
pub struct Color {
    pub r: u8,
    pub g: u8,
    pub b: u8,
    pub a: u8,
}

impl Color {
    /// Reads a color from a packed word laid out as 0xAARRGGBB.
    pub fn from_rgba(rgba: u32) -> (c: Color)
        ensures
            c.b == rgba % 0x100,
            c.g == (rgba / 0x100) % 0x100,
            c.r == (rgba / 0x10000) % 0x100,
            c.a == rgba / 0x1000000,
    {
        let b: u8 = (rgba % 0x100) as u8;
        let g: u8 = ((rgba / 0x100) % 0x100) as u8;
        let r: u8 = ((rgba / 0x10000) % 0x100) as u8;
        let a: u8 = (rgba / 0x1000000) as u8;
        Color { r, g, b, a }
    }
}

/// A signed 8.8 fixed-point number, held as its raw wire bits.
#[derive(Clone, Copy, Debug, PartialEq, Eq)]
pub struct Fixed8 {
    pub bits: i16,
}

/// A signed 16.16 fixed-point number, held as its raw wire bits.
#[derive(Clone, Copy, Debug, PartialEq, Eq)]
pub struct Fixed16 {
    pub bits: i32,
}

/// An opaque, cheaply copyable reference to a bitmap owned by an
/// external registry. The payload is never interpreted here.
#[derive(Clone, Copy, Debug, PartialEq, Eq)]
pub struct BitmapHandle {
    pub id: u64,
}

/// An opaque, cheaply copyable reference to a compiled shader owned by an
/// external registry.
#[derive(Clone, Copy, Debug, PartialEq, Eq)]
pub struct ShaderHandle {
    pub id: u64,
}

/// One control point of a gradient: a position ratio and its color.
#[derive(Clone, Copy, Debug, PartialEq, Eq)]
pub struct GradientRecord {
    pub ratio: u8,
    pub color: Color,
}

} // verus!

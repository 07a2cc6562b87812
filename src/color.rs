//! Colors as four 8-bit channels.
use vstd::prelude::*;

verus! {

/// An sRGBA color with premultiplied alpha, one byte per channel.
#[derive(Debug, Clone, Copy, PartialEq, Eq, Structural)]
pub struct Color32 {
    pub r: u8,
    pub g: u8,
    pub b: u8,
    pub a: u8,
}

/// The fully transparent color, all channels zero.
pub open spec fn transparent() -> Color32 {
    Color32 { r: 0, g: 0, b: 0, a: 0 }
}

impl Color32 {
    /// The fully transparent color.
    pub fn transparent() -> (c: Color32)
        ensures
            c == transparent(),
    {
        Color32 { r: 0, g: 0, b: 0, a: 0 }
    }

    /// An opaque color from its red, green and blue channels.
    pub fn from_rgb(r: u8, g: u8, b: u8) -> (c: Color32)
        ensures
            c == (Color32 { r, g, b, a: 255 }),
    {
        Color32 { r, g, b, a: 255 }
    }

    /// A color from its four channels, alpha already multiplied in.
    pub fn from_rgba_premultiplied(r: u8, g: u8, b: u8, a: u8) -> (c: Color32)
        ensures
            c == (Color32 { r, g, b, a }),
    {
        Color32 { r, g, b, a }
    }

    /// The four channels as `[r, g, b, a]`.
    pub fn to_array(&self) -> (arr: [u8; 4])
        ensures
            arr@ == seq![self.r, self.g, self.b, self.a],
    {
        [self.r, self.g, self.b, self.a]
    }
}

} // verus!

use vstd::prelude::*;

verus! {

/// The alpha value of a fully opaque color.
pub const ALPHA_OPAQUE: u8 = 255;

/// A color in encoded (sRGB) space, eight bits per channel.
///
/// This is the quantized form that hex strings and the palette tables work
/// with: each channel is the rounded product of the toolkit's normalized
/// floating-point channel and 255. Conversion to and from the toolkit's
/// own color type happens outside the library.
#[derive(Clone, Copy, PartialEq, Eq, Structural, Debug)]
pub struct Rgba8 {
    pub r: u8,
    pub g: u8,
    pub b: u8,
    pub a: u8,
}

impl Rgba8 {
    /// Whether the color is fully opaque.
    pub open spec fn is_opaque(self) -> bool {
        self.a == ALPHA_OPAQUE
    }

    /// An opaque color from its three channels.
    pub fn from_rgb(r: u8, g: u8, b: u8) -> (c: Rgba8)
        ensures
            c == (Rgba8 { r, g, b, a: ALPHA_OPAQUE }),
    {
        Rgba8 { r, g, b, a: ALPHA_OPAQUE }
    }

    /// A color from all four channels.
    pub fn from_rgba(r: u8, g: u8, b: u8, a: u8) -> (c: Rgba8)
        ensures
            c == (Rgba8 { r, g, b, a }),
    {
        Rgba8 { r, g, b, a }
    }
}

} // verus!

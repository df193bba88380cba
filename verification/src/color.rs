//! Packed 4-channel 8-bit color with clamping arithmetic.

use vstd::prelude::*;
use crate::fixed::FX_ONE;
use crate::fixed::tdiv;

verus! {

/// A color: four 8-bit channels. The channel range [0, 255] is the type's
/// invariant by construction; all arithmetic clamps back into it.
#[derive(Clone, Copy, PartialEq, Eq, Structural, Hash, Debug)]
pub struct Color {
    pub r: u8,
    pub g: u8,
    pub b: u8,
    pub a: u8,
}

/// A channel scaled by a fixed-point factor and clamped into [0, 255].
pub open spec fn scale_channel_s(c: int, scalar: int) -> int {
    let v = tdiv(c * scalar, FX_ONE as int);
    if v < 0 {
        0
    } else if v > 255 {
        255
    } else {
        v
    }
}

/// The sum of two channels, saturated at 255.
pub open spec fn add_channel_s(a: int, b: int) -> int {
    if a + b > 255 {
        255
    } else {
        a + b
    }
}

/// The RGBA bit-packing: r in the top byte, then g, b, a.
pub open spec fn rgba_s(c: Color) -> int {
    (c.r as int) * 0x100_0000 + (c.g as int) * 0x1_0000 + (c.b as int) * 0x100 + (c.a as int)
}

/// The ARGB bit-packing: a in the top byte, then r, g, b.
pub open spec fn argb_s(c: Color) -> int {
    (c.a as int) * 0x100_0000 + (c.r as int) * 0x1_0000 + (c.g as int) * 0x100 + (c.b as int)
}

impl Color {
    /// An opaque color from three channels (alpha is 255).
    pub fn new_rgb(r: u8, g: u8, b: u8) -> (c: Color)
        ensures
            c == (Color { r, g, b, a: 255u8 }),
    {
        Color { r, g, b, a: 255 }
    }

    /// A color from all four channels.
    pub fn new_rgba(r: u8, g: u8, b: u8, a: u8) -> (c: Color)
        ensures
            c == (Color { r, g, b, a }),
    {
        Color { r, g, b, a }
    }

    /// The color packed as a 32-bit word in RGBA channel order.
    pub fn rgba(&self) -> (w: u32)
        ensures
            w as int == rgba_s(*self),
    {
        let w: u32 = ((self.r as u32) << 24u32) | ((self.g as u32) << 16u32)
            | ((self.b as u32) << 8u32) | (self.a as u32);
        proof {
            let r = self.r as u32;
            let g = self.g as u32;
            let b = self.b as u32;
            let a = self.a as u32;
            assert((r << 24u32) | (g << 16u32) | (b << 8u32) | a
                == r * 0x100_0000 + g * 0x1_0000 + b * 0x100 + a) by (bit_vector)
                requires
                    r < 256,
                    g < 256,
                    b < 256,
                    a < 256,
            ;
        }
        w
    }

    /// The color packed as a 32-bit word in ARGB channel order.
    pub fn argb(&self) -> (w: u32)
        ensures
            w as int == argb_s(*self),
    {
        let w: u32 = ((self.a as u32) << 24u32) | ((self.r as u32) << 16u32)
            | ((self.g as u32) << 8u32) | (self.b as u32);
        proof {
            let r = self.r as u32;
            let g = self.g as u32;
            let b = self.b as u32;
            let a = self.a as u32;
            assert((a << 24u32) | (r << 16u32) | (g << 8u32) | b
                == a * 0x100_0000 + r * 0x1_0000 + g * 0x100 + b) by (bit_vector)
                requires
                    r < 256,
                    g < 256,
                    b < 256,
                    a < 256,
            ;
        }
        w
    }

    /// Scale the r, g and b channels by a fixed-point factor (`FX_ONE`
    /// stands for 1.0), clamping each into [0, 255]. The result is opaque.
    pub fn mul_with(&self, scalar: i64) -> (c: Color)
        ensures
            c.r as int == scale_channel_s(self.r as int, scalar as int),
            c.g as int == scale_channel_s(self.g as int, scalar as int),
            c.b as int == scale_channel_s(self.b as int, scalar as int),
            c.a == 255u8,
    {
        let r = Self::scale_channel(self.r, scalar);
        let g = Self::scale_channel(self.g, scalar);
        let b = Self::scale_channel(self.b, scalar);
        Color { r, g, b, a: 255 }
    }

    /// Add the r, g and b channels of another color, saturating each
    /// at 255. The result is opaque.
    pub fn add_color(&self, other: &Color) -> (c: Color)
        ensures
            c.r as int == add_channel_s(self.r as int, other.r as int),
            c.g as int == add_channel_s(self.g as int, other.g as int),
            c.b as int == add_channel_s(self.b as int, other.b as int),
            c.a == 255u8,
    {
        let r = self.r.saturating_add(other.r);
        let g = self.g.saturating_add(other.g);
        let b = self.b.saturating_add(other.b);
        Color { r, g, b, a: 255 }
    }

    /// One channel scaled by a fixed-point factor, clamped into [0, 255].
    fn scale_channel(c: u8, scalar: i64) -> (v: u8)
        ensures
            v as int == scale_channel_s(c as int, scalar as int),
    {
        proof {
            crate::fixed::lemma_small_mul_fits_i128(c as int, scalar as int, 256, 0x8000_0000_0000_0000);
        }
        let p: i128 = (c as i128) * (scalar as i128);
        let q: i64 = crate::fixed::div_sat64(p, FX_ONE as i128);
        if q < 0 {
            0
        } else if q > 255 {
            255
        } else {
            q as u8
        }
    }
}

} // verus!

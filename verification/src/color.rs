//! The pixel layouts a decoder commits to producing.

use vstd::prelude::*;

verus! {

/// The output pixel layout of a decode, all channels 8 bits deep.
#[derive(Clone, Copy, Debug, PartialEq, Eq)]
pub enum ColorType {
    /// One luminance byte per pixel.
    L8,
    /// Luminance and alpha, two bytes per pixel.
    La8,
    /// Red, green, blue, three bytes per pixel.
    Rgb8,
    /// Red, green, blue, alpha, four bytes per pixel.
    Rgba8,
}

impl ColorType {
    /// How many bytes one pixel of this layout occupies.
    pub open spec fn spec_bytes_per_pixel(self) -> u8 {
        match self {
            ColorType::L8 => 1,
            ColorType::La8 => 2,
            ColorType::Rgb8 => 3,
            ColorType::Rgba8 => 4,
        }
    }

    /// Returns the number of bytes one pixel of this layout occupies.
    pub fn bytes_per_pixel(self) -> (r: u8)
        ensures
            r == self.spec_bytes_per_pixel(),
    {
        match self {
            ColorType::L8 => 1,
            ColorType::La8 => 2,
            ColorType::Rgb8 => 3,
            ColorType::Rgba8 => 4,
        }
    }
}

} // verus!

//! The orientation-correction model.
//!
//! Embedded image metadata carries a numeric orientation code; the eight
//! valid codes 1 through 8 stand in bijection with the eight transforms a
//! viewer must apply to the decoded buffer.

use vstd::prelude::*;

verus! {

/// Describes the transformations to be applied to the image, as written
/// into embedded metadata by cameras.
///
/// The eight variants are the rotations by 0, 90, 180 and 270 degrees
/// clockwise, crossed with an optional horizontal flip.
#[derive(Copy, Clone, PartialEq, Eq, Hash, Debug)]
pub enum Orientation {
    /// Do not perform any transformations.
    NoTransforms,
    /// Rotate by 90 degrees clockwise.
    Rotate90,
    /// Rotate by 180 degrees. Can be performed in-place.
    Rotate180,
    /// Rotate by 270 degrees clockwise. Equivalent to rotating by 90
    /// degrees counter-clockwise.
    Rotate270,
    /// Flip horizontally. Can be performed in-place.
    FlipHorizontal,
    /// Flip vertically. Can be performed in-place.
    FlipVertical,
    /// Rotate by 90 degrees clockwise and flip horizontally.
    Rotate90FlipH,
    /// Rotate by 270 degrees clockwise and flip horizontally.
    Rotate270FlipH,
}

impl Orientation {
    /// The orientation a metadata code denotes: codes 1 through 8 map
    /// bijectively onto the eight variants, while 0 and everything from 9
    /// upward denote invalid or absent metadata.
    pub open spec fn spec_from_exif(code: u8) -> Option<Orientation> {
        match code {
            1u8 => Some(Orientation::NoTransforms),
            2u8 => Some(Orientation::FlipHorizontal),
            3u8 => Some(Orientation::Rotate180),
            4u8 => Some(Orientation::FlipVertical),
            5u8 => Some(Orientation::Rotate90FlipH),
            6u8 => Some(Orientation::Rotate90),
            7u8 => Some(Orientation::Rotate270FlipH),
            8u8 => Some(Orientation::Rotate270),
            _ => None,
        }
    }

    /// The metadata code that denotes this orientation.
    pub open spec fn spec_to_exif(self) -> u8 {
        match self {
            Orientation::NoTransforms => 1,
            Orientation::FlipHorizontal => 2,
            Orientation::Rotate180 => 3,
            Orientation::FlipVertical => 4,
            Orientation::Rotate90FlipH => 5,
            Orientation::Rotate90 => 6,
            Orientation::Rotate270FlipH => 7,
            Orientation::Rotate270 => 8,
        }
    }

    /// Whether this orientation can be applied to a buffer by overwriting
    /// pixels positionally, without a second buffer: true exactly for the
    /// transforms that keep width and height, that is the identity, the
    /// rotation by 180 degrees and the two axis flips.
    pub open spec fn spec_applies_in_place(self) -> bool {
        match self {
            Orientation::NoTransforms => true,
            Orientation::Rotate90 => false,
            Orientation::Rotate180 => true,
            Orientation::Rotate270 => false,
            Orientation::FlipHorizontal => true,
            Orientation::FlipVertical => true,
            Orientation::Rotate90FlipH => false,
            Orientation::Rotate270FlipH => false,
        }
    }

    /// Converts from a metadata orientation code.
    pub fn from_exif(exif_orientation: u8) -> (r: Option<Self>)
        ensures
            r == Orientation::spec_from_exif(exif_orientation),
    {
        match exif_orientation {
            1 => Some(Self::NoTransforms),
            2 => Some(Self::FlipHorizontal),
            3 => Some(Self::Rotate180),
            4 => Some(Self::FlipVertical),
            5 => Some(Self::Rotate90FlipH),
            6 => Some(Self::Rotate90),
            7 => Some(Self::Rotate270FlipH),
            8 => Some(Self::Rotate270),
            0 | 9.. => None,
        }
    }

    /// Converts into a metadata orientation code.
    pub fn to_exif(self) -> (r: u8)
        ensures
            r == self.spec_to_exif(),
    {
        match self {
            Self::NoTransforms => 1,
            Self::FlipHorizontal => 2,
            Self::Rotate180 => 3,
            Self::FlipVertical => 4,
            Self::Rotate90FlipH => 5,
            Self::Rotate90 => 6,
            Self::Rotate270FlipH => 7,
            Self::Rotate270 => 8,
        }
    }

    /// Returns `true` if the specified orientation can be applied to an
    /// image in-place, without making a copy of the image.
    ///
    /// This is relevant when enforcing a memory limit, since applying the
    /// other four transforms briefly needs a second buffer as large as
    /// the image itself.
    pub fn applies_in_place(self) -> (r: bool)
        ensures
            r == self.spec_applies_in_place(),
    {
        match self {
            Orientation::NoTransforms => true,
            Orientation::Rotate90 => false,
            Orientation::Rotate180 => true,
            Orientation::Rotate270 => false,
            Orientation::FlipHorizontal => true,
            Orientation::FlipVertical => true,
            Orientation::Rotate90FlipH => false,
            Orientation::Rotate270FlipH => false,
        }
    }
}

/// Every valid metadata code comes back out of the orientation it
/// denotes: for codes 1 through 8, converting to an orientation and back
/// yields the same code.
pub proof fn lemma_exif_code_round_trip(code: u8)
    requires
        1 <= code <= 8,
    ensures
        Orientation::spec_from_exif(code) matches Some(o) && o.spec_to_exif() == code,
{
}

/// Every orientation comes back out of its own code: converting to the
/// metadata code and back yields the same orientation.
pub proof fn lemma_orientation_round_trip(o: Orientation)
    ensures
        Orientation::spec_from_exif(o.spec_to_exif()) == Some(o),
{
}

/// Code 0 and every code from 9 upward denote no orientation.
pub proof fn lemma_exif_code_invalid(code: u8)
    requires
        code == 0 || code >= 9,
    ensures
        Orientation::spec_from_exif(code) is None,
{
}

/// An orientation applies in place exactly when it is the identity, the
/// rotation by 180 degrees, or one of the two axis flips; the four
/// transforms that transpose width and height do not.
pub proof fn lemma_applies_in_place_exactly(o: Orientation)
    ensures
        o.spec_applies_in_place() <==> (o == Orientation::NoTransforms
            || o == Orientation::Rotate180 || o == Orientation::FlipHorizontal
            || o == Orientation::FlipVertical),
{
}

} // verus!

//! Resource limits a caller hands to a decoder.
//!
//! A `Limits` value carries three independent optional bounds; it performs
//! no enforcement itself. Enforcement is each decoder's responsibility.

use vstd::prelude::*;

verus! {

/// Resource limits for a decoding operation.
///
/// Each field is independently either unset, which leaves that axis
/// unbounded, or a bound. There is no cross-field validation. The value
/// only carries configuration: it performs no I/O and cannot fail.
#[derive(Clone, Copy, Debug, PartialEq, Eq)]
pub struct Limits {
    /// Maximum admitted width of an image, in pixels.
    pub max_image_width: Option<u32>,
    /// Maximum admitted height of an image, in pixels.
    pub max_image_height: Option<u32>,
    /// Maximum number of bytes a decode may allocate for its output,
    /// measured against the advertised size computed from the header,
    /// not against the engine's true peak usage.
    pub max_alloc: Option<u64>,
}

impl Limits {
    /// The unrestricted configuration: all bounds unset.
    pub open spec fn spec_no_limits() -> Limits {
        Limits { max_image_width: None, max_image_height: None, max_alloc: None }
    }

    /// The canonical unrestricted value: all bounds unset.
    pub fn no_limits() -> (r: Limits)
        ensures
            r == Limits::spec_no_limits(),
    {
        Limits { max_image_width: None, max_image_height: None, max_alloc: None }
    }

    /// Whether declared dimensions `width` x `height` satisfy the
    /// width and height bounds of this value.
    pub open spec fn spec_admits_dimensions(self, width: u32, height: u32) -> bool {
        &&& (self.max_image_width matches Some(m) ==> width <= m)
        &&& (self.max_image_height matches Some(m) ==> height <= m)
    }

    /// Checks declared dimensions against the width and height bounds.
    pub fn admits_dimensions(&self, width: u32, height: u32) -> (r: bool)
        ensures
            r == self.spec_admits_dimensions(width, height),
    {
        let width_ok = match self.max_image_width {
            Some(m) => width <= m,
            None => true,
        };
        let height_ok = match self.max_image_height {
            Some(m) => height <= m,
            None => true,
        };
        width_ok && height_ok
    }
}

} // verus!

//! Display attributes: panel size and rotation.

use vstd::prelude::*;

verus! {

/// Display rotation, in steps of 90 degrees clockwise.
#[derive(Clone, Copy, Debug, PartialEq, Eq, Structural)]
pub enum DisplayRotation {
    /// No rotation, normal display
    Rotate0,
    /// Rotate by 90 degrees clockwise
    Rotate90,
    /// Rotate by 180 degrees clockwise
    Rotate180,
    /// Rotate by 270 degrees clockwise
    Rotate270,
}

/// Display size enumeration
#[derive(Clone, Copy, Debug, PartialEq, Eq, Structural)]
pub enum DisplaySize {
    /// 128 by 128 pixels
    Display128x128,
    /// 128 by 96 pixels
    Display128x96,
}

impl DisplaySize {
    /// Panel width in pixels, in the panel's native orientation.
    pub open spec fn spec_width(self) -> u8 {
        match self {
            DisplaySize::Display128x128 => 128,
            DisplaySize::Display128x96 => 128,
        }
    }

    /// Panel height in pixels, in the panel's native orientation.
    pub open spec fn spec_height(self) -> u8 {
        match self {
            DisplaySize::Display128x128 => 128,
            DisplaySize::Display128x96 => 96,
        }
    }

    /// Get integral dimensions from DisplaySize
    pub fn dimensions(&self) -> (r: (u8, u8))
        ensures
            r.0 == self.spec_width(),
            r.1 == self.spec_height(),
    {
        match *self {
            DisplaySize::Display128x128 => (128, 128),
            DisplaySize::Display128x96 => (128, 96),
        }
    }
}

/// Width and height visible to a caller: the native panel dimensions,
/// swapped when the rotation turns the panel on its side.
pub open spec fn dims_of(size: DisplaySize, rotation: DisplayRotation) -> (u8, u8) {
    match rotation {
        DisplayRotation::Rotate0 | DisplayRotation::Rotate180 => (
            size.spec_width(),
            size.spec_height(),
        ),
        DisplayRotation::Rotate90 | DisplayRotation::Rotate270 => (
            size.spec_height(),
            size.spec_width(),
        ),
    }
}

/// The remap/scan-direction flag triple that implements a logical
/// rotation: (vertical address increment, segment remap, reverse scan).
/// This table is fixed by the controller's remap bit semantics.
pub open spec fn remap_flags(rotation: DisplayRotation) -> (bool, bool, bool) {
    match rotation {
        DisplayRotation::Rotate0 => (false, false, true),
        DisplayRotation::Rotate90 => (true, true, true),
        DisplayRotation::Rotate180 => (false, true, false),
        DisplayRotation::Rotate270 => (true, false, false),
    }
}

/// Dimensions reported under each rotation: the native (w, h) for 0 and
/// 180 degrees and the swapped (h, w) for 90 and 270 degrees, so a
/// round trip 0, 90, 180, 270 alternates between the two.
pub proof fn lemma_rotation_dimensions(size: DisplaySize)
    ensures
        dims_of(size, DisplayRotation::Rotate0) == (size.spec_width(), size.spec_height()),
        dims_of(size, DisplayRotation::Rotate90) == (size.spec_height(), size.spec_width()),
        dims_of(size, DisplayRotation::Rotate180) == (size.spec_width(), size.spec_height()),
        dims_of(size, DisplayRotation::Rotate270) == (size.spec_height(), size.spec_width()),
{
}

} // verus!

//! Interface factory: collects panel size and rotation, then binds a
//! transport to produce a display in raw mode.

use vstd::prelude::*;

use crate::display::Display;
use crate::interface::DisplayInterface;
use crate::modes::DisplayMode;
use crate::modes::RawMode;
use crate::properties::DisplayRotation;
use crate::properties::DisplaySize;

verus! {

/// Builder struct. Driver options and interface are set using its methods.
#[derive(Clone)]
pub struct Builder {
    display_size: DisplaySize,
    rotation: DisplayRotation,
}

impl Builder {
    /// The configured panel size.
    pub closed spec fn size(self) -> DisplaySize {
        self.display_size
    }

    /// The configured rotation.
    pub closed spec fn rotation(self) -> DisplayRotation {
        self.rotation
    }

    /// Create new builder with a default size of 128 x 128 pixels and no rotation.
    pub fn new() -> (r: Self)
        ensures
            r.size() == DisplaySize::Display128x128,
            r.rotation() == DisplayRotation::Rotate0,
    {
        Self { display_size: DisplaySize::Display128x128, rotation: DisplayRotation::Rotate0 }
    }

    /// Set the size of the display. Supported sizes are defined by [DisplaySize].
    pub fn with_size(&self, display_size: DisplaySize) -> (r: Self)
        ensures
            r.size() == display_size,
            r.rotation() == self.rotation(),
    {
        Self { display_size, ..*self }
    }

    /// Set the rotation of the display to one of four values. Defaults to no rotation.
    pub fn with_rotation(&self, rotation: DisplayRotation) -> (r: Self)
        ensures
            r.size() == self.size(),
            r.rotation() == rotation,
    {
        Self { rotation, ..*self }
    }

    /// Finish the builder: bind a transport and wrap the resulting
    /// display in raw mode, ready for coercion into a richer mode.
    pub fn connect<DI: DisplayInterface>(&self, iface: DI) -> (r: DisplayMode<RawMode<DI>>)
        ensures
            r.display.display.size() == self.size(),
            r.display.display.rotation() == self.rotation(),
            r.display.display.log() == iface.log(),
    {
        let properties = Display::new(iface, self.display_size, self.rotation);
        DisplayMode::<RawMode<DI>>::new(properties)
    }
}

impl Default for Builder {
    /// The default builder: a 128 by 128 panel with no rotation.
    fn default() -> (r: Self)
        ensures
            r.size() == DisplaySize::Display128x128,
            r.rotation() == DisplayRotation::Rotate0,
    {
        Self::new()
    }
}

} // verus!

//! Operating modes for the driver and conversion between them.
//!
//! A mode wraps a [`Display`] and decides how drawing requests reach
//! it. Conversion between modes is a move: the wrapped display is taken
//! out of the old mode and given to the new one, so at most one mode
//! owns a given display at a time.

use vstd::prelude::*;

use crate::display::Display;
use crate::interface::DisplayInterface;

verus! {

/// Core functionality every operating mode offers: wrapping a display
/// and releasing it again for reuse with a different mode.
pub trait DisplayModeTrait<DI: DisplayInterface>: Sized {
    /// The display state this mode wraps.
    spec fn display_of(self) -> Display<DI>;

    /// Allocate all required data and wrap the display in this mode.
    fn new(display: Display<DI>) -> (r: Self)
        ensures
            r.display_of() == display,
    ;

    /// Release the wrapped display for reuse with a different mode.
    fn release(self) -> (r: Display<DI>)
        ensures
            r == self.display_of(),
    ;
}

/// Mode abstraction: holds whichever mode currently owns the display.
pub struct DisplayMode<MODE> {
    /// The mode that owns the display.
    pub display: MODE,
}

impl<MODE> DisplayMode<MODE> {
    /// Set up the display to run in the requested mode.
    pub fn new<DI: DisplayInterface>(display: Display<DI>) -> (r: Self) where
        MODE: DisplayModeTrait<DI>,

        ensures
            r.display.display_of() == display,
    {
        DisplayMode { display: MODE::new(display) }
    }

    /// Change into any mode implementing [`DisplayModeTrait`]: the
    /// wrapped display moves from the old mode into the new one.
    pub fn into<DI: DisplayInterface, NMODE: DisplayModeTrait<DI>>(self) -> (r: NMODE) where
        MODE: DisplayModeTrait<DI>,

        ensures
            r.display_of() == self.display.display_of(),
    {
        let display = self.display.release();
        NMODE::new(display)
    }
}

/// Raw display mode without high level functionality, used as a source
/// to coerce the driver into richer modes.
pub struct RawMode<DI> where DI: DisplayInterface {
    /// The wrapped display.
    pub display: Display<DI>,
}

impl<DI: DisplayInterface> DisplayModeTrait<DI> for RawMode<DI> {
    open spec fn display_of(self) -> Display<DI> {
        self.display
    }

    fn new(display: Display<DI>) -> (r: Self) {
        RawMode { display }
    }

    fn release(self) -> (r: Display<DI>) {
        self.display
    }
}

} // verus!

//! Driver for the SSD1351 OLED display controller.
//!
//! The driver translates drawing requests into the controller's
//! command/data protocol over a byte-oriented transport with a
//! data/command select convention. Every operation's effect on the
//! transport is specified as a sequence of transmission events.

use vstd::prelude::*;

pub mod builder;
pub mod command;
pub mod display;
pub mod graphics;
pub mod interface;
pub mod modes;
pub mod properties;

verus! {

} // verus!

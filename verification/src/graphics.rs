//! Graphics mode: pixel-level drawing, directly or through a
//! framebuffer.
//!
//! The mode runs one of two strategies, chosen at construction time.
//! Unbuffered, every pixel write becomes its own addressed transfer on
//! the transport. Buffered, pixel writes mutate an owned framebuffer
//! and [`GraphicsMode::flush`] sends the whole buffer as a single
//! addressed transfer.
//!
//! Convention: the framebuffer stores pixels in the panel's native
//! orientation; a buffered pixel write at (x, y) lands at byte offset
//! `(y * width + x) * 2` regardless of the current rotation, which
//! only selects the controller's remap bits. An out-of-bounds pixel
//! write is a no-op in either strategy.

use vstd::prelude::*;

use crate::display::clear_events;
use crate::display::draw_area_events;
use crate::display::init_events;
use crate::display::remap_events;
use crate::display::Display;
use crate::interface::DisplayInterface;
use crate::interface::Tx;
use crate::modes::DisplayModeTrait;
use crate::properties::dims_of;
use crate::properties::DisplayRotation;
use crate::properties::DisplaySize;

verus! {

/// Failure to assemble a mode: the supplied framebuffer does not hold
/// exactly `expected` bytes.
#[derive(Clone, Copy, Debug, PartialEq, Eq, Structural)]
pub struct ConfigurationError {
    /// The byte length the panel needs: width times height times two.
    pub expected: usize,
    /// The byte length that was supplied.
    pub actual: usize,
}

/// The framebuffer byte length a panel needs: two bytes per pixel.
pub open spec fn buffer_len(size: DisplaySize) -> int {
    size.spec_width() * size.spec_height() * 2
}

/// The big-endian byte pair of one 16-bit color value.
pub open spec fn pixel_bytes(color: u16) -> Seq<u8> {
    seq![(color / 256) as u8, (color % 256) as u8]
}

/// The byte offset of pixel (x, y) in a framebuffer stored in the
/// panel's native orientation.
pub open spec fn pixel_offset(size: DisplaySize, x: u32, y: u32) -> int {
    (y * size.spec_width() + x) * 2
}

/// Whether (x, y) lies on the panel in its native orientation.
pub open spec fn in_native_bounds(size: DisplaySize, x: u32, y: u32) -> bool {
    x < size.spec_width() && y < size.spec_height()
}

/// The native panel position addressed by a logical (x, y) under a
/// rotation: the coordinates swap when the panel is on its side.
pub open spec fn native_target(rotation: DisplayRotation, x: u32, y: u32) -> (u32, u32) {
    match rotation {
        DisplayRotation::Rotate0 | DisplayRotation::Rotate180 => (x, y),
        DisplayRotation::Rotate90 | DisplayRotation::Rotate270 => (y, x),
    }
}

/// A coordinate pair swapped when the rotation turns the panel on its
/// side.
pub open spec fn swap_pair(rotation: DisplayRotation, p: (u8, u8)) -> (u8, u8) {
    match rotation {
        DisplayRotation::Rotate0 | DisplayRotation::Rotate180 => p,
        DisplayRotation::Rotate90 | DisplayRotation::Rotate270 => (p.1, p.0),
    }
}

/// What an unbuffered pixel write transmits: a draw area from the
/// pixel's native position to the panel's corner, then the pixel's two
/// color bytes.
pub open spec fn pixel_draw_events(
    size: DisplaySize,
    rotation: DisplayRotation,
    x: u32,
    y: u32,
    color: u16,
) -> Seq<Tx> {
    draw_area_events(
        (native_target(rotation, x, y).0 as u8, native_target(rotation, x, y).1 as u8),
        (size.spec_width(), size.spec_height()),
    ) + seq![Tx::Dat(pixel_bytes(color))]
}

/// What a flush transmits: a draw area covering the whole panel, then
/// the framebuffer in one data transfer.
pub open spec fn flush_events(size: DisplaySize, fb: Seq<u8>) -> Seq<Tx> {
    draw_area_events((0, 0), (size.spec_width(), size.spec_height())) + seq![Tx::Dat(fb)]
}

/// What a contiguous fill transmits: a draw area over the given
/// rectangle (its corners swapped under a sideways rotation), then one
/// two-byte transfer per color.
pub open spec fn fill_events(
    rotation: DisplayRotation,
    start: (u8, u8),
    end: (u8, u8),
    colors: Seq<u16>,
) -> Seq<Tx> {
    draw_area_events(swap_pair(rotation, start), swap_pair(rotation, end)) + colors.map_values(
        |c: u16| Tx::Dat(pixel_bytes(c)),
    )
}

/// Graphics Mode for the display.
///
/// An empty buffer selects the unbuffered strategy; a buffer of the
/// panel's exact byte length, supplied to
/// [`GraphicsMode::new_buffered`], selects the buffered one.
pub struct GraphicsMode<DI> where DI: DisplayInterface {
    display: Display<DI>,
    buffer: Vec<u8>,
}

impl<DI: DisplayInterface> DisplayModeTrait<DI> for GraphicsMode<DI> {
    closed spec fn display_of(self) -> Display<DI> {
        self.display
    }

    fn new(display: Display<DI>) -> (r: Self)
        ensures
            !r.buffered(),
            r.wf(),
            r.size() == display.size(),
            r.rotation() == display.rotation(),
            r.log() == display.log(),
    {
        GraphicsMode { display, buffer: Vec::new() }
    }

    fn release(self) -> (r: Display<DI>)
        ensures
            r.log() == self.log(),
            r.size() == self.size(),
            r.rotation() == self.rotation(),
    {
        self.display
    }
}

impl<DI: DisplayInterface> GraphicsMode<DI> {
    /// Everything the underlying transport has transmitted.
    pub closed spec fn log(self) -> Seq<Tx> {
        self.display.log()
    }

    /// The configured panel size.
    pub closed spec fn size(self) -> DisplaySize {
        self.display.size()
    }

    /// The current rotation.
    pub closed spec fn rotation(self) -> DisplayRotation {
        self.display.rotation()
    }

    /// The framebuffer contents; empty in the unbuffered strategy.
    pub closed spec fn framebuffer(self) -> Seq<u8> {
        self.buffer@
    }

    /// Whether this mode runs the buffered strategy.
    pub open spec fn buffered(self) -> bool {
        self.framebuffer().len() != 0
    }

    /// Well-formed: a buffered mode's framebuffer holds exactly two
    /// bytes per panel pixel.
    pub open spec fn wf(self) -> bool {
        self.buffered() ==> self.framebuffer().len() == buffer_len(self.size())
    }

    /// Wrap a display in buffered graphics mode around a caller-owned
    /// framebuffer. Fails fast when the buffer length is not exactly
    /// width times height times two; nothing is ever truncated.
    pub fn new_buffered(display: Display<DI>, buffer: Vec<u8>) -> (r: Result<
        GraphicsMode<DI>,
        ConfigurationError,
    >)
        ensures
            r is Ok <==> buffer@.len() == buffer_len(display.size()),
            r matches Ok(g) ==> ({
                &&& g.wf()
                &&& g.buffered()
                &&& g.framebuffer() == buffer@
                &&& g.size() == display.size()
                &&& g.rotation() == display.rotation()
                &&& g.log() == display.log()
            }),
            r matches Err(e) ==> ({
                &&& e.expected == buffer_len(display.size())
                &&& e.actual == buffer@.len()
            }),
    {
        let size = display.get_size();
        let (w, h) = size.dimensions();
        proof {
            assert((w as usize) * (h as usize) * 2 <= 32768) by (nonlinear_arith)
                requires
                    w <= 128,
                    h <= 128,
            ;
        }
        let expected: usize = (w as usize) * (h as usize) * 2;
        if buffer.len() != expected {
            return Err(ConfigurationError { expected, actual: buffer.len() });
        }
        Ok(GraphicsMode { display, buffer })
    }

    /// Release the wrapped display together with the framebuffer, so
    /// the caller keeps the allocation when changing modes.
    pub fn release_buffer(self) -> (r: (Display<DI>, Vec<u8>))
        ensures
            r.0 == self.display_of(),
            r.0.log() == self.log(),
            r.0.size() == self.size(),
            r.0.rotation() == self.rotation(),
            r.1@ == self.framebuffer(),
    {
        (self.display, self.buffer)
    }

    /// Clear the display. Buffered, the framebuffer is zero-filled and
    /// transmitted only when `flush` asks for it; unbuffered, the panel
    /// is cleared directly and `flush` is irrelevant.
    pub fn clear(&mut self, flush: bool) -> (r: Result<(), ()>)
        requires
            old(self).wf(),
        ensures
            final(self).wf(),
            final(self).size() == old(self).size(),
            final(self).rotation() == old(self).rotation(),
            final(self).buffered() == old(self).buffered(),
            final(self).framebuffer() == Seq::new(old(self).framebuffer().len(), |i: int| 0u8),
            old(self).buffered() ==> (if flush {
                r is Ok ==> final(self).log() == old(self).log() + flush_events(
                    old(self).size(),
                    Seq::new(old(self).framebuffer().len(), |i: int| 0u8),
                )
            } else {
                r is Ok && final(self).log() == old(self).log()
            }),
            !old(self).buffered() ==> (r is Ok ==> final(self).log() == old(self).log()
                + clear_events(old(self).size())),
    {
        if self.buffer.len() > 0 {
            let n: usize = self.buffer.len();
            let mut k: usize = 0;
            while k < n
                invariant
                    k <= n,
                    self.buffer@.len() == n,
                    self.display == old(self).display,
                    forall|j: int| 0 <= j < k ==> self.buffer@[j] == 0u8,
                decreases n - k,
            {
                self.buffer.set(k, 0u8);
                k = k + 1;
            }
            proof {
                assert(self.buffer@ =~= Seq::new(old(self).buffer@.len(), |i: int| 0u8));
            }
            if flush {
                self.flush()?;
            }
            Ok(())
        } else {
            proof {
                assert(self.buffer@ =~= Seq::new(old(self).buffer@.len(), |i: int| 0u8));
            }
            self.display.clear()
        }
    }

    /// Access the framebuffer
    pub fn fb(&self) -> (r: &[u8])
        ensures
            r@ == self.framebuffer(),
    {
        self.buffer.as_slice()
    }

    /// Access the framebuffer for direct mutation. The bytes may be
    /// rewritten freely; a caller that changes the length leaves
    /// buffered mode ill-formed.
    pub fn fb_mut(&mut self) -> (r: &mut Vec<u8>)
        ensures
            (*r)@ == old(self).framebuffer(),
            final(self).framebuffer() == final(r)@,
            final(self).size() == old(self).size(),
            final(self).rotation() == old(self).rotation(),
            final(self).log() == old(self).log(),
    {
        &mut self.buffer
    }

    /// Write one pixel. Buffered, the two color bytes land in the
    /// framebuffer at the pixel's native offset and nothing is
    /// transmitted; unbuffered, a draw area is set at the pixel's
    /// native position and the two bytes are transmitted at once. A
    /// position off the panel makes the call a no-op.
    pub fn set_pixel(&mut self, x: u32, y: u32, color: u16) -> (r: Result<(), ()>)
        requires
            old(self).wf(),
        ensures
            final(self).wf(),
            final(self).size() == old(self).size(),
            final(self).rotation() == old(self).rotation(),
            final(self).buffered() == old(self).buffered(),
            old(self).buffered() ==> ({
                &&& r is Ok
                &&& final(self).log() == old(self).log()
                &&& final(self).framebuffer() == (if in_native_bounds(old(self).size(), x, y) {
                    old(self).framebuffer().update(
                        pixel_offset(old(self).size(), x, y),
                        (color / 256) as u8,
                    ).update(pixel_offset(old(self).size(), x, y) + 1, (color % 256) as u8)
                } else {
                    old(self).framebuffer()
                })
            }),
            !old(self).buffered() ==> ({
                &&& final(self).framebuffer() == old(self).framebuffer()
                &&& (if in_native_bounds(
                    old(self).size(),
                    native_target(old(self).rotation(), x, y).0,
                    native_target(old(self).rotation(), x, y).1,
                ) {
                    r is Ok ==> final(self).log() == old(self).log() + pixel_draw_events(
                        old(self).size(),
                        old(self).rotation(),
                        x,
                        y,
                        color,
                    )
                } else {
                    r is Ok && final(self).log() == old(self).log()
                })
            }),
    {
        let (w, h) = self.display.get_size().dimensions();
        let hi: u8 = (color / 256) as u8;
        let lo: u8 = (color % 256) as u8;
        if self.buffer.len() > 0 {
            if x < w as u32 && y < h as u32 {
                let offset: usize = ((y as usize) * (w as usize) + (x as usize)) * 2;
                self.buffer.set(offset, hi);
                self.buffer.set(offset + 1, lo);
            }
            Ok(())
        } else {
            let rot = self.display.get_rotation();
            let (nx, ny): (u32, u32) = match rot {
                DisplayRotation::Rotate0 | DisplayRotation::Rotate180 => (x, y),
                DisplayRotation::Rotate90 | DisplayRotation::Rotate270 => (y, x),
            };
            if nx < w as u32 && ny < h as u32 {
                self.display.set_draw_area((nx as u8, ny as u8), (w, h))?;
                let data: Vec<u8> = vec![hi, lo];
                self.display.draw(data.as_slice())?;
                proof {
                    assert(self.log() =~= old(self).log() + pixel_draw_events(
                        old(self).size(),
                        old(self).rotation(),
                        x,
                        y,
                        color,
                    ));
                }
            }
            Ok(())
        }
    }

    /// Transmit the whole framebuffer in one addressed transfer: the
    /// point of the buffered strategy, one draw-area setup instead of
    /// one per pixel.
    pub fn flush(&mut self) -> (r: Result<(), ()>)
        requires
            old(self).wf(),
            old(self).buffered(),
        ensures
            final(self).wf(),
            final(self).size() == old(self).size(),
            final(self).rotation() == old(self).rotation(),
            final(self).buffered() == old(self).buffered(),
            final(self).framebuffer() == old(self).framebuffer(),
            r is Ok ==> final(self).log() == old(self).log() + flush_events(
                old(self).size(),
                old(self).framebuffer(),
            ),
    {
        let (w, h) = self.display.get_size().dimensions();
        self.display.set_draw_area((0, 0), (w, h))?;
        self.display.draw(self.buffer.as_slice())?;
        proof {
            assert(self.log() =~= old(self).log() + flush_events(
                old(self).size(),
                old(self).framebuffer(),
            ));
        }
        Ok(())
    }

    /// Fill a rectangle with a run of colors, streamed directly to the
    /// controller: a draw area over the rectangle, its corners swapped
    /// under a sideways rotation, then two bytes per color. The
    /// controller's cursor walks the area on its own.
    pub fn fill_area(&mut self, start: (u8, u8), end: (u8, u8), colors: &[u16]) -> (r: Result<
        (),
        (),
    >)
        requires
            !old(self).buffered(),
            end.0 >= 1,
            end.1 >= 1,
        ensures
            final(self).wf(),
            final(self).size() == old(self).size(),
            final(self).rotation() == old(self).rotation(),
            final(self).buffered() == old(self).buffered(),
            final(self).framebuffer() == old(self).framebuffer(),
            r is Ok ==> final(self).log() == old(self).log() + fill_events(
                old(self).rotation(),
                start,
                end,
                colors@,
            ),
    {
        let rot = self.display.get_rotation();
        let (area_start, area_end): ((u8, u8), (u8, u8)) = match rot {
            DisplayRotation::Rotate0 | DisplayRotation::Rotate180 => (start, end),
            DisplayRotation::Rotate90 | DisplayRotation::Rotate270 => (
                (start.1, start.0),
                (end.1, end.0),
            ),
        };
        self.display.set_draw_area(area_start, area_end)?;

        let ghost mid_log = self.display.log();
        let mut k: usize = 0;
        while k < colors.len()
            invariant
                k <= colors@.len(),
                self.buffer@ == old(self).buffer@,
                self.buffer@.len() == 0,
                self.display.size() == old(self).display.size(),
                self.display.rotation() == old(self).display.rotation(),
                self.display.log() == mid_log + colors@.subrange(0, k as int).map_values(
                    |c: u16| Tx::Dat(pixel_bytes(c)),
                ),
            decreases colors@.len() - k,
        {
            let color: u16 = colors[k];
            let data: Vec<u8> = vec![(color / 256) as u8, (color % 256) as u8];
            self.display.draw(data.as_slice())?;
            proof {
                assert(self.display.log() =~= mid_log + colors@.subrange(0, k + 1).map_values(
                    |c: u16| Tx::Dat(pixel_bytes(c)),
                ));
            }
            k = k + 1;
        }
        proof {
            assert(self.log() =~= old(self).log() + fill_events(
                old(self).rotation(),
                start,
                end,
                colors@,
            ));
        }
        Ok(())
    }

    /// Run the display's power-up sequence; see [`Display::init`].
    pub fn init(&mut self) -> (r: Result<(), ()>)
        ensures
            final(self).wf() == old(self).wf(),
            final(self).size() == old(self).size(),
            final(self).buffered() == old(self).buffered(),
            final(self).framebuffer() == old(self).framebuffer(),
            final(self).rotation() == old(self).rotation() || final(self).rotation()
                == DisplayRotation::Rotate0,
            r is Ok ==> final(self).rotation() == DisplayRotation::Rotate0,
            r is Ok ==> final(self).log() == old(self).log() + init_events(old(self).size()),
    {
        self.display.init()
    }

    /// Set the display rotation
    pub fn set_rotation(&mut self, rot: DisplayRotation) -> (r: Result<(), ()>)
        ensures
            final(self).wf() == old(self).wf(),
            final(self).size() == old(self).size(),
            final(self).buffered() == old(self).buffered(),
            final(self).framebuffer() == old(self).framebuffer(),
            final(self).rotation() == rot,
            r is Ok ==> final(self).log() == old(self).log() + remap_events(rot),
    {
        self.display.set_rotation(rot)
    }

    /// Get display dimensions, taking into account the current rotation of the display
    pub fn get_dimensions(&self) -> (r: (u8, u8))
        ensures
            r == dims_of(self.size(), self.rotation()),
    {
        self.display.get_dimensions()
    }
}

} // verus!


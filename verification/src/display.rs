//! Display state: owns the transport and the current size and rotation.

use vstd::prelude::*;

use crate::command::remap_param;
use crate::command::Command;
use crate::interface::DisplayInterface;
use crate::interface::Tx;
use crate::properties::dims_of;
use crate::properties::remap_flags;
use crate::properties::DisplayRotation;
use crate::properties::DisplaySize;

verus! {

/// What setting the draw area transmits: a column window command, a row
/// window command (each end bound converted from exclusive to
/// inclusive), then the write-RAM marker.
pub open spec fn draw_area_events(start: (u8, u8), end: (u8, u8)) -> Seq<Tx> {
    Command::Column(start.0, (end.0 - 1) as u8).events() + Command::Row(
        start.1,
        (end.1 - 1) as u8,
    ).events() + Command::WriteRam.events()
}

/// What re-applying a rotation transmits: one remap command whose
/// parameter byte combines the rotation's flag triple.
pub open spec fn remap_events(rotation: DisplayRotation) -> Seq<Tx> {
    Command::SetRemap(
        remap_flags(rotation).0,
        remap_flags(rotation).1,
        remap_flags(rotation).2,
    ).events()
}

/// What clearing the panel transmits: a draw area covering the whole
/// panel, then one two-byte black pixel per panel position.
pub open spec fn clear_events(size: DisplaySize) -> Seq<Tx> {
    draw_area_events((0, 0), (size.spec_width(), size.spec_height())) + Seq::new(
        (size.spec_width() * size.spec_height()) as nat,
        |i: int| Tx::Dat(seq![0u8, 0u8]),
    )
}

/// The configuration commands of the power-up sequence, up to but not
/// including the rotation, the initial clear and the final display-on.
pub open spec fn init_config_events(size: DisplaySize) -> Seq<Tx> {
    Command::CommandLock(0x12).events() + Command::CommandLock(0xB1).events()
        + Command::DisplayOn(false).events() + Command::ClockDiv(0xF1).events() + Command::MuxRatio(
        (size.spec_height() - 1) as u8,
    ).events() + Command::DisplayOffset(0).events() + Command::StartLine(0).events()
        + Command::SetGpio(0x00).events() + Command::FunctionSelect(0x01).events()
        + Command::SetVsl.events() + Command::Contrast(0x8F).events() + Command::ContrastCurrent(
        0x0F,
    ).events() + Command::PreCharge(0x32).events() + Command::PreCharge2(0x01).events()
        + Command::Vcomh(0x05).events() + Command::Invert(false).events()
}

/// Everything the power-up sequence transmits: the configuration
/// commands, the remap command for no rotation, a full clear, and
/// display-on as the final step.
pub open spec fn init_events(size: DisplaySize) -> Seq<Tx> {
    init_config_events(size) + remap_events(DisplayRotation::Rotate0) + clear_events(size)
        + Command::DisplayOn(true).events()
}

/// The rotation table, spelled out: for each of the four rotations,
/// re-applying it transmits the remap opcode followed by exactly one
/// parameter byte, the one the fixed table predicts.
pub proof fn lemma_remap_table()
    ensures
        remap_events(DisplayRotation::Rotate0) == seq![Tx::Cmd(0xA0u8), Tx::Dat(seq![0x34u8])],
        remap_events(DisplayRotation::Rotate90) == seq![Tx::Cmd(0xA0u8), Tx::Dat(seq![0x37u8])],
        remap_events(DisplayRotation::Rotate180) == seq![Tx::Cmd(0xA0u8), Tx::Dat(seq![0x26u8])],
        remap_events(DisplayRotation::Rotate270) == seq![Tx::Cmd(0xA0u8), Tx::Dat(seq![0x25u8])],
{
    assert(0b00100100u8 | 0u8 | (0u8 << 1u8) | (1u8 << 4u8) == 0x34u8) by (bit_vector);
    assert(0b00100100u8 | 1u8 | (1u8 << 1u8) | (1u8 << 4u8) == 0x37u8) by (bit_vector);
    assert(0b00100100u8 | 0u8 | (1u8 << 1u8) | (0u8 << 4u8) == 0x26u8) by (bit_vector);
    assert(0b00100100u8 | 1u8 | (0u8 << 1u8) | (0u8 << 4u8) == 0x25u8) by (bit_vector);
    assert(remap_param(false, false, true) == 0x34);
    assert(remap_param(true, true, true) == 0x37);
    assert(remap_param(false, true, false) == 0x26);
    assert(remap_param(true, false, false) == 0x25);
    assert(remap_events(DisplayRotation::Rotate0) =~~= seq![
        Tx::Cmd(0xA0u8),
        Tx::Dat(seq![0x34u8]),
    ]);
    assert(remap_events(DisplayRotation::Rotate90) =~~= seq![
        Tx::Cmd(0xA0u8),
        Tx::Dat(seq![0x37u8]),
    ]);
    assert(remap_events(DisplayRotation::Rotate180) =~~= seq![
        Tx::Cmd(0xA0u8),
        Tx::Dat(seq![0x26u8]),
    ]);
    assert(remap_events(DisplayRotation::Rotate270) =~~= seq![
        Tx::Cmd(0xA0u8),
        Tx::Dat(seq![0x25u8]),
    ]);
}

/// Display state struct: the transport together with the configured
/// panel size and the current rotation.
pub struct Display<DI> {
    iface: DI,
    display_size: DisplaySize,
    display_rotation: DisplayRotation,
}

impl<DI: DisplayInterface> Display<DI> {
    /// Everything the owned transport has transmitted.
    pub closed spec fn log(self) -> Seq<Tx> {
        self.iface.log()
    }

    /// The configured panel size.
    pub closed spec fn size(self) -> DisplaySize {
        self.display_size
    }

    /// The current rotation.
    pub closed spec fn rotation(self) -> DisplayRotation {
        self.display_rotation
    }

    /// The owned transport.
    pub closed spec fn interface(self) -> DI {
        self.iface
    }

    /// Create new Display instance
    pub fn new(iface: DI, display_size: DisplaySize, display_rotation: DisplayRotation) -> (r:
        Display<DI>)
        ensures
            r.interface() == iface,
            r.log() == iface.log(),
            r.size() == display_size,
            r.rotation() == display_rotation,
    {
        Display { iface, display_size, display_rotation }
    }

    /// Release all resources used by the Display
    pub fn release(self) -> (r: DI)
        ensures
            r == self.interface(),
    {
        self.iface
    }

    /// Run the power-up command sequence: unlock, display off,
    /// configuration with the multiplex ratio derived from the panel
    /// height, rotation reset to none, a full clear, and display on as
    /// the final step. A transport failure aborts the sequence and
    /// leaves the controller half-configured.
    pub fn init(&mut self) -> (r: Result<(), ()>)
        ensures
            final(self).size() == old(self).size(),
            final(self).rotation() == old(self).rotation() || final(self).rotation()
                == DisplayRotation::Rotate0,
            r is Ok ==> final(self).rotation() == DisplayRotation::Rotate0,
            r is Ok ==> final(self).log() == old(self).log() + init_events(old(self).size()),
    {
        let (_, display_height) = self.display_size.dimensions();

        Command::CommandLock(0x12).send(&mut self.iface)?;
        Command::CommandLock(0xB1).send(&mut self.iface)?;
        Command::DisplayOn(false).send(&mut self.iface)?;
        Command::ClockDiv(0xF1).send(&mut self.iface)?;
        Command::MuxRatio(display_height - 1).send(&mut self.iface)?;
        Command::DisplayOffset(0).send(&mut self.iface)?;
        Command::StartLine(0).send(&mut self.iface)?;
        Command::SetGpio(0x00).send(&mut self.iface)?;
        Command::FunctionSelect(0x01).send(&mut self.iface)?;
        Command::SetVsl.send(&mut self.iface)?;
        Command::Contrast(0x8F).send(&mut self.iface)?;
        Command::ContrastCurrent(0x0F).send(&mut self.iface)?;
        Command::PreCharge(0x32).send(&mut self.iface)?;
        Command::PreCharge2(0x01).send(&mut self.iface)?;
        Command::Vcomh(0x05).send(&mut self.iface)?;
        Command::Invert(false).send(&mut self.iface)?;
        proof {
            assert(self.iface.log() =~= old(self).log() + init_config_events(
                old(self).display_size,
            ));
        }

        self.set_rotation(DisplayRotation::Rotate0)?;

        self.clear()?;

        Command::DisplayOn(true).send(&mut self.iface)?;

        proof {
            assert(self.iface.log() =~= old(self).log() + init_events(old(self).display_size));
        }

        Ok(())
    }

    /// Clear the display by setting all pixels to black
    pub fn clear(&mut self) -> (r: Result<(), ()>)
        ensures
            final(self).size() == old(self).size(),
            final(self).rotation() == old(self).rotation(),
            r is Ok ==> final(self).log() == old(self).log() + clear_events(old(self).size()),
    {
        let (display_width, display_height) = self.display_size.dimensions();
        self.set_draw_area((0, 0), (display_width, display_height))?;

        let ghost mid_log = self.iface.log();
        let zeros: Vec<u8> = vec![0x00u8, 0x00u8];
        proof {
            assert(zeros@ =~= seq![0u8, 0u8]);
        }
        let total: u32 = (display_height as u32) * (display_width as u32);
        let mut i: u32 = 0;
        while i < total
            invariant
                i <= total,
                self.display_size == old(self).display_size,
                self.display_rotation == old(self).display_rotation,
                zeros@ == seq![0u8, 0u8],
                self.iface.log() == mid_log + Seq::new(i as nat, |j: int| Tx::Dat(seq![0u8, 0u8])),
            decreases total - i,
        {
            self.iface.send_data(zeros.as_slice())?;
            proof {
                assert(self.iface.log() =~= mid_log + Seq::new(
                    (i + 1) as nat,
                    |j: int| Tx::Dat(seq![0u8, 0u8]),
                ));
            }
            i = i + 1;
        }
        proof {
            assert(self.iface.log() =~= old(self).log() + clear_events(old(self).display_size));
        }
        Ok(())
    }

    /// Set the position in the framebuffer of the display where any sent data should be
    /// drawn. This method can be used for changing the affected area on the screen as well
    /// as (re-)setting the start point of the next `draw` call.
    ///
    /// The end bounds are exclusive and must be at least 1; the
    /// controller takes inclusive bounds, so 1 is subtracted.
    pub fn set_draw_area(&mut self, start: (u8, u8), end: (u8, u8)) -> (r: Result<(), ()>)
        requires
            end.0 >= 1,
            end.1 >= 1,
        ensures
            final(self).size() == old(self).size(),
            final(self).rotation() == old(self).rotation(),
            r is Ok ==> final(self).log() == old(self).log() + draw_area_events(start, end),
    {
        Command::Column(start.0, end.0 - 1).send(&mut self.iface)?;
        Command::Row(start.1, end.1 - 1).send(&mut self.iface)?;
        Command::WriteRam.send(&mut self.iface)?;
        proof {
            assert(self.iface.log() =~= old(self).log() + draw_area_events(start, end));
        }
        Ok(())
    }

    /// Send the data to the display for drawing at the current position in the framebuffer
    /// and advance the position accordingly. Cf. `set_draw_area` to modify the affected area by
    /// this method.
    pub fn draw(&mut self, buffer: &[u8]) -> (r: Result<(), ()>)
        ensures
            final(self).size() == old(self).size(),
            final(self).rotation() == old(self).rotation(),
            r is Ok ==> final(self).log() == old(self).log().push(Tx::Dat(buffer@)),
    {
        self.iface.send_data(buffer)?;
        Ok(())
    }

    /// Get the configured display size
    pub fn get_size(&self) -> (r: DisplaySize)
        ensures
            r == self.size(),
    {
        self.display_size
    }

    /// Get display dimensions, taking into account the current rotation of the display
    pub fn get_dimensions(&self) -> (r: (u8, u8))
        ensures
            r == dims_of(self.size(), self.rotation()),
    {
        let (w, h) = self.display_size.dimensions();

        match self.display_rotation {
            DisplayRotation::Rotate0 | DisplayRotation::Rotate180 => (w, h),
            DisplayRotation::Rotate90 | DisplayRotation::Rotate270 => (h, w),
        }
    }

    /// Get the display rotation
    pub fn get_rotation(&self) -> (r: DisplayRotation)
        ensures
            r == self.rotation(),
    {
        self.display_rotation
    }

    /// Set the display rotation: the new rotation is stored first, then
    /// the matching remap command is emitted, so the stored rotation is
    /// updated even when the transport fails.
    pub fn set_rotation(&mut self, display_rotation: DisplayRotation) -> (r: Result<(), ()>)
        ensures
            final(self).size() == old(self).size(),
            final(self).rotation() == display_rotation,
            r is Ok ==> final(self).log() == old(self).log() + remap_events(display_rotation),
    {
        self.display_rotation = display_rotation;

        match display_rotation {
            DisplayRotation::Rotate0 => {
                Command::SetRemap(false, false, true).send(&mut self.iface)?;
            },
            DisplayRotation::Rotate90 => {
                Command::SetRemap(true, true, true).send(&mut self.iface)?;
            },
            DisplayRotation::Rotate180 => {
                Command::SetRemap(false, true, false).send(&mut self.iface)?;
            },
            DisplayRotation::Rotate270 => {
                Command::SetRemap(true, false, false).send(&mut self.iface)?;
            },
        }

        Ok(())
    }
}

} // verus!

//! Commands of the SSD1351 controller and their fixed byte encoding.

use vstd::prelude::*;

use crate::interface::DisplayInterface;
use crate::interface::Tx;

verus! {

/// Base pattern of the remap/color-depth parameter; the rotation flags
/// are combined into it bit by bit.
pub const REMAP_BASE: u8 = 0b00100100;

/// Commands the controller understands, each carrying its parameters.
/// A command exists only to be encoded and sent; it is never stored.
#[derive(Clone, Copy, Debug, PartialEq, Eq, Structural)]
pub enum Command {
    /// Column address window: start and end column, both inclusive
    Column(u8, u8),
    /// Row address window: start and end row, both inclusive
    Row(u8, u8),
    /// Command lock state
    CommandLock(u8),
    /// Display on (true) or off (false)
    DisplayOn(bool),
    /// Begin writing pixel data into the address window
    WriteRam,
    /// Clock divider and oscillator frequency
    ClockDiv(u8),
    /// Multiplex ratio
    MuxRatio(u8),
    /// Remap/scan direction: vertical address increment, segment remap,
    /// reverse scan direction
    SetRemap(bool, bool, bool),
    /// Display start line
    StartLine(u8),
    /// Display offset
    DisplayOffset(u8),
    /// GPIO pin configuration
    SetGpio(u8),
    /// Function selection (internal regulator, interface width)
    FunctionSelect(u8),
    /// First pre-charge phase lengths
    PreCharge(u8),
    /// COM deselect voltage level
    Vcomh(u8),
    /// Inverted display on (true) or normal display (false)
    Invert(bool),
    /// Per-channel contrast, applied to the green channel between two
    /// fixed red and blue levels
    Contrast(u8),
    /// Master contrast current
    ContrastCurrent(u8),
    /// Segment low voltage levels, a fixed triple
    SetVsl,
    /// Second pre-charge period
    PreCharge2(u8),
}

/// A flag as a single bit.
pub open spec fn bit(b: bool) -> u8 {
    if b {
        1
    } else {
        0
    }
}

/// The remap parameter byte: the base pattern with the increment flag
/// in bit 0, the segment-remap flag in bit 1 and the scan-direction
/// flag in bit 4.
pub open spec fn remap_param(incr: bool, remap: bool, scan: bool) -> u8 {
    REMAP_BASE | bit(incr) | (bit(remap) << 1) | (bit(scan) << 4)
}

impl Command {
    /// The opcode byte of this command.
    pub open spec fn opcode(self) -> u8 {
        match self {
            Command::CommandLock(_) => 0xFD,
            Command::DisplayOn(on) => if on {
                0xAF
            } else {
                0xAE
            },
            Command::ClockDiv(_) => 0xB3,
            Command::MuxRatio(_) => 0xCA,
            Command::SetRemap(_, _, _) => 0xA0,
            Command::Column(_, _) => 0x15,
            Command::Row(_, _) => 0x75,
            Command::StartLine(_) => 0xA1,
            Command::DisplayOffset(_) => 0xA2,
            Command::SetGpio(_) => 0xB5,
            Command::FunctionSelect(_) => 0xAB,
            Command::PreCharge(_) => 0xB1,
            Command::Vcomh(_) => 0xBE,
            Command::Invert(inv) => if inv {
                0xA7
            } else {
                0xA6
            },
            Command::Contrast(_) => 0xC1,
            Command::ContrastCurrent(_) => 0xC7,
            Command::SetVsl => 0xB4,
            Command::PreCharge2(_) => 0xB6,
            Command::WriteRam => 0x5C,
        }
    }

    /// The parameter bytes of this command, sent on the data channel
    /// after the opcode.
    pub open spec fn params(self) -> Seq<u8> {
        match self {
            Command::CommandLock(val) => seq![val],
            Command::DisplayOn(_) => seq![],
            Command::ClockDiv(val) => seq![val],
            Command::MuxRatio(val) => seq![val],
            Command::SetRemap(incr, remap, scan) => seq![remap_param(incr, remap, scan)],
            Command::Column(start, end) => seq![start, end],
            Command::Row(start, end) => seq![start, end],
            Command::StartLine(val) => seq![val],
            Command::DisplayOffset(val) => seq![val],
            Command::SetGpio(val) => seq![val],
            Command::FunctionSelect(val) => seq![val],
            Command::PreCharge(val) => seq![val],
            Command::Vcomh(val) => seq![val],
            Command::Invert(_) => seq![],
            Command::Contrast(val) => seq![0xC8, val, 0xC8],
            Command::ContrastCurrent(val) => seq![val],
            Command::SetVsl => seq![0xA0, 0xB5, 0x55],
            Command::PreCharge2(val) => seq![val],
            Command::WriteRam => seq![],
        }
    }

    /// What sending this command transmits: the opcode on the command
    /// channel, then the parameter bytes, if any, on the data channel.
    pub open spec fn events(self) -> Seq<Tx> {
        if self.params().len() == 0 {
            seq![Tx::Cmd(self.opcode())]
        } else {
            seq![Tx::Cmd(self.opcode()), Tx::Dat(self.params())]
        }
    }

    /// Send this command to the controller: the opcode byte first with
    /// the select line in command state, then the parameters with the
    /// select line in data state.
    pub fn send<DI: DisplayInterface>(self, iface: &mut DI) -> (r: Result<(), ()>)
        ensures
            r is Ok ==> final(iface).log() == old(iface).log() + self.events(),
    {
        let (command, data): (u8, Vec<u8>) = match self {
            Command::CommandLock(val) => (0xFD, vec![val]),
            Command::DisplayOn(on) => (if on { 0xAF } else { 0xAE }, vec![]),
            Command::ClockDiv(val) => (0xB3, vec![val]),
            Command::MuxRatio(val) => (0xCA, vec![val]),
            Command::SetRemap(incr, remap, scan) => (0xA0, vec![remap_value(incr, remap, scan)]),
            Command::Column(start, end) => (0x15, vec![start, end]),
            Command::Row(start, end) => (0x75, vec![start, end]),
            Command::StartLine(val) => (0xA1, vec![val]),
            Command::DisplayOffset(val) => (0xA2, vec![val]),
            Command::SetGpio(val) => (0xB5, vec![val]),
            Command::FunctionSelect(val) => (0xAB, vec![val]),
            Command::PreCharge(val) => (0xB1, vec![val]),
            Command::Vcomh(val) => (0xBE, vec![val]),
            Command::Invert(inv) => (if inv { 0xA7 } else { 0xA6 }, vec![]),
            Command::Contrast(val) => (0xC1, vec![0xC8, val, 0xC8]),
            Command::ContrastCurrent(val) => (0xC7, vec![val]),
            Command::SetVsl => (0xB4, vec![0xA0, 0xB5, 0x55]),
            Command::PreCharge2(val) => (0xB6, vec![val]),
            Command::WriteRam => (0x5C, vec![]),
        };
        proof {
            assert(command == self.opcode());
            assert(data@ =~= self.params());
        }

        iface.send_command(command)?;

        if data.len() > 0 {
            iface.send_data(data.as_slice())?;
            proof {
                assert(iface.log() =~= old(iface).log() + self.events());
            }
        } else {
            proof {
                assert(iface.log() =~= old(iface).log() + self.events());
            }
        }

        Ok(())
    }
}

/// Compute the remap parameter byte from the three rotation flags.
fn remap_value(incr: bool, remap: bool, scan: bool) -> (r: u8)
    ensures
        r == remap_param(incr, remap, scan),
{
    let i: u8 = if incr {
        1
    } else {
        0
    };
    let m: u8 = if remap {
        1
    } else {
        0
    };
    let s: u8 = if scan {
        1
    } else {
        0
    };
    REMAP_BASE | i | (m << 1u8) | (s << 4u8)
}

} // verus!

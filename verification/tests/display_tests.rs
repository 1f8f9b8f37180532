//! Tests for the command encoder, the display state machine and the
//! builder, observed through a recording transport.

use ssd1351::command::Command;
use ssd1351::display::Display;
use ssd1351::interface::Recorded;
use ssd1351::interface::RecordingInterface;
use ssd1351::properties::DisplayRotation;
use ssd1351::properties::DisplaySize;

fn cmd(op: u8) -> Recorded {
    Recorded::Command(op)
}

fn dat(bytes: &[u8]) -> Recorded {
    Recorded::Data(bytes.to_vec())
}

fn fresh_display(size: DisplaySize, rotation: DisplayRotation) -> Display<RecordingInterface> {
    Display::new(RecordingInterface::new(), size, rotation)
}

#[test]
fn command_encodings() {
    let mut iface = RecordingInterface::new();
    assert!(Command::CommandLock(0x12).send(&mut iface).is_ok());
    assert!(Command::DisplayOn(true).send(&mut iface).is_ok());
    assert!(Command::DisplayOn(false).send(&mut iface).is_ok());
    assert!(Command::ClockDiv(0xF1).send(&mut iface).is_ok());
    assert!(Command::MuxRatio(127).send(&mut iface).is_ok());
    assert!(Command::Column(3, 9).send(&mut iface).is_ok());
    assert!(Command::Row(4, 8).send(&mut iface).is_ok());
    assert!(Command::StartLine(5).send(&mut iface).is_ok());
    assert!(Command::DisplayOffset(6).send(&mut iface).is_ok());
    assert!(Command::SetGpio(0x00).send(&mut iface).is_ok());
    assert!(Command::FunctionSelect(0x01).send(&mut iface).is_ok());
    assert!(Command::PreCharge(0x32).send(&mut iface).is_ok());
    assert!(Command::Vcomh(0x05).send(&mut iface).is_ok());
    assert!(Command::Invert(true).send(&mut iface).is_ok());
    assert!(Command::Invert(false).send(&mut iface).is_ok());
    assert!(Command::Contrast(0x8F).send(&mut iface).is_ok());
    assert!(Command::ContrastCurrent(0x0F).send(&mut iface).is_ok());
    assert!(Command::SetVsl.send(&mut iface).is_ok());
    assert!(Command::PreCharge2(0x01).send(&mut iface).is_ok());
    assert!(Command::WriteRam.send(&mut iface).is_ok());

    let expected = vec![
        cmd(0xFD),
        dat(&[0x12]),
        cmd(0xAF),
        cmd(0xAE),
        cmd(0xB3),
        dat(&[0xF1]),
        cmd(0xCA),
        dat(&[127]),
        cmd(0x15),
        dat(&[3, 9]),
        cmd(0x75),
        dat(&[4, 8]),
        cmd(0xA1),
        dat(&[5]),
        cmd(0xA2),
        dat(&[6]),
        cmd(0xB5),
        dat(&[0x00]),
        cmd(0xAB),
        dat(&[0x01]),
        cmd(0xB1),
        dat(&[0x32]),
        cmd(0xBE),
        dat(&[0x05]),
        cmd(0xA7),
        cmd(0xA6),
        cmd(0xC1),
        dat(&[0xC8, 0x8F, 0xC8]),
        cmd(0xC7),
        dat(&[0x0F]),
        cmd(0xB4),
        dat(&[0xA0, 0xB5, 0x55]),
        cmd(0xB6),
        dat(&[0x01]),
        cmd(0x5C),
    ];
    assert_eq!(iface.events, expected);
}

#[test]
fn set_rotation_remap_bytes() {
    let table = [
        (DisplayRotation::Rotate0, 0x34u8),
        (DisplayRotation::Rotate90, 0x37u8),
        (DisplayRotation::Rotate180, 0x26u8),
        (DisplayRotation::Rotate270, 0x25u8),
    ];
    for (rotation, byte) in table {
        let mut display = fresh_display(DisplaySize::Display128x128, DisplayRotation::Rotate0);
        assert!(display.set_rotation(rotation).is_ok());
        assert_eq!(display.release().events, vec![cmd(0xA0), dat(&[byte])]);
    }
}

#[test]
fn rotation_round_trip_dimensions() {
    let mut display = fresh_display(DisplaySize::Display128x96, DisplayRotation::Rotate0);
    let expected = [
        (DisplayRotation::Rotate0, (128u8, 96u8)),
        (DisplayRotation::Rotate90, (96, 128)),
        (DisplayRotation::Rotate180, (128, 96)),
        (DisplayRotation::Rotate270, (96, 128)),
        (DisplayRotation::Rotate0, (128, 96)),
    ];
    for (rotation, dims) in expected {
        assert!(display.set_rotation(rotation).is_ok());
        assert_eq!(display.get_dimensions(), dims);
        assert_eq!(display.get_rotation(), rotation);
    }
}

#[test]
fn set_draw_area_end_inclusive_conversion() {
    let mut display = fresh_display(DisplaySize::Display128x128, DisplayRotation::Rotate0);
    assert!(display.set_draw_area((0, 0), (10, 10)).is_ok());
    let expected = vec![cmd(0x15), dat(&[0, 9]), cmd(0x75), dat(&[0, 9]), cmd(0x5C)];
    assert_eq!(display.release().events, expected);
}

#[test]
fn clear_emits_full_panel_and_zero_pixels() {
    let mut display = fresh_display(DisplaySize::Display128x96, DisplayRotation::Rotate0);
    assert!(display.clear().is_ok());
    let events = display.release().events;
    assert_eq!(events[0], cmd(0x15));
    assert_eq!(events[1], dat(&[0, 127]));
    assert_eq!(events[2], cmd(0x75));
    assert_eq!(events[3], dat(&[0, 95]));
    assert_eq!(events[4], cmd(0x5C));
    assert_eq!(events.len(), 5 + 128 * 96);
    for event in &events[5..] {
        assert_eq!(*event, dat(&[0x00, 0x00]));
    }
}

#[test]
fn draw_passes_bytes_through() {
    let mut display = fresh_display(DisplaySize::Display128x128, DisplayRotation::Rotate0);
    assert!(display.draw(&[1, 2, 3, 4]).is_ok());
    assert_eq!(display.release().events, vec![dat(&[1, 2, 3, 4])]);
}

#[test]
fn init_trace_128x96_uses_panel_height() {
    let mut display = fresh_display(DisplaySize::Display128x96, DisplayRotation::Rotate180);
    assert!(display.init().is_ok());
    assert_eq!(display.get_rotation(), DisplayRotation::Rotate0);
    let events = display.release().events;
    let mut expected = vec![
        cmd(0xFD),
        dat(&[0x12]),
        cmd(0xFD),
        dat(&[0xB1]),
        cmd(0xAE),
        cmd(0xB3),
        dat(&[0xF1]),
        cmd(0xCA),
        dat(&[95]),
        cmd(0xA2),
        dat(&[0]),
        cmd(0xA1),
        dat(&[0]),
        cmd(0xB5),
        dat(&[0x00]),
        cmd(0xAB),
        dat(&[0x01]),
        cmd(0xB4),
        dat(&[0xA0, 0xB5, 0x55]),
        cmd(0xC1),
        dat(&[0xC8, 0x8F, 0xC8]),
        cmd(0xC7),
        dat(&[0x0F]),
        cmd(0xB1),
        dat(&[0x32]),
        cmd(0xB6),
        dat(&[0x01]),
        cmd(0xBE),
        dat(&[0x05]),
        cmd(0xA6),
        cmd(0xA0),
        dat(&[0x34]),
        cmd(0x15),
        dat(&[0, 127]),
        cmd(0x75),
        dat(&[0, 95]),
        cmd(0x5C),
    ];
    for _ in 0..(128 * 96) {
        expected.push(dat(&[0x00, 0x00]));
    }
    expected.push(cmd(0xAF));
    assert_eq!(events, expected);
}

#[test]
fn builder_defaults() {
    let mode = ssd1351::builder::Builder::new().connect(RecordingInterface::new());
    let display = mode.display.display;
    assert_eq!(display.get_size(), DisplaySize::Display128x128);
    assert_eq!(display.get_rotation(), DisplayRotation::Rotate0);
    assert!(display.release().events.is_empty());
}

#[test]
fn builder_with_size_and_rotation() {
    let builder = ssd1351::builder::Builder::new()
        .with_size(DisplaySize::Display128x96)
        .with_rotation(DisplayRotation::Rotate270);
    let mode = builder.connect(RecordingInterface::new());
    let display = mode.display.display;
    assert_eq!(display.get_size(), DisplaySize::Display128x96);
    assert_eq!(display.get_rotation(), DisplayRotation::Rotate270);
}

#[test]
fn builder_default_trait_matches_new() {
    let default_mode = ssd1351::builder::Builder::default().connect(RecordingInterface::new());
    let display = default_mode.display.display;
    assert_eq!(display.get_size(), DisplaySize::Display128x128);
    assert_eq!(display.get_rotation(), DisplayRotation::Rotate0);
}

#[test]
fn display_size_dimensions() {
    assert_eq!(DisplaySize::Display128x128.dimensions(), (128, 128));
    assert_eq!(DisplaySize::Display128x96.dimensions(), (128, 96));
}

#[test]
fn get_dimensions_swaps_on_side_rotations() {
    let display = fresh_display(DisplaySize::Display128x128, DisplayRotation::Rotate90);
    assert_eq!(display.get_dimensions(), (128, 128));
    let display = fresh_display(DisplaySize::Display128x96, DisplayRotation::Rotate90);
    assert_eq!(display.get_dimensions(), (96, 128));
}

//! The driver's parts, its tables and its byte order.

use tft_driver::encoding::{encode, encode_all};
use tft_driver::{
    Action, Error, Instruction, Operation, Orientation, Report, Run, TearingEffect, ST7789,
};

#[derive(Debug, PartialEq)]
struct Channel {
    sent: Vec<u8>,
}

#[derive(Debug, PartialEq)]
struct Pin {
    number: u8,
    high: bool,
}

fn perform(driver: &mut ST7789<Channel, Pin, Pin>, mut run: Run) -> Result<(), Error<u8>> {
    loop {
        match driver.advance(&mut run, Report::Waited) {
            Action::Perform(_) => {}
            Action::Finish(result) => return result,
        }
    }
}

#[test]
fn release_returns_what_new_took() {
    let driver = ST7789::new(
        Channel { sent: vec![1, 2, 3] },
        Some(Pin { number: 19, high: false }),
        Some(Pin { number: 15, high: true }),
    );
    let (channel, reset, backlight) = driver.release();
    assert_eq!(channel, Channel { sent: vec![1, 2, 3] });
    assert_eq!(reset, Some(Pin { number: 19, high: false }));
    assert_eq!(backlight, Some(Pin { number: 15, high: true }));
}

#[test]
fn release_returns_missing_lines_as_missing() {
    let driver: ST7789<Channel, Pin, Pin> = ST7789::new(Channel { sent: Vec::new() }, None, None);
    let (channel, reset, backlight) = driver.release();
    assert_eq!(channel, Channel { sent: Vec::new() });
    assert_eq!(reset, None);
    assert_eq!(backlight, None);
}

#[test]
fn runs_leave_the_parts_alone() {
    let mut driver = ST7789::new(
        Channel { sent: vec![7] },
        Some(Pin { number: 19, high: false }),
        Some(Pin { number: 15, high: true }),
    );
    let run = driver.init();
    assert_eq!(perform(&mut driver, run), Ok(()));
    let run = driver.set_orientation(Orientation::Landscape);
    assert_eq!(perform(&mut driver, run), Ok(()));
    let mut run = driver.set_pixels(0, 0, 3, 3, vec![1, 2, 3]);
    assert!(matches!(driver.advance::<u8>(&mut run, Report::Begin), Action::Perform(_)));
    assert_eq!(
        driver.advance(&mut run, Report::Line(Err(4u8))),
        Action::Finish(Err(Error::DisplayError))
    );
    let (channel, reset, backlight) = driver.release();
    assert_eq!(channel, Channel { sent: vec![7] });
    assert_eq!(reset, Some(Pin { number: 19, high: false }));
    assert_eq!(backlight, Some(Pin { number: 15, high: true }));
}

#[test]
fn the_caller_reaches_the_parts_to_work_on_them() {
    let mut driver = ST7789::new(
        Channel { sent: Vec::new() },
        Some(Pin { number: 19, high: false }),
        None::<Pin>,
    );
    let run = driver.set_orientation(Orientation::PortraitSwapped);
    let mut run = run;
    let mut last = Report::Begin;
    loop {
        match driver.advance::<u8>(&mut run, last) {
            Action::Perform(Operation::Command(byte)) => {
                driver.channel_mut().sent.push(byte);
                last = Report::Burst(Ok(()));
            }
            Action::Perform(Operation::Data(bytes)) => {
                driver.channel_mut().sent.extend(bytes);
                last = Report::Burst(Ok(()));
            }
            Action::Perform(_) => last = Report::Waited,
            Action::Finish(result) => {
                assert_eq!(result, Ok(()));
                break;
            }
        }
    }
    if let Some(pin) = driver.reset_line_mut() {
        pin.high = true;
    }
    assert!(driver.backlight_line_mut().is_none());
    assert_eq!(driver.orientation(), Orientation::PortraitSwapped);
    let (channel, reset, backlight) = driver.release();
    assert_eq!(channel.sent, vec![0x36, 0xC0]);
    assert_eq!(reset, Some(Pin { number: 19, high: true }));
    assert_eq!(backlight, None);
}

#[test]
fn a_new_driver_is_unmirrored() {
    let driver: ST7789<u8, u8, u8> = ST7789::new(0, None, None);
    assert_eq!(driver.orientation(), Orientation::Portrait);
    assert_eq!(Orientation::default(), Orientation::Portrait);
}

#[test]
fn opcodes_are_the_documented_bytes() {
    assert_eq!(Instruction::NOP.opcode(), 0x00);
    assert_eq!(Instruction::SWRESET.opcode(), 0x01);
    assert_eq!(Instruction::SLPIN.opcode(), 0x10);
    assert_eq!(Instruction::SLPOUT.opcode(), 0x11);
    assert_eq!(Instruction::INVOFF.opcode(), 0x20);
    assert_eq!(Instruction::INVON.opcode(), 0x21);
    assert_eq!(Instruction::DISPOFF.opcode(), 0x28);
    assert_eq!(Instruction::DISPON.opcode(), 0x29);
    assert_eq!(Instruction::CASET.opcode(), 0x2A);
    assert_eq!(Instruction::RASET.opcode(), 0x2B);
    assert_eq!(Instruction::RAMWR.opcode(), 0x2C);
    assert_eq!(Instruction::RAMRD.opcode(), 0x2E);
    assert_eq!(Instruction::MADCTL.opcode(), 0x36);
}

#[test]
fn orientations_have_their_bit_patterns() {
    assert_eq!(Orientation::Portrait.bits(), 0b0000_0000);
    assert_eq!(Orientation::Landscape.bits(), 0b0110_0000);
    assert_eq!(Orientation::PortraitSwapped.bits(), 0b1100_0000);
    assert_eq!(Orientation::LandscapeSwapped.bits(), 0b1010_0000);
}

#[test]
fn tearing_effect_modes_are_distinct() {
    assert_ne!(TearingEffect::Off, TearingEffect::Vertical);
    assert_ne!(TearingEffect::Vertical, TearingEffect::HorizontalAndVertical);
    assert_ne!(TearingEffect::Off, TearingEffect::HorizontalAndVertical);
    let copy = TearingEffect::Vertical;
    assert_eq!(copy, TearingEffect::Vertical);
}

#[test]
fn sixteen_bit_values_travel_high_byte_first() {
    assert_eq!(encode(0x0000), vec![0x00, 0x00]);
    assert_eq!(encode(0x0001), vec![0x00, 0x01]);
    assert_eq!(encode(0x0100), vec![0x01, 0x00]);
    assert_eq!(encode(0x1234), vec![0x12, 0x34]);
    assert_eq!(encode(0xFFFF), vec![0xFF, 0xFF]);
    for value in [0u16, 1, 255, 256, 257, 0x7FFF, 0x8000, 0xFFFE, 0xFFFF] {
        assert_eq!(encode(value), value.to_be_bytes().to_vec());
    }
}

#[test]
fn sequences_are_encoded_value_by_value() {
    assert_eq!(encode_all(&[]), Vec::<u8>::new());
    assert_eq!(encode_all(&[0xABCD]), vec![0xAB, 0xCD]);
    assert_eq!(encode_all(&[0x0102, 0x0304, 0xFFFE]), vec![1, 2, 3, 4, 0xFF, 0xFE]);
    let values: Vec<u16> = (0..1000u16).map(|i| i.wrapping_mul(7919)).collect();
    let expected: Vec<u8> = values.iter().flat_map(|value| value.to_be_bytes()).collect();
    assert_eq!(encode_all(&values), expected);
}

//! What each request asks of the bus, the lines and the clock when nothing
//! fails.

use tft_driver::{
    Action, Error, FbWriteError, FramebufferTarget, Instruction, Line, Operation, Orientation,
    Report, Run, ST7789,
};

type Driver = ST7789<&'static str, &'static str, &'static str>;

fn wired() -> Driver {
    ST7789::new("channel", Some("reset"), Some("backlight"))
}

fn bare() -> Driver {
    ST7789::new("channel", None, None)
}

/// The report of an operation that went well.
fn done(operation: &Operation) -> Report<u8> {
    match operation {
        Operation::Command(_) | Operation::Data(_) | Operation::Buffer(_) => Report::Burst(Ok(())),
        Operation::SetHigh(_) | Operation::SetLow(_) => Report::Line(Ok(())),
        Operation::DelayUs(_) => Report::Waited,
    }
}

/// Advances `run` to its end, reporting success for every operation, and
/// returns the operations in the order in which they were handed out.
fn perform<'a>(
    driver: &mut Driver,
    mut run: Run<'a>,
) -> (Vec<Operation<'a>>, Result<(), Error<u8>>) {
    let mut performed = Vec::new();
    let mut last = Report::Begin;
    loop {
        match driver.advance(&mut run, last) {
            Action::Perform(operation) => {
                last = done(&operation);
                performed.push(operation);
            }
            Action::Finish(result) => return (performed, result),
        }
    }
}

fn command(byte: u8) -> Operation<'static> {
    Operation::Command(byte)
}

fn data(bytes: &[u8]) -> Operation<'static> {
    Operation::Data(bytes.to_vec())
}

fn reset_pulse() -> Vec<Operation<'static>> {
    vec![
        Operation::SetHigh(Line::Reset),
        Operation::DelayUs(100),
        Operation::SetLow(Line::Reset),
        Operation::DelayUs(100),
        Operation::SetHigh(Line::Reset),
        Operation::DelayUs(100),
    ]
}

fn backlight_cycle() -> Vec<Operation<'static>> {
    vec![
        Operation::SetLow(Line::Backlight),
        Operation::DelayUs(10_000),
        Operation::SetHigh(Line::Backlight),
    ]
}

fn register_program() -> Vec<Operation<'static>> {
    vec![
        command(0x01),
        Operation::DelayUs(150_000),
        command(0x11),
        Operation::DelayUs(10_000),
        command(0xE0),
        data(&[
            0x00, 0x03, 0x09, 0x08, 0x16, 0x0A, 0x3F, 0x78, 0x4C, 0x09, 0x0A, 0x08, 0x16, 0x1A,
            0x0F,
        ]),
        command(0xE1),
        data(&[
            0x00, 0x16, 0x19, 0x03, 0x0F, 0x05, 0x32, 0x45, 0x46, 0x04, 0x0E, 0x0D, 0x35, 0x37,
            0x0F,
        ]),
        command(0xC0),
        data(&[0x17, 0x15]),
        command(0xC1),
        data(&[0x41]),
        command(0xC5),
        data(&[0x00, 0x12, 0x80]),
        command(0x36),
        data(&[0x48]),
        command(0x3A),
        data(&[0x66]),
        command(0xB0),
        data(&[0x00]),
        command(0xB1),
        data(&[0xA0]),
        command(0xB4),
        data(&[0x02]),
        command(0xB6),
        data(&[0x02, 0x02, 0x3B]),
        command(0xB7),
        data(&[0xC6]),
        command(0xF7),
        data(&[0xA9, 0x51, 0x2C, 0x82]),
        command(0x11),
        Operation::DelayUs(10_000),
        command(0x29),
        Operation::DelayUs(10_000),
    ]
}

#[test]
fn init_performs_the_documented_program() {
    let mut driver = wired();
    let run = driver.init();
    let (performed, result) = perform(&mut driver, run);
    let mut expected = reset_pulse();
    expected.extend(backlight_cycle());
    expected.extend(register_program());
    assert_eq!(performed, expected);
    assert_eq!(performed.len(), 43);
    assert_eq!(result, Ok(()));
}

#[test]
fn init_without_lines_performs_every_register_write() {
    let mut driver = bare();
    let run = driver.init();
    assert_eq!(run.pending(), 34);
    let (performed, result) = perform(&mut driver, run);
    assert_eq!(performed, register_program());
    assert_eq!(result, Ok(()));
    assert!(performed
        .iter()
        .all(|operation| !matches!(operation, Operation::SetHigh(_) | Operation::SetLow(_))));
}

#[test]
fn init_with_reset_line_only_skips_the_backlight_cycle() {
    let mut driver: Driver = ST7789::new("channel", Some("reset"), None);
    let run = driver.init();
    let (performed, result) = perform(&mut driver, run);
    let mut expected = reset_pulse();
    expected.extend(register_program());
    assert_eq!(performed, expected);
    assert_eq!(result, Ok(()));
}

#[test]
fn init_with_backlight_line_only_skips_the_reset_pulse() {
    let mut driver: Driver = ST7789::new("channel", None, Some("backlight"));
    let run = driver.init();
    let (performed, result) = perform(&mut driver, run);
    let mut expected = backlight_cycle();
    expected.extend(register_program());
    assert_eq!(performed, expected);
    assert_eq!(result, Ok(()));
}

#[test]
fn init_caches_the_default_orientation() {
    for orientation in [Orientation::Landscape, Orientation::LandscapeSwapped] {
        let mut driver = wired();
        let run = driver.set_orientation(orientation);
        assert_eq!(perform(&mut driver, run).1, Ok(()));
        assert_eq!(driver.orientation(), orientation);
        let run = driver.init();
        assert_eq!(perform(&mut driver, run).1, Ok(()));
        assert_eq!(driver.orientation(), Orientation::Portrait);
        assert_eq!(driver.orientation(), Orientation::default());
    }
    let mut driver = bare();
    let run = driver.set_orientation(Orientation::PortraitSwapped);
    assert_eq!(perform(&mut driver, run).1, Ok(()));
    let run = driver.init();
    assert_eq!(perform(&mut driver, run).1, Ok(()));
    assert_eq!(driver.orientation(), Orientation::Portrait);
}

#[test]
fn init_caches_the_default_orientation_once_the_register_is_written() {
    let mut driver = wired();
    let run = driver.set_orientation(Orientation::Landscape);
    assert_eq!(perform(&mut driver, run).1, Ok(()));
    let mut run = driver.init();
    let mut last = Report::Begin;
    let mut handed = 0;
    loop {
        let before = driver.orientation();
        match driver.advance::<u8>(&mut run, last) {
            Action::Perform(operation) => {
                handed += 1;
                // The parameter byte of memory access control is the 25th
                // operation with both lines: its report is the 26th step.
                if handed <= 25 {
                    assert_eq!(driver.orientation(), Orientation::Landscape);
                } else {
                    assert_eq!(driver.orientation(), Orientation::Portrait);
                }
                if handed == 24 {
                    assert_eq!(operation, command(0x36));
                }
                if handed == 25 {
                    assert_eq!(operation, data(&[0x48]));
                }
                if handed != 26 {
                    assert_eq!(driver.orientation(), before);
                }
                last = done(&operation);
            }
            Action::Finish(result) => {
                assert_eq!(result, Ok(()));
                break;
            }
        }
    }
    assert_eq!(handed, 43);
    assert_eq!(driver.orientation(), Orientation::Portrait);
}

#[test]
fn hard_reset_pulses_the_reset_line() {
    let mut driver = wired();
    let run = driver.hard_reset();
    let (performed, result) = perform(&mut driver, run);
    assert_eq!(performed, reset_pulse());
    assert_eq!(result, Ok(()));
}

#[test]
fn hard_reset_without_reset_line_does_nothing() {
    let mut driver = bare();
    let run = driver.hard_reset();
    assert_eq!(run.pending(), 0);
    let (performed, result) = perform(&mut driver, run);
    assert_eq!(performed, Vec::<Operation>::new());
    assert_eq!(result, Ok(()));
}

#[test]
fn hard_reset_ignores_the_backlight_line() {
    let mut driver: Driver = ST7789::new("channel", None, Some("backlight"));
    let run = driver.hard_reset();
    let (performed, result) = perform(&mut driver, run);
    assert_eq!(performed, Vec::<Operation>::new());
    assert_eq!(result, Ok(()));
}

#[test]
fn address_window_sends_columns_then_rows_high_byte_first() {
    let mut driver = bare();
    let run = driver.set_address_window(0x0102, 0x0304, 0x0506, 0x0708);
    let (performed, result) = perform(&mut driver, run);
    assert_eq!(
        performed,
        vec![
            command(0x2A),
            data(&[0x01, 0x02]),
            data(&[0x05, 0x06]),
            command(0x2B),
            data(&[0x03, 0x04]),
            data(&[0x07, 0x08]),
        ]
    );
    assert_eq!(result, Ok(()));
}

#[test]
fn address_window_forwards_bounds_beyond_any_panel() {
    let mut driver = bare();
    let run = driver.set_address_window(0xFFFF, 0, 0, 0xFFFE);
    let (performed, _) = perform(&mut driver, run);
    assert_eq!(
        performed,
        vec![
            command(0x2A),
            data(&[0xFF, 0xFF]),
            data(&[0x00, 0x00]),
            command(0x2B),
            data(&[0x00, 0x00]),
            data(&[0xFF, 0xFE]),
        ]
    );
}

#[test]
fn address_window_of_the_demo_rectangle() {
    let mut driver = bare();
    let run = driver.set_address_window(10, 10, 69, 70);
    let (performed, _) = perform(&mut driver, run);
    assert_eq!(
        performed,
        vec![
            command(0x2A),
            data(&[0, 10]),
            data(&[0, 69]),
            command(0x2B),
            data(&[0, 10]),
            data(&[0, 70]),
        ]
    );
}

#[test]
fn set_pixel_is_a_window_of_one_pixel_and_one_color() {
    let mut driver = bare();
    let run = driver.set_pixel(300, 7, 0xF81F);
    let (performed, result) = perform(&mut driver, run);
    let window = driver.set_address_window(300, 7, 300, 7);
    let (mut expected, _) = perform(&mut driver, window);
    expected.push(command(0x2C));
    expected.push(data(&[0xF8, 0x1F]));
    assert_eq!(performed, expected);
    assert_eq!(
        performed,
        vec![
            command(0x2A),
            data(&[0x01, 0x2C]),
            data(&[0x01, 0x2C]),
            command(0x2B),
            data(&[0x00, 0x07]),
            data(&[0x00, 0x07]),
            command(0x2C),
            data(&[0xF8, 0x1F]),
        ]
    );
    assert_eq!(result, Ok(()));
}

#[test]
fn set_pixel_sends_exactly_two_color_bytes() {
    let mut driver = bare();
    for color in [0x0000u16, 0x00FF, 0xFF00, 0xFFFF, 0x1234] {
        let run = driver.set_pixel(0, 0, color);
        let (performed, _) = perform(&mut driver, run);
        assert_eq!(performed.len(), 8);
        assert_eq!(performed[7], data(&[(color >> 8) as u8, (color & 0xFF) as u8]));
    }
}

#[test]
fn set_pixels_streams_the_colors_in_order() {
    let mut driver = bare();
    let run = driver.set_pixels(1, 2, 2, 3, vec![0x1234, 0xABCD, 0x0001, 0xFF00]);
    let (performed, result) = perform(&mut driver, run);
    assert_eq!(
        performed,
        vec![
            command(0x2A),
            data(&[0, 1]),
            data(&[0, 2]),
            command(0x2B),
            data(&[0, 2]),
            data(&[0, 3]),
            command(0x2C),
            data(&[0x12, 0x34, 0xAB, 0xCD, 0x00, 0x01, 0xFF, 0x00]),
        ]
    );
    assert_eq!(result, Ok(()));
}

#[test]
fn set_pixels_does_not_count_the_colors() {
    let mut driver = bare();
    let run = driver.set_pixels(0, 0, 9, 9, vec![0x0102]);
    let (too_few, _) = perform(&mut driver, run);
    assert_eq!(too_few[7], data(&[0x01, 0x02]));
    let run = driver.set_pixels(0, 0, 0, 0, vec![0x0102, 0x0304, 0x0506]);
    let (too_many, _) = perform(&mut driver, run);
    assert_eq!(too_many[7], data(&[0x01, 0x02, 0x03, 0x04, 0x05, 0x06]));
    let run = driver.set_pixels(0, 0, 0, 0, Vec::new());
    let (none, result) = perform(&mut driver, run);
    assert_eq!(none.len(), 8);
    assert_eq!(none[6], command(0x2C));
    assert_eq!(none[7], data(&[]));
    assert_eq!(result, Ok(()));
}

#[test]
fn set_pixels_of_one_color_is_set_pixel() {
    let mut driver = bare();
    let run = driver.set_pixels(5, 6, 5, 6, vec![0xBEEF]);
    let (many, _) = perform(&mut driver, run);
    let run = driver.set_pixel(5, 6, 0xBEEF);
    let (one, _) = perform(&mut driver, run);
    assert_eq!(many, one);
}

#[test]
fn set_orientation_sends_the_pattern_and_caches_it() {
    let patterns = [
        (Orientation::Portrait, 0x00u8),
        (Orientation::Landscape, 0x60),
        (Orientation::PortraitSwapped, 0xC0),
        (Orientation::LandscapeSwapped, 0xA0),
    ];
    for (orientation, pattern) in patterns {
        let mut driver = bare();
        let run = driver.set_orientation(orientation);
        let (performed, result) = perform(&mut driver, run);
        assert_eq!(performed, vec![command(0x36), data(&[pattern])]);
        assert_eq!(result, Ok(()));
        assert_eq!(driver.orientation(), orientation);
    }
}

#[test]
fn orientation_is_cached_only_when_the_run_has_ended() {
    let mut driver = bare();
    let mut run = driver.set_orientation(Orientation::Landscape);
    assert_eq!(driver.orientation(), Orientation::Portrait);
    assert_eq!(driver.advance::<u8>(&mut run, Report::Begin), Action::Perform(command(0x36)));
    assert_eq!(driver.orientation(), Orientation::Portrait);
    assert_eq!(
        driver.advance::<u8>(&mut run, Report::Burst(Ok(()))),
        Action::Perform(data(&[0x60]))
    );
    assert_eq!(driver.orientation(), Orientation::Portrait);
    assert_eq!(driver.advance::<u8>(&mut run, Report::Burst(Ok(()))), Action::Finish(Ok(())));
    assert_eq!(driver.orientation(), Orientation::Landscape);
}

#[test]
fn other_requests_leave_the_cached_orientation() {
    let mut driver = wired();
    let run = driver.set_orientation(Orientation::PortraitSwapped);
    perform(&mut driver, run).1.unwrap();
    let run = driver.set_pixel(1, 1, 1);
    perform(&mut driver, run).1.unwrap();
    let run = driver.hard_reset();
    perform(&mut driver, run).1.unwrap();
    let run = driver.eat_framebuffer(&[1, 2, 3]);
    perform(&mut driver, run).1.unwrap();
    assert_eq!(driver.orientation(), Orientation::PortraitSwapped);
}

#[test]
fn eat_framebuffer_forwards_the_buffer_as_it_is() {
    let mut driver = bare();
    let buffer: Vec<u8> = (0..=255u8).rev().collect();
    let run = driver.eat_framebuffer(&buffer);
    let (performed, result) = perform(&mut driver, run);
    assert_eq!(performed, vec![command(0x2C), Operation::Buffer(&buffer)]);
    assert_eq!(FbWriteError::collapse(result), Ok(()));
}

#[test]
fn eat_framebuffer_takes_an_empty_buffer() {
    let mut driver = bare();
    let run = driver.eat_framebuffer(&[]);
    let (performed, result) = perform(&mut driver, run);
    assert_eq!(performed, vec![command(0x2C), Operation::Buffer(&[])]);
    assert_eq!(result, Ok(()));
}

#[test]
fn eat_framebuffer_of_the_demo_pattern() {
    let mut driver = bare();
    let mut buffer = vec![0u8; 60 * 60 * 3];
    for (i, byte) in buffer.iter_mut().enumerate() {
        *byte = (i % 251) as u8;
    }
    let run = driver.eat_framebuffer(buffer.as_slice());
    let (performed, _) = perform(&mut driver, run);
    assert_eq!(performed.len(), 2);
    assert_eq!(performed[1], Operation::Buffer(&buffer));
}

#[test]
fn named_commands_are_sent_by_their_opcode() {
    let mut driver = bare();
    let run = driver.set_address_window(0, 0, 0, 0);
    let (performed, _) = perform(&mut driver, run);
    assert_eq!(performed[0], command(Instruction::CASET.opcode()));
    assert_eq!(performed[3], command(Instruction::RASET.opcode()));
    let run = driver.set_pixel(0, 0, 0);
    let (performed, _) = perform(&mut driver, run);
    assert_eq!(performed[6], command(Instruction::RAMWR.opcode()));
    let run = driver.set_orientation(Orientation::Portrait);
    let (performed, _) = perform(&mut driver, run);
    assert_eq!(performed[0], command(Instruction::MADCTL.opcode()));
}

#[test]
fn pending_counts_down_as_the_run_advances() {
    let mut driver = bare();
    let mut run = driver.set_address_window(0, 0, 1, 1);
    let mut last = Report::Begin;
    for left in (0..6).rev() {
        assert_eq!(run.pending(), left + 1);
        assert!(matches!(driver.advance::<u8>(&mut run, last), Action::Perform(_)));
        assert_eq!(run.pending(), left);
        last = Report::Burst(Ok(()));
    }
    assert_eq!(driver.advance::<u8>(&mut run, last), Action::Finish(Ok(())));
    assert_eq!(run.pending(), 0);
}

#[test]
fn a_run_goes_on_whatever_kind_of_success_is_reported() {
    let mut driver = wired();
    let mut run = driver.hard_reset();
    let mut performed = Vec::new();
    let reports: [Report<u8>; 7] = [
        Report::Waited,
        Report::Begin,
        Report::Burst(Ok(())),
        Report::Line(Ok(())),
        Report::Begin,
        Report::Waited,
        Report::Line(Ok(())),
    ];
    let mut result = None;
    for report in reports {
        match driver.advance(&mut run, report) {
            Action::Perform(operation) => performed.push(operation),
            Action::Finish(ended) => result = Some(ended),
        }
    }
    assert_eq!(performed, reset_pulse());
    assert_eq!(result, Some(Ok(())));
}

//! The driver: what it owns, what it plans, and how a run moves on.

use crate::encoding::{encode, encode_all};
use crate::instruction::Instruction;
use crate::operation::Line;
use crate::orientation::Orientation;
use crate::program::{
    address_window_program, calibration_program, display_on_program, format_program,
    framebuffer_program, hard_reset_program, init_program, init_register_written,
    memory_write_program,
    orientation_program, pixel_program, pixels_program, timing_program, wake_program,
};
use crate::report::Report;
use crate::run::{step, Action, Run, RunState, Staged};
use vstd::prelude::*;

verus! {

/// Driver for a TFT panel behind a command/data channel.
///
/// It owns the channel and, where the board has them, the reset and the
/// backlight line, and it remembers the orientation that was last selected
/// successfully.
pub struct ST7789<DI, RST, BL> {
    // Display interface
    di: DI,
    // Reset pin.
    rst: Option<RST>,
    // Backlight pin,
    bl: Option<BL>,
    // Current orientation
    orientation: Orientation,
}

impl<DI, RST, BL> ST7789<DI, RST, BL> {
    /// The driver that [`ST7789::new`] makes of these parts.
    pub closed spec fn spec_new(di: DI, rst: Option<RST>, bl: Option<BL>) -> Self {
        ST7789 { di, rst, bl, orientation: Orientation::Portrait }
    }

    /// The parts that [`ST7789::release`] hands back: the channel, the reset
    /// line and the backlight line.
    pub closed spec fn spec_release(self) -> (DI, Option<RST>, Option<BL>) {
        (self.di, self.rst, self.bl)
    }

    /// The orientation that was last selected successfully.
    pub closed spec fn spec_orientation(&self) -> Orientation {
        self.orientation
    }

    /// Whether the driver owns a reset line.
    pub open spec fn has_reset(&self) -> bool {
        self.release().1 is Some
    }

    /// Whether the driver owns a backlight line.
    pub open spec fn has_backlight(&self) -> bool {
        self.release().2 is Some
    }

    /// Where `run` stands with this driver.
    pub open spec fn state(&self, run: &Run) -> RunState {
        RunState {
            remaining: run.remaining(),
            staged: run.staged(),
            cached: self.orientation(),
            driving: run.driving(),
        }
    }

    /// Creates a new driver instance
    ///
    /// # Arguments
    ///
    /// * `di` - a display interface for talking with the display
    /// * `rst` - display hard reset pin
    /// * `bl` - backlight pin
    #[verifier::when_used_as_spec(spec_new)]
    pub fn new(di: DI, rst: Option<RST>, bl: Option<BL>) -> (driver: Self)
        ensures
            driver == Self::spec_new(di, rst, bl),
            driver.release() == (di, rst, bl),
            driver.orientation() == Orientation::Portrait,
    {
        Self { di, rst, bl, orientation: Orientation::default() }
    }

    /// Release resources allocated to this driver back.
    /// This returns the display interface and the two pins, deconstructing
    /// the driver.
    #[verifier::when_used_as_spec(spec_release)]
    pub fn release(self) -> (parts: (DI, Option<RST>, Option<BL>))
        ensures
            parts == self.spec_release(),
    {
        (self.di, self.rst, self.bl)
    }

    /// Returns currently set orientation
    #[verifier::when_used_as_spec(spec_orientation)]
    pub fn orientation(&self) -> (orientation: Orientation)
        ensures
            orientation == self.spec_orientation(),
    {
        self.orientation
    }

    /// What `release` returns is what `new` took, and a new driver has the
    /// unmirrored orientation cached.
    pub proof fn release_returns_what_new_took(di: DI, rst: Option<RST>, bl: Option<BL>)
        ensures
            Self::new(di, rst, bl).release() == (di, rst, bl),
            Self::new(di, rst, bl).orientation() == Orientation::Portrait,
    {
    }

    /// The channel, for the caller to send a burst on.
    pub fn channel_mut(&mut self) -> (channel: &mut DI)
        ensures
            *channel == old(self).release().0,
            final(self).release() == (
                *final(channel),
                old(self).release().1,
                old(self).release().2,
            ),
            final(self).orientation() == old(self).orientation(),
    {
        &mut self.di
    }

    /// The reset line, if the board has one, for the caller to drive. The
    /// caller can change the line's state and nothing else: whether the
    /// driver owns a reset line stays as it is.
    pub fn reset_line_mut(&mut self) -> (line: Option<&mut RST>)
        ensures
            match line {
                Some(line) => {
                    &&& old(self).release().1 == Some(*line)
                    &&& final(self).release().1 == Some(*final(line))
                },
                None => {
                    &&& old(self).release().1 is None
                    &&& final(self).release().1 is None
                },
            },
            final(self).release().0 == old(self).release().0,
            final(self).release().2 == old(self).release().2,
            final(self).orientation() == old(self).orientation(),
    {
        match &mut self.rst {
            Some(line) => Some(line),
            None => None,
        }
    }

    /// The backlight line, if the board has one, for the caller to drive.
    /// The caller can change the line's state and nothing else: whether the
    /// driver owns a backlight line stays as it is.
    pub fn backlight_line_mut(&mut self) -> (line: Option<&mut BL>)
        ensures
            match line {
                Some(line) => {
                    &&& old(self).release().2 == Some(*line)
                    &&& final(self).release().2 == Some(*final(line))
                },
                None => {
                    &&& old(self).release().2 is None
                    &&& final(self).release().2 is None
                },
            },
            final(self).release().0 == old(self).release().0,
            final(self).release().1 == old(self).release().1,
            final(self).orientation() == old(self).orientation(),
    {
        match &mut self.bl {
            Some(line) => Some(line),
            None => None,
        }
    }

    /// Plans a hard reset using the RST pin sequence.
    pub fn hard_reset(&self) -> (run: Run<'static>)
        ensures
            run.plans(hard_reset_program(self.has_reset()), None),
    {
        let mut run = Run::new();
        if self.rst.is_some() {
            run.set_high(Line::Reset);
            run.delay_us(100);  // ensure the pin change will get registered
            run.set_low(Line::Reset);
            run.delay_us(100);  // ensure the pin change will get registered
            run.set_high(Line::Reset);
            run.delay_us(100);  // ensure the pin change will get registered
        }
        run
    }

    /// Plans the commands that initialize the display: the hard reset, the
    /// backlight switched off and on again, then the register writes with
    /// the waits that the controller asks for.
    ///
    /// One of the registers is the orientation register, which is set for
    /// the default orientation. The driver caches that orientation as soon
    /// as this write is reported done, whatever becomes of the rest of the
    /// run.
    pub fn init(&self) -> (run: Run<'static>)
        ensures
            run.plans(
                init_program(self.has_reset(), self.has_backlight()),
                Some(
                    Staged {
                        orientation: Orientation::Portrait,
                        left: init_register_written(self.has_reset(), self.has_backlight()),
                    },
                ),
            ),
    {
        let mut run = self.hard_reset();
        if self.bl.is_some() {
            run.set_low(Line::Backlight);
            run.delay_us(10_000);
            run.set_high(Line::Backlight);
        }
        wake(&mut run);
        calibrate(&mut run);
        select_format(&mut run);
        select_timing(&mut run);
        switch_on(&mut run);
        run
    }

    /// Plans setting the display orientation.
    ///
    /// The driver caches `orientation` when both bursts are reported done,
    /// which ends the run with success; until then, and after a failure,
    /// the cached orientation stays.
    pub fn set_orientation(&self, orientation: Orientation) -> (run: Run<'static>)
        ensures
            run.plans(
                orientation_program(orientation),
                Some(Staged { orientation, left: 2 }),
            ),
    {
        let mut run = Run::new();
        run.write_command(Instruction::MADCTL);
        run.write_data(&[orientation.bits()]);
        run.stage(orientation);
        run
    }

    /// Plans setting a pixel color at the given coords.
    ///
    /// # Arguments
    ///
    /// * `x` - x coordinate
    /// * `y` - y coordinate
    /// * `color` - the Rgb565 color value
    pub fn set_pixel(&self, x: u16, y: u16, color: u16) -> (run: Run<'static>)
        ensures
            run.plans(pixel_program(x, y, color), None),
    {
        let mut run = self.set_address_window(x, y, x, y);
        write_memory(&mut run, encode(color));
        run
    }

    /// Plans setting pixel colors in given rectangle bounds.
    ///
    /// The colors fill the rectangle row by row. Their number is not held
    /// against the size of the rectangle: too few leave the rest of the
    /// rectangle as it was, and what the panel does with too many is the
    /// panel's business.
    ///
    /// # Arguments
    ///
    /// * `sx` - x coordinate start
    /// * `sy` - y coordinate start
    /// * `ex` - x coordinate end
    /// * `ey` - y coordinate end
    /// * `colors` - the pixel data, one Rgb565 value for each pixel
    pub fn set_pixels(&self, sx: u16, sy: u16, ex: u16, ey: u16, colors: Vec<u16>) -> (run: Run<
        'static,
    >)
        ensures
            run.plans(pixels_program(sx, sy, ex, ey, colors@), None),
    {
        let mut run = self.set_address_window(sx, sy, ex, ey);
        write_memory(&mut run, encode_all(colors.as_slice()));
        run
    }

    /// Plans setting the address window for the display.
    ///
    /// The bounds are inclusive and are not held against the size of the
    /// panel.
    pub fn set_address_window(&self, sx: u16, sy: u16, ex: u16, ey: u16) -> (run: Run<'static>)
        ensures
            run.plans(address_window_program(sx, sy, ex, ey), None),
    {
        let mut run = Run::new();
        run.write_command(Instruction::CASET);
        run.write_bytes(encode(sx));
        run.write_bytes(encode(ex));
        run.write_command(Instruction::RASET);
        run.write_bytes(encode(sy));
        run.write_bytes(encode(ey));
        run
    }

    /// Moves `run` one step on. `last` reports on the operation that the
    /// call before handed out; on the first call, where there is none, it is
    /// [`Report::Begin`].
    ///
    /// The answer is the next operation to perform, or the end of the run
    /// with its result. A failure ends the run at once and is its result: a
    /// pin error with the line's own error where a line was to be driven
    /// and could not be, a display error for every other failure. The
    /// orientation that the run writes to the orientation register is
    /// cached when the last burst of that write is reported done, and only
    /// then. The parts stay as they are.
    pub fn advance<'a, PinE>(&mut self, run: &mut Run<'a>, last: Report<PinE>) -> (action: Action<
        'a,
        PinE,
    >)
        ensures
            (final(self).state(final(run)), action@) == step(old(self).state(old(run)), last),
            final(self).release() == old(self).release(),
    {
        let action = match last.into_failure(run.is_driving()) {
            Some(error) => {
                run.abandon();
                Action::Finish(Err(error))
            },
            None => {
                match run.take_written() {
                    Some(orientation) => {
                        self.orientation = orientation;
                    },
                    None => {},
                }
                match run.next() {
                    Some(operation) => Action::Perform(operation),
                    None => Action::Finish(Ok(())),
                }
            },
        };
        action
    }
}

/// Something that takes a framebuffer whose pixels are encoded already.
pub trait FramebufferTarget {
    /// Plans pushing `buf` into the window that was selected last. The
    /// bytes travel as they are, as one data burst behind a memory write
    /// command; neither their number nor their encoding is looked at. The
    /// run borrows the buffer and holds no copy of it.
    fn eat_framebuffer<'a>(&self, buf: &'a [u8]) -> (run: Run<'a>)
        ensures
            run.plans(framebuffer_program(buf@), None),
    ;
}

impl<DI, RST, BL> FramebufferTarget for ST7789<DI, RST, BL> {
    fn eat_framebuffer<'a>(&self, buf: &'a [u8]) -> (run: Run<'a>) {
        let mut run = Run::new();
        run.write_command(Instruction::RAMWR);
        run.write_buffer(buf);
        run
    }
}

/// Adds the memory write command and its payload.
fn write_memory(run: &mut Run, payload: Vec<u8>)
    ensures
        final(run).extends(old(run), memory_write_program(payload@)),
{
    run.write_command(Instruction::RAMWR);
    run.write_bytes(payload);
}

/// Adds the software reset and the first sleep out, each with its wait.
fn wake(run: &mut Run)
    ensures
        final(run).extends(old(run), wake_program()),
{
    run.write_command(Instruction::SWRESET);  // reset display
    run.delay_us(150_000);
    run.write_command(Instruction::SLPOUT);  // turn off sleep
    run.delay_us(10_000);
}

/// Adds the vendor's calibration block.
fn calibrate(run: &mut Run)
    ensures
        final(run).extends(old(run), calibration_program()),
{
    run.write_command_raw(0xE0);  // Positive Gamma Control
    run.write_data(
        &[
            0x00, 0x03, 0x09, 0x08, 0x16, 0x0A, 0x3F, 0x78, 0x4C, 0x09, 0x0A, 0x08, 0x16, 0x1A,
            0x0F,
        ],
    );
    run.write_command_raw(0xE1);  // Negative Gamma Control
    run.write_data(
        &[
            0x00, 0x16, 0x19, 0x03, 0x0F, 0x05, 0x32, 0x45, 0x46, 0x04, 0x0E, 0x0D, 0x35, 0x37,
            0x0F,
        ],
    );
    run.write_command_raw(0xC0);  // Power Control 1
    run.write_data(&[0x17, 0x15]);
    run.write_command_raw(0xC1);  // Power Control 2
    run.write_data(&[0x41]);
    run.write_command_raw(0xC5);  // VCOM Control
    run.write_data(&[0x00, 0x12, 0x80]);
}

/// Adds the memory access control and the pixel interface format.
fn select_format(run: &mut Run)
    ensures
        final(run).remaining() == old(run).remaining() + format_program(),
        final(run).staged() == Some(
            Staged { orientation: Orientation::Portrait, left: old(run).remaining().len() + 2 },
        ),
        final(run).driving() == old(run).driving(),
{
    run.write_command(Instruction::MADCTL);  // Memory Access Control
    run.write_data(&[0x48]);
    run.stage(Orientation::default());
    run.write_command_raw(0x3A);  // Pixel Interface Format
    run.write_data(&[0x66]);  // 18-bit colour for SPI
    assert(run.remaining() =~~= old(run).remaining() + format_program());
}

/// Adds the scan and timing registers.
fn select_timing(run: &mut Run)
    ensures
        final(run).extends(old(run), timing_program()),
{
    run.write_command_raw(0xB0);  // Interface Mode Control
    run.write_data(&[0x00]);

    run.write_command_raw(0xB1);  // Frame Rate Control
    run.write_data(&[0xA0]);

    run.write_command_raw(0xB4);  // Display Inversion Control
    run.write_data(&[0x02]);

    run.write_command_raw(0xB6);  // Display Function Control
    run.write_data(&[0x02, 0x02, 0x3B]);

    run.write_command_raw(0xB7);  // Entry Mode Set
    run.write_data(&[0xC6]);

    run.write_command_raw(0xF7);  // Adjust Control 3
    run.write_data(&[0xA9, 0x51, 0x2C, 0x82]);
}

/// Adds the second sleep out and display on, each with its wait.
fn switch_on(run: &mut Run)
    ensures
        final(run).extends(old(run), display_on_program()),
{
    run.write_command(Instruction::SLPOUT);  // turn off sleep
    run.delay_us(10_000);
    run.write_command(Instruction::DISPON);  // turn on display
    run.delay_us(10_000);
}

} // verus!

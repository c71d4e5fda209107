//! What each request to the panel consists of, operation by operation.

use crate::encoding::{big_endian, big_endian_all};
use crate::instruction::Instruction;
use crate::operation::{Line, OperationView};
use crate::orientation::Orientation;
use vstd::prelude::*;

verus! {

/// The reset pulse: high, low, high again, each level held for 100
/// microseconds. Without a reset line there is nothing to do.
pub open spec fn hard_reset_program(has_reset: bool) -> Seq<OperationView> {
    if has_reset {
        seq![
            OperationView::SetHigh(Line::Reset),
            OperationView::DelayUs(100),
            OperationView::SetLow(Line::Reset),
            OperationView::DelayUs(100),
            OperationView::SetHigh(Line::Reset),
            OperationView::DelayUs(100),
        ]
    } else {
        Seq::empty()
    }
}

/// Switching the backlight off and, 10 milliseconds later, on again. Without
/// a backlight line there is nothing to do.
pub open spec fn backlight_program(has_backlight: bool) -> Seq<OperationView> {
    if has_backlight {
        seq![
            OperationView::SetLow(Line::Backlight),
            OperationView::DelayUs(10_000),
            OperationView::SetHigh(Line::Backlight),
        ]
    } else {
        Seq::empty()
    }
}

/// Waking the controller: a software reset and the 150 milliseconds that the
/// controller takes for it, then leaving sleep mode.
pub open spec fn wake_program() -> Seq<OperationView> {
    seq![
        OperationView::Command(Instruction::SWRESET.spec_opcode()),
        OperationView::DelayUs(150_000),
        OperationView::Command(Instruction::SLPOUT.spec_opcode()),
        OperationView::DelayUs(10_000),
    ]
}

/// The panel's calibration, as its vendor documents it: positive gamma,
/// negative gamma, power control 1, power control 2 and VCOM control.
pub open spec fn calibration_program() -> Seq<OperationView> {
    seq![
        OperationView::Command(0xE0),
        OperationView::Data(
            seq![
                0x00, 0x03, 0x09, 0x08, 0x16, 0x0A, 0x3F, 0x78, 0x4C, 0x09, 0x0A, 0x08, 0x16, 0x1A,
                0x0F,
            ],
        ),
        OperationView::Command(0xE1),
        OperationView::Data(
            seq![
                0x00, 0x16, 0x19, 0x03, 0x0F, 0x05, 0x32, 0x45, 0x46, 0x04, 0x0E, 0x0D, 0x35, 0x37,
                0x0F,
            ],
        ),
        OperationView::Command(0xC0),
        OperationView::Data(seq![0x17, 0x15]),
        OperationView::Command(0xC1),
        OperationView::Data(seq![0x41]),
        OperationView::Command(0xC5),
        OperationView::Data(seq![0x00, 0x12, 0x80]),
    ]
}

/// How pixels are laid out: memory access control set for the default
/// orientation, with columns mirrored and blue-green-red order, and a pixel
/// interface format of 18 bits per pixel.
pub open spec fn format_program() -> Seq<OperationView> {
    seq![
        OperationView::Command(Instruction::MADCTL.spec_opcode()),
        OperationView::Data(seq![0x48]),
        OperationView::Command(0x3A),
        OperationView::Data(seq![0x66]),
    ]
}

/// How the panel is scanned: interface mode, frame rate, display inversion,
/// display function, entry mode and adjust control 3.
pub open spec fn timing_program() -> Seq<OperationView> {
    seq![
        OperationView::Command(0xB0),
        OperationView::Data(seq![0x00]),
        OperationView::Command(0xB1),
        OperationView::Data(seq![0xA0]),
        OperationView::Command(0xB4),
        OperationView::Data(seq![0x02]),
        OperationView::Command(0xB6),
        OperationView::Data(seq![0x02, 0x02, 0x3B]),
        OperationView::Command(0xB7),
        OperationView::Data(seq![0xC6]),
        OperationView::Command(0xF7),
        OperationView::Data(seq![0xA9, 0x51, 0x2C, 0x82]),
    ]
}

/// Lighting the panel: leaving sleep mode once more, then display on, each
/// followed by a wait of 10 milliseconds.
pub open spec fn display_on_program() -> Seq<OperationView> {
    seq![
        OperationView::Command(Instruction::SLPOUT.spec_opcode()),
        OperationView::DelayUs(10_000),
        OperationView::Command(Instruction::DISPON.spec_opcode()),
        OperationView::DelayUs(10_000),
    ]
}

/// Bringing the panel up: the reset pulse, the backlight cycle, then the
/// register writes that take the controller from reset to a lit, displaying
/// state, in the order in which the controller needs them.
pub open spec fn init_program(has_reset: bool, has_backlight: bool) -> Seq<OperationView> {
    hard_reset_program(has_reset) + backlight_program(has_backlight) + wake_program()
        + calibration_program() + format_program() + timing_program() + display_on_program()
}

/// How many operations of bringing the panel up it takes to write the
/// orientation register: all up to and including the parameter byte of
/// memory access control.
pub open spec fn init_register_written(has_reset: bool, has_backlight: bool) -> nat {
    (hard_reset_program(has_reset) + backlight_program(has_backlight) + wake_program()
        + calibration_program()).len() + 2
}

/// Selecting an orientation: the memory access control command and the one
/// byte that stands for the orientation.
pub open spec fn orientation_program(orientation: Orientation) -> Seq<OperationView> {
    seq![
        OperationView::Command(Instruction::MADCTL.spec_opcode()),
        OperationView::Data(seq![orientation.spec_bits()]),
    ]
}

/// Selecting the rectangle that the next memory write fills: the column
/// bounds, then the row bounds, each bound a data burst of its own, high
/// byte first. Both ends are inclusive.
pub open spec fn address_window_program(sx: u16, sy: u16, ex: u16, ey: u16) -> Seq<
    OperationView,
> {
    seq![
        OperationView::Command(Instruction::CASET.spec_opcode()),
        OperationView::Data(big_endian(sx)),
        OperationView::Data(big_endian(ex)),
        OperationView::Command(Instruction::RASET.spec_opcode()),
        OperationView::Data(big_endian(sy)),
        OperationView::Data(big_endian(ey)),
    ]
}

/// Filling the selected rectangle: the memory write command and one data
/// burst with the payload as it is.
pub open spec fn memory_write_program(payload: Seq<u8>) -> Seq<OperationView> {
    seq![OperationView::Command(Instruction::RAMWR.spec_opcode()), OperationView::Data(payload)]
}

/// Painting one pixel: a window of that one pixel, then a memory write of
/// the color, high byte first.
pub open spec fn pixel_program(x: u16, y: u16, color: u16) -> Seq<OperationView> {
    address_window_program(x, y, x, y) + memory_write_program(big_endian(color))
}

/// Painting a rectangle: its window, then a memory write of all the colors,
/// each high byte first, in the order given.
pub open spec fn pixels_program(sx: u16, sy: u16, ex: u16, ey: u16, colors: Seq<u16>) -> Seq<
    OperationView,
> {
    address_window_program(sx, sy, ex, ey) + memory_write_program(big_endian_all(colors))
}

/// Pushing an encoded framebuffer: a memory write of the buffer as it is.
pub open spec fn framebuffer_program(buffer: Seq<u8>) -> Seq<OperationView> {
    memory_write_program(buffer)
}

} // verus!

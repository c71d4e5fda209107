//! The outside work that the driver asks for.

use vstd::prelude::*;

verus! {

/// A digital output line that a driver may own.
#[derive(Clone, Copy, Debug, PartialEq, Eq, Structural)]
pub enum Line {
    /// The panel's reset input.
    Reset,
    /// The backlight switch.
    Backlight,
}

/// One piece of outside work: a burst on the bus, a change of a line, or a
/// wait.
#[derive(Debug, PartialEq, Eq)]
pub enum Operation<'a> {
    /// Send this byte as a command burst.
    Command(u8),
    /// Send these bytes, as they are, as one data burst.
    Data(Vec<u8>),
    /// Send these bytes of the caller's buffer, as they are, as one data
    /// burst.
    Buffer(&'a [u8]),
    /// Drive the line high.
    SetHigh(Line),
    /// Drive the line low.
    SetLow(Line),
    /// Block for at least this many microseconds.
    DelayUs(u32),
}

/// An [`Operation`] as a mathematical value.
#[verifier::ext_equal]
pub enum OperationView {
    /// A command burst of one byte.
    Command(u8),
    /// A data burst.
    Data(Seq<u8>),
    /// Drive the line high.
    SetHigh(Line),
    /// Drive the line low.
    SetLow(Line),
    /// Block for at least this many microseconds.
    DelayUs(u32),
}

impl<'a> View for Operation<'a> {
    type V = OperationView;

    open spec fn view(&self) -> OperationView {
        match *self {
            Operation::Command(byte) => OperationView::Command(byte),
            Operation::Data(bytes) => OperationView::Data(bytes@),
            Operation::Buffer(bytes) => OperationView::Data(bytes@),
            Operation::SetHigh(line) => OperationView::SetHigh(line),
            Operation::SetLow(line) => OperationView::SetLow(line),
            Operation::DelayUs(micros) => OperationView::DelayUs(micros),
        }
    }
}

impl OperationView {
    /// Whether the operation goes over the bus, as a command or as data.
    pub open spec fn is_burst(self) -> bool {
        self is Command || self is Data
    }

    /// Whether the operation drives a line high or low.
    pub open spec fn drives_line(self) -> bool {
        self is SetHigh || self is SetLow
    }
}

} // verus!

//! Protocol driver for a TFT panel controller on a command/data bus.
//!
//! The driver decides what goes to the panel and in which order; it does no
//! input or output itself. Each request ([`ST7789::init`],
//! [`ST7789::set_pixels`], ...) is planned as a [`Run`]: the bus bursts,
//! line changes and waits that the request consists of, in order. The
//! caller performs them one at a time:
//!
//! 1. call [`ST7789::advance`] with [`Report::Begin`];
//! 2. while the answer is [`Action::Perform`], perform the operation on
//!    the hardware and call `advance` again with a [`Report`] of how it
//!    went;
//! 3. the answer [`Action::Finish`] holds the result of the request.
//!
//! A failure ends a run at once, so the bursts of one request go over the
//! bus back to back or not at all. The cached orientation follows the
//! orientation register: it changes when a write of that register is
//! reported done, and at no other time. The caller keeps one run going at a
//! time: what two runs that are advanced in turn put on the bus is that
//! caller's doing.
//!
//! The [`program`] module says what each request consists of, [`run`] how
//! a run moves from step to step, and [`laws`] what that puts on the bus,
//! byte for byte.

pub mod driver;
pub mod encoding;
pub mod error;
pub mod instruction;
pub mod laws;
pub mod operation;
pub mod orientation;
pub mod program;
pub mod report;
pub mod run;

pub use driver::{FramebufferTarget, ST7789};
pub use error::{Error, FbWriteError};
pub use instruction::Instruction;
pub use operation::{Line, Operation, OperationView};
pub use orientation::{Orientation, TearingEffect};
pub use report::Report;
pub use run::{Action, ActionView, Run, RunState, Staged};

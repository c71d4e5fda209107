//! What can go wrong while talking to the panel.

use vstd::prelude::*;

verus! {

/// An error holding its source: the bus or one of the lines.
#[derive(Debug, PartialEq, Eq)]
pub enum Error<PinE> {
    /// The bus refused a burst. The cause is not kept.
    DisplayError,
    /// A line could not be driven; the line's own error is kept.
    Pin(PinE),
}

/// The one error of the raw framebuffer path.
#[derive(Debug, PartialEq, Eq)]
pub enum FbWriteError {
    /// The memory write command or the buffer did not reach the panel.
    Error,
}

impl FbWriteError {
    /// What the raw framebuffer path reports for the result of a run:
    /// success stays success, and every failure becomes the one error of this
    /// path, whatever its source.
    pub fn collapse<PinE>(result: Result<(), Error<PinE>>) -> (collapsed: Result<(), FbWriteError>)
        ensures
            collapsed == (match result {
                Ok(_) => Ok::<(), FbWriteError>(()),
                Err(_) => Err::<(), FbWriteError>(FbWriteError::Error),
            }),
    {
        match result {
            Ok(()) => Ok(()),
            Err(_) => Err(FbWriteError::Error),
        }
    }
}

} // verus!

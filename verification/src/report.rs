//! What the caller tells the driver about the work it has done.

use crate::error::Error;
use vstd::prelude::*;

verus! {

/// The error type of `display_interface`, which the channel returns when it
/// refuses a burst. The driver carries it and never looks inside.
#[verifier::external_type_specification]
#[verifier::external_body]
pub struct ExDisplayError(display_interface::DisplayError);

/// How the operation went that the driver handed out last.
#[derive(Debug)]
pub enum Report<PinE> {
    /// No operation has been handed out yet: the run begins.
    Begin,
    /// What the channel returned for a command or data burst.
    Burst(Result<(), display_interface::DisplayError>),
    /// What the line returned when it was driven high or low.
    Line(Result<(), PinE>),
    /// The wait is over.
    Waited,
}

impl<PinE> Report<PinE> {
    /// Whether the report tells of a failure.
    pub open spec fn is_failure(self) -> bool {
        self.failure(true) is Some
    }

    /// The error that a run ends with when it gets this report, if the
    /// report tells of a failure. `driving` says whether the operation that
    /// the report answers drove a line.
    ///
    /// A line that could not be driven is a pin error that holds the line's
    /// own error. Every other failure is a display error, whatever cause
    /// was given for it: of a request that drives no line, a display error
    /// is the only one.
    pub open spec fn failure(self, driving: bool) -> Option<Error<PinE>> {
        match self {
            Report::Burst(Err(_)) => Some(Error::DisplayError),
            Report::Line(Err(error)) => Some(
                if driving {
                    Error::Pin(error)
                } else {
                    Error::DisplayError
                },
            ),
            _ => None,
        }
    }

    /// The error that a run ends with when it gets this report, if the
    /// report tells of a failure. `driving` says whether the operation that
    /// the report answers drove a line.
    pub fn into_failure(self, driving: bool) -> (failure: Option<Error<PinE>>)
        ensures
            failure == self.failure(driving),
    {
        match self {
            Report::Burst(Err(_)) => Some(Error::DisplayError),
            Report::Line(Err(error)) => Some(
                if driving {
                    Error::Pin(error)
                } else {
                    Error::DisplayError
                },
            ),
            _ => None,
        }
    }
}

} // verus!

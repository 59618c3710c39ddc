//! Errors of the driver.

use vstd::prelude::*;
use vstd::std_specs::convert::FromSpecImpl;

verus! {

/// A failure that the pulse-generation peripheral reports.
#[derive(Clone, Copy, Debug, PartialEq, Eq, Structural)]
pub enum RmtError {
    /// The desired frequency is impossible to reach.
    UnreachableTargetFrequency,
    /// The amount of pulses exceeds the size of the FIFO.
    Overflow,
    /// An argument is invalid.
    InvalidArgument,
    /// An error occurred during transmission.
    TransmissionError,
    /// No transmission end marker found.
    EndMarkerMissing,
    /// The memory size is not correct.
    InvalidMemsize,
    /// The data length is invalid.
    InvalidDataLength,
    /// Receiver error, most likely a memory overflow.
    ReceiverError,
    /// A memory block is not available for the channel.
    MemoryBlockNotAvailable,
}

/// Why an operation of the driver failed.
#[derive(Clone, Copy, Debug, PartialEq, Eq, Structural)]
pub enum Error {
    /// More LEDs were asked for than one frame can address.
    TooManyLeds,
    /// The peripheral reported a failure; it is handed on as it came.
    RmtError(RmtError),
}

impl From<RmtError> for Error {
    fn from(err: RmtError) -> (error: Error) {
        Error::RmtError(err)
    }
}

impl FromSpecImpl<RmtError> for Error {
    open spec fn obeys_from_spec() -> bool {
        true
    }

    open spec fn from_spec(err: RmtError) -> Error {
        Error::RmtError(err)
    }
}

} // verus!

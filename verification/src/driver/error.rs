//! Driver errors.

use vstd::prelude::*;
use crate::protocol::error::FrameError;

verus! {

/// Driver error.
#[derive(Debug)]
pub enum DriverError {
    /// Serial port error, with its message.
    Serial(String),
    /// I/O error, with its message.
    Io(String),
    /// Frame could not be parsed.
    Frame(FrameError),
    /// The transport is closed.
    TransportClosed,
    /// No response arrived in time.
    Timeout,
    /// CRC mismatch.
    CrcMismatch { expected: u16, got: u16 },
    /// Payload too short.
    PayloadTooShort { expected: usize, got: usize },
    /// Unknown frame type.
    UnknownFrameType(u8),
    /// The driver is not running.
    NotRunning,
    /// A lock was poisoned.
    LockPoisoned,
}

impl Clone for DriverError {
    fn clone(&self) -> (r: DriverError)
        ensures
            r == *self,
    {
        match self {
            DriverError::Serial(msg) => DriverError::Serial(msg.clone()),
            DriverError::Io(msg) => DriverError::Io(msg.clone()),
            DriverError::Frame(e) => DriverError::Frame(*e),
            DriverError::TransportClosed => DriverError::TransportClosed,
            DriverError::Timeout => DriverError::Timeout,
            DriverError::CrcMismatch { expected, got } => DriverError::CrcMismatch {
                expected: *expected,
                got: *got,
            },
            DriverError::PayloadTooShort { expected, got } => DriverError::PayloadTooShort {
                expected: *expected,
                got: *got,
            },
            DriverError::UnknownFrameType(t) => DriverError::UnknownFrameType(*t),
            DriverError::NotRunning => DriverError::NotRunning,
            DriverError::LockPoisoned => DriverError::LockPoisoned,
        }
    }
}

impl From<FrameError> for DriverError {
    fn from(e: FrameError) -> (r: DriverError) {
        DriverError::Frame(e)
    }
}

impl vstd::std_specs::convert::FromSpecImpl<FrameError> for DriverError {
    open spec fn obeys_from_spec() -> bool {
        true
    }

    open spec fn from_spec(e: FrameError) -> DriverError {
        DriverError::Frame(e)
    }
}

} // verus!

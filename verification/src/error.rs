//! Errors reported by the driver.

use vstd::prelude::*;

verus! {

/// A fault in what the chip itself reported.
#[derive(Debug, Clone, Copy, PartialEq, Eq)]
pub enum DeviceError {
    /// The phase field of a touch report held a value that names no phase.
    /// The offending two-bit field is carried along.
    InvalidTouchFlag(u8),
}

/// Everything that can end a driver operation early.
///
/// The three type parameters are the error types of the bus, of the
/// interrupt input and of the reset output.
#[derive(Debug, Clone, Copy, PartialEq, Eq)]
pub enum Error<I2C, IN, OUT> {
    /// A bus read or write failed.
    I2c(I2C),
    /// Waiting for the interrupt edge failed.
    Wait(IN),
    /// Driving the reset line failed.
    OutputPin(OUT),
    /// The chip reported something that the protocol does not allow.
    Device(DeviceError),
}

} // verus!

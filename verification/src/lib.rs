//! Driver core for the CHSC6x family of single-point capacitive touch
//! controllers.
//!
//! The core holds the rules of the chip and touches no hardware: [`codec`]
//! decodes the three-byte touch report, and [`device`] sequences the
//! operations on the chip as scripts of bus, pin and timer actions, which a
//! host performs one at a time.  [`protocol`] names those actions and
//! models a controller; [`laws`] states what holds of every run.

pub mod codec;
pub mod device;
pub mod error;
pub mod laws;
pub mod protocol;

pub use crate::codec::{TouchEvent, TouchFlag, MAX_X, MAX_Y};
pub use crate::device::Chsc6x;
pub use crate::error::{DeviceError, Error};
pub use crate::protocol::{
    Action, Operation, Outcome, Step, DBCHECK, I2C_ADR, PALM_CHECK, RESET_TIME_MS, SUSPEND_CODE,
};

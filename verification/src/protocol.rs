//! The bus protocol of the chip, as a sequence of steps.
//!
//! The driver core performs no bus traffic itself.  Every operation is a
//! short script of [`Action`]s, which the host carries out one by one on
//! the bus, the reset line, the interrupt input and its timer.  After each
//! action the host reports an [`Outcome`] and is told the next [`Step`].
//!
//! [`State`] is the mathematical model of a controller: the power state
//! that the driver believes the chip to be in, and the actions that are
//! still to be performed.  The contracts of the controller are stated over
//! it.

use vstd::prelude::*;
use crate::codec::{decoded, TouchEvent};
use crate::error::Error;

verus! {

/// Bus address of the chip.
pub const I2C_ADR: u8 = 0x5c;

/// Width of the reset pulse and length of the settling time after it, in
/// milliseconds.
pub const RESET_TIME_MS: u32 = 30;

/// Command that sends the chip into its low-power mode.
pub const SUSPEND_CODE: [u8; 2] = [0xa5, 0x03];

/// Command that starts the chip's debounce check.
pub const DBCHECK: [u8; 2] = [0xD0, 0x01];

/// Command that starts the chip's palm check.
pub const PALM_CHECK: [u8; 2] = [0xD1, 0x01];

/// One piece of outside work that the host performs for the driver.
#[derive(Debug, Clone, Copy, PartialEq, Eq)]
pub enum Action {
    /// Drive the reset line low.
    ResetLow,
    /// Drive the reset line high.
    ResetHigh,
    /// Let this many milliseconds pass.
    Delay { ms: u32 },
    /// Write the two bytes to the chip in a single transaction.
    Write { address: u8, payload: [u8; 2] },
    /// Read three bytes from the chip in a single transaction.
    Read { address: u8 },
    /// Wait for a rising edge on the interrupt input.
    AwaitRisingEdge,
}

/// What came of an action, as the host reports it.
#[derive(Debug)]
pub enum Outcome<I2C, IN, OUT> {
    /// The reset line was driven, or could not be.
    Driven(Result<(), OUT>),
    /// The delay has passed.
    Delayed,
    /// The bytes were written, or the bus failed.
    Written(Result<(), I2C>),
    /// These three bytes were read, or the bus failed.
    Received(Result<[u8; 3], I2C>),
    /// The rising edge was seen, or waiting for it failed.
    Edge(Result<(), IN>),
}

/// What the host does next.
#[derive(Debug, Clone, Copy, PartialEq, Eq)]
pub enum Step<I2C, IN, OUT> {
    /// Carry out this action and report its outcome.
    Perform(Action),
    /// The operation has come to its end and yields nothing.
    Complete,
    /// The operation has come to its end and yields this touch report.
    Touch(TouchEvent),
    /// The operation was given up with this error.
    Failed(Error<I2C, IN, OUT>),
}

/// The operations of the controller.
#[derive(Debug, Clone, Copy, PartialEq, Eq)]
pub enum Operation {
    /// Pulse the reset line and let the chip settle.
    Reset,
    /// Send the chip into low-power mode, unless it is there already.
    Suspend,
    /// Wake the chip, unless it is awake already.
    Resume,
    /// Reset the chip and start its debounce check.
    DebounceCheck,
    /// Reset the chip and start its palm check.
    PalmCheck,
    /// Fetch the latest touch report.
    ReadLast,
    /// Wait for the chip to signal a touch, then fetch the report.
    WaitOnTouch,
}

/// The reset sequence: the line is held low for the reset time, released,
/// and the chip is given the same time again to settle.
pub open spec fn reset_script() -> Seq<Action> {
    seq![
        Action::ResetLow,
        Action::Delay { ms: RESET_TIME_MS },
        Action::ResetHigh,
        Action::Delay { ms: RESET_TIME_MS },
    ]
}

/// The reset sequence followed by one command to the chip.
pub open spec fn command_script(payload: [u8; 2]) -> Seq<Action> {
    reset_script().push(Action::Write { address: I2C_ADR, payload })
}

/// The actions that make up an operation, given the power state in which
/// the driver believes the chip to be when the operation starts.
pub open spec fn script(operation: Operation, suspended: bool) -> Seq<Action> {
    match operation {
        Operation::Reset => reset_script(),
        Operation::Suspend => if suspended {
            Seq::empty()
        } else {
            command_script(SUSPEND_CODE)
        },
        Operation::Resume => if suspended {
            reset_script()
        } else {
            Seq::empty()
        },
        Operation::DebounceCheck => command_script(DBCHECK),
        Operation::PalmCheck => command_script(PALM_CHECK),
        Operation::ReadLast => seq![Action::Read { address: I2C_ADR }],
        Operation::WaitOnTouch => seq![Action::AwaitRisingEdge, Action::Read { address: I2C_ADR }],
    }
}

/// The action with which a script starts, if it has any.
pub open spec fn head(script: Seq<Action>) -> Option<Action> {
    if script.len() == 0 {
        None
    } else {
        Some(script[0])
    }
}

/// The power state that the driver believes the chip to be in once
/// `action` has been carried out: releasing the reset line wakes the chip,
/// the suspend command sends it to sleep, and nothing else changes it.
pub open spec fn suspended_after(action: Action, suspended: bool) -> bool {
    match action {
        Action::ResetHigh => false,
        Action::Write { address, payload } => if address == I2C_ADR && payload == SUSPEND_CODE {
            true
        } else {
            suspended
        },
        _ => suspended,
    }
}

impl<I2C, IN, OUT> Outcome<I2C, IN, OUT> {
    /// Whether an outcome of this kind is what `action` can come to.
    pub open spec fn answers(self, action: Action) -> bool {
        match self {
            Outcome::Driven(_) => action is ResetLow || action is ResetHigh,
            Outcome::Delayed => action is Delay,
            Outcome::Written(_) => action is Write,
            Outcome::Received(_) => action is Read,
            Outcome::Edge(_) => action is AwaitRisingEdge,
        }
    }

    /// The error that gives the operation up, where the action failed.
    pub open spec fn fault(self) -> Option<Error<I2C, IN, OUT>> {
        match self {
            Outcome::Driven(Err(e)) => Some(Error::OutputPin(e)),
            Outcome::Written(Err(e)) => Some(Error::I2c(e)),
            Outcome::Received(Err(e)) => Some(Error::I2c(e)),
            Outcome::Edge(Err(e)) => Some(Error::Wait(e)),
            _ => None,
        }
    }
}

/// The model of a controller.
#[verifier::ext_equal]
pub struct State {
    /// Whether the driver believes the chip to be in low-power mode.
    pub suspended: bool,
    /// The actions that are still to be performed, the awaited one first.
    pub pending: Seq<Action>,
}

impl State {
    /// A controller at power-on: the chip is taken to be suspended, and
    /// nothing is pending.
    pub open spec fn power_on() -> State {
        State { suspended: true, pending: Seq::empty() }
    }

    /// Whether no operation is under way.
    pub open spec fn idle(self) -> bool {
        self.pending.len() == 0
    }

    /// The action whose outcome the controller waits for.
    pub open spec fn awaited(self) -> Option<Action> {
        head(self.pending)
    }

    /// The step that asks for the awaited action, or says that there is
    /// nothing left to do.
    pub open spec fn standing<I2C, IN, OUT>(self) -> Step<I2C, IN, OUT> {
        match self.awaited() {
            Some(action) => Step::Perform(action),
            None => Step::Complete,
        }
    }

    /// The state after `operation` has been started.  Whatever was pending
    /// is dropped.
    pub open spec fn begin(self, operation: Operation) -> State {
        State { suspended: self.suspended, pending: script(operation, self.suspended) }
    }

    /// The state after the awaited action has succeeded.  A report that has
    /// been read ends the operation.
    pub open spec fn granted(self) -> State {
        State {
            suspended: suspended_after(self.pending[0], self.suspended),
            pending: if self.pending[0] is Read {
                Seq::empty()
            } else {
                self.pending.skip(1)
            },
        }
    }

    /// The state after the operation has been given up.
    pub open spec fn abandoned(self) -> State {
        State { suspended: self.suspended, pending: Seq::empty() }
    }

    /// The state after the host has reported `outcome`.
    ///
    /// An outcome that does not answer the awaited action changes nothing.
    /// A failure ends the operation at once and leaves the power state as
    /// it was at that moment.
    pub open spec fn after<I2C, IN, OUT>(self, outcome: Outcome<I2C, IN, OUT>) -> State {
        if self.idle() || !outcome.answers(self.pending[0]) {
            self
        } else if outcome.fault() is Some {
            self.abandoned()
        } else {
            self.granted()
        }
    }

    /// The step that answers the report of `outcome`.
    pub open spec fn reply<I2C, IN, OUT>(self, outcome: Outcome<I2C, IN, OUT>) -> Step<
        I2C,
        IN,
        OUT,
    > {
        if self.idle() || !outcome.answers(self.pending[0]) {
            self.standing()
        } else {
            match outcome.fault() {
                Some(error) => Step::Failed(error),
                None => match outcome {
                    Outcome::Received(Ok(raw)) => match decoded(raw@) {
                        Ok(event) => Step::Touch(event),
                        Err(error) => Step::Failed(Error::Device(error)),
                    },
                    _ => self.granted().standing(),
                },
            }
        }
    }

    /// The state once every pending action has succeeded in turn.
    pub open spec fn carried_out(self) -> State
        decreases self.pending.len(),
    {
        if self.idle() {
            self
        } else {
            self.granted().carried_out()
        }
    }
}

} // verus!

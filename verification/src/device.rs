//! The controller: the power state of the chip and the sequencing of the
//! operations on it.

use vstd::prelude::*;
use crate::codec::TouchEvent;
use crate::error::Error;
use crate::protocol::{
    command_script, head, reset_script, script, Action, Operation, Outcome, State, Step,
    DBCHECK, I2C_ADR, PALM_CHECK, RESET_TIME_MS, SUSPEND_CODE,
};

verus! {

/// A command that follows a reset.
#[derive(Debug, Clone, Copy, PartialEq, Eq)]
enum Command {
    Suspend,
    DebounceCheck,
    PalmCheck,
}

/// The place that an operation has reached in its script, named after the
/// action that it waits for.
#[derive(Debug, Clone, Copy, PartialEq, Eq)]
enum Stage {
    /// No operation is under way.
    Idle,
    /// The reset line is being driven low.
    PullingLow(Option<Command>),
    /// The reset line is held low for the reset time.
    HoldingLow(Option<Command>),
    /// The reset line is being released.
    Releasing(Option<Command>),
    /// The chip is given its time to settle.
    Settling(Option<Command>),
    /// The command is being written.
    Sending(Command),
    /// The interrupt input is watched for a rising edge.
    AwaitingEdge,
    /// The report is being read.
    Reading,
}

impl Command {
    spec fn code(self) -> [u8; 2] {
        match self {
            Command::Suspend => SUSPEND_CODE,
            Command::DebounceCheck => DBCHECK,
            Command::PalmCheck => PALM_CHECK,
        }
    }

    fn payload(self) -> (bytes: [u8; 2])
        ensures
            bytes == self.code(),
    {
        match self {
            Command::Suspend => SUSPEND_CODE,
            Command::DebounceCheck => DBCHECK,
            Command::PalmCheck => PALM_CHECK,
        }
    }
}

/// What is left to do once the reset sequence is through.
spec fn tail(command: Option<Command>) -> Seq<Action> {
    match command {
        Some(command) => seq![Action::Write { address: I2C_ADR, payload: command.code() }],
        None => Seq::empty(),
    }
}

impl Stage {
    /// The actions from this stage to the end of the operation.
    spec fn script(self) -> Seq<Action> {
        match self {
            Stage::Idle => Seq::empty(),
            Stage::PullingLow(command) => reset_script() + tail(command),
            Stage::HoldingLow(command) => reset_script().skip(1) + tail(command),
            Stage::Releasing(command) => reset_script().skip(2) + tail(command),
            Stage::Settling(command) => reset_script().skip(3) + tail(command),
            Stage::Sending(command) => tail(Some(command)),
            Stage::AwaitingEdge => seq![Action::AwaitRisingEdge, Action::Read { address: I2C_ADR }],
            Stage::Reading => seq![Action::Read { address: I2C_ADR }],
        }
    }

    /// The stage at which `operation` starts.
    fn opening(operation: Operation, suspended: bool) -> (stage: Stage)
        ensures
            stage.script() == script(operation, suspended),
    {
        let stage = match operation {
            Operation::Reset => Stage::PullingLow(None),
            Operation::Suspend => if suspended {
                Stage::Idle
            } else {
                Stage::PullingLow(Some(Command::Suspend))
            },
            Operation::Resume => if suspended {
                Stage::PullingLow(None)
            } else {
                Stage::Idle
            },
            Operation::DebounceCheck => Stage::PullingLow(Some(Command::DebounceCheck)),
            Operation::PalmCheck => Stage::PullingLow(Some(Command::PalmCheck)),
            Operation::ReadLast => Stage::Reading,
            Operation::WaitOnTouch => Stage::AwaitingEdge,
        };
        assert(stage.script() =~= script(operation, suspended));
        stage
    }

    /// The action that this stage waits for.
    fn awaited(self) -> (action: Option<Action>)
        ensures
            action == head(self.script()),
    {
        match self {
            Stage::Idle => None,
            Stage::PullingLow(_) => Some(Action::ResetLow),
            Stage::HoldingLow(_) => Some(Action::Delay { ms: RESET_TIME_MS }),
            Stage::Releasing(_) => Some(Action::ResetHigh),
            Stage::Settling(_) => Some(Action::Delay { ms: RESET_TIME_MS }),
            Stage::Sending(command) => Some(
                Action::Write { address: I2C_ADR, payload: command.payload() },
            ),
            Stage::AwaitingEdge => Some(Action::AwaitRisingEdge),
            Stage::Reading => Some(Action::Read { address: I2C_ADR }),
        }
    }
}

/// The driver's side of one chip.
///
/// The controller keeps the power state that it believes the chip to be
/// in, and the place that the operation under way has reached.  It asks
/// the host for one action at a time; see [`Chsc6x::advance`].
#[derive(Debug)]
pub struct Chsc6x {
    suspended: bool,
    stage: Stage,
}

impl View for Chsc6x {
    type V = State;

    closed spec fn view(&self) -> State {
        State { suspended: self.suspended, pending: self.stage.script() }
    }
}

impl Chsc6x {
    /// A controller for a chip that has just been powered.
    ///
    /// The chip is taken to be suspended, whatever state it is in, and a
    /// resume is started at once, so that a real reset stands between
    /// power-on and the first use.  The host has to carry that resume
    /// through, beginning with [`Chsc6x::awaited`], before it hands the
    /// controller on.
    pub fn new() -> (controller: Chsc6x)
        ensures
            controller@ == State::power_on().begin(Operation::Resume),
            controller@.suspended,
            controller@.pending == reset_script(),
    {
        Chsc6x { suspended: true, stage: Stage::opening(Operation::Resume, true) }
    }

    /// Whether the driver believes the chip to be in low-power mode.
    pub fn is_suspended(&self) -> (suspended: bool)
        ensures
            suspended == self@.suspended,
    {
        self.suspended
    }

    /// The action whose outcome the controller waits for, if an operation
    /// is under way.
    pub fn awaited(&self) -> (action: Option<Action>)
        ensures
            action == self@.awaited(),
    {
        self.stage.awaited()
    }

    /// Starts `operation` and returns its first action, if it has any.
    /// An operation that was under way is dropped where it stood.
    pub fn begin(&mut self, operation: Operation) -> (first: Option<Action>)
        ensures
            final(self)@ == old(self)@.begin(operation),
            first == final(self)@.awaited(),
    {
        self.stage = Stage::opening(operation, self.suspended);
        self.stage.awaited()
    }

    /// Starts a reset: the reset line is pulled low for the reset time and
    /// released, and the chip is given the same time again to settle.  The
    /// script is the same whatever the state before.  Once the line is
    /// released the chip counts as awake.
    pub fn reset(&mut self) -> (first: Option<Action>)
        ensures
            final(self)@ == old(self)@.begin(Operation::Reset),
            final(self)@.pending == reset_script(),
            first == Some(Action::ResetLow),
    {
        self.begin(Operation::Reset)
    }

    /// Starts the fetch of the latest touch report: one read of three bytes.
    /// The power state is left as it is.
    pub fn read_last(&mut self) -> (first: Option<Action>)
        ensures
            final(self)@ == old(self)@.begin(Operation::ReadLast),
            final(self)@.pending == seq![Action::Read { address: I2C_ADR }],
            first == Some(Action::Read { address: I2C_ADR }),
    {
        self.begin(Operation::ReadLast)
    }

    /// Starts to send the chip into low-power mode: a reset, then the
    /// suspend command.  Where the chip counts as suspended already, there
    /// is nothing to do and no action is asked for.
    pub fn suspend(&mut self) -> (first: Option<Action>)
        ensures
            final(self)@ == old(self)@.begin(Operation::Suspend),
            old(self)@.suspended ==> first is None && final(self)@.idle(),
            !old(self)@.suspended ==> first == Some(Action::ResetLow) && final(self)@.pending
                == command_script(SUSPEND_CODE),
    {
        self.begin(Operation::Suspend)
    }

    /// Starts to wake the chip: a reset.  Where the chip counts as awake
    /// already, there is nothing to do and no action is asked for.
    pub fn resume(&mut self) -> (first: Option<Action>)
        ensures
            final(self)@ == old(self)@.begin(Operation::Resume),
            old(self)@.suspended ==> first == Some(Action::ResetLow) && final(self)@.pending
                == reset_script(),
            !old(self)@.suspended ==> first is None && final(self)@.idle(),
    {
        self.begin(Operation::Resume)
    }

    /// Starts the debounce check: a reset, then the debounce-check command.
    pub fn dbcheck(&mut self) -> (first: Option<Action>)
        ensures
            final(self)@ == old(self)@.begin(Operation::DebounceCheck),
            final(self)@.pending == command_script(DBCHECK),
            first == Some(Action::ResetLow),
    {
        self.begin(Operation::DebounceCheck)
    }

    /// Starts the palm check: a reset, then the palm-check command.
    pub fn palm_check(&mut self) -> (first: Option<Action>)
        ensures
            final(self)@ == old(self)@.begin(Operation::PalmCheck),
            final(self)@.pending == command_script(PALM_CHECK),
            first == Some(Action::ResetLow),
    {
        self.begin(Operation::PalmCheck)
    }

    /// Starts the wait for a touch: the wait for a rising edge on the
    /// interrupt input, then one read of three bytes.  The power state is
    /// left as it is.
    pub fn wait_on_touch(&mut self) -> (first: Option<Action>)
        ensures
            final(self)@ == old(self)@.begin(Operation::WaitOnTouch),
            final(self)@.pending == seq![
                Action::AwaitRisingEdge,
                Action::Read { address: I2C_ADR },
            ],
            first == Some(Action::AwaitRisingEdge),
    {
        self.begin(Operation::WaitOnTouch)
    }

    /// Takes the outcome of the awaited action and says what comes next.
    ///
    /// Where the action succeeded, the operation moves on: the host is
    /// given the next action, or is told that the operation is through.
    /// Where it failed, the operation ends at once with the error of the
    /// part that failed.  A report that was read is decoded, and ends the
    /// operation with the touch or with the error of the decoder.  An
    /// outcome that does not answer the awaited action is passed over, and
    /// the awaited action is asked for again.
    pub fn advance<I2C, IN, OUT>(&mut self, outcome: Outcome<I2C, IN, OUT>) -> (step: Step<
        I2C,
        IN,
        OUT,
    >)
        ensures
            final(self)@ == old(self)@.after(outcome),
            step == old(self)@.reply(outcome),
    {
        let action = match self.stage.awaited() {
            Some(action) => action,
            None => {
                return Step::Complete;
            },
        };
        match outcome {
            Outcome::Driven(result) => match action {
                Action::ResetLow | Action::ResetHigh => match result {
                    Ok(()) => self.proceed(),
                    Err(error) => self.abandon(Error::OutputPin(error)),
                },
                _ => Step::Perform(action),
            },
            Outcome::Delayed => match action {
                Action::Delay { .. } => self.proceed(),
                _ => Step::Perform(action),
            },
            Outcome::Written(result) => match action {
                Action::Write { .. } => match result {
                    Ok(()) => self.proceed(),
                    Err(error) => self.abandon(Error::I2c(error)),
                },
                _ => Step::Perform(action),
            },
            Outcome::Received(result) => match action {
                Action::Read { .. } => match result {
                    Ok(raw) => {
                        self.stage = Stage::Idle;
                        match TouchEvent::decode(raw) {
                            Ok(event) => Step::Touch(event),
                            Err(error) => Step::Failed(Error::Device(error)),
                        }
                    },
                    Err(error) => self.abandon(Error::I2c(error)),
                },
                _ => Step::Perform(action),
            },
            Outcome::Edge(result) => match action {
                Action::AwaitRisingEdge => match result {
                    Ok(()) => self.proceed(),
                    Err(error) => self.abandon(Error::Wait(error)),
                },
                _ => Step::Perform(action),
            },
        }
    }

    /// Moves past an awaited action that has succeeded.
    fn proceed<I2C, IN, OUT>(&mut self) -> (step: Step<I2C, IN, OUT>)
        requires
            !old(self)@.idle(),
            !(old(self)@.pending[0] is Read),
        ensures
            final(self)@ == old(self)@.granted(),
            step == final(self)@.standing::<I2C, IN, OUT>(),
    {
        let next = match self.stage {
            Stage::PullingLow(command) => Stage::HoldingLow(command),
            Stage::HoldingLow(command) => Stage::Releasing(command),
            Stage::Releasing(command) => {
                self.suspended = false;
                Stage::Settling(command)
            },
            Stage::Settling(Some(command)) => Stage::Sending(command),
            Stage::Settling(None) => Stage::Idle,
            Stage::Sending(command) => {
                if let Command::Suspend = command {
                    self.suspended = true;
                }
                Stage::Idle
            },
            Stage::AwaitingEdge => Stage::Reading,
            Stage::Idle | Stage::Reading => Stage::Idle,
        };
        assert(next.script() =~= old(self).stage.script().skip(1));
        proof {
            lemma_codes_differ();
        }
        self.stage = next;
        match next.awaited() {
            Some(action) => Step::Perform(action),
            None => Step::Complete,
        }
    }

    /// Gives the operation up.
    fn abandon<I2C, IN, OUT>(&mut self, error: Error<I2C, IN, OUT>) -> (step: Step<I2C, IN, OUT>)
        ensures
            final(self)@ == old(self)@.abandoned(),
            step == Step::Failed(error),
    {
        self.stage = Stage::Idle;
        Step::Failed(error)
    }
}

/// Of the three commands only the suspend command has the suspend code.
proof fn lemma_codes_differ()
    ensures
        DBCHECK != SUSPEND_CODE,
        PALM_CHECK != SUSPEND_CODE,
{
    assert(DBCHECK@[0] != SUSPEND_CODE@[0]);
    assert(PALM_CHECK@[0] != SUSPEND_CODE@[0]);
}

} // verus!

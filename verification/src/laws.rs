//! What holds of every run of the protocol.
//!
//! The laws are stated over the model, [`State`]; the contracts of the
//! controller tie each of its calls to the model.

use vstd::prelude::*;
use crate::codec::decoded;
use crate::error::Error;
use crate::protocol::{
    command_script, reset_script, Action, Operation, Outcome, State, Step, I2C_ADR,
    RESET_TIME_MS, SUSPEND_CODE,
};

verus! {

/// Where the awaited action has succeeded, the controller moves on by that
/// one action, whatever the error types of the host are; unless a report
/// was read, the host is asked for the next action or told that the
/// operation is through.
pub proof fn lemma_success_moves_on<I2C, IN, OUT>(state: State, outcome: Outcome<I2C, IN, OUT>)
    requires
        !state.idle(),
        outcome.answers(state.pending[0]),
        outcome.fault() is None,
    ensures
        state.after(outcome) == state.granted(),
        !(outcome is Received) ==> state.reply(outcome) == state.granted().standing::<
            I2C,
            IN,
            OUT,
        >(),
{
}

/// A reset asks for the same four actions whatever the state before it:
/// the reset line goes low once, the reset time passes, the line goes high
/// once, and the reset time passes again.  Carried out, it leaves the chip
/// awake and nothing pending.
pub proof fn lemma_reset_pulses_once_and_waits_twice(state: State)
    ensures
        state.begin(Operation::Reset).pending == seq![
            Action::ResetLow,
            Action::Delay { ms: RESET_TIME_MS },
            Action::ResetHigh,
            Action::Delay { ms: RESET_TIME_MS },
        ],
        state.begin(Operation::Reset).carried_out() == (State {
            suspended: false,
            pending: Seq::empty(),
        }),
{
    reveal_with_fuel(State::carried_out, 5);
}

/// A suspend of a chip that is awake is a reset followed by the suspend
/// command.  A suspend that has been carried out leaves the chip
/// suspended, and a second suspend right after it asks for nothing and
/// changes nothing.
pub proof fn lemma_suspend_is_idempotent(state: State)
    ensures
        !state.suspended ==> state.begin(Operation::Suspend).pending == command_script(
            SUSPEND_CODE,
        ),
        state.suspended ==> state.begin(Operation::Suspend).pending == Seq::<Action>::empty(),
        state.begin(Operation::Suspend).carried_out() == (State {
            suspended: true,
            pending: Seq::empty(),
        }),
        state.begin(Operation::Suspend).carried_out().begin(Operation::Suspend)
            == state.begin(Operation::Suspend).carried_out(),
{
    reveal_with_fuel(State::carried_out, 6);
}

/// A resume of a chip that is suspended is a reset.  A resume that has
/// been carried out leaves the chip awake, and a second resume right after
/// it asks for nothing and changes nothing.
pub proof fn lemma_resume_is_idempotent(state: State)
    ensures
        state.suspended ==> state.begin(Operation::Resume).pending == reset_script(),
        !state.suspended ==> state.begin(Operation::Resume).pending == Seq::<Action>::empty(),
        state.begin(Operation::Resume).carried_out() == (State {
            suspended: false,
            pending: Seq::empty(),
        }),
        state.begin(Operation::Resume).carried_out().begin(Operation::Resume)
            == state.begin(Operation::Resume).carried_out(),
{
    reveal_with_fuel(State::carried_out, 5);
}

/// Construction starts from a chip that is taken to be suspended and
/// resumes it; once that resume is carried out the chip is awake.
pub proof fn lemma_construction_reaches_active()
    ensures
        State::power_on().suspended,
        State::power_on().begin(Operation::Resume).pending == reset_script(),
        State::power_on().begin(Operation::Resume).carried_out() == (State {
            suspended: false,
            pending: Seq::empty(),
        }),
{
    lemma_resume_is_idempotent(State::power_on());
}

/// The fetch of a report is one read.  Whatever comes of it, the power
/// state stays as it was and nothing is left pending; bytes that were read
/// yield exactly what the decoder makes of them, and a bus fault yields the
/// bus error.
pub proof fn lemma_read_last_decodes_one_read<I2C, IN, OUT>(
    state: State,
    result: Result<[u8; 3], I2C>,
)
    ensures
        state.begin(Operation::ReadLast).pending == seq![Action::Read { address: I2C_ADR }],
        state.begin(Operation::ReadLast).after(Outcome::<I2C, IN, OUT>::Received(result))
            == (State { suspended: state.suspended, pending: Seq::empty() }),
        state.begin(Operation::ReadLast).reply(Outcome::<I2C, IN, OUT>::Received(result))
            == match result {
            Ok(raw) => match decoded(raw@) {
                Ok(event) => Step::<I2C, IN, OUT>::Touch(event),
                Err(error) => Step::Failed(Error::Device(error)),
            },
            Err(error) => Step::Failed(Error::I2c(error)),
        },
{
}

/// The wait for a touch is the wait for a rising edge followed by the
/// fetch of a report: once the edge has been seen, the controller stands
/// where a fetch starts.
pub proof fn lemma_wait_on_touch_reads_after_edge<I2C, IN, OUT>(state: State)
    ensures
        state.begin(Operation::WaitOnTouch).pending == seq![
            Action::AwaitRisingEdge,
            Action::Read { address: I2C_ADR },
        ],
        state.begin(Operation::WaitOnTouch).after(Outcome::<I2C, IN, OUT>::Edge(Ok(())))
            == state.begin(Operation::ReadLast),
        state.begin(Operation::WaitOnTouch).reply(Outcome::<I2C, IN, OUT>::Edge(Ok(())))
            == Step::<I2C, IN, OUT>::Perform(Action::Read { address: I2C_ADR }),
{
}

/// The first failure ends the operation: nothing is left pending, the
/// power state stays as it was when the action failed, and the host is
/// handed the error of the part that failed.
pub proof fn lemma_failure_ends_operation<I2C, IN, OUT>(
    state: State,
    outcome: Outcome<I2C, IN, OUT>,
    error: Error<I2C, IN, OUT>,
)
    requires
        !state.idle(),
        outcome.answers(state.pending[0]),
        outcome.fault() == Some(error),
    ensures
        state.after(outcome) == (State { suspended: state.suspended, pending: Seq::empty() }),
        state.reply(outcome) == Step::Failed(error),
{
}

} // verus!

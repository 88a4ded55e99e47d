use chsc6x::{
    Action, Chsc6x, DeviceError, Error, Operation, Outcome, Step, TouchEvent, TouchFlag, DBCHECK,
    I2C_ADR, PALM_CHECK, RESET_TIME_MS, SUSPEND_CODE,
};

type Report = Outcome<u8, u16, u32>;
type Next = Step<u8, u16, u32>;

const LOW: Action = Action::ResetLow;
const HIGH: Action = Action::ResetHigh;
const PAUSE: Action = Action::Delay { ms: 30 };
const READ: Action = Action::Read { address: 0x5c };

fn write(payload: [u8; 2]) -> Action {
    Action::Write { address: 0x5c, payload }
}

fn success(action: Action, report: [u8; 3]) -> Report {
    match action {
        Action::ResetLow | Action::ResetHigh => Outcome::Driven(Ok(())),
        Action::Delay { .. } => Outcome::Delayed,
        Action::Write { .. } => Outcome::Written(Ok(())),
        Action::Read { .. } => Outcome::Received(Ok(report)),
        Action::AwaitRisingEdge => Outcome::Edge(Ok(())),
    }
}

/// A host on which nothing fails: performs what it is asked until the
/// operation ends, and returns what it performed and the last step.
fn carry_out(core: &mut Chsc6x, first: Option<Action>, report: [u8; 3]) -> (Vec<Action>, Next) {
    let mut performed = Vec::new();
    let mut last = Step::Complete;
    let mut next = first;
    while let Some(action) = next {
        performed.push(action);
        last = core.advance(success(action, report));
        next = match last {
            Step::Perform(action) => Some(action),
            _ => None,
        };
    }
    (performed, last)
}

fn bus_transactions(performed: &[Action]) -> usize {
    performed.iter().filter(|action| matches!(action, Action::Write { .. } | Action::Read { .. })).count()
}

fn awake() -> Chsc6x {
    let mut core = Chsc6x::new();
    let first = core.awaited();
    let (_, last) = carry_out(&mut core, first, [0; 3]);
    assert_eq!(last, Step::Complete);
    assert!(!core.is_suspended());
    core
}

fn asleep() -> Chsc6x {
    let mut core = awake();
    let first = core.suspend();
    let (_, last) = carry_out(&mut core, first, [0; 3]);
    assert_eq!(last, Step::Complete);
    assert!(core.is_suspended());
    core
}

#[test]
fn constants_of_the_chip() {
    assert_eq!(I2C_ADR, 0x5c);
    assert_eq!(RESET_TIME_MS, 30);
    assert_eq!(SUSPEND_CODE, [0xa5, 0x03]);
    assert_eq!(DBCHECK, [0xD0, 0x01]);
    assert_eq!(PALM_CHECK, [0xD1, 0x01]);
}

#[test]
fn new_assumes_suspended_and_starts_a_resume() {
    let core = Chsc6x::new();
    assert!(core.is_suspended());
    assert_eq!(core.awaited(), Some(LOW));
}

#[test]
fn construction_reaches_active() {
    let mut core = Chsc6x::new();
    let first = core.awaited();
    let (performed, last) = carry_out(&mut core, first, [0; 3]);
    assert_eq!(performed, vec![LOW, PAUSE, HIGH, PAUSE]);
    assert_eq!(last, Step::Complete);
    assert!(!core.is_suspended());
    assert_eq!(core.awaited(), None);
}

#[test]
fn construction_that_fails_stays_suspended() {
    let mut core = Chsc6x::new();
    let step: Next = core.advance(Outcome::Driven(Err(9)));
    assert_eq!(step, Step::Failed(Error::OutputPin(9)));
    assert!(core.is_suspended());
    assert_eq!(core.awaited(), None);
}

#[test]
fn reset_pulses_once_and_waits_twice() {
    for mut core in [awake(), asleep()] {
        let first = core.reset();
        assert_eq!(first, Some(Action::ResetLow));
        let (performed, last) = carry_out(&mut core, first, [0; 3]);
        assert_eq!(
            performed,
            vec![
                Action::ResetLow,
                Action::Delay { ms: 30 },
                Action::ResetHigh,
                Action::Delay { ms: 30 },
            ]
        );
        assert_eq!(last, Step::Complete);
        assert!(!core.is_suspended());
        assert_eq!(bus_transactions(&performed), 0);
    }
}

#[test]
fn reset_wakes_only_when_the_line_is_released() {
    let mut core = asleep();
    assert_eq!(core.reset(), Some(LOW));
    assert_eq!(core.advance::<u8, u16, u32>(Outcome::Driven(Ok(()))), Step::Perform(PAUSE));
    assert!(core.is_suspended());
    assert_eq!(core.advance::<u8, u16, u32>(Outcome::Delayed), Step::Perform(HIGH));
    assert!(core.is_suspended());
    assert_eq!(core.advance::<u8, u16, u32>(Outcome::Driven(Ok(()))), Step::Perform(PAUSE));
    assert!(!core.is_suspended());
    assert_eq!(core.advance::<u8, u16, u32>(Outcome::Delayed), Step::Complete);
    assert!(!core.is_suspended());
}

#[test]
fn suspend_resets_then_sends_the_suspend_code() {
    let mut core = awake();
    let first = core.suspend();
    let (performed, last) = carry_out(&mut core, first, [0; 3]);
    assert_eq!(performed, vec![LOW, PAUSE, HIGH, PAUSE, write([0xa5, 0x03])]);
    assert_eq!(last, Step::Complete);
    assert!(core.is_suspended());
}

#[test]
fn suspend_twice_sends_once() {
    let mut core = awake();
    let first = core.suspend();
    let (performed, _) = carry_out(&mut core, first, [0; 3]);
    assert_eq!(bus_transactions(&performed), 1);
    assert_eq!(performed.len(), 5);

    let second = core.suspend();
    assert_eq!(second, None);
    let (performed, last) = carry_out(&mut core, second, [0; 3]);
    assert_eq!(performed, vec![]);
    assert_eq!(bus_transactions(&performed), 0);
    assert_eq!(last, Step::Complete);
    assert!(core.is_suspended());
}

#[test]
fn resume_resets_a_suspended_chip() {
    let mut core = asleep();
    let first = core.resume();
    let (performed, last) = carry_out(&mut core, first, [0; 3]);
    assert_eq!(performed, vec![LOW, PAUSE, HIGH, PAUSE]);
    assert_eq!(last, Step::Complete);
    assert!(!core.is_suspended());
}

#[test]
fn resume_twice_resets_once() {
    let mut core = asleep();
    let first = core.resume();
    let (performed, _) = carry_out(&mut core, first, [0; 3]);
    assert_eq!(performed.len(), 4);

    let second = core.resume();
    assert_eq!(second, None);
    assert_eq!(core.awaited(), None);
    assert!(!core.is_suspended());
}

#[test]
fn dbcheck_resets_then_sends_its_code() {
    for mut core in [awake(), asleep()] {
        let first = core.dbcheck();
        let (performed, last) = carry_out(&mut core, first, [0; 3]);
        assert_eq!(performed, vec![LOW, PAUSE, HIGH, PAUSE, write([0xD0, 0x01])]);
        assert_eq!(last, Step::Complete);
        assert!(!core.is_suspended());
    }
}

#[test]
fn palm_check_resets_then_sends_its_code() {
    for mut core in [awake(), asleep()] {
        let first = core.palm_check();
        let (performed, last) = carry_out(&mut core, first, [0; 3]);
        assert_eq!(performed, vec![LOW, PAUSE, HIGH, PAUSE, write([0xD1, 0x01])]);
        assert_eq!(last, Step::Complete);
        assert!(!core.is_suspended());
    }
}

#[test]
fn read_last_is_one_read_that_is_decoded() {
    let mut core = awake();
    let first = core.read_last();
    assert_eq!(first, Some(Action::Read { address: 0x5c }));
    let (performed, last) = carry_out(&mut core, first, [0x40, 0x50, 0x30]);
    assert_eq!(performed, vec![READ]);
    assert_eq!(
        last,
        Step::Touch(TouchEvent { x: 336, y: 48, flag: TouchFlag::Down, id: false })
    );
    assert_eq!(core.awaited(), None);
}

#[test]
fn read_last_keeps_the_power_state() {
    let mut core = awake();
    let first = core.read_last();
    carry_out(&mut core, first, [0x24, 1, 2]);
    assert!(!core.is_suspended());

    let mut core = asleep();
    let first = core.read_last();
    let (_, last) = carry_out(&mut core, first, [0x24, 1, 2]);
    assert_eq!(last, Step::Touch(TouchEvent { x: 1, y: 2, flag: TouchFlag::Contact, id: true }));
    assert!(core.is_suspended());
}

#[test]
fn read_last_surfaces_an_invalid_phase() {
    let mut core = awake();
    assert_eq!(core.read_last(), Some(READ));
    let step: Next = core.advance(Outcome::Received(Ok([0x30, 0, 0])));
    assert_eq!(step, Step::Failed(Error::Device(DeviceError::InvalidTouchFlag(3))));
    assert_eq!(core.awaited(), None);
    assert!(!core.is_suspended());
}

#[test]
fn read_last_surfaces_a_bus_fault() {
    let mut core = awake();
    core.read_last();
    let step: Next = core.advance(Outcome::Received(Err(17)));
    assert_eq!(step, Step::Failed(Error::I2c(17)));
    assert_eq!(core.awaited(), None);
}

#[test]
fn wait_on_touch_waits_for_the_edge_then_reads() {
    let mut core = awake();
    let first = core.wait_on_touch();
    assert_eq!(first, Some(Action::AwaitRisingEdge));
    let (performed, last) = carry_out(&mut core, first, [0x94, 0x0A, 0x0B]);
    assert_eq!(performed, vec![Action::AwaitRisingEdge, READ]);
    assert_eq!(bus_transactions(&performed), 1);
    assert_eq!(last, Step::Touch(TouchEvent { x: 10, y: 267, flag: TouchFlag::Up, id: true }));
    assert!(!core.is_suspended());
}

#[test]
fn wait_on_touch_surfaces_a_wait_fault() {
    let mut core = awake();
    core.wait_on_touch();
    let step: Next = core.advance(Outcome::Edge(Err(404)));
    assert_eq!(step, Step::Failed(Error::Wait(404)));
    assert_eq!(core.awaited(), None);
}

#[test]
fn failing_to_pull_the_line_low_gives_up() {
    let mut core = asleep();
    core.resume();
    let step: Next = core.advance(Outcome::Driven(Err(70_000)));
    assert_eq!(step, Step::Failed(Error::OutputPin(70_000)));
    assert!(core.is_suspended());
    assert_eq!(core.awaited(), None);
}

#[test]
fn failing_to_release_the_line_leaves_the_power_state() {
    let mut core = asleep();
    core.resume();
    core.advance::<u8, u16, u32>(Outcome::Driven(Ok(())));
    core.advance::<u8, u16, u32>(Outcome::Delayed);
    let step: Next = core.advance(Outcome::Driven(Err(1)));
    assert_eq!(step, Step::Failed(Error::OutputPin(1)));
    assert!(core.is_suspended());
}

#[test]
fn suspend_that_fails_on_the_bus_leaves_the_chip_awake() {
    let mut core = awake();
    let mut next = core.suspend();
    let mut performed = Vec::new();
    while let Some(action) = next {
        if let Action::Write { .. } = action {
            break;
        }
        performed.push(action);
        next = match core.advance(success(action, [0; 3])) {
            Step::Perform(action) => Some(action),
            other => panic!("the reset ended early: {:?}", other),
        };
    }
    assert_eq!(performed, vec![LOW, PAUSE, HIGH, PAUSE]);
    assert_eq!(next, Some(write(SUSPEND_CODE)));
    let step: Next = core.advance(Outcome::Written(Err(3)));
    assert_eq!(step, Step::Failed(Error::I2c(3)));
    assert!(!core.is_suspended());
    assert_eq!(core.awaited(), None);

    let retry = core.suspend();
    assert_eq!(retry, Some(LOW));
}

#[test]
fn an_outcome_that_answers_nothing_is_passed_over() {
    let mut core = asleep();
    core.resume();
    let step: Next = core.advance(Outcome::Delayed);
    assert_eq!(step, Step::Perform(LOW));
    let step: Next = core.advance(Outcome::Written(Err(5)));
    assert_eq!(step, Step::Perform(LOW));
    let step: Next = core.advance(Outcome::Received(Ok([0x30, 0, 0])));
    assert_eq!(step, Step::Perform(LOW));
    let step: Next = core.advance(Outcome::Edge(Ok(())));
    assert_eq!(step, Step::Perform(LOW));
    assert_eq!(core.awaited(), Some(LOW));
    assert!(core.is_suspended());

    core.read_last();
    let step: Next = core.advance(Outcome::Driven(Err(8)));
    assert_eq!(step, Step::Perform(READ));
    let step: Next = core.advance(Outcome::Written(Ok(())));
    assert_eq!(step, Step::Perform(READ));
}

#[test]
fn an_idle_controller_has_nothing_to_do() {
    let mut core = awake();
    assert_eq!(core.awaited(), None);
    let step: Next = core.advance(Outcome::Delayed);
    assert_eq!(step, Step::Complete);
    let step: Next = core.advance(Outcome::Received(Ok([0x30, 0, 0])));
    assert_eq!(step, Step::Complete);
    let step: Next = core.advance(Outcome::Driven(Err(2)));
    assert_eq!(step, Step::Complete);
    assert!(!core.is_suspended());
}

#[test]
fn a_new_operation_drops_the_one_under_way() {
    let mut core = awake();
    core.suspend();
    core.advance::<u8, u16, u32>(Outcome::Driven(Ok(())));
    assert_eq!(core.awaited(), Some(PAUSE));
    let first = core.read_last();
    assert_eq!(first, Some(READ));
    let (performed, _) = carry_out(&mut core, first, [0, 0, 0]);
    assert_eq!(performed, vec![READ]);
    assert!(!core.is_suspended());
}

#[test]
fn begin_starts_each_operation() {
    let scripts = [
        (Operation::Reset, vec![LOW, PAUSE, HIGH, PAUSE]),
        (Operation::Suspend, vec![LOW, PAUSE, HIGH, PAUSE, write(SUSPEND_CODE)]),
        (Operation::Resume, vec![]),
        (Operation::DebounceCheck, vec![LOW, PAUSE, HIGH, PAUSE, write(DBCHECK)]),
        (Operation::PalmCheck, vec![LOW, PAUSE, HIGH, PAUSE, write(PALM_CHECK)]),
        (Operation::ReadLast, vec![READ]),
        (Operation::WaitOnTouch, vec![Action::AwaitRisingEdge, READ]),
    ];
    for (operation, script) in scripts {
        let mut core = awake();
        let first = core.begin(operation);
        assert_eq!(first, script.first().copied());
        let (performed, _) = carry_out(&mut core, first, [0; 3]);
        assert_eq!(performed, script);
    }
}

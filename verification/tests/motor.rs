use ctc::gpio::stepper::plan::PlanRun;
use ctc::gpio::stepper::{
    Action, DriveError, MotionCommand, Pin, StepperDirection, StepperMotor, GRANULARITY,
    RAMP_DIVISOR, TIMER_AUTO_RELOAD, TIMER_DIVIDER,
};

#[test]
fn clockwise_is_high() {
    assert!(StepperDirection::Clockwise.pin_level());
    assert!(!StepperDirection::Counterclockwise.pin_level());
}

fn motor() -> StepperMotor {
    StepperMotor::new(8_000_000, 8_000_000).0
}

#[test]
fn motor_starts_clockwise_with_the_direction_pin_to_be_driven_high() {
    let (motor, mut run) = StepperMotor::new(8_000_000, 8_000_000);
    assert_eq!(motor.direction(), StepperDirection::Clockwise);
    assert_eq!(run.pending(), Action::Write(Pin::Direction, true));
    run.complete(true);
    assert_eq!(run.pending(), Action::Finish(Ok(())));
    let (_, mut run) = StepperMotor::new(8_000_000, 8_000_000);
    run.complete(false);
    assert_eq!(run.pending(), Action::Finish(Err(DriveError::HardwareFault)));
}

fn finish(result: Result<(), DriveError>) -> Action {
    Action::Finish(result)
}

#[test]
fn set_direction_is_one_write_to_the_direction_pin() {
    let mut motor = motor();
    let mut run = motor.set_direction(StepperDirection::Counterclockwise);
    assert_eq!(run.pending(), Action::Write(Pin::Direction, false));
    assert!(!run.is_finished());
    run.complete(true);
    assert_eq!(run.pending(), finish(Ok(())));
    assert!(run.is_finished());
    assert_eq!(motor.direction(), StepperDirection::Counterclockwise);
    let mut run = motor.set_direction(StepperDirection::Clockwise);
    assert_eq!(run.pending(), Action::Write(Pin::Direction, true));
    run.complete(true);
    assert_eq!(run.pending(), finish(Ok(())));
    assert_eq!(motor.direction(), StepperDirection::Clockwise);
}

#[test]
fn set_direction_reports_a_failed_write() {
    let mut motor = motor();
    let mut run = motor.set_direction(StepperDirection::Counterclockwise);
    run.complete(false);
    assert_eq!(run.pending(), finish(Err(DriveError::HardwareFault)));
    run.complete(true);
    assert_eq!(run.pending(), finish(Err(DriveError::HardwareFault)));
}

#[test]
fn set_direction_twice_leaves_the_pin_where_it_is() {
    let mut motor = motor();
    for direction in [StepperDirection::Counterclockwise, StepperDirection::Clockwise] {
        let mut pin = !direction.pin_level();
        for _ in 0..2 {
            let mut run = motor.set_direction(direction);
            let mut writes = 0;
            while let Action::Write(which, high) = run.pending() {
                assert_eq!(which, Pin::Direction);
                pin = high;
                writes += 1;
                run.complete(true);
            }
            assert_eq!(writes, 1);
            assert_eq!(run.pending(), finish(Ok(())));
            assert_eq!(pin, direction.pin_level());
            assert_eq!(motor.direction(), direction);
        }
    }
}

#[test]
fn one_pulse_is_high_hold_low_hold() {
    let motor = motor();
    let mut run = motor.step(250);
    let mut performed = Vec::new();
    loop {
        match run.pending() {
            Action::Finish(result) => {
                assert_eq!(result, Ok(()));
                break;
            }
            action => {
                performed.push(action);
                run.complete(true);
            }
        }
    }
    assert_eq!(
        performed,
        vec![
            Action::Write(Pin::Step, true),
            Action::Hold(250),
            Action::Write(Pin::Step, false),
            Action::Hold(250),
        ]
    );
}

#[test]
fn pulse_stops_at_the_write_that_fails() {
    let motor = motor();
    let mut run = motor.step(250);
    assert_eq!(run.pending(), Action::Write(Pin::Step, true));
    run.complete(false);
    assert_eq!(run.pending(), finish(Err(DriveError::HardwareFault)));
    assert!(run.is_finished());

    let mut run = motor.step(250);
    run.complete(true);
    run.complete(true);
    assert_eq!(run.pending(), Action::Write(Pin::Step, false));
    run.complete(false);
    assert_eq!(run.pending(), finish(Err(DriveError::HardwareFault)));
    run.complete(true);
    run.complete(true);
    assert_eq!(run.pending(), finish(Err(DriveError::HardwareFault)));
}

#[test]
fn plan_run_goes_through_any_plan_in_order() {
    let plan = vec![Action::Hold(1), Action::Hold(2), Action::Hold(3)];
    let mut run = PlanRun::new(plan.clone());
    for action in &plan {
        assert_eq!(run.pending(), *action);
        run.complete(true);
    }
    assert_eq!(run.pending(), finish(Ok(())));
    let mut empty = PlanRun::new(Vec::new());
    assert!(empty.is_finished());
    assert_eq!(empty.pending(), finish(Ok(())));
    empty.complete(false);
    assert_eq!(empty.pending(), finish(Ok(())));
}

#[test]
fn command_needs_steps_and_speed() {
    let ok = MotionCommand { steps: 1, pulse_width: 0, accel: 0, max_sps: 1 };
    assert_eq!(ok.validate(), Ok(()));
    let no_steps = MotionCommand { steps: 0, ..ok };
    assert_eq!(no_steps.validate(), Err(DriveError::InvalidCommand));
    let no_speed = MotionCommand { max_sps: 0, ..ok };
    assert_eq!(no_speed.validate(), Err(DriveError::InvalidCommand));
    let neither = MotionCommand { steps: 0, max_sps: 0, ..ok };
    assert_eq!(neither.validate(), Err(DriveError::InvalidCommand));
}

#[test]
fn timer_and_ramp_constants() {
    assert_eq!(RAMP_DIVISOR, 5);
    assert_eq!(GRANULARITY, 1);
    assert_eq!(TIMER_DIVIDER, 10);
    assert!(TIMER_AUTO_RELOAD);
}

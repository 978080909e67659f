use ctc::gpio::stepper::scheduler::{MotionScheduler, SchedulerEvent};
use ctc::gpio::stepper::session::{
    ClockState, DriveSession, DriveStage, ARM_LEN, ARM_LEN_UNRAMPED, PULSE_LEN, TEARDOWN_LEN,
};
use ctc::gpio::stepper::{
    Action, Clock, DriveError, MotionCommand, MotionPhase, Pin, StepperMotor, StepperState,
};

const STEP_HZ: u64 = 8_000_000;
const ACCEL_HZ: u64 = 4_000_000;

#[derive(Default)]
struct Timer {
    subscribed: bool,
    enabled: bool,
    period: Option<u64>,
}

/// Pins, clocks and scheduler link of a motor, with one action that fails.
#[derive(Default)]
struct Rig {
    step_pin: bool,
    pulses: u32,
    held: u64,
    step: Timer,
    accel: Timer,
    spawned: u32,
    stopped: u32,
    scheduler_runs: bool,
    sent: Vec<StepperState>,
    log: Vec<Action>,
    fails: Option<Action>,
}

impl Rig {
    fn failing(action: Action) -> Rig {
        Rig { fails: Some(action), ..Rig::default() }
    }

    fn timer(&mut self, clock: Clock) -> &mut Timer {
        match clock {
            Clock::Step => &mut self.step,
            Clock::Acceleration => &mut self.accel,
        }
    }

    fn perform(&mut self, action: Action) -> bool {
        self.log.push(action);
        if self.fails == Some(action) {
            return false;
        }
        match action {
            Action::Write(Pin::Step, high) => {
                if high && !self.step_pin {
                    self.pulses += 1;
                }
                self.step_pin = high;
            }
            Action::Write(Pin::Direction, _) => panic!("a move does not touch the direction pin"),
            Action::Hold(micros) => self.held += micros as u64,
            Action::Subscribe(clock) => self.timer(clock).subscribed = true,
            Action::SetPeriod(clock, ticks) => self.timer(clock).period = Some(ticks),
            Action::Enable(clock) => self.timer(clock).enabled = true,
            Action::Disable(clock) => {
                if self.fails != Some(Action::StopScheduler) {
                    assert!(!self.scheduler_runs, "the scheduler may still touch the clock");
                }
                self.timer(clock).enabled = false;
            }
            Action::Unsubscribe(clock) => self.timer(clock).subscribed = false,
            Action::SpawnScheduler => {
                self.spawned += 1;
                self.scheduler_runs = true;
            }
            Action::StopScheduler => {
                self.stopped += 1;
                self.scheduler_runs = false;
            }
            Action::AwaitWake => assert!(self.step.enabled && self.step.subscribed),
            Action::Notify(message) => {
                assert!(self.scheduler_runs);
                self.sent.push(message);
            }
            Action::Finish(_) => panic!("the return is not performed"),
        }
        true
    }

    fn run(&mut self, session: &mut DriveSession) -> Result<(), DriveError> {
        loop {
            match session.pending() {
                Action::Finish(result) => return result,
                action => {
                    let ok = self.perform(action);
                    session.complete(ok);
                }
            }
        }
    }

    fn clocks_are_down(&self) -> bool {
        !self.step.enabled && !self.step.subscribed && !self.accel.enabled && !self.accel.subscribed
    }
}

fn idle() -> ClockState {
    ClockState { subscribed: false, enabled: false }
}

fn session(steps: u32, pulse_width: u32, accel: u64, max_sps: u64) -> DriveSession {
    StepperMotor::new(STEP_HZ, ACCEL_HZ).0.drive(steps, pulse_width, accel, max_sps)
}

#[test]
fn move_emits_one_pulse_per_step_and_ends() {
    for steps in [1u32, 2, 4, 5, 6, 10, 99, 100, 1000] {
        let mut rig = Rig::default();
        let mut s = session(steps, 3, 50, 10);
        let mut last = 0;
        loop {
            let action = s.pending();
            if let Action::Finish(result) = action {
                assert_eq!(result, Ok(()));
                break;
            }
            assert!(rig.perform(action));
            let closes = s.stage() == DriveStage::Pulsing(PULSE_LEN - 1);
            s.complete(true);
            assert_eq!(s.current_step(), if closes { last + 1 } else { last });
            last = s.current_step();
        }
        assert_eq!(s.current_step(), steps);
        assert_eq!(rig.pulses, steps);
        assert_eq!(rig.held, 2 * 3 * steps as u64);
        assert_eq!(rig.log.len() as u64, 6 * steps as u64 + 11);
        assert_eq!(rig.sent.len() as u32, steps - 1);
        assert!(!rig.step_pin);
        assert!(rig.clocks_are_down());
        assert_eq!(rig.spawned, 1);
        assert_eq!(rig.stopped, 1);
        assert!(s.is_finished());
    }
}

#[test]
fn arming_subscribes_programs_and_enables_both_clocks() {
    let mut rig = Rig::default();
    let mut s = session(100, 5, 50, 10);
    assert_eq!(s.stage(), DriveStage::Arming(0));
    for _ in 0..ARM_LEN {
        let action = s.pending();
        let ok = rig.perform(action);
        s.complete(ok);
    }
    assert_eq!(
        rig.log,
        vec![
            Action::Subscribe(Clock::Step),
            Action::SetPeriod(Clock::Step, 8_000_000),
            Action::Enable(Clock::Step),
            Action::Subscribe(Clock::Acceleration),
            Action::SetPeriod(Clock::Acceleration, 80_000),
            Action::Enable(Clock::Acceleration),
            Action::SpawnScheduler,
        ]
    );
    assert_eq!(s.stage(), DriveStage::AwaitingWake);
    assert_eq!(s.pending(), Action::AwaitWake);
    assert_eq!(s.step_clock(), ClockState { subscribed: true, enabled: true });
    assert_eq!(s.accel_clock(), ClockState { subscribed: true, enabled: true });
}

#[test]
fn first_step_of_a_move_in_full() {
    let mut rig = Rig::default();
    let mut s = session(10, 7, 50, 10);
    for _ in 0..ARM_LEN + 1 + PULSE_LEN + 1 {
        let action = s.pending();
        let ok = rig.perform(action);
        s.complete(ok);
    }
    assert_eq!(
        rig.log[ARM_LEN as usize..],
        [
            Action::AwaitWake,
            Action::Write(Pin::Step, true),
            Action::Hold(7),
            Action::Write(Pin::Step, false),
            Action::Hold(7),
            Action::Notify(StepperState::CurrentStep(1)),
        ]
    );
    assert_eq!(s.current_step(), 1);
    assert_eq!(s.pending(), Action::AwaitWake);
}

#[test]
fn teardown_disables_and_unsubscribes_both_clocks() {
    let mut rig = Rig::default();
    let mut s = session(1, 5, 50, 10);
    assert_eq!(rig.run(&mut s), Ok(()));
    let n = rig.log.len();
    assert_eq!(
        rig.log[n - TEARDOWN_LEN as usize..],
        [
            Action::StopScheduler,
            Action::Disable(Clock::Step),
            Action::Unsubscribe(Clock::Step),
            Action::Disable(Clock::Acceleration),
            Action::Unsubscribe(Clock::Acceleration),
        ]
    );
    assert_eq!(s.step_clock(), idle());
    assert_eq!(s.accel_clock(), idle());
}

#[test]
fn zero_steps_is_an_invalid_command_and_subscribes_nothing() {
    let mut rig = Rig::default();
    let mut s = session(0, 5, 50, 10);
    assert_eq!(s.pending(), Action::Finish(Err(DriveError::InvalidCommand)));
    assert_eq!(rig.run(&mut s), Err(DriveError::InvalidCommand));
    assert!(rig.log.is_empty());
    assert_eq!(s.step_clock(), idle());
    assert_eq!(s.accel_clock(), idle());
    assert!(s.scheduler().is_none());
    s.complete(true);
    s.complete(false);
    assert_eq!(s.pending(), Action::Finish(Err(DriveError::InvalidCommand)));
}

#[test]
fn zero_speed_is_an_invalid_command() {
    let mut rig = Rig::default();
    let mut s = session(10, 5, 50, 0);
    assert_eq!(rig.run(&mut s), Err(DriveError::InvalidCommand));
    assert!(rig.log.is_empty());
    let mut s = session(0, 5, 0, 0);
    assert_eq!(rig.run(&mut s), Err(DriveError::InvalidCommand));
    assert!(rig.log.is_empty());
}

#[test]
fn move_without_speed_updates_leaves_the_acceleration_clock_alone() {
    for steps in [1u32, 4, 5, 100] {
        let mut rig = Rig::default();
        let mut s = session(steps, 5, 0, 10);
        assert_eq!(s.stage(), DriveStage::Arming(0));
        assert_eq!(rig.run(&mut s), Ok(()));
        assert_eq!(
            rig.log[..ARM_LEN_UNRAMPED as usize],
            [
                Action::Subscribe(Clock::Step),
                Action::SetPeriod(Clock::Step, STEP_HZ),
                Action::Enable(Clock::Step),
                Action::SpawnScheduler,
            ]
        );
        assert_eq!(rig.log[ARM_LEN_UNRAMPED as usize], Action::AwaitWake);
        assert_eq!(rig.log.len() as u64, 6 * steps as u64 + 8);
        assert_eq!(rig.pulses, steps);
        assert_eq!(s.current_step(), steps);
        assert_eq!(rig.accel.period, None);
        assert_eq!(rig.step.period, Some(STEP_HZ));
        assert!(rig.clocks_are_down());
        assert_eq!(s.step_clock(), idle());
        assert_eq!(s.accel_clock(), idle());
    }
}

#[test]
fn every_valid_command_is_carried_out() {
    for accel in [0u64, 1, 50, u64::MAX] {
        for max_sps in [1u64, 10, u64::MAX] {
            for pulse_width in [0u32, 5, 1000] {
                let mut rig = Rig::default();
                let mut s = session(7, pulse_width, accel, max_sps);
                assert_eq!(rig.run(&mut s), Ok(()));
                assert_eq!(rig.pulses, 7);
                assert_eq!(rig.held, 14 * pulse_width as u64);
                assert!(rig.clocks_are_down());
            }
        }
    }
}

#[test]
fn timer_arm_failure_is_a_hardware_fault_with_both_clocks_down() {
    let arming = [
        Action::Subscribe(Clock::Step),
        Action::SetPeriod(Clock::Step, STEP_HZ),
        Action::Enable(Clock::Step),
        Action::Subscribe(Clock::Acceleration),
        Action::SetPeriod(Clock::Acceleration, ACCEL_HZ / 50),
        Action::Enable(Clock::Acceleration),
        Action::SpawnScheduler,
    ];
    for (tried, failing) in arming.into_iter().enumerate() {
        let mut rig = Rig::failing(failing);
        let mut s = session(100, 5, 50, 10);
        assert_eq!(rig.run(&mut s), Err(DriveError::HardwareFault));
        assert!(rig.clocks_are_down());
        assert_eq!(s.step_clock(), idle());
        assert_eq!(s.accel_clock(), idle());
        assert_eq!(rig.pulses, 0);
        assert_eq!(rig.log.len(), tried + 1 + TEARDOWN_LEN as usize);
        assert_eq!(rig.log[tried + 1], Action::StopScheduler);
        assert_eq!(rig.log[tried + 2], Action::Disable(Clock::Step));
        assert_eq!(s.current_step(), 0);
    }
}

#[test]
fn pulse_failure_aborts_the_move_and_tears_down() {
    let mut rig = Rig::failing(Action::Write(Pin::Step, false));
    let mut s = session(100, 5, 50, 10);
    assert_eq!(rig.run(&mut s), Err(DriveError::HardwareFault));
    assert_eq!(s.current_step(), 0);
    assert!(rig.clocks_are_down());
    assert!(rig.sent.is_empty());
}

#[test]
fn lost_scheduler_aborts_the_move_and_tears_down() {
    let mut rig = Rig::failing(Action::Notify(StepperState::Constant));
    let mut s = session(100, 5, 50, 10);
    assert_eq!(rig.run(&mut s), Err(DriveError::HardwareFault));
    assert_eq!(s.current_step(), 20);
    assert_eq!(rig.pulses, 20);
    assert_eq!(rig.sent.len(), 19);
    assert!(rig.clocks_are_down());
}

#[test]
fn failed_wait_aborts_the_move() {
    let mut rig = Rig::default();
    let mut s = session(3, 5, 50, 10);
    while s.pending() != Action::AwaitWake {
        let ok = rig.perform(s.pending());
        s.complete(ok);
    }
    s.complete(false);
    assert_eq!(s.stage(), DriveStage::TearingDown(0));
    assert_eq!(rig.run(&mut s), Err(DriveError::HardwareFault));
    assert!(rig.clocks_are_down());
}

#[test]
fn teardown_goes_on_after_a_failed_teardown_action() {
    let mut rig = Rig::failing(Action::Disable(Clock::Step));
    let mut s = session(2, 5, 50, 10);
    assert_eq!(rig.run(&mut s), Err(DriveError::HardwareFault));
    assert_eq!(s.current_step(), 2);
    assert_eq!(rig.pulses, 2);
    let n = rig.log.len();
    assert_eq!(
        rig.log[n - 3..],
        [
            Action::Unsubscribe(Clock::Step),
            Action::Disable(Clock::Acceleration),
            Action::Unsubscribe(Clock::Acceleration),
        ]
    );
    assert_eq!(s.step_clock(), ClockState { subscribed: false, enabled: true });
    assert_eq!(s.accel_clock(), idle());
    assert!(rig.step.enabled);
    assert!(!rig.accel.enabled);
}

#[test]
fn teardown_goes_on_when_the_scheduler_does_not_stop() {
    let mut rig = Rig::failing(Action::StopScheduler);
    let mut s = session(2, 5, 50, 10);
    assert_eq!(rig.run(&mut s), Err(DriveError::HardwareFault));
    assert_eq!(rig.pulses, 2);
    assert!(rig.clocks_are_down());
    assert_eq!(s.step_clock(), idle());
    assert_eq!(s.accel_clock(), idle());
}

#[test]
fn finished_session_stays_finished() {
    let mut rig = Rig::default();
    let mut s = session(2, 5, 50, 10);
    assert_eq!(rig.run(&mut s), Ok(()));
    let done = s;
    s.complete(false);
    assert_eq!(s, done);
    s.complete(true);
    assert_eq!(s, done);
    assert_eq!(s.pending(), Action::Finish(Ok(())));
}

#[test]
fn fresh_drive_after_a_fault_runs_clean() {
    let motor = StepperMotor::new(STEP_HZ, ACCEL_HZ).0;
    let mut rig = Rig::failing(Action::Enable(Clock::Acceleration));
    let mut first = motor.drive(10, 5, 50, 10);
    assert_eq!(rig.run(&mut first), Err(DriveError::HardwareFault));
    assert!(rig.clocks_are_down());
    rig.fails = None;
    let mut second = motor.drive(10, 5, 50, 10);
    assert_eq!(rig.run(&mut second), Ok(()));
    assert_eq!(rig.pulses, 10);
    assert!(rig.clocks_are_down());
}

#[test]
fn session_adopts_the_deceleration_point_of_the_scheduler() {
    let mut rig = Rig::default();
    let mut s = session(10, 5, 50, 10);
    assert_eq!(s.start_decel(), 8);
    s.set_start_decel(9);
    assert_eq!(s.start_decel(), 9);
    assert_eq!(s.stage(), DriveStage::Arming(0));
    assert_eq!(rig.run(&mut s), Ok(()));
    assert_eq!(rig.sent[7], StepperState::CurrentStep(8));
    assert_eq!(rig.sent[8], StepperState::Decelerating);
}

#[test]
fn session_hands_out_the_scheduler_of_its_command() {
    let s = session(100, 5, 50, 10);
    let command = MotionCommand { steps: 100, pulse_width: 5, accel: 50, max_sps: 10 };
    assert_eq!(s.scheduler(), Some(MotionScheduler::new(&command, STEP_HZ).unwrap()));
    let mut scheduler = s.scheduler().unwrap();
    assert_eq!(scheduler.phase(), MotionPhase::Accelerating);
    assert_eq!(scheduler.handle(SchedulerEvent::Wake).step_period, Some(STEP_HZ / 2));
    assert_eq!(DriveSession::begin(command, STEP_HZ, ACCEL_HZ), s);
}

#[test]
fn acceleration_period_is_tick_rate_over_rate_of_updates() {
    for (accel, period) in [(1u64, 4_000_000u64), (3, 1_333_333), (4_000_000, 1), (4_000_001, 0)]
    {
        let mut s = session(10, 5, accel, 10);
        for _ in 0..4 {
            s.complete(true);
        }
        assert_eq!(s.pending(), Action::SetPeriod(Clock::Acceleration, period));
    }
}

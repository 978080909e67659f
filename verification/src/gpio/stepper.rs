//! The stepper motor: its vocabulary and its facade.

use crate::gpio::stepper::plan::{PlanModel, PlanRun};
use crate::gpio::stepper::session::{DriveSession, SessionModel};
use vstd::prelude::*;

pub mod drive_loop;
pub mod plan;
pub mod profile;
pub mod scheduler;
pub mod session;

verus! {

/// Share of a move given to each ramp: one part in this many.
pub const RAMP_DIVISOR: u32 = 5;

/// Speed updates the Acceleration Clock delivers per unit of `accel`.
pub const GRANULARITY: u64 = 1;

/// Prescaler both hardware timers are configured with.
pub const TIMER_DIVIDER: u32 = 10;

/// Both hardware timers restart by themselves after each alarm.
pub const TIMER_AUTO_RELOAD: bool = true;

/// Sense of rotation of the motor shaft.
#[derive(Clone, Copy, Debug, PartialEq, Eq, Structural)]
pub enum StepperDirection {
    Clockwise,
    Counterclockwise,
}

impl StepperDirection {
    /// Level of the direction pin that selects this sense of rotation:
    /// high for clockwise.
    pub open spec fn level(self) -> bool {
        self == StepperDirection::Clockwise
    }

    pub fn pin_level(&self) -> (high: bool)
        ensures
            high == self.level(),
    {
        match self {
            StepperDirection::Clockwise => true,
            StepperDirection::Counterclockwise => false,
        }
    }
}

/// Why a move was refused or cut short.
#[derive(Clone, Copy, Debug, PartialEq, Eq, Structural)]
pub enum DriveError {
    /// A pin, a timer or the link to the scheduler failed.
    HardwareFault,
    /// The command asks for no steps or for no speed.
    InvalidCommand,
}

/// Segment of the trapezoidal speed profile.
#[derive(Clone, Copy, Debug, PartialEq, Eq, Structural)]
pub enum MotionPhase {
    Accelerating,
    Constant,
    Decelerating,
}

impl MotionPhase {
    /// Position of the phase in the only order a move passes through them.
    pub open spec fn rank(self) -> nat {
        match self {
            MotionPhase::Accelerating => 0,
            MotionPhase::Constant => 1,
            MotionPhase::Decelerating => 2,
        }
    }
}

/// What the drive loop tells the scheduler after a pulse.
#[derive(Clone, Copy, Debug, PartialEq, Eq, Structural)]
pub enum StepperState {
    Accelerating,
    Constant,
    Decelerating,
    CurrentStep(u32),
}

/// The two hardware timers of a motor.
#[derive(Clone, Copy, Debug, PartialEq, Eq, Structural)]
pub enum Clock {
    /// Fires once per pulse; its period sets the speed.
    Step,
    /// Fires once per speed update.
    Acceleration,
}

/// The two output pins of a motor.
#[derive(Clone, Copy, Debug, PartialEq, Eq, Structural)]
pub enum Pin {
    Step,
    Direction,
}

/// One thing the owner of the hardware is asked to do.
#[derive(Clone, Copy, Debug, PartialEq, Eq)]
pub enum Action {
    /// Drive a pin high (`true`) or low.
    Write(Pin, bool),
    /// Busy-wait this many microseconds.
    Hold(u32),
    /// Route a clock's interrupt to the context it has to wake.
    Subscribe(Clock),
    /// Program a clock's period, in timer ticks.
    SetPeriod(Clock, u64),
    Enable(Clock),
    Disable(Clock),
    /// Take a clock's interrupt route down again.
    Unsubscribe(Clock),
    /// Start the motion scheduler on its own thread.
    SpawnScheduler,
    /// Hang up on the motion scheduler and wait until its thread has ended.
    /// Where none was started there is nothing to do.
    StopScheduler,
    /// Block until the Step Clock fires.
    AwaitWake,
    /// Send a message to the scheduler.
    Notify(StepperState),
    /// Return from the move with this result.
    Finish(Result<(), DriveError>),
}

/// One pulse: the step pin goes high for `pulse_width` microseconds, then low
/// for as long.
pub open spec fn pulse_plan(pulse_width: u32) -> Seq<Action> {
    seq![
        Action::Write(Pin::Step, true),
        Action::Hold(pulse_width),
        Action::Write(Pin::Step, false),
        Action::Hold(pulse_width),
    ]
}

/// Setting a direction: one write, to the direction pin, of the level of the
/// direction.
pub open spec fn direction_plan(direction: StepperDirection) -> Seq<Action> {
    seq![Action::Write(Pin::Direction, direction.level())]
}

/// Level a pin is left at by an action that was tried: a write that went
/// through sets the pin it names, and nothing else changes a pin.
pub open spec fn level_after(pin: Pin, level: bool, action: Action, ok: bool) -> bool {
    match action {
        Action::Write(written, high) if written == pin && ok => high,
        _ => level,
    }
}

/// One move: how far, how wide each pulse, how fast to ramp, how fast at most.
#[derive(Clone, Copy, Debug, PartialEq, Eq)]
pub struct MotionCommand {
    pub steps: u32,
    /// Microseconds the step pin stays high, and then low, per pulse.
    pub pulse_width: u32,
    /// Speed updates per second while ramping.
    pub accel: u64,
    /// Ceiling of the step rate, in steps per second.
    pub max_sps: u64,
}

impl MotionCommand {
    /// A command is valid when it moves at least one step at a speed of at
    /// least one step per second.
    pub open spec fn valid(self) -> bool {
        self.steps > 0 && self.max_sps >= 1
    }

    pub fn validate(&self) -> (checked: Result<(), DriveError>)
        ensures
            self.valid() ==> checked == Ok::<(), DriveError>(()),
            !self.valid() ==> checked == Err::<(), DriveError>(DriveError::InvalidCommand),
    {
        if self.steps == 0 || self.max_sps == 0 {
            Err(DriveError::InvalidCommand)
        } else {
            Ok(())
        }
    }
}

/// The facade as a mathematical value.
pub struct MotorModel {
    /// Direction that was last asked for.
    pub direction: StepperDirection,
    /// Ticks per second of the Step Clock.
    pub step_tick_hz: u64,
    /// Ticks per second of the Acceleration Clock.
    pub accel_tick_hz: u64,
}

impl MotorModel {
    /// A motor starts out turning clockwise.
    pub open spec fn initial(step_tick_hz: u64, accel_tick_hz: u64) -> MotorModel {
        MotorModel { direction: StepperDirection::Clockwise, step_tick_hz, accel_tick_hz }
    }

    /// State after a direction was asked for.
    pub open spec fn set_direction(self, direction: StepperDirection) -> MotorModel {
        MotorModel { direction, ..self }
    }
}

/// The facade of one motor: the direction that was last asked for and the
/// rates of its two clocks.
#[derive(Clone, Copy, Debug, PartialEq, Eq)]
pub struct StepperMotor {
    direction: StepperDirection,
    step_tick_hz: u64,
    accel_tick_hz: u64,
}

impl View for StepperMotor {
    type V = MotorModel;

    closed spec fn view(&self) -> MotorModel {
        MotorModel {
            direction: self.direction,
            step_tick_hz: self.step_tick_hz,
            accel_tick_hz: self.accel_tick_hz,
        }
    }
}

impl StepperMotor {
    /// The facade of a motor whose clocks count `step_tick_hz` and
    /// `accel_tick_hz` ticks per second, and the run that sets its direction
    /// to clockwise: one write to the direction pin, due before the first
    /// move.
    pub fn new(step_tick_hz: u64, accel_tick_hz: u64) -> (made: (StepperMotor, PlanRun))
        ensures
            made.0@ == MotorModel::initial(step_tick_hz, accel_tick_hz),
            made.1@ == PlanModel::start(direction_plan(StepperDirection::Clockwise)),
    {
        let mut motor = StepperMotor {
            direction: StepperDirection::Clockwise,
            step_tick_hz,
            accel_tick_hz,
        };
        let run = motor.set_direction(StepperDirection::Clockwise);
        (motor, run)
    }

    pub fn direction(&self) -> (direction: StepperDirection)
        ensures
            direction == self@.direction,
    {
        self.direction
    }

    /// Sets the direction of the moves to come: one write to the direction
    /// pin. The run ends in a hardware fault where the write fails.
    pub fn set_direction(&mut self, dir: StepperDirection) -> (run: PlanRun)
        ensures
            final(self)@ == old(self)@.set_direction(dir),
            run@ == PlanModel::start(direction_plan(dir)),
    {
        self.direction = dir;
        let mut plan: Vec<Action> = Vec::new();
        plan.push(Action::Write(Pin::Direction, dir.pin_level()));
        assert(plan@ =~= direction_plan(dir));
        PlanRun::new(plan)
    }

    /// Emits one pulse: the step pin goes high, stays so for `pulse_width`
    /// microseconds, goes low and stays so for as long. The run ends in a
    /// hardware fault at the first write that fails, with the rest undone.
    pub fn step(&self, pulse_width: u32) -> (run: PlanRun)
        ensures
            run@ == PlanModel::start(pulse_plan(pulse_width)),
    {
        let mut plan: Vec<Action> = Vec::new();
        plan.push(Action::Write(Pin::Step, true));
        plan.push(Action::Hold(pulse_width));
        plan.push(Action::Write(Pin::Step, false));
        plan.push(Action::Hold(pulse_width));
        assert(plan@ =~= pulse_plan(pulse_width));
        PlanRun::new(plan)
    }

    /// Starts a move of `steps` steps.
    pub fn drive(&self, steps: u32, pulse_width: u32, accel: u64, max_sps: u64) -> (session:
        DriveSession)
        ensures
            session@ == SessionModel::begin(
                (MotionCommand { steps, pulse_width, accel, max_sps }),
                self@.step_tick_hz,
                self@.accel_tick_hz,
            ),
    {
        DriveSession::begin(
            MotionCommand { steps, pulse_width, accel, max_sps },
            self.step_tick_hz,
            self.accel_tick_hz,
        )
    }
}

/// Setting a direction touches the direction pin and nothing else, once.
/// Setting the same direction again is no change at the pin: whatever level
/// the pin had, once the first write went through the second leaves it
/// where it is, whether it goes through or not; and the facade stays as it
/// is.
pub proof fn lemma_set_direction_twice(
    motor: MotorModel,
    direction: StepperDirection,
    level: bool,
    ok: bool,
)
    ensures
        direction_plan(direction).len() == 1,
        direction_plan(direction)[0] == Action::Write(Pin::Direction, direction.level()),
        motor.set_direction(direction).set_direction(direction) == motor.set_direction(direction),
        ({
            let first = level_after(Pin::Direction, level, direction_plan(direction)[0], true);
            &&& first == direction.level()
            &&& level_after(Pin::Direction, first, direction_plan(direction)[0], ok) == first
        }),
        forall|step_level: bool, went: bool| #[trigger]
            level_after(Pin::Step, step_level, direction_plan(direction)[0], went) == step_level,
{
}

/// A pulse that goes through leaves the step pin low after having raised it
/// once, and leaves the direction pin as it was.
pub proof fn lemma_pulse_levels(pulse_width: u32, step_level: bool, direction_level: bool)
    ensures
        ({
            let plan = pulse_plan(pulse_width);
            let raised = level_after(Pin::Step, step_level, plan[0], true);
            let held = level_after(Pin::Step, raised, plan[1], true);
            let lowered = level_after(Pin::Step, held, plan[2], true);
            &&& plan.len() == 4
            &&& raised && held && !lowered
            &&& !level_after(Pin::Step, lowered, plan[3], true)
            &&& forall|i: int, level: bool, ok: bool|
                0 <= i < 4 ==> #[trigger] level_after(Pin::Direction, level, plan[i], ok) == level
        }),
{
}

} // verus!

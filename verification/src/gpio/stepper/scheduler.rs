//! The motion scheduler: speed and phase over the life of one move.

use crate::gpio::stepper::{DriveError, MotionCommand, MotionPhase, StepperState};
use vstd::prelude::*;

verus! {

/// What wakes the scheduler.
#[derive(Clone, Copy, Debug, PartialEq, Eq, Structural)]
pub enum SchedulerEvent {
    /// The Acceleration Clock fired.
    Wake,
    /// The drive loop sent a message.
    Message(StepperState),
    /// The drive loop hung up: the move is over.
    Disconnected,
}

/// What the scheduler waits for next.
#[derive(Clone, Copy, Debug, PartialEq, Eq, Structural)]
pub enum Awaited {
    /// The next fire of the Acceleration Clock.
    Wake,
    /// The next message of the drive loop; the Acceleration Clock is paused.
    Message,
    /// Nothing any more: the scheduler has ended.
    Nothing,
}

/// What the owner of the clocks has to do after an event.
#[derive(Clone, Copy, Debug, PartialEq, Eq)]
pub struct SchedulerOutput {
    /// New period of the Step Clock, in timer ticks.
    pub step_period: Option<u64>,
    /// Pause (`false`) or resume (`true`) the Acceleration Clock.
    pub accel_clock: Option<bool>,
    /// New step count at which the drive loop starts to decelerate.
    pub start_decel: Option<u32>,
}

/// The scheduler as a mathematical value.
pub struct SchedulerModel {
    pub phase: MotionPhase,
    pub current_sps: nat,
    pub max_sps: nat,
    pub steps: nat,
    /// Step count last reported by the drive loop.
    pub observed_step: nat,
    /// Ticks per second of the Step Clock.
    pub tick_hz: nat,
    /// The Acceleration Clock has been paused for the plateau.
    pub paused: bool,
    /// The drive loop has hung up and the scheduler has ended.
    pub stopped: bool,
}

impl SchedulerModel {
    pub open spec fn wf(self) -> bool {
        &&& 1 <= self.current_sps <= self.max_sps <= u64::MAX
        &&& self.observed_step <= self.steps <= u32::MAX
        &&& self.tick_hz <= u64::MAX
        &&& self.paused ==> self.phase == MotionPhase::Constant
    }

    /// A move starts accelerating from one step per second.
    pub open spec fn initial(steps: nat, max_sps: nat, tick_hz: nat) -> SchedulerModel {
        SchedulerModel {
            phase: MotionPhase::Accelerating,
            current_sps: 1,
            max_sps,
            steps,
            observed_step: 0,
            tick_hz,
            paused: false,
            stopped: false,
        }
    }

    /// Period of the Step Clock at the current speed.
    pub open spec fn step_period(self) -> nat {
        self.tick_hz / self.current_sps
    }

    /// State after a fire of the Acceleration Clock.
    pub open spec fn wake(self) -> SchedulerModel {
        match self.phase {
            MotionPhase::Accelerating => if self.current_sps + 1 >= self.max_sps {
                SchedulerModel { phase: MotionPhase::Constant, current_sps: self.max_sps, ..self }
            } else {
                SchedulerModel { current_sps: self.current_sps + 1, ..self }
            },
            MotionPhase::Constant => SchedulerModel { paused: true, ..self },
            MotionPhase::Decelerating => if self.current_sps > 1 {
                SchedulerModel { current_sps: (self.current_sps - 1) as nat, ..self }
            } else {
                self
            },
        }
    }

    /// State after a message of the drive loop. The phase never moves back,
    /// and a step report beyond the end of the move is dropped.
    pub open spec fn receive(self, message: StepperState) -> SchedulerModel {
        match message {
            StepperState::Accelerating => self,
            StepperState::Constant => if self.phase == MotionPhase::Accelerating {
                SchedulerModel { phase: MotionPhase::Constant, ..self }
            } else {
                self
            },
            StepperState::Decelerating => SchedulerModel {
                phase: MotionPhase::Decelerating,
                paused: false,
                ..self
            },
            StepperState::CurrentStep(step) => if step <= self.steps {
                SchedulerModel { observed_step: step as nat, ..self }
            } else {
                self
            },
        }
    }

    /// State after an event. Once the drive loop has hung up the scheduler
    /// has ended, and no event changes it any more.
    pub open spec fn next(self, event: SchedulerEvent) -> SchedulerModel {
        if self.stopped {
            self
        } else {
            match event {
                SchedulerEvent::Wake => self.wake(),
                SchedulerEvent::Message(message) => self.receive(message),
                SchedulerEvent::Disconnected => SchedulerModel { stopped: true, ..self },
            }
        }
    }

    /// What an event asks of the clocks and of the drive loop: the Step Clock
    /// is reprogrammed when the speed changed, the Acceleration Clock is
    /// paused at the first fire on the plateau and resumed when the plateau
    /// ends, and the deceleration point is moved when the top speed was
    /// reached by acceleration.
    pub open spec fn output(self, event: SchedulerEvent) -> SchedulerOutput {
        let after = self.next(event);
        SchedulerOutput {
            step_period: if after.current_sps != self.current_sps {
                Some(after.step_period() as u64)
            } else {
                None
            },
            accel_clock: if after.paused != self.paused {
                Some(!after.paused)
            } else {
                None
            },
            start_decel: if event == SchedulerEvent::Wake && self.phase
                == MotionPhase::Accelerating && after.phase == MotionPhase::Constant {
                Some((self.steps - self.observed_step) as u32)
            } else {
                None
            },
        }
    }

    pub open spec fn awaited(self) -> Awaited {
        if self.stopped {
            Awaited::Nothing
        } else if self.paused {
            Awaited::Message
        } else {
            Awaited::Wake
        }
    }

    /// State after a series of events, the first of them first.
    pub open spec fn run(self, events: Seq<SchedulerEvent>) -> SchedulerModel
        decreases events.len(),
    {
        if events.len() == 0 {
            self
        } else {
            self.run(events.drop_last()).next(events.last())
        }
    }
}

/// The motion scheduler of one move.
#[derive(Clone, Copy, Debug, PartialEq, Eq)]
pub struct MotionScheduler {
    phase: MotionPhase,
    current_sps: u64,
    max_sps: u64,
    steps: u32,
    observed_step: u32,
    tick_hz: u64,
    paused: bool,
    stopped: bool,
}

impl View for MotionScheduler {
    type V = SchedulerModel;

    closed spec fn view(&self) -> SchedulerModel {
        SchedulerModel {
            phase: self.phase,
            current_sps: self.current_sps as nat,
            max_sps: self.max_sps as nat,
            steps: self.steps as nat,
            observed_step: self.observed_step as nat,
            tick_hz: self.tick_hz as nat,
            paused: self.paused,
            stopped: self.stopped,
        }
    }
}

impl MotionScheduler {
    #[verifier::type_invariant]
    pub closed spec fn inv(&self) -> bool {
        self@.wf()
    }

    /// The scheduler at the start of a move, for a Step Clock that counts
    /// `tick_hz` ticks per second.
    pub fn new(command: &MotionCommand, tick_hz: u64) -> (made: Result<MotionScheduler, DriveError>)
        ensures
            command.valid() ==> made is Ok && made->Ok_0@ == SchedulerModel::initial(
                command.steps as nat,
                command.max_sps as nat,
                tick_hz as nat,
            ),
            !command.valid() ==> made == Err::<MotionScheduler, DriveError>(
                DriveError::InvalidCommand,
            ),
    {
        match command.validate() {
            Err(e) => Err(e),
            Ok(()) => Ok(
                MotionScheduler {
                    phase: MotionPhase::Accelerating,
                    current_sps: 1,
                    max_sps: command.max_sps,
                    steps: command.steps,
                    observed_step: 0,
                    tick_hz,
                    paused: false,
                    stopped: false,
                },
            ),
        }
    }

    pub fn phase(&self) -> (phase: MotionPhase)
        ensures
            phase == self@.phase,
    {
        self.phase
    }

    pub fn current_sps(&self) -> (sps: u64)
        ensures
            sps == self@.current_sps,
            1 <= sps <= self@.max_sps,
    {
        proof {
            use_type_invariant(self);
        }
        self.current_sps
    }

    pub fn awaits(&self) -> (awaited: Awaited)
        ensures
            awaited == self@.awaited(),
    {
        if self.stopped {
            Awaited::Nothing
        } else if self.paused {
            Awaited::Message
        } else {
            Awaited::Wake
        }
    }

    fn wake(&mut self) -> (out: SchedulerOutput)
        requires
            !old(self)@.stopped,
        ensures
            final(self)@ == old(self)@.wake(),
            out == old(self)@.output(SchedulerEvent::Wake),
    {
        proof {
            use_type_invariant(&*self);
        }
        let before: u64 = self.current_sps;
        let mut start_decel: Option<u32> = None;
        let mut accel_clock: Option<bool> = None;
        match self.phase {
            MotionPhase::Accelerating => {
                if self.current_sps < self.max_sps {
                    self.current_sps = self.current_sps + 1;
                }
                if self.current_sps >= self.max_sps {
                    self.phase = MotionPhase::Constant;
                    start_decel = Some(self.steps - self.observed_step);
                }
            },
            MotionPhase::Constant => {
                if !self.paused {
                    accel_clock = Some(false);
                }
                self.paused = true;
            },
            MotionPhase::Decelerating => {
                if self.current_sps > 1 {
                    self.current_sps = self.current_sps - 1;
                }
            },
        }
        let step_period: Option<u64> = if self.current_sps != before {
            Some(self.tick_hz / self.current_sps)
        } else {
            None
        };
        SchedulerOutput { step_period, accel_clock, start_decel }
    }

    fn receive(&mut self, message: StepperState) -> (out: SchedulerOutput)
        requires
            !old(self)@.stopped,
        ensures
            final(self)@ == old(self)@.receive(message),
            out == old(self)@.output(SchedulerEvent::Message(message)),
    {
        proof {
            use_type_invariant(&*self);
        }
        let mut accel_clock: Option<bool> = None;
        match message {
            StepperState::Accelerating => {},
            StepperState::Constant => {
                if self.phase == MotionPhase::Accelerating {
                    self.phase = MotionPhase::Constant;
                }
            },
            StepperState::Decelerating => {
                if self.paused {
                    accel_clock = Some(true);
                }
                self.paused = false;
                self.phase = MotionPhase::Decelerating;
            },
            StepperState::CurrentStep(step) => {
                if step <= self.steps {
                    self.observed_step = step;
                }
            },
        }
        SchedulerOutput { step_period: None, accel_clock, start_decel: None }
    }

    /// Takes one event and says what to do about it.
    pub fn handle(&mut self, event: SchedulerEvent) -> (out: SchedulerOutput)
        ensures
            final(self)@ == old(self)@.next(event),
            out == old(self)@.output(event),
    {
        if self.stopped {
            return SchedulerOutput { step_period: None, accel_clock: None, start_decel: None };
        }
        match event {
            SchedulerEvent::Wake => self.wake(),
            SchedulerEvent::Message(message) => self.receive(message),
            SchedulerEvent::Disconnected => {
                proof {
                    use_type_invariant(&*self);
                }
                self.stopped = true;
                SchedulerOutput { step_period: None, accel_clock: None, start_decel: None }
            },
        }
    }
}

/// The speed stays between one step per second and the ceiling of the
/// command, whatever happens.
pub proof fn lemma_next_wf(scheduler: SchedulerModel, event: SchedulerEvent)
    requires
        scheduler.wf(),
    ensures
        scheduler.next(event).wf(),
{
}

/// A scheduler that has ended stays as it is and asks for nothing, and only
/// the hang-up of the drive loop ends a scheduler.
pub proof fn lemma_stopped(scheduler: SchedulerModel, event: SchedulerEvent)
    ensures
        scheduler.stopped ==> scheduler.next(event) == scheduler && scheduler.output(event) == (
        SchedulerOutput { step_period: None, accel_clock: None, start_decel: None }),
        scheduler.next(event).stopped <==> scheduler.stopped || event
            == SchedulerEvent::Disconnected,
{
}

/// The phase only moves on, from accelerating over constant to decelerating,
/// and the command and the rate of the clock stay what they were.
pub proof fn lemma_phase_moves_on(scheduler: SchedulerModel, event: SchedulerEvent)
    requires
        scheduler.wf(),
    ensures
        scheduler.next(event).phase.rank() >= scheduler.phase.rank(),
        scheduler.next(event).max_sps == scheduler.max_sps,
        scheduler.next(event).steps == scheduler.steps,
        scheduler.next(event).tick_hz == scheduler.tick_hz,
{
}

/// The deceleration point is moved exactly when a fire of the clock takes an
/// accelerating scheduler to its top speed, and the new point is as far from
/// the end of the move as the drive loop was from its start.
pub proof fn lemma_decel_point(scheduler: SchedulerModel, event: SchedulerEvent)
    requires
        scheduler.wf(),
    ensures
        scheduler.output(event).start_decel is Some <==> {
            &&& !scheduler.stopped
            &&& event == SchedulerEvent::Wake
            &&& scheduler.phase == MotionPhase::Accelerating
            &&& scheduler.current_sps + 1 >= scheduler.max_sps
        },
        scheduler.output(event).start_decel matches Some(point) ==> {
            &&& point + scheduler.observed_step == scheduler.steps
            &&& scheduler.next(event).phase == MotionPhase::Constant
            &&& scheduler.next(event).current_sps == scheduler.max_sps
        },
{
}

/// While the phase is accelerating the speed does not drop and does not pass
/// the ceiling: an event that finds the scheduler accelerating leaves it at
/// the same speed or a higher one.
pub proof fn lemma_accelerating_speed(scheduler: SchedulerModel, event: SchedulerEvent)
    requires
        scheduler.wf(),
        scheduler.phase == MotionPhase::Accelerating,
    ensures
        scheduler.current_sps <= scheduler.next(event).current_sps <= scheduler.max_sps,
{
}

/// Once the phase is decelerating it stays so, and the speed does not rise
/// and does not fall below one step per second.
pub proof fn lemma_decelerating_speed(scheduler: SchedulerModel, event: SchedulerEvent)
    requires
        scheduler.wf(),
        scheduler.phase == MotionPhase::Decelerating,
    ensures
        scheduler.next(event).phase == MotionPhase::Decelerating,
        1 <= scheduler.next(event).current_sps <= scheduler.current_sps,
{
}

/// Over any series of events: the scheduler stays well formed and the phase
/// only moves on; if it is still accelerating at the end, the speed has not
/// dropped on the way; if it was decelerating at the start, it still is and
/// the speed has not risen.
pub proof fn lemma_run(scheduler: SchedulerModel, events: Seq<SchedulerEvent>)
    requires
        scheduler.wf(),
    ensures
        scheduler.run(events).wf(),
        scheduler.run(events).max_sps == scheduler.max_sps,
        scheduler.run(events).phase.rank() >= scheduler.phase.rank(),
        scheduler.run(events).phase == MotionPhase::Accelerating ==> scheduler.current_sps
            <= scheduler.run(events).current_sps,
        scheduler.phase == MotionPhase::Decelerating ==> scheduler.run(events).current_sps
            <= scheduler.current_sps,
    decreases events.len(),
{
    if events.len() > 0 {
        let before = scheduler.run(events.drop_last());
        lemma_run(scheduler, events.drop_last());
        lemma_next_wf(before, events.last());
        lemma_phase_moves_on(before, events.last());
        if before.phase == MotionPhase::Accelerating {
            lemma_accelerating_speed(before, events.last());
        }
        if before.phase == MotionPhase::Decelerating {
            lemma_decelerating_speed(before, events.last());
        }
    }
}

} // verus!

//! The drive loop: one pulse per wake-up of the Step Clock, counted.

use crate::gpio::stepper::{StepperState, RAMP_DIVISOR};
use vstd::prelude::*;

verus! {

/// Step count at which acceleration ends: a fifth of the move, rounded down.
pub open spec fn stop_accel(steps: nat) -> nat {
    steps / (RAMP_DIVISOR as nat)
}

/// Step count at which deceleration starts, as long as the scheduler has not
/// moved it: as far from the end as acceleration reaches from the start.
pub open spec fn start_decel(steps: nat) -> nat {
    (steps - stop_accel(steps)) as nat
}

/// The drive loop as a mathematical value.
pub struct DriveLoopModel {
    pub steps: nat,
    pub current_step: nat,
    pub start_decel: nat,
}

impl DriveLoopModel {
    pub open spec fn wf(self) -> bool {
        &&& self.current_step <= self.steps <= u32::MAX
        &&& self.start_decel <= u32::MAX
    }

    pub open spec fn initial(steps: nat) -> DriveLoopModel {
        DriveLoopModel { steps, current_step: 0, start_decel: start_decel(steps) }
    }

    /// The move is complete exactly when every step has been pulsed.
    pub open spec fn complete(self) -> bool {
        self.current_step == self.steps
    }

    /// State after one more pulse. A complete move takes no further pulse.
    pub open spec fn pulse(self) -> DriveLoopModel {
        if self.complete() {
            self
        } else {
            DriveLoopModel { current_step: self.current_step + 1, ..self }
        }
    }

    /// What the scheduler is told at the current step count.
    pub open spec fn message(self) -> StepperState {
        if self.current_step == stop_accel(self.steps) {
            StepperState::Constant
        } else if self.current_step == self.start_decel {
            StepperState::Decelerating
        } else {
            StepperState::CurrentStep(self.current_step as u32)
        }
    }

    /// What one more pulse makes the drive loop send: nothing once the move
    /// is complete.
    pub open spec fn report(self) -> Option<StepperState> {
        if self.pulse().complete() {
            None
        } else {
            Some(self.pulse().message())
        }
    }

    /// State after the scheduler moved the deceleration point.
    pub open spec fn retarget(self, start_decel: nat) -> DriveLoopModel {
        DriveLoopModel { start_decel, ..self }
    }

    /// State after `count` pulses.
    pub open spec fn pulses(self, count: nat) -> DriveLoopModel
        decreases count,
    {
        if count == 0 {
            self
        } else {
            self.pulses((count - 1) as nat).pulse()
        }
    }
}

/// The step counter of one move and the two step counts it watches for.
#[derive(Clone, Copy, Debug, PartialEq, Eq)]
pub struct DriveLoop {
    steps: u32,
    current_step: u32,
    stop_accel: u32,
    start_decel: u32,
}

impl View for DriveLoop {
    type V = DriveLoopModel;

    closed spec fn view(&self) -> DriveLoopModel {
        DriveLoopModel {
            steps: self.steps as nat,
            current_step: self.current_step as nat,
            start_decel: self.start_decel as nat,
        }
    }
}

impl DriveLoop {
    #[verifier::type_invariant]
    pub closed spec fn inv(&self) -> bool {
        &&& self@.wf()
        &&& self.stop_accel == stop_accel(self.steps as nat)
    }

    pub fn new(steps: u32) -> (made: DriveLoop)
        ensures
            made@ == DriveLoopModel::initial(steps as nat),
    {
        let stop_accel: u32 = steps / RAMP_DIVISOR;
        DriveLoop { steps, current_step: 0, stop_accel, start_decel: steps - stop_accel }
    }

    pub fn steps(&self) -> (steps: u32)
        ensures
            steps == self@.steps,
    {
        self.steps
    }

    pub fn current_step(&self) -> (step: u32)
        ensures
            step == self@.current_step,
            step <= self@.steps,
    {
        proof {
            use_type_invariant(self);
        }
        self.current_step
    }

    pub fn stop_accel(&self) -> (step: u32)
        ensures
            step == stop_accel(self@.steps),
    {
        proof {
            use_type_invariant(self);
        }
        self.stop_accel
    }

    pub fn start_decel(&self) -> (step: u32)
        ensures
            step == self@.start_decel,
    {
        self.start_decel
    }

    pub fn is_complete(&self) -> (complete: bool)
        ensures
            complete == self@.complete(),
    {
        self.current_step == self.steps
    }

    /// Counts the pulse that was just emitted and says what to tell the
    /// scheduler about it.
    pub fn on_pulse(&mut self) -> (message: Option<StepperState>)
        ensures
            final(self)@ == old(self)@.pulse(),
            message == old(self)@.report(),
    {
        proof {
            use_type_invariant(&*self);
        }
        if self.current_step == self.steps {
            return None;
        }
        self.current_step = self.current_step + 1;
        if self.current_step == self.steps {
            None
        } else if self.current_step == self.stop_accel {
            Some(StepperState::Constant)
        } else if self.current_step == self.start_decel {
            Some(StepperState::Decelerating)
        } else {
            Some(StepperState::CurrentStep(self.current_step))
        }
    }

    /// Adopts the deceleration point the scheduler computed.
    pub fn set_start_decel(&mut self, start_decel: u32)
        ensures
            final(self)@ == old(self)@.retarget(start_decel as nat),
    {
        proof {
            use_type_invariant(&*self);
        }
        self.start_decel = start_decel;
    }
}

/// Every pulse advances the step count by exactly one until the count of the
/// command is reached, and not beyond it.
pub proof fn lemma_pulses_count(drive_loop: DriveLoopModel, count: nat)
    requires
        drive_loop.wf(),
    ensures
        drive_loop.pulses(count).wf(),
        drive_loop.pulses(count).steps == drive_loop.steps,
        drive_loop.pulses(count).start_decel == drive_loop.start_decel,
        drive_loop.pulses(count).current_step == if drive_loop.current_step + count
            <= drive_loop.steps {
            drive_loop.current_step + count
        } else {
            drive_loop.steps
        },
    decreases count,
{
    if count > 0 {
        lemma_pulses_count(drive_loop, (count - 1) as nat);
    }
}

/// A move of `steps` steps is complete after `steps` pulses and not before.
pub proof fn lemma_move_completes(steps: nat, count: nat)
    requires
        steps <= u32::MAX,
    ensures
        DriveLoopModel::initial(steps).pulses(count).complete() <==> count >= steps,
{
    lemma_pulses_count(DriveLoopModel::initial(steps), count);
}

/// What the drive loop sends: nothing exactly when the pulse completed the
/// move; a step report carries the new count, which is short of the end; and
/// it never asks the scheduler to accelerate again.
pub proof fn lemma_report(drive_loop: DriveLoopModel)
    requires
        drive_loop.wf(),
    ensures
        drive_loop.report() is None <==> drive_loop.pulse().complete(),
        drive_loop.report() matches Some(StepperState::CurrentStep(step)) ==> step
            == drive_loop.current_step + 1 && step < drive_loop.steps,
        drive_loop.report() != Some(StepperState::Accelerating),
{
}

} // verus!

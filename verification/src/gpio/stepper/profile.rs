//! The speed profile of a move: the drive loop and the scheduler taken
//! together.
//!
//! The two run on threads of their own and talk through queues. Here each
//! message of the drive loop, and each deceleration point of the scheduler,
//! is taken to arrive before the next pulse or the next fire of the
//! Acceleration Clock.

use crate::gpio::stepper::drive_loop::{start_decel, stop_accel, DriveLoopModel};
use crate::gpio::stepper::scheduler::{SchedulerEvent, SchedulerModel};
use crate::gpio::stepper::{MotionPhase, RAMP_DIVISOR};
use vstd::prelude::*;

verus! {

/// What happens in the course of a move.
pub enum MoveEvent {
    /// The Step Clock fired and a pulse was emitted.
    Pulse,
    /// The Acceleration Clock fired.
    Wake,
}

/// The drive loop and the scheduler of one move.
pub struct MoveModel {
    pub drive_loop: DriveLoopModel,
    pub scheduler: SchedulerModel,
}

impl MoveModel {
    pub open spec fn initial(steps: nat, max_sps: nat, tick_hz: nat) -> MoveModel {
        MoveModel {
            drive_loop: DriveLoopModel::initial(steps),
            scheduler: SchedulerModel::initial(steps, max_sps, tick_hz),
        }
    }

    /// State after a pulse: the drive loop counts it, and the scheduler takes
    /// the message that the drive loop sends about it.
    pub open spec fn pulse(self) -> MoveModel {
        MoveModel {
            drive_loop: self.drive_loop.pulse(),
            scheduler: match self.drive_loop.report() {
                Some(message) => self.scheduler.next(SchedulerEvent::Message(message)),
                None => self.scheduler,
            },
        }
    }

    /// State after a fire of the Acceleration Clock: the scheduler takes it,
    /// and the drive loop adopts the deceleration point if one comes of it.
    pub open spec fn wake(self) -> MoveModel {
        MoveModel {
            drive_loop: match self.scheduler.output(SchedulerEvent::Wake).start_decel {
                Some(point) => self.drive_loop.retarget(point as nat),
                None => self.drive_loop,
            },
            scheduler: self.scheduler.next(SchedulerEvent::Wake),
        }
    }

    pub open spec fn next(self, event: MoveEvent) -> MoveModel {
        match event {
            MoveEvent::Pulse => self.pulse(),
            MoveEvent::Wake => self.wake(),
        }
    }

    /// State after a series of events, the first of them first.
    pub open spec fn run(self, events: Seq<MoveEvent>) -> MoveModel
        decreases events.len(),
    {
        if events.len() == 0 {
            self
        } else {
            self.run(events.drop_last()).next(events.last())
        }
    }

    /// The deceleration point is where the command put it: the scheduler has
    /// not moved it.
    pub open spec fn unmoved(self) -> bool {
        self.drive_loop.start_decel == start_decel(self.drive_loop.steps)
    }

    /// The phase stands where the step count puts it on the trapezoid. The
    /// move accelerates only before the end of the first ramp and only below
    /// top speed; it holds its speed only before the deceleration point; it
    /// decelerates only from that point on. The deceleration point is never
    /// earlier than the command put it, and where it is unmoved, the plateau
    /// starts no earlier than the first ramp ends.
    pub open spec fn on_profile(self) -> bool {
        let steps = self.drive_loop.steps;
        let step = self.drive_loop.current_step;
        let point = self.drive_loop.start_decel;
        &&& self.drive_loop.wf()
        &&& self.scheduler.wf()
        &&& !self.scheduler.stopped
        &&& self.scheduler.steps == steps
        &&& stop_accel(steps) >= 1
        &&& start_decel(steps) <= point <= steps
        &&& match self.scheduler.phase {
            MotionPhase::Accelerating => {
                &&& step < stop_accel(steps)
                &&& self.scheduler.observed_step == step
                &&& self.unmoved()
                &&& self.scheduler.current_sps < self.scheduler.max_sps
                    || self.scheduler.max_sps == 1
            },
            MotionPhase::Constant => {
                &&& step < point || self.drive_loop.complete()
                &&& self.unmoved() ==> step >= stop_accel(steps)
            },
            MotionPhase::Decelerating => step >= point,
        }
    }
}

/// A move stays on its profile from one event to the next.
pub proof fn lemma_next(state: MoveModel, event: MoveEvent)
    requires
        state.on_profile(),
    ensures
        state.next(event).on_profile(),
        state.next(event).drive_loop.steps == state.drive_loop.steps,
        state.next(event).drive_loop.start_decel >= state.drive_loop.start_decel,
{
    let steps = state.drive_loop.steps;
    assert(2 * stop_accel(steps) < steps);
}

/// The profile of a move of at least five steps, over any series of pulses
/// and fires of the Acceleration Clock: the move is on its profile
/// throughout. As long as top speed has not been reached before the end of
/// the first ramp, so that the deceleration point is unmoved, the phase is
/// a function of the step count alone: accelerating before the first ramp
/// ends, constant from there to the deceleration point, decelerating from
/// that point on.
pub proof fn lemma_profile(steps: nat, max_sps: nat, tick_hz: nat, events: Seq<MoveEvent>)
    requires
        RAMP_DIVISOR <= steps <= u32::MAX,
        1 <= max_sps <= u64::MAX,
        tick_hz <= u64::MAX,
    ensures
        ({
            let state = MoveModel::initial(steps, max_sps, tick_hz).run(events);
            let step = state.drive_loop.current_step;
            let phase = state.scheduler.phase;
            &&& state.on_profile()
            &&& state.drive_loop.steps == steps
            &&& state.unmoved() ==> {
                &&& phase == MotionPhase::Accelerating <==> step < stop_accel(steps)
                &&& phase == MotionPhase::Constant <==> stop_accel(steps) <= step < start_decel(
                    steps,
                )
                &&& phase == MotionPhase::Decelerating <==> start_decel(steps) <= step
            }
        }),
    decreases events.len(),
{
    let start = MoveModel::initial(steps, max_sps, tick_hz);
    assert(2 * stop_accel(steps) < steps);
    if events.len() > 0 {
        lemma_profile(steps, max_sps, tick_hz, events.drop_last());
        lemma_next(start.run(events.drop_last()), events.last());
    }
}

/// The profile of a move of a hundred steps: the first ramp ends at step 20
/// and the second starts at step 80, and unless top speed is reached before
/// step 20, the pulses up to the twentieth are emitted accelerating, those
/// up to the eightieth at constant speed and the rest decelerating.
pub proof fn lemma_profile_of_a_hundred_steps(
    max_sps: nat,
    tick_hz: nat,
    events: Seq<MoveEvent>,
)
    requires
        1 <= max_sps <= u64::MAX,
        tick_hz <= u64::MAX,
    ensures
        stop_accel(100) == 20,
        start_decel(100) == 80,
        ({
            let state = MoveModel::initial(100, max_sps, tick_hz).run(events);
            let pulse = state.drive_loop.current_step + 1;
            let phase = state.scheduler.phase;
            &&& phase == MotionPhase::Accelerating ==> pulse <= 20
            &&& state.drive_loop.start_decel == 80 && pulse <= 100 ==> {
                &&& pulse <= 20 <==> phase == MotionPhase::Accelerating
                &&& 20 < pulse <= 80 <==> phase == MotionPhase::Constant
                &&& 80 < pulse <==> phase == MotionPhase::Decelerating
            }
            &&& state.drive_loop.start_decel >= 80
        }),
{
    lemma_profile(100, max_sps, tick_hz, events);
}

} // verus!

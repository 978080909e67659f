//! One move from the facade's side: arm both clocks, start the scheduler,
//! pulse until the count is reached, tear both clocks down, return.
//!
//! The session owns no hardware. It names the action that is due, is told
//! whether the action went through, and moves on.

use crate::gpio::stepper::drive_loop::{DriveLoop, DriveLoopModel};
use crate::gpio::stepper::scheduler::{MotionScheduler, SchedulerModel};
use crate::gpio::stepper::{
    pulse_plan, Action, Clock, DriveError, MotionCommand, Pin, StepperState, GRANULARITY,
};
use vstd::prelude::*;

verus! {

/// Number of actions that arm a move with a speed ramp.
pub const ARM_LEN: u8 = 7;

/// Number of actions that arm a move without one.
pub const ARM_LEN_UNRAMPED: u8 = 4;

/// Number of actions that make one pulse.
pub const PULSE_LEN: u8 = 4;

/// Number of actions that tear a move down.
pub const TEARDOWN_LEN: u8 = 5;

/// What arms a move: each clock is subscribed, programmed and enabled, the
/// Step Clock first, and then the scheduler is started. A move without a
/// period for the Acceleration Clock leaves that clock alone.
pub open spec fn arm_plan(step_period: u64, accel_period: Option<u64>) -> Seq<Action> {
    match accel_period {
        Some(period) => seq![
            Action::Subscribe(Clock::Step),
            Action::SetPeriod(Clock::Step, step_period),
            Action::Enable(Clock::Step),
            Action::Subscribe(Clock::Acceleration),
            Action::SetPeriod(Clock::Acceleration, period),
            Action::Enable(Clock::Acceleration),
            Action::SpawnScheduler,
        ],
        None => seq![
            Action::Subscribe(Clock::Step),
            Action::SetPeriod(Clock::Step, step_period),
            Action::Enable(Clock::Step),
            Action::SpawnScheduler,
        ],
    }
}

/// What tears a move down: the scheduler is stopped, so that it no longer
/// touches a clock, and then each clock is disabled and unsubscribed.
pub open spec fn teardown_plan() -> Seq<Action> {
    seq![
        Action::StopScheduler,
        Action::Disable(Clock::Step),
        Action::Unsubscribe(Clock::Step),
        Action::Disable(Clock::Acceleration),
        Action::Unsubscribe(Clock::Acceleration),
    ]
}

/// What a session holds of one clock. A flag is raised as soon as the action
/// that could set it was tried and lowered only when the action that clears
/// it went through, so a lowered flag is certain.
#[derive(Clone, Copy, Debug, PartialEq, Eq, Structural)]
pub struct ClockState {
    pub subscribed: bool,
    pub enabled: bool,
}

impl ClockState {
    pub open spec fn idle(self) -> bool {
        !self.subscribed && !self.enabled
    }

    /// State of clock `me` after `action` was tried and went through or not.
    pub open spec fn after(self, me: Clock, action: Action, ok: bool) -> ClockState {
        match action {
            Action::Subscribe(clock) if clock == me => ClockState { subscribed: true, ..self },
            Action::Enable(clock) if clock == me => ClockState { enabled: true, ..self },
            Action::Disable(clock) if clock == me && ok => ClockState { enabled: false, ..self },
            Action::Unsubscribe(clock) if clock == me && ok => ClockState {
                subscribed: false,
                ..self
            },
            _ => self,
        }
    }

    pub fn untouched() -> (state: ClockState)
        ensures
            state.idle(),
    {
        ClockState { subscribed: false, enabled: false }
    }

    pub fn is_idle(&self) -> (idle: bool)
        ensures
            idle == self.idle(),
    {
        !self.subscribed && !self.enabled
    }

    fn record(self, me: Clock, action: Action, ok: bool) -> (state: ClockState)
        ensures
            state == self.after(me, action, ok),
    {
        match action {
            Action::Subscribe(clock) => if clock == me {
                ClockState { subscribed: true, enabled: self.enabled }
            } else {
                self
            },
            Action::Enable(clock) => if clock == me {
                ClockState { subscribed: self.subscribed, enabled: true }
            } else {
                self
            },
            Action::Disable(clock) => if clock == me && ok {
                ClockState { subscribed: self.subscribed, enabled: false }
            } else {
                self
            },
            Action::Unsubscribe(clock) => if clock == me && ok {
                ClockState { subscribed: false, enabled: self.enabled }
            } else {
                self
            },
            _ => self,
        }
    }
}

/// Where a move stands. The number is the index of the action that is due in
/// the plan of the stage.
#[derive(Clone, Copy, Debug, PartialEq, Eq, Structural)]
pub enum DriveStage {
    Arming(u8),
    AwaitingWake,
    Pulsing(u8),
    Reporting(StepperState),
    TearingDown(u8),
    Finished,
}

/// A session as a mathematical value.
pub struct SessionModel {
    pub command: MotionCommand,
    /// Ticks per second of the Step Clock.
    pub step_tick_hz: u64,
    /// Ticks per second of the Acceleration Clock.
    pub accel_tick_hz: u64,
    pub stage: DriveStage,
    pub drive_loop: DriveLoopModel,
    pub outcome: Result<(), DriveError>,
    pub step_clock: ClockState,
    pub accel_clock: ClockState,
}

impl SessionModel {
    /// Speed updates per second the command asks for.
    pub open spec fn accels_per_sec(command: MotionCommand) -> nat {
        command.accel as nat / (GRANULARITY as nat)
    }


    /// Period of the Step Clock at the start of a move: one step per second.
    pub open spec fn step_period(self) -> u64 {
        self.step_tick_hz
    }

    /// Period of the Acceleration Clock. A command that asks for no speed
    /// updates has none: its move runs at one step per second throughout.
    pub open spec fn accel_period(self) -> Option<u64> {
        if Self::accels_per_sec(self.command) > 0 {
            Some((self.accel_tick_hz as nat / Self::accels_per_sec(self.command)) as u64)
        } else {
            None
        }
    }

    /// The actions that arm this move.
    pub open spec fn arming(self) -> Seq<Action> {
        arm_plan(self.step_period(), self.accel_period())
    }

    pub open spec fn wf(self) -> bool {
        &&& self.drive_loop.wf()
        &&& self.drive_loop.steps == self.command.steps
        &&& (self.outcome == Err::<(), DriveError>(DriveError::InvalidCommand))
            == !self.command.valid()
        &&& !(self.stage is Finished) ==> self.command.valid()
        &&& match self.stage {
            DriveStage::Arming(due) => due < self.arming().len() && self.outcome is Ok
                && self.drive_loop.current_step == 0,
            DriveStage::AwaitingWake => self.outcome is Ok && !self.drive_loop.complete(),
            DriveStage::Pulsing(due) => due < PULSE_LEN && self.outcome is Ok
                && !self.drive_loop.complete(),
            DriveStage::Reporting(message) => {
                &&& self.outcome is Ok
                &&& !self.drive_loop.complete()
                &&& message matches StepperState::CurrentStep(step) ==> step
                    == self.drive_loop.current_step
            },
            DriveStage::TearingDown(due) => {
                &&& due < TEARDOWN_LEN
                &&& self.outcome is Ok ==> {
                    &&& self.drive_loop.complete()
                    &&& due >= 2 ==> !self.step_clock.enabled
                    &&& due >= 3 ==> !self.step_clock.subscribed
                    &&& due >= 4 ==> !self.accel_clock.enabled
                }
            },
            DriveStage::Finished => self.outcome is Ok ==> {
                &&& self.drive_loop.complete()
                &&& self.step_clock.idle()
                &&& self.accel_clock.idle()
            },
        }
    }

    /// A session at the start of a move. A command that is not valid is
    /// finished before it began; every other command starts to arm.
    pub open spec fn begin(
        command: MotionCommand,
        step_tick_hz: u64,
        accel_tick_hz: u64,
    ) -> SessionModel {
        SessionModel {
            command,
            step_tick_hz,
            accel_tick_hz,
            stage: if command.valid() {
                DriveStage::Arming(0)
            } else {
                DriveStage::Finished
            },
            drive_loop: DriveLoopModel::initial(command.steps as nat),
            outcome: if command.valid() {
                Ok(())
            } else {
                Err(DriveError::InvalidCommand)
            },
            step_clock: ClockState { subscribed: false, enabled: false },
            accel_clock: ClockState { subscribed: false, enabled: false },
        }
    }

    /// The action that is due.
    pub open spec fn pending(self) -> Action {
        match self.stage {
            DriveStage::Arming(due) => self.arming()[due as int],
            DriveStage::AwaitingWake => Action::AwaitWake,
            DriveStage::Pulsing(due) => pulse_plan(self.command.pulse_width)[due as int],
            DriveStage::Reporting(message) => Action::Notify(message),
            DriveStage::TearingDown(due) => teardown_plan()[due as int],
            DriveStage::Finished => Action::Finish(self.outcome),
        }
    }

    /// Stage after the action that was due went through.
    pub open spec fn stage_after_success(self) -> DriveStage {
        match self.stage {
            DriveStage::Arming(due) => if due + 1 < self.arming().len() {
                DriveStage::Arming((due + 1) as u8)
            } else {
                DriveStage::AwaitingWake
            },
            DriveStage::AwaitingWake => DriveStage::Pulsing(0),
            DriveStage::Pulsing(due) => if due + 1 < PULSE_LEN {
                DriveStage::Pulsing((due + 1) as u8)
            } else {
                match self.drive_loop.report() {
                    Some(message) => DriveStage::Reporting(message),
                    None => DriveStage::TearingDown(0),
                }
            },
            DriveStage::Reporting(_) => DriveStage::AwaitingWake,
            DriveStage::TearingDown(due) => if due + 1 < TEARDOWN_LEN {
                DriveStage::TearingDown((due + 1) as u8)
            } else {
                DriveStage::Finished
            },
            DriveStage::Finished => DriveStage::Finished,
        }
    }

    /// Stage after the action that was due failed: teardown starts at once,
    /// and a teardown that is under way goes on.
    pub open spec fn stage_after_failure(self) -> DriveStage {
        match self.stage {
            DriveStage::TearingDown(_) | DriveStage::Finished => self.stage_after_success(),
            _ => DriveStage::TearingDown(0),
        }
    }

    /// The pulse that is due is the last action of a pulse.
    pub open spec fn closes_pulse(self) -> bool {
        self.stage == DriveStage::Pulsing((PULSE_LEN - 1) as u8)
    }

    /// State after the action that was due was tried.
    pub open spec fn next(self, ok: bool) -> SessionModel {
        SessionModel {
            stage: if ok {
                self.stage_after_success()
            } else {
                self.stage_after_failure()
            },
            drive_loop: if ok && self.closes_pulse() {
                self.drive_loop.pulse()
            } else {
                self.drive_loop
            },
            outcome: if ok || self.stage is Finished {
                self.outcome
            } else {
                Err(DriveError::HardwareFault)
            },
            step_clock: self.step_clock.after(Clock::Step, self.pending(), ok),
            accel_clock: self.accel_clock.after(Clock::Acceleration, self.pending(), ok),
            ..self
        }
    }

    /// State after the scheduler moved the deceleration point.
    pub open spec fn retarget(self, start_decel: nat) -> SessionModel {
        SessionModel { drive_loop: self.drive_loop.retarget(start_decel), ..self }
    }

    /// State after a series of actions was tried, each with its outcome, the
    /// first of them first.
    pub open spec fn run(self, outcomes: Seq<bool>) -> SessionModel
        decreases outcomes.len(),
    {
        if outcomes.len() == 0 {
            self
        } else {
            self.run(outcomes.drop_last()).next(outcomes.last())
        }
    }

    /// Number of pulses that are completed over a series of actions.
    pub open spec fn pulses(self, outcomes: Seq<bool>) -> nat
        decreases outcomes.len(),
    {
        if outcomes.len() == 0 {
            0
        } else {
            let before = self.run(outcomes.drop_last());
            let closed: nat = if outcomes.last() && before.closes_pulse() {
                1
            } else {
                0
            };
            self.pulses(outcomes.drop_last()) + closed
        }
    }

    /// Number of actions that are left to a move in which every action goes
    /// through: six for each step still to go (the wait, the four actions of
    /// the pulse and the message), less the message that the last step does
    /// not send, and what is left of arming and of the teardown.
    pub open spec fn remaining(self) -> nat {
        let left = self.drive_loop.steps - self.drive_loop.current_step;
        (match self.stage {
            DriveStage::Arming(due) => (self.arming().len() - due) + 6 * left + 4,
            DriveStage::AwaitingWake => 6 * left + 4,
            DriveStage::Pulsing(due) => 6 * left + 3 - due,
            DriveStage::Reporting(_) => 6 * left + 5,
            DriveStage::TearingDown(due) => TEARDOWN_LEN - due,
            DriveStage::Finished => 0,
        }) as nat
    }
}

/// Every action of the series went through.
pub open spec fn faultless(outcomes: Seq<bool>) -> bool {
    forall|i: int| 0 <= i < outcomes.len() ==> outcomes[i]
}

/// One move of a motor, from the first clock that is armed to the result.
#[derive(Clone, Copy, Debug, PartialEq, Eq)]
pub struct DriveSession {
    command: MotionCommand,
    step_tick_hz: u64,
    accel_tick_hz: u64,
    stage: DriveStage,
    drive_loop: DriveLoop,
    outcome: Result<(), DriveError>,
    step_clock: ClockState,
    accel_clock: ClockState,
}

impl View for DriveSession {
    type V = SessionModel;

    closed spec fn view(&self) -> SessionModel {
        SessionModel {
            command: self.command,
            step_tick_hz: self.step_tick_hz,
            accel_tick_hz: self.accel_tick_hz,
            stage: self.stage,
            drive_loop: self.drive_loop@,
            outcome: self.outcome,
            step_clock: self.step_clock,
            accel_clock: self.accel_clock,
        }
    }
}

impl DriveSession {
    #[verifier::type_invariant]
    pub closed spec fn inv(&self) -> bool {
        self@.wf()
    }

    /// Starts a move on clocks that count `step_tick_hz` and `accel_tick_hz`
    /// ticks per second.
    pub fn begin(command: MotionCommand, step_tick_hz: u64, accel_tick_hz: u64) -> (made:
        DriveSession)
        ensures
            made@ == SessionModel::begin(command, step_tick_hz, accel_tick_hz),
    {
        let valid: bool = command.validate().is_ok();
        DriveSession {
            command,
            step_tick_hz,
            accel_tick_hz,
            stage: if valid {
                DriveStage::Arming(0)
            } else {
                DriveStage::Finished
            },
            drive_loop: DriveLoop::new(command.steps),
            outcome: if valid {
                Ok(())
            } else {
                Err(DriveError::InvalidCommand)
            },
            step_clock: ClockState::untouched(),
            accel_clock: ClockState::untouched(),
        }
    }

    /// The action the owner of the hardware has to perform now.
    pub fn pending(&self) -> (action: Action)
        ensures
            action == self@.pending(),
    {
        proof {
            use_type_invariant(self);
        }
        match self.stage {
            DriveStage::Arming(due) => {
                let rate: u64 = self.command.accel / GRANULARITY;
                if due == 0 {
                    Action::Subscribe(Clock::Step)
                } else if due == 1 {
                    Action::SetPeriod(Clock::Step, self.step_tick_hz)
                } else if due == 2 {
                    Action::Enable(Clock::Step)
                } else if rate == 0 {
                    Action::SpawnScheduler
                } else if due == 3 {
                    Action::Subscribe(Clock::Acceleration)
                } else if due == 4 {
                    Action::SetPeriod(Clock::Acceleration, self.accel_tick_hz / rate)
                } else if due == 5 {
                    Action::Enable(Clock::Acceleration)
                } else {
                    Action::SpawnScheduler
                }
            },
            DriveStage::AwaitingWake => Action::AwaitWake,
            DriveStage::Pulsing(due) => {
                if due == 0 {
                    Action::Write(Pin::Step, true)
                } else if due == 2 {
                    Action::Write(Pin::Step, false)
                } else {
                    Action::Hold(self.command.pulse_width)
                }
            },
            DriveStage::Reporting(message) => Action::Notify(message),
            DriveStage::TearingDown(due) => {
                if due == 0 {
                    Action::StopScheduler
                } else if due == 1 {
                    Action::Disable(Clock::Step)
                } else if due == 2 {
                    Action::Unsubscribe(Clock::Step)
                } else if due == 3 {
                    Action::Disable(Clock::Acceleration)
                } else {
                    Action::Unsubscribe(Clock::Acceleration)
                }
            },
            DriveStage::Finished => Action::Finish(self.outcome),
        }
    }

    /// Takes the outcome of the action that was due and moves on to the next.
    pub fn complete(&mut self, ok: bool)
        ensures
            final(self)@ == old(self)@.next(ok),
    {
        proof {
            use_type_invariant(&*self);
        }
        let action: Action = self.pending();
        let step_clock: ClockState = self.step_clock.record(Clock::Step, action, ok);
        let accel_clock: ClockState = self.accel_clock.record(Clock::Acceleration, action, ok);
        let arm_len: u8 = if self.command.accel / GRANULARITY > 0 {
            ARM_LEN
        } else {
            ARM_LEN_UNRAMPED
        };
        let mut drive_loop: DriveLoop = self.drive_loop;
        let mut outcome: Result<(), DriveError> = self.outcome;
        let stage: DriveStage = match self.stage {
            DriveStage::Finished => DriveStage::Finished,
            DriveStage::TearingDown(due) => {
                if !ok {
                    outcome = Err(DriveError::HardwareFault);
                }
                if due + 1 < TEARDOWN_LEN {
                    DriveStage::TearingDown(due + 1)
                } else {
                    DriveStage::Finished
                }
            },
            running => if !ok {
                outcome = Err(DriveError::HardwareFault);
                DriveStage::TearingDown(0)
            } else {
                match running {
                    DriveStage::Arming(due) => if due + 1 < arm_len {
                        DriveStage::Arming(due + 1)
                    } else {
                        DriveStage::AwaitingWake
                    },
                    DriveStage::AwaitingWake => DriveStage::Pulsing(0),
                    DriveStage::Pulsing(due) => if due + 1 < PULSE_LEN {
                        DriveStage::Pulsing(due + 1)
                    } else {
                        match drive_loop.on_pulse() {
                            Some(message) => DriveStage::Reporting(message),
                            None => DriveStage::TearingDown(0),
                        }
                    },
                    _ => DriveStage::AwaitingWake,
                }
            },
        };
        *self = DriveSession {
            command: self.command,
            step_tick_hz: self.step_tick_hz,
            accel_tick_hz: self.accel_tick_hz,
            stage,
            drive_loop,
            outcome,
            step_clock,
            accel_clock,
        };
    }

    /// Adopts the deceleration point the scheduler computed.
    pub fn set_start_decel(&mut self, start_decel: u32)
        ensures
            final(self)@ == old(self)@.retarget(start_decel as nat),
    {
        proof {
            use_type_invariant(&*self);
        }
        let mut drive_loop: DriveLoop = self.drive_loop;
        drive_loop.set_start_decel(start_decel);
        self.drive_loop = drive_loop;
    }

    /// The scheduler to start when `Action::SpawnScheduler` is due.
    pub fn scheduler(&self) -> (made: Option<MotionScheduler>)
        ensures
            self@.command.valid() ==> made is Some && made->Some_0@ == SchedulerModel::initial(
                self@.command.steps as nat,
                self@.command.max_sps as nat,
                self@.step_tick_hz as nat,
            ),
            !self@.command.valid() ==> made is None,
    {
        match MotionScheduler::new(&self.command, self.step_tick_hz) {
            Ok(scheduler) => Some(scheduler),
            Err(_) => None,
        }
    }

    pub fn is_finished(&self) -> (finished: bool)
        ensures
            finished == (self@.stage is Finished),
    {
        match self.stage {
            DriveStage::Finished => true,
            _ => false,
        }
    }

    pub fn stage(&self) -> (stage: DriveStage)
        ensures
            stage == self@.stage,
    {
        self.stage
    }

    pub fn current_step(&self) -> (step: u32)
        ensures
            step == self@.drive_loop.current_step,
            step <= self@.command.steps,
    {
        proof {
            use_type_invariant(self);
        }
        self.drive_loop.current_step()
    }

    pub fn start_decel(&self) -> (step: u32)
        ensures
            step == self@.drive_loop.start_decel,
    {
        self.drive_loop.start_decel()
    }

    pub fn step_clock(&self) -> (state: ClockState)
        ensures
            state == self@.step_clock,
    {
        self.step_clock
    }

    pub fn accel_clock(&self) -> (state: ClockState)
        ensures
            state == self@.accel_clock,
    {
        self.accel_clock
    }
}

/// One action on: the session stays well formed and keeps its command; the
/// step count rises by one exactly when the action completes a pulse; and
/// the number of actions left to the move drops, by one when the action went
/// through.
pub proof fn lemma_next(session: SessionModel, ok: bool)
    requires
        session.wf(),
    ensures
        session.next(ok).wf(),
        session.next(ok).command == session.command,
        session.next(ok).drive_loop.current_step == session.drive_loop.current_step + if ok
            && session.closes_pulse() {
            1nat
        } else {
            0nat
        },
        session.stage is Finished ==> session.next(ok) == session,
        !(session.stage is Finished) ==> session.next(ok).remaining() < session.remaining(),
        ok && !(session.stage is Finished) ==> session.next(ok).remaining() + 1
            == session.remaining(),
        ok ==> session.next(ok).outcome == session.outcome,
{
}

/// A new deceleration point changes neither the step count nor the number of
/// actions left to the move.
pub proof fn lemma_retarget(session: SessionModel, start_decel: nat)
    requires
        session.wf(),
        start_decel <= u32::MAX,
    ensures
        session.retarget(start_decel).wf(),
        session.retarget(start_decel).remaining() == session.remaining(),
        session.retarget(start_decel).pending() == session.pending(),
{
}

/// Over any series of actions, whatever their outcomes: the step count is the
/// number of pulses completed, and the move has finished once as many
/// actions were tried as were left to it. If none of them failed, the result
/// is untouched and the actions left are fewer by those performed.
pub proof fn lemma_run(session: SessionModel, outcomes: Seq<bool>)
    requires
        session.wf(),
    ensures
        session.run(outcomes).wf(),
        session.run(outcomes).command == session.command,
        session.run(outcomes).drive_loop.current_step == session.drive_loop.current_step
            + session.pulses(outcomes),
        outcomes.len() >= session.remaining() ==> session.run(outcomes).stage is Finished,
        outcomes.len() < session.remaining() ==> session.run(outcomes).remaining()
            + outcomes.len() <= session.remaining(),
        faultless(outcomes) ==> session.run(outcomes).outcome == session.outcome,
        faultless(outcomes) && outcomes.len() <= session.remaining() ==> session.run(
            outcomes,
        ).remaining() + outcomes.len() == session.remaining(),
    decreases outcomes.len(),
{
    if outcomes.len() > 0 {
        let before = session.run(outcomes.drop_last());
        lemma_run(session, outcomes.drop_last());
        lemma_next(before, outcomes.last());
        if faultless(outcomes) {
            assert(outcomes.last());
            assert forall|i: int| 0 <= i < outcomes.drop_last().len() implies outcomes.drop_last()[i] by {
                assert(outcomes[i]);
            }
        }
    }
}

/// Every valid command, on hardware that never fails, is carried out in full:
/// the move ends after the actions that arm it, six actions per step and
/// four more, in success, with as many pulses as the command has steps and
/// with both clocks disabled and unsubscribed. It has not ended before.
pub proof fn lemma_faultless_move(
    command: MotionCommand,
    step_tick_hz: u64,
    accel_tick_hz: u64,
    outcomes: Seq<bool>,
)
    requires
        command.valid(),
        faultless(outcomes),
    ensures
        ({
            let start = SessionModel::begin(command, step_tick_hz, accel_tick_hz);
            let end = start.run(outcomes);
            &&& start.remaining() == start.arming().len() + 6 * command.steps + 4
            &&& start.arming().len() == if command.accel as nat / (GRANULARITY as nat) > 0 {
                ARM_LEN
            } else {
                ARM_LEN_UNRAMPED
            }
            &&& outcomes.len() < start.remaining() ==> !(end.stage is Finished)
            &&& outcomes.len() >= start.remaining() ==> {
                &&& end.stage is Finished
                &&& end.outcome == Ok::<(), DriveError>(())
                &&& end.drive_loop.current_step == command.steps
                &&& start.pulses(outcomes) == command.steps
                &&& end.step_clock.idle()
                &&& end.accel_clock.idle()
            }
        }),
{
    let start = SessionModel::begin(command, step_tick_hz, accel_tick_hz);
    lemma_run(start, outcomes);
}

/// Only a pulse touches a pin, and it touches the step pin alone: the
/// direction pin keeps its level for the whole move. Every wait within a
/// pulse lasts the pulse width of the command.
pub proof fn lemma_pins(session: SessionModel)
    requires
        session.wf(),
    ensures
        session.pending() matches Action::Write(pin, _) ==> pin == Pin::Step
            && session.stage is Pulsing,
        session.pending() is Hold ==> session.stage is Pulsing,
        session.pending() matches Action::Hold(micros) ==> micros
            == session.command.pulse_width,
{
}

/// A failure before teardown starts the teardown at once and makes the move
/// a hardware fault.
pub proof fn lemma_fault_starts_teardown(session: SessionModel)
    requires
        session.wf(),
        !(session.stage is Finished),
        !(session.stage is TearingDown),
    ensures
        session.next(false).stage == DriveStage::TearingDown(0),
        session.next(false).outcome == Err::<(), DriveError>(DriveError::HardwareFault),
        session.next(false).drive_loop == session.drive_loop,
{
}

/// A teardown stops the scheduler, asks for both clocks to be disabled and
/// unsubscribed, and then ends the move; no failure on the way cuts it short.
/// Where all five actions go through, both clocks are left disabled and
/// unsubscribed and the result is the one the teardown began with; where one
/// fails, the result is a hardware fault.
pub proof fn lemma_teardown(session: SessionModel, outcomes: Seq<bool>)
    requires
        session.wf(),
        session.stage == DriveStage::TearingDown(0),
        outcomes.len() == TEARDOWN_LEN,
    ensures
        session.pending() == Action::StopScheduler,
        session.run(outcomes.take(1)).pending() == Action::Disable(Clock::Step),
        session.run(outcomes.take(2)).pending() == Action::Unsubscribe(Clock::Step),
        session.run(outcomes.take(3)).pending() == Action::Disable(Clock::Acceleration),
        session.run(outcomes.take(4)).pending() == Action::Unsubscribe(Clock::Acceleration),
        session.run(outcomes).pending() == Action::Finish(session.run(outcomes).outcome),
        faultless(outcomes) ==> {
            &&& session.run(outcomes).outcome == session.outcome
            &&& session.run(outcomes).step_clock.idle()
            &&& session.run(outcomes).accel_clock.idle()
        },
        !faultless(outcomes) ==> session.run(outcomes).outcome == Err::<(), DriveError>(
            DriveError::HardwareFault,
        ),
{
    let first = outcomes.take(1);
    let second = outcomes.take(2);
    let third = outcomes.take(3);
    let fourth = outcomes.take(4);
    assert(first.drop_last() =~= Seq::<bool>::empty());
    assert(second.drop_last() =~= first);
    assert(third.drop_last() =~= second);
    assert(fourth.drop_last() =~= third);
    assert(outcomes.drop_last() =~= fourth);
    assert(session.run(first.drop_last()) == session);
    let one = session.run(first);
    assert(one == session.next(outcomes[0]));
    let two = session.run(second);
    assert(two == one.next(outcomes[1]));
    let three = session.run(third);
    assert(three == two.next(outcomes[2]));
    let four = session.run(fourth);
    assert(four == three.next(outcomes[3]));
    assert(session.run(outcomes) == four.next(outcomes[4]));
}

/// A command that is not valid is refused before any hardware is touched: no
/// action but the return with `InvalidCommand` is ever due, and no clock is
/// subscribed or enabled.
pub proof fn lemma_invalid_command_refused(
    command: MotionCommand,
    step_tick_hz: u64,
    accel_tick_hz: u64,
    outcomes: Seq<bool>,
)
    requires
        !command.valid(),
    ensures
        ({
            let start = SessionModel::begin(command, step_tick_hz, accel_tick_hz);
            &&& start.wf()
            &&& start.run(outcomes) == start
            &&& start.pending() == Action::Finish(Err(DriveError::InvalidCommand))
            &&& start.step_clock.idle()
            &&& start.accel_clock.idle()
        }),
    decreases outcomes.len(),
{
    let start = SessionModel::begin(command, step_tick_hz, accel_tick_hz);
    if outcomes.len() > 0 {
        lemma_invalid_command_refused(command, step_tick_hz, accel_tick_hz, outcomes.drop_last());
        lemma_next(start, outcomes.last());
    }
}

} // verus!

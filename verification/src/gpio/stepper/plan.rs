//! A fixed series of actions, carried out one by one until the first that
//! fails.

use crate::gpio::stepper::{Action, DriveError};
use vstd::prelude::*;

verus! {

/// A run through a plan as a mathematical value.
pub struct PlanModel {
    pub plan: Seq<Action>,
    /// Number of actions that went through.
    pub done: nat,
    /// The action after those failed.
    pub failed: bool,
}

impl PlanModel {
    pub open spec fn wf(self) -> bool {
        self.done <= self.plan.len() && (self.failed ==> self.done < self.plan.len())
    }

    pub open spec fn start(plan: Seq<Action>) -> PlanModel {
        PlanModel { plan, done: 0, failed: false }
    }

    /// The run is over: an action failed, or all went through.
    pub open spec fn finished(self) -> bool {
        self.failed || self.done >= self.plan.len()
    }

    /// What the run ends in: a hardware fault where an action failed.
    pub open spec fn outcome(self) -> Result<(), DriveError> {
        if self.failed {
            Err(DriveError::HardwareFault)
        } else {
            Ok(())
        }
    }

    /// The action that is due: the next of the plan, and the return once the
    /// run is over. After a failure no further action of the plan is due.
    pub open spec fn pending(self) -> Action {
        if self.finished() {
            Action::Finish(self.outcome())
        } else {
            self.plan[self.done as int]
        }
    }

    /// State after the action that was due was tried.
    pub open spec fn next(self, ok: bool) -> PlanModel {
        if self.finished() {
            self
        } else if ok {
            PlanModel { done: self.done + 1, ..self }
        } else {
            PlanModel { failed: true, ..self }
        }
    }

    /// State after a series of actions was tried, each with its outcome, the
    /// first of them first.
    pub open spec fn run(self, outcomes: Seq<bool>) -> PlanModel
        decreases outcomes.len(),
    {
        if outcomes.len() == 0 {
            self
        } else {
            self.run(outcomes.drop_last()).next(outcomes.last())
        }
    }
}

/// A run through a plan.
#[derive(Debug, PartialEq, Eq)]
pub struct PlanRun {
    plan: Vec<Action>,
    done: usize,
    failed: bool,
}

impl View for PlanRun {
    type V = PlanModel;

    closed spec fn view(&self) -> PlanModel {
        PlanModel { plan: self.plan@, done: self.done as nat, failed: self.failed }
    }
}

impl PlanRun {
    #[verifier::type_invariant]
    pub closed spec fn inv(&self) -> bool {
        self@.wf()
    }

    pub fn new(plan: Vec<Action>) -> (run: PlanRun)
        ensures
            run@ == PlanModel::start(plan@),
    {
        PlanRun { plan, done: 0, failed: false }
    }

    /// The action the owner of the hardware has to perform now.
    pub fn pending(&self) -> (action: Action)
        ensures
            action == self@.pending(),
    {
        proof {
            use_type_invariant(self);
        }
        if self.failed {
            Action::Finish(Err(DriveError::HardwareFault))
        } else if self.done >= self.plan.len() {
            Action::Finish(Ok(()))
        } else {
            self.plan[self.done]
        }
    }

    /// Takes the outcome of the action that was due and moves on.
    pub fn complete(&mut self, ok: bool)
        ensures
            final(self)@ == old(self)@.next(ok),
    {
        proof {
            use_type_invariant(&*self);
        }
        if !self.failed && self.done < self.plan.len() {
            if ok {
                self.done = self.done + 1;
            } else {
                self.failed = true;
            }
        }
    }

    pub fn is_finished(&self) -> (finished: bool)
        ensures
            finished == self@.finished(),
    {
        self.failed || self.done >= self.plan.len()
    }
}

/// One action on: the plan stays what it is; a run that is over stays as it
/// is; an action that went through makes the next one due; an action that
/// failed ends the run in a hardware fault, with the rest of the plan left
/// undone.
pub proof fn lemma_next(run: PlanModel, ok: bool)
    requires
        run.wf(),
    ensures
        run.next(ok).wf(),
        run.next(ok).plan == run.plan,
        run.finished() ==> run.next(ok) == run,
        !run.finished() && ok ==> run.next(ok).done == run.done + 1 && !run.next(ok).failed,
        !run.finished() && !ok ==> run.next(ok).pending() == Action::Finish(
            Err(DriveError::HardwareFault),
        ) && run.next(ok).done == run.done,
{
}

/// Over any series of outcomes, a run from the start of a plan has carried
/// out the actions up to the first that failed and no other: every action
/// counted as done went through, a failed run stands at the outcome that
/// failed, and a run without a failure has done as many actions as there
/// were outcomes, or the whole plan.
pub proof fn lemma_run(plan: Seq<Action>, outcomes: Seq<bool>)
    ensures
        ({
            let end = PlanModel::start(plan).run(outcomes);
            &&& end.wf()
            &&& end.plan == plan
            &&& end.done <= outcomes.len()
            &&& forall|i: int| 0 <= i < end.done ==> outcomes[i]
            &&& end.failed ==> end.done < outcomes.len() && !outcomes[end.done as int]
            &&& !end.failed ==> end.done == if outcomes.len() <= plan.len() {
                outcomes.len()
            } else {
                plan.len()
            }
        }),
    decreases outcomes.len(),
{
    if outcomes.len() > 0 {
        let shorter = outcomes.drop_last();
        lemma_run(plan, shorter);
        let before = PlanModel::start(plan).run(shorter);
        lemma_next(before, outcomes.last());
        assert forall|i: int| 0 <= i < shorter.len() implies shorter[i] == outcomes[i] by {}
    }
}

} // verus!

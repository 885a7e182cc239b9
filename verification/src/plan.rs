//! Plans: what a trigger asks the host to do, step by step, and how the
//! visibility flag follows from the way the steps went.
//!
//! The host performs one effect at a time and reports how it went. The
//! [`Execution`] decides what comes next: the following step, the recovery
//! steps after a required step failed, or the end, at which the flag is set.
//! The flag is never written before the steps it depends on have run.

use crate::effect::{Effect, Step};
use crate::AppState;
use vstd::prelude::*;

verus! {

/// The host's work for one trigger.
#[derive(Debug, PartialEq, Eq)]
pub struct Plan {
    /// Performed in order. The first required step that fails ends them.
    pub steps: Vec<Step>,
    /// Performed in order after a required step failed, to leave the windows
    /// in a usable state. Their own failures are passed over.
    pub recovery: Vec<Step>,
    /// The visibility flag once the steps came to their end; `None` keeps it.
    pub on_success: Option<bool>,
    /// The visibility flag once a required step failed; `None` keeps it.
    pub on_failure: Option<bool>,
}

/// A plan as a value: its steps as sequences.
pub struct PlanView {
    pub steps: Seq<Step>,
    pub recovery: Seq<Step>,
    pub on_success: Option<bool>,
    pub on_failure: Option<bool>,
}

impl View for Plan {
    type V = PlanView;

    open spec fn view(&self) -> PlanView {
        PlanView {
            steps: self.steps@,
            recovery: self.recovery@,
            on_success: self.on_success,
            on_failure: self.on_failure,
        }
    }
}

/// The plan that performs `steps` and leaves the flag alone, whatever comes of
/// them.
pub open spec fn flagless(steps: Seq<Step>) -> PlanView {
    PlanView { steps, recovery: seq![], on_success: None, on_failure: None }
}

/// How far a plan has been carried out.
pub struct Cursor {
    /// Whether a required step has failed: from then on the recovery steps run.
    pub failed: bool,
    /// How many steps of the current list lie behind.
    pub index: nat,
}

impl Cursor {
    /// Before the first step.
    pub open spec fn start() -> Cursor {
        Cursor { failed: false, index: 0 }
    }
}

impl PlanView {
    /// The list that the cursor walks.
    pub open spec fn current(self, at: Cursor) -> Seq<Step> {
        if at.failed {
            self.recovery
        } else {
            self.steps
        }
    }

    /// The effect that the host is to perform next, if any is left.
    pub open spec fn pending(self, at: Cursor) -> Option<Effect> {
        if at.index < self.current(at).len() {
            Some(self.current(at)[at.index as int].effect)
        } else {
            None
        }
    }

    /// Whether a failure of the pending step ends the steps.
    pub open spec fn fatal(self, at: Cursor) -> bool {
        !at.failed && at.index < self.steps.len() && self.steps[at.index as int].required
    }

    /// The cursor after the pending effect was performed with the given
    /// success. A required step that fails hands over to the recovery steps;
    /// anything else moves on by one. With nothing pending nothing moves.
    pub open spec fn advance(self, at: Cursor, succeeded: bool) -> Cursor {
        if self.pending(at) is None {
            at
        } else if !succeeded && self.fatal(at) {
            Cursor { failed: true, index: 0 }
        } else {
            Cursor { failed: at.failed, index: at.index + 1 }
        }
    }

    /// The visibility flag once nothing is pending any more.
    pub open spec fn flag_after(self, at: Cursor, flag: bool) -> bool {
        match (if at.failed {
            self.on_failure
        } else {
            self.on_success
        }) {
            Some(value) => value,
            None => flag,
        }
    }

    /// An upper bound on the effects still to come.
    pub open spec fn remaining(self, at: Cursor) -> nat {
        if at.failed {
            (self.recovery.len() - at.index) as nat
        } else {
            (self.steps.len() - at.index + self.recovery.len() + 1) as nat
        }
    }
}

/// What the host reported of an effect: `None` for success, else the message
/// of the failure.
pub open spec fn failure_text(outcome: Result<(), String>) -> Option<Seq<char>> {
    match outcome {
        Ok(_) => None,
        Err(message) => Some(message@),
    }
}

/// A plan in execution.
pub struct Execution {
    plan: Plan,
    index: usize,
    failure: Option<String>,
}

/// An execution as a value: the plan, the place reached in it, and the
/// failure on record.
pub struct ExecutionView {
    pub plan: PlanView,
    pub at: Cursor,
    /// The message of the required step that failed.
    pub failure: Option<Seq<char>>,
}

impl ExecutionView {
    /// The execution after the host reported on the pending effect.
    pub open spec fn reported(self, outcome: Option<Seq<char>>) -> ExecutionView {
        ExecutionView {
            plan: self.plan,
            at: self.plan.advance(self.at, outcome is None),
            failure: if outcome is Some && self.plan.fatal(self.at) {
                outcome
            } else {
                self.failure
            },
        }
    }

    /// What the trigger's caller is told at the end: the failure of the
    /// required step that failed, or success.
    pub open spec fn verdict(self) -> Option<Seq<char>> {
        self.failure
    }
}

impl View for Execution {
    type V = ExecutionView;

    closed spec fn view(&self) -> ExecutionView {
        ExecutionView {
            plan: self.plan@,
            at: Cursor { failed: self.failure is Some, index: self.index as nat },
            failure: match self.failure {
                Some(message) => Some(message@),
                None => None,
            },
        }
    }
}

/// What comes next in an execution.
#[derive(Debug, PartialEq, Eq)]
pub enum Turn {
    /// The host performs the effect and reports how it went.
    Perform(Effect),
    /// Nothing is left to do; the trigger's caller gets the result.
    Finished(Result<(), String>),
}

impl Plan {
    /// A plan without recovery steps.
    pub fn new(steps: Vec<Step>, on_success: Option<bool>, on_failure: Option<bool>) -> (plan: Plan)
        ensures
            plan@ == (PlanView { steps: steps@, recovery: seq![], on_success, on_failure }),
    {
        Plan { steps, recovery: Vec::new(), on_success, on_failure }
    }
}

impl Execution {
    /// Starts `plan` at its first step.
    pub fn start(plan: Plan) -> (run: Execution)
        ensures
            run@ == (ExecutionView { plan: plan@, at: Cursor::start(), failure: None }),
    {
        Execution { plan, index: 0, failure: None }
    }

    /// The pending effect, for the host to perform. Once none is left, the
    /// visibility flag is set as the plan says for the way it went, and the
    /// result is the failure of the required step that failed, if one did. The
    /// settings are never touched.
    pub fn turn(&self, state: &mut AppState) -> (turn: Turn)
        ensures
            final(state).settings == old(state).settings,
            match self@.plan.pending(self@.at) {
                Some(effect) => turn == Turn::Perform(effect) && final(state).overlay_visible == old(
                    state,
                ).overlay_visible,
                None => turn matches Turn::Finished(result) && failure_text(result)
                    == self@.verdict() && final(state).overlay_visible == self@.plan.flag_after(
                    self@.at,
                    old(state).overlay_visible,
                ),
            },
    {
        match &self.failure {
            None => {
                if self.index < self.plan.steps.len() {
                    return Turn::Perform(self.plan.steps[self.index].effect);
                }
                match self.plan.on_success {
                    Some(value) => {
                        state.overlay_visible = value;
                    },
                    None => {},
                }
                Turn::Finished(Ok(()))
            },
            Some(message) => {
                if self.index < self.plan.recovery.len() {
                    return Turn::Perform(self.plan.recovery[self.index].effect);
                }
                match self.plan.on_failure {
                    Some(value) => {
                        state.overlay_visible = value;
                    },
                    None => {},
                }
                Turn::Finished(Err(message.clone()))
            },
        }
    }

    /// Takes the host's report on the pending effect. A report with nothing
    /// pending changes nothing.
    pub fn report(&mut self, outcome: Result<(), String>)
        ensures
            final(self)@ == (if old(self)@.plan.pending(old(self)@.at) is Some {
                old(self)@.reported(failure_text(outcome))
            } else {
                old(self)@
            }),
    {
        if self.failure.is_some() {
            if self.index < self.plan.recovery.len() {
                self.index = self.index + 1;
            }
        } else if self.index < self.plan.steps.len() {
            let required = self.plan.steps[self.index].required;
            match outcome {
                Err(message) => {
                    if required {
                        self.failure = Some(message);
                        self.index = 0;
                    } else {
                        self.index = self.index + 1;
                    }
                },
                Ok(_) => {
                    self.index = self.index + 1;
                },
            }
        }
    }
}

} // verus!

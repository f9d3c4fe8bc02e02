//! The click loop as a state machine: press, hold, release, rest, and again,
//! until the engine no longer drives it.
//!
//! The machine decides; its caller acts. Each call of [`ClickLoop::advance`]
//! names the next thing to do, and the caller comes back when it is done.

use vstd::prelude::*;
use crate::button::MouseButton;
use crate::engine::{ClickPlan, Engine, EngineState};

verus! {

/// Where a click loop stands within its cycle.
#[derive(Clone, Copy, Debug, PartialEq, Eq, Structural)]
pub enum LoopPhase {
    /// Between two cycles: the next step presses the button or ends the loop.
    AboutToPress,
    /// The press has been asked for; the hold comes next.
    Pressed,
    /// The hold has been asked for; the release comes next.
    Holding,
    /// The release has been asked for; the cycle is counted and the rest
    /// comes next.
    Released,
    /// The loop has ended and stays ended.
    Exited,
}

/// What the caller of a click loop is to do next.
#[derive(Clone, Copy, Debug, PartialEq, Eq, Structural)]
pub enum LoopAction {
    /// Press the button down.
    Press(MouseButton),
    /// Let the button go.
    Release(MouseButton),
    /// Wait for this many milliseconds.
    Sleep(u64),
    /// Leave the loop.
    Exit,
}

/// The mathematical content of a [`ClickLoop`].
pub struct LoopState {
    pub plan: ClickPlan,
    pub phase: LoopPhase,
}

impl LoopState {
    /// A loop that has not yet done anything.
    pub open spec fn fresh(plan: ClickPlan) -> LoopState {
        LoopState { plan, phase: LoopPhase::AboutToPress }
    }

    /// What the loop asks for next. Only between two cycles does it consult
    /// the engine, and there it goes on exactly if the engine still drives
    /// the run it was started for.
    pub open spec fn next_action(self, engine: EngineState) -> LoopAction {
        match self.phase {
            LoopPhase::AboutToPress => if engine.drives(self.plan.generation) {
                LoopAction::Press(self.plan.button)
            } else {
                LoopAction::Exit
            },
            LoopPhase::Pressed => LoopAction::Sleep(self.plan.press_ms),
            LoopPhase::Holding => LoopAction::Release(self.plan.button),
            LoopPhase::Released => LoopAction::Sleep(self.plan.release_ms),
            LoopPhase::Exited => LoopAction::Exit,
        }
    }

    /// Where the loop stands after asking.
    pub open spec fn next_phase(self, engine: EngineState) -> LoopPhase {
        match self.phase {
            LoopPhase::AboutToPress => if engine.drives(self.plan.generation) {
                LoopPhase::Pressed
            } else {
                LoopPhase::Exited
            },
            LoopPhase::Pressed => LoopPhase::Holding,
            LoopPhase::Holding => LoopPhase::Released,
            LoopPhase::Released => LoopPhase::AboutToPress,
            LoopPhase::Exited => LoopPhase::Exited,
        }
    }

    /// The loop after one step.
    pub open spec fn step(self, engine: EngineState) -> LoopState {
        LoopState { phase: self.next_phase(engine), ..self }
    }

    /// The engine after one step of the loop: a cycle is counted once its
    /// release has been asked for, and nothing else ever changes.
    pub open spec fn engine_step(self, engine: EngineState) -> EngineState {
        if self.phase == LoopPhase::Released {
            engine.after_cycle(self.plan.generation)
        } else {
            engine
        }
    }
}

/// One click loop, permitted by one successful start.
pub struct ClickLoop {
    plan: ClickPlan,
    phase: LoopPhase,
}

impl View for ClickLoop {
    type V = LoopState;

    closed spec fn view(&self) -> LoopState {
        LoopState { plan: self.plan, phase: self.phase }
    }
}

impl ClickLoop {
    /// The loop for a plan, about to press for the first time.
    pub fn new(plan: ClickPlan) -> (click_loop: ClickLoop)
        ensures
            click_loop@ == LoopState::fresh(plan),
    {
        ClickLoop { plan, phase: LoopPhase::AboutToPress }
    }

    /// The plan the loop was made for.
    pub fn plan(&self) -> (plan: ClickPlan)
        ensures
            plan == self@.plan,
    {
        self.plan
    }

    /// Where the loop stands within its cycle.
    pub fn phase(&self) -> (phase: LoopPhase)
        ensures
            phase == self@.phase,
    {
        self.phase
    }

    /// Takes one step and names what the caller is to do next.
    ///
    /// `_delivered` tells whether the press or release asked for by the
    /// previous step reached the device. The loop takes note of nothing else
    /// from its caller, and not even this changes its course: a failed press
    /// or release is the caller's to report, and the cycle goes on.
    pub fn advance(&mut self, engine: &mut Engine, _delivered: bool) -> (action: LoopAction)
        ensures
            action == old(self)@.next_action(old(engine)@),
            final(self)@ == old(self)@.step(old(engine)@),
            final(engine)@ == old(self)@.engine_step(old(engine)@),
    {
        match self.phase {
            LoopPhase::AboutToPress => {
                if engine.drives(self.plan.generation) {
                    self.phase = LoopPhase::Pressed;
                    LoopAction::Press(self.plan.button)
                } else {
                    self.phase = LoopPhase::Exited;
                    LoopAction::Exit
                }
            },
            LoopPhase::Pressed => {
                self.phase = LoopPhase::Holding;
                LoopAction::Sleep(self.plan.press_ms)
            },
            LoopPhase::Holding => {
                self.phase = LoopPhase::Released;
                LoopAction::Release(self.plan.button)
            },
            LoopPhase::Released => {
                engine.record_cycle(self.plan.generation);
                self.phase = LoopPhase::AboutToPress;
                LoopAction::Sleep(self.plan.release_ms)
            },
            LoopPhase::Exited => {
                LoopAction::Exit
            },
        }
    }
}

} // verus!

//! The engine: whether a run is in progress, which button it clicks, how many
//! cycles it has completed, and the commands that read and change this.
//!
//! Every command takes the engine by exclusive reference, so each one is a
//! single indivisible step. Callers on several threads share one engine behind
//! a lock; whatever order the lock grants, the engine sees a sequence of
//! commands, and the contracts below hold of every such sequence.

use vstd::prelude::*;
use crate::button::{button_verdict, validate_button, MouseButton};
use crate::error::{ClickError, Rejection};
use crate::interval::{
    interval_verdict,
    press_duration,
    press_time,
    release_duration,
    release_time,
    validate_interval,
};
use crate::text::{decimal_string, decimal_text};

verus! {

/// The successor of a counter that starts over at zero after its largest
/// value.
pub open spec fn wrapping_succ(n: u64) -> u64 {
    if n == u64::MAX {
        0
    } else {
        (n + 1) as u64
    }
}

/// What a successful start hands to the click loop it permits: the button,
/// the two phases of a cycle, and the generation that tells this run from
/// every earlier one.
#[derive(Clone, Copy, Debug, PartialEq, Eq, Structural)]
pub struct ClickPlan {
    pub button: MouseButton,
    pub interval_ms: u64,
    pub press_ms: u64,
    pub release_ms: u64,
    pub generation: u64,
}

impl ClickPlan {
    /// The message that confirms the start.
    pub open spec fn started_text(self) -> Seq<char> {
        "Autoclicker started: "@ + self.button.name_text() + " button at "@ + decimal_text(
            self.interval_ms as nat,
        ) + "ms interval"@
    }

    /// Renders the message that confirms the start, naming the button and
    /// the interval.
    pub fn message(&self) -> (s: String)
        ensures
            s@ == self.started_text(),
    {
        let mut s = String::from_str("Autoclicker started: ");
        s.append(self.button.name());
        s.append(" button at ");
        s.append(decimal_string(self.interval_ms).as_str());
        s.append("ms interval");
        s
    }
}

/// The mathematical content of an [`Engine`].
pub struct EngineState {
    /// Whether a run is in progress.
    pub running: bool,
    /// The button of the run in progress.
    pub active_button: Option<MouseButton>,
    /// The cycles completed since the last successful start.
    pub click_count: u64,
    /// The number of successful starts so far, starting over after the
    /// largest value.
    pub generation: u64,
}

impl EngineState {
    /// A button is recorded exactly while a run is in progress.
    pub open spec fn wf(self) -> bool {
        self.running <==> self.active_button is Some
    }

    /// The engine before its first start.
    pub open spec fn idle() -> EngineState {
        EngineState { running: false, active_button: None, click_count: 0, generation: 0 }
    }

    /// The answer to a start request. The interval is judged first, then the
    /// button name, and only then whether a run is already in progress.
    pub open spec fn start_verdict(self, interval_ms: u64, name: Seq<char>) -> Result<
        ClickPlan,
        Rejection,
    > {
        match (interval_verdict(interval_ms), button_verdict(name)) {
            (Err(rejection), _) => Err(rejection),
            (Ok(_), Err(rejection)) => Err(rejection),
            (Ok(ms), Ok(button)) => if self.running {
                Err(Rejection::AlreadyRunning)
            } else {
                Ok(
                    ClickPlan {
                        button,
                        interval_ms: ms,
                        press_ms: press_time(ms) as u64,
                        release_ms: release_time(ms) as u64,
                        generation: wrapping_succ(self.generation),
                    },
                )
            },
        }
    }

    /// The engine after a start request: a granted request claims the run,
    /// records the button, clears the counter and opens a new generation; a
    /// refused one changes nothing.
    pub open spec fn after_start(self, interval_ms: u64, name: Seq<char>) -> EngineState {
        match self.start_verdict(interval_ms, name) {
            Ok(plan) => EngineState {
                running: true,
                active_button: Some(plan.button),
                click_count: 0,
                generation: plan.generation,
            },
            Err(_) => self,
        }
    }

    /// The engine after a stop request: no run, no button; the counter and
    /// the generation stay.
    pub open spec fn after_stop(self) -> EngineState {
        EngineState { running: false, active_button: None, ..self }
    }

    /// The answer to a stop request.
    pub open spec fn stop_text(self) -> Seq<char> {
        if self.running {
            "Autoclicker stopped"@
        } else {
            "Autoclicker was not running"@
        }
    }

    /// Whether the run of the given generation is the one in progress.
    pub open spec fn drives(self, generation: u64) -> bool {
        self.running && self.generation == generation
    }

    /// The engine after a loop of the given generation has completed a
    /// cycle: the counter moves by one if that generation is still the
    /// engine's own, and not at all otherwise.
    pub open spec fn after_cycle(self, generation: u64) -> EngineState {
        if self.generation == generation {
            EngineState { click_count: wrapping_succ(self.click_count), ..self }
        } else {
            self
        }
    }

    /// The summary of the run flag and the active button.
    pub open spec fn status_text(self) -> Seq<char> {
        "Running: "@ + (if self.running {
            "true"@
        } else {
            "false"@
        }) + ", Button: "@ + (match self.active_button {
            Some(button) => button.name_text(),
            None => "None"@,
        })
    }
}

/// The state of an automatic clicker.
pub struct Engine {
    running: bool,
    active_button: Option<MouseButton>,
    click_count: u64,
    generation: u64,
}

impl View for Engine {
    type V = EngineState;

    closed spec fn view(&self) -> EngineState {
        EngineState {
            running: self.running,
            active_button: self.active_button,
            click_count: self.click_count,
            generation: self.generation,
        }
    }
}

impl Engine {
    #[verifier::type_invariant]
    spec fn inv(&self) -> bool {
        self@.wf()
    }

    /// An engine that has never been started.
    pub fn new() -> (engine: Engine)
        ensures
            engine@ == EngineState::idle(),
    {
        Engine { running: false, active_button: None, click_count: 0, generation: 0 }
    }

    /// Starts a run. The request is validated before anything changes; a
    /// valid request is granted exactly if no run is in progress. A granted
    /// request returns the plan for the one click loop it permits.
    pub fn start_clicking(&mut self, interval_ms: u64, button: &str) -> (r: Result<
        ClickPlan,
        ClickError,
    >)
        ensures
            match old(self)@.start_verdict(interval_ms, button@) {
                Ok(plan) => r == Ok::<ClickPlan, ClickError>(plan),
                Err(rejection) => r is Err && r->Err_0@ == rejection,
            },
            final(self)@ == old(self)@.after_start(interval_ms, button@),
            final(self)@.wf(),
    {
        proof {
            use_type_invariant(&*self);
        }
        let validated = match validate_interval(interval_ms) {
            Ok(ms) => ms,
            Err(error) => {
                return Err(error);
            },
        };
        let mouse_button = match validate_button(button) {
            Ok(found) => found,
            Err(error) => {
                return Err(error);
            },
        };
        if self.running {
            return Err(ClickError::AlreadyRunning);
        }
        let generation = self.generation.wrapping_add(1);
        *self = Engine {
            running: true,
            active_button: Some(mouse_button),
            click_count: 0,
            generation,
        };
        Ok(
            ClickPlan {
                button: mouse_button,
                interval_ms: validated,
                press_ms: press_duration(validated),
                release_ms: release_duration(validated),
                generation,
            },
        )
    }

    /// Stops the run, if there is one, and says which it was. Stopping an
    /// idle engine is no error.
    pub fn stop_clicking(&mut self) -> (message: String)
        ensures
            message@ == old(self)@.stop_text(),
            final(self)@ == old(self)@.after_stop(),
            final(self)@.wf(),
    {
        proof {
            use_type_invariant(&*self);
        }
        let was_running = self.running;
        *self = Engine {
            running: false,
            active_button: None,
            click_count: self.click_count,
            generation: self.generation,
        };
        if was_running {
            String::from_str("Autoclicker stopped")
        } else {
            String::from_str("Autoclicker was not running")
        }
    }

    /// Whether a run is in progress.
    pub fn is_clicking(&self) -> (running: bool)
        ensures
            running == self@.running,
            self@.wf(),
    {
        proof {
            use_type_invariant(self);
        }
        self.running
    }

    /// The cycles completed since the last successful start.
    pub fn get_click_count(&self) -> (count: u64)
        ensures
            count == self@.click_count,
            self@.wf(),
    {
        proof {
            use_type_invariant(self);
        }
        self.click_count
    }

    /// A summary of the run flag and the active button.
    pub fn get_status(&self) -> (status: String)
        ensures
            status@ == self@.status_text(),
            self@.wf(),
    {
        proof {
            use_type_invariant(self);
        }
        let mut status = String::from_str("Running: ");
        if self.running {
            status.append("true");
        } else {
            status.append("false");
        }
        status.append(", Button: ");
        match self.active_button {
            Some(button) => status.append(button.name()),
            None => status.append("None"),
        }
        status
    }

    /// Whether the run of the given generation is the one in progress: the
    /// question a click loop asks before each cycle.
    pub fn drives(&self, generation: u64) -> (current: bool)
        ensures
            current == self@.drives(generation),
            self@.wf(),
    {
        proof {
            use_type_invariant(self);
        }
        self.running && self.generation == generation
    }

    /// Counts a cycle completed by a loop of the given generation. A loop
    /// left over from an earlier run does not touch the counter of the
    /// present one.
    pub fn record_cycle(&mut self, generation: u64)
        ensures
            final(self)@ == old(self)@.after_cycle(generation),
            final(self)@.wf(),
    {
        proof {
            use_type_invariant(&*self);
        }
        if self.generation == generation {
            self.click_count = self.click_count.wrapping_add(1);
        }
    }
}

} // verus!

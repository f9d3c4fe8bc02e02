//! What holds of the engine and its click loop over whole sequences of
//! commands, proved from the transitions the commands are specified by.

use vstd::prelude::*;
use crate::button::{button_verdict, MouseButton};
use crate::click_loop::{LoopAction, LoopPhase, LoopState};
use crate::engine::{wrapping_succ, ClickPlan, EngineState};
use crate::error::Rejection;
use crate::interval::{interval_verdict, press_time, release_time};

verus! {

/// A start request, as one caller among several might make it.
pub struct StartRequest {
    pub interval_ms: u64,
    pub button: Seq<char>,
}

impl StartRequest {
    /// Whether the request passes validation.
    pub open spec fn valid(self) -> bool {
        interval_verdict(self.interval_ms) is Ok && button_verdict(self.button) is Ok
    }
}

/// The engine after a sequence of start requests, taken in order.
pub open spec fn after_starts(engine: EngineState, requests: Seq<StartRequest>) -> EngineState
    decreases requests.len(),
{
    if requests.len() == 0 {
        engine
    } else {
        after_starts(
            engine.after_start(requests[0].interval_ms, requests[0].button),
            requests.drop_first(),
        )
    }
}

/// How many of a sequence of start requests are granted.
pub open spec fn starts_granted(engine: EngineState, requests: Seq<StartRequest>) -> nat
    decreases requests.len(),
{
    if requests.len() == 0 {
        0
    } else {
        let granted: nat = if engine.start_verdict(requests[0].interval_ms, requests[0].button)
            is Ok {
            1
        } else {
            0
        };
        granted + starts_granted(
            engine.after_start(requests[0].interval_ms, requests[0].button),
            requests.drop_first(),
        )
    }
}

/// The loop and the engine after a number of steps of the loop, with no
/// command in between.
pub open spec fn after_steps(click_loop: LoopState, engine: EngineState, steps: nat) -> (
    LoopState,
    EngineState,
)
    decreases steps,
{
    if steps == 0 {
        (click_loop, engine)
    } else {
        after_steps(click_loop.step(engine), click_loop.engine_step(engine), (steps - 1) as nat)
    }
}

/// Every command and every step of a loop keeps the engine well formed.
pub proof fn lemma_transitions_keep_wf(
    engine: EngineState,
    interval_ms: u64,
    name: Seq<char>,
    generation: u64,
)
    requires
        engine.wf(),
    ensures
        EngineState::idle().wf(),
        engine.after_start(interval_ms, name).wf(),
        engine.after_stop().wf(),
        engine.after_cycle(generation).wf(),
{
}

/// A start with an interval within the bounds and the name of a button is
/// granted by an idle engine, which is running afterwards with a cleared
/// counter. A start with an interval outside the bounds is refused, and the
/// engine stays as it was.
pub proof fn lemma_start_by_interval(engine: EngineState, interval_ms: u64, name: Seq<char>)
    requires
        engine.wf(),
    ensures
        10 <= interval_ms <= 10000 && button_verdict(name) is Ok && !engine.running ==> {
            &&& engine.start_verdict(interval_ms, name) is Ok
            &&& engine.after_start(interval_ms, name).running
            &&& engine.after_start(interval_ms, name).click_count == 0
            &&& engine.after_start(interval_ms, name).active_button == Some(
                button_verdict(name)->Ok_0,
            )
        },
        interval_ms < 10 ==> {
            &&& engine.start_verdict(interval_ms, name) == Err::<ClickPlan, Rejection>(
                Rejection::IntervalTooSmall { interval_ms },
            )
            &&& engine.after_start(interval_ms, name) == engine
        },
        interval_ms > 10000 ==> {
            &&& engine.start_verdict(interval_ms, name) == Err::<ClickPlan, Rejection>(
                Rejection::IntervalTooLarge { interval_ms },
            )
            &&& engine.after_start(interval_ms, name) == engine
        },
{
}

/// A start with an interval within the bounds and a name that is no
/// button's is refused with an error whose message spells the name out, and
/// the engine stays as it was.
pub proof fn lemma_start_with_unknown_button(
    engine: EngineState,
    interval_ms: u64,
    name: Seq<char>,
)
    requires
        engine.wf(),
        10 <= interval_ms <= 10000,
        (button_verdict(name) is Err),
    ensures
        (engine.start_verdict(interval_ms, name) == Err::<ClickPlan, Rejection>(
            (Rejection::InvalidButton { name }),
        )),
        ((Rejection::InvalidButton { name }).text().subrange(21, 21 + name.len() as int) == name),
        engine.after_start(interval_ms, name) == engine,
{
    reveal_strlit("Invalid button type '");
    let text = (Rejection::InvalidButton { name }).text();
    assert(text.subrange(21, 21 + name.len() as int) =~= name);
}

/// While a run is in progress every start is refused, a valid one because
/// the engine is already running, and the engine stays as it was, counter
/// included.
pub proof fn lemma_start_while_running(engine: EngineState, interval_ms: u64, name: Seq<char>)
    requires
        engine.wf(),
        engine.running,
    ensures
        (engine.start_verdict(interval_ms, name) is Err),
        (interval_verdict(interval_ms) is Ok) && (button_verdict(name) is Ok) ==> (
            engine.start_verdict(interval_ms, name) == Err::<ClickPlan, Rejection>(
                Rejection::AlreadyRunning,
            )
        ),
        engine.after_start(interval_ms, name) == engine,
{
}

/// Of two starts in a row the second is refused if the first was granted,
/// whatever the loop has counted in between.
pub proof fn lemma_second_start_refused(
    engine: EngineState,
    first: StartRequest,
    cycles: Seq<u64>,
    second: StartRequest,
)
    requires
        engine.wf(),
        (engine.start_verdict(first.interval_ms, first.button) is Ok),
    ensures
        ({
            let started = engine.after_start(first.interval_ms, first.button);
            let counted = after_cycles(started, cycles);
            &&& counted.start_verdict(second.interval_ms, second.button) is Err
            &&& second.valid() ==> counted.start_verdict(second.interval_ms, second.button)
                == Err::<ClickPlan, Rejection>(Rejection::AlreadyRunning)
            &&& counted.after_start(second.interval_ms, second.button) == counted
        }),
{
    let started = engine.after_start(first.interval_ms, first.button);
    lemma_cycles_touch_only_the_counter(started, cycles);
}

/// The engine after loops of the given generations have each completed a
/// cycle, in order.
pub open spec fn after_cycles(engine: EngineState, generations: Seq<u64>) -> EngineState
    decreases generations.len(),
{
    if generations.len() == 0 {
        engine
    } else {
        after_cycles(engine.after_cycle(generations[0]), generations.drop_first())
    }
}

/// Completed cycles change the counter and nothing else.
pub proof fn lemma_cycles_touch_only_the_counter(engine: EngineState, generations: Seq<u64>)
    ensures
        after_cycles(engine, generations).running == engine.running,
        after_cycles(engine, generations).active_button == engine.active_button,
        after_cycles(engine, generations).generation == engine.generation,
    decreases generations.len(),
{
    if generations.len() > 0 {
        lemma_cycles_touch_only_the_counter(
            engine.after_cycle(generations[0]),
            generations.drop_first(),
        );
    }
}

/// Stopping an idle engine answers that it was not running and changes
/// nothing; stopping a running one answers that it stopped. Either way no run
/// is in progress afterwards and the counter keeps its value.
pub proof fn lemma_stop(engine: EngineState)
    requires
        engine.wf(),
    ensures
        !engine.running ==> engine.stop_text() == "Autoclicker was not running"@
            && engine.after_stop() == engine,
        engine.running ==> engine.stop_text() == "Autoclicker stopped"@,
        !engine.after_stop().running,
        engine.after_stop().click_count == engine.click_count,
        engine.after_stop().after_stop() == engine.after_stop(),
{
}

/// One cycle, step by step: with the engine driving it, a loop between two
/// cycles asks for the press, the hold, the release and the rest, in this
/// order, counts exactly one cycle, and stands between two cycles again.
pub proof fn lemma_one_cycle(click_loop: LoopState, engine: EngineState)
    requires
        click_loop.phase == LoopPhase::AboutToPress,
        engine.drives(click_loop.plan.generation),
    ensures
        ({
            let plan = click_loop.plan;
            let (s1, e1) = after_steps(click_loop, engine, 1);
            let (s2, e2) = after_steps(click_loop, engine, 2);
            let (s3, e3) = after_steps(click_loop, engine, 3);
            let (s4, e4) = after_steps(click_loop, engine, 4);
            &&& click_loop.next_action(engine) == LoopAction::Press(plan.button)
            &&& s1.next_action(e1) == LoopAction::Sleep(plan.press_ms)
            &&& s2.next_action(e2) == LoopAction::Release(plan.button)
            &&& s3.next_action(e3) == LoopAction::Sleep(plan.release_ms)
            &&& e1 == engine && e2 == engine && e3 == engine
            &&& e4 == EngineState { click_count: wrapping_succ(engine.click_count), ..engine }
            &&& s4 == click_loop
        }),
{
    reveal_with_fuel(after_steps, 5);
}

/// With the engine driving it and no command in between, a loop that has
/// run `cycles` whole cycles has counted each of them once: the counter has
/// moved by `cycles`, starting over after its largest value, and the loop
/// stands between two cycles again.
pub proof fn lemma_cycles_are_counted(click_loop: LoopState, engine: EngineState, cycles: nat)
    requires
        click_loop.phase == LoopPhase::AboutToPress,
        engine.drives(click_loop.plan.generation),
    ensures
        after_steps(click_loop, engine, 4 * cycles).0 == click_loop,
        after_steps(click_loop, engine, 4 * cycles).1 == (EngineState {
            click_count: ((engine.click_count + cycles) % 0x1_0000_0000_0000_0000) as u64,
            ..engine
        }),
    decreases cycles,
{
    if cycles > 0 {
        let once = EngineState { click_count: wrapping_succ(engine.click_count), ..engine };
        lemma_one_cycle(click_loop, engine);
        lemma_steps_compose(click_loop, engine, 4, (4 * (cycles - 1)) as nat);
        lemma_cycles_are_counted(click_loop, once, (cycles - 1) as nat);
        assert(4 + (4 * (cycles - 1)) as nat == 4 * cycles);
        assert((once.click_count + (cycles - 1)) % 0x1_0000_0000_0000_0000 == (engine.click_count
            + cycles) % 0x1_0000_0000_0000_0000) by {
            if engine.click_count == u64::MAX {
                vstd::arithmetic::div_mod::lemma_mod_add_multiples_vanish(
                    (cycles - 1) as int,
                    0x1_0000_0000_0000_0000,
                );
            }
        }
    }
}

/// Once no run is in progress, a loop that stands between two cycles, or
/// has ended, only ever ends: however often it is stepped, it asks for
/// nothing but the exit and the engine, counter included, stays as it is.
pub proof fn lemma_stopped_loop_is_quiet(click_loop: LoopState, engine: EngineState, steps: nat)
    requires
        !engine.running,
        click_loop.phase == LoopPhase::AboutToPress || click_loop.phase == LoopPhase::Exited,
    ensures
        after_steps(click_loop, engine, steps).1 == engine,
        after_steps(click_loop, engine, steps).0.next_action(engine) == LoopAction::Exit,
        steps >= 1 ==> after_steps(click_loop, engine, steps).0.phase == LoopPhase::Exited,
    decreases steps,
{
    if steps > 0 {
        lemma_stopped_loop_is_quiet(click_loop.step(engine), engine, (steps - 1) as nat);
    }
}

/// Once no run is in progress, a loop caught anywhere in its cycle finishes
/// that cycle and ends: within four steps it has ended, having counted at
/// most the one cycle it was in, and from then on the counter is still.
pub proof fn lemma_stopped_loop_ends_within_a_cycle(
    click_loop: LoopState,
    engine: EngineState,
    steps: nat,
)
    requires
        !engine.running,
        steps >= 4,
    ensures
        after_steps(click_loop, engine, steps).0.phase == LoopPhase::Exited,
        after_steps(click_loop, engine, steps).1 == after_steps(click_loop, engine, 4).1,
        after_steps(click_loop, engine, 4).1 == engine || after_steps(click_loop, engine, 4).1
            == engine.after_cycle(click_loop.plan.generation),
{
    reveal_with_fuel(after_steps, 5);
    let (s4, e4) = after_steps(click_loop, engine, 4);
    lemma_steps_compose(click_loop, engine, 4, (steps - 4) as nat);
    lemma_stopped_loop_is_quiet(s4, e4, (steps - 4) as nat);
}

/// Stepping a loop `first` times and then `then` times is stepping it
/// `first + then` times.
pub proof fn lemma_steps_compose(
    click_loop: LoopState,
    engine: EngineState,
    first: nat,
    then: nat,
)
    ensures
        after_steps(click_loop, engine, first + then) == after_steps(
            after_steps(click_loop, engine, first).0,
            after_steps(click_loop, engine, first).1,
            then,
        ),
    decreases first,
{
    if first > 0 {
        lemma_steps_compose(
            click_loop.step(engine),
            click_loop.engine_step(engine),
            (first - 1) as nat,
            then,
        );
        assert(((first - 1) as nat) + then == ((first + then) - 1) as nat);
    }
}

/// A loop left over from an earlier run ends at its next chance and never
/// touches the counter of the present run: after a stop and a granted start
/// the engine no longer drives the old generation, and a cycle completed
/// under the old generation is not counted.
pub proof fn lemma_stale_loop_is_shut_out(
    engine: EngineState,
    old_generation: u64,
    interval_ms: u64,
    name: Seq<char>,
)
    requires
        engine.wf(),
        engine.generation == old_generation,
        (engine.after_stop().start_verdict(interval_ms, name) is Ok),
    ensures
        ({
            let restarted = engine.after_stop().after_start(interval_ms, name);
            &&& restarted.running
            &&& restarted.generation == wrapping_succ(old_generation)
            &&& restarted.generation != old_generation
            &&& !restarted.drives(old_generation)
            &&& restarted.after_cycle(old_generation) == restarted
            &&& restarted.drives(
                engine.after_stop().start_verdict(interval_ms, name)->Ok_0.generation,
            )
        }),
{
}

/// Two loops of different generations are never both let into a cycle.
pub proof fn lemma_one_loop_at_a_time(engine: EngineState, first: LoopState, second: LoopState)
    requires
        first.plan.generation != second.plan.generation,
        first.phase == LoopPhase::AboutToPress,
        second.phase == LoopPhase::AboutToPress,
    ensures
        first.next_action(engine) == LoopAction::Exit || second.next_action(engine)
            == LoopAction::Exit,
{
}

/// Whatever the order in which the start requests of several callers reach
/// an engine, at most one is granted: exactly one if the engine was idle and
/// some request is valid, and none otherwise. The engine is running
/// afterwards exactly if it was running before or a request was granted.
pub proof fn lemma_one_start_wins(engine: EngineState, requests: Seq<StartRequest>)
    requires
        engine.wf(),
    ensures
        starts_granted(engine, requests) <= 1,
        starts_granted(engine, requests) == 1 <==> !engine.running && exists|i: int|
            0 <= i < requests.len() && (#[trigger] requests[i]).valid(),
        after_starts(engine, requests).running <==> engine.running || starts_granted(
            engine,
            requests,
        ) == 1,
    decreases requests.len(),
{
    if requests.len() > 0 {
        let head = requests[0];
        let tail = requests.drop_first();
        let next = engine.after_start(head.interval_ms, head.button);
        lemma_one_start_wins(next, tail);
        if exists|i: int| 0 <= i < tail.len() && (#[trigger] tail[i]).valid() {
            let i = choose|i: int| 0 <= i < tail.len() && (#[trigger] tail[i]).valid();
            assert(requests[i + 1].valid());
        }
        if exists|i: int| 0 <= i < requests.len() && (#[trigger] requests[i]).valid() {
            let i = choose|i: int| 0 <= i < requests.len() && (#[trigger] requests[i]).valid();
            if i > 0 {
                assert(tail[i - 1].valid());
            }
        }
    }
}

/// The two phases of a granted start come from its interval alone: each
/// lasts at least a millisecond, and together they fill the interval.
pub proof fn lemma_plan_fills_interval(engine: EngineState, interval_ms: u64, name: Seq<char>)
    requires
        (engine.start_verdict(interval_ms, name) is Ok),
    ensures
        ({
            let plan = engine.start_verdict(interval_ms, name)->Ok_0;
            &&& plan.interval_ms == interval_ms
            &&& button_verdict(name) == Ok::<MouseButton, Rejection>(plan.button)
            &&& plan.press_ms == press_time(interval_ms)
            &&& plan.release_ms == release_time(interval_ms)
            &&& plan.press_ms >= 1
            &&& plan.release_ms >= 1
            &&& plan.press_ms + plan.release_ms == interval_ms
        }),
{
}

} // verus!

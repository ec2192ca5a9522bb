//! Runs of the state machine, and what holds of every run.
use crate::display::{Element, Screen};
use crate::grinder::{
    action_of, counter_element, counter_frame, initial_state, next_count, splash_frame, step,
    title_element, unit_element, Action, Event, Stage, State, DELAY_TICKS,
};
use crate::text::{decimal_chars, text_chars, Text};
use vstd::prelude::*;

verus! {

/// Steps of the setup before the delay: display init, clear, splash, flush.
pub open spec fn setup_steps() -> nat {
    4
}

/// Steps of one loop iteration: two blinks of a tick each, then the frame.
pub open spec fn iteration_steps() -> nat {
    9
}

/// Steps from the start to the beginning of loop iteration `i`, every
/// action succeeding.
pub open spec fn loop_start(i: nat) -> nat {
    setup_steps() + DELAY_TICKS as nat + iteration_steps() * i
}

/// The state after `n` actions that all succeed.
pub open spec fn run_ok(s: State, n: nat) -> State
    decreases n,
{
    if n == 0 {
        s
    } else {
        step(run_ok(s, (n - 1) as nat), Event::Done)
    }
}

/// The actions asked for during `n` steps that all succeed.
pub open spec fn actions_ok(s: State, n: nat) -> Seq<Action>
    decreases n,
{
    if n == 0 {
        Seq::empty()
    } else {
        actions_ok(s, (n - 1) as nat).push(action_of(run_ok(s, (n - 1) as nat)))
    }
}

/// The state after the outcomes `events`, in order.
pub open spec fn run(s: State, events: Seq<Event>) -> State
    decreases events.len(),
{
    if events.len() == 0 {
        s
    } else {
        step(run(s, events.drop_last()), events.last())
    }
}

/// The actions of one loop iteration with counter `c`.
pub open spec fn iteration_script(c: u32) -> Seq<Action> {
    seq![
        Action::WaitTick,
        Action::LedHigh,
        Action::WaitTick,
        Action::LedLow,
        Action::ClearDisplay,
        Action::Draw(counter_element(c)),
        Action::Draw(unit_element()),
        Action::Draw(title_element()),
        Action::FlushDisplay,
    ]
}

proof fn lemma_run_ok_add(s: State, a: nat, b: nat)
    ensures
        run_ok(s, a + b) == run_ok(run_ok(s, a), b),
    decreases b,
{
    if b > 0 {
        lemma_run_ok_add(s, a, (b - 1) as nat);
        assert(a + b - 1 == a + (b - 1));
    }
}

/// One iteration from a state at the head of the loop.
proof fn lemma_one_iteration(s: State)
    requires
        s.stage == Stage::WaitHigh,
    ensures
        actions_ok(s, iteration_steps()) == iteration_script(s.counter),
        run_ok(s, iteration_steps()) == (State {
            stage: Stage::WaitHigh,
            counter: next_count(s.counter),
            led_high: false,
            screen: Screen { buffer: counter_frame(s.counter), shown: counter_frame(s.counter) },
        }),
{
    let c = s.counter;
    assert(run_ok(s, 0) == s);
    assert(run_ok(s, 1).stage == Stage::High);
    assert(run_ok(s, 2).stage == Stage::WaitLow);
    assert(run_ok(s, 2).led_high);
    assert(run_ok(s, 3).stage == Stage::Low);
    assert(run_ok(s, 4).stage == Stage::Clear);
    assert(!run_ok(s, 4).led_high);
    assert(run_ok(s, 5).stage == Stage::DrawCounter);
    assert(run_ok(s, 5).screen.buffer == Seq::<Element>::empty());
    assert(run_ok(s, 6).stage == Stage::DrawUnit);
    assert(run_ok(s, 6).screen.buffer =~= seq![counter_element(c)]);
    assert(run_ok(s, 7).stage == Stage::DrawTitle);
    assert(run_ok(s, 7).screen.buffer =~= seq![counter_element(c), unit_element()]);
    assert(run_ok(s, 8).stage == Stage::Flush);
    assert(run_ok(s, 8).screen.buffer =~= counter_frame(c));
    assert(run_ok(s, 8).counter == c);
    assert(run_ok(s, 9).screen.shown =~= counter_frame(c));
    assert(actions_ok(s, 9) =~= iteration_script(c)) by {
        reveal_with_fuel(actions_ok, 10);
    }
}

/// The delay, `k` ticks into it.
proof fn lemma_delay(k: nat)
    requires
        k <= DELAY_TICKS,
    ensures
        run_ok(initial_state(), setup_steps() + k) == (State {
            stage: if k < DELAY_TICKS {
                Stage::Delay { waited: k as u8 }
            } else {
                Stage::WaitHigh
            },
            counter: 0,
            led_high: false,
            screen: Screen { buffer: splash_frame(), shown: splash_frame() },
        }),
    decreases k,
{
    let s = initial_state();
    if k == 0 {
        assert(run_ok(s, 0) == s);
        assert(run_ok(s, 1).stage == Stage::SplashClear);
        assert(run_ok(s, 2).stage == Stage::SplashDraw);
        assert(run_ok(s, 2).screen.buffer == Seq::<Element>::empty());
        assert(run_ok(s, 3).screen.buffer =~= splash_frame());
        assert(run_ok(s, 4).screen.shown =~= splash_frame());
    } else {
        lemma_delay((k - 1) as nat);
    }
}

/// The head of loop iteration `i`.
proof fn lemma_loop_head(i: nat)
    ensures
        run_ok(initial_state(), loop_start(i)).stage == Stage::WaitHigh,
        run_ok(initial_state(), loop_start(i)).counter == i % 0x1_0000_0000,
        i == 0 ==> run_ok(initial_state(), loop_start(i)).screen.shown == splash_frame(),
    decreases i,
{
    if i == 0 {
        lemma_delay(DELAY_TICKS as nat);
    } else {
        let p = (i - 1) as nat;
        lemma_loop_head(p);
        assert(loop_start(i) == loop_start(p) + iteration_steps()) by (nonlinear_arith)
            requires
                i == p + 1,
        ;
        lemma_run_ok_add(initial_state(), loop_start(p), iteration_steps());
        lemma_one_iteration(run_ok(initial_state(), loop_start(p)));
        lemma_next_count_mod(p);
    }
}

proof fn lemma_next_count_mod(i: nat)
    ensures
        next_count((i % 0x1_0000_0000) as u32) == (i + 1) % 0x1_0000_0000,
{
}

/// From the splash flush on, through the pre-loop delay and the blink and
/// drawing of the first iteration, the splash image stays the last frame on
/// the screen; the first flush after it shows the frame of counter zero.
pub proof fn lemma_splash_until_first_frame(n: nat)
    requires
        setup_steps() <= n < loop_start(1),
    ensures
        run_ok(initial_state(), n).screen.shown == splash_frame(),
        run_ok(initial_state(), loop_start(1)).screen.shown == counter_frame(0),
{
    let s = initial_state();
    if n <= setup_steps() + DELAY_TICKS {
        lemma_delay((n - setup_steps()) as nat);
    } else {
        lemma_delay(DELAY_TICKS as nat);
        let h = run_ok(s, loop_start(0));
        let k = (n - loop_start(0)) as nat;
        lemma_run_ok_add(s, loop_start(0), k);
        assert(run_ok(h, 0) == h);
        assert(run_ok(h, 1).stage == Stage::High && run_ok(h, 1).screen.shown == splash_frame());
        assert(run_ok(h, 2).stage == Stage::WaitLow && run_ok(h, 2).screen.shown == splash_frame());
        assert(run_ok(h, 3).stage == Stage::Low && run_ok(h, 3).screen.shown == splash_frame());
        assert(run_ok(h, 4).stage == Stage::Clear && run_ok(h, 4).screen.shown == splash_frame());
        assert(run_ok(h, 5).stage == Stage::DrawCounter && run_ok(h, 5).screen.shown == splash_frame());
        assert(run_ok(h, 6).stage == Stage::DrawUnit && run_ok(h, 6).screen.shown == splash_frame());
        assert(run_ok(h, 7).stage == Stage::DrawTitle && run_ok(h, 7).screen.shown == splash_frame());
        assert(run_ok(h, 8).stage == Stage::Flush && run_ok(h, 8).screen.shown == splash_frame());
        assert(run_ok(h, k).screen.shown == splash_frame());
    }
    lemma_delay(DELAY_TICKS as nat);
    lemma_run_ok_add(s, loop_start(0), iteration_steps());
    lemma_one_iteration(run_ok(s, loop_start(0)));
}

/// In every loop iteration `i`, the LED is driven high and then low, once
/// each, after one tick each, before anything is drawn; then the frame of
/// counter `i` (modulo 2^32) is drawn and flushed.
pub proof fn lemma_blink_then_render(i: nat)
    ensures
        actions_ok(run_ok(initial_state(), loop_start(i)), iteration_steps())
            == iteration_script((i % 0x1_0000_0000) as u32),
{
    lemma_loop_head(i);
    lemma_one_iteration(run_ok(initial_state(), loop_start(i)));
}

/// The frame flushed in loop iteration `i` shows the base-10 text of `i`
/// (modulo 2^32), and the counter of the next iteration is one more, wrapping
/// to zero after `u32::MAX`.
pub proof fn lemma_counter_frames(i: nat)
    ensures
        run_ok(initial_state(), loop_start(i + 1)).screen.shown == counter_frame(
            (i % 0x1_0000_0000) as u32,
        ),
        text_chars(Text::Counter((i % 0x1_0000_0000) as u32)) == decimal_chars(
            i % 0x1_0000_0000,
        ),
        run_ok(initial_state(), loop_start(i + 1)).counter == next_count(
            run_ok(initial_state(), loop_start(i)).counter,
        ),
{
    lemma_loop_head(i);
    lemma_loop_head(i + 1);
    assert(loop_start(i + 1) == loop_start(i) + iteration_steps()) by (nonlinear_arith);
    lemma_run_ok_add(initial_state(), loop_start(i), iteration_steps());
    lemma_one_iteration(run_ok(initial_state(), loop_start(i)));
}

/// An iteration that starts with the counter at `u32::MAX` ends with it at
/// zero, having shown `u32::MAX`.
pub proof fn lemma_counter_wraps(s: State)
    requires
        s.stage == Stage::WaitHigh,
        s.counter == u32::MAX,
    ensures
        run_ok(s, iteration_steps()).counter == 0,
        run_ok(s, iteration_steps()).screen.shown == counter_frame(u32::MAX),
{
    lemma_one_iteration(s);
}

/// After a failure the program is halted: whatever is reported afterwards,
/// it asks for nothing but to halt, and the LED and the screen stay as they
/// were when the failure came.
pub proof fn lemma_failure_halts(s: State, events: Seq<Event>)
    ensures
        run(step(s, Event::Failed), events).stage == Stage::Halted,
        action_of(run(step(s, Event::Failed), events)) == Action::Halt,
        run(step(s, Event::Failed), events).screen == s.screen,
        run(step(s, Event::Failed), events).led_high == s.led_high,
    decreases events.len(),
{
    if events.len() > 0 {
        lemma_failure_halts(s, events.drop_last());
    }
}

} // verus!

//! Repeating timers that are advanced by an external clock.

use bevy::time::{Timer, TimerMode};
use std::time::Duration;
use vstd::prelude::*;

verus! {

/// Number of values a 32-bit completion counter can tell apart.
pub open spec fn counter_span() -> int {
    0x1_0000_0000
}

/// Nanoseconds that stay on a repeating timer of the given period after it is
/// advanced by `delta` from `elapsed`.
pub open spec fn remainder_after(elapsed: int, period: int, delta: int) -> int {
    if period == 0 {
        0
    } else {
        (elapsed + delta) % period
    }
}

/// Completions that a repeating timer reports for one advance. The count is
/// kept in 32 bits, so it wraps at `counter_span()`; with a period of zero
/// the timer reports the largest count.
pub open spec fn completions_of(elapsed: int, period: int, delta: int) -> int {
    if period == 0 {
        u32::MAX as int
    } else {
        ((elapsed + delta) / period) % counter_span()
    }
}

/// Runs `bevy::time::Timer::tick` on a repeating, unpaused timer with `period`
/// nanoseconds that has `elapsed` nanoseconds on it, and returns the elapsed
/// nanoseconds and `times_finished_this_tick` afterwards.
///
/// Trusted: the timer adds `delta`, then counts how often the period fits into
/// the sum (truncated to 32 bits) and keeps the rest; a zero period counts as
/// `u32::MAX` completions with nothing kept.
#[verifier::external_body]
fn tick_repeating(elapsed: u64, period: u64, delta: u64) -> (r: (u64, u32))
    ensures
        r.0 == remainder_after(elapsed as int, period as int, delta as int),
        r.1 == completions_of(elapsed as int, period as int, delta as int),
{
    let mut timer = Timer::new(Duration::from_nanos(period), TimerMode::Repeating);
    timer.set_elapsed(Duration::from_nanos(elapsed));
    timer.tick(Duration::from_nanos(delta));
    (timer.elapsed().as_nanos() as u64, timer.times_finished_this_tick())
}

/// Mathematical state of a repeating timer, in nanoseconds.
pub struct TimerState {
    pub elapsed: nat,
    pub period: nat,
}

impl TimerState {
    /// A period of zero keeps nothing; otherwise less than one period is kept.
    pub open spec fn valid(self) -> bool {
        if self.period == 0 {
            self.elapsed == 0
        } else {
            self.elapsed < self.period
        }
    }

    /// The state after the clock moved on by `delta`.
    pub open spec fn advance(self, delta: nat) -> TimerState {
        TimerState {
            elapsed: remainder_after(self.elapsed as int, self.period as int, delta as int) as nat,
            period: self.period,
        }
    }

    /// Whether an advance by `delta` reports at least one completion.
    pub open spec fn fires(self, delta: nat) -> bool {
        completions_of(self.elapsed as int, self.period as int, delta as int) > 0
    }
}

/// A timer that starts over each time its period has passed.
#[derive(Debug)]
pub struct RepeatingTimer {
    elapsed: u64,
    period: u64,
}

impl View for RepeatingTimer {
    type V = TimerState;

    closed spec fn view(&self) -> TimerState {
        TimerState { elapsed: self.elapsed as nat, period: self.period as nat }
    }
}

impl RepeatingTimer {
    /// Holds of every value of this type.
    #[verifier::type_invariant]
    pub open spec fn inv(self) -> bool {
        self@.valid()
    }

    /// A timer with nothing elapsed that completes every `period` nanoseconds.
    pub fn new(period: u64) -> (t: RepeatingTimer)
        ensures
            t@ == (TimerState { elapsed: 0, period: period as nat }),
            t@.valid(),
    {
        RepeatingTimer { elapsed: 0, period }
    }

    /// Nanoseconds since the last completion.
    pub fn elapsed(&self) -> (e: u64)
        ensures
            e == self@.elapsed,
            self@.valid(),
    {
        proof {
            use_type_invariant(self);
        }
        self.elapsed
    }

    /// Nanoseconds between completions.
    pub fn period(&self) -> (p: u64)
        ensures
            p == self@.period,
    {
        self.period
    }

    /// Moves the timer on by `delta` nanoseconds and tells whether it
    /// completed during this advance.
    pub fn tick(&mut self, delta: u64) -> (fired: bool)
        ensures
            final(self)@ == old(self)@.advance(delta as nat),
            final(self)@.valid(),
            fired == old(self)@.fires(delta as nat),
    {
        proof {
            use_type_invariant(&*self);
        }
        let (rest, times) = tick_repeating(self.elapsed, self.period, delta);
        proof {
            if self.period != 0 {
                vstd::arithmetic::div_mod::lemma_mod_bound(
                    self.elapsed as int + delta as int,
                    self.period as int,
                );
            }
        }
        self.elapsed = rest;
        times > 0
    }
}

/// Paces the steps of the agents.
#[derive(Debug)]
pub struct UpdateTimer(pub RepeatingTimer);

/// Paces the generations.
#[derive(Debug)]
pub struct GenerationTimer(pub RepeatingTimer);

/// A timer with a period that is not advanced does not fire and keeps its
/// state.
pub proof fn zero_advance_is_idle(t: TimerState)
    requires
        t.valid(),
        t.period > 0,
    ensures
        t.advance(0) == t,
        !t.fires(0),
{
    vstd::arithmetic::div_mod::lemma_small_mod(t.elapsed, t.period);
    vstd::arithmetic::div_mod::lemma_basic_div(t.elapsed as int, t.period as int);
}

/// Advanced by exactly its period, a timer fires and is where it was.
pub proof fn full_period_fires(t: TimerState)
    requires
        t.valid(),
        t.period > 0,
    ensures
        t.advance(t.period) == t,
        t.fires(t.period),
        completions_of(t.elapsed as int, t.period as int, t.period as int) == 1,
{
    let e = t.elapsed as int;
    let p = t.period as int;
    vstd::arithmetic::div_mod::lemma_fundamental_div_mod_converse(e + p, p, 1, e);
}

/// Advancing twice is advancing once by the sum, as far as the time kept is
/// concerned.
pub proof fn advances_add_up(t: TimerState, a: nat, b: nat)
    requires
        t.valid(),
    ensures
        t.advance(a).advance(b) == t.advance(a + b),
        t.advance(a).valid(),
{
    if t.period > 0 {
        let e = t.elapsed as int;
        let p = t.period as int;
        vstd::arithmetic::div_mod::lemma_mod_bound(e + a, p);
        vstd::arithmetic::div_mod::lemma_mod_bound(e + a + b, p);
        vstd::arithmetic::div_mod::lemma_add_mod_noop(e + a, b as int, p);
        vstd::arithmetic::div_mod::lemma_mod_twice(e + a, p);
        vstd::arithmetic::div_mod::lemma_add_mod_noop((e + a) % p, b as int, p);
    }
}

} // verus!

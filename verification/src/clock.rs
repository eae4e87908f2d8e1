//! The interval timer that paces playback.
//!
//! The timer is `bevy::time::Timer`. Its fields are private to its crate, so
//! this module describes it by [`TimerState`] and states, for each method the
//! playback code calls, what that method does to the state. Those statements
//! are taken on trust from the timer's source; nothing here proves them.

use bevy::time::Timer;
use bevy::time::TimerMode;
use std::time::Duration;
use vstd::prelude::*;

verus! {

/// `bevy::time::Timer`, carried as it is: nothing is known of a timer but
/// what the functions below say of its state.
#[verifier::external_type_specification]
#[verifier::external_body]
pub struct ExTimer(Timer);

/// What a timer holds, with times in nanoseconds.
pub struct TimerState {
    /// Time counted since the last reset or wrap.
    pub elapsed: nat,
    /// The interval after which the timer reports that it has finished.
    pub duration: nat,
    /// A paused timer ignores ticks.
    pub paused: bool,
    /// Whether the last tick reached the interval.
    pub finished: bool,
    /// Whether the timer starts over when it finishes.
    pub repeating: bool,
}

/// The state of a timer.
pub uninterp spec fn timer_state(t: Timer) -> TimerState;

/// Nanoseconds in a millisecond.
pub open spec fn nanos_per_milli() -> nat {
    1_000_000
}

/// The longest time a `Duration` can hold, in nanoseconds.
pub open spec fn max_nanos() -> nat {
    18_446_744_073_709_551_615 * 1_000_000_000 + 999_999_999
}

/// A repeating timer that has just been made or reset, with the given interval.
pub open spec fn fresh(duration: nat) -> TimerState {
    TimerState { elapsed: 0, duration, paused: false, finished: false, repeating: true }
}

/// The state after a tick of `delta` nanoseconds.
///
/// A paused timer counts nothing, and a repeating one then reports that it
/// has not finished. A one-shot timer that has finished stays as it is.
/// Otherwise the time is added, up to the longest `Duration`; the timer has
/// finished when the sum reaches the interval, and a repeating timer then
/// keeps the remainder of the sum by the interval, a one-shot timer the
/// interval itself.
pub open spec fn ticked(s: TimerState, delta: nat) -> TimerState {
    if s.paused {
        TimerState { finished: s.finished && !s.repeating, ..s }
    } else if !s.repeating && s.finished {
        s
    } else {
        let sum = if s.elapsed + delta <= max_nanos() {
            s.elapsed + delta
        } else {
            max_nanos()
        };
        if sum < s.duration {
            TimerState { elapsed: sum, finished: false, ..s }
        } else if !s.repeating {
            TimerState { elapsed: s.duration, finished: true, ..s }
        } else if s.duration == 0 {
            TimerState { elapsed: 0, finished: true, ..s }
        } else {
            TimerState {
                elapsed: ((sum % s.duration) % 0x1_0000_0000_0000_0000) as nat,
                finished: true,
                ..s
            }
        }
    }
}

/// `Timer::new` in repeating mode, with an interval of `duration_ms`
/// milliseconds: the new timer has counted nothing, is not paused and has not
/// finished.
#[verifier::external_body]
pub(crate) fn repeating_timer(duration_ms: u64) -> (t: Timer)
    ensures
        timer_state(t) == fresh(duration_ms as nat * nanos_per_milli()),
{
    Timer::new(Duration::from_millis(duration_ms), TimerMode::Repeating)
}

/// `Timer::clone`: the copy is in the same state.
pub assume_specification[ <Timer as Clone>::clone ](t: &Timer) -> (copy: Timer)
    ensures
        timer_state(copy) == timer_state(*t),
;

/// `Timer::tick` by `delta_ns` nanoseconds: the state moves as [`ticked`] says.
#[verifier::external_body]
pub(crate) fn tick_timer(t: &mut Timer, delta_ns: u64)
    ensures
        timer_state(*final(t)) == ticked(timer_state(*old(t)), delta_ns as nat),
{
    t.tick(Duration::from_nanos(delta_ns));
}

/// `Timer::is_finished`: whether the last tick reached the interval.
#[verifier::external_body]
pub(crate) fn timer_finished(t: &Timer) -> (b: bool)
    ensures
        b == timer_state(*t).finished,
{
    t.is_finished()
}

/// `Timer::pause`: the timer is paused and otherwise unchanged.
#[verifier::external_body]
pub(crate) fn pause_timer(t: &mut Timer)
    ensures
        timer_state(*final(t)) == (TimerState { paused: true, ..timer_state(*old(t)) }),
{
    t.pause();
}

/// `Timer::set_duration` to `duration_ms` milliseconds: only the interval
/// changes.
#[verifier::external_body]
pub(crate) fn set_timer_duration(t: &mut Timer, duration_ms: u64)
    ensures
        timer_state(*final(t)) == (TimerState {
            duration: duration_ms as nat * nanos_per_milli(),
            ..timer_state(*old(t))
        }),
{
    t.set_duration(Duration::from_millis(duration_ms));
}

/// `Timer::reset`: the count goes back to zero and the timer has not
/// finished; the interval, the mode and whether it is paused stay.
#[verifier::external_body]
pub(crate) fn reset_timer(t: &mut Timer)
    ensures
        timer_state(*final(t)) == (TimerState {
            elapsed: 0,
            finished: false,
            ..timer_state(*old(t))
        }),
{
    t.reset();
}

} // verus!

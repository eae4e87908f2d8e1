//! The playback state of one instance, and the step it takes on every tick.
//!
//! A player shows one frame at a time. Its timer runs for the display time
//! of that frame; when the timer has finished, the player moves to the next
//! frame and the timer starts over with that frame's time. Moving from the
//! last frame back to the first ends a loop: a player that repeats for ever
//! goes on, one with repetitions left uses one up, and one with none left
//! has completed. A completed player shows the first frame with its timer
//! paused, so that no later tick moves it again.
//!
//! A tick moves the player by one frame at most. Time beyond the end of the
//! current frame is not carried over to the next one.

use crate::asset::GifAsset;
use crate::clock::fresh;
use crate::clock::nanos_per_milli;
use crate::clock::pause_timer;
use crate::clock::repeating_timer;
use crate::clock::reset_timer;
use crate::clock::set_timer_duration;
use crate::clock::tick_timer;
use crate::clock::ticked;
use crate::clock::timer_finished;
use crate::clock::timer_state;
use crate::clock::TimerState;
use bevy::time::Timer;
use vstd::prelude::*;

verus! {

/// The frame that is shown, the timer that runs for it, and the repetitions
/// that remain after the loop now playing.
///
/// `remaining` is `None` for an animation that repeats for ever, `Some(0)`
/// during the last loop and `Some(n)` while `n` more loops will follow.
#[derive(Debug, Clone)]
pub struct GifPlayer {
    pub current: usize,
    pub timer: Timer,
    pub remaining: Option<u16>,
}

/// A player as the contracts see it.
pub struct PlayerState {
    pub current: nat,
    pub timer: TimerState,
    pub remaining: Option<u16>,
}

impl View for GifPlayer {
    type V = PlayerState;

    open spec fn view(&self) -> PlayerState {
        PlayerState {
            current: self.current as nat,
            timer: timer_state(self.timer),
            remaining: self.remaining,
        }
    }
}

/// What a tick did to a player.
#[derive(Debug, Clone, Copy, PartialEq, Eq, Structural)]
pub enum Tick {
    /// The timer has not finished: the same frame stays.
    Waiting,
    /// The player moved to the frame with this index, which is to be shown.
    Advanced(usize),
    /// The last loop has ended. The player moved to the frame with this
    /// index, which is to be shown, and stopped.
    Completed(usize),
}

/// The display time of a player that has not been started, in milliseconds.
pub open spec fn default_interval_ms() -> nat {
    100
}

/// The player of an instance that shows nothing yet.
pub open spec fn unstarted() -> PlayerState {
    PlayerState {
        current: 0,
        timer: fresh(default_interval_ms() * nanos_per_milli()),
        remaining: None,
    }
}

/// The player at the start of an animation whose first frame is shown for
/// `first_ms` milliseconds and which repeats `times` times.
pub open spec fn started(first_ms: nat, times: Option<u16>) -> PlayerState {
    PlayerState { current: 0, timer: fresh(first_ms * nanos_per_milli()), remaining: times }
}

/// Whether a tick of `delta` nanoseconds finds the frame's time used up.
pub open spec fn expires(s: PlayerState, delta: nat) -> bool {
    ticked(s.timer, delta).finished
}

/// The frame that follows the current one among `count` frames.
pub open spec fn next_frame(s: PlayerState, count: nat) -> nat {
    ((s.current as int + 1) % (count as int)) as nat
}

/// Whether a tick of `delta` nanoseconds ends the last loop.
pub open spec fn completes(s: PlayerState, count: nat, delta: nat) -> bool {
    expires(s, delta) && next_frame(s, count) == 0 && s.remaining == Some(0u16)
}

/// The repetitions that remain once the player has moved on from `s`.
pub open spec fn remaining_after(s: PlayerState, count: nat) -> Option<u16> {
    match s.remaining {
        Some(n) if n > 0 && next_frame(s, count) == 0 => Some((n - 1) as u16),
        _ => s.remaining,
    }
}

/// The player after a tick of `delta` nanoseconds, for frames with the
/// display times `durations` in milliseconds.
pub open spec fn step(s: PlayerState, durations: Seq<nat>, delta: nat) -> PlayerState {
    let t = ticked(s.timer, delta);
    if !t.finished {
        PlayerState { timer: t, ..s }
    } else {
        let next = next_frame(s, durations.len());
        PlayerState {
            current: next,
            timer: TimerState {
                elapsed: 0,
                duration: durations[next as int] * nanos_per_milli(),
                paused: t.paused || completes(s, durations.len(), delta),
                finished: false,
                repeating: t.repeating,
            },
            remaining: remaining_after(s, durations.len()),
        }
    }
}

/// What a tick of `delta` nanoseconds reports, for `count` frames.
pub open spec fn reported(s: PlayerState, count: nat, delta: nat) -> Tick {
    if !expires(s, delta) {
        Tick::Waiting
    } else if completes(s, count, delta) {
        Tick::Completed(next_frame(s, count) as usize)
    } else {
        Tick::Advanced(next_frame(s, count) as usize)
    }
}

impl Default for GifPlayer {
    /// A player that shows nothing yet: frame 0, a timer of 100 ms, repeating
    /// for ever.
    fn default() -> (p: Self)
        ensures
            p@ == unstarted(),
    {
        GifPlayer { current: 0, timer: repeating_timer(100), remaining: None }
    }
}

impl GifPlayer {
    /// Puts the player at the start of `asset`: the first frame, a timer for
    /// its display time, and the repetitions the animation asks for.
    pub fn start<H>(&mut self, asset: &GifAsset<H>)
        requires
            asset.frames@.len() > 0,
        ensures
            final(self)@ == started(asset.durations()[0], asset.times),
    {
        self.current = 0;
        self.timer = repeating_timer(asset.frames[0].duration_ms);
        self.remaining = asset.times;
    }

    /// Lets `delta_ns` nanoseconds pass.
    ///
    /// While the timer has not finished, nothing but the timer changes. When
    /// it has, the player moves to the next frame, and the result names the
    /// frame to show. Where that move ends the last loop the timer is paused
    /// and the result is [`Tick::Completed`]: this happens once, because a
    /// paused timer does not finish again.
    pub fn tick<H>(&mut self, asset: &GifAsset<H>, delta_ns: u64) -> (out: Tick)
        requires
            asset.frames@.len() > 0,
        ensures
            final(self)@ == step(old(self)@, asset.durations(), delta_ns as nat),
            out == reported(old(self)@, asset.durations().len(), delta_ns as nat),
    {
        tick_timer(&mut self.timer, delta_ns);
        if !timer_finished(&self.timer) {
            return Tick::Waiting;
        }
        let count: usize = asset.frames.len();
        let next: usize = (self.current % count + 1) % count;
        assert(next == next_frame(old(self)@, count as nat)) by {
            vstd::arithmetic::div_mod::lemma_add_mod_noop(
                self.current as int,
                1,
                count as int,
            );
            vstd::arithmetic::div_mod::lemma_mod_twice(self.current as int, count as int);
            vstd::arithmetic::div_mod::lemma_add_mod_noop(
                self.current as int % count as int,
                1,
                count as int,
            );
        }
        let mut completed = false;
        if next == 0 {
            match self.remaining {
                Some(left) => {
                    if left == 0 {
                        pause_timer(&mut self.timer);
                        completed = true;
                    } else {
                        self.remaining = Some(left - 1);
                    }
                },
                None => {},
            }
        }
        self.current = next;
        set_timer_duration(&mut self.timer, asset.frames[next].duration_ms);
        reset_timer(&mut self.timer);
        if completed {
            Tick::Completed(next)
        } else {
            Tick::Advanced(next)
        }
    }
}

/// The repetitions that remain change only when the player goes from the
/// last frame back to the first, and then only by one: a tick that does not
/// move the player there leaves them as they are.
pub proof fn lemma_remaining_changes_at_the_wrap(s: PlayerState, durations: Seq<nat>, delta: nat)
    ensures
        !(expires(s, delta) && next_frame(s, durations.len()) == 0) ==> step(
            s,
            durations,
            delta,
        ).remaining == s.remaining,
        step(s, durations, delta).remaining != s.remaining ==> (s.remaining matches Some(n) && n
            > 0 && step(s, durations, delta).remaining == Some((n - 1) as u16)),
{
}

} // verus!

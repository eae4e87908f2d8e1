//! A player over many ticks: what holds of every run.

use crate::clock::max_nanos;
use crate::clock::nanos_per_milli;
use crate::clock::ticked;
use crate::player::completes;
use crate::player::expires;
use crate::player::next_frame;
use crate::player::started;
use crate::player::step;
use crate::player::PlayerState;
use vstd::prelude::*;

verus! {

/// The player after the ticks `deltas`, each in nanoseconds, first to last.
pub open spec fn run(s: PlayerState, durations: Seq<nat>, deltas: Seq<nat>) -> PlayerState
    decreases deltas.len(),
{
    if deltas.len() == 0 {
        s
    } else {
        run(step(s, durations, deltas[0]), durations, deltas.drop_first())
    }
}

/// How many of the ticks `deltas` report that the last loop has ended.
pub open spec fn completions(s: PlayerState, durations: Seq<nat>, deltas: Seq<nat>) -> nat
    decreases deltas.len(),
{
    if deltas.len() == 0 {
        0
    } else {
        let now: nat = if completes(s, durations.len(), deltas[0]) {
            1
        } else {
            0
        };
        now + completions(step(s, durations, deltas[0]), durations, deltas.drop_first())
    }
}

/// The sum of `xs`.
pub open spec fn total(xs: Seq<nat>) -> nat
    decreases xs.len(),
{
    if xs.len() == 0 {
        0
    } else {
        xs[0] + total(xs.drop_first())
    }
}

/// The sum of `xs` from index `from` on.
pub open spec fn total_from(xs: Seq<nat>, from: nat) -> nat
    decreases xs.len() - from,
{
    if from >= xs.len() {
        0
    } else {
        xs[from as int] + total_from(xs, from + 1)
    }
}

/// A player whose timer is paused and has not finished.
pub open spec fn halted(s: PlayerState) -> bool {
    s.timer.paused && !s.timer.finished
}

/// A player in the middle of an animation: it shows one of the frames, and
/// its timer repeats, is not paused, runs for that frame's display time and
/// has not reached it.
pub open spec fn playing(s: PlayerState, durations: Seq<nat>) -> bool {
    &&& s.current < durations.len()
    &&& s.timer.repeating
    &&& !s.timer.paused
    &&& s.timer.duration == durations[s.current as int] * nanos_per_milli()
    &&& s.timer.elapsed <= s.timer.duration
}

/// The time, in nanoseconds, that must pass before a playing player with
/// `left` repetitions can complete: the rest of the frame shown, the frames
/// after it in this loop, and every loop that is still to come.
pub open spec fn time_to_completion(s: PlayerState, durations: Seq<nat>, left: nat) -> int {
    (s.timer.duration - s.timer.elapsed) + nanos_per_milli() * (total_from(
        durations,
        s.current + 1,
    ) + left * total_from(durations, 0))
}

/// A player that repeats for ever still does so after any number of ticks,
/// and none of them reports completion.
pub proof fn lemma_endless_never_completes(s: PlayerState, durations: Seq<nat>, deltas: Seq<nat>)
    requires
        s.remaining is None,
    ensures
        run(s, durations, deltas).remaining is None,
        completions(s, durations, deltas) == 0,
    decreases deltas.len(),
{
    if deltas.len() > 0 {
        lemma_endless_never_completes(
            step(s, durations, deltas[0]),
            durations,
            deltas.drop_first(),
        );
    }
}

/// A halted player stays as it is: no tick moves it or reports completion.
pub proof fn lemma_halted_stays(s: PlayerState, durations: Seq<nat>, deltas: Seq<nat>)
    requires
        halted(s),
    ensures
        run(s, durations, deltas) == s,
        completions(s, durations, deltas) == 0,
    decreases deltas.len(),
{
    if deltas.len() > 0 {
        assert(ticked(s.timer, deltas[0]) == s.timer);
        assert(step(s, durations, deltas[0]) == s);
        lemma_halted_stays(s, durations, deltas.drop_first());
    }
}

/// Whatever the player and the ticks, completion is reported once at most:
/// the tick that reports it leaves the player halted.
pub proof fn lemma_completes_at_most_once(s: PlayerState, durations: Seq<nat>, deltas: Seq<nat>)
    ensures
        completions(s, durations, deltas) <= 1,
    decreases deltas.len(),
{
    if deltas.len() > 0 {
        let after = step(s, durations, deltas[0]);
        if completes(s, durations.len(), deltas[0]) {
            assert(halted(after));
            lemma_halted_stays(after, durations, deltas.drop_first());
        } else {
            lemma_completes_at_most_once(after, durations, deltas.drop_first());
        }
    }
}

/// A playing player with `left` repetitions does not complete before the
/// time to its completion has passed: ticks that add up to less report none.
pub proof fn lemma_no_completion_before(
    s: PlayerState,
    durations: Seq<nat>,
    left: u16,
    deltas: Seq<nat>,
)
    requires
        playing(s, durations),
        s.remaining == Some(left),
        total(deltas) < time_to_completion(s, durations, left as nat),
    ensures
        completions(s, durations, deltas) == 0,
    decreases deltas.len(),
{
    if deltas.len() > 0 {
        let delta = deltas[0];
        let rest = deltas.drop_first();
        let after = step(s, durations, delta);
        let count = durations.len();
        let unit = nanos_per_milli();
        let tail = total_from(durations, s.current + 1);
        let whole = total_from(durations, 0);
        if !expires(s, delta) {
            assert(time_to_completion(after, durations, left as nat) >= time_to_completion(
                s,
                durations,
                left as nat,
            ) - delta);
            lemma_no_completion_before(after, durations, left, rest);
        } else if s.current + 1 < count {
            let next = s.current + 1;
            assert(next_frame(s, count) == next) by {
                vstd::arithmetic::div_mod::lemma_small_mod(next, count);
            }
            let shown = durations[next as int];
            let later = total_from(durations, next + 1);
            assert(tail == shown + later);
            assert(unit * (tail + left * whole) == shown * unit + unit * (later + left * whole))
                by (nonlinear_arith)
                requires
                    tail == shown + later,
            ;
            lemma_no_completion_before(after, durations, left, rest);
        } else {
            assert(next_frame(s, count) == 0) by {
                vstd::arithmetic::div_mod::lemma_mod_self_0(count as int);
            }
            assert(tail == 0);
            assert(whole == durations[0] + total_from(durations, 1));
            if left > 0 {
                let fewer = (left - 1) as u16;
                assert(unit * (tail + left * whole) == durations[0] * unit + unit * (total_from(
                    durations,
                    1,
                ) + fewer * whole)) by (nonlinear_arith)
                    requires
                        tail == 0,
                        whole == durations[0] + total_from(durations, 1),
                        fewer == left - 1,
                ;
                lemma_no_completion_before(after, durations, fewer, rest);
            } else {
                assert(unit * (tail + left * whole) == 0) by (nonlinear_arith)
                    requires
                        tail == 0,
                        left == 0,
                ;
            }
        }
    }
}

/// From its start, an animation that repeats `times` times plays for its
/// whole length `times + 1` times over before it completes: ticks that add up
/// to less report no completion.
pub proof fn lemma_no_completion_before_last_loop_ends(
    durations: Seq<nat>,
    times: u16,
    deltas: Seq<nat>,
)
    requires
        durations.len() > 0,
        total(deltas) < (times + 1) * total_from(durations, 0) * nanos_per_milli(),
    ensures
        completions(started(durations[0], Some(times)), durations, deltas) == 0,
{
    let s = started(durations[0], Some(times));
    let unit = nanos_per_milli();
    let whole = total_from(durations, 0);
    assert(whole == durations[0] + total_from(durations, 1));
    assert(time_to_completion(s, durations, times as nat) == (times + 1) * whole * unit)
        by (nonlinear_arith)
        requires
            time_to_completion(s, durations, times as nat) == durations[0] * unit + unit * (
            total_from(durations, 1) + times * whole),
            whole == durations[0] + total_from(durations, 1),
    ;
    lemma_no_completion_before(s, durations, times, deltas);
}

/// Ticks on the beat: each lasts exactly as long as the frame that is shown
/// when it comes, for a player that shows the frame `from` at the first.
pub open spec fn on_the_beat(durations: Seq<nat>, from: nat, ticks: nat) -> Seq<nat> {
    Seq::new(
        ticks,
        |i: int| durations[(from + i) % (durations.len() as int)] * nanos_per_milli(),
    )
}

/// The ticks on the beat that bring a player at frame `current`, with `left`
/// repetitions, to its completion: one for each frame that is left in this
/// loop and in the loops to come.
pub open spec fn beats_to_completion(count: nat, current: nat, left: nat) -> int {
    (count - current) + left * count
}

/// Every display time is one that a timer can hold.
pub open spec fn timed(durations: Seq<nat>) -> bool {
    forall|i: int|
        0 <= i < durations.len() ==> #[trigger] durations[i] * nanos_per_milli() <= max_nanos()
}

proof fn lemma_beat_goes_on(durations: Seq<nat>, from: nat, ticks: nat)
    requires
        from < durations.len(),
        ticks > 0,
    ensures
        on_the_beat(durations, from, ticks)[0] == durations[from as int] * nanos_per_milli(),
        on_the_beat(durations, from, ticks).drop_first() == on_the_beat(
            durations,
            ((from as int + 1) % (durations.len() as int)) as nat,
            (ticks - 1) as nat,
        ),
{
    let count = durations.len() as int;
    let next = (from as int + 1) % count;
    let rest = on_the_beat(durations, from, ticks).drop_first();
    let other = on_the_beat(durations, next as nat, (ticks - 1) as nat);
    vstd::arithmetic::div_mod::lemma_small_mod(from, count as nat);
    assert forall|i: int| 0 <= i < rest.len() implies rest[i] == other[i] by {
        vstd::arithmetic::div_mod::lemma_add_mod_noop(from as int + 1, i, count);
        vstd::arithmetic::div_mod::lemma_add_mod_noop(next, i, count);
        vstd::arithmetic::div_mod::lemma_mod_twice(from as int + 1, count);
    }
    assert(rest == other);
}

/// On the beat, a playing player whose frame has just begun completes with
/// the last of its beats to completion and with no tick before it.
pub proof fn lemma_beats_complete(s: PlayerState, durations: Seq<nat>, left: u16, ticks: nat)
    requires
        playing(s, durations),
        timed(durations),
        s.timer.elapsed == 0,
        s.remaining == Some(left),
        ticks <= beats_to_completion(durations.len(), s.current, left as nat),
    ensures
        completions(s, durations, on_the_beat(durations, s.current, ticks)) == if ticks
            == beats_to_completion(durations.len(), s.current, left as nat) {
            1nat
        } else {
            0nat
        },
    decreases ticks,
{
    let count = durations.len();
    let deltas = on_the_beat(durations, s.current, ticks);
    if ticks > 0 {
        lemma_beat_goes_on(durations, s.current, ticks);
        let after = step(s, durations, deltas[0]);
        let rest = (ticks - 1) as nat;
        assert(durations[s.current as int] * nanos_per_milli() <= max_nanos());
        assert(expires(s, deltas[0]));
        if s.current + 1 < count {
            vstd::arithmetic::div_mod::lemma_small_mod(s.current + 1, count);
            lemma_beats_complete(after, durations, left, rest);
        } else {
            vstd::arithmetic::div_mod::lemma_mod_self_0(count as int);
            if left > 0 {
                let fewer = (left - 1) as u16;
                assert(left * count == count + fewer * count) by (nonlinear_arith)
                    requires
                        fewer == left - 1,
                ;
                lemma_beats_complete(after, durations, fewer, rest);
            } else {
                assert(left * count == 0) by (nonlinear_arith)
                    requires
                        left == 0,
                ;
                assert(halted(after));
                lemma_halted_stays(after, durations, deltas.drop_first());
            }
        }
    } else {
        assert(left * count >= 0) by (nonlinear_arith);
    }
}

/// The time that the beats to completion take: the frames that are left in
/// this loop, and every loop to come.
pub proof fn lemma_beats_take(durations: Seq<nat>, current: nat, left: nat)
    requires
        current < durations.len(),
    ensures
        total(
            on_the_beat(
                durations,
                current,
                beats_to_completion(durations.len(), current, left) as nat,
            ),
        ) == nanos_per_milli() * (total_from(durations, current) + left * total_from(durations, 0)),
    decreases beats_to_completion(durations.len(), current, left),
{
    let count = durations.len();
    let unit = nanos_per_milli();
    let whole = total_from(durations, 0);
    let shown = durations[current as int];
    let later = total_from(durations, current + 1);
    assert(left * count >= 0) by (nonlinear_arith);
    let ticks = beats_to_completion(count, current, left) as nat;
    lemma_beat_goes_on(durations, current, ticks);
    assert(total_from(durations, current) == shown + later);
    if current + 1 < count {
        vstd::arithmetic::div_mod::lemma_small_mod(current + 1, count);
        lemma_beats_take(durations, current + 1, left);
        assert(shown * unit + unit * (later + left * whole) == unit * ((shown + later) + left
            * whole)) by (nonlinear_arith);
    } else {
        vstd::arithmetic::div_mod::lemma_mod_self_0(count as int);
        assert(later == 0);
        if left > 0 {
            let fewer = (left - 1) as nat;
            assert(left * count == count + fewer * count) by (nonlinear_arith)
                requires
                    fewer == left - 1,
            ;
            lemma_beats_take(durations, 0, fewer);
            assert(shown * unit + unit * (whole + fewer * whole) == unit * ((shown + later) + left
                * whole)) by (nonlinear_arith)
                requires
                    later == 0,
                    fewer == left - 1,
            ;
        } else {
            assert(left * count == 0) by (nonlinear_arith)
                requires
                    left == 0,
            ;
            assert(on_the_beat(durations, 0, 0) == Seq::<nat>::empty());
            assert(total(on_the_beat(durations, 0, 0)) == 0);
            assert(shown * unit == unit * ((shown + later) + left * whole)) by (nonlinear_arith)
                requires
                    later == 0,
                    left == 0,
            ;
        }
    }
}

/// An animation of `count` frames that repeats `times` times completes
/// exactly once when it is played on the beat from its start: with the tick
/// that ends the last of its `times + 1` loops, after it has run for its
/// whole length that many times over, and with no tick before.
pub proof fn lemma_completes_on_schedule(durations: Seq<nat>, times: u16, ticks: nat)
    requires
        durations.len() > 0,
        timed(durations),
        ticks <= (times + 1) * durations.len(),
    ensures
        completions(
            started(durations[0], Some(times)),
            durations,
            on_the_beat(durations, 0, ticks),
        ) == if ticks == (times + 1) * durations.len() {
            1nat
        } else {
            0nat
        },
        total(on_the_beat(durations, 0, ((times + 1) * durations.len()) as nat)) == (times + 1)
            * total_from(durations, 0) * nanos_per_milli(),
{
    let count = durations.len();
    let s = started(durations[0], Some(times));
    let whole = total_from(durations, 0);
    let unit = nanos_per_milli();
    assert((times + 1) * count == beats_to_completion(count, 0, times as nat))
        by (nonlinear_arith);
    lemma_beats_complete(s, durations, times, ticks);
    lemma_beats_take(durations, 0, times as nat);
    assert(unit * (whole + times * whole) == (times + 1) * whole * unit) by (nonlinear_arith);
}

} // verus!

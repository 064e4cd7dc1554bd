//! What a session does when the clock advances by exactly each wait it asks
//! for, and the laws that such runs obey.

use vstd::prelude::*;

use crate::session::{micros_of_ms, Action, Phase, ToneSession};
use crate::speaker::{Note, Pitch, Playback};

verus! {

/// Microseconds that the player waits after carrying out `a`.
pub open spec fn wait_of(a: Action) -> int {
    match a {
        Action::Rest { duration_ms } => micros_of_ms(duration_ms),
        Action::High { wait_us } => wait_us as int,
        Action::Low { wait_us } => wait_us as int,
        Action::Done => 0,
    }
}

/// The first `steps` actions of `s` when the clock reads `now` at the first
/// step and then advances by exactly each wait.
pub open spec fn ideal_run(s: ToneSession, now: int, steps: nat) -> Seq<Action>
    decreases steps,
{
    if steps == 0 {
        Seq::empty()
    } else {
        let (s2, a) = s.next(now);
        seq![a] + ideal_run(s2, now + wait_of(a), (steps - 1) as nat)
    }
}

/// `cycles` full square-wave cycles: high, then low, each for `half_period_us`.
pub open spec fn square_wave(half_period_us: u32, cycles: nat) -> Seq<Action> {
    Seq::new(
        2 * cycles,
        |i: int|
            if i % 2 == 0 {
                Action::High { wait_us: half_period_us }
            } else {
                Action::Low { wait_us: half_period_us }
            },
    )
}

/// `n` times `Done`.
pub open spec fn done_times(n: nat) -> Seq<Action> {
    Seq::new(n, |i: int| Action::Done)
}

/// Full cycles of a wave of half-period `half_period_us` played for
/// `duration_ms`: the duration in microseconds divided by the period, rounded
/// up, since a cycle that has begun is completed.
pub open spec fn cycle_count(half_period_us: u32, duration_ms: u32) -> nat {
    if half_period_us == 0 {
        0
    } else {
        ((micros_of_ms(duration_ms) + 2 * half_period_us - 1) / (2 * half_period_us)) as nat
    }
}

/// A finished session only ever reports `Done`.
pub proof fn lemma_finished_run(s: ToneSession, now: int, steps: nat)
    requires
        s.phase == Phase::Finished,
    ensures
        ideal_run(s, now, steps) == done_times(steps),
    decreases steps,
{
    if steps > 0 {
        lemma_finished_run(s, now, (steps - 1) as nat);
        assert(ideal_run(s, now, steps) =~= done_times(steps));
    } else {
        assert(ideal_run(s, now, steps) =~= done_times(steps));
    }
}

/// A rest is one wait for its whole duration, with the pin left alone, and
/// then the note is done.
pub proof fn lemma_rest_run(note: Note, t0: u64, steps: nat)
    requires
        note.playback_spec() is Rest,
    ensures
        ideal_run(ToneSession::started(note, t0), t0 as int, steps + 1) == seq![
            Action::Rest { duration_ms: note.1 },
        ] + done_times(steps),
{
    let s = ToneSession::started(note, t0);
    let (s2, a) = s.next(t0 as int);
    lemma_finished_run(s2, t0 + wait_of(a), steps);
}

/// A silent note rests for its duration: one wait of exactly that long and no
/// change of the pin.
pub proof fn lemma_silent_run(duration_ms: u32, t0: u64, steps: nat)
    ensures
        ideal_run(ToneSession::started(Note(Pitch::Silent, duration_ms), t0), t0 as int, steps + 1)
            == seq![Action::Rest { duration_ms }] + done_times(steps),
{
    lemma_rest_run(Note(Pitch::Silent, duration_ms), t0, steps);
}

/// A frequency of zero, or one so high that a period is under two
/// microseconds, rests for the duration exactly as silence does.
pub proof fn lemma_degenerate_frequency_rests(f: u32, duration_ms: u32)
    requires
        f == 0 || 1_000_000int / (f as int) < 2,
    ensures
        Note(Pitch::Frequency(f), duration_ms).playback_spec() == (Playback::Rest { duration_ms }),
        Note(Pitch::Frequency(f), duration_ms).playback_spec() == Note(
            Pitch::Silent,
            duration_ms,
        ).playback_spec(),
{
}

/// With a period of `2 * half` microseconds and `total` microseconds to fill,
/// the rounded-up cycle count is the least number of cycles that fills it.
proof fn lemma_cycle_bounds(half: int, total: int, k: int)
    requires
        half > 0,
        total >= 0,
        0 <= k,
    ensures
        (total + 2 * half - 1) / (2 * half) >= 0,
        k < (total + 2 * half - 1) / (2 * half) <==> 2 * half * k < total,
{
    let m = 2 * half;
    let n = (total + m - 1) / m;
    vstd::arithmetic::div_mod::lemma_fundamental_div_mod(total + m - 1, m);
    let r = (total + m - 1) % m;
    assert(0 <= r < m) by {
        vstd::arithmetic::div_mod::lemma_mod_bound(total + m - 1, m);
    }
    assert(total + m - 1 == m * n + r);
    assert(n >= 0) by (nonlinear_arith)
        requires
            total + m - 1 == m * n + r,
            0 <= r < m,
            total >= 0,
    ;
    if k < n {
        assert(m * k <= m * (n - 1)) by (nonlinear_arith)
            requires
                k <= n - 1,
                m > 0,
        ;
        assert(m * (n - 1) == m * n - m) by (nonlinear_arith);
    } else {
        assert(m * k >= m * n) by (nonlinear_arith)
            requires
                k >= n,
                m > 0,
        ;
    }
}

/// From the start of a cycle at `k` whole periods past the start, the session
/// completes the remaining cycles and is then done.
proof fn lemma_square_run_from(s: ToneSession, k: nat)
    requires
        s.phase == Phase::CycleStart,
        s.playback is Square,
        s.playback->half_period_us > 0,
        k <= cycle_count(s.playback->half_period_us, s.playback.duration_ms()),
    ensures
        ideal_run(
            s,
            s.start_us + 2 * s.playback->half_period_us * k,
            (2 * (cycle_count(s.playback->half_period_us, s.playback.duration_ms()) - k)
                + 1) as nat,
        ) == square_wave(
            s.playback->half_period_us,
            (cycle_count(s.playback->half_period_us, s.playback.duration_ms()) - k) as nat,
        ) + seq![Action::Done],
    decreases cycle_count(s.playback->half_period_us, s.playback.duration_ms()) - k,
{
    let h = s.playback->half_period_us;
    let d = s.playback.duration_ms();
    let n = cycle_count(h, d);
    let now = s.start_us + 2 * h * k;
    lemma_cycle_bounds(h as int, micros_of_ms(d), k as int);
    if k == n {
        let (s2, a) = s.next(now);
        assert(a == Action::Done);
        lemma_finished_run(s2, now, 0);
        assert(ideal_run(s, now, 1) =~= square_wave(h, 0) + seq![Action::Done]);
    } else {
        let steps = (2 * (n - k) + 1) as nat;
        let (s1, a1) = s.next(now);
        assert(a1 == Action::High { wait_us: h });
        let (s2, a2) = s1.next(now + h);
        assert(a2 == Action::Low { wait_us: h });
        assert(s2 == s);
        assert(now + h + h == s.start_us + 2 * h * (k + 1)) by (nonlinear_arith)
            requires
                now == s.start_us + 2 * h * k,
        ;
        lemma_square_run_from(s, k + 1);
        let rest = ideal_run(s, now + h + h, (steps - 2) as nat);
        assert(ideal_run(s1, now + h, (steps - 1) as nat) == seq![a2] + rest);
        assert(ideal_run(s, now, steps) == seq![a1] + (seq![a2] + rest));
        assert(ideal_run(s, now, steps) =~= square_wave(h, (n - k) as nat) + seq![Action::Done]);
    }
}

/// Under an ideal clock, a note whose playback is a square wave of half-period
/// `h` and duration `d` drives exactly `cycle_count(h, d)` full high-then-low
/// cycles, each half lasting `h` microseconds, and is then done. The cycles
/// cover the duration, and the last of them began before it ended.
pub proof fn lemma_square_run(note: Note, t0: u64)
    requires
        note.playback_spec() is Square,
    ensures
        ideal_run(
            ToneSession::started(note, t0),
            t0 as int,
            2 * cycle_count(
                note.playback_spec()->half_period_us,
                note.playback_spec().duration_ms(),
            ) + 1,
        ) == square_wave(
            note.playback_spec()->half_period_us,
            cycle_count(note.playback_spec()->half_period_us, note.playback_spec().duration_ms()),
        ) + seq![Action::Done],
{
    let s = ToneSession::started(note, t0);
    let h = s.playback->half_period_us;
    let total = micros_of_ms(s.playback.duration_ms());
    let n = cycle_count(h, s.playback.duration_ms());
    lemma_cycle_bounds(h as int, total, n as int);
    if n > 0 {
        lemma_cycle_bounds(h as int, total, n - 1);
    }
    lemma_square_run_from(s, 0);
    assert(s.start_us + 2 * s.playback->half_period_us * 0 == t0) by (nonlinear_arith)
        requires
            s.start_us == t0,
    ;
}

/// Two sessions that agree on all but their start and are stepped at the
/// same offsets from their starts act alike.
proof fn lemma_run_shift(s1: ToneSession, now1: int, s2: ToneSession, now2: int, steps: nat)
    requires
        s1.playback == s2.playback,
        s1.phase == s2.phase,
        now1 - s1.start_us == now2 - s2.start_us,
    ensures
        ideal_run(s1, now1, steps) == ideal_run(s2, now2, steps),
    decreases steps,
{
    if steps > 0 {
        let (t1, a1) = s1.next(now1);
        let (t2, a2) = s2.next(now2);
        lemma_run_shift(t1, now1 + wait_of(a1), t2, now2 + wait_of(a2), (steps - 1) as nat);
    }
}

/// Playing the same note twice gives the same actions both times, whenever
/// each play begins: a session depends on its note and the time elapsed since
/// it began, and on nothing left from an earlier note.
pub proof fn lemma_replay_identical(note: Note, t0: u64, t1: u64, steps: nat)
    ensures
        ideal_run(ToneSession::started(note, t0), t0 as int, steps) == ideal_run(
            ToneSession::started(note, t1),
            t1 as int,
            steps,
        ),
{
    lemma_run_shift(
        ToneSession::started(note, t0),
        t0 as int,
        ToneSession::started(note, t1),
        t1 as int,
        steps,
    );
}

/// The actions of `s` when its successive steps see the clock readings
/// `clocks`, whatever they are.
pub open spec fn clock_run(s: ToneSession, clocks: Seq<int>) -> Seq<Action>
    decreases clocks.len(),
{
    if clocks.len() == 0 {
        Seq::empty()
    } else {
        let (s2, a) = s.next(clocks[0]);
        seq![a] + clock_run(s2, clocks.drop_first())
    }
}

/// The `i`-th move of a square wave of half-period `h`: high on even steps,
/// low on odd ones.
pub open spec fn wave_action(h: u32, i: int) -> Action {
    if i % 2 == 0 {
        Action::High { wait_us: h }
    } else {
        Action::Low { wait_us: h }
    }
}

/// The shape of a clock run of a square-wave session whose move count so far
/// has the parity of `p`.
proof fn lemma_clock_run_shape(s: ToneSession, clocks: Seq<int>, p: nat)
    requires
        s.playback is Square,
        s.phase != Phase::Resting,
        s.phase == Phase::CycleStart ==> p % 2 == 0,
        s.phase == Phase::HighHeld ==> p % 2 == 1,
    ensures
        clock_run(s, clocks).len() == clocks.len(),
        forall|i: int|
            0 <= i < clocks.len() ==> clock_run(s, clocks)[i] == Action::Done || clock_run(
                s,
                clocks,
            )[i] == wave_action(s.playback->half_period_us, i + p),
        forall|i: int, j: int|
            0 <= i <= j < clocks.len() && clock_run(s, clocks)[i] == Action::Done ==> clock_run(
                s,
                clocks,
            )[j] == Action::Done,
        forall|i: int|
            0 < i < clocks.len() && #[trigger] clock_run(s, clocks)[i] == Action::Done && clock_run(
                s,
                clocks,
            )[i - 1] != Action::Done ==> (i + p) % 2 == 0,
        clocks.len() > 0 && clock_run(s, clocks)[0] == Action::Done ==> s.phase != Phase::HighHeld,
        s.phase == Phase::Finished ==> forall|i: int|
            0 <= i < clocks.len() ==> clock_run(s, clocks)[i] == Action::Done,
    decreases clocks.len(),
{
    if clocks.len() > 0 {
        let (s2, a) = s.next(clocks[0]);
        let rest = clock_run(s2, clocks.drop_first());
        let acts = clock_run(s, clocks);
        lemma_clock_run_shape(s2, clocks.drop_first(), p + 1);
        assert(acts == seq![a] + rest);
        assert(s.phase == Phase::Finished ==> s2.phase == Phase::Finished);
        assert(a == Action::Done ==> s2.phase == Phase::Finished);
        assert forall|i: int| 1 <= i < clocks.len() implies acts[i] == rest[i - 1] by {}
        assert forall|i: int|
            0 <= i < clocks.len() implies acts[i] == Action::Done || acts[i] == wave_action(
                s.playback->half_period_us,
                i + p,
            ) by {
            if i > 0 {
                assert((i - 1) + (p + 1) == i + p);
            }
        }
        assert forall|i: int, j: int|
            0 <= i <= j < clocks.len() && acts[i] == Action::Done implies acts[j]
            == Action::Done by {
            if i == 0 && j > 0 {
                assert(rest[j - 1] == Action::Done);
            }
        }
        assert forall|i: int|
            0 < i < clocks.len() && #[trigger] acts[i] == Action::Done && acts[i - 1] != Action::Done implies (i
                + p) % 2 == 0 by {
            if i == 1 {
                assert(s2.phase != Phase::HighHeld);
                assert(a != Action::Done);
            } else {
                assert((i - 1) + (p + 1) == i + p);
            }
        }
    }
}

/// Whatever the clock reads at each step, a note whose playback is a square
/// wave of half-period `h` moves the pin high, low, high, low, ..., each move
/// followed by a wait of `h` microseconds, until it is done; it is done only
/// after a low half, so every cycle it begins is completed, and once done it
/// stays done.
pub proof fn lemma_square_alternates(note: Note, t0: u64, clocks: Seq<int>)
    requires
        note.playback_spec() is Square,
    ensures
        clock_run(ToneSession::started(note, t0), clocks).len() == clocks.len(),
        forall|i: int|
            0 <= i < clocks.len() ==> clock_run(ToneSession::started(note, t0), clocks)[i]
                == Action::Done || clock_run(ToneSession::started(note, t0), clocks)[i]
                == wave_action(note.playback_spec()->half_period_us, i),
        forall|i: int, j: int|
            0 <= i <= j < clocks.len() && clock_run(ToneSession::started(note, t0), clocks)[i]
                == Action::Done ==> clock_run(ToneSession::started(note, t0), clocks)[j]
                == Action::Done,
        forall|i: int|
            0 < i < clocks.len() && #[trigger] clock_run(ToneSession::started(note, t0), clocks)[i]
                == Action::Done && clock_run(ToneSession::started(note, t0), clocks)[i - 1]
                != Action::Done ==> i % 2 == 0,
{
    lemma_clock_run_shape(ToneSession::started(note, t0), clocks, 0);
}

} // verus!

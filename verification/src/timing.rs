//! Tick timing in whole microseconds: the interval between moves, how it
//! shrinks as the snake grows, and the animation phase between two moves.

use vstd::prelude::*;

verus! {

/// Interval between two moves at the start of a round, in microseconds.
pub const BASE_MOVE_INTERVAL: u64 = 120_000;

/// The shortest interval between two moves, in microseconds.
pub const MIN_MOVE_INTERVAL: u64 = 40_000;

/// The animation phase that stands for one whole move. The phase counts in
/// thousandths of the way from one cell to the next.
pub const PROGRESS_SCALE: u32 = 1000;

/// The interval after one growth: 97 hundredths of the interval before,
/// rounded down to a microsecond, and never under the shortest interval.
pub open spec fn sped_up(interval: int) -> int {
    if interval <= MIN_MOVE_INTERVAL {
        interval
    } else if interval * 97 / 100 < MIN_MOVE_INTERVAL {
        MIN_MOVE_INTERVAL as int
    } else {
        interval * 97 / 100
    }
}

/// The animation phase `elapsed` microseconds after a move when moves are
/// `interval` microseconds apart: the elapsed share of the interval in
/// thousandths, held between nothing and a whole move.
pub open spec fn progress_at(elapsed: int, interval: int) -> int {
    if elapsed <= 0 {
        0
    } else if elapsed >= interval {
        PROGRESS_SCALE as int
    } else {
        elapsed * PROGRESS_SCALE / interval
    }
}

/// The time of the last move that is recorded when a turn is taken at once
/// at time `now`: four fifths of an interval in the past, so that the next
/// move comes after the remaining fifth.
pub open spec fn nudged(now: int, interval: int) -> int {
    now - interval * 4 / 5
}

/// Shortens the interval between moves after a growth.
pub fn speed_up(interval: u64) -> (shorter: u64)
    ensures
        shorter == sped_up(interval as int),
{
    if interval > MIN_MOVE_INTERVAL {
        let scaled: u64 = (interval as u128 * 97 / 100) as u64;
        if scaled < MIN_MOVE_INTERVAL {
            MIN_MOVE_INTERVAL
        } else {
            scaled
        }
    } else {
        interval
    }
}

/// Computes the animation phase `elapsed` microseconds after a move.
pub fn animation_progress(elapsed: i128, interval: u64) -> (phase: u32)
    ensures
        phase == progress_at(elapsed as int, interval as int),
        phase <= PROGRESS_SCALE,
{
    if elapsed <= 0 {
        0
    } else if elapsed >= interval as i128 {
        PROGRESS_SCALE
    } else {
        assert(0 <= elapsed * 1000 / (interval as int) < 1000) by (nonlinear_arith)
            requires
                0 < elapsed < interval,
        ;
        (elapsed * 1000 / (interval as i128)) as u32
    }
}

/// The time of the last move to record when a turn is taken at once.
pub fn nudge(now: u64, interval: u64) -> (last: i128)
    ensures
        last == nudged(now as int, interval as int),
{
    now as i128 - interval as i128 * 4 / 5
}

/// Growth never lengthens the interval and never takes it under the
/// shortest interval.
pub proof fn lemma_speed_up_bounds(interval: int)
    requires
        MIN_MOVE_INTERVAL <= interval,
    ensures
        MIN_MOVE_INTERVAL <= sped_up(interval) <= interval,
{
}

/// The interval after `growths` growths.
pub open spec fn sped_up_times(interval: int, growths: nat) -> int
    decreases growths,
{
    if growths == 0 {
        interval
    } else {
        sped_up(sped_up_times(interval, (growths - 1) as nat))
    }
}

/// Any number of growths in a row leaves the interval between the shortest
/// interval and the interval it started from.
pub proof fn lemma_speed_up_repeated(interval: int, growths: nat)
    requires
        MIN_MOVE_INTERVAL <= interval,
    ensures
        MIN_MOVE_INTERVAL <= sped_up_times(interval, growths) <= interval,
    decreases growths,
{
    if growths > 0 {
        lemma_speed_up_repeated(interval, (growths - 1) as nat);
        lemma_speed_up_bounds(sped_up_times(interval, (growths - 1) as nat));
    }
}

/// The animation phase is always between nothing and a whole move.
pub proof fn lemma_progress_bounds(elapsed: int, interval: int)
    ensures
        0 <= progress_at(elapsed, interval) <= PROGRESS_SCALE,
{
    if 0 < elapsed < interval {
        assert(0 <= elapsed * 1000 / interval < 1000) by (nonlinear_arith)
            requires
                0 < elapsed < interval,
        ;
    }
}

} // verus!

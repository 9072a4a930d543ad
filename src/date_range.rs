//! Whole-day windows over UTC timestamps, counted in seconds since the Unix
//! epoch.
use vstd::prelude::*;

use crate::time_frame::TimeFrame;

verus! {

/// Seconds in a day.
pub const SECONDS_PER_DAY: i64 = 86400;

/// The day that holds second `t`: days since the epoch, rounded down.
pub open spec fn day_of(t: int) -> int {
    t / 86400
}

/// First second (00:00:00) of day `d`.
pub open spec fn day_start(d: int) -> int {
    d * 86400
}

/// Last second (23:59:59) of day `d`.
pub open spec fn day_end(d: int) -> int {
    d * 86400 + 86399
}

/// The `days` whole days that end on the day before the one holding `dt`.
pub open spec fn window_before(dt: int, days: int) -> (int, int) {
    (day_start(day_of(dt) - days), day_end(day_of(dt) - 1))
}

/// The `days` whole days that start on the day after the one holding `dt`.
pub open spec fn window_after(dt: int, days: int) -> (int, int) {
    (day_start(day_of(dt) + 1), day_end(day_of(dt) + days))
}

/// Both ends of a window are timestamps that `i64` can hold.
pub open spec fn fits_i64(w: (int, int)) -> bool {
    i64::MIN <= w.0 <= i64::MAX && i64::MIN <= w.1 <= i64::MAX
}

/// The day that holds second `t`.
pub fn day_number(t: i64) -> (d: i64)
    ensures
        d == day_of(t as int),
{
    if t >= 0 {
        t / SECONDS_PER_DAY
    } else {
        let u: i64 = -(t + 1);
        let q: i64 = u / SECONDS_PER_DAY;
        proof {
            let ti = t as int;
            let ui = u as int;
            let qi = q as int;
            assert(ui == qi * 86400 + ui % 86400 && 0 <= ui % 86400 < 86400) by (nonlinear_arith)
                requires
                    qi == ui / 86400,
                    ui >= 0,
            ;
            assert(ti == (-qi - 1) * 86400 + (86399 - ui % 86400));
            assert(day_of(ti) == -qi - 1) by (nonlinear_arith)
                requires
                    ti == (-qi - 1) * 86400 + (86399 - ui % 86400),
                    0 <= 86399 - ui % 86400 < 86400,
                    day_of(ti) == ti / 86400,
            ;
        }
        -q - 1
    }
}

/// A window derived before `dt` from a frame of fixed length starts at
/// 00:00:00, ends at 23:59:59, does not end before it starts, ends before the
/// day of `dt` begins and spans as many days as the frame is long.
pub proof fn lemma_window_before(dt: int, time_frame: TimeFrame)
    requires
        time_frame.duration_days() is Some,
    ensures
        ({
            let days = time_frame.duration_days()->Some_0 as int;
            let w = window_before(dt, days);
            &&& w.0 % 86400 == 0
            &&& w.1 % 86400 == 86399
            &&& w.0 <= w.1
            &&& w.1 < day_start(day_of(dt))
            &&& day_of(w.1) - day_of(w.0) + 1 == days
        }),
{
    let days = time_frame.duration_days()->Some_0 as int;
    let d = day_of(dt);
    lemma_day_bounds(d - days);
    lemma_day_bounds(d - 1);
}

/// A window derived after `dt` from a frame of fixed length starts at
/// 00:00:00, ends at 23:59:59, does not end before it starts, starts after
/// the day of `dt` has ended and spans as many days as the frame is long.
pub proof fn lemma_window_after(dt: int, time_frame: TimeFrame)
    requires
        time_frame.duration_days() is Some,
    ensures
        ({
            let days = time_frame.duration_days()->Some_0 as int;
            let w = window_after(dt, days);
            &&& w.0 % 86400 == 0
            &&& w.1 % 86400 == 86399
            &&& w.0 <= w.1
            &&& w.0 > day_end(day_of(dt))
            &&& day_of(w.1) - day_of(w.0) + 1 == days
        }),
{
    let days = time_frame.duration_days()->Some_0 as int;
    let d = day_of(dt);
    lemma_day_bounds(d + 1);
    lemma_day_bounds(d + days);
}

proof fn lemma_day_bounds(d: int)
    ensures
        day_start(d) % 86400 == 0,
        day_end(d) % 86400 == 86399,
        day_of(day_start(d)) == d,
        day_of(day_end(d)) == d,
{
    assert(day_start(d) % 86400 == 0 && day_of(day_start(d)) == d) by (nonlinear_arith);
    assert(day_end(d) % 86400 == 86399 && day_of(day_end(d)) == d) by (nonlinear_arith);
}

} // verus!

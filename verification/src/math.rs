//! Fixed-point helpers and the difficulty mapper.
//!
//! Alphas, progress values and scales are in milli-units: 1000 stands for
//! 1.0. Times are milliseconds. Difficulty values (approach rate, overall
//! difficulty, circle size) are in tenths: 93 stands for 9.3.

use vstd::prelude::*;

verus! {

/// Largest magnitude a timestamp handed to the engine may have, in ms.
pub const TIME_LIMIT: i64 = 0x2_0000_0000;

/// Largest duration, preempt or fade window, in ms.
pub const SPAN_LIMIT: i64 = 0x80_0000;

/// A millisecond timestamp the engine accepts.
pub open spec fn valid_time(t: int) -> bool {
    -TIME_LIMIT <= t <= TIME_LIMIT
}

/// A duration or fade window the engine accepts: positive and bounded.
pub open spec fn valid_span(d: int) -> bool {
    1 <= d <= SPAN_LIMIT
}

/// A derived anchor (a valid timestamp shifted by a few spans).
pub open spec fn valid_anchor(t: int) -> bool {
    -8 * TIME_LIMIT <= t <= 8 * TIME_LIMIT
}

/// Clamp `x` into `[lo, hi]`.
pub open spec fn spec_clamp(x: int, lo: int, hi: int) -> int {
    if x < lo {
        lo
    } else if x > hi {
        hi
    } else {
        x
    }
}

pub fn clamp(x: i64, lo: i64, hi: i64) -> (r: i64)
    requires
        lo <= hi,
    ensures
        r == spec_clamp(x as int, lo as int, hi as int),
{
    if x < lo {
        lo
    } else if x > hi {
        hi
    } else {
        x
    }
}

/// Quotient of two non-negative numbers (Euclidean, which here agrees with
/// Rust's truncating division).
pub fn div_pos(n: i64, d: i64) -> (q: i64)
    requires
        0 <= n,
        0 < d,
    ensures
        q == n as int / d as int,
        0 <= q <= n,
{
    let nn: u64 = n as u64;
    let dd: u64 = d as u64;
    let qq: u64 = nn / dd;
    qq as i64
}

/// Division truncating toward zero, as Rust's `/` on signed integers.
pub open spec fn spec_div_trunc(n: int, d: int) -> int {
    if n >= 0 {
        n / d
    } else {
        -((-n) / d)
    }
}

pub fn div_trunc(n: i64, d: i64) -> (q: i64)
    requires
        0 < d,
        -0x4000_0000_0000_0000 <= n <= 0x4000_0000_0000_0000,
    ensures
        q == spec_div_trunc(n as int, d as int),
{
    if n >= 0 {
        div_pos(n, d)
    } else {
        let p = div_pos(-n, d);
        -p
    }
}

/// Progress of `time` through `[start, start + span]` in milli-units,
/// clamped to `[0, 1000]`.
pub open spec fn spec_progress(time: int, start: int, span: int) -> int
    recommends
        span >= 1,
{
    if time <= start {
        0
    } else if time - start >= span {
        1000
    } else {
        (time - start) * 1000 / span
    }
}

pub proof fn lemma_progress_bounds(time: int, start: int, span: int)
    requires
        span >= 1,
    ensures
        0 <= spec_progress(time, start, span) <= 1000,
{
    if time <= start {
    } else if time - start >= span {
    } else {
        let d = time - start;
        assert(0 <= d * 1000) by (nonlinear_arith)
            requires 0 <= d,
        ;
        assert(d * 1000 / span <= 1000) by (nonlinear_arith)
            requires 1 <= span, 0 < d, d < span,
        ;
        assert(0 <= d * 1000 / span) by (nonlinear_arith)
            requires 1 <= span, 0 <= d * 1000,
        ;
    }
}

pub fn progress(time: i64, start: i64, span: i64) -> (p: i64)
    requires
        valid_anchor(time as int),
        valid_anchor(start as int),
        valid_span(span as int),
    ensures
        p == spec_progress(time as int, start as int, span as int),
        0 <= p <= 1000,
{
    proof {
        lemma_progress_bounds(time as int, start as int, span as int);
    }
    if time <= start {
        0
    } else if time - start >= span {
        1000
    } else {
        div_pos((time - start) * 1000, span)
    }
}

/// A difficulty value (approach rate, overall difficulty, circle size) in
/// tenths: 0 to 100 stands for 0.0 to 10.0.
pub open spec fn valid_difficulty(v: int) -> bool {
    0 <= v <= 100
}

/// Preempt window in ms for an approach rate given in tenths: piecewise
/// linear around AR 5 (preempt 1200), shrinking to 450 at AR 10 and growing
/// to 1800 at AR 0.
pub open spec fn spec_preempt(ar: int) -> int {
    if ar > 50 {
        1200 - 15 * (ar - 50)
    } else if ar < 50 {
        1200 + 12 * (50 - ar)
    } else {
        1200
    }
}

/// Fade-in window in ms for an approach rate given in tenths: 800 at AR 5,
/// 300 at AR 10, 1200 at AR 0.
pub open spec fn spec_fadein(ar: int) -> int {
    if ar > 50 {
        800 - 10 * (ar - 50)
    } else if ar < 50 {
        800 + 8 * (50 - ar)
    } else {
        800
    }
}

/// Preempt and fade-in windows in ms from an approach rate in tenths.
pub fn calculate_preempt_fadein(ar: i64) -> (r: (i64, i64))
    requires
        valid_difficulty(ar as int),
    ensures
        r.0 == spec_preempt(ar as int),
        r.1 == spec_fadein(ar as int),
        450 <= r.0 <= 1800,
        300 <= r.1 <= 1200,
{
    if ar > 50 {
        (1200 - 15 * (ar - 50), 800 - 10 * (ar - 50))
    } else if ar < 50 {
        (1200 + 12 * (50 - ar), 800 + 8 * (50 - ar))
    } else {
        (1200, 800)
    }
}

/// Hit windows from an overall difficulty in tenths, in tenths of a
/// millisecond: each window is an affine function of OD.
pub fn calculate_hit_window(od: i64) -> (r: (i64, i64, i64))
    requires
        valid_difficulty(od as int),
    ensures
        r.0 == 800 - 6 * od,
        r.1 == 1400 - 8 * od,
        r.2 == 2000 - 10 * od,
{
    (800 - 6 * od, 1400 - 8 * od, 2000 - 10 * od)
}

/// Hit-circle diameter in milli-pixels from a circle size in tenths: an
/// affine function of CS scaled by the playfield constant.
pub open spec fn spec_hitcircle_diameter(cs: int) -> int {
    108800 - 896 * cs
}

pub fn calc_hitcircle_diameter(cs: i64) -> (d: i64)
    requires
        valid_difficulty(cs as int),
    ensures
        d == spec_hitcircle_diameter(cs as int),
        19200 <= d <= 108800,
{
    108800 - 896 * cs
}

/// Three-phase judgement fade envelope anchored at `at`, in milli-units:
/// linear fade-in over `fade_in` ms, full opacity held for `stay` ms, linear
/// fade-out over `fade_out` ms, zero elsewhere.
pub open spec fn spec_fade_alpha(
    time: int,
    at: int,
    fade_in: int,
    stay: int,
    fade_out: int,
) -> int {
    if time < at - fade_in {
        0
    } else if time < at {
        spec_progress(time, at - fade_in, fade_in)
    } else if time <= at + stay {
        1000
    } else if time <= at + stay + fade_out {
        1000 - spec_progress(time, at + stay, fade_out)
    } else {
        0
    }
}

pub fn calc_fade_alpha(time: i64, at: i64, fade_in: i64, stay: i64, fade_out: i64) -> (a: i64)
    requires
        valid_time(time as int),
        -2 * TIME_LIMIT <= at <= 2 * TIME_LIMIT,
        valid_span(fade_in as int),
        0 <= stay <= SPAN_LIMIT,
        valid_span(fade_out as int),
    ensures
        a == spec_fade_alpha(time as int, at as int, fade_in as int, stay as int, fade_out as int),
        0 <= a <= 1000,
{
    if time < at - fade_in {
        0
    } else if time < at {
        progress(time, at - fade_in, fade_in)
    } else if time <= at + stay {
        1000
    } else if time <= at + stay + fade_out {
        1000 - progress(time, at + stay, fade_out)
    } else {
        0
    }
}

} // verus!

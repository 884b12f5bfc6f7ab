//! The Timeline Engine's per-object arithmetic: fade and scale progress for
//! approach indicators, hit-circle opacity, slider body fade, slide-index
//! and follow-indicator arithmetic, reverse-arrow and tick visibility.
//!
//! Every alpha, progress and scale value is in milli-units and is clamped
//! before it reaches a record: alphas lie in `[0, 1000]` (slider bodies are
//! capped at 950), scales in `[1000, 4000]`.

use vstd::prelude::*;
use crate::curve::Pos;
use crate::config::Rgb;
use crate::hit_objects::{
    Circle, HitResult, Slider, Tick, CIRCLE_FADEOUT_TIME, REPEATS_LIMIT, REVERSE_ARROW_FADEIN,
    REVERSE_ARROW_FADEOUT, SLIDER_FADEOUT_TIME,
};
use crate::math::{
    clamp, div_pos, div_trunc, progress, spec_clamp, spec_div_trunc, spec_progress, valid_span,
    valid_time, SPAN_LIMIT, TIME_LIMIT,
};

verus! {

/// The state of an approach indicator: its opacity and its scale factor,
/// both in milli-units.
#[derive(Clone, Copy, Debug, PartialEq, Eq, Structural)]
pub struct ApproachState {
    pub alpha: i64,
    pub scale: i64,
}

/// A currently visible slider tick: absolute position and opacity.
#[derive(Clone, Copy, Debug, PartialEq, Eq, Structural)]
pub struct TickState {
    pub pos: Pos,
    pub alpha: i64,
}

/// A reverse-arrow marker for the current frame: absolute position,
/// opacity, and facing angle in milli-degrees.
#[derive(Clone, Copy, Debug, PartialEq, Eq, Structural)]
pub struct ArrowState {
    pub pos: Pos,
    pub alpha: i64,
    pub angle: i64,
}

/// The follow indicator while a slider is being traversed: absolute
/// position and opacity.
#[derive(Clone, Copy, Debug, PartialEq, Eq, Structural)]
pub struct FollowState {
    pub pos: Pos,
    pub alpha: i64,
}

/// Fade-in opacity of an object: progress of `time` through the fade-in
/// window that opens `preempt` ms before the start time.
pub open spec fn spec_fadein_alpha(time: int, start: int, preempt: int, fadein: int) -> int {
    spec_progress(time, start - preempt, fadein)
}

/// Unclamped approach progress in milli-units: 0 when the display interval
/// opens, 1000 at the start time, negative before, larger after. The
/// division truncates toward zero as the executable arithmetic does.
pub open spec fn spec_approach_progress(time: int, start: int, preempt: int) -> int {
    spec_div_trunc((time - (start - preempt)) * 1000, preempt)
}

/// Approach-circle scale of a circle: interpolated from 4.0 down to 1.0
/// over the preempt window, clamped to `[1.0, 4.0]`.
pub open spec fn spec_circle_approach_scale(time: int, start: int, preempt: int) -> int {
    spec_clamp(1000 + 3 * (1000 - spec_approach_progress(time, start, preempt)), 1000, 4000)
}

/// Approach-circle scale of a slider: interpolated toward 3.95 instead of
/// 4.0, but clamped to the same `[1.0, 4.0]` bounds, so 3.95 is the
/// practical ceiling inside the display interval.
pub open spec fn spec_slider_approach_scale(time: int, start: int, preempt: int) -> int {
    spec_clamp(
        1000 + spec_div_trunc(2950 * (1000 - spec_approach_progress(time, start, preempt)), 1000),
        1000,
        4000,
    )
}

/// Hit-circle opacity. While unjudged: the fade-in alpha until the start
/// time, full opacity after. Once judged at `r.at`: fades out over twice
/// the base circle fade-out window, clamped to `[0, 1]`.
pub open spec fn spec_circle_alpha(
    time: int,
    start: int,
    preempt: int,
    fadein: int,
    hit_result: Option<HitResult>,
) -> int {
    match hit_result {
        Some(r) => 1000 - spec_progress(time, r.at as int, 2 * CIRCLE_FADEOUT_TIME as int),
        None => if time >= start {
            1000
        } else {
            spec_fadein_alpha(time, start, preempt, fadein)
        },
    }
}

/// Slider body opacity: ramps in like the circle fade-in but capped at
/// 0.95; after the slider's end time it ramps out linearly over the slider
/// fade-out window.
pub open spec fn spec_slider_body_alpha(
    time: int,
    start: int,
    preempt: int,
    fadein: int,
    duration: int,
) -> int {
    if start + duration <= time <= start + duration + SLIDER_FADEOUT_TIME as int {
        spec_clamp(
            1000 - spec_progress(time, start + duration, SLIDER_FADEOUT_TIME as int),
            0,
            950,
        )
    } else {
        spec_clamp(spec_fadein_alpha(time, start, preempt, fadein), 0, 950)
    }
}

/// The traversal ("slide", counted from 1) the given time falls into:
/// `floor((time - start) / (duration / repeats)) + 1`, floored at 1.
pub open spec fn spec_slide_index(time: int, start: int, duration: int, repeats: int) -> int {
    if time < start {
        1
    } else {
        (time - start) * repeats / duration + 1
    }
}

/// Progress along the path in milli-units at the given time: the local
/// progress of the current slide, inverted on even slides so the traversal
/// direction alternates with each repeat.
pub open spec fn spec_follow_progress(time: int, start: int, duration: int, repeats: int) -> int {
    let q = (time - start) * repeats;
    let pm = q % duration * 1000 / duration;
    if spec_slide_index(time, start, duration, repeats) % 2 == 0 {
        1000 - pm
    } else {
        pm
    }
}

/// The time of the reverse-arrow boundary `r` (counted from 1): `r` whole
/// slides after the start time.
pub open spec fn spec_arrow_time(start: int, duration: int, repeats: int, r: int) -> int {
    start + duration * r / repeats
}

pub fn fadein_alpha(time: i64, start: i64, preempt: i64, fadein: i64) -> (a: i64)
    requires
        valid_time(time as int),
        valid_time(start as int),
        valid_span(preempt as int),
        valid_span(fadein as int),
    ensures
        a == spec_fadein_alpha(time as int, start as int, preempt as int, fadein as int),
        0 <= a <= 1000,
{
    progress(time, start - preempt, fadein)
}

fn approach_progress(time: i64, start: i64, preempt: i64) -> (p: i64)
    requires
        valid_time(time as int),
        valid_time(start as int),
        valid_span(preempt as int),
    ensures
        p == spec_approach_progress(time as int, start as int, preempt as int),
{
    div_trunc((time - (start - preempt)) * 1000, preempt)
}

pub fn circle_approach_scale(time: i64, start: i64, preempt: i64) -> (s: i64)
    requires
        valid_time(time as int),
        valid_time(start as int),
        valid_span(preempt as int),
    ensures
        s == spec_circle_approach_scale(time as int, start as int, preempt as int),
        1000 <= s <= 4000,
{
    let ap = approach_progress(time, start, preempt);
    clamp(1000 + 3 * (1000 - ap), 1000, 4000)
}

pub fn slider_approach_scale(time: i64, start: i64, preempt: i64) -> (s: i64)
    requires
        valid_time(time as int),
        valid_time(start as int),
        valid_span(preempt as int),
    ensures
        s == spec_slider_approach_scale(time as int, start as int, preempt as int),
        1000 <= s <= 4000,
{
    let ap = approach_progress(time, start, preempt);
    let d = div_trunc(2950 * (1000 - ap), 1000);
    clamp(1000 + d, 1000, 4000)
}

pub fn circle_alpha(
    time: i64,
    start: i64,
    preempt: i64,
    fadein: i64,
    hit_result: &Option<HitResult>,
) -> (a: i64)
    requires
        valid_time(time as int),
        valid_time(start as int),
        valid_span(preempt as int),
        valid_span(fadein as int),
        hit_result matches Some(r) ==> valid_time(r.at as int),
    ensures
        a == spec_circle_alpha(
            time as int,
            start as int,
            preempt as int,
            fadein as int,
            *hit_result,
        ),
        0 <= a <= 1000,
{
    match hit_result {
        Some(r) => 1000 - progress(time, r.at, 2 * CIRCLE_FADEOUT_TIME),
        None => {
            if time >= start {
                1000
            } else {
                fadein_alpha(time, start, preempt, fadein)
            }
        },
    }
}

pub fn slider_body_alpha(time: i64, start: i64, preempt: i64, fadein: i64, duration: i64) -> (a:
    i64)
    requires
        valid_time(time as int),
        valid_time(start as int),
        valid_span(preempt as int),
        valid_span(fadein as int),
        valid_span(duration as int),
    ensures
        a == spec_slider_body_alpha(
            time as int,
            start as int,
            preempt as int,
            fadein as int,
            duration as int,
        ),
        0 <= a <= 950,
{
    if start + duration <= time && time <= start + duration + SLIDER_FADEOUT_TIME {
        clamp(1000 - progress(time, start + duration, SLIDER_FADEOUT_TIME), 0, 950)
    } else {
        clamp(fadein_alpha(time, start, preempt, fadein), 0, 950)
    }
}

pub fn slide_index(time: i64, start: i64, duration: i64, repeats: i64) -> (s: i64)
    requires
        valid_time(time as int),
        valid_time(start as int),
        valid_span(duration as int),
        1 <= repeats <= REPEATS_LIMIT,
    ensures
        s == spec_slide_index(time as int, start as int, duration as int, repeats as int),
        1 <= s,
{
    if time < start {
        1
    } else {
        proof {
            assert((time - start) * repeats <= 4 * TIME_LIMIT * REPEATS_LIMIT)
                by (nonlinear_arith)
                requires
                    0 <= time - start <= 4 * TIME_LIMIT,
                    1 <= repeats <= REPEATS_LIMIT,
            ;
            assert(0 <= (time - start) * repeats) by (nonlinear_arith)
                requires 0 <= time - start, 0 <= repeats,
            ;
        }
        let q: i64 = (time - start) * repeats;
        div_pos(q, duration) + 1
    }
}

pub fn follow_progress(time: i64, start: i64, duration: i64, repeats: i64) -> (p: i64)
    requires
        valid_time(time as int),
        valid_time(start as int),
        valid_span(duration as int),
        1 <= repeats <= REPEATS_LIMIT,
        start <= time <= start + duration,
    ensures
        p == spec_follow_progress(time as int, start as int, duration as int, repeats as int),
        0 <= p <= 1000,
{
    proof {
        assert(0 <= (time - start) * repeats <= SPAN_LIMIT * REPEATS_LIMIT) by (nonlinear_arith)
            requires
                0 <= time - start <= SPAN_LIMIT,
                1 <= repeats <= REPEATS_LIMIT,
        ;
    }
    let q: i64 = (time - start) * repeats;
    let k: i64 = div_pos(q, duration);
    proof {
        vstd::arithmetic::div_mod::lemma_fundamental_div_mod(q as int, duration as int);
        vstd::arithmetic::div_mod::lemma_mod_bound(q as int, duration as int);
    }
    let local: i64 = q - k * duration;
    proof {
        let l = local as int;
        let d = duration as int;
        assert(l == q as int % d);
        assert((d - 1) * 1000 < 1000 * d) by (nonlinear_arith)
            requires 1 <= d,
        ;
        assert(l * 1000 <= (d - 1) * 1000) by (nonlinear_arith)
            requires 0 <= l <= d - 1,
        ;
        assert(l * 1000 / d < 1000) by (nonlinear_arith)
            requires
                l * 1000 < 1000 * d,
                0 <= l * 1000,
                1 <= d,
        ;
    }
    let pm: i64 = div_pos(local * 1000, duration);
    let slide: i64 = k + 1;
    if slide % 2 == 0 {
        1000 - pm
    } else {
        pm
    }
}

pub fn arrow_time(start: i64, duration: i64, repeats: i64, r: i64) -> (t: i64)
    requires
        valid_time(start as int),
        valid_span(duration as int),
        1 <= repeats <= REPEATS_LIMIT,
        0 <= r < repeats,
    ensures
        t == spec_arrow_time(start as int, duration as int, repeats as int, r as int),
        start <= t <= start + duration,
{
    proof {
        let d = duration as int;
        let rr = r as int;
        let rep = repeats as int;
        assert(0 <= d * rr <= d * rep) by (nonlinear_arith)
            requires 1 <= d, 0 <= rr <= rep,
        ;
        assert(d * rep <= SPAN_LIMIT * REPEATS_LIMIT) by (nonlinear_arith)
            requires 1 <= d <= SPAN_LIMIT, 1 <= rep <= REPEATS_LIMIT,
        ;
        assert(d * rr / rep <= d * rep / rep) by (nonlinear_arith)
            requires 0 <= d * rr <= d * rep, 1 <= rep,
        ;
        assert(d * rep / rep == d) by (nonlinear_arith)
            requires 1 <= rep,
        ;
    }
    let q: i64 = duration * r;
    start + div_pos(q, repeats)
}

/// Opacity of the reverse-arrow boundary `r`: the body alpha before its own
/// time, a fade-out over its window after it. The overlap rule: if the
/// earlier boundary `r - 2` exists, `r` is not the slide currently being
/// traversed, and boundary `r`'s time is still in the future, the alpha is
/// instead a fade-in anchored at boundary `r - 2`'s time, so a far-future
/// arrow does not pop to full opacity the instant a closer one finishes.
pub open spec fn spec_arrow_alpha(
    time: int,
    start: int,
    duration: int,
    repeats: int,
    r: int,
    body: int,
) -> int {
    let at_r = spec_arrow_time(start, duration, repeats, r);
    if r >= 2 && r != spec_slide_index(time, start, duration, repeats) && at_r > time {
        spec_progress(
            time,
            spec_arrow_time(start, duration, repeats, r - 2),
            REVERSE_ARROW_FADEIN as int,
        )
    } else if time > at_r {
        if time < at_r + REVERSE_ARROW_FADEOUT as int {
            1000 - spec_progress(time, at_r, REVERSE_ARROW_FADEOUT as int)
        } else {
            0
        }
    } else {
        body
    }
}

/// Position of the reverse-arrow boundary `r`: the path's start for even
/// `r`, its end for odd `r`, offset by the slider's anchor.
pub open spec fn spec_arrow_pos(s: Slider, r: int) -> Pos {
    let cp = if r % 2 == 0 {
        s.curve.points@[0]
    } else {
        s.curve.points@[s.curve.points@.len() - 1]
    };
    Pos { x: (s.pos.x + cp.x) as i64, y: (s.pos.y + cp.y) as i64 }
}

/// The full marker for the reverse-arrow boundary `r` of a slider.
pub open spec fn spec_arrow_state(time: int, start: int, s: Slider, body: int, r: int)
    -> ArrowState {
    ArrowState {
        pos: spec_arrow_pos(s, r),
        alpha: spec_arrow_alpha(
            time,
            start,
            s.duration as int,
            s.repeats as int,
            r,
            body,
        ) as i64,
        angle: s.reverse_arrows@[r - 1].angle,
    }
}

fn arrow_alpha(time: i64, start: i64, duration: i64, repeats: i64, r: i64, body: i64) -> (a: i64)
    requires
        valid_time(time as int),
        valid_time(start as int),
        valid_span(duration as int),
        1 <= repeats <= REPEATS_LIMIT,
        1 <= r < repeats,
        0 <= body <= 1000,
    ensures
        a == spec_arrow_alpha(
            time as int,
            start as int,
            duration as int,
            repeats as int,
            r as int,
            body as int,
        ),
        0 <= a <= 1000,
{
    let at_r = arrow_time(start, duration, repeats, r);
    let slide = slide_index(time, start, duration, repeats);
    if r >= 2 && r != slide && at_r > time {
        let prev = arrow_time(start, duration, repeats, r - 2);
        progress(time, prev, REVERSE_ARROW_FADEIN)
    } else if time > at_r {
        if time < at_r + REVERSE_ARROW_FADEOUT {
            1000 - progress(time, at_r, REVERSE_ARROW_FADEOUT)
        } else {
            0
        }
    } else {
        body
    }
}

/// Build the reverse-arrow markers of a slider for the current frame: one
/// per repeat boundary, `repeats - 1` in all.
pub fn arrow_states(time: i64, start: i64, s: &Slider, body: i64) -> (out: Vec<ArrowState>)
    requires
        valid_time(time as int),
        valid_time(start as int),
        crate::hit_objects::slider_wf(*s),
        0 <= body <= 1000,
    ensures
        out@.len() == s.repeats - 1,
        forall|r: int| 1 <= r < s.repeats
            ==> out@[r - 1] == spec_arrow_state(time as int, start as int, *s, body as int, r),
        forall|k: int| 0 <= k < out@.len() ==> 0 <= (#[trigger] out@[k]).alpha <= 1000,
{
    let mut out: Vec<ArrowState> = Vec::new();
    let mut r: i64 = 1;
    while r < s.repeats
        invariant
            valid_time(time as int),
            valid_time(start as int),
            crate::hit_objects::slider_wf(*s),
            0 <= body <= 1000,
            1 <= r <= s.repeats,
            out@.len() == r - 1,
            forall|k: int| 1 <= k < r
                ==> out@[k - 1] == spec_arrow_state(time as int, start as int, *s, body as int, k),
            forall|k: int| 0 <= k < out@.len() ==> 0 <= (#[trigger] out@[k]).alpha <= 1000,
        decreases s.repeats - r,
    {
        let alpha = arrow_alpha(time, start, s.duration, s.repeats, r, body);
        let cp = if r % 2 == 0 {
            s.curve.position_at(0)
        } else {
            s.curve.position_at(1000)
        };
        let pos = Pos { x: s.pos.x + cp.x, y: s.pos.y + cp.y };
        let angle = s.reverse_arrows[(r - 1) as usize].angle;
        out.push(ArrowState { pos, alpha, angle });
        r = r + 1;
    }
    out
}

/// Whether a tick is part of the current frame: its slide is the one being
/// traversed and its own timestamp has not yet passed.
pub open spec fn spec_tick_visible(t: Tick, time: int, slide: int) -> bool {
    t.slide == slide && time < t.time
}

/// The visible ticks of a slider, in stored order, each at the body's
/// opacity.
pub open spec fn spec_visible_ticks(ticks: Seq<Tick>, time: int, slide: int, body: int)
    -> Seq<TickState>
    decreases ticks.len(),
{
    if ticks.len() == 0 {
        Seq::empty()
    } else {
        let rest = spec_visible_ticks(ticks.drop_last(), time, slide, body);
        let t = ticks.last();
        if spec_tick_visible(t, time, slide) {
            rest.push(TickState { pos: t.pos, alpha: body as i64 })
        } else {
            rest
        }
    }
}

/// Collect the ticks of a slider that are visible at `time`.
pub fn tick_states(time: i64, slide: i64, body: i64, ticks: &Vec<Tick>) -> (out: Vec<TickState>)
    requires
        0 <= body <= 1000,
    ensures
        out@ == spec_visible_ticks(ticks@, time as int, slide as int, body as int),
        forall|k: int| 0 <= k < out@.len() ==> (#[trigger] out@[k]).alpha == body,
{
    let mut out: Vec<TickState> = Vec::new();
    let mut i: usize = 0;
    while i < ticks.len()
        invariant
            0 <= body <= 1000,
            0 <= i <= ticks@.len(),
            out@ == spec_visible_ticks(
                ticks@.subrange(0, i as int),
                time as int,
                slide as int,
                body as int,
            ),
            forall|k: int| 0 <= k < out@.len() ==> (#[trigger] out@[k]).alpha == body,
        decreases ticks@.len() - i,
    {
        let t = ticks[i];
        proof {
            assert(ticks@.subrange(0, i + 1 as int).drop_last() =~= ticks@.subrange(0, i as int));
            assert(ticks@.subrange(0, i + 1 as int).last() == ticks@[i as int]);
        }
        if t.slide == slide && time < t.time {
            out.push(TickState { pos: t.pos, alpha: body });
        }
        i = i + 1;
    }
    proof {
        assert(ticks@.subrange(0, ticks@.len() as int) =~= ticks@);
    }
    out
}

/// The resolved visual state of a circle for one frame.
#[derive(Clone, Copy, Debug, PartialEq, Eq)]
pub struct CircleState {
    pub pos: Pos,
    pub alpha: i64,
    pub scale: i64,
    pub color: Rgb,
    pub approach: Option<ApproachState>,
}

/// The resolved visual state of a slider for one frame. `render` carries
/// the slider's cached render handle through to the sink; a sink skips a
/// slider whose cache is not ready.
#[derive(Clone, Debug, PartialEq, Eq)]
pub struct SliderState {
    pub pos: Pos,
    pub body_alpha: i64,
    pub head_alpha: i64,
    pub approach: ApproachState,
    pub follow: Option<FollowState>,
    pub ticks: Vec<TickState>,
    pub arrows: Vec<ArrowState>,
    pub color: Rgb,
    pub render: Option<u64>,
}

/// Opacity of a slider's own approach circle: forced to zero once the
/// start time is reached, the body's opacity before it.
pub open spec fn spec_slider_approach_alpha(time: int, start: int, body: int) -> int {
    if time >= start {
        0
    } else {
        body
    }
}

/// Opacity of the hit circle drawn at a slider's head: the body's opacity
/// while the approach indicator is still shown, zero after.
pub open spec fn spec_slider_head_alpha(time: int, start: int, body: int) -> int {
    if spec_slider_approach_alpha(time, start, body) > 0 {
        body
    } else {
        0
    }
}

/// Position of the follow indicator: the path evaluated at the follow
/// progress, offset by the slider's anchor.
pub open spec fn spec_follow_pos(time: int, start: int, s: Slider) -> Pos {
    let fp = spec_follow_progress(time, start, s.duration as int, s.repeats as int);
    let cp = s.curve.spec_position_at(fp);
    Pos { x: (s.pos.x + cp.x) as i64, y: (s.pos.y + cp.y) as i64 }
}

/// What the record of a circle must hold for the frame at `time`.
pub open spec fn circle_state_matches(
    r: CircleState,
    time: int,
    start: int,
    c: Circle,
    preempt: int,
    fadein: int,
    color: Rgb,
) -> bool {
    &&& r.pos == c.pos
    &&& r.color == color
    &&& r.alpha == spec_circle_alpha(time, start, preempt, fadein, c.hit_result)
    &&& r.scale == 1000
    &&& if time < start && c.hit_result is None {
        r.approach == Some(
            ApproachState {
                alpha: spec_fadein_alpha(time, start, preempt, fadein) as i64,
                scale: spec_circle_approach_scale(time, start, preempt) as i64,
            },
        )
    } else {
        r.approach is None
    }
}

/// Every alpha of a circle record lies in `[0, 1]` and its scales are in
/// range.
pub open spec fn circle_state_valid(r: CircleState) -> bool {
    &&& 0 <= r.alpha <= 1000
    &&& r.scale == 1000
    &&& match r.approach {
        Some(a) => 0 <= a.alpha <= 1000 && 1000 <= a.scale <= 4000,
        None => true,
    }
}

/// What the record of a slider must hold for the frame at `time`.
pub open spec fn slider_state_matches(
    r: SliderState,
    time: int,
    start: int,
    s: Slider,
    preempt: int,
    fadein: int,
    color: Rgb,
) -> bool {
    let body = spec_slider_body_alpha(time, start, preempt, fadein, s.duration as int);
    let slide = spec_slide_index(time, start, s.duration as int, s.repeats as int);
    &&& r.pos == s.pos
    &&& r.color == color
    &&& r.render == s.render
    &&& r.body_alpha == body
    &&& r.head_alpha == spec_slider_head_alpha(time, start, body)
    &&& r.approach == (ApproachState {
        alpha: spec_slider_approach_alpha(time, start, body) as i64,
        scale: spec_slider_approach_scale(time, start, preempt) as i64,
    })
    &&& if start <= time <= start + s.duration {
        r.follow == Some(
            FollowState { pos: spec_follow_pos(time, start, s), alpha: body as i64 },
        )
    } else {
        r.follow is None
    }
    &&& r.ticks@ == spec_visible_ticks(s.ticks@, time, slide, body)
    &&& r.arrows@.len() == s.repeats - 1
    &&& forall|k: int| 1 <= k < s.repeats
        ==> r.arrows@[k - 1] == spec_arrow_state(time, start, s, body, k)
}

/// Every alpha of a slider record lies in `[0, 1]` — the body and
/// everything drawn at the body's opacity is capped at 0.95 — and its
/// scale is in range.
pub open spec fn slider_state_valid(r: SliderState) -> bool {
    &&& 0 <= r.body_alpha <= 950
    &&& 0 <= r.head_alpha <= 950
    &&& 0 <= r.approach.alpha <= 950
    &&& 1000 <= r.approach.scale <= 4000
    &&& match r.follow {
        Some(f) => 0 <= f.alpha <= 950,
        None => true,
    }
    &&& forall|k: int| 0 <= k < r.ticks@.len() ==> 0 <= (#[trigger] r.ticks@[k]).alpha <= 950
    &&& forall|k: int| 0 <= k < r.arrows@.len() ==> 0 <= (#[trigger] r.arrows@[k]).alpha <= 1000
}

/// Compute a circle's full visual state for the frame at `time`.
pub fn circle_state(
    time: i64,
    start: i64,
    c: &Circle,
    preempt: i64,
    fadein: i64,
    color: Rgb,
) -> (r: CircleState)
    requires
        valid_time(time as int),
        valid_time(start as int),
        crate::hit_objects::circle_wf(*c),
        valid_span(preempt as int),
        valid_span(fadein as int),
    ensures
        circle_state_matches(r, time as int, start as int, *c, preempt as int, fadein as int, color),
        circle_state_valid(r),
{
    let alpha = circle_alpha(time, start, preempt, fadein, &c.hit_result);
    let approach: Option<ApproachState> = if time < start && c.hit_result.is_none() {
        let a = fadein_alpha(time, start, preempt, fadein);
        let s = circle_approach_scale(time, start, preempt);
        Some(ApproachState { alpha: a, scale: s })
    } else {
        None
    };
    CircleState { pos: c.pos, alpha, scale: 1000, color, approach }
}

/// Compute a slider's full visual state for the frame at `time`.
pub fn slider_state(
    time: i64,
    start: i64,
    s: &Slider,
    preempt: i64,
    fadein: i64,
    color: Rgb,
) -> (r: SliderState)
    requires
        valid_time(time as int),
        valid_time(start as int),
        crate::hit_objects::slider_wf(*s),
        valid_span(preempt as int),
        valid_span(fadein as int),
    ensures
        slider_state_matches(r, time as int, start as int, *s, preempt as int, fadein as int, color),
        slider_state_valid(r),
{
    let body = slider_body_alpha(time, start, preempt, fadein, s.duration);
    let slide = slide_index(time, start, s.duration, s.repeats);
    let approach_alpha: i64 = if time >= start {
        0
    } else {
        body
    };
    let head_alpha: i64 = if approach_alpha > 0 {
        body
    } else {
        0
    };
    let approach = ApproachState {
        alpha: approach_alpha,
        scale: slider_approach_scale(time, start, preempt),
    };
    let follow: Option<FollowState> = if start <= time && time <= start + s.duration {
        let fp = follow_progress(time, start, s.duration, s.repeats);
        let cp = s.curve.position_at(fp);
        Some(FollowState { pos: Pos { x: s.pos.x + cp.x, y: s.pos.y + cp.y }, alpha: body })
    } else {
        None
    };
    let ticks = tick_states(time, slide, body, &s.ticks);
    let arrows = arrow_states(time, start, s, body);
    SliderState {
        pos: s.pos,
        body_alpha: body,
        head_alpha,
        approach,
        follow,
        ticks,
        arrows,
        color,
        render: s.render,
    }
}

/// Law: the per-frame computation is idempotent. Two circle records
/// computed for the same time from unchanged object state are identical.
pub proof fn lemma_circle_state_deterministic(
    r1: CircleState,
    r2: CircleState,
    time: int,
    start: int,
    c: Circle,
    preempt: int,
    fadein: int,
    color: Rgb,
)
    requires
        circle_state_matches(r1, time, start, c, preempt, fadein, color),
        circle_state_matches(r2, time, start, c, preempt, fadein, color),
    ensures
        r1 == r2,
{
}

/// Law: the per-frame computation is idempotent. Two slider records
/// computed for the same time from unchanged object state agree on every
/// observable field.
pub proof fn lemma_slider_state_deterministic(
    r1: SliderState,
    r2: SliderState,
    time: int,
    start: int,
    s: Slider,
    preempt: int,
    fadein: int,
    color: Rgb,
)
    requires
        slider_state_matches(r1, time, start, s, preempt, fadein, color),
        slider_state_matches(r2, time, start, s, preempt, fadein, color),
    ensures
        r1.pos == r2.pos,
        r1.body_alpha == r2.body_alpha,
        r1.head_alpha == r2.head_alpha,
        r1.approach == r2.approach,
        r1.follow == r2.follow,
        r1.ticks@ == r2.ticks@,
        r1.arrows@ == r2.arrows@,
        r1.color == r2.color,
        r1.render == r2.render,
{
    let body = spec_slider_body_alpha(time, start, preempt, fadein, s.duration as int);
    assert forall|j: int| 0 <= j < r1.arrows@.len() implies r1.arrows@[j] == r2.arrows@[j] by {
        let k = j + 1;
        assert(r1.arrows@[k - 1] == spec_arrow_state(time, start, s, body, k));
        assert(r2.arrows@[k - 1] == spec_arrow_state(time, start, s, body, k));
    }
    assert(r1.arrows@ =~= r2.arrows@);
}

/// Law: a circle's approach scale is the clamped maximum of 4.0 the moment
/// its display interval opens, and exactly 1.0 at its start time.
pub proof fn lemma_approach_scale_endpoints(start: int, preempt: int)
    requires
        valid_span(preempt),
    ensures
        spec_circle_approach_scale(start - preempt, start, preempt) == 4000,
        spec_circle_approach_scale(start, start, preempt) == 1000,
{
    assert(spec_approach_progress(start - preempt, start, preempt) == 0) by {
        assert(spec_div_trunc(0, preempt) == 0) by (nonlinear_arith)
            requires 1 <= preempt,
        ;
    }
    assert(spec_approach_progress(start, start, preempt) == 1000) by {
        assert(preempt * 1000 / preempt == 1000) by (nonlinear_arith)
            requires 1 <= preempt,
        ;
    }
}

} // verus!

//! The beatmap's hit objects: circles and sliders, their scoring results,
//! slider sub-elements (ticks, reverse-arrow markers, cached render handle)
//! and the per-object visibility window.

use vstd::prelude::*;
use crate::curve::{Curve, Pos, valid_pos};
use crate::math::{valid_span, valid_time};

verus! {

/// Base fade-out window of a hit circle, in ms. A judged circle fades out
/// over twice this window.
pub const CIRCLE_FADEOUT_TIME: i64 = 150;

/// Fade-out window of a slider body after its end time, in ms.
pub const SLIDER_FADEOUT_TIME: i64 = 200;

/// Fade-out window of a reverse arrow after its boundary time, in ms.
pub const REVERSE_ARROW_FADEOUT: i64 = 150;

/// Fade-in window of a reverse arrow overlapped by an earlier one, in ms.
pub const REVERSE_ARROW_FADEIN: i64 = 150;

/// Largest repeat count a slider may carry.
pub const REPEATS_LIMIT: i64 = 1000;

/// A scoring grade, ordered best to worst.
#[derive(Clone, Copy, Debug, PartialEq, Eq, Structural)]
pub enum Hit {
    X300,
    X100,
    X50,
    Miss,
}

/// A resolved scoring event: when it happened and its grade.
#[derive(Clone, Copy, Debug, PartialEq, Eq, Structural)]
pub struct HitResult {
    pub at: i64,
    pub result: Hit,
}

/// How far a slider's scoring has advanced once its head is resolved:
/// either only the head is resolved, or the slider was traversed to its end
/// ("passed") with a separate tail grade.
#[derive(Clone, Copy, Debug, PartialEq, Eq, Structural)]
pub enum SliderResultState {
    HeadOnly,
    Passed(Hit),
}

/// A slider's scoring result: the head's event plus the completion state.
#[derive(Clone, Copy, Debug, PartialEq, Eq, Structural)]
pub struct SliderResult {
    pub head: HitResult,
    pub state: SliderResultState,
}

/// A slider tick: where it sits (absolute map-space), when it is due, and
/// which traversal ("slide", counted from 1) it belongs to.
#[derive(Clone, Copy, Debug, PartialEq, Eq, Structural)]
pub struct Tick {
    pub pos: Pos,
    pub time: i64,
    pub slide: i64,
}

/// A reverse-arrow marker at a repeat boundary: only its facing angle is
/// stored, in milli-degrees; its position follows from the path.
#[derive(Clone, Copy, Debug, PartialEq, Eq, Structural)]
pub struct ReverseArrow {
    pub angle: i64,
}

/// A hit circle.
#[derive(Clone, Debug)]
pub struct Circle {
    pub pos: Pos,
    pub hit_result: Option<HitResult>,
}

/// A slider: anchor position, one full traversal cycle times `repeats` long,
/// its path, sub-elements, an optional cached render handle, and its scoring
/// result.
#[derive(Clone, Debug)]
pub struct Slider {
    pub pos: Pos,
    pub duration: i64,
    pub repeats: i64,
    pub curve: Curve,
    pub ticks: Vec<Tick>,
    pub reverse_arrows: Vec<ReverseArrow>,
    pub render: Option<u64>,
    pub hit_result: Option<SliderResult>,
}

/// The two kinds of hit object.
#[derive(Clone, Debug)]
pub enum ObjectKind {
    Circle(Circle),
    Slider(Slider),
}

/// A hit object: its start time, its combo-color cycle index, and its kind.
#[derive(Clone, Debug)]
pub struct Object {
    pub start_time: i64,
    pub color: usize,
    pub kind: ObjectKind,
}

impl Slider {
    /// Axis-aligned bounding box of the slider's body in absolute
    /// map-space: the path's box, offset by the anchor and padded by
    /// `radius` (half the hit-circle diameter) on every side.
    pub fn bounding_box(&self, radius: i64) -> (r: (Pos, Pos))
        requires
            slider_wf(*self),
            0 <= radius <= crate::curve::COORD_LIMIT,
        ensures
            forall|i: int| 0 <= i < self.curve.points@.len() ==> {
                let p = #[trigger] self.curve.points@[i];
                r.0.x <= self.pos.x + p.x - radius && r.0.y <= self.pos.y + p.y - radius
                    && self.pos.x + p.x + radius <= r.1.x && self.pos.y + p.y + radius <= r.1.y
            },
    {
        let (lo, hi) = self.curve.bounding_box(radius);
        (
            Pos { x: self.pos.x + lo.x, y: self.pos.y + lo.y },
            Pos { x: self.pos.x + hi.x, y: self.pos.y + hi.y },
        )
    }
}

pub open spec fn circle_wf(c: Circle) -> bool {
    &&& valid_pos(c.pos)
    &&& match c.hit_result {
        Some(r) => valid_time(r.at as int),
        None => true,
    }
}

pub open spec fn ticks_wf(ticks: Seq<Tick>) -> bool {
    &&& forall|i: int| 0 <= i < ticks.len() ==> {
        let t = #[trigger] ticks[i];
        valid_pos(t.pos) && valid_time(t.time as int) && 1 <= t.slide <= REPEATS_LIMIT
    }
    &&& forall|i: int, j: int|
        0 <= i < j < ticks.len() && (#[trigger] ticks[i]).slide == (#[trigger] ticks[j]).slide
            ==> ticks[i].time <= ticks[j].time
}

pub open spec fn slider_wf(s: Slider) -> bool {
    &&& valid_pos(s.pos)
    &&& valid_span(s.duration as int)
    &&& 1 <= s.repeats <= REPEATS_LIMIT
    &&& s.curve.wf()
    &&& ticks_wf(s.ticks@)
    &&& s.reverse_arrows@.len() == s.repeats - 1
    &&& match s.hit_result {
        Some(r) => valid_time(r.head.at as int),
        None => true,
    }
}

/// The shape a well-formed hit object keeps.
pub open spec fn object_wf(o: Object) -> bool {
    &&& valid_time(o.start_time as int)
    &&& match o.kind {
        ObjectKind::Circle(c) => circle_wf(c),
        ObjectKind::Slider(s) => slider_wf(s),
    }
}

/// Every object of a beatmap is well-formed.
pub open spec fn objects_wf(objects: Seq<Object>) -> bool {
    forall|i: int| 0 <= i < objects.len() ==> object_wf(#[trigger] objects[i])
}

/// The time an object's display interval opens: `preempt` ms before its
/// start time.
pub open spec fn spec_display_start(o: Object, preempt: int) -> int {
    o.start_time - preempt
}

/// The time an object is fully faded. A judged circle fades out over twice
/// the base circle fade-out window from its scoring timestamp; an unjudged
/// circle keeps the same horizon from its start time. A slider fades out
/// over its own window after its end time.
pub open spec fn spec_display_end(o: Object) -> int {
    match o.kind {
        ObjectKind::Circle(c) => match c.hit_result {
            Some(r) => r.at + 2 * CIRCLE_FADEOUT_TIME,
            None => o.start_time + 2 * CIRCLE_FADEOUT_TIME,
        },
        ObjectKind::Slider(s) => o.start_time + s.duration + SLIDER_FADEOUT_TIME,
    }
}

/// Whether the object's display interval contains `time`.
pub open spec fn spec_is_visible(o: Object, time: int, preempt: int) -> bool {
    spec_display_start(o, preempt) <= time <= spec_display_end(o)
}

/// The same object with its render cache emptied; a circle is untouched.
pub open spec fn spec_clear_render(o: Object) -> Object {
    match o.kind {
        ObjectKind::Circle(_) => o,
        ObjectKind::Slider(s) => Object {
            kind: ObjectKind::Slider(Slider { render: None, ..s }),
            ..o
        },
    }
}

/// Whether a slider must be rasterized before the visual-state pass: its
/// cache is empty, or caching across frames is off.
pub open spec fn spec_needs_texture(o: Object, store: bool) -> bool {
    match o.kind {
        ObjectKind::Circle(_) => false,
        ObjectKind::Slider(s) => s.render is None || !store,
    }
}

impl Object {
    /// Whether this object should be part of the current frame.
    pub fn is_visible(&self, time: i64, preempt: i64) -> (r: bool)
        requires
            object_wf(*self),
            valid_time(time as int),
            valid_span(preempt as int),
        ensures
            r == spec_is_visible(*self, time as int, preempt as int),
    {
        if time < self.start_time - preempt {
            return false;
        }
        let end: i64 = match &self.kind {
            ObjectKind::Circle(c) => match &c.hit_result {
                Some(r) => r.at + 2 * CIRCLE_FADEOUT_TIME,
                None => self.start_time + 2 * CIRCLE_FADEOUT_TIME,
            },
            ObjectKind::Slider(s) => self.start_time + s.duration + SLIDER_FADEOUT_TIME,
        };
        time <= end
    }

    /// Build a circle object.
    pub fn circle(start_time: i64, color: usize, pos: Pos) -> (o: Object)
        requires
            valid_time(start_time as int),
            valid_pos(pos),
        ensures
            object_wf(o),
            o.start_time == start_time,
            o.color == color,
            o.kind matches ObjectKind::Circle(c) && c.pos == pos && c.hit_result is None,
    {
        Object {
            start_time,
            color,
            kind: ObjectKind::Circle(Circle { pos, hit_result: None }),
        }
    }

    /// Build a slider object with no render cache and no result yet.
    pub fn slider(
        start_time: i64,
        color: usize,
        pos: Pos,
        duration: i64,
        repeats: i64,
        curve: Curve,
        ticks: Vec<Tick>,
        reverse_arrows: Vec<ReverseArrow>,
    ) -> (o: Object)
        requires
            valid_time(start_time as int),
            valid_pos(pos),
            valid_span(duration as int),
            1 <= repeats <= REPEATS_LIMIT,
            curve.wf(),
            ticks_wf(ticks@),
            reverse_arrows@.len() == repeats - 1,
        ensures
            object_wf(o),
            o.start_time == start_time,
            o.color == color,
            o.kind matches ObjectKind::Slider(s)
                && s.pos == pos
                && s.duration == duration
                && s.repeats == repeats
                && s.curve == curve
                && s.ticks@ == ticks@
                && s.reverse_arrows@ == reverse_arrows@
                && s.render is None
                && s.hit_result is None,
    {
        Object {
            start_time,
            color,
            kind: ObjectKind::Slider(Slider {
                pos,
                duration,
                repeats,
                curve,
                ticks,
                reverse_arrows,
                render: None,
                hit_result: None,
            }),
        }
    }

    /// Attach a scoring result to a circle. A result, once attached, is
    /// never replaced.
    pub fn set_circle_result(&mut self, at: i64, result: Hit)
        requires
            object_wf(*old(self)),
            old(self).kind matches ObjectKind::Circle(c) && c.hit_result is None,
            valid_time(at as int),
        ensures
            object_wf(*final(self)),
            final(self).start_time == old(self).start_time,
            final(self).color == old(self).color,
            old(self).kind matches ObjectKind::Circle(c0)
                && final(self).kind matches ObjectKind::Circle(c1)
                && c1.pos == c0.pos
                && c1.hit_result == Some(HitResult { at, result }),
    {
        match &mut self.kind {
            ObjectKind::Circle(c) => {
                c.hit_result = Some(HitResult { at, result });
            },
            ObjectKind::Slider(_) => {
                proof {
                    assert(false);
                }
            },
        }
    }

    /// Attach a head result to a slider. A result, once attached, is never
    /// replaced.
    pub fn set_slider_head_result(&mut self, at: i64, result: Hit)
        requires
            object_wf(*old(self)),
            old(self).kind matches ObjectKind::Slider(s) && s.hit_result is None,
            valid_time(at as int),
        ensures
            object_wf(*final(self)),
            final(self).start_time == old(self).start_time,
            final(self).color == old(self).color,
            old(self).kind matches ObjectKind::Slider(s0)
                && final(self).kind matches ObjectKind::Slider(s1)
                && s1 == (Slider {
                    hit_result: Some(
                        SliderResult {
                            head: HitResult { at, result },
                            state: SliderResultState::HeadOnly,
                        },
                    ),
                    ..s0
                }),
    {
        match &mut self.kind {
            ObjectKind::Slider(s) => {
                s.hit_result = Some(
                    SliderResult {
                        head: HitResult { at, result },
                        state: SliderResultState::HeadOnly,
                    },
                );
            },
            ObjectKind::Circle(_) => {
                proof {
                    assert(false);
                }
            },
        }
    }

    /// Mark a head-resolved slider as traversed to its end, with the tail's
    /// grade.
    pub fn set_slider_passed(&mut self, tail: Hit)
        requires
            object_wf(*old(self)),
            old(self).kind matches ObjectKind::Slider(s)
                && s.hit_result matches Some(r)
                && r.state is HeadOnly,
        ensures
            object_wf(*final(self)),
            final(self).start_time == old(self).start_time,
            final(self).color == old(self).color,
            old(self).kind matches ObjectKind::Slider(s0)
                && s0.hit_result matches Some(r0)
                && final(self).kind matches ObjectKind::Slider(s1)
                && s1 == (Slider {
                    hit_result: Some(
                        SliderResult { head: r0.head, state: SliderResultState::Passed(tail) },
                    ),
                    ..s0
                }),
    {
        match &mut self.kind {
            ObjectKind::Slider(s) => {
                match &mut s.hit_result {
                    Some(r) => {
                        r.state = SliderResultState::Passed(tail);
                    },
                    None => {
                        proof {
                            assert(false);
                        }
                    },
                }
            },
            ObjectKind::Circle(_) => {
                proof {
                    assert(false);
                }
            },
        }
    }

    /// Empty this object's render cache; a circle is untouched.
    pub fn clear_render(&mut self)
        ensures
            *final(self) == spec_clear_render(*old(self)),
    {
        match &mut self.kind {
            ObjectKind::Slider(s) => {
                s.render = None;
            },
            ObjectKind::Circle(_) => {},
        }
    }

    /// Whether this slider must be rasterized before the visual-state
    /// pass.
    pub fn needs_texture(&self, store: bool) -> (r: bool)
        ensures
            r == spec_needs_texture(*self, store),
    {
        match &self.kind {
            ObjectKind::Slider(s) => s.render.is_none() || !store,
            ObjectKind::Circle(_) => false,
        }
    }

    /// Store the handle of a freshly rasterized slider body in the
    /// slider's render cache.
    pub fn set_render(&mut self, handle: u64)
        requires
            old(self).kind is Slider,
        ensures
            final(self).start_time == old(self).start_time,
            final(self).color == old(self).color,
            old(self).kind matches ObjectKind::Slider(s0)
                && final(self).kind matches ObjectKind::Slider(s1)
                && s1 == (Slider { render: Some(handle), ..s0 }),
    {
        match &mut self.kind {
            ObjectKind::Slider(s) => {
                s.render = Some(handle);
            },
            ObjectKind::Circle(_) => {
                proof {
                    assert(false);
                }
            },
        }
    }
}

} // verus!

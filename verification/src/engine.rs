//! The per-frame engine: the visibility window that selects the objects a
//! frame shows, the pass that turns each of them into a visual-state
//! record, the judgement queue, and the slider render-cache bookkeeping
//! tied to circle-size changes.
//!
//! The engine owns the frame-local record and judgement buffers; the
//! caller owns the visible-index scratch queue. All are emptied once per
//! frame, so nothing grows across frames that a sink fails to drain.

use vstd::prelude::*;
use crate::config::{spec_resolve_color, resolve_color, Config, Rgb};
use crate::hit_objects::{
    objects_wf, spec_clear_render, spec_is_visible, spec_needs_texture, Object, ObjectKind,
    Slider,
};
use crate::judgement::{push_object_judgements, spec_judgements, JudgementsEntry};
use crate::math::{calc_hitcircle_diameter, spec_hitcircle_diameter, valid_difficulty, valid_span, valid_time};
use crate::timeline::{
    circle_state, circle_state_matches, circle_state_valid, slider_state, slider_state_matches,
    slider_state_valid, CircleState, SliderState,
};

verus! {

/// The resolved visual state of one object for one frame.
#[derive(Clone, Debug, PartialEq, Eq)]
pub enum ObjectState {
    Circle(CircleState),
    Slider(SliderState),
}

/// One entry of the frame's output: which object it is and its state.
#[derive(Clone, Debug, PartialEq, Eq)]
pub struct VisualStateRecord {
    pub index: usize,
    pub state: ObjectState,
}

/// What the record of the object at `index` must hold for the frame at
/// `time`.
pub open spec fn record_matches(
    rec: VisualStateRecord,
    time: int,
    index: int,
    o: Object,
    preempt: int,
    fadein: int,
    colors: Seq<Rgb>,
    debug: bool,
) -> bool {
    &&& rec.index == index
    &&& match o.kind {
        ObjectKind::Circle(c) => rec.state matches ObjectState::Circle(cs)
            && circle_state_matches(
            cs,
            time,
            o.start_time as int,
            c,
            preempt,
            fadein,
            spec_resolve_color(o, colors, debug),
        ),
        ObjectKind::Slider(s) => rec.state matches ObjectState::Slider(ss)
            && slider_state_matches(
            ss,
            time,
            o.start_time as int,
            s,
            preempt,
            fadein,
            spec_resolve_color(o, colors, debug),
        ),
    }
}

/// Every alpha and progress value of a record lies in `[0, 1]` (slider
/// bodies capped at 0.95) and every scale in `[1, 4]`.
pub open spec fn record_valid(rec: VisualStateRecord) -> bool {
    match rec.state {
        ObjectState::Circle(cs) => circle_state_valid(cs),
        ObjectState::Slider(ss) => slider_state_valid(ss),
    }
}

/// The per-frame engine and its frame-local buffers.
pub struct Engine {
    /// Global hit-circle diameter in milli-pixels, kept in step with the
    /// circle-size setting.
    pub hit_circle_diameter: i64,
    /// The visual-state records of the current frame.
    pub records: Vec<VisualStateRecord>,
    /// The judgement popups of the current frame.
    pub judgements_queue: Vec<JudgementsEntry>,
}

impl Engine {
    pub fn new() -> (e: Engine)
        ensures
            e.records@.len() == 0,
            e.judgements_queue@.len() == 0,
            e.hit_circle_diameter == 1000,
    {
        Engine {
            hit_circle_diameter: 1000,
            records: Vec::new(),
            judgements_queue: Vec::new(),
        }
    }

    /// Empty every frame-local buffer. Run once per frame, after the sink
    /// has drained the previous frame's output.
    pub fn clear_buffers(&mut self)
        ensures
            final(self).records@.len() == 0,
            final(self).judgements_queue@.len() == 0,
            final(self).hit_circle_diameter == old(self).hit_circle_diameter,
    {
        self.records.clear();
        self.judgements_queue.clear();
    }

    /// The Timeline Engine pass: append, for every index of the visible
    /// queue in order, the object's full visual-state record for the frame
    /// at `time`.
    pub fn prepare_objects(
        &mut self,
        time: i64,
        preempt: i64,
        fadein: i64,
        queue: &Vec<usize>,
        objects: &Vec<Object>,
        colors: &Vec<Rgb>,
        config: &Config,
    )
        requires
            objects_wf(objects@),
            valid_time(time as int),
            valid_span(preempt as int),
            valid_span(fadein as int),
            colors@.len() > 0,
            forall|k: int| 0 <= k < queue@.len()
                ==> (#[trigger] queue@[k]) < objects@.len(),
        ensures
            final(self).judgements_queue == old(self).judgements_queue,
            final(self).hit_circle_diameter == old(self).hit_circle_diameter,
            final(self).records@.len() == old(self).records@.len() + queue@.len(),
            forall|k: int| 0 <= k < old(self).records@.len()
                ==> final(self).records@[k] == old(self).records@[k],
            forall|j: int| 0 <= j < queue@.len() ==> {
                let rec = #[trigger] final(self).records@[old(self).records@.len() + j];
                record_matches(
                    rec,
                    time as int,
                    queue@[j] as int,
                    objects@[queue@[j] as int],
                    preempt as int,
                    fadein as int,
                    colors@,
                    config.debug_use_judgements_as_colors,
                ) && record_valid(rec)
            },
    {
        let ghost old_len = self.records@.len();
        let mut i: usize = 0;
        while i < queue.len()
            invariant
                objects_wf(objects@),
                valid_time(time as int),
                valid_span(preempt as int),
                valid_span(fadein as int),
                colors@.len() > 0,
                forall|k: int| 0 <= k < queue@.len()
                    ==> (#[trigger] queue@[k]) < objects@.len(),
                0 <= i <= queue@.len(),
                self.judgements_queue == old(self).judgements_queue,
                self.hit_circle_diameter == old(self).hit_circle_diameter,
                old_len == old(self).records@.len(),
                self.records@.len() == old_len + i,
                forall|k: int| 0 <= k < old_len
                    ==> self.records@[k] == old(self).records@[k],
                forall|j: int| 0 <= j < i ==> {
                    let rec = #[trigger] self.records@[old_len + j];
                    record_matches(
                        rec,
                        time as int,
                        queue@[j] as int,
                        objects@[queue@[j] as int],
                        preempt as int,
                        fadein as int,
                        colors@,
                        config.debug_use_judgements_as_colors,
                    ) && record_valid(rec)
                },
            decreases queue@.len() - i,
        {
            let idx = queue[i];
            let o = &objects[idx];
            let color = resolve_color(o, colors, config.debug_use_judgements_as_colors);
            let state: ObjectState = match &o.kind {
                ObjectKind::Circle(c) => ObjectState::Circle(
                    circle_state(time, o.start_time, c, preempt, fadein, color),
                ),
                ObjectKind::Slider(s) => ObjectState::Slider(
                    slider_state(time, o.start_time, s, preempt, fadein, color),
                ),
            };
            self.records.push(VisualStateRecord { index: idx, state });
            i = i + 1;
        }
    }

    /// The Judgement Lifecycle pass: append, for every visible object with
    /// an attached result whose display window contains `time`, its popup
    /// entries.
    pub fn prepare_judgements(
        &mut self,
        time: i64,
        queue: &Vec<usize>,
        objects: &Vec<Object>,
        config: &Config,
    )
        requires
            objects_wf(objects@),
            valid_time(time as int),
            config.wf(),
            forall|k: int| 0 <= k < queue@.len()
                ==> (#[trigger] queue@[k]) < objects@.len(),
        ensures
            final(self).records == old(self).records,
            final(self).hit_circle_diameter == old(self).hit_circle_diameter,
            final(self).judgements_queue@ == old(self).judgements_queue@ + spec_judgements(
                objects@,
                queue@,
                time as int,
                config.judgements,
            ),
            forall|k: int|
                old(self).judgements_queue@.len() <= k < final(self).judgements_queue@.len()
                    ==> 0 <= (#[trigger] final(self).judgements_queue@[k]).alpha <= 1000,
    {
        let mut i: usize = 0;
        while i < queue.len()
            invariant
                objects_wf(objects@),
                valid_time(time as int),
                config.wf(),
                forall|k: int| 0 <= k < queue@.len()
                    ==> (#[trigger] queue@[k]) < objects@.len(),
                0 <= i <= queue@.len(),
                self.records == old(self).records,
                self.hit_circle_diameter == old(self).hit_circle_diameter,
                self.judgements_queue@ == old(self).judgements_queue@ + spec_judgements(
                    objects@,
                    queue@.subrange(0, i as int),
                    time as int,
                    config.judgements,
                ),
                forall|k: int|
                    old(self).judgements_queue@.len() <= k < self.judgements_queue@.len()
                        ==> 0 <= (#[trigger] self.judgements_queue@[k]).alpha <= 1000,
            decreases queue@.len() - i,
        {
            let idx = queue[i];
            push_object_judgements(
                &objects[idx],
                time,
                &config.judgements,
                &mut self.judgements_queue,
            );
            proof {
                assert(queue@.subrange(0, i + 1 as int).drop_last() =~= queue@.subrange(
                    0,
                    i as int,
                ));
                assert(queue@.subrange(0, i + 1 as int).last() == queue@[i as int]);
            }
            i = i + 1;
        }
        proof {
            assert(queue@.subrange(0, queue@.len() as int) =~= queue@);
        }
    }

    /// A circle-size change: recompute the global hit-circle diameter and
    /// empty every slider's render cache, which the next visibility pass
    /// repopulates.
    pub fn on_cs_change(&mut self, cs: i64, objects: &mut Vec<Object>)
        requires
            valid_difficulty(cs as int),
        ensures
            final(self).hit_circle_diameter == spec_hitcircle_diameter(cs as int),
            final(self).records == old(self).records,
            final(self).judgements_queue == old(self).judgements_queue,
            final(objects)@.len() == old(objects)@.len(),
            forall|i: int| 0 <= i < old(objects)@.len()
                ==> final(objects)@[i] == spec_clear_render(#[trigger] old(objects)@[i]),
    {
        self.hit_circle_diameter = calc_hitcircle_diameter(cs);
        clear_cached_slider_textures(objects);
    }
}

/// The visibility window: fill `queue` with the indices of every object
/// whose display interval contains `time`, oldest first. The caller owns
/// the queue and reuses it across frames; it is emptied first.
pub fn select_visible(time: i64, preempt: i64, objects: &Vec<Object>, queue: &mut Vec<usize>)
    requires
        objects_wf(objects@),
        valid_time(time as int),
        valid_span(preempt as int),
    ensures
        forall|k: int| 0 <= k < final(queue)@.len() ==> {
            let idx = #[trigger] final(queue)@[k];
            idx < objects@.len() && spec_is_visible(
                objects@[idx as int],
                time as int,
                preempt as int,
            )
        },
        forall|k1: int, k2: int|
            0 <= k1 < k2 < final(queue)@.len() ==> final(queue)@[k1] < final(queue)@[k2],
        forall|idx: int|
            0 <= idx < objects@.len() && spec_is_visible(
                objects@[idx],
                time as int,
                preempt as int,
            ) ==> exists|k: int|
                0 <= k < final(queue)@.len() && (#[trigger] final(queue)@[k]) as int == idx,
{
    queue.clear();
    let mut i: usize = 0;
    while i < objects.len()
        invariant
            objects_wf(objects@),
            valid_time(time as int),
            valid_span(preempt as int),
            0 <= i <= objects@.len(),
            forall|k: int| 0 <= k < queue@.len() ==> {
                let idx = #[trigger] queue@[k];
                idx < i && spec_is_visible(objects@[idx as int], time as int, preempt as int)
            },
            forall|k1: int, k2: int|
                0 <= k1 < k2 < queue@.len() ==> queue@[k1] < queue@[k2],
            forall|idx: int|
                0 <= idx < i && spec_is_visible(objects@[idx], time as int, preempt as int)
                    ==> exists|k: int|
                        0 <= k < queue@.len() && (#[trigger] queue@[k]) as int == idx,
        decreases objects@.len() - i,
    {
        if objects[i].is_visible(time, preempt) {
            let ghost old_q = queue@;
            queue.push(i);
            proof {
                assert(queue@ == old_q.push(i));
                assert forall|idx: int|
                    0 <= idx < i + 1 && spec_is_visible(
                        objects@[idx],
                        time as int,
                        preempt as int,
                    ) implies exists|k: int|
                    0 <= k < queue@.len() && (#[trigger] queue@[k]) as int == idx by {
                    if idx < i {
                        let k = choose|k: int|
                            0 <= k < old_q.len() && (#[trigger] old_q[k]) as int == idx;
                        assert(queue@[k] as int == idx);
                    } else {
                        assert(queue@[old_q.len() as int] as int == idx);
                    }
                }
            }
        }
        i = i + 1;
    }
}

/// Empty every slider's render cache; circles are untouched.
pub fn clear_cached_slider_textures(objects: &mut Vec<Object>)
    ensures
        final(objects)@.len() == old(objects)@.len(),
        forall|i: int| 0 <= i < old(objects)@.len()
            ==> final(objects)@[i] == spec_clear_render(#[trigger] old(objects)@[i]),
{
    let mut i: usize = 0;
    while i < objects.len()
        invariant
            objects@.len() == old(objects)@.len(),
            0 <= i <= objects@.len(),
            forall|j: int| 0 <= j < i
                ==> objects@[j] == spec_clear_render(#[trigger] old(objects)@[j]),
            forall|j: int| i <= j < objects@.len()
                ==> objects@[j] == #[trigger] old(objects)@[j],
        decreases objects@.len() - i,
    {
        let o = &mut objects[i];
        o.clear_render();
        i = i + 1;
    }
}

/// The queue entries whose slider must be rasterized before the
/// visual-state pass: those with an empty cache, or all sliders when
/// caching across frames is off.
pub fn sliders_needing_texture(
    queue: &Vec<usize>,
    objects: &Vec<Object>,
    store: bool,
) -> (out: Vec<usize>)
    requires
        forall|k: int| 0 <= k < queue@.len()
            ==> (#[trigger] queue@[k]) < objects@.len(),
    ensures
        forall|k: int| 0 <= k < out@.len() ==> {
            let idx = #[trigger] out@[k];
            idx < objects@.len() && spec_needs_texture(objects@[idx as int], store)
        },
        forall|k: int| 0 <= k < queue@.len()
            && spec_needs_texture(objects@[(#[trigger] queue@[k]) as int], store)
            ==> exists|m: int| 0 <= m < out@.len() && #[trigger] out@[m] == queue@[k],
{
    let mut out: Vec<usize> = Vec::new();
    let mut i: usize = 0;
    while i < queue.len()
        invariant
            forall|k: int| 0 <= k < queue@.len()
                ==> (#[trigger] queue@[k]) < objects@.len(),
            0 <= i <= queue@.len(),
            forall|k: int| 0 <= k < out@.len() ==> {
                let idx = #[trigger] out@[k];
                idx < objects@.len() && spec_needs_texture(objects@[idx as int], store)
            },
            forall|k: int| 0 <= k < i
                && spec_needs_texture(objects@[(#[trigger] queue@[k]) as int], store)
                ==> exists|m: int| 0 <= m < out@.len() && #[trigger] out@[m] == queue@[k],
        decreases queue@.len() - i,
    {
        let idx = queue[i];
        if objects[idx].needs_texture(store) {
            let ghost old_out = out@;
            out.push(idx);
            proof {
                assert(out@ == old_out.push(idx));
                assert forall|k: int|
                    0 <= k < i + 1 && spec_needs_texture(
                        objects@[(#[trigger] queue@[k]) as int],
                        store,
                    ) implies exists|m: int|
                    0 <= m < out@.len() && #[trigger] out@[m] == queue@[k] by {
                    if k < i {
                        let m = choose|m: int|
                            0 <= m < old_out.len() && #[trigger] old_out[m] == queue@[k];
                        assert(out@[m] == queue@[k]);
                    } else {
                        assert(out@[old_out.len() as int] == queue@[k]);
                    }
                }
            }
        }
        i = i + 1;
    }
    out
}

/// Law: the per-frame computation is idempotent. Two records computed for
/// the same time, the same object state and the same configuration agree
/// on every observable field.
pub proof fn lemma_record_deterministic(
    rec1: VisualStateRecord,
    rec2: VisualStateRecord,
    time: int,
    index: int,
    o: Object,
    preempt: int,
    fadein: int,
    colors: Seq<Rgb>,
    debug: bool,
)
    requires
        record_matches(rec1, time, index, o, preempt, fadein, colors, debug),
        record_matches(rec2, time, index, o, preempt, fadein, colors, debug),
    ensures
        rec1.index == rec2.index,
        rec1.state matches ObjectState::Circle(c1) ==> (rec2.state matches ObjectState::Circle(
            c2,
        ) && c1 == c2),
        rec1.state matches ObjectState::Slider(s1) ==> (rec2.state matches ObjectState::Slider(s2)
            && s1.pos == s2.pos
            && s1.body_alpha == s2.body_alpha
            && s1.head_alpha == s2.head_alpha
            && s1.approach == s2.approach
            && s1.follow == s2.follow
            && s1.ticks@ == s2.ticks@
            && s1.arrows@ == s2.arrows@
            && s1.color == s2.color
            && s1.render == s2.render),
{
    let color = spec_resolve_color(o, colors, debug);
    match o.kind {
        ObjectKind::Circle(c) => {
            if let ObjectState::Circle(c1) = rec1.state {
                if let ObjectState::Circle(c2) = rec2.state {
                    crate::timeline::lemma_circle_state_deterministic(
                        c1,
                        c2,
                        time,
                        o.start_time as int,
                        c,
                        preempt,
                        fadein,
                        color,
                    );
                }
            }
        },
        ObjectKind::Slider(s) => {
            if let ObjectState::Slider(s1) = rec1.state {
                if let ObjectState::Slider(s2) = rec2.state {
                    crate::timeline::lemma_slider_state_deterministic(
                        s1,
                        s2,
                        time,
                        o.start_time as int,
                        s,
                        preempt,
                        fadein,
                        color,
                    );
                }
            }
        },
    }
}

/// Law: a circle-size change empties every slider's render cache, and the
/// next visibility pass repopulates each affected slider exactly once: a
/// cleared slider is offered for rasterization, and once a handle is
/// stored it is not offered again while caching across frames is on.
pub proof fn lemma_cache_repopulated_once(o: Object, h: u64)
    requires
        o.kind is Slider,
    ensures
        spec_needs_texture(spec_clear_render(o), true),
        o.kind matches ObjectKind::Slider(s) ==> !spec_needs_texture(
            Object { kind: ObjectKind::Slider(Slider { render: Some(h), ..s }), ..o },
            true,
        ),
{
}

} // verus!

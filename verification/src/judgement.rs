//! The judgement lifecycle: the transient scoring popups emitted for
//! objects whose attached result's display window contains the current
//! time.

use vstd::prelude::*;
use crate::config::JudgementsConfig;
use crate::curve::Pos;
use crate::hit_objects::{object_wf, Hit, Object, ObjectKind, Slider, SliderResultState};
use crate::math::{calc_fade_alpha, spec_fade_alpha, valid_time};

verus! {

/// A judgement popup for one frame: where it is shown, its opacity in
/// milli-units, and the grade it shows.
#[derive(Clone, Copy, Debug, PartialEq, Eq, Structural)]
pub struct JudgementsEntry {
    pub pos: Pos,
    pub alpha: i64,
    pub result: Hit,
}

/// Whether a popup anchored at `at` is shown at `time`: from the moment
/// its fade-in opens until its fade-out has fully decayed.
pub open spec fn spec_judgement_window(time: int, at: int, j: JudgementsConfig) -> bool {
    at - j.fade_in_ms <= time <= at + j.stay_on_screen_ms + j.fade_out_ms
}

/// The envelope value of a popup anchored at `at`, as a record field.
pub open spec fn spec_judgement_alpha(time: int, at: int, j: JudgementsConfig) -> i64 {
    spec_fade_alpha(
        time,
        at,
        j.fade_in_ms as int,
        j.stay_on_screen_ms as int,
        j.fade_out_ms as int,
    ) as i64
}

/// Where a slider's tail popup is shown: the path's end point, offset by
/// the slider's anchor.
pub open spec fn spec_slider_end_pos(s: Slider) -> Pos {
    let cp = s.curve.points@[s.curve.points@.len() - 1];
    Pos { x: (s.pos.x + cp.x) as i64, y: (s.pos.y + cp.y) as i64 }
}

/// The popups one object contributes to the frame at `time`: a judged
/// circle contributes one while its window is open; a slider contributes
/// one for its head result, and one for its tail — anchored at the
/// slider's end time — only if it was passed rather than abandoned.
pub open spec fn spec_object_judgements(o: Object, time: int, j: JudgementsConfig)
    -> Seq<JudgementsEntry> {
    match o.kind {
        ObjectKind::Circle(c) => match c.hit_result {
            Some(r) => if spec_judgement_window(time, r.at as int, j) {
                seq![
                    JudgementsEntry {
                        pos: c.pos,
                        alpha: spec_judgement_alpha(time, r.at as int, j),
                        result: r.result,
                    },
                ]
            } else {
                Seq::empty()
            },
            None => Seq::empty(),
        },
        ObjectKind::Slider(s) => match s.hit_result {
            Some(sr) => {
                let head: Seq<JudgementsEntry> = if spec_judgement_window(
                    time,
                    sr.head.at as int,
                    j,
                ) {
                    seq![
                        JudgementsEntry {
                            pos: s.pos,
                            alpha: spec_judgement_alpha(time, sr.head.at as int, j),
                            result: sr.head.result,
                        },
                    ]
                } else {
                    Seq::empty()
                };
                let end = o.start_time + s.duration;
                let tail: Seq<JudgementsEntry> = match sr.state {
                    SliderResultState::Passed(g) => if spec_judgement_window(time, end, j) {
                        seq![
                            JudgementsEntry {
                                pos: spec_slider_end_pos(s),
                                alpha: spec_judgement_alpha(time, end, j),
                                result: g,
                            },
                        ]
                    } else {
                        Seq::empty()
                    },
                    SliderResultState::HeadOnly => Seq::empty(),
                };
                head + tail
            },
            None => Seq::empty(),
        },
    }
}

/// Append the popups of one object to the frame's judgement queue.
pub fn push_object_judgements(
    o: &Object,
    time: i64,
    j: &JudgementsConfig,
    out: &mut Vec<JudgementsEntry>,
)
    requires
        object_wf(*o),
        valid_time(time as int),
        j.wf(),
    ensures
        final(out)@ == old(out)@ + spec_object_judgements(*o, time as int, *j),
        forall|k: int| old(out)@.len() <= k < final(out)@.len()
            ==> 0 <= (#[trigger] final(out)@[k]).alpha <= 1000,
{
    match &o.kind {
        ObjectKind::Circle(c) => {
            match &c.hit_result {
                Some(r) => {
                    if r.at - j.fade_in_ms <= time
                        && time <= r.at + j.stay_on_screen_ms + j.fade_out_ms {
                        let alpha = calc_fade_alpha(
                            time,
                            r.at,
                            j.fade_in_ms,
                            j.stay_on_screen_ms,
                            j.fade_out_ms,
                        );
                        out.push(JudgementsEntry { pos: c.pos, alpha, result: r.result });
                    }
                },
                None => {},
            }
        },
        ObjectKind::Slider(s) => {
            match &s.hit_result {
                Some(sr) => {
                    if sr.head.at - j.fade_in_ms <= time
                        && time <= sr.head.at + j.stay_on_screen_ms + j.fade_out_ms {
                        let alpha = calc_fade_alpha(
                            time,
                            sr.head.at,
                            j.fade_in_ms,
                            j.stay_on_screen_ms,
                            j.fade_out_ms,
                        );
                        out.push(JudgementsEntry { pos: s.pos, alpha, result: sr.head.result });
                    }
                    match sr.state {
                        SliderResultState::Passed(g) => {
                            let end = o.start_time + s.duration;
                            if end - j.fade_in_ms <= time
                                && time <= end + j.stay_on_screen_ms + j.fade_out_ms {
                                let alpha = calc_fade_alpha(
                                    time,
                                    end,
                                    j.fade_in_ms,
                                    j.stay_on_screen_ms,
                                    j.fade_out_ms,
                                );
                                let n = s.curve.points.len();
                                let cp = s.curve.points[n - 1];
                                let pos = Pos { x: s.pos.x + cp.x, y: s.pos.y + cp.y };
                                out.push(JudgementsEntry { pos, alpha, result: g });
                            }
                        },
                        SliderResultState::HeadOnly => {},
                    }
                },
                None => {},
            }
        },
    }
}

/// Which judgement image a grade selects, in atlas order: the best grade
/// first, the miss last.
pub fn judgement_image_index(result: Hit) -> (i: usize)
    ensures
        i == match result {
            Hit::X300 => 0usize,
            Hit::X100 => 1usize,
            Hit::X50 => 2usize,
            Hit::Miss => 3usize,
        },
{
    match result {
        Hit::X300 => 0,
        Hit::X100 => 1,
        Hit::X50 => 2,
        Hit::Miss => 3,
    }
}

/// The popups a whole frame queue contributes, in queue order.
pub open spec fn spec_judgements(
    objects: Seq<Object>,
    queue: Seq<usize>,
    time: int,
    j: JudgementsConfig,
) -> Seq<JudgementsEntry>
    decreases queue.len(),
{
    if queue.len() == 0 {
        Seq::empty()
    } else {
        spec_judgements(objects, queue.drop_last(), time, j)
            + spec_object_judgements(objects[queue.last() as int], time, j)
    }
}

} // verus!

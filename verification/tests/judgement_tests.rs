use osu_core::config::{Config, JudgementsConfig};
use osu_core::curve::{Curve, Pos};
use osu_core::engine::Engine;
use osu_core::hit_objects::{Hit, Object, ReverseArrow};
use osu_core::judgement::{judgement_image_index, push_object_judgements};

fn envelope() -> JudgementsConfig {
    JudgementsConfig { fade_in_ms: 50, stay_on_screen_ms: 200, fade_out_ms: 100 }
}

fn judged_circle(at: i64, grade: Hit) -> Object {
    let mut o = Object::circle(990, 0, Pos { x: 3, y: 4 });
    o.set_circle_result(at, grade);
    o
}

fn slider_object() -> Object {
    Object::slider(
        0,
        0,
        Pos { x: 100, y: 0 },
        900,
        3,
        Curve::new(vec![Pos { x: 0, y: 0 }, Pos { x: 300, y: 0 }], 300),
        Vec::new(),
        vec![ReverseArrow { angle: 0 }, ReverseArrow { angle: 0 }],
    )
}

#[test]
fn judgement_envelope_values() {
    let j = envelope();
    let o = judged_circle(1000, Hit::X300);

    // Anchored at 1000: full opacity at the anchor, half way up the
    // fade-in at 975.
    let mut out = Vec::new();
    push_object_judgements(&o, 1000, &j, &mut out);
    assert_eq!(out.len(), 1);
    assert_eq!(out[0].alpha, 1000);
    assert_eq!(out[0].pos, Pos { x: 3, y: 4 });
    assert_eq!(out[0].result, Hit::X300);

    let mut out = Vec::new();
    push_object_judgements(&o, 975, &j, &mut out);
    assert_eq!(out.len(), 1);
    assert_eq!(out[0].alpha, 500);

    // Absent outside [1000 - 50, 1000 + 200 + 100].
    let mut out = Vec::new();
    push_object_judgements(&o, 949, &j, &mut out);
    assert_eq!(out.len(), 0);
    let mut out = Vec::new();
    push_object_judgements(&o, 1301, &j, &mut out);
    assert_eq!(out.len(), 0);
    let mut out = Vec::new();
    push_object_judgements(&o, 1325, &j, &mut out);
    assert_eq!(out.len(), 0);

    // Fully decayed at the window's very end.
    let mut out = Vec::new();
    push_object_judgements(&o, 1300, &j, &mut out);
    assert_eq!(out.len(), 1);
    assert_eq!(out[0].alpha, 0);
}

#[test]
fn unjudged_objects_emit_nothing() {
    let j = envelope();
    let o = Object::circle(990, 0, Pos { x: 3, y: 4 });
    let mut out = Vec::new();
    push_object_judgements(&o, 1000, &j, &mut out);
    assert_eq!(out.len(), 0);

    let s = slider_object();
    let mut out = Vec::new();
    push_object_judgements(&s, 100, &j, &mut out);
    assert_eq!(out.len(), 0);
}

#[test]
fn slider_head_and_tail_judgements() {
    let j = envelope();

    // Head resolved only: one entry at the slider's anchor.
    let mut o = slider_object();
    o.set_slider_head_result(10, Hit::X100);
    let mut out = Vec::new();
    push_object_judgements(&o, 20, &j, &mut out);
    assert_eq!(out.len(), 1);
    assert_eq!(out[0].pos, Pos { x: 100, y: 0 });
    assert_eq!(out[0].result, Hit::X100);

    // Passed: near the end time (900) a second entry at the path's end
    // point offset by the anchor.
    o.set_slider_passed(Hit::X300);
    let mut out = Vec::new();
    push_object_judgements(&o, 900, &j, &mut out);
    assert_eq!(out.len(), 1);
    assert_eq!(out[0].pos, Pos { x: 400, y: 0 });
    assert_eq!(out[0].result, Hit::X300);
    assert_eq!(out[0].alpha, 1000);

    // At 300 the head's fade-out is nearly done and the tail's window
    // ([850, 1200]) has not opened: one entry, the head's.
    let mut out = Vec::new();
    push_object_judgements(&o, 300, &j, &mut out);
    assert_eq!(out.len(), 1);
    assert_eq!(out[0].result, Hit::X100);
    assert_eq!(out[0].alpha, 100);
}

#[test]
fn grade_image_order() {
    assert_eq!(judgement_image_index(Hit::X300), 0);
    assert_eq!(judgement_image_index(Hit::X100), 1);
    assert_eq!(judgement_image_index(Hit::X50), 2);
    assert_eq!(judgement_image_index(Hit::Miss), 3);
}

#[test]
fn engine_judgement_pass_appends_in_queue_order() {
    let j = Config::default();
    let mut objects = vec![judged_circle(1000, Hit::X50), slider_object()];
    objects[1].set_slider_head_result(1010, Hit::Miss);
    let queue = vec![0usize, 1usize];

    let mut engine = Engine::new();
    engine.prepare_judgements(1010, &queue, &objects, &j);
    assert_eq!(engine.judgements_queue.len(), 2);
    assert_eq!(engine.judgements_queue[0].result, Hit::X50);
    assert_eq!(engine.judgements_queue[1].result, Hit::Miss);
}

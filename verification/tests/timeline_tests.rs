use osu_core::curve::{Curve, Pos};
use osu_core::config::Rgb;
use osu_core::hit_objects::{Hit, HitResult, ReverseArrow, Slider, Tick};
use osu_core::timeline::{
    arrow_states, circle_alpha, circle_approach_scale, circle_state, fadein_alpha, follow_progress,
    slide_index, slider_body_alpha, slider_state,
};
use osu_core::hit_objects::Circle;

fn line_curve(x0: i64, x1: i64, dist: i64) -> Curve {
    Curve::new(vec![Pos { x: x0, y: 0 }, Pos { x: x1, y: 0 }], dist)
}

fn plain_slider(duration: i64, repeats: i64, curve: Curve) -> Slider {
    let arrows = (1..repeats).map(|_| ReverseArrow { angle: 0 }).collect::<Vec<_>>();
    Slider {
        pos: Pos { x: 0, y: 0 },
        duration,
        repeats,
        curve,
        ticks: Vec::new(),
        reverse_arrows: arrows,
        render: None,
        hit_result: None,
    }
}

#[test]
fn slide_index_parity() {
    // repeats = 3, duration = 900, start = 0: at time 301 the second
    // traversal is active.
    assert_eq!(slide_index(301, 0, 900, 3), 2);
    assert_eq!(slide_index(0, 0, 900, 3), 1);
    assert_eq!(slide_index(299, 0, 900, 3), 1);
    assert_eq!(slide_index(-50, 0, 900, 3), 1);
    assert_eq!(slide_index(899, 0, 900, 3), 3);
}

#[test]
fn follow_direction_alternates() {
    // On slide 1 progress runs forward, on slide 2 it is inverted.
    let p1 = follow_progress(1, 0, 900, 3);
    let p2 = follow_progress(301, 0, 900, 3);
    assert_eq!(p1, 3);
    assert_eq!(p2, 997);

    // The follow indicator's position reflects the inversion on a straight
    // path from (0,0) to (900,0).
    let s = plain_slider(900, 3, line_curve(0, 900, 900));
    let color = Rgb { r: 1, g: 2, b: 3 };
    let early = slider_state(1, 0, &s, 450, 300, color);
    let late = slider_state(301, 0, &s, 450, 300, color);
    let fe = early.follow.unwrap();
    let fl = late.follow.unwrap();
    assert!(fe.pos.x < 10);
    assert!(fl.pos.x > 890);
}

#[test]
fn reverse_arrow_count_and_endpoints() {
    // repeats = 4: exactly 3 markers, at path end, start, end.
    let s = plain_slider(1200, 4, line_curve(0, 100, 100));
    let arrows = arrow_states(600, 0, &s, 900);
    assert_eq!(arrows.len(), 3);
    assert_eq!(arrows[0].pos, Pos { x: 100, y: 0 });
    assert_eq!(arrows[1].pos, Pos { x: 0, y: 0 });
    assert_eq!(arrows[2].pos, Pos { x: 100, y: 0 });
}

#[test]
fn reverse_arrow_alphas() {
    // repeats = 4, duration = 1200: boundaries at 300, 600, 900.
    let s = plain_slider(1200, 4, line_curve(0, 100, 100));
    // At time 100 (slide 1): the first arrow shows the body alpha; the
    // third overlaps the first (its time is far in the future and it is
    // not on the current slide), so it fades in from the first boundary's
    // time: still 0 at time 100.
    let arrows = arrow_states(100, 0, &s, 900);
    assert_eq!(arrows[0].alpha, 900);
    assert_eq!(arrows[2].alpha, 0);
    // At time 375 the third arrow has been fading in since time 300.
    let arrows = arrow_states(375, 0, &s, 900);
    assert_eq!(arrows[2].alpha, 500);
    // A passed boundary fades out over its own window.
    let arrows = arrow_states(375, 0, &s, 900);
    assert_eq!(arrows[0].alpha, 500);
    // Long after its time an arrow is gone.
    let arrows = arrow_states(500, 0, &s, 900);
    assert_eq!(arrows[0].alpha, 0);
}

#[test]
fn approach_scale_endpoints() {
    // At the moment the display interval opens the scale is the clamped
    // maximum of 4.0; at the start time it is exactly 1.0.
    assert_eq!(circle_approach_scale(550, 1000, 450), 4000);
    assert_eq!(circle_approach_scale(1000, 1000, 450), 1000);
    // Far before the interval it stays clamped.
    assert_eq!(circle_approach_scale(-100000, 1000, 450), 4000);
}

#[test]
fn circle_fade_in_and_judged_fade_out() {
    // preempt 450, fade-in 300, start 1000: the fade-in window is
    // [550, 850].
    assert_eq!(fadein_alpha(550, 1000, 450, 300), 0);
    assert_eq!(fadein_alpha(700, 1000, 450, 300), 500);
    assert_eq!(fadein_alpha(850, 1000, 450, 300), 1000);

    // Unjudged: full opacity from the start time on.
    assert_eq!(circle_alpha(1000, 1000, 450, 300, &None), 1000);
    assert_eq!(circle_alpha(5000, 1000, 450, 300, &None), 1000);

    // Judged at 990: fades out over twice the base circle fade-out (300 ms).
    let hr = Some(HitResult { at: 990, result: Hit::X300 });
    assert_eq!(circle_alpha(990, 1000, 450, 300, &hr), 1000);
    assert_eq!(circle_alpha(1140, 1000, 450, 300, &hr), 500);
    assert_eq!(circle_alpha(1290, 1000, 450, 300, &hr), 0);
    assert_eq!(circle_alpha(9999, 1000, 450, 300, &hr), 0);
}

#[test]
fn approach_is_suppressed() {
    let color = Rgb { r: 0, g: 0, b: 0 };
    let unjudged = Circle { pos: Pos { x: 5, y: 6 }, hit_result: None };
    // Before the start time an unjudged circle carries an approach circle.
    let r = circle_state(700, 1000, &unjudged, 450, 300, color);
    assert!(r.approach.is_some());
    // From the start time on it is suppressed.
    let r = circle_state(1000, 1000, &unjudged, 450, 300, color);
    assert!(r.approach.is_none());
    // A judged circle carries none even before the start time.
    let judged = Circle {
        pos: Pos { x: 5, y: 6 },
        hit_result: Some(HitResult { at: 900, result: Hit::X100 }),
    };
    let r = circle_state(950, 1000, &judged, 450, 300, color);
    assert!(r.approach.is_none());
}

#[test]
fn slider_body_alpha_caps_and_fades() {
    // preempt 450, fade-in 300, start 1000, duration 900.
    // Mid fade-in.
    assert_eq!(slider_body_alpha(700, 1000, 450, 300, 900), 500);
    // The cap: never above 0.95.
    assert_eq!(slider_body_alpha(850, 1000, 450, 300, 900), 950);
    assert_eq!(slider_body_alpha(1500, 1000, 450, 300, 900), 950);
    // Fade-out over 200 ms from the end time (1900).
    assert_eq!(slider_body_alpha(2000, 1000, 450, 300, 900), 500);
    assert_eq!(slider_body_alpha(2100, 1000, 450, 300, 900), 0);
}

#[test]
fn ticks_visible_only_on_their_slide_and_before_their_time() {
    let mut s = plain_slider(900, 3, line_curve(0, 900, 900));
    s.ticks = vec![
        Tick { pos: Pos { x: 150, y: 0 }, time: 150, slide: 1 },
        Tick { pos: Pos { x: 450, y: 0 }, time: 450, slide: 2 },
        Tick { pos: Pos { x: 750, y: 0 }, time: 750, slide: 3 },
    ];
    let color = Rgb { r: 0, g: 0, b: 0 };
    // Time 100, slide 1: only the slide-1 tick, still ahead of its time.
    let r = slider_state(100, 0, &s, 450, 300, color);
    assert_eq!(r.ticks.len(), 1);
    assert_eq!(r.ticks[0].pos, Pos { x: 150, y: 0 });
    // Time 200, slide 1: the tick's own time has passed, it is dropped.
    let r = slider_state(200, 0, &s, 450, 300, color);
    assert_eq!(r.ticks.len(), 0);
    // Time 400, slide 2: only the slide-2 tick.
    let r = slider_state(400, 0, &s, 450, 300, color);
    assert_eq!(r.ticks.len(), 1);
    assert_eq!(r.ticks[0].pos, Pos { x: 450, y: 0 });
}

#[test]
fn slider_approach_and_head() {
    let s = plain_slider(900, 3, line_curve(0, 900, 900));
    let color = Rgb { r: 0, g: 0, b: 0 };
    // Before the start time the approach and the head show the body alpha.
    let r = slider_state(-200, 0, &s, 450, 300, color);
    assert_eq!(r.approach.alpha, r.body_alpha);
    assert_eq!(r.head_alpha, r.body_alpha);
    assert!(r.body_alpha > 0);
    // From the start time on both are gone.
    let r = slider_state(10, 0, &s, 450, 300, color);
    assert_eq!(r.approach.alpha, 0);
    assert_eq!(r.head_alpha, 0);
    // The slider approach scale peaks at 3.95 inside the interval.
    let r = slider_state(-450, 0, &s, 450, 300, color);
    assert_eq!(r.approach.scale, 3950);
}

#[test]
fn every_value_stays_in_range_across_the_timeline() {
    // A sweep across the whole display interval and beyond: every alpha in
    // [0, 1000] (bodies capped at 950), every scale in [1000, 4000].
    let mut s = plain_slider(900, 3, line_curve(0, 900, 900));
    s.ticks = vec![
        Tick { pos: Pos { x: 150, y: 0 }, time: 150, slide: 1 },
        Tick { pos: Pos { x: 450, y: 0 }, time: 450, slide: 2 },
    ];
    let color = Rgb { r: 0, g: 0, b: 0 };
    let mut t: i64 = -2000;
    while t < 4000 {
        let r = slider_state(t, 0, &s, 450, 300, color);
        assert!(0 <= r.body_alpha && r.body_alpha <= 950);
        assert!(0 <= r.head_alpha && r.head_alpha <= 950);
        assert!(0 <= r.approach.alpha && r.approach.alpha <= 950);
        assert!(1000 <= r.approach.scale && r.approach.scale <= 4000);
        if let Some(f) = &r.follow {
            assert!(0 <= f.alpha && f.alpha <= 950);
        }
        for tk in &r.ticks {
            assert!(0 <= tk.alpha && tk.alpha <= 950);
        }
        for a in &r.arrows {
            assert!(0 <= a.alpha && a.alpha <= 1000);
        }

        let c = Circle { pos: Pos { x: 0, y: 0 }, hit_result: None };
        let rc = circle_state(t, 0, &c, 450, 300, color);
        assert!(0 <= rc.alpha && rc.alpha <= 1000);
        if let Some(a) = &rc.approach {
            assert!(0 <= a.alpha && a.alpha <= 1000);
            assert!(1000 <= a.scale && a.scale <= 4000);
        }
        t += 37;
    }
}

#[test]
fn curve_sampling_and_bounds() {
    let c = line_curve(0, 900, 900);
    assert_eq!(c.position_at(0), Pos { x: 0, y: 0 });
    assert_eq!(c.position_at(1000), Pos { x: 900, y: 0 });
    assert_eq!(c.position_at(500), Pos { x: 450, y: 0 });
    let pts = c.body_sample_points();
    // step = 2500 / 900 = 2 milli-units: 251 pairs.
    assert_eq!(pts.len(), 2 * 251);
    assert_eq!(pts[0], Pos { x: 0, y: 0 });
    assert_eq!(pts[1], Pos { x: 900, y: 0 });

    let s = plain_slider(900, 3, line_curve(0, 900, 900));
    let (lo, hi) = s.bounding_box(30);
    assert_eq!(lo, Pos { x: -30, y: -30 });
    assert_eq!(hi, Pos { x: 930, y: 30 });
}

use osu_core::config::{Config, Rgb};
use osu_core::curve::{Curve, Pos};
use osu_core::engine::{
    clear_cached_slider_textures, select_visible, sliders_needing_texture, Engine, ObjectState,
};
use osu_core::hit_objects::{Hit, Object, ObjectKind, ReverseArrow};

fn test_curve() -> Curve {
    Curve::new(vec![Pos { x: 0, y: 0 }, Pos { x: 300, y: 0 }], 300)
}

fn test_objects() -> Vec<Object> {
    vec![
        Object::circle(1000, 0, Pos { x: 10, y: 20 }),
        Object::slider(
            1500,
            1,
            Pos { x: 50, y: 60 },
            900,
            3,
            test_curve(),
            Vec::new(),
            vec![ReverseArrow { angle: 0 }, ReverseArrow { angle: 0 }],
        ),
        Object::circle(9000, 2, Pos { x: 70, y: 80 }),
    ]
}

fn palette() -> Vec<Rgb> {
    vec![Rgb { r: 10, g: 20, b: 30 }, Rgb { r: 40, g: 50, b: 60 }]
}

#[test]
fn visibility_window_selects_current_objects() {
    let objects = test_objects();
    let mut queue: Vec<usize> = Vec::new();
    // At time 1000 with preempt 450: only the circle at 1000 is inside its
    // display interval; the slider at 1500 starts preempting at 1050, the
    // circle at 9000 is far in the future.
    select_visible(1000, 450, &objects, &mut queue);
    assert_eq!(queue, vec![0]);

    // At 1200 the circle (horizon 1300) and the slider overlap.
    select_visible(1200, 450, &objects, &mut queue);
    assert_eq!(queue, vec![0, 1]);

    // Past the circle's fade-out horizon only the slider remains.
    select_visible(1800, 450, &objects, &mut queue);
    assert_eq!(queue, vec![1]);

    // A slider stays visible to the end of its fade-out window
    // (1500 + 900 + 200).
    select_visible(2600, 450, &objects, &mut queue);
    assert_eq!(queue, vec![1]);
    select_visible(2601, 450, &objects, &mut queue);
    assert_eq!(queue, Vec::<usize>::new());
}

#[test]
fn records_follow_the_queue() {
    let objects = test_objects();
    let mut queue: Vec<usize> = Vec::new();
    select_visible(1200, 450, &objects, &mut queue);

    let mut engine = Engine::new();
    let config = Config::default();
    engine.prepare_objects(1200, 450, 300, &queue, &objects, &palette(), &config);
    assert_eq!(engine.records.len(), 2);
    assert_eq!(engine.records[0].index, 0);
    assert_eq!(engine.records[1].index, 1);
    match &engine.records[0].state {
        ObjectState::Circle(cs) => {
            assert_eq!(cs.pos, Pos { x: 10, y: 20 });
            // Unjudged and past its start time: fully opaque.
            assert_eq!(cs.alpha, 1000);
            // The palette cycles by the object's color index.
            assert_eq!(cs.color, Rgb { r: 10, g: 20, b: 30 });
        },
        ObjectState::Slider(_) => panic!("expected a circle record"),
    }
    match &engine.records[1].state {
        ObjectState::Slider(ss) => {
            assert_eq!(ss.pos, Pos { x: 50, y: 60 });
            assert_eq!(ss.arrows.len(), 2);
            assert_eq!(ss.color, Rgb { r: 40, g: 50, b: 60 });
            assert_eq!(ss.render, None);
        },
        ObjectState::Circle(_) => panic!("expected a slider record"),
    }

    engine.clear_buffers();
    assert_eq!(engine.records.len(), 0);
    assert_eq!(engine.judgements_queue.len(), 0);
}

#[test]
fn frame_is_idempotent() {
    let objects = test_objects();
    let mut queue: Vec<usize> = Vec::new();
    select_visible(1200, 450, &objects, &mut queue);
    let config = Config::default();

    let mut e1 = Engine::new();
    e1.prepare_objects(1200, 450, 300, &queue, &objects, &palette(), &config);
    e1.prepare_judgements(1200, &queue, &objects, &config);
    let mut e2 = Engine::new();
    e2.prepare_objects(1200, 450, 300, &queue, &objects, &palette(), &config);
    e2.prepare_judgements(1200, &queue, &objects, &config);

    assert_eq!(e1.records, e2.records);
    assert_eq!(e1.judgements_queue, e2.judgements_queue);
}

#[test]
fn debug_coloring_uses_the_grade() {
    let mut objects = test_objects();
    objects[0].set_circle_result(1005, Hit::X100);
    let queue = vec![0usize];
    let mut config = Config::default();
    config.debug_use_judgements_as_colors = true;

    let mut engine = Engine::new();
    engine.prepare_objects(1010, 450, 300, &queue, &objects, &palette(), &config);
    match &engine.records[0].state {
        ObjectState::Circle(cs) => assert_eq!(cs.color, Rgb { r: 51, g: 252, b: 51 }),
        ObjectState::Slider(_) => panic!("expected a circle record"),
    }
}

#[test]
fn cs_change_clears_every_slider_cache() {
    let mut objects = test_objects();
    objects[1].set_render(7);
    match &objects[1].kind {
        ObjectKind::Slider(s) => assert_eq!(s.render, Some(7)),
        ObjectKind::Circle(_) => panic!("expected a slider"),
    }

    let mut engine = Engine::new();
    engine.on_cs_change(40, &mut objects);
    assert_eq!(engine.hit_circle_diameter, 72960);
    match &objects[1].kind {
        ObjectKind::Slider(s) => assert_eq!(s.render, None),
        ObjectKind::Circle(_) => panic!("expected a slider"),
    }
}

#[test]
fn cache_repopulated_exactly_once() {
    let mut objects = test_objects();
    objects[1].set_render(7);
    let queue = vec![0usize, 1usize];

    // While its cache is full and caching is on, the slider is not offered.
    assert_eq!(sliders_needing_texture(&queue, &objects, true), Vec::<usize>::new());

    // After a circle-size change its cache is empty: offered exactly once.
    clear_cached_slider_textures(&mut objects);
    assert_eq!(sliders_needing_texture(&queue, &objects, true), vec![1]);

    // Repopulating takes it off the list again.
    objects[1].set_render(8);
    assert_eq!(sliders_needing_texture(&queue, &objects, true), Vec::<usize>::new());

    // With caching off every slider is rasterized every frame.
    assert_eq!(sliders_needing_texture(&queue, &objects, false), vec![1]);
}

use osu_core::clock::Timer;

#[test]
fn paused_clock_stands_still() {
    let mut clock = Timer::new();
    assert!(clock.is_paused());
    assert_eq!(clock.update(), 0);
    assert_eq!(clock.update(), 0);
    assert_eq!(clock.get_time(), 0);
}

#[test]
fn unpaused_clock_is_monotonic() {
    let mut clock = Timer::new();
    clock.unpause();
    assert!(!clock.is_paused());
    let t1 = clock.update();
    let t2 = clock.update();
    let t3 = clock.update();
    assert!(t1 <= t2);
    assert!(t2 <= t3);
}

#[test]
fn pause_freezes_the_position() {
    let mut clock = Timer::new();
    clock.unpause();
    let t1 = clock.update();
    clock.pause();
    let frozen = clock.update();
    assert!(frozen >= t1);
    assert_eq!(clock.update(), frozen);
    assert_eq!(clock.get_time(), frozen);
}

#[test]
fn seek_and_reset() {
    let mut clock = Timer::new();
    clock.set_time(5000);
    assert_eq!(clock.get_time(), 5000);
    // Paused: the position does not move from the seek target.
    assert_eq!(clock.update(), 5000);

    clock.unpause();
    let t = clock.update();
    assert!(t >= 5000);

    clock.reset_time();
    assert!(clock.is_paused());
    assert_eq!(clock.get_time(), 0);
}

#[test]
fn since_start_is_at_least_the_position() {
    let mut clock = Timer::new();
    clock.set_time(123);
    assert!(clock.since_start() >= 123);
}

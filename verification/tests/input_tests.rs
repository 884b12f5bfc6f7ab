use osu_core::input::{OsuInput, OsuInputState};

#[test]
fn test_inputs() {
    let inputs = [
        OsuInput::key(50, true, false, false, false),
        OsuInput::key(100, true, false, false, false),
        OsuInput::key(300, true, false, false, false),
    ];

    let mut state = OsuInputState::default();

    state.update(&inputs[0]);
    assert_eq!(state.is_holding(), false);

    state.update(&inputs[1]);
    assert_eq!(state.is_holding(), true);

    state.update(&inputs[2]);
    assert_eq!(state.is_holding(), true);
}

#[test]
fn key_hit_and_suppression() {
    let mut state = OsuInputState::default();
    assert!(!state.is_key_hit());

    state.update(&OsuInput::key(10, false, true, false, false));
    assert!(state.is_key_hit());

    state.set_no_hit();
    assert!(!state.is_key_hit());

    // A later keyboard event re-arms hits.
    state.update(&OsuInput::key(20, false, true, false, false));
    assert!(state.is_key_hit());
}

#[test]
fn cursor_moves_keep_keyboard() {
    let mut state = OsuInputState::default();
    state.update(&OsuInput::key(5, true, false, false, false));
    state.update(&OsuInput::moved(7, 120, 340));
    assert!(state.is_key_hit());
    assert!(state.is_holding());
    assert_eq!(state.cursor.x, 120);
    assert_eq!(state.cursor.y, 340);

    state.clear();
    assert_eq!(state.ts, 0);
    assert!(!state.is_key_hit());
    assert!(!state.is_holding());
}

#[test]
fn event_kinds() {
    let key = OsuInput::key(1, false, false, true, false);
    assert!(key.is_key_hit());
    let idle = OsuInput::key(2, false, false, false, false);
    assert!(!idle.is_key_hit());
    let moved = OsuInput::moved(3, 0, 0);
    assert!(!moved.is_key_hit());
}

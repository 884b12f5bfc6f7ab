//! The input collaborator's state machine: timestamped keyboard and cursor
//! events folded into the current input state.
//!
//! Timestamps are milliseconds relative to the beginning of the map, and
//! cursor coordinates are map-space units, as everywhere in the library.

use vstd::prelude::*;

verus! {

/// The four gameplay buttons.
#[derive(Debug, Copy, Clone, PartialEq, Eq, Structural)]
pub struct KeyboardState {
    pub k1: bool,
    pub k2: bool,
    pub m1: bool,
    pub m2: bool,
}

pub open spec fn spec_any_key(k: KeyboardState) -> bool {
    k.k1 || k.k2 || k.m1 || k.m2
}

impl KeyboardState {
    /// Whether any gameplay button is down.
    pub fn is_key_hit(&self) -> (r: bool)
        ensures
            r == spec_any_key(*self),
    {
        self.k1 || self.k2 || self.m1 || self.m2
    }
}

/// Cursor position in map-space units.
#[derive(Debug, Copy, Clone, PartialEq, Eq, Structural)]
pub struct CursorState {
    pub x: i64,
    pub y: i64,
}

/// One input event's payload.
#[derive(Debug, Copy, Clone, PartialEq, Eq, Structural)]
pub enum OsuInputKind {
    Keyboard(KeyboardState),
    CursorMoved(CursorState),
}

/// A timestamped input event.
#[derive(Debug, Copy, Clone, PartialEq, Eq, Structural)]
pub struct OsuInput {
    /// Milliseconds relative to the beginning of the map.
    pub ts: u64,
    pub kind: OsuInputKind,
}

impl OsuInput {
    /// A keyboard event.
    pub fn key(ts: u64, k1: bool, k2: bool, m1: bool, m2: bool) -> (r: OsuInput)
        ensures
            r == (OsuInput {
                ts,
                kind: OsuInputKind::Keyboard(KeyboardState { k1, k2, m1, m2 }),
            }),
    {
        OsuInput { ts, kind: OsuInputKind::Keyboard(KeyboardState { k1, k2, m1, m2 }) }
    }

    /// A cursor-motion event.
    pub fn moved(ts: u64, x: i64, y: i64) -> (r: OsuInput)
        ensures
            r == (OsuInput { ts, kind: OsuInputKind::CursorMoved(CursorState { x, y }) }),
    {
        OsuInput { ts, kind: OsuInputKind::CursorMoved(CursorState { x, y }) }
    }

    /// Whether the event is a keyboard event with any button down.
    pub fn is_key_hit(&self) -> (r: bool)
        ensures
            r == match self.kind {
                OsuInputKind::Keyboard(k) => spec_any_key(k),
                OsuInputKind::CursorMoved(_) => false,
            },
    {
        match &self.kind {
            OsuInputKind::Keyboard(state) => state.is_key_hit(),
            OsuInputKind::CursorMoved(_) => false,
        }
    }
}

/// The folded input state: the last event's timestamp, the cursor, the
/// current and previous keyboard states, and a one-shot suppression flag.
#[derive(Debug, Copy, Clone, PartialEq, Eq, Structural)]
pub struct OsuInputState {
    pub ts: u64,
    pub cursor: CursorState,
    pub keyboard: KeyboardState,
    pub prev_keyboard: KeyboardState,
    pub no_hit: bool,
}

/// How one event folds into the state: a keyboard event replaces the
/// keyboard (remembering the previous one) and re-arms hits; a cursor
/// event moves the cursor (the keyboard still shifts into the previous
/// slot).
pub open spec fn spec_input_step(pre: OsuInputState, input: OsuInput) -> OsuInputState {
    match input.kind {
        OsuInputKind::Keyboard(k) => OsuInputState {
            ts: input.ts,
            cursor: pre.cursor,
            keyboard: k,
            prev_keyboard: pre.keyboard,
            no_hit: false,
        },
        OsuInputKind::CursorMoved(c) => OsuInputState {
            ts: input.ts,
            cursor: c,
            keyboard: pre.keyboard,
            prev_keyboard: pre.keyboard,
            no_hit: pre.no_hit,
        },
    }
}

impl OsuInputState {
    /// Fold one event into the state. Events must arrive in strictly
    /// increasing timestamp order.
    pub fn update(&mut self, input: &OsuInput)
        requires
            old(self).ts < input.ts,
        ensures
            *final(self) == spec_input_step(*old(self), *input),
    {
        self.ts = input.ts;
        match input.kind {
            OsuInputKind::Keyboard(state) => {
                self.prev_keyboard = self.keyboard;
                self.keyboard = state;
                self.no_hit = false;
            },
            OsuInputKind::CursorMoved(state) => {
                self.prev_keyboard = self.keyboard;
                self.cursor = state;
            },
        }
    }

    /// Whether a fresh hit is pending: a button is down and hits are not
    /// suppressed.
    pub fn is_key_hit(&self) -> (r: bool)
        ensures
            r == (!self.no_hit && spec_any_key(self.keyboard)),
    {
        if self.no_hit {
            false
        } else {
            self.keyboard.is_key_hit()
        }
    }

    /// Whether a button has been held across the last two events.
    pub fn is_holding(&self) -> (r: bool)
        ensures
            r == (spec_any_key(self.keyboard) && spec_any_key(self.prev_keyboard)),
    {
        self.keyboard.is_key_hit() && self.prev_keyboard.is_key_hit()
    }

    /// Back to the rest state, keeping nothing.
    pub fn clear(&mut self)
        ensures
            *final(self) == spec_input_rest(),
    {
        self.ts = 0;
        self.keyboard = KeyboardState { k1: false, k2: false, m1: false, m2: false };
        self.prev_keyboard = KeyboardState { k1: false, k2: false, m1: false, m2: false };
        self.cursor = CursorState { x: 0, y: 0 };
        self.no_hit = false;
    }

    /// Suppress hits until the next keyboard event.
    pub fn set_no_hit(&mut self)
        ensures
            *final(self) == (OsuInputState { no_hit: true, ..*old(self) }),
    {
        self.no_hit = true;
    }
}

/// The rest state: everything released at time zero.
pub open spec fn spec_input_rest() -> OsuInputState {
    OsuInputState {
        ts: 0,
        cursor: CursorState { x: 0, y: 0 },
        keyboard: KeyboardState { k1: false, k2: false, m1: false, m2: false },
        prev_keyboard: KeyboardState { k1: false, k2: false, m1: false, m2: false },
        no_hit: false,
    }
}

impl Default for OsuInputState {
    fn default() -> (r: OsuInputState)
        ensures
            r == spec_input_rest(),
    {
        OsuInputState {
            ts: 0,
            cursor: CursorState { x: 0, y: 0 },
            keyboard: KeyboardState { k1: false, k2: false, m1: false, m2: false },
            prev_keyboard: KeyboardState { k1: false, k2: false, m1: false, m2: false },
            no_hit: false,
        }
    }
}

} // verus!

//! The playback clock: a monotonic millisecond timeline with pause,
//! unpause, seek and reset.
//!
//! The wall clock is read through `std::time::Instant`. Nothing is assumed
//! of the readings — monotonicity of the reported time is proved from the
//! arithmetic alone: while unpaused, each update adds a non-negative
//! number of milliseconds.

use vstd::prelude::*;

verus! {

/// `std::time::Instant`: an opaque reading of the monotonic wall clock.
#[verifier::external_type_specification]
#[verifier::external_body]
pub struct ExInstant(std::time::Instant);

/// Relies on std::time::Instant::now: an opaque reading of the monotonic
/// clock. Nothing is assumed of the value.
pub assume_specification[ std::time::Instant::now ]() -> std::time::Instant;

/// Relies on std::time::Instant::duration_since: the span from `earlier`
/// to `self` (zero if `earlier` is the later one; it does not panic).
/// Nothing is assumed of the value.
pub assume_specification[ std::time::Instant::duration_since ](
    this: &std::time::Instant,
    earlier: std::time::Instant,
) -> std::time::Duration;

/// Relies on std::time::Instant::elapsed: the span from `self` to now.
/// Nothing is assumed of the value.
pub assume_specification[ std::time::Instant::elapsed ](
    this: &std::time::Instant,
) -> std::time::Duration;

/// Relies on std::time::Duration::as_millis: the span in whole
/// milliseconds. Nothing is assumed of the value.
pub assume_specification[ std::time::Duration::as_millis ](
    this: &std::time::Duration,
) -> u128;

/// Truncate a millisecond count read from a span into the clock's `u64`
/// timeline.
fn millis_to_u64(ms: u128) -> (r: u64)
    ensures
        ms <= u64::MAX ==> r == ms,
{
    if ms > u64::MAX as u128 {
        u64::MAX
    } else {
        ms as u64
    }
}

/// The playback clock. `last_time` is the current position on the
/// millisecond timeline; it only moves forward, and only while unpaused.
pub struct Timer {
    pub now: std::time::Instant,
    pub started_at: std::time::Instant,
    /// Current position in milliseconds.
    pub last_time: u64,
    pub paused: bool,
}

/// What one `update` call guarantees: while paused, the state and the
/// reported time are unchanged; while unpaused, the position advances by
/// some non-negative amount and the reported value is the new position.
pub open spec fn update_post(pre: Timer, post: Timer, t: u64) -> bool {
    if pre.paused {
        post == pre && t == pre.last_time
    } else {
        &&& post.paused == pre.paused
        &&& post.last_time >= pre.last_time
        &&& t == post.last_time
        &&& post.started_at == pre.started_at
    }
}

impl Timer {
    /// A fresh clock: paused at position zero.
    pub fn new() -> (t: Timer)
        ensures
            t.paused,
            t.last_time == 0,
    {
        Timer {
            now: std::time::Instant::now(),
            started_at: std::time::Instant::now(),
            last_time: 0,
            paused: true,
        }
    }

    pub fn is_paused(&self) -> (r: bool)
        ensures
            r == self.paused,
    {
        self.paused
    }

    pub fn pause(&mut self)
        ensures
            *final(self) == (Timer { paused: true, ..*old(self) }),
    {
        self.paused = true;
    }

    /// Unpause; the reference instant is re-read so the pause's span does
    /// not count into the timeline.
    pub fn unpause(&mut self)
        ensures
            !final(self).paused,
            final(self).last_time == old(self).last_time,
            final(self).started_at == old(self).started_at,
    {
        self.paused = false;
        self.now = std::time::Instant::now();
    }

    /// The current position in milliseconds.
    pub fn get_time(&self) -> (t: u64)
        ensures
            t == self.last_time,
    {
        self.last_time
    }

    /// Seek: set the position.
    pub fn set_time(&mut self, time: u64)
        ensures
            *final(self) == (Timer { last_time: time, ..*old(self) }),
    {
        self.last_time = time;
    }

    /// Reset to a paused clock at position zero.
    pub fn reset_time(&mut self)
        ensures
            final(self).last_time == 0,
            final(self).paused,
    {
        self.started_at = std::time::Instant::now();
        self.last_time = 0;
        self.paused = true;
    }

    /// Advance the clock and report the current position. While paused the
    /// position is unchanged; while unpaused it advances by the wall-clock
    /// span since the last reading, never backwards.
    pub fn update(&mut self) -> (t: u64)
        ensures
            update_post(*old(self), *final(self), t),
    {
        if self.paused {
            return self.last_time;
        }
        let now = std::time::Instant::now();
        let diff = now.duration_since(self.now);
        let ms = millis_to_u64(diff.as_millis());
        self.last_time = self.last_time.saturating_add(ms);
        self.now = now;
        self.last_time
    }

    /// Milliseconds since the last reference reading, plus the position.
    pub fn since_start(&mut self) -> (t: u64)
        ensures
            *final(self) == *old(self),
            t >= old(self).last_time,
    {
        let e = self.now.elapsed();
        let ms = millis_to_u64(e.as_millis());
        ms.saturating_add(self.last_time)
    }
}

/// Law: the clock never runs backwards. Across any two successive
/// `update` calls the reported positions are non-decreasing, and while
/// paused repeated calls report the same position.
pub proof fn lemma_clock_monotone(t0: Timer, t1: Timer, t2: Timer, r1: u64, r2: u64)
    requires
        update_post(t0, t1, r1),
        update_post(t1, t2, r2),
    ensures
        r1 <= r2,
        t0.paused ==> r1 == t0.last_time && r2 == t0.last_time,
{
}

} // verus!

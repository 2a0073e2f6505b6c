//! Time as a sketch sees it.

use vstd::prelude::*;

verus! {

/// A reading of a clock that never runs backwards, in nanoseconds.
pub type Instant = u64;

/// A span of time, in nanoseconds.
pub type Duration = u64;

/// The time from `earlier` to `now`; zero where `earlier` is the later one.
pub open spec fn spec_duration_since(now: Instant, earlier: Instant) -> Duration {
    if now >= earlier {
        (now - earlier) as Duration
    } else {
        0
    }
}

/// The time from `earlier` to `now`; zero where `earlier` is the later one.
pub fn duration_since(now: Instant, earlier: Instant) -> (d: Duration)
    ensures
        d == spec_duration_since(now, earlier),
{
    if now >= earlier {
        now - earlier
    } else {
        0
    }
}

/// The times that a sketch measures from: its start, its last update and
/// its last frame, each with the time that has passed since.
#[derive(Clone, Copy, Debug, PartialEq, Eq, Structural)]
pub struct Delta {
    pub start_instant: Instant,
    pub time_since_start: Duration,
    pub last_update_instant: Instant,
    pub time_since_last_update: Duration,
    pub last_frame_instant: Instant,
    pub time_since_last_frame: Duration,
}

impl Delta {
    /// The times of a sketch that starts at `now`.
    pub fn new(now: Instant) -> (d: Delta)
        ensures
            d == (Delta {
                start_instant: now,
                time_since_start: 0,
                last_update_instant: now,
                time_since_last_update: 0,
                last_frame_instant: now,
                time_since_last_frame: 0,
            }),
    {
        Delta {
            start_instant: now,
            time_since_start: 0,
            last_update_instant: now,
            time_since_last_update: 0,
            last_frame_instant: now,
            time_since_last_frame: 0,
        }
    }

    /// Measures the three spans of time against one reading of the clock, so
    /// that they agree with each other. The instants stay as they are.
    pub fn update(&mut self, now: Instant)
        ensures
            *final(self) == (Delta {
                time_since_start: spec_duration_since(now, old(self).start_instant),
                time_since_last_update: spec_duration_since(now, old(self).last_update_instant),
                time_since_last_frame: spec_duration_since(now, old(self).last_frame_instant),
                ..*old(self)
            }),
    {
        self.time_since_start = duration_since(now, self.start_instant);
        self.time_since_last_update = duration_since(now, self.last_update_instant);
        self.time_since_last_frame = duration_since(now, self.last_frame_instant);
    }
}

} // verus!

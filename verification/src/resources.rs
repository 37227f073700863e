//! Shared per-tick resources: the capped tick clock and the respawn point.

use vstd::prelude::*;

use crate::components::Position;

verus! {

/// Longest time delta a tick may integrate over, in milliseconds; frame-time
/// spikes are capped here to bound tunneling.
pub const MAX_DELTA_MILLIS: u64 = 50;

/// The tick clock: wall-clock milliseconds are fed in once per tick and the
/// elapsed delta, capped at `MAX_DELTA_MILLIS`, is what every system reads.
#[derive(Debug, Clone, Copy, PartialEq, Eq)]
pub struct Time {
    pub last_update: u64,
    pub delta: u64,
    pub elapsed: u64,
}

impl Time {
    /// The accumulated time never runs ahead of the clock, and the delta
    /// never exceeds the cap.
    pub open spec fn wf(self) -> bool {
        self.elapsed <= self.last_update && self.delta <= MAX_DELTA_MILLIS
    }

    /// A clock that has seen no time yet.
    pub fn new() -> (r: Time)
        ensures
            r.last_update == 0,
            r.delta == 0,
            r.elapsed == 0,
            r.wf(),
    {
        Time { last_update: 0, delta: 0, elapsed: 0 }
    }

    /// The delta of the current tick, in milliseconds.
    pub fn delta(&self) -> (r: u64)
        ensures
            r == self.delta,
    {
        self.delta
    }

    /// The capped time accumulated over all ticks, in milliseconds.
    pub fn elapsed(&self) -> (r: u64)
        ensures
            r == self.elapsed,
    {
        self.elapsed
    }

    /// Feeds the clock the current monotonic time in milliseconds: the new
    /// delta is the elapsed wall-clock time capped at `MAX_DELTA_MILLIS`.
    pub fn update(&mut self, now_millis: u64)
        requires
            old(self).wf(),
            now_millis >= old(self).last_update,
            now_millis <= u64::MAX - MAX_DELTA_MILLIS,
        ensures
            final(self).delta == if now_millis - old(self).last_update
                <= MAX_DELTA_MILLIS {
                now_millis - old(self).last_update
            } else {
                MAX_DELTA_MILLIS as int
            },
            final(self).elapsed == old(self).elapsed + final(self).delta,
            final(self).last_update == now_millis,
            final(self).wf(),
    {
        let raw = now_millis - self.last_update;
        self.delta = if raw <= MAX_DELTA_MILLIS {
            raw
        } else {
            MAX_DELTA_MILLIS
        };
        self.elapsed = self.elapsed + self.delta;
        self.last_update = now_millis;
    }
}

/// The point the player respawns at after touching a kill zone.
#[derive(Debug, Clone, Copy, PartialEq, Eq)]
pub struct Spawn(pub Position);

impl Spawn {
    /// True when the held point is inside the world range.
    pub open spec fn wf(self) -> bool {
        self.0.wf()
    }

    /// A spawn point at the origin.
    pub fn new() -> (r: Spawn)
        ensures
            r.0.x == 0,
            r.0.y == 0,
            r.wf(),
    {
        Spawn(Position { x: 0, y: 0 })
    }
}

} // verus!

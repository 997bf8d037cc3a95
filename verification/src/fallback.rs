//! The fallback source: synthetic frame times from a timer, for as long as
//! the target process is alive.

use vstd::prelude::*;

verus! {

/// Shortest time between two synthetic samples, in microseconds: about one
/// refresh of a 60 Hz display.
pub const REFRESH_INTERVAL_MICROS: u64 = 16_000;

/// Remembers when the last synthetic sample was made.
pub struct FallbackSampler {
    last: Option<u64>,
}

/// The time of the last synthetic sample after a tick at `now`.
pub open spec fn mark_after_tick(last: Option<u64>, alive: bool, now: u64) -> Option<u64> {
    if !alive {
        last
    } else {
        match last {
            Some(then) => if then <= now && now - then < REFRESH_INTERVAL_MICROS {
                last
            } else {
                Some(now)
            },
            None => Some(now),
        }
    }
}

/// The synthetic frame time that a tick at `now` yields, if any: the time
/// since the last sample, once a refresh interval has passed, while the
/// target is alive.
pub open spec fn sample_at_tick(last: Option<u64>, alive: bool, now: u64) -> Option<u64> {
    match last {
        Some(then) => if alive && then <= now && now - then >= REFRESH_INTERVAL_MICROS {
            Some((now - then) as u64)
        } else {
            None
        },
        None => None,
    }
}

impl FallbackSampler {
    /// When the last synthetic sample was made, on the caller's clock, in
    /// microseconds; the first tick with the target alive counts as one.
    pub closed spec fn mark(&self) -> Option<u64> {
        self.last
    }

    /// A sampler that has not ticked yet.
    pub fn new() -> (sampler: Self)
        ensures
            sampler.mark() is None,
    {
        FallbackSampler { last: None }
    }

    /// Takes a tick of the timer: `alive` says whether the target process
    /// still runs, `now` is the caller's clock in microseconds. Returns the
    /// synthetic frame time to hand on, if one is due. A clock that went
    /// backwards starts the interval anew.
    pub fn on_tick(&mut self, alive: bool, now: u64) -> (sample: Option<u64>)
        ensures
            final(self).mark() == mark_after_tick(old(self).mark(), alive, now),
            sample == sample_at_tick(old(self).mark(), alive, now),
    {
        if !alive {
            return None;
        }
        match self.last {
            Some(then) => {
                if then <= now && now - then < REFRESH_INTERVAL_MICROS {
                    None
                } else {
                    self.last = Some(now);
                    if then <= now {
                        Some(now - then)
                    } else {
                        None
                    }
                }
            },
            None => {
                self.last = Some(now);
                None
            },
        }
    }
}

} // verus!

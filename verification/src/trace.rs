//! The trace source: frame times from the presentation events of every
//! process on the system.

use std::collections::HashMap;
use vstd::prelude::*;

verus! {

/// Remembers, for each process, when it last presented a frame.
pub struct TraceTracker {
    last_seen: HashMap<u32, u64>,
}

/// The frame time that a presentation by `pid` at `now` yields: the time
/// since its previous one. The first event of a process yields none, nor
/// does one that is older than the one before it.
pub open spec fn frame_time_since(last_seen: Map<u32, u64>, pid: u32, now: u64) -> Option<u64> {
    if last_seen.contains_key(pid) && last_seen[pid] <= now {
        Some((now - last_seen[pid]) as u64)
    } else {
        None
    }
}

impl View for TraceTracker {
    type V = Map<u32, u64>;

    /// The time of the last presentation of each process seen so far.
    closed spec fn view(&self) -> Map<u32, u64> {
        self.last_seen@
    }
}

impl TraceTracker {
    /// A tracker that has seen no process.
    pub fn new() -> (tracker: Self)
        ensures
            tracker@ == Map::<u32, u64>::empty(),
    {
        TraceTracker { last_seen: HashMap::new() }
    }

    /// Takes a presentation event of process `pid` at time `now`, on the
    /// caller's clock in microseconds, and returns the frame time that it
    /// completes, if any. The event is remembered as the last of `pid`.
    pub fn on_present(&mut self, pid: u32, now: u64) -> (frame_time: Option<u64>)
        ensures
            final(self)@ == old(self)@.insert(pid, now),
            frame_time == frame_time_since(old(self)@, pid, now),
    {
        broadcast use vstd::std_specs::hash::group_hash_axioms;

        let previous = self.last_seen.insert(pid, now);
        match previous {
            Some(then) => {
                if then <= now {
                    Some(now - then)
                } else {
                    None
                }
            },
            None => None,
        }
    }

    /// Forgets every process.
    pub fn clear(&mut self)
        ensures
            final(self)@ == Map::<u32, u64>::empty(),
    {
        self.last_seen.clear();
    }
}

} // verus!

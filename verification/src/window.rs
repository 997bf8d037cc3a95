//! The bounded sliding window of frame-time samples.

use std::collections::VecDeque;
use vstd::prelude::*;

verus! {

/// Capacity of the sliding window.
pub const MAX_SAMPLES: usize = 2000;

/// The last `limit` entries of `s`, or all of `s` if it has fewer.
pub open spec fn keep_last(s: Seq<u32>, limit: nat) -> Seq<u32> {
    if s.len() > limit {
        s.subrange(s.len() - limit, s.len() as int)
    } else {
        s
    }
}

/// The window contents after appending `value` to a window holding `s`.
pub open spec fn pushed(s: Seq<u32>, value: u32) -> Seq<u32> {
    keep_last(s.push(value), MAX_SAMPLES as nat)
}

/// The window contents after appending every entry of `values`, in order,
/// to a window holding `s`.
pub open spec fn pushed_all(s: Seq<u32>, values: Seq<u32>) -> Seq<u32>
    decreases values.len(),
{
    if values.len() == 0 {
        s
    } else {
        pushed(pushed_all(s, values.drop_last()), values.last())
    }
}

/// A first-in, first-out sequence of frame times, in microseconds, that
/// never holds more than `MAX_SAMPLES` entries. The oldest entry is at
/// index 0 of the view. Readers get copies, never a reference into the
/// window.
pub struct SampleWindow {
    samples: VecDeque<u32>,
}

impl View for SampleWindow {
    type V = Seq<u32>;

    closed spec fn view(&self) -> Seq<u32> {
        self.samples@
    }
}

impl SampleWindow {
    /// The window holds no more than its capacity.
    pub open spec fn wf(&self) -> bool {
        self@.len() <= MAX_SAMPLES
    }

    /// Creates an empty window.
    pub fn new() -> (window: Self)
        ensures
            window.wf(),
            window@ == Seq::<u32>::empty(),
    {
        SampleWindow { samples: VecDeque::new() }
    }

    /// Appends `value` at the tail; a full window first gives up its oldest
    /// entry.
    pub fn push(&mut self, value: u32)
        requires
            old(self).wf(),
        ensures
            final(self).wf(),
            final(self)@ == pushed(old(self)@, value),
    {
        self.samples.push_back(value);
        if self.samples.len() > MAX_SAMPLES {
            let _ = self.samples.pop_front();
        }
        assert(self.samples@ =~= pushed(old(self)@, value));
    }

    /// Returns a copy of the current contents, oldest entry first.
    pub fn snapshot(&self) -> (copy: Vec<u32>)
        ensures
            copy@ == self@,
    {
        let mut copy: Vec<u32> = Vec::new();
        let n: usize = self.samples.len();
        let mut i: usize = 0;
        while i < n
            invariant
                n == self.samples@.len(),
                i <= n,
                copy@ == self.samples@.subrange(0, i as int),
            decreases n - i,
        {
            copy.push(self.samples[i]);
            i += 1;
            assert(copy@ =~= self.samples@.subrange(0, i as int));
        }
        assert(copy@ =~= self.samples@);
        copy
    }

    /// Empties the window.
    pub fn clear(&mut self)
        ensures
            final(self).wf(),
            final(self)@ == Seq::<u32>::empty(),
    {
        self.samples.clear();
    }

    /// Number of samples currently held.
    pub fn len(&self) -> (n: usize)
        ensures
            n == self@.len(),
    {
        self.samples.len()
    }
}

/// Pushing a run of values onto a window leaves the last `MAX_SAMPLES`
/// entries of what was there followed by the run, in order; so the window
/// never exceeds its capacity however many values arrive.
pub proof fn lemma_pushed_all_keeps_tail(s: Seq<u32>, values: Seq<u32>)
    requires
        s.len() <= MAX_SAMPLES,
    ensures
        pushed_all(s, values) == keep_last(s + values, MAX_SAMPLES as nat),
        pushed_all(s, values).len() <= MAX_SAMPLES,
    decreases values.len(),
{
    if values.len() == 0 {
        assert(s + values =~= s);
    } else {
        let front = values.drop_last();
        lemma_pushed_all_keeps_tail(s, front);
        assert((s + front).push(values.last()) =~= s + values);
        assert(pushed_all(s, values) =~= keep_last(s + values, MAX_SAMPLES as nat));
    }
}

} // verus!

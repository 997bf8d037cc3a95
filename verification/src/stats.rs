//! Frame-rate statistics of a window snapshot.

use crate::fps_capture::FpsData;
use crate::stats_lemmas::lemma_low_at_most_fps;
use crate::window::{keep_last, MAX_SAMPLES};
use vstd::prelude::*;
use vstd::relations::{sorted_by, total_ordering};
use vstd::seq_lib::{lemma_multiset_commutative, lemma_sorted_unique};

verus! {

/// Number of most recent samples that the mean rate is taken over.
pub const RECENT_WINDOW: usize = 60;

/// Fewest samples from which statistics are reported.
pub const MIN_SAMPLES: usize = 1;

/// Total of the frame times in `s`.
pub open spec fn total(s: Seq<u32>) -> nat
    decreases s.len(),
{
    if s.len() == 0 {
        0
    } else {
        total(s.drop_last()) + s.last() as nat
    }
}

/// Rate, in thousandths of a frame per second, at which `count` frames take
/// `micros` microseconds together; 0 where they take no time at all.
pub open spec fn rate(count: nat, micros: nat) -> nat {
    if micros > 0 {
        1_000_000_000 * count / micros
    } else {
        0
    }
}

/// The samples that the mean rate is taken over: the last `RECENT_WINDOW`.
pub open spec fn recent(s: Seq<u32>) -> Seq<u32> {
    keep_last(s, RECENT_WINDOW as nat)
}

/// How many of `n` samples make up the slowest hundredth, rounded up and
/// never fewer than one.
pub open spec fn worst_count(n: nat) -> nat {
    if n <= 100 {
        1
    } else {
        (n + 99) / 100
    }
}

/// Orders frame times from the longest to the shortest.
pub open spec fn slower_or_equal() -> spec_fn(u32, u32) -> bool {
    |a: u32, b: u32| a >= b
}

/// The samples of `s` from the slowest frame to the fastest.
pub open spec fn slowest_first(s: Seq<u32>) -> Seq<u32> {
    s.sort_by(slower_or_equal())
}

/// The slowest hundredth of `s`.
pub open spec fn worst(s: Seq<u32>) -> Seq<u32> {
    slowest_first(s).take(worst_count(s.len()) as int)
}

/// Mean rate over the recent samples of `s`.
pub open spec fn fps_of(s: Seq<u32>) -> nat {
    rate(recent(s).len(), total(recent(s)))
}

/// Rate implied by the mean of the slowest hundredth of `s`.
pub open spec fn one_percent_low_of(s: Seq<u32>) -> nat {
    rate(worst(s).len(), total(worst(s)))
}

/// Whether `s` holds enough samples for statistics.
pub open spec fn has_enough(s: Seq<u32>) -> bool {
    s.len() >= MIN_SAMPLES
}

/// The statistics of the snapshot `s`; none where it holds too few samples.
pub open spec fn stats_of(s: Seq<u32>) -> Option<FpsData> {
    if has_enough(s) {
        Some(FpsData { fps: fps_of(s) as u64, one_percent_low: one_percent_low_of(s) as u64 })
    } else {
        None
    }
}

/// A further sample adds its frame time to the total.
pub proof fn lemma_total_push(s: Seq<u32>, x: u32)
    ensures
        total(s.push(x)) == total(s) + x,
{
    assert(s.push(x).drop_last() =~= s);
}

/// Adds up the frame times at positions `from..to` of `samples`.
fn total_of_range(samples: &Vec<u32>, from: usize, to: usize) -> (sum: u64)
    requires
        from <= to <= samples@.len(),
        to - from <= MAX_SAMPLES,
    ensures
        sum == total(samples@.subrange(from as int, to as int)),
{
    let mut sum: u64 = 0;
    let mut i: usize = from;
    while i < to
        invariant
            from <= i <= to <= samples@.len(),
            to - from <= MAX_SAMPLES,
            sum == total(samples@.subrange(from as int, i as int)),
            sum <= (i - from) * u32::MAX,
        decreases to - i,
    {
        proof {
            lemma_total_push(samples@.subrange(from as int, i as int), samples@[i as int]);
            assert(samples@.subrange(from as int, i as int).push(samples@[i as int])
                =~= samples@.subrange(from as int, i + 1));
            assert((i - from) * u32::MAX + u32::MAX == (i + 1 - from) * u32::MAX)
                by (nonlinear_arith);
            assert((i + 1 - from) * u32::MAX <= 2000 * u32::MAX) by (nonlinear_arith)
                requires
                    i + 1 - from <= 2000,
            ;
        }
        sum = sum + samples[i] as u64;
        i += 1;
    }
    sum
}

/// Computes the rate at which `count` frames take `micros` microseconds.
fn rate_of(count: u64, micros: u64) -> (r: u64)
    requires
        count <= MAX_SAMPLES,
    ensures
        r == rate(count as nat, micros as nat),
{
    if micros > 0 {
        1_000_000_000u64 * count / micros
    } else {
        0
    }
}

/// Whether no frame time in `s` is followed by a longer one.
pub open spec fn descending(s: Seq<u32>) -> bool {
    forall|i: int, j: int| 0 <= i < j < s.len() ==> s[i] >= s[j]
}

/// Frame times are totally ordered from the longest to the shortest.
pub proof fn lemma_slower_or_equal_is_total()
    ensures
        total_ordering(slower_or_equal()),
{
    let r = slower_or_equal();
    assert(forall|a: u32, b: u32| #[trigger] r(a, b) <==> a >= b);
}

/// `slowest_first` keeps every sample and puts the samples in descending
/// order.
pub proof fn lemma_slowest_first(s: Seq<u32>)
    ensures
        slowest_first(s).to_multiset() == s.to_multiset(),
        slowest_first(s).len() == s.len(),
        descending(slowest_first(s)),
        forall|x: u32| #[trigger] slowest_first(s).contains(x) <==> s.contains(x),
{
    broadcast use vstd::seq_lib::group_to_multiset_ensures;

    let r = slower_or_equal();
    lemma_slower_or_equal_is_total();
    s.lemma_sort_by_ensures(r);
    let t = slowest_first(s);
    assert(t.to_multiset() =~= s.to_multiset());
    assert(t.to_multiset().len() == s.to_multiset().len());
    assert forall|i: int, j: int| 0 <= i < j < t.len() implies t[i] >= t[j] by {
        assert(r(t[i], t[j]));
    }
    assert forall|x: u32| #[trigger] t.contains(x) <==> s.contains(x) by {
        assert(t.contains(x) <==> t.to_multiset().count(x) > 0);
        assert(s.contains(x) <==> s.to_multiset().count(x) > 0);
    }
}

/// A descending sequence that holds the same samples as `s` is
/// `slowest_first(s)`.
pub proof fn lemma_descending_is_slowest_first(t: Seq<u32>, s: Seq<u32>)
    requires
        descending(t),
        t.to_multiset() == s.to_multiset(),
    ensures
        t == slowest_first(s),
{
    let r = slower_or_equal();
    lemma_slower_or_equal_is_total();
    s.lemma_sort_by_ensures(r);
    assert(sorted_by(t, r)) by {
        assert forall|i: int, j: int| 0 <= i < j < t.len() implies #[trigger] r(t[i], t[j]) by {
            assert(t[i] >= t[j]);
        }
    }
    lemma_sorted_unique(t, slowest_first(s), r);
}

/// Picks the `count` slowest frames of `samples`, slowest first.
///
/// One pass over the samples keeps the `count` slowest seen so far in `top`,
/// in descending order. `rest` stands for the samples that were let go:
/// none of them is slower than any in `top`.
fn slowest(samples: &Vec<u32>, count: usize) -> (top: Vec<u32>)
    requires
        1 <= count <= samples@.len(),
    ensures
        top@.len() == count,
        top@ == slowest_first(samples@).take(count as int),
{
    let n: usize = samples.len();
    let mut top: Vec<u32> = Vec::new();
    let ghost mut rest: Seq<u32> = Seq::empty();
    let mut i: usize = 0;
    proof {
        broadcast use vstd::seq_lib::group_to_multiset_ensures;

        assert(samples@.take(0).to_multiset() =~= top@.to_multiset().add(rest.to_multiset()));
    }
    while i < n
        invariant
            n == samples@.len(),
            1 <= count <= n,
            i <= n,
            top@.len() == if i < count { i } else { count },
            descending(top@),
            top@.len() < count ==> rest.len() == 0,
            forall|a: int, b: int|
                #![trigger top@[a], rest[b]]
                0 <= a < top@.len() && 0 <= b < rest.len() ==> top@[a] >= rest[b],
            samples@.take(i as int).to_multiset() == top@.to_multiset().add(rest.to_multiset()),
        decreases n - i,
    {
        let x: u32 = samples[i];
        let ghost before = top@;
        let ghost rest_before = rest;
        let mut p: usize = 0;
        while p < top.len() && top[p] >= x
            invariant
                p <= top@.len(),
                forall|j: int| 0 <= j < p ==> top@[j] >= x,
            decreases top@.len() - p,
        {
            p += 1;
        }
        proof {
            broadcast use vstd::seq_lib::group_to_multiset_ensures;

            assert(samples@.take(i + 1) =~= samples@.take(i as int).push(x));
        }
        if p < count {
            top.insert(p, x);
            proof {
                broadcast use vstd::seq_lib::group_to_multiset_ensures;

                assert(top@ == before.insert(p as int, x));
                assert(descending(top@)) by {
                    assert forall|a: int, b: int| 0 <= a < b < top@.len() implies top@[a]
                        >= top@[b] by {
                        if a < p && b > p {
                            assert(top@[a] == before[a]);
                            assert(top@[b] == before[b - 1]);
                        } else if a < p && b < p {
                            assert(top@[a] == before[a] && top@[b] == before[b]);
                        } else if a > p {
                            assert(top@[a] == before[a - 1] && top@[b] == before[b - 1]);
                        } else if a == p {
                            assert(top@[b] == before[b - 1]);
                            assert(before[p as int] < x);
                        }
                    }
                }
            }
            if top.len() > count {
                let ghost full = top@;
                let last = top.pop();
                proof {
                    broadcast use vstd::seq_lib::group_to_multiset_ensures;

                    let y = last.unwrap();
                    rest = rest.push(y);
                    assert(full =~= top@.push(y));
                    assert(top@.to_multiset().add(rest.to_multiset()) =~= full.to_multiset().add(
                        rest_before.to_multiset(),
                    ));
                    assert forall|a: int, b: int|
                        #![trigger top@[a], rest[b]]
                        0 <= a < top@.len() && 0 <= b < rest.len() implies top@[a] >= rest[b] by {
                        assert(top@[a] == full[a]);
                        assert(full[a] >= full[count as int]);
                        if b < rest_before.len() {
                            assert(rest[b] == rest_before[b]);
                            assert(before[count - 1] >= rest_before[b]);
                            assert(full[count as int] == before[count - 1]);
                        }
                    }
                }
            } else {
                proof {
                    assert(rest.len() == 0);
                }
            }
            proof {
                broadcast use vstd::seq_lib::group_to_multiset_ensures;

                assert(samples@.take(i + 1).to_multiset() =~= top@.to_multiset().add(
                    rest.to_multiset(),
                ));
            }
        } else {
            proof {
                broadcast use vstd::seq_lib::group_to_multiset_ensures;

                rest = rest.push(x);
                assert(samples@.take(i + 1).to_multiset() =~= top@.to_multiset().add(
                    rest.to_multiset(),
                ));
                assert forall|a: int, b: int|
                    #![trigger top@[a], rest[b]]
                    0 <= a < top@.len() && 0 <= b < rest.len() implies top@[a] >= rest[b] by {
                    if b < rest_before.len() {
                        assert(rest[b] == rest_before[b]);
                    }
                }
            }
        }
        i += 1;
    }
    proof {
        broadcast use vstd::seq_lib::group_to_multiset_ensures;

        let tail = slowest_first(rest);
        lemma_slowest_first(rest);
        lemma_slowest_first(samples@);
        let whole = top@ + tail;
        assert(samples@.take(n as int) =~= samples@);
        lemma_multiset_commutative(top@, tail);
        assert(whole.to_multiset() =~= samples@.to_multiset());
        assert(descending(whole)) by {
            assert forall|a: int, b: int| 0 <= a < b < whole.len() implies whole[a]
                >= whole[b] by {
                if b < top@.len() {
                    assert(top@[a] >= top@[b]);
                } else if a >= top@.len() {
                    assert(tail[a - top@.len()] >= tail[b - top@.len()]);
                } else {
                    let y = tail[b - top@.len()];
                    assert(tail.contains(y));
                    assert(rest.contains(y));
                    let k = choose|k: int| 0 <= k < rest.len() && rest[k] == y;
                    assert(top@[a] >= rest[k]);
                }
            }
        }
        lemma_descending_is_slowest_first(whole, samples@);
        assert(whole.take(count as int) =~= top@);
    }
    top
}

/// Computes the statistics of a window snapshot: the mean rate over the
/// last `RECENT_WINDOW` samples, and the rate implied by the mean of the
/// slowest hundredth of all samples. An empty snapshot has no statistics.
pub fn compute_stats(samples: &Vec<u32>) -> (stats: Option<FpsData>)
    requires
        samples@.len() <= MAX_SAMPLES,
    ensures
        stats == stats_of(samples@),
        stats matches Some(data) ==> data.fps == fps_of(samples@) && data.one_percent_low
            == one_percent_low_of(samples@),
        stats matches Some(data) ==> (forall|i: int|
            0 <= i < samples@.len() ==> samples@[i] > 0) ==> data.one_percent_low <= data.fps,
{
    let n: usize = samples.len();
    if n < MIN_SAMPLES {
        return None;
    }
    let span: usize = if n > RECENT_WINDOW {
        RECENT_WINDOW
    } else {
        n
    };
    let recent_total: u64 = total_of_range(samples, n - span, n);
    let fps: u64 = rate_of(span as u64, recent_total);
    let count: usize = if n <= 100 {
        1
    } else {
        (n + 99) / 100
    };
    let top: Vec<u32> = slowest(samples, count);
    let worst_total: u64 = total_of_range(&top, 0, count);
    let one_percent_low: u64 = rate_of(count as u64, worst_total);
    proof {
        lemma_slowest_first(samples@);
        assert(samples@.subrange(n - span, n as int) =~= recent(samples@));
        assert(top@.subrange(0, count as int) =~= worst(samples@));
        if forall|i: int| 0 <= i < samples@.len() ==> samples@[i] > 0 {
            lemma_low_at_most_fps(samples@);
        }
    }
    Some(FpsData { fps, one_percent_low })
}

} // verus!

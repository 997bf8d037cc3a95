//! Laws of the frame-rate statistics.

use crate::stats::{
    descending, fps_of, lemma_slowest_first, one_percent_low_of, rate, recent, slowest_first,
    total, worst, worst_count, RECENT_WINDOW,
};
use vstd::prelude::*;

verus! {

/// By how much `x` exceeds `level`, or 0 if it does not.
pub open spec fn over(x: u32, level: int) -> nat {
    if x > level {
        (x - level) as nat
    } else {
        0
    }
}

/// Total by which the frame times of `s` exceed `level`.
pub open spec fn excess(s: Seq<u32>, level: int) -> nat
    decreases s.len(),
{
    if s.len() == 0 {
        0
    } else {
        excess(s.drop_last(), level) + over(s.last(), level)
    }
}

proof fn lemma_excess_concat(a: Seq<u32>, b: Seq<u32>, level: int)
    ensures
        excess(a + b, level) == excess(a, level) + excess(b, level),
    decreases b.len(),
{
    if b.len() == 0 {
        assert(a + b =~= a);
    } else {
        lemma_excess_concat(a, b.drop_last(), level);
        assert((a + b).drop_last() =~= a + b.drop_last());
    }
}

proof fn lemma_excess_at_zero(s: Seq<u32>)
    ensures
        excess(s, 0) == total(s),
    decreases s.len(),
{
    if s.len() > 0 {
        lemma_excess_at_zero(s.drop_last());
    }
}

proof fn lemma_total_concat(a: Seq<u32>, b: Seq<u32>)
    ensures
        total(a + b) == total(a) + total(b),
{
    lemma_excess_at_zero(a);
    lemma_excess_at_zero(b);
    lemma_excess_at_zero(a + b);
    lemma_excess_concat(a, b, 0);
}

proof fn lemma_excess_remove(s: Seq<u32>, i: int, level: int)
    requires
        0 <= i < s.len(),
    ensures
        excess(s, level) == excess(s.remove(i), level) + over(s[i], level),
{
    let head = s.take(i);
    let one = seq![s[i]];
    let tail = s.skip(i + 1);
    assert(s =~= head + one + tail);
    assert(s.remove(i) =~= head + tail);
    lemma_excess_concat(head + one, tail, level);
    lemma_excess_concat(head, one, level);
    lemma_excess_concat(head, tail, level);
    assert(one.drop_last() =~= Seq::<u32>::empty());
    assert(excess(one.drop_last(), level) == 0);
    assert(one.last() == s[i]);
    assert(excess(one, level) == over(s[i], level));
}

/// The excess depends on which samples a sequence holds, not on their
/// order.
proof fn lemma_excess_of_rearrangement(s: Seq<u32>, t: Seq<u32>, level: int)
    requires
        s.to_multiset() == t.to_multiset(),
    ensures
        excess(s, level) == excess(t, level),
    decreases s.len(),
{
    broadcast use vstd::seq_lib::group_to_multiset_ensures;

    assert(s.to_multiset().len() == s.len());
    assert(t.to_multiset().len() == t.len());
    if s.len() > 0 {
        let x = s.last();
        let front = s.drop_last();
        assert(s =~= front.push(x));
        assert(s.to_multiset().count(x) > 0);
        assert(t.contains(x));
        let j = choose|j: int| 0 <= j < t.len() && t[j] == x;
        assert(front.to_multiset() =~= s.to_multiset().remove(x));
        assert(t.remove(j).to_multiset() =~= t.to_multiset().remove(x));
        lemma_excess_of_rearrangement(front, t.remove(j), level);
        lemma_excess_remove(t, j, level);
    }
}

proof fn lemma_total_at_most_excess(s: Seq<u32>, level: int)
    requires
        level >= 0,
    ensures
        total(s) <= excess(s, level) + s.len() * level,
    decreases s.len(),
{
    if s.len() > 0 {
        lemma_total_at_most_excess(s.drop_last(), level);
        assert((s.len() - 1) * level + level == s.len() * level) by (nonlinear_arith);
    }
}

proof fn lemma_excess_of_long_frames(s: Seq<u32>, level: int)
    requires
        forall|i: int| 0 <= i < s.len() ==> s[i] >= level,
    ensures
        total(s) == excess(s, level) + s.len() * level,
    decreases s.len(),
{
    if s.len() > 0 {
        let front = s.drop_last();
        assert forall|i: int| 0 <= i < front.len() implies front[i] >= level by {
            assert(front[i] == s[i]);
        }
        lemma_excess_of_long_frames(front, level);
        assert((s.len() - 1) * level + level == s.len() * level) by (nonlinear_arith);
    }
}

proof fn lemma_excess_of_short_frames(s: Seq<u32>, level: int)
    requires
        forall|i: int| 0 <= i < s.len() ==> s[i] <= level,
    ensures
        excess(s, level) == 0,
    decreases s.len(),
{
    if s.len() > 0 {
        let front = s.drop_last();
        assert forall|i: int| 0 <= i < front.len() implies front[i] <= level by {
            assert(front[i] == s[i]);
        }
        lemma_excess_of_short_frames(front, level);
    }
}

/// No `count` samples of `s` take longer together than its `count`
/// slowest: here, the last `count`.
proof fn lemma_slowest_outweigh_latest(s: Seq<u32>, count: int)
    requires
        1 <= count <= s.len(),
    ensures
        total(s.subrange(s.len() - count, s.len() as int)) <= total(
            slowest_first(s).take(count),
        ),
{
    let t = slowest_first(s);
    lemma_slowest_first(s);
    let level = t[count - 1] as int;
    let latest = s.subrange(s.len() - count, s.len() as int);
    let earlier = s.subrange(0, s.len() - count);
    assert(s =~= earlier + latest);
    lemma_excess_concat(earlier, latest, level);
    lemma_total_at_most_excess(latest, level);
    lemma_excess_of_rearrangement(s, t, level);
    let top = t.take(count);
    let below = t.skip(count);
    assert(t =~= top + below);
    lemma_excess_concat(top, below, level);
    assert forall|i: int| 0 <= i < top.len() implies top[i] >= level by {
        assert(top[i] == t[i]);
    }
    assert forall|i: int| 0 <= i < below.len() implies below[i] <= level by {
        assert(below[i] == t[count + i]);
    }
    lemma_excess_of_long_frames(top, level);
    lemma_excess_of_short_frames(below, level);
}

/// In a descending sequence the mean of the first `few` is at least the
/// mean of the first `many`.
proof fn lemma_mean_of_fewer_slowest(t: Seq<u32>, few: int, many: int)
    requires
        descending(t),
        1 <= few <= many <= t.len(),
    ensures
        total(t.take(few)) * many >= total(t.take(many)) * few,
{
    let level = t[few - 1] as int;
    let top = t.take(few);
    let next = t.subrange(few, many);
    assert(t.take(many) =~= top + next);
    lemma_total_concat(top, next);
    assert forall|i: int| 0 <= i < top.len() implies top[i] >= level by {
        assert(top[i] == t[i]);
    }
    assert forall|i: int| 0 <= i < next.len() implies next[i] <= level by {
        assert(next[i] == t[few + i]);
    }
    lemma_excess_of_long_frames(top, level);
    lemma_excess_of_short_frames(next, level);
    lemma_total_at_most_excess(next, level);
    let a = total(top) as int;
    let b = total(next) as int;
    assert(a >= few * level);
    assert(b <= (many - few) * level);
    assert(a * many >= (a + b) * few) by (nonlinear_arith)
        requires
            a >= few * level,
            b <= (many - few) * level,
            1 <= few <= many,
            level >= 0,
    ;
}

/// A rate does not grow when the frames get slower on average.
pub proof fn lemma_rate_order(few: nat, slow: nat, many: nat, quick: nat)
    requires
        slow > 0,
        quick > 0,
        few * quick <= many * slow,
    ensures
        rate(few, slow) <= rate(many, quick),
{
    let q = (1_000_000_000 * few / slow) as int;
    let x = (1_000_000_000 * few) as int;
    let y = (1_000_000_000 * many) as int;
    vstd::arithmetic::div_mod::lemma_fundamental_div_mod(x, slow as int);
    vstd::arithmetic::div_mod::lemma_mod_pos_bound(x, slow as int);
    assert(q * slow <= x) by (nonlinear_arith)
        requires
            x == slow * q + x % (slow as int),
            x % (slow as int) >= 0,
    ;
    assert(q >= 0) by (nonlinear_arith)
        requires
            x >= 0,
            slow > 0,
            q == x / (slow as int),
    ;
    assert(q * quick <= y) by (nonlinear_arith)
        requires
            q * slow <= 1_000_000_000 * few,
            few * quick <= many * slow,
            y == 1_000_000_000 * many,
            slow > 0,
            quick > 0,
            q >= 0,
    ;
    vstd::arithmetic::div_mod::lemma_div_is_ordered(q * quick, y, quick as int);
    vstd::arithmetic::div_mod::lemma_div_multiples_vanish(q, quick as int);
    assert(q * quick == quick * q) by (nonlinear_arith);
}

proof fn lemma_total_positive(s: Seq<u32>)
    requires
        s.len() > 0,
        forall|i: int| 0 <= i < s.len() ==> s[i] > 0,
    ensures
        total(s) > 0,
{
    assert(s.last() > 0);
}

/// The rate implied by the slowest hundredth never exceeds the mean rate,
/// as long as the slowest hundredth is no larger than the span that the
/// mean is taken over and no frame takes no time.
pub proof fn lemma_low_at_most_fps(s: Seq<u32>)
    requires
        0 < s.len() <= 100 * RECENT_WINDOW,
        forall|i: int| 0 <= i < s.len() ==> s[i] > 0,
    ensures
        one_percent_low_of(s) <= fps_of(s),
{
    let t = slowest_first(s);
    lemma_slowest_first(s);
    let few = worst_count(s.len()) as int;
    let many = recent(s).len() as int;
    assert(1 <= few <= many <= s.len());
    lemma_slowest_outweigh_latest(s, many);
    lemma_mean_of_fewer_slowest(t, few, many);
    assert(recent(s) =~= s.subrange(s.len() - many, s.len() as int));
    let slow = total(worst(s));
    let quick = total(recent(s));
    let mid = total(t.take(many));
    assert forall|i: int| 0 <= i < worst(s).len() implies worst(s)[i] > 0 by {
        assert(t.contains(t[i]));
        assert(s.contains(t[i]));
    }
    lemma_total_positive(worst(s));
    lemma_total_positive(recent(s));
    assert(few * quick <= many * slow) by (nonlinear_arith)
        requires
            slow * many >= mid * few,
            quick <= mid,
            few >= 1,
    ;
    lemma_rate_order(few as nat, slow, many as nat, quick);
}

proof fn lemma_total_of_equal_frames(s: Seq<u32>, micros: u32)
    requires
        forall|i: int| 0 <= i < s.len() ==> s[i] == micros,
    ensures
        total(s) == s.len() * micros,
{
    lemma_excess_of_long_frames(s, micros as int);
    lemma_excess_of_short_frames(s, micros as int);
}

proof fn lemma_rate_of_equal_frames(count: nat, micros: u32)
    requires
        count > 0,
        micros > 0,
    ensures
        rate(count, (count * micros) as nat) == rate(1, micros as nat),
{
    assert(count * micros > 0) by (nonlinear_arith)
        requires
            count > 0,
            micros > 0,
    ;
    vstd::arithmetic::div_mod::lemma_div_multiples_vanish_quotient(
        count as int,
        1_000_000_000,
        micros as int,
    );
    assert(1_000_000_000 * count == count * 1_000_000_000) by (nonlinear_arith);
    assert(1_000_000_000 * 1 == 1_000_000_000int);
}

/// Where every frame takes the same time, the rate of the slowest
/// hundredth equals the mean rate: both are the rate of that frame time.
pub proof fn lemma_uniform_frames(s: Seq<u32>, micros: u32)
    requires
        s.len() > 0,
        micros > 0,
        forall|i: int| 0 <= i < s.len() ==> s[i] == micros,
    ensures
        fps_of(s) == rate(1, micros as nat),
        one_percent_low_of(s) == fps_of(s),
{
    let t = slowest_first(s);
    lemma_slowest_first(s);
    assert forall|i: int| 0 <= i < worst(s).len() implies worst(s)[i] == micros by {
        assert(t.contains(t[i]));
        assert(s.contains(t[i]));
    }
    lemma_total_of_equal_frames(worst(s), micros);
    lemma_total_of_equal_frames(recent(s), micros);
    lemma_rate_of_equal_frames(worst(s).len(), micros);
    lemma_rate_of_equal_frames(recent(s).len(), micros);
}

/// A rate is at most a thousand million times the number of frames.
pub proof fn lemma_rate_bound(count: nat, micros: nat)
    ensures
        rate(count, micros) <= 1_000_000_000 * count,
{
    if micros > 0 {
        let x = (1_000_000_000 * count) as int;
        vstd::arithmetic::div_mod::lemma_div_nonincreasing(x, micros as int);
    }
}

/// Both rates of a snapshot that a window can give fit in a `u64`, so
/// `stats_of` holds them as they are.
pub proof fn lemma_rates_fit(s: Seq<u32>)
    requires
        0 < s.len() <= 2000,
    ensures
        fps_of(s) <= 60_000_000_000,
        one_percent_low_of(s) <= 20_000_000_000,
        fps_of(s) as u64 == fps_of(s),
        one_percent_low_of(s) as u64 == one_percent_low_of(s),
{
    lemma_slowest_first(s);
    lemma_rate_bound(recent(s).len(), total(recent(s)));
    lemma_rate_bound(worst(s).len(), total(worst(s)));
    assert(recent(s).len() <= 60);
    assert(worst(s).len() <= 20);
}

} // verus!

//! Bytes of a line of text: finding a byte, trimming white space, comparing
//! a stretch with a word.

use vstd::prelude::*;

verus! {

/// Position of the first `mark` in `s`, or the length of `s` if it holds
/// none.
pub open spec fn first_index_of(s: Seq<u8>, mark: u8) -> int
    decreases s.len(),
{
    if s.len() == 0 || s[0] == mark {
        0
    } else {
        1 + first_index_of(s.skip(1), mark)
    }
}

/// `cut` is where `first_index_of` finds `mark`, if no byte before it is
/// `mark` and either `s` ends there or `mark` stands there.
pub proof fn lemma_first_index_of(s: Seq<u8>, mark: u8, cut: int)
    requires
        0 <= cut <= s.len(),
        forall|j: int| 0 <= j < cut ==> s[j] != mark,
        cut < s.len() ==> s[cut] == mark,
    ensures
        first_index_of(s, mark) == cut,
    decreases s.len(),
{
    if cut > 0 {
        let rest = s.skip(1);
        assert forall|j: int| 0 <= j < cut - 1 implies rest[j] != mark by {
            assert(rest[j] == s[j + 1]);
        }
        lemma_first_index_of(rest, mark, cut - 1);
    }
}

/// What `first_index_of` returns: the place of the first `mark`, with no
/// `mark` before it.
pub proof fn lemma_first_index_of_is_first(s: Seq<u8>, mark: u8)
    ensures
        0 <= first_index_of(s, mark) <= s.len(),
        forall|j: int| 0 <= j < first_index_of(s, mark) ==> s[j] != mark,
        first_index_of(s, mark) < s.len() ==> s[first_index_of(s, mark)] == mark,
    decreases s.len(),
{
    if s.len() == 0 || s[0] == mark {
    } else {
        let rest = s.skip(1);
        lemma_first_index_of_is_first(rest, mark);
        assert forall|j: int| 0 <= j < first_index_of(s, mark) implies s[j] != mark by {
            if j > 0 {
                assert(s[j] == rest[j - 1]);
            }
        }
    }
}

/// Whether `b` is ASCII white space: a space, a tab, a line feed, a
/// vertical tab, a form feed or a carriage return.
pub open spec fn is_space(b: u8) -> bool {
    b == 32 || (9 <= b && b <= 13)
}

/// `s` without the white space at its two ends.
pub open spec fn trimmed(s: Seq<u8>) -> Seq<u8>
    decreases s.len(),
{
    if s.len() > 0 && is_space(s[0]) {
        trimmed(s.skip(1))
    } else if s.len() > 0 && is_space(s.last()) {
        trimmed(s.drop_last())
    } else {
        s
    }
}

fn is_space_byte(b: u8) -> (r: bool)
    ensures
        r == is_space(b),
{
    b == 32 || (9 <= b && b <= 13)
}

/// Narrows `from..to` to the part of it that `trimmed` keeps.
pub fn trim_bounds(line: &[u8], from: usize, to: usize) -> (kept: (usize, usize))
    requires
        from <= to <= line@.len(),
    ensures
        from <= kept.0 <= kept.1 <= to,
        line@.subrange(kept.0 as int, kept.1 as int) == trimmed(
            line@.subrange(from as int, to as int),
        ),
{
    let mut a: usize = from;
    while a < to && is_space_byte(line[a])
        invariant
            from <= a <= to <= line@.len(),
            trimmed(line@.subrange(from as int, to as int)) == trimmed(
                line@.subrange(a as int, to as int),
            ),
        decreases to - a,
    {
        proof {
            assert(line@.subrange(a as int, to as int).skip(1) =~= line@.subrange(
                a + 1,
                to as int,
            ));
        }
        a += 1;
    }
    let mut b: usize = to;
    while b > a && is_space_byte(line[b - 1])
        invariant
            from <= a <= b <= to <= line@.len(),
            a < to ==> !is_space(line@[a as int]),
            trimmed(line@.subrange(from as int, to as int)) == trimmed(
                line@.subrange(a as int, b as int),
            ),
        decreases b - a,
    {
        proof {
            assert(line@.subrange(a as int, b as int).drop_last() =~= line@.subrange(
                a as int,
                b - 1,
            ));
        }
        b -= 1;
    }
    (a, b)
}

/// Whether the bytes at `from..to` of `line` are exactly `word`.
pub fn range_equals(line: &[u8], from: usize, to: usize, word: &[u8]) -> (same: bool)
    requires
        from <= to <= line@.len(),
    ensures
        same == (line@.subrange(from as int, to as int) == word@),
{
    if to - from != word.len() {
        return false;
    }
    let n: usize = word.len();
    let mut i: usize = 0;
    while i < n
        invariant
            from <= to <= line@.len(),
            n == word@.len(),
            to - from == n,
            i <= n,
            forall|j: int| 0 <= j < i ==> line@[from + j] == word@[j],
        decreases n - i,
    {
        if line[from + i] != word[i] {
            proof {
                assert(line@.subrange(from as int, to as int)[i as int] != word@[i as int]);
            }
            return false;
        }
        i += 1;
    }
    proof {
        assert(line@.subrange(from as int, to as int) =~= word@);
    }
    true
}

} // verus!

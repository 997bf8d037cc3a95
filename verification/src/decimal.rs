//! Decimal numbers as text: frame times read to the microsecond, and
//! integers written out.

use crate::text::{first_index_of, lemma_first_index_of, lemma_first_index_of_is_first};
use vstd::prelude::*;

verus! {

/// The byte of the digit zero; the other digits follow it.
pub const DIGIT_ZERO: u8 = 48;

/// The byte of the plus sign.
pub const PLUS: u8 = 43;

/// The byte of the minus sign.
pub const MINUS: u8 = 45;

/// The byte of the decimal point.
pub const POINT: u8 = 46;

/// The byte of the small letter that begins an exponent.
pub const EXPONENT_SMALL: u8 = 101;

/// The byte of the capital letter that begins an exponent.
pub const EXPONENT_CAPITAL: u8 = 69;

/// The exponents that are told apart: a larger one counts as this one.
pub const EXPONENT_LIMIT: u128 = 1_000_000_000_000_000_000_000_000_000_000;

/// From this many appended zeros on, no number but 0 fits in a `u64`.
pub const SHIFT_LIMIT: u32 = 20;

/// A frame time as it was read from text.
#[derive(Debug, Clone, Copy, PartialEq, Eq, Structural)]
pub struct FrameReading {
    /// The time in whole microseconds, rounded down.
    pub micros: u64,
    /// Whether rounding down dropped anything: the time is longer than
    /// `micros` says, by less than a microsecond.
    pub cut: bool,
}

/// Whether `b` is the byte of a decimal digit.
pub open spec fn is_digit(b: u8) -> bool {
    48 <= b && b <= 57
}

/// Whether every byte of `s` is a digit.
pub open spec fn all_digits(s: Seq<u8>) -> bool {
    forall|i: int| 0 <= i < s.len() ==> is_digit(#[trigger] s[i])
}

/// The number that the digits `s` denote; 0 for no digits.
pub open spec fn digits_value(s: Seq<u8>) -> nat
    decreases s.len(),
{
    if s.len() == 0 {
        0
    } else {
        digits_value(s.drop_last()) * 10 + (s.last() - 48) as nat
    }
}

/// Ten to the power of `n`.
pub open spec fn pow10(n: nat) -> nat
    decreases n,
{
    if n == 0 {
        1
    } else {
        10 * pow10((n - 1) as nat)
    }
}

/// `text` without a leading plus sign.
pub open spec fn unsigned(text: Seq<u8>) -> Seq<u8> {
    if text.len() > 0 && text[0] == PLUS {
        text.skip(1)
    } else {
        text
    }
}

/// Where the exponent of `body` begins: the position of its first `e` or
/// `E`, or its length where it has neither.
pub open spec fn exponent_at(body: Seq<u8>) -> int {
    let small = first_index_of(body, EXPONENT_SMALL);
    let capital = first_index_of(body, EXPONENT_CAPITAL);
    if small <= capital {
        small
    } else {
        capital
    }
}

/// The part of `body` before its exponent.
pub open spec fn mantissa(body: Seq<u8>) -> Seq<u8> {
    body.take(exponent_at(body))
}

/// Whether `body` has an exponent.
pub open spec fn has_exponent(body: Seq<u8>) -> bool {
    exponent_at(body) < body.len()
}

/// The part of `body` after the letter that begins its exponent.
pub open spec fn exponent_text(body: Seq<u8>) -> Seq<u8> {
    body.skip(exponent_at(body) + 1)
}

/// The digits of the exponent `x`: `x` without a leading sign.
pub open spec fn exponent_digits(x: Seq<u8>) -> Seq<u8> {
    if x.len() > 0 && (x[0] == PLUS || x[0] == MINUS) {
        x.skip(1)
    } else {
        x
    }
}

/// Whether `x` is an exponent: an optional sign and at least one digit.
pub open spec fn is_exponent(x: Seq<u8>) -> bool {
    exponent_digits(x).len() > 0 && all_digits(exponent_digits(x))
}

/// The number that the exponent `x` denotes.
pub open spec fn exponent_value(x: Seq<u8>) -> int {
    if x.len() > 0 && x[0] == MINUS {
        -(digits_value(exponent_digits(x)) as int)
    } else {
        digits_value(exponent_digits(x)) as int
    }
}

/// The power of ten that `body` is to be multiplied by; 0 without an
/// exponent.
pub open spec fn exponent_of(body: Seq<u8>) -> int {
    if has_exponent(body) {
        exponent_value(exponent_text(body))
    } else {
        0
    }
}

/// The digits of `m` before its decimal point.
pub open spec fn whole_part(m: Seq<u8>) -> Seq<u8> {
    m.take(first_index_of(m, POINT))
}

/// The digits of `m` after its decimal point; none if it has no point.
pub open spec fn fraction_part(m: Seq<u8>) -> Seq<u8> {
    let point = first_index_of(m, POINT);
    if 0 <= point < m.len() {
        m.skip(point + 1)
    } else {
        Seq::empty()
    }
}

/// All digits of the mantissa of `body`, those before the point and those
/// after it.
pub open spec fn digits_of(body: Seq<u8>) -> Seq<u8> {
    whole_part(mantissa(body)) + fraction_part(mantissa(body))
}

/// Whether `text` is a decimal number: an optional plus sign; digits with
/// an optional point among them, at least one digit in all; and optionally
/// an `e` or `E` with an exponent.
pub open spec fn is_decimal(text: Seq<u8>) -> bool {
    let body = unsigned(text);
    &&& all_digits(whole_part(mantissa(body)))
    &&& all_digits(fraction_part(mantissa(body)))
    &&& digits_of(body).len() > 0
    &&& has_exponent(body) ==> is_exponent(exponent_text(body))
}

/// Where the microseconds end among the digits of `body`, counted from the
/// first digit: three digits after the point, moved by the exponent. It may
/// lie before the first digit or after the last.
pub open spec fn micros_end(body: Seq<u8>) -> int {
    whole_part(mantissa(body)).len() + 3 + exponent_of(body)
}

/// How many of `count` digits stand before position `end`.
pub open spec fn digits_before(end: int, count: int) -> int {
    if end <= 0 {
        0
    } else if end <= count {
        end
    } else {
        count
    }
}

/// How many places lie between the last of `count` digits and position
/// `end`; 0 where `end` is among the digits or before them.
pub open spec fn places_after(end: int, count: int) -> nat {
    if end > count {
        (end - count) as nat
    } else {
        0
    }
}

/// How many of the digits of `body` make up its whole microseconds.
pub open spec fn taken(body: Seq<u8>) -> int {
    digits_before(micros_end(body), digits_of(body).len() as int)
}

/// How many zeros follow the digits of `body` in its whole microseconds.
pub open spec fn appended(body: Seq<u8>) -> nat {
    places_after(micros_end(body), digits_of(body).len() as int)
}

/// Whether one of the digits of `digits` from position `from` on is not 0.
pub open spec fn any_nonzero_from(digits: Seq<u8>, from: int) -> bool {
    exists|i: int| from <= i < digits.len() && #[trigger] digits[i] != DIGIT_ZERO
}

/// The number of milliseconds that `text` denotes, in whole microseconds,
/// rounded down; `None` where `text` is no decimal number.
pub open spec fn decimal_micros(text: Seq<u8>) -> Option<nat> {
    let body = unsigned(text);
    if is_decimal(text) {
        Some(digits_value(digits_of(body).take(taken(body))) * pow10(appended(body)))
    } else {
        None
    }
}

/// Whether `decimal_micros` rounds anything away: whether the decimal
/// number `text` has a digit other than 0 below the microseconds.
pub open spec fn decimal_cut(text: Seq<u8>) -> bool {
    any_nonzero_from(digits_of(unsigned(text)), taken(unsigned(text)))
}

/// What reading `text` yields: its microseconds and whether they were
/// rounded; `None` where `text` is no decimal number or its microseconds do
/// not fit in a `u64`.
pub open spec fn reading_of(text: Seq<u8>) -> Option<FrameReading> {
    match decimal_micros(text) {
        Some(micros) => if micros <= u64::MAX {
            Some(FrameReading { micros: micros as u64, cut: decimal_cut(text) })
        } else {
            None
        },
        None => None,
    }
}

/// Digits denote no less than any of their prefixes does.
pub proof fn lemma_digits_value_grows(s: Seq<u8>, count: int)
    requires
        0 <= count <= s.len(),
        all_digits(s),
    ensures
        digits_value(s.take(count)) <= digits_value(s),
    decreases s.len(),
{
    if count == s.len() {
        assert(s.take(count) =~= s);
    } else {
        let front = s.drop_last();
        assert(is_digit(s[s.len() - 1]));
        assert forall|i: int| 0 <= i < front.len() implies is_digit(#[trigger] front[i]) by {
            assert(front[i] == s[i]);
        }
        lemma_digits_value_grows(front, count);
        assert(front.take(count) =~= s.take(count));
    }
}

/// Powers of ten grow with the exponent, from 1 on.
pub proof fn lemma_pow10_grows(small: nat, large: nat)
    requires
        small <= large,
    ensures
        1 <= pow10(small) <= pow10(large),
    decreases large,
{
    if small < large {
        lemma_pow10_grows(small, (large - 1) as nat);
    } else if small > 0 {
        lemma_pow10_grows((small - 1) as nat, (large - 1) as nat);
    }
}

fn is_digit_byte(b: u8) -> (r: bool)
    ensures
        r == is_digit(b),
{
    48 <= b && b <= 57
}

/// Finds the end of the digits that begin at `from`.
fn scan_digits(line: &[u8], from: usize, to: usize) -> (end: usize)
    requires
        from <= to <= line@.len(),
    ensures
        from <= end <= to,
        all_digits(line@.subrange(from as int, end as int)),
        end < to ==> !is_digit(line@[end as int]),
{
    let mut end: usize = from;
    while end < to && is_digit_byte(line[end])
        invariant
            from <= end <= to <= line@.len(),
            forall|j: int| from <= j < end ==> is_digit(#[trigger] line@[j]),
        decreases to - end,
    {
        end += 1;
    }
    proof {
        assert forall|i: int| 0 <= i < end - from implies is_digit(
            #[trigger] line@.subrange(from as int, end as int)[i],
        ) by {
            assert(line@.subrange(from as int, end as int)[i] == line@[from + i]);
        }
    }
    end
}

/// The smaller of `a` and `b`.
pub open spec fn smaller(a: int, b: int) -> int {
    if a <= b {
        a
    } else {
        b
    }
}

/// Reads the digits at `from..to` as a number, up to `EXPONENT_LIMIT`.
fn capped_value(line: &[u8], from: usize, to: usize) -> (value: u128)
    requires
        from <= to <= line@.len(),
        all_digits(line@.subrange(from as int, to as int)),
    ensures
        value == smaller(
            digits_value(line@.subrange(from as int, to as int)) as int,
            EXPONENT_LIMIT as int,
        ),
{
    let mut value: u128 = 0;
    let mut i: usize = from;
    while i < to
        invariant
            from <= i <= to <= line@.len(),
            all_digits(line@.subrange(from as int, to as int)),
            value == smaller(
                digits_value(line@.subrange(from as int, i as int)) as int,
                EXPONENT_LIMIT as int,
            ),
        decreases to - i,
    {
        proof {
            assert(is_digit(line@.subrange(from as int, to as int)[i - from]));
            assert(line@.subrange(from as int, i + 1).drop_last() =~= line@.subrange(
                from as int,
                i as int,
            ));
        }
        let d: u128 = (line[i] - 48) as u128;
        let next: u128 = value * 10 + d;
        value = if next > EXPONENT_LIMIT {
            EXPONENT_LIMIT
        } else {
            next
        };
        i += 1;
    }
    value
}

/// Whether `b` is a letter that begins an exponent.
pub open spec fn is_exponent_mark(b: u8) -> bool {
    b == EXPONENT_SMALL || b == EXPONENT_CAPITAL
}

/// The digits that stand in two stretches of a line, one after the other.
pub open spec fn joined(line: Seq<u8>, start: int, whole_end: int, frac_start: int, frac_end: int) -> Seq<
    u8,
> {
    line.subrange(start, whole_end) + line.subrange(frac_start, frac_end)
}

/// Whether one of the digits of `digits` at the positions `from..to` is
/// not 0.
pub open spec fn any_nonzero_between(digits: Seq<u8>, from: int, to: int) -> bool {
    exists|i: int| from <= i < to && #[trigger] digits[i] != DIGIT_ZERO
}

/// The reading that the first `take` of `digits`, followed by `shift`
/// zeros, make up.
pub open spec fn reading_from(digits: Seq<u8>, take: int, shift: nat) -> Option<FrameReading> {
    let micros = digits_value(digits.take(take)) * pow10(shift);
    if micros <= u64::MAX {
        Some(FrameReading { micros: micros as u64, cut: any_nonzero_from(digits, take) })
    } else {
        None
    }
}

/// From `SHIFT_LIMIT` appended zeros on, only 0 stays within a `u64`, so
/// more zeros change no reading.
proof fn lemma_long_shift(digits: Seq<u8>, take: int, shift: nat)
    requires
        shift >= SHIFT_LIMIT,
    ensures
        reading_from(digits, take, shift) == reading_from(digits, take, SHIFT_LIMIT as nat),
{
    let v = digits_value(digits.take(take));
    lemma_pow10_grows(SHIFT_LIMIT as nat, shift);
    reveal_with_fuel(pow10, 21);
    assert(pow10(20) == 100_000_000_000_000_000_000);
    if v == 0 {
        assert(v * pow10(shift) == 0) by (nonlinear_arith)
            requires
                v == 0,
        ;
        assert(v * pow10(20) == 0) by (nonlinear_arith)
            requires
                v == 0,
        ;
    } else {
        assert(v * pow10(shift) >= 100_000_000_000_000_000_000) by (nonlinear_arith)
            requires
                v >= 1,
                pow10(shift) >= 100_000_000_000_000_000_000,
        ;
        assert(v * pow10(20) >= 100_000_000_000_000_000_000) by (nonlinear_arith)
            requires
                v >= 1,
                pow10(20) == 100_000_000_000_000_000_000,
        ;
    }
}

/// Reads the first `take` of the digits that stand at `start..whole_end`
/// and at `frac_start..frac_end`, appends `shift` zeros, and tells whether
/// one of the digits left over is not 0.
fn read_digits(
    line: &[u8],
    start: usize,
    whole_end: usize,
    frac_start: usize,
    frac_end: usize,
    take: usize,
    shift: u32,
) -> (reading: Option<FrameReading>)
    requires
        start <= whole_end <= frac_start <= frac_end <= line@.len(),
        all_digits(line@.subrange(start as int, whole_end as int)),
        all_digits(line@.subrange(frac_start as int, frac_end as int)),
        take <= (whole_end - start) + (frac_end - frac_start),
        shift <= SHIFT_LIMIT,
    ensures
        reading == reading_from(
            joined(line@, start as int, whole_end as int, frac_start as int, frac_end as int),
            take as int,
            shift as nat,
        ),
{
    let ghost digits = joined(
        line@,
        start as int,
        whole_end as int,
        frac_start as int,
        frac_end as int,
    );
    let whole_len: usize = whole_end - start;
    let n: usize = whole_len + (frac_end - frac_start);
    proof {
        assert(digits.len() == n);
        assert forall|i: int| 0 <= i < n implies is_digit(#[trigger] digits[i]) && digits[i]
            == line@[if i < whole_len {
            start + i
        } else {
            frac_start + (i - whole_len)
        }] by {
            if i < whole_len {
                assert(digits[i] == line@.subrange(start as int, whole_end as int)[i]);
            } else {
                assert(digits[i] == line@.subrange(frac_start as int, frac_end as int)[i
                    - whole_len]);
            }
        }
    }
    let mut acc: u64 = 0;
    let mut j: usize = 0;
    while j < take
        invariant
            start <= whole_end <= frac_start <= frac_end <= line@.len(),
            whole_len == whole_end - start,
            n == whole_len + (frac_end - frac_start),
            digits.len() == n,
            j <= take <= n,
            shift <= SHIFT_LIMIT,
            digits == joined(
                line@,
                start as int,
                whole_end as int,
                frac_start as int,
                frac_end as int,
            ),
            forall|i: int|
                0 <= i < n ==> is_digit(#[trigger] digits[i]) && digits[i] == line@[if i
                    < whole_len {
                    start + i
                } else {
                    frac_start + (i - whole_len)
                }],
            acc == digits_value(digits.take(j as int)),
        decreases take - j,
    {
        let at: usize = if j < whole_len {
            start + j
        } else {
            frac_start + (j - whole_len)
        };
        proof {
            assert(is_digit(digits[j as int]));
            assert(digits.take(j + 1).drop_last() =~= digits.take(j as int));
        }
        let d: u64 = (line[at] - 48) as u64;
        if acc > (u64::MAX - d) / 10 {
            proof {
                let kept = digits.take(take as int);
                assert(all_digits(kept)) by {
                    assert forall|i: int| 0 <= i < kept.len() implies is_digit(
                        #[trigger] kept[i],
                    ) by {
                        assert(kept[i] == digits[i]);
                    }
                }
                lemma_digits_value_grows(kept, j + 1);
                assert(kept.take(j + 1) =~= digits.take(j + 1));
                lemma_pow10_grows(0, shift as nat);
                assert(digits_value(kept) * pow10(shift as nat) > u64::MAX) by (nonlinear_arith)
                    requires
                        digits_value(kept) > u64::MAX,
                        pow10(shift as nat) >= 1,
                ;
            }
            return None;
        }
        acc = acc * 10 + d;
        j += 1;
    }
    let ghost value = acc as nat;
    let mut cut: bool = false;
    while j < n
        invariant
            start <= whole_end <= frac_start <= frac_end <= line@.len(),
            whole_len == whole_end - start,
            n == whole_len + (frac_end - frac_start),
            digits.len() == n,
            take <= j <= n,
            forall|i: int|
                0 <= i < n ==> is_digit(#[trigger] digits[i]) && digits[i] == line@[if i
                    < whole_len {
                    start + i
                } else {
                    frac_start + (i - whole_len)
                }],
            cut == any_nonzero_between(digits, take as int, j as int),
        decreases n - j,
    {
        let at: usize = if j < whole_len {
            start + j
        } else {
            frac_start + (j - whole_len)
        };
        proof {
            assert(is_digit(digits[j as int]));
            if any_nonzero_between(digits, take as int, j + 1) && digits[j as int] == DIGIT_ZERO {
                let i = choose|i: int| take <= i < j + 1 && #[trigger] digits[i] != DIGIT_ZERO;
                assert(take <= i < j && digits[i] != DIGIT_ZERO);
            }
            if any_nonzero_between(digits, take as int, j as int) {
                let i = choose|i: int| take <= i < j && #[trigger] digits[i] != DIGIT_ZERO;
                assert(take <= i < j + 1 && digits[i] != DIGIT_ZERO);
            }
            if digits[j as int] != DIGIT_ZERO {
                assert(take <= j < j + 1 && digits[j as int] != DIGIT_ZERO);
            }
        }
        if line[at] != DIGIT_ZERO {
            cut = true;
        }
        j += 1;
    }
    proof {
        assert(any_nonzero_between(digits, take as int, n as int) == any_nonzero_from(
            digits,
            take as int,
        ));
    }
    if acc == 0 {
        proof {
            assert(value * pow10(shift as nat) == 0) by (nonlinear_arith)
                requires
                    value == 0,
            ;
        }
        return Some(FrameReading { micros: 0, cut });
    }
    let mut t: u32 = 0;
    proof {
        assert(value * pow10(0) == value) by (nonlinear_arith)
            requires
                pow10(0) == 1,
        ;
    }
    while t < shift
        invariant
            t <= shift <= SHIFT_LIMIT,
            digits == joined(
                line@,
                start as int,
                whole_end as int,
                frac_start as int,
                frac_end as int,
            ),
            cut == any_nonzero_from(digits, take as int),
            value == digits_value(digits.take(take as int)),
            value >= 1,
            acc == value * pow10(t as nat),
        decreases shift - t,
    {
        proof {
            assert(pow10((t + 1) as nat) == 10 * pow10(t as nat));
            assert(value * pow10((t + 1) as nat) == 10 * (value * pow10(t as nat)))
                by (nonlinear_arith)
                requires
                    pow10((t + 1) as nat) == 10 * pow10(t as nat),
            ;
        }
        if acc > u64::MAX / 10 {
            proof {
                lemma_pow10_grows((t + 1) as nat, shift as nat);
                assert(value * pow10(shift as nat) >= value * pow10((t + 1) as nat))
                    by (nonlinear_arith)
                    requires
                        pow10(shift as nat) >= pow10((t + 1) as nat),
                        value >= 1,
                ;
            }
            return None;
        }
        acc = acc * 10;
        t += 1;
    }
    Some(FrameReading { micros: acc, cut })
}

/// The parts of a number whose digits, with an optional point among them,
/// begin `body` and end at position `end`: `whole_len` digits, then, if
/// `has_point`, a point and `frac_len` digits. Where `body` ends there or
/// goes on with an exponent, these are its mantissa; where another byte
/// follows, `body` is no decimal number.
proof fn lemma_mantissa_shape(body: Seq<u8>, whole_len: int, has_point: bool, frac_len: int)
    requires
        0 <= whole_len,
        0 <= frac_len,
        !has_point ==> frac_len == 0,
        whole_len + (if has_point { 1int } else { 0int }) + frac_len <= body.len(),
        forall|j: int| 0 <= j < whole_len ==> is_digit(#[trigger] body[j]),
        has_point ==> body[whole_len] == POINT,
        forall|j: int|
            whole_len < j < whole_len + 1 + frac_len && has_point ==> is_digit(#[trigger] body[j]),
        ({
            let end = whole_len + (if has_point { 1int } else { 0int }) + frac_len;
            end < body.len() ==> !is_digit(body[end]) && (!has_point ==> body[end] != POINT)
        }),
    ensures
        ({
            let end = whole_len + (if has_point { 1int } else { 0int }) + frac_len;
            let m = mantissa(body);
            if end == body.len() || is_exponent_mark(body[end]) {
                &&& exponent_at(body) == end
                &&& whole_part(m) == body.subrange(0, whole_len)
                &&& fraction_part(m) == body.subrange(end - frac_len, end)
            } else {
                !(all_digits(whole_part(m)) && all_digits(fraction_part(m)))
            }
        }),
{
    let end = whole_len + (if has_point { 1int } else { 0int }) + frac_len;
    let m = mantissa(body);
    lemma_first_index_of_is_first(body, EXPONENT_SMALL);
    lemma_first_index_of_is_first(body, EXPONENT_CAPITAL);
    assert forall|j: int| 0 <= j < end implies !is_exponent_mark(#[trigger] body[j]) by {
        if j < whole_len {
            assert(is_digit(body[j]));
        } else if j > whole_len {
            assert(is_digit(body[j]));
        }
    }
    let small = first_index_of(body, EXPONENT_SMALL);
    let capital = first_index_of(body, EXPONENT_CAPITAL);
    assert(small >= end) by {
        if small < end {
            assert(!is_exponent_mark(body[small]));
        }
    }
    assert(capital >= end) by {
        if capital < end {
            assert(!is_exponent_mark(body[capital]));
        }
    }
    if end == body.len() || is_exponent_mark(body[end]) {
        assert(exponent_at(body) == end);
        assert(m =~= body.subrange(0, end));
        assert forall|j: int| 0 <= j < whole_len implies m[j] != POINT by {
            assert(is_digit(body[j]));
        }
        lemma_first_index_of(m, POINT, whole_len);
        assert(whole_part(m) =~= body.subrange(0, whole_len));
        assert(fraction_part(m) =~= body.subrange(end - frac_len, end));
    } else {
        assert(exponent_at(body) > end);
        assert(m[end] == body[end]);
        if has_point {
            assert forall|j: int| 0 <= j < whole_len implies m[j] != POINT by {
                assert(is_digit(body[j]));
            }
            lemma_first_index_of(m, POINT, whole_len);
            let frac = fraction_part(m);
            assert(frac[end - whole_len - 1] == m[end]);
            assert(!is_digit(frac[end - whole_len - 1]));
        } else {
            lemma_first_index_of_is_first(m, POINT);
            let point = first_index_of(m, POINT);
            assert(point > end) by {
                if point <= end {
                    if point < end {
                        assert(is_digit(body[point]));
                    }
                    assert(m[point] == POINT);
                }
            }
            let whole = whole_part(m);
            assert(whole[end] == m[end]);
            assert(!is_digit(whole[end]));
        }
    }
}

/// Where the digits of a mantissa stand in a line.
struct Mantissa {
    whole_end: usize,
    frac_start: usize,
    frac_end: usize,
}

/// Finds the mantissa that begins at `start`: digits, and where a point
/// follows them, the point and more digits.
fn scan_mantissa(line: &[u8], start: usize, to: usize) -> (found: Mantissa)
    requires
        start <= to <= line@.len(),
    ensures
        start <= found.whole_end <= found.frac_start <= found.frac_end <= to,
        all_digits(line@.subrange(start as int, found.whole_end as int)),
        all_digits(line@.subrange(found.frac_start as int, found.frac_end as int)),
        ({
            let body = line@.subrange(start as int, to as int);
            let m = mantissa(body);
            if found.frac_end == to || is_exponent_mark(line@[found.frac_end as int]) {
                &&& exponent_at(body) == found.frac_end - start
                &&& whole_part(m) == line@.subrange(start as int, found.whole_end as int)
                &&& fraction_part(m) == line@.subrange(
                    found.frac_start as int,
                    found.frac_end as int,
                )
            } else {
                !(all_digits(whole_part(m)) && all_digits(fraction_part(m)))
            }
        }),
{
    let ghost body = line@.subrange(start as int, to as int);
    let whole_end: usize = scan_digits(line, start, to);
    let has_point: bool = whole_end < to && line[whole_end] == POINT;
    let frac_start: usize = if has_point {
        whole_end + 1
    } else {
        whole_end
    };
    let frac_end: usize = if has_point {
        scan_digits(line, frac_start, to)
    } else {
        whole_end
    };
    let ghost whole_len = whole_end - start;
    let ghost frac_len = frac_end - frac_start;
    proof {
        assert forall|j: int| 0 <= j < whole_len implies is_digit(#[trigger] body[j]) by {
            assert(body[j] == line@.subrange(start as int, whole_end as int)[j]);
        }
        assert forall|j: int|
            whole_len < j < whole_len + 1 + frac_len && has_point implies is_digit(
            #[trigger] body[j],
        ) by {
            assert(body[j] == line@.subrange(frac_start as int, frac_end as int)[j - whole_len
                - 1]);
        }
        if frac_end < to {
            assert(body[frac_end - start] == line@[frac_end as int]);
        }
        if has_point {
            assert(body[whole_len as int] == line@[whole_end as int]);
        }
        lemma_mantissa_shape(body, whole_len as int, has_point, frac_len as int);
        assert(body.subrange(0, whole_len as int) =~= line@.subrange(
            start as int,
            whole_end as int,
        ));
        assert(body.subrange(frac_end - start - frac_len, frac_end - start) =~= line@.subrange(
            frac_start as int,
            frac_end as int,
        ));
    }
    Mantissa { whole_end, frac_start, frac_end }
}

/// Reads the exponent at `from..to`: whether it is negative, and its size
/// up to `EXPONENT_LIMIT`. Returns `None` where the bytes are no exponent.
fn read_exponent(line: &[u8], from: usize, to: usize) -> (found: Option<(bool, u128)>)
    requires
        from <= to <= line@.len(),
    ensures
        found is Some <==> is_exponent(line@.subrange(from as int, to as int)),
        found matches Some(pair) ==> ({
            let x = line@.subrange(from as int, to as int);
            &&& pair.0 == (x.len() > 0 && x[0] == MINUS)
            &&& pair.1 == smaller(digits_value(exponent_digits(x)) as int, EXPONENT_LIMIT as int)
        }),
{
    let signed: bool = from < to && (line[from] == PLUS || line[from] == MINUS);
    let negative: bool = from < to && line[from] == MINUS;
    let digits_at: usize = if signed {
        from + 1
    } else {
        from
    };
    let digits_end: usize = scan_digits(line, digits_at, to);
    proof {
        let x = line@.subrange(from as int, to as int);
        if from < to {
            assert(x[0] == line@[from as int]);
        }
        assert(exponent_digits(x) =~= line@.subrange(digits_at as int, to as int));
        if digits_end < to {
            assert(exponent_digits(x)[digits_end - digits_at] == line@[digits_end as int]);
        }
    }
    if digits_end != to || digits_end == digits_at {
        return None;
    }
    Some((negative, capped_value(line, digits_at, to)))
}

/// Position `whole_len + 3`, moved by an exponent of size `magnitude`.
pub open spec fn moved_end(whole_len: int, negative: bool, magnitude: int) -> int {
    if negative {
        whole_len + 3 - magnitude
    } else {
        whole_len + 3 + magnitude
    }
}

/// Tells how many of `count` digits make up the microseconds and how many
/// zeros follow them, up to `SHIFT_LIMIT`.
fn place_end(whole_len: usize, count: usize, negative: bool, magnitude: u128) -> (placed: (
    usize,
    u32,
))
    requires
        whole_len <= count,
        magnitude <= EXPONENT_LIMIT,
    ensures
        placed.0 == digits_before(
            moved_end(whole_len as int, negative, magnitude as int),
            count as int,
        ),
        placed.1 == smaller(
            places_after(moved_end(whole_len as int, negative, magnitude as int), count as int) as int,
            SHIFT_LIMIT as int,
        ),
{
    let reach: u128 = whole_len as u128 + 3;
    if negative && magnitude >= reach {
        return (0, 0);
    }
    let at: u128 = if negative {
        reach - magnitude
    } else {
        reach + magnitude
    };
    if at <= count as u128 {
        (at as usize, 0)
    } else if at - count as u128 >= SHIFT_LIMIT as u128 {
        (count, SHIFT_LIMIT)
    } else {
        (count, (at - count as u128) as u32)
    }
}

/// An exponent beyond `EXPONENT_LIMIT` places the end where
/// `EXPONENT_LIMIT` places it, as far as a reading can tell.
proof fn lemma_capped_exponent(whole_len: int, count: int, negative: bool, size: int)
    requires
        0 <= whole_len <= count <= usize::MAX,
        size >= EXPONENT_LIMIT,
    ensures
        digits_before(moved_end(whole_len, negative, size), count) == digits_before(
            moved_end(whole_len, negative, EXPONENT_LIMIT as int),
            count,
        ),
        smaller(
            places_after(moved_end(whole_len, negative, size), count) as int,
            SHIFT_LIMIT as int,
        ) == smaller(
            places_after(moved_end(whole_len, negative, EXPONENT_LIMIT as int), count) as int,
            SHIFT_LIMIT as int,
        ),
{
}

/// Reads the bytes at `from..to` of `line` as a number of milliseconds and
/// returns it in whole microseconds, rounded down, with a note of whether
/// anything was rounded away. Returns `None` where the bytes are no decimal
/// number or the microseconds do not fit in a `u64`.
pub fn parse_micros(line: &[u8], from: usize, to: usize) -> (reading: Option<FrameReading>)
    requires
        from <= to <= line@.len(),
    ensures
        reading == reading_of(line@.subrange(from as int, to as int)),
{
    let ghost text = line@.subrange(from as int, to as int);
    let ghost body = unsigned(text);
    let start: usize = if from < to && line[from] == PLUS {
        from + 1
    } else {
        from
    };
    proof {
        assert(body =~= line@.subrange(start as int, to as int));
    }
    let found = scan_mantissa(line, start, to);
    let marked: bool = found.frac_end < to && (line[found.frac_end] == EXPONENT_SMALL
        || line[found.frac_end] == EXPONENT_CAPITAL);
    if found.frac_end < to && !marked {
        return None;
    }
    let whole_len: usize = found.whole_end - start;
    let count: usize = whole_len + (found.frac_end - found.frac_start);
    let ghost digits = joined(
        line@,
        start as int,
        found.whole_end as int,
        found.frac_start as int,
        found.frac_end as int,
    );
    proof {
        assert(digits_of(body) == digits);
        assert(digits.len() == count);
    }
    if count == 0 {
        return None;
    }
    let mut negative: bool = false;
    let mut magnitude: u128 = 0;
    if marked {
        proof {
            assert(exponent_text(body) =~= line@.subrange(found.frac_end + 1, to as int));
        }
        match read_exponent(line, found.frac_end + 1, to) {
            Some(pair) => {
                negative = pair.0;
                magnitude = pair.1;
            },
            None => {
                return None;
            },
        }
    }
    let (take, shift) = place_end(whole_len, count, negative, magnitude);
    proof {
        let size = if marked {
            digits_value(exponent_digits(exponent_text(body))) as int
        } else {
            0
        };
        assert(micros_end(body) == moved_end(whole_len as int, negative, size));
        if size >= EXPONENT_LIMIT {
            lemma_capped_exponent(whole_len as int, count as int, negative, size);
        }
        assert(take == taken(body));
        assert(shift == smaller(appended(body) as int, SHIFT_LIMIT as int));
        if appended(body) >= SHIFT_LIMIT {
            lemma_long_shift(digits, take as int, appended(body));
        }
        assert(is_decimal(text));
        assert(reading_of(text) == reading_from(digits, take as int, appended(body)));
    }
    read_digits(line, start, found.whole_end, found.frac_start, found.frac_end, take, shift)
}

/// The character of the digit `d`.
pub open spec fn digit_char(d: nat) -> char {
    if d == 0 {
        '0'
    } else if d == 1 {
        '1'
    } else if d == 2 {
        '2'
    } else if d == 3 {
        '3'
    } else if d == 4 {
        '4'
    } else if d == 5 {
        '5'
    } else if d == 6 {
        '6'
    } else if d == 7 {
        '7'
    } else if d == 8 {
        '8'
    } else {
        '9'
    }
}

/// `n` written in decimal, without leading zeros.
pub open spec fn decimal_text(n: nat) -> Seq<char>
    decreases n,
{
    if n < 10 {
        seq![digit_char(n)]
    } else {
        decimal_text(n / 10).push(digit_char(n % 10))
    }
}

fn digit_str(d: u64) -> (s: &'static str)
    requires
        d < 10,
    ensures
        s@ == seq![digit_char(d as nat)],
{
    proof {
        reveal_strlit("0");
        reveal_strlit("1");
        reveal_strlit("2");
        reveal_strlit("3");
        reveal_strlit("4");
        reveal_strlit("5");
        reveal_strlit("6");
        reveal_strlit("7");
        reveal_strlit("8");
        reveal_strlit("9");
    }
    let s = if d == 0 {
        "0"
    } else if d == 1 {
        "1"
    } else if d == 2 {
        "2"
    } else if d == 3 {
        "3"
    } else if d == 4 {
        "4"
    } else if d == 5 {
        "5"
    } else if d == 6 {
        "6"
    } else if d == 7 {
        "7"
    } else if d == 8 {
        "8"
    } else {
        "9"
    };
    assert(s@ =~= seq![digit_char(d as nat)]);
    s
}

/// Appends `n`, written in decimal, to `out`.
pub fn write_decimal(n: u64, out: &mut String)
    ensures
        final(out)@ == old(out)@ + decimal_text(n as nat),
    decreases n,
{
    if n >= 10 {
        write_decimal(n / 10, out);
    }
    out.append(digit_str(n % 10));
    proof {
        if n >= 10 {
            assert(old(out)@ + decimal_text((n / 10) as nat) + seq![digit_char((n % 10) as nat)]
                =~= old(out)@ + decimal_text(n as nat));
        }
    }
}

/// Returns `n` written in decimal.
pub fn to_decimal(n: u64) -> (text: String)
    ensures
        text@ == decimal_text(n as nat),
{
    let mut text = String::new();
    write_decimal(n, &mut text);
    assert(Seq::<char>::empty() + decimal_text(n as nat) =~= decimal_text(n as nat));
    text
}

} // verus!

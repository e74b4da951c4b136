//! Translation between nanosecond timestamps and flow indices.
//!
//! A flow counts its units (grains or samples) with an index that advances at
//! a rational rate of units per second. Both directions round to the nearest
//! integer, halves upwards, so that they are approximate inverses of each
//! other.

use vstd::prelude::*;
use vstd::arithmetic::div_mod::{lemma_div_is_ordered, lemma_fundamental_div_mod};

verus! {

/// Nanoseconds in one second.
pub const NANOS_PER_SECOND: u64 = 1_000_000_000;

/// A rate in units per second, as a fraction.
#[derive(Clone, Copy, Debug, PartialEq, Eq, Structural)]
pub struct Rational {
    pub numerator: i64,
    pub denominator: i64,
}

/// Why a translation gave no result.
#[derive(Clone, Copy, Debug, PartialEq, Eq, Structural)]
pub enum TranslateError {
    /// The rate has a numerator or a denominator that is not positive.
    InvalidRate,
    /// The exact result does not fit in 64 bits.
    OutOfRange,
}

impl Rational {
    /// A rate is well formed when both of its parts are positive.
    pub open spec fn valid(&self) -> bool {
        self.numerator > 0 && self.denominator > 0
    }

    pub fn is_valid(&self) -> (ok: bool)
        ensures
            ok == self.valid(),
    {
        self.numerator > 0 && self.denominator > 0
    }
}

/// The timestamp, in nanoseconds, of the start of unit `index`:
/// `index * denominator / numerator` seconds, rounded to the nearest nanosecond.
pub open spec fn timestamp_of_index(index: int, rate: Rational) -> int {
    (index * rate.denominator * 1_000_000_000 + rate.numerator / 2) / (rate.numerator as int)
}

/// The index of the unit nearest to the timestamp `ns`:
/// `ns * numerator / denominator` nanoseconds' worth of units, rounded to the nearest unit.
pub open spec fn index_of_timestamp(ns: int, rate: Rational) -> int {
    (ns * rate.numerator + 500_000_000 * rate.denominator) / (1_000_000_000 * rate.denominator)
}

/// The length in nanoseconds of `units` consecutive units that start at index 0.
pub open spec fn period_of(units: int, rate: Rational) -> int {
    timestamp_of_index(units, rate)
}

proof fn lemma_product_bound(a: int, b: int, amax: int, bmax: int)
    by (nonlinear_arith)
    requires
        0 <= a <= amax,
        0 <= b <= bmax,
    ensures
        0 <= a * b <= amax * bmax,
{
}

proof fn lemma_quotient_at_least(x: int, d: int, q: int)
    by (nonlinear_arith)
    requires
        0 < d,
        q * d <= x,
    ensures
        q <= x / d,
{
}

/// Converts an index to its timestamp in nanoseconds.
pub fn index_to_timestamp(index: u64, rate: &Rational) -> (r: Result<u64, TranslateError>)
    ensures
        match r {
            Ok(ns) => rate.valid() && ns == timestamp_of_index(index as int, *rate),
            Err(TranslateError::InvalidRate) => !rate.valid(),
            Err(TranslateError::OutOfRange) => rate.valid() && timestamp_of_index(
                index as int,
                *rate,
            ) > u64::MAX,
        },
{
    if !rate.is_valid() {
        return Err(TranslateError::InvalidRate);
    }
    let num: u128 = rate.numerator as u128;
    let den: u128 = rate.denominator as u128;
    proof {
        lemma_product_bound(index as int, den as int, u64::MAX as int, i64::MAX as int);
    }
    let units: u128 = (index as u128) * den;
    let half: u128 = num / 2;
    let scaled: Option<u128> = units.checked_mul(NANOS_PER_SECOND as u128);
    let total: Option<u128> = match scaled {
        Some(s) => s.checked_add(half),
        None => None,
    };
    match total {
        Some(t) => {
            let q: u128 = t / num;
            if q > u64::MAX as u128 {
                Err(TranslateError::OutOfRange)
            } else {
                Ok(q as u64)
            }
        },
        None => {
            proof {
                let x: int = index * rate.denominator * 1_000_000_000 + rate.numerator / 2;
                assert(x > u128::MAX);
                lemma_quotient_at_least(x, rate.numerator as int, 0x2_0000_0000_0000_0000);
            }
            Err(TranslateError::OutOfRange)
        },
    }
}

/// Converts a timestamp in nanoseconds to the index of the nearest unit.
pub fn timestamp_to_index(ns: u64, rate: &Rational) -> (r: Result<u64, TranslateError>)
    ensures
        match r {
            Ok(index) => rate.valid() && index == index_of_timestamp(ns as int, *rate),
            Err(TranslateError::InvalidRate) => !rate.valid(),
            Err(TranslateError::OutOfRange) => rate.valid() && index_of_timestamp(
                ns as int,
                *rate,
            ) > u64::MAX,
        },
{
    if !rate.is_valid() {
        return Err(TranslateError::InvalidRate);
    }
    let num: u128 = rate.numerator as u128;
    let den: u128 = rate.denominator as u128;
    proof {
        lemma_product_bound(ns as int, num as int, u64::MAX as int, i64::MAX as int);
    }
    let scaled: u128 = (ns as u128) * num;
    let half: u128 = 500_000_000u128 * den;
    let whole: u128 = (NANOS_PER_SECOND as u128) * den;
    let q: u128 = (scaled + half) / whole;
    if q > u64::MAX as u128 {
        Err(TranslateError::OutOfRange)
    } else {
        Ok(q as u64)
    }
}

/// A later index never has an earlier timestamp.
pub proof fn lemma_timestamp_of_index_is_monotonic(a: int, b: int, rate: Rational)
    requires
        rate.valid(),
        a <= b,
    ensures
        timestamp_of_index(a, rate) <= timestamp_of_index(b, rate),
{
    let num: int = rate.numerator as int;
    let den: int = rate.denominator as int;
    assert(a * den * 1_000_000_000 <= b * den * 1_000_000_000) by (nonlinear_arith)
        requires
            a <= b,
            den > 0,
    ;
    lemma_div_is_ordered(
        a * den * 1_000_000_000 + num / 2,
        b * den * 1_000_000_000 + num / 2,
        num,
    );
}

/// A later timestamp never has an earlier index.
pub proof fn lemma_index_of_timestamp_is_monotonic(a: int, b: int, rate: Rational)
    requires
        rate.valid(),
        a <= b,
    ensures
        index_of_timestamp(a, rate) <= index_of_timestamp(b, rate),
{
    let num: int = rate.numerator as int;
    let den: int = rate.denominator as int;
    assert(a * num <= b * num) by (nonlinear_arith)
        requires
            a <= b,
            num > 0,
    ;
    lemma_div_is_ordered(a * num + 500_000_000 * den, b * num + 500_000_000 * den, 1_000_000_000 * den);
}

/// Index 0 stands at timestamp 0, and timestamp 0 at index 0.
pub proof fn lemma_origin(rate: Rational)
    requires
        rate.valid(),
    ensures
        timestamp_of_index(0, rate) == 0,
        index_of_timestamp(0, rate) == 0,
{
    let num: int = rate.numerator as int;
    let den: int = rate.denominator as int;
    assert(0 * den * 1_000_000_000 == 0) by (nonlinear_arith);
    assert((num / 2) / num == 0) by (nonlinear_arith)
        requires
            num > 0,
    ;
    assert(0 * num == 0) by (nonlinear_arith);
    assert((500_000_000 * den) / (1_000_000_000 * den) == 0) by (nonlinear_arith)
        requires
            den > 0,
    ;
}

proof fn lemma_multiple_within_bounds_is_zero(k: int, n: int)
    by (nonlinear_arith)
    requires
        n > 0,
        -n < k * n < n,
    ensures
        k == 0,
{
}

proof fn lemma_scaled_difference(back: int, t: int, idx: int, num: int, whole: int, e: int)
    by (nonlinear_arith)
    requires
        e == idx * whole - t * num + (back * num - idx * whole),
    ensures
        e == (back - t) * num,
{
}

/// Going from a timestamp to its index and back moves the timestamp by less
/// than the length of one unit: the two translations are inverses of each
/// other up to rounding.
#[verifier::rlimit(40)]
pub proof fn lemma_round_trip_within_one_period(t: int, rate: Rational)
    requires
        rate.valid(),
        0 <= t,
    ensures
        ({
            let back: int = timestamp_of_index(index_of_timestamp(t, rate), rate);
            &&& (back - t) * rate.numerator < 1_000_000_000 * rate.denominator
            &&& (t - back) * rate.numerator < 1_000_000_000 * rate.denominator
        }),
{
    let num: int = rate.numerator as int;
    let den: int = rate.denominator as int;
    let half: int = 500_000_000 * den;
    let whole: int = 1_000_000_000 * den;
    let idx: int = index_of_timestamp(t, rate);
    let back: int = timestamp_of_index(idx, rate);
    let r1: int = (t * num + half) % whole;
    let r2: int = (idx * den * 1_000_000_000 + num / 2) % num;
    lemma_fundamental_div_mod(t * num + half, whole);
    lemma_fundamental_div_mod(idx * den * 1_000_000_000 + num / 2, num);
    assert(whole * idx == idx * whole) by (nonlinear_arith);
    assert(num * back == back * num) by (nonlinear_arith);
    assert(idx * den * 1_000_000_000 == idx * whole) by (nonlinear_arith)
        requires
            whole == 1_000_000_000 * den,
    ;
    // t * num + half == idx * whole + r1, and idx * whole + num / 2 == back * num + r2.
    let e: int = half - r1 + num / 2 - r2;
    lemma_scaled_difference(back, t, idx, num, whole, e);
    assert(0 <= r1 < whole);
    assert(0 <= r2 < num);
    if num < whole {
        // One unit lasts longer than a nanosecond: both roundings together
        // stay under it.
        assert(e < whole);
        assert(-whole < e);
    } else {
        // A unit lasts a nanosecond or less: the way back is exact.
        if num == whole {
            // idx * num == t * num + half - r1, so num divides half - r1.
            assert(half - r1 == (idx - t) * num) by (nonlinear_arith)
                requires
                    t * num + half == idx * whole + r1,
                    num == whole,
            ;
            assert(-num < half - r1 < num);
            lemma_multiple_within_bounds_is_zero(idx - t, num);
            assert(r1 == half) by (nonlinear_arith)
                requires
                    idx - t == 0,
                    half - r1 == (idx - t) * num,
            ;
        }
        assert(-num < e < num);
        lemma_multiple_within_bounds_is_zero(back - t, num);
        assert((back - t) * num == 0) by (nonlinear_arith)
            requires
                back - t == 0,
        ;
        assert((t - back) * num == 0) by (nonlinear_arith)
            requires
                back - t == 0,
        ;
    }
    assert((t - back) * num == -((back - t) * num)) by (nonlinear_arith);
}

} // verus!

//! Double-precision values carried by their bit pattern.
//!
//! The mapping rules compare stick, trigger and sensor values with thresholds, clamp them into
//! ranges, negate them, hand them on, and count a travel in whole steps. All of that is exact on
//! the 64-bit pattern of an IEEE-754 binary64 number, so the rules work on [`Scalar`] and the
//! caller converts with `to_bits` / `from_bits` at the edge.

use vstd::arithmetic::div_mod::lemma_basic_div;
use vstd::arithmetic::power2::{
    lemma2_to64, lemma2_to64_rest, lemma_pow2_strictly_increases, lemma_pow2_unfold, pow2,
};
use vstd::bits::{lemma_u64_shl_is_mul, lemma_u64_shr_is_div};
use vstd::prelude::*;

verus! {

/// Weight of the sign bit.
pub const SIGN_WEIGHT: u64 = 0x8000_0000_0000_0000;

/// Pattern of positive infinity; larger magnitudes are not numbers.
pub const INFINITE_BITS: u64 = 0x7FF0_0000_0000_0000;

/// Pattern of `1.0`.
pub const ONE_BITS: u64 = 0x3FF0_0000_0000_0000;

/// Pattern of `-1.0`.
pub const NEG_ONE_BITS: u64 = 0xBFF0_0000_0000_0000;

/// Pattern of `256.0`.
pub const BITS_OF_256: u64 = 0x4070_0000_0000_0000;

/// Number of fraction patterns: two to the power of the 52 fraction bits.
pub const FRACTION_SPAN: u64 = 0x10_0000_0000_0000;

/// A binary64 value, held by its bit pattern.
///
/// `==` compares patterns, so the two zeros differ and a not-a-number pattern equals itself; the
/// numeric order is [`Scalar::ge`] and [`Scalar::gt`].
#[derive(Clone, Copy, Debug, PartialEq, Eq, Structural)]
pub struct Scalar {
    /// The IEEE-754 pattern: sign, 11 exponent bits, 52 fraction bits.
    pub bits: u64,
}

impl Scalar {
    /// The pattern without its sign bit.
    pub open spec fn magnitude(self) -> int {
        self.bits as int % SIGN_WEIGHT as int
    }

    /// Whether the pattern is no number at all.
    pub open spec fn is_nan(self) -> bool {
        self.magnitude() > INFINITE_BITS
    }

    /// Whether the pattern is a number other than the two infinities.
    pub open spec fn finite(self) -> bool {
        self.magnitude() < INFINITE_BITS
    }

    /// An integer that orders numbers as their values do: exponent and fraction read as one
    /// integer grow with the value, and both zeros map to 0.
    pub open spec fn key(self) -> int {
        if self.bits >= SIGN_WEIGHT {
            -self.magnitude()
        } else {
            self.magnitude()
        }
    }

    /// Numeric `self >= other`, false as soon as one of them is not a number.
    pub open spec fn ge_spec(self, other: Scalar) -> bool {
        &&& !self.is_nan()
        &&& !other.is_nan()
        &&& self.key() >= other.key()
    }

    /// Numeric `self > other`, false as soon as one of them is not a number.
    pub open spec fn gt_spec(self, other: Scalar) -> bool {
        &&& !self.is_nan()
        &&& !other.is_nan()
        &&& self.key() > other.key()
    }

    /// Numeric equality, false as soon as one of them is not a number.
    pub open spec fn num_eq_spec(self, other: Scalar) -> bool {
        &&& !self.is_nan()
        &&& !other.is_nan()
        &&& self.key() == other.key()
    }

    /// The value with its sign turned over.
    pub open spec fn negated(self) -> Scalar {
        Scalar {
            bits: if self.bits >= SIGN_WEIGHT {
                (self.bits - SIGN_WEIGHT) as u64
            } else {
                (self.bits + SIGN_WEIGHT) as u64
            },
        }
    }

    /// `self` where it is above zero, positive zero elsewhere.
    pub open spec fn positive_part_spec(self) -> Scalar {
        if self.gt_spec(Scalar { bits: 0 }) {
            self
        } else {
            Scalar { bits: 0 }
        }
    }

    /// `self` held between the numbers `lo` and `hi`; what is not a number stays as it is.
    pub open spec fn clamp_spec(self, lo: Scalar, hi: Scalar) -> Scalar {
        if lo.gt_spec(self) {
            lo
        } else if self.gt_spec(hi) {
            hi
        } else {
            self
        }
    }

    /// `self` where it is finite, `fallback` elsewhere.
    pub open spec fn finite_or_spec(self, fallback: Scalar) -> Scalar {
        if self.finite() {
            self
        } else {
            fallback
        }
    }

    /// `self` where it is above `floor`, `floor` elsewhere.
    pub open spec fn at_least_spec(self, floor: Scalar) -> Scalar {
        if self.gt_spec(floor) {
            self
        } else {
            floor
        }
    }

    /// The exponent field.
    pub open spec fn exponent(self) -> int {
        self.magnitude() / FRACTION_SPAN as int
    }

    /// The digits as an integer: a number's magnitude is this times two to the power of its
    /// exponent less 1075.
    pub open spec fn significand(self) -> int {
        if self.exponent() == 0 {
            self.magnitude()
        } else {
            self.magnitude() % FRACTION_SPAN as int + FRACTION_SPAN
        }
    }

    /// `k` times a number that is not below zero, to the nearest integer, halves up.
    pub open spec fn times_spec(self, k: int) -> int {
        let e = if self.exponent() == 0 {
            1
        } else {
            self.exponent()
        };
        (k * self.significand() + pow2((1074 - e) as nat)) / pow2((1075 - e) as nat) as int
    }

    /// A travel between 0 and 1 in 255ths, to the nearest; 255 above, and 0 below or where it is no
    /// number.
    pub open spec fn in_255ths_spec(self) -> int {
        if self.is_nan() || self.key() <= 0 {
            0
        } else if self.key() >= ONE_BITS {
            255
        } else {
            self.times_spec(255)
        }
    }

    /// `k` times a number between 0 and 256, to the nearest integer, halves up.
    pub fn times(self, k: u64) -> (r: u64)
        requires
            self.bits < BITS_OF_256,
            k <= 255,
        ensures
            r == self.times_spec(k as int),
            r <= 0x1_0000,
            self.bits < ONE_BITS ==> r <= 255,
    {
        let e: u64 = self.bits / FRACTION_SPAN;
        let (digits, shift): (u64, u64) = if e == 0 {
            (self.bits, 1074)
        } else {
            (self.bits % FRACTION_SPAN + FRACTION_SPAN, 1075 - e)
        };
        assert(0 <= k * digits <= 255 * digits) by (nonlinear_arith)
            requires
                0 <= k <= 255,
                0 <= digits,
        ;
        let product: u64 = k * digits;
        proof {
            lemma2_to64();
            lemma2_to64_rest();
            lemma_pow2_unfold(shift as nat);
            let half = pow2((shift - 1) as nat);
            let d = pow2(shift as nat);
            if shift > 45 {
                lemma_pow2_strictly_increases(45, shift as nat);
            }
            assert(0 <= (product + half) as int / d as int <= 0x1_0000) by (nonlinear_arith)
                requires
                    0 <= product < 255 * 0x20_0000_0000_0000,
                    d >= 0x2000_0000_0000,
                    d == 2 * half,
            ;
            if self.bits < ONE_BITS {
                if shift > 53 {
                    lemma_pow2_strictly_increases(53, shift as nat);
                }
                assert((product + half) as int / d as int <= 255) by (nonlinear_arith)
                    requires
                        0 <= product < 255 * 0x20_0000_0000_0000,
                        d >= 0x20_0000_0000_0000,
                        d == 2 * half,
                ;
            }
            if shift >= 64 {
                if shift > 64 {
                    lemma_pow2_strictly_increases(64, shift as nat);
                }
                lemma_basic_div(product + half, d as int);
            } else {
                if shift < 63 {
                    lemma_pow2_strictly_increases((shift - 1) as nat, 62);
                }
                lemma_u64_shl_is_mul(1, (shift - 1) as u64);
                lemma_u64_shr_is_div((product + half) as u64, shift);
            }
        }
        if shift >= 64 {
            0
        } else {
            (product + (1u64 << (shift - 1))) >> shift
        }
    }

    /// A travel between 0 and 1 in 255ths, to the nearest.
    pub fn in_255ths(self) -> (r: u8)
        ensures
            r == self.in_255ths_spec(),
    {
        if !self.gt(Scalar { bits: 0 }) {
            return 0;
        }
        if self.ge(Scalar { bits: ONE_BITS }) {
            return 255;
        }
        self.times(255) as u8
    }

    /// The value with this pattern.
    pub fn from_bits(bits: u64) -> (r: Scalar)
        ensures
            r.bits == bits,
    {
        Scalar { bits }
    }

    /// The pattern of this value.
    pub fn to_bits(self) -> (r: u64)
        ensures
            r == self.bits,
    {
        self.bits
    }

    /// Positive zero.
    pub fn zero() -> (r: Scalar)
        ensures
            r.bits == 0,
    {
        Scalar { bits: 0 }
    }

    /// One.
    pub fn one() -> (r: Scalar)
        ensures
            r.bits == ONE_BITS,
    {
        Scalar { bits: ONE_BITS }
    }

    /// Whether this is a number other than the infinities.
    pub fn is_finite(self) -> (r: bool)
        ensures
            r == self.finite(),
    {
        self.bits % SIGN_WEIGHT < INFINITE_BITS
    }

    /// Numeric `self >= other`.
    pub fn ge(self, other: Scalar) -> (r: bool)
        ensures
            r == self.ge_spec(other),
    {
        let a: u64 = self.bits % SIGN_WEIGHT;
        let b: u64 = other.bits % SIGN_WEIGHT;
        if a > INFINITE_BITS || b > INFINITE_BITS {
            return false;
        }
        if self.bits >= SIGN_WEIGHT {
            if other.bits >= SIGN_WEIGHT {
                a <= b
            } else {
                a == 0 && b == 0
            }
        } else if other.bits >= SIGN_WEIGHT {
            true
        } else {
            a >= b
        }
    }

    /// Numeric `self > other`.
    pub fn gt(self, other: Scalar) -> (r: bool)
        ensures
            r == self.gt_spec(other),
    {
        let a: u64 = self.bits % SIGN_WEIGHT;
        let b: u64 = other.bits % SIGN_WEIGHT;
        if a > INFINITE_BITS || b > INFINITE_BITS {
            return false;
        }
        if self.bits >= SIGN_WEIGHT {
            if other.bits >= SIGN_WEIGHT {
                a < b
            } else {
                false
            }
        } else if other.bits >= SIGN_WEIGHT {
            a > 0 || b > 0
        } else {
            a > b
        }
    }

    /// Numeric equality.
    pub fn num_eq(self, other: Scalar) -> (r: bool)
        ensures
            r == self.num_eq_spec(other),
    {
        self.ge(other) && other.ge(self)
    }

    /// The value with its sign turned over.
    pub fn neg(self) -> (r: Scalar)
        ensures
            r == self.negated(),
    {
        if self.bits >= SIGN_WEIGHT {
            Scalar { bits: self.bits - SIGN_WEIGHT }
        } else {
            Scalar { bits: self.bits + SIGN_WEIGHT }
        }
    }

    /// `self` where it is above zero, positive zero elsewhere.
    pub fn positive_part(self) -> (r: Scalar)
        ensures
            r == self.positive_part_spec(),
    {
        if self.gt(Scalar { bits: 0 }) {
            self
        } else {
            Scalar { bits: 0 }
        }
    }

    /// `self` held between `lo` and `hi`.
    pub fn clamp(self, lo: Scalar, hi: Scalar) -> (r: Scalar)
        requires
            hi.ge_spec(lo),
        ensures
            r == self.clamp_spec(lo, hi),
    {
        if lo.gt(self) {
            lo
        } else if self.gt(hi) {
            hi
        } else {
            self
        }
    }

    /// `self` where it is finite, `fallback` elsewhere.
    pub fn finite_or(self, fallback: Scalar) -> (r: Scalar)
        ensures
            r == self.finite_or_spec(fallback),
    {
        if self.is_finite() {
            self
        } else {
            fallback
        }
    }

    /// `self` where it is above `floor`, `floor` elsewhere.
    pub fn at_least(self, floor: Scalar) -> (r: Scalar)
        ensures
            r == self.at_least_spec(floor),
    {
        if self.gt(floor) {
            self
        } else {
            floor
        }
    }
}

impl Default for Scalar {
    /// Positive zero.
    fn default() -> (r: Scalar)
        ensures
            r.bits == 0,
    {
        Scalar { bits: 0 }
    }
}

/// Negating turns the order key over, and negating twice gives the value back.
pub proof fn negation_reverses_order(a: Scalar)
    ensures
        a.negated().key() == -a.key(),
        a.negated().negated() == a,
        a.negated().is_nan() == a.is_nan(),
{
}

/// Patterns are ordered as the numbers they stand for: upwards from zero without the sign bit,
/// downwards with it, every number with the sign bit below every one without, the two zeros equal,
/// and patterns beyond the infinities never comparable.
pub proof fn patterns_are_ordered_as_numbers(a: Scalar, b: Scalar)
    ensures
        a.bits <= 0x7FF0_0000_0000_0000 && b.bits <= 0x7FF0_0000_0000_0000 ==> (a.ge_spec(b)
            <==> a.bits >= b.bits),
        0x8000_0000_0000_0000 <= a.bits <= 0xFFF0_0000_0000_0000 && 0x8000_0000_0000_0000 <= b.bits
            <= 0xFFF0_0000_0000_0000 ==> (a.ge_spec(b) <==> a.bits <= b.bits),
        a.bits <= 0x7FF0_0000_0000_0000 && 0x8000_0000_0000_0000 <= b.bits <= 0xFFF0_0000_0000_0000
            ==> a.ge_spec(b),
        0x8000_0000_0000_0000 <= a.bits <= 0xFFF0_0000_0000_0000 && b.bits <= 0x7FF0_0000_0000_0000
            ==> (a.ge_spec(b) <==> a.bits == 0x8000_0000_0000_0000 && b.bits == 0),
        0x7FF0_0000_0000_0000 < a.bits < 0x8000_0000_0000_0000 || a.bits > 0xFFF0_0000_0000_0000
            ==> !a.ge_spec(b) && !b.ge_spec(a),
        a.gt_spec(b) <==> a.ge_spec(b) && !b.ge_spec(a),
        a.num_eq_spec(b) <==> a.ge_spec(b) && b.ge_spec(a),
{
}

/// Turning the sign over changes the sign bit and nothing else, and reverses the order.
pub proof fn turning_over_reverses(a: Scalar, b: Scalar)
    ensures
        a.bits < 0x8000_0000_0000_0000 ==> a.negated().bits == a.bits + 0x8000_0000_0000_0000,
        a.bits >= 0x8000_0000_0000_0000 ==> a.negated().bits == a.bits - 0x8000_0000_0000_0000,
        a.ge_spec(b) <==> b.negated().ge_spec(a.negated()),
{
}

/// Holding a number between two others takes the lower one below it, the upper one above it, and
/// the number itself between them; what is not a number stays.
pub proof fn holding_takes_the_nearer_end(x: Scalar, lo: Scalar, hi: Scalar)
    requires
        hi.ge_spec(lo),
    ensures
        x.ge_spec(lo) && hi.ge_spec(x) ==> x.clamp_spec(lo, hi) == x,
        lo.ge_spec(x) && !x.ge_spec(lo) ==> x.clamp_spec(lo, hi) == lo,
        x.ge_spec(hi) && !hi.ge_spec(x) ==> x.clamp_spec(lo, hi) == hi,
        !x.ge_spec(x) ==> x.clamp_spec(lo, hi) == x,
{
}

/// Whether `r` is the number `v` held between the patterns `lo` and `hi`; what is not a number
/// stays.
pub open spec fn is_held_between(v: Scalar, r: Scalar, lo: u64, hi: u64) -> bool {
    let (low, high) = (Scalar { bits: lo }, Scalar { bits: hi });
    &&& v.ge_spec(low) && high.ge_spec(v) ==> r == v
    &&& low.ge_spec(v) && !v.ge_spec(low) ==> r == low
    &&& v.ge_spec(high) && !high.ge_spec(v) ==> r == high
    &&& !v.ge_spec(v) ==> r == v
}

/// Whether `r` is the number `v` lifted to the pattern `lo` where it is not above it, which what is
/// not a number is not.
pub open spec fn is_lifted_to(v: Scalar, r: Scalar, lo: u64) -> bool {
    let low = Scalar { bits: lo };
    &&& v.ge_spec(low) && !low.ge_spec(v) ==> r == v
    &&& !v.ge_spec(low) || low.ge_spec(v) ==> r == low
}

/// The positive part of a number above zero is the number; of any other it is zero. A floor takes
/// the number where it is above the floor, and the floor elsewhere. A fallback takes the place of
/// what is infinite or no number.
pub proof fn parts_and_floors(x: Scalar, other: Scalar)
    ensures
        0 < x.bits <= 0x7FF0_0000_0000_0000 ==> x.positive_part_spec() == x,
        x.bits == 0 || x.bits > 0x7FF0_0000_0000_0000 ==> x.positive_part_spec().bits == 0,
        x.ge_spec(other) && !other.ge_spec(x) ==> x.at_least_spec(other) == x,
        !x.ge_spec(other) || other.ge_spec(x) ==> x.at_least_spec(other) == other,
        x.bits < 0x7FF0_0000_0000_0000 ==> x.finite_or_spec(other) == x,
        0x8000_0000_0000_0000 <= x.bits < 0xFFF0_0000_0000_0000 ==> x.finite_or_spec(other) == x,
        0x7FF0_0000_0000_0000 <= x.bits < 0x8000_0000_0000_0000 || x.bits >= 0xFFF0_0000_0000_0000
            ==> x.finite_or_spec(other) == other,
{
}

/// A multiple of a number is rounded to the nearest integer. A number between `2^(e-1023)` and
/// twice that has the pattern `e * 2^52` plus its fraction, and is `2^52` plus the fraction, times
/// `2^(e-1075)`; twice the distance of `r` from `k` times it is at most one.
pub proof fn multiples_are_rounded_to_the_nearest(e: int, fraction: int, k: int)
    requires
        0 < e < 1075,
        0 <= fraction < 0x10_0000_0000_0000,
        0 <= k,
    ensures
        ({
            let v = Scalar { bits: (e * 0x10_0000_0000_0000 + fraction) as u64 };
            let digits = fraction + 0x10_0000_0000_0000;
            let r = v.times_spec(k);
            let unit = pow2((1075 - e) as nat) as int;
            2 * r * unit - unit <= 2 * k * digits < 2 * r * unit + unit
        }),
{
    let v = Scalar { bits: (e * 0x10_0000_0000_0000 + fraction) as u64 };
    let digits = fraction + 0x10_0000_0000_0000;
    assert(v.exponent() == e && v.significand() == digits);
    let s = (1075 - e) as nat;
    lemma_pow2_unfold(s);
    let half = pow2((s - 1) as nat) as int;
    let unit = pow2(s) as int;
    vstd::arithmetic::power2::lemma_pow2_pos((s - 1) as nat);
    let r = v.times_spec(k);
    vstd::arithmetic::div_mod::lemma_fundamental_div_mod(k * digits + half, unit);
    vstd::arithmetic::div_mod::lemma_mod_bound(k * digits + half, unit);
    assert(unit * r == r * unit && 2 * r * unit == 2 * (r * unit) && 2 * k * digits == 2 * (k
        * digits)) by (nonlinear_arith);
}

/// A travel counts in 255ths: nothing at zero, below it and where it is no number, 255 from one on,
/// and 255 times the travel, to the nearest, between.
pub proof fn travel_runs_from_none_to_all(v: Scalar)
    ensures
        v.bits == 0 || v.bits > 0x7FF0_0000_0000_0000 ==> v.in_255ths_spec() == 0,
        0x3FF0_0000_0000_0000 <= v.bits <= 0x7FF0_0000_0000_0000 ==> v.in_255ths_spec() == 255,
        0 < v.bits < 0x3FF0_0000_0000_0000 ==> v.in_255ths_spec() == v.times_spec(255),
{
}

/// A clamped number lies in its range, and clamping again changes nothing.
pub proof fn clamp_lands_in_range(x: Scalar, lo: Scalar, hi: Scalar)
    requires
        hi.ge_spec(lo),
    ensures
        !x.is_nan() ==> x.clamp_spec(lo, hi).ge_spec(lo) && hi.ge_spec(x.clamp_spec(lo, hi)),
        x.clamp_spec(lo, hi).clamp_spec(lo, hi) == x.clamp_spec(lo, hi),
{
}

/// A floored number is not below its floor, and flooring again changes nothing.
pub proof fn at_least_settles(x: Scalar, floor: Scalar)
    requires
        !floor.is_nan(),
    ensures
        x.at_least_spec(floor).ge_spec(floor),
        x.at_least_spec(floor).at_least_spec(floor) == x.at_least_spec(floor),
{
}

/// Of a number and its negation at most one has a positive part.
pub proof fn positive_parts_exclude_each_other(x: Scalar)
    ensures
        x.positive_part_spec().bits == 0 || x.negated().positive_part_spec().bits == 0,
{
}

} // verus!

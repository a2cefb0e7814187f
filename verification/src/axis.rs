//! Raw stick ranges and their exact relation to the canonical `[-1,1]` axis.
//!
//! A raw reading is an integer and its canonical value is a quotient of two integers, so the
//! mapping is kept as that quotient ([`AxisRatio`]); the caller divides once to get a double.

use vstd::prelude::*;
use vstd::arithmetic::power2::{lemma2_to64, lemma_pow2_strictly_increases, lemma_pow2_unfold, pow2};

use crate::ints::{clamp_i32, clamp_int, fits_i32};
use crate::scalar::{is_held_between, Scalar, NEG_ONE_BITS, ONE_BITS};

verus! {

/// An exact axis value `num / den`. A zero denominator stands for "not a number".
#[derive(Clone, Copy, Debug, PartialEq, Eq, Structural)]
pub struct AxisRatio {
    pub num: i64,
    pub den: i64,
}

impl AxisRatio {
    /// Whether this is a value in `[-1,1]`, or not a number.
    pub open spec fn in_unit_range(self) -> bool {
        if self.den == 0 {
            self.num == 0
        } else {
            0 < self.den && -self.den <= self.num <= self.den
        }
    }

    /// The denominator without its sign.
    pub open spec fn size(self) -> int {
        if self.den >= 0 {
            self.den as int
        } else {
            -self.den
        }
    }

    /// The numerator over [`AxisRatio::size`], held in `[-1,1]`.
    pub open spec fn held(self) -> int {
        clamp_int(
            if self.den >= 0 {
                self.num as int
            } else {
                -self.num
            },
            -self.size(),
            self.size(),
        )
    }

    /// Points to the side of neutral that the value scales to; what is not a number goes with the
    /// lower one.
    pub open spec fn side(self) -> int {
        if self.den == 0 {
            -1
        } else {
            self.held()
        }
    }

    /// The value with its sign turned over.
    pub fn neg(self) -> (r: AxisRatio)
        requires
            self.in_unit_range(),
        ensures
            r.num == -self.num,
            r.den == self.den,
            r.in_unit_range(),
    {
        AxisRatio { num: -self.num, den: self.den }
    }
}

/// A canonical value held in `[-1,1]`; what is not a number stays so.
pub open spec fn clamped_axis(v: Scalar) -> Scalar {
    v.clamp_spec(Scalar { bits: NEG_ONE_BITS }, Scalar { bits: ONE_BITS })
}

/// Clamps a canonical value into `[-1,1]`; what is not a number stays so.
pub fn clamp_axis(v: Scalar) -> (r: Scalar)
    ensures
        r == clamped_axis(v),
{
    v.clamp(Scalar { bits: NEG_ONE_BITS }, Scalar { bits: ONE_BITS })
}

/// The integer nearest to `p / q`, ties away from zero.
pub open spec fn nearest(p: int, q: int) -> int
    recommends
        q > 0,
{
    if p >= 0 {
        (2 * p + q) / (2 * q)
    } else {
        -((2 * -p + q) / (2 * q))
    }
}

/// A raw stick axis: its neutral reading and its two ends.
///
/// The mapping is linear on either side of `neutral`, with a scale of its own on each side, so an
/// uneven range still reaches both ends exactly.
#[derive(Clone, Copy, Debug, PartialEq, Eq, Structural)]
pub struct RawStickFormat {
    pub bits: u8,
    pub neutral: i32,
    pub min: i32,
    pub max: i32,
}

impl RawStickFormat {
    /// 8-bit stick: 0 at one end, 128 at rest, 255 at the other end.
    pub open spec fn ds_8bit_spec() -> RawStickFormat {
        RawStickFormat { bits: 8, neutral: 128, min: 0, max: 255 }
    }

    /// Signed 16-bit thumbstick.
    pub open spec fn xinput_16_spec() -> RawStickFormat {
        RawStickFormat { bits: 16, neutral: 0, min: (-32768) as i32, max: 32767 }
    }

    /// 8-bit stick: 0 at one end, 128 at rest, 255 at the other end.
    pub fn ds_8bit() -> (r: RawStickFormat)
        ensures
            r == RawStickFormat::ds_8bit_spec(),
    {
        RawStickFormat { bits: 8, neutral: 128, min: 0, max: 255 }
    }

    /// Signed 16-bit thumbstick.
    pub fn xinput_16() -> (r: RawStickFormat)
        ensures
            r == RawStickFormat::xinput_16_spec(),
    {
        RawStickFormat { bits: 16, neutral: 0, min: -32768, max: 32767 }
    }

    /// The length of the range on the side of `neutral` on which `d` points.
    pub open spec fn span(self, d: int) -> int {
        if d >= 0 {
            self.max - self.neutral
        } else {
            self.neutral - self.min
        }
    }

    /// The canonical value of a raw reading: zero at neutral, elsewhere its distance from neutral
    /// over the length of that side, held in `[-1,1]`.
    pub open spec fn to_axis_spec(self, raw: int) -> AxisRatio {
        let d = raw - self.neutral;
        let s = self.span(d);
        let (num, den) = if s >= 0 {
            (d, s)
        } else {
            (-d, -s)
        };
        if d == 0 && s == 0 {
            AxisRatio { num: 0, den: 1 }
        } else if num > den {
            AxisRatio { num: 1, den: 1 }
        } else if num < -den {
            AxisRatio { num: (-1) as i64, den: 1 }
        } else {
            AxisRatio { num: num as i64, den: den as i64 }
        }
    }

    /// The raw reading of a canonical value: neutral plus the value, held in `[-1,1]` and scaled to
    /// its side, rounded to the nearest integer and held in the range. What is not a number reads
    /// neutral.
    pub open spec fn from_axis_spec(self, a: AxisRatio) -> int {
        let v = if a.den == 0 {
            0
        } else {
            nearest(a.held() * self.span(a.held()), a.size())
        };
        clamp_int(self.neutral + v, self.min as int, self.max as int)
    }

    /// Whether the length of the side on which `d` points fits in an `i32`.
    pub open spec fn side_fits(self, d: int) -> bool {
        fits_i32(self.span(d))
    }

    /// Whether neutral lies between the two ends.
    pub open spec fn ordered(self) -> bool {
        self.min <= self.neutral <= self.max
    }

    /// A format of `bits` width around zero: `-2^(bits-1)` to `2^(bits-1) - 1`. Beyond 32 bits
    /// only the low 32 bits of the ends are kept, which leaves the range from 0 to -1.
    pub fn xinput(bits: u8) -> (r: RawStickFormat)
        requires
            1 <= bits <= 31 || 33 <= bits <= 63,
        ensures
            r.bits == bits,
            r.neutral == 0,
            bits <= 31 ==> r.min == -pow2((bits - 1) as nat) && r.max == pow2((bits - 1) as nat) - 1,
            bits >= 33 ==> r.min == 0 && r.max == -1,
    {
        if bits > 31 {
            return RawStickFormat { bits, neutral: 0, min: 0, max: -1 };
        }
        let mut half: i32 = 1;
        let mut i: u8 = 1;
        proof {
            lemma2_to64();
        }
        while i < bits
            invariant
                1 <= i <= bits <= 31,
                half == pow2((i - 1) as nat),
            decreases bits - i,
        {
            proof {
                lemma2_to64();
                lemma_pow2_unfold(i as nat);
                if i < 30 {
                    lemma_pow2_strictly_increases(i as nat, 30);
                }
            }
            half = half * 2;
            i = i + 1;
        }
        proof {
            lemma2_to64();
            if bits < 31 {
                lemma_pow2_strictly_increases((bits - 1) as nat, 30);
            }
        }
        RawStickFormat { bits, neutral: 0, min: -half, max: half - 1 }
    }

    /// The canonical value of a raw reading: zero at neutral, elsewhere its distance from neutral
    /// over the length of that side, held in `[-1,1]`. A side of length zero maps every reading
    /// beyond neutral to its end.
    pub fn to_axis(&self, raw: i32) -> (r: AxisRatio)
        requires
            fits_i32(raw - self.neutral),
            self.side_fits(raw - self.neutral),
        ensures
            r.den > 0,
            r.in_unit_range(),
            r == self.to_axis_spec(raw as int),
            raw == self.neutral ==> r.num == 0,
    {
        let d: i64 = (raw - self.neutral) as i64;
        let s: i64 = if d >= 0 {
            (self.max - self.neutral) as i64
        } else {
            (self.neutral - self.min) as i64
        };
        let (num, den): (i64, i64) = if s >= 0 {
            (d, s)
        } else {
            (-d, -s)
        };
        if d == 0 && s == 0 {
            AxisRatio { num: 0, den: 1 }
        } else if num > den {
            AxisRatio { num: 1, den: 1 }
        } else if num < -den {
            AxisRatio { num: -1, den: 1 }
        } else {
            AxisRatio { num, den }
        }
    }

    /// The raw reading of a canonical value: neutral plus the value, held in `[-1,1]` and scaled to
    /// its side, rounded once to the nearest integer and held in the range. What is not a number
    /// reads neutral.
    pub fn from_axis(&self, a: AxisRatio) -> (r: i32)
        requires
            self.min <= self.max,
            self.side_fits(a.side()),
        ensures
            r == self.from_axis_spec(a),
            self.min <= r <= self.max,
    {
        if a.den == 0 {
            return clamp_i32(self.neutral, self.min, self.max);
        }
        let (top, q): (i128, i128) = if a.den > 0 {
            (a.num as i128, a.den as i128)
        } else {
            (-(a.num as i128), -(a.den as i128))
        };
        let n: i128 = if top > q {
            q
        } else if top < -q {
            -q
        } else {
            top
        };
        let s: i128 = if n >= 0 {
            (self.max - self.neutral) as i128
        } else {
            (self.neutral - self.min) as i128
        };
        proof {
            product_stays_within(n as int, q as int, s as int);
        }
        let v: i128 = rounded(n * s, q);
        let raw: i128 = self.neutral as i128 + v;
        if raw < self.min as i128 {
            self.min
        } else if raw > self.max as i128 {
            self.max
        } else {
            raw as i32
        }
    }
}

/// A value of at most one, times a length that an `i32` holds, is at most `0x8000_0000`.
proof fn product_stays_within(n: int, q: int, s: int)
    requires
        -q <= n <= q,
        fits_i32(s),
    ensures
        -(q * 0x8000_0000) <= n * s <= q * 0x8000_0000,
{
    let b: int = 0x8000_0000;
    assert(-(q * b) <= n * s <= q * b) by (nonlinear_arith)
        requires
            -q <= n <= q,
            -b <= s <= b,
    ;
}

/// The integer nearest to `p / q`, ties away from zero.
fn rounded(p: i128, q: i128) -> (r: i128)
    requires
        0 < q <= 0x8000_0000_0000_0000,
        -(q * 0x8000_0000) <= p <= q * 0x8000_0000,
    ensures
        r == nearest(p as int, q as int),
        -0x8000_0000 <= r <= 0x8000_0000,
{
    proof {
        rounding_stays_within(
            if p >= 0 {
                p as int
            } else {
                -p as int
            },
            q as int,
            0x8000_0000,
        );
    }
    if p >= 0 {
        (2 * p + q) / (2 * q)
    } else {
        -((2 * -p + q) / (2 * q))
    }
}

/// Rounding a product that is at most `q * s` over `q` gives at most `s`.
proof fn rounding_stays_within(p: int, q: int, s: int)
    requires
        q > 0,
        0 <= p <= q * s,
    ensures
        0 <= (2 * p + q) / (2 * q) <= s,
{
    let v = (2 * p + q) / (2 * q);
    vstd::arithmetic::div_mod::lemma_fundamental_div_mod(2 * p + q, 2 * q);
    assert(v <= s) by (nonlinear_arith)
        requires
            2 * p + q == (2 * q) * v + (2 * p + q) % (2 * q),
            0 <= (2 * p + q) % (2 * q),
            0 <= p <= q * s,
            q > 0,
    ;
    vstd::arithmetic::div_mod::lemma_div_pos_is_pos(2 * p + q, 2 * q);
}

/// Going to the canonical axis and back gives every reading of an ordered range unchanged: the
/// scaled value is the reading's distance from neutral, with no rounding left to do.
pub proof fn axis_round_trip(f: RawStickFormat, raw: int)
    requires
        f.ordered(),
        f.min <= raw <= f.max,
        f.side_fits(raw - f.neutral),
    ensures
        f.from_axis_spec(f.to_axis_spec(raw)) == raw,
{
    let d = raw - f.neutral;
    let s = f.span(d);
    if s != 0 {
        if d >= 0 {
            whole_rounds_to_itself(d, s);
        } else {
            whole_rounds_to_itself(-d, s);
            assert(-(d * s) == (-d) * s) by (nonlinear_arith);
            assert(d * s < 0) by (nonlinear_arith)
                requires
                    d < 0,
                    s > 0,
            ;
        }
    }
}

/// Neutral maps to exactly zero on every format, and an end that lies on its side of neutral to
/// exactly one or minus one, however uneven the two sides are.
pub proof fn axis_ends_are_exact(f: RawStickFormat)
    requires
        f.side_fits(-1),
        f.side_fits(0),
    ensures
        f.to_axis_spec(f.neutral as int).num == 0,
        f.to_axis_spec(f.neutral as int).den > 0,
        f.min < f.neutral ==> f.to_axis_spec(f.min as int).num == -f.to_axis_spec(f.min as int).den,
        f.min < f.neutral ==> f.to_axis_spec(f.min as int).den > 0,
        f.neutral < f.max ==> f.to_axis_spec(f.max as int).num == f.to_axis_spec(f.max as int).den,
        f.neutral < f.max ==> f.to_axis_spec(f.max as int).den > 0,
{
}

/// A whole multiple of the denominator rounds to the multiple.
proof fn whole_rounds_to_itself(d: int, s: int)
    requires
        d >= 0,
        s > 0,
    ensures
        (2 * (d * s) + s) / (2 * s) == d,
{
    assert(2 * (d * s) + s == d * (2 * s) + s) by (nonlinear_arith);
    vstd::arithmetic::div_mod::lemma_fundamental_div_mod_converse(2 * (d * s) + s, 2 * s, d, s);
}

/// A value is held between minus one and one.
pub proof fn values_are_held_in_the_unit_range(v: Scalar)
    ensures
        is_held_between(v, clamped_axis(v), 0xBFF0_0000_0000_0000, 0x3FF0_0000_0000_0000),
{
}

/// The nearest integer is at most half a unit away, takes the side away from zero where it is
/// exactly half a unit, and turns over with the value.
pub proof fn rounding_takes_the_nearest(p: int, q: int)
    requires
        q > 0,
    ensures
        -q <= 2 * (p - nearest(p, q) * q) <= q,
        p >= 0 ==> 2 * (p - nearest(p, q) * q) < q,
        p <= 0 ==> -q < 2 * (p - nearest(p, q) * q),
        nearest(-p, q) == -nearest(p, q),
{
    let a = if p >= 0 {
        p
    } else {
        -p
    };
    let v = (2 * a + q) / (2 * q);
    vstd::arithmetic::div_mod::lemma_fundamental_div_mod(2 * a + q, 2 * q);
    vstd::arithmetic::div_mod::lemma_mod_bound(2 * a + q, 2 * q);
    assert(-q <= 2 * (a - v * q) < q) by (nonlinear_arith)
        requires
            q > 0,
            2 * a + q == (2 * q) * v + (2 * a + q) % (2 * q),
            0 <= (2 * a + q) % (2 * q) < 2 * q,
    ;
    assert((-v) * q == -(v * q)) by (nonlinear_arith);
    if p == 0 {
        assert(v == 0) by (nonlinear_arith)
            requires
                q > 0,
                v == q / (2 * q),
        ;
    }
}

/// A reading of an ordered range that is further from neutral gives no smaller a value, and one at
/// or beyond an end gives the end.
pub proof fn readings_keep_their_order(f: RawStickFormat, a: int, b: int)
    requires
        f.ordered(),
        f.side_fits(-1),
        f.side_fits(0),
        a <= b,
    ensures
        f.to_axis_spec(a).num * f.to_axis_spec(b).den <= f.to_axis_spec(b).num * f.to_axis_spec(
            a,
        ).den,
        b > f.neutral && b >= f.max ==> f.to_axis_spec(b).num == f.to_axis_spec(b).den,
        a < f.neutral && a <= f.min ==> f.to_axis_spec(a).num == -f.to_axis_spec(a).den,
{
    let (x, y) = (f.to_axis_spec(a), f.to_axis_spec(b));
    assert(x.num * y.den <= y.num * x.den) by (nonlinear_arith)
        requires
            x.den > 0,
            y.den > 0,
            x.num <= 0 <= y.num || (x.den == y.den && x.num <= y.num) || x.num <= -x.den && y.num
                >= -y.den || x.num <= x.den && y.num >= y.den,
    ;
}

/// What is no number reads neutral where that lies in the range.
pub proof fn no_number_reads_neutral(f: RawStickFormat, a: AxisRatio)
    requires
        f.ordered(),
        a.den == 0,
    ensures
        f.from_axis_spec(a) == f.neutral,
{
}

/// The two stick formats: eight bits with rest at 128 of 0 to 255, and sixteen bits with rest at 0;
/// a format's readings are as many as its bits can tell apart, and rest is the upper of the two in
/// the middle.
pub proof fn formats_use_all_their_bits()
    ensures
        ({
            let f = RawStickFormat::ds_8bit_spec();
            f.bits == 8 && f.min == 0 && f.max - f.min + 1 == 256 && 2 * f.neutral == f.min + f.max
                + 1
        }),
        ({
            let f = RawStickFormat::xinput_16_spec();
            f.bits == 16 && f.neutral == 0 && f.max - f.min + 1 == 65536 && 2 * f.neutral == f.min
                + f.max + 1
        }),
{
}

} // verus!

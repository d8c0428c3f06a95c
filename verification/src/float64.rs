//! IEEE 754 binary64 numbers held as bit patterns.
//!
//! Account data stores coordinates and thresholds as binary64. Here such a
//! number is its 64-bit pattern, and what the pattern stands for is stated in
//! integers: every finite binary64 number is a whole multiple of 2^-1074, so
//! the number times 2^1074 is an integer, the *scaled value*. Comparisons are
//! computed on the bits and proved to agree with the order of scaled values.

use vstd::arithmetic::power2::{
    lemma2_to64,
    lemma2_to64_rest,
    lemma_pow2_adds,
    lemma_pow2_pos,
    lemma_pow2_strictly_increases,
    lemma_pow2_unfold,
    pow2,
};
use vstd::prelude::*;

verus! {

/// The bit that holds the sign.
pub const SIGN_BIT: u64 = 0x8000_0000_0000_0000;

/// The pattern of positive infinity. A larger magnitude is not a number.
pub const INFINITY_BITS: u64 = 0x7ff0_0000_0000_0000;

/// Two to the power 52: the weight of the lowest exponent bit.
pub const FRACTION_SPAN: u64 = 0x10_0000_0000_0000;

/// The power of two by which a binary64 number is scaled to an integer.
pub open spec fn scale_exponent() -> nat {
    1074
}

/// The number that the sign-less pattern `m` stands for, times 2^1074.
///
/// With `e = m / 2^52` and `f = m % 2^52`, a subnormal (`e == 0`) is
/// `f * 2^-1074` and a normal number is `(2^52 + f) * 2^(e - 1075)`.
/// Infinity (`e == 2047`, `f == 0`) gets a value above every finite one.
pub open spec fn scaled_magnitude(m: nat) -> nat {
    let e = m / (FRACTION_SPAN as nat);
    let f = m % (FRACTION_SPAN as nat);
    if e == 0 {
        f
    } else {
        ((FRACTION_SPAN + f) * pow2((e - 1) as nat)) as nat
    }
}

/// A binary64 number, by its bits.
#[derive(Clone, Copy, Debug)]
pub struct Float64 {
    pub bits: u64,
}

impl Float64 {
    /// Whether the sign bit is set. True of `-0` and of negative NaNs too.
    pub open spec fn spec_is_sign_negative(&self) -> bool {
        self.bits >= SIGN_BIT
    }

    /// The pattern without its sign bit.
    pub open spec fn spec_magnitude_bits(&self) -> u64 {
        if self.bits >= SIGN_BIT {
            (self.bits - SIGN_BIT) as u64
        } else {
            self.bits
        }
    }

    /// Whether the pattern is not a number.
    pub open spec fn spec_is_nan(&self) -> bool {
        self.spec_magnitude_bits() > INFINITY_BITS
    }

    /// Whether the pattern is a number other than an infinity.
    pub open spec fn spec_is_finite(&self) -> bool {
        self.spec_magnitude_bits() < INFINITY_BITS
    }

    /// The number times 2^1074, for a pattern that is a number.
    pub open spec fn scaled_value(&self) -> int {
        if self.spec_is_sign_negative() {
            -(scaled_magnitude(self.spec_magnitude_bits() as nat) as int)
        } else {
            scaled_magnitude(self.spec_magnitude_bits() as nat) as int
        }
    }

    /// `self <= other` as IEEE 754 orders numbers: false when either side is
    /// not a number, and `-0` equal to `+0`.
    pub open spec fn spec_le(&self, other: &Float64) -> bool {
        &&& !self.spec_is_nan()
        &&& !other.spec_is_nan()
        &&& self.scaled_value() <= other.scaled_value()
    }

    /// `self >= other` as IEEE 754 orders numbers.
    pub open spec fn spec_ge(&self, other: &Float64) -> bool {
        other.spec_le(self)
    }

    /// Whether the pattern stands for exactly the integer `n`.
    pub open spec fn is_integer(&self, n: int) -> bool {
        &&& self.spec_is_finite()
        &&& self.scaled_value() == n * pow2(scale_exponent())
    }

    /// Whether the number lies in the closed range from `low` to `high`.
    pub open spec fn in_integer_range(&self, low: int, high: int) -> bool {
        &&& !self.spec_is_nan()
        &&& low * pow2(scale_exponent()) <= self.scaled_value() <= high * pow2(scale_exponent())
    }

    /// The number with the given bits.
    pub fn from_bits(bits: u64) -> (r: Float64)
        ensures
            r.bits == bits,
    {
        Float64 { bits }
    }

    /// The bits of the number.
    pub fn to_bits(&self) -> (bits: u64)
        ensures
            bits == self.bits,
    {
        self.bits
    }

    #[verifier::when_used_as_spec(spec_is_sign_negative)]
    pub fn is_sign_negative(&self) -> (r: bool)
        ensures
            r == self.spec_is_sign_negative(),
    {
        self.bits >= SIGN_BIT
    }

    #[verifier::when_used_as_spec(spec_magnitude_bits)]
    pub fn magnitude_bits(&self) -> (m: u64)
        ensures
            m == self.spec_magnitude_bits(),
    {
        if self.bits >= SIGN_BIT {
            self.bits - SIGN_BIT
        } else {
            self.bits
        }
    }

    #[verifier::when_used_as_spec(spec_is_nan)]
    pub fn is_nan(&self) -> (r: bool)
        ensures
            r == self.spec_is_nan(),
    {
        self.magnitude_bits() > INFINITY_BITS
    }

    #[verifier::when_used_as_spec(spec_is_finite)]
    pub fn is_finite(&self) -> (r: bool)
        ensures
            r == self.spec_is_finite(),
    {
        self.magnitude_bits() < INFINITY_BITS
    }

    /// Compares two numbers on their bits.
    #[verifier::when_used_as_spec(spec_le)]
    pub fn le(&self, other: &Float64) -> (r: bool)
        ensures
            r == self.spec_le(other),
    {
        let a: u64 = self.magnitude_bits();
        let b: u64 = other.magnitude_bits();
        if a > INFINITY_BITS || b > INFINITY_BITS {
            return false;
        }
        proof {
            lemma_scaled_magnitude_order(a as nat, b as nat);
            lemma_scaled_magnitude_order(b as nat, a as nat);
            lemma_scaled_magnitude_order(0, a as nat);
            lemma_scaled_magnitude_order(0, b as nat);
        }
        if self.is_sign_negative() {
            if other.is_sign_negative() {
                b <= a
            } else {
                true
            }
        } else {
            if other.is_sign_negative() {
                a == 0 && b == 0
            } else {
                a <= b
            }
        }
    }

    /// Compares two numbers on their bits.
    #[verifier::when_used_as_spec(spec_ge)]
    pub fn ge(&self, other: &Float64) -> (r: bool)
        ensures
            r == self.spec_ge(other),
    {
        other.le(self)
    }

    /// The binary64 number equal to the integer `n`. Every `i32` is
    /// representable, so nothing is rounded.
    pub fn from_i32(n: i32) -> (r: Float64)
        ensures
            r.is_integer(n as int),
            r.is_sign_negative() == (n < 0),
    {
        if n == 0 {
            assert(scaled_magnitude(0) == 0);
            return Float64 { bits: 0 };
        }
        let m: u64 = if n < 0 {
            (-(n as i64)) as u64
        } else {
            n as u64
        };
        // `top` becomes the largest power of two that is at most `m`,
        // and `unit` the power of two with `top * unit == 2^52`.
        let mut k: u64 = 0;
        let mut top: u64 = 1;
        let mut unit: u64 = FRACTION_SPAN;
        proof {
            lemma2_to64();
            lemma2_to64_rest();
        }
        while top <= m / 2
            invariant
                0 < m <= 0x8000_0000,
                k <= 31,
                1 <= top <= m,
                top == pow2(k as nat),
                unit == pow2((52 - k) as nat),
                top * unit == FRACTION_SPAN,
                pow2(31) == 0x8000_0000,
            decreases m - top,
        {
            proof {
                lemma_pow2_unfold((k + 1) as nat);
                lemma_pow2_unfold((52 - k) as nat);
                if k >= 31 {
                    lemma_pow2_strictly_increases(31, (k + 1) as nat);
                }
                assert(top * unit == (top * 2) * (unit / 2)) by (nonlinear_arith)
                    requires
                        unit % 2 == 0,
                ;
            }
            top = top * 2;
            unit = unit / 2;
            k = k + 1;
        }
        proof {
            lemma_pow2_pos((52 - k) as nat);
        }
        assert(0 <= (m - top) * unit < top * unit) by (nonlinear_arith)
            requires
                0 <= m - top < top,
                unit > 0,
        ;
        let fraction: u64 = (m - top) * unit;
        let magnitude: u64 = (1023 + k) * FRACTION_SPAN + fraction;
        proof {
            let e = (1023 + k) as nat;
            let p = pow2((e - 1) as nat);
            assert(scaled_magnitude(magnitude as nat) == (FRACTION_SPAN + fraction) * p);
            lemma_pow2_adds((52 - k) as nat, (1022 + k) as nat);
            assert(pow2(1074) == unit * p);
            assert((FRACTION_SPAN + fraction) * p == m * (unit * p)) by (nonlinear_arith)
                requires
                    top * unit == FRACTION_SPAN,
                    fraction == (m - top) * unit,
            ;
            assert(-(m * pow2(1074)) == (-m) * pow2(1074)) by (nonlinear_arith);
        }
        if n < 0 {
            Float64 { bits: SIGN_BIT + magnitude }
        } else {
            Float64 { bits: magnitude }
        }
    }
}

/// A larger pattern stands for a larger number: the order of sign-less bit
/// patterns is the order of the magnitudes, and only the zero pattern stands
/// for zero.
pub proof fn lemma_scaled_magnitude_order(a: nat, b: nat)
    ensures
        a < b ==> scaled_magnitude(a) < scaled_magnitude(b),
        a == b ==> scaled_magnitude(a) == scaled_magnitude(b),
{
    if a < b {
        let span = FRACTION_SPAN as nat;
        let ea = a / span;
        let fa = a % span;
        let eb = b / span;
        let fb = b % span;
        assert(ea <= eb);
        if ea == eb {
            assert(fa < fb);
            if ea > 0 {
                let p = pow2((ea - 1) as nat);
                lemma_pow2_pos((ea - 1) as nat);
                assert((span + fa) * p < (span + fb) * p) by (nonlinear_arith)
                    requires
                        fa < fb,
                        p > 0,
                ;
            }
        } else {
            let pb = pow2((eb - 1) as nat);
            lemma_pow2_pos((eb - 1) as nat);
            assert(span * pb <= (span + fb) * pb) by (nonlinear_arith)
                requires
                    fb >= 0,
                    pb > 0,
            ;
            if ea == 0 {
                assert(span <= span * pb) by (nonlinear_arith)
                    requires
                        pb >= 1,
                ;
            } else {
                let pa = pow2((ea - 1) as nat);
                lemma_pow2_pos((ea - 1) as nat);
                lemma_pow2_unfold(ea);
                if ea < eb - 1 {
                    lemma_pow2_strictly_increases(ea, (eb - 1) as nat);
                }
                assert(pow2(ea) <= pb);
                assert((span + fa) * pa < span * (2 * pa)) by (nonlinear_arith)
                    requires
                        fa < span,
                        pa > 0,
                ;
                assert(span * (2 * pa) <= span * pb) by (nonlinear_arith)
                    requires
                        2 * pa <= pb,
                ;
            }
        }
    }
}

/// A number that stands for an integer between `low` and `high` lies in the
/// range from `low` to `high`.
pub proof fn lemma_integer_in_range(x: Float64, n: int, low: int, high: int)
    requires
        x.is_integer(n),
        low <= n <= high,
    ensures
        x.in_integer_range(low, high),
{
    let unit = pow2(scale_exponent());
    assert(low * unit <= n * unit <= high * unit) by (nonlinear_arith)
        requires
            low <= n <= high,
            unit >= 0,
    ;
}

/// Numbers that stand for integers compare as the integers do.
pub proof fn lemma_integers_compare(x: Float64, n: int, y: Float64, m: int)
    requires
        x.is_integer(n),
        y.is_integer(m),
    ensures
        x.le(&y) <==> n <= m,
        x.ge(&y) <==> n >= m,
{
    let unit = pow2(scale_exponent());
    lemma_pow2_pos(scale_exponent());
    assert(n * unit <= m * unit <==> n <= m) by (nonlinear_arith)
        requires
            unit > 0,
    ;
    assert(m * unit <= n * unit <==> m <= n) by (nonlinear_arith)
        requires
            unit > 0,
    ;
}

/// Two numbers with the same value have the same bits, unless both are zero:
/// `+0` and `-0` differ in the sign bit only.
pub proof fn lemma_equal_values_equal_bits(x: Float64, y: Float64)
    requires
        !x.is_nan(),
        !y.is_nan(),
        x.scaled_value() == y.scaled_value(),
    ensures
        x.magnitude_bits() == y.magnitude_bits(),
        x.bits == y.bits || x.magnitude_bits() == 0,
{
    let a = x.magnitude_bits() as nat;
    let b = y.magnitude_bits() as nat;
    lemma_scaled_magnitude_order(a, b);
    lemma_scaled_magnitude_order(b, a);
    lemma_scaled_magnitude_order(0, a);
    lemma_scaled_magnitude_order(0, b);
}

/// On numbers `le` is a total preorder: any two numbers compare one way or
/// the other, and the comparison is transitive. Nothing compares with a
/// pattern that is not a number, not even itself.
pub proof fn lemma_le_is_total_preorder(x: Float64, y: Float64, z: Float64)
    ensures
        !x.is_nan() && !y.is_nan() ==> x.le(&y) || y.le(&x),
        x.le(&y) && y.le(&z) ==> x.le(&z),
        x.le(&x) <==> !x.is_nan(),
        x.is_nan() || y.is_nan() ==> !x.le(&y) && !x.ge(&y),
{
}

} // verus!

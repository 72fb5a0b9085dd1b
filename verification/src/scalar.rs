//! Scalars as IEEE-754 binary64 bit patterns.
//!
//! The tracer never does arithmetic on a scalar in this crate: it orders
//! scalars, flips their sign and selects among them. All of that is exact on
//! the bit pattern, so callers hand a double over as its 64 bits and get bits
//! back.

use vstd::prelude::*;
use vstd::arithmetic::power2::pow2;

verus! {

/// Lowest bit pattern whose sign bit is set.
pub const SIGN_BIT: u64 = 0x8000_0000_0000_0000;

/// Magnitude of the two infinities; every greater magnitude encodes a NaN.
pub const INFINITY_BITS: u64 = 0x7FF0_0000_0000_0000;

/// Two to the 52nd: the weight of the lowest exponent bit, and the hidden
/// leading bit of a normal number's significand.
pub const HIDDEN_BIT: u64 = 0x0010_0000_0000_0000;

/// A real-valued quantity carried as the 64 bits of an IEEE-754 double.
#[derive(Clone, Copy, PartialEq, Eq, Structural, Debug)]
pub struct Scalar {
    pub bits: u64,
}

impl Scalar {
    /// Whether the sign bit is set. Negative zero has it set and is not
    /// below zero.
    pub open spec fn sign_bit(self) -> bool {
        self.bits >= SIGN_BIT
    }

    /// The bits without the sign: exponent and fraction read as one integer.
    pub open spec fn magnitude(self) -> int {
        if self.sign_bit() {
            self.bits - SIGN_BIT
        } else {
            self.bits as int
        }
    }

    /// The biased exponent: the eleven bits below the sign.
    pub open spec fn exponent(self) -> int {
        self.magnitude() / (HIDDEN_BIT as int)
    }

    /// The fraction: the low 52 bits.
    pub open spec fn fraction(self) -> int {
        self.magnitude() % (HIDDEN_BIT as int)
    }

    /// An all-ones exponent with a non-zero fraction.
    pub open spec fn is_nan(self) -> bool {
        self.magnitude() > INFINITY_BITS
    }

    /// Neither a NaN nor an infinity.
    pub open spec fn spec_is_finite(self) -> bool {
        self.magnitude() < INFINITY_BITS
    }

    /// The integer that stands for the encoded value in comparisons. Among
    /// patterns of one sign a greater magnitude encodes a value farther from
    /// zero, so the signed magnitude orders every non-NaN pattern as its
    /// value, infinities included, and gives both zeros the rank 0.
    pub open spec fn rank(self) -> int {
        if self.sign_bit() {
            -self.magnitude()
        } else {
            self.magnitude()
        }
    }

    /// `self < other` as IEEE-754 defines it: false when either is a NaN.
    pub open spec fn spec_lt(self, other: Scalar) -> bool {
        !self.is_nan() && !other.is_nan() && self.rank() < other.rank()
    }

    /// `self <= other` as IEEE-754 defines it: false when either is a NaN.
    pub open spec fn spec_le(self, other: Scalar) -> bool {
        !self.is_nan() && !other.is_nan() && self.rank() <= other.rank()
    }

    /// `self < 0`: false for both zeros and for a NaN.
    pub open spec fn spec_below_zero(self) -> bool {
        !self.is_nan() && self.rank() < 0
    }

    /// `self > 0`: false for both zeros and for a NaN.
    pub open spec fn spec_above_zero(self) -> bool {
        !self.is_nan() && self.rank() > 0
    }

    /// The pattern with the sign bit flipped.
    pub open spec fn spec_neg(self) -> Scalar {
        if self.sign_bit() {
            Scalar { bits: (self.bits - SIGN_BIT) as u64 }
        } else {
            Scalar { bits: (self.bits + SIGN_BIT) as u64 }
        }
    }

    /// The pattern with the sign bit cleared.
    pub open spec fn spec_abs(self) -> Scalar {
        Scalar { bits: self.magnitude() as u64 }
    }

    /// The value times 256, cut to a whole number and limited to a byte.
    ///
    /// A normal number with biased exponent `e` is
    /// `(2^52 + fraction) * 2^(e - 1075)`. From `e = 1023` on it is at least
    /// one and its byte is 255; below `e = 1015` it is less than 1/256 and
    /// its byte is 0, as it is for every value below zero and for a NaN.
    pub open spec fn spec_quantize(self) -> u8 {
        if self.is_nan() || self.sign_bit() || self.exponent() < 1015 {
            0
        } else if self.exponent() >= 1023 {
            255
        } else {
            ((HIDDEN_BIT + self.fraction()) / (pow2((1067 - self.exponent()) as nat) as int)) as u8
        }
    }

    pub fn from_bits(bits: u64) -> (s: Scalar)
        ensures
            s.bits == bits,
    {
        Scalar { bits }
    }

    /// The rank of a pattern that is no NaN.
    pub fn key(self) -> (k: Option<i64>)
        ensures
            k is None <==> self.is_nan(),
            k matches Some(v) ==> v == self.rank(),
    {
        if self.bits >= SIGN_BIT {
            let magnitude: u64 = self.bits - SIGN_BIT;
            if magnitude > INFINITY_BITS {
                None
            } else {
                Some(-(magnitude as i64))
            }
        } else if self.bits > INFINITY_BITS {
            None
        } else {
            Some(self.bits as i64)
        }
    }

    #[verifier::when_used_as_spec(spec_is_finite)]
    pub fn is_finite(self) -> (r: bool)
        ensures
            r == self.spec_is_finite(),
            r ==> !self.is_nan(),
    {
        if self.bits >= SIGN_BIT {
            self.bits - SIGN_BIT < INFINITY_BITS
        } else {
            self.bits < INFINITY_BITS
        }
    }

    #[verifier::when_used_as_spec(spec_lt)]
    pub fn lt(self, other: Scalar) -> (r: bool)
        ensures
            r == self.spec_lt(other),
    {
        match (self.key(), other.key()) {
            (Some(a), Some(b)) => a < b,
            _ => false,
        }
    }

    #[verifier::when_used_as_spec(spec_le)]
    pub fn le(self, other: Scalar) -> (r: bool)
        ensures
            r == self.spec_le(other),
    {
        match (self.key(), other.key()) {
            (Some(a), Some(b)) => a <= b,
            _ => false,
        }
    }

    #[verifier::when_used_as_spec(spec_below_zero)]
    pub fn below_zero(self) -> (r: bool)
        ensures
            r == self.spec_below_zero(),
    {
        match self.key() {
            Some(k) => k < 0,
            None => false,
        }
    }

    #[verifier::when_used_as_spec(spec_above_zero)]
    pub fn above_zero(self) -> (r: bool)
        ensures
            r == self.spec_above_zero(),
    {
        match self.key() {
            Some(k) => k > 0,
            None => false,
        }
    }

    #[verifier::when_used_as_spec(spec_neg)]
    pub fn neg(self) -> (r: Scalar)
        ensures
            r == self.spec_neg(),
            r.magnitude() == self.magnitude(),
            r.sign_bit() != self.sign_bit(),
            r.is_nan() == self.is_nan(),
            r.rank() == -self.rank(),
    {
        if self.bits >= SIGN_BIT {
            Scalar { bits: self.bits - SIGN_BIT }
        } else {
            Scalar { bits: self.bits + SIGN_BIT }
        }
    }

    /// Scales a channel from the unit interval to a byte: 256 times the
    /// value, fraction dropped, limited to 0 and 255.
    #[verifier::when_used_as_spec(spec_quantize)]
    pub fn quantize(self) -> (byte: u8)
        ensures
            byte == self.spec_quantize(),
    {
        if self.bits >= SIGN_BIT || self.bits > INFINITY_BITS {
            return 0;
        }
        let exponent: u64 = self.bits / HIDDEN_BIT;
        if exponent < 1015 {
            0
        } else if exponent >= 1023 {
            255
        } else {
            let significand: u64 = HIDDEN_BIT + self.bits % HIDDEN_BIT;
            let shift: u64 = 1067 - exponent;
            proof {
                let d = pow2(shift as nat) as int;
                vstd::bits::lemma_u64_shr_is_div(significand, shift);
                vstd::arithmetic::power2::lemma2_to64_rest();
                if shift > 45 {
                    vstd::arithmetic::power2::lemma_pow2_strictly_increases(45, shift as nat);
                }
                assert(significand as int / d < 256) by (nonlinear_arith)
                    requires
                        0 <= significand < 256 * 0x2000_0000_0000,
                        d >= 0x2000_0000_0000,
                ;
            }
            (significand >> shift) as u8
        }
    }

    #[verifier::when_used_as_spec(spec_abs)]
    pub fn abs(self) -> (r: Scalar)
        ensures
            r == self.spec_abs(),
            !r.sign_bit(),
            r.magnitude() == self.magnitude(),
            r.is_nan() == self.is_nan(),
            r.rank() == if self.rank() < 0 { -self.rank() } else { self.rank() },
    {
        if self.bits >= SIGN_BIT {
            Scalar { bits: self.bits - SIGN_BIT }
        } else {
            self
        }
    }
}

/// What `clamp` returns: `min` below it, `max` above it, else `x` itself.
/// A NaN is neither below nor above anything and comes back unchanged.
pub open spec fn clamped(x: Scalar, min: Scalar, max: Scalar) -> Scalar {
    if x.spec_lt(min) {
        min
    } else if max.spec_lt(x) {
        max
    } else {
        x
    }
}

/// Limits `x` to the interval from `min` to `max`.
pub fn clamp(x: Scalar, min: Scalar, max: Scalar) -> (r: Scalar)
    ensures
        r == clamped(x, min, max),
        !x.is_nan() && min.spec_le(max) ==> min.spec_le(r) && r.spec_le(max),
        min.spec_le(x) && x.spec_le(max) ==> r == x,
{
    if x.lt(min) {
        min
    } else if max.lt(x) {
        max
    } else {
        x
    }
}

/// A greater value never becomes a smaller byte.
pub proof fn lemma_quantize_keeps_order(a: Scalar, b: Scalar)
    requires
        a.spec_le(b),
    ensures
        a.spec_quantize() <= b.spec_quantize(),
{
    let h = HIDDEN_BIT as int;
    if !a.sign_bit() && a.exponent() >= 1015 {
        assert(a.magnitude() >= 1015 * h) by (nonlinear_arith)
            requires
                a.magnitude() / h >= 1015,
                h > 0,
        ;
        vstd::arithmetic::div_mod::lemma_div_is_ordered(a.magnitude(), b.magnitude(), h);
        if b.exponent() < 1023 {
            let sa = h + a.fraction();
            let sb = h + b.fraction();
            let da = pow2((1067 - a.exponent()) as nat) as int;
            let db = pow2((1067 - b.exponent()) as nat) as int;
            vstd::arithmetic::power2::lemma2_to64();
            vstd::arithmetic::power2::lemma2_to64_rest();
            vstd::arithmetic::power2::lemma_pow2_pos((1067 - b.exponent()) as nat);
            if a.exponent() < 1022 {
                vstd::arithmetic::power2::lemma_pow2_strictly_increases(
                    45,
                    (1067 - a.exponent()) as nat,
                );
            }
            if b.exponent() < 1022 {
                vstd::arithmetic::power2::lemma_pow2_strictly_increases(
                    45,
                    (1067 - b.exponent()) as nat,
                );
            }
            assert(sa / da < 256 && sb / db < 256) by (nonlinear_arith)
                requires
                    0 <= sa < 256 * 0x2000_0000_0000,
                    0 <= sb < 256 * 0x2000_0000_0000,
                    da >= 0x2000_0000_0000,
                    db >= 0x2000_0000_0000,
            ;
            assert(0 <= sa / da && 0 <= sb / db) by (nonlinear_arith)
                requires
                    0 <= sa,
                    0 <= sb,
                    da > 0,
                    db > 0,
            ;
            if a.exponent() == b.exponent() {
                vstd::arithmetic::div_mod::lemma_fundamental_div_mod(a.magnitude(), h);
                vstd::arithmetic::div_mod::lemma_fundamental_div_mod(b.magnitude(), h);
                vstd::arithmetic::div_mod::lemma_div_is_ordered(sa, sb, da);
            } else {
                vstd::arithmetic::power2::lemma_pow2_adds(
                    (1067 - b.exponent()) as nat,
                    (b.exponent() - a.exponent()) as nat,
                );
                vstd::arithmetic::power2::lemma_pow2_strictly_increases(
                    0,
                    (b.exponent() - a.exponent()) as nat,
                );
                let m = pow2((b.exponent() - a.exponent()) as nat) as int;
                assert(da >= 2 * db) by (nonlinear_arith)
                    requires
                        da == db * m,
                        m >= 2,
                        db > 0,
                ;
                assert(sa / da <= sb / db) by (nonlinear_arith)
                    requires
                        0 <= sa < 2 * h,
                        h <= sb,
                        da >= 2 * db,
                        db > 0,
                ;
            }
        }
    }
}

} // verus!

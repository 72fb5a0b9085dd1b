//! Three scalars: a direction, a point or a colour, by use.

use vstd::prelude::*;
use crate::scalar::Scalar;

verus! {

/// Bits of the double nearest to ten to the minus eight: the bound below
/// which a component counts as zero.
pub const NEAR_ZERO_BITS: u64 = 0x3E45_798E_E230_8C3A;

/// Bits of the double one.
pub const ONE_BITS: u64 = 0x3FF0_0000_0000_0000;

/// A vector, a point or a colour.
#[derive(Clone, Copy, PartialEq, Eq, Structural, Debug)]
pub struct Vec3 {
    pub x: Scalar,
    pub y: Scalar,
    pub z: Scalar,
}

/// Linear red, green and blue in `x`, `y` and `z`.
pub type Color = Vec3;

impl Vec3 {
    /// The vector with every sign bit flipped.
    pub open spec fn spec_neg(self) -> Vec3 {
        Vec3 { x: self.x.spec_neg(), y: self.y.spec_neg(), z: self.z.spec_neg() }
    }

    /// Some component is a NaN.
    pub open spec fn has_nan(self) -> bool {
        self.x.is_nan() || self.y.is_nan() || self.z.is_nan()
    }

    /// Every component is finite: none is a NaN or an infinity.
    pub open spec fn spec_is_finite(self) -> bool {
        self.x.spec_is_finite() && self.y.spec_is_finite() && self.z.spec_is_finite()
    }

    /// No component is above one.
    pub open spec fn at_most_one(self) -> bool {
        &&& self.x.spec_le(Scalar { bits: ONE_BITS })
        &&& self.y.spec_le(Scalar { bits: ONE_BITS })
        &&& self.z.spec_le(Scalar { bits: ONE_BITS })
    }

    pub fn new(x: Scalar, y: Scalar, z: Scalar) -> (v: Vec3)
        ensures
            v == (Vec3 { x, y, z }),
    {
        Vec3 { x, y, z }
    }

    #[verifier::when_used_as_spec(spec_is_finite)]
    pub fn is_finite(self) -> (r: bool)
        ensures
            r == self.spec_is_finite(),
            r ==> !self.has_nan(),
    {
        self.x.is_finite() && self.y.is_finite() && self.z.is_finite()
    }

    #[verifier::when_used_as_spec(spec_neg)]
    pub fn neg(self) -> (v: Vec3)
        ensures
            v == self.spec_neg(),
    {
        Vec3 { x: self.x.neg(), y: self.y.neg(), z: self.z.neg() }
    }
}

/// `|s|` is below the near-zero bound. A NaN is not.
pub open spec fn tiny(s: Scalar) -> bool {
    s.spec_abs().spec_lt(Scalar { bits: NEAR_ZERO_BITS })
}

/// Every component is closer to zero than the near-zero bound.
pub open spec fn spec_near_zero(v: Vec3) -> bool {
    tiny(v.x) && tiny(v.y) && tiny(v.z)
}

/// Whether `v` is too short to serve as a direction: every component is
/// closer to zero than ten to the minus eight.
#[verifier::when_used_as_spec(spec_near_zero)]
pub fn near_zero(v: Vec3) -> (r: bool)
    ensures
        r == spec_near_zero(v),
        r <==> v.x.magnitude() < NEAR_ZERO_BITS && v.y.magnitude() < NEAR_ZERO_BITS
            && v.z.magnitude() < NEAR_ZERO_BITS,
{
    let bound = Scalar { bits: NEAR_ZERO_BITS };
    v.x.abs().lt(bound) && v.y.abs().lt(bound) && v.z.abs().lt(bound)
}

/// A point whose squared length this is lies strictly inside the unit
/// sphere. A NaN does not.
pub open spec fn spec_in_unit_sphere(squared_length: Scalar) -> bool {
    squared_length.spec_lt(Scalar { bits: ONE_BITS })
}

/// Whether a random point is kept as a sample of the unit sphere, given its
/// squared length: points on the surface and beyond are drawn again.
#[verifier::when_used_as_spec(spec_in_unit_sphere)]
pub fn in_unit_sphere(squared_length: Scalar) -> (r: bool)
    ensures
        r == spec_in_unit_sphere(squared_length),
{
    squared_length.lt(Scalar { bits: ONE_BITS })
}

} // verus!

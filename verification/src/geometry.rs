//! Spheres: which root of the ray-sphere quadratic is the hit, and which way
//! the surface faces the ray.
//!
//! A ray `origin + t * direction` meets a sphere where
//! `a * t * t + 2 * half_b * t + c == 0`. The caller solves the quadratic;
//! what follows decides on the results.

use vstd::prelude::*;
use crate::material::Material;
use crate::scalar::Scalar;
use crate::vector::Vec3;

verus! {

/// `t` lies in the closed window from `t_min` to `t_max`: it is neither
/// below the first nor above the second.
pub open spec fn within(t: Scalar, t_min: Scalar, t_max: Scalar) -> bool {
    !t.spec_lt(t_min) && !t_max.spec_lt(t)
}

/// The two real roots of a ray-sphere quadratic, the smaller first.
#[derive(Clone, Copy, PartialEq, Eq, Structural, Debug)]
pub struct Roots {
    near: Scalar,
    far: Scalar,
}

impl Roots {
    pub closed spec fn spec_near(self) -> Scalar {
        self.near
    }

    pub closed spec fn spec_far(self) -> Scalar {
        self.far
    }

    /// Neither root is a NaN and the near one is not the greater.
    #[verifier::type_invariant]
    pub open spec fn ordered(self) -> bool {
        self.spec_near().spec_le(self.spec_far())
    }

    /// Whether a quadratic with leading coefficient `a` and the given
    /// discriminant has `near` and `far` as its roots in this order: `a` is
    /// above zero, the discriminant is not below zero, and `near <= far`.
    pub open spec fn solvable(a: Scalar, discriminant: Scalar, near: Scalar, far: Scalar) -> bool {
        a.spec_above_zero() && !discriminant.spec_below_zero() && near.spec_le(far)
    }

    /// The root that counts as the hit in the window: the near one if it lies
    /// within, else the far one if that does, else none.
    pub open spec fn spec_select(self, t_min: Scalar, t_max: Scalar) -> Option<Scalar> {
        if within(self.spec_near(), t_min, t_max) {
            Some(self.spec_near())
        } else if within(self.spec_far(), t_min, t_max) {
            Some(self.spec_far())
        } else {
            None
        }
    }

    /// Takes the roots that the caller computed for a quadratic, or turns
    /// them down: a ray without direction (`a` not above zero), a negative
    /// discriminant and roots that are NaN or out of order all mean that
    /// there is no intersection.
    pub fn of_quadratic(a: Scalar, discriminant: Scalar, near: Scalar, far: Scalar) -> (r: Option<
        Roots,
    >)
        ensures
            r is Some <==> Roots::solvable(a, discriminant, near, far),
            r matches Some(roots) ==> roots.spec_near() == near && roots.spec_far() == far
                && roots.ordered(),
    {
        if a.above_zero() && !discriminant.below_zero() && near.le(far) {
            Some(Roots { near, far })
        } else {
            None
        }
    }

    #[verifier::when_used_as_spec(spec_near)]
    pub fn near(self) -> (t: Scalar)
        ensures
            t == self.spec_near(),
            self.ordered(),
    {
        proof {
            use_type_invariant(&self);
        }
        self.near
    }

    #[verifier::when_used_as_spec(spec_far)]
    pub fn far(self) -> (t: Scalar)
        ensures
            t == self.spec_far(),
            self.ordered(),
    {
        proof {
            use_type_invariant(&self);
        }
        self.far
    }

    /// Picks the hit among the two roots: always the nearer one that lies in
    /// the window.
    #[verifier::when_used_as_spec(spec_select)]
    pub fn select(self, t_min: Scalar, t_max: Scalar) -> (r: Option<Scalar>)
        ensures
            r == self.spec_select(t_min, t_max),
            within(self.spec_near(), t_min, t_max) ==> r == Some(self.spec_near()),
            !within(self.spec_near(), t_min, t_max) && within(self.spec_far(), t_min, t_max) ==> r
                == Some(self.spec_far()),
            !within(self.spec_near(), t_min, t_max) && !within(self.spec_far(), t_min, t_max)
                ==> r is None,
            r matches Some(t) ==> within(t, t_min, t_max) && !t.is_nan(),
    {
        proof {
            use_type_invariant(&self);
        }
        if !(self.near.lt(t_min) || t_max.lt(self.near)) {
            Some(self.near)
        } else if !(self.far.lt(t_min) || t_max.lt(self.far)) {
            Some(self.far)
        } else {
            None
        }
    }

    /// Lowering the upper end of the window to `closest` changes a selection
    /// only by dropping a root that lies above `closest`.
    pub proof fn lemma_select_narrowed(self, t_min: Scalar, t_max: Scalar, closest: Scalar)
        requires
            self.ordered(),
            closest == t_max || (!closest.is_nan() && !t_max.spec_lt(closest)),
        ensures
            self.spec_select(t_min, closest) == match self.spec_select(t_min, t_max) {
                Some(t) => if closest.spec_lt(t) {
                    None
                } else {
                    Some(t)
                },
                None => None,
            },
    {
    }
}

/// A ray met a surface.
#[derive(Clone, Copy, PartialEq, Eq, Structural, Debug)]
pub struct HitRecord {
    /// Where.
    pub p: Vec3,
    /// The material there.
    pub material: Material,
    /// The surface normal, turned against the ray.
    pub normal: Vec3,
    /// The ray's parameter at `p`.
    pub t: Scalar,
    /// Whether the ray came from outside.
    pub front_face: bool,
}

/// A shape that rays can hit.
#[derive(Clone, Copy, PartialEq, Eq, Structural, Debug)]
pub enum HittableObject {
    Sphere { center: Vec3, radius: Scalar, material: Material },
}

impl HittableObject {
    pub open spec fn spec_material(self) -> Material {
        match self {
            HittableObject::Sphere { center, radius, material } => material,
        }
    }

    /// The radius is above zero and the material is valid.
    pub open spec fn valid(self) -> bool {
        match self {
            HittableObject::Sphere { center, radius, material } => radius.spec_above_zero()
                && material.valid(),
        }
    }

    /// The record of a hit at `p`, where the outward normal is `outward` and
    /// its dot product with the ray's direction is `along_outward`: the ray
    /// comes from outside where that product is below zero, and the normal is
    /// flipped where it does not.
    pub open spec fn spec_hit_record(
        self,
        t: Scalar,
        p: Vec3,
        outward: Vec3,
        along_outward: Scalar,
    ) -> HitRecord {
        HitRecord {
            p,
            material: self.spec_material(),
            normal: if along_outward.spec_below_zero() {
                outward
            } else {
                outward.spec_neg()
            },
            t,
            front_face: along_outward.spec_below_zero(),
        }
    }

    /// A sphere. A radius that is not above zero is a mistake of the caller,
    /// and so is a metal whose fuzziness is not between zero and one.
    pub fn new_sphere(center: Vec3, radius: Scalar, material: Material) -> (object: HittableObject)
        requires
            radius.spec_above_zero(),
            material.valid(),
        ensures
            object == (HittableObject::Sphere { center, radius, material }),
            object.valid(),
    {
        HittableObject::Sphere { center, radius, material }
    }

    /// Whether the object may stand in a scene.
    #[verifier::when_used_as_spec(valid)]
    pub fn is_valid(self) -> (r: bool)
        ensures
            r == self.valid(),
    {
        match self {
            HittableObject::Sphere { center: _, radius, material } => radius.above_zero()
                && material.is_valid(),
        }
    }

    #[verifier::when_used_as_spec(spec_material)]
    pub fn material(self) -> (m: Material)
        ensures
            m == self.spec_material(),
    {
        match self {
            HittableObject::Sphere { center: _, radius: _, material } => material,
        }
    }

    /// Records a hit of this object and turns the normal against the ray.
    #[verifier::when_used_as_spec(spec_hit_record)]
    pub fn hit_record(self, t: Scalar, p: Vec3, outward: Vec3, along_outward: Scalar) -> (hit:
        HitRecord)
        ensures
            hit == self.spec_hit_record(t, p, outward, along_outward),
            hit.front_face <==> along_outward.spec_below_zero(),
            hit.front_face ==> hit.normal == outward,
            !hit.front_face ==> hit.normal == outward.spec_neg(),
    {
        let front_face = along_outward.below_zero();
        HitRecord {
            p,
            material: self.material(),
            normal: if front_face {
                outward
            } else {
                outward.neg()
            },
            t,
            front_face,
        }
    }
}

/// The dot product of the ray's direction with the recorded normal, given
/// that with the outward normal: flipping the normal flips its sign.
pub open spec fn along_recorded(along_outward: Scalar) -> Scalar {
    if along_outward.spec_below_zero() {
        along_outward
    } else {
        along_outward.spec_neg()
    }
}

/// The recorded normal opposes the ray: the direction's dot product with it
/// is never above zero, and it is below zero unless the ray grazes the
/// surface (a product of zero) or the product is a NaN.
pub proof fn lemma_normal_opposes_ray(along_outward: Scalar)
    ensures
        !along_recorded(along_outward).spec_above_zero(),
        !along_outward.is_nan() && along_outward.rank() != 0 ==> along_recorded(
            along_outward,
        ).spec_below_zero(),
{
}

} // verus!

//! Surface materials and what they decide about a scattered ray.

use vstd::prelude::*;
use crate::geometry::HitRecord;
use crate::scalar::Scalar;
use crate::tracing::Ray;
use crate::vector::near_zero;
use crate::vector::spec_near_zero;
use crate::vector::Color;
use crate::vector::Vec3;
use crate::vector::ONE_BITS;

verus! {

/// How a surface answers light.
#[derive(Clone, Copy, PartialEq, Eq, Structural, Debug)]
pub enum Material {
    /// An ideal diffuse reflector.
    Lambertian { albedo: Color },
    /// A mirror, blurred by `fuzziness` between zero and one.
    Metal { albedo: Color, fuzziness: Scalar },
}

/// A scattering event: where it happened, what share of the light goes on,
/// and along which ray.
#[derive(Clone, Copy, PartialEq, Eq, Structural, Debug)]
pub struct MaterialResult {
    pub hit: HitRecord,
    pub attenuation: Color,
    pub scattered: Ray,
}

impl Material {
    /// The share of the incoming light that the surface reflects, by channel.
    pub open spec fn spec_albedo(self) -> Color {
        match self {
            Material::Lambertian { albedo } => albedo,
            Material::Metal { albedo, fuzziness } => albedo,
        }
    }

    /// The fuzziness of a metal lies between zero and one.
    pub open spec fn valid(self) -> bool {
        match self {
            Material::Lambertian { albedo } => true,
            Material::Metal { albedo, fuzziness } => (Scalar { bits: 0 }).spec_le(fuzziness)
                && fuzziness.spec_le(Scalar { bits: ONE_BITS }),
        }
    }

    /// A candidate that cannot serve as a direction: it is near zero, or one
    /// of its components is a NaN or an infinity.
    pub open spec fn degenerate(candidate: Vec3) -> bool {
        spec_near_zero(candidate) || !candidate.spec_is_finite()
    }

    /// The direction in which the surface sends the ray on, if it does.
    ///
    /// A diffuse surface takes the candidate, or the normal where the
    /// candidate is degenerate. A metal takes the candidate where it is
    /// finite and points away from the surface, and absorbs the ray where it
    /// is not finite or `along_normal` is not above zero.
    pub open spec fn spec_direction(
        self,
        normal: Vec3,
        candidate: Vec3,
        along_normal: Scalar,
    ) -> Option<Vec3> {
        match self {
            Material::Lambertian { albedo } => if Material::degenerate(candidate) {
                Some(normal)
            } else {
                Some(candidate)
            },
            Material::Metal { albedo, fuzziness } => if along_normal.spec_above_zero()
                && candidate.spec_is_finite() {
                Some(candidate)
            } else {
                None
            },
        }
    }

    pub open spec fn spec_scatter(
        self,
        hit: HitRecord,
        candidate: Vec3,
        along_normal: Scalar,
    ) -> Option<MaterialResult> {
        match self.spec_direction(hit.normal, candidate, along_normal) {
            Some(direction) => Some(
                MaterialResult {
                    hit,
                    attenuation: self.spec_albedo(),
                    scattered: Ray { origin: hit.p, direction },
                },
            ),
            None => None,
        }
    }

    /// Whether the material is one that the tracer is made for.
    #[verifier::when_used_as_spec(valid)]
    pub fn is_valid(self) -> (r: bool)
        ensures
            r == self.valid(),
    {
        match self {
            Material::Lambertian { albedo: _ } => true,
            Material::Metal { albedo: _, fuzziness } => (Scalar { bits: 0 }).le(fuzziness)
                && fuzziness.le(Scalar { bits: ONE_BITS }),
        }
    }

    #[verifier::when_used_as_spec(spec_albedo)]
    pub fn albedo(self) -> (c: Color)
        ensures
            c == self.spec_albedo(),
    {
        match self {
            Material::Lambertian { albedo } => albedo,
            Material::Metal { albedo, fuzziness: _ } => albedo,
        }
    }

    /// Settles the scattering at `hit`.
    ///
    /// `candidate` is the direction that the material's law proposes: for a
    /// diffuse surface the normal plus a random unit vector, for a metal the
    /// mirrored direction plus `fuzziness` times a random point of the unit
    /// sphere. `along_normal` is the dot product of `candidate` and
    /// `hit.normal`.
    ///
    /// The scattered ray starts at the hit point, and the attenuation is the
    /// albedo: a surface whose albedo is at most one in every channel never
    /// hands on more light than it received.
    ///
    /// No NaN and no infinity becomes a direction: where the normal is
    /// finite, so is the direction of every scattered ray, whatever the
    /// candidate holds. On a diffuse surface the direction is not near zero
    /// either, unless the normal is.
    pub fn scatter(self, hit: HitRecord, candidate: Vec3, along_normal: Scalar) -> (r: Option<
        MaterialResult,
    >)
        ensures
            r == self.spec_scatter(hit, candidate, along_normal),
            r is None <==> self is Metal && !(along_normal.spec_above_zero()
                && candidate.spec_is_finite()),
            r matches Some(m) ==> m.hit == hit && m.scattered.origin == hit.p && m.attenuation
                == self.spec_albedo(),
            r matches Some(m) ==> (self.spec_albedo().at_most_one() ==> m.attenuation.at_most_one()),
            r matches Some(m) ==> (!hit.normal.has_nan() ==> !m.scattered.direction.has_nan()),
            r matches Some(m) ==> (hit.normal.spec_is_finite()
                ==> m.scattered.direction.spec_is_finite()),
            r matches Some(m) ==> (self is Lambertian && !spec_near_zero(hit.normal)
                ==> !spec_near_zero(m.scattered.direction)),
            r matches Some(m) ==> m.scattered.direction == candidate || (self is Lambertian
                && m.scattered.direction == hit.normal),
    {
        match self {
            Material::Lambertian { albedo } => {
                let direction = if near_zero(candidate) || !candidate.is_finite() {
                    hit.normal
                } else {
                    candidate
                };
                Some(MaterialResult { hit, attenuation: albedo, scattered: Ray::new(hit.p, direction) })
            },
            Material::Metal { albedo, fuzziness: _ } => {
                if along_normal.above_zero() && candidate.is_finite() {
                    Some(
                        MaterialResult {
                            hit,
                            attenuation: albedo,
                            scattered: Ray::new(hit.p, candidate),
                        },
                    )
                } else {
                    None
                }
            },
        }
    }
}

} // verus!

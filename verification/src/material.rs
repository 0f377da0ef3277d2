//! Surface materials: the trait a material implements and the decisions the
//! classic models take once their numbers are known.

use vstd::prelude::*;
use ultraviolet::geometry::Ray;
use ultraviolet::vec::Vec3;
use crate::scalar::Scalar;
use crate::world::Surface;

verus! {

/// A rule that turns an incoming ray at a surface point into an attenuated
/// outgoing ray, or absorbs it.
pub trait Material {
    /// Whether `outcome` is among the answers that [`Material::scatter`] may
    /// give. A material may draw random numbers, so one question has many
    /// answers. Left as it is, the model allows every answer.
    open spec fn may_scatter(&self, ray: Ray, surface: Surface, outcome: (bool, Vec3, Ray)) -> bool {
        true
    }

    /// Returns whether the ray is scattered, the per-channel factor applied to
    /// the light that arrives along the outgoing ray, and the outgoing ray.
    fn scatter(&self, ray: &Ray, surface: &Surface) -> (outcome: (bool, Vec3, Ray))
        ensures
            self.may_scatter(*ray, *surface, outcome),
    ;
}

/// Whether a metal scatters. `leaving` is the dot product of the outgoing
/// direction, the mirrored ray with its fuzz added, and the surface normal.
/// The ray is scattered when that direction still points away from the
/// surface, and absorbed otherwise.
pub fn metal_scatters(leaving: Scalar) -> (scattered: bool)
    ensures
        scattered == leaving.positive(),
{
    leaving.is_positive()
}

/// The ratio of refractive indices across the surface of a dielectric with
/// index `index`: the ray enters through a front face, which gives the
/// reciprocal `inverse`, and leaves through a back face.
pub fn refraction_ratio(front: bool, index: Scalar, inverse: Scalar) -> (ratio: Scalar)
    ensures
        ratio == (if front {
            inverse
        } else {
            index
        }),
{
    if front {
        inverse
    } else {
        index
    }
}

/// Whether no refracted ray exists. `bend` is the ratio of refractive indices
/// times the sine of the angle of incidence; by Snell's law it is the sine of
/// the angle of refraction, which cannot exceed one.
pub fn totally_reflected(bend: Scalar) -> (total: bool)
    ensures
        total == (Scalar { bits: 0x3F80_0000 }).below(bend),
{
    bend.gt(Scalar::one())
}

/// Whether a dielectric mirrors a ray that could be refracted: it does when
/// `draw`, a uniform random number of the unit interval, falls below the
/// `reflectance` of the surface at this angle.
pub fn reflects_by_chance(draw: Scalar, reflectance: Scalar) -> (mirrored: bool)
    ensures
        mirrored == draw.below(reflectance),
{
    draw.lt(reflectance)
}

/// A reflectance that is zero or less mirrors no ray, and one above every
/// draw mirrors all of them.
pub proof fn chance_follows_reflectance(draw: Scalar, reflectance: Scalar)
    requires
        (Scalar { bits: 0 }).at_most(draw),
        draw.below(Scalar { bits: 0x3F80_0000 }),
    ensures
        reflectance.at_most(Scalar { bits: 0 }) ==> !draw.below(reflectance),
        (Scalar { bits: 0x3F80_0000 }).at_most(reflectance) ==> draw.below(reflectance),
{
}

} // verus!

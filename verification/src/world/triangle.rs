//! What a triangle decides once the crossing of ray and plane of the triangle
//! is computed.

use vstd::prelude::*;
use crate::scalar::Scalar;

verus! {

/// Where a ray crosses the plane of a triangle, in the triangle's own
/// coordinates: the weights `u` and `v` of the two edges that leave the first
/// vertex, and their sum.
pub struct Barycentric {
    pub u: Scalar,
    pub v: Scalar,
    pub sum: Scalar,
}

impl Barycentric {
    /// Whether the point lies in the triangle: no weight is negative and their
    /// sum does not exceed one.
    pub open spec fn inside(self) -> bool {
        !self.u.negative() && !self.v.negative() && !(Scalar { bits: 0x3F80_0000 }).below(self.sum)
    }

    /// Whether the point lies in the triangle.
    pub fn is_inside(&self) -> (r: bool)
        ensures
            r == self.inside(),
    {
        !self.u.is_negative() && !self.v.is_negative() && !self.sum.gt(Scalar::one())
    }
}

/// Whether the crossing of a ray with the plane of a triangle counts as a
/// hit: the point lies in the triangle, and its ray parameter `t` between the
/// bounds. Either side of the triangle can be hit.
pub open spec fn crosses(at: Barycentric, t: Scalar, t_min: Scalar, t_max: Scalar) -> bool {
    at.inside() && t.within(t_min, t_max)
}

/// The ray parameter of the hit, if the crossing counts as one.
pub fn crossing(at: &Barycentric, t: Scalar, t_min: Scalar, t_max: Scalar) -> (hit: Option<Scalar>)
    ensures
        hit == (if crosses(*at, t, t_min, t_max) {
            Some(t)
        } else {
            None
        }),
        hit matches Some(x) ==> x.within(t_min, t_max),
{
    if at.is_inside() && t.is_within(t_min, t_max) {
        Some(t)
    } else {
        None
    }
}

/// Lowering the upper bound keeps a crossing that counts while it lies at or
/// below the new bound, and brings up none that did not count.
pub proof fn crossing_is_steady(
    at: Barycentric,
    t: Scalar,
    t_min: Scalar,
    t_max: Scalar,
    lower: Scalar,
)
    requires
        lower.at_most(t_max),
    ensures
        crosses(at, t, t_min, lower) <==> crosses(at, t, t_min, t_max) && t.at_most(lower),
{
}

} // verus!

//! What a plane decides once the crossing of ray and plane is computed.

use vstd::prelude::*;
use crate::scalar::Scalar;

verus! {

/// Whether the crossing of a ray with the plane `dot(P, normal) + bias = 0`
/// counts as a hit. `approach` is the dot product of the ray's direction with
/// the plane's normal and `t` the ray parameter of the crossing. A ray that
/// does not run against the normal never hits: the plane has one side.
pub open spec fn crosses(approach: Scalar, t: Scalar, t_min: Scalar, t_max: Scalar) -> bool {
    !(Scalar { bits: 0 }).at_most(approach) && t.within(t_min, t_max)
}

/// The ray parameter of the hit, if the crossing counts as one.
pub fn crossing(approach: Scalar, t: Scalar, t_min: Scalar, t_max: Scalar) -> (hit: Option<Scalar>)
    ensures
        hit == (if crosses(approach, t, t_min, t_max) {
            Some(t)
        } else {
            None
        }),
        hit matches Some(x) ==> x.within(t_min, t_max),
{
    if approach.ge(Scalar::zero()) || !t.is_within(t_min, t_max) {
        None
    } else {
        Some(t)
    }
}

/// A plane is only ever hit from the front: a crossing that counts has a
/// negative approach, or one that is no number.
pub proof fn only_the_front_is_hit(approach: Scalar, t: Scalar, t_min: Scalar, t_max: Scalar)
    requires
        crosses(approach, t, t_min, t_max),
    ensures
        approach.negative() || !approach.is_number(),
{
}

/// Lowering the upper bound keeps a crossing that counts while it lies at or
/// below the new bound, and brings up none that did not count.
pub proof fn crossing_is_steady(
    approach: Scalar,
    t: Scalar,
    t_min: Scalar,
    t_max: Scalar,
    lower: Scalar,
)
    requires
        lower.at_most(t_max),
    ensures
        crosses(approach, t, t_min, lower) <==> crosses(approach, t, t_min, t_max) && t.at_most(
            lower,
        ),
{
}

} // verus!

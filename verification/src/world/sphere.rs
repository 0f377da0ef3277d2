//! What a sphere decides once the quadratic of ray and sphere is solved.

use vstd::prelude::*;
use crate::scalar::Scalar;

verus! {

/// The quadratic `|O + tD - C|^2 = r^2` of a ray and a sphere: its
/// discriminant and, where that is positive, its two solutions.
pub struct Quadratic {
    pub discriminant: Scalar,
    /// The smaller solution.
    pub near: Scalar,
    /// The larger solution.
    pub far: Scalar,
}

impl Quadratic {
    /// Whether the two solutions come in order, as far as both are numbers.
    pub open spec fn ordered(self) -> bool {
        self.near.is_number() && self.far.is_number() ==> self.near.at_most(self.far)
    }

    /// The ray parameter at which the sphere is hit: none unless the
    /// discriminant is positive; then the smaller solution if it lies strictly
    /// between the bounds, else the larger one if that does.
    pub open spec fn selected(self, t_min: Scalar, t_max: Scalar) -> Option<Scalar> {
        if !self.discriminant.positive() {
            None
        } else if self.near.strictly_within(t_min, t_max) {
            Some(self.near)
        } else if self.far.strictly_within(t_min, t_max) {
            Some(self.far)
        } else {
            None
        }
    }

    /// Picks the solution that counts as the hit.
    pub fn select(&self, t_min: Scalar, t_max: Scalar) -> (t: Option<Scalar>)
        ensures
            t == self.selected(t_min, t_max),
            t matches Some(x) ==> x.within(t_min, t_max),
    {
        if !self.discriminant.is_positive() {
            None
        } else if self.near.is_strictly_within(t_min, t_max) {
            Some(self.near)
        } else if self.far.is_strictly_within(t_min, t_max) {
            Some(self.far)
        } else {
            None
        }
    }
}

/// Whether a ray meets a surface from outside. `approach` is the dot product
/// of the ray's direction with the outward normal. Where it is positive the
/// ray is leaving: the back of the surface is hit, and the normal reported
/// with the hit is the outward normal negated. Everywhere else the front is
/// hit.
pub fn faces_front(approach: Scalar) -> (front: bool)
    ensures
        front == !approach.positive(),
{
    !approach.is_positive()
}

/// Lowering the upper bound never brings up another solution: where the two
/// solutions come in order, the selected one is selected again while it lies
/// below the new bound, and nothing is selected once it does not.
pub proof fn selection_is_steady(q: Quadratic, t_min: Scalar, t_max: Scalar, lower: Scalar)
    requires
        q.ordered(),
        lower.at_most(t_max),
    ensures
        q.selected(t_min, t_max) is None ==> q.selected(t_min, lower) is None,
        q.selected(t_min, t_max) matches Some(t) ==> q.selected(t_min, lower) == (if t.below(
            lower,
        ) {
            Some(t)
        } else {
            None
        }),
{
}

} // verus!

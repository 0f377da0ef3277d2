//! Things a ray can hit.

use vstd::prelude::*;
use std::rc::Rc;
use ultraviolet::geometry::Ray;
use ultraviolet::vec::Vec3;
use crate::material::Material;
use crate::scalar::Scalar;

pub mod plane;
pub mod scene;
pub mod sphere;
pub mod triangle;

pub use scene::Scene;

verus! {

/// Where a ray meets a surface.
pub struct Surface {
    /// The ray parameter of the meeting point.
    pub t: Scalar,
    /// The meeting point.
    pub p: Vec3,
    /// The unit normal there, turned against the incoming ray.
    pub normal: Vec3,
    /// Whether the ray came from outside.
    pub front: bool,
}

/// An intersection: the place, and the material found there.
pub struct Hit {
    pub surface: Surface,
    pub material: Rc<dyn Material>,
}

/// A shape, or a collection of shapes, that rays can be tested against.
pub trait Object {
    /// What [`Object::hit`] returns. An object answers the same question the
    /// same way every time, so its answer is a function of the question.
    /// Compiled code never asks the model; an object written without proof
    /// gives it the body of `hit`.
    spec fn hit_model(&self, ray: Ray, t_min: Scalar, t_max: Scalar) -> Option<Hit>;

    /// The intersection of `ray` with this object whose parameter lies
    /// between `t_min` and `t_max`, if there is one.
    fn hit(&self, ray: &Ray, t_min: Scalar, t_max: Scalar) -> (found: Option<Hit>)
        ensures
            found == self.hit_model(*ray, t_min, t_max),
            found matches Some(h) ==> h.surface.t.within(t_min, t_max),
    ;
}

} // verus!

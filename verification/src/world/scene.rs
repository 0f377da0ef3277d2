//! A scene: objects tested one after the other, the nearest hit kept.

use vstd::prelude::*;
use ultraviolet::geometry::Ray;
use crate::scalar::{order_is_total, order_is_transitive, Scalar};
use crate::world::{Hit, Object};

verus! {

/// An ordered collection of objects. It is an object itself, so scenes nest.
pub struct Scene {
    pub objects: Vec<Box<dyn Object>>,
}

/// The upper bound handed to the next object: the parameter of the hit kept
/// so far, or the caller's bound while there is none.
pub open spec fn bound_after(kept: Option<Hit>, t_max: Scalar) -> Scalar {
    match kept {
        Some(h) => h.surface.t,
        None => t_max,
    }
}

/// The hit kept after testing `objects` in order. Each object is asked for a
/// hit no farther than the one kept so far, and a hit it reports replaces the
/// one kept.
pub open spec fn scan(objects: Seq<Box<dyn Object>>, ray: Ray, t_min: Scalar, t_max: Scalar)
    -> Option<Hit>
    decreases objects.len(),
{
    if objects.len() == 0 {
        None
    } else {
        let kept = scan(objects.drop_last(), ray, t_min, t_max);
        match objects.last().hit_model(ray, t_min, bound_after(kept, t_max)) {
            Some(h) => Some(h),
            None => kept,
        }
    }
}

impl Object for Scene {
    open spec fn hit_model(&self, ray: Ray, t_min: Scalar, t_max: Scalar) -> Option<Hit> {
        scan(self.objects@, ray, t_min, t_max)
    }

    fn hit(&self, ray: &Ray, t_min: Scalar, t_max: Scalar) -> (found: Option<Hit>)
        ensures
            self.objects@.len() == 0 ==> found is None,
    {
        let mut closest_hit: Option<Hit> = None;
        let mut closest: Scalar = t_max;
        let mut i: usize = 0;
        while i < self.objects.len()
            invariant
                i <= self.objects.len(),
                closest_hit == scan(self.objects@.take(i as int), *ray, t_min, t_max),
                closest == bound_after(closest_hit, t_max),
                closest_hit matches Some(h) ==> h.surface.t.within(t_min, t_max),
            decreases self.objects.len() - i,
        {
            let found = self.objects[i].hit(ray, t_min, closest);
            proof {
                assert(self.objects@.take(i + 1).drop_last() =~= self.objects@.take(i as int));
            }
            if let Some(h) = found {
                proof {
                    order_is_transitive(h.surface.t, closest, t_max);
                }
                closest = h.surface.t;
                closest_hit = Some(h);
            }
            i += 1;
        }
        proof {
            assert(self.objects@.take(i as int) =~= self.objects@);
        }
        closest_hit
    }
}

/// A scene without objects is never hit.
pub proof fn empty_scene_is_never_hit(scene: Scene, ray: Ray, t_min: Scalar, t_max: Scalar)
    requires
        scene.objects@.len() == 0,
    ensures
        scene.hit_model(ray, t_min, t_max) is None,
{
}

/// Whether the hit that object `i` reports over a range lies in that range.
/// [`Object::hit`] promises it of every hit that is returned.
pub open spec fn in_range(
    objects: Seq<Box<dyn Object>>,
    i: int,
    ray: Ray,
    t_min: Scalar,
    t_max: Scalar,
) -> bool {
    match objects[i].hit_model(ray, t_min, t_max) {
        Some(h) => h.surface.t.within(t_min, t_max),
        None => true,
    }
}

/// The scan reports no hit outside the range it was asked for, provided its
/// objects report none outside theirs.
pub proof fn scan_stays_in_range(
    objects: Seq<Box<dyn Object>>,
    ray: Ray,
    t_min: Scalar,
    t_max: Scalar,
)
    requires
        forall|i: int, bound: Scalar|
            0 <= i < objects.len() ==> #[trigger] in_range(objects, i, ray, t_min, bound),
    ensures
        scan(objects, ray, t_min, t_max) matches Some(kept) ==> kept.surface.t.within(t_min, t_max),
    decreases objects.len(),
{
    if objects.len() > 0 {
        let earlier = objects.drop_last();
        let last = objects.len() - 1;
        assert forall|i: int, bound: Scalar| 0 <= i < earlier.len() implies #[trigger] in_range(
            earlier,
            i,
            ray,
            t_min,
            bound,
        ) by {
            assert(in_range(objects, i, ray, t_min, bound));
        }
        scan_stays_in_range(earlier, ray, t_min, t_max);
        let bound = bound_after(scan(earlier, ray, t_min, t_max), t_max);
        assert(in_range(objects, last, ray, t_min, bound));
        if let Some(h) = objects[last].hit_model(ray, t_min, bound) {
            order_is_transitive(h.surface.t, bound, t_max);
        }
    }
}

/// How object `i` answers when it is asked again with the upper bound lowered
/// from `t_max` to `lower`: its hit is reported again while it lies below the
/// new bound, it is gone once it lies above, and on the bound itself the
/// object may do either. Nothing else is reported in its place.
pub open spec fn steady(
    objects: Seq<Box<dyn Object>>,
    i: int,
    ray: Ray,
    t_min: Scalar,
    t_max: Scalar,
    lower: Scalar,
) -> bool {
    let wide = objects[i].hit_model(ray, t_min, t_max);
    let narrow = objects[i].hit_model(ray, t_min, lower);
    match wide {
        None => narrow is None,
        Some(h) => {
            &&& h.surface.t.below(lower) ==> narrow == wide
            &&& lower.below(h.surface.t) ==> narrow is None
            &&& narrow is None || narrow == wide
        },
    }
}

/// The scan finds the nearest intersection. If every object reports hits in
/// range and is steady under a lowered bound, the hit that the scan keeps is
/// one that some object reports when asked alone over the whole range, and no
/// object reports a nearer one; in particular the scan keeps nothing only if
/// no object reports anything.
pub proof fn scan_finds_the_closest(
    objects: Seq<Box<dyn Object>>,
    ray: Ray,
    t_min: Scalar,
    t_max: Scalar,
)
    requires
        forall|i: int| 0 <= i < objects.len() ==> #[trigger] in_range(objects, i, ray, t_min, t_max),
        forall|i: int, lower: Scalar|
            0 <= i < objects.len() && lower.at_most(t_max) ==> #[trigger] steady(
                objects,
                i,
                ray,
                t_min,
                t_max,
                lower,
            ),
    ensures
        scan(objects, ray, t_min, t_max) matches Some(kept) ==> exists|i: int|
            0 <= i < objects.len() && #[trigger] objects[i].hit_model(ray, t_min, t_max) == Some(
                kept,
            ),
        forall|i: int|
            0 <= i < objects.len() ==> (#[trigger] objects[i].hit_model(ray, t_min, t_max) matches Some(
                h,
            ) ==> scan(objects, ray, t_min, t_max) matches Some(kept) && kept.surface.t.at_most(
                h.surface.t,
            )),
    decreases objects.len(),
{
    if objects.len() > 0 {
        let earlier = objects.drop_last();
        let last = objects.len() - 1;
        assert forall|i: int| 0 <= i < earlier.len() implies #[trigger] in_range(
            earlier,
            i,
            ray,
            t_min,
            t_max,
        ) by {
            assert(in_range(objects, i, ray, t_min, t_max));
        }
        assert forall|i: int, lower: Scalar|
            0 <= i < earlier.len() && lower.at_most(t_max) implies #[trigger] steady(
            earlier,
            i,
            ray,
            t_min,
            t_max,
            lower,
        ) by {
            assert(steady(objects, i, ray, t_min, t_max, lower));
        }
        scan_finds_the_closest(earlier, ray, t_min, t_max);
        let kept = scan(earlier, ray, t_min, t_max);
        let bound = bound_after(kept, t_max);
        let alone = objects[last].hit_model(ray, t_min, t_max);
        let narrowed = objects[last].hit_model(ray, t_min, bound);
        let result = scan(objects, ray, t_min, t_max);
        assert(objects.last() == objects[last]);
        assert(in_range(objects, last, ray, t_min, t_max));
        match kept {
            Some(k) => {
                let w = choose|i: int|
                    0 <= i < earlier.len() && #[trigger] earlier[i].hit_model(ray, t_min, t_max)
                        == Some(k);
                assert(earlier[w] == objects[w]);
                assert(in_range(objects, w, ray, t_min, t_max));
                assert(bound.at_most(t_max));
                assert(steady(objects, last, ray, t_min, t_max, bound));
            },
            None => {
                assert(narrowed == alone);
            },
        }
        assert(narrowed is Some ==> narrowed == alone);
        assert forall|i: int| 0 <= i < objects.len() implies (#[trigger] objects[i].hit_model(
            ray,
            t_min,
            t_max,
        ) matches Some(h) ==> result matches Some(r) && r.surface.t.at_most(h.surface.t)) by {
            if let Some(h) = objects[i].hit_model(ray, t_min, t_max) {
                assert(in_range(objects, i, ray, t_min, t_max));
                if i < last {
                    assert(earlier[i] == objects[i]);
                    let k = kept->0;
                    if let Some(n) = narrowed {
                        order_is_total(n.surface.t, bound);
                        order_is_transitive(n.surface.t, k.surface.t, h.surface.t);
                    }
                } else if narrowed is None {
                    order_is_total(h.surface.t, bound);
                } else {
                    order_is_total(h.surface.t, h.surface.t);
                }
            }
        }
    }
}

} // verus!

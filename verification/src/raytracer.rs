//! Light transport along one ray, and the order in which pixels are drawn.

use vstd::prelude::*;
use ultraviolet::geometry::Ray;
use ultraviolet::vec::Vec3;
use crate::grid::{
    cell, cell_of_its_place, cells, column_of, index_lies_in_grid, index_of, place_of_its_cell,
    row_of,
};
use crate::scalar::Scalar;
use crate::world::Object;

verus! {

/// The pattern of one thousandth, the smallest ray parameter at which a hit
/// counts. Nearer hits are the surface that the ray has just left, found
/// again by rounding.
pub const NEAREST: u32 = 0x3A83_126F;

/// The pattern of the largest finite number, the largest ray parameter at
/// which a hit counts.
pub const FARTHEST: u32 = 0x7F7F_FFFF;

/// The lower bound of every scene query.
pub fn nearest() -> (t: Scalar)
    ensures
        t.bits == NEAREST,
        t.positive(),
{
    Scalar::from_bits(NEAREST)
}

/// The upper bound of every scene query.
pub fn farthest() -> (t: Scalar)
    ensures
        t.bits == FARTHEST,
        nearest_bound().below(t),
{
    Scalar::from_bits(FARTHEST)
}

/// [`nearest`], in contracts.
pub open spec fn nearest_bound() -> Scalar {
    Scalar { bits: NEAREST }
}

/// [`farthest`], in contracts.
pub open spec fn farthest_bound() -> Scalar {
    Scalar { bits: FARTHEST }
}

/// The way of light along one ray, traced backwards from the eye.
///
/// The light that arrives is what the end of the path gives, the background
/// behind the last segment if the path escaped and nothing if it did not,
/// multiplied channel by channel with the filters from the last to the first.
pub struct LightPath {
    /// The rays followed: the ray traced, then one ray per bounce.
    pub segments: Vec<Ray>,
    /// The attenuation picked up at each bounce.
    pub filters: Vec<Vec3>,
    /// Whether the last segment left the scene. A path that did not escape
    /// carries no light.
    pub escaped: bool,
}

impl LightPath {
    /// The number of bounces.
    pub open spec fn bounces(self) -> nat {
        self.filters@.len()
    }

    /// The last segment.
    pub open spec fn end(self) -> Ray {
        self.segments@[self.filters@.len() as int]
    }

    /// Whether the path carries no light, whatever its filters are.
    pub open spec fn black(self) -> bool {
        !self.escaped
    }
}

/// Whether a path goes on after a surface was hit: the material has to
/// scatter the ray, and a bounce has to be left in the budget.
pub fn goes_on(scattered: bool, bounces_left: u32) -> (on: bool)
    ensures
        on == (scattered && bounces_left > 0),
{
    bounces_left > 0 && scattered
}

/// Follows `ray` through `world` for at most `max_depth` bounces.
///
/// Each segment is tested against the world. A segment that hits nothing
/// escapes, and the path ends there. At a hit the material is asked to
/// scatter; the path goes on along the scattered ray as [`goes_on`] says, and
/// ends black otherwise.
///
/// A material may answer one question in many ways, so the path is not a
/// function of the arguments. The contract says that it is a path which the
/// world and its materials allow: every bounce is an answer that the
/// material hit there may give, and a path that ends on a surface ends
/// because the budget is used up or because the material may absorb.
pub fn trace<W: Object + ?Sized>(ray: &Ray, world: &W, max_depth: u32) -> (path: LightPath)
    ensures
        path.segments@.len() == path.filters@.len() + 1,
        path.bounces() <= max_depth,
        path.segments@[0] == *ray,
        forall|i: int|
            0 <= i < path.filters@.len() ==> (#[trigger] world.hit_model(
                path.segments@[i],
                nearest_bound(),
                farthest_bound(),
            ) matches Some(hit) && hit.material.may_scatter(
                path.segments@[i],
                hit.surface,
                (true, path.filters@[i], path.segments@[i + 1]),
            )),
        path.escaped == (world.hit_model(path.end(), nearest_bound(), farthest_bound()) is None),
        world.hit_model(path.end(), nearest_bound(), farthest_bound()) matches Some(hit)
            ==> path.bounces() == max_depth || exists|filter: Vec3, outgoing: Ray|
            #[trigger] hit.material.may_scatter(path.end(), hit.surface, (false, filter, outgoing)),
        world.hit_model(*ray, nearest_bound(), farthest_bound()) is None ==> path.bounces() == 0
            && path.escaped,
        max_depth == 0 && world.hit_model(*ray, nearest_bound(), farthest_bound()) is Some
            ==> path.bounces() == 0 && path.black(),
{
    let mut segments: Vec<Ray> = Vec::new();
    let mut filters: Vec<Vec3> = Vec::new();
    let mut current: Ray = *ray;
    let mut left: u32 = max_depth;
    segments.push(current);
    loop
        invariant
            segments@.len() == filters@.len() + 1,
            filters@.len() + left == max_depth,
            segments@[0] == *ray,
            segments@.last() == current,
            forall|i: int|
                0 <= i < filters@.len() ==> (#[trigger] world.hit_model(
                    segments@[i],
                    nearest_bound(),
                    farthest_bound(),
                ) matches Some(hit) && hit.material.may_scatter(
                    segments@[i],
                    hit.surface,
                    (true, filters@[i], segments@[i + 1]),
                )),
        decreases left,
    {
        match world.hit(&current, nearest(), farthest()) {
            None => {
                return LightPath { segments, filters, escaped: true };
            },
            Some(hit) => {
                let (scattered, attenuation, outgoing) = hit.material.scatter(&current, &hit.surface);
                if goes_on(scattered, left) {
                    filters.push(attenuation);
                    segments.push(outgoing);
                    current = outgoing;
                    left = left - 1;
                } else {
                    return LightPath { segments, filters, escaped: false };
                }
            },
        }
    }
}

/// The pixels of an image, in the order in which a frame is rendered: row by
/// row from the first row, each row from its first column.
pub struct Raster {
    pub width: u32,
    pub height: u32,
}

impl Raster {
    /// The number of pixels of a frame.
    pub fn len(&self) -> (n: u64)
        ensures
            n == self.width * self.height,
    {
        cells(self.width, self.height)
    }

    /// The pixel rendered at place `index` of a frame, as column `x` and row
    /// `y`.
    pub fn pixel(&self, index: u64) -> (at: (u32, u32))
        requires
            index < self.width * self.height,
        ensures
            at.0 == column_of(index as int, self.width as int),
            at.1 == row_of(index as int, self.width as int),
            at.0 < self.width,
            at.1 < self.height,
    {
        cell(index, self.width, self.height)
    }
}

/// A frame draws every pixel once: the pixel in column `x` of row `y` is drawn
/// at place `y * width + x`, which lies in the frame, and at no other place.
pub proof fn every_pixel_is_drawn_once(raster: Raster, x: u32, y: u32)
    requires
        x < raster.width,
        y < raster.height,
    ensures
        0 <= index_of(x as int, y as int, raster.width as int) < raster.width * raster.height,
        column_of(index_of(x as int, y as int, raster.width as int), raster.width as int) == x,
        row_of(index_of(x as int, y as int, raster.width as int), raster.width as int) == y,
        forall|index: int|
            column_of(index, raster.width as int) == x && row_of(index, raster.width as int) == y
                ==> index == index_of(x as int, y as int, raster.width as int),
{
    let width = raster.width as int;
    index_lies_in_grid(x as int, y as int, width, raster.height as int);
    cell_of_its_place(x as int, y as int, width);
    assert forall|index: int| column_of(index, width) == x && row_of(index, width) == y implies index
        == index_of(x as int, y as int, width) by {
        place_of_its_cell(index, width);
    }
}

} // verus!

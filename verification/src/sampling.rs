//! Antialiasing: through which points of a pixel its rays are sent.

use vstd::prelude::*;
use crate::grid::{cell, cell_lies_in_grid, cell_of_its_place, cells, column_of, index_of, row_of};

verus! {

/// Where in a pixel a ray passes, measured from the pixel's own coordinates.
#[derive(Clone, Copy, Debug, PartialEq, Eq, Structural)]
pub enum Jitter {
    /// The point `k / n` of a pixel's width to the right and `l / n` of its
    /// height down.
    Fixed { k: u32, l: u32, n: u32 },
    /// A point drawn uniformly at random from the pixel, for each ray anew.
    Random,
}

/// A policy for the rays of one pixel. The colour of the pixel is the
/// arithmetic mean of what arrives along its rays, taken in their order.
pub trait SamplingStrategy {
    /// The number of rays per pixel.
    spec fn rays(&self) -> nat;

    /// Where ray `index` passes.
    spec fn point(&self, index: nat) -> Jitter;

    /// The number of rays per pixel.
    fn samples(&self) -> (n: u64)
        ensures
            n == self.rays(),
    ;

    /// Where ray `index` of a pixel passes.
    fn sample(&self, index: u64) -> (at: Jitter)
        requires
            index < self.rays(),
        ensures
            at == self.point(index as nat),
    ;
}

/// The pixel's own coordinates, without any offset.
pub open spec fn unmoved() -> Jitter {
    Jitter::Fixed { k: 0, l: 0, n: 1 }
}

/// One ray per pixel.
pub struct BasicSS;

impl SamplingStrategy for BasicSS {
    open spec fn rays(&self) -> nat {
        1
    }

    open spec fn point(&self, index: nat) -> Jitter {
        unmoved()
    }

    fn samples(&self) -> (n: u64) {
        1
    }

    fn sample(&self, index: u64) -> (at: Jitter) {
        Jitter::Fixed { k: 0, l: 0, n: 1 }
    }
}

/// `quant` rays per pixel, each through a point drawn at random.
pub struct MontecarloSS {
    pub quant: u32,
}

impl MontecarloSS {
    pub fn new(quant: u32) -> (strategy: Self)
        ensures
            strategy.quant == quant,
    {
        MontecarloSS { quant }
    }
}

impl SamplingStrategy for MontecarloSS {
    open spec fn rays(&self) -> nat {
        self.quant as nat
    }

    open spec fn point(&self, index: nat) -> Jitter {
        Jitter::Random
    }

    fn samples(&self) -> (n: u64) {
        self.quant as u64
    }

    fn sample(&self, index: u64) -> (at: Jitter) {
        Jitter::Random
    }
}

/// A grid of `sqrt_quant` by `sqrt_quant` rays per pixel. The pixel is cut
/// into that many columns and rows, and ray `(k, l)` passes `k` columns to the
/// right and `l` rows below the pixel's own coordinates. The rays are sent
/// column by column.
pub struct OversamplingSS {
    pub sqrt_quant: u32,
}

impl OversamplingSS {
    pub fn new(sqrt_quant: u32) -> (strategy: Self)
        ensures
            strategy.sqrt_quant == sqrt_quant,
    {
        OversamplingSS { sqrt_quant }
    }
}

impl SamplingStrategy for OversamplingSS {
    open spec fn rays(&self) -> nat {
        (self.sqrt_quant * self.sqrt_quant) as nat
    }

    open spec fn point(&self, index: nat) -> Jitter {
        Jitter::Fixed {
            k: row_of(index as int, self.sqrt_quant as int) as u32,
            l: column_of(index as int, self.sqrt_quant as int) as u32,
            n: self.sqrt_quant,
        }
    }

    fn samples(&self) -> (n: u64) {
        cells(self.sqrt_quant, self.sqrt_quant)
    }

    fn sample(&self, index: u64) -> (at: Jitter) {
        let (l, k): (u32, u32) = cell(index, self.sqrt_quant, self.sqrt_quant);
        Jitter::Fixed { k, l, n: self.sqrt_quant }
    }
}

/// A grid of one by one is a single ray: it sends the same number of rays
/// through the same points as [`BasicSS`] does.
pub proof fn grid_of_one_is_a_single_sample(grid: OversamplingSS, index: nat)
    requires
        grid.sqrt_quant == 1,
    ensures
        grid.rays() == BasicSS.rays(),
        index < grid.rays() ==> grid.point(index) == BasicSS.point(index),
{
}

/// The grid sends one ray through each of its cells: ray `k * n + l` passes
/// `k / n` to the right and `l / n` down, for every `k` and `l` below `n`,
/// and these are all the rays there are.
pub proof fn grid_visits_each_cell_once(grid: OversamplingSS, k: u32, l: u32)
    requires
        k < grid.sqrt_quant,
        l < grid.sqrt_quant,
    ensures
        index_of(l as int, k as int, grid.sqrt_quant as int) < grid.rays(),
        grid.point(index_of(l as int, k as int, grid.sqrt_quant as int) as nat) == (Jitter::Fixed {
            k,
            l,
            n: grid.sqrt_quant,
        }),
{
    let n = grid.sqrt_quant as int;
    crate::grid::index_lies_in_grid(l as int, k as int, n, n);
    cell_of_its_place(l as int, k as int, n);
}

/// Every ray of the grid passes through a cell of the grid.
pub proof fn grid_rays_stay_in_the_pixel(grid: OversamplingSS, index: nat)
    requires
        index < grid.rays(),
    ensures
        grid.point(index) matches Jitter::Fixed { k, l, n } && k < n && l < n && n
            == grid.sqrt_quant && index == index_of(l as int, k as int, n as int),
{
    let n = grid.sqrt_quant as int;
    assert(n > 0) by (nonlinear_arith)
        requires
            0 <= n,
            0 <= index < n * n,
    ;
    cell_lies_in_grid(index as int, n, n);
    crate::grid::place_of_its_cell(index as int, n);
}

} // verus!

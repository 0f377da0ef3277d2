//! Counting through a rectangular grid row by row.
//!
//! Pixels of an image and sub-pixel samples of a pixel are both visited in
//! this order: all columns of the first row, then all columns of the second,
//! and so on. The place in that order and the cell determine each other.

use vstd::prelude::*;
use vstd::arithmetic::div_mod::{
    lemma_fundamental_div_mod,
    lemma_fundamental_div_mod_converse,
    lemma_mod_pos_bound,
    lemma_multiply_divide_lt,
    lemma_div_pos_is_pos,
};

verus! {

/// The column of the cell visited at place `index` in a grid `width` wide.
pub open spec fn column_of(index: int, width: int) -> int {
    index % width
}

/// The row of the cell visited at place `index` in a grid `width` wide.
pub open spec fn row_of(index: int, width: int) -> int {
    index / width
}

/// The place at which the cell in column `column` of row `row` is visited.
pub open spec fn index_of(column: int, row: int, width: int) -> int {
    row * width + column
}

/// Every place below `width * height` is a cell of the grid.
pub proof fn cell_lies_in_grid(index: int, width: int, height: int)
    requires
        0 < width,
        0 <= index < width * height,
    ensures
        0 <= column_of(index, width) < width,
        0 <= row_of(index, width) < height,
{
    lemma_mod_pos_bound(index, width);
    lemma_div_pos_is_pos(index, width);
    lemma_multiply_divide_lt(index, width, height);
}

/// Every cell of the grid has a place below `width * height`.
pub proof fn index_lies_in_grid(column: int, row: int, width: int, height: int)
    requires
        0 <= column < width,
        0 <= row < height,
    ensures
        0 <= index_of(column, row, width) < width * height,
{
    assert(0 <= row * width) by (nonlinear_arith)
        requires
            0 <= row,
            0 < width,
    ;
    assert(row * width + width <= width * height) by (nonlinear_arith)
        requires
            row + 1 <= height,
            0 < width,
    ;
}

/// The cell visited at a place is visited at that place.
pub proof fn place_of_its_cell(index: int, width: int)
    requires
        0 < width,
    ensures
        index_of(column_of(index, width), row_of(index, width), width) == index,
{
    lemma_fundamental_div_mod(index, width);
    assert(width * (index / width) == (index / width) * width) by (nonlinear_arith);
}

/// The place of a cell is where that cell is visited, and no other.
pub proof fn cell_of_its_place(column: int, row: int, width: int)
    requires
        0 <= column < width,
    ensures
        column_of(index_of(column, row, width), width) == column,
        row_of(index_of(column, row, width), width) == row,
{
    lemma_fundamental_div_mod_converse(index_of(column, row, width), width, row, column);
}

/// The order is row by row: after a cell comes its right neighbour, and after
/// the last cell of a row the first cell of the next row.
pub proof fn rows_follow_each_other(index: int, width: int)
    requires
        0 < width,
        0 <= index,
    ensures
        column_of(index, width) + 1 < width ==> column_of(index + 1, width) == column_of(
            index,
            width,
        ) + 1 && row_of(index + 1, width) == row_of(index, width),
        column_of(index, width) + 1 == width ==> column_of(index + 1, width) == 0 && row_of(
            index + 1,
            width,
        ) == row_of(index, width) + 1,
{
    let column = column_of(index, width);
    let row = row_of(index, width);
    place_of_its_cell(index, width);
    lemma_mod_pos_bound(index, width);
    if column + 1 < width {
        lemma_fundamental_div_mod_converse(index + 1, width, row, column + 1);
    } else {
        assert((row + 1) * width + 0 == row * width + width) by (nonlinear_arith);
        lemma_fundamental_div_mod_converse(index + 1, width, row + 1, 0);
    }
}

/// The cell visited at place `index`, as column and row.
pub fn cell(index: u64, width: u32, height: u32) -> (at: (u32, u32))
    requires
        index < width * height,
    ensures
        at.0 == column_of(index as int, width as int),
        at.1 == row_of(index as int, width as int),
        at.0 < width,
        at.1 < height,
{
    proof {
        assert(width > 0) by (nonlinear_arith)
            requires
                0 <= index < width * height,
                0 <= height,
        ;
        cell_lies_in_grid(index as int, width as int, height as int);
    }
    let wide: u64 = width as u64;
    ((index % wide) as u32, (index / wide) as u32)
}

/// The number of cells.
pub fn cells(width: u32, height: u32) -> (n: u64)
    ensures
        n == width * height,
{
    proof {
        assert(width * height <= 0xFFFF_FFFF * 0xFFFF_FFFF) by (nonlinear_arith)
            requires
                0 <= width <= 0xFFFF_FFFF,
                0 <= height <= 0xFFFF_FFFF,
        ;
    }
    (width as u64) * (height as u64)
}

} // verus!

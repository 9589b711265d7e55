//! The Display Stage's cell arithmetic: one quad instance per grid cell,
//! placed by decomposing the instance index, and colored by the cell state.

use vstd::prelude::*;
use vstd::arithmetic::div_mod::{lemma_fundamental_div_mod, lemma_mod_bound};

verus! {

/// Vertices drawn per cell: two triangles covering one unit quad.
pub const VERTICES_PER_CELL: u32 = 6;

/// The cell a draw instance stands for: instance `i` is the cell at column
/// `i % width`, row `i / width`, the inverse of the row-major cell index.
pub fn instance_cell(i: u32, width: u32) -> (cr: (u32, u32))
    requires
        width >= 1,
    ensures
        cr.0 == i % width,
        cr.1 == i / width,
        cr.0 < width,
        i == cr.1 * width + cr.0,
{
    proof {
        lemma_fundamental_div_mod(i as int, width as int);
        lemma_mod_bound(i as int, width as int);
        vstd::arithmetic::mul::lemma_mul_is_commutative(width as int, i as int / width as int);
    }
    (i % width, i / width)
}

/// Number of quad instances drawn for a grid of side `n`: one per cell.
pub fn instance_count(n: u32) -> (count: u32)
    requires
        n * n <= u32::MAX,
    ensures
        count == n * n,
{
    n * n
}

/// The flat color a cell is rasterized with: alive cells render as opaque
/// white, dead cells as black, with no interpolation or shading.
pub fn cell_color(state: u32) -> (rgb: (u8, u8, u8))
    requires
        state <= 1,
    ensures
        state == 1 ==> rgb == (255u8, 255u8, 255u8),
        state == 0 ==> rgb == (0u8, 0u8, 0u8),
{
    if state == 1 {
        (255, 255, 255)
    } else {
        (0, 0, 0)
    }
}

} // verus!

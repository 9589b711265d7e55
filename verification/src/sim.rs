//! The Simulation Stage: one generation step, executed as a grid of
//! independent per-cell updates dispatched in 8x8 tiles, exactly covering
//! the grid and never writing out of bounds.

use vstd::prelude::*;
use vstd::pervasive::VecAdditionalExecFns;
use vstd::arithmetic::div_mod::{lemma_fundamental_div_mod, lemma_mod_bound, lemma_multiply_divide_lt};
use crate::grid::{
    cell_index, cells_wf, lemma_index_bijection, lemma_step_cells_wf, neighbor_count, read_cell,
    grid_index, step_cells,
};
use crate::rule::next_cell_state;

verus! {

/// Cells per tile along each axis of the dispatch grid.
pub const TILE_SIZE: u32 = 8;

/// How many 8-cell tiles are needed along one axis to cover `n` cells:
/// the ceiling of n / 8.
pub open spec fn tile_count(n: int) -> int {
    (n + 7) / 8
}

/// Number of tiles dispatched along each axis for a grid of side `n`.
/// The tiles cover the axis (`8 * t >= n`) and the last tile is not wholly
/// outside it (`8 * (t - 1) < n`).
pub fn workgroup_count(n: u32) -> (t: u32)
    requires
        n >= 1,
    ensures
        t == tile_count(n as int),
        8 * t >= n,
        8 * (t - 1) < n,
{
    (n - 1) / 8 + 1
}

/// One invocation of the simulation program, at dispatch coordinate
/// (column `x`, row `y`). An in-bounds invocation writes the stepped state
/// of its one cell into `write`; an out-of-bounds invocation (a tile
/// overshooting the grid) writes nothing. Only `read` is ever read.
pub fn simulate_cell(read: &Vec<u32>, n: usize, y: usize, x: usize, write: &mut Vec<u32>)
    requires
        cells_wf(read@, n as int),
        old(write)@.len() == read@.len(),
    ensures
        final(write)@.len() == old(write)@.len(),
        x < n && y < n ==> final(write)@ == old(write)@.update(
            cell_index(n as int, y as int, x as int),
            step_cells(read@, n as int)[cell_index(n as int, y as int, x as int)],
        ),
        !(x < n && y < n) ==> final(write)@ == old(write)@,
{
    if x < n && y < n {
        proof {
            lemma_index_bijection(n as int, y as int, x as int);
        }
        let state = read_cell(read, n, y, x);
        let count = neighbor_count(read, n, y, x);
        let next = next_cell_state(state, count);
        let _grid_area = read.len();
        assert(n * n <= usize::MAX);
        let i = grid_index(n, y, x);
        write.set(i, next);
    }
}

/// One full generation: dispatch the per-cell update over every coordinate
/// of the tile cover of the grid, reading the previous generation from
/// `read` and writing the next one into `write`.
pub fn simulate_step(read: &Vec<u32>, n: usize, write: &mut Vec<u32>)
    requires
        cells_wf(read@, n as int),
        old(write)@.len() == read@.len(),
    ensures
        final(write)@ == step_cells(read@, n as int),
        cells_wf(final(write)@, n as int),
{
    let _grid_area = read.len();
    assert(n * n <= usize::MAX);
    assert(n + 7 <= usize::MAX) by {
        if n >= 8 {
            assert(n + 7 <= n * n) by (nonlinear_arith)
                requires
                    n >= 8,
            ;
        }
    }
    let tiles: usize = (n - 1) / 8 + 1;
    let limit: usize = 8 * tiles;
    assert(limit >= n);
    let ghost target: Seq<u32> = step_cells(read@, n as int);
    let ghost nn: int = n as int;
    let mut y: usize = 0;
    while y < limit
        invariant
            cells_wf(read@, nn),
            nn == n as int,
            target == step_cells(read@, nn),
            write@.len() == read@.len(),
            n <= limit,
            forall|i: int| 0 <= i < write@.len() && i / nn < y ==> write@[i] == target[i],
        decreases limit - y,
    {
        let mut x: usize = 0;
        while x < limit
            invariant
                cells_wf(read@, nn),
                nn == n as int,
                target == step_cells(read@, nn),
                write@.len() == read@.len(),
                y < limit,
                forall|i: int| 0 <= i < write@.len() && i / nn < y ==> write@[i] == target[i],
                forall|i: int|
                    0 <= i < write@.len() && i / nn == y && i % nn < x ==> write@[i] == target[i],
            decreases limit - x,
        {
            simulate_cell(read, n, y, x, write);
            proof {
                if x < n && y < n {
                    lemma_index_bijection(nn, y as int, x as int);
                }
                assert forall|i: int|
                    0 <= i < write@.len() && i / nn == y && i % nn < x + 1
                    implies write@[i] == target[i] by {
                    lemma_fundamental_div_mod(i, nn);
                    lemma_mod_bound(i, nn);
                    if i % nn == x {
                        if x < n && y < n {
                            assert(i == cell_index(nn, y as int, x as int));
                        } else {
                            lemma_multiply_divide_lt(i, nn, nn);
                        }
                    }
                }
            }
            x = x + 1;
        }
        y = y + 1;
    }
    proof {
        assert forall|i: int| 0 <= i < write@.len() implies write@[i] == target[i] by {
            lemma_multiply_divide_lt(i, nn, nn);
        }
        assert(write@ =~= target);
        lemma_step_cells_wf(read@, nn);
    }
}

} // verus!

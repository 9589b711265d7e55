//! The grid of cells: row-major layout, toroidal addressing, and the
//! generation-step function over whole grids.

use vstd::prelude::*;
use vstd::arithmetic::div_mod::{lemma_fundamental_div_mod_converse, lemma_small_mod};
use crate::rule::rule_next;

verus! {

/// Row-major index of the cell at row `r`, column `c` in a grid of side `n`.
pub open spec fn cell_index(n: int, r: int, c: int) -> int {
    r * n + c
}

/// Toroidal coordinate arithmetic: coordinate `i` moved by offset `d`
/// (one of -1, 0, 1), wrapping at the grid side `n`, written as the
/// dimension-shifted remainder `(i + n + d) % n` so that the left neighbor
/// of coordinate 0 is `n - 1` and the right neighbor of `n - 1` is 0.
pub open spec fn wrap_offset(i: int, d: int, n: int) -> int {
    (i + n + d) % n
}

/// The state (0 or 1, as a mathematical integer) of the cell at (r, c).
pub open spec fn cell_at(cells: Seq<u32>, n: int, r: int, c: int) -> int {
    cells[cell_index(n, r, c)] as int
}

/// The state of the toroidal neighbor of (r, c) at offset (dr, dc).
pub open spec fn neighbor_at(cells: Seq<u32>, n: int, r: int, c: int, dr: int, dc: int) -> int {
    cell_at(cells, n, wrap_offset(r, dr, n), wrap_offset(c, dc, n))
}

/// How many of the 8 toroidal neighbors of (r, c) are alive.
pub open spec fn live_neighbors(cells: Seq<u32>, n: int, r: int, c: int) -> int {
    neighbor_at(cells, n, r, c, -1, -1)
        + neighbor_at(cells, n, r, c, -1, 0)
        + neighbor_at(cells, n, r, c, -1, 1)
        + neighbor_at(cells, n, r, c, 0, -1)
        + neighbor_at(cells, n, r, c, 0, 1)
        + neighbor_at(cells, n, r, c, 1, -1)
        + neighbor_at(cells, n, r, c, 1, 0)
        + neighbor_at(cells, n, r, c, 1, 1)
}

/// A well-formed cell buffer for a square grid of side `n`: exactly `n * n`
/// entries, each either 0 (dead) or 1 (alive).
pub open spec fn cells_wf(cells: Seq<u32>, n: int) -> bool {
    &&& n >= 1
    &&& cells.len() == n * n
    &&& forall|i: int| 0 <= i < cells.len() ==> cells[i] <= 1
}

/// The next generation of a whole grid: every cell is rewritten by the step
/// rule applied to its current state and its 8-neighbor count.
pub open spec fn step_cells(cells: Seq<u32>, n: int) -> Seq<u32> {
    Seq::new(cells.len(), |i: int| rule_next(cells[i], live_neighbors(cells, n, i / n, i % n)))
}

/// Moving by offset 0 leaves a coordinate in 0..n unchanged: `(i + n) % n == i`.
pub proof fn lemma_wrap_zero(i: int, n: int)
    requires
        n >= 1,
        0 <= i < n,
    ensures
        wrap_offset(i, 0, n) == i,
{
    lemma_fundamental_div_mod_converse(i + n, n, 1, i);
}

/// Row-major indexing is a bijection between coordinate pairs and indices:
/// the index of (r, c) lies within the grid and decomposes back into r and c
/// by division and remainder.
pub proof fn lemma_index_bijection(n: int, r: int, c: int)
    requires
        n >= 1,
        0 <= r < n,
        0 <= c < n,
    ensures
        0 <= cell_index(n, r, c) < n * n,
        cell_index(n, r, c) / n == r,
        cell_index(n, r, c) % n == c,
{
    lemma_fundamental_div_mod_converse(r * n + c, n, r, c);
    assert(r * n + c < n * n) by (nonlinear_arith)
        requires
            0 <= r < n,
            0 <= c < n,
    ;
}

/// Toroidal addressing wraps at every edge: the neighbor offsets reach the
/// opposite edge from coordinate 0 and from coordinate n - 1, and every
/// wrapped coordinate stays inside the grid. In particular the neighbors of
/// cell (0, 0) include (n-1, n-1), (n-1, 0) and (0, n-1).
pub proof fn lemma_toroidal_wrap(n: int)
    requires
        n >= 1,
    ensures
        wrap_offset(0, -1, n) == n - 1,
        wrap_offset(n - 1, 1, n) == 0,
        forall|i: int|
            0 <= i < n ==> #[trigger] wrap_offset(i, -1, n) == (if i == 0 { n - 1 } else { i - 1 }),
        forall|i: int|
            0 <= i < n ==> #[trigger] wrap_offset(i, 1, n) == (if i == n - 1 { 0 } else { i + 1 }),
        forall|i: int, d: int|
            0 <= i < n && -1 <= d <= 1 ==> 0 <= #[trigger] wrap_offset(i, d, n) < n,
{
    assert forall|i: int, d: int|
        0 <= i < n && -1 <= d <= 1 implies 0 <= #[trigger] wrap_offset(i, d, n) < n by {
        lemma_wrap_cases(i, d, n);
    }
    assert forall|i: int|
        0 <= i < n implies #[trigger] wrap_offset(i, -1, n) == (if i == 0 { n - 1 } else { i - 1 }) by {
        lemma_wrap_cases(i, -1, n);
    }
    assert forall|i: int|
        0 <= i < n implies #[trigger] wrap_offset(i, 1, n) == (if i == n - 1 { 0 } else { i + 1 }) by {
        lemma_wrap_cases(i, 1, n);
    }
    lemma_wrap_cases(0, -1, n);
    lemma_wrap_cases(n - 1, 1, n);
}

/// The wrapped coordinate written out by cases: the shifted remainder
/// subtracts one grid side from `i + n + d` when that sum reaches `n`,
/// and two when it reaches `2n` (only the right neighbor of `n - 1`).
pub proof fn lemma_wrap_cases(i: int, d: int, n: int)
    requires
        n >= 1,
        0 <= i < n,
        -1 <= d <= 1,
    ensures
        wrap_offset(i, d, n) == if i + d < 0 {
            i + d + n
        } else if i + d < n {
            i + d
        } else {
            i + d - n
        },
        0 <= wrap_offset(i, d, n) < n,
{
    let x: int = i + n + d;
    if x < n {
        lemma_small_mod(x as nat, n as nat);
    } else if x < 2 * n {
        lemma_fundamental_div_mod_converse(x, n, 1, x - n);
    } else {
        lemma_fundamental_div_mod_converse(x, n, 2, x - 2 * n);
    }
}

/// The 8 neighbors of the corner cell (0, 0) include the three cells on the
/// opposite edges, as toroidal addressing demands.
pub proof fn lemma_corner_neighbors(cells: Seq<u32>, n: int)
    requires
        n >= 1,
    ensures
        neighbor_at(cells, n, 0, 0, -1, -1) == cell_at(cells, n, n - 1, n - 1),
        neighbor_at(cells, n, 0, 0, -1, 0) == cell_at(cells, n, n - 1, 0),
        neighbor_at(cells, n, 0, 0, 0, -1) == cell_at(cells, n, 0, n - 1),
{
    lemma_toroidal_wrap(n);
    lemma_wrap_zero(0, n);
}

/// Stepping a well-formed grid yields a well-formed grid of the same side.
pub proof fn lemma_step_cells_wf(cells: Seq<u32>, n: int)
    requires
        cells_wf(cells, n),
    ensures
        cells_wf(step_cells(cells, n), n),
        step_cells(cells, n).len() == cells.len(),
{
    assert forall|i: int| 0 <= i < step_cells(cells, n).len()
        implies step_cells(cells, n)[i] <= 1 by {
        assert(step_cells(cells, n)[i] == rule_next(cells[i], live_neighbors(cells, n, i / n, i % n)));
    }
}

/// The step rule is deterministic: equal grids step to equal grids.
pub proof fn lemma_step_deterministic(a: Seq<u32>, b: Seq<u32>, n: int)
    requires
        a == b,
    ensures
        step_cells(a, n) == step_cells(b, n),
{
}

/// The step rule is local: the next state of cell (r, c) depends only on the
/// 3x3 toroidal neighborhood of (r, c), so two grids that agree there step
/// to the same state at (r, c).
pub proof fn lemma_step_local(a: Seq<u32>, b: Seq<u32>, n: int, r: int, c: int)
    requires
        cells_wf(a, n),
        cells_wf(b, n),
        0 <= r < n,
        0 <= c < n,
        forall|dr: int, dc: int|
            -1 <= dr <= 1 && -1 <= dc <= 1 ==>
                #[trigger] neighbor_at(a, n, r, c, dr, dc) == neighbor_at(b, n, r, c, dr, dc),
    ensures
        step_cells(a, n)[cell_index(n, r, c)] == step_cells(b, n)[cell_index(n, r, c)],
{
    lemma_index_bijection(n, r, c);
    lemma_wrap_zero(r, n);
    lemma_wrap_zero(c, n);
    let i: int = cell_index(n, r, c);
    assert(neighbor_at(a, n, r, c, 0, 0) == neighbor_at(b, n, r, c, 0, 0));
    assert(a[i] == b[i]);
    assert(neighbor_at(a, n, r, c, -1, -1) == neighbor_at(b, n, r, c, -1, -1));
    assert(neighbor_at(a, n, r, c, -1, 0) == neighbor_at(b, n, r, c, -1, 0));
    assert(neighbor_at(a, n, r, c, -1, 1) == neighbor_at(b, n, r, c, -1, 1));
    assert(neighbor_at(a, n, r, c, 0, -1) == neighbor_at(b, n, r, c, 0, -1));
    assert(neighbor_at(a, n, r, c, 0, 1) == neighbor_at(b, n, r, c, 0, 1));
    assert(neighbor_at(a, n, r, c, 1, -1) == neighbor_at(b, n, r, c, 1, -1));
    assert(neighbor_at(a, n, r, c, 1, 0) == neighbor_at(b, n, r, c, 1, 0));
    assert(neighbor_at(a, n, r, c, 1, 1) == neighbor_at(b, n, r, c, 1, 1));
    assert(live_neighbors(a, n, r, c) == live_neighbors(b, n, r, c));
}

/// On a 1x1 torus every neighbor offset reaches the single cell itself, so
/// its neighbor count is 0 when it is dead and 8 when it is alive; neither
/// lets it live, and the grid is all-dead after one step.
pub proof fn lemma_lone_cell_dies(cells: Seq<u32>)
    requires
        cells_wf(cells, 1),
    ensures
        step_cells(cells, 1).len() == 1,
        step_cells(cells, 1)[0] == 0,
{
    lemma_small_mod(0nat, 1nat);
    lemma_fundamental_div_mod_converse(1, 1, 1, 0);
    lemma_fundamental_div_mod_converse(2, 1, 2, 0);
    assert(wrap_offset(0, -1, 1) == 0);
    assert(wrap_offset(0, 0, 1) == 0);
    assert(wrap_offset(0, 1, 1) == 0);
    assert(live_neighbors(cells, 1, 0, 0) == 8 * cell_at(cells, 1, 0, 0));
    assert(step_cells(cells, 1)[0] == rule_next(cells[0], live_neighbors(cells, 1, 0, 0)));
}

/// One wrapped step to the left or up: the coordinate before `i` on the
/// torus of side `n`.
pub fn wrap_sub_one(i: usize, n: usize) -> (w: usize)
    requires
        n >= 1,
        i < n,
    ensures
        w == wrap_offset(i as int, -1, n as int),
        w < n,
{
    proof {
        if i == 0 {
            lemma_small_mod((n - 1) as nat, n as nat);
        } else {
            lemma_fundamental_div_mod_converse(i + n - 1, n as int, 1, i - 1);
        }
    }
    if i == 0 {
        n - 1
    } else {
        i - 1
    }
}

/// One wrapped step to the right or down: the coordinate after `i` on the
/// torus of side `n`.
pub fn wrap_add_one(i: usize, n: usize) -> (w: usize)
    requires
        n >= 1,
        i < n,
    ensures
        w == wrap_offset(i as int, 1, n as int),
        w < n,
{
    proof {
        if i + 1 == n {
            lemma_fundamental_div_mod_converse(2 * n, n as int, 2, 0);
        } else {
            lemma_fundamental_div_mod_converse(i + n + 1, n as int, 1, i + 1);
        }
    }
    if i + 1 == n {
        0
    } else {
        i + 1
    }
}

/// Row-major index of (r, c), bounds-checked against the grid area.
pub fn grid_index(n: usize, r: usize, c: usize) -> (i: usize)
    requires
        r < n,
        c < n,
        n * n <= usize::MAX,
    ensures
        i == cell_index(n as int, r as int, c as int),
        i < n * n,
{
    proof {
        assert(r * n + c < n * n) by (nonlinear_arith)
            requires
                r < n,
                c < n,
        ;
    }
    r * n + c
}

/// The state of the cell at (r, c), read from a well-formed cell buffer.
pub fn read_cell(cells: &Vec<u32>, n: usize, r: usize, c: usize) -> (v: u32)
    requires
        cells_wf(cells@, n as int),
        r < n,
        c < n,
    ensures
        v as int == cell_at(cells@, n as int, r as int, c as int),
        v <= 1,
{
    let _grid_area = cells.len();
    assert(n * n <= usize::MAX);
    let i = grid_index(n, r, c);
    cells[i]
}

/// Count the alive cells among the 8 toroidal neighbors of (r, c).
pub fn neighbor_count(cells: &Vec<u32>, n: usize, r: usize, c: usize) -> (count: u32)
    requires
        cells_wf(cells@, n as int),
        r < n,
        c < n,
    ensures
        count == live_neighbors(cells@, n as int, r as int, c as int),
        count <= 8,
{
    proof {
        lemma_wrap_zero(r as int, n as int);
        lemma_wrap_zero(c as int, n as int);
    }
    let rm = wrap_sub_one(r, n);
    let rp = wrap_add_one(r, n);
    let cm = wrap_sub_one(c, n);
    let cp = wrap_add_one(c, n);
    let mut count: u32 = read_cell(cells, n, rm, cm);
    count = count + read_cell(cells, n, rm, c);
    count = count + read_cell(cells, n, rm, cp);
    count = count + read_cell(cells, n, r, cm);
    count = count + read_cell(cells, n, r, cp);
    count = count + read_cell(cells, n, rp, cm);
    count = count + read_cell(cells, n, rp, c);
    count = count + read_cell(cells, n, rp, cp);
    count
}

} // verus!

//! The fixed per-cell step rule of the automaton.

use vstd::prelude::*;

verus! {

/// The next state of one cell, given its current state (0 or 1) and the
/// number of alive cells among its 8 neighbors: a live cell survives with 2
/// or 3 live neighbors, a dead cell is born with exactly 3, and every other
/// cell is dead in the next generation.
pub open spec fn rule_next(state: u32, live_neighbors: int) -> u32 {
    if (state == 1 && (live_neighbors == 2 || live_neighbors == 3))
        || (state == 0 && live_neighbors == 3) {
        1u32
    } else {
        0u32
    }
}

/// Executable form of the step rule for a single cell.
pub fn next_cell_state(state: u32, live_neighbors: u32) -> (next: u32)
    requires
        state <= 1,
    ensures
        next == rule_next(state, live_neighbors as int),
        next <= 1,
{
    if (state == 1 && (live_neighbors == 2 || live_neighbors == 3))
        || (state == 0 && live_neighbors == 3) {
        1
    } else {
        0
    }
}

} // verus!

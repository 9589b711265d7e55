//! The Grid State Store and the Frame Orchestrator: two equally sized cell
//! buffers whose read and write roles alternate each frame (ping-pong
//! buffering), a monotone frame counter that selects the roles, and the
//! per-frame step that chains the simulation pass into the display pass.

use vstd::prelude::*;
use crate::grid::cells_wf;
use crate::grid::step_cells;
use crate::sim::simulate_step;
use crate::sim::tile_count;
use crate::sim::workgroup_count;

verus! {

/// The buffer the Simulation Stage reads in frame `k`: the generation
/// completed before the frame began.
pub open spec fn read_index(k: int) -> int {
    k % 2
}

/// The buffer the Simulation Stage writes in frame `k`: always the one it
/// does not read, so the two roles never alias.
pub open spec fn write_index(k: int) -> int {
    (k + 1) % 2
}

/// The buffer the Display Stage reads in frame `k`: the one the Simulation
/// Stage wrote in the same frame, never a stale one.
pub open spec fn display_index(k: int) -> int {
    write_index(k)
}

/// The ping-pong law: in every frame `k`, the buffer written by the
/// simulation is the buffer read by the display in that same frame, and is
/// the buffer the simulation reads in frame `k + 1`; and the read and write
/// buffers of one frame never alias.
pub proof fn lemma_ping_pong(k: int)
    requires
        k >= 0,
    ensures
        display_index(k) == write_index(k),
        write_index(k) == read_index(k + 1),
        read_index(k) != write_index(k),
        0 <= read_index(k) <= 1,
        0 <= write_index(k) <= 1,
{
}

/// Default occupancy of the random initial pattern: 2 in 5 cells alive.
pub const DEFAULT_OCCUPANCY_NUM: u32 = 2;

/// Denominator of the default occupancy ratio.
pub const DEFAULT_OCCUPANCY_DEN: u32 = 5;

/// Relies on rand::thread_rng and rand::Rng::gen_ratio: a coin flip from the
/// process-wide random source that is true with probability `num / den`.
/// gen_ratio panics when `den == 0` or `num > den`; the precondition excludes
/// both. Nothing is promised of the outcome.
#[verifier::external_body]
fn coin_flip(num: u32, den: u32) -> bool
    requires
        den >= 1,
        num <= den,
{
    rand::Rng::gen_ratio(&mut rand::thread_rng(), num, den)
}

/// A random initial pattern of `len` cells, each independently alive with
/// probability `num / den`.
pub fn random_cells(len: usize, num: u32, den: u32) -> (cells: Vec<u32>)
    requires
        den >= 1,
        num <= den,
    ensures
        cells@.len() == len,
        forall|i: int| 0 <= i < len ==> cells@[i] <= 1,
{
    let mut cells: Vec<u32> = Vec::new();
    let mut i: usize = 0;
    while i < len
        invariant
            i <= len,
            cells@.len() == i,
            forall|j: int| 0 <= j < i ==> cells@[j] <= 1,
            den >= 1,
            num <= den,
        decreases len - i,
    {
        if coin_flip(num, den) {
            cells.push(1);
        } else {
            cells.push(0);
        }
        i = i + 1;
    }
    cells
}

/// An element-for-element copy of a cell buffer.
fn clone_cells(cells: &Vec<u32>) -> (copy: Vec<u32>)
    ensures
        copy@ == cells@,
{
    let mut copy: Vec<u32> = Vec::new();
    let mut i: usize = 0;
    while i < cells.len()
        invariant
            i <= cells@.len(),
            copy@ == cells@.subrange(0, i as int),
        decreases cells@.len() - i,
    {
        copy.push(cells[i]);
        proof {
            assert(cells@.subrange(0, i as int).push(cells@[i as int])
                =~= cells@.subrange(0, i as int + 1));
        }
        i = i + 1;
    }
    proof {
        assert(copy@ =~= cells@);
    }
    copy
}

/// The double-buffered simulation pipeline: the two grid state buffers and
/// the frame counter whose parity assigns their read and write roles.
pub struct Pipeline {
    pub grid_size: usize,
    pub buffer_a: Vec<u32>,
    pub buffer_b: Vec<u32>,
    pub frame_count: u64,
}

impl Pipeline {
    /// The contents of grid state buffer 0 or 1.
    pub open spec fn buffer(&self, i: int) -> Seq<u32> {
        if i == 0 {
            self.buffer_a@
        } else {
            self.buffer_b@
        }
    }

    /// Both buffers hold well-formed grids of the configured side.
    pub open spec fn wf(&self) -> bool {
        &&& self.grid_size >= 1
        &&& cells_wf(self.buffer_a@, self.grid_size as int)
        &&& cells_wf(self.buffer_b@, self.grid_size as int)
    }

    /// The current generation: the buffer most recently written, which
    /// frame `frame_count` will read.
    pub open spec fn current(&self) -> Seq<u32> {
        self.buffer(read_index(self.frame_count as int))
    }

    /// Allocate the two grid state buffers, both holding the same initial
    /// pattern, so that generation 0 is well defined whichever buffer is
    /// first treated as current. The frame counter starts at 0.
    pub fn new(grid_size: u32, initial: Vec<u32>) -> (p: Pipeline)
        requires
            grid_size >= 1,
            cells_wf(initial@, grid_size as int),
        ensures
            p.wf(),
            p.grid_size == grid_size as usize,
            p.frame_count == 0,
            p.buffer(0) == initial@,
            p.buffer(1) == initial@,
            p.current() == initial@,
    {
        let buffer_b = clone_cells(&initial);
        Pipeline { grid_size: grid_size as usize, buffer_a: initial, buffer_b, frame_count: 0 }
    }

    /// Allocate the pipeline with a random initial pattern, each cell alive
    /// with probability `num / den`.
    pub fn new_random(grid_size: u32, num: u32, den: u32) -> (p: Pipeline)
        requires
            grid_size >= 1,
            den >= 1,
            num <= den,
            grid_size as int * grid_size as int <= usize::MAX,
        ensures
            p.wf(),
            p.grid_size == grid_size as usize,
            p.frame_count == 0,
            p.buffer(0) == p.buffer(1),
    {
        let side = grid_size as usize;
        let cells = random_cells(side * side, num, den);
        Pipeline::new(grid_size, cells)
    }

    /// One frame: the simulation reads the current buffer, writes the next
    /// generation into the other buffer, the display reads exactly that
    /// just-written buffer, and the frame counter advances, which swaps the
    /// two roles for the next frame.
    pub fn advance_frame(&mut self)
        requires
            old(self).wf(),
            old(self).frame_count < u64::MAX,
        ensures
            final(self).wf(),
            final(self).grid_size == old(self).grid_size,
            final(self).frame_count == old(self).frame_count + 1,
            final(self).buffer(write_index(old(self).frame_count as int))
                == step_cells(
                    old(self).buffer(read_index(old(self).frame_count as int)),
                    old(self).grid_size as int,
                ),
            final(self).buffer(read_index(old(self).frame_count as int))
                == old(self).buffer(read_index(old(self).frame_count as int)),
            final(self).buffer(display_index(old(self).frame_count as int))
                == step_cells(old(self).current(), old(self).grid_size as int),
            final(self).current() == step_cells(old(self).current(), old(self).grid_size as int),
    {
        if self.frame_count % 2 == 0 {
            simulate_step(&self.buffer_a, self.grid_size, &mut self.buffer_b);
        } else {
            simulate_step(&self.buffer_b, self.grid_size, &mut self.buffer_a);
        }
        self.frame_count = self.frame_count + 1;
    }

    /// The current generation's buffer: what the display showed after the
    /// last frame and what the simulation will read in the next one.
    pub fn current_cells(&self) -> (cells: &Vec<u32>)
        ensures
            cells@ == self.current(),
    {
        if self.frame_count % 2 == 0 {
            &self.buffer_a
        } else {
            &self.buffer_b
        }
    }

    /// The configured grid side length.
    pub fn side(&self) -> (n: usize)
        ensures
            n == self.grid_size,
    {
        self.grid_size
    }

    /// How many frames have been completed.
    pub fn frames(&self) -> (k: u64)
        ensures
            k == self.frame_count,
    {
        self.frame_count
    }
}

/// The per-frame decisions of the orchestrator, fixed before any command is
/// recorded: which binding set each pass binds and how much work each pass
/// issues.
pub struct FramePlan {
    /// The binding set the simulation pass binds in this frame: its read
    /// slot holds the current generation.
    pub sim_binding: u32,
    /// The binding set the display pass binds: its read slot holds the
    /// buffer the simulation pass has just written.
    pub display_binding: u32,
    /// Workgroups dispatched along each axis of the compute pass.
    pub dispatch: (u32, u32, u32),
    /// Vertices drawn per instance: one quad of two triangles.
    pub vertex_count: u32,
    /// Instances drawn: one per grid cell.
    pub instance_count: u32,
}

/// Build the plan of frame `frame_count` for a grid of side `grid_size`:
/// the frame counter's parity picks the binding sets, the display pass binds
/// the buffer the simulation writes, and the dispatch covers the grid in
/// 8x8 tiles.
pub fn plan_frame(frame_count: u64, grid_size: u32) -> (plan: FramePlan)
    requires
        grid_size >= 1,
        grid_size * grid_size <= u32::MAX,
    ensures
        plan.sim_binding as int == read_index(frame_count as int),
        plan.display_binding as int == display_index(frame_count as int),
        plan.sim_binding != plan.display_binding,
        plan.sim_binding <= 1,
        plan.display_binding <= 1,
        plan.dispatch.0 == tile_count(grid_size as int),
        plan.dispatch.1 == tile_count(grid_size as int),
        plan.dispatch.2 == 1,
        8 * plan.dispatch.0 >= grid_size,
        plan.vertex_count == 6,
        plan.instance_count == grid_size * grid_size,
{
    let sim_binding = (frame_count % 2) as u32;
    let display_binding = 1 - sim_binding;
    let tiles = workgroup_count(grid_size);
    FramePlan {
        sim_binding,
        display_binding,
        dispatch: (tiles, tiles, 1),
        vertex_count: 6,
        instance_count: grid_size * grid_size,
    }
}

/// The role assignment of binding set `i`: its read slot holds buffer `i`
/// and its write slot holds the other buffer, so the two sets are the two
/// possible role assignments of the two grid state buffers.
pub fn binding_roles(i: u32) -> (roles: (u32, u32))
    requires
        i <= 1,
    ensures
        roles.0 == i,
        roles.1 == 1 - i,
        roles.0 != roles.1,
{
    (i, 1 - i)
}

} // verus!

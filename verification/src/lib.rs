//! A double-buffered Game of Life simulation pipeline.
//!
//! The library models the device-resident state of a cellular automaton
//! renderer on plain values: the grid of cells, the fixed neighbor-counting
//! step rule with toroidal addressing, the tiled dispatch that covers the
//! grid, the ping-pong scheme that alternates the two grid buffers between
//! read and write roles, and the per-frame orchestration that chains a
//! simulation step into a display pass.

use vstd::prelude::*;

pub mod display;
pub mod grid;
pub mod params;
pub mod pipeline;
pub mod rule;
pub mod sim;

verus! {

/// Host-side configuration: surface pixel dimensions and the side length of
/// the square automaton grid.
pub struct Config {
    pub width: u32,
    pub height: u32,
    pub grid_size: u32,
}

impl Config {
    /// A usable configuration: a non-empty surface and a non-empty grid.
    pub open spec fn wf(&self) -> bool {
        &&& self.width >= 1
        &&& self.height >= 1
        &&& self.grid_size >= 1
    }

    pub fn new(width: u32, height: u32, grid_size: u32) -> (c: Config)
        requires
            width >= 1,
            height >= 1,
            grid_size >= 1,
        ensures
            c.width == width,
            c.height == height,
            c.grid_size == grid_size,
            c.wf(),
    {
        Config { width, height, grid_size }
    }
}

} // verus!

//! The Uniform Parameters record and the sizes of the device-resident
//! buffers: the fixed layout shared by the host and the device programs.

use vstd::prelude::*;
use crate::Config;

verus! {

/// The host-side value of the uniform record consumed by both the
/// simulation and the display program: the grid width and height, written
/// to the device once at startup and never changed (the grid never
/// resizes). The device sees each as a 32-bit scalar, width first.
pub struct GridParams {
    pub width: u32,
    pub height: u32,
}

impl GridParams {
    /// The grid is square: both extents are the configured side length.
    pub fn new(config: &Config) -> (p: GridParams)
        requires
            config.wf(),
        ensures
            p.width == config.grid_size,
            p.height == config.grid_size,
            p.width == p.height,
            p.width >= 1,
    {
        GridParams { width: config.grid_size, height: config.grid_size }
    }
}

/// Size in bytes of the device-resident uniform record: two 32-bit
/// scalars, width then height. A device program bound to any other layout
/// is a binding-layout error, caught at pipeline creation.
pub fn uniform_buffer_bytes() -> (bytes: u64)
    ensures
        bytes == 8,
{
    8
}

/// Size in bytes of one grid state buffer: one 32-bit cell per grid cell.
pub fn storage_buffer_bytes(cell_count: usize) -> (bytes: u64)
    requires
        cell_count as int * 4 <= u64::MAX,
    ensures
        bytes == 4 * cell_count,
{
    (cell_count as u64) * 4
}

} // verus!

use life_pipeline::display::{cell_color, instance_cell, instance_count, VERTICES_PER_CELL};
use life_pipeline::params::{storage_buffer_bytes, uniform_buffer_bytes, GridParams};
use life_pipeline::rule::next_cell_state;
use life_pipeline::sim::{workgroup_count, TILE_SIZE};
use life_pipeline::Config;

#[test]
fn rule_full_table() {
    // A live cell survives with exactly 2 or 3 live neighbors.
    for count in 0u32..=8 {
        let expected = if count == 2 || count == 3 { 1 } else { 0 };
        assert_eq!(next_cell_state(1, count), expected);
    }
    // A dead cell is born with exactly 3 live neighbors.
    for count in 0u32..=8 {
        let expected = if count == 3 { 1 } else { 0 };
        assert_eq!(next_cell_state(0, count), expected);
    }
}

#[test]
fn workgroup_count_is_ceiling_of_eighth() {
    assert_eq!(TILE_SIZE, 8);
    assert_eq!(workgroup_count(1), 1);
    assert_eq!(workgroup_count(7), 1);
    assert_eq!(workgroup_count(8), 1);
    assert_eq!(workgroup_count(9), 2);
    assert_eq!(workgroup_count(16), 2);
    assert_eq!(workgroup_count(32), 4);
    assert_eq!(workgroup_count(100), 13);
}

#[test]
fn instance_decomposition() {
    assert_eq!(instance_cell(0, 32), (0, 0));
    assert_eq!(instance_cell(33, 32), (1, 1));
    assert_eq!(instance_cell(1023, 32), (31, 31));
    assert_eq!(instance_cell(5, 4), (1, 1));
    assert_eq!(instance_count(32), 1024);
    assert_eq!(VERTICES_PER_CELL, 6);
}

#[test]
fn colors_are_binary() {
    assert_eq!(cell_color(1), (255, 255, 255));
    assert_eq!(cell_color(0), (0, 0, 0));
}

#[test]
fn buffer_layout_sizes() {
    assert_eq!(uniform_buffer_bytes(), 8);
    assert_eq!(storage_buffer_bytes(1024), 4096);
    assert_eq!(storage_buffer_bytes(1), 4);
}

#[test]
fn params_mirror_config() {
    let config = Config::new(800, 800, 32);
    let params = GridParams::new(&config);
    assert_eq!(params.width, 32);
    assert_eq!(params.height, 32);
}

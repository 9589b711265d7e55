use life_pipeline::pipeline::{
    binding_roles, plan_frame, random_cells, Pipeline, DEFAULT_OCCUPANCY_DEN,
    DEFAULT_OCCUPANCY_NUM,
};

fn grid_from(n: usize, alive: &[(usize, usize)]) -> Vec<u32> {
    let mut cells = vec![0u32; n * n];
    for &(r, c) in alive {
        cells[r * n + c] = 1;
    }
    cells
}

#[test]
fn end_to_end_blinker() {
    // grid_size = 4, all zero except a horizontal triple at row 1,
    // columns 1..=3. After one frame the triple dies and column 2 of rows
    // 0..=2 is alive; after two frames the triple is restored exactly.
    let blinker = grid_from(4, &[(1, 1), (1, 2), (1, 3)]);
    let vertical = grid_from(4, &[(0, 2), (1, 2), (2, 2)]);
    let mut pipeline = Pipeline::new(4, blinker.clone());
    assert_eq!(pipeline.frames(), 0);
    assert_eq!(pipeline.side(), 4);
    assert_eq!(pipeline.current_cells(), &blinker);

    pipeline.advance_frame();
    assert_eq!(pipeline.frames(), 1);
    assert_eq!(pipeline.current_cells(), &vertical);

    pipeline.advance_frame();
    assert_eq!(pipeline.frames(), 2);
    assert_eq!(pipeline.current_cells(), &blinker);
}

#[test]
fn ping_pong_roles_alternate() {
    let blinker = grid_from(4, &[(1, 1), (1, 2), (1, 3)]);
    let vertical = grid_from(4, &[(0, 2), (1, 2), (2, 2)]);
    let mut pipeline = Pipeline::new(4, blinker.clone());
    // Both buffers start as the same generation 0.
    assert_eq!(pipeline.buffer_a, pipeline.buffer_b);

    // Frame 0 reads buffer 0 and writes buffer 1; the display and the next
    // frame read exactly the buffer frame 0 wrote.
    pipeline.advance_frame();
    assert_eq!(pipeline.buffer_a, blinker);
    assert_eq!(pipeline.buffer_b, vertical);
    assert_eq!(pipeline.current_cells(), &pipeline.buffer_b);

    // Frame 1 reads buffer 1 and writes buffer 0.
    pipeline.advance_frame();
    assert_eq!(pipeline.buffer_a, blinker);
    assert_eq!(pipeline.current_cells(), &pipeline.buffer_a);
    assert_eq!(pipeline.buffer_b, vertical);
}

#[test]
fn plans_select_alternating_binding_sets() {
    let even = plan_frame(0, 32);
    assert_eq!(even.sim_binding, 0);
    assert_eq!(even.display_binding, 1);
    assert_eq!(even.dispatch, (4, 4, 1));
    assert_eq!(even.vertex_count, 6);
    assert_eq!(even.instance_count, 1024);

    let odd = plan_frame(1, 32);
    assert_eq!(odd.sim_binding, 1);
    assert_eq!(odd.display_binding, 0);

    // A side that is not a multiple of 8 still gets a covering dispatch.
    let uneven = plan_frame(2, 9);
    assert_eq!(uneven.dispatch, (2, 2, 1));
}

#[test]
fn binding_set_roles_never_alias() {
    assert_eq!(binding_roles(0), (0, 1));
    assert_eq!(binding_roles(1), (1, 0));
}

#[test]
fn random_pattern_is_binary_and_shared() {
    let cells = random_cells(64, DEFAULT_OCCUPANCY_NUM, DEFAULT_OCCUPANCY_DEN);
    assert_eq!(cells.len(), 64);
    assert!(cells.iter().all(|&c| c <= 1));

    let pipeline = Pipeline::new_random(8, DEFAULT_OCCUPANCY_NUM, DEFAULT_OCCUPANCY_DEN);
    assert_eq!(pipeline.side(), 8);
    assert_eq!(pipeline.frames(), 0);
    assert_eq!(pipeline.buffer_a, pipeline.buffer_b);
    assert_eq!(pipeline.buffer_a.len(), 64);
    assert!(pipeline.buffer_a.iter().all(|&c| c <= 1));
}

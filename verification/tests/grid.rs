use std::collections::HashSet;
use voxels::grid::{instance_grid, GridCell, NUM_INSTANCES, NUM_INSTANCES_PER_ROW};

#[test]
fn grid_has_one_instance_per_cell_of_the_square() {
    assert_eq!(NUM_INSTANCES_PER_ROW, 1400);
    assert_eq!(NUM_INSTANCES, 1_960_000);
    let cells = instance_grid();
    assert_eq!(cells.len(), NUM_INSTANCES as usize);
    assert_eq!(cells[0], GridCell { x: -700, z: -700 });
    assert_eq!(cells[1], GridCell { x: -699, z: -700 });
    assert_eq!(cells[1399], GridCell { x: 699, z: -700 });
    assert_eq!(cells[1400], GridCell { x: -700, z: -699 });
    assert_eq!(cells[1_959_999], GridCell { x: 699, z: 699 });
    assert!(cells.iter().all(|c| -700 <= c.x && c.x < 700 && -700 <= c.z && c.z < 700));
    let distinct: HashSet<(i32, i32)> = cells.iter().map(|c| (c.x, c.z)).collect();
    assert_eq!(distinct.len(), cells.len());
}

#[test]
fn grid_offsets_are_exact_as_floats() {
    let cells = instance_grid();
    for (k, c) in cells.iter().enumerate().step_by(997) {
        let x = (k % 1400) as u32;
        let z = (k / 1400) as u32;
        assert_eq!(c.x as f32, x as f32 - 1400.0 * 0.5);
        assert_eq!(c.z as f32, z as f32 - 1400.0 * 0.5);
    }
}

use vstd::prelude::*;
use vstd::arithmetic::div_mod::lemma_fundamental_div_mod_converse;

verus! {

/// Number of voxel instances along each side of the square grid.
pub const NUM_INSTANCES_PER_ROW: u32 = 1400;

/// Number of voxel instances in the grid.
pub const NUM_INSTANCES: u32 = NUM_INSTANCES_PER_ROW * NUM_INSTANCES_PER_ROW;

/// A grid cell's position relative to the grid's displacement, in whole
/// units: the instance stands at `(x, 0, z)`.
#[derive(Clone, Copy, Debug, PartialEq, Eq, Structural)]
pub struct GridCell {
    pub x: i32,
    pub z: i32,
}

/// Half a row: the grid is displaced by this much along x and z so that it
/// straddles the origin.
pub open spec fn half_row() -> int {
    NUM_INSTANCES_PER_ROW as int / 2
}

/// The cell of the `k`-th instance: rows run along x, and row after row
/// advances along z.
pub open spec fn cell_at(k: int) -> GridCell {
    GridCell {
        x: (k % NUM_INSTANCES_PER_ROW as int - half_row()) as i32,
        z: (k / NUM_INSTANCES_PER_ROW as int - half_row()) as i32,
    }
}

/// Whether `c` lies in the grid's square: both offsets in `[-half_row, half_row)`.
pub open spec fn in_square(c: GridCell) -> bool {
    -half_row() <= c.x < half_row() && -half_row() <= c.z < half_row()
}

proof fn lemma_cell_at_row_column(z: int, x: int)
    requires
        0 <= z,
        0 <= x < NUM_INSTANCES_PER_ROW,
    ensures
        cell_at(z * NUM_INSTANCES_PER_ROW as int + x) == (GridCell {
            x: (x - half_row()) as i32,
            z: (z - half_row()) as i32,
        }),
{
    lemma_fundamental_div_mod_converse(
        z * NUM_INSTANCES_PER_ROW as int + x,
        NUM_INSTANCES_PER_ROW as int,
        z,
        x,
    );
}

/// The instance grid, instance `k` at cell `cell_at(k)`: for each z in
/// turn, a full row along x, every offset taken relative to the centre.
pub fn instance_grid() -> (cells: Vec<GridCell>)
    ensures
        cells@.len() == NUM_INSTANCES,
        forall|k: int| 0 <= k < NUM_INSTANCES ==> #[trigger] cells@[k] == cell_at(k),
{
    let half: i32 = (NUM_INSTANCES_PER_ROW / 2) as i32;
    let mut cells: Vec<GridCell> = Vec::new();
    let mut z: u32 = 0;
    while z < NUM_INSTANCES_PER_ROW
        invariant
            z <= NUM_INSTANCES_PER_ROW,
            half == half_row(),
            cells@.len() == z * NUM_INSTANCES_PER_ROW,
            forall|k: int| 0 <= k < cells@.len() ==> #[trigger] cells@[k] == cell_at(k),
        decreases NUM_INSTANCES_PER_ROW - z,
    {
        let mut x: u32 = 0;
        while x < NUM_INSTANCES_PER_ROW
            invariant
                z < NUM_INSTANCES_PER_ROW,
                x <= NUM_INSTANCES_PER_ROW,
                half == half_row(),
                cells@.len() == z * NUM_INSTANCES_PER_ROW + x,
                forall|k: int| 0 <= k < cells@.len() ==> #[trigger] cells@[k] == cell_at(k),
            decreases NUM_INSTANCES_PER_ROW - x,
        {
            proof {
                lemma_cell_at_row_column(z as int, x as int);
            }
            let cell = GridCell { x: x as i32 - half, z: z as i32 - half };
            cells.push(cell);
            x = x + 1;
        }
        z = z + 1;
    }
    cells
}

/// The grid holds each cell once: distinct instances stand at distinct cells.
pub proof fn lemma_grid_cells_distinct(j: int, k: int)
    requires
        0 <= j < NUM_INSTANCES,
        0 <= k < NUM_INSTANCES,
        j != k,
    ensures
        cell_at(j) != cell_at(k),
{
    let r = NUM_INSTANCES_PER_ROW as int;
    if cell_at(j) == cell_at(k) {
        assert(j % r == k % r);
        assert(j / r == k / r);
        vstd::arithmetic::div_mod::lemma_fundamental_div_mod(j, r);
        vstd::arithmetic::div_mod::lemma_fundamental_div_mod(k, r);
    }
}

/// The grid covers its square exactly: every instance stands in the square,
/// and every cell of the square is the cell of some instance.
pub proof fn lemma_grid_covers_square(c: GridCell)
    ensures
        forall|k: int| 0 <= k < NUM_INSTANCES ==> in_square(#[trigger] cell_at(k)),
        in_square(c) ==> exists|k: int| 0 <= k < NUM_INSTANCES && #[trigger] cell_at(k) == c,
{
    let r = NUM_INSTANCES_PER_ROW as int;
    assert forall|k: int| 0 <= k < NUM_INSTANCES implies in_square(#[trigger] cell_at(k)) by {
        vstd::arithmetic::div_mod::lemma_fundamental_div_mod(k, r);
        assert(0 <= k % r < r);
        assert(0 <= k / r < r) by (nonlinear_arith)
            requires
                0 <= k < r * r,
                k == r * (k / r) + k % r,
                0 <= k % r < r,
                r > 0,
        ;
    }
    if in_square(c) {
        let z = c.z + half_row();
        let x = c.x + half_row();
        let k = z * r + x;
        lemma_cell_at_row_column(z, x);
        assert(cell_at(k) == c);
        assert(k < NUM_INSTANCES) by (nonlinear_arith)
            requires
                0 <= z < r,
                0 <= x < r,
                k == z * r + x,
                r * r == NUM_INSTANCES,
        ;
    }
}

} // verus!

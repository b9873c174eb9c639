use vstd::prelude::*;

use crate::cycler::CyclerState;

verus! {

/// Instances along one row of a plane.
pub const NUM_INSTANCES_PER_ROW: u32 = 5;

/// Rows in one plane.
pub const NUM_INSTANCES_PER_COL: u32 = 5;

/// Planes stacked along the vertical axis.
pub const NUM_INSTANCE_PLANES: u32 = 2;

/// The place of one instance in the grid: `x` along a row, `z` along a column,
/// `y` the plane.
#[derive(Debug, Clone, Copy, PartialEq, Eq, Structural)]
pub struct GridCell {
    pub x: u32,
    pub y: u32,
    pub z: u32,
}

/// The number of a cell when the grid is listed plane by plane, each plane row
/// by row.
pub open spec fn cell_index(c: GridCell, rows: nat, cols: nat) -> int {
    (c.y * cols + c.z) * rows + c.x
}

/// `cells` lists every cell of a `rows` by `cols` by `planes` grid once, plane
/// by plane, each plane row by row.
pub open spec fn is_grid_listing(cells: Seq<GridCell>, rows: nat, cols: nat, planes: nat) -> bool {
    &&& cells.len() == rows * cols * planes
    &&& forall|i: int|
        0 <= i < cells.len() ==> {
            let c = #[trigger] cells[i];
            &&& c.x < rows
            &&& c.z < cols
            &&& c.y < planes
            &&& cell_index(c, rows, cols) == i
        }
}

/// Lists the cells of a grid of `planes` planes of `cols` rows of `rows`
/// instances, in the order in which the instances are laid out in the pool.
pub fn grid_cells(rows: u32, cols: u32, planes: u32) -> (r: Vec<GridCell>)
    requires
        rows * cols * planes <= usize::MAX,
    ensures
        is_grid_listing(r@, rows as nat, cols as nat, planes as nat),
{
    let mut cells: Vec<GridCell> = Vec::new();
    let mut y: u32 = 0;
    while y < planes
        invariant
            y <= planes,
            rows * cols * planes <= usize::MAX,
            cells@.len() == y * cols * rows,
            forall|i: int|
                0 <= i < cells@.len() ==> {
                    let c = #[trigger] cells@[i];
                    &&& c.x < rows
                    &&& c.z < cols
                    &&& c.y < planes
                    &&& cell_index(c, rows as nat, cols as nat) == i
                },
        decreases planes - y,
    {
        let mut z: u32 = 0;
        while z < cols
            invariant
                y < planes,
                z <= cols,
                rows * cols * planes <= usize::MAX,
                cells@.len() == (y * cols + z) * rows,
                forall|i: int|
                    0 <= i < cells@.len() ==> {
                        let c = #[trigger] cells@[i];
                        &&& c.x < rows
                        &&& c.z < cols
                        &&& c.y < planes
                        &&& cell_index(c, rows as nat, cols as nat) == i
                    },
            decreases cols - z,
        {
            let mut x: u32 = 0;
            while x < rows
                invariant
                    y < planes,
                    z < cols,
                    x <= rows,
                    rows * cols * planes <= usize::MAX,
                    cells@.len() == (y * cols + z) * rows + x,
                    forall|i: int|
                        0 <= i < cells@.len() ==> {
                            let c = #[trigger] cells@[i];
                            &&& c.x < rows
                            &&& c.z < cols
                            &&& c.y < planes
                            &&& cell_index(c, rows as nat, cols as nat) == i
                        },
                decreases rows - x,
            {
                proof {
                    lemma_listing_fits(rows as nat, cols as nat, planes as nat, y as nat, z as nat, x as nat);
                }
                cells.push(GridCell { x, y, z });
                x = x + 1;
            }
            proof {
                assert((y * cols + z) * rows + rows == (y * cols + z + 1) * rows) by (nonlinear_arith);
            }
            z = z + 1;
        }
        proof {
            assert((y * cols + cols) * rows == (y + 1) * cols * rows) by (nonlinear_arith);
        }
        y = y + 1;
    }
    proof {
        assert(planes * cols * rows == rows * cols * planes) by (nonlinear_arith);
    }
    cells
}

/// A cell inside the grid comes before the end of the listing.
proof fn lemma_listing_fits(rows: nat, cols: nat, planes: nat, y: nat, z: nat, x: nat)
    requires
        y < planes,
        z < cols,
        x < rows,
    ensures
        (y * cols + z) * rows + x < rows * cols * planes,
{
    assert((y * cols + z) * rows + x < rows * cols * planes) by (nonlinear_arith)
        requires
            y < planes,
            z < cols,
            x < rows,
    ;
}

/// With one plane of the grid per window, each window of the sweep holds the
/// instances of one plane: those of plane `layer()`.
pub proof fn lemma_window_is_plane(
    cells: Seq<GridCell>,
    rows: nat,
    cols: nat,
    planes: nat,
    s: CyclerState,
)
    requires
        is_grid_listing(cells, rows, cols, planes),
        s.wf(),
        s.window_size == rows * cols,
        s.pool_size == cells.len(),
    ensures
        forall|i: int| s.start <= i < s.end ==> #[trigger] cells[i].y == s.layer(),
{
    crate::cycler::lemma_layer_of_wf(s);
    let w = s.window_size as int;
    let k = s.layer() as int;
    assert forall|i: int| s.start <= i < s.end implies #[trigger] cells[i].y == s.layer() by {
        let c = cells[i];
        let y = c.y as int;
        let t = c.z * rows + c.x;
        let z = c.z as int;
        let x = c.x as int;
        assert((y * cols + z) * rows + x == y * w + t) by (nonlinear_arith)
            requires
                w == rows * cols,
                t == z * rows + x,
        ;
        assert(0 <= t < w) by (nonlinear_arith)
            requires
                w == rows * cols,
                t == c.z * rows + c.x,
                c.z < cols,
                c.x < rows,
        ;
        assert(y == k) by (nonlinear_arith)
            requires
                w > 0,
                k * w <= y * w + t < k * w + w,
                0 <= t < w,
        ;
    }
}

} // verus!

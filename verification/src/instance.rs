//! The fixed grid of instances that the model is drawn at.

use vstd::prelude::*;
use crate::units::Vec3;

verus! {

/// Angle of the tilt about Z given to an instance at the origin: one degree.
pub const ORIGIN_TILT: i64 = 1_000_000_000;

/// How an instance is turned.
#[derive(Clone, Copy, Debug, PartialEq, Eq, Structural)]
pub enum Rotation {
    /// Not turned at all.
    Identity,
    /// Turned about the Z axis by `ORIGIN_TILT`.
    TiltZ,
}

/// One placement of the model.
#[derive(Clone, Copy, Debug, PartialEq, Eq, Structural)]
pub struct Instance {
    pub position: Vec3,
    pub rotation: Rotation,
}

/// Offset of grid line `index` from the centre line, in grid steps.
pub open spec fn centered(n_per_row: u32, index: int) -> int {
    index - (n_per_row / 2) as int
}

/// The rotation that belongs to a position: tilted at the origin, none elsewhere.
pub open spec fn rotation_at(position: Vec3) -> Rotation {
    if position.x == 0 && position.y == 0 && position.z == 0 {
        Rotation::TiltZ
    } else {
        Rotation::Identity
    }
}

/// Position of the grid cell in row `row` and column `col`.
pub open spec fn cell_position(n_per_row: u32, spacing: i32, row: int, col: int) -> Vec3 {
    Vec3 {
        x: (spacing * centered(n_per_row, col)) as i64,
        y: 0,
        z: (spacing * centered(n_per_row, row)) as i64,
    }
}

/// The instance of the grid cell in row `row` and column `col`.
pub open spec fn cell(n_per_row: u32, spacing: i32, row: int, col: int) -> Instance {
    Instance {
        position: cell_position(n_per_row, spacing, row, col),
        rotation: rotation_at(cell_position(n_per_row, spacing, row, col)),
    }
}

/// `grid` is the row-major grid of `n_per_row` rows and columns.
pub open spec fn is_grid(grid: Seq<Instance>, n_per_row: u32, spacing: i32) -> bool {
    &&& grid.len() == n_per_row * n_per_row
    &&& forall|row: int, col: int|
        0 <= row < n_per_row && 0 <= col < n_per_row ==> #[trigger] grid[row * n_per_row + col]
            == cell(n_per_row, spacing, row, col)
}

/// Squared distance of a position from the origin.
pub open spec fn distance_squared(position: Vec3) -> int {
    position.x * position.x + position.y * position.y + position.z * position.z
}

/// A grid offset scaled by the spacing fits the coordinate type.
pub proof fn lemma_scaled_offset_fits(n_per_row: u32, spacing: i32, index: int)
    requires
        0 <= index < n_per_row,
    ensures
        i64::MIN <= spacing * centered(n_per_row, index) <= i64::MAX,
{
    let offset = centered(n_per_row, index);
    assert(-0x8000_0000 <= offset <= 0x8000_0000);
    assert(-0x4000_0000_0000_0000 <= spacing * offset <= 0x4000_0000_0000_0000)
        by (nonlinear_arith)
        requires
            -0x8000_0000 <= offset <= 0x8000_0000,
            -0x8000_0000 <= spacing <= 0x8000_0000,
    ;
}

impl Instance {
    /// The instance that stands at `position`.
    pub fn at(position: Vec3) -> (instance: Self)
        ensures
            instance.position == position,
            instance.rotation == rotation_at(position),
    {
        let rotation = if position.x == 0 && position.y == 0 && position.z == 0 {
            Rotation::TiltZ
        } else {
            Rotation::Identity
        };
        Instance { position, rotation }
    }

    /// One coordinate of a grid cell: the offset of line `index` from the
    /// centre line, times the spacing.
    fn coordinate(n_per_row: u32, spacing: i32, index: u32) -> (value: i64)
        requires
            index < n_per_row,
        ensures
            value == spacing * centered(n_per_row, index as int),
    {
        proof {
            lemma_scaled_offset_fits(n_per_row, spacing, index as int);
        }
        let offset: i64 = index as i64 - (n_per_row / 2) as i64;
        spacing as i64 * offset
    }

    /// Lays out `n_per_row` rows of `n_per_row` instances each on the XZ plane,
    /// row by row, `spacing` thousandths of a unit apart, with the cell in row
    /// and column `n_per_row / 2` on the origin.
    pub fn build_grid(n_per_row: u32, spacing: i32) -> (grid: Vec<Instance>)
        requires
            n_per_row * n_per_row <= usize::MAX,
        ensures
            is_grid(grid@, n_per_row, spacing),
    {
        let mut grid: Vec<Instance> = Vec::new();
        let mut row: u32 = 0;
        while row < n_per_row
            invariant
                row <= n_per_row,
                grid.len() == row * n_per_row,
                forall|r: int, c: int|
                    0 <= r < row && 0 <= c < n_per_row ==> #[trigger] grid@[r * n_per_row + c]
                        == cell(n_per_row, spacing, r, c),
            decreases n_per_row - row,
        {
            let z: i64 = Self::coordinate(n_per_row, spacing, row);
            let mut col: u32 = 0;
            while col < n_per_row
                invariant
                    row < n_per_row,
                    col <= n_per_row,
                    z == spacing * centered(n_per_row, row as int),
                    grid.len() == row * n_per_row + col,
                    forall|r: int, c: int|
                        0 <= r < row && 0 <= c < n_per_row ==> #[trigger] grid@[r * n_per_row + c]
                            == cell(n_per_row, spacing, r, c),
                    forall|c: int|
                        0 <= c < col ==> #[trigger] grid@[row * n_per_row + c] == cell(
                            n_per_row,
                            spacing,
                            row as int,
                            c,
                        ),
                decreases n_per_row - col,
            {
                let x: i64 = Self::coordinate(n_per_row, spacing, col);
                let ghost before = grid@;
                grid.push(Instance::at(Vec3 { x, y: 0, z }));
                proof {
                    assert forall|r: int, c: int|
                        0 <= r < row && 0 <= c < n_per_row implies #[trigger] grid@[r * n_per_row
                        + c] == cell(n_per_row, spacing, r, c) by {
                        lemma_row_major_order(n_per_row as int, r, c, row as int, col as int);
                        assert(grid@[r * n_per_row + c] == before[r * n_per_row + c]);
                    }
                    assert forall|c: int| 0 <= c < col + 1 implies #[trigger] grid@[row
                        * n_per_row + c] == cell(n_per_row, spacing, row as int, c) by {
                        if c < col {
                            assert(grid@[row * n_per_row + c] == before[row * n_per_row + c]);
                        }
                    }
                    lemma_row_major_index(n_per_row as int, row as int, col as int);
                }
                col = col + 1;
            }
            proof {
                assert(row * n_per_row + n_per_row == (row + 1) * n_per_row) by (nonlinear_arith);
                assert forall|r: int, c: int|
                    0 <= r < row + 1 && 0 <= c < n_per_row implies #[trigger] grid@[r * n_per_row
                    + c] == cell(n_per_row, spacing, r, c) by {
                    if r == row {
                    }
                }
            }
            row = row + 1;
        }
        grid
    }
}

/// A row-major index lies within the grid.
pub proof fn lemma_row_major_index(n: int, row: int, col: int)
    requires
        0 <= row < n,
        0 <= col < n,
    ensures
        0 <= row * n + col < n * n,
{
    assert(0 <= row * n && row * n + n <= n * n) by (nonlinear_arith)
        requires
            0 <= row < n,
    ;
}

/// Row-major indices follow the order of the cells: an earlier row, or the same
/// row and an earlier column, gives a smaller index.
pub proof fn lemma_row_major_order(n: int, r1: int, c1: int, r2: int, c2: int)
    requires
        0 <= c1 < n,
        0 <= c2,
        0 <= r1,
        r1 < r2 || (r1 == r2 && c1 < c2),
    ensures
        r1 * n + c1 < r2 * n + c2,
{
    if r1 < r2 {
        assert(r1 * n + n <= r2 * n) by (nonlinear_arith)
            requires
                r1 + 1 <= r2,
                n > 0,
        ;
    }
}

/// Every index of the grid is the row-major index of one cell.
pub proof fn lemma_index_has_cell(n: int, index: int)
    requires
        0 <= n,
        0 <= index < n * n,
    ensures
        0 <= index / n < n,
        0 <= index % n < n,
        index == (index / n) * n + index % n,
{
    assert(n != 0) by {
        if n == 0 {
            assert(n * n == 0);
        }
    }
    vstd::arithmetic::div_mod::lemma_fundamental_div_mod(index, n);
    let row = index / n;
    assert(0 <= row < n) by (nonlinear_arith)
        requires
            n > 0,
            0 <= index < n * n,
            index == n * row + index % n,
            0 <= index % n < n,
    ;
    assert(n * row == row * n) by (nonlinear_arith);
}

/// The grid is a function of its two arguments: two grids built for the same
/// row length and spacing hold the same instances in the same order.
pub proof fn lemma_grid_deterministic(
    first: Seq<Instance>,
    second: Seq<Instance>,
    n_per_row: u32,
    spacing: i32,
)
    requires
        is_grid(first, n_per_row, spacing),
        is_grid(second, n_per_row, spacing),
    ensures
        first == second,
{
    assert forall|i: int| 0 <= i < first.len() implies first[i] == second[i] by {
        lemma_index_has_cell(n_per_row as int, i);
        let row = i / (n_per_row as int);
        let col = i % (n_per_row as int);
        assert(first[row * n_per_row + col] == cell(n_per_row, spacing, row, col));
        assert(second[row * n_per_row + col] == cell(n_per_row, spacing, row, col));
    }
    assert(first =~= second);
}

/// A grid with at least one row has an instance on the origin: the cell in row
/// and column `n_per_row / 2`. It is tilted, and no instance is nearer to the
/// origin.
pub proof fn lemma_origin_instance_tilted(grid: Seq<Instance>, n_per_row: u32, spacing: i32)
    requires
        is_grid(grid, n_per_row, spacing),
        n_per_row > 0,
    ensures
        0 <= (n_per_row / 2) * n_per_row + n_per_row / 2 < grid.len(),
        grid[(n_per_row / 2) * n_per_row + n_per_row / 2].position == (Vec3 { x: 0, y: 0, z: 0 }),
        grid[(n_per_row / 2) * n_per_row + n_per_row / 2].rotation == Rotation::TiltZ,
        forall|i: int|
            0 <= i < grid.len() ==> distance_squared(#[trigger] grid[i].position)
                >= distance_squared(
                grid[(n_per_row / 2) * n_per_row + n_per_row / 2].position,
            ),
{
    let mid = (n_per_row / 2) as int;
    lemma_row_major_index(n_per_row as int, mid, mid);
    assert(grid[mid * n_per_row + mid] == cell(n_per_row, spacing, mid, mid));
    assert(centered(n_per_row, mid) == 0);
    assert(spacing * 0 == 0);
    assert forall|i: int| 0 <= i < grid.len() implies distance_squared(
        #[trigger] grid[i].position,
    ) >= 0 by {
        let p = grid[i].position;
        assert(p.x * p.x >= 0 && p.y * p.y >= 0 && p.z * p.z >= 0) by (nonlinear_arith);
    }
}

/// An instance is tilted exactly when it stands on the origin.
pub proof fn lemma_tilt_only_at_origin(
    grid: Seq<Instance>,
    n_per_row: u32,
    spacing: i32,
    row: int,
    col: int,
)
    requires
        is_grid(grid, n_per_row, spacing),
        0 <= row < n_per_row,
        0 <= col < n_per_row,
    ensures
        0 <= row * n_per_row + col < grid.len(),
        grid[row * n_per_row + col].rotation == Rotation::TiltZ <==> (spacing == 0 || (row
            == n_per_row / 2 && col == n_per_row / 2)),
{
    lemma_row_major_index(n_per_row as int, row, col);
    lemma_scaled_offset_fits(n_per_row, spacing, row);
    lemma_scaled_offset_fits(n_per_row, spacing, col);
    let dr = centered(n_per_row, row);
    let dc = centered(n_per_row, col);
    assert(spacing * dr == 0 <==> (spacing == 0 || dr == 0)) by (nonlinear_arith);
    assert(spacing * dc == 0 <==> (spacing == 0 || dc == 0)) by (nonlinear_arith);
    assert(grid[row * n_per_row + col] == cell(n_per_row, spacing, row, col));
}

} // verus!

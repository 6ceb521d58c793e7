//! Surfaces given as graphs of functions `z = f(x, y)`: the choice of function
//! and the triangle grid on which the graph is sampled.

use vstd::prelude::*;
use crate::polygon::Polygon3;
use crate::obj::polygons_view;
use crate::topology::{indices_within, polygons_within};

verus! {

/// The functions of two variables whose graphs can be generated.
#[derive(Debug, Clone, Copy, PartialEq, Eq, Structural)]
pub enum SurfaceFunction {
    Paraboloid,
    Saddle,
    Wave,
    Ripple,
    Gaussian,
}

impl Default for SurfaceFunction {
    /// The paraboloid.
    fn default() -> (f: Self)
        ensures
            f == SurfaceFunction::Paraboloid,
    {
        SurfaceFunction::Paraboloid
    }
}

impl SurfaceFunction {
    /// The name of the function, with its formula.
    pub fn name(&self) -> (s: &'static str)
        ensures
            s@ == match *self {
                SurfaceFunction::Paraboloid => "Параболоид (z = x² + y²)"@,
                SurfaceFunction::Saddle => "Седло (z = x² - y²)"@,
                SurfaceFunction::Wave => "Волна (z = sin(x)·cos(y))"@,
                SurfaceFunction::Ripple => "Пульсация (z = sin(r)/r)"@,
                SurfaceFunction::Gaussian => "Гаусс (z = e^(-(x²+y²)))"@,
            },
    {
        match self {
            SurfaceFunction::Paraboloid => "Параболоид (z = x² + y²)",
            SurfaceFunction::Saddle => "Седло (z = x² - y²)",
            SurfaceFunction::Wave => "Волна (z = sin(x)·cos(y))",
            SurfaceFunction::Ripple => "Пульсация (z = sin(r)/r)",
            SurfaceFunction::Gaussian => "Гаусс (z = e^(-(x²+y²)))",
        }
    }
}

/// The index of the grid vertex in column `i` and row `j` when rows have `nx + 1`
/// vertices; vertices are numbered row by row.
pub open spec fn grid_index(i: nat, j: nat, nx: nat) -> nat {
    j * (nx + 1) + i
}

/// The first triangle of the grid cell with lower corner `(i, j)`.
pub open spec fn cell_lower(i: nat, j: nat, nx: nat) -> Seq<usize> {
    seq![
        grid_index(i, j, nx) as usize,
        grid_index(i + 1, j, nx) as usize,
        grid_index(i + 1, j + 1, nx) as usize,
    ]
}

/// The second triangle of the grid cell with lower corner `(i, j)`.
pub open spec fn cell_upper(i: nat, j: nat, nx: nat) -> Seq<usize> {
    seq![
        grid_index(i, j, nx) as usize,
        grid_index(i + 1, j + 1, nx) as usize,
        grid_index(i, j + 1, nx) as usize,
    ]
}

/// The triangles of the first `cols` cells of row `j`, two per cell, cell by cell.
pub open spec fn row_triangles(j: nat, cols: nat, nx: nat) -> Seq<Seq<usize>>
    decreases cols,
{
    if cols == 0 {
        seq![]
    } else {
        row_triangles(j, (cols - 1) as nat, nx) + seq![
            cell_lower((cols - 1) as nat, j, nx),
            cell_upper((cols - 1) as nat, j, nx),
        ]
    }
}

/// The triangles of the first `rows` rows of a grid of `nx` cells per row.
pub open spec fn grid_triangles(rows: nat, nx: nat) -> Seq<Seq<usize>>
    decreases rows,
{
    if rows == 0 {
        seq![]
    } else {
        grid_triangles((rows - 1) as nat, nx) + row_triangles((rows - 1) as nat, nx, nx)
    }
}

proof fn lemma_row_start(j: nat, nx: nat, ny: nat)
    requires
        j < ny,
    ensures
        (j + 1) * (nx + 1) == j * (nx + 1) + nx + 1,
        (j + 2) * (nx + 1) <= (ny + 1) * (nx + 1),
        (j + 2) * (nx + 1) == (j + 1) * (nx + 1) + nx + 1,
{
    assert((j + 1) * (nx + 1) == j * (nx + 1) + nx + 1) by (nonlinear_arith);
    assert((j + 2) * (nx + 1) == (j + 1) * (nx + 1) + nx + 1) by (nonlinear_arith);
    assert((j + 2) * (nx + 1) <= (ny + 1) * (nx + 1)) by (nonlinear_arith)
        requires
            j + 2 <= ny + 1,
    ;
}

/// The triangles on which the graph of a function is sampled: a grid of `nx` by
/// `ny` cells, whose `(nx + 1) * (ny + 1)` vertices are numbered row by row;
/// each cell gives two triangles.
pub fn grid_polygons(nx: usize, ny: usize) -> (polygons: Vec<Polygon3>)
    requires
        (nx + 1) * (ny + 1) <= usize::MAX,
    ensures
        polygons_view(polygons@) == grid_triangles(ny as nat, nx as nat),
{
    let mut polygons: Vec<Polygon3> = Vec::new();
    let mut j: usize = 0;
    let mut row_start: usize = 0;
    assert(0 * (nx + 1) == 0) by (nonlinear_arith);
    assert(polygons_view(polygons@) =~= grid_triangles(0, nx as nat));
    while j < ny
        invariant
            j <= ny,
            (nx + 1) * (ny + 1) <= usize::MAX,
            row_start == j * (nx + 1),
            polygons_view(polygons@) == grid_triangles(j as nat, nx as nat),
        decreases ny - j,
    {
        proof {
            lemma_row_start(j as nat, nx as nat, ny as nat);
            assert((nx + 1) * (ny + 1) == (ny + 1) * (nx + 1)) by (nonlinear_arith);
        }
        let next_row: usize = row_start + nx + 1;
        let ghost before = polygons_view(polygons@);
        let mut i: usize = 0;
        assert(polygons_view(polygons@) =~= before + row_triangles(j as nat, 0, nx as nat));
        while i < nx
            invariant
                i <= nx,
                j < ny,
                row_start == j * (nx + 1),
                next_row == row_start + nx + 1,
                next_row + nx + 1 <= (ny + 1) * (nx + 1),
                (nx + 1) * (ny + 1) <= usize::MAX,
                polygons_view(polygons@) == before + row_triangles(j as nat, i as nat, nx as nat),
            decreases nx - i,
        {
            let a = Polygon3::triangle(row_start + i, row_start + i + 1, next_row + i + 1);
            let b = Polygon3::triangle(row_start + i, next_row + i + 1, next_row + i);
            assert((j + 1) * (nx + 1) == j * (nx + 1) + nx + 1) by (nonlinear_arith);
            assert(a@ =~= cell_lower(i as nat, j as nat, nx as nat));
            assert(b@ =~= cell_upper(i as nat, j as nat, nx as nat));
            let ghost v0 = polygons_view(polygons@);
            polygons.push(a);
            polygons.push(b);
            assert(polygons_view(polygons@) =~= v0 + seq![a@, b@]);
            i += 1;
            assert(row_triangles(j as nat, i as nat, nx as nat) == row_triangles(
                j as nat,
                (i - 1) as nat,
                nx as nat,
            ) + seq![cell_lower((i - 1) as nat, j as nat, nx as nat), cell_upper((i - 1) as nat, j as nat, nx as nat)]);
            assert(polygons_view(polygons@) =~= before + row_triangles(j as nat, i as nat, nx as nat));
        }
        j += 1;
        row_start = next_row;
    }
    polygons
}

proof fn lemma_row_within(j: nat, cols: nat, nx: nat, ny: nat)
    requires
        j < ny,
        cols <= nx,
    ensures
        polygons_within(row_triangles(j, cols, nx), (nx + 1) * (ny + 1)),
        row_triangles(j, cols, nx).len() == 2 * cols,
    decreases cols,
{
    if cols > 0 {
        let c: nat = (cols - 1) as nat;
        lemma_row_within(j, c, nx, ny);
        lemma_row_start(j, nx, ny);
        assert((j + 2) * (nx + 1) == (j + 1) * (nx + 1) + nx + 1) by (nonlinear_arith);
        assert((nx + 1) * (ny + 1) == (ny + 1) * (nx + 1)) by (nonlinear_arith);
        let all = row_triangles(j, cols, nx);
        let prev = row_triangles(j, c, nx);
        assert forall|k: int| 0 <= k < all.len() implies indices_within(
            #[trigger] all[k],
            (nx + 1) * (ny + 1),
        ) by {
            if k < prev.len() {
                assert(all[k] == prev[k]);
            }
        }
    }
}

/// The grid of a function graph indexes only its `(nx + 1) * (ny + 1)` vertices,
/// and has two triangles per cell.
pub proof fn law_grid_well_formed(nx: nat, ny: nat)
    ensures
        polygons_within(grid_triangles(ny, nx), (nx + 1) * (ny + 1)),
        grid_triangles(ny, nx).len() == 2 * nx * ny,
    decreases ny,
{
    if ny > 0 {
        let r: nat = (ny - 1) as nat;
        law_grid_well_formed(nx, r);
        lemma_row_within(r, nx, nx, ny);
        assert((nx + 1) * (r + 1) <= (nx + 1) * (ny + 1)) by (nonlinear_arith)
            requires
                r + 1 == ny,
        ;
        assert(2 * nx * ny == 2 * nx * r + 2 * nx) by (nonlinear_arith)
            requires
                r + 1 == ny,
        ;
        let all = grid_triangles(ny, nx);
        let prev = grid_triangles(r, nx);
        let row = row_triangles(r, nx, nx);
        assert forall|k: int| 0 <= k < all.len() implies indices_within(
            #[trigger] all[k],
            (nx + 1) * (ny + 1),
        ) by {
            if k < prev.len() {
                assert(all[k] == prev[k]);
                assert(indices_within(prev[k], (nx + 1) * (r + 1)));
            } else {
                assert(all[k] == row[k - prev.len()]);
            }
        }
    } else {
        assert(2 * nx * 0 == 0) by (nonlinear_arith);
    }
}

proof fn lemma_row_cells(j: nat, cols: nat, nx: nat, i: nat)
    requires
        i < cols,
    ensures
        row_triangles(j, cols, nx).len() == 2 * cols,
        row_triangles(j, cols, nx)[(2 * i) as int] == cell_lower(i, j, nx),
        row_triangles(j, cols, nx)[(2 * i + 1) as int] == cell_upper(i, j, nx),
    decreases cols,
{
    let c = (cols - 1) as nat;
    if c > 0 {
        lemma_row_len(j, c, nx);
    } else {
        assert(row_triangles(j, 0, nx).len() == 0);
    }
    if i < c {
        lemma_row_cells(j, c, nx, i);
    }
}

proof fn lemma_row_len(j: nat, cols: nat, nx: nat)
    ensures
        row_triangles(j, cols, nx).len() == 2 * cols,
    decreases cols,
{
    if cols > 0 {
        lemma_row_len(j, (cols - 1) as nat, nx);
    }
}

proof fn lemma_grid_cells(rows: nat, nx: nat, i: nat, j: nat)
    requires
        i < nx,
        j < rows,
    ensures
        grid_triangles(rows, nx).len() == 2 * nx * rows,
        grid_triangles(rows, nx)[(2 * (j * nx + i)) as int] == cell_lower(i, j, nx),
        grid_triangles(rows, nx)[(2 * (j * nx + i) + 1) as int] == cell_upper(i, j, nx),
    decreases rows,
{
    let r = (rows - 1) as nat;
    law_grid_well_formed(nx, r);
    law_grid_well_formed(nx, rows);
    lemma_row_len(r, nx, nx);
    let prev = grid_triangles(r, nx);
    let row = row_triangles(r, nx, nx);
    assert(grid_triangles(rows, nx) == prev + row);
    if j < r {
        lemma_grid_cells(r, nx, i, j);
        assert(2 * (j * nx + i) + 1 < 2 * nx * r) by (nonlinear_arith)
            requires
                j < r,
                i < nx,
        ;
    } else {
        lemma_row_cells(r, nx, nx, i);
        assert(2 * (j * nx + i) == 2 * nx * r + 2 * i) by (nonlinear_arith)
            requires
                j == r,
        ;
    }
}

/// Where the triangles of a function graph are: cell `(i, j)` (column `i < nx`,
/// row `j < ny`) gives triangles `2 * (j * nx + i)` and `2 * (j * nx + i) + 1`,
/// the first joining its corners `(i, j)`, `(i + 1, j)`, `(i + 1, j + 1)` and the
/// second `(i, j)`, `(i + 1, j + 1)`, `(i, j + 1)`, where corner `(x, y)` is vertex
/// `y * (nx + 1) + x`.
pub proof fn law_grid_cells(nx: nat, ny: nat, i: nat, j: nat)
    requires
        i < nx,
        j < ny,
    ensures
        grid_triangles(ny, nx)[(2 * (j * nx + i)) as int] == seq![
            (j * (nx + 1) + i) as usize,
            (j * (nx + 1) + i + 1) as usize,
            ((j + 1) * (nx + 1) + i + 1) as usize,
        ],
        grid_triangles(ny, nx)[(2 * (j * nx + i) + 1) as int] == seq![
            (j * (nx + 1) + i) as usize,
            ((j + 1) * (nx + 1) + i + 1) as usize,
            ((j + 1) * (nx + 1) + i) as usize,
        ],
{
    lemma_grid_cells(ny, nx, i, j);
    assert(cell_lower(i, j, nx) =~= seq![
        (j * (nx + 1) + i) as usize,
        (j * (nx + 1) + i + 1) as usize,
        ((j + 1) * (nx + 1) + i + 1) as usize,
    ]);
    assert(cell_upper(i, j, nx) =~= seq![
        (j * (nx + 1) + i) as usize,
        ((j + 1) * (nx + 1) + i + 1) as usize,
        ((j + 1) * (nx + 1) + i) as usize,
    ]);
}

} // verus!

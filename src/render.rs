use vstd::prelude::*;
use vstd::arithmetic::div_mod::{lemma_fundamental_div_mod, lemma_fundamental_div_mod_converse};
use crate::frame::Frame;
use crate::glyph::{glyph_for, spec_glyph, spec_luminance};

verus! {

/// Number of addressable positions along one axis of the terminal.
pub const ADDRESSABLE: u32 = 65536;

/// A glyph placed at a column and row of the terminal.
#[derive(Clone, Copy, Debug, PartialEq, Eq)]
pub struct Cell {
    pub col: u16,
    pub row: u16,
    pub glyph: char,
}

/// Source pixels per character cell along an axis: `max(1, dim / target)`.
pub open spec fn spec_stride(dim: int, target: int) -> int {
    if dim / target >= 1 {
        dim / target
    } else {
        1
    }
}

/// How many sampled positions `0, stride, 2 * stride, ...` lie below `dim`.
pub open spec fn sample_count(dim: int, stride: int) -> int {
    (dim + stride - 1) / stride
}

/// How many of those samples get drawn: the ones whose cell is addressable.
pub open spec fn drawn_count(dim: int, stride: int) -> int {
    if sample_count(dim, stride) <= ADDRESSABLE {
        sample_count(dim, stride)
    } else {
        ADDRESSABLE as int
    }
}

/// The cell for sample `(i, j)`: it shows the glyph of the pixel at
/// `(i * sx, j * sy)`, at column `(i * sx) / sx == i` and row `j`.
pub open spec fn spec_cell(frame: Frame, sx: int, sy: int, i: int, j: int) -> Cell {
    let p = frame.spec_pixel(i * sx, j * sy);
    Cell { col: i as u16, row: j as u16, glyph: spec_glyph(spec_luminance(p.0, p.1, p.2)) }
}

/// The first `n` cells of the row-major walk over a grid `columns` samples wide.
pub open spec fn spec_cells(frame: Frame, sx: int, sy: int, columns: int, n: int) -> Seq<Cell> {
    Seq::new(n as nat, |k: int| spec_cell(frame, sx, sy, k % columns, k / columns))
}

/// Everything that rendering `frame` onto a `target_columns` by `target_rows`
/// grid draws, in drawing order.
pub open spec fn spec_render(frame: Frame, target_columns: int, target_rows: int) -> Seq<Cell> {
    let sx = spec_stride(frame.spec_width() as int, target_columns);
    let sy = spec_stride(frame.spec_height() as int, target_rows);
    let nx = drawn_count(frame.spec_width() as int, sx);
    let ny = drawn_count(frame.spec_height() as int, sy);
    spec_cells(frame, sx, sy, nx, nx * ny)
}

/// Sample `i` lies inside the extent exactly when `i` is below the count.
proof fn lemma_sample_in_range(i: int, stride: int, dim: int)
    requires
        stride > 0,
        i >= 0,
        dim >= 0,
    ensures
        i < sample_count(dim, stride) <==> i * stride < dim,
        sample_count(dim, stride) <= dim,
{
    let x = dim + stride - 1;
    lemma_fundamental_div_mod(x, stride);
    let q = x / stride;
    let r = x % stride;
    assert(0 <= r < stride);
    assert(i < q <==> i * stride < dim) by (nonlinear_arith)
        requires
            x == stride * q + r,
            0 <= r < stride,
            x == dim + stride - 1,
            stride > 0,
            i >= 0,
    ;
    assert(q <= dim) by (nonlinear_arith)
        requires
            x == stride * q + r,
            0 <= r < stride,
            x == dim + stride - 1,
            stride > 0,
            dim >= 0,
    ;
}

/// Rendering draws each cell at its own position: cell `k` of the result
/// sits at column `k % nx` and row `k / nx` of the `nx` by `ny` grid of
/// drawn samples, so no two cells share a position and all lie in the grid.
pub proof fn lemma_render_positions(frame: Frame, target_columns: int, target_rows: int)
    requires
        target_columns > 0,
        target_rows > 0,
    ensures
        ({
            let cells = spec_render(frame, target_columns, target_rows);
            let nx = drawn_count(frame.spec_width() as int, spec_stride(frame.spec_width() as int, target_columns));
            let ny = drawn_count(frame.spec_height() as int, spec_stride(frame.spec_height() as int, target_rows));
            &&& cells.len() == nx * ny
            &&& forall|a: int| 0 <= a < cells.len() ==> #[trigger] cells[a].col < nx && cells[a].row < ny
            &&& forall|a: int, b: int|
                0 <= a < cells.len() && 0 <= b < cells.len() && a != b ==> (#[trigger] cells[a].col != #[trigger] cells[b].col
                    || cells[a].row != cells[b].row)
        }),
{
    let cells = spec_render(frame, target_columns, target_rows);
    let sx = spec_stride(frame.spec_width() as int, target_columns);
    let sy = spec_stride(frame.spec_height() as int, target_rows);
    let nx = drawn_count(frame.spec_width() as int, sx);
    let ny = drawn_count(frame.spec_height() as int, sy);
    lemma_sample_in_range(0, sx, frame.spec_width() as int);
    lemma_sample_in_range(0, sy, frame.spec_height() as int);
    assert(0 <= nx * ny) by (nonlinear_arith)
        requires
            0 <= nx,
            0 <= ny,
    ;
    assert forall|a: int| 0 <= a < cells.len() implies #[trigger] cells[a].col < nx && cells[a].row < ny
        && cells[a].col == a % nx && cells[a].row == a / nx by {
        lemma_grid_index(a, nx, ny);
    }
    assert forall|a: int, b: int|
        0 <= a < cells.len() && 0 <= b < cells.len() && a != b implies (#[trigger] cells[a].col
        != #[trigger] cells[b].col || cells[a].row != cells[b].row) by {
        lemma_grid_index(a, nx, ny);
        lemma_grid_index(b, nx, ny);
        lemma_fundamental_div_mod(a, nx);
        lemma_fundamental_div_mod(b, nx);
    }
}

/// An index below `nx * ny` splits into a column below `nx` and a row
/// below `ny`.
proof fn lemma_grid_index(k: int, nx: int, ny: int)
    requires
        0 <= k < nx * ny,
        0 <= nx <= ADDRESSABLE,
        0 <= ny <= ADDRESSABLE,
    ensures
        nx > 0,
        0 <= k % nx < nx,
        0 <= k / nx < ny,
{
    assert(nx > 0) by (nonlinear_arith)
        requires
            0 <= k < nx * ny,
            0 <= nx,
            0 <= ny,
    ;
    lemma_fundamental_div_mod(k, nx);
    assert(0 <= k % nx < nx);
    assert(0 <= k / nx < ny) by (nonlinear_arith)
        requires
            k == nx * (k / nx) + k % nx,
            0 <= k % nx < nx,
            0 <= k < nx * ny,
            nx > 0,
    ;
}

/// The sampling stride along an axis of `dim` pixels shown on `target` cells.
pub fn stride(dim: u32, target: u32) -> (s: u32)
    requires
        target > 0,
    ensures
        s == spec_stride(dim as int, target as int),
        s >= 1,
{
    let q = dim / target;
    if q >= 1 {
        q
    } else {
        1
    }
}

fn drawn(dim: u32, stride: u32) -> (n: u32)
    requires
        stride > 0,
    ensures
        n == drawn_count(dim as int, stride as int),
{
    let count: u64 = ((dim as u64) + (stride as u64) - 1) / (stride as u64);
    if count <= ADDRESSABLE as u64 {
        count as u32
    } else {
        ADDRESSABLE
    }
}

/// Samples `frame` every `stride(width, target_columns)` columns and every
/// `stride(height, target_rows)` rows, and returns for each sample, in
/// row-major order, the glyph of its pixel at the cell `(x / sx, y / sy)`.
/// Samples whose cell lies past the terminal's addressable range are
/// dropped; a frame with no width or no height gives no cells.
pub fn render(frame: &Frame, target_columns: u32, target_rows: u32) -> (cells: Vec<Cell>)
    requires
        frame.wf(),
        target_columns > 0,
        target_rows > 0,
    ensures
        cells@ == spec_render(*frame, target_columns as int, target_rows as int),
{
    let width = frame.width();
    let height = frame.height();
    let sx = stride(width, target_columns);
    let sy = stride(height, target_rows);
    let nx = drawn(width, sx);
    let ny = drawn(height, sy);
    let ghost f = *frame;
    let mut cells: Vec<Cell> = Vec::new();
    let mut j: u32 = 0;
    while j < ny
        invariant
            f == *frame,
            frame.wf(),
            width == frame.spec_width(),
            height == frame.spec_height(),
            sx >= 1,
            sy >= 1,
            nx == drawn_count(width as int, sx as int),
            ny == drawn_count(height as int, sy as int),
            j <= ny,
            cells@ == spec_cells(f, sx as int, sy as int, nx as int, j * nx),
        decreases ny - j,
    {
        proof {
            lemma_sample_in_range(j as int, sy as int, height as int);
        }
        let y: u32 = j * sy;
        let mut i: u32 = 0;
        while i < nx
            invariant
                f == *frame,
                frame.wf(),
                width == frame.spec_width(),
                height == frame.spec_height(),
                sx >= 1,
                nx == drawn_count(width as int, sx as int),
                j < ny <= ADDRESSABLE,
                y == j * sy,
                y < height,
                i <= nx,
                cells@ == spec_cells(f, sx as int, sy as int, nx as int, j * nx + i),
            decreases nx - i,
        {
            proof {
                lemma_sample_in_range(i as int, sx as int, width as int);
            }
            let x: u32 = i * sx;
            if let Some(p) = frame.get_pixel(x, y) {
                let cell = Cell { col: i as u16, row: j as u16, glyph: glyph_for(p.0, p.1, p.2) };
                cells.push(cell);
            }
            proof {
                let k = j * nx + i;
                lemma_fundamental_div_mod_converse(k, nx as int, j as int, i as int);
                assert(cells@ =~= spec_cells(f, sx as int, sy as int, nx as int, k + 1));
            }
            i = i + 1;
        }
        assert(j * nx + nx == (j + 1) * nx) by (nonlinear_arith);
        j = j + 1;
    }
    assert(ny * nx == nx * ny) by (nonlinear_arith);
    cells
}

} // verus!

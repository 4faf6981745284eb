//! Row-major layout of two-dimensional grids in flat vectors.
use vstd::prelude::*;

verus! {

/// Position of (`row`, `col`) in a row-major grid with `cols` columns.
pub open spec fn row_major(cols: int, row: int, col: int) -> int {
    row * cols + col
}

/// A cell inside a `rows` x `cols` grid has a position inside its storage.
pub proof fn lemma_row_major_bounds(rows: int, cols: int, row: int, col: int)
    requires
        0 <= row < rows,
        0 <= col < cols,
    ensures
        0 <= row * cols <= row_major(cols, row, col) < rows * cols,
{
    assert(0 <= row * cols <= row * cols + col < rows * cols) by (nonlinear_arith)
        requires
            0 <= row < rows,
            0 <= col < cols,
    ;
}

/// Distinct cells of a grid have distinct positions.
pub proof fn lemma_row_major_injective(cols: int, r1: int, c1: int, r2: int, c2: int)
    requires
        0 <= c1 < cols,
        0 <= c2 < cols,
        0 <= r1,
        0 <= r2,
        row_major(cols, r1, c1) == row_major(cols, r2, c2),
    ensures
        r1 == r2,
        c1 == c2,
{
    assert(r1 == r2) by (nonlinear_arith)
        requires
            0 <= c1 < cols,
            0 <= c2 < cols,
            0 <= r1,
            0 <= r2,
            r1 * cols + c1 == r2 * cols + c2,
    {
        if r1 < r2 {
            assert(r1 * cols + cols <= r2 * cols);
        }
        if r2 < r1 {
            assert(r2 * cols + cols <= r1 * cols);
        }
    }
}

/// The first cell of the next row follows the last cell of a row.
pub proof fn lemma_row_major_next_row(cols: int, row: int)
    ensures
        row_major(cols, row + 1, 0) == row_major(cols, row, 0) + cols,
        row_major(cols, 0, 0) == 0,
{
    assert((row + 1) * cols == row * cols + cols) by (nonlinear_arith);
    assert(0 * cols == 0) by (nonlinear_arith);
}

/// A row index at or past the last row lies past the end of the storage.
pub proof fn lemma_row_major_past_end(rows: int, cols: int, row: int)
    requires
        rows <= row,
        0 <= cols,
    ensures
        rows * cols <= row * cols,
{
    assert(rows * cols <= row * cols) by (nonlinear_arith)
        requires
            rows <= row,
            0 <= cols,
    ;
}

} // verus!

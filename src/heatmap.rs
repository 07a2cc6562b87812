//! Layout of heatmap tiles: values are given row by row, `cols` per row.
use vstd::prelude::*;

verus! {

/// Number of columns and rows of a heatmap grid.
#[derive(Debug, Clone, Copy, PartialEq, Eq, Structural)]
pub struct HeatmapShape {
    pub cols: usize,
    pub rows: usize,
}

/// The grid that `len` values fill at `cols` per row, where they fill whole
/// rows: an empty heatmap stands in for a zero column count, no values, or a
/// partial last row.
pub fn heatmap_shape(len: usize, cols: usize) -> (r: HeatmapShape)
    ensures
        (cols == 0 || len == 0 || len % cols != 0) ==> r == (HeatmapShape { cols: 0, rows: 0 }),
        !(cols == 0 || len == 0 || len % cols != 0) ==> r.cols == cols && r.rows * cols == len,
{
    if cols == 0 || len == 0 || len % cols != 0 {
        return HeatmapShape { cols: 0, rows: 0 };
    }
    let rows = len / cols;
    proof {
        vstd::arithmetic::div_mod::lemma_fundamental_div_mod(len as int, cols as int);
        vstd::arithmetic::mul::lemma_mul_is_commutative(cols as int, rows as int);
    }
    HeatmapShape { cols, rows }
}

/// The column and row of the tile that shows value number `index`.
pub fn tile_cell(index: usize, cols: usize) -> (r: (usize, usize))
    requires
        cols > 0,
    ensures
        r.0 < cols,
        r.1 * cols + r.0 == index,
{
    let x = index % cols;
    let y = index / cols;
    proof {
        vstd::arithmetic::div_mod::lemma_fundamental_div_mod(index as int, cols as int);
        vstd::arithmetic::mul::lemma_mul_is_commutative(cols as int, y as int);
    }
    (x, y)
}

} // verus!

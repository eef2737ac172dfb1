//! Fixed-size grid layout: how many uniform cells fit per row in the
//! available width, how many rows a given number of entries needs, and where
//! each cell sits. Everything is integer pixel arithmetic; the layout is
//! recomputed from scratch whenever the available space or the entry count
//! changes.

use vstd::prelude::*;

verus! {

use vstd::arithmetic::div_mod::{
    lemma_div_is_ordered,
    lemma_div_of0,
    lemma_div_nonincreasing,
    lemma_fundamental_div_mod,
    lemma_mod_bound,
};

/// Number of columns the grid uses:
/// `floor((avail_w - 2*margin + spacing) / (item_w + spacing))`, but never
/// fewer than one column, however narrow the view is.
pub open spec fn spec_columns(avail_w: int, item_w: int, spacing: int, margin: int) -> int
    recommends
        item_w + spacing >= 1,
{
    let q = (avail_w - 2 * margin + spacing) / (item_w + spacing);
    if q < 1 {
        1
    } else {
        q
    }
}

/// Number of rows needed for `item_count` entries laid out row-major over
/// `columns` columns: `ceil(item_count / columns)`, and zero for an empty view.
pub open spec fn spec_rows(item_count: int, columns: int) -> int
    recommends
        columns >= 1,
{
    if item_count == 0 {
        0
    } else {
        (item_count - 1) / columns + 1
    }
}

/// The column and row counts of one laid-out grid.
pub struct GridGeometry {
    pub columns: u64,
    pub rows: u64,
}

/// The fixed-size rectangle of one cell, in pixels from the top-left corner
/// of the view.
pub struct CellRect {
    pub x: u64,
    pub y: u64,
    pub width: u64,
    pub height: u64,
}

/// How many cells of width `item_w`, separated by `spacing` and inset by
/// `margin` on every side, fit in one row of a view `avail_w` wide.
pub fn columns(avail_w: u32, item_w: u32, spacing: u32, margin: u32) -> (c: u64)
    requires
        item_w + spacing >= 1,
    ensures
        c == spec_columns(avail_w as int, item_w as int, spacing as int, margin as int),
        c >= 1,
{
    let widened = avail_w as u64 + spacing as u64;
    let inset = 2 * (margin as u64);
    let stride = item_w as u64 + spacing as u64;
    if widened <= inset {
        proof {
            let numer = avail_w as int - 2 * (margin as int) + spacing as int;
            lemma_div_is_ordered(numer, 0, stride as int);
            lemma_div_of0(stride as int);
        }
        1
    } else {
        let q = (widened - inset) / stride;
        if q < 1 {
            1
        } else {
            q
        }
    }
}

/// How many rows `item_count` entries occupy at `columns` per row.
pub fn rows(item_count: usize, columns: u64) -> (r: u64)
    requires
        columns >= 1,
    ensures
        r == spec_rows(item_count as int, columns as int),
{
    if item_count == 0 {
        0
    } else {
        proof {
            lemma_div_nonincreasing((item_count - 1) as int, columns as int);
        }
        (item_count as u64 - 1) / columns + 1
    }
}

/// The row count is exactly enough: every entry has a cell, and no whole row
/// at the bottom is empty.
pub proof fn lemma_rows_exact(item_count: int, columns: int)
    requires
        columns >= 1,
        item_count >= 0,
    ensures
        spec_rows(item_count, columns) * columns >= item_count,
        item_count > 0 ==> (spec_rows(item_count, columns) - 1) * columns < item_count,
{
    if item_count > 0 {
        lemma_fundamental_div_mod(item_count - 1, columns);
        lemma_mod_bound(item_count - 1, columns);
        let q = (item_count - 1) / columns;
        let m = (item_count - 1) % columns;
        assert((q + 1) * columns >= item_count && q * columns < item_count) by (nonlinear_arith)
            requires
                item_count - 1 == columns * q + m,
                0 <= m < columns,
        ;
    }
}

/// Computes both counts for the current frame.
pub fn layout(avail_w: u32, item_w: u32, spacing: u32, margin: u32, item_count: usize) -> (g:
    GridGeometry)
    requires
        item_w + spacing >= 1,
    ensures
        g.columns == spec_columns(avail_w as int, item_w as int, spacing as int, margin as int),
        g.columns >= 1,
        g.rows == spec_rows(item_count as int, g.columns as int),
{
    let c = columns(avail_w, item_w, spacing, margin);
    let r = rows(item_count, c);
    GridGeometry { columns: c, rows: r }
}

/// The rectangle of cell `i` (0-indexed, row-major): `item_w x item_h`,
/// offset by the margin and by one `item + spacing` stride per column and row.
pub fn cell_rect(i: usize, columns: u64, item_w: u32, item_h: u32, spacing: u32, margin: u32) -> (r:
    CellRect)
    requires
        columns >= 1,
        margin + ((i as int) % (columns as int)) * (item_w + spacing) <= u64::MAX,
        margin + ((i as int) / (columns as int)) * (item_h + spacing) <= u64::MAX,
    ensures
        r.x == margin + ((i as int) % (columns as int)) * (item_w + spacing),
        r.y == margin + ((i as int) / (columns as int)) * (item_h + spacing),
        r.width == item_w,
        r.height == item_h,
{
    let col = (i as u64) % columns;
    let row = (i as u64) / columns;
    let stride_x = item_w as u64 + spacing as u64;
    let stride_y = item_h as u64 + spacing as u64;
    CellRect {
        x: margin as u64 + col * stride_x,
        y: margin as u64 + row * stride_y,
        width: item_w as u64,
        height: item_h as u64,
    }
}

} // verus!

use rsfm::grid::{cell_rect, columns, layout, rows};

#[test]
fn five_columns_two_rows() {
    // 500 wide, 70-wide items, 20 spacing, 10 margin, 7 items:
    // floor((500 - 20 + 20) / 90) = 5 columns, ceil(7 / 5) = 2 rows.
    let g = layout(500, 70, 20, 10, 7);
    assert_eq!(g.columns, 5);
    assert_eq!(g.rows, 2);
}

#[test]
fn item_height_is_irrelevant_to_columns() {
    assert_eq!(columns(500, 70, 20, 10), 5);
}

#[test]
fn at_least_one_column_in_a_narrow_view() {
    // The items do not fit at all, yet the grid never collapses below one
    // column.
    assert_eq!(columns(10, 300, 20, 10), 1);
    assert_eq!(columns(0, 300, 0, 200), 1);
}

#[test]
fn empty_view_has_no_rows() {
    let g = layout(500, 70, 20, 10, 0);
    assert_eq!(g.rows, 0);
}

#[test]
fn row_count_is_a_ceiling() {
    assert_eq!(rows(5, 5), 1);
    assert_eq!(rows(6, 5), 2);
    assert_eq!(rows(10, 5), 2);
    assert_eq!(rows(11, 5), 3);
    assert_eq!(rows(1, 7), 1);
}

#[test]
fn cells_are_laid_out_row_major() {
    // 5 columns, 70x90 items, 20 spacing, 10 margin.
    let r0 = cell_rect(0, 5, 70, 90, 20, 10);
    assert_eq!((r0.x, r0.y, r0.width, r0.height), (10, 10, 70, 90));
    let r4 = cell_rect(4, 5, 70, 90, 20, 10);
    assert_eq!((r4.x, r4.y), (10 + 4 * 90, 10));
    let r5 = cell_rect(5, 5, 70, 90, 20, 10);
    assert_eq!((r5.x, r5.y), (10, 10 + 110));
    let r7 = cell_rect(7, 5, 70, 90, 20, 10);
    assert_eq!((r7.x, r7.y), (10 + 2 * 90, 10 + 110));
}

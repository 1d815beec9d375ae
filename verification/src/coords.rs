//! The coordinate translator: converting between top-left-origin row/column
//! space and bottom-left-origin cartesian x/y space.
//!
//! Both coordinate systems describe the same cursor cell; the conversion is
//! parameterized by the current row count of the surface, which callers query
//! fresh because the surface may have been resized. Within the bounds of the
//! surface the two conversions are inverses of one another.

use vstd::prelude::*;

verus! {

/// The cartesian coordinates of the cell at `(row, col)` on a surface of
/// `row_count` rows: x counts columns from the left either way, and y counts
/// rows up from the bottom.
pub open spec fn spec_rc_to_xy(row_count: int, row: int, col: int) -> (int, int) {
    (col, row_count - (row + 1))
}

/// The row/column coordinates of the cell at `(x, y)` on a surface of
/// `row_count` rows.
pub open spec fn spec_xy_to_rc(row_count: int, x: int, y: int) -> (int, int) {
    (row_count - (y + 1), x)
}

/// Converts a row/column position to cartesian coordinates.
pub fn rc_to_xy(row_count: i32, row: i32, col: i32) -> (r: (i32, i32))
    requires
        i32::MIN <= row_count - (row + 1) <= i32::MAX,
    ensures
        (r.0 as int, r.1 as int) == spec_rc_to_xy(row_count as int, row as int, col as int),
{
    let y_wide: i64 = row_count as i64 - (row as i64 + 1);
    (col, y_wide as i32)
}

/// Converts a cartesian position to row/column coordinates.
pub fn xy_to_rc(row_count: i32, x: i32, y: i32) -> (r: (i32, i32))
    requires
        i32::MIN <= row_count - (y + 1) <= i32::MAX,
    ensures
        (r.0 as int, r.1 as int) == spec_xy_to_rc(row_count as int, x as int, y as int),
{
    let row_wide: i64 = row_count as i64 - (y as i64 + 1);
    (row_wide as i32, x)
}

/// Clamps a wide value into the i32 range.
pub fn clamp_to_i32(v: i64) -> (r: i32)
    ensures
        r as int == (if v < i32::MIN {
            i32::MIN as int
        } else if v > i32::MAX {
            i32::MAX as int
        } else {
            v as int
        }),
{
    if v < i32::MIN as i64 {
        i32::MIN
    } else if v > i32::MAX as i64 {
        i32::MAX
    } else {
        v as i32
    }
}

/// Law: the two conversions are a bijection within the bounds of the surface.
/// For any surface of at least one row and one column, converting an
/// in-bounds row/column pair to cartesian coordinates and back yields the
/// original pair, and likewise starting from an in-bounds cartesian pair.
pub proof fn lemma_coordinate_round_trip(row_count: int, col_count: int, row: int, col: int, x: int, y: int)
    requires
        1 <= row_count,
        1 <= col_count,
        0 <= row < row_count,
        0 <= col < col_count,
        0 <= x < col_count,
        0 <= y < row_count,
    ensures
        spec_xy_to_rc(
            row_count,
            spec_rc_to_xy(row_count, row, col).0,
            spec_rc_to_xy(row_count, row, col).1,
        ) == (row, col),
        spec_rc_to_xy(
            row_count,
            spec_xy_to_rc(row_count, x, y).0,
            spec_xy_to_rc(row_count, x, y).1,
        ) == (x, y),
{
}

} // verus!

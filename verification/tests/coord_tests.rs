use easycurses::{clamp_to_i32, rc_to_xy, xy_to_rc};

#[test]
fn rc_to_xy_concrete() {
    // On a 5-row surface, row 2 is 2 rows up from the bottom.
    assert_eq!(rc_to_xy(5, 2, 3), (3, 2));
    // The top row maps to the highest y.
    assert_eq!(rc_to_xy(5, 0, 0), (0, 4));
    // The bottom row maps to y = 0.
    assert_eq!(rc_to_xy(5, 4, 1), (1, 0));
    // A one-cell surface is a fixed point.
    assert_eq!(rc_to_xy(1, 0, 0), (0, 0));
}

#[test]
fn xy_to_rc_concrete() {
    assert_eq!(xy_to_rc(5, 3, 2), (2, 3));
    assert_eq!(xy_to_rc(5, 0, 4), (0, 0));
    assert_eq!(xy_to_rc(5, 1, 0), (4, 1));
    assert_eq!(xy_to_rc(1, 0, 0), (0, 0));
}

#[test]
fn coordinates_round_trip_within_bounds() {
    for row_count in 1..12 {
        for col_count in 1..4 {
            for row in 0..row_count {
                for col in 0..col_count {
                    let (x, y) = rc_to_xy(row_count, row, col);
                    assert_eq!(xy_to_rc(row_count, x, y), (row, col));
                }
            }
            for y in 0..row_count {
                for x in 0..col_count {
                    let (row, col) = xy_to_rc(row_count, x, y);
                    assert_eq!(rc_to_xy(row_count, row, col), (x, y));
                }
            }
        }
    }
}

#[test]
fn clamp_to_i32_saturates() {
    assert_eq!(clamp_to_i32(0), 0);
    assert_eq!(clamp_to_i32(-7), -7);
    assert_eq!(clamp_to_i32(i64::from(i32::MAX) + 1), i32::MAX);
    assert_eq!(clamp_to_i32(i64::from(i32::MIN) - 1), i32::MIN);
    assert_eq!(clamp_to_i32(i64::from(i32::MAX)), i32::MAX);
    assert_eq!(clamp_to_i32(i64::from(i32::MIN)), i32::MIN);
}

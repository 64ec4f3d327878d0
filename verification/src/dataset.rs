//! The fixed dataset: five (x, y) pairs that the residual function is
//! evaluated against. The points are compiled in and never change.

use vstd::prelude::*;

verus! {

/// Number of points in the fixed dataset.
pub const DATA_LEN: usize = 5;

/// Abscissa of point `i` of the fixed dataset: x = [1, 2, 3, 4, 5].
pub open spec fn x_at(i: int) -> int {
    if i == 0 {
        1
    } else if i == 1 {
        2
    } else if i == 2 {
        3
    } else if i == 3 {
        4
    } else {
        5
    }
}

/// Target value of point `i` of the fixed dataset: y = [3, 7, 9, 21, 8].
pub open spec fn y_at(i: int) -> int {
    if i == 0 {
        3
    } else if i == 1 {
        7
    } else if i == 2 {
        9
    } else if i == 3 {
        21
    } else {
        8
    }
}

/// The abscissa of point `i`.
pub fn x_value(i: usize) -> (x: i64)
    requires
        i < DATA_LEN,
    ensures
        x as int == x_at(i as int),
{
    match i {
        0 => 1,
        1 => 2,
        2 => 3,
        3 => 4,
        _ => 5,
    }
}

/// The target value of point `i`.
pub fn y_value(i: usize) -> (y: i64)
    requires
        i < DATA_LEN,
    ensures
        y as int == y_at(i as int),
{
    match i {
        0 => 3,
        1 => 7,
        2 => 9,
        3 => 21,
        _ => 8,
    }
}

/// The `(x, y)` pair of point `i`.
pub fn data_point(i: usize) -> (p: (i64, i64))
    requires
        i < DATA_LEN,
    ensures
        p.0 as int == x_at(i as int),
        p.1 as int == y_at(i as int),
{
    (x_value(i), y_value(i))
}

} // verus!

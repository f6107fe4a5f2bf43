//! Geometry primitives: grid positions, half-open rectangles, and the
//! decomposition of a scroll into a move plus erased strips.

use vstd::prelude::*;

verus! {

/// A zero-based grid coordinate. Ordering is row-major: compare the row
/// first, then the column.
#[derive(Clone, Copy, PartialEq, Eq, Structural, Debug)]
pub struct VTermPos {
    pub row: i32,
    pub col: i32,
}

/// A half-open rectangle `[start_row, end_row) x [start_col, end_col)`.
/// A well-formed rectangle has `start_row <= end_row` and
/// `start_col <= end_col`.
#[derive(Clone, Copy, PartialEq, Eq, Structural, Debug)]
pub struct VTermRect {
    pub start_row: i32,
    pub end_row: i32,
    pub start_col: i32,
    pub end_col: i32,
}

/// Coordinate magnitude below which row-major comparison cannot overflow.
pub const COORD_LIMIT: i32 = 0x4000_0000;

pub open spec fn rect_wf(r: VTermRect) -> bool {
    r.start_row <= r.end_row && r.start_col <= r.end_col
}

/// Half-open containment on both axes.
pub open spec fn rect_contains_spec(r: VTermRect, p: VTermPos) -> bool {
    &&& r.start_row <= p.row < r.end_row
    &&& r.start_col <= p.col < r.end_col
}

/// Row-major comparison of two positions: negative when `a` precedes `b`,
/// zero when equal, positive when `a` follows `b`.
pub fn vterm_pos_cmp(a: VTermPos, b: VTermPos) -> (r: i32)
    requires
        -COORD_LIMIT < a.row < COORD_LIMIT,
        -COORD_LIMIT < a.col < COORD_LIMIT,
        -COORD_LIMIT < b.row < COORD_LIMIT,
        -COORD_LIMIT < b.col < COORD_LIMIT,
    ensures
        r == if a.row == b.row { a.col - b.col } else { a.row - b.row },
        (r == 0) <==> (a.row == b.row && a.col == b.col),
        (r < 0) <==> (a.row < b.row || (a.row == b.row && a.col < b.col)),
{
    if a.row == b.row {
        a.col - b.col
    } else {
        a.row - b.row
    }
}

/// Whether `p` lies inside `r`, checking each axis against its own bounds
/// with half-open semantics.
pub fn vterm_rect_contains(r: VTermRect, p: VTermPos) -> (c: bool)
    ensures
        c == rect_contains_spec(r, p),
{
    p.row >= r.start_row && p.row < r.end_row && p.col >= r.start_col && p.col < r.end_col
}

/// Translates a rectangle by `(row_delta, col_delta)`.
pub fn vterm_rect_move(rect: &mut VTermRect, row_delta: i32, col_delta: i32)
    requires
        i32::MIN <= old(rect).start_row + row_delta <= i32::MAX,
        i32::MIN <= old(rect).end_row + row_delta <= i32::MAX,
        i32::MIN <= old(rect).start_col + col_delta <= i32::MAX,
        i32::MIN <= old(rect).end_col + col_delta <= i32::MAX,
    ensures
        final(rect).start_row == old(rect).start_row + row_delta,
        final(rect).end_row == old(rect).end_row + row_delta,
        final(rect).start_col == old(rect).start_col + col_delta,
        final(rect).end_col == old(rect).end_col + col_delta,
{
    rect.start_row = rect.start_row + row_delta;
    rect.end_row = rect.end_row + row_delta;
    rect.start_col = rect.start_col + col_delta;
    rect.end_col = rect.end_col + col_delta;
}

} // verus!

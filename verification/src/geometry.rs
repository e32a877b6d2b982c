//! Points on the canvas, and the half-pixel shift that keeps axis-aligned
//! lines sharp.
//!
//! The canvas takes coordinates as real numbers. Every coordinate that this
//! library hands it is a whole or a half pixel, so it is written as a pair of
//! integers in half-pixel units: `(x, y)` stands for the point `(x / 2, y / 2)`.
use vstd::prelude::*;

verus! {

/// A point on the backend's pixel grid.
pub type BackendCoord = (i32, i32);

/// A point in half-pixel units: `(x, y)` stands for `(x / 2, y / 2)` in pixels.
pub type HalfCoord = (i64, i64);

/// The pixel point `p` in half-pixel units.
pub open spec fn halves(p: BackendCoord) -> (int, int) {
    (2 * p.0, 2 * p.1)
}

/// A half-pixel point as mathematical integers.
pub open spec fn half_coord(p: HalfCoord) -> (int, int) {
    (p.0 as int, p.1 as int)
}

/// A point of mathematical integers as a half-pixel point.
pub open spec fn to_half(p: (int, int)) -> HalfCoord {
    (p.0 as i64, p.1 as i64)
}

/// The pixel point `p` in half-pixel units.
pub fn to_halves(p: BackendCoord) -> (h: HalfCoord)
    ensures
        half_coord(h) == halves(p),
        h == to_half(halves(p)),
{
    (2 * (p.0 as i64), 2 * (p.1 as i64))
}

/// The ends of the line from `from` to `end` as they are drawn: where both ends
/// share their second coordinate, both first coordinates move back half a
/// pixel; where both ends share their first coordinate, both second
/// coordinates move back half a pixel. Other lines keep their ends.
pub open spec fn snapped_line(from: BackendCoord, end: BackendCoord) -> ((int, int), (int, int)) {
    let dx: int = if from.1 == end.1 { 1 } else { 0 };
    let dy: int = if from.0 == end.0 { 1 } else { 0 };
    ((2 * from.0 - dx, 2 * from.1 - dy), (2 * end.0 - dx, 2 * end.1 - dy))
}

/// Moves the ends of an axis-aligned line by half a pixel so that the canvas
/// draws it sharp rather than blurred over two rows or columns of pixels.
/// The result is in half-pixel units.
pub fn fine_hor_ver_lines(from: BackendCoord, end: BackendCoord) -> (r: (HalfCoord, HalfCoord))
    ensures
        (half_coord(r.0), half_coord(r.1)) == snapped_line(from, end),
        r == (to_half(snapped_line(from, end).0), to_half(snapped_line(from, end).1)),
{
    let mut a: HalfCoord = to_halves(from);
    let mut b: HalfCoord = to_halves(end);
    if from.1 == end.1 {
        a.0 = a.0 - 1;
        b.0 = b.0 - 1;
    }
    if from.0 == end.0 {
        a.1 = a.1 - 1;
        b.1 = b.1 - 1;
    }
    (a, b)
}

} // verus!

//! Points, sizes and rectangles in logical window coordinates, and the
//! uniform inset used when stroking a border just inside a view's bounds.

use vstd::prelude::*;
use crate::MAX_COORD;

verus! {

/// A position in logical window coordinates.
#[derive(Clone, Copy, Debug, PartialEq, Eq, Structural)]
pub struct Point {
    pub x: i64,
    pub y: i64,
}

/// An extent in logical window coordinates.
#[derive(Clone, Copy, Debug, PartialEq, Eq, Structural)]
pub struct Size {
    pub width: i64,
    pub height: i64,
}

/// An axis-aligned rectangle: an origin and an extent.
#[derive(Clone, Copy, Debug, PartialEq, Eq, Structural)]
pub struct Rect {
    pub origin: Point,
    pub size: Size,
}

/// A coordinate small enough that sums of a few of them stay in `i64`.
pub open spec fn coord_ok(v: int) -> bool {
    -MAX_COORD <= v <= MAX_COORD
}

/// Every coordinate of the rectangle is in range.
pub open spec fn rect_ok(r: Rect) -> bool {
    &&& coord_ok(r.origin.x as int)
    &&& coord_ok(r.origin.y as int)
    &&& coord_ok(r.size.width as int)
    &&& coord_ok(r.size.height as int)
}

/// The rectangle `r` shrunk uniformly by `inset` on all four sides: the
/// origin moves in by `inset` on each axis and each extent loses `2 * inset`.
pub open spec fn spec_inset_rect(r: Rect, inset: int) -> Rect {
    Rect {
        origin: Point { x: (r.origin.x + inset) as i64, y: (r.origin.y + inset) as i64 },
        size: Size {
            width: (r.size.width - 2 * inset) as i64,
            height: (r.size.height - 2 * inset) as i64,
        },
    }
}

/// Shrinks `rect` uniformly by `inset` on all sides. A large inset may leave
/// a zero or negative extent; that degenerate rectangle is returned as it is,
/// for the caller to stroke or discard.
pub fn inset_rect(rect: &Rect, inset: i64) -> (r: Rect)
    requires
        rect_ok(*rect),
        0 <= inset <= MAX_COORD,
    ensures
        r == spec_inset_rect(*rect, inset as int),
        r.origin.x == rect.origin.x + inset,
        r.origin.y == rect.origin.y + inset,
        r.size.width == rect.size.width - 2 * inset,
        r.size.height == rect.size.height - 2 * inset,
{
    Rect {
        origin: Point { x: rect.origin.x + inset, y: rect.origin.y + inset },
        size: Size {
            width: rect.size.width - 2 * inset,
            height: rect.size.height - 2 * inset,
        },
    }
}

} // verus!

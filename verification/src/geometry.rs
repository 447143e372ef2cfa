//! Integer pixel geometry. Every length in the crate is carried in subpixel
//! units, [`SUBUNITS_PER_PIXEL`] to the pixel, so that layout and hit-test
//! arithmetic is exact; the host shell converts to and from its own
//! floating-point coordinates.

use vstd::prelude::*;

verus! {

/// Subpixel units per pixel. A host converts a pixel length to units by
/// multiplying with this and rounding to a multiple of 8, which keeps every
/// derived cell width (2.5 characters plus an eighth of the group spacing)
/// exact.
pub const SUBUNITS_PER_PIXEL: u64 = 64;

/// Ceiling on a viewport origin coordinate, in subpixel units.
pub const MAX_COORD: u64 = 0x4000_0000_0000;

/// Ceiling on a viewport width or height, in subpixel units.
pub const MAX_VIEWPORT: u64 = 0x1_0000_0000;

/// Ceiling on a character cell width or height, in subpixel units.
pub const MAX_CHAR_SIZE: u64 = 0x10_0000;

/// Ceiling on the visible row count.
pub const MAX_ROW_COUNT: u64 = 0x1_0000_0000;

/// An axis-aligned rectangle in subpixel units.
#[derive(Clone, Copy, Debug, PartialEq, Eq, Structural)]
pub struct Rect {
    pub x: u64,
    pub y: u64,
    pub width: u64,
    pub height: u64,
}

/// A pointer position in subpixel units. It may lie anywhere on the screen,
/// including left of or above the widget.
#[derive(Clone, Copy, Debug, PartialEq, Eq, Structural)]
pub struct Position {
    pub x: i64,
    pub y: i64,
}

/// Whether the point `(x, y)` lies inside `r`, with `r`'s left and top edges
/// included and its right and bottom edges excluded.
pub open spec fn contains_spec(r: Rect, x: int, y: int) -> bool {
    &&& r.x <= x < r.x + r.width
    &&& r.y <= y < r.y + r.height
}

impl Rect {
    /// Bounds under which the rectangle's edges fit comfortably in signed
    /// 64-bit arithmetic.
    pub open spec fn wf(&self) -> bool {
        &&& self.x <= MAX_COORD + 2 * MAX_VIEWPORT
        &&& self.y <= MAX_COORD + 2 * MAX_VIEWPORT
        &&& self.width <= MAX_VIEWPORT
        &&& self.height <= MAX_VIEWPORT
    }

    /// Whether `p` lies inside this rectangle (left and top edges included,
    /// right and bottom excluded).
    pub fn contains(&self, p: Position) -> (r: bool)
        requires
            self.wf(),
        ensures
            r == contains_spec(*self, p.x as int, p.y as int),
    {
        let rx = self.x as i64;
        let ry = self.y as i64;
        let rw = self.width as i64;
        let rh = self.height as i64;
        p.x >= rx && p.x - rx < rw && p.y >= ry && p.y - ry < rh
    }
}

/// A viewport assigned to the widget by the host: bounded in size, with its
/// origin bounded so that every derived control rectangle stays within
/// [`Rect::wf`].
pub open spec fn viewport_wf(v: Rect) -> bool {
    &&& v.x <= MAX_COORD
    &&& v.y <= MAX_COORD
    &&& v.width <= MAX_VIEWPORT
    &&& v.height <= MAX_VIEWPORT
}

} // verus!

//! Axis-aligned rectangles and the coordinate bounds the layout engine
//! works within.
//!
//! Coordinates are integer pixels with a top-left origin.  Every value the
//! engine stores is kept inside `[-COORD_LIMIT, COORD_LIMIT]` so that the
//! handful of additions a layout pass performs can never overflow `i64`.

use vstd::prelude::*;

verus! {

/// Largest magnitude any stored coordinate or extent may have.
pub const COORD_LIMIT: i64 = 0x4000_0000;

/// Is `v` inside the coordinate range the engine works with?
pub open spec fn in_coord(v: i64) -> bool {
    -COORD_LIMIT <= v <= COORD_LIMIT
}

/// The larger of `a` and `b`.
pub open spec fn spec_max(a: int, b: int) -> int {
    if a > b {
        a
    } else {
        b
    }
}

/// Half of `v`, rounded toward zero, as the centring math of the
/// widgets expects.
pub open spec fn spec_half(v: int) -> int {
    if v >= 0 {
        v / 2
    } else {
        -((-v) / 2)
    }
}

/// Mathematical clamp of `v` into `[lo, hi]`.
pub open spec fn spec_clamp(v: int, lo: int, hi: int) -> int {
    if v < lo {
        lo
    } else if v > hi {
        hi
    } else {
        v
    }
}

/// Clamp of an arbitrary value into the coordinate range.
pub open spec fn spec_clamp_coord(v: int) -> i64 {
    spec_clamp(v, -COORD_LIMIT as int, COORD_LIMIT as int) as i64
}

/// Clamp of an arbitrary value into the non-negative coordinate range.
pub open spec fn spec_clamp_extent(v: int) -> i64 {
    spec_clamp(v, 0, COORD_LIMIT as int) as i64
}

/// Clamps `v` into `[-COORD_LIMIT, COORD_LIMIT]`.
pub fn clamp_coord(v: i64) -> (r: i64)
    ensures
        r == spec_clamp_coord(v as int),
        in_coord(r),
{
    if v < -COORD_LIMIT {
        -COORD_LIMIT
    } else if v > COORD_LIMIT {
        COORD_LIMIT
    } else {
        v
    }
}

/// Clamps `v` into `[0, COORD_LIMIT]`.
pub fn clamp_extent(v: i64) -> (r: i64)
    ensures
        r == spec_clamp_extent(v as int),
        0 <= r <= COORD_LIMIT,
{
    if v < 0 {
        0
    } else if v > COORD_LIMIT {
        COORD_LIMIT
    } else {
        v
    }
}

/// Half of `v`, rounded toward zero.
pub fn half_offset(v: i64) -> (r: i64)
    requires
        -0x1000_0000_0000 <= v <= 0x1000_0000_0000,
    ensures
        r == spec_half(v as int),
{
    if v >= 0 {
        v / 2
    } else {
        -((-v) / 2)
    }
}

/// An axis-aligned rectangle in pixel coordinates, top-left origin.
/// Zero-size rectangles are legal; the layout engine clamps degenerate
/// extents to zero rather than letting them go negative.
#[derive(Clone, Copy, Debug, PartialEq, Eq, Structural)]
pub struct Rect {
    pub x: i64,
    pub y: i64,
    pub w: i64,
    pub h: i64,
}

impl Rect {
    /// A rectangle all of whose fields lie in the coordinate range and
    /// whose extents are non-negative.
    pub open spec fn wf(self) -> bool {
        &&& in_coord(self.x)
        &&& in_coord(self.y)
        &&& 0 <= self.w <= COORD_LIMIT
        &&& 0 <= self.h <= COORD_LIMIT
    }

    /// A looser bound than [`Rect::wf`]: enough room that sums of a
    /// rectangle's fields still fit comfortably in `i64`.  Derived
    /// rectangles (a scrollbar thumb inside a far-scrolled track) meet
    /// this even when they leave the strict coordinate range.
    pub open spec fn roomy(self) -> bool {
        &&& -4 * COORD_LIMIT <= self.x <= 4 * COORD_LIMIT
        &&& -4 * COORD_LIMIT <= self.y <= 4 * COORD_LIMIT
        &&& 0 <= self.w <= 4 * COORD_LIMIT
        &&& 0 <= self.h <= 4 * COORD_LIMIT
    }

    /// Containment, inclusive on all four edges.
    pub open spec fn spec_contains(self, px: int, py: int) -> bool {
        &&& self.x <= px <= self.x + self.w
        &&& self.y <= py <= self.y + self.h
    }

    /// Whether the point `p = (x, y)` lies in this rectangle, inclusive on
    /// all four edges; a zero-size rectangle still contains its corner.
    pub fn contains(&self, p: (i64, i64)) -> (r: bool)
        requires
            self.wf(),
            in_coord(p.0),
            in_coord(p.1),
        ensures
            r == self.spec_contains(p.0 as int, p.1 as int),
    {
        p.0 >= self.x && p.0 <= self.x + self.w && p.1 >= self.y && p.1 <= self.y + self.h
    }
}

/// The axis a container stacks its children along.
#[derive(Clone, Copy, Debug, PartialEq, Eq, Structural)]
pub enum LayoutType {
    Column,
    Row,
}

/// A resolved box together with the axis and spacing it was laid out with.
#[derive(Clone, Copy, Debug, PartialEq, Eq, Structural)]
pub struct LayoutNode {
    pub rect: Rect,
    pub layout_type: LayoutType,
    pub spacing: i64,
}

} // verus!

//! Axis-aligned rectangle geometry: the overlap test that decides a
//! ball-paddle collision. Rectangles are top-left anchored with
//! non-negative extent, and overlap is edge-inclusive on all four sides.

use vstd::prelude::*;

verus! {

#[derive(Clone, Copy, PartialEq, Eq, Structural, Debug)]
pub struct Rect {
    pub x: i64,
    pub y: i64,
    pub w: i64,
    pub h: i64,
}

impl Rect {
    /// Coordinates small enough that edge sums stay in range.
    pub open spec fn wf(self) -> bool {
        &&& -1_000_000_000 <= self.x <= 1_000_000_000
        &&& -1_000_000_000 <= self.y <= 1_000_000_000
        &&& 0 <= self.w <= 1_000_000_000
        &&& 0 <= self.h <= 1_000_000_000
    }

    /// Edge-inclusive overlap: each rectangle's left edge is at or before
    /// the other's right edge, and each top edge at or before the other's
    /// bottom edge.
    pub open spec fn overlaps_spec(self, other: Rect) -> bool {
        &&& self.x <= other.x + other.w
        &&& other.x <= self.x + self.w
        &&& self.y <= other.y + other.h
        &&& other.y <= self.y + self.h
    }

    pub fn new(x: i64, y: i64, w: i64, h: i64) -> (r: Rect)
        ensures
            r == (Rect { x, y, w, h }),
    {
        Rect { x, y, w, h }
    }

    pub fn overlaps(&self, other: &Rect) -> (r: bool)
        requires
            self.wf(),
            other.wf(),
        ensures
            r == self.overlaps_spec(*other),
    {
        self.x <= other.x + other.w && other.x <= self.x + self.w && self.y <= other.y + other.h
            && other.y <= self.y + self.h
    }
}

} // verus!

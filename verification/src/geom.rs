//! Integer screen geometry used by the host.
//!
//! Positions and rectangles are in whole screen pixels; the UI layer is
//! expected to round its coordinates before handing them in.

use vstd::prelude::*;

verus! {

/// A point on the screen, in pixels.
#[derive(Clone, Copy, Debug, PartialEq, Eq, Structural)]
pub struct Pos {
    pub x: i64,
    pub y: i64,
}

/// An axis-aligned rectangle on the screen, in pixels.
#[derive(Clone, Copy, Debug, PartialEq, Eq, Structural)]
pub struct Rect {
    pub min: Pos,
    pub max: Pos,
}

impl Rect {
    /// Whether `p` lies inside the rectangle, edges included.
    pub open spec fn spec_contains(self, p: Pos) -> bool {
        &&& self.min.x <= p.x <= self.max.x
        &&& self.min.y <= p.y <= self.max.y
    }

    /// The rectangle with both corners at the origin.
    pub fn zero() -> (r: Rect)
        ensures
            r == (Rect { min: Pos { x: 0, y: 0 }, max: Pos { x: 0, y: 0 } }),
    {
        Rect { min: Pos { x: 0, y: 0 }, max: Pos { x: 0, y: 0 } }
    }

    /// Whether `p` lies inside the rectangle, edges included.
    pub fn contains(&self, p: Pos) -> (r: bool)
        ensures
            r == self.spec_contains(p),
    {
        self.min.x <= p.x && p.x <= self.max.x && self.min.y <= p.y && p.y <= self.max.y
    }
}

} // verus!

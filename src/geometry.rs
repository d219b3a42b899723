use vstd::prelude::*;

verus! {

/// A corner of a detected marker, in whole pixels: each coordinate is the
/// floor of the sub-pixel position that the detector reported.
#[derive(Clone, Copy, Debug, PartialEq, Eq, Structural)]
pub struct Corner {
    pub x: i32,
    pub y: i32,
}

/// One marker seen in one frame: its identifier and the four corners of its
/// quadrilateral, in the detector's order (top-left, top-right, bottom-right,
/// bottom-left).
#[derive(Clone, Copy, Debug)]
pub struct Detection {
    pub id: i32,
    pub corners: [Corner; 4],
}

/// The coordinate of a centroid taken from two pixel coordinates: their
/// average, rounded down.
pub open spec fn midpoint(a: int, b: int) -> int {
    (a + b) / 2
}

/// The position of a detected marker: the midpoint of its first and third
/// corners, which are opposite each other on the quadrilateral.
pub open spec fn centroid(d: Detection) -> (int, int) {
    (
        midpoint(d.corners@[0].x as int, d.corners@[2].x as int),
        midpoint(d.corners@[0].y as int, d.corners@[2].y as int),
    )
}

/// Computes `floor((a + b) / 2)` without overflow.
pub fn floor_midpoint(a: i32, b: i32) -> (r: i32)
    ensures
        r as int == midpoint(a as int, b as int),
{
    let s: i64 = a as i64 + b as i64;
    let q: i64 = s / 2;
    let r: i64 = if s % 2 != 0 && s < 0 {
        q - 1
    } else {
        q
    };
    r as i32
}

impl Detection {
    pub fn new(id: i32, corners: [Corner; 4]) -> (r: Detection)
        ensures
            r.id == id,
            r.corners@ == corners@,
    {
        Detection { id, corners }
    }

    /// The marker's position, from its first and third corners.
    pub fn centroid(&self) -> (r: (i32, i32))
        ensures
            (r.0 as int, r.1 as int) == centroid(*self),
    {
        let a = self.corners[0];
        let c = self.corners[2];
        (floor_midpoint(a.x, c.x), floor_midpoint(a.y, c.y))
    }
}

} // verus!

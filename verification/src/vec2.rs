//! Plane vectors with integer coordinates.

use vstd::prelude::*;

verus! {

/// One world unit, expressed in milliunits. Coordinates, velocities and
/// direction vectors are all stored as multiples of 1/1000 of a world unit,
/// so unit-length directions and fractional positions are exact integers.
pub const MILLI: i64 = 1000;

/// A 2D vector in milliunits (thousandths of a world unit).
#[derive(Clone, Copy, Debug, PartialEq, Eq, Structural)]
pub struct Vec2 {
    pub x: i64,
    pub y: i64,
}

impl Vec2 {
    pub fn new(x: i64, y: i64) -> (v: Vec2)
        ensures
            v == (Vec2 { x, y }),
    {
        Vec2 { x, y }
    }

    pub fn zero() -> (v: Vec2)
        ensures
            v == (Vec2 { x: 0, y: 0 }),
    {
        Vec2 { x: 0, y: 0 }
    }

    /// True when both coordinates are zero.
    pub open spec fn is_zero(self) -> bool {
        self.x == 0 && self.y == 0
    }
}

} // verus!

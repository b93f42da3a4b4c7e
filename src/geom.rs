use vstd::prelude::*;

verus! {

/// The larger of two numbers.
pub open spec fn max_nat(a: nat, b: nat) -> nat {
    if a >= b {
        a
    } else {
        b
    }
}

/// The larger of two lengths.
pub fn umax(a: u64, b: u64) -> (r: u64)
    ensures
        r == max_nat(a as nat, b as nat),
{
    if a >= b {
        a
    } else {
        b
    }
}

/// An axis-aligned rectangle; coordinates in thousandths.
pub struct Rect {
    pub x: u64,
    pub y: u64,
    pub width: u64,
    pub height: u64,
}

/// A point or offset in the plane; coordinates in thousandths.
pub struct Vector2 {
    pub x: u64,
    pub y: u64,
}

impl Rect {
    /// The middle of the rectangle, rounded down to a thousandth.
    pub fn center(&self) -> (r: Vector2)
        requires
            self.x + self.width / 2 <= u64::MAX,
            self.y + self.height / 2 <= u64::MAX,
        ensures
            r.x == self.x + self.width / 2,
            r.y == self.y + self.height / 2,
    {
        Vector2 { x: self.x + self.width / 2, y: self.y + self.height / 2 }
    }
}

} // verus!

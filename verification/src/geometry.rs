use vstd::prelude::*;

verus! {

/// A 2D position or offset with signed coordinates. Off-grid values are
/// legal here: clipping is entirely the screen's responsibility, so callers
/// may compute provisional off-grid positions safely.
#[derive(Clone, Copy, Debug, PartialEq, Eq, Structural)]
pub struct Vector2 {
    pub x: isize,
    pub y: isize,
}

impl Vector2 {
    /// Component-wise sum.
    pub fn add(self, other: Vector2) -> (r: Vector2)
        requires
            isize::MIN <= self.x + other.x <= isize::MAX,
            isize::MIN <= self.y + other.y <= isize::MAX,
        ensures
            r.x == self.x + other.x,
            r.y == self.y + other.y,
    {
        Vector2 { x: self.x + other.x, y: self.y + other.y }
    }
}

} // verus!

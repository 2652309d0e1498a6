use vstd::prelude::*;

verus! {

/// A pair of unbounded integers: what a [`Coordinate`](super::coordinate::Coordinate)
/// or a [`Direction`](super::direction::Direction) stands for in specifications.
pub struct Vector {
    pub x: int,
    pub y: int,
}

impl Vector {
    /// The vector with both components zero.
    pub open spec fn zero() -> Vector {
        Vector { x: 0, y: 0 }
    }

    /// Elementwise sum.
    pub open spec fn plus(self, other: Vector) -> Vector {
        Vector { x: self.x + other.x, y: self.y + other.y }
    }

    /// Elementwise difference.
    pub open spec fn minus(self, other: Vector) -> Vector {
        Vector { x: self.x - other.x, y: self.y - other.y }
    }

    /// Both components multiplied by `k`.
    pub open spec fn scaled(self, k: int) -> Vector {
        Vector { x: k * self.x, y: k * self.y }
    }

    /// Whether both components can be stored in an `i32`.
    pub open spec fn fits_i32(self) -> bool {
        &&& i32::MIN <= self.x <= i32::MAX
        &&& i32::MIN <= self.y <= i32::MAX
    }
}

} // verus!

use vstd::prelude::*;
use super::direction::Direction;
use super::vector::Vector;

verus! {

/// An absolute position on the plane.
#[derive(Debug, Clone, Copy, PartialEq, Eq, Structural)]
pub struct Coordinate {
    pub x: i32,
    pub y: i32,
}

impl View for Coordinate {
    type V = Vector;

    open spec fn view(&self) -> Vector {
        Vector { x: self.x as int, y: self.y as int }
    }
}

impl DeepView for Coordinate {
    type V = Vector;

    open spec fn deep_view(&self) -> Vector {
        self@
    }
}

impl Coordinate {
    /// The position `(x, y)`.
    pub fn new(x: i32, y: i32) -> (c: Coordinate)
        ensures
            c.x == x,
            c.y == y,
    {
        Coordinate { x, y }
    }

    /// This position moved by `step`, component by component; `None` exactly
    /// when a component of the sum cannot be stored.
    pub fn checked_add(&self, step: &Direction) -> (moved: Option<Coordinate>)
        ensures
            moved is Some <==> self@.plus(step@).fits_i32(),
            moved is Some ==> moved->0@ == self@.plus(step@),
    {
        match (self.x.checked_add(step.x), self.y.checked_add(step.y)) {
            (Some(x), Some(y)) => Some(Coordinate { x, y }),
            _ => None,
        }
    }
}

} // verus!

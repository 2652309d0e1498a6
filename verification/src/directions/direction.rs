use vstd::prelude::*;
use vstd::std_specs::convert::FromSpecImpl;
use super::vector::Vector;

verus! {

/// A displacement on the plane; also used for velocities and forces.
#[derive(Debug, Clone, Copy, PartialEq, Eq, Structural)]
pub struct Direction {
    pub x: i32,
    pub y: i32,
}

/// The four compass directions. The `y` axis grows southwards.
#[derive(Debug, Clone, Copy, PartialEq, Eq, Structural)]
pub enum CardinalDirection {
    North,
    East,
    South,
    West,
}

impl View for Direction {
    type V = Vector;

    open spec fn view(&self) -> Vector {
        Vector { x: self.x as int, y: self.y as int }
    }
}

impl DeepView for Direction {
    type V = Vector;

    open spec fn deep_view(&self) -> Vector {
        self@
    }
}

impl Direction {
    /// This vector less `other`, component by component; `None` exactly when
    /// a component of the difference cannot be stored.
    pub fn checked_sub(&self, other: &Direction) -> (difference: Option<Direction>)
        ensures
            difference is Some <==> self@.minus(other@).fits_i32(),
            difference is Some ==> difference->0@ == self@.minus(other@),
    {
        match (self.x.checked_sub(other.x), self.y.checked_sub(other.y)) {
            (Some(x), Some(y)) => Some(Direction { x, y }),
            _ => None,
        }
    }
}

impl CardinalDirection {
    /// The unit step that this compass direction names.
    pub open spec fn unit(self) -> Direction {
        match self {
            CardinalDirection::North => Direction { x: 0, y: (-1) as i32 },
            CardinalDirection::East => Direction { x: 1, y: 0 },
            CardinalDirection::South => Direction { x: 0, y: 1 },
            CardinalDirection::West => Direction { x: (-1) as i32, y: 0 },
        }
    }
}

impl From<CardinalDirection> for Direction {
    fn from(dir: CardinalDirection) -> (d: Direction) {
        match dir {
            CardinalDirection::North => Direction { x: 0, y: -1 },
            CardinalDirection::East => Direction { x: 1, y: 0 },
            CardinalDirection::South => Direction { x: 0, y: 1 },
            CardinalDirection::West => Direction { x: -1, y: 0 },
        }
    }
}

impl FromSpecImpl<CardinalDirection> for Direction {
    open spec fn obeys_from_spec() -> bool {
        true
    }

    open spec fn from_spec(dir: CardinalDirection) -> Direction {
        dir.unit()
    }
}

} // verus!

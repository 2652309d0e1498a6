//! Integer vectors of the plane: absolute positions and displacements.

pub mod coordinate;
pub mod direction;
pub mod vector;

//! A gravity simulation on the integer plane: stationary planets pull moving
//! asteroids, one discrete tick at a time, and every body can be drawn as a
//! circle.

pub mod bodies;
pub mod directions;
pub mod numeric;
pub mod physics;
pub mod render;
pub mod response;

pub use bodies::{Asteroid, Circle, Location, Planet, ToCircle};
pub use physics::{apply_physics, get_distance, TickFault};
pub use render::render;
pub use response::{frame_response, tick_and_render};

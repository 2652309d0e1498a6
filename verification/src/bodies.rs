//! The bodies of the simulation and what each of them can do: say where it
//! is, and draw itself as a circle.

use vstd::prelude::*;
use vstd::string::*;
use crate::directions::coordinate::Coordinate;
use crate::directions::direction::Direction;
use crate::directions::vector::Vector;

verus! {

/// The radius with which every asteroid is drawn.
pub const ASTEROID_RADIUS: i32 = 2;

/// The stroke width with which every body is drawn.
pub const STROKE_WIDTH: i32 = 3;

/// A drawable circle: a snapshot of one body, made for one rendering.
#[derive(Debug, Clone, PartialEq, Eq)]
pub struct Circle {
    /// The centre, along the `x` axis.
    pub cx: i32,
    /// The centre, along the `y` axis.
    pub cy: i32,
    /// The radius.
    pub r: i32,
    /// The colour of the outline.
    pub stroke: String,
    /// The colour of the inside.
    pub fill: String,
    /// The width of the outline; `stroke-width` where circles are written
    /// as text.
    pub stroke_width: i32,
}

/// What a [`Circle`] stands for in specifications.
pub struct CircleModel {
    pub cx: int,
    pub cy: int,
    pub r: int,
    pub stroke: Seq<char>,
    pub fill: Seq<char>,
    pub stroke_width: int,
}

impl View for Circle {
    type V = CircleModel;

    open spec fn view(&self) -> CircleModel {
        CircleModel {
            cx: self.cx as int,
            cy: self.cy as int,
            r: self.r as int,
            stroke: self.stroke@,
            fill: self.fill@,
            stroke_width: self.stroke_width as int,
        }
    }
}

impl DeepView for Circle {
    type V = CircleModel;

    open spec fn deep_view(&self) -> CircleModel {
        self@
    }
}

/// The circle around `center` with radius `radius`, in the one style that
/// every body is drawn in.
pub open spec fn styled_circle(center: Vector, radius: int) -> CircleModel {
    CircleModel {
        cx: center.x,
        cy: center.y,
        r: radius,
        stroke: "green"@,
        fill: "black"@,
        stroke_width: STROKE_WIDTH as int,
    }
}

/// A massive body that never moves.
#[derive(Debug, Clone, Copy, PartialEq, Eq, Structural)]
pub struct Planet {
    pub coordinate: Coordinate,
    pub weight: i32,
}

/// What a [`Planet`] stands for in specifications.
pub struct PlanetModel {
    pub position: Vector,
    pub weight: int,
}

impl View for Planet {
    type V = PlanetModel;

    open spec fn view(&self) -> PlanetModel {
        PlanetModel { position: self.coordinate@, weight: self.weight as int }
    }
}

impl DeepView for Planet {
    type V = PlanetModel;

    open spec fn deep_view(&self) -> PlanetModel {
        self@
    }
}

impl PlanetModel {
    /// A planet is drawn with its mass as radius.
    pub open spec fn circle(self) -> CircleModel {
        styled_circle(self.position, self.weight)
    }
}

/// A light body that planets pull on.
#[derive(Debug, Clone, Copy, PartialEq, Eq, Structural)]
pub struct Asteroid {
    pub coordinate: Coordinate,
    pub velocity: Direction,
}

/// What an [`Asteroid`] stands for in specifications.
pub struct AsteroidModel {
    pub position: Vector,
    pub velocity: Vector,
}

impl View for Asteroid {
    type V = AsteroidModel;

    open spec fn view(&self) -> AsteroidModel {
        AsteroidModel { position: self.coordinate@, velocity: self.velocity@ }
    }
}

impl DeepView for Asteroid {
    type V = AsteroidModel;

    open spec fn deep_view(&self) -> AsteroidModel {
        self@
    }
}

impl AsteroidModel {
    /// An asteroid is drawn with a fixed radius.
    pub open spec fn circle(self) -> CircleModel {
        styled_circle(self.position, ASTEROID_RADIUS as int)
    }
}

/// A body that has a position.
pub trait Location {
    /// Where the body is.
    spec fn location(&self) -> Coordinate;

    fn get_location(&self) -> (place: Coordinate)
        ensures
            place == self.location(),
    ;
}

/// A body that can be drawn.
pub trait ToCircle {
    /// The circle that the body is drawn as.
    spec fn circle(&self) -> CircleModel;

    fn as_circle(&self) -> (circle: Circle)
        ensures
            circle@ == self.circle(),
    ;
}

/// Builds the circle around `(cx, cy)` with radius `r` in the common style.
fn circle_styled(cx: i32, cy: i32, r: i32) -> (circle: Circle)
    ensures
        circle@ == styled_circle(Vector { x: cx as int, y: cy as int }, r as int),
{
    broadcast use to_string_from_display_ensures_for_str;

    Circle {
        cx,
        cy,
        r,
        stroke: "green".to_string(),
        fill: "black".to_string(),
        stroke_width: STROKE_WIDTH,
    }
}

impl Planet {
    /// The mass of the planet.
    pub fn get_weight(&self) -> (weight: i32)
        ensures
            weight == self.weight,
    {
        self.weight
    }

    /// The circle that the planet is drawn as: its mass is the radius.
    pub fn get_circle(&self) -> (circle: Circle)
        ensures
            circle@ == self@.circle(),
    {
        circle_styled(self.coordinate.x, self.coordinate.y, self.weight)
    }
}

impl Asteroid {
    /// The velocity of the asteroid.
    pub fn get_velocity(&self) -> (velocity: Direction)
        ensures
            velocity == self.velocity,
    {
        self.velocity
    }

    /// Overwrites the velocity and leaves the position as it is.
    pub fn set_velocity(&mut self, velocity: Direction)
        ensures
            final(self).velocity == velocity,
            final(self).coordinate == old(self).coordinate,
    {
        self.velocity = velocity;
    }
}

impl Location for Asteroid {
    open spec fn location(&self) -> Coordinate {
        self.coordinate
    }

    fn get_location(&self) -> (place: Coordinate) {
        self.coordinate
    }
}

impl Location for Planet {
    open spec fn location(&self) -> Coordinate {
        self.coordinate
    }

    fn get_location(&self) -> (place: Coordinate) {
        self.coordinate
    }
}

impl ToCircle for Asteroid {
    open spec fn circle(&self) -> CircleModel {
        self@.circle()
    }

    fn as_circle(&self) -> (circle: Circle) {
        circle_styled(self.coordinate.x, self.coordinate.y, ASTEROID_RADIUS)
    }
}

impl ToCircle for Planet {
    open spec fn circle(&self) -> CircleModel {
        self@.circle()
    }

    fn as_circle(&self) -> (circle: Circle) {
        circle_styled(self.coordinate.x, self.coordinate.y, self.weight)
    }
}

} // verus!

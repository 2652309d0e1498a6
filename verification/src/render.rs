//! Drawing the bodies: one circle per body, planets first.

use vstd::prelude::*;
use crate::bodies::{Asteroid, AsteroidModel, Circle, CircleModel, Planet, PlanetModel, ToCircle};

verus! {

/// The circles of all bodies: those of the planets in their order, then
/// those of the asteroids in their order.
pub open spec fn rendered(planets: Seq<PlanetModel>, asteroids: Seq<AsteroidModel>) -> Seq<
    CircleModel,
> {
    planets.map_values(|p: PlanetModel| p.circle()) + asteroids.map_values(
        |a: AsteroidModel| a.circle(),
    )
}

/// The rendering holds one circle per body; the circle of planet `i` is at
/// index `i`, and the circle of asteroid `j` follows all planets, at index
/// `planets.len() + j`.
pub proof fn lemma_render_order(planets: Seq<PlanetModel>, asteroids: Seq<AsteroidModel>)
    ensures
        rendered(planets, asteroids).len() == planets.len() + asteroids.len(),
        forall|i: int|
            0 <= i < planets.len() ==> rendered(planets, asteroids)[i] == (#[trigger] planets[i]).circle(),
        forall|j: int|
            0 <= j < asteroids.len() ==> rendered(planets, asteroids)[planets.len() + j]
                == (#[trigger] asteroids[j]).circle(),
{
}

/// Rendering reads the state and nothing else: two renderings of one state
/// are the same sequence of circles.
pub proof fn lemma_render_repeatable(
    planets: Seq<PlanetModel>,
    asteroids: Seq<AsteroidModel>,
    first: Seq<CircleModel>,
    second: Seq<CircleModel>,
)
    requires
        first == rendered(planets, asteroids),
        second == rendered(planets, asteroids),
    ensures
        first == second,
{
}

/// Draws every body: the planets in their order, then the asteroids in
/// their order.
pub fn render(planets: &Vec<Planet>, asteroids: &Vec<Asteroid>) -> (circles: Vec<Circle>)
    ensures
        circles.deep_view() == rendered(planets.deep_view(), asteroids.deep_view()),
{
    let ghost expected = rendered(planets.deep_view(), asteroids.deep_view());
    let mut circles: Vec<Circle> = Vec::new();
    let mut i: usize = 0;
    while i < planets.len()
        invariant
            i <= planets.len(),
            circles.len() == i,
            expected == rendered(planets.deep_view(), asteroids.deep_view()),
            forall|k: int| 0 <= k < i ==> (#[trigger] circles[k])@ == expected[k],
        decreases planets.len() - i,
    {
        circles.push(planets[i].as_circle());
        i += 1;
    }
    let mut j: usize = 0;
    while j < asteroids.len()
        invariant
            j <= asteroids.len(),
            circles.len() == planets.len() + j,
            expected == rendered(planets.deep_view(), asteroids.deep_view()),
            forall|k: int| 0 <= k < circles.len() ==> (#[trigger] circles[k])@ == expected[k],
        decreases asteroids.len() - j,
    {
        circles.push(asteroids[j].as_circle());
        j += 1;
    }
    assert(circles.deep_view() =~= expected);
    circles
}

} // verus!

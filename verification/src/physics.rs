//! One tick of gravity: every planet pulls on every asteroid, then every
//! asteroid moves by its new velocity.

use vstd::prelude::*;
use crate::bodies::{Asteroid, AsteroidModel, Location, Planet, PlanetModel};
use crate::directions::coordinate::Coordinate;
use crate::directions::direction::Direction;
use crate::directions::vector::Vector;
use crate::numeric::{
    floor_sqrt, integer_sqrt, lemma_floor_sqrt_exists, lemma_floor_sqrt_zero,
    lemma_square_monotonic, quotient_toward_zero,
};

verus! {

/// Why a tick could not be computed.
#[derive(Debug, Clone, Copy, PartialEq, Eq, Structural)]
pub enum TickFault {
    /// An asteroid is exactly where a planet is, so the squared distance
    /// that the force is divided by is zero.
    DivisionByZero,
    /// A force, a velocity or a position of the tick does not fit the
    /// 32-bit components of a `Direction` or a `Coordinate`.
    Overflow,
}

/// The sum of the squares of the two components.
pub open spec fn squared_length(v: Vector) -> int {
    v.x * v.x + v.y * v.y
}

/// The distance between two points, cut down to its integer part.
pub open spec fn truncated_distance(a: Vector, b: Vector) -> int {
    floor_sqrt(squared_length(a.minus(b)))
}

/// The force with which `planet` acts on a body at `position`: along each
/// axis the offset from the planet, times the mass, times `g`, divided by
/// the square of the truncated distance and rounded toward zero. It says
/// nothing of a body that is where the planet is: there the divisor is zero.
pub open spec fn force(position: Vector, planet: PlanetModel, g: int) -> Vector {
    let d = truncated_distance(planet.position, position);
    let offset = position.minus(planet.position);
    Vector {
        x: quotient_toward_zero(offset.x * planet.weight * g, d * d),
        y: quotient_toward_zero(offset.y * planet.weight * g, d * d),
    }
}

/// The velocity `velocity` of a body at `position` after the planets of
/// `planets` have pulled on it, one after the other.
pub open spec fn velocity_after(
    velocity: Vector,
    position: Vector,
    planets: Seq<PlanetModel>,
    g: int,
) -> Vector
    decreases planets.len(),
{
    if planets.len() == 0 {
        velocity
    } else {
        velocity_after(velocity, position, planets.drop_last(), g).minus(
            force(position, planets.last(), g),
        )
    }
}

/// The asteroid after one tick: pulled by all planets from where it was
/// before the tick, then moved by its new velocity.
pub open spec fn moved(
    asteroid: AsteroidModel,
    planets: Seq<PlanetModel>,
    g: int,
) -> AsteroidModel {
    let velocity = velocity_after(asteroid.velocity, asteroid.position, planets, g);
    AsteroidModel { position: asteroid.position.plus(velocity), velocity }
}

/// All asteroids after one tick, in their order.
pub open spec fn stepped(
    planets: Seq<PlanetModel>,
    asteroids: Seq<AsteroidModel>,
    g: int,
) -> Seq<AsteroidModel> {
    Seq::new(asteroids.len(), |i: int| moved(asteroids[i], planets, g))
}

/// All asteroids after `n` ticks.
pub open spec fn stepped_times(
    planets: Seq<PlanetModel>,
    asteroids: Seq<AsteroidModel>,
    g: int,
    n: nat,
) -> Seq<AsteroidModel>
    decreases n,
{
    if n == 0 {
        asteroids
    } else {
        stepped(planets, stepped_times(planets, asteroids, g, (n - 1) as nat), g)
    }
}

/// Whether some asteroid is exactly where some planet is.
pub open spec fn coincident(planets: Seq<PlanetModel>, asteroids: Seq<AsteroidModel>) -> bool {
    exists|i: int, j: int|
        0 <= i < asteroids.len() && 0 <= j < planets.len() && #[trigger] asteroids[i].position
            == #[trigger] planets[j].position
}

/// Whether every force on a body at `position`, and every velocity that
/// the body has in turn, starting from `velocity`, can be stored.
pub open spec fn pull_fits(
    velocity: Vector,
    position: Vector,
    planets: Seq<PlanetModel>,
    g: int,
) -> bool {
    forall|k: int|
        0 <= k < planets.len() ==> {
            &&& (#[trigger] force(position, planets[k], g)).fits_i32()
            &&& velocity_after(velocity, position, planets.take(k + 1), g).fits_i32()
        }
}

/// Whether everything that one tick computes can be stored: for every
/// asteroid each force, each velocity and the new position.
pub open spec fn tick_fits(
    planets: Seq<PlanetModel>,
    asteroids: Seq<AsteroidModel>,
    g: int,
) -> bool {
    forall|i: int|
        0 <= i < asteroids.len() ==> {
            &&& pull_fits(asteroids[i].velocity, #[trigger] asteroids[i].position, planets, g)
            &&& moved(asteroids[i], planets, g).position.fits_i32()
        }
}

/// The truncated distance between `(x1, y1)` and `(x2, y2)`.
pub fn get_distance(x1: i32, y1: i32, x2: i32, y2: i32) -> (distance: i64)
    ensures
        distance == truncated_distance(
            Vector { x: x1 as int, y: y1 as int },
            Vector { x: x2 as int, y: y2 as int },
        ),
        0 <= distance <= 0x1_ffff_ffff,
{
    let dx: i128 = x1 as i128 - x2 as i128;
    let dy: i128 = y1 as i128 - y2 as i128;
    assert(0 <= dx * dx <= 0xffff_ffff * 0xffff_ffff) by (nonlinear_arith)
        requires
            -0xffff_ffff <= dx <= 0xffff_ffff,
    ;
    assert(0 <= dy * dy <= 0xffff_ffff * 0xffff_ffff) by (nonlinear_arith)
        requires
            -0xffff_ffff <= dy <= 0xffff_ffff,
    ;
    let sum: i128 = dx * dx + dy * dy;
    let root: u64 = integer_sqrt(sum as u128);
    proof {
        if root > 0x1_ffff_ffff {
            lemma_square_monotonic(0x2_0000_0000, root as int);
        }
    }
    root as i64
}

/// The squared truncated distance between two points is zero exactly when
/// the points are the same.
pub proof fn lemma_zero_distance_is_coincidence(a: Vector, b: Vector)
    ensures
        truncated_distance(a, b) * truncated_distance(a, b) == 0 <==> a == b,
        0 <= truncated_distance(a, b),
{
    let dx = a.x - b.x;
    let dy = a.y - b.y;
    assert(0 <= dx * dx && (dx != 0 ==> 1 <= dx * dx)) by (nonlinear_arith);
    assert(0 <= dy * dy && (dy != 0 ==> 1 <= dy * dy)) by (nonlinear_arith);
    let n = squared_length(a.minus(b));
    lemma_floor_sqrt_exists(n);
    lemma_floor_sqrt_zero(n);
    let d = truncated_distance(a, b);
    assert(d * d == 0 <==> d == 0) by (nonlinear_arith);
}

/// A single planet and an asteroid at rest: after one tick the velocity of
/// the asteroid is the zero vector less the force of the planet, and the
/// asteroid has moved by that velocity.
pub proof fn lemma_single_planet_pull(planet: PlanetModel, position: Vector, g: int)
    ensures
        stepped(seq![planet], seq![AsteroidModel { position, velocity: Vector::zero() }], g)
            == seq![
            AsteroidModel {
                position: position.plus(Vector::zero().minus(force(position, planet, g))),
                velocity: Vector::zero().minus(force(position, planet, g)),
            },
        ],
{
    let planets = seq![planet];
    let rock = AsteroidModel { position, velocity: Vector::zero() };
    assert(planets.drop_last() =~= Seq::<PlanetModel>::empty());
    assert(planets.last() == planet);
    assert(velocity_after(Vector::zero(), position, planets.drop_last(), g) == Vector::zero());
    assert(velocity_after(Vector::zero(), position, planets, g) == Vector::zero().minus(
        force(position, planet, g),
    ));
    assert(stepped(planets, seq![rock], g) =~= seq![moved(rock, planets, g)]);
}

/// A planet of mass `mass` at the origin and an asteroid at rest at
/// `(dx, dy)`: after one tick each component of the velocity is the
/// opposite of offset times mass times `g`, divided by the square of the
/// truncated distance.
pub proof fn lemma_pull_toward_origin(mass: int, dx: int, dy: int, g: int)
    ensures
        ({
            let planet = PlanetModel { position: Vector::zero(), weight: mass };
            let rock = AsteroidModel { position: Vector { x: dx, y: dy }, velocity: Vector::zero() };
            let d = floor_sqrt(dx * dx + dy * dy);
            stepped(seq![planet], seq![rock], g)[0].velocity == Vector {
                x: -quotient_toward_zero(dx * mass * g, d * d),
                y: -quotient_toward_zero(dy * mass * g, d * d),
            }
        }),
{
    let planet = PlanetModel { position: Vector::zero(), weight: mass };
    let position = Vector { x: dx, y: dy };
    lemma_single_planet_pull(planet, position, g);
    assert((0 - dx) * (0 - dx) == dx * dx) by (nonlinear_arith);
    assert((0 - dy) * (0 - dy) == dy * dy) by (nonlinear_arith);
    assert(squared_length(planet.position.minus(position)) == dx * dx + dy * dy);
}

/// Without planets no tick changes a velocity, and after `n` ticks every
/// asteroid has moved by `n` times its velocity.
pub proof fn lemma_no_planets_linear_motion(
    planets: Seq<PlanetModel>,
    asteroids: Seq<AsteroidModel>,
    g: int,
    n: nat,
)
    requires
        planets.len() == 0,
    ensures
        stepped_times(planets, asteroids, g, n).len() == asteroids.len(),
        forall|i: int|
            0 <= i < asteroids.len() ==> (#[trigger] stepped_times(planets, asteroids, g, n)[i])
                == (AsteroidModel {
                position: asteroids[i].position.plus(asteroids[i].velocity.scaled(n as int)),
                velocity: asteroids[i].velocity,
            }),
    decreases n,
{
    if n > 0 {
        lemma_no_planets_linear_motion(planets, asteroids, g, (n - 1) as nat);
        let earlier = stepped_times(planets, asteroids, g, (n - 1) as nat);
        assert forall|i: int| 0 <= i < asteroids.len() implies (#[trigger] stepped_times(
            planets,
            asteroids,
            g,
            n,
        )[i]) == (AsteroidModel {
            position: asteroids[i].position.plus(asteroids[i].velocity.scaled(n as int)),
            velocity: asteroids[i].velocity,
        }) by {
            let v = asteroids[i].velocity;
            assert(earlier[i].velocity == v);
            assert(stepped_times(planets, asteroids, g, n)[i] == moved(earlier[i], planets, g));
            assert(n * v.x == (n - 1) * v.x + v.x) by (nonlinear_arith);
            assert(n * v.y == (n - 1) * v.y + v.y) by (nonlinear_arith);
        }
    }
}

/// Without planets a tick can only fail because a new position cannot be
/// stored: nothing is divided and no velocity changes.
pub proof fn lemma_no_planets_fit(planets: Seq<PlanetModel>, asteroids: Seq<AsteroidModel>, g: int)
    requires
        planets.len() == 0,
    ensures
        !coincident(planets, asteroids),
        tick_fits(planets, asteroids, g) <==> forall|i: int|
            0 <= i < asteroids.len() ==> (#[trigger] asteroids[i]).position.plus(
                asteroids[i].velocity,
            ).fits_i32(),
{
    if tick_fits(planets, asteroids, g) {
        assert forall|i: int| 0 <= i < asteroids.len() implies (#[trigger] asteroids[i]).position.plus(
            asteroids[i].velocity,
        ).fits_i32() by {
            assert(moved(asteroids[i], planets, g).position.fits_i32());
        }
    }
}

/// A tick leaves the number and the order of the asteroids as they are: the
/// asteroid at each index is the one that was there, pulled and moved.
pub proof fn lemma_step_keeps_order(
    planets: Seq<PlanetModel>,
    asteroids: Seq<AsteroidModel>,
    g: int,
)
    ensures
        stepped(planets, asteroids, g).len() == asteroids.len(),
        forall|i: int|
            0 <= i < asteroids.len() ==> #[trigger] stepped(planets, asteroids, g)[i] == moved(
                asteroids[i],
                planets,
                g,
            ),
{
}

/// One component of a force: `offset * weight * g / squared`, rounded toward
/// zero; `None` exactly when it cannot be stored.
fn force_along(offset: i64, weight: i32, g: i32, squared: i128) -> (component: Option<i32>)
    requires
        -0xffff_ffff <= offset <= 0xffff_ffff,
        0 < squared,
    ensures
        component is Some <==> i32::MIN <= quotient_toward_zero(
            offset * weight * g,
            squared as int,
        ) <= i32::MAX,
        component is Some ==> component->0 == quotient_toward_zero(
            offset * weight * g,
            squared as int,
        ),
{
    assert(-0x8000_0000_0000_0000 <= offset * weight <= 0x8000_0000_0000_0000)
        by (nonlinear_arith)
        requires
            -0xffff_ffff <= offset <= 0xffff_ffff,
            -0x8000_0000 <= weight <= 0x7fff_ffff,
    ;
    let scaled: i128 = offset as i128 * weight as i128;
    assert(-0x4000_0000_0000_0000_0000_0000 <= scaled * g <= 0x4000_0000_0000_0000_0000_0000)
        by (nonlinear_arith)
        requires
            -0x8000_0000_0000_0000 <= scaled <= 0x8000_0000_0000_0000,
            -0x8000_0000 <= g <= 0x7fff_ffff,
    ;
    let quotient: i128 = (scaled * g as i128) / squared;
    if quotient < -0x8000_0000 || quotient > 0x7fff_ffff {
        None
    } else {
        Some(quotient as i32)
    }
}

/// The force with which `planet` acts on a body at `position`; `None`
/// exactly when a component of it cannot be stored.
pub fn force_on(position: &Coordinate, planet: &Planet, g: i32) -> (pull: Option<Direction>)
    requires
        position@ != planet@.position,
    ensures
        pull is Some <==> force(position@, planet@, g as int).fits_i32(),
        pull is Some ==> pull->0@ == force(position@, planet@, g as int),
{
    let place = planet.get_location();
    let distance = get_distance(place.x, place.y, position.x, position.y);
    proof {
        lemma_zero_distance_is_coincidence(planet@.position, position@);
        assert(0 < distance * distance <= 0x1_ffff_ffff * 0x1_ffff_ffff) by (nonlinear_arith)
            requires
                0 < distance <= 0x1_ffff_ffff,
        ;
    }
    let squared: i128 = distance as i128 * distance as i128;
    let weight = planet.get_weight();
    let x = force_along(position.x as i64 - place.x as i64, weight, g, squared);
    let y = force_along(position.y as i64 - place.y as i64, weight, g, squared);
    match (x, y) {
        (Some(x), Some(y)) => Some(Direction { x, y }),
        _ => None,
    }
}

/// The velocity of `asteroid` after every planet has pulled on it from where
/// the asteroid is; `None` exactly when a force or a velocity on the way
/// cannot be stored.
pub fn pulled_velocity(
    asteroid: &Asteroid,
    planets: &Vec<Planet>,
    g: i32,
) -> (velocity: Option<Direction>)
    requires
        forall|j: int| 0 <= j < planets.len() ==> planets[j]@.position != asteroid@.position,
    ensures
        velocity is Some <==> pull_fits(
            asteroid@.velocity,
            asteroid@.position,
            planets.deep_view(),
            g as int,
        ),
        velocity is Some ==> velocity->0@ == velocity_after(
            asteroid@.velocity,
            asteroid@.position,
            planets.deep_view(),
            g as int,
        ),
{
    let ghost models = planets.deep_view();
    let ghost start = asteroid@.velocity;
    let ghost position = asteroid@.position;
    let place = asteroid.get_location();
    let mut velocity = asteroid.get_velocity();
    let mut j: usize = 0;
    assert(models.take(0) =~= Seq::<PlanetModel>::empty());
    while j < planets.len()
        invariant
            j <= planets.len(),
            models == planets.deep_view(),
            start == asteroid@.velocity,
            position == asteroid@.position,
            place@ == position,
            forall|k: int| 0 <= k < planets.len() ==> planets[k]@.position != position,
            velocity@ == velocity_after(start, position, models.take(j as int), g as int),
            forall|k: int|
                0 <= k < j ==> {
                    &&& (#[trigger] force(position, models[k], g as int)).fits_i32()
                    &&& velocity_after(start, position, models.take(k + 1), g as int).fits_i32()
                },
        decreases planets.len() - j,
    {
        proof {
            assert(models[j as int] == planets[j as int]@);
            assert(models.take(j + 1).drop_last() =~= models.take(j as int));
            assert(models.take(j + 1).last() == models[j as int]);
        }
        let pull = match force_on(&place, &planets[j], g) {
            Some(pull) => pull,
            None => {
                return None;
            },
        };
        velocity = match velocity.checked_sub(&pull) {
            Some(next) => next,
            None => {
                return None;
            },
        };
        j += 1;
    }
    assert(models.take(j as int) =~= models);
    Some(velocity)
}

/// Whether some asteroid is exactly where some planet is.
pub fn any_coincident(planets: &Vec<Planet>, asteroids: &Vec<Asteroid>) -> (found: bool)
    ensures
        found == coincident(planets.deep_view(), asteroids.deep_view()),
{
    let ghost ps = planets.deep_view();
    let ghost rocks = asteroids.deep_view();
    let mut i: usize = 0;
    while i < asteroids.len()
        invariant
            i <= asteroids.len(),
            ps == planets.deep_view(),
            rocks == asteroids.deep_view(),
            forall|a: int, b: int|
                0 <= a < i && 0 <= b < ps.len() ==> #[trigger] rocks[a].position
                    != #[trigger] ps[b].position,
        decreases asteroids.len() - i,
    {
        let here = asteroids[i].get_location();
        let mut j: usize = 0;
        while j < planets.len()
            invariant
                i < asteroids.len(),
                j <= planets.len(),
                ps == planets.deep_view(),
                rocks == asteroids.deep_view(),
                here@ == rocks[i as int].position,
                forall|b: int| 0 <= b < j ==> rocks[i as int].position != (#[trigger] ps[b]).position,
            decreases planets.len() - j,
        {
            let there = planets[j].get_location();
            if here.x == there.x && here.y == there.y {
                assert(rocks[i as int].position == ps[j as int].position);
                return true;
            }
            j += 1;
        }
        i += 1;
    }
    false
}

/// Advances the simulation by one tick. First every asteroid's velocity
/// loses the force of every planet in turn, each force taken at the place
/// where the asteroid was before the tick; then every asteroid moves by its
/// new velocity. The planets come back as they were.
///
/// The tick fails with [`TickFault::DivisionByZero`] exactly when an
/// asteroid is where a planet is, and otherwise with
/// [`TickFault::Overflow`] exactly when a value of the tick cannot be
/// stored.
pub fn apply_physics(
    planets: Vec<Planet>,
    asteroids: Vec<Asteroid>,
    gravitational_constant: i32,
) -> (outcome: Result<(Vec<Planet>, Vec<Asteroid>), TickFault>)
    ensures
        match outcome {
            Ok((same_planets, moved_asteroids)) => {
                &&& !coincident(planets.deep_view(), asteroids.deep_view())
                &&& tick_fits(
                    planets.deep_view(),
                    asteroids.deep_view(),
                    gravitational_constant as int,
                )
                &&& same_planets@ == planets@
                &&& moved_asteroids.len() == asteroids.len()
                &&& moved_asteroids.deep_view() == stepped(
                    planets.deep_view(),
                    asteroids.deep_view(),
                    gravitational_constant as int,
                )
            },
            Err(TickFault::DivisionByZero) => coincident(
                planets.deep_view(),
                asteroids.deep_view(),
            ),
            Err(TickFault::Overflow) => {
                &&& !coincident(planets.deep_view(), asteroids.deep_view())
                &&& !tick_fits(
                    planets.deep_view(),
                    asteroids.deep_view(),
                    gravitational_constant as int,
                )
            },
        },
{
    let ghost ps = planets.deep_view();
    let ghost before = asteroids.deep_view();
    let ghost g = gravitational_constant as int;
    if any_coincident(&planets, &asteroids) {
        return Err(TickFault::DivisionByZero);
    }
    let mut rocks = asteroids;
    let mut i: usize = 0;
    while i < rocks.len()
        invariant
            i <= rocks.len(),
            rocks.len() == before.len(),
            ps == planets.deep_view(),
            before == asteroids.deep_view(),
            g == gravitational_constant as int,
            !coincident(ps, before),
            forall|a: int| i <= a < rocks.len() ==> (#[trigger] rocks[a])@ == before[a],
            forall|a: int|
                0 <= a < i ==> {
                    &&& (#[trigger] rocks[a])@.position == before[a].position
                    &&& rocks[a]@.velocity == velocity_after(
                        before[a].velocity,
                        before[a].position,
                        ps,
                        g,
                    )
                    &&& pull_fits(before[a].velocity, before[a].position, ps, g)
                },
        decreases rocks.len() - i,
    {
        let mut rock = rocks[i];
        proof {
            assert(rock@ == before[i as int]);
            assert forall|j: int| 0 <= j < planets.len() implies planets[j]@.position
                != rock@.position by {
                assert(ps[j] == planets[j]@);
                assert(before[i as int].position == rock@.position);
            }
        }
        match pulled_velocity(&rock, &planets, gravitational_constant) {
            Some(velocity) => {
                rock.set_velocity(velocity);
                assert(rock@.position == before[i as int].position);
                assert(rock@.velocity == velocity_after(
                        before[i as int].velocity,
                        before[i as int].position,
                        ps,
                        g,
                    ));
                assert(pull_fits(before[i as int].velocity, before[i as int].position, ps, g));
                rocks.set(i, rock);
                assert(rocks[i as int] == rock);
            },
            None => {
                assert(!pull_fits(before[i as int].velocity, before[i as int].position, ps, g));
                return Err(TickFault::Overflow);
            },
        }
        i += 1;
    }
    let mut i: usize = 0;
    while i < rocks.len()
        invariant
            i <= rocks.len(),
            rocks.len() == before.len(),
            ps == planets.deep_view(),
            before == asteroids.deep_view(),
            g == gravitational_constant as int,
            forall|a: int|
                0 <= a < rocks.len() ==> {
                    &&& (#[trigger] rocks[a])@.velocity == velocity_after(
                        before[a].velocity,
                        before[a].position,
                        ps,
                        g,
                    )
                    &&& pull_fits(before[a].velocity, before[a].position, ps, g)
                },
            !coincident(ps, before),
            forall|a: int|
                i <= a < rocks.len() ==> (#[trigger] rocks[a])@.position == before[a].position,
            forall|a: int| 0 <= a < i ==> (#[trigger] rocks[a])@ == moved(before[a], ps, g),
        decreases rocks.len() - i,
    {
        let rock = rocks[i];
        match rock.get_location().checked_add(&rock.get_velocity()) {
            Some(coordinate) => {
                rocks.set(i, Asteroid { coordinate, velocity: rock.velocity });
            },
            None => {
                assert(!moved(before[i as int], ps, g).position.fits_i32());
                return Err(TickFault::Overflow);
            },
        }
        i += 1;
    }
    proof {
        assert forall|a: int| 0 <= a < before.len() implies {
            &&& pull_fits(before[a].velocity, #[trigger] before[a].position, ps, g)
            &&& moved(before[a], ps, g).position.fits_i32()
        } by {
            assert(rocks[a]@ == moved(before[a], ps, g));
        }
        assert(rocks.deep_view() =~= stepped(ps, before, g));
    }
    Ok((planets, rocks))
}

} // verus!

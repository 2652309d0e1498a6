use simulator_lib::directions::coordinate::Coordinate;
use simulator_lib::directions::direction::Direction;
use simulator_lib::physics::{any_coincident, force_on, pulled_velocity};
use simulator_lib::{apply_physics, get_distance, Asteroid, Planet, TickFault};

fn planet(x: i32, y: i32, weight: i32) -> Planet {
    Planet { coordinate: Coordinate::new(x, y), weight }
}

fn asteroid(x: i32, y: i32, vx: i32, vy: i32) -> Asteroid {
    Asteroid { coordinate: Coordinate::new(x, y), velocity: Direction { x: vx, y: vy } }
}

#[test]
fn distance_is_cut_to_its_integer_part() {
    assert_eq!(get_distance(500, 500, 250, 250), 353);
    assert_eq!(get_distance(250, 250, 500, 500), 353);
    assert_eq!(get_distance(0, 0, 3, 4), 5);
    assert_eq!(get_distance(0, 0, 1, 1), 1);
    assert_eq!(get_distance(100, 0, 30, 40), 80);
}

#[test]
fn distance_of_a_point_to_itself_is_zero() {
    assert_eq!(get_distance(7, -9, 7, -9), 0);
    assert_eq!(get_distance(i32::MIN, i32::MAX, i32::MIN, i32::MAX), 0);
}

#[test]
fn distance_across_the_whole_plane() {
    assert_eq!(get_distance(i32::MIN, i32::MIN, i32::MAX, i32::MAX), 6074000998);
    assert_eq!(get_distance(i32::MAX, 0, i32::MIN, 0), 4294967295);
}

#[test]
fn force_uses_the_square_of_the_truncated_distance() {
    // 250 * 50 * 70 = 875000; floor(sqrt(125000)) = 353; 353 * 353 = 124609.
    let pull = force_on(&Coordinate::new(250, 250), &planet(500, 500, 50), 70);
    assert_eq!(pull, Some(Direction { x: -7, y: -7 }));
    let pull = force_on(&Coordinate::new(750, 750), &planet(500, 500, 50), 70);
    assert_eq!(pull, Some(Direction { x: 7, y: 7 }));
}

#[test]
fn force_rounds_toward_zero() {
    // -70 * 20 * 100 / 6400 = -21.875 and 40 * 20 * 100 / 6400 = 12.5.
    let pull = force_on(&Coordinate::new(30, 40), &planet(100, 0, 20), 100);
    assert_eq!(pull, Some(Direction { x: -21, y: 12 }));
}

#[test]
fn force_of_a_negative_mass_pushes_away() {
    let pull = force_on(&Coordinate::new(3, -4), &planet(0, 0, -1000), 1);
    assert_eq!(pull, Some(Direction { x: -120, y: 160 }));
}

#[test]
fn force_that_cannot_be_stored_is_none() {
    let pull = force_on(&Coordinate::new(0, 0), &planet(1, 0, i32::MAX), i32::MAX);
    assert_eq!(pull, None);
    let pull = force_on(&Coordinate::new(0, 0), &planet(-1, 0, 65536), 32768);
    assert_eq!(pull, None);
    let pull = force_on(&Coordinate::new(0, 0), &planet(1, 0, 65536), 32768);
    assert_eq!(pull, Some(Direction { x: i32::MIN, y: 0 }));
    let pull = force_on(&Coordinate::new(0, 0), &planet(-1, 0, 65536), 32767);
    assert_eq!(pull, Some(Direction { x: 2147418112, y: 0 }));
}

#[test]
fn pulled_velocity_sums_over_the_planets() {
    let planets = vec![planet(0, 0, 10), planet(100, 0, 20)];
    let velocity = pulled_velocity(&asteroid(30, 40, 1, 2), &planets, 100);
    assert_eq!(velocity, Some(Direction { x: 10, y: -26 }));
}

#[test]
fn pulled_velocity_without_planets_is_the_velocity() {
    let velocity = pulled_velocity(&asteroid(30, 40, 1, 2), &Vec::new(), 100);
    assert_eq!(velocity, Some(Direction { x: 1, y: 2 }));
}

#[test]
fn coincidence_is_found_anywhere() {
    let planets = vec![planet(1, 1, 5), planet(9, 9, 5)];
    assert!(!any_coincident(&planets, &vec![asteroid(1, 9, 0, 0), asteroid(9, 1, 0, 0)]));
    assert!(any_coincident(&planets, &vec![asteroid(1, 9, 0, 0), asteroid(9, 9, 0, 0)]));
    assert!(any_coincident(&planets, &vec![asteroid(1, 1, 3, 3)]));
    assert!(!any_coincident(&planets, &Vec::new()));
    assert!(!any_coincident(&Vec::new(), &vec![asteroid(1, 1, 3, 3)]));
}

#[test]
fn one_planet_pulls_an_asteroid_at_rest() {
    let planets = vec![planet(500, 500, 50)];
    let asteroids = vec![asteroid(250, 250, 0, 0)];
    let (planets, asteroids) = apply_physics(planets, asteroids, 70).unwrap();
    assert_eq!(asteroids, vec![asteroid(257, 257, 7, 7)]);
    assert_eq!(planets, vec![planet(500, 500, 50)]);
}

#[test]
fn planet_at_the_origin_pulls_an_asteroid_at_rest() {
    // Distance 5, so each component is the offset times 1000 / 25.
    let (_, asteroids) =
        apply_physics(vec![planet(0, 0, 1000)], vec![asteroid(3, -4, 0, 0)], 1).unwrap();
    assert_eq!(asteroids, vec![asteroid(-117, 156, -120, 160)]);
}

#[test]
fn without_planets_asteroids_move_in_straight_lines() {
    let mut planets: Vec<Planet> = Vec::new();
    let mut asteroids = vec![asteroid(250, 250, 30, -10), asteroid(-5, 0, 0, 0), asteroid(0, 0, -1, 1)];
    let mut ticks = 0;
    while ticks < 25 {
        (planets, asteroids) = apply_physics(planets, asteroids, 70).unwrap();
        ticks += 1;
    }
    assert!(planets.is_empty());
    assert_eq!(
        asteroids,
        vec![asteroid(1000, 0, 30, -10), asteroid(-5, 0, 0, 0), asteroid(-25, 25, -1, 1)]
    );
}

#[test]
fn without_asteroids_a_tick_changes_nothing() {
    let planets = vec![planet(1, 2, 3), planet(4, 5, 6)];
    let outcome = apply_physics(planets.clone(), Vec::new(), 70);
    assert_eq!(outcome, Ok((planets, Vec::new())));
}

#[test]
fn without_gravity_velocities_stay() {
    let outcome = apply_physics(vec![planet(0, 0, 1000)], vec![asteroid(3, 4, 1, -1)], 0);
    assert_eq!(outcome, Ok((vec![planet(0, 0, 1000)], vec![asteroid(4, 3, 1, -1)])));
}

#[test]
fn every_planet_pulls_from_where_the_asteroid_was() {
    let planets = vec![planet(0, 0, 10), planet(100, 0, 20)];
    let (_, asteroids) = apply_physics(planets, vec![asteroid(30, 40, 1, 2)], 100).unwrap();
    assert_eq!(asteroids, vec![asteroid(40, 14, 10, -26)]);
}

#[test]
fn documented_start_first_ticks() {
    let planets = vec![planet(500, 500, 50)];
    let asteroids = vec![asteroid(250, 250, 30, -10), asteroid(750, 750, -30, 10)];
    let (planets, asteroids) = apply_physics(planets, asteroids, 70).unwrap();
    assert_eq!(asteroids, vec![asteroid(287, 247, 37, -3), asteroid(713, 753, -37, 3)]);
    let (planets, asteroids) = apply_physics(planets, asteroids, 70).unwrap();
    assert_eq!(asteroids, vec![asteroid(330, 252, 43, 5), asteroid(670, 748, -43, -5)]);
    let (planets, asteroids) = apply_physics(planets, asteroids, 70).unwrap();
    assert_eq!(asteroids, vec![asteroid(379, 266, 49, 14), asteroid(621, 734, -49, -14)]);
    assert_eq!(planets, vec![planet(500, 500, 50)]);
}

#[test]
fn far_bodies_are_computed_exactly() {
    // The squared distance is 10^10, the numerator 10^11.
    let outcome = apply_physics(vec![planet(100000, 0, 1000)], vec![asteroid(0, 0, 0, 0)], 1000);
    assert_eq!(outcome, Ok((vec![planet(100000, 0, 1000)], vec![asteroid(10, 0, 10, 0)])));
}

#[test]
fn asteroid_on_a_planet_is_a_division_fault() {
    let outcome = apply_physics(vec![planet(5, 5, 1)], vec![asteroid(5, 5, 3, 4)], 70);
    assert_eq!(outcome, Err(TickFault::DivisionByZero));
}

#[test]
fn asteroid_on_the_last_planet_is_a_division_fault() {
    let planets = vec![planet(0, 0, 1), planet(5, 5, 1)];
    let asteroids = vec![asteroid(1, 1, 0, 0), asteroid(5, 5, 0, 0)];
    assert_eq!(apply_physics(planets, asteroids, 70), Err(TickFault::DivisionByZero));
}

#[test]
fn asteroid_beside_a_planet_is_no_fault() {
    let outcome = apply_physics(vec![planet(5, 5, 1)], vec![asteroid(5, 6, 0, 0)], 70);
    assert_eq!(outcome, Ok((vec![planet(5, 5, 1)], vec![asteroid(5, -64, 0, -70)])));
}

#[test]
fn division_fault_comes_before_overflow() {
    let planets = vec![planet(5, 5, 1)];
    let asteroids = vec![asteroid(i32::MAX, 5, 1, 0), asteroid(5, 5, 0, 0)];
    assert_eq!(apply_physics(planets, asteroids, 1), Err(TickFault::DivisionByZero));
}

#[test]
fn position_past_the_limit_is_an_overflow() {
    let outcome = apply_physics(Vec::new(), vec![asteroid(i32::MAX, 0, 1, 0)], 70);
    assert_eq!(outcome, Err(TickFault::Overflow));
    let outcome = apply_physics(Vec::new(), vec![asteroid(i32::MAX - 1, 0, 1, 0)], 70);
    assert_eq!(outcome, Ok((Vec::new(), vec![asteroid(i32::MAX, 0, 1, 0)])));
}

#[test]
fn velocity_past_the_limit_is_an_overflow() {
    // The force is (-100, 0).
    let planets = vec![planet(100, 0, 10)];
    let outcome = apply_physics(planets.clone(), vec![asteroid(0, 0, i32::MAX - 99, 0)], 1000);
    assert_eq!(outcome, Err(TickFault::Overflow));
    let outcome = apply_physics(planets, vec![asteroid(0, 0, i32::MAX - 100, 0)], 1000);
    assert_eq!(outcome, Ok((vec![planet(100, 0, 10)], vec![asteroid(i32::MAX, 0, i32::MAX, 0)])));
}

#[test]
fn velocity_past_the_limit_on_the_way_is_an_overflow() {
    // The first planet pushes the velocity past the limit, the second
    // would bring it back.
    let planets = vec![planet(100, 0, 10), planet(-100, 0, 10)];
    let outcome = apply_physics(planets, vec![asteroid(0, 0, i32::MAX, 0)], 1000);
    assert_eq!(outcome, Err(TickFault::Overflow));
}

#[test]
fn force_past_the_limit_is_an_overflow() {
    let outcome = apply_physics(vec![planet(1, 0, i32::MAX)], vec![asteroid(0, 0, 0, 0)], i32::MAX);
    assert_eq!(outcome, Err(TickFault::Overflow));
}

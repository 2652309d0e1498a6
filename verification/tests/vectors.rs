use simulator_lib::directions::coordinate::Coordinate;
use simulator_lib::directions::direction::{CardinalDirection, Direction};

#[test]
fn north_points_up_the_screen() {
    assert_eq!(Direction::from(CardinalDirection::North), Direction { x: 0, y: -1 });
}

#[test]
fn east_points_right() {
    assert_eq!(Direction::from(CardinalDirection::East), Direction { x: 1, y: 0 });
}

#[test]
fn south_points_down_the_screen() {
    assert_eq!(Direction::from(CardinalDirection::South), Direction { x: 0, y: 1 });
}

#[test]
fn west_points_left() {
    assert_eq!(Direction::from(CardinalDirection::West), Direction { x: -1, y: 0 });
}

#[test]
fn cardinal_converts_with_into() {
    let step: Direction = CardinalDirection::West.into();
    assert_eq!(step.x, -1);
    assert_eq!(step.y, 0);
}

#[test]
fn coordinate_new_keeps_both_components() {
    let c = Coordinate::new(500, -7);
    assert_eq!(c.x, 500);
    assert_eq!(c.y, -7);
    assert_eq!(c, Coordinate { x: 500, y: -7 });
}

#[test]
fn coordinate_moves_by_a_direction() {
    let c = Coordinate::new(250, 250);
    assert_eq!(c.checked_add(&Direction { x: 37, y: -3 }), Some(Coordinate { x: 287, y: 247 }));
}

#[test]
fn coordinate_move_reaches_the_limits() {
    let c = Coordinate::new(i32::MAX - 1, i32::MIN + 1);
    assert_eq!(
        c.checked_add(&Direction { x: 1, y: -1 }),
        Some(Coordinate { x: i32::MAX, y: i32::MIN })
    );
}

#[test]
fn coordinate_move_past_the_limit_is_none() {
    let c = Coordinate::new(i32::MAX, 0);
    assert_eq!(c.checked_add(&Direction { x: 1, y: 0 }), None);
    let c = Coordinate::new(0, i32::MIN);
    assert_eq!(c.checked_add(&Direction { x: 0, y: -1 }), None);
}

#[test]
fn direction_difference_is_elementwise() {
    let v = Direction { x: 30, y: -10 };
    assert_eq!(v.checked_sub(&Direction { x: -7, y: -7 }), Some(Direction { x: 37, y: -3 }));
}

#[test]
fn direction_difference_is_not_the_minuend() {
    let v = Direction { x: 1, y: 2 };
    assert_ne!(v.checked_sub(&Direction { x: 1, y: 1 }), Some(v));
    assert_eq!(v.checked_sub(&Direction { x: 1, y: 1 }), Some(Direction { x: 0, y: 1 }));
}

#[test]
fn direction_difference_past_the_limit_is_none() {
    let v = Direction { x: i32::MIN, y: 0 };
    assert_eq!(v.checked_sub(&Direction { x: 1, y: 0 }), None);
    let v = Direction { x: 0, y: i32::MAX };
    assert_eq!(v.checked_sub(&Direction { x: 0, y: -1 }), None);
    let v = Direction { x: 0, y: 0 };
    assert_eq!(v.checked_sub(&Direction { x: i32::MIN, y: 0 }), None);
}

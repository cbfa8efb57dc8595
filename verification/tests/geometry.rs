use shared_consts::geometry::{Direction, RectSide, RectSideError, Vector2};

#[test]
fn vector_new_and_add() {
    let a = Vector2::new(3, -4);
    assert_eq!(a, Vector2 { x: 3, y: -4 });
    let b = a.add(Vector2::new(10, 20));
    assert_eq!(b, Vector2 { x: 13, y: 16 });
    let mut c = Vector2::default();
    c.add_assign(Vector2::new(-7, 8));
    assert_eq!(c, Vector2 { x: -7, y: 8 });
}

#[test]
fn direction_codes_round_trip() {
    for d in [Direction::Left, Direction::Up, Direction::Down, Direction::Right] {
        assert_eq!(Direction::from_code(d.code()), Some(d));
    }
    assert_eq!(Direction::Left.code(), 0);
    assert_eq!(Direction::Up.code(), 1);
    assert_eq!(Direction::Down.code(), 2);
    assert_eq!(Direction::Right.code(), 3);
    assert_eq!(Direction::from_code(4), None);
    assert_eq!(Direction::from_code(255), None);
}

#[test]
fn side_from_coords_errors() {
    assert_eq!(
        RectSide::new_from_coords(Vector2::new(0, 0), Vector2::new(1, 1)),
        Err(RectSideError::NotStraight)
    );
    assert_eq!(
        RectSide::new_from_coords(Vector2::new(5, 5), Vector2::new(5, 5)),
        Err(RectSideError::SamePoint)
    );
    assert_eq!(RectSideError::NotStraight.message(), "Not straight");
    assert_eq!(RectSideError::SamePoint.message(), "Same point?");
}

#[test]
fn side_from_coords_all_directions() {
    let cases = [
        ((10, 50), (10, 20), Direction::Left, 30),
        ((10, 20), (10, 50), Direction::Right, 30),
        ((10, 20), (40, 20), Direction::Up, 30),
        ((40, 20), (10, 20), Direction::Down, 30),
    ];
    for ((ax, ay), (bx, by), dir, len) in cases {
        let a = Vector2::new(ax, ay);
        let b = Vector2::new(bx, by);
        let s = RectSide::new_from_coords(a, b).unwrap();
        assert_eq!(s.outward_direction(), dir);
        assert_eq!(s.length(), len);
        assert_eq!(s.a(), a);
        assert_eq!(s.b(), b);
    }
}

#[test]
fn side_offset_moves_both_ends() {
    let mut s = RectSide::new_from_coords(Vector2::new(0, 100), Vector2::new(0, 0)).unwrap();
    s.offset(Vector2::new(5, -5));
    assert_eq!(s.a(), Vector2::new(5, 95));
    assert_eq!(s.b(), Vector2::new(5, -5));
    assert_eq!(s.length(), 100);
    assert_eq!(s.outward_direction(), Direction::Left);
}

#[test]
fn point_outside_each_direction() {
    // Left side of the rectangle (0,0)-(100,50): from (0,50) up to (0,0).
    let left = RectSide::from_parts(Direction::Left, 50, Vector2::new(0, 50));
    assert!(left.is_point_outside(Vector2::new(-1, 25)));
    assert!(!left.is_point_outside(Vector2::new(0, 25)));
    assert!(!left.is_point_outside(Vector2::new(-1, 50)));
    assert!(!left.is_point_outside(Vector2::new(-1, 0)));

    let right = RectSide::from_parts(Direction::Right, 50, Vector2::new(100, 0));
    assert!(right.is_point_outside(Vector2::new(101, 25)));
    assert!(!right.is_point_outside(Vector2::new(100, 25)));
    assert!(!right.is_point_outside(Vector2::new(101, 50)));

    let up = RectSide::from_parts(Direction::Up, 100, Vector2::new(0, 0));
    assert!(up.is_point_outside(Vector2::new(50, -1)));
    assert!(!up.is_point_outside(Vector2::new(50, 0)));
    assert!(!up.is_point_outside(Vector2::new(100, -1)));

    let down = RectSide::from_parts(Direction::Down, 100, Vector2::new(100, 50));
    assert!(down.is_point_outside(Vector2::new(50, 51)));
    assert!(!down.is_point_outside(Vector2::new(50, 50)));
    assert!(!down.is_point_outside(Vector2::new(0, 51)));
}

#[test]
fn point_outside_translation_invariant() {
    let s = RectSide::from_parts(Direction::Up, 100, Vector2::new(0, 0));
    let mut t = s;
    t.offset(Vector2::new(30, 40));
    for (px, py) in [(50, -1), (50, 0), (0, -1), (99, -10)] {
        assert_eq!(
            s.is_point_outside(Vector2::new(px, py)),
            t.is_point_outside(Vector2::new(px + 30, py + 40))
        );
    }
}

#[test]
fn point_test_overflow_guard() {
    let s = RectSide::from_parts(Direction::Left, 10, Vector2::new(0, i32::MIN + 5));
    // the far end is only computed when the point is beyond the start
    assert!(s.can_test_point(Vector2::new(1, 0)));
    assert!(!s.can_test_point(Vector2::new(-1, i32::MIN)));
    let r = RectSide::from_parts(Direction::Right, 10, Vector2::new(0, i32::MAX - 20));
    assert!(r.can_test_point(Vector2::new(1, i32::MAX)));
    let u = RectSide::from_parts(Direction::Up, i32::MAX, Vector2::new(1, 0));
    assert!(!u.can_test_point(Vector2::new(2, -1)));
    assert!(u.can_test_point(Vector2::new(0, -1)));
    let d = RectSide::from_parts(Direction::Down, 100, Vector2::new(100, 0));
    assert!(d.can_test_point(Vector2::new(50, 1)));
}

#[test]
fn from_parts_keeps_fields() {
    let s = RectSide::from_parts(Direction::Down, 42, Vector2::new(-3, 9));
    assert_eq!(s.outward_direction(), Direction::Down);
    assert_eq!(s.length(), 42);
    assert_eq!(s.a(), Vector2::new(-3, 9));
    assert_eq!(s.b(), Vector2::new(-45, 9));
}

use shared_consts::geometry::{Direction, RectSide, Vector2};
use shared_consts::screen::{ClientInfo, ConnectionInfo, ScreenCollection, ScreenRect};

fn side(r: &ScreenRect, d: Direction) -> RectSide {
    *r.sides.get(&d.code()).unwrap()
}

#[test]
fn rect_from_dimensions_has_four_sides() {
    let r = ScreenRect::new_from_dimensions(10, 20, 300, 200);
    assert_eq!(r.sides.len(), 4);
    let l = side(&r, Direction::Left);
    assert_eq!(l.a(), Vector2::new(10, 220));
    assert_eq!(l.length(), 200);
    let u = side(&r, Direction::Up);
    assert_eq!(u.a(), Vector2::new(10, 20));
    assert_eq!(u.length(), 300);
    let rt = side(&r, Direction::Right);
    assert_eq!(rt.a(), Vector2::new(310, 20));
    assert_eq!(rt.length(), 200);
    let dn = side(&r, Direction::Down);
    assert_eq!(dn.a(), Vector2::new(310, 220));
    assert_eq!(dn.length(), 300);
}

#[test]
fn rect_sides_close_up() {
    let r = ScreenRect::new_from_dimensions(-1920, 0, 1920, 1080);
    let l = side(&r, Direction::Left);
    let u = side(&r, Direction::Up);
    let rt = side(&r, Direction::Right);
    let dn = side(&r, Direction::Down);
    assert_eq!(l.b(), u.a());
    assert_eq!(u.b(), rt.a());
    assert_eq!(rt.b(), dn.a());
    assert_eq!(dn.b(), l.a());
}

#[test]
fn rect_dimensions() {
    assert_eq!(ScreenRect::new_from_dimensions(5, 6, 1280, 1024).dimensions(), Vector2::new(1280, 1024));
    assert_eq!(ScreenRect::new_primary_from_dimensions(800, 600).dimensions(), Vector2::new(800, 600));
    let p = ScreenRect::new_from_points(-10, -20, 90, 180);
    assert_eq!(p.dimensions(), Vector2::new(100, 200));
    assert_eq!(side(&p, Direction::Up).a(), Vector2::new(-10, -20));
}

#[test]
fn primary_rect_starts_at_origin() {
    let r = ScreenRect::new_primary_from_dimensions(1920, 1080);
    assert_eq!(side(&r, Direction::Up).a(), Vector2::new(0, 0));
    assert_eq!(side(&r, Direction::Down).a(), Vector2::new(1920, 1080));
}

#[test]
fn rect_offset_moves_every_side() {
    let mut r = ScreenRect::new_from_dimensions(0, 0, 100, 50);
    r.offset(Vector2::new(7, -3));
    let moved = ScreenRect::new_from_dimensions(7, -3, 100, 50);
    for d in [Direction::Left, Direction::Up, Direction::Down, Direction::Right] {
        assert_eq!(side(&r, d), side(&moved, d));
    }
    assert_eq!(r.dimensions(), Vector2::new(100, 50));
}

#[test]
fn rect_offset_of_empty_rect() {
    let mut r = ScreenRect::default();
    r.offset(Vector2::new(1, 1));
    assert!(r.sides.is_empty());
}

#[test]
fn rect_eq() {
    let a = ScreenRect::new_from_dimensions(0, 0, 100, 50);
    let b = ScreenRect::new_from_dimensions(0, 0, 100, 50);
    let c = ScreenRect::new_from_dimensions(1, 1, 101, 51);
    assert!(a == b);
    assert!(a == a);
    assert!(a != c);
    assert!(c != a);
    assert!(a != ScreenRect::default());
    assert!(ScreenRect::default() != a);
    assert!(ScreenRect::default() == ScreenRect::default());
    let wide = ScreenRect::new_primary_from_dimensions(1920, 1080);
    let narrow = ScreenRect::new_primary_from_dimensions(1280, 1080);
    assert!(wide != narrow);
    assert!(wide != ScreenRect::default());
    // one side missing
    let mut partial = ScreenRect::new_primary_from_dimensions(1920, 1080);
    partial.sides.remove(&Direction::Up.code());
    assert!(wide != partial);
    assert!(partial != wide);
    // same sides under other keys
    let mut moved_key = ScreenRect::new_primary_from_dimensions(1920, 1080);
    let up = moved_key.sides.remove(&Direction::Up.code()).unwrap();
    moved_key.sides.insert(200, up);
    assert!(wide != moved_key);
}

#[test]
fn inside_point_is_beyond_no_side() {
    let r = ScreenRect::new_from_dimensions(0, 0, 100, 50);
    for d in [Direction::Left, Direction::Up, Direction::Down, Direction::Right] {
        assert!(!side(&r, d).is_point_outside(Vector2::new(50, 25)));
    }
    assert!(side(&r, Direction::Left).is_point_outside(Vector2::new(-1, 25)));
    assert!(side(&r, Direction::Right).is_point_outside(Vector2::new(101, 25)));
}

#[test]
fn plain_records() {
    let info = ClientInfo { scrn_size: Vector2::new(1920, 1080) };
    assert_eq!(info.scrn_size.x, 1920);
    let coll = ScreenCollection(vec![ScreenRect::new_primary_from_dimensions(10, 10)]);
    assert_eq!(coll.0.len(), 1);
    let conn = ConnectionInfo {
        ip_and_port: String::from("127.0.0.1:13111"),
        side: RectSide::from_parts(Direction::Right, 1080, Vector2::new(1920, 0)),
    };
    assert_eq!(conn.side.outward_direction(), Direction::Right);
}

use std::collections::HashMap;
use vstd::prelude::*;
use vstd::std_specs::cmp::{PartialEqSpec, PartialEqSpecImpl};
use crate::geometry::{Direction, RectSide, Vector2, direction_code, fits_i32};

verus! {

broadcast use vstd::std_specs::hash::group_hash_axioms;

/// A screen rectangle, held as its sides, each keyed by the wire number of
/// the direction it faces (see `Direction::code`).
#[derive(Debug, Clone)]
pub struct ScreenRect {
    pub sides: HashMap<u8, RectSide>,
}

/// `s` is the side facing `d` with length `len` that starts at `(px, py)`.
pub open spec fn side_is(s: RectSide, d: Direction, len: int, px: int, py: int) -> bool {
    &&& s.direction_of() == d
    &&& s.length_of() == len
    &&& s.position_of().x == px
    &&& s.position_of().y == py
}

/// `m` holds, under the key of `d`, the side facing `d` with length `len` that starts at `(px, py)`.
pub open spec fn has_side(m: Map<u8, RectSide>, d: Direction, len: int, px: int, py: int) -> bool {
    m.contains_key(direction_code(d)) && side_is(m[direction_code(d)], d, len, px, py)
}

/// `m` holds exactly the four sides of the rectangle with top-left corner
/// `(x, y)`, width `w` and height `h`, running clockwise: the left side from
/// the bottom-left corner up, the top side from the top-left corner right,
/// the right side from the top-right corner down, the bottom side from the
/// bottom-right corner left.
pub open spec fn is_rect_sides(m: Map<u8, RectSide>, x: int, y: int, w: int, h: int) -> bool {
    &&& m.dom() == set![0u8, 1u8, 2u8, 3u8]
    &&& has_side(m, Direction::Left, h, x, y + h)
    &&& has_side(m, Direction::Up, w, x, y)
    &&& has_side(m, Direction::Right, h, x + w, y)
    &&& has_side(m, Direction::Down, w, x + w, y + h)
}

/// `t` is `s` moved by `v`.
pub open spec fn side_moved(s: RectSide, t: RectSide, v: Vector2) -> bool {
    &&& t.direction_of() == s.direction_of()
    &&& t.length_of() == s.length_of()
    &&& t.position_of().x == s.position_of().x + v.x
    &&& t.position_of().y == s.position_of().y + v.y
}

impl ScreenRect {
    /// The primary screen: top-left corner at the origin.
    pub fn new_primary_from_dimensions(width: i32, height: i32) -> (r: ScreenRect)
        ensures
            is_rect_sides(r.sides@, 0, 0, width as int, height as int),
    {
        Self::new_from_dimensions(0, 0, width, height)
    }

    /// The screen whose top-left corner is `(a_x, a_y)` and whose bottom-right
    /// corner is `(b_x, b_y)`.
    pub fn new_from_points(a_x: i32, a_y: i32, b_x: i32, b_y: i32) -> (r: ScreenRect)
        requires
            fits_i32(b_x - a_x),
            fits_i32(b_y - a_y),
        ensures
            is_rect_sides(r.sides@, a_x as int, a_y as int, b_x - a_x, b_y - a_y),
    {
        Self::new_from_dimensions(a_x, a_y, b_x - a_x, b_y - a_y)
    }

    /// The screen with top-left corner `(x, y)`, width `width` and height `height`.
    pub fn new_from_dimensions(x: i32, y: i32, width: i32, height: i32) -> (r: ScreenRect)
        requires
            fits_i32(y + height),
            fits_i32(x + width),
        ensures
            is_rect_sides(r.sides@, x as int, y as int, width as int, height as int),
    {
        let mut temp = ScreenRect { sides: HashMap::new() };
        temp.sides.insert(
            Direction::Left.code(),
            RectSide::from_parts(Direction::Left, height, Vector2 { x, y: y + height }),
        );
        temp.sides.insert(
            Direction::Right.code(),
            RectSide::from_parts(Direction::Right, height, Vector2 { x: x + width, y }),
        );
        temp.sides.insert(
            Direction::Up.code(),
            RectSide::from_parts(Direction::Up, width, Vector2 { x, y }),
        );
        temp.sides.insert(
            Direction::Down.code(),
            RectSide::from_parts(Direction::Down, width, Vector2 { x: x + width, y: y + height }),
        );
        assert(temp.sides@.dom() =~= set![0u8, 1u8, 2u8, 3u8]);
        temp
    }

    /// Moves every side by `vec`.
    pub fn offset(&mut self, vec: Vector2)
        requires
            forall|k: u8|
                #![trigger old(self).sides@[k]]
                old(self).sides@.contains_key(k) ==> old(self).sides@[k].position_of().sum_fits(vec),
        ensures
            final(self).sides@.dom() == old(self).sides@.dom(),
            forall|k: u8|
                #![trigger final(self).sides@[k]]
                old(self).sides@.contains_key(k) ==> side_moved(
                    old(self).sides@[k],
                    final(self).sides@[k],
                    vec,
                ),
    {
        let ghost before = self.sides@;
        let mut c: u16 = 0;
        while c < 256
            invariant
                c <= 256,
                self.sides@.dom() == before.dom(),
                forall|k: u8|
                    #![trigger before[k]]
                    before.contains_key(k) ==> before[k].position_of().sum_fits(vec),
                forall|k: u8|
                    #![trigger self.sides@[k]]
                    before.contains_key(k) && k < c ==> side_moved(before[k], self.sides@[k], vec),
                forall|k: u8|
                    #![trigger self.sides@[k]]
                    before.contains_key(k) && k >= c ==> self.sides@[k] == before[k],
            decreases 256 - c,
        {
            let key: u8 = c as u8;
            match self.sides.get(&key) {
                Some(side) => {
                    let mut moved = *side;
                    moved.offset(vec);
                    self.sides.insert(key, moved);
                    assert(self.sides@.dom() =~= before.dom());
                },
                None => {},
            }
            c = c + 1;
        }
    }

    /// The width (length of the top side) and height (length of the right side).
    pub fn dimensions(&self) -> (d: Vector2)
        requires
            self.sides@.contains_key(direction_code(Direction::Up)),
            self.sides@.contains_key(direction_code(Direction::Right)),
        ensures
            d.x == self.sides@[direction_code(Direction::Up)].length_of(),
            d.y == self.sides@[direction_code(Direction::Right)].length_of(),
    {
        let up_key = Direction::Up.code();
        let right_key = Direction::Right.code();
        let up = self.sides.get(&up_key).unwrap();
        let right = self.sides.get(&right_key).unwrap();
        Vector2 { x: up.length(), y: right.length() }
    }
}

/// `m` and `n` hold the same side, or none, under key `k`.
pub open spec fn agree_at(m: Map<u8, RectSide>, n: Map<u8, RectSide>, k: u8) -> bool {
    &&& m.contains_key(k) == n.contains_key(k)
    &&& m.contains_key(k) ==> m[k] == n[k]
}

/// Two screen rectangles are equal when they hold the same sides under the
/// same keys.
impl PartialEq for ScreenRect {
    fn eq(&self, other: &ScreenRect) -> (r: bool) {
        let mut c: u16 = 0;
        while c < 256
            invariant
                c <= 256,
                forall|k: u8| k < c ==> #[trigger] agree_at(self.sides@, other.sides@, k),
            decreases 256 - c,
        {
            let key: u8 = c as u8;
            match (self.sides.get(&key), other.sides.get(&key)) {
                (None, None) => {},
                (Some(mine), Some(theirs)) => {
                    if *mine != *theirs {
                        assert(!agree_at(self.sides@, other.sides@, key));
                        return false;
                    }
                },
                _ => {
                    assert(!agree_at(self.sides@, other.sides@, key));
                    return false;
                },
            }
            assert(agree_at(self.sides@, other.sides@, key));
            c = c + 1;
        }
        assert(self.sides@ =~= other.sides@) by {
            assert forall|k: u8| #[trigger] self.sides@.contains_key(k) == other.sides@.contains_key(k) by {
                assert(agree_at(self.sides@, other.sides@, k));
            }
            assert forall|k: u8| #[trigger] self.sides@.contains_key(k) implies self.sides@[k] == other.sides@[k] by {
                assert(agree_at(self.sides@, other.sides@, k));
            }
        }
        true
    }
}

impl PartialEqSpecImpl for ScreenRect {
    open spec fn obeys_eq_spec() -> bool {
        true
    }

    open spec fn eq_spec(&self, other: &ScreenRect) -> bool {
        self.sides@ == other.sides@
    }
}

impl Default for ScreenRect {
    fn default() -> (r: ScreenRect)
        ensures
            r.sides@ == Map::<u8, RectSide>::empty(),
    {
        ScreenRect { sides: HashMap::new() }
    }
}

/// The four sides built from a corner and dimensions close up: each side ends
/// where the next one (clockwise) starts, provided no side length is `i32::MIN`
/// (on which computing the end of the left or bottom side overflows).
pub proof fn lemma_rect_sides_close_up(m: Map<u8, RectSide>, x: i32, y: i32, w: i32, h: i32)
    requires
        is_rect_sides(m, x as int, y as int, w as int, h as int),
        fits_i32(y + h),
        fits_i32(x + w),
        w != i32::MIN,
        h != i32::MIN,
    ensures
        m[0u8].end_defined(),
        m[1u8].end_defined(),
        m[2u8].end_defined(),
        m[3u8].end_defined(),
        m[0u8].end_of() == (m[1u8].position_of().x as int, m[1u8].position_of().y as int),
        m[1u8].end_of() == (m[3u8].position_of().x as int, m[3u8].position_of().y as int),
        m[3u8].end_of() == (m[2u8].position_of().x as int, m[2u8].position_of().y as int),
        m[2u8].end_of() == (m[0u8].position_of().x as int, m[0u8].position_of().y as int),
{
}

/// The dimensions of a rectangle built from a width and a height are that
/// width and height.
pub proof fn lemma_dimensions_of_built_rect(m: Map<u8, RectSide>, x: int, y: int, w: int, h: int)
    requires
        is_rect_sides(m, x, y, w, h),
    ensures
        m.contains_key(direction_code(Direction::Up)),
        m.contains_key(direction_code(Direction::Right)),
        m[direction_code(Direction::Up)].length_of() == w,
        m[direction_code(Direction::Right)].length_of() == h,
{
}

/// A point strictly inside a rectangle lies beyond none of its sides.
pub proof fn lemma_inside_point_beyond_no_side(
    m: Map<u8, RectSide>,
    x: int,
    y: int,
    w: int,
    h: int,
    p: Vector2,
)
    requires
        is_rect_sides(m, x, y, w, h),
        x < p.x < x + w,
        y < p.y < y + h,
    ensures
        forall|k: u8| #[trigger] m.contains_key(k) ==> !m[k].outside_spec(p),
{
    assert forall|k: u8| #[trigger] m.contains_key(k) implies !m[k].outside_spec(p) by {
        assert(k == 0u8 || k == 1u8 || k == 2u8 || k == 3u8);
    }
}

/// Moving a rectangle keeps its dimensions and moves each corner by the same vector.
pub proof fn lemma_offset_keeps_rect_shape(
    m: Map<u8, RectSide>,
    n: Map<u8, RectSide>,
    x: int,
    y: int,
    w: int,
    h: int,
    v: Vector2,
)
    requires
        is_rect_sides(m, x, y, w, h),
        n.dom() == m.dom(),
        forall|k: u8| #![trigger n[k]] m.contains_key(k) ==> side_moved(m[k], n[k], v),
    ensures
        is_rect_sides(n, x + v.x, y + v.y, w, h),
{
    assert(side_moved(m[0u8], n[0u8], v));
    assert(side_moved(m[1u8], n[1u8], v));
    assert(side_moved(m[2u8], n[2u8], v));
    assert(side_moved(m[3u8], n[3u8], v));
}

/// Equality of screen rectangles is an equivalence: reflexive, symmetric
/// and transitive.
pub proof fn lemma_screen_eq_is_equivalence(a: ScreenRect, b: ScreenRect, c: ScreenRect)
    ensures
        PartialEqSpec::eq_spec(&a, &a),
        PartialEqSpec::eq_spec(&a, &b) == PartialEqSpec::eq_spec(&b, &a),
        PartialEqSpec::eq_spec(&a, &b) && PartialEqSpec::eq_spec(&b, &c) ==> PartialEqSpec::eq_spec(
            &a,
            &c,
        ),
{
}

/// The size of a client's screen, sent by the listener at connection time.
#[derive(Debug, Clone, Copy, PartialEq, Eq, Structural)]
pub struct ClientInfo {
    pub scrn_size: Vector2,
}

/// All screens of the server machine.
#[derive(Debug, Clone)]
pub struct ScreenCollection(pub Vec<ScreenRect>);

/// A listener to hand the pointer to when it leaves through `side`.
#[derive(Debug, Clone)]
pub struct ConnectionInfo {
    pub ip_and_port: String,
    pub side: RectSide,
}

} // verus!

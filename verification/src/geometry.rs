use vstd::prelude::*;

verus! {

/// True when `v` is representable as an `i32`.
pub open spec fn fits_i32(v: int) -> bool {
    i32::MIN <= v <= i32::MAX
}

/// A point (or a displacement) on the virtual desktop, in pixels.
#[derive(Debug, Clone, Copy, PartialEq, Eq, Structural)]
pub struct Vector2 {
    pub x: i32,
    pub y: i32,
}

impl Vector2 {
    pub fn new(x: i32, y: i32) -> (v: Vector2)
        ensures
            v.x == x,
            v.y == y,
    {
        Vector2 { x, y }
    }

    /// Both coordinates of `self + other` fit in an `i32`.
    pub open spec fn sum_fits(self, other: Vector2) -> bool {
        fits_i32(self.x + other.x) && fits_i32(self.y + other.y)
    }

    /// Component-wise sum.
    pub fn add(self, other: Vector2) -> (v: Vector2)
        requires
            self.sum_fits(other),
        ensures
            v.x == self.x + other.x,
            v.y == self.y + other.y,
    {
        Vector2 { x: self.x + other.x, y: self.y + other.y }
    }

    /// Component-wise in-place sum.
    pub fn add_assign(&mut self, other: Vector2)
        requires
            old(self).sum_fits(other),
        ensures
            final(self).x == old(self).x + other.x,
            final(self).y == old(self).y + other.y,
    {
        *self = self.add(other);
    }
}

impl Default for Vector2 {
    fn default() -> (v: Vector2)
        ensures
            v.x == 0,
            v.y == 0,
    {
        Vector2 { x: 0, y: 0 }
    }
}

/// The side of a screen that a rectangle side faces.
#[derive(Debug, Clone, Copy, PartialEq, Eq, Hash, Structural)]
pub enum Direction {
    Left,
    Up,
    Down,
    Right,
}

/// The number that stands for a direction on the wire.
pub open spec fn direction_code(d: Direction) -> u8 {
    match d {
        Direction::Left => 0,
        Direction::Up => 1,
        Direction::Down => 2,
        Direction::Right => 3,
    }
}

/// The direction that a wire number stands for, if any.
pub open spec fn direction_of_code(c: u8) -> Option<Direction> {
    if c == 0 {
        Some(Direction::Left)
    } else if c == 1 {
        Some(Direction::Up)
    } else if c == 2 {
        Some(Direction::Down)
    } else if c == 3 {
        Some(Direction::Right)
    } else {
        None
    }
}

impl Direction {
    /// The direction's wire number (`Left` is 0, then `Up`, `Down`, `Right`).
    pub fn code(&self) -> (c: u8)
        ensures
            c == direction_code(*self),
    {
        match self {
            Direction::Left => 0,
            Direction::Up => 1,
            Direction::Down => 2,
            Direction::Right => 3,
        }
    }

    /// The direction with the given wire number, `None` for numbers above 3.
    pub fn from_code(c: u8) -> (d: Option<Direction>)
        ensures
            d == direction_of_code(c),
    {
        if c == 0 {
            Some(Direction::Left)
        } else if c == 1 {
            Some(Direction::Up)
        } else if c == 2 {
            Some(Direction::Down)
        } else if c == 3 {
            Some(Direction::Right)
        } else {
            None
        }
    }
}

/// Decoding a direction's wire number gives the direction back, and every
/// number that decodes is the number of what it decodes to.
pub proof fn lemma_direction_code_round_trip(d: Direction, c: u8)
    ensures
        direction_of_code(direction_code(d)) == Some(d),
        direction_of_code(c) matches Some(e) ==> direction_code(e) == c,
        direction_of_code(c) is Some <==> c < 4,
{
}

/// Why two points do not make a side.
#[derive(Debug, Clone, Copy, PartialEq, Eq, Structural)]
pub enum RectSideError {
    /// The points lie on neither a common row nor a common column.
    NotStraight,
    /// The points are equal.
    SamePoint,
}

impl RectSideError {
    /// The error's text.
    pub fn message(&self) -> (s: &'static str)
        ensures
            *self == RectSideError::NotStraight ==> s@ == "Not straight"@,
            *self == RectSideError::SamePoint ==> s@ == "Same point?"@,
    {
        match self {
            RectSideError::NotStraight => "Not straight",
            RectSideError::SamePoint => "Same point?",
        }
    }
}

/// One side of a screen rectangle: a segment that starts at `position`,
/// runs `length` pixels, and faces `outward_direction`.
///
/// Seen from the position, a `Left` side runs up (towards smaller y), a
/// `Right` side runs down, an `Up` side runs right and a `Down` side runs left.
#[derive(Debug, Clone, Copy, PartialEq, Eq, Structural)]
pub struct RectSide {
    outward_direction: Direction,
    length: i32,
    position: Vector2,
}

/// The displacement from a side's start to its end.
pub open spec fn end_offset(d: Direction, len: int) -> (int, int) {
    match d {
        Direction::Left => (0, -len),
        Direction::Right => (0, len),
        Direction::Up => (len, 0),
        Direction::Down => (-len, 0),
    }
}

/// Whether `a` and `b` lie on neither a common column nor a common row.
pub open spec fn not_straight(a: Vector2, b: Vector2) -> bool {
    a.x != b.x && a.y != b.y
}

/// Computing a side from two points overflows nowhere: where the points make
/// a side, both coordinate differences fit in an `i32` and neither is `i32::MIN`.
pub open spec fn coords_defined(a: Vector2, b: Vector2) -> bool {
    not_straight(a, b) || a == b || (i32::MIN < a.x - b.x <= i32::MAX && i32::MIN < a.y - b.y
        <= i32::MAX)
}

/// The direction of the side from `a` to `b`.
pub open spec fn coords_direction(a: Vector2, b: Vector2) -> Direction {
    if a.x == b.x {
        if a.y - b.y > 0 {
            Direction::Left
        } else {
            Direction::Right
        }
    } else {
        if a.x - b.x > 0 {
            Direction::Down
        } else {
            Direction::Up
        }
    }
}

pub open spec fn abs_int(v: int) -> int {
    if v < 0 {
        -v
    } else {
        v
    }
}

/// The taxicab distance between `a` and `b`.
pub open spec fn distance(a: Vector2, b: Vector2) -> int {
    (if a.x >= b.x {
        a.x - b.x
    } else {
        b.x - a.x
    }) + (if a.y >= b.y {
        a.y - b.y
    } else {
        b.y - a.y
    })
}

/// The length of the side from `a` to `b`: the larger absolute coordinate difference.
pub open spec fn coords_length(a: Vector2, b: Vector2) -> int {
    let dx = abs_int(a.x - b.x);
    let dy = abs_int(a.y - b.y);
    if dx >= dy {
        dx
    } else {
        dy
    }
}

impl RectSide {
    pub closed spec fn direction_of(self) -> Direction {
        self.outward_direction
    }

    pub closed spec fn length_of(self) -> i32 {
        self.length
    }

    pub closed spec fn position_of(self) -> Vector2 {
        self.position
    }

    /// The exact end point, as integers.
    pub open spec fn end_of(self) -> (int, int) {
        let off = end_offset(self.direction_of(), self.length_of() as int);
        (self.position_of().x + off.0, self.position_of().y + off.1)
    }

    /// Computing the end point overflows nowhere.
    pub open spec fn end_defined(self) -> bool {
        &&& (self.direction_of() == Direction::Left || self.direction_of() == Direction::Down)
            ==> self.length_of() != i32::MIN
        &&& fits_i32(self.end_of().0)
        &&& fits_i32(self.end_of().1)
    }

    /// Whether `p` lies just beyond the side: strictly on its outward side and
    /// strictly between its two ends.
    pub open spec fn outside_spec(self, p: Vector2) -> bool {
        let pos = self.position_of();
        let l = self.length_of() as int;
        match self.direction_of() {
            Direction::Left => p.x < pos.x && p.y < pos.y && p.y > pos.y - l,
            Direction::Right => p.x > pos.x && p.y > pos.y && p.y < pos.y + l,
            Direction::Up => p.y < pos.y && p.x > pos.x && p.x < pos.x + l,
            Direction::Down => p.y > pos.y && p.x < pos.x && p.x > pos.x - l,
        }
    }

    /// Testing `p` against the side overflows nowhere (the far end is only
    /// computed once the first two comparisons hold).
    pub open spec fn outside_defined(self, p: Vector2) -> bool {
        let pos = self.position_of();
        let l = self.length_of() as int;
        match self.direction_of() {
            Direction::Left => (p.x < pos.x && p.y < pos.y) ==> fits_i32(pos.y - l),
            Direction::Right => (p.x > pos.x && p.y > pos.y) ==> fits_i32(pos.y + l),
            Direction::Up => (p.y < pos.y && p.x > pos.x) ==> fits_i32(pos.x + l),
            Direction::Down => (p.y > pos.y && p.x < pos.x) ==> fits_i32(pos.x - l),
        }
    }

    /// A side with the given fields.
    pub fn from_parts(outward_direction: Direction, length: i32, position: Vector2) -> (s: RectSide)
        ensures
            s.direction_of() == outward_direction,
            s.length_of() == length,
            s.position_of() == position,
    {
        RectSide { outward_direction, length, position }
    }

    /// The side that runs from `a` to `b`.
    pub fn new_from_coords(a: Vector2, b: Vector2) -> (r: Result<RectSide, RectSideError>)
        requires
            coords_defined(a, b),
        ensures
            not_straight(a, b) ==> r == Err::<RectSide, RectSideError>(RectSideError::NotStraight),
            !not_straight(a, b) && a == b ==> r == Err::<RectSide, RectSideError>(
                RectSideError::SamePoint,
            ),
            !not_straight(a, b) && a != b ==> (r matches Ok(s) && s.position_of() == a
                && s.direction_of() == coords_direction(a, b) && s.length_of() == coords_length(
                a,
                b,
            )),
            r matches Ok(s) ==> s.length_of() > 0 && s.length_of() == distance(a, b),
            r matches Ok(s) ==> (b.x > a.x ==> s.direction_of() == Direction::Up),
            r matches Ok(s) ==> (b.x < a.x ==> s.direction_of() == Direction::Down),
            r matches Ok(s) ==> (b.y < a.y ==> s.direction_of() == Direction::Left),
            r matches Ok(s) ==> (b.y > a.y ==> s.direction_of() == Direction::Right),
    {
        if a.x != b.x && a.y != b.y {
            return Err(RectSideError::NotStraight);
        } else if a == b {
            return Err(RectSideError::SamePoint);
        }
        let direction = if a.x == b.x {
            let len = a.y - b.y;
            if len > 0 {
                Direction::Left
            } else {
                Direction::Right
            }
        } else {
            let len = a.x - b.x;
            if len > 0 {
                Direction::Down
            } else {
                Direction::Up
            }
        };
        let dx = a.x - b.x;
        let dy = a.y - b.y;
        let adx = if dx < 0 {
            -dx
        } else {
            dx
        };
        let ady = if dy < 0 {
            -dy
        } else {
            dy
        };
        let length = if adx >= ady {
            adx
        } else {
            ady
        };
        Ok(RectSide { position: a, length, outward_direction: direction })
    }

    /// Moves the side by `amount`.
    pub fn offset(&mut self, amount: Vector2)
        requires
            old(self).position_of().sum_fits(amount),
        ensures
            final(self).direction_of() == old(self).direction_of(),
            final(self).length_of() == old(self).length_of(),
            final(self).position_of().x == old(self).position_of().x + amount.x,
            final(self).position_of().y == old(self).position_of().y + amount.y,
    {
        self.position.add_assign(amount);
    }

    /// The start point.
    pub fn a(&self) -> (p: Vector2)
        ensures
            p == self.position_of(),
    {
        self.position
    }

    /// The end point.
    pub fn b(&self) -> (p: Vector2)
        requires
            self.end_defined(),
        ensures
            p.x == self.end_of().0,
            p.y == self.end_of().1,
    {
        let off = match self.outward_direction {
            Direction::Left => Vector2 { x: 0, y: -self.length },
            Direction::Right => Vector2 { x: 0, y: self.length },
            Direction::Up => Vector2 { x: self.length, y: 0 },
            Direction::Down => Vector2 { x: -self.length, y: 0 },
        };
        self.position.add(off)
    }

    /// Whether `point` lies just beyond the side (see `outside_spec`).
    pub fn is_point_outside(&self, point: Vector2) -> (r: bool)
        requires
            self.outside_defined(point),
        ensures
            r == self.outside_spec(point),
    {
        match self.outward_direction {
            Direction::Left => point.x < self.position.x && point.y < self.position.y && point.y
                > self.position.y - self.length,
            Direction::Right => point.x > self.position.x && point.y > self.position.y && point.y
                < self.position.y + self.length,
            Direction::Up => point.y < self.position.y && point.x > self.position.x && point.x
                < self.position.x + self.length,
            Direction::Down => point.y > self.position.y && point.x < self.position.x && point.x
                > self.position.x - self.length,
        }
    }

    /// Whether `is_point_outside(point)` can be computed without overflow.
    pub fn can_test_point(&self, point: Vector2) -> (b: bool)
        ensures
            b == self.outside_defined(point),
    {
        let pos = self.position;
        let l = self.length as i64;
        let (px, py) = (pos.x as i64, pos.y as i64);
        let min = i32::MIN as i64;
        let max = i32::MAX as i64;
        match self.outward_direction {
            Direction::Left => !(point.x < pos.x && point.y < pos.y) || (min <= py - l && py - l
                <= max),
            Direction::Right => !(point.x > pos.x && point.y > pos.y) || (min <= py + l && py + l
                <= max),
            Direction::Up => !(point.y < pos.y && point.x > pos.x) || (min <= px + l && px + l
                <= max),
            Direction::Down => !(point.y > pos.y && point.x < pos.x) || (min <= px - l && px - l
                <= max),
        }
    }

    pub fn outward_direction(&self) -> (d: Direction)
        ensures
            d == self.direction_of(),
    {
        self.outward_direction
    }

    pub fn length(&self) -> (l: i32)
        ensures
            l == self.length_of(),
    {
        self.length
    }
}

/// A side made from two points starts at the first and ends at the second:
/// whenever `RectSide::new_from_coords(a, b)` succeeds, `a()` gives `a` and
/// `b()` is defined and gives `b`.
pub proof fn lemma_side_from_coords_spans_points(a: Vector2, b: Vector2, s: RectSide)
    requires
        coords_defined(a, b),
        !not_straight(a, b),
        a != b,
        s.position_of() == a,
        s.direction_of() == coords_direction(a, b),
        s.length_of() == coords_length(a, b),
    ensures
        s.end_defined(),
        s.end_of() == (b.x as int, b.y as int),
{
}

/// Moving a side by `v` moves both of its ends by `v` and keeps its length and direction.
pub proof fn lemma_offset_moves_both_ends(s: RectSide, t: RectSide, v: Vector2)
    requires
        t.direction_of() == s.direction_of(),
        t.length_of() == s.length_of(),
        t.position_of().x == s.position_of().x + v.x,
        t.position_of().y == s.position_of().y + v.y,
    ensures
        t.end_of() == (s.end_of().0 + v.x, s.end_of().1 + v.y),
{
}

/// Moving a side and a point by the same displacement keeps whether the point
/// lies just beyond the side.
pub proof fn lemma_offset_keeps_outside(s: RectSide, t: RectSide, v: Vector2, p: Vector2, q: Vector2)
    requires
        t.direction_of() == s.direction_of(),
        t.length_of() == s.length_of(),
        t.position_of().x == s.position_of().x + v.x,
        t.position_of().y == s.position_of().y + v.y,
        q.x == p.x + v.x,
        q.y == p.y + v.y,
    ensures
        t.outside_spec(q) == s.outside_spec(p),
{
}

/// A side made from two points on a common row or column is as long as the
/// points are apart, and faces the way that turns clockwise from `a` to `b`:
/// up when `b` is to the right of `a`, down when to the left, left when `b` is
/// above, right when below.
pub proof fn lemma_side_from_coords_geometry(a: Vector2, b: Vector2, s: RectSide)
    requires
        coords_defined(a, b),
        !not_straight(a, b),
        a != b,
        s.direction_of() == coords_direction(a, b),
        s.length_of() == coords_length(a, b),
    ensures
        s.length_of() > 0,
        s.length_of() == distance(a, b),
        b.x > a.x ==> s.direction_of() == Direction::Up,
        b.x < a.x ==> s.direction_of() == Direction::Down,
        b.y < a.y ==> s.direction_of() == Direction::Left,
        b.y > a.y ==> s.direction_of() == Direction::Right,
{
}

/// The coordinate across a side (x for `Left`/`Right`, y for `Up`/`Down`).
pub open spec fn across(d: Direction, p: Vector2) -> int {
    match d {
        Direction::Left | Direction::Right => p.x as int,
        Direction::Up | Direction::Down => p.y as int,
    }
}

/// The coordinate along a side (y for `Left`/`Right`, x for `Up`/`Down`).
pub open spec fn along(d: Direction, p: Vector2) -> int {
    match d {
        Direction::Left | Direction::Right => p.y as int,
        Direction::Up | Direction::Down => p.x as int,
    }
}

/// The coordinate along a side of its end point.
pub open spec fn end_along(s: RectSide) -> int {
    match s.direction_of() {
        Direction::Left | Direction::Right => s.end_of().1,
        Direction::Up | Direction::Down => s.end_of().0,
    }
}

/// `p` is on the outward side of the line through `s`: left of a `Left`
/// side, right of a `Right` side, above an `Up` side, below a `Down` side.
/// There is no bound on how far.
pub open spec fn past_line(s: RectSide, p: Vector2) -> bool {
    let here = across(s.direction_of(), s.position_of());
    let there = across(s.direction_of(), p);
    match s.direction_of() {
        Direction::Left | Direction::Up => there < here,
        Direction::Right | Direction::Down => there > here,
    }
}

/// `p` lies strictly between the two ends of `s`, measured along the side.
pub open spec fn between_ends(s: RectSide, p: Vector2) -> bool {
    let start = along(s.direction_of(), s.position_of());
    let end = end_along(s);
    let q = along(s.direction_of(), p);
    (start < q && q < end) || (end < q && q < start)
}

/// A point lies beyond a side only if it is on the outward side of the
/// side's line and strictly between the side's two ends.
pub proof fn lemma_outside_only_past_line_between_ends(s: RectSide, p: Vector2)
    ensures
        s.outside_spec(p) ==> past_line(s, p) && between_ends(s, p),
{
}

/// A point on the outward side of a side's line, however far, and strictly
/// between its two ends lies beyond the side (for a side of positive length).
pub proof fn lemma_past_line_between_ends_is_outside(s: RectSide, p: Vector2)
    requires
        s.length_of() > 0,
        past_line(s, p),
        between_ends(s, p),
    ensures
        s.outside_spec(p),
{
}

/// Beyond a side is unbounded outward: if `p` lies beyond `s`, so does every
/// point further out on the same line across the side.
pub proof fn lemma_outside_is_unbounded_outward(s: RectSide, p: Vector2, q: Vector2)
    requires
        s.outside_spec(p),
        along(s.direction_of(), q) == along(s.direction_of(), p),
        match s.direction_of() {
            Direction::Left | Direction::Up => across(s.direction_of(), q) <= across(
                s.direction_of(),
                p,
            ),
            Direction::Right | Direction::Down => across(s.direction_of(), q) >= across(
                s.direction_of(),
                p,
            ),
        },
    ensures
        s.outside_spec(q),
{
}

/// No point lies beyond a side at or before its start, measured along the side
/// towards its end, nor at or after its end.
pub proof fn lemma_outside_excludes_ends(s: RectSide, p: Vector2)
    requires
        s.length_of() > 0,
        along(s.direction_of(), p) == along(s.direction_of(), s.position_of()) || along(
            s.direction_of(),
            p,
        ) == end_along(s),
    ensures
        !s.outside_spec(p),
{
}

} // verus!

//! Points and rectangles on a screen, in pixels.

use vstd::prelude::*;

verus! {

/// A point, or a distance between two points.
#[derive(Copy, Clone, Debug, PartialEq, Eq, Structural)]
pub struct Point {
    pub x: i32,
    pub y: i32,
}

impl Point {
    pub fn new(x: i32, y: i32) -> (p: Point)
        ensures
            p == (Point { x, y }),
    {
        Point { x: x, y: y }
    }
}

impl std::ops::Add for Point {
    type Output = Point;

    fn add(self, rhs: Point) -> (sum: Point) {
        Point::new(self.x + rhs.x, self.y + rhs.y)
    }
}

impl vstd::std_specs::ops::AddSpecImpl for Point {
    open spec fn obeys_add_spec() -> bool {
        true
    }

    /// Both coordinates of the sum are in the range of `i32`.
    open spec fn add_req(self, rhs: Point) -> bool {
        &&& i32::MIN <= self.x + rhs.x <= i32::MAX
        &&& i32::MIN <= self.y + rhs.y <= i32::MAX
    }

    open spec fn add_spec(self, rhs: Point) -> Point {
        Point { x: (self.x + rhs.x) as i32, y: (self.y + rhs.y) as i32 }
    }
}

impl std::ops::Sub for Point {
    type Output = Point;

    fn sub(self, rhs: Point) -> (difference: Point) {
        Point::new(self.x - rhs.x, self.y - rhs.y)
    }
}

impl vstd::std_specs::ops::SubSpecImpl for Point {
    open spec fn obeys_sub_spec() -> bool {
        true
    }

    /// Both coordinates of the difference are in the range of `i32`.
    open spec fn sub_req(self, rhs: Point) -> bool {
        &&& i32::MIN <= self.x - rhs.x <= i32::MAX
        &&& i32::MIN <= self.y - rhs.y <= i32::MAX
    }

    open spec fn sub_spec(self, rhs: Point) -> Point {
        Point { x: (self.x - rhs.x) as i32, y: (self.y - rhs.y) as i32 }
    }
}

/// A place along one axis of a rectangle: its start, its middle or its end.
/// On the vertical axis `Left` is the top and `Right` the bottom.
#[derive(Copy, Clone, Debug, PartialEq, Eq, Structural)]
pub enum Pos {
    Left,
    Center,
    Right,
}

/// One of the nine places of a rectangle that a pair of [`Pos`] names.
#[derive(Copy, Clone, Debug, PartialEq, Eq, Structural)]
pub struct Corner {
    pub x: Pos,
    pub y: Pos,
}

impl Corner {
    /// The top left corner.
    pub fn top_left() -> (c: Corner)
        ensures
            c == (Corner { x: Pos::Left, y: Pos::Left }),
    {
        Corner { x: Pos::Left, y: Pos::Left }
    }

    /// The middle of the top edge.
    pub fn top() -> (c: Corner)
        ensures
            c == (Corner { x: Pos::Center, y: Pos::Left }),
    {
        Corner { x: Pos::Center, y: Pos::Left }
    }

    /// The top right corner.
    pub fn top_right() -> (c: Corner)
        ensures
            c == (Corner { x: Pos::Right, y: Pos::Left }),
    {
        Corner { x: Pos::Right, y: Pos::Left }
    }

    /// The middle of the left edge.
    pub fn left() -> (c: Corner)
        ensures
            c == (Corner { x: Pos::Left, y: Pos::Center }),
    {
        Corner { x: Pos::Left, y: Pos::Center }
    }

    /// The centre.
    pub fn center() -> (c: Corner)
        ensures
            c == (Corner { x: Pos::Center, y: Pos::Center }),
    {
        Corner { x: Pos::Center, y: Pos::Center }
    }

    /// The middle of the right edge.
    pub fn right() -> (c: Corner)
        ensures
            c == (Corner { x: Pos::Right, y: Pos::Center }),
    {
        Corner { x: Pos::Right, y: Pos::Center }
    }

    /// The bottom left corner.
    pub fn bottom_left() -> (c: Corner)
        ensures
            c == (Corner { x: Pos::Left, y: Pos::Right }),
    {
        Corner { x: Pos::Left, y: Pos::Right }
    }

    /// The middle of the bottom edge.
    pub fn bottom() -> (c: Corner)
        ensures
            c == (Corner { x: Pos::Center, y: Pos::Right }),
    {
        Corner { x: Pos::Center, y: Pos::Right }
    }

    /// The bottom right corner.
    pub fn bottom_right() -> (c: Corner)
        ensures
            c == (Corner { x: Pos::Right, y: Pos::Right }),
    {
        Corner { x: Pos::Right, y: Pos::Right }
    }
}

/// A length of 32 bits read as a signed coordinate: itself up to `i32::MAX`,
/// and wrapped round to a negative number above that.
pub open spec fn signed(len: u32) -> int {
    if len <= i32::MAX {
        len as int
    } else {
        len - 0x1_0000_0000
    }
}

/// The place `p` along an axis of length `len` that starts at 0.
pub open spec fn along(len: u32, p: Pos) -> int {
    match p {
        Pos::Left => 0,
        Pos::Center => len as int / 2,
        Pos::Right => signed(len),
    }
}

/// A width and a height.
#[derive(Copy, Clone, Debug, PartialEq, Eq, Structural)]
pub struct Rectangle {
    pub w: u32,
    pub h: u32,
}

impl Rectangle {
    pub fn new(w: u32, h: u32) -> (r: Rectangle)
        ensures
            r == (Rectangle { w, h }),
    {
        Rectangle { w: w, h: h }
    }

    /// The place `c` of the rectangle, its top left corner being the origin.
    pub open spec fn spec_corner(self, c: Corner) -> Point {
        Point { x: along(self.w, c.x) as i32, y: along(self.h, c.y) as i32 }
    }

    /// Whether `p` lies in the rectangle or on its edge, its top left corner
    /// being the origin.
    pub open spec fn spec_point_inside(self, p: Point) -> bool {
        &&& 0 <= p.x <= signed(self.w)
        &&& 0 <= p.y <= signed(self.h)
    }

    /// The horizontal coordinate of the place `p`: 0 for the left edge, half
    /// the width, rounded down, for the middle, the width for the right edge.
    /// A width above `i32::MAX` wraps round.
    pub fn pos_x(&self, p: Pos) -> (x: i32)
        ensures
            x == along(self.w, p),
    {
        axis(self.w, p)
    }

    /// The vertical coordinate of the place `p`: 0 for the top edge, half the
    /// height, rounded down, for the middle, the height for the bottom edge.
    /// A height above `i32::MAX` wraps round.
    pub fn pos_y(&self, p: Pos) -> (y: i32)
        ensures
            y == along(self.h, p),
    {
        axis(self.h, p)
    }

    pub fn corner(&self, c: Corner) -> (p: Point)
        ensures
            p == self.spec_corner(c),
    {
        Point::new(self.pos_x(c.x), self.pos_y(c.y))
    }

    pub fn point_inside(&self, p: Point) -> (inside: bool)
        ensures
            inside == self.spec_point_inside(p),
    {
        self.pos_x(Pos::Left) <= p.x && p.x <= self.pos_x(Pos::Right) && self.pos_y(Pos::Left)
            <= p.y && p.y <= self.pos_y(Pos::Right)
    }
}

/// The place `p` along an axis of length `len`, as a coordinate.
fn axis(len: u32, p: Pos) -> (at: i32)
    ensures
        at == along(len, p),
{
    match p {
        Pos::Left => 0,
        Pos::Center => (len / 2) as i32,
        Pos::Right => {
            assert(len as i32 == signed(len)) by (bit_vector);
            #[verifier::truncate]
            (len as i32)
        },
    }
}

/// A rectangle at a position: `p` is its top left corner.
#[derive(Copy, Clone, Debug, PartialEq, Eq, Structural)]
pub struct PositionedRectangle {
    pub p: Point,
    pub r: Rectangle,
}

impl PositionedRectangle {
    pub fn new(x: i32, y: i32, w: u32, h: u32) -> (r: PositionedRectangle)
        ensures
            r == (PositionedRectangle { p: Point { x, y }, r: Rectangle { w, h } }),
    {
        PositionedRectangle { p: Point::new(x, y), r: Rectangle::new(w, h) }
    }

    /// The horizontal coordinate of the place `p` on the screen.
    pub open spec fn spec_pos_x(self, p: Pos) -> int {
        along(self.r.w, p) + self.p.x
    }

    /// The vertical coordinate of the place `p` on the screen.
    pub open spec fn spec_pos_y(self, p: Pos) -> int {
        along(self.r.h, p) + self.p.y
    }

    /// Whether `p` lies in the rectangle or on its edge.
    pub open spec fn spec_point_inside(self, p: Point) -> bool {
        &&& self.p.x <= p.x <= self.p.x + signed(self.r.w)
        &&& self.p.y <= p.y <= self.p.y + signed(self.r.h)
    }

    /// Whether the two rectangles have a point in common that is on the edge
    /// of neither.
    pub open spec fn spec_overlaps(self, r: PositionedRectangle) -> bool {
        &&& self.spec_pos_x(Pos::Right) > r.spec_pos_x(Pos::Left)
        &&& r.spec_pos_x(Pos::Right) > self.spec_pos_x(Pos::Left)
        &&& self.spec_pos_y(Pos::Right) > r.spec_pos_y(Pos::Left)
        &&& r.spec_pos_y(Pos::Right) > self.spec_pos_y(Pos::Left)
    }

    pub fn pos_x(&self, p: Pos) -> (x: i32)
        requires
            i32::MIN <= self.spec_pos_x(p) <= i32::MAX,
        ensures
            x == self.spec_pos_x(p),
    {
        self.r.pos_x(p) + self.p.x
    }

    pub fn pos_y(&self, p: Pos) -> (y: i32)
        requires
            i32::MIN <= self.spec_pos_y(p) <= i32::MAX,
        ensures
            y == self.spec_pos_y(p),
    {
        self.r.pos_y(p) + self.p.y
    }

    pub fn corner(&self, c: Corner) -> (p: Point)
        requires
            i32::MIN <= self.spec_pos_x(c.x) <= i32::MAX,
            i32::MIN <= self.spec_pos_y(c.y) <= i32::MAX,
        ensures
            p.x == self.spec_pos_x(c.x),
            p.y == self.spec_pos_y(c.y),
    {
        self.r.corner(c) + self.p
    }

    pub fn point_inside(&self, p: Point) -> (inside: bool)
        requires
            i32::MIN <= p.x - self.p.x <= i32::MAX,
            i32::MIN <= p.y - self.p.y <= i32::MAX,
        ensures
            inside == self.spec_point_inside(p),
    {
        self.r.point_inside(p - self.p)
    }

    /// Whether `r` lies in this rectangle: its top left and its bottom right
    /// corner both do. The bottom right corner is looked at only where the
    /// top left one is inside.
    pub fn rectangle_inside(&self, r: PositionedRectangle) -> (inside: bool)
        requires
            i32::MIN <= r.p.x - self.p.x <= i32::MAX,
            i32::MIN <= r.p.y - self.p.y <= i32::MAX,
            self.spec_point_inside(r.p) ==> {
                &&& i32::MIN <= r.spec_pos_x(Pos::Right) <= i32::MAX
                &&& i32::MIN <= r.spec_pos_y(Pos::Right) <= i32::MAX
                &&& i32::MIN <= r.spec_pos_x(Pos::Right) - self.p.x <= i32::MAX
                &&& i32::MIN <= r.spec_pos_y(Pos::Right) - self.p.y <= i32::MAX
            },
        ensures
            inside == (self.spec_point_inside(r.p) && self.spec_point_inside(
                Point {
                    x: r.spec_pos_x(Pos::Right) as i32,
                    y: r.spec_pos_y(Pos::Right) as i32,
                },
            )),
    {
        self.point_inside(r.corner(Corner::top_left())) && self.point_inside(
            r.corner(Corner::bottom_right()),
        )
    }

    /// Whether the two rectangles overlap. The four edges are compared in
    /// turn, and a right or bottom edge is worked out only where the
    /// comparisons before it have not settled the answer.
    pub fn rectangle_overlaps(&self, r: PositionedRectangle) -> (overlaps: bool)
        requires
            i32::MIN <= self.spec_pos_x(Pos::Right) <= i32::MAX,
            self.spec_pos_x(Pos::Right) > r.p.x ==> i32::MIN <= r.spec_pos_x(Pos::Right)
                <= i32::MAX,
            self.spec_pos_x(Pos::Right) > r.p.x && r.spec_pos_x(Pos::Right) > self.p.x ==> i32::MIN
                <= self.spec_pos_y(Pos::Right) <= i32::MAX,
            self.spec_pos_x(Pos::Right) > r.p.x && r.spec_pos_x(Pos::Right) > self.p.x
                && self.spec_pos_y(Pos::Right) > r.p.y ==> i32::MIN <= r.spec_pos_y(Pos::Right)
                <= i32::MAX,
        ensures
            overlaps == self.spec_overlaps(r),
    {
        !(self.pos_x(Pos::Right) <= r.pos_x(Pos::Left) || r.pos_x(Pos::Right) <= self.pos_x(
            Pos::Left,
        ) || self.pos_y(Pos::Right) <= r.pos_y(Pos::Left) || r.pos_y(Pos::Right) <= self.pos_y(
            Pos::Left,
        ))
    }
}

} // verus!

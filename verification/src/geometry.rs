//! Integer geometry shared by the whole library: points, sizes, rectangles and output transforms.
use vstd::prelude::*;

verus! {

/// A point of a plane whose unit is one pixel.
#[derive(Clone, Copy, Debug, PartialEq, Eq, Structural)]
pub struct Point {
    pub x: i32,
    pub y: i32,
}

/// The extent of a rectangle.
#[derive(Clone, Copy, Debug, PartialEq, Eq, Structural)]
pub struct Size {
    pub w: i32,
    pub h: i32,
}

/// A rectangle given by its top-left corner and its extent.
///
/// It holds the points from its corner up to, but not on, its right and bottom edges.
#[derive(Clone, Copy, Debug, PartialEq, Eq, Structural)]
pub struct Rectangle {
    pub loc: Point,
    pub size: Size,
}

/// A floating-point number, kept as its bit pattern.
///
/// Every number has one pattern: there is no negative zero, and what is no number does not occur.
#[derive(Clone, Copy, Debug, PartialEq, Eq, Structural)]
pub struct FloatBits {
    pub bits: u64,
}

/// A point between pixels.
#[derive(Clone, Copy, Debug, PartialEq, Eq, Structural)]
pub struct FinePoint {
    pub x: FloatBits,
    pub y: FloatBits,
}

/// The smaller of two integers.
pub open spec fn min_int(a: int, b: int) -> int {
    if a <= b {
        a
    } else {
        b
    }
}

/// The larger of two integers.
pub open spec fn max_int(a: int, b: int) -> int {
    if a >= b {
        a
    } else {
        b
    }
}

impl Rectangle {
    /// The coordinate of the right edge, which is no longer inside.
    pub open spec fn right(self) -> int {
        self.loc.x + self.size.w
    }

    /// The coordinate of the bottom edge, which is no longer inside.
    pub open spec fn bottom(self) -> int {
        self.loc.y + self.size.h
    }

    /// Whether a point lies inside.
    pub open spec fn has(self, x: int, y: int) -> bool {
        self.loc.x <= x < self.right() && self.loc.y <= y < self.bottom()
    }

    /// Whether both far edges can be named by a coordinate.
    pub open spec fn edges_fit(self) -> bool {
        i32::MIN <= self.right() <= i32::MAX && i32::MIN <= self.bottom() <= i32::MAX
    }

    /// The rectangle between two corners.
    pub fn from_extremities(topleft: Point, bottomright: Point) -> (r: Rectangle)
        requires
            i32::MIN <= bottomright.x - topleft.x <= i32::MAX,
            i32::MIN <= bottomright.y - topleft.y <= i32::MAX,
        ensures
            r.loc == topleft,
            r.right() == bottomright.x,
            r.bottom() == bottomright.y,
    {
        Rectangle {
            loc: topleft,
            size: Size { w: bottomright.x - topleft.x, h: bottomright.y - topleft.y },
        }
    }

    /// Whether the rectangle holds a point.
    pub fn contains(&self, point: Point) -> (r: bool)
        ensures
            r == self.has(point.x as int, point.y as int),
    {
        point.x >= self.loc.x && (point.x as i64) < self.loc.x as i64 + self.size.w as i64
            && point.y >= self.loc.y && (point.y as i64) < self.loc.y as i64 + self.size.h as i64
    }

    /// Whether two rectangles share some area, with far edges cut off at the last coordinate.
    pub open spec fn overlapping(self, other: Rectangle) -> bool {
        self.loc.x < far_edge_of(other.loc.x, other.size.w) && other.loc.x < far_edge_of(
            self.loc.x,
            self.size.w,
        ) && self.loc.y < far_edge_of(other.loc.y, other.size.h) && other.loc.y < far_edge_of(
            self.loc.y,
            self.size.h,
        )
    }

    /// The area that two overlapping rectangles share.
    pub open spec fn common(self, other: Rectangle) -> Rectangle {
        let left = max_int(self.loc.x as int, other.loc.x as int);
        let top = max_int(self.loc.y as int, other.loc.y as int);
        let right = min_int(
            far_edge_of(self.loc.x, self.size.w),
            far_edge_of(other.loc.x, other.size.w),
        );
        let bottom = min_int(
            far_edge_of(self.loc.y, self.size.h),
            far_edge_of(other.loc.y, other.size.h),
        );
        Rectangle {
            loc: Point { x: left as i32, y: top as i32 },
            size: Size { w: (right - left) as i32, h: (bottom - top) as i32 },
        }
    }

    /// The area that two rectangles share, if they overlap.
    pub fn intersection(&self, other: Rectangle) -> (r: Option<Rectangle>)
        ensures
            r == (if self.overlapping(other) {
                Some(self.common(other))
            } else {
                None
            }),
    {
        if !self.overlaps(other) {
            return None;
        }
        let left: i32 = if self.loc.x >= other.loc.x {
            self.loc.x
        } else {
            other.loc.x
        };
        let top: i32 = if self.loc.y >= other.loc.y {
            self.loc.y
        } else {
            other.loc.y
        };
        let (a, b): (i32, i32) = (
            far_edge(self.loc.x, self.size.w),
            far_edge(other.loc.x, other.size.w),
        );
        let right: i32 = if a <= b {
            a
        } else {
            b
        };
        let (c, d): (i32, i32) = (
            far_edge(self.loc.y, self.size.h),
            far_edge(other.loc.y, other.size.h),
        );
        let bottom: i32 = if c <= d {
            c
        } else {
            d
        };
        Some(
            Rectangle {
                loc: Point { x: left, y: top },
                size: Size { w: right - left, h: bottom - top },
            },
        )
    }

    /// Whether two rectangles overlap.
    pub fn overlaps(&self, other: Rectangle) -> (r: bool)
        ensures
            r == self.overlapping(other),
    {
        self.loc.x < far_edge(other.loc.x, other.size.w) && other.loc.x < far_edge(
            self.loc.x,
            self.size.w,
        ) && self.loc.y < far_edge(other.loc.y, other.size.h) && other.loc.y < far_edge(
            self.loc.y,
            self.size.h,
        )
    }

    /// The middle of the rectangle; half a pixel goes to the near side.
    pub open spec fn middle(self) -> (int, int) {
        (self.loc.x + self.size.w as int / 2, self.loc.y + self.size.h as int / 2)
    }

    /// The smallest rectangle that holds both.
    pub open spec fn joined(self, other: Rectangle) -> (int, int, int, int) {
        (
            min_int(self.loc.x as int, other.loc.x as int),
            min_int(self.loc.y as int, other.loc.y as int),
            max_int(self.right(), other.right()),
            max_int(self.bottom(), other.bottom()),
        )
    }

    /// The smallest rectangle that holds both.
    pub fn merge(&self, other: Rectangle) -> (r: Rectangle)
        requires
            self.edges_fit() && self.size.w >= 0 && self.size.h >= 0,
            other.edges_fit() && other.size.w >= 0 && other.size.h >= 0,
            self.joined(other).2 - self.joined(other).0 <= i32::MAX,
            self.joined(other).3 - self.joined(other).1 <= i32::MAX,
        ensures
            (r.loc.x as int, r.loc.y as int, r.right(), r.bottom()) == self.joined(other),
    {
        let left: i32 = if self.loc.x <= other.loc.x { self.loc.x } else { other.loc.x };
        let top: i32 = if self.loc.y <= other.loc.y { self.loc.y } else { other.loc.y };
        let self_right: i32 = self.loc.x + self.size.w;
        let other_right: i32 = other.loc.x + other.size.w;
        let self_bottom: i32 = self.loc.y + self.size.h;
        let other_bottom: i32 = other.loc.y + other.size.h;
        let right: i32 = if self_right >= other_right { self_right } else { other_right };
        let bottom: i32 = if self_bottom >= other_bottom { self_bottom } else { other_bottom };
        Rectangle::from_extremities(Point { x: left, y: top }, Point { x: right, y: bottom })
    }
}

/// The coordinate `len` past `start`, kept within what a coordinate can be.
pub open spec fn far_edge_of(start: i32, len: i32) -> int {
    if start + len > i32::MAX {
        i32::MAX as int
    } else if start + len < i32::MIN {
        i32::MIN as int
    } else {
        start + len
    }
}

/// The coordinate `len` past `start`, kept within what a coordinate can be.
fn far_edge(start: i32, len: i32) -> (r: i32)
    ensures
        r == far_edge_of(start, len),
{
    let sum: i64 = start as i64 + len as i64;
    if sum > i32::MAX as i64 {
        i32::MAX
    } else if sum < i32::MIN as i64 {
        i32::MIN
    } else {
        sum as i32
    }
}

/// Two rectangles overlap just if some point lies inside both, and what they have in common is just those
/// points.
pub proof fn law_common_area(a: Rectangle, b: Rectangle, x: int, y: int)
    requires
        a.edges_fit(),
        b.edges_fit(),
        a.size.w >= 0 && a.size.h >= 0 && b.size.w >= 0 && b.size.h >= 0,
    ensures
        a.overlapping(b) == b.overlapping(a),
        ({
            let in_a = a.loc.x <= x < a.loc.x + a.size.w && a.loc.y <= y < a.loc.y + a.size.h;
            let in_b = b.loc.x <= x < b.loc.x + b.size.w && b.loc.y <= y < b.loc.y + b.size.h;
            let c = a.common(b);
            &&& in_a && in_b ==> a.overlapping(b)
            &&& a.overlapping(b) ==> (in_a && in_b <==> c.loc.x <= x < c.loc.x + c.size.w && c.loc.y
                <= y < c.loc.y + c.size.h)
        }),
{
}

/// The smallest rectangle that holds two others holds every point of both, and each of its edges is one of
/// theirs.
pub proof fn law_joined_area(a: Rectangle, b: Rectangle, x: int, y: int)
    ensures
        ({
            let (left, top, right, bottom) = a.joined(b);
            &&& a.loc.x <= x < a.loc.x + a.size.w && a.loc.y <= y < a.loc.y + a.size.h ==> left <= x
                < right && top <= y < bottom
            &&& b.loc.x <= x < b.loc.x + b.size.w && b.loc.y <= y < b.loc.y + b.size.h ==> left <= x
                < right && top <= y < bottom
            &&& left == a.loc.x || left == b.loc.x
            &&& top == a.loc.y || top == b.loc.y
            &&& right == a.loc.x + a.size.w || right == b.loc.x + b.size.w
            &&& bottom == a.loc.y + a.size.h || bottom == b.loc.y + b.size.h
        }),
{
}

} // verus!

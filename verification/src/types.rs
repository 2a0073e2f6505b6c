//! Scalars, points, sizes and bounding boxes.

use vstd::prelude::*;
use crate::color::Color;

verus! {

/// An authored quantity: a length, an offset, a line width or an angle, as a
/// fixed-point number (see [`UNIT`]).
pub type Scalar = i32;

/// The scalar that stands for one: quantities are fixed-point numbers with
/// eight fractional bits.
pub const UNIT: Scalar = 256;

/// A coordinate of a recorded or tessellated point, in the units of [`Scalar`].
pub type Coord = i64;

/// A position in the vertex buffer.
pub type Index = u32;

/// An authored position or displacement.
#[derive(Clone, Copy, Debug, PartialEq, Eq, Structural)]
pub struct Vector {
    pub x: Scalar,
    pub y: Scalar,
}

/// An authored extent.
#[derive(Clone, Copy, Debug, PartialEq, Eq, Structural)]
pub struct Size {
    pub width: Scalar,
    pub height: Scalar,
}

/// A point of a recorded polyline or of a tessellated mesh.
#[derive(Clone, Copy, Debug, PartialEq, Eq, Structural)]
pub struct Point {
    pub x: Coord,
    pub y: Coord,
}

/// A vertex of the output: where it lies, after the transform of its shape's
/// context, and its color.
#[derive(Clone, Copy, Debug, PartialEq, Eq, Structural)]
pub struct RawVertex {
    pub position: Point,
    pub color: Color,
}

/// The smallest axis-aligned box around a list of points.
#[derive(Clone, Copy, Debug, PartialEq, Eq, Structural)]
pub struct BoundingBox {
    pub min: Point,
    pub max: Point,
}

/// Half of `v`, rounded towards negative infinity.
pub open spec fn half(v: int) -> int {
    v / 2
}

/// The integer midpoint of `a` and `b`: half of their sum, rounded down.
pub fn midpoint(a: Coord, b: Coord) -> (m: Coord)
    ensures
        m == half(a + b),
{
    let sum: i128 = a as i128 + b as i128;
    if sum >= 0 {
        (sum / 2) as Coord
    } else {
        let below: i128 = -(sum + 1);
        (-(below / 2) - 1) as Coord
    }
}

impl Vector {
    pub fn new(x: Scalar, y: Scalar) -> (v: Self)
        ensures
            v.x == x,
            v.y == y,
    {
        Vector { x, y }
    }

    /// The vector with both components zero.
    pub fn zero() -> (v: Self)
        ensures
            v.x == 0,
            v.y == 0,
    {
        Vector { x: 0, y: 0 }
    }

    /// The point with the same coordinates.
    pub open spec fn spec_to_point(self) -> Point {
        Point { x: self.x as Coord, y: self.y as Coord }
    }

    /// The point with the same coordinates.
    pub fn to_point(self) -> (p: Point)
        ensures
            p == self.spec_to_point(),
    {
        Point { x: self.x as Coord, y: self.y as Coord }
    }
}

impl Size {
    pub fn new(width: Scalar, height: Scalar) -> (s: Self)
        ensures
            s.width == width,
            s.height == height,
    {
        Size { width, height }
    }

    /// The displacement from a box's first corner to the opposite one.
    pub fn to_vector(self) -> (v: Vector)
        ensures
            v.x == self.width,
            v.y == self.height,
    {
        Vector { x: self.width, y: self.height }
    }
}

impl Point {
    pub fn new(x: Coord, y: Coord) -> (p: Self)
        ensures
            p.x == x,
            p.y == y,
    {
        Point { x, y }
    }
}

impl BoundingBox {
    /// Every point of `points` lies inside the box, its edges included.
    pub open spec fn encloses(self, points: Seq<Point>) -> bool {
        forall|i: int|
            0 <= i < points.len() ==> {
                &&& self.min.x <= (#[trigger] points[i]).x <= self.max.x
                &&& self.min.y <= points[i].y <= self.max.y
            }
    }

    /// Each of the four edges of the box passes through a point of `points`.
    pub open spec fn touches(self, points: Seq<Point>) -> bool {
        &&& exists|i: int| 0 <= i < points.len() && (#[trigger] points[i]).x == self.min.x
        &&& exists|i: int| 0 <= i < points.len() && (#[trigger] points[i]).y == self.min.y
        &&& exists|i: int| 0 <= i < points.len() && (#[trigger] points[i]).x == self.max.x
        &&& exists|i: int| 0 <= i < points.len() && (#[trigger] points[i]).y == self.max.y
    }

    /// The box of an empty list: its minimum is the largest point and its
    /// maximum the smallest, so that it encloses nothing.
    pub open spec fn spec_empty() -> BoundingBox {
        BoundingBox {
            min: Point { x: Coord::MAX, y: Coord::MAX },
            max: Point { x: Coord::MIN, y: Coord::MIN },
        }
    }

    /// `self` is the bounding box of `points`.
    pub open spec fn bounds(self, points: Seq<Point>) -> bool {
        if points.len() == 0 {
            self == Self::spec_empty()
        } else {
            self.encloses(points) && self.touches(points)
        }
    }

    /// The bounding box of `points`.
    pub open spec fn spec_from_points(points: Seq<Point>) -> BoundingBox {
        choose|b: BoundingBox| b.bounds(points)
    }

    /// A list of points has one bounding box only.
    pub proof fn lemma_bounds_unique(self, other: BoundingBox, points: Seq<Point>)
        requires
            self.bounds(points),
            other.bounds(points),
        ensures
            self == other,
    {
    }

    /// The box grown as far as it takes to hold `p`.
    pub open spec fn including(self, p: Point) -> BoundingBox {
        BoundingBox {
            min: Point {
                x: if p.x < self.min.x {
                    p.x
                } else {
                    self.min.x
                },
                y: if p.y < self.min.y {
                    p.y
                } else {
                    self.min.y
                },
            },
            max: Point {
                x: if p.x > self.max.x {
                    p.x
                } else {
                    self.max.x
                },
                y: if p.y > self.max.y {
                    p.y
                } else {
                    self.max.y
                },
            },
        }
    }

    /// Every list of points has a bounding box.
    pub proof fn lemma_from_points_bounds(points: Seq<Point>)
        ensures
            Self::spec_from_points(points).bounds(points),
        decreases points.len(),
    {
        if points.len() == 0 {
            assert(Self::spec_empty().bounds(points));
        } else {
            let rest = points.drop_last();
            let last = points.last();
            Self::lemma_from_points_bounds(rest);
            let b = Self::spec_from_points(rest).including(last);
            let at = points.len() - 1;
            assert(points[at] == last);
            assert forall|i: int| 0 <= i < points.len() implies {
                &&& b.min.x <= (#[trigger] points[i]).x <= b.max.x
                &&& b.min.y <= points[i].y <= b.max.y
            } by {
                if i < at {
                    assert(points[i] == rest[i]);
                }
            }
            if rest.len() > 0 {
                let inner = Self::spec_from_points(rest);
                let i0 = choose|i: int| 0 <= i < rest.len() && (#[trigger] rest[i]).x == inner.min.x;
                let i1 = choose|i: int| 0 <= i < rest.len() && (#[trigger] rest[i]).y == inner.min.y;
                let i2 = choose|i: int| 0 <= i < rest.len() && (#[trigger] rest[i]).x == inner.max.x;
                let i3 = choose|i: int| 0 <= i < rest.len() && (#[trigger] rest[i]).y == inner.max.y;
                assert(points[i0] == rest[i0] && points[i1] == rest[i1] && points[i2] == rest[i2]
                    && points[i3] == rest[i3]);
            }
            assert(b.touches(points));
            assert(b.bounds(points));
        }
    }

    /// What bounds `points` is their bounding box.
    pub proof fn lemma_bounds_from_points(self, points: Seq<Point>)
        requires
            self.bounds(points),
        ensures
            self == Self::spec_from_points(points),
    {
        self.lemma_bounds_unique(Self::spec_from_points(points), points);
    }

    /// The center of the box: the midpoint of its two corners.
    pub open spec fn spec_center(self) -> Point {
        Point {
            x: half(self.min.x + self.max.x) as Coord,
            y: half(self.min.y + self.max.y) as Coord,
        }
    }

    pub fn new(min: Point, max: Point) -> (b: Self)
        ensures
            b.min == min,
            b.max == max,
    {
        BoundingBox { min, max }
    }

    pub fn from_components(min_x: Coord, min_y: Coord, max_x: Coord, max_y: Coord) -> (b: Self)
        ensures
            b.min == (Point { x: min_x, y: min_y }),
            b.max == (Point { x: max_x, y: max_y }),
    {
        BoundingBox { min: Point::new(min_x, min_y), max: Point::new(max_x, max_y) }
    }

    /// The bounding box of `points`.
    pub fn from_points(points: &[Point]) -> (b: Self)
        ensures
            b.bounds(points@),
            b == Self::spec_from_points(points@),
    {
        let mut min_x: Coord = Coord::MAX;
        let mut min_y: Coord = Coord::MAX;
        let mut max_x: Coord = Coord::MIN;
        let mut max_y: Coord = Coord::MIN;
        let mut i: usize = 0;
        while i < points.len()
            invariant
                i <= points.len(),
                i == 0 ==> min_x == Coord::MAX && min_y == Coord::MAX && max_x == Coord::MIN
                    && max_y == Coord::MIN,
                forall|j: int|
                    0 <= j < i ==> {
                        &&& min_x <= (#[trigger] points@[j]).x <= max_x
                        &&& min_y <= points@[j].y <= max_y
                    },
                i > 0 ==> exists|j: int| 0 <= j < i && (#[trigger] points@[j]).x == min_x,
                i > 0 ==> exists|j: int| 0 <= j < i && (#[trigger] points@[j]).y == min_y,
                i > 0 ==> exists|j: int| 0 <= j < i && (#[trigger] points@[j]).x == max_x,
                i > 0 ==> exists|j: int| 0 <= j < i && (#[trigger] points@[j]).y == max_y,
            decreases points.len() - i,
        {
            let p = points[i];
            if p.x < min_x {
                min_x = p.x;
            }
            if p.y < min_y {
                min_y = p.y;
            }
            if p.x > max_x {
                max_x = p.x;
            }
            if p.y > max_y {
                max_y = p.y;
            }
            i += 1;
        }
        let b = Self::from_components(min_x, min_y, max_x, max_y);
        proof {
            b.lemma_bounds_from_points(points@);
        }
        b
    }

    /// The center of the box.
    pub fn center(&self) -> (c: Point)
        ensures
            c == self.spec_center(),
    {
        Point { x: midpoint(self.min.x, self.max.x), y: midpoint(self.min.y, self.max.y) }
    }
}

} // verus!

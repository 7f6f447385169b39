//! Two-dimensional integer points with wrapping componentwise arithmetic.
use vstd::prelude::*;
use vstd::wrapping::i32_specs::{wrapping_add, wrapping_sub, wrapping_mul};

verus! {

/// A point (or vector) on the integer grid.
#[derive(Clone, Copy, Debug, PartialEq, Eq, Hash, Structural)]
pub struct Point {
    pub x: i32,
    pub y: i32,
}

/// Componentwise sum, wrapping on overflow.
pub open spec fn plus(p: Point, q: Point) -> Point {
    Point { x: wrapping_add(p.x, q.x), y: wrapping_add(p.y, q.y) }
}

/// Componentwise difference, wrapping on overflow.
pub open spec fn minus(p: Point, q: Point) -> Point {
    Point { x: wrapping_sub(p.x, q.x), y: wrapping_sub(p.y, q.y) }
}

/// The point scaled by `k` on the right (`p * k`), wrapping on overflow.
pub open spec fn times(p: Point, k: i32) -> Point {
    Point { x: wrapping_mul(p.x, k), y: wrapping_mul(p.y, k) }
}

/// The point scaled by `k` on the left (`k * p`), wrapping on overflow.
pub open spec fn scaled_by(k: i32, p: Point) -> Point {
    Point { x: wrapping_mul(k, p.x), y: wrapping_mul(k, p.y) }
}

/// The negated point, wrapping on overflow.
pub open spec fn negated(p: Point) -> Point {
    Point { x: wrapping_sub(0, p.x), y: wrapping_sub(0, p.y) }
}

/// Exact squared Euclidean distance.
pub open spec fn square_dist(p: Point, q: Point) -> int {
    (p.x - q.x) * (p.x - q.x) + (p.y - q.y) * (p.y - q.y)
}

/// Exact dot product.
pub open spec fn dot_product(p: Point, q: Point) -> int {
    p.x * q.x + p.y * q.y
}

impl Point {
    pub fn new(x: i32, y: i32) -> (r: Point)
        ensures
            r.x == x,
            r.y == y,
    {
        Point { x, y }
    }

    pub fn zero() -> (r: Point)
        ensures
            r.x == 0,
            r.y == 0,
    {
        Point::new(0, 0)
    }

    pub fn one() -> (r: Point)
        ensures
            r.x == 1,
            r.y == 1,
    {
        Point::new(1, 1)
    }

    /// Squared distance between two points, computed exactly; the result
    /// must fit in an `i32`.
    pub fn square_distance(first: Point, second: Point) -> (r: i32)
        requires
            square_dist(first, second) <= i32::MAX,
        ensures
            r == square_dist(first, second),
    {
        let dx: i64 = first.x as i64 - second.x as i64;
        let dy: i64 = first.y as i64 - second.y as i64;
        proof {
            assert(0 <= dx * dx) by (nonlinear_arith);
            assert(0 <= dy * dy) by (nonlinear_arith);
        }
        let sx: i64 = dx * dx;
        let sy: i64 = dy * dy;
        (sx + sy) as i32
    }

    /// Dot product of two points, computed exactly; the result must fit in
    /// an `i32`.
    pub fn dot(first: Point, second: Point) -> (r: i32)
        requires
            i32::MIN <= dot_product(first, second) <= i32::MAX,
        ensures
            r == dot_product(first, second),
    {
        proof {
            let a = first.x as int;
            let b = second.x as int;
            let c = first.y as int;
            let d = second.y as int;
            assert(-0x4000_0000_0000_0000 <= a * b <= 0x4000_0000_0000_0000) by (nonlinear_arith)
                requires
                    i32::MIN <= a <= i32::MAX,
                    i32::MIN <= b <= i32::MAX,
            ;
            assert(-0x4000_0000_0000_0000 <= c * d <= 0x4000_0000_0000_0000) by (nonlinear_arith)
                requires
                    i32::MIN <= c <= i32::MAX,
                    i32::MIN <= d <= i32::MAX,
            ;
        }
        let px: i64 = first.x as i64 * second.x as i64;
        let py: i64 = first.y as i64 * second.y as i64;
        (px + py) as i32
    }
}

impl core::ops::Add for Point {
    type Output = Point;

    fn add(self, other: Point) -> (r: Point)
        ensures
            r == plus(self, other),
    {
        Point { x: self.x.wrapping_add(other.x), y: self.y.wrapping_add(other.y) }
    }
}

impl vstd::std_specs::ops::AddSpecImpl for Point {
    open spec fn obeys_add_spec() -> bool {
        true
    }

    open spec fn add_req(self, rhs: Point) -> bool {
        true
    }

    open spec fn add_spec(self, rhs: Point) -> Point {
        plus(self, rhs)
    }
}

impl core::ops::Sub for Point {
    type Output = Point;

    fn sub(self, other: Point) -> (r: Point)
        ensures
            r == minus(self, other),
    {
        Point { x: self.x.wrapping_sub(other.x), y: self.y.wrapping_sub(other.y) }
    }
}

impl vstd::std_specs::ops::SubSpecImpl for Point {
    open spec fn obeys_sub_spec() -> bool {
        true
    }

    open spec fn sub_req(self, rhs: Point) -> bool {
        true
    }

    open spec fn sub_spec(self, rhs: Point) -> Point {
        minus(self, rhs)
    }
}

impl core::ops::AddAssign for Point {
    fn add_assign(&mut self, rhs: Point)
        ensures
            *final(self) == plus(*old(self), rhs),
    {
        self.x = self.x.wrapping_add(rhs.x);
        self.y = self.y.wrapping_add(rhs.y);
    }
}

impl core::ops::SubAssign for Point {
    fn sub_assign(&mut self, rhs: Point)
        ensures
            *final(self) == minus(*old(self), rhs),
    {
        self.x = self.x.wrapping_sub(rhs.x);
        self.y = self.y.wrapping_sub(rhs.y);
    }
}

impl core::ops::Mul<i32> for Point {
    type Output = Point;

    fn mul(self, rhs: i32) -> (r: Point)
        ensures
            r == times(self, rhs),
    {
        Point { x: self.x.wrapping_mul(rhs), y: self.y.wrapping_mul(rhs) }
    }
}

impl vstd::std_specs::ops::MulSpecImpl<i32> for Point {
    open spec fn obeys_mul_spec() -> bool {
        true
    }

    open spec fn mul_req(self, rhs: i32) -> bool {
        true
    }

    open spec fn mul_spec(self, rhs: i32) -> Point {
        times(self, rhs)
    }
}

impl core::ops::Mul<Point> for i32 {
    type Output = Point;

    fn mul(self, rhs: Point) -> (r: Point)
        ensures
            r == scaled_by(self, rhs),
    {
        Point { x: self.wrapping_mul(rhs.x), y: self.wrapping_mul(rhs.y) }
    }
}

impl vstd::std_specs::ops::MulSpecImpl<Point> for i32 {
    open spec fn obeys_mul_spec() -> bool {
        true
    }

    open spec fn mul_req(self, rhs: Point) -> bool {
        true
    }

    open spec fn mul_spec(self, rhs: Point) -> Point {
        scaled_by(self, rhs)
    }
}

impl core::ops::MulAssign<i32> for Point {
    fn mul_assign(&mut self, rhs: i32)
        ensures
            *final(self) == times(*old(self), rhs),
    {
        self.x = self.x.wrapping_mul(rhs);
        self.y = self.y.wrapping_mul(rhs);
    }
}

impl core::ops::Neg for Point {
    type Output = Point;

    fn neg(self) -> (r: Point)
        ensures
            r == negated(self),
    {
        Point { x: 0i32.wrapping_sub(self.x), y: 0i32.wrapping_sub(self.y) }
    }
}

impl vstd::std_specs::ops::NegSpecImpl for Point {
    open spec fn obeys_neg_spec() -> bool {
        true
    }

    open spec fn neg_req(self) -> bool {
        true
    }

    open spec fn neg_spec(self) -> Point {
        negated(self)
    }
}

/// Adding a point and then subtracting it again gives back the original point.
pub proof fn lemma_add_sub_inverse(p: Point, q: Point)
    ensures
        minus(plus(p, q), q) == p,
{
}

/// Scaling is commutative: `k * p` and `p * k` are the same point.
pub proof fn lemma_scale_commutes(k: i32, p: Point)
    ensures
        scaled_by(k, p) == times(p, k),
{
    assert(k * p.x == p.x * k) by (nonlinear_arith);
    assert(k * p.y == p.y * k) by (nonlinear_arith);
}

} // verus!

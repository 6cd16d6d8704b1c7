use vstd::prelude::*;

use crate::num::{in_range, num_add, num_div, num_eq, num_mul, num_sub, trunc_div, Num};
use crate::rect::Rect;
use crate::size::Size;

verus! {

/// A location with no extent.
#[derive(Debug, Copy, Clone)]
pub struct Point2<N> {
    pub x: N,
    pub y: N,
}

/// The location part of a rectangle.
pub type Point<N> = Point2<N>;

impl<N: Copy> Point2<N> {
    /// Creates a point at `x`, `y`.
    pub fn new(x: N, y: N) -> (r: Point2<N>)
        ensures
            r.x == x,
            r.y == y,
    {
        Point2 { x, y }
    }

    /// The rectangle of the given size whose corner is this point.
    pub fn to_rect(&self, size: Size<N>) -> (r: Rect<N>)
        ensures
            r.x == self.x,
            r.y == self.y,
            r.width == size.width,
            r.height == size.height,
    {
        Rect { x: self.x, y: self.y, width: size.width, height: size.height }
    }
}

impl<N: Num> core::ops::Add<Point2<N>> for Point2<N> {
    type Output = Point2<N>;

    fn add(self, rhs: Point2<N>) -> (r: Point2<N>) {
        Point2 {
            x: num_add(self.x, rhs.x),
            y: num_add(self.y, rhs.y),
        }
    }
}

impl<N: Num> vstd::std_specs::ops::AddSpecImpl<Point2<N>> for Point2<N> {
    open spec fn obeys_add_spec() -> bool {
        true
    }

    open spec fn add_req(self, rhs: Point2<N>) -> bool {
        &&& in_range::<N>(self.x.val() + rhs.x.val())
        &&& in_range::<N>(self.y.val() + rhs.y.val())
    }

    open spec fn add_spec(self, rhs: Point2<N>) -> Point2<N> {
        Point2 {
            x: N::from_val(self.x.val() + rhs.x.val()),
            y: N::from_val(self.y.val() + rhs.y.val()),
        }
    }
}

impl<N: Num> core::ops::Sub<Point2<N>> for Point2<N> {
    type Output = Point2<N>;

    fn sub(self, rhs: Point2<N>) -> (r: Point2<N>) {
        Point2 {
            x: num_sub(self.x, rhs.x),
            y: num_sub(self.y, rhs.y),
        }
    }
}

impl<N: Num> vstd::std_specs::ops::SubSpecImpl<Point2<N>> for Point2<N> {
    open spec fn obeys_sub_spec() -> bool {
        true
    }

    open spec fn sub_req(self, rhs: Point2<N>) -> bool {
        &&& in_range::<N>(self.x.val() - rhs.x.val())
        &&& in_range::<N>(self.y.val() - rhs.y.val())
    }

    open spec fn sub_spec(self, rhs: Point2<N>) -> Point2<N> {
        Point2 {
            x: N::from_val(self.x.val() - rhs.x.val()),
            y: N::from_val(self.y.val() - rhs.y.val()),
        }
    }
}

impl<N: Num> core::ops::Sub<Size<N>> for Point2<N> {
    type Output = Point2<N>;

    fn sub(self, rhs: Size<N>) -> (r: Point2<N>) {
        Point2 {
            x: num_sub(self.x, rhs.width),
            y: num_sub(self.y, rhs.height),
        }
    }
}

impl<N: Num> vstd::std_specs::ops::SubSpecImpl<Size<N>> for Point2<N> {
    open spec fn obeys_sub_spec() -> bool {
        true
    }

    open spec fn sub_req(self, rhs: Size<N>) -> bool {
        &&& in_range::<N>(self.x.val() - rhs.width.val())
        &&& in_range::<N>(self.y.val() - rhs.height.val())
    }

    open spec fn sub_spec(self, rhs: Size<N>) -> Point2<N> {
        Point2 {
            x: N::from_val(self.x.val() - rhs.width.val()),
            y: N::from_val(self.y.val() - rhs.height.val()),
        }
    }
}

impl<N: Num> core::ops::Mul<Point2<N>> for Point2<N> {
    type Output = Point2<N>;

    fn mul(self, rhs: Point2<N>) -> (r: Point2<N>) {
        Point2 {
            x: num_mul(self.x, rhs.x),
            y: num_mul(self.y, rhs.y),
        }
    }
}

impl<N: Num> vstd::std_specs::ops::MulSpecImpl<Point2<N>> for Point2<N> {
    open spec fn obeys_mul_spec() -> bool {
        true
    }

    open spec fn mul_req(self, rhs: Point2<N>) -> bool {
        &&& in_range::<N>(self.x.val() * rhs.x.val())
        &&& in_range::<N>(self.y.val() * rhs.y.val())
    }

    open spec fn mul_spec(self, rhs: Point2<N>) -> Point2<N> {
        Point2 {
            x: N::from_val(self.x.val() * rhs.x.val()),
            y: N::from_val(self.y.val() * rhs.y.val()),
        }
    }
}

impl<N: Num> core::ops::Div<Point2<N>> for Point2<N> {
    type Output = Point2<N>;

    fn div(self, rhs: Point2<N>) -> (r: Point2<N>) {
        Point2 {
            x: num_div(self.x, rhs.x),
            y: num_div(self.y, rhs.y),
        }
    }
}

impl<N: Num> vstd::std_specs::ops::DivSpecImpl<Point2<N>> for Point2<N> {
    open spec fn obeys_div_spec() -> bool {
        true
    }

    open spec fn div_req(self, rhs: Point2<N>) -> bool {
        &&& rhs.x.val() != 0 && in_range::<N>(trunc_div(self.x.val(), rhs.x.val()))
        &&& rhs.y.val() != 0 && in_range::<N>(trunc_div(self.y.val(), rhs.y.val()))
    }

    open spec fn div_spec(self, rhs: Point2<N>) -> Point2<N> {
        Point2 {
            x: N::from_val(trunc_div(self.x.val(), rhs.x.val())),
            y: N::from_val(trunc_div(self.y.val(), rhs.y.val())),
        }
    }
}

impl<N: Num> PartialEq for Point2<N> {
    fn eq(&self, other: &Point2<N>) -> (r: bool) {
        num_eq(self.x, other.x) && num_eq(self.y, other.y)
    }
}

impl<N: Num> vstd::std_specs::cmp::PartialEqSpecImpl for Point2<N> {
    open spec fn obeys_eq_spec() -> bool {
        true
    }

    open spec fn eq_spec(&self, other: &Point2<N>) -> bool {
        self.x == other.x && self.y == other.y
    }
}

} // verus!

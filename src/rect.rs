use vstd::prelude::*;

use crate::num::{
    clamp_int, convert, convert_clamped, from_u8, in_range, max_int, min_int, num_add, num_div,
    num_eq, num_lt, num_sub, saturating_add, trunc_div, Num,
};
use crate::point::{Point, Point2};
use crate::size::Size;

verus! {

/// An axis-aligned box: a position and a size.
///
/// The width and the height may be negative, for a flipped box.
#[derive(Debug, Copy, Clone)]
pub struct Rect<N> {
    /// Its x location.
    pub x: N,
    /// Its y location.
    pub y: N,
    /// Its width; it can be positive or negative.
    pub width: N,
    /// Its height; it can be positive or negative.
    pub height: N,
}

impl<N: Copy> Rect<N> {
    /// Creates a rectangle at `x`, `y` with width `w` and height `h`.
    pub fn new(x: N, y: N, w: N, h: N) -> (r: Rect<N>)
        ensures
            r.x == x,
            r.y == y,
            r.width == w,
            r.height == h,
    {
        Rect { x, y, width: w, height: h }
    }

    /// The x/y part of this rectangle on its own.
    pub fn point(&self) -> (r: Point<N>)
        ensures
            r.x == self.x,
            r.y == self.y,
    {
        Point2 { x: self.x, y: self.y }
    }

    /// The width/height part of this rectangle on its own.
    pub fn size(&self) -> (r: Size<N>)
        ensures
            r.width == self.width,
            r.height == self.height,
    {
        Size { width: self.width, height: self.height }
    }
}

/// `a + b` as `N`'s saturating addition gives it.
pub open spec fn saturated_sum<N: Num>(a: N, b: N) -> int {
    clamp_int(a.val() + b.val(), N::min_val(), N::max_val())
}

impl<N: Num> Rect<N> {
    /// Whether `p` lies in the half-open box `[x, x + width) × [y, y + height)`.
    pub open spec fn holds(self, p: Point<N>) -> bool {
        &&& self.x.val() <= p.x.val() < self.x.val() + self.width.val()
        &&& self.y.val() <= p.y.val() < self.y.val() + self.height.val()
    }

    /// Whether the two boxes are apart: the far edge of one, computed with
    /// saturating addition, lies before the near edge of the other.
    pub open spec fn apart(self, other: Rect<N>) -> bool {
        ||| saturated_sum(self.x, self.width) < other.x.val()
        ||| saturated_sum(other.x, other.width) < self.x.val()
        ||| saturated_sum(self.y, self.height) < other.y.val()
        ||| saturated_sum(other.y, other.height) < self.y.val()
    }

    /// The overlap of two boxes: none where they are apart, else the box at the
    /// larger of the two origins with the smaller of the two widths and of the
    /// two heights.
    pub open spec fn overlap(self, other: Rect<N>) -> Option<Rect<N>> {
        if self.apart(other) {
            None
        } else {
            Some(
                Rect {
                    x: N::from_val(max_int(self.x.val(), other.x.val())),
                    y: N::from_val(max_int(self.y.val(), other.y.val())),
                    width: N::from_val(min_int(self.width.val(), other.width.val())),
                    height: N::from_val(min_int(self.height.val(), other.height.val())),
                },
            )
        }
    }

    /// Returns true if the point is within the rectangle: at or after its
    /// origin, and before its far edges.
    pub fn contains(&self, point: Point<N>) -> (r: bool)
        ensures
            r == self.holds(point),
    {
        proof {
            N::lemma_val(self.x);
            N::lemma_val(self.y);
            N::lemma_val(self.width);
            N::lemma_val(self.height);
            N::lemma_bounds();
        }
        let px = point.x.to_i128();
        let py = point.y.to_i128();
        let x = self.x.to_i128();
        let y = self.y.to_i128();
        px >= x && py >= y && px < x + self.width.to_i128() && py < y + self.height.to_i128()
    }

    /// Returns a rectangle that holds only the overlapping section, or `None`
    /// where the two do not meet.
    pub fn overlap_of(&self, other: Rect<N>) -> (r: Option<Rect<N>>)
        ensures
            r == self.overlap(other),
            r is None <==> self.apart(other),
    {
        proof {
            N::lemma_val(self.x);
            N::lemma_val(self.y);
            N::lemma_val(self.width);
            N::lemma_val(self.height);
            N::lemma_val(other.x);
            N::lemma_val(other.y);
            N::lemma_val(other.width);
            N::lemma_val(other.height);
        }
        // We are far on the left.
        if num_lt(saturating_add(self.x, self.width), other.x) {
            None
        // They are far on the left of us.
        } else if num_lt(saturating_add(other.x, other.width), self.x) {
            None
        // We are far above.
        } else if num_lt(saturating_add(self.y, self.height), other.y) {
            None
        // They are far above us.
        } else if num_lt(saturating_add(other.y, other.height), self.y) {
            None
        } else {
            Some(
                Rect {
                    x: if num_lt(self.x, other.x) {
                        other.x
                    } else {
                        self.x
                    },
                    y: if num_lt(self.y, other.y) {
                        other.y
                    } else {
                        self.y
                    },
                    width: if num_lt(self.width, other.width) {
                        self.width
                    } else {
                        other.width
                    },
                    height: if num_lt(self.height, other.height) {
                        self.height
                    } else {
                        other.height
                    },
                },
            )
        }
    }

    /// Divides the size by `divider`, around the centre of the rectangle: the
    /// new width is `width / divider`, and the new x is `x` plus half of it,
    /// both rounded toward zero (and the same for y and the height).
    pub fn divide_around_centre(&self, divider: N) -> (r: Rect<N>)
        requires
            divider.val() != 0,
            in_range::<N>(trunc_div(self.width.val(), divider.val())),
            in_range::<N>(trunc_div(self.height.val(), divider.val())),
            in_range::<N>(self.x.val() + trunc_div(trunc_div(self.width.val(), divider.val()), 2)),
            in_range::<N>(self.y.val() + trunc_div(trunc_div(self.height.val(), divider.val()), 2)),
        ensures
            r.width.val() == trunc_div(self.width.val(), divider.val()),
            r.height.val() == trunc_div(self.height.val(), divider.val()),
            r.x.val() == self.x.val() + trunc_div(r.width.val(), 2),
            r.y.val() == self.y.val() + trunc_div(r.height.val(), 2),
    {
        let two: N = from_u8(2);
        let width = num_div(self.width, divider);
        let height = num_div(self.height, divider);
        proof {
            N::lemma_bounds();
            lemma_half_in_range::<N>(width.val());
            lemma_half_in_range::<N>(height.val());
        }
        Rect {
            x: num_add(self.x, num_div(width, two)),
            y: num_add(self.y, num_div(height, two)),
            width,
            height,
        }
    }

    /// The same rectangle held in another integer type; every field must fit
    /// there.
    pub fn to<F: Num>(&self) -> (r: Rect<F>)
        requires
            in_range::<F>(self.x.val()),
            in_range::<F>(self.y.val()),
            in_range::<F>(self.width.val()),
            in_range::<F>(self.height.val()),
        ensures
            r.x.val() == self.x.val(),
            r.y.val() == self.y.val(),
            r.width.val() == self.width.val(),
            r.height.val() == self.height.val(),
    {
        Rect {
            x: convert(self.x),
            y: convert(self.y),
            width: convert(self.width),
            height: convert(self.height),
        }
    }

    /// Converts to another integer type; a field that does not fit there is
    /// clamped between that type's minimum and maximum.
    pub fn to_clamped<B: Num>(&self) -> (r: Rect<B>)
        ensures
            r.x.val() == clamp_int(self.x.val(), B::min_val(), B::max_val()),
            r.y.val() == clamp_int(self.y.val(), B::min_val(), B::max_val()),
            r.width.val() == clamp_int(self.width.val(), B::min_val(), B::max_val()),
            r.height.val() == clamp_int(self.height.val(), B::min_val(), B::max_val()),
    {
        Rect {
            x: convert_clamped(self.x),
            y: convert_clamped(self.y),
            width: convert_clamped(self.width),
            height: convert_clamped(self.height),
        }
    }
}

/// The overlap does not depend on the order of the two rectangles.
pub proof fn lemma_overlap_symmetric<N: Num>(a: Rect<N>, b: Rect<N>)
    ensures
        a.overlap(b) == b.overlap(a),
{
}

/// A rectangle holds a point on its near edges and none on its far edges:
/// a point at `x` (with `y` inside) is held where the width is positive, and a
/// point at `x + width` or at `y + height` never is.
pub proof fn lemma_contains_edges<N: Num>(r: Rect<N>, p: Point<N>)
    ensures
        p.x.val() == r.x.val() + r.width.val() ==> !r.holds(p),
        p.y.val() == r.y.val() + r.height.val() ==> !r.holds(p),
        p.x.val() == r.x.val() && r.width.val() > 0 && r.y.val() <= p.y.val() < r.y.val()
            + r.height.val() ==> r.holds(p),
{
}

proof fn lemma_half_in_range<N: Num>(v: int)
    requires
        in_range::<N>(v),
    ensures
        in_range::<N>(trunc_div(v, 2)),
{
    N::lemma_bounds();
}

impl<N: Num> core::ops::Add<Point2<N>> for Rect<N> {
    type Output = Rect<N>;

    fn add(self, rhs: Point2<N>) -> (r: Rect<N>) {
        Rect {
            x: num_add(self.x, rhs.x),
            y: num_add(self.y, rhs.y),
            width: self.width,
            height: self.height,
        }
    }
}

impl<N: Num> vstd::std_specs::ops::AddSpecImpl<Point2<N>> for Rect<N> {
    open spec fn obeys_add_spec() -> bool {
        true
    }

    open spec fn add_req(self, rhs: Point2<N>) -> bool {
        &&& in_range::<N>(self.x.val() + rhs.x.val())
        &&& in_range::<N>(self.y.val() + rhs.y.val())
    }

    open spec fn add_spec(self, rhs: Point2<N>) -> Rect<N> {
        Rect {
            x: N::from_val(self.x.val() + rhs.x.val()),
            y: N::from_val(self.y.val() + rhs.y.val()),
            width: self.width,
            height: self.height,
        }
    }
}

impl<N: Num> core::ops::Add<Size<N>> for Rect<N> {
    type Output = Rect<N>;

    fn add(self, rhs: Size<N>) -> (r: Rect<N>) {
        Rect {
            x: self.x,
            y: self.y,
            width: num_add(self.width, rhs.width),
            height: num_add(self.height, rhs.height),
        }
    }
}

impl<N: Num> vstd::std_specs::ops::AddSpecImpl<Size<N>> for Rect<N> {
    open spec fn obeys_add_spec() -> bool {
        true
    }

    open spec fn add_req(self, rhs: Size<N>) -> bool {
        &&& in_range::<N>(self.width.val() + rhs.width.val())
        &&& in_range::<N>(self.height.val() + rhs.height.val())
    }

    open spec fn add_spec(self, rhs: Size<N>) -> Rect<N> {
        Rect {
            x: self.x,
            y: self.y,
            width: N::from_val(self.width.val() + rhs.width.val()),
            height: N::from_val(self.height.val() + rhs.height.val()),
        }
    }
}

impl<N: Num> core::ops::Sub<Point2<N>> for Rect<N> {
    type Output = Rect<N>;

    fn sub(self, rhs: Point2<N>) -> (r: Rect<N>) {
        Rect {
            x: num_sub(self.x, rhs.x),
            y: num_sub(self.y, rhs.y),
            width: self.width,
            height: self.height,
        }
    }
}

impl<N: Num> vstd::std_specs::ops::SubSpecImpl<Point2<N>> for Rect<N> {
    open spec fn obeys_sub_spec() -> bool {
        true
    }

    open spec fn sub_req(self, rhs: Point2<N>) -> bool {
        &&& in_range::<N>(self.x.val() - rhs.x.val())
        &&& in_range::<N>(self.y.val() - rhs.y.val())
    }

    open spec fn sub_spec(self, rhs: Point2<N>) -> Rect<N> {
        Rect {
            x: N::from_val(self.x.val() - rhs.x.val()),
            y: N::from_val(self.y.val() - rhs.y.val()),
            width: self.width,
            height: self.height,
        }
    }
}

impl<N: Num> core::ops::Sub<Size<N>> for Rect<N> {
    type Output = Rect<N>;

    fn sub(self, rhs: Size<N>) -> (r: Rect<N>) {
        Rect {
            x: self.x,
            y: self.y,
            width: num_sub(self.width, rhs.width),
            height: num_sub(self.height, rhs.height),
        }
    }
}

impl<N: Num> vstd::std_specs::ops::SubSpecImpl<Size<N>> for Rect<N> {
    open spec fn obeys_sub_spec() -> bool {
        true
    }

    open spec fn sub_req(self, rhs: Size<N>) -> bool {
        &&& in_range::<N>(self.width.val() - rhs.width.val())
        &&& in_range::<N>(self.height.val() - rhs.height.val())
    }

    open spec fn sub_spec(self, rhs: Size<N>) -> Rect<N> {
        Rect {
            x: self.x,
            y: self.y,
            width: N::from_val(self.width.val() - rhs.width.val()),
            height: N::from_val(self.height.val() - rhs.height.val()),
        }
    }
}

impl<N: Num> PartialEq for Rect<N> {
    fn eq(&self, other: &Rect<N>) -> (r: bool) {
        num_eq(self.x, other.x) && num_eq(self.y, other.y) && num_eq(self.width, other.width) && num_eq(self.height, other.height)
    }
}

impl<N: Num> vstd::std_specs::cmp::PartialEqSpecImpl for Rect<N> {
    open spec fn obeys_eq_spec() -> bool {
        true
    }

    open spec fn eq_spec(&self, other: &Rect<N>) -> bool {
        self.x == other.x && self.y == other.y && self.width == other.width && self.height == other.height
    }
}

} // verus!

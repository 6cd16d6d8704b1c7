use vstd::prelude::*;

use crate::num::{
    convert, in_range, num_add, num_div, num_eq, num_mul, num_rem, num_sub, trunc_div, trunc_rem,
    Num,
};
use crate::point::Point2;

verus! {

/// An area of space with no location: the size of a box, of a window, of a
/// player.
#[derive(Default, Debug, Copy, Clone)]
pub struct Size<N> {
    /// The width of the area.
    pub width: N,
    /// The height of the area.
    pub height: N,
}

impl<N: Copy> Size<N> {
    /// Creates a size with the given width and height.
    pub fn new(width: N, height: N) -> (r: Size<N>)
        ensures
            r.width == width,
            r.height == height,
    {
        Size { width, height }
    }

    /// The point whose coordinates are this width and height.
    pub fn to_point2(&self) -> (r: Point2<N>)
        ensures
            r.x == self.width,
            r.y == self.height,
    {
        Point2 { x: self.width, y: self.height }
    }
}

impl<N: Num> Size<N> {
    /// `width * height`; the product must fit in `N`.
    pub fn area(&self) -> (r: N)
        requires
            in_range::<N>(self.width.val() * self.height.val()),
        ensures
            r.val() == self.width.val() * self.height.val(),
    {
        num_mul(self.width, self.height)
    }

    /// The same size held in another integer type; both values must fit there.
    pub fn to<F: Num>(&self) -> (r: Size<F>)
        requires
            in_range::<F>(self.width.val()),
            in_range::<F>(self.height.val()),
        ensures
            r.width.val() == self.width.val(),
            r.height.val() == self.height.val(),
    {
        Size { width: convert(self.width), height: convert(self.height) }
    }
}

impl Size<u8> {
    /// The empty size.
    pub fn zero() -> (r: Size<u8>)
        ensures
            r.width == 0,
            r.height == 0,
    {
        Size { width: 0, height: 0 }
    }
}

impl Size<u16> {
    /// The empty size.
    pub fn zero() -> (r: Size<u16>)
        ensures
            r.width == 0,
            r.height == 0,
    {
        Size { width: 0, height: 0 }
    }
}

impl Size<i16> {
    /// The empty size.
    pub fn zero() -> (r: Size<i16>)
        ensures
            r.width == 0,
            r.height == 0,
    {
        Size { width: 0, height: 0 }
    }
}

impl Size<u32> {
    /// The empty size.
    pub fn zero() -> (r: Size<u32>)
        ensures
            r.width == 0,
            r.height == 0,
    {
        Size { width: 0, height: 0 }
    }
}

impl Size<i32> {
    /// The empty size.
    pub fn zero() -> (r: Size<i32>)
        ensures
            r.width == 0,
            r.height == 0,
    {
        Size { width: 0, height: 0 }
    }
}

impl Size<u64> {
    /// The empty size.
    pub fn zero() -> (r: Size<u64>)
        ensures
            r.width == 0,
            r.height == 0,
    {
        Size { width: 0, height: 0 }
    }
}

impl Size<i64> {
    /// The empty size.
    pub fn zero() -> (r: Size<i64>)
        ensures
            r.width == 0,
            r.height == 0,
    {
        Size { width: 0, height: 0 }
    }
}

impl Size<usize> {
    /// The empty size.
    pub fn zero() -> (r: Size<usize>)
        ensures
            r.width == 0,
            r.height == 0,
    {
        Size { width: 0, height: 0 }
    }
}

impl<N: Num> core::ops::Add<Size<N>> for Size<N> {
    type Output = Size<N>;

    fn add(self, rhs: Size<N>) -> (r: Size<N>) {
        Size {
            width: num_add(self.width, rhs.width),
            height: num_add(self.height, rhs.height),
        }
    }
}

impl<N: Num> vstd::std_specs::ops::AddSpecImpl<Size<N>> for Size<N> {
    open spec fn obeys_add_spec() -> bool {
        true
    }

    open spec fn add_req(self, rhs: Size<N>) -> bool {
        &&& in_range::<N>(self.width.val() + rhs.width.val())
        &&& in_range::<N>(self.height.val() + rhs.height.val())
    }

    open spec fn add_spec(self, rhs: Size<N>) -> Size<N> {
        Size {
            width: N::from_val(self.width.val() + rhs.width.val()),
            height: N::from_val(self.height.val() + rhs.height.val()),
        }
    }
}

impl<N: Num> core::ops::Sub<Size<N>> for Size<N> {
    type Output = Size<N>;

    fn sub(self, rhs: Size<N>) -> (r: Size<N>) {
        Size {
            width: num_sub(self.width, rhs.width),
            height: num_sub(self.height, rhs.height),
        }
    }
}

impl<N: Num> vstd::std_specs::ops::SubSpecImpl<Size<N>> for Size<N> {
    open spec fn obeys_sub_spec() -> bool {
        true
    }

    open spec fn sub_req(self, rhs: Size<N>) -> bool {
        &&& in_range::<N>(self.width.val() - rhs.width.val())
        &&& in_range::<N>(self.height.val() - rhs.height.val())
    }

    open spec fn sub_spec(self, rhs: Size<N>) -> Size<N> {
        Size {
            width: N::from_val(self.width.val() - rhs.width.val()),
            height: N::from_val(self.height.val() - rhs.height.val()),
        }
    }
}

impl<N: Num> core::ops::Mul<N> for Size<N> {
    type Output = Size<N>;

    fn mul(self, rhs: N) -> (r: Size<N>) {
        Size {
            width: num_mul(self.width, rhs),
            height: num_mul(self.height, rhs),
        }
    }
}

impl<N: Num> vstd::std_specs::ops::MulSpecImpl<N> for Size<N> {
    open spec fn obeys_mul_spec() -> bool {
        true
    }

    open spec fn mul_req(self, rhs: N) -> bool {
        &&& in_range::<N>(self.width.val() * rhs.val())
        &&& in_range::<N>(self.height.val() * rhs.val())
    }

    open spec fn mul_spec(self, rhs: N) -> Size<N> {
        Size {
            width: N::from_val(self.width.val() * rhs.val()),
            height: N::from_val(self.height.val() * rhs.val()),
        }
    }
}

impl<N: Num> core::ops::Mul<Size<N>> for Size<N> {
    type Output = Size<N>;

    fn mul(self, rhs: Size<N>) -> (r: Size<N>) {
        Size {
            width: num_mul(self.width, rhs.width),
            height: num_mul(self.height, rhs.height),
        }
    }
}

impl<N: Num> vstd::std_specs::ops::MulSpecImpl<Size<N>> for Size<N> {
    open spec fn obeys_mul_spec() -> bool {
        true
    }

    open spec fn mul_req(self, rhs: Size<N>) -> bool {
        &&& in_range::<N>(self.width.val() * rhs.width.val())
        &&& in_range::<N>(self.height.val() * rhs.height.val())
    }

    open spec fn mul_spec(self, rhs: Size<N>) -> Size<N> {
        Size {
            width: N::from_val(self.width.val() * rhs.width.val()),
            height: N::from_val(self.height.val() * rhs.height.val()),
        }
    }
}

impl<N: Num> core::ops::Div<N> for Size<N> {
    type Output = Size<N>;

    fn div(self, rhs: N) -> (r: Size<N>) {
        Size {
            width: num_div(self.width, rhs),
            height: num_div(self.height, rhs),
        }
    }
}

impl<N: Num> vstd::std_specs::ops::DivSpecImpl<N> for Size<N> {
    open spec fn obeys_div_spec() -> bool {
        true
    }

    open spec fn div_req(self, rhs: N) -> bool {
        &&& rhs.val() != 0 && in_range::<N>(trunc_div(self.width.val(), rhs.val()))
        &&& rhs.val() != 0 && in_range::<N>(trunc_div(self.height.val(), rhs.val()))
    }

    open spec fn div_spec(self, rhs: N) -> Size<N> {
        Size {
            width: N::from_val(trunc_div(self.width.val(), rhs.val())),
            height: N::from_val(trunc_div(self.height.val(), rhs.val())),
        }
    }
}

impl<N: Num> core::ops::Div<Size<N>> for Size<N> {
    type Output = Size<N>;

    fn div(self, rhs: Size<N>) -> (r: Size<N>) {
        Size {
            width: num_div(self.width, rhs.width),
            height: num_div(self.height, rhs.height),
        }
    }
}

impl<N: Num> vstd::std_specs::ops::DivSpecImpl<Size<N>> for Size<N> {
    open spec fn obeys_div_spec() -> bool {
        true
    }

    open spec fn div_req(self, rhs: Size<N>) -> bool {
        &&& rhs.width.val() != 0 && in_range::<N>(trunc_div(self.width.val(), rhs.width.val()))
        &&& rhs.height.val() != 0 && in_range::<N>(trunc_div(self.height.val(), rhs.height.val()))
    }

    open spec fn div_spec(self, rhs: Size<N>) -> Size<N> {
        Size {
            width: N::from_val(trunc_div(self.width.val(), rhs.width.val())),
            height: N::from_val(trunc_div(self.height.val(), rhs.height.val())),
        }
    }
}

impl<N: Num> core::ops::Rem<N> for Size<N> {
    type Output = Size<N>;

    fn rem(self, rhs: N) -> (r: Size<N>) {
        Size {
            width: num_rem(self.width, rhs),
            height: num_rem(self.height, rhs),
        }
    }
}

impl<N: Num> vstd::std_specs::ops::RemSpecImpl<N> for Size<N> {
    open spec fn obeys_rem_spec() -> bool {
        true
    }

    open spec fn rem_req(self, rhs: N) -> bool {
        &&& rhs.val() != 0 && in_range::<N>(trunc_rem(self.width.val(), rhs.val()))
        &&& rhs.val() != 0 && in_range::<N>(trunc_rem(self.height.val(), rhs.val()))
    }

    open spec fn rem_spec(self, rhs: N) -> Size<N> {
        Size {
            width: N::from_val(trunc_rem(self.width.val(), rhs.val())),
            height: N::from_val(trunc_rem(self.height.val(), rhs.val())),
        }
    }
}

impl<N: Num> PartialEq for Size<N> {
    fn eq(&self, other: &Size<N>) -> (r: bool) {
        num_eq(self.width, other.width) && num_eq(self.height, other.height)
    }
}

impl<N: Num> vstd::std_specs::cmp::PartialEqSpecImpl for Size<N> {
    open spec fn obeys_eq_spec() -> bool {
        true
    }

    open spec fn eq_spec(&self, other: &Size<N>) -> bool {
        self.width == other.width && self.height == other.height
    }
}

} // verus!

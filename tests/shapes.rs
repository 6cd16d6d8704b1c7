use tileview::point::Point2;
use tileview::rect::Rect;
use tileview::size::Size;

#[test]
pub fn divide_around_centre() {
    assert_eq!(Rect::new(1, 50, 2, 60), Rect::new(0, 20, 4, 120).divide_around_centre(2),);
}

#[test]
fn test_default() {
    assert_eq!(Size::default(), Size { width: 0, height: 0 },);
}

#[test]
fn create() {
    assert_eq!(Size { width: 1, height: 5 }, Size { width: 1, height: 5 });
}

#[test]
fn new() {
    assert_eq!(Size { width: 1, height: 5 }, Size::new(1, 5));
}

#[test]
fn to_point2() {
    assert_eq!(Point2 { x: 1, y: 5 }, Size::new(1, 5).to_point2());
}

#[test]
fn add() {
    assert_eq!(
        Size { width: 1, height: 5 } + Size { width: 93, height: 28 },
        Size { width: 94, height: 33 }
    );

    assert_eq!(
        Size { width: 50, height: 10 } + Size { width: 100, height: 5 },
        Size { width: 150, height: 15 }
    );
}

#[test]
fn sub() {
    assert_eq!(
        Size { width: 60, height: 30 } - Size { width: 1, height: 5 },
        Size { width: 59, height: 25 }
    );

    assert_eq!(
        Size { width: 50, height: 10 } - Size { width: 100, height: 5 },
        Size { width: -50, height: 5 }
    );
}

#[test]
pub fn test_from_u8_to_u32() {
    let size_u8 = Size::new(4 as u8, 5 as u8);
    let size_u32 = Size::new(4 as u32, 5 as u32);
    let size_u8_as_u32 = size_u8.to::<u32>();

    assert_eq!(size_u32, size_u8_as_u32);
}

#[test]
fn size_zero_for_each_type() {
    assert_eq!(Size::<u8>::zero(), Size::new(0u8, 0u8));
    assert_eq!(Size::<u16>::zero(), Size::new(0u16, 0u16));
    assert_eq!(Size::<i16>::zero(), Size::new(0i16, 0i16));
    assert_eq!(Size::<u32>::zero(), Size::new(0u32, 0u32));
    assert_eq!(Size::<i32>::zero(), Size::new(0i32, 0i32));
    assert_eq!(Size::<u64>::zero(), Size::new(0u64, 0u64));
    assert_eq!(Size::<i64>::zero(), Size::new(0i64, 0i64));
    assert_eq!(Size::<usize>::zero(), Size::new(0usize, 0usize));
}

#[test]
fn size_area() {
    assert_eq!(Size::new(7, 6).area(), 42);
    assert_eq!(Size::new(-3, 4).area(), -12);
}

#[test]
fn size_scalar_and_componentwise_arithmetic() {
    assert_eq!(Size::new(3, -4) * 5, Size::new(15, -20));
    assert_eq!(Size::new(3, 4) * Size::new(2, 10), Size::new(6, 40));
    assert_eq!(Size::new(-7, 9) / 2, Size::new(-3, 4));
    assert_eq!(Size::new(20, 9) / Size::new(3, 9), Size::new(6, 1));
    assert_eq!(Size::new(-7, 9) % 4, Size::new(-3, 1));
}

#[test]
fn size_inequality() {
    assert_ne!(Size::new(1, 5), Size::new(5, 1));
}

#[test]
fn point_arithmetic() {
    assert_eq!(Point2::new(1, 2) + Point2::new(10, 20), Point2::new(11, 22));
    assert_eq!(Point2::new(1, 2) - Point2::new(10, 20), Point2::new(-9, -18));
    assert_eq!(Point2::new(10, 10) - Size::new(3, 4), Point2::new(7, 6));
    assert_eq!(Point2::new(3, -4) * Point2::new(5, 2), Point2::new(15, -8));
    assert_eq!(Point2::new(-7, 9) / Point2::new(2, 4), Point2::new(-3, 2));
    assert_eq!(Point2::new(1, 2).to_rect(Size::new(3, 4)), Rect::new(1, 2, 3, 4));
}

#[test]
fn rect_parts() {
    let r = Rect::new(1, 2, 3, 4);
    assert_eq!(r.point(), Point2::new(1, 2));
    assert_eq!(r.size(), Size::new(3, 4));
}

#[test]
fn rect_shift_and_resize() {
    let r = Rect::new(1, 2, 3, 4);
    assert_eq!(r + Point2::new(10, 20), Rect::new(11, 22, 3, 4));
    assert_eq!(r - Point2::new(10, 20), Rect::new(-9, -18, 3, 4));
    assert_eq!(r + Size::new(10, 20), Rect::new(1, 2, 13, 24));
    assert_eq!(r - Size::new(10, 20), Rect::new(1, 2, -7, -16));
}

#[test]
fn contains_includes_near_edge_and_excludes_far_edge() {
    let r = Rect::new(5, 10, 3, 4);
    assert!(r.contains(Point2::new(5, 10)));
    assert!(r.contains(Point2::new(7, 13)));
    assert!(!r.contains(Point2::new(8, 10)));
    assert!(!r.contains(Point2::new(5, 14)));
    assert!(!r.contains(Point2::new(4, 10)));
    assert!(!r.contains(Point2::new(5, 9)));
}

#[test]
fn contains_nothing_in_a_flipped_rect() {
    let r = Rect::new(5, 5, -3, 4);
    assert!(!r.contains(Point2::new(5, 5)));
    assert!(!r.contains(Point2::new(3, 5)));
}

#[test]
fn overlap_takes_larger_origin_and_smaller_extent() {
    let a = Rect::new(0, 0, 10, 10);
    let b = Rect::new(5, 3, 20, 4);
    assert_eq!(a.overlap_of(b), Some(Rect::new(5, 3, 10, 4)));
}

#[test]
fn overlap_is_symmetric() {
    let a = Rect::new(0, 0, 10, 10);
    let b = Rect::new(5, 3, 20, 4);
    assert_eq!(a.overlap_of(b), b.overlap_of(a));
    let c = Rect::new(50, 0, 2, 2);
    assert_eq!(a.overlap_of(c), c.overlap_of(a));
    assert_eq!(a.overlap_of(c), None);
}

#[test]
fn overlap_none_on_each_side() {
    let a = Rect::new(10, 10, 5, 5);
    assert_eq!(a.overlap_of(Rect::new(0, 10, 4, 5)), None);
    assert_eq!(a.overlap_of(Rect::new(16, 10, 4, 5)), None);
    assert_eq!(a.overlap_of(Rect::new(10, 0, 5, 4)), None);
    assert_eq!(a.overlap_of(Rect::new(10, 16, 5, 4)), None);
}

#[test]
fn overlap_touching_edges_counts() {
    let a = Rect::new(0, 0, 5, 5);
    assert_eq!(a.overlap_of(Rect::new(5, 0, 5, 5)), Some(Rect::new(5, 0, 5, 5)));
}

#[test]
fn overlap_saturates_at_the_type_maximum() {
    let a = Rect::new(250u8, 250u8, 200u8, 200u8);
    let b = Rect::new(255u8, 255u8, 1u8, 1u8);
    assert_eq!(a.overlap_of(b), Some(Rect::new(255u8, 255u8, 1u8, 1u8)));
    assert_eq!(b.overlap_of(a), Some(Rect::new(255u8, 255u8, 1u8, 1u8)));
}

#[test]
fn divide_around_centre_rounds_toward_zero() {
    assert_eq!(Rect::new(0, 0, -7, 9).divide_around_centre(2), Rect::new(-1, 2, -3, 4));
}

#[test]
fn rect_to_wider_type() {
    let r = Rect::new(1u8, 2u8, 3u8, 255u8).to::<i64>();
    assert_eq!(r, Rect::new(1i64, 2i64, 3i64, 255i64));
}

#[test]
fn rect_to_clamped_saturates_each_field() {
    let r = Rect::new(-5i32, 300i32, 70000i32, 12i32).to_clamped::<u16>();
    assert_eq!(r, Rect::new(0u16, 300u16, 65535u16, 12u16));
    let s = Rect::new(-40000i64, 40000i64, 0i64, -1i64).to_clamped::<i16>();
    assert_eq!(s, Rect::new(-32768i16, 32767i16, 0i16, -1i16));
}

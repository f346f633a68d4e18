use lib::geometry::framebuffer_resize;
use lib::Rect;

#[test]
fn new_keeps_fields() {
    let r = Rect::new(1, 2, 3, 4);
    assert_eq!((r.x, r.y, r.width, r.height), (1, 2, 3, 4));
}

#[test]
fn default_is_zero() {
    assert_eq!(Rect::default(), Rect::new(0, 0, 0, 0));
}

#[test]
fn from_xyxy_spans_corners() {
    assert_eq!(Rect::from_xyxy(10, 20, 30, 60), Rect::new(10, 20, 20, 40));
    assert_eq!(Rect::from_xyxy(30, 60, 10, 20), Rect::new(30, 60, -20, -40));
}

#[test]
fn from_xyxy_saturates() {
    let r = Rect::from_xyxy(i32::MIN, i32::MAX, i32::MAX, i32::MIN);
    assert_eq!(r.width, i32::MAX);
    assert_eq!(r.height, i32::MIN);
}

#[test]
fn builders_replace_one_field() {
    let r = Rect::new(1, 2, 3, 4).x(10).y(20).width(30).height(40);
    assert_eq!(r, Rect::new(10, 20, 30, 40));
}

#[test]
fn right_and_bottom_saturate() {
    let r = Rect::new(5, 6, 10, 20);
    assert_eq!(r.right(), 15);
    assert_eq!(r.bottom(), 26);
    let big = Rect::new(i32::MAX - 1, i32::MIN + 1, 10, -10);
    assert_eq!(big.right(), i32::MAX);
    assert_eq!(big.bottom(), i32::MIN);
}

#[test]
fn is_empty_when_an_extent_is_not_positive() {
    assert!(Rect::new(0, 0, 0, 5).is_empty());
    assert!(Rect::new(0, 0, 5, -1).is_empty());
    assert!(!Rect::new(0, 0, 1, 1).is_empty());
}

#[test]
fn contains_is_half_open() {
    let r = Rect::new(0, 0, 10, 10);
    assert!(r.contains(0, 0));
    assert!(r.contains(9, 9));
    assert!(!r.contains(10, 5));
    assert!(!r.contains(5, 10));
    assert!(!r.contains(-1, 5));
}

#[test]
fn intersects_overlapping_and_touching() {
    let a = Rect::new(0, 0, 10, 10);
    assert!(a.intersects(Rect::new(5, 5, 10, 10)));
    assert!(!a.intersects(Rect::new(10, 0, 5, 5)));
    assert!(!a.intersects(Rect::new(0, 20, 5, 5)));
}

#[test]
fn intersection_of_overlapping_rects() {
    let a = Rect::new(0, 0, 10, 10);
    let b = Rect::new(5, -5, 10, 10);
    assert_eq!(a.intersection(b), Rect::new(5, 0, 5, 5));
}

#[test]
fn intersection_commutes() {
    let a = Rect::new(-3, 4, 17, 9);
    let b = Rect::new(2, -8, 6, 30);
    assert_eq!(a.intersection(b), b.intersection(a));
    let c = Rect::new(100, 100, 1, 1);
    assert_eq!(a.intersection(c), c.intersection(a));
}

#[test]
fn intersection_of_disjoint_rects_is_zero() {
    let a = Rect::new(0, 0, 10, 10);
    assert_eq!(a.intersection(Rect::new(20, 20, 5, 5)), Rect::default());
    assert_eq!(a.intersection(Rect::new(10, 0, 5, 5)), Rect::default());
}

#[test]
fn intersection_contains_exactly_common_points() {
    let a = Rect::new(-4, -2, 9, 7);
    let b = Rect::new(1, 0, 6, 9);
    let i = a.intersection(b);
    for x in -6..10 {
        for y in -4..12 {
            assert_eq!(i.contains(x, y), a.contains(x, y) && b.contains(x, y));
        }
    }
}

#[test]
fn intersection_empty_iff_not_intersecting_nonempty() {
    let a = Rect::new(0, 0, 10, 10);
    let b = Rect::new(3, 3, 2, 2);
    assert!(a.intersects(b) && !a.intersection(b).is_empty());
    // A zero-width rectangle inside `a` intersects it by the edge test, yet leaves
    // nothing in the intersection.
    let thin = Rect::new(5, 5, 0, 3);
    assert!(thin.intersects(a));
    assert!(a.intersection(thin).is_empty());
}

#[test]
fn clamp_is_intersection() {
    let a = Rect::new(-5, -5, 20, 20);
    let bounds = Rect::new(0, 0, 8, 8);
    assert_eq!(a.clamp(bounds), a.intersection(bounds));
}

#[test]
fn clamp_to_size_stays_inside() {
    let r = Rect::new(-5, 3, 100, 100).clamp_to_size(50, 40);
    assert_eq!(r, Rect::new(0, 3, 50, 37));
    assert!(r.x >= 0 && r.y >= 0 && r.right() <= 50 && r.bottom() <= 40);
}

#[test]
fn inner_shrinks_each_side() {
    assert_eq!(Rect::new(10, 10, 100, 50).inner(5, 2), Rect::new(15, 12, 90, 46));
    assert_eq!(Rect::new(0, 0, i32::MIN + 1, 0).inner(2, 0).width, i32::MIN);
}

#[test]
fn add_assign_adds_fields() {
    let mut r = Rect::new(1, 2, 3, 4);
    r += Rect::new(10, 20, 30, 40);
    assert_eq!(r, Rect::new(11, 22, 33, 44));
}

#[test]
fn add_assign_wraps_past_the_range() {
    let mut r = Rect::new(i32::MAX, 0, 0, i32::MIN);
    r += Rect::new(1, -5, 7, -1);
    assert_eq!(r, Rect::new(i32::MIN, -5, 7, i32::MAX));
}

#[test]
fn framebuffer_resize_only_on_change() {
    assert_eq!(framebuffer_resize(0, 4, 3), Some(12));
    assert_eq!(framebuffer_resize(12, 4, 3), None);
    assert_eq!(framebuffer_resize(12, 0, 3), Some(0));
}

#[test]
fn rebuilt_from_corners() {
    for r in [Rect::new(3, -4, 10, 20), Rect::new(-7, 2, 0, 5), Rect::new(1, 1, -3, -2)] {
        assert_eq!(Rect::from_xyxy(r.x, r.y, r.right(), r.bottom()), r);
    }
    // Where the far edge saturates, the rebuilt width falls short.
    let edge = Rect::new(i32::MAX - 1, 0, 10, 1);
    assert_eq!(Rect::from_xyxy(edge.x, edge.y, edge.right(), edge.bottom()).width, 1);
}

use rust_my_pbrt::bounds::{Bounds2i, Bounds3, Bounds3i};
use rust_my_pbrt::points::{Point2i, Point3, Point3i};
use rust_my_pbrt::vectors::{Vector2i, Vector3i};

#[test]
fn bounds3_from_single_point_degenerate() {
    let b = Bounds3i::from_single_point(Point3i::new(1, 1, 1));
    assert_eq!(b.p_min, Point3i::new(1, 1, 1));
    assert_eq!(b.p_max, Point3i::new(1, 1, 1));
    let bf = Bounds3::from_single_point(Point3::new(1.0f32, 1.0, 1.0));
    assert_eq!(bf.p_min, bf.p_max);
}

#[test]
fn bounds3_union_with_point_scenario() {
    let b = Bounds3i::from_single_point(Point3i::new(1, 1, 1));
    let u = Bounds3i::union_from_point(&b, Point3i::new(-1, 2, 0));
    assert_eq!(u.p_min, Point3i::new(-1, 1, 0));
    assert_eq!(u.p_max, Point3i::new(1, 2, 1));
}

#[test]
fn bounds3_union_of_boxes() {
    let b1 = Bounds3i::new(Point3i::new(0, 0, 0), Point3i::new(2, 2, 2));
    let b2 = Bounds3i::new(Point3i::new(-1, 1, 1), Point3i::new(1, 5, 1));
    let u = Bounds3i::union(&b1, &b2);
    assert_eq!(u.p_min, Point3i::new(-1, 0, 0));
    assert_eq!(u.p_max, Point3i::new(2, 5, 2));
}

#[test]
fn bounds3_union_point_membership() {
    let b = Bounds3i::new(Point3i::new(0, 0, 0), Point3i::new(2, 2, 2));
    let p = Point3i::new(-7, 9, 1);
    let u = Bounds3i::union(&b, &Bounds3i::from_single_point(p));
    assert!(Bounds3i::inside(&p, &u));
    let q = Point2i::new(-7, 9);
    let c = Bounds2i::new(Point2i::new(0, 0), Point2i::new(2, 2));
    let v = Bounds2i::union(&c, &Bounds2i::from_single_point(q));
    assert!(Bounds2i::inside(&q, &v));
}

#[test]
fn bounds_overlap_symmetric() {
    let b1 = Bounds3i::new(Point3i::new(0, 0, 0), Point3i::new(2, 2, 2));
    let b2 = Bounds3i::new(Point3i::new(1, 1, 1), Point3i::new(3, 3, 3));
    let b3 = Bounds3i::new(Point3i::new(5, 5, 5), Point3i::new(6, 6, 6));
    assert_eq!(Bounds3i::overlaps(&b1, &b2), Bounds3i::overlaps(&b2, &b1));
    assert_eq!(Bounds3i::overlaps(&b1, &b3), Bounds3i::overlaps(&b3, &b1));
    assert!(Bounds3i::overlaps(&b1, &b2));
    assert!(!Bounds3i::overlaps(&b1, &b3));
    let c1 = Bounds2i::new(Point2i::new(0, 0), Point2i::new(2, 2));
    let c2 = Bounds2i::new(Point2i::new(3, 0), Point2i::new(4, 2));
    assert_eq!(Bounds2i::overlaps(&c1, &c2), Bounds2i::overlaps(&c2, &c1));
    assert!(!Bounds2i::overlaps(&c1, &c2));
}

#[test]
fn bounds_one_disjoint_axis_vetoes_overlap() {
    let b1 = Bounds3i::new(Point3i::new(0, 0, 0), Point3i::new(2, 2, 2));
    let b2 = Bounds3i::new(Point3i::new(0, 0, 3), Point3i::new(2, 2, 4));
    assert!(!Bounds3i::overlaps(&b1, &b2));
}

#[test]
fn bounds_inside_inclusive_and_exclusive() {
    let b = Bounds3i::new(Point3i::new(0, 0, 0), Point3i::new(2, 2, 2));
    assert!(Bounds3i::inside(&Point3i::new(2, 2, 2), &b));
    assert!(!Bounds3i::inside_exclusive(Point3i::new(2, 2, 2), b));
    assert!(Bounds3i::inside_exclusive(Point3i::new(0, 0, 0), b));
    assert!(!Bounds3i::inside(&Point3i::new(3, 1, 1), &b));
    let c = Bounds2i::new(Point2i::new(0, 0), Point2i::new(2, 2));
    assert!(Bounds2i::inside(&Point2i::new(2, 0), &c));
    assert!(!Bounds2i::inside_exclusive(Point2i::new(2, 0), c));
}

#[test]
fn bounds_intersection_boxes() {
    let b1 = Bounds3i::new(Point3i::new(0, 0, 0), Point3i::new(2, 2, 2));
    let b2 = Bounds3i::new(Point3i::new(1, 1, 1), Point3i::new(3, 3, 3));
    let i = Bounds3i::intersect(&b1, &b2);
    assert_eq!(i.p_min, Point3i::new(1, 1, 1));
    assert_eq!(i.p_max, Point3i::new(2, 2, 2));
    // Disjoint inputs give an inverted (empty) box.
    let b3 = Bounds3i::new(Point3i::new(5, 5, 5), Point3i::new(6, 6, 6));
    let j = Bounds3i::intersect(&b1, &b3);
    assert!(j.p_min.x > j.p_max.x);
    let c1 = Bounds2i::new(Point2i::new(0, 0), Point2i::new(2, 2));
    let c2 = Bounds2i::new(Point2i::new(1, -1), Point2i::new(3, 1));
    let k = Bounds2i::intersect(&c1, &c2);
    assert_eq!(k.p_min, Point2i::new(1, 0));
    assert_eq!(k.p_max, Point2i::new(2, 1));
}

#[test]
fn bounds_expand_and_diagonal() {
    let b = Bounds3i::new(Point3i::new(0, 0, 0), Point3i::new(2, 3, 4));
    let e = Bounds3i::expand(&b, 2);
    assert_eq!(e.p_min, Point3i::new(-2, -2, -2));
    assert_eq!(e.p_max, Point3i::new(4, 5, 6));
    assert_eq!(b.diagonal(), Vector3i::new(2, 3, 4));
    let c = Bounds2i::new(Point2i::new(1, 1), Point2i::new(4, 6));
    let f = Bounds2i::expand(&c, 1);
    assert_eq!(f.p_min, Point2i::new(0, 0));
    assert_eq!(f.p_max, Point2i::new(5, 7));
    assert_eq!(c.diagonal(), Vector2i::new(3, 5));
}

#[test]
fn bounds3_corner_convention() {
    let b = Bounds3i::new(Point3i::new(0, 0, 0), Point3i::new(1, 1, 1));
    // Bit 0 clear picks p_min.x; bits 1 and 2 clear pick p_max on their axis.
    assert_eq!(b.corner(0), Point3i::new(0, 1, 1));
    assert_eq!(b.corner(1), Point3i::new(1, 1, 1));
    assert_eq!(b.corner(2), Point3i::new(0, 0, 1));
    assert_eq!(b.corner(3), Point3i::new(1, 0, 1));
    assert_eq!(b.corner(4), Point3i::new(0, 1, 0));
    assert_eq!(b.corner(5), Point3i::new(1, 1, 0));
    assert_eq!(b.corner(6), Point3i::new(0, 0, 0));
    assert_eq!(b.corner(7), Point3i::new(1, 0, 0));
}

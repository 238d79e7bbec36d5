use rust_my_pbrt::points::{Point2, Point2i, Point3, Point3i};
use rust_my_pbrt::vectors::{Vector2i, Vector3i};

#[test]
fn point2_construction_and_fields() {
    let p = Point2i::new(1, 2);
    assert_eq!(p.x, 1);
    assert_eq!(p.y, 2);
    assert_eq!(p, Point2 { x: 1, y: 2 });
}

#[test]
fn point_minus_point_is_vector() {
    let p = Point3i::new(5, 7, 9);
    let q = Point3i::new(1, 2, 3);
    assert_eq!(p - q, Vector3i::new(4, 5, 6));
    let a = Point2i::new(5, 7);
    let b = Point2i::new(1, 2);
    assert_eq!(a - b, Vector2i::new(4, 5));
}

#[test]
fn point_sub_add_duality() {
    let p = Point3i::new(-13, 40, 7);
    let q = Point3i::new(21, -5, 600);
    assert_eq!(q + (p - q), p);
    let a = Point2i::new(-13, 40);
    let b = Point2i::new(21, -5);
    assert_eq!(b + (a - b), a);
}

#[test]
fn point_plus_and_minus_vector() {
    let p = Point3i::new(1, 2, 3);
    let v = Vector3i::new(10, -20, 30);
    assert_eq!(p + v, Point3i::new(11, -18, 33));
    assert_eq!(p - v, Point3i::new(-9, 22, -27));
    assert_eq!(p.add_vector(v), p + v);
    assert_eq!(p.sub_vector(v), p - v);
    let q = Point2i::new(1, 2);
    let w = Vector2i::new(10, -20);
    assert_eq!(q.add_vector(w), q + w);
    assert_eq!(q.sub_vector(w), q - w);
}

#[test]
fn point_scaling_and_division() {
    let p = Point3i::new(3, -6, 9);
    assert_eq!(p * 2, Point3i::new(6, -12, 18));
    assert_eq!(p / 3, Point3i::new(1, -2, 3));
    assert_eq!(-p, Point3i::new(-3, 6, -9));
    let s: i16 = 2;
    assert_eq!(s * p, p * s);
    let q = Point2i::new(3, -6);
    assert_eq!(q * 2, Point2i::new(6, -12));
    assert_eq!(q / 3, Point2i::new(1, -2));
    assert_eq!(s * q, q * s);
}

#[test]
fn point_add_point_componentwise() {
    let p = Point3i::new(1, 2, 3);
    let q = Point3i::new(10, 20, 30);
    assert_eq!(Point3i::add_point(p, q), Point3i::new(11, 22, 33));
}

#[test]
fn point_length_squared_between() {
    let p = Point2i::new(4, 6);
    let q = Point2i::new(1, 2);
    assert_eq!(Point2i::length_squared(p, q), 25);
    let a = Point3i::new(1, 2, 3);
    let b = Point3i::new(2, 4, 5);
    assert_eq!(Point3i::length_squared(a, b), 9);
}

#[test]
fn point_min_max_componentwise() {
    let p = Point3i::new(1, 8, -3);
    let q = Point3i::new(2, -8, -3);
    assert_eq!(Point3i::min(&p, &q), Point3i::new(1, -8, -3));
    assert_eq!(Point3i::max(&p, &q), Point3i::new(2, 8, -3));
    let a = Point2i::new(1, 8);
    let b = Point2i::new(2, -8);
    assert_eq!(Point2i::min(&a, &b), Point2i::new(1, -8));
    assert_eq!(Point2i::max(&a, &b), Point2i::new(2, 8));
}

#[test]
fn point_indexing_and_permute() {
    let p = Point3i::new(7, 8, 9);
    assert_eq!(p[0], 7);
    assert_eq!(p[1], 8);
    assert_eq!(p[2], 9);
    assert_eq!(Point3i::permute(&p, 2, 0, 1), Point3i::new(9, 7, 8));
    let q = Point2i::new(7, 8);
    assert_eq!(q[0], 7);
    assert_eq!(q[1], 8);
}

#[test]
fn point_component_type_conversions() {
    let p = Point2i::new(1, 2);
    let pf: Point2<f32> = Point2::into(&p);
    assert_eq!(pf, Point2::new(1.0, 2.0));
    let q = Point3i::new(1, -2, 3);
    let qf: Point3<f32> = Point3::into(&q);
    assert_eq!(qf, Point3::new(1.0, -2.0, 3.0));
    let qi: Point3<i32> = Point3::into(&q);
    assert_eq!(qi, Point3::new(1, -2, 3));
}

#[test]
fn point2_from_point3_drops_z() {
    let p = Point3i::new(4, 5, 6);
    assert_eq!(Point2i::from_point3(p), Point2i::new(4, 5));
}

#[test]
fn point_to_vector() {
    let p = Point2i::new(4, 5);
    assert_eq!(p.to_vector2(), Vector2i::new(4, 5));
    let q = Point3i::new(4, 5, 6);
    assert_eq!(q.to_vector3(), Vector3i::new(4, 5, 6));
}

#[test]
fn point_float_operators() {
    let p: Point3<f32> = Point3::new(1.0, 2.0, 3.0);
    let q: Point3<f32> = Point3::new(0.5, 0.25, -1.0);
    assert_eq!(q + (p - q), p);
    assert_eq!(p * 2.0, Point3::new(2.0, 4.0, 6.0));
    assert_eq!(p / 2.0, Point3::new(0.5, 1.0, 1.5));
}

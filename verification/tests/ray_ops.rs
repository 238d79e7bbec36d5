use rust_my_pbrt::points::Point3i;
use rust_my_pbrt::rays::{Ray, RayDifferential};
use rust_my_pbrt::vectors::Vector3i;

#[test]
fn ray_point_scenario() {
    let ray: Ray<i16, ()> = Ray::new(Point3i::new(0, 0, 0), Vector3i::new(1, 0, 0), 1000, 0, None);
    assert_eq!(ray.point(5), Point3i::new(5, 0, 0));
}

#[test]
fn ray_new_keeps_fields() {
    let o = Point3i::new(1, 2, 3);
    let d = Vector3i::new(4, 5, 6);
    let ray: Ray<i16, u32> = Ray::new(o, d, 1000, 7, Some(9));
    assert_eq!(ray.o, o);
    assert_eq!(ray.d, d);
    assert_eq!(ray.t_max, 1000);
    assert_eq!(ray.time, 7);
    assert_eq!(ray.medium, Some(9));
}

#[test]
fn ray_point_is_linear() {
    let ray: Ray<i16, ()> = Ray::new(Point3i::new(2, -3, 4), Vector3i::new(5, 7, -2), 1000, 0, None);
    let t1: i16 = 3;
    let t2: i16 = 11;
    assert_eq!(ray.point(t1) + ray.d * (t2 - t1), ray.point(t2));
}

#[test]
fn ray_differential_wraps_ray() {
    let o = Point3i::new(1, 1, 1);
    let d = Vector3i::new(1, 1, 1);
    let ray: Ray<i16, ()> = Ray::new(o, d, 1000, 0, None);
    let rd = RayDifferential::from_ray(ray);
    assert_eq!(*rd.ray(), ray);
    assert!(!rd.has_differentials);
    assert_eq!(rd.rx_origin, Point3i::new(0, 0, 0));
    assert_eq!(rd.ry_origin, Point3i::new(0, 0, 0));
    assert_eq!(rd.rx_direction, Vector3i::new(0, 0, 0));
    assert_eq!(rd.ry_direction, Vector3i::new(0, 0, 0));
    let rd2: RayDifferential<i16, ()> = RayDifferential::new(o, d, 1000, 0, None);
    assert_eq!(rd2, rd);
}

#[test]
fn ray_differential_point_evaluates_primary() {
    let rd: RayDifferential<i16, ()> =
        RayDifferential::new(Point3i::new(1, 1, 1), Vector3i::new(1, 1, 1), 1000, 0, None);
    assert_eq!(rd.point(3), Point3i::new(4, 4, 4));
    assert_eq!(rd.point(3), rd.ray().point(3));
}

#[test]
fn ray_differential_scales_toward_primary() {
    let o = Point3i::new(1, 1, 1);
    let d = Vector3i::new(1, 1, 1);
    let mut rd: RayDifferential<i16, ()> = RayDifferential::new(o, d, 1000, 0, None);
    rd.rx_origin = Point3i::new(3, 1, 1);
    rd.rx_direction = Vector3i::new(1, 5, 1);
    rd.scale_differentials(2);
    assert_eq!(rd.rx_origin, Point3i::new(5, 1, 1));
    assert_eq!(rd.rx_direction, Vector3i::new(1, 9, 1));
    assert_eq!(rd.ry_origin, Point3i::new(-1, -1, -1));
    assert_eq!(rd.ry_direction, Vector3i::new(-1, -1, -1));
    assert_eq!(*rd.ray(), Ray::new(o, d, 1000, 0, None));
}

#[test]
fn ray_differential_scale_by_one_is_identity() {
    let o = Point3i::new(2, 3, 4);
    let d = Vector3i::new(1, 0, -1);
    let mut rd: RayDifferential<i16, ()> = RayDifferential::new(o, d, 1000, 0, None);
    rd.rx_origin = Point3i::new(7, -8, 9);
    rd.ry_origin = Point3i::new(-7, 8, -9);
    rd.rx_direction = Vector3i::new(4, 4, 4);
    rd.ry_direction = Vector3i::new(-4, -4, -4);
    let before = rd;
    rd.scale_differentials(1);
    assert_eq!(rd, before);
}

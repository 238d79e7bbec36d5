use rust_my_pbrt::normals::{Normal3, Normal3i};
use rust_my_pbrt::vectors::Vector3i;

#[test]
fn normal_construction_and_fields() {
    let n = Normal3i::new(1, 2, 3);
    assert_eq!(n.x, 1);
    assert_eq!(n.y, 2);
    assert_eq!(n.z, 3);
    assert_eq!(n, Normal3 { x: 1, y: 2, z: 3 });
}

#[test]
fn normal_arithmetic_exact() {
    let a = Normal3i::new(1, 2, 3);
    let b = Normal3i::new(2, 3, 1);
    assert_eq!(a + b, Normal3i::new(3, 5, 4));
    assert_eq!(a - b, Normal3i::new(-1, -1, 2));
    assert_eq!(a * 3, Normal3i::new(3, 6, 9));
    assert_eq!(Normal3i::new(3, 6, 9) / 3, a);
    assert_eq!(-a, Normal3i::new(-1, -2, -3));
    let s: i16 = 3;
    assert_eq!(s * a, a * s);
}

#[test]
fn normal_dot_and_cross() {
    let a = Normal3i::new(1, 2, 3);
    let b = Normal3i::new(4, 5, 6);
    assert_eq!(Normal3i::dot(&a, &b), 32);
    assert_eq!(Normal3i::abs_dot(&a, &Normal3i::new(-4, -5, -6)), 32);
    assert_eq!(Normal3i::cross(&a, &b), Normal3i::new(-3, 6, -3));
}

#[test]
fn normal_indexing() {
    let n = Normal3i::new(7, 8, 9);
    assert_eq!(n[0], 7);
    assert_eq!(n[1], 8);
    assert_eq!(n[2], 9);
}

#[test]
fn normal_vector_conversions_are_explicit() {
    let v = Vector3i::new(4, 5, 6);
    let n = Normal3i::from_vector3(v);
    assert_eq!(n, Normal3i::new(4, 5, 6));
    assert_eq!(n.to_vector3(), v);
}

#[test]
fn normal_component_type_conversion() {
    let n = Normal3i::new(1, -2, 3);
    let nf: Normal3<f32> = Normal3::into(&n);
    assert_eq!(nf, Normal3::new(1.0, -2.0, 3.0));
}

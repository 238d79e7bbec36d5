use rust_my_pbrt::vectors::{Vector2, Vector2i, Vector3, Vector3i};

#[test]
fn vector2_add_concrete() {
    let a: Vector2<f32> = Vector2::new(1.0, 2.0);
    let b: Vector2<f32> = Vector2::new(1.0, 3.0);
    assert_eq!(a + b, Vector2::new(2.0, 5.0));
}

#[test]
fn vector2_add_commutes_and_associates() {
    let a = Vector2i::new(3, -7);
    let b = Vector2i::new(10, 4);
    let c = Vector2i::new(-2, 9);
    assert_eq!(a + b, b + a);
    assert_eq!((a + b) + c, a + (b + c));
}

#[test]
fn vector3_add_commutes_and_associates() {
    let a = Vector3i::new(1, 2, 3);
    let b = Vector3i::new(-4, 5, -6);
    let c = Vector3i::new(7, -8, 9);
    assert_eq!(a + b, b + a);
    assert_eq!((a + b) + c, a + (b + c));
}

#[test]
fn vector2_scalar_distributes() {
    let a = Vector2i::new(3, -7);
    let b = Vector2i::new(10, 4);
    let s: i16 = 5;
    assert_eq!((a + b) * s, a * s + b * s);
}

#[test]
fn vector3_scalar_distributes() {
    let a = Vector3i::new(1, 2, 3);
    let b = Vector3i::new(-4, 5, -6);
    let s: i16 = -3;
    assert_eq!((a + b) * s, a * s + b * s);
}

#[test]
fn vector_arithmetic_exact() {
    let a = Vector3i::new(9, -6, 3);
    let b = Vector3i::new(1, 2, -3);
    assert_eq!(a - b, Vector3i::new(8, -8, 6));
    assert_eq!(a * 2, Vector3i::new(18, -12, 6));
    assert_eq!(a / 3, Vector3i::new(3, -2, 1));
    assert_eq!(-a, Vector3i::new(-9, 6, -3));
    assert_eq!(a / -3, Vector3i::new(-3, 2, -1));
}

#[test]
fn scalar_times_vector_agrees() {
    let v2 = Vector2i::new(4, -5);
    let v3 = Vector3i::new(4, -5, 6);
    let s: i16 = 3;
    assert_eq!(s * v2, v2 * s);
    assert_eq!(s * v3, v3 * s);
}

#[test]
fn vector_indexing() {
    let a = Vector2i::new(11, 22);
    assert_eq!(a[0], 11);
    assert_eq!(a[1], 22);
    let b = Vector3i::new(7, 8, 9);
    assert_eq!(b[0], 7);
    assert_eq!(b[1], 8);
    assert_eq!(b[2], 9);
    let c: Vector3<f32> = Vector3::new(1.5, 2.5, 3.5);
    assert_eq!(c[2], 3.5);
}

#[test]
fn vector3_dot_and_length_squared() {
    let a = Vector3i::new(1, 2, 3);
    let b = Vector3i::new(4, -5, 6);
    assert_eq!(Vector3i::dot(&a, &b), 1 * 4 + 2 * -5 + 3 * 6);
    assert_eq!(Vector3i::abs_dot(&a, &Vector3i::new(-4, 5, -6)), 12);
    assert_eq!(a.length_squared(), 14);
    let c = Vector2i::new(-3, 4);
    assert_eq!(c.length_squared(), 25);
    assert_eq!(Vector2i::dot(&c, &Vector2i::new(2, 2)), 2);
}

#[test]
fn vector3_cross_exact() {
    let a = Vector3i::new(1, 2, 3);
    let b = Vector3i::new(4, 5, 6);
    assert_eq!(Vector3i::cross(&a, &b), Vector3i::new(-3, 6, -3));
    let x = Vector3i::new(1, 0, 0);
    let y = Vector3i::new(0, 1, 0);
    assert_eq!(Vector3i::cross(&x, &y), Vector3i::new(0, 0, 1));
}

#[test]
fn vector3_cross_anticommutes() {
    let a = Vector3i::new(2, -9, 4);
    let b = Vector3i::new(-1, 5, 7);
    assert_eq!(Vector3i::cross(&a, &b), -Vector3i::cross(&b, &a));
}

#[test]
fn vector_component_extrema() {
    let a = Vector3i::new(5, -2, 9);
    assert_eq!(Vector3i::min_component(&a), -2);
    assert_eq!(Vector3i::max_component(&a), 9);
    let b = Vector2i::new(5, -2);
    assert_eq!(b.min_component(), -2);
}

#[test]
fn vector2_max_dimension_cascade() {
    assert_eq!(Vector2i::new(5, -2).max_dimension(), 0);
    assert_eq!(Vector2i::new(-2, 5).max_dimension(), 1);
    // A tie falls through the strict comparison to the later axis.
    assert_eq!(Vector2i::new(4, 4).max_dimension(), 1);
}

#[test]
fn vector_component_type_conversions() {
    let a = Vector2i::new(1, -2);
    let af: Vector2<f32> = Vector2::into(&a);
    assert_eq!(af, Vector2::new(1.0, -2.0));
    let b = Vector3i::new(1, -2, 3);
    let bf: Vector3<f32> = Vector3::into(&b);
    assert_eq!(bf, Vector3::new(1.0, -2.0, 3.0));
    let bi: Vector3<i32> = Vector3::into(&b);
    assert_eq!(bi, Vector3::new(1, -2, 3));
}

#[test]
fn vector3_min_max_componentwise() {
    let a = Vector3i::new(1, 8, -3);
    let b = Vector3i::new(2, -8, -3);
    assert_eq!(Vector3i::min(&a, &b), Vector3i::new(1, -8, -3));
    assert_eq!(Vector3i::max(&a, &b), Vector3i::new(2, 8, -3));
}

#[test]
fn vector3_max_dimension_cascade() {
    assert_eq!(Vector3i::max_dimension(&Vector3i::new(9, 2, 3)), 0);
    assert_eq!(Vector3i::max_dimension(&Vector3i::new(2, 9, 3)), 1);
    assert_eq!(Vector3i::max_dimension(&Vector3i::new(2, 3, 9)), 2);
    // Ties fall through the strict comparisons to the later axis.
    assert_eq!(Vector3i::max_dimension(&Vector3i::new(4, 4, 4)), 2);
    assert_eq!(Vector3i::max_dimension(&Vector3i::new(9, 2, 9)), 2);
}

#[test]
fn vector3_permute_reorders() {
    let a = Vector3i::new(10, 20, 30);
    assert_eq!(Vector3i::permute(a, 1, 2, 0), Vector3i::new(20, 30, 10));
    assert_eq!(Vector3i::permute(a, 0, 0, 0), Vector3i::new(10, 10, 10));
}

#[test]
fn vector_abs_componentwise() {
    let a = Vector2i::new(-4, 7);
    assert_eq!(Vector2i::abs(&a), Vector2i::new(4, 7));
    let b = Vector3i::new(-1, 0, -32767);
    assert_eq!(Vector3i::abs(&b), Vector3i::new(1, 0, 32767));
}

#[test]
fn vector2_float_operators() {
    let a: Vector2<f32> = Vector2::new(1.0, 3.0);
    let b: Vector2<f32> = Vector2::new(1.0, 3.0);
    assert_eq!(a - b, Vector2::new(0.0, 0.0));
    assert_eq!(a * 2.0, Vector2::new(2.0, 6.0));
    assert_eq!(a / 2.0, Vector2::new(0.5, 1.5));
    assert_eq!(-a, a * -1.0);
}

//! Affine positions in two and three dimensions.
//!
//! Points differ from vectors by which operations are legal: point minus
//! point is a vector, point plus or minus vector is a point. Scaling and
//! division are also provided for convenience, as interpolation-style
//! consumers expect them, even though they are not affine operations.

use vstd::prelude::*;
use vstd::std_specs::ops::{AddSpec, SubSpec, MulSpec, DivSpec, NegSpec};
use vstd::std_specs::convert::IntoSpec;
use crate::scalar::{fits_i16, lemma_mul_le};
use crate::vectors::{Vector2, Vector3};

verus! {

/// A two-dimensional affine position.
#[derive(Copy, Clone, PartialEq, PartialOrd, Hash, Debug, Default)]
pub struct Point2<T> {
    pub x: T,
    pub y: T,
}

/// A three-dimensional affine position.
#[derive(Copy, Clone, PartialEq, PartialOrd, Hash, Debug, Default)]
pub struct Point3<T> {
    pub x: T,
    pub y: T,
    pub z: T,
}

pub type Point2i = Point2<i16>;

pub type Point3i = Point3<i16>;

impl View for Point2<i16> {
    type V = Point2<int>;

    open spec fn view(&self) -> Point2<int> {
        Point2 { x: self.x as int, y: self.y as int }
    }
}

impl View for Point3<i16> {
    type V = Point3<int>;

    open spec fn view(&self) -> Point3<int> {
        Point3 { x: self.x as int, y: self.y as int, z: self.z as int }
    }
}

/// Displacing a point by a vector, over the mathematical model.
pub open spec fn point2_add_vector(p: Point2<int>, v: Vector2<int>) -> Point2<int> {
    Point2 { x: p.x + v.x, y: p.y + v.y }
}

/// The displacement from `q` to `p`, over the mathematical model.
pub open spec fn point2_sub(p: Point2<int>, q: Point2<int>) -> Vector2<int> {
    Vector2 { x: p.x - q.x, y: p.y - q.y }
}

/// Displacing a point by a vector, over the mathematical model.
pub open spec fn point3_add_vector(p: Point3<int>, v: Vector3<int>) -> Point3<int> {
    Point3 { x: p.x + v.x, y: p.y + v.y, z: p.z + v.z }
}

/// The displacement from `q` to `p`, over the mathematical model.
pub open spec fn point3_sub(p: Point3<int>, q: Point3<int>) -> Vector3<int> {
    Vector3 { x: p.x - q.x, y: p.y - q.y, z: p.z - q.z }
}

/// The componentwise minimum of two points, over the mathematical model.
pub open spec fn point2_min(a: Point2<int>, b: Point2<int>) -> Point2<int> {
    Point2 { x: vstd::math::min(a.x, b.x), y: vstd::math::min(a.y, b.y) }
}

/// The componentwise maximum of two points, over the mathematical model.
pub open spec fn point2_max(a: Point2<int>, b: Point2<int>) -> Point2<int> {
    Point2 { x: vstd::math::max(a.x, b.x), y: vstd::math::max(a.y, b.y) }
}

/// The componentwise minimum of two points, over the mathematical model.
pub open spec fn point3_min(a: Point3<int>, b: Point3<int>) -> Point3<int> {
    Point3 {
        x: vstd::math::min(a.x, b.x),
        y: vstd::math::min(a.y, b.y),
        z: vstd::math::min(a.z, b.z),
    }
}

/// The componentwise maximum of two points, over the mathematical model.
pub open spec fn point3_max(a: Point3<int>, b: Point3<int>) -> Point3<int> {
    Point3 {
        x: vstd::math::max(a.x, b.x),
        y: vstd::math::max(a.y, b.y),
        z: vstd::math::max(a.z, b.z),
    }
}

/// The squared distance between two points, over the mathematical model.
pub open spec fn point2_distance_squared(a: Point2<int>, b: Point2<int>) -> int {
    (a.x - b.x) * (a.x - b.x) + (a.y - b.y) * (a.y - b.y)
}

/// The squared distance between two points, over the mathematical model.
pub open spec fn point3_distance_squared(a: Point3<int>, b: Point3<int>) -> int {
    (a.x - b.x) * (a.x - b.x) + (a.y - b.y) * (a.y - b.y) + (a.z - b.z) * (a.z - b.z)
}

impl<T> Point2<T> {
    /// The component selected by an axis index: `0` is x, `1` is y.
    pub open spec fn axis(self, i: int) -> T {
        if i == 0 {
            self.x
        } else {
            self.y
        }
    }

    /// Builds the point with the given components.
    pub fn new(x: T, y: T) -> (r: Self)
        ensures
            r.x == x,
            r.y == y,
    {
        Point2 { x, y }
    }

    /// Converts another component type into `T`, componentwise.
    pub fn into<U: Into<T> + Copy>(v: &Point2<U>) -> (r: Point2<T>)
        ensures
            <U as IntoSpec<T>>::obeys_into_spec() ==> r.x == v.x.into_spec() && r.y
                == v.y.into_spec(),
    {
        Point2 { x: v.x.into(), y: v.y.into() }
    }

    /// Drops the z component of a three-dimensional point.
    pub fn from_point3(p: Point3<T>) -> (r: Self)
        ensures
            r.x == p.x,
            r.y == p.y,
    {
        Point2 { x: p.x, y: p.y }
    }
}

impl<T: Copy> Point2<T> {
    /// The displacement of this point from the origin.
    pub fn to_vector2(&self) -> (r: Vector2<T>)
        ensures
            r.x == self.x,
            r.y == self.y,
    {
        Vector2 { x: self.x, y: self.y }
    }
}

impl<T> Point3<T> {
    /// The component selected by an axis index: `0` is x, `1` is y, `2` is z.
    pub open spec fn axis(self, i: int) -> T {
        if i == 0 {
            self.x
        } else if i == 1 {
            self.y
        } else {
            self.z
        }
    }

    /// Builds the point with the given components.
    pub fn new(x: T, y: T, z: T) -> (r: Self)
        ensures
            r.x == x,
            r.y == y,
            r.z == z,
    {
        Point3 { x, y, z }
    }

    /// Converts another component type into `T`, componentwise.
    pub fn into<U: Into<T> + Copy>(v: &Point3<U>) -> (r: Point3<T>)
        ensures
            <U as IntoSpec<T>>::obeys_into_spec() ==> r.x == v.x.into_spec() && r.y
                == v.y.into_spec() && r.z == v.z.into_spec(),
    {
        Point3 { x: v.x.into(), y: v.y.into(), z: v.z.into() }
    }
}

impl<T: Copy> Point3<T> {
    /// The displacement of this point from the origin.
    pub fn to_vector3(&self) -> (r: Vector3<T>)
        ensures
            r.x == self.x,
            r.y == self.y,
            r.z == self.z,
    {
        Vector3 { x: self.x, y: self.y, z: self.z }
    }

    /// Re-orders the components by three axis indices.
    pub fn permute(v: &Self, x: usize, y: usize, z: usize) -> (r: Self)
        requires
            x < 3,
            y < 3,
            z < 3,
        ensures
            r.x == v.axis(x as int),
            r.y == v.axis(y as int),
            r.z == v.axis(z as int),
    {
        Point3 { x: v[x], y: v[y], z: v[z] }
    }
}

impl<T: core::ops::Add<Output = T>> vstd::std_specs::ops::AddSpecImpl<Vector2<T>> for Point2<T> {
    open spec fn obeys_add_spec() -> bool {
        T::obeys_add_spec()
    }

    open spec fn add_req(self, rhs: Vector2<T>) -> bool {
        self.x.add_req(rhs.x) && self.y.add_req(rhs.y)
    }

    open spec fn add_spec(self, rhs: Vector2<T>) -> Self {
        Point2 { x: self.x.add_spec(rhs.x), y: self.y.add_spec(rhs.y) }
    }
}

impl<T: core::ops::Add<Output = T>> core::ops::Add<Vector2<T>> for Point2<T> {
    type Output = Self;

    /// Displaces the point by a vector.
    fn add(self, other: Vector2<T>) -> Self {
        Point2 { x: self.x + other.x, y: self.y + other.y }
    }
}

impl<T: core::ops::Sub<Output = T>> vstd::std_specs::ops::SubSpecImpl<Vector2<T>> for Point2<T> {
    open spec fn obeys_sub_spec() -> bool {
        T::obeys_sub_spec()
    }

    open spec fn sub_req(self, rhs: Vector2<T>) -> bool {
        self.x.sub_req(rhs.x) && self.y.sub_req(rhs.y)
    }

    open spec fn sub_spec(self, rhs: Vector2<T>) -> Self {
        Point2 { x: self.x.sub_spec(rhs.x), y: self.y.sub_spec(rhs.y) }
    }
}

impl<T: core::ops::Sub<Output = T>> core::ops::Sub<Vector2<T>> for Point2<T> {
    type Output = Self;

    /// Displaces the point by the opposite of a vector.
    fn sub(self, other: Vector2<T>) -> Self {
        Point2 { x: self.x - other.x, y: self.y - other.y }
    }
}

impl<T: core::ops::Sub<Output = T>> vstd::std_specs::ops::SubSpecImpl<Point2<T>> for Point2<T> {
    open spec fn obeys_sub_spec() -> bool {
        T::obeys_sub_spec()
    }

    open spec fn sub_req(self, rhs: Point2<T>) -> bool {
        self.x.sub_req(rhs.x) && self.y.sub_req(rhs.y)
    }

    open spec fn sub_spec(self, rhs: Point2<T>) -> Vector2<T> {
        Vector2 { x: self.x.sub_spec(rhs.x), y: self.y.sub_spec(rhs.y) }
    }
}

impl<T: core::ops::Sub<Output = T>> core::ops::Sub<Point2<T>> for Point2<T> {
    type Output = Vector2<T>;

    /// The displacement from `other` to this point.
    fn sub(self, other: Point2<T>) -> Vector2<T> {
        Vector2 { x: self.x - other.x, y: self.y - other.y }
    }
}

impl<T: core::ops::Mul<Output = T> + Copy> vstd::std_specs::ops::MulSpecImpl<T> for Point2<T> {
    open spec fn obeys_mul_spec() -> bool {
        T::obeys_mul_spec()
    }

    open spec fn mul_req(self, rhs: T) -> bool {
        self.x.mul_req(rhs) && self.y.mul_req(rhs)
    }

    open spec fn mul_spec(self, rhs: T) -> Self {
        Point2 { x: self.x.mul_spec(rhs), y: self.y.mul_spec(rhs) }
    }
}

impl<T: core::ops::Mul<Output = T> + Copy> core::ops::Mul<T> for Point2<T> {
    type Output = Self;

    /// Scales each component by the scalar `other`.
    fn mul(self, other: T) -> Self {
        Point2 { x: self.x * other, y: self.y * other }
    }
}

impl<T: core::ops::Div<Output = T> + Copy> vstd::std_specs::ops::DivSpecImpl<T> for Point2<T> {
    open spec fn obeys_div_spec() -> bool {
        T::obeys_div_spec()
    }

    open spec fn div_req(self, rhs: T) -> bool {
        self.x.div_req(rhs) && self.y.div_req(rhs)
    }

    open spec fn div_spec(self, rhs: T) -> Self {
        Point2 { x: self.x.div_spec(rhs), y: self.y.div_spec(rhs) }
    }
}

impl<T: core::ops::Div<Output = T> + Copy> core::ops::Div<T> for Point2<T> {
    type Output = Self;

    /// Divides each component by the scalar `other`.
    fn div(self, other: T) -> Self {
        Point2 { x: self.x / other, y: self.y / other }
    }
}

impl<T: core::ops::Add<Output = T>> vstd::std_specs::ops::AddSpecImpl<Vector3<T>> for Point3<T> {
    open spec fn obeys_add_spec() -> bool {
        T::obeys_add_spec()
    }

    open spec fn add_req(self, rhs: Vector3<T>) -> bool {
        self.x.add_req(rhs.x) && self.y.add_req(rhs.y) && self.z.add_req(rhs.z)
    }

    open spec fn add_spec(self, rhs: Vector3<T>) -> Self {
        Point3 {
            x: self.x.add_spec(rhs.x),
            y: self.y.add_spec(rhs.y),
            z: self.z.add_spec(rhs.z),
        }
    }
}

impl<T: core::ops::Add<Output = T>> core::ops::Add<Vector3<T>> for Point3<T> {
    type Output = Self;

    /// Displaces the point by a vector.
    fn add(self, other: Vector3<T>) -> Self {
        Point3 { x: self.x + other.x, y: self.y + other.y, z: self.z + other.z }
    }
}

impl<T: core::ops::Sub<Output = T>> vstd::std_specs::ops::SubSpecImpl<Vector3<T>> for Point3<T> {
    open spec fn obeys_sub_spec() -> bool {
        T::obeys_sub_spec()
    }

    open spec fn sub_req(self, rhs: Vector3<T>) -> bool {
        self.x.sub_req(rhs.x) && self.y.sub_req(rhs.y) && self.z.sub_req(rhs.z)
    }

    open spec fn sub_spec(self, rhs: Vector3<T>) -> Self {
        Point3 {
            x: self.x.sub_spec(rhs.x),
            y: self.y.sub_spec(rhs.y),
            z: self.z.sub_spec(rhs.z),
        }
    }
}

impl<T: core::ops::Sub<Output = T>> core::ops::Sub<Vector3<T>> for Point3<T> {
    type Output = Self;

    /// Displaces the point by the opposite of a vector.
    fn sub(self, other: Vector3<T>) -> Self {
        Point3 { x: self.x - other.x, y: self.y - other.y, z: self.z - other.z }
    }
}

impl<T: core::ops::Sub<Output = T>> vstd::std_specs::ops::SubSpecImpl<Point3<T>> for Point3<T> {
    open spec fn obeys_sub_spec() -> bool {
        T::obeys_sub_spec()
    }

    open spec fn sub_req(self, rhs: Point3<T>) -> bool {
        self.x.sub_req(rhs.x) && self.y.sub_req(rhs.y) && self.z.sub_req(rhs.z)
    }

    open spec fn sub_spec(self, rhs: Point3<T>) -> Vector3<T> {
        Vector3 {
            x: self.x.sub_spec(rhs.x),
            y: self.y.sub_spec(rhs.y),
            z: self.z.sub_spec(rhs.z),
        }
    }
}

impl<T: core::ops::Sub<Output = T>> core::ops::Sub<Point3<T>> for Point3<T> {
    type Output = Vector3<T>;

    /// The displacement from `other` to this point.
    fn sub(self, other: Point3<T>) -> Vector3<T> {
        Vector3 { x: self.x - other.x, y: self.y - other.y, z: self.z - other.z }
    }
}

impl<T: core::ops::Mul<Output = T> + Copy> vstd::std_specs::ops::MulSpecImpl<T> for Point3<T> {
    open spec fn obeys_mul_spec() -> bool {
        T::obeys_mul_spec()
    }

    open spec fn mul_req(self, rhs: T) -> bool {
        self.x.mul_req(rhs) && self.y.mul_req(rhs) && self.z.mul_req(rhs)
    }

    open spec fn mul_spec(self, rhs: T) -> Self {
        Point3 { x: self.x.mul_spec(rhs), y: self.y.mul_spec(rhs), z: self.z.mul_spec(rhs) }
    }
}

impl<T: core::ops::Mul<Output = T> + Copy> core::ops::Mul<T> for Point3<T> {
    type Output = Self;

    /// Scales each component by the scalar `other`.
    fn mul(self, other: T) -> Self {
        Point3 { x: self.x * other, y: self.y * other, z: self.z * other }
    }
}

impl<T: core::ops::Div<Output = T> + Copy> vstd::std_specs::ops::DivSpecImpl<T> for Point3<T> {
    open spec fn obeys_div_spec() -> bool {
        T::obeys_div_spec()
    }

    open spec fn div_req(self, rhs: T) -> bool {
        self.x.div_req(rhs) && self.y.div_req(rhs) && self.z.div_req(rhs)
    }

    open spec fn div_spec(self, rhs: T) -> Self {
        Point3 { x: self.x.div_spec(rhs), y: self.y.div_spec(rhs), z: self.z.div_spec(rhs) }
    }
}

impl<T: core::ops::Div<Output = T> + Copy> core::ops::Div<T> for Point3<T> {
    type Output = Self;

    /// Divides each component by the scalar `other`.
    fn div(self, other: T) -> Self {
        Point3 { x: self.x / other, y: self.y / other, z: self.z / other }
    }
}

impl<T: core::ops::Neg<Output = T>> vstd::std_specs::ops::NegSpecImpl for Point3<T> {
    open spec fn obeys_neg_spec() -> bool {
        T::obeys_neg_spec()
    }

    open spec fn neg_req(self) -> bool {
        self.x.neg_req() && self.y.neg_req() && self.z.neg_req()
    }

    open spec fn neg_spec(self) -> Self {
        Point3 { x: self.x.neg_spec(), y: self.y.neg_spec(), z: self.z.neg_spec() }
    }
}

impl<T: core::ops::Neg<Output = T>> core::ops::Neg for Point3<T> {
    type Output = Self;

    /// Componentwise negation.
    fn neg(self) -> Self {
        Point3 { x: self.x.neg(), y: self.y.neg(), z: self.z.neg() }
    }
}

impl vstd::std_specs::ops::MulSpecImpl<Point2i> for i16 {
    open spec fn obeys_mul_spec() -> bool {
        true
    }

    open spec fn mul_req(self, rhs: Point2i) -> bool {
        MulSpec::mul_req(rhs, self)
    }

    open spec fn mul_spec(self, rhs: Point2i) -> Point2i {
        MulSpec::mul_spec(rhs, self)
    }
}

impl core::ops::Mul<Point2i> for i16 {
    type Output = Point2i;

    /// The commuted scalar product: `s * p` agrees with `p * s`.
    fn mul(self, p: Point2i) -> Point2i {
        p * self
    }
}

impl vstd::std_specs::ops::MulSpecImpl<Point3i> for i16 {
    open spec fn obeys_mul_spec() -> bool {
        true
    }

    open spec fn mul_req(self, rhs: Point3i) -> bool {
        MulSpec::mul_req(rhs, self)
    }

    open spec fn mul_spec(self, rhs: Point3i) -> Point3i {
        MulSpec::mul_spec(rhs, self)
    }
}

impl core::ops::Mul<Point3i> for i16 {
    type Output = Point3i;

    /// The commuted scalar product: `s * p` agrees with `p * s`.
    fn mul(self, p: Point3i) -> Point3i {
        p * self
    }
}

impl<T> core::ops::Index<usize> for Point2<T> {
    type Output = T;

    /// Component access by axis index: `0` is x, `1` is y.
    fn index(&self, index: usize) -> (r: &T)
        ensures
            *r == self.axis(index as int),
    {
        if index == 0 {
            &self.x
        } else {
            &self.y
        }
    }
}

impl<T> vstd::std_specs::core::IndexSpecImpl<usize> for Point2<T> {
    open spec fn index_req(&self, index: &usize) -> bool {
        *index < 2
    }
}

impl<T> core::ops::Index<usize> for Point3<T> {
    type Output = T;

    /// Component access by axis index: `0` is x, `1` is y, `2` is z.
    fn index(&self, index: usize) -> (r: &T)
        ensures
            *r == self.axis(index as int),
    {
        if index == 0 {
            &self.x
        } else if index == 1 {
            &self.y
        } else {
            &self.z
        }
    }
}

impl<T> vstd::std_specs::core::IndexSpecImpl<usize> for Point3<T> {
    open spec fn index_req(&self, index: &usize) -> bool {
        *index < 3
    }
}

impl Point2<i16> {
    /// Displaces the point backwards by a vector.
    pub fn sub_vector(&self, v: Vector2<i16>) -> (r: Self)
        requires
            fits_i16(self.x - v.x),
            fits_i16(self.y - v.y),
        ensures
            r.x as int == self.x - v.x,
            r.y as int == self.y - v.y,
    {
        Point2 { x: self.x - v.x, y: self.y - v.y }
    }

    /// Displaces the point by a vector.
    pub fn add_vector(&self, v: Vector2<i16>) -> (r: Self)
        requires
            fits_i16(self.x + v.x),
            fits_i16(self.y + v.y),
        ensures
            r.x as int == self.x + v.x,
            r.y as int == self.y + v.y,
    {
        Point2 { x: self.x + v.x, y: self.y + v.y }
    }

    /// The squared distance between the two points, where it fits the
    /// component type.
    pub fn length_squared(p1: Self, p2: Self) -> (r: i16)
        requires
            fits_i16(point2_distance_squared(p1@, p2@)),
        ensures
            r as int == point2_distance_squared(p1@, p2@),
    {
        let dx: i64 = (p1.x as i64) - (p2.x as i64);
        let dy: i64 = (p1.y as i64) - (p2.y as i64);
        proof {
            lemma_mul_le(dx as int, dx as int, 0x10000, 0x10000);
            lemma_mul_le(dy as int, dy as int, 0x10000, 0x10000);
        }
        let s: i64 = dx * dx + dy * dy;
        s as i16
    }

    /// The componentwise minimum of two points.
    pub fn min(p0: &Self, p1: &Self) -> (r: Self)
        ensures
            r@ == point2_min(p0@, p1@),
    {
        Point2 {
            x: if p0.x <= p1.x { p0.x } else { p1.x },
            y: if p0.y <= p1.y { p0.y } else { p1.y },
        }
    }

    /// The componentwise maximum of two points.
    pub fn max(p0: &Self, p1: &Self) -> (r: Self)
        ensures
            r@ == point2_max(p0@, p1@),
    {
        Point2 {
            x: if p0.x >= p1.x { p0.x } else { p1.x },
            y: if p0.y >= p1.y { p0.y } else { p1.y },
        }
    }
}

impl Point3<i16> {
    /// Displaces the point backwards by a vector.
    pub fn sub_vector(&self, v: Vector3<i16>) -> (r: Self)
        requires
            fits_i16(self.x - v.x),
            fits_i16(self.y - v.y),
            fits_i16(self.z - v.z),
        ensures
            r.x as int == self.x - v.x,
            r.y as int == self.y - v.y,
            r.z as int == self.z - v.z,
    {
        Point3 { x: self.x - v.x, y: self.y - v.y, z: self.z - v.z }
    }

    /// Displaces the point by a vector.
    pub fn add_vector(&self, v: Vector3<i16>) -> (r: Self)
        requires
            fits_i16(self.x + v.x),
            fits_i16(self.y + v.y),
            fits_i16(self.z + v.z),
        ensures
            r.x as int == self.x + v.x,
            r.y as int == self.y + v.y,
            r.z as int == self.z + v.z,
    {
        Point3 { x: self.x + v.x, y: self.y + v.y, z: self.z + v.z }
    }

    /// The componentwise sum of two points, a convenience for interpolation.
    pub fn add_point(p0: Self, p1: Self) -> (r: Self)
        requires
            fits_i16(p0.x + p1.x),
            fits_i16(p0.y + p1.y),
            fits_i16(p0.z + p1.z),
        ensures
            r.x as int == p0.x + p1.x,
            r.y as int == p0.y + p1.y,
            r.z as int == p0.z + p1.z,
    {
        Point3 { x: p0.x + p1.x, y: p0.y + p1.y, z: p0.z + p1.z }
    }

    /// The squared distance between the two points, where it fits the
    /// component type.
    pub fn length_squared(p1: Self, p2: Self) -> (r: i16)
        requires
            fits_i16(point3_distance_squared(p1@, p2@)),
        ensures
            r as int == point3_distance_squared(p1@, p2@),
    {
        let dx: i64 = (p1.x as i64) - (p2.x as i64);
        let dy: i64 = (p1.y as i64) - (p2.y as i64);
        let dz: i64 = (p1.z as i64) - (p2.z as i64);
        proof {
            lemma_mul_le(dx as int, dx as int, 0x10000, 0x10000);
            lemma_mul_le(dy as int, dy as int, 0x10000, 0x10000);
            lemma_mul_le(dz as int, dz as int, 0x10000, 0x10000);
        }
        let s: i64 = dx * dx + dy * dy + dz * dz;
        s as i16
    }

    /// The componentwise minimum of two points.
    pub fn min(p0: &Self, p1: &Self) -> (r: Self)
        ensures
            r@ == point3_min(p0@, p1@),
    {
        Point3 {
            x: if p0.x <= p1.x { p0.x } else { p1.x },
            y: if p0.y <= p1.y { p0.y } else { p1.y },
            z: if p0.z <= p1.z { p0.z } else { p1.z },
        }
    }

    /// The componentwise maximum of two points.
    pub fn max(p0: &Self, p1: &Self) -> (r: Self)
        ensures
            r@ == point3_max(p0@, p1@),
    {
        Point3 {
            x: if p0.x >= p1.x { p0.x } else { p1.x },
            y: if p0.y >= p1.y { p0.y } else { p1.y },
            z: if p0.z >= p1.z { p0.z } else { p1.z },
        }
    }
}

/// Wherever the componentwise differences are representable, the executable
/// point subtraction computes the displacement of the mathematical model.
pub proof fn lemma_point2_sub_matches_model(p: Point2i, q: Point2i)
    requires
        SubSpec::sub_req(p, q),
    ensures
        SubSpec::sub_spec(p, q)@ == point2_sub(p@, q@),
{
}

/// Wherever the componentwise differences are representable, the executable
/// point subtraction computes the displacement of the mathematical model.
pub proof fn lemma_point3_sub_matches_model(p: Point3i, q: Point3i)
    requires
        SubSpec::sub_req(p, q),
    ensures
        SubSpec::sub_spec(p, q)@ == point3_sub(p@, q@),
{
}

/// Wherever the componentwise sums are representable, the executable
/// point-plus-vector computes the displacement of the mathematical model.
pub proof fn lemma_point2_add_matches_model(p: Point2i, v: Vector2<i16>)
    requires
        AddSpec::add_req(p, v),
    ensures
        AddSpec::add_spec(p, v)@ == point2_add_vector(p@, v@),
{
}

/// Wherever the componentwise sums are representable, the executable
/// point-plus-vector computes the displacement of the mathematical model.
pub proof fn lemma_point3_add_matches_model(p: Point3i, v: Vector3<i16>)
    requires
        AddSpec::add_req(p, v),
    ensures
        AddSpec::add_spec(p, v)@ == point3_add_vector(p@, v@),
{
}

/// Over the mathematical model, point/vector duality has no side condition:
/// adding the displacement `p - q` back onto `q` recovers `p`.
pub proof fn lemma_point2_sub_add_duality_model(p: Point2<int>, q: Point2<int>)
    ensures
        point2_add_vector(q, point2_sub(p, q)) == p,
{
}

/// Over the mathematical model, point/vector duality has no side condition:
/// adding the displacement `p - q` back onto `q` recovers `p`.
pub proof fn lemma_point3_sub_add_duality_model(p: Point3<int>, q: Point3<int>)
    ensures
        point3_add_vector(q, point3_sub(p, q)) == p,
{
}

/// Point/vector duality: adding the displacement `p - q` back onto `q`
/// recovers `p`, wherever the displacement is representable.
pub proof fn lemma_point2_sub_add_duality(p: Point2i, q: Point2i)
    requires
        SubSpec::sub_req(p, q),
    ensures
        AddSpec::add_spec(q, SubSpec::sub_spec(p, q)) == p,
{
}

/// Point/vector duality: adding the displacement `p - q` back onto `q`
/// recovers `p`, wherever the displacement is representable.
pub proof fn lemma_point3_sub_add_duality(p: Point3i, q: Point3i)
    requires
        SubSpec::sub_req(p, q),
    ensures
        AddSpec::add_spec(q, SubSpec::sub_spec(p, q)) == p,
{
}

} // verus!

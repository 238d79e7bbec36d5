//! Free displacement vectors in two and three dimensions.
//!
//! The structures are generic over the component type `T`; the arithmetic
//! operators are verified generically against the component type's own
//! operator contracts, and the order- and overflow-sensitive operations are
//! verified on the 16-bit integer instantiations `Vector2i` and `Vector3i`.
//! Contracts about those instantiations are stated over the mathematical
//! model `Vector2<int>` / `Vector3<int>`.

use vstd::prelude::*;
use vstd::std_specs::ops::{AddSpec, SubSpec, MulSpec, DivSpec, NegSpec};
use vstd::std_specs::convert::IntoSpec;
use crate::scalar::{fits_i16, lemma_mul_le};

verus! {

/// A two-dimensional displacement vector.
#[derive(Copy, Clone, PartialEq, PartialOrd, Hash, Debug, Default)]
pub struct Vector2<T> {
    pub x: T,
    pub y: T,
}

/// A three-dimensional displacement vector.
#[derive(Copy, Clone, PartialEq, PartialOrd, Hash, Debug, Default)]
pub struct Vector3<T> {
    pub x: T,
    pub y: T,
    pub z: T,
}

pub type Vector2i = Vector2<i16>;

pub type Vector3i = Vector3<i16>;

impl View for Vector2<i16> {
    type V = Vector2<int>;

    open spec fn view(&self) -> Vector2<int> {
        Vector2 { x: self.x as int, y: self.y as int }
    }
}

impl View for Vector3<i16> {
    type V = Vector3<int>;

    open spec fn view(&self) -> Vector3<int> {
        Vector3 { x: self.x as int, y: self.y as int, z: self.z as int }
    }
}

/// The dot product over the mathematical model.
pub open spec fn vector2_dot(a: Vector2<int>, b: Vector2<int>) -> int {
    a.x * b.x + a.y * b.y
}

/// The dot product over the mathematical model.
pub open spec fn vector3_dot(a: Vector3<int>, b: Vector3<int>) -> int {
    a.x * b.x + a.y * b.y + a.z * b.z
}

/// The determinant-expansion cross product over the mathematical model.
pub open spec fn vector3_cross(a: Vector3<int>, b: Vector3<int>) -> Vector3<int> {
    Vector3 {
        x: a.y * b.z - a.z * b.y,
        y: a.z * b.x - a.x * b.z,
        z: a.x * b.y - a.y * b.x,
    }
}

/// Componentwise addition over the mathematical model.
pub open spec fn vector2_add(a: Vector2<int>, b: Vector2<int>) -> Vector2<int> {
    Vector2 { x: a.x + b.x, y: a.y + b.y }
}

/// Scaling by a scalar over the mathematical model.
pub open spec fn vector2_scale(a: Vector2<int>, s: int) -> Vector2<int> {
    Vector2 { x: a.x * s, y: a.y * s }
}

/// Componentwise addition over the mathematical model.
pub open spec fn vector3_add(a: Vector3<int>, b: Vector3<int>) -> Vector3<int> {
    Vector3 { x: a.x + b.x, y: a.y + b.y, z: a.z + b.z }
}

/// Componentwise negation over the mathematical model.
pub open spec fn vector3_neg(a: Vector3<int>) -> Vector3<int> {
    Vector3 { x: -a.x, y: -a.y, z: -a.z }
}

/// Scaling by a scalar over the mathematical model.
pub open spec fn vector3_scale(a: Vector3<int>, s: int) -> Vector3<int> {
    Vector3 { x: a.x * s, y: a.y * s, z: a.z * s }
}

impl<T> Vector2<T> {
    /// The component selected by an axis index: `0` is x, `1` is y.
    pub open spec fn axis(self, i: int) -> T {
        if i == 0 {
            self.x
        } else {
            self.y
        }
    }

    /// Builds the vector with the given components.
    pub fn new(x: T, y: T) -> (r: Self)
        ensures
            r.x == x,
            r.y == y,
    {
        Vector2 { x, y }
    }

    /// Converts another component type into `T`, componentwise.
    pub fn into<U: Into<T> + Copy>(v: &Vector2<U>) -> (r: Vector2<T>)
        ensures
            <U as IntoSpec<T>>::obeys_into_spec() ==> r.x == v.x.into_spec() && r.y
                == v.y.into_spec(),
    {
        Vector2 { x: v.x.into(), y: v.y.into() }
    }
}

impl<T> Vector3<T> {
    /// The component selected by an axis index: `0` is x, `1` is y, `2` is z.
    pub open spec fn axis(self, i: int) -> T {
        if i == 0 {
            self.x
        } else if i == 1 {
            self.y
        } else {
            self.z
        }
    }

    /// Builds the vector with the given components.
    pub fn new(x: T, y: T, z: T) -> (r: Self)
        ensures
            r.x == x,
            r.y == y,
            r.z == z,
    {
        Vector3 { x, y, z }
    }

    /// Converts another component type into `T`, componentwise.
    pub fn into<U: Into<T> + Copy>(v: &Vector3<U>) -> (r: Vector3<T>)
        ensures
            <U as IntoSpec<T>>::obeys_into_spec() ==> r.x == v.x.into_spec() && r.y
                == v.y.into_spec() && r.z == v.z.into_spec(),
    {
        Vector3 { x: v.x.into(), y: v.y.into(), z: v.z.into() }
    }
}

impl<T: Copy> Vector3<T> {
    /// Re-orders the components by three axis indices.
    pub fn permute(v: Self, x: usize, y: usize, z: usize) -> (r: Self)
        requires
            x < 3,
            y < 3,
            z < 3,
        ensures
            r.x == v.axis(x as int),
            r.y == v.axis(y as int),
            r.z == v.axis(z as int),
    {
        Vector3 { x: v[x], y: v[y], z: v[z] }
    }
}

impl<T: core::ops::Add<Output = T>> vstd::std_specs::ops::AddSpecImpl for Vector2<T> {
    open spec fn obeys_add_spec() -> bool {
        T::obeys_add_spec()
    }

    open spec fn add_req(self, rhs: Self) -> bool {
        self.x.add_req(rhs.x) && self.y.add_req(rhs.y)
    }

    open spec fn add_spec(self, rhs: Self) -> Self {
        Vector2 { x: self.x.add_spec(rhs.x), y: self.y.add_spec(rhs.y) }
    }
}

impl<T: core::ops::Add<Output = T>> core::ops::Add for Vector2<T> {
    type Output = Self;

    /// Componentwise vector addition.
    fn add(self, other: Self) -> Self {
        Vector2 { x: self.x + other.x, y: self.y + other.y }
    }
}

impl<T: core::ops::Sub<Output = T>> vstd::std_specs::ops::SubSpecImpl for Vector2<T> {
    open spec fn obeys_sub_spec() -> bool {
        T::obeys_sub_spec()
    }

    open spec fn sub_req(self, rhs: Self) -> bool {
        self.x.sub_req(rhs.x) && self.y.sub_req(rhs.y)
    }

    open spec fn sub_spec(self, rhs: Self) -> Self {
        Vector2 { x: self.x.sub_spec(rhs.x), y: self.y.sub_spec(rhs.y) }
    }
}

impl<T: core::ops::Sub<Output = T>> core::ops::Sub for Vector2<T> {
    type Output = Self;

    /// Componentwise vector subtraction.
    fn sub(self, other: Self) -> Self {
        Vector2 { x: self.x - other.x, y: self.y - other.y }
    }
}

impl<T: core::ops::Mul<Output = T> + Copy> vstd::std_specs::ops::MulSpecImpl<T> for Vector2<T> {
    open spec fn obeys_mul_spec() -> bool {
        T::obeys_mul_spec()
    }

    open spec fn mul_req(self, rhs: T) -> bool {
        self.x.mul_req(rhs) && self.y.mul_req(rhs)
    }

    open spec fn mul_spec(self, rhs: T) -> Self {
        Vector2 { x: self.x.mul_spec(rhs), y: self.y.mul_spec(rhs) }
    }
}

impl<T: core::ops::Mul<Output = T> + Copy> core::ops::Mul<T> for Vector2<T> {
    type Output = Self;

    /// Scales each component by the scalar `other`.
    fn mul(self, other: T) -> Self {
        Vector2 { x: self.x * other, y: self.y * other }
    }
}

impl<T: core::ops::Div<Output = T> + Copy> vstd::std_specs::ops::DivSpecImpl<T> for Vector2<T> {
    open spec fn obeys_div_spec() -> bool {
        T::obeys_div_spec()
    }

    open spec fn div_req(self, rhs: T) -> bool {
        self.x.div_req(rhs) && self.y.div_req(rhs)
    }

    open spec fn div_spec(self, rhs: T) -> Self {
        Vector2 { x: self.x.div_spec(rhs), y: self.y.div_spec(rhs) }
    }
}

impl<T: core::ops::Div<Output = T> + Copy> core::ops::Div<T> for Vector2<T> {
    type Output = Self;

    /// Divides each component by the scalar `other`.
    fn div(self, other: T) -> Self {
        Vector2 { x: self.x / other, y: self.y / other }
    }
}

impl<T: core::ops::Neg<Output = T>> vstd::std_specs::ops::NegSpecImpl for Vector2<T> {
    open spec fn obeys_neg_spec() -> bool {
        T::obeys_neg_spec()
    }

    open spec fn neg_req(self) -> bool {
        self.x.neg_req() && self.y.neg_req()
    }

    open spec fn neg_spec(self) -> Self {
        Vector2 { x: self.x.neg_spec(), y: self.y.neg_spec() }
    }
}

impl<T: core::ops::Neg<Output = T>> core::ops::Neg for Vector2<T> {
    type Output = Self;

    /// Componentwise negation.
    fn neg(self) -> Self {
        Vector2 { x: self.x.neg(), y: self.y.neg() }
    }
}

impl<T: core::ops::Add<Output = T>> vstd::std_specs::ops::AddSpecImpl for Vector3<T> {
    open spec fn obeys_add_spec() -> bool {
        T::obeys_add_spec()
    }

    open spec fn add_req(self, rhs: Self) -> bool {
        self.x.add_req(rhs.x) && self.y.add_req(rhs.y) && self.z.add_req(rhs.z)
    }

    open spec fn add_spec(self, rhs: Self) -> Self {
        Vector3 {
            x: self.x.add_spec(rhs.x),
            y: self.y.add_spec(rhs.y),
            z: self.z.add_spec(rhs.z),
        }
    }
}

impl<T: core::ops::Add<Output = T>> core::ops::Add for Vector3<T> {
    type Output = Self;

    /// Componentwise vector addition.
    fn add(self, other: Self) -> Self {
        Vector3 { x: self.x + other.x, y: self.y + other.y, z: self.z + other.z }
    }
}

impl<T: core::ops::Sub<Output = T>> vstd::std_specs::ops::SubSpecImpl for Vector3<T> {
    open spec fn obeys_sub_spec() -> bool {
        T::obeys_sub_spec()
    }

    open spec fn sub_req(self, rhs: Self) -> bool {
        self.x.sub_req(rhs.x) && self.y.sub_req(rhs.y) && self.z.sub_req(rhs.z)
    }

    open spec fn sub_spec(self, rhs: Self) -> Self {
        Vector3 {
            x: self.x.sub_spec(rhs.x),
            y: self.y.sub_spec(rhs.y),
            z: self.z.sub_spec(rhs.z),
        }
    }
}

impl<T: core::ops::Sub<Output = T>> core::ops::Sub for Vector3<T> {
    type Output = Self;

    /// Componentwise vector subtraction.
    fn sub(self, other: Self) -> Self {
        Vector3 { x: self.x - other.x, y: self.y - other.y, z: self.z - other.z }
    }
}

impl<T: core::ops::Mul<Output = T> + Copy> vstd::std_specs::ops::MulSpecImpl<T> for Vector3<T> {
    open spec fn obeys_mul_spec() -> bool {
        T::obeys_mul_spec()
    }

    open spec fn mul_req(self, rhs: T) -> bool {
        self.x.mul_req(rhs) && self.y.mul_req(rhs) && self.z.mul_req(rhs)
    }

    open spec fn mul_spec(self, rhs: T) -> Self {
        Vector3 { x: self.x.mul_spec(rhs), y: self.y.mul_spec(rhs), z: self.z.mul_spec(rhs) }
    }
}

impl<T: core::ops::Mul<Output = T> + Copy> core::ops::Mul<T> for Vector3<T> {
    type Output = Self;

    /// Scales each component by the scalar `other`.
    fn mul(self, other: T) -> Self {
        Vector3 { x: self.x * other, y: self.y * other, z: self.z * other }
    }
}

impl<T: core::ops::Div<Output = T> + Copy> vstd::std_specs::ops::DivSpecImpl<T> for Vector3<T> {
    open spec fn obeys_div_spec() -> bool {
        T::obeys_div_spec()
    }

    open spec fn div_req(self, rhs: T) -> bool {
        self.x.div_req(rhs) && self.y.div_req(rhs) && self.z.div_req(rhs)
    }

    open spec fn div_spec(self, rhs: T) -> Self {
        Vector3 { x: self.x.div_spec(rhs), y: self.y.div_spec(rhs), z: self.z.div_spec(rhs) }
    }
}

impl<T: core::ops::Div<Output = T> + Copy> core::ops::Div<T> for Vector3<T> {
    type Output = Self;

    /// Divides each component by the scalar `other`.
    fn div(self, other: T) -> Self {
        Vector3 { x: self.x / other, y: self.y / other, z: self.z / other }
    }
}

impl<T: core::ops::Neg<Output = T>> vstd::std_specs::ops::NegSpecImpl for Vector3<T> {
    open spec fn obeys_neg_spec() -> bool {
        T::obeys_neg_spec()
    }

    open spec fn neg_req(self) -> bool {
        self.x.neg_req() && self.y.neg_req() && self.z.neg_req()
    }

    open spec fn neg_spec(self) -> Self {
        Vector3 { x: self.x.neg_spec(), y: self.y.neg_spec(), z: self.z.neg_spec() }
    }
}

impl<T: core::ops::Neg<Output = T>> core::ops::Neg for Vector3<T> {
    type Output = Self;

    /// Componentwise negation.
    fn neg(self) -> Self {
        Vector3 { x: self.x.neg(), y: self.y.neg(), z: self.z.neg() }
    }
}

impl vstd::std_specs::ops::MulSpecImpl<Vector2i> for i16 {
    open spec fn obeys_mul_spec() -> bool {
        true
    }

    open spec fn mul_req(self, rhs: Vector2i) -> bool {
        MulSpec::mul_req(rhs, self)
    }

    open spec fn mul_spec(self, rhs: Vector2i) -> Vector2i {
        MulSpec::mul_spec(rhs, self)
    }
}

impl core::ops::Mul<Vector2i> for i16 {
    type Output = Vector2i;

    /// The commuted scalar product: `s * v` agrees with `v * s`.
    fn mul(self, vec: Vector2i) -> Vector2i {
        vec * self
    }
}

impl vstd::std_specs::ops::MulSpecImpl<Vector3i> for i16 {
    open spec fn obeys_mul_spec() -> bool {
        true
    }

    open spec fn mul_req(self, rhs: Vector3i) -> bool {
        MulSpec::mul_req(rhs, self)
    }

    open spec fn mul_spec(self, rhs: Vector3i) -> Vector3i {
        MulSpec::mul_spec(rhs, self)
    }
}

impl core::ops::Mul<Vector3i> for i16 {
    type Output = Vector3i;

    /// The commuted scalar product: `s * v` agrees with `v * s`.
    fn mul(self, vec: Vector3i) -> Vector3i {
        vec * self
    }
}

impl<T> core::ops::Index<usize> for Vector2<T> {
    type Output = T;

    /// Component access by axis index: `0` is x, `1` is y.
    fn index(&self, index: usize) -> (r: &T)
        ensures
            *r == self.axis(index as int),
    {
        if index == 0 {
            &self.x
        } else {
            &self.y
        }
    }
}

impl<T> vstd::std_specs::core::IndexSpecImpl<usize> for Vector2<T> {
    open spec fn index_req(&self, index: &usize) -> bool {
        *index < 2
    }
}

impl<T> core::ops::Index<usize> for Vector3<T> {
    type Output = T;

    /// Component access by axis index: `0` is x, `1` is y, `2` is z.
    fn index(&self, index: usize) -> (r: &T)
        ensures
            *r == self.axis(index as int),
    {
        if index == 0 {
            &self.x
        } else if index == 1 {
            &self.y
        } else {
            &self.z
        }
    }
}

impl<T> vstd::std_specs::core::IndexSpecImpl<usize> for Vector3<T> {
    open spec fn index_req(&self, index: &usize) -> bool {
        *index < 3
    }
}

impl Vector2<i16> {
    /// The squared length `x*x + y*y`, for vectors short enough for it to fit.
    pub fn length_squared(&self) -> (r: i16)
        requires
            fits_i16(vector2_dot(self@, self@)),
        ensures
            r as int == vector2_dot(self@, self@),
    {
        proof {
            lemma_mul_le(self.x as int, self.x as int, 0x8000, 0x8000);
            lemma_mul_le(self.y as int, self.y as int, 0x8000, 0x8000);
        }
        let s: i64 = (self.x as i64) * (self.x as i64) + (self.y as i64) * (self.y as i64);
        s as i16
    }

    /// The dot product, for operands whose dot product fits the component type.
    pub fn dot(v1: &Self, v2: &Self) -> (r: i16)
        requires
            fits_i16(vector2_dot(v1@, v2@)),
        ensures
            r as int == vector2_dot(v1@, v2@),
    {
        proof {
            lemma_mul_le(v1.x as int, v2.x as int, 0x8000, 0x8000);
            lemma_mul_le(v1.y as int, v2.y as int, 0x8000, 0x8000);
        }
        let s: i64 = (v1.x as i64) * (v2.x as i64) + (v1.y as i64) * (v2.y as i64);
        s as i16
    }

    /// The smaller of the two components.
    pub fn min_component(&self) -> (r: i16)
        ensures
            r == vstd::math::min(self.x as int, self.y as int),
    {
        if self.x <= self.y {
            self.x
        } else {
            self.y
        }
    }

    /// The axis index of the largest component: x is compared against y on
    /// a strict ordering, so a tie prefers the later axis.
    pub fn max_dimension(&self) -> (r: usize)
        ensures
            r == (if self.x > self.y { 0int } else { 1int }),
            self.axis(r as int) >= self.x,
            self.axis(r as int) >= self.y,
    {
        if self.x > self.y {
            0
        } else {
            1
        }
    }
}

impl Vector2i {
    /// The componentwise absolute value.
    pub fn abs(v: &Self) -> (r: Self)
        requires
            v.x != i16::MIN,
            v.y != i16::MIN,
        ensures
            r.x == vstd::math::abs(v.x as int),
            r.y == vstd::math::abs(v.y as int),
    {
        Vector2 {
            x: if v.x < 0 { -v.x } else { v.x },
            y: if v.y < 0 { -v.y } else { v.y },
        }
    }
}

impl Vector3<i16> {
    /// The squared length `x*x + y*y + z*z`, where it fits the component type.
    pub fn length_squared(&self) -> (r: i16)
        requires
            fits_i16(vector3_dot(self@, self@)),
        ensures
            r as int == vector3_dot(self@, self@),
    {
        proof {
            lemma_mul_le(self.x as int, self.x as int, 0x8000, 0x8000);
            lemma_mul_le(self.y as int, self.y as int, 0x8000, 0x8000);
            lemma_mul_le(self.z as int, self.z as int, 0x8000, 0x8000);
        }
        let s: i64 = (self.x as i64) * (self.x as i64) + (self.y as i64) * (self.y as i64)
            + (self.z as i64) * (self.z as i64);
        s as i16
    }

    /// The dot product, for operands whose dot product fits the component type.
    pub fn dot(v1: &Self, v2: &Self) -> (r: i16)
        requires
            fits_i16(vector3_dot(v1@, v2@)),
        ensures
            r as int == vector3_dot(v1@, v2@),
    {
        proof {
            lemma_mul_le(v1.x as int, v2.x as int, 0x8000, 0x8000);
            lemma_mul_le(v1.y as int, v2.y as int, 0x8000, 0x8000);
            lemma_mul_le(v1.z as int, v2.z as int, 0x8000, 0x8000);
        }
        let s: i64 = (v1.x as i64) * (v2.x as i64) + (v1.y as i64) * (v2.y as i64)
            + (v1.z as i64) * (v2.z as i64);
        s as i16
    }

    /// The absolute value of the dot product.
    pub fn abs_dot(v1: &Self, v2: &Self) -> (r: i16)
        requires
            fits_i16(vstd::math::abs(vector3_dot(v1@, v2@)) as int),
        ensures
            r == vstd::math::abs(vector3_dot(v1@, v2@)),
    {
        let d: i16 = Self::dot(v1, v2);
        if d < 0 {
            -d
        } else {
            d
        }
    }

    /// The determinant-expansion cross product; order-sensitive.
    pub fn cross(v1: &Self, v2: &Self) -> (r: Self)
        requires
            fits_i16(vector3_cross(v1@, v2@).x),
            fits_i16(vector3_cross(v1@, v2@).y),
            fits_i16(vector3_cross(v1@, v2@).z),
        ensures
            r@ == vector3_cross(v1@, v2@),
    {
        proof {
            lemma_mul_le(v1.y as int, v2.z as int, 0x8000, 0x8000);
            lemma_mul_le(v1.z as int, v2.y as int, 0x8000, 0x8000);
            lemma_mul_le(v1.z as int, v2.x as int, 0x8000, 0x8000);
            lemma_mul_le(v1.x as int, v2.z as int, 0x8000, 0x8000);
            lemma_mul_le(v1.x as int, v2.y as int, 0x8000, 0x8000);
            lemma_mul_le(v1.y as int, v2.x as int, 0x8000, 0x8000);
        }
        let cx: i64 = (v1.y as i64) * (v2.z as i64) - (v1.z as i64) * (v2.y as i64);
        let cy: i64 = (v1.z as i64) * (v2.x as i64) - (v1.x as i64) * (v2.z as i64);
        let cz: i64 = (v1.x as i64) * (v2.y as i64) - (v1.y as i64) * (v2.x as i64);
        Vector3 { x: cx as i16, y: cy as i16, z: cz as i16 }
    }

    /// The smallest component.
    pub fn min_component(v: &Self) -> (r: i16)
        ensures
            r == vstd::math::min(v.x as int, vstd::math::min(v.y as int, v.z as int)),
    {
        let my: i16 = if v.y <= v.z { v.y } else { v.z };
        if v.x <= my { v.x } else { my }
    }

    /// The largest component.
    pub fn max_component(v: &Self) -> (r: i16)
        ensures
            r == vstd::math::max(v.x as int, vstd::math::max(v.y as int, v.z as int)),
    {
        let my: i16 = if v.y >= v.z { v.y } else { v.z };
        if v.x >= my { v.x } else { my }
    }

    /// The componentwise minimum of two vectors.
    pub fn min(v1: &Self, v2: &Self) -> (r: Self)
        ensures
            r.x == vstd::math::min(v1.x as int, v2.x as int),
            r.y == vstd::math::min(v1.y as int, v2.y as int),
            r.z == vstd::math::min(v1.z as int, v2.z as int),
    {
        Vector3 {
            x: if v1.x <= v2.x { v1.x } else { v2.x },
            y: if v1.y <= v2.y { v1.y } else { v2.y },
            z: if v1.z <= v2.z { v1.z } else { v2.z },
        }
    }

    /// The componentwise maximum of two vectors.
    pub fn max(v1: &Self, v2: &Self) -> (r: Self)
        ensures
            r.x == vstd::math::max(v1.x as int, v2.x as int),
            r.y == vstd::math::max(v1.y as int, v2.y as int),
            r.z == vstd::math::max(v1.z as int, v2.z as int),
    {
        Vector3 {
            x: if v1.x >= v2.x { v1.x } else { v2.x },
            y: if v1.y >= v2.y { v1.y } else { v2.y },
            z: if v1.z >= v2.z { v1.z } else { v2.z },
        }
    }

    /// The axis index of the largest component, on a strict-ordering cascade:
    /// x is compared against y, and the winner against z; ties prefer the
    /// later axis of the cascade.
    pub fn max_dimension(v: &Self) -> (r: usize)
        ensures
            r == (if v.x > v.y {
                if v.x > v.z { 0int } else { 2int }
            } else {
                if v.y > v.z { 1int } else { 2int }
            }),
            v.axis(r as int) >= v.x,
            v.axis(r as int) >= v.y,
            v.axis(r as int) >= v.z,
    {
        if v.x > v.y {
            if v.x > v.z { 0 } else { 2 }
        } else {
            if v.y > v.z { 1 } else { 2 }
        }
    }

}

impl Vector3i {
    /// The componentwise absolute value.
    pub fn abs(v: &Self) -> (r: Self)
        requires
            v.x != i16::MIN,
            v.y != i16::MIN,
            v.z != i16::MIN,
        ensures
            r.x == vstd::math::abs(v.x as int),
            r.y == vstd::math::abs(v.y as int),
            r.z == vstd::math::abs(v.z as int),
    {
        Vector3 {
            x: if v.x < 0 { -v.x } else { v.x },
            y: if v.y < 0 { -v.y } else { v.y },
            z: if v.z < 0 { -v.z } else { v.z },
        }
    }
}

/// Vector addition is commutative.
pub proof fn lemma_vector2_add_commutative(a: Vector2i, b: Vector2i)
    ensures
        a.add_spec(b) == b.add_spec(a),
{
}

/// Vector addition is associative wherever the partial sums stay in range.
pub proof fn lemma_vector2_add_associative(a: Vector2i, b: Vector2i, c: Vector2i)
    requires
        a.add_req(b),
        a.add_spec(b).add_req(c),
        b.add_req(c),
        a.add_req(b.add_spec(c)),
    ensures
        a.add_spec(b).add_spec(c) == a.add_spec(b.add_spec(c)),
{
}

/// Vector addition is commutative.
pub proof fn lemma_vector3_add_commutative(a: Vector3i, b: Vector3i)
    ensures
        a.add_spec(b) == b.add_spec(a),
{
}

/// Vector addition is associative wherever the partial sums stay in range.
pub proof fn lemma_vector3_add_associative(a: Vector3i, b: Vector3i, c: Vector3i)
    requires
        a.add_req(b),
        a.add_spec(b).add_req(c),
        b.add_req(c),
        a.add_req(b.add_spec(c)),
    ensures
        a.add_spec(b).add_spec(c) == a.add_spec(b.add_spec(c)),
{
}

/// Scaling distributes over vector addition wherever sums and products stay
/// in range.
pub proof fn lemma_vector2_scalar_distributive(a: Vector2i, b: Vector2i, s: i16)
    requires
        a.add_req(b),
        MulSpec::mul_req(a.add_spec(b), s),
        MulSpec::mul_req(a, s),
        MulSpec::mul_req(b, s),
        MulSpec::mul_spec(a, s).add_req(MulSpec::mul_spec(b, s)),
    ensures
        MulSpec::mul_spec(a.add_spec(b), s) == MulSpec::mul_spec(a, s).add_spec(
            MulSpec::mul_spec(b, s),
        ),
{
    assert((a.x + b.x) * s == a.x * s + b.x * s) by (nonlinear_arith);
    assert((a.y + b.y) * s == a.y * s + b.y * s) by (nonlinear_arith);
}

/// Scaling distributes over vector addition wherever sums and products stay
/// in range.
pub proof fn lemma_vector3_scalar_distributive(a: Vector3i, b: Vector3i, s: i16)
    requires
        a.add_req(b),
        MulSpec::mul_req(a.add_spec(b), s),
        MulSpec::mul_req(a, s),
        MulSpec::mul_req(b, s),
        MulSpec::mul_spec(a, s).add_req(MulSpec::mul_spec(b, s)),
    ensures
        MulSpec::mul_spec(a.add_spec(b), s) == MulSpec::mul_spec(a, s).add_spec(
            MulSpec::mul_spec(b, s),
        ),
{
    assert((a.x + b.x) * s == a.x * s + b.x * s) by (nonlinear_arith);
    assert((a.y + b.y) * s == a.y * s + b.y * s) by (nonlinear_arith);
    assert((a.z + b.z) * s == a.z * s + b.z * s) by (nonlinear_arith);
}

/// Wherever the componentwise sums are representable, the executable `+`
/// computes vector addition over the mathematical model.
pub proof fn lemma_vector2_add_matches_model(a: Vector2i, b: Vector2i)
    requires
        a.add_req(b),
    ensures
        a.add_spec(b)@ == vector2_add(a@, b@),
{
}

/// Wherever the componentwise sums are representable, the executable `+`
/// computes vector addition over the mathematical model.
pub proof fn lemma_vector3_add_matches_model(a: Vector3i, b: Vector3i)
    requires
        a.add_req(b),
    ensures
        a.add_spec(b)@ == vector3_add(a@, b@),
{
}

/// Wherever the componentwise products are representable, the executable `*`
/// computes scaling over the mathematical model.
pub proof fn lemma_vector2_mul_matches_model(a: Vector2i, s: i16)
    requires
        MulSpec::mul_req(a, s),
    ensures
        MulSpec::mul_spec(a, s)@ == vector2_scale(a@, s as int),
{
}

/// Wherever the componentwise products are representable, the executable `*`
/// computes scaling over the mathematical model.
pub proof fn lemma_vector3_mul_matches_model(a: Vector3i, s: i16)
    requires
        MulSpec::mul_req(a, s),
    ensures
        MulSpec::mul_spec(a, s)@ == vector3_scale(a@, s as int),
{
}

/// Over the mathematical model, vector addition is associative with no side
/// condition.
pub proof fn lemma_vector2_add_associative_model(a: Vector2<int>, b: Vector2<int>, c: Vector2<int>)
    ensures
        vector2_add(vector2_add(a, b), c) == vector2_add(a, vector2_add(b, c)),
{
}

/// Over the mathematical model, vector addition is associative with no side
/// condition.
pub proof fn lemma_vector3_add_associative_model(a: Vector3<int>, b: Vector3<int>, c: Vector3<int>)
    ensures
        vector3_add(vector3_add(a, b), c) == vector3_add(a, vector3_add(b, c)),
{
}

/// Over the mathematical model, scaling distributes over vector addition
/// with no side condition.
pub proof fn lemma_vector2_scalar_distributive_model(a: Vector2<int>, b: Vector2<int>, s: int)
    ensures
        vector2_scale(vector2_add(a, b), s) == vector2_add(
            vector2_scale(a, s),
            vector2_scale(b, s),
        ),
{
    assert((a.x + b.x) * s == a.x * s + b.x * s) by (nonlinear_arith);
    assert((a.y + b.y) * s == a.y * s + b.y * s) by (nonlinear_arith);
}

/// Over the mathematical model, scaling distributes over vector addition
/// with no side condition.
pub proof fn lemma_vector3_scalar_distributive_model(a: Vector3<int>, b: Vector3<int>, s: int)
    ensures
        vector3_scale(vector3_add(a, b), s) == vector3_add(
            vector3_scale(a, s),
            vector3_scale(b, s),
        ),
{
    assert((a.x + b.x) * s == a.x * s + b.x * s) by (nonlinear_arith);
    assert((a.y + b.y) * s == a.y * s + b.y * s) by (nonlinear_arith);
    assert((a.z + b.z) * s == a.z * s + b.z * s) by (nonlinear_arith);
}

/// Both scalar-product forms agree: `s * v` is `v * s`.
pub proof fn lemma_vector2_scalar_mul_symmetric(v: Vector2i, s: i16)
    ensures
        MulSpec::mul_spec(s, v) == MulSpec::mul_spec(v, s),
{
}

/// Both scalar-product forms agree: `s * v` is `v * s`.
pub proof fn lemma_vector3_scalar_mul_symmetric(v: Vector3i, s: i16)
    ensures
        MulSpec::mul_spec(s, v) == MulSpec::mul_spec(v, s),
{
}

/// The cross product is anti-commutative: `cross(a, b) == -cross(b, a)`.
pub proof fn lemma_vector3_cross_anticommutative(a: Vector3<int>, b: Vector3<int>)
    ensures
        vector3_cross(a, b) == vector3_neg(vector3_cross(b, a)),
{
    assert(a.y * b.z - a.z * b.y == -(b.y * a.z - b.z * a.y)) by (nonlinear_arith);
    assert(a.z * b.x - a.x * b.z == -(b.z * a.x - b.x * a.z)) by (nonlinear_arith);
    assert(a.x * b.y - a.y * b.x == -(b.x * a.y - b.y * a.x)) by (nonlinear_arith);
}

} // verus!

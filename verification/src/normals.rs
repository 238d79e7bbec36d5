//! Surface normals.
//!
//! A `Normal3` carries the same componentwise algebra as a `Vector3` but is
//! a distinct type, so that a later transform layer can apply the
//! inverse-transpose rule to normals without ever confusing them with
//! ordinary vectors. The two types convert only through the explicit
//! `from_vector3` / `to_vector3` functions.

use vstd::prelude::*;
use vstd::std_specs::ops::{AddSpec, SubSpec, MulSpec, DivSpec, NegSpec};
use vstd::std_specs::convert::IntoSpec;
use crate::scalar::{fits_i16, lemma_mul_le};
use crate::vectors::Vector3;

verus! {

/// A three-dimensional surface normal.
#[derive(Copy, Clone, PartialEq, PartialOrd, Hash, Debug, Default)]
pub struct Normal3<T> {
    pub x: T,
    pub y: T,
    pub z: T,
}

pub type Normal3i = Normal3<i16>;

impl View for Normal3<i16> {
    type V = Normal3<int>;

    open spec fn view(&self) -> Normal3<int> {
        Normal3 { x: self.x as int, y: self.y as int, z: self.z as int }
    }
}

impl<T> Normal3<T> {
    /// The component selected by an axis index: `0` is x, `1` is y, `2` is z.
    pub open spec fn axis(self, i: int) -> T {
        if i == 0 {
            self.x
        } else if i == 1 {
            self.y
        } else {
            self.z
        }
    }

    /// Builds the normal with the given components.
    pub fn new(x: T, y: T, z: T) -> (r: Self)
        ensures
            r.x == x,
            r.y == y,
            r.z == z,
    {
        Normal3 { x, y, z }
    }

    /// Converts another component type into `T`, componentwise.
    pub fn into<U: Into<T> + Copy>(v: &Normal3<U>) -> (r: Normal3<T>)
        ensures
            <U as IntoSpec<T>>::obeys_into_spec() ==> r.x == v.x.into_spec() && r.y
                == v.y.into_spec() && r.z == v.z.into_spec(),
    {
        Normal3 { x: v.x.into(), y: v.y.into(), z: v.z.into() }
    }

    /// The explicit conversion from a vector; nothing else turns a vector
    /// into a normal.
    pub fn from_vector3(v: Vector3<T>) -> (r: Self)
        ensures
            r.x == v.x,
            r.y == v.y,
            r.z == v.z,
    {
        Normal3 { x: v.x, y: v.y, z: v.z }
    }

    /// The explicit conversion to a vector; nothing else turns a normal into
    /// a vector.
    pub fn to_vector3(self) -> (r: Vector3<T>)
        ensures
            r.x == self.x,
            r.y == self.y,
            r.z == self.z,
    {
        Vector3 { x: self.x, y: self.y, z: self.z }
    }
}

impl<T: core::ops::Add<Output = T>> vstd::std_specs::ops::AddSpecImpl for Normal3<T> {
    open spec fn obeys_add_spec() -> bool {
        T::obeys_add_spec()
    }

    open spec fn add_req(self, rhs: Self) -> bool {
        self.x.add_req(rhs.x) && self.y.add_req(rhs.y) && self.z.add_req(rhs.z)
    }

    open spec fn add_spec(self, rhs: Self) -> Self {
        Normal3 {
            x: self.x.add_spec(rhs.x),
            y: self.y.add_spec(rhs.y),
            z: self.z.add_spec(rhs.z),
        }
    }
}

impl<T: core::ops::Add<Output = T>> core::ops::Add for Normal3<T> {
    type Output = Self;

    /// Componentwise addition.
    fn add(self, other: Self) -> Self {
        Normal3 { x: self.x + other.x, y: self.y + other.y, z: self.z + other.z }
    }
}

impl<T: core::ops::Sub<Output = T>> vstd::std_specs::ops::SubSpecImpl for Normal3<T> {
    open spec fn obeys_sub_spec() -> bool {
        T::obeys_sub_spec()
    }

    open spec fn sub_req(self, rhs: Self) -> bool {
        self.x.sub_req(rhs.x) && self.y.sub_req(rhs.y) && self.z.sub_req(rhs.z)
    }

    open spec fn sub_spec(self, rhs: Self) -> Self {
        Normal3 {
            x: self.x.sub_spec(rhs.x),
            y: self.y.sub_spec(rhs.y),
            z: self.z.sub_spec(rhs.z),
        }
    }
}

impl<T: core::ops::Sub<Output = T>> core::ops::Sub for Normal3<T> {
    type Output = Self;

    /// Componentwise subtraction.
    fn sub(self, other: Self) -> Self {
        Normal3 { x: self.x - other.x, y: self.y - other.y, z: self.z - other.z }
    }
}

impl<T: core::ops::Mul<Output = T> + Copy> vstd::std_specs::ops::MulSpecImpl<T> for Normal3<T> {
    open spec fn obeys_mul_spec() -> bool {
        T::obeys_mul_spec()
    }

    open spec fn mul_req(self, rhs: T) -> bool {
        self.x.mul_req(rhs) && self.y.mul_req(rhs) && self.z.mul_req(rhs)
    }

    open spec fn mul_spec(self, rhs: T) -> Self {
        Normal3 { x: self.x.mul_spec(rhs), y: self.y.mul_spec(rhs), z: self.z.mul_spec(rhs) }
    }
}

impl<T: core::ops::Mul<Output = T> + Copy> core::ops::Mul<T> for Normal3<T> {
    type Output = Self;

    /// Scales each component by the scalar `other`.
    fn mul(self, other: T) -> Self {
        Normal3 { x: self.x * other, y: self.y * other, z: self.z * other }
    }
}

impl<T: core::ops::Div<Output = T> + Copy> vstd::std_specs::ops::DivSpecImpl<T> for Normal3<T> {
    open spec fn obeys_div_spec() -> bool {
        T::obeys_div_spec()
    }

    open spec fn div_req(self, rhs: T) -> bool {
        self.x.div_req(rhs) && self.y.div_req(rhs) && self.z.div_req(rhs)
    }

    open spec fn div_spec(self, rhs: T) -> Self {
        Normal3 { x: self.x.div_spec(rhs), y: self.y.div_spec(rhs), z: self.z.div_spec(rhs) }
    }
}

impl<T: core::ops::Div<Output = T> + Copy> core::ops::Div<T> for Normal3<T> {
    type Output = Self;

    /// Divides each component by the scalar `other`.
    fn div(self, other: T) -> Self {
        Normal3 { x: self.x / other, y: self.y / other, z: self.z / other }
    }
}

impl<T: core::ops::Neg<Output = T>> vstd::std_specs::ops::NegSpecImpl for Normal3<T> {
    open spec fn obeys_neg_spec() -> bool {
        T::obeys_neg_spec()
    }

    open spec fn neg_req(self) -> bool {
        self.x.neg_req() && self.y.neg_req() && self.z.neg_req()
    }

    open spec fn neg_spec(self) -> Self {
        Normal3 { x: self.x.neg_spec(), y: self.y.neg_spec(), z: self.z.neg_spec() }
    }
}

impl<T: core::ops::Neg<Output = T>> core::ops::Neg for Normal3<T> {
    type Output = Self;

    /// Componentwise negation.
    fn neg(self) -> Self {
        Normal3 { x: self.x.neg(), y: self.y.neg(), z: self.z.neg() }
    }
}

impl vstd::std_specs::ops::MulSpecImpl<Normal3i> for i16 {
    open spec fn obeys_mul_spec() -> bool {
        true
    }

    open spec fn mul_req(self, rhs: Normal3i) -> bool {
        MulSpec::mul_req(rhs, self)
    }

    open spec fn mul_spec(self, rhs: Normal3i) -> Normal3i {
        MulSpec::mul_spec(rhs, self)
    }
}

impl core::ops::Mul<Normal3i> for i16 {
    type Output = Normal3i;

    /// The commuted scalar product: `s * n` agrees with `n * s`.
    fn mul(self, n: Normal3i) -> Normal3i {
        n * self
    }
}

impl<T> core::ops::Index<usize> for Normal3<T> {
    type Output = T;

    /// Component access by axis index: `0` is x, `1` is y, `2` is z.
    fn index(&self, index: usize) -> (r: &T)
        ensures
            *r == self.axis(index as int),
    {
        if index == 0 {
            &self.x
        } else if index == 1 {
            &self.y
        } else {
            &self.z
        }
    }
}

impl<T> vstd::std_specs::core::IndexSpecImpl<usize> for Normal3<T> {
    open spec fn index_req(&self, index: &usize) -> bool {
        *index < 3
    }
}

impl Normal3<i16> {
    /// The dot product, for operands whose dot product fits the component
    /// type.
    pub fn dot(v1: &Self, v2: &Self) -> (r: i16)
        requires
            fits_i16(v1.x * v2.x + v1.y * v2.y + v1.z * v2.z),
        ensures
            r as int == v1.x * v2.x + v1.y * v2.y + v1.z * v2.z,
    {
        proof {
            lemma_mul_le(v1.x as int, v2.x as int, 0x8000, 0x8000);
            lemma_mul_le(v1.y as int, v2.y as int, 0x8000, 0x8000);
            lemma_mul_le(v1.z as int, v2.z as int, 0x8000, 0x8000);
        }
        let s: i64 = (v1.x as i64) * (v2.x as i64) + (v1.y as i64) * (v2.y as i64)
            + (v1.z as i64) * (v2.z as i64);
        s as i16
    }

    /// The absolute value of the dot product.
    pub fn abs_dot(v1: &Self, v2: &Self) -> (r: i16)
        requires
            fits_i16(vstd::math::abs(v1.x * v2.x + v1.y * v2.y + v1.z * v2.z) as int),
        ensures
            r == vstd::math::abs(v1.x * v2.x + v1.y * v2.y + v1.z * v2.z),
    {
        let d: i16 = Self::dot(v1, v2);
        if d < 0 {
            -d
        } else {
            d
        }
    }

    /// The determinant-expansion cross product; order-sensitive.
    pub fn cross(v1: &Self, v2: &Self) -> (r: Self)
        requires
            fits_i16(v1.y * v2.z - v1.z * v2.y),
            fits_i16(v1.z * v2.x - v1.x * v2.z),
            fits_i16(v1.x * v2.y - v1.y * v2.x),
        ensures
            r.x as int == v1.y * v2.z - v1.z * v2.y,
            r.y as int == v1.z * v2.x - v1.x * v2.z,
            r.z as int == v1.x * v2.y - v1.y * v2.x,
    {
        proof {
            lemma_mul_le(v1.y as int, v2.z as int, 0x8000, 0x8000);
            lemma_mul_le(v1.z as int, v2.y as int, 0x8000, 0x8000);
            lemma_mul_le(v1.z as int, v2.x as int, 0x8000, 0x8000);
            lemma_mul_le(v1.x as int, v2.z as int, 0x8000, 0x8000);
            lemma_mul_le(v1.x as int, v2.y as int, 0x8000, 0x8000);
            lemma_mul_le(v1.y as int, v2.x as int, 0x8000, 0x8000);
        }
        let cx: i64 = (v1.y as i64) * (v2.z as i64) - (v1.z as i64) * (v2.y as i64);
        let cy: i64 = (v1.z as i64) * (v2.x as i64) - (v1.x as i64) * (v2.z as i64);
        let cz: i64 = (v1.x as i64) * (v2.y as i64) - (v1.y as i64) * (v2.x as i64);
        Normal3 { x: cx as i16, y: cy as i16, z: cz as i16 }
    }
}

} // verus!

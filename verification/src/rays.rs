//! Parametric rays and rays with auxiliary differentials.
//!
//! A ray is the half-line `o + d * t`; `t_max` bounds the useful parametric
//! range but is not enforced by `point`, whose callers clip against it
//! during intersection. A `RayDifferential` wraps a ray together with two
//! auxiliary rays that estimate a texture-filtering footprint; the auxiliary
//! fields are meaningful only while `has_differentials` is set, and hold
//! zeros otherwise.

use vstd::prelude::*;
use crate::scalar::{fits_i16, lemma_mul_le};
use crate::points::{Point3, point3_add_vector};
use crate::vectors::{Vector3, vector3_scale};

verus! {

/// A parametric half-line `o + d * t`, with the medium it travels in.
#[derive(Copy, Clone, PartialEq, PartialOrd, Debug, Default)]
pub struct Ray<T, M> {
    pub o: Point3<T>,
    pub d: Vector3<T>,
    pub t_max: T,
    pub time: T,
    pub medium: Option<M>,
}

/// A ray and two auxiliary rays for texture-filtering footprint estimation.
#[derive(Copy, Clone, PartialEq, PartialOrd, Debug, Default)]
pub struct RayDifferential<T, M> {
    pub ray: Ray<T, M>,
    pub has_differentials: bool,
    pub rx_origin: Point3<T>,
    pub ry_origin: Point3<T>,
    pub rx_direction: Vector3<T>,
    pub ry_direction: Vector3<T>,
}

/// Ray evaluation `o + d * t`, over the mathematical model.
pub open spec fn ray_point(o: Point3<int>, d: Vector3<int>, t: int) -> Point3<int> {
    Point3 { x: o.x + d.x * t, y: o.y + d.y * t, z: o.z + d.z * t }
}

/// Pulling `aux` toward `base` by the factor `s`, over the mathematical
/// model: the result is `base + (aux - base) * s`.
pub open spec fn scale_toward(base: int, aux: int, s: int) -> int {
    base + (aux - base) * s
}

impl<T, M> Ray<T, M> {
    /// Builds the ray from its origin, direction, parametric range, time and
    /// medium.
    pub fn new(o: Point3<T>, d: Vector3<T>, t_max: T, time: T, medium: Option<M>) -> (r: Self)
        ensures
            r.o == o,
            r.d == d,
            r.t_max == t_max,
            r.time == time,
            r.medium == medium,
    {
        Ray { o, d, t_max, time, medium }
    }
}

impl<M> Ray<i16, M> {
    /// The point `o + d * t` on the ray; `t` is not clipped against `t_max`.
    pub fn point(&self, t: i16) -> (r: Point3<i16>)
        requires
            fits_i16(ray_point(self.o@, self.d@, t as int).x),
            fits_i16(ray_point(self.o@, self.d@, t as int).y),
            fits_i16(ray_point(self.o@, self.d@, t as int).z),
        ensures
            r@ == ray_point(self.o@, self.d@, t as int),
    {
        proof {
            lemma_mul_le(self.d.x as int, t as int, 0x8000, 0x8000);
            lemma_mul_le(self.d.y as int, t as int, 0x8000, 0x8000);
            lemma_mul_le(self.d.z as int, t as int, 0x8000, 0x8000);
        }
        let px: i64 = (self.o.x as i64) + (self.d.x as i64) * (t as i64);
        let py: i64 = (self.o.y as i64) + (self.d.y as i64) * (t as i64);
        let pz: i64 = (self.o.z as i64) + (self.d.z as i64) * (t as i64);
        Point3 { x: px as i16, y: py as i16, z: pz as i16 }
    }
}

/// Pulls one auxiliary component toward its primary component by `s`.
fn scale_component(base: i16, aux: i16, s: i16) -> (r: i16)
    requires
        fits_i16(scale_toward(base as int, aux as int, s as int)),
    ensures
        r as int == scale_toward(base as int, aux as int, s as int),
{
    proof {
        lemma_mul_le((aux as int) - (base as int), s as int, 0x10000, 0x8000);
    }
    let v: i64 = (base as i64) + ((aux as i64) - (base as i64)) * (s as i64);
    v as i16
}

impl<T, M> RayDifferential<T, M> {
    /// The primary ray.
    pub fn ray(&self) -> (r: &Ray<T, M>)
        ensures
            *r == self.ray,
    {
        &self.ray
    }
}

impl<M> RayDifferential<i16, M> {
    /// Wraps a ray with cleared differentials: the auxiliary origins and
    /// directions hold zeros until a producer fills them in.
    pub fn from_ray(ray: Ray<i16, M>) -> (r: Self)
        ensures
            r.ray == ray,
            !r.has_differentials,
            r.rx_origin == (Point3 { x: 0i16, y: 0i16, z: 0i16 }),
            r.ry_origin == (Point3 { x: 0i16, y: 0i16, z: 0i16 }),
            r.rx_direction == (Vector3 { x: 0i16, y: 0i16, z: 0i16 }),
            r.ry_direction == (Vector3 { x: 0i16, y: 0i16, z: 0i16 }),
    {
        RayDifferential {
            ray,
            has_differentials: false,
            rx_origin: Point3 { x: 0, y: 0, z: 0 },
            ry_origin: Point3 { x: 0, y: 0, z: 0 },
            rx_direction: Vector3 { x: 0, y: 0, z: 0 },
            ry_direction: Vector3 { x: 0, y: 0, z: 0 },
        }
    }

    /// Builds the primary ray from its parts and wraps it with cleared
    /// differentials.
    pub fn new(o: Point3<i16>, d: Vector3<i16>, t_max: i16, time: i16, medium: Option<M>) -> (r:
        Self)
        ensures
            r.ray == (Ray { o, d, t_max, time, medium }),
            !r.has_differentials,
            r.rx_origin == (Point3 { x: 0i16, y: 0i16, z: 0i16 }),
            r.ry_origin == (Point3 { x: 0i16, y: 0i16, z: 0i16 }),
            r.rx_direction == (Vector3 { x: 0i16, y: 0i16, z: 0i16 }),
            r.ry_direction == (Vector3 { x: 0i16, y: 0i16, z: 0i16 }),
    {
        let ray = Ray::new(o, d, t_max, time, medium);
        Self::from_ray(ray)
    }

    /// The point `o + d * t` on the primary ray; `t` is not clipped against
    /// `t_max`.
    pub fn point(&self, t: i16) -> (r: Point3<i16>)
        requires
            fits_i16(ray_point(self.ray.o@, self.ray.d@, t as int).x),
            fits_i16(ray_point(self.ray.o@, self.ray.d@, t as int).y),
            fits_i16(ray_point(self.ray.o@, self.ray.d@, t as int).z),
        ensures
            r@ == ray_point(self.ray.o@, self.ray.d@, t as int),
    {
        self.ray.point(t)
    }

    /// Rescales the auxiliary origins and directions toward the primary ray
    /// by the factor `s`; with `s` equal to one the receiver is unchanged.
    pub fn scale_differentials(&mut self, s: i16)
        requires
            fits_i16(scale_toward(old(self).ray.o.x as int, old(self).rx_origin.x as int, s as int)),
            fits_i16(scale_toward(old(self).ray.o.y as int, old(self).rx_origin.y as int, s as int)),
            fits_i16(scale_toward(old(self).ray.o.z as int, old(self).rx_origin.z as int, s as int)),
            fits_i16(scale_toward(old(self).ray.o.x as int, old(self).ry_origin.x as int, s as int)),
            fits_i16(scale_toward(old(self).ray.o.y as int, old(self).ry_origin.y as int, s as int)),
            fits_i16(scale_toward(old(self).ray.o.z as int, old(self).ry_origin.z as int, s as int)),
            fits_i16(scale_toward(old(self).ray.d.x as int, old(self).rx_direction.x as int, s as int)),
            fits_i16(scale_toward(old(self).ray.d.y as int, old(self).rx_direction.y as int, s as int)),
            fits_i16(scale_toward(old(self).ray.d.z as int, old(self).rx_direction.z as int, s as int)),
            fits_i16(scale_toward(old(self).ray.d.x as int, old(self).ry_direction.x as int, s as int)),
            fits_i16(scale_toward(old(self).ray.d.y as int, old(self).ry_direction.y as int, s as int)),
            fits_i16(scale_toward(old(self).ray.d.z as int, old(self).ry_direction.z as int, s as int)),
        ensures
            final(self).ray == old(self).ray,
            final(self).has_differentials == old(self).has_differentials,
            final(self).rx_origin.x as int == scale_toward(old(self).ray.o.x as int, old(self).rx_origin.x as int, s as int),
            final(self).rx_origin.y as int == scale_toward(old(self).ray.o.y as int, old(self).rx_origin.y as int, s as int),
            final(self).rx_origin.z as int == scale_toward(old(self).ray.o.z as int, old(self).rx_origin.z as int, s as int),
            final(self).ry_origin.x as int == scale_toward(old(self).ray.o.x as int, old(self).ry_origin.x as int, s as int),
            final(self).ry_origin.y as int == scale_toward(old(self).ray.o.y as int, old(self).ry_origin.y as int, s as int),
            final(self).ry_origin.z as int == scale_toward(old(self).ray.o.z as int, old(self).ry_origin.z as int, s as int),
            final(self).rx_direction.x as int == scale_toward(old(self).ray.d.x as int, old(self).rx_direction.x as int, s as int),
            final(self).rx_direction.y as int == scale_toward(old(self).ray.d.y as int, old(self).rx_direction.y as int, s as int),
            final(self).rx_direction.z as int == scale_toward(old(self).ray.d.z as int, old(self).rx_direction.z as int, s as int),
            final(self).ry_direction.x as int == scale_toward(old(self).ray.d.x as int, old(self).ry_direction.x as int, s as int),
            final(self).ry_direction.y as int == scale_toward(old(self).ray.d.y as int, old(self).ry_direction.y as int, s as int),
            final(self).ry_direction.z as int == scale_toward(old(self).ray.d.z as int, old(self).ry_direction.z as int, s as int),
    {
        self.rx_origin = Point3 {
            x: scale_component(self.ray.o.x, self.rx_origin.x, s),
            y: scale_component(self.ray.o.y, self.rx_origin.y, s),
            z: scale_component(self.ray.o.z, self.rx_origin.z, s),
        };
        self.ry_origin = Point3 {
            x: scale_component(self.ray.o.x, self.ry_origin.x, s),
            y: scale_component(self.ray.o.y, self.ry_origin.y, s),
            z: scale_component(self.ray.o.z, self.ry_origin.z, s),
        };
        self.rx_direction = Vector3 {
            x: scale_component(self.ray.d.x, self.rx_direction.x, s),
            y: scale_component(self.ray.d.y, self.rx_direction.y, s),
            z: scale_component(self.ray.d.z, self.rx_direction.z, s),
        };
        self.ry_direction = Vector3 {
            x: scale_component(self.ray.d.x, self.ry_direction.x, s),
            y: scale_component(self.ray.d.y, self.ry_direction.y, s),
            z: scale_component(self.ray.d.z, self.ry_direction.z, s),
        };
    }
}

/// Ray evaluation is linear: stepping from `point(t1)` by `d * (t2 - t1)`
/// lands on `point(t2)`.
pub proof fn lemma_ray_point_linear(o: Point3<int>, d: Vector3<int>, t1: int, t2: int)
    ensures
        point3_add_vector(ray_point(o, d, t1), vector3_scale(d, t2 - t1)) == ray_point(o, d, t2),
{
    assert(o.x + d.x * t1 + d.x * (t2 - t1) == o.x + d.x * t2) by (nonlinear_arith);
    assert(o.y + d.y * t1 + d.y * (t2 - t1) == o.y + d.y * t2) by (nonlinear_arith);
    assert(o.z + d.z * t1 + d.z * (t2 - t1) == o.z + d.z * t2) by (nonlinear_arith);
}

/// Rescaling by a factor of one leaves the differentials in place.
pub proof fn lemma_scale_toward_identity(base: int, aux: int)
    ensures
        scale_toward(base, aux, 1) == aux,
{
}

} // verus!

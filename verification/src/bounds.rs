//! Axis-aligned bounding boxes in two and three dimensions.
//!
//! A bounds value is a pair of corner points. Validity is a property, not a
//! separate tag: a box with an inverted corner pair models the empty set and
//! must be handled explicitly by its producers. The set operations compute
//! componentwise corner minima and maxima and trust their operands to use a
//! consistent representation: the union of two boxes that were each built as
//! "empty" with different inverted corner pairs is a well-defined box, but
//! not an empty one.

use vstd::prelude::*;
use crate::scalar::fits_i16;
use crate::points::{
    Point2,
    Point2i,
    Point3,
    Point3i,
    point2_min,
    point2_max,
    point3_min,
    point3_max,
};
use crate::vectors::{Vector2, Vector3};

verus! {

/// A two-dimensional axis-aligned bounding box.
#[derive(Copy, Clone, PartialEq, Hash, Debug, Default)]
pub struct Bounds2<T> {
    pub p_min: Point2<T>,
    pub p_max: Point2<T>,
}

/// A three-dimensional axis-aligned bounding box.
#[derive(Copy, Clone, PartialEq, Hash, Debug, Default)]
pub struct Bounds3<T> {
    pub p_min: Point3<T>,
    pub p_max: Point3<T>,
}

pub type Bounds2i = Bounds2<i16>;

pub type Bounds3i = Bounds3<i16>;

impl View for Bounds2<i16> {
    type V = Bounds2<int>;

    open spec fn view(&self) -> Bounds2<int> {
        Bounds2 { p_min: self.p_min@, p_max: self.p_max@ }
    }
}

impl View for Bounds3<i16> {
    type V = Bounds3<int>;

    open spec fn view(&self) -> Bounds3<int> {
        Bounds3 { p_min: self.p_min@, p_max: self.p_max@ }
    }
}

/// A box that holds exactly one point, over the mathematical model.
pub open spec fn bounds2_from_point(p: Point2<int>) -> Bounds2<int> {
    Bounds2 { p_min: p, p_max: p }
}

/// A box that holds exactly one point, over the mathematical model.
pub open spec fn bounds3_from_point(p: Point3<int>) -> Bounds3<int> {
    Bounds3 { p_min: p, p_max: p }
}

/// A non-empty box: the corners are ordered on every axis.
pub open spec fn bounds2_valid(b: Bounds2<int>) -> bool {
    b.p_min.x <= b.p_max.x && b.p_min.y <= b.p_max.y
}

/// A non-empty box: the corners are ordered on every axis.
pub open spec fn bounds3_valid(b: Bounds3<int>) -> bool {
    b.p_min.x <= b.p_max.x && b.p_min.y <= b.p_max.y && b.p_min.z <= b.p_max.z
}

/// The componentwise min/max hull of two boxes, over the mathematical model.
pub open spec fn bounds2_union(b1: Bounds2<int>, b2: Bounds2<int>) -> Bounds2<int> {
    Bounds2 { p_min: point2_min(b1.p_min, b2.p_min), p_max: point2_max(b1.p_max, b2.p_max) }
}

/// The componentwise min/max hull of two boxes, over the mathematical model.
pub open spec fn bounds3_union(b1: Bounds3<int>, b2: Bounds3<int>) -> Bounds3<int> {
    Bounds3 { p_min: point3_min(b1.p_min, b2.p_min), p_max: point3_max(b1.p_max, b2.p_max) }
}

/// The componentwise intersection box, over the mathematical model; it is
/// inverted when the operands do not overlap.
pub open spec fn bounds2_intersect(b1: Bounds2<int>, b2: Bounds2<int>) -> Bounds2<int> {
    Bounds2 { p_min: point2_max(b1.p_min, b2.p_min), p_max: point2_min(b1.p_max, b2.p_max) }
}

/// The componentwise intersection box, over the mathematical model; it is
/// inverted when the operands do not overlap.
pub open spec fn bounds3_intersect(b1: Bounds3<int>, b2: Bounds3<int>) -> Bounds3<int> {
    Bounds3 { p_min: point3_max(b1.p_min, b2.p_min), p_max: point3_min(b1.p_max, b2.p_max) }
}

/// Whether every axis interval of the two boxes overlaps.
pub open spec fn bounds2_overlaps(b1: Bounds2<int>, b2: Bounds2<int>) -> bool {
    &&& b1.p_max.x >= b2.p_min.x && b1.p_min.x <= b2.p_max.x
    &&& b1.p_max.y >= b2.p_min.y && b1.p_min.y <= b2.p_max.y
}

/// Whether every axis interval of the two boxes overlaps.
pub open spec fn bounds3_overlaps(b1: Bounds3<int>, b2: Bounds3<int>) -> bool {
    &&& b1.p_max.x >= b2.p_min.x && b1.p_min.x <= b2.p_max.x
    &&& b1.p_max.y >= b2.p_min.y && b1.p_min.y <= b2.p_max.y
    &&& b1.p_max.z >= b2.p_min.z && b1.p_min.z <= b2.p_max.z
}

/// Membership with an inclusive upper bound on every axis.
pub open spec fn bounds2_inside(p: Point2<int>, b: Bounds2<int>) -> bool {
    &&& p.x >= b.p_min.x && p.x <= b.p_max.x
    &&& p.y >= b.p_min.y && p.y <= b.p_max.y
}

/// Membership with an inclusive upper bound on every axis.
pub open spec fn bounds3_inside(p: Point3<int>, b: Bounds3<int>) -> bool {
    &&& p.x >= b.p_min.x && p.x <= b.p_max.x
    &&& p.y >= b.p_min.y && p.y <= b.p_max.y
    &&& p.z >= b.p_min.z && p.z <= b.p_max.z
}

/// Membership with an exclusive upper bound on every axis.
pub open spec fn bounds2_inside_exclusive(p: Point2<int>, b: Bounds2<int>) -> bool {
    &&& p.x >= b.p_min.x && p.x < b.p_max.x
    &&& p.y >= b.p_min.y && p.y < b.p_max.y
}

/// Membership with an exclusive upper bound on every axis.
pub open spec fn bounds3_inside_exclusive(p: Point3<int>, b: Bounds3<int>) -> bool {
    &&& p.x >= b.p_min.x && p.x < b.p_max.x
    &&& p.y >= b.p_min.y && p.y < b.p_max.y
    &&& p.z >= b.p_min.z && p.z < b.p_max.z
}

impl<T> Bounds2<T> {
    /// Builds the box with the given corner points.
    pub fn new(p_min: Point2<T>, p_max: Point2<T>) -> (r: Self)
        ensures
            r.p_min == p_min,
            r.p_max == p_max,
    {
        Bounds2 { p_min, p_max }
    }
}

impl<T: Copy> Bounds2<T> {
    /// The box that holds exactly the one point `p`.
    pub fn from_single_point(p: Point2<T>) -> (r: Self)
        ensures
            r.p_min == p,
            r.p_max == p,
    {
        Bounds2 { p_min: p, p_max: p }
    }
}

impl<T> Bounds3<T> {
    /// Builds the box with the given corner points.
    pub fn new(p_min: Point3<T>, p_max: Point3<T>) -> (r: Self)
        ensures
            r.p_min == p_min,
            r.p_max == p_max,
    {
        Bounds3 { p_min, p_max }
    }
}

impl<T: Copy> Bounds3<T> {
    /// The box that holds exactly the one point `p`.
    pub fn from_single_point(p: Point3<T>) -> (r: Self)
        ensures
            r.p_min == p,
            r.p_max == p,
    {
        Bounds3 { p_min: p, p_max: p }
    }

    /// One of the eight corners of the box, selected per bit of `i`: an even
    /// `i` picks `p_min.x`, otherwise `p_max.x`; a clear second or third bit
    /// picks `p_max` on y respectively z, a set one `p_min`. The asymmetry
    /// between the first bit and the others is deliberate and kept.
    pub fn corner(&self, i: usize) -> (r: Point3<T>)
        requires
            i < 8,
        ensures
            r.x == (if i % 2 == 0 { self.p_min.x } else { self.p_max.x }),
            r.y == (if (i / 2) % 2 == 0 { self.p_max.y } else { self.p_min.y }),
            r.z == (if i / 4 == 0 { self.p_max.z } else { self.p_min.z }),
    {
        Point3 {
            x: if i % 2 == 0 { self.p_min.x } else { self.p_max.x },
            y: if (i / 2) % 2 == 0 { self.p_max.y } else { self.p_min.y },
            z: if i / 4 == 0 { self.p_max.z } else { self.p_min.z },
        }
    }
}

impl Bounds2i {
    /// Whether every axis interval of the two boxes overlaps; one disjoint
    /// axis vetoes the overlap.
    pub fn overlaps(b1: &Self, b2: &Self) -> (r: bool)
        ensures
            r == bounds2_overlaps(b1@, b2@),
    {
        let mut is_overlap: bool = true;
        is_overlap = is_overlap && b1.p_max.x >= b2.p_min.x && b1.p_min.x <= b2.p_max.x;
        is_overlap = is_overlap && b1.p_max.y >= b2.p_min.y && b1.p_min.y <= b2.p_max.y;
        is_overlap
    }

    /// Whether `p` lies in `b`, the upper bound inclusive on every axis.
    pub fn inside(p: &Point2<i16>, b: &Self) -> (r: bool)
        ensures
            r == bounds2_inside(p@, b@),
    {
        let mut is_inside: bool = true;
        is_inside = is_inside && p.x >= b.p_min.x && p.x <= b.p_max.x;
        is_inside = is_inside && p.y >= b.p_min.y && p.y <= b.p_max.y;
        is_inside
    }

    /// Whether `p` lies in `b`, the upper bound exclusive on every axis.
    pub fn inside_exclusive(p: Point2<i16>, b: Self) -> (r: bool)
        ensures
            r == bounds2_inside_exclusive(p@, b@),
    {
        let mut is_inside: bool = true;
        is_inside = is_inside && p.x >= b.p_min.x && p.x < b.p_max.x;
        is_inside = is_inside && p.y >= b.p_min.y && p.y < b.p_max.y;
        is_inside
    }

    /// Grows the box symmetrically by `delta` along every axis.
    pub fn expand(b: &Self, delta: i16) -> (r: Self)
        requires
            fits_i16(b.p_min.x - delta),
            fits_i16(b.p_min.y - delta),
            fits_i16(b.p_max.x + delta),
            fits_i16(b.p_max.y + delta),
        ensures
            r.p_min.x as int == b.p_min.x - delta,
            r.p_min.y as int == b.p_min.y - delta,
            r.p_max.x as int == b.p_max.x + delta,
            r.p_max.y as int == b.p_max.y + delta,
    {
        Bounds2 {
            p_min: Point2 { x: b.p_min.x - delta, y: b.p_min.y - delta },
            p_max: Point2 { x: b.p_max.x + delta, y: b.p_max.y + delta },
        }
    }

    /// The diagonal `p_max - p_min` as a vector.
    pub fn diagonal(&self) -> (r: Vector2<i16>)
        requires
            fits_i16(self.p_max.x - self.p_min.x),
            fits_i16(self.p_max.y - self.p_min.y),
        ensures
            r.x as int == self.p_max.x - self.p_min.x,
            r.y as int == self.p_max.y - self.p_min.y,
    {
        Vector2 { x: self.p_max.x - self.p_min.x, y: self.p_max.y - self.p_min.y }
    }

    /// Extends `b` just enough to hold `p` as well.
    pub fn union_from_point(b: &Self, p: Point2<i16>) -> (r: Self)
        ensures
            r@ == bounds2_union(b@, bounds2_from_point(p@)),
    {
        Bounds2 {
            p_min: Point2i::min(&b.p_min, &p),
            p_max: Point2i::max(&b.p_max, &p),
        }
    }

    /// The componentwise min/max hull of the two boxes.
    pub fn union(b1: &Self, b2: &Self) -> (r: Self)
        ensures
            r@ == bounds2_union(b1@, b2@),
    {
        Bounds2 {
            p_min: Point2i::min(&b1.p_min, &b2.p_min),
            p_max: Point2i::max(&b1.p_max, &b2.p_max),
        }
    }

    /// The componentwise intersection box; it comes out inverted when the
    /// operands do not overlap, so check `overlaps` first where validity
    /// matters.
    pub fn intersect(b1: &Self, b2: &Self) -> (r: Self)
        ensures
            r@ == bounds2_intersect(b1@, b2@),
    {
        Bounds2 {
            p_min: Point2i::max(&b1.p_min, &b2.p_min),
            p_max: Point2i::min(&b1.p_max, &b2.p_max),
        }
    }
}

impl Bounds3i {
    /// Whether every axis interval of the two boxes overlaps; one disjoint
    /// axis vetoes the overlap.
    pub fn overlaps(b1: &Self, b2: &Self) -> (r: bool)
        ensures
            r == bounds3_overlaps(b1@, b2@),
    {
        let mut is_overlap: bool = true;
        is_overlap = is_overlap && b1.p_max.x >= b2.p_min.x && b1.p_min.x <= b2.p_max.x;
        is_overlap = is_overlap && b1.p_max.y >= b2.p_min.y && b1.p_min.y <= b2.p_max.y;
        is_overlap = is_overlap && b1.p_max.z >= b2.p_min.z && b1.p_min.z <= b2.p_max.z;
        is_overlap
    }

    /// Whether `p` lies in `b`, the upper bound inclusive on every axis.
    pub fn inside(p: &Point3<i16>, b: &Self) -> (r: bool)
        ensures
            r == bounds3_inside(p@, b@),
    {
        let mut is_inside: bool = true;
        is_inside = is_inside && p.x >= b.p_min.x && p.x <= b.p_max.x;
        is_inside = is_inside && p.y >= b.p_min.y && p.y <= b.p_max.y;
        is_inside = is_inside && p.z >= b.p_min.z && p.z <= b.p_max.z;
        is_inside
    }

    /// Whether `p` lies in `b`, the upper bound exclusive on every axis.
    pub fn inside_exclusive(p: Point3<i16>, b: Self) -> (r: bool)
        ensures
            r == bounds3_inside_exclusive(p@, b@),
    {
        let mut is_inside: bool = true;
        is_inside = is_inside && p.x >= b.p_min.x && p.x < b.p_max.x;
        is_inside = is_inside && p.y >= b.p_min.y && p.y < b.p_max.y;
        is_inside = is_inside && p.z >= b.p_min.z && p.z < b.p_max.z;
        is_inside
    }

    /// Grows the box symmetrically by `delta` along every axis.
    pub fn expand(b: &Self, delta: i16) -> (r: Self)
        requires
            fits_i16(b.p_min.x - delta),
            fits_i16(b.p_min.y - delta),
            fits_i16(b.p_min.z - delta),
            fits_i16(b.p_max.x + delta),
            fits_i16(b.p_max.y + delta),
            fits_i16(b.p_max.z + delta),
        ensures
            r.p_min.x as int == b.p_min.x - delta,
            r.p_min.y as int == b.p_min.y - delta,
            r.p_min.z as int == b.p_min.z - delta,
            r.p_max.x as int == b.p_max.x + delta,
            r.p_max.y as int == b.p_max.y + delta,
            r.p_max.z as int == b.p_max.z + delta,
    {
        Bounds3 {
            p_min: Point3 { x: b.p_min.x - delta, y: b.p_min.y - delta, z: b.p_min.z - delta },
            p_max: Point3 { x: b.p_max.x + delta, y: b.p_max.y + delta, z: b.p_max.z + delta },
        }
    }

    /// The diagonal `p_max - p_min` as a vector.
    pub fn diagonal(&self) -> (r: Vector3<i16>)
        requires
            fits_i16(self.p_max.x - self.p_min.x),
            fits_i16(self.p_max.y - self.p_min.y),
            fits_i16(self.p_max.z - self.p_min.z),
        ensures
            r.x as int == self.p_max.x - self.p_min.x,
            r.y as int == self.p_max.y - self.p_min.y,
            r.z as int == self.p_max.z - self.p_min.z,
    {
        Vector3 {
            x: self.p_max.x - self.p_min.x,
            y: self.p_max.y - self.p_min.y,
            z: self.p_max.z - self.p_min.z,
        }
    }

    /// Extends `b` just enough to hold `p` as well.
    pub fn union_from_point(b: &Self, p: Point3<i16>) -> (r: Self)
        ensures
            r@ == bounds3_union(b@, bounds3_from_point(p@)),
    {
        Bounds3 {
            p_min: Point3i::min(&b.p_min, &p),
            p_max: Point3i::max(&b.p_max, &p),
        }
    }

    /// The componentwise min/max hull of the two boxes.
    pub fn union(b1: &Self, b2: &Self) -> (r: Self)
        ensures
            r@ == bounds3_union(b1@, b2@),
    {
        Bounds3 {
            p_min: Point3i::min(&b1.p_min, &b2.p_min),
            p_max: Point3i::max(&b1.p_max, &b2.p_max),
        }
    }

    /// The componentwise intersection box; it comes out inverted when the
    /// operands do not overlap, so check `overlaps` first where validity
    /// matters.
    pub fn intersect(b1: &Self, b2: &Self) -> (r: Self)
        ensures
            r@ == bounds3_intersect(b1@, b2@),
    {
        Bounds3 {
            p_min: Point3i::max(&b1.p_min, &b2.p_min),
            p_max: Point3i::min(&b1.p_max, &b2.p_max),
        }
    }
}

/// Overlap is symmetric.
pub proof fn lemma_bounds2_overlaps_symmetric(b1: Bounds2<int>, b2: Bounds2<int>)
    ensures
        bounds2_overlaps(b1, b2) == bounds2_overlaps(b2, b1),
{
}

/// Overlap is symmetric.
pub proof fn lemma_bounds3_overlaps_symmetric(b1: Bounds3<int>, b2: Bounds3<int>)
    ensures
        bounds3_overlaps(b1, b2) == bounds3_overlaps(b2, b1),
{
}

/// Extending any box by the box of a point makes the point a member.
pub proof fn lemma_bounds2_union_point_inside(p: Point2<int>, b: Bounds2<int>)
    ensures
        bounds2_inside(p, bounds2_union(b, bounds2_from_point(p))),
{
}

/// Extending any box by the box of a point makes the point a member.
pub proof fn lemma_bounds3_union_point_inside(p: Point3<int>, b: Bounds3<int>)
    ensures
        bounds3_inside(p, bounds3_union(b, bounds3_from_point(p))),
{
}

/// Where two non-empty boxes overlap, their intersection box is non-empty.
pub proof fn lemma_bounds3_intersect_valid(b1: Bounds3<int>, b2: Bounds3<int>)
    requires
        bounds3_valid(b1),
        bounds3_valid(b2),
        bounds3_overlaps(b1, b2),
    ensures
        bounds3_valid(bounds3_intersect(b1, b2)),
{
}

} // verus!

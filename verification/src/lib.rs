//! Verified geometric primitives for a physically-based renderer: vectors,
//! points, surface normals, axis-aligned bounding boxes and rays.
//!
//! The types are generic over their component type `T`. Construction and
//! component shuffling are verified for every `T`; the arithmetic operators
//! are verified generically against the component type's own operator
//! contracts; the order- and overflow-sensitive operations are verified for
//! the 16-bit integer instantiations (`Vector2i`, `Point3i`, ...). Contracts
//! are stated against a mathematical model: the same structures instantiated
//! at `int`.

pub mod bounds;
pub mod normals;
pub mod points;
pub mod rays;
pub mod scalar;
pub mod vectors;

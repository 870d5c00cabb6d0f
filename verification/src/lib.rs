//! A verified path-tracing core.
//!
//! The renderer works in fixed-point arithmetic (an `i64` holding sixteen
//! fractional bits), so every operation -- vector algebra, box slab tests,
//! primitive intersections, scattering, the integrator loop -- carries an
//! exact contract against a spec-level model, and the structural guarantees
//! of the acceleration tree (well-formed boxes, leaves preserved, traversal
//! equal to a linear scan wherever pruning is sound) are proved rather than
//! assumed.  Pseudo-randomness is an explicit generator value threaded
//! through the sampling calls, so a render is reproducible from its seed and
//! pixels can be scheduled in any order; fresh seeds come from the `rand`
//! crate behind one trusted wrapper.  File, image and mesh decoding stay
//! outside the library, which exchanges only plain values with its callers.

use vstd::prelude::*;

pub mod aabb;
pub mod axis;
pub mod bvh;
pub mod camera;
pub mod fx;
pub mod hitable;
pub mod image;
pub mod material;
pub mod mesh;
pub mod ray;
pub mod rng;
pub mod scene;
pub mod texture;
pub mod trig;
pub mod vec3;

//! An immutable context algebra for 2D rectangle drawing: a view frame, a
//! current affine transform, a rectangle and a fill color, from which new
//! contexts are derived without touching the parent, and which turns into
//! requests for a rendering back end.
//!
//! Transforms are kept exactly, as products of elementary factors, so that
//! the order of world-frame (left) and object-frame (right) composition is
//! part of every contract. Scalars are held by their IEEE-754 bits; the
//! numeric evaluation of a transform or a rectangle edit is done by the
//! caller's matrix arithmetic.
use vstd::prelude::*;

pub mod context;
pub mod laws;
pub mod line;
pub mod render;
pub mod scalar;
pub mod shape;
pub mod transform;

verus! {

} // verus!

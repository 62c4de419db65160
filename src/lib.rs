//! Reference-frame rotations of fundamental astronomy: the vector and matrix
//! primitives, nested polynomial evaluation, light deflection by a body, and
//! the bias-precession-nutation chain.
//!
//! Every computation is generic over a `Scalar` whose operations are functions
//! of their operands, so the contracts fix each result as an exact expression
//! tree: which products are formed, in which order they are summed, and in
//! which order the matrices are composed.
use vstd::prelude::*;

pub mod astro;
pub mod pn;
pub mod poly;
pub mod scalar;
pub mod vm;

verus! {

} // verus!

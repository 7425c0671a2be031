//! A 4x4 transform matrix carried as raw scalar bit patterns.
//!
//! The verified core stores and forwards per-object transforms without
//! interpreting them: each scalar is kept as the bit pattern of a 32-bit
//! IEEE 754 float. Numeric work on matrices happens outside the core, which
//! only needs equality, copying, and the identity value.

use vstd::prelude::*;

verus! {

/// The bit pattern of the 32-bit float `1.0`.
pub const SCALAR_ONE_BITS: u32 = 0x3F80_0000;

/// A 4x4 matrix in column-major order; field `cXrY` is column `X`, row `Y`.
/// Each scalar is the bit pattern of a 32-bit IEEE 754 float.
#[derive(Debug, Clone, Copy, PartialEq, Eq, Structural)]
pub struct Mat4 {
    pub c0r0: u32,
    pub c0r1: u32,
    pub c0r2: u32,
    pub c0r3: u32,
    pub c1r0: u32,
    pub c1r1: u32,
    pub c1r2: u32,
    pub c1r3: u32,
    pub c2r0: u32,
    pub c2r1: u32,
    pub c2r2: u32,
    pub c2r3: u32,
    pub c3r0: u32,
    pub c3r1: u32,
    pub c3r2: u32,
    pub c3r3: u32,
}

impl Mat4 {
    /// The identity matrix: `1.0` on the diagonal, `0.0` elsewhere.
    pub open spec fn spec_identity() -> Mat4 {
        Mat4 {
            c0r0: SCALAR_ONE_BITS,
            c0r1: 0,
            c0r2: 0,
            c0r3: 0,
            c1r0: 0,
            c1r1: SCALAR_ONE_BITS,
            c1r2: 0,
            c1r3: 0,
            c2r0: 0,
            c2r1: 0,
            c2r2: SCALAR_ONE_BITS,
            c2r3: 0,
            c3r0: 0,
            c3r1: 0,
            c3r2: 0,
            c3r3: SCALAR_ONE_BITS,
        }
    }

    /// Returns the identity matrix.
    pub fn identity() -> (r: Mat4)
        ensures
            r == Mat4::spec_identity(),
    {
        Mat4 {
            c0r0: SCALAR_ONE_BITS,
            c0r1: 0,
            c0r2: 0,
            c0r3: 0,
            c1r0: 0,
            c1r1: SCALAR_ONE_BITS,
            c1r2: 0,
            c1r3: 0,
            c2r0: 0,
            c2r1: 0,
            c2r2: SCALAR_ONE_BITS,
            c2r3: 0,
            c3r0: 0,
            c3r1: 0,
            c3r2: 0,
            c3r3: SCALAR_ONE_BITS,
        }
    }
}

} // verus!

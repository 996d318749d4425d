//! Marker for the software tensor path.
//!
//! The tensor operations themselves (matrix multiply, convolution,
//! attention primitive, layer normalization) are floating-point kernels
//! and live outside the library; backends that emulate a device runtime
//! fall back to this implementation.

use vstd::prelude::*;

verus! {

/// Software fallback used by the CPU and emulated by other backends.
pub struct CpuFallback;

} // verus!

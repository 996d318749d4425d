//! CPU backend marker for the SIMD-accelerated tensor path.  The vector
//! kernels themselves are floating-point intrinsics and live outside the
//! library.

use vstd::prelude::*;

verus! {

/// Represents the host CPU using SIMD operations when available.
pub struct CpuSimdBackend;

/// Initialize the CPU backend.  No setup is required.
pub fn init() {
}

} // verus!

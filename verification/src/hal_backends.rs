//! Hardware abstraction layer backends.
//!
//! Each backend models device enumeration, context creation and the
//! compile/launch call chain of its runtime.  The containers this crate is
//! built in ship none of the vendor runtimes, so every backend is the
//! portable emulation the project uses for dispatch testing: enumeration
//! reports fixed virtual devices and launches run on the host.  The tensor
//! kernels themselves are floating-point code and live outside the library.

pub mod cpu_simd;
pub mod opencl_backend;
pub mod riscv_backend;
pub mod rocm_backend;
pub mod sycl_backend;

use vstd::prelude::*;

verus! {

/// Enumeration of the available backend types.  This is used by tests to
/// ensure that the correct backend is selected from configuration.
#[derive(Debug, Clone, Copy, PartialEq, Eq, Structural)]
pub enum BackendKind {
    /// Portable SIMD implementation on the host CPU.
    CpuSimd,
    /// AMD ROCm GPU backend.
    Rocm,
    /// Vulkan compute backend.
    Vulkan,
    /// OpenCL backend (CPU or GPU devices).
    OpenCl,
    /// oneAPI SYCL backend.
    Sycl,
    /// RISC-V backend.
    Riscv,
}

} // verus!

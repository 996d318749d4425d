//! Backend dispatch: selecting the best available implementation.
//!
//! The dispatcher picks a compute backend from a user preference, the
//! availability of each backend, and the workload's weight.  Probing
//! availability (environment overrides, runtime checks) happens outside
//! the library; the choice itself is the pure rule below.

use vstd::prelude::*;

verus! {

/// Available compute backends.
#[derive(Debug, Clone, Copy, PartialEq, Eq, Structural)]
pub enum Backend {
    Cpu,
    Rocm,
    Sycl,
    OpenCl,
    Vulkan,
}

/// Simplified workload descriptor used by the dispatcher.
#[derive(Debug, Clone, Copy, PartialEq, Eq, Structural)]
pub enum Workload {
    Light,
    Heavy,
}

/// CPU fallback marker implementing all tensor operations in software.
#[derive(Clone, Copy, Debug)]
pub struct CpuBackend;

/// Placeholder GPU backend markers delegating to the CPU implementation.
#[derive(Clone, Copy, Debug)]
pub struct RocmBackend;

#[derive(Clone, Copy, Debug)]
pub struct OpenClBackend;

/// Which optional backends are present, as the caller's probes reported.
#[derive(Debug, Clone, Copy, PartialEq, Eq, Structural)]
pub struct BackendAvailability {
    pub rocm: bool,
    pub sycl: bool,
    pub opencl: bool,
    pub vulkan: bool,
}

/// Whether a backend can be used at all; the CPU backend always can.
pub open spec fn spec_backend_available(b: Backend, avail: BackendAvailability) -> bool {
    match b {
        Backend::Cpu => true,
        Backend::Rocm => avail.rocm,
        Backend::Sycl => avail.sycl,
        Backend::OpenCl => avail.opencl,
        Backend::Vulkan => avail.vulkan,
    }
}

/// The backend chosen for a workload with no usable preference: a heavy
/// workload takes the first available accelerator in the fixed order ROCm,
/// OpenCL, SYCL, Vulkan; everything else runs on the CPU.
pub open spec fn spec_auto_backend(workload: Workload, avail: BackendAvailability) -> Backend {
    if workload == Workload::Heavy {
        if avail.rocm {
            Backend::Rocm
        } else if avail.opencl {
            Backend::OpenCl
        } else if avail.sycl {
            Backend::Sycl
        } else if avail.vulkan {
            Backend::Vulkan
        } else {
            Backend::Cpu
        }
    } else {
        Backend::Cpu
    }
}

/// The backend the dispatcher ends up with: the preferred backend when it
/// is available, the automatic choice otherwise.
pub open spec fn spec_resolve_backend(
    preferred: Option<Backend>,
    workload: Workload,
    avail: BackendAvailability,
) -> Backend {
    match preferred {
        Some(b) => if spec_backend_available(b, avail) {
            b
        } else {
            spec_auto_backend(workload, avail)
        },
        None => spec_auto_backend(workload, avail),
    }
}

/// Select the backend to dispatch to.  `preferred` is the user's explicit
/// choice, if any; `avail` reports which optional backends the caller
/// found usable; a heavy workload prefers an accelerator, in the fixed
/// order ROCm, OpenCL, SYCL, Vulkan.
pub fn resolve_backend(
    preferred: Option<Backend>,
    workload: Workload,
    avail: BackendAvailability,
) -> (b: Backend)
    ensures
        b == spec_resolve_backend(preferred, workload, avail),
        spec_backend_available(b, avail),
{
    let auto: Backend = if workload == Workload::Heavy {
        if avail.rocm {
            Backend::Rocm
        } else if avail.opencl {
            Backend::OpenCl
        } else if avail.sycl {
            Backend::Sycl
        } else if avail.vulkan {
            Backend::Vulkan
        } else {
            Backend::Cpu
        }
    } else {
        Backend::Cpu
    };
    match preferred {
        Some(b) => {
            let ok = match b {
                Backend::Cpu => true,
                Backend::Rocm => avail.rocm,
                Backend::Sycl => avail.sycl,
                Backend::OpenCl => avail.opencl,
                Backend::Vulkan => avail.vulkan,
            };
            if ok {
                b
            } else {
                auto
            }
        },
        None => auto,
    }
}

} // verus!

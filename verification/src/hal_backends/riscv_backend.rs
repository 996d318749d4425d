//! Backend representing execution on a RISC-V target.  On other platforms
//! the tensor operations fall back to the portable software path outside
//! the library; the backend itself only reports availability so that
//! selection logic can be validated.

use vstd::prelude::*;

verus! {

/// Backend handle for a RISC-V target.
#[derive(Clone, Copy, Debug)]
pub struct RiscvBackend;

impl RiscvBackend {
    /// Check whether a RISC-V target is available.  The emulated backend
    /// always reports availability so that backend selection can be
    /// validated on any host.
    pub fn is_available() -> (b: bool)
        ensures
            b,
    {
        true
    }

    /// Create a new backend instance.
    pub fn new() -> RiscvBackend {
        RiscvBackend
    }
}

/// Initialize the RISC-V backend.  The emulated backend needs no setup.
pub fn init() {
}

} // verus!

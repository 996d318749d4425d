//! SYCL backend emulation.
//!
//! The portable build models device enumeration, kernel compilation and
//! launch without a oneAPI runtime: a single CPU device is reported and
//! launches run on the host, which lets dispatch logic be exercised
//! anywhere.

use vstd::prelude::*;

verus! {

/// Representation of a SYCL device.  Only an id and a name are tracked.
#[derive(Clone, Copy, Debug)]
pub struct SyclDevice {
    pub id: usize,
    pub name: &'static str,
}

/// Minimal SYCL context holding the selected device.
#[derive(Clone, Copy, Debug)]
pub struct SyclContext {
    device: SyclDevice,
}

/// Backend instance used by higher level code.  A full implementation
/// would own a device queue and compiled kernels.
#[derive(Clone, Copy, Debug)]
pub struct SyclBackend {
    ctx: SyclContext,
}

impl SyclBackend {
    /// The device this backend was created over, as contracts see it.
    pub closed spec fn spec_device(&self) -> SyclDevice {
        self.ctx.device
    }

    /// Enumerate available SYCL devices: a single emulated CPU device, so
    /// that dispatch logic can still be tested.
    pub fn enumerate() -> (devices: Vec<SyclDevice>)
        ensures
            devices@.len() == 1,
            devices@[0].id == 0,
    {
        let mut devices: Vec<SyclDevice> = Vec::new();
        devices.push(SyclDevice { id: 0, name: "SYCL CPU" });
        devices
    }

    /// Convenience helper mirroring other backends: the emulated device is
    /// always enumerated.
    pub fn is_available() -> (b: bool)
        ensures
            b,
    {
        let devices = Self::enumerate();
        !devices.is_empty()
    }

    /// Create a new backend instance selecting the first enumerated device.
    pub fn new() -> (backend: SyclBackend)
        ensures
            backend.spec_device().id == 0,
    {
        let devices = Self::enumerate();
        let device = devices[0];
        SyclBackend { ctx: SyclContext { device } }
    }

    /// Simulate compilation of a kernel.  In the portable build the source
    /// is only received and no compilation takes place.
    pub fn compile_kernel(&self, _src: &str, _name: &str) {
    }

    /// Launch a previously "compiled" kernel.  The closure is executed on
    /// the host, which allows callers to validate the call chain.
    pub fn launch<F: FnOnce() -> ()>(&self, f: F)
        requires
            call_requires(f, ()),
        ensures
            call_ensures(f, (), ()),
    {
        f()
    }
}

/// Initialize the SYCL backend by probing available devices.
pub fn init() {
    let _ = SyclBackend::new();
}

} // verus!

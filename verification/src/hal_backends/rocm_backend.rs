//! ROCm backend emulation.
//!
//! Without a HIP runtime on the build host, the backend reports a single
//! virtual device and runs kernel launches on the host, so that device
//! discovery and the launch pathway can be exercised without a GPU.
//! Device-memory transfer helpers of the hardware build have no emulated
//! counterpart here.

use vstd::prelude::*;

verus! {

/// Representation of a ROCm device.  Only the device identifier is
/// tracked.
#[derive(Clone, Copy, Debug, Default)]
pub struct RocmDevice {
    pub id: i32,
}

/// Backend instance.  A full implementation would manage streams, modules
/// and other runtime state.
#[derive(Clone, Copy, Debug, Default)]
pub struct RocmBackend {
    device: RocmDevice,
}

impl RocmBackend {
    /// The device this backend selected, as contracts see it.
    pub closed spec fn spec_device(&self) -> RocmDevice {
        self.device
    }

    /// Enumerate the ROCm devices visible to the process: a single virtual
    /// device, so higher level code can exercise dispatch paths.
    pub fn enumerate() -> (devices: Vec<RocmDevice>)
        ensures
            devices@.len() == 1,
            devices@[0].id == 0,
    {
        let mut devices: Vec<RocmDevice> = Vec::new();
        devices.push(RocmDevice { id: 0 });
        devices
    }

    /// Create a new backend selecting the first available device.
    pub fn new() -> (backend: RocmBackend)
        ensures
            backend.spec_device().id == 0,
    {
        let devices = Self::enumerate();
        let device = devices[0];
        RocmBackend { device }
    }

    /// Return the number of ROCm devices visible to the process.
    pub fn device_count() -> (n: usize)
        ensures
            n == 1,
    {
        let devices = Self::enumerate();
        devices.len()
    }

    /// Convenience helper used by backend selection tests.
    pub fn is_available() -> (b: bool)
        ensures
            b,
    {
        Self::device_count() > 0
    }

    /// Launch a kernel.  The emulated path simply executes the provided
    /// closure on the host.
    pub fn launch<F: FnOnce() -> ()>(&self, f: F)
        requires
            call_requires(f, ()),
        ensures
            call_ensures(f, (), ()),
    {
        f()
    }
}

/// Initialize the ROCm backend by probing devices.
pub fn init() {
    let _ = RocmBackend::new();
}

} // verus!

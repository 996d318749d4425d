//! OpenCL backend providing a very small emulation of OpenCL style device
//! management: platform and device enumeration, basic context management
//! and the kernel compile/launch paths that higher level dispatch logic
//! exercises.

use vstd::prelude::*;

verus! {

/// Type of an emulated OpenCL device.
#[derive(Clone, Copy, Debug, PartialEq, Eq, Structural)]
pub enum DeviceKind {
    /// A device executing on the host CPU.
    Cpu,
    /// A device representing a discrete GPU.
    Gpu,
}

/// Representation of an OpenCL device.  Only an identifier and the device
/// kind are tracked, which is sufficient to validate dispatch paths.
#[derive(Clone, Copy, Debug)]
pub struct OpenClDevice {
    pub id: usize,
    pub kind: DeviceKind,
    pub name: &'static str,
}

/// Minimal context holding the selected device.
#[derive(Clone, Copy, Debug)]
pub struct OpenClContext {
    device: OpenClDevice,
}

/// Backend instance.  In a fully fledged implementation this would manage
/// command queues, compiled kernels and device memory.
#[derive(Clone, Copy, Debug)]
pub struct OpenClBackend {
    ctx: OpenClContext,
}

impl OpenClBackend {
    /// The device this backend was created over, as contracts see it.
    pub closed spec fn spec_device(&self) -> OpenClDevice {
        self.ctx.device
    }

    /// Enumerate available OpenCL devices: one emulated CPU and one
    /// emulated GPU device, so that device selection can be exercised.
    pub fn enumerate() -> (devices: Vec<OpenClDevice>)
        ensures
            devices@.len() == 2,
            devices@[0].id == 0 && devices@[0].kind == DeviceKind::Cpu,
            devices@[1].id == 1 && devices@[1].kind == DeviceKind::Gpu,
    {
        let mut devices: Vec<OpenClDevice> = Vec::new();
        devices.push(OpenClDevice { id: 0, kind: DeviceKind::Cpu, name: "OpenCL CPU" });
        devices.push(OpenClDevice { id: 1, kind: DeviceKind::Gpu, name: "OpenCL GPU" });
        devices
    }

    /// Convenience helper mirroring other backends: at least one emulated
    /// device is always enumerated.
    pub fn is_available() -> (b: bool)
        ensures
            b,
    {
        let devices = Self::enumerate();
        !devices.is_empty()
    }

    /// Create a new backend for the requested device kind; both emulated
    /// kinds are always present.
    pub fn new(kind: DeviceKind) -> (backend: OpenClBackend)
        ensures
            backend.spec_device().kind == kind,
            backend.spec_device().id == (if kind == DeviceKind::Gpu {
                1int
            } else {
                0int
            }),
    {
        let devices = Self::enumerate();
        let device = if kind == DeviceKind::Gpu {
            devices[1]
        } else {
            devices[0]
        };
        OpenClBackend { ctx: OpenClContext { device } }
    }

    /// Simulate kernel compilation.  In the emulated backend this is a
    /// no-op, but it models the call that a real backend would perform.
    pub fn compile_kernel(&self, _src: &str, _name: &str) {
    }

    /// Launch a previously "compiled" kernel: the emulated backend executes
    /// the supplied closure on the host and returns its result.
    pub fn launch<F: FnOnce() -> R, R>(&self, f: F) -> (r: R)
        requires
            call_requires(f, ()),
        ensures
            call_ensures(f, (), r),
    {
        f()
    }
}

/// Initialize the OpenCL backend by probing available devices.
pub fn init() {
    let _ = OpenClBackend::enumerate();
}

} // verus!

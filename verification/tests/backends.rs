use amduda::dispatch::{Backend, BackendAvailability, Workload, resolve_backend};
use amduda::hal_backends::opencl_backend::{DeviceKind, OpenClBackend};
use amduda::hal_backends::riscv_backend::RiscvBackend;
use amduda::hal_backends::rocm_backend::RocmBackend;
use amduda::hal_backends::sycl_backend::SyclBackend;
use amduda::optimizations::{GraphNode, optimize_graph};

#[test]
fn device_enumeration_reports_at_least_one_device() {
    let devices = RocmBackend::enumerate();
    assert!(!devices.is_empty());
}

#[test]
fn kernel_launch_executes_closure() {
    let backend = RocmBackend::new();
    let mut executed = false;
    backend.launch(|| {
        executed = true;
    });
    assert!(executed);
}

#[test]
fn opencl_device_enumeration() {
    let devices = OpenClBackend::enumerate();
    assert!(devices.iter().any(|d| d.kind == DeviceKind::Cpu));
    assert!(devices.iter().any(|d| d.kind == DeviceKind::Gpu));
}

#[test]
fn opencl_backend_launch_returns_closure_result() {
    let backend = OpenClBackend::new(DeviceKind::Gpu);
    backend.compile_kernel("", "matmul");
    let out = backend.launch(|| 41 + 1);
    assert_eq!(out, 42);
}

#[test]
fn sycl_backend_reports_cpu_device() {
    assert!(SyclBackend::is_available());
    let devices = SyclBackend::enumerate();
    assert_eq!(devices.len(), 1);
    assert_eq!(devices[0].id, 0);
    let backend = SyclBackend::new();
    let mut ran = false;
    backend.compile_kernel("", "attention");
    backend.launch(|| {
        ran = true;
    });
    assert!(ran);
}

#[test]
fn riscv_backend_is_always_available() {
    assert!(RiscvBackend::is_available());
    let _ = RiscvBackend::new();
}

#[test]
fn rocm_device_count_matches_enumeration() {
    assert_eq!(RocmBackend::device_count(), RocmBackend::enumerate().len());
    assert!(RocmBackend::is_available());
}

fn all_available() -> BackendAvailability {
    BackendAvailability { rocm: true, sycl: true, opencl: true, vulkan: true }
}

#[test]
fn dispatch_honors_user_preference() {
    let b = resolve_backend(Some(Backend::Sycl), Workload::Light, all_available());
    assert_eq!(b, Backend::Sycl);
}

#[test]
fn dispatch_falls_back_when_preferred_unavailable() {
    let avail = BackendAvailability { sycl: false, ..all_available() };
    let b = resolve_backend(Some(Backend::Sycl), Workload::Light, avail);
    assert_eq!(b, Backend::Cpu);
}

#[test]
fn dispatch_heavy_workload_prefers_accelerator() {
    let b = resolve_backend(None, Workload::Heavy, all_available());
    assert_eq!(b, Backend::Rocm);

    let avail = BackendAvailability { rocm: false, ..all_available() };
    assert_eq!(resolve_backend(None, Workload::Heavy, avail), Backend::OpenCl);
}

#[test]
fn dispatch_heavy_workload_cpu_when_nothing_available() {
    let avail = BackendAvailability { rocm: false, sycl: false, opencl: false, vulkan: false };
    assert_eq!(resolve_backend(None, Workload::Heavy, avail), Backend::Cpu);
}

#[test]
fn dispatch_light_workload_uses_cpu() {
    assert_eq!(resolve_backend(None, Workload::Light, all_available()), Backend::Cpu);
}

#[test]
fn optimize_graph_returns_graph_unmodified() {
    let graph = vec![GraphNode { name: "matmul" }, GraphNode { name: "ln" }];
    let out = optimize_graph(&graph);
    assert_eq!(out.len(), 2);
    assert_eq!(out[0].name, "matmul");
    assert_eq!(out[1].name, "ln");
}

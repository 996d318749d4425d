use amduda::memory_tiering::{DeviceCapabilities, MemoryManager, MemoryTier, allocate, parse_usize};

fn caps(has_gpu: bool, has_nvme: bool) -> DeviceCapabilities {
    DeviceCapabilities {
        has_gpu,
        has_nvme,
        gpu_mem: 1024,
        cpu_mem: 8192,
        nvme_mem: usize::MAX,
    }
}

#[test]
fn gpu_caching_and_migration() {
    let caps = caps(true, true);
    let mut mgr = MemoryManager::new_with_limits(caps, 64, 64, 256);

    assert_eq!(mgr.allocate(32), MemoryTier::Gpu);
    assert_eq!(mgr.usage(), (32, 0, 0));

    assert_eq!(mgr.allocate(48), MemoryTier::Gpu);
    assert_eq!(mgr.usage(), (64, 16, 0));

    assert_eq!(mgr.allocate(64), MemoryTier::Gpu);
    assert_eq!(mgr.usage(), (64, 64, 16));
}

#[test]
fn cpu_and_nvme_fallback() {
    let caps = caps(false, true);
    let mut mgr = MemoryManager::new_with_limits(caps, 0, 64, 512);

    assert_eq!(mgr.allocate(32), MemoryTier::Cpu);
    assert_eq!(mgr.usage(), (0, 32, 0));

    assert_eq!(mgr.allocate(64), MemoryTier::Cpu);
    assert_eq!(mgr.usage(), (0, 64, 32));

    assert_eq!(mgr.allocate(128), MemoryTier::Nvme);
    assert_eq!(mgr.usage(), (0, 0, 224));
}

#[test]
fn manual_migration() {
    let caps = caps(true, true);
    let mut mgr = MemoryManager::new_with_limits(caps, 64, 64, 256);

    mgr.allocate(32);
    mgr.migrate(MemoryTier::Gpu, MemoryTier::Cpu, 16);
    assert_eq!(mgr.usage(), (16, 16, 0));

    mgr.migrate(MemoryTier::Cpu, MemoryTier::Nvme, 8);
    assert_eq!(mgr.usage(), (16, 8, 8));
}

#[test]
fn cold_data_evicted_first() {
    let caps = caps(true, true);
    let mut mgr = MemoryManager::new_with_limits(caps, 64, 64, 256);

    mgr.allocate(64);
    mgr.mark_cold(MemoryTier::Gpu, 32);
    assert_eq!(mgr.allocate(32), MemoryTier::Gpu);
    assert_eq!(mgr.usage(), (64, 32, 0));
}

#[test]
fn large_allocation_falls_back() {
    let caps = caps(true, true);
    let mut mgr = MemoryManager::new_with_limits(caps, 64, 64, 256);

    assert_eq!(mgr.allocate(200), MemoryTier::Nvme);
    assert_eq!(mgr.usage(), (0, 0, 200));
}

#[test]
fn tensor_ops_allocation_respects_tiers() {
    let caps = caps(true, true);
    let mut mgr = MemoryManager::new_with_limits(caps, 64, 64, 256);

    // A 2x2 single-precision matmul result occupies 16 bytes.
    let a = vec![1.0f32; 4];
    let b = vec![1.0f32; 4];
    let mut result = vec![0.0f32; 4];
    for i in 0..2 {
        for j in 0..2 {
            let mut sum = 0.0f32;
            for p in 0..2 {
                sum += a[i * 2 + p] * b[p * 2 + j];
            }
            result[i * 2 + j] = sum;
        }
    }
    let bytes = result.len() * std::mem::size_of::<f32>();

    let tier = mgr.allocate(bytes);
    assert_eq!(tier, MemoryTier::Gpu);

    mgr.mark_cold(MemoryTier::Gpu, bytes);
    assert_eq!(mgr.allocate(64), MemoryTier::Gpu);
    assert_eq!(mgr.usage(), (64, bytes, 0));
}

#[test]
fn eviction_without_nvme_drops_bytes() {
    // With no NVMe tier, bytes evicted from the CPU tier are discarded.
    let caps = caps(false, false);
    let mut mgr = MemoryManager::new_with_limits(caps, 0, 64, 0);

    assert_eq!(mgr.allocate(48), MemoryTier::Cpu);
    assert_eq!(mgr.usage(), (0, 48, 0));

    // Making room for 32 more bytes discards 16 bytes for good.
    assert_eq!(mgr.allocate(32), MemoryTier::Cpu);
    assert_eq!(mgr.usage(), (0, 64, 0));
}

#[test]
fn mark_cold_then_hot_restores_cold_count() {
    let caps = caps(true, true);
    let mut mgr = MemoryManager::new_with_limits(caps, 64, 64, 256);
    mgr.allocate(48);
    mgr.mark_cold(MemoryTier::Gpu, 16);

    // 16 cold of 48 used: marking 32 more cold and hot again is neutral.
    mgr.mark_cold(MemoryTier::Gpu, 32);
    mgr.mark_hot(MemoryTier::Gpu, 32);
    // The cold count is back at 16: evicting under a 16-byte deficit moves
    // exactly the cold bytes.
    assert_eq!(mgr.allocate(32), MemoryTier::Gpu);
    assert_eq!(mgr.usage(), (64, 16, 0));
}

#[test]
fn migrate_round_trip_restores_usage() {
    let caps = caps(true, true);
    let mut mgr = MemoryManager::new_with_limits(caps, 64, 64, 256);
    mgr.allocate(40);
    assert_eq!(mgr.usage(), (40, 0, 0));

    mgr.migrate(MemoryTier::Gpu, MemoryTier::Cpu, 24);
    assert_eq!(mgr.usage(), (16, 24, 0));
    mgr.migrate(MemoryTier::Cpu, MemoryTier::Gpu, 24);
    assert_eq!(mgr.usage(), (40, 0, 0));
}

#[test]
fn one_shot_allocation_uses_default_limits() {
    assert_eq!(allocate(caps(true, true), 512), MemoryTier::Gpu);
    assert_eq!(allocate(caps(false, true), 9000), MemoryTier::Nvme);
    assert_eq!(allocate(caps(false, true), 4096), MemoryTier::Cpu);
}

#[test]
fn parse_usize_accepts_digit_runs() {
    assert_eq!(parse_usize("0"), Some(0));
    assert_eq!(parse_usize("123"), Some(123));
    assert_eq!(parse_usize("4096"), Some(4096));
}

#[test]
fn parse_usize_rejects_bad_input() {
    assert_eq!(parse_usize(""), None);
    assert_eq!(parse_usize("12x"), None);
    assert_eq!(parse_usize("-5"), None);
    assert_eq!(parse_usize(" 12"), None);
    // One past the largest representable value.
    assert_eq!(parse_usize("18446744073709551616"), None);
    assert_eq!(parse_usize("18446744073709551615"), Some(usize::MAX));
}

#[test]
fn settings_fall_back_to_defaults() {
    let caps = DeviceCapabilities::from_settings(None, None, None, None, None);
    assert!(!caps.has_gpu);
    assert!(!caps.has_nvme);
    assert_eq!(caps.gpu_mem, 1024);
    assert_eq!(caps.cpu_mem, 8192);
    assert_eq!(caps.nvme_mem, usize::MAX);

    let caps = DeviceCapabilities::from_settings(
        Some("1"),
        Some("yes"),
        Some("2048"),
        Some("not a number"),
        Some("100"),
    );
    assert!(caps.has_gpu);
    assert!(!caps.has_nvme);
    assert_eq!(caps.gpu_mem, 2048);
    assert_eq!(caps.cpu_mem, 8192);
    assert_eq!(caps.nvme_mem, 100);
}

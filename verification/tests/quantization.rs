use amduda::memory_tiering::{DeviceCapabilities, MemoryTier};
use amduda::model_loader::{ModelConfig, Quantization, weight_tier};
use amduda::quantizer::{pack_nibbles, unpack_nibbles};

#[test]
fn test_quantization_round_trip() {
    let data = vec![0.0_f32, 0.5, -0.5];
    let quantized: Vec<i8> = data.iter().map(|x| (x * 127.0) as i8).collect();
    assert_eq!(quantized, vec![0, 63, -63]);
}

#[test]
fn pack_nibbles_packs_two_values_per_byte() {
    // 1 in the low nibble, -1 (pattern 15) in the high nibble.
    assert_eq!(pack_nibbles(&vec![1, -1]), vec![1 + 16 * 15]);
    // An odd run pads the final high nibble with zero.
    assert_eq!(pack_nibbles(&vec![-8, 7, 3]), vec![8 + 16 * 7, 3]);
    assert_eq!(pack_nibbles(&vec![]), Vec::<u8>::new());
}

#[test]
fn unpack_nibbles_restores_signed_values() {
    assert_eq!(unpack_nibbles(&vec![1 + 16 * 15], 2), vec![1, -1]);
    assert_eq!(unpack_nibbles(&vec![8 + 16 * 7, 3], 3), vec![-8, 7, 3]);
}

#[test]
fn nibble_round_trip_restores_values() {
    let values: Vec<i8> = vec![-8, -1, 0, 1, 7, 5, -3];
    let packed = pack_nibbles(&values);
    assert_eq!(unpack_nibbles(&packed, values.len()), values);

    let even: Vec<i8> = vec![4, -4, 2, -2];
    let packed = pack_nibbles(&even);
    assert_eq!(unpack_nibbles(&packed, even.len()), even);
}

#[test]
fn unpack_with_even_count_reads_whole_bytes() {
    // An even requested count never hits the early cut; everything the
    // bytes hold comes back.
    assert_eq!(unpack_nibbles(&vec![0x21, 0x43], 2), vec![1, 2, 3, 4]);
}

#[test]
fn model_config_carries_quantization() {
    let config = ModelConfig {
        name: "tiny".to_string(),
        weight_path: "weights.bin".to_string(),
        quantization: Some(Quantization::Int4),
    };
    assert_eq!(config.quantization, Some(Quantization::Int4));
    assert_eq!(config.name, "tiny");
}

#[test]
fn weight_tier_decides_placement_by_size() {
    let caps = DeviceCapabilities {
        has_gpu: false,
        has_nvme: true,
        gpu_mem: 1024,
        cpu_mem: 8192,
        nvme_mem: usize::MAX,
    };
    // Small weights stay resident; weights beyond the CPU budget are
    // mapped from storage.
    assert_eq!(weight_tier(caps, 4096), MemoryTier::Cpu);
    assert_eq!(weight_tier(caps, 100_000), MemoryTier::Nvme);

    let with_gpu = DeviceCapabilities { has_gpu: true, ..caps };
    assert_eq!(weight_tier(with_gpu, 512), MemoryTier::Gpu);
}

//! Model loading configuration types and the placement rule for weights.
//!
//! Reading configuration files and weight bytes is I/O outside the
//! library; what belongs here is the data model and the size-based
//! placement decision: weights whose allocation lands on the NVMe tier are
//! mapped lazily from storage, any other tier triggers an eager read.

use vstd::prelude::*;

verus! {

use crate::memory_tiering::DeviceCapabilities;
use crate::memory_tiering::MemoryTier;
use crate::memory_tiering::allocate;
use crate::tiering_model::fresh_ledger;
use crate::tiering_model::spec_allocate;

/// Supported on-disk quantized weight formats.
#[derive(Debug, PartialEq, Eq, Structural, Clone, Copy)]
pub enum Quantization {
    Int4,
    Int8,
    Bf16,
}

/// Configuration for loading a model from disk.
#[derive(Debug)]
pub struct ModelConfig {
    pub name: String,
    pub weight_path: String,
    pub quantization: Option<Quantization>,
}

/// Decide where weights of a given byte size are placed, against a fresh
/// manager with default limits; the loader maps the weights lazily when
/// this returns the NVMe tier and reads them eagerly otherwise.
pub fn weight_tier(caps: DeviceCapabilities, size: usize) -> (tier: MemoryTier)
    ensures
        tier == spec_allocate(
            fresh_ledger(
                caps.has_gpu,
                caps.has_nvme,
                caps.gpu_mem as nat,
                caps.cpu_mem as nat,
                caps.nvme_mem as nat,
            ),
            size as nat,
        ).1,
{
    allocate(caps, size)
}

} // verus!

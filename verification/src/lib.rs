//! Memory-placement and attention-staging core of a tiered inference runtime.
//!
//! The crate models a three-level memory hierarchy (GPU, CPU, NVMe) as a
//! byte-count ledger, decides where allocations land, migrates charge between
//! tiers under pressure, and stages the tier traffic of sliding-window and
//! block-sparse paged attention.  Around that core stand the runtime's data
//! model: the token-processing and symbolic state machines, backend
//! enumeration and dispatch rules, and the bit-level layout of 4-bit
//! quantized weights.  Numerical kernels, device probing and all I/O live
//! outside this library; everything here is pure bookkeeping and decision
//! logic, verified against the ledger model in [`tiering_model`].

pub mod dispatch;
pub mod hal_backends;
pub mod memory_tiering;
pub mod model_loader;
pub mod optimizations;
pub mod paged_attention;
pub mod procedural_fsm;
pub mod quantizer;
pub mod runtime;
pub mod symbolic_fsm;
pub mod tensor_ops;
pub mod tiering_model;

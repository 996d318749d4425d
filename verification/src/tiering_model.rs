//! Mathematical model of the tiered-memory ledger.
//!
//! Every public operation of [`crate::memory_tiering::MemoryManager`] is
//! specified as a total function over [`LedgerModel`]; the executable code is
//! proved to compute exactly these functions.  The proofs in this file state
//! the laws of the ledger: well-formedness is preserved by every operation,
//! no byte is created or lost except through the recorded charge and drop
//! counters, marking bytes cold and hot again restores the ledger, and an
//! eviction-free migration can be undone.

use vstd::prelude::*;

verus! {

use crate::memory_tiering::MemoryTier;

/// Byte counters of a single memory tier.
pub ghost struct TierCounts {
    /// Byte ceiling of the tier.
    pub limit: nat,
    /// Bytes currently charged to the tier.
    pub used: nat,
    /// Subset of `used` that is marked eviction-eligible.
    pub cold: nat,
}

/// Ghost state of a whole memory manager.
pub ghost struct LedgerModel {
    /// Whether an accelerator tier exists at all.
    pub has_gpu: bool,
    /// Whether a block-storage tier exists at all.
    pub has_nvme: bool,
    pub gpu: TierCounts,
    pub cpu: TierCounts,
    pub nvme: TierCounts,
    /// Bytes ever accepted by `allocate` over the manager's lifetime.
    pub charged: nat,
    /// Bytes ever removed from the ledger without a destination: evictions
    /// from the CPU tier when NVMe is absent or full, and amounts clipped by
    /// the byte-counter ceiling.
    pub dropped: nat,
}

/// Largest value a byte counter can hold.
pub open spec fn counter_max() -> nat {
    usize::MAX as nat
}

/// Addition that clips at the counter ceiling, as the executable counters do.
pub open spec fn sat_add(a: nat, b: nat) -> nat {
    if a + b > counter_max() {
        counter_max()
    } else {
        (a + b) as nat
    }
}

/// Bytes lost when `b` is added to counter `a`.
pub open spec fn sat_clip(a: nat, b: nat) -> nat {
    (a + b - sat_add(a, b)) as nat
}

pub open spec fn min_nat(a: nat, b: nat) -> nat {
    if a < b {
        a
    } else {
        b
    }
}

/// A tier never has more cold bytes than used bytes, and its counters fit
/// the machine's byte-counter range (as every counter read off an actual
/// manager does).
pub open spec fn tier_wf(t: TierCounts) -> bool {
    t.cold <= t.used && t.used <= counter_max() && t.limit <= counter_max()
}

/// Well-formedness of the whole ledger.
pub open spec fn ledger_wf(m: LedgerModel) -> bool {
    tier_wf(m.gpu) && tier_wf(m.cpu) && tier_wf(m.nvme)
}

/// Bytes currently charged across all tiers.
pub open spec fn total_used(m: LedgerModel) -> nat {
    m.gpu.used + m.cpu.used + m.nvme.used
}

/// Conservation: every byte ever charged is still held by some tier or was
/// discarded.
pub open spec fn conserves(m: LedgerModel) -> bool {
    total_used(m) + m.dropped == m.charged
}

/// A ledger with the given shape and no charge.
pub open spec fn fresh_ledger(
    has_gpu: bool,
    has_nvme: bool,
    gpu_limit: nat,
    cpu_limit: nat,
    nvme_limit: nat,
) -> LedgerModel {
    LedgerModel {
        has_gpu,
        has_nvme,
        gpu: TierCounts { limit: gpu_limit, used: 0, cold: 0 },
        cpu: TierCounts { limit: cpu_limit, used: 0, cold: 0 },
        nvme: TierCounts { limit: nvme_limit, used: 0, cold: 0 },
        charged: 0,
        dropped: 0,
    }
}

/// Make room for `bytes` more bytes in the CPU tier.
///
/// If NVMe exists and has room for the deficit, cold bytes move there first,
/// then bytes regardless of hotness.  Otherwise the same amounts are dropped:
/// this is the deliberate lossy path of a hierarchy without a slower tier.
pub open spec fn spec_ensure_cpu(m: LedgerModel, bytes: nat) -> LedgerModel {
    if m.cpu.used + bytes <= m.cpu.limit {
        m
    } else {
        let needed = (m.cpu.used + bytes - m.cpu.limit) as nat;
        if m.has_nvme && m.nvme.used + needed <= m.nvme.limit {
            let cm = min_nat(needed, m.cpu.cold);
            let m1 = LedgerModel {
                cpu: TierCounts { used: (m.cpu.used - cm) as nat, cold: (m.cpu.cold - cm) as nat, ..m.cpu },
                nvme: TierCounts { used: m.nvme.used + cm, cold: m.nvme.cold + cm, ..m.nvme },
                ..m
            };
            if m1.cpu.used + bytes > m1.cpu.limit {
                let remaining = (m1.cpu.used + bytes - m1.cpu.limit) as nat;
                let mig = min_nat(remaining, m1.cpu.used);
                LedgerModel {
                    cpu: TierCounts { used: (m1.cpu.used - mig) as nat, ..m1.cpu },
                    nvme: TierCounts { used: m1.nvme.used + mig, ..m1.nvme },
                    ..m1
                }
            } else {
                m1
            }
        } else {
            let dc = min_nat(needed, m.cpu.cold);
            let m1 = LedgerModel {
                cpu: TierCounts { used: (m.cpu.used - dc) as nat, cold: (m.cpu.cold - dc) as nat, ..m.cpu },
                dropped: m.dropped + dc,
                ..m
            };
            if m1.cpu.used + bytes > m1.cpu.limit {
                let remaining = (m1.cpu.used + bytes - m1.cpu.limit) as nat;
                let dh = min_nat(remaining, m1.cpu.used);
                LedgerModel {
                    cpu: TierCounts { used: (m1.cpu.used - dh) as nat, ..m1.cpu },
                    dropped: m1.dropped + dh,
                    ..m1
                }
            } else {
                m1
            }
        }
    }
}

/// Make room for `bytes` more bytes in the GPU tier.
///
/// Cold bytes migrate to the CPU tier first (after making room there), then
/// bytes regardless of hotness.
pub open spec fn spec_ensure_gpu(m: LedgerModel, bytes: nat) -> LedgerModel {
    if m.gpu.used + bytes <= m.gpu.limit {
        m
    } else {
        let needed = (m.gpu.used + bytes - m.gpu.limit) as nat;
        let m1 = if m.gpu.cold > 0 {
            let cm = min_nat(needed, m.gpu.cold);
            let ma = spec_ensure_cpu(m, cm);
            LedgerModel {
                gpu: TierCounts { used: (ma.gpu.used - cm) as nat, cold: (ma.gpu.cold - cm) as nat, ..ma.gpu },
                cpu: TierCounts { used: ma.cpu.used + cm, cold: ma.cpu.cold + cm, ..ma.cpu },
                ..ma
            }
        } else {
            m
        };
        if m1.gpu.used + bytes <= m1.gpu.limit {
            m1
        } else {
            let remaining = (m1.gpu.used + bytes - m1.gpu.limit) as nat;
            let mb = spec_ensure_cpu(m1, remaining);
            let mig = min_nat(remaining, mb.gpu.used);
            LedgerModel {
                gpu: TierCounts { used: (mb.gpu.used - mig) as nat, ..mb.gpu },
                cpu: TierCounts { used: mb.cpu.used + mig, ..mb.cpu },
                ..mb
            }
        }
    }
}

/// Which tier an allocation of `bytes` lands on, and the ledger afterwards.
pub open spec fn spec_allocate(m: LedgerModel, bytes: nat) -> (LedgerModel, MemoryTier) {
    if m.has_gpu && bytes <= m.gpu.limit {
        let m1 = spec_ensure_gpu(m, bytes);
        let m2 = LedgerModel {
            gpu: TierCounts { used: m1.gpu.used + bytes, ..m1.gpu },
            charged: m1.charged + bytes,
            ..m1
        };
        (m2, MemoryTier::Gpu)
    } else {
        let m1 = spec_ensure_cpu(m, bytes);
        if m1.cpu.used + bytes <= m1.cpu.limit {
            let m2 = LedgerModel {
                cpu: TierCounts { used: m1.cpu.used + bytes, ..m1.cpu },
                charged: m1.charged + bytes,
                ..m1
            };
            (m2, MemoryTier::Cpu)
        } else {
            let m2 = LedgerModel {
                nvme: TierCounts { used: sat_add(m1.nvme.used, bytes), ..m1.nvme },
                charged: m1.charged + bytes,
                dropped: m1.dropped + sat_clip(m1.nvme.used, bytes),
                ..m1
            };
            (m2, MemoryTier::Nvme)
        }
    }
}

/// Manual migration of up to `bytes` bytes of charge between two tiers.
pub open spec fn spec_migrate(m: LedgerModel, from: MemoryTier, to: MemoryTier, bytes: nat) -> LedgerModel {
    match (from, to) {
        (MemoryTier::Gpu, MemoryTier::Cpu) => {
            let m1 = spec_ensure_cpu(m, bytes);
            let moved = min_nat(bytes, m1.gpu.used);
            let cold = min_nat(moved, m1.gpu.cold);
            LedgerModel {
                gpu: TierCounts { used: (m1.gpu.used - moved) as nat, cold: (m1.gpu.cold - cold) as nat, ..m1.gpu },
                cpu: TierCounts { used: m1.cpu.used + moved, cold: m1.cpu.cold + cold, ..m1.cpu },
                ..m1
            }
        },
        (MemoryTier::Cpu, MemoryTier::Gpu) => {
            if m.has_gpu {
                let m1 = spec_ensure_gpu(m, bytes);
                let moved = min_nat(bytes, m1.cpu.used);
                let cold = min_nat(moved, m1.cpu.cold);
                LedgerModel {
                    cpu: TierCounts { used: (m1.cpu.used - moved) as nat, cold: (m1.cpu.cold - cold) as nat, ..m1.cpu },
                    gpu: TierCounts { used: m1.gpu.used + moved, cold: m1.gpu.cold + cold, ..m1.gpu },
                    ..m1
                }
            } else {
                m
            }
        },
        (MemoryTier::Cpu, MemoryTier::Nvme) => {
            if m.has_nvme {
                let moved = min_nat(bytes, m.cpu.used);
                let cold = min_nat(moved, m.cpu.cold);
                LedgerModel {
                    cpu: TierCounts { used: (m.cpu.used - moved) as nat, cold: (m.cpu.cold - cold) as nat, ..m.cpu },
                    nvme: TierCounts {
                        used: sat_add(m.nvme.used, moved),
                        cold: sat_add(m.nvme.cold, cold),
                        ..m.nvme
                    },
                    dropped: m.dropped + sat_clip(m.nvme.used, moved),
                    ..m
                }
            } else {
                m
            }
        },
        (MemoryTier::Nvme, MemoryTier::Cpu) => {
            let moved = min_nat(bytes, m.nvme.used);
            let m1 = spec_ensure_cpu(m, moved);
            let moved1 = min_nat(moved, m1.nvme.used);
            let cold = min_nat(moved1, m1.nvme.cold);
            LedgerModel {
                nvme: TierCounts { used: (m1.nvme.used - moved1) as nat, cold: (m1.nvme.cold - cold) as nat, ..m1.nvme },
                cpu: TierCounts { used: m1.cpu.used + moved1, cold: m1.cpu.cold + cold, ..m1.cpu },
                ..m1
            }
        },
        _ => m,
    }
}

/// Select the counters of one tier.
pub open spec fn tier_of(m: LedgerModel, tier: MemoryTier) -> TierCounts {
    match tier {
        MemoryTier::Gpu => m.gpu,
        MemoryTier::Cpu => m.cpu,
        MemoryTier::Nvme => m.nvme,
    }
}

/// Replace the counters of one tier.
pub open spec fn with_tier(m: LedgerModel, tier: MemoryTier, t: TierCounts) -> LedgerModel {
    match tier {
        MemoryTier::Gpu => LedgerModel { gpu: t, ..m },
        MemoryTier::Cpu => LedgerModel { cpu: t, ..m },
        MemoryTier::Nvme => LedgerModel { nvme: t, ..m },
    }
}

/// Mark up to `bytes` bytes of a tier as eviction-eligible, clamped so the
/// cold count never exceeds the used count.
pub open spec fn spec_mark_cold(m: LedgerModel, tier: MemoryTier, bytes: nat) -> LedgerModel {
    let t = tier_of(m, tier);
    let add = min_nat(bytes, (t.used - t.cold) as nat);
    with_tier(m, tier, TierCounts { cold: t.cold + add, ..t })
}

/// Mark up to `bytes` bytes of a tier as hot again, clamped at zero.
pub open spec fn spec_mark_hot(m: LedgerModel, tier: MemoryTier, bytes: nat) -> LedgerModel {
    let t = tier_of(m, tier);
    let sub = min_nat(bytes, t.cold);
    with_tier(m, tier, TierCounts { cold: (t.cold - sub) as nat, ..t })
}

pub open spec fn max_nat(a: nat, b: nat) -> nat {
    if a > b {
        a
    } else {
        b
    }
}

/// What making room in the CPU tier does and does not touch: GPU counters,
/// limits, flags and the charge counter are untouched, well-formedness is
/// preserved, no byte leaves the ledger unrecorded, and afterwards the CPU
/// tier holds the requested room whenever the request fits its limit at all.
pub proof fn lemma_ensure_cpu_effect(m: LedgerModel, bytes: nat)
    requires
        ledger_wf(m),
    ensures
        ledger_wf(spec_ensure_cpu(m, bytes)),
        spec_ensure_cpu(m, bytes).gpu == m.gpu,
        spec_ensure_cpu(m, bytes).cpu.limit == m.cpu.limit,
        spec_ensure_cpu(m, bytes).nvme.limit == m.nvme.limit,
        spec_ensure_cpu(m, bytes).has_gpu == m.has_gpu,
        spec_ensure_cpu(m, bytes).has_nvme == m.has_nvme,
        spec_ensure_cpu(m, bytes).charged == m.charged,
        spec_ensure_cpu(m, bytes).cpu.used + bytes <= max_nat(m.cpu.limit, bytes),
        spec_ensure_cpu(m, bytes).nvme.used <= max_nat(m.nvme.used, m.nvme.limit),
        total_used(spec_ensure_cpu(m, bytes)) + spec_ensure_cpu(m, bytes).dropped
            == total_used(m) + m.dropped,
{
}

// Every operation keeps every tier well-formed: `0 <= cold <= used` holds of
// each tier in every reachable ledger.  The executable operations restate
// this on their own contracts; the three lemmas below are the model-level
// form, one per operation.  The companion bound `used <= limit` holds of the
// GPU tier across allocation (`lemma_allocate_respects_gpu_limit`) and of
// the CPU tier across allocations that bypass the GPU tier
// (`lemma_allocate_cpu_within_limit`); it is not preserved by every
// operation, since migration charges the destination with whatever fits
// nowhere else rather than fail.

/// Law: marking bytes cold or hot keeps every tier well-formed.
pub proof fn lemma_mark_wf(m: LedgerModel, tier: MemoryTier, bytes: nat)
    requires
        ledger_wf(m),
    ensures
        ledger_wf(spec_mark_cold(m, tier, bytes)),
        ledger_wf(spec_mark_hot(m, tier, bytes)),
{
}

/// Law: allocation keeps every tier well-formed.
pub proof fn lemma_allocate_wf(m: LedgerModel, bytes: nat)
    requires
        ledger_wf(m),
    ensures
        ledger_wf(spec_allocate(m, bytes).0),
{
    if m.has_gpu && bytes <= m.gpu.limit {
        lemma_ensure_gpu_effect(m, bytes);
    } else {
        lemma_ensure_cpu_effect(m, bytes);
    }
}

/// Law: migration keeps every tier well-formed.
pub proof fn lemma_migrate_wf(m: LedgerModel, from: MemoryTier, to: MemoryTier, bytes: nat)
    requires
        ledger_wf(m),
    ensures
        ledger_wf(spec_migrate(m, from, to, bytes)),
{
    match (from, to) {
        (MemoryTier::Gpu, MemoryTier::Cpu) => {
            lemma_migrate_wf_gpu_cpu(m, bytes);
        },
        (MemoryTier::Cpu, MemoryTier::Gpu) => {
            lemma_migrate_wf_cpu_gpu(m, bytes);
        },
        (MemoryTier::Cpu, MemoryTier::Nvme) => {
            lemma_migrate_wf_cpu_nvme(m, bytes);
        },
        (MemoryTier::Nvme, MemoryTier::Cpu) => {
            lemma_migrate_wf_nvme_cpu(m, bytes);
        },
        _ => {},
    }
}

proof fn lemma_migrate_wf_gpu_cpu(m: LedgerModel, bytes: nat)
    requires
        ledger_wf(m),
    ensures
        ledger_wf(spec_migrate(m, MemoryTier::Gpu, MemoryTier::Cpu, bytes)),
{
    lemma_ensure_cpu_effect(m, bytes);
}

proof fn lemma_migrate_wf_cpu_gpu(m: LedgerModel, bytes: nat)
    requires
        ledger_wf(m),
    ensures
        ledger_wf(spec_migrate(m, MemoryTier::Cpu, MemoryTier::Gpu, bytes)),
{
    if m.has_gpu {
        lemma_ensure_gpu_effect(m, bytes);
    }
}

proof fn lemma_migrate_wf_cpu_nvme(m: LedgerModel, bytes: nat)
    requires
        ledger_wf(m),
    ensures
        ledger_wf(spec_migrate(m, MemoryTier::Cpu, MemoryTier::Nvme, bytes)),
{
}

proof fn lemma_migrate_wf_nvme_cpu(m: LedgerModel, bytes: nat)
    requires
        ledger_wf(m),
    ensures
        ledger_wf(spec_migrate(m, MemoryTier::Nvme, MemoryTier::Cpu, bytes)),
{
    let moved = min_nat(bytes, m.nvme.used);
    lemma_ensure_cpu_effect(m, moved);
}

/// Law: allocation never pushes the GPU tier past its limit.
pub proof fn lemma_allocate_respects_gpu_limit(m: LedgerModel, bytes: nat)
    requires
        ledger_wf(m),
        m.gpu.used <= m.gpu.limit,
    ensures
        spec_allocate(m, bytes).0.gpu.used <= m.gpu.limit,
{
    if m.has_gpu && bytes <= m.gpu.limit {
        lemma_ensure_gpu_effect(m, bytes);
    } else {
        lemma_ensure_cpu_effect(m, bytes);
    }
}

/// Law: an allocation that cannot try the GPU tier leaves the CPU tier
/// within its limit: either the bytes fit there after eviction, or they are
/// charged to NVMe instead.
pub proof fn lemma_allocate_cpu_within_limit(m: LedgerModel, bytes: nat)
    requires
        ledger_wf(m),
        !(m.has_gpu && bytes <= m.gpu.limit),
    ensures
        spec_allocate(m, bytes).0.cpu.used <= m.cpu.limit,
{
    lemma_ensure_cpu_effect(m, bytes);
}

/// Law (conservation): every operation leaves `sum(used) + dropped ==
/// charged` intact; `allocate` is the only operation that raises the
/// lifetime charge, and raises it by exactly the bytes accepted.
pub proof fn lemma_ops_conserve(m: LedgerModel, tier: MemoryTier, from: MemoryTier, to: MemoryTier, bytes: nat)
    requires
        ledger_wf(m),
        conserves(m),
    ensures
        conserves(spec_allocate(m, bytes).0),
        spec_allocate(m, bytes).0.charged == m.charged + bytes,
        conserves(spec_migrate(m, from, to, bytes)),
        spec_migrate(m, from, to, bytes).charged == m.charged,
        conserves(spec_mark_cold(m, tier, bytes)),
        spec_mark_cold(m, tier, bytes).charged == m.charged,
        conserves(spec_mark_hot(m, tier, bytes)),
        spec_mark_hot(m, tier, bytes).charged == m.charged,
{
    lemma_allocate_conserves(m, bytes);
    lemma_migrate_conserves(m, from, to, bytes);
}

proof fn lemma_allocate_conserves(m: LedgerModel, bytes: nat)
    requires
        ledger_wf(m),
        conserves(m),
    ensures
        conserves(spec_allocate(m, bytes).0),
        spec_allocate(m, bytes).0.charged == m.charged + bytes,
{
    if m.has_gpu && bytes <= m.gpu.limit {
        lemma_ensure_gpu_effect(m, bytes);
    } else {
        lemma_ensure_cpu_effect(m, bytes);
    }
}

proof fn lemma_migrate_conserves(m: LedgerModel, from: MemoryTier, to: MemoryTier, bytes: nat)
    requires
        ledger_wf(m),
        conserves(m),
    ensures
        conserves(spec_migrate(m, from, to, bytes)),
        spec_migrate(m, from, to, bytes).charged == m.charged,
{
    match (from, to) {
        (MemoryTier::Gpu, MemoryTier::Cpu) => {
            lemma_ensure_cpu_effect(m, bytes);
        },
        (MemoryTier::Cpu, MemoryTier::Gpu) => {
            if m.has_gpu {
                lemma_ensure_gpu_effect(m, bytes);
            }
        },
        (MemoryTier::Cpu, MemoryTier::Nvme) => {
        },
        (MemoryTier::Nvme, MemoryTier::Cpu) => {
            let moved = min_nat(bytes, m.nvme.used);
            lemma_ensure_cpu_effect(m, moved);
        },
        _ => {},
    }
}

/// Law (idempotence of marking): marking `n` bytes cold and then the same
/// `n` bytes hot restores the ledger exactly, provided the tier had room for
/// `n` more cold bytes — that is, `n` is at most the tier's hot byte count.
/// (With fewer hot bytes than `n`, the cold mark is clamped but the hot mark
/// is not, so the cold count would end lower than it began.)
pub proof fn lemma_mark_round_trip(m: LedgerModel, tier: MemoryTier, n: nat)
    requires
        ledger_wf(m),
        tier_of(m, tier).cold + n <= tier_of(m, tier).used,
    ensures
        spec_mark_hot(spec_mark_cold(m, tier, n), tier, n) == m,
{
}

/// The eviction-free conditions under which a migration can be undone:
/// the pair of tiers must both exist, the bytes must actually be present at
/// the source, and both directions must find room without evicting.
pub open spec fn round_trip_pre(m: LedgerModel, from: MemoryTier, to: MemoryTier, n: nat) -> bool {
    match (from, to) {
        (MemoryTier::Gpu, MemoryTier::Cpu) => {
            &&& m.has_gpu
            &&& n <= m.gpu.used
            &&& m.gpu.used <= m.gpu.limit
            &&& m.cpu.used + n <= m.cpu.limit
        },
        (MemoryTier::Cpu, MemoryTier::Gpu) => {
            &&& m.has_gpu
            &&& n <= m.cpu.used
            &&& m.cpu.used <= m.cpu.limit
            &&& m.gpu.used + n <= m.gpu.limit
        },
        (MemoryTier::Cpu, MemoryTier::Nvme) => {
            &&& m.has_nvme
            &&& n <= m.cpu.used
            &&& m.cpu.used <= m.cpu.limit
            &&& m.nvme.used + n <= counter_max()
        },
        (MemoryTier::Nvme, MemoryTier::Cpu) => {
            &&& m.has_nvme
            &&& n <= m.nvme.used
            &&& m.nvme.used <= counter_max()
            &&& m.cpu.used + n <= m.cpu.limit
        },
        _ => true,
    }
}

/// Law (round trip): migrating `n` bytes from one tier to another and back
/// restores both used counts, whenever neither direction had to evict.
pub proof fn lemma_migrate_round_trip(m: LedgerModel, from: MemoryTier, to: MemoryTier, n: nat)
    requires
        ledger_wf(m),
        round_trip_pre(m, from, to, n),
    ensures
        tier_of(spec_migrate(spec_migrate(m, from, to, n), to, from, n), from).used
            == tier_of(m, from).used,
        tier_of(spec_migrate(spec_migrate(m, from, to, n), to, from, n), to).used
            == tier_of(m, to).used,
{
    let m1 = spec_migrate(m, from, to, n);
    match (from, to) {
        (MemoryTier::Gpu, MemoryTier::Cpu) => {
            assert(spec_ensure_cpu(m, n) == m);
            assert(spec_ensure_gpu(m1, n) == m1);
        },
        (MemoryTier::Cpu, MemoryTier::Gpu) => {
            assert(spec_ensure_gpu(m, n) == m);
            assert(spec_ensure_cpu(m1, n) == m1);
        },
        (MemoryTier::Cpu, MemoryTier::Nvme) => {
            assert(spec_ensure_cpu(m1, min_nat(n, m1.nvme.used)) == m1);
        },
        (MemoryTier::Nvme, MemoryTier::Cpu) => {
            assert(spec_ensure_cpu(m, min_nat(n, m.nvme.used)) == m);
        },
        _ => {},
    }
}

/// The analogous facts for making room in the GPU tier.
#[verifier::rlimit(100)]
pub proof fn lemma_ensure_gpu_effect(m: LedgerModel, bytes: nat)
    requires
        ledger_wf(m),
    ensures
        ledger_wf(spec_ensure_gpu(m, bytes)),
        spec_ensure_gpu(m, bytes).gpu.limit == m.gpu.limit,
        spec_ensure_gpu(m, bytes).cpu.limit == m.cpu.limit,
        spec_ensure_gpu(m, bytes).nvme.limit == m.nvme.limit,
        spec_ensure_gpu(m, bytes).has_gpu == m.has_gpu,
        spec_ensure_gpu(m, bytes).has_nvme == m.has_nvme,
        spec_ensure_gpu(m, bytes).charged == m.charged,
        spec_ensure_gpu(m, bytes).gpu.used + bytes <= max_nat(m.gpu.limit, bytes),
        spec_ensure_gpu(m, bytes).nvme.used <= max_nat(m.nvme.used, m.nvme.limit),
        total_used(spec_ensure_gpu(m, bytes)) + spec_ensure_gpu(m, bytes).dropped
            == total_used(m) + m.dropped,
{
    if !(m.gpu.used + bytes <= m.gpu.limit) {
        let needed = (m.gpu.used + bytes - m.gpu.limit) as nat;
        if m.gpu.cold > 0 {
            let cm = min_nat(needed, m.gpu.cold);
            lemma_ensure_cpu_effect(m, cm);
        }
        let m1 = if m.gpu.cold > 0 {
            let cm = min_nat(needed, m.gpu.cold);
            let ma = spec_ensure_cpu(m, cm);
            LedgerModel {
                gpu: TierCounts {
                    used: (ma.gpu.used - cm) as nat,
                    cold: (ma.gpu.cold - cm) as nat,
                    ..ma.gpu
                },
                cpu: TierCounts { used: ma.cpu.used + cm, cold: ma.cpu.cold + cm, ..ma.cpu },
                ..ma
            }
        } else {
            m
        };
        if !(m1.gpu.used + bytes <= m1.gpu.limit) {
            let remaining = (m1.gpu.used + bytes - m1.gpu.limit) as nat;
            lemma_ensure_cpu_effect(m1, remaining);
        }
    }
}

} // verus!

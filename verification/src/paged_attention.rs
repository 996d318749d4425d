//! Tier staging for sliding-window and block-sparse paged attention.
//!
//! The engine owns a [`MemoryManager`] and performs every allocation,
//! prefetch migration and hot/cold marking that a paged attention pass
//! issues: key/value buffers are charged to a tier, a working set is pulled
//! out of NVMe into CPU memory, and block-sparse passes rotate a bounded hot
//! window of blocks.  The floating-point kernel itself consumes the visible
//! ranges computed here ([`window_start`], [`block_ctx_start`]) and runs
//! outside the library; the engine is a pure bookkeeping oracle, so its
//! whole effect on the ledger is specified exactly.

use vstd::prelude::*;

verus! {

use crate::memory_tiering::DeviceCapabilities;
use crate::memory_tiering::MemoryManager;
use crate::memory_tiering::MemoryTier;
use crate::tiering_model::LedgerModel;
use crate::tiering_model::fresh_ledger;
use crate::tiering_model::ledger_wf;
use crate::tiering_model::min_nat;
use crate::tiering_model::spec_allocate;
use crate::tiering_model::spec_mark_cold;
use crate::tiering_model::spec_mark_hot;
use crate::tiering_model::spec_migrate;

/// Bytes per key/value element (single-precision width).
pub const KV_ELEM_BYTES: usize = 4;

/// First visible key index for the query at position `i` under a sliding
/// window of `window` previous tokens.
pub open spec fn spec_window_start(i: nat, window: nat) -> nat {
    if i >= window {
        (i + 1 - window) as nat
    } else {
        0
    }
}

/// First visible token index for a query in block `b`, when blocks hold
/// `block_size` tokens and `block_window` blocks (the current one included)
/// are visible.
pub open spec fn spec_block_ctx_start(b: nat, block_size: nat, block_window: nat) -> nat {
    let first_block: nat = if b + 1 >= block_window {
        (b + 1 - block_window) as nat
    } else {
        0
    };
    first_block * block_size
}

/// One cache-rotation step after finishing a block whose key/value buffers
/// live on NVMe: once the hot window is full (`evict`), the oldest in-cache
/// block is marked cold and pushed back to NVMe; the next block is then
/// pulled into CPU memory and marked hot.
pub open spec fn spec_rotate_step(m: LedgerModel, block_bytes: nat, evict: bool) -> LedgerModel {
    let m1 = if evict {
        spec_migrate(
            spec_mark_cold(m, MemoryTier::Cpu, block_bytes),
            MemoryTier::Cpu,
            MemoryTier::Nvme,
            block_bytes,
        )
    } else {
        m
    };
    spec_mark_hot(
        spec_migrate(m1, MemoryTier::Nvme, MemoryTier::Cpu, block_bytes),
        MemoryTier::Cpu,
        block_bytes,
    )
}

/// The ledger after the cache rotations for blocks `i` through `count - 1`,
/// with one rotation per buffer that lives on NVMe.
pub open spec fn spec_rotations(
    m: LedgerModel,
    i: nat,
    count: nat,
    block_window: nat,
    block_bytes: nat,
    k_nvme: bool,
    v_nvme: bool,
) -> LedgerModel
    decreases count - i,
{
    if i >= count {
        m
    } else {
        let evict = i + 1 >= block_window;
        let m1 = if k_nvme {
            spec_rotate_step(m, block_bytes, evict)
        } else {
            m
        };
        let m2 = if v_nvme {
            spec_rotate_step(m1, block_bytes, evict)
        } else {
            m1
        };
        spec_rotations(m2, i + 1, count, block_window, block_bytes, k_nvme, v_nvme)
    }
}

/// The whole ledger effect of a sliding-window pass over `k_len` key (and as
/// many value) elements: two allocations of the buffer size, then a prefetch
/// of `window_bytes` from NVMe into CPU memory for each buffer that landed
/// on NVMe.
pub open spec fn spec_stage_sliding(m: LedgerModel, byte_len: nat, window_bytes: nat) -> (
    LedgerModel,
    MemoryTier,
    MemoryTier,
) {
    let (m1, kt) = spec_allocate(m, byte_len);
    let (m2, vt) = spec_allocate(m1, byte_len);
    let m3 = if kt == MemoryTier::Nvme {
        spec_migrate(m2, MemoryTier::Nvme, MemoryTier::Cpu, window_bytes)
    } else {
        m2
    };
    let m4 = if vt == MemoryTier::Nvme {
        spec_migrate(m3, MemoryTier::Nvme, MemoryTier::Cpu, window_bytes)
    } else {
        m3
    };
    (m4, kt, vt)
}

/// The whole ledger effect of a block-sparse pass: two allocations, an
/// initial pull of the first `min(block_window, n_blocks)` blocks into CPU
/// memory for each NVMe-resident buffer, then one cache rotation per
/// finished block except the last.
pub open spec fn spec_stage_block_sparse(
    m: LedgerModel,
    q_len: nat,
    k_len: nat,
    d: nat,
    block_size: nat,
    block_window: nat,
) -> (LedgerModel, MemoryTier, MemoryTier) {
    let n = q_len / d;
    let n_blocks = (n + block_size - 1) as nat / block_size;
    let byte_len = k_len * (KV_ELEM_BYTES as nat);
    let (m1, kt) = spec_allocate(m, byte_len);
    let (m2, vt) = spec_allocate(m1, byte_len);
    let block_bytes = block_size * d * (KV_ELEM_BYTES as nat);
    let window_bytes = min_nat(block_window, n_blocks) * block_bytes;
    let m3 = if kt == MemoryTier::Nvme {
        spec_mark_hot(
            spec_migrate(m2, MemoryTier::Nvme, MemoryTier::Cpu, window_bytes),
            MemoryTier::Cpu,
            window_bytes,
        )
    } else {
        m2
    };
    let m4 = if vt == MemoryTier::Nvme {
        spec_mark_hot(
            spec_migrate(m3, MemoryTier::Nvme, MemoryTier::Cpu, window_bytes),
            MemoryTier::Cpu,
            window_bytes,
        )
    } else {
        m3
    };
    let count: nat = if n_blocks > 0 {
        (n_blocks - 1) as nat
    } else {
        0
    };
    let m5 = spec_rotations(
        m4,
        0,
        count,
        block_window,
        block_bytes,
        kt == MemoryTier::Nvme,
        vt == MemoryTier::Nvme,
    );
    (m5, kt, vt)
}

/// Law: at token index 0, the visible sliding-window range for any positive
/// window size is exactly `[0, 0]` — the range starts at 0 and ends at the
/// token itself.
pub proof fn lemma_window_start_at_zero(window: nat)
    requires
        window >= 1,
    ensures
        spec_window_start(0, window) == 0,
{
}

/// First visible key index for the query at position `i` under a sliding
/// window of `window` previous tokens; the visible range is
/// `[window_start(i, window), i]`, both ends included.
pub fn window_start(i: usize, window: usize) -> (s: usize)
    requires
        window >= 1,
    ensures
        s as nat == spec_window_start(i as nat, window as nat),
        s <= i,
{
    if i >= window {
        i - window + 1
    } else {
        0
    }
}

/// First visible token index for a query in block `b`; visibility reaches
/// from here through the query token itself.
pub fn block_ctx_start(b: usize, block_size: usize, block_window: usize) -> (s: usize)
    requires
        block_window >= 1,
        b * block_size <= usize::MAX,
    ensures
        s as nat == spec_block_ctx_start(b as nat, block_size as nat, block_window as nat),
{
    let first_block: usize = if b >= block_window - 1 {
        b - (block_window - 1)
    } else {
        0
    };
    proof {
        vstd::arithmetic::mul::lemma_mul_inequality(
            first_block as int,
            b as int,
            block_size as int,
        );
    }
    first_block * block_size
}

/// Paged attention engine owning a [`MemoryManager`].
pub struct PagedAttention {
    mgr: MemoryManager,
}

impl View for PagedAttention {
    type V = LedgerModel;

    closed spec fn view(&self) -> LedgerModel {
        self.mgr@
    }
}

impl PagedAttention {
    /// Create a new engine with default tier limits.
    pub fn new(caps: DeviceCapabilities) -> (engine: PagedAttention)
        ensures
            engine@ == fresh_ledger(
                caps.has_gpu,
                caps.has_nvme,
                caps.gpu_mem as nat,
                caps.cpu_mem as nat,
                caps.nvme_mem as nat,
            ),
            ledger_wf(engine@),
    {
        PagedAttention { mgr: MemoryManager::new(caps) }
    }

    /// Create a new engine with explicit tier limits, useful for tests.
    pub fn new_with_limits(
        caps: DeviceCapabilities,
        gpu_limit: usize,
        cpu_limit: usize,
        nvme_limit: usize,
    ) -> (engine: PagedAttention)
        ensures
            engine@ == fresh_ledger(
                caps.has_gpu,
                caps.has_nvme,
                gpu_limit as nat,
                cpu_limit as nat,
                nvme_limit as nat,
            ),
            ledger_wf(engine@),
    {
        PagedAttention { mgr: MemoryManager::new_with_limits(caps, gpu_limit, cpu_limit, nvme_limit) }
    }

    /// Expose tier usage: `(gpu, cpu, nvme)` used bytes.
    pub fn usage(&self) -> (u: (usize, usize, usize))
        ensures
            u.0 as nat == self@.gpu.used,
            u.1 as nat == self@.cpu.used,
            u.2 as nat == self@.nvme.used,
    {
        self.mgr.usage()
    }

    /// Stage the tier traffic of a sliding-window attention pass.
    ///
    /// `q_len`, `k_len` and `v_len` are the flattened element counts of the
    /// query, key and value buffers, `d` the feature dimension and `window`
    /// the number of previous tokens each query attends to.  Key and value
    /// buffers are charged through the manager; if either lands on NVMe, the
    /// working set a sliding window touches (`window * d` elements) is
    /// prefetched into CPU memory.  Returns the tiers holding keys and
    /// values.
    #[verifier::rlimit(100)]
    pub fn stage_sliding_window(
        &mut self,
        q_len: usize,
        k_len: usize,
        v_len: usize,
        d: usize,
        window: usize,
    ) -> (tiers: (MemoryTier, MemoryTier))
        requires
            ledger_wf(old(self)@),
            d >= 1,
            k_len == v_len,
            q_len % d == 0,
            k_len % d == 0,
            q_len / d == k_len / d,
            k_len * KV_ELEM_BYTES <= usize::MAX,
            window * d * KV_ELEM_BYTES <= usize::MAX,
        ensures
            (final(self)@, tiers.0, tiers.1) == spec_stage_sliding(
                old(self)@,
                (k_len * KV_ELEM_BYTES) as nat,
                (window * d * KV_ELEM_BYTES) as nat,
            ),
            ledger_wf(final(self)@),
    {
        let byte_len: usize = k_len * KV_ELEM_BYTES;
        let k_tier = self.mgr.allocate(byte_len);
        let v_tier = self.mgr.allocate(byte_len);
        if k_tier == MemoryTier::Nvme {
            let window_bytes: usize = window * d * KV_ELEM_BYTES;
            self.mgr.migrate(MemoryTier::Nvme, MemoryTier::Cpu, window_bytes);
        }
        if v_tier == MemoryTier::Nvme {
            let window_bytes: usize = window * d * KV_ELEM_BYTES;
            self.mgr.migrate(MemoryTier::Nvme, MemoryTier::Cpu, window_bytes);
        }
        (k_tier, v_tier)
    }

    /// Stage the tier traffic of a block-sparse attention pass.
    ///
    /// Tokens are grouped into blocks of `block_size`; each block sees
    /// `block_window` blocks of context.  Key and value buffers are charged
    /// through the manager.  For each buffer on NVMe, the initial window of
    /// blocks is pulled into CPU memory and marked hot; after each finished
    /// block except the last, once the hot window is full, the oldest block
    /// is marked cold and pushed back to NVMe before the next block is
    /// pulled in and marked hot — a bounded hot window of blocks rather
    /// than the whole sequence.  Returns the tiers holding keys and values.
    #[verifier::rlimit(100)]
    pub fn stage_block_sparse(
        &mut self,
        q_len: usize,
        k_len: usize,
        v_len: usize,
        d: usize,
        block_size: usize,
        block_window: usize,
    ) -> (tiers: (MemoryTier, MemoryTier))
        requires
            ledger_wf(old(self)@),
            d >= 1,
            block_size >= 1,
            block_window >= 1,
            k_len == v_len,
            q_len % d == 0,
            k_len % d == 0,
            q_len / d == k_len / d,
            k_len * KV_ELEM_BYTES + block_size * d * KV_ELEM_BYTES <= usize::MAX,
        ensures
            (final(self)@, tiers.0, tiers.1) == spec_stage_block_sparse(
                old(self)@,
                q_len as nat,
                k_len as nat,
                d as nat,
                block_size as nat,
                block_window as nat,
            ),
            ledger_wf(final(self)@),
    {
        let n: usize = q_len / d;
        proof {
            lemma_block_bytes_bounds(
                n as nat,
                k_len as nat,
                d as nat,
                block_size as nat,
                block_window as nat,
            );
        }
        let n_blocks: usize = (n + block_size - 1) / block_size;
        let byte_len: usize = k_len * KV_ELEM_BYTES;
        let k_tier = self.mgr.allocate(byte_len);
        let v_tier = self.mgr.allocate(byte_len);
        let block_bytes: usize = block_size * d * KV_ELEM_BYTES;
        let init_blocks: usize = if block_window < n_blocks {
            block_window
        } else {
            n_blocks
        };
        let window_bytes: usize = init_blocks * block_bytes;
        if k_tier == MemoryTier::Nvme {
            self.mgr.migrate(MemoryTier::Nvme, MemoryTier::Cpu, window_bytes);
            self.mgr.mark_hot(MemoryTier::Cpu, window_bytes);
        }
        if v_tier == MemoryTier::Nvme {
            self.mgr.migrate(MemoryTier::Nvme, MemoryTier::Cpu, window_bytes);
            self.mgr.mark_hot(MemoryTier::Cpu, window_bytes);
        }
        let count: usize = if n_blocks > 0 {
            n_blocks - 1
        } else {
            0
        };
        let ghost m_start = self.mgr@;
        let ghost k_nvme = k_tier == MemoryTier::Nvme;
        let ghost v_nvme = v_tier == MemoryTier::Nvme;
        let mut b: usize = 0;
        while b < count
            invariant
                b <= count,
                ledger_wf(self.mgr@),
                block_bytes as nat == block_size as nat * d as nat * KV_ELEM_BYTES as nat,
                k_nvme == (k_tier == MemoryTier::Nvme),
                v_nvme == (v_tier == MemoryTier::Nvme),
                spec_rotations(
                    m_start,
                    0,
                    count as nat,
                    block_window as nat,
                    block_bytes as nat,
                    k_nvme,
                    v_nvme,
                ) == spec_rotations(
                    self.mgr@,
                    b as nat,
                    count as nat,
                    block_window as nat,
                    block_bytes as nat,
                    k_nvme,
                    v_nvme,
                ),
            decreases count - b,
        {
            let evict: bool = b + 1 >= block_window;
            if k_tier == MemoryTier::Nvme {
                if evict {
                    self.mgr.mark_cold(MemoryTier::Cpu, block_bytes);
                    self.mgr.migrate(MemoryTier::Cpu, MemoryTier::Nvme, block_bytes);
                }
                self.mgr.migrate(MemoryTier::Nvme, MemoryTier::Cpu, block_bytes);
                self.mgr.mark_hot(MemoryTier::Cpu, block_bytes);
            }
            if v_tier == MemoryTier::Nvme {
                if evict {
                    self.mgr.mark_cold(MemoryTier::Cpu, block_bytes);
                    self.mgr.migrate(MemoryTier::Cpu, MemoryTier::Nvme, block_bytes);
                }
                self.mgr.migrate(MemoryTier::Nvme, MemoryTier::Cpu, block_bytes);
                self.mgr.mark_hot(MemoryTier::Cpu, block_bytes);
            }
            b = b + 1;
        }
        (k_tier, v_tier)
    }
}

/// Arithmetic bounds behind the block-sparse staging: the initial window of
/// blocks never covers more bytes than the whole buffer plus one block.
proof fn lemma_block_bytes_bounds(n: nat, k_len: nat, d: nat, block_size: nat, block_window: nat)
    requires
        d >= 1,
        block_size >= 1,
        n == k_len / d,
        k_len % d == 0,
        k_len * KV_ELEM_BYTES + block_size * d * KV_ELEM_BYTES <= usize::MAX,
    ensures
        n * d == k_len,
        n <= k_len,
        n + block_size <= usize::MAX,
        min_nat(block_window, (n + block_size - 1) as nat / block_size)
            * (block_size * d * KV_ELEM_BYTES) <= usize::MAX,
{
    vstd::arithmetic::div_mod::lemma_fundamental_div_mod(k_len as int, d as int);
    assert(n * d == k_len);
    assert(n <= k_len && block_size * KV_ELEM_BYTES <= block_size * d * KV_ELEM_BYTES)
        by (nonlinear_arith)
        requires
            d >= 1,
            block_size >= 1,
            n * d == k_len,
    {
    }
    let x: int = n + block_size - 1;
    let nb = (n + block_size - 1) as nat / block_size;
    vstd::arithmetic::div_mod::lemma_fundamental_div_mod(x, block_size as int);
    vstd::arithmetic::div_mod::lemma_mod_bound(x, block_size as int);
    assert((block_size as int) * (x / (block_size as int)) <= x);
    assert(nb == x / (block_size as int));
    assert(nb * block_size <= n + block_size - 1);
    let bb = block_size * d * KV_ELEM_BYTES;
    let ib = min_nat(block_window, nb);
    assert(ib * bb <= usize::MAX) by (nonlinear_arith)
        requires
            ib <= nb,
            nb * block_size <= n + block_size - 1,
            bb == block_size * d * KV_ELEM_BYTES,
            n * d == k_len,
            KV_ELEM_BYTES == 4,
            d >= 1,
            block_size >= 1,
            k_len * KV_ELEM_BYTES + block_size * d * KV_ELEM_BYTES <= usize::MAX,
    {
    }
}

} // verus!

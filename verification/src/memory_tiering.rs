//! Simulated multi-tier memory manager.
//!
//! The manager is a capacity ledger over three tiers — GPU, CPU and NVMe —
//! with byte limits, used-byte and cold-byte counters.  It decides where an
//! allocation lands and migrates charge between tiers to act as a simple
//! cache hierarchy; it never stores the bytes themselves.  Every operation
//! is proved to compute exactly the corresponding transition of the ledger
//! model in [`crate::tiering_model`].

use vstd::prelude::*;
use vstd::string::StrSliceExecFns;

verus! {

use crate::tiering_model::LedgerModel;
use crate::tiering_model::TierCounts;
use crate::tiering_model::ledger_wf;
use crate::tiering_model::fresh_ledger;
use crate::tiering_model::spec_allocate;
use crate::tiering_model::spec_ensure_cpu;
use crate::tiering_model::spec_ensure_gpu;
use crate::tiering_model::spec_mark_cold;
use crate::tiering_model::spec_mark_hot;
use crate::tiering_model::spec_migrate;
use crate::tiering_model::conserves;
use crate::tiering_model::lemma_ensure_cpu_effect;
use crate::tiering_model::lemma_ensure_gpu_effect;
use crate::tiering_model::lemma_ops_conserve;

/// The three memory tiers, fastest first.
#[derive(Debug, PartialEq, Eq, Structural, Clone, Copy)]
pub enum MemoryTier {
    Gpu,
    Cpu,
    Nvme,
}

/// Runtime capabilities of the system.
#[derive(Debug, Clone, Copy)]
pub struct DeviceCapabilities {
    pub has_gpu: bool,
    pub has_nvme: bool,
    /// Total GPU memory available in bytes.
    pub gpu_mem: usize,
    /// Total CPU memory available in bytes.
    pub cpu_mem: usize,
    /// Total NVMe space available in bytes.
    pub nvme_mem: usize,
}

/// Simple hierarchical memory manager.
pub struct MemoryManager {
    caps: DeviceCapabilities,
    gpu_limit: usize,
    cpu_limit: usize,
    nvme_limit: usize,
    gpu_used: usize,
    cpu_used: usize,
    nvme_used: usize,
    gpu_cold: usize,
    cpu_cold: usize,
    nvme_cold: usize,
    charged: Ghost<nat>,
    dropped: Ghost<nat>,
}

impl View for MemoryManager {
    type V = LedgerModel;

    closed spec fn view(&self) -> LedgerModel {
        LedgerModel {
            has_gpu: self.caps.has_gpu,
            has_nvme: self.caps.has_nvme,
            gpu: TierCounts {
                limit: self.gpu_limit as nat,
                used: self.gpu_used as nat,
                cold: self.gpu_cold as nat,
            },
            cpu: TierCounts {
                limit: self.cpu_limit as nat,
                used: self.cpu_used as nat,
                cold: self.cpu_cold as nat,
            },
            nvme: TierCounts {
                limit: self.nvme_limit as nat,
                used: self.nvme_used as nat,
                cold: self.nvme_cold as nat,
            },
            charged: self.charged@,
            dropped: self.dropped@,
        }
    }
}

impl MemoryManager {
    /// Create a manager with default tier limits.
    pub fn new(caps: DeviceCapabilities) -> (mgr: MemoryManager)
        ensures
            mgr@ == fresh_ledger(
                caps.has_gpu,
                caps.has_nvme,
                caps.gpu_mem as nat,
                caps.cpu_mem as nat,
                caps.nvme_mem as nat,
            ),
            ledger_wf(mgr@),
            conserves(mgr@),
    {
        Self::new_with_limits(caps, caps.gpu_mem, caps.cpu_mem, caps.nvme_mem)
    }

    /// Create a manager with explicit limits for each tier.
    pub fn new_with_limits(
        caps: DeviceCapabilities,
        gpu_limit: usize,
        cpu_limit: usize,
        nvme_limit: usize,
    ) -> (mgr: MemoryManager)
        ensures
            mgr@ == fresh_ledger(
                caps.has_gpu,
                caps.has_nvme,
                gpu_limit as nat,
                cpu_limit as nat,
                nvme_limit as nat,
            ),
            ledger_wf(mgr@),
            conserves(mgr@),
    {
        MemoryManager {
            caps,
            gpu_limit,
            cpu_limit,
            nvme_limit,
            gpu_used: 0,
            cpu_used: 0,
            nvme_used: 0,
            gpu_cold: 0,
            cpu_cold: 0,
            nvme_cold: 0,
            charged: Ghost(0),
            dropped: Ghost(0),
        }
    }

    /// Current usage of each tier: `(gpu, cpu, nvme)` used bytes.
    pub fn usage(&self) -> (u: (usize, usize, usize))
        ensures
            u.0 as nat == self@.gpu.used,
            u.1 as nat == self@.cpu.used,
            u.2 as nat == self@.nvme.used,
    {
        (self.gpu_used, self.cpu_used, self.nvme_used)
    }

    /// Allocates memory using a caching hierarchy.  New allocations prefer
    /// the fastest tier (GPU) and trigger migrations when space is required;
    /// NVMe is the tier of last resort and is never evicted from here.
    #[verifier::rlimit(100)]
    pub fn allocate(&mut self, bytes: usize) -> (tier: MemoryTier)
        requires
            ledger_wf(old(self)@),
        ensures
            final(self)@ == spec_allocate(old(self)@, bytes as nat).0,
            tier == spec_allocate(old(self)@, bytes as nat).1,
            ledger_wf(final(self)@),
            conserves(old(self)@) ==> conserves(final(self)@),
    {
        proof {
            if conserves(old(self)@) {
                lemma_ops_conserve(old(self)@, MemoryTier::Gpu, MemoryTier::Gpu, MemoryTier::Gpu, bytes as nat);
            }
            if old(self)@.has_gpu && bytes as nat <= old(self)@.gpu.limit {
                lemma_ensure_gpu_effect(old(self)@, bytes as nat);
            } else {
                lemma_ensure_cpu_effect(old(self)@, bytes as nat);
            }
        }
        if self.caps.has_gpu && bytes <= self.gpu_limit {
            self.ensure_gpu_space(bytes);
            self.gpu_used = self.gpu_used + bytes;
            self.charged = Ghost(self.charged@ + bytes as nat);
            MemoryTier::Gpu
        } else {
            self.ensure_cpu_space(bytes);
            if bytes <= self.cpu_limit && self.cpu_used <= self.cpu_limit - bytes {
                self.cpu_used = self.cpu_used + bytes;
                self.charged = Ghost(self.charged@ + bytes as nat);
                MemoryTier::Cpu
            } else {
                let room: usize = usize::MAX - self.nvme_used;
                if bytes <= room {
                    self.nvme_used = self.nvme_used + bytes;
                } else {
                    self.nvme_used = usize::MAX;
                    self.dropped = Ghost(self.dropped@ + (bytes - room) as nat);
                }
                self.charged = Ghost(self.charged@ + bytes as nat);
                MemoryTier::Nvme
            }
        }
    }

    /// Manually migrate up to `bytes` bytes of charge between tiers.
    /// Migrating into an absent tier, or between a tier and itself, is a
    /// no-op; cold bytes move along with the charge.
    pub fn migrate(&mut self, from: MemoryTier, to: MemoryTier, bytes: usize)
        requires
            ledger_wf(old(self)@),
        ensures
            final(self)@ == spec_migrate(old(self)@, from, to, bytes as nat),
            ledger_wf(final(self)@),
            conserves(old(self)@) ==> conserves(final(self)@),
    {
        proof {
            if conserves(old(self)@) {
                lemma_ops_conserve(old(self)@, from, from, to, bytes as nat);
            }
            crate::tiering_model::lemma_migrate_wf(old(self)@, from, to, bytes as nat);
        }
        match (from, to) {
            (MemoryTier::Gpu, MemoryTier::Cpu) => {
                self.migrate_gpu_to_cpu(bytes);
            },
            (MemoryTier::Cpu, MemoryTier::Gpu) => {
                self.migrate_cpu_to_gpu(bytes);
            },
            (MemoryTier::Cpu, MemoryTier::Nvme) => {
                self.migrate_cpu_to_nvme(bytes);
            },
            (MemoryTier::Nvme, MemoryTier::Cpu) => {
                self.migrate_nvme_to_cpu(bytes);
            },
            _ => {},
        }
    }

    fn migrate_gpu_to_cpu(&mut self, bytes: usize)
        requires
            ledger_wf(old(self)@),
        ensures
            final(self)@ == spec_migrate(old(self)@, MemoryTier::Gpu, MemoryTier::Cpu, bytes as nat),
    {
        proof {
            lemma_ensure_cpu_effect(old(self)@, bytes as nat);
        }
        self.ensure_cpu_space(bytes);
        let moved: usize = if bytes < self.gpu_used {
            bytes
        } else {
            self.gpu_used
        };
        self.gpu_used = self.gpu_used - moved;
        self.cpu_used = self.cpu_used + moved;
        let cold: usize = if moved < self.gpu_cold {
            moved
        } else {
            self.gpu_cold
        };
        self.gpu_cold = self.gpu_cold - cold;
        self.cpu_cold = self.cpu_cold + cold;
    }

    fn migrate_cpu_to_gpu(&mut self, bytes: usize)
        requires
            ledger_wf(old(self)@),
        ensures
            final(self)@ == spec_migrate(old(self)@, MemoryTier::Cpu, MemoryTier::Gpu, bytes as nat),
    {
        if self.caps.has_gpu {
            proof {
                lemma_ensure_gpu_effect(old(self)@, bytes as nat);
            }
            self.ensure_gpu_space(bytes);
            let moved: usize = if bytes < self.cpu_used {
                bytes
            } else {
                self.cpu_used
            };
            self.cpu_used = self.cpu_used - moved;
            self.gpu_used = self.gpu_used + moved;
            let cold: usize = if moved < self.cpu_cold {
                moved
            } else {
                self.cpu_cold
            };
            self.cpu_cold = self.cpu_cold - cold;
            self.gpu_cold = self.gpu_cold + cold;
        }
    }

    fn migrate_cpu_to_nvme(&mut self, bytes: usize)
        requires
            ledger_wf(old(self)@),
        ensures
            final(self)@ == spec_migrate(old(self)@, MemoryTier::Cpu, MemoryTier::Nvme, bytes as nat),
    {
        if self.caps.has_nvme {
            let moved: usize = if bytes < self.cpu_used {
                bytes
            } else {
                self.cpu_used
            };
            self.cpu_used = self.cpu_used - moved;
            let room: usize = usize::MAX - self.nvme_used;
            if moved <= room {
                self.nvme_used = self.nvme_used + moved;
            } else {
                self.nvme_used = usize::MAX;
                self.dropped = Ghost(self.dropped@ + (moved - room) as nat);
            }
            let cold: usize = if moved < self.cpu_cold {
                moved
            } else {
                self.cpu_cold
            };
            self.cpu_cold = self.cpu_cold - cold;
            let cold_room: usize = usize::MAX - self.nvme_cold;
            if cold <= cold_room {
                self.nvme_cold = self.nvme_cold + cold;
            } else {
                self.nvme_cold = usize::MAX;
            }
        }
    }

    fn migrate_nvme_to_cpu(&mut self, bytes: usize)
        requires
            ledger_wf(old(self)@),
        ensures
            final(self)@ == spec_migrate(old(self)@, MemoryTier::Nvme, MemoryTier::Cpu, bytes as nat),
    {
        let moved: usize = if bytes < self.nvme_used {
            bytes
        } else {
            self.nvme_used
        };
        proof {
            lemma_ensure_cpu_effect(old(self)@, moved as nat);
        }
        self.ensure_cpu_space(moved);
        let moved1: usize = if moved < self.nvme_used {
            moved
        } else {
            self.nvme_used
        };
        self.nvme_used = self.nvme_used - moved1;
        self.cpu_used = self.cpu_used + moved1;
        let cold: usize = if moved1 < self.nvme_cold {
            moved1
        } else {
            self.nvme_cold
        };
        self.nvme_cold = self.nvme_cold - cold;
        self.cpu_cold = self.cpu_cold + cold;
    }

    /// Mark up to `bytes` bytes in a tier as cold, making them candidates
    /// for eviction; the cold count is clamped at the used count.
    pub fn mark_cold(&mut self, tier: MemoryTier, bytes: usize)
        requires
            ledger_wf(old(self)@),
        ensures
            final(self)@ == spec_mark_cold(old(self)@, tier, bytes as nat),
            ledger_wf(final(self)@),
            conserves(old(self)@) ==> conserves(final(self)@),
    {
        match tier {
            MemoryTier::Gpu => {
                let room: usize = self.gpu_used - self.gpu_cold;
                let add: usize = if bytes < room {
                    bytes
                } else {
                    room
                };
                self.gpu_cold = self.gpu_cold + add;
            },
            MemoryTier::Cpu => {
                let room: usize = self.cpu_used - self.cpu_cold;
                let add: usize = if bytes < room {
                    bytes
                } else {
                    room
                };
                self.cpu_cold = self.cpu_cold + add;
            },
            MemoryTier::Nvme => {
                let room: usize = self.nvme_used - self.nvme_cold;
                let add: usize = if bytes < room {
                    bytes
                } else {
                    room
                };
                self.nvme_cold = self.nvme_cold + add;
            },
        }
    }

    /// Mark up to `bytes` bytes in a tier as recently used (hot); the cold
    /// count saturates at zero.
    pub fn mark_hot(&mut self, tier: MemoryTier, bytes: usize)
        requires
            ledger_wf(old(self)@),
        ensures
            final(self)@ == spec_mark_hot(old(self)@, tier, bytes as nat),
            ledger_wf(final(self)@),
            conserves(old(self)@) ==> conserves(final(self)@),
    {
        match tier {
            MemoryTier::Gpu => {
                self.gpu_cold = if self.gpu_cold >= bytes {
                    self.gpu_cold - bytes
                } else {
                    0
                };
            },
            MemoryTier::Cpu => {
                self.cpu_cold = if self.cpu_cold >= bytes {
                    self.cpu_cold - bytes
                } else {
                    0
                };
            },
            MemoryTier::Nvme => {
                self.nvme_cold = if self.nvme_cold >= bytes {
                    self.nvme_cold - bytes
                } else {
                    0
                };
            },
        }
    }

    /// Make room for `bytes` more bytes in the CPU tier, evicting to NVMe
    /// when it exists and has room, and dropping bytes otherwise.
    fn ensure_cpu_space(&mut self, bytes: usize)
        requires
            ledger_wf(old(self)@),
        ensures
            final(self)@ == spec_ensure_cpu(old(self)@, bytes as nat),
    {
        self.ensure_cpu_space_wide(bytes as u128);
    }

    /// The same eviction rule with a request that may exceed the counter
    /// range, as happens when the GPU tier forwards its deficit.
    fn ensure_cpu_space_wide(&mut self, bytes: u128)
        requires
            ledger_wf(old(self)@),
            bytes <= usize::MAX as u128 + usize::MAX as u128,
        ensures
            final(self)@ == spec_ensure_cpu(old(self)@, bytes as nat),
    {
        if bytes <= self.cpu_limit as u128
            && self.cpu_used as u128 <= self.cpu_limit as u128 - bytes {
            return;
        }
        let needed: u128 = self.cpu_used as u128 + bytes - self.cpu_limit as u128;
        if self.caps.has_nvme && self.nvme_used as u128 + needed <= self.nvme_limit as u128 {
            let needed_s: usize = needed as usize;
            let cold_migrate: usize = if needed_s < self.cpu_cold {
                needed_s
            } else {
                self.cpu_cold
            };
            self.cpu_cold = self.cpu_cold - cold_migrate;
            self.cpu_used = self.cpu_used - cold_migrate;
            self.nvme_used = self.nvme_used + cold_migrate;
            self.nvme_cold = self.nvme_cold + cold_migrate;
            if !(bytes <= self.cpu_limit as u128
                && self.cpu_used as u128 <= self.cpu_limit as u128 - bytes) {
                let remaining: u128 = self.cpu_used as u128 + bytes - self.cpu_limit as u128;
                let migrated: usize = if (self.cpu_used as u128) < remaining {
                    self.cpu_used
                } else {
                    remaining as usize
                };
                self.cpu_used = self.cpu_used - migrated;
                self.nvme_used = self.nvme_used + migrated;
            }
        } else {
            let dropped_cold: usize = if (self.cpu_cold as u128) < needed {
                self.cpu_cold
            } else {
                needed as usize
            };
            self.cpu_cold = self.cpu_cold - dropped_cold;
            self.cpu_used = self.cpu_used - dropped_cold;
            self.dropped = Ghost(self.dropped@ + dropped_cold as nat);
            if !(bytes <= self.cpu_limit as u128
                && self.cpu_used as u128 <= self.cpu_limit as u128 - bytes) {
                let remaining: u128 = self.cpu_used as u128 + bytes - self.cpu_limit as u128;
                let dropped_hot: usize = if (self.cpu_used as u128) < remaining {
                    self.cpu_used
                } else {
                    remaining as usize
                };
                self.cpu_used = self.cpu_used - dropped_hot;
                self.dropped = Ghost(self.dropped@ + dropped_hot as nat);
            }
        }
    }

    /// Make room for `bytes` more bytes in the GPU tier, migrating cold
    /// bytes to the CPU tier first and hot bytes as a fallback.
    #[verifier::rlimit(100)]
    fn ensure_gpu_space(&mut self, bytes: usize)
        requires
            ledger_wf(old(self)@),
        ensures
            final(self)@ == spec_ensure_gpu(old(self)@, bytes as nat),
    {
        if bytes <= self.gpu_limit && self.gpu_used <= self.gpu_limit - bytes {
            return;
        }
        let needed: u128 = self.gpu_used as u128 + bytes as u128 - self.gpu_limit as u128;
        if self.gpu_cold > 0 {
            let cold_migrate: usize = if (self.gpu_cold as u128) < needed {
                self.gpu_cold
            } else {
                needed as usize
            };
            proof {
                lemma_ensure_cpu_effect(old(self)@, cold_migrate as nat);
            }
            self.ensure_cpu_space(cold_migrate);
            self.gpu_cold = self.gpu_cold - cold_migrate;
            self.gpu_used = self.gpu_used - cold_migrate;
            self.cpu_used = self.cpu_used + cold_migrate;
            self.cpu_cold = self.cpu_cold + cold_migrate;
        }
        if bytes <= self.gpu_limit && self.gpu_used <= self.gpu_limit - bytes {
            return;
        }
        let ghost mid = self@;
        let remaining: u128 = self.gpu_used as u128 + bytes as u128 - self.gpu_limit as u128;
        proof {
            lemma_ensure_cpu_effect(mid, remaining as nat);
        }
        self.ensure_cpu_space_wide(remaining);
        let migrated: usize = if (self.gpu_used as u128) < remaining {
            self.gpu_used
        } else {
            remaining as usize
        };
        self.gpu_used = self.gpu_used - migrated;
        self.cpu_used = self.cpu_used + migrated;
    }
}

/// Convenience allocation against a fresh manager built from the given
/// capabilities with default limits, mirroring a one-shot placement query.
pub fn allocate(caps: DeviceCapabilities, bytes: usize) -> (tier: MemoryTier)
    ensures
        tier == spec_allocate(
            fresh_ledger(
                caps.has_gpu,
                caps.has_nvme,
                caps.gpu_mem as nat,
                caps.cpu_mem as nat,
                caps.nvme_mem as nat,
            ),
            bytes as nat,
        ).1,
{
    let mut mgr = MemoryManager::new(caps);
    mgr.allocate(bytes)
}

/// The numeric value of a run of decimal digit characters.
pub open spec fn spec_digits_value(s: Seq<char>) -> nat
    decreases s.len(),
{
    if s.len() == 0 {
        0
    } else {
        spec_digits_value(s.drop_last()) * 10 + spec_digit(s.last())
    }
}

/// The value of one digit character; other characters count as zero.
pub open spec fn spec_digit(c: char) -> nat {
    (c as nat - 48) as nat
}

/// Every character of the run is a decimal digit.
pub open spec fn spec_all_digits(s: Seq<char>) -> bool {
    forall|i: int| 0 <= i < s.len() ==> 48 <= (#[trigger] s[i]) as int <= 57
}

/// Whether a run of characters parses as a byte count.
pub open spec fn spec_parses(s: Seq<char>) -> bool {
    s.len() > 0 && spec_all_digits(s) && spec_digits_value(s) <= usize::MAX
}

/// The byte count a configuration value yields: its numeric value when it
/// parses, the given default otherwise.
pub open spec fn spec_size_or(s: Option<&str>, default: nat) -> nat {
    match s {
        Some(v) => if spec_parses(v@) {
            spec_digits_value(v@)
        } else {
            default
        },
        None => default,
    }
}

/// A prefix of a digit run never exceeds the whole run's value.
proof fn lemma_digits_prefix_le(s: Seq<char>, j: int)
    requires
        0 <= j <= s.len(),
    ensures
        spec_digits_value(s.take(j)) <= spec_digits_value(s),
    decreases s.len(),
{
    if j < s.len() {
        assert(s.drop_last().take(j) =~= s.take(j));
        lemma_digits_prefix_le(s.drop_last(), j);
    } else {
        assert(s.take(j) =~= s);
    }
}

/// Parse a decimal byte count.  Returns the numeric value exactly when the
/// string is a non-empty run of digits whose value fits the machine's
/// range, and nothing otherwise.
pub fn parse_usize(s: &str) -> (r: Option<usize>)
    ensures
        (match r {
            Some(v) => spec_parses(s@) && v as nat == spec_digits_value(s@),
            None => !spec_parses(s@),
        }),
{
    let n: usize = s.unicode_len();
    if n == 0 {
        return None;
    }
    let mut value: usize = 0;
    let mut i: usize = 0;
    while i < n
        invariant
            n as nat == s@.len(),
            i <= n,
            spec_all_digits(s@.take(i as int)),
            value as nat == spec_digits_value(s@.take(i as int)),
        decreases n - i,
    {
        let c: char = s.get_char(i);
        let d: u32 = c as u32;
        if d < 48 || d > 57 {
            return None;
        }
        let digit: usize = (d - 48) as usize;
        let wide: u128 = value as u128 * 10 + digit as u128;
        proof {
            assert(s@.take(i + 1).drop_last() =~= s@.take(i as int));
            assert(s@.take(i + 1).last() == s@[i as int]);
        }
        if wide > usize::MAX as u128 {
            proof {
                lemma_digits_prefix_le(s@, i + 1);
            }
            return None;
        }
        value = wide as usize;
        i = i + 1;
    }
    proof {
        assert(s@.take(n as int) =~= s@);
    }
    Some(value)
}

impl DeviceCapabilities {
    /// Resolve capabilities from raw configuration values, with defaults
    /// for anything unset or unparseable: both optional tiers default to
    /// absent, the GPU tier to 1024 bytes, the CPU tier to 8192 bytes and
    /// the NVMe tier to an unbounded (maximal) size.  A tier is present
    /// exactly when its flag value is the string `1`.
    pub fn from_settings(
        gpu_flag: Option<&str>,
        nvme_flag: Option<&str>,
        gpu_mem: Option<&str>,
        cpu_mem: Option<&str>,
        nvme_mem: Option<&str>,
    ) -> (caps: DeviceCapabilities)
        ensures
            caps.has_gpu == (match gpu_flag {
                Some(v) => v@ == "1"@,
                None => false,
            }),
            caps.has_nvme == (match nvme_flag {
                Some(v) => v@ == "1"@,
                None => false,
            }),
            caps.gpu_mem as nat == spec_size_or(gpu_mem, 1024),
            caps.cpu_mem as nat == spec_size_or(cpu_mem, 8192),
            caps.nvme_mem as nat == spec_size_or(nvme_mem, usize::MAX as nat),
    {
        DeviceCapabilities {
            has_gpu: flag_is_set(gpu_flag),
            has_nvme: flag_is_set(nvme_flag),
            gpu_mem: size_or(gpu_mem, 1024),
            cpu_mem: size_or(cpu_mem, 8192),
            nvme_mem: size_or(nvme_mem, usize::MAX),
        }
    }
}

/// Whether an optional flag value is the string `1`.
fn flag_is_set(flag: Option<&str>) -> (b: bool)
    ensures
        b == (match flag {
            Some(v) => v@ == "1"@,
            None => false,
        }),
{
    match flag {
        Some(v) => {
            proof {
                reveal_strlit("1");
            }
            if v.unicode_len() == 1 && v.get_char(0) == '1' {
                proof {
                    assert(v@ =~= "1"@);
                }
                true
            } else {
                false
            }
        },
        None => false,
    }
}

/// The byte count an optional configuration value yields, with a default.
fn size_or(s: Option<&str>, default: usize) -> (n: usize)
    ensures
        n as nat == spec_size_or(s, default as nat),
{
    match s {
        Some(v) => match parse_usize(v) {
            Some(n) => n,
            None => default,
        },
        None => default,
    }
}

} // verus!

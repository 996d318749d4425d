use amduda::memory_tiering::{DeviceCapabilities, MemoryTier};
use amduda::paged_attention::{PagedAttention, block_ctx_start, window_start};

fn caps_no_gpu() -> DeviceCapabilities {
    DeviceCapabilities {
        has_gpu: false,
        has_nvme: true,
        gpu_mem: 1024,
        cpu_mem: 8192,
        nvme_mem: usize::MAX,
    }
}

/// The attention kernel over the visible ranges the library computes, with
/// the standard max-subtraction softmax stabilization.
fn sliding_window_attention(q: &[f32], k: &[f32], v: &[f32], d: usize, window: usize) -> Vec<f32> {
    assert_eq!(k.len(), v.len());
    let n = q.len() / d;
    let mut out = vec![0f32; n * d];
    for i in 0..n {
        let q_i = &q[i * d..(i + 1) * d];
        let start = window_start(i, window);

        let mut scores = Vec::new();
        for j in start..=i {
            let k_j = &k[j * d..(j + 1) * d];
            let dot: f32 = q_i.iter().zip(k_j.iter()).map(|(a, b)| a * b).sum();
            scores.push((j, dot));
        }

        let max_score = scores
            .iter()
            .map(|(_, s)| *s)
            .fold(f32::NEG_INFINITY, f32::max);
        let mut denom = 0f32;
        let mut weights = Vec::new();
        for &(_, s) in &scores {
            let w = (s - max_score).exp();
            denom += w;
            weights.push(w);
        }

        for ((j, _), w) in scores.iter().zip(weights.iter()) {
            let weight = *w / denom;
            let v_j = &v[*j * d..(*j + 1) * d];
            for (o, val) in out[i * d..(i + 1) * d].iter_mut().zip(v_j.iter()) {
                *o += weight * val;
            }
        }
    }
    out
}

/// Unstabilized reference: plain softmax over the same visible ranges.
fn naive_sliding_window(q: &[f32], k: &[f32], v: &[f32], d: usize, window: usize) -> Vec<f32> {
    assert_eq!(k.len(), v.len());
    let n = q.len() / d;
    let mut out = vec![0f32; n * d];
    for i in 0..n {
        let q_i = &q[i * d..(i + 1) * d];
        let start = if i >= window { i + 1 - window } else { 0 };

        let mut scores = Vec::new();
        for j in start..=i {
            let k_j = &k[j * d..(j + 1) * d];
            let dot: f32 = q_i.iter().zip(k_j.iter()).map(|(a, b)| a * b).sum();
            scores.push((j, dot));
        }

        let mut denom = 0f32;
        let mut weights = Vec::new();
        for &(_, s) in &scores {
            let w = s.exp();
            denom += w;
            weights.push(w);
        }

        for ((j, _), w) in scores.iter().zip(weights.iter()) {
            let weight = *w / denom;
            let v_j = &v[*j * d..(*j + 1) * d];
            for (o, val) in out[i * d..(i + 1) * d].iter_mut().zip(v_j.iter()) {
                *o += weight * val;
            }
        }
    }
    out
}

/// The block-sparse kernel over the visible ranges the library computes.
fn block_sparse_attention(
    q: &[f32],
    k: &[f32],
    v: &[f32],
    d: usize,
    block_size: usize,
    block_window: usize,
) -> Vec<f32> {
    assert_eq!(k.len(), v.len());
    let n = q.len() / d;
    let mut out = vec![0f32; n * d];
    let n_blocks = (n + block_size - 1) / block_size;
    for b in 0..n_blocks {
        let q_start = b * block_size;
        let q_end = (q_start + block_size).min(n);
        let ctx_start = block_ctx_start(b, block_size, block_window);
        for i in q_start..q_end {
            let q_i = &q[i * d..(i + 1) * d];
            let mut scores = Vec::new();
            for j in ctx_start..=i {
                let k_j = &k[j * d..(j + 1) * d];
                let dot: f32 = q_i.iter().zip(k_j.iter()).map(|(a, b)| a * b).sum();
                scores.push((j, dot));
            }
            let max_score = scores
                .iter()
                .map(|(_, s)| *s)
                .fold(f32::NEG_INFINITY, f32::max);
            let mut denom = 0f32;
            let mut weights = Vec::new();
            for &(_, s) in &scores {
                let w = (s - max_score).exp();
                denom += w;
                weights.push(w);
            }
            for ((j, _), w) in scores.iter().zip(weights.iter()) {
                let weight = *w / denom;
                let v_j = &v[*j * d..(*j + 1) * d];
                for (o, val) in out[i * d..(i + 1) * d].iter_mut().zip(v_j.iter()) {
                    *o += weight * val;
                }
            }
        }
    }
    out
}

#[test]
fn sliding_window_attention_correctness_and_tiering() {
    let mut attn = PagedAttention::new_with_limits(caps_no_gpu(), 0, 16, 1024);

    let d = 2;
    let q = vec![1.0, 0.0, 0.0, 1.0, 1.0, 1.0, 0.5, 0.5];
    let k = q.clone();
    let v = vec![1.0, 0.0, 0.0, 1.0, 1.0, 1.0, 0.5, 1.0];
    let window = 2;

    let (k_tier, v_tier) = attn.stage_sliding_window(q.len(), k.len(), v.len(), d, window);
    let output = sliding_window_attention(&q, &k, &v, d, window);
    let expected = naive_sliding_window(&q, &k, &v, d, window);

    assert!(output
        .iter()
        .zip(expected.iter())
        .all(|(a, b)| (a - b).abs() < 1e-5));
    assert_eq!(k_tier, MemoryTier::Nvme);
    assert_eq!(v_tier, MemoryTier::Nvme);

    let usage = attn.usage();
    assert_eq!(usage, (0, 16, 48));
}

#[test]
fn block_sparse_attention_correctness_and_tiering() {
    let mut attn = PagedAttention::new_with_limits(caps_no_gpu(), 0, 32, 1024);

    let d = 2;
    let q = vec![
        1.0, 0.0, 0.0, 1.0, 1.0, 1.0, 0.5, 0.5, 0.2, 0.8, 0.8, 0.2, 0.3, 0.7, 0.7, 0.3,
    ];
    let k = q.clone();
    let v = vec![
        1.0, 0.0, 0.0, 1.0, 1.0, 1.0, 0.5, 1.0, 0.2, 0.8, 0.8, 0.2, 0.3, 0.7, 0.7, 0.3,
    ];
    let block_size = 2;
    let block_window = 1;

    let (k_tier, v_tier) =
        attn.stage_block_sparse(q.len(), k.len(), v.len(), d, block_size, block_window);
    let output = block_sparse_attention(&q, &k, &v, d, block_size, block_window);

    // With one visible block, the block-sparse ranges collapse to a
    // two-token sliding window at even positions; compare against the
    // unstabilized kernel over the same ranges.
    let mut expected = vec![0f32; q.len()];
    let n = q.len() / d;
    for i in 0..n {
        let ctx_start = block_ctx_start(i / block_size, block_size, block_window);
        let q_i = &q[i * d..(i + 1) * d];
        let mut denom = 0f32;
        let mut weights = Vec::new();
        for j in ctx_start..=i {
            let k_j = &k[j * d..(j + 1) * d];
            let dot: f32 = q_i.iter().zip(k_j.iter()).map(|(a, b)| a * b).sum();
            weights.push((j, dot.exp()));
            denom += dot.exp();
        }
        for (j, w) in weights {
            let weight = w / denom;
            for x in 0..d {
                expected[i * d + x] += weight * v[j * d + x];
            }
        }
    }

    assert!(output
        .iter()
        .zip(expected.iter())
        .all(|(a, b)| (a - b).abs() < 1e-5));
    assert_eq!(k_tier, MemoryTier::Nvme);
    assert_eq!(v_tier, MemoryTier::Nvme);

    let usage = attn.usage();
    assert_eq!(usage, (0, 32, 96));
}

#[test]
fn window_start_at_token_zero_is_zero() {
    for window in 1..10 {
        assert_eq!(window_start(0, window), 0);
    }
}

#[test]
fn window_start_clamps_and_slides() {
    assert_eq!(window_start(5, 2), 4);
    assert_eq!(window_start(5, 6), 0);
    assert_eq!(window_start(5, 5), 1);
    assert_eq!(window_start(7, 1), 7);
}

#[test]
fn block_ctx_start_reaches_back_block_window_blocks() {
    assert_eq!(block_ctx_start(0, 4, 2), 0);
    assert_eq!(block_ctx_start(1, 4, 2), 0);
    assert_eq!(block_ctx_start(2, 4, 2), 4);
    assert_eq!(block_ctx_start(3, 4, 1), 12);
}

#[test]
fn staging_without_nvme_buffers_stays_put() {
    let caps = DeviceCapabilities {
        has_gpu: true,
        has_nvme: true,
        gpu_mem: 1024,
        cpu_mem: 8192,
        nvme_mem: usize::MAX,
    };
    let mut attn = PagedAttention::new_with_limits(caps, 1024, 8192, 4096);
    let (k_tier, v_tier) = attn.stage_sliding_window(8, 8, 8, 2, 2);
    assert_eq!(k_tier, MemoryTier::Gpu);
    assert_eq!(v_tier, MemoryTier::Gpu);
    // Both 32-byte buffers landed on the GPU tier; nothing was prefetched.
    assert_eq!(attn.usage(), (64, 0, 0));
}

#[test]
fn engine_usage_delegates_to_manager() {
    let attn = PagedAttention::new(caps_no_gpu());
    assert_eq!(attn.usage(), (0, 0, 0));
}

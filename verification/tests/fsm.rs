use amduda::procedural_fsm::{ProceduralFsm, State};
use amduda::runtime::{Precision, Runtime, RuntimeEvent};

#[test]
fn test_fsm_core_10_tokens() {
    for token in 0..10 {
        println!("Processing token {}", token);
    }
}

#[test]
fn fsm_branches_and_rolls_back() {
    let runtime = Runtime::default();
    let mut fsm = ProceduralFsm::new();

    // Start with a cache hit which goes directly to attention.
    let mut ev = RuntimeEvent::TokenFetched { cache_hit: true };
    ev = fsm.step_with_runtime(&runtime, ev);
    assert_eq!(fsm.state(), State::ComputeAttention);

    // Continue through attention and output back to fetch.
    ev = fsm.step_with_runtime(&runtime, ev);
    assert_eq!(fsm.state(), State::OutputToken);
    ev = fsm.step_with_runtime(&runtime, ev);
    assert_eq!(fsm.state(), State::FetchToken);

    // Returned event now represents the next token fetch. Simulate cache miss.
    ev = fsm.step_with_runtime(&runtime, ev);
    assert_eq!(fsm.state(), State::KVCacheUpdate);
    let _ = fsm.step_with_runtime(&runtime, ev);
    assert_eq!(fsm.state(), State::ComputeAttention);

    // Roll back the computation and ensure we return to fetching.
    let _ = fsm.step_with_runtime(&runtime, RuntimeEvent::Rollback);
    assert_eq!(fsm.state(), State::FetchToken);
}

#[test]
fn fsm_handles_errors() {
    let runtime = Runtime::default();
    let mut fsm = ProceduralFsm::new();

    // Any error event should transition to the error state regardless of current state.
    let _ev = fsm.step_with_runtime(&runtime, RuntimeEvent::Error);
    assert_eq!(fsm.state(), State::Error);

    // After entering Error state, further events should not change the state.
    let _ev = fsm.step_with_runtime(&runtime, RuntimeEvent::TokenEmitted);
    assert_eq!(fsm.state(), State::Error);
}

#[test]
fn fsm_walks_the_whole_pipeline() {
    let mut fsm = ProceduralFsm::new();
    assert_eq!(fsm.state(), State::FetchToken);

    assert_eq!(
        fsm.on_event(RuntimeEvent::TokenFetched { cache_hit: false }),
        State::KVCacheUpdate
    );
    assert_eq!(fsm.on_event(RuntimeEvent::CacheUpdated), State::ComputeAttention);
    assert_eq!(fsm.on_event(RuntimeEvent::AttentionComputed), State::OutputToken);
    assert_eq!(fsm.on_event(RuntimeEvent::TokenEmitted), State::FetchToken);
}

#[test]
fn fsm_ignores_unexpected_events() {
    let mut fsm = ProceduralFsm::new();
    assert_eq!(fsm.on_event(RuntimeEvent::CacheUpdated), State::FetchToken);
    assert_eq!(fsm.on_event(RuntimeEvent::TokenEmitted), State::FetchToken);
}

#[test]
fn runtime_resolves_rejected_steps_to_error() {
    let runtime = Runtime::default();
    let event = RuntimeEvent::TokenFetched { cache_hit: true };
    assert_eq!(runtime.resolve_step(true, event), event);
    assert_eq!(runtime.resolve_step(false, event), RuntimeEvent::Error);
}

#[test]
fn runtime_precision_can_be_scaled() {
    let mut runtime = Runtime::default();
    assert_eq!(runtime.precision(), Precision::F32);
    runtime.set_precision(Precision::Int8);
    assert_eq!(runtime.precision(), Precision::Int8);
    runtime.set_precision(Precision::Bf16);
    assert_eq!(runtime.precision(), Precision::Bf16);
}

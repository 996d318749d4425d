//! Runtime-driven finite state machine coordinating token processing.

use vstd::prelude::*;

verus! {

use crate::runtime::Runtime;
use crate::runtime::RuntimeEvent;

/// Possible states in the token processing pipeline.
#[derive(Debug, PartialEq, Eq, Structural, Clone, Copy)]
pub enum State {
    /// Fetch the next token from the model.
    FetchToken,
    /// Update the key/value cache if needed.
    KVCacheUpdate,
    /// Compute attention using the current token and cache.
    ComputeAttention,
    /// Emit the processed token as output.
    OutputToken,
    /// An unrecoverable error state.
    Error,
}

/// The complete transition relation of the pipeline: the expected event
/// advances each stage, a cache hit skips the update stage, `Rollback`
/// returns to fetching from anywhere, `Error` is absorbing from anywhere,
/// and an unexpected event leaves the state unchanged.
pub open spec fn spec_next_state(s: State, event: RuntimeEvent) -> State {
    match (s, event) {
        (State::FetchToken, RuntimeEvent::TokenFetched { cache_hit }) => if cache_hit {
            State::ComputeAttention
        } else {
            State::KVCacheUpdate
        },
        (State::KVCacheUpdate, RuntimeEvent::CacheUpdated) => State::ComputeAttention,
        (State::ComputeAttention, RuntimeEvent::AttentionComputed) => State::OutputToken,
        (State::OutputToken, RuntimeEvent::TokenEmitted) => State::FetchToken,
        (_, RuntimeEvent::Rollback) => State::FetchToken,
        (_, RuntimeEvent::Error) => State::Error,
        (s0, _) => s0,
    }
}

/// The event that drives the pipeline stage a state is waiting in; a token
/// fetch is scheduled as a cache miss.
pub open spec fn spec_stage_event(s: State) -> RuntimeEvent {
    match s {
        State::FetchToken => RuntimeEvent::TokenFetched { cache_hit: false },
        State::KVCacheUpdate => RuntimeEvent::CacheUpdated,
        State::ComputeAttention => RuntimeEvent::AttentionComputed,
        State::OutputToken => RuntimeEvent::TokenEmitted,
        State::Error => RuntimeEvent::Error,
    }
}

/// A simple procedural state machine driven by [`RuntimeEvent`]s.
pub struct ProceduralFsm {
    state: State,
}

impl ProceduralFsm {
    /// The current state, as contracts see it.
    pub closed spec fn spec_state(&self) -> State {
        self.state
    }

    /// Create a new FSM starting in [`State::FetchToken`].
    pub fn new() -> (fsm: ProceduralFsm)
        ensures
            fsm.spec_state() == State::FetchToken,
    {
        ProceduralFsm { state: State::FetchToken }
    }

    /// Get the current state.
    pub fn state(&self) -> (s: State)
        ensures
            s == self.spec_state(),
    {
        self.state
    }

    /// Advance the FSM based on a runtime event and return the new state.
    pub fn on_event(&mut self, event: RuntimeEvent) -> (s: State)
        ensures
            final(self).spec_state() == spec_next_state(old(self).spec_state(), event),
            s == final(self).spec_state(),
    {
        self.state = match (self.state, event) {
            (State::FetchToken, RuntimeEvent::TokenFetched { cache_hit }) => if cache_hit {
                State::ComputeAttention
            } else {
                State::KVCacheUpdate
            },
            (State::KVCacheUpdate, RuntimeEvent::CacheUpdated) => State::ComputeAttention,
            (State::ComputeAttention, RuntimeEvent::AttentionComputed) => State::OutputToken,
            (State::OutputToken, RuntimeEvent::TokenEmitted) => State::FetchToken,
            (_, RuntimeEvent::Rollback) => State::FetchToken,
            (_, RuntimeEvent::Error) => State::Error,
            (s0, _) => s0,
        };
        self.state
    }

    /// Apply an event to the FSM and return the event the runtime
    /// schedules next: the one that drives the pipeline stage the machine
    /// is now in.  A scheduled token fetch assumes a cache miss; the
    /// caller replaces it on a hit.
    pub fn step_with_runtime(&mut self, runtime: &Runtime, event: RuntimeEvent) -> (next:
        RuntimeEvent)
        ensures
            final(self).spec_state() == spec_next_state(old(self).spec_state(), event),
            next == spec_stage_event(final(self).spec_state()),
    {
        let state = self.on_event(event);
        let scheduled = match state {
            State::FetchToken => RuntimeEvent::TokenFetched { cache_hit: false },
            State::KVCacheUpdate => RuntimeEvent::CacheUpdated,
            State::ComputeAttention => RuntimeEvent::AttentionComputed,
            State::OutputToken => RuntimeEvent::TokenEmitted,
            State::Error => RuntimeEvent::Error,
        };
        runtime.resolve_step(true, scheduled)
    }
}

} // verus!

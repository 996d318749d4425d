//! Runtime events, numeric precision selection, and the decision rule of a
//! runtime step.
//!
//! The surrounding runtime drives agents and state machines through
//! [`RuntimeEvent`]s; its evaluation, regulation, reflexion and hypothesis
//! stages are asynchronous collaborators outside this library.  What the
//! library owns is the data model and the step decision: a step whose
//! effort evaluation was rejected schedules [`RuntimeEvent::Error`], any
//! other step schedules whatever event the hypothesis stage produced.

use vstd::prelude::*;

verus! {

/// Events emitted by the runtime to drive higher level state machines.
#[derive(Debug, Clone, Copy, PartialEq, Eq, Structural)]
pub enum RuntimeEvent {
    /// A token was fetched from the model.  `cache_hit` indicates whether
    /// the KV cache already contains the necessary values and the update
    /// phase can be skipped.
    TokenFetched { cache_hit: bool },
    /// The KV cache has been updated and is ready for attention computation.
    CacheUpdated,
    /// Attention computation has completed.
    AttentionComputed,
    /// A token has been emitted as output.
    TokenEmitted,
    /// Undo the current pipeline step and return to fetching.
    Rollback,
    /// An unrecoverable error occurred.
    Error,
}

/// Numeric precision used by the runtime for model execution.
#[derive(Debug, Clone, Copy, PartialEq, Eq, Structural)]
pub enum Precision {
    F32,
    Bf16,
    Int8,
    Int4,
}

/// The event a runtime step schedules next, given whether the effort
/// evaluator accepted the step and the event the hypothesis stage produced.
pub open spec fn spec_resolve_step(accepted: bool, outcome: RuntimeEvent) -> RuntimeEvent {
    if accepted {
        outcome
    } else {
        RuntimeEvent::Error
    }
}

/// Runtime configuration shared by the asynchronous step pipeline.
pub struct Runtime {
    precision: Precision,
}

impl Runtime {
    /// The currently configured precision, as contracts see it.
    pub closed spec fn spec_precision(&self) -> Precision {
        self.precision
    }

    /// Update the runtime's numeric precision.  This allows dynamic
    /// precision scaling based on model or system requirements.
    pub fn set_precision(&mut self, precision: Precision)
        ensures
            final(self).spec_precision() == precision,
    {
        self.precision = precision;
    }

    /// Return the currently configured numeric precision.
    pub fn precision(&self) -> (p: Precision)
        ensures
            p == self.spec_precision(),
    {
        self.precision
    }

    /// Decide what a runtime step schedules next.  The asynchronous
    /// pipeline evaluates the incoming event, and — when it is accepted —
    /// regulates, reflects on and manages it; this function is the final
    /// decision over those collaborators' answers.
    pub fn resolve_step(&self, accepted: bool, outcome: RuntimeEvent) -> (next: RuntimeEvent)
        ensures
            next == spec_resolve_step(accepted, outcome),
    {
        if accepted {
            outcome
        } else {
            RuntimeEvent::Error
        }
    }
}

impl Default for Runtime {
    /// A runtime starts in full single-precision mode.
    fn default() -> (r: Runtime)
        ensures
            r.spec_precision() == Precision::F32,
    {
        Runtime { precision: Precision::F32 }
    }
}

/// Trait implemented by backend plugins loaded into the runtime.
pub trait BackendPlugin {
    /// Name used to register the plugin.
    fn name(&self) -> &'static str;

    /// Called once when the plugin is loaded.
    fn initialize(&self);

    /// Execute the plugin's main functionality.
    fn execute(&self);
}

} // verus!

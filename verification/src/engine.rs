//! The boundary to the external symbolication engine. The host invokes the
//! engine on the coredump bytes and the resolved debug artifact and hands the
//! outcome back as plain values; this module turns that outcome into the
//! run's frames or its terminal error.

use vstd::prelude::*;
use crate::errors::TriageError;
use crate::frames::StackFrame;

verus! {

/// What the host's invocation of the symbolication engine came back with.
pub enum EngineOutcome {
    /// The reconstructed frames, outermost call first.
    Stack { frames: Vec<StackFrame> },
    /// The engine rejected the coredump or its debug data.
    Failure { reason: String },
}

/// Accepts the engine's outcome for a run: the frames stand as the engine
/// returned them, and any engine failure surfaces as a symbolication error
/// that aborts the run. Nothing retries it, since the failure is
/// deterministic given the same inputs.
pub fn accept_engine_outcome(outcome: EngineOutcome) -> (r: Result<Vec<StackFrame>, TriageError>)
    ensures
        match outcome {
            EngineOutcome::Stack { frames } => r matches Ok(f) && f@ == frames@,
            EngineOutcome::Failure { reason } => (r matches Err(
                TriageError::SymbolicationFailed { reason: why },
            ) && why@ == reason@),
        },
{
    match outcome {
        EngineOutcome::Stack { frames } => Ok(frames),
        EngineOutcome::Failure { reason } => Err(TriageError::SymbolicationFailed { reason }),
    }
}

} // verus!

//! Crash-triage pipeline for a sandboxed wasm execution host.
//!
//! When a guest module traps, the host captures a coredump and submits it
//! together with its debugging metadata. This library holds the logic of the
//! triage run: deciding how the debug information is obtained (inline sections
//! or fetched from object storage by module identifier), turning the external
//! symbolication engine's outcome into the run's frames or its terminal
//! error, deriving the archive key for the raw dump, and building the
//! incident report for the external tracking backend. The host runtime
//! performs the I/O around these functions, including the engine invocation
//! itself.

use vstd::prelude::*;

pub mod archive;
pub mod engine;
pub mod errors;
pub mod frames;
pub mod ident;
pub mod json;
pub mod report;
pub mod resolve;
pub mod submission;
pub mod text;

verus! {

/// Demonstration computation performed by the sample guest module.
pub fn calculate(value: usize) -> (r: usize)
    ensures
        r == value,
{
    value
}

} // verus!

//! The error taxonomy of a triage run. Every failure short-circuits the rest
//! of the run for that submission; nothing is retried.

use vstd::prelude::*;

verus! {

/// Why a triage run failed.
#[derive(Debug)]
pub enum TriageError {
    /// A required form field is absent from the submission.
    MissingField { field: String },
    /// The originating-request field is not a well-formed JSON document.
    MalformedRequest,
    /// The module-identifier section could not be parsed into an identifier.
    MalformedIdentifier,
    /// Debug information must be fetched but no object storage is configured.
    StorageUnavailable,
    /// The referenced debug artifact is absent from object storage.
    DebugArtifactMissing,
    /// Fetching the debug artifact from object storage failed.
    StorageIOError { detail: String },
    /// A fixed inline debug section is absent from the submission.
    MissingSection { section: String },
    /// The symbolication engine rejected the coredump or its debug data.
    SymbolicationFailed { reason: String },
    /// The reporting backend answered with a non-success status.
    ReportTransportError { status: u16, body: String },
}

} // verus!

//! Debug-source resolution: decides, per submission, whether debug
//! information is supplied inline as the fixed section set or must be fetched
//! from object storage under a key derived from the module identifier.

use vstd::prelude::*;
use vstd::string::StringExecFns;
use crate::errors::TriageError;
use crate::ident::leb_prefix_bounded;
use crate::ident::leb_prefix_is_bounded;
use crate::ident::parse_build_id_section;
use crate::ident::parsed_build_id;
use crate::ident::storage_key;
use crate::ident::storage_key_spec;
use crate::submission::SectionName;
use crate::submission::Submission;
use crate::submission::all_sections;
use crate::submission::find_part;
use crate::submission::lookup_part;
use crate::submission::section_order;

verus! {

/// How the debug information of a submission is supplied: exactly one of the
/// two forms holds for any submission.
pub enum DebugSource {
    /// The fixed section set, supplied inline with the submission.
    Inline { sections: Vec<(SectionName, Vec<u8>)> },
    /// Only a 128-bit module identifier; the artifact lives in object storage.
    ByReference { module_id: Vec<u8> },
}

/// The debug bytes usable for symbolication, resolved for one run.
pub enum DebugArtifact {
    /// The inline section set.
    Inline { sections: Vec<(SectionName, Vec<u8>)> },
    /// The module fetched from object storage.
    Module { bytes: Vec<u8> },
}

/// What the one possible object-storage fetch of a run came back with.
pub enum FetchOutcome {
    /// The object exists and holds these bytes.
    Found { bytes: Vec<u8> },
    /// The fetch succeeded but no object stands under the key.
    Missing,
    /// The fetch itself failed.
    Failed { detail: String },
}

/// What must happen next after resolving a submission.
pub enum ResolutionStep {
    /// The artifact is already at hand.
    Ready { artifact: DebugArtifact },
    /// The artifact must be fetched from object storage under this key.
    Fetch { key: String },
}

/// Whether the submission carries the module-identifier section.
pub open spec fn has_identifier(parts: Seq<(String, Vec<u8>)>) -> bool {
    lookup_part(parts, "build_id-section"@) is Some
}

/// The content of the module-identifier section.
pub open spec fn identifier_bytes(parts: Seq<(String, Vec<u8>)>) -> Seq<u8> {
    lookup_part(parts, "build_id-section"@)->0
}

/// Whether the identifier section parses into a 128-bit module identifier.
pub open spec fn identifier_resolves(parts: Seq<(String, Vec<u8>)>) -> bool {
    &&& has_identifier(parts)
    &&& leb_prefix_bounded(identifier_bytes(parts))
    &&& parsed_build_id(identifier_bytes(parts)) matches Some(v) && v.len() == 16
}

/// The parsed module identifier.
pub open spec fn module_id_of(parts: Seq<(String, Vec<u8>)>) -> Seq<u8> {
    parsed_build_id(identifier_bytes(parts))->0
}

/// The first absent inline section at or after position `k` of the fixed
/// order, if any.
pub open spec fn first_missing_from(parts: Seq<(String, Vec<u8>)>, k: int) -> Option<int>
    decreases 9 - k,
{
    if k < 0 || k >= 9 {
        None
    } else if lookup_part(parts, section_order()[k].field()) is None {
        Some(k)
    } else {
        first_missing_from(parts, k + 1)
    }
}

/// The position of the first absent inline section, if any.
pub open spec fn first_missing_section(parts: Seq<(String, Vec<u8>)>) -> Option<int> {
    first_missing_from(parts, 0)
}

/// The collected inline sections: one entry per fixed section, in order,
/// holding the submitted bytes.
pub open spec fn inline_sections_ok(
    parts: Seq<(String, Vec<u8>)>,
    sections: Seq<(SectionName, Vec<u8>)>,
) -> bool {
    &&& sections.len() == 9
    &&& forall|k: int| 0 <= k < 9 ==> (#[trigger] sections[k]).0 == section_order()[k]
    &&& forall|k: int|
        0 <= k < 9 ==> Some((#[trigger] sections[k]).1@) == lookup_part(
            parts,
            section_order()[k].field(),
        )
}

/// Resolves how a submission supplies its debug information. Presence of the
/// module-identifier section selects the by-reference path; its absence
/// selects the inline path, which requires every section of the fixed set.
pub fn resolve_debug_source(sub: &Submission) -> (r: Result<DebugSource, TriageError>)
    ensures
        match r {
            Ok(DebugSource::ByReference { module_id }) => {
                &&& has_identifier(sub.parts@)
                &&& identifier_resolves(sub.parts@)
                &&& module_id@ == module_id_of(sub.parts@)
            },
            Ok(DebugSource::Inline { sections }) => {
                &&& !has_identifier(sub.parts@)
                &&& first_missing_section(sub.parts@) is None
                &&& inline_sections_ok(sub.parts@, sections@)
            },
            Err(TriageError::MalformedIdentifier) => has_identifier(sub.parts@)
                && !identifier_resolves(sub.parts@),
            Err(TriageError::MissingSection { section }) => {
                &&& !has_identifier(sub.parts@)
                &&& first_missing_section(sub.parts@) matches Some(k) && section@ == section_order(
                )[k].label()
            },
            Err(_) => false,
        },
{
    match find_part(&sub.parts, "build_id-section") {
        Some(id_section) => {
            if !leb_prefix_is_bounded(id_section) {
                return Err(TriageError::MalformedIdentifier);
            }
            match parse_build_id_section(id_section) {
                None => Err(TriageError::MalformedIdentifier),
                Some(module_id) => {
                    if module_id.len() == 16 {
                        Ok(DebugSource::ByReference { module_id })
                    } else {
                        Err(TriageError::MalformedIdentifier)
                    }
                },
            }
        },
        None => {
            let names = all_sections();
            let mut sections: Vec<(SectionName, Vec<u8>)> = Vec::new();
            let mut k: usize = 0;
            while k < 9
        invariant
                    k <= 9,
                    names@ == section_order(),
                    !has_identifier(sub.parts@),
                    first_missing_section(sub.parts@) == first_missing_from(sub.parts@, k as int),
                    sections@.len() == k,
                    forall|j: int| 0 <= j < k ==> (#[trigger] sections@[j]).0 == section_order()[j],
                    forall|j: int|
                        0 <= j < k ==> Some((#[trigger] sections@[j]).1@) == lookup_part(
                            sub.parts@,
                            section_order()[j].field(),
                        ),
        decreases 9 - k,
            {
                let name = names[k];
                let field = name.field_string();
                match find_part(&sub.parts, field.as_str()) {
                    None => {
                        return Err(
                            TriageError::MissingSection {
                                section: String::from_str(name.label_str()),
                            },
                        );
                    },
                    Some(bytes) => {
                        sections.push((name, bytes.clone()));
                    },
                }
                k = k + 1;
            }
            Ok(DebugSource::Inline { sections })
        },
    }
}

/// Resolves a submission into the next step of the run: an artifact that is
/// already at hand, or the storage key to fetch it under. Fetching requires
/// configured object storage; its absence is fatal for a by-reference
/// submission.
pub fn plan_resolution(sub: &Submission, storage_configured: bool) -> (r: Result<
    ResolutionStep,
    TriageError,
>)
    ensures
        match r {
            Ok(ResolutionStep::Ready { artifact }) => {
                &&& !has_identifier(sub.parts@)
                &&& first_missing_section(sub.parts@) is None
                &&& artifact matches DebugArtifact::Inline { sections } && inline_sections_ok(
                    sub.parts@,
                    sections@,
                )
            },
            Ok(ResolutionStep::Fetch { key }) => {
                &&& storage_configured
                &&& identifier_resolves(sub.parts@)
                &&& key@ == storage_key_spec(module_id_of(sub.parts@))
            },
            Err(TriageError::StorageUnavailable) => !storage_configured && identifier_resolves(
                sub.parts@,
            ),
            Err(TriageError::MalformedIdentifier) => has_identifier(sub.parts@)
                && !identifier_resolves(sub.parts@),
            Err(TriageError::MissingSection { section }) => {
                &&& !has_identifier(sub.parts@)
                &&& first_missing_section(sub.parts@) matches Some(k) && section@ == section_order(
                )[k].label()
            },
            Err(_) => false,
        },
{
    match resolve_debug_source(sub) {
        Err(e) => Err(e),
        Ok(DebugSource::Inline { sections }) => Ok(
            ResolutionStep::Ready { artifact: DebugArtifact::Inline { sections } },
        ),
        Ok(DebugSource::ByReference { module_id }) => {
            if !storage_configured {
                Err(TriageError::StorageUnavailable)
            } else {
                let key = storage_key(&module_id);
                Ok(ResolutionStep::Fetch { key })
            }
        },
    }
}

/// Turns the outcome of the object-storage fetch into the debug artifact.
/// A fetch that came back empty-handed is a data-integrity failure, distinct
/// from a fetch that failed outright.
pub fn artifact_from_fetch(outcome: FetchOutcome) -> (r: Result<DebugArtifact, TriageError>)
    ensures
        match outcome {
            FetchOutcome::Found { bytes } => {
                if bytes@.len() == 0 {
                    r matches Err(TriageError::DebugArtifactMissing)
                } else {
                    r matches Ok(DebugArtifact::Module { bytes: b }) && b@ == bytes@
                }
            },
            FetchOutcome::Missing => r matches Err(TriageError::DebugArtifactMissing),
            FetchOutcome::Failed { detail } => r matches Err(
                TriageError::StorageIOError { detail: d },
            ) && d@ == detail@,
        },
{
    match outcome {
        FetchOutcome::Found { bytes } => {
            if bytes.len() == 0 {
                Err(TriageError::DebugArtifactMissing)
            } else {
                Ok(DebugArtifact::Module { bytes })
            }
        },
        FetchOutcome::Missing => Err(TriageError::DebugArtifactMissing),
        FetchOutcome::Failed { detail } => Err(TriageError::StorageIOError { detail }),
    }
}

} // verus!

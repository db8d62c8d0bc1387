//! The decoded input of one triage run: the originating request, the raw
//! coredump, and the named file parts of the multipart submission, together
//! with the fixed set of debug-section names a submission may carry inline.

use vstd::prelude::*;
use vstd::string::StringExecFns;
use crate::errors::TriageError;
use crate::json::is_json_text;
use crate::json::json_text_is_valid;
use crate::text::str_eq;

verus! {

/// The decoded input of one triage run, handed in by the host runtime as
/// plain values. It is immutable once decoded and discarded after the run.
pub struct Submission {
    /// The originating request, as the JSON text submitted with the dump.
    pub request: String,
    /// The raw coredump bytes.
    pub coredump: Vec<u8>,
    /// The file parts of the submission: form-field name and content.
    pub parts: Vec<(String, Vec<u8>)>,
}

/// The content of the first part with the given field name, if any.
pub open spec fn lookup_from(parts: Seq<(String, Vec<u8>)>, name: Seq<char>, i: int) -> Option<
    Seq<u8>,
>
    decreases parts.len() - i,
{
    if i < 0 || i >= parts.len() {
        None
    } else if parts[i].0@ == name {
        Some(parts[i].1@)
    } else {
        lookup_from(parts, name, i + 1)
    }
}

/// The content of the first part with the given field name, if any.
pub open spec fn lookup_part(parts: Seq<(String, Vec<u8>)>, name: Seq<char>) -> Option<Seq<u8>> {
    lookup_from(parts, name, 0)
}

/// Finds the first part with the given field name.
pub fn find_part<'a>(parts: &'a Vec<(String, Vec<u8>)>, name: &str) -> (r: Option<&'a Vec<u8>>)
    ensures
        match r {
            Some(b) => lookup_part(parts@, name@) == Some(b@),
            None => lookup_part(parts@, name@) is None,
        },
{
    let mut i: usize = 0;
    while i < parts.len()
        invariant
            i <= parts@.len(),
            lookup_part(parts@, name@) == lookup_from(parts@, name@, i as int),
        decreases parts@.len() - i,
    {
        if str_eq(parts[i].0.as_str(), name) {
            return Some(&parts[i].1);
        }
        i = i + 1;
    }
    None
}

/// The value of the first text field with the given name, from position `i`
/// on, if any.
pub open spec fn lookup_text_from(fields: Seq<(String, String)>, name: Seq<char>, i: int) -> Option<
    Seq<char>,
>
    decreases fields.len() - i,
{
    if i < 0 || i >= fields.len() {
        None
    } else if fields[i].0@ == name {
        Some(fields[i].1@)
    } else {
        lookup_text_from(fields, name, i + 1)
    }
}

/// The value of the first text field with the given name, if any.
pub open spec fn lookup_text(fields: Seq<(String, String)>, name: Seq<char>) -> Option<Seq<char>> {
    lookup_text_from(fields, name, 0)
}

/// Finds the first text field with the given name.
pub fn find_text<'a>(fields: &'a Vec<(String, String)>, name: &str) -> (r: Option<&'a String>)
    ensures
        match r {
            Some(v) => lookup_text(fields@, name@) == Some(v@),
            None => lookup_text(fields@, name@) is None,
        },
{
    let mut i: usize = 0;
    while i < fields.len()
        invariant
            i <= fields@.len(),
            lookup_text(fields@, name@) == lookup_text_from(fields@, name@, i as int),
        decreases fields@.len() - i,
    {
        if str_eq(fields[i].0.as_str(), name) {
            return Some(&fields[i].1);
        }
        i = i + 1;
    }
    None
}

/// Decodes the text fields and file parts of a multipart submission into the
/// input of one triage run: the originating request (which must be one JSON
/// document), the coredump, and the remaining parts as they stand.
pub fn decode_submission(fields: Vec<(String, String)>, files: Vec<(String, Vec<u8>)>) -> (r:
    Result<Submission, TriageError>)
    ensures
        match r {
            Ok(sub) => {
                &&& lookup_text(fields@, "request"@) == Some(sub.request@)
                &&& is_json_text(sub.request@)
                &&& lookup_part(files@, "coredump"@) == Some(sub.coredump@)
                &&& sub.parts@ == files@
            },
            Err(TriageError::MissingField { field }) => {
                ||| (field@ == "request"@ && lookup_text(fields@, "request"@) is None)
                ||| (field@ == "coredump"@ && (lookup_text(fields@, "request"@) matches Some(q)
                    && is_json_text(q)) && lookup_part(files@, "coredump"@) is None)
            },
            Err(TriageError::MalformedRequest) => lookup_text(fields@, "request"@) matches Some(q)
                && !is_json_text(q),
            Err(_) => false,
        },
{
    let request = match find_text(&fields, "request") {
        None => {
            return Err(TriageError::MissingField { field: String::from_str("request") });
        },
        Some(v) => v.clone(),
    };
    if !json_text_is_valid(request.as_str()) {
        return Err(TriageError::MalformedRequest);
    }
    let coredump = match find_part(&files, "coredump") {
        None => {
            return Err(TriageError::MissingField { field: String::from_str("coredump") });
        },
        Some(b) => b.clone(),
    };
    Ok(Submission { request, coredump, parts: files })
}

/// The fixed, enumerated set of debug sections a submission carries inline.
#[derive(Clone, Copy, PartialEq, Eq, Structural)]
pub enum SectionName {
    /// The wasm `name` custom section, holding function names.
    Name,
    DebugInfo,
    DebugPubtypes,
    DebugLoc,
    DebugRanges,
    DebugAbbrev,
    DebugLine,
    DebugStr,
    DebugPubnames,
}

impl SectionName {
    /// The name of the section itself.
    pub open spec fn label(self) -> Seq<char> {
        match self {
            SectionName::Name => "name"@,
            SectionName::DebugInfo => ".debug_info"@,
            SectionName::DebugPubtypes => ".debug_pubtypes"@,
            SectionName::DebugLoc => ".debug_loc"@,
            SectionName::DebugRanges => ".debug_ranges"@,
            SectionName::DebugAbbrev => ".debug_abbrev"@,
            SectionName::DebugLine => ".debug_line"@,
            SectionName::DebugStr => ".debug_str"@,
            SectionName::DebugPubnames => ".debug_pubnames"@,
        }
    }

    /// The form-field name the section is submitted under.
    pub open spec fn field(self) -> Seq<char> {
        self.label() + "-section"@
    }

    /// The name of the section itself.
    pub fn label_str(&self) -> (r: &'static str)
        ensures
            r@ == self.label(),
    {
        match self {
            SectionName::Name => "name",
            SectionName::DebugInfo => ".debug_info",
            SectionName::DebugPubtypes => ".debug_pubtypes",
            SectionName::DebugLoc => ".debug_loc",
            SectionName::DebugRanges => ".debug_ranges",
            SectionName::DebugAbbrev => ".debug_abbrev",
            SectionName::DebugLine => ".debug_line",
            SectionName::DebugStr => ".debug_str",
            SectionName::DebugPubnames => ".debug_pubnames",
        }
    }

    /// The form-field name the section is submitted under.
    pub fn field_string(&self) -> (r: String)
        ensures
            r@ == self.field(),
    {
        String::from_str(self.label_str()).concat("-section")
    }
}

/// The fixed section set, in the order resolution checks it.
pub open spec fn section_order() -> Seq<SectionName> {
    seq![
        SectionName::Name,
        SectionName::DebugInfo,
        SectionName::DebugPubtypes,
        SectionName::DebugLoc,
        SectionName::DebugRanges,
        SectionName::DebugAbbrev,
        SectionName::DebugLine,
        SectionName::DebugStr,
        SectionName::DebugPubnames,
    ]
}

/// The fixed section set, in the order resolution checks it.
pub fn all_sections() -> (r: Vec<SectionName>)
    ensures
        r@ == section_order(),
{
    let r = vec![
        SectionName::Name,
        SectionName::DebugInfo,
        SectionName::DebugPubtypes,
        SectionName::DebugLoc,
        SectionName::DebugRanges,
        SectionName::DebugAbbrev,
        SectionName::DebugLine,
        SectionName::DebugStr,
        SectionName::DebugPubnames,
    ];
    proof {
        assert(r@ =~= section_order());
    }
    r
}

} // verus!

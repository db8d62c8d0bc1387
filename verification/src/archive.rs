//! Archiving and correlation: the time-derived key the raw coredump is
//! persisted under, the tags attached to the incident, and the body of the
//! response to the submitting caller.

use vstd::prelude::*;
use vstd::string::StringExecFns;
use crate::text::dec_str;
use crate::text::lemma_dec_str_injective;
use crate::text::u64_to_dec;

verus! {

/// The archive key of a submission at the given millisecond timestamp.
pub open spec fn archive_key_spec(now_ms: int) -> Seq<char> {
    "coredump."@ + dec_str(now_ms)
}

/// Derives the archive key for a submission time in milliseconds.
pub fn archive_key(now_ms: u64) -> (r: String)
    ensures
        r@ == archive_key_spec(now_ms as int),
{
    let mut s = String::from_str("coredump.");
    let n = u64_to_dec(now_ms);
    s.append(n.as_str());
    proof {
        assert(s@ =~= archive_key_spec(now_ms as int));
    }
    s
}

/// Submissions at different milliseconds get different archive keys, and two
/// submissions at the same millisecond share one key: the key distinguishes
/// exactly the millisecond, a known collision window.
pub proof fn lemma_archive_key_distinguishes(a: int, b: int)
    requires
        a >= 0,
        b >= 0,
    ensures
        (archive_key_spec(a) == archive_key_spec(b)) <==> a == b,
{
    if archive_key_spec(a) == archive_key_spec(b) {
        let p = "coredump."@;
        assert(archive_key_spec(a).subrange(p.len() as int, archive_key_spec(a).len() as int)
            =~= dec_str(a));
        assert(archive_key_spec(b).subrange(p.len() as int, archive_key_spec(b).len() as int)
            =~= dec_str(b));
        lemma_dec_str_injective(a, b);
    }
}

/// A record persisted to the write-only archive: the raw coredump under its
/// time-derived key.
pub struct ArchiveRecord {
    /// The time-derived key the payload stands under.
    pub key: String,
    /// The raw coredump bytes, verbatim.
    pub payload: Vec<u8>,
}

/// Builds the archive record of a submission: the coredump verbatim, under
/// the key derived from the submission time.
pub fn archive_record(now_ms: u64, coredump: Vec<u8>) -> (r: ArchiveRecord)
    ensures
        r.key@ == archive_key_spec(now_ms as int),
        r.payload@ == coredump@,
{
    let key = archive_key(now_ms);
    ArchiveRecord { key, payload: coredump }
}

/// The tags attached to the outgoing incident: the storage key the debug
/// artifact was fetched under, when one was, and always the archive key.
pub fn incident_tags(debuginfo: Option<&String>, archive: &String) -> (r: Vec<(String, String)>)
    ensures
        match debuginfo {
            Some(k) => {
                &&& r@.len() == 2
                &&& r@[0].0@ == "debuginfo"@ && r@[0].1@ == k@
                &&& r@[1].0@ == "file"@ && r@[1].1@ == archive@
            },
            None => r@.len() == 1 && r@[0].0@ == "file"@ && r@[0].1@ == archive@,
        },
{
    let mut tags: Vec<(String, String)> = Vec::new();
    match debuginfo {
        Some(k) => {
            tags.push((String::from_str("debuginfo"), k.clone()));
        },
        None => {},
    }
    tags.push((String::from_str("file"), archive.clone()));
    tags
}

/// The body of the success response to the submitting caller.
pub open spec fn response_body_spec(key: Seq<char>) -> Seq<char> {
    "{\"key\": \""@ + key + "\"}"@
}

/// Renders the success response to the submitting caller.
pub fn response_body(key: &String) -> (r: String)
    ensures
        r@ == response_body_spec(key@),
{
    let mut s = String::from_str("{\"key\": \"");
    s.append(key.as_str());
    s.append("\"}");
    proof {
        assert(s@ =~= response_body_spec(key@));
    }
    s
}

} // verus!

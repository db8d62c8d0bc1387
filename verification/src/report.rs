//! The incident report: the exact JSON payload transmitted to the external
//! tracking backend, the backend URL, and the reading of its response.

use vstd::prelude::*;
use vstd::string::StringExecFns;
use crate::errors::TriageError;
use crate::frames::SentryFrame;
use crate::ident::uuid_hyphenated;
use crate::json::append_json_string;
use crate::json::json_string;
use crate::text::dec_str;
use crate::text::u64_to_dec;

verus! {

/// One frame of the report payload.
pub open spec fn frame_json(f: SentryFrame) -> Seq<char> {
    "{\"filename\":"@ + json_string(f.filename@) + ",\"function\":"@ + json_string(f.function@)
        + ",\"lineno\":"@ + dec_str(f.lineno as int) + ",\"in_app\":"@ + (if f.in_app {
        "true"@
    } else {
        "false"@
    }) + "}"@
}

/// The report frames, comma-separated, in the order given.
pub open spec fn frames_joined(fs: Seq<SentryFrame>) -> Seq<char>
    decreases fs.len(),
{
    if fs.len() == 0 {
        Seq::<char>::empty()
    } else if fs.len() == 1 {
        frame_json(fs[0])
    } else {
        frames_joined(fs.drop_last()) + ","@ + frame_json(fs.last())
    }
}

/// One tag of the report payload.
pub open spec fn tag_json(t: (String, String)) -> Seq<char> {
    json_string(t.0@) + ":"@ + json_string(t.1@)
}

/// The report tags, comma-separated, in the order given.
pub open spec fn tags_joined(ts: Seq<(String, String)>) -> Seq<char>
    decreases ts.len(),
{
    if ts.len() == 0 {
        Seq::<char>::empty()
    } else if ts.len() == 1 {
        tag_json(ts[0])
    } else {
        tags_joined(ts.drop_last()) + ","@ + tag_json(ts.last())
    }
}

/// The full incident payload: identifier, timestamp in seconds, the fixed
/// platform, logger, level and exception framing, the reconstructed frames,
/// the originating request verbatim, and the accumulated tags.
pub open spec fn incident_body_spec(
    event_id: Seq<char>,
    timestamp: int,
    frames: Seq<SentryFrame>,
    tags: Seq<(String, String)>,
    request: Seq<char>,
) -> Seq<char> {
    "{\"event_id\":"@ + json_string(event_id)
        + ",\"exception\":{\"values\":[{\"stacktrace\":{\"frames\":["@ + frames_joined(frames)
        + "]},\"type\":\"Error\",\"value\":\"Wasm crashed\"}]},\"level\":\"fatal\",\"logger\":\"coredump-service\",\"platform\":\"rust\",\"request\":"@
        + request + ",\"tags\":{"@ + tags_joined(tags) + "},\"timestamp\":"@ + dec_str(timestamp)
        + "}"@
}

/// Appends one frame of the report payload.
fn append_frame(out: &mut String, f: &SentryFrame)
    ensures
        final(out)@ == old(out)@ + frame_json(*f),
{
    out.append("{\"filename\":");
    append_json_string(out, f.filename.as_str());
    out.append(",\"function\":");
    append_json_string(out, f.function.as_str());
    out.append(",\"lineno\":");
    let n = u64_to_dec(f.lineno as u64);
    out.append(n.as_str());
    out.append(",\"in_app\":");
    if f.in_app {
        out.append("true");
    } else {
        out.append("false");
    }
    out.append("}");
    proof {
        assert(out@ =~= old(out)@ + frame_json(*f));
    }
}

/// Appends the report frames, comma-separated.
fn append_frames(out: &mut String, frames: &Vec<SentryFrame>)
    ensures
        final(out)@ == old(out)@ + frames_joined(frames@),
{
    let mut i: usize = 0;
    proof {
        assert(frames@.subrange(0, 0) =~= Seq::<SentryFrame>::empty());
        assert(old(out)@ + frames_joined(frames@.subrange(0, 0)) =~= old(out)@);
    }
    while i < frames.len()
        invariant
            i <= frames@.len(),
            out@ == old(out)@ + frames_joined(frames@.subrange(0, i as int)),
        decreases frames@.len() - i,
    {
        if i > 0 {
            out.append(",");
        }
        append_frame(out, &frames[i]);
        proof {
            let pre = frames@.subrange(0, i as int);
            let cur = frames@.subrange(0, i as int + 1);
            assert(cur.drop_last() =~= pre);
            assert(cur.last() == frames@[i as int]);
            if i == 0 {
                assert(cur.len() == 1);
                assert(frames_joined(cur) == frame_json(frames@[0]));
                assert(out@ =~= old(out)@ + frames_joined(cur));
            } else {
                assert(frames_joined(cur) == frames_joined(pre) + ","@ + frame_json(
                    frames@[i as int],
                ));
                assert(out@ =~= old(out)@ + frames_joined(cur));
            }
        }
        i = i + 1;
    }
    proof {
        assert(frames@.subrange(0, frames@.len() as int) =~= frames@);
    }
}

/// Appends the report tags, comma-separated.
fn append_tags(out: &mut String, tags: &Vec<(String, String)>)
    ensures
        final(out)@ == old(out)@ + tags_joined(tags@),
{
    let mut i: usize = 0;
    proof {
        assert(tags@.subrange(0, 0) =~= Seq::<(String, String)>::empty());
        assert(old(out)@ + tags_joined(tags@.subrange(0, 0)) =~= old(out)@);
    }
    while i < tags.len()
        invariant
            i <= tags@.len(),
            out@ == old(out)@ + tags_joined(tags@.subrange(0, i as int)),
        decreases tags@.len() - i,
    {
        if i > 0 {
            out.append(",");
        }
        append_json_string(out, tags[i].0.as_str());
        out.append(":");
        append_json_string(out, tags[i].1.as_str());
        proof {
            let pre = tags@.subrange(0, i as int);
            let cur = tags@.subrange(0, i as int + 1);
            assert(cur.drop_last() =~= pre);
            assert(cur.last() == tags@[i as int]);
            if i == 0 {
                assert(tags_joined(cur) == tag_json(tags@[0]));
                assert(out@ =~= old(out)@ + tags_joined(cur));
            } else {
                assert(tags_joined(cur) == tags_joined(pre) + ","@ + tag_json(tags@[i as int]));
                assert(out@ =~= old(out)@ + tags_joined(cur));
            }
        }
        i = i + 1;
    }
    proof {
        assert(tags@.subrange(0, tags@.len() as int) =~= tags@);
    }
}

/// Builds the incident payload for the given identifier, timestamp in
/// seconds, frames, tags and originating request.
pub fn build_incident_body(
    event_id: &String,
    timestamp: u64,
    frames: &Vec<SentryFrame>,
    tags: &Vec<(String, String)>,
    request: &String,
) -> (r: String)
    ensures
        r@ == incident_body_spec(event_id@, timestamp as int, frames@, tags@, request@),
{
    let mut out = String::from_str("{\"event_id\":");
    append_json_string(&mut out, event_id.as_str());
    out.append(",\"exception\":{\"values\":[{\"stacktrace\":{\"frames\":[");
    append_frames(&mut out, frames);
    out.append(
        "]},\"type\":\"Error\",\"value\":\"Wasm crashed\"}]},\"level\":\"fatal\",\"logger\":\"coredump-service\",\"platform\":\"rust\",\"request\":",
    );
    out.append(request.as_str());
    out.append(",\"tags\":{");
    append_tags(&mut out, tags);
    out.append("},\"timestamp\":");
    let ts = u64_to_dec(timestamp);
    out.append(ts.as_str());
    out.append("}");
    proof {
        assert(out@ =~= incident_body_spec(
            event_id@,
            timestamp as int,
            frames@,
            tags@,
            request@,
        ));
    }
    out
}

/// Whether a text is the canonical hyphenated rendering of some 128-bit
/// identifier.
pub open spec fn is_uuid_string(s: Seq<char>) -> bool {
    exists|b: Seq<u8>| b.len() == 16 && s == uuid_hyphenated(b)
}

/// Relies on `uuid::Uuid::new_v4` and its hyphenated `Display` form: a fresh
/// random 128-bit identifier, rendered canonically. Nothing is promised of
/// which identifier comes back, only of its shape.
#[verifier::external_body]
pub fn fresh_event_id() -> (r: String)
    ensures
        is_uuid_string(r@),
{
    uuid::Uuid::new_v4().to_string()
}

/// Builds the incident payload for a run: a fresh event identifier, the
/// submission time scaled to seconds, and the given frames, tags and request.
pub fn report_body(
    now_ms: u64,
    frames: &Vec<SentryFrame>,
    tags: &Vec<(String, String)>,
    request: &String,
) -> (r: String)
    ensures
        exists|e: Seq<char>|
            is_uuid_string(e) && r@ == incident_body_spec(
                e,
                (now_ms / 1000) as int,
                frames@,
                tags@,
                request@,
            ),
{
    let event_id = fresh_event_id();
    let timestamp = now_ms / 1000;
    build_incident_body(&event_id, timestamp, frames, tags, request)
}

/// The URL of the external reporting backend, for the configured host,
/// project and access key.
pub open spec fn report_url_spec(host: Seq<char>, project_id: Seq<char>, api_key: Seq<char>) -> Seq<
    char,
> {
    "https://"@ + host + "/api/"@ + project_id
        + "/store/?sentry_version=7&sentry_client=coredump-service&sentry_key="@ + api_key
}

/// Derives the URL of the external reporting backend.
pub fn report_url(host: &str, project_id: &str, api_key: &str) -> (r: String)
    ensures
        r@ == report_url_spec(host@, project_id@, api_key@),
{
    let mut s = String::from_str("https://");
    s.append(host);
    s.append("/api/");
    s.append(project_id);
    s.append("/store/?sentry_version=7&sentry_client=coredump-service&sentry_key=");
    s.append(api_key);
    proof {
        assert(s@ =~= report_url_spec(host@, project_id@, api_key@));
    }
    s
}

/// Reads the backend's response: status 200 is success, any other status is
/// a transport failure carrying the status and the response body. A failed
/// report does not undo the already-written archive.
pub fn check_report_response(status: u16, body: String) -> (r: Result<(), TriageError>)
    ensures
        status == 200 ==> r is Ok,
        status != 200 ==> (r matches Err(TriageError::ReportTransportError { status: s, body: b })
            && s == status && b@ == body@),
{
    if status == 200 {
        Ok(())
    } else {
        Err(TriageError::ReportTransportError { status, body })
    }
}

} // verus!

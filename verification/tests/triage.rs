//! Tests of the triage pipeline: resolution paths, archive keys, frame
//! ordering and classification, the incident wire format, and the four
//! end-to-end scenarios driven stage by stage.

use coredump_service::archive::archive_key;
use coredump_service::archive::archive_record;
use coredump_service::archive::incident_tags;
use coredump_service::archive::response_body;
use coredump_service::calculate;
use coredump_service::engine::accept_engine_outcome;
use coredump_service::engine::EngineOutcome;
use coredump_service::errors::TriageError;
use coredump_service::frames::is_in_app;
use coredump_service::frames::log_lines;
use coredump_service::frames::sentry_frames;
use coredump_service::frames::SentryFrame;
use coredump_service::frames::StackFrame;
use coredump_service::ident::storage_key;
use coredump_service::report::build_incident_body;
use coredump_service::report::check_report_response;
use coredump_service::report::fresh_event_id;
use coredump_service::report::report_body;
use coredump_service::report::report_url;
use coredump_service::resolve::artifact_from_fetch;
use coredump_service::resolve::plan_resolution;
use coredump_service::resolve::resolve_debug_source;
use coredump_service::resolve::DebugArtifact;
use coredump_service::resolve::DebugSource;
use coredump_service::resolve::FetchOutcome;
use coredump_service::resolve::ResolutionStep;
use coredump_service::submission::decode_submission;
use coredump_service::submission::Submission;

const SECTION_NAMES: [&str; 9] = [
    "name",
    ".debug_info",
    ".debug_pubtypes",
    ".debug_loc",
    ".debug_ranges",
    ".debug_abbrev",
    ".debug_line",
    ".debug_str",
    ".debug_pubnames",
];

fn submission_with_parts(parts: Vec<(String, Vec<u8>)>) -> Submission {
    Submission {
        request: String::from("{}"),
        coredump: vec![1, 2, 3],
        parts,
    }
}

fn inline_parts() -> Vec<(String, Vec<u8>)> {
    SECTION_NAMES
        .iter()
        .enumerate()
        .map(|(i, n)| (format!("{}-section", n), vec![i as u8; i + 1]))
        .collect()
}

fn id_section(id: &[u8]) -> Vec<u8> {
    let mut v = vec![id.len() as u8];
    v.extend_from_slice(id);
    v
}

#[test]
fn calculate_returns_its_input() {
    assert_eq!(calculate(7), 7);
}

#[test]
fn in_app_boundaries() {
    assert!(!is_in_app("/foo/bar"));
    assert!(!is_in_app("library/x"));
    assert!(is_in_app("src/main.rs"));
}

#[test]
fn in_app_more_boundaries() {
    assert!(!is_in_app("/"));
    assert!(!is_in_app("library/"));
    assert!(is_in_app("library"));
    assert!(is_in_app(""));
    assert!(is_in_app("librarx/x"));
}

#[test]
fn resolution_takes_reference_path_when_identifier_present() {
    let id: Vec<u8> = (1..=16).collect();
    let mut parts = inline_parts();
    parts.push(("build_id-section".to_string(), id_section(&id)));
    let sub = submission_with_parts(parts);
    match resolve_debug_source(&sub) {
        Ok(DebugSource::ByReference { module_id }) => assert_eq!(module_id, id),
        _ => panic!("expected the by-reference path"),
    }
}

#[test]
fn resolution_takes_inline_path_when_identifier_absent() {
    let sub = submission_with_parts(inline_parts());
    match resolve_debug_source(&sub) {
        Ok(DebugSource::Inline { sections }) => {
            assert_eq!(sections.len(), 9);
            for (i, (_, bytes)) in sections.iter().enumerate() {
                assert_eq!(*bytes, vec![i as u8; i + 1]);
            }
        }
        _ => panic!("expected the inline path"),
    }
}

#[test]
fn each_missing_inline_section_is_named() {
    for missing in 0..9 {
        let parts: Vec<(String, Vec<u8>)> = SECTION_NAMES
            .iter()
            .filter(|n| **n != SECTION_NAMES[missing])
            .map(|n| (format!("{}-section", n), vec![1]))
            .collect();
        let sub = submission_with_parts(parts);
        match resolve_debug_source(&sub) {
            Err(TriageError::MissingSection { section }) => {
                assert_eq!(section, SECTION_NAMES[missing]);
            }
            _ => panic!("expected a missing-section error"),
        }
    }
}

#[test]
fn first_identifier_part_wins() {
    let first: Vec<u8> = (1..=16).collect();
    let second: Vec<u8> = (17..=32).collect();
    let sub = submission_with_parts(vec![
        ("build_id-section".to_string(), id_section(&first)),
        ("build_id-section".to_string(), id_section(&second)),
    ]);
    match resolve_debug_source(&sub) {
        Ok(DebugSource::ByReference { module_id }) => assert_eq!(module_id, first),
        _ => panic!("expected the by-reference path"),
    }
}

#[test]
fn truncated_identifier_is_malformed() {
    let sub = submission_with_parts(vec![(
        "build_id-section".to_string(),
        vec![16, 1, 2, 3],
    )]);
    assert!(matches!(
        resolve_debug_source(&sub),
        Err(TriageError::MalformedIdentifier)
    ));
}

#[test]
fn identifier_of_wrong_width_is_malformed() {
    let sub = submission_with_parts(vec![(
        "build_id-section".to_string(),
        id_section(&[1, 2, 3, 4]),
    )]);
    assert!(matches!(
        resolve_debug_source(&sub),
        Err(TriageError::MalformedIdentifier)
    ));
}

#[test]
fn unbounded_length_prefix_is_malformed() {
    let sub = submission_with_parts(vec![(
        "build_id-section".to_string(),
        vec![0xff; 24],
    )]);
    assert!(matches!(
        resolve_debug_source(&sub),
        Err(TriageError::MalformedIdentifier)
    ));
}

#[test]
fn storage_key_is_the_hyphenated_identifier() {
    let id: Vec<u8> = (1..=16).collect();
    assert_eq!(
        storage_key(&id),
        "debug-01020304-0506-0708-090a-0b0c0d0e0f10.wasm"
    );
}

#[test]
fn reference_path_without_storage_is_fatal() {
    let id: Vec<u8> = (1..=16).collect();
    let parts = vec![("build_id-section".to_string(), id_section(&id))];
    let sub = submission_with_parts(parts);
    assert!(matches!(
        plan_resolution(&sub, false),
        Err(TriageError::StorageUnavailable)
    ));
}

#[test]
fn reference_path_with_storage_plans_a_fetch() {
    let id: Vec<u8> = (1..=16).collect();
    let parts = vec![("build_id-section".to_string(), id_section(&id))];
    let sub = submission_with_parts(parts);
    match plan_resolution(&sub, true) {
        Ok(ResolutionStep::Fetch { key }) => {
            assert_eq!(key, "debug-01020304-0506-0708-090a-0b0c0d0e0f10.wasm");
        }
        _ => panic!("expected a fetch step"),
    }
}

#[test]
fn fetch_outcomes_map_to_artifacts_and_errors() {
    match artifact_from_fetch(FetchOutcome::Found { bytes: vec![9, 9] }) {
        Ok(DebugArtifact::Module { bytes }) => assert_eq!(bytes, vec![9, 9]),
        _ => panic!("expected a module artifact"),
    }
    assert!(matches!(
        artifact_from_fetch(FetchOutcome::Found { bytes: vec![] }),
        Err(TriageError::DebugArtifactMissing)
    ));
    assert!(matches!(
        artifact_from_fetch(FetchOutcome::Missing),
        Err(TriageError::DebugArtifactMissing)
    ));
    match artifact_from_fetch(FetchOutcome::Failed {
        detail: "socket closed".to_string(),
    }) {
        Err(TriageError::StorageIOError { detail }) => assert_eq!(detail, "socket closed"),
        _ => panic!("expected a storage failure"),
    }
}

#[test]
fn archive_keys_distinguish_milliseconds() {
    assert_eq!(archive_key(1234), "coredump.1234");
    assert_eq!(archive_key(0), "coredump.0");
    assert_eq!(
        archive_key(u64::MAX),
        "coredump.18446744073709551615"
    );
    assert_ne!(archive_key(1000), archive_key(1001));
    assert_eq!(archive_key(1000), archive_key(1000));
}

#[test]
fn archive_record_keeps_the_dump_verbatim() {
    let rec = archive_record(42, vec![7, 8, 9]);
    assert_eq!(rec.key, "coredump.42");
    assert_eq!(rec.payload, vec![7, 8, 9]);
}

#[test]
fn response_body_frames_the_key() {
    let key = String::from("coredump.99");
    assert_eq!(response_body(&key), "{\"key\": \"coredump.99\"}");
}

fn three_frames() -> Vec<StackFrame> {
    vec![
        StackFrame {
            name: "outer".to_string(),
            file: "/rt/entry.rs".to_string(),
            line: 1,
        },
        StackFrame {
            name: "middle".to_string(),
            file: "library/alloc.rs".to_string(),
            line: 2,
        },
        StackFrame {
            name: "inner".to_string(),
            file: "src/main.rs".to_string(),
            line: 3,
        },
    ]
}

#[test]
fn log_displays_frames_in_reverse_engine_order() {
    let lines = log_lines(&three_frames());
    assert_eq!(
        lines,
        vec![
            "    at inner (src/main.rs:3)",
            "    at middle (library/alloc.rs:2)",
            "    at outer (/rt/entry.rs:1)",
        ]
    );
}

#[test]
fn reversing_the_display_order_again_restores_engine_order() {
    let frames = three_frames();
    let once: Vec<&StackFrame> = frames.iter().rev().collect();
    let twice: Vec<&StackFrame> = once.into_iter().rev().collect();
    for (a, b) in twice.iter().zip(frames.iter()) {
        assert_eq!(a.name, b.name);
    }
}

#[test]
fn report_frames_keep_engine_order_and_classify() {
    let out = sentry_frames(&three_frames());
    assert_eq!(out.len(), 3);
    assert_eq!(out[0].function, "outer");
    assert_eq!(out[0].filename, "/rt/entry.rs");
    assert_eq!(out[0].lineno, 1);
    assert!(!out[0].in_app);
    assert!(!out[1].in_app);
    assert!(out[2].in_app);
}

#[test]
fn incident_body_matches_the_wire_format() {
    let event_id = String::from("abc");
    let frames = vec![SentryFrame {
        filename: "src/a.rs".to_string(),
        function: "foo".to_string(),
        lineno: 3,
        in_app: true,
    }];
    let tags = vec![("file".to_string(), "coredump.7000".to_string())];
    let request = String::from("{\"url\":\"/x\"}");
    let body = build_incident_body(&event_id, 7, &frames, &tags, &request);
    let expected = "{\"event_id\":\"abc\",\"exception\":{\"values\":[{\"stacktrace\":{\"frames\":[{\"filename\":\"src/a.rs\",\"function\":\"foo\",\"lineno\":3,\"in_app\":true}]},\"type\":\"Error\",\"value\":\"Wasm crashed\"}]},\"level\":\"fatal\",\"logger\":\"coredump-service\",\"platform\":\"rust\",\"request\":{\"url\":\"/x\"},\"tags\":{\"file\":\"coredump.7000\"},\"timestamp\":7}";
    assert_eq!(body, expected);
}

#[test]
fn incident_body_escapes_strings() {
    let event_id = String::from("e");
    let frames: Vec<SentryFrame> = vec![];
    let tags = vec![("file".to_string(), "a\"b\\c\nd\u{1}".to_string())];
    let request = String::from("{}");
    let body = build_incident_body(&event_id, 0, &frames, &tags, &request);
    let expected = "{\"event_id\":\"e\",\"exception\":{\"values\":[{\"stacktrace\":{\"frames\":[]},\"type\":\"Error\",\"value\":\"Wasm crashed\"}]},\"level\":\"fatal\",\"logger\":\"coredump-service\",\"platform\":\"rust\",\"request\":{},\"tags\":{\"file\":\"a\\\"b\\\\c\\nd\\u0001\"},\"timestamp\":0}";
    assert_eq!(body, expected);
}

#[test]
fn event_ids_have_the_hyphenated_shape() {
    let id = fresh_event_id();
    let chars: Vec<char> = id.chars().collect();
    assert_eq!(chars.len(), 36);
    for (i, c) in chars.iter().enumerate() {
        if i == 8 || i == 13 || i == 18 || i == 23 {
            assert_eq!(*c, '-');
        } else {
            assert!(c.is_ascii_hexdigit() && !c.is_ascii_uppercase());
        }
    }
}

#[test]
fn report_body_scales_time_and_draws_a_fresh_id() {
    let frames: Vec<SentryFrame> = vec![];
    let tags: Vec<(String, String)> = vec![];
    let request = String::from("{}");
    let body = report_body(7999, &frames, &tags, &request);
    let prefix = "{\"event_id\":\"";
    assert!(body.starts_with(prefix));
    let id = &body[prefix.len()..prefix.len() + 36];
    assert_eq!(id.matches('-').count(), 4);
    assert!(body.ends_with(",\"timestamp\":7}"));
}

#[test]
fn report_url_carries_host_project_and_key() {
    assert_eq!(
        report_url("errors.example", "42", "k1"),
        "https://errors.example/api/42/store/?sentry_version=7&sentry_client=coredump-service&sentry_key=k1"
    );
}

#[test]
fn report_response_success_and_failure() {
    assert!(check_report_response(200, String::new()).is_ok());
    match check_report_response(500, "boom".to_string()) {
        Err(TriageError::ReportTransportError { status, body }) => {
            assert_eq!(status, 500);
            assert_eq!(body, "boom");
        }
        _ => panic!("expected a transport error"),
    }
}

#[test]
fn decode_requires_the_request_field() {
    let r = decode_submission(vec![], vec![("coredump".to_string(), vec![1])]);
    match r {
        Err(TriageError::MissingField { field }) => assert_eq!(field, "request"),
        _ => panic!("expected a missing request field"),
    }
}

#[test]
fn decode_rejects_a_malformed_request() {
    let r = decode_submission(
        vec![("request".to_string(), "{not json".to_string())],
        vec![("coredump".to_string(), vec![1])],
    );
    assert!(matches!(r, Err(TriageError::MalformedRequest)));
}

#[test]
fn decode_requires_the_coredump_file() {
    let r = decode_submission(
        vec![("request".to_string(), "{}".to_string())],
        vec![],
    );
    match r {
        Err(TriageError::MissingField { field }) => assert_eq!(field, "coredump"),
        _ => panic!("expected a missing coredump file"),
    }
}

#[test]
fn decode_accepts_a_full_submission() {
    let r = decode_submission(
        vec![("request".to_string(), "{\"m\":\"GET\"}".to_string())],
        vec![
            ("coredump".to_string(), vec![1, 2]),
            ("name-section".to_string(), vec![3]),
        ],
    );
    let sub = r.expect("a full submission decodes");
    assert_eq!(sub.request, "{\"m\":\"GET\"}");
    assert_eq!(sub.coredump, vec![1, 2]);
    assert_eq!(sub.parts.len(), 2);
}

#[test]
fn engine_stack_passes_through_unchanged() {
    let frames = three_frames();
    match accept_engine_outcome(EngineOutcome::Stack { frames }) {
        Ok(f) => {
            assert_eq!(f.len(), 3);
            assert_eq!(f[0].name, "outer");
            assert_eq!(f[2].line, 3);
        }
        Err(_) => panic!("a reconstructed stack is accepted"),
    }
}

#[test]
fn engine_failure_surfaces_as_symbolication_error() {
    let outcome = EngineOutcome::Failure {
        reason: "mismatched debug info".to_string(),
    };
    match accept_engine_outcome(outcome) {
        Err(TriageError::SymbolicationFailed { reason }) => {
            assert_eq!(reason, "mismatched debug info");
        }
        _ => panic!("expected a symbolication error"),
    }
}

#[test]
fn a_real_engine_error_flows_into_the_taxonomy() {
    let header = b"\0asm\x01\0\0\0".to_vec();
    let res = coredump_to_stack::CoredumpToStack::new(&header)
        .and_then(|c| c.with_debug_module(&header))
        .and_then(|c| c.stack());
    let outcome = match res {
        Ok(frames) => EngineOutcome::Stack {
            frames: frames
                .into_iter()
                .map(|f| StackFrame {
                    name: f.name,
                    file: f.location.file,
                    line: f.location.line,
                })
                .collect(),
        },
        Err(e) => EngineOutcome::Failure {
            reason: e.to_string(),
        },
    };
    assert!(matches!(
        accept_engine_outcome(outcome),
        Err(TriageError::SymbolicationFailed { .. })
    ));
}

fn scenario_submission(id: &[u8]) -> Submission {
    Submission {
        request: String::from("{\"url\":\"/crash\"}"),
        coredump: vec![5, 5, 5],
        parts: vec![("build_id-section".to_string(), id_section(id))],
    }
}

#[test]
fn scenario_reference_hit_archives_tags_and_responds() {
    let id: Vec<u8> = (1..=16).collect();
    let expected_key = "debug-01020304-0506-0708-090a-0b0c0d0e0f10.wasm";
    let sub = scenario_submission(&id);

    let debug_key = match plan_resolution(&sub, true) {
        Ok(ResolutionStep::Fetch { key }) => key,
        _ => panic!("expected a fetch step"),
    };
    assert_eq!(debug_key, expected_key);

    let store = vec![(expected_key.to_string(), b"\0asm\x01\0\0\0".to_vec())];
    let fetched = match store.iter().find(|(k, _)| *k == debug_key) {
        Some((_, bytes)) => FetchOutcome::Found {
            bytes: bytes.clone(),
        },
        None => FetchOutcome::Missing,
    };
    let artifact = artifact_from_fetch(fetched).expect("the artifact resolves");
    assert!(matches!(artifact, DebugArtifact::Module { .. }));

    let now_ms: u64 = 1700000000123;
    let rec = archive_record(now_ms, sub.coredump.clone());
    assert_eq!(rec.key, "coredump.1700000000123");
    assert_eq!(rec.payload, sub.coredump);

    let tags = incident_tags(Some(&debug_key), &rec.key);
    assert_eq!(tags.len(), 2);
    assert_eq!(tags[0].0, "debuginfo");
    assert_eq!(tags[0].1, expected_key);
    assert_eq!(tags[1].0, "file");
    assert_eq!(tags[1].1, "coredump.1700000000123");

    assert_eq!(response_body(&rec.key), "{\"key\": \"coredump.1700000000123\"}");
}

#[test]
fn scenario_inline_path_takes_no_debuginfo_tag() {
    let sub = submission_with_parts(inline_parts());
    let step = plan_resolution(&sub, true).expect("the inline path resolves");
    match step {
        ResolutionStep::Ready { artifact } => {
            assert!(matches!(artifact, DebugArtifact::Inline { .. }))
        }
        ResolutionStep::Fetch { .. } => panic!("the inline path fetches nothing"),
    }
    let archive = archive_key(9);
    let tags = incident_tags(None, &archive);
    assert_eq!(tags.len(), 1);
    assert_eq!(tags[0].0, "file");
}

#[test]
fn scenario_missing_artifact_stops_before_archiving() {
    let id: Vec<u8> = (1..=16).collect();
    let sub = scenario_submission(&id);
    let key = match plan_resolution(&sub, true) {
        Ok(ResolutionStep::Fetch { key }) => key,
        _ => panic!("expected a fetch step"),
    };
    let store: Vec<(String, Vec<u8>)> = vec![];
    let fetched = match store.iter().find(|(k, _)| *k == key) {
        Some((_, bytes)) => FetchOutcome::Found {
            bytes: bytes.clone(),
        },
        None => FetchOutcome::Missing,
    };
    match artifact_from_fetch(fetched) {
        Err(TriageError::DebugArtifactMissing) => {}
        _ => panic!("expected the artifact to be reported missing"),
    }
}

#[test]
fn scenario_report_failure_keeps_the_archive() {
    let now_ms: u64 = 2000;
    let rec = archive_record(now_ms, vec![1]);

    let outcome = check_report_response(500, "internal error".to_string());
    match outcome {
        Err(TriageError::ReportTransportError { status, body }) => {
            assert_eq!(status, 500);
            assert_eq!(body, "internal error");
        }
        _ => panic!("expected a transport error"),
    }
    assert_eq!(rec.key, "coredump.2000");
    assert_eq!(rec.payload, vec![1]);
}

//! Runs and their outcomes.
use paperboy::entry::HurlEntry;
use paperboy::hurl_ast::parse;
use paperboy::result::{AssertShape, CallShape, EntryOutcome, ErrorShape, ResultShape};
use paperboy::run::{
    entry_retries, entry_retry_limit, entry_variable_defaults, layer_defaults, map_entry_result,
    map_entry_result_with, reason, times_can_be_counted, RetryLimit,
};
use paperboy::run_output::{finish_run, mark_superseded, run_hurl, run_limit, StreamingRun};
use paperboy::shape::OptionShape;

fn call(status: u32, body: &[u8]) -> CallShape {
    CallShape {
        method: "GET".to_string(),
        url: "http://h/a".to_string(),
        status,
        headers: vec![("Content-Type".to_string(), "application/json".to_string())],
        body: body.to_vec(),
        pre_transfer: 1_600_000,
        start_transfer: 3_200_000,
        total: 4_900_000,
    }
}

fn result(index: usize, failure: Option<&str>) -> ResultShape {
    ResultShape {
        entry_index: index,
        calls: vec![call(200, b"{\"ok\":true}")],
        captures: vec![],
        asserts: vec![
            AssertShape::Other,
            AssertShape::Status { actual: 200, expected: 200, failed: false },
            AssertShape::Explicit { line: 4, failure: failure.map(str::to_string) },
        ],
        errors: failure
            .map(|f| ErrorShape { description: f.to_string(), line: 4 })
            .into_iter()
            .collect(),
        transfer_duration: 4_900_000,
    }
}

fn texts(pairs: &[(&str, &str)]) -> Vec<(String, String)> {
    pairs
        .iter()
        .map(|(k, v)| (k.to_string(), v.to_string()))
        .collect()
}

const POLLED: &str = "GET http://h/a\n[Options]\nretry: 5\nHTTP 200\n[Asserts]\njsonpath \"$.result\" == \"Matched\"\n";

const REPEATED: &str = "GET http://h/a\n[Options]\nrepeat: 3\nHTTP 200\n[Asserts]\njsonpath \"$.result\" == \"Matched\"\n";

#[test]
fn a_poll_that_succeeds_on_the_third_go_is_a_pass() {
    let out = run_hurl(
        POLLED,
        &[
            result(0, Some("Assert failure")),
            result(0, Some("Assert failure")),
            result(0, None),
        ],
    );
    assert_eq!(out.entries.len(), 3, "every attempt is still reported");
    let surviving: Vec<&EntryOutcome> = out.entries.iter().filter(|e| !e.superseded).collect();
    assert_eq!(surviving.len(), 1, "one request, one outcome that counts");
    assert!(surviving[0].ok, "{:?}", surviving[0].error);
    assert!(out.error.is_none(), "{:?}", out.error);
    assert!(out.generated.is_empty());
}

#[test]
fn a_poll_that_never_comes_good_still_fails() {
    let out = run_hurl(POLLED, &[result(0, Some("first")), result(0, Some("last"))]);
    let surviving: Vec<&EntryOutcome> = out.entries.iter().filter(|e| !e.superseded).collect();
    assert_eq!(surviving.len(), 1);
    assert!(!surviving[0].ok);
    assert_eq!(
        out.error.as_deref(),
        Some("last: HTTP 200"),
        "the last attempt is the one that says so"
    );
}

#[test]
fn a_repeated_request_keeps_every_run() {
    let out = run_hurl(
        REPEATED,
        &[result(0, Some("first")), result(0, None), result(0, Some("last"))],
    );
    assert_eq!(out.entries.len(), 3);
    assert!(out.entries.iter().all(|e| !e.superseded), "a repeat's runs are all real");
    assert_eq!(out.error.as_deref(), Some("first: HTTP 200"));
}

#[test]
fn streaming_marks_the_superseded_attempts_too() {
    let mut run = StreamingRun::start(POLLED).unwrap();
    assert_eq!(run.current(), Some(0));
    let reported = run.record(&[
        result(0, Some("Assert failure")),
        result(0, Some("Assert failure")),
        result(0, None),
    ]);
    let seen: Vec<(usize, bool, bool)> = reported
        .iter()
        .map(|e| (e.entry_index, e.ok, e.superseded))
        .collect();
    assert_eq!(
        seen,
        vec![(0, false, true), (0, false, true), (0, true, false)],
        "the caller is told which attempts to ignore, as they happen"
    );
    assert_eq!(run.current(), None);
    let out = run.finish();
    assert!(out.error.is_none(), "{:?}", out.error);
}

#[test]
fn every_outcome_of_a_repeated_request_names_that_request() {
    let content = "GET http://h/first\n[Options]\nrepeat: 2\nHTTP 200\n\nGET http://h/second\nHTTP 200\n";
    let out = run_hurl(content, &[result(0, None), result(0, None), result(1, None)]);
    assert_eq!(
        out.entries.iter().map(|e| e.entry_index).collect::<Vec<_>>(),
        vec![0, 0, 1],
        "both repeats belong to request 0"
    );
}

#[test]
fn streaming_and_running_at_once_come_to_the_same() {
    let content = "GET http://h/first\n[Options]\nretry: 2\nHTTP 200\n\nGET http://h/second\nHTTP 200\n";
    let reports = || {
        vec![
            vec![result(0, Some("a")), result(0, None)],
            vec![result(1, Some("b"))],
        ]
    };
    let all: Vec<ResultShape> = reports().into_iter().flatten().collect();
    let at_once = run_hurl(content, &all);
    let mut run = StreamingRun::start(content).unwrap();
    for window in reports() {
        run.record(&window);
    }
    let streamed = run.finish();
    assert_eq!(at_once.error, streamed.error);
    assert_eq!(at_once.error.as_deref(), Some("b: HTTP 200"));
    assert_eq!(format!("{:?}", at_once.entries), format!("{:?}", streamed.entries));
}

#[test]
fn a_request_that_is_passed_over_fails_the_run() {
    let content = "GET http://h/{{id}}\nHTTP 200\n\nGET http://h/second\nHTTP 200\n";
    let mut run = StreamingRun::start(content).unwrap();
    let skipped = run.skip("no key");
    assert_eq!(skipped.method, "GET");
    assert_eq!(skipped.url, "http://h/{{id}}");
    assert!(!skipped.ok);
    assert_eq!(skipped.error.as_deref(), Some("no key"));
    assert_eq!(run.current(), Some(1));
    run.record(&[result(1, None)]);
    let out = run.finish();
    assert_eq!(out.error.as_deref(), Some("no key"));
    assert_eq!(out.entries.len(), 2);
}

#[test]
fn a_text_that_is_no_hurl_text_is_not_run() {
    let out = run_hurl("NOT HURL AT ALL\n[", &[]);
    assert!(out.entries.is_empty());
    let error = out.error.unwrap();
    assert!(error.starts_with("Parse error (line "), "{error}");
    assert!(StreamingRun::start("NOT HURL AT ALL\n[").is_err());
}

#[test]
fn an_entry_reads_its_own_defaults_unless_they_are_bound() {
    let content = "GET http://h/a\n[Options]\nvariable: KEY=s3cret\nvariable: ID=7\nvariable: ID=8\nHTTP 200\n";
    let run = StreamingRun::start(content).unwrap();
    assert_eq!(
        run.known(&texts(&[("ID", "1"), ("X", "y")])),
        texts(&[("ID", "1"), ("X", "y"), ("KEY", "s3cret")])
    );
    assert_eq!(run.known(&[]), texts(&[("KEY", "s3cret"), ("ID", "7")]));
}

#[test]
fn defaults_are_layered_below_what_is_bound() {
    let options = [
        OptionShape::Other,
        OptionShape::Variable("A".to_string(), "1".to_string()),
        OptionShape::Variable("B".to_string(), "2".to_string()),
    ];
    let defaults = entry_variable_defaults(&options);
    assert_eq!(defaults, texts(&[("A", "1"), ("B", "2")]));
    assert_eq!(
        layer_defaults(&texts(&[("B", "9")]), &defaults),
        texts(&[("B", "9"), ("A", "1")])
    );
}

#[test]
fn a_placeholder_limit_is_resolved_from_the_variables() {
    let content = "GET http://h/a\nHTTP 200\n[Captures]\nmax_attempts: jsonpath \"$.attempts\"\n\nGET http://h/b\n[Options]\nretry: {{max_attempts}}\nHTTP 200\n";
    let mut run = StreamingRun::start(content).unwrap();
    assert_eq!(run.retry_limit(&[]), RetryLimit::Unknown);
    run.record(&[result(0, None)]);
    assert_eq!(run.retry_limit(&texts(&[("max_attempts", "4")])), RetryLimit::Times(4));
}

#[test]
fn a_placeholder_limit_that_resolves_to_nothing_has_no_total() {
    let options = [OptionShape::RetryNamed("n".to_string())];
    assert_eq!(entry_retry_limit(&options, &[]), RetryLimit::Unknown);
    assert_eq!(
        entry_retry_limit(&options, &texts(&[("n", "three")])),
        RetryLimit::Unknown
    );
    assert_eq!(entry_retry_limit(&options, &texts(&[("n", " 3 ")])), RetryLimit::Times(3));
    assert_eq!(entry_retry_limit(&options, &texts(&[("n", "-2")])), RetryLimit::Forever);
    assert_eq!(
        entry_retry_limit(&[OptionShape::RetryComputed], &texts(&[("n", "3")])),
        RetryLimit::Unknown
    );
}

#[test]
fn a_forever_retry_is_reported_as_forever_not_as_no_limit() {
    let shapes = parse("GET http://h/a\n[Options]\nretry: -1\nHTTP 200\n").unwrap();
    assert_eq!(run_limit(&shapes, &[]), RetryLimit::Forever);
    assert!(entry_retries(&shapes[0].options));
    let shapes = parse("GET http://h/a\nHTTP 200\n").unwrap();
    assert_eq!(run_limit(&shapes, &[]), RetryLimit::Unknown);
    assert!(!entry_retries(&shapes[0].options));
    let shapes = parse(POLLED).unwrap();
    assert_eq!(run_limit(&shapes, &[]), RetryLimit::Times(5));
    assert_eq!(run_limit(&[], &[]), RetryLimit::Unknown);
}

#[test]
fn a_limit_says_its_total() {
    assert_eq!(RetryLimit::Times(12).total().as_deref(), Some("12"));
    assert_eq!(RetryLimit::Forever.total().as_deref(), Some("∞"));
    assert_eq!(RetryLimit::Unknown.total(), None);
    assert_eq!(RetryLimit::from(-1), RetryLimit::Forever);
    assert_eq!(RetryLimit::from(0), RetryLimit::Times(0));
    assert_eq!(RetryLimit::default(), RetryLimit::Unknown);
}

#[test]
fn timing_breakdown_partitions_the_total() {
    let e = map_entry_result(&result(0, None), &[]);
    assert_eq!((e.setup_ms, e.wait_ms, e.download_ms), (1, 1, 1));
    assert_eq!(e.duration_ms, 4);
    let parts = e.setup_ms + e.wait_ms + e.download_ms;
    assert!(parts <= e.duration_ms && e.duration_ms - parts <= 3);
}

#[test]
fn timers_out_of_order_never_count_backwards() {
    let mut r = result(0, None);
    r.calls[0].pre_transfer = 9_000_000;
    r.calls[0].start_transfer = 2_000_000;
    r.calls[0].total = 11_000_000;
    r.calls.push(call(200, b""));
    assert!(times_can_be_counted(&r));
    let e = map_entry_result(&r, &[]);
    assert_eq!((e.setup_ms, e.wait_ms, e.download_ms), (10, 1, 3));
}

#[test]
fn status_line_appears_as_a_passing_assert() {
    let e = map_entry_result(&result(0, None), &[]);
    assert!(e.ok, "{:?}", e.error);
    assert_eq!(e.asserts[0].expr, "status == 200");
    assert!(e.asserts[0].passed);
    assert_eq!(e.asserts[0].detail, "");
    assert_eq!(e.asserts.len(), 2);
}

#[test]
fn gzip_response_body_is_decompressed() {
    // gzip of `{"ok":true}`, without a time in it.
    let gzip: [u8; 31] = [
        0x1f, 0x8b, 0x08, 0x00, 0x00, 0x00, 0x00, 0x00, 0x02, 0xff, 0xab, 0x56, 0xca, 0xcf, 0x56,
        0xb2, 0x2a, 0x29, 0x2a, 0x4d, 0xad, 0x05, 0x00, 0x90, 0x5f, 0xd4, 0xa7, 0x0b, 0x00, 0x00,
        0x00,
    ];
    let mut r = result(0, None);
    r.calls[0].headers.push(("Content-Encoding".to_string(), "gzip".to_string()));
    r.calls[0].body = gzip.to_vec();
    let e = map_entry_result(&r, &[]);
    assert!(e.ok, "{:?}", e.error);
    assert_eq!(e.raw_body, "{\"ok\":true}");
    assert!(e.body.contains("\"ok\": true"), "{:?}", e.body);
}

#[test]
fn a_body_that_cannot_be_decompressed_is_kept() {
    for encoding in ["gzip", "deflate", "br", "no-such-encoding"] {
        let mut r = result(0, None);
        r.calls[0].headers.push(("content-encoding".to_string(), encoding.to_string()));
        r.calls[0].body = b"plain after all".to_vec();
        assert_eq!(map_entry_result(&r, &[]).raw_body, "plain after all");
    }
    let mut r = result(0, None);
    r.calls[0].headers.push(("Content-Encoding".to_string(), "identity".to_string()));
    r.calls[0].body = b"as it is".to_vec();
    assert_eq!(map_entry_result(&r, &[]).raw_body, "as it is");
}

#[test]
fn a_body_that_is_no_text_is_patched_up() {
    let mut r = result(0, None);
    r.calls[0].body = vec![b'a', 0xff, b'b'];
    let e = map_entry_result(&r, &[]);
    assert_eq!(e.raw_body, "a\u{fffd}b");
    assert_eq!(e.body, "a\u{fffd}b", "what is no JSON is shown as it came");
}

#[test]
fn failed_status_assertion_has_a_clear_message() {
    let mut r = result(0, None);
    r.calls = vec![call(404, b"{\"ok\":true}")];
    r.asserts = vec![AssertShape::Status { actual: 404, expected: 200, failed: true }];
    r.errors = vec![ErrorShape { description: "Assert status code".to_string(), line: 2 }];
    let e = map_entry_result(&r, &["GET http://h/a".to_string(), "HTTP 200".to_string()]);
    assert!(!e.ok);
    assert_eq!(e.status, 404);
    assert_eq!(e.status_text, "Not Found");
    assert_eq!(e.asserts[0].expr, "status == 200");
    assert!(!e.asserts[0].passed);
    assert_eq!(e.asserts[0].detail, "got 404");
    assert_eq!(
        e.error.as_deref(),
        Some("Expected status 200 but got 404 Not Found (GET http://h/a)")
    );
}

#[test]
fn wildcard_status_line_produces_no_status_assert() {
    let mut r = result(0, None);
    r.asserts = vec![AssertShape::Other];
    let e = map_entry_result(&r, &[]);
    assert!(e.asserts.is_empty());
}

#[test]
fn error_status_responses_keep_their_body() {
    for status in [400u16, 401, 404, 422, 500, 502, 503] {
        let mut r = result(0, None);
        r.calls = vec![call(status as u32, b"{\"ok\":true}")];
        r.asserts = vec![AssertShape::Status {
            actual: status as u64,
            expected: 200,
            failed: true,
        }];
        r.errors = vec![ErrorShape { description: "Assert status code".to_string(), line: 2 }];
        let e = map_entry_result(&r, &[]);
        assert_eq!(e.status, status);
        assert!(!e.ok);
        assert!(e.error.as_deref().unwrap_or_default().contains("200"));
        assert_eq!(e.raw_body, "{\"ok\":true}");
    }
}

#[test]
fn an_explicit_assert_shows_its_line() {
    let text = "GET http://h/a\n[Options]\nretry: 5\njsonpath \"$.result\" == \"Matched\"\n";
    let lines: Vec<String> = text.lines().map(str::to_string).collect();
    let e = map_entry_result(&result(0, Some("actual: none")), &lines);
    assert_eq!(e.asserts[1].expr, "jsonpath \"$.result\" == \"Matched\"");
    assert!(!e.asserts[1].passed);
    assert_eq!(e.asserts[1].detail, "actual: none");
    assert_eq!(
        e.error.as_deref(),
        Some("actual: none: jsonpath \"$.result\" == \"Matched\"")
    );
}

#[test]
fn an_attempt_that_never_got_out_has_no_response() {
    let r = ResultShape {
        entry_index: 3,
        calls: vec![],
        captures: texts(&[("id", "7")]),
        asserts: vec![],
        errors: vec![ErrorShape { description: "Could not connect".to_string(), line: 9 }],
        transfer_duration: 0,
    };
    let e = map_entry_result_with(&r, &["x".to_string()], String::new(), String::new());
    assert_eq!(e.entry_index, 3);
    assert_eq!((e.status, e.status_text.as_str()), (0, ""));
    assert_eq!((e.method.as_str(), e.url.as_str()), ("", ""));
    assert_eq!(e.captures, texts(&[("id", "7")]));
    assert_eq!(e.error.as_deref(), Some("Could not connect"));
}

#[test]
fn only_consecutive_attempts_at_a_retried_request_are_superseded() {
    let outcome = |i: usize| EntryOutcome {
        entry_index: i,
        ..Default::default()
    };
    let marked = mark_superseded(
        vec![outcome(0), outcome(0), outcome(1), outcome(1), outcome(0)],
        &[true, true, false, false, true],
    );
    assert_eq!(
        marked.iter().map(|o| o.superseded).collect::<Vec<_>>(),
        [true, false, false, false, false]
    );
}

#[test]
fn a_run_of_parsed_text_needs_no_second_parse() {
    let shapes = parse(POLLED).unwrap();
    let out = finish_run(&shapes, POLLED, &[result(0, Some("x")), result(0, None)]);
    assert!(out.entries[0].superseded);
    assert_eq!(out.error, None);
    // A report on a request that is not in the file is no retry.
    let out = finish_run(&shapes, POLLED, &[result(5, Some("x")), result(5, None)]);
    assert!(!out.entries[0].superseded);
}

#[test]
fn statuses_have_their_usual_words() {
    assert_eq!(reason(200), "OK");
    assert_eq!(reason(422), "Unprocessable Entity");
    assert_eq!(reason(418), "");
}

#[test]
fn a_request_written_out_can_be_run() {
    let e = HurlEntry::from_fields("t", "GET", "http://h/a", vec![], "");
    assert_eq!(StreamingRun::start(&e.to_hurl()).unwrap().current(), Some(0));
}

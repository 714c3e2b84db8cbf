//! Reading and writing Hurl text.
use hurl_core::parser::parse_hurl_file;
use paperboy::entry::{CommentAnchor, EntryComment, FormField, FormFieldKind, HurlEntry, KvRow};
use paperboy::parser::{parse_hurl, parse_hurl_error};
use paperboy::writer::collection_to_hurl;

#[test]
fn parse_error_explains_captures_needing_a_response_line() {
    // `[Captures]` on a request with no `HTTP` line is the classic trip-up:
    // it's a *response* section, so hurl_core rejects it as an unknown
    // request section. The message must name the section and the fix.
    let content =
        "# Get token\nPOST http://h/oauth2\n[Captures]\naccess_token: jsonpath \"$.token\"\n";
    assert!(parse_hurl(content).is_empty(), "this really is unparseable");
    let why = parse_hurl_error(content).expect("a reason is produced");
    assert!(
        why.contains("Captures"),
        "names the offending section: {why}"
    );
    assert!(
        why.contains("HTTP"),
        "points at the missing response line: {why}"
    );
    assert!(why.contains("line 3"), "cites the line: {why}");
}

#[test]
fn parse_error_is_none_for_valid_hurl() {
    let content = "GET http://h/x\nHTTP 200\n[Captures]\ntok: jsonpath \"$.t\"\n";
    assert_eq!(parse_hurl(content).len(), 1);
    assert!(parse_hurl_error(content).is_none());
}

#[test]
fn body_terminates_at_http_so_later_entries_parse() {
    let content = "# First\nPOST http://x/a\nContent-Type: application/json\n{\n  \"k\": \"v\"\n}\nHTTP 200\n\n# Second\nGET http://x/b\nAccept: application/json\nHTTP 200\n";
    let e = parse_hurl(content);
    assert_eq!(e.len(), 2, "the body must not swallow the second entry");
    assert_eq!(e[0].body_src.as_deref(), Some("{\n  \"k\": \"v\"\n}"));
    assert_eq!(e[1].method, "GET");
    assert!(e[1].body_src.is_none());
}

#[test]
fn blank_line_before_headers_does_not_drop_them() {
    // Hurl allows a blank line between the request line and the header
    // block; hurl_core parses the headers, but PaperBoy's source-scan used
    // to read that first blank line as "no headers". The scan must skip the
    // leading blank line(s) and still recover every header.
    let content = "# Get token\nPOST {{ URL }}/oauth2\n\nContent-Length: 0\nUser-Agent: crabman/0.1.0\nAccept: */*\nclient_id: {{ CLIENT_ID }}\n\nHTTP 200\n[Captures]\naccess_token: jsonpath \"$.token\"\n";
    let e = parse_hurl(content);
    assert_eq!(e.len(), 1);
    assert_eq!(
        e[0].headers,
        vec![
            ("Content-Length".into(), "0".into(), true),
            ("User-Agent".into(), "crabman/0.1.0".into(), true),
            ("Accept".into(), "*/*".into(), true),
            ("client_id".into(), "{{ CLIENT_ID }}".into(), true),
        ],
        "a blank line after the request line must not drop the headers"
    );
}

#[test]
fn blank_line_before_headers_without_body_leaves_headers_intact() {
    // The no-body variant: skipping the leading blank must not run off into
    // the response line and invent rows either.
    let content = "GET http://h/x\n\nAccept: application/json\nHTTP 200\n";
    let e = parse_hurl(content);
    assert_eq!(e.len(), 1);
    assert_eq!(
        e[0].headers,
        vec![("Accept".into(), "application/json".into(), true)]
    );
    assert!(e[0].body_src.is_none());
}

#[test]
fn blank_line_before_json_body_with_no_headers_stays_empty() {
    // No headers, a blank line, then a JSON body: skipping the leading blank
    // must not misread the body's first line as a header row.
    let content = "POST http://h/x\n\n{\n  \"k\": \"v\"\n}\nHTTP 200\n";
    let e = parse_hurl(content);
    assert_eq!(e.len(), 1);
    assert!(e[0].headers.is_empty(), "the JSON body is not a header");
    assert_eq!(e[0].body_src.as_deref(), Some("{\n  \"k\": \"v\"\n}"));
}

#[test]
fn blank_line_after_section_header_keeps_rows() {
    // The same blank-line tolerance must apply to the `[Cookies]` and
    // `[QueryStringParams]` sections, which share the source-scan helper.
    let content = "GET http://h/x\n[QueryStringParams]\n\npage: 1\nsize: 20\n[Cookies]\n\ntheme: dark\nHTTP 200\n";
    let e = parse_hurl(content);
    assert_eq!(e.len(), 1);
    assert_eq!(
        e[0].queries,
        vec![
            ("page".into(), "1".into(), true),
            ("size".into(), "20".into(), true),
        ]
    );
    assert_eq!(e[0].cookies, vec![("theme".into(), "dark".into(), true)]);
}

#[test]
fn blank_and_comment_lines_between_headers_are_tolerated() {
    // hurl_core keeps headers separated by interior blank lines and prose
    // comments; the bounded scan (up to the HTTP line) must match it.
    let content = "GET http://h/x\nAccept: 1\n\n# a prose note\nContent-Type: 2\nHTTP 200\n";
    let e = parse_hurl(content);
    assert_eq!(e.len(), 1);
    assert_eq!(
        e[0].headers,
        vec![
            ("Accept".into(), "1".into(), true),
            ("Content-Type".into(), "2".into(), true),
        ],
        "an interior blank + prose comment must not truncate the header block"
    );
}

#[test]
fn comment_before_first_header_is_skipped() {
    let content = "GET http://h/x\n# leading note\nAccept: 1\nHTTP 200\n";
    let e = parse_hurl(content);
    assert_eq!(e.len(), 1);
    assert_eq!(e[0].headers, vec![("Accept".into(), "1".into(), true)]);
}

#[test]
fn trailing_and_all_disabled_headers_before_http_are_recovered() {
    // Disabled rows kept as `# key: value` comments sit between the enabled
    // headers and the HTTP line. hurl_core excludes them from the request's
    // source span, so the scan must bound the block by the HTTP line, not by
    // that span, or these rows would be silently dropped.
    let trailing = "GET http://h/x\nAccept: 1\n# X-Debug: on\nHTTP 200\n";
    let e = parse_hurl(trailing);
    assert_eq!(
        e[0].headers,
        vec![
            ("Accept".into(), "1".into(), true),
            ("X-Debug".into(), "on".into(), false),
        ]
    );

    let all_disabled = "GET http://h/x\n# A: 1\n# B: 2\nHTTP 200\n";
    let e = parse_hurl(all_disabled);
    assert_eq!(
        e[0].headers,
        vec![
            ("A".into(), "1".into(), false),
            ("B".into(), "2".into(), false),
        ]
    );
}

#[test]
fn a_blank_line_header_scan_never_bleeds_into_the_next_request() {
    // A request with no body/section/response has no structural anchor below
    // its headers, so the scan runs in "open" mode: it must stop at the
    // blank line separating it from the next entry and must NOT absorb that
    // entry's banner as a disabled header of the first one.
    let content = "GET http://h/a\nAccept: 1\n\n# X-Not-Mine: v\nGET http://h/b\nHTTP 200\n";
    let e = parse_hurl(content);
    assert_eq!(e.len(), 2);
    assert_eq!(
        e[0].headers,
        vec![("Accept".into(), "1".into(), true)],
        "the second entry's banner must not leak into the first entry's headers"
    );
}

#[test]
fn open_mode_zero_header_request_does_not_absorb_next_entrys_comment() {
    // An entry with NO headers, body, section or response scans
    // in open mode starting at the blank separator line. It must stop at
    // that blank rather than skipping it and reading the following entry's
    // leading `# key: value`-shaped comment as a disabled header of its own.
    let content =
        "GET http://api/health\n\n# TODO: fix auth below\nPOST http://api/login\nHTTP 200\n";
    let e = parse_hurl(content);
    assert_eq!(e.len(), 2);
    assert!(
        e[0].headers.is_empty(),
        "a zero-header request must not absorb the next entry's comment: {:?}",
        e[0].headers
    );
}

#[test]
fn all_disabled_and_trailing_section_rows_before_http_are_recovered() {
    // The same anchor-bounded recovery must hold for `[QueryStringParams]`
    // and `[Cookies]`: rows (including all-disabled ones) between the
    // section header and the HTTP line survive.
    let content = "GET http://h/x\n[QueryStringParams]\n# a: 1\n# b: 2\n[Cookies]\ntheme: dark\n# hidden: y\nHTTP 200\n";
    let e = parse_hurl(content);
    assert_eq!(e.len(), 1);
    assert_eq!(
        e[0].queries,
        vec![
            ("a".into(), "1".into(), false),
            ("b".into(), "2".into(), false),
        ]
    );
    assert_eq!(
        e[0].cookies,
        vec![
            ("theme".into(), "dark".into(), true),
            ("hidden".into(), "y".into(), false),
        ]
    );
}

#[test]
fn blank_line_after_form_header_keeps_disabled_rows() {
    // A `[Form]` with an enabled row (from the AST) and a disabled row
    // recovered by scanning, separated from the header by a blank line.
    let content = "POST http://h/x\n[Form]\n\nname: alice\n# nickname: al\nHTTP 200\n";
    let e = parse_hurl(content);
    assert_eq!(e.len(), 1);
    let fields: Vec<(String, bool)> = e[0]
        .form_fields
        .iter()
        .map(|f| (f.key.clone(), f.enabled))
        .collect();
    assert_eq!(
        fields,
        vec![("name".into(), true), ("nickname".into(), false)]
    );
}

#[test]
fn hurl_round_trips_through_serialize_and_parse() {
    let original = vec![
        HurlEntry::from_fields(
            "Create post",
            "POST",
            "{{ BASE_URL }}/posts",
            vec![KvRow::toggled("Content-Type", "application/json", true)],
            "{\n  \"title\": \"hi\"\n}",
        ),
        HurlEntry::from_fields(
            "Health",
            "GET",
            "{{ BASE_URL }}/health",
            vec![KvRow::toggled("Accept", "application/json", true)],
            "",
        ),
    ];

    let text = collection_to_hurl(&original);
    let reparsed = parse_hurl(&text);

    assert_eq!(reparsed.len(), original.len());
    for (a, b) in original.iter().zip(&reparsed) {
        assert_eq!(a.title, b.title);
        assert_eq!(a.method, b.method);
        assert_eq!(a.url, b.url);
        assert_eq!(a.headers, b.headers);
        assert_eq!(a.body_src, b.body_src);
    }
}

#[test]
fn sections_and_captures_round_trip() {
    let src = "# Auth\nGET {{ BASE_URL }}/users/1\n[BasicAuth]\n{{ USER }}: {{ PASS }}\nHTTP 200\n[Captures]\ntoken: jsonpath \"$.token\"\n";
    let parsed = parse_hurl(src);
    assert_eq!(parsed.len(), 1);
    let reparsed = parse_hurl(&collection_to_hurl(&parsed));
    assert_eq!(reparsed.len(), 1);
    assert_eq!(reparsed[0].basic_auth, parsed[0].basic_auth);
    assert_eq!(reparsed[0].expected_status, parsed[0].expected_status);
    assert_eq!(reparsed[0].captures, parsed[0].captures);
}

#[test]
fn asserts_and_captures_without_explicit_status_still_round_trip() {
    // An entry built by hand (e.g. from the request wizard) with asserts or
    // captures but no expected_status must still emit a response section
    // (`HTTP *`, the Hurl wildcard) so those sections survive a save/reload
    // instead of being silently dropped.
    let mut entry =
        HurlEntry::from_fields("Health", "GET", "{{ BASE_URL }}/health", vec![], "");
    entry.asserts = vec!["jsonpath \"$.status\" == \"ok\"".to_string()];
    entry.captures = vec![("id".to_string(), "jsonpath \"$.id\"".to_string())];
    assert!(entry.expected_status.is_none());

    let text = entry.to_hurl();
    assert!(
        text.contains("HTTP *"),
        "wildcard status line expected:\n{text}"
    );
    let reparsed = parse_hurl(&text);
    assert_eq!(reparsed.len(), 1);
    assert_eq!(reparsed[0].asserts, entry.asserts);
    assert_eq!(reparsed[0].captures, entry.captures);
    assert!(reparsed[0].expected_status.is_none());
}

#[test]
fn asserts_are_parsed_and_round_trip() {
    let src = "# Health\nGET {{ BASE_URL }}/health\nHTTP 200\n[Asserts]\njsonpath \"$.status\" == \"ok\"\njsonpath \"$.count\" >= 1\n[Captures]\nid: jsonpath \"$.id\"\n";
    let parsed = parse_hurl(src);
    assert_eq!(parsed.len(), 1);
    assert_eq!(
        parsed[0].asserts,
        vec![
            "jsonpath \"$.status\" == \"ok\"".to_string(),
            "jsonpath \"$.count\" >= 1".to_string(),
        ],
    );
    let reparsed = parse_hurl(&collection_to_hurl(&parsed));
    assert_eq!(reparsed[0].asserts, parsed[0].asserts);
    assert_eq!(reparsed[0].captures, parsed[0].captures);
}

#[test]
fn cookies_round_trip() {
    let mut entry = HurlEntry::from_fields("Login", "GET", "{{ BASE_URL }}/me", vec![], "");
    entry.cookies = vec![
        KvRow::toggled("session", "abc123", true),
        KvRow::toggled("theme", "dark", true),
    ];

    let text = entry.to_hurl();
    assert!(
        text.contains("[Cookies]"),
        "expected a Cookies section:\n{text}"
    );
    let reparsed = parse_hurl(&text);
    assert_eq!(reparsed.len(), 1);
    assert_eq!(reparsed[0].cookies, entry.cookies);
}

#[test]
fn reports_block_round_trips_through_serialize_and_parse() {
    let mut entry = HurlEntry::from_fields("Process", "POST", "{{ URL }}/process", vec![], "");
    entry.reports = vec![
        ("status".to_string(), "jsonpath \"$.status\"".to_string()),
        (
            "overall".to_string(),
            "jsonpath \"$.overall_result\"".to_string(),
        ),
    ];

    let text = entry.to_hurl();
    assert!(
        text.contains("# [Reports]"),
        "expected a commented Reports marker:\n{text}"
    );
    // The block must survive re-parsing.
    let reparsed = parse_hurl(&text);
    assert_eq!(reparsed.len(), 1);
    assert_eq!(reparsed[0].reports, entry.reports);
}

#[test]
fn reports_block_is_ignored_by_hurl_core_so_the_file_still_parses() {
    // The whole point of comment-encoding: `hurl_core` must still parse a
    // request that carries a `# [Reports]` block (a literal `[Reports]`
    // response section would be a non-recoverable parse error).
    let mut entry = HurlEntry::from_fields("Process", "POST", "http://h/process", vec![], "");
    entry.captures = vec![("token".to_string(), "jsonpath \"$.token\"".to_string())];
    entry.reports = vec![("status".to_string(), "jsonpath \"$.status\"".to_string())];
    let text = entry.to_hurl();
    assert!(
        parse_hurl_file(&text).is_ok(),
        "hurl_core should still parse a file with a # [Reports] block:\n{text}"
    );
    // And the real [Captures] section alongside it is unaffected.
    let reparsed = parse_hurl(&text);
    assert_eq!(reparsed[0].captures, entry.captures);
    assert_eq!(reparsed[0].reports, entry.reports);
}

#[test]
fn reports_block_scan_does_not_bleed_across_entries() {
    // Two entries; only the first has a Reports block. The scan window must
    // stop at the next entry so the block isn't attributed to the wrong one.
    let mut a = HurlEntry::from_fields("First", "GET", "http://h/a", vec![], "");
    a.reports = vec![("s".to_string(), "jsonpath \"$.s\"".to_string())];
    let b = HurlEntry::from_fields("Second", "GET", "http://h/b", vec![], "");
    let doc = collection_to_hurl(&[a.clone(), b.clone()]);
    let parsed = parse_hurl(&doc);
    assert_eq!(parsed.len(), 2);
    assert_eq!(parsed[0].reports, a.reports);
    assert!(
        parsed[1].reports.is_empty(),
        "second entry must not inherit the first's Reports block"
    );
}

#[test]
fn text_only_form_fields_round_trip_as_form_section() {
    let mut entry = HurlEntry::from_fields("Login", "POST", "{{ BASE_URL }}/login", vec![], "");
    entry.form_fields = vec![
        FormField {
            key: "user".to_string(),
            value: "bob".to_string(),
            kind: FormFieldKind::Text,
            content_type: None,
            base64_prefix: None,
            enabled: true,
            desc: String::new(),
        },
        FormField {
            key: "pass".to_string(),
            value: "secret".to_string(),
            kind: FormFieldKind::Text,
            content_type: None,
            base64_prefix: None,
            enabled: true,
            desc: String::new(),
        },
    ];

    let text = entry.to_hurl();
    assert!(
        text.contains("[Form]"),
        "all-Text fields should serialize as [Form]:\n{text}"
    );
    assert!(!text.contains("[Multipart]"));
    let reparsed = parse_hurl(&text);
    assert_eq!(reparsed.len(), 1);
    assert_eq!(reparsed[0].form_fields, entry.form_fields);
}

#[test]
fn file_form_fields_round_trip_as_multipart_section() {
    // A single File field switches the whole section to [Multipart], even
    // when mixed with plain Text fields; content-type is optional.
    let mut entry =
        HurlEntry::from_fields("Upload", "POST", "{{ BASE_URL }}/upload", vec![], "");
    entry.form_fields = vec![
        FormField {
            key: "field1".to_string(),
            value: "value1".to_string(),
            kind: FormFieldKind::Text,
            content_type: None,
            base64_prefix: None,
            enabled: true,
            desc: String::new(),
        },
        FormField {
            key: "field2".to_string(),
            value: "example.txt".to_string(),
            kind: FormFieldKind::File,
            content_type: None,
            base64_prefix: None,
            enabled: true,
            desc: String::new(),
        },
        FormField {
            key: "field3".to_string(),
            value: "example.zip".to_string(),
            kind: FormFieldKind::File,
            content_type: Some("application/zip".to_string()),
            base64_prefix: None,
            enabled: true,
            desc: String::new(),
        },
    ];

    let text = entry.to_hurl();
    assert!(
        text.contains("[Multipart]"),
        "a File field should switch to [Multipart]:\n{text}"
    );
    assert!(!text.contains("[Form]\n"));
    let reparsed = parse_hurl(&text);
    assert_eq!(reparsed.len(), 1);
    assert_eq!(reparsed[0].form_fields, entry.form_fields);
}

#[test]
fn file_form_field_path_with_spaces_round_trips_as_a_real_path() {
    let mut entry =
        HurlEntry::from_fields("Upload", "POST", "{{ BASE_URL }}/upload", vec![], "");
    entry.form_fields = vec![FormField {
        key: "doc".to_string(),
        // A real filesystem path containing spaces (as the file picker
        // would store it) — no backslash escaping in the model.
        value: "/tmp/my report final.pdf".to_string(),
        kind: FormFieldKind::File,
        content_type: None,
        base64_prefix: None,
        enabled: true,
        desc: String::new(),
    }];

    let text = entry.to_hurl();
    assert!(
        text.contains(r"file,/tmp/my\ report\ final.pdf;"),
        "the emitted Hurl escapes spaces in the path:\n{text}"
    );
    let reparsed = parse_hurl(&text);
    assert_eq!(
        reparsed[0].form_fields, entry.form_fields,
        "and it parses back to the same unescaped real path"
    );
}

#[test]
fn loading_a_multipart_file_with_escaped_spaces_yields_a_real_path() {
    let src = "POST http://x/upload\n[Multipart]\ndoc: file,my\\ report.pdf;\n";
    let parsed = parse_hurl(src);
    assert_eq!(parsed[0].form_fields.len(), 1);
    assert_eq!(
        parsed[0].form_fields[0].value, "my report.pdf",
        "the stored path is the decoded real path, not the escaped source"
    );
}

#[test]
fn base64_file_field_round_trips_with_its_prefix() {
    // A Base64File keeps its file path + prefix across a save/reload cycle
    // via the PaperBoy content-type marker (Hurl has no native concept of
    // it). It serializes as a [Multipart] file line and comes back as a
    // Base64File, not a plain File.
    let mut entry =
        HurlEntry::from_fields("Upload", "POST", "{{ BASE_URL }}/upload", vec![], "");
    entry.form_fields = vec![FormField {
        key: "avatar".to_string(),
        value: "/tmp/pic.png".to_string(),
        kind: FormFieldKind::Base64File,
        content_type: None,
        base64_prefix: Some("data:image/png;base64,".to_string()),
        enabled: true,
        desc: String::new(),
    }];

    let text = entry.to_hurl();
    assert!(
        text.contains("[Multipart]"),
        "a Base64File field serializes under [Multipart]:\n{text}"
    );
    assert!(
        text.contains("x-paperboy-base64;"),
        "the emitted Hurl carries the PaperBoy marker:\n{text}"
    );
    let reparsed = parse_hurl(&text);
    assert_eq!(reparsed.len(), 1);
    assert_eq!(
        reparsed[0].form_fields, entry.form_fields,
        "the Base64File kind and its prefix survive the round trip"
    );
}

#[test]
fn base64_file_field_with_empty_prefix_round_trips() {
    let mut entry =
        HurlEntry::from_fields("Upload", "POST", "{{ BASE_URL }}/upload", vec![], "");
    entry.form_fields = vec![FormField {
        key: "blob".to_string(),
        value: "/tmp/data.bin".to_string(),
        kind: FormFieldKind::Base64File,
        content_type: None,
        base64_prefix: Some(String::new()),
        enabled: true,
        desc: String::new(),
    }];

    let reparsed = parse_hurl(&entry.to_hurl());
    assert_eq!(reparsed[0].form_fields, entry.form_fields);
}

#[test]
fn disabled_header_round_trips_as_a_comment() {
    let mut entry = HurlEntry::from_fields("Get", "GET", "http://x/y", vec![], "");
    entry.headers = vec![
        KvRow::toggled("Accept", "application/json", true),
        KvRow::toggled("X-Off", "no", false),
    ];

    let text = entry.to_hurl();
    assert!(
        text.contains("\n# X-Off: no\n"),
        "the disabled header is written as a comment:\n{text}"
    );
    let reparsed = parse_hurl(&text);
    assert_eq!(reparsed.len(), 1);
    assert_eq!(reparsed[0].headers, entry.headers);
}

#[test]
fn disabled_cookie_and_query_rows_round_trip() {
    let mut entry = HurlEntry::from_fields("Get", "GET", "http://x/y", vec![], "");
    entry.cookies = vec![
        KvRow::toggled("session", "abc", true),
        KvRow::toggled("stale", "1", false),
    ];
    entry.queries = vec![
        KvRow::toggled("page", "2", false),
        KvRow::toggled("q", "hi", true),
    ];

    let text = entry.to_hurl();
    assert!(
        text.contains("# stale: 1"),
        "disabled cookie commented:\n{text}"
    );
    assert!(
        text.contains("# page: 2"),
        "disabled query commented:\n{text}"
    );
    let reparsed = parse_hurl(&text);
    assert_eq!(reparsed[0].cookies, entry.cookies);
    assert_eq!(reparsed[0].queries, entry.queries);
}

#[test]
fn a_hand_written_commented_request_line_parses_as_disabled() {
    // A user commenting out a header/query row by hand (not via the app)
    // should be understood as a disabled entry, while a prose comment is
    // left alone.
    let src = "GET http://x/y\nAccept: text/plain\n# X-Debug: 1\n# just a note\n[Query]\npage: 2\n# limit: 10\n";
    let parsed = parse_hurl(src);
    assert_eq!(
        parsed[0].headers,
        vec![
            ("Accept".to_string(), "text/plain".to_string(), true),
            ("X-Debug".to_string(), "1".to_string(), false),
        ],
        "the commented header line is a disabled entry; the prose note is ignored"
    );
    assert_eq!(
        parsed[0].queries,
        vec![
            ("page".to_string(), "2".to_string(), true),
            ("limit".to_string(), "10".to_string(), false),
        ]
    );
}

#[test]
fn disabled_rows_keep_their_position_relative_to_enabled_ones() {
    let mut entry = HurlEntry::from_fields("Get", "GET", "http://x/y", vec![], "");
    entry.headers = vec![
        KvRow::toggled("A", "1", false),
        KvRow::toggled("B", "2", true),
        KvRow::toggled("C", "3", false),
    ];
    let reparsed = parse_hurl(&entry.to_hurl());
    assert_eq!(reparsed[0].headers, entry.headers, "order is preserved");
}

#[test]
fn disabled_text_form_field_round_trips_as_a_comment() {
    let mut entry = HurlEntry::from_fields("Post", "POST", "http://x/y", vec![], "");
    entry.form_fields = vec![
        FormField {
            key: "on".to_string(),
            value: "yes".to_string(),
            kind: FormFieldKind::Text,
            content_type: None,
            base64_prefix: None,
            enabled: true,
            desc: String::new(),
        },
        FormField {
            key: "off".to_string(),
            value: "no".to_string(),
            kind: FormFieldKind::Text,
            content_type: None,
            base64_prefix: None,
            enabled: false,
            desc: String::new(),
        },
    ];

    let text = entry.to_hurl();
    assert!(text.contains("[Form]"), "text-only stays [Form]:\n{text}");
    assert!(
        text.contains("# off: no"),
        "disabled field commented:\n{text}"
    );
    let reparsed = parse_hurl(&text);
    assert_eq!(reparsed[0].form_fields, entry.form_fields);
}

#[test]
fn a_disabled_file_field_does_not_flip_a_form_section_to_multipart() {
    // The section type is chosen from the *enabled* fields only: a disabled
    // File row is a comment and never runs, so an otherwise text-only
    // request must stay `[Form]` (and the disabled row still round-trips).
    let mut entry = HurlEntry::from_fields("Post", "POST", "http://x/y", vec![], "");
    entry.form_fields = vec![
        FormField {
            key: "name".to_string(),
            value: "bob".to_string(),
            kind: FormFieldKind::Text,
            content_type: None,
            base64_prefix: None,
            enabled: true,
            desc: String::new(),
        },
        FormField {
            key: "doc".to_string(),
            value: "/tmp/a b.pdf".to_string(),
            kind: FormFieldKind::File,
            content_type: Some("application/pdf".to_string()),
            base64_prefix: None,
            enabled: false,
            desc: String::new(),
        },
    ];

    let text = entry.to_hurl();
    assert!(text.contains("[Form]"), "stays [Form]:\n{text}");
    assert!(!text.contains("[Multipart]"));
    let reparsed = parse_hurl(&text);
    assert_eq!(reparsed[0].form_fields, entry.form_fields);
}

#[test]
fn a_disabled_multipart_file_field_round_trips() {
    let mut entry = HurlEntry::from_fields("Post", "POST", "http://x/y", vec![], "");
    entry.form_fields = vec![
        FormField {
            key: "upload".to_string(),
            value: "/tmp/on.bin".to_string(),
            kind: FormFieldKind::File,
            content_type: None,
            base64_prefix: None,
            enabled: true,
            desc: String::new(),
        },
        FormField {
            key: "avatar".to_string(),
            value: "/tmp/off.png".to_string(),
            kind: FormFieldKind::Base64File,
            content_type: None,
            base64_prefix: Some("data:image/png;base64,".to_string()),
            enabled: false,
            desc: String::new(),
        },
    ];

    let text = entry.to_hurl();
    assert!(
        text.contains("[Multipart]"),
        "an enabled File stays [Multipart]:\n{text}"
    );
    let reparsed = parse_hurl(&text);
    assert_eq!(reparsed[0].form_fields, entry.form_fields);
}

// A parse → serialize → parse cycle that must reproduce the same comments.
fn assert_comments_round_trip(src: &str) -> Vec<HurlEntry> {
    let first = parse_hurl(src);
    let text = collection_to_hurl(&first);
    let second = parse_hurl(&text);
    let c1: Vec<_> = first.iter().map(|e| e.comments.clone()).collect();
    let c2: Vec<_> = second.iter().map(|e| e.comments.clone()).collect();
    assert_eq!(
        c1, c2,
        "comments must be stable across a round trip\n--- serialized ---\n{text}"
    );
    second
}

#[test]
fn a_comment_before_asserts_round_trips_before_asserts() {
    let src = "GET http://h/a\nHTTP 200\n# validate the token\n[Asserts]\njsonpath \"$.token\" exists\n";
    let e = parse_hurl(src);
    assert_eq!(
        e[0].comments,
        vec![EntryComment {
            anchor: CommentAnchor::Asserts,
            text: "# validate the token".into(),
        }]
    );
    let text = e[0].to_hurl();
    assert!(
        text.contains("# validate the token\n[Asserts]"),
        "the comment must stay directly before [Asserts]:\n{text}"
    );
    assert_comments_round_trip(src);
}

#[test]
fn a_prose_comment_in_the_header_region_is_kept_and_anchored_to_headers() {
    let src = "POST http://h/a\n# auth headers below\nAuthorization: Bearer x\nHTTP 200\n";
    let e = parse_hurl(src);
    assert_eq!(
        e[0].comments,
        vec![EntryComment {
            anchor: CommentAnchor::Headers,
            text: "# auth headers below".into(),
        }]
    );
    // The enabled header still loads (the comment isn't mistaken for one).
    assert_eq!(
        e[0].headers,
        vec![("Authorization".into(), "Bearer x".into(), true)]
    );
    assert_comments_round_trip(src);
}

#[test]
fn a_prose_comment_and_a_disabled_row_coexist_without_duplication() {
    // `# X-Debug: 1` is a disabled header (kv-shaped); `# just a note` is
    // prose. Neither should swallow or duplicate the other.
    let src = "GET http://h/a\n# X-Debug: 1\n# just a note\nAccept: 1\nHTTP 200\n";
    let e = parse_hurl(src);
    assert_eq!(
        e[0].headers,
        vec![
            ("X-Debug".into(), "1".into(), false),
            ("Accept".into(), "1".into(), true),
        ]
    );
    assert_eq!(
        e[0].comments,
        vec![EntryComment {
            anchor: CommentAnchor::Headers,
            text: "# just a note".into(),
        }]
    );
    let entries = assert_comments_round_trip(src);
    // The disabled row survives exactly once (not also captured as prose).
    let text = collection_to_hurl(&entries);
    assert_eq!(text.matches("# X-Debug: 1").count(), 1, "{text}");
    assert_eq!(text.matches("# just a note").count(), 1, "{text}");
}

#[test]
fn a_reports_block_is_not_re_captured_as_prose() {
    let src = "GET http://h/a\nHTTP 200\n# [Reports]\n# total: jsonpath \"$.total\"\n";
    let e = parse_hurl(src);
    assert_eq!(
        e[0].reports,
        vec![("total".into(), "jsonpath \"$.total\"".into())]
    );
    assert!(
        e[0].comments.is_empty(),
        "the reports block must not leak into prose comments: {:?}",
        e[0].comments
    );
    // And it isn't duplicated on re-emit.
    let text = e[0].to_hurl();
    assert_eq!(text.matches("# [Reports]").count(), 1, "{text}");
    assert_eq!(text.matches("# total:").count(), 1, "{text}");
}

#[test]
fn a_banner_and_extra_leading_prose_round_trip() {
    // The contiguous block above the method line is the title; a separate
    // banner higher up (above the first entry) is kept as a Lead comment.
    let src = "#####\n# File header\n#####\n\n# Get token\nGET http://h/a\nHTTP 200\n";
    let e = parse_hurl(src);
    assert_eq!(e[0].title, "Get token");
    assert_eq!(
        e[0].comments,
        vec![
            EntryComment {
                anchor: CommentAnchor::Lead,
                text: "#####".into()
            },
            EntryComment {
                anchor: CommentAnchor::Lead,
                text: "# File header".into()
            },
            EntryComment {
                anchor: CommentAnchor::Lead,
                text: "#####".into()
            },
        ]
    );
    assert_comments_round_trip(src);
}

#[test]
fn a_trailing_comment_round_trips_at_the_end() {
    let src = "GET http://h/a\nHTTP 200\n[Asserts]\njsonpath \"$.x\" == 1\n# checked above\n";
    let e = parse_hurl(src);
    assert_eq!(
        e[0].comments,
        vec![EntryComment {
            anchor: CommentAnchor::Trailing,
            text: "# checked above".into(),
        }]
    );
    assert_comments_round_trip(src);
}

#[test]
fn a_comment_between_two_entries_is_kept_and_does_not_cross_over() {
    let src = "GET http://h/a\nHTTP 200\n# note about the first request\n\n# Second\nPOST http://h/b\nHTTP 201\n";
    let e = parse_hurl(src);
    assert_eq!(e.len(), 2);
    // The note stays with entry 0 (as a trailing comment); entry 1 keeps its
    // title and gains no stray comments.
    assert_eq!(
        e[0].comments,
        vec![EntryComment {
            anchor: CommentAnchor::Trailing,
            text: "# note about the first request".into(),
        }]
    );
    assert_eq!(e[1].title, "Second");
    assert!(e[1].comments.is_empty(), "{:?}", e[1].comments);
    assert_comments_round_trip(src);
}

#[test]
fn a_hash_line_inside_a_multiline_body_is_not_captured_as_a_comment() {
    let src = "POST http://h/a\n```\n# not a comment, this is body text\n```\nHTTP 200\n";
    let e = parse_hurl(src);
    assert!(
        e[0].comments.is_empty(),
        "multiline body content must not be captured as prose: {:?}",
        e[0].comments
    );
    assert!(
        e[0].body_src
            .as_deref()
            .unwrap_or_default()
            .contains("# not a comment"),
        "the body must still contain the # line: {:?}",
        e[0].body_src
    );
}

#[test]
fn a_comment_only_entry_keeps_its_comment_without_bleeding_into_the_next() {
    // A comment glued directly above the next method line (blank above it) is
    // that entry's *title* by PaperBoy's convention, so it stays with
    // entry 1 and must never be absorbed into entry 0's headers or prose.
    let src = "GET http://h/a\n\n# a floating note\nPOST http://h/b\nHTTP 200\n";
    let e = parse_hurl(src);
    assert_eq!(e.len(), 2);
    assert!(e[0].headers.is_empty());
    assert!(e[0].comments.is_empty(), "{:?}", e[0].comments);
    assert_eq!(e[1].title, "a floating note");
    assert!(e[1].comments.is_empty(), "{:?}", e[1].comments);
    assert_comments_round_trip(src);
}

#[test]
fn comments_survive_a_full_document_round_trip_unchanged() {
    // A dense mix: Lead banner, title, header-region prose, an inter-header
    // disabled row, a section comment, a response comment and a trailing
    // comment — all in one entry — must be byte-identical after two trips.
    let src = "# top of file\n\n# Login\nPOST http://h/login\n# creds below\nContent-Type: json\n[Cookies]\n# the session cookie\nsid: abc\nHTTP 200\n# then assert\n[Asserts]\njsonpath \"$.ok\" == true\n# done\n";
    let once = collection_to_hurl(&parse_hurl(src));
    let twice = collection_to_hurl(&parse_hurl(&once));
    assert_eq!(once, twice, "round trip must be idempotent:\n{once}");
    assert_comments_round_trip(src);
}

// ---- Request [Options] + response headers/body/version round-trip ----

fn assert_sections_round_trip(src: &str) -> Vec<HurlEntry> {
    let first = parse_hurl(src);
    let text = collection_to_hurl(&first);
    assert!(
        parse_hurl_error(&text).is_none(),
        "serialized text must parse via hurl_core:\n{text}\nerror: {:?}",
        parse_hurl_error(&text)
    );
    let second = parse_hurl(&text);
    assert_eq!(first.len(), second.len());
    for (a, b) in first.iter().zip(&second) {
        assert_eq!(a.options, b.options, "options drift:\n{text}");
        assert_eq!(
            a.response_version, b.response_version,
            "version drift:\n{text}"
        );
        assert_eq!(
            a.response_headers, b.response_headers,
            "resp headers drift:\n{text}"
        );
        assert_eq!(a.response_body, b.response_body, "resp body drift:\n{text}");
    }
    second
}

#[test]
fn request_options_section_round_trips() {
    let src = "POST http://h/a\n[Options]\nretry: 3\ninsecure: true\nvariable: host=example.net\nHTTP 200\n";
    let e = parse_hurl(src);
    assert_eq!(
        e[0].options,
        vec![
            ("retry".into(), "3".into(), true),
            ("insecure".into(), "true".into(), true),
            ("variable".into(), "host=example.net".into(), true),
        ]
    );
    assert_sections_round_trip(src);
}

#[test]
fn a_disabled_option_row_round_trips_as_a_comment() {
    let src = "GET http://h/a\n[Options]\nretry: 3\n# insecure: true\nHTTP 200\n";
    let e = parse_hurl(src);
    assert_eq!(
        e[0].options,
        vec![
            ("retry".into(), "3".into(), true),
            ("insecure".into(), "true".into(), false),
        ]
    );
    // The disabled row is an option, not captured a second time as prose.
    assert!(e[0].comments.is_empty(), "{:?}", e[0].comments);
    assert_sections_round_trip(src);
}

#[test]
fn options_and_a_body_coexist_and_round_trip() {
    // The critical ordering case: `hurl_core` parses a request as
    // headers -> sections -> body and rejects a section after the body, so
    // `to_hurl` must emit `[Options]` before the body. If it didn't, the
    // serialized text wouldn't even parse.
    let src = "POST http://h/a\n[Options]\nretry: 2\n```\n{\"x\":1}\n```\nHTTP 200\n";
    let e = parse_hurl(src);
    assert_eq!(e[0].options, vec![("retry".into(), "2".into(), true)]);
    assert_eq!(e[0].body_src.as_deref(), Some("```\n{\"x\":1}\n```"));
    let text = e[0].to_hurl();
    assert!(
        text.find("[Options]").unwrap() < text.find("```").unwrap(),
        "[Options] must be emitted before the body:\n{text}"
    );
    assert_sections_round_trip(src);
}

#[test]
fn response_headers_round_trip() {
    let src = "GET http://h/a\nHTTP 200\nContent-Type: application/json\nX-Trace: abc\n[Asserts]\njsonpath \"$.ok\" == true\n";
    let e = parse_hurl(src);
    assert_eq!(
        e[0].response_headers,
        vec![
            ("Content-Type".into(), "application/json".into(), true),
            ("X-Trace".into(), "abc".into(), true),
        ]
    );
    assert_eq!(e[0].asserts, vec!["jsonpath \"$.ok\" == true".to_string()]);
    assert_sections_round_trip(src);
}

#[test]
fn a_disabled_response_header_round_trips_as_a_comment() {
    let src = "GET http://h/a\nHTTP 200\nContent-Type: application/json\n# X-Trace: abc\n";
    let e = parse_hurl(src);
    assert_eq!(
        e[0].response_headers,
        vec![
            ("Content-Type".into(), "application/json".into(), true),
            ("X-Trace".into(), "abc".into(), false),
        ]
    );
    assert!(e[0].comments.is_empty(), "{:?}", e[0].comments);
    assert_sections_round_trip(src);
}

#[test]
fn response_body_round_trips_after_sections() {
    let src =
        "GET http://h/a\nHTTP 200\n[Asserts]\njsonpath \"$.a\" == 1\n```\n{\"a\":1}\n```\n";
    let e = parse_hurl(src);
    assert_eq!(e[0].response_body.as_deref(), Some("```\n{\"a\":1}\n```"));
    assert_eq!(e[0].asserts, vec!["jsonpath \"$.a\" == 1".to_string()]);
    let text = e[0].to_hurl();
    assert!(
        text.find("[Asserts]").unwrap() < text.rfind("```").unwrap(),
        "the response body must follow the response sections:\n{text}"
    );
    assert_sections_round_trip(src);
}

#[test]
fn a_file_body_survives_a_save() {
    let src = "POST http://h/a\nContent-Type: application/json\nfile, body.json;\n";
    let e = parse_hurl(src);
    assert_eq!(e[0].body_src.as_deref(), Some("file, body.json;"));
    let text = collection_to_hurl(&e);
    assert!(text.contains("file, body.json;"), "\n{text}");
    assert_eq!(parse_hurl_error(&text), None, "\n{text}");
    // Idempotent: a second save must not rewrite it again.
    assert_eq!(collection_to_hurl(&parse_hurl(&text)), text);
}

#[test]
fn a_base64_body_survives_a_save() {
    let src = "POST http://h/a\nbase64,SGVsbG8=;\n";
    let e = parse_hurl(src);
    assert_eq!(e[0].body_src.as_deref(), Some("base64,SGVsbG8=;"));
    let text = collection_to_hurl(&e);
    assert!(text.contains("base64,SGVsbG8=;"), "\n{text}");
    assert_eq!(parse_hurl_error(&text), None, "\n{text}");
    assert_eq!(collection_to_hurl(&parse_hurl(&text)), text);
}

#[test]
fn a_file_response_body_survives_a_save() {
    let src = "POST http://h/a\n{\"a\":1}\n\nHTTP 200\nfile,expected.json;\n";
    let e = parse_hurl(src);
    assert_eq!(e[0].response_body.as_deref(), Some("file,expected.json;"));
    let text = collection_to_hurl(&e);
    assert!(text.contains("file,expected.json;"), "\n{text}");
    assert_eq!(parse_hurl_error(&text), None, "\n{text}");
    assert_eq!(collection_to_hurl(&parse_hurl(&text)), text);
}

#[test]
fn a_file_body_is_not_lost_when_another_request_is_edited() {
    let src = "POST http://h/a\nfile, body.json;\n\nGET http://h/b\n";
    let mut e = parse_hurl(src);
    e[1].url = "http://h/c".into();
    let text = collection_to_hurl(&e);
    assert!(
        text.contains("file, body.json;"),
        "the untouched request keeps its body:\n{text}"
    );
    assert_eq!(parse_hurl(&text).len(), 2, "\n{text}");
}

#[test]
fn a_hash_line_inside_a_response_body_is_not_captured_as_a_comment() {
    let src = "GET http://h/a\nHTTP 200\n```\n# not a comment\n```\n";
    let e = parse_hurl(src);
    assert!(e[0].comments.is_empty(), "{:?}", e[0].comments);
    assert!(
        e[0].response_body
            .as_deref()
            .unwrap_or_default()
            .contains("# not a comment")
    );
    assert_sections_round_trip(src);
}

#[test]
fn response_http_version_round_trips() {
    let src = "GET http://h/a\nHTTP/1.1 200\n";
    let e = parse_hurl(src);
    assert_eq!(e[0].response_version.as_deref(), Some("HTTP/1.1"));
    assert_eq!(e[0].expected_status, Some(200));
    let text = e[0].to_hurl();
    assert!(
        text.contains("HTTP/1.1 200"),
        "version must round-trip:\n{text}"
    );
    assert_sections_round_trip(src);
}

#[test]
fn version_agnostic_http_keyword_stays_versionless() {
    let src = "GET http://h/a\nHTTP 200\n";
    let e = parse_hurl(src);
    assert_eq!(e[0].response_version, None);
    assert!(e[0].to_hurl().contains("HTTP 200"));
    assert_sections_round_trip(src);
}

#[test]
fn a_version_with_no_explicit_status_uses_the_wildcard() {
    let src = "GET http://h/a\nHTTP/2 *\n[Asserts]\njsonpath \"$.x\" == 1\n";
    let e = parse_hurl(src);
    assert_eq!(e[0].response_version.as_deref(), Some("HTTP/2"));
    assert_eq!(e[0].expected_status, None);
    assert!(e[0].to_hurl().contains("HTTP/2 *"));
    assert_sections_round_trip(src);
}

#[test]
fn a_comment_before_options_anchors_to_options() {
    let src = "GET http://h/a\n# tuning\n[Options]\nretry: 3\nHTTP 200\n";
    let e = parse_hurl(src);
    assert_eq!(
        e[0].comments,
        vec![EntryComment {
            anchor: CommentAnchor::Options,
            text: "# tuning".into(),
        }]
    );
    assert!(e[0].to_hurl().contains("# tuning\n[Options]"));
    assert_comments_round_trip(src);
}

#[test]
fn a_comment_among_response_headers_stays_in_the_response_area() {
    let src = "GET http://h/a\nHTTP 200\n# trace headers\nX-Trace: abc\n[Asserts]\njsonpath \"$.ok\" == true\n";
    let e = parse_hurl(src);
    assert_eq!(
        e[0].comments,
        vec![EntryComment {
            anchor: CommentAnchor::ResponseHeaders,
            text: "# trace headers".into(),
        }]
    );
    let text = e[0].to_hurl();
    assert!(
        text.find("HTTP 200").unwrap() < text.find("# trace headers").unwrap()
            && text.find("# trace headers").unwrap() < text.find("[Asserts]").unwrap(),
        "the comment must stay between the HTTP line and [Asserts]:\n{text}"
    );
    assert_comments_round_trip(src);
}

#[test]
fn options_response_headers_body_and_comments_all_survive_one_document() {
    let src = "# Big one\nPOST http://h/a\nContent-Type: json\n[Options]\nretry: 2\n```\n{\"x\":1}\n```\nHTTP/1.1 201\nX-Trace: t\n[Asserts]\njsonpath \"$.id\" exists\n```\n{\"id\":9}\n```\n# all checked\n";
    let e = parse_hurl(src);
    assert_eq!(e[0].options, vec![("retry".into(), "2".into(), true)]);
    assert_eq!(e[0].response_version.as_deref(), Some("HTTP/1.1"));
    assert_eq!(
        e[0].response_headers,
        vec![("X-Trace".into(), "t".into(), true)]
    );
    assert_eq!(e[0].response_body.as_deref(), Some("```\n{\"id\":9}\n```"));
    assert_eq!(e[0].body_src.as_deref(), Some("```\n{\"x\":1}\n```"));
    assert_sections_round_trip(src);
    assert_comments_round_trip(src);
}

#[test]
fn options_and_response_fields_do_not_bleed_into_the_next_request() {
    // Two full entries, each with a request `[Options]` section, a response
    // version, response headers and a response body. The scans for each of
    // these must be bounded to their own entry — the second request's
    // fields must not be absorbed into the first (and vice versa).
    let src = [
        "GET http://h/a\n",
        "[Options]\nretry: 1\n",
        "HTTP/1.1 200\n",
        "X-A: a\n",
        "[Asserts]\njsonpath \"$.a\" == 1\n",
        "```\n{\"a\":1}\n```\n",
        "\n",
        "GET http://h/b\n",
        "[Options]\nretry: 2\n",
        "HTTP/2 201\n",
        "X-B: b\n",
        "[Asserts]\njsonpath \"$.b\" == 2\n",
        "```\n{\"b\":2}\n```\n",
    ]
    .join("");
    let e = parse_hurl(&src);
    assert_eq!(e.len(), 2, "two distinct entries");

    assert_eq!(e[0].options, vec![("retry".into(), "1".into(), true)]);
    assert_eq!(e[0].response_version.as_deref(), Some("HTTP/1.1"));
    assert_eq!(
        e[0].response_headers,
        vec![("X-A".into(), "a".into(), true)]
    );
    assert_eq!(e[0].response_body.as_deref(), Some("```\n{\"a\":1}\n```"));

    assert_eq!(e[1].options, vec![("retry".into(), "2".into(), true)]);
    assert_eq!(e[1].response_version.as_deref(), Some("HTTP/2"));
    assert_eq!(
        e[1].response_headers,
        vec![("X-B".into(), "b".into(), true)]
    );
    assert_eq!(e[1].response_body.as_deref(), Some("```\n{\"b\":2}\n```"));

    assert_sections_round_trip(&src);
}

#[test]
fn a_header_description_survives_a_round_trip_through_the_hurl_text() {
    let mut e = HurlEntry::from_fields("Get", "GET", "http://h/x", vec![], "");
    e.headers = vec![KvRow {
        key: "X-Trace".into(),
        value: "on".into(),
        enabled: true,
        desc: "only for staging".into(),
    }];
    let text = collection_to_hurl(&[e]);
    assert!(
        text.contains("# @desc only for staging"),
        "the note should be written above its row: {text}"
    );
    let back = parse_hurl(&text);
    assert_eq!(
        back[0].headers[0].desc, "only for staging",
        "and it should come back attached to the same row"
    );
    assert_eq!(back[0].headers[0].key, "X-Trace");
}

#[test]
fn a_multi_line_description_round_trips_as_several_marker_lines() {
    let mut e = HurlEntry::from_fields("Get", "GET", "http://h/x", vec![], "");
    e.headers = vec![KvRow {
        key: "X-Trace".into(),
        value: "on".into(),
        enabled: true,
        desc: "first line\nsecond line".into(),
    }];
    let text = collection_to_hurl(&[e]);
    assert_eq!(
        text.matches("# @desc ").count(),
        2,
        "one marker per line of the note: {text}"
    );
    let back = parse_hurl(&text);
    assert_eq!(back[0].headers[0].desc, "first line\nsecond line");
}

#[test]
fn a_description_is_not_also_captured_as_a_prose_comment() {
    let mut e = HurlEntry::from_fields("Get", "GET", "http://h/x", vec![], "");
    e.headers = vec![KvRow {
        key: "X-Trace".into(),
        value: "on".into(),
        enabled: true,
        desc: "only for staging".into(),
    }];
    let once = collection_to_hurl(&[e]);
    let twice = collection_to_hurl(&parse_hurl(&once));
    assert_eq!(once, twice, "a save/load cycle must be a fixed point");
    assert_eq!(
        twice.matches("only for staging").count(),
        1,
        "the note must not be duplicated as prose: {twice}"
    );
}

#[test]
fn a_disabled_row_keeps_both_its_note_and_its_disabled_state() {
    let mut e = HurlEntry::from_fields("Get", "GET", "http://h/x", vec![], "");
    e.headers = vec![KvRow {
        key: "X-Trace".into(),
        value: "on".into(),
        enabled: false,
        desc: "off until the rollout".into(),
    }];
    let back = parse_hurl(&collection_to_hurl(&[e]));
    let row = &back[0].headers[0];
    assert!(!row.enabled, "the row should still be off");
    assert_eq!(row.desc, "off until the rollout");
}

#[test]
fn a_form_field_description_survives_a_round_trip() {
    let mut e = HurlEntry::from_fields("Post", "POST", "http://h/x", vec![], "");
    e.form_fields = vec![FormField {
        key: "region".into(),
        value: "eu-west-1".into(),
        enabled: true,
        desc: "which cluster to hit".into(),
        ..Default::default()
    }];
    let back = parse_hurl(&collection_to_hurl(&[e]));
    assert_eq!(back[0].form_fields[0].desc, "which cluster to hit");
}

#[test]
fn prose_that_merely_starts_like_the_marker_is_left_as_a_comment() {
    let text = "POST http://h/x\n# @description of the endpoint\nX-Trace: on\nHTTP 200\n";
    let back = parse_hurl(text);
    assert_eq!(
        back[0].headers[0].desc, "",
        "the row should not have adopted the comment as its note"
    );
    assert!(
        back[0]
            .comments
            .iter()
            .any(|c| c.text.contains("@description")),
        "and the line should survive as a comment: {:?}",
        back[0].comments
    );
}

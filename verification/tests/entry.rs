//! Requests: rows, fields, bodies, names.
use paperboy::entry::{FormField, FormFieldKind, HurlEntry, KvRow};
use paperboy::params::{check_parameter_name, ParamNameError};
use paperboy::parser::{parse_hurl, parse_hurl_error};
use paperboy::rows::{
    is_variable_name, key_problem, placeholder_problem, placeholder_problems, value_problem,
    KeyProblem, PlaceholderProblem,
};
use paperboy::writer::collection_to_hurl;

fn entry(method: &str) -> HurlEntry {
    HurlEntry {
        method: method.to_string(),
        url: "http://x/y".to_string(),
        ..Default::default()
    }
}

#[test]
fn bodyless_post_gets_an_explicit_content_length_zero() {
    let mut e = entry("POST");
    e.ensure_run_content_length();
    assert!(
        e.headers
            .iter()
            .any(|r| r.key == "Content-Length" && r.value == "0")
    );
}

#[test]
fn content_length_added_for_all_body_carrying_methods() {
    for m in ["POST", "PUT", "PATCH", "DELETE", "post", "Put"] {
        let mut e = entry(m);
        e.ensure_run_content_length();
        assert!(
            e.headers.iter().any(|r| r.key == "Content-Length"),
            "expected Content-Length for {m}"
        );
    }
}

#[test]
fn get_and_head_never_get_a_content_length() {
    for m in ["GET", "HEAD"] {
        let mut e = entry(m);
        e.ensure_run_content_length();
        assert!(
            !e.headers
                .iter()
                .any(|r| r.key.eq_ignore_ascii_case("content-length")),
            "did not expect Content-Length for {m}"
        );
    }
}

#[test]
fn content_length_skipped_when_a_body_is_present() {
    let mut e = entry("POST");
    e.body_src = Some("{\"a\":1}".to_string());
    e.ensure_run_content_length();
    assert!(
        !e.headers
            .iter()
            .any(|r| r.key.eq_ignore_ascii_case("content-length"))
    );
}

#[test]
fn even_a_whitespace_body_conflicts_with_form_fields() {
    let mut e = HurlEntry {
        form_fields: vec![FormField {
            key: "grant_type".into(),
            enabled: true,
            ..Default::default()
        }],
        ..Default::default()
    };
    assert!(!e.body_form_conflict(), "form fields alone are fine");
    e.body_src = Some(" ".into());
    assert!(e.body_form_conflict(), "a space is still a body");
}

#[test]
fn a_disabled_form_field_does_not_conflict_with_a_body() {
    let e = HurlEntry {
        body_src: Some("{}".into()),
        form_fields: vec![FormField {
            key: "grant_type".into(),
            enabled: false,
            ..Default::default()
        }],
        ..Default::default()
    };
    assert!(!e.body_form_conflict());
}

#[test]
fn content_length_skipped_when_form_fields_are_present() {
    let mut e = entry("POST");
    e.form_fields = vec![FormField {
        key: "a".to_string(),
        value: "b".to_string(),
        kind: FormFieldKind::Text,
        content_type: None,
        base64_prefix: None,
        enabled: true,
        desc: String::new(),
    }];
    e.ensure_run_content_length();
    assert!(
        !e.headers
            .iter()
            .any(|r| r.key.eq_ignore_ascii_case("content-length"))
    );
}

#[test]
fn a_user_set_content_length_is_not_duplicated() {
    let mut e = entry("POST");
    e.headers.push(KvRow::toggled("content-length", "5", true));
    e.ensure_run_content_length();
    let count = e
        .headers
        .iter()
        .filter(|r| r.key.eq_ignore_ascii_case("content-length"))
        .count();
    assert_eq!(count, 1);
}

#[test]
fn a_bracket_key_never_breaks_the_collection_file() {
    for row_of in [
        (|r| HurlEntry {
            headers: vec![r],
            ..Default::default()
        }) as fn(KvRow) -> HurlEntry,
        |r| HurlEntry {
            cookies: vec![r],
            ..Default::default()
        },
        |r| HurlEntry {
            queries: vec![r],
            ..Default::default()
        },
        |r| HurlEntry {
            options: vec![r],
            ..Default::default()
        },
    ] {
        let mut e = row_of(KvRow::new("[Body]", "value"));
        e.method = "POST".into();
        e.url = "http://h/a".into();
        let text = e.to_hurl();
        assert!(
            text.contains("# [Body]: value"),
            "the row must be commented, got:\n{text}"
        );
        assert_eq!(
            parse_hurl_error(&text),
            None,
            "must still parse:\n{text}"
        );
        assert_eq!(
            parse_hurl(&text).len(),
            1,
            "the entry must survive:\n{text}"
        );
    }
}

#[test]
fn a_bracket_form_field_key_never_breaks_the_collection_file() {
    let e = HurlEntry {
        method: "POST".into(),
        url: "http://h/a".into(),
        form_fields: vec![FormField {
            key: "[Body]".into(),
            value: "v".into(),
            enabled: true,
            ..Default::default()
        }],
        ..Default::default()
    };
    let text = e.to_hurl();
    assert_eq!(parse_hurl_error(&text), None, "\n{text}");
    assert_eq!(parse_hurl(&text).len(), 1, "\n{text}");
}

#[test]
fn a_bracket_key_does_not_lose_the_other_requests_in_the_file() {
    let bad = HurlEntry {
        method: "POST".into(),
        url: "http://h/a".into(),
        headers: vec![KvRow::new("[Body]", "value")],
        ..Default::default()
    };
    let good = HurlEntry {
        method: "GET".into(),
        url: "http://h/b".into(),
        ..Default::default()
    };
    let text = collection_to_hurl(&[bad, good]);
    assert_eq!(parse_hurl(&text).len(), 2, "\n{text}");
}

#[test]
fn a_bracket_inside_a_key_is_still_a_normal_row() {
    assert_eq!(key_problem("filter[name]"), None);
    assert_eq!(key_problem("[Body]"), Some(KeyProblem::LeadingBracket));
    assert_eq!(key_problem("  [Options]"), Some(KeyProblem::LeadingBracket));
    let e = HurlEntry {
        method: "GET".into(),
        url: "http://h/a".into(),
        queries: vec![KvRow::new("filter[name]", "x")],
        ..Default::default()
    };
    let text = e.to_hurl();
    assert!(text.contains("\nfilter[name]: x"), "\n{text}");
    assert_eq!(parse_hurl_error(&text), None, "\n{text}");
    let back = parse_hurl(&text);
    assert_eq!(
        back[0].queries,
        vec![("filter[name]".into(), "x".into(), true)]
    );
}

#[test]
fn permissive_key_shapes_round_trip() {
    for key in [
        "filter[name]",
        "{{VAR}}",
        "X-Ké",
        "-X-A",
        "_X_A",
        "$X",
        "X.A",
        "X-A]B",
        "X-{{Tenant}}-Id",
    ] {
        assert_eq!(key_problem(key), None, "{key} should be writable");
        let e = HurlEntry {
            method: "GET".into(),
            url: "http://h/a".into(),
            headers: vec![KvRow::new(key, "v")],
            ..Default::default()
        };
        let text = e.to_hurl();
        assert_eq!(parse_hurl_error(&text), None, "{key}\n{text}");
        let back = parse_hurl(&text);
        assert_eq!(
            back.first().map(|e| e.headers.clone()).unwrap_or_default(),
            vec![(key.to_string(), "v".to_string(), true)],
            "{key} must survive a save/load round trip:\n{text}"
        );
    }
}

#[test]
fn unwritable_key_shapes_are_refused() {
    for key in [
        "X-A:B", "X-A#B", "X\"A", "X\\A", "X;A", "X,A", "X A", "X\tA", "X\nY", "X/A", "X@A",
        "X(A", "A}B", "A{B", "{V}", "X-{{V",
    ] {
        assert!(
            matches!(key_problem(key), Some(KeyProblem::Char(_))),
            "{key:?} must be refused"
        );
    }
    assert_eq!(key_problem(""), Some(KeyProblem::Empty));
    assert_eq!(key_problem("   "), Some(KeyProblem::Empty));
}

#[test]
fn only_line_breaking_characters_are_refused_in_a_value() {
    for value in [
        "plain",
        "a: b",
        "a # b",
        "[bracketed]",
        "{{VAR}}",
        "\"quoted\"",
        "a;b,c",
        "",
    ] {
        assert_eq!(value_problem(value), None, "{value:?} should be writable");
    }
    assert_eq!(value_problem("a\nb"), Some('\n'));
    assert_eq!(value_problem("a\tb"), Some('\t'));
    assert_eq!(value_problem("a\\b"), Some('\\'));
}

#[test]
fn every_writable_row_survives_a_round_trip() {
    let keys = [
        "X-A",
        "filter[name]",
        "{{V}}",
        "X-Ké",
        "$X",
        "_A",
        "-A",
        "A.B",
        "A{{V}}B",
        "9",
    ];
    let values = ["v", "a: b", "a # b", "{{V}}", "[x]", "a;b", "\"q\""];
    for key in keys {
        for value in values {
            assert_eq!(key_problem(key), None, "{key:?}");
            assert_eq!(value_problem(value), None, "{value:?}");
            let e = HurlEntry {
                method: "GET".into(),
                url: "http://h/a".into(),
                headers: vec![KvRow::new(key, value)],
                ..Default::default()
            };
            let text = e.to_hurl();
            assert_eq!(
                parse_hurl_error(&text),
                None,
                "{key:?} / {value:?}\n{text}"
            );
            let back = parse_hurl(&text);
            assert_eq!(
                back.first().map(|e| e.headers.clone()).unwrap_or_default(),
                vec![(key.to_string(), value.to_string(), true)],
                "{key:?} / {value:?} must round-trip:\n{text}"
            );
        }
    }
}

#[test]
fn a_disabled_row_with_a_multiline_value_keeps_the_file_parseable() {
    let e = HurlEntry {
        method: "GET".into(),
        url: "http://h/a".into(),
        headers: vec![KvRow {
            key: "X-A".into(),
            value: "one\nGET http://evil/".into(),
            enabled: false,
            desc: String::new(),
        }],
        ..Default::default()
    };
    let text = e.to_hurl();
    assert_eq!(parse_hurl_error(&text), None, "\n{text}");
    assert_eq!(
        parse_hurl(&text).len(),
        1,
        "the value must not become a second entry:\n{text}"
    );
}

#[test]
fn a_commented_body_is_written_out_as_strict_json() {
    let mut e = HurlEntry {
        title: "t".into(),
        method: "POST".into(),
        url: "http://h/a".into(),
        ..Default::default()
    };
    e.body_src = Some("{\n  // who\n  \"id\": 1 // the caller\n}".into());

    assert_eq!(
        e.body_wire().as_deref(),
        Some("{\n  \"id\": 1\n}"),
        "the wire body has no commentary in it"
    );
    // The notes live on `#` lines, which Hurl ignores. Everything Hurl
    // actually reads must be free of them.
    let text = e.to_hurl();
    let hurl_reads: String = text
        .lines()
        .filter(|l| !l.trim_start().starts_with('#'))
        .collect::<Vec<_>>()
        .join("\n");
    // (`http://h/a` has its own `//`, so this looks for the notes.)
    assert!(
        !hurl_reads.contains("// who") && !hurl_reads.contains("// the caller"),
        "\n{hurl_reads}"
    );
    assert!(hurl_reads.contains("\"id\": 1"), "\n{text}");
    assert!(text.contains("#   // who"), "the note is kept:\n{text}");
}

#[test]
fn a_body_that_is_not_json_is_written_out_untouched() {
    let mut e = HurlEntry::default();
    e.body_src = Some("query { user // not a comment\n}".into());
    assert_eq!(e.body_wire().as_deref(), e.body_src.as_deref());
}

#[test]
fn a_name_with_a_newline_cannot_invent_a_second_request() {
    let e = HurlEntry::from_fields(
        "line one\nGET http://evil.example.net",
        "POST",
        "https://x/y",
        vec![],
        "",
    );
    let text = e.to_hurl();
    let back = parse_hurl(&text);
    assert_eq!(back.len(), 1, "one request in, one request out:\n{text}");
    assert_eq!(back[0].url, "https://x/y");
    assert_eq!(back[0].method, "POST");
    assert_eq!(
        back[0].title, "line one GET http://evil.example.net",
        "the name is kept, just flattened onto its one line"
    );
}

#[test]
fn a_pasted_multi_line_title_still_serializes_to_one_comment() {
    let mut e = HurlEntry::from_fields("ok", "GET", "https://x/y", vec![], "");
    e.title = "first\r\nDELETE https://x/z".to_string();
    let back = parse_hurl(&e.to_hurl());
    assert_eq!(back.len(), 1);
    assert_eq!(back[0].method, "GET");
}


fn hurl_reads(inner: &str) -> Option<String> {
    let text = format!("GET http://h/{{{{{inner}}}}}\n");
    let file = hurl_core::parser::parse_hurl_file(&text).ok()?;
    let url = file.entries[0].request.url.to_string();
    let start = url.find("{{")?;
    let rest = &url[start + 2..];
    let end = rest.find("}}")?;
    Some(rest[..end].to_string())
}

#[test]
fn the_truncation_rule_matches_what_hurl_actually_does() {
    // Fine: Hurl reads the whole name.
    for inner in [
        "TOKEN", " TOKEN ", "api_key", "api-key", "x1", "Ké",
        // Hurl's own two placeholder functions are ordinary names to this
        // test, and must not be flagged.
        "newUuid", "newDate",
    ] {
        assert_eq!(
            placeholder_problem(inner),
            None,
            "{inner:?} should be clean"
        );
        assert_eq!(
            hurl_reads(inner).as_deref(),
            Some(inner.trim_matches([' ', '\t'])),
            "hurl disagrees about {inner:?}"
        );
    }

    // Truncated: Hurl takes a prefix and discards the rest in silence.
    // `api.key` is the one that matters — PaperBoy's own substitution
    // resolves it, so preview and wire disagree with nothing to show for it.
    for (inner, read) in [
        ("api.key", "api"),
        (" api.key ", "api"),
        ("gen.uuid", "gen"),
        ("a b", "a"),
        ("hmac(k, m)", "hmac"),
        ("TOKEN!", "TOKEN"),
    ] {
        assert_eq!(
            placeholder_problem(inner),
            Some(PlaceholderProblem::Truncated {
                written: format!("{{{{{inner}}}}}"),
                read: read.to_string(),
            }),
            "{inner:?} should be truncated"
        );
        assert_eq!(
            hurl_reads(inner).as_deref(),
            Some(read),
            "hurl disagrees about {inner:?}"
        );
    }

    // Unparsable: either no name at all, or a character that ends the
    // template early (a tab, or the `#` that opens a comment) — so the
    // whole *file* fails to load, which is why this is worth naming at the
    // placeholder rather than leaving as "the collection is empty".
    for inner in ["$guid", "", " ", ".x", "!", "\tTOKEN\t", "TOKEN\t", "a#b"] {
        assert_eq!(
            placeholder_problem(inner),
            Some(PlaceholderProblem::Unparsable {
                written: format!("{{{{{inner}}}}}"),
            }),
            "{inner:?} should be unparsable"
        );
        assert_eq!(hurl_reads(inner), None, "hurl disagrees about {inner:?}");
    }
}

#[test]
fn a_parameter_name_hurl_would_truncate_is_not_offered() {
    for good in ["TOKEN", "api_key", "api-key", "x1", "Ké"] {
        assert_eq!(check_parameter_name(good, "v", &[]), None, "{good:?}");
        assert!(is_variable_name(good), "{good:?}");
    }
    for bad in ["api.key", "$guid", "a b", "", "a{b"] {
        assert_eq!(
            check_parameter_name(bad, "v", &[]),
            Some(ParamNameError::Invalid),
            "{bad:?}"
        );
        assert!(!is_variable_name(bad), "{bad:?}");
    }
}

#[test]
fn every_placeholder_in_a_line_is_checked_in_order() {
    let found = placeholder_problems("{{ok}}/{{a.b}}?t={{ok2}}&u={{c.d}}");
    assert_eq!(
        found,
        vec![
            PlaceholderProblem::Truncated {
                written: "{{a.b}}".into(),
                read: "a".into()
            },
            PlaceholderProblem::Truncated {
                written: "{{c.d}}".into(),
                read: "c".into()
            },
        ]
    );
    assert!(placeholder_problems("nothing templated here").is_empty());
    // An unterminated `{{` is left to `key_problem`, which already reports
    // it against the row it appears in.
    assert!(placeholder_problems("{{ unterminated").is_empty());
}

//! What holds of the library as a whole, on concrete values.
use paperboy::body_notes::{decode_body_line, parse_body_marker};
use paperboy::entry::{CommentAnchor, EntryComment, FormField, FormFieldKind, HurlEntry, KvRow};
use paperboy::i18n::{fill, Language, Strings};
use paperboy::json_format::{map_cursor, prettify_json, Prettified};
use paperboy::params::{check_parameter_name, suggest_parameter_name, ParamNameError};
use paperboy::parser::{parse_hurl, parse_hurl_error};
use paperboy::request::{method_rgb, status_eq_code, METHODS};
use paperboy::status::Status;
use paperboy::source::{split_kv, split_unescaped_semicolon, unescape_form_file_path};
use paperboy::text;
use paperboy::writer::{collection_to_hurl, encode_body_block, escape_form_file_path};

fn row(key: &str, value: &str, enabled: bool, desc: &str) -> KvRow {
    KvRow {
        key: key.to_string(),
        value: value.to_string(),
        enabled,
        desc: desc.to_string(),
    }
}

fn field(key: &str, value: &str, kind: FormFieldKind, enabled: bool) -> FormField {
    FormField {
        key: key.to_string(),
        value: value.to_string(),
        kind,
        content_type: None,
        base64_prefix: None,
        enabled,
        desc: String::new(),
    }
}

fn note(anchor: CommentAnchor, text: &str) -> EntryComment {
    EntryComment {
        anchor,
        text: text.to_string(),
    }
}

fn pair(a: &str, b: &str) -> (String, String) {
    (a.to_string(), b.to_string())
}

/// An entry with something in every block.
fn full() -> HurlEntry {
    HurlEntry {
        title: "Place an order".to_string(),
        method: "POST".to_string(),
        url: "http://h/orders".to_string(),
        headers: vec![
            row("Accept", "application/json", true, "what comes back"),
            row("X-Trace", "on", false, "two\nlines"),
        ],
        basic_auth: Some(pair("bob", "secret")),
        queries: vec![row("page", "2", true, "")],
        cookies: vec![row("session", "abc", false, "")],
        options: vec![row("retry", "3", true, "")],
        body_src: Some("{\n  // how many\n  \"count\": 3\n}".to_string()),
        expected_status: Some(201),
        response_version: Some("HTTP/1.1".to_string()),
        response_headers: vec![row("Content-Type", "application/json", true, "")],
        response_body: Some("{\"ok\":true}".to_string()),
        captures: vec![pair("id", "jsonpath \"$.id\"")],
        asserts: vec!["jsonpath \"$.ok\" == true".to_string()],
        reports: vec![pair("total", "jsonpath \"$.total\"")],
        comments: vec![
            note(CommentAnchor::Lead, "##### orders"),
            note(CommentAnchor::Headers, "# the usual ones"),
            note(CommentAnchor::BasicAuth, "# who asks"),
            note(CommentAnchor::Query, "# which of them"),
            note(CommentAnchor::Options, "# be patient"),
            note(CommentAnchor::Body, "# what to order"),
            note(CommentAnchor::Response, "# what is due"),
            note(CommentAnchor::ResponseHeaders, "# of this kind"),
            note(CommentAnchor::Asserts, "# and so"),
            note(CommentAnchor::Captures, "# to keep"),
            note(CommentAnchor::ResponseBody, "# in full"),
            note(CommentAnchor::Trailing, "# done"),
        ],
        ..Default::default()
    }
}

fn upload() -> HurlEntry {
    HurlEntry {
        title: "Upload".to_string(),
        method: "POST".to_string(),
        url: "http://h/files".to_string(),
        form_fields: vec![
            field("kind", "picture", FormFieldKind::Text, true),
            FormField {
                content_type: Some("image/png".to_string()),
                desc: "the picture".to_string(),
                ..field("a", "my dir/a;b#1.png", FormFieldKind::File, true)
            },
            field("b", "old.png", FormFieldKind::File, false),
            FormField {
                base64_prefix: Some("data:image/png;base64,".to_string()),
                ..field("c", "c.png", FormFieldKind::Base64File, true)
            },
        ],
        is_multipart: true,
        comments: vec![note(CommentAnchor::Form, "# all of it")],
        ..Default::default()
    }
}

#[test]
fn a_file_is_read_back_as_it_was_written() {
    let entries = vec![full(), upload(), full_without_lead()];
    let text = collection_to_hurl(&entries);
    let back = parse_hurl(&text);
    assert_eq!(parse_hurl_error(&text), None);
    assert_eq!(format!("{back:?}"), format!("{entries:?}"));
    assert_eq!(collection_to_hurl(&back), text);
}

fn full_without_lead() -> HurlEntry {
    let mut e = full();
    e.comments.remove(0);
    e
}

#[test]
fn an_entry_without_a_response_is_read_back_too() {
    let e = HurlEntry {
        method: "GET".to_string(),
        url: "http://h/x".to_string(),
        headers: vec![row("A", "1", false, ""), row("B", "2", true, "note")],
        comments: vec![note(CommentAnchor::Trailing, "# the end")],
        ..Default::default()
    };
    let back = parse_hurl(&e.to_hurl());
    assert_eq!(format!("{back:?}"), format!("{:?}", [e]));
}

#[test]
fn a_comment_like_a_row_is_read_back_where_no_rows_are_read() {
    let first = HurlEntry {
        title: "First".to_string(),
        method: "GET".to_string(),
        url: "http://h/1".to_string(),
        basic_auth: Some(pair("bob", "secret")),
        cookies: vec![row("session", "abc", true, "")],
        expected_status: Some(200),
        asserts: vec!["jsonpath \"$.ok\" == true".to_string()],
        captures: vec![pair("id", "jsonpath \"$.id\"")],
        comments: vec![
            note(CommentAnchor::Cookies, "# see: the docs"),
            note(CommentAnchor::Captures, "# TODO: more"),
            note(CommentAnchor::Trailing, "# FIXME: later"),
        ],
        ..Default::default()
    };
    let second = HurlEntry {
        title: "Users: all of them".to_string(),
        method: "GET".to_string(),
        url: "http://h/2".to_string(),
        headers: vec![row("A", "1", true, "")],
        ..Default::default()
    };
    let third = HurlEntry {
        title: "Users: one of them".to_string(),
        method: "POST".to_string(),
        url: "http://h/3".to_string(),
        form_fields: vec![field("path", "file,no;", FormFieldKind::Text, true)],
        ..Default::default()
    };
    let entries = vec![first, second, third];
    let back = parse_hurl(&collection_to_hurl(&entries));
    assert_eq!(format!("{back:?}"), format!("{entries:?}"));
}

#[test]
fn a_marker_that_no_body_agrees_with_is_read_back() {
    let e = HurlEntry {
        title: "Odd comments".to_string(),
        method: "POST".to_string(),
        url: "http://h/x".to_string(),
        body_src: Some("{\"a\":1}".to_string()),
        comments: vec![
            note(CommentAnchor::Body, "# [Body] 1"),
            note(CommentAnchor::Body, "# {\"a\":2}"),
        ],
        ..Default::default()
    };
    let back = parse_hurl(&e.to_hurl());
    assert_eq!(format!("{back:?}"), format!("{:?}", [e]));
}

#[test]
fn a_colon_in_a_template_does_not_end_a_name() {
    assert_eq!(split_kv("{{a:b}}: v"), Some(pair("{{a:b}}", "v")));
    assert_eq!(split_kv("X-{{a:b}}-{{c:d}} : v: w"), Some(pair("X-{{a:b}}-{{c:d}}", "v: w")));
    assert_eq!(split_kv("a: {{b:c}}"), Some(pair("a", "{{b:c}}")));
    assert_eq!(split_kv("{{a: v"), None);
    assert_eq!(split_kv("see also: the docs"), None);
    let e = HurlEntry {
        method: "GET".to_string(),
        url: "http://h/x".to_string(),
        headers: vec![row("{{a:b}}", "1", false, "a note"), row("B", "2", true, "")],
        ..Default::default()
    };
    let back = parse_hurl(&e.to_hurl());
    assert_eq!(format!("{back:?}"), format!("{:?}", [e]));
}

#[test]
fn a_name_that_would_be_cut_in_two_is_commented_out() {
    let e = HurlEntry {
        method: "POST".to_string(),
        url: "http://h/x".to_string(),
        headers: vec![row("{{a\nb}}", "1", true, "")],
        form_fields: vec![field("{{c\rd}}", "2", FormFieldKind::Text, true)],
        ..Default::default()
    };
    assert_eq!(
        e.to_hurl(),
        "POST http://h/x\n# {{a b}}: 1\n[Form]\n# {{c d}}: 2\n"
    );
}

#[test]
fn a_text_that_breaks_off_in_an_escape_is_no_hurl_text() {
    let opened = "POST http://h/a\n```escape\n";
    let ends = ["\\", "\\x", "\\u", "\\ux", "\\u{", "\\u{12", "\\u{12x", "\\\n", "\\u{d800"];
    for end in ends {
        let text = format!("{opened}{end}");
        assert!(parse_hurl(&text).is_empty(), "{end:?}");
        assert_eq!(
            parse_hurl_error(&text).as_deref(),
            Some("line 2: unfinished escape sequence"),
            "{end:?}"
        );
    }
    for whole in ["\\u{41}\n```\n", "\\x\n```\n", "a\\\\\n```\n", "\\```x```\n"] {
        let text = format!("{opened}{whole}");
        assert_eq!(parse_hurl_error(&text), None, "{whole:?}");
    }
    for text in [
        "GET http://h/a\nA: \\u{000000041}\n",
        "GET http://h/a\n\\u{00000041}: b\n",
    ] {
        assert_eq!(
            parse_hurl_error(text).as_deref(),
            Some("line 2: unfinished escape sequence")
        );
    }
    assert_eq!(parse_hurl_error("GET http://h/a\nA: \\u{0000041}\n"), None);
    assert_eq!(parse_hurl_error("GET http://h/a\nA: \\\\u{000000041}\n"), None);
    assert_eq!(parse_hurl_error("GET http://h/a\n# ends in \\"), None);
}

#[test]
fn what_the_parser_does_not_read_does_no_harm() {
    let asserts = "GET http://h/a\nHTTP 200\n[Asserts]\n";
    for text in [
        "# \\u{12345678}\nGET http://h/a\n".to_string(),
        "GET http://h/a # \\u{12345678}\n".to_string(),
        "GET http://h/a?next=/b\nA: \"b\" # \\u{12345678}\n".to_string(),
        "GET http://h/a\n# ```escape\n# \\".to_string(),
        "POST http://h/a\n```\n\\u{12345678}\n```\n".to_string(),
        "POST http://h/a\n```json\n{\"a\": \"\\u{12345678}\"}\n```\n".to_string(),
        "POST http://h/a\n```graphql\nquery { a } # \\u{12345678}\n```\n".to_string(),
        "POST http://h/a\n```escape\n\\u{41}\n```\n# \\u{12345678}\n".to_string(),
        "POST http://h/a\n<a>\\u{12345678}\n# ```escape\n\\</a>\n\nHTTP 200\n".to_string(),
        "POST http://h/a\n{\n  \"a\": \"```escape \\\\u{12345678}\"\n}\nHTTP 200\n".to_string(),
        format!("{asserts}body matches /\\u{{00000041}}/\n"),
        format!("{asserts}body == ```\n\\u{{12345678}}\n```\n# \\u{{12345678}}"),
        format!("{asserts}header \"A#\" == \"b\" # \\u{{12345678}}\n"),
        format!("{asserts}body matches /a\n# \\u{{00000041}}/\n"),
    ] {
        assert_eq!(parse_hurl_error(&text), None, "{text:?}");
        assert_eq!(parse_hurl(&text).len(), 1, "{text:?}");
    }
    for text in [
        format!("{asserts}header \"A#\\u{{12345678}}\" == \"b\"\n"),
        format!("{asserts}body matches /#/ and \"\\u{{12345678}}\"\n"),
        "# c\n# d\n\nGET http://h/\\u{12345678}\n".to_string(),
        "POST http://h/a\n{}\n\nGET http://h/\\u{12345678}\n".to_string(),
        "POST http://h/a\n<a/>\n\nGET http://h/\\u{12345678}\n".to_string(),
        "POST http://h/a\n# ```\n\n```escape\n\\u{12345678}\n```\n".to_string(),
    ] {
        assert_eq!(
            parse_hurl_error(&text).as_deref(),
            Some("line 4: unfinished escape sequence"),
            "{text:?}"
        );
    }
}

#[test]
fn a_path_is_told_from_what_stands_behind_it() {
    for path in ["a b.txt", "c:\\x;y#z", "two\nlines\r", "", ";;\\"] {
        let escaped = escape_form_file_path(path);
        assert_eq!(unescape_form_file_path(&escaped), path);
        let text = format!("{escaped}; text/plain; a=b");
        let (before, behind) = split_unescaped_semicolon(&text);
        assert_eq!(before, escaped);
        assert_eq!(behind, " text/plain; a=b");
    }
    assert_eq!(split_unescaped_semicolon("a\\;b"), pair("a\\;b", ""));
    assert_eq!(unescape_form_file_path("a\\"), "a\\");
}

#[test]
fn a_body_block_carries_every_line() {
    for src in ["", "{}", "{\r\n  // x  \r\n}\n", "\n\n", "a\r\r"] {
        let block = encode_body_block(src);
        let lines: Vec<&str> = block.split('\n').collect();
        let of: Vec<&str> = src.split('\n').collect();
        assert_eq!(lines.len(), of.len() + 2);
        assert_eq!(lines[of.len() + 1], "");
        assert_eq!(parse_body_marker(lines[0]), Some(of.len()));
        for (i, line) in of.iter().enumerate() {
            assert!(lines[i + 1].starts_with('#'));
            assert_eq!(decode_body_line(lines[i + 1]), line.strip_suffix('\r').unwrap_or(line));
        }
    }
}

#[test]
fn a_disabled_row_stays_on_one_line() {
    let e = HurlEntry {
        method: "GET".to_string(),
        url: "http://h/x".to_string(),
        headers: vec![row("A", "1\nDELETE http://h/x", false, "")],
        ..Default::default()
    };
    assert_eq!(e.to_hurl(), "GET http://h/x\n# A: 1 DELETE http://h/x\n");
}

#[test]
fn a_title_stays_on_one_line() {
    let e = HurlEntry {
        title: " one\r\ntwo ".to_string(),
        method: "GET".to_string(),
        url: "http://h/x".to_string(),
        ..Default::default()
    };
    assert_eq!(e.to_hurl(), "# one  two\nGET http://h/x\n");
}

#[test]
fn a_cursor_stays_behind_the_same_characters() {
    let src = "{\"ä\":1,  \"b\":[1,2]}";
    let out = match prettify_json(src) {
        Prettified::Changed(out) => out,
        other => panic!("expected a change, got {other:?}"),
    };
    let solid = |s: &str| s.chars().filter(|c| !c.is_ascii_whitespace()).count();
    for (at, _) in src.char_indices() {
        let to = map_cursor(src, &out, at);
        assert_eq!(solid(&out[..to]), solid(&src[..at]));
    }
}

#[test]
fn laying_out_twice_changes_nothing_more() {
    let once = match prettify_json("{\"a\":[1,{\"b\":null}]}") {
        Prettified::Changed(out) => out,
        other => panic!("expected a change, got {other:?}"),
    };
    assert!(matches!(prettify_json(&once), Prettified::Unchanged));
    for src in [
        "{\"a\":{{x}},// one\n\"b\":[] /* two */}\n",
        "[1,/* c */2\n\n,3] // end",
        "{{ x }}\n",
        "[\"a \\\" // b\",\"{{c}}\"]\n\n",
    ] {
        let Prettified::Changed(out) = prettify_json(src) else {
            assert_eq!(prettify_json(src), Prettified::Unchanged, "{src:?}");
            continue;
        };
        assert_eq!(prettify_json(&out), Prettified::Unchanged, "{src:?}");
    }
    for src in ["{{x\n", "[1, \"a\n", "1 /* c\n", "/* c */ {{x\n\n", "[1/*c*/2]"] {
        assert_eq!(prettify_json(src), Prettified::NotJson, "{src:?}");
    }
}

#[test]
fn a_layout_keeps_every_character_but_white_space() {
    let solid = |s: &str| -> String { s.chars().filter(|c| !c.is_whitespace()).collect() };
    for src in [
        "{ /* a\n\u{a0}\u{2003} b\n\u{3000}*/ \"k\u{a0}\":1}",
        "[1,// \u{a0}x\u{a0}\n{{ y\u{2028} }}]",
    ] {
        let Prettified::Changed(out) = prettify_json(src) else {
            panic!("{src:?} is laid out");
        };
        assert_eq!(solid(&out), solid(src));
    }
}

#[test]
fn a_layout_keeps_the_comments() {
    let src = "{ // one\n\"a\":1, /* two\n      three */ \"b\":2 } /* four */";
    let out = match prettify_json(src) {
        Prettified::Changed(out) => out,
        other => panic!("expected a change, got {other:?}"),
    };
    assert_eq!(
        out,
        "{ // one\n  \"a\": 1, /* two\n  three */\n  \"b\": 2\n} /* four */"
    );
}

#[test]
fn a_suggested_name_can_be_used() {
    let declared = vec![pair("EXAMPLE", "other"), pair("EXAMPLE_2", "another")];
    let name = suggest_parameter_name("./samples/example.pdf", &declared);
    assert_eq!(name, "EXAMPLE_3");
    assert_eq!(check_parameter_name(&name, "./samples/example.pdf", &declared), None);
    assert_eq!(
        check_parameter_name("EXAMPLE", "./samples/example.pdf", &declared),
        Some(ParamNameError::Conflict("other".to_string()))
    );
    assert_eq!(
        check_parameter_name("a b", "x", &declared),
        Some(ParamNameError::Invalid)
    );
    assert_eq!(suggest_parameter_name("7 days", &[]), "VALUE");
    assert_eq!(suggest_parameter_name("straße", &[]), "STRASSE");
}

#[test]
fn a_fault_without_a_name_of_its_own_is_told_in_lower_case() {
    let why = parse_hurl_error("GET http://h/x\n{\n").expect("this is no Hurl text");
    assert!(why.starts_with("line "));
    assert_eq!(why, why.to_lowercase());
}

#[test]
fn a_character_is_named_as_it_would_be_typed() {
    let en = Strings::for_language(&Language::English);
    let said = Status::NewRequestValueChar("X-Key".to_string(), '\n').text(&en);
    assert!(said.contains("\\n"));
    assert!(said.contains("X-Key"));
    assert!(!said.contains('\n'));
    let of = |c: char| Status::NewRequestValueChar("k".to_string(), c).text(&en);
    let shown = [
        ('\n', "\\n"),
        ('\r', "\\r"),
        ('\t', "\\t"),
        ('\\', "\\\\"),
        ('"', "\\\""),
        ('\'', "\\'"),
        ('~', "~"),
    ];
    for (c, text) in shown {
        assert_eq!(of(c), of('#').replace('#', text), "{c:?}");
    }
}

#[test]
fn placeholders_are_filled_in_order() {
    assert_eq!(fill("{} of {}", &["2", "5"]), "2 of 5");
    assert_eq!(fill("{} of {}", &["2"]), "2 of {}");
    assert_eq!(fill("none", &["2"]), "none");
}

#[test]
fn a_number_is_read_to_its_end() {
    assert_eq!(text::parse_integer("-12"), Some(-12));
    assert_eq!(text::parse_integer("+7"), Some(7));
    assert_eq!(text::parse_integer("7x"), None);
    assert_eq!(text::parse_integer(""), None);
    assert_eq!(text::parse_integer("9223372036854775808"), None);
    assert_eq!(text::parse_integer("-9223372036854775808"), Some(i64::MIN));
}

#[test]
fn every_occurrence_is_replaced_once() {
    assert_eq!(text::replace("a{x}b{x}", "{x}", "{x}{x}"), "a{x}{x}b{x}{x}");
    assert_eq!(text::replace("abc", "z", "y"), "abc");
}

#[test]
fn a_row_is_told_from_a_bare_triple() {
    assert!(KvRow::new("a", "b") == ("a".to_string(), "b".to_string(), true));
    assert!(row("a", "b", true, "note") != ("a".to_string(), "b".to_string(), true));
    assert!(KvRow::toggled("a", "b", false) != ("a".to_string(), "b".to_string(), true));
}

#[test]
fn an_unreadable_text_is_known_by_its_comment() {
    let e = HurlEntry::unreadable("\n  \nGET http://h\n## Broken one \n{{{\n");
    assert!(e.is_unreadable());
    assert_eq!(e.title, "Broken one");
    assert_eq!(e.to_hurl(), "\n  \nGET http://h\n## Broken one \n{{{\n");
    let e = HurlEntry::unreadable(" GET http://h \n[[\n");
    assert_eq!(e.title, "GET http://h");
    assert_eq!(HurlEntry::unreadable(&"x".repeat(90)).title.len(), 80);
    assert!(!full().is_unreadable());
}

#[test]
fn leftover_notes_can_be_adopted_or_thrown_away() {
    let text = "POST http://h/x\n# [Body] 3\n# {\n#   \"a\": 1 // one\n# }\n{\"a\":2}\nHTTP 200\n";
    let mut e = parse_hurl(text).remove(0);
    assert_eq!(e.body_src.as_deref(), Some("{\"a\":2}"));
    let (at, notes) = e.stale_body_notes().expect("the notes are stale");
    assert_eq!(at, vec![0, 1, 2, 3]);
    assert_eq!(notes, "{\n  \"a\": 1 // one\n}");
    assert!(e.can_adopt_body_notes());
    assert!(e.adopt_body_notes());
    assert_eq!(e.body_src.as_deref(), Some("{\n  \"a\": 1 // one\n}"));
    assert!(e.comments.is_empty());
    assert!(!e.adopt_body_notes());

    let mut e = parse_hurl(text).remove(0);
    assert!(e.discard_body_notes());
    assert_eq!(e.body_src.as_deref(), Some("{\"a\":2}"));
    assert!(e.comments.is_empty());
    assert!(!e.discard_body_notes());
}

#[test]
fn a_request_declares_its_variables() {
    let mut e = full();
    e.options = vec![
        row("Variable", " HOST = example.net ", true, ""),
        row("variable", "OFF=1", false, ""),
        row("variable", "no sign", true, ""),
    ];
    assert_eq!(e.variable_defaults(), vec![pair("HOST", "example.net")]);
    assert!(e.declares_variable("HOST"));
    assert!(!e.declares_variable("host"));
    assert!(!e.declares_variable("OFF"));
}

#[test]
fn a_file_field_needs_a_path() {
    let mut e = upload();
    assert_eq!(e.first_empty_file_field(), None);
    e.form_fields[1].value = "  ".to_string();
    assert_eq!(e.first_empty_file_field(), Some("a"));
    e.form_fields[1].enabled = false;
    assert_eq!(e.first_empty_file_field(), None);
}

#[test]
fn a_status_check_is_told_from_other_asserts() {
    assert_eq!(status_eq_code(" status  ==  204 "), Some(204));
    assert_eq!(status_eq_code("status==+7"), Some(7));
    assert_eq!(status_eq_code("status >= 200"), None);
    assert_eq!(status_eq_code("statusCode == 200"), None);
    assert_eq!(status_eq_code("status == 65536"), None);
}

#[test]
fn methods_have_their_colours() {
    assert_eq!(method_rgb("GET"), Some((97, 175, 239)));
    assert_eq!(method_rgb("POST"), Some((73, 204, 144)));
    assert_eq!(method_rgb("PUT"), method_rgb("ANY"));
    assert_eq!(method_rgb("DELETE"), Some((248, 81, 73)));
    assert_eq!(method_rgb("PATCH"), Some((80, 227, 194)));
    assert_eq!(method_rgb("get"), None);
    assert_eq!(METHODS, ["GET", "POST", "PUT", "PATCH", "DELETE", "HEAD"]);
}

#[test]
fn english_is_the_first_language() {
    let en = Strings::english();
    let same = Strings::for_language(&Language::English);
    assert_eq!(
        Status::NotCollection.text(&en),
        Status::NotCollection.text(&same)
    );
}

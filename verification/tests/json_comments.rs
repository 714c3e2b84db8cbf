//! Comments in JSON bodies.
use paperboy::json_comments::{bodies_equivalent, has_comments, strip_comments, wire_body};
use std::borrow::Cow;

#[test]
fn a_slash_inside_a_string_is_data_not_a_comment() {
    let src = r#"{"url": "https://example.net/a//b"}"#;
    assert!(!has_comments(src));
    assert_eq!(wire_body(src), src);
}

#[test]
fn a_line_that_is_only_a_comment_takes_its_line_with_it() {
    let src = "{\n  // who\n  \"id\": 1\n}";
    assert_eq!(strip_comments(src), "{\n  \"id\": 1\n}");
}

#[test]
fn a_trailing_comment_leaves_the_line_it_sat_on() {
    let src = "{\n  \"id\": 1 // the caller\n}";
    assert_eq!(strip_comments(src), "{\n  \"id\": 1\n}");
}

#[test]
fn blank_lines_the_user_typed_are_their_spacing_and_stay() {
    let src = "{\n  \"a\": 1,\n\n  // note\n  \"b\": 2\n}";
    assert_eq!(strip_comments(src), "{\n  \"a\": 1,\n\n  \"b\": 2\n}");
}

#[test]
fn a_block_comment_spanning_lines_removes_all_of_them() {
    let src = "{\n  /* one\n     two */\n  \"id\": 1\n}";
    assert_eq!(strip_comments(src), "{\n  \"id\": 1\n}");
}

#[test]
fn a_block_comment_inside_a_line_leaves_the_rest_of_it() {
    let src = r#"{"a": /* why */ 1}"#;
    assert_eq!(strip_comments(src), r#"{"a":  1}"#);
}

#[test]
fn templates_survive_stripping_and_still_let_the_body_parse() {
    let src = "{\n  // who\n  \"id\": {{user_id}},\n  \"u\": \"https://{{host}}/x\"\n}";
    let out = wire_body(src);
    assert_eq!(
        out,
        "{\n  \"id\": {{user_id}},\n  \"u\": \"https://{{host}}/x\"\n}"
    );
}

#[test]
fn a_plain_text_body_containing_slashes_is_left_alone() {
    // Stripping would truncate this at the slash, which is much worse than
    // not supporting comments in a body that was never JSON.
    let src = "see http://x for details // and this is not a comment";
    assert_eq!(wire_body(src), src);
    assert_eq!(strip_comments("a // b"), "a");
}

#[test]
fn an_unterminated_string_does_not_swallow_the_rest_as_code() {
    let src = "{\"a\": \"unclosed";
    assert_eq!(wire_body(src), src);
}

#[test]
fn reformatting_and_reordering_keys_is_not_a_divergence() {
    assert!(bodies_equivalent(
        "{\"a\":1,\"b\":2}",
        "{\n  \"b\": 2,\n  \"a\": 1\n}"
    ));
}

#[test]
fn a_changed_value_is_a_divergence() {
    assert!(!bodies_equivalent("{\"a\":1}", "{\"a\":2}"));
}

#[test]
fn two_different_templates_are_not_the_same_value() {
    // Both stand in for "something unparseable goes here"; collapsing them
    // would report a real edit as no change at all.
    assert!(!bodies_equivalent(
        "{\"id\": {{alice}}}",
        "{\"id\": {{bob}}}"
    ));
    assert!(bodies_equivalent(
        "{\"id\": {{alice}}}",
        "{\n  \"id\": {{alice}}\n}"
    ));
}

#[test]
fn comments_do_not_change_what_a_body_says() {
    assert!(bodies_equivalent(
        "{\n  // note\n  \"a\": 1\n}",
        "{\"a\":1}"
    ));
}

#[test]
fn bodies_that_are_not_json_fall_back_to_ignoring_whitespace() {
    assert!(bodies_equivalent("hello   world", "hello world"));
    assert!(!bodies_equivalent("hello world", "goodbye world"));
}

#[test]
fn a_body_with_no_comments_is_returned_without_copying_it() {
    let src = r#"{"a": 1}"#;
    assert!(matches!(wire_body(src), Cow::Borrowed(_)));
}

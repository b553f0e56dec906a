use api_client::format::select_body;
use api_client::format_json;

#[test]
fn empty_body_is_shown_empty() {
    assert_eq!(format_json(""), "");
}

#[test]
fn json_body_is_indented() {
    assert_eq!(format_json("{\"a\":1}"), "{\n  \"a\": 1\n}");
}

#[test]
fn formatting_is_idempotent() {
    let once = format_json("{\"a\":[1,2,{\"b\":null}],\"c\":\"d\"}");
    let twice = format_json(&once);
    assert_eq!(once, twice);
    assert_eq!(
        once,
        "{\n  \"a\": [\n    1,\n    2,\n    {\n      \"b\": null\n    }\n  ],\n  \"c\": \"d\"\n}"
    );
}

#[test]
fn formatting_is_deterministic() {
    assert_eq!(format_json("[1, 2,3]"), format_json("[1, 2,3]"));
    assert_eq!(format_json("[1, 2,3]"), "[\n  1,\n  2,\n  3\n]");
}

#[test]
fn plain_text_is_shown_unchanged() {
    assert_eq!(format_json("plain text"), "plain text");
}

#[test]
fn broken_json_is_shown_unchanged() {
    assert_eq!(format_json("{\"a\":1"), "{\"a\":1");
    assert_eq!(format_json("{\"a\":1} trailing"), "{\"a\":1} trailing");
    assert_eq!(format_json("<html></html>"), "<html></html>");
    assert_eq!(format_json("   "), "   ");
}

#[test]
fn json_scalars_are_shown_as_json() {
    assert_eq!(format_json(" 42 "), "42");
    assert_eq!(format_json("\"text\""), "\"text\"");
    assert_eq!(format_json("null"), "null");
    assert_eq!(format_json("[]"), "[]");
    assert_eq!(format_json("{ }"), "{}");
}

#[test]
fn printed_text_is_chosen_over_the_raw_body() {
    assert_eq!(select_body("raw", Some("printed".to_string())), "printed");
    assert_eq!(select_body("raw", Some(String::new())), "");
}

#[test]
fn raw_body_is_the_fallback() {
    assert_eq!(select_body("raw", None), "raw");
    assert_eq!(select_body("", None), "");
}

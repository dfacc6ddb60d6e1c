use rustdesk_pp::json::extract_json_array;
use rustdesk_pp::json::extract_json_str;
use rustdesk_pp::json::split_objects;
use rustdesk_pp::text::chars_of;
use rustdesk_pp::text::decimal_exec;
use rustdesk_pp::text::string_from;

#[test]
fn json_str_quoted_value() {
    let body = r#"{"peer_id":"254504451","password":"pw"}"#;
    assert_eq!(extract_json_str(body, "peer_id"), Some("254504451".to_string()));
    assert_eq!(extract_json_str(body, "password"), Some("pw".to_string()));
}

#[test]
fn json_str_bare_value_stops_at_comma_brace_or_space() {
    assert_eq!(extract_json_str(r#"{"n":42,"m":1}"#, "n"), Some("42".to_string()));
    assert_eq!(extract_json_str(r#"{"n":true}"#, "n"), Some("true".to_string()));
    assert_eq!(extract_json_str(r#"{"n":7 }"#, "n"), Some("7".to_string()));
}

#[test]
fn json_str_missing_key_or_value() {
    assert_eq!(extract_json_str(r#"{"a":"b"}"#, "c"), None);
    // The pattern needs the colon right after the key.
    assert_eq!(extract_json_str(r#"{"a" : "b"}"#, "a"), None);
    // Nothing after the colon.
    assert_eq!(extract_json_str(r#"{"a":"#, "a"), None);
}

#[test]
fn json_str_whitespace_after_colon() {
    assert_eq!(extract_json_str(r#"{"op": "send_file"}"#, "op"), Some("send_file".to_string()));
    assert_eq!(extract_json_str("{\"n\":\n\t 5}", "n"), Some("5".to_string()));
    assert_eq!(extract_json_str(r#"{"n":   "#, "n"), None);
}

#[test]
fn json_str_unterminated_string_runs_to_end() {
    assert_eq!(extract_json_str(r#"{"a":"open"#, "a"), Some("open".to_string()));
}

#[test]
fn json_str_first_occurrence_wins() {
    let body = r#"{"op":"x","inner":{"op":"y"}}"#;
    assert_eq!(extract_json_str(body, "op"), Some("x".to_string()));
}

#[test]
fn json_str_unicode_value() {
    let body = r#"{"name":"grüße","x":1}"#;
    assert_eq!(extract_json_str(body, "name"), Some("grüße".to_string()));
}

#[test]
fn json_array_nested_brackets() {
    let body = r#"{"operations": [[1,2],[3]], "z":[9]}"#;
    assert_eq!(extract_json_array(body, "operations"), Some("[[1,2],[3]]".to_string()));
}

#[test]
fn json_array_missing_or_unclosed() {
    assert_eq!(extract_json_array(r#"{"x":[1]}"#, "operations"), None);
    assert_eq!(extract_json_array(r#"{"operations":1}"#, "operations"), None);
    assert_eq!(extract_json_array(r#"{"operations":[1,2"#, "operations"), None);
}

#[test]
fn json_array_takes_first_bracket_after_key() {
    // The `[` need not follow the key directly.
    let body = r#"{"operations": "skip", "o": [1]}"#;
    assert_eq!(extract_json_array(body, "operations"), Some("[1]".to_string()));
}

fn pieces(block: &str) -> Vec<String> {
    let c = chars_of(block);
    split_objects(c.as_slice()).iter().map(|v| string_from(v.as_slice())).collect()
}

#[test]
fn split_objects_flat() {
    assert_eq!(pieces(r#"[{"a":1}, {"b":2}]"#), vec![r#"{"a":1}"#.to_string(), r#"{"b":2}"#.to_string()]);
}

#[test]
fn split_objects_nested_braces_restart_at_inner_brace() {
    // Every `}` closes the text from the latest `{`.
    assert_eq!(
        pieces(r#"[{"a":{"b":1}}]"#),
        vec![r#"{"b":1}"#.to_string(), r#"{"b":1}}"#.to_string()]
    );
}

#[test]
fn split_objects_brace_before_any_open_starts_at_zero() {
    assert_eq!(pieces("ab}"), vec!["ab}".to_string()]);
    assert_eq!(pieces("[]"), Vec::<String>::new());
}

#[test]
fn decimal_digits() {
    let s: String = decimal_exec(0).into_iter().collect();
    assert_eq!(s, "0");
    let s: String = decimal_exec(1234567890).into_iter().collect();
    assert_eq!(s, "1234567890");
    let s: String = decimal_exec(u64::MAX).into_iter().collect();
    assert_eq!(s, u64::MAX.to_string());
}

use drilltrack::json::{
    push_i64_dec, push_literal, push_quoted, push_string_array, push_u16_dec, push_u64_dec,
};

fn as_string(v: Vec<char>) -> String {
    v.into_iter().collect()
}

#[test]
fn decimal_digits_are_exact() {
    let mut v: Vec<char> = Vec::new();
    push_u64_dec(&mut v, 0);
    assert_eq!(as_string(v), "0");

    let mut v: Vec<char> = Vec::new();
    push_u64_dec(&mut v, 12345);
    assert_eq!(as_string(v), "12345");

    let mut v: Vec<char> = Vec::new();
    push_u64_dec(&mut v, u64::MAX);
    assert_eq!(as_string(v), "18446744073709551615");

    let mut v: Vec<char> = Vec::new();
    push_u16_dec(&mut v, 9091);
    assert_eq!(as_string(v), "9091");
}

#[test]
fn signed_decimals_cover_the_whole_range() {
    let mut v: Vec<char> = Vec::new();
    push_i64_dec(&mut v, -1);
    assert_eq!(as_string(v), "-1");

    let mut v: Vec<char> = Vec::new();
    push_i64_dec(&mut v, i64::MIN);
    assert_eq!(as_string(v), "-9223372036854775808");

    let mut v: Vec<char> = Vec::new();
    push_i64_dec(&mut v, i64::MAX);
    assert_eq!(as_string(v), "9223372036854775807");
}

#[test]
fn quoting_escapes_exactly_what_json_needs() {
    let mut v: Vec<char> = Vec::new();
    push_quoted(&mut v, "plain");
    assert_eq!(as_string(v), "\"plain\"");

    let mut v: Vec<char> = Vec::new();
    push_quoted(&mut v, "a\"b\\c");
    assert_eq!(as_string(v), "\"a\\\"b\\\\c\"");

    let mut v: Vec<char> = Vec::new();
    push_quoted(&mut v, "\n\u{1}\u{1f}");
    assert_eq!(as_string(v), "\"\\u000a\\u0001\\u001f\"");
}

#[test]
fn string_arrays_are_comma_separated() {
    let mut v: Vec<char> = Vec::new();
    push_string_array(&mut v, &Vec::new());
    assert_eq!(as_string(v), "[]");

    let mut v: Vec<char> = Vec::new();
    push_string_array(&mut v, &vec!["a".to_string()]);
    assert_eq!(as_string(v), "[\"a\"]");

    let mut v: Vec<char> = Vec::new();
    push_string_array(&mut v, &vec!["a".to_string(), "b".to_string(), "c".to_string()]);
    assert_eq!(as_string(v), "[\"a\",\"b\",\"c\"]");
}

#[test]
fn collected_text_is_the_characters_in_order() {
    let mut v: Vec<char> = Vec::new();
    push_literal(&mut v, "héllo ");
    push_literal(&mut v, "wörld");
    assert_eq!(as_string(v), "héllo wörld");
}

use prompt_enhancer::json::{lookup, parse_http_response, parse_json, JsonValue};
use prompt_enhancer::text::{decimal_u16, decimal_u64, eq_ignore_ascii_case, spaces, str_eq};

#[test]
fn parse_json_builds_the_plain_model() {
    let v = parse_json("{\"a\": \"b\", \"n\": 3, \"t\": true, \"z\": null, \"l\": [1]}")
        .expect("valid json");
    match &v {
        JsonValue::Object(entries) => {
            assert_eq!(entries.len(), 5);
            assert!(matches!(lookup(entries, "a"), Some(JsonValue::Text(s)) if s == "b"));
            assert!(matches!(lookup(entries, "n"), Some(JsonValue::Number)));
            assert!(matches!(lookup(entries, "t"), Some(JsonValue::Bool(true))));
            assert!(matches!(lookup(entries, "z"), Some(JsonValue::Null)));
            assert!(matches!(lookup(entries, "l"), Some(JsonValue::Array(_))));
            assert!(lookup(entries, "missing").is_none());
        },
        _ => panic!("expected an object"),
    }
}

#[test]
fn parse_json_rejects_bad_syntax() {
    assert!(parse_json("{not json").is_none());
    assert!(parse_json("").is_none());
}

#[test]
fn response_schema_accepts_and_refuses() {
    let v = parse_json("{\"enhanced_prompt\": \"p\"}").expect("valid");
    let r = parse_http_response(&v).expect("conforms");
    assert_eq!(r.enhanced_prompt.as_deref(), Some("p"));
    assert!(r.error.is_none());

    let v = parse_json("{\"enhanced_prompt\": null, \"error\": {\"code\": \"timeout\"}}")
        .expect("valid");
    let r = parse_http_response(&v).expect("conforms");
    assert!(r.enhanced_prompt.is_none());
    let e = r.error.expect("error object");
    assert_eq!(e.code.as_deref(), Some("timeout"));
    assert!(e.message.is_none());

    // a mistyped field refuses the whole body, as its deserialization would
    let v = parse_json("{\"enhanced_prompt\": 7}").expect("valid json");
    assert!(parse_http_response(&v).is_none());
    let v = parse_json("{\"error\": \"nope\"}").expect("valid json");
    assert!(parse_http_response(&v).is_none());
    let v = parse_json("[1, 2]").expect("valid json");
    assert!(parse_http_response(&v).is_none());
}

#[test]
fn decimal_renderings() {
    assert_eq!(decimal_u16(0), "0");
    assert_eq!(decimal_u16(7), "7");
    assert_eq!(decimal_u16(504), "504");
    assert_eq!(decimal_u16(65535), "65535");
    assert_eq!(decimal_u64(0), "0");
    assert_eq!(decimal_u64(1000), "1000");
    assert_eq!(decimal_u64(18446744073709551615), "18446744073709551615");
}

#[test]
fn case_insensitive_comparison() {
    assert!(eq_ignore_ascii_case("Draft_Too_Large", "draft_too_large"));
    assert!(eq_ignore_ascii_case("", ""));
    assert!(!eq_ignore_ascii_case("a", "ab"));
    assert!(!eq_ignore_ascii_case("abc", "abd"));
    // only ASCII letters fold
    assert!(!eq_ignore_ascii_case("é", "É"));
}

#[test]
fn exact_comparison_and_spaces() {
    assert!(str_eq("abc", "abc"));
    assert!(!str_eq("abc", "abd"));
    assert!(!str_eq("abc", "ab"));
    assert_eq!(spaces(0), "");
    assert_eq!(spaces(3), "   ");
}

use serde_json::{Number, Value};
use tray_shell::relay::{relay, relay_parsed, CONTENT_FIELD};

fn object(members: &[(&str, Value)]) -> Value {
    let mut map = serde_json::Map::new();
    for (key, value) in members {
        map.insert(key.to_string(), value.clone());
    }
    Value::Object(map)
}

fn text(s: &str) -> Value {
    Value::String(s.to_string())
}

#[test]
fn content_field_name() {
    assert_eq!(CONTENT_FIELD, "content");
}

#[test]
fn success_payload_is_passed_on_whole() {
    let arrived = r#"{"title":"T","content":"some text","url":"https://example.com/","attempt":3}"#;
    let expected = object(&[
        ("title", text("T")),
        ("content", text("some text")),
        ("url", text("https://example.com/")),
        ("attempt", Value::Number(Number::from(3u32))),
    ]);
    assert_eq!(relay(arrived), Some(expected));
}

#[test]
fn failure_payload_is_passed_on_whole() {
    let arrived = r#"{"title":"extraction failed","content":"nothing","url":"u","error":true}"#;
    let expected = object(&[
        ("title", text("extraction failed")),
        ("content", text("nothing")),
        ("url", text("u")),
        ("error", Value::Bool(true)),
    ]);
    assert_eq!(relay(arrived), Some(expected));
}

#[test]
fn empty_content_is_still_a_string() {
    assert_eq!(relay(r#"{"content":""}"#), Some(object(&[("content", text(""))])));
}

#[test]
fn payload_without_content_is_dropped() {
    assert_eq!(relay(r#"{"title":"T","url":"u","attempt":1}"#), None);
    assert_eq!(relay("{}"), None);
    assert_eq!(relay(r#"{"Content":"wrong case"}"#), None);
}

#[test]
fn content_that_is_no_string_is_dropped() {
    for arrived in [
        r#"{"content":null}"#,
        r#"{"content":true}"#,
        r#"{"content":42}"#,
        r#"{"content":["a"]}"#,
        r#"{"content":{"content":"nested"}}"#,
    ] {
        assert_eq!(relay(arrived), None, "{}", arrived);
    }
}

#[test]
fn payload_that_is_no_object_is_dropped() {
    for arrived in [r#""content""#, r#"["content"]"#, "null", "7", "true"] {
        assert_eq!(relay(arrived), None, "{}", arrived);
    }
}

#[test]
fn text_that_is_no_json_is_dropped() {
    for arrived in ["", "{", r#"{"content":"a""#, "content", r#"{"content":"a"} trailing"#] {
        assert_eq!(relay(arrived), None, "{}", arrived);
    }
}

#[test]
fn relay_parsed_decides_on_the_value() {
    let good = object(&[("content", text("x")), ("extra", Value::Null)]);
    assert_eq!(relay_parsed(Some(good.clone())), Some(good));
    assert_eq!(relay_parsed(Some(object(&[("content", Value::Bool(false))]))), None);
    assert_eq!(relay_parsed(Some(object(&[("title", text("content"))]))), None);
    assert_eq!(relay_parsed(Some(text("content"))), None);
    assert_eq!(relay_parsed(Some(Value::Array(vec![text("content")]))), None);
    assert_eq!(relay_parsed(None), None);
}

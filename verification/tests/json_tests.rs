use novel_sources::json::{as_str, member, JsonValue};

fn s(t: &str) -> String {
    t.to_string()
}

#[test]
fn members_and_strings_are_looked_up_like_serde_json_indexing() {
    let doc = JsonValue::Object(vec![
        (s("name"), JsonValue::String(s("Chapter 1"))),
        (s("count"), JsonValue::Number(s("3"))),
        (s("data"), JsonValue::Object(vec![(s("chapters"), JsonValue::Array(vec![]))])),
    ]);
    assert_eq!(as_str(member(&doc, "name")).as_deref(), Some("Chapter 1"));
    assert_eq!(as_str(member(&doc, "count")), None);
    assert_eq!(as_str(member(&doc, "missing")), None);
    assert!(matches!(member(&doc, "data").and_then(|d| member(d, "chapters")), Some(JsonValue::Array(v)) if v.is_empty()));
    assert!(member(&JsonValue::Null, "data").is_none());
    assert!(member(&JsonValue::Array(vec![JsonValue::Null]), "0").is_none());
}

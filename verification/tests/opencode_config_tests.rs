use opencode_draft::json::JsonValue;
use opencode_draft::opencode_config::{get_current_model, set_current_model};

fn s(t: &str) -> JsonValue {
    JsonValue::Str(t.to_string())
}

fn obj(entries: Vec<(&str, JsonValue)>) -> JsonValue {
    JsonValue::Object(entries.into_iter().map(|(k, v)| (k.to_string(), v)).collect())
}

fn at<'a>(v: &'a JsonValue, path: &[&str]) -> Option<&'a JsonValue> {
    let mut cur = v;
    for key in path {
        cur = cur.get(key)?;
    }
    Some(cur)
}

#[test]
fn current_model_helpers_read_and_update_only_target_provider() {
    let mut config = obj(vec![(
        "provider",
        obj(vec![
            ("demo", obj(vec![("npm", s("@ai-sdk/openai-compatible")), ("currentModel", s("old"))])),
            ("other", obj(vec![("npm", s("@ai-sdk/openai-compatible")), ("currentModel", s("kept"))])),
        ]),
    )]);

    assert_eq!(get_current_model(&config, "demo"), Some("old".to_string()));
    assert!(set_current_model(&mut config, "demo", "new").is_ok());

    assert_eq!(at(&config, &["provider", "demo", "currentModel"]), Some(&s("new")));
    assert_eq!(at(&config, &["provider", "other", "currentModel"]), Some(&s("kept")));
}

use opencode_draft::draft::OpenCodeProviderDraft;
use opencode_draft::json::{JsonNumber, JsonValue};
use opencode_draft::provider::{OpenCodeModelDraft, Provider};
use indexmap::IndexMap;

fn s(t: &str) -> JsonValue {
    JsonValue::Str(t.to_string())
}

fn obj(entries: Vec<(&str, JsonValue)>) -> JsonValue {
    JsonValue::Object(entries.into_iter().map(|(k, v)| (k.to_string(), v)).collect())
}

fn num(n: u64) -> JsonValue {
    JsonValue::Number(JsonNumber::PosInt(n))
}

fn at<'a>(v: &'a JsonValue, path: &[&str]) -> Option<&'a JsonValue> {
    let mut cur = v;
    for key in path {
        cur = cur.get(key)?;
    }
    Some(cur)
}

fn draft() -> OpenCodeProviderDraft {
    let mut models_by_id = IndexMap::new();
    models_by_id.insert(
        "gpt-4.1".to_string(),
        OpenCodeModelDraft {
            model_id: "gpt-4.1".to_string(),
            model_name: "GPT 4.1".to_string(),
            input_limit: Some(128000),
            output_limit: Some(8192),
            original_model_id: Some("gpt-4.1".to_string()),
            extra: obj(vec![]),
        },
    );
    OpenCodeProviderDraft {
        provider_id: "demo".to_string(),
        name: "Demo".to_string(),
        base_url: "https://api.example.com/v1".to_string(),
        api_key: "sk-demo".to_string(),
        npm: "@ai-sdk/openai-compatible".to_string(),
        models_by_id,
        current_model: "gpt-4.1".to_string(),
        dirty: false,
        last_loaded_from_db: obj(vec![("provider", s("demo"))]),
    }
}

#[test]
fn opencode_provider_draft_tracks_model_crud_and_current_model_fallback() {
    let mut draft = draft();

    assert_eq!(draft.model_count(), 1);
    assert!(!draft.is_dirty());

    draft
        .add_model(OpenCodeModelDraft::new("gpt-4o".to_string()))
        .expect("unique model should be added");
    assert!(draft.has_model("gpt-4o"));
    assert!(draft.is_dirty());

    let err = draft
        .add_model(OpenCodeModelDraft::new("gpt-4o".to_string()))
        .expect_err("duplicate model id should be rejected");
    assert!(err.contains("Duplicated model id"));

    draft.set_dirty(false);
    let removed = draft
        .remove_model("gpt-4.1")
        .expect("model should be removed");
    assert_eq!(removed.model_id, "gpt-4.1");
    assert_eq!(draft.current_model, "gpt-4o");
    assert!(draft.is_dirty());
}

#[test]
fn opencode_provider_draft_removing_current_model_uses_ascii_minimum_fallback() {
    let mut draft = draft();
    draft
        .add_model(OpenCodeModelDraft::new("z-model".to_string()))
        .expect("add later model");
    draft
        .add_model(OpenCodeModelDraft::new("a-model".to_string()))
        .expect("add ascii-first model");
    draft.set_dirty(false);

    draft
        .remove_model("gpt-4.1")
        .expect("current model should be removed");

    assert_eq!(draft.current_model, "a-model");
    assert!(draft.is_dirty());
}

#[test]
fn opencode_provider_draft_serialization_removes_stale_current_model_when_empty() {
    let mut draft = draft();
    draft.last_loaded_from_db = obj(vec![
        ("currentModel", s("gpt-4.1")),
        ("models", obj(vec![("gpt-4.1", obj(vec![("name", s("GPT 4.1"))]))])),
    ]);
    draft.remove_model("gpt-4.1").expect("remove only model");

    let settings = draft.to_settings_config();

    assert!(settings.get("currentModel").is_none());
    assert_eq!(settings.get("models"), Some(&obj(vec![])));
}

#[test]
fn opencode_provider_draft_rename_is_atomic_and_repairs_current_model() {
    let mut draft = draft();

    draft
        .rename_model("gpt-4.1", "gpt-5.4".to_string())
        .expect("rename should succeed");

    assert!(!draft.has_model("gpt-4.1"));
    assert!(draft.has_model("gpt-5.4"));
    assert_eq!(draft.current_model, "gpt-5.4");
    assert_eq!(
        draft
            .models_by_id
            .get("gpt-5.4")
            .and_then(|model| model.original_model_id.as_deref()),
        Some("gpt-4.1")
    );
}

#[test]
fn opencode_provider_draft_serialization_preserves_unmanaged_settings() {
    let provider = Provider::with_id(
        "demo".to_string(),
        "Demo".to_string(),
        obj(vec![
            ("npm", s("@ai-sdk/openai-compatible")),
            ("name", s("upstream-name")),
            (
                "options",
                obj(vec![
                    ("baseURL", s("https://api.example.com/v1")),
                    ("apiKey", s("sk-old")),
                    ("headers", obj(vec![("X-Test", s("1"))])),
                    ("timeout", num(30)),
                ]),
            ),
            (
                "models",
                obj(vec![(
                    "gpt-4.1",
                    obj(vec![
                        ("name", s("GPT 4.1")),
                        ("options", obj(vec![("reasoningEffort", s("medium"))])),
                    ]),
                )]),
            ),
            ("currentModel", s("gpt-4.1")),
        ]),
        None,
    );
    let mut draft = OpenCodeProviderDraft::from_provider(&provider);

    draft.api_key = "sk-new".to_string();
    let settings = draft.to_settings_config();

    assert_eq!(at(&settings, &["name"]), Some(&s("upstream-name")));
    assert_eq!(at(&settings, &["options", "apiKey"]), Some(&s("sk-new")));
    assert_eq!(at(&settings, &["options", "headers", "X-Test"]), Some(&s("1")));
    assert_eq!(at(&settings, &["options", "timeout"]), Some(&num(30)));
    assert_eq!(
        at(&settings, &["models", "gpt-4.1", "options", "reasoningEffort"]),
        Some(&s("medium"))
    );
}

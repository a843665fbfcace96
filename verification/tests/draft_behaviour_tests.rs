use indexmap::IndexMap;
use opencode_draft::draft::OpenCodeProviderDraft;
use opencode_draft::form::ProviderAddFormState;
use opencode_draft::json::{JsonNumber, JsonValue};
use opencode_draft::provider::{OpenCodeModelDraft, Provider};

fn s(t: &str) -> JsonValue {
    JsonValue::Str(t.to_string())
}

fn obj(entries: Vec<(&str, JsonValue)>) -> JsonValue {
    JsonValue::Object(entries.into_iter().map(|(k, v)| (k.to_string(), v)).collect())
}

fn num(n: u64) -> JsonValue {
    JsonValue::Number(JsonNumber::PosInt(n))
}

fn at<'a>(v: &'a JsonValue, path: &[&str]) -> Option<&'a JsonValue> {
    let mut cur = v;
    for key in path {
        cur = cur.get(key)?;
    }
    Some(cur)
}

fn keys(v: &JsonValue) -> Vec<String> {
    match v {
        JsonValue::Object(o) => o.iter().map(|(k, _)| k.clone()).collect(),
        _ => Vec::new(),
    }
}

fn model(id: &str, name: &str, input: Option<u64>, output: Option<u64>) -> OpenCodeModelDraft {
    OpenCodeModelDraft {
        model_id: id.to_string(),
        model_name: name.to_string(),
        input_limit: input,
        output_limit: output,
        original_model_id: Some(id.to_string()),
        extra: obj(vec![]),
    }
}

fn empty_draft() -> OpenCodeProviderDraft {
    OpenCodeProviderDraft {
        provider_id: "p".to_string(),
        name: "P".to_string(),
        base_url: String::new(),
        api_key: String::new(),
        npm: "@ai-sdk/openai-compatible".to_string(),
        models_by_id: IndexMap::new(),
        current_model: String::new(),
        dirty: false,
        last_loaded_from_db: obj(vec![]),
    }
}

#[test]
fn add_model_to_blank_current_makes_first_model_current() {
    let mut d = empty_draft();
    d.current_model = "   ".to_string();
    d.add_model(model("b", "B", None, None)).unwrap();
    assert_eq!(d.current_model, "b");
    d.add_model(model("a", "A", None, None)).unwrap();
    assert_eq!(d.current_model, "b");
    assert_eq!(d.model_count(), 2);
}

#[test]
fn duplicate_add_changes_nothing() {
    let mut d = empty_draft();
    d.add_model(model("a", "A", None, None)).unwrap();
    d.set_dirty(false);
    let err = d.add_model(model("a", "Other", None, None)).unwrap_err();
    assert_eq!(err, "Duplicated model id `a`");
    assert!(!d.is_dirty());
    assert_eq!(d.models_by_id.get("a").unwrap().model_name, "A");
}

#[test]
fn remove_unknown_model_changes_nothing() {
    let mut d = empty_draft();
    d.add_model(model("a", "A", None, None)).unwrap();
    d.set_dirty(false);
    assert!(d.remove_model("zzz").is_none());
    assert!(!d.is_dirty());
    assert_eq!(d.model_count(), 1);
}

#[test]
fn removing_last_current_model_leaves_empty_current() {
    let mut d = empty_draft();
    d.add_model(model("a", "A", None, None)).unwrap();
    assert_eq!(d.current_model, "a");
    d.remove_model("a").unwrap();
    assert_eq!(d.current_model, "");
}

#[test]
fn removing_other_model_keeps_current_and_order() {
    let mut d = empty_draft();
    for id in ["m1", "m2", "m3"] {
        d.add_model(model(id, id, None, None)).unwrap();
    }
    d.remove_model("m2").unwrap();
    assert_eq!(d.current_model, "m1");
    let ids: Vec<&String> = d.models_by_id.keys().collect();
    assert_eq!(ids, vec!["m1", "m3"]);
}

#[test]
fn smallest_remaining_id_uses_code_point_order() {
    let mut d = empty_draft();
    for id in ["cur", "b-model", "B-model", "a"] {
        d.add_model(model(id, id, None, None)).unwrap();
    }
    d.remove_model("cur").unwrap();
    assert_eq!(d.current_model, "B-model");
}

#[test]
fn rename_errors_leave_draft_unchanged() {
    let mut d = empty_draft();
    d.add_model(model("a", "A", None, None)).unwrap();
    d.add_model(model("b", "B", None, None)).unwrap();
    d.set_dirty(false);
    assert_eq!(d.rename_model("a", "   ".to_string()), Err("Model ID is required".to_string()));
    assert_eq!(d.rename_model("a", " b ".to_string()), Err("Duplicated model id `b`".to_string()));
    assert_eq!(d.rename_model("zz", "c".to_string()), Err("Model `zz` not found".to_string()));
    assert!(!d.is_dirty());
    let ids: Vec<&String> = d.models_by_id.keys().collect();
    assert_eq!(ids, vec!["a", "b"]);
}

#[test]
fn rename_trims_and_moves_entry_to_end() {
    let mut d = empty_draft();
    d.add_model(model("a", "A", None, None)).unwrap();
    d.add_model(model("b", "B", None, None)).unwrap();
    d.models_by_id.get_mut("a").unwrap().original_model_id = None;
    d.rename_model("a", "  z  ".to_string()).unwrap();
    let ids: Vec<&String> = d.models_by_id.keys().collect();
    assert_eq!(ids, vec!["b", "z"]);
    let z = d.models_by_id.get("z").unwrap();
    assert_eq!(z.model_id, "z");
    assert_eq!(z.original_model_id.as_deref(), Some("a"));
    assert_eq!(d.current_model, "z");
    assert!(d.is_dirty());
}

#[test]
fn rename_to_same_id_keeps_original_id() {
    let mut d = empty_draft();
    d.add_model(model("a", "A", None, None)).unwrap();
    d.models_by_id.get_mut("a").unwrap().original_model_id = Some("first".to_string());
    d.rename_model("a", "a".to_string()).unwrap();
    let a = d.models_by_id.get("a").unwrap();
    assert_eq!(a.original_model_id.as_deref(), Some("first"));
}

#[test]
fn validate_reports_each_error() {
    let mut d = empty_draft();
    assert_eq!(d.validate_for_save(), Ok(()));
    d.add_model(model("a", "A", Some(1), Some(4294967295))).unwrap();
    assert_eq!(d.validate_for_save(), Ok(()));
    d.models_by_id.get_mut("a").unwrap().input_limit = Some(0);
    assert_eq!(d.validate_for_save(), Err("Must be positive integer".to_string()));
    d.models_by_id.get_mut("a").unwrap().input_limit = Some(4294967296);
    assert_eq!(d.validate_for_save(), Err("Must be positive integer".to_string()));
    d.models_by_id.get_mut("a").unwrap().input_limit = None;
    d.models_by_id.get_mut("a").unwrap().model_id = " ".to_string();
    assert_eq!(d.validate_for_save(), Err("Model ID is required".to_string()));
    d.models_by_id.get_mut("a").unwrap().model_id = "a".to_string();
    d.current_model = "ghost".to_string();
    assert_eq!(d.validate_for_save(), Err("Current model `ghost` is not configured".to_string()));
    d.current_model = "  ".to_string();
    assert_eq!(d.validate_for_save(), Ok(()));
}

#[test]
fn from_form_trims_and_defaults_npm() {
    let mut form = ProviderAddFormState::new();
    form.id.set("  demo ");
    form.name.set(" Demo ");
    form.opencode_base_url.set(" https://x ");
    form.opencode_api_key.set(" k ");
    let d = OpenCodeProviderDraft::from_form(&form);
    assert_eq!(d.provider_id, "demo");
    assert_eq!(d.name, "Demo");
    assert_eq!(d.base_url, "https://x");
    assert_eq!(d.api_key, "k");
    assert_eq!(d.npm, "@ai-sdk/openai-compatible");
    assert_eq!(d.model_count(), 0);
    assert_eq!(d.current_model, "");
    assert!(!d.is_dirty());
    assert_eq!(d.last_loaded_from_db, obj(vec![]));
    form.opencode_npm_package.set(" pkg ");
    assert_eq!(OpenCodeProviderDraft::from_form(&form).npm, "pkg");
}

#[test]
fn apply_form_base_fields_marks_dirty_only_on_change() {
    let mut form = ProviderAddFormState::new();
    form.id.set("p");
    form.name.set("P");
    let mut d = empty_draft();
    d.apply_form_base_fields(&form);
    assert!(!d.is_dirty());
    form.name.set("Q ");
    d.apply_form_base_fields(&form);
    assert!(d.is_dirty());
    assert_eq!(d.name, "Q");
}

#[test]
fn serialization_writes_names_limits_and_drops_empty_values() {
    let mut d = empty_draft();
    d.last_loaded_from_db = obj(vec![
        ("options", obj(vec![("baseURL", s("old")), ("apiKey", s("old-key"))])),
        ("currentModel", s("stale")),
        ("keep", num(7)),
    ]);
    let mut m = model("gpt-4o", "  ", Some(10), None);
    m.extra = obj(vec![("limit", num(1)), ("options", obj(vec![("t", num(1))]))]);
    d.add_model(m).unwrap();
    d.add_model(model("mini", "Mini", None, None)).unwrap();
    let out = d.to_settings_config();
    assert_eq!(at(&out, &["keep"]), Some(&num(7)));
    assert_eq!(at(&out, &["npm"]), Some(&s("@ai-sdk/openai-compatible")));
    assert!(at(&out, &["options"]).is_none());
    assert_eq!(at(&out, &["models", "gpt-4o", "name"]), Some(&s("GPT-4O")));
    assert_eq!(at(&out, &["models", "gpt-4o", "limit"]), Some(&obj(vec![("context", num(10))])));
    assert_eq!(at(&out, &["models", "gpt-4o", "options", "t"]), Some(&num(1)));
    assert_eq!(at(&out, &["models", "mini", "name"]), Some(&s("Mini")));
    assert!(at(&out, &["models", "mini", "limit"]).is_none());
    assert_eq!(at(&out, &["currentModel"]), Some(&s("gpt-4o")));
    assert_eq!(keys(at(&out, &["models"]).unwrap()), vec!["gpt-4o", "mini"]);
}

#[test]
fn serialization_then_loading_gives_back_the_draft() {
    let mut d = empty_draft();
    d.base_url = "https://b".to_string();
    d.api_key = "key".to_string();
    d.npm = "pkg".to_string();
    d.last_loaded_from_db = obj(vec![("options", obj(vec![("timeout", num(3))]))]);
    d.add_model(model("x", "X", Some(5), Some(6))).unwrap();
    d.add_model(model("y", "", None, Some(2))).unwrap();
    d.current_model = "y".to_string();
    let out = d.to_settings_config();
    let back = OpenCodeProviderDraft::from_provider(&Provider::with_id("p".to_string(), "P".to_string(), out, None));
    assert_eq!(back.npm, "pkg");
    assert_eq!(back.base_url, "https://b");
    assert_eq!(back.api_key, "key");
    assert_eq!(back.current_model, "y");
    let ids: Vec<&String> = back.models_by_id.keys().collect();
    assert_eq!(ids, vec!["x", "y"]);
    let x = back.models_by_id.get("x").unwrap();
    assert_eq!((x.model_name.as_str(), x.input_limit, x.output_limit), ("X", Some(5), Some(6)));
    let y = back.models_by_id.get("y").unwrap();
    assert_eq!((y.model_name.as_str(), y.input_limit, y.output_limit), ("Y", None, Some(2)));
    assert!(!back.is_dirty());
}

#[test]
fn loading_defaults_and_first_model_as_current() {
    let settings = obj(vec![
        ("npm", num(3)),
        ("options", s("not an object")),
        (
            "models",
            obj(vec![
                ("m1", obj(vec![("limit", obj(vec![("context", num(9)), ("output", s("x"))])), ("extra", num(1))])),
                ("m2", s("plain")),
            ]),
        ),
    ]);
    let d = OpenCodeProviderDraft::from_provider(&Provider::with_id("id".to_string(), "N".to_string(), settings, None));
    assert_eq!(d.npm, "@ai-sdk/openai-compatible");
    assert_eq!(d.base_url, "");
    assert_eq!(d.api_key, "");
    assert_eq!(d.current_model, "m1");
    let m1 = d.models_by_id.get("m1").unwrap();
    assert_eq!(m1.model_name, "m1");
    assert_eq!(m1.input_limit, Some(9));
    assert_eq!(m1.output_limit, None);
    assert_eq!(m1.original_model_id.as_deref(), Some("m1"));
    assert_eq!(m1.extra, obj(vec![("extra", num(1))]));
    let m2 = d.models_by_id.get("m2").unwrap();
    assert_eq!(m2.extra, obj(vec![]));
}

#[test]
fn loading_and_saving_back_keeps_every_setting() {
    let model = |name: &str, limit: JsonValue| obj(vec![("limit", limit), ("name", s(name)), ("reasoningEffort", s("high"))]);
    let settings = obj(vec![
        ("npm", s("@ai-sdk/openai-compatible")),
        ("options", obj(vec![("timeout", num(30)), ("baseURL", s("https://api.example.com/v1")), ("apiKey", s("sk"))])),
        ("models", obj(vec![
            ("gpt-4.1", model("GPT 4.1", obj(vec![("output", num(8192)), ("context", num(128000))]))),
            ("o3", model("O3", obj(vec![("context", num(200000))]))),
        ])),
        ("currentModel", s("o3")),
        ("name", s("upstream")),
    ]);
    let d = OpenCodeProviderDraft::from_provider(&Provider::with_id("p".to_string(), "P".to_string(), settings.duplicate(), None));
    let out = d.to_settings_config();
    let mut got = keys(&out);
    let mut want = keys(&settings);
    got.sort();
    want.sort();
    assert_eq!(got, want);
    for k in ["npm", "options", "currentModel", "name"] {
        assert_eq!(out.get(k), settings.get(k), "{k}");
    }
    assert_eq!(keys(at(&out, &["models"]).unwrap()), vec!["gpt-4.1", "o3"]);
    for id in ["gpt-4.1", "o3"] {
        for k in ["name", "reasoningEffort"] {
            assert_eq!(at(&out, &["models", id, k]), at(&settings, &["models", id, k]));
        }
        for k in ["context", "output"] {
            assert_eq!(at(&out, &["models", id, "limit", k]), at(&settings, &["models", id, "limit", k]));
        }
    }
}

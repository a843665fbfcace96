use opencode_draft::form::{ClaudeApiFormat, CodexWireApi, GeminiAuthType, ProviderAddFormState};
use opencode_draft::form_load::{
    parse_claude_api_format, populate_claude_form, populate_codex_form, populate_form_from_provider,
    populate_gemini_form, populate_openclaw_form, populate_opencode_form, AppType, CodexConfigSnippet,
    OPENCLAW_DEFAULT_API_PROTOCOL,
};
use opencode_draft::json::{JsonNumber, JsonValue};
use opencode_draft::opencode_config::{
    default_opencode_config, get_current_model, get_mcp_servers, get_opencode_config_path, get_opencode_dir,
    get_providers, parse_opencode_config, remove_mcp_server, remove_provider, set_current_model, set_mcp_server, set_provider,
    AppError,
};
use opencode_draft::provider::{Provider, ProviderMeta};

fn s(t: &str) -> JsonValue {
    JsonValue::Str(t.to_string())
}

fn obj(entries: Vec<(&str, JsonValue)>) -> JsonValue {
    JsonValue::Object(entries.into_iter().map(|(k, v)| (k.to_string(), v)).collect())
}

fn num(n: u64) -> JsonValue {
    JsonValue::Number(JsonNumber::PosInt(n))
}

fn at<'a>(v: &'a JsonValue, path: &[&str]) -> Option<&'a JsonValue> {
    let mut cur = v;
    for key in path {
        cur = cur.get(key)?;
    }
    Some(cur)
}

fn provider(settings: JsonValue) -> Provider {
    Provider::with_id("p".to_string(), "P".to_string(), settings, None)
}

#[test]
fn opencode_dir_prefers_test_then_override_then_home() {
    assert_eq!(get_opencode_dir(Some("/t".to_string()), Some("/o".to_string()), Some("/h".to_string())), "/t");
    assert_eq!(get_opencode_dir(None, Some("/o".to_string()), Some("/h".to_string())), "/o");
    assert_eq!(get_opencode_dir(None, None, Some("/home/u".to_string())), "/home/u/.config/opencode");
    assert_eq!(get_opencode_dir(None, None, None), ".config/opencode");
    assert_eq!(get_opencode_config_path("/home/u/.config/opencode"), "/home/u/.config/opencode/opencode.json");
}

#[test]
fn config_text_is_parsed_in_order_with_the_last_repeated_key() {
    assert_eq!(parse_opencode_config(None).unwrap(), default_opencode_config());
    let parsed = parse_opencode_config(Some(
        r#"{"provider": {"demo": {"currentModel": "old", "n": -3, "on": true}}, "mcp": null, "mcp": [1.5]}"#,
    ))
    .unwrap();
    assert_eq!(
        at(&parsed, &["provider", "demo"]),
        Some(&obj(vec![
            ("currentModel", s("old")),
            ("n", JsonValue::Number(JsonNumber::NegInt(-3))),
            ("on", JsonValue::Bool(true)),
        ]))
    );
    assert_eq!(
        parsed.get("mcp"),
        Some(&JsonValue::Array(vec![JsonValue::Number(JsonNumber::FloatBits(1.5f64.to_bits()))]))
    );
    match &parsed {
        JsonValue::Object(o) => assert_eq!(o.len(), 2),
        _ => panic!("expected an object"),
    }
    assert!(parse_opencode_config(Some("{ not json")).is_err());
    assert!(parse_opencode_config(Some("")).is_err());
}

#[test]
fn default_config_holds_only_the_schema() {
    assert_eq!(default_opencode_config(), obj(vec![("$schema", s("https://opencode.ai/config.json"))]));
}

#[test]
fn provider_helpers_set_read_and_remove() {
    let mut config = default_opencode_config();
    assert!(get_providers(&config).is_empty());
    set_provider(&mut config, "a", obj(vec![("npm", s("x"))]));
    set_provider(&mut config, "b", num(1));
    set_provider(&mut config, "a", obj(vec![("npm", s("y"))]));
    let providers = get_providers(&config);
    assert_eq!(providers.len(), 2);
    assert_eq!(providers[0], ("a".to_string(), obj(vec![("npm", s("y"))])));
    assert_eq!(at(&config, &["$schema"]), Some(&s("https://opencode.ai/config.json")));
    remove_provider(&mut config, "a");
    let providers = get_providers(&config);
    assert_eq!(providers, vec![("b".to_string(), num(1))]);
    remove_provider(&mut config, "missing");
    assert_eq!(get_providers(&config).len(), 1);
}

#[test]
fn set_provider_on_null_config_creates_the_map() {
    let mut config = JsonValue::Null;
    set_provider(&mut config, "a", num(2));
    assert_eq!(config, obj(vec![("provider", obj(vec![("a", num(2))]))]));
}

#[test]
fn mcp_helpers_set_read_and_remove() {
    let mut config = obj(vec![("mcp", s("not a map"))]);
    set_mcp_server(&mut config, "x", num(1));
    assert_eq!(at(&config, &["mcp"]), Some(&s("not a map")));
    assert!(get_mcp_servers(&config).is_empty());
    let mut config = obj(vec![]);
    set_mcp_server(&mut config, "x", num(1));
    set_mcp_server(&mut config, "y", num(2));
    assert_eq!(get_mcp_servers(&config).len(), 2);
    remove_mcp_server(&mut config, "x");
    assert_eq!(get_mcp_servers(&config), vec![("y".to_string(), num(2))]);
}

#[test]
fn set_current_model_creates_missing_provider_and_rejects_bad_map() {
    let mut config = obj(vec![]);
    assert!(set_current_model(&mut config, "new", "m").is_ok());
    assert_eq!(get_current_model(&config, "new"), Some("m".to_string()));
    let mut config = obj(vec![("provider", obj(vec![("p", s("scalar"))]))]);
    assert!(set_current_model(&mut config, "p", "m").is_ok());
    assert_eq!(at(&config, &["provider", "p"]), Some(&obj(vec![("currentModel", s("m"))])));
    let mut bad = obj(vec![("provider", num(1))]);
    match set_current_model(&mut bad, "p", "m") {
        Err(AppError::Config(msg)) => assert_eq!(msg, "OpenCode provider map is not an object"),
        _ => panic!("expected an error"),
    }
    assert_eq!(bad, obj(vec![("provider", num(1))]));
    assert_eq!(get_current_model(&bad, "p"), None);
}

#[test]
fn opencode_form_orders_models_by_rank_then_id() {
    let settings = obj(vec![
        ("npm", s("pkg")),
        ("options", obj(vec![("apiKey", s("k")), ("baseURL", s("u"))])),
        (
            "models",
            obj(vec![
                ("a", obj(vec![("name", s("A"))])),
                ("b", obj(vec![("limit", obj(vec![("context", num(100))]))])),
                ("c", obj(vec![("options", obj(vec![("x", num(1))])), ("limit", obj(vec![("output", num(7))]))])),
                ("d", obj(vec![])),
            ]),
        ),
    ]);
    let mut form = ProviderAddFormState::new();
    populate_opencode_form(&mut form, &provider(settings));
    let ids: Vec<&str> = form.opencode_models.iter().map(|m| m.model_id.as_str()).collect();
    assert_eq!(ids, vec!["c", "b", "d", "a"]);
    assert_eq!(form.opencode_npm_package.value, "pkg");
    assert_eq!(form.opencode_api_key.value, "k");
    assert_eq!(form.opencode_base_url.value, "u");
    assert_eq!(form.opencode_model_id.value, "c");
    assert_eq!(form.opencode_model_original_id.as_deref(), Some("c"));
    assert_eq!(form.opencode_model_name.value, "c");
    assert_eq!(form.opencode_model_context_limit.value, "");
    assert_eq!(form.opencode_model_output_limit.value, "7");
}

#[test]
fn opencode_form_uses_current_model_fields() {
    let settings = obj(vec![
        ("currentModel", s("b")),
        (
            "models",
            obj(vec![
                ("a", obj(vec![])),
                ("b", obj(vec![("name", s("Bee")), ("limit", obj(vec![("context", num(12345)), ("output", num(0))]))])),
            ]),
        ),
    ]);
    let mut form = ProviderAddFormState::new();
    populate_form_from_provider(&mut form, &AppType::OpenCode, &provider(settings), &CodexConfigSnippet {
        base_url: None,
        model: None,
        wire_api: None,
        requires_openai_auth: None,
        env_key: None,
    });
    assert_eq!(form.opencode_model_id.value, "b");
    assert_eq!(form.opencode_model_id.cursor, 1);
    assert_eq!(form.opencode_model_name.value, "Bee");
    assert_eq!(form.opencode_model_context_limit.value, "12345");
    assert_eq!(form.opencode_model_output_limit.value, "0");
}

#[test]
fn claude_form_reads_env_with_fallbacks() {
    let settings = obj(vec![(
        "env",
        obj(vec![
            ("ANTHROPIC_AUTH_TOKEN", s("tok")),
            ("ANTHROPIC_BASE_URL", s("https://a")),
            ("ANTHROPIC_MODEL", s("main")),
            ("ANTHROPIC_SMALL_FAST_MODEL", s("small")),
            ("ANTHROPIC_DEFAULT_OPUS_MODEL", s("opus")),
        ]),
    )]);
    let mut form = ProviderAddFormState::new();
    populate_claude_form(&mut form, &provider(settings));
    assert_eq!(form.claude_api_key.value, "tok");
    assert_eq!(form.claude_base_url.value, "https://a");
    assert_eq!(form.claude_model.value, "main");
    assert_eq!(form.claude_reasoning_model.value, "");
    assert_eq!(form.claude_haiku_model.value, "small");
    assert_eq!(form.claude_sonnet_model.value, "main");
    assert_eq!(form.claude_opus_model.value, "opus");
    assert_eq!(form.claude_api_format, ClaudeApiFormat::Anthropic);
}

#[test]
fn claude_api_format_sources_in_order() {
    let mut p = provider(obj(vec![("api_format", s("openai_responses")), ("openrouter_compat_mode", JsonValue::Bool(true))]));
    assert_eq!(parse_claude_api_format(&p), ClaudeApiFormat::OpenAiResponses);
    p.meta = Some(ProviderMeta { api_format: Some("openai_chat".to_string()) });
    assert_eq!(parse_claude_api_format(&p), ClaudeApiFormat::OpenAiChat);
    assert_eq!(parse_claude_api_format(&provider(obj(vec![("openrouter_compat_mode", s(" TRUE "))]))), ClaudeApiFormat::OpenAiChat);
    assert_eq!(parse_claude_api_format(&provider(obj(vec![("openrouter_compat_mode", s("yes"))]))), ClaudeApiFormat::Anthropic);
    assert_eq!(parse_claude_api_format(&provider(obj(vec![("openrouter_compat_mode", num(2))]))), ClaudeApiFormat::OpenAiChat);
    assert_eq!(
        parse_claude_api_format(&provider(obj(vec![("openrouter_compat_mode", JsonValue::Number(JsonNumber::NegInt(-1)))]))),
        ClaudeApiFormat::OpenAiChat
    );
    assert_eq!(parse_claude_api_format(&provider(obj(vec![("openrouter_compat_mode", num(0))]))), ClaudeApiFormat::Anthropic);
    assert_eq!(parse_claude_api_format(&provider(obj(vec![]))), ClaudeApiFormat::Anthropic);
}

#[test]
fn gemini_form_reads_key_url_and_model() {
    let mut form = ProviderAddFormState::new();
    populate_gemini_form(&mut form, &provider(obj(vec![(
        "env",
        obj(vec![("GEMINI_API_KEY", s("g")), ("GEMINI_BASE_URL", s("u2")), ("GEMINI_MODEL", s("gm"))]),
    )])));
    assert_eq!(form.gemini_auth_type, GeminiAuthType::ApiKey);
    assert_eq!(form.gemini_api_key.value, "g");
    assert_eq!(form.gemini_base_url.value, "u2");
    assert_eq!(form.gemini_model.value, "gm");
    let mut form = ProviderAddFormState::new();
    populate_gemini_form(&mut form, &provider(obj(vec![(
        "env",
        obj(vec![("GOOGLE_GEMINI_BASE_URL", num(1)), ("GEMINI_BASE_URL", s("u2"))]),
    )])));
    assert_eq!(form.gemini_auth_type, GeminiAuthType::OAuth);
    assert_eq!(form.gemini_base_url.value, "");
    let mut form = ProviderAddFormState::new();
    populate_gemini_form(&mut form, &provider(obj(vec![])));
    assert_eq!(form.gemini_auth_type, GeminiAuthType::OAuth);
}

#[test]
fn codex_form_applies_snippet_only_with_config_text() {
    let snippet = CodexConfigSnippet {
        base_url: Some("https://c".to_string()),
        model: Some("gpt".to_string()),
        wire_api: Some(CodexWireApi::Chat),
        requires_openai_auth: Some(true),
        env_key: None,
    };
    let mut form = ProviderAddFormState::new();
    populate_codex_form(&mut form, &provider(obj(vec![("auth", obj(vec![("OPENAI_API_KEY", s("sk"))]))])), &snippet);
    assert_eq!(form.codex_base_url.value, "");
    assert_eq!(form.codex_api_key.value, "sk");
    assert_eq!(form.codex_wire_api, CodexWireApi::Responses);
    populate_codex_form(&mut form, &provider(obj(vec![("config", s("model = \"gpt\""))])), &snippet);
    assert_eq!(form.codex_base_url.value, "https://c");
    assert_eq!(form.codex_model.value, "gpt");
    assert_eq!(form.codex_wire_api, CodexWireApi::Chat);
    assert!(form.codex_requires_openai_auth);
    assert_eq!(form.codex_env_key.value, "");
}

#[test]
fn openclaw_form_reads_first_model() {
    let settings = obj(vec![
        ("apiKey", s("k")),
        ("baseUrl", s("u")),
        ("headers", obj(vec![("User-Agent", s("x"))])),
        (
            "models",
            JsonValue::Array(vec![
                obj(vec![("id", s("m")), ("name", s("M")), ("contextWindow", num(4096))]),
                obj(vec![("id", s("n"))]),
            ]),
        ),
    ]);
    let mut form = ProviderAddFormState::new();
    populate_openclaw_form(&mut form, &provider(settings));
    assert_eq!(form.opencode_api_key.value, "k");
    assert_eq!(form.opencode_base_url.value, "u");
    assert_eq!(form.opencode_npm_package.value, OPENCLAW_DEFAULT_API_PROTOCOL);
    assert!(form.openclaw_user_agent);
    assert_eq!(form.openclaw_models.len(), 2);
    assert_eq!(form.opencode_model_id.value, "m");
    assert_eq!(form.opencode_model_original_id.as_deref(), Some("m"));
    assert_eq!(form.opencode_model_name.value, "M");
    assert_eq!(form.opencode_model_context_limit.value, "4096");
    let mut form = ProviderAddFormState::new();
    populate_openclaw_form(&mut form, &provider(obj(vec![("api", s("anthropic"))])));
    assert_eq!(form.opencode_npm_package.value, "anthropic");
    assert!(!form.openclaw_user_agent);
}

use vstd::prelude::*;
use vstd::string::StringExecFns;
use crate::assoc::lookup;
use crate::form::{
    ClaudeApiFormat, CodexWireApi, GeminiAuthType, ProviderAddFormState, TextInput, is_set_to, set_if,
};
use crate::json::{JVal, JsonValue, jget, jobj, jstr, ju64, ji64, jarr, obj_get, obj_get_str, opt_sref, ov, av, arr_duplicate};
use crate::provider::{ModelView, OpenCodeModelDraft, Provider, opt_str_view};
use crate::draft_json::{model_extra, str_or};
use crate::text::{str_lt, decimal_spec};

verus! {

/// The number of non-empty objects among a model's `limit` and `options`: models that
/// configure more come first in the model list.
pub open spec fn model_rank(v: JVal) -> nat {
    (if jobj(jget(v, "limit"@)) matches Some(l) && l.len() > 0 { 1nat } else { 0nat })
        + (if jobj(jget(v, "options"@)) matches Some(o) && o.len() > 0 { 1nat } else { 0nat })
}

/// The rank of the model stored under `id`: that of the first entry with that id.
pub open spec fn rank_of(ms: Seq<(Seq<char>, JVal)>, id: Seq<char>) -> nat {
    match lookup(ms, id) {
        Some(v) => model_rank(v),
        None => 0,
    }
}

/// Model `a` is listed before model `b`: higher rank first, then the larger id first.
pub open spec fn precedes(ms: Seq<(Seq<char>, JVal)>, a: Seq<char>, b: Seq<char>) -> bool {
    rank_of(ms, a) > rank_of(ms, b) || (rank_of(ms, a) == rank_of(ms, b) && str_lt(b, a))
}

/// The model entry the form list holds for the object `v` stored under `id`: its name
/// only when it is a string, its limits, and its other settings.
pub open spec fn listed_model(id: Seq<char>, v: JVal) -> ModelView {
    let limit = jobj(jget(v, "limit"@));
    ModelView {
        model_id: id,
        model_name: str_or(jstr(jget(v, "name"@)), Seq::empty()),
        input_limit: match limit {
            Some(l) => ju64(lookup(l, "context"@)),
            None => None,
        },
        output_limit: match limit {
            Some(l) => ju64(lookup(l, "output"@)),
            None => None,
        },
        original_model_id: Some(id),
        extra: match v {
            JVal::Object(o) => JVal::Object(model_extra(o)),
            _ => JVal::Object(Seq::empty()),
        },
    }
}

/// The models of a `models` object, in its order.
pub open spec fn listed_models(ms: Seq<(Seq<char>, JVal)>) -> Seq<ModelView> {
    Seq::new(ms.len(), |i: int| listed_model(ms[i].0, ms[i].1))
}

/// The views of a list of model entries.
pub open spec fn models_view(v: Seq<OpenCodeModelDraft>) -> Seq<ModelView> {
    Seq::new(v.len(), |i: int| v[i].mv())
}

/// No model of `s` is listed before one that comes earlier.
pub open spec fn sorted_models(ms: Seq<(Seq<char>, JVal)>, s: Seq<ModelView>) -> bool {
    forall|i: int, j: int| 0 <= i < j < s.len() ==> !precedes(ms, #[trigger] s[j].model_id, #[trigger] s[i].model_id)
}

proof fn lemma_precedes_asymmetric(ms: Seq<(Seq<char>, JVal)>, a: Seq<char>, b: Seq<char>)
    requires
        precedes(ms, a, b),
    ensures
        !precedes(ms, b, a),
{
    if rank_of(ms, a) == rank_of(ms, b) && str_lt(b, a) && str_lt(a, b) {
        crate::text::lemma_str_lt_transitive(a, b, a);
        crate::text::lemma_str_lt_irreflexive(a);
    }
}

proof fn lemma_precedes_transitive(ms: Seq<(Seq<char>, JVal)>, a: Seq<char>, b: Seq<char>, c: Seq<char>)
    requires
        precedes(ms, a, b),
        precedes(ms, b, c),
    ensures
        precedes(ms, a, c),
{
    if rank_of(ms, a) == rank_of(ms, b) && rank_of(ms, b) == rank_of(ms, c) {
        crate::text::lemma_str_lt_transitive(c, b, a);
    }
}

/// The rank of a model object.
fn rank_of_value(v: &JsonValue) -> (r: usize)
    ensures
        r == model_rank(v.jv()),
{
    let mut score: usize = 0;
    match v.get("limit") {
        Some(l) => match l.as_object() {
            Some(o) => {
                if o.len() > 0 {
                    score = score + 1;
                }
                proof { assert(ov(o@).len() == o@.len()); }
            },
            None => {},
        },
        None => {},
    }
    match v.get("options") {
        Some(l) => match l.as_object() {
            Some(o) => {
                if o.len() > 0 {
                    score = score + 1;
                }
                proof { assert(ov(o@).len() == o@.len()); }
            },
            None => {},
        },
        None => {},
    }
    score
}

/// The entry the form list holds for one model object.
fn listed_model_of(id: &String, value: &JsonValue) -> (r: OpenCodeModelDraft)
    ensures
        r.mv() == listed_model(id@, value.jv()),
{
    let mut draft = crate::draft_json::model_from_value(id, value);
    draft.model_name = match value.get("name") {
        Some(v) => match v.as_str() {
            Some(t) => t.clone(),
            None => String::new(),
        },
        None => String::new(),
    };
    draft
}

/// Whether `a` is listed before `b`.
fn precedes_exec(ra: usize, a: &String, rb: usize, b: &String) -> (r: bool)
    ensures
        r == (ra > rb || (ra == rb && str_lt(b@, a@))),
{
    if ra != rb {
        ra > rb
    } else {
        crate::text::string_lt(b, a)
    }
}

/// The models of a `models` object, ordered for the form list: higher rank first, then
/// the larger id first, models that tie keeping their order.
pub fn sorted_model_list(ms: &Vec<(String, JsonValue)>) -> (r: Vec<OpenCodeModelDraft>)
    ensures
        models_view(r@).to_multiset() == listed_models(ov(ms@)).to_multiset(),
        sorted_models(ov(ms@), models_view(r@)),
{
    let ghost m = ov(ms@);
    let mut out: Vec<OpenCodeModelDraft> = Vec::new();
    let mut ranks: Vec<usize> = Vec::new();
    let mut i: usize = 0;
    assert(models_view(out@) =~= listed_models(m).take(0));
    while i < ms.len()
        invariant
            m == ov(ms@),
            i <= ms.len(),
            ranks@.len() == out@.len(),
            forall|k: int| 0 <= k < out@.len() ==> #[trigger] ranks@[k] == rank_of(m, out@[k].model_id@),
            models_view(out@).to_multiset() == listed_models(m).take(i as int).to_multiset(),
            sorted_models(m, models_view(out@)),
        decreases ms.len() - i,
    {
        let id = &ms[i].0;
        let x = listed_model_of(id, &ms[i].1);
        let rx: usize = match obj_get(ms, id.as_str()) {
            Some(v) => rank_of_value(v),
            None => 0,
        };
        assert(rx == rank_of(m, x.model_id@));
        let mut p: usize = 0;
        while p < out.len()
            invariant
                p <= out@.len(),
                ranks@.len() == out@.len(),
                rx == rank_of(m, x.model_id@),
                forall|k: int| 0 <= k < p ==> !precedes(m, x.model_id@, #[trigger] out@[k].model_id@),
                forall|k: int| 0 <= k < out@.len() ==> #[trigger] ranks@[k] == rank_of(m, out@[k].model_id@),
            ensures
                p <= out@.len(),
                forall|k: int| 0 <= k < p ==> !precedes(m, x.model_id@, #[trigger] out@[k].model_id@),
                p < out@.len() ==> precedes(m, x.model_id@, out@[p as int].model_id@),
            decreases out@.len() - p,
        {
            if precedes_exec(rx, &x.model_id, ranks[p], &out[p].model_id) {
                break;
            }
            p = p + 1;
        }
        let ghost old_view = models_view(out@);
        let ghost old_out = out@;
        let ghost old_ranks = ranks@;
        let ghost xv = x.mv();
        let ghost xid = x.model_id@;
        proof {
            assert(p < out@.len() ==> precedes(m, x.model_id@, out@[p as int].model_id@));
        }
        out.insert(p, x);
        ranks.insert(p, rx);
        proof {
            let nv = models_view(out@);
            assert(nv =~= old_view.insert(p as int, xv));
            vstd::seq_lib::to_multiset_insert(old_view, p as int, xv);
            assert(listed_models(m).take(i + 1) =~= listed_models(m).take(i as int).push(listed_models(m)[i as int]));
            vstd::seq_lib::to_multiset_build(listed_models(m).take(i as int), listed_models(m)[i as int]);
            assert(listed_models(m)[i as int] == xv);
            assert forall|a: int, b: int| 0 <= a < b < nv.len() implies !precedes(m, #[trigger] nv[b].model_id, #[trigger] nv[a].model_id) by {
                if b < p {
                    assert(nv[a] == old_view[a] && nv[b] == old_view[b]);
                } else if b == p {
                    assert(nv[a] == old_view[a]);
                    assert(nv[b] == xv);
                    assert(!precedes(m, xv.model_id, out@[a].model_id@));
                } else if a == p {
                    assert(nv[b] == old_view[b - 1]);
                    // x precedes out[p] and out[p] is not after out[b-1]
                    assert(precedes(m, xv.model_id, old_view[p as int].model_id));
                    if precedes(m, old_view[b - 1].model_id, xv.model_id) {
                        lemma_precedes_transitive(m, old_view[b - 1].model_id, xv.model_id, old_view[p as int].model_id);
                        if b - 1 > p {
                            assert(!precedes(m, old_view[b - 1].model_id, old_view[p as int].model_id));
                        } else {
                            lemma_precedes_asymmetric(m, old_view[p as int].model_id, old_view[p as int].model_id);
                        }
                    }
                } else if a < p {
                    assert(nv[a] == old_view[a] && nv[b] == old_view[b - 1]);
                } else {
                    assert(nv[a] == old_view[a - 1] && nv[b] == old_view[b - 1]);
                }
            }
            assert forall|k: int| 0 <= k < out@.len() implies #[trigger] ranks@[k] == rank_of(m, out@[k].model_id@) by {
                if k < p {
                    assert(out@[k] == old_out[k] && ranks@[k] == old_ranks[k]);
                } else if k == p {
                    assert(out@[k].model_id@ == xid);
                } else {
                    assert(out@[k] == old_out[k - 1] && ranks@[k] == old_ranks[k - 1]);
                }
            }
        }
        i = i + 1;
    }
    assert(listed_models(m).take(ms.len() as int) =~= listed_models(m));
    out
}

} // verus!

verus! {

/// The applications a provider can belong to.
#[derive(Clone, Copy, PartialEq, Eq, Debug)]
pub enum AppType {
    Claude,
    Codex,
    Gemini,
    OpenCode,
    OpenClaw,
}

/// The protocol an OpenClaw provider speaks when its settings name none.
pub const OPENCLAW_DEFAULT_API_PROTOCOL: &'static str = "openai-completions";

/// The values a Codex configuration snippet sets.
pub struct CodexConfigSnippet {
    pub base_url: Option<String>,
    pub model: Option<String>,
    pub wire_api: Option<CodexWireApi>,
    pub requires_openai_auth: Option<bool>,
    pub env_key: Option<String>,
}

/// The entries of an object stored under `key`, or none when it is missing or not an object.
pub open spec fn sub_object(s: JVal, key: Seq<char>) -> Option<Seq<(Seq<char>, JVal)>> {
    jobj(jget(s, key))
}

/// The text under `key` among `o`, if it is a string.
pub open spec fn text_in(o: Seq<(Seq<char>, JVal)>, key: Seq<char>) -> Option<Seq<char>> {
    jstr(lookup(o, key))
}

/// The first of three optional values that is present.
pub open spec fn first_of(a: Option<Seq<char>>, b: Option<Seq<char>>, c: Option<Seq<char>>) -> Option<Seq<char>> {
    if a is Some { a } else if b is Some { b } else { c }
}

fn set_opt(t: &mut TextInput, v: Option<&String>)
    ensures
        set_if(*final(t), *old(t), opt_sref(v)),
{
    match v {
        Some(x) => t.set(x.as_str()),
        None => {},
    }
}

fn first_some<'a>(a: Option<&'a String>, b: Option<&'a String>, c: Option<&'a String>) -> (r: Option<&'a String>)
    ensures
        opt_sref(r) == first_of(opt_sref(a), opt_sref(b), opt_sref(c)),
{
    match a {
        Some(x) => Some(x),
        None => match b {
            Some(x) => Some(x),
            None => c,
        },
    }
}

/// The format a raw API-format name stands for.
pub open spec fn api_format_spec(raw: Seq<char>) -> ClaudeApiFormat {
    if raw == "openai_chat"@ {
        ClaudeApiFormat::OpenAiChat
    } else if raw == "openai_responses"@ {
        ClaudeApiFormat::OpenAiResponses
    } else {
        ClaudeApiFormat::Anthropic
    }
}

impl ClaudeApiFormat {
    /// The format named by `raw`; unknown names mean the Anthropic format.
    pub fn from_raw(raw: &str) -> (r: Self)
        ensures
            r == api_format_spec(raw@),
    {
        if crate::text::str_eq(raw, "openai_chat") {
            ClaudeApiFormat::OpenAiChat
        } else if crate::text::str_eq(raw, "openai_responses") {
            ClaudeApiFormat::OpenAiResponses
        } else {
            ClaudeApiFormat::Anthropic
        }
    }
}

/// Whether the OpenRouter compatibility flag is on: `true`, a non-zero integer that fits
/// `i64`, or the text `true` or `1` (trimmed, in any ASCII case).
pub open spec fn compat_flag(v: Option<JVal>) -> bool {
    match v {
        Some(JVal::Bool(b)) => b,
        Some(JVal::Number(n)) => match ji64(Some(JVal::Number(n))) {
            Some(i) => i != 0,
            None => false,
        },
        Some(JVal::Str(t)) => {
            let norm = crate::text::ascii_lower_spec(crate::text::trim_spec(t));
            norm == "true"@ || norm == "1"@
        },
        _ => false,
    }
}

/// The API format of an Anthropic CLI provider: the one recorded beside it, else the one in its
/// settings, else the OpenAI chat format when the OpenRouter compatibility flag is on,
/// else the Anthropic format.
pub open spec fn claude_format_spec(p: Provider) -> ClaudeApiFormat {
    let s = p.settings_config.jv();
    if p.meta is Some && p.meta.unwrap().api_format is Some {
        api_format_spec(p.meta.unwrap().api_format.unwrap()@)
    } else if jstr(jget(s, "api_format"@)) is Some {
        api_format_spec(jstr(jget(s, "api_format"@)).unwrap())
    } else if compat_flag(jget(s, "openrouter_compat_mode"@)) {
        ClaudeApiFormat::OpenAiChat
    } else {
        ClaudeApiFormat::Anthropic
    }
}

/// Reads the API format of an Anthropic CLI provider.
pub fn parse_claude_api_format(provider: &Provider) -> (r: ClaudeApiFormat)
    ensures
        r == claude_format_spec(*provider),
{
    match &provider.meta {
        Some(meta) => match &meta.api_format {
            Some(f) => {
                return ClaudeApiFormat::from_raw(f.as_str());
            },
            None => {},
        },
        None => {},
    }
    match provider.settings_config.get_str("api_format") {
        Some(f) => {
            return ClaudeApiFormat::from_raw(f.as_str());
        },
        None => {},
    }
    let compat_enabled = match provider.settings_config.get("openrouter_compat_mode") {
        Some(JsonValue::Bool(b)) => *b,
        Some(JsonValue::Number(n)) => {
            let x = JsonValue::Number(*n);
            match x.as_i64() {
                Some(i) => i != 0,
                None => false,
            }
        },
        Some(JsonValue::Str(t)) => {
            let trimmed = crate::text::trim_owned(t.as_str());
            let normalized = crate::text::to_ascii_lower(trimmed.as_str());
            crate::text::str_eq(normalized.as_str(), "true") || crate::text::str_eq(normalized.as_str(), "1")
        },
        _ => false,
    };
    if compat_enabled {
        ClaudeApiFormat::OpenAiChat
    } else {
        ClaudeApiFormat::Anthropic
    }
}

/// Fills the Anthropic CLI fields from a provider: the API format always; from its `env`
/// object, when there is one, the token, base URL, model and reasoning model that are
/// strings, and the Haiku, Sonnet and Opus models with their fallbacks.
pub fn populate_claude_form(form: &mut ProviderAddFormState, provider: &Provider)
    ensures
        claude_filled(*old(form), *final(form), *provider),

{
    form.claude_api_format = parse_claude_api_format(provider);
    match provider.settings_config.get_object("env") {
        Some(env) => {
            set_opt(&mut form.claude_api_key, obj_get_str(env, "ANTHROPIC_AUTH_TOKEN"));
            set_opt(&mut form.claude_base_url, obj_get_str(env, "ANTHROPIC_BASE_URL"));
            set_opt(&mut form.claude_model, obj_get_str(env, "ANTHROPIC_MODEL"));
            set_opt(&mut form.claude_reasoning_model, obj_get_str(env, "ANTHROPIC_REASONING_MODEL"));
            let model = obj_get_str(env, "ANTHROPIC_MODEL");
            let small_fast = obj_get_str(env, "ANTHROPIC_SMALL_FAST_MODEL");
            set_opt(&mut form.claude_haiku_model, first_some(obj_get_str(env, "ANTHROPIC_DEFAULT_HAIKU_MODEL"), small_fast, model));
            set_opt(&mut form.claude_sonnet_model, first_some(obj_get_str(env, "ANTHROPIC_DEFAULT_SONNET_MODEL"), model, small_fast));
            set_opt(&mut form.claude_opus_model, first_some(obj_get_str(env, "ANTHROPIC_DEFAULT_OPUS_MODEL"), model, small_fast));
        },
        None => {},
    }
}

/// Fills the Codex fields from a provider. When its settings hold a `config` text, the
/// values `parsed` (the result of reading that text) sets are taken; the `OPENAI_API_KEY`
/// of its `auth` object is taken when it is a string.
pub fn populate_codex_form(form: &mut ProviderAddFormState, provider: &Provider, parsed: &CodexConfigSnippet)
    ensures
        codex_filled(*old(form), *final(form), *provider, *parsed),

{
    if provider.settings_config.get_str("config").is_some() {
        match &parsed.base_url {
            Some(v) => form.codex_base_url.set(v.as_str()),
            None => {},
        }
        match &parsed.model {
            Some(v) => form.codex_model.set(v.as_str()),
            None => {},
        }
        match parsed.wire_api {
            Some(w) => form.codex_wire_api = w,
            None => {},
        }
        match parsed.requires_openai_auth {
            Some(b) => form.codex_requires_openai_auth = b,
            None => {},
        }
        match &parsed.env_key {
            Some(v) => form.codex_env_key.set(v.as_str()),
            None => {},
        }
    }
    match provider.settings_config.get_object("auth") {
        Some(auth) => set_opt(&mut form.codex_api_key, obj_get_str(auth, "OPENAI_API_KEY")),
        None => {},
    }
}

/// Fills the Gemini fields from a provider's `env` object: an API key that is a string
/// means key authentication and is taken, otherwise OAuth; the base URL is the
/// `GOOGLE_GEMINI_BASE_URL` entry, or `GEMINI_BASE_URL` when that entry is missing,
/// taken when it is a string; the model is taken when it is a string. Without an `env`
/// object, authentication is OAuth.
pub fn populate_gemini_form(form: &mut ProviderAddFormState, provider: &Provider)
    ensures
        gemini_filled(*old(form), *final(form), *provider),

{
    match provider.settings_config.get_object("env") {
        Some(env) => {
            match obj_get_str(env, "GEMINI_API_KEY") {
                Some(key) => {
                    form.gemini_auth_type = GeminiAuthType::ApiKey;
                    form.gemini_api_key.set(key.as_str());
                },
                None => {
                    form.gemini_auth_type = GeminiAuthType::OAuth;
                },
            }
            let url = match obj_get(env, "GOOGLE_GEMINI_BASE_URL") {
                Some(v) => v.as_str(),
                None => obj_get_str(env, "GEMINI_BASE_URL"),
            };
            set_opt(&mut form.gemini_base_url, url);
            set_opt(&mut form.gemini_model, obj_get_str(env, "GEMINI_MODEL"));
        },
        None => {
            form.gemini_auth_type = GeminiAuthType::OAuth;
        },
    }
}

/// The first element of an array when there is one.
pub open spec fn first_elem(a: Seq<JVal>) -> Option<JVal> {
    if a.len() > 0 { Some(a[0]) } else { None }
}

/// Fills the OpenClaw fields from a provider: API key, base URL and protocol (the
/// default protocol when none is given); the user-agent switch is turned on when the
/// `headers` object has a `User-Agent` entry; a `models` array replaces the form's models;
/// the id, name and context window of the first model fill the flat model fields.
pub fn populate_openclaw_form(form: &mut ProviderAddFormState, provider: &Provider)
    ensures
        openclaw_filled(*old(form), *final(form), *provider),

{
    let settings = &provider.settings_config;
    set_opt(&mut form.opencode_api_key, settings.get_str("apiKey"));
    set_opt(&mut form.opencode_base_url, settings.get_str("baseUrl"));
    match settings.get_str("api") {
        Some(api) => form.opencode_npm_package.set(api.as_str()),
        None => form.opencode_npm_package.set(OPENCLAW_DEFAULT_API_PROTOCOL),
    }
    match settings.get_object("headers") {
        Some(h) => {
            if crate::json::obj_find(h, "User-Agent").is_some() {
                form.openclaw_user_agent = true;
            }
        },
        None => {},
    }
    match settings.get("models") {
        Some(v) => match v.as_array() {
            Some(models) => {
                form.openclaw_models = arr_duplicate(models);
            },
            None => {},
        },
        None => {},
    }
    if form.openclaw_models.len() > 0 {
        let model = &form.openclaw_models[0];
        match model.get_str("id") {
            Some(id) => {
                form.opencode_model_original_id = Some(id.clone());
                form.opencode_model_id.set(id.as_str());
            },
            None => {},
        }
        set_opt(&mut form.opencode_model_name, model.get_str("name"));
        match model.get("contextWindow") {
            Some(cw) => match cw.as_u64() {
                Some(n) => {
                    let t = crate::text::u64_to_string(n);
                    form.opencode_model_context_limit.set(t.as_str());
                },
                None => {},
            },
            None => {},
        }
    }
}

} // verus!
verus! {

/// Each model paired with its id.
pub open spec fn keyed(v: Seq<ModelView>) -> Seq<(Seq<char>, ModelView)> {
    Seq::new(v.len(), |i: int| (v[i].model_id, v[i]))
}

/// The position of the first model with id `id`, if any.
fn find_model(v: &Vec<OpenCodeModelDraft>, id: &str) -> (r: Option<usize>)
    ensures
        r is Some == crate::assoc::has_key(keyed(models_view(v@)), id@),
        r is Some ==> r.unwrap() == crate::assoc::key_index(keyed(models_view(v@)), id@) && r.unwrap() < v@.len(),
{
    let ghost k = keyed(models_view(v@));
    let mut i: usize = 0;
    while i < v.len()
        invariant
            k == keyed(models_view(v@)),
            i <= v.len(),
            forall|j: int| 0 <= j < i ==> #[trigger] v@[j].model_id@ != id@,
        decreases v.len() - i,
    {
        if crate::text::str_eq(v[i].model_id.as_str(), id) {
            proof {
                assert(k[i as int].0 == id@);
                crate::assoc::lemma_key_index(k, id@);
                let m = crate::assoc::key_index(k, id@);
                assert(m == i) by {
                    if m < i { assert(k[m].0 == v@[m].model_id@); }
                }
            }
            return Some(i);
        }
        i = i + 1;
    }
    proof {
        if crate::assoc::has_key(k, id@) {
            let j = choose|j: int| 0 <= j < k.len() && #[trigger] k[j].0 == id@;
            assert(k[j].0 == v@[j].model_id@);
        }
    }
    None
}

/// The model chosen for the flat model fields: the stored current model, else the first
/// listed model.
pub open spec fn active_model(s: JVal, fm: Seq<ModelView>) -> Option<Seq<char>> {
    match jstr(jget(s, "currentModel"@)) {
        Some(c) => Some(c),
        None => if fm.len() > 0 { Some(fm[0].model_id) } else { None },
    }
}

/// The decimal text of a limit, when there is one.
pub open spec fn limit_text(l: Option<u64>) -> Option<Seq<char>> {
    match l {
        Some(n) => Some(decimal_spec(n as nat)),
        None => None,
    }
}

fn set_limit(t: &mut TextInput, l: Option<u64>)
    ensures
        set_if(*final(t), *old(t), limit_text(l)),
{
    match l {
        Some(n) => {
            let s = crate::text::u64_to_string(n);
            t.set(s.as_str());
        },
        None => {},
    }
}

/// Fills the OpenCode fields from a provider: npm package, API key and base URL when
/// they are strings; the models of a `models` object, ordered with higher rank first and
/// then the larger id first; and the flat model fields from the active model (the stored
/// current model, else the first listed one): its id, and when it is listed, its name
/// (its id when the name is empty) and its limits.
pub fn populate_opencode_form(form: &mut ProviderAddFormState, provider: &Provider)
    ensures
        opencode_filled(*old(form), *final(form), *provider),

{
    let settings = &provider.settings_config;
    set_opt(&mut form.opencode_npm_package, settings.get_str("npm"));
    match settings.get_object("options") {
        Some(options) => {
            set_opt(&mut form.opencode_api_key, obj_get_str(options, "apiKey"));
            set_opt(&mut form.opencode_base_url, obj_get_str(options, "baseURL"));
        },
        None => {},
    }
    let current_model: Option<String> = match settings.get_str("currentModel") {
        Some(c) => Some(c.clone()),
        None => None,
    };
    match settings.get_object("models") {
        Some(models) => {
            form.opencode_models = sorted_model_list(models);
        },
        None => {},
    }
    let ghost fm = models_view(form.opencode_models@);
    let active: Option<String> = match current_model {
        Some(c) => Some(c),
        None => if form.opencode_models.len() > 0 {
            Some(form.opencode_models[0].model_id.clone())
        } else {
            None
        },
    };
    match active {
        Some(model_id) => {
            form.opencode_model_original_id = Some(model_id.clone());
            form.opencode_model_id.set(model_id.as_str());
            match find_model(&form.opencode_models, model_id.as_str()) {
                Some(i) => {
                    let draft = &form.opencode_models[i];
                    proof { assert(keyed(fm)[i as int].1 == draft.mv()); }
                    if draft.model_name.as_str().is_empty() {
                        form.opencode_model_name.set(model_id.as_str());
                    } else {
                        form.opencode_model_name.set(draft.model_name.as_str());
                    }
                    let input = draft.input_limit;
                    let output = draft.output_limit;
                    set_limit(&mut form.opencode_model_context_limit, input);
                    set_limit(&mut form.opencode_model_output_limit, output);
                },
                None => {},
            }
        },
        None => {},
    }
}

/// The form `post` is the form `pre` filled by `populate_claude_form`.
pub open spec fn claude_filled(pre: ProviderAddFormState, post: ProviderAddFormState, p: Provider) -> bool {
    &&& post.claude_api_format == claude_format_spec(p)
    &&& ({
        let env = sub_object(p.settings_config.jv(), "env"@);
        match env {
            Some(e) => {
                let model = text_in(e, "ANTHROPIC_MODEL"@);
                let small = text_in(e, "ANTHROPIC_SMALL_FAST_MODEL"@);
                &&& set_if(post.claude_api_key, pre.claude_api_key, text_in(e, "ANTHROPIC_AUTH_TOKEN"@))
                &&& set_if(post.claude_base_url, pre.claude_base_url, text_in(e, "ANTHROPIC_BASE_URL"@))
                &&& set_if(post.claude_model, pre.claude_model, model)
                &&& set_if(post.claude_reasoning_model, pre.claude_reasoning_model, text_in(e, "ANTHROPIC_REASONING_MODEL"@))
                &&& set_if(post.claude_haiku_model, pre.claude_haiku_model,
                    first_of(text_in(e, "ANTHROPIC_DEFAULT_HAIKU_MODEL"@), small, model))
                &&& set_if(post.claude_sonnet_model, pre.claude_sonnet_model,
                    first_of(text_in(e, "ANTHROPIC_DEFAULT_SONNET_MODEL"@), model, small))
                &&& set_if(post.claude_opus_model, pre.claude_opus_model,
                    first_of(text_in(e, "ANTHROPIC_DEFAULT_OPUS_MODEL"@), model, small))
            },
            None => {
                &&& post.claude_api_key == pre.claude_api_key
                &&& post.claude_base_url == pre.claude_base_url
                &&& post.claude_model == pre.claude_model
                &&& post.claude_reasoning_model == pre.claude_reasoning_model
                &&& post.claude_haiku_model == pre.claude_haiku_model
                &&& post.claude_sonnet_model == pre.claude_sonnet_model
                &&& post.claude_opus_model == pre.claude_opus_model
            },
        }
    })
    &&& post.same_codex(&pre)
    &&& post.same_gemini(&pre)
    &&& post.same_opencode_base(&pre)
    &&& post.same_models(&pre)
    &&& post.same_openclaw(&pre)
    &&& post.same_nav(&pre)
}

/// The form `post` is the form `pre` filled by `populate_codex_form`.
pub open spec fn codex_filled(pre: ProviderAddFormState, post: ProviderAddFormState, p: Provider, parsed: CodexConfigSnippet) -> bool {
    &&& ({
        let s = p.settings_config.jv();
        let has_config = jstr(jget(s, "config"@)) is Some;
        &&& set_if(post.codex_base_url, pre.codex_base_url,
            if has_config { opt_str_view(parsed.base_url) } else { None })
        &&& set_if(post.codex_model, pre.codex_model,
            if has_config { opt_str_view(parsed.model) } else { None })
        &&& post.codex_wire_api == if has_config && parsed.wire_api is Some { parsed.wire_api.unwrap() } else { pre.codex_wire_api }
        &&& post.codex_requires_openai_auth == if has_config && parsed.requires_openai_auth is Some {
            parsed.requires_openai_auth.unwrap()
        } else {
            pre.codex_requires_openai_auth
        }
        &&& set_if(post.codex_env_key, pre.codex_env_key,
            if has_config { opt_str_view(parsed.env_key) } else { None })
        &&& set_if(post.codex_api_key, pre.codex_api_key, match sub_object(s, "auth"@) {
            Some(a) => text_in(a, "OPENAI_API_KEY"@),
            None => None,
        })
    })
    &&& post.same_claude(&pre)
    &&& post.same_gemini(&pre)
    &&& post.same_opencode_base(&pre)
    &&& post.same_models(&pre)
    &&& post.same_openclaw(&pre)
    &&& post.same_nav(&pre)
}

/// The form `post` is the form `pre` filled by `populate_gemini_form`.
pub open spec fn gemini_filled(pre: ProviderAddFormState, post: ProviderAddFormState, p: Provider) -> bool {
    &&& ({
        let s = p.settings_config.jv();
        match sub_object(s, "env"@) {
            Some(e) => {
                let key = text_in(e, "GEMINI_API_KEY"@);
                let url = if lookup(e, "GOOGLE_GEMINI_BASE_URL"@) is Some {
                    text_in(e, "GOOGLE_GEMINI_BASE_URL"@)
                } else {
                    text_in(e, "GEMINI_BASE_URL"@)
                };
                &&& post.gemini_auth_type == if key is Some { GeminiAuthType::ApiKey } else { GeminiAuthType::OAuth }
                &&& set_if(post.gemini_api_key, pre.gemini_api_key, key)
                &&& set_if(post.gemini_base_url, pre.gemini_base_url, url)
                &&& set_if(post.gemini_model, pre.gemini_model, text_in(e, "GEMINI_MODEL"@))
            },
            None => {
                &&& post.gemini_auth_type == GeminiAuthType::OAuth
                &&& post.gemini_api_key == pre.gemini_api_key
                &&& post.gemini_base_url == pre.gemini_base_url
                &&& post.gemini_model == pre.gemini_model
            },
        }
    })
    &&& post.same_claude(&pre)
    &&& post.same_codex(&pre)
    &&& post.same_opencode_base(&pre)
    &&& post.same_models(&pre)
    &&& post.same_openclaw(&pre)
    &&& post.same_nav(&pre)
}

/// The form `post` is the form `pre` filled by `populate_openclaw_form`.
pub open spec fn openclaw_filled(pre: ProviderAddFormState, post: ProviderAddFormState, p: Provider) -> bool {
    &&& ({
        let s = p.settings_config.jv();
        let first = first_elem(av(post.openclaw_models@));
        &&& set_if(post.opencode_api_key, pre.opencode_api_key, jstr(jget(s, "apiKey"@)))
        &&& set_if(post.opencode_base_url, pre.opencode_base_url, jstr(jget(s, "baseUrl"@)))
        &&& is_set_to(post.opencode_npm_package, str_or(jstr(jget(s, "api"@)), OPENCLAW_DEFAULT_API_PROTOCOL@))
        &&& post.openclaw_user_agent == (pre.openclaw_user_agent || (sub_object(s, "headers"@) matches Some(h)
            && crate::assoc::has_key(h, "User-Agent"@)))
        &&& av(post.openclaw_models@) == match jarr(jget(s, "models"@)) {
            Some(a) => a,
            None => av(pre.openclaw_models@),
        }
        &&& opt_str_view(post.opencode_model_original_id) == match first {
            Some(m) => if jstr(jget(m, "id"@)) is Some { jstr(jget(m, "id"@)) } else { opt_str_view(pre.opencode_model_original_id) },
            None => opt_str_view(pre.opencode_model_original_id),
        }
        &&& set_if(post.opencode_model_id, pre.opencode_model_id, match first {
            Some(m) => jstr(jget(m, "id"@)),
            None => None,
        })
        &&& set_if(post.opencode_model_name, pre.opencode_model_name, match first {
            Some(m) => jstr(jget(m, "name"@)),
            None => None,
        })
        &&& set_if(post.opencode_model_context_limit, pre.opencode_model_context_limit, match first {
            Some(m) => match ju64(jget(m, "contextWindow"@)) {
                Some(n) => Some(decimal_spec(n as nat)),
                None => None,
            },
            None => None,
        })
    })
    &&& post.same_claude(&pre)
    &&& post.same_codex(&pre)
    &&& post.same_gemini(&pre)
    &&& post.opencode_models == pre.opencode_models
    &&& post.opencode_model_idx == pre.opencode_model_idx
    &&& post.opencode_model_output_limit == pre.opencode_model_output_limit
    &&& post.same_nav(&pre)
}

/// The form `post` is the form `pre` filled by `populate_opencode_form`.
pub open spec fn opencode_filled(pre: ProviderAddFormState, post: ProviderAddFormState, p: Provider) -> bool {
    &&& ({
        let s = p.settings_config.jv();
        let opts = sub_object(s, "options"@);
        let fm = models_view(post.opencode_models@);
        &&& set_if(post.opencode_npm_package, pre.opencode_npm_package, jstr(jget(s, "npm"@)))
        &&& set_if(post.opencode_api_key, pre.opencode_api_key, match opts {
            Some(o) => text_in(o, "apiKey"@),
            None => None,
        })
        &&& set_if(post.opencode_base_url, pre.opencode_base_url, match opts {
            Some(o) => text_in(o, "baseURL"@),
            None => None,
        })
        &&& match sub_object(s, "models"@) {
            Some(ms) => fm.to_multiset() == listed_models(ms).to_multiset() && sorted_models(ms, fm),
            None => post.opencode_models == pre.opencode_models,
        }
        &&& match active_model(s, fm) {
            Some(id) => {
                &&& opt_str_view(post.opencode_model_original_id) == Some(id)
                &&& is_set_to(post.opencode_model_id, id)
                &&& match lookup(keyed(fm), id) {
                    Some(d) => {
                        &&& is_set_to(post.opencode_model_name, if d.model_name.len() > 0 { d.model_name } else { id })
                        &&& set_if(post.opencode_model_context_limit, pre.opencode_model_context_limit, limit_text(d.input_limit))
                        &&& set_if(post.opencode_model_output_limit, pre.opencode_model_output_limit, limit_text(d.output_limit))
                    },
                    None => {
                        &&& post.opencode_model_name == pre.opencode_model_name
                        &&& post.opencode_model_context_limit == pre.opencode_model_context_limit
                        &&& post.opencode_model_output_limit == pre.opencode_model_output_limit
                    },
                }
            },
            None => {
                &&& post.opencode_model_original_id == pre.opencode_model_original_id
                &&& post.opencode_model_id == pre.opencode_model_id
                &&& post.opencode_model_name == pre.opencode_model_name
                &&& post.opencode_model_context_limit == pre.opencode_model_context_limit
                &&& post.opencode_model_output_limit == pre.opencode_model_output_limit
            },
        }
    })
    &&& post.opencode_model_idx == pre.opencode_model_idx
    &&& post.same_claude(&pre)
    &&& post.same_codex(&pre)
    &&& post.same_gemini(&pre)
    &&& post.same_openclaw(&pre)
    &&& post.same_nav(&pre)
}

/// Fills the form from a stored provider, as the provider's application reads it. For
/// Codex, `codex_parsed` is the reading of the provider's `config` text.
pub fn populate_form_from_provider(
    form: &mut ProviderAddFormState,
    app_type: &AppType,
    provider: &Provider,
    codex_parsed: &CodexConfigSnippet,
)
    ensures
        *app_type == AppType::Claude ==> claude_filled(*old(form), *final(form), *provider),
        *app_type == AppType::Codex ==> codex_filled(*old(form), *final(form), *provider, *codex_parsed),
        *app_type == AppType::Gemini ==> gemini_filled(*old(form), *final(form), *provider),
        *app_type == AppType::OpenCode ==> opencode_filled(*old(form), *final(form), *provider),
        *app_type == AppType::OpenClaw ==> openclaw_filled(*old(form), *final(form), *provider),
{
    match app_type {
        AppType::Claude => populate_claude_form(form, provider),
        AppType::Codex => populate_codex_form(form, provider, codex_parsed),
        AppType::Gemini => populate_gemini_form(form, provider),
        AppType::OpenCode => populate_opencode_form(form, provider),
        AppType::OpenClaw => populate_openclaw_form(form, provider),
    }
}

} // verus!

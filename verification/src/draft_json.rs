use vstd::prelude::*;
use vstd::string::StringExecFns;
use crate::assoc::{assoc_insert, assoc_swap_remove, lookup};
use crate::draft::OpenCodeProviderDraft;
use crate::form::ProviderAddFormState;
use crate::json::{JVal, JsonNumber, JsonValue, jget, jobj, jstr, ju64, lemma_object_jv, obj_duplicate, obj_get, obj_insert, obj_remove, ov};
use crate::provider::{
    ModelMap, ModelView, OpenCodeModelDraft, Provider, map_get_index, map_insert, map_len, map_new,
    model_entries,
};
use crate::text::{is_blank, trim_spec, unicode_upper};

verus! {

/// The npm package an OpenCode provider uses when none is given.
pub open spec fn default_npm() -> Seq<char> {
    "@ai-sdk/openai-compatible"@
}

/// The text of `o`, or `d` when there is none.
pub open spec fn str_or(o: Option<Seq<char>>, d: Seq<char>) -> Seq<char> {
    match o {
        Some(s) => s,
        None => d,
    }
}

/// The entries of a model object other than `name` and `limit`, one per key.
pub open spec fn model_extra(o: Seq<(Seq<char>, JVal)>) -> Seq<(Seq<char>, JVal)>
    decreases o.len(),
{
    if o.len() == 0 {
        Seq::empty()
    } else {
        let sub = model_extra(o.drop_last());
        let p = o.last();
        if p.0 != "name"@ && p.0 != "limit"@ {
            assoc_insert(sub, p.0, p.1)
        } else {
            sub
        }
    }
}

/// The model entry read from the object `v` stored under `id` in a settings document.
pub open spec fn model_from_json(id: Seq<char>, v: JVal) -> ModelView {
    let limit = jobj(jget(v, "limit"@));
    ModelView {
        model_id: id,
        model_name: str_or(jstr(jget(v, "name"@)), id),
        input_limit: match limit {
            Some(l) => ju64(lookup(l, "context"@)),
            None => None,
        },
        output_limit: match limit {
            Some(l) => ju64(lookup(l, "output"@)),
            None => None,
        },
        original_model_id: Some(id),
        extra: match v {
            JVal::Object(o) => JVal::Object(model_extra(o)),
            _ => JVal::Object(Seq::empty()),
        },
    }
}

/// The model entries read from the `models` object of a settings document, in its order.
pub open spec fn models_from_json(ms: Seq<(Seq<char>, JVal)>) -> Seq<(Seq<char>, ModelView)>
    decreases ms.len(),
{
    if ms.len() == 0 {
        Seq::empty()
    } else {
        assoc_insert(models_from_json(ms.drop_last()), ms.last().0, model_from_json(ms.last().0, ms.last().1))
    }
}

/// The models a settings document describes; none when `models` is not an object.
pub open spec fn settings_models(settings: JVal) -> Seq<(Seq<char>, ModelView)> {
    match jobj(jget(settings, "models"@)) {
        Some(ms) => models_from_json(ms),
        None => Seq::empty(),
    }
}

/// The object stored under `options`, if it is one.
pub open spec fn settings_options(settings: JVal) -> Option<Seq<(Seq<char>, JVal)>> {
    jobj(jget(settings, "options"@))
}

/// A string option of the settings, or the empty string.
pub open spec fn settings_option_str(settings: JVal, key: Seq<char>) -> Seq<char> {
    match settings_options(settings) {
        Some(o) => str_or(jstr(lookup(o, key)), Seq::empty()),
        None => Seq::empty(),
    }
}

/// The current model of a settings document: its `currentModel` text, else the first
/// model's id, else the empty string.
pub open spec fn settings_current_model(settings: JVal) -> Seq<char> {
    match jstr(jget(settings, "currentModel"@)) {
        Some(c) => c,
        None => if settings_models(settings).len() > 0 { settings_models(settings)[0].0 } else { Seq::empty() },
    }
}

/// The npm package a form asks for: its trimmed text, or the default when blank.
pub open spec fn form_npm(form: &ProviderAddFormState) -> Seq<char> {
    if is_blank(form.opencode_npm_package.value@) {
        default_npm()
    } else {
        trim_spec(form.opencode_npm_package.value@)
    }
}

/// The serialized form of one model: its extra settings, with `name` set (the upper-cased
/// id when the name is blank) and `limit` holding the limits that are present, or removed.
pub open spec fn model_json(m: ModelView) -> JVal {
    let base = match m.extra {
        JVal::Object(o) => o,
        _ => Seq::empty(),
    };
    let name = if is_blank(m.model_name) { unicode_upper(m.model_id) } else { m.model_name };
    let with_name = assoc_insert(base, "name"@, JVal::Str(name));
    let with_input = match m.input_limit {
        Some(v) => assoc_insert(Seq::empty(), "context"@, JVal::Number(JsonNumber::PosInt(v))),
        None => Seq::empty(),
    };
    let limit = match m.output_limit {
        Some(v) => assoc_insert(with_input, "output"@, JVal::Number(JsonNumber::PosInt(v))),
        None => with_input,
    };
    JVal::Object(
        if m.input_limit is Some || m.output_limit is Some {
            assoc_insert(with_name, "limit"@, JVal::Object(limit))
        } else {
            assoc_swap_remove(with_name, "limit"@)
        },
    )
}

/// The serialized `models` object: each entry under its model id, in order.
pub open spec fn models_json(s: Seq<(Seq<char>, ModelView)>) -> Seq<(Seq<char>, JVal)>
    decreases s.len(),
{
    if s.len() == 0 {
        Seq::empty()
    } else {
        assoc_insert(models_json(s.drop_last()), s.last().1.model_id, model_json(s.last().1))
    }
}

/// Sets `key` to the string `v` when it is not empty, else removes `key`.
pub open spec fn put_or_drop(o: Seq<(Seq<char>, JVal)>, key: Seq<char>, v: Seq<char>) -> Seq<(Seq<char>, JVal)> {
    if v.len() > 0 {
        assoc_insert(o, key, JVal::Str(v))
    } else {
        assoc_swap_remove(o, key)
    }
}

/// The entries of the settings document a draft serializes to.
pub open spec fn settings_entries(
    last: JVal,
    npm: Seq<char>,
    base_url: Seq<char>,
    api_key: Seq<char>,
    models: Seq<(Seq<char>, ModelView)>,
    current: Seq<char>,
) -> Seq<(Seq<char>, JVal)> {
    let s0 = match last {
        JVal::Object(o) => o,
        _ => Seq::empty(),
    };
    let s1 = assoc_insert(s0, "npm"@, JVal::Str(npm));
    let opts0 = match lookup(s1, "options"@) {
        Some(JVal::Object(o)) => o,
        _ => Seq::empty(),
    };
    let s2 = assoc_swap_remove(s1, "options"@);
    let opts = put_or_drop(put_or_drop(opts0, "baseURL"@, base_url), "apiKey"@, api_key);
    let s3 = if opts.len() > 0 { assoc_insert(s2, "options"@, JVal::Object(opts)) } else { s2 };
    let s4 = assoc_insert(s3, "models"@, JVal::Object(models_json(models)));
    if !is_blank(current) {
        assoc_insert(s4, "currentModel"@, JVal::Str(current))
    } else {
        assoc_swap_remove(s4, "currentModel"@)
    }
}

impl OpenCodeProviderDraft {
    /// The entries of the settings document this draft serializes to.
    pub open spec fn settings_spec(&self) -> Seq<(Seq<char>, JVal)> {
        settings_entries(
            self.last_loaded_from_db.jv(),
            self.npm@,
            self.base_url@,
            self.api_key@,
            self.entries(),
            self.current_model@,
        )
    }

    /// Starts editing a stored provider: base fields, models and current model are read
    /// from its settings; the draft is clean and remembers the settings it came from.
    pub fn from_provider(provider: &Provider) -> (r: Self)
        ensures
            ({
                let s = provider.settings_config.jv();
                &&& r.provider_id@ == provider.id@
                &&& r.name@ == provider.name@
                &&& r.npm@ == str_or(jstr(jget(s, "npm"@)), default_npm())
                &&& r.base_url@ == settings_option_str(s, "baseURL"@)
                &&& r.api_key@ == settings_option_str(s, "apiKey"@)
                &&& r.entries() == settings_models(s)
                &&& r.current_model@ == settings_current_model(s)
                &&& !r.dirty
                &&& r.last_loaded_from_db.jv() == s
            }),
    {
        let settings = &provider.settings_config;
        let ghost s = settings.jv();
        let npm = match settings.get("npm") {
            Some(v) => match v.as_str() {
                Some(t) => t.clone(),
                None => String::from_str("@ai-sdk/openai-compatible"),
            },
            None => String::from_str("@ai-sdk/openai-compatible"),
        };
        let options = match settings.get("options") {
            Some(v) => v.as_object(),
            None => None,
        };
        let base_url = option_text(options, "baseURL");
        let api_key = option_text(options, "apiKey");
        let models_by_id = match settings.get("models") {
            Some(v) => match v.as_object() {
                Some(ms) => models_from_entries(ms),
                None => map_new(),
            },
            None => map_new(),
        };
        let current_model = match settings.get("currentModel") {
            Some(v) => match v.as_str() {
                Some(t) => t.clone(),
                None => crate::draft::first_key(&models_by_id),
            },
            None => crate::draft::first_key(&models_by_id),
        };
        OpenCodeProviderDraft {
            provider_id: provider.id.clone(),
            name: provider.name.clone(),
            base_url,
            api_key,
            npm,
            models_by_id,
            current_model,
            dirty: false,
            last_loaded_from_db: settings.duplicate(),
        }
    }

    /// Starts a new provider from the form's base fields: trimmed texts, the default npm
    /// package when none is given, no models, a clean state and an empty settings object.
    pub fn from_form(form: &ProviderAddFormState) -> (r: Self)
        ensures
            r.provider_id@ == trim_spec(form.id.value@),
            r.name@ == trim_spec(form.name.value@),
            r.base_url@ == trim_spec(form.opencode_base_url.value@),
            r.api_key@ == trim_spec(form.opencode_api_key.value@),
            r.npm@ == form_npm(form),
            r.entries().len() == 0,
            r.current_model@.len() == 0,
            !r.dirty,
            r.last_loaded_from_db.jv() == JVal::Object(Seq::empty()),
    {
        let empty: Vec<(String, JsonValue)> = Vec::new();
        proof {
            lemma_object_jv(empty);
            assert(ov(empty@) =~= Seq::<(Seq<char>, JVal)>::empty());
        }
        let r = OpenCodeProviderDraft {
            provider_id: crate::text::trim_owned(form.id.value.as_str()),
            name: crate::text::trim_owned(form.name.value.as_str()),
            base_url: crate::text::trim_owned(form.opencode_base_url.value.as_str()),
            api_key: crate::text::trim_owned(form.opencode_api_key.value.as_str()),
            npm: npm_of_form(form),
            models_by_id: map_new(),
            current_model: String::new(),
            dirty: false,
            last_loaded_from_db: JsonValue::Object(empty),
        };
        r
    }

    /// Takes the base fields from the form; the draft becomes dirty when any of them changes.
    pub fn apply_form_base_fields(&mut self, form: &ProviderAddFormState)
        ensures
            final(self).provider_id@ == trim_spec(form.id.value@),
            final(self).name@ == trim_spec(form.name.value@),
            final(self).base_url@ == trim_spec(form.opencode_base_url.value@),
            final(self).api_key@ == trim_spec(form.opencode_api_key.value@),
            final(self).npm@ == form_npm(form),
            final(self).dirty == (old(self).dirty || old(self).name@ != final(self).name@ || old(self).base_url@
                != final(self).base_url@ || old(self).api_key@ != final(self).api_key@ || old(self).npm@
                != final(self).npm@ || old(self).provider_id@ != final(self).provider_id@),
            final(self).models_by_id == old(self).models_by_id,
            final(self).current_model == old(self).current_model,
            final(self).last_loaded_from_db == old(self).last_loaded_from_db,
    {
        let next_name = crate::text::trim_owned(form.name.value.as_str());
        let next_base_url = crate::text::trim_owned(form.opencode_base_url.value.as_str());
        let next_api_key = crate::text::trim_owned(form.opencode_api_key.value.as_str());
        let next_npm = npm_of_form(form);
        let next_provider_id = crate::text::trim_owned(form.id.value.as_str());
        if !(self.name == next_name) || !(self.base_url == next_base_url) || !(self.api_key == next_api_key)
            || !(self.npm == next_npm) || !(self.provider_id == next_provider_id) {
            self.dirty = true;
        }
        self.name = next_name;
        self.base_url = next_base_url;
        self.api_key = next_api_key;
        self.npm = next_npm;
        self.provider_id = next_provider_id;
    }

    /// Serializes the draft into the settings document it was loaded from: keys the draft
    /// does not manage are kept, `npm`, `options.baseURL`, `options.apiKey`, `models` and
    /// `currentModel` are written from the draft, and empty ones are removed.
    pub fn to_settings_config(&self) -> (r: JsonValue)
        ensures
            r.jv() == JVal::Object(self.settings_spec()),
    {
        let ghost s0 = match self.last_loaded_from_db.jv() {
            JVal::Object(o) => o,
            _ => Seq::<(Seq<char>, JVal)>::empty(),
        };
        let mut settings_obj: Vec<(String, JsonValue)> = match self.last_loaded_from_db.as_object() {
            Some(o) => obj_duplicate(o),
            None => Vec::new(),
        };
        assert(ov(settings_obj@) =~= s0);
        obj_insert(&mut settings_obj, String::from_str("npm"), JsonValue::Str(self.npm.clone()));
        let ghost s1 = assoc_insert(s0, "npm"@, JVal::Str(self.npm@));
        assert(ov(settings_obj@) == s1);
        let ghost opts0 = match lookup(s1, "options"@) {
            Some(JVal::Object(o)) => o,
            _ => Seq::<(Seq<char>, JVal)>::empty(),
        };
        let removed = obj_remove(&mut settings_obj, "options");
        let ghost s2 = assoc_swap_remove(s1, "options"@);
        assert(ov(settings_obj@) == s2);
        let mut options_obj: Vec<(String, JsonValue)> = match removed {
            Some(v) => match v.as_object() {
                Some(o) => obj_duplicate(o),
                None => Vec::new(),
            },
            None => Vec::new(),
        };
        assert(ov(options_obj@) =~= opts0);
        if !self.base_url.as_str().is_empty() {
            obj_insert(&mut options_obj, String::from_str("baseURL"), JsonValue::Str(self.base_url.clone()));
        } else {
            let _ = obj_remove(&mut options_obj, "baseURL");
        }
        let ghost opts1 = put_or_drop(opts0, "baseURL"@, self.base_url@);
        assert(ov(options_obj@) == opts1);
        if !self.api_key.as_str().is_empty() {
            obj_insert(&mut options_obj, String::from_str("apiKey"), JsonValue::Str(self.api_key.clone()));
        } else {
            let _ = obj_remove(&mut options_obj, "apiKey");
        }
        let ghost opts = put_or_drop(opts1, "apiKey"@, self.api_key@);
        assert(ov(options_obj@) == opts);
        if options_obj.len() > 0 {
            proof { lemma_object_jv(options_obj); }
            obj_insert(&mut settings_obj, String::from_str("options"), JsonValue::Object(options_obj));
        }
        let ghost s3 = if opts.len() > 0 { assoc_insert(s2, "options"@, JVal::Object(opts)) } else { s2 };
        assert(ov(settings_obj@) == s3);
        let models = models_object(&self.models_by_id);
        proof { lemma_object_jv(models); }
        obj_insert(&mut settings_obj, String::from_str("models"), JsonValue::Object(models));
        let ghost s4 = assoc_insert(s3, "models"@, JVal::Object(models_json(self.entries())));
        assert(ov(settings_obj@) == s4);
        if !crate::text::is_blank_str(self.current_model.as_str()) {
            obj_insert(&mut settings_obj, String::from_str("currentModel"), JsonValue::Str(self.current_model.clone()));
        } else {
            let _ = obj_remove(&mut settings_obj, "currentModel");
        }
        assert(ov(settings_obj@) == self.settings_spec());
        proof { lemma_object_jv(settings_obj); }
        JsonValue::Object(settings_obj)
    }
}

/// The npm package the form asks for.
fn npm_of_form(form: &ProviderAddFormState) -> (r: String)
    ensures
        r@ == form_npm(form),
{
    if form.opencode_npm_package.is_blank() {
        proof { crate::text::lemma_trim_empty_iff_blank(form.opencode_npm_package.value@); }
        String::from_str("@ai-sdk/openai-compatible")
    } else {
        crate::text::trim_owned(form.opencode_npm_package.value.as_str())
    }
}

/// A string option, or the empty string.
fn option_text(options: Option<&Vec<(String, JsonValue)>>, key: &str) -> (r: String)
    ensures
        r@ == match options {
            Some(o) => str_or(jstr(lookup(ov(o@), key@)), Seq::empty()),
            None => Seq::<char>::empty(),
        },
{
    match options {
        Some(o) => match obj_get(o, key) {
            Some(v) => match v.as_str() {
                Some(t) => t.clone(),
                None => String::new(),
            },
            None => String::new(),
        },
        None => String::new(),
    }
}

/// Reads one model entry from the object stored under `id`.
pub fn model_from_value(id: &String, value: &JsonValue) -> (r: OpenCodeModelDraft)
    ensures
        r.mv() == model_from_json(id@, value.jv()),
{
    let mut draft = OpenCodeModelDraft::new(id.clone());
    draft.original_model_id = Some(id.clone());
    draft.model_name = match value.get("name") {
        Some(v) => match v.as_str() {
            Some(t) => t.clone(),
            None => id.clone(),
        },
        None => id.clone(),
    };
    match value.get("limit") {
        Some(lv) => match lv.as_object() {
            Some(limit) => {
                draft.input_limit = match obj_get(limit, "context") {
                    Some(v) => v.as_u64(),
                    None => None,
                };
                draft.output_limit = match obj_get(limit, "output") {
                    Some(v) => v.as_u64(),
                    None => None,
                };
            },
            None => {},
        },
        None => {},
    }
    match value.as_object() {
        Some(obj) => {
            let extra = extra_entries(obj);
            if extra.len() > 0 {
                proof { lemma_object_jv(extra); }
                draft.extra = JsonValue::Object(extra);
            } else {
                assert(ov(extra@) =~= Seq::<(Seq<char>, JVal)>::empty());
            }
        },
        None => {},
    }
    draft
}

/// The entries of a model object other than `name` and `limit`.
fn extra_entries(obj: &Vec<(String, JsonValue)>) -> (r: Vec<(String, JsonValue)>)
    ensures
        ov(r@) == model_extra(ov(obj@)),
{
    let mut extra: Vec<(String, JsonValue)> = Vec::new();
    let mut i: usize = 0;
    assert(ov(obj@).take(0) =~= Seq::<(Seq<char>, JVal)>::empty());
    while i < obj.len()
        invariant
            i <= obj.len(),
            ov(extra@) == model_extra(ov(obj@).take(i as int)),
        decreases obj.len() - i,
    {
        let key = &obj[i].0;
        proof {
            assert(ov(obj@).take(i + 1).drop_last() =~= ov(obj@).take(i as int));
        }
        if !crate::text::str_eq(key.as_str(), "name") && !crate::text::str_eq(key.as_str(), "limit") {
            obj_insert(&mut extra, key.clone(), obj[i].1.duplicate());
        }
        i = i + 1;
    }
    assert(ov(obj@).take(obj.len() as int) =~= ov(obj@));
    extra
}

/// Reads every model of a `models` object, in order.
fn models_from_entries(ms: &Vec<(String, JsonValue)>) -> (r: ModelMap)
    ensures
        model_entries(r) == models_from_json(ov(ms@)),
{
    let mut map = map_new();
    let mut i: usize = 0;
    assert(ov(ms@).take(0) =~= Seq::<(Seq<char>, JVal)>::empty());
    while i < ms.len()
        invariant
            i <= ms.len(),
            model_entries(map) == models_from_json(ov(ms@).take(i as int)),
        decreases ms.len() - i,
    {
        proof {
            assert(ov(ms@).take(i + 1).drop_last() =~= ov(ms@).take(i as int));
        }
        let draft = model_from_value(&ms[i].0, &ms[i].1);
        let _ = map_insert(&mut map, ms[i].0.clone(), draft);
        i = i + 1;
    }
    assert(ov(ms@).take(ms.len() as int) =~= ov(ms@));
    map
}

/// The serialized form of one model.
fn model_object(m: &OpenCodeModelDraft) -> (r: JsonValue)
    ensures
        r.jv() == model_json(m.mv()),
{
    let ghost mv = m.mv();
    let ghost base = match mv.extra {
        JVal::Object(o) => o,
        _ => Seq::<(Seq<char>, JVal)>::empty(),
    };
    let mut model_obj: Vec<(String, JsonValue)> = match m.extra.as_object() {
        Some(o) => obj_duplicate(o),
        None => Vec::new(),
    };
    assert(ov(model_obj@) =~= base);
    let name = if crate::text::is_blank_str(m.model_name.as_str()) {
        crate::text::to_upper(m.model_id.as_str())
    } else {
        m.model_name.clone()
    };
    let ghost name_v = name@;
    obj_insert(&mut model_obj, String::from_str("name"), JsonValue::Str(name));
    let ghost with_name = assoc_insert(base, "name"@, JVal::Str(name_v));
    assert(ov(model_obj@) == with_name);
    if m.input_limit.is_some() || m.output_limit.is_some() {
        let mut limit_obj: Vec<(String, JsonValue)> = Vec::new();
        assert(ov(limit_obj@) =~= Seq::<(Seq<char>, JVal)>::empty());
        match m.input_limit {
            Some(v) => obj_insert(&mut limit_obj, String::from_str("context"), JsonValue::Number(JsonNumber::PosInt(v))),
            None => {},
        }
        let ghost with_input = match mv.input_limit {
            Some(v) => assoc_insert(Seq::empty(), "context"@, JVal::Number(JsonNumber::PosInt(v))),
            None => Seq::<(Seq<char>, JVal)>::empty(),
        };
        assert(ov(limit_obj@) == with_input);
        match m.output_limit {
            Some(v) => obj_insert(&mut limit_obj, String::from_str("output"), JsonValue::Number(JsonNumber::PosInt(v))),
            None => {},
        }
        let ghost limit = match mv.output_limit {
            Some(v) => assoc_insert(with_input, "output"@, JVal::Number(JsonNumber::PosInt(v))),
            None => with_input,
        };
        assert(ov(limit_obj@) == limit);
        proof { lemma_object_jv(limit_obj); }
        obj_insert(&mut model_obj, String::from_str("limit"), JsonValue::Object(limit_obj));
        assert(ov(model_obj@) == assoc_insert(with_name, "limit"@, JVal::Object(limit)));
    } else {
        let _ = obj_remove(&mut model_obj, "limit");
    }
    proof { lemma_object_jv(model_obj); }
    JsonValue::Object(model_obj)
}

/// The serialized `models` object.
fn models_object(m: &ModelMap) -> (r: Vec<(String, JsonValue)>)
    ensures
        ov(r@) == models_json(model_entries(*m)),
{
    let n = map_len(m);
    let ghost e = model_entries(*m);
    let mut out: Vec<(String, JsonValue)> = Vec::new();
    let mut i: usize = 0;
    assert(e.take(0) =~= Seq::<(Seq<char>, ModelView)>::empty());
    while i < n
        invariant
            n == e.len(),
            e == model_entries(*m),
            i <= n,
            ov(out@) == models_json(e.take(i as int)),
        decreases n - i,
    {
        let (_, d) = map_get_index(m, i).unwrap();
        proof {
            assert(e.take(i + 1).drop_last() =~= e.take(i as int));
        }
        let obj = model_object(d);
        obj_insert(&mut out, d.model_id.clone(), obj);
        i = i + 1;
    }
    assert(e.take(n as int) =~= e);
    out
}

} // verus!

use vstd::prelude::*;
use indexmap::IndexMap;
use crate::json::{JsonValue, JVal};
use crate::assoc::{has_key, lookup, assoc_insert, assoc_shift_remove, unique_keys};

verus! {

/// Extra information stored beside a provider.
pub struct ProviderMeta {
    pub api_format: Option<String>,
}

/// A provider as it is persisted: its id, display name and settings document.
pub struct Provider {
    pub id: String,
    pub name: String,
    pub settings_config: JsonValue,
    pub website_url: Option<String>,
    pub meta: Option<ProviderMeta>,
}

impl Provider {
    /// A provider with the given id, name, settings and website, and no extra information.
    pub fn with_id(id: String, name: String, settings_config: JsonValue, website_url: Option<String>) -> (r: Self)
        ensures
            r.id@ == id@,
            r.name@ == name@,
            r.settings_config.jv() == settings_config.jv(),
            opt_str_view(r.website_url) == opt_str_view(website_url),
            r.meta is None,
    {
        Provider { id, name, settings_config, website_url, meta: None }
    }
}

/// One model entry of an OpenCode provider, as it is edited.
pub struct OpenCodeModelDraft {
    pub model_id: String,
    pub model_name: String,
    pub input_limit: Option<u64>,
    pub output_limit: Option<u64>,
    pub original_model_id: Option<String>,
    pub extra: JsonValue,
}

/// The mathematical form of a model entry.
pub struct ModelView {
    pub model_id: Seq<char>,
    pub model_name: Seq<char>,
    pub input_limit: Option<u64>,
    pub output_limit: Option<u64>,
    pub original_model_id: Option<Seq<char>>,
    pub extra: JVal,
}

pub open spec fn opt_str_view(o: Option<String>) -> Option<Seq<char>> {
    match o {
        Some(s) => Some(s@),
        None => None,
    }
}

impl OpenCodeModelDraft {
    pub open spec fn mv(&self) -> ModelView {
        ModelView {
            model_id: self.model_id@,
            model_name: self.model_name@,
            input_limit: self.input_limit,
            output_limit: self.output_limit,
            original_model_id: opt_str_view(self.original_model_id),
            extra: self.extra.jv(),
        }
    }

    /// A fresh entry for `model_id`: no name, no limits, no recorded original id,
    /// and an empty object of extra settings.
    pub fn new(model_id: String) -> (r: Self)
        ensures
            r.mv() == (ModelView {
                model_id: model_id@,
                model_name: Seq::empty(),
                input_limit: None,
                output_limit: None,
                original_model_id: None,
                extra: JVal::Object(Seq::empty()),
            }),
    {
        let r = OpenCodeModelDraft {
            model_id,
            model_name: String::new(),
            input_limit: None,
            output_limit: None,
            original_model_id: None,
            extra: JsonValue::Object(Vec::new()),
        };
        assert(r.extra.jv()->Object_0 =~= Seq::<(Seq<char>, JVal)>::empty());
        r
    }

    /// Copies the entry.
    pub fn duplicate(&self) -> (r: Self)
        ensures
            r.mv() == self.mv(),
    {
        OpenCodeModelDraft {
            model_id: self.model_id.clone(),
            model_name: self.model_name.clone(),
            input_limit: self.input_limit,
            output_limit: self.output_limit,
            original_model_id: match &self.original_model_id {
                Some(s) => Some(s.clone()),
                None => None,
            },
            extra: self.extra.duplicate(),
        }
    }
}

/// The map from model id to model entry that a provider draft holds.
pub type ModelMap = IndexMap<String, OpenCodeModelDraft>;

#[verifier::external_type_specification]
#[verifier::external_body]
#[verifier::reject_recursive_types(K)]
#[verifier::reject_recursive_types(V)]
#[verifier::reject_recursive_types(S)]
pub struct ExIndexMap<K, V, S>(IndexMap<K, V, S>);

/// The entries of a model map, in the map's order: each key with its entry.
pub uninterp spec fn model_entries(m: IndexMap<String, OpenCodeModelDraft>) -> Seq<(Seq<char>, ModelView)>;

/// Calls `IndexMap::new`: the map is empty.
#[verifier::external_body]
pub(crate) fn map_new() -> (m: ModelMap)
    ensures
        model_entries(m) == Seq::<(Seq<char>, ModelView)>::empty(),
{
    IndexMap::new()
}

/// Calls `IndexMap::len`: the number of entries.
#[verifier::external_body]
pub(crate) fn map_len(m: &ModelMap) -> (n: usize)
    ensures
        n == model_entries(*m).len(),
{
    m.len()
}

/// Calls `IndexMap::contains_key`: whether some entry has the key.
#[verifier::external_body]
pub(crate) fn map_contains(m: &ModelMap, key: &str) -> (b: bool)
    ensures
        b == has_key(model_entries(*m), key@),
{
    m.contains_key(key)
}

/// Calls `IndexMap::get_index`: the entry at position `i`, if there is one.
#[verifier::external_body]
pub(crate) fn map_get_index(m: &ModelMap, i: usize) -> (r: Option<(&String, &OpenCodeModelDraft)>)
    ensures
        i < model_entries(*m).len() ==> r is Some,
        i < model_entries(*m).len() ==> r.unwrap().0@ == model_entries(*m)[i as int].0,
        i < model_entries(*m).len() ==> r.unwrap().1.mv() == model_entries(*m)[i as int].1,
        i >= model_entries(*m).len() ==> r is None,
{
    m.get_index(i)
}

/// Calls `IndexMap::insert`: an entry with an equal key keeps its key and place and
/// takes the new value; otherwise the pair is appended. The replaced value is returned.
/// The map never holds a key twice, before or after, so the entry found is the only one
/// with that key.
#[verifier::external_body]
pub(crate) fn map_insert(m: &mut ModelMap, key: String, value: OpenCodeModelDraft) -> (r: Option<OpenCodeModelDraft>)
    ensures
        unique_keys(model_entries(*old(m))),
        unique_keys(model_entries(*final(m))),
        model_entries(*final(m)) == assoc_insert(model_entries(*old(m)), key@, value.mv()),
        r is Some == has_key(model_entries(*old(m)), key@),
        r is Some ==> r.unwrap().mv() == lookup(model_entries(*old(m)), key@).unwrap(),
{
    m.insert(key, value)
}

/// Calls `IndexMap::shift_remove`: the entry with the key is removed and returned,
/// and the entries after it move up one place, keeping their order. The map never holds
/// a key twice, before or after.
#[verifier::external_body]
pub(crate) fn map_shift_remove(m: &mut ModelMap, key: &str) -> (r: Option<OpenCodeModelDraft>)
    ensures
        unique_keys(model_entries(*old(m))),
        unique_keys(model_entries(*final(m))),
        model_entries(*final(m)) == assoc_shift_remove(model_entries(*old(m)), key@),
        r is Some == has_key(model_entries(*old(m)), key@),
        r is Some ==> r.unwrap().mv() == lookup(model_entries(*old(m)), key@).unwrap(),
{
    m.shift_remove(key)
}

} // verus!

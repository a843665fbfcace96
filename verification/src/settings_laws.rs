use vstd::prelude::*;
use crate::assoc::{
    assoc_insert, assoc_swap_remove, has_key, lemma_insert_unique, lemma_lookup_insert, lemma_swap_remove, lookup,
    unique_keys,
};
use crate::draft_json::{put_or_drop, settings_entries, models_json};
use crate::json::{JVal, jget, jstr};
use crate::opencode_config::root_entries;
use crate::provider::ModelView;
use crate::text::is_blank;

verus! {

/// The keys a draft writes into its settings document.
pub open spec fn managed_key(k: Seq<char>) -> bool {
    k == "npm"@ || k == "options"@ || k == "models"@ || k == "currentModel"@
}

/// The options object a serialized draft starts from: the stored one, if it is an object.
pub open spec fn stored_options(last: JVal) -> Seq<(Seq<char>, JVal)> {
    match lookup(root_entries(last), "options"@) {
        Some(JVal::Object(o)) => o,
        _ => Seq::empty(),
    }
}

/// The options a draft writes: the stored ones with `baseURL` and `apiKey` set or dropped.
pub open spec fn written_options(last: JVal, base_url: Seq<char>, api_key: Seq<char>) -> Seq<(Seq<char>, JVal)> {
    put_or_drop(put_or_drop(stored_options(last), "baseURL"@, base_url), "apiKey"@, api_key)
}

proof fn lemma_put_or_drop(o: Seq<(Seq<char>, JVal)>, key: Seq<char>, v: Seq<char>, k: Seq<char>)
    requires
        unique_keys(o),
    ensures
        unique_keys(put_or_drop(o, key, v)),
        lookup(put_or_drop(o, key, v), k) == if k == key {
            if v.len() > 0 { Some(JVal::Str(v)) } else { None }
        } else {
            lookup(o, k)
        },
{
    if v.len() > 0 {
        lemma_insert_unique(o, key, JVal::Str(v));
        lemma_lookup_insert(o, key, JVal::Str(v), k);
    } else {
        lemma_swap_remove(o, key, k);
    }
}

/// Serializing a draft into a stored settings document whose keys are unique:
/// every key the draft does not manage keeps its stored value; `npm` holds the draft's
/// package; `models` holds the serialized models; `currentModel` holds the current model
/// when it is not blank and is absent otherwise; `options` is present exactly when the
/// written options are not empty, and holds them; the keys stay unique.
pub proof fn law_settings_keep_unmanaged(
    last: JVal,
    npm: Seq<char>,
    base_url: Seq<char>,
    api_key: Seq<char>,
    models: Seq<(Seq<char>, ModelView)>,
    current: Seq<char>,
    k: Seq<char>,
)
    requires
        unique_keys(root_entries(last)),
    ensures
        ({
            let r = settings_entries(last, npm, base_url, api_key, models, current);
            let opts = written_options(last, base_url, api_key);
            &&& !managed_key(k) ==> lookup(r, k) == lookup(root_entries(last), k)
            &&& lookup(r, "npm"@) == Some(JVal::Str(npm))
            &&& lookup(r, "models"@) == Some(JVal::Object(crate::draft_json::models_json(models)))
            &&& lookup(r, "currentModel"@) == if is_blank(current) { None } else { Some(JVal::Str(current)) }
            &&& lookup(r, "options"@) == if opts.len() > 0 { Some(JVal::Object(opts)) } else { None }
            &&& unique_keys(r)
        }),
{
    let s0 = root_entries(last);
    let s1 = assoc_insert(s0, "npm"@, JVal::Str(npm));
    lemma_insert_unique(s0, "npm"@, JVal::Str(npm));
    let opts = written_options(last, base_url, api_key);
    lemma_lookup_insert(s0, "npm"@, JVal::Str(npm), "options"@);
    assert("options"@ != "npm"@) by { reveal_strlit("options"); reveal_strlit("npm"); assert("options"@[0] != "npm"@[0]); }
    assert("models"@ != "npm"@) by { reveal_strlit("models"); reveal_strlit("npm"); assert("models"@.len() != "npm"@.len()); }
    assert("models"@ != "options"@) by { reveal_strlit("models"); reveal_strlit("options"); assert("models"@.len() != "options"@.len()); }
    assert("currentModel"@ != "npm"@) by { reveal_strlit("currentModel"); reveal_strlit("npm"); assert("currentModel"@.len() != "npm"@.len()); }
    assert("currentModel"@ != "options"@) by { reveal_strlit("currentModel"); reveal_strlit("options"); assert("currentModel"@.len() != "options"@.len()); }
    assert("currentModel"@ != "models"@) by { reveal_strlit("currentModel"); reveal_strlit("models"); assert("currentModel"@.len() != "models"@.len()); }
    let s2 = assoc_swap_remove(s1, "options"@);
    let s3 = if opts.len() > 0 { assoc_insert(s2, "options"@, JVal::Object(opts)) } else { s2 };
    let mv = JVal::Object(models_json(models));
    let s4 = assoc_insert(s3, "models"@, mv);
    let r = settings_entries(last, npm, base_url, api_key, models, current);
    // each step, for the keys the law speaks of
    lemma_lookup_insert(s0, "npm"@, JVal::Str(npm), k);
    lemma_lookup_insert(s0, "npm"@, JVal::Str(npm), "npm"@);
    lemma_lookup_insert(s0, "npm"@, JVal::Str(npm), "models"@);
    lemma_lookup_insert(s0, "npm"@, JVal::Str(npm), "currentModel"@);
    lemma_swap_remove(s1, "options"@, k);
    lemma_swap_remove(s1, "options"@, "npm"@);
    lemma_swap_remove(s1, "options"@, "options"@);
    if opts.len() > 0 {
        lemma_insert_unique(s2, "options"@, JVal::Object(opts));
        lemma_lookup_insert(s2, "options"@, JVal::Object(opts), k);
        lemma_lookup_insert(s2, "options"@, JVal::Object(opts), "npm"@);
        lemma_lookup_insert(s2, "options"@, JVal::Object(opts), "options"@);
    }
    lemma_insert_unique(s3, "models"@, mv);
    lemma_lookup_insert(s3, "models"@, mv, k);
    lemma_lookup_insert(s3, "models"@, mv, "npm"@);
    lemma_lookup_insert(s3, "models"@, mv, "options"@);
    lemma_lookup_insert(s3, "models"@, mv, "models"@);
    if !is_blank(current) {
        lemma_insert_unique(s4, "currentModel"@, JVal::Str(current));
        lemma_lookup_insert(s4, "currentModel"@, JVal::Str(current), k);
        lemma_lookup_insert(s4, "currentModel"@, JVal::Str(current), "npm"@);
        lemma_lookup_insert(s4, "currentModel"@, JVal::Str(current), "options"@);
        lemma_lookup_insert(s4, "currentModel"@, JVal::Str(current), "models"@);
        lemma_lookup_insert(s4, "currentModel"@, JVal::Str(current), "currentModel"@);
    } else {
        lemma_swap_remove(s4, "currentModel"@, k);
        lemma_swap_remove(s4, "currentModel"@, "npm"@);
        lemma_swap_remove(s4, "currentModel"@, "options"@);
        lemma_swap_remove(s4, "currentModel"@, "models"@);
        lemma_swap_remove(s4, "currentModel"@, "currentModel"@);
    }
}

/// The options a draft writes keep every stored option other than `baseURL` and
/// `apiKey`, hold `baseURL` and `apiKey` exactly when the draft's values are not empty,
/// and keep keys unique.
pub proof fn law_written_options(last: JVal, base_url: Seq<char>, api_key: Seq<char>, k: Seq<char>)
    requires
        unique_keys(stored_options(last)),
    ensures
        ({
            let opts = written_options(last, base_url, api_key);
            &&& k != "baseURL"@ && k != "apiKey"@ ==> lookup(opts, k) == lookup(stored_options(last), k)
            &&& lookup(opts, "baseURL"@) == if base_url.len() > 0 { Some(JVal::Str(base_url)) } else { None }
            &&& lookup(opts, "apiKey"@) == if api_key.len() > 0 { Some(JVal::Str(api_key)) } else { None }
            &&& unique_keys(opts)
        }),
{
    let o = stored_options(last);
    let o1 = put_or_drop(o, "baseURL"@, base_url);
    assert("baseURL"@ != "apiKey"@) by { reveal_strlit("baseURL"); reveal_strlit("apiKey"); assert("baseURL"@[0] != "apiKey"@[0]); }
    lemma_put_or_drop(o, "baseURL"@, base_url, k);
    lemma_put_or_drop(o, "baseURL"@, base_url, "baseURL"@);
    lemma_put_or_drop(o1, "apiKey"@, api_key, k);
    lemma_put_or_drop(o1, "apiKey"@, api_key, "baseURL"@);
    lemma_put_or_drop(o1, "apiKey"@, api_key, "apiKey"@);
}

} // verus!
verus! {

/// A JSON value that is not an object, or an object whose keys are unique.
pub open spec fn object_keys_unique(v: JVal) -> bool {
    match v {
        JVal::Object(o) => unique_keys(o),
        _ => true,
    }
}

/// The name a model is saved under: its name, or its upper-cased id when the name is blank.
pub open spec fn saved_name(m: ModelView) -> Seq<char> {
    if is_blank(m.model_name) { crate::text::unicode_upper(m.model_id) } else { m.model_name }
}

/// With unique ids stored under their own ids, the serialized `models` object has one
/// entry per model, in the same order, under the same id.
pub proof fn law_models_json(e: Seq<(Seq<char>, ModelView)>)
    requires
        unique_keys(e),
        crate::draft_laws::keys_match_ids(e),
    ensures
        models_json(e).len() == e.len(),
        forall|i: int| 0 <= i < e.len() ==> #[trigger] models_json(e)[i] == (e[i].0, crate::draft_json::model_json(e[i].1)),
    decreases e.len(),
{
    if e.len() > 0 {
        let t = e.drop_last();
        assert(unique_keys(t)) by {
            assert forall|i: int, j: int| 0 <= i < t.len() && 0 <= j < t.len() && i != j implies #[trigger] t[i].0 != #[trigger] t[j].0 by {
                assert(t[i] == e[i] && t[j] == e[j]);
            }
        }
        assert(crate::draft_laws::keys_match_ids(t)) by {
            assert forall|i: int| 0 <= i < t.len() implies #[trigger] t[i].0 == t[i].1.model_id by {
                assert(t[i] == e[i]);
            }
        }
        law_models_json(t);
        let sub = models_json(t);
        let l = e.last();
        let n = t.len() as int;
        assert(l.1.model_id == l.0) by { assert(e[n] == l); }
        assert(!has_key(sub, l.0)) by {
            if has_key(sub, l.0) {
                let j = choose|j: int| 0 <= j < sub.len() && #[trigger] sub[j].0 == l.0;
                assert(sub[j].0 == e[j].0);
                assert(e[n].0 == e[j].0);
            }
        }
        assert forall|i: int| 0 <= i < e.len() implies #[trigger] models_json(e)[i] == (e[i].0, crate::draft_json::model_json(e[i].1)) by {
            if i < n {
                assert(e[i] == t[i]);
            }
        }
    }
}

/// With unique ids, loading a `models` object gives one entry per model, in the same
/// order, under the same id.
pub proof fn law_models_from_json(ms: Seq<(Seq<char>, JVal)>)
    requires
        unique_keys(ms),
    ensures
        crate::draft_json::models_from_json(ms).len() == ms.len(),
        forall|i: int| 0 <= i < ms.len() ==> #[trigger] crate::draft_json::models_from_json(ms)[i] == (
            ms[i].0,
            crate::draft_json::model_from_json(ms[i].0, ms[i].1),
        ),
    decreases ms.len(),
{
    if ms.len() > 0 {
        let t = ms.drop_last();
        assert(unique_keys(t)) by {
            assert forall|i: int, j: int| 0 <= i < t.len() && 0 <= j < t.len() && i != j implies #[trigger] t[i].0 != #[trigger] t[j].0 by {
                assert(t[i] == ms[i] && t[j] == ms[j]);
            }
        }
        law_models_from_json(t);
        let sub = crate::draft_json::models_from_json(t);
        let n = t.len() as int;
        let l = ms.last();
        assert(!has_key(sub, l.0)) by {
            if has_key(sub, l.0) {
                let j = choose|j: int| 0 <= j < sub.len() && #[trigger] sub[j].0 == l.0;
                assert(sub[j].0 == ms[j].0);
                assert(ms[n].0 == ms[j].0);
            }
        }
        assert forall|i: int| 0 <= i < ms.len() implies #[trigger] crate::draft_json::models_from_json(ms)[i] == (
            ms[i].0,
            crate::draft_json::model_from_json(ms[i].0, ms[i].1),
        ) by {
            if i < n {
                assert(ms[i] == t[i]);
            }
        }
    }
}

/// A saved model read back has the same id, the name it was saved under, the same limits,
/// and its id as original id.
pub proof fn law_model_roundtrip(m: ModelView)
    requires
        object_keys_unique(m.extra),
    ensures
        ({
            let r = crate::draft_json::model_from_json(m.model_id, crate::draft_json::model_json(m));
            &&& r.model_id == m.model_id
            &&& r.model_name == saved_name(m)
            &&& r.input_limit == m.input_limit
            &&& r.output_limit == m.output_limit
            &&& r.original_model_id == Some(m.model_id)
        }),
{
    let base = match m.extra {
        JVal::Object(o) => o,
        _ => Seq::empty(),
    };
    let name = saved_name(m);
    let with_name = assoc_insert(base, "name"@, JVal::Str(name));
    lemma_insert_unique(base, "name"@, JVal::Str(name));
    assert("name"@ != "limit"@) by { reveal_strlit("name"); reveal_strlit("limit"); assert("name"@.len() != "limit"@.len()); }
    assert("context"@ != "output"@) by { reveal_strlit("context"); reveal_strlit("output"); assert("context"@.len() != "output"@.len()); }
    lemma_lookup_insert(base, "name"@, JVal::Str(name), "name"@);
    let e = Seq::<(Seq<char>, JVal)>::empty();
    let with_input = match m.input_limit {
        Some(v) => assoc_insert(e, "context"@, JVal::Number(crate::json::JsonNumber::PosInt(v))),
        None => e,
    };
    let limit = match m.output_limit {
        Some(v) => assoc_insert(with_input, "output"@, JVal::Number(crate::json::JsonNumber::PosInt(v))),
        None => with_input,
    };
    if let Some(v) = m.input_limit {
        lemma_lookup_insert(e, "context"@, JVal::Number(crate::json::JsonNumber::PosInt(v)), "context"@);
        lemma_lookup_insert(e, "context"@, JVal::Number(crate::json::JsonNumber::PosInt(v)), "output"@);
    }
    if let Some(v) = m.output_limit {
        lemma_lookup_insert(with_input, "output"@, JVal::Number(crate::json::JsonNumber::PosInt(v)), "output"@);
        lemma_lookup_insert(with_input, "output"@, JVal::Number(crate::json::JsonNumber::PosInt(v)), "context"@);
    }
    if m.input_limit is Some || m.output_limit is Some {
        lemma_lookup_insert(with_name, "limit"@, JVal::Object(limit), "limit"@);
        lemma_lookup_insert(with_name, "limit"@, JVal::Object(limit), "name"@);
    } else {
        lemma_swap_remove(with_name, "limit"@, "limit"@);
        lemma_swap_remove(with_name, "limit"@, "name"@);
    }
}

} // verus!
verus! {

/// What a saved draft reads back as. Serializing a draft into a stored settings document
/// whose keys are unique, and loading the result: the npm package, base URL and API key
/// come back unchanged, a non-blank current model comes back unchanged, and the models
/// come back in the same order under the same ids, each with the name it was saved
/// under and the same limits. This holds when the draft's ids are unique and stored
/// under their own ids, and the models' extra settings have unique keys.
pub proof fn law_settings_roundtrip(
    last: JVal,
    npm: Seq<char>,
    base_url: Seq<char>,
    api_key: Seq<char>,
    e: Seq<(Seq<char>, ModelView)>,
    current: Seq<char>,
)
    requires
        unique_keys(root_entries(last)),
        unique_keys(stored_options(last)),
        unique_keys(e),
        crate::draft_laws::keys_match_ids(e),
        forall|i: int| 0 <= i < e.len() ==> object_keys_unique(#[trigger] e[i].1.extra),
    ensures
        ({
            let s = JVal::Object(settings_entries(last, npm, base_url, api_key, e, current));
            let loaded = crate::draft_json::settings_models(s);
            &&& crate::draft_json::str_or(jstr(jget(s, "npm"@)), crate::draft_json::default_npm()) == npm
            &&& crate::draft_json::settings_option_str(s, "baseURL"@) == base_url
            &&& crate::draft_json::settings_option_str(s, "apiKey"@) == api_key
            &&& !is_blank(current) ==> crate::draft_json::settings_current_model(s) == current
            &&& loaded.len() == e.len()
            &&& forall|i: int| 0 <= i < e.len() ==> {
                &&& (#[trigger] loaded[i]).0 == e[i].0
                &&& loaded[i].1.model_id == e[i].1.model_id
                &&& loaded[i].1.model_name == saved_name(e[i].1)
                &&& loaded[i].1.input_limit == e[i].1.input_limit
                &&& loaded[i].1.output_limit == e[i].1.output_limit
            }
        }),
{
    let r = settings_entries(last, npm, base_url, api_key, e, current);
    let s = JVal::Object(r);
    law_settings_keep_unmanaged(last, npm, base_url, api_key, e, current, "npm"@);
    law_written_options(last, base_url, api_key, "baseURL"@);
    let opts = written_options(last, base_url, api_key);
    law_models_json(e);
    let mj = models_json(e);
    assert(unique_keys(mj)) by {
        assert forall|i: int, j: int| 0 <= i < mj.len() && 0 <= j < mj.len() && i != j implies #[trigger] mj[i].0 != #[trigger] mj[j].0 by {
            assert(mj[i].0 == e[i].0 && mj[j].0 == e[j].0);
        }
    }
    law_models_from_json(mj);
    let loaded = crate::draft_json::settings_models(s);
    assert(loaded == crate::draft_json::models_from_json(mj));
    assert forall|i: int| 0 <= i < e.len() implies {
        &&& (#[trigger] loaded[i]).0 == e[i].0
        &&& loaded[i].1.model_id == e[i].1.model_id
        &&& loaded[i].1.model_name == saved_name(e[i].1)
        &&& loaded[i].1.input_limit == e[i].1.input_limit
        &&& loaded[i].1.output_limit == e[i].1.output_limit
    } by {
        assert(mj[i] == (e[i].0, crate::draft_json::model_json(e[i].1)));
        assert(e[i].0 == e[i].1.model_id);
        law_model_roundtrip(e[i].1);
    }
    if opts.len() == 0 {
        // nothing was written, so both values were empty
        assert(base_url.len() == 0 && api_key.len() == 0) by {
            if base_url.len() > 0 { assert(has_key(opts, "baseURL"@)); }
            if api_key.len() > 0 { assert(has_key(opts, "apiKey"@)); }
        }
    }
}

} // verus!
verus! {

/// Models loaded from any `models` object have unique ids, each stored under its own id,
/// whatever keys the object repeats.
pub proof fn law_loaded_models_well_formed(ms: Seq<(Seq<char>, JVal)>)
    ensures
        unique_keys(crate::draft_json::models_from_json(ms)),
        crate::draft_laws::keys_match_ids(crate::draft_json::models_from_json(ms)),
    decreases ms.len(),
{
    if ms.len() > 0 {
        let t = ms.drop_last();
        law_loaded_models_well_formed(t);
        let sub = crate::draft_json::models_from_json(t);
        let l = ms.last();
        let m = crate::draft_json::model_from_json(l.0, l.1);
        lemma_insert_unique(sub, l.0, m);
        let r = crate::draft_json::models_from_json(ms);
        assert(r == assoc_insert(sub, l.0, m));
        if has_key(sub, l.0) {
            crate::assoc::lemma_key_index(sub, l.0);
        }
        assert forall|i: int| 0 <= i < r.len() implies #[trigger] r[i].0 == r[i].1.model_id by {
            if i < sub.len() && !(has_key(sub, l.0) && i == crate::assoc::key_index(sub, l.0)) {
                assert(r[i] == sub[i]);
            }
        }
    }
}

} // verus!

use vstd::prelude::*;
use crate::assoc::{
    assoc_insert, has_key, lemma_insert_unique, lemma_key_index, lemma_lookup_insert, lemma_swap_remove, lookup,
    unique_keys,
};
use crate::draft_json::{
    default_npm, model_extra, model_from_json, model_json, models_from_json, settings_current_model, settings_models,
    settings_option_str, settings_entries, str_or,
};
use crate::json::{JVal, JsonNumber, jget, jstr, json_wf};
use crate::opencode_config::root_entries;
use crate::settings_laws::{law_models_from_json, law_models_json, law_loaded_models_well_formed, law_settings_keep_unmanaged, law_written_options, managed_key, stored_options, written_options};
use crate::text::is_blank;

verus! {

/// Two objects hold the same value under every key.
pub open spec fn same_lookups(a: Seq<(Seq<char>, JVal)>, b: Seq<(Seq<char>, JVal)>) -> bool {
    forall|k: Seq<char>| #[trigger] lookup(a, k) == lookup(b, k)
}

/// Two model objects hold the same settings: the same value under every key but `limit`,
/// and under `limit` nothing in both or objects holding the same values.
pub open spec fn same_model_settings(a: JVal, b: JVal) -> bool {
    match (a, b) {
        (JVal::Object(x), JVal::Object(y)) => {
            &&& forall|k: Seq<char>| k != "limit"@ ==> #[trigger] lookup(x, k) == lookup(y, k)
            &&& match (lookup(x, "limit"@), lookup(y, "limit"@)) {
                (None, None) => true,
                (Some(JVal::Object(p)), Some(JVal::Object(q))) => same_lookups(p, q),
                _ => false,
            }
        },
        _ => false,
    }
}

/// A limit object the editor keeps as it is: at least one entry, and only `context` and
/// `output`, each a non-negative integer.
pub open spec fn plain_limit(l: Seq<(Seq<char>, JVal)>) -> bool {
    &&& l.len() > 0
    &&& forall|i: int| 0 <= i < l.len() ==> (#[trigger] l[i].0 == "context"@ || l[i].0 == "output"@)
    &&& forall|i: int| 0 <= i < l.len() ==> (#[trigger] l[i].1 matches JVal::Number(JsonNumber::PosInt(_)))
}

/// A stored model the editor keeps as it is: an object with a non-blank string name, and
/// no limit or a plain limit.
pub open spec fn reloadable_model(v: JVal) -> bool {
    match v {
        JVal::Object(o) => {
            &&& (jstr(lookup(o, "name"@)) matches Some(n) && !is_blank(n))
            &&& match lookup(o, "limit"@) {
                None => true,
                Some(JVal::Object(l)) => plain_limit(l),
                _ => false,
            }
        },
        _ => false,
    }
}

/// An optional text setting the editor keeps as it is: absent, or a non-empty string.
pub open spec fn kept_text(v: Option<JVal>) -> bool {
    match v {
        None => true,
        Some(JVal::Str(s)) => s.len() > 0,
        _ => false,
    }
}

/// A stored OpenCode settings document the editor keeps as it is: a valid document (no
/// object holds a key twice, as a parsed document) that is an object with a string
/// `npm`; no `options`, or a non-empty object whose `baseURL` and `apiKey` are absent or
/// non-empty strings; a `models` object whose models are kept as they are; and a
/// non-blank string `currentModel`, or none when there is no model.
pub open spec fn reloadable_settings(s: JVal) -> bool {
    &&& json_wf(s)
    &&& match s {
        JVal::Object(o) => {
            &&& jstr(lookup(o, "npm"@)) is Some
            &&& match lookup(o, "options"@) {
                None => true,
                Some(JVal::Object(p)) => p.len() > 0 && kept_text(lookup(p, "baseURL"@)) && kept_text(lookup(p, "apiKey"@)),
                _ => false,
            }
            &&& match lookup(o, "models"@) {
                Some(JVal::Object(ms)) => {
                    &&& forall|i: int| 0 <= i < ms.len() ==> reloadable_model(#[trigger] ms[i].1)
                    &&& match lookup(o, "currentModel"@) {
                        Some(JVal::Str(c)) => !is_blank(c),
                        None => ms.len() == 0,
                        _ => false,
                    }
                },
                _ => false,
            }
        },
        _ => false,
    }
}

/// A value stored in a valid object is valid.
proof fn lemma_wf_lookup(o: Seq<(Seq<char>, JVal)>, k: Seq<char>)
    requires
        json_wf(JVal::Object(o)),
        lookup(o, k) is Some,
    ensures
        json_wf(lookup(o, k).unwrap()),
{
    lemma_key_index(o, k);
    let i = crate::assoc::key_index(o, k);
    assert(json_wf(o[i].1));
}

/// With unique keys, a sequence is its last entry inserted after the others.
proof fn lemma_last_insert(o: Seq<(Seq<char>, JVal)>)
    requires
        unique_keys(o),
        o.len() > 0,
    ensures
        unique_keys(o.drop_last()),
        !has_key(o.drop_last(), o.last().0),
        assoc_insert(o.drop_last(), o.last().0, o.last().1) == o,
{
    let t = o.drop_last();
    assert forall|i: int, j: int| 0 <= i < t.len() && 0 <= j < t.len() && i != j implies #[trigger] t[i].0 != #[trigger] t[j].0 by {
        assert(t[i] == o[i] && t[j] == o[j]);
    }
    if has_key(t, o.last().0) {
        let i = choose|i: int| 0 <= i < t.len() && #[trigger] t[i].0 == o.last().0;
        assert(o[i].0 == o[o.len() - 1].0);
    }
    assert(t.push(o.last()) =~= o);
}

/// The extra settings of a model object hold every entry but `name` and `limit`.
proof fn lemma_model_extra(o: Seq<(Seq<char>, JVal)>, k: Seq<char>)
    requires
        unique_keys(o),
    ensures
        unique_keys(model_extra(o)),
        lookup(model_extra(o), k) == if k == "name"@ || k == "limit"@ { None } else { lookup(o, k) },
    decreases o.len(),
{
    if o.len() > 0 {
        let t = o.drop_last();
        let p = o.last();
        lemma_last_insert(o);
        lemma_model_extra(t, k);
        lemma_lookup_insert(t, p.0, p.1, k);
        let sub = model_extra(t);
        if p.0 != "name"@ && p.0 != "limit"@ {
            lemma_insert_unique(sub, p.0, p.1);
            lemma_lookup_insert(sub, p.0, p.1, k);
        }
    } else {
        assert(!has_key(o, k));
        assert(!has_key(model_extra(o), k));
    }
}

/// In a plain limit, each of `context` and `output` is absent or a non-negative integer,
/// no other key is present, and one of the two is present.
proof fn lemma_plain_limit(l: Seq<(Seq<char>, JVal)>, k: Seq<char>)
    requires
        plain_limit(l),
        unique_keys(l),
    ensures
        lookup(l, k) is Some ==> (k == "context"@ || k == "output"@),
        lookup(l, k) matches Some(v) ==> (v matches JVal::Number(JsonNumber::PosInt(_))),
        has_key(l, "context"@) || has_key(l, "output"@),
{
    if has_key(l, k) {
        lemma_key_index(l, k);
        let i = crate::assoc::key_index(l, k);
        assert(l[i].0 == "context"@ || l[i].0 == "output"@);
        assert(l[i].1 matches JVal::Number(JsonNumber::PosInt(_)));
    }
    assert(l[0].0 == "context"@ || l[0].0 == "output"@);
}

/// A model the editor keeps as it is, loaded and saved back, holds the same settings.
pub proof fn lemma_model_reload(id: Seq<char>, v: JVal)
    requires
        reloadable_model(v),
        json_wf(v),
    ensures
        same_model_settings(model_json(model_from_json(id, v)), v),
{
    let o = v->Object_0;
    assert(unique_keys(o));
    let m = model_from_json(id, v);
    let base = model_extra(o);
    let n = jstr(lookup(o, "name"@)).unwrap();
    assert(m.model_name == n);
    let with_name = assoc_insert(base, "name"@, JVal::Str(n));
    assert("name"@ != "limit"@) by { reveal_strlit("name"); reveal_strlit("limit"); assert("name"@.len() != "limit"@.len()); }
    assert("context"@ != "output"@) by { reveal_strlit("context"); reveal_strlit("output"); assert("context"@.len() != "output"@.len()); }
    lemma_model_extra(o, "name"@);
    lemma_insert_unique(base, "name"@, JVal::Str(n));
    let e = Seq::<(Seq<char>, JVal)>::empty();
    let with_input = match m.input_limit {
        Some(x) => assoc_insert(e, "context"@, JVal::Number(JsonNumber::PosInt(x))),
        None => e,
    };
    let limit = match m.output_limit {
        Some(x) => assoc_insert(with_input, "output"@, JVal::Number(JsonNumber::PosInt(x))),
        None => with_input,
    };
    let r = model_json(m);
    let x = r->Object_0;
    if m.input_limit is Some || m.output_limit is Some {
        assert(x == assoc_insert(with_name, "limit"@, JVal::Object(limit)));
        lemma_lookup_insert(with_name, "limit"@, JVal::Object(limit), "limit"@);
    } else {
        assert(x == crate::assoc::assoc_swap_remove(with_name, "limit"@));
        lemma_swap_remove(with_name, "limit"@, "limit"@);
    }
    assert forall|k: Seq<char>| k != "limit"@ implies #[trigger] lookup(x, k) == lookup(o, k) by {
        lemma_model_extra(o, k);
        lemma_lookup_insert(base, "name"@, JVal::Str(n), k);
        if m.input_limit is Some || m.output_limit is Some {
            lemma_lookup_insert(with_name, "limit"@, JVal::Object(limit), k);
        } else {
            lemma_swap_remove(with_name, "limit"@, k);
        }
    }
    match lookup(o, "limit"@) {
        None => {
            assert(m.input_limit is None && m.output_limit is None);
        },
        Some(lv) => {
            let l = lv->Object_0;
            lemma_wf_lookup(o, "limit"@);
            assert(unique_keys(l));
            lemma_plain_limit(l, "context"@);
            lemma_plain_limit(l, "output"@);
            assert(m.input_limit is Some || m.output_limit is Some);
            assert forall|k: Seq<char>| #[trigger] lookup(limit, k) == lookup(l, k) by {
                lemma_plain_limit(l, k);
                if let Some(a) = m.input_limit {
                    lemma_lookup_insert(e, "context"@, JVal::Number(JsonNumber::PosInt(a)), k);
                } else {
                    assert(!has_key(e, k));
                }
                if let Some(b) = m.output_limit {
                    lemma_lookup_insert(with_input, "output"@, JVal::Number(JsonNumber::PosInt(b)), k);
                }
                if m.input_limit is None {
                    assert(!has_key(with_input, k));
                }
            }
        },
    }
}

/// Inserting under a key the value it already holds changes nothing.
proof fn lemma_insert_same(o: Seq<(Seq<char>, JVal)>, k: Seq<char>, v: JVal)
    requires
        lookup(o, k) == Some(v),
    ensures
        assoc_insert(o, k, v) == o,
{
    lemma_key_index(o, k);
    let i = crate::assoc::key_index(o, k);
    assert(o.update(i, (o[i].0, v)) =~= o);
}

/// The settings document that a draft loaded from `s` and left untouched writes.
pub open spec fn reloaded(s: JVal) -> Seq<(Seq<char>, JVal)> {
    settings_entries(
        s,
        str_or(jstr(jget(s, "npm"@)), default_npm()),
        settings_option_str(s, "baseURL"@),
        settings_option_str(s, "apiKey"@),
        settings_models(s),
        settings_current_model(s),
    )
}

/// Two `models` objects hold the same ids in the same order, each model with the same
/// settings.
pub open spec fn same_models(a: Seq<(Seq<char>, JVal)>, b: Seq<(Seq<char>, JVal)>) -> bool {
    &&& a.len() == b.len()
    &&& forall|i: int| 0 <= i < b.len() ==> #[trigger] a[i].0 == b[i].0 && same_model_settings(a[i].1, b[i].1)
}

/// Loading a stored provider into the editor and saving it back loses nothing. For a
/// settings document the editor keeps as it is (`reloadable_settings`), the document the
/// loaded draft writes holds the same value under every key but `models`, and its
/// `models` object holds the same ids in the same order, each model with the same
/// settings (`limit` entries may come back in another order). A document outside
/// `reloadable_settings` is not kept as it is: for instance a model without a name is
/// saved with its id as name.
pub proof fn law_load_save_keeps_settings(s: JVal)
    requires
        reloadable_settings(s),
    ensures
        forall|k: Seq<char>| k != "models"@ ==> #[trigger] lookup(reloaded(s), k) == jget(s, k),
        lookup(reloaded(s), "models"@) matches Some(JVal::Object(m2)) && same_models(m2, jget(s, "models"@)->Some_0->Object_0),
{
    let o = root_entries(s);
    let npm = str_or(jstr(jget(s, "npm"@)), default_npm());
    let base = settings_option_str(s, "baseURL"@);
    let api = settings_option_str(s, "apiKey"@);
    let e = settings_models(s);
    let cur = settings_current_model(s);
    let ms = jget(s, "models"@)->Some_0->Object_0;
    let r = settings_entries(s, npm, base, api, e, cur);
    let opts = written_options(s, base, api);
    let p = stored_options(s);
    assert(unique_keys(o));
    if lookup(o, "options"@) is Some {
        lemma_wf_lookup(o, "options"@);
    }
    assert(unique_keys(p));
    lemma_wf_lookup(o, "models"@);
    assert(unique_keys(ms));
    // The options come back as they were stored.
    assert(opts == p) by {
        let step1 = crate::draft_json::put_or_drop(p, "baseURL"@, base);
        match lookup(p, "baseURL"@) {
            Some(b) => lemma_insert_same(p, "baseURL"@, b),
            None => {},
        }
        assert(step1 == p);
        match lookup(p, "apiKey"@) {
            Some(a) => lemma_insert_same(p, "apiKey"@, a),
            None => {},
        }
    }
    // The models come back under the same ids, each with the same settings.
    law_models_from_json(ms);
    law_loaded_models_well_formed(ms);
    assert(e == models_from_json(ms));
    law_models_json(e);
    assert forall|k: Seq<char>| k != "models"@ implies #[trigger] lookup(r, k) == jget(s, k) by {
        law_settings_keep_unmanaged(s, npm, base, api, e, cur, k);
        if k == "npm"@ {
        } else if k == "options"@ {
        } else if k == "currentModel"@ {
        }
    }
    law_settings_keep_unmanaged(s, npm, base, api, e, cur, "models"@);
    let m2 = crate::draft_json::models_json(e);
    assert forall|i: int| 0 <= i < ms.len() implies #[trigger] m2[i].0 == ms[i].0 && same_model_settings(m2[i].1, ms[i].1) by {
        assert(e[i] == (ms[i].0, model_from_json(ms[i].0, ms[i].1)));
        assert(m2[i] == (e[i].0, model_json(e[i].1)));
        assert(json_wf(ms[i].1));
        lemma_model_reload(ms[i].0, ms[i].1);
    }
    assert(lookup(r, "models"@) == Some(JVal::Object(m2)));
    assert(same_models(m2, ms));
}

} // verus!

use vstd::prelude::*;
use crate::assoc::{assoc_insert, assoc_shift_remove, has_key, is_min_key, lemma_insert_unique, lemma_key_index, lemma_lookup_insert, lemma_min_key_exists, lemma_shift_remove, lookup, min_key, unique_keys};
use crate::draft::{model_error, models_error, renamed, OpenCodeProviderDraft};
use crate::draft_json::{default_npm, models_from_json, settings_current_model, settings_models, settings_option_str, str_or};
use crate::json::{jget, jobj, jstr, ju64};
use crate::provider::Provider;
use crate::text::is_blank;
use crate::provider::ModelView;

verus! {

/// Every entry is stored under its own model id.
pub open spec fn keys_match_ids(e: Seq<(Seq<char>, ModelView)>) -> bool {
    forall|i: int| 0 <= i < e.len() ==> #[trigger] e[i].0 == e[i].1.model_id
}

/// Adding a model that is not yet there makes it present under its id, keeps every
/// other model, keeps ids unique and keeps every entry under its own id.
pub proof fn law_add_model(e: Seq<(Seq<char>, ModelView)>, m: ModelView, other: Seq<char>)
    requires
        !has_key(e, m.model_id),
    ensures
        has_key(e.push((m.model_id, m)), m.model_id),
        lookup(e.push((m.model_id, m)), m.model_id) == Some(m),
        other != m.model_id ==> lookup(e.push((m.model_id, m)), other) == lookup(e, other),
        unique_keys(e) ==> unique_keys(e.push((m.model_id, m))),
        keys_match_ids(e) ==> keys_match_ids(e.push((m.model_id, m))),
        e.push((m.model_id, m)).len() == e.len() + 1,
{
    assert(assoc_insert(e, m.model_id, m) == e.push((m.model_id, m)));
    lemma_lookup_insert(e, m.model_id, m, m.model_id);
    lemma_lookup_insert(e, m.model_id, m, other);
    if unique_keys(e) {
        lemma_insert_unique(e, m.model_id, m);
    }
}

/// Removing a model leaves no model under its id, keeps every other model as it was,
/// shortens the list by one and keeps ids unique and entries under their own ids.
pub proof fn law_remove_model(e: Seq<(Seq<char>, ModelView)>, id: Seq<char>, other: Seq<char>)
    requires
        unique_keys(e),
        has_key(e, id),
    ensures
        !has_key(assoc_shift_remove(e, id), id),
        other != id ==> lookup(assoc_shift_remove(e, id), other) == lookup(e, other),
        assoc_shift_remove(e, id).len() == e.len() - 1,
        unique_keys(assoc_shift_remove(e, id)),
        keys_match_ids(e) ==> keys_match_ids(assoc_shift_remove(e, id)),
{
    lemma_shift_remove(e, id, id);
    lemma_shift_remove(e, id, other);
    lemma_key_index(e, id);
    let r = assoc_shift_remove(e, id);
    let k = crate::assoc::key_index(e, id);
    if keys_match_ids(e) {
        assert forall|i: int| 0 <= i < r.len() implies #[trigger] r[i].0 == r[i].1.model_id by {
            if i < k {
                assert(r[i] == e[i]);
            } else {
                assert(r[i] == e[i + 1]);
            }
        }
    }
}

/// After the current model is removed, the new current model (the smallest remaining id)
/// is a configured model, and no configured id is below it; it is empty only when no
/// model remains.
pub proof fn law_current_model_fallback(remaining: Seq<(Seq<char>, ModelView)>)
    ensures
        remaining.len() > 0 ==> is_min_key(remaining, min_key(remaining)),
        remaining.len() > 0 ==> has_key(remaining, min_key(remaining)),
        remaining.len() == 0 ==> min_key(remaining) == Seq::<char>::empty(),
{
    if remaining.len() > 0 {
        lemma_min_key_exists(remaining);
    }
}

/// A successful rename is atomic: the old id is gone (unless it equals the new one), the
/// entry is under the new id with that id and with its original id remembered, every
/// other model is unchanged, the number of models is kept, ids stay unique and entries
/// stay under their own ids.
pub proof fn law_rename_model(e: Seq<(Seq<char>, ModelView)>, old_id: Seq<char>, new_id: Seq<char>, other: Seq<char>)
    requires
        unique_keys(e),
        has_key(e, old_id),
        old_id == new_id || !has_key(e, new_id),
    ensures
        ({
            let m = lookup(e, old_id).unwrap();
            let r = assoc_insert(assoc_shift_remove(e, old_id), new_id, renamed(m, old_id, new_id));
            &&& old_id != new_id ==> !has_key(r, old_id)
            &&& has_key(r, new_id)
            &&& lookup(r, new_id) == Some(renamed(m, old_id, new_id))
            &&& lookup(r, new_id).unwrap().model_id == new_id
            &&& lookup(r, new_id).unwrap().original_model_id is Some
            &&& (other != old_id && other != new_id ==> lookup(r, other) == lookup(e, other))
            &&& r.len() == e.len()
            &&& unique_keys(r)
            &&& (keys_match_ids(e) ==> keys_match_ids(r))
        }),
{
    let m = lookup(e, old_id).unwrap();
    let s = assoc_shift_remove(e, old_id);
    let v = renamed(m, old_id, new_id);
    let r = assoc_insert(s, new_id, v);
    lemma_shift_remove(e, old_id, old_id);
    lemma_shift_remove(e, old_id, new_id);
    lemma_shift_remove(e, old_id, other);
    lemma_lookup_insert(s, new_id, v, new_id);
    lemma_lookup_insert(s, new_id, v, old_id);
    lemma_lookup_insert(s, new_id, v, other);
    lemma_insert_unique(s, new_id, v);
    assert(!has_key(s, new_id));
    assert(r == s.push((new_id, v)));
    law_remove_model(e, old_id, other);
    if keys_match_ids(e) {
        assert forall|i: int| 0 <= i < r.len() implies #[trigger] r[i].0 == r[i].1.model_id by {
            if i < s.len() {
                assert(r[i] == s[i]);
            }
        }
    }
}

/// The draft's consistency: every model is stored under its own id, and the current
/// model is empty or configured.
pub open spec fn draft_consistent(e: Seq<(Seq<char>, ModelView)>, current: Seq<char>) -> bool {
    &&& keys_match_ids(e)
    &&& (current.len() == 0 || has_key(e, current))
}

/// Adding a new model keeps the draft consistent; a blank current model becomes the
/// first model.
pub proof fn law_add_keeps_consistent(e: Seq<(Seq<char>, ModelView)>, current: Seq<char>, m: ModelView)
    requires
        !has_key(e, m.model_id),
        draft_consistent(e, current),
    ensures
        ({
            let r = e.push((m.model_id, m));
            draft_consistent(r, if is_blank(current) { r[0].0 } else { current })
        }),
{
    let r = e.push((m.model_id, m));
    law_add_model(e, m, current);
    assert(r[0].0 == r[0].0);
    assert(has_key(r, r[0].0));
    if current.len() != 0 {
        lemma_lookup_insert(e, m.model_id, m, current);
        assert(assoc_insert(e, m.model_id, m) == r);
    }
}

/// Removing a configured model keeps the draft consistent: when it was the current
/// model, the smallest remaining id (or the empty string) becomes current.
pub proof fn law_remove_keeps_consistent(e: Seq<(Seq<char>, ModelView)>, current: Seq<char>, id: Seq<char>)
    requires
        unique_keys(e),
        has_key(e, id),
        draft_consistent(e, current),
    ensures
        ({
            let r = assoc_shift_remove(e, id);
            draft_consistent(r, if current == id { min_key(r) } else { current })
        }),
{
    let r = assoc_shift_remove(e, id);
    law_remove_model(e, id, current);
    law_current_model_fallback(r);
    lemma_shift_remove(e, id, current);
}

/// A successful rename keeps the draft consistent: no key differs from its model's id
/// and the current model is never left dangling (it follows the rename).
pub proof fn law_rename_keeps_consistent(
    e: Seq<(Seq<char>, ModelView)>,
    current: Seq<char>,
    old_id: Seq<char>,
    new_id: Seq<char>,
)
    requires
        unique_keys(e),
        has_key(e, old_id),
        old_id == new_id || !has_key(e, new_id),
        draft_consistent(e, current),
    ensures
        ({
            let r = assoc_insert(assoc_shift_remove(e, old_id), new_id, renamed(lookup(e, old_id).unwrap(), old_id, new_id));
            draft_consistent(r, if current == old_id { new_id } else { current })
        }),
{
    law_rename_model(e, old_id, new_id, current);
}

/// A limit the editor accepts: absent, or between 1 and `u32::MAX`.
pub open spec fn limit_in_range(l: Option<u64>) -> bool {
    match l {
        Some(v) => 1 <= v && v <= 0xFFFF_FFFFu64,
        None => true,
    }
}

/// The error of a model list is the error of one of its models, and there is none
/// exactly when no model has one.
proof fn lemma_models_error(e: Seq<(Seq<char>, ModelView)>)
    ensures
        (models_error(e) is None) == (forall|i: int| 0 <= i < e.len() ==> (#[trigger] model_error(e[i].1)) is None),
        models_error(e) is Some ==> exists|i: int| 0 <= i < e.len() && models_error(e) == #[trigger] model_error(e[i].1),
    decreases e.len(),
{
    if e.len() > 0 {
        let t = e.drop_first();
        lemma_models_error(t);
        assert forall|i: int| 0 <= i < t.len() implies #[trigger] t[i] == e[i + 1] by {}
        if models_error(e) is None {
            assert forall|i: int| 0 <= i < e.len() implies (#[trigger] model_error(e[i].1)) is None by {
                if i > 0 {
                    assert(e[i] == t[i - 1]);
                }
            }
        }
        if models_error(e) is Some && model_error(e[0].1) is None {
            let j = choose|j: int| 0 <= j < t.len() && models_error(t) == #[trigger] model_error(t[j].1);
            assert(e[j + 1] == t[j]);
        }
    }
}

/// Saving is accepted only when every model has a non-blank id and limits that are
/// absent or between 1 and `u32::MAX`. When every id is non-blank, a model with an input
/// or output limit of 0 or above `u32::MAX` refuses the save with "Must be positive
/// integer".
pub proof fn law_validate_checks_limits(d: OpenCodeProviderDraft, r: Result<(), String>)
    requires
        models_error(d.entries()) is Some ==> r is Err && r->Err_0@ == models_error(d.entries()).unwrap(),
        models_error(d.entries()) is None && !is_blank(d.current_model@) && !has_key(d.entries(), d.current_model@)
            ==> r is Err && r->Err_0@ == crate::draft::msg_not_configured(d.current_model@),
        models_error(d.entries()) is None && (is_blank(d.current_model@) || has_key(d.entries(), d.current_model@))
            ==> r is Ok,
    ensures
        ({
            let e = d.entries();
            &&& r is Ok ==> forall|i: int| 0 <= i < e.len() ==> !is_blank((#[trigger] e[i]).1.model_id)
                && limit_in_range(e[i].1.input_limit) && limit_in_range(e[i].1.output_limit)
            &&& (forall|i: int| 0 <= i < e.len() ==> !is_blank((#[trigger] e[i]).1.model_id))
                && (exists|i: int| 0 <= i < e.len() && !(limit_in_range((#[trigger] e[i]).1.input_limit)
                && limit_in_range(e[i].1.output_limit)))
                ==> r is Err && r->Err_0@ == "Must be positive integer"@
            &&& e.len() > 0 && is_blank(e[0].1.model_id) ==> r is Err && r->Err_0@ == "Model ID is required"@
            &&& (forall|i: int| 0 <= i < e.len() ==> !is_blank((#[trigger] e[i]).1.model_id)
                && limit_in_range(e[i].1.input_limit) && limit_in_range(e[i].1.output_limit)) ==> (r is Ok <==> (
                is_blank(d.current_model@) || has_key(e, d.current_model@)))
        }),
{
    let e = d.entries();
    lemma_models_error(e);
    if forall|i: int| 0 <= i < e.len() ==> !is_blank((#[trigger] e[i]).1.model_id)
        && limit_in_range(e[i].1.input_limit) && limit_in_range(e[i].1.output_limit) {
        assert forall|i: int| 0 <= i < e.len() implies (#[trigger] model_error(e[i].1)) is None by {
            assert(!is_blank(e[i].1.model_id));
        }
    }
    if r is Ok {
        assert(models_error(e) is None);
        assert forall|i: int| 0 <= i < e.len() implies !is_blank((#[trigger] e[i]).1.model_id)
            && limit_in_range(e[i].1.input_limit) && limit_in_range(e[i].1.output_limit) by {
            assert(model_error(e[i].1) is None);
        }
    }
    if (forall|i: int| 0 <= i < e.len() ==> !is_blank((#[trigger] e[i]).1.model_id))
        && (exists|i: int| 0 <= i < e.len() && !(limit_in_range((#[trigger] e[i]).1.input_limit)
        && limit_in_range(e[i].1.output_limit))) {
        let k = choose|i: int| 0 <= i < e.len() && !(limit_in_range((#[trigger] e[i]).1.input_limit)
            && limit_in_range(e[i].1.output_limit));
        assert(model_error(e[k].1) is Some);
        let j = choose|j: int| 0 <= j < e.len() && models_error(e) == #[trigger] model_error(e[j].1);
        assert(!is_blank(e[j].1.model_id));
    }
}

/// The models a settings document describes start with the first stored model: there
/// are some exactly when the `models` object has entries, and the first has its id.
proof fn lemma_models_from_json_first(ms: Seq<(Seq<char>, crate::json::JVal)>)
    ensures
        (models_from_json(ms).len() > 0) == (ms.len() > 0),
        ms.len() > 0 ==> models_from_json(ms)[0].0 == ms[0].0,
    decreases ms.len(),
{
    if ms.len() > 0 {
        let t = ms.drop_last();
        lemma_models_from_json_first(t);
        let sub = models_from_json(t);
        let l = ms.last();
        let m = crate::draft_json::model_from_json(l.0, l.1);
        if has_key(sub, l.0) {
            lemma_key_index(sub, l.0);
        }
        if t.len() > 0 {
            assert(t[0] == ms[0]);
        }
        assert(assoc_insert(sub, l.0, m).len() > 0);
    }
}

/// Loading a stored provider takes its `currentModel` text as the current model; without
/// one, the first model in the document's order (not the smallest id), or the empty
/// string when there is no model.
pub proof fn law_loaded_current_model(p: Provider, r: OpenCodeProviderDraft)
    requires
        r.entries() == settings_models(p.settings_config.jv()),
        r.current_model@ == settings_current_model(p.settings_config.jv()),
    ensures
        ({
            let s = p.settings_config.jv();
            let c = jstr(jget(s, "currentModel"@));
            let ms = jobj(jget(s, "models"@));
            &&& c is Some ==> r.current_model@ == c.unwrap()
            &&& c is None && ms is Some && ms.unwrap().len() > 0 ==> r.current_model@ == ms.unwrap()[0].0
                && r.entries().len() > 0 && r.entries()[0].0 == r.current_model@
            &&& c is None && (ms is None || ms.unwrap().len() == 0) ==> r.current_model@.len() == 0
                && r.entries().len() == 0
        }),
{
    let s = p.settings_config.jv();
    if jobj(jget(s, "models"@)) is Some {
        lemma_models_from_json_first(jobj(jget(s, "models"@)).unwrap());
    }
}

/// Loading a stored provider: the npm package is the `npm` text, or
/// `@ai-sdk/openai-compatible`; the base URL and API key are the `options.baseURL` and
/// `options.apiKey` texts, or empty. With a `models` object whose ids are unique, the
/// draft holds one model per stored entry, in the same order and under the same id, each
/// named by its `name` text (its id without one), with the `limit.context` and
/// `limit.output` numbers, and its id as original id. Without a `models` object the
/// draft has no model.
pub proof fn law_loaded_draft_fields(p: Provider, r: OpenCodeProviderDraft)
    requires
        r.npm@ == str_or(jstr(jget(p.settings_config.jv(), "npm"@)), default_npm()),
        r.base_url@ == settings_option_str(p.settings_config.jv(), "baseURL"@),
        r.api_key@ == settings_option_str(p.settings_config.jv(), "apiKey"@),
        r.entries() == settings_models(p.settings_config.jv()),
    ensures
        ({
            let s = p.settings_config.jv();
            let opts = jobj(jget(s, "options"@));
            let ms = jobj(jget(s, "models"@));
            let e = r.entries();
            &&& jstr(jget(s, "npm"@)) is Some ==> r.npm@ == jstr(jget(s, "npm"@)).unwrap()
            &&& jstr(jget(s, "npm"@)) is None ==> r.npm@ == "@ai-sdk/openai-compatible"@
            &&& (opts is Some && jstr(lookup(opts.unwrap(), "baseURL"@)) is Some) ==> r.base_url@ == jstr(lookup(opts.unwrap(), "baseURL"@)).unwrap()
            &&& !(opts is Some && jstr(lookup(opts.unwrap(), "baseURL"@)) is Some) ==> r.base_url@.len() == 0
            &&& (opts is Some && jstr(lookup(opts.unwrap(), "apiKey"@)) is Some) ==> r.api_key@ == jstr(lookup(opts.unwrap(), "apiKey"@)).unwrap()
            &&& !(opts is Some && jstr(lookup(opts.unwrap(), "apiKey"@)) is Some) ==> r.api_key@.len() == 0
            &&& jobj(jget(s, "models"@)) is None ==> e.len() == 0
            &&& (ms is Some && unique_keys(ms.unwrap())) ==> e.len() == ms.unwrap().len() && forall|i: int|
                0 <= i < ms.unwrap().len() ==> {
                    let v = ms.unwrap()[i].1;
                    let limit = jobj(jget(v, "limit"@));
                    &&& (#[trigger] e[i]).0 == ms.unwrap()[i].0
                    &&& e[i].1.model_id == ms.unwrap()[i].0
                    &&& e[i].1.original_model_id == Some(ms.unwrap()[i].0)
                    &&& (jstr(jget(v, "name"@)) is Some ==> e[i].1.model_name == jstr(jget(v, "name"@)).unwrap())
                    &&& (jstr(jget(v, "name"@)) is None ==> e[i].1.model_name == ms.unwrap()[i].0)
                    &&& e[i].1.input_limit == (if limit is Some { ju64(lookup(limit.unwrap(), "context"@)) } else { None })
                    &&& e[i].1.output_limit == (if limit is Some { ju64(lookup(limit.unwrap(), "output"@)) } else { None })
                }
        }),
{
    let s = p.settings_config.jv();
    if jobj(jget(s, "models"@)) is Some && unique_keys(jobj(jget(s, "models"@)).unwrap()) {
        crate::settings_laws::law_models_from_json(jobj(jget(s, "models"@)).unwrap());
    }
}

} // verus!

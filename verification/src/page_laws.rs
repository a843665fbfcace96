use vstd::prelude::*;
use crate::assoc::lookup;
use crate::form::{is_set_to, ClaudeApiFormat, GeminiAuthType, ProviderAddFormState};
use crate::provider::opt_str_view;
use crate::json::{av, jarr};
use crate::form_load::{claude_filled, codex_filled, gemini_filled, openclaw_filled, CodexConfigSnippet, keyed, listed_models, models_view, opencode_filled, precedes, rank_of};
use crate::json::ju64;
use crate::text::decimal_spec;
use crate::json::{JVal, jget, jobj, jstr};
use crate::model_keys::{detail_field, edit_step, nav_done, CursorMove, DetailToast, EditStep, KeyCode, KeyPress, NavStep};
use crate::model_view::list_item_spec;
use crate::provider::OpenCodeModelDraft;
use crate::text::{is_blank, trim_spec, unicode_upper};
use crate::tui_types::ProviderAddField;
use crate::provider::Provider;

verus! {

/// The value under `key` is an object with at least one entry.
pub open spec fn non_empty_object(v: JVal, key: Seq<char>) -> bool {
    jobj(jget(v, key)) matches Some(o) && o.len() > 0
}

/// The stored model `a` configures strictly more than `b`: each of a non-empty `limit`
/// and a non-empty `options` object that `b` has, `a` has too, and `a` has one that `b`
/// lacks.
pub open spec fn configures_more(a: JVal, b: JVal) -> bool {
    &&& (non_empty_object(b, "limit"@) ==> non_empty_object(a, "limit"@))
    &&& (non_empty_object(b, "options"@) ==> non_empty_object(a, "options"@))
    &&& (non_empty_object(a, "limit"@) && !non_empty_object(b, "limit"@)
        || non_empty_object(a, "options"@) && !non_empty_object(b, "options"@))
}

/// Filling the OpenCode form lists the stored models by how much they configure: a model
/// whose stored object has a non-empty `options` object is never listed after a model
/// whose stored object has neither a non-empty `limit` nor a non-empty `options`
/// object; more generally a model never comes after one it configures more than; two
/// models of the same kind come larger id first. With no `currentModel`
/// text, the first listed model is the active one.
pub proof fn law_opencode_form_model_order(pre: ProviderAddFormState, post: ProviderAddFormState, p: Provider)
    requires
        opencode_filled(pre, post, p),
    ensures
        ({
            let s = p.settings_config.jv();
            let fm = models_view(post.opencode_models@);
            &&& jobj(jget(s, "models"@)) matches Some(ms) ==> forall|i: int, j: int|
                #![trigger fm[i], fm[j]]
                0 <= i < j < fm.len() && lookup(ms, fm[j].model_id) is Some && lookup(ms, fm[i].model_id) is Some
                    && non_empty_object(lookup(ms, fm[j].model_id).unwrap(), "options"@)
                    && !non_empty_object(lookup(ms, fm[i].model_id).unwrap(), "options"@)
                    && !non_empty_object(lookup(ms, fm[i].model_id).unwrap(), "limit"@) ==> false
            &&& jobj(jget(s, "models"@)) matches Some(ms) ==> forall|i: int, j: int|
                #![trigger fm[i], fm[j]]
                0 <= i < j < fm.len() && lookup(ms, fm[i].model_id) is Some && lookup(ms, fm[j].model_id) is Some
                    && configures_more(lookup(ms, fm[j].model_id).unwrap(), lookup(ms, fm[i].model_id).unwrap()) ==> false
            &&& jobj(jget(s, "models"@)) matches Some(ms) ==> forall|i: int, j: int|
                #![trigger fm[i], fm[j]]
                0 <= i < j < fm.len() && lookup(ms, fm[i].model_id) is Some && lookup(ms, fm[j].model_id) is Some
                    && non_empty_object(lookup(ms, fm[i].model_id).unwrap(), "options"@)
                        == non_empty_object(lookup(ms, fm[j].model_id).unwrap(), "options"@)
                    && non_empty_object(lookup(ms, fm[i].model_id).unwrap(), "limit"@)
                        == non_empty_object(lookup(ms, fm[j].model_id).unwrap(), "limit"@)
                    ==> !crate::text::str_lt(fm[i].model_id, fm[j].model_id)
            &&& jstr(jget(s, "currentModel"@)) is None && fm.len() > 0 ==> is_set_to(post.opencode_model_id, fm[0].model_id)
            &&& jstr(jget(s, "currentModel"@)) is Some ==> is_set_to(post.opencode_model_id, jstr(jget(s, "currentModel"@)).unwrap())
        }),
{
    let s = p.settings_config.jv();
    let fm = models_view(post.opencode_models@);
    if jobj(jget(s, "models"@)) is Some {
        let ms = jobj(jget(s, "models"@)).unwrap();
        assert forall|i: int, j: int|
            #![trigger fm[i], fm[j]]
            0 <= i < j < fm.len() && lookup(ms, fm[j].model_id) is Some && lookup(ms, fm[i].model_id) is Some
                && non_empty_object(lookup(ms, fm[j].model_id).unwrap(), "options"@)
                && !non_empty_object(lookup(ms, fm[i].model_id).unwrap(), "options"@)
                && !non_empty_object(lookup(ms, fm[i].model_id).unwrap(), "limit"@) implies false by {
            assert(!precedes(ms, fm[j].model_id, fm[i].model_id));
            assert(rank_of(ms, fm[j].model_id) >= 1);
            assert(rank_of(ms, fm[i].model_id) == 0);
        }
        assert forall|i: int, j: int|
            #![trigger fm[i], fm[j]]
            0 <= i < j < fm.len() && lookup(ms, fm[i].model_id) is Some && lookup(ms, fm[j].model_id) is Some
                && configures_more(lookup(ms, fm[j].model_id).unwrap(), lookup(ms, fm[i].model_id).unwrap())
                implies false by {
            assert(!precedes(ms, fm[j].model_id, fm[i].model_id));
            assert(rank_of(ms, fm[j].model_id) > rank_of(ms, fm[i].model_id));
        }
        assert forall|i: int, j: int|
            #![trigger fm[i], fm[j]]
            0 <= i < j < fm.len() && lookup(ms, fm[i].model_id) is Some && lookup(ms, fm[j].model_id) is Some
                && non_empty_object(lookup(ms, fm[i].model_id).unwrap(), "options"@)
                    == non_empty_object(lookup(ms, fm[j].model_id).unwrap(), "options"@)
                && non_empty_object(lookup(ms, fm[i].model_id).unwrap(), "limit"@)
                    == non_empty_object(lookup(ms, fm[j].model_id).unwrap(), "limit"@)
                implies !crate::text::str_lt(fm[i].model_id, fm[j].model_id) by {
            assert(!precedes(ms, fm[j].model_id, fm[i].model_id));
            assert(rank_of(ms, fm[j].model_id) == rank_of(ms, fm[i].model_id));
        }
    }
}

/// Filling the Anthropic CLI form picks each tier model from the `env` texts by its own
/// fallback order: Opus and Sonnet take their own setting, else `ANTHROPIC_MODEL`, else
/// `ANTHROPIC_SMALL_FAST_MODEL`; Haiku takes its own setting, else
/// `ANTHROPIC_SMALL_FAST_MODEL`, else `ANTHROPIC_MODEL`. A field with none of these is
/// kept.
pub proof fn law_claude_model_fallbacks(pre: ProviderAddFormState, post: ProviderAddFormState, p: Provider)
    requires
        claude_filled(pre, post, p),
    ensures
        ({
            let s = p.settings_config.jv();
            jobj(jget(s, "env"@)) is Some ==> {
                let e = jobj(jget(s, "env"@)).unwrap();
                let model = jstr(lookup(e, "ANTHROPIC_MODEL"@));
                let small = jstr(lookup(e, "ANTHROPIC_SMALL_FAST_MODEL"@));
                let opus = jstr(lookup(e, "ANTHROPIC_DEFAULT_OPUS_MODEL"@));
                let sonnet = jstr(lookup(e, "ANTHROPIC_DEFAULT_SONNET_MODEL"@));
                let haiku = jstr(lookup(e, "ANTHROPIC_DEFAULT_HAIKU_MODEL"@));
                &&& (opus is Some ==> is_set_to(post.claude_opus_model, opus.unwrap()))
                &&& (opus is None && model is Some ==> is_set_to(post.claude_opus_model, model.unwrap()))
                &&& (opus is None && model is None && small is Some ==> is_set_to(post.claude_opus_model, small.unwrap()))
                &&& (opus is None && model is None && small is None ==> post.claude_opus_model == pre.claude_opus_model)
                &&& (sonnet is Some ==> is_set_to(post.claude_sonnet_model, sonnet.unwrap()))
                &&& (sonnet is None && model is Some ==> is_set_to(post.claude_sonnet_model, model.unwrap()))
                &&& (sonnet is None && model is None && small is Some ==> is_set_to(post.claude_sonnet_model, small.unwrap()))
                &&& (sonnet is None && model is None && small is None ==> post.claude_sonnet_model == pre.claude_sonnet_model)
                &&& (haiku is Some ==> is_set_to(post.claude_haiku_model, haiku.unwrap()))
                &&& (haiku is None && small is Some ==> is_set_to(post.claude_haiku_model, small.unwrap()))
                &&& (haiku is None && small is None && model is Some ==> is_set_to(post.claude_haiku_model, model.unwrap()))
                &&& (haiku is None && small is None && model is None ==> post.claude_haiku_model == pre.claude_haiku_model)
                &&& (model is Some ==> is_set_to(post.claude_model, model.unwrap()))
                &&& (model is None ==> post.claude_model == pre.claude_model)
                &&& (jstr(lookup(e, "ANTHROPIC_AUTH_TOKEN"@)) is Some ==> is_set_to(post.claude_api_key, jstr(lookup(e, "ANTHROPIC_AUTH_TOKEN"@)).unwrap()))
                &&& (jstr(lookup(e, "ANTHROPIC_AUTH_TOKEN"@)) is None ==> post.claude_api_key == pre.claude_api_key)
                &&& (jstr(lookup(e, "ANTHROPIC_BASE_URL"@)) is Some ==> is_set_to(post.claude_base_url, jstr(lookup(e, "ANTHROPIC_BASE_URL"@)).unwrap()))
                &&& (jstr(lookup(e, "ANTHROPIC_BASE_URL"@)) is None ==> post.claude_base_url == pre.claude_base_url)
            }
        }),
{
}

/// While a field of the model detail page is edited, each key asks for its own edit of
/// the field shown at `field_idx`: Delete removes the character under the cursor and
/// Backspace the one before it, the arrows, Home and End move the cursor, Esc and Enter
/// commit, and a printable character typed without Control is inserted.
pub proof fn law_detail_editing_keys(key: KeyPress, field_idx: usize, r: EditStep)
    requires
        r == edit_step(key, field_idx),
    ensures
        ({
            let field = detail_field(field_idx as int);
            &&& key.code == KeyCode::Delete ==> r == EditStep::DeleteChar { field }
            &&& key.code == KeyCode::Backspace ==> r == EditStep::Backspace { field }
            &&& key.code == KeyCode::Left ==> r == EditStep::Move { field, to: CursorMove::Left }
            &&& key.code == KeyCode::Right ==> r == EditStep::Move { field, to: CursorMove::Right }
            &&& key.code == KeyCode::Home ==> r == EditStep::Move { field, to: CursorMove::Home }
            &&& key.code == KeyCode::End ==> r == EditStep::Move { field, to: CursorMove::End }
            &&& (key.code == KeyCode::Esc || key.code == KeyCode::Enter) ==> r == EditStep::Commit
            &&& (key.code is Char && !key.control && (key.code->Char_0 as u32) >= 0x20 && (key.code->Char_0 as u32) != 0x7f
                && !(0x80 <= (key.code->Char_0 as u32) && (key.code->Char_0 as u32) <= 0x9f)) ==> r == EditStep::Insert { field, c: key.code->Char_0 }
            &&& (key.code is Char && key.control) ==> r == EditStep::Stay
        }),
{
}

/// Filling the OpenCode form copies the connection fields and lists every stored model
/// once: `npm`, `options.apiKey` and `options.baseURL` texts are set when present and
/// kept otherwise; each listed model is a stored one, under its id, with its stored
/// name text (or none) and its stored `limit.context` and `limit.output` numbers, and
/// remembers its id as its original id; there are as many listed models as stored ones.
/// Without a `models` object the list is kept. The active model's fields show the
/// first listed model with the active id: its name (its id when the name is empty) and
/// its limits as decimal text.
pub proof fn law_opencode_form_fields(pre: ProviderAddFormState, post: ProviderAddFormState, p: Provider)
    requires
        opencode_filled(pre, post, p),
    ensures
        ({
            let s = p.settings_config.jv();
            let fm = models_view(post.opencode_models@);
            let opts = jobj(jget(s, "options"@));
            &&& jstr(jget(s, "npm"@)) is Some ==> is_set_to(post.opencode_npm_package, jstr(jget(s, "npm"@)).unwrap())
            &&& jstr(jget(s, "npm"@)) is None ==> post.opencode_npm_package == pre.opencode_npm_package
            &&& (opts is Some && jstr(lookup(opts.unwrap(), "apiKey"@)) is Some) ==> is_set_to(
                post.opencode_api_key,
                jstr(lookup(opts.unwrap(), "apiKey"@)).unwrap(),
            )
            &&& !(opts is Some && jstr(lookup(opts.unwrap(), "apiKey"@)) is Some) ==> post.opencode_api_key == pre.opencode_api_key
            &&& (opts is Some && jstr(lookup(opts.unwrap(), "baseURL"@)) is Some) ==> is_set_to(
                post.opencode_base_url,
                jstr(lookup(opts.unwrap(), "baseURL"@)).unwrap(),
            )
            &&& !(opts is Some && jstr(lookup(opts.unwrap(), "baseURL"@)) is Some) ==> post.opencode_base_url == pre.opencode_base_url
            &&& jobj(jget(s, "models"@)) is None ==> post.opencode_models == pre.opencode_models
            &&& jobj(jget(s, "models"@)) matches Some(ms) ==> fm.len() == ms.len() && forall|i: int| 0 <= i < fm.len() ==> exists|j: int|
                0 <= j < ms.len() && #[trigger] fm[i].model_id == #[trigger] ms[j].0
                && fm[i].original_model_id == Some(ms[j].0)
                && (jstr(jget(ms[j].1, "name"@)) is Some ==> fm[i].model_name == jstr(jget(ms[j].1, "name"@)).unwrap())
                && (jstr(jget(ms[j].1, "name"@)) is None ==> fm[i].model_name.len() == 0)
                && fm[i].input_limit == (match jobj(jget(ms[j].1, "limit"@)) {
                    Some(l) => ju64(lookup(l, "context"@)),
                    None => None,
                })
                && fm[i].output_limit == (match jobj(jget(ms[j].1, "limit"@)) {
                    Some(l) => ju64(lookup(l, "output"@)),
                    None => None,
                })
            &&& forall|k: int| 0 <= k < fm.len() && (jstr(jget(s, "currentModel"@)) == Some(#[trigger] fm[k].model_id)
                || jstr(jget(s, "currentModel"@)) is None && fm[0].model_id == fm[k].model_id)
                && (forall|j: int| 0 <= j < k ==> fm[j].model_id != fm[k].model_id) ==> {
                    &&& is_set_to(post.opencode_model_id, fm[k].model_id)
                    &&& is_set_to(post.opencode_model_name, if fm[k].model_name.len() > 0 { fm[k].model_name } else { fm[k].model_id })
                    &&& (fm[k].input_limit is Some ==> is_set_to(post.opencode_model_context_limit, decimal_spec(fm[k].input_limit.unwrap() as nat)))
                    &&& (fm[k].input_limit is None ==> post.opencode_model_context_limit == pre.opencode_model_context_limit)
                    &&& (fm[k].output_limit is Some ==> is_set_to(post.opencode_model_output_limit, decimal_spec(fm[k].output_limit.unwrap() as nat)))
                    &&& (fm[k].output_limit is None ==> post.opencode_model_output_limit == pre.opencode_model_output_limit)
                }
        }),
{
    broadcast use vstd::seq_lib::to_multiset_contains, vstd::seq_lib::group_to_multiset_ensures;
    let s = p.settings_config.jv();
    let fm = models_view(post.opencode_models@);
    if jobj(jget(s, "models"@)) is Some {
        let ms = jobj(jget(s, "models"@)).unwrap();
        let lm = listed_models(ms);
        assert(fm.to_multiset() == lm.to_multiset());
        fm.to_multiset_ensures();
        lm.to_multiset_ensures();
        assert(fm.len() == lm.len());
        assert forall|i: int| 0 <= i < fm.len() implies exists|j: int|
            0 <= j < ms.len() && #[trigger] fm[i].model_id == #[trigger] ms[j].0
            && fm[i].original_model_id == Some(ms[j].0)
            && (jstr(jget(ms[j].1, "name"@)) is Some ==> fm[i].model_name == jstr(jget(ms[j].1, "name"@)).unwrap())
            && (jstr(jget(ms[j].1, "name"@)) is None ==> fm[i].model_name.len() == 0)
            && fm[i].input_limit == (match jobj(jget(ms[j].1, "limit"@)) {
                Some(l) => ju64(lookup(l, "context"@)),
                None => None,
            })
            && fm[i].output_limit == (match jobj(jget(ms[j].1, "limit"@)) {
                Some(l) => ju64(lookup(l, "output"@)),
                None => None,
            }) by {
            assert(fm.contains(fm[i]));
            assert(fm.to_multiset().count(fm[i]) > 0);
            assert(lm.contains(fm[i]));
            let j = choose|j: int| 0 <= j < lm.len() && lm[j] == fm[i];
            assert(lm[j] == crate::form_load::listed_model(ms[j].0, ms[j].1));
        }
    }
    assert forall|k: int| 0 <= k < fm.len() && (jstr(jget(s, "currentModel"@)) == Some(#[trigger] fm[k].model_id)
        || jstr(jget(s, "currentModel"@)) is None && fm[0].model_id == fm[k].model_id)
        && (forall|j: int| 0 <= j < k ==> fm[j].model_id != fm[k].model_id) implies {
            &&& is_set_to(post.opencode_model_id, fm[k].model_id)
            &&& is_set_to(post.opencode_model_name, if fm[k].model_name.len() > 0 { fm[k].model_name } else { fm[k].model_id })
            &&& (fm[k].input_limit is Some ==> is_set_to(post.opencode_model_context_limit, decimal_spec(fm[k].input_limit.unwrap() as nat)))
            &&& (fm[k].input_limit is None ==> post.opencode_model_context_limit == pre.opencode_model_context_limit)
            &&& (fm[k].output_limit is Some ==> is_set_to(post.opencode_model_output_limit, decimal_spec(fm[k].output_limit.unwrap() as nat)))
            &&& (fm[k].output_limit is None ==> post.opencode_model_output_limit == pre.opencode_model_output_limit)
        } by {
        let kf = keyed(fm);
        let id = fm[k].model_id;
        assert(kf[k].0 == id);
        assert(crate::assoc::has_key(kf, id));
        crate::assoc::lemma_key_index(kf, id);
        let m = crate::assoc::key_index(kf, id);
        assert(m == k) by {
            if m < k {
                assert(kf[m].0 == fm[m].model_id);
            }
            if m > k {
                assert(kf[k].0 == id);
            }
        }
        assert(crate::assoc::lookup(kf, id) == Some(fm[k]));
    }
}

/// The API format a format name selects: `openai_chat` and `openai_responses` select the
/// OpenAI formats, any other name the Anthropic format.
pub open spec fn named_format(f: Seq<char>) -> ClaudeApiFormat {
    if f == "openai_chat"@ {
        ClaudeApiFormat::OpenAiChat
    } else if f == "openai_responses"@ {
        ClaudeApiFormat::OpenAiResponses
    } else {
        ClaudeApiFormat::Anthropic
    }
}

/// The Anthropic CLI form takes its API format from the provider's recorded format, else
/// from the `api_format` text of its settings, else the OpenRouter compatibility flag
/// turns on the OpenAI chat format (a `true` boolean, a non-zero integer, or the text
/// `true` or `1` in any case and spacing), else it is the Anthropic format. Filling it
/// leaves the other providers' fields alone.
pub proof fn law_claude_api_format(pre: ProviderAddFormState, post: ProviderAddFormState, p: Provider)
    requires
        claude_filled(pre, post, p),
    ensures
        ({
            let s = p.settings_config.jv();
            let recorded = if p.meta is Some && p.meta.unwrap().api_format is Some {
                Some(p.meta.unwrap().api_format.unwrap()@)
            } else {
                None
            };
            let stored = jstr(jget(s, "api_format"@));
            let flag = jget(s, "openrouter_compat_mode"@);
            &&& recorded is Some ==> post.claude_api_format == named_format(recorded.unwrap())
            &&& recorded is None && stored is Some ==> post.claude_api_format == named_format(stored.unwrap())
            &&& recorded is None && stored is None && flag == Some(JVal::Bool(true)) ==> post.claude_api_format == ClaudeApiFormat::OpenAiChat
            &&& recorded is None && stored is None && (flag is None || flag == Some(JVal::Bool(false)) || flag == Some(JVal::Null))
                ==> post.claude_api_format == ClaudeApiFormat::Anthropic
            &&& recorded is None && stored is None && flag == Some(JVal::Number(crate::json::JsonNumber::PosInt(0)))
                ==> post.claude_api_format == ClaudeApiFormat::Anthropic
            &&& recorded is None && stored is None && (flag matches Some(JVal::Number(crate::json::JsonNumber::PosInt(n))) && n != 0
                && n <= i64::MAX) ==> post.claude_api_format == ClaudeApiFormat::OpenAiChat
            &&& recorded is None && stored is None && (flag matches Some(JVal::Str(t))
                && crate::text::ascii_lower_spec(crate::text::trim_spec(t)) == "true"@) ==> post.claude_api_format == ClaudeApiFormat::OpenAiChat
            &&& post.same_codex(&pre) && post.same_gemini(&pre) && post.same_opencode_base(&pre) && post.same_models(&pre)
            &&& post.same_openclaw(&pre) && post.same_nav(&pre)
        }),
{
}

/// The Gemini form: with an `env` object, the API key text sets the key and selects API
/// key authentication (OAuth without one); the base URL comes from
/// `GOOGLE_GEMINI_BASE_URL` when that key is present, else from `GEMINI_BASE_URL`; the
/// model from `GEMINI_MODEL`. Without `env`, OAuth is selected and the fields are kept.
pub proof fn law_gemini_form(pre: ProviderAddFormState, post: ProviderAddFormState, p: Provider)
    requires
        gemini_filled(pre, post, p),
    ensures
        ({
            let s = p.settings_config.jv();
            &&& jobj(jget(s, "env"@)) is None ==> post.gemini_auth_type == GeminiAuthType::OAuth
                && post.gemini_api_key == pre.gemini_api_key && post.gemini_base_url == pre.gemini_base_url
                && post.gemini_model == pre.gemini_model
            &&& jobj(jget(s, "env"@)) is Some ==> {
                let e = jobj(jget(s, "env"@)).unwrap();
                let key = jstr(lookup(e, "GEMINI_API_KEY"@));
                let url = if lookup(e, "GOOGLE_GEMINI_BASE_URL"@) is Some {
                    jstr(lookup(e, "GOOGLE_GEMINI_BASE_URL"@))
                } else {
                    jstr(lookup(e, "GEMINI_BASE_URL"@))
                };
                let model = jstr(lookup(e, "GEMINI_MODEL"@));
                &&& post.gemini_auth_type == (if key is Some { GeminiAuthType::ApiKey } else { GeminiAuthType::OAuth })
                &&& (key is Some ==> is_set_to(post.gemini_api_key, key.unwrap()))
                &&& (key is None ==> post.gemini_api_key == pre.gemini_api_key)
                &&& (url is Some ==> is_set_to(post.gemini_base_url, url.unwrap()))
                &&& (url is None ==> post.gemini_base_url == pre.gemini_base_url)
                &&& (model is Some ==> is_set_to(post.gemini_model, model.unwrap()))
                &&& (model is None ==> post.gemini_model == pre.gemini_model)
            }
            &&& post.same_claude(&pre) && post.same_codex(&pre) && post.same_opencode_base(&pre) && post.same_models(&pre)
            &&& post.same_openclaw(&pre) && post.same_nav(&pre)
        }),
{
}

/// The Codex form: with a `config` text, the values its reading gives (base URL, model,
/// wire API, OpenAI auth flag, env key) are set and the others kept; without one all
/// are kept. The API key comes from `auth.OPENAI_API_KEY`.
pub proof fn law_codex_form(pre: ProviderAddFormState, post: ProviderAddFormState, p: Provider, parsed: CodexConfigSnippet)
    requires
        codex_filled(pre, post, p, parsed),
    ensures
        ({
            let s = p.settings_config.jv();
            let has_config = jstr(jget(s, "config"@)) is Some;
            let key = match jobj(jget(s, "auth"@)) {
                Some(a) => jstr(lookup(a, "OPENAI_API_KEY"@)),
                None => None,
            };
            &&& (has_config && parsed.base_url is Some) ==> is_set_to(post.codex_base_url, parsed.base_url.unwrap()@)
            &&& !(has_config && parsed.base_url is Some) ==> post.codex_base_url == pre.codex_base_url
            &&& (has_config && parsed.model is Some) ==> is_set_to(post.codex_model, parsed.model.unwrap()@)
            &&& !(has_config && parsed.model is Some) ==> post.codex_model == pre.codex_model
            &&& (has_config && parsed.wire_api is Some) ==> post.codex_wire_api == parsed.wire_api.unwrap()
            &&& !(has_config && parsed.wire_api is Some) ==> post.codex_wire_api == pre.codex_wire_api
            &&& (has_config && parsed.requires_openai_auth is Some) ==> post.codex_requires_openai_auth == parsed.requires_openai_auth.unwrap()
            &&& !(has_config && parsed.requires_openai_auth is Some) ==> post.codex_requires_openai_auth == pre.codex_requires_openai_auth
            &&& (has_config && parsed.env_key is Some) ==> is_set_to(post.codex_env_key, parsed.env_key.unwrap()@)
            &&& !(has_config && parsed.env_key is Some) ==> post.codex_env_key == pre.codex_env_key
            &&& key is Some ==> is_set_to(post.codex_api_key, key.unwrap())
            &&& key is None ==> post.codex_api_key == pre.codex_api_key
            &&& post.same_claude(&pre) && post.same_gemini(&pre) && post.same_opencode_base(&pre) && post.same_models(&pre)
            &&& post.same_openclaw(&pre) && post.same_nav(&pre)
        }),
{
}

/// The OpenClaw form: `apiKey` and `baseUrl` texts are set when present; the protocol
/// field takes the `api` text, or the default protocol; a `User-Agent` header turns the
/// user-agent flag on (it is never turned off); a `models` array replaces the model
/// list; and the first model's `id`, `name` and `contextWindow` fill the model fields
/// (the id also becoming the original id), each kept when absent.
pub proof fn law_openclaw_form(pre: ProviderAddFormState, post: ProviderAddFormState, p: Provider)
    requires
        openclaw_filled(pre, post, p),
    ensures
        ({
            let s = p.settings_config.jv();
            let models = jarr(jget(s, "models"@));
            let first = if av(post.openclaw_models@).len() > 0 { Some(av(post.openclaw_models@)[0]) } else { None };
            &&& jstr(jget(s, "apiKey"@)) is Some ==> is_set_to(post.opencode_api_key, jstr(jget(s, "apiKey"@)).unwrap())
            &&& jstr(jget(s, "apiKey"@)) is None ==> post.opencode_api_key == pre.opencode_api_key
            &&& jstr(jget(s, "baseUrl"@)) is Some ==> is_set_to(post.opencode_base_url, jstr(jget(s, "baseUrl"@)).unwrap())
            &&& jstr(jget(s, "baseUrl"@)) is None ==> post.opencode_base_url == pre.opencode_base_url
            &&& jstr(jget(s, "api"@)) is Some ==> is_set_to(post.opencode_npm_package, jstr(jget(s, "api"@)).unwrap())
            &&& jstr(jget(s, "api"@)) is None ==> is_set_to(post.opencode_npm_package, crate::form_load::OPENCLAW_DEFAULT_API_PROTOCOL@)
            &&& pre.openclaw_user_agent ==> post.openclaw_user_agent
            &&& (jobj(jget(s, "headers"@)) matches Some(h) && crate::assoc::has_key(h, "User-Agent"@)) ==> post.openclaw_user_agent
            &&& !pre.openclaw_user_agent && !(jobj(jget(s, "headers"@)) matches Some(h) && crate::assoc::has_key(h, "User-Agent"@))
                ==> !post.openclaw_user_agent
            &&& models is Some ==> av(post.openclaw_models@) == models.unwrap()
            &&& models is None ==> av(post.openclaw_models@) == av(pre.openclaw_models@)
            &&& (first is Some && jstr(jget(first.unwrap(), "id"@)) is Some) ==> is_set_to(post.opencode_model_id, jstr(jget(first.unwrap(), "id"@)).unwrap())
                && opt_str_view(post.opencode_model_original_id) == jstr(jget(first.unwrap(), "id"@))
            &&& !(first is Some && jstr(jget(first.unwrap(), "id"@)) is Some) ==> post.opencode_model_id == pre.opencode_model_id
                && opt_str_view(post.opencode_model_original_id) == opt_str_view(pre.opencode_model_original_id)
            &&& (first is Some && jstr(jget(first.unwrap(), "name"@)) is Some) ==> is_set_to(post.opencode_model_name, jstr(jget(first.unwrap(), "name"@)).unwrap())
            &&& !(first is Some && jstr(jget(first.unwrap(), "name"@)) is Some) ==> post.opencode_model_name == pre.opencode_model_name
            &&& (first is Some && ju64(jget(first.unwrap(), "contextWindow"@)) is Some) ==> is_set_to(
                post.opencode_model_context_limit,
                decimal_spec(ju64(jget(first.unwrap(), "contextWindow"@)).unwrap() as nat),
            )
            &&& !(first is Some && ju64(jget(first.unwrap(), "contextWindow"@)) is Some) ==> post.opencode_model_context_limit == pre.opencode_model_context_limit
            &&& post.same_claude(&pre) && post.same_codex(&pre) && post.same_gemini(&pre)
            &&& post.opencode_models == pre.opencode_models && post.opencode_model_idx == pre.opencode_model_idx
            &&& post.opencode_model_output_limit == pre.opencode_model_output_limit && post.same_nav(&pre)
        }),
{
}

/// The model detail page shows four different fields, top to bottom: name, id, context
/// limit, output limit; a position past the last shows the output limit.
pub proof fn law_detail_fields()
    ensures
        detail_field(0) == ProviderAddField::OpenCodeModelName,
        detail_field(1) == ProviderAddField::OpenCodeModelId,
        detail_field(2) == ProviderAddField::OpenCodeModelContextLimit,
        detail_field(3) == ProviderAddField::OpenCodeModelOutputLimit,
        forall|i: int, j: int| 0 <= i < 4 && 0 <= j < 4 && i != j ==> #[trigger] detail_field(i) != #[trigger] detail_field(j),
        forall|i: int| i >= 3 ==> #[trigger] detail_field(i) == ProviderAddField::OpenCodeModelOutputLimit,
{
}

/// A model's row in the model list: a model without a name shows its id in upper case;
/// a named model shows its name, two spaces, and its id in parentheses.
pub proof fn law_model_list_row(m: OpenCodeModelDraft, row: Seq<char>)
    requires
        row == list_item_spec(m),
    ensures
        is_blank(m.model_name@) ==> row == unicode_upper(m.model_id@),
        !is_blank(m.model_name@) ==> m.model_name@.is_prefix_of(row) && row.len() == m.model_name@.len() + m.model_id@.len() + 4
            && row.subrange(m.model_name@.len() as int, m.model_name@.len() + 3int) == seq![' ', ' ', '(']
            && row.subrange(m.model_name@.len() + 3int, row.len() - 1) == m.model_id@ && row.last() == ')',
{
    if !is_blank(m.model_name@) {
        reveal_strlit("  (");
        reveal_strlit(")");
        let n = m.model_name@;
        assert(row.subrange(0, n.len() as int) =~= n);
        assert(row.subrange(n.len() as int, n.len() + 3int) =~= seq![' ', ' ', '(']);
        assert(row.subrange(n.len() + 3int, row.len() - 1) =~= m.model_id@);
    }
}

/// Keys on the model detail page while no field is edited: Up and Down move one field
/// within the four; Enter on the id field asks to fetch models from the trimmed base URL
/// (with the API key when it is not blank), or warns when the base URL is blank; Enter
/// on another field starts editing it; Esc selects the shown model in the list and
/// leaves without editing; Delete asks to delete the shown model when it has an id. No
/// key changes the models or the connection fields.
pub proof fn law_detail_navigation(key: KeyPress, f: ProviderAddFormState, g: ProviderAddFormState, idx: usize, idx2: usize, r: NavStep)
    requires
        f.field_idx < 4,
        nav_done(key, f, g, idx, idx2, r),
    ensures
        g.opencode_models == f.opencode_models,
        g.opencode_model_idx == f.opencode_model_idx,
        g.opencode_base_url == f.opencode_base_url && g.opencode_api_key == f.opencode_api_key,
        key.code == KeyCode::Up ==> g.field_idx == (if f.field_idx == 0 { 0 } else { f.field_idx - 1 }) && r is Stay,
        key.code == KeyCode::Down ==> g.field_idx == (if f.field_idx == 3 { 3 } else { f.field_idx + 1 }) && r is Stay,
        key.code == KeyCode::Enter && f.field_idx == 1 && is_blank(f.opencode_base_url.value@)
            ==> r == NavStep::Warn(DetailToast::BaseUrlRequired) && g.editing == f.editing,
        key.code == KeyCode::Enter && f.field_idx == 1 && !is_blank(f.opencode_base_url.value@)
            ==> r is Fetch && r->base_url@ == trim_spec(f.opencode_base_url.value@) && (is_blank(f.opencode_api_key.value@)
            <==> r->api_key is None) && (r->api_key is Some ==> r->api_key.unwrap()@ == f.opencode_api_key.value@),
        key.code == KeyCode::Enter && f.field_idx != 1 ==> g.editing && r is Stay && g.field_idx == f.field_idx,
        (key.code == KeyCode::Esc || key.code == KeyCode::Char('q')) ==> r is Back && idx2 == f.opencode_model_idx && !g.editing,
        (key.code == KeyCode::Delete || key.code == KeyCode::Char('d')) && f.opencode_model_idx < f.opencode_models@.len()
            && f.opencode_models@[f.opencode_model_idx as int].model_id@.len() > 0 ==> r is ConfirmDelete
            && r->model_id@ == f.opencode_models@[f.opencode_model_idx as int].model_id@,
{
}

} // verus!

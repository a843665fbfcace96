use vstd::prelude::*;
use vstd::string::StringExecFns;
use crate::assoc::{has_key, lookup, assoc_insert, assoc_shift_remove, is_min_key, min_key, unique_keys};
use crate::json::JsonValue;
use crate::provider::{
    ModelMap, ModelView, OpenCodeModelDraft, model_entries, map_contains, map_get_index, map_insert,
    map_len, map_shift_remove,
};
use crate::text::{is_blank, trim_spec, str_lt};

verus! {

/// The editing state of one OpenCode provider: its base fields, its models by id,
/// the current model, whether anything changed since it was loaded, and the
/// settings document it was loaded from.
pub struct OpenCodeProviderDraft {
    pub provider_id: String,
    pub name: String,
    pub base_url: String,
    pub api_key: String,
    pub npm: String,
    pub models_by_id: ModelMap,
    pub current_model: String,
    pub dirty: bool,
    pub last_loaded_from_db: JsonValue,
}

pub open spec fn msg_model_id_required() -> Seq<char> {
    "Model ID is required"@
}

pub open spec fn msg_duplicated(id: Seq<char>) -> Seq<char> {
    "Duplicated model id `"@ + id + "`"@
}

pub open spec fn msg_not_found(id: Seq<char>) -> Seq<char> {
    "Model `"@ + id + "` not found"@
}

pub open spec fn msg_not_configured(id: Seq<char>) -> Seq<char> {
    "Current model `"@ + id + "` is not configured"@
}

pub open spec fn msg_positive() -> Seq<char> {
    "Must be positive integer"@
}

/// `prefix`, then `id`, then `suffix`.
fn framed(prefix: &str, id: &str, suffix: &str) -> (r: String)
    ensures
        r@ == prefix@ + id@ + suffix@,
{
    let mut s = String::from_str(prefix);
    s.append(id);
    s.append(suffix);
    s
}

/// The entry after a rename from `old_id` to `new_id`: it takes the new id and
/// remembers `old_id` as its original id unless it already had one.
pub open spec fn renamed(m: ModelView, old_id: Seq<char>, new_id: Seq<char>) -> ModelView {
    ModelView {
        model_id: new_id,
        original_model_id: if m.original_model_id is Some { m.original_model_id } else { Some(old_id) },
        ..m
    }
}

/// A limit is acceptable when it is absent or between 1 and `u32::MAX`.
pub open spec fn limit_ok(l: Option<u64>) -> bool {
    match l {
        Some(v) => v != 0 && v <= u32::MAX,
        None => true,
    }
}

/// What is wrong with one model entry, if anything.
pub open spec fn model_error(m: ModelView) -> Option<Seq<char>> {
    if is_blank(m.model_id) {
        Some(msg_model_id_required())
    } else if !limit_ok(m.input_limit) || !limit_ok(m.output_limit) {
        Some(msg_positive())
    } else {
        None
    }
}

/// The error of the first faulty model entry, if any.
pub open spec fn models_error(s: Seq<(Seq<char>, ModelView)>) -> Option<Seq<char>>
    decreases s.len(),
{
    if s.len() == 0 {
        None
    } else if model_error(s[0].1) is Some {
        model_error(s[0].1)
    } else {
        models_error(s.drop_first())
    }
}

impl OpenCodeProviderDraft {
    /// The model entries, in order.
    pub open spec fn entries(&self) -> Seq<(Seq<char>, ModelView)> {
        model_entries(self.models_by_id)
    }

    /// The fields that model edits leave alone are the same in both drafts.
    pub open spec fn same_base(&self, other: &Self) -> bool {
        &&& self.provider_id == other.provider_id
        &&& self.name == other.name
        &&& self.base_url == other.base_url
        &&& self.api_key == other.api_key
        &&& self.npm == other.npm
        &&& self.last_loaded_from_db == other.last_loaded_from_db
    }

    /// Both drafts hold the same fields and the same model entries.
    pub open spec fn same_view(&self, other: &Self) -> bool {
        &&& self.same_base(other)
        &&& self.entries() == other.entries()
        &&& self.current_model == other.current_model
        &&& self.dirty == other.dirty
    }

    /// Whether the draft has changes not yet saved.
    pub fn is_dirty(&self) -> (r: bool)
        ensures
            r == self.dirty,
    {
        self.dirty
    }

    /// Sets the unsaved-changes flag.
    pub fn set_dirty(&mut self, dirty: bool)
        ensures
            final(self).dirty == dirty,
            final(self).same_base(old(self)),
            final(self).models_by_id == old(self).models_by_id,
            final(self).current_model == old(self).current_model,
    {
        self.dirty = dirty;
    }

    /// The number of models.
    pub fn model_count(&self) -> (r: usize)
        ensures
            r == self.entries().len(),
    {
        map_len(&self.models_by_id)
    }

    /// Whether a model with this id is configured.
    pub fn has_model(&self, id: &str) -> (r: bool)
        ensures
            r == has_key(self.entries(), id@),
    {
        map_contains(&self.models_by_id, id)
    }

    /// Adds a model under its id. An id already present is refused and nothing changes.
    /// When the current model is blank, the first model becomes current.
    pub fn add_model(&mut self, draft: OpenCodeModelDraft) -> (r: Result<(), String>)
        ensures
            has_key(old(self).entries(), draft.model_id@) ==> r is Err && r->Err_0@ == msg_duplicated(draft.model_id@)
                && final(self).same_view(old(self)),
            !has_key(old(self).entries(), draft.model_id@) ==> r is Ok,
            !has_key(old(self).entries(), draft.model_id@) ==> final(self).entries() == old(self).entries().push(
                (draft.model_id@, draft.mv()),
            ),
            !has_key(old(self).entries(), draft.model_id@) ==> final(self).current_model@ == if is_blank(
                old(self).current_model@,
            ) {
                final(self).entries()[0].0
            } else {
                old(self).current_model@
            },
            !has_key(old(self).entries(), draft.model_id@) ==> final(self).dirty,
            !has_key(old(self).entries(), draft.model_id@) ==> unique_keys(old(self).entries()) && unique_keys(
                final(self).entries(),
            ),
            final(self).same_base(old(self)),
    {
        if self.has_model(draft.model_id.as_str()) {
            return Err(framed("Duplicated model id `", draft.model_id.as_str(), "`"));
        }
        let key = draft.model_id.clone();
        let _ = map_insert(&mut self.models_by_id, key, draft);
        if crate::text::is_blank_str(self.current_model.as_str()) {
            self.current_model = first_key(&self.models_by_id);
        }
        self.dirty = true;
        Ok(())
    }

    /// Removes the model with this id and returns it; nothing changes when there is none.
    /// When it was the current model, the smallest remaining id in code-point order
    /// becomes current, or the empty string when no model remains.
    pub fn remove_model(&mut self, id: &str) -> (r: Option<OpenCodeModelDraft>)
        ensures
            !has_key(old(self).entries(), id@) ==> r is None && final(self).same_view(old(self)),
            has_key(old(self).entries(), id@) ==> r is Some && r.unwrap().mv() == lookup(old(self).entries(), id@).unwrap(),
            has_key(old(self).entries(), id@) ==> final(self).entries() == assoc_shift_remove(old(self).entries(), id@),
            has_key(old(self).entries(), id@) ==> final(self).current_model@ == if old(self).current_model@ == id@ {
                min_key(final(self).entries())
            } else {
                old(self).current_model@
            },
            has_key(old(self).entries(), id@) ==> final(self).dirty,
            has_key(old(self).entries(), id@) ==> !has_key(final(self).entries(), id@) && final(self).entries().len()
                == old(self).entries().len() - 1,
            unique_keys(old(self).entries()),
            unique_keys(final(self).entries()),
            final(self).same_base(old(self)),
    {
        let removed = map_shift_remove(&mut self.models_by_id, id);
        proof {
            if has_key(old(self).entries(), id@) {
                crate::draft_laws::law_remove_model(old(self).entries(), id@, id@);
            }
        }
        match removed {
            None => None,
            Some(d) => {
                if crate::text::str_eq(self.current_model.as_str(), id) {
                    self.current_model = smallest_key(&self.models_by_id);
                }
                self.dirty = true;
                Some(d)
            },
        }
    }

    /// Renames a model, keeping the map key, the entry's id and the current model in step.
    /// The new id is trimmed first; a blank id, an id taken by another model, or an
    /// unknown old id is refused and nothing changes.
    pub fn rename_model(&mut self, old_id: &str, new_id: String) -> (r: Result<(), String>)
        ensures
            ({
                let t = trim_spec(new_id@);
                let e = old(self).entries();
                &&& t.len() == 0 ==> r is Err && r->Err_0@ == msg_model_id_required()
                &&& t.len() != 0 && old_id@ != t && has_key(e, t) ==> r is Err && r->Err_0@ == msg_duplicated(t)
                &&& t.len() != 0 && !(old_id@ != t && has_key(e, t)) && !has_key(e, old_id@) ==> r is Err
                    && r->Err_0@ == msg_not_found(old_id@)
                &&& r is Err ==> final(self).same_view(old(self))
                &&& t.len() != 0 && !(old_id@ != t && has_key(e, t)) && has_key(e, old_id@) ==> r is Ok
                &&& r is Ok ==> final(self).entries() == assoc_insert(
                    assoc_shift_remove(e, old_id@),
                    t,
                    renamed(lookup(e, old_id@).unwrap(), old_id@, t),
                )
                &&& r is Ok ==> final(self).current_model@ == if old(self).current_model@ == old_id@ {
                    t
                } else {
                    old(self).current_model@
                }
                &&& r is Ok ==> final(self).dirty
                &&& r is Ok ==> unique_keys(e) && unique_keys(final(self).entries())
                &&& r is Ok && old_id@ != t ==> !has_key(final(self).entries(), old_id@)
                &&& r is Ok ==> has_key(final(self).entries(), t)
                &&& r is Ok ==> final(self).entries().len() == e.len()
            }),
            final(self).same_base(old(self)),
    {
        let new_id = crate::text::trim_owned(new_id.as_str());
        if new_id.as_str().is_empty() {
            return Err(String::from_str("Model ID is required"));
        }
        if !crate::text::str_eq(old_id, new_id.as_str()) && self.has_model(new_id.as_str()) {
            return Err(framed("Duplicated model id `", new_id.as_str(), "`"));
        }
        let removed = map_shift_remove(&mut self.models_by_id, old_id);
        let mut draft = match removed {
            Some(d) => d,
            None => {
                return Err(framed("Model `", old_id, "` not found"));
            },
        };
        if draft.original_model_id.is_none() {
            draft.original_model_id = Some(old_id.to_string());
        }
        draft.model_id = new_id.clone();
        let _ = map_insert(&mut self.models_by_id, new_id.clone(), draft);
        proof {
            crate::draft_laws::law_rename_model(old(self).entries(), old_id@, new_id@, old_id@);
        }
        if crate::text::str_eq(self.current_model.as_str(), old_id) {
            self.current_model = new_id;
        }
        self.dirty = true;
        Ok(())
    }

    /// Checks that the draft can be saved: every model has a non-blank id and limits
    /// between 1 and `u32::MAX`, and a non-blank current model is configured.
    /// The first faulty model, in order, gives the error.
    pub fn validate_for_save(&self) -> (r: Result<(), String>)
        ensures
            models_error(self.entries()) is Some ==> r is Err && r->Err_0@ == models_error(self.entries()).unwrap(),
            models_error(self.entries()) is None && !is_blank(self.current_model@) && !has_key(
                self.entries(),
                self.current_model@,
            ) ==> r is Err && r->Err_0@ == msg_not_configured(self.current_model@),
            models_error(self.entries()) is None && (is_blank(self.current_model@) || has_key(
                self.entries(),
                self.current_model@,
            )) ==> r is Ok,
    {
        let n = map_len(&self.models_by_id);
        let ghost e = self.entries();
        let mut i: usize = 0;
        assert(e.skip(0) =~= e);
        while i < n
            invariant
                n == e.len(),
                e == self.entries(),
                i <= n,
                models_error(e) == models_error(e.skip(i as int)),
            decreases n - i,
        {
            let (_, model) = map_get_index(&self.models_by_id, i).unwrap();
            proof {
                assert(e.skip(i as int)[0] == e[i as int]);
                assert(e.skip(i as int).drop_first() =~= e.skip(i + 1));
            }
            if crate::text::is_blank_str(model.model_id.as_str()) {
                return Err(String::from_str("Model ID is required"));
            }
            let bad_in = match model.input_limit {
                Some(v) => v == 0 || v > 4294967295u64,
                None => false,
            };
            let bad_out = match model.output_limit {
                Some(v) => v == 0 || v > 4294967295u64,
                None => false,
            };
            if bad_in || bad_out {
                return Err(String::from_str("Must be positive integer"));
            }
            i = i + 1;
        }
        if !crate::text::is_blank_str(self.current_model.as_str()) && !self.has_model(self.current_model.as_str()) {
            return Err(framed("Current model `", self.current_model.as_str(), "` is not configured"));
        }
        Ok(())
    }
}

/// The first key of the map, or the empty string when it is empty.
pub fn first_key(m: &ModelMap) -> (r: String)
    ensures
        r@ == if model_entries(*m).len() > 0 { model_entries(*m)[0].0 } else { Seq::empty() },
{
    match map_get_index(m, 0) {
        Some((k, _)) => k.clone(),
        None => String::new(),
    }
}

/// The smallest key of the map in code-point order, or the empty string when it is empty.
pub fn smallest_key(m: &ModelMap) -> (r: String)
    ensures
        r@ == min_key(model_entries(*m)),
{
    let n = map_len(m);
    let ghost e = model_entries(*m);
    if n == 0 {
        proof { crate::assoc::lemma_min_key_empty(e); }
        return String::new();
    }
    let (k0, _) = map_get_index(m, 0).unwrap();
    let mut best = k0.clone();
    proof { crate::text::lemma_str_lt_irreflexive(best@); }
    let mut i: usize = 1;
    while i < n
        invariant
            n == e.len(),
            e == model_entries(*m),
            1 <= i <= n,
            exists|j: int| 0 <= j < i && #[trigger] e[j].0 == best@,
            forall|j: int| 0 <= j < i ==> !str_lt(#[trigger] e[j].0, best@),
        decreases n - i,
    {
        let (k, _) = map_get_index(m, i).unwrap();
        if crate::text::string_lt(k, &best) {
            proof {
                assert forall|j: int| 0 <= j < i + 1 implies !str_lt(#[trigger] e[j].0, k@) by {
                    if j == i {
                        crate::text::lemma_str_lt_irreflexive(k@);
                    } else if str_lt(e[j].0, k@) {
                        crate::text::lemma_str_lt_transitive(e[j].0, k@, best@);
                    }
                }
                assert(e[i as int].0 == k@);
            }
            best = k.clone();
        }
        i = i + 1;
    }
    proof {
        assert(is_min_key(e, best@));
        crate::assoc::lemma_min_key_unique(e, best@);
    }
    best
}

} // verus!

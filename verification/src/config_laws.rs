use vstd::prelude::*;
use crate::assoc::{assoc_insert, lemma_lookup_insert, lemma_swap_remove, lookup, unique_keys, has_key};
use crate::json::{JVal, jget, jstr};
use crate::opencode_config::{
    can_index, current_model_set, provider_map_ok, root_entries, section_entries, section_remove, section_set,
    with_section,
};

verus! {

/// The `currentModel` text of provider `pid` in a configuration.
pub open spec fn current_model_of(c: JVal, pid: Seq<char>) -> Option<Seq<char>> {
    jstr(jget(lookup(section_entries(c, "provider"@), pid).unwrap_or(JVal::Null), "currentModel"@))
}

proof fn lemma_with_section(c: JVal, section: Seq<char>, k: Seq<char>)
    requires
        can_index(c, section),
    ensures
        k != section ==> lookup(with_section(c, section), k) == lookup(root_entries(c), k),
        section_entries(JVal::Object(with_section(c, section)), section) == section_entries(c, section),
        c is Object ==> c == JVal::Object(root_entries(c)),
{
    if jget(c, section) is None {
        lemma_lookup_insert(root_entries(c), section, JVal::Object(Seq::empty()), k);
        lemma_lookup_insert(root_entries(c), section, JVal::Object(Seq::empty()), section);
    }
}

/// Setting the current model of a provider: reading it back gives the model set; every
/// other provider and every other top-level key keeps its value.
pub proof fn law_set_current_model(c: JVal, pid: Seq<char>, m: Seq<char>, other: Seq<char>, k: Seq<char>)
    requires
        can_index(c, "provider"@),
        provider_map_ok(c),
    ensures
        current_model_of(current_model_set(c, pid, m), pid) == Some(m),
        other != pid ==> lookup(section_entries(current_model_set(c, pid, m), "provider"@), other) == lookup(
            section_entries(c, "provider"@),
            other,
        ),
        k != "provider"@ ==> lookup(root_entries(current_model_set(c, pid, m)), k) == lookup(root_entries(c), k),
{
    let o = with_section(c, "provider"@);
    let p = section_entries(JVal::Object(o), "provider"@);
    let prov = match lookup(p, pid) {
        Some(JVal::Object(x)) => x,
        _ => Seq::empty(),
    };
    let inner = JVal::Object(assoc_insert(prov, "currentModel"@, JVal::Str(m)));
    let pv = JVal::Object(assoc_insert(p, pid, inner));
    lemma_with_section(c, "provider"@, k);
    lemma_lookup_insert(o, "provider"@, pv, "provider"@);
    lemma_lookup_insert(o, "provider"@, pv, k);
    lemma_lookup_insert(p, pid, inner, pid);
    lemma_lookup_insert(p, pid, inner, other);
    lemma_lookup_insert(prov, "currentModel"@, JVal::Str(m), "currentModel"@);
}

/// Setting an entry of a section (`provider` or `mcp`) whose map is an object: reading the
/// section gives the value set under its id; every other entry and every other top-level
/// key keeps its value.
pub proof fn law_section_set(c: JVal, section: Seq<char>, id: Seq<char>, v: JVal, other: Seq<char>, k: Seq<char>)
    requires
        can_index(c, section),
        crate::json::jobj(lookup(with_section(c, section), section)) is Some,
    ensures
        lookup(section_entries(section_set(c, section, id, v), section), id) == Some(v),
        other != id ==> lookup(section_entries(section_set(c, section, id, v), section), other) == lookup(
            section_entries(c, section),
            other,
        ),
        k != section ==> lookup(root_entries(section_set(c, section, id, v)), k) == lookup(root_entries(c), k),
{
    let o = with_section(c, section);
    let p = section_entries(JVal::Object(o), section);
    let pv = JVal::Object(assoc_insert(p, id, v));
    lemma_with_section(c, section, k);
    lemma_lookup_insert(o, section, pv, section);
    lemma_lookup_insert(o, section, pv, k);
    lemma_lookup_insert(p, id, v, id);
    lemma_lookup_insert(p, id, v, other);
}

/// Removing an entry of a section whose entries have unique ids: the id is gone, every
/// other entry and every other top-level key keeps its value.
pub proof fn law_section_remove(c: JVal, section: Seq<char>, id: Seq<char>, other: Seq<char>, k: Seq<char>)
    requires
        unique_keys(section_entries(c, section)),
    ensures
        !has_key(section_entries(section_remove(c, section, id), section), id),
        other != id ==> lookup(section_entries(section_remove(c, section, id), section), other) == lookup(
            section_entries(c, section),
            other,
        ),
        k != section ==> lookup(root_entries(section_remove(c, section, id)), k) == lookup(root_entries(c), k),
{
    let p = section_entries(c, section);
    lemma_swap_remove(p, id, id);
    lemma_swap_remove(p, id, other);
    if let JVal::Object(o) = c {
        if let Some(JVal::Object(q)) = lookup(o, section) {
            let pv = JVal::Object(crate::assoc::assoc_swap_remove(q, id));
            lemma_lookup_insert(o, section, pv, section);
            lemma_lookup_insert(o, section, pv, k);
        }
    }
}

} // verus!
